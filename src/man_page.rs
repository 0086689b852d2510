//! The plain manual page: a viewer with search and mouse selection, whose
//! selection is only highlighted.
use vstd::prelude::*;
use crate::events::{Area, KeyCode, KeyEvent, MouseEvent, MouseEventKind};
use crate::reader_page::ReaderOutcome;
use crate::selection::{PositionAbsolut, Selection};
use crate::viewer::{classify_key, view_step, viewer_key, TextView, ViewAction};

verus! {

/// The state of the plain manual page.
pub struct ManPageState {
    pub view: TextView,
    pub selection: Option<Selection>,
    pub selection_active: bool,
}

impl ManPageState {
    /// The view is well formed, and a screen row plus the scroll offset
    /// stays a valid index.
    pub open spec fn wf(&self) -> bool {
        &&& self.view.wf()
        &&& self.view.lines.len() <= usize::MAX - 65536
    }

    /// The page over `lines`, at the top.
    pub fn new(lines: Vec<String>) -> (r: Self)
        requires
            lines.len() <= usize::MAX - 65536,
        ensures
            r.wf(),
            r.view.lines@ == lines@,
            r.view.scroll_offset == 0,
            !r.view.search_active,
            r.view.search@.len() == 0,
            r.selection is None,
            !r.selection_active,
    {
        ManPageState { view: TextView::new(lines), selection: None, selection_active: false }
    }

    pub fn scroll_up(&mut self)
        requires
            old(self).wf(),
        ensures
            final(self).wf(),
            view_step(old(self).view, final(self).view, ViewAction::ScrollUp),
            final(self).selection == old(self).selection,
            final(self).selection_active == old(self).selection_active,
    {
        self.view.scroll_up();
    }

    pub fn scroll_down(&mut self)
        requires
            old(self).wf(),
        ensures
            final(self).wf(),
            view_step(old(self).view, final(self).view, ViewAction::ScrollDown),
            final(self).selection == old(self).selection,
            final(self).selection_active == old(self).selection_active,
    {
        self.view.scroll_down();
    }

    pub fn select_next_search(&mut self)
        requires
            old(self).wf(),
        ensures
            final(self).wf(),
            view_step(old(self).view, final(self).view, ViewAction::NextMatch),
            final(self).selection == old(self).selection,
            final(self).selection_active == old(self).selection_active,
    {
        self.view.select_next_search();
    }

    pub fn select_previous_search(&mut self)
        requires
            old(self).wf(),
        ensures
            final(self).wf(),
            view_step(old(self).view, final(self).view, ViewAction::PreviousMatch),
            final(self).selection == old(self).selection,
            final(self).selection_active == old(self).selection_active,
    {
        self.view.select_previous_search();
    }

    /// Handles a key as the reader does: Esc closes the search field, else
    /// drops the selection, else leaves when there is no search text, else
    /// clears the search.
    pub fn on_key(&mut self, key: KeyEvent) -> (r: ReaderOutcome)
        requires
            old(self).wf(),
        ensures
            final(self).wf(),
            final(self).selection_active == old(self).selection_active,
            final(self).view.lines == old(self).view.lines,
            key.code != KeyCode::Esc ==> r == ReaderOutcome::Stay && view_step(
                old(self).view,
                final(self).view,
                viewer_key(old(self).view.search_active, key),
            ) && final(self).selection == old(self).selection,
            key.code == KeyCode::Esc && old(self).view.search_active ==> r == ReaderOutcome::Stay
                && view_step(old(self).view, final(self).view, ViewAction::CloseSearch)
                && final(self).selection == old(self).selection,
            key.code == KeyCode::Esc && !old(self).view.search_active && old(self).selection is Some
                ==> r == ReaderOutcome::Stay && final(self).view == old(self).view
                && final(self).selection is None,
            key.code == KeyCode::Esc && !old(self).view.search_active && old(self).selection is None
                && old(self).view.search@.len() == 0 ==> r == ReaderOutcome::Leave
                && *final(self) == *old(self),
            key.code == KeyCode::Esc && !old(self).view.search_active && old(self).selection is None
                && old(self).view.search@.len() > 0 ==> r == ReaderOutcome::Stay && view_step(
                old(self).view,
                final(self).view,
                ViewAction::ClearSearch,
            ) && final(self).selection is None,
    {
        if key.code == KeyCode::Esc {
            if self.view.search_active {
                self.view.apply(ViewAction::CloseSearch);
            } else if self.selection.is_some() {
                self.selection = None;
            } else if self.view.search == String::new() {
                return ReaderOutcome::Leave;
            } else {
                assert(self.view.search@.len() > 0) by {
                    if self.view.search@.len() == 0 {
                        assert(self.view.search@ =~= Seq::<char>::empty());
                    }
                }
                self.view.apply(ViewAction::ClearSearch);
            }
            ReaderOutcome::Stay
        } else {
            let a = classify_key(self.view.search_active, key);
            self.view.apply(a);
            ReaderOutcome::Stay
        }
    }
    /// Handles a mouse event over the text, shown in `area`. Only events
    /// inside count. The wheel scrolls; a press starts a selection at the
    /// cell's row moved down by the scroll offset; a drag moves its end.
    pub fn on_content_mouse(&mut self, e: MouseEvent, area: Option<Area>)
        requires
            old(self).wf(),
        ensures
            final(self).wf(),
            (area is None || !area->0.holds(e.column as int, e.row as int)) ==> *final(self) == *old(self),
            (area is Some && area->0.holds(e.column as int, e.row as int)) ==> ({
                let pos = PositionAbsolut {
                    x: e.column as usize,
                    y: (e.row + old(self).view.scroll_offset) as usize,
                };
                match e.kind {
                    MouseEventKind::ScrollUp => final(self).selection == old(self).selection
                        && final(self).selection_active == old(self).selection_active && view_step(
                        old(self).view,
                        final(self).view,
                        ViewAction::ScrollUp,
                    ),
                    MouseEventKind::ScrollDown => final(self).selection == old(self).selection
                        && final(self).selection_active == old(self).selection_active && view_step(
                        old(self).view,
                        final(self).view,
                        ViewAction::ScrollDown,
                    ),
                    MouseEventKind::Down => final(self).view == (TextView {
                        search_active: false,
                        ..old(self).view
                    }) && final(self).selection == Some(Selection { start: pos, end: pos })
                        && !final(self).selection_active,
                    MouseEventKind::Drag => final(self).view == old(self).view
                        && final(self).selection_active && final(self).selection == match old(self).selection {
                        Some(s) => Some(Selection { start: s.start, end: pos }),
                        None => None,
                    },
                    _ => *final(self) == *old(self),
                }
            }),
    {
        let a = match area {
            Some(a) => a,
            None => {
                return;
            },
        };
        if !a.contains(e.column, e.row) {
            return;
        }
        let pos = PositionAbsolut::new(e.column as usize, e.row as usize + self.view.scroll_offset);
        match e.kind {
            MouseEventKind::ScrollUp => self.view.scroll_up(),
            MouseEventKind::ScrollDown => self.view.scroll_down(),
            MouseEventKind::Down => {
                self.view.search_active = false;
                self.selection_active = false;
                self.selection = Some(Selection::new(pos, pos));
            },
            MouseEventKind::Drag => {
                self.selection_active = true;
                match self.selection {
                    Some(s) => {
                        self.selection = Some(Selection::new(s.start, pos));
                    },
                    None => {},
                }
            },
            _ => {},
        }
    }
}

} // verus!
