//! The reader page: a manual page in a viewer, with mouse selection and
//! copying of the selected text.
use vstd::prelude::*;
use crate::events::{Area, KeyCode, KeyEvent, MouseEvent, MouseEventKind};
use crate::selection::{
    extract_text_from_lines, extracted, in_view, cells_sorted, sat, PositionAbsolut, PositionScreen,
    Selection,
};
use crate::text::{chars_of, line_views};
use crate::viewer::{classify_key, view_step, viewer_key, TextView, ViewAction};

verus! {

/// The columns between the frame and the text.
pub const READER_PADDING_X: usize = 2;

/// The rows between the frame and the text.
pub const READER_PADDING_Y: usize = 1;

/// The state of the reader page.
pub struct ReaderPageState {
    pub view: TextView,
    /// The mouse selection, in document positions.
    pub selection: Option<Selection>,
    /// The mouse has been dragged since it went down.
    pub selection_active: bool,
    pub padding_x: usize,
    pub padding_y: usize,
}

/// What a key asks of the page around the reader.
#[derive(Clone, Copy, PartialEq, Eq, Structural, Debug)]
pub enum ReaderOutcome {
    Stay,
    /// Go back to the list.
    Leave,
}

/// What a key does to the reader page: `old` becomes `new`, and the page asks for `r`.
pub open spec fn reader_key_step(pre: ReaderPageState, post: ReaderPageState, key: KeyEvent, r: ReaderOutcome) -> bool {
    &&& (post.wf())
    &&& (post.padding_x == pre.padding_x)
    &&& (post.padding_y == pre.padding_y)
    &&& (post.selection_active == pre.selection_active)
    &&& (post.view.lines == pre.view.lines)
    &&& (key.code != KeyCode::Esc ==> r == ReaderOutcome::Stay && view_step(
                pre.view,
                post.view,
                viewer_key(pre.view.search_active, key),
            ) && post.selection == pre.selection)
    &&& (key.code == KeyCode::Esc && pre.view.search_active ==> r == ReaderOutcome::Stay
                && view_step(pre.view, post.view, ViewAction::CloseSearch) && post.selection == pre.selection)
    &&& (key.code == KeyCode::Esc && !pre.view.search_active && pre.selection is Some
                ==> r == ReaderOutcome::Stay && post.view == pre.view && post.selection is None)
    &&& (key.code == KeyCode::Esc && !pre.view.search_active && pre.selection is None
                && pre.view.search@.len() == 0 ==> r == ReaderOutcome::Leave && post.view
                == pre.view && post.selection is None)
    &&& (key.code == KeyCode::Esc && !pre.view.search_active && pre.selection is None
                && pre.view.search@.len() > 0 ==> r == ReaderOutcome::Stay && view_step(
                pre.view,
                post.view,
                ViewAction::ClearSearch,
            ) && post.selection is None)
}

/// What a mouse event over the text does to the reader page, which hands out `r` to copy.
pub open spec fn content_mouse_step(pre: ReaderPageState, post: ReaderPageState, e: MouseEvent, area: Option<Area>, r: Option<String>) -> bool {
    &&& (post.wf())
    &&& (post.padding_x == pre.padding_x)
    &&& (post.padding_y == pre.padding_y)
    &&& (post.view.lines == pre.view.lines)
    &&& (area is None ==> r is None && post == pre)
    &&& (area is Some ==> ({
                let inside = area->0.holds(e.column as int, e.row as int);
                let pos = PositionAbsolut {
                    x: sat(e.column - pre.padding_x) as usize,
                    y: sat(e.row + pre.view.scroll_offset - pre.padding_y) as usize,
                };
                match e.kind {
                    MouseEventKind::ScrollUp => r is None && post.selection == pre.selection && post.selection_active == pre.selection_active
                        && view_step(
                        pre.view,
                        post.view,
                        if inside {
                            ViewAction::ScrollUp
                        } else {
                            ViewAction::Nothing
                        },
                    ),
                    MouseEventKind::ScrollDown => r is None && post.selection == pre.selection && post.selection_active == pre.selection_active
                        && view_step(
                        pre.view,
                        post.view,
                        if inside {
                            ViewAction::ScrollDown
                        } else {
                            ViewAction::Nothing
                        },
                    ),
                    MouseEventKind::Down => r is None && if inside {
                        &&& post.view == (TextView {
                            search_active: false,
                            ..pre.view
                        })
                        &&& post.selection == Some(Selection { start: pos, end: pos })
                        &&& !post.selection_active
                    } else {
                        post == pre
                    },
                    MouseEventKind::Drag => r is None && post.view == pre.view
                        && post.selection_active && post.selection == match pre.selection {
                        Some(s) => Some(Selection { start: s.start, end: pos }),
                        None => None,
                    },
                    MouseEventKind::Up => post.view == pre.view && post.selection is None && !post.selection_active && match pre.selection {
                        Some(s) => if s.start != s.end {
                            r is Some && r->0@ == extracted(line_views(pre.view.lines@), s)
                        } else {
                            r is None
                        },
                        None => r is None,
                    },
                    MouseEventKind::Other => r is None && post == pre,
                }
            }))
}

/// What a mouse event over the search field does to the reader page.
pub open spec fn reader_search_mouse_step(pre: ReaderPageState, post: ReaderPageState, e: MouseEvent, area: Option<Area>) -> bool {
    &&& (post.wf())
    &&& ((area is Some && area->0.holds(e.column as int, e.row as int) && e.kind
                == MouseEventKind::Down) ==> post.view == (TextView {
                search_active: true,
                ..pre.view
            }) && post.selection is None && !post.selection_active
                && post.padding_x == pre.padding_x && post.padding_y == pre.padding_y)
    &&& (!(area is Some && area->0.holds(e.column as int, e.row as int) && e.kind
                == MouseEventKind::Down) ==> post == pre)
}

impl ReaderPageState {
    /// The view is well formed, and a screen row plus the scroll offset
    /// stays a valid index.
    pub open spec fn wf(&self) -> bool {
        &&& self.view.wf()
        &&& self.view.lines.len() <= usize::MAX - 65536
    }

    /// The page over `lines`, at the top, with nothing selected.
    pub fn new(lines: Vec<String>) -> (r: Self)
        requires
            lines.len() <= usize::MAX - 65536,
        ensures
            r.wf(),
            r.view.lines@ == lines@,
            r.view.scroll_offset == 0,
            !r.view.search_active,
            r.view.search@.len() == 0,
            r.view.matches@.len() == 0,
            r.selection is None,
            !r.selection_active,
            r.padding_x == READER_PADDING_X,
            r.padding_y == READER_PADDING_Y,
    {
        ReaderPageState {
            view: TextView::new(lines),
            selection: None,
            selection_active: false,
            padding_x: READER_PADDING_X,
            padding_y: READER_PADDING_Y,
        }
    }

    pub fn select_next_search(&mut self)
        requires
            old(self).wf(),
        ensures
            final(self).wf(),
            view_step(old(self).view, final(self).view, ViewAction::NextMatch),
            final(self).selection == old(self).selection,
            final(self).selection_active == old(self).selection_active,
    {
        self.view.select_next_search();
    }

    pub fn select_previous_search(&mut self)
        requires
            old(self).wf(),
        ensures
            final(self).wf(),
            view_step(old(self).view, final(self).view, ViewAction::PreviousMatch),
            final(self).selection == old(self).selection,
            final(self).selection_active == old(self).selection_active,
    {
        self.view.select_previous_search();
    }

    /// Handles a key. Esc closes the search field if it is open, else drops
    /// the selection if there is one, else leaves for the list if there is
    /// no search text, else clears the search. Other keys act on the view.
    pub fn on_key(&mut self, key: KeyEvent) -> (r: ReaderOutcome)
        requires
            old(self).wf(),
        ensures
            reader_key_step(*old(self), *final(self), key, r),
    {
        if key.code == KeyCode::Esc {
            if self.view.search_active {
                self.view.apply(ViewAction::CloseSearch);
            } else if self.selection.is_some() {
                self.selection = None;
            } else if self.view.search == String::new() {
                assert(self.view.search@.len() == 0);
                return ReaderOutcome::Leave;
            } else {
                assert(self.view.search@.len() > 0) by {
                    if self.view.search@.len() == 0 {
                        assert(self.view.search@ =~= Seq::<char>::empty());
                    }
                }
                self.view.apply(ViewAction::ClearSearch);
            }
            ReaderOutcome::Stay
        } else {
            let a = classify_key(self.view.search_active, key);
            self.view.apply(a);
            ReaderOutcome::Stay
        }
    }

    /// Takes the selection away and gives the text that it covers.
    pub fn copy_selection(&mut self) -> (r: Option<String>)
        requires
            old(self).wf(),
        ensures
            final(self).wf(),
            final(self).view == old(self).view,
            final(self).selection is None,
            final(self).selection_active == old(self).selection_active,
            final(self).padding_x == old(self).padding_x,
            final(self).padding_y == old(self).padding_y,
            match old(self).selection {
                Some(s) => r is Some && r->0@ == extracted(line_views(old(self).view.lines@), s),
                None => r is None,
            },
    {
        match self.selection.take() {
            Some(s) => Some(extract_text_from_lines(&self.view.lines, &s)),
            None => None,
        }
    }

    /// Handles a mouse event over the text, shown in `area` at the last
    /// frame (`None` before the first). The wheel scrolls; a press inside
    /// starts a selection at the document position under the cell and takes
    /// the keys from the search field; a drag moves the selection's end; a
    /// release drops the selection and gives the text that it covers if it
    /// spans more than one cell.
    pub fn on_content_mouse(&mut self, e: MouseEvent, area: Option<Area>) -> (r: Option<String>)
        requires
            old(self).wf(),
        ensures
            content_mouse_step(*old(self), *final(self), e, area, r),
    {
        let area = match area {
            Some(a) => a,
            None => {
                return None;
            },
        };
        let inside = area.contains(e.column, e.row);
        let pos = PositionAbsolut::from_screen(
            PositionScreen::new(e.column as usize, e.row as usize),
            self.view.scroll_offset,
            self.padding_x,
            self.padding_y,
        );
        match e.kind {
            MouseEventKind::ScrollUp => {
                if inside {
                    self.view.apply(ViewAction::ScrollUp);
                }
                None
            },
            MouseEventKind::ScrollDown => {
                if inside {
                    self.view.apply(ViewAction::ScrollDown);
                }
                None
            },
            MouseEventKind::Down => {
                if inside {
                    self.view.search_active = false;
                    self.selection = Some(Selection::new(pos, pos));
                    self.selection_active = false;
                }
                None
            },
            MouseEventKind::Drag => {
                self.selection_active = true;
                match self.selection {
                    Some(s) => {
                        self.selection = Some(Selection::new(s.start, pos));
                    },
                    None => {},
                }
                None
            },
            MouseEventKind::Up => {
                let spans_cells = match self.selection {
                    Some(s) => s.start != s.end,
                    None => false,
                };
                let copied = if spans_cells {
                    self.copy_selection()
                } else {
                    None
                };
                self.selection = None;
                self.selection_active = false;
                copied
            },
            MouseEventKind::Other => None,
        }
    }

    /// Handles a mouse event over the search field, shown in `area`: a press
    /// inside gives it the keys and drops the selection.
    pub fn on_search_mouse(&mut self, e: MouseEvent, area: Option<Area>)
        requires
            old(self).wf(),
        ensures
            reader_search_mouse_step(*old(self), *final(self), e, area),
    {
        if let Some(a) = area {
            if a.contains(e.column, e.row) && e.kind == MouseEventKind::Down {
                self.view.search_active = true;
                self.selection = None;
                self.selection_active = false;
            }
        }
    }

    /// The cells to highlight for the selection in the text area `area`
    /// while the mouse is dragged: those of the area that lie between the
    /// selection's ends on screen, in reading order.
    pub fn selection_cells(&self, area: Area) -> (r: Vec<PositionScreen>)
        requires
            self.wf(),
        ensures
            cells_sorted(r@),
            !(self.selection_active && self.selection is Some) ==> r@.len() == 0,
            (self.selection_active && self.selection is Some && self.selection->0.start.x
                + self.padding_x <= usize::MAX && self.selection->0.start.y + self.padding_y
                <= usize::MAX && self.selection->0.end.x + self.padding_x <= usize::MAX
                && self.selection->0.end.y + self.padding_y <= usize::MAX) ==> forall|c: PositionScreen|
                r@.contains(c) <==> in_view(
                    c,
                    self.selection->0.screen_ends(self.view.scroll_offset, self.padding_x, self.padding_y).0,
                    self.selection->0.screen_ends(self.view.scroll_offset, self.padding_x, self.padding_y).1,
                    area.x as usize,
                    (area.x + area.width) as usize,
                    area.y as usize,
                    (area.y + area.height) as usize,
                ),
    {
        if !self.selection_active {
            return Vec::new();
        }
        let s = match self.selection {
            Some(s) => s,
            None => {
                return Vec::new();
            },
        };
        if s.start.x > usize::MAX - self.padding_x || s.end.x > usize::MAX - self.padding_x
            || s.start.y > usize::MAX - self.padding_y || s.end.y > usize::MAX - self.padding_y {
            return Vec::new();
        }
        s.iter_on_screen(
            area.x as usize,
            area.x as usize + area.width as usize,
            area.y as usize,
            area.y as usize + area.height as usize,
            self.view.scroll_offset,
            self.padding_x,
            self.padding_y,
        )
    }

    /// Where to highlight the selected match in a text area `height` rows
    /// high: its cell `(x, y)` (the inverse of the mapping from cells to
    /// positions) and the width of the search text, when that row is inside
    /// the frame.
    pub fn match_highlight(&self, height: usize) -> (r: Option<(usize, usize, usize)>)
        requires
            self.wf(),
        ensures
            match self.view.selected_match {
                None => r is None,
                Some(i) => ({
                    let (row, col) = self.view.matches@[i as int];
                    let y = sat(row + self.padding_y - self.view.scroll_offset);
                    if row + self.padding_y <= usize::MAX && col + self.padding_x <= usize::MAX && y > 0
                        && y + 1 < height {
                        r == Some(((col + self.padding_x) as usize, y as usize, self.view.search@.len() as usize))
                    } else {
                        r is None
                    }
                }),
            },
    {
        let (row, col) = match self.view.selected_match() {
            Some(m) => m,
            None => {
                return None;
            },
        };
        if row > usize::MAX - self.padding_y || col > usize::MAX - self.padding_x {
            return None;
        }
        let cell = PositionAbsolut::new(col, row).into_screen(
            self.view.scroll_offset,
            self.padding_x,
            self.padding_y,
        );
        if cell.y > 0 && cell.y < height && height - cell.y > 1 {
            Some((cell.x, cell.y, chars_of(self.view.search.as_str()).len()))
        } else {
            None
        }
    }
}

} // verus!
