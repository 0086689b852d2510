//! A scrolled document with incremental search: the core of the viewer pages.
use vstd::prelude::*;
use crate::events::{KeyCode, KeyEvent, KeyModifiers};
use crate::selection::sat;
use crate::text::{all_matches, find_matches, lower_of, lowered_lines, pop_char, push_char};

verus! {

/// How many rows a selected match keeps from the edges of the viewport.
pub const SEARCH_PADDING: usize = 2;

/// The smaller of `a` and `b`.
pub open spec fn min_int(a: int, b: int) -> int {
    if a < b {
        a
    } else {
        b
    }
}

/// The scroll offset that brings `row` into the band of the viewport of
/// height `h` that keeps `SEARCH_PADDING` rows from its edges, by the least
/// movement; an offset that already shows it there is kept. The bottom edge
/// leaves out three rows of frame.
pub open spec fn follow_row(scroll: int, h: int, max: int, row: int) -> int {
    let last = sat(scroll + sat(h - 3) - SEARCH_PADDING);
    let s1 = if row > last {
        min_int(scroll + (row - last), max)
    } else {
        scroll
    };
    if row < s1 + SEARCH_PADDING {
        sat(row - SEARCH_PADDING)
    } else {
        s1
    }
}

/// The match selected by "next": the first one, or the one after the current
/// one, held at the last.
pub open spec fn next_index(sel: Option<usize>, len: int) -> int {
    match sel {
        Some(i) => min_int(i + 1, len - 1),
        None => 0,
    }
}

/// The match selected by "previous": the first one, or the one before the
/// current one, held at the first.
pub open spec fn previous_index(sel: Option<usize>, len: int) -> int {
    match sel {
        Some(i) => sat(i - 1),
        None => 0,
    }
}

/// A document of lines seen through a viewport of `page_height` rows.
pub struct TextView {
    /// The lines, as plain text.
    pub lines: Vec<String>,
    /// The first row shown.
    pub scroll_offset: usize,
    /// The height of the viewport.
    pub page_height: usize,
    /// The largest scroll offset: the document's height less the viewport's.
    pub max_scroll_pos: usize,
    /// Keys go to the search field.
    pub search_active: bool,
    /// The search text.
    pub search: String,
    /// The selected match, as an index into `matches`.
    pub selected_match: Option<usize>,
    /// The matches of the search text, in row-then-column order.
    pub matches: Vec<(usize, usize)>,
}

impl TextView {
    /// The scroll offset lies in `[0, max(0, lines - page_height)]` and the
    /// selected match exists.
    pub open spec fn wf(&self) -> bool {
        &&& self.max_scroll_pos == sat(self.lines.len() - self.page_height)
        &&& self.scroll_offset <= self.max_scroll_pos
        &&& (self.selected_match matches Some(i) ==> i < self.matches.len())
    }

    /// The same view with the scroll offset `s`.
    pub open spec fn scrolled(self, s: int) -> TextView {
        TextView { scroll_offset: s as usize, ..self }
    }

    /// A view of `lines` at the top, with no search.
    pub fn new(lines: Vec<String>) -> (r: Self)
        ensures
            r.wf(),
            r.lines@ == lines@,
            r.scroll_offset == 0,
            r.page_height == 0,
            !r.search_active,
            r.search@.len() == 0,
            r.selected_match is None,
            r.matches@.len() == 0,
    {
        let n = lines.len();
        TextView {
            lines,
            scroll_offset: 0,
            page_height: 0,
            max_scroll_pos: n,
            search_active: false,
            search: String::new(),
            selected_match: None,
            matches: Vec::new(),
        }
    }

    /// The viewport now has `height` rows; the scroll offset is held to the
    /// new bound.
    pub fn set_page_height(&mut self, height: usize)
        requires
            old(self).wf(),
        ensures
            final(self).wf(),
            *final(self) == (TextView {
                page_height: height,
                max_scroll_pos: sat(old(self).lines.len() - height) as usize,
                scroll_offset: min_int(old(self).scroll_offset as int, sat(old(self).lines.len() - height)) as usize,
                ..*old(self)
            }),
    {
        self.page_height = height;
        self.max_scroll_pos = self.lines.len().saturating_sub(height);
        if self.scroll_offset > self.max_scroll_pos {
            self.scroll_offset = self.max_scroll_pos;
        }
    }

    /// One row up, stopping at the top.
    pub fn scroll_up(&mut self)
        requires
            old(self).wf(),
        ensures
            final(self).wf(),
            *final(self) == old(self).scrolled(sat(old(self).scroll_offset - 1)),
    {
        self.scroll_offset = self.scroll_offset.saturating_sub(1);
    }

    /// One row down, stopping at the largest offset.
    pub fn scroll_down(&mut self)
        requires
            old(self).wf(),
        ensures
            final(self).wf(),
            *final(self) == old(self).scrolled(
                min_int(old(self).scroll_offset + 1, old(self).max_scroll_pos as int),
            ),
    {
        if self.scroll_offset < self.max_scroll_pos {
            self.scroll_offset = self.scroll_offset + 1;
        }
    }

    /// Half a viewport down, stopping at the largest offset.
    pub fn half_page_down(&mut self)
        requires
            old(self).wf(),
        ensures
            final(self).wf(),
            *final(self) == old(self).scrolled(
                min_int(
                    old(self).scroll_offset + old(self).page_height / 2,
                    old(self).max_scroll_pos as int,
                ),
            ),
    {
        let half = self.page_height / 2;
        if half < self.max_scroll_pos - self.scroll_offset {
            self.scroll_offset = self.scroll_offset + half;
        } else {
            self.scroll_offset = self.max_scroll_pos;
        }
    }

    /// Half a viewport up, stopping at the top.
    pub fn half_page_up(&mut self)
        requires
            old(self).wf(),
        ensures
            final(self).wf(),
            *final(self) == old(self).scrolled(
                sat(old(self).scroll_offset - old(self).page_height / 2),
            ),
    {
        self.scroll_offset = self.scroll_offset.saturating_sub(self.page_height / 2);
    }

    /// To the first row.
    pub fn scroll_to_top(&mut self)
        requires
            old(self).wf(),
        ensures
            final(self).wf(),
            *final(self) == old(self).scrolled(0),
    {
        self.scroll_offset = 0;
    }

    /// To the largest offset.
    pub fn scroll_to_bottom(&mut self)
        requires
            old(self).wf(),
        ensures
            final(self).wf(),
            *final(self) == old(self).scrolled(old(self).max_scroll_pos as int),
    {
        self.scroll_offset = self.max_scroll_pos;
    }

    /// Scrolls so that `row` is shown within the padding band.
    fn follow(&mut self, row: usize)
        requires
            old(self).wf(),
        ensures
            final(self).wf(),
            *final(self) == old(self).scrolled(
                follow_row(
                    old(self).scroll_offset as int,
                    old(self).page_height as int,
                    old(self).max_scroll_pos as int,
                    row as int,
                ),
            ),
    {
        let hh: u128 = if self.page_height >= 3 { (self.page_height - 3) as u128 } else { 0 };
        let top: u128 = self.scroll_offset as u128 + hh;
        let last: u128 = if top >= SEARCH_PADDING as u128 { top - SEARCH_PADDING as u128 } else { 0 };
        let r: u128 = row as u128;
        if r > last {
            let wanted: u128 = self.scroll_offset as u128 + (r - last);
            if wanted < self.max_scroll_pos as u128 {
                self.scroll_offset = wanted as usize;
            } else {
                self.scroll_offset = self.max_scroll_pos;
            }
        }
        if row < self.scroll_offset || row - self.scroll_offset < SEARCH_PADDING {
            self.scroll_offset = row.saturating_sub(SEARCH_PADDING);
        }
    }

    /// Selects the next match (the first, if none is selected), holding at
    /// the last, and scrolls it into view. Nothing happens without matches.
    pub fn select_next_search(&mut self)
        requires
            old(self).wf(),
        ensures
            final(self).wf(),
            old(self).matches.len() == 0 ==> *final(self) == *old(self),
            old(self).matches.len() > 0 ==> ({
                let i = next_index(old(self).selected_match, old(self).matches.len() as int);
                *final(self) == (TextView {
                    selected_match: Some(i as usize),
                    ..old(self).scrolled(
                        follow_row(
                            old(self).scroll_offset as int,
                            old(self).page_height as int,
                            old(self).max_scroll_pos as int,
                            old(self).matches@[i].0 as int,
                        ),
                    )
                })
            }),
    {
        if self.matches.len() == 0 {
            return;
        }
        let i = match self.selected_match {
            Some(s) => if s + 1 < self.matches.len() { s + 1 } else { self.matches.len() - 1 },
            None => 0,
        };
        self.selected_match = Some(i);
        let row = self.matches[i].0;
        self.follow(row);
    }

    /// Selects the previous match (the first, if none is selected), holding
    /// at the first, and scrolls it into view. Nothing happens without matches.
    pub fn select_previous_search(&mut self)
        requires
            old(self).wf(),
        ensures
            final(self).wf(),
            old(self).matches.len() == 0 ==> *final(self) == *old(self),
            old(self).matches.len() > 0 ==> ({
                let i = previous_index(old(self).selected_match, old(self).matches.len() as int);
                *final(self) == (TextView {
                    selected_match: Some(i as usize),
                    ..old(self).scrolled(
                        follow_row(
                            old(self).scroll_offset as int,
                            old(self).page_height as int,
                            old(self).max_scroll_pos as int,
                            old(self).matches@[i].0 as int,
                        ),
                    )
                })
            }),
    {
        if self.matches.len() == 0 {
            return;
        }
        let i = match self.selected_match {
            Some(s) => s.saturating_sub(1),
            None => 0,
        };
        self.selected_match = Some(i);
        let row = self.matches[i].0;
        self.follow(row);
    }

    /// The position of the selected match.
    pub fn selected_match(&self) -> (r: Option<(usize, usize)>)
        requires
            self.wf(),
        ensures
            r == match self.selected_match {
                Some(i) => Some(self.matches@[i as int]),
                None => None,
            },
    {
        match self.selected_match {
            Some(i) => Some(self.matches[i]),
            None => None,
        }
    }

    /// Appends `ch` to the search text, recomputes the matches over every
    /// line, and selects the first of them.
    pub fn type_search_char(&mut self, ch: char)
        requires
            old(self).wf(),
        ensures
            final(self).wf(),
            final(self).search@ == old(self).search@.push(ch),
            final(self).matches@ == all_matches(lowered_lines(old(self).lines@), lower_of(final(self).search@)),
            final(self).lines == old(self).lines,
            final(self).page_height == old(self).page_height,
            final(self).max_scroll_pos == old(self).max_scroll_pos,
            final(self).search_active == old(self).search_active,
            final(self).matches.len() == 0 ==> final(self).selected_match is None
                && final(self).scroll_offset == old(self).scroll_offset,
            final(self).matches.len() > 0 ==> final(self).selected_match == Some(0usize)
                && final(self).scroll_offset == follow_row(
                old(self).scroll_offset as int,
                old(self).page_height as int,
                old(self).max_scroll_pos as int,
                final(self).matches@[0].0 as int,
            ),
    {
        self.selected_match = None;
        push_char(&mut self.search, ch);
        self.matches = find_matches(&self.lines, self.search.as_str());
        self.select_next_search();
    }

    /// Removes the last character of the search text, recomputes the
    /// matches over every line, and selects the first of them.
    pub fn erase_search_char(&mut self)
        requires
            old(self).wf(),
        ensures
            final(self).wf(),
            final(self).search@ == if old(self).search@.len() == 0 {
                old(self).search@
            } else {
                old(self).search@.drop_last()
            },
            final(self).matches@ == all_matches(lowered_lines(old(self).lines@), lower_of(final(self).search@)),
            final(self).lines == old(self).lines,
            final(self).page_height == old(self).page_height,
            final(self).max_scroll_pos == old(self).max_scroll_pos,
            final(self).search_active == old(self).search_active,
            final(self).matches.len() == 0 ==> final(self).selected_match is None
                && final(self).scroll_offset == old(self).scroll_offset,
            final(self).matches.len() > 0 ==> final(self).selected_match == Some(0usize)
                && final(self).scroll_offset == follow_row(
                old(self).scroll_offset as int,
                old(self).page_height as int,
                old(self).max_scroll_pos as int,
                final(self).matches@[0].0 as int,
            ),
    {
        self.selected_match = None;
        let _ = pop_char(&mut self.search);
        self.matches = find_matches(&self.lines, self.search.as_str());
        self.select_next_search();
    }

    /// Clears the search text and its matches.
    pub fn clear_search(&mut self)
        requires
            old(self).wf(),
        ensures
            final(self).wf(),
            final(self).search@.len() == 0,
            final(self).matches@.len() == 0,
            *final(self) == (TextView {
                search: final(self).search,
                matches: final(self).matches,
                selected_match: None,
                ..*old(self)
            }),
    {
        self.search = String::new();
        self.matches = Vec::new();
        self.selected_match = None;
    }
}

/// Whatever is done to a view, its scroll offset stays within
/// `[0, max(0, document height - viewport height)]`.
pub proof fn lemma_scroll_in_range(v: TextView)
    requires
        v.wf(),
    ensures
        0 <= v.scroll_offset <= sat(v.lines.len() - v.page_height),
{
}

} // verus!

verus! {

/// What a key does to a view.
#[derive(Clone, Copy, PartialEq, Eq, Structural, Debug)]
pub enum ViewAction {
    Nothing,
    ScrollDown,
    ScrollUp,
    HalfPageDown,
    HalfPageUp,
    ToBottom,
    ToTop,
    NextMatch,
    PreviousMatch,
    OpenSearch,
    CloseSearch,
    TypeChar(char),
    EraseChar,
    ClearSearch,
}

/// The view `new` is what `a` makes of `old`.
pub open spec fn view_step(pre: TextView, post: TextView, a: ViewAction) -> bool {
    match a {
        ViewAction::Nothing => post == pre,
        ViewAction::ScrollDown => post == pre.scrolled(
            min_int(pre.scroll_offset + 1, pre.max_scroll_pos as int),
        ),
        ViewAction::ScrollUp => post == pre.scrolled(sat(pre.scroll_offset - 1)),
        ViewAction::HalfPageDown => post == pre.scrolled(
            min_int(pre.scroll_offset + pre.page_height / 2, pre.max_scroll_pos as int),
        ),
        ViewAction::HalfPageUp => post == pre.scrolled(sat(pre.scroll_offset - pre.page_height / 2)),
        ViewAction::ToBottom => post == pre.scrolled(pre.max_scroll_pos as int),
        ViewAction::ToTop => post == pre.scrolled(0),
        ViewAction::NextMatch => if pre.matches.len() == 0 {
            post == pre
        } else {
            let i = next_index(pre.selected_match, pre.matches.len() as int);
            post == (TextView {
                selected_match: Some(i as usize),
                ..pre.scrolled(
                    follow_row(
                        pre.scroll_offset as int,
                        pre.page_height as int,
                        pre.max_scroll_pos as int,
                        pre.matches@[i].0 as int,
                    ),
                )
            })
        },
        ViewAction::PreviousMatch => if pre.matches.len() == 0 {
            post == pre
        } else {
            let i = previous_index(pre.selected_match, pre.matches.len() as int);
            post == (TextView {
                selected_match: Some(i as usize),
                ..pre.scrolled(
                    follow_row(
                        pre.scroll_offset as int,
                        pre.page_height as int,
                        pre.max_scroll_pos as int,
                        pre.matches@[i].0 as int,
                    ),
                )
            })
        },
        ViewAction::OpenSearch => post == (TextView { search_active: true, ..pre }),
        ViewAction::CloseSearch => post == (TextView { search_active: false, ..pre }),
        ViewAction::TypeChar(ch) => {
            &&& post.search@ == pre.search@.push(ch)
            &&& post.matches@ == all_matches(lowered_lines(pre.lines@), lower_of(post.search@))
            &&& post.lines == pre.lines
            &&& post.page_height == pre.page_height
            &&& post.max_scroll_pos == pre.max_scroll_pos
            &&& post.search_active == pre.search_active
            &&& post.matches.len() == 0 ==> post.selected_match is None && post.scroll_offset
                == pre.scroll_offset
            &&& post.matches.len() > 0 ==> post.selected_match == Some(0usize) && post.scroll_offset
                == follow_row(
                pre.scroll_offset as int,
                pre.page_height as int,
                pre.max_scroll_pos as int,
                post.matches@[0].0 as int,
            )
        },
        ViewAction::EraseChar => {
            &&& post.search@ == if pre.search@.len() == 0 {
                pre.search@
            } else {
                pre.search@.drop_last()
            }
            &&& post.matches@ == all_matches(lowered_lines(pre.lines@), lower_of(post.search@))
            &&& post.lines == pre.lines
            &&& post.page_height == pre.page_height
            &&& post.max_scroll_pos == pre.max_scroll_pos
            &&& post.search_active == pre.search_active
            &&& post.matches.len() == 0 ==> post.selected_match is None && post.scroll_offset
                == pre.scroll_offset
            &&& post.matches.len() > 0 ==> post.selected_match == Some(0usize) && post.scroll_offset
                == follow_row(
                pre.scroll_offset as int,
                pre.page_height as int,
                pre.max_scroll_pos as int,
                post.matches@[0].0 as int,
            )
        },
        ViewAction::ClearSearch => {
            &&& post.search@.len() == 0
            &&& post.matches@.len() == 0
            &&& post == (TextView {
                search: post.search,
                matches: post.matches,
                selected_match: None,
                ..pre
            })
        },
    }
}

/// The key is the character `c` with the modifiers `m`.
pub open spec fn is_char_with(key: KeyEvent, c: char, m: KeyModifiers) -> bool {
    key.code == KeyCode::Char(c) && key.modifiers == m
}

/// What a key does on a viewer page, given whether the search field has
/// the keys. Esc is left to the page.
pub open spec fn viewer_key(search_active: bool, key: KeyEvent) -> ViewAction {
    match key.code {
        KeyCode::Char(ch) => if search_active && key.modifiers != KeyModifiers::Control {
            ViewAction::TypeChar(ch)
        } else if ch == 'j' {
            ViewAction::ScrollDown
        } else if ch == 'k' {
            ViewAction::ScrollUp
        } else if ch == 'd' && key.modifiers == KeyModifiers::Control {
            ViewAction::HalfPageDown
        } else if ch == 'u' && key.modifiers == KeyModifiers::Control {
            ViewAction::HalfPageUp
        } else if ch == 'G' && key.modifiers == KeyModifiers::Shift {
            ViewAction::ToBottom
        } else if ch == 'g' {
            ViewAction::ToTop
        } else if ch == 'N' && key.modifiers == KeyModifiers::Shift {
            ViewAction::PreviousMatch
        } else if ch == 'n' {
            ViewAction::NextMatch
        } else if ch == '/' {
            ViewAction::OpenSearch
        } else {
            ViewAction::Nothing
        },
        KeyCode::Backspace => if search_active {
            ViewAction::EraseChar
        } else {
            ViewAction::Nothing
        },
        KeyCode::Enter => if search_active {
            ViewAction::CloseSearch
        } else {
            ViewAction::Nothing
        },
        _ => ViewAction::Nothing,
    }
}

/// The action of a key on a viewer page (Esc aside).
pub fn classify_key(search_active: bool, key: KeyEvent) -> (r: ViewAction)
    ensures
        r == viewer_key(search_active, key),
{
    match key.code {
        KeyCode::Char(ch) => if search_active && key.modifiers != KeyModifiers::Control {
            ViewAction::TypeChar(ch)
        } else if ch == 'j' {
            ViewAction::ScrollDown
        } else if ch == 'k' {
            ViewAction::ScrollUp
        } else if ch == 'd' && key.modifiers == KeyModifiers::Control {
            ViewAction::HalfPageDown
        } else if ch == 'u' && key.modifiers == KeyModifiers::Control {
            ViewAction::HalfPageUp
        } else if ch == 'G' && key.modifiers == KeyModifiers::Shift {
            ViewAction::ToBottom
        } else if ch == 'g' {
            ViewAction::ToTop
        } else if ch == 'N' && key.modifiers == KeyModifiers::Shift {
            ViewAction::PreviousMatch
        } else if ch == 'n' {
            ViewAction::NextMatch
        } else if ch == '/' {
            ViewAction::OpenSearch
        } else {
            ViewAction::Nothing
        },
        KeyCode::Backspace => if search_active {
            ViewAction::EraseChar
        } else {
            ViewAction::Nothing
        },
        KeyCode::Enter => if search_active {
            ViewAction::CloseSearch
        } else {
            ViewAction::Nothing
        },
        _ => ViewAction::Nothing,
    }
}

impl TextView {
    /// Carries out `a`.
    pub fn apply(&mut self, a: ViewAction)
        requires
            old(self).wf(),
        ensures
            final(self).wf(),
            view_step(*old(self), *final(self), a),
    {
        match a {
            ViewAction::Nothing => {},
            ViewAction::ScrollDown => self.scroll_down(),
            ViewAction::ScrollUp => self.scroll_up(),
            ViewAction::HalfPageDown => self.half_page_down(),
            ViewAction::HalfPageUp => self.half_page_up(),
            ViewAction::ToBottom => self.scroll_to_bottom(),
            ViewAction::ToTop => self.scroll_to_top(),
            ViewAction::NextMatch => self.select_next_search(),
            ViewAction::PreviousMatch => self.select_previous_search(),
            ViewAction::OpenSearch => {
                self.search_active = true;
            },
            ViewAction::CloseSearch => {
                self.search_active = false;
            },
            ViewAction::TypeChar(ch) => self.type_search_char(ch),
            ViewAction::EraseChar => self.erase_search_char(),
            ViewAction::ClearSearch => self.clear_search(),
        }
    }
}

} // verus!
