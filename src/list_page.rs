//! The list page: the names of one manual section, filtered by a search.
use vstd::prelude::*;
use crate::events::{Area, KeyCode, KeyEvent, KeyModifiers, MouseEvent, MouseEventKind};
use crate::text::{filter_by_query, filter_names, pop_char, push_char};

verus! {

/// The number of manual sections.
pub const SECTION_COUNT: usize = 9;

/// The state of the list page.
pub struct ListPageState {
    /// The names of the section, once loaded.
    pub loaded_commands: Option<Vec<String>>,
    /// The selected name, as an index into the filtered names.
    pub selected_command: Option<usize>,
    /// The selected section, from 0.
    pub selected_section: usize,
    /// The rows of the list at the last frame.
    pub num_elements: usize,
    /// Keys go to the search field.
    pub search_active: bool,
    pub search: String,
    /// The width of the page at the last frame.
    pub page_width: usize,
    /// Keys go to the section list.
    pub section_active: bool,
}

/// What the list page asks of the application.
#[derive(Debug)]
pub enum ListOutcome {
    Stay,
    /// Load the names of this section.
    Load(usize),
    /// Open the selected name in the reader.
    Open,
}

/// The selection after "next" in a list of `n` items: the first if none,
/// else one further, holding at the last. Nothing changes in an empty list.
pub open spec fn next_selected(sel: Option<usize>, n: int) -> Option<usize> {
    if n == 0 {
        sel
    } else {
        match sel {
            Some(i) => if i >= n - 1 {
                Some(i)
            } else {
                Some((i + 1) as usize)
            },
            None => Some(0usize),
        }
    }
}

/// The selection after "previous" in a list of `n` items: the first if
/// none, else one back, holding at the first.
pub open spec fn previous_selected(sel: Option<usize>, n: int) -> Option<usize> {
    if n == 0 {
        sel
    } else {
        match sel {
            Some(i) => if i == 0 {
                Some(i)
            } else {
                Some((i - 1) as usize)
            },
            None => Some(0usize),
        }
    }
}

/// The selection after `k` steps of "next" (`forward`) or "previous".
pub open spec fn repeat_step(sel: Option<usize>, n: int, k: nat, forward: bool) -> Option<usize>
    decreases k,
{
    if k == 0 {
        sel
    } else {
        let s = repeat_step(sel, n, (k - 1) as nat, forward);
        if forward {
            next_selected(s, n)
        } else {
            previous_selected(s, n)
        }
    }
}

/// The section that a key names: '1' to '9' give 0 to 8.
pub open spec fn digit_section(c: char) -> Option<usize> {
    if '1' <= c && c <= '9' {
        Some((c as u32 - '1' as u32) as usize)
    } else {
        None
    }
}

/// Switching the list to `section`: nothing happens if it is shown already;
/// else the names are dropped until the new ones arrive, the selection and
/// the search are cleared, and a load of the section is asked for.
pub open spec fn section_switch(pre: ListPageState, post: ListPageState, section: usize, r: ListOutcome) -> bool {
    if section == pre.selected_section {
        r is Stay && post == pre
    } else {
        &&& r == ListOutcome::Load(section)
        &&& post.search@.len() == 0
        &&& post == (ListPageState {
            loaded_commands: None,
            selected_section: section,
            selected_command: None,
            search: post.search,
            ..pre
        })
    }
}

impl ListPageState {
    /// The page as it was left: selection, section, names and search.
    pub fn new(
        selected_command: Option<usize>,
        selected_section: usize,
        loaded_commands: Option<Vec<String>>,
        search: String,
    ) -> (r: Self)
        ensures
            r.selected_command == selected_command,
            r.selected_section == selected_section,
            r.loaded_commands == loaded_commands,
            r.search == search,
            !r.search_active,
            !r.section_active,
            r.num_elements == 0,
            r.page_width == 0,
    {
        ListPageState {
            loaded_commands,
            selected_command,
            selected_section,
            num_elements: 0,
            search_active: false,
            search,
            page_width: 0,
            section_active: false,
        }
    }

    /// The names shown: the loaded ones that hold the search text.
    pub open spec fn shown(&self) -> Option<Seq<String>> {
        match self.loaded_commands {
            Some(v) => Some(filter_names(v@, self.search@)),
            None => None,
        }
    }

    /// The number of names shown.
    pub open spec fn shown_len(&self) -> int {
        match self.shown() {
            Some(s) => s.len() as int,
            None => 0,
        }
    }

    /// The loaded names that hold the search text, ignoring case; `None`
    /// while the section is loading.
    pub fn filtered_commands(&self) -> (r: Option<Vec<String>>)
        ensures
            match self.shown() {
                Some(s) => r is Some && r->0@ == s,
                None => r is None,
            },
            self.search@.len() == 0 && self.loaded_commands is Some ==> r is Some && r->0@
                == self.loaded_commands->0@,
    {
        match &self.loaded_commands {
            Some(v) => Some(filter_by_query(v, self.search.as_str())),
            None => None,
        }
    }

    pub fn set_loaded_commands(&mut self, commands: Vec<String>)
        ensures
            *final(self) == (ListPageState { loaded_commands: Some(commands), ..*old(self) }),
    {
        self.loaded_commands = Some(commands);
    }

    pub fn page_width(&self) -> (r: usize)
        ensures
            r == self.page_width,
    {
        self.page_width
    }

    /// The selected name, if the selection shows one.
    pub fn selected_command(&self) -> (r: Option<String>)
        ensures
            r is Some <==> (self.shown() is Some && self.selected_command is Some
                && self.selected_command->0 < self.shown_len()),
            r is Some ==> r->0 == self.shown()->0[self.selected_command->0 as int],
    {
        let shown = match self.filtered_commands() {
            Some(v) => v,
            None => {
                return None;
            },
        };
        match self.selected_command {
            Some(i) => if i < shown.len() {
                Some(shown[i].clone())
            } else {
                None
            },
            None => None,
        }
    }

    pub fn selected_command_index(&self) -> (r: Option<usize>)
        ensures
            r == self.selected_command,
    {
        self.selected_command
    }

    pub fn selected_section_index(&self) -> (r: usize)
        ensures
            r == self.selected_section,
    {
        self.selected_section
    }

    pub fn command_search(&self) -> (r: String)
        ensures
            r@ == self.search@,
    {
        self.search.clone()
    }

    fn shown_count(&self) -> (r: usize)
        ensures
            r == self.shown_len(),
    {
        match self.filtered_commands() {
            Some(v) => v.len(),
            None => 0,
        }
    }

    /// Selects the next name.
    pub fn scroll_down(&mut self)
        ensures
            *final(self) == (ListPageState {
                selected_command: next_selected(old(self).selected_command, old(self).shown_len()),
                ..*old(self)
            }),
    {
        self.selected_command = step_selection(self.selected_command, self.shown_count(), true);
    }

    /// Selects the previous name.
    pub fn scroll_up(&mut self)
        ensures
            *final(self) == (ListPageState {
                selected_command: previous_selected(old(self).selected_command, old(self).shown_len()),
                ..*old(self)
            }),
    {
        self.selected_command = step_selection(self.selected_command, self.shown_count(), false);
    }

    /// Switches to `section`, unless it is already shown: the names are
    /// dropped until the new ones arrive, the selection and the search are
    /// cleared, and a load of the section is asked for.
    pub fn select_section(&mut self, section: usize) -> (r: ListOutcome)
        ensures
            section_switch(*old(self), *final(self), section, r),
    {
        if self.selected_section == section {
            return ListOutcome::Stay;
        }
        self.loaded_commands = None;
        self.selected_section = section;
        self.selected_command = None;
        self.search = String::new();
        ListOutcome::Load(section)
    }

    /// Handles a key.
    ///
    /// While the search field has the keys, characters are typed into it
    /// (clearing the selection), Backspace erases, and Esc or Enter give the
    /// keys back. Otherwise: 'j' and 'k' move the selection, or the section
    /// while the section list has the keys; Ctrl-d and Ctrl-u move it by
    /// half a page; '1' to '9' switch section; Enter leaves the section list,
    /// or opens the selected name; '/' opens the search field and clears the
    /// selection; Esc clears the search and the selection.
    pub fn on_key(&mut self, key: KeyEvent) -> (r: ListOutcome)
        ensures
            list_key_step(*old(self), *final(self), key, r),
    {
        if self.search_active {
            match key.code {
                KeyCode::Esc | KeyCode::Enter => {
                    self.search_active = false;
                },
                KeyCode::Backspace => {
                    let _ = pop_char(&mut self.search);
                },
                KeyCode::Char(ch) => {
                    self.selected_command = None;
                    push_char(&mut self.search, ch);
                },
                _ => {},
            }
            return ListOutcome::Stay;
        }
        match key.code {
            KeyCode::Char(c) => {
                if c == 'j' && self.section_active {
                    let s = if self.selected_section < 7 {
                        self.selected_section + 1
                    } else {
                        8
                    };
                    self.select_section(s)
                } else if c == 'k' && self.section_active {
                    let s = self.selected_section.saturating_sub(1);
                    self.select_section(s)
                } else if c == 'j' {
                    self.scroll_down();
                    ListOutcome::Stay
                } else if c == 'k' {
                    self.scroll_up();
                    ListOutcome::Stay
                } else if (c == 'd' || c == 'u') && key.modifiers == KeyModifiers::Control {
                    let n = self.shown_count();
                    let steps = self.num_elements / 2;
                    let forward = c == 'd';
                    let mut sel = self.selected_command;
                    let mut k: usize = 0;
                    while k < steps
                        invariant
                            k <= steps,
                            n == self.shown_len(),
                            sel == repeat_step(self.selected_command, n as int, k as nat, forward),
                        decreases steps - k,
                    {
                        sel = step_selection(sel, n, forward);
                        k = k + 1;
                    }
                    self.selected_command = sel;
                    ListOutcome::Stay
                } else if '1' <= c && c <= '9' {
                    let s = (c as u32 - '1' as u32) as usize;
                    self.select_section(s)
                } else if c == '/' {
                    self.search_active = true;
                    self.selected_command = None;
                    ListOutcome::Stay
                } else {
                    ListOutcome::Stay
                }
            },
            KeyCode::Enter => {
                if self.section_active {
                    self.section_active = false;
                    ListOutcome::Stay
                } else {
                    ListOutcome::Open
                }
            },
            KeyCode::Esc => {
                self.search = String::new();
                self.selected_command = None;
                ListOutcome::Stay
            },
            _ => ListOutcome::Stay,
        }
    }

    /// Handles a mouse event over the names, shown in `area` (`None` before
    /// the first frame) from the name at index `first_shown` on. The wheel
    /// moves the selection; a press gives the keys back from the search
    /// field and selects the name under it, or opens it if it was selected.
    pub fn on_commands_mouse(&mut self, e: MouseEvent, area: Option<Area>, first_shown: usize) -> (r: ListOutcome)
        ensures
            commands_mouse_step(*old(self), *final(self), e, area, first_shown, r),
    {
        let a = match area {
            Some(a) => a,
            None => {
                return ListOutcome::Stay;
            },
        };
        if !a.contains(e.column, e.row) {
            return ListOutcome::Stay;
        }
        match e.kind {
            MouseEventKind::ScrollUp => {
                self.scroll_up();
                ListOutcome::Stay
            },
            MouseEventKind::ScrollDown => {
                self.scroll_down();
                ListOutcome::Stay
            },
            MouseEventKind::Down => {
                self.search_active = false;
                let diff = (e.row - a.y) as usize;
                let n = self.shown_count();
                if first_shown < n && diff < n - first_shown {
                    let index = first_shown + diff;
                    if self.selected_command == Some(index) {
                        ListOutcome::Open
                    } else {
                        self.selected_command = Some(index);
                        ListOutcome::Stay
                    }
                } else {
                    ListOutcome::Stay
                }
            },
            _ => ListOutcome::Stay,
        }
    }

    /// Handles a mouse event over the section list, shown in `area`: a press
    /// on one of its rows switches to that section.
    pub fn on_section_mouse(&mut self, e: MouseEvent, area: Option<Area>) -> (r: ListOutcome)
        ensures
            section_mouse_step(*old(self), *final(self), e, area, r),
    {
        if let Some(a) = area {
            if a.contains(e.column, e.row) && e.kind == MouseEventKind::Down {
                let diff = (e.row - a.y) as usize;
                if diff < SECTION_COUNT {
                    return self.select_section(diff);
                }
            }
        }
        ListOutcome::Stay
    }

    /// Handles a mouse event over the search field, shown in `area`: a press
    /// inside gives it the keys.
    pub fn on_search_mouse(&mut self, e: MouseEvent, area: Option<Area>)
        ensures
            list_search_mouse_step(*old(self), *final(self), e, area),
    {
        if let Some(a) = area {
            if a.contains(e.column, e.row) && e.kind == MouseEventKind::Down {
                self.search_active = true;
            }
        }
    }
}

/// What a key does to the list page: `old` becomes `new`, and the page asks for `r`.
pub open spec fn list_key_step(pre: ListPageState, post: ListPageState, key: KeyEvent, r: ListOutcome) -> bool {
    &&& (pre.search_active ==> match key.code {
                KeyCode::Esc | KeyCode::Enter => r is Stay && post == (ListPageState {
                    search_active: false,
                    ..pre
                }),
                KeyCode::Backspace => r is Stay && post.search@ == (if pre.search@.len()
                    == 0 {
                    pre.search@
                } else {
                    pre.search@.drop_last()
                }) && post == (ListPageState { search: post.search, ..pre }),
                KeyCode::Char(ch) => r is Stay && post.search@ == pre.search@.push(ch)
                    && post == (ListPageState {
                    search: post.search,
                    selected_command: None,
                    ..pre
                }),
                _ => r is Stay && post == pre,
            })
    &&& (!pre.search_active ==> match key.code {
                KeyCode::Char(c) => if c == 'j' && pre.section_active {
                    section_switch(
                        pre,
                        post,
                        if pre.selected_section + 1 < 8 {
                            (pre.selected_section + 1) as usize
                        } else {
                            8usize
                        },
                        r,
                    )
                } else if c == 'k' && pre.section_active {
                    section_switch(
                        pre,
                        post,
                        if pre.selected_section == 0 {
                            0usize
                        } else {
                            (pre.selected_section - 1) as usize
                        },
                        r,
                    )
                } else if c == 'j' {
                    r is Stay && post == (ListPageState {
                        selected_command: next_selected(pre.selected_command, pre.shown_len()),
                        ..pre
                    })
                } else if c == 'k' {
                    r is Stay && post == (ListPageState {
                        selected_command: previous_selected(
                            pre.selected_command,
                            pre.shown_len(),
                        ),
                        ..pre
                    })
                } else if (c == 'd' || c == 'u') && key.modifiers == KeyModifiers::Control {
                    r is Stay && post == (ListPageState {
                        selected_command: repeat_step(
                            pre.selected_command,
                            pre.shown_len(),
                            (pre.num_elements / 2) as nat,
                            c == 'd',
                        ),
                        ..pre
                    })
                } else if digit_section(c) is Some {
                    section_switch(pre, post, digit_section(c)->0, r)
                } else if c == '/' {
                    r is Stay && post == (ListPageState {
                        search_active: true,
                        selected_command: None,
                        ..pre
                    })
                } else {
                    r is Stay && post == pre
                },
                KeyCode::Enter => if pre.section_active {
                    r is Stay && post == (ListPageState {
                        section_active: false,
                        ..pre
                    })
                } else {
                    r is Open && post == pre
                },
                KeyCode::Esc => r is Stay && post.search@.len() == 0 && post == (
                ListPageState { search: post.search, selected_command: None, ..pre }),
                _ => r is Stay && post == pre,
            })
}

/// What a mouse event over the names does to the list page.
pub open spec fn commands_mouse_step(pre: ListPageState, post: ListPageState, e: MouseEvent, area: Option<Area>, first_shown: usize, r: ListOutcome) -> bool {
    &&& ((area is None || !area->0.holds(e.column as int, e.row as int)) ==> r is Stay
                && post == pre)
    &&& ((area is Some && area->0.holds(e.column as int, e.row as int)) ==> match e.kind {
                MouseEventKind::ScrollUp => r is Stay && post == (ListPageState {
                    selected_command: previous_selected(pre.selected_command, pre.shown_len()),
                    ..pre
                }),
                MouseEventKind::ScrollDown => r is Stay && post == (ListPageState {
                    selected_command: next_selected(pre.selected_command, pre.shown_len()),
                    ..pre
                }),
                MouseEventKind::Down => ({
                    let index = first_shown + (e.row - area->0.y);
                    let cleared = ListPageState { search_active: false, ..pre };
                    if index < pre.shown_len() && pre.selected_command == Some(index as usize) {
                        r is Open && post == cleared
                    } else if index < pre.shown_len() {
                        r is Stay && post == (ListPageState {
                            selected_command: Some(index as usize),
                            ..cleared
                        })
                    } else {
                        r is Stay && post == cleared
                    }
                }),
                _ => r is Stay && post == pre,
            })
}

/// What a mouse event over the section list does to the list page.
pub open spec fn section_mouse_step(pre: ListPageState, post: ListPageState, e: MouseEvent, area: Option<Area>, r: ListOutcome) -> bool {
    if area is Some && area->0.holds(e.column as int, e.row as int) && e.kind == MouseEventKind::Down
        && e.row - area->0.y < SECTION_COUNT {
        section_switch(pre, post, (e.row - area->0.y) as usize, r)
    } else {
        r is Stay && post == pre
    }
}

/// What a mouse event over the search field does to the list page.
pub open spec fn list_search_mouse_step(pre: ListPageState, post: ListPageState, e: MouseEvent, area: Option<Area>) -> bool {
    &&& ((area is Some && area->0.holds(e.column as int, e.row as int) && e.kind
                == MouseEventKind::Down) ==> post == (ListPageState {
                search_active: true,
                ..pre
            }))
    &&& (!(area is Some && area->0.holds(e.column as int, e.row as int) && e.kind
                == MouseEventKind::Down) ==> post == pre)
}

/// One step of "next" (`forward`) or "previous" in a list of `n` items.
pub fn step_selection(sel: Option<usize>, n: usize, forward: bool) -> (r: Option<usize>)
    ensures
        r == if forward {
            next_selected(sel, n as int)
        } else {
            previous_selected(sel, n as int)
        },
{
    if n == 0 {
        return sel;
    }
    match sel {
        Some(i) => if forward {
            if i >= n - 1 {
                Some(i)
            } else {
                Some(i + 1)
            }
        } else {
            if i == 0 {
                Some(i)
            } else {
                Some(i - 1)
            }
        },
        None => Some(0),
    }
}

} // verus!
