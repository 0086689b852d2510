//! The application state and the navigation between its pages.
//!
//! Events go through `AppState::handle_event`, which changes the state and
//! returns what the application has to do outside: load a section, fetch a
//! manual page, copy text, quit.
use vstd::prelude::*;
use crate::events::{Area, Event, InternalEvent, KeyCode, KeyEvent, KeyModifiers, MouseEvent, MouseEventKind};
use crate::list_page::{
    commands_mouse_step, list_key_step, list_search_mouse_step, section_mouse_step, ListOutcome,
    ListPageState,
};
use crate::reader_page::{
    content_mouse_step, reader_key_step, reader_search_mouse_step, ReaderOutcome, ReaderPageState,
};

verus! {

/// The page shown, with its state.
pub enum ActiveState {
    Home,
    List(ListPageState),
    Read(ReaderPageState),
}

/// Where the widgets of the page were drawn at the last frame.
#[derive(Clone, Copy, Debug)]
pub struct Areas {
    pub list_commands: Option<Area>,
    pub list_sections: Option<Area>,
    pub list_search: Option<Area>,
    /// The index of the first name shown in the list.
    pub list_first_shown: usize,
    pub reader_content: Option<Area>,
    pub reader_search: Option<Area>,
}

/// What the application has to do after an event.
#[derive(Debug)]
pub enum Action {
    Nothing,
    /// Load the names of this section in the background.
    Load(usize),
    /// Fetch this manual page for a page of this width, then call
    /// `navigate_to_reader` with its lines.
    Open(String, usize),
    /// Hand this text to the clipboard.
    Copy(String),
    Quit,
}

pub struct AppState {
    pub should_quit: bool,
    pub active_state: ActiveState,
    /// The list's selection, kept while the reader is open.
    pub selected_command: Option<usize>,
    /// The list's section, kept while the reader is open.
    pub selected_section: usize,
    /// The list's names, kept while the reader is open.
    pub loaded_commands: Option<Vec<String>>,
    /// The list's search, kept while the reader is open.
    pub command_search: String,
}

/// The key is Ctrl-c.
pub open spec fn is_quit_key(k: KeyEvent) -> bool {
    k.code == KeyCode::Char('c') && k.modifiers == KeyModifiers::Control
}

/// Going to the list: `pre` becomes `post`, and the application is asked for `r`.
pub open spec fn to_list_step(pre: AppState, post: AppState, r: Action) -> bool {
    &&& (post.wf())
    &&& (post.active_state matches ActiveState::List(l) && l.selected_command == pre.selected_command
                && l.selected_section == pre.selected_section
                && l.loaded_commands == pre.loaded_commands && l.search@ == pre.command_search@
                && !l.search_active && !l.section_active)
    &&& (post.loaded_commands is None)
    &&& (post.selected_command == pre.selected_command)
    &&& (post.selected_section == pre.selected_section)
    &&& (post.command_search == pre.command_search)
    &&& (post.should_quit == pre.should_quit)
    &&& (pre.loaded_commands is None ==> (r matches Action::Load(s) && s == pre.selected_section))
    &&& (pre.loaded_commands is Some ==> r is Nothing)
}

/// The action that the list asks for with `o`, `l` being the list after the event.
pub open spec fn list_action(o: ListOutcome, l: ListPageState, r: Action) -> bool {
    match o {
        ListOutcome::Stay => r is Nothing,
        ListOutcome::Load(s) => r matches Action::Load(t) && t == s,
        ListOutcome::Open => if l.shown() is Some && l.selected_command is Some
            && l.selected_command->0 < l.shown_len() {
            r matches Action::Open(c, w) && c == l.shown()->0[l.selected_command->0 as int] && w
                == l.page_width
        } else {
            r is Nothing
        },
    }
}

/// What `event` does to the application: `pre` becomes `post`, and the
/// application is asked for `r`. Ctrl-c quits from any page; loaded names
/// reach the list only if it still shows their section; the other events
/// go to the page shown.
pub open spec fn event_step(pre: AppState, post: AppState, event: Event, areas: Areas, r: Action) -> bool {
    match event {
        Event::Key(k) => if is_quit_key(k) {
            post == (AppState { should_quit: true, ..pre }) && r is Quit
        } else {
            match pre.active_state {
                ActiveState::Home => if k.code == KeyCode::Enter {
                    to_list_step(pre, post, r)
                } else {
                    post == pre && r is Nothing
                },
                ActiveState::List(l) => exists|l2: ListPageState, o: ListOutcome|
                    #[trigger] list_key_step(l, l2, k, o) && post == (AppState {
                        active_state: ActiveState::List(l2),
                        ..pre
                    }) && list_action(o, l2, r),
                ActiveState::Read(p) => exists|p2: ReaderPageState, o: ReaderOutcome|
                    #[trigger] reader_key_step(p, p2, k, o) && if o is Leave {
                        to_list_step(pre, post, r)
                    } else {
                        post == (AppState { active_state: ActiveState::Read(p2), ..pre }) && r is Nothing
                    },
            }
        },
        Event::Mouse(m) => match pre.active_state {
            ActiveState::Home => if m.kind == MouseEventKind::Down {
                to_list_step(pre, post, r)
            } else {
                post == pre && r is Nothing
            },
            ActiveState::List(l) => exists|
                l1: ListPageState,
                l2: ListPageState,
                l3: ListPageState,
                o1: ListOutcome,
                o2: ListOutcome,
            |
                #[trigger] commands_mouse_step(l, l1, m, areas.list_commands, areas.list_first_shown, o1)
                    && #[trigger] section_mouse_step(l1, l2, m, areas.list_sections, o2)
                    && #[trigger] list_search_mouse_step(l2, l3, m, areas.list_search) && post == (
                AppState { active_state: ActiveState::List(l3), ..pre }) && if o1 is Open {
                    list_action(o1, l3, r)
                } else {
                    list_action(o2, l3, r)
                },
            ActiveState::Read(p) => exists|p1: ReaderPageState, p2: ReaderPageState, c: Option<String>|
                #[trigger] content_mouse_step(p, p1, m, areas.reader_content, c)
                    && #[trigger] reader_search_mouse_step(p1, p2, m, areas.reader_search) && post == (
                AppState { active_state: ActiveState::Read(p2), ..pre }) && match c {
                    Some(t) => r matches Action::Copy(u) && u == t,
                    None => r is Nothing,
                },
        },
        Event::Internal(InternalEvent::Loaded((names, section))) => r is Nothing && match pre.active_state {
            ActiveState::List(l) => if l.selected_section == section {
                post == (AppState {
                    active_state: ActiveState::List(
                        ListPageState { loaded_commands: Some(names), ..l },
                    ),
                    ..pre
                })
            } else {
                post == pre
            },
            _ => post == pre,
        },
        _ => post == pre && r is Nothing,
    }
}

impl AppState {
    pub open spec fn wf(&self) -> bool {
        match self.active_state {
            ActiveState::Read(r) => r.wf(),
            _ => true,
        }
    }

    /// The home page, with nothing loaded.
    pub fn new() -> (r: Self)
        ensures
            r.wf(),
            r.active_state is Home,
            !r.should_quit,
            r.selected_command is None,
            r.selected_section == 0,
            r.loaded_commands is None,
            r.command_search@.len() == 0,
    {
        AppState {
            should_quit: false,
            active_state: ActiveState::Home,
            selected_command: None,
            selected_section: 0,
            loaded_commands: None,
            command_search: String::new(),
        }
    }

    /// The reader page over `lines`, opened straight away.
    pub fn with_reader(lines: Vec<String>) -> (r: Self)
        requires
            lines.len() <= usize::MAX - 65536,
        ensures
            r.wf(),
            r.active_state matches ActiveState::Read(p) && p.view.lines@ == lines@
                && p.view.scroll_offset == 0,
            !r.should_quit,
            r.selected_command is None,
            r.selected_section == 0,
            r.loaded_commands is None,
            r.command_search@.len() == 0,
    {
        AppState {
            should_quit: false,
            active_state: ActiveState::Read(ReaderPageState::new(lines)),
            selected_command: None,
            selected_section: 0,
            loaded_commands: None,
            command_search: String::new(),
        }
    }

    /// Shows the list as it was left, handing it the names that were kept.
    /// Asks for a load of its section when no names are held for it.
    pub fn navigate_to_list(&mut self) -> (r: Action)
        ensures
            to_list_step(*old(self), *final(self), r),
    {
        let loaded = self.loaded_commands.take();
        let r = match &loaded {
            Some(_) => Action::Nothing,
            None => Action::Load(self.selected_section),
        };
        let state = ListPageState::new(
            self.selected_command,
            self.selected_section,
            loaded,
            self.command_search.clone(),
        );
        self.active_state = ActiveState::List(state);
        r
    }

    /// Opens the reader over `lines`, keeping the list's selection, section,
    /// names and search for the way back.
    pub fn navigate_to_reader(&mut self, lines: Vec<String>)
        requires
            old(self).active_state is List,
            lines.len() <= usize::MAX - 65536,
        ensures
            final(self).wf(),
            final(self).should_quit == old(self).should_quit,
            old(self).active_state matches ActiveState::List(l) && final(self).selected_command
                == l.selected_command && final(self).selected_section == l.selected_section
                && final(self).loaded_commands == l.loaded_commands && final(self).command_search@
                == l.search@,
            final(self).active_state matches ActiveState::Read(p) && p.view.lines@ == lines@
                && p.view.scroll_offset == 0 && p.selection is None && p.view.search@.len() == 0,
    {
        match &mut self.active_state {
            ActiveState::List(l) => {
                self.selected_command = l.selected_command;
                self.selected_section = l.selected_section;
                self.command_search = l.search.clone();
                self.loaded_commands = l.loaded_commands.take();
            },
            _ => {},
        }
        self.active_state = ActiveState::Read(ReaderPageState::new(lines));
    }
    /// The action that the list asks for with `o`.
    fn list_outcome_action(o: ListOutcome, l: &ListPageState) -> (r: Action)
        ensures
            list_action(o, *l, r),
    {
        match o {
            ListOutcome::Stay => Action::Nothing,
            ListOutcome::Load(s) => Action::Load(s),
            ListOutcome::Open => match l.selected_command() {
                Some(c) => Action::Open(c, l.page_width()),
                None => Action::Nothing,
            },
        }
    }

    /// Handles one event; `areas` tells where the widgets were drawn.
    pub fn handle_event(&mut self, event: Event, areas: &Areas) -> (r: Action)
        requires
            old(self).wf(),
        ensures
            final(self).wf(),
            event_step(*old(self), *final(self), event, *areas, r),
    {
        match event {
            Event::Key(k) => {
                if k.code == KeyCode::Char('c') && k.modifiers == KeyModifiers::Control {
                    self.should_quit = true;
                    return Action::Quit;
                }
                match &mut self.active_state {
                    ActiveState::Home => {
                        if k.code != KeyCode::Enter {
                            return Action::Nothing;
                        }
                    },
                    ActiveState::List(l) => {
                        let ghost l0 = *l;
                        let o = l.on_key(k);
                        assert(list_key_step(l0, *l, k, o));
                        return Self::list_outcome_action(o, l);
                    },
                    ActiveState::Read(p) => {
                        let ghost p0 = *p;
                        let o = p.on_key(k);
                        assert(reader_key_step(p0, *p, k, o));
                        match o {
                            ReaderOutcome::Leave => {},
                            ReaderOutcome::Stay => {
                                return Action::Nothing;
                            },
                        }
                    },
                }
                self.navigate_to_list()
            },
            Event::Mouse(m) => {
                match &mut self.active_state {
                    ActiveState::Home => {
                        if m.kind != MouseEventKind::Down {
                            return Action::Nothing;
                        }
                    },
                    ActiveState::List(l) => {
                        let ghost l0 = *l;
                        let o1 = l.on_commands_mouse(m, areas.list_commands, areas.list_first_shown);
                        let ghost l1 = *l;
                        let o2 = l.on_section_mouse(m, areas.list_sections);
                        let ghost l2 = *l;
                        l.on_search_mouse(m, areas.list_search);
                        assert(commands_mouse_step(l0, l1, m, areas.list_commands, areas.list_first_shown, o1));
                        assert(section_mouse_step(l1, l2, m, areas.list_sections, o2));
                        assert(list_search_mouse_step(l2, *l, m, areas.list_search));
                        let o = match o1 {
                            ListOutcome::Open => o1,
                            _ => o2,
                        };
                        return Self::list_outcome_action(o, l);
                    },
                    ActiveState::Read(p) => {
                        let ghost p0 = *p;
                        let c = p.on_content_mouse(m, areas.reader_content);
                        let ghost p1 = *p;
                        p.on_search_mouse(m, areas.reader_search);
                        assert(content_mouse_step(p0, p1, m, areas.reader_content, c));
                        assert(reader_search_mouse_step(p1, *p, m, areas.reader_search));
                        return match c {
                            Some(t) => Action::Copy(t),
                            None => Action::Nothing,
                        };
                    },
                }
                self.navigate_to_list()
            },
            Event::Internal(InternalEvent::Loaded((names, section))) => {
                match &mut self.active_state {
                    ActiveState::List(l) => {
                        if l.selected_section == section {
                            l.set_loaded_commands(names);
                        }
                    },
                    _ => {},
                }
                Action::Nothing
            },
            _ => Action::Nothing,
        }
    }
}

} // verus!
