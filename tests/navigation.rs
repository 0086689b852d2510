use mantui::app_state::{Action, ActiveState, AppState, Areas};
use mantui::events::{Area, Event, EventController, InternalEvent, KeyCode, KeyEvent, KeyModifiers, MouseEvent, MouseEventKind};
use mantui::list_page::{ListOutcome, ListPageState};
use mantui::loader::{loaded_event, Debouncer};

fn names(v: &[&str]) -> Vec<String> {
    v.iter().map(|s| s.to_string()).collect()
}

fn key(c: char) -> Event {
    Event::Key(KeyEvent { code: KeyCode::Char(c), modifiers: KeyModifiers::Bare })
}

fn special(code: KeyCode) -> Event {
    Event::Key(KeyEvent { code, modifiers: KeyModifiers::Bare })
}

fn no_areas() -> Areas {
    Areas {
        list_commands: None,
        list_sections: None,
        list_search: None,
        list_first_shown: 0,
        reader_content: None,
        reader_search: None,
    }
}

fn list(state: &AppState) -> &ListPageState {
    match &state.active_state {
        ActiveState::List(l) => l,
        _ => panic!("the list page is not shown"),
    }
}

#[test]
fn home_enter_opens_list_and_loads_default_section() {
    let mut state = AppState::new();
    let action = state.handle_event(special(KeyCode::Enter), &no_areas());
    assert!(matches!(action, Action::Load(0)));
    assert!(list(&state).filtered_commands().is_none());
}

#[test]
fn switching_section_resets_and_reloads() {
    let mut state = AppState::new();
    let areas = no_areas();
    state.handle_event(special(KeyCode::Enter), &areas);
    state.handle_event(Event::Internal(InternalEvent::Loaded((names(&["ls", "cat"]), 0))), &areas);
    state.handle_event(key('/'), &areas);
    state.handle_event(key('l'), &areas);
    state.handle_event(special(KeyCode::Enter), &areas);
    state.handle_event(key('j'), &areas);
    assert_eq!(list(&state).filtered_commands(), Some(names(&["ls"])));
    assert_eq!(list(&state).selected_command_index(), Some(0));

    let action = state.handle_event(key('2'), &areas);
    assert!(matches!(action, Action::Load(1)));
    let l = list(&state);
    assert!(l.filtered_commands().is_none());
    assert_eq!(l.selected_section_index(), 1);
    assert_eq!(l.selected_command_index(), None);
    assert_eq!(l.command_search(), "");

    // a late result for the old section is dropped
    state.handle_event(Event::Internal(InternalEvent::Loaded((names(&["old"]), 0))), &areas);
    assert!(list(&state).filtered_commands().is_none());
    state.handle_event(Event::Internal(InternalEvent::Loaded((names(&["open", "read"]), 1))), &areas);
    assert_eq!(list(&state).filtered_commands(), Some(names(&["open", "read"])));
    assert_eq!(list(&state).selected_command_index(), None);

    // the same section again asks for nothing
    assert!(matches!(state.handle_event(key('2'), &areas), Action::Nothing));
}

#[test]
fn rapid_section_switches_deliver_only_the_last() {
    let mut debouncer = Debouncer::new();
    let requests: Vec<_> = [0usize, 1, 2].iter().map(|s| debouncer.request(*s)).collect();
    let going_on: Vec<usize> =
        requests.iter().filter(|r| debouncer.should_load(r)).map(|r| r.section).collect();
    assert_eq!(going_on, vec![2]);
    match loaded_event(&requests[2], None) {
        Event::Internal(InternalEvent::Loaded((v, s))) => {
            assert!(v.is_empty());
            assert_eq!(s, 2);
        }
        _ => panic!("not a loaded event"),
    }
}

#[test]
fn open_reader_and_come_back() {
    let mut state = AppState::new();
    let areas = no_areas();
    state.handle_event(special(KeyCode::Enter), &areas);
    state.handle_event(Event::Internal(InternalEvent::Loaded((names(&["cat", "ls"]), 0))), &areas);
    state.handle_event(key('j'), &areas);
    state.handle_event(key('j'), &areas);
    let action = state.handle_event(special(KeyCode::Enter), &areas);
    match action {
        Action::Open(name, _) => assert_eq!(name, "ls"),
        _ => panic!("expected to open a page"),
    }
    state.navigate_to_reader(names(&["LS(1)", "", "NAME"]));
    assert!(matches!(state.active_state, ActiveState::Read(_)));
    assert_eq!(state.selected_command, Some(1));

    // Esc with a search text clears it first, then leaves
    state.handle_event(key('/'), &areas);
    state.handle_event(key('n'), &areas);
    state.handle_event(special(KeyCode::Esc), &areas);
    state.handle_event(special(KeyCode::Esc), &areas);
    assert!(matches!(state.active_state, ActiveState::Read(_)));
    let action = state.handle_event(special(KeyCode::Esc), &areas);
    assert!(matches!(action, Action::Nothing));
    let l = list(&state);
    assert_eq!(l.selected_command_index(), Some(1));
    assert_eq!(l.filtered_commands(), Some(names(&["cat", "ls"])));
}

#[test]
fn ctrl_c_quits_anywhere() {
    let mut state = AppState::new();
    let ctrl_c = Event::Key(KeyEvent { code: KeyCode::Char('c'), modifiers: KeyModifiers::Control });
    assert!(matches!(state.handle_event(ctrl_c, &no_areas()), Action::Quit));
    assert!(state.should_quit);
}

#[test]
fn list_keys() {
    let mut l = ListPageState::new(None, 0, Some(names(&["a", "b", "c", "d"])), String::new());
    l.num_elements = 5;
    let ctrl_d = KeyEvent { code: KeyCode::Char('d'), modifiers: KeyModifiers::Control };
    assert!(matches!(l.on_key(ctrl_d), ListOutcome::Stay));
    assert_eq!(l.selected_command_index(), Some(1));
    l.on_key(ctrl_d);
    l.on_key(ctrl_d);
    assert_eq!(l.selected_command_index(), Some(3));
    let ctrl_u = KeyEvent { code: KeyCode::Char('u'), modifiers: KeyModifiers::Control };
    l.on_key(ctrl_u);
    assert_eq!(l.selected_command_index(), Some(1));
    l.section_active = true;
    assert!(matches!(l.on_key(KeyEvent { code: KeyCode::Char('k'), modifiers: KeyModifiers::Bare }), ListOutcome::Stay));
    assert!(matches!(l.on_key(KeyEvent { code: KeyCode::Char('j'), modifiers: KeyModifiers::Bare }), ListOutcome::Load(1)));
    l.on_key(KeyEvent { code: KeyCode::Enter, modifiers: KeyModifiers::Bare });
    assert!(!l.section_active);
    assert!(matches!(l.on_key(KeyEvent { code: KeyCode::Char('9'), modifiers: KeyModifiers::Bare }), ListOutcome::Load(8)));
}

#[test]
fn list_mouse() {
    let mut l = ListPageState::new(None, 0, Some(names(&["a", "b", "c"])), String::new());
    let area = Some(Area { x: 0, y: 2, width: 20, height: 5 });
    let click = MouseEvent { kind: MouseEventKind::Down, column: 3, row: 3 };
    assert!(matches!(l.on_commands_mouse(click, area, 1), ListOutcome::Stay));
    assert_eq!(l.selected_command_index(), Some(2));
    assert!(matches!(l.on_commands_mouse(click, area, 1), ListOutcome::Open));
    let sections = Some(Area { x: 30, y: 0, width: 20, height: 9 });
    let on_fourth = MouseEvent { kind: MouseEventKind::Down, column: 31, row: 3 };
    assert!(matches!(l.on_section_mouse(on_fourth, sections), ListOutcome::Load(3)));
}

#[test]
fn listener_registry() {
    let mut ctrl: EventController<u32> = EventController::new();
    ctrl.add_listener("a", 1);
    ctrl.add_listener("b", 2);
    ctrl.add_listener("a", 3);
    let seen: Vec<(String, u32)> = ctrl.listeners().iter().map(|l| (l.id.clone(), l.callback)).collect();
    assert_eq!(seen, vec![("a".to_string(), 3), ("b".to_string(), 2)]);
    ctrl.remove_listener("a");
    ctrl.remove_listener("missing");
    let seen: Vec<String> = ctrl.listeners().iter().map(|l| l.id.clone()).collect();
    assert_eq!(seen, vec!["b".to_string()]);
}

#[test]
fn same_section_changes_nothing() {
    let mut l = ListPageState::new(Some(1), 2, Some(names(&["a", "b"])), "a".to_string());
    assert!(matches!(l.on_key(KeyEvent { code: KeyCode::Char('3'), modifiers: KeyModifiers::Bare }), ListOutcome::Stay));
    assert_eq!(l.selected_command_index(), Some(1));
    assert_eq!(l.command_search(), "a");
    let sections = Some(Area { x: 30, y: 0, width: 20, height: 9 });
    let on_third = MouseEvent { kind: MouseEventKind::Down, column: 31, row: 2 };
    assert!(matches!(l.on_section_mouse(on_third, sections), ListOutcome::Stay));
    assert_eq!(l.filtered_commands(), Some(names(&["a"])));
}

#[test]
fn direct_start_keeps_no_list_state() {
    let state = AppState::with_reader(names(&["line"]));
    assert!(matches!(state.active_state, ActiveState::Read(_)));
    assert_eq!(state.selected_command, None);
    assert_eq!(state.command_search, "");
}
