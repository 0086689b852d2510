use mantui::events::{KeyCode, KeyEvent, KeyModifiers};
use mantui::text::{filter_by_query, find_matches, match_positions};
use mantui::viewer::{classify_key, TextView, ViewAction};

fn lines(v: &[&str]) -> Vec<String> {
    v.iter().map(|s| s.to_string()).collect()
}

fn grep_document() -> Vec<String> {
    let mut doc = vec![String::new(); 10];
    doc[2] = "grep searches".to_string();
    doc[7] = "use GREP or grep".to_string();
    doc
}

#[test]
fn search_finds_all_matches_in_order() {
    let doc = grep_document();
    assert_eq!(find_matches(&doc, "grep"), vec![(2, 0), (7, 4), (7, 12)]);
    let doc = lines(&["", "", "grep", "", "", "", "", "xxxxgreppgrep"]);
    assert_eq!(find_matches(&doc, "grep"), vec![(2, 0), (7, 4), (7, 9)]);
}

#[test]
fn search_ignores_case() {
    let doc = lines(&["Grep GREP"]);
    assert_eq!(find_matches(&doc, "gReP"), vec![(0, 0), (0, 5)]);
    assert_eq!(match_positions(&doc, "grep"), vec![]);
}

#[test]
fn matches_do_not_overlap() {
    let doc = lines(&["aaaa"]);
    assert_eq!(match_positions(&doc, "aa"), vec![(0, 0), (0, 2)]);
}

#[test]
fn empty_query_matches_every_position() {
    let doc = lines(&["ab"]);
    assert_eq!(match_positions(&doc, ""), vec![(0, 0), (0, 1), (0, 2)]);
}

#[test]
fn filter_names_ignoring_case() {
    let names = lines(&["ls", "LSBLK", "cat"]);
    assert_eq!(filter_by_query(&names, "ls"), lines(&["ls", "LSBLK"]));
    assert_eq!(filter_by_query(&names, ""), names);
    assert_eq!(filter_by_query(&names, "zz"), lines(&[]));
}

fn key(c: char) -> KeyEvent {
    KeyEvent { code: KeyCode::Char(c), modifiers: KeyModifiers::Bare }
}

#[test]
fn scroll_stays_in_range() {
    let mut v = TextView::new(lines(&["a"; 30]));
    v.set_page_height(10);
    assert_eq!(v.max_scroll_pos, 20);
    for _ in 0..50 {
        v.scroll_down();
    }
    assert_eq!(v.scroll_offset, 20);
    v.half_page_up();
    assert_eq!(v.scroll_offset, 15);
    v.set_page_height(25);
    assert_eq!(v.max_scroll_pos, 5);
    assert_eq!(v.scroll_offset, 5);
    v.set_page_height(40);
    assert_eq!(v.scroll_offset, 0);
    v.scroll_up();
    assert_eq!(v.scroll_offset, 0);
    v.scroll_to_bottom();
    assert_eq!(v.scroll_offset, 0);
}

#[test]
fn typing_a_search_follows_the_first_match() {
    let mut doc = vec!["x".to_string(); 100];
    doc[50] = "needle".to_string();
    doc[60] = "needle".to_string();
    let mut v = TextView::new(doc);
    v.set_page_height(20);
    v.search_active = true;
    for c in "needle".chars() {
        v.type_search_char(c);
    }
    assert_eq!(v.matches, vec![(50, 0), (60, 0)]);
    assert_eq!(v.selected_match(), Some((50, 0)));
    // last shown row with padding: 35 + 17 - 2 = 50
    assert_eq!(v.scroll_offset, 35);
    v.select_next_search();
    assert_eq!(v.selected_match(), Some((60, 0)));
    assert_eq!(v.scroll_offset, 45);
    v.select_next_search();
    assert_eq!(v.selected_match(), Some((60, 0)));
    v.select_previous_search();
    v.select_previous_search();
    assert_eq!(v.selected_match(), Some((50, 0)));
    assert_eq!(v.scroll_offset, 45);
    v.scroll_to_bottom();
    v.select_previous_search();
    assert_eq!(v.scroll_offset, 48);
    v.erase_search_char();
    assert_eq!(v.search, "needl");
    v.clear_search();
    assert_eq!(v.search, "");
    assert_eq!(v.selected_match(), None);
}

#[test]
fn no_match_keeps_scroll() {
    let mut v = TextView::new(lines(&["a"; 40]));
    v.set_page_height(10);
    v.scroll_down();
    v.type_search_char('z');
    assert_eq!(v.matches, vec![]);
    assert_eq!(v.selected_match(), None);
    assert_eq!(v.scroll_offset, 1);
    v.select_next_search();
    assert_eq!(v.scroll_offset, 1);
}

#[test]
fn key_map_of_viewer() {
    assert_eq!(classify_key(false, key('j')), ViewAction::ScrollDown);
    assert_eq!(classify_key(true, key('j')), ViewAction::TypeChar('j'));
    let ctrl_d = KeyEvent { code: KeyCode::Char('d'), modifiers: KeyModifiers::Control };
    assert_eq!(classify_key(true, ctrl_d), ViewAction::HalfPageDown);
    let shift_n = KeyEvent { code: KeyCode::Char('N'), modifiers: KeyModifiers::Shift };
    assert_eq!(classify_key(false, shift_n), ViewAction::PreviousMatch);
    assert_eq!(classify_key(false, key('N')), ViewAction::Nothing);
    let bs = KeyEvent { code: KeyCode::Backspace, modifiers: KeyModifiers::Bare };
    assert_eq!(classify_key(false, bs), ViewAction::Nothing);
    assert_eq!(classify_key(true, bs), ViewAction::EraseChar);
}

#[test]
fn erasing_recomputes_matches() {
    let mut v = TextView::new(lines(&["abc", "abd", "xyz"]));
    v.set_page_height(10);
    for c in "abc".chars() {
        v.type_search_char(c);
    }
    assert_eq!(v.matches, vec![(0, 0)]);
    v.erase_search_char();
    assert_eq!(v.search, "ab");
    assert_eq!(v.matches, vec![(0, 0), (1, 0)]);
    assert_eq!(v.selected_match(), Some((0, 0)));
}

#[test]
fn empty_search_keeps_every_name() {
    let names = lines(&["Ls", "cat"]);
    assert_eq!(filter_by_query(&names, ""), names);
}
