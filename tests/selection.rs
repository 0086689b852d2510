use mantui::events::{Area, MouseEvent, MouseEventKind};
use mantui::man_page::ManPageState;
use mantui::reader_page::ReaderPageState;
use mantui::selection::{extract_text_from_lines, PositionAbsolut, PositionScreen, Selection};

fn lines(v: &[&str]) -> Vec<String> {
    v.iter().map(|s| s.to_string()).collect()
}

fn pos(x: usize, y: usize) -> PositionAbsolut {
    PositionAbsolut::new(x, y)
}

#[test]
fn normalization_ignores_drag_direction() {
    let a = pos(5, 2);
    let b = pos(1, 4);
    let s1 = Selection::new(a, b);
    let s2 = Selection::new(b, a);
    assert_eq!((s1.start(), s1.end()), (a, b));
    assert_eq!((s2.start(), s2.end()), (a, b));
    assert!(s2.is_reversed());
    let c = pos(3, 2);
    assert_eq!(Selection::new(a, c).start(), c);
    assert_eq!(Selection::new(a, a).end(), a);
}

#[test]
fn screen_and_buffer_coordinates() {
    let p = PositionAbsolut::from_screen(PositionScreen::new(7, 3), 10, 2, 1);
    assert_eq!(p, pos(5, 12));
    assert_eq!(p.into_screen(10, 2, 1), PositionScreen::new(7, 3));
    let q = PositionAbsolut::from_screen(PositionScreen::new(1, 0), 0, 2, 1);
    assert_eq!(q, pos(0, 0));
    assert_eq!(pos(0, 2).into_screen(10, 2, 1), PositionScreen::new(2, 0));
}

#[test]
fn whole_single_line_round_trip() {
    let doc = lines(&["hello world"]);
    let sel = Selection::new(pos(0, 0), pos(10, 0));
    assert_eq!(extract_text_from_lines(&doc, &sel), "hello world");
    let past_end = Selection::new(pos(0, 0), pos(40, 0));
    assert_eq!(extract_text_from_lines(&doc, &past_end), "hello world");
    let backwards = Selection::new(pos(10, 0), pos(0, 0));
    assert_eq!(extract_text_from_lines(&doc, &backwards), "hello world");
}

#[test]
fn multi_line_extraction() {
    let doc = lines(&["first line", "middle", "last line", "after"]);
    let sel = Selection::new(pos(6, 0), pos(3, 2));
    assert_eq!(extract_text_from_lines(&doc, &sel), "line\nmiddle\nlast");
    let sel = Selection::new(pos(2, 1), pos(3, 1));
    assert_eq!(extract_text_from_lines(&doc, &sel), "dd");
    let beyond = Selection::new(pos(0, 3), pos(0, 9));
    assert_eq!(extract_text_from_lines(&doc, &beyond), "after\n");
    let empty_line = lines(&["", "x"]);
    assert_eq!(extract_text_from_lines(&empty_line, &Selection::new(pos(0, 0), pos(0, 0))), "");
}

#[test]
fn highlight_cells_walk_in_reading_order() {
    let sel = Selection::new(pos(3, 0), pos(1, 1));
    let cells: Vec<(usize, usize)> =
        sel.iter_on_screen(2, 6, 0, 10, 0, 2, 1).iter().map(|c| (c.x, c.y)).collect();
    assert_eq!(cells, vec![(5, 1), (2, 2), (3, 2)]);
    assert!(sel.iter_on_screen(2, 6, 5, 10, 0, 2, 1).is_empty());
}

#[test]
fn highlight_cells_clamped_to_the_band() {
    // from screen cell (5, 1) to (3, 4), seen through rows 2 and 3 only
    let sel = Selection::new(pos(3, 0), pos(1, 3));
    let cells: Vec<(usize, usize)> =
        sel.iter_on_screen(2, 6, 2, 4, 0, 2, 1).iter().map(|c| (c.x, c.y)).collect();
    assert_eq!(
        cells,
        vec![(2, 2), (3, 2), (4, 2), (5, 2), (2, 3), (3, 3), (4, 3), (5, 3)]
    );
}

fn mouse(kind: MouseEventKind, column: u16, row: u16) -> MouseEvent {
    MouseEvent { kind, column, row }
}

#[test]
fn drag_and_release_copies_text() {
    let mut page = ReaderPageState::new(lines(&["alpha beta", "gamma delta", "epsilon"]));
    page.view.set_page_height(10);
    let area = Some(Area { x: 2, y: 1, width: 40, height: 10 });
    assert_eq!(page.on_content_mouse(mouse(MouseEventKind::Down, 8, 1), area), None);
    assert_eq!(page.on_content_mouse(mouse(MouseEventKind::Drag, 6, 2), area), None);
    assert!(page.selection_active);
    assert!(!page.selection_cells(Area { x: 2, y: 1, width: 40, height: 10 }).is_empty());
    let copied = page.on_content_mouse(mouse(MouseEventKind::Up, 6, 2), area);
    assert_eq!(copied, Some("beta\ngamma".to_string()));
    assert!(page.selection.is_none());
}

#[test]
fn click_without_drag_copies_nothing() {
    let mut page = ReaderPageState::new(lines(&["alpha"]));
    let area = Some(Area { x: 0, y: 0, width: 40, height: 10 });
    page.on_content_mouse(mouse(MouseEventKind::Down, 3, 1), area);
    assert_eq!(page.on_content_mouse(mouse(MouseEventKind::Up, 3, 1), area), None);
    assert_eq!(page.on_content_mouse(mouse(MouseEventKind::Down, 3, 1), None), None);
}

#[test]
fn man_page_selection_follows_scroll() {
    let mut page = ManPageState::new(lines(&["a"; 30]));
    page.view.set_page_height(10);
    page.scroll_down();
    page.scroll_down();
    let area = Some(Area { x: 0, y: 0, width: 20, height: 10 });
    page.on_content_mouse(mouse(MouseEventKind::Down, 4, 3), area);
    page.on_content_mouse(mouse(MouseEventKind::Drag, 1, 2), area);
    let s = page.selection.unwrap();
    assert_eq!((s.start(), s.end()), (pos(1, 4), pos(4, 5)));
    page.on_content_mouse(mouse(MouseEventKind::Drag, 30, 2), area);
    assert_eq!(page.selection.unwrap().end, pos(1, 4));
    page.select_next_search();
    assert_eq!(page.view.scroll_offset, 2);
}

#[test]
fn match_highlight_maps_back_to_the_screen() {
    let mut doc = vec!["x".to_string(); 40];
    doc[12] = "find me".to_string();
    let mut page = ReaderPageState::new(doc);
    page.view.set_page_height(10);
    for c in "me".chars() {
        page.view.type_search_char(c);
    }
    assert_eq!(page.view.selected_match(), Some((12, 5)));
    let scroll = page.view.scroll_offset;
    assert_eq!(scroll, 7);
    assert_eq!(page.match_highlight(10), Some((7, 6, 2)));
    assert_eq!(page.match_highlight(6), None);
}
