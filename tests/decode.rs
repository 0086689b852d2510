use mantui::document::{document_lines, fetch_plan, lines_or_placeholder, lowercase_retry, page_lines, strip_section, NOT_LOADED, PLACEHOLDER};
use mantui::manual;
use mantui::reader;
use mantui::reader::{ANSI_ORANGE, ANSI_PURPLE, ANSI_RESET};

#[test]
fn manual_test_man_to_ansi() {
    let man = "COMMAND N\u{8}NA\u{8}AM\u{8}ME\u{8}E";
    let ansi = manual::man_to_ansi(man);

    assert_eq!(ansi, String::from("COMMAND \x1B[1mNAME\x1B[0m"));
}

#[test]
fn manual_test_man_to_ansi_underline() {
    let man = "_\u{8}N_\u{8}A_\u{8}M_\u{8}E";
    let ansi = manual::man_to_ansi(man);

    assert_eq!(ansi, String::from("\x1B[4mNAME\x1B[0m"));
}

#[test]
fn reader_test_man_to_ansi() {
    let man = "COMMAND N\u{8}NA\u{8}AM\u{8}ME\u{8}E";
    let ansi = reader::man_to_ansi(man);

    assert_eq!(ansi, format!("COMMAND {ANSI_PURPLE}NAME{ANSI_RESET}"));
}

#[test]
fn reader_test_man_to_ansi_underline() {
    let man = "_\u{8}N_\u{8}A_\u{8}M_\u{8}E";
    let ansi = reader::man_to_ansi(man);

    assert_eq!(ansi, format!("{ANSI_ORANGE}NAME{ANSI_RESET}"));
}

#[test]
fn overstrike_prints_one_character() {
    assert_eq!(manual::man_to_ansi("x\u{8}x"), "\x1B[1mx\x1B[0m");
    assert_eq!(manual::man_to_ansi("_\u{8}_"), "\x1B[4m_\x1B[0m");
}

#[test]
fn plain_text_passes_through() {
    assert_eq!(manual::man_to_ansi(""), "");
    assert_eq!(manual::man_to_ansi("ls - list\nfiles"), "ls - list\nfiles");
    assert_eq!(manual::man_to_ansi("trailing\u{8}"), "trailin\u{8}");
}

#[test]
fn backticks_become_quotes() {
    assert_eq!(manual::man_to_ansi("`ls`"), "'ls'");
}

#[test]
fn bold_then_underline_runs() {
    let ansi = manual::man_to_ansi("A\u{8}AB\u{8}B _\u{8}c_\u{8}d");
    assert_eq!(ansi, "\x1B[1mAB\x1B[0m \x1B[4mcd\x1B[0m");
}

#[test]
fn document_lines_splits_and_strips_styles() {
    let lines = document_lines("N\u{8}NAME\nls - list");
    assert_eq!(lines, vec!["NAME".to_string(), "ls - list".to_string()]);
}

#[test]
fn placeholder_when_unparsed() {
    assert_eq!(lines_or_placeholder(None), vec![PLACEHOLDER.to_string()]);
    let v = vec!["a".to_string()];
    assert_eq!(lines_or_placeholder(Some(v.clone())), v);
}

#[test]
fn strip_section_cases() {
    assert_eq!(strip_section("ls (1)"), "ls");
    assert_eq!(strip_section("  printf(3)"), "printf");
    assert_eq!(strip_section(" grep "), "grep");
    assert_eq!(strip_section("odd)"), "odd)");
    assert_eq!(strip_section(""), "");
}

#[test]
fn fetch_plan_orders_attempts() {
    let linux = fetch_plan("LS(1)", false);
    let names: Vec<(bool, String)> = linux.iter().map(|i| (i.typeset, i.name.clone())).collect();
    assert_eq!(
        names,
        vec![
            (true, "LS".to_string()),
            (true, "ls".to_string()),
            (false, "LS".to_string()),
            (false, "ls".to_string())
        ]
    );
    let mac = fetch_plan("Grep", true);
    let names: Vec<(bool, String)> = mac.iter().map(|i| (i.typeset, i.name.clone())).collect();
    assert_eq!(names, vec![(false, "Grep".to_string()), (false, "grep".to_string())]);
}

#[test]
fn retry_in_lower_case_only_when_empty() {
    assert_eq!(lowercase_retry("PRINTF", ""), Some("printf".to_string()));
    assert_eq!(lowercase_retry("PRINTF", "text"), None);
}

#[test]
fn bold_then_underline_keep_their_styles() {
    assert_eq!(manual::man_to_ansi("A\u{8}A_\u{8}B"), "\x1B[1mA\x1B[0m\x1B[4mB\x1B[0m");
    assert_eq!(
        reader::man_to_ansi("A\u{8}A_\u{8}B"),
        format!("{ANSI_PURPLE}A{ANSI_RESET}{ANSI_ORANGE}B{ANSI_RESET}")
    );
    assert_eq!(manual::man_to_ansi("_\u{8}AB\u{8}B"), "\x1B[4mA\x1B[0m\x1B[1mB\x1B[0m");
}

#[test]
fn failed_fetch_shows_placeholder() {
    assert_eq!(page_lines(None), vec![NOT_LOADED.to_string()]);
    assert_eq!(page_lines(Some(String::new())), vec![NOT_LOADED.to_string()]);
    assert_eq!(page_lines(Some("B\u{8}Bye".to_string())), vec!["Bye".to_string()]);
}
