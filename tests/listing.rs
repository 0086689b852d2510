use mantui::listing::parse_listing;

fn names(v: &[&str]) -> Vec<String> {
    v.iter().map(|s| s.to_string()).collect()
}

#[test]
fn listing_takes_names_sorted_and_once() {
    let out = "ls (1)               - list directory contents\n\
               cat (1)              - concatenate files\n\
               ls (1)               - list directory contents\n";
    assert_eq!(parse_listing(out), names(&["cat (1)", "ls (1)"]));
}

#[test]
fn listing_takes_first_of_several_names() {
    let out = "gzip, gunzip (1) - compress\r\nzcat (1) - expand";
    assert_eq!(parse_listing(out), names(&["gzip", "zcat (1)"]));
}

#[test]
fn listing_skips_punctuation_and_boilerplate() {
    let out = ".ldaprc (5) - x\n[ (1) - test\nYet another thing - y\nOther_name - z\n:colon - c\nok - fine\n";
    assert_eq!(parse_listing(out), names(&["ok"]));
}

#[test]
fn listing_of_nothing() {
    assert_eq!(parse_listing(""), names(&[]));
    assert_eq!(parse_listing("\n"), names(&[""]));
}

#[test]
fn listing_orders_by_code_point() {
    let out = "b - 1\nB - 2\na - 3\nab - 4\n";
    assert_eq!(parse_listing(out), names(&["B", "a", "ab", "b"]));
}
