//! From a manual command's raw output to the lines of a document, and the
//! plan of commands that fetch a page.
use vstd::prelude::*;
use ansi_to_tui::IntoText;
use crate::overstrike::to_ansi;
use crate::reader::{man_to_ansi, palette};
use crate::text::{chars_of, line_views, lower_of, lowercase, string_of};

verus! {

/// The lines of the text that `ansi_to_tui` reads from ANSI text `s`, each
/// as the characters of its spans; `None` where it reports an error.
pub uninterp spec fn ansi_text_lines(s: Seq<char>) -> Option<Seq<Seq<char>>>;

/// Relies on `ansi_to_tui::IntoText::into_text`: the text that it parses
/// from `s`, each line taken as its plain characters (`Line`'s `Display`).
#[verifier::external_body]
fn ansi_lines(s: &str) -> (r: Option<Vec<String>>)
    ensures
        match r {
            Some(v) => ansi_text_lines(s@) == Some(line_views(v@)),
            None => ansi_text_lines(s@) is None,
        },
{
    s.into_text().ok().map(|t| t.lines.iter().map(|l| l.to_string()).collect())
}

/// The document shown when the text cannot be read.
pub const PLACEHOLDER: &'static str = "Could not convert ansi to tui.";

/// The lines as parsed, or the placeholder document.
pub fn lines_or_placeholder(parsed: Option<Vec<String>>) -> (r: Vec<String>)
    ensures
        match parsed {
            Some(v) => r@ == v@,
            None => line_views(r@) == seq![PLACEHOLDER@],
        },
{
    match parsed {
        Some(v) => v,
        None => {
            let mut r: Vec<String> = Vec::new();
            r.push(PLACEHOLDER.to_owned());
            assert(line_views(r@) =~= seq![PLACEHOLDER@]);
            r
        },
    }
}

/// The lines of the document for a page's raw overstrike text.
pub open spec fn document_of(raw: Seq<char>) -> Seq<Seq<char>> {
    match ansi_text_lines(to_ansi(raw, palette())) {
        Some(ls) => ls,
        None => seq![PLACEHOLDER@],
    }
}

/// Decodes a page's raw overstrike text and splits it into lines.
pub fn document_lines(raw: &str) -> (r: Vec<String>)
    ensures
        line_views(r@) == document_of(raw@),
{
    let ansi = man_to_ansi(raw);
    let parsed = ansi_lines(ansi.as_str());
    lines_or_placeholder(parsed)
}

/// The document shown when a page could not be fetched.
pub const NOT_LOADED: &'static str = "Could not load this manual page.";

/// The lines of the document for the outcome of a page fetch: the decoded
/// page, or a placeholder when the fetch failed or gave nothing.
pub fn page_lines(fetched: Option<String>) -> (r: Vec<String>)
    ensures
        match fetched {
            Some(raw) => if raw@.len() > 0 {
                line_views(r@) == document_of(raw@)
            } else {
                line_views(r@) == seq![NOT_LOADED@]
            },
            None => line_views(r@) == seq![NOT_LOADED@],
        },
{
    let raw = match fetched {
        Some(raw) => raw,
        None => String::new(),
    };
    if raw == String::new() {
        let mut r: Vec<String> = Vec::new();
        r.push(NOT_LOADED.to_owned());
        assert(line_views(r@) =~= seq![NOT_LOADED@]);
        return r;
    }
    assert(raw@.len() > 0) by {
        if raw@.len() == 0 {
            assert(raw@ =~= Seq::<char>::empty());
        }
    }
    document_lines(raw.as_str())
}

/// The characters that Unicode gives the White_Space property.
pub open spec fn is_white_space(c: char) -> bool {
    ('\u{9}' <= c && c <= '\u{d}') || c == ' ' || c == '\u{85}' || c == '\u{a0}' || c == '\u{1680}'
        || ('\u{2000}' <= c && c <= '\u{200a}') || c == '\u{2028}' || c == '\u{2029}' || c
        == '\u{202f}' || c == '\u{205f}' || c == '\u{3000}'
}

pub fn white_space(c: char) -> (r: bool)
    ensures
        r == is_white_space(c),
{
    ('\u{9}' <= c && c <= '\u{d}') || c == ' ' || c == '\u{85}' || c == '\u{a0}' || c == '\u{1680}'
        || ('\u{2000}' <= c && c <= '\u{200a}') || c == '\u{2028}' || c == '\u{2029}' || c
        == '\u{202f}' || c == '\u{205f}' || c == '\u{3000}'
}

/// `s` without white space at its start.
pub open spec fn trim_start(s: Seq<char>) -> Seq<char>
    decreases s.len(),
{
    if s.len() > 0 && is_white_space(s[0]) {
        trim_start(s.drop_first())
    } else {
        s
    }
}

/// `s` without white space at its end.
pub open spec fn trim_end(s: Seq<char>) -> Seq<char>
    decreases s.len(),
{
    if s.len() > 0 && is_white_space(s.last()) {
        trim_end(s.drop_last())
    } else {
        s
    }
}

/// `s` without white space at either end.
pub open spec fn trimmed(s: Seq<char>) -> Seq<char> {
    trim_end(trim_start(s))
}

/// `v[from..to]` without white space at either end.
pub(crate) fn trim_range(v: &Vec<char>, from: usize, to: usize) -> (r: Vec<char>)
    requires
        from <= to <= v.len(),
    ensures
        r@ == trimmed(v@.subrange(from as int, to as int)),
{
    let mut i = from;
    while i < to && white_space(v[i])
        invariant
            from <= i <= to <= v.len(),
            trim_start(v@.subrange(from as int, to as int)) == trim_start(v@.subrange(i as int, to as int)),
        decreases to - i,
    {
        assert(v@.subrange(i as int, to as int).drop_first() =~= v@.subrange(i + 1, to as int));
        i = i + 1;
    }
    let ghost t = v@.subrange(i as int, to as int);
    assert(trim_start(t) == t);
    let mut j = to;
    while j > i && white_space(v[j - 1])
        invariant
            i <= j <= to <= v.len(),
            trim_end(t) == trim_end(v@.subrange(i as int, j as int)),
        decreases j,
    {
        assert(v@.subrange(i as int, j as int).drop_last() =~= v@.subrange(i as int, j - 1));
        j = j - 1;
    }
    let mut r: Vec<char> = Vec::new();
    let mut k = i;
    while k < j
        invariant
            i <= k <= j <= v.len(),
            r@ == v@.subrange(i as int, k as int),
        decreases j - k,
    {
        r.push(v[k]);
        k = k + 1;
        assert(v@.subrange(i as int, k as int) =~= v@.subrange(i as int, k - 1).push(v@[k - 1]));
    }
    r
}

/// The place of the last `c` in `s`.
pub open spec fn last_index_of(s: Seq<char>, c: char) -> Option<int>
    decreases s.len(),
{
    if s.len() == 0 {
        None
    } else if s.last() == c {
        Some(s.len() - 1)
    } else {
        last_index_of(s.drop_last(), c)
    }
}

/// A name without the section in parentheses that may end it
/// (`"ls (1)"` gives `"ls"`), and without white space at either end.
pub open spec fn stripped(s: Seq<char>) -> Seq<char> {
    if s.len() > 0 && s.last() == ')' && last_index_of(s, '(') is Some {
        trimmed(s.subrange(0, last_index_of(s, '(')->0))
    } else {
        trimmed(s)
    }
}

/// Takes the section in parentheses off the end of a name, and trims it.
pub fn strip_section(command: &str) -> (r: String)
    ensures
        r@ == stripped(command@),
{
    let v = chars_of(command);
    let n = v.len();
    if n > 0 && v[n - 1] == ')' {
        let mut k = n;
        assert(v@.subrange(0, n as int) =~= v@);
        while k > 0 && v[k - 1] != '('
            invariant
                k <= n == v.len(),
                last_index_of(v@, '(') == last_index_of(v@.subrange(0, k as int), '('),
            decreases k,
        {
            assert(v@.subrange(0, k as int).drop_last() =~= v@.subrange(0, k - 1));
            k = k - 1;
        }
        if k > 0 {
            assert(last_index_of(v@.subrange(0, k as int), '(') == Some(k - 1));
            let t = trim_range(&v, 0, k - 1);
            return string_of(&t);
        }
        assert(v@.subrange(0, 0) =~= Seq::<char>::empty());
    }
    assert(v@.subrange(0, n as int) =~= v@);
    let t = trim_range(&v, 0, n);
    string_of(&t)
}

/// One run of the manual command.
#[derive(Debug)]
pub struct ManInvocation {
    /// Typeset for the terminal (`-t -Tutf8`), as Linux's `man` does.
    pub typeset: bool,
    /// The name to look up.
    pub name: String,
}

/// The runs that fetch the page of `command`, in the order to try them
/// until one succeeds: as given, then in lower case; on Linux typeset
/// first, then plain.
pub fn fetch_plan(command: &str, macos: bool) -> (r: Vec<ManInvocation>)
    ensures
        macos ==> r@.len() == 2 && !r@[0].typeset && r@[0].name@ == stripped(command@)
            && !r@[1].typeset && r@[1].name@ == stripped(lower_of(command@)),
        !macos ==> r@.len() == 4 && r@[0].typeset && r@[0].name@ == stripped(command@)
            && r@[1].typeset && r@[1].name@ == stripped(lower_of(command@)) && !r@[2].typeset
            && r@[2].name@ == stripped(command@) && !r@[3].typeset && r@[3].name@ == stripped(
            lower_of(command@),
        ),
{
    let lower = lowercase(command);
    let mut r: Vec<ManInvocation> = Vec::new();
    if !macos {
        r.push(ManInvocation { typeset: true, name: strip_section(command) });
        r.push(ManInvocation { typeset: true, name: strip_section(lower.as_str()) });
    }
    r.push(ManInvocation { typeset: false, name: strip_section(command) });
    r.push(ManInvocation { typeset: false, name: strip_section(lower.as_str()) });
    r
}

/// The name to fetch again when the first fetch of `command` gave
/// `first`: in lower case when nothing came back.
pub fn lowercase_retry(command: &str, first: &str) -> (r: Option<String>)
    ensures
        first@.len() == 0 ==> r is Some && r->0@ == lower_of(command@),
        first@.len() > 0 ==> r is None,
{
    let f = chars_of(first);
    if f.len() == 0 {
        Some(lowercase(command))
    } else {
        None
    }
}

} // verus!
