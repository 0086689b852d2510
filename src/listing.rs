//! The names that `man -k` lists for a section: one per line, before the
//! description, sorted and without repeats.
use vstd::prelude::*;
use crate::document::{trim_range, trimmed};
use crate::text::{chars_of, line_views, matches_at, string_of};

verus! {

/// `a` comes before `b` in lexicographic order of code points, the order
/// of `str`.
pub open spec fn lex_lt(a: Seq<char>, b: Seq<char>) -> bool
    decreases a.len(),
{
    if a.len() == 0 {
        b.len() > 0
    } else if b.len() == 0 {
        false
    } else if a[0] != b[0] {
        a[0] < b[0]
    } else {
        lex_lt(a.drop_first(), b.drop_first())
    }
}

pub proof fn lemma_lex_irreflexive(a: Seq<char>)
    ensures
        !lex_lt(a, a),
    decreases a.len(),
{
    if a.len() > 0 {
        lemma_lex_irreflexive(a.drop_first());
    }
}

pub proof fn lemma_lex_total(a: Seq<char>, b: Seq<char>)
    ensures
        a == b || lex_lt(a, b) || lex_lt(b, a),
    decreases a.len(),
{
    if a.len() > 0 && b.len() > 0 && a[0] == b[0] {
        lemma_lex_total(a.drop_first(), b.drop_first());
        if a.drop_first() == b.drop_first() {
            assert(a =~= seq![a[0]] + a.drop_first());
            assert(b =~= seq![b[0]] + b.drop_first());
        }
    } else if a.len() == 0 && b.len() == 0 {
        assert(a =~= b);
    } else if a.len() > 0 && b.len() > 0 {
    }
}

pub proof fn lemma_lex_transitive(a: Seq<char>, b: Seq<char>, c: Seq<char>)
    requires
        lex_lt(a, b),
        lex_lt(b, c),
    ensures
        lex_lt(a, c),
    decreases a.len(),
{
    if a.len() > 0 && b.len() > 0 && c.len() > 0 && a[0] == b[0] && b[0] == c[0] {
        lemma_lex_transitive(a.drop_first(), b.drop_first(), c.drop_first());
    }
}

/// Whether `a` comes before `b`.
fn lex_less(a: &Vec<char>, b: &Vec<char>) -> (r: bool)
    ensures
        r == lex_lt(a@, b@),
{
    let mut i: usize = 0;
    assert(a@.skip(0) =~= a@ && b@.skip(0) =~= b@);
    while i < a.len() && i < b.len() && a[i] == b[i]
        invariant
            i <= a.len(),
            i <= b.len(),
            lex_lt(a@, b@) == lex_lt(a@.skip(i as int), b@.skip(i as int)),
        decreases a.len() - i,
    {
        assert(a@.skip(i as int).drop_first() =~= a@.skip(i + 1));
        assert(b@.skip(i as int).drop_first() =~= b@.skip(i + 1));
        i = i + 1;
    }
    let ghost sa = a@.skip(i as int);
    let ghost sb = b@.skip(i as int);
    assert(sa.len() == a.len() - i && sb.len() == b.len() - i);
    if i == a.len() {
        i < b.len()
    } else if i == b.len() {
        false
    } else {
        assert(sa[0] == a@[i as int] && sb[0] == b@[i as int]);
        a[i] < b[i]
    }
}

/// Each entry comes strictly before the next: sorted, without repeats.
pub open spec fn strictly_sorted(v: Seq<Seq<char>>) -> bool {
    forall|i: int, j: int| 0 <= i < j < v.len() ==> lex_lt(#[trigger] v[i], #[trigger] v[j])
}

/// The place of the first `p` in `s` from position `i` on.
pub open spec fn find_from(s: Seq<char>, p: Seq<char>, i: int) -> Option<int>
    decreases s.len() + 1 - i,
{
    if i < 0 || i + p.len() > s.len() {
        None
    } else if s.subrange(i, i + p.len()) == p {
        Some(i)
    } else {
        find_from(s, p, i + 1)
    }
}

/// `s` up to its first `p`, or all of `s` (the first piece of `str::split`).
pub open spec fn before_first(s: Seq<char>, p: Seq<char>) -> Seq<char> {
    match find_from(s, p, 0) {
        Some(k) => s.subrange(0, k),
        None => s,
    }
}

fn first_piece(s: &Vec<char>, p: &Vec<char>) -> (r: Vec<char>)
    requires
        p.len() > 0,
    ensures
        r@ == before_first(s@, p@),
{
    let mut i: usize = 0;
    while i <= s.len() && p.len() <= s.len() - i
        invariant
            find_from(s@, p@, 0) == find_from(s@, p@, i as int),
            p.len() > 0,
        decreases s.len() - i,
    {
        if matches_at(s, p, i) {
            return copy_prefix(s, i);
        }
        i = i + 1;
    }
    copy_prefix(s, s.len())
}

fn copy_prefix(s: &Vec<char>, k: usize) -> (r: Vec<char>)
    requires
        k <= s.len(),
    ensures
        r@ == s@.subrange(0, k as int),
{
    let mut r: Vec<char> = Vec::new();
    let mut i: usize = 0;
    while i < k
        invariant
            i <= k <= s.len(),
            r@ == s@.subrange(0, i as int),
        decreases k - i,
    {
        r.push(s[i]);
        i = i + 1;
        assert(s@.subrange(0, i as int) =~= s@.subrange(0, i - 1).push(s@[i - 1]));
    }
    r
}

/// `s` begins with `p`.
pub open spec fn starts_with(s: Seq<char>, p: Seq<char>) -> bool {
    p.len() <= s.len() && s.subrange(0, p.len() as int) == p
}

/// The characters that no listed name begins with.
pub open spec fn is_excluded_start(c: char) -> bool {
    c == ' ' || c == '!' || c == '$' || c == '*' || c == '%' || c == ':' || c == '<' || c == '-'
        || c == '/' || c == '.' || c == '@' || c == '['
}

/// The entry of a line: before the description (" - ") and before any
/// further name (", ").
pub open spec fn entry_of(line: Seq<char>) -> Seq<char> {
    before_first(before_first(line, seq![' ', '-', ' ']), seq![',', ' '])
}

/// An entry is listed unless it begins with punctuation or with one of the
/// boilerplate phrases.
pub open spec fn listed(entry: Seq<char>) -> bool {
    !(entry.len() > 0 && is_excluded_start(entry[0])) && !starts_with(entry, "Yet another"@)
        && !starts_with(entry, "Other_name"@)
}

/// The place of the first newline in `s`.
pub open spec fn newline_in(s: Seq<char>) -> Option<int> {
    find_from(s, seq!['\n'], 0)
}

/// A line without the carriage return of a `\r\n` ending.
pub open spec fn without_cr(l: Seq<char>) -> Seq<char> {
    if l.len() > 0 && l.last() == '\r' {
        l.drop_last()
    } else {
        l
    }
}

/// The lines of `s`, as `str::lines` gives them: split at each `\n`
/// (a `\r` before it dropped), a final empty line left out.
pub open spec fn lines_of(s: Seq<char>) -> Seq<Seq<char>>
    decreases s.len(),
{
    if s.len() == 0 {
        seq![]
    } else {
        match newline_in(s) {
            Some(k) => if 0 <= k < s.len() {
                seq![without_cr(s.subrange(0, k))] + lines_of(s.subrange(k + 1, s.len() as int))
            } else {
                seq![]
            },
            None => seq![s],
        }
    }
}

/// The names that the lines `ls` list: each listed entry, trimmed.
pub open spec fn names_of(ls: Seq<Seq<char>>) -> Set<Seq<char>>
    decreases ls.len(),
{
    if ls.len() == 0 {
        Set::empty()
    } else {
        let rest = names_of(ls.drop_first());
        if listed(entry_of(ls[0])) {
            rest.insert(trimmed(entry_of(ls[0])))
        } else {
            rest
        }
    }
}

/// The characters of each entry.
pub open spec fn views(v: Seq<Vec<char>>) -> Seq<Seq<char>> {
    v.map_values(|e: Vec<char>| e@)
}

/// Inserts `x` in its place in the strictly sorted `out`, unless it is there.
fn insert_sorted(out: &mut Vec<Vec<char>>, x: Vec<char>)
    requires
        strictly_sorted(views(old(out)@)),
    ensures
        strictly_sorted(views(final(out)@)),
        views(final(out)@).to_set() == views(old(out)@).to_set().insert(x@),
{
    let ghost v = views(out@);
    let mut lo: usize = 0;
    let mut hi: usize = out.len();
    while lo < hi
        invariant
            lo <= hi <= out.len(),
            v == views(out@),
            v.len() == out.len(),
            strictly_sorted(v),
            forall|i: int| 0 <= i < lo ==> lex_lt(#[trigger] v[i], x@),
            forall|j: int| hi <= j < v.len() ==> !lex_lt(#[trigger] v[j], x@),
        decreases hi - lo,
    {
        let mid = lo + (hi - lo) / 2;
        assert(out@[mid as int]@ == v[mid as int]);
        if lex_less(&out[mid], &x) {
            assert forall|i: int| 0 <= i <= mid implies lex_lt(#[trigger] v[i], x@) by {
                if i < mid {
                    lemma_lex_transitive(v[i], v[mid as int], x@);
                }
            }
            lo = mid + 1;
        } else {
            assert forall|j: int| mid <= j < v.len() implies !lex_lt(#[trigger] v[j], x@) by {
                if j > mid && lex_lt(v[j], x@) {
                    lemma_lex_transitive(v[mid as int], v[j], x@);
                }
            }
            hi = mid;
        }
    }
    if lo < out.len() {
        assert(out@[lo as int]@ == v[lo as int]);
        if !lex_less(&x, &out[lo]) {
            proof {
                lemma_lex_total(v[lo as int], x@);
                assert(v.contains(x@));
                assert(v.to_set().insert(x@) =~= v.to_set());
            }
            return;
        }
    }
    assert forall|j: int| lo <= j < v.len() implies lex_lt(x@, #[trigger] v[j]) by {
        lemma_lex_total(v[lo as int], x@);
        if j > lo {
            lemma_lex_transitive(x@, v[lo as int], v[j]);
        }
    }
    let ghost xv = x@;
    out.insert(lo, x);
    let ghost w = views(out@);
    assert(w =~= v.insert(lo as int, xv));
    assert forall|i: int, j: int| 0 <= i < j < w.len() implies lex_lt(#[trigger] w[i], #[trigger] w[j]) by {
        if j < lo {
        } else if j == lo {
        } else if i < lo {
            lemma_lex_transitive(v[i], xv, v[j - 1]);
        } else if i == lo {
        } else {
        }
    }
    assert forall|e: Seq<char>| #[trigger] w.contains(e) <==> v.to_set().insert(xv).contains(e) by {
        if w.contains(e) {
            let k = choose|k: int| 0 <= k < w.len() && w[k] == e;
            if k < lo {
                assert(v[k] == e);
            } else if k > lo {
                assert(v[k - 1] == e);
            }
        }
        if v.contains(e) {
            let k = choose|k: int| 0 <= k < v.len() && v[k] == e;
            if k < lo {
                assert(w[k] == e);
            } else {
                assert(w[k + 1] == e);
            }
        }
        if e == xv {
            assert(w[lo as int] == e);
        }
    }
    assert(w.to_set() =~= v.to_set().insert(xv));
}

/// The place of the first `p` from `i` on is `k`, when no place before `k` holds it.
proof fn lemma_find_at(s: Seq<char>, p: Seq<char>, i: int, k: int)
    requires
        0 <= i <= k,
        k + p.len() <= s.len(),
        s.subrange(k, k + p.len()) == p,
        forall|j: int| i <= j < k ==> #[trigger] s.subrange(j, j + p.len()) != p,
    ensures
        find_from(s, p, i) == Some(k),
    decreases k - i,
{
    if i < k {
        lemma_find_at(s, p, i + 1, k);
    }
}

/// No place from `i` on holds `p`.
proof fn lemma_find_none(s: Seq<char>, p: Seq<char>, i: int)
    requires
        0 <= i,
        forall|j: int| i <= j && j + p.len() <= s.len() ==> #[trigger] s.subrange(j, j + p.len()) != p,
    ensures
        find_from(s, p, i) is None,
    decreases s.len() + 1 - i,
{
    if i + p.len() <= s.len() {
        lemma_find_none(s, p, i + 1);
    }
}

/// `s[from..to]`.
fn copy_range(s: &Vec<char>, from: usize, to: usize) -> (r: Vec<char>)
    requires
        from <= to <= s.len(),
    ensures
        r@ == s@.subrange(from as int, to as int),
{
    let mut r: Vec<char> = Vec::new();
    let mut i = from;
    while i < to
        invariant
            from <= i <= to <= s.len(),
            r@ == s@.subrange(from as int, i as int),
        decreases to - i,
    {
        r.push(s[i]);
        i = i + 1;
        assert(s@.subrange(from as int, i as int) =~= s@.subrange(from as int, i - 1).push(s@[i - 1]));
    }
    r
}

fn excluded_start(c: char) -> (r: bool)
    ensures
        r == is_excluded_start(c),
{
    c == ' ' || c == '!' || c == '$' || c == '*' || c == '%' || c == ':' || c == '<' || c == '-'
        || c == '/' || c == '.' || c == '@' || c == '['
}

fn is_listed(entry: &Vec<char>, yet: &Vec<char>, other: &Vec<char>) -> (r: bool)
    requires
        yet@ == "Yet another"@,
        other@ == "Other_name"@,
    ensures
        r == listed(entry@),
{
    if entry.len() > 0 && excluded_start(entry[0]) {
        return false;
    }
    !matches_at(entry, yet, 0) && !matches_at(entry, other, 0)
}

/// The names that the output of `man -k` lists: for each line, the text
/// before the description and before any further name, unless it begins
/// with punctuation or boilerplate; trimmed, sorted, each once.
pub fn parse_listing(stdout: &str) -> (r: Vec<String>)
    ensures
        strictly_sorted(line_views(r@)),
        line_views(r@).to_set() == names_of(lines_of(stdout@)),
{
    let s = chars_of(stdout);
    let n = s.len();
    let mut dash: Vec<char> = Vec::new();
    dash.push(' ');
    dash.push('-');
    dash.push(' ');
    assert(dash@ =~= seq![' ', '-', ' ']);
    let mut comma: Vec<char> = Vec::new();
    comma.push(',');
    comma.push(' ');
    assert(comma@ =~= seq![',', ' ']);
    let yet = chars_of("Yet another");
    let other = chars_of("Other_name");
    let mut out: Vec<Vec<char>> = Vec::new();
    assert(views(out@).to_set() =~= Set::<Seq<char>>::empty());
    assert(s@.subrange(0, n as int) =~= s@);
    let mut start: usize = 0;
    while start < n
        invariant
            start <= n == s.len(),
            s@ == stdout@,
            dash@ == seq![' ', '-', ' '],
            comma@ == seq![',', ' '],
            yet@ == "Yet another"@,
            other@ == "Other_name"@,
            strictly_sorted(views(out@)),
            views(out@).to_set().union(names_of(lines_of(s@.subrange(start as int, n as int))))
                == names_of(lines_of(s@)),
        decreases n - start,
    {
        let ghost rest = s@.subrange(start as int, n as int);
        let mut k = start;
        while k < n && s[k] != '\n'
            invariant
                start <= k <= n == s.len(),
                forall|j: int| start <= j < k ==> s@[j] != '\n',
            decreases n - k,
        {
            k = k + 1;
        }
        let mut end = k;
        if k < n && k > start && s[k - 1] == '\r' {
            end = k - 1;
        }
        let line = copy_range(&s, start, end);
        let ghost next = s@.subrange(if k < n { k + 1 } else { n as int }, n as int);
        proof {
            let nl = seq!['\n'];
            assert forall|j: int| 0 <= j < k - start implies #[trigger] rest.subrange(j, j + nl.len()) != nl by {
                assert(rest.subrange(j, j + 1)[0] == rest[j]);
            }
            if k < n {
                assert(rest.subrange(k - start, k - start + nl.len()) =~= nl);
                lemma_find_at(rest, nl, 0, k - start);
                assert(rest.subrange(k - start + 1, rest.len() as int) =~= next);
                assert(line@ =~= without_cr(rest.subrange(0, k - start)));
                assert(lines_of(rest) == seq![line@] + lines_of(next));
            } else {
                assert forall|j: int| 0 <= j && j + nl.len() <= rest.len() implies #[trigger] rest.subrange(j, j + nl.len()) != nl by {
                    assert(rest.subrange(j, j + 1)[0] == rest[j]);
                }
                lemma_find_none(rest, nl, 0);
                assert(line@ =~= rest);
                assert(next =~= Seq::<char>::empty());
                assert(lines_of(rest) == seq![line@] + lines_of(next));
            }
            assert((seq![line@] + lines_of(next)).drop_first() =~= lines_of(next));
        }
        let entry = first_piece(&first_piece(&line, &dash), &comma);
        assert(entry@ == entry_of(line@));
        let ghost before = views(out@).to_set();
        if is_listed(&entry, &yet, &other) {
            let name = trim_range(&entry, 0, entry.len());
            assert(entry@.subrange(0, entry@.len() as int) =~= entry@);
            insert_sorted(&mut out, name);
            assert(views(out@).to_set().union(names_of(lines_of(next))) =~= before.union(
                names_of(lines_of(rest)),
            ));
        } else {
            assert(views(out@).to_set().union(names_of(lines_of(next))) =~= before.union(
                names_of(lines_of(rest)),
            ));
        }
        start = if k < n { k + 1 } else { n };
    }
    assert(s@.subrange(start as int, n as int) =~= Seq::<char>::empty());
    assert(views(out@).to_set().union(Set::<Seq<char>>::empty()) =~= views(out@).to_set());
    let mut r: Vec<String> = Vec::new();
    let mut i: usize = 0;
    while i < out.len()
        invariant
            i <= out.len(),
            r@.len() == i,
            line_views(r@) == views(out@).subrange(0, i as int),
        decreases out.len() - i,
    {
        r.push(string_of(&out[i]));
        assert(r@[i as int]@ == views(out@)[i as int]);
        i = i + 1;
        assert(line_views(r@) =~= views(out@).subrange(0, i as int));
    }
    assert(views(out@).subrange(0, i as int) =~= views(out@));
    r
}

} // verus!
