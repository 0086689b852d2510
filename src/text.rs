//! Character-level helpers over `str`, `String` and `Vec<char>`.
use vstd::prelude::*;

verus! {

/// What `str::to_lowercase` returns for a string of these characters.
pub uninterp spec fn lower_of(s: Seq<char>) -> Seq<char>;

/// Relies on `str::to_lowercase`: its result depends on the characters
/// alone, and each character maps to its lower case, so the empty string
/// stays empty.
#[verifier::external_body]
pub(crate) fn lowercase(s: &str) -> (r: String)
    ensures
        r@ == lower_of(s@),
        s@.len() == 0 ==> r@.len() == 0,
{
    s.to_lowercase()
}

/// Relies on `str::chars`: the characters of `s`, in order.
#[verifier::external_body]
pub(crate) fn chars_of(s: &str) -> (r: Vec<char>)
    ensures
        r@ == s@,
{
    s.chars().collect()
}

/// Relies on `String`'s `FromIterator<&char>`: a string of these characters, in order.
#[verifier::external_body]
pub(crate) fn string_of(v: &Vec<char>) -> (r: String)
    ensures
        r@ == v@,
{
    v.iter().collect()
}

/// Appends every character of `s` to `out`.
pub(crate) fn push_all(out: &mut Vec<char>, s: &Vec<char>)
    ensures
        final(out)@ == old(out)@ + s@,
{
    let mut i: usize = 0;
    while i < s.len()
        invariant
            i <= s.len(),
            out@ == old(out)@ + s@.subrange(0, i as int),
        decreases s.len() - i,
    {
        out.push(s[i]);
        i = i + 1;
        assert(s@.subrange(0, i as int) =~= s@.subrange(0, i - 1 as int).push(s@[i - 1]));
    }
    assert(s@.subrange(0, s@.len() as int) =~= s@);
}

/// `s` with each `from` replaced by `to`.
pub open spec fn replace_char(s: Seq<char>, from: char, to: char) -> Seq<char> {
    s.map_values(|c: char| if c == from { to } else { c })
}

pub(crate) fn matches_at(s: &Vec<char>, pat: &Vec<char>, i: usize) -> (r: bool)
    requires
        i <= s.len(),
    ensures
        r == (i + pat.len() <= s.len() && s@.subrange(i as int, i + pat.len()) == pat@),
{
    if pat.len() > s.len() - i {
        return false;
    }
    let mut k: usize = 0;
    while k < pat.len()
        invariant
            i + pat.len() <= s.len(),
            k <= pat.len(),
            forall|j: int| 0 <= j < k ==> s@[i + j] == pat@[j],
        decreases pat.len() - k,
    {
        if s[i + k] != pat[k] {
            assert(s@.subrange(i as int, i + pat.len())[k as int] != pat@[k as int]);
            return false;
        }
        k = k + 1;
    }
    assert(s@.subrange(i as int, i + pat.len()) =~= pat@);
    true
}

} // verus!

verus! {

/// Relies on `String::push`: `c` is appended.
#[verifier::external_body]
pub(crate) fn push_char(s: &mut String, c: char)
    ensures
        final(s)@ == old(s)@.push(c),
{
    s.push(c)
}

/// Relies on `String::pop`: the last character is removed and returned.
#[verifier::external_body]
pub(crate) fn pop_char(s: &mut String) -> (r: Option<char>)
    ensures
        old(s)@.len() == 0 ==> r is None && final(s)@ == old(s)@,
        old(s)@.len() > 0 ==> r == Some(old(s)@.last()) && final(s)@ == old(s)@.drop_last(),
{
    s.pop()
}

/// The starting positions of the non-overlapping occurrences of `q` in `t`
/// at or after `i`, found left to right, each paired with `row`. An empty `q`
/// occurs at every position up to and including the end.
pub open spec fn row_matches(row: int, t: Seq<char>, q: Seq<char>, i: int) -> Seq<(usize, usize)>
    decreases t.len() + 1 - i,
{
    if i < 0 || i + q.len() > t.len() {
        seq![]
    } else if t.subrange(i, i + q.len()) == q {
        seq![(row as usize, i as usize)] + row_matches(
            row,
            t,
            q,
            i + if q.len() == 0 {
                1
            } else {
                q.len() as int
            },
        )
    } else {
        row_matches(row, t, q, i + 1)
    }
}

/// Every occurrence of `q` in `lines`, row by row and left to right within a row.
pub open spec fn all_matches(lines: Seq<Seq<char>>, q: Seq<char>) -> Seq<(usize, usize)>
    decreases lines.len(),
{
    if lines.len() == 0 {
        seq![]
    } else {
        all_matches(lines.drop_last(), q) + row_matches(
            lines.len() - 1,
            lines.last(),
            q,
            0,
        )
    }
}

/// The characters of each line.
pub open spec fn line_views(lines: Seq<String>) -> Seq<Seq<char>> {
    lines.map_values(|l: String| l@)
}

/// The lower-case form of each line.
pub open spec fn lowered_lines(lines: Seq<String>) -> Seq<Seq<char>> {
    lines.map_values(|l: String| lower_of(l@))
}

/// `a` comes strictly before `b`: by row, then by column.
pub open spec fn pair_before(a: (usize, usize), b: (usize, usize)) -> bool {
    a.0 < b.0 || (a.0 == b.0 && a.1 < b.1)
}

/// Each position comes strictly before the next.
pub open spec fn pairs_sorted(v: Seq<(usize, usize)>) -> bool {
    forall|i: int, j: int| 0 <= i < j < v.len() ==> pair_before(#[trigger] v[i], #[trigger] v[j])
}

/// Pushes the occurrences of `q` in `t` onto `out`, paired with `row`.
fn push_row_matches(out: &mut Vec<(usize, usize)>, row: usize, t: &Vec<char>, q: &Vec<char>)
    requires
        pairs_sorted(old(out)@),
        forall|k: int| 0 <= k < old(out)@.len() ==> (#[trigger] old(out)@[k]).0 < row,
    ensures
        final(out)@ == old(out)@ + row_matches(row as int, t@, q@, 0),
        pairs_sorted(final(out)@),
        forall|k: int| 0 <= k < final(out)@.len() ==> (#[trigger] final(out)@[k]).0 <= row,
{
    let mut i: usize = 0;
    if q.len() == 0 {
        while i < t.len()
            invariant
                q@.len() == 0,
                i <= t.len(),
                pairs_sorted(out@),
                forall|k: int| 0 <= k < out@.len() ==> pair_before(#[trigger] out@[k], (row, i)),
                out@ + row_matches(row as int, t@, q@, i as int) == old(out)@ + row_matches(
                    row as int,
                    t@,
                    q@,
                    0,
                ),
            decreases t.len() - i,
        {
            let ghost before = out@;
            out.push((row, i));
            assert(t@.subrange(i as int, i as int) =~= q@);
            assert(before + row_matches(row as int, t@, q@, i as int) =~= out@ + row_matches(
                row as int,
                t@,
                q@,
                i + 1,
            ));
            i = i + 1;
        }
        let ghost before = out@;
        out.push((row, i));
        assert(t@.subrange(i as int, i as int) =~= q@);
        assert(row_matches(row as int, t@, q@, i + 1) == Seq::<(usize, usize)>::empty());
        assert(before + row_matches(row as int, t@, q@, i as int) =~= out@);
        return;
    }
    while q.len() <= t.len() && i <= t.len() - q.len()
        invariant
            q@.len() > 0,
            i <= t.len(),
            pairs_sorted(out@),
            forall|k: int| 0 <= k < out@.len() ==> pair_before(#[trigger] out@[k], (row, i)),
            out@ + row_matches(row as int, t@, q@, i as int) == old(out)@ + row_matches(
                row as int,
                t@,
                q@,
                0,
            ),
        decreases t.len() + 1 - i,
    {
        let ghost before = out@;
        if matches_at(t, q, i) {
            out.push((row, i));
            assert(before + row_matches(row as int, t@, q@, i as int) =~= out@ + row_matches(
                row as int,
                t@,
                q@,
                i + q.len(),
            ));
            i = i + q.len();
        } else {
            i = i + 1;
        }
    }
    assert(out@ + row_matches(row as int, t@, q@, i as int) =~= out@);
}

/// The positions `(row, column)` of every occurrence of `query` in `lines`,
/// in row-then-column order; occurrences within a line do not overlap.
pub fn match_positions(lines: &Vec<String>, query: &str) -> (r: Vec<(usize, usize)>)
    ensures
        r@ == all_matches(line_views(lines@), query@),
        pairs_sorted(r@),
{
    let q = chars_of(query);
    let mut out: Vec<(usize, usize)> = Vec::new();
    let mut row: usize = 0;
    while row < lines.len()
        invariant
            row <= lines.len(),
            q@ == query@,
            out@ == all_matches(line_views(lines@).subrange(0, row as int), query@),
            pairs_sorted(out@),
            forall|k: int| 0 <= k < out@.len() ==> (#[trigger] out@[k]).0 < row,
        decreases lines.len() - row,
    {
        let t = chars_of(lines[row].as_str());
        push_row_matches(&mut out, row, &t, &q);
        let ghost ls = line_views(lines@).subrange(0, row + 1);
        assert(ls.drop_last() =~= line_views(lines@).subrange(0, row as int));
        row = row + 1;
    }
    assert(line_views(lines@).subrange(0, row as int) =~= line_views(lines@));
    out
}

/// The positions of every occurrence of `query` in `lines`, ignoring case:
/// both sides are compared in lower case.
pub fn find_matches(lines: &Vec<String>, query: &str) -> (r: Vec<(usize, usize)>)
    ensures
        r@ == all_matches(lowered_lines(lines@), lower_of(query@)),
        pairs_sorted(r@),
{
    let mut lowered: Vec<String> = Vec::new();
    let mut row: usize = 0;
    while row < lines.len()
        invariant
            row <= lines.len(),
            lowered@.len() == row,
            line_views(lowered@) == lowered_lines(lines@).subrange(0, row as int),
        decreases lines.len() - row,
    {
        let l = lowercase(lines[row].as_str());
        lowered.push(l);
        assert(lowered@[row as int]@ == lower_of(lines@[row as int]@));
        assert(line_views(lowered@) =~= lowered_lines(lines@).subrange(0, row + 1));
        row = row + 1;
    }
    assert(lowered_lines(lines@).subrange(0, row as int) =~= lowered_lines(lines@));
    let q = lowercase(query);
    match_positions(&lowered, q.as_str())
}

} // verus!

verus! {

/// `q` occurs in `t`.
pub open spec fn contains_seq(t: Seq<char>, q: Seq<char>) -> bool {
    exists|i: int| 0 <= i && i + q.len() <= t.len() && #[trigger] t.subrange(i, i + q.len()) == q
}

/// Whether `q` occurs in `t`.
pub fn contains_chars(t: &Vec<char>, q: &Vec<char>) -> (r: bool)
    ensures
        r == contains_seq(t@, q@),
{
    if q.len() > t.len() {
        return false;
    }
    if q.len() == 0 {
        assert(t@.subrange(0, 0 + q@.len() as int) =~= q@);
        return true;
    }
    let mut i: usize = 0;
    while i <= t.len() - q.len()
        invariant
            0 < q.len() <= t.len(),
            forall|j: int| 0 <= j < i ==> #[trigger] t@.subrange(j, j + q@.len()) != q@,
        decreases t.len() - q.len() + 1 - i,
    {
        if matches_at(t, q, i) {
            return true;
        }
        i = i + 1;
    }
    false
}

/// The names of `names` that hold `q`, ignoring case, in their order.
pub open spec fn filter_names(names: Seq<String>, q: Seq<char>) -> Seq<String>
    decreases names.len(),
{
    if names.len() == 0 {
        seq![]
    } else {
        filter_names(names.drop_last(), q) + if contains_seq(lower_of(names.last()@), lower_of(q)) {
            seq![names.last()]
        } else {
            seq![]
        }
    }
}

/// The names of `names` that hold `query`, ignoring case, in their order.
pub fn filter_by_query(names: &Vec<String>, query: &str) -> (r: Vec<String>)
    ensures
        r@ == filter_names(names@, query@),
        query@.len() == 0 ==> r@ == names@,
{
    let q = chars_of(lowercase(query).as_str());
    let mut out: Vec<String> = Vec::new();
    let mut i: usize = 0;
    while i < names.len()
        invariant
            i <= names.len(),
            q@ == lower_of(query@),
            query@.len() == 0 ==> q@.len() == 0,
            out@ == filter_names(names@.subrange(0, i as int), query@),
            query@.len() == 0 ==> out@ == names@.subrange(0, i as int),
        decreases names.len() - i,
    {
        let t = chars_of(lowercase(names[i].as_str()).as_str());
        let ghost sub = names@.subrange(0, i + 1);
        assert(sub.drop_last() =~= names@.subrange(0, i as int));
        assert(sub.last() == names@[i as int]);
        if q.len() == 0 {
            assert(t@.subrange(0, 0 + q@.len() as int) =~= q@);
        }
        if contains_chars(&t, &q) {
            out.push(names[i].clone());
        }
        assert(query@.len() == 0 ==> out@ =~= names@.subrange(0, i + 1));
        i = i + 1;
    }
    assert(names@.subrange(0, i as int) =~= names@);
    out
}

} // verus!
