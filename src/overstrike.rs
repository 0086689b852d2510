//! Decoding of the overstrike encoding into ANSI-styled text.
//!
//! `c BACKSPACE c` prints `c` in bold and `_ BACKSPACE c` underlines `c`.
use vstd::prelude::*;
use crate::text::{push_all, replace_char};

verus! {

pub const BACKSPACE: char = '\u{8}';

/// The style that the last overstrike announced.
#[derive(Clone, Copy, PartialEq, Eq, Structural, Debug)]
pub enum Format {
    Plain,
    Bold,
    Underline,
}

/// The escape sequences that a decoder writes.
pub struct Palette {
    pub bold: Vec<char>,
    pub underline: Vec<char>,
    pub reset: Vec<char>,
}

/// The palette as sequences.
pub struct PaletteView {
    pub bold: Seq<char>,
    pub underline: Seq<char>,
    pub reset: Seq<char>,
}

impl View for Palette {
    type V = PaletteView;

    open spec fn view(&self) -> PaletteView {
        PaletteView { bold: self.bold@, underline: self.underline@, reset: self.reset@ }
    }
}

/// The format announced by `c` standing before a backspace.
pub open spec fn format_of(c: char) -> Format {
    if c == '_' {
        Format::Underline
    } else {
        Format::Bold
    }
}

/// The sequence that opens a run of `f`.
pub open spec fn open_seq(f: Format, p: PaletteView) -> Seq<char> {
    match f {
        Format::Plain => seq![],
        Format::Bold => p.bold,
        Format::Underline => p.underline,
    }
}

/// The sequence that closes a run of `run`: a reset, unless no run is open.
pub open spec fn close_seq(run: Format, p: PaletteView) -> Seq<char> {
    if run == Format::Plain {
        seq![]
    } else {
        p.reset
    }
}

/// `c` printed in style `f` (not plain) while a run of `run` is open: it
/// joins the run if the style is the same, else the run is closed and one
/// of `f` opened.
pub open spec fn emit_styled(c: char, f: Format, run: Format, p: PaletteView) -> Seq<char> {
    if run == f {
        seq![c]
    } else {
        close_seq(run, p) + open_seq(f, p) + seq![c]
    }
}

/// The decoding of `s` from position `i` on, with `f` the format that the
/// last overstrike announced and `run` the style of the run left open.
///
/// A character followed by a backspace announces a format and is not
/// printed; a backspace followed by a character prints that character in
/// the announced format (nothing before any announcement); every other
/// character is printed plain. A run of one style is opened once and reset
/// once, however many characters it holds.
pub open spec fn decode_from(s: Seq<char>, i: int, f: Format, run: Format, p: PaletteView) -> Seq<char>
    decreases s.len() - i,
{
    if i < 0 || i >= s.len() {
        close_seq(run, p)
    } else if i + 1 < s.len() && s[i + 1] == BACKSPACE {
        decode_from(s, i + 1, format_of(s[i]), run, p)
    } else if s[i] == BACKSPACE && i + 1 < s.len() {
        if f == Format::Plain {
            decode_from(s, i + 2, f, run, p)
        } else {
            emit_styled(s[i + 1], f, run, p) + decode_from(s, i + 2, f, f, p)
        }
    } else {
        close_seq(run, p) + seq![s[i]] + decode_from(s, i + 1, f, Format::Plain, p)
    }
}

/// The decoding of `s`.
pub open spec fn decode(s: Seq<char>, p: PaletteView) -> Seq<char> {
    decode_from(s, 0, Format::Plain, Format::Plain, p)
}

/// The full output: decoded, with backticks turned into quotes.
pub open spec fn to_ansi(s: Seq<char>, p: PaletteView) -> Seq<char> {
    replace_char(decode(s, p), '`', '\'')
}

/// Appends the reset that closes a run of `run`.
fn push_close(out: &mut Vec<char>, run: Format, p: &Palette)
    ensures
        final(out)@ == old(out)@ + close_seq(run, p@),
{
    if run != Format::Plain {
        push_all(out, &p.reset);
    } else {
        assert(old(out)@ + close_seq(run, p@) =~= old(out)@);
    }
}

/// Appends `c` in style `f`, joining the open run of `run` if it has that style.
fn push_styled(out: &mut Vec<char>, c: char, f: Format, run: Format, p: &Palette)
    requires
        f != Format::Plain,
    ensures
        final(out)@ == old(out)@ + emit_styled(c, f, run, p@),
{
    if run == f {
        out.push(c);
        assert(final(out)@ =~= old(out)@ + seq![c]);
    } else {
        push_close(out, run, p);
        match f {
            Format::Bold => push_all(out, &p.bold),
            _ => push_all(out, &p.underline),
        }
        out.push(c);
        assert(out@ =~= old(out)@ + (close_seq(run, p@) + open_seq(f, p@) + seq![c]));
    }
}

/// Decodes the overstrike characters of `input`.
pub fn decode_overstrike(input: &Vec<char>, p: &Palette) -> (r: Vec<char>)
    ensures
        r@ == decode(input@, p@),
{
    let mut out: Vec<char> = Vec::new();
    let mut f = Format::Plain;
    let mut run = Format::Plain;
    let mut i: usize = 0;
    let n = input.len();
    while i < n
        invariant
            n == input.len(),
            i <= n,
            out@ + decode_from(input@, i as int, f, run, p@) == decode(input@, p@),
        decreases n - i,
    {
        let ghost before = out@;
        let c = input[i];
        if i + 1 < n && input[i + 1] == BACKSPACE {
            f = if c == '_' { Format::Underline } else { Format::Bold };
            i = i + 1;
        } else if c == BACKSPACE && i + 1 < n {
            if f != Format::Plain {
                push_styled(&mut out, input[i + 1], f, run, p);
                assert(before + decode_from(input@, i as int, f, run, p@) =~= out@ + decode_from(
                    input@,
                    i + 2,
                    f,
                    f,
                    p@,
                ));
                run = f;
            }
            i = i + 2;
        } else {
            push_close(&mut out, run, p);
            out.push(c);
            assert(before + decode_from(input@, i as int, f, run, p@) =~= out@ + decode_from(
                input@,
                i + 1,
                f,
                Format::Plain,
                p@,
            ));
            run = Format::Plain;
            i = i + 1;
        }
    }
    push_close(&mut out, run, p);
    out
}

/// Replaces each backtick with a plain quote.
pub fn replace_backticks(s: &mut Vec<char>)
    ensures
        final(s)@ == replace_char(old(s)@, '`', '\''),
{
    let mut i: usize = 0;
    while i < s.len()
        invariant
            i <= s.len(),
            s@.len() == old(s)@.len(),
            forall|j: int| 0 <= j < i ==> s@[j] == (if old(s)@[j] == '`' { '\'' } else { old(s)@[j] }),
            forall|j: int| i <= j < s@.len() ==> s@[j] == old(s)@[j],
        decreases s.len() - i,
    {
        if s[i] == '`' {
            s.set(i, '\'');
        }
        i = i + 1;
    }
    assert(s@ =~= replace_char(old(s)@, '`', '\''));
}

/// Decodes `input` into ANSI text with the sequences of `p`.
pub fn to_ansi_with(input: &Vec<char>, p: &Palette) -> (r: Vec<char>)
    ensures
        r@ == to_ansi(input@, p@),
{
    let mut out = decode_overstrike(input, p);
    replace_backticks(&mut out);
    out
}

/// A character followed by a backspace and itself is printed once, in the
/// style that it announces, and decoding goes on after the three characters
/// in that style, with a run of that style open.
pub proof fn lemma_overstrike_prints_once(c: char, rest: Seq<char>, f: Format, run: Format, p: PaletteView)
    requires
        c != BACKSPACE,
        rest.len() == 0 || rest[0] != BACKSPACE,
    ensures
        ({
            let s = seq![c, BACKSPACE, c] + rest;
            decode_from(s, 0, f, run, p) == emit_styled(c, format_of(c), run, p) + decode_from(
                s,
                3,
                format_of(c),
                format_of(c),
                p,
            )
        }),
{
    let s = seq![c, BACKSPACE, c] + rest;
    assert(s[1] == BACKSPACE);
    assert(s[0] == c);
    assert(s[2] == c);
    assert(decode_from(s, 0, f, run, p) == decode_from(s, 1, format_of(c), run, p));
    assert(!(2 < s.len() && s[2] == BACKSPACE));
}

/// Each character of `cs` overstruck with itself.
pub open spec fn overstruck(cs: Seq<char>) -> Seq<char>
    decreases cs.len(),
{
    if cs.len() == 0 {
        seq![]
    } else {
        seq![cs[0], BACKSPACE, cs[0]] + overstruck(cs.drop_first())
    }
}

proof fn lemma_overstruck_len(cs: Seq<char>)
    ensures
        overstruck(cs).len() == 3 * cs.len(),
    decreases cs.len(),
{
    if cs.len() > 0 {
        lemma_overstruck_len(cs.drop_first());
    }
}

/// Inside an open bold run, overstruck characters (none of them `_` or a
/// backspace) are printed as they are, followed by nothing else.
proof fn lemma_bold_run(s: Seq<char>, i: int, cs: Seq<char>, f: Format, p: PaletteView)
    requires
        0 <= i,
        i + 3 * cs.len() <= s.len(),
        s.subrange(i, i + 3 * cs.len()) == overstruck(cs),
        forall|k: int| 0 <= k < cs.len() ==> #[trigger] cs[k] != '_' && cs[k] != BACKSPACE,
        i + 3 * cs.len() == s.len() || s[i + 3 * cs.len()] != BACKSPACE,
        cs.len() > 0 || f == Format::Bold,
    ensures
        decode_from(s, i, f, Format::Bold, p) == cs + decode_from(
            s,
            i + 3 * cs.len(),
            Format::Bold,
            Format::Bold,
            p,
        ),
    decreases cs.len(),
{
    if cs.len() == 0 {
        assert(cs =~= Seq::<char>::empty());
        assert(cs + decode_from(s, i, f, Format::Bold, p) =~= decode_from(s, i, f, Format::Bold, p));
    } else {
        let rest = cs.drop_first();
        lemma_overstruck_len(rest);
        let sub = s.subrange(i, i + 3 * cs.len());
        assert(sub[0] == cs[0] && sub[1] == BACKSPACE && sub[2] == cs[0]);
        assert(s[i] == cs[0] && s[i + 1] == BACKSPACE && s[i + 2] == cs[0]);
        assert(s.subrange(i + 3, i + 3 + 3 * rest.len() as int) =~= sub.subrange(3, 3 * cs.len() as int));
        assert(sub.subrange(3, 3 * cs.len() as int) =~= overstruck(rest));
        if rest.len() > 0 {
            assert(overstruck(rest)[0] == rest[0]);
            assert(sub.subrange(3, 3 * cs.len() as int)[0] == sub[3]);
            assert(sub[3] == s[i + 3]);
            assert(s[i + 3] == rest[0]);
        }
        assert(i + 3 == s.len() || s[i + 3] != BACKSPACE);
        assert forall|k: int| 0 <= k < rest.len() implies #[trigger] rest[k] != '_' && rest[k] != BACKSPACE by {
            assert(rest[k] == cs[k + 1]);
        }
        lemma_bold_run(s, i + 3, rest, Format::Bold, p);
        assert(decode_from(s, i, f, Format::Bold, p) == decode_from(s, i + 1, Format::Bold, Format::Bold, p));
        assert(decode_from(s, i + 1, Format::Bold, Format::Bold, p) == seq![cs[0]] + decode_from(
            s,
            i + 3,
            Format::Bold,
            Format::Bold,
            p,
        ));
        assert(cs =~= seq![cs[0]] + rest);
    }
}

/// A run of characters each overstruck with itself (none of them `_` or a
/// backspace) decodes to one bold opening, the characters once each, and
/// one reset.
pub proof fn lemma_bold_run_merges(cs: Seq<char>, p: PaletteView)
    requires
        cs.len() > 0,
        forall|k: int| 0 <= k < cs.len() ==> #[trigger] cs[k] != '_' && cs[k] != BACKSPACE,
    ensures
        decode(overstruck(cs), p) == p.bold + cs + p.reset,
{
    let s = overstruck(cs);
    let rest = cs.drop_first();
    lemma_overstruck_len(cs);
    lemma_overstruck_len(rest);
    assert(s[0] == cs[0] && s[1] == BACKSPACE && s[2] == cs[0]);
    assert(s.subrange(3, 3 + 3 * rest.len() as int) =~= overstruck(rest));
    if rest.len() > 0 {
        assert(s[3] == rest[0]);
    }
    assert forall|k: int| 0 <= k < rest.len() implies #[trigger] rest[k] != '_' && rest[k] != BACKSPACE by {
        assert(rest[k] == cs[k + 1]);
    }
    lemma_bold_run(s, 3, rest, Format::Bold, p);
    assert(decode_from(s, 0, Format::Plain, Format::Plain, p) == decode_from(s, 1, Format::Bold, Format::Plain, p));
    assert(decode_from(s, 1, Format::Bold, Format::Plain, p) == p.bold + seq![cs[0]] + decode_from(
        s,
        3,
        Format::Bold,
        Format::Bold,
        p,
    ));
    assert(decode_from(s, 3 + 3 * rest.len() as int, Format::Bold, Format::Bold, p) == p.reset);
    assert(cs =~= seq![cs[0]] + rest);
    assert(p.bold + seq![cs[0]] + (rest + p.reset) =~= p.bold + cs + p.reset);
}

} // verus!
