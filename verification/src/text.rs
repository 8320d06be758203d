//! Text-building blocks shared by all renderers: repeated characters,
//! decimal line numbers, padding, and splitting a string into its lines.

use vstd::prelude::*;
use vstd::string::{StrSliceExecFns, StringExecFns};

verus! {

/// `n` copies of the character `c`; empty when `n <= 0`.
pub open spec fn spec_repeat(c: char, n: int) -> Seq<char>
    decreases n,
{
    if n <= 0 {
        Seq::empty()
    } else {
        spec_repeat(c, n - 1).push(c)
    }
}

/// `n` spaces; empty when `n <= 0`.
pub open spec fn spec_spaces(n: int) -> Seq<char> {
    spec_repeat(' ', n)
}

/// Relies on String::push: appends one character to the end of the string.
#[verifier::external_body]
pub fn push_char(s: &mut String, c: char)
    ensures
        final(s)@ == old(s)@.push(c),
{
    s.push(c)
}

/// Appends `n` copies of `c` to `out`.
pub fn push_repeat(out: &mut String, c: char, n: usize)
    ensures
        final(out)@ == old(out)@ + spec_repeat(c, n as int),
{
    let mut i: usize = 0;
    while i < n
        invariant
            i <= n,
            out@ == old(out)@ + spec_repeat(c, i as int),
        decreases n - i,
    {
        push_char(out, c);
        i = i + 1;
    }
    assert(out@ =~= old(out)@ + spec_repeat(c, n as int));
}

/// Appends `n` spaces to `out`.
pub fn push_spaces(out: &mut String, n: usize)
    ensures
        final(out)@ == old(out)@ + spec_spaces(n as int),
{
    push_repeat(out, ' ', n);
}

/// Repetitions concatenate: `a` copies of `c` followed by `b` copies of
/// `c` are `a + b` copies of `c`.
pub proof fn lemma_repeat_add(c: char, a: int, b: int)
    requires
        a >= 0,
        b >= 0,
    ensures
        spec_repeat(c, a) + spec_repeat(c, b) =~= spec_repeat(c, a + b),
    decreases b,
{
    if b == 0 {
        assert(spec_repeat(c, a) + spec_repeat(c, 0) =~= spec_repeat(c, a));
    } else {
        lemma_repeat_add(c, a, b - 1);
        assert(spec_repeat(c, a) + spec_repeat(c, b) =~= (spec_repeat(c, a) + spec_repeat(
            c,
            b - 1,
        )).push(c));
    }
}

/// The character for the decimal digit `d`.
pub open spec fn spec_digit(d: int) -> char {
    if d == 0 {
        '0'
    } else if d == 1 {
        '1'
    } else if d == 2 {
        '2'
    } else if d == 3 {
        '3'
    } else if d == 4 {
        '4'
    } else if d == 5 {
        '5'
    } else if d == 6 {
        '6'
    } else if d == 7 {
        '7'
    } else if d == 8 {
        '8'
    } else {
        '9'
    }
}

/// The decimal digits of `n`, most significant first.
pub open spec fn spec_dec(n: int) -> Seq<char>
    recommends
        n >= 0,
    decreases n,
{
    if n < 10 {
        seq![spec_digit(n)]
    } else {
        spec_dec(n / 10).push(spec_digit(n % 10))
    }
}

/// The number of decimal digits of `n`.
pub open spec fn spec_dec_len(n: int) -> int {
    spec_dec(n).len() as int
}

/// The decimal representation of `n` has at most `n + 1` digits; in
/// particular its length always fits in a machine word.
pub proof fn lemma_spec_dec_len_le(n: int)
    requires
        n >= 0,
    ensures
        spec_dec(n).len() <= n + 1,
    decreases n,
{
    if n >= 10 {
        assert(0 <= n / 10 < n) by (nonlinear_arith)
            requires
                n >= 10,
        ;
        lemma_spec_dec_len_le(n / 10);
    }
}

/// Appends the decimal digits of `n` to `out`.
pub fn push_dec(out: &mut String, n: usize)
    ensures
        final(out)@ == old(out)@ + spec_dec(n as int),
    decreases n,
{
    if n < 10 {
        let c = digit_char(n);
        push_char(out, c);
        assert(out@ =~= old(out)@ + spec_dec(n as int));
    } else {
        push_dec(out, n / 10);
        let c = digit_char(n % 10);
        push_char(out, c);
        assert(out@ =~= old(out)@ + spec_dec(n as int));
    }
}

/// The character for digit `d`, executable form.
fn digit_char(d: usize) -> (r: char)
    requires
        d < 10,
    ensures
        r == spec_digit(d as int),
{
    match d {
        0 => '0',
        1 => '1',
        2 => '2',
        3 => '3',
        4 => '4',
        5 => '5',
        6 => '6',
        7 => '7',
        8 => '8',
        _ => '9',
    }
}

/// The number of decimal digits of `n`, executable form.
pub fn dec_len(n: usize) -> (r: usize)
    ensures
        r as int == spec_dec_len(n as int),
    decreases n,
{
    if n < 10 {
        1
    } else {
        proof {
            lemma_spec_dec_len_le(n as int / 10);
            assert(0 <= n as int / 10 < n as int) by (nonlinear_arith)
                requires
                    n >= 10,
            ;
        }
        let r = dec_len(n / 10);
        r + 1
    }
}

/// `s` padded with spaces on the left up to width `w`.
pub open spec fn spec_pad_left(s: Seq<char>, w: int) -> Seq<char> {
    spec_spaces(w - s.len()) + s
}

/// `s` padded with spaces on the right up to width `w`.
pub open spec fn spec_pad_right(s: Seq<char>, w: int) -> Seq<char> {
    s + spec_spaces(w - s.len())
}

/// Appends the decimal digits of `n`, padded with spaces on the right up to
/// width `w`.
pub fn push_dec_pad_right(out: &mut String, n: usize, w: usize)
    ensures
        final(out)@ == old(out)@ + spec_pad_right(spec_dec(n as int), w as int),
{
    let d = dec_len(n);
    push_dec(out, n);
    if d < w {
        push_spaces(out, w - d);
    } else {
        assert(spec_spaces(w - spec_dec(n as int).len()) =~= Seq::<char>::empty());
    }
    assert(out@ =~= old(out)@ + spec_pad_right(spec_dec(n as int), w as int));
}

/// Appends the decimal digits of `n`, padded with spaces on the left up to
/// width `w`.
pub fn push_dec_pad_left(out: &mut String, n: usize, w: usize)
    ensures
        final(out)@ == old(out)@ + spec_pad_left(spec_dec(n as int), w as int),
{
    let d = dec_len(n);
    if d < w {
        push_spaces(out, w - d);
    } else {
        assert(spec_spaces(w - spec_dec(n as int).len()) =~= Seq::<char>::empty());
    }
    push_dec(out, n);
    assert(out@ =~= old(out)@ + spec_pad_left(spec_dec(n as int), w as int));
}

/// The lines of `s`, split as Rust's `str::lines` splits them: a line ends
/// at `\n` or `\r\n`, the terminator is not part of the line, and a final
/// terminator is optional.
pub open spec fn spec_lines(s: Seq<char>) -> Seq<Seq<char>>
    decreases s.len(),
{
    if s.len() == 0 {
        Seq::empty()
    } else if s[0] == '\n' {
        seq![Seq::<char>::empty()] + spec_lines(s.skip(1))
    } else if s[0] == '\r' && s.len() >= 2 && s[1] == '\n' {
        seq![Seq::<char>::empty()] + spec_lines(s.skip(2))
    } else {
        let rest = spec_lines(s.skip(1));
        if rest.len() == 0 {
            seq![seq![s[0]]]
        } else {
            seq![seq![s[0]] + rest[0]] + rest.skip(1)
        }
    }
}

/// Relies on str::lines: splits at `\n` and `\r\n` line endings, the ending
/// is not part of the line, and a final line ending is optional.
#[verifier::external_body]
pub fn split_lines(s: &str) -> (v: Vec<String>)
    ensures
        v.deep_view() == spec_lines(s@),
{
    s.lines().map(|line| line.to_string()).collect()
}

/// Appends `s` padded with spaces on the left up to width `w`.
pub fn push_str_pad_left(out: &mut String, s: &str, w: usize)
    ensures
        final(out)@ == old(out)@ + spec_pad_left(s@, w as int),
{
    let d = s.unicode_len();
    if d < w {
        push_spaces(out, w - d);
    } else {
        assert(spec_spaces(w - s@.len()) =~= Seq::<char>::empty());
    }
    out.append(s);
    assert(out@ =~= old(out)@ + spec_pad_left(s@, w as int));
}

} // verus!
