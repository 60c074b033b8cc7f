//! Verified text utilities: string building, decimal numerals, repetition,
//! line splitting and trimming, all specified over character sequences.

use vstd::prelude::*;

use crate::style::SpanView;

verus! {

/// Relies on `String::push`: appends one character at the end.
#[verifier::external_body]
pub fn push_char(s: &mut String, c: char)
    ensures
        final(s)@ == old(s)@.push(c),
{
    s.push(c);
}

/// `a + b` capped at `usize::MAX`.
pub open spec fn sat_add(a: int, b: int) -> int {
    if a + b > usize::MAX as int {
        usize::MAX as int
    } else {
        a + b
    }
}

/// Computes [`sat_add`] on machine integers.
pub fn sat_add_usize(a: usize, b: usize) -> (r: usize)
    ensures
        r as int == sat_add(a as int, b as int),
{
    if a > usize::MAX - b {
        usize::MAX
    } else {
        a + b
    }
}

/// `piece` repeated `n` times.
pub open spec fn seq_repeat(piece: Seq<char>, n: nat) -> Seq<char>
    decreases n,
{
    if n == 0 {
        Seq::empty()
    } else {
        seq_repeat(piece, (n - 1) as nat) + piece
    }
}

/// Appends `piece` to `s`, `n` times over.
pub fn push_repeat(s: &mut String, piece: &str, n: usize)
    ensures
        final(s)@ == old(s)@ + seq_repeat(piece@, n as nat),
{
    assert(old(s)@ + seq_repeat(piece@, 0) =~= old(s)@);
    for i in 0..n
        invariant
            s@ =~= old(s)@ + seq_repeat(piece@, i as nat),
    {
        s.append(piece);
    }
}

/// The decimal digit character for `d`, which must be below ten.
pub open spec fn digit_char(d: int) -> char {
    if d == 0 {
        '0'
    } else if d == 1 {
        '1'
    } else if d == 2 {
        '2'
    } else if d == 3 {
        '3'
    } else if d == 4 {
        '4'
    } else if d == 5 {
        '5'
    } else if d == 6 {
        '6'
    } else if d == 7 {
        '7'
    } else if d == 8 {
        '8'
    } else {
        '9'
    }
}

/// The decimal numeral of `n`, most significant digit first.
pub open spec fn dec_rep(n: int) -> Seq<char>
    decreases n,
{
    if n < 10 {
        seq![digit_char(n)]
    } else {
        dec_rep(n / 10).push(digit_char(n % 10))
    }
}

/// Computes [`digit_char`] on a machine integer below ten.
fn digit_char_exec(d: u64) -> (r: char)
    requires
        d < 10,
    ensures
        r == digit_char(d as int),
{
    if d == 0 {
        '0'
    } else if d == 1 {
        '1'
    } else if d == 2 {
        '2'
    } else if d == 3 {
        '3'
    } else if d == 4 {
        '4'
    } else if d == 5 {
        '5'
    } else if d == 6 {
        '6'
    } else if d == 7 {
        '7'
    } else if d == 8 {
        '8'
    } else {
        '9'
    }
}

/// Appends the decimal numeral of `n` to `s`.
pub fn push_decimal(s: &mut String, n: u64)
    ensures
        final(s)@ == old(s)@ + dec_rep(n as int),
    decreases n,
{
    if n < 10 {
        push_char(s, digit_char_exec(n));
        assert(s@ =~= old(s)@ + dec_rep(n as int));
    } else {
        push_decimal(s, n / 10);
        push_char(s, digit_char_exec(n % 10));
        assert(s@ =~= old(s)@ + dec_rep(n as int));
    }
}

/// `s` with a trailing carriage return removed, if one is there.
pub open spec fn strip_tail_cr(s: Seq<char>) -> Seq<char> {
    if s.len() > 0 && s.last() == '\r' {
        s.drop_last()
    } else {
        s
    }
}

/// The lines of `cur + rest`, where `cur` is text already read of the current
/// line: lines are cut at each newline, a carriage return just before a
/// newline is dropped, and a final line ending yields no extra empty line.
pub open spec fn lines_acc(cur: Seq<char>, rest: Seq<char>) -> Seq<Seq<char>>
    decreases rest.len(),
{
    if rest.len() == 0 {
        if cur.len() == 0 {
            Seq::empty()
        } else {
            seq![cur]
        }
    } else if rest[0] == '\n' {
        seq![strip_tail_cr(cur)] + lines_acc(Seq::empty(), rest.drop_first())
    } else {
        lines_acc(cur.push(rest[0]), rest.drop_first())
    }
}

/// The lines of `s`, as `str::lines` cuts them.
pub open spec fn spec_lines(s: Seq<char>) -> Seq<Seq<char>> {
    lines_acc(Seq::empty(), s)
}

/// Splits `s` into its lines.
pub fn split_lines(s: &str) -> (r: Vec<String>)
    ensures
        r.deep_view() == spec_lines(s@),
{
    let n = s.unicode_len();
    let mut out: Vec<String> = Vec::new();
    let mut cur = String::new();
    assert(s@.skip(0) =~= s@);
    assert(out.deep_view() =~= Seq::<Seq<char>>::empty());
    for i in 0..n
        invariant
            n == s@.len(),
            spec_lines(s@) =~= out.deep_view() + lines_acc(cur@, s@.skip(i as int)),
    {
        let ghost pre_out = out.deep_view();
        let ghost pre_cur = cur@;
        let ghost rest = s@.skip(i as int);
        let c = s.get_char(i);
        assert(rest[0] == c);
        assert(rest.drop_first() =~= s@.skip(i + 1));
        if c == '\n' {
            let k = cur.unicode_len();
            if k > 0 && cur.as_str().get_char(k - 1) == '\r' {
                let trimmed = cur.as_str().substring_char(0, k - 1).to_owned();
                assert(trimmed@ =~= strip_tail_cr(pre_cur));
                out.push(trimmed);
            } else {
                assert(cur@ =~= strip_tail_cr(pre_cur));
                out.push(cur);
            }
            cur = String::new();
            assert(out.deep_view() =~= pre_out.push(strip_tail_cr(pre_cur)));
            assert(out.deep_view() + lines_acc(cur@, s@.skip(i + 1)) =~= pre_out + (seq![
                strip_tail_cr(pre_cur),
            ] + lines_acc(Seq::empty(), rest.drop_first())));
        } else {
            push_char(&mut cur, c);
            assert(cur@ =~= pre_cur.push(c));
        }
    }
    assert(s@.skip(n as int) =~= Seq::<char>::empty());
    if cur.unicode_len() > 0 {
        let ghost pre_out = out.deep_view();
        let ghost last = cur@;
        out.push(cur);
        assert(out.deep_view() =~= pre_out.push(last));
        assert(spec_lines(s@) =~= out.deep_view());
    } else {
        assert(spec_lines(s@) =~= out.deep_view());
    }
    out
}

/// `s` with every trailing newline removed.
pub open spec fn trim_tail_nl(s: Seq<char>) -> Seq<char>
    decreases s.len(),
{
    if s.len() > 0 && s.last() == '\n' {
        trim_tail_nl(s.drop_last())
    } else {
        s
    }
}

/// Removes every trailing newline of `s`.
pub fn trim_trailing_newlines(s: &str) -> (r: String)
    ensures
        r@ == trim_tail_nl(s@),
{
    let n = s.unicode_len();
    let mut k = n;
    assert(s@.take(n as int) =~= s@);
    while k > 0 && s.get_char(k - 1) == '\n'
        invariant
            k <= n,
            n == s@.len(),
            trim_tail_nl(s@) == trim_tail_nl(s@.take(k as int)),
        decreases k,
    {
        assert(s@.take(k as int).last() == s@[k - 1]);
        assert(s@.take(k as int).drop_last() =~= s@.take(k - 1));
        k = k - 1;
    }
    let r = s.substring_char(0, k).to_owned();
    assert(s@.take(k as int) =~= s@.subrange(0, k as int));
    if k > 0 {
        assert(s@.take(k as int).last() != '\n');
    }
    assert(trim_tail_nl(s@.take(k as int)) == s@.take(k as int));
    r
}

/// The texts of `spans`, concatenated.
pub open spec fn spans_text(spans: Seq<SpanView>) -> Seq<char>
    decreases spans.len(),
{
    if spans.len() == 0 {
        Seq::empty()
    } else {
        spans_text(spans.drop_last()) + spans.last().text
    }
}

/// The length of [`spans_text`], capped at `usize::MAX` at each step.
pub open spec fn spans_text_sat_len(spans: Seq<SpanView>) -> int
    decreases spans.len(),
{
    if spans.len() == 0 {
        0
    } else {
        sat_add(spans_text_sat_len(spans.drop_last()), spans.last().text.len() as int)
    }
}

} // verus!
