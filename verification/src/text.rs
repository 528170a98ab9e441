//! Lexicographic comparison of character sequences, and the executable
//! string comparison the ranker's tie-breaks are built on.

use vstd::prelude::*;

verus! {

/// Three-way comparison of two integers.
pub open spec fn int_cmp(a: int, b: int) -> core::cmp::Ordering {
    if a < b {
        core::cmp::Ordering::Less
    } else if a > b {
        core::cmp::Ordering::Greater
    } else {
        core::cmp::Ordering::Equal
    }
}

/// Lexicographic three-way comparison of two character sequences by
/// Unicode scalar value; a strict prefix precedes the longer sequence.
pub open spec fn chars_cmp(a: Seq<char>, b: Seq<char>) -> core::cmp::Ordering
    decreases a.len(),
{
    if a.len() == 0 && b.len() == 0 {
        core::cmp::Ordering::Equal
    } else if a.len() == 0 {
        core::cmp::Ordering::Less
    } else if b.len() == 0 {
        core::cmp::Ordering::Greater
    } else if (a[0] as int) != (b[0] as int) {
        int_cmp(a[0] as int, b[0] as int)
    } else {
        chars_cmp(a.drop_first(), b.drop_first())
    }
}

/// Two sequences compare `Equal` exactly when they are the same sequence.
pub proof fn lemma_chars_cmp_eq(a: Seq<char>, b: Seq<char>)
    ensures
        chars_cmp(a, b) == core::cmp::Ordering::Equal <==> a == b,
    decreases a.len(),
{
    if a.len() == 0 && b.len() == 0 {
        assert(a =~= b);
    } else if a.len() == 0 || b.len() == 0 {
    } else if (a[0] as int) != (b[0] as int) {
        assert(a[0] != b[0]);
    } else {
        lemma_chars_cmp_eq(a.drop_first(), b.drop_first());
        if chars_cmp(a, b) == core::cmp::Ordering::Equal {
            assert(a =~= seq![a[0]] + a.drop_first());
            assert(b =~= seq![b[0]] + b.drop_first());
            assert((a[0] as int) == (b[0] as int));
            assert(a[0] == b[0]);
        }
        if a == b {
            assert(a.drop_first() =~= b.drop_first());
        }
    }
}

/// Comparison is antisymmetric: swapping the arguments swaps
/// `Less` and `Greater`.
pub proof fn lemma_chars_cmp_antisym(a: Seq<char>, b: Seq<char>)
    ensures
        chars_cmp(a, b) == core::cmp::Ordering::Less <==> chars_cmp(b, a)
            == core::cmp::Ordering::Greater,
    decreases a.len(),
{
    if a.len() != 0 && b.len() != 0 && (a[0] as int) == (b[0] as int) {
        lemma_chars_cmp_antisym(a.drop_first(), b.drop_first());
    }
}

/// `Less` is transitive.
pub proof fn lemma_chars_cmp_trans(a: Seq<char>, b: Seq<char>, c: Seq<char>)
    requires
        chars_cmp(a, b) == core::cmp::Ordering::Less,
        chars_cmp(b, c) == core::cmp::Ordering::Less,
    ensures
        chars_cmp(a, c) == core::cmp::Ordering::Less,
    decreases a.len(),
{
    if a.len() != 0 && b.len() != 0 && c.len() != 0 && (a[0] as int) == (b[0] as int) && (
    b[0] as int) == (c[0] as int) {
        lemma_chars_cmp_trans(a.drop_first(), b.drop_first(), c.drop_first());
    }
}

/// Three-way lexicographic comparison of two strings by character.
pub fn str_cmp(a: &str, b: &str) -> (r: core::cmp::Ordering)
    ensures
        r == chars_cmp(a@, b@),
{
    let alen = a.unicode_len();
    let blen = b.unicode_len();
    let mut i: usize = 0;
    proof {
        assert(a@.skip(0) =~= a@);
        assert(b@.skip(0) =~= b@);
    }
    while i < alen && i < blen
        invariant
            i <= alen,
            i <= blen,
            alen == a@.len(),
            blen == b@.len(),
            chars_cmp(a@, b@) == chars_cmp(a@.skip(i as int), b@.skip(i as int)),
        decreases alen - i,
    {
        let ac = a.get_char(i);
        let bc = b.get_char(i);
        proof {
            assert(a@.skip(i as int)[0] == ac);
            assert(b@.skip(i as int)[0] == bc);
        }
        if (ac as u32) < (bc as u32) {
            return core::cmp::Ordering::Less;
        }
        if (ac as u32) > (bc as u32) {
            return core::cmp::Ordering::Greater;
        }
        proof {
            assert(a@.skip(i as int).drop_first() =~= a@.skip(i as int + 1));
            assert(b@.skip(i as int).drop_first() =~= b@.skip(i as int + 1));
        }
        i = i + 1;
    }
    proof {
        assert(a@.skip(i as int).len() == alen - i);
        assert(b@.skip(i as int).len() == blen - i);
        if alen == blen {
            assert(chars_cmp(a@.skip(i as int), b@.skip(i as int)) == core::cmp::Ordering::Equal);
        } else if alen < blen {
            assert(chars_cmp(a@.skip(i as int), b@.skip(i as int)) == core::cmp::Ordering::Less);
        } else {
            assert(chars_cmp(a@.skip(i as int), b@.skip(i as int)) == core::cmp::Ordering::Greater);
        }
    }
    if alen == blen {
        core::cmp::Ordering::Equal
    } else if alen < blen {
        core::cmp::Ordering::Less
    } else {
        core::cmp::Ordering::Greater
    }
}

/// The character of one decimal digit.
pub open spec fn digit_char(d: int) -> char {
    if d == 0 {
        '0'
    } else if d == 1 {
        '1'
    } else if d == 2 {
        '2'
    } else if d == 3 {
        '3'
    } else if d == 4 {
        '4'
    } else if d == 5 {
        '5'
    } else if d == 6 {
        '6'
    } else if d == 7 {
        '7'
    } else if d == 8 {
        '8'
    } else {
        '9'
    }
}

/// The decimal digits of a non-negative integer, most significant
/// first.
pub open spec fn dec_digits(n: int) -> Seq<char>
    decreases n,
{
    if n < 10 {
        seq![digit_char(n)]
    } else {
        dec_digits(n / 10).push(digit_char(n % 10))
    }
}

/// The decimal digits of `n`, left-padded with zeros to at least two
/// places.
pub open spec fn padded2(n: int) -> Seq<char> {
    if 0 <= n < 10 {
        seq!['0'] + dec_digits(n)
    } else {
        dec_digits(n)
    }
}

/// The decimal digits of `n`, left-padded with zeros to at least three
/// places.
pub open spec fn padded3(n: int) -> Seq<char> {
    if 0 <= n < 10 {
        seq!['0', '0'] + dec_digits(n)
    } else if 10 <= n < 100 {
        seq!['0'] + dec_digits(n)
    } else {
        dec_digits(n)
    }
}

/// How an in-game time in milliseconds reads on the leaderboard:
/// minutes, seconds and the millisecond remainder, colon-separated,
/// each zero-padded (two places for minutes and seconds, three for
/// milliseconds).
pub open spec fn igt_label(ms: u32) -> Seq<char> {
    padded2(ms as int / 1000 / 60) + seq![':'] + padded2(ms as int / 1000 % 60) + seq![':']
        + padded3(ms as int % 1000)
}

/// One decimal digit as text.
fn digit_string(d: u32) -> (r: String)
    requires
        d < 10,
    ensures
        r@ == seq![digit_char(d as int)],
{
    proof {
        reveal_strlit("0");
        reveal_strlit("1");
        reveal_strlit("2");
        reveal_strlit("3");
        reveal_strlit("4");
        reveal_strlit("5");
        reveal_strlit("6");
        reveal_strlit("7");
        reveal_strlit("8");
        reveal_strlit("9");
    }
    match d {
        0 => "0".to_owned(),
        1 => "1".to_owned(),
        2 => "2".to_owned(),
        3 => "3".to_owned(),
        4 => "4".to_owned(),
        5 => "5".to_owned(),
        6 => "6".to_owned(),
        7 => "7".to_owned(),
        8 => "8".to_owned(),
        _ => "9".to_owned(),
    }
}

/// The decimal digits of `n`, implementing [`dec_digits`].
fn dec_string(n: u32) -> (r: String)
    ensures
        r@ == dec_digits(n as int),
    decreases n,
{
    if n < 10 {
        digit_string(n)
    } else {
        let mut s = dec_string(n / 10);
        let ghost prefix = s@;
        let d = digit_string(n % 10);
        s.append(d.as_str());
        proof {
            assert(s@ =~= dec_digits(n as int / 10).push(digit_char(n as int % 10)));
        }
        s
    }
}

/// The decimal digits of `n` padded to at least two places,
/// implementing [`padded2`].
fn padded2_string(n: u32) -> (r: String)
    ensures
        r@ == padded2(n as int),
{
    if n < 10 {
        let mut s = "0".to_owned();
        let d = dec_string(n);
        s.append(d.as_str());
        proof {
            reveal_strlit("0");
            assert(s@ =~= seq!['0'] + dec_digits(n as int));
        }
        s
    } else {
        dec_string(n)
    }
}

/// The decimal digits of `n` padded to at least three places,
/// implementing [`padded3`].
fn padded3_string(n: u32) -> (r: String)
    ensures
        r@ == padded3(n as int),
{
    if n < 10 {
        let mut s = "00".to_owned();
        let d = dec_string(n);
        s.append(d.as_str());
        proof {
            reveal_strlit("00");
            assert(s@ =~= seq!['0', '0'] + dec_digits(n as int));
        }
        s
    } else if n < 100 {
        let mut s = "0".to_owned();
        let d = dec_string(n);
        s.append(d.as_str());
        proof {
            reveal_strlit("0");
            assert(s@ =~= seq!['0'] + dec_digits(n as int));
        }
        s
    } else {
        dec_string(n)
    }
}

/// Render an in-game time in milliseconds for display, implementing
/// [`igt_label`].
pub fn format_igt(ms: u32) -> (r: String)
    ensures
        r@ == igt_label(ms),
{
    let minutes = ms / 1000 / 60;
    let seconds = ms / 1000 % 60;
    let millis = ms % 1000;
    let mut s = padded2_string(minutes);
    let sec = padded2_string(seconds);
    let mil = padded3_string(millis);
    s.append(":");
    s.append(sec.as_str());
    s.append(":");
    s.append(mil.as_str());
    proof {
        reveal_strlit(":");
        assert(s@ =~= igt_label(ms));
    }
    s
}

/// Whether two strings consist of the same characters.
pub fn str_eq(a: &str, b: &str) -> (r: bool)
    ensures
        r == (a@ == b@),
{
    proof {
        lemma_chars_cmp_eq(a@, b@);
    }
    match str_cmp(a, b) {
        core::cmp::Ordering::Equal => true,
        _ => false,
    }
}

} // verus!
