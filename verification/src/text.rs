//! Decimal text for the numbers that go into rows and time stamps.

use vstd::prelude::*;
use vstd::string::StringExecFns;

verus! {

/// The character of the decimal digit `d`.
pub open spec fn digit(d: int) -> char {
    if d == 0 {
        '0'
    } else if d == 1 {
        '1'
    } else if d == 2 {
        '2'
    } else if d == 3 {
        '3'
    } else if d == 4 {
        '4'
    } else if d == 5 {
        '5'
    } else if d == 6 {
        '6'
    } else if d == 7 {
        '7'
    } else if d == 8 {
        '8'
    } else {
        '9'
    }
}

/// The decimal digits of `n`, without leading zeros.
pub open spec fn decimal(n: nat) -> Seq<char>
    decreases n,
{
    if n < 10 {
        seq![digit(n as int)]
    } else {
        decimal(n / 10).push(digit((n % 10) as int))
    }
}

/// `count` zeros.
pub open spec fn zeros(count: nat) -> Seq<char> {
    Seq::new(count, |i: int| '0')
}

/// The decimal digits of `n`, with zeros in front up to `width` digits.
pub open spec fn zero_padded(n: nat, width: nat) -> Seq<char> {
    if decimal(n).len() >= width {
        decimal(n)
    } else {
        zeros((width - decimal(n).len()) as nat) + decimal(n)
    }
}

/// The text of one decimal digit.
fn digit_str(d: u64) -> (r: &'static str)
    requires
        d < 10,
    ensures
        r@ == seq![digit(d as int)],
{
    proof {
        reveal_strlit("0");
        reveal_strlit("1");
        reveal_strlit("2");
        reveal_strlit("3");
        reveal_strlit("4");
        reveal_strlit("5");
        reveal_strlit("6");
        reveal_strlit("7");
        reveal_strlit("8");
        reveal_strlit("9");
    }
    let r = if d == 0 {
        "0"
    } else if d == 1 {
        "1"
    } else if d == 2 {
        "2"
    } else if d == 3 {
        "3"
    } else if d == 4 {
        "4"
    } else if d == 5 {
        "5"
    } else if d == 6 {
        "6"
    } else if d == 7 {
        "7"
    } else if d == 8 {
        "8"
    } else {
        "9"
    };
    assert(r@ =~= seq![digit(d as int)]);
    r
}

/// Number of decimal digits of `n`.
pub fn decimal_len(n: u64) -> (r: usize)
    ensures
        r == decimal(n as nat).len(),
        1 <= r <= 20,
    decreases n,
{
    if n < 10 {
        1
    } else {
        let r = decimal_len(n / 10);
        proof {
            lemma_decimal_len_bound(n as nat);
        }
        r + 1
    }
}

/// A number below `10^k` has at most `k` digits; here for what fits 64 bits.
pub proof fn lemma_decimal_len_bound(n: nat)
    requires
        n <= u64::MAX,
    ensures
        1 <= decimal(n).len() <= 20,
{
    reveal_with_fuel(decimal, 21);
}

/// Appends the decimal digits of `n` to `out`.
pub fn append_decimal(out: &mut String, n: u64)
    ensures
        final(out)@ == old(out)@ + decimal(n as nat),
    decreases n,
{
    if n >= 10 {
        append_decimal(out, n / 10);
    }
    out.append(digit_str(n % 10));
    assert(out@ =~= old(out)@ + decimal(n as nat));
}

/// Appends the decimal digits of `n` to `out`, with zeros in front up to
/// `width` digits.
pub fn append_zero_padded(out: &mut String, n: u64, width: usize)
    ensures
        final(out)@ == old(out)@ + zero_padded(n as nat, width as nat),
{
    let len = decimal_len(n);
    let mut i: usize = len;
    while i < width
        invariant
            len <= i,
            len < width ==> i <= width,
            len >= width ==> i == len,
            len == decimal(n as nat).len(),
            out@ == old(out)@ + zeros((i - len) as nat),
        decreases width - i,
    {
        out.append("0");
        proof {
            reveal_strlit("0");
        }
        assert(out@ =~= old(out)@ + zeros((i + 1 - len) as nat));
        i = i + 1;
    }
    let ghost padding = zeros((i - len) as nat);
    append_decimal(out, n);
    assert(out@ =~= old(out)@ + (padding + decimal(n as nat)));
    assert(padding + decimal(n as nat) =~= zero_padded(n as nat, width as nat));
}

/// Ten to the power `e`.
pub open spec fn pow10(e: nat) -> nat
    decreases e,
{
    if e == 0 {
        1
    } else {
        10 * pow10((e - 1) as nat)
    }
}

/// The distance of `v` from zero.
pub open spec fn magnitude(v: int) -> nat {
    if v >= 0 {
        v as nat
    } else {
        (-v) as nat
    }
}

/// `micro` millionths as a count of units of `10^-places`, rounded to the
/// nearest unit, a half away from zero. The count is given by its
/// magnitude; the sign is that of `micro`.
pub open spec fn rounded_magnitude(micro: int, places: nat) -> nat {
    let step = pow10((6 - places) as nat);
    (magnitude(micro) + step / 2) / step
}

/// The text of `micro` millionths with `places` digits behind the point:
/// a minus sign where the rounded value is below zero, the whole part, a
/// point, and the fraction with zeros in front.
pub open spec fn fixed_text(micro: int, places: nat) -> Seq<char> {
    let mag = rounded_magnitude(micro, places);
    let body = decimal(mag / pow10(places)) + seq!['.'] + zero_padded(mag % pow10(places), places);
    if micro < 0 && mag > 0 {
        seq!['-'] + body
    } else {
        body
    }
}

/// Ten to the power `e`.
pub fn pow10_of(e: u32) -> (r: u64)
    requires
        e <= 6,
    ensures
        r == pow10(e as nat),
        1 <= r <= 1_000_000,
{
    proof {
        reveal_with_fuel(pow10, 7);
    }
    if e == 0 {
        1
    } else if e == 1 {
        10
    } else if e == 2 {
        100
    } else if e == 3 {
        1_000
    } else if e == 4 {
        10_000
    } else if e == 5 {
        100_000
    } else {
        1_000_000
    }
}

/// The distance of `v` from zero.
pub fn magnitude_of(v: i64) -> (r: u64)
    ensures
        r == magnitude(v as int),
{
    if v >= 0 {
        v as u64
    } else if v == i64::MIN {
        0x8000_0000_0000_0000u64
    } else {
        (-v) as u64
    }
}

/// Appends to `out` the text of `micro` millionths with `places` digits
/// behind the point.
pub fn append_fixed(out: &mut String, micro: i64, places: u32)
    requires
        1 <= places <= 6,
    ensures
        final(out)@ == old(out)@ + fixed_text(micro as int, places as nat),
{
    let step = pow10_of(6 - places);
    let unit = pow10_of(places);
    let mag = (magnitude_of(micro) + step / 2) / step;
    if micro < 0 && mag > 0 {
        out.append("-");
    }
    append_decimal(out, mag / unit);
    out.append(".");
    append_zero_padded(out, mag % unit, places as usize);
    proof {
        reveal_strlit("-");
        reveal_strlit(".");
        assert(out@ =~= old(out)@ + fixed_text(micro as int, places as nat));
    }
}

} // verus!
