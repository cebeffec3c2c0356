//! Decimal rendering of 64-bit signed integers as byte sequences.

use vstd::prelude::*;

verus! {

/// The ASCII byte for the decimal digit `d`.
pub open spec fn digit_byte(d: nat) -> u8 {
    (48 + d % 10) as u8
}

/// The decimal digits of `n`, most significant first, without sign.
pub open spec fn dec_digits(n: nat) -> Seq<u8>
    decreases n,
{
    if n < 10 {
        seq![digit_byte(n)]
    } else {
        dec_digits(n / 10).push(digit_byte(n % 10))
    }
}

/// The decimal form of `n`: a minus sign for negative values, then the
/// digits of the magnitude.
pub open spec fn dec_int(n: int) -> Seq<u8> {
    if n < 0 {
        seq![45u8] + dec_digits((-n) as nat)
    } else {
        dec_digits(n as nat)
    }
}

/// The digits of `n`, most significant first.
fn digits_u64(n: u64) -> (r: Vec<u8>)
    ensures
        r@ == dec_digits(n as nat),
{
    let mut rev: Vec<u8> = Vec::new();
    rev.push((n % 10) as u8 + 48);
    let mut m: u64 = n / 10;
    proof {
        assert(rev@.reverse() =~= seq![digit_byte(n as nat)]);
    }
    while m > 0
        invariant
            m > 0 ==> dec_digits(n as nat) == dec_digits(m as nat) + rev@.reverse(),
            m == 0 ==> dec_digits(n as nat) == rev@.reverse(),
        decreases m,
    {
        let ghost prev = rev@;
        rev.push((m % 10) as u8 + 48);
        proof {
            assert(rev@.reverse() =~= seq![digit_byte(m as nat)] + prev.reverse());
        }
        m = m / 10;
    }
    let mut out: Vec<u8> = Vec::new();
    let mut i: usize = rev.len();
    while i > 0
        invariant
            i <= rev@.len(),
            out@ == rev@.subrange(i as int, rev@.len() as int).reverse(),
        decreases i,
    {
        i = i - 1;
        let b = rev[i];
        out.push(b);
        proof {
            assert(out@ =~= rev@.subrange(i as int, rev@.len() as int).reverse());
        }
    }
    proof {
        assert(rev@.subrange(0, rev@.len() as int) =~= rev@);
    }
    out
}

/// The decimal form of `value`, sign included.
pub fn to_decimal(value: i64) -> (r: Vec<u8>)
    ensures
        r@ == dec_int(value as int),
{
    let mag: u64 = if value == i64::MIN {
        9223372036854775808u64
    } else if value < 0 {
        (-value) as u64
    } else {
        value as u64
    };
    let digits = digits_u64(mag);
    let mut out: Vec<u8> = Vec::new();
    if value < 0 {
        out.push(45u8);
    }
    let mut i: usize = 0;
    while i < digits.len()
        invariant
            i <= digits@.len(),
            value < 0 ==> out@ == seq![45u8] + digits@.subrange(0, i as int),
            value >= 0 ==> out@ == digits@.subrange(0, i as int),
        decreases digits@.len() - i,
    {
        let b = digits[i];
        out.push(b);
        i = i + 1;
        proof {
            assert(digits@.subrange(0, i as int) =~= digits@.subrange(0, i - 1).push(b));
        }
    }
    proof {
        assert(digits@.subrange(0, digits@.len() as int) =~= digits@);
    }
    out
}

/// The decimal form of `value` followed by one newline byte.
pub fn int_line(value: i64) -> (r: Vec<u8>)
    ensures
        r@ == dec_int(value as int) + seq![10u8],
{
    let mut out = to_decimal(value);
    out.push(10u8);
    out
}

} // verus!
