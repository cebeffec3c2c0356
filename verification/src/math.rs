//! Exact integer power and absolute value.
//!
//! Both operations can exceed the 64-bit signed range; the `try_` variants
//! report exactly when that happens, and the plain variants require inputs
//! on which it cannot.

use vstd::prelude::*;
use vstd::arithmetic::power::pow;
use vstd::arithmetic::power::lemma_pow0;
use vstd::arithmetic::power::lemma_pow1;
use vstd::arithmetic::power::lemma_pow_adds;
use vstd::arithmetic::power::lemma_pow_increases;
use vstd::arithmetic::power::lemma1_pow;
use vstd::arithmetic::power::lemma0_pow;

verus! {

/// The magnitude of `x`.
pub open spec fn magnitude(x: int) -> int {
    if x < 0 {
        -x
    } else {
        x
    }
}

/// Whether `x` fits in a 64-bit signed integer.
pub open spec fn fits_i64(x: int) -> bool {
    i64::MIN <= x <= i64::MAX
}

proof fn lemma_magnitude_mul(x: int, y: int)
    ensures
        magnitude(x * y) == magnitude(x) * magnitude(y),
{
    assert(magnitude(x * y) == magnitude(x) * magnitude(y)) by (nonlinear_arith);
}

/// Raising a base to one more power multiplies by the base once more.
proof fn lemma_pow_step(b: int, e: nat)
    ensures
        pow(b, e + 1) == pow(b, e) * b,
{
    lemma_pow_adds(b, e, 1);
    lemma_pow1(b);
}

/// The magnitude of a power is the power of the magnitude.
proof fn lemma_magnitude_pow(b: int, e: nat)
    ensures
        magnitude(pow(b, e)) == pow(magnitude(b), e),
    decreases e,
{
    reveal(pow);
    if e == 0 {
    } else {
        lemma_magnitude_pow(b, (e - 1) as nat);
        lemma_magnitude_mul(b, pow(b, (e - 1) as nat));
    }
}

/// Once a power of `b` has left the 64-bit signed range, every later power
/// lies outside it too.
proof fn lemma_pow_overflow_persists(b: int, e1: nat, e2: nat)
    requires
        1 <= e1 <= e2,
        !fits_i64(pow(b, e1)),
    ensures
        !fits_i64(pow(b, e2)),
{
    lemma_magnitude_pow(b, e1);
    lemma_magnitude_pow(b, e2);
    let a = magnitude(b);
    if a <= 1 {
        if a == 0 {
            lemma0_pow(e1);
        } else {
            lemma1_pow(e1);
        }
        assert(false);
    }
    if e1 < e2 {
        lemma_pow_adds(a, e1, (e2 - e1) as nat);
        lemma_pow1(a);
        lemma_pow_increases(a as nat, 1, (e2 - e1) as nat);
        assert(pow(a, e1) >= 0x8000_0000_0000_0000);
        assert(pow(a, (e2 - e1) as nat) >= 2);
        assert(pow(a, e1) * pow(a, (e2 - e1) as nat) >= pow(a, e1) * 2) by (nonlinear_arith)
            requires
                pow(a, e1) >= 0,
                pow(a, (e2 - e1) as nat) >= 2,
        ;
    }
}

/// Exact integer exponentiation, or `None` when the exponent is negative or
/// the true result does not fit in a 64-bit signed integer.
pub fn try_power(base: i64, exponent: i64) -> (r: Option<i64>)
    ensures
        r is Some <==> exponent >= 0 && fits_i64(pow(base as int, exponent as nat)),
        r matches Some(v) ==> v == pow(base as int, exponent as nat),
{
    if exponent < 0 {
        return None;
    }
    proof {
        lemma_pow0(base as int);
    }
    let mut acc: i64 = 1;
    let mut i: i64 = 0;
    while i < exponent
        invariant
            0 <= i <= exponent,
            acc == pow(base as int, i as nat),
        decreases exponent - i,
    {
        proof {
            lemma_pow_step(base as int, i as nat);
        }
        match acc.checked_mul(base) {
            Some(v) => {
                acc = v;
                i = i + 1;
            },
            None => {
                proof {
                    lemma_pow_overflow_persists(base as int, (i + 1) as nat, exponent as nat);
                }
                return None;
            },
        }
    }
    Some(acc)
}

/// Exact integer exponentiation on inputs whose result fits.
pub fn math_power(base: i64, exponent: i64) -> (r: i64)
    requires
        exponent >= 0,
        fits_i64(pow(base as int, exponent as nat)),
    ensures
        r == pow(base as int, exponent as nat),
{
    match try_power(base, exponent) {
        Some(v) => v,
        None => vstd::pervasive::unreached(),
    }
}

/// The magnitude, or `None` for the one input whose magnitude does not fit.
pub fn try_abs(value: i64) -> (r: Option<i64>)
    ensures
        r is Some <==> value != i64::MIN,
        r matches Some(v) ==> v == magnitude(value as int),
{
    if value == i64::MIN {
        None
    } else {
        Some(math_abs(value))
    }
}

/// The magnitude of any 64-bit signed integer but the minimum one.
pub fn math_abs(value: i64) -> (r: i64)
    requires
        value != i64::MIN,
    ensures
        r == magnitude(value as int),
{
    if value < 0 {
        -value
    } else {
        value
    }
}

} // verus!
