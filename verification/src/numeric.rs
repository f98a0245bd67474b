use vstd::prelude::*;

verus! {

use vstd::arithmetic::power::{pow, lemma_pow_strictly_increases};
use vstd::math::abs;

/// Truncating (round-toward-zero) division on 64-bit integers: the rounding
/// that `/` performs on machine integers, expressed over the Euclidean
/// division of the mathematical integers.
pub open spec fn trunc_div_i64(a: i64, b: i64) -> i64
    recommends
        b != 0,
        !(a == i64::MIN && b == -1),
{
    if a >= 0 {
        (a / b) as i64
    } else {
        (-((-a) / (b as int))) as i64
    }
}

/// Truncating remainder on 64-bit integers: the result of `%` on machine
/// integers, whose sign follows the dividend.
pub open spec fn trunc_rem_i64(a: i64, b: i64) -> i64
    recommends
        b != 0,
        !(a == i64::MIN && b == -1),
{
    if a >= 0 {
        (a % b) as i64
    } else {
        (-((-a) % (b as int))) as i64
    }
}

/// The magnitude of a product of two machine-word-sized integers stays well
/// inside the 128-bit range.
pub proof fn lemma_i64_product_bounds(a: int, b: int)
    by (nonlinear_arith)
    requires
        -0x8000_0000_0000_0000 <= a <= 0x7fff_ffff_ffff_ffff,
        -0x8000_0000_0000_0000 <= b <= 0x7fff_ffff_ffff_ffff,
    ensures
        -(0x8000_0000_0000_0000 * 0x8000_0000_0000_0000) <= a * b,
        a * b <= 0x8000_0000_0000_0000 * 0x8000_0000_0000_0000,
{
}

/// A square is never negative.
pub proof fn lemma_square_nonneg(a: int)
    by (nonlinear_arith)
    ensures
        a * a >= 0,
{
}

/// The magnitude of a power is the power of the magnitude.
pub proof fn lemma_abs_pow(b: int, e: nat)
    ensures
        abs(pow(b, e)) == pow(abs(b) as int, e),
    decreases e,
{
    reveal(pow);
    if e != 0 {
        let e1 = (e - 1) as nat;
        lemma_abs_pow(b, e1);
        assert(pow(b, e) == b * pow(b, e1));
        assert(abs(b * pow(b, e1)) == abs(b) * abs(pow(b, e1))) by (nonlinear_arith);
        assert(pow(abs(b) as int, e) == abs(b) * pow(abs(b) as int, e1));
    }
}

/// Every power reached on the way to an in-range power is itself in range:
/// if the final power of `b` fits in 64 bits, so does each earlier one.
pub proof fn lemma_pow_step_fits(b: int, i: nat, e: nat)
    requires
        i < e,
        i64::MIN <= pow(b, e) <= i64::MAX,
    ensures
        i64::MIN <= pow(b, i + 1) <= i64::MAX,
{
    reveal(pow);
    let next = (i + 1) as nat;
    lemma_abs_pow(b, next);
    lemma_abs_pow(b, e);
    if b == 0 {
        assert(pow(b, next) == b * pow(b, i));
        assert(b * pow(b, i) == 0) by (nonlinear_arith)
            requires b == 0;
    } else if abs(b) == 1 {
        assert(pow(abs(b) as int, next) == 1) by {
            vstd::arithmetic::power::lemma1_pow(next);
        }
    } else {
        if next < e {
            lemma_pow_strictly_increases(abs(b), next, e);
        }
    }
}

/// Raises `base` to the power `exp` by repeated multiplication.
///
/// The caller must show that the result fits in 64 bits; every intermediate
/// product then fits as well.
pub fn pow_i64(base: i64, exp: u32) -> (r: i64)
    requires
        i64::MIN <= pow(base as int, exp as nat) <= i64::MAX,
    ensures
        r == pow(base as int, exp as nat),
{
    let mut acc: i64 = 1;
    let mut i: u32 = 0;
    proof {
        reveal(pow);
    }
    while i < exp
        invariant
            i <= exp,
            acc == pow(base as int, i as nat),
            i64::MIN <= pow(base as int, exp as nat) <= i64::MAX,
        decreases exp - i,
    {
        proof {
            reveal(pow);
            lemma_pow_step_fits(base as int, i as nat, exp as nat);
            assert(pow(base as int, (i + 1) as nat) == (base as int) * pow(
                base as int,
                i as nat,
            ));
        }
        acc = acc * base;
        i = i + 1;
    }
    acc
}

} // verus!
