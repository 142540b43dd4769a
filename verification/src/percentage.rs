//! Price movements in basis points (hundredths of a percent).
use vstd::prelude::*;

verus! {

/// Basis points in a whole: 10 000 bps are 100 %.
pub const BASIS_POINTS: i128 = 10_000;

/// Whether an integer can be held by an `i128`.
pub open spec fn fits_i128(x: int) -> bool {
    i128::MIN <= x <= i128::MAX
}

/// The quotient `x / d` rounded towards zero.
pub open spec fn truncated_quotient(x: int, d: int) -> int
    recommends
        d != 0,
{
    if x >= 0 && d > 0 {
        x / d
    } else if x >= 0 {
        -(x / (-d))
    } else if d > 0 {
        -((-x) / d)
    } else {
        (-x) / (-d)
    }
}

/// The distance of `x` from zero.
pub open spec fn abs(x: int) -> int {
    if x < 0 {
        -x
    } else {
        x
    }
}

/// Whether the change between two prices has a value in basis points: there is a price to
/// compare with, and neither the difference nor its scaled form leaves the range of `i128`.
pub open spec fn change_is_defined(old_price: int, new_price: int) -> bool {
    &&& old_price != 0
    &&& fits_i128(new_price - old_price)
    &&& fits_i128((new_price - old_price) * BASIS_POINTS)
}

/// The signed change from `old_price` to `new_price` in basis points, rounded towards zero.
pub open spec fn change_bps(old_price: int, new_price: int) -> int {
    truncated_quotient((new_price - old_price) * BASIS_POINTS, old_price)
}

/// Dividing by `-m` in place of `m` changes the sign of the quotient.
proof fn lemma_opposite_divisor(n: int, m: int)
    requires
        n >= 0,
        m >= 1,
    ensures
        n / (-m) == -(n / m),
{
    let q = n / m;
    let r = n % m;
    assert(n == m * q + r && 0 <= r < m) by (nonlinear_arith)
        requires
            m >= 1,
            q == n / m,
            r == n % m,
    ;
    assert(n == (-m) * (-q) + r) by (nonlinear_arith)
        requires
            n == m * q + r,
    ;
    assert(n / (-m) == -q) by (nonlinear_arith)
        requires
            n == (-m) * (-q) + r,
            0 <= r < m,
    ;
}

/// The quotient of two machine integers, as division computes it, is the one rounded towards
/// zero.
pub(crate) proof fn lemma_division_truncates(x: i128, d: i128)
    requires
        d != 0,
        x != i128::MIN,
    ensures
        x >= 0 ==> (x as int / d as int) == truncated_quotient(x as int, d as int),
        x < 0 ==> -((-x) / (d as int)) == truncated_quotient(x as int, d as int),
        fits_i128(truncated_quotient(x as int, d as int)),
{
    lemma_quotient_magnitude(x as int, d as int);
    if d < 0 {
        lemma_opposite_divisor(abs(x as int), -(d as int));
        assert(-(-(d as int)) == d as int);
    }
}

/// A quotient by a non-zero divisor is no further from zero than its dividend.
proof fn lemma_quotient_magnitude(x: int, d: int)
    requires
        d != 0,
    ensures
        0 <= abs(x) / abs(d) <= abs(x),
        abs(truncated_quotient(x, d)) == abs(x) / abs(d),
{
    let n = abs(x);
    let m = abs(d);
    assert(0 <= n / m <= n) by (nonlinear_arith)
        requires
            n >= 0,
            m >= 1,
    ;
}

/// Returns the signed percentage change in basis points.
///
/// From 1_000_000 to 1_200_000 the change is 2_000 (20.00%); from 1_000_000 to 800_000 it
/// is -2_000 (-20.00%). It is `None` when `old_price` is zero, because the percentage
/// change is undefined, and when a step of the computation leaves the range of `i128`.
pub fn calculate_percentage_change_bps(old_price: i128, new_price: i128) -> (change: Option<i128>)
    ensures
        change is Some <==> change_is_defined(old_price as int, new_price as int),
        change matches Some(bps) ==> bps == change_bps(old_price as int, new_price as int),
        change matches Some(bps) ==> bps != i128::MIN,
{
    if old_price == 0 {
        return None;
    }
    let delta: i128 = match new_price.checked_sub(old_price) {
        Some(delta) => delta,
        None => return None,
    };
    let scaled: i128 = match delta.checked_mul(BASIS_POINTS) {
        Some(scaled) => scaled,
        None => return None,
    };
    proof {
        lemma_quotient_magnitude(scaled as int, old_price as int);
        // 2^127 is no multiple of 10 000, so the scaled difference cannot be `i128::MIN`.
        assert(scaled != i128::MIN);
    }
    scaled.checked_div(old_price)
}

/// Returns the absolute percentage difference in basis points.
///
/// This is convenient for flash-crash or spike detection because the caller can
/// compare the result directly against a threshold without worrying about direction.
pub fn calculate_percentage_difference_bps(
    old_price: i128,
    new_price: i128,
) -> (difference: Option<i128>)
    ensures
        difference is Some <==> change_is_defined(old_price as int, new_price as int),
        difference matches Some(bps) ==> bps == abs(
            change_bps(old_price as int, new_price as int),
        ),
{
    match calculate_percentage_change_bps(old_price, new_price) {
        Some(bps) => Some(
            if bps < 0 {
                -bps
            } else {
                bps
            },
        ),
        None => None,
    }
}

} // verus!
