//! Ambisonic channel numbering (ACN) and channel counts.

use vstd::prelude::*;

verus! {

/// Number of ambisonic components up to and including `order`.
pub open spec fn periphonic_components(order: int) -> int {
    (order + 1) * (order + 1)
}

/// Returns the ACN channel index of the spherical harmonic of the given degree and order.
pub fn acn_sequence(degree: i32, order: i32) -> (r: i32)
    requires
        degree >= 0,
        -degree <= order <= degree,
        degree * degree + degree <= i32::MAX,
        degree * degree + degree + order <= i32::MAX,
    ensures
        r == degree * degree + degree + order,
        degree * degree <= r < (degree + 1) * (degree + 1),
{
    assert(degree * degree + degree + order < (degree + 1) * (degree + 1)) by (nonlinear_arith)
        requires
            order <= degree,
    ;
    assert(0 <= degree * degree <= degree * degree + degree) by (nonlinear_arith)
        requires
            degree >= 0,
    ;
    degree * degree + degree + order
}

/// Returns the number of ambisonic components of an ambisonic sound field of the given order.
pub fn get_num_periphonic_components(ambisonic_order: i32) -> (r: usize)
    requires
        -46342 < ambisonic_order < 46340,
    ensures
        r == periphonic_components(ambisonic_order as int),
{
    assert(0 <= (ambisonic_order + 1) * (ambisonic_order + 1) <= 2147395600) by (nonlinear_arith)
        requires
            -46340 <= ambisonic_order + 1 <= 46340,
    ;
    ((ambisonic_order + 1) * (ambisonic_order + 1)) as usize
}

/// Returns the number of ambisonic components of the given order alone.
pub fn get_num_nth_order_periphonic_components(ambisonic_order: i32) -> (r: usize)
    requires
        0 <= ambisonic_order < 46340,
    ensures
        r == 2 * ambisonic_order + 1,
        ambisonic_order > 0 ==> r == periphonic_components(ambisonic_order as int)
            - periphonic_components(ambisonic_order - 1),
{
    if ambisonic_order == 0 {
        1
    } else {
        let all = get_num_periphonic_components(ambisonic_order);
        let lower = get_num_periphonic_components(ambisonic_order - 1);
        assert(all - lower == 2 * ambisonic_order + 1) by (nonlinear_arith)
            requires
                all == (ambisonic_order + 1) * (ambisonic_order + 1),
                lower == ambisonic_order * ambisonic_order,
        ;
        all - lower
    }
}

/// `n` is the square of a natural number.
pub open spec fn is_perfect_square(n: int) -> bool {
    exists|k: nat| #[trigger] (k * k) == n
}

/// Largest `r` with `r * r <= n`.
fn integer_sqrt(n: usize) -> (r: u128)
    ensures
        r * r <= n,
        n < (r + 1) * (r + 1),
{
    let mut lo: u128 = 0;
    let mut hi: u128 = n as u128 + 1;
    assert(n < hi * hi) by (nonlinear_arith)
        requires
            hi == n + 1,
    ;
    while hi - lo > 1
        invariant
            lo < hi <= n as u128 + 1,
            lo * lo <= n,
            n < hi * hi,
        decreases hi - lo,
    {
        let mid = lo + (hi - lo) / 2;
        assert(mid * mid <= 0xffff_ffff_ffff_ffff * 0xffff_ffff_ffff_ffff) by (nonlinear_arith)
            requires
                0 <= mid <= 0xffff_ffff_ffff_ffff,
        ;
        if mid * mid <= n as u128 {
            lo = mid;
        } else {
            hi = mid;
        }
    }
    lo
}

/// Checks whether `num_channels` is the channel count of a full ambisonic sound field,
/// that is a non-zero perfect square.
pub fn is_valid_ambisonic_order(num_channels: usize) -> (r: bool)
    ensures
        r == (num_channels > 0 && is_perfect_square(num_channels as int)),
{
    if num_channels == 0 {
        return false;
    }
    let root = integer_sqrt(num_channels);
    let result = root * root == num_channels as u128;
    proof {
        if result {
            assert((root as nat) * (root as nat) == num_channels);
        } else if is_perfect_square(num_channels as int) {
            let k = choose|k: nat| #[trigger] (k * k) == num_channels as int;
            if k <= root {
                assert(k * k <= root * root) by (nonlinear_arith)
                    requires
                        k <= root,
                ;
            } else {
                assert((root + 1) * (root + 1) <= k * k) by (nonlinear_arith)
                    requires
                        root + 1 <= k,
                ;
            }
        }
    }
    result
}

} // verus!
