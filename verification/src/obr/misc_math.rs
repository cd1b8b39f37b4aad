//! Integer helpers: greatest common divisor and powers of two.

use vstd::prelude::*;

verus! {

/// Euclid's greatest common divisor of two natural numbers (with `gcd(0, 0) == 0`).
pub open spec fn gcd(a: nat, b: nat) -> nat
    decreases b,
{
    if b == 0 {
        a
    } else {
        gcd(b, a % b)
    }
}

/// Absolute value of an integer.
pub open spec fn abs_int(x: int) -> nat {
    if x < 0 {
        (-x) as nat
    } else {
        x as nat
    }
}

/// `d` divides `x`.
pub open spec fn divides(d: nat, x: nat) -> bool {
    exists|k: nat| #[trigger] (d * k) == x
}

/// `2` to the power `e`.
pub open spec fn power_of_two(e: nat) -> nat
    decreases e,
{
    if e == 0 {
        1
    } else {
        2 * power_of_two((e - 1) as nat)
    }
}

/// `n` is a power of two.
pub open spec fn is_power_of_two(n: nat) -> bool {
    exists|e: nat| #[trigger] power_of_two(e) == n
}

/// Computes the greatest common divisor of the absolute values of `a` and `b`: positive
/// unless both are 0, where it is 0.
pub fn find_gcd(a: i32, b: i32) -> (r: i32)
    requires
        a != i32::MIN,
        b != i32::MIN,
    ensures
        r >= 0,
        r as nat == gcd(abs_int(a as int), abs_int(b as int)),
        r == 0 <==> (a == 0 && b == 0),
{
    let ghost nonzero = a != 0 || b != 0;
    let mut a: i32 = if a < 0 { -a } else { a };
    let mut b: i32 = if b < 0 { -b } else { b };
    let ghost target = gcd(a as nat, b as nat);
    while b != 0
        invariant
            a >= 0,
            b >= 0,
            gcd(a as nat, b as nat) == target,
            nonzero <==> (a > 0 || b > 0),
        decreases b,
    {
        let temp_value = b;
        b = a % b;
        a = temp_value;
    }
    a
}

proof fn lemma_mul_nat_is_nat(d: nat, k: nat)
    ensures
        d * k >= 0,
{
}

/// If `d` divides `a` and `b` (with `b > 0`) then it divides `a % b`, and conversely
/// if `d` divides `b` and `a % b` then it divides `a`.
proof fn lemma_divides_mod(d: nat, a: nat, b: nat)
    requires
        b > 0,
    ensures
        divides(d, b) ==> (divides(d, a) <==> divides(d, a % b)),
{
    if divides(d, b) {
        let kb = choose|k: nat| #[trigger] (d * k) == b;
        let q = a / b;
        let r = a % b;
        assert(a == b * q + r) by (nonlinear_arith)
            requires
                b > 0,
                q == a / b,
                r == a % b,
        ;
        if divides(d, a) {
            let ka = choose|k: nat| #[trigger] (d * k) == a;
            assert(ka >= kb * q) by (nonlinear_arith)
                requires
                    d * ka == d * kb * q + r,
                    r >= 0,
                    d * kb == b,
                    b > 0,
            ;
            let kr = (ka - kb * q) as nat;
            assert(d * kr == r) by (nonlinear_arith)
                requires
                    kr == ka - kb * q,
                    d * ka == a,
                    d * kb == b,
                    a == b * q + r,
            ;
        }
        if divides(d, a % b) {
            let kr = choose|k: nat| #[trigger] (d * k) == a % b;
            lemma_mul_nat_is_nat(kb, q as nat);
            let ka = (kb * q + kr) as nat;
            assert(d * ka == a) by (nonlinear_arith)
                requires
                    ka == kb * q + kr,
                    d * kr == r,
                    d * kb == b,
                    a == b * q + r,
            ;
        }
    }
}

/// The greatest common divisor divides both numbers, and every common divisor of the
/// two numbers divides it: it is the greatest common divisor.
pub proof fn lemma_gcd_is_greatest_common_divisor(a: nat, b: nat)
    ensures
        divides(gcd(a, b), a),
        divides(gcd(a, b), b),
        forall|d: nat| divides(d, a) && divides(d, b) ==> divides(d, #[trigger] gcd(a, b)),
    decreases b,
{
    if b == 0 {
        let g = gcd(a, b);
        assert(g * 1 == a);
        assert(g * 0 == b);
    } else {
        lemma_gcd_is_greatest_common_divisor(b, a % b);
        let g = gcd(a, b);
        lemma_divides_mod(g, a, b);
        assert forall|d: nat| divides(d, a) && divides(d, b) implies divides(d, #[trigger] gcd(a, b)) by {
            lemma_divides_mod(d, a, b);
        }
    }
}

/// Two natural numbers that divide each other are equal.
pub proof fn lemma_divides_antisymmetric(x: nat, y: nat)
    requires
        divides(x, y),
        divides(y, x),
    ensures
        x == y,
{
    let k = choose|k: nat| #[trigger] (x * k) == y;
    let m = choose|m: nat| #[trigger] (y * m) == x;
    assert(x == y) by (nonlinear_arith)
        requires
            x * k == y,
            y * m == x,
            k >= 0,
            m >= 0,
    ;
}

/// The greatest common divisor of two positive numbers is positive and at most each of them.
pub proof fn lemma_gcd_positive_bounded(a: nat, b: nat)
    requires
        a > 0,
        b > 0,
    ensures
        0 < gcd(a, b) <= a,
        gcd(a, b) <= b,
{
    lemma_gcd_is_greatest_common_divisor(a, b);
    let g = gcd(a, b);
    let ka = choose|k: nat| #[trigger] (g * k) == a;
    let kb = choose|k: nat| #[trigger] (g * k) == b;
    assert(g > 0 && g <= a && g <= b) by (nonlinear_arith)
        requires
            g * ka == a,
            g * kb == b,
            a > 0,
            b > 0,
    ;
}

/// Powers of two grow with the exponent.
proof fn lemma_power_of_two_monotonic(e1: nat, e2: nat)
    requires
        e1 <= e2,
    ensures
        power_of_two(e1) <= power_of_two(e2),
        power_of_two(e1) >= 1,
    decreases e2,
{
    if e2 > e1 {
        lemma_power_of_two_monotonic(e1, (e2 - 1) as nat);
    } else if e1 > 0 {
        lemma_power_of_two_monotonic(0, (e1 - 1) as nat);
    }
}

proof fn lemma_power_of_two_30_to_32()
    ensures
        power_of_two(30) == 0x4000_0000,
        power_of_two(31) == 0x8000_0000,
        power_of_two(32) == 0x1_0000_0000,
{
    reveal_with_fuel(power_of_two, 33);
}

/// Returns the smallest power of two that is at least `input` (1 for an input of 0), for
/// every input a `u32` can hold below `u32::MAX`. Above 2^31 the result is 2^32, which needs
/// a `usize` wider than 32 bits.
pub fn next_pow_two(input: usize) -> (r: usize)
    requires
        input < 0xFFFF_FFFF,
        input <= 0x8000_0000 || usize::MAX >= 0x1_0000_0000,
    ensures
        is_power_of_two(r as nat),
        r >= input,
        r == 1 || r / 2 < input,
{
    let mut r: usize = 1;
    let ghost mut e: nat = 0;
    proof {
        lemma_power_of_two_30_to_32();
    }
    while r < input
        invariant
            input < 0xFFFF_FFFF,
            input <= 0x8000_0000 || usize::MAX >= 0x1_0000_0000,
            r == power_of_two(e),
            e <= 32,
            r <= 0x1_0000_0000,
            r == 1 || r / 2 < input,
            power_of_two(30) == 0x4000_0000,
            power_of_two(31) == 0x8000_0000,
            power_of_two(32) == 0x1_0000_0000,
        decreases 0x1_0000_0000 - r,
    {
        proof {
            if e == 32 {
                assert(false);
            }
            lemma_power_of_two_monotonic(e, 31);
            if input <= 0x8000_0000 && e == 31 {
                assert(false);
            }
            if e <= 30 {
                lemma_power_of_two_monotonic(e, 30);
            }
        }
        r = r * 2;
        proof {
            e = e + 1;
        }
    }
    r
}

} // verus!
