//! Greatest common divisors of natural numbers.
//!
//! The price engine keeps every fraction in lowest terms, which takes a
//! greatest common divisor.  The number itself is computed by the `num`
//! crate; this module says what it is and proves what the price engine needs
//! of it.

use num::Integer;
use vstd::arithmetic::div_mod::{
    lemma_fundamental_div_mod, lemma_mod_multiples_basic, lemma_mod_self_0, lemma_small_mod,
    lemma_truncate_middle,
};
use vstd::prelude::*;

verus! {

/// `d` is a positive number that divides both `a` and `b`.
pub open spec fn is_common_divisor(d: nat, a: nat, b: nat) -> bool {
    d > 0 && a % d == 0 && b % d == 0
}

/// `g` is the greatest common divisor of `a` and `b`: the largest number
/// that divides both, and 0 where both are 0 and every number divides them.
pub open spec fn is_greatest_common_divisor(g: nat, a: nat, b: nat) -> bool {
    if a == 0 && b == 0 {
        g == 0
    } else {
        &&& is_common_divisor(g, a, b)
        &&& forall|d: nat| is_common_divisor(d, a, b) ==> d <= g
    }
}

/// The greatest common divisor of `a` and `b`, by Euclid's recursion.
pub open spec fn gcd(a: nat, b: nat) -> nat
    decreases b,
{
    if b == 0 {
        a
    } else {
        gcd(b, a % b)
    }
}

/// A number that divides `n` is a factor of it.
pub proof fn lemma_divisor_is_factor(n: nat, d: nat)
    requires
        d > 0,
        n % d == 0,
    ensures
        n == d * (n / d),
{
    lemma_fundamental_div_mod(n as int, d as int);
}

/// A product is divided by each of its factors.
pub proof fn lemma_factor_divides(d: nat, k: nat)
    requires
        d > 0,
    ensures
        (d * k) % d == 0,
{
    lemma_mod_multiples_basic(k as int, d as int);
    assert(d * k == k * d) by (nonlinear_arith);
}

/// A positive multiple of `d` is at least `d`.
pub proof fn lemma_divisor_is_at_most(n: nat, d: nat)
    requires
        d > 0,
        n > 0,
        n % d == 0,
    ensures
        d <= n,
{
    if n < d {
        lemma_small_mod(n, d);
    }
}

/// `gcd(a, b)` divides `a` and `b`, and is positive unless both are 0.
pub proof fn lemma_gcd_divides(a: nat, b: nat)
    requires
        a != 0 || b != 0,
    ensures
        is_common_divisor(gcd(a, b), a, b),
    decreases b,
{
    if b == 0 {
        lemma_mod_self_0(a as int);
        lemma_small_mod(0, a);
    } else {
        let r = a % b;
        let g = gcd(b, r);
        lemma_gcd_divides(b, r);
        lemma_divisor_is_factor(b, g);
        lemma_divisor_is_factor(r, g);
        lemma_fundamental_div_mod(a as int, b as int);
        let q = a / b;
        let kb = b / g;
        let kr = r / g;
        assert(a == g * (kb * q + kr)) by (nonlinear_arith)
            requires
                a == b * q + r,
                b == g * kb,
                r == g * kr,
        ;
        lemma_factor_divides(g, (kb * q + kr) as nat);
    }
}

/// Every common divisor of `a` and `b` divides `gcd(a, b)`.
pub proof fn lemma_common_divisor_divides_gcd(d: nat, a: nat, b: nat)
    requires
        is_common_divisor(d, a, b),
    ensures
        gcd(a, b) % d == 0,
    decreases b,
{
    if b != 0 {
        let r = a % b;
        let q = a / b;
        lemma_fundamental_div_mod(a as int, b as int);
        lemma_divisor_is_factor(a, d);
        lemma_divisor_is_factor(b, d);
        let ka = a / d;
        let kb = b / d;
        assert(r == (ka - kb * q) * d) by (nonlinear_arith)
            requires
                a == b * q + r,
                a == d * ka,
                b == d * kb,
        ;
        lemma_mod_multiples_basic(ka - kb * q, d as int);
        lemma_common_divisor_divides_gcd(d, b, r);
    }
}

/// `gcd(a, b)` is the greatest common divisor of `a` and `b`.
pub proof fn lemma_gcd_is_greatest(a: nat, b: nat)
    ensures
        is_greatest_common_divisor(gcd(a, b), a, b),
{
    if a != 0 || b != 0 {
        lemma_gcd_divides(a, b);
        assert forall|d: nat| is_common_divisor(d, a, b) implies d <= gcd(a, b) by {
            lemma_common_divisor_divides_gcd(d, a, b);
            lemma_divisor_is_at_most(gcd(a, b), d);
        }
    }
}

/// Two numbers have one greatest common divisor, and `gcd` is it.
pub proof fn lemma_greatest_common_divisor_is_gcd(g: nat, a: nat, b: nat)
    requires
        is_greatest_common_divisor(g, a, b),
    ensures
        g == gcd(a, b),
{
    lemma_gcd_is_greatest(a, b);
    if a != 0 || b != 0 {
        let e = gcd(a, b);
        assert(is_common_divisor(e, a, b));
        assert(is_common_divisor(g, a, b));
    }
}

/// Dividing two numbers by their greatest common divisor leaves two numbers
/// with no common divisor but 1.
pub proof fn lemma_quotients_are_coprime(a: nat, b: nat)
    requires
        a != 0 || b != 0,
    ensures
        gcd(a / gcd(a, b), b / gcd(a, b)) == 1,
{
    let g = gcd(a, b);
    lemma_gcd_divides(a, b);
    lemma_divisor_is_factor(a, g);
    lemma_divisor_is_factor(b, g);
    let x = a / g;
    let y = b / g;
    assert(x != 0 || y != 0) by (nonlinear_arith)
        requires
            a == g * x,
            b == g * y,
            a != 0 || b != 0,
    ;
    let h = gcd(x, y);
    lemma_gcd_divides(x, y);
    lemma_divisor_is_factor(x, h);
    lemma_divisor_is_factor(y, h);
    let kx = x / h;
    let ky = y / h;
    assert(a == (g * h) * kx && b == (g * h) * ky && g * h > 0) by (nonlinear_arith)
        requires
            a == g * x,
            b == g * y,
            x == h * kx,
            y == h * ky,
            g > 0,
            h > 0,
    ;
    lemma_factor_divides(g * h, kx);
    lemma_factor_divides(g * h, ky);
    assert(is_common_divisor(g * h, a, b));
    lemma_common_divisor_divides_gcd(g * h, a, b);
    lemma_divisor_is_at_most(g, g * h);
    assert(h == 1) by (nonlinear_arith)
        requires
            g * h <= g,
            g > 0,
            h > 0,
    ;
}

/// The greatest common divisor does not depend on the order of the two
/// numbers.
pub proof fn lemma_gcd_is_symmetric(a: nat, b: nat)
    ensures
        gcd(a, b) == gcd(b, a),
{
    lemma_gcd_is_greatest(b, a);
    let g = gcd(b, a);
    if a != 0 || b != 0 {
        assert forall|d: nat| is_common_divisor(d, a, b) implies d <= g by {
            assert(is_common_divisor(d, b, a));
        }
    }
    lemma_greatest_common_divisor_is_gcd(g, a, b);
}

/// A common factor of two numbers is a factor of their greatest common
/// divisor: `gcd(k * a, k * b) == k * gcd(a, b)`.
pub proof fn lemma_gcd_scales(k: nat, a: nat, b: nat)
    ensures
        gcd(k * a, k * b) == k * gcd(a, b),
    decreases b,
{
    if k == 0 {
        assert(k * a == 0 && k * b == 0 && k * gcd(a, b) == 0) by (nonlinear_arith)
            requires
                k == 0,
        ;
    } else if b == 0 {
        assert(k * b == 0) by (nonlinear_arith)
            requires
                b == 0,
        ;
    } else {
        assert(k * b > 0) by (nonlinear_arith)
            requires
                k > 0,
                b > 0,
        ;
        lemma_truncate_middle(a as int, k as int, b as int);
        assert((k * a) % (k * b) == k * (a % b));
        lemma_gcd_scales(k, b, a % b);
    }
}

/// A number that divides a product and shares no divisor with one factor
/// divides the other factor.
pub proof fn lemma_coprime_divisor(a: nat, b: nat, c: nat)
    requires
        a > 0,
        gcd(a, b) == 1,
        (b * c) % a == 0,
    ensures
        c % a == 0,
{
    lemma_gcd_scales(c, a, b);
    lemma_factor_divides(a, c);
    assert(c * a == a * c && c * b == b * c && c * 1 == c) by (nonlinear_arith);
    assert(is_common_divisor(a, c * a, c * b));
    lemma_common_divisor_divides_gcd(a, c * a, c * b);
}

/// Two positive numbers that divide each other are equal.
pub proof fn lemma_mutual_divisors_are_equal(a: nat, b: nat)
    requires
        a > 0,
        b > 0,
        a % b == 0,
        b % a == 0,
    ensures
        a == b,
{
    lemma_divisor_is_at_most(a, b);
    lemma_divisor_is_at_most(b, a);
}

/// The greatest common divisor of two 64-bit numbers, as `num::Integer::gcd`
/// computes it.  The contract is that function's documented result: the
/// largest number that divides both arguments, and 0 for two zeros.  It is
/// taken on trust.
#[verifier::external_body]
pub(crate) fn gcd_u64(a: u64, b: u64) -> (g: u64)
    ensures
        is_greatest_common_divisor(g as nat, a as nat, b as nat),
{
    a.gcd(&b)
}

} // verus!
