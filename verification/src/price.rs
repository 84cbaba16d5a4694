//! The price engine: exchange rates as exact fractions in lowest terms.
//!
//! A price is a pair of 64-bit numbers.  Every operation that makes a new
//! price multiplies numerator and denominator by a factor each, reports a
//! product that does not fit in 64 bits, and divides both by their greatest
//! common divisor.  No operation rounds.

use crate::divisor::{
    gcd, gcd_u64, lemma_coprime_divisor, lemma_divisor_is_factor, lemma_factor_divides,
    lemma_gcd_divides, lemma_gcd_is_symmetric, lemma_greatest_common_divisor_is_gcd,
    lemma_mutual_divisors_are_equal, lemma_quotients_are_coprime,
};
use crate::error::ErrorCode;
use vstd::prelude::*;

verus! {

/// An exchange rate: `numerator / denominator`, exactly.
#[derive(Copy, Clone, Debug, PartialEq, Eq, Structural)]
pub struct TokenPrice {
    pub numerator: u64,
    pub denominator: u64,
}

/// Numerator of the factor by which the price rises from one round to the
/// next.
pub const PRICE_MULTIPLIER_NUMERATOR: u64 = 103;

/// Denominator of that factor: the price rises by 3%.
pub const PRICE_MULTIPLIER_DENOMINATOR: u64 = 100;

/// The fraction `n / d` in lowest terms.
pub open spec fn reduce(n: nat, d: nat) -> (nat, nat) {
    (n / gcd(n, d), d / gcd(n, d))
}

impl View for TokenPrice {
    type V = (nat, nat);

    /// Numerator and denominator as natural numbers.
    open spec fn view(&self) -> (nat, nat) {
        (self.numerator as nat, self.denominator as nat)
    }
}

impl TokenPrice {
    /// The price with the given numerator and denominator, both of which fit
    /// in 64 bits.
    pub open spec fn of(parts: (nat, nat)) -> TokenPrice {
        TokenPrice { numerator: parts.0 as u64, denominator: parts.1 as u64 }
    }

    /// A price is well formed when its denominator is not zero.
    pub open spec fn is_valid(self) -> bool {
        self.denominator != 0
    }

    /// A price is in lowest terms when numerator and denominator share no
    /// divisor but 1.
    pub open spec fn is_reduced(self) -> bool {
        gcd(self.numerator as nat, self.denominator as nat) == 1
    }

    /// `self` and `other` are the same rational number.
    pub open spec fn same_value(self, other: TokenPrice) -> bool {
        self.numerator * other.denominator == other.numerator * self.denominator
    }

    /// `self` is a smaller rational number than `other`, both being well
    /// formed.
    pub open spec fn value_lt(self, other: TokenPrice) -> bool {
        self.numerator * other.denominator < other.numerator * self.denominator
    }

    /// `self` in lowest terms.
    pub open spec fn normalized(self) -> TokenPrice {
        TokenPrice::of(reduce(self.numerator as nat, self.denominator as nat))
    }

    /// Both products of `self * factor` fit in 64 bits.
    pub open spec fn product_fits(self, factor: TokenPrice) -> bool {
        &&& self.numerator * factor.numerator <= u64::MAX
        &&& self.denominator * factor.denominator <= u64::MAX
    }

    /// `self * factor` in lowest terms, or the overflow error where a
    /// product does not fit in 64 bits.
    pub open spec fn scaled(self, factor: TokenPrice) -> Result<TokenPrice, ErrorCode> {
        if self.product_fits(factor) {
            Ok(
                TokenPrice::of(
                    reduce(
                        (self.numerator * factor.numerator) as nat,
                        (self.denominator * factor.denominator) as nat,
                    ),
                ),
            )
        } else {
            Err(ErrorCode::ArithmeticOverflow)
        }
    }
}

/// The factor that takes a price quoted in whole units to the precisions of
/// the two tokens.
pub open spec fn decimals_factor(asset_decimals: u8, quote_decimals: u8) -> TokenPrice {
    TokenPrice { numerator: asset_decimals as u64, denominator: quote_decimals as u64 }
}

/// The factor by which the price rises from one round to the next.
pub open spec fn price_multiplier() -> TokenPrice {
    TokenPrice {
        numerator: PRICE_MULTIPLIER_NUMERATOR,
        denominator: PRICE_MULTIPLIER_DENOMINATOR,
    }
}

/// What reducing does to a fraction: both parts are divided exactly by
/// their greatest common divisor, the value stays, a denominator that is not
/// zero stays so, and the result is in lowest terms.
pub proof fn lemma_reduce(n: nat, d: nat)
    requires
        n != 0 || d != 0,
    ensures
        gcd(n, d) > 0,
        n == gcd(n, d) * reduce(n, d).0,
        d == gcd(n, d) * reduce(n, d).1,
        reduce(n, d).0 <= n,
        reduce(n, d).1 <= d,
        d != 0 ==> reduce(n, d).1 != 0,
        reduce(n, d).0 * d == n * reduce(n, d).1,
        gcd(reduce(n, d).0, reduce(n, d).1) == 1,
{
    let g = gcd(n, d);
    lemma_gcd_divides(n, d);
    lemma_divisor_is_factor(n, g);
    lemma_divisor_is_factor(d, g);
    lemma_quotients_are_coprime(n, d);
    let x = n / g;
    let y = d / g;
    assert(x <= n && y <= d && (d != 0 ==> y != 0) && x * d == n * y) by (nonlinear_arith)
        requires
            n == g * x,
            d == g * y,
            g > 0,
    ;
}

/// Lowest terms are a canonical form: two fractions with denominators that
/// are not zero are the same rational number if and only if reducing them
/// gives the same pair.
pub proof fn lemma_reduce_is_canonical(n1: nat, d1: nat, n2: nat, d2: nat)
    requires
        d1 != 0,
        d2 != 0,
    ensures
        n1 * d2 == n2 * d1 <==> reduce(n1, d1) == reduce(n2, d2),
{
    lemma_reduce(n1, d1);
    lemma_reduce(n2, d2);
    let g1 = gcd(n1, d1);
    let g2 = gcd(n2, d2);
    let (x1, y1) = reduce(n1, d1);
    let (x2, y2) = reduce(n2, d2);
    if reduce(n1, d1) == reduce(n2, d2) {
        assert(n1 * d2 == n2 * d1) by (nonlinear_arith)
            requires
                n1 == g1 * x1,
                d1 == g1 * y1,
                n2 == g2 * x1,
                d2 == g2 * y1,
        ;
    }
    if n1 * d2 == n2 * d1 {
        assert(x1 * y2 == x2 * y1) by (nonlinear_arith)
            requires
                n1 * d2 == n2 * d1,
                n1 == g1 * x1,
                d1 == g1 * y1,
                n2 == g2 * x2,
                d2 == g2 * y2,
                g1 > 0,
                g2 > 0,
        ;
        // y1 divides x1 * y2 and shares no divisor with x1, so it divides
        // y2; and the other way round.
        lemma_gcd_is_symmetric(x1, y1);
        lemma_gcd_is_symmetric(x2, y2);
        lemma_factor_divides(y1, x2);
        lemma_factor_divides(y2, x1);
        assert(y1 * x2 == x1 * y2 && y2 * x1 == x2 * y1) by (nonlinear_arith)
            requires
                x1 * y2 == x2 * y1,
        ;
        lemma_coprime_divisor(y1, x1, y2);
        lemma_coprime_divisor(y2, x2, y1);
        lemma_mutual_divisors_are_equal(y1, y2);
        assert(x1 == x2) by (nonlinear_arith)
            requires
                x1 * y2 == x2 * y1,
                y1 == y2,
                y1 > 0,
        ;
    }
}

/// The normal form of a price is in lowest terms and is the same rational
/// number; it is well formed where the price is.
pub proof fn lemma_normalized_is_reduced(p: TokenPrice)
    requires
        p.numerator != 0 || p.denominator != 0,
    ensures
        p.normalized()@ == reduce(p.numerator as nat, p.denominator as nat),
        p.normalized().is_reduced(),
        p.normalized().same_value(p),
        p.is_valid() ==> p.normalized().is_valid(),
{
    lemma_reduce(p.numerator as nat, p.denominator as nat);
}

/// Normalizing is idempotent: the normal form of a normal form is itself.
pub proof fn lemma_normalize_is_idempotent(p: TokenPrice)
    requires
        p.numerator != 0 || p.denominator != 0,
    ensures
        p.normalized().normalized() == p.normalized(),
{
    lemma_normalized_is_reduced(p);
}

/// Two well-formed prices are equal in value if and only if their normal
/// forms are identical.
pub proof fn lemma_normal_form_is_canonical(p: TokenPrice, q: TokenPrice)
    requires
        p.is_valid(),
        q.is_valid(),
    ensures
        p.same_value(q) <==> p.normalized() == q.normalized(),
{
    lemma_normalized_is_reduced(p);
    lemma_normalized_is_reduced(q);
    lemma_reduce_is_canonical(
        p.numerator as nat,
        p.denominator as nat,
        q.numerator as nat,
        q.denominator as nat,
    );
}

/// What scaling does to a price, where both products fit in 64 bits and
/// are not both zero: the result is in lowest terms, it is exactly the
/// product of price and factor, and it is well formed where the product's
/// denominator is not zero.
pub proof fn lemma_scaled_is_reduced(p: TokenPrice, factor: TokenPrice)
    requires
        p.product_fits(factor),
        p.numerator * factor.numerator != 0 || p.denominator * factor.denominator != 0,
    ensures
        p.scaled(factor) matches Ok(q) && {
            &&& q@ == reduce(
                (p.numerator * factor.numerator) as nat,
                (p.denominator * factor.denominator) as nat,
            )
            &&& q.is_reduced()
            &&& q.numerator * (p.denominator * factor.denominator) == (p.numerator
                * factor.numerator) * q.denominator
            &&& p.denominator * factor.denominator != 0 ==> q.is_valid()
        },
{
    lemma_reduce(
        (p.numerator * factor.numerator) as nat,
        (p.denominator * factor.denominator) as nat,
    );
}

/// Raising a price raises its value: a price with a numerator and a
/// denominator that are not zero is a smaller rational number than the
/// price that follows it.
pub proof fn lemma_new_price_is_greater(old_price: TokenPrice)
    requires
        old_price.numerator != 0,
        old_price.denominator != 0,
        old_price.product_fits(price_multiplier()),
    ensures
        old_price.scaled(price_multiplier()) matches Ok(q) && old_price.value_lt(q),
{
    lemma_scaled_is_reduced(old_price, price_multiplier());
    let q = old_price.scaled(price_multiplier())->Ok_0;
    let a = old_price.numerator as int;
    let b = old_price.denominator as int;
    let c = q.numerator as int;
    let d = q.denominator as int;
    assert(a * d < c * b) by (nonlinear_arith)
        requires
            c * (b * 100) == (a * 103) * d,
            a > 0,
            b > 0,
            d > 0,
    ;
}

/// Brings a price to lowest terms.  The result of a well-formed price is
/// well formed.
///
/// The one pair that is left out is 0/0, which has no lowest terms.
pub fn normalize(p: TokenPrice) -> (r: TokenPrice)
    requires
        p.numerator != 0 || p.denominator != 0,
    ensures
        r == p.normalized(),
        r.is_reduced(),
        r.same_value(p),
        p.is_valid() ==> r.is_valid(),
{
    let g: u64 = gcd_u64(p.numerator, p.denominator);
    proof {
        lemma_greatest_common_divisor_is_gcd(g as nat, p.numerator as nat, p.denominator as nat);
        lemma_normalized_is_reduced(p);
    }
    TokenPrice { numerator: p.numerator / g, denominator: p.denominator / g }
}

/// Multiplies a price by a factor and brings the product to lowest terms.
/// Reports a numerator or a denominator that does not fit in 64 bits.
fn scale(p: TokenPrice, factor: TokenPrice) -> (r: Result<TokenPrice, ErrorCode>)
    requires
        p.numerator * factor.numerator != 0 || p.denominator * factor.denominator != 0,
    ensures
        r == p.scaled(factor),
        r is Ok <==> p.product_fits(factor),
        r matches Ok(q) ==> {
            &&& q.is_reduced()
            &&& q.numerator * (p.denominator * factor.denominator) == (p.numerator
                * factor.numerator) * q.denominator
            &&& p.denominator * factor.denominator != 0 ==> q.is_valid()
        },
{
    let numerator: u64 = match p.numerator.checked_mul(factor.numerator) {
        Some(n) => n,
        None => {
            return Err(ErrorCode::ArithmeticOverflow);
        },
    };
    let denominator: u64 = match p.denominator.checked_mul(factor.denominator) {
        Some(d) => d,
        None => {
            return Err(ErrorCode::ArithmeticOverflow);
        },
    };
    proof {
        lemma_scaled_is_reduced(p, factor);
    }
    Ok(normalize(TokenPrice { numerator, denominator }))
}

/// The price at which a sale opens: the requested price, its numerator
/// multiplied by the decimals of the token on sale and its denominator by
/// the decimals of the token that pays for it, in lowest terms.  The price
/// that comes out is well formed.
///
/// The scaled denominator must not be zero: the requested price is well
/// formed, and the token that pays has decimals.
pub fn initial_price(requested: TokenPrice, asset_decimals: u8, quote_decimals: u8) -> (r: Result<
    TokenPrice,
    ErrorCode,
>)
    requires
        requested.denominator * quote_decimals != 0,
    ensures
        r == requested.scaled(decimals_factor(asset_decimals, quote_decimals)),
        r is Ok <==> requested.numerator * asset_decimals <= u64::MAX && requested.denominator
            * quote_decimals <= u64::MAX,
        r matches Ok(q) ==> {
            &&& q.is_valid()
            &&& q.is_reduced()
            &&& q.numerator * (requested.denominator * quote_decimals) == (requested.numerator
                * asset_decimals) * q.denominator
        },
{
    let factor = TokenPrice {
        numerator: asset_decimals as u64,
        denominator: quote_decimals as u64,
    };
    scale(requested, factor)
}

/// The price of the next round: the old price raised by 3%, in lowest terms.
/// A price of zero stays zero; every other well-formed price grows.
///
/// The old price must not be 0/0.
pub fn get_new_price(old_price: TokenPrice) -> (r: Result<TokenPrice, ErrorCode>)
    requires
        old_price.numerator != 0 || old_price.denominator != 0,
    ensures
        r == old_price.scaled(price_multiplier()),
        r is Ok <==> old_price.numerator * 103 <= u64::MAX && old_price.denominator * 100
            <= u64::MAX,
        r matches Ok(q) ==> {
            &&& q.is_reduced()
            &&& q.numerator * (old_price.denominator * 100) == (old_price.numerator * 103)
                * q.denominator
            &&& old_price.is_valid() ==> q.is_valid()
            &&& old_price.numerator != 0 && old_price.denominator != 0 ==> old_price.value_lt(q)
        },
{
    let factor = TokenPrice {
        numerator: PRICE_MULTIPLIER_NUMERATOR,
        denominator: PRICE_MULTIPLIER_DENOMINATOR,
    };
    let r = scale(old_price, factor);
    proof {
        if r is Ok && old_price.numerator != 0 && old_price.denominator != 0 {
            lemma_new_price_is_greater(old_price);
        }
    }
    r
}

} // verus!
