//! Exact non-negative fractions in lowest terms.

use vstd::arithmetic::div_mod::lemma_truncate_middle;
use vstd::prelude::*;

verus! {

/// The greatest common divisor of `a` and `b`, by Euclid's recurrence.
/// `gcd(0, 0)` is `0`.
pub open spec fn gcd(a: nat, b: nat) -> nat
    decreases b,
{
    if b == 0 {
        a
    } else {
        gcd(b, a % b)
    }
}

/// `d` divides `n`: `n` is `d` times the quotient of `n` by `d`.
/// Zero divides zero alone.
pub open spec fn divides(d: nat, n: nat) -> bool {
    n == d * (n / d)
}

/// Any multiple of `d` is divisible by `d`.
proof fn lemma_divides_intro(d: nat, k: nat, n: nat)
    requires
        n == d * k,
    ensures
        divides(d, n),
{
    if d > 0 {
        assert(n / d == k) by (nonlinear_arith)
            requires
                n == d * k,
                d > 0,
        ;
    } else {
        assert(n == d * (n / d)) by (nonlinear_arith)
            requires
                n == d * k,
                d == 0,
        ;
    }
}

/// A divisor of two numbers divides every combination `x * q + y` of them.
proof fn lemma_divides_combination(d: nat, x: nat, q: nat, y: nat)
    requires
        divides(d, x),
        divides(d, y),
    ensures
        divides(d, x * q + y),
{
    let i = x / d;
    let j = y / d;
    assert(x * q + y == d * (i * q + j)) by (nonlinear_arith)
        requires
            x == d * i,
            y == d * j,
    ;
    lemma_divides_intro(d, i * q + j, x * q + y);
}

/// A divisor of `a` and of `b > 0` divides the remainder `a % b`.
proof fn lemma_divides_remainder(d: nat, a: nat, b: nat)
    requires
        b > 0,
        divides(d, a),
        divides(d, b),
    ensures
        divides(d, a % b),
{
    let i = a / d;
    let j = b / d;
    let q = a / b;
    assert(a == b * q + a % b && a % b >= 0 && q >= 0) by (nonlinear_arith)
        requires
            b > 0,
            q == a / b,
    ;
    assert(i >= j * q && a % b == d * ((i - j * q) as nat)) by (nonlinear_arith)
        requires
            a == d * i,
            b == d * j,
            a == b * q + a % b,
            a % b >= 0,
            b > 0,
    ;
    lemma_divides_intro(d, (i - j * q) as nat, a % b);
}

/// The greatest common divisor divides both of its arguments.
pub proof fn lemma_gcd_divides(a: nat, b: nat)
    ensures
        divides(gcd(a, b), a),
        divides(gcd(a, b), b),
    decreases b,
{
    if b == 0 {
        lemma_divides_intro(a, 1, a);
        lemma_divides_intro(a, 0, 0);
    } else {
        let g = gcd(b, a % b);
        lemma_gcd_divides(b, a % b);
        let q = a / b;
        assert(a == b * q + a % b && q >= 0) by (nonlinear_arith)
            requires
                b > 0,
                q == a / b,
        ;
        lemma_divides_combination(g, b, q, a % b);
    }
}

/// Every common divisor of `a` and `b` divides their greatest common divisor.
pub proof fn lemma_gcd_greatest(d: nat, a: nat, b: nat)
    requires
        divides(d, a),
        divides(d, b),
    ensures
        divides(d, gcd(a, b)),
    decreases b,
{
    if b != 0 {
        lemma_divides_remainder(d, a, b);
        lemma_gcd_greatest(d, b, a % b);
    }
}

/// The greatest common divisor is positive unless both arguments are zero.
pub proof fn lemma_gcd_positive(a: nat, b: nat)
    requires
        a > 0 || b > 0,
    ensures
        gcd(a, b) > 0,
    decreases b,
{
    if b != 0 {
        lemma_gcd_positive(b, a % b);
    }
}

/// Scaling both arguments scales the greatest common divisor.
pub proof fn lemma_gcd_scales(k: nat, a: nat, b: nat)
    ensures
        gcd(k * a, k * b) == k * gcd(a, b),
    decreases b,
{
    if k == 0 {
        assert(k * a == 0 && k * b == 0 && k * gcd(a, b) == 0) by (nonlinear_arith)
            requires
                k == 0,
        ;
    } else if b == 0 {
        assert(k * b == 0) by (nonlinear_arith)
            requires
                b == 0,
        ;
    } else {
        lemma_truncate_middle(a as int, k as int, b as int);
        assert((k * a) % (k * b) == k * (a % b));
        lemma_gcd_scales(k, b, a % b);
    }
}

/// Dividing two numbers by their greatest common divisor leaves them without
/// a common factor.
pub proof fn lemma_lowest_terms(n: nat, d: nat)
    requires
        d > 0,
    ensures
        gcd(n, d) > 0,
        n == gcd(n, d) * (n / gcd(n, d)),
        d == gcd(n, d) * (d / gcd(n, d)),
        d / gcd(n, d) > 0,
        gcd(n / gcd(n, d), d / gcd(n, d)) == 1,
{
    let g = gcd(n, d);
    lemma_gcd_positive(n, d);
    lemma_gcd_divides(n, d);
    let n1 = n / g;
    let d1 = d / g;
    assert(d1 > 0) by (nonlinear_arith)
        requires
            d == g * d1,
            d > 0,
    ;
    lemma_gcd_scales(g, n1, d1);
    assert(gcd(n1, d1) == 1) by (nonlinear_arith)
        requires
            g == g * gcd(n1, d1),
            g > 0,
    ;
}

/// An exact non-negative fraction `num / den`.
///
/// A well-formed ratio has a positive denominator and is in lowest terms, so
/// every non-negative rational number has exactly one well-formed ratio.
#[derive(Clone, Copy, Debug, PartialEq, Eq)]
pub struct Ratio {
    pub num: u128,
    pub den: u128,
}

impl View for Ratio {
    type V = real;

    /// The number that the ratio stands for.
    open spec fn view(&self) -> real {
        self.num as real / self.den as real
    }
}

impl Ratio {
    /// The denominator is positive and shares no factor with the numerator.
    pub open spec fn wf(&self) -> bool {
        &&& self.den > 0
        &&& gcd(self.num as nat, self.den as nat) == 1
    }

    /// The ratio `num / den`, brought to lowest terms.
    pub(crate) fn lowest_terms(num: u128, den: u128) -> (r: Ratio)
        requires
            den > 0,
        ensures
            r.wf(),
            r@ == num as real / den as real,
    {
        let g: u128 = greatest_common_divisor(num, den);
        proof {
            lemma_lowest_terms(num as nat, den as nat);
        }
        let r = Ratio { num: num / g, den: den / g };
        proof {
            lemma_same_quotient(r.num as int, r.den as int, g as int);
        }
        r
    }
}

/// A common factor of numerator and denominator does not change the quotient.
pub proof fn lemma_same_quotient(n: int, d: int, k: int)
    by (nonlinear_arith)
    requires
        d > 0,
        k > 0,
    ensures
        (k * n) as real / (k * d) as real == n as real / d as real,
{
}

/// Two fractions with positive denominators are the same number exactly when
/// their cross products agree.
pub proof fn lemma_cross_product(a: int, b: int, c: int, d: int)
    by (nonlinear_arith)
    requires
        b > 0,
        d > 0,
    ensures
        (a as real / b as real == c as real / d as real) <==> (a * d == c * b),
{
}

/// Well-formed ratios that stand for the same number are the same ratio.
pub proof fn lemma_ratio_unique(a: Ratio, b: Ratio)
    requires
        a.wf(),
        b.wf(),
        a@ == b@,
    ensures
        a == b,
{
    let p = a.num as nat;
    let q = a.den as nat;
    let r = b.num as nat;
    let s = b.den as nat;
    lemma_cross_product(p as int, q as int, r as int, s as int);
    assert(p * s == r * q);
    // q divides p * s and q * s, whose greatest common divisor is s.
    lemma_gcd_scales(s, p, q);
    assert(s * p == p * s && s * q == q * s && s * 1 == s) by (nonlinear_arith);
    assert(p * s == q * r) by (nonlinear_arith)
        requires
            p * s == r * q,
    ;
    lemma_divides_intro(q, r, p * s);
    lemma_divides_intro(q, s, q * s);
    lemma_gcd_greatest(q, p * s, q * s);
    assert(divides(q, s));
    // s divides r * q and s * q, whose greatest common divisor is q.
    lemma_gcd_scales(q, r, s);
    assert(q * r == r * q && q * s == s * q && q * 1 == q) by (nonlinear_arith);
    assert(r * q == s * p) by (nonlinear_arith)
        requires
            p * s == r * q,
    ;
    lemma_divides_intro(s, p, r * q);
    lemma_divides_intro(s, q, s * q);
    lemma_gcd_greatest(s, r * q, s * q);
    assert(divides(s, q));
    assert(q == s && p == r) by (nonlinear_arith)
        requires
            q > 0,
            s > 0,
            s == q * (s / q),
            q == s * (q / s),
            p * s == r * q,
    ;
}

/// The greatest common divisor of `a` and `b`, by Euclid's algorithm.
fn greatest_common_divisor(a: u128, b: u128) -> (g: u128)
    ensures
        g == gcd(a as nat, b as nat),
{
    let mut x: u128 = a;
    let mut y: u128 = b;
    while y != 0
        invariant
            gcd(x as nat, y as nat) == gcd(a as nat, b as nat),
        decreases y,
    {
        let r: u128 = x % y;
        x = y;
        y = r;
    }
    x
}

} // verus!
