use vstd::prelude::*;
use vstd::arithmetic::div_mod::lemma_fundamental_div_mod;
use vstd::arithmetic::div_mod::lemma_fundamental_div_mod_converse;

verus! {

/// A product is bounded by the product of the bounds of its factors.
pub proof fn lemma_product_bound(a: int, b: int, abound: int, bbound: int)
    requires
        -abound <= a <= abound,
        -bbound <= b <= bbound,
    ensures
        -(abound * bbound) <= a * b <= abound * bbound,
{
    assert(-(abound * bbound) <= a * b <= abound * bbound) by (nonlinear_arith)
        requires
            -abound <= a <= abound,
            -bbound <= b <= bbound,
    ;
}

/// The floor of a quotient lies between any two integers that enclose the
/// exact quotient.
pub proof fn lemma_floor_between(a: int, b: int, lo: int, hi: int)
    requires
        b > 0,
        lo * b <= a <= hi * b,
    ensures
        lo <= a / b <= hi,
{
    lemma_fundamental_div_mod(a, b);
    let q = a / b;
    let r = a % b;
    assert(a == b * q + r);
    assert(0 <= r < b);
    assert(lo <= q) by (nonlinear_arith)
        requires
            b > 0,
            lo * b <= a,
            a == b * q + r,
            r < b,
    ;
    assert(q <= hi) by (nonlinear_arith)
        requires
            b > 0,
            a <= hi * b,
            a == b * q + r,
            0 <= r,
    ;
}

/// Two fractions of equal value scale a length to the same floor.
pub proof fn lemma_equal_fractions_same_floor(n1: int, d1: int, n2: int, d2: int, len: int)
    requires
        d1 > 0,
        d2 > 0,
        n1 * d2 == n2 * d1,
    ensures
        (n1 * len) / d1 == (n2 * len) / d2,
{
    let a = n1 * len;
    let q = a / d1;
    let r = a % d1;
    lemma_fundamental_div_mod(a, d1);
    assert(a == d1 * q + r);
    let c = n2 * len;
    // c * d1 == a * d2
    assert(c * d1 == a * d2) by (nonlinear_arith)
        requires
            a == n1 * len,
            c == n2 * len,
            n1 * d2 == n2 * d1,
    ;
    // q * d1 <= a < (q + 1) * d1, scaled by d2 and divided by d1
    assert(q * d2 <= c) by (nonlinear_arith)
        requires
            d1 > 0,
            d2 > 0,
            c * d1 == a * d2,
            a == d1 * q + r,
            0 <= r,
    ;
    assert(c < (q + 1) * d2) by (nonlinear_arith)
        requires
            d1 > 0,
            d2 > 0,
            c * d1 == a * d2,
            a == d1 * q + r,
            r < d1,
    ;
    let r2 = c - q * d2;
    assert(0 <= r2 < d2) by (nonlinear_arith)
        requires
            r2 == c - q * d2,
            q * d2 <= c,
            c < (q + 1) * d2,
    ;
    lemma_fundamental_div_mod_converse(c, d2, q, r2);
}

/// Fractions with positive denominators are ordered transitively, the order
/// being read off the cross products.
pub proof fn lemma_fraction_order_transitive(
    n1: int,
    d1: int,
    n2: int,
    d2: int,
    n3: int,
    d3: int,
)
    requires
        d1 > 0,
        d2 > 0,
        d3 > 0,
        n1 * d2 <= n2 * d1,
        n2 * d3 <= n3 * d2,
    ensures
        n1 * d3 <= n3 * d1,
{
    assert((n1 * d3) * d2 <= (n2 * d1) * d3) by (nonlinear_arith)
        requires
            d3 > 0,
            n1 * d2 <= n2 * d1,
    ;
    assert((n2 * d1) * d3 <= (n3 * d1) * d2) by (nonlinear_arith)
        requires
            d1 > 0,
            n2 * d3 <= n3 * d2,
    ;
    assert(n1 * d3 <= n3 * d1) by (nonlinear_arith)
        requires
            d2 > 0,
            (n1 * d3) * d2 <= (n3 * d1) * d2,
    ;
}

/// Square of the distance from the start of a displacement `(rx, ry)` to
/// the point at the fraction `num / den` of it, times `den * den * scale`.
pub open spec fn scaled_square_distance(num: int, rx: int, ry: int, scale: int) -> int {
    (num * num) * (rx * rx + ry * ry) * scale
}

/// Along one displacement that is not zero, the smaller of two positive
/// fractions is the one at the shorter distance from the start: comparing the
/// fractions by their cross products is comparing the squares of the
/// distances, brought to the common denominator `d1 * d1 * d2 * d2`.
pub proof fn lemma_fraction_order_is_distance_order(
    n1: int,
    d1: int,
    n2: int,
    d2: int,
    rx: int,
    ry: int,
)
    requires
        n1 > 0,
        d1 > 0,
        n2 > 0,
        d2 > 0,
        rx != 0 || ry != 0,
    ensures
        (n1 * d2 < n2 * d1) == (scaled_square_distance(n1, rx, ry, d2 * d2)
            < scaled_square_distance(n2, rx, ry, d1 * d1)),
{
    let a = n1 * d2;
    let b = n2 * d1;
    let len = rx * rx + ry * ry;
    assert(len > 0) by (nonlinear_arith)
        requires
            len == rx * rx + ry * ry,
            rx != 0 || ry != 0,
    ;
    assert(a > 0 && b > 0) by (nonlinear_arith)
        requires
            a == n1 * d2,
            b == n2 * d1,
            n1 > 0,
            d1 > 0,
            n2 > 0,
            d2 > 0,
    ;
    assert((n1 * n1) * len * (d2 * d2) == (a * a) * len) by (nonlinear_arith)
        requires
            a == n1 * d2,
    ;
    assert((n2 * n2) * len * (d1 * d1) == (b * b) * len) by (nonlinear_arith)
        requires
            b == n2 * d1,
    ;
    assert((a < b) == ((a * a) * len < (b * b) * len)) by (nonlinear_arith)
        requires
            a > 0,
            b > 0,
            len > 0,
    ;
}

/// Quotient of `a` by a positive `b`, rounded towards negative infinity.
pub fn floor_div(a: i128, b: i128) -> (q: i128)
    requires
        b > 0,
        a > i128::MIN,
    ensures
        q == a / b,
{
    if a >= 0 {
        a / b
    } else {
        let m: i128 = -a;
        let t: i128 = (m - 1) / b;
        proof {
            let r = (m - 1) % (b as int);
            lemma_fundamental_div_mod(m - 1, b as int);
            assert(m - 1 == b * t + r);
            assert(a == (-t - 1) * b + (b - r - 1)) by (nonlinear_arith)
                requires
                    a == -m,
                    m - 1 == b * t + r,
            ;
            lemma_fundamental_div_mod_converse(a as int, b as int, -t - 1, b - r - 1);
        }
        -t - 1
    }
}

} // verus!
