//! Integer arithmetic that the camera rests on: division that rounds down,
//! and the bounds that keep products within machine integers.

use vstd::prelude::*;

verus! {

/// The larger of two integers.
pub open spec fn max_int(a: int, b: int) -> int {
    if a >= b {
        a
    } else {
        b
    }
}

/// The smaller of two integers.
pub open spec fn min_int(a: int, b: int) -> int {
    if a <= b {
        a
    } else {
        b
    }
}

/// A quotient is pinned down by its remainder.
pub(crate) proof fn lemma_quotient_unique(a: int, b: int, q: int, r: int)
    by (nonlinear_arith)
    requires
        b > 0,
        a == q * b + r,
        0 <= r < b,
    ensures
        a / b == q,
        a % b == r,
{
}

/// Rounding down keeps the order of the numerators.
pub(crate) proof fn lemma_div_monotone(a: int, b: int, d: int)
    by (nonlinear_arith)
    requires
        d > 0,
        a <= b,
    ensures
        a / d <= b / d,
{
}

/// A whole multiple divides back exactly.
pub(crate) proof fn lemma_div_of_multiple(q: int, d: int)
    by (nonlinear_arith)
    requires
        d > 0,
    ensures
        (q * d) / d == q,
{
}

/// The product of two bounded factors is bounded by the product of the bounds.
pub(crate) proof fn lemma_product_bound(a: int, b: int, x: int, y: int)
    by (nonlinear_arith)
    requires
        -x <= a <= x,
        -y <= b <= y,
    ensures
        -(x * y) <= a * b <= x * y,
{
}

/// A quotient by a positive divisor is no larger in magnitude than its numerator.
pub(crate) proof fn lemma_div_bound(a: int, d: int, x: int)
    by (nonlinear_arith)
    requires
        d > 0,
        -x <= a <= x,
    ensures
        -x <= a / d <= x,
{
}

/// The quotient of `a` by a positive `b`, rounded down.
pub(crate) fn floor_div(a: i128, b: i128) -> (q: i128)
    requires
        b > 0,
    ensures
        q == a as int / b as int,
{
    if a >= 0 {
        a / b
    } else {
        let m: i128 = -(a + 1);
        let t: i128 = m / b;
        proof {
            let r: int = m as int % b as int;
            assert(m as int == t as int * b as int + r && 0 <= r < b) by (nonlinear_arith)
                requires
                    b > 0,
                    m >= 0,
                    t == m as int / b as int,
                    r == m as int % b as int,
            ;
            assert(a as int == (-(t as int) - 1) * b as int + (b as int - 1 - r)) by (nonlinear_arith)
                requires
                    m as int == t as int * b as int + r,
                    a as int == -(m as int) - 1,
            ;
            lemma_quotient_unique(a as int, b as int, -(t as int) - 1, b as int - 1 - r);
        }
        -t - 1
    }
}

} // verus!
