//! The size an edge takes when an image is scaled down to a maximum long
//! edge.
//!
//! The scaling is the one that double-precision arithmetic gives: the ratio
//! `max_edge / long_edge` rounded to 53 significant bits, its product with
//! the edge rounded to 53 bits again, and the result rounded to the nearest
//! whole number, halves away from zero. It is stated and computed here over
//! integers, so that the result is the same on every input as that of the
//! floating-point expression `round(edge * (max_edge / long_edge))`.

use vstd::prelude::*;

verus! {

/// The least 53-bit significand with its top bit set: 2^52.
pub const SIGNIFICAND_FLOOR: u128 = 4503599627370496;

/// One more than the greatest 53-bit significand: 2^53.
pub const SIGNIFICAND_LIMIT: u128 = 9007199254740992;

/// `n / d` rounded to the nearest whole number, ties to the even one.
pub open spec fn nearest_even(n: int, d: int) -> int
    recommends
        0 <= n,
        0 < d,
{
    let q: int = n / d;
    let r: int = n % d;
    if 2 * r < d || (2 * r == d && q % 2 == 0) {
        q
    } else {
        q + 1
    }
}

/// Doubles `numer` and `unit` together until `numer / denom` has at least 53
/// bits. The quotient `numer / (unit * denom)` stays what it was.
pub open spec fn widen(numer: int, unit: int, denom: int) -> (int, int)
    decreases
            (if 0 < numer && numer < SIGNIFICAND_FLOOR * denom {
                SIGNIFICAND_FLOOR * denom - numer
            } else {
                0
            }),
{
    if 0 < numer && numer < SIGNIFICAND_FLOOR * denom {
        widen(2 * numer, 2 * unit, denom)
    } else {
        (numer, unit)
    }
}

/// The least of `step`, `2 * step`, `4 * step`, ... by which `p` must be
/// divided to have no more than 53 bits.
pub open spec fn narrow(p: int, step: int) -> int
    decreases
            (if 0 < step && p >= SIGNIFICAND_LIMIT * step {
                p - SIGNIFICAND_LIMIT * step + 1
            } else {
                0
            }),
{
    if 0 < step && p >= SIGNIFICAND_LIMIT * step {
        narrow(p, 2 * step)
    } else {
        step
    }
}

/// `round(edge * (max_edge / long_edge))` as double-precision arithmetic
/// computes it, for `max_edge < long_edge`.
///
/// With `(numer, unit) = widen(max_edge, 1, long_edge)` the ratio is the
/// double `ratio / unit`; the product `edge * ratio / unit` is cut to 53 bits
/// as `kept / unit`; the result is `kept / unit` rounded half away from zero.
pub open spec fn scaled_edge(edge: int, max_edge: int, long_edge: int) -> int
    recommends
        0 <= edge <= long_edge,
        0 <= max_edge < long_edge,
{
    if edge <= 0 || max_edge <= 0 {
        0
    } else {
        let (numer, unit) = widen(max_edge, 1, long_edge);
        let ratio: int = nearest_even(numer, long_edge);
        let product: int = edge * ratio;
        let step: int = narrow(product, 1);
        let kept: int = nearest_even(product, step) * step;
        (2 * kept + unit) / (2 * unit)
    }
}

/// The edge of the resized image: the scaled edge, and 1 where that is 0.
pub open spec fn target_edge(edge: int, max_edge: int, long_edge: int) -> int {
    if scaled_edge(edge, max_edge, long_edge) < 1 {
        1
    } else {
        scaled_edge(edge, max_edge, long_edge)
    }
}

/// Rounding to nearest moves a quotient by no more than a half.
pub proof fn lemma_nearest_even_bounds(n: int, d: int)
    requires
        0 <= n,
        0 < d,
    ensures
        0 <= nearest_even(n, d),
        2 * (nearest_even(n, d) * d) <= 2 * n + d,
        2 * n <= 2 * (nearest_even(n, d) * d) + d,
{
    let q: int = n / d;
    let r: int = n % d;
    vstd::arithmetic::div_mod::lemma_fundamental_div_mod(n, d);
    vstd::arithmetic::div_mod::lemma_mod_bound(n, d);
    vstd::arithmetic::div_mod::lemma_div_pos_is_pos(n, d);
    assert(n == d * q + r);
    assert(d * q == q * d) by (nonlinear_arith);
    assert((q + 1) * d == q * d + d) by (nonlinear_arith);
}

/// What `widen` reaches: the same multiple of a larger unit, with at least
/// 53 bits in the quotient by `denom` and no more than 54.
pub proof fn lemma_widen(factor: int, numer: int, unit: int, denom: int)
    requires
        0 < factor,
        0 < unit,
        0 < denom,
        numer == factor * unit,
        numer < SIGNIFICAND_LIMIT * denom,
    ensures
        ({
            let (n, u) = widen(numer, unit, denom);
            &&& n == factor * u
            &&& unit <= u
            &&& SIGNIFICAND_FLOOR * denom <= n < SIGNIFICAND_LIMIT * denom
        }),
    decreases
            (if numer < SIGNIFICAND_FLOOR * denom {
                SIGNIFICAND_FLOOR * denom - numer
            } else {
                0
            }),
{
    assert(0 < factor * unit) by (nonlinear_arith)
        requires
            0 < factor,
            0 < unit,
    ;
    if numer < SIGNIFICAND_FLOOR * denom {
        assert(2 * numer == factor * (2 * unit)) by (nonlinear_arith)
            requires
                numer == factor * unit,
        ;
        lemma_widen(factor, 2 * numer, 2 * unit, denom);
    }
}

/// What `narrow` reaches: a step under which `p` has at most 53 bits, and
/// exactly 53 where the step is not the first.
pub proof fn lemma_narrow(p: int, step: int)
    requires
        0 < step,
        step == 1 || SIGNIFICAND_FLOOR * step <= p,
    ensures
        step <= narrow(p, step),
        p < SIGNIFICAND_LIMIT * narrow(p, step),
        narrow(p, step) == 1 || SIGNIFICAND_FLOOR * narrow(p, step) <= p,
    decreases
            (if p >= SIGNIFICAND_LIMIT * step {
                p - SIGNIFICAND_LIMIT * step + 1
            } else {
                0
            }),
{
    if p >= SIGNIFICAND_LIMIT * step {
        lemma_narrow(p, 2 * step);
    }
}

/// What the steps of the scaling give, on which its laws rest: the ratio is
/// within a half of `numer / long_edge` and no more than the unit, the kept
/// product is within half a step of the product, and the step is small
/// beside the unit.
proof fn lemma_scaling_steps(edge: int, max_edge: int, long_edge: int)
    requires
        0 < edge <= long_edge,
        0 < max_edge < long_edge,
        long_edge < 0x1_0000_0000,
    ensures
        ({
            let (numer, unit) = widen(max_edge, 1, long_edge);
            let ratio: int = nearest_even(numer, long_edge);
            let product: int = edge * ratio;
            let step: int = narrow(product, 1);
            let kept: int = nearest_even(product, step) * step;
            &&& numer == max_edge * unit
            &&& unit > SIGNIFICAND_FLOOR
            &&& 0 <= ratio <= unit
            &&& 2 * (ratio * long_edge) <= 2 * numer + long_edge
            &&& 2 * numer <= 2 * (ratio * long_edge) + long_edge
            &&& 0 < step
            &&& 2 * step < unit
            &&& 0 <= kept
            &&& 2 * kept <= 2 * product + step
            &&& 2 * product <= 2 * kept + step
            &&& scaled_edge(edge, max_edge, long_edge) == (2 * kept + unit) / (2 * unit)
        }),
{
    let (numer, unit) = widen(max_edge, 1, long_edge);
    let ratio: int = nearest_even(numer, long_edge);
    let product: int = edge * ratio;
    let step: int = narrow(product, 1);
    let rounded: int = nearest_even(product, step);
    assert(max_edge == max_edge * 1) by (nonlinear_arith);
    lemma_widen(max_edge, max_edge, 1, long_edge);
    lemma_nearest_even_bounds(numer, long_edge);
    // The unit is above 2^52, because the ratio is below one.
    assert(unit > SIGNIFICAND_FLOOR && numer < unit * long_edge) by (nonlinear_arith)
        requires
            numer == max_edge * unit,
            SIGNIFICAND_FLOOR * long_edge <= numer,
            0 < max_edge < long_edge,
    ;
    lemma_quotient_below(numer, long_edge, unit);
    assert(0 <= product && 2 * product <= 2 * (ratio * long_edge)) by (nonlinear_arith)
        requires
            product == edge * ratio,
            0 <= edge <= long_edge,
            0 <= ratio,
    ;
    lemma_narrow(product, 1);
    lemma_nearest_even_bounds(product, step);
    assert(2 * step < unit) by (nonlinear_arith)
        requires
            step == 1 || SIGNIFICAND_FLOOR * step <= product,
            2 * product <= 2 * numer + long_edge,
            numer == max_edge * unit,
            0 < max_edge < long_edge,
            long_edge < 0x1_0000_0000,
            unit > SIGNIFICAND_FLOOR,
            0 < step,
    ;
    assert(0 <= rounded * step) by (nonlinear_arith)
        requires
            0 <= rounded,
            0 < step,
    ;
}

/// A scaled edge never exceeds the maximum nor the edge that it came from,
/// and the long edge itself lands exactly on the maximum.
pub proof fn lemma_scaled_edge_bounds(edge: int, max_edge: int, long_edge: int)
    requires
        0 <= edge <= long_edge,
        0 < max_edge < long_edge,
        long_edge < 0x1_0000_0000,
    ensures
        0 <= scaled_edge(edge, max_edge, long_edge) <= max_edge,
        scaled_edge(edge, max_edge, long_edge) <= edge,
        edge == long_edge ==> scaled_edge(edge, max_edge, long_edge) == max_edge,
{
    if edge > 0 {
        let (numer, unit) = widen(max_edge, 1, long_edge);
        let ratio: int = nearest_even(numer, long_edge);
        let product: int = edge * ratio;
        let step: int = narrow(product, 1);
        let kept: int = nearest_even(product, step) * step;
        let top: int = 2 * kept + unit;
        lemma_scaling_steps(edge, max_edge, long_edge);
        assert(2 * product <= 2 * (ratio * long_edge)) by (nonlinear_arith)
            requires
                product == edge * ratio,
                0 <= edge <= long_edge,
                0 <= ratio,
        ;
        assert(top < (max_edge + 1) * (2 * unit)) by (nonlinear_arith)
            requires
                top == 2 * kept + unit,
                2 * kept <= 2 * product + step,
                2 * product <= 2 * numer + long_edge,
                numer == max_edge * unit,
                long_edge + step < unit,
        ;
        lemma_quotient_below(top, 2 * unit, max_edge + 1);
        // The ratio is below one, so the edge does not grow.
        assert(top < (edge + 1) * (2 * unit)) by (nonlinear_arith)
            requires
                top == 2 * kept + unit,
                2 * kept <= 2 * product + step,
                product == edge * ratio,
                0 <= ratio <= unit,
                0 < edge,
                2 * step < unit,
        ;
        lemma_quotient_below(top, 2 * unit, edge + 1);
        if edge == long_edge {
            assert(product == ratio * long_edge) by (nonlinear_arith)
                requires
                    product == edge * ratio,
                    edge == long_edge,
            ;
            assert(max_edge * (2 * unit) <= top) by (nonlinear_arith)
                requires
                    top == 2 * kept + unit,
                    2 * product <= 2 * kept + step,
                    2 * numer <= 2 * product + long_edge,
                    numer == max_edge * unit,
                    long_edge + step < unit,
            ;
            lemma_quotient_at_least(top, 2 * unit, max_edge);
        }
    }
}

/// A scaled edge is within one pixel of the exact `edge * max_edge /
/// long_edge`: the two roundings of the double-precision product shift it by
/// less than a millionth, and the last rounding by no more than a half.
pub proof fn lemma_scaled_edge_near_exact(edge: int, max_edge: int, long_edge: int)
    requires
        0 <= edge <= long_edge,
        0 < max_edge < long_edge,
        long_edge < 0x1_0000_0000,
    ensures
        (scaled_edge(edge, max_edge, long_edge) - 1) * long_edge < edge * max_edge,
        edge * max_edge < (scaled_edge(edge, max_edge, long_edge) + 1) * long_edge,
{
    let r: int = scaled_edge(edge, max_edge, long_edge);
    let exact: int = edge * max_edge;
    if edge > 0 {
        let (numer, unit) = widen(max_edge, 1, long_edge);
        let ratio: int = nearest_even(numer, long_edge);
        let product: int = edge * ratio;
        let step: int = narrow(product, 1);
        let kept: int = nearest_even(product, step) * step;
        let top: int = 2 * kept + unit;
        lemma_scaling_steps(edge, max_edge, long_edge);
        vstd::arithmetic::div_mod::lemma_fundamental_div_mod(top, 2 * unit);
        vstd::arithmetic::div_mod::lemma_mod_bound(top, 2 * unit);
        // The product by the long edge, doubled, is near the exact one.
        assert(2 * (product * long_edge) <= 2 * (exact * unit) + edge * long_edge && 2 * (exact
            * unit) <= 2 * (product * long_edge) + edge * long_edge) by (nonlinear_arith)
            requires
                product == edge * ratio,
                exact == edge * max_edge,
                numer == max_edge * unit,
                2 * (ratio * long_edge) <= 2 * numer + long_edge,
                2 * numer <= 2 * (ratio * long_edge) + long_edge,
                0 < edge,
        ;
        assert((r - 1) * long_edge < exact) by (nonlinear_arith)
            requires
                (2 * unit) * r <= top,
                top == 2 * kept + unit,
                2 * kept <= 2 * product + step,
                2 * (product * long_edge) <= 2 * (exact * unit) + edge * long_edge,
                edge + step < unit,
                0 < long_edge,
                0 < unit,
        ;
        assert(exact < (r + 1) * long_edge) by (nonlinear_arith)
            requires
                top < (2 * unit) * r + 2 * unit,
                top == 2 * kept + unit,
                2 * product <= 2 * kept + step,
                2 * (exact * unit) <= 2 * (product * long_edge) + edge * long_edge,
                edge + step < unit,
                0 < long_edge,
                0 < unit,
        ;
    } else {
        assert(exact == 0 && (0 - 1) * long_edge < 0 && 0 < (0 + 1) * long_edge)
            by (nonlinear_arith)
            requires
                exact == edge * max_edge,
                edge == 0,
                0 < long_edge,
        ;
    }
}

/// Where the long edge divides `edge * max_edge`, the scaled edge is the
/// exact quotient: no rounding takes part.
pub proof fn lemma_scaled_edge_exact(edge: int, max_edge: int, long_edge: int, quotient: int)
    requires
        0 <= edge <= long_edge,
        0 < max_edge < long_edge,
        long_edge < 0x1_0000_0000,
        edge * max_edge == quotient * long_edge,
    ensures
        scaled_edge(edge, max_edge, long_edge) == quotient,
{
    let r: int = scaled_edge(edge, max_edge, long_edge);
    lemma_scaled_edge_near_exact(edge, max_edge, long_edge);
    assert(r - 1 < quotient < r + 1) by (nonlinear_arith)
        requires
            (r - 1) * long_edge < quotient * long_edge,
            quotient * long_edge < (r + 1) * long_edge,
            0 < long_edge,
    ;
}

/// `n < bound * d` puts the quotient `n / d` below `bound`.
proof fn lemma_quotient_below(n: int, d: int, bound: int)
    requires
        0 <= n,
        0 < d,
        n < bound * d,
    ensures
        0 <= n / d < bound,
{
    vstd::arithmetic::div_mod::lemma_fundamental_div_mod(n, d);
    vstd::arithmetic::div_mod::lemma_mod_bound(n, d);
    vstd::arithmetic::div_mod::lemma_div_pos_is_pos(n, d);
    let q: int = n / d;
    assert(q < bound) by (nonlinear_arith)
        requires
            d * q <= n,
            n < bound * d,
            0 < d,
    ;
}

/// `bound * d <= n` puts the quotient `n / d` at `bound` or above.
proof fn lemma_quotient_at_least(n: int, d: int, bound: int)
    requires
        0 < d,
        bound * d <= n,
    ensures
        bound <= n / d,
{
    vstd::arithmetic::div_mod::lemma_fundamental_div_mod(n, d);
    vstd::arithmetic::div_mod::lemma_mod_bound(n, d);
    let q: int = n / d;
    assert(bound <= q) by (nonlinear_arith)
        requires
            n < d * q + d,
            bound * d <= n,
            0 < d,
    ;
}

/// Divides with rounding to the nearest whole number, ties to the even one.
fn divide_nearest_even(n: u128, d: u128) -> (q: u128)
    requires
        0 < d,
        n / d < u128::MAX,
    ensures
        q == nearest_even(n as int, d as int),
{
    let q: u128 = n / d;
    let r: u128 = n % d;
    // `r < d - r` is `2 * r < d` without the doubling.
    if r < d - r || (r == d - r && q % 2 == 0) {
        q
    } else {
        q + 1
    }
}

/// Computes `scaled_edge`: the edge times `max_edge / long_edge`, rounded as
/// double-precision arithmetic rounds it.
pub fn scale_edge(edge: u32, max_edge: u32, long_edge: u32) -> (r: u32)
    requires
        edge <= long_edge,
        max_edge < long_edge,
    ensures
        r == scaled_edge(edge as int, max_edge as int, long_edge as int),
        r <= max_edge,
        edge == long_edge ==> r == max_edge,
{
    if edge == 0 || max_edge == 0 {
        return 0;
    }
    proof {
        lemma_scaled_edge_bounds(edge as int, max_edge as int, long_edge as int);
        assert(max_edge as int == max_edge as int * 1) by (nonlinear_arith);
        lemma_widen(max_edge as int, max_edge as int, 1, long_edge as int);
    }
    let denom: u128 = long_edge as u128;
    let bar: u128 = SIGNIFICAND_FLOOR * denom;
    let mut numer: u128 = max_edge as u128;
    let mut unit: u128 = 1;
    while numer < bar
        invariant
            bar == SIGNIFICAND_FLOOR * denom,
            0 < denom < 0x1_0000_0000,
            0 < unit <= numer,
            numer < SIGNIFICAND_LIMIT * denom,
            widen(numer as int, unit as int, denom as int) == widen(
                max_edge as int,
                1,
                long_edge as int,
            ),
        decreases (if numer < bar { bar - numer } else { 0 }),
    {
        numer = 2 * numer;
        unit = 2 * unit;
    }
    proof {
        lemma_quotient_below(numer as int, denom as int, SIGNIFICAND_LIMIT as int);
    }
    let ratio: u128 = divide_nearest_even(numer, denom);
    assert(edge as u128 * ratio <= 0x1_0000_0000 * SIGNIFICAND_LIMIT) by (nonlinear_arith)
        requires
            edge < 0x1_0000_0000,
            ratio <= SIGNIFICAND_LIMIT,
    ;
    let product: u128 = edge as u128 * ratio;
    let mut step: u128 = 1;
    while product >= SIGNIFICAND_LIMIT * step
        invariant
            product <= 0x1_0000_0000 * SIGNIFICAND_LIMIT,
            0 < step,
            step == 1 || SIGNIFICAND_FLOOR * step <= product,
            narrow(product as int, step as int) == narrow(product as int, 1),
        decreases
                (if product >= SIGNIFICAND_LIMIT * step {
                    product - SIGNIFICAND_LIMIT * step + 1
                } else {
                    0
                }),
    {
        step = 2 * step;
    }
    proof {
        lemma_nearest_even_bounds(product as int, step as int);
        vstd::arithmetic::div_mod::lemma_div_is_ordered_by_denominator(
            product as int,
            1,
            step as int,
        );
    }
    let rounded: u128 = divide_nearest_even(product, step);
    let kept: u128 = rounded * step;
    let r: u128 = (2 * kept + unit) / (2 * unit);
    r as u32
}

} // verus!
