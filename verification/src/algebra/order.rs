//! The order of the generator.
//!
//! A chain of doublings and additions, each given by its slope, leads from the generator to its
//! multiple with the group order less one, which is its negation.
use crate::algebra::curve;
use crate::algebra::curve::Point;
use crate::algebra::element;
use crate::algebra::element::Fe;
use crate::algebra::field;
use crate::algebra::frobenius;
use crate::algebra::group;
use crate::algebra::laws;
use crate::algebra::literal;
use crate::algebra::ring;
use crate::algebra::ring::Expr;
use vstd::prelude::*;

verus! {

/// The generator of the group.
pub open spec fn generator() -> Point {
    Point::Affine {
        x: literal::fe(21053971, 90322736, 156256384, 23627556, 34171264, 126183783, 25645942),
        y: literal::fe(2020310104, 1513506566, 1843922297, 2003644209, 805967281, 1882435203, 1623804682),
    }
}

/// The order of the generator.
#[verifier::inline]
pub open spec fn group_order() -> nat {
    199372529839252601278447397890876471698671718266839763841250021879nat
}

/// The coefficient of `z^0` in a product.
#[verifier::inline]
spec fn coef0(
    a0: int,
    a1: int,
    a2: int,
    a3: int,
    a4: int,
    a5: int,
    a6: int,
    b0: int,
    b1: int,
    b2: int,
    b3: int,
    b4: int,
    b5: int,
    b6: int,
) -> int {
    a0 * b0 + 5 * (a1 * b6 + a2 * b5 + a3 * b4 + a4 * b3 + a5 * b2 + a6 * b1)
}

/// The coefficient of `z^1` in a product.
#[verifier::inline]
spec fn coef1(
    a0: int,
    a1: int,
    a2: int,
    a3: int,
    a4: int,
    a5: int,
    a6: int,
    b0: int,
    b1: int,
    b2: int,
    b3: int,
    b4: int,
    b5: int,
    b6: int,
) -> int {
    a0 * b1 + a1 * b0 + 5 * (a2 * b6 + a3 * b5 + a4 * b4 + a5 * b3 + a6 * b2) + 3 * (a1 * b6 + a2 * b5 + a3 * b4 + a4 * b3 + a5 * b2 + a6 * b1)
}

/// The coefficient of `z^2` in a product.
#[verifier::inline]
spec fn coef2(
    a0: int,
    a1: int,
    a2: int,
    a3: int,
    a4: int,
    a5: int,
    a6: int,
    b0: int,
    b1: int,
    b2: int,
    b3: int,
    b4: int,
    b5: int,
    b6: int,
) -> int {
    a0 * b2 + a1 * b1 + a2 * b0 + 5 * (a3 * b6 + a4 * b5 + a5 * b4 + a6 * b3) + 3 * (a2 * b6 + a3 * b5 + a4 * b4 + a5 * b3 + a6 * b2)
}

/// The coefficient of `z^3` in a product.
#[verifier::inline]
spec fn coef3(
    a0: int,
    a1: int,
    a2: int,
    a3: int,
    a4: int,
    a5: int,
    a6: int,
    b0: int,
    b1: int,
    b2: int,
    b3: int,
    b4: int,
    b5: int,
    b6: int,
) -> int {
    a0 * b3 + a1 * b2 + a2 * b1 + a3 * b0 + 5 * (a4 * b6 + a5 * b5 + a6 * b4) + 3 * (a3 * b6 + a4 * b5 + a5 * b4 + a6 * b3)
}

/// The coefficient of `z^4` in a product.
#[verifier::inline]
spec fn coef4(
    a0: int,
    a1: int,
    a2: int,
    a3: int,
    a4: int,
    a5: int,
    a6: int,
    b0: int,
    b1: int,
    b2: int,
    b3: int,
    b4: int,
    b5: int,
    b6: int,
) -> int {
    a0 * b4 + a1 * b3 + a2 * b2 + a3 * b1 + a4 * b0 + 5 * (a5 * b6 + a6 * b5) + 3 * (a4 * b6 + a5 * b5 + a6 * b4)
}

/// The coefficient of `z^5` in a product.
#[verifier::inline]
spec fn coef5(
    a0: int,
    a1: int,
    a2: int,
    a3: int,
    a4: int,
    a5: int,
    a6: int,
    b0: int,
    b1: int,
    b2: int,
    b3: int,
    b4: int,
    b5: int,
    b6: int,
) -> int {
    a0 * b5 + a1 * b4 + a2 * b3 + a3 * b2 + a4 * b1 + a5 * b0 + 5 * (a6 * b6) + 3 * (a5 * b6 + a6 * b5)
}

/// The coefficient of `z^6` in a product.
#[verifier::inline]
spec fn coef6(
    a0: int,
    a1: int,
    a2: int,
    a3: int,
    a4: int,
    a5: int,
    a6: int,
    b0: int,
    b1: int,
    b2: int,
    b3: int,
    b4: int,
    b5: int,
    b6: int,
) -> int {
    a0 * b6 + a1 * b5 + a2 * b4 + a3 * b3 + a4 * b2 + a5 * b1 + a6 * b0 + 3 * (a6 * b6)
}

/// A product with a difference.
proof fn lemma_slope_difference(c: Fe, l: Fe, n: Fe)
    requires
        c.canonical(),
        l.canonical(),
        n.canonical(),
    ensures
        c.times(l.minus(n)) == l.times(c).minus(n.times(c)),
{
    let env = seq![c, l, n];
    let lhs = ring::v(0).times(ring::v(1).minus(ring::v(2)));
    let rhs = ring::v(1).times(ring::v(0)).minus(ring::v(2).times(ring::v(0)));
    assert forall|ints: Seq<int>| ints.len() == 3 implies #[trigger] lhs.over_int(ints) == rhs.over_int(ints) by {
        reveal_with_fuel(Expr::over_int, 3);
        let (c, l, n) = (ints[0], ints[1], ints[2]);
        assert(c * (l - n) == (l * c) - (n * c)) by (nonlinear_arith);
    }
    reveal_with_fuel(Expr::over_fe, 3);
    reveal_with_fuel(Expr::below, 3);
    ring::lemma_identity(lhs, rhs, env);
}

/// Moving a constant.
proof fn lemma_twice_product(l: Fe, y: Fe)
    requires
        l.canonical(),
        y.canonical(),
    ensures
        l.times(Fe::of_int(2).times(y)) == Fe::of_int(2).times(l.times(y)),
{
    let env = seq![l, y];
    let lhs = ring::v(0).times(ring::c(2).times(ring::v(1)));
    let rhs = ring::c(2).times(ring::v(0).times(ring::v(1)));
    assert forall|ints: Seq<int>| ints.len() == 2 implies #[trigger] lhs.over_int(ints) == rhs.over_int(ints) by {
        reveal_with_fuel(Expr::over_int, 3);
        let (l, y) = (ints[0], ints[1]);
        assert(l * (2 * y) == 2 * (l * y)) by (nonlinear_arith);
    }
    reveal_with_fuel(Expr::over_fe, 3);
    reveal_with_fuel(Expr::below, 3);
    ring::lemma_identity(lhs, rhs, env);
}

/// A product by its coefficients.
proof fn lemma_coefs(
    a0: int,
    a1: int,
    a2: int,
    a3: int,
    a4: int,
    a5: int,
    a6: int,
    b0: int,
    b1: int,
    b2: int,
    b3: int,
    b4: int,
    b5: int,
    b6: int,
)
    ensures
        literal::fe(a0, a1, a2, a3, a4, a5, a6).times(literal::fe(b0, b1, b2, b3, b4, b5, b6)) == literal::fe(
            coef0(a0, a1, a2, a3, a4, a5, a6, b0, b1, b2, b3, b4, b5, b6) % 2130706433,
            coef1(a0, a1, a2, a3, a4, a5, a6, b0, b1, b2, b3, b4, b5, b6) % 2130706433,
            coef2(a0, a1, a2, a3, a4, a5, a6, b0, b1, b2, b3, b4, b5, b6) % 2130706433,
            coef3(a0, a1, a2, a3, a4, a5, a6, b0, b1, b2, b3, b4, b5, b6) % 2130706433,
            coef4(a0, a1, a2, a3, a4, a5, a6, b0, b1, b2, b3, b4, b5, b6) % 2130706433,
            coef5(a0, a1, a2, a3, a4, a5, a6, b0, b1, b2, b3, b4, b5, b6) % 2130706433,
            coef6(a0, a1, a2, a3, a4, a5, a6, b0, b1, b2, b3, b4, b5, b6) % 2130706433,
        ),
{
    let a = literal::fe(a0, a1, a2, a3, a4, a5, a6);
    let b = literal::fe(b0, b1, b2, b3, b4, b5, b6);
    element::lemma_raw_mul_coefs(a, b);
    reveal(Fe::times);
}

/// Only one element gives a product with a factor other than zero.
proof fn lemma_quotient(l: Fe, num: Fe, den: Fe)
    requires
        l.canonical(),
        num.canonical(),
        den.canonical(),
        den != Fe::zero(),
        l.times(den) == num,
    ensures
        l == num.over(den),
{
    element::lemma_constants(l);
    let n = num.over(den);
    field::lemma_over(num, den);
    lemma_slope_difference(den, l, n);
    laws::lemma_sub_self(num);
    field::lemma_cancel(den, l, n);
}

/// The coordinates of a sum on a line with slope `l` through a point above `w`.  `c` holds the
/// square of the slope and `e` the product in the second coordinate.
proof fn lemma_line_end(
    x0: int,
    x1: int,
    x2: int,
    x3: int,
    x4: int,
    x5: int,
    x6: int,
    y0: int,
    y1: int,
    y2: int,
    y3: int,
    y4: int,
    y5: int,
    y6: int,
    w0: int,
    w1: int,
    w2: int,
    w3: int,
    w4: int,
    w5: int,
    w6: int,
    l0: int,
    l1: int,
    l2: int,
    l3: int,
    l4: int,
    l5: int,
    l6: int,
    u0: int,
    u1: int,
    u2: int,
    u3: int,
    u4: int,
    u5: int,
    u6: int,
    v0: int,
    v1: int,
    v2: int,
    v3: int,
    v4: int,
    v5: int,
    v6: int,
    c0: int,
    c1: int,
    c2: int,
    c3: int,
    c4: int,
    c5: int,
    c6: int,
    e0: int,
    e1: int,
    e2: int,
    e3: int,
    e4: int,
    e5: int,
    e6: int,
)
    requires
        literal::fe(l0, l1, l2, l3, l4, l5, l6).times(literal::fe(l0, l1, l2, l3, l4, l5, l6)) == literal::fe(c0 % 2130706433, c1 % 2130706433, c2 % 2130706433, c3 % 2130706433, c4 % 2130706433, c5 % 2130706433, c6 % 2130706433),
        literal::fe(l0, l1, l2, l3, l4, l5, l6).times(literal::fe(x0 - u0, x1 - u1, x2 - u2, x3 - u3, x4 - u4, x5 - u5, x6 - u6)) == literal::fe(e0 % 2130706433, e1 % 2130706433, e2 % 2130706433, e3 % 2130706433, e4 % 2130706433, e5 % 2130706433, e6 % 2130706433),
        (c0 - x0 - w0) % 2130706433 == u0,
        (c1 - x1 - w1) % 2130706433 == u1,
        (c2 - x2 - w2) % 2130706433 == u2,
        (c3 - x3 - w3) % 2130706433 == u3,
        (c4 - x4 - w4) % 2130706433 == u4,
        (c5 - x5 - w5) % 2130706433 == u5,
        (c6 - x6 - w6) % 2130706433 == u6,
        (e0 - y0) % 2130706433 == v0,
        (e1 - y1) % 2130706433 == v1,
        (e2 - y2) % 2130706433 == v2,
        (e3 - y3) % 2130706433 == v3,
        (e4 - y4) % 2130706433 == v4,
        (e5 - y5) % 2130706433 == v5,
        (e6 - y6) % 2130706433 == v6,
        0 <= l0 < 2130706433,
        0 <= l1 < 2130706433,
        0 <= l2 < 2130706433,
        0 <= l3 < 2130706433,
        0 <= l4 < 2130706433,
        0 <= l5 < 2130706433,
        0 <= l6 < 2130706433,
    ensures
        curve::chord(
            literal::fe(l0, l1, l2, l3, l4, l5, l6),
            literal::fe(x0, x1, x2, x3, x4, x5, x6),
            literal::fe(y0, y1, y2, y3, y4, y5, y6),
            literal::fe(w0, w1, w2, w3, w4, w5, w6),
        ) == (Point::Affine { x: literal::fe(u0, u1, u2, u3, u4, u5, u6), y: literal::fe(v0, v1, v2, v3, v4, v5, v6) }),
{
    let x = literal::fe(x0, x1, x2, x3, x4, x5, x6);
    let y = literal::fe(y0, y1, y2, y3, y4, y5, y6);
    let w = literal::fe(w0, w1, w2, w3, w4, w5, w6);
    let l = literal::fe(l0, l1, l2, l3, l4, l5, l6);
    let u = literal::fe(u0, u1, u2, u3, u4, u5, u6);
    let v = literal::fe(v0, v1, v2, v3, v4, v5, v6);
    let d = literal::fe(x0 - u0, x1 - u1, x2 - u2, x3 - u3, x4 - u4, x5 - u5, x6 - u6);
    assert(l.canonical()) by {
        reveal(Fe::canonical);
    }
    lemma_difference_coefs(l.times(l), x);
    lemma_difference(l.times(l).minus(x), w, u);
    lemma_times_difference(l, x, u, d);
    lemma_difference(l.times(d), y, v);
}

/// A difference by its coefficients.
proof fn lemma_difference(a: Fe, b: Fe, d: Fe)
    requires
        d.c0 == (a.c0 - b.c0) % 2130706433,
        d.c1 == (a.c1 - b.c1) % 2130706433,
        d.c2 == (a.c2 - b.c2) % 2130706433,
        d.c3 == (a.c3 - b.c3) % 2130706433,
        d.c4 == (a.c4 - b.c4) % 2130706433,
        d.c5 == (a.c5 - b.c5) % 2130706433,
        d.c6 == (a.c6 - b.c6) % 2130706433,
    ensures
        a.minus(b) == d,
{
    reveal(Fe::minus);
}

/// The coefficients of a difference.
proof fn lemma_difference_coefs(a: Fe, b: Fe)
    ensures
        a.minus(b) == literal::fe(
            (a.c0 - b.c0) % 2130706433,
            (a.c1 - b.c1) % 2130706433,
            (a.c2 - b.c2) % 2130706433,
            (a.c3 - b.c3) % 2130706433,
            (a.c4 - b.c4) % 2130706433,
            (a.c5 - b.c5) % 2130706433,
            (a.c6 - b.c6) % 2130706433,
        ),
{
    reveal(Fe::minus);
}

/// A product with a difference that has not been reduced.
proof fn lemma_times_difference(l: Fe, x: Fe, u: Fe, d: Fe)
    requires
        l.canonical(),
        d == element::raw_add(x, element::raw_scale(-1, u)),
    ensures
        l.times(x.minus(u)) == l.times(d),
{
    reveal(Fe::minus);
    reveal(Fe::times);
    element::lemma_canonical_reduced(l);
    element::lemma_canonical_reduced(d);
    element::lemma_reduced_mul(l, d);
    element::lemma_reduced_mul(l, d.reduced());
}

/// A step that doubles, with the products in `a` (`l y`), `b` (`x x`), `c` and `e`.
proof fn lemma_double_products(
    n: nat,
    x0: int,
    x1: int,
    x2: int,
    x3: int,
    x4: int,
    x5: int,
    x6: int,
    y0: int,
    y1: int,
    y2: int,
    y3: int,
    y4: int,
    y5: int,
    y6: int,
    l0: int,
    l1: int,
    l2: int,
    l3: int,
    l4: int,
    l5: int,
    l6: int,
    u0: int,
    u1: int,
    u2: int,
    u3: int,
    u4: int,
    u5: int,
    u6: int,
    v0: int,
    v1: int,
    v2: int,
    v3: int,
    v4: int,
    v5: int,
    v6: int,
    a0: int,
    a1: int,
    a2: int,
    a3: int,
    a4: int,
    a5: int,
    a6: int,
    b0: int,
    b1: int,
    b2: int,
    b3: int,
    b4: int,
    b5: int,
    b6: int,
    c0: int,
    c1: int,
    c2: int,
    c3: int,
    c4: int,
    c5: int,
    c6: int,
    e0: int,
    e1: int,
    e2: int,
    e3: int,
    e4: int,
    e5: int,
    e6: int,
)
    requires
        generator().times(n) == (Point::Affine { x: literal::fe(x0, x1, x2, x3, x4, x5, x6), y: literal::fe(y0, y1, y2, y3, y4, y5, y6) }),
        literal::fe(l0, l1, l2, l3, l4, l5, l6).times(literal::fe(y0, y1, y2, y3, y4, y5, y6)) == literal::fe(a0 % 2130706433, a1 % 2130706433, a2 % 2130706433, a3 % 2130706433, a4 % 2130706433, a5 % 2130706433, a6 % 2130706433),
        literal::fe(x0, x1, x2, x3, x4, x5, x6).times(literal::fe(x0, x1, x2, x3, x4, x5, x6)) == literal::fe(b0 % 2130706433, b1 % 2130706433, b2 % 2130706433, b3 % 2130706433, b4 % 2130706433, b5 % 2130706433, b6 % 2130706433),
        literal::fe(l0, l1, l2, l3, l4, l5, l6).times(literal::fe(l0, l1, l2, l3, l4, l5, l6)) == literal::fe(c0 % 2130706433, c1 % 2130706433, c2 % 2130706433, c3 % 2130706433, c4 % 2130706433, c5 % 2130706433, c6 % 2130706433),
        literal::fe(l0, l1, l2, l3, l4, l5, l6).times(literal::fe(x0 - u0, x1 - u1, x2 - u2, x3 - u3, x4 - u4, x5 - u5, x6 - u6)) == literal::fe(e0 % 2130706433, e1 % 2130706433, e2 % 2130706433, e3 % 2130706433, e4 % 2130706433, e5 % 2130706433, e6 % 2130706433),
        (2 * a0) % 2130706433 == (3 * b0 + 45) % 2130706433,
        (2 * a1) % 2130706433 == (3 * b1) % 2130706433,
        (2 * a2) % 2130706433 == (3 * b2) % 2130706433,
        (2 * a3) % 2130706433 == (3 * b3) % 2130706433,
        (2 * a4) % 2130706433 == (3 * b4) % 2130706433,
        (2 * a5) % 2130706433 == (3 * b5) % 2130706433,
        (2 * a6) % 2130706433 == (3 * b6) % 2130706433,
        (c0 - x0 - x0) % 2130706433 == u0,
        (c1 - x1 - x1) % 2130706433 == u1,
        (c2 - x2 - x2) % 2130706433 == u2,
        (c3 - x3 - x3) % 2130706433 == u3,
        (c4 - x4 - x4) % 2130706433 == u4,
        (c5 - x5 - x5) % 2130706433 == u5,
        (c6 - x6 - x6) % 2130706433 == u6,
        (e0 - y0) % 2130706433 == v0,
        (e1 - y1) % 2130706433 == v1,
        (e2 - y2) % 2130706433 == v2,
        (e3 - y3) % 2130706433 == v3,
        (e4 - y4) % 2130706433 == v4,
        (e5 - y5) % 2130706433 == v5,
        (e6 - y6) % 2130706433 == v6,
        0 <= x0 < 2130706433,
        0 <= x1 < 2130706433,
        0 <= x2 < 2130706433,
        0 <= x3 < 2130706433,
        0 <= x4 < 2130706433,
        0 <= x5 < 2130706433,
        0 <= x6 < 2130706433,
        0 <= y0 < 2130706433,
        0 <= y1 < 2130706433,
        0 <= y2 < 2130706433,
        0 <= y3 < 2130706433,
        0 <= y4 < 2130706433,
        0 <= y5 < 2130706433,
        0 <= y6 < 2130706433,
        0 <= l0 < 2130706433,
        0 <= l1 < 2130706433,
        0 <= l2 < 2130706433,
        0 <= l3 < 2130706433,
        0 <= l4 < 2130706433,
        0 <= l5 < 2130706433,
        0 <= l6 < 2130706433,
        (2 * y0) % 2130706433 != 0,
    ensures
        generator().times(2 * n) == (Point::Affine { x: literal::fe(u0, u1, u2, u3, u4, u5, u6), y: literal::fe(v0, v1, v2, v3, v4, v5, v6) }),
{
    broadcast use element::group_canonical;

    let x = literal::fe(x0, x1, x2, x3, x4, x5, x6);
    let y = literal::fe(y0, y1, y2, y3, y4, y5, y6);
    let l = literal::fe(l0, l1, l2, l3, l4, l5, l6);
    assert(x.canonical() && y.canonical() && l.canonical()) by {
        reveal(Fe::canonical);
    }
    lemma_generator();
    group::lemma_times_add(generator(), n, n);
    let two = Fe::of_int(2).times(y);
    let num = Fe::of_int(3).times(x.times(x)).plus(curve::curve_a());
    lemma_twice_product(l, y);
    lemma_tangent_coefs(l.times(y), x.times(x), a0, a1, a2, a3, a4, a5, a6, b0, b1, b2, b3, b4, b5, b6);
    assert(two != Fe::zero() && y != Fe::zero()) by {
        frobenius::lemma_scaled(2, y);
        reveal(Fe::scaled);
    }
    lemma_quotient(l, num, two);
    lemma_line_end(x0, x1, x2, x3, x4, x5, x6, y0, y1, y2, y3, y4, y5, y6, x0, x1, x2, x3, x4, x5, x6, l0, l1, l2, l3, l4, l5, l6, u0, u1, u2, u3, u4, u5, u6, v0, v1, v2, v3, v4, v5, v6, c0, c1, c2, c3, c4, c5, c6, e0, e1, e2, e3, e4, e5, e6);
    lemma_sub_twice(l.times(l), x);
}

/// The equation of the slope of a tangent by coefficients.
proof fn lemma_tangent_coefs(
    p: Fe,
    q: Fe,
    a0: int,
    a1: int,
    a2: int,
    a3: int,
    a4: int,
    a5: int,
    a6: int,
    b0: int,
    b1: int,
    b2: int,
    b3: int,
    b4: int,
    b5: int,
    b6: int,
)
    requires
        p == literal::fe(a0 % 2130706433, a1 % 2130706433, a2 % 2130706433, a3 % 2130706433, a4 % 2130706433, a5 % 2130706433, a6 % 2130706433),
        q == literal::fe(b0 % 2130706433, b1 % 2130706433, b2 % 2130706433, b3 % 2130706433, b4 % 2130706433, b5 % 2130706433, b6 % 2130706433),
        (2 * a0) % 2130706433 == (3 * b0 + 45) % 2130706433,
        (2 * a1) % 2130706433 == (3 * b1) % 2130706433,
        (2 * a2) % 2130706433 == (3 * b2) % 2130706433,
        (2 * a3) % 2130706433 == (3 * b3) % 2130706433,
        (2 * a4) % 2130706433 == (3 * b4) % 2130706433,
        (2 * a5) % 2130706433 == (3 * b5) % 2130706433,
        (2 * a6) % 2130706433 == (3 * b6) % 2130706433,
    ensures
        Fe::of_int(2).times(p) == Fe::of_int(3).times(q).plus(curve::curve_a()),
{
    frobenius::lemma_scaled(2, p);
    frobenius::lemma_scaled(3, q);
    reveal(Fe::scaled);
    reveal(Fe::plus);
    reveal(Fe::of_int);
    lemma_tangent_coef(a0, b0, 45);
    lemma_tangent_coef(a1, b1, 0);
    lemma_tangent_coef(a2, b2, 0);
    lemma_tangent_coef(a3, b3, 0);
    lemma_tangent_coef(a4, b4, 0);
    lemma_tangent_coef(a5, b5, 0);
    lemma_tangent_coef(a6, b6, 0);
}

/// One coefficient of that equation.
proof fn lemma_tangent_coef(a: int, b: int, k: int)
    requires
        (2 * a) % 2130706433 == (3 * b + k) % 2130706433,
    ensures
        (2 * (a % 2130706433)) % 2130706433 == ((3 * (b % 2130706433)) % 2130706433 + k
            % 2130706433) % 2130706433,
{
    vstd::arithmetic::div_mod::lemma_mul_mod_noop_right(2, a, 2130706433);
    vstd::arithmetic::div_mod::lemma_mul_mod_noop_right(3, b, 2130706433);
    vstd::arithmetic::div_mod::lemma_add_mod_noop(3 * b, k, 2130706433);
}

/// A step of the chain that doubles.
proof fn lemma_double(
    n: nat,
    x0: int,
    x1: int,
    x2: int,
    x3: int,
    x4: int,
    x5: int,
    x6: int,
    y0: int,
    y1: int,
    y2: int,
    y3: int,
    y4: int,
    y5: int,
    y6: int,
    l0: int,
    l1: int,
    l2: int,
    l3: int,
    l4: int,
    l5: int,
    l6: int,
    u0: int,
    u1: int,
    u2: int,
    u3: int,
    u4: int,
    u5: int,
    u6: int,
    v0: int,
    v1: int,
    v2: int,
    v3: int,
    v4: int,
    v5: int,
    v6: int,
    f0: int,
    f1: int,
    f2: int,
    f3: int,
    f4: int,
    f5: int,
    f6: int,
    g0: int,
    g1: int,
    g2: int,
    g3: int,
    g4: int,
    g5: int,
    g6: int,
    h0: int,
    h1: int,
    h2: int,
    h3: int,
    h4: int,
    h5: int,
    h6: int,
)
    requires
        generator().times(n) == (Point::Affine { x: literal::fe(x0, x1, x2, x3, x4, x5, x6), y: literal::fe(y0, y1, y2, y3, y4, y5, y6) }),
        2 * coef0(l0, l1, l2, l3, l4, l5, l6, y0, y1, y2, y3, y4, y5, y6) == 3 * coef0(x0, x1, x2, x3, x4, x5, x6, x0, x1, x2, x3, x4, x5, x6) + 45 + 2130706433 * f0,
        2 * coef1(l0, l1, l2, l3, l4, l5, l6, y0, y1, y2, y3, y4, y5, y6) == 3 * coef1(x0, x1, x2, x3, x4, x5, x6, x0, x1, x2, x3, x4, x5, x6) + 2130706433 * f1,
        2 * coef2(l0, l1, l2, l3, l4, l5, l6, y0, y1, y2, y3, y4, y5, y6) == 3 * coef2(x0, x1, x2, x3, x4, x5, x6, x0, x1, x2, x3, x4, x5, x6) + 2130706433 * f2,
        2 * coef3(l0, l1, l2, l3, l4, l5, l6, y0, y1, y2, y3, y4, y5, y6) == 3 * coef3(x0, x1, x2, x3, x4, x5, x6, x0, x1, x2, x3, x4, x5, x6) + 2130706433 * f3,
        2 * coef4(l0, l1, l2, l3, l4, l5, l6, y0, y1, y2, y3, y4, y5, y6) == 3 * coef4(x0, x1, x2, x3, x4, x5, x6, x0, x1, x2, x3, x4, x5, x6) + 2130706433 * f4,
        2 * coef5(l0, l1, l2, l3, l4, l5, l6, y0, y1, y2, y3, y4, y5, y6) == 3 * coef5(x0, x1, x2, x3, x4, x5, x6, x0, x1, x2, x3, x4, x5, x6) + 2130706433 * f5,
        2 * coef6(l0, l1, l2, l3, l4, l5, l6, y0, y1, y2, y3, y4, y5, y6) == 3 * coef6(x0, x1, x2, x3, x4, x5, x6, x0, x1, x2, x3, x4, x5, x6) + 2130706433 * f6,
        coef0(l0, l1, l2, l3, l4, l5, l6, l0, l1, l2, l3, l4, l5, l6) - x0 - x0 == u0 + 2130706433 * g0,
        coef1(l0, l1, l2, l3, l4, l5, l6, l0, l1, l2, l3, l4, l5, l6) - x1 - x1 == u1 + 2130706433 * g1,
        coef2(l0, l1, l2, l3, l4, l5, l6, l0, l1, l2, l3, l4, l5, l6) - x2 - x2 == u2 + 2130706433 * g2,
        coef3(l0, l1, l2, l3, l4, l5, l6, l0, l1, l2, l3, l4, l5, l6) - x3 - x3 == u3 + 2130706433 * g3,
        coef4(l0, l1, l2, l3, l4, l5, l6, l0, l1, l2, l3, l4, l5, l6) - x4 - x4 == u4 + 2130706433 * g4,
        coef5(l0, l1, l2, l3, l4, l5, l6, l0, l1, l2, l3, l4, l5, l6) - x5 - x5 == u5 + 2130706433 * g5,
        coef6(l0, l1, l2, l3, l4, l5, l6, l0, l1, l2, l3, l4, l5, l6) - x6 - x6 == u6 + 2130706433 * g6,
        coef0(l0, l1, l2, l3, l4, l5, l6, x0 - u0, x1 - u1, x2 - u2, x3 - u3, x4 - u4, x5 - u5, x6 - u6) - y0 == v0 + 2130706433 * h0,
        coef1(l0, l1, l2, l3, l4, l5, l6, x0 - u0, x1 - u1, x2 - u2, x3 - u3, x4 - u4, x5 - u5, x6 - u6) - y1 == v1 + 2130706433 * h1,
        coef2(l0, l1, l2, l3, l4, l5, l6, x0 - u0, x1 - u1, x2 - u2, x3 - u3, x4 - u4, x5 - u5, x6 - u6) - y2 == v2 + 2130706433 * h2,
        coef3(l0, l1, l2, l3, l4, l5, l6, x0 - u0, x1 - u1, x2 - u2, x3 - u3, x4 - u4, x5 - u5, x6 - u6) - y3 == v3 + 2130706433 * h3,
        coef4(l0, l1, l2, l3, l4, l5, l6, x0 - u0, x1 - u1, x2 - u2, x3 - u3, x4 - u4, x5 - u5, x6 - u6) - y4 == v4 + 2130706433 * h4,
        coef5(l0, l1, l2, l3, l4, l5, l6, x0 - u0, x1 - u1, x2 - u2, x3 - u3, x4 - u4, x5 - u5, x6 - u6) - y5 == v5 + 2130706433 * h5,
        coef6(l0, l1, l2, l3, l4, l5, l6, x0 - u0, x1 - u1, x2 - u2, x3 - u3, x4 - u4, x5 - u5, x6 - u6) - y6 == v6 + 2130706433 * h6,
        0 <= x0 < 2130706433,
        0 <= x1 < 2130706433,
        0 <= x2 < 2130706433,
        0 <= x3 < 2130706433,
        0 <= x4 < 2130706433,
        0 <= x5 < 2130706433,
        0 <= x6 < 2130706433,
        0 <= y0 < 2130706433,
        0 <= y1 < 2130706433,
        0 <= y2 < 2130706433,
        0 <= y3 < 2130706433,
        0 <= y4 < 2130706433,
        0 <= y5 < 2130706433,
        0 <= y6 < 2130706433,
        0 <= l0 < 2130706433,
        0 <= l1 < 2130706433,
        0 <= l2 < 2130706433,
        0 <= l3 < 2130706433,
        0 <= l4 < 2130706433,
        0 <= l5 < 2130706433,
        0 <= l6 < 2130706433,
        0 <= u0 < 2130706433,
        0 <= u1 < 2130706433,
        0 <= u2 < 2130706433,
        0 <= u3 < 2130706433,
        0 <= u4 < 2130706433,
        0 <= u5 < 2130706433,
        0 <= u6 < 2130706433,
        0 <= v0 < 2130706433,
        0 <= v1 < 2130706433,
        0 <= v2 < 2130706433,
        0 <= v3 < 2130706433,
        0 <= v4 < 2130706433,
        0 <= v5 < 2130706433,
        0 <= v6 < 2130706433,
        (2 * y0) % 2130706433 != 0,
    ensures
        generator().times(2 * n) == (Point::Affine { x: literal::fe(u0, u1, u2, u3, u4, u5, u6), y: literal::fe(v0, v1, v2, v3, v4, v5, v6) }),
{
    lemma_coefs(l0, l1, l2, l3, l4, l5, l6, y0, y1, y2, y3, y4, y5, y6);
    lemma_coefs(x0, x1, x2, x3, x4, x5, x6, x0, x1, x2, x3, x4, x5, x6);
    lemma_coefs(l0, l1, l2, l3, l4, l5, l6, l0, l1, l2, l3, l4, l5, l6);
    lemma_coefs(l0, l1, l2, l3, l4, l5, l6, x0 - u0, x1 - u1, x2 - u2, x3 - u3, x4 - u4, x5 - u5, x6 - u6);
    lemma_remainder(2 * coef0(l0, l1, l2, l3, l4, l5, l6, y0, y1, y2, y3, y4, y5, y6), 3 * coef0(x0, x1, x2, x3, x4, x5, x6, x0, x1, x2, x3, x4, x5, x6) + 45, f0);
    lemma_remainder(2 * coef1(l0, l1, l2, l3, l4, l5, l6, y0, y1, y2, y3, y4, y5, y6), 3 * coef1(x0, x1, x2, x3, x4, x5, x6, x0, x1, x2, x3, x4, x5, x6), f1);
    lemma_remainder(2 * coef2(l0, l1, l2, l3, l4, l5, l6, y0, y1, y2, y3, y4, y5, y6), 3 * coef2(x0, x1, x2, x3, x4, x5, x6, x0, x1, x2, x3, x4, x5, x6), f2);
    lemma_remainder(2 * coef3(l0, l1, l2, l3, l4, l5, l6, y0, y1, y2, y3, y4, y5, y6), 3 * coef3(x0, x1, x2, x3, x4, x5, x6, x0, x1, x2, x3, x4, x5, x6), f3);
    lemma_remainder(2 * coef4(l0, l1, l2, l3, l4, l5, l6, y0, y1, y2, y3, y4, y5, y6), 3 * coef4(x0, x1, x2, x3, x4, x5, x6, x0, x1, x2, x3, x4, x5, x6), f4);
    lemma_remainder(2 * coef5(l0, l1, l2, l3, l4, l5, l6, y0, y1, y2, y3, y4, y5, y6), 3 * coef5(x0, x1, x2, x3, x4, x5, x6, x0, x1, x2, x3, x4, x5, x6), f5);
    lemma_remainder(2 * coef6(l0, l1, l2, l3, l4, l5, l6, y0, y1, y2, y3, y4, y5, y6), 3 * coef6(x0, x1, x2, x3, x4, x5, x6, x0, x1, x2, x3, x4, x5, x6), f6);
    lemma_remainder(coef0(l0, l1, l2, l3, l4, l5, l6, l0, l1, l2, l3, l4, l5, l6) - x0 - x0, u0, g0);
    lemma_remainder(coef1(l0, l1, l2, l3, l4, l5, l6, l0, l1, l2, l3, l4, l5, l6) - x1 - x1, u1, g1);
    lemma_remainder(coef2(l0, l1, l2, l3, l4, l5, l6, l0, l1, l2, l3, l4, l5, l6) - x2 - x2, u2, g2);
    lemma_remainder(coef3(l0, l1, l2, l3, l4, l5, l6, l0, l1, l2, l3, l4, l5, l6) - x3 - x3, u3, g3);
    lemma_remainder(coef4(l0, l1, l2, l3, l4, l5, l6, l0, l1, l2, l3, l4, l5, l6) - x4 - x4, u4, g4);
    lemma_remainder(coef5(l0, l1, l2, l3, l4, l5, l6, l0, l1, l2, l3, l4, l5, l6) - x5 - x5, u5, g5);
    lemma_remainder(coef6(l0, l1, l2, l3, l4, l5, l6, l0, l1, l2, l3, l4, l5, l6) - x6 - x6, u6, g6);
    lemma_remainder(coef0(l0, l1, l2, l3, l4, l5, l6, x0 - u0, x1 - u1, x2 - u2, x3 - u3, x4 - u4, x5 - u5, x6 - u6) - y0, v0, h0);
    lemma_remainder(coef1(l0, l1, l2, l3, l4, l5, l6, x0 - u0, x1 - u1, x2 - u2, x3 - u3, x4 - u4, x5 - u5, x6 - u6) - y1, v1, h1);
    lemma_remainder(coef2(l0, l1, l2, l3, l4, l5, l6, x0 - u0, x1 - u1, x2 - u2, x3 - u3, x4 - u4, x5 - u5, x6 - u6) - y2, v2, h2);
    lemma_remainder(coef3(l0, l1, l2, l3, l4, l5, l6, x0 - u0, x1 - u1, x2 - u2, x3 - u3, x4 - u4, x5 - u5, x6 - u6) - y3, v3, h3);
    lemma_remainder(coef4(l0, l1, l2, l3, l4, l5, l6, x0 - u0, x1 - u1, x2 - u2, x3 - u3, x4 - u4, x5 - u5, x6 - u6) - y4, v4, h4);
    lemma_remainder(coef5(l0, l1, l2, l3, l4, l5, l6, x0 - u0, x1 - u1, x2 - u2, x3 - u3, x4 - u4, x5 - u5, x6 - u6) - y5, v5, h5);
    lemma_remainder(coef6(l0, l1, l2, l3, l4, l5, l6, x0 - u0, x1 - u1, x2 - u2, x3 - u3, x4 - u4, x5 - u5, x6 - u6) - y6, v6, h6);
    lemma_double_products(
        n,
        x0, x1, x2, x3, x4, x5, x6,
        y0, y1, y2, y3, y4, y5, y6,
        l0, l1, l2, l3, l4, l5, l6,
        u0, u1, u2, u3, u4, u5, u6,
        v0, v1, v2, v3, v4, v5, v6,
        coef0(l0, l1, l2, l3, l4, l5, l6, y0, y1, y2, y3, y4, y5, y6),
        coef1(l0, l1, l2, l3, l4, l5, l6, y0, y1, y2, y3, y4, y5, y6),
        coef2(l0, l1, l2, l3, l4, l5, l6, y0, y1, y2, y3, y4, y5, y6),
        coef3(l0, l1, l2, l3, l4, l5, l6, y0, y1, y2, y3, y4, y5, y6),
        coef4(l0, l1, l2, l3, l4, l5, l6, y0, y1, y2, y3, y4, y5, y6),
        coef5(l0, l1, l2, l3, l4, l5, l6, y0, y1, y2, y3, y4, y5, y6),
        coef6(l0, l1, l2, l3, l4, l5, l6, y0, y1, y2, y3, y4, y5, y6),
        coef0(x0, x1, x2, x3, x4, x5, x6, x0, x1, x2, x3, x4, x5, x6),
        coef1(x0, x1, x2, x3, x4, x5, x6, x0, x1, x2, x3, x4, x5, x6),
        coef2(x0, x1, x2, x3, x4, x5, x6, x0, x1, x2, x3, x4, x5, x6),
        coef3(x0, x1, x2, x3, x4, x5, x6, x0, x1, x2, x3, x4, x5, x6),
        coef4(x0, x1, x2, x3, x4, x5, x6, x0, x1, x2, x3, x4, x5, x6),
        coef5(x0, x1, x2, x3, x4, x5, x6, x0, x1, x2, x3, x4, x5, x6),
        coef6(x0, x1, x2, x3, x4, x5, x6, x0, x1, x2, x3, x4, x5, x6),
        coef0(l0, l1, l2, l3, l4, l5, l6, l0, l1, l2, l3, l4, l5, l6),
        coef1(l0, l1, l2, l3, l4, l5, l6, l0, l1, l2, l3, l4, l5, l6),
        coef2(l0, l1, l2, l3, l4, l5, l6, l0, l1, l2, l3, l4, l5, l6),
        coef3(l0, l1, l2, l3, l4, l5, l6, l0, l1, l2, l3, l4, l5, l6),
        coef4(l0, l1, l2, l3, l4, l5, l6, l0, l1, l2, l3, l4, l5, l6),
        coef5(l0, l1, l2, l3, l4, l5, l6, l0, l1, l2, l3, l4, l5, l6),
        coef6(l0, l1, l2, l3, l4, l5, l6, l0, l1, l2, l3, l4, l5, l6),
        coef0(l0, l1, l2, l3, l4, l5, l6, x0 - u0, x1 - u1, x2 - u2, x3 - u3, x4 - u4, x5 - u5, x6 - u6),
        coef1(l0, l1, l2, l3, l4, l5, l6, x0 - u0, x1 - u1, x2 - u2, x3 - u3, x4 - u4, x5 - u5, x6 - u6),
        coef2(l0, l1, l2, l3, l4, l5, l6, x0 - u0, x1 - u1, x2 - u2, x3 - u3, x4 - u4, x5 - u5, x6 - u6),
        coef3(l0, l1, l2, l3, l4, l5, l6, x0 - u0, x1 - u1, x2 - u2, x3 - u3, x4 - u4, x5 - u5, x6 - u6),
        coef4(l0, l1, l2, l3, l4, l5, l6, x0 - u0, x1 - u1, x2 - u2, x3 - u3, x4 - u4, x5 - u5, x6 - u6),
        coef5(l0, l1, l2, l3, l4, l5, l6, x0 - u0, x1 - u1, x2 - u2, x3 - u3, x4 - u4, x5 - u5, x6 - u6),
        coef6(l0, l1, l2, l3, l4, l5, l6, x0 - u0, x1 - u1, x2 - u2, x3 - u3, x4 - u4, x5 - u5, x6 - u6),
    );
}

/// A step that adds, with the products in `a` (`l (w - x)`), `c` and `e`.
proof fn lemma_add_products(
    m: nat,
    n: nat,
    x0: int,
    x1: int,
    x2: int,
    x3: int,
    x4: int,
    x5: int,
    x6: int,
    y0: int,
    y1: int,
    y2: int,
    y3: int,
    y4: int,
    y5: int,
    y6: int,
    w0: int,
    w1: int,
    w2: int,
    w3: int,
    w4: int,
    w5: int,
    w6: int,
    z0: int,
    z1: int,
    z2: int,
    z3: int,
    z4: int,
    z5: int,
    z6: int,
    l0: int,
    l1: int,
    l2: int,
    l3: int,
    l4: int,
    l5: int,
    l6: int,
    u0: int,
    u1: int,
    u2: int,
    u3: int,
    u4: int,
    u5: int,
    u6: int,
    v0: int,
    v1: int,
    v2: int,
    v3: int,
    v4: int,
    v5: int,
    v6: int,
    a0: int,
    a1: int,
    a2: int,
    a3: int,
    a4: int,
    a5: int,
    a6: int,
    c0: int,
    c1: int,
    c2: int,
    c3: int,
    c4: int,
    c5: int,
    c6: int,
    e0: int,
    e1: int,
    e2: int,
    e3: int,
    e4: int,
    e5: int,
    e6: int,
)
    requires
        generator().times(m) == (Point::Affine { x: literal::fe(x0, x1, x2, x3, x4, x5, x6), y: literal::fe(y0, y1, y2, y3, y4, y5, y6) }),
        generator().times(n) == (Point::Affine { x: literal::fe(w0, w1, w2, w3, w4, w5, w6), y: literal::fe(z0, z1, z2, z3, z4, z5, z6) }),
        literal::fe(l0, l1, l2, l3, l4, l5, l6).times(literal::fe(w0 - x0, w1 - x1, w2 - x2, w3 - x3, w4 - x4, w5 - x5, w6 - x6)) == literal::fe(a0 % 2130706433, a1 % 2130706433, a2 % 2130706433, a3 % 2130706433, a4 % 2130706433, a5 % 2130706433, a6 % 2130706433),
        literal::fe(l0, l1, l2, l3, l4, l5, l6).times(literal::fe(l0, l1, l2, l3, l4, l5, l6)) == literal::fe(c0 % 2130706433, c1 % 2130706433, c2 % 2130706433, c3 % 2130706433, c4 % 2130706433, c5 % 2130706433, c6 % 2130706433),
        literal::fe(l0, l1, l2, l3, l4, l5, l6).times(literal::fe(x0 - u0, x1 - u1, x2 - u2, x3 - u3, x4 - u4, x5 - u5, x6 - u6)) == literal::fe(e0 % 2130706433, e1 % 2130706433, e2 % 2130706433, e3 % 2130706433, e4 % 2130706433, e5 % 2130706433, e6 % 2130706433),
        a0 % 2130706433 == (z0 - y0) % 2130706433,
        a1 % 2130706433 == (z1 - y1) % 2130706433,
        a2 % 2130706433 == (z2 - y2) % 2130706433,
        a3 % 2130706433 == (z3 - y3) % 2130706433,
        a4 % 2130706433 == (z4 - y4) % 2130706433,
        a5 % 2130706433 == (z5 - y5) % 2130706433,
        a6 % 2130706433 == (z6 - y6) % 2130706433,
        (c0 - x0 - w0) % 2130706433 == u0,
        (c1 - x1 - w1) % 2130706433 == u1,
        (c2 - x2 - w2) % 2130706433 == u2,
        (c3 - x3 - w3) % 2130706433 == u3,
        (c4 - x4 - w4) % 2130706433 == u4,
        (c5 - x5 - w5) % 2130706433 == u5,
        (c6 - x6 - w6) % 2130706433 == u6,
        (e0 - y0) % 2130706433 == v0,
        (e1 - y1) % 2130706433 == v1,
        (e2 - y2) % 2130706433 == v2,
        (e3 - y3) % 2130706433 == v3,
        (e4 - y4) % 2130706433 == v4,
        (e5 - y5) % 2130706433 == v5,
        (e6 - y6) % 2130706433 == v6,
        0 <= x0 < 2130706433,
        0 <= x1 < 2130706433,
        0 <= x2 < 2130706433,
        0 <= x3 < 2130706433,
        0 <= x4 < 2130706433,
        0 <= x5 < 2130706433,
        0 <= x6 < 2130706433,
        0 <= w0 < 2130706433,
        0 <= w1 < 2130706433,
        0 <= w2 < 2130706433,
        0 <= w3 < 2130706433,
        0 <= w4 < 2130706433,
        0 <= w5 < 2130706433,
        0 <= w6 < 2130706433,
        0 <= l0 < 2130706433,
        0 <= l1 < 2130706433,
        0 <= l2 < 2130706433,
        0 <= l3 < 2130706433,
        0 <= l4 < 2130706433,
        0 <= l5 < 2130706433,
        0 <= l6 < 2130706433,
        x0 != w0,
    ensures
        generator().times(m + n) == (Point::Affine { x: literal::fe(u0, u1, u2, u3, u4, u5, u6), y: literal::fe(v0, v1, v2, v3, v4, v5, v6) }),
{
    broadcast use element::group_canonical;

    let x = literal::fe(x0, x1, x2, x3, x4, x5, x6);
    let y = literal::fe(y0, y1, y2, y3, y4, y5, y6);
    let w = literal::fe(w0, w1, w2, w3, w4, w5, w6);
    let z = literal::fe(z0, z1, z2, z3, z4, z5, z6);
    let l = literal::fe(l0, l1, l2, l3, l4, l5, l6);
    let d = literal::fe(w0 - x0, w1 - x1, w2 - x2, w3 - x3, w4 - x4, w5 - x5, w6 - x6);
    assert(l.canonical()) by {
        reveal(Fe::canonical);
    }
    lemma_generator();
    group::lemma_times_add(generator(), m, n);
    lemma_times_difference(l, w, x, d);
    lemma_difference_coefs(w, x);
    lemma_difference(z, y, l.times(d));
    lemma_quotient(l, z.minus(y), w.minus(x));
    lemma_line_end(x0, x1, x2, x3, x4, x5, x6, y0, y1, y2, y3, y4, y5, y6, w0, w1, w2, w3, w4, w5, w6, l0, l1, l2, l3, l4, l5, l6, u0, u1, u2, u3, u4, u5, u6, v0, v1, v2, v3, v4, v5, v6, c0, c1, c2, c3, c4, c5, c6, e0, e1, e2, e3, e4, e5, e6);
}

/// A step of the chain that adds.
proof fn lemma_add(
    m: nat,
    n: nat,
    x0: int,
    x1: int,
    x2: int,
    x3: int,
    x4: int,
    x5: int,
    x6: int,
    y0: int,
    y1: int,
    y2: int,
    y3: int,
    y4: int,
    y5: int,
    y6: int,
    w0: int,
    w1: int,
    w2: int,
    w3: int,
    w4: int,
    w5: int,
    w6: int,
    z0: int,
    z1: int,
    z2: int,
    z3: int,
    z4: int,
    z5: int,
    z6: int,
    l0: int,
    l1: int,
    l2: int,
    l3: int,
    l4: int,
    l5: int,
    l6: int,
    u0: int,
    u1: int,
    u2: int,
    u3: int,
    u4: int,
    u5: int,
    u6: int,
    v0: int,
    v1: int,
    v2: int,
    v3: int,
    v4: int,
    v5: int,
    v6: int,
    f0: int,
    f1: int,
    f2: int,
    f3: int,
    f4: int,
    f5: int,
    f6: int,
    g0: int,
    g1: int,
    g2: int,
    g3: int,
    g4: int,
    g5: int,
    g6: int,
    h0: int,
    h1: int,
    h2: int,
    h3: int,
    h4: int,
    h5: int,
    h6: int,
)
    requires
        generator().times(m) == (Point::Affine { x: literal::fe(x0, x1, x2, x3, x4, x5, x6), y: literal::fe(y0, y1, y2, y3, y4, y5, y6) }),
        generator().times(n) == (Point::Affine { x: literal::fe(w0, w1, w2, w3, w4, w5, w6), y: literal::fe(z0, z1, z2, z3, z4, z5, z6) }),
        coef0(l0, l1, l2, l3, l4, l5, l6, w0 - x0, w1 - x1, w2 - x2, w3 - x3, w4 - x4, w5 - x5, w6 - x6) == z0 - y0 + 2130706433 * f0,
        coef1(l0, l1, l2, l3, l4, l5, l6, w0 - x0, w1 - x1, w2 - x2, w3 - x3, w4 - x4, w5 - x5, w6 - x6) == z1 - y1 + 2130706433 * f1,
        coef2(l0, l1, l2, l3, l4, l5, l6, w0 - x0, w1 - x1, w2 - x2, w3 - x3, w4 - x4, w5 - x5, w6 - x6) == z2 - y2 + 2130706433 * f2,
        coef3(l0, l1, l2, l3, l4, l5, l6, w0 - x0, w1 - x1, w2 - x2, w3 - x3, w4 - x4, w5 - x5, w6 - x6) == z3 - y3 + 2130706433 * f3,
        coef4(l0, l1, l2, l3, l4, l5, l6, w0 - x0, w1 - x1, w2 - x2, w3 - x3, w4 - x4, w5 - x5, w6 - x6) == z4 - y4 + 2130706433 * f4,
        coef5(l0, l1, l2, l3, l4, l5, l6, w0 - x0, w1 - x1, w2 - x2, w3 - x3, w4 - x4, w5 - x5, w6 - x6) == z5 - y5 + 2130706433 * f5,
        coef6(l0, l1, l2, l3, l4, l5, l6, w0 - x0, w1 - x1, w2 - x2, w3 - x3, w4 - x4, w5 - x5, w6 - x6) == z6 - y6 + 2130706433 * f6,
        coef0(l0, l1, l2, l3, l4, l5, l6, l0, l1, l2, l3, l4, l5, l6) - x0 - w0 == u0 + 2130706433 * g0,
        coef1(l0, l1, l2, l3, l4, l5, l6, l0, l1, l2, l3, l4, l5, l6) - x1 - w1 == u1 + 2130706433 * g1,
        coef2(l0, l1, l2, l3, l4, l5, l6, l0, l1, l2, l3, l4, l5, l6) - x2 - w2 == u2 + 2130706433 * g2,
        coef3(l0, l1, l2, l3, l4, l5, l6, l0, l1, l2, l3, l4, l5, l6) - x3 - w3 == u3 + 2130706433 * g3,
        coef4(l0, l1, l2, l3, l4, l5, l6, l0, l1, l2, l3, l4, l5, l6) - x4 - w4 == u4 + 2130706433 * g4,
        coef5(l0, l1, l2, l3, l4, l5, l6, l0, l1, l2, l3, l4, l5, l6) - x5 - w5 == u5 + 2130706433 * g5,
        coef6(l0, l1, l2, l3, l4, l5, l6, l0, l1, l2, l3, l4, l5, l6) - x6 - w6 == u6 + 2130706433 * g6,
        coef0(l0, l1, l2, l3, l4, l5, l6, x0 - u0, x1 - u1, x2 - u2, x3 - u3, x4 - u4, x5 - u5, x6 - u6) - y0 == v0 + 2130706433 * h0,
        coef1(l0, l1, l2, l3, l4, l5, l6, x0 - u0, x1 - u1, x2 - u2, x3 - u3, x4 - u4, x5 - u5, x6 - u6) - y1 == v1 + 2130706433 * h1,
        coef2(l0, l1, l2, l3, l4, l5, l6, x0 - u0, x1 - u1, x2 - u2, x3 - u3, x4 - u4, x5 - u5, x6 - u6) - y2 == v2 + 2130706433 * h2,
        coef3(l0, l1, l2, l3, l4, l5, l6, x0 - u0, x1 - u1, x2 - u2, x3 - u3, x4 - u4, x5 - u5, x6 - u6) - y3 == v3 + 2130706433 * h3,
        coef4(l0, l1, l2, l3, l4, l5, l6, x0 - u0, x1 - u1, x2 - u2, x3 - u3, x4 - u4, x5 - u5, x6 - u6) - y4 == v4 + 2130706433 * h4,
        coef5(l0, l1, l2, l3, l4, l5, l6, x0 - u0, x1 - u1, x2 - u2, x3 - u3, x4 - u4, x5 - u5, x6 - u6) - y5 == v5 + 2130706433 * h5,
        coef6(l0, l1, l2, l3, l4, l5, l6, x0 - u0, x1 - u1, x2 - u2, x3 - u3, x4 - u4, x5 - u5, x6 - u6) - y6 == v6 + 2130706433 * h6,
        0 <= x0 < 2130706433,
        0 <= x1 < 2130706433,
        0 <= x2 < 2130706433,
        0 <= x3 < 2130706433,
        0 <= x4 < 2130706433,
        0 <= x5 < 2130706433,
        0 <= x6 < 2130706433,
        0 <= w0 < 2130706433,
        0 <= w1 < 2130706433,
        0 <= w2 < 2130706433,
        0 <= w3 < 2130706433,
        0 <= w4 < 2130706433,
        0 <= w5 < 2130706433,
        0 <= w6 < 2130706433,
        0 <= l0 < 2130706433,
        0 <= l1 < 2130706433,
        0 <= l2 < 2130706433,
        0 <= l3 < 2130706433,
        0 <= l4 < 2130706433,
        0 <= l5 < 2130706433,
        0 <= l6 < 2130706433,
        0 <= u0 < 2130706433,
        0 <= u1 < 2130706433,
        0 <= u2 < 2130706433,
        0 <= u3 < 2130706433,
        0 <= u4 < 2130706433,
        0 <= u5 < 2130706433,
        0 <= u6 < 2130706433,
        0 <= v0 < 2130706433,
        0 <= v1 < 2130706433,
        0 <= v2 < 2130706433,
        0 <= v3 < 2130706433,
        0 <= v4 < 2130706433,
        0 <= v5 < 2130706433,
        0 <= v6 < 2130706433,
        x0 != w0,
    ensures
        generator().times(m + n) == (Point::Affine { x: literal::fe(u0, u1, u2, u3, u4, u5, u6), y: literal::fe(v0, v1, v2, v3, v4, v5, v6) }),
{
    lemma_coefs(l0, l1, l2, l3, l4, l5, l6, w0 - x0, w1 - x1, w2 - x2, w3 - x3, w4 - x4, w5 - x5, w6 - x6);
    lemma_coefs(l0, l1, l2, l3, l4, l5, l6, l0, l1, l2, l3, l4, l5, l6);
    lemma_coefs(l0, l1, l2, l3, l4, l5, l6, x0 - u0, x1 - u1, x2 - u2, x3 - u3, x4 - u4, x5 - u5, x6 - u6);
    lemma_remainder(coef0(l0, l1, l2, l3, l4, l5, l6, w0 - x0, w1 - x1, w2 - x2, w3 - x3, w4 - x4, w5 - x5, w6 - x6), z0 - y0, f0);
    lemma_remainder(coef1(l0, l1, l2, l3, l4, l5, l6, w0 - x0, w1 - x1, w2 - x2, w3 - x3, w4 - x4, w5 - x5, w6 - x6), z1 - y1, f1);
    lemma_remainder(coef2(l0, l1, l2, l3, l4, l5, l6, w0 - x0, w1 - x1, w2 - x2, w3 - x3, w4 - x4, w5 - x5, w6 - x6), z2 - y2, f2);
    lemma_remainder(coef3(l0, l1, l2, l3, l4, l5, l6, w0 - x0, w1 - x1, w2 - x2, w3 - x3, w4 - x4, w5 - x5, w6 - x6), z3 - y3, f3);
    lemma_remainder(coef4(l0, l1, l2, l3, l4, l5, l6, w0 - x0, w1 - x1, w2 - x2, w3 - x3, w4 - x4, w5 - x5, w6 - x6), z4 - y4, f4);
    lemma_remainder(coef5(l0, l1, l2, l3, l4, l5, l6, w0 - x0, w1 - x1, w2 - x2, w3 - x3, w4 - x4, w5 - x5, w6 - x6), z5 - y5, f5);
    lemma_remainder(coef6(l0, l1, l2, l3, l4, l5, l6, w0 - x0, w1 - x1, w2 - x2, w3 - x3, w4 - x4, w5 - x5, w6 - x6), z6 - y6, f6);
    lemma_remainder(coef0(l0, l1, l2, l3, l4, l5, l6, l0, l1, l2, l3, l4, l5, l6) - x0 - w0, u0, g0);
    lemma_remainder(coef1(l0, l1, l2, l3, l4, l5, l6, l0, l1, l2, l3, l4, l5, l6) - x1 - w1, u1, g1);
    lemma_remainder(coef2(l0, l1, l2, l3, l4, l5, l6, l0, l1, l2, l3, l4, l5, l6) - x2 - w2, u2, g2);
    lemma_remainder(coef3(l0, l1, l2, l3, l4, l5, l6, l0, l1, l2, l3, l4, l5, l6) - x3 - w3, u3, g3);
    lemma_remainder(coef4(l0, l1, l2, l3, l4, l5, l6, l0, l1, l2, l3, l4, l5, l6) - x4 - w4, u4, g4);
    lemma_remainder(coef5(l0, l1, l2, l3, l4, l5, l6, l0, l1, l2, l3, l4, l5, l6) - x5 - w5, u5, g5);
    lemma_remainder(coef6(l0, l1, l2, l3, l4, l5, l6, l0, l1, l2, l3, l4, l5, l6) - x6 - w6, u6, g6);
    lemma_remainder(coef0(l0, l1, l2, l3, l4, l5, l6, x0 - u0, x1 - u1, x2 - u2, x3 - u3, x4 - u4, x5 - u5, x6 - u6) - y0, v0, h0);
    lemma_remainder(coef1(l0, l1, l2, l3, l4, l5, l6, x0 - u0, x1 - u1, x2 - u2, x3 - u3, x4 - u4, x5 - u5, x6 - u6) - y1, v1, h1);
    lemma_remainder(coef2(l0, l1, l2, l3, l4, l5, l6, x0 - u0, x1 - u1, x2 - u2, x3 - u3, x4 - u4, x5 - u5, x6 - u6) - y2, v2, h2);
    lemma_remainder(coef3(l0, l1, l2, l3, l4, l5, l6, x0 - u0, x1 - u1, x2 - u2, x3 - u3, x4 - u4, x5 - u5, x6 - u6) - y3, v3, h3);
    lemma_remainder(coef4(l0, l1, l2, l3, l4, l5, l6, x0 - u0, x1 - u1, x2 - u2, x3 - u3, x4 - u4, x5 - u5, x6 - u6) - y4, v4, h4);
    lemma_remainder(coef5(l0, l1, l2, l3, l4, l5, l6, x0 - u0, x1 - u1, x2 - u2, x3 - u3, x4 - u4, x5 - u5, x6 - u6) - y5, v5, h5);
    lemma_remainder(coef6(l0, l1, l2, l3, l4, l5, l6, x0 - u0, x1 - u1, x2 - u2, x3 - u3, x4 - u4, x5 - u5, x6 - u6) - y6, v6, h6);
    lemma_add_products(
        m,
        n,
        x0, x1, x2, x3, x4, x5, x6,
        y0, y1, y2, y3, y4, y5, y6,
        w0, w1, w2, w3, w4, w5, w6,
        z0, z1, z2, z3, z4, z5, z6,
        l0, l1, l2, l3, l4, l5, l6,
        u0, u1, u2, u3, u4, u5, u6,
        v0, v1, v2, v3, v4, v5, v6,
        coef0(l0, l1, l2, l3, l4, l5, l6, w0 - x0, w1 - x1, w2 - x2, w3 - x3, w4 - x4, w5 - x5, w6 - x6),
        coef1(l0, l1, l2, l3, l4, l5, l6, w0 - x0, w1 - x1, w2 - x2, w3 - x3, w4 - x4, w5 - x5, w6 - x6),
        coef2(l0, l1, l2, l3, l4, l5, l6, w0 - x0, w1 - x1, w2 - x2, w3 - x3, w4 - x4, w5 - x5, w6 - x6),
        coef3(l0, l1, l2, l3, l4, l5, l6, w0 - x0, w1 - x1, w2 - x2, w3 - x3, w4 - x4, w5 - x5, w6 - x6),
        coef4(l0, l1, l2, l3, l4, l5, l6, w0 - x0, w1 - x1, w2 - x2, w3 - x3, w4 - x4, w5 - x5, w6 - x6),
        coef5(l0, l1, l2, l3, l4, l5, l6, w0 - x0, w1 - x1, w2 - x2, w3 - x3, w4 - x4, w5 - x5, w6 - x6),
        coef6(l0, l1, l2, l3, l4, l5, l6, w0 - x0, w1 - x1, w2 - x2, w3 - x3, w4 - x4, w5 - x5, w6 - x6),
        coef0(l0, l1, l2, l3, l4, l5, l6, l0, l1, l2, l3, l4, l5, l6),
        coef1(l0, l1, l2, l3, l4, l5, l6, l0, l1, l2, l3, l4, l5, l6),
        coef2(l0, l1, l2, l3, l4, l5, l6, l0, l1, l2, l3, l4, l5, l6),
        coef3(l0, l1, l2, l3, l4, l5, l6, l0, l1, l2, l3, l4, l5, l6),
        coef4(l0, l1, l2, l3, l4, l5, l6, l0, l1, l2, l3, l4, l5, l6),
        coef5(l0, l1, l2, l3, l4, l5, l6, l0, l1, l2, l3, l4, l5, l6),
        coef6(l0, l1, l2, l3, l4, l5, l6, l0, l1, l2, l3, l4, l5, l6),
        coef0(l0, l1, l2, l3, l4, l5, l6, x0 - u0, x1 - u1, x2 - u2, x3 - u3, x4 - u4, x5 - u5, x6 - u6),
        coef1(l0, l1, l2, l3, l4, l5, l6, x0 - u0, x1 - u1, x2 - u2, x3 - u3, x4 - u4, x5 - u5, x6 - u6),
        coef2(l0, l1, l2, l3, l4, l5, l6, x0 - u0, x1 - u1, x2 - u2, x3 - u3, x4 - u4, x5 - u5, x6 - u6),
        coef3(l0, l1, l2, l3, l4, l5, l6, x0 - u0, x1 - u1, x2 - u2, x3 - u3, x4 - u4, x5 - u5, x6 - u6),
        coef4(l0, l1, l2, l3, l4, l5, l6, x0 - u0, x1 - u1, x2 - u2, x3 - u3, x4 - u4, x5 - u5, x6 - u6),
        coef5(l0, l1, l2, l3, l4, l5, l6, x0 - u0, x1 - u1, x2 - u2, x3 - u3, x4 - u4, x5 - u5, x6 - u6),
        coef6(l0, l1, l2, l3, l4, l5, l6, x0 - u0, x1 - u1, x2 - u2, x3 - u3, x4 - u4, x5 - u5, x6 - u6),
    );
}

/// Subtracting an element twice.
proof fn lemma_sub_twice(q: Fe, x: Fe)
    requires
        q.canonical(),
        x.canonical(),
    ensures
        q.minus(x).minus(x) == q.minus(Fe::of_int(2).times(x)),
{
    let env = seq![q, x];
    let lhs = ring::v(0).minus(ring::v(1)).minus(ring::v(1));
    let rhs = ring::v(0).minus(ring::c(2).times(ring::v(1)));
    assert forall|ints: Seq<int>| ints.len() == 2 implies #[trigger] lhs.over_int(ints) == rhs.over_int(ints) by {
        reveal_with_fuel(Expr::over_int, 3);
        let (q, x) = (ints[0], ints[1]);
        assert((q - x) - x == q - (2 * x)) by (nonlinear_arith);
    }
    reveal_with_fuel(Expr::over_fe, 3);
    reveal_with_fuel(Expr::below, 3);
    ring::lemma_identity(lhs, rhs, env);
}

/// The generator lies on the curve.
pub proof fn lemma_generator()
    ensures
        generator().valid(),
{
    let x = literal::fe(21053971, 90322736, 156256384, 23627556, 34171264, 126183783, 25645942);
    reveal(Fe::canonical);
    literal::lemma_product(2020310104, 1513506566, 1843922297, 2003644209, 805967281, 1882435203, 1623804682, 2020310104, 1513506566, 1843922297, 2003644209, 805967281, 1882435203, 1623804682, 1278843894, 1816853956, 210736612, 637101980, 152655224, 1074698142, 603438968, 37319736474, 57391234163, 46929281603, 34311125759, 28991264120, 22977805752, 12745271147);
    literal::lemma_product(21053971, 90322736, 156256384, 23627556, 34171264, 126183783, 25645942, 21053971, 90322736, 156256384, 23627556, 34171264, 126183783, 25645942, 117897610, 227660724, 1877443178, 526671222, 1632263916, 258702224, 1938103395, 107406367, 101644292, 51321710, 69040039, 54211755, 19512458, 17404925);
    literal::lemma_product(117897610, 227660724, 1877443178, 526671222, 1632263916, 258702224, 1938103395, 21053971, 90322736, 156256384, 23627556, 34171264, 126183783, 25645942, 331415199, 2013743702, 1702025064, 1704568352, 745654777, 1788547206, 1580078011, 1209176437, 1856883566, 1354971596, 818977486, 968159148, 612138145, 270654756);
    frobenius::lemma_scaled(45, x);
    reveal(Fe::scaled);
    reveal(Fe::plus);
}

/// Integers that differ by a multiple of the prime leave the same remainder.
proof fn lemma_remainder(a: int, b: int, q: int)
    requires
        a == b + 2130706433 * q,
    ensures
        a % 2130706433 == b % 2130706433,
        0 <= b < 2130706433 ==> a % 2130706433 == b,
{
}

/// The first odd multiples.
proof fn lemma_table()
    ensures
        generator().times(1) == (Point::Affine { x: literal::fe(21053971, 90322736, 156256384, 23627556, 34171264, 126183783, 25645942), y: literal::fe(2020310104, 1513506566, 1843922297, 2003644209, 805967281, 1882435203, 1623804682) }),
        generator().times(3) == (Point::Affine { x: literal::fe(467654231, 140529359, 225453094, 213767998, 2119372174, 826826390, 509908472), y: literal::fe(910517402, 540189181, 1590228616, 15157234, 601371048, 1082043944, 1009642449) }),
        generator().times(5) == (Point::Affine { x: literal::fe(1802183323, 578369319, 705392214, 905316741, 1750073676, 1742753354, 654289264), y: literal::fe(2084298943, 733094976, 245856367, 2114401684, 1776653011, 910007018, 1131772051) }),
        generator().times(7) == (Point::Affine { x: literal::fe(1183976815, 763229735, 1391818946, 552406207, 57835454, 1608386991, 1725272370), y: literal::fe(1206313512, 270286941, 244827900, 1949990409, 612480876, 776545623, 1342692810) }),
        generator().times(9) == (Point::Affine { x: literal::fe(1376664870, 36574570, 1928160573, 1962407885, 1663510037, 647561982, 769847015), y: literal::fe(469491965, 368216404, 512731201, 1930432655, 1288047098, 1242897166, 1754810551) }),
        generator().times(11) == (Point::Affine { x: literal::fe(698510408, 56028667, 1851204165, 1617109836, 270895001, 1080332954, 1202313465), y: literal::fe(624956658, 171919014, 1281227139, 415484406, 2013094779, 392737683, 445644599) }),
        generator().times(13) == (Point::Affine { x: literal::fe(242534996, 683839544, 1070396237, 772964424, 1708803322, 1358032456, 443139177), y: literal::fe(373830437, 299366337, 159102850, 1632830748, 1883418206, 400996964, 1690077110) }),
        generator().times(15) == (Point::Affine { x: literal::fe(1985005590, 1034601703, 728293283, 1421243589, 1794146164, 691082254, 1568020826), y: literal::fe(181141497, 400751978, 83536582, 596391389, 2106082275, 1086428455, 1852170896) }),
{
    group::lemma_times_small(generator());
    lemma_double(1nat, 21053971, 90322736, 156256384, 23627556, 34171264, 126183783, 25645942, 2020310104, 1513506566, 1843922297, 2003644209, 805967281, 1882435203, 1623804682, 37222130, 1645177341, 1214589896, 443491799, 1331590466, 1451715302, 59865073, 508577272, 835663343, 1849012363, 1888954974, 772297057, 1053495690, 2114107195, 528284394, 995519934, 1161498209, 1080311872, 1090788570, 1072942429, 1821730308, 50204700654, 65522558806, 45177997370, 41196031647, 33729542077, 16360160316, 9418826476, 11509869972, 14486817103, 15024143188, 12729032160, 5023404433, 2865791085, 3859388525, -23182561781, -30110279536, -18220524890, -16363251611, -15996055670, -7440092408, -3316951745);
    lemma_add(1nat, 2nat, 21053971, 90322736, 156256384, 23627556, 34171264, 126183783, 25645942, 2020310104, 1513506566, 1843922297, 2003644209, 805967281, 1882435203, 1623804682, 508577272, 835663343, 1849012363, 1888954974, 772297057, 1053495690, 2114107195, 528284394, 995519934, 1161498209, 1080311872, 1090788570, 1072942429, 1821730308, 180373196, 1034482551, 228601537, 657529805, 2072852283, 576110096, 1850797374, 467654231, 140529359, 225453094, 213767998, 2119372174, 826826390, 509908472, 910517402, 540189181, 1590228616, 15157234, 601371048, 1082043944, 1009642449, 21346500137, 29098204093, 26999063811, 25927849177, 17475861839, 15197347435, 8995950443, 16015969144, 23621974025, 20164981043, 25907301198, 17288799020, 13292279873, 6343451442, -6043164897, -15865655467, -15103107094, -17232114971, -11839391524, -5604890112, -2394320842);
    lemma_add(3nat, 2nat, 467654231, 140529359, 225453094, 213767998, 2119372174, 826826390, 509908472, 910517402, 540189181, 1590228616, 15157234, 601371048, 1082043944, 1009642449, 508577272, 835663343, 1849012363, 1888954974, 772297057, 1053495690, 2114107195, 528284394, 995519934, 1161498209, 1080311872, 1090788570, 1072942429, 1821730308, 1303325737, 1990348152, 918094884, 1651403443, 1990291365, 1748201467, 263672520, 1802183323, 578369319, 705392214, 905316741, 1750073676, 1742753354, 654289264, 2084298943, 733094976, 245856367, 2114401684, 1776653011, 910007018, 1131772051, 17700296705, 16988480282, 7997620443, 12132698502, 13291999568, 6568746764, 4598447165, 26218791381, 41669090580, 35744667080, 24394417980, 13859953706, 8741382356, 6681641742, -7502536238, -10795837623, -8189628618, -8547783855, -5893856641, -3173940094, -2347062513);
    lemma_add(5nat, 2nat, 1802183323, 578369319, 705392214, 905316741, 1750073676, 1742753354, 654289264, 2084298943, 733094976, 245856367, 2114401684, 1776653011, 910007018, 1131772051, 508577272, 835663343, 1849012363, 1888954974, 772297057, 1053495690, 2114107195, 528284394, 995519934, 1161498209, 1080311872, 1090788570, 1072942429, 1821730308, 623660280, 1074973374, 1446272695, 179447155, 676970727, 1609790751, 1978142544, 1183976815, 763229735, 1391818946, 552406207, 57835454, 1608386991, 1725272370, 1206313512, 270286941, 244827900, 1949990409, 612480876, 776545623, 1342692810, 7629969868, 16363194436, 7259851714, -3657612554, 17975909, 7338843835, 2921336224, 21659589450, 29373876238, 17684636940, 17998882285, 23923994093, 20018735355, 9225980434, -4242592850, -5139477207, 6272828483, 11021093277, 963206084, -5541542053, -1834026083);
    lemma_add(7nat, 2nat, 1183976815, 763229735, 1391818946, 552406207, 57835454, 1608386991, 1725272370, 1206313512, 270286941, 244827900, 1949990409, 612480876, 776545623, 1342692810, 508577272, 835663343, 1849012363, 1888954974, 772297057, 1053495690, 2114107195, 528284394, 995519934, 1161498209, 1080311872, 1090788570, 1072942429, 1821730308, 1150173564, 639707437, 1321819498, 277765744, 304692463, 1715079528, 1619860184, 1376664870, 36574570, 1928160573, 1962407885, 1663510037, 647561982, 769847015, 469491965, 368216404, 512731201, 1930432655, 1288047098, 1242897166, 1754810551, 2034662582, 9748197979, 12745644391, 6263846836, 895456511, 1421875491, 1157808630, 16521211763, 22733605549, 13685055234, 13051199546, 19885997000, 16359967503, 6887401512, 2859375466, -3159326410, -13866250868, -8357260159, 5009913224, 7171102819, 2165094445);
    lemma_add(9nat, 2nat, 1376664870, 36574570, 1928160573, 1962407885, 1663510037, 647561982, 769847015, 469491965, 368216404, 512731201, 1930432655, 1288047098, 1242897166, 1754810551, 508577272, 835663343, 1849012363, 1888954974, 772297057, 1053495690, 2114107195, 528284394, 995519934, 1161498209, 1080311872, 1090788570, 1072942429, 1821730308, 1105193102, 1065663658, 2009900862, 973039480, 2126375316, 474985159, 273953207, 698510408, 56028667, 1851204165, 1617109836, 270895001, 1080332954, 1202313465, 624956658, 171919014, 1281227139, 415484406, 2013094779, 392737683, 445644599, 2849946060, 4647805760, 5206558636, 9299473640, 4636532286, 2183098365, 532108896, 16134589518, 25805921192, 17827486771, 9878067302, 7643902186, 4998024173, 5320984216, 2205217202, 5796519966, 1910385526, -2059735436, -171744821, 230489999, 1023422655);
    lemma_add(11nat, 2nat, 698510408, 56028667, 1851204165, 1617109836, 270895001, 1080332954, 1202313465, 624956658, 171919014, 1281227139, 415484406, 2013094779, 392737683, 445644599, 508577272, 835663343, 1849012363, 1888954974, 772297057, 1053495690, 2114107195, 528284394, 995519934, 1161498209, 1080311872, 1090788570, 1072942429, 1821730308, 1242882196, 2037333034, 1099683577, 614457436, 2011928377, 1860926988, 1028445305, 242534996, 683839544, 1070396237, 772964424, 1708803322, 1358032456, 443139177, 373830437, 299366337, 159102850, 1632830748, 1883418206, 400996964, 1690077110, 8057557906, 11037510822, 8197836732, 8321993390, 7752356417, 5724427414, 2750864263, 25965268240, 37694363129, 35872737880, 32980139340, 23774700131, 14524219677, 8501760192, 6985565954, 4442168495, -4163539852, -2727239518, 2606748690, 2348610876, 1186985662);
    lemma_add(13nat, 2nat, 242534996, 683839544, 1070396237, 772964424, 1708803322, 1358032456, 443139177, 373830437, 299366337, 159102850, 1632830748, 1883418206, 400996964, 1690077110, 508577272, 835663343, 1849012363, 1888954974, 772297057, 1053495690, 2114107195, 528284394, 995519934, 1161498209, 1080311872, 1090788570, 1072942429, 1821730308, 1019375950, 57338600, 147785539, 71572437, 728192834, 1675490835, 819070711, 1985005590, 1034601703, 728293283, 1421243589, 1794146164, 691082254, 1568020826, 181141497, 400751978, 83536582, 596391389, 2106082275, 1086428455, 1852170896, 5349378771, 8025460271, 1505616256, -633823225, 5631322416, 6996175375, 3178545512, 2114833584, 3406409296, 7569418103, 13064140320, 12783818659, 7091088997, 1921901742, -1204927023, -2752746110, -1986611342, -226240662, -3461062421, -5253372322, -2673905663);
}

/// Part 1 of the chain.
proof fn lemma_part_1()
    requires
        generator().times(15nat) == (Point::Affine { x: literal::fe(1985005590, 1034601703, 728293283, 1421243589, 1794146164, 691082254, 1568020826), y: literal::fe(181141497, 400751978, 83536582, 596391389, 2106082275, 1086428455, 1852170896) }),
    ensures
        generator().times(7752nat) == (Point::Affine { x: literal::fe(372625093, 1227928055, 1289747512, 335009298, 2078184387, 1312145454, 2004358849), y: literal::fe(1706508076, 61391931, 1709225153, 829471050, 2070792383, 488833379, 72986532) }),
{
    lemma_table();
    lemma_double(15nat, 1985005590, 1034601703, 728293283, 1421243589, 1794146164, 691082254, 1568020826, 181141497, 400751978, 83536582, 596391389, 2106082275, 1086428455, 1852170896, 1358296088, 174180821, 143260538, 116027766, 881222126, 866256470, 1333335641, 586975583, 412813258, 1752806011, 1198380712, 2028223866, 1801259754, 2033037314, 487632415, 1389635283, 2112946220, 1942998723, 151784568, 526070098, 567555267, -62441783881, -78592029786, -59865100161, -45557701898, -23487029223, -15983001654, -17223992331, 3018177047, 4703937958, 6419938876, 10031962286, 10938137818, 8688422327, 4469504805, 587927683, -3366487291, -4926275984, -5095042575, -6377157728, -4048414769, -559860552);
    lemma_double(30nat, 586975583, 412813258, 1752806011, 1198380712, 2028223866, 1801259754, 2033037314, 487632415, 1389635283, 2112946220, 1942998723, 151784568, 526070098, 567555267, 583115745, 2115012745, 787521663, 57483348, 1149913537, 1797108845, 149010913, 1305612400, 237639739, 1767711717, 1844341721, 1351987641, 1495319951, 548284164, 1561324028, 544215342, 80450227, 963765221, 1078895677, 1990850546, 180940187, -53812518784, -119712351490, -132133507048, -119065725192, -93349123959, -63332302882, -28442735228, 8591166643, 10355142982, 14752566419, 15821178058, 7321139329, 4115208628, 4532148597, 6084331779, 4983775318, 4684302690, 7578006893, 8843574135, 4344485652, 1343489792);
    lemma_double(60nat, 1305612400, 237639739, 1767711717, 1844341721, 1351987641, 1495319951, 548284164, 1561324028, 544215342, 80450227, 963765221, 1078895677, 1990850546, 180940187, 508535110, 220609600, 1122887138, 1279424035, 970172668, 802418427, 831098889, 228476787, 987342381, 2094175560, 1885103251, 1118093387, 1482313098, 67932190, 1190457493, 2113139547, 471133872, 1399282126, 661232604, 552128319, 449984, -51843295825, -73984726313, -55659161618, -33524062695, -19015465682, -14893941970, -10887723123, 11036230581, 18061147399, 16047135070, 11324905166, 7626808008, 5431266031, 3326229746, -927405302, 345728312, 2919126857, 2882037391, 1794243837, 1368836930, 766034916);
    lemma_double(120nat, 228476787, 987342381, 2094175560, 1885103251, 1118093387, 1482313098, 67932190, 1190457493, 2113139547, 471133872, 1399282126, 661232604, 552128319, 449984, 501874361, 1714891652, 200331112, 2022130748, 2013150891, 769453422, 1861146977, 704441724, 1010607148, 1191286696, 2041667463, 1794477478, 1850661540, 2013555100, 1428591055, 1735214763, 626063159, 1878639280, 127350723, 212000571, 273098068, -33662064062, -47704118895, -21874310138, -14909058476, -5074178536, -5828875212, -7613658961, 34926693151, 40255665135, 37545310735, 35208906449, 22327690340, 16144380981, 9290061069, -10535453560, -8839818627, -14046764938, -20301215863, -13480374370, -11553334963, -5636436231);
    lemma_double(240nat, 704441724, 1010607148, 1191286696, 2041667463, 1794477478, 1850661540, 2013555100, 1428591055, 1735214763, 626063159, 1878639280, 127350723, 212000571, 273098068, 92221355, 866605659, 509151545, 1831615269, 74700712, 595517289, 1348490012, 1322632721, 2077472355, 1540740566, 1603158471, 2023417179, 1457382457, 968007072, 793438631, 1775822325, 502726285, 900225532, 102420516, 732759447, 460465275, -95749899701, -155707740816, -150372509930, -130958570474, -100903358128, -69642188520, -30929414277, 7553790802, 12959564255, 17210125847, 8958171628, 6169973523, 7516226279, 4771673231, -2202135857, 803598671, 6477639764, 2477236218, 1856820270, 4450031925, 1810912166);
    lemma_double(480nat, 1322632721, 2077472355, 1540740566, 1603158471, 2023417179, 1457382457, 968007072, 793438631, 1775822325, 502726285, 900225532, 102420516, 732759447, 460465275, 1345416917, 741229342, 809780390, 195896220, 1543441462, 1611409488, 1592230383, 259863264, 1182075399, 2083836994, 1027167271, 58092186, 1689455840, 1255016921, 1127184349, 48588803, 1808884120, 739531735, 1626695735, 747655081, 826901402, -78989951838, -120448207735, -100871375628, -74972065515, -48281148919, -28373305942, -20487293747, 13931833371, 21908481555, 22290953090, 26319958791, 25011261724, 16432009355, 7892659672, 4012380393, 9554854322, 12952762279, 11205711412, 3390398630, -85340971, 972437412);
    lemma_add(960nat, 9nat, 259863264, 1182075399, 2083836994, 1027167271, 58092186, 1689455840, 1255016921, 1127184349, 48588803, 1808884120, 739531735, 1626695735, 747655081, 826901402, 1376664870, 36574570, 1928160573, 1962407885, 1663510037, 647561982, 769847015, 469491965, 368216404, 512731201, 1930432655, 1288047098, 1242897166, 1754810551, 727302301, 1132188788, 69923043, 576642529, 536070155, 1556379374, 1860674236, 1283373408, 1346977971, 422725135, 884021675, 1357798334, 1879627734, 695744322, 1668590061, 1567286067, 1687239468, 406244425, 1673407412, 1625366324, 846904901, -3300066305, 1259750770, 9314279073, 7883238345, -3753892564, -4897590933, -1585128421, 12096828373, 13379140787, 12898947779, 16204417523, 20791793238, 17949190710, 7990113209, 4873465882, 8508772069, 426646625, -7179416328, -2802527125, 2078925562, 954795593);
    lemma_double(969nat, 1283373408, 1346977971, 422725135, 884021675, 1357798334, 1879627734, 695744322, 1668590061, 1567286067, 1687239468, 406244425, 1673407412, 1625366324, 846904901, 1477489666, 592112973, 2063636612, 1822507843, 1279688698, 106641722, 2022035138, 1729687068, 365804461, 176687513, 1025732416, 1236019216, 707284690, 1969071466, 1994978009, 759065975, 1637643108, 242656548, 714208991, 551836414, 1635935543, 9279353165, 11658901040, -15821070367, -27536192874, -10411132653, -997408134, 1781976391, 18622383624, 35718774545, 35565879638, 26607025814, 13100919910, 14591162034, 12657960547, 8410953850, 6133901032, -2348974086, -3954197723, 4327132862, -1408535338, -4412265391);
    lemma_double(1938nat, 1729687068, 365804461, 176687513, 1025732416, 1236019216, 707284690, 1969071466, 1994978009, 759065975, 1637643108, 242656548, 714208991, 551836414, 1635935543, 643628297, 1884567767, 715011102, 279026188, 750870417, 2110353704, 480771453, 828263198, 537072903, 1018590773, 1403160545, 1373311851, 310258091, 768719349, 926204968, 70052116, 313699221, 857054980, 686922904, 1915297303, 1831283398, 3285412093, -5059082606, -33040283927, -43472506662, -20685069175, -23453705366, -20512694726, 12511864225, 14229024616, 13585411061, 18418579765, 13236093745, 6189968444, 4889517272, 1129431091, 472978718, -195610256, 3356125287, 8385566182, 5783696643, 1167872168);
    lemma_double(3876nat, 828263198, 537072903, 1018590773, 1403160545, 1373311851, 310258091, 768719349, 926204968, 70052116, 313699221, 857054980, 686922904, 1915297303, 1831283398, 1841466553, 1755553420, 295777295, 91169604, 639579006, 1510639697, 436747122, 372625093, 1227928055, 1289747512, 335009298, 2078184387, 1312145454, 2004358849, 1706508076, 61391931, 1709225153, 829471050, 2070792383, 488833379, 72986532, -13777568003, -26541250721, -20866525214, -2589389705, 12979750158, 6961881873, -1964261760, 7560665670, 8828560821, 8006649936, 10143927037, 8392941827, 5995895190, 3694281681, -5608945353, -2444582720, -3085120739, -7408446714, -8743744869, -5704945349, -3183171830);
}

/// Part 2 of the chain.
proof fn lemma_part_2()
    requires
        generator().times(7752nat) == (Point::Affine { x: literal::fe(372625093, 1227928055, 1289747512, 335009298, 2078184387, 1312145454, 2004358849), y: literal::fe(1706508076, 61391931, 1709225153, 829471050, 2070792383, 488833379, 72986532) }),
    ensures
        generator().times(1985116nat) == (Point::Affine { x: literal::fe(1431558095, 2098964983, 1474763198, 1817250493, 1426321439, 886871820, 1281320088), y: literal::fe(1075641592, 1555200023, 1510354402, 275444988, 2072506596, 811044875, 1372270829) }),
{
    lemma_table();
    lemma_double(7752nat, 372625093, 1227928055, 1289747512, 335009298, 2078184387, 1312145454, 2004358849, 1706508076, 61391931, 1709225153, 829471050, 2070792383, 488833379, 72986532, 797012482, 635698045, 1936650063, 704627692, 1228066068, 2022837904, 1482147009, 1798274736, 1190871454, 83391119, 1105340068, 360463553, 2066202996, 421950530, 396156511, 1669149388, 2068989587, 1758822099, 271163103, 1819171461, 346136225, -34258797726, -60440167813, -41825972208, -64849625492, -62240820334, -49765756325, -21890703463, 27167418604, 40297370108, 32419064712, 29763741918, 28057426938, 17124698245, 7874315851, 4875987369, 14267982964, 11944840846, 10139943259, 9761671023, 7034090689, 4714484199);
    lemma_double(15504nat, 1798274736, 1190871454, 83391119, 1105340068, 360463553, 2066202996, 421950530, 396156511, 1669149388, 2068989587, 1758822099, 271163103, 1819171461, 346136225, 1850680088, 311083954, 1279153657, 2130097948, 1227828030, 2108824342, 792911014, 649656986, 1636849066, 1622065375, 1560114018, 444288571, 1228425177, 401425726, 1586945597, 1354614778, 1822299945, 975627739, 473009850, 116541958, 681098278, 31985866401, 31862952425, 16277792899, -6937527236, -7071415349, -948675878, 108400632, 27700052042, 45576064470, 39974595983, 31126250814, 20373532816, 12763409371, 6482119822, -6646100201, -5911636109, -119980660, 5063204194, 3242933211, 818437405, -1242533999);
    lemma_add(31008nat, 9nat, 649656986, 1636849066, 1622065375, 1560114018, 444288571, 1228425177, 401425726, 1586945597, 1354614778, 1822299945, 975627739, 473009850, 116541958, 681098278, 1376664870, 36574570, 1928160573, 1962407885, 1663510037, 647561982, 769847015, 469491965, 368216404, 512731201, 1930432655, 1288047098, 1242897166, 1754810551, 1945056966, 1297209393, 158346040, 1994066977, 252159324, 690617821, 1360519761, 1794181572, 240892417, 2061411849, 2045362821, 1662125418, 1758373654, 1702968403, 842577997, 1353672176, 1807552877, 609501432, 1974254592, 842009757, 1410235150, 2899502337, 92779419, 3861435452, 7068575937, 613142638, 996439261, 1137278964, 12931780786, 16685674583, 19203043564, 14692819707, 8947597757, 8853851978, 7834739922, -7444770035, -9135622363, -13086999002, -13151087258, -7380359080, -8314337771, -4878978902);
    lemma_double(31017nat, 1794181572, 240892417, 2061411849, 2045362821, 1662125418, 1758373654, 1702968403, 842577997, 1353672176, 1807552877, 609501432, 1974254592, 842009757, 1410235150, 1051631091, 1736446461, 5013180, 1439361588, 234879927, 1387059117, 1854130230, 760568964, 1850181660, 842921833, 2009917838, 525781499, 1440484009, 810759243, 1680654049, 2091685440, 843820495, 762226187, 602286428, 692548594, 523333641, -59311032891, -123793886928, -123236412603, -81393414474, -58899310677, -37531998429, -22997709204, 17248839801, 21295079873, 21200248591, 16420256795, 18583253174, 17068150167, 9904857353, 4971318029, 9852315668, 10610575701, 12400689581, 7789034303, 8855958292, 3041374363);
    lemma_double(62034nat, 760568964, 1850181660, 842921833, 2009917838, 525781499, 1440484009, 810759243, 1680654049, 2091685440, 843820495, 762226187, 602286428, 692548594, 523333641, 1730849054, 594086591, 613602374, 1477718346, 2018019116, 589892982, 369587668, 853562348, 137953217, 162597022, 133414458, 14295226, 2115802711, 274694326, 1606785432, 1368549136, 862210, 2116946828, 1345999594, 1559149627, 1933741205, -30365543977, -55740759039, -45595990149, -28400357777, -26032023358, -14628009689, -12429044547, 18130956320, 25712061011, 18139861569, 11950060074, 7892766764, 3869293631, 3308881564, 12786111506, 13121859897, 4423599924, 4787821764, 3618815638, 2760920318, 3077093110);
    lemma_double(124068nat, 853562348, 137953217, 162597022, 133414458, 14295226, 2115802711, 274694326, 1606785432, 1368549136, 862210, 2116946828, 1345999594, 1559149627, 1933741205, 1392709054, 1247142847, 59617265, 1093734796, 1666512020, 1636816216, 1904306784, 513778704, 1567429214, 1211382451, 541474113, 879770256, 1124159878, 1592098198, 408373484, 128209385, 1858659285, 518142419, 512939519, 620147944, 624197684, 43130045543, 59309181094, 70157297079, 41935817733, 33176455207, 32306052300, 20115006088, 21069120812, 29177803492, 32656610750, 36227436601, 30798414133, 21439043804, 10166155270, -17728144115, -18783484128, -10530475388, -8747424469, -5057087807, -7529601478, -5661371392);
    lemma_double(248136nat, 513778704, 1567429214, 1211382451, 541474113, 879770256, 1124159878, 1592098198, 408373484, 128209385, 1858659285, 518142419, 512939519, 620147944, 624197684, 1641859626, 1414799814, 1052053709, 1857379292, 44968735, 742178632, 524307812, 811881475, 1739987072, 901384151, 1169360175, 271997586, 288262308, 1579117559, 895916466, 1868958527, 615744215, 823843993, 1282333953, 144128890, 1654570902, -42182401455, -53191423456, -34922621866, -37546138058, -38711913961, -30886013294, -16900180027, 8803168041, 15766482913, 12725896886, 8499154403, 5723629467, 4778579020, 3844227827, 4787415438, 5706757337, 2224312530, 1840379453, 2421808698, 1547020470, 200458610);
    lemma_add(496272nat, 7nat, 811881475, 1739987072, 901384151, 1169360175, 271997586, 288262308, 1579117559, 895916466, 1868958527, 615744215, 823843993, 1282333953, 144128890, 1654570902, 1183976815, 763229735, 1391818946, 552406207, 57835454, 1608386991, 1725272370, 1206313512, 270286941, 244827900, 1949990409, 612480876, 776545623, 1342692810, 2035704512, 1375814666, 954006267, 1304496784, 1411650143, 1854225400, 565414411, 1649778457, 28404162, 2018644077, 817671837, 1077853765, 889542486, 77979215, 188167010, 179618055, 150038524, 431564016, 974861802, 2087708386, 1591306322, 1921408278, 1871733372, 4049595344, 7303861423, 5219116570, 2450122916, 208449498, 22540648369, 33546494426, 29593805703, 24986659955, 16818150674, 10236767344, 5987879197, -1192452010, -242582447, -1434794862, 893319176, 5955963732, 4215538564, 2622428639);
    lemma_double(496279nat, 1649778457, 28404162, 2018644077, 817671837, 1077853765, 889542486, 77979215, 188167010, 179618055, 150038524, 431564016, 974861802, 2087708386, 1591306322, 1007278021, 1362646322, 1293042589, 1221567943, 23950499, 2047470699, 1042525810, 1479891613, 20311316, 2043527747, 570223224, 1961958049, 1268507282, 1481949845, 1667179409, 2005740994, 1095689374, 1310484623, 241679496, 485904412, 121488272, -10572707574, 2108309043, 1249080053, 19193718876, 26539161619, 17876550213, 3529795046, 19706041018, 30892783039, 19141023652, 16487739355, 18360564195, 12010402538, 5864219384, -8179181430, -9111286459, -10152688937, -8472252310, -10378558408, -8483681015, -3270950133);
    lemma_double(992558nat, 1479891613, 20311316, 2043527747, 570223224, 1961958049, 1268507282, 1481949845, 1667179409, 2005740994, 1095689374, 1310484623, 241679496, 485904412, 121488272, 1977069105, 1095268985, 1859206163, 547583563, 1008984236, 544870727, 281354047, 1431558095, 2098964983, 1474763198, 1817250493, 1426321439, 886871820, 1281320088, 1075641592, 1555200023, 1510354402, 275444988, 2072506596, 811044875, 1372270829, -35521840354, -87638864385, -86492078307, -69892577268, -63363605325, -32537195523, -22852332365, 10628253368, 13553155943, 11063172441, 6938593714, 5994618507, 3621551891, 3095320958, -683963832, -926202428, 1373373953, -735686656, 1139450820, -846914523, 352877975);
}

/// Part 3 of the chain.
proof fn lemma_part_3()
    requires
        generator().times(1985116nat) == (Point::Affine { x: literal::fe(1431558095, 2098964983, 1474763198, 1817250493, 1426321439, 886871820, 1281320088), y: literal::fe(1075641592, 1555200023, 1510354402, 275444988, 2072506596, 811044875, 1372270829) }),
    ensures
        generator().times(508190023nat) == (Point::Affine { x: literal::fe(1807910450, 669065471, 1242209466, 1911183313, 1026290533, 1934364460, 1697791009), y: literal::fe(547701777, 1414603549, 304862350, 117939791, 779589044, 615254942, 6848146) }),
{
    lemma_table();
    lemma_double(1985116nat, 1431558095, 2098964983, 1474763198, 1817250493, 1426321439, 886871820, 1281320088, 1075641592, 1555200023, 1510354402, 275444988, 2072506596, 811044875, 1372270829, 1771880929, 1610457926, 952108003, 1400485733, 956038041, 162727375, 2119120082, 985331469, 2029820073, 1733078277, 352819276, 1310125708, 728494972, 1304712375, 507325760, 423769852, 1039003322, 882345050, 718457073, 361263946, 2048290613, -48398133388, -60255738703, -56513437204, -34545734120, -20543800756, -13320237416, -10271091023, 24501552754, 29179074168, 25069866732, 22134381383, 11493330408, 14476511036, 11868205164, 4549020639, 2905110789, 7644137272, 6495670764, 2463868367, 1120091168, 1378108266);
    lemma_double(3970232nat, 985331469, 2029820073, 1733078277, 352819276, 1310125708, 728494972, 1304712375, 507325760, 423769852, 1039003322, 882345050, 718457073, 361263946, 2048290613, 1136180465, 1827133720, 534370535, 58617087, 1800868840, 456980789, 1119647213, 543532973, 647081913, 1570560830, 112523969, 1468570789, 786511785, 175325898, 194767471, 1644951981, 1317779183, 1743540542, 2018664009, 391847270, 2117249786, -31817501636, -51783333026, -35972575793, -19937705240, -16855004989, -13655734967, -9401244185, 11848626808, 19238458547, 12633638808, 13434522980, 10528466841, 7987924046, 4647801566, 9806205958, 8281898340, 2608812533, 5143665436, 4209017316, 4763940838, 2965851327);
    lemma_add(7940464nat, 5nat, 543532973, 647081913, 1570560830, 112523969, 1468570789, 786511785, 175325898, 194767471, 1644951981, 1317779183, 1743540542, 2018664009, 391847270, 2117249786, 1802183323, 578369319, 705392214, 905316741, 1750073676, 1742753354, 654289264, 2084298943, 733094976, 245856367, 2114401684, 1776653011, 910007018, 1131772051, 112697230, 645101272, 1761304732, 707514887, 527208848, 723005852, 66606641, 588279572, 1942444696, 936755171, 1006681709, 2005233838, 578322428, 1215375015, 955174453, 1910355157, 2054010822, 307800772, 2120261352, 2102046578, 1948324611, 4713502731, 8290973669, 6628868135, 3947945361, 2145818672, 1566075003, 657674971, 7934832344, 8429188728, 4553938559, 3738926539, 3001041193, 1711446710, 1557640335, -1840704548, -7220024300, -6536119816, -3470114001, -2558855558, -2217635887, -1114172445);
    lemma_double(7940469nat, 588279572, 1942444696, 936755171, 1006681709, 2005233838, 578322428, 1215375015, 955174453, 1910355157, 2054010822, 307800772, 2120261352, 2102046578, 1948324611, 1665501751, 1061315086, 1038535293, 1086722671, 569865749, 2090190834, 1078386967, 911260252, 1731132243, 1415556659, 1755767639, 223605557, 161019921, 130769395, 1776391649, 252213815, 516784808, 366866348, 457029599, 1501801084, 1348183938, -6877679837, -17240944380, -4395819550, 1083431150, 17811012263, 7482677431, 1118461222, 19767720595, 29417555170, 23249921248, 22524156113, 20940352684, 13970975086, 6515297263, 5193709981, 4476100798, 10463102305, 13220293469, 11986948883, 6914232959, 3104577622);
    lemma_double(15880938nat, 911260252, 1731132243, 1415556659, 1755767639, 223605557, 161019921, 130769395, 1776391649, 252213815, 516784808, 366866348, 457029599, 1501801084, 1348183938, 635646785, 1784800791, 434501632, 637521057, 463850756, 658041027, 926590086, 307603121, 2043671230, 1034779690, 1542611994, 1117030102, 1561751544, 1146000165, 120438688, 384784049, 199495441, 301486850, 1303807799, 827377394, 437825264, 7180976921, 7737626193, 2981433280, 3753167709, 5846278426, 6807069383, 2745389178, 10681048740, 11723094092, 8577258679, 6664587907, 6115048085, 5161473732, 3244060600, -6696360144, -6659518626, -5752379830, -7087042095, -7712265252, -5866008618, -2670224103);
    lemma_double(31761876nat, 307603121, 2043671230, 1034779690, 1542611994, 1117030102, 1561751544, 1146000165, 120438688, 384784049, 199495441, 301486850, 1303807799, 827377394, 437825264, 1353886490, 1506569441, 1563271158, 1044037732, 1252211201, 347872764, 1520661810, 1008627853, 586779483, 642065195, 1511549824, 1063359430, 1973131678, 1303122410, 1797499602, 396670937, 1316086821, 1287799646, 518317171, 748726121, 1946421203, -59572967036, -79423361970, -69501817788, -50808144894, -40217426196, -25520365463, -15791288529, 20300584865, 30119846062, 22472177229, 18455745636, 12229983354, 10660932536, 8029327156, 3232141805, 2636789081, -673679523, -446660094, -1313777077, -784904998, -704181014);
    lemma_double(63523752nat, 1008627853, 586779483, 642065195, 1511549824, 1063359430, 1973131678, 1303122410, 1797499602, 396670937, 1316086821, 1287799646, 518317171, 748726121, 1946421203, 2115657251, 548124628, 1506028931, 320088137, 383298635, 350088909, 915142465, 1837435361, 1871226733, 1436917114, 2017920106, 848975912, 431303920, 1562736130, 1796920218, 779664775, 1380980755, 758854085, 19630203, 74045835, 270798075, -31836367376, -58488385764, -66461262857, -68952177024, -55544983647, -26859284464, -6739782306, 7505238778, 11670332822, 9539825085, 4547133007, 4654330878, 4212390307, 3766577806, 586311489, -2332535804, -2438684198, -77812705, 3172665035, 2042688073, -830203145);
    lemma_double(127047504nat, 1837435361, 1871226733, 1436917114, 2017920106, 848975912, 431303920, 1562736130, 1796920218, 779664775, 1380980755, 758854085, 19630203, 74045835, 270798075, 2072017986, 1071374264, 1701020337, 1164956441, 755601484, 398834221, 291558338, 984309474, 2034986485, 989893057, 1702038508, 1239687263, 1575805168, 451837474, 822220367, 2049056788, 956359206, 869421537, 1531964175, 1356624138, 1161760932, -66875484974, -88727022874, -78562578161, -58844633488, -32999705808, -32910139170, -26394822822, 10796240410, 13200508925, 10364302005, 7188657125, 5389184801, 3922552806, 2931215143, -1147580341, 297699211, 2620032553, 2013748186, 984198019, 202826341, 1066248938);
    lemma_double(254095008nat, 984309474, 2034986485, 989893057, 1702038508, 1239687263, 1575805168, 451837474, 822220367, 2049056788, 956359206, 869421537, 1531964175, 1356624138, 1161760932, 1183652775, 1148111065, 602069744, 2002088461, 738102050, 1149596459, 1065145528, 1645794354, 110891929, 704785699, 64525864, 64086139, 788767183, 13995324, 479853169, 198858979, 1865750218, 923108127, 1811882947, 514770316, 904936493, -22164729181, -39577486765, -29387165284, -18119298008, -7763743015, -2277085326, -6246540224, 16580846351, 25919802129, 24332535966, 18058786471, 12969289608, 9314603807, 6318089887, 15862010348, 21932715030, 18582447997, 13216203393, 9835156449, 5094333025, 4001015238);
    lemma_add(508190016nat, 7nat, 1645794354, 110891929, 704785699, 64525864, 64086139, 788767183, 13995324, 479853169, 198858979, 1865750218, 923108127, 1811882947, 514770316, 904936493, 1183976815, 763229735, 1391818946, 552406207, 57835454, 1608386991, 1725272370, 1206313512, 270286941, 244827900, 1949990409, 612480876, 776545623, 1342692810, 317733688, 591866544, 176873962, 1989851061, 286596977, 1272070469, 1647930988, 1807910450, 669065471, 1242209466, 1911183313, 1026290533, 1934364460, 1697791009, 547701777, 1414603549, 304862350, 117939791, 779589044, 615254942, 6848146, 7520556270, 13169103727, 15843189903, 9705827632, 11160609324, 12199033895, 5033268157, 8357472915, 18603074042, 25382401428, 16966131923, 14652391809, 13144752194, 6927710926, -12335985818, -21801386766, -27466625790, -20083282628, -15664407134, -13450429072, -6811522593);
}

/// Part 4 of the chain.
proof fn lemma_part_4()
    requires
        generator().times(508190023nat) == (Point::Affine { x: literal::fe(1807910450, 669065471, 1242209466, 1911183313, 1026290533, 1934364460, 1697791009), y: literal::fe(547701777, 1414603549, 304862350, 117939791, 779589044, 615254942, 6848146) }),
    ensures
        generator().times(260193291936nat) == (Point::Affine { x: literal::fe(1252999831, 1469110994, 7555617, 756342528, 326323785, 1628319337, 927039958), y: literal::fe(1761128968, 1457402510, 2113988411, 63658926, 368603018, 1874050206, 1365999835) }),
{
    lemma_table();
    lemma_double(508190023nat, 1807910450, 669065471, 1242209466, 1911183313, 1026290533, 1934364460, 1697791009, 547701777, 1414603549, 304862350, 117939791, 779589044, 615254942, 6848146, 910935799, 717108291, 1250399671, 236651840, 992497597, 202712861, 669443295, 1903717905, 841909288, 677838569, 1808338477, 1838942642, 1129648184, 895317742, 1272080139, 99448404, 2067608502, 1815312071, 1752805749, 2016526723, 626941609, -71792881483, -126160117501, -124992607318, -99581594186, -82055612292, -62639199143, -30924840932, 4934477132, 9805502843, 6877484665, 5271428412, 4307474134, 2552952491, 2531028297, 3455839878, 3836297355, 3328346143, 2353902327, 2185545283, 2352119346, 1121159289);
    lemma_double(1016380046nat, 1903717905, 841909288, 677838569, 1808338477, 1838942642, 1129648184, 895317742, 1272080139, 99448404, 2067608502, 1815312071, 1752805749, 2016526723, 626941609, 959611304, 1685741665, 813182452, 1570639657, 990054574, 240242540, 1190730512, 2004846472, 1040784686, 589115904, 424979473, 1389935817, 46121261, 403351893, 714358622, 1600204857, 912514847, 1493810903, 1509681269, 1989510031, 1759065456, -35273685316, -43311260940, -40839325950, -37185319922, -20008027001, -7962248908, -5740435867, 18067854658, 20715370962, 17129219827, 14305993901, 8430962501, 7114562983, 5362478312, 8331416097, 11859948355, 12495175043, 8620720467, 6246991512, 4690410924, 3056998688);
    lemma_double(2032760092nat, 2004846472, 1040784686, 589115904, 424979473, 1389935817, 46121261, 403351893, 714358622, 1600204857, 912514847, 1493810903, 1509681269, 1989510031, 1759065456, 333532288, 1312832826, 1651025854, 862703714, 1253434410, 1206785995, 1992132209, 506534447, 128364447, 1742314980, 49234514, 799317067, 992757400, 2027811427, 1044647955, 1288300267, 1950356317, 742574181, 2079875123, 630938266, 973213938, 41238670225, 53846998813, 54742800817, 51163504459, 41278518017, 35472674361, 14982053482, 26752809521, 40440823377, 30896605956, 26540369221, 23099846596, 19342042005, 9990316910, -5137074534, -12956828638, -7581185812, -5622278374, -11163125632, -11584112255, -3544948034);
    lemma_double(4065520184nat, 506534447, 128364447, 1742314980, 49234514, 799317067, 992757400, 2027811427, 1044647955, 1288300267, 1950356317, 742574181, 2079875123, 630938266, 973213938, 980692758, 1733634658, 436782177, 1611926082, 1631090789, 1852003698, 1289813808, 1679140995, 1384259700, 1337447443, 2053862091, 927753947, 624262755, 1353688326, 1318731141, 1423149198, 374574531, 128686984, 316804967, 1195155151, 764277307, 27409694016, 4807858325, 15610797560, 14343387952, -16567921740, -23633881985, -10621335387, 27081918235, 40472180179, 39486542556, 34478187901, 26178609376, 15650482333, 8431590986, -7619945740, -11673703194, -7277200122, 456035842, 2865923194, 2447248347, -1200061564);
    lemma_add(8131040368nat, 5nat, 1679140995, 1384259700, 1337447443, 2053862091, 927753947, 624262755, 1353688326, 1318731141, 1423149198, 374574531, 128686984, 316804967, 1195155151, 764277307, 1802183323, 578369319, 705392214, 905316741, 1750073676, 1742753354, 654289264, 2084298943, 733094976, 245856367, 2114401684, 1776653011, 910007018, 1131772051, 685316271, 2012978074, 1758747845, 678773400, 552891008, 469590159, 1178897507, 892776104, 1836585766, 1127924064, 1907024988, 262681803, 1138825504, 585153804, 2013205184, 1741047877, 687342385, 1297609706, 541411198, 1496629664, 255230233, -1754319993, -4271538665, -4628523309, -152998774, 2316427641, -735491791, -289839304, 16995485653, 23304206407, 15173784459, 10320803389, 7834049068, 7287593184, 4731439103, 1989014002, 5595657087, 4358726665, 3409688483, 1370911746, 2486848281, 2022239461);
    lemma_double(8131040373nat, 892776104, 1836585766, 1127924064, 1907024988, 262681803, 1138825504, 585153804, 2013205184, 1741047877, 687342385, 1297609706, 541411198, 1496629664, 255230233, 115509602, 243706392, 575924773, 1068229062, 1275678020, 990461423, 1724925647, 1747771220, 684734387, 817906320, 309849295, 1578902725, 2066816304, 2069247485, 1195915795, 1018198481, 1948107789, 1348088419, 1962962800, 856802566, 1540002021, -9063729609, -26189433283, -13081065489, -3793313598, -2566688192, -2637762068, -5857068688, 11052002382, 20100789669, 22736386030, 21623727106, 16134332931, 12769808371, 5828049446, 4715541798, -483240715, -5158029373, -13778119129, -14101432081, -9652246053, -3317110504);
    lemma_double(16262080746nat, 1747771220, 684734387, 817906320, 309849295, 1578902725, 2066816304, 2069247485, 1195915795, 1018198481, 1948107789, 1348088419, 1962962800, 856802566, 1540002021, 803803294, 41599182, 99953402, 909825341, 1797967039, 967912141, 225154056, 1821147579, 1820807592, 30929355, 76222343, 323452848, 1681905251, 780834115, 1370631543, 325597989, 1726221592, 1999833555, 1082629764, 1075059984, 1814965512, -23651959045, -35975577149, -46651449690, -76499806638, -91287855180, -68517048201, -28054293066, 8478682259, 16761272631, 16300010872, 10266159646, 4878608693, 1618495105, 836238564, 5041757012, 9979070170, 12041520715, 11402393576, 7282043809, 2083347055, 1200907905);
    lemma_double(32524161492nat, 1821147579, 1820807592, 30929355, 76222343, 323452848, 1681905251, 780834115, 1370631543, 325597989, 1726221592, 1999833555, 1082629764, 1075059984, 1814965512, 976679268, 42616879, 405650302, 1524214572, 399244129, 1060745770, 909838669, 375488757, 2024658771, 1312118850, 967168387, 2050141179, 622138992, 698469996, 1803402278, 1017264670, 1034573748, 962213528, 315588963, 192296397, 941162486, -624945430, 20308623296, 34292404980, 5600845231, -10263170642, -4004509131, -3467690312, 5505170803, 12767892456, 14685517228, 10856499501, 7640864935, 6229069857, 3284454697, -8955346575, -8537233491, -6850067072, -3357816625, 956643260, 1703086317, -525848373);
    lemma_double(65048322984nat, 375488757, 2024658771, 1312118850, 967168387, 2050141179, 622138992, 698469996, 1803402278, 1017264670, 1034573748, 962213528, 315588963, 192296397, 941162486, 1818108749, 356238389, 2056957735, 136624698, 2129542487, 870342391, 1481322488, 1819905358, 1373501050, 524402757, 766074370, 357645940, 970635423, 1902704890, 994882765, 703979569, 549848796, 378724695, 768643199, 6797819, 682063158, -31896189156, -48145733911, -35024486442, -25000232288, -10750230960, -7442616646, -3502625235, 13795713223, 33455032861, 28518727703, 23292791597, 21666146132, 11240964025, 10029013002, 1498502461, 7635003108, 4824085955, 1209855809, -3342325831, -6097590925, -1901592160);
    lemma_double(130096645968nat, 1819905358, 1373501050, 524402757, 766074370, 357645940, 970635423, 1902704890, 994882765, 703979569, 549848796, 378724695, 768643199, 6797819, 682063158, 2017856159, 567656850, 375619908, 579037652, 320273220, 299397384, 1015658810, 1252999831, 1469110994, 7555617, 756342528, 326323785, 1628319337, 927039958, 1761128968, 1457402510, 2113988411, 63658926, 368603018, 1874050206, 1365999835, -41983482529, -48587305064, -36171341592, -28066966553, -34571122786, -43385461982, -25116774760, 6015046838, 6382459726, 5779760897, 4960005156, 3450739319, 4218889997, 3805963902, 1441962200, 1832098863, 2177711929, 1155955647, -491919646, 1389120259, 2486654441);
}

/// Part 5 of the chain.
proof fn lemma_part_5()
    requires
        generator().times(260193291936nat) == (Point::Affine { x: literal::fe(1252999831, 1469110994, 7555617, 756342528, 326323785, 1628319337, 927039958), y: literal::fe(1761128968, 1457402510, 2113988411, 63658926, 368603018, 1874050206, 1365999835) }),
    ensures
        generator().times(66609482739516nat) == (Point::Affine { x: literal::fe(1789243494, 882083269, 1711676689, 787563732, 1027424611, 220388244, 745267870), y: literal::fe(1799144586, 2015691065, 400964823, 425595398, 1334902045, 806769535, 718900716) }),
{
    lemma_table();
    lemma_add(260193291936nat, 15nat, 1252999831, 1469110994, 7555617, 756342528, 326323785, 1628319337, 927039958, 1761128968, 1457402510, 2113988411, 63658926, 368603018, 1874050206, 1365999835, 1985005590, 1034601703, 728293283, 1421243589, 1794146164, 691082254, 1568020826, 181141497, 400751978, 83536582, 596391389, 2106082275, 1086428455, 1852170896, 764897295, 1260513296, 847011492, 279746671, 1924887419, 1665248829, 574468645, 325585723, 2088819144, 1361367886, 471710148, 73803411, 723320565, 878710378, 540879354, 26873795, 2022982019, 1616257868, 2059990115, 584322877, 557508827, 6493550287, 14874342291, 9627428195, 3491705462, 3779309377, 2679283977, 1373773660, 12820151347, 21597120952, 25050856159, 22379042440, 13557746553, 7163797237, 4414526496, -2399604219, -195301577, 5676983900, 6565970434, 4343322165, 1485116548, -727739811);
    lemma_double(260193291951nat, 325585723, 2088819144, 1361367886, 471710148, 73803411, 723320565, 878710378, 540879354, 26873795, 2022982019, 1616257868, 2059990115, 584322877, 557508827, 594422033, 720454036, 1553039109, 2099176212, 1098801542, 753537153, 1055311908, 1849785120, 1406000880, 2003076371, 1221438297, 1497458147, 925429334, 1547657848, 276720224, 1541841849, 104993702, 463060839, 2087459344, 1742515094, 463734842, 2016507264, 14077966893, 20448977155, 15807959033, 2596115169, 441580322, 2274028842, 20051979661, 30282791034, 26162539779, 17565955848, 10961644407, 9076347586, 6336364704, -10682611503, -16498598007, -15261126922, -11952209367, -6279825559, -4569998868, -3869600173);
    lemma_double(520386583902nat, 1849785120, 1406000880, 2003076371, 1221438297, 1497458147, 925429334, 1547657848, 276720224, 1541841849, 104993702, 463060839, 2087459344, 1742515094, 463734842, 1899103626, 1559003164, 683154545, 152990615, 1435160741, 944069979, 1023948397, 1911738176, 1831249797, 1141108465, 1690811065, 1289795874, 1631030810, 1725406282, 1141927852, 62538294, 1561996832, 570600065, 102575807, 196932640, 1234043344, -65342271779, -96776391067, -66777098233, -43619647760, -33632699277, -29319800274, -24497676161, 13242134280, 18502990568, 14729139464, 14517296140, 12931176428, 9063694147, 5614323240, -2455068844, -671847212, -1955202014, -3456034871, -3041163219, -2560080221, -535689224);
    lemma_double(1040773167804nat, 1911738176, 1831249797, 1141108465, 1690811065, 1289795874, 1631030810, 1725406282, 1141927852, 62538294, 1561996832, 570600065, 102575807, 196932640, 1234043344, 585319438, 1882265592, 500517688, 293367117, 1078961973, 1725203020, 1942457878, 1235939345, 2054692930, 1913494498, 1552189328, 1635681053, 1149841262, 2043271953, 2109316328, 1849569064, 1432788792, 1618599550, 51781408, 1435256538, 1792006401, -78304045097, -107790103706, -104753465869, -90032476954, -67129727761, -44374126746, -26697243557, 22858653949, 24323041455, 19150576915, 24712621154, 27048930351, 21282877874, 9975127560, -4685787334, -6264607369, -2346145390, -898413486, 803947950, -718111698, -549701355);
    lemma_double(2081546335608nat, 1235939345, 2054692930, 1913494498, 1552189328, 1635681053, 1149841262, 2043271953, 2109316328, 1849569064, 1432788792, 1618599550, 51781408, 1435256538, 1792006401, 422074237, 1526340721, 1705707002, 1422122702, 1606999253, 634463831, 1445679, 2061034428, 13039328, 1239972086, 940821296, 454197568, 320025420, 1659962058, 1853006307, 1742947921, 650242808, 1046334027, 1935161588, 1242767722, 615098569, -85993106486, -124071402409, -96115319661, -75488580368, -60423574876, -58656082491, -35322213459, 15898862137, 20400182981, 12747801208, 6839632817, 4617254807, 4833233451, 4431682931, 11789032693, 16656351202, 12907938984, 8074024918, 4136055737, 3589249858, 3140388949);
    lemma_double(4163092671216nat, 2061034428, 13039328, 1239972086, 940821296, 454197568, 320025420, 1659962058, 1853006307, 1742947921, 650242808, 1046334027, 1935161588, 1242767722, 615098569, 1222240857, 2020216626, 1552708757, 672280152, 1526061059, 775819057, 683860917, 1482120163, 1406805720, 1542287697, 617475691, 2095308436, 15354416, 1393040287, 1555164127, 841619582, 760904417, 1698490881, 1261731635, 2107687223, 2052266238, 20686474877, 13650993066, -7141247428, 2768696624, 5102539134, -12457189546, -12999337044, 17653750940, 25385661869, 19148950352, 14654653302, 10433406314, 7355202209, 5350500212, -1510546043, -5676457822, -4621895407, -2631258629, -579210239, -1015176755, -933116783);
    lemma_double(8326185342432nat, 1482120163, 1406805720, 1542287697, 617475691, 2095308436, 15354416, 1393040287, 1555164127, 841619582, 760904417, 1698490881, 1261731635, 2107687223, 2052266238, 358085763, 1244379097, 1082132320, 1254799247, 1638197429, 1082538754, 118056408, 1347783374, 1729106442, 1985551604, 307541818, 1468399340, 630740255, 784860585, 478370130, 1580004375, 879840287, 753828457, 813513478, 947566577, 1623367143, -1201214450, -22654486120, 4851281382, -4605696788, -5030464261, -9116530099, -14394838520, 15895143923, 23191676183, 18072300014, 10754442938, 5360291540, 3944498695, 3726722542, 2057946415, 4052400974, 2593172139, 1319152846, 1918250711, 972704434, -152291446);
    lemma_add(16652370684864nat, 15nat, 1347783374, 1729106442, 1985551604, 307541818, 1468399340, 630740255, 784860585, 478370130, 1580004375, 879840287, 753828457, 813513478, 947566577, 1623367143, 1985005590, 1034601703, 728293283, 1421243589, 1794146164, 691082254, 1568020826, 181141497, 400751978, 83536582, 596391389, 2106082275, 1086428455, 1852170896, 178575319, 144880808, 498928267, 1950949916, 559071547, 124545711, 927337747, 476753032, 179039449, 531723933, 1189697562, 46959080, 1266015293, 348526224, 1434333997, 2089070315, 1063409124, 1835083568, 452910102, 1479553529, 62320770, 1463969319, 41544991, 5706039775, 5892671874, 752492500, 912197482, 2095165963, 6056218255, 7694351515, 11338495529, 8155187140, 2499685398, 3353816923, 3431365476, 8625878397, 7694061807, 1515050114, 4461399597, 2880513523, 1822223211, 939364321);
    lemma_double(16652370684879nat, 476753032, 179039449, 531723933, 1189697562, 46959080, 1266015293, 348526224, 1434333997, 2089070315, 1063409124, 1835083568, 452910102, 1479553529, 62320770, 813770733, 326510233, 2066608189, 1805164301, 1517688833, 2113971778, 264670928, 1806557255, 682702812, 1414015857, 1539423935, 1283436448, 1655210745, 204323436, 2124545530, 1260440838, 1458315569, 888822466, 1983288537, 984782989, 1828319869, 34132081625, 33870505786, 21877563421, 17215833221, 6240097012, 5916540148, 6869656492, 34078224120, 46392013679, 34457924459, 24764339241, 13766142121, 7321556709, 5422115483, -13457808587, -15801984344, -13411779357, -8344769581, -3592927266, -2729195016, -2739745098);
    lemma_double(33304741369758nat, 1806557255, 682702812, 1414015857, 1539423935, 1283436448, 1655210745, 204323436, 2124545530, 1260440838, 1458315569, 888822466, 1983288537, 984782989, 1828319869, 487408731, 1243055813, 143623495, 2014206754, 1440405001, 532504780, 678159394, 1789243494, 882083269, 1711676689, 787563732, 1027424611, 220388244, 745267870, 1799144586, 2015691065, 400964823, 425595398, 1334902045, 806769535, 718900716, -22615546530, -32541317724, -20475232628, -7668836283, -3073050330, -1319338944, -1466001447, 18043313349, 21687544578, 17017406743, 12345413124, 7863665556, 4291964764, 3677385660, 1971797435, 9075909112, 8384627448, 2658841401, 2130916733, 220003670, 679283285);
}

/// Part 6 of the chain.
proof fn lemma_part_6()
    requires
        generator().times(66609482739516nat) == (Point::Affine { x: literal::fe(1789243494, 882083269, 1711676689, 787563732, 1027424611, 220388244, 745267870), y: literal::fe(1799144586, 2015691065, 400964823, 425595398, 1334902045, 806769535, 718900716) }),
    ensures
        generator().times(17052027581317040nat) == (Point::Affine { x: literal::fe(856128344, 1046963855, 529556808, 824718572, 385383074, 785423984, 1925851799), y: literal::fe(391630463, 928162105, 1214344010, 1446155172, 504434907, 215722538, 98512208) }),
{
    lemma_table();
    lemma_double(66609482739516nat, 1789243494, 882083269, 1711676689, 787563732, 1027424611, 220388244, 745267870, 1799144586, 2015691065, 400964823, 425595398, 1334902045, 806769535, 718900716, 1675124902, 366272744, 2094971384, 1897116651, 1344626668, 1584993111, 1884419075, 50139769, 563768692, 1724785834, 501128016, 721177090, 730880626, 782798934, 1800042780, 928010519, 1354444424, 1005410290, 283624853, 1170482451, 594982334, 16910477017, 12048779203, 9806751650, 19216510096, 14538992721, 9590760450, 2818745752, 32112563399, 55936499516, 52267683316, 37558911623, 29516514549, 23428782229, 12841008918, 2451361123, 716251610, 2092122243, 1798144045, -1136732164, -188344616, 2105902532);
    lemma_add(133218965479032nat, 7nat, 50139769, 563768692, 1724785834, 501128016, 721177090, 730880626, 782798934, 1800042780, 928010519, 1354444424, 1005410290, 283624853, 1170482451, 594982334, 1183976815, 763229735, 1391818946, 552406207, 57835454, 1608386991, 1725272370, 1206313512, 270286941, 244827900, 1949990409, 612480876, 776545623, 1342692810, 1651938388, 977748835, 1965883506, 1095085468, 958352221, 436204216, 1502176785, 698394263, 931664875, 1087187278, 1753643778, 2112497230, 849555487, 678957360, 1294850362, 1462690001, 1417567340, 1547283735, 1367753856, 1244544903, 1368780916, 5862596352, 7654854004, 7170507833, 3671448227, 4280185993, 6331033324, 3231512993, 17124113639, 29278996589, 24133569518, 16514766261, 11701978212, 10717127251, 8238036999, -7848178603, -6979444105, -7305649316, -9647197306, -4733340144, -1677756842, -1927314297);
    lemma_double(133218965479039nat, 698394263, 931664875, 1087187278, 1753643778, 2112497230, 849555487, 678957360, 1294850362, 1462690001, 1417567340, 1547283735, 1367753856, 1244544903, 1368780916, 801970571, 964723466, 352444233, 1071634590, 365094826, 2095488770, 124073707, 1664597147, 674817547, 539074797, 144538090, 1842498291, 1419844186, 953136106, 355266649, 1566686041, 1602327239, 1170059097, 873270109, 1093468698, 473877520, -41203046376, -60329656220, -40729842373, -23158616145, -5476323463, -4229675328, -8150461506, 6166047336, 15301982189, 11551087091, 14171495470, 8833892594, 3030824089, 2672388787, 3371588410, 8542921350, 4766413959, -2179389471, -2406170791, -1445182011, 734909751);
    lemma_double(266437930958078nat, 1664597147, 674817547, 539074797, 144538090, 1842498291, 1419844186, 953136106, 355266649, 1566686041, 1602327239, 1170059097, 873270109, 1093468698, 473877520, 2041677141, 1870723635, 439570998, 614864375, 1711845518, 711750013, 665466982, 1582783517, 170785038, 1627955802, 1639341654, 1249008167, 2098160572, 835851097, 1439872106, 328928152, 1409262088, 1983365632, 421991129, 1123242757, 1865836534, 1779560602, -10497815755, -27625601766, -37755284674, -34751037711, -15934043196, -5234395890, 14207338970, 21239121904, 16305603671, 13068677845, 10595106988, 6996631906, 4032402050, -6286421845, -5934785680, -6085062232, -4334966611, -1461549476, -654097147, -1363098874);
    lemma_double(532875861916156nat, 1582783517, 170785038, 1627955802, 1639341654, 1249008167, 2098160572, 835851097, 1439872106, 328928152, 1409262088, 1983365632, 421991129, 1123242757, 1865836534, 1001388575, 196344744, 1370655998, 1355559100, 1927806819, 1698472805, 1059509143, 515182148, 276926310, 631240332, 2053059018, 560530496, 356666539, 229010420, 503265103, 952842720, 1541063761, 116997631, 1427944444, 17466214, 978022225, -38661490824, -54864815077, -44661708543, -34025986390, -19375425212, -7278932623, -2094522127, 24637767511, 41027379347, 39219927249, 31147318611, 21202853847, 11397527578, 6232145459, 10409921802, 17428716293, 19530722500, 18820898732, 15412429090, 7562780800, 2878695112);
    lemma_add(1065751723832312nat, 3nat, 515182148, 276926310, 631240332, 2053059018, 560530496, 356666539, 229010420, 503265103, 952842720, 1541063761, 116997631, 1427944444, 17466214, 978022225, 467654231, 140529359, 225453094, 213767998, 2119372174, 826826390, 509908472, 910517402, 540189181, 1590228616, 15157234, 601371048, 1082043944, 1009642449, 1135027346, 1730495999, 899152841, 2109914792, 423085766, 1431045051, 1592535578, 2015813747, 916861282, 711311517, 1108896860, 742691841, 804754611, 1147618444, 1169976785, 1893128197, 1058340224, 376747257, 702294069, 1288399973, 1686601007, 6127023958, 355281839, -2063149565, 6400585553, 6331152601, 2949436823, -209891024, 23767273680, 37052577859, 33761729826, 22843240171, 19734087913, 16361666244, 10038485202, -8100099409, -7406373241, -4151808739, -5661470246, -6913559554, -7490996569, -3622253521);
    lemma_double(1065751723832315nat, 2015813747, 916861282, 711311517, 1108896860, 742691841, 804754611, 1147618444, 1169976785, 1893128197, 1058340224, 376747257, 702294069, 1288399973, 1686601007, 1301205840, 1919170840, 1441209987, 689236164, 1705802165, 824953985, 1134436279, 1348401721, 2095631601, 1171922041, 1874703647, 1407515331, 1805951856, 97146934, 1550914152, 1610163722, 516990935, 962082015, 383979645, 1849327943, 1795080494, 4608577916, 4906275927, -4563096759, -278877471, 2063513866, -796636898, -2005169702, 22110615895, 32303664060, 24064996856, 20281598978, 15099582367, 10668229041, 7214249219, -6417990344, -7650611879, -8587878570, -4347678350, -1587902936, -145089267, 250392450);
    lemma_double(2131503447664630nat, 1348401721, 2095631601, 1171922041, 1874703647, 1407515331, 1805951856, 97146934, 1550914152, 1610163722, 516990935, 962082015, 383979645, 1849327943, 1795080494, 39617077, 450532486, 471753125, 1490326852, 996058423, 797833321, 1218171705, 258801869, 1765699823, 590851693, 875381059, 995540620, 1347341750, 704589250, 520807506, 730664413, 1498860248, 918043587, 606327698, 496605265, 1206261745, -46104920360, -71359002967, -42234602112, -24399979240, -3588632369, 1788299502, -8674362937, 11309938416, 17408029380, 18726481230, 14793465696, 9646175924, 7329945051, 3955546721, 5693377242, 9066775564, 6153189305, 3138416744, 1631350601, -346652792, 852132626);
    lemma_double(4263006895329260nat, 258801869, 1765699823, 590851693, 875381059, 995540620, 1347341750, 704589250, 520807506, 730664413, 1498860248, 918043587, 606327698, 496605265, 1206261745, 110363673, 1424035800, 1861266599, 1917824743, 198442826, 1540542813, 1144837161, 944673884, 532207767, 1154389940, 1234648639, 1984532844, 737812444, 1609344674, 2014662042, 591532812, 1622280137, 1317129297, 1344894247, 227187604, 2018480184, -7560462484, -4209234022, -9221241927, -18107384094, -11035714393, 465312568, -2760054667, 22900604629, 37843775369, 27259478338, 16365645024, 16468645402, 11817522007, 6096096124, -3738341676, -7098054337, -10821496336, -5806905063, -1895364624, -5242103893, -1814345906);
    lemma_double(8526013790658520nat, 944673884, 532207767, 1154389940, 1234648639, 1984532844, 737812444, 1609344674, 2014662042, 591532812, 1622280137, 1317129297, 1344894247, 227187604, 2018480184, 1663147998, 1888411722, 779443080, 2127644570, 1625585, 1166333290, 820324611, 856128344, 1046963855, 529556808, 824718572, 385383074, 785423984, 1925851799, 391630463, 928162105, 1214344010, 1446155172, 504434907, 215722538, 98512208, -13343499247, -49651396630, -40570963449, -47590990180, -32413027188, -13140657332, -10891993901, 12851445764, 24527441800, 19879299407, 12821816720, 10468545236, 7653686341, 6421288304, 7284513400, 5520158190, 4557926748, 5872017359, 2136365705, 1018076841, 92308451);
}

/// Part 7 of the chain.
proof fn lemma_part_7()
    requires
        generator().times(17052027581317040nat) == (Point::Affine { x: literal::fe(856128344, 1046963855, 529556808, 824718572, 385383074, 785423984, 1925851799), y: literal::fe(391630463, 928162105, 1214344010, 1446155172, 504434907, 215722538, 98512208) }),
    ensures
        generator().times(4365319060817163096nat) == (Point::Affine { x: literal::fe(303595084, 672511865, 917293225, 741667763, 1574505270, 1999344904, 1629760048), y: literal::fe(312512423, 1478022944, 1405108056, 474733653, 168877412, 1424357938, 1183268092) }),
{
    lemma_table();
    lemma_double(17052027581317040nat, 856128344, 1046963855, 529556808, 824718572, 385383074, 785423984, 1925851799, 391630463, 928162105, 1214344010, 1446155172, 504434907, 215722538, 98512208, 532640180, 788863179, 669417718, 358762536, 369731216, 238817399, 997280871, 1707783257, 556012318, 276530868, 707007124, 847536247, 1312152849, 2092594591, 646989086, 1175282705, 242798437, 1760683307, 817278861, 1272890438, 861592499, -29449901081, -34610655282, -29433238687, -24481390096, -28609449742, -39806254091, -21871365545, 5198290125, 7289612058, 5034028129, 3795586077, 2897233142, 3623173922, 2368509976, -345195568, -720202590, -872400813, -1736009368, -2296550829, -1419354711, -895891588);
    lemma_double(34104055162634080nat, 1707783257, 556012318, 276530868, 707007124, 847536247, 1312152849, 2092594591, 646989086, 1175282705, 242798437, 1760683307, 817278861, 1272890438, 861592499, 128906412, 425379082, 1011572570, 338730699, 241359795, 1069964896, 1804785342, 895739424, 1591178722, 1495624847, 1719242601, 512170534, 308155358, 547964394, 236732577, 1166722099, 1724740576, 1107884731, 98992780, 1678485694, 674577077, -11724552316, -15219548629, -20308809795, -33798753411, -40970768227, -42703050783, -23319569447, 9074374112, 15897488133, 10532160580, 7624503935, 12546234512, 13628852300, 5514777993, -3777502959, -5246474018, -3373398209, 3159957546, 10186878587, 11163868175, 4247170932);
    lemma_add(68208110325268160nat, 13nat, 895739424, 1591178722, 1495624847, 1719242601, 512170534, 308155358, 547964394, 236732577, 1166722099, 1724740576, 1107884731, 98992780, 1678485694, 674577077, 242534996, 683839544, 1070396237, 772964424, 1708803322, 1358032456, 443139177, 373830437, 299366337, 159102850, 1632830748, 1883418206, 400996964, 1690077110, 1711649793, 286950248, 1697199540, 2075714975, 702276145, 1134192792, 191684405, 1935132852, 681468764, 457586004, 873672582, 326982698, 239988833, 710232206, 245112816, 938162945, 323760081, 1893856810, 266958630, 106865857, 791312298, 6315430957, 7245862007, 5369900550, 3370581955, 1485051835, -741420915, -621697742, 17509005119, 23874821121, 16611134657, 10805960971, 6249938726, 6016633790, 3806124445, 4794766816, 6677057787, 1948688900, 645536082, 1230301545, 1197318948, 1539163725);
    lemma_double(68208110325268173nat, 1935132852, 681468764, 457586004, 873672582, 326982698, 239988833, 710232206, 245112816, 938162945, 323760081, 1893856810, 266958630, 106865857, 791312298, 929066522, 1260368962, 665741678, 371832835, 866287340, 50205851, 261582444, 1408827909, 1191172069, 154101970, 1751254255, 1722252245, 1777334358, 1483186294, 1456421914, 14686442, 2127370607, 1070384907, 533234817, 1612477801, 1040456684, -3033329551, -5082723584, -9455724078, -6420571733, -2696067693, -4410100738, -5362643754, 3621076307, 5694692889, 3586318200, 2577680166, 2106675562, 1498557648, 990091219, -7736930593, -9993247304, -7688949763, -5581099054, -3507737783, -3007067629, -1944208876);
    lemma_double(136416220650536346nat, 1408827909, 1191172069, 154101970, 1751254255, 1722252245, 1777334358, 1483186294, 1456421914, 14686442, 2127370607, 1070384907, 533234817, 1612477801, 1040456684, 314333766, 2084968868, 1720933997, 1403669092, 496518653, 1895006564, 1837153871, 102655143, 352075618, 418769750, 273613919, 1972845858, 1281360152, 55849201, 135785746, 1669751540, 422302730, 1979835608, 1680008641, 1529970893, 1911390621, -25303551410, -35426757619, -66562173940, -70935613428, -42417350494, -19830321554, -11557166439, 36600153755, 50448272839, 35807232735, 26401414217, 28247624275, 21522067785, 10729615132, 12515883527, 21331619993, 19893827099, 10606680748, 12210737134, 13448986322, 6969823967);
    lemma_double(272832441301072692nat, 102655143, 352075618, 418769750, 273613919, 1972845858, 1281360152, 55849201, 135785746, 1669751540, 422302730, 1979835608, 1680008641, 1529970893, 1911390621, 464619582, 962878623, 1692340932, 817987505, 594332561, 646242113, 1950355912, 1350826101, 449274653, 947843612, 1323265078, 1431733474, 10954853, 25315694, 1733809491, 1989845104, 1494889477, 168334425, 1507800708, 1325700073, 1633272205, 33938903484, 24031655928, 2396531488, 15156889374, 29600545150, 32770472053, 14668363672, 16329615779, 28957719520, 21743785644, 13880647723, 12110259719, 14594002429, 8048620407, 3169542219, 781040148, -3722918802, 2129543969, 7366046362, 2735209138, -628151411);
    lemma_add(545664882602145384nat, 3nat, 1350826101, 449274653, 947843612, 1323265078, 1431733474, 10954853, 25315694, 1733809491, 1989845104, 1494889477, 168334425, 1507800708, 1325700073, 1633272205, 467654231, 140529359, 225453094, 213767998, 2119372174, 826826390, 509908472, 910517402, 540189181, 1590228616, 15157234, 601371048, 1082043944, 1009642449, 1719194116, 2116698743, 2054488459, 2064284898, 647931910, 1497528933, 1729810404, 1371089497, 1589090814, 165831315, 34442532, 685672786, 2090093486, 2103073025, 217249557, 328583760, 2089773252, 246754826, 1002019014, 1632809857, 1810772071, 3480063888, 1891819130, 61143743, 4529416446, 7040269523, 3833061061, 816216213, 39288482849, 58329521368, 46034677632, 30723588163, 25599344934, 22001156231, 13229291479, -16665713863, -22180353890, -12644203915, -9962695622, -18677669199, -17175825349, -7414140030);
    lemma_double(545664882602145387nat, 1371089497, 1589090814, 165831315, 34442532, 685672786, 2090093486, 2103073025, 217249557, 328583760, 2089773252, 246754826, 1002019014, 1632809857, 1810772071, 515259079, 1399474700, 1645814865, 1892169708, 1594916716, 1156954502, 1596783036, 1557114764, 1310431778, 1456246590, 819315997, 1142247747, 542159218, 728397513, 883467895, 1168697539, 1299599224, 1752720918, 1399938722, 793788926, 133450173, -5748011032, 36139832306, 38229910604, -9607741516, -50391502423, -45686641877, -19516658661, 33712728111, 49407311654, 41702195538, 31875028991, 22254818334, 16763307966, 10026299429, 3023757065, 5293831453, 9548485376, 11279488747, 12599990474, 9300270154, 2436037975);
    lemma_double(1091329765204290774nat, 1557114764, 1310431778, 1456246590, 819315997, 1142247747, 542159218, 728397513, 883467895, 1168697539, 1299599224, 1752720918, 1399938722, 793788926, 133450173, 1151379656, 2115202936, 1520237965, 1365931731, 282846257, 458417744, 1788033370, 1953765864, 1812008588, 1430052978, 58959992, 359990765, 286364102, 265060965, 1241601897, 190600226, 1548576722, 319300847, 1617257826, 1563521969, 1663666919, -9298330611, -14630591327, -5988921241, -337740724, -1139756920, -3239256461, -4097003424, 23456416158, 31870503035, 25344263613, 14603942758, 9669295410, 12816677288, 8623266936, 3933733131, 5743947718, 7271962782, 7101759387, 4712708318, 4209294572, 2279047557);
    lemma_double(2182659530408581548nat, 1953765864, 1812008588, 1430052978, 58959992, 359990765, 286364102, 265060965, 1241601897, 190600226, 1548576722, 319300847, 1617257826, 1563521969, 1663666919, 1978949920, 63739926, 1793152847, 372471183, 1564137326, 1061713330, 909489509, 303595084, 672511865, 917293225, 741667763, 1574505270, 1999344904, 1629760048, 312512423, 1478022944, 1405108056, 474733653, 168877412, 1424357938, 1183268092, 11461616569, 29497557115, 32815438401, 32087220924, 31245261892, 16891106247, 9131108249, 13779492976, 22534453137, 21867333247, 15751198443, 14561768793, 7352915887, 5615385646, -5737433600, -15558495116, -17446658820, -18418218322, -13483727101, -7599666872, -2559167888);
}

/// Part 8 of the chain.
proof fn lemma_part_8()
    requires
        generator().times(4365319060817163096nat) == (Point::Affine { x: literal::fe(303595084, 672511865, 917293225, 741667763, 1574505270, 1999344904, 1629760048), y: literal::fe(312512423, 1478022944, 1405108056, 474733653, 168877412, 1424357938, 1183268092) }),
    ensures
        generator().times(1117521679569193752978nat) == (Point::Affine { x: literal::fe(1725028747, 1441577815, 708146626, 353370196, 1642618659, 1177299433, 1564754778), y: literal::fe(849290655, 1918843500, 610829098, 1610032420, 734899021, 834564266, 292286108) }),
{
    lemma_table();
    lemma_double(4365319060817163096nat, 303595084, 672511865, 917293225, 741667763, 1574505270, 1999344904, 1629760048, 312512423, 1478022944, 1405108056, 474733653, 168877412, 1424357938, 1183268092, 533282612, 1405878060, 159745877, 1361308860, 1838747948, 742860742, 869717238, 1964707675, 1100788078, 252836255, 705179759, 1321303019, 428155483, 969748979, 1665285460, 782902354, 1321982790, 511044416, 321108078, 363723410, 933896761, -32686422037, -59594875400, -62010511857, -71440947698, -65567372117, -36467827048, -11527765531, 18176733177, 24861863472, 20974221627, 16873058407, 11041310246, 6596807561, 3626123297, 3601190900, 8985767212, 13830230508, 11099982088, 6449490460, 4000188628, 1798456428);
    lemma_add(8730638121634326192nat, 3nat, 1964707675, 1100788078, 252836255, 705179759, 1321303019, 428155483, 969748979, 1665285460, 782902354, 1321982790, 511044416, 321108078, 363723410, 933896761, 467654231, 140529359, 225453094, 213767998, 2119372174, 826826390, 509908472, 910517402, 540189181, 1590228616, 15157234, 601371048, 1082043944, 1009642449, 716263679, 80035912, 1449520986, 170848620, 1094376769, 209376354, 1246532101, 519474402, 395143190, 828332596, 2062745358, 708006677, 77709689, 1171572535, 1897760826, 655665835, 448328408, 22633755, 2124028044, 1278688624, 1376979129, -2997940486, -1552181366, -1075393411, 286389931, 1135184172, -1593788534, -1427397059, 3010921021, 13174424150, 9927595422, 7974046535, 6862839970, 4836701515, 4544298883, 180844432, -1212919697, -2827315891, -144593657, 2357217827, -359199818, 518731078);
    lemma_double(8730638121634326195nat, 519474402, 395143190, 828332596, 2062745358, 708006677, 77709689, 1171572535, 1897760826, 655665835, 448328408, 22633755, 2124028044, 1278688624, 1376979129, 1621571009, 1861716655, 680774032, 810570920, 973970803, 913959890, 1137905861, 1151479189, 1161293450, 1519447996, 901474119, 893199953, 1457963949, 1447755224, 1249942847, 2068624096, 1486481044, 1993261263, 1849399, 1393747460, 2066468938, 4246855577, 6794136221, -11667304391, 1451478199, 19790045015, 7091171395, -2123765989, 17801983686, 22113113415, 16772768644, 14689137355, 12294504293, 9578231256, 6082997323, -5118748162, -6762674940, -4080447383, -4877095585, -6657031394, -5029709737, -2458153158);
    lemma_double(17461276243268652390nat, 1151479189, 1161293450, 1519447996, 901474119, 893199953, 1457963949, 1447755224, 1249942847, 2068624096, 1486481044, 1993261263, 1849399, 1393747460, 2066468938, 1277563969, 115723780, 2042844601, 1810798728, 640724012, 2059810325, 1877181024, 1036138978, 679781972, 1523200798, 1695526160, 1982867705, 615613513, 1674916350, 559130583, 355659710, 1420489700, 583988365, 234315452, 1630812002, 23189577, -13478219004, -81287841, 5559459121, -11144037787, -7301583473, 5147904582, 759051371, 26979531255, 52333446158, 46483418468, 31283088511, 30431599513, 25169397815, 10203842450, 324284363, -2554578713, -10130758472, -6064830187, 1714414545, 504585706, -1844439267);
    lemma_double(34922552486537304780nat, 1036138978, 679781972, 1523200798, 1695526160, 1982867705, 615613513, 1674916350, 559130583, 355659710, 1420489700, 583988365, 234315452, 1630812002, 23189577, 303492130, 694073428, 461335325, 710763048, 1182046814, 820080314, 1381341822, 1173930726, 756172332, 1629019239, 2109052650, 1631231340, 2050670892, 643269309, 604169304, 1810550241, 1691932892, 981258837, 1926150118, 632652504, 1012102220, -62521507249, -98269036381, -83605620259, -73764214917, -39136486613, -32134239902, -26242610236, 10261623006, 15334045704, 14918119433, 15238921954, 11761136543, 8979099078, 4363334247, -904737404, -2026956581, -3857542903, -670299736, -2132004971, 1434135304, 1446689214);
    lemma_double(69845104973074609560nat, 1173930726, 756172332, 1629019239, 2109052650, 1631231340, 2050670892, 643269309, 604169304, 1810550241, 1691932892, 981258837, 1926150118, 632652504, 1012102220, 766463395, 1484543017, 513414519, 1039373214, 669001531, 284638429, 1537898673, 1119672286, 1551616713, 1210496826, 1791388707, 1698377839, 1593167106, 1132996155, 747326289, 1396072309, 218914585, 1093541727, 1819889850, 981977274, 2075833557, -67447514401, -109206609166, -93352146260, -62141472306, -36432268573, -16566940427, -11689935575, 14940130059, 16011168968, 13486079662, 11519447620, 7119122663, 8420701841, 5662556668, -3391532366, -151949627, 1520562314, -89688414, 827669238, -817001497, -714741808);
    lemma_double(139690209946149219120nat, 1119672286, 1551616713, 1210496826, 1791388707, 1698377839, 1593167106, 1132996155, 747326289, 1396072309, 218914585, 1093541727, 1819889850, 981977274, 2075833557, 841233311, 1654735565, 2021540173, 173375458, 1273336454, 351151930, 1234644828, 474042580, 969315727, 185237427, 382592390, 767973310, 1877761985, 1038988889, 1755494458, 1287876328, 1959555994, 1059913722, 582171800, 173161210, 588726881, -54013396525, -79692112075, -80443878182, -57224060814, -39113000656, -17713272747, -10662525246, 14288270933, 25484731253, 15467165468, 12806456062, 9828131777, 7381997367, 6096888749, 6389899428, 11653911634, 9850722610, 7121178341, 3765502487, 2308752951, 2059669018);
    lemma_double(279380419892298438240nat, 474042580, 969315727, 185237427, 382592390, 767973310, 1877761985, 1038988889, 1755494458, 1287876328, 1959555994, 1059913722, 582171800, 173161210, 588726881, 2010627921, 323031733, 854503951, 1141976433, 1521563280, 185488243, 146052145, 783709159, 1392770616, 1537206720, 1693753296, 2076545096, 346288736, 503017211, 2011486164, 550035188, 125317970, 234420744, 1992751156, 575792567, 1821105592, -5352683603, -10605321290, -20707885989, -38975740783, -40858321988, -22502351897, -5406424159, 11017621894, 13094547508, 7976672327, 4802477487, 4361959040, 1853737657, 2194397911, -5736905722, -4240974763, 4104815811, 3885143032, -386613698, 305590553, -1402906218);
    lemma_add(558760839784596876480nat, 9nat, 783709159, 1392770616, 1537206720, 1693753296, 2076545096, 346288736, 503017211, 2011486164, 550035188, 125317970, 234420744, 1992751156, 575792567, 1821105592, 1376664870, 36574570, 1928160573, 1962407885, 1663510037, 647561982, 769847015, 469491965, 368216404, 512731201, 1930432655, 1288047098, 1242897166, 1754810551, 222053510, 962414103, 1670672860, 1142055103, 81220742, 1615260911, 355123033, 441426725, 146221482, 537887957, 500058620, 641160639, 1659475743, 1626168893, 49036454, 1605504824, 711219731, 22979263, 1149183178, 1124929462, 1060336656, 1141525003, 3893233427, 1195262905, -33868026, 1452164910, 1642691446, -796937775, 14727685012, 20481072044, 10176758483, 9516703850, 8805485915, 4112225618, 2450279331, 1251786354, -1277446718, 2735765850, -353690607, -5595318167, -1856827882, 1533642651);
    lemma_double(558760839784596876489nat, 441426725, 146221482, 537887957, 500058620, 641160639, 1659475743, 1626168893, 49036454, 1605504824, 711219731, 22979263, 1149183178, 1124929462, 1060336656, 2065617927, 1425814674, 1384607044, 472322750, 2088408952, 1531197871, 1323797566, 1725028747, 1441577815, 708146626, 353370196, 1642618659, 1177299433, 1564754778, 849290655, 1918843500, 610829098, 1610032420, 734899021, 834564266, 292286108, 11655075352, 8435579985, -2756959879, -8980113461, -25875837194, -21862842519, -2417294745, 25440755564, 39058984325, 34920186596, 32011433141, 26180603854, 16198029979, 9902344444, -4499098606, -8243305610, -5083083534, -2602502977, -1456566426, -1115298145, -2016859564);
}

/// Part 9 of the chain.
proof fn lemma_part_9()
    requires
        generator().times(1117521679569193752978nat) == (Point::Affine { x: literal::fe(1725028747, 1441577815, 708146626, 353370196, 1642618659, 1177299433, 1564754778), y: literal::fe(849290655, 1918843500, 610829098, 1610032420, 734899021, 834564266, 292286108) }),
    ensures
        generator().times(572171099939427201524800nat) == (Point::Affine { x: literal::fe(1838085901, 1352799340, 1764908898, 2100677387, 1616163497, 1269360102, 644507094), y: literal::fe(257838154, 1111331484, 2061435935, 165800762, 1945543818, 1140689042, 79318279) }),
{
    lemma_table();
    lemma_double(1117521679569193752978nat, 1725028747, 1441577815, 708146626, 353370196, 1642618659, 1177299433, 1564754778, 849290655, 1918843500, 610829098, 1610032420, 734899021, 834564266, 292286108, 251687472, 57247723, 1589428669, 2052524648, 249028563, 625757769, 2107271456, 1472245455, 1179552278, 419038525, 1262266956, 1593457585, 278214987, 1266030396, 212153393, 839325636, 122711413, 1653316289, 1429172094, 1779862583, 454239615, -19623829704, -34490416901, -29156027292, -43449777811, -43410024857, -32770201836, -17177311684, 7662743805, 26486299559, 34543674097, 16570604001, 9572600213, 17357154293, 9132490724, 4849307177, 8497791751, 1112698624, 602433531, 6406386712, 4220858158, 467631073);
    lemma_double(2235043359138387505956nat, 1472245455, 1179552278, 419038525, 1262266956, 1593457585, 278214987, 1266030396, 212153393, 839325636, 122711413, 1653316289, 1429172094, 1779862583, 454239615, 847640280, 1881562977, 1096278450, 611831288, 1162447287, 374205439, 348407732, 892227182, 1494382203, 1224256077, 447031763, 1149591605, 976726303, 810266913, 810330516, 1732561531, 1469029531, 615122461, 1953426186, 205343793, 138716596, -25989646180, -29651518871, -21576135805, -32623922041, -20005241140, -12525079526, -10197946750, 8677194776, 12539154362, 9198664327, 6477583788, 4519056368, 3632358593, 2480897489, 2342761097, 3092099417, 368067732, 493728793, 1133015916, 502519085, -149227058);
    lemma_double(4470086718276775011912nat, 892227182, 1494382203, 1224256077, 447031763, 1149591605, 976726303, 810266913, 810330516, 1732561531, 1469029531, 615122461, 1953426186, 205343793, 138716596, 1452940050, 1869425773, 637249899, 1740960752, 381918717, 462058283, 1319335427, 76077571, 1132773070, 324830665, 598499699, 807944021, 218143053, 1690928450, 1889659245, 546545753, 979157858, 24810253, 1689685158, 813322703, 917699594, -8327506619, -18350736637, -20090930430, -14356922981, -12931304114, -10889178159, -7643558534, 17068776645, 20259883527, 18955656617, 13323357538, 8346976621, 8143011270, 6711875103, 1182369153, 6046919150, 983441874, 741945828, 2859116157, -141876536, -847472491);
    lemma_add(8940173436553550023824nat, 1nat, 76077571, 1132773070, 324830665, 598499699, 807944021, 218143053, 1690928450, 1889659245, 546545753, 979157858, 24810253, 1689685158, 813322703, 917699594, 21053971, 90322736, 156256384, 23627556, 34171264, 126183783, 25645942, 2020310104, 1513506566, 1843922297, 2003644209, 805967281, 1882435203, 1623804682, 1649544134, 1687015092, 2047162433, 2062415973, 604950800, 208794653, 1834851802, 771673367, 1016900001, 1533790664, 577533108, 1098618912, 355965813, 2126105952, 425395331, 1025251352, 1820860935, 936350595, 778183938, 1648200951, 999669245, -16208978603, -21101385556, -18383777737, -14000792345, -6897162908, -9598102216, -7161472190, 23666418569, 36554621309, 35164034305, 22758853618, 11154583267, 14223547613, 11070640845, -4393855040, -11139676568, -8885732169, -4852194308, -3424101308, -3879927072, -2760169998);
    lemma_double(8940173436553550023825nat, 771673367, 1016900001, 1533790664, 577533108, 1098618912, 355965813, 2126105952, 425395331, 1025251352, 1820860935, 936350595, 778183938, 1648200951, 999669245, 2096352778, 2000153100, 510521395, 358069349, 700852196, 1555529583, 1774117664, 2015627777, 842526151, 1767618032, 807108373, 1294713557, 2043112129, 1784951137, 1784285007, 862121849, 546159579, 1294072211, 367052173, 1989324978, 1313971748, -7512329972, -31484204340, -17843385557, -13060182841, 611262101, -16632903186, -15801082896, 23621561311, 24888786507, 15790757910, 18035589308, 22033909887, 19705543135, 11239108984, -2313775711, -4793024126, -6409848222, -9522285068, -10471286430, -4836008947, -1466881737);
    lemma_double(17880346873107100047650nat, 2015627777, 842526151, 1767618032, 807108373, 1294713557, 2043112129, 1784951137, 1784285007, 862121849, 546159579, 1294072211, 367052173, 1989324978, 1313971748, 767147572, 693074721, 1577776640, 1492676605, 72118064, 1857537838, 1325779441, 1754870824, 1417602634, 1276674767, 495800012, 1350661258, 1380091241, 1567537263, 1959504671, 524531795, 901129918, 552285686, 1425567644, 692477625, 203929949, -59031191128, -76729750779, -68417081396, -67403724347, -63045282527, -41925342537, -22534825408, 18848887152, 34485283378, 24983673176, 16596905428, 18876825470, 14654654558, 5790422847, 3109886386, 7689651576, 5382563374, 3740476815, 4712749242, 3485502273, 553964425);
    lemma_double(35760693746214200095300nat, 1754870824, 1417602634, 1276674767, 495800012, 1350661258, 1380091241, 1567537263, 1959504671, 524531795, 901129918, 552285686, 1425567644, 692477625, 203929949, 1134659073, 1811652453, 1381294445, 1380079919, 1486847778, 422948923, 68022547, 929693934, 2129831725, 1561258535, 1433348876, 1246958889, 898073959, 1484512554, 1495409219, 674006423, 408184670, 183364642, 20480489, 1754338146, 394329035, -46505934379, -63183496450, -52883693224, -58990480287, -57721641194, -42572374731, -23247654891, 13554960219, 18068155901, 11424463168, 6748435687, 5497589055, 4860105322, 3619873916, -976690915, 688689813, 2411389292, 1258524588, -181789723, -671609410, -391650530);
    lemma_double(71521387492428400190600nat, 929693934, 2129831725, 1561258535, 1433348876, 1246958889, 898073959, 1484512554, 1495409219, 674006423, 408184670, 183364642, 20480489, 1754338146, 394329035, 1557472668, 2030755869, 1497887814, 1623531440, 1936414474, 94810597, 518880690, 816569199, 935514304, 75977006, 1616157919, 1082202671, 431138949, 305916650, 1109413217, 187166895, 961810007, 1602983057, 636220586, 1336129869, 18721008, -68718025813, -87854637345, -59394448350, -51964524457, -41314390358, -34437937840, -20620976322, 21505250389, 28358257466, 16842276389, 12854702358, 10051602746, 6882784889, 5278056280, 8922195913, 14722751307, 13792556015, 11723567810, 6230036552, 4525562466, 3574662708);
    lemma_double(143042774984856800381200nat, 816569199, 935514304, 75977006, 1616157919, 1082202671, 431138949, 305916650, 1109413217, 187166895, 961810007, 1602983057, 636220586, 1336129869, 18721008, 1975879273, 532920389, 357373256, 1944657982, 536749550, 1594895858, 931067005, 1227264893, 560888854, 1359975733, 1180332662, 456515586, 18018236, 1368852682, 1127281967, 2015064860, 959472091, 1942564548, 2082609757, 882399136, 1714881583, -7847792402, 5018594625, 9604321203, 9548161731, 4687813397, 4552763762, -517678335, 11734896296, 23723981150, 23387930896, 19609309940, 13986273212, 10094693651, 5700104287, -1946503422, -87027168, -1837588221, 723605811, -1418619115, -4939965286, -1995588992);
    lemma_double(286085549969713600762400nat, 1227264893, 560888854, 1359975733, 1180332662, 456515586, 18018236, 1368852682, 1127281967, 2015064860, 959472091, 1942564548, 2082609757, 882399136, 1714881583, 269190779, 1480509329, 580738603, 1781279040, 2125393384, 963769910, 1591190867, 1838085901, 1352799340, 1764908898, 2100677387, 1616163497, 1269360102, 644507094, 257838154, 1111331484, 2061435935, 165800762, 1945543818, 1140689042, 79318279, 49919162428, 51989629084, 35194750778, 40950103568, 34029671455, 13531612340, 2763860840, 31485502948, 42239509734, 37888262125, 33058699651, 21199234700, 14427991151, 7953993263, -12576302771, -21644713733, -18212887583, -10235083700, -7330424697, -1735346292, -1458932825);
}

/// Part 10 of the chain.
proof fn lemma_part_10()
    requires
        generator().times(572171099939427201524800nat) == (Point::Affine { x: literal::fe(1838085901, 1352799340, 1764908898, 2100677387, 1616163497, 1269360102, 644507094), y: literal::fe(257838154, 1111331484, 2061435935, 165800762, 1945543818, 1140689042, 79318279) }),
    ensures
        generator().times(146475801584493363590349548nat) == (Point::Affine { x: literal::fe(1479507853, 124810966, 1133823861, 491021083, 1923070865, 307982722, 894560011), y: literal::fe(949626308, 1982376244, 2017909680, 1942994078, 1768347184, 1623285996, 674170038) }),
{
    lemma_table();
    lemma_double(572171099939427201524800nat, 1838085901, 1352799340, 1764908898, 2100677387, 1616163497, 1269360102, 644507094, 257838154, 1111331484, 2061435935, 165800762, 1945543818, 1140689042, 79318279, 128499923, 131102731, 1465311610, 1622837092, 1743193855, 403304381, 1125421173, 816578015, 1785657976, 1043354055, 1477795440, 1117798041, 1717211061, 255899158, 1750896098, 1709924976, 957664524, 97025157, 1783335216, 1734248211, 777155524, -62506722418, -77100166407, -65781681301, -48397969246, -28646899530, -23217427412, -16775574817, 16750703874, 28003768561, 22821359159, 17087902643, 9301354194, 6745573098, 5602341345, 2626797752, 5740337634, 4982633946, 4103013118, 1744854287, 1358117385, 2476748427);
    lemma_double(1144342199878854403049600nat, 816578015, 1785657976, 1043354055, 1477795440, 1117798041, 1717211061, 255899158, 1750896098, 1709924976, 957664524, 97025157, 1783335216, 1734248211, 777155524, 2092516514, 378754084, 122461360, 1784555390, 651228605, 247434428, 1052517642, 1738168389, 1782966842, 177666052, 1096303692, 1481838136, 1234693404, 112315612, 365947214, 1477941936, 846761746, 1011235800, 1411264024, 1842431061, 264261105, -25248323352, -39794136239, -36001365531, -27366910051, -7622950198, -1456390874, -8332544902, 9522487629, 8896919607, 12082893433, 12652178496, 5159211558, 4255608278, 5284525968, -1070991946, 3604503007, 5186353956, 598999690, 516038450, 2169646000, 547812666);
    lemma_add(2288684399757708806099200nat, 11nat, 1738168389, 1782966842, 177666052, 1096303692, 1481838136, 1234693404, 112315612, 365947214, 1477941936, 846761746, 1011235800, 1411264024, 1842431061, 264261105, 698510408, 56028667, 1851204165, 1617109836, 270895001, 1080332954, 1202313465, 624956658, 171919014, 1281227139, 415484406, 2013094779, 392737683, 445644599, 1573272419, 318621204, 1654091301, 1450327017, 1590486116, 1738007934, 583355885, 560168334, 1993776860, 268521310, 605614795, 654965693, 71292706, 638673943, 961593622, 1677347715, 1489163284, 467014867, 875880109, 120374573, 871436582, 1732081579, 3670225379, 1238671820, -287926944, 3834170469, 3143918360, 647389058, 26352466330, 37880081793, 32811697811, 24246012165, 15690789771, 8947724935, 5317047366, 8978500948, 11765156959, 11538403108, 8856130420, 3142478477, 1052269162, 411646586);
    lemma_double(2288684399757708806099211nat, 560168334, 1993776860, 268521310, 605614795, 654965693, 71292706, 638673943, 961593622, 1677347715, 1489163284, 467014867, 875880109, 120374573, 871436582, 364840821, 795081275, 2039568188, 212858135, 1407224021, 1454415262, 1196141030, 880369346, 22750330, 699227507, 1719774965, 861384995, 116797310, 1797562776, 1256814286, 467147321, 750798123, 555347421, 651872113, 678552192, 1588730439, 4048993397, 20395751893, 13595954721, 10277937992, 9894113652, 6777565779, 6287904276, 19853783389, 29696813547, 22325630409, 20939226659, 18476220679, 10212168844, 6224877343, -2154675005, -12304435113, -10963273481, -5795006379, -7697940845, -5813853652, -1594847659);
    lemma_double(4577368799515417612198422nat, 880369346, 22750330, 699227507, 1719774965, 861384995, 116797310, 1797562776, 1256814286, 467147321, 750798123, 555347421, 651872113, 678552192, 1588730439, 1175162797, 79974247, 178907270, 2056309792, 2060138585, 1300919974, 1127362514, 1885541950, 1792853426, 259982207, 1091244858, 199327039, 1807250015, 476103540, 112473200, 1165357114, 582748279, 1059254744, 1112752682, 46113761, 184036251, -2405799223, -5267345429, -19311107499, -9757754142, 12252750971, -7094073402, -12592038825, 22045683259, 36387847945, 37735346847, 31228375036, 18248083289, 9047356539, 5461167804, 1875271547, -877105070, 1187055005, 3356695251, -904923358, 477144010, 2237228551);
    lemma_double(9154737599030835224396844nat, 1885541950, 1792853426, 259982207, 1091244858, 199327039, 1807250015, 476103540, 112473200, 1165357114, 582748279, 1059254744, 1112752682, 46113761, 184036251, 178453494, 547564815, 2005137524, 1875224168, 1884031725, 1570573111, 1283113117, 1010668327, 1473841594, 1593899710, 2067636372, 793961968, 446723383, 1974370787, 67068879, 10200774, 1677234395, 1810826670, 1063719709, 1233388806, 1286955552, 4696470605, -9952144759, -4673953887, -17366947345, -22462429756, -12351141166, -6869724184, 34673800903, 55114098181, 46192902198, 33586855729, 22904843941, 14299110292, 8536615750, -6339314529, -14902844133, -11700019195, -6180275054, -3967208417, -6571266815, -4319018746);
    lemma_double(18309475198061670448793688nat, 1010668327, 1473841594, 1593899710, 2067636372, 793961968, 446723383, 1974370787, 67068879, 10200774, 1677234395, 1810826670, 1063719709, 1233388806, 1286955552, 1605418328, 6406750, 1349872550, 421586029, 1846383467, 1466751906, 1353614910, 624632603, 1323783906, 2038448014, 819919111, 47674245, 328800957, 1411415672, 1179026229, 599081924, 395728941, 1666266535, 1281222485, 1982102166, 1855079279, -38187396646, -45108032720, -46684368590, -25043442769, -4527591957, -25614487533, -21598749093, 14195980429, 27279209453, 29109402609, 26654905097, 23025228603, 12646136481, 7051346835, 5763825408, 11413909597, 12319464530, 10885733213, 6090220551, 4364916660, 2180429526);
    lemma_add(36618950396123340897587376nat, 11nat, 624632603, 1323783906, 2038448014, 819919111, 47674245, 328800957, 1411415672, 1179026229, 599081924, 395728941, 1666266535, 1281222485, 1982102166, 1855079279, 698510408, 56028667, 1851204165, 1617109836, 270895001, 1080332954, 1202313465, 624956658, 171919014, 1281227139, 415484406, 2013094779, 392737683, 445644599, 524047074, 652411980, 1403749417, 815068584, 298971244, 1390834530, 364824458, 2016347995, 204017457, 1290354361, 1566476299, 676030074, 54369218, 179050812, 1715213917, 452007956, 1653104924, 372296395, 846711776, 91047770, 255399155, 1463432262, 3924772064, 3160861218, 2752022712, 1160318127, 374647094, -317867560, 11552711210, 15108919122, 8997628580, 8320149966, 6983215501, 3682385099, 1924316463, 4123089257, 4875929649, 878120045, 1388948533, 5333319152, 2527404996, 918210659);
    lemma_double(36618950396123340897587387nat, 2016347995, 204017457, 1290354361, 1566476299, 676030074, 54369218, 179050812, 1715213917, 452007956, 1653104924, 372296395, 846711776, 91047770, 255399155, 678618762, 1259043139, 2047330608, 1346210456, 960425236, 388331365, 22899750, 162566702, 1337544282, 1929251790, 1160233795, 1716479008, 708898842, 1326544313, 359945554, 526306667, 660806019, 1834125912, 547160401, 1294019195, 631769921, -8571011874, -1174362696, -3341626167, -5241433020, -661084289, -1488644274, -3018416995, 10150911764, 11601010892, 6846095313, 4871234380, 4485955155, 3995738342, 3170499665, -8958857995, -14584913338, -10872365140, -7020508444, -3609789022, -1719845387, -2006951627);
    lemma_double(73237900792246681795174774nat, 162566702, 1337544282, 1929251790, 1160233795, 1716479008, 708898842, 1326544313, 359945554, 526306667, 660806019, 1834125912, 547160401, 1294019195, 631769921, 1837671355, 96515447, 353646652, 1498099055, 673396664, 75861242, 1175504448, 1479507853, 124810966, 1133823861, 491021083, 1923070865, 307982722, 894560011, 949626308, 1982376244, 2017909680, 1942994078, 1768347184, 1623285996, 674170038, -56478235729, -86090099044, -53361259034, -45988998022, -32048647632, -21343489769, -15019398460, 6977971696, 6950856780, 11248246124, 11447618981, 4011679149, 4182886302, 5256964048, 3112866406, 7290270227, 6736655864, 2449517992, 1713912248, 3244463471, 1109956935);
}

/// Part 11 of the chain.
proof fn lemma_part_11()
    requires
        generator().times(146475801584493363590349548nat) == (Point::Affine { x: literal::fe(1479507853, 124810966, 1133823861, 491021083, 1923070865, 307982722, 894560011), y: literal::fe(949626308, 1982376244, 2017909680, 1942994078, 1768347184, 1623285996, 674170038) }),
    ensures
        generator().times(74995610411260602158258969408nat) == (Point::Affine { x: literal::fe(1780749063, 125383799, 1577561013, 2048397500, 1241797988, 1572641077, 615389986), y: literal::fe(1427878854, 352749539, 1704848221, 171124955, 255288051, 704891277, 1928964538) }),
{
    lemma_table();
    lemma_double(146475801584493363590349548nat, 1479507853, 124810966, 1133823861, 491021083, 1923070865, 307982722, 894560011, 949626308, 1982376244, 2017909680, 1942994078, 1768347184, 1623285996, 674170038, 2026153488, 1689295914, 1532208742, 52826408, 922568521, 301155062, 1412998422, 1110688273, 1352706577, 1489528497, 1345001617, 1108568323, 1228622144, 778997091, 100491107, 1067934184, 619564196, 1715111417, 1904214582, 1500518792, 2043240763, 20808249002, 4596821461, 3612070977, 4234058594, 3341692873, 10784603491, -949215524, 15523821605, 23604016080, 13247438224, 9853542373, 8735881975, 7995118236, 7304151575, -8572039435, -5947111798, -5112296410, -2208531747, -1619877762, -2731564435, 91450545);
    lemma_double(292951603168986727180699096nat, 1110688273, 1352706577, 1489528497, 1345001617, 1108568323, 1228622144, 778997091, 100491107, 1067934184, 619564196, 1715111417, 1904214582, 1500518792, 2043240763, 893563973, 1199762482, 1159703572, 977691533, 1635526140, 30875516, 625536202, 2015128174, 1723585314, 73605755, 376539109, 1773227277, 544543597, 835379155, 271496636, 115452228, 1608001485, 1657862140, 360987973, 696237027, 1905165512, -18449792230, -26865614359, -21266993376, -12418252466, -15927860413, -9764134523, -5185968000, 11569810793, 17546827880, 10649677963, 8794288503, 6076991257, 3904662375, 3339370480, 3073820568, 2420755012, 4370500508, 1765821538, 487402528, 1308943040, 1210472545);
    lemma_double(585903206337973454361398192nat, 2015128174, 1723585314, 73605755, 376539109, 1773227277, 544543597, 835379155, 271496636, 115452228, 1608001485, 1657862140, 360987973, 696237027, 1905165512, 479882080, 697657139, 1454220774, 1693464866, 914791969, 1046783890, 1551664763, 908331024, 323452643, 702857412, 1204486237, 712802936, 530829465, 371025805, 611736217, 406034620, 1916009076, 2099275121, 1647897803, 1100149552, 1086991174, -6115776881, 4189599497, 18955331057, -448091339, -5241589848, 7736808801, 3758039282, 19603740586, 32885372340, 30234427558, 21044374735, 15676588232, 13605954732, 7369038420, 7045473734, 4345958189, 2291310676, 7213421709, 5251888453, 2835136471, 2412972785);
    lemma_add(1171806412675946908722796384nat, 13nat, 908331024, 323452643, 702857412, 1204486237, 712802936, 530829465, 371025805, 611736217, 406034620, 1916009076, 2099275121, 1647897803, 1100149552, 1086991174, 242534996, 683839544, 1070396237, 772964424, 1708803322, 1358032456, 443139177, 373830437, 299366337, 159102850, 1632830748, 1883418206, 400996964, 1690077110, 1856703239, 184652054, 1535357299, 1833420536, 202434871, 1090474127, 1534147566, 1261892049, 1453771983, 1282112729, 1912465256, 2018811424, 1064341126, 1426859903, 1571913768, 61125459, 895372245, 491957953, 1207739206, 1653194475, 1971567496, 8749543371, 10365005636, 4276653415, 6098378351, 7946784829, 2663083443, 376662374, 12547171254, 27413633705, 29249403453, 16251649462, 12177373596, 14811884719, 8045926297, -14194603415, -19964437495, -17914484779, -14766503525, -11186664808, -8449628234, -5685332131);
    lemma_double(1171806412675946908722796397nat, 1261892049, 1453771983, 1282112729, 1912465256, 2018811424, 1064341126, 1426859903, 1571913768, 61125459, 895372245, 491957953, 1207739206, 1653194475, 1971567496, 1146465949, 1844926623, 641263614, 1399699062, 778149516, 738024856, 1887471153, 1919165900, 164407016, 711489393, 570878301, 1282268385, 45932329, 529938047, 95365000, 332223045, 1290983714, 2094160475, 437604002, 1830197937, 1422620407, -67910841168, -95063221336, -78021757135, -57456656024, -28251723975, -9287809203, -10147345961, 24293012641, 28140809414, 24551860234, 19844801423, 14894874023, 15266951104, 9713137092, 16630123736, 21205507033, 19783452769, 15050180155, 12399098060, 9818696219, 4923759829);
    lemma_double(2343612825351893817445592794nat, 1919165900, 164407016, 711489393, 570878301, 1282268385, 45932329, 529938047, 95365000, 332223045, 1290983714, 2094160475, 437604002, 1830197937, 1422620407, 254194680, 739006681, 1241789932, 1998096473, 1339739566, 1659033658, 1142753108, 1664347702, 1810703353, 1183334867, 1586747653, 515235514, 1405764832, 1136972710, 1454702176, 1953197995, 488736106, 1243447994, 735169191, 674201126, 977520974, 27549079125, 53066432749, 51674462357, 35146054721, 26024226136, 22166012461, 5768414506, 26226343446, 42323762939, 37558436132, 27671149357, 19513786722, 12057333826, 6697511649, -10833934452, -17580330035, -13910438559, -10266610426, -11016637476, -7001222710, -3468253762);
    lemma_double(4687225650703787634891185588nat, 1664347702, 1810703353, 1183334867, 1586747653, 515235514, 1405764832, 1136972710, 1454702176, 1953197995, 488736106, 1243447994, 735169191, 674201126, 977520974, 1717344591, 463448733, 837360195, 732345511, 959887611, 1162136736, 1218074317, 1936292024, 61282184, 643138615, 1100445315, 1580630499, 602136221, 712262511, 946708833, 1667662046, 885140588, 948422301, 844531725, 763154922, 383287091, -38738246125, -60186403680, -45368249011, -29444886002, -26957480755, -19939569118, -12329884485, 11899990681, 18000094771, 17438837833, 15854793803, 14032697132, 10334463800, 5564293849, 7559978233, 8704479459, 3345349898, 1821239860, 3455226495, 4719738905, 2036023357);
    lemma_double(9374451301407575269782371176nat, 1936292024, 61282184, 643138615, 1100445315, 1580630499, 602136221, 712262511, 946708833, 1667662046, 885140588, 948422301, 844531725, 763154922, 383287091, 1763786259, 658340729, 1489036698, 1227813731, 2006800270, 1520846483, 1363898938, 1821022291, 1013892209, 2053889504, 1262507278, 514019481, 1158877254, 1196560434, 1130405398, 678558954, 1798299544, 1313311683, 1014892590, 1004055540, 620314473, 3040711337, 1161366937, -6174838575, -6277311673, -3246086706, 2906419639, -586372638, 27866708794, 44679829047, 41499663401, 34536564679, 25821093950, 15680489266, 9329445135, -8371881398, -9200357216, -4131096281, -2460763991, -4616009169, -5528652630, -2785806180);
    lemma_double(18748902602815150539564742352nat, 1821022291, 1013892209, 2053889504, 1262507278, 514019481, 1158877254, 1196560434, 1130405398, 678558954, 1798299544, 1313311683, 1014892590, 1004055540, 620314473, 1943497061, 1087621865, 1545093581, 167275265, 1293323989, 140475069, 8775654, 73597280, 1752170551, 275378736, 400702997, 595779244, 557987731, 1827849877, 808452412, 1302776975, 205335453, 1600403574, 1651979650, 1353278829, 2099350962, -41908982224, -71064578329, -55524805610, -34001604362, -32161799556, -30182642698, -14577394148, 3851543803, 7330518820, 6692884630, 2497858566, 3716113674, 1822876255, 2048383388, 5315895927, 471297684, 2890936185, 516202968, 1430290836, 807566632, 769537857);
    lemma_double(37497805205630301079129484704nat, 73597280, 1752170551, 275378736, 400702997, 595779244, 557987731, 1827849877, 808452412, 1302776975, 205335453, 1600403574, 1651979650, 1353278829, 2099350962, 1423018189, 1263082846, 549198057, 2032805484, 700399614, 615621207, 1867429641, 1780749063, 125383799, 1577561013, 2048397500, 1241797988, 1572641077, 615389986, 1427878854, 352749539, 1704848221, 171124955, 255288051, 704891277, 1928964538, -580160993, 18786204906, 36604998113, 27888606339, 13244697973, -40846493, 3726165996, 20289470676, 25128474251, 28424974895, 22298254083, 13099471438, 14121360906, 10434768609, 603822674, -11305248594, -11838686998, -7808380303, -4830207283, 1010175424, 203466703);
}

/// Part 12 of the chain.
proof fn lemma_part_12()
    requires
        generator().times(74995610411260602158258969408nat) == (Point::Affine { x: literal::fe(1780749063, 125383799, 1577561013, 2048397500, 1241797988, 1572641077, 615389986), y: literal::fe(1427878854, 352749539, 1704848221, 171124955, 255288051, 704891277, 1928964538) }),
    ensures
        generator().times(9599438132641357076257148084845nat) == (Point::Affine { x: literal::fe(1028397505, 1124732843, 243768690, 96863809, 1692277643, 383066866, 1961193554), y: literal::fe(702553548, 352007159, 612710124, 1335263670, 922007482, 2001543987, 1356909390) }),
{
    lemma_table();
    lemma_double(74995610411260602158258969408nat, 1780749063, 125383799, 1577561013, 2048397500, 1241797988, 1572641077, 615389986, 1427878854, 352749539, 1704848221, 171124955, 255288051, 704891277, 1928964538, 1131254174, 46197062, 594670085, 1745922934, 617719838, 1963258066, 558152571, 790587264, 1552292903, 1216516245, 609159649, 1087765738, 152873077, 710465365, 995934763, 911223857, 1372445937, 2086628512, 1846231092, 1370688601, 1328275942, -53174780770, -82267134078, -61068578617, -38207862055, -11073122330, -4955987118, -8744823724, 11262652822, 24986619973, 22021966363, 18701895255, 12438295099, 6902834750, 2891879918, 5008413013, 14964516481, 12506951141, 10347898318, 4716089303, 2681745108, 177183860);
    lemma_add(149991220822521204316517938816nat, 9nat, 790587264, 1552292903, 1216516245, 609159649, 1087765738, 152873077, 710465365, 995934763, 911223857, 1372445937, 2086628512, 1846231092, 1370688601, 1328275942, 1376664870, 36574570, 1928160573, 1962407885, 1663510037, 647561982, 769847015, 469491965, 368216404, 512731201, 1930432655, 1288047098, 1242897166, 1754810551, 1368251661, 1767397385, 587995254, 285944055, 926446913, 651275607, 659548356, 2045725233, 64495783, 658158213, 1277072726, 906384015, 489113841, 435752088, 1584467237, 707705298, 814098843, 1939589391, 1535851013, 1465768507, 1714144896, 3375257093, 6147328891, 6352242313, 5349711006, 3662161185, 1390030974, 871655117, 9390098148, 12085035599, 8763082541, 7435980557, 6160348209, 4761609392, 3089703327, 1695092172, 1806101677, 177794172, -141454998, -511652546, 453248659, 422049038);
    lemma_double(149991220822521204316517938825nat, 2045725233, 64495783, 658158213, 1277072726, 906384015, 489113841, 435752088, 1584467237, 707705298, 814098843, 1939589391, 1535851013, 1465768507, 1714144896, 825963263, 422181567, 48922033, 384046118, 1499857579, 580813996, 1406680667, 202505745, 1660903179, 137909863, 763180243, 2032426763, 981433274, 2075310658, 825876925, 1774022422, 1872218471, 817061574, 2110958535, 1913662667, 462740362, 1156067780, 10189361987, 17044482368, 23703241811, 21141801094, 15427786972, 5716378224, 5944156556, 10350496502, 10734805255, 14985108065, 11566811236, 8006421847, 4244904869, -4733043076, -5699582352, -4427559012, -11390085754, -9267988398, -8657705773, -2765700273);
    lemma_double(299982441645042408633035877650nat, 202505745, 1660903179, 137909863, 763180243, 2032426763, 981433274, 2075310658, 825876925, 1774022422, 1872218471, 817061574, 2110958535, 1913662667, 462740362, 1721051643, 113014487, 359090548, 1069335644, 2128843744, 1751997085, 1959628324, 1858964114, 283390985, 749526528, 884315703, 92165099, 502232526, 1299004973, 1779289830, 1695699447, 67712132, 979905383, 1074151741, 1371106809, 1589207886, -17061614590, 2760055489, 2511631490, -26972329946, -20305888543, -30416606578, -12361794715, 16066231845, 31718446611, 41563657411, 44951379376, 35795599610, 22095961092, 10012664541, 7355339776, 14479699216, 16005102284, 21098325940, 14751685133, 6983908046, 2058727573);
    lemma_double(599964883290084817266071755300nat, 1858964114, 283390985, 749526528, 884315703, 92165099, 502232526, 1299004973, 1779289830, 1695699447, 67712132, 979905383, 1074151741, 1371106809, 1589207886, 1572940273, 116862071, 1697585036, 935237524, 1390201381, 2115582281, 1968649922, 1071235656, 728807909, 79107685, 786511026, 1964357967, 837412803, 2280278, 1376633289, 1145783211, 1314593262, 2042096890, 61812951, 1827537960, 1013218680, 25373987069, 33804449265, 27512307668, 42225595180, 41161872882, 19301220653, 4998298716, 25198327905, 44100781248, 42660770665, 38381165671, 37062911120, 25588950361, 11221154950, -2917271240, -479802226, -4849127145, -10236995078, 715408484, 9437584121, 3807478139);
    lemma_double(1199929766580169634532143510600nat, 1071235656, 728807909, 79107685, 786511026, 1964357967, 837412803, 2280278, 1376633289, 1145783211, 1314593262, 2042096890, 61812951, 1827537960, 1013218680, 667022709, 1440512376, 274873788, 50286714, 970833311, 1514081878, 1826814995, 245490848, 521132963, 1583957996, 1357189517, 2052928742, 479717863, 1156669219, 1760219722, 2075738670, 1391254935, 1816398795, 273900431, 1885077039, 852270128, 14228947213, 731220125, -114705260, 16011489879, 27620931462, 20476778352, 10582911234, 14741791397, 14547484780, 11431358453, 18504315929, 21914596752, 17893804232, 8141507606, -9180060958, -14422778168, -7936362833, -4137951959, -3837928699, -5865255680, -2943806293);
    lemma_add(2399859533160339269064287021200nat, 11nat, 245490848, 521132963, 1583957996, 1357189517, 2052928742, 479717863, 1156669219, 1760219722, 2075738670, 1391254935, 1816398795, 273900431, 1885077039, 852270128, 698510408, 56028667, 1851204165, 1617109836, 270895001, 1080332954, 1202313465, 624956658, 171919014, 1281227139, 415484406, 2013094779, 392737683, 445644599, 781141249, 2023008929, 279815831, 453572535, 349709851, 345785275, 1797011660, 215577210, 1760499810, 489936305, 1985735552, 1823550535, 631671293, 27935272, 2034666425, 755489144, 1438023506, 1573110021, 1570451971, 2089156374, 1558162968, -2650759672, -885792187, 234234736, -6490602544, -2020242248, 350793908, 874235555, 18546730395, 15822536429, 8548634272, 6729650806, 6008760762, 10364410296, 6709362917, 659321385, 4834107378, 763199610, 1589527092, 709340902, 5038730656, 3025393145);
    lemma_double(2399859533160339269064287021211nat, 215577210, 1760499810, 489936305, 1985735552, 1823550535, 631671293, 27935272, 2034666425, 755489144, 1438023506, 1573110021, 1570451971, 2089156374, 1558162968, 2022914570, 725864504, 335566147, 586194935, 1396711703, 2023153489, 1775684073, 1381811025, 222475290, 461673059, 304332474, 1081341490, 137906855, 222342692, 30921211, 1501784613, 1551995405, 1936595499, 621845571, 955823839, 1597412842, -9054764835, -1805805117, 30721059915, 58704937327, 52025483088, 31168973784, 9025354480, 14998647735, 22165549395, 26796021650, 33475136225, 32711890012, 22493268920, 9790813630, 12025307423, 20001640155, 18883508228, 13455584961, 4954889516, 765667670, 584069510);
    lemma_double(4799719066320678538128574042422nat, 1381811025, 222475290, 461673059, 304332474, 1081341490, 137906855, 222342692, 30921211, 1501784613, 1551995405, 1936595499, 621845571, 955823839, 1597412842, 1228937010, 27793348, 1109264450, 982816276, 616255877, 1414686017, 1084968211, 333451708, 864890924, 655978213, 745444026, 394898956, 1888078585, 1816987969, 1172982487, 1946598957, 836753881, 1242991894, 1986062016, 140895902, 1775370173, 22726493360, 41111641358, 36075918746, 25649207363, 20498411328, 20678005128, 9409020618, 11057885274, 19306551197, 18215182814, 14454811507, 13218334243, 9755871508, 4040880586, -5390518096, -13107749596, -10119927326, -9508138182, -13275028876, -10719424818, -3173589199);
    lemma_add(9599438132641357076257148084844nat, 1nat, 333451708, 864890924, 655978213, 745444026, 394898956, 1888078585, 1816987969, 1172982487, 1946598957, 836753881, 1242991894, 1986062016, 140895902, 1775370173, 21053971, 90322736, 156256384, 23627556, 34171264, 126183783, 25645942, 2020310104, 1513506566, 1843922297, 2003644209, 805967281, 1882435203, 1623804682, 386114508, 1282802898, 83146668, 1806817776, 472872504, 403898273, 599270119, 1028397505, 1124732843, 243768690, 96863809, 1692277643, 383066866, 1961193554, 702553548, 352007159, 612710124, 1335263670, 922007482, 2001543987, 1356909390, -9686147616, -15713199841, -17240576693, -11436159477, -7920138840, -6243942674, -3868607263, 7845431460, 9313800525, 9290743541, 6054629078, 4513890098, 2381114757, 2778241750, -5022212907, 2704541788, 4296863371, -347142888, 1441846802, 662166769, 1104424964);
}

/// Part 13 of the chain.
proof fn lemma_part_13()
    requires
        generator().times(9599438132641357076257148084845nat) == (Point::Affine { x: literal::fe(1028397505, 1124732843, 243768690, 96863809, 1692277643, 383066866, 1961193554), y: literal::fe(702553548, 352007159, 612710124, 1335263670, 922007482, 2001543987, 1356909390) }),
    ensures
        generator().times(2457456161956187411521829909720341nat) == (Point::Affine { x: literal::fe(571137139, 697769285, 1307828509, 725698081, 531661682, 1791320692, 388167397), y: literal::fe(54119101, 842350019, 1212477587, 233277664, 1884740969, 1191970780, 254906639) }),
{
    lemma_table();
    lemma_double(9599438132641357076257148084845nat, 1028397505, 1124732843, 243768690, 96863809, 1692277643, 383066866, 1961193554, 702553548, 352007159, 612710124, 1335263670, 922007482, 2001543987, 1356909390, 109606491, 578354550, 912457165, 418852421, 1008592934, 125877632, 786837526, 1314470099, 190640867, 1566339397, 731362994, 997158617, 203710829, 60372072, 1996403831, 985998431, 433413941, 625055958, 846089245, 1348403756, 1047799706, -14047533808, -20671228865, -1967670866, -33267582848, -27579051890, -27525843356, -17626200907, 4663157464, 8858170967, 5995971301, 5585775378, 3443808882, 2650975405, 1967169977, 3464648604, 5320121170, 3346852405, 6583433803, 3739210076, 4136773662, 1748736799);
    lemma_double(19198876265282714152514296169690nat, 1314470099, 190640867, 1566339397, 731362994, 997158617, 203710829, 60372072, 1996403831, 985998431, 433413941, 625055958, 846089245, 1348403756, 1047799706, 830551292, 585439365, 577050491, 223852287, 1102553648, 762086386, 455436829, 1721311861, 1469961222, 705109593, 276914431, 415757643, 1670257815, 1567440142, 1608653007, 1337766592, 1325851202, 1802374294, 1708508293, 522404509, 80346125, -1487367118, 2158950257, 5890123590, 14419762989, 8977956744, 5967129140, -970876, 4797393275, 8027318232, 7964728810, 6864372025, 4999541922, 2785374418, 1686611626, -2560806699, -1625538486, -2930851025, -7712358822, -7563038804, -5174051850, -1850493684);
    lemma_double(38397752530565428305028592339380nat, 1721311861, 1469961222, 705109593, 276914431, 415757643, 1670257815, 1567440142, 1608653007, 1337766592, 1325851202, 1802374294, 1708508293, 522404509, 80346125, 1577924986, 857118901, 1973413202, 42000133, 381536832, 1979525474, 1945766563, 475829290, 614074726, 1975570176, 1654811985, 1565193102, 1966803043, 717002908, 1585553897, 646960844, 1148487379, 260074988, 1382525827, 586201956, 1605583249, -19173054028, -4811129957, 22635742489, 4237828907, -33069940666, -36728512862, -15708677695, 27404921838, 35764385188, 18447709701, 16686378135, 28111441210, 23047333596, 10512743852, -2080938241, -9988783819, -16848600706, -13666221085, -3264508049, 4768133061, 3453674093);
    lemma_double(76795505061130856610057184678760nat, 475829290, 614074726, 1975570176, 1654811985, 1565193102, 1966803043, 717002908, 1585553897, 646960844, 1148487379, 260074988, 1382525827, 586201956, 1605583249, 718404361, 1688609178, 1492319315, 780705518, 495631697, 242263808, 1844683204, 297677319, 982888812, 575341464, 1161975063, 663280325, 1420606843, 1874888545, 1668563828, 384403145, 1460221138, 343312535, 665144651, 331958815, 8619392, -67217325587, -94822085362, -81837360718, -57620215385, -35241470973, -7585269284, -3190073349, 18374360594, 26402018685, 18297578813, 11714083927, 7371514666, 11286279127, 7399417129, -1190325108, 3602896247, 4066490672, 4646919544, 5008606507, -2296964637, -1714610207);
    lemma_double(153591010122261713220114369357520nat, 297677319, 982888812, 575341464, 1161975063, 663280325, 1420606843, 1874888545, 1668563828, 384403145, 1460221138, 343312535, 665144651, 331958815, 8619392, 1702935077, 1556880694, 381076497, 419046978, 2033676948, 493262759, 461532875, 1675518186, 50939123, 59433944, 1691672472, 273525595, 1660969928, 2065980139, 29186352, 1305852706, 1325603320, 1275648845, 1027017180, 627712724, 1917967779, -36308797462, -51633975939, -55153094293, -51598375351, -53232052455, -47988547277, -18755925026, 9615249675, 18942032737, 14262963712, 9572259859, 7985435161, 5051261991, 2568366348, -2552399313, 265775535, 228372559, -1793257734, -2057420189, 174075313, -77295335);
    lemma_double(307182020244523426440228738715040nat, 1675518186, 50939123, 59433944, 1691672472, 273525595, 1660969928, 2065980139, 29186352, 1305852706, 1325603320, 1275648845, 1027017180, 627712724, 1917967779, 2012308217, 63386263, 1297214825, 1363441387, 273249027, 347892234, 1520389558, 642519712, 2001897837, 1949362454, 669025899, 336918108, 1615910421, 1140386476, 484239467, 2128989934, 747211608, 1805571649, 1728788135, 1471469453, 755054420, 10798248505, -2219253463, -37373506676, -39488407508, -46873515258, -44103385311, -16527188429, 6219346895, 14368843294, 19621967744, 10991431633, 5209732127, 9247467451, 7352368561, -6800184697, -9464204765, 3580997545, 4739265352, -1137147864, 3224552510, 3648895559);
    lemma_add(614364040489046852880457477430080nat, 5nat, 642519712, 2001897837, 1949362454, 669025899, 336918108, 1615910421, 1140386476, 484239467, 2128989934, 747211608, 1805571649, 1728788135, 1471469453, 755054420, 1802183323, 578369319, 705392214, 905316741, 1750073676, 1742753354, 654289264, 2084298943, 733094976, 245856367, 2114401684, 1776653011, 910007018, 1131772051, 1203332040, 1965541702, 1345041935, 1448055271, 10053271, 1151157435, 952029397, 2048520350, 535182462, 1855370112, 1663085545, 270862535, 1821934701, 724324764, 126323528, 1584249723, 1804188551, 1387926391, 606706105, 511824115, 1124992692, -2919892917, -5089805950, -513585114, 3981584162, 332029301, -405013453, -13244266, 16797091055, 25724093579, 18156943659, 11186415014, 10568341049, 8360031921, 5472128298, 4206381755, 670967320, -1231241981, -1283549973, 593963248, -44051235, 133394970);
    lemma_double(614364040489046852880457477430085nat, 2048520350, 535182462, 1855370112, 1663085545, 270862535, 1821934701, 724324764, 126323528, 1584249723, 1804188551, 1387926391, 606706105, 511824115, 1124992692, 925280235, 1546931307, 803904000, 1560251579, 533558180, 257302571, 522211434, 745840524, 703609202, 765838524, 1985274404, 1267462851, 1859458852, 1220806144, 900085716, 1701862835, 1159065601, 739591087, 2030476135, 519454840, 945363173, -41115709055, -69208982037, -45293129803, -34546000633, -31321658921, -24285095842, -7236374985, 9071034357, 11067549194, 9003108455, 6666444389, 4540703296, 3193878100, 2756269467, -4908204158, -3592893778, -2727695460, -2040894228, -1517843226, -764303512, -648065323);
    lemma_double(1228728080978093705760914954860170nat, 745840524, 703609202, 765838524, 1985274404, 1267462851, 1859458852, 1220806144, 900085716, 1701862835, 1159065601, 739591087, 2030476135, 519454840, 945363173, 1358346526, 931432865, 1048052206, 283530837, 516844746, 235252171, 1437299748, 25360881, 1908564235, 1580677877, 940914762, 242112982, 151250094, 985332151, 1248968564, 1605445797, 106885096, 1136441441, 830469500, 142852244, 1174701231, -43265064867, -82246148755, -90541587089, -65915781806, -47308081042, -26763364994, -10993613300, 8993997019, 14074112023, 9032527190, 6384088687, 5179116285, 6830669142, 5493101840, 2610092521, 1624749966, 6097634482, 8289878828, 9427476839, 6058863752, 2172020019);
    lemma_add(2457456161956187411521829909720340nat, 1nat, 25360881, 1908564235, 1580677877, 940914762, 242112982, 151250094, 985332151, 1248968564, 1605445797, 106885096, 1136441441, 830469500, 142852244, 1174701231, 21053971, 90322736, 156256384, 23627556, 34171264, 126183783, 25645942, 2020310104, 1513506566, 1843922297, 2003644209, 805967281, 1882435203, 1623804682, 518809562, 240724892, 927931849, 2037372493, 155253801, 145291895, 888790530, 571137139, 697769285, 1307828509, 725698081, 531661682, 1791320692, 388167397, 54119101, 842350019, 1212477587, 233277664, 1884740969, 1191970780, 254906639, -6204014840, -9733952021, -10476937257, -5920990517, -3368128510, -4153164018, -2634699193, 3247754501, 7306645135, 12273464141, 7061660748, 1964439008, 4097766573, 3661245429, -2054416222, -6923598912, -1029098086, 707745867, -2593729267, -711161409, 661877201);
}

/// Part 14 of the chain.
proof fn lemma_part_14()
    requires
        generator().times(2457456161956187411521829909720341nat) == (Point::Affine { x: literal::fe(571137139, 697769285, 1307828509, 725698081, 531661682, 1791320692, 388167397), y: literal::fe(54119101, 842350019, 1212477587, 233277664, 1884740969, 1191970780, 254906639) }),
    ensures
        generator().times(1258217554921567954699176913776814652nat) == (Point::Affine { x: literal::fe(951154918, 2129147869, 374955450, 1724000030, 1609743944, 502536014, 913889913), y: literal::fe(325637962, 893056839, 272182181, 729027645, 890845944, 1003514202, 506237644) }),
{
    lemma_table();
    lemma_double(2457456161956187411521829909720341nat, 571137139, 697769285, 1307828509, 725698081, 531661682, 1791320692, 388167397, 54119101, 842350019, 1212477587, 233277664, 1884740969, 1191970780, 254906639, 77620502, 1875231802, 1380649550, 661078180, 1109152729, 1944898408, 10148477, 870970887, 1972032886, 1442662253, 292797876, 1267561964, 544006897, 1403529137, 586852927, 175691476, 957483128, 1767771177, 345946356, 696719169, 1812681545, -14549974628, -19515012424, -368108657, -9557997646, -17316748135, -6655979321, 31890616, 16135930163, 18803420397, 17298919252, 17501145548, 7589282526, 3006580776, 5066808712, -1098450218, -2260357365, -3776176211, 1004614181, -3069549246, -4087372537, -531030618);
    lemma_double(4914912323912374823043659819440682nat, 870970887, 1972032886, 1442662253, 292797876, 1267561964, 544006897, 1403529137, 586852927, 175691476, 957483128, 1767771177, 345946356, 696719169, 1812681545, 1665933043, 675433799, 888296943, 100330983, 1318010830, 1520888405, 1058071814, 1556821064, 184134952, 1648570570, 1278244846, 111172389, 1354625068, 1577669277, 1780728779, 1252791150, 453807735, 374326079, 402758728, 1568852592, 946555427, -27940618800, -35528826664, -14798706830, -13835074891, -4351315392, -7112106115, -8903896117, 11617877337, 16449160182, 17031556865, 18636775947, 17231251177, 10456126862, 5298738700, -1573311794, -447299501, -1351299699, -1203824996, -2804621921, -2084245829, 591394712);
    lemma_double(9829824647824749646087319638881364nat, 1556821064, 184134952, 1648570570, 1278244846, 111172389, 1354625068, 1577669277, 1780728779, 1252791150, 453807735, 374326079, 402758728, 1568852592, 946555427, 407587776, 1419168480, 394538542, 116895800, 1421209899, 380583382, 1463903684, 201965927, 240034563, 712119789, 1002799211, 513399279, 2054370746, 319626773, 1793696135, 1067536138, 1115204411, 2092335980, 1301581651, 378231685, 2075796561, -18920073755, -59669807509, -52212950725, -18299947576, -21367012502, -29889768615, -10904954439, 11312806817, 14943163714, 9033450382, 12679627985, 9449906991, 8679867310, 4617113365, 5253552201, 6982630669, 847749890, 2088404801, 1213683562, 3458876546, 3853729113);
    lemma_double(19659649295649499292174639277762728nat, 201965927, 240034563, 712119789, 1002799211, 513399279, 2054370746, 319626773, 1793696135, 1067536138, 1115204411, 2092335980, 1301581651, 378231685, 2075796561, 134865215, 242495944, 839045931, 736947440, 1142463869, 386493539, 1638863018, 1482841197, 1031901294, 480226482, 1731478178, 217266152, 821265177, 1032650608, 419082537, 1673739767, 1551921287, 2008915660, 148576084, 1035190862, 850821892, 1048961566, -4297529975, 6470487318, -3666410724, -6189850765, 14737305943, 12296275566, 7347132048, 15287150747, 14386468179, 14066638243, 9098320972, 8975811845, 5231769196, -2335406099, 204928546, 11258502, -705478508, 3369475280, -1036709173, -2690006317);
    lemma_double(39319298591298998584349278555525456nat, 1482841197, 1031901294, 480226482, 1731478178, 217266152, 821265177, 1032650608, 419082537, 1673739767, 1551921287, 2008915660, 148576084, 1035190862, 850821892, 1896552664, 1875314239, 426415025, 1777137227, 215066709, 1000452949, 750613403, 2061390510, 2072236732, 1815874071, 394667713, 242687057, 225887746, 275790748, 1232496468, 2024796461, 389718646, 1971009686, 2023155891, 1190493763, 2008507561, -2192662912, -2446725324, -10568735362, -9675481077, -4262438371, -7262683328, -4991484498, 12090536674, 19535007599, 15653101089, 11382931768, 8984731829, 6307709647, 5458929656, -988022539, 2294174941, 5939454783, 4509658173, 3827120493, 2312939582, 2280370808);
    lemma_double(78638597182597997168698557111050912nat, 2061390510, 2072236732, 1815874071, 394667713, 242687057, 225887746, 275790748, 1232496468, 2024796461, 389718646, 1971009686, 2023155891, 1190493763, 2008507561, 568726907, 2112166474, 1216599104, 609804112, 2125548436, 1476318118, 1422985935, 646314228, 1155349532, 1850458712, 1198259744, 540059264, 781144518, 833954994, 997892336, 374560890, 168017695, 510199303, 2050673144, 1036956412, 1041720210, 47887657239, 66019491047, 57102129983, 57951279070, 45983450063, 33595070388, 15448380467, 28770663077, 41251101468, 35314594654, 33327512346, 24483870350, 16366011787, 9139432987, -5465922460, -8629464486, -9636691638, -9390074482, -6429899937, -3153127207, -671652529);
    lemma_double(157277194365195994337397114222101824nat, 646314228, 1155349532, 1850458712, 1198259744, 540059264, 781144518, 833954994, 997892336, 374560890, 168017695, 510199303, 2050673144, 1036956412, 1041720210, 545260327, 90352985, 166919731, 283266286, 1289930118, 1150326152, 1379194258, 900424679, 159377565, 1499839248, 1134498301, 1141859675, 1061566057, 1041553150, 1458579297, 808150004, 1119083240, 1020532413, 2014921579, 1572758650, 658091767, -32706323541, -39912479892, -14051757470, 8155980244, 4613528044, -3317104174, -4809054416, 3340446318, 8481170637, 12795534723, 16892558013, 15016199942, 9673853231, 3721446686, 3743986735, 1747026603, -2762406421, -4700635254, -3613077213, -1132566237, 78669739);
    lemma_add(314554388730391988674794228444203648nat, 15nat, 900424679, 159377565, 1499839248, 1134498301, 1141859675, 1061566057, 1041553150, 1458579297, 808150004, 1119083240, 1020532413, 2014921579, 1572758650, 658091767, 1985005590, 1034601703, 728293283, 1421243589, 1794146164, 691082254, 1568020826, 181141497, 400751978, 83536582, 596391389, 2106082275, 1086428455, 1852170896, 423378100, 1379501270, 723603702, 82544614, 153897569, 1710592679, 326841511, 1761964409, 832162460, 2085963650, 1477197760, 1271398585, 1595403711, 94532000, 1618817650, 2005647579, 825962724, 1686118729, 800375826, 586850404, 869877174, -905221425, 1820713957, 4558383548, 783831194, 1516593286, 2851426875, 1152947049, 8069144414, 7167482137, 3639810340, 8889712535, 7299347379, 2760211761, 2603031543, -1029632529, -1573844518, -1857199642, -3084989349, 1716929311, 1692271021, -493534930);
    lemma_double(314554388730391988674794228444203663nat, 1761964409, 832162460, 2085963650, 1477197760, 1271398585, 1595403711, 94532000, 1618817650, 2005647579, 825962724, 1686118729, 800375826, 586850404, 869877174, 621176098, 1598124085, 1418507488, 1496067820, 1080702052, 1641792335, 134105214, 533710994, 133046350, 1481982943, 1765174373, 1804723941, 550344317, 1834645589, 507345041, 1819851550, 948578502, 1961305003, 605603299, 1064382171, 1749704864, -45605364316, -45693102845, -31805033367, -23752510281, -8497214509, -6641418278, -5503921906, 19705206524, 27807550730, 20391357798, 15567018424, 9055363896, 5232631497, 5055750965, -2744728977, -5131999227, -6723219791, -2220085371, -5563474951, -2934728573, 313053916);
    lemma_double(629108777460783977349588456888407326nat, 533710994, 133046350, 1481982943, 1765174373, 1804723941, 550344317, 1834645589, 507345041, 1819851550, 948578502, 1961305003, 605603299, 1064382171, 1749704864, 1618248194, 1365721436, 1602880453, 1581686965, 938099287, 902183786, 243411375, 951154918, 2129147869, 374955450, 1724000030, 1609743944, 502536014, 913889913, 325637962, 893056839, 272182181, 729027645, 890845944, 1003514202, 506237644, -20955799655, -51351086765, -59879286075, -53631555345, -25556983542, -25137262327, -17562654928, 16539946420, 21854463684, 15445195927, 10906453304, 7478063129, 5710146403, 4195259531, 4831525667, 6095045366, 6080069856, 3544310388, 2662063993, 1670368927, 817271889);
}

/// Part 15 of the chain.
proof fn lemma_part_15()
    requires
        generator().times(1258217554921567954699176913776814652nat) == (Point::Affine { x: literal::fe(951154918, 2129147869, 374955450, 1724000030, 1609743944, 502536014, 913889913), y: literal::fe(325637962, 893056839, 272182181, 729027645, 890845944, 1003514202, 506237644) }),
    ensures
        generator().times(322103694059921396402989289926864551776nat) == (Point::Affine { x: literal::fe(1418470778, 1099382084, 1828183447, 2058634507, 1913292368, 476493933, 974916674), y: literal::fe(359023668, 1396643861, 390677729, 2002672986, 437437664, 1226554747, 1458308298) }),
{
    lemma_table();
    lemma_double(1258217554921567954699176913776814652nat, 951154918, 2129147869, 374955450, 1724000030, 1609743944, 502536014, 913889913, 325637962, 893056839, 272182181, 729027645, 890845944, 1003514202, 506237644, 1479758374, 777072266, 1300844540, 422786874, 1747821598, 1954092801, 50640324, 1917354270, 471797395, 1971726283, 961755540, 611198182, 1404027874, 2108870453, 1020148163, 800709836, 963917144, 126615375, 495435687, 1275936182, 23482587, -51516229657, -50766868050, -31628850989, -22954488168, -18794950612, -14423856999, -9888581703, 16610672410, 21784431747, 25033364153, 20590042097, 9620298629, 4789986622, 3717332353, -8610068146, -1105895016, 407357953, -8277389480, -11403716143, -3134033558, -295823103);
    lemma_double(2516435109843135909398353827553629304nat, 1917354270, 471797395, 1971726283, 961755540, 611198182, 1404027874, 2108870453, 1020148163, 800709836, 963917144, 126615375, 495435687, 1275936182, 23482587, 1246163491, 1254003978, 322472747, 1514461748, 238001421, 419839097, 1220790075, 1397461105, 1603229565, 1782003290, 1121034202, 877240770, 1192429606, 169538291, 554117052, 210715647, 27286514, 1898351524, 1062274055, 1084313063, 1978091843, -53027017503, -94594056944, -84780564825, -53891211092, -57985588357, -61441258151, -33092907737, 10240728782, 12138634726, 13240115817, 9415981891, 5581667764, 6170200311, 5169011186, 2082246945, 3168703091, 7290240111, 4521418439, 1867744738, 7119790132, 4534845624);
    lemma_add(5032870219686271818796707655107258608nat, 13nat, 1397461105, 1603229565, 1782003290, 1121034202, 877240770, 1192429606, 169538291, 554117052, 210715647, 27286514, 1898351524, 1062274055, 1084313063, 1978091843, 242534996, 683839544, 1070396237, 772964424, 1708803322, 1358032456, 443139177, 373830437, 299366337, 159102850, 1632830748, 1883418206, 400996964, 1690077110, 1185607041, 1722549855, 1340456214, 1525079511, 1834895969, 1441068632, 909761391, 1947446127, 336857358, 1733443359, 667721531, 1830378192, 974255725, 680690224, 715702039, 804668424, 617976078, 1787590487, 824133105, 1876423932, 1710828375, -1907715033, 133297476, 3297956533, 3596082442, 1467788085, -185397099, -817156327, 30214051581, 43588413060, 36169388352, 27925424353, 19128882262, 12123484764, 7908139842, -277371396, -3017268623, -4417212349, -4690643125, -3062104450, -1459538280, -374483027);
    lemma_double(5032870219686271818796707655107258621nat, 1947446127, 336857358, 1733443359, 667721531, 1830378192, 974255725, 680690224, 715702039, 804668424, 617976078, 1787590487, 824133105, 1876423932, 1710828375, 851538090, 348507513, 999436116, 395495759, 202437001, 76935692, 1457328592, 914754188, 1589278568, 2040264047, 1423633143, 2036996533, 1958698308, 1078082161, 1109118873, 1878817698, 275710343, 414938136, 623414912, 1596009455, 145006926, -28427812844, -47361427462, -41579485928, -27354181339, -18300130334, 4450356542, -4583060149, 3460622016, 9225511031, 7878862039, 3708441727, 2125290989, 5798279340, 4443619856, -7110416654, -7975055001, -5179666659, -3896489729, -4566721629, -4342483992, -740519582);
    lemma_add(10065740439372543637593415310214517242nat, 1nat, 914754188, 1589278568, 2040264047, 1423633143, 2036996533, 1958698308, 1078082161, 1109118873, 1878817698, 275710343, 414938136, 623414912, 1596009455, 145006926, 21053971, 90322736, 156256384, 23627556, 34171264, 126183783, 25645942, 2020310104, 1513506566, 1843922297, 2003644209, 805967281, 1882435203, 1623804682, 356453948, 1596249882, 235947820, 1197229283, 1940485248, 234581257, 1502769408, 713527475, 250361113, 220726604, 1374882185, 115184978, 545105453, 1510095514, 667971463, 1002290095, 567831373, 44371707, 1970221951, 2113971540, 542878166, -23431455739, -37155215884, -32237494314, -25582386913, -18008738613, -12420533933, -7295343023, 22481070390, 25805395605, 18946213099, 20917524553, 12412843032, 9543271272, 5136441500, 10542610626, 25606911290, 19138899191, 11092581037, 9595141290, 5270381294, 2259291243);
    lemma_double(10065740439372543637593415310214517243nat, 713527475, 250361113, 220726604, 1374882185, 115184978, 545105453, 1510095514, 667971463, 1002290095, 567831373, 44371707, 1970221951, 2113971540, 542878166, 939569467, 688704905, 1229602739, 1181738372, 1391169759, 350501666, 991264202, 1453093346, 1913562333, 1651242200, 158269726, 149826338, 771280517, 602168808, 529088204, 1839215585, 481833461, 231229274, 1019167205, 852198735, 851825892, 21393494304, 28822792212, 590486567, 5119493581, 9262502161, -10728758560, -8407144549, 13356809961, 20578880576, 16416886662, 13269249810, 8387319053, 5856579583, 4745374330, -681180413, -1632948066, 2717270603, 4150056224, -13800248, 834532428, 697538874);
    lemma_double(20131480878745087275186830620429034486nat, 1453093346, 1913562333, 1651242200, 158269726, 149826338, 771280517, 602168808, 529088204, 1839215585, 481833461, 231229274, 1019167205, 852198735, 851825892, 840714538, 1931841886, 1405792090, 1978638887, 1761871975, 1022859256, 2012167595, 1245356834, 2064175567, 1500012355, 1493904676, 855561621, 29560033, 1085691560, 377556228, 416553452, 358034201, 534086156, 1297148900, 1068470981, 1006285639, 7359198707, 12274509194, 18612607017, 21660328221, 15623980893, 11421375330, 3496826360, 41685261996, 56395453826, 48039786786, 39490423748, 27021556825, 21909808018, 13305652940, -8810318777, -8767282842, -9255374484, -8154917759, -1146743790, -1990907337, -2345169864);
    lemma_double(40262961757490174550373661240858068972nat, 1245356834, 2064175567, 1500012355, 1493904676, 855561621, 29560033, 1085691560, 377556228, 416553452, 358034201, 534086156, 1297148900, 1068470981, 1006285639, 1970514448, 1769799647, 297228547, 986463730, 1144772074, 1478364920, 1542299572, 115401576, 1948946225, 1510937370, 679179083, 1215302984, 745154838, 1683331906, 2093644006, 1789574830, 1776882165, 1098813958, 129464361, 1595779950, 977924554, -27435966875, -30499108443, -15179446548, -2740972613, 9064901442, 1740550478, -5341858986, 21995251300, 27448423789, 24345838181, 24783452551, 22547735075, 16913945744, 9433847278, -201130335, 44586359, -1513633886, -5069477251, -6894274439, -4967018571, -1225881689);
    lemma_double(80525923514980349100747322481716137944nat, 115401576, 1948946225, 1510937370, 679179083, 1215302984, 745154838, 1683331906, 2093644006, 1789574830, 1776882165, 1098813958, 129464361, 1595779950, 977924554, 1027547857, 1215424457, 729600061, 254732773, 2112828346, 149136533, 746057142, 1908091235, 106433641, 324509985, 505047934, 1718646901, 1957444340, 1293935454, 634352653, 280125596, 1460980124, 961116216, 1854587126, 1531145546, 1658617237, -42062066873, -62759508696, -32448377815, -29895262348, -24417479386, -26452784348, -12015562493, 7787925064, 18756183639, 11692890124, 9950706165, 7570592689, 4348208104, 3150823149, 2373933246, 1393510046, -4889099229, -1586960732, -2905535308, 521344156, 431492935);
    lemma_double(161051847029960698201494644963432275888nat, 1908091235, 106433641, 324509985, 505047934, 1718646901, 1957444340, 1293935454, 634352653, 280125596, 1460980124, 961116216, 1854587126, 1531145546, 1658617237, 519979209, 1394003733, 109974257, 383798060, 642371736, 1581372463, 1895824861, 1418470778, 1099382084, 1828183447, 2058634507, 1913292368, 476493933, 974916674, 359023668, 1396643861, 390677729, 2002672986, 437437664, 1226554747, 1458308298, 3294928608, -6025914167, -34035196070, -41580862114, -31716659023, -9449848472, -1909872248, 14503528081, 14101679214, 12025347776, 16824625480, 21842230400, 18528458400, 8190477277, -10969391306, -17907391674, -12904772410, 716136396, 9665921981, 6029711334, 853787821);
}

/// Part 16 of the chain.
proof fn lemma_part_16()
    requires
        generator().times(322103694059921396402989289926864551776nat) == (Point::Affine { x: literal::fe(1418470778, 1099382084, 1828183447, 2058634507, 1913292368, 476493933, 974916674), y: literal::fe(359023668, 1396643861, 390677729, 2002672986, 437437664, 1226554747, 1458308298) }),
    ensures
        generator().times(82458545679339877479165258221277325255444nat) == (Point::Affine { x: literal::fe(1779689884, 1309620393, 853107151, 2007618750, 1273682750, 729641173, 834036946), y: literal::fe(539658465, 1453845, 260922818, 1024534839, 1954436762, 1246826354, 145427072) }),
{
    lemma_table();
    lemma_add(322103694059921396402989289926864551776nat, 3nat, 1418470778, 1099382084, 1828183447, 2058634507, 1913292368, 476493933, 974916674, 359023668, 1396643861, 390677729, 2002672986, 437437664, 1226554747, 1458308298, 467654231, 140529359, 225453094, 213767998, 2119372174, 826826390, 509908472, 910517402, 540189181, 1590228616, 15157234, 601371048, 1082043944, 1009642449, 180633790, 745769350, 1459422831, 433443292, 1431255686, 1346275842, 1422069843, 2000405008, 2041938765, 95725219, 738959690, 1825146571, 1583080600, 1707863461, 61258649, 1555975995, 639111665, 1851962833, 402158601, 1457356391, 754299212, -13944389468, -20453196451, -12957007722, -4215926426, -2720147788, -4464460575, -3399043370, 17125554131, 27678792222, 22816386290, 22062463481, 18814375396, 11960679134, 6079723372, 1728002071, 7393671885, 3605094586, -5577114396, -8333050703, -5858353747, -1408365522);
    lemma_double(322103694059921396402989289926864551779nat, 2000405008, 2041938765, 95725219, 738959690, 1825146571, 1583080600, 1707863461, 61258649, 1555975995, 639111665, 1851962833, 402158601, 1457356391, 754299212, 2064475976, 1193710711, 1075413725, 1170833822, 136444409, 1260649580, 259321770, 747376904, 157647504, 471031019, 253098963, 350224362, 1967173951, 629926880, 1444935006, 96881142, 1517630681, 1903152848, 80930242, 1203155543, 167131957, -55087742063, -56577858167, -63155103714, -79950084870, -72318338767, -52207633087, -24279802461, 10565673592, 15732306047, 9952932399, 8708654867, 5990646841, 4856086879, 2790854904, 7508647948, 9650623568, 10829734634, 6505058466, 5646486491, 3784210461, 3477555055);
    lemma_double(644207388119842792805978579853729103558nat, 747376904, 157647504, 471031019, 253098963, 350224362, 1967173951, 629926880, 1444935006, 96881142, 1517630681, 1903152848, 80930242, 1203155543, 167131957, 1913281816, 2049538459, 1458114418, 1082327016, 480494903, 1948534777, 2017125932, 610613264, 1599689738, 915763201, 1233589826, 1001582304, 1843969381, 1807699159, 1564269221, 1944305321, 1577174905, 502651193, 576113302, 448753584, 322758936, 15455936133, 37968585960, 30532318736, -4782351815, -9978609414, 589725828, 4776017573, 36896125388, 49031197103, 33776696331, 26991680859, 30464712851, 26521117855, 14307419419, -16739447779, -22320584938, -18788688561, -12356549622, -9644926337, -10069188734, -6517416123);
    lemma_double(1288414776239685585611957159707458207116nat, 610613264, 1599689738, 915763201, 1233589826, 1001582304, 1843969381, 1807699159, 1564269221, 1944305321, 1577174905, 502651193, 576113302, 448753584, 322758936, 1974329316, 803058715, 1338852002, 1548406002, 641312310, 1384952335, 1320305213, 1215416292, 2107502189, 755797289, 612426236, 494259309, 1506764238, 1533516491, 942299780, 1042196018, 488178589, 182423593, 2063897514, 778137896, 45931354, -47478071987, -70213707722, -71069599082, -69487786947, -68500816760, -49707161939, -20936516713, 20168607942, 31817744945, 28142752098, 20611735749, 16863897384, 14235789291, 7876380176, 2740443352, 6646579078, 7872588352, 6003859823, 4037716147, 2475267148, 1004337392);
    lemma_double(2576829552479371171223914319414916414232nat, 1215416292, 2107502189, 755797289, 612426236, 494259309, 1506764238, 1533516491, 942299780, 1042196018, 488178589, 182423593, 2063897514, 778137896, 45931354, 1909875481, 1421459105, 172508786, 2045701150, 1178514131, 869197590, 1687739678, 1304952433, 1201130367, 1206931204, 486727239, 1698567390, 2050866753, 1577774244, 1935505417, 863990027, 379401513, 1283995736, 191862451, 819115339, 2062232465, -34183547509, -31859725233, -20019683896, -15962996900, -29373902547, -34257568841, -20797571637, 24990055968, 29486038110, 30051774982, 27612488093, 18405917646, 14277209497, 10350886218, -3212302766, -8617327223, -7977226985, -8408229669, -6057798395, -2771705417, -435352936);
    lemma_double(5153659104958742342447828638829832828464nat, 1304952433, 1201130367, 1206931204, 486727239, 1698567390, 2050866753, 1577774244, 1935505417, 863990027, 379401513, 1283995736, 191862451, 819115339, 2062232465, 1803561552, 793306294, 559527757, 1967720027, 990594917, 960047021, 2025261945, 2098486074, 201711938, 1224012113, 1206741978, 1008249663, 1190020583, 779701641, 948172023, 1875019580, 1589981954, 1935838601, 839632240, 149968488, 266327479, -44803117968, -66832966224, -50850650717, -65990410745, -64890154811, -24495790278, -6210675923, 20736422528, 29356048745, 34301713334, 29226528635, 19361701261, 18496774308, 12256077177, 8169451806, 10779472433, 6923333729, 8280837808, 11000200721, 8214337607, 2476232918);
    lemma_double(10307318209917484684895657277659665656928nat, 2098486074, 201711938, 1224012113, 1206741978, 1008249663, 1190020583, 779701641, 948172023, 1875019580, 1589981954, 1935838601, 839632240, 149968488, 266327479, 1054262293, 1370638947, 962971421, 1893909727, 1046607474, 1076868961, 210163892, 354950539, 1877281453, 54196555, 592576457, 1523695254, 1825781818, 1667592190, 124752542, 1337776685, 28649693, 918779295, 1156630634, 1076592957, 32764293, -15867581995, -27280047783, -37011863149, -31158975377, -22186010976, -14117995499, -4918063307, 16043410624, 23761651497, 16847658152, 11161319632, 7221890718, 4865037468, 4285076291, -2082388825, -5443468843, -8599571532, -6096855656, -4946328227, -1242866864, -898323865);
    lemma_add(20614636419834969369791314555319331313856nat, 5nat, 354950539, 1877281453, 54196555, 592576457, 1523695254, 1825781818, 1667592190, 124752542, 1337776685, 28649693, 918779295, 1156630634, 1076592957, 32764293, 1802183323, 578369319, 705392214, 905316741, 1750073676, 1742753354, 654289264, 2084298943, 733094976, 245856367, 2114401684, 1776653011, 910007018, 1131772051, 1887785848, 532360760, 1192032595, 1631065953, 1068948235, 1031404456, 982131181, 129901390, 1231651312, 902436828, 373562736, 1804320557, 978038635, 1791936005, 914327175, 293506803, 1844757016, 1948877963, 914729943, 1702960210, 1509798159, 17560067, -1874703460, -1951949183, -3090872897, -3601747378, -3216334574, -1588663529, 18079517594, 26858920177, 24580803882, 18525063094, 12584407492, 9302828420, 6058473563, 1325666685, 2072160014, 1472706161, 2494422427, 2247414559, 1292149052, -68932603);
    lemma_double(20614636419834969369791314555319331313861nat, 129901390, 1231651312, 902436828, 373562736, 1804320557, 978038635, 1791936005, 914327175, 293506803, 1844757016, 1948877963, 914729943, 1702960210, 1509798159, 102103911, 2091237422, 342072252, 1114696981, 880841432, 613420671, 2043511388, 114978094, 1355419919, 1486894923, 1013515840, 569567871, 1978317968, 1208295990, 1370911971, 1118834655, 1039427227, 1291074261, 1881833283, 45109977, 1068037650, -14407754245, -19724425941, -6875979933, -29552778151, -20934493663, -12804442265, -4436009427, 25654474959, 23900786747, 20298355251, 18045278931, 13809182142, 15475084908, 8145611157, 2534144105, -1790893875, -3971224480, 3971865346, -1265351951, 1133397558, 325983453);
    lemma_double(41229272839669938739582629110638662627722nat, 114978094, 1355419919, 1486894923, 1013515840, 569567871, 1978317968, 1208295990, 1370911971, 1118834655, 1039427227, 1291074261, 1881833283, 45109977, 1068037650, 184991838, 1432366581, 1083717406, 133099195, 1602042954, 1769545198, 1860365081, 1779689884, 1309620393, 853107151, 2007618750, 1273682750, 729641173, 834036946, 539658465, 1453845, 260922818, 1024534839, 1954436762, 1246826354, 145427072, -35690752729, -36350728613, -15030708996, -18598783806, -33680786267, -14705768936, -4207869444, 22523349314, 30343394083, 25572303758, 31496177268, 29260082978, 19988396020, 9213138414, 3163515503, -1796704678, -4813230016, 2305779499, 7460397857, 3658010145, 493087723);
}

/// Part 17 of the chain.
proof fn lemma_part_17()
    requires
        generator().times(82458545679339877479165258221277325255444nat) == (Point::Affine { x: literal::fe(1779689884, 1309620393, 853107151, 2007618750, 1273682750, 729641173, 834036946), y: literal::fe(539658465, 1453845, 260922818, 1024534839, 1954436762, 1246826354, 145427072) }),
    ensures
        generator().times(21109387693911008634666306104646995265393968nat) == (Point::Affine { x: literal::fe(215423883, 1611935390, 1316091490, 1557241484, 241217617, 619213875, 1870294274), y: literal::fe(628857851, 1107510699, 700229685, 161317519, 859570996, 361398031, 1619844954) }),
{
    lemma_table();
    lemma_double(82458545679339877479165258221277325255444nat, 1779689884, 1309620393, 853107151, 2007618750, 1273682750, 729641173, 834036946, 539658465, 1453845, 260922818, 1024534839, 1954436762, 1246826354, 145427072, 1695192784, 1272845332, 370589360, 1211135340, 1988901492, 1268971677, 1045663845, 1921612041, 1669851070, 813517010, 1807729845, 952038727, 157317151, 1697657295, 1068120906, 1389059132, 137330085, 996649138, 2027550000, 623515739, 973306769, -38475768021, -35938582474, -19071552331, -15498076879, -11159077800, -12692480954, -13531188646, 21107705959, 32195215760, 30127667288, 26582775908, 19027508602, 11119162074, 6099775952, -1113721383, 2097263401, 3298057655, -498859220, -2044697142, -2535575352, -1694361470);
    lemma_double(164917091358679754958330516442554650510888nat, 1921612041, 1669851070, 813517010, 1807729845, 952038727, 157317151, 1697657295, 1068120906, 1389059132, 137330085, 996649138, 2027550000, 623515739, 973306769, 1900185123, 14420040, 525807890, 2036151605, 153820786, 608498653, 835532930, 1082765103, 175313847, 177886596, 1259431366, 895281494, 1537193477, 1496301226, 154663214, 1318067079, 927150975, 826649083, 1307635207, 1611806479, 814687134, -41702717904, -46210455915, -43378559489, -37118378823, -14110672091, -22358641245, -20290854068, 4722727568, 9774966651, 14121195254, 10165219899, 3701084755, 5162281263, 4503155873, 3359373973, -1389772788, -172943151, 849386510, -1789874534, -1196015471, 1746734454);
    lemma_double(329834182717359509916661032885109301021776nat, 1082765103, 175313847, 177886596, 1259431366, 895281494, 1537193477, 1496301226, 154663214, 1318067079, 927150975, 826649083, 1307635207, 1611806479, 814687134, 1389331428, 1796534276, 401973378, 399271076, 434488055, 1277195087, 1737734199, 1450926062, 1770290442, 1095352927, 957406719, 1106123683, 805756473, 1134619170, 1635243639, 2052898940, 1937615334, 471649328, 884206015, 372927717, 953470254, 5485078214, -11302682318, -33757208383, -30150191209, -21851635791, -17801652030, -6679166918, 18781565152, 19182941925, 11568545018, 12086441970, 16155004944, 15884960168, 8910429785, -7168732890, -7532190949, -1542925966, 1765253406, 4657530102, 3553178816, 310890395);
    lemma_add(659668365434719019833322065770218602043552nat, 9nat, 1450926062, 1770290442, 1095352927, 957406719, 1106123683, 805756473, 1134619170, 1635243639, 2052898940, 1937615334, 471649328, 884206015, 372927717, 953470254, 1376664870, 36574570, 1928160573, 1962407885, 1663510037, 647561982, 769847015, 469491965, 368216404, 512731201, 1930432655, 1288047098, 1242897166, 1754810551, 1437109959, 1082709003, 1189373840, 1578714499, 710350888, 1692849870, 1520753111, 1580705742, 2010128723, 928981480, 835228218, 822839387, 915268278, 1104893842, 372234281, 1231547047, 965057112, 199586920, 1555966447, 1099647322, 1866310417, -556897193, 4778190236, 7598558831, 3342283312, -1519837442, -1792319852, -1204482580, 23409767329, 37140769173, 32395698627, 25280143878, 22385904463, 17444488200, 8990849815, 740490495, 1497656343, 2143965463, 1455730307, 227600117, 20932378, 48992555);
    lemma_double(659668365434719019833322065770218602043561nat, 1580705742, 2010128723, 928981480, 835228218, 822839387, 915268278, 1104893842, 372234281, 1231547047, 965057112, 199586920, 1555966447, 1099647322, 1866310417, 1751906098, 905897641, 1921529496, 1909408126, 1282383698, 1888421481, 149683970, 1217823332, 918035303, 1450803459, 1811919959, 2097416968, 1723825880, 2052064153, 921090090, 295219340, 668281995, 2069578967, 628196647, 1010368293, 1013059681, -13410056227, -4393256475, 12266777756, 6640399586, 2617822826, -8991646108, -7038410270, 30599087616, 41116705307, 29531086922, 21667348622, 12353531429, 8488304036, 5907537949, -15940001537, -24931641500, -22050434625, -14197003441, -9346753854, -4597745015, -2667528304);
    lemma_add(1319336730869438039666644131540437204087122nat, 1nat, 1217823332, 918035303, 1450803459, 1811919959, 2097416968, 1723825880, 2052064153, 921090090, 295219340, 668281995, 2069578967, 628196647, 1010368293, 1013059681, 21053971, 90322736, 156256384, 23627556, 34171264, 126183783, 25645942, 2020310104, 1513506566, 1843922297, 2003644209, 805967281, 1882435203, 1623804682, 914812967, 384958968, 201166431, 578948737, 64538425, 1086446574, 175211321, 439563720, 1700349907, 1621489881, 1404511637, 944366158, 1995984373, 1104885179, 1217424846, 1672252640, 1398987563, 203736586, 27924313, 756286369, 755134606, -9813298772, -14682399891, -14927549070, -12027738795, -10552593897, -6541723362, -2898973272, 1910438992, 4368416511, 2923804301, 3875891158, 2870792087, 1673647591, 755754262, 1932708841, 1984379748, 4943975750, 2817042660, 2620688125, 2227896854, 470649483);
    lemma_double(1319336730869438039666644131540437204087123nat, 439563720, 1700349907, 1621489881, 1404511637, 944366158, 1995984373, 1104885179, 1217424846, 1672252640, 1398987563, 203736586, 27924313, 756286369, 755134606, 1188395573, 82845552, 877354765, 555253838, 392796896, 1367444042, 2075879000, 1771621990, 607070117, 303536702, 320490944, 127105035, 1749479830, 349466119, 184150403, 814016791, 957768002, 1647991075, 1698748395, 769458840, 265205734, -60483007423, -87991317958, -76790664391, -69092388107, -49644471272, -22022336253, -12691630172, 8124259863, 17042629193, 16396468778, 13660822294, 19094105998, 20119045360, 8957534455, 11530409952, 20450494768, 16860847162, 11696167566, 7985957080, 6160565201, 2904700393);
    lemma_double(2638673461738876079333288263080874408174246nat, 1771621990, 607070117, 303536702, 320490944, 127105035, 1749479830, 349466119, 184150403, 814016791, 957768002, 1647991075, 1698748395, 769458840, 265205734, 1671387577, 710048010, 246290002, 1557350931, 1039197722, 193832606, 391283119, 1323408191, 1547092817, 684712302, 827621882, 189073932, 2073893429, 302186423, 309296363, 1191268293, 550739403, 925424745, 1703241080, 1383125711, 1859224363, 9425620939, 14476888217, 10392936750, -12162803646, -13146723620, -8816178885, -330370617, 10434652006, 10991341341, 7070245876, 6887135210, 4250666102, 1929591136, 2337144949, -2256803356, -4043095804, -2806651138, -1062354540, -1060004662, -1152462437, -611917158);
    lemma_double(5277346923477752158666576526161748816348492nat, 1323408191, 1547092817, 684712302, 827621882, 189073932, 2073893429, 302186423, 309296363, 1191268293, 550739403, 925424745, 1703241080, 1383125711, 1859224363, 948613498, 1539657517, 1140356368, 55947039, 1636514135, 2058395551, 1052418604, 48064288, 1203885431, 784140790, 766895752, 1910886192, 297561887, 1241958298, 1024445479, 40896282, 128528889, 439905856, 148960688, 1268267158, 597461535, 8626996220, 9957331416, 24350617607, 15672017001, 17962741221, 15113771885, 2613444727, 19473417368, 25259353576, 25688704178, 29375440427, 23130934989, 12957145153, 7224565791, 2300338939, -6732248475, -5890021169, 10131576, 491544351, -1340183281, -562153622);
    lemma_double(10554693846955504317333153052323497632696984nat, 48064288, 1203885431, 784140790, 766895752, 1910886192, 297561887, 1241958298, 1024445479, 40896282, 128528889, 439905856, 148960688, 1268267158, 597461535, 1346834494, 521529599, 1506845902, 396267749, 1389376032, 328557096, 1712911750, 215423883, 1611935390, 1316091490, 1557241484, 241217617, 619213875, 1870294274, 628857851, 1107510699, 700229685, 161317519, 859570996, 361398031, 1619844954, -29574368815, -51493648764, -28802695581, -33654605309, -12067210113, -8003629482, -6279940370, 9951536669, 23374157260, 17713556431, 15858235304, 12511084393, 10125995407, 8496290599, -5086665735, -3112189973, -3971877061, 1351770678, 1172248109, -4336455712, -1501822369);
}

/// Part 18 of the chain.
proof fn lemma_part_18()
    requires
        generator().times(21109387693911008634666306104646995265393968nat) == (Point::Affine { x: literal::fe(215423883, 1611935390, 1316091490, 1557241484, 241217617, 619213875, 1870294274), y: literal::fe(628857851, 1107510699, 700229685, 161317519, 859570996, 361398031, 1619844954) }),
    ensures
        generator().times(5404003249641218210474574362789630787940856056nat) == (Point::Affine { x: literal::fe(624680862, 486644879, 86667125, 1725966169, 195694715, 1605630555, 842751037), y: literal::fe(1039083356, 1116496596, 1532871213, 472717267, 416370468, 47145160, 2123765471) }),
{
    lemma_table();
    lemma_double(21109387693911008634666306104646995265393968nat, 215423883, 1611935390, 1316091490, 1557241484, 241217617, 619213875, 1870294274, 628857851, 1107510699, 700229685, 161317519, 859570996, 361398031, 1619844954, 1120933071, 854789161, 1902594288, 539211748, 1473444932, 650889301, 968747940, 1652641966, 566530193, 843519091, 278233457, 1479196904, 1058212163, 522206998, 369742483, 1939772329, 1542286416, 1951584511, 1840525244, 2094428633, 577875352, -38423764260, -46364106647, -49047617037, -16620124799, -11356103251, -26703006870, -12782119792, 14016954053, 24347911281, 18532751562, 13958837668, 11257197833, 6807895837, 5630739224, 5942233596, 8203091176, 3115635299, 3331339281, 1321407258, 4519225406, 1582793919);
    lemma_double(42218775387822017269332612209293990530787936nat, 1652641966, 566530193, 843519091, 278233457, 1479196904, 1058212163, 522206998, 369742483, 1939772329, 1542286416, 1951584511, 1840525244, 2094428633, 577875352, 1918504458, 555128482, 2546237, 278500747, 189383455, 1061337615, 1902117182, 1361243971, 1372256744, 1758033230, 2107468610, 1812580067, 1934575622, 247884667, 1929779671, 969170206, 1970813087, 666980619, 1558949830, 2075905613, 242358133, 4962140225, 8053133608, 5804808199, 13469720275, 15544109732, 9422475288, -284250393, 6943383597, 5623402857, 4475277991, 6894598215, 12561305649, 16185723130, 9109408120, -6290417308, -13938360375, -15852730063, -10920287227, -6215065624, -1636768849, 291364923);
    lemma_double(84437550775644034538665224418587981061575872nat, 1361243971, 1372256744, 1758033230, 2107468610, 1812580067, 1934575622, 247884667, 1929779671, 969170206, 1970813087, 666980619, 1558949830, 2075905613, 242358133, 1027689099, 892528898, 1275033296, 349446050, 1586627910, 1852027006, 1662695773, 321522241, 2043359263, 32642080, 2129367181, 1213163561, 1965777056, 1633421620, 834218304, 591324677, 67656317, 17636481, 2081556637, 1470679628, 513197324, -61552988810, -88221039729, -55901540759, -24714076078, -672122358, -6910623357, -11088148489, 21145360046, 32145315661, 29458542440, 31746310735, 29296703993, 18692805137, 9004166251, 2796344940, 6186227027, 5259040599, -1714031368, -5940060493, -8182112430, -2057022177);
    lemma_double(168875101551288069077330448837175962123151744nat, 321522241, 2043359263, 32642080, 2129367181, 1213163561, 1965777056, 1633421620, 834218304, 591324677, 67656317, 17636481, 2081556637, 1470679628, 513197324, 974056581, 458882007, 774229760, 807782260, 1300009025, 784274462, 2078969576, 1528148445, 1414031985, 1294331423, 247744104, 506097141, 1369258967, 1360639058, 629576688, 301308173, 84017702, 1154594257, 1749079925, 1863252657, 44264933, -63185111560, -88413895089, -98291968886, -65536717338, -54647140544, -36473201866, -22776408917, 12701013938, 22266469620, 22169574577, 22799925278, 17946870263, 16597896099, 9575093770, 8654587033, 6642599841, 12592744939, 13429868433, 6412300197, 3948322930, 306447297);
    lemma_add(337750203102576138154660897674351924246303488nat, 15nat, 1528148445, 1414031985, 1294331423, 247744104, 506097141, 1369258967, 1360639058, 629576688, 301308173, 84017702, 1154594257, 1749079925, 1863252657, 44264933, 1985005590, 1034601703, 728293283, 1421243589, 1794146164, 691082254, 1568020826, 181141497, 400751978, 83536582, 596391389, 2106082275, 1086428455, 1852170896, 324867332, 837558767, 939763002, 29359637, 725450940, 1649668491, 1051025318, 312030218, 400997880, 305084028, 600932081, 372628052, 513495032, 131212355, 2006581735, 454584176, 1287483707, 1752183455, 246842115, 1208631359, 1972936031, -2058895868, 4594714007, 10156451097, 4744080237, 231223330, 1126811758, 395063741, 11556945147, 13257772526, 10036080617, 14169319791, 14774978476, 8573952519, 3813103776, 10225013992, 10726269909, 4714548104, 7245787785, 11056775980, 8481482108, 4118202573);
    lemma_double(337750203102576138154660897674351924246303503nat, 312030218, 400997880, 305084028, 600932081, 372628052, 513495032, 131212355, 2006581735, 454584176, 1287483707, 1752183455, 246842115, 1208631359, 1972936031, 2030387762, 360790540, 1569222223, 1789752196, 1468369630, 121558377, 162500869, 2030295294, 1652831121, 205308142, 997916779, 96157154, 786140014, 1120657696, 601158266, 960614776, 273252788, 1853629812, 988822451, 921531582, 1212529955, 25059591351, 36496413230, 41130857554, 32417620714, 13608969326, 8640840503, 8915442026, 15439227328, 16067732795, 9620941696, 6418562344, 5345719976, 3482769593, 4054252933, -4134716086, -6893420308, -8896614284, -9208902936, -4381174793, -1991312975, -1478957890);
    lemma_add(675500406205152276309321795348703848492607006nat, 1nat, 2030295294, 1652831121, 205308142, 997916779, 96157154, 786140014, 1120657696, 601158266, 960614776, 273252788, 1853629812, 988822451, 921531582, 1212529955, 21053971, 90322736, 156256384, 23627556, 34171264, 126183783, 25645942, 2020310104, 1513506566, 1843922297, 2003644209, 805967281, 1882435203, 1623804682, 405742326, 1792851615, 1260793118, 1955754718, 1121716579, 1019435010, 1025306908, 1757349390, 428485991, 1708555839, 1454014465, 649216158, 767725773, 1193224946, 2049146554, 1148040033, 1472819866, 1904160447, 260689948, 996646268, 1431868353, -13667931717, -18839872270, -17096437501, -13159001088, -10326189098, -7742345388, -5015836274, 25032941577, 34033169373, 27792952891, 19569925900, 14072006336, 10000756696, 6708881324, -4587986632, -8615100411, -5575912377, -3477372505, -1126972823, -1588581868, -923249268);
    lemma_double(675500406205152276309321795348703848492607007nat, 1757349390, 428485991, 1708555839, 1454014465, 649216158, 767725773, 1193224946, 2049146554, 1148040033, 1472819866, 1904160447, 260689948, 996646268, 1431868353, 1539222839, 961158068, 1191978788, 1611269398, 1163576770, 101323213, 466540038, 1670170480, 434492904, 526580078, 1809434855, 186899192, 476080327, 766179293, 1332562302, 1836331038, 1914914847, 591216784, 2119755836, 33990259, 1036942071, -12727102651, -31704345784, -29911471163, -13514673491, -15110748160, -17005288480, -8309604317, 12582447477, 14824309922, 10169105560, 8424043172, 5566620407, 3642831421, 3592272891, 2893989713, 6502708623, 5893224474, 3359633763, 2343699009, 1835123658, 1374715354);
    lemma_double(1351000812410304552618643590697407696985214014nat, 1670170480, 434492904, 526580078, 1809434855, 186899192, 476080327, 766179293, 1332562302, 1836331038, 1914914847, 591216784, 2119755836, 33990259, 1036942071, 1431357868, 313167516, 900554471, 956998559, 2102050424, 372727772, 226854714, 597249733, 1469606183, 1608245558, 1583836386, 1622250286, 1866776063, 288625105, 418908190, 865360139, 103720055, 1022028283, 215626161, 1447659849, 407274907, 7210501609, 16889509888, -3666196314, -2978564167, 7511048531, -3172685367, -2459419968, 12311611347, 20232597509, 13753112446, 6932183188, 5421423387, 2286521353, 2693534018, -5474927752, -13827740513, -13091742527, -3741564821, -892207022, -2308538389, -1370349119);
    lemma_double(2702001624820609105237287181394815393970428028nat, 597249733, 1469606183, 1608245558, 1583836386, 1622250286, 1866776063, 288625105, 418908190, 865360139, 103720055, 1022028283, 215626161, 1447659849, 407274907, 930077195, 358227532, 1922108434, 190022803, 1240241042, 1032022835, 288930059, 624680862, 486644879, 86667125, 1725966169, 195694715, 1605630555, 842751037, 1039083356, 1116496596, 1532871213, 472717267, 416370468, 47145160, 2123765471, -62994895464, -94671110198, -75692236277, -50920035751, -28084330855, -14638348205, -16623789065, 11307709489, 13990193333, 12284995687, 8752272424, 6788724298, 2696422632, 2971389367, 5273973513, 6052386455, 6149905813, 3387828863, 870370967, -154460307, 2208883438);
}

/// Part 19 of the chain.
proof fn lemma_part_19()
    requires
        generator().times(5404003249641218210474574362789630787940856056nat) == (Point::Affine { x: literal::fe(624680862, 486644879, 86667125, 1725966169, 195694715, 1605630555, 842751037), y: literal::fe(1039083356, 1116496596, 1532871213, 472717267, 416370468, 47145160, 2123765471) }),
    ensures
        generator().times(1383424831908151861881491036874145481712859150533nat) == (Point::Affine { x: literal::fe(317012724, 1207673583, 961968136, 1875416692, 911091398, 792580654, 1483970478), y: literal::fe(748648334, 2115983968, 312859064, 1609399254, 667101102, 681425002, 1542363466) }),
{
    lemma_table();
    lemma_double(5404003249641218210474574362789630787940856056nat, 624680862, 486644879, 86667125, 1725966169, 195694715, 1605630555, 842751037, 1039083356, 1116496596, 1532871213, 472717267, 416370468, 47145160, 2123765471, 124713026, 1029790463, 591505405, 924996998, 1839554386, 1465303877, 574913124, 440897723, 333156271, 1883344116, 345470921, 488863365, 1316704354, 424755118, 2057653295, 1395585729, 1920552105, 920418073, 1707667276, 150950541, 1925462635, 16921129345, -12546363665, -23729429784, -7466738089, -3332077044, -16722617, -1807596724, 14839739463, 24918243789, 25252503939, 19770054812, 11228619597, 5611114428, 3371988550, 773955686, 2820503970, 4387824560, 3542556274, 3645080307, 1397555813, -375639797);
    lemma_double(10808006499282436420949148725579261575881712112nat, 440897723, 333156271, 1883344116, 345470921, 488863365, 1316704354, 424755118, 2057653295, 1395585729, 1920552105, 920418073, 1707667276, 150950541, 1925462635, 1629923836, 453628105, 1704257231, 1420850760, 1249848349, 336675461, 512096834, 1434464666, 1685266968, 1502408172, 1970790959, 1792109781, 915215782, 798127537, 1360272424, 449379727, 1700383491, 1672854321, 619241358, 790452694, 1586675246, -7929134814, 9259881171, 19722901890, 10019430616, 262785668, 4029847310, 8143908511, 13364564018, 17971529097, 14097900110, 9403256596, 6651455669, 4421121592, 4242950127, -9988007014, -11585864295, -6723271735, -7080363448, -3741658199, -2302651200, -2824587974);
    lemma_add(21616012998564872841898297451158523151763424224nat, 3nat, 1434464666, 1685266968, 1502408172, 1970790959, 1792109781, 915215782, 798127537, 1360272424, 449379727, 1700383491, 1672854321, 619241358, 790452694, 1586675246, 467654231, 140529359, 225453094, 213767998, 2119372174, 826826390, 509908472, 910517402, 540189181, 1590228616, 15157234, 601371048, 1082043944, 1009642449, 1486597232, 1863644710, 530848737, 1597935920, 2055142590, 252792722, 1817271999, 1251543585, 531697014, 873357979, 439638544, 429103008, 1830435950, 1693663036, 2101215709, 718677564, 1996387261, 1843545744, 155834853, 1988448699, 693548545, -16636530741, -17100626920, -14648639636, -8782934504, -4293619407, -4333345450, -4491549490, 32974638054, 38097714741, 28238649877, 30476797503, 18558291426, 13787438583, 9850304018, 12858848483, 14220341435, 4429756596, 2733547277, -375259597, -3938291849, -1329224608);
    lemma_double(21616012998564872841898297451158523151763424227nat, 1251543585, 531697014, 873357979, 439638544, 429103008, 1830435950, 1693663036, 2101215709, 718677564, 1996387261, 1843545744, 155834853, 1988448699, 693548545, 294246561, 562561250, 77721126, 1330705587, 488657828, 1419720248, 1106145258, 1469057825, 524383117, 170633571, 1288684631, 875895803, 1684696818, 619272530, 545843515, 56433666, 1544118061, 1688453766, 412378743, 320223919, 1222041458, -14677825204, -6173800576, -3099603228, -18012756576, -39828731193, -35601962116, -12382350526, 6530859902, 13880025443, 16232591403, 13773890315, 12570930893, 8040728042, 3644671727, 1406239077, -60522350, -598787420, 388319307, 3986830636, 5330259242, 1366699916);
    lemma_double(43232025997129745683796594902317046303526848454nat, 1469057825, 524383117, 170633571, 1288684631, 875895803, 1684696818, 619272530, 545843515, 56433666, 1544118061, 1688453766, 412378743, 320223919, 1222041458, 1455299382, 123022545, 1545139306, 1179999904, 1288800542, 865115902, 1318564405, 615516425, 392249636, 885576398, 1661300585, 837617583, 1573726679, 449579062, 136436897, 1373616736, 978107274, 1989932112, 590561043, 151513769, 640692828, -4662131930, -11366499043, -14120059452, -25496779084, -19416946755, -3511014612, 1872922059, 15166387203, 26922273180, 25603399013, 19043298821, 14210102099, 10334114122, 6871738881, -1029163719, -2758045648, -1289629137, 967828875, 1277649971, 776113481, 408156509);
    lemma_double(86464051994259491367593189804634092607053696908nat, 615516425, 392249636, 885576398, 1661300585, 837617583, 1573726679, 449579062, 136436897, 1373616736, 978107274, 1989932112, 590561043, 151513769, 640692828, 1868471323, 416435203, 1432703055, 216945906, 249797547, 801475948, 2084701678, 289578748, 2020276412, 1625904311, 2129425680, 2027215409, 1958987775, 920767770, 1560017039, 26019763, 1462834953, 1913696382, 950476768, 276291467, 1311493051, -19668085646, -34987704441, -20957996003, -17681222321, -16402501499, -2795093450, -1672817455, 11356474227, 21541315255, 14644484999, 6729302360, 11698842412, 16698542397, 10446636880, -11706688550, -15539229579, -9929266665, -11432973050, -8623163774, -4996381889, -3099382572);
    lemma_double(172928103988518982735186379609268185214107393816nat, 289578748, 2020276412, 1625904311, 2129425680, 2027215409, 1958987775, 920767770, 1560017039, 26019763, 1462834953, 1913696382, 950476768, 276291467, 1311493051, 821621931, 1972351108, 820304972, 1938369146, 1085927196, 1830905994, 801098386, 364975406, 2072153809, 1878348081, 1681193068, 2013993571, 2016325424, 1132499290, 1837487883, 892769553, 2127091038, 596443428, 690664983, 373074274, 1696096731, -86460443393, -125659669003, -104150798637, -77501769961, -47937851628, -22955181066, -19738598880, 24660284163, 38634917895, 32582195593, 24934374012, 18795291399, 10551242506, 7510613598, -1099202790, 84688621, 105773581, -1036309900, -1236906627, -1166712826, -162264824);
    lemma_double(345856207977037965470372759218536370428214787632nat, 364975406, 2072153809, 1878348081, 1681193068, 2013993571, 2016325424, 1132499290, 1837487883, 892769553, 2127091038, 596443428, 690664983, 373074274, 1696096731, 758304019, 535605097, 655088222, 777135304, 1263274456, 252045466, 643496044, 573717095, 1993863017, 954410976, 2052154531, 1109292139, 1192597061, 941854170, 1628871922, 540375209, 1393704893, 1360100042, 464846080, 1022076221, 1389114085, -116241168773, -159421886953, -130911311770, -101237317078, -69827250445, -40009638404, -23807781008, 7269933718, 11223910155, 8427887219, 7151627685, 4631076303, 2720810471, 2228011358, 2646471028, 7260842615, 6440618176, 4125372320, 3225323862, 1867103618, 1084506391);
    lemma_double(691712415954075930940745518437072740856429575264nat, 573717095, 1993863017, 954410976, 2052154531, 1109292139, 1192597061, 941854170, 1628871922, 540375209, 1393704893, 1360100042, 464846080, 1022076221, 1389114085, 1468857759, 603961446, 1516903652, 16833427, 1157465587, 927309732, 1457862212, 1027399089, 1916568215, 597855757, 1101064473, 1195144794, 1598841556, 821255714, 1924349126, 741723634, 592682649, 1995588282, 957998248, 1519227588, 1903780522, -44334443678, -57050501373, -48138383744, -32071800709, -17927644869, -6440491170, -7781175301, 11838188844, 20924074518, 15572843426, 13912167171, 14992583926, 10753016198, 7176399555, 2032319647, 4801214996, 3994684892, 1138976259, -1419054005, -43769601, 78839786);
    lemma_add(1383424831908151861881491036874145481712859150528nat, 5nat, 1027399089, 1916568215, 597855757, 1101064473, 1195144794, 1598841556, 821255714, 1924349126, 741723634, 592682649, 1995588282, 957998248, 1519227588, 1903780522, 1802183323, 578369319, 705392214, 905316741, 1750073676, 1742753354, 654289264, 2084298943, 733094976, 245856367, 2114401684, 1776653011, 910007018, 1131772051, 268612912, 1246125860, 1612627381, 580645138, 1952736145, 790868900, 1545584893, 317012724, 1207673583, 961968136, 1875416692, 911091398, 792580654, 1483970478, 748648334, 2115983968, 312859064, 1609399254, 667101102, 681425002, 1542363466, -4640811463, -424793387, 1849518725, 1202331104, 1503148906, -1193323736, 230289438, 20380246276, 35323172846, 26276100650, 24541316860, 17508479171, 12410253589, 7792293929, -63226625, -2452218140, -302642522, 215458787, 1539781066, -891185073, -605488756);
}

/// Part 20 of the chain.
proof fn lemma_part_20()
    requires
        generator().times(1383424831908151861881491036874145481712859150533nat) == (Point::Affine { x: literal::fe(317012724, 1207673583, 961968136, 1875416692, 911091398, 792580654, 1483970478), y: literal::fe(748648334, 2115983968, 312859064, 1609399254, 667101102, 681425002, 1542363466) }),
    ensures
        generator().times(354156756968486876641661705439781243318491942536567nat) == (Point::Affine { x: literal::fe(572122304, 175163048, 1379653044, 442609017, 1477104836, 128612848, 1945107162), y: literal::fe(929231753, 974584340, 1366554991, 1485273976, 693840785, 1272934863, 2114994349) }),
{
    lemma_table();
    lemma_double(1383424831908151861881491036874145481712859150533nat, 317012724, 1207673583, 961968136, 1875416692, 911091398, 792580654, 1483970478, 748648334, 2115983968, 312859064, 1609399254, 667101102, 681425002, 1542363466, 2122917096, 359440549, 1119142677, 540478245, 809418431, 139567648, 213860626, 2053730897, 379368028, 1629817883, 790767060, 1024321495, 1449627385, 123446989, 705681940, 1563706869, 1076258195, 250778571, 975009588, 1803652510, 1228865306, -42359940865, -55974748008, -61471193959, -39993451732, -29407035736, -26622755064, -14327480068, 5262184537, 5619211613, 5172259105, 2956328590, 3038058316, 1310350023, 1525026866, -194805679, 3998347052, 1073755606, 3865610703, 772892492, 679745569, 1496275847);
    lemma_double(2766849663816303723762982073748290963425718301066nat, 2053730897, 379368028, 1629817883, 790767060, 1024321495, 1449627385, 123446989, 705681940, 1563706869, 1076258195, 250778571, 975009588, 1803652510, 1228865306, 206412747, 1572772823, 1443154054, 263771347, 533683616, 1935573308, 832805692, 2032247233, 1192668123, 369252535, 723387518, 1582653230, 278163709, 841796407, 905497966, 1749713593, 1363512301, 821927690, 100308972, 1722826004, 1271115650, -12120207174, -11516511441, -16686180795, 472444445, 11962018778, 5465295899, 3188863477, 19937874254, 20960662791, 12542729432, 16586560152, 15562135362, 7686967437, 4750952120, 5193047979, 3414348936, -1627904431, 2889812829, 1778788644, -2269069999, -831705274);
    lemma_double(5533699327632607447525964147496581926851436602132nat, 2032247233, 1192668123, 369252535, 723387518, 1582653230, 278163709, 841796407, 905497966, 1749713593, 1363512301, 821927690, 100308972, 1722826004, 1271115650, 563353762, 968953023, 971441796, 1291828872, 1489364688, 1768633794, 40556324, 139499036, 96354604, 990076367, 105959147, 857850344, 386225988, 894355629, 547278033, 1734592742, 258514375, 1246211342, 796866821, 640347005, 1385816734, -5398045096, -5932890040, 4496601003, 6469890353, 3676222538, -502336739, -2809400465, 17426910414, 26992467058, 23230966420, 16755771717, 7316413272, 3673642986, 3773659105, 2017414185, 6650031386, 6480843387, 2483067076, 1610734630, 2401517777, 1150844149);
    lemma_double(11067398655265214895051928294993163853702873204264nat, 139499036, 96354604, 990076367, 105959147, 857850344, 386225988, 894355629, 547278033, 1734592742, 258514375, 1246211342, 796866821, 640347005, 1385816734, 562687752, 1632124071, 1837193035, 743611413, 1267984137, 721356106, 524087507, 1961508487, 600808808, 741703873, 631850295, 1679356321, 1231425726, 2047494230, 433885839, 1170922195, 1528094651, 925475970, 1650598214, 1945686548, 473740356, 23860233203, 21432581830, 15080747454, 9686318546, 4608806273, 4263323097, 1511364724, 14808213025, 20467136387, 14828001953, 11220376757, 7771308824, 5315038951, 4214801606, -11739817198, -17759522404, -14141597252, -10830371176, -8180736596, -5349346023, -3165869851);
    lemma_add(22134797310530429790103856589986327707405746408528nat, 7nat, 1961508487, 600808808, 741703873, 631850295, 1679356321, 1231425726, 2047494230, 433885839, 1170922195, 1528094651, 925475970, 1650598214, 1945686548, 473740356, 1183976815, 763229735, 1391818946, 552406207, 57835454, 1608386991, 1725272370, 1206313512, 270286941, 244827900, 1949990409, 612480876, 776545623, 1342692810, 1186639362, 297550839, 842457806, 303034830, 1652267759, 333060493, 306981144, 2014359936, 1607557190, 375877655, 1443502910, 311847442, 843839067, 1585288404, 1005838218, 1697176176, 573525763, 1741723852, 1789200947, 1271286317, 2063126005, -748779264, -6457381160, -3764682859, -2177913505, -2490929469, -171337123, -501011647, 4756346862, 10882470664, 8855507316, 5025243031, 4322451246, 1581141174, 1917312834, -1554327500, 4637752167, 6030274894, 3662976149, 3097269990, 66221527, 1055276136);
    lemma_double(22134797310530429790103856589986327707405746408535nat, 2014359936, 1607557190, 375877655, 1443502910, 311847442, 843839067, 1585288404, 1005838218, 1697176176, 573525763, 1741723852, 1789200947, 1271286317, 2063126005, 417481710, 1113430110, 89530523, 1163669334, 978113523, 144247120, 1793657921, 715386344, 142062364, 867984050, 914912133, 1104170844, 1704809353, 1778512953, 1864351332, 1274025476, 1927650435, 772276811, 1559028562, 2024989196, 1748158025, -8246765861, -13353390878, -9152327392, 4284555927, -1839936852, -7257268944, -9631156142, 14857312188, 13088148571, 13346937585, 15107162717, 7787164583, 9454777214, 6101146212, 4620216975, -2517285233, -3484744211, -3780745711, -4634247977, -3095468749, 246446584);
    lemma_double(44269594621060859580207713179972655414811492817070nat, 715386344, 142062364, 867984050, 914912133, 1104170844, 1704809353, 1778512953, 1864351332, 1274025476, 1927650435, 772276811, 1559028562, 2024989196, 1748158025, 1655393952, 885275746, 321660399, 25434004, 142757481, 649978699, 444136037, 2015167661, 1628674091, 1101751718, 1749456439, 484944942, 1978433760, 766424468, 1673665691, 626371042, 1296146950, 724056590, 12276069, 91621822, 1825430311, -16879526365, -50170926760, -63831482732, -61361412577, -55368525125, -38588955063, -12615614820, 4129705825, 3877634634, 1833669597, 1888873412, 2419745066, 2412073809, 1551371471, -1262390399, -2408043345, -1288954448, -392304985, 1592998326, 1229752799, 648950917);
    lemma_double(88539189242121719160415426359945310829622985634140nat, 2015167661, 1628674091, 1101751718, 1749456439, 484944942, 1978433760, 766424468, 1673665691, 626371042, 1296146950, 724056590, 12276069, 91621822, 1825430311, 409343715, 1572710488, 497563615, 1341520222, 1645446940, 883496257, 708982052, 1571265292, 2073466268, 1719347802, 1663845729, 1123647706, 2019868800, 35432886, 951056318, 564060206, 342966303, 663045684, 187253509, 202638590, 1565607447, -38470159726, -76596147916, -55525703661, -39295687948, -31869978882, -20646244640, -12684139959, 17734848937, 24769752412, 20781748200, 15328833554, 10052723678, 6338503218, 3897521702, -965865118, -2981642731, -939731106, 1985909495, 2310027698, 1076442061, 230636871);
    lemma_double(177078378484243438320830852719890621659245971268280nat, 1571265292, 2073466268, 1719347802, 1663845729, 1123647706, 2019868800, 35432886, 951056318, 564060206, 342966303, 663045684, 187253509, 202638590, 1565607447, 658725416, 964499623, 304694571, 13476810, 1063754304, 756369535, 1718267411, 850884717, 1224033558, 491205922, 135919688, 1391002326, 1199947900, 735648599, 2121252632, 1768607317, 1228074602, 1394056221, 1857640829, 128492180, 873438944, -62678014377, -92597537568, -67585012634, -51141989878, -22435893710, -5499258902, -10228235239, 9130576895, 11112908100, 7606079073, 12536038185, 12765672960, 12022659883, 6208513534, 8634673125, 12157779159, 12491236187, 4410236838, 2390474378, -546917898, -72298671);
    lemma_add(354156756968486876641661705439781243318491942536560nat, 7nat, 850884717, 1224033558, 491205922, 135919688, 1391002326, 1199947900, 735648599, 2121252632, 1768607317, 1228074602, 1394056221, 1857640829, 128492180, 873438944, 1183976815, 763229735, 1391818946, 552406207, 57835454, 1608386991, 1725272370, 1206313512, 270286941, 244827900, 1949990409, 612480876, 776545623, 1342692810, 282459623, 1186151329, 467881651, 1419408063, 733044183, 1591662203, 1313770680, 572122304, 175163048, 1379653044, 442609017, 1477104836, 128612848, 1945107162, 929231753, 974584340, 1366554991, 1485273976, 693840785, 1272934863, 2114994349, 1466269783, 5463454751, 2930935200, -22858998, 4486691180, 6117939879, 2344840698, 15729560361, 24478781580, 23861630662, 19898791331, 17970358428, 11800234263, 5818133326, -3052412172, -3351519438, -4000658591, -535305959, 196189086, -4453433640, -1374618259);
}

/// Part 21 of the chain.
proof fn lemma_part_21()
    requires
        generator().times(354156756968486876641661705439781243318491942536567nat) == (Point::Affine { x: literal::fe(572122304, 175163048, 1379653044, 442609017, 1477104836, 128612848, 1945107162), y: literal::fe(929231753, 974584340, 1366554991, 1485273976, 693840785, 1272934863, 2114994349) }),
    ensures
        generator().times(181328259567865280840530793185167996579067874578722464nat) == (Point::Affine { x: literal::fe(396001472, 797070405, 648985921, 752554895, 1763753318, 1845381325, 1353162905), y: literal::fe(1783154971, 2111377857, 1046683195, 1259966399, 1223100914, 1229035262, 301898477) }),
{
    lemma_table();
    lemma_double(354156756968486876641661705439781243318491942536567nat, 572122304, 175163048, 1379653044, 442609017, 1477104836, 128612848, 1945107162, 929231753, 974584340, 1366554991, 1485273976, 693840785, 1272934863, 2114994349, 735746072, 1706282062, 2117853964, 747417052, 1167406100, 2043392588, 798829975, 18011164, 211158221, 1835195778, 1715010798, 1919461822, 1371271122, 1380248191, 792689750, 1730795693, 554816315, 107744730, 1124653613, 336069397, 768161583, 40600861543, 20842013626, 10732058418, -2670730026, 15028325212, 310902596, -10450825139, 31056872504, 37966157511, 27810507050, 26481900464, 20274350554, 10860769195, 7305789072, -10236192936, -13364549986, -11078832937, -10037982497, -4098698560, -409846901, -1127152581);
    lemma_double(708313513936973753283323410879562486636983885073134nat, 18011164, 211158221, 1835195778, 1715010798, 1919461822, 1371271122, 1380248191, 792689750, 1730795693, 554816315, 107744730, 1124653613, 336069397, 768161583, 1373656264, 401053695, 1339033687, 1316048267, 949311651, 1011796106, 207410535, 1290222754, 1137293698, 1573430376, 1769491305, 1406819460, 793960862, 1450426851, 1213845059, 809773607, 1186171289, 729072902, 855790846, 1347664138, 370645500, -69560069731, -121578108198, -105542812245, -77323304816, -50156748958, -32369466525, -17588321577, 13498081638, 17752288663, 13391661928, 9000820677, 5541743377, 4008001515, 2714945425, 2560376797, 3894246978, 3076385948, 1466224104, 338592263, -386172419, -115559476);
    lemma_double(1416627027873947506566646821759124973273967770146268nat, 1290222754, 1137293698, 1573430376, 1769491305, 1406819460, 793960862, 1450426851, 1213845059, 809773607, 1186171289, 729072902, 855790846, 1347664138, 370645500, 1099275354, 403416391, 1452159712, 926145893, 841296193, 1224703199, 347922031, 812452110, 485706979, 1656925866, 169963555, 1533233493, 1594387806, 2105310921, 1611036133, 1357144909, 1025888230, 1171530439, 1988174320, 1027056597, 218891106, -52330343177, -81535851280, -71947032946, -53960593054, -35244807024, -30790520753, -22020077698, 13229535966, 17369197292, 13536040960, 10207770086, 7144383524, 4328628683, 2542510379, 74023618, 631110115, -1470183480, -3471822061, -4100896832, -907191621, 218451713);
    lemma_double(2833254055747895013133293643518249946547935540292536nat, 812452110, 485706979, 1656925866, 169963555, 1533233493, 1594387806, 2105310921, 1611036133, 1357144909, 1025888230, 1171530439, 1988174320, 1027056597, 218891106, 1637695938, 1451203373, 847876283, 733298481, 308360787, 923178848, 669510929, 1766747647, 1555338146, 533935457, 1312976624, 1958127666, 1117618671, 1133464225, 1014102752, 183105381, 981603193, 864835454, 1241233440, 636887454, 66482764, -30890289979, -70190634725, -56675832156, -64551766936, -75221079728, -55190360103, -25891475166, 10553604329, 13872264519, 9570713575, 7435218480, 6492444565, 5215147390, 3415635287, 2718759883, 2333999422, 96809080, -218561121, 2331125930, 2679961892, 824586107);
    lemma_add(5666508111495790026266587287036499893095871080585072nat, 5nat, 1766747647, 1555338146, 533935457, 1312976624, 1958127666, 1117618671, 1133464225, 1014102752, 183105381, 981603193, 864835454, 1241233440, 636887454, 66482764, 1802183323, 578369319, 705392214, 905316741, 1750073676, 1742753354, 654289264, 2084298943, 733094976, 245856367, 2114401684, 1776653011, 910007018, 1131772051, 987300460, 1166301192, 1202952236, 1457910288, 153850511, 1383573225, 1301179203, 1420269500, 845103486, 438597387, 1868981283, 338472514, 144429524, 1201840368, 933538650, 884635851, 868545924, 164062340, 1921674679, 1325416693, 185577778, -2815707712, -2221688824, -3822687210, -1401330274, 197187419, -1235886172, -1754490128, 16443916290, 27541376286, 21776613919, 14040996425, 14125984775, 12139385482, 6275613402, 10539200751, 8953037962, 5631144420, 10720074120, 8608778718, 2806042657, 1589396582);
    lemma_double(5666508111495790026266587287036499893095871080585077nat, 1420269500, 845103486, 438597387, 1868981283, 338472514, 144429524, 1201840368, 933538650, 884635851, 868545924, 164062340, 1921674679, 1325416693, 185577778, 575087751, 509671058, 730651987, 709576411, 349204697, 180755640, 558656250, 1641919894, 765306794, 1580265469, 1070067896, 125598337, 53064565, 373569499, 900651899, 681088121, 1799457084, 1350563451, 604501747, 1357761205, 105825802, -11721840665, -9499928866, -29539082970, -22671818300, -1921431491, -9886154498, -13210059493, 3274314969, 4950419169, 4355332014, 3018866704, 1847806378, 1768020301, 1303270988, 1716939414, 1623472512, 2579958307, 2447655567, 916347202, 1332106836, 997509121);
    lemma_double(11333016222991580052533174574072999786191742161170154nat, 1641919894, 765306794, 1580265469, 1070067896, 125598337, 53064565, 373569499, 900651899, 681088121, 1799457084, 1350563451, 604501747, 1357761205, 105825802, 1686617955, 1861880277, 1126592138, 1119592926, 1315107303, 1008664126, 110716798, 222847840, 1442962259, 1803074112, 1798712441, 1566705507, 1982974085, 396484981, 2053453029, 1975603000, 1859940673, 1775162991, 1350764938, 2039032219, 53257837, 19020245729, 21479113549, 9356787285, 9377599865, 5600970214, 2569938697, 2989597143, 14546102149, 20818274980, 16184364362, 10896680635, 7000997493, 5422428527, 3934347537, -10817225471, -17821644983, -16451206675, -11167158030, -4939032700, -3375124633, -3237553338);
    lemma_double(22666032445983160105066349148145999572383484322340308nat, 222847840, 1442962259, 1803074112, 1798712441, 1566705507, 1982974085, 396484981, 2053453029, 1975603000, 1859940673, 1775162991, 1350764938, 2039032219, 53257837, 1614391627, 5279548, 463667058, 1473034592, 1598897555, 1959604134, 40265654, 1706479901, 1606414803, 1394475578, 185347226, 1561409518, 853539099, 943407677, 170027811, 1191482009, 1743561787, 680510941, 1808305559, 181934485, 2059051416, -50455990553, -66539417291, -47620534718, -34290966771, -24597737531, -10773678329, -11838280394, 16542278436, 28833651180, 27466536153, 20537867992, 8489443154, 3844523155, 1787251301, 8033200466, 16153395843, 8982183601, 4818649021, -1652429535, -1494475042, 802181241);
    lemma_double(45332064891966320210132698296291999144766968644680616nat, 1706479901, 1606414803, 1394475578, 185347226, 1561409518, 853539099, 943407677, 170027811, 1191482009, 1743561787, 680510941, 1808305559, 181934485, 2059051416, 1881875166, 1501165911, 942532091, 2124588706, 1156954682, 96096036, 1886832183, 1654034334, 1251636650, 815916625, 2108807028, 1823886355, 1372095444, 1777265625, 84092906, 1088343705, 1754479499, 971866148, 638200220, 39223731, 1421283245, 2404327698, -3078022460, 854162353, 3540899869, -10776812555, 3054663331, 1759213105, 26916988310, 30250449024, 29525974886, 26949610138, 12465502250, 12544576763, 11623044412, -8867441685, -8012276070, -15165338531, -13109514972, -5558664588, -5904392976, -4974521180);
    lemma_double(90664129783932640420265396592583998289533937289361232nat, 1654034334, 1251636650, 815916625, 2108807028, 1823886355, 1372095444, 1777265625, 84092906, 1088343705, 1754479499, 971866148, 638200220, 39223731, 1421283245, 789138208, 787343064, 1422935409, 1051534645, 103205268, 333702748, 1951205007, 396001472, 797070405, 648985921, 752554895, 1763753318, 1845381325, 1353162905, 1783154971, 2111377857, 1046683195, 1259966399, 1223100914, 1229035262, 301898477, -83178378449, -109587140219, -109058028239, -104088114386, -75377805723, -42273245441, -25540444577, 10240279828, 21254482773, 19957548093, 8911607875, 5583600613, 12495603410, 7709206009, 2358074638, 3857728954, 9512414520, 5809212340, -910320227, 1894990643, 3088121826);
}

/// Part 22 of the chain.
proof fn lemma_part_22()
    requires
        generator().times(181328259567865280840530793185167996579067874578722464nat) == (Point::Affine { x: literal::fe(396001472, 797070405, 648985921, 752554895, 1763753318, 1845381325, 1353162905), y: literal::fe(1783154971, 2111377857, 1046683195, 1259966399, 1223100914, 1229035262, 301898477) }),
    ensures
        generator().times(46420034449373511895175883055403007124241375892152954784nat) == (Point::Affine { x: literal::fe(1293150850, 730013991, 1850341181, 1672459466, 1353871038, 26212800, 1902412229), y: literal::fe(461607964, 1208483982, 1635138126, 895207426, 257308804, 1898610340, 1856938299) }),
{
    lemma_table();
    lemma_add(181328259567865280840530793185167996579067874578722464nat, 15nat, 396001472, 797070405, 648985921, 752554895, 1763753318, 1845381325, 1353162905, 1783154971, 2111377857, 1046683195, 1259966399, 1223100914, 1229035262, 301898477, 1985005590, 1034601703, 728293283, 1421243589, 1794146164, 691082254, 1568020826, 181141497, 400751978, 83536582, 596391389, 2106082275, 1086428455, 1852170896, 1073683844, 60638895, 663249883, 46358176, 1044825538, 536000380, 1803426405, 354374386, 1732638890, 2080913155, 200379571, 1442573709, 2024782132, 1103752905, 1594256511, 299096055, 1684448762, 1260876724, 1014105070, 1507467836, 987404949, 1782527602, 2214062142, 1478729120, -311926966, -4249217820, -1714279193, 2088567331, 2950082046, 9798626550, 8666152184, 11414481831, 11509330534, 10982627730, 7078767211, -4594370656, -7448698884, -932716980, 3089096707, 333423626, 399359194, -36420354);
    lemma_double(181328259567865280840530793185167996579067874578722479nat, 354374386, 1732638890, 2080913155, 200379571, 1442573709, 2024782132, 1103752905, 1594256511, 299096055, 1684448762, 1260876724, 1014105070, 1507467836, 987404949, 2121006142, 527803321, 60601327, 2077880656, 725222797, 1566330868, 732657583, 2105272540, 413085693, 1461931759, 269437231, 1000170816, 1168352786, 242283123, 773036066, 460219737, 61748580, 470110431, 1762088924, 1801860929, 919528770, -56855901663, -55462531455, -31924227167, -47845831320, -43140737833, -17420685609, -14686554162, 11444157314, 23368051924, 22758143497, 19903545023, 12811506861, 8087097293, 5058050192, 6029321370, 11404937592, 11575726232, 8088488695, 8995412067, 4990233525, 2482256642);
    lemma_double(362656519135730561681061586370335993158135749157444958nat, 2105272540, 413085693, 1461931759, 269437231, 1000170816, 1168352786, 242283123, 773036066, 460219737, 61748580, 470110431, 1762088924, 1801860929, 919528770, 1523959038, 1174090859, 66311647, 667547149, 851460992, 2045790727, 204122333, 1027718032, 578740476, 1644209116, 524373236, 68132634, 241864294, 1740594079, 1903546921, 2049452800, 1124147099, 1225360799, 766621017, 678072182, 329359801, -20326474663, -8969650280, 2465180237, 13644034514, 7051017231, 1649907111, -1947885662, 5519077484, 12511196122, 14461150705, 16953858351, 10297810310, 5180065583, 2867395045, -3216985251, -148054203, 4729897327, 4264068985, -4709695312, -2687600721, -1171264119);
    lemma_double(725313038271461123362123172740671986316271498314889916nat, 1027718032, 578740476, 1644209116, 524373236, 68132634, 241864294, 1740594079, 1903546921, 2049452800, 1124147099, 1225360799, 766621017, 678072182, 329359801, 148683389, 1697947260, 1438619830, 1275217743, 1907976035, 87453981, 486181799, 1227421901, 536451509, 1802500299, 691185953, 1911207860, 172146247, 1632735739, 593292618, 310269873, 600116002, 1719813950, 1551807400, 18043481, 797135073, 6394541667, -19684034676, -16704568650, 4549367382, 2074291494, -18219532455, -11801498743, 15894351282, 22116029428, 12655962034, 9058107692, 6092519225, 5449541554, 3879728109, -5595287365, -11399138868, -4782306979, -1794463282, -1383578667, -1457504548, -1392911898);
    lemma_add(1450626076542922246724246345481343972632542996629779832nat, 5nat, 1227421901, 536451509, 1802500299, 691185953, 1911207860, 172146247, 1632735739, 593292618, 310269873, 600116002, 1719813950, 1551807400, 18043481, 797135073, 1802183323, 578369319, 705392214, 905316741, 1750073676, 1742753354, 654289264, 2084298943, 733094976, 245856367, 2114401684, 1776653011, 910007018, 1131772051, 1546896184, 1458334440, 492076791, 2053387543, 329327892, 518396439, 51347968, 1655511296, 73141273, 1479518068, 1794319207, 269501126, 39834927, 238499667, 443029641, 594313804, 1374714821, 1401570577, 878149037, 1732278771, 251043792, -3058046459, 4780617675, -441011396, -1099482300, -414550030, -550059325, 317514076, 5845478842, 10319908083, 6230096073, 5142761680, 3953578798, 2233106674, 2918877083, 12120201652, 9715174170, 10465314744, 5761682846, 3465549972, 2438867406, 671944183);
    lemma_double(1450626076542922246724246345481343972632542996629779837nat, 1655511296, 73141273, 1479518068, 1794319207, 269501126, 39834927, 238499667, 443029641, 594313804, 1374714821, 1401570577, 878149037, 1732278771, 251043792, 1540248935, 696956650, 2103583468, 1070369500, 1802560652, 2077932643, 1266232021, 333427028, 2011356522, 1762806559, 1724538128, 1672885387, 1710877699, 1869462083, 6572114, 1687805381, 2021762678, 1440419990, 685756000, 554149792, 331222969, 40028171609, 60717967258, 43356156323, 35174360445, 28140725711, 10037321521, 2528950280, 34825333465, 51799261572, 45548061685, 38132291583, 30238548938, 17468614960, 9544476756, -20330956525, -32426684320, -28545972184, -31189282941, -25574994797, -14687926405, -7327976836);
    lemma_double(2901252153085844493448492690962687945265085993259559674nat, 333427028, 2011356522, 1762806559, 1724538128, 1672885387, 1710877699, 1869462083, 6572114, 1687805381, 2021762678, 1440419990, 685756000, 554149792, 331222969, 395034535, 1516866989, 1178172498, 1774160341, 971887323, 659268061, 704386487, 392435241, 89262743, 2123163475, 1212128515, 1949046236, 1514910380, 709091532, 440712633, 436101651, 724714193, 363316559, 1941374854, 1817980148, 1731877339, -106642458139, -152075936197, -129870348285, -109573563835, -86020697798, -60771169147, -31080226741, 16825787096, 22214919174, 17349608589, 11891623666, 8257112677, 6062274573, 4450535962, 7299750086, 8292017415, 9121336313, 6763865662, 5302830939, 3870964751, 2190262610);
    lemma_double(5802504306171688986896985381925375890530171986519119348nat, 392435241, 89262743, 2123163475, 1212128515, 1949046236, 1514910380, 709091532, 440712633, 436101651, 724714193, 363316559, 1941374854, 1817980148, 1731877339, 1578158962, 717931732, 924578459, 1945525991, 1992152082, 603839105, 1511362775, 1471771139, 1776602855, 670153483, 1225895864, 1041447199, 868602483, 435258435, 447718227, 1235740216, 1930222059, 65115376, 662883436, 408616394, 344295888, -39010278632, -48181817396, -28606811193, -7833820916, -1056541343, 7646503644, -1272497931, 27071745121, 37990106933, 33888289773, 30159025497, 17938403519, 11855577986, 9367267641, 1217941568, 12518460632, 13301002026, 7481810336, 4677404466, 2801091346, 1499300478);
    lemma_double(11605008612343377973793970763850751781060343973038238696nat, 1471771139, 1776602855, 670153483, 1225895864, 1041447199, 868602483, 435258435, 447718227, 1235740216, 1930222059, 65115376, 662883436, 408616394, 344295888, 126180387, 553356573, 1809010044, 373040580, 827221566, 1221665826, 368714581, 916641285, 1049358998, 1190796283, 1583714076, 423928767, 1364713014, 1701417110, 660241220, 1731237932, 1422761139, 803362109, 961392555, 1406102156, 536519591, -21073801150, -34639643631, -29823155662, -20523187255, -13673513690, -10794522657, -6201248493, 12785504872, 14607482892, 9871555716, 9150684532, 6901954403, 2795267317, 2339598497, -4734670243, -8760100173, -3633455107, -3154009763, -6222121532, -3194305807, -88600236);
    lemma_double(23210017224686755947587941527701503562120687946076477392nat, 916641285, 1049358998, 1190796283, 1583714076, 423928767, 1364713014, 1701417110, 660241220, 1731237932, 1422761139, 803362109, 961392555, 1406102156, 536519591, 743136690, 75029307, 1850866863, 746553074, 1218186864, 1122156023, 1182256720, 1293150850, 730013991, 1850341181, 1672459466, 1353871038, 26212800, 1902412229, 461607964, 1208483982, 1635138126, 895207426, 257308804, 1898610340, 1856938299, -20730669020, -46472723963, -48815596941, -26922353064, -29144278967, -34610964538, -16929203252, 14691520210, 26395723131, 22462167734, 16700219877, 14565131140, 9181407724, 5249659661, 2913168387, -1325130147, -1716659147, 928924067, 2402479866, 1463065819, -1614253842);
}

/// Part 23 of the chain.
proof fn lemma_part_23()
    requires
        generator().times(46420034449373511895175883055403007124241375892152954784nat) == (Point::Affine { x: literal::fe(1293150850, 730013991, 1850341181, 1672459466, 1353871038, 26212800, 1902412229), y: literal::fe(461607964, 1208483982, 1635138126, 895207426, 257308804, 1898610340, 1856938299) }),
    ensures
        generator().times(11883528819039619045165026062183169823805792228391156425550nat) == (Point::Affine { x: literal::fe(1848280798, 67012050, 420179941, 1064957161, 2084396298, 1842130231, 1718246120), y: literal::fe(2028105565, 156154637, 1235010368, 867162054, 487422814, 832147331, 1788705716) }),
{
    lemma_table();
    lemma_double(46420034449373511895175883055403007124241375892152954784nat, 1293150850, 730013991, 1850341181, 1672459466, 1353871038, 26212800, 1902412229, 461607964, 1208483982, 1635138126, 895207426, 257308804, 1898610340, 1856938299, 2104812953, 2095578383, 923268878, 778122239, 1437883416, 1825553594, 2000717798, 1472056137, 494529852, 2006194365, 1325223541, 497156390, 2093641369, 69816403, 1510206316, 1510570879, 965546152, 1913813617, 1086915292, 1658609511, 2102620991, 5268069943, -18679930262, -30579817667, -17635056084, 22006039817, 8835628757, -9374585455, 34918046384, 44031457148, 35623950246, 36451199225, 34706571928, 26787823819, 14709980520, 7529840163, 8522532134, 3975991750, 2577954165, 39183864, 6389944954, 5365992740);
    lemma_double(92840068898747023790351766110806014248482751784305909568nat, 1472056137, 494529852, 2006194365, 1325223541, 497156390, 2093641369, 69816403, 1510206316, 1510570879, 965546152, 1913813617, 1086915292, 1658609511, 2102620991, 350097992, 2087324558, 948665999, 321564297, 1966841058, 1267280395, 1511065307, 1457172724, 361562086, 1037085930, 806776534, 471010500, 1760211788, 195352325, 1353905021, 205208752, 1661462869, 733061489, 883208984, 1582826831, 1834727233, -7711132886, -4337377800, 16934800134, 15207530413, 24229029898, 20601144679, 11647645188, 23471240292, 32452425388, 26966199750, 28068821795, 21316472182, 15306933931, 7994344849, 5895900833, 8643486586, 6699045932, 3617085509, 2089390811, 629335274, 1113031896);
    lemma_add(185680137797494047580703532221612028496965503568611819136nat, 13nat, 1457172724, 361562086, 1037085930, 806776534, 471010500, 1760211788, 195352325, 1353905021, 205208752, 1661462869, 733061489, 883208984, 1582826831, 1834727233, 242534996, 683839544, 1070396237, 772964424, 1708803322, 1358032456, 443139177, 373830437, 299366337, 159102850, 1632830748, 1883418206, 400996964, 1690077110, 994865446, 1079345644, 1812699255, 2060463040, 905347891, 505310588, 1367660414, 1372413008, 86253997, 1341593449, 1938572259, 1386699942, 427591551, 2061098707, 1116892120, 1359423435, 1363389651, 751692285, 233270876, 1531559081, 1386396265, 5336610522, 4883385113, 1931913381, 4144512987, 1801037443, 488652207, 720400550, 20446580356, 31442497294, 28679537971, 19394777587, 11564887853, 11230469257, 7955730237, -5326957775, -8806178177, -14293457759, -12233895784, -2086612721, -5711103740, -5672048693);
    lemma_double(185680137797494047580703532221612028496965503568611819149nat, 1372413008, 86253997, 1341593449, 1938572259, 1386699942, 427591551, 2061098707, 1116892120, 1359423435, 1363389651, 751692285, 233270876, 1531559081, 1386396265, 187644321, 648876101, 364079500, 247724577, 1035295071, 1258453945, 103996903, 1615856397, 653378901, 169853769, 1814834547, 1964054855, 232425434, 1966110800, 1263069117, 1948455341, 300799660, 442746931, 848021018, 119220745, 301249919, -31406165629, -70537256744, -89804798941, -64048221229, -24850365696, -37000277711, -31665977042, 3687262816, 6472775734, 8991008179, 8228473860, 3542698500, 1330803447, 1182642126, 3576833528, 1478196343, -1590571244, 221480193, 730706349, -200543276, 219939300);
    lemma_double(371360275594988095161407064443224056993931007137223638298nat, 1615856397, 653378901, 169853769, 1814834547, 1964054855, 232425434, 1966110800, 1263069117, 1948455341, 300799660, 442746931, 848021018, 119220745, 301249919, 753165759, 1517389316, 1480043502, 1106739520, 102103708, 1515081216, 491169515, 465975284, 1956976464, 1002430120, 1003571297, 1840518509, 1049000291, 179017551, 471721207, 971714004, 591442754, 1666340256, 723746990, 1926970846, 1284191250, -57392020322, -63399538607, -63128091424, -84409675096, -43622550493, -30265904274, -25459053155, 14818604331, 21110108698, 12187797382, 10478839857, 9542361929, 5415729510, 3561565686, -13592964, 6146421586, 9020208616, 544925317, 3434044591, 5992909216, 1091483142);
    lemma_double(742720551189976190322814128886448113987862014274447276596nat, 465975284, 1956976464, 1002430120, 1003571297, 1840518509, 1049000291, 179017551, 471721207, 971714004, 591442754, 1666340256, 723746990, 1926970846, 1284191250, 457215791, 176020008, 1516444108, 1140620529, 1445681041, 1816057863, 1033346946, 552835388, 57367116, 411172551, 118692084, 721116926, 1385282753, 502626920, 423821936, 2004203510, 133303827, 1347875771, 505915171, 4874856, 424590764, -6138858953, -5454306059, -992178851, 14812881429, 21151659913, 8312935301, -2427396008, 21615920495, 34966931101, 31707462664, 26202897895, 19546024753, 10432084443, 4915398891, 11775251816, 14427431421, 9301571676, 4673190971, -392384590, 80004878, 2680463603);
    lemma_double(1485441102379952380645628257772896227975724028548894553192nat, 552835388, 57367116, 411172551, 118692084, 721116926, 1385282753, 502626920, 423821936, 2004203510, 133303827, 1347875771, 505915171, 4874856, 424590764, 595542115, 1356289200, 693200712, 1717523417, 1608810271, 666696870, 1659125781, 1074382665, 1028842115, 1738678220, 322650657, 807472378, 1557780615, 981139559, 348311453, 44914025, 427549, 494088834, 1533452886, 482772026, 1432907213, 23173019521, 17200894222, 3856219952, -8413268981, -10731601532, -914480302, 3916868292, 25864874638, 33022861920, 29766091091, 26457770969, 16645079550, 13112828764, 8083264979, -8926591268, -13159220305, -9040457908, -6156518132, -4630539586, -4851494607, -3266302290);
    lemma_double(2970882204759904761291256515545792455951448057097789106384nat, 1074382665, 1028842115, 1738678220, 322650657, 807472378, 1557780615, 981139559, 348311453, 44914025, 427549, 494088834, 1533452886, 482772026, 1432907213, 1821618131, 647090346, 1045451881, 147025704, 1031611489, 409379459, 870093650, 74263507, 1982596149, 1117922473, 953781553, 51942000, 795859672, 1552714448, 217412073, 360908519, 858989280, 1741911582, 131922705, 1571404570, 122784649, -46690533958, -50167037004, -32226143125, -27513877843, -29629804361, -17215438425, -7518371234, 6920326378, 11373247956, 8795988758, 7041832068, 6801501398, 4250458824, 3824822312, -761888266, -131035745, 2626685900, 791564259, 2718387839, -218689740, -104624254);
    lemma_add(5941764409519809522582513031091584911902896114195578212768nat, 7nat, 74263507, 1982596149, 1117922473, 953781553, 51942000, 795859672, 1552714448, 217412073, 360908519, 858989280, 1741911582, 131922705, 1571404570, 122784649, 1183976815, 763229735, 1391818946, 552406207, 57835454, 1608386991, 1725272370, 1206313512, 270286941, 244827900, 1949990409, 612480876, 776545623, 1342692810, 904180817, 1882355628, 1044664919, 1767200851, 175681864, 1977370557, 1092462148, 294430250, 290430504, 297938784, 648875208, 325390466, 1454642540, 1009278394, 1343236968, 1900100418, 326333921, 1661480101, 47820920, 51675327, 495903490, 1228921469, 3552421549, 1212834412, 4280077652, 4059974631, 3482295893, 186404347, 21186923219, 35908429060, 26338154733, 19836500187, 19967830364, 12605228121, 7739345229, 7826712011, 7280117960, 4432466196, -1136097088, 653145841, 2136474628, 2128444533);
    lemma_double(5941764409519809522582513031091584911902896114195578212775nat, 294430250, 290430504, 297938784, 648875208, 325390466, 1454642540, 1009278394, 1343236968, 1900100418, 326333921, 1661480101, 47820920, 51675327, 495903490, 466111360, 902125907, 979329868, 644402810, 1577822797, 538451181, 1192384365, 1848280798, 67012050, 420179941, 1064957161, 2084396298, 1842130231, 1718246120, 2028105565, 156154637, 1235010368, 867162054, 487422814, 832147331, 1788705716, 13506867995, 98445288, -7635734448, -15419448272, -24457622226, -12609002154, -1273145924, 12397210304, 20722850325, 16174553569, 15177493784, 10405496489, 7308401874, 4624796521, -6461101291, -13877623905, -12297502035, -12082691963, -8502169677, -4456745163, -3347359338);
}

/// Part 24 of the chain.
proof fn lemma_part_24()
    requires
        generator().times(11883528819039619045165026062183169823805792228391156425550nat) == (Point::Affine { x: literal::fe(1848280798, 67012050, 420179941, 1064957161, 2084396298, 1842130231, 1718246120), y: literal::fe(2028105565, 156154637, 1235010368, 867162054, 487422814, 832147331, 1788705716) }),
    ensures
        generator().times(6084366755348284951124493343837782949788565620936272089881888nat) == (Point::Affine { x: literal::fe(1733798214, 1889577965, 715893879, 1010600597, 2116778612, 666189308, 250960515), y: literal::fe(1775542239, 402277955, 1867300338, 1952344718, 2076845342, 253509420, 309561381) }),
{
    lemma_table();
    lemma_double(11883528819039619045165026062183169823805792228391156425550nat, 1848280798, 67012050, 420179941, 1064957161, 2084396298, 1842130231, 1718246120, 2028105565, 156154637, 1235010368, 867162054, 487422814, 832147331, 1788705716, 927621275, 2068169301, 1962954137, 797183913, 2014110447, 970158342, 193623512, 817624351, 853106054, 2098148907, 212168423, 1473873402, 1575998499, 690121487, 444145535, 234216703, 1571444656, 12020954, 1300817740, 881421716, 1435014792, -6003343659, -37154235028, -82800789402, -91197311689, -70534984564, -45464551110, -17283555049, 18756629456, 27745483891, 22571580213, 14480829943, 8414686211, 6840508683, 6114078892, 7659806560, 14283214905, 9993559925, 7121688989, 6134962130, 2536601881, 17313419);
    lemma_double(23767057638079238090330052124366339647611584456782312851100nat, 817624351, 853106054, 2098148907, 212168423, 1473873402, 1575998499, 690121487, 444145535, 234216703, 1571444656, 12020954, 1300817740, 881421716, 1435014792, 1937350344, 1803407711, 748086667, 1262384424, 1712061262, 513838981, 69131179, 738483424, 72637340, 1851570983, 1901317823, 299258373, 1161013784, 568415862, 1691509811, 1483910052, 1652625097, 996911832, 1132612799, 1501883776, 1221949524, -32473720716, -39326979762, -29812513768, -29509493637, -27824937622, -11984360759, -8182396434, 14294225850, 20964550158, 13524417138, 7460087570, 6384737629, 4830246125, 2952390385, -1567229816, 3958457557, 6581870256, 2075707557, 1172928581, 1718935631, 274291584);
    lemma_double(47534115276158476180660104248732679295223168913564625702200nat, 738483424, 72637340, 1851570983, 1901317823, 299258373, 1161013784, 568415862, 1691509811, 1483910052, 1652625097, 996911832, 1132612799, 1501883776, 1221949524, 62341813, 928590754, 43008656, 958169782, 1401467949, 1350621298, 250098072, 559005254, 705154038, 1087997871, 414346084, 1302669504, 1881783397, 1784380752, 458358858, 1200872292, 1937353615, 495497895, 352013827, 220509992, 1472269644, -10032267489, -28028090735, -13076862825, 7918748756, 3141774277, -6400963086, -1798591879, 7666753279, 15386530495, 16855515182, 12024279642, 6058799532, 2437253555, 1767403968, 1965818962, 1353710290, -7591140360, -10875305177, -7932593845, -3667055041, -7087318);
    lemma_double(95068230552316952361320208497465358590446337827129251404400nat, 559005254, 705154038, 1087997871, 414346084, 1302669504, 1881783397, 1784380752, 458358858, 1200872292, 1937353615, 495497895, 352013827, 220509992, 1472269644, 212603855, 731620221, 1992773453, 356358674, 567037426, 320298059, 578094223, 1474314407, 975231383, 1385718625, 559101210, 1812579428, 199383267, 1570974484, 1582494036, 513974881, 756975689, 1080104708, 534565303, 1448819448, 1033132091, -39295500221, -53106560868, -57855471182, -75437235245, -75797525632, -49281090864, -18920370090, 5950212650, 10400325045, 6486306394, 4310390733, 4158196774, 2425547144, 1926125383, 6933318052, 5087220718, 1587186598, 1436904750, 2288978894, 1353265717, -96598459);
    lemma_add(190136461104633904722640416994930717180892675654258502808800nat, 9nat, 1474314407, 975231383, 1385718625, 559101210, 1812579428, 199383267, 1570974484, 1582494036, 513974881, 756975689, 1080104708, 534565303, 1448819448, 1033132091, 1376664870, 36574570, 1928160573, 1962407885, 1663510037, 647561982, 769847015, 469491965, 368216404, 512731201, 1930432655, 1288047098, 1242897166, 1754810551, 1594353175, 841979589, 1709621082, 1531567603, 1672700567, 259109073, 1306756235, 224554331, 814542307, 2079582454, 985507602, 1892491478, 1373352539, 173463212, 537892139, 1971637682, 835222218, 1820472129, 1452198319, 1907269351, 945254067, 2566057962, 1170791588, 3246087104, -1032647344, -983450022, -880736757, -755442670, 20459367589, 31733155589, 25666403610, 20915712140, 12924286484, 9128144595, 8349857085, -2903498870, -3002427105, -1182471435, 4395765306, 277373952, 1162521296, 3023757651);
    lemma_double(190136461104633904722640416994930717180892675654258502808809nat, 224554331, 814542307, 2079582454, 985507602, 1892491478, 1373352539, 173463212, 537892139, 1971637682, 835222218, 1820472129, 1452198319, 1907269351, 945254067, 1990121386, 1980860242, 1183212592, 744641496, 1315784767, 1045000704, 1546214323, 1301898035, 31599561, 1568788245, 1260516409, 336787345, 259919309, 453744186, 1599749825, 1895693082, 416744938, 66724815, 860580289, 1756651775, 1480642598, -13426937530, -17925279678, -8098391889, 7803976285, 19341792323, 16572134938, 222421210, 26635010023, 34867190130, 25689493814, 22816200181, 19349515805, 15385944230, 9919171461, 6745154649, 11530440593, 10661907541, 11245156052, 8947872565, 3461804506, 848569048);
    lemma_double(380272922209267809445280833989861434361785351308517005617618nat, 1301898035, 31599561, 1568788245, 1260516409, 336787345, 259919309, 453744186, 1599749825, 1895693082, 416744938, 66724815, 860580289, 1756651775, 1480642598, 1639677112, 292296113, 589784067, 1915009311, 2108715474, 2018895581, 1055210229, 1712444253, 836771396, 54474532, 377037300, 1909275168, 357983144, 1249762175, 1579865463, 1780969869, 1934514191, 2082967563, 1528361348, 1969571297, 1616528715, 16781003480, 28929701203, 35585787344, 50249487397, 44163899784, 22482738254, 7477441929, 27250164897, 47543660734, 49312766349, 40795830207, 25937317574, 13357914863, 6634268655, 1488123477, -981844266, -9216380837, -13596403709, -10792201522, -4251014390, -917463952);
    lemma_double(760545844418535618890561667979722868723570702617034011235236nat, 1712444253, 836771396, 54474532, 377037300, 1909275168, 357983144, 1249762175, 1579865463, 1780969869, 1934514191, 2082967563, 1528361348, 1969571297, 1616528715, 1068026645, 1503517532, 1534028026, 1016337879, 1899446487, 1456909981, 701968959, 1250106531, 438254460, 1646716405, 647118177, 312601541, 752166738, 169440427, 2002135900, 2042751296, 943446445, 370860176, 1681561647, 994913969, 1034417269, 42861831416, 53976285834, 47854189466, 21152384534, 11965453284, 9104961467, 4748563833, 25038225826, 36678757085, 31216848760, 24224288460, 15986085532, 9640913643, 6673493125, 441405164, 7171297985, 9561081378, 8846404751, 6768477727, 4252603303, 1357215562);
    lemma_double(1521091688837071237781123335959445737447141405234068022470472nat, 1250106531, 438254460, 1646716405, 647118177, 312601541, 752166738, 169440427, 2002135900, 2042751296, 943446445, 370860176, 1681561647, 994913969, 1034417269, 263916576, 449514823, 970625776, 318332906, 418256821, 737490593, 1333802328, 1692154503, 1322488393, 1185003168, 1215250726, 1026501626, 2039559509, 1869692270, 1908229485, 1153864171, 299805527, 1227354782, 1022663207, 1849524221, 1273160187, 2970304154, 7832181691, 6769961159, 13982592156, 11889174627, 8811020159, 6810069872, 6831074327, 11778762172, 8328734144, 6447228363, 7633454347, 7593915581, 3575065230, -7840040824, -9947107444, -8922024237, -9901515763, -10867569604, -10331372861, -4577456307);
    lemma_double(3042183377674142475562246671918891474894282810468136044940944nat, 1692154503, 1322488393, 1185003168, 1215250726, 1026501626, 2039559509, 1869692270, 1908229485, 1153864171, 299805527, 1227354782, 1022663207, 1849524221, 1273160187, 512986736, 408117709, 768997045, 432600501, 184417717, 1437966824, 1091245274, 1733798214, 1889577965, 715893879, 1010600597, 2116778612, 666189308, 250960515, 1775542239, 402277955, 1867300338, 1952344718, 2076845342, 253509420, 309561381, -69335276854, -99205892120, -82915462793, -71833372423, -67534397393, -51996476040, -26740887256, 7777906282, 11726923220, 8071283549, 8375752945, 11374691583, 8288476098, 2973912008, 3131108735, 7475471216, 2513120938, 1918465707, 10332098049, 9746379623, 2424505417);
}

/// Part 25 of the chain.
proof fn lemma_part_25()
    requires
        generator().times(6084366755348284951124493343837782949788565620936272089881888nat) == (Point::Affine { x: literal::fe(1733798214, 1889577965, 715893879, 1010600597, 2116778612, 666189308, 250960515), y: literal::fe(1775542239, 402277955, 1867300338, 1952344718, 2076845342, 253509420, 309561381) }),
    ensures
        generator().times(1557597889369160947487870296022472435145872798959685655009765792nat) == (Point::Affine { x: literal::fe(1384526190, 380531280, 2057224464, 1461333672, 1844687968, 130354199, 1609751342), y: literal::fe(365362942, 593155904, 1712734421, 1159359945, 1906059492, 1894122031, 313087921) }),
{
    lemma_table();
    lemma_add(6084366755348284951124493343837782949788565620936272089881888nat, 9nat, 1733798214, 1889577965, 715893879, 1010600597, 2116778612, 666189308, 250960515, 1775542239, 402277955, 1867300338, 1952344718, 2076845342, 253509420, 309561381, 1376664870, 36574570, 1928160573, 1962407885, 1663510037, 647561982, 769847015, 469491965, 368216404, 512731201, 1930432655, 1288047098, 1242897166, 1754810551, 89829362, 1746602904, 1303141977, 500730769, 964671904, 479718465, 97416614, 2030899102, 41674714, 1609742396, 450214715, 1318640890, 493671818, 1082873417, 501162120, 1129288564, 1408420186, 994564644, 961321127, 1292963005, 221645766, 4617830037, 4296246920, -278971964, 1031588891, 2115265761, 41862784, 139566876, 6003348116, 7653944363, 6286631994, 4600261152, 2507249053, 2388351050, 2105718178, -1272073210, -1029363806, 1670187426, -891540477, -1554916243, 835527046, 609850484);
    lemma_double(6084366755348284951124493343837782949788565620936272089881897nat, 2030899102, 41674714, 1609742396, 450214715, 1318640890, 493671818, 1082873417, 501162120, 1129288564, 1408420186, 994564644, 961321127, 1292963005, 221645766, 379894717, 746003160, 1958229964, 228500584, 1780917933, 1430968896, 100487357, 181313611, 1648965943, 1395585699, 298752440, 224611364, 210599128, 1843544780, 1630560547, 1848249776, 6007054, 1824079172, 1783603171, 599019149, 688335210, 6182511151, -13509390782, -17721054482, -8906703714, -18461720938, -10601177023, -10520665828, 15480794498, 19414743850, 18968306448, 14338746124, 6656678976, 2605963633, 4350089287, 1858667890, 3065888912, 6732394851, -456555087, -1851337874, -1177486962, 64357456);
    lemma_double(12168733510696569902248986687675565899577131241872544179763794nat, 181313611, 1648965943, 1395585699, 298752440, 224611364, 210599128, 1843544780, 1630560547, 1848249776, 6007054, 1824079172, 1783603171, 599019149, 688335210, 1505504824, 1875953660, 840428503, 198289084, 309751542, 1562023543, 1828167395, 1103998632, 1143340601, 676559006, 582347578, 1540130156, 947454662, 1593993101, 2036020336, 429565695, 1985368455, 526443684, 1151108138, 1868158892, 430226059, -16990010374, -25084289948, 10919474491, 25360378932, 15762360679, -9157839316, -4455919792, 23609077124, 25067971125, 12145307178, 12526687515, 19550685326, 18793553725, 10302569874, 2979901316, 2962220472, -5125955232, -11491847840, -8127003133, -2603997124, -691825253);
    lemma_double(24337467021393139804497973375351131799154262483745088359527588nat, 1103998632, 1143340601, 676559006, 582347578, 1540130156, 947454662, 1593993101, 2036020336, 429565695, 1985368455, 526443684, 1151108138, 1868158892, 430226059, 1976787474, 768260453, 1140893782, 759076834, 1131613356, 1366527720, 137331284, 645218063, 313348651, 737843821, 470385030, 530222161, 405602407, 1358880517, 798603750, 1447181629, 1763369644, 1785287037, 710802199, 2127054912, 1189567954, -13790537253, -30723307804, -24162132849, -34209263526, -33023514832, -27660939907, -15307850293, 13677714973, 17140429119, 15306012536, 11990802298, 7205682399, 4737288397, 2749100677, 4467387940, 7976239011, 8389791481, 6456396682, 4024852831, 2272921239, 1568946008);
    lemma_add(48674934042786279608995946750702263598308524967490176719055176nat, 5nat, 645218063, 313348651, 737843821, 470385030, 530222161, 405602407, 1358880517, 798603750, 1447181629, 1763369644, 1785287037, 710802199, 2127054912, 1189567954, 1802183323, 578369319, 705392214, 905316741, 1750073676, 1742753354, 654289264, 2084298943, 733094976, 245856367, 2114401684, 1776653011, 910007018, 1131772051, 491971226, 485914997, 10200630, 930138273, 1065087387, 167504557, 1415583508, 1186429632, 2091384438, 494147240, 1349539935, 1338920393, 1268100469, 368044536, 210906203, 1472977647, 342541015, 1780819938, 1855350707, 1838574837, 939362377, 4112957509, 8646293828, 7395148029, 5653137873, 6929643726, 956651787, -293105136, 7999431516, 8416942361, 9209054189, 11786315581, 6314190383, 5942141056, 3967770906, -8788878264, -9148457175, -5632815686, -2879920865, -4237768287, 593301703, 1241752152);
    lemma_double(48674934042786279608995946750702263598308524967490176719055181nat, 1186429632, 2091384438, 494147240, 1349539935, 1338920393, 1268100469, 368044536, 210906203, 1472977647, 342541015, 1780819938, 1855350707, 1838574837, 939362377, 1421020688, 902318365, 761599803, 2038514828, 247388188, 347963763, 1614973500, 725807799, 873288022, 1892239981, 21455735, 1988221910, 686920208, 1633583390, 1381751224, 839901285, 1775436485, 714122955, 1067012383, 543999085, 1567602964, -4710123493, -17319717489, -15605820321, -5349837485, 3166906785, 3868712074, -1001005473, 11397458667, 16718662540, 22800105556, 15036317934, 6261684556, 9833756750, 8248227880, -194142541, -3365899539, -3909034218, -2279216372, 385195582, -4628193022, -2051290163);
    lemma_double(97349868085572559217991893501404527196617049934980353438110362nat, 725807799, 873288022, 1892239981, 21455735, 1988221910, 686920208, 1633583390, 1381751224, 839901285, 1775436485, 714122955, 1067012383, 543999085, 1567602964, 306393512, 407804518, 200612902, 1023291978, 1561552803, 2063147315, 76142157, 1289751827, 1110146554, 446927737, 2107475948, 1134419665, 1129775517, 603089766, 913837920, 1374813058, 1261389691, 2002472220, 1003343588, 627787513, 371521874, -7970172994, -57691290864, -32730360906, -32813831472, -24986150305, -18578152918, -20685210023, 9631816043, 21572245523, 25043212258, 20209419779, 7924980250, 1839765734, 1605305685, 2057897625, -6149375806, 347586409, 4235735320, 5313294548, 3007905775, 62197028);
    lemma_double(194699736171145118435983787002809054393234099869960706876220724nat, 1289751827, 1110146554, 446927737, 2107475948, 1134419665, 1129775517, 603089766, 913837920, 1374813058, 1261389691, 2002472220, 1003343588, 627787513, 371521874, 2050370169, 785391123, 225272778, 1852414690, 931763660, 808336845, 657326062, 931668421, 1033097151, 155188070, 633509103, 1891084654, 1044521904, 317435519, 1996166518, 1132977464, 75178484, 1950159339, 1170209743, 1455754646, 2022638892, -22241170224, -38358836187, -34496434687, -25893404493, -17283143028, -9004199576, -6669971620, 13351294062, 18098378727, 15828592905, 13688797958, 8321126655, 5144494504, 4276853599, 1522026282, 3025685732, 3881288145, 2824393657, 514438245, 1226779758, 2039413741);
    lemma_double(389399472342290236871967574005618108786468199739921413752441448nat, 931668421, 1033097151, 155188070, 633509103, 1891084654, 1044521904, 317435519, 1996166518, 1132977464, 75178484, 1950159339, 1170209743, 1455754646, 2022638892, 893243400, 868221750, 1280146895, 470744008, 822908960, 1572026788, 71646016, 370712579, 1141213964, 717766685, 1145493885, 1185332715, 2042863421, 2081063399, 833834225, 1854234301, 1921372420, 1607592738, 2027713589, 1040161384, 201812198, 4724926194, 1545224292, -10318493793, -2118319300, 10296831042, 6269961271, 1733707284, 11929365963, 13153578558, 10952409003, 11251655369, 6016859178, 2883562643, 2441264715, -8659693706, -12174941166, -5514304540, -8169993482, -10913769949, -4491547270, -1291342791);
    lemma_double(778798944684580473743935148011236217572936399479842827504882896nat, 370712579, 1141213964, 717766685, 1145493885, 1185332715, 2042863421, 2081063399, 833834225, 1854234301, 1921372420, 1607592738, 2027713589, 1040161384, 201812198, 534526802, 617761229, 27764575, 1873604415, 380968328, 1347074165, 1301118929, 1384526190, 380531280, 2057224464, 1461333672, 1844687968, 130354199, 1609751342, 365362942, 593155904, 1712734421, 1159359945, 1906059492, 1894122031, 313087921, -28081005656, -45936810965, -59414831661, -69691223743, -79190639598, -62015518477, -22900022546, 7431983952, 17044107568, 21456040573, 15850626071, 13454645982, 9853822776, 5474985118, -4539409928, 87665586, 2261752644, 3544653877, 10214712703, 4438312961, 872175277);
}

/// Part 26 of the chain.
proof fn lemma_part_26()
    requires
        generator().times(1557597889369160947487870296022472435145872798959685655009765792nat) == (Point::Affine { x: literal::fe(1384526190, 380531280, 2057224464, 1461333672, 1844687968, 130354199, 1609751342), y: literal::fe(365362942, 593155904, 1712734421, 1159359945, 1906059492, 1894122031, 313087921) }),
    ensures
        generator().times(199372529839252601278447397890876471698671718266839763841250021878nat) == (Point::Affine { x: literal::fe(21053971, 90322736, 156256384, 23627556, 34171264, 126183783, 25645942), y: literal::fe(110396329, 617199867, 286784136, 127062224, 1324739152, 248271230, 506901751) }),
{
    lemma_table();
    lemma_double(1557597889369160947487870296022472435145872798959685655009765792nat, 1384526190, 380531280, 2057224464, 1461333672, 1844687968, 130354199, 1609751342, 365362942, 593155904, 1712734421, 1159359945, 1906059492, 1894122031, 313087921, 947767691, 1513033088, 335214300, 156561819, 469257439, 1170273175, 1726371142, 201812004, 968147197, 2079247912, 597476542, 1702747077, 2031642454, 650365584, 558701460, 1466089595, 1439726768, 36139214, 1506347445, 835849090, 1958576060, -29359463137, -63566423984, -46149201098, -26936561041, -5711479255, -12517974422, -23795630718, 14866633299, 14105727792, 7674105359, 9938783455, 14384046504, 14439813454, 7553320613, 999218693, 3357925163, 3404593887, -1937831306, -6331278576, 755518729, 2125096100);
    lemma_double(3115195778738321894975740592044944870291745597919371310019531584nat, 201812004, 968147197, 2079247912, 597476542, 1702747077, 2031642454, 650365584, 558701460, 1466089595, 1439726768, 36139214, 1506347445, 835849090, 1958576060, 1809785373, 2010146041, 846756456, 2067099852, 1151904765, 1910276083, 32143649, 831685237, 212757370, 1504845611, 1602943033, 456887121, 1473938141, 143449, 1920811634, 919178921, 525893245, 306214899, 1833118439, 1794955337, 2086036891, -32037616271, -48727653273, -33172112234, -37610179628, -18185917676, -2856811894, -7616078946, 20607186638, 36630717993, 27038419239, 20229751540, 11723997814, 7236857510, 6581376410, 9597655719, 9028050420, 12861465885, 9830994401, 6298041224, 3473564627, 1605798375);
    lemma_add(6230391557476643789951481184089889740583491195838742620039063168nat, 15nat, 831685237, 212757370, 1504845611, 1602943033, 456887121, 1473938141, 143449, 1920811634, 919178921, 525893245, 306214899, 1833118439, 1794955337, 2086036891, 1985005590, 1034601703, 728293283, 1421243589, 1794146164, 691082254, 1568020826, 181141497, 400751978, 83536582, 596391389, 2106082275, 1086428455, 1852170896, 211614678, 333785177, 892576485, 859424645, 128178257, 1536079693, 1276476648, 1948373231, 87049790, 762250299, 743754940, 2080701585, 894524851, 851091251, 1500596355, 1173407455, 1199909058, 1868919188, 970142518, 1572057400, 792420180, 2007760572, 524564062, 7213170925, 6646705697, 4479753399, 7303735144, 4574573654, 8972494742, 17018851680, 13251345871, 10398910743, 13654010660, 10410382418, 3483018567, 473098568, 4407153010, -2664309402, -6120394711, -2882669688, -3682876720, -2390490916);
    lemma_double(6230391557476643789951481184089889740583491195838742620039063183nat, 1948373231, 87049790, 762250299, 743754940, 2080701585, 894524851, 851091251, 1500596355, 1173407455, 1199909058, 1868919188, 970142518, 1572057400, 792420180, 1889441591, 1178142126, 1255030671, 180619165, 337826827, 1774436080, 2092050435, 1095572715, 1332600251, 636094750, 709975307, 696630879, 2034937645, 1933764218, 1030265088, 339612071, 1503099220, 2111540548, 2121502448, 1633871801, 986360177, 3824775534, -6927804167, -12981643853, -7997054391, 758963202, 11593359411, 1360007661, 23981348738, 29567600802, 15920863809, 15165989515, 25383962732, 24457335284, 12248193368, -10571682489, -9244444717, 3402737427, 3365871057, -8044139231, -11081915461, -4141589723);
    lemma_double(12460783114953287579902962368179779481166982391677485240078126366nat, 1095572715, 1332600251, 636094750, 709975307, 696630879, 2034937645, 1933764218, 1030265088, 339612071, 1503099220, 2111540548, 2121502448, 1633871801, 986360177, 658840500, 206710327, 191185383, 469111448, 1111650408, 1710525172, 572931183, 522882594, 244689033, 1405739141, 1287327779, 173925134, 567611655, 1881664925, 1148783583, 1933006095, 851957078, 192882030, 236584498, 1306455628, 705781972, -31434179440, -26463554321, -11887477432, -30148202725, -59751847395, -55221721388, -24858217425, 4741869642, 10030719377, 14631989550, 16293798073, 11308225645, 4887679532, 1451155122, -1696718192, -1082357696, 4915914329, 9823197882, 6793854212, 2689698727, 746096016);
    lemma_double(24921566229906575159805924736359558962333964783354970480156252732nat, 522882594, 244689033, 1405739141, 1287327779, 173925134, 567611655, 1881664925, 1148783583, 1933006095, 851957078, 192882030, 236584498, 1306455628, 705781972, 466489553, 476609665, 393347186, 890412568, 97345104, 1298787121, 1998690517, 218680295, 208166766, 1878098432, 1045721628, 836775945, 1150901408, 1310395053, 495981764, 95412913, 1321975936, 1785683316, 1284302162, 1034241582, 1821201300, 7641362955, -26192013230, -48213909439, -14314251495, 1996329448, -20407145237, -11435103058, 7377403132, 13713425792, 14708399255, 10804908519, 15619681956, 17625175567, 7488817776, -2431048590, -3744527708, -1258908608, -4571027408, -3997451751, 1840917708, 1866856243);
    lemma_double(49843132459813150319611849472719117924667929566709940960312505464nat, 218680295, 208166766, 1878098432, 1045721628, 836775945, 1150901408, 1310395053, 495981764, 95412913, 1321975936, 1785683316, 1284302162, 1034241582, 1821201300, 1853430438, 2000784932, 1751451456, 1770158213, 410720284, 1438916860, 1440189501, 741929075, 1672869595, 1284616754, 1120428260, 675704251, 62847160, 1467047012, 2052243935, 1875816036, 988952597, 250872865, 356398831, 113858439, 369123944, 3488322778, -6907956781, 1394832351, 2246031990, -3280752602, 2375110017, 4184361821, 30376135843, 44927759553, 34177562272, 22846872558, 19785523355, 16887680557, 10274113266, 932193842, 4851542358, 2870847070, 3334544568, 4828721740, 2253178722, -590296159);
    lemma_add(99686264919626300639223698945438235849335859133419881920625010928nat, 11nat, 741929075, 1672869595, 1284616754, 1120428260, 675704251, 62847160, 1467047012, 2052243935, 1875816036, 988952597, 250872865, 356398831, 113858439, 369123944, 698510408, 56028667, 1851204165, 1617109836, 270895001, 1080332954, 1202313465, 624956658, 171919014, 1281227139, 415484406, 2013094779, 392737683, 445644599, 338759697, 1678007841, 1012622401, 1362437203, 1610252354, 1236329569, 891594467, 1337498747, 802691858, 894957809, 177530730, 41537500, 1458471669, 885876719, 1898484434, 1438950758, 508625905, 436364133, 1521630169, 962946202, 916221292, 211995606, 3560843047, 3891685471, 2551511278, 1552968112, -543207354, 23949968, 23247599823, 32677226534, 27624443673, 21379854545, 14507617024, 9193884740, 5751813668, 7418958544, 7043628947, 2580978801, 201651198, -414664207, 1762480093, 1177352273);
    lemma_double(99686264919626300639223698945438235849335859133419881920625010939nat, 1337498747, 802691858, 894957809, 177530730, 41537500, 1458471669, 885876719, 1898484434, 1438950758, 508625905, 436364133, 1521630169, 962946202, 916221292, 1137784907, 163298087, 717654046, 928747076, 318428302, 954731796, 786097540, 21053971, 90322736, 156256384, 23627556, 34171264, 126183783, 25645942, 110396329, 617199867, 286784136, 127062224, 1324739152, 248271230, 506901751, -10166831322, -8432235192, 7699425314, 2757857793, -10879429582, -10368500213, -2694987811, 5813706408, 10345269298, 9860591023, 7327677428, 6234793304, 5257606091, 2475279268, 6376438908, 9950684696, 7702401582, 6496267118, 7341466041, 5999975474, 2498427700);
}

/// The multiple of the generator with the group order is infinity.
pub proof fn lemma_group_order()
    ensures
        generator().times(group_order()) == Point::Infinity,
{
    lemma_table();
    lemma_part_1();
    lemma_part_2();
    lemma_part_3();
    lemma_part_4();
    lemma_part_5();
    lemma_part_6();
    lemma_part_7();
    lemma_part_8();
    lemma_part_9();
    lemma_part_10();
    lemma_part_11();
    lemma_part_12();
    lemma_part_13();
    lemma_part_14();
    lemma_part_15();
    lemma_part_16();
    lemma_part_17();
    lemma_part_18();
    lemma_part_19();
    lemma_part_20();
    lemma_part_21();
    lemma_part_22();
    lemma_part_23();
    lemma_part_24();
    lemma_part_25();
    lemma_part_26();
    let y = literal::fe(2020310104, 1513506566, 1843922297, 2003644209, 805967281, 1882435203, 1623804682);
    assert(y.negated() == literal::fe(110396329, 617199867, 286784136, 127062224, 1324739152, 248271230, 506901751)) by {
        reveal(Fe::negated);
    }
    lemma_generator();
    curve::lemma_negation(generator());
}

} // verus!
