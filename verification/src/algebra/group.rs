//! Addition on the curve associates, and multiples of points.
use crate::algebra::chords;
use crate::algebra::curve;
use crate::algebra::curve::Point;
use crate::algebra::element;
use crate::algebra::element::Fe;
use crate::algebra::field;
use crate::algebra::frobenius;
use crate::algebra::laws;
use crate::algebra::ring;
use crate::algebra::ring::Expr;
use vstd::prelude::*;

verus! {

/// A difference of shifted coordinates.
proof fn lemma_shift_difference(p: Fe, r: Fe, e: Fe)
    requires
        p.canonical(),
        r.canonical(),
        e.canonical(),
    ensures
        p.minus(e).minus(r.minus(e)) == p.minus(r),
{
    let env = seq![p, r, e];
    let lhs = ring::v(0).minus(ring::v(2)).minus(ring::v(1).minus(ring::v(2)));
    let rhs = ring::v(0).minus(ring::v(1));
    assert forall|ints: Seq<int>| ints.len() == 3 implies #[trigger] lhs.over_int(ints) == rhs.over_int(ints) by {
        reveal_with_fuel(Expr::over_int, 3);
        let (p, r, e) = (ints[0], ints[1], ints[2]);
        assert((p - e) - (r - e) == p - r) by (nonlinear_arith);
    }
    reveal_with_fuel(Expr::over_fe, 3);
    reveal_with_fuel(Expr::below, 3);
    ring::lemma_identity(lhs, rhs, env);
}

/// A difference in the other order.
proof fn lemma_flip_difference(l: Fe, n: Fe)
    requires
        l.canonical(),
        n.canonical(),
    ensures
        n.minus(l) == Fe::of_int(0).minus(l.minus(n)),
{
    let env = seq![l, n];
    let lhs = ring::v(1).minus(ring::v(0));
    let rhs = ring::c(0).minus(ring::v(0).minus(ring::v(1)));
    assert forall|ints: Seq<int>| ints.len() == 2 implies #[trigger] lhs.over_int(ints) == rhs.over_int(ints) by {
        reveal_with_fuel(Expr::over_int, 3);
        let (l, n) = (ints[0], ints[1]);
        assert(n - l == 0 - (l - n)) by (nonlinear_arith);
    }
    reveal_with_fuel(Expr::over_fe, 3);
    reveal_with_fuel(Expr::below, 3);
    ring::lemma_identity(lhs, rhs, env);
}

/// A product with a difference in the other order.
proof fn lemma_flip_product(d: Fe, l: Fe, n: Fe)
    requires
        d.canonical(),
        l.canonical(),
        n.canonical(),
    ensures
        d.times(n.minus(l)) == Fe::of_int(0).minus(d.times(l.minus(n))),
{
    let env = seq![d, l, n];
    let lhs = ring::v(0).times(ring::v(2).minus(ring::v(1)));
    let rhs = ring::c(0).minus(ring::v(0).times(ring::v(1).minus(ring::v(2))));
    assert forall|ints: Seq<int>| ints.len() == 3 implies #[trigger] lhs.over_int(ints) == rhs.over_int(ints) by {
        reveal_with_fuel(Expr::over_int, 4);
        let (d, l, n) = (ints[0], ints[1], ints[2]);
        assert(d * (n - l) == 0 - (d * (l - n))) by (nonlinear_arith);
    }
    reveal_with_fuel(Expr::over_fe, 4);
    reveal_with_fuel(Expr::below, 4);
    ring::lemma_identity(lhs, rhs, env);
}

/// A sum of zero products.
proof fn lemma_zero_sum(l: Fe, t: Fe)
    requires
        l.canonical(),
        t.canonical(),
    ensures
        Fe::of_int(0).minus(l.times(Fe::of_int(0))).minus(Fe::of_int(0).times(t)) == Fe::of_int(0),
{
    let env = seq![l, t];
    let lhs = ring::c(0).minus(ring::v(0).times(ring::c(0))).minus(ring::c(0).times(ring::v(1)));
    let rhs = ring::c(0);
    assert forall|ints: Seq<int>| ints.len() == 2 implies #[trigger] lhs.over_int(ints) == rhs.over_int(ints) by {
        reveal_with_fuel(Expr::over_int, 4);
        let (l, t) = (ints[0], ints[1]);
        assert((0 - (l * 0)) - (0 * t) == 0) by (nonlinear_arith);
    }
    reveal_with_fuel(Expr::over_fe, 4);
    reveal_with_fuel(Expr::below, 4);
    ring::lemma_identity(lhs, rhs, env);
}

/// The slope of the line through `P + Q` and `R`, where `P` and `Q` have slope `l`, and `R` and
/// `Q` have slope `n`.
proof fn lemma_third_slope(
    l: Fe,
    n: Fe,
    d: Fe,
    x1: Fe,
    y1: Fe,
    x2: Fe,
    y2: Fe,
    x3: Fe,
    y3: Fe,
) -> (sum: (Fe, Fe))
    requires
        curve::pair(x1, y1, x2, y2),
        curve::pair(x3, y3, x2, y2),
        curve::slope(l, x1, y1, x2, y2),
        curve::slope(n, x3, y3, x2, y2),
        d.canonical(),
        d.times(l.minus(n)) == x1.minus(x3),
        l.minus(n) != Fe::of_int(0),
    ensures
        curve::chord(l, x1, y1, x2) == (Point::Affine { x: sum.0, y: sum.1 }),
        sum.0 == l.times(l).minus(x1).minus(x2),
        curve::slope(d.minus(l), sum.0, sum.1, x3, y3),
{
    broadcast use element::group_canonical;

    let a = curve::curve_a();
    let m = curve::lemma_shifted(l, x1, y1, x2, y2);
    let t = curve::lemma_shifted(n, x3, y3, x2, y2);
    lemma_shift_difference(x1, x3, x2);
    curve::lemma_chord_closed(l, x1, y1, x2, y2);
    let q = l.times(l);
    let x = q.minus(x1).minus(x2);
    let z = l.times(x1.minus(x)).minus(y1);
    chords::lemma_chord_y(l, x1, y1, x2, y2, x);
    let g = q.minus(Fe::of_int(3).times(x2).plus(m).plus(t));
    let u = t.times(l.plus(n)).plus(Fe::of_int(2).times(y2));
    chords::lemma_sum_x(q, x, x2, m, t, g);
    chords::lemma_gap(l, n, x2, m, t, y2, a, g, u);
    chords::lemma_gap_quotient(l, n, m, t, g, u, d);
    chords::lemma_rise(l, n, x2, t, y2, g, u, x, z);
    chords::lemma_line(l, d, x2, t, g, u, x, y3.minus(z));
    chords::lemma_coordinate_sum(l, n, x2, t, y2, g, x, z);
    chords::lemma_tangent_product(l, n, m, t, y2, d, g, u, z.plus(y3));
    chords::lemma_tangent_value(l, x2, m, t, y2, a, g, q);
    chords::lemma_tangent_form(g, x, x3, a);
    (x, z)
}

/// Points with equal slopes to a common point agree, or one is opposite to the other sum.
proof fn lemma_equal_slopes(l: Fe, x1: Fe, y1: Fe, x2: Fe, y2: Fe, x3: Fe, y3: Fe)
    requires
        curve::pair(x1, y1, x2, y2),
        curve::pair(x3, y3, x2, y2),
        curve::slope(l, x1, y1, x2, y2),
        curve::slope(l, x3, y3, x2, y2),
    ensures
        x1 == x3 && y1 == y3 || curve::chord(l, x1, y1, x2).negated() == (Point::Affine {
            x: x3,
            y: y3,
        }),
{
    broadcast use element::group_canonical;

    let a = curve::curve_a();
    element::lemma_constants(l);
    let m = curve::lemma_shifted(l, x1, y1, x2, y2);
    let t = curve::lemma_shifted(l, x3, y3, x2, y2);
    let q = l.times(l);
    let x = q.minus(x1).minus(x2);
    let z = l.times(x1.minus(x)).minus(y1);
    chords::lemma_chord_y(l, x1, y1, x2, y2, x);
    let g = q.minus(Fe::of_int(3).times(x2).plus(m).plus(t));
    let u = t.times(l.plus(l)).plus(Fe::of_int(2).times(y2));
    chords::lemma_sum_x(q, x, x2, m, t, g);
    chords::lemma_gap(l, l, x2, m, t, y2, a, g, u);
    laws::lemma_sub_self(l);
    laws::lemma_mul_zero(u);
    frobenius::lemma_no_zero_divisors(t.minus(m), g);
    if t.minus(m) == Fe::zero() {
        laws::lemma_sub_zero(t, m);
    } else {
        chords::lemma_coordinate_sum(l, l, x2, t, y2, g, x, z);
        lemma_zero_sum(l, t);
        laws::lemma_add_zero(x3);
        curve::lemma_opposite(z, y3);
    }
}

/// Associativity for affine points of which no two that are added are opposite.
proof fn lemma_assoc_affine(x1: Fe, y1: Fe, x2: Fe, y2: Fe, x3: Fe, y3: Fe)
    requires
        curve::pair(x1, y1, x2, y2),
        curve::pair(x3, y3, x2, y2),
        x1 != x2 || y1.plus(y2) != Fe::zero(),
        x3 != x2 || y3.plus(y2) != Fe::zero(),
        (Point::Affine { x: x3, y: y3 }) != (Point::Affine { x: x1, y: y1 }).plus(
            Point::Affine { x: x2, y: y2 },
        ).negated(),
        (Point::Affine { x: x1, y: y1 }) != (Point::Affine { x: x3, y: y3 }).plus(
            Point::Affine { x: x2, y: y2 },
        ).negated(),
        x1 != x3 || y1 != y3,
    ensures
        (Point::Affine { x: x1, y: y1 }).plus(Point::Affine { x: x2, y: y2 }).plus(
            Point::Affine { x: x3, y: y3 },
        ) == (Point::Affine { x: x3, y: y3 }).plus(Point::Affine { x: x2, y: y2 }).plus(
            Point::Affine { x: x1, y: y1 },
        ),
{
    broadcast use element::group_canonical;

    element::lemma_constants(x1);
    let l = curve::lemma_slope_exists(x1, y1, x2, y2);
    let n = curve::lemma_slope_exists(x3, y3, x2, y2);
    curve::lemma_chord_closed(l, x1, y1, x2, y2);
    curve::lemma_chord_closed(n, x3, y3, x2, y2);
    if l.minus(n) == Fe::zero() {
        laws::lemma_sub_zero(l, n);
        lemma_equal_slopes(l, x1, y1, x2, y2, x3, y3);
    } else {
        let d = x1.minus(x3).over(l.minus(n));
        field::lemma_over(x1.minus(x3), l.minus(n));
        let (xa, ya) = lemma_third_slope(l, n, d, x1, y1, x2, y2, x3, y3);
        lemma_flip_product(d, l, n);
        lemma_flip_difference(l, n);
        lemma_flip_difference(x1, x3);
        if n.minus(l) == Fe::zero() {
            laws::lemma_sub_zero(n, l);
            laws::lemma_sub_self(l);
        }
        let (xb, yb) = lemma_third_slope(n, l, d, x3, y3, x2, y2, x1, y1);
        if xa == x3 && ya.plus(y3) == Fe::zero() {
            curve::lemma_opposite(ya, y3);
        }
        if xb == x1 && yb.plus(y1) == Fe::zero() {
            curve::lemma_opposite(yb, y1);
        }
        curve::lemma_sum(d.minus(l), xa, ya, x3, y3);
        curve::lemma_sum(d.minus(n), xb, yb, x1, y1);
        lemma_same_sum(l, n, d, x1, y1, x2, y2, x3, y3, xa, ya, xb, yb);
    }
}

/// The two chords end in the same point.
proof fn lemma_same_sum(
    l: Fe,
    n: Fe,
    d: Fe,
    x1: Fe,
    y1: Fe,
    x2: Fe,
    y2: Fe,
    x3: Fe,
    y3: Fe,
    xa: Fe,
    ya: Fe,
    xb: Fe,
    yb: Fe,
)
    requires
        curve::pair(x1, y1, x2, y2),
        curve::pair(x3, y3, x2, y2),
        curve::slope(l, x1, y1, x2, y2),
        curve::slope(n, x3, y3, x2, y2),
        d.canonical(),
        ya.canonical(),
        yb.canonical(),
        d.times(l.minus(n)) == x1.minus(x3),
        xa == l.times(l).minus(x1).minus(x2),
        xb == n.times(n).minus(x3).minus(x2),
        curve::slope(d.minus(l), xa, ya, x3, y3),
        curve::slope(d.minus(n), xb, yb, x1, y1),
    ensures
        curve::chord(d.minus(l), xa, ya, x3) == curve::chord(d.minus(n), xb, yb, x1),
{
    broadcast use element::group_canonical;

    let m = curve::lemma_shifted(l, x1, y1, x2, y2);
    let t = curve::lemma_shifted(n, x3, y3, x2, y2);
    lemma_shift_difference(x1, x3, x2);
    let q = l.times(l);
    chords::lemma_same_x(d, l, n, x1, x2, x3, xa, xb, q, n.times(n));
    chords::lemma_same_x_value(d, l, n, x2, m, t, xa, q);
    let x = d.minus(l).times(d.minus(l)).minus(xa).minus(x3);
    chords::lemma_chord_y(d.minus(l), xa, ya, x3, y3, x);
    chords::lemma_chord_y(d.minus(n), xb, yb, x1, y1, x);
    chords::lemma_same_y(d, l, n, x2, m, t, y2, x);
}

/// Addition associates where the second point is opposite to the sum of the others.
proof fn lemma_assoc_opposite(p: Point, q: Point)
    requires
        p.valid(),
        q.valid(),
    ensures
        q.plus(p.plus(q).negated()) == p.negated(),
{
    curve::lemma_negation(p);
    curve::lemma_negation(q);
    curve::lemma_negated_sum(p, q);
    curve::lemma_plus_minus(p.negated(), q.negated());
    curve::lemma_plus_closed(p.negated(), q.negated());
    curve::lemma_plus_comm(q, p.negated().plus(q.negated()));
}

/// Addition associates.
pub proof fn lemma_plus_assoc(p: Point, q: Point, r: Point)
    requires
        p.valid(),
        q.valid(),
        r.valid(),
    ensures
        p.plus(q).plus(r) == p.plus(q.plus(r)),
{
    curve::lemma_negation(p);
    curve::lemma_negation(q);
    curve::lemma_negation(r);
    curve::lemma_plus_closed(p, q);
    curve::lemma_plus_closed(q, r);
    curve::lemma_plus_comm(q, r);
    curve::lemma_plus_comm(p, q.plus(r));
    curve::lemma_negation(p.plus(q));
    match (p, q, r) {
        (
            Point::Affine { x: x1, y: y1 },
            Point::Affine { x: x2, y: y2 },
            Point::Affine { x: x3, y: y3 },
        ) => {
            if q == p.negated() {
                curve::lemma_plus_minus(r, p.negated());
            } else if r == q.negated() {
                curve::lemma_plus_minus(p, q);
            } else if r == p.plus(q).negated() {
                lemma_assoc_opposite(p, q);
            } else if q.plus(r) == p.negated() {
                curve::lemma_plus_minus(r, q);
                curve::lemma_negated_sum(p, q);
                assert(false);
            } else if p == r {
                curve::lemma_plus_comm(p, q);
            } else {
                if x1 == x2 && y1.plus(y2) == Fe::zero() {
                    curve::lemma_opposite(y1, y2);
                }
                laws::lemma_add_comm(y3, y2);
                if x3 == x2 && y3.plus(y2) == Fe::zero() {
                    curve::lemma_opposite(y2, y3);
                }
                curve::lemma_negation(r.plus(q));
                lemma_assoc_affine(x1, y1, x2, y2, x3, y3);
            }
        },
        _ => {},
    }
}

/// Only the negation of a point sums up with it to infinity.
pub proof fn lemma_plus_infinity(p: Point, q: Point)
    requires
        p.valid(),
        q.valid(),
    ensures
        p.plus(q) == Point::Infinity <==> q == p.negated(),
{
    curve::lemma_negation(p);
    curve::lemma_negation(q);
    curve::lemma_plus_minus(p, q);
}

/// Multiples of a point of the group are points of the group.
pub proof fn lemma_times_closed(p: Point, n: nat)
    requires
        p.valid(),
    ensures
        p.times(n).valid(),
    decreases n,
{
    if n > 0 {
        lemma_times_closed(p, (n - 1) as nat);
        curve::lemma_plus_closed(p, p.times((n - 1) as nat));
    }
}

/// A point added to infinity, once and twice.
pub proof fn lemma_times_small(p: Point)
    ensures
        p.times(0) == Point::Infinity,
        p.times(1) == p,
        p.times(2) == p.doubled(),
{
    reveal_with_fuel(Point::times, 3);
    curve::lemma_doubled(p);
}

/// Multiples add.
pub proof fn lemma_times_add(p: Point, m: nat, n: nat)
    requires
        p.valid(),
    ensures
        p.times(m + n) == p.times(m).plus(p.times(n)),
    decreases m,
{
    if m > 0 {
        let k = (m - 1) as nat;
        lemma_times_add(p, k, n);
        assert((m + n - 1) as nat == k + n);
        lemma_times_closed(p, k);
        lemma_times_closed(p, n);
        lemma_plus_assoc(p, p.times(k), p.times(n));
    }
}

/// Multiples of multiples.
pub proof fn lemma_times_mul(p: Point, m: nat, n: nat)
    requires
        p.valid(),
    ensures
        p.times(m * n) == p.times(m).times(n),
    decreases n,
{
    if n == 0 {
        assert(m * n == 0) by (nonlinear_arith)
            requires
                n == 0,
        ;
    } else {
        let k = (n - 1) as nat;
        lemma_times_mul(p, m, k);
        assert(m * n == m + m * k) by (nonlinear_arith)
            requires
                n == k + 1,
        ;
        lemma_times_add(p, m, m * k);
    }
}

/// Multiples of infinity.
pub proof fn lemma_times_infinity(n: nat)
    ensures
        Point::Infinity.times(n) == Point::Infinity,
    decreases n,
{
    if n > 0 {
        lemma_times_infinity((n - 1) as nat);
    }
}

} // verus!
