//! The group of points on the curve `y^2 = x^3 + 45 x + 41 z^3`.
use crate::algebra::chords;
use crate::algebra::element;
use crate::algebra::element::Fe;
use crate::algebra::field;
use crate::algebra::laws;
use crate::algebra::literal;
use crate::algebra::ring;
use crate::algebra::ring::Expr;
use vstd::prelude::*;

verus! {

/// A point of the curve in the affine plane, or the point at infinity.
pub enum Point {
    Infinity,
    Affine { x: Fe, y: Fe },
}

/// The linear coefficient of the curve.
pub open spec fn curve_a() -> Fe {
    Fe::of_int(45)
}

/// The constant coefficient of the curve, `41 z^3`.
pub open spec fn curve_b() -> Fe {
    literal::fe(0, 0, 0, 41, 0, 0, 0)
}

/// `x^3 + 45 x + 41 z^3`.
pub open spec fn curve_rhs(x: Fe) -> Fe {
    x.times(x).times(x).plus(curve_a().times(x)).plus(curve_b())
}

/// The third point on the line with slope `l` through `(x1, y1)` and a point above `x2`,
/// mirrored at the first axis.
pub open spec fn chord(l: Fe, x1: Fe, y1: Fe, x2: Fe) -> Point {
    let x3 = l.times(l).minus(x1).minus(x2);
    Point::Affine { x: x3, y: l.times(x1.minus(x3)).minus(y1) }
}

impl Point {
    /// The coordinates are canonical.
    pub open spec fn canonical(self) -> bool {
        match self {
            Point::Infinity => true,
            Point::Affine { x, y } => x.canonical() && y.canonical(),
        }
    }

    /// The coordinates satisfy the equation of the curve.
    pub open spec fn on_curve(self) -> bool {
        match self {
            Point::Infinity => true,
            Point::Affine { x, y } => y.times(y) == curve_rhs(x),
        }
    }

    /// A point of the group.
    pub open spec fn valid(self) -> bool {
        self.canonical() && self.on_curve()
    }

    /// The point mirrored at the first axis.
    pub open spec fn negated(self) -> Point {
        match self {
            Point::Infinity => Point::Infinity,
            Point::Affine { x, y } => Point::Affine { x, y: y.negated() },
        }
    }

    /// The sum of a point with itself: the tangent has slope `(3 x^2 + 45) / (2 y)`.
    pub open spec fn doubled(self) -> Point {
        match self {
            Point::Infinity => Point::Infinity,
            Point::Affine { x, y } => if y == Fe::zero() {
                Point::Infinity
            } else {
                let l = Fe::of_int(3).times(x.times(x)).plus(curve_a()).over(
                    Fe::of_int(2).times(y),
                );
                let x3 = l.times(l).minus(Fe::of_int(2).times(x));
                Point::Affine { x: x3, y: l.times(x.minus(x3)).minus(y) }
            },
        }
    }

    /// The sum of two points.
    pub open spec fn plus(self, other: Point) -> Point {
        match (self, other) {
            (Point::Infinity, _) => other,
            (_, Point::Infinity) => self,
            (
                Point::Affine { x: x1, y: y1 },
                Point::Affine { x: x2, y: y2 },
            ) => if x1 == x2 {
                if y1 == y2 {
                    self.doubled()
                } else {
                    Point::Infinity
                }
            } else {
                chord(y2.minus(y1).over(x2.minus(x1)), x1, y1, x2)
            },
        }
    }

    /// The `n`-fold sum of a point.
    pub open spec fn times(self, n: nat) -> Point
        decreases n,
    {
        if n == 0 {
            Point::Infinity
        } else {
            self.plus(self.times((n - 1) as nat))
        }
    }
}

/// `l` is the slope of the line through the two points, or of the tangent where they agree.
pub open spec fn slope(l: Fe, x1: Fe, y1: Fe, x2: Fe, y2: Fe) -> bool {
    &&& l.canonical()
    &&& l.times(x2.minus(x1)) == y2.minus(y1)
    &&& l.times(y1.plus(y2)) == x1.times(x1).plus(x1.times(x2)).plus(x2.times(x2)).plus(curve_a())
}

/// Two affine points of the curve.
pub open spec fn pair(x1: Fe, y1: Fe, x2: Fe, y2: Fe) -> bool {
    &&& x1.canonical()
    &&& y1.canonical()
    &&& x2.canonical()
    &&& y2.canonical()
    &&& y1.times(y1) == curve_rhs(x1)
    &&& y2.times(y2) == curve_rhs(x2)
}

/// The coefficients are canonical, and small integers other than zero are not zero.
proof fn lemma_coefficients()
    ensures
        curve_a().canonical(),
        curve_b().canonical(),
        Fe::of_int(2) != Fe::zero(),
        Fe::of_int(9) != Fe::zero(),
        Fe::of_int(0) == Fe::zero(),
        Fe::zero().canonical(),
{
    element::lemma_of_int_canonical(45);
    element::lemma_constants(Fe::zero());
    reveal(Fe::canonical);
    reveal(Fe::of_int);
}

/// An element plus its negation.
proof fn lemma_add_negated(y: Fe)
    requires
        y.canonical(),
    ensures
        y.plus(Fe::of_int(0).minus(y)) == Fe::of_int(0),
{
    let env = seq![y];
    let lhs = ring::v(0).plus(ring::c(0).minus(ring::v(0)));
    let rhs = ring::c(0);
    assert forall|ints: Seq<int>| ints.len() == 1 implies #[trigger] lhs.over_int(ints) == rhs.over_int(ints) by {
        reveal_with_fuel(Expr::over_int, 3);
        let y = ints[0];
        assert(y + (0 - y) == 0) by (nonlinear_arith);
    }
    reveal_with_fuel(Expr::over_fe, 3);
    reveal_with_fuel(Expr::below, 3);
    ring::lemma_identity(lhs, rhs, env);
}

/// Negating twice.
proof fn lemma_negated_twice(y: Fe)
    requires
        y.canonical(),
    ensures
        Fe::of_int(0).minus(Fe::of_int(0).minus(y)) == y,
{
    let env = seq![y];
    let lhs = ring::c(0).minus(ring::c(0).minus(ring::v(0)));
    let rhs = ring::v(0);
    assert forall|ints: Seq<int>| ints.len() == 1 implies #[trigger] lhs.over_int(ints) == rhs.over_int(ints) by {
        reveal_with_fuel(Expr::over_int, 3);
        let y = ints[0];
        assert(0 - (0 - y) == y) by (nonlinear_arith);
    }
    reveal_with_fuel(Expr::over_fe, 3);
    reveal_with_fuel(Expr::below, 3);
    ring::lemma_identity(lhs, rhs, env);
}

/// A difference of squares.
proof fn lemma_squares(y1: Fe, y2: Fe)
    requires
        y1.canonical(),
        y2.canonical(),
    ensures
        y1.plus(y2).times(y1.minus(y2)) == y1.times(y1).minus(y2.times(y2)),
{
    let env = seq![y1, y2];
    let lhs = ring::v(0).plus(ring::v(1)).times(ring::v(0).minus(ring::v(1)));
    let rhs = ring::v(0).times(ring::v(0)).minus(ring::v(1).times(ring::v(1)));
    assert forall|ints: Seq<int>| ints.len() == 2 implies #[trigger] lhs.over_int(ints) == rhs.over_int(ints) by {
        reveal_with_fuel(Expr::over_int, 3);
        let (y1, y2) = (ints[0], ints[1]);
        assert((y1 + y2) * (y1 - y2) == (y1 * y1) - (y2 * y2)) by (nonlinear_arith);
    }
    reveal_with_fuel(Expr::over_fe, 3);
    reveal_with_fuel(Expr::below, 3);
    ring::lemma_identity(lhs, rhs, env);
}

/// Adding an element to itself.
proof fn lemma_twice(y: Fe)
    requires
        y.canonical(),
    ensures
        y.plus(y) == Fe::of_int(2).times(y),
{
    let env = seq![y];
    let lhs = ring::v(0).plus(ring::v(0));
    let rhs = ring::c(2).times(ring::v(0));
    assert forall|ints: Seq<int>| ints.len() == 1 implies #[trigger] lhs.over_int(ints) == rhs.over_int(ints) by {
        reveal_with_fuel(Expr::over_int, 2);
        let y = ints[0];
        assert(y + y == 2 * y) by (nonlinear_arith);
    }
    reveal_with_fuel(Expr::over_fe, 2);
    reveal_with_fuel(Expr::below, 2);
    ring::lemma_identity(lhs, rhs, env);
}

/// Adding an element three times.
proof fn lemma_thrice(s: Fe, a: Fe)
    requires
        s.canonical(),
        a.canonical(),
    ensures
        s.plus(s).plus(s).plus(a) == Fe::of_int(3).times(s).plus(a),
{
    let env = seq![s, a];
    let lhs = ring::v(0).plus(ring::v(0)).plus(ring::v(0)).plus(ring::v(1));
    let rhs = ring::c(3).times(ring::v(0)).plus(ring::v(1));
    assert forall|ints: Seq<int>| ints.len() == 2 implies #[trigger] lhs.over_int(ints) == rhs.over_int(ints) by {
        reveal_with_fuel(Expr::over_int, 4);
        let (s, a) = (ints[0], ints[1]);
        assert(((s + s) + s) + a == (3 * s) + a) by (nonlinear_arith);
    }
    reveal_with_fuel(Expr::over_fe, 4);
    reveal_with_fuel(Expr::below, 4);
    ring::lemma_identity(lhs, rhs, env);
}

/// Subtracting an element twice.
proof fn lemma_sub_twice(q: Fe, x: Fe)
    requires
        q.canonical(),
        x.canonical(),
    ensures
        q.minus(x).minus(x) == q.minus(Fe::of_int(2).times(x)),
{
    let env = seq![q, x];
    let lhs = ring::v(0).minus(ring::v(1)).minus(ring::v(1));
    let rhs = ring::v(0).minus(ring::c(2).times(ring::v(1)));
    assert forall|ints: Seq<int>| ints.len() == 2 implies #[trigger] lhs.over_int(ints) == rhs.over_int(ints) by {
        reveal_with_fuel(Expr::over_int, 3);
        let (q, x) = (ints[0], ints[1]);
        assert((q - x) - x == q - (2 * x)) by (nonlinear_arith);
    }
    reveal_with_fuel(Expr::over_fe, 3);
    reveal_with_fuel(Expr::below, 3);
    ring::lemma_identity(lhs, rhs, env);
}

/// A product with a difference.
proof fn lemma_slope_difference(d: Fe, l: Fe, n: Fe)
    requires
        d.canonical(),
        l.canonical(),
        n.canonical(),
    ensures
        d.times(l.minus(n)) == l.times(d).minus(n.times(d)),
{
    let env = seq![d, l, n];
    let lhs = ring::v(0).times(ring::v(1).minus(ring::v(2)));
    let rhs = ring::v(1).times(ring::v(0)).minus(ring::v(2).times(ring::v(0)));
    assert forall|ints: Seq<int>| ints.len() == 3 implies #[trigger] lhs.over_int(ints) == rhs.over_int(ints) by {
        reveal_with_fuel(Expr::over_int, 3);
        let (d, l, n) = (ints[0], ints[1], ints[2]);
        assert(d * (l - n) == (l * d) - (n * d)) by (nonlinear_arith);
    }
    reveal_with_fuel(Expr::over_fe, 3);
    reveal_with_fuel(Expr::below, 3);
    ring::lemma_identity(lhs, rhs, env);
}

/// A line in the other direction.
proof fn lemma_line_back(l: Fe, x1: Fe, x2: Fe)
    requires
        l.canonical(),
        x1.canonical(),
        x2.canonical(),
    ensures
        l.times(x1.minus(x2)) == Fe::of_int(0).minus(l.times(x2.minus(x1))),
{
    let env = seq![l, x1, x2];
    let lhs = ring::v(0).times(ring::v(1).minus(ring::v(2)));
    let rhs = ring::c(0).minus(ring::v(0).times(ring::v(2).minus(ring::v(1))));
    assert forall|ints: Seq<int>| ints.len() == 3 implies #[trigger] lhs.over_int(ints) == rhs.over_int(ints) by {
        reveal_with_fuel(Expr::over_int, 4);
        let (l, x1, x2) = (ints[0], ints[1], ints[2]);
        assert(l * (x1 - x2) == 0 - (l * (x2 - x1))) by (nonlinear_arith);
    }
    reveal_with_fuel(Expr::over_fe, 4);
    reveal_with_fuel(Expr::below, 4);
    ring::lemma_identity(lhs, rhs, env);
}

/// Going back a difference.
proof fn lemma_line_end(y1: Fe, y2: Fe)
    requires
        y1.canonical(),
        y2.canonical(),
    ensures
        y2.plus(Fe::of_int(0).minus(y2.minus(y1))) == y1,
{
    let env = seq![y1, y2];
    let lhs = ring::v(1).plus(ring::c(0).minus(ring::v(1).minus(ring::v(0))));
    let rhs = ring::v(0);
    assert forall|ints: Seq<int>| ints.len() == 2 implies #[trigger] lhs.over_int(ints) == rhs.over_int(ints) by {
        reveal_with_fuel(Expr::over_int, 4);
        let (y1, y2) = (ints[0], ints[1]);
        assert(y2 + (0 - (y2 - y1)) == y1) by (nonlinear_arith);
    }
    reveal_with_fuel(Expr::over_fe, 4);
    reveal_with_fuel(Expr::below, 4);
    ring::lemma_identity(lhs, rhs, env);
}

/// Subtracting in the other order.
proof fn lemma_sub_swap(q: Fe, x1: Fe, x2: Fe)
    requires
        q.canonical(),
        x1.canonical(),
        x2.canonical(),
    ensures
        q.minus(x1).minus(x2) == q.minus(x2).minus(x1),
{
    let env = seq![q, x1, x2];
    let lhs = ring::v(0).minus(ring::v(1)).minus(ring::v(2));
    let rhs = ring::v(0).minus(ring::v(2)).minus(ring::v(1));
    assert forall|ints: Seq<int>| ints.len() == 3 implies #[trigger] lhs.over_int(ints) == rhs.over_int(ints) by {
        reveal_with_fuel(Expr::over_int, 3);
        let (q, x1, x2) = (ints[0], ints[1], ints[2]);
        assert((q - x1) - x2 == (q - x2) - x1) by (nonlinear_arith);
    }
    reveal_with_fuel(Expr::over_fe, 3);
    reveal_with_fuel(Expr::below, 3);
    ring::lemma_identity(lhs, rhs, env);
}

/// The sum of the three first coordinates.
proof fn lemma_third(q: Fe, x2: Fe, m: Fe)
    requires
        q.canonical(),
        x2.canonical(),
        m.canonical(),
    ensures
        Fe::of_int(3).times(x2).plus(m).minus(x2.minus(q.minus(x2.plus(m)).minus(x2))) == q,
{
    let env = seq![q, x2, m];
    let lhs = ring::c(3).times(ring::v(1)).plus(ring::v(2)).minus(ring::v(1).minus(ring::v(0).minus(ring::v(1).plus(ring::v(2))).minus(ring::v(1))));
    let rhs = ring::v(0);
    assert forall|ints: Seq<int>| ints.len() == 3 implies #[trigger] lhs.over_int(ints) == rhs.over_int(ints) by {
        reveal_with_fuel(Expr::over_int, 6);
        let (q, x2, m) = (ints[0], ints[1], ints[2]);
        assert(((3 * x2) + m) - (x2 - ((q - (x2 + m)) - x2)) == q) by (nonlinear_arith);
    }
    reveal_with_fuel(Expr::over_fe, 6);
    reveal_with_fuel(Expr::below, 6);
    ring::lemma_identity(lhs, rhs, env);
}

/// The line back.
proof fn lemma_back_line(l: Fe, x2: Fe, x3: Fe, y2: Fe)
    requires
        l.canonical(),
        x2.canonical(),
        x3.canonical(),
        y2.canonical(),
    ensures
        Fe::of_int(0).minus(l).times(x2.minus(x3)) == Fe::of_int(0).minus(y2).minus(l.times(x2.minus(x3)).minus(y2)),
{
    let env = seq![l, x2, x3, y2];
    let lhs = ring::c(0).minus(ring::v(0)).times(ring::v(1).minus(ring::v(2)));
    let rhs = ring::c(0).minus(ring::v(3)).minus(ring::v(0).times(ring::v(1).minus(ring::v(2))).minus(ring::v(3)));
    assert forall|ints: Seq<int>| ints.len() == 4 implies #[trigger] lhs.over_int(ints) == rhs.over_int(ints) by {
        reveal_with_fuel(Expr::over_int, 5);
        let (l, x2, x3, y2) = (ints[0], ints[1], ints[2], ints[3]);
        assert((0 - l) * (x2 - x3) == (0 - y2) - ((l * (x2 - x3)) - y2)) by (nonlinear_arith);
    }
    reveal_with_fuel(Expr::over_fe, 5);
    reveal_with_fuel(Expr::below, 5);
    ring::lemma_identity(lhs, rhs, env);
}

/// The first coordinate of the way back.
proof fn lemma_back_x(l: Fe, x1: Fe, x2: Fe)
    requires
        l.canonical(),
        x1.canonical(),
        x2.canonical(),
    ensures
        Fe::of_int(0).minus(l).times(Fe::of_int(0).minus(l)).minus(l.times(l).minus(x1).minus(x2)).minus(x2) == x1,
{
    let env = seq![l, x1, x2];
    let lhs = ring::c(0).minus(ring::v(0)).times(ring::c(0).minus(ring::v(0))).minus(ring::v(0).times(ring::v(0)).minus(ring::v(1)).minus(ring::v(2))).minus(ring::v(2));
    let rhs = ring::v(1);
    assert forall|ints: Seq<int>| ints.len() == 3 implies #[trigger] lhs.over_int(ints) == rhs.over_int(ints) by {
        reveal_with_fuel(Expr::over_int, 6);
        let (l, x1, x2) = (ints[0], ints[1], ints[2]);
        assert((((0 - l) * (0 - l)) - (((l * l) - x1) - x2)) - x2 == x1) by (nonlinear_arith);
    }
    reveal_with_fuel(Expr::over_fe, 6);
    reveal_with_fuel(Expr::below, 6);
    ring::lemma_identity(lhs, rhs, env);
}

/// The second coordinate of the way back.
proof fn lemma_back_y(l: Fe, x1: Fe, y1: Fe, x3: Fe)
    requires
        l.canonical(),
        x1.canonical(),
        y1.canonical(),
        x3.canonical(),
    ensures
        Fe::of_int(0).minus(l).times(x3.minus(x1)).minus(l.times(x1.minus(x3)).minus(y1)) == y1,
{
    let env = seq![l, x1, y1, x3];
    let lhs = ring::c(0).minus(ring::v(0)).times(ring::v(3).minus(ring::v(1))).minus(ring::v(0).times(ring::v(1).minus(ring::v(3))).minus(ring::v(2)));
    let rhs = ring::v(2);
    assert forall|ints: Seq<int>| ints.len() == 4 implies #[trigger] lhs.over_int(ints) == rhs.over_int(ints) by {
        reveal_with_fuel(Expr::over_int, 5);
        let (l, x1, y1, x3) = (ints[0], ints[1], ints[2], ints[3]);
        assert(((0 - l) * (x3 - x1)) - ((l * (x1 - x3)) - y1) == y1) by (nonlinear_arith);
    }
    reveal_with_fuel(Expr::over_fe, 5);
    reveal_with_fuel(Expr::below, 5);
    ring::lemma_identity(lhs, rhs, env);
}

/// A sum of negations.
proof fn lemma_negated_pair(y1: Fe, y2: Fe)
    requires
        y1.canonical(),
        y2.canonical(),
    ensures
        Fe::of_int(0).minus(y1).plus(Fe::of_int(0).minus(y2)) == Fe::of_int(0).minus(y1.plus(y2)),
{
    let env = seq![y1, y2];
    let lhs = ring::c(0).minus(ring::v(0)).plus(ring::c(0).minus(ring::v(1)));
    let rhs = ring::c(0).minus(ring::v(0).plus(ring::v(1)));
    assert forall|ints: Seq<int>| ints.len() == 2 implies #[trigger] lhs.over_int(ints) == rhs.over_int(ints) by {
        reveal_with_fuel(Expr::over_int, 3);
        let (y1, y2) = (ints[0], ints[1]);
        assert((0 - y1) + (0 - y2) == 0 - (y1 + y2)) by (nonlinear_arith);
    }
    reveal_with_fuel(Expr::over_fe, 3);
    reveal_with_fuel(Expr::below, 3);
    ring::lemma_identity(lhs, rhs, env);
}

/// A line mirrored.
proof fn lemma_negated_line(l: Fe, x1: Fe, x2: Fe)
    requires
        l.canonical(),
        x1.canonical(),
        x2.canonical(),
    ensures
        Fe::of_int(0).minus(l).times(x2.minus(x1)) == Fe::of_int(0).minus(l.times(x2.minus(x1))),
{
    let env = seq![l, x1, x2];
    let lhs = ring::c(0).minus(ring::v(0)).times(ring::v(2).minus(ring::v(1)));
    let rhs = ring::c(0).minus(ring::v(0).times(ring::v(2).minus(ring::v(1))));
    assert forall|ints: Seq<int>| ints.len() == 3 implies #[trigger] lhs.over_int(ints) == rhs.over_int(ints) by {
        reveal_with_fuel(Expr::over_int, 4);
        let (l, x1, x2) = (ints[0], ints[1], ints[2]);
        assert((0 - l) * (x2 - x1) == 0 - (l * (x2 - x1))) by (nonlinear_arith);
    }
    reveal_with_fuel(Expr::over_fe, 4);
    reveal_with_fuel(Expr::below, 4);
    ring::lemma_identity(lhs, rhs, env);
}

/// A rise mirrored.
proof fn lemma_negated_rise(y1: Fe, y2: Fe)
    requires
        y1.canonical(),
        y2.canonical(),
    ensures
        Fe::of_int(0).minus(y2).minus(Fe::of_int(0).minus(y1)) == Fe::of_int(0).minus(y2.minus(y1)),
{
    let env = seq![y1, y2];
    let lhs = ring::c(0).minus(ring::v(1)).minus(ring::c(0).minus(ring::v(0)));
    let rhs = ring::c(0).minus(ring::v(1).minus(ring::v(0)));
    assert forall|ints: Seq<int>| ints.len() == 2 implies #[trigger] lhs.over_int(ints) == rhs.over_int(ints) by {
        reveal_with_fuel(Expr::over_int, 3);
        let (y1, y2) = (ints[0], ints[1]);
        assert((0 - y2) - (0 - y1) == 0 - (y2 - y1)) by (nonlinear_arith);
    }
    reveal_with_fuel(Expr::over_fe, 3);
    reveal_with_fuel(Expr::below, 3);
    ring::lemma_identity(lhs, rhs, env);
}

/// A product of negations.
proof fn lemma_negated_product(l: Fe, s: Fe)
    requires
        l.canonical(),
        s.canonical(),
    ensures
        Fe::of_int(0).minus(l).times(Fe::of_int(0).minus(s)) == l.times(s),
{
    let env = seq![l, s];
    let lhs = ring::c(0).minus(ring::v(0)).times(ring::c(0).minus(ring::v(1)));
    let rhs = ring::v(0).times(ring::v(1));
    assert forall|ints: Seq<int>| ints.len() == 2 implies #[trigger] lhs.over_int(ints) == rhs.over_int(ints) by {
        reveal_with_fuel(Expr::over_int, 3);
        let (l, s) = (ints[0], ints[1]);
        assert((0 - l) * (0 - s) == l * s) by (nonlinear_arith);
    }
    reveal_with_fuel(Expr::over_fe, 3);
    reveal_with_fuel(Expr::below, 3);
    ring::lemma_identity(lhs, rhs, env);
}

/// The second coordinate mirrored.
proof fn lemma_negated_end(l: Fe, x1: Fe, x3: Fe, y1: Fe)
    requires
        l.canonical(),
        x1.canonical(),
        x3.canonical(),
        y1.canonical(),
    ensures
        Fe::of_int(0).minus(l).times(x1.minus(x3)).minus(Fe::of_int(0).minus(y1)) == Fe::of_int(0).minus(l.times(x1.minus(x3)).minus(y1)),
{
    let env = seq![l, x1, x3, y1];
    let lhs = ring::c(0).minus(ring::v(0)).times(ring::v(1).minus(ring::v(2))).minus(ring::c(0).minus(ring::v(3)));
    let rhs = ring::c(0).minus(ring::v(0).times(ring::v(1).minus(ring::v(2))).minus(ring::v(3)));
    assert forall|ints: Seq<int>| ints.len() == 4 implies #[trigger] lhs.over_int(ints) == rhs.over_int(ints) by {
        reveal_with_fuel(Expr::over_int, 5);
        let (l, x1, x3, y1) = (ints[0], ints[1], ints[2], ints[3]);
        assert(((0 - l) * (x1 - x3)) - (0 - y1) == 0 - ((l * (x1 - x3)) - y1)) by (nonlinear_arith);
    }
    reveal_with_fuel(Expr::over_fe, 5);
    reveal_with_fuel(Expr::below, 5);
    ring::lemma_identity(lhs, rhs, env);
}

/// A difference in the other order.
proof fn lemma_swap_rise(y1: Fe, y2: Fe)
    requires
        y1.canonical(),
        y2.canonical(),
    ensures
        y1.minus(y2) == Fe::of_int(0).minus(y2.minus(y1)),
{
    let env = seq![y1, y2];
    let lhs = ring::v(0).minus(ring::v(1));
    let rhs = ring::c(0).minus(ring::v(1).minus(ring::v(0)));
    assert forall|ints: Seq<int>| ints.len() == 2 implies #[trigger] lhs.over_int(ints) == rhs.over_int(ints) by {
        reveal_with_fuel(Expr::over_int, 3);
        let (y1, y2) = (ints[0], ints[1]);
        assert(y1 - y2 == 0 - (y2 - y1)) by (nonlinear_arith);
    }
    reveal_with_fuel(Expr::over_fe, 3);
    reveal_with_fuel(Expr::below, 3);
    ring::lemma_identity(lhs, rhs, env);
}

/// The tangent equation in the other order.
proof fn lemma_swap_squares(x1: Fe, x2: Fe, a: Fe)
    requires
        x1.canonical(),
        x2.canonical(),
        a.canonical(),
    ensures
        x2.times(x2).plus(x2.times(x1)).plus(x1.times(x1)).plus(a) == x1.times(x1).plus(x1.times(x2)).plus(x2.times(x2)).plus(a),
{
    let env = seq![x1, x2, a];
    let lhs = ring::v(1).times(ring::v(1)).plus(ring::v(1).times(ring::v(0))).plus(ring::v(0).times(ring::v(0))).plus(ring::v(2));
    let rhs = ring::v(0).times(ring::v(0)).plus(ring::v(0).times(ring::v(1))).plus(ring::v(1).times(ring::v(1))).plus(ring::v(2));
    assert forall|ints: Seq<int>| ints.len() == 3 implies #[trigger] lhs.over_int(ints) == rhs.over_int(ints) by {
        reveal_with_fuel(Expr::over_int, 5);
        let (x1, x2, a) = (ints[0], ints[1], ints[2]);
        assert((((x2 * x2) + (x2 * x1)) + (x1 * x1)) + a == (((x1 * x1) + (x1 * x2)) + (x2 * x2)) + a) by (nonlinear_arith);
    }
    reveal_with_fuel(Expr::over_fe, 5);
    reveal_with_fuel(Expr::below, 5);
    ring::lemma_identity(lhs, rhs, env);
}

/// The square of a negation.
proof fn lemma_negated_square(y: Fe)
    requires
        y.canonical(),
    ensures
        y.negated().times(y.negated()) == y.times(y),
        Fe::of_int(0).minus(y).times(Fe::of_int(0).minus(y)) == y.times(y),
{
    element::lemma_constants(y);
    lemma_negated_product(y, y);
}

/// Negation as a difference from zero.
proof fn lemma_negated(y: Fe)
    requires
        y.canonical(),
    ensures
        y.negated() == Fe::of_int(0).minus(y),
        y.negated().canonical(),
        y.plus(y.negated()) == Fe::of_int(0),
        y.negated().negated() == y,
{
    broadcast use element::group_canonical;

    element::lemma_constants(y);
    element::lemma_constants(y.negated());
    lemma_add_negated(y);
    lemma_negated_twice(y);
}

/// A sum is zero only when one summand is the negation of the other.
pub proof fn lemma_opposite(y1: Fe, y2: Fe)
    requires
        y1.canonical(),
        y2.canonical(),
        y1.plus(y2) == Fe::zero(),
    ensures
        y2 == y1.negated(),
{
    broadcast use element::group_canonical;

    element::lemma_constants(y1);
    laws::lemma_add_comm(y1, y2);
    laws::lemma_add_sub(y2, y1);
}

/// Points with the same first coordinate are equal or opposite.
proof fn lemma_same_abscissa(x: Fe, y1: Fe, y2: Fe)
    requires
        pair(x, y1, x, y2),
    ensures
        y1 == y2 || y1.plus(y2) == Fe::zero(),
{
    broadcast use element::group_canonical;

    lemma_coefficients();
    lemma_squares(y1, y2);
    laws::lemma_sub_self(y1.times(y1));
    if y1.plus(y2) != Fe::zero() {
        field::lemma_cancel(y1.plus(y2), y1, y2);
    }
}

/// Two points that are not opposite have a slope, and their sum lies on the line.
pub proof fn lemma_slope_exists(x1: Fe, y1: Fe, x2: Fe, y2: Fe) -> (l: Fe)
    requires
        pair(x1, y1, x2, y2),
        x1 != x2 || y1.plus(y2) != Fe::zero(),
    ensures
        slope(l, x1, y1, x2, y2),
        (Point::Affine { x: x1, y: y1 }).plus(Point::Affine { x: x2, y: y2 }) == chord(
            l,
            x1,
            y1,
            x2,
        ),
{
    broadcast use element::group_canonical;

    lemma_coefficients();
    if x1 != x2 {
        let d = x2.minus(x1);
        if d == Fe::zero() {
            laws::lemma_sub_zero(x2, x1);
        }
        let l = y2.minus(y1).over(d);
        field::lemma_over(y2.minus(y1), d);
        chords::lemma_second_equation(l, x1, y1, x2, y2, curve_a(), curve_b());
        l
    } else {
        lemma_same_abscissa(x1, y1, y2);
        if y1 == Fe::zero() {
            laws::lemma_add_zero(y1);
        }
        lemma_twice(y1);
        if Fe::of_int(2).times(y1) == Fe::zero() {
            crate::algebra::frobenius::lemma_no_zero_divisors(Fe::of_int(2), y1);
        }
        let num = Fe::of_int(3).times(x1.times(x1)).plus(curve_a());
        let l = num.over(Fe::of_int(2).times(y1));
        field::lemma_over(num, Fe::of_int(2).times(y1));
        laws::lemma_sub_self(x1);
        laws::lemma_sub_self(y1);
        laws::lemma_mul_zero(l);
        lemma_thrice(x1.times(x1), curve_a());
        lemma_sub_twice(l.times(l), x1);
        l
    }
}

/// Points that are not opposite have only one slope.
proof fn lemma_slope_unique(l: Fe, n: Fe, x1: Fe, y1: Fe, x2: Fe, y2: Fe)
    requires
        pair(x1, y1, x2, y2),
        x1 != x2 || y1.plus(y2) != Fe::zero(),
        slope(l, x1, y1, x2, y2),
        slope(n, x1, y1, x2, y2),
    ensures
        l == n,
{
    broadcast use element::group_canonical;

    lemma_coefficients();
    if x1 != x2 {
        let d = x2.minus(x1);
        if d == Fe::zero() {
            laws::lemma_sub_zero(x2, x1);
        }
        lemma_slope_difference(d, l, n);
        laws::lemma_sub_self(l.times(d));
        field::lemma_cancel(d, l, n);
    } else {
        let s = y1.plus(y2);
        lemma_slope_difference(s, l, n);
        laws::lemma_sub_self(l.times(s));
        field::lemma_cancel(s, l, n);
    }
}

/// The sum of two points that are not opposite, by any slope.
pub proof fn lemma_sum(l: Fe, x1: Fe, y1: Fe, x2: Fe, y2: Fe)
    requires
        pair(x1, y1, x2, y2),
        x1 != x2 || y1.plus(y2) != Fe::zero(),
        slope(l, x1, y1, x2, y2),
    ensures
        (Point::Affine { x: x1, y: y1 }).plus(Point::Affine { x: x2, y: y2 }) == chord(
            l,
            x1,
            y1,
            x2,
        ),
{
    let n = lemma_slope_exists(x1, y1, x2, y2);
    lemma_slope_unique(l, n, x1, y1, x2, y2);
}

/// The sum of opposite points.
proof fn lemma_opposite_sum(x: Fe, y1: Fe, y2: Fe)
    requires
        pair(x, y1, x, y2),
        y1.plus(y2) == Fe::zero(),
    ensures
        (Point::Affine { x, y: y1 }).plus(Point::Affine { x, y: y2 }) == Point::Infinity,
{
    broadcast use element::group_canonical;

    if y1 == y2 {
        lemma_coefficients();
        lemma_twice(y1);
        crate::algebra::frobenius::lemma_no_zero_divisors(Fe::of_int(2), y1);
    }
}

/// The slope equations in the coordinates of the second point: `x1 = x2 + m`.
pub proof fn lemma_shifted(l: Fe, x1: Fe, y1: Fe, x2: Fe, y2: Fe) -> (m: Fe)
    requires
        pair(x1, y1, x2, y2),
        slope(l, x1, y1, x2, y2),
    ensures
        m == x1.minus(x2),
        x1 == x2.plus(m),
        y1 == y2.plus(l.times(m)),
        Fe::of_int(2).times(l).times(y2).plus(l.times(l).times(m)) == Fe::of_int(3).times(x2).times(
            x2,
        ).plus(Fe::of_int(3).times(x2).times(m)).plus(m.times(m)).plus(curve_a()),
{
    broadcast use element::group_canonical;

    lemma_coefficients();
    let m = x1.minus(x2);
    laws::lemma_sub_add(x1, x2);
    laws::lemma_add_comm(m, x2);
    lemma_line_back(l, x1, x2);
    lemma_line_end(y1, y2);
    chords::lemma_shift(l, x1, y1, x2, y2, m, curve_a());
    m
}

/// The sum of two points lies on the curve.
pub proof fn lemma_chord_closed(l: Fe, x1: Fe, y1: Fe, x2: Fe, y2: Fe)
    requires
        pair(x1, y1, x2, y2),
        slope(l, x1, y1, x2, y2),
    ensures
        chord(l, x1, y1, x2).valid(),
        chord(l, x1, y1, x2) == chord(l, x2, y2, x1),
{
    broadcast use element::group_canonical;

    lemma_coefficients();
    let m = lemma_shifted(l, x1, y1, x2, y2);
    let q = l.times(l);
    let x3 = q.minus(x1).minus(x2);
    let s = x2.minus(x3);
    chords::lemma_chord_y(l, x1, y1, x2, y2, x3);
    lemma_sub_swap(q, x1, x2);
    lemma_third(q, x2, m);
    chords::lemma_closure_value(l, y2, x2, m, curve_a(), q, s);
    laws::lemma_sub_sub(x2, x3);
    chords::lemma_closure(
        l,
        y2,
        x2,
        curve_a(),
        curve_b(),
        s,
        x3,
        l.times(s).minus(y2),
        q,
    );
}

/// The sum of two points of the group is a point of the group.
pub proof fn lemma_plus_closed(p: Point, q: Point)
    requires
        p.valid(),
        q.valid(),
    ensures
        p.plus(q).valid(),
{
    match (p, q) {
        (Point::Affine { x: x1, y: y1 }, Point::Affine { x: x2, y: y2 }) => {
            if x1 == x2 && y1.plus(y2) == Fe::zero() {
                lemma_opposite_sum(x1, y1, y2);
            } else {
                let l = lemma_slope_exists(x1, y1, x2, y2);
                lemma_chord_closed(l, x1, y1, x2, y2);
            }
        },
        _ => {},
    }
}

/// Addition commutes.
pub proof fn lemma_plus_comm(p: Point, q: Point)
    requires
        p.valid(),
        q.valid(),
    ensures
        p.plus(q) == q.plus(p),
{
    broadcast use element::group_canonical;

    match (p, q) {
        (Point::Affine { x: x1, y: y1 }, Point::Affine { x: x2, y: y2 }) => {
            laws::lemma_add_comm(y1, y2);
            if x1 == x2 && y1.plus(y2) == Fe::zero() {
                lemma_opposite_sum(x1, y1, y2);
                lemma_opposite_sum(x2, y2, y1);
            } else {
                let l = lemma_slope_exists(x1, y1, x2, y2);
                lemma_chord_closed(l, x1, y1, x2, y2);
                lemma_slope_swap(l, x1, y1, x2, y2);
                lemma_sum(l, x2, y2, x1, y1);
            }
        },
        _ => {},
    }
}

/// A slope of two points is a slope of the points in the other order.
proof fn lemma_slope_swap(l: Fe, x1: Fe, y1: Fe, x2: Fe, y2: Fe)
    requires
        pair(x1, y1, x2, y2),
        slope(l, x1, y1, x2, y2),
    ensures
        slope(l, x2, y2, x1, y1),
{
    broadcast use element::group_canonical;

    lemma_coefficients();
    laws::lemma_add_comm(y1, y2);
    lemma_line_back(l, x1, x2);
    lemma_swap_rise(y1, y2);
    lemma_swap_squares(x1, x2, curve_a());
}

/// Doubling is addition of a point to itself.
pub proof fn lemma_doubled(p: Point)
    ensures
        p.plus(p) == p.doubled(),
{
}

/// The negation of a point of the group is a point of the group, and their sum is infinity.
pub proof fn lemma_negation(p: Point)
    requires
        p.valid(),
    ensures
        p.negated().valid(),
        p.negated().negated() == p,
        p.plus(p.negated()) == Point::Infinity,
        p.negated().plus(p) == Point::Infinity,
{
    broadcast use element::group_canonical;

    match p {
        Point::Affine { x, y } => {
            lemma_negated(y);
            lemma_coefficients();
            lemma_negated_square(y);
            lemma_opposite_sum(x, y, y.negated());
            lemma_plus_comm(p, p.negated());
        },
        _ => {},
    }
}

/// No point of the curve is singular: the sum of two affine points is not one of them.
proof fn lemma_sum_differs(l: Fe, x1: Fe, y1: Fe, x2: Fe, y2: Fe)
    requires
        pair(x1, y1, x2, y2),
        slope(l, x1, y1, x2, y2),
    ensures
        chord(l, x1, y1, x2) != (Point::Affine { x: x2, y: y2 }),
{
    broadcast use element::group_canonical;

    if chord(l, x1, y1, x2) == (Point::Affine { x: x2, y: y2 }) {
        lemma_coefficients();
        let m = lemma_shifted(l, x1, y1, x2, y2);
        let q = l.times(l);
        let x3 = q.minus(x1).minus(x2);
        chords::lemma_chord_y(l, x1, y1, x2, y2, x3);
        // the second coordinate is its own negation
        laws::lemma_sub_self(x2);
        laws::lemma_mul_zero(l);
        laws::lemma_sub_add(Fe::of_int(0), y2);
        lemma_twice(y2);
        crate::algebra::frobenius::lemma_no_zero_divisors(Fe::of_int(2), y2);
        // the tangent is horizontal
        lemma_third(q, x2, m);
        laws::lemma_sub_zero_right(Fe::of_int(3).times(x2).plus(m));
        chords::lemma_singular_point(q, x2, m, y2, l, curve_a());
        // and the constant coefficient would be a square root of an integer
        laws::lemma_mul_zero(y2);
        chords::lemma_singular(x2, curve_b());
        assert(curve_b().times(curve_b()) == literal::fe(0, 0, 0, 0, 0, 0, 1681)) by {
            literal::lemma_product(
                0, 0, 0, 41, 0, 0, 0,
                0, 0, 0, 41, 0, 0, 0,
                0, 0, 0, 0, 0, 0, 1681,
                0, 0, 0, 0, 0, 0, 0,
            );
        }
        reveal(Fe::of_int);
        reveal(Fe::minus);
        assert(false);
    }
}

/// Adding a point and its negation changes nothing.
pub proof fn lemma_plus_minus(p: Point, q: Point)
    requires
        p.valid(),
        q.valid(),
    ensures
        p.plus(q).plus(q.negated()) == p,
{
    broadcast use element::group_canonical;

    lemma_negation(p);
    lemma_negation(q);
    match (p, q) {
        (Point::Affine { x: x1, y: y1 }, Point::Affine { x: x2, y: y2 }) => {
            if x1 == x2 && y1.plus(y2) == Fe::zero() {
                lemma_opposite_sum(x1, y1, y2);
                lemma_opposite(y1, y2);
            } else {
                let l = lemma_slope_exists(x1, y1, x2, y2);
                lemma_chord_closed(l, x1, y1, x2, y2);
                lemma_sum_differs(l, x1, y1, x2, y2);
                lemma_return(l, x1, y1, x2, y2);
            }
        },
        _ => {},
    }
}

/// The line back from the sum through the negated second point.
proof fn lemma_return(l: Fe, x1: Fe, y1: Fe, x2: Fe, y2: Fe)
    requires
        pair(x1, y1, x2, y2),
        slope(l, x1, y1, x2, y2),
        chord(l, x1, y1, x2) != (Point::Affine { x: x2, y: y2 }),
        chord(l, x1, y1, x2).valid(),
        chord(l, x1, y1, x2) == chord(l, x2, y2, x1),
        (Point::Affine { x: x2, y: y2 }).negated().valid(),
    ensures
        chord(l, x1, y1, x2).plus((Point::Affine { x: x2, y: y2 }).negated()) == (Point::Affine {
            x: x1,
            y: y1,
        }),
{
    broadcast use element::group_canonical;

    lemma_coefficients();
    let a = curve_a();
    let q = l.times(l);
    let x3 = q.minus(x1).minus(x2);
    let y3 = l.times(x2.minus(x3)).minus(y2);
    let n = y2.negated();
    let k = Fe::of_int(0).minus(l);
    lemma_negated(y2);
    let m = lemma_shifted(l, x1, y1, x2, y2);
    let s = x2.minus(x3);
    lemma_third(q, x2, m);
    chords::lemma_closure_value(l, y2, x2, m, a, q, s);
    laws::lemma_sub_sub(x2, x3);
    chords::lemma_back(l, y2, x2, a, x3, y3, q);
    lemma_back_line(l, x2, x3, y2);
    assert(slope(k, x3, y3, x2, n));
    if x3 == x2 && y3.plus(n) == Fe::zero() {
        laws::lemma_add_comm(y3, n);
        lemma_opposite(n, y3);
    }
    lemma_sum(k, x3, y3, x2, n);
    lemma_back_x(l, x1, x2);
    lemma_back_y(l, x1, y1, x3);
}

/// Negation distributes over addition.
pub proof fn lemma_negated_sum(p: Point, q: Point)
    requires
        p.valid(),
        q.valid(),
    ensures
        p.plus(q).negated() == p.negated().plus(q.negated()),
{
    broadcast use element::group_canonical;

    lemma_negation(p);
    lemma_negation(q);
    match (p, q) {
        (Point::Affine { x: x1, y: y1 }, Point::Affine { x: x2, y: y2 }) => {
            lemma_negated(y1);
            lemma_negated(y2);
            lemma_coefficients();
            lemma_negated_pair(y1, y2);
            if x1 == x2 && y1.plus(y2) == Fe::zero() {
                lemma_opposite_sum(x1, y1, y2);
                lemma_negated(Fe::zero());
                laws::lemma_sub_self(Fe::zero());
                lemma_opposite_sum(x1, y1.negated(), y2.negated());
            } else {
                if y1.negated().plus(y2.negated()) == Fe::zero() {
                    laws::lemma_sub_zero(Fe::of_int(0), y1.plus(y2));
                }
                let l = lemma_slope_exists(x1, y1, x2, y2);
                let k = Fe::of_int(0).minus(l);
                lemma_negated_line(l, x1, x2);
                lemma_negated_rise(y1, y2);
                lemma_negated_product(l, y1.plus(y2));
                assert(slope(k, x1, y1.negated(), x2, y2.negated()));
                lemma_sum(k, x1, y1.negated(), x2, y2.negated());
                lemma_negated_square(l);
                element::lemma_constants(l);
                let x3 = l.times(l).minus(x1).minus(x2);
                lemma_negated_end(l, x1, x3, y1);
                lemma_negated(l.times(x1.minus(x3)).minus(y1));
            }
        },
        _ => {},
    }
}

} // verus!
