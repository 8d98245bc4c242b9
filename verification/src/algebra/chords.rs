//! Polynomial identities behind the addition on the curve.
//!
//! Three points are written `P = (e + m, w + l m)`, `Q = (e, w)` and `R = (e + t, w + n t)`:
//! `l` is the slope of the line through `P` and `Q`, and `n` the slope of the line through `Q`
//! and `R`.  `a` and `b` are the coefficients of the curve.
use crate::algebra::element;
use crate::algebra::element::Fe;
use crate::algebra::field;
use crate::algebra::laws;
use crate::algebra::ring;
use crate::algebra::ring::Expr;
use vstd::prelude::*;

verus! {

/// The gap, with the difference of the slopes divided out.
pub proof fn lemma_gap_quotient(l: Fe, n: Fe, m: Fe, t: Fe, g: Fe, u: Fe, d: Fe)
    requires
        l.canonical(),
        n.canonical(),
        m.canonical(),
        t.canonical(),
        g.canonical(),
        u.canonical(),
        d.canonical(),
        u.times(l.minus(n)) == t.minus(m).times(g),
        d.times(l.minus(n)) == m.minus(t),
        l.minus(n) != Fe::of_int(0),
    ensures
        u == Fe::of_int(0).minus(d.times(g)),
{
    broadcast use element::group_canonical;

    let env = seq![l, n, m, t, g, u, d];
    let lhs = ring::v(0).minus(ring::v(1)).times(ring::v(5).minus(ring::c(0).minus(ring::v(6).times(ring::v(4)))));
    let rhs = ring::c(1).times(ring::v(5).times(ring::v(0).minus(ring::v(1))).minus(ring::v(3).minus(ring::v(2)).times(ring::v(4)))).plus(ring::v(4).times(ring::v(6).times(ring::v(0).minus(ring::v(1))).minus(ring::v(2).minus(ring::v(3)))));
    assert forall|ints: Seq<int>| ints.len() == 7 implies #[trigger] lhs.over_int(ints) == rhs.over_int(ints) by {
        reveal_with_fuel(Expr::over_int, 6);
        let (l, n, m, t, g, u, d) = (ints[0], ints[1], ints[2], ints[3], ints[4], ints[5], ints[6]);
        assert((l - n) * (u - (0 - (d * g))) == (1 * ((u * (l - n)) - ((t - m) * g))) + (g * ((d * (l - n)) - (m - t)))) by (nonlinear_arith);
    }
    reveal_with_fuel(Expr::over_fe, 6);
    reveal_with_fuel(Expr::below, 6);
    ring::lemma_identity(lhs, rhs, env);
    laws::lemma_sub_self(u.times(l.minus(n)));
    laws::lemma_sub_self(d.times(l.minus(n)));
    assert(l.minus(n).times(u.minus(Fe::of_int(0).minus(d.times(g)))) == Fe::of_int(1).times(Fe::of_int(0)).plus(g.times(Fe::of_int(0))));
    laws::lemma_mul_zero(Fe::of_int(1));
    laws::lemma_mul_zero(g);
    laws::lemma_add_zero(Fe::of_int(0));
    field::lemma_cancel(l.minus(n), u, Fe::of_int(0).minus(d.times(g)));
}

/// The rise from `P + Q` to `R`.
pub proof fn lemma_rise(l: Fe, n: Fe, e: Fe, t: Fe, w: Fe, g: Fe, u: Fe, x: Fe, z: Fe)
    requires
        l.canonical(),
        n.canonical(),
        e.canonical(),
        t.canonical(),
        w.canonical(),
        g.canonical(),
        u.canonical(),
        x.canonical(),
        z.canonical(),
        u == t.times(l.plus(n)).plus(Fe::of_int(2).times(w)),
        x == e.plus(t).plus(g),
        z == l.times(e.minus(x)).minus(w),
    ensures
        w.plus(n.times(t)).minus(z) == u.plus(l.times(g)),
{
    broadcast use element::group_canonical;

    let env = seq![l, n, e, t, w, g, u, x, z];
    let lhs = ring::v(4).plus(ring::v(1).times(ring::v(3))).minus(ring::v(8)).minus(ring::v(6).plus(ring::v(0).times(ring::v(5))));
    let rhs = ring::c(0).minus(ring::c(1)).times(ring::v(6).minus(ring::v(3).times(ring::v(0).plus(ring::v(1))).plus(ring::c(2).times(ring::v(4))))).plus(ring::v(0).times(ring::v(7).minus(ring::v(2).plus(ring::v(3)).plus(ring::v(5))))).plus(ring::c(0).minus(ring::c(1)).times(ring::v(8).minus(ring::v(0).times(ring::v(2).minus(ring::v(7))).minus(ring::v(4)))));
    assert forall|ints: Seq<int>| ints.len() == 9 implies #[trigger] lhs.over_int(ints) == rhs.over_int(ints) by {
        reveal_with_fuel(Expr::over_int, 8);
        let (l, n, e, t, w, g, u, x, z) = (ints[0], ints[1], ints[2], ints[3], ints[4], ints[5], ints[6], ints[7], ints[8]);
        assert(((w + (n * t)) - z) - (u + (l * g)) == (((0 - 1) * (u - ((t * (l + n)) + (2 * w)))) + (l * (x - ((e + t) + g)))) + ((0 - 1) * (z - ((l * (e - x)) - w)))) by (nonlinear_arith);
    }
    reveal_with_fuel(Expr::over_fe, 8);
    reveal_with_fuel(Expr::below, 8);
    ring::lemma_identity(lhs, rhs, env);
    laws::lemma_sub_self(u);
    laws::lemma_sub_self(x);
    laws::lemma_sub_self(z);
    assert(w.plus(n.times(t)).minus(z).minus(u.plus(l.times(g))) == Fe::of_int(0).minus(Fe::of_int(1)).times(Fe::of_int(0)).plus(l.times(Fe::of_int(0))).plus(Fe::of_int(0).minus(Fe::of_int(1)).times(Fe::of_int(0))));
    laws::lemma_mul_zero(Fe::of_int(0).minus(Fe::of_int(1)));
    laws::lemma_mul_zero(l);
    laws::lemma_mul_zero(Fe::of_int(0).minus(Fe::of_int(1)));
    laws::lemma_add_zero(Fe::of_int(0));
    laws::lemma_sub_zero(w.plus(n.times(t)).minus(z), u.plus(l.times(g)));
}

/// The line through `P + Q` and `R` has slope `d - l`.
pub proof fn lemma_line(l: Fe, d: Fe, e: Fe, t: Fe, g: Fe, u: Fe, x: Fe, r: Fe)
    requires
        l.canonical(),
        d.canonical(),
        e.canonical(),
        t.canonical(),
        g.canonical(),
        u.canonical(),
        x.canonical(),
        r.canonical(),
        u == Fe::of_int(0).minus(d.times(g)),
        x == e.plus(t).plus(g),
        r == u.plus(l.times(g)),
    ensures
        d.minus(l).times(e.plus(t).minus(x)) == r,
{
    broadcast use element::group_canonical;

    let env = seq![l, d, e, t, g, u, x, r];
    let lhs = ring::v(1).minus(ring::v(0)).times(ring::v(2).plus(ring::v(3)).minus(ring::v(6))).minus(ring::v(7));
    let rhs = ring::c(0).minus(ring::c(1)).times(ring::v(5).minus(ring::c(0).minus(ring::v(1).times(ring::v(4))))).plus(ring::v(0).minus(ring::v(1)).times(ring::v(6).minus(ring::v(2).plus(ring::v(3)).plus(ring::v(4))))).plus(ring::c(0).minus(ring::c(1)).times(ring::v(7).minus(ring::v(5).plus(ring::v(0).times(ring::v(4))))));
    assert forall|ints: Seq<int>| ints.len() == 8 implies #[trigger] lhs.over_int(ints) == rhs.over_int(ints) by {
        reveal_with_fuel(Expr::over_int, 7);
        let (l, d, e, t, g, u, x, r) = (ints[0], ints[1], ints[2], ints[3], ints[4], ints[5], ints[6], ints[7]);
        assert(((d - l) * ((e + t) - x)) - r == (((0 - 1) * (u - (0 - (d * g)))) + ((l - d) * (x - ((e + t) + g)))) + ((0 - 1) * (r - (u + (l * g))))) by (nonlinear_arith);
    }
    reveal_with_fuel(Expr::over_fe, 7);
    reveal_with_fuel(Expr::below, 7);
    ring::lemma_identity(lhs, rhs, env);
    laws::lemma_sub_self(u);
    laws::lemma_sub_self(x);
    laws::lemma_sub_self(r);
    assert(d.minus(l).times(e.plus(t).minus(x)).minus(r) == Fe::of_int(0).minus(Fe::of_int(1)).times(Fe::of_int(0)).plus(l.minus(d).times(Fe::of_int(0))).plus(Fe::of_int(0).minus(Fe::of_int(1)).times(Fe::of_int(0))));
    laws::lemma_mul_zero(Fe::of_int(0).minus(Fe::of_int(1)));
    laws::lemma_mul_zero(l.minus(d));
    laws::lemma_mul_zero(Fe::of_int(0).minus(Fe::of_int(1)));
    laws::lemma_add_zero(Fe::of_int(0));
    laws::lemma_sub_zero(d.minus(l).times(e.plus(t).minus(x)), r);
}

/// The sum of the second coordinates of `P + Q` and `R`.
pub proof fn lemma_coordinate_sum(l: Fe, n: Fe, e: Fe, t: Fe, w: Fe, g: Fe, x: Fe, z: Fe)
    requires
        l.canonical(),
        n.canonical(),
        e.canonical(),
        t.canonical(),
        w.canonical(),
        g.canonical(),
        x.canonical(),
        z.canonical(),
        x == e.plus(t).plus(g),
        z == l.times(e.minus(x)).minus(w),
    ensures
        z.plus(w.plus(n.times(t))) == Fe::of_int(0).minus(l.times(g)).minus(l.minus(n).times(t)),
{
    broadcast use element::group_canonical;

    let env = seq![l, n, e, t, w, g, x, z];
    let lhs = ring::v(7).plus(ring::v(4).plus(ring::v(1).times(ring::v(3)))).minus(ring::c(0).minus(ring::v(0).times(ring::v(5))).minus(ring::v(0).minus(ring::v(1)).times(ring::v(3))));
    let rhs = ring::c(0).minus(ring::v(0)).times(ring::v(6).minus(ring::v(2).plus(ring::v(3)).plus(ring::v(5)))).plus(ring::c(1).times(ring::v(7).minus(ring::v(0).times(ring::v(2).minus(ring::v(6))).minus(ring::v(4)))));
    assert forall|ints: Seq<int>| ints.len() == 8 implies #[trigger] lhs.over_int(ints) == rhs.over_int(ints) by {
        reveal_with_fuel(Expr::over_int, 7);
        let (l, n, e, t, w, g, x, z) = (ints[0], ints[1], ints[2], ints[3], ints[4], ints[5], ints[6], ints[7]);
        assert((z + (w + (n * t))) - ((0 - (l * g)) - ((l - n) * t)) == ((0 - l) * (x - ((e + t) + g))) + (1 * (z - ((l * (e - x)) - w)))) by (nonlinear_arith);
    }
    reveal_with_fuel(Expr::over_fe, 7);
    reveal_with_fuel(Expr::below, 7);
    ring::lemma_identity(lhs, rhs, env);
    laws::lemma_sub_self(x);
    laws::lemma_sub_self(z);
    assert(z.plus(w.plus(n.times(t))).minus(Fe::of_int(0).minus(l.times(g)).minus(l.minus(n).times(t))) == Fe::of_int(0).minus(l).times(Fe::of_int(0)).plus(Fe::of_int(1).times(Fe::of_int(0))));
    laws::lemma_mul_zero(Fe::of_int(0).minus(l));
    laws::lemma_mul_zero(Fe::of_int(1));
    laws::lemma_add_zero(Fe::of_int(0));
    laws::lemma_sub_zero(z.plus(w.plus(n.times(t))), Fe::of_int(0).minus(l.times(g)).minus(l.minus(n).times(t)));
}

/// The other side of a tangent equation, by the gap.
pub proof fn lemma_tangent_form(g: Fe, x: Fe, p: Fe, a: Fe)
    requires
        g.canonical(),
        x.canonical(),
        p.canonical(),
        a.canonical(),
        x == p.plus(g),
    ensures
        x.times(x).plus(x.times(p)).plus(p.times(p)).plus(a) == g.times(g).plus(Fe::of_int(3).times(p).times(g)).plus(Fe::of_int(3).times(p).times(p)).plus(a),
{
    broadcast use element::group_canonical;

    let env = seq![g, x, p, a];
    let lhs = ring::v(1).times(ring::v(1)).plus(ring::v(1).times(ring::v(2))).plus(ring::v(2).times(ring::v(2))).plus(ring::v(3)).minus(ring::v(0).times(ring::v(0)).plus(ring::c(3).times(ring::v(2)).times(ring::v(0))).plus(ring::c(3).times(ring::v(2)).times(ring::v(2))).plus(ring::v(3)));
    let rhs = ring::v(1).plus(ring::v(2)).plus(ring::v(0)).plus(ring::v(2)).times(ring::v(1).minus(ring::v(2).plus(ring::v(0))));
    assert forall|ints: Seq<int>| ints.len() == 4 implies #[trigger] lhs.over_int(ints) == rhs.over_int(ints) by {
        reveal_with_fuel(Expr::over_int, 7);
        let (g, x, p, a) = (ints[0], ints[1], ints[2], ints[3]);
        assert(((((x * x) + (x * p)) + (p * p)) + a) - ((((g * g) + ((3 * p) * g)) + ((3 * p) * p)) + a) == (((x + p) + g) + p) * (x - (p + g))) by (nonlinear_arith);
    }
    reveal_with_fuel(Expr::over_fe, 7);
    reveal_with_fuel(Expr::below, 7);
    ring::lemma_identity(lhs, rhs, env);
    laws::lemma_sub_self(x);
    assert(x.times(x).plus(x.times(p)).plus(p.times(p)).plus(a).minus(g.times(g).plus(Fe::of_int(3).times(p).times(g)).plus(Fe::of_int(3).times(p).times(p)).plus(a)) == x.plus(p).plus(g).plus(p).times(Fe::of_int(0)));
    laws::lemma_mul_zero(x.plus(p).plus(g).plus(p));
    laws::lemma_sub_zero(x.times(x).plus(x.times(p)).plus(p.times(p)).plus(a), g.times(g).plus(Fe::of_int(3).times(p).times(g)).plus(Fe::of_int(3).times(p).times(p)).plus(a));
}

/// The first coordinate of `P + Q`, by the gap.
pub proof fn lemma_sum_x(q: Fe, x: Fe, e: Fe, m: Fe, t: Fe, g: Fe)
    requires
        q.canonical(),
        x.canonical(),
        e.canonical(),
        m.canonical(),
        t.canonical(),
        g.canonical(),
        x == q.minus(e.plus(m)).minus(e),
        g == q.minus(Fe::of_int(3).times(e).plus(m).plus(t)),
    ensures
        x == e.plus(t).plus(g),
{
    broadcast use element::group_canonical;

    let env = seq![q, x, e, m, t, g];
    let lhs = ring::v(1).minus(ring::v(2).plus(ring::v(4)).plus(ring::v(5)));
    let rhs = ring::c(1).times(ring::v(1).minus(ring::v(0).minus(ring::v(2).plus(ring::v(3))).minus(ring::v(2)))).plus(ring::c(0).minus(ring::c(1)).times(ring::v(5).minus(ring::v(0).minus(ring::c(3).times(ring::v(2)).plus(ring::v(3)).plus(ring::v(4))))));
    assert forall|ints: Seq<int>| ints.len() == 6 implies #[trigger] lhs.over_int(ints) == rhs.over_int(ints) by {
        reveal_with_fuel(Expr::over_int, 8);
        let (q, x, e, m, t, g) = (ints[0], ints[1], ints[2], ints[3], ints[4], ints[5]);
        assert(x - ((e + t) + g) == (1 * (x - ((q - (e + m)) - e))) + ((0 - 1) * (g - (q - (((3 * e) + m) + t))))) by (nonlinear_arith);
    }
    reveal_with_fuel(Expr::over_fe, 8);
    reveal_with_fuel(Expr::below, 8);
    ring::lemma_identity(lhs, rhs, env);
    laws::lemma_sub_self(x);
    laws::lemma_sub_self(g);
    assert(x.minus(e.plus(t).plus(g)) == Fe::of_int(1).times(Fe::of_int(0)).plus(Fe::of_int(0).minus(Fe::of_int(1)).times(Fe::of_int(0))));
    laws::lemma_mul_zero(Fe::of_int(1));
    laws::lemma_mul_zero(Fe::of_int(0).minus(Fe::of_int(1)));
    laws::lemma_add_zero(Fe::of_int(0));
    laws::lemma_sub_zero(x, e.plus(t).plus(g));
}

/// Both sums have the same first coordinate.
pub proof fn lemma_same_x(d: Fe, l: Fe, n: Fe, p: Fe, e: Fe, r: Fe, x: Fe, z: Fe, q: Fe, s: Fe)
    requires
        d.canonical(),
        l.canonical(),
        n.canonical(),
        p.canonical(),
        e.canonical(),
        r.canonical(),
        x.canonical(),
        z.canonical(),
        q.canonical(),
        s.canonical(),
        d.times(l.minus(n)) == p.minus(r),
        x == q.minus(p).minus(e),
        z == s.minus(r).minus(e),
        q == l.times(l),
        s == n.times(n),
    ensures
        d.minus(l).times(d.minus(l)).minus(x).minus(r) == d.minus(n).times(d.minus(n)).minus(z).minus(p),
{
    broadcast use element::group_canonical;

    let env = seq![d, l, n, p, e, r, x, z, q, s];
    let lhs = ring::v(0).minus(ring::v(1)).times(ring::v(0).minus(ring::v(1))).minus(ring::v(6)).minus(ring::v(5)).minus(ring::v(0).minus(ring::v(2)).times(ring::v(0).minus(ring::v(2))).minus(ring::v(7)).minus(ring::v(3)));
    let rhs = ring::c(0).minus(ring::c(2)).times(ring::v(0).times(ring::v(1).minus(ring::v(2))).minus(ring::v(3).minus(ring::v(5)))).plus(ring::c(0).minus(ring::c(1)).times(ring::v(6).minus(ring::v(8).minus(ring::v(3)).minus(ring::v(4))))).plus(ring::c(1).times(ring::v(7).minus(ring::v(9).minus(ring::v(5)).minus(ring::v(4))))).plus(ring::c(0).minus(ring::c(1)).times(ring::v(8).minus(ring::v(1).times(ring::v(1))))).plus(ring::c(1).times(ring::v(9).minus(ring::v(2).times(ring::v(2)))));
    assert forall|ints: Seq<int>| ints.len() == 10 implies #[trigger] lhs.over_int(ints) == rhs.over_int(ints) by {
        reveal_with_fuel(Expr::over_int, 9);
        let (d, l, n, p, e, r, x, z, q, s) = (ints[0], ints[1], ints[2], ints[3], ints[4], ints[5], ints[6], ints[7], ints[8], ints[9]);
        assert(((((d - l) * (d - l)) - x) - r) - ((((d - n) * (d - n)) - z) - p) == (((((0 - 2) * ((d * (l - n)) - (p - r))) + ((0 - 1) * (x - ((q - p) - e)))) + (1 * (z - ((s - r) - e)))) + ((0 - 1) * (q - (l * l)))) + (1 * (s - (n * n)))) by (nonlinear_arith);
    }
    reveal_with_fuel(Expr::over_fe, 9);
    reveal_with_fuel(Expr::below, 9);
    ring::lemma_identity(lhs, rhs, env);
    laws::lemma_sub_self(d.times(l.minus(n)));
    laws::lemma_sub_self(x);
    laws::lemma_sub_self(z);
    laws::lemma_sub_self(q);
    laws::lemma_sub_self(s);
    assert(d.minus(l).times(d.minus(l)).minus(x).minus(r).minus(d.minus(n).times(d.minus(n)).minus(z).minus(p)) == Fe::of_int(0).minus(Fe::of_int(2)).times(Fe::of_int(0)).plus(Fe::of_int(0).minus(Fe::of_int(1)).times(Fe::of_int(0))).plus(Fe::of_int(1).times(Fe::of_int(0))).plus(Fe::of_int(0).minus(Fe::of_int(1)).times(Fe::of_int(0))).plus(Fe::of_int(1).times(Fe::of_int(0))));
    laws::lemma_mul_zero(Fe::of_int(0).minus(Fe::of_int(2)));
    laws::lemma_mul_zero(Fe::of_int(0).minus(Fe::of_int(1)));
    laws::lemma_mul_zero(Fe::of_int(1));
    laws::lemma_mul_zero(Fe::of_int(0).minus(Fe::of_int(1)));
    laws::lemma_mul_zero(Fe::of_int(1));
    laws::lemma_add_zero(Fe::of_int(0));
    laws::lemma_sub_zero(d.minus(l).times(d.minus(l)).minus(x).minus(r), d.minus(n).times(d.minus(n)).minus(z).minus(p));
}

/// That coordinate, by the slopes.
pub proof fn lemma_same_x_value(d: Fe, l: Fe, n: Fe, e: Fe, m: Fe, t: Fe, x: Fe, q: Fe)
    requires
        d.canonical(),
        l.canonical(),
        n.canonical(),
        e.canonical(),
        m.canonical(),
        t.canonical(),
        x.canonical(),
        q.canonical(),
        d.times(l.minus(n)) == m.minus(t),
        x == q.minus(e.plus(m)).minus(e),
        q == l.times(l),
    ensures
        d.minus(l).times(d.minus(l)).minus(x).minus(e.plus(t)) == d.times(d).minus(Fe::of_int(2).times(d).times(l)).plus(e).plus(m).minus(t),
{
    broadcast use element::group_canonical;

    let env = seq![d, l, n, e, m, t, x, q];
    let lhs = ring::v(0).minus(ring::v(1)).times(ring::v(0).minus(ring::v(1))).minus(ring::v(6)).minus(ring::v(3).plus(ring::v(5))).minus(ring::v(0).times(ring::v(0)).minus(ring::c(2).times(ring::v(0)).times(ring::v(1))).plus(ring::v(3)).plus(ring::v(4)).minus(ring::v(5)));
    let rhs = ring::c(0).times(ring::v(0).times(ring::v(1).minus(ring::v(2))).minus(ring::v(4).minus(ring::v(5)))).plus(ring::c(0).minus(ring::c(1)).times(ring::v(6).minus(ring::v(7).minus(ring::v(3).plus(ring::v(4))).minus(ring::v(3))))).plus(ring::c(0).minus(ring::c(1)).times(ring::v(7).minus(ring::v(1).times(ring::v(1)))));
    assert forall|ints: Seq<int>| ints.len() == 8 implies #[trigger] lhs.over_int(ints) == rhs.over_int(ints) by {
        reveal_with_fuel(Expr::over_int, 8);
        let (d, l, n, e, m, t, x, q) = (ints[0], ints[1], ints[2], ints[3], ints[4], ints[5], ints[6], ints[7]);
        assert(((((d - l) * (d - l)) - x) - (e + t)) - (((((d * d) - ((2 * d) * l)) + e) + m) - t) == ((0 * ((d * (l - n)) - (m - t))) + ((0 - 1) * (x - ((q - (e + m)) - e)))) + ((0 - 1) * (q - (l * l)))) by (nonlinear_arith);
    }
    reveal_with_fuel(Expr::over_fe, 8);
    reveal_with_fuel(Expr::below, 8);
    ring::lemma_identity(lhs, rhs, env);
    laws::lemma_sub_self(d.times(l.minus(n)));
    laws::lemma_sub_self(x);
    laws::lemma_sub_self(q);
    assert(d.minus(l).times(d.minus(l)).minus(x).minus(e.plus(t)).minus(d.times(d).minus(Fe::of_int(2).times(d).times(l)).plus(e).plus(m).minus(t)) == Fe::of_int(0).times(Fe::of_int(0)).plus(Fe::of_int(0).minus(Fe::of_int(1)).times(Fe::of_int(0))).plus(Fe::of_int(0).minus(Fe::of_int(1)).times(Fe::of_int(0))));
    laws::lemma_mul_zero(Fe::of_int(0));
    laws::lemma_mul_zero(Fe::of_int(0).minus(Fe::of_int(1)));
    laws::lemma_mul_zero(Fe::of_int(0).minus(Fe::of_int(1)));
    laws::lemma_add_zero(Fe::of_int(0));
    laws::lemma_sub_zero(d.minus(l).times(d.minus(l)).minus(x).minus(e.plus(t)), d.times(d).minus(Fe::of_int(2).times(d).times(l)).plus(e).plus(m).minus(t));
}

/// The tangent equation at the third point of a line.
pub proof fn lemma_closure_value(l: Fe, w: Fe, e: Fe, m: Fe, a: Fe, q: Fe, s: Fe)
    requires
        l.canonical(),
        w.canonical(),
        e.canonical(),
        m.canonical(),
        a.canonical(),
        q.canonical(),
        s.canonical(),
        Fe::of_int(2).times(l).times(w).plus(q.times(m)) == Fe::of_int(3).times(e).times(e).plus(Fe::of_int(3).times(e).times(m)).plus(m.times(m)).plus(a),
        q == Fe::of_int(3).times(e).plus(m).minus(s),
    ensures
        q.times(s).plus(e.minus(s).times(e.minus(s))).plus(e.minus(s).times(e)).plus(e.times(e)).plus(a) == Fe::of_int(2).times(l).times(w),
{
    broadcast use element::group_canonical;

    let env = seq![l, w, e, m, a, q, s];
    let lhs = ring::v(5).times(ring::v(6)).plus(ring::v(2).minus(ring::v(6)).times(ring::v(2).minus(ring::v(6)))).plus(ring::v(2).minus(ring::v(6)).times(ring::v(2))).plus(ring::v(2).times(ring::v(2))).plus(ring::v(4)).minus(ring::c(2).times(ring::v(0)).times(ring::v(1)));
    let rhs = ring::c(0).minus(ring::c(1)).times(ring::c(2).times(ring::v(0)).times(ring::v(1)).plus(ring::v(5).times(ring::v(3))).minus(ring::c(3).times(ring::v(2)).times(ring::v(2)).plus(ring::c(3).times(ring::v(2)).times(ring::v(3))).plus(ring::v(3).times(ring::v(3))).plus(ring::v(4)))).plus(ring::v(6).plus(ring::v(3)).times(ring::v(5).minus(ring::c(3).times(ring::v(2)).plus(ring::v(3)).minus(ring::v(6)))));
    assert forall|ints: Seq<int>| ints.len() == 7 implies #[trigger] lhs.over_int(ints) == rhs.over_int(ints) by {
        reveal_with_fuel(Expr::over_int, 9);
        let (l, w, e, m, a, q, s) = (ints[0], ints[1], ints[2], ints[3], ints[4], ints[5], ints[6]);
        assert((((((q * s) + ((e - s) * (e - s))) + ((e - s) * e)) + (e * e)) + a) - ((2 * l) * w) == ((0 - 1) * ((((2 * l) * w) + (q * m)) - (((((3 * e) * e) + ((3 * e) * m)) + (m * m)) + a))) + ((s + m) * (q - (((3 * e) + m) - s)))) by (nonlinear_arith);
    }
    reveal_with_fuel(Expr::over_fe, 9);
    reveal_with_fuel(Expr::below, 9);
    ring::lemma_identity(lhs, rhs, env);
    laws::lemma_sub_self(Fe::of_int(2).times(l).times(w).plus(q.times(m)));
    laws::lemma_sub_self(q);
    assert(q.times(s).plus(e.minus(s).times(e.minus(s))).plus(e.minus(s).times(e)).plus(e.times(e)).plus(a).minus(Fe::of_int(2).times(l).times(w)) == Fe::of_int(0).minus(Fe::of_int(1)).times(Fe::of_int(0)).plus(s.plus(m).times(Fe::of_int(0))));
    laws::lemma_mul_zero(Fe::of_int(0).minus(Fe::of_int(1)));
    laws::lemma_mul_zero(s.plus(m));
    laws::lemma_add_zero(Fe::of_int(0));
    laws::lemma_sub_zero(q.times(s).plus(e.minus(s).times(e.minus(s))).plus(e.minus(s).times(e)).plus(e.times(e)).plus(a), Fe::of_int(2).times(l).times(w));
}

/// Either point of a chord gives the second coordinate of the sum.
pub proof fn lemma_chord_y(l: Fe, p: Fe, y: Fe, e: Fe, w: Fe, x: Fe)
    requires
        l.canonical(),
        p.canonical(),
        y.canonical(),
        e.canonical(),
        w.canonical(),
        x.canonical(),
        l.times(e.minus(p)) == w.minus(y),
    ensures
        l.times(p.minus(x)).minus(y) == l.times(e.minus(x)).minus(w),
{
    broadcast use element::group_canonical;

    let env = seq![l, p, y, e, w, x];
    let lhs = ring::v(0).times(ring::v(1).minus(ring::v(5))).minus(ring::v(2)).minus(ring::v(0).times(ring::v(3).minus(ring::v(5))).minus(ring::v(4)));
    let rhs = ring::c(0).minus(ring::c(1)).times(ring::v(0).times(ring::v(3).minus(ring::v(1))).minus(ring::v(4).minus(ring::v(2))));
    assert forall|ints: Seq<int>| ints.len() == 6 implies #[trigger] lhs.over_int(ints) == rhs.over_int(ints) by {
        reveal_with_fuel(Expr::over_int, 5);
        let (l, p, y, e, w, x) = (ints[0], ints[1], ints[2], ints[3], ints[4], ints[5]);
        assert(((l * (p - x)) - y) - ((l * (e - x)) - w) == (0 - 1) * ((l * (e - p)) - (w - y))) by (nonlinear_arith);
    }
    reveal_with_fuel(Expr::over_fe, 5);
    reveal_with_fuel(Expr::below, 5);
    ring::lemma_identity(lhs, rhs, env);
    laws::lemma_sub_self(l.times(e.minus(p)));
    assert(l.times(p.minus(x)).minus(y).minus(l.times(e.minus(x)).minus(w)) == Fe::of_int(0).minus(Fe::of_int(1)).times(Fe::of_int(0)));
    laws::lemma_mul_zero(Fe::of_int(0).minus(Fe::of_int(1)));
    laws::lemma_sub_zero(l.times(p.minus(x)).minus(y), l.times(e.minus(x)).minus(w));
}

/// The line back through the sum and the negated second point.
pub proof fn lemma_back(l: Fe, w: Fe, e: Fe, a: Fe, x: Fe, z: Fe, q: Fe)
    requires
        l.canonical(),
        w.canonical(),
        e.canonical(),
        a.canonical(),
        x.canonical(),
        z.canonical(),
        q.canonical(),
        q.times(e.minus(x)).plus(x.times(x)).plus(x.times(e)).plus(e.times(e)).plus(a) == Fe::of_int(2).times(l).times(w),
        z == l.times(e.minus(x)).minus(w),
        q == l.times(l),
    ensures
        Fe::of_int(0).minus(l).times(z.plus(Fe::of_int(0).minus(w))) == x.times(x).plus(x.times(e)).plus(e.times(e)).plus(a),
{
    broadcast use element::group_canonical;

    let env = seq![l, w, e, a, x, z, q];
    let lhs = ring::c(0).minus(ring::v(0)).times(ring::v(5).plus(ring::c(0).minus(ring::v(1)))).minus(ring::v(4).times(ring::v(4)).plus(ring::v(4).times(ring::v(2))).plus(ring::v(2).times(ring::v(2))).plus(ring::v(3)));
    let rhs = ring::c(0).minus(ring::c(1)).times(ring::v(6).times(ring::v(2).minus(ring::v(4))).plus(ring::v(4).times(ring::v(4))).plus(ring::v(4).times(ring::v(2))).plus(ring::v(2).times(ring::v(2))).plus(ring::v(3)).minus(ring::c(2).times(ring::v(0)).times(ring::v(1)))).plus(ring::c(0).minus(ring::v(0)).times(ring::v(5).minus(ring::v(0).times(ring::v(2).minus(ring::v(4))).minus(ring::v(1))))).plus(ring::v(2).minus(ring::v(4)).times(ring::v(6).minus(ring::v(0).times(ring::v(0)))));
    assert forall|ints: Seq<int>| ints.len() == 7 implies #[trigger] lhs.over_int(ints) == rhs.over_int(ints) by {
        reveal_with_fuel(Expr::over_int, 11);
        let (l, w, e, a, x, z, q) = (ints[0], ints[1], ints[2], ints[3], ints[4], ints[5], ints[6]);
        assert(((0 - l) * (z + (0 - w))) - ((((x * x) + (x * e)) + (e * e)) + a) == (((0 - 1) * ((((((q * (e - x)) + (x * x)) + (x * e)) + (e * e)) + a) - ((2 * l) * w))) + ((0 - l) * (z - ((l * (e - x)) - w)))) + ((e - x) * (q - (l * l)))) by (nonlinear_arith);
    }
    reveal_with_fuel(Expr::over_fe, 11);
    reveal_with_fuel(Expr::below, 11);
    ring::lemma_identity(lhs, rhs, env);
    laws::lemma_sub_self(q.times(e.minus(x)).plus(x.times(x)).plus(x.times(e)).plus(e.times(e)).plus(a));
    laws::lemma_sub_self(z);
    laws::lemma_sub_self(q);
    assert(Fe::of_int(0).minus(l).times(z.plus(Fe::of_int(0).minus(w))).minus(x.times(x).plus(x.times(e)).plus(e.times(e)).plus(a)) == Fe::of_int(0).minus(Fe::of_int(1)).times(Fe::of_int(0)).plus(Fe::of_int(0).minus(l).times(Fe::of_int(0))).plus(e.minus(x).times(Fe::of_int(0))));
    laws::lemma_mul_zero(Fe::of_int(0).minus(Fe::of_int(1)));
    laws::lemma_mul_zero(Fe::of_int(0).minus(l));
    laws::lemma_mul_zero(e.minus(x));
    laws::lemma_add_zero(Fe::of_int(0));
    laws::lemma_sub_zero(Fe::of_int(0).minus(l).times(z.plus(Fe::of_int(0).minus(w))), x.times(x).plus(x.times(e)).plus(e.times(e)).plus(a));
}

/// What a singular point would ask of the constant coefficient.
pub proof fn lemma_singular(e: Fe, b: Fe)
    requires
        e.canonical(),
        b.canonical(),
        Fe::of_int(3).times(e).times(e).plus(Fe::of_int(45)) == Fe::of_int(0),
        e.times(e).times(e).plus(Fe::of_int(45).times(e)).plus(b) == Fe::of_int(0),
        Fe::of_int(9) != Fe::of_int(0),
    ensures
        b.times(b) == Fe::of_int(0).minus(Fe::of_int(13500)),
{
    broadcast use element::group_canonical;

    let env = seq![e, b];
    let lhs = ring::c(9).times(ring::v(1).times(ring::v(1)).minus(ring::c(0).minus(ring::c(13500))));
    let rhs = ring::c(2700).minus(ring::v(0).times(ring::c(3).times(ring::v(1)).minus(ring::c(90).times(ring::v(0))))).times(ring::c(3).times(ring::v(0)).times(ring::v(0)).plus(ring::c(45)).minus(ring::c(0))).plus(ring::c(3).times(ring::c(3).times(ring::v(1)).minus(ring::c(90).times(ring::v(0)))).times(ring::v(0).times(ring::v(0)).times(ring::v(0)).plus(ring::c(45).times(ring::v(0))).plus(ring::v(1)).minus(ring::c(0))));
    assert forall|ints: Seq<int>| ints.len() == 2 implies #[trigger] lhs.over_int(ints) == rhs.over_int(ints) by {
        reveal_with_fuel(Expr::over_int, 8);
        let (e, b) = (ints[0], ints[1]);
        assert(9 * ((b * b) - (0 - 13500)) == ((2700 - (e * ((3 * b) - (90 * e)))) * ((((3 * e) * e) + 45) - 0)) + ((3 * ((3 * b) - (90 * e))) * (((((e * e) * e) + (45 * e)) + b) - 0))) by (nonlinear_arith);
    }
    reveal_with_fuel(Expr::over_fe, 8);
    reveal_with_fuel(Expr::below, 8);
    ring::lemma_identity(lhs, rhs, env);
    laws::lemma_sub_self(Fe::of_int(3).times(e).times(e).plus(Fe::of_int(45)));
    laws::lemma_sub_self(e.times(e).times(e).plus(Fe::of_int(45).times(e)).plus(b));
    assert(Fe::of_int(9).times(b.times(b).minus(Fe::of_int(0).minus(Fe::of_int(13500)))) == Fe::of_int(2700).minus(e.times(Fe::of_int(3).times(b).minus(Fe::of_int(90).times(e)))).times(Fe::of_int(0)).plus(Fe::of_int(3).times(Fe::of_int(3).times(b).minus(Fe::of_int(90).times(e))).times(Fe::of_int(0))));
    laws::lemma_mul_zero(Fe::of_int(2700).minus(e.times(Fe::of_int(3).times(b).minus(Fe::of_int(90).times(e)))));
    laws::lemma_mul_zero(Fe::of_int(3).times(Fe::of_int(3).times(b).minus(Fe::of_int(90).times(e))));
    laws::lemma_add_zero(Fe::of_int(0));
    field::lemma_cancel(Fe::of_int(9), b.times(b), Fe::of_int(0).minus(Fe::of_int(13500)));
}

/// A point that is its own sum with another is singular.
pub proof fn lemma_singular_point(q: Fe, e: Fe, m: Fe, w: Fe, l: Fe, a: Fe)
    requires
        q.canonical(),
        e.canonical(),
        m.canonical(),
        w.canonical(),
        l.canonical(),
        a.canonical(),
        Fe::of_int(2).times(l).times(w).plus(q.times(m)) == Fe::of_int(3).times(e).times(e).plus(Fe::of_int(3).times(e).times(m)).plus(m.times(m)).plus(a),
        q == Fe::of_int(3).times(e).plus(m),
        w == Fe::of_int(0),
    ensures
        Fe::of_int(3).times(e).times(e).plus(a) == Fe::of_int(0),
{
    broadcast use element::group_canonical;

    let env = seq![q, e, m, w, l, a];
    let lhs = ring::c(3).times(ring::v(1)).times(ring::v(1)).plus(ring::v(5)).minus(ring::c(0));
    let rhs = ring::c(0).minus(ring::c(1)).times(ring::c(2).times(ring::v(4)).times(ring::v(3)).plus(ring::v(0).times(ring::v(2))).minus(ring::c(3).times(ring::v(1)).times(ring::v(1)).plus(ring::c(3).times(ring::v(1)).times(ring::v(2))).plus(ring::v(2).times(ring::v(2))).plus(ring::v(5)))).plus(ring::v(2).times(ring::v(0).minus(ring::c(3).times(ring::v(1)).plus(ring::v(2))))).plus(ring::c(2).times(ring::v(4)).times(ring::v(3).minus(ring::c(0))));
    assert forall|ints: Seq<int>| ints.len() == 6 implies #[trigger] lhs.over_int(ints) == rhs.over_int(ints) by {
        reveal_with_fuel(Expr::over_int, 10);
        let (q, e, m, w, l, a) = (ints[0], ints[1], ints[2], ints[3], ints[4], ints[5]);
        assert((((3 * e) * e) + a) - 0 == (((0 - 1) * ((((2 * l) * w) + (q * m)) - (((((3 * e) * e) + ((3 * e) * m)) + (m * m)) + a))) + (m * (q - ((3 * e) + m)))) + ((2 * l) * (w - 0))) by (nonlinear_arith);
    }
    reveal_with_fuel(Expr::over_fe, 10);
    reveal_with_fuel(Expr::below, 10);
    ring::lemma_identity(lhs, rhs, env);
    laws::lemma_sub_self(Fe::of_int(2).times(l).times(w).plus(q.times(m)));
    laws::lemma_sub_self(q);
    laws::lemma_sub_self(w);
    assert(Fe::of_int(3).times(e).times(e).plus(a).minus(Fe::of_int(0)) == Fe::of_int(0).minus(Fe::of_int(1)).times(Fe::of_int(0)).plus(m.times(Fe::of_int(0))).plus(Fe::of_int(2).times(l).times(Fe::of_int(0))));
    laws::lemma_mul_zero(Fe::of_int(0).minus(Fe::of_int(1)));
    laws::lemma_mul_zero(m);
    laws::lemma_mul_zero(Fe::of_int(2).times(l));
    laws::lemma_add_zero(Fe::of_int(0));
    laws::lemma_sub_zero(Fe::of_int(3).times(e).times(e).plus(a), Fe::of_int(0));
}

/// The slope times the sum of the second coordinates.
proof fn lemma_double_slope(l: Fe, w: Fe, m: Fe)
    requires
        l.canonical(),
        w.canonical(),
        m.canonical(),
    ensures
        l.times(w.plus(l.times(m)).plus(w)) == Fe::of_int(2).times(l).times(w).plus(l.times(l).times(m)),
{
    let env = seq![l, w, m];
    let lhs = ring::v(0).times(ring::v(1).plus(ring::v(0).times(ring::v(2))).plus(ring::v(1)));
    let rhs = ring::c(2).times(ring::v(0)).times(ring::v(1)).plus(ring::v(0).times(ring::v(0)).times(ring::v(2)));
    assert forall|ints: Seq<int>| ints.len() == 3 implies #[trigger] lhs.over_int(ints) == rhs.over_int(ints) by {
        reveal_with_fuel(Expr::over_int, 5);
        let (l, w, m) = (ints[0], ints[1], ints[2]);
        assert(l * ((w + (l * m)) + w) == ((2 * l) * w) + ((l * l) * m)) by (nonlinear_arith);
    }
    reveal_with_fuel(Expr::over_fe, 5);
    reveal_with_fuel(Expr::below, 5);
    ring::lemma_identity(lhs, rhs, env);
}

/// The other side of a tangent equation.
proof fn lemma_three_squares(e: Fe, m: Fe, a: Fe)
    requires
        e.canonical(),
        m.canonical(),
        a.canonical(),
    ensures
        e.plus(m).times(e.plus(m)).plus(e.plus(m).times(e)).plus(e.times(e)).plus(a) == Fe::of_int(3).times(e).times(e).plus(Fe::of_int(3).times(e).times(m)).plus(m.times(m)).plus(a),
{
    let env = seq![e, m, a];
    let lhs = ring::v(0).plus(ring::v(1)).times(ring::v(0).plus(ring::v(1))).plus(ring::v(0).plus(ring::v(1)).times(ring::v(0))).plus(ring::v(0).times(ring::v(0))).plus(ring::v(2));
    let rhs = ring::c(3).times(ring::v(0)).times(ring::v(0)).plus(ring::c(3).times(ring::v(0)).times(ring::v(1))).plus(ring::v(1).times(ring::v(1))).plus(ring::v(2));
    assert forall|ints: Seq<int>| ints.len() == 3 implies #[trigger] lhs.over_int(ints) == rhs.over_int(ints) by {
        reveal_with_fuel(Expr::over_int, 6);
        let (e, m, a) = (ints[0], ints[1], ints[2]);
        assert(((((e + m) * (e + m)) + ((e + m) * e)) + (e * e)) + a == ((((3 * e) * e) + ((3 * e) * m)) + (m * m)) + a) by (nonlinear_arith);
    }
    reveal_with_fuel(Expr::over_fe, 6);
    reveal_with_fuel(Expr::below, 6);
    ring::lemma_identity(lhs, rhs, env);
}

/// The tangent equation of a slope, in the shifted coordinates.
pub proof fn lemma_shift(l: Fe, x: Fe, y: Fe, e: Fe, w: Fe, m: Fe, a: Fe)
    requires
        l.canonical(),
        x.canonical(),
        y.canonical(),
        e.canonical(),
        w.canonical(),
        m.canonical(),
        a.canonical(),
        l.times(y.plus(w)) == x.times(x).plus(x.times(e)).plus(e.times(e)).plus(a),
        y == w.plus(l.times(m)),
        x == e.plus(m),
    ensures
        Fe::of_int(2).times(l).times(w).plus(l.times(l).times(m)) == Fe::of_int(3).times(e).times(e).plus(Fe::of_int(3).times(e).times(m)).plus(m.times(m)).plus(a),
{
    broadcast use element::group_canonical;

    lemma_double_slope(l, w, m);
    lemma_three_squares(e, m, a);
}

/// A product of a sum and a difference of slopes.
proof fn lemma_gap_product(t: Fe, l: Fe, n: Fe, w: Fe)
    requires
        t.canonical(),
        l.canonical(),
        n.canonical(),
        w.canonical(),
    ensures
        t.times(l.plus(n)).plus(Fe::of_int(2).times(w)).times(l.minus(n)) == t.times(l.times(l)).plus(Fe::of_int(2).times(l).times(w)).minus(t.times(n.times(n)).plus(Fe::of_int(2).times(n).times(w))),
{
    let env = seq![t, l, n, w];
    let lhs = ring::v(0).times(ring::v(1).plus(ring::v(2))).plus(ring::c(2).times(ring::v(3))).times(ring::v(1).minus(ring::v(2)));
    let rhs = ring::v(0).times(ring::v(1).times(ring::v(1))).plus(ring::c(2).times(ring::v(1)).times(ring::v(3))).minus(ring::v(0).times(ring::v(2).times(ring::v(2))).plus(ring::c(2).times(ring::v(2)).times(ring::v(3))));
    assert forall|ints: Seq<int>| ints.len() == 4 implies #[trigger] lhs.over_int(ints) == rhs.over_int(ints) by {
        reveal_with_fuel(Expr::over_int, 5);
        let (t, l, n, w) = (ints[0], ints[1], ints[2], ints[3]);
        assert(((t * (l + n)) + (2 * w)) * (l - n) == ((t * (l * l)) + ((2 * l) * w)) - ((t * (n * n)) + ((2 * n) * w))) by (nonlinear_arith);
    }
    reveal_with_fuel(Expr::over_fe, 5);
    reveal_with_fuel(Expr::below, 5);
    ring::lemma_identity(lhs, rhs, env);
}

/// Moving a multiple of a square.
proof fn lemma_gap_left(p: Fe, q: Fe, m: Fe, t: Fe)
    requires
        p.canonical(),
        q.canonical(),
        m.canonical(),
        t.canonical(),
    ensures
        t.times(q).plus(p) == p.plus(q.times(m)).plus(t.minus(m).times(q)),
{
    let env = seq![p, q, m, t];
    let lhs = ring::v(3).times(ring::v(1)).plus(ring::v(0));
    let rhs = ring::v(0).plus(ring::v(1).times(ring::v(2))).plus(ring::v(3).minus(ring::v(2)).times(ring::v(1)));
    assert forall|ints: Seq<int>| ints.len() == 4 implies #[trigger] lhs.over_int(ints) == rhs.over_int(ints) by {
        reveal_with_fuel(Expr::over_int, 4);
        let (p, q, m, t) = (ints[0], ints[1], ints[2], ints[3]);
        assert((t * q) + p == (p + (q * m)) + ((t - m) * q)) by (nonlinear_arith);
    }
    reveal_with_fuel(Expr::over_fe, 4);
    reveal_with_fuel(Expr::below, 4);
    ring::lemma_identity(lhs, rhs, env);
}

/// Reordering a sum.
proof fn lemma_gap_right(p: Fe, q: Fe, t: Fe)
    requires
        p.canonical(),
        q.canonical(),
        t.canonical(),
    ensures
        t.times(q).plus(p) == p.plus(q.times(t)),
{
    let env = seq![p, q, t];
    let lhs = ring::v(2).times(ring::v(1)).plus(ring::v(0));
    let rhs = ring::v(0).plus(ring::v(1).times(ring::v(2)));
    assert forall|ints: Seq<int>| ints.len() == 3 implies #[trigger] lhs.over_int(ints) == rhs.over_int(ints) by {
        reveal_with_fuel(Expr::over_int, 3);
        let (p, q, t) = (ints[0], ints[1], ints[2]);
        assert((t * q) + p == p + (q * t)) by (nonlinear_arith);
    }
    reveal_with_fuel(Expr::over_fe, 3);
    reveal_with_fuel(Expr::below, 3);
    ring::lemma_identity(lhs, rhs, env);
}

/// The difference of two tangent equations.
proof fn lemma_gap_constants(e: Fe, m: Fe, t: Fe, a: Fe)
    requires
        e.canonical(),
        m.canonical(),
        t.canonical(),
        a.canonical(),
    ensures
        Fe::of_int(3).times(e).times(e).plus(Fe::of_int(3).times(e).times(m)).plus(m.times(m)).plus(a).minus(Fe::of_int(3).times(e).times(e).plus(Fe::of_int(3).times(e).times(t)).plus(t.times(t)).plus(a)) == m.minus(t).times(Fe::of_int(3).times(e).plus(m).plus(t)),
{
    let env = seq![e, m, t, a];
    let lhs = ring::c(3).times(ring::v(0)).times(ring::v(0)).plus(ring::c(3).times(ring::v(0)).times(ring::v(1))).plus(ring::v(1).times(ring::v(1))).plus(ring::v(3)).minus(ring::c(3).times(ring::v(0)).times(ring::v(0)).plus(ring::c(3).times(ring::v(0)).times(ring::v(2))).plus(ring::v(2).times(ring::v(2))).plus(ring::v(3)));
    let rhs = ring::v(1).minus(ring::v(2)).times(ring::c(3).times(ring::v(0)).plus(ring::v(1)).plus(ring::v(2)));
    assert forall|ints: Seq<int>| ints.len() == 4 implies #[trigger] lhs.over_int(ints) == rhs.over_int(ints) by {
        reveal_with_fuel(Expr::over_int, 7);
        let (e, m, t, a) = (ints[0], ints[1], ints[2], ints[3]);
        assert((((((3 * e) * e) + ((3 * e) * m)) + (m * m)) + a) - (((((3 * e) * e) + ((3 * e) * t)) + (t * t)) + a) == (m - t) * (((3 * e) + m) + t)) by (nonlinear_arith);
    }
    reveal_with_fuel(Expr::over_fe, 7);
    reveal_with_fuel(Expr::below, 7);
    ring::lemma_identity(lhs, rhs, env);
}

/// Reordering a difference.
proof fn lemma_gap_collect(c: Fe, k: Fe, t: Fe, m: Fe, q: Fe)
    requires
        c.canonical(),
        k.canonical(),
        t.canonical(),
        m.canonical(),
        q.canonical(),
    ensures
        c.plus(t.minus(m).times(q)).minus(k) == c.minus(k).plus(t.minus(m).times(q)),
{
    let env = seq![c, k, t, m, q];
    let lhs = ring::v(0).plus(ring::v(2).minus(ring::v(3)).times(ring::v(4))).minus(ring::v(1));
    let rhs = ring::v(0).minus(ring::v(1)).plus(ring::v(2).minus(ring::v(3)).times(ring::v(4)));
    assert forall|ints: Seq<int>| ints.len() == 5 implies #[trigger] lhs.over_int(ints) == rhs.over_int(ints) by {
        reveal_with_fuel(Expr::over_int, 5);
        let (c, k, t, m, q) = (ints[0], ints[1], ints[2], ints[3], ints[4]);
        assert((c + ((t - m) * q)) - k == (c - k) + ((t - m) * q)) by (nonlinear_arith);
    }
    reveal_with_fuel(Expr::over_fe, 5);
    reveal_with_fuel(Expr::below, 5);
    ring::lemma_identity(lhs, rhs, env);
}

/// A common factor.
proof fn lemma_gap_factor(m: Fe, t: Fe, k: Fe, q: Fe)
    requires
        m.canonical(),
        t.canonical(),
        k.canonical(),
        q.canonical(),
    ensures
        m.minus(t).times(k).plus(t.minus(m).times(q)) == t.minus(m).times(q.minus(k)),
{
    let env = seq![m, t, k, q];
    let lhs = ring::v(0).minus(ring::v(1)).times(ring::v(2)).plus(ring::v(1).minus(ring::v(0)).times(ring::v(3)));
    let rhs = ring::v(1).minus(ring::v(0)).times(ring::v(3).minus(ring::v(2)));
    assert forall|ints: Seq<int>| ints.len() == 4 implies #[trigger] lhs.over_int(ints) == rhs.over_int(ints) by {
        reveal_with_fuel(Expr::over_int, 4);
        let (m, t, k, q) = (ints[0], ints[1], ints[2], ints[3]);
        assert(((m - t) * k) + ((t - m) * q) == (t - m) * (q - k)) by (nonlinear_arith);
    }
    reveal_with_fuel(Expr::over_fe, 4);
    reveal_with_fuel(Expr::below, 4);
    ring::lemma_identity(lhs, rhs, env);
}

/// `g` is the distance of `P + Q` and `R` along the first axis.
pub proof fn lemma_gap(l: Fe, n: Fe, e: Fe, m: Fe, t: Fe, w: Fe, a: Fe, g: Fe, u: Fe)
    requires
        l.canonical(),
        n.canonical(),
        e.canonical(),
        m.canonical(),
        t.canonical(),
        w.canonical(),
        a.canonical(),
        g.canonical(),
        u.canonical(),
        Fe::of_int(2).times(l).times(w).plus(l.times(l).times(m)) == Fe::of_int(3).times(e).times(e).plus(Fe::of_int(3).times(e).times(m)).plus(m.times(m)).plus(a),
        Fe::of_int(2).times(n).times(w).plus(n.times(n).times(t)) == Fe::of_int(3).times(e).times(e).plus(Fe::of_int(3).times(e).times(t)).plus(t.times(t)).plus(a),
        g == l.times(l).minus(Fe::of_int(3).times(e).plus(m).plus(t)),
        u == t.times(l.plus(n)).plus(Fe::of_int(2).times(w)),
    ensures
        u.times(l.minus(n)) == t.minus(m).times(g),
{
    broadcast use element::group_canonical;

    let c = Fe::of_int(3).times(e).times(e).plus(Fe::of_int(3).times(e).times(m)).plus(m.times(m)).plus(a);
    let k = Fe::of_int(3).times(e).times(e).plus(Fe::of_int(3).times(e).times(t)).plus(t.times(t)).plus(a);
    let q = l.times(l);
    let r = n.times(n);
    let s = Fe::of_int(3).times(e).plus(m).plus(t);
    lemma_gap_product(t, l, n, w);
    lemma_gap_left(Fe::of_int(2).times(l).times(w), q, m, t);
    lemma_gap_right(Fe::of_int(2).times(n).times(w), r, t);
    lemma_gap_constants(e, m, t, a);
    lemma_gap_collect(c, k, t, m, q);
    lemma_gap_factor(m, t, s, q);
}

/// A product with a difference.
proof fn lemma_split_product(d: Fe, l: Fe, s: Fe)
    requires
        d.canonical(),
        l.canonical(),
        s.canonical(),
    ensures
        d.minus(l).times(s) == d.times(s).minus(l.times(s)),
{
    let env = seq![d, l, s];
    let lhs = ring::v(0).minus(ring::v(1)).times(ring::v(2));
    let rhs = ring::v(0).times(ring::v(2)).minus(ring::v(1).times(ring::v(2)));
    assert forall|ints: Seq<int>| ints.len() == 3 implies #[trigger] lhs.over_int(ints) == rhs.over_int(ints) by {
        reveal_with_fuel(Expr::over_int, 3);
        let (d, l, s) = (ints[0], ints[1], ints[2]);
        assert((d - l) * s == (d * s) - (l * s)) by (nonlinear_arith);
    }
    reveal_with_fuel(Expr::over_fe, 3);
    reveal_with_fuel(Expr::below, 3);
    ring::lemma_identity(lhs, rhs, env);
}

/// Moving a factor inwards.
proof fn lemma_outer_product(d: Fe, l: Fe, g: Fe, p: Fe, t: Fe)
    requires
        d.canonical(),
        l.canonical(),
        g.canonical(),
        p.canonical(),
        t.canonical(),
    ensures
        d.times(Fe::of_int(0).minus(l.times(g)).minus(p.times(t))) == l.times(Fe::of_int(0).minus(d.times(g))).minus(d.times(p).times(t)),
{
    let env = seq![d, l, g, p, t];
    let lhs = ring::v(0).times(ring::c(0).minus(ring::v(1).times(ring::v(2))).minus(ring::v(3).times(ring::v(4))));
    let rhs = ring::v(1).times(ring::c(0).minus(ring::v(0).times(ring::v(2)))).minus(ring::v(0).times(ring::v(3)).times(ring::v(4)));
    assert forall|ints: Seq<int>| ints.len() == 5 implies #[trigger] lhs.over_int(ints) == rhs.over_int(ints) by {
        reveal_with_fuel(Expr::over_int, 5);
        let (d, l, g, p, t) = (ints[0], ints[1], ints[2], ints[3], ints[4]);
        assert(d * ((0 - (l * g)) - (p * t)) == (l * (0 - (d * g))) - ((d * p) * t)) by (nonlinear_arith);
    }
    reveal_with_fuel(Expr::over_fe, 5);
    reveal_with_fuel(Expr::below, 5);
    ring::lemma_identity(lhs, rhs, env);
}

/// Multiplying out.
proof fn lemma_inner_product(l: Fe, g: Fe, p: Fe, t: Fe)
    requires
        l.canonical(),
        g.canonical(),
        p.canonical(),
        t.canonical(),
    ensures
        l.times(Fe::of_int(0).minus(l.times(g)).minus(p.times(t))) == Fe::of_int(0).minus(l.times(l).times(g)).minus(l.times(p).times(t)),
{
    let env = seq![l, g, p, t];
    let lhs = ring::v(0).times(ring::c(0).minus(ring::v(0).times(ring::v(1))).minus(ring::v(2).times(ring::v(3))));
    let rhs = ring::c(0).minus(ring::v(0).times(ring::v(0)).times(ring::v(1))).minus(ring::v(0).times(ring::v(2)).times(ring::v(3)));
    assert forall|ints: Seq<int>| ints.len() == 4 implies #[trigger] lhs.over_int(ints) == rhs.over_int(ints) by {
        reveal_with_fuel(Expr::over_int, 5);
        let (l, g, p, t) = (ints[0], ints[1], ints[2], ints[3]);
        assert(l * ((0 - (l * g)) - (p * t)) == (0 - ((l * l) * g)) - ((l * p) * t)) by (nonlinear_arith);
    }
    reveal_with_fuel(Expr::over_fe, 5);
    reveal_with_fuel(Expr::below, 5);
    ring::lemma_identity(lhs, rhs, env);
}

/// The terms with the slope.
proof fn lemma_slope_terms(l: Fe, n: Fe, t: Fe, w: Fe)
    requires
        l.canonical(),
        n.canonical(),
        t.canonical(),
        w.canonical(),
    ensures
        l.times(t.times(l.plus(n)).plus(Fe::of_int(2).times(w))).plus(l.times(l.minus(n)).times(t)) == Fe::of_int(2).times(l.times(l)).times(t).plus(Fe::of_int(2).times(l).times(w)),
{
    let env = seq![l, n, t, w];
    let lhs = ring::v(0).times(ring::v(2).times(ring::v(0).plus(ring::v(1))).plus(ring::c(2).times(ring::v(3)))).plus(ring::v(0).times(ring::v(0).minus(ring::v(1))).times(ring::v(2)));
    let rhs = ring::c(2).times(ring::v(0).times(ring::v(0))).times(ring::v(2)).plus(ring::c(2).times(ring::v(0)).times(ring::v(3)));
    assert forall|ints: Seq<int>| ints.len() == 4 implies #[trigger] lhs.over_int(ints) == rhs.over_int(ints) by {
        reveal_with_fuel(Expr::over_int, 6);
        let (l, n, t, w) = (ints[0], ints[1], ints[2], ints[3]);
        assert((l * ((t * (l + n)) + (2 * w))) + ((l * (l - n)) * t) == ((2 * (l * l)) * t) + ((2 * l) * w)) by (nonlinear_arith);
    }
    reveal_with_fuel(Expr::over_fe, 6);
    reveal_with_fuel(Expr::below, 6);
    ring::lemma_identity(lhs, rhs, env);
}

/// The terms without the slope.
proof fn lemma_square_terms(m: Fe, t: Fe)
    requires
        m.canonical(),
        t.canonical(),
    ensures
        m.minus(t).times(t) == m.times(t).minus(t.times(t)),
{
    let env = seq![m, t];
    let lhs = ring::v(0).minus(ring::v(1)).times(ring::v(1));
    let rhs = ring::v(0).times(ring::v(1)).minus(ring::v(1).times(ring::v(1)));
    assert forall|ints: Seq<int>| ints.len() == 2 implies #[trigger] lhs.over_int(ints) == rhs.over_int(ints) by {
        reveal_with_fuel(Expr::over_int, 3);
        let (m, t) = (ints[0], ints[1]);
        assert((m - t) * t == (m * t) - (t * t)) by (nonlinear_arith);
    }
    reveal_with_fuel(Expr::over_fe, 3);
    reveal_with_fuel(Expr::below, 3);
    ring::lemma_identity(lhs, rhs, env);
}

/// Reordering a difference.
proof fn lemma_collect_terms(p: Fe, q: Fe, r: Fe, s: Fe)
    requires
        p.canonical(),
        q.canonical(),
        r.canonical(),
        s.canonical(),
    ensures
        p.minus(q).minus(Fe::of_int(0).minus(r).minus(s)) == p.plus(s).minus(q).plus(r),
{
    let env = seq![p, q, r, s];
    let lhs = ring::v(0).minus(ring::v(1)).minus(ring::c(0).minus(ring::v(2)).minus(ring::v(3)));
    let rhs = ring::v(0).plus(ring::v(3)).minus(ring::v(1)).plus(ring::v(2));
    assert forall|ints: Seq<int>| ints.len() == 4 implies #[trigger] lhs.over_int(ints) == rhs.over_int(ints) by {
        reveal_with_fuel(Expr::over_int, 4);
        let (p, q, r, s) = (ints[0], ints[1], ints[2], ints[3]);
        assert((p - q) - ((0 - r) - s) == ((p + s) - q) + r) by (nonlinear_arith);
    }
    reveal_with_fuel(Expr::over_fe, 4);
    reveal_with_fuel(Expr::below, 4);
    ring::lemma_identity(lhs, rhs, env);
}

/// Reordering a sum.
proof fn lemma_collect_squares(p: Fe, q: Fe, r: Fe, s: Fe)
    requires
        p.canonical(),
        q.canonical(),
        r.canonical(),
        s.canonical(),
    ensures
        p.minus(q.minus(r)).plus(s) == p.minus(q).plus(r).plus(s),
{
    let env = seq![p, q, r, s];
    let lhs = ring::v(0).minus(ring::v(1).minus(ring::v(2))).plus(ring::v(3));
    let rhs = ring::v(0).minus(ring::v(1)).plus(ring::v(2)).plus(ring::v(3));
    assert forall|ints: Seq<int>| ints.len() == 4 implies #[trigger] lhs.over_int(ints) == rhs.over_int(ints) by {
        reveal_with_fuel(Expr::over_int, 4);
        let (p, q, r, s) = (ints[0], ints[1], ints[2], ints[3]);
        assert((p - (q - r)) + s == ((p - q) + r) + s) by (nonlinear_arith);
    }
    reveal_with_fuel(Expr::over_fe, 4);
    reveal_with_fuel(Expr::below, 4);
    ring::lemma_identity(lhs, rhs, env);
}

/// The product in the tangent equation of that slope.
pub proof fn lemma_tangent_product(l: Fe, n: Fe, m: Fe, t: Fe, w: Fe, d: Fe, g: Fe, u: Fe, s: Fe)
    requires
        l.canonical(),
        n.canonical(),
        m.canonical(),
        t.canonical(),
        w.canonical(),
        d.canonical(),
        g.canonical(),
        u.canonical(),
        s.canonical(),
        s == Fe::of_int(0).minus(l.times(g)).minus(l.minus(n).times(t)),
        u == Fe::of_int(0).minus(d.times(g)),
        d.times(l.minus(n)) == m.minus(t),
        u == t.times(l.plus(n)).plus(Fe::of_int(2).times(w)),
    ensures
        d.minus(l).times(s) == Fe::of_int(2).times(l.times(l)).times(t).plus(Fe::of_int(2).times(l).times(w)).minus(m.times(t)).plus(t.times(t)).plus(l.times(l).times(g)),
{
    broadcast use element::group_canonical;

    let p = l.minus(n);
    lemma_split_product(d, l, s);
    lemma_outer_product(d, l, g, p, t);
    lemma_inner_product(l, g, p, t);
    lemma_collect_terms(l.times(u), m.minus(t).times(t), l.times(l).times(g), l.times(p).times(t));
    lemma_slope_terms(l, n, t, w);
    lemma_square_terms(m, t);
    lemma_collect_squares(Fe::of_int(2).times(l.times(l)).times(t).plus(Fe::of_int(2).times(l).times(w)), m.times(t), t.times(t), l.times(l).times(g));
}

/// Moving a multiple of a square.
proof fn lemma_value_move(p: Fe, q: Fe, m: Fe, t: Fe, g: Fe)
    requires
        p.canonical(),
        q.canonical(),
        m.canonical(),
        t.canonical(),
        g.canonical(),
    ensures
        Fe::of_int(2).times(q).times(t).plus(p).plus(q.times(g)) == p.plus(q.times(m)).plus(q.times(g.plus(Fe::of_int(2).times(t).minus(m)))),
{
    let env = seq![p, q, m, t, g];
    let lhs = ring::c(2).times(ring::v(1)).times(ring::v(3)).plus(ring::v(0)).plus(ring::v(1).times(ring::v(4)));
    let rhs = ring::v(0).plus(ring::v(1).times(ring::v(2))).plus(ring::v(1).times(ring::v(4).plus(ring::c(2).times(ring::v(3)).minus(ring::v(2)))));
    assert forall|ints: Seq<int>| ints.len() == 5 implies #[trigger] lhs.over_int(ints) == rhs.over_int(ints) by {
        reveal_with_fuel(Expr::over_int, 6);
        let (p, q, m, t, g) = (ints[0], ints[1], ints[2], ints[3], ints[4]);
        assert((((2 * q) * t) + p) + (q * g) == (p + (q * m)) + (q * (g + ((2 * t) - m)))) by (nonlinear_arith);
    }
    reveal_with_fuel(Expr::over_fe, 6);
    reveal_with_fuel(Expr::below, 6);
    ring::lemma_identity(lhs, rhs, env);
}

/// A product of two sums.
proof fn lemma_value_product(g: Fe, k: Fe, j: Fe)
    requires
        g.canonical(),
        k.canonical(),
        j.canonical(),
    ensures
        g.plus(k).times(g.plus(j)) == g.times(g).plus(k.plus(j).times(g)).plus(k.times(j)),
{
    let env = seq![g, k, j];
    let lhs = ring::v(0).plus(ring::v(1)).times(ring::v(0).plus(ring::v(2)));
    let rhs = ring::v(0).times(ring::v(0)).plus(ring::v(1).plus(ring::v(2)).times(ring::v(0))).plus(ring::v(1).times(ring::v(2)));
    assert forall|ints: Seq<int>| ints.len() == 3 implies #[trigger] lhs.over_int(ints) == rhs.over_int(ints) by {
        reveal_with_fuel(Expr::over_int, 5);
        let (g, k, j) = (ints[0], ints[1], ints[2]);
        assert((g + k) * (g + j) == ((g * g) + ((k + j) * g)) + (k * j)) by (nonlinear_arith);
    }
    reveal_with_fuel(Expr::over_fe, 5);
    reveal_with_fuel(Expr::below, 5);
    ring::lemma_identity(lhs, rhs, env);
}

/// The factor of the gap.
proof fn lemma_value_linear(e: Fe, m: Fe, t: Fe)
    requires
        e.canonical(),
        m.canonical(),
        t.canonical(),
    ensures
        Fe::of_int(3).times(e).plus(m).plus(t).plus(Fe::of_int(2).times(t).minus(m)) == Fe::of_int(3).times(e.plus(t)),
{
    let env = seq![e, m, t];
    let lhs = ring::c(3).times(ring::v(0)).plus(ring::v(1)).plus(ring::v(2)).plus(ring::c(2).times(ring::v(2)).minus(ring::v(1)));
    let rhs = ring::c(3).times(ring::v(0).plus(ring::v(2)));
    assert forall|ints: Seq<int>| ints.len() == 3 implies #[trigger] lhs.over_int(ints) == rhs.over_int(ints) by {
        reveal_with_fuel(Expr::over_int, 5);
        let (e, m, t) = (ints[0], ints[1], ints[2]);
        assert((((3 * e) + m) + t) + ((2 * t) - m) == 3 * (e + t)) by (nonlinear_arith);
    }
    reveal_with_fuel(Expr::over_fe, 5);
    reveal_with_fuel(Expr::below, 5);
    ring::lemma_identity(lhs, rhs, env);
}

/// The remaining product.
proof fn lemma_value_mixed(e: Fe, m: Fe, t: Fe)
    requires
        e.canonical(),
        m.canonical(),
        t.canonical(),
    ensures
        Fe::of_int(3).times(e).plus(m).plus(t).times(Fe::of_int(2).times(t).minus(m)) == Fe::of_int(6).times(e.times(t)).minus(Fe::of_int(3).times(e.times(m))).plus(m.times(t)).minus(m.times(m)).plus(Fe::of_int(2).times(t.times(t))),
{
    let env = seq![e, m, t];
    let lhs = ring::c(3).times(ring::v(0)).plus(ring::v(1)).plus(ring::v(2)).times(ring::c(2).times(ring::v(2)).minus(ring::v(1)));
    let rhs = ring::c(6).times(ring::v(0).times(ring::v(2))).minus(ring::c(3).times(ring::v(0).times(ring::v(1)))).plus(ring::v(1).times(ring::v(2))).minus(ring::v(1).times(ring::v(1))).plus(ring::c(2).times(ring::v(2).times(ring::v(2))));
    assert forall|ints: Seq<int>| ints.len() == 3 implies #[trigger] lhs.over_int(ints) == rhs.over_int(ints) by {
        reveal_with_fuel(Expr::over_int, 7);
        let (e, m, t) = (ints[0], ints[1], ints[2]);
        assert((((3 * e) + m) + t) * ((2 * t) - m) == ((((6 * (e * t)) - (3 * (e * m))) + (m * t)) - (m * m)) + (2 * (t * t))) by (nonlinear_arith);
    }
    reveal_with_fuel(Expr::over_fe, 7);
    reveal_with_fuel(Expr::below, 7);
    ring::lemma_identity(lhs, rhs, env);
}

/// The square.
proof fn lemma_value_square(e: Fe, t: Fe)
    requires
        e.canonical(),
        t.canonical(),
    ensures
        Fe::of_int(3).times(e.plus(t)).times(e.plus(t)) == Fe::of_int(3).times(e.times(e)).plus(Fe::of_int(6).times(e.times(t))).plus(Fe::of_int(3).times(t.times(t))),
{
    let env = seq![e, t];
    let lhs = ring::c(3).times(ring::v(0).plus(ring::v(1))).times(ring::v(0).plus(ring::v(1)));
    let rhs = ring::c(3).times(ring::v(0).times(ring::v(0))).plus(ring::c(6).times(ring::v(0).times(ring::v(1)))).plus(ring::c(3).times(ring::v(1).times(ring::v(1))));
    assert forall|ints: Seq<int>| ints.len() == 2 implies #[trigger] lhs.over_int(ints) == rhs.over_int(ints) by {
        reveal_with_fuel(Expr::over_int, 5);
        let (e, t) = (ints[0], ints[1]);
        assert((3 * (e + t)) * (e + t) == ((3 * (e * e)) + (6 * (e * t))) + (3 * (t * t))) by (nonlinear_arith);
    }
    reveal_with_fuel(Expr::over_fe, 5);
    reveal_with_fuel(Expr::below, 5);
    ring::lemma_identity(lhs, rhs, env);
}

/// Reassociating products.
proof fn lemma_value_left(e: Fe, m: Fe, a: Fe)
    requires
        e.canonical(),
        m.canonical(),
        a.canonical(),
    ensures
        Fe::of_int(3).times(e).times(e).plus(Fe::of_int(3).times(e).times(m)).plus(m.times(m)).plus(a) == Fe::of_int(3).times(e.times(e)).plus(Fe::of_int(3).times(e.times(m))).plus(m.times(m)).plus(a),
{
    let env = seq![e, m, a];
    let lhs = ring::c(3).times(ring::v(0)).times(ring::v(0)).plus(ring::c(3).times(ring::v(0)).times(ring::v(1))).plus(ring::v(1).times(ring::v(1))).plus(ring::v(2));
    let rhs = ring::c(3).times(ring::v(0).times(ring::v(0))).plus(ring::c(3).times(ring::v(0).times(ring::v(1)))).plus(ring::v(1).times(ring::v(1))).plus(ring::v(2));
    assert forall|ints: Seq<int>| ints.len() == 3 implies #[trigger] lhs.over_int(ints) == rhs.over_int(ints) by {
        reveal_with_fuel(Expr::over_int, 6);
        let (e, m, a) = (ints[0], ints[1], ints[2]);
        assert(((((3 * e) * e) + ((3 * e) * m)) + (m * m)) + a == (((3 * (e * e)) + (3 * (e * m))) + (m * m)) + a) by (nonlinear_arith);
    }
    reveal_with_fuel(Expr::over_fe, 6);
    reveal_with_fuel(Expr::below, 6);
    ring::lemma_identity(lhs, rhs, env);
}

/// Adding up.
proof fn lemma_value_sum(p: Fe, q: Fe, r: Fe, s: Fe, x: Fe, y: Fe, a: Fe)
    requires
        p.canonical(),
        q.canonical(),
        r.canonical(),
        s.canonical(),
        x.canonical(),
        y.canonical(),
        a.canonical(),
    ensures
        Fe::of_int(6).times(p).minus(Fe::of_int(3).times(q)).plus(r).minus(s).plus(Fe::of_int(2).times(x)).plus(Fe::of_int(3).times(y).plus(Fe::of_int(3).times(q)).plus(s).plus(a)).minus(r).plus(x) == Fe::of_int(3).times(y).plus(Fe::of_int(6).times(p)).plus(Fe::of_int(3).times(x)).plus(a),
{
    let env = seq![p, q, r, s, x, y, a];
    let lhs = ring::c(6).times(ring::v(0)).minus(ring::c(3).times(ring::v(1))).plus(ring::v(2)).minus(ring::v(3)).plus(ring::c(2).times(ring::v(4))).plus(ring::c(3).times(ring::v(5)).plus(ring::c(3).times(ring::v(1))).plus(ring::v(3)).plus(ring::v(6))).minus(ring::v(2)).plus(ring::v(4));
    let rhs = ring::c(3).times(ring::v(5)).plus(ring::c(6).times(ring::v(0))).plus(ring::c(3).times(ring::v(4))).plus(ring::v(6));
    assert forall|ints: Seq<int>| ints.len() == 7 implies #[trigger] lhs.over_int(ints) == rhs.over_int(ints) by {
        reveal_with_fuel(Expr::over_int, 9);
        let (p, q, r, s, x, y, a) = (ints[0], ints[1], ints[2], ints[3], ints[4], ints[5], ints[6]);
        assert((((((((6 * p) - (3 * q)) + r) - s) + (2 * x)) + ((((3 * y) + (3 * q)) + s) + a)) - r) + x == (((3 * y) + (6 * p)) + (3 * x)) + a) by (nonlinear_arith);
    }
    reveal_with_fuel(Expr::over_fe, 9);
    reveal_with_fuel(Expr::below, 9);
    ring::lemma_identity(lhs, rhs, env);
}

/// Reordering a sum.
proof fn lemma_value_order(b: Fe, c: Fe, d: Fe, f: Fe, j: Fe)
    requires
        b.canonical(),
        c.canonical(),
        d.canonical(),
        f.canonical(),
        j.canonical(),
    ensures
        c.plus(f.plus(b)).minus(d).plus(j) == f.plus(b.plus(c).minus(d).plus(j)),
{
    let env = seq![b, c, d, f, j];
    let lhs = ring::v(1).plus(ring::v(3).plus(ring::v(0))).minus(ring::v(2)).plus(ring::v(4));
    let rhs = ring::v(3).plus(ring::v(0).plus(ring::v(1)).minus(ring::v(2)).plus(ring::v(4)));
    assert forall|ints: Seq<int>| ints.len() == 5 implies #[trigger] lhs.over_int(ints) == rhs.over_int(ints) by {
        reveal_with_fuel(Expr::over_int, 5);
        let (b, c, d, f, j) = (ints[0], ints[1], ints[2], ints[3], ints[4]);
        assert(((c + (f + b)) - d) + j == f + (((b + c) - d) + j)) by (nonlinear_arith);
    }
    reveal_with_fuel(Expr::over_fe, 5);
    reveal_with_fuel(Expr::below, 5);
    ring::lemma_identity(lhs, rhs, env);
}

/// Reordering a sum.
proof fn lemma_value_first(p: Fe, q: Fe, r: Fe, s: Fe, j: Fe)
    requires
        p.canonical(),
        q.canonical(),
        r.canonical(),
        s.canonical(),
        j.canonical(),
    ensures
        p.plus(q).minus(r).plus(s).plus(j) == p.plus(q).plus(j).minus(r).plus(s),
{
    let env = seq![p, q, r, s, j];
    let lhs = ring::v(0).plus(ring::v(1)).minus(ring::v(2)).plus(ring::v(3)).plus(ring::v(4));
    let rhs = ring::v(0).plus(ring::v(1)).plus(ring::v(4)).minus(ring::v(2)).plus(ring::v(3));
    assert forall|ints: Seq<int>| ints.len() == 5 implies #[trigger] lhs.over_int(ints) == rhs.over_int(ints) by {
        reveal_with_fuel(Expr::over_int, 5);
        let (p, q, r, s, j) = (ints[0], ints[1], ints[2], ints[3], ints[4]);
        assert((((p + q) - r) + s) + j == (((p + q) + j) - r) + s) by (nonlinear_arith);
    }
    reveal_with_fuel(Expr::over_fe, 5);
    reveal_with_fuel(Expr::below, 5);
    ring::lemma_identity(lhs, rhs, env);
}

/// Reordering a sum.
proof fn lemma_value_last(p: Fe, q: Fe, r: Fe, a: Fe)
    requires
        p.canonical(),
        q.canonical(),
        r.canonical(),
        a.canonical(),
    ensures
        p.plus(q).plus(r.plus(a)) == p.plus(q).plus(r).plus(a),
{
    let env = seq![p, q, r, a];
    let lhs = ring::v(0).plus(ring::v(1)).plus(ring::v(2).plus(ring::v(3)));
    let rhs = ring::v(0).plus(ring::v(1)).plus(ring::v(2)).plus(ring::v(3));
    assert forall|ints: Seq<int>| ints.len() == 4 implies #[trigger] lhs.over_int(ints) == rhs.over_int(ints) by {
        reveal_with_fuel(Expr::over_int, 4);
        let (p, q, r, a) = (ints[0], ints[1], ints[2], ints[3]);
        assert((p + q) + (r + a) == ((p + q) + r) + a) by (nonlinear_arith);
    }
    reveal_with_fuel(Expr::over_fe, 4);
    reveal_with_fuel(Expr::below, 4);
    ring::lemma_identity(lhs, rhs, env);
}

/// The value in the tangent equation of that slope.
pub proof fn lemma_tangent_value(l: Fe, e: Fe, m: Fe, t: Fe, w: Fe, a: Fe, g: Fe, q: Fe)
    requires
        l.canonical(),
        e.canonical(),
        m.canonical(),
        t.canonical(),
        w.canonical(),
        a.canonical(),
        g.canonical(),
        q.canonical(),
        Fe::of_int(2).times(l).times(w).plus(q.times(m)) == Fe::of_int(3).times(e).times(e).plus(Fe::of_int(3).times(e).times(m)).plus(m.times(m)).plus(a),
        g == q.minus(Fe::of_int(3).times(e).plus(m).plus(t)),
    ensures
        Fe::of_int(2).times(q).times(t).plus(Fe::of_int(2).times(l).times(w)).minus(m.times(t)).plus(t.times(t)).plus(q.times(g)) == g.times(g).plus(Fe::of_int(3).times(e.plus(t)).times(g)).plus(Fe::of_int(3).times(e.plus(t)).times(e.plus(t))).plus(a),
{
    broadcast use element::group_canonical;

    let k = Fe::of_int(3).times(e).plus(m).plus(t);
    let j = Fe::of_int(2).times(t).minus(m);
    let p = Fe::of_int(2).times(l).times(w);
    let c = Fe::of_int(3).times(e).times(e).plus(Fe::of_int(3).times(e).times(m)).plus(m.times(m)).plus(a);
    lemma_value_first(Fe::of_int(2).times(q).times(t), p, m.times(t), t.times(t), q.times(g));
    lemma_value_move(p, q, m, t, g);
    laws::lemma_sub_add(q, k);
    lemma_value_product(g, k, j);
    lemma_value_linear(e, m, t);
    lemma_value_mixed(e, m, t);
    lemma_value_square(e, t);
    lemma_value_left(e, m, a);
    lemma_value_sum(e.times(t), e.times(m), m.times(t), m.times(m), t.times(t), e.times(e), a);
    let f = g.times(g).plus(Fe::of_int(3).times(e.plus(t)).times(g));
    lemma_value_order(k.times(j), c, m.times(t), f, t.times(t));
    lemma_value_last(g.times(g), Fe::of_int(3).times(e.plus(t)).times(g), Fe::of_int(3).times(e.plus(t)).times(e.plus(t)), a);
}

/// One side.
proof fn lemma_same_y_half(d: Fe, l: Fe, n: Fe, t: Fe, y: Fe)
    requires
        d.canonical(),
        l.canonical(),
        n.canonical(),
        t.canonical(),
        y.canonical(),
    ensures
        d.minus(l).times(t.minus(y)).minus(n.times(t)) == d.minus(l).minus(n).times(t).minus(d.minus(l).times(y)),
{
    let env = seq![d, l, n, t, y];
    let lhs = ring::v(0).minus(ring::v(1)).times(ring::v(3).minus(ring::v(4))).minus(ring::v(2).times(ring::v(3)));
    let rhs = ring::v(0).minus(ring::v(1)).minus(ring::v(2)).times(ring::v(3)).minus(ring::v(0).minus(ring::v(1)).times(ring::v(4)));
    assert forall|ints: Seq<int>| ints.len() == 5 implies #[trigger] lhs.over_int(ints) == rhs.over_int(ints) by {
        reveal_with_fuel(Expr::over_int, 5);
        let (d, l, n, t, y) = (ints[0], ints[1], ints[2], ints[3], ints[4]);
        assert(((d - l) * (t - y)) - (n * t) == (((d - l) - n) * t) - ((d - l) * y)) by (nonlinear_arith);
    }
    reveal_with_fuel(Expr::over_fe, 5);
    reveal_with_fuel(Expr::below, 5);
    ring::lemma_identity(lhs, rhs, env);
}

/// The difference of the sides.
proof fn lemma_same_y_difference(f: Fe, t: Fe, m: Fe, d: Fe, l: Fe, n: Fe, y: Fe)
    requires
        f.canonical(),
        t.canonical(),
        m.canonical(),
        d.canonical(),
        l.canonical(),
        n.canonical(),
        y.canonical(),
    ensures
        f.times(t).minus(d.minus(l).times(y)).minus(f.times(m).minus(d.minus(n).times(y))) == f.times(t.minus(m)).plus(l.minus(n).times(y)),
{
    let env = seq![f, t, m, d, l, n, y];
    let lhs = ring::v(0).times(ring::v(1)).minus(ring::v(3).minus(ring::v(4)).times(ring::v(6))).minus(ring::v(0).times(ring::v(2)).minus(ring::v(3).minus(ring::v(5)).times(ring::v(6))));
    let rhs = ring::v(0).times(ring::v(1).minus(ring::v(2))).plus(ring::v(4).minus(ring::v(5)).times(ring::v(6)));
    assert forall|ints: Seq<int>| ints.len() == 7 implies #[trigger] lhs.over_int(ints) == rhs.over_int(ints) by {
        reveal_with_fuel(Expr::over_int, 5);
        let (f, t, m, d, l, n, y) = (ints[0], ints[1], ints[2], ints[3], ints[4], ints[5], ints[6]);
        assert(((f * t) - ((d - l) * y)) - ((f * m) - ((d - n) * y)) == (f * (t - m)) + ((l - n) * y)) by (nonlinear_arith);
    }
    reveal_with_fuel(Expr::over_fe, 5);
    reveal_with_fuel(Expr::below, 5);
    ring::lemma_identity(lhs, rhs, env);
}

/// Reordering a product.
proof fn lemma_same_y_swap(p: Fe, d: Fe, f: Fe)
    requires
        p.canonical(),
        d.canonical(),
        f.canonical(),
    ensures
        p.times(d.times(f)) == f.times(d.times(p)),
{
    let env = seq![p, d, f];
    let lhs = ring::v(0).times(ring::v(1).times(ring::v(2)));
    let rhs = ring::v(2).times(ring::v(1).times(ring::v(0)));
    assert forall|ints: Seq<int>| ints.len() == 3 implies #[trigger] lhs.over_int(ints) == rhs.over_int(ints) by {
        reveal_with_fuel(Expr::over_int, 3);
        let (p, d, f) = (ints[0], ints[1], ints[2]);
        assert(p * (d * f) == f * (d * p)) by (nonlinear_arith);
    }
    reveal_with_fuel(Expr::over_fe, 3);
    reveal_with_fuel(Expr::below, 3);
    ring::lemma_identity(lhs, rhs, env);
}

/// Opposite products.
proof fn lemma_same_y_zero(f: Fe, t: Fe, m: Fe)
    requires
        f.canonical(),
        t.canonical(),
        m.canonical(),
    ensures
        f.times(t.minus(m)).plus(f.times(m.minus(t))) == Fe::of_int(0),
{
    let env = seq![f, t, m];
    let lhs = ring::v(0).times(ring::v(1).minus(ring::v(2))).plus(ring::v(0).times(ring::v(2).minus(ring::v(1))));
    let rhs = ring::c(0);
    assert forall|ints: Seq<int>| ints.len() == 3 implies #[trigger] lhs.over_int(ints) == rhs.over_int(ints) by {
        reveal_with_fuel(Expr::over_int, 4);
        let (f, t, m) = (ints[0], ints[1], ints[2]);
        assert((f * (t - m)) + (f * (m - t)) == 0) by (nonlinear_arith);
    }
    reveal_with_fuel(Expr::over_fe, 4);
    reveal_with_fuel(Expr::below, 4);
    ring::lemma_identity(lhs, rhs, env);
}

/// Reordering a difference.
proof fn lemma_same_y_point(e: Fe, t: Fe, x: Fe, w: Fe, n: Fe)
    requires
        e.canonical(),
        t.canonical(),
        x.canonical(),
        w.canonical(),
        n.canonical(),
    ensures
        e.plus(t).minus(x) == t.minus(x.minus(e)),
{
    let env = seq![e, t, x, w, n];
    let lhs = ring::v(0).plus(ring::v(1)).minus(ring::v(2));
    let rhs = ring::v(1).minus(ring::v(2).minus(ring::v(0)));
    assert forall|ints: Seq<int>| ints.len() == 5 implies #[trigger] lhs.over_int(ints) == rhs.over_int(ints) by {
        reveal_with_fuel(Expr::over_int, 3);
        let (e, t, x, w, n) = (ints[0], ints[1], ints[2], ints[3], ints[4]);
        assert((e + t) - x == t - (x - e)) by (nonlinear_arith);
    }
    reveal_with_fuel(Expr::over_fe, 3);
    reveal_with_fuel(Expr::below, 3);
    ring::lemma_identity(lhs, rhs, env);
}

/// Reordering a difference.
proof fn lemma_same_y_start(p: Fe, w: Fe, q: Fe)
    requires
        p.canonical(),
        w.canonical(),
        q.canonical(),
    ensures
        p.minus(w.plus(q)) == p.minus(q).minus(w),
{
    let env = seq![p, w, q];
    let lhs = ring::v(0).minus(ring::v(1).plus(ring::v(2)));
    let rhs = ring::v(0).minus(ring::v(2)).minus(ring::v(1));
    assert forall|ints: Seq<int>| ints.len() == 3 implies #[trigger] lhs.over_int(ints) == rhs.over_int(ints) by {
        reveal_with_fuel(Expr::over_int, 3);
        let (p, w, q) = (ints[0], ints[1], ints[2]);
        assert(p - (w + q) == (p - q) - w) by (nonlinear_arith);
    }
    reveal_with_fuel(Expr::over_fe, 3);
    reveal_with_fuel(Expr::below, 3);
    ring::lemma_identity(lhs, rhs, env);
}

/// Reordering a difference.
proof fn lemma_same_y_value(d: Fe, l: Fe, n: Fe, e: Fe, m: Fe, t: Fe)
    requires
        d.canonical(),
        l.canonical(),
        n.canonical(),
        e.canonical(),
        m.canonical(),
        t.canonical(),
    ensures
        d.times(d).minus(Fe::of_int(2).times(d).times(l)).plus(e).plus(m).minus(t).minus(e) == d.times(d).minus(Fe::of_int(2).times(d).times(l)).plus(m.minus(t)),
{
    let env = seq![d, l, n, e, m, t];
    let lhs = ring::v(0).times(ring::v(0)).minus(ring::c(2).times(ring::v(0)).times(ring::v(1))).plus(ring::v(3)).plus(ring::v(4)).minus(ring::v(5)).minus(ring::v(3));
    let rhs = ring::v(0).times(ring::v(0)).minus(ring::c(2).times(ring::v(0)).times(ring::v(1))).plus(ring::v(4).minus(ring::v(5)));
    assert forall|ints: Seq<int>| ints.len() == 6 implies #[trigger] lhs.over_int(ints) == rhs.over_int(ints) by {
        reveal_with_fuel(Expr::over_int, 8);
        let (d, l, n, e, m, t) = (ints[0], ints[1], ints[2], ints[3], ints[4], ints[5]);
        assert((((((d * d) - ((2 * d) * l)) + e) + m) - t) - e == ((d * d) - ((2 * d) * l)) + (m - t)) by (nonlinear_arith);
    }
    reveal_with_fuel(Expr::over_fe, 8);
    reveal_with_fuel(Expr::below, 8);
    ring::lemma_identity(lhs, rhs, env);
}

/// A common factor.
proof fn lemma_same_y_factor(d: Fe, l: Fe, n: Fe)
    requires
        d.canonical(),
        l.canonical(),
        n.canonical(),
    ensures
        d.times(d).minus(Fe::of_int(2).times(d).times(l)).plus(d.times(l.minus(n))) == d.times(d.minus(l).minus(n)),
{
    let env = seq![d, l, n];
    let lhs = ring::v(0).times(ring::v(0)).minus(ring::c(2).times(ring::v(0)).times(ring::v(1))).plus(ring::v(0).times(ring::v(1).minus(ring::v(2))));
    let rhs = ring::v(0).times(ring::v(0).minus(ring::v(1)).minus(ring::v(2)));
    assert forall|ints: Seq<int>| ints.len() == 3 implies #[trigger] lhs.over_int(ints) == rhs.over_int(ints) by {
        reveal_with_fuel(Expr::over_int, 5);
        let (d, l, n) = (ints[0], ints[1], ints[2]);
        assert(((d * d) - ((2 * d) * l)) + (d * (l - n)) == d * ((d - l) - n)) by (nonlinear_arith);
    }
    reveal_with_fuel(Expr::over_fe, 5);
    reveal_with_fuel(Expr::below, 5);
    ring::lemma_identity(lhs, rhs, env);
}

/// Reordering a difference.
proof fn lemma_flip(d: Fe, l: Fe, n: Fe)
    requires
        d.canonical(),
        l.canonical(),
        n.canonical(),
    ensures
        d.minus(n).minus(l) == d.minus(l).minus(n),
{
    let env = seq![d, l, n];
    let lhs = ring::v(0).minus(ring::v(2)).minus(ring::v(1));
    let rhs = ring::v(0).minus(ring::v(1)).minus(ring::v(2));
    assert forall|ints: Seq<int>| ints.len() == 3 implies #[trigger] lhs.over_int(ints) == rhs.over_int(ints) by {
        reveal_with_fuel(Expr::over_int, 3);
        let (d, l, n) = (ints[0], ints[1], ints[2]);
        assert((d - n) - l == (d - l) - n) by (nonlinear_arith);
    }
    reveal_with_fuel(Expr::over_fe, 3);
    reveal_with_fuel(Expr::below, 3);
    ring::lemma_identity(lhs, rhs, env);
}

/// Both sums have the same second coordinate.
pub proof fn lemma_same_y(d: Fe, l: Fe, n: Fe, e: Fe, m: Fe, t: Fe, w: Fe, x: Fe)
    requires
        d.canonical(),
        l.canonical(),
        n.canonical(),
        e.canonical(),
        m.canonical(),
        t.canonical(),
        w.canonical(),
        x.canonical(),
        d.times(l.minus(n)) == m.minus(t),
        x == d.times(d).minus(Fe::of_int(2).times(d).times(l)).plus(e).plus(m).minus(t),
    ensures
        d.minus(l).times(e.plus(t).minus(x)).minus(w.plus(n.times(t))) == d.minus(n).times(e.plus(m).minus(x)).minus(w.plus(l.times(m))),
{
    broadcast use element::group_canonical;

    let f = d.minus(l).minus(n);
    let y = d.times(f);
    lemma_same_y_value(d, l, n, e, m, t);
    lemma_same_y_factor(d, l, n);
    lemma_same_y_point(e, t, x, w, n);
    lemma_same_y_point(e, m, x, w, n);
    lemma_same_y_start(d.minus(l).times(t.minus(y)), w, n.times(t));
    lemma_same_y_start(d.minus(n).times(m.minus(y)), w, l.times(m));
    lemma_same_y_half(d, l, n, t, y);
    lemma_same_y_half(d, n, l, m, y);
    lemma_flip(d, l, n);
    lemma_same_y_difference(f, t, m, d, l, n, y);
    lemma_same_y_swap(l.minus(n), d, f);
    lemma_same_y_zero(f, t, m);
    laws::lemma_sub_zero(f.times(t).minus(d.minus(l).times(y)), f.times(m).minus(d.minus(n).times(y)));
}

/// A difference of squares.
proof fn lemma_square_difference(y: Fe, w: Fe)
    requires
        y.canonical(),
        w.canonical(),
    ensures
        w.minus(y).times(y.plus(w)) == w.times(w).minus(y.times(y)),
{
    let env = seq![y, w];
    let lhs = ring::v(1).minus(ring::v(0)).times(ring::v(0).plus(ring::v(1)));
    let rhs = ring::v(1).times(ring::v(1)).minus(ring::v(0).times(ring::v(0)));
    assert forall|ints: Seq<int>| ints.len() == 2 implies #[trigger] lhs.over_int(ints) == rhs.over_int(ints) by {
        reveal_with_fuel(Expr::over_int, 3);
        let (y, w) = (ints[0], ints[1]);
        assert((w - y) * (y + w) == (w * w) - (y * y)) by (nonlinear_arith);
    }
    reveal_with_fuel(Expr::over_fe, 3);
    reveal_with_fuel(Expr::below, 3);
    ring::lemma_identity(lhs, rhs, env);
}

/// A difference of values of the cubic.
proof fn lemma_cubic_difference(p: Fe, e: Fe, a: Fe, b: Fe)
    requires
        p.canonical(),
        e.canonical(),
        a.canonical(),
        b.canonical(),
    ensures
        e.times(e).times(e).plus(a.times(e)).plus(b).minus(p.times(p).times(p).plus(a.times(p)).plus(b)) == e.minus(p).times(p.times(p).plus(p.times(e)).plus(e.times(e)).plus(a)),
{
    let env = seq![p, e, a, b];
    let lhs = ring::v(1).times(ring::v(1)).times(ring::v(1)).plus(ring::v(2).times(ring::v(1))).plus(ring::v(3)).minus(ring::v(0).times(ring::v(0)).times(ring::v(0)).plus(ring::v(2).times(ring::v(0))).plus(ring::v(3)));
    let rhs = ring::v(1).minus(ring::v(0)).times(ring::v(0).times(ring::v(0)).plus(ring::v(0).times(ring::v(1))).plus(ring::v(1).times(ring::v(1))).plus(ring::v(2)));
    assert forall|ints: Seq<int>| ints.len() == 4 implies #[trigger] lhs.over_int(ints) == rhs.over_int(ints) by {
        reveal_with_fuel(Expr::over_int, 6);
        let (p, e, a, b) = (ints[0], ints[1], ints[2], ints[3]);
        assert(((((e * e) * e) + (a * e)) + b) - ((((p * p) * p) + (a * p)) + b) == (e - p) * ((((p * p) + (p * e)) + (e * e)) + a)) by (nonlinear_arith);
    }
    reveal_with_fuel(Expr::over_fe, 6);
    reveal_with_fuel(Expr::below, 6);
    ring::lemma_identity(lhs, rhs, env);
}

/// Moving a factor.
proof fn lemma_move_factor(l: Fe, p: Fe, s: Fe)
    requires
        l.canonical(),
        p.canonical(),
        s.canonical(),
    ensures
        p.times(l.times(s)) == l.times(p).times(s),
{
    let env = seq![l, p, s];
    let lhs = ring::v(1).times(ring::v(0).times(ring::v(2)));
    let rhs = ring::v(0).times(ring::v(1)).times(ring::v(2));
    assert forall|ints: Seq<int>| ints.len() == 3 implies #[trigger] lhs.over_int(ints) == rhs.over_int(ints) by {
        reveal_with_fuel(Expr::over_int, 3);
        let (l, p, s) = (ints[0], ints[1], ints[2]);
        assert(p * (l * s) == (l * p) * s) by (nonlinear_arith);
    }
    reveal_with_fuel(Expr::over_fe, 3);
    reveal_with_fuel(Expr::below, 3);
    ring::lemma_identity(lhs, rhs, env);
}

/// The tangent equation of the slope of a chord.
pub proof fn lemma_second_equation(l: Fe, p: Fe, y: Fe, e: Fe, w: Fe, a: Fe, b: Fe)
    requires
        l.canonical(),
        p.canonical(),
        y.canonical(),
        e.canonical(),
        w.canonical(),
        a.canonical(),
        b.canonical(),
        l.times(e.minus(p)) == w.minus(y),
        y.times(y) == p.times(p).times(p).plus(a.times(p)).plus(b),
        w.times(w) == e.times(e).times(e).plus(a.times(e)).plus(b),
        e.minus(p) != Fe::of_int(0),
    ensures
        l.times(y.plus(w)) == p.times(p).plus(p.times(e)).plus(e.times(e)).plus(a),
{
    broadcast use element::group_canonical;

    let s = y.plus(w);
    let c = e.minus(p);
    let v = p.times(p).plus(p.times(e)).plus(e.times(e)).plus(a);
    lemma_move_factor(l, c, s);
    lemma_square_difference(y, w);
    lemma_cubic_difference(p, e, a, b);
    laws::lemma_distribute_sub(c, l.times(s), v);
    laws::lemma_sub_self(c.times(v));
    field::lemma_cancel(c, l.times(s), v);
}

/// The square of the second coordinate.
proof fn lemma_closure_square(l: Fe, s: Fe, w: Fe)
    requires
        l.canonical(),
        s.canonical(),
        w.canonical(),
    ensures
        l.times(s).minus(w).times(l.times(s).minus(w)) == w.times(w).minus(s.times(Fe::of_int(2).times(l).times(w).minus(l.times(l).times(s)))),
{
    let env = seq![l, s, w];
    let lhs = ring::v(0).times(ring::v(1)).minus(ring::v(2)).times(ring::v(0).times(ring::v(1)).minus(ring::v(2)));
    let rhs = ring::v(2).times(ring::v(2)).minus(ring::v(1).times(ring::c(2).times(ring::v(0)).times(ring::v(2)).minus(ring::v(0).times(ring::v(0)).times(ring::v(1)))));
    assert forall|ints: Seq<int>| ints.len() == 3 implies #[trigger] lhs.over_int(ints) == rhs.over_int(ints) by {
        reveal_with_fuel(Expr::over_int, 6);
        let (l, s, w) = (ints[0], ints[1], ints[2]);
        assert(((l * s) - w) * ((l * s) - w) == (w * w) - (s * (((2 * l) * w) - ((l * l) * s)))) by (nonlinear_arith);
    }
    reveal_with_fuel(Expr::over_fe, 6);
    reveal_with_fuel(Expr::below, 6);
    ring::lemma_identity(lhs, rhs, env);
}

/// Subtracting a summand.
proof fn lemma_closure_move(p: Fe, q: Fe)
    requires
        p.canonical(),
        q.canonical(),
    ensures
        p.plus(q).minus(p) == q,
{
    let env = seq![p, q];
    let lhs = ring::v(0).plus(ring::v(1)).minus(ring::v(0));
    let rhs = ring::v(1);
    assert forall|ints: Seq<int>| ints.len() == 2 implies #[trigger] lhs.over_int(ints) == rhs.over_int(ints) by {
        reveal_with_fuel(Expr::over_int, 3);
        let (p, q) = (ints[0], ints[1]);
        assert((p + q) - p == q) by (nonlinear_arith);
    }
    reveal_with_fuel(Expr::over_fe, 3);
    reveal_with_fuel(Expr::below, 3);
    ring::lemma_identity(lhs, rhs, env);
}

/// Subtracting a difference.
proof fn lemma_closure_end(p: Fe, b: Fe, q: Fe)
    requires
        p.canonical(),
        b.canonical(),
        q.canonical(),
    ensures
        p.plus(b).minus(p.plus(b).minus(q.plus(b))) == q.plus(b),
{
    let env = seq![p, b, q];
    let lhs = ring::v(0).plus(ring::v(1)).minus(ring::v(0).plus(ring::v(1)).minus(ring::v(2).plus(ring::v(1))));
    let rhs = ring::v(2).plus(ring::v(1));
    assert forall|ints: Seq<int>| ints.len() == 3 implies #[trigger] lhs.over_int(ints) == rhs.over_int(ints) by {
        reveal_with_fuel(Expr::over_int, 4);
        let (p, b, q) = (ints[0], ints[1], ints[2]);
        assert((p + b) - ((p + b) - (q + b)) == q + b) by (nonlinear_arith);
    }
    reveal_with_fuel(Expr::over_fe, 4);
    reveal_with_fuel(Expr::below, 4);
    ring::lemma_identity(lhs, rhs, env);
}

/// The sum of two points lies on the curve.
pub proof fn lemma_closure(l: Fe, w: Fe, e: Fe, a: Fe, b: Fe, s: Fe, x: Fe, y: Fe, q: Fe)
    requires
        l.canonical(),
        w.canonical(),
        e.canonical(),
        a.canonical(),
        b.canonical(),
        s.canonical(),
        x.canonical(),
        y.canonical(),
        q.canonical(),
        w.times(w) == e.times(e).times(e).plus(a.times(e)).plus(b),
        q.times(s).plus(e.minus(s).times(e.minus(s))).plus(e.minus(s).times(e)).plus(e.times(e)).plus(a) == Fe::of_int(2).times(l).times(w),
        x == e.minus(s),
        y == l.times(s).minus(w),
        q == l.times(l),
    ensures
        y.times(y) == x.times(x).times(x).plus(a.times(x)).plus(b),
{
    broadcast use element::group_canonical;

    let v = x.times(x).plus(x.times(e)).plus(e.times(e)).plus(a);
    lemma_closure_square(l, s, w);
    lemma_closure_gather(q.times(s), x.times(x), x.times(e), e.times(e), a);
    lemma_closure_move(q.times(s), v);
    lemma_cubic_difference(x, e, a, b);
    lemma_closure_side(e, s);
    lemma_closure_end(e.times(e).times(e).plus(a.times(e)), b, x.times(x).times(x).plus(a.times(x)));
}

/// Reordering a sum.
proof fn lemma_closure_gather(p: Fe, q: Fe, r: Fe, s: Fe, a: Fe)
    requires
        p.canonical(),
        q.canonical(),
        r.canonical(),
        s.canonical(),
        a.canonical(),
    ensures
        p.plus(q).plus(r).plus(s).plus(a) == p.plus(q.plus(r).plus(s).plus(a)),
{
    let env = seq![p, q, r, s, a];
    let lhs = ring::v(0).plus(ring::v(1)).plus(ring::v(2)).plus(ring::v(3)).plus(ring::v(4));
    let rhs = ring::v(0).plus(ring::v(1).plus(ring::v(2)).plus(ring::v(3)).plus(ring::v(4)));
    assert forall|ints: Seq<int>| ints.len() == 5 implies #[trigger] lhs.over_int(ints) == rhs.over_int(ints) by {
        reveal_with_fuel(Expr::over_int, 5);
        let (p, q, r, s, a) = (ints[0], ints[1], ints[2], ints[3], ints[4]);
        assert((((p + q) + r) + s) + a == p + (((q + r) + s) + a)) by (nonlinear_arith);
    }
    reveal_with_fuel(Expr::over_fe, 5);
    reveal_with_fuel(Expr::below, 5);
    ring::lemma_identity(lhs, rhs, env);
}

/// Subtracting a difference.
proof fn lemma_closure_side(e: Fe, s: Fe)
    requires
        e.canonical(),
        s.canonical(),
    ensures
        e.minus(e.minus(s)) == s,
{
    let env = seq![e, s];
    let lhs = ring::v(0).minus(ring::v(0).minus(ring::v(1)));
    let rhs = ring::v(1);
    assert forall|ints: Seq<int>| ints.len() == 2 implies #[trigger] lhs.over_int(ints) == rhs.over_int(ints) by {
        reveal_with_fuel(Expr::over_int, 3);
        let (e, s) = (ints[0], ints[1]);
        assert(e - (e - s) == s) by (nonlinear_arith);
    }
    reveal_with_fuel(Expr::over_fe, 3);
    reveal_with_fuel(Expr::below, 3);
    ring::lemma_identity(lhs, rhs, env);
}

} // verus!
