//! The septic extension is a commutative ring.
use crate::algebra::element;
use crate::algebra::element::Fe;
use crate::algebra::ring;
use crate::algebra::ring::Expr;
use vstd::prelude::*;

verus! {

/// Addition commutes.
pub proof fn lemma_add_comm(a: Fe, b: Fe)
    requires
        a.canonical(),
        b.canonical(),
    ensures
        a.plus(b) == b.plus(a),
{
    let env = seq![a, b];
    let lhs = ring::v(0).plus(ring::v(1));
    let rhs = ring::v(1).plus(ring::v(0));
    assert forall|ints: Seq<int>| ints.len() == 2 implies #[trigger] lhs.over_int(ints) == rhs.over_int(ints) by {
        reveal_with_fuel(Expr::over_int, 2);
        let (a, b) = (ints[0], ints[1]);
        assert(a + b == b + a) by (nonlinear_arith);
    }
    reveal_with_fuel(Expr::over_fe, 2);
    reveal_with_fuel(Expr::below, 2);
    ring::lemma_identity(lhs, rhs, env);
}

/// Addition associates.
pub proof fn lemma_add_assoc(a: Fe, b: Fe, c: Fe)
    requires
        a.canonical(),
        b.canonical(),
        c.canonical(),
    ensures
        a.plus(b).plus(c) == a.plus(b.plus(c)),
{
    let env = seq![a, b, c];
    let lhs = ring::v(0).plus(ring::v(1)).plus(ring::v(2));
    let rhs = ring::v(0).plus(ring::v(1).plus(ring::v(2)));
    assert forall|ints: Seq<int>| ints.len() == 3 implies #[trigger] lhs.over_int(ints) == rhs.over_int(ints) by {
        reveal_with_fuel(Expr::over_int, 3);
        let (a, b, c) = (ints[0], ints[1], ints[2]);
        assert((a + b) + c == a + (b + c)) by (nonlinear_arith);
    }
    reveal_with_fuel(Expr::over_fe, 3);
    reveal_with_fuel(Expr::below, 3);
    ring::lemma_identity(lhs, rhs, env);
}

/// Multiplication commutes.
pub proof fn lemma_mul_comm(a: Fe, b: Fe)
    requires
        a.canonical(),
        b.canonical(),
    ensures
        a.times(b) == b.times(a),
{
    let env = seq![a, b];
    let lhs = ring::v(0).times(ring::v(1));
    let rhs = ring::v(1).times(ring::v(0));
    assert forall|ints: Seq<int>| ints.len() == 2 implies #[trigger] lhs.over_int(ints) == rhs.over_int(ints) by {
        reveal_with_fuel(Expr::over_int, 2);
        let (a, b) = (ints[0], ints[1]);
        assert(a * b == b * a) by (nonlinear_arith);
    }
    reveal_with_fuel(Expr::over_fe, 2);
    reveal_with_fuel(Expr::below, 2);
    ring::lemma_identity(lhs, rhs, env);
}

/// Multiplication associates.
pub proof fn lemma_mul_assoc(a: Fe, b: Fe, c: Fe)
    requires
        a.canonical(),
        b.canonical(),
        c.canonical(),
    ensures
        a.times(b).times(c) == a.times(b.times(c)),
{
    let env = seq![a, b, c];
    let lhs = ring::v(0).times(ring::v(1)).times(ring::v(2));
    let rhs = ring::v(0).times(ring::v(1).times(ring::v(2)));
    assert forall|ints: Seq<int>| ints.len() == 3 implies #[trigger] lhs.over_int(ints) == rhs.over_int(ints) by {
        reveal_with_fuel(Expr::over_int, 3);
        let (a, b, c) = (ints[0], ints[1], ints[2]);
        assert((a * b) * c == a * (b * c)) by (nonlinear_arith);
    }
    reveal_with_fuel(Expr::over_fe, 3);
    reveal_with_fuel(Expr::below, 3);
    ring::lemma_identity(lhs, rhs, env);
}

/// Multiplication distributes over addition.
pub proof fn lemma_distribute(a: Fe, b: Fe, c: Fe)
    requires
        a.canonical(),
        b.canonical(),
        c.canonical(),
    ensures
        a.times(b.plus(c)) == a.times(b).plus(a.times(c)),
{
    let env = seq![a, b, c];
    let lhs = ring::v(0).times(ring::v(1).plus(ring::v(2)));
    let rhs = ring::v(0).times(ring::v(1)).plus(ring::v(0).times(ring::v(2)));
    assert forall|ints: Seq<int>| ints.len() == 3 implies #[trigger] lhs.over_int(ints) == rhs.over_int(ints) by {
        reveal_with_fuel(Expr::over_int, 3);
        let (a, b, c) = (ints[0], ints[1], ints[2]);
        assert(a * (b + c) == (a * b) + (a * c)) by (nonlinear_arith);
    }
    reveal_with_fuel(Expr::over_fe, 3);
    reveal_with_fuel(Expr::below, 3);
    ring::lemma_identity(lhs, rhs, env);
}

/// Multiplication distributes over addition on the left.
pub proof fn lemma_distribute_left(a: Fe, b: Fe, c: Fe)
    requires
        a.canonical(),
        b.canonical(),
        c.canonical(),
    ensures
        a.plus(b).times(c) == a.times(c).plus(b.times(c)),
{
    let env = seq![a, b, c];
    let lhs = ring::v(0).plus(ring::v(1)).times(ring::v(2));
    let rhs = ring::v(0).times(ring::v(2)).plus(ring::v(1).times(ring::v(2)));
    assert forall|ints: Seq<int>| ints.len() == 3 implies #[trigger] lhs.over_int(ints) == rhs.over_int(ints) by {
        reveal_with_fuel(Expr::over_int, 3);
        let (a, b, c) = (ints[0], ints[1], ints[2]);
        assert((a + b) * c == (a * c) + (b * c)) by (nonlinear_arith);
    }
    reveal_with_fuel(Expr::over_fe, 3);
    reveal_with_fuel(Expr::below, 3);
    ring::lemma_identity(lhs, rhs, env);
}

/// Multiplication distributes over subtraction.
pub proof fn lemma_distribute_sub(a: Fe, b: Fe, c: Fe)
    requires
        a.canonical(),
        b.canonical(),
        c.canonical(),
    ensures
        a.times(b.minus(c)) == a.times(b).minus(a.times(c)),
{
    let env = seq![a, b, c];
    let lhs = ring::v(0).times(ring::v(1).minus(ring::v(2)));
    let rhs = ring::v(0).times(ring::v(1)).minus(ring::v(0).times(ring::v(2)));
    assert forall|ints: Seq<int>| ints.len() == 3 implies #[trigger] lhs.over_int(ints) == rhs.over_int(ints) by {
        reveal_with_fuel(Expr::over_int, 3);
        let (a, b, c) = (ints[0], ints[1], ints[2]);
        assert(a * (b - c) == (a * b) - (a * c)) by (nonlinear_arith);
    }
    reveal_with_fuel(Expr::over_fe, 3);
    reveal_with_fuel(Expr::below, 3);
    ring::lemma_identity(lhs, rhs, env);
}

/// One is neutral for multiplication.
pub proof fn lemma_mul_one(a: Fe)
    requires
        a.canonical(),
    ensures
        a.times(Fe::of_int(1)) == a,
{
    let env = seq![a];
    let lhs = ring::v(0).times(ring::c(1));
    let rhs = ring::v(0);
    assert forall|ints: Seq<int>| ints.len() == 1 implies #[trigger] lhs.over_int(ints) == rhs.over_int(ints) by {
        reveal_with_fuel(Expr::over_int, 2);
        let a = ints[0];
        assert(a * 1 == a) by (nonlinear_arith);
    }
    reveal_with_fuel(Expr::over_fe, 2);
    reveal_with_fuel(Expr::below, 2);
    ring::lemma_identity(lhs, rhs, env);
}

/// Zero is neutral for addition.
pub proof fn lemma_add_zero(a: Fe)
    requires
        a.canonical(),
    ensures
        a.plus(Fe::of_int(0)) == a,
{
    let env = seq![a];
    let lhs = ring::v(0).plus(ring::c(0));
    let rhs = ring::v(0);
    assert forall|ints: Seq<int>| ints.len() == 1 implies #[trigger] lhs.over_int(ints) == rhs.over_int(ints) by {
        reveal_with_fuel(Expr::over_int, 2);
        let a = ints[0];
        assert(a + 0 == a) by (nonlinear_arith);
    }
    reveal_with_fuel(Expr::over_fe, 2);
    reveal_with_fuel(Expr::below, 2);
    ring::lemma_identity(lhs, rhs, env);
}

/// Zero annihilates.
pub proof fn lemma_mul_zero(a: Fe)
    requires
        a.canonical(),
    ensures
        a.times(Fe::of_int(0)) == Fe::of_int(0),
{
    let env = seq![a];
    let lhs = ring::v(0).times(ring::c(0));
    let rhs = ring::c(0);
    assert forall|ints: Seq<int>| ints.len() == 1 implies #[trigger] lhs.over_int(ints) == rhs.over_int(ints) by {
        reveal_with_fuel(Expr::over_int, 2);
        let a = ints[0];
        assert(a * 0 == 0) by (nonlinear_arith);
    }
    reveal_with_fuel(Expr::over_fe, 2);
    reveal_with_fuel(Expr::below, 2);
    ring::lemma_identity(lhs, rhs, env);
}

/// Subtracting a difference.
pub proof fn lemma_sub_sub(a: Fe, b: Fe)
    requires
        a.canonical(),
        b.canonical(),
    ensures
        a.minus(a.minus(b)) == b,
{
    let env = seq![a, b];
    let lhs = ring::v(0).minus(ring::v(0).minus(ring::v(1)));
    let rhs = ring::v(1);
    assert forall|ints: Seq<int>| ints.len() == 2 implies #[trigger] lhs.over_int(ints) == rhs.over_int(ints) by {
        reveal_with_fuel(Expr::over_int, 3);
        let (a, b) = (ints[0], ints[1]);
        assert(a - (a - b) == b) by (nonlinear_arith);
    }
    reveal_with_fuel(Expr::over_fe, 3);
    reveal_with_fuel(Expr::below, 3);
    ring::lemma_identity(lhs, rhs, env);
}

/// Subtracting zero.
pub proof fn lemma_sub_zero_right(a: Fe)
    requires
        a.canonical(),
    ensures
        a.minus(Fe::of_int(0)) == a,
{
    let env = seq![a];
    let lhs = ring::v(0).minus(ring::c(0));
    let rhs = ring::v(0);
    assert forall|ints: Seq<int>| ints.len() == 1 implies #[trigger] lhs.over_int(ints) == rhs.over_int(ints) by {
        reveal_with_fuel(Expr::over_int, 2);
        let a = ints[0];
        assert(a - 0 == a) by (nonlinear_arith);
    }
    reveal_with_fuel(Expr::over_fe, 2);
    reveal_with_fuel(Expr::below, 2);
    ring::lemma_identity(lhs, rhs, env);
}

/// A difference of equals is zero.
pub proof fn lemma_sub_self(a: Fe)
    requires
        a.canonical(),
    ensures
        a.minus(a) == Fe::of_int(0),
{
    let env = seq![a];
    let lhs = ring::v(0).minus(ring::v(0));
    let rhs = ring::c(0);
    assert forall|ints: Seq<int>| ints.len() == 1 implies #[trigger] lhs.over_int(ints) == rhs.over_int(ints) by {
        reveal_with_fuel(Expr::over_int, 2);
        let a = ints[0];
        assert(a - a == 0) by (nonlinear_arith);
    }
    reveal_with_fuel(Expr::over_fe, 2);
    reveal_with_fuel(Expr::below, 2);
    ring::lemma_identity(lhs, rhs, env);
}

/// Subtraction is undone by addition.
pub proof fn lemma_sub_add(a: Fe, b: Fe)
    requires
        a.canonical(),
        b.canonical(),
    ensures
        a.minus(b).plus(b) == a,
{
    let env = seq![a, b];
    let lhs = ring::v(0).minus(ring::v(1)).plus(ring::v(1));
    let rhs = ring::v(0);
    assert forall|ints: Seq<int>| ints.len() == 2 implies #[trigger] lhs.over_int(ints) == rhs.over_int(ints) by {
        reveal_with_fuel(Expr::over_int, 3);
        let (a, b) = (ints[0], ints[1]);
        assert((a - b) + b == a) by (nonlinear_arith);
    }
    reveal_with_fuel(Expr::over_fe, 3);
    reveal_with_fuel(Expr::below, 3);
    ring::lemma_identity(lhs, rhs, env);
}

/// Addition is undone by subtraction.
pub proof fn lemma_add_sub(a: Fe, b: Fe)
    requires
        a.canonical(),
        b.canonical(),
    ensures
        a.plus(b).minus(b) == a,
{
    let env = seq![a, b];
    let lhs = ring::v(0).plus(ring::v(1)).minus(ring::v(1));
    let rhs = ring::v(0);
    assert forall|ints: Seq<int>| ints.len() == 2 implies #[trigger] lhs.over_int(ints) == rhs.over_int(ints) by {
        reveal_with_fuel(Expr::over_int, 3);
        let (a, b) = (ints[0], ints[1]);
        assert((a + b) - b == a) by (nonlinear_arith);
    }
    reveal_with_fuel(Expr::over_fe, 3);
    reveal_with_fuel(Expr::below, 3);
    ring::lemma_identity(lhs, rhs, env);
}

/// Elements with difference zero are equal.
pub proof fn lemma_sub_zero(a: Fe, b: Fe)
    requires
        a.canonical(),
        b.canonical(),
        a.minus(b) == Fe::of_int(0),
    ensures
        a == b,
{
    lemma_sub_add(a, b);
    element::lemma_of_int_canonical(0);
    lemma_add_comm(Fe::of_int(0), b);
    lemma_add_zero(b);
}

} // verus!
