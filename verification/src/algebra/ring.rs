//! Polynomial identities of the integers hold in the septic extension.
//!
//! An [`Expr`] is a formula in the ring operations.  Two formulas that agree for every
//! assignment of integers agree for every assignment of field elements: see
//! [`lemma_identity`].
use crate::algebra::element;
use crate::algebra::element::Fe;
use vstd::prelude::*;

verus! {

/// A formula built from variables, integer constants, sums, differences and products.
pub enum Expr {
    Var(nat),
    Const(int),
    Add(Box<Expr>, Box<Expr>),
    Sub(Box<Expr>, Box<Expr>),
    Mul(Box<Expr>, Box<Expr>),
}

/// The variable with index `i`.
pub open spec fn v(i: nat) -> Expr {
    Expr::Var(i)
}

/// The constant `k`.
pub open spec fn c(k: int) -> Expr {
    Expr::Const(k)
}

impl Expr {
    pub open spec fn plus(self, other: Expr) -> Expr {
        Expr::Add(Box::new(self), Box::new(other))
    }

    pub open spec fn minus(self, other: Expr) -> Expr {
        Expr::Sub(Box::new(self), Box::new(other))
    }

    pub open spec fn times(self, other: Expr) -> Expr {
        Expr::Mul(Box::new(self), Box::new(other))
    }

    /// The value over the integers.
    pub open spec fn over_int(self, env: Seq<int>) -> int
        decreases self,
    {
        match self {
            Expr::Var(i) => env[i as int],
            Expr::Const(c) => c,
            Expr::Add(a, b) => a.over_int(env) + b.over_int(env),
            Expr::Sub(a, b) => a.over_int(env) - b.over_int(env),
            Expr::Mul(a, b) => a.over_int(env) * b.over_int(env),
        }
    }

    /// The value in the field.
    pub open spec fn over_fe(self, env: Seq<Fe>) -> Fe
        decreases self,
    {
        match self {
            Expr::Var(i) => env[i as int],
            Expr::Const(c) => Fe::of_int(c),
            Expr::Add(a, b) => a.over_fe(env).plus(b.over_fe(env)),
            Expr::Sub(a, b) => a.over_fe(env).minus(b.over_fe(env)),
            Expr::Mul(a, b) => a.over_fe(env).times(b.over_fe(env)),
        }
    }

    /// Every variable has an index below `n`.
    pub open spec fn below(self, n: nat) -> bool
        decreases self,
    {
        match self {
            Expr::Var(i) => i < n,
            Expr::Const(_) => true,
            Expr::Add(a, b) => a.below(n) && b.below(n),
            Expr::Sub(a, b) => a.below(n) && b.below(n),
            Expr::Mul(a, b) => a.below(n) && b.below(n),
        }
    }

    /// The value as a polynomial in `z`.
    spec fn over_poly(self, env: Seq<Fe>) -> Seq<int>
        decreases self,
    {
        match self {
            Expr::Var(i) => lift(env[i as int]),
            Expr::Const(c) => seq![c],
            Expr::Add(a, b) => poly_add(a.over_poly(env), b.over_poly(env)),
            Expr::Sub(a, b) => poly_add(a.over_poly(env), poly_scale(-1, b.over_poly(env))),
            Expr::Mul(a, b) => poly_mul(a.over_poly(env), b.over_poly(env)),
        }
    }
}

spec fn poly_add(s: Seq<int>, t: Seq<int>) -> Seq<int>
    decreases s.len(),
{
    if s.len() == 0 {
        t
    } else if t.len() == 0 {
        s
    } else {
        seq![s[0] + t[0]] + poly_add(s.drop_first(), t.drop_first())
    }
}

spec fn poly_scale(c: int, s: Seq<int>) -> Seq<int>
    decreases s.len(),
{
    if s.len() == 0 {
        s
    } else {
        seq![c * s[0]] + poly_scale(c, s.drop_first())
    }
}

spec fn poly_mul(s: Seq<int>, t: Seq<int>) -> Seq<int>
    decreases s.len(),
{
    if s.len() == 0 {
        seq![]
    } else {
        poly_add(poly_scale(s[0], t), seq![0] + poly_mul(s.drop_first(), t))
    }
}

/// The polynomial evaluated at the integer `z`.
spec fn at(s: Seq<int>, z: int) -> int
    decreases s.len(),
{
    if s.len() == 0 {
        0
    } else {
        s[0] + z * at(s.drop_first(), z)
    }
}

/// The polynomial reduced by `z^7 = 3 z + 5`.
spec fn class(s: Seq<int>) -> Fe
    decreases s.len(),
{
    if s.len() == 0 {
        Fe::zero()
    } else {
        element::raw_add(element::raw_const(s[0]), element::raw_shift(class(s.drop_first())))
    }
}

/// The coefficients of an element as a polynomial.
spec fn lift(a: Fe) -> Seq<int> {
    seq![a.c0, a.c1, a.c2, a.c3, a.c4, a.c5, a.c6]
}

proof fn lemma_cons(c: int, s: Seq<int>)
    ensures
        (seq![c] + s).drop_first() == s,
        (seq![c] + s)[0] == c,
        (seq![c] + s).len() == s.len() + 1,
{
}

proof fn lemma_add(s: Seq<int>, t: Seq<int>, z: int)
    ensures
        at(poly_add(s, t), z) == at(s, z) + at(t, z),
        class(poly_add(s, t)) == element::raw_add(class(s), class(t)),
    decreases s.len(),
{
    if s.len() > 0 && t.len() > 0 {
        let u = s.drop_first();
        let v = t.drop_first();
        lemma_add(u, v, z);
        lemma_cons(s[0] + t[0], poly_add(u, v));
        vstd::arithmetic::mul::lemma_mul_is_distributive_add(z, at(u, z), at(v, z));
    }
}

proof fn lemma_scale(c: int, s: Seq<int>, z: int)
    ensures
        at(poly_scale(c, s), z) == c * at(s, z),
        class(poly_scale(c, s)) == element::raw_scale(c, class(s)),
    decreases s.len(),
{
    if s.len() > 0 {
        let u = s.drop_first();
        lemma_scale(c, u, z);
        lemma_cons(c * s[0], poly_scale(c, u));
        vstd::arithmetic::mul::lemma_mul_is_distributive_add(c, s[0], z * at(u, z));
        assert(c * (z * at(u, z)) == z * (c * at(u, z))) by (nonlinear_arith);
        element::lemma_raw_shift_scale(c, class(u));
        element::lemma_raw_scale_of_add(
            c,
            element::raw_const(s[0]),
            element::raw_shift(class(u)),
        );
    }
}

proof fn lemma_mul(s: Seq<int>, t: Seq<int>, z: int)
    ensures
        at(poly_mul(s, t), z) == at(s, z) * at(t, z),
        class(poly_mul(s, t)) == element::raw_mul(class(s), class(t)),
    decreases s.len(),
{
    if s.len() == 0 {
        assert(class(s) == Fe::zero());
        element::lemma_raw_mul_scale(0, Fe::zero(), class(t));
    } else {
        let u = s.drop_first();
        let rest = poly_mul(u, t);
        lemma_mul(u, t, z);
        lemma_scale(s[0], t, z);
        lemma_cons(0, rest);
        lemma_add(poly_scale(s[0], t), seq![0] + rest, z);
        assert((s[0] + z * at(u, z)) * at(t, z) == s[0] * at(t, z) + z * (at(u, z) * at(t, z)))
            by (nonlinear_arith);
        element::lemma_raw_mul_horner(s[0], class(u), class(t));
    }
}

/// A polynomial without values other than zero has no coefficients other than zero.
proof fn lemma_vanishing(s: Seq<int>)
    requires
        forall|z: int| z >= 1 ==> #[trigger] at(s, z) == 0,
    ensures
        class(s) == Fe::zero(),
    decreases s.len(),
{
    if s.len() > 0 {
        let c = s[0];
        let u = s.drop_first();
        let z0: int = if c >= 0 {
            c + 1
        } else {
            1 - c
        };
        assert(at(s, z0) == 0);
        let k = at(u, z0);
        assert(c == 0) by (nonlinear_arith)
            requires
                c + z0 * k == 0,
                -z0 < c < z0,
        ;
        assert forall|z: int| z >= 1 implies #[trigger] at(u, z) == 0 by {
            assert(at(s, z) == 0);
            let w = at(u, z);
            assert(w == 0) by (nonlinear_arith)
                requires
                    z >= 1,
                    z * w == 0,
            ;
        }
        lemma_vanishing(u);
    }
}

proof fn lemma_lift(a: Fe)
    ensures
        class(lift(a)) == a,
{
    reveal_with_fuel(class, 8);
    let s = lift(a);
    assert(s.drop_first() == seq![a.c1, a.c2, a.c3, a.c4, a.c5, a.c6]);
    assert(s.drop_first().drop_first() == seq![a.c2, a.c3, a.c4, a.c5, a.c6]);
    assert(seq![a.c2, a.c3, a.c4, a.c5, a.c6].drop_first() == seq![a.c3, a.c4, a.c5, a.c6]);
    assert(seq![a.c3, a.c4, a.c5, a.c6].drop_first() == seq![a.c4, a.c5, a.c6]);
    assert(seq![a.c4, a.c5, a.c6].drop_first() == seq![a.c5, a.c6]);
    assert(seq![a.c5, a.c6].drop_first() == seq![a.c6]);
    assert(seq![a.c6].drop_first() == Seq::<int>::empty());
}

/// The polynomial of a formula has the right class, and evaluates as the formula does.
proof fn lemma_poly(e: Expr, env: Seq<Fe>, z: int)
    requires
        e.below(env.len()),
        forall|i: int| 0 <= i < env.len() ==> (#[trigger] env[i]).canonical(),
    ensures
        e.over_fe(env) == class(e.over_poly(env)).reduced(),
        at(e.over_poly(env), z) == e.over_int(env.map_values(|a: Fe| at(lift(a), z))),
    decreases e,
{
    reveal(Fe::of_int);
    reveal(Fe::plus);
    reveal(Fe::minus);
    reveal(Fe::times);
    match e {
        Expr::Var(i) => {
            let a = env[i as int];
            lemma_lift(a);
            element::lemma_canonical_reduced(a);
        },
        Expr::Const(c) => {
            reveal_with_fuel(class, 2);
            reveal_with_fuel(at, 2);
            assert(seq![c].drop_first() == Seq::<int>::empty());
        },
        Expr::Add(a, b) => {
            lemma_poly(*a, env, z);
            lemma_poly(*b, env, z);
            lemma_add(a.over_poly(env), b.over_poly(env), z);
            element::lemma_reduced_linear(class(a.over_poly(env)), class(b.over_poly(env)));
        },
        Expr::Sub(a, b) => {
            lemma_poly(*a, env, z);
            lemma_poly(*b, env, z);
            lemma_scale(-1, b.over_poly(env), z);
            lemma_add(a.over_poly(env), poly_scale(-1, b.over_poly(env)), z);
            element::lemma_reduced_linear(class(a.over_poly(env)), class(b.over_poly(env)));
        },
        Expr::Mul(a, b) => {
            lemma_poly(*a, env, z);
            lemma_poly(*b, env, z);
            lemma_mul(a.over_poly(env), b.over_poly(env), z);
            element::lemma_reduced_mul(class(a.over_poly(env)), class(b.over_poly(env)));
        },
    }
}

/// An identity between formulas that holds for all integers holds for all field elements.
pub proof fn lemma_identity(e: Expr, f: Expr, env: Seq<Fe>)
    requires
        e.below(env.len()),
        f.below(env.len()),
        forall|i: int| 0 <= i < env.len() ==> (#[trigger] env[i]).canonical(),
        forall|ints: Seq<int>|
            ints.len() == env.len() ==> #[trigger] e.over_int(ints) == f.over_int(ints),
    ensures
        e.over_fe(env) == f.over_fe(env),
{
    let s = e.over_poly(env);
    let t = f.over_poly(env);
    let d = poly_add(s, poly_scale(-1, t));
    assert forall|z: int| z >= 1 implies #[trigger] at(d, z) == 0 by {
        let ints = env.map_values(|a: Fe| at(lift(a), z));
        lemma_poly(e, env, z);
        lemma_poly(f, env, z);
        assert(e.over_int(ints) == f.over_int(ints));
        lemma_scale(-1, t, z);
        lemma_add(s, poly_scale(-1, t), z);
    }
    lemma_vanishing(d);
    lemma_poly(e, env, 1);
    lemma_poly(f, env, 1);
    lemma_scale(-1, t, 1);
    lemma_add(s, poly_scale(-1, t), 1);
    assert(class(s) == class(t));
}

} // verus!
