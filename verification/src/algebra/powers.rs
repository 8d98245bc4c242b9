//! Powers of field elements, and the sum of two `p`-th powers.
use crate::algebra::element;
use crate::algebra::element::Fe;
use crate::algebra::laws;
use crate::algebra::number;
use crate::algebra::ring;
use crate::algebra::ring::Expr;
use vstd::arithmetic::div_mod;
use vstd::arithmetic::mul;
use vstd::arithmetic::power;
use vstd::prelude::*;

verus! {

impl Fe {
    /// `self` multiplied with itself `n` times.
    pub open spec fn power(self, n: nat) -> Fe
        decreases n,
    {
        if n == 0 {
            Fe::one()
        } else {
            self.times(self.power((n - 1) as nat))
        }
    }
}

/// Powers are canonical.
pub broadcast proof fn lemma_power_canonical(x: Fe, n: nat)
    ensures
        #[trigger] x.power(n).canonical(),
{
    element::lemma_constants(x);
    element::lemma_times_canonical(x, x.power((n - 1) as nat));
}

/// The first powers.
pub proof fn lemma_power_small(x: Fe)
    requires
        x.canonical(),
    ensures
        x.power(0) == Fe::one(),
        x.power(1) == x,
        x.power(2) == x.times(x),
{
    reveal_with_fuel(Fe::power, 3);
    element::lemma_constants(x);
    laws::lemma_mul_one(x);
}

/// Powers of one base multiply by adding the exponents.
pub proof fn lemma_power_add(x: Fe, m: nat, n: nat)
    requires
        x.canonical(),
    ensures
        x.power(m + n) == x.power(m).times(x.power(n)),
    decreases m,
{
    broadcast use lemma_power_canonical;

    element::lemma_constants(x);
    if m == 0 {
        laws::lemma_mul_one(x.power(n));
        laws::lemma_mul_comm(x.power(n), Fe::one());
    } else {
        let k = (m - 1) as nat;
        lemma_power_add(x, k, n);
        assert((m + n - 1) as nat == k + n);
        laws::lemma_mul_assoc(x, x.power(k), x.power(n));
    }
}

/// A power of a power multiplies the exponents.
pub proof fn lemma_power_mul(x: Fe, m: nat, n: nat)
    requires
        x.canonical(),
    ensures
        x.power(m * n) == x.power(m).power(n),
    decreases n,
{
    if n == 0 {
        assert(m * n == 0) by (nonlinear_arith)
            requires
                n == 0,
        ;
    } else {
        let k = (n - 1) as nat;
        lemma_power_mul(x, m, k);
        assert(m * n == m + m * k) by (nonlinear_arith)
            requires
                n == k + 1,
        ;
        lemma_power_add(x, m, m * k);
    }
}

/// Four factors regrouped.
proof fn lemma_four(a: Fe, b: Fe, c: Fe, d: Fe)
    requires
        a.canonical(),
        b.canonical(),
        c.canonical(),
        d.canonical(),
    ensures
        a.times(b).times(c.times(d)) == a.times(c).times(b.times(d)),
{
    let env = seq![a, b, c, d];
    let lhs = ring::v(0).times(ring::v(1)).times(ring::v(2).times(ring::v(3)));
    let rhs = ring::v(0).times(ring::v(2)).times(ring::v(1).times(ring::v(3)));
    assert forall|ints: Seq<int>| ints.len() == 4 implies #[trigger] lhs.over_int(ints) == rhs.over_int(ints) by {
        reveal_with_fuel(Expr::over_int, 3);
        let (a, b, c, d) = (ints[0], ints[1], ints[2], ints[3]);
        assert((a * b) * (c * d) == (a * c) * (b * d)) by (nonlinear_arith);
    }
    reveal_with_fuel(Expr::over_fe, 3);
    reveal_with_fuel(Expr::below, 3);
    ring::lemma_identity(lhs, rhs, env);
}

/// A power of a product is the product of the powers.
pub proof fn lemma_power_product(x: Fe, y: Fe, n: nat)
    requires
        x.canonical(),
        y.canonical(),
    ensures
        x.times(y).power(n) == x.power(n).times(y.power(n)),
    decreases n,
{
    broadcast use lemma_power_canonical;

    element::lemma_constants(x);
    if n == 0 {
        laws::lemma_mul_one(Fe::one());
    } else {
        let k = (n - 1) as nat;
        lemma_power_product(x, y, k);
        lemma_four(x, y, x.power(k), y.power(k));
    }
}

/// Powers of zero.
pub proof fn lemma_power_zero(n: nat)
    requires
        n > 0,
    ensures
        Fe::zero().power(n) == Fe::zero(),
{
    broadcast use lemma_power_canonical;

    let k = (n - 1) as nat;
    element::lemma_constants(Fe::zero());
    laws::lemma_mul_zero(Fe::zero().power(k));
    laws::lemma_mul_comm(Fe::zero(), Fe::zero().power(k));
}

/// Powers of one.
pub proof fn lemma_power_one(n: nat)
    ensures
        Fe::one().power(n) == Fe::one(),
    decreases n,
{
    element::lemma_constants(Fe::zero());
    if n > 0 {
        lemma_power_one((n - 1) as nat);
        laws::lemma_mul_one(Fe::one());
    }
}

/// Sums and products of classes of integers.
pub proof fn lemma_of_int(a: int, b: int)
    ensures
        Fe::of_int(a + b) == Fe::of_int(a).plus(Fe::of_int(b)),
        Fe::of_int(a * b) == Fe::of_int(a).times(Fe::of_int(b)),
        a % element::prime() == b % element::prime() <==> Fe::of_int(a) == Fe::of_int(b),
{
    reveal(Fe::of_int);
    reveal(Fe::plus);
    reveal(Fe::times);
    element::lemma_reduced_linear(element::raw_const(a), element::raw_const(b));
    element::lemma_reduced_mul(element::raw_const(a), element::raw_const(b));
    assert(element::raw_mul(element::raw_const(a), element::raw_const(b)) == element::raw_const(
        a * b,
    )) by {
        reveal(element::raw_mul);
    }
}

/// Powers of classes of integers.
pub proof fn lemma_of_int_power(a: int, n: nat)
    ensures
        Fe::of_int(a).power(n) == Fe::of_int(power::pow(a, n)),
    decreases n,
{
    reveal(power::pow);
    element::lemma_constants(Fe::zero());
    if n > 0 {
        let k = (n - 1) as nat;
        lemma_of_int_power(a, k);
        lemma_of_int(a, power::pow(a, k));
    }
}

/// The number of ways to choose `k` of `n`.
spec fn choose_count(n: nat, k: nat) -> nat
    decreases n,
{
    if k == 0 {
        1
    } else if n == 0 {
        0
    } else {
        choose_count((n - 1) as nat, (k - 1) as nat) + choose_count((n - 1) as nat, k)
    }
}

proof fn lemma_choose_none(n: nat, k: nat)
    requires
        k > n,
    ensures
        choose_count(n, k) == 0,
    decreases n,
{
    if n > 0 {
        lemma_choose_none((n - 1) as nat, (k - 1) as nat);
        lemma_choose_none((n - 1) as nat, k);
    }
}

/// `k C(n, k) = n C(n - 1, k - 1)`.
proof fn lemma_absorb(n: nat, k: nat)
    requires
        n > 0,
        k > 0,
    ensures
        k * choose_count(n, k) == n * choose_count((n - 1) as nat, (k - 1) as nat),
    decreases n,
{
    let c = choose_count((n - 1) as nat, (k - 1) as nat);
    let d = choose_count((n - 1) as nat, k);
    if n == 1 {
        reveal_with_fuel(choose_count, 3);
        assert(k * choose_count(n, k) == n * c) by (nonlinear_arith)
            requires
                n == 1,
                k == 1 && choose_count(n, k) == 1 && c == 1 || choose_count(n, k) == 0 && c == 0,
        ;
    } else {
        let m = (n - 1) as nat;
        lemma_absorb(m, k);
        let e = choose_count((m - 1) as nat, (k - 1) as nat);
        if k == 1 {
            assert(k * choose_count(n, k) == n * c) by (nonlinear_arith)
                requires
                    k == 1,
                    choose_count(n, k) == c + d,
                    k * d == m * e,
                    e == 1,
                    c == 1,
                    n == m + 1,
            ;
        } else {
            lemma_absorb(m, (k - 1) as nat);
            let g = choose_count((m - 1) as nat, (k - 2) as nat);
            assert(k * choose_count(n, k) == n * c) by (nonlinear_arith)
                requires
                    choose_count(n, k) == c + d,
                    k * d == m * e,
                    (k - 1) * c == m * g,
                    c == g + e,
                    n == m + 1,
            ;
        }
    }
}

/// Inner binomial coefficients of the prime are multiples of it.
proof fn lemma_choose_prime(k: nat)
    requires
        0 < k < element::prime(),
    ensures
        choose_count(element::prime() as nat, k) as int % element::prime() == 0,
{
    let p = element::prime();
    lemma_absorb(p as nat, k);
    let c = choose_count((p - 1) as nat, (k - 1) as nat) as int;
    div_mod::lemma_mod_multiples_basic(c, p);
    mul::lemma_mul_is_commutative(c, p);
    number::lemma_euclid(k as int, choose_count(p as nat, k) as int);
    div_mod::lemma_small_mod(k, p as nat);
}

/// The term of the binomial sum with index `k`.
spec fn term(x: Fe, y: Fe, n: nat, k: nat) -> Fe {
    Fe::of_int(choose_count(n, k) as int).times(x.power(k).times(y.power((n - k) as nat)))
}

/// The terms with index below `m`.
spec fn terms(x: Fe, y: Fe, n: nat, m: nat) -> Fe
    decreases m,
{
    if m == 0 {
        Fe::of_int(0)
    } else {
        terms(x, y, n, (m - 1) as nat).plus(term(x, y, n, (m - 1) as nat))
    }
}

proof fn lemma_terms_canonical(x: Fe, y: Fe, n: nat, m: nat)
    ensures
        terms(x, y, n, m).canonical(),
{
    broadcast use element::group_canonical;

    assert(terms(x, y, n, m) == terms(x, y, n, m));
}

/// A factor moved to the front.
proof fn lemma_move_first(x: Fe, a: Fe, u: Fe, t: Fe)
    requires
        x.canonical(),
        a.canonical(),
        u.canonical(),
        t.canonical(),
    ensures
        a.times(x.times(u).times(t)) == x.times(a.times(u.times(t))),
{
    let env = seq![x, a, u, t];
    let lhs = ring::v(1).times(ring::v(0).times(ring::v(2)).times(ring::v(3)));
    let rhs = ring::v(0).times(ring::v(1).times(ring::v(2).times(ring::v(3))));
    assert forall|ints: Seq<int>| ints.len() == 4 implies #[trigger] lhs.over_int(ints) == rhs.over_int(ints) by {
        reveal_with_fuel(Expr::over_int, 4);
        let (x, a, u, t) = (ints[0], ints[1], ints[2], ints[3]);
        assert(a * ((x * u) * t) == x * (a * (u * t))) by (nonlinear_arith);
    }
    reveal_with_fuel(Expr::over_fe, 4);
    reveal_with_fuel(Expr::below, 4);
    ring::lemma_identity(lhs, rhs, env);
}

/// An inner factor moved to the front.
proof fn lemma_move_last(y: Fe, b: Fe, s: Fe, w: Fe)
    requires
        y.canonical(),
        b.canonical(),
        s.canonical(),
        w.canonical(),
    ensures
        b.times(s.times(y.times(w))) == y.times(b.times(s.times(w))),
{
    let env = seq![y, b, s, w];
    let lhs = ring::v(1).times(ring::v(2).times(ring::v(0).times(ring::v(3))));
    let rhs = ring::v(0).times(ring::v(1).times(ring::v(2).times(ring::v(3))));
    assert forall|ints: Seq<int>| ints.len() == 4 implies #[trigger] lhs.over_int(ints) == rhs.over_int(ints) by {
        reveal_with_fuel(Expr::over_int, 4);
        let (y, b, s, w) = (ints[0], ints[1], ints[2], ints[3]);
        assert(b * (s * (y * w)) == y * (b * (s * w))) by (nonlinear_arith);
    }
    reveal_with_fuel(Expr::over_fe, 4);
    reveal_with_fuel(Expr::below, 4);
    ring::lemma_identity(lhs, rhs, env);
}

/// The sum of the terms so far and the next one.
proof fn lemma_terms_split(x: Fe, y: Fe, s: Fe, t: Fe, a: Fe, b: Fe)
    requires
        x.canonical(),
        y.canonical(),
        s.canonical(),
        t.canonical(),
        a.canonical(),
        b.canonical(),
    ensures
        x.times(s).plus(y.times(t)).plus(x.times(a).plus(y.times(b))) == x.times(s.plus(a)).plus(y.times(t.plus(b))),
{
    let env = seq![x, y, s, t, a, b];
    let lhs = ring::v(0).times(ring::v(2)).plus(ring::v(1).times(ring::v(3))).plus(ring::v(0).times(ring::v(4)).plus(ring::v(1).times(ring::v(5))));
    let rhs = ring::v(0).times(ring::v(2).plus(ring::v(4))).plus(ring::v(1).times(ring::v(3).plus(ring::v(5))));
    assert forall|ints: Seq<int>| ints.len() == 6 implies #[trigger] lhs.over_int(ints) == rhs.over_int(ints) by {
        reveal_with_fuel(Expr::over_int, 4);
        let (x, y, s, t, a, b) = (ints[0], ints[1], ints[2], ints[3], ints[4], ints[5]);
        assert(((x * s) + (y * t)) + ((x * a) + (y * b)) == (x * (s + a)) + (y * (t + b))) by (nonlinear_arith);
    }
    reveal_with_fuel(Expr::over_fe, 4);
    reveal_with_fuel(Expr::below, 4);
    ring::lemma_identity(lhs, rhs, env);
}

/// The first term.
proof fn lemma_first(x: Fe, y: Fe, a: Fe)
    requires
        x.canonical(),
        y.canonical(),
        a.canonical(),
    ensures
        Fe::of_int(0).plus(Fe::of_int(1).times(Fe::of_int(1).times(y.times(a)))) == x.times(Fe::of_int(0)).plus(y.times(Fe::of_int(0).plus(Fe::of_int(1).times(Fe::of_int(1).times(a))))),
{
    let env = seq![x, y, a];
    let lhs = ring::c(0).plus(ring::c(1).times(ring::c(1).times(ring::v(1).times(ring::v(2)))));
    let rhs = ring::v(0).times(ring::c(0)).plus(ring::v(1).times(ring::c(0).plus(ring::c(1).times(ring::c(1).times(ring::v(2))))));
    assert forall|ints: Seq<int>| ints.len() == 3 implies #[trigger] lhs.over_int(ints) == rhs.over_int(ints) by {
        reveal_with_fuel(Expr::over_int, 6);
        let (x, y, a) = (ints[0], ints[1], ints[2]);
        assert(0 + (1 * (1 * (y * a))) == (x * 0) + (y * (0 + (1 * (1 * a))))) by (nonlinear_arith);
    }
    reveal_with_fuel(Expr::over_fe, 6);
    reveal_with_fuel(Expr::below, 6);
    ring::lemma_identity(lhs, rhs, env);
}

/// The last term.
proof fn lemma_last(x: Fe, y: Fe, s: Fe, t: Fe, a: Fe)
    requires
        x.canonical(),
        y.canonical(),
        s.canonical(),
        t.canonical(),
        a.canonical(),
    ensures
        x.times(s).plus(y.times(t)).plus(x.times(a)) == x.times(s.plus(a)).plus(y.times(t)),
{
    let env = seq![x, y, s, t, a];
    let lhs = ring::v(0).times(ring::v(2)).plus(ring::v(1).times(ring::v(3))).plus(ring::v(0).times(ring::v(4)));
    let rhs = ring::v(0).times(ring::v(2).plus(ring::v(4))).plus(ring::v(1).times(ring::v(3)));
    assert forall|ints: Seq<int>| ints.len() == 5 implies #[trigger] lhs.over_int(ints) == rhs.over_int(ints) by {
        reveal_with_fuel(Expr::over_int, 4);
        let (x, y, s, t, a) = (ints[0], ints[1], ints[2], ints[3], ints[4]);
        assert(((x * s) + (y * t)) + (x * a) == (x * (s + a)) + (y * t)) by (nonlinear_arith);
    }
    reveal_with_fuel(Expr::over_fe, 4);
    reveal_with_fuel(Expr::below, 4);
    ring::lemma_identity(lhs, rhs, env);
}

/// The last term, by its powers.
proof fn lemma_last_term(x: Fe, u: Fe)
    requires
        x.canonical(),
        u.canonical(),
    ensures
        Fe::of_int(1).times(x.times(u).times(Fe::of_int(1))) == x.times(Fe::of_int(1).times(u.times(Fe::of_int(1)))),
{
    let env = seq![x, u];
    let lhs = ring::c(1).times(ring::v(0).times(ring::v(1)).times(ring::c(1)));
    let rhs = ring::v(0).times(ring::c(1).times(ring::v(1).times(ring::c(1))));
    assert forall|ints: Seq<int>| ints.len() == 2 implies #[trigger] lhs.over_int(ints) == rhs.over_int(ints) by {
        reveal_with_fuel(Expr::over_int, 4);
        let (x, u) = (ints[0], ints[1]);
        assert(1 * ((x * u) * 1) == x * (1 * (u * 1))) by (nonlinear_arith);
    }
    reveal_with_fuel(Expr::over_fe, 4);
    reveal_with_fuel(Expr::below, 4);
    ring::lemma_identity(lhs, rhs, env);
}

/// A common factor.
proof fn lemma_product_sum(x: Fe, y: Fe, s: Fe)
    requires
        x.canonical(),
        y.canonical(),
        s.canonical(),
    ensures
        x.times(s).plus(y.times(s)) == x.plus(y).times(s),
{
    let env = seq![x, y, s];
    let lhs = ring::v(0).times(ring::v(2)).plus(ring::v(1).times(ring::v(2)));
    let rhs = ring::v(0).plus(ring::v(1)).times(ring::v(2));
    assert forall|ints: Seq<int>| ints.len() == 3 implies #[trigger] lhs.over_int(ints) == rhs.over_int(ints) by {
        reveal_with_fuel(Expr::over_int, 3);
        let (x, y, s) = (ints[0], ints[1], ints[2]);
        assert((x * s) + (y * s) == (x + y) * s) by (nonlinear_arith);
    }
    reveal_with_fuel(Expr::over_fe, 3);
    reveal_with_fuel(Expr::below, 3);
    ring::lemma_identity(lhs, rhs, env);
}

/// A term with coefficient zero.
proof fn lemma_zero_term(s: Fe, a: Fe)
    requires
        s.canonical(),
        a.canonical(),
    ensures
        s.plus(Fe::of_int(0).times(a)) == s,
{
    let env = seq![s, a];
    let lhs = ring::v(0).plus(ring::c(0).times(ring::v(1)));
    let rhs = ring::v(0);
    assert forall|ints: Seq<int>| ints.len() == 2 implies #[trigger] lhs.over_int(ints) == rhs.over_int(ints) by {
        reveal_with_fuel(Expr::over_int, 3);
        let (s, a) = (ints[0], ints[1]);
        assert(s + (0 * a) == s) by (nonlinear_arith);
    }
    reveal_with_fuel(Expr::over_fe, 3);
    reveal_with_fuel(Expr::below, 3);
    ring::lemma_identity(lhs, rhs, env);
}

/// Pascal's rule for one term.
proof fn lemma_term(x: Fe, y: Fe, n: nat, k: nat)
    requires
        x.canonical(),
        y.canonical(),
        1 <= k <= n,
    ensures
        term(x, y, n + 1, k) == x.times(term(x, y, n, (k - 1) as nat)).plus(
            y.times(term(x, y, n, k)),
        ),
{
    broadcast use {element::group_canonical, lemma_power_canonical};

    let a = choose_count(n, (k - 1) as nat) as int;
    let b = choose_count(n, k) as int;
    lemma_of_int(a, b);
    let u = x.power((k - 1) as nat);
    let w = y.power((n - k) as nat);
    assert(x.power(k) == x.times(u));
    assert(((n + 1) - k - 1) as nat == (n - k) as nat);
    assert(y.power(((n + 1) - k) as nat) == y.times(w));
    assert((n - (k - 1)) as nat == ((n + 1) - k) as nat);
    let t = y.times(w);
    let s = x.times(u);
    laws::lemma_distribute_left(Fe::of_int(a), Fe::of_int(b), s.times(t));
    lemma_move_first(x, Fe::of_int(a), u, t);
    lemma_move_last(y, Fe::of_int(b), s, w);
}

/// Pascal's rule for the first `m` terms.
proof fn lemma_terms(x: Fe, y: Fe, n: nat, m: nat)
    requires
        x.canonical(),
        y.canonical(),
        1 <= m <= n + 1,
    ensures
        terms(x, y, n + 1, m) == x.times(terms(x, y, n, (m - 1) as nat)).plus(
            y.times(terms(x, y, n, m)),
        ),
    decreases m,
{
    broadcast use {element::group_canonical, lemma_power_canonical};

    if m == 1 {
        element::lemma_constants(x);
        reveal_with_fuel(terms, 2);
        assert(x.power(0) == Fe::one());
        assert(choose_count(n, 0) == 1 && choose_count(n + 1, 0) == 1);
        assert(((n + 1) - 0) as nat == n + 1);
        assert((n - 0) as nat == n);
        assert(y.power(n + 1) == y.times(y.power(n)));
        lemma_first(x, y, y.power(n));
    } else {
        let k = (m - 1) as nat;
        lemma_terms(x, y, n, k);
        lemma_term(x, y, n, k);
        lemma_terms_canonical(x, y, n, (k - 1) as nat);
        lemma_terms_canonical(x, y, n, k);
        lemma_terms_split(
            x,
            y,
            terms(x, y, n, (k - 1) as nat),
            terms(x, y, n, k),
            term(x, y, n, (k - 1) as nat),
            term(x, y, n, k),
        );
    }
}

proof fn lemma_choose_all(n: nat)
    ensures
        choose_count(n, n) == 1,
    decreases n,
{
    if n > 0 {
        lemma_choose_all((n - 1) as nat);
        lemma_choose_none((n - 1) as nat, n);
    }
}

/// The binomial theorem.
proof fn lemma_binomial(x: Fe, y: Fe, n: nat)
    requires
        x.canonical(),
        y.canonical(),
    ensures
        x.plus(y).power(n) == terms(x, y, n, n + 1),
    decreases n,
{
    broadcast use {element::group_canonical, lemma_power_canonical};

    element::lemma_constants(x);
    if n == 0 {
        reveal_with_fuel(terms, 2);
        laws::lemma_mul_one(Fe::one());
        laws::lemma_add_zero(Fe::one());
        laws::lemma_add_comm(Fe::one(), Fe::zero());
    } else {
        let m = (n - 1) as nat;
        lemma_binomial(x, y, m);
        lemma_terms(x, y, m, n);
        lemma_choose_all(m);
        lemma_choose_all(n);
        assert((n - n) as nat == 0 && (m - m) as nat == 0);
        let u = x.power(m);
        lemma_last_term(x, u);
        assert(term(x, y, n, n) == x.times(term(x, y, m, m)));
        lemma_terms_canonical(x, y, m, m);
        lemma_terms_canonical(x, y, m, n);
        lemma_last(x, y, terms(x, y, m, m), terms(x, y, m, n), term(x, y, m, m));
        lemma_product_sum(x, y, terms(x, y, m, n));
    }
}

/// Of the terms of a `p`-th power only the first and the last are not zero.
proof fn lemma_prime_terms(x: Fe, y: Fe, m: nat)
    requires
        x.canonical(),
        y.canonical(),
        1 <= m <= element::prime(),
    ensures
        terms(x, y, element::prime() as nat, m) == y.power(element::prime() as nat),
    decreases m,
{
    broadcast use {element::group_canonical, lemma_power_canonical};

    let p = element::prime() as nat;
    element::lemma_constants(x);
    if m == 1 {
        reveal_with_fuel(terms, 2);
        assert((p - 0) as nat == p);
        let w = y.power(p);
        laws::lemma_mul_one(w);
        laws::lemma_mul_comm(w, Fe::one());
        laws::lemma_add_zero(w);
        laws::lemma_add_comm(w, Fe::zero());
    } else {
        let k = (m - 1) as nat;
        lemma_prime_terms(x, y, k);
        lemma_choose_prime(k);
        lemma_of_int(choose_count(p, k) as int, 0);
        lemma_zero_term(y.power(p), x.power(k).times(y.power((p - k) as nat)));
    }
}

/// The `p`-th power of a sum is the sum of the `p`-th powers.
pub proof fn lemma_frobenius_sum(x: Fe, y: Fe)
    requires
        x.canonical(),
        y.canonical(),
    ensures
        x.plus(y).power(element::prime() as nat) == x.power(element::prime() as nat).plus(
            y.power(element::prime() as nat),
        ),
{
    broadcast use {element::group_canonical, lemma_power_canonical};

    let p = element::prime() as nat;
    element::lemma_constants(x);
    lemma_binomial(x, y, p);
    lemma_prime_terms(x, y, p);
    lemma_choose_all(p);
    assert((p - p) as nat == 0);
    let u = x.power(p);
    laws::lemma_mul_one(u);
    laws::lemma_mul_comm(u, Fe::one());
    laws::lemma_add_comm(y.power(p), u);
}

/// Fermat's little theorem in the field.
pub proof fn lemma_fermat_class(a: nat)
    ensures
        Fe::of_int(a as int).power(element::prime() as nat) == Fe::of_int(a as int),
    decreases a,
{
    broadcast use {element::group_canonical, lemma_power_canonical};

    let p = element::prime() as nat;
    element::lemma_constants(Fe::zero());
    if a == 0 {
        lemma_power_zero(p);
    } else {
        let b = (a - 1) as nat;
        lemma_fermat_class(b);
        lemma_of_int(b as int, 1);
        lemma_frobenius_sum(Fe::of_int(b as int), Fe::of_int(1));
        lemma_power_one(p);
    }
}

/// Fermat's little theorem.
pub proof fn lemma_fermat(a: nat)
    requires
        a as int % element::prime() != 0,
    ensures
        a * power::pow(a as int, (element::prime() - 2) as nat) % element::prime() == 1,
        power::pow(a as int, (element::prime() - 1) as nat) % element::prime() == 1,
{
    let p = element::prime();
    lemma_fermat_class(a);
    lemma_of_int_power(a as int, p as nat);
    lemma_of_int(power::pow(a as int, p as nat), a as int);
    let w = power::pow(a as int, (p - 1) as nat);
    assert(power::pow(a as int, p as nat) == a * w) by {
        reveal(power::pow);
    }
    assert(w == a * power::pow(a as int, (p - 2) as nat)) by {
        reveal(power::pow);
    }
    assert((a * w - a) % p == 0) by {
        div_mod::lemma_sub_mod_noop(a * w, a as int, p);
        div_mod::lemma_small_mod(0, p as nat);
    }
    assert(a * w - a == a * (w - 1)) by (nonlinear_arith);
    number::lemma_euclid(a as int, w - 1);
    div_mod::lemma_add_mod_noop(w - 1, 1, p);
}

} // verus!
