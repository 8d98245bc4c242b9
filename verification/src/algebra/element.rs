//! The septic extension ring as a mathematical object.
//!
//! A [`Fe`] is the class of `c0 + c1 z + ... + c6 z^6`, where `z^7 = 3 z + 5`.  The `raw_`
//! operations work on integer coefficients; the field operations reduce the
//! coefficients modulo the KoalaBear prime afterwards.
use vstd::prelude::*;

verus! {

/// The KoalaBear prime `2^31 - 2^24 + 1`.
#[verifier::inline]
pub open spec fn prime() -> int {
    2130706433
}

/// Coefficients, lowest power of `z` first.
pub struct Fe {
    pub c0: int,
    pub c1: int,
    pub c2: int,
    pub c3: int,
    pub c4: int,
    pub c5: int,
    pub c6: int,
}

/// The constant polynomial `c`.
pub open spec fn raw_const(c: int) -> Fe {
    Fe { c0: c, c1: 0, c2: 0, c3: 0, c4: 0, c5: 0, c6: 0 }
}

/// `a + b` on integer coefficients.
pub open spec fn raw_add(a: Fe, b: Fe) -> Fe {
    Fe {
        c0: a.c0 + b.c0,
        c1: a.c1 + b.c1,
        c2: a.c2 + b.c2,
        c3: a.c3 + b.c3,
        c4: a.c4 + b.c4,
        c5: a.c5 + b.c5,
        c6: a.c6 + b.c6,
    }
}

/// `c * a` on integer coefficients.
pub open spec fn raw_scale(c: int, a: Fe) -> Fe {
    Fe {
        c0: c * a.c0,
        c1: c * a.c1,
        c2: c * a.c2,
        c3: c * a.c3,
        c4: c * a.c4,
        c5: c * a.c5,
        c6: c * a.c6,
    }
}

/// `z * a`, with `z^7` replaced by `3 z + 5`.
pub open spec fn raw_shift(a: Fe) -> Fe {
    Fe {
        c0: 5 * a.c6,
        c1: a.c0 + 3 * a.c6,
        c2: a.c1,
        c3: a.c2,
        c4: a.c3,
        c5: a.c4,
        c6: a.c5,
    }
}

/// `c * b + z * rest`, one step of Horner's rule.
pub open spec fn raw_horner(c: int, b: Fe, rest: Fe) -> Fe {
    raw_add(raw_scale(c, b), raw_shift(rest))
}

/// `a * b`, by Horner's rule in the coefficients of `a`.
#[verifier::opaque]
pub open spec fn raw_mul(a: Fe, b: Fe) -> Fe {
    raw_horner(
        a.c0,
        b,
        raw_horner(
            a.c1,
            b,
            raw_horner(
                a.c2,
                b,
                raw_horner(
                    a.c3,
                    b,
                    raw_horner(a.c4, b, raw_horner(a.c5, b, raw_scale(a.c6, b))),
                ),
            ),
        ),
    )
}

impl Fe {
    /// Every coefficient taken modulo the prime.
    pub open spec fn reduced(self) -> Fe {
        Fe {
            c0: self.c0 % prime(),
            c1: self.c1 % prime(),
            c2: self.c2 % prime(),
            c3: self.c3 % prime(),
            c4: self.c4 % prime(),
            c5: self.c5 % prime(),
            c6: self.c6 % prime(),
        }
    }

    /// The coefficients are the representatives in `[0, p)`.
    #[verifier::opaque]
    pub open spec fn canonical(self) -> bool {
        &&& 0 <= self.c0 < prime()
        &&& 0 <= self.c1 < prime()
        &&& 0 <= self.c2 < prime()
        &&& 0 <= self.c3 < prime()
        &&& 0 <= self.c4 < prime()
        &&& 0 <= self.c5 < prime()
        &&& 0 <= self.c6 < prime()
    }

    pub open spec fn zero() -> Fe {
        raw_const(0)
    }

    pub open spec fn one() -> Fe {
        raw_const(1)
    }

    /// The generator `z` of the extension.
    pub open spec fn zeta() -> Fe {
        Fe { c0: 0, c1: 1, c2: 0, c3: 0, c4: 0, c5: 0, c6: 0 }
    }

    /// The class of an integer.
    #[verifier::opaque]
    pub open spec fn of_int(c: int) -> Fe {
        raw_const(c).reduced()
    }

    #[verifier::opaque]
    pub open spec fn plus(self, other: Fe) -> Fe {
        raw_add(self, other).reduced()
    }

    #[verifier::opaque]
    pub open spec fn minus(self, other: Fe) -> Fe {
        raw_add(self, raw_scale(-1, other)).reduced()
    }

    #[verifier::opaque]
    pub open spec fn negated(self) -> Fe {
        raw_scale(-1, self).reduced()
    }

    #[verifier::opaque]
    pub open spec fn times(self, other: Fe) -> Fe {
        raw_mul(self, other).reduced()
    }

    /// `c * self` for an integer `c`.
    #[verifier::opaque]
    pub open spec fn scaled(self, c: int) -> Fe {
        raw_scale(c, self).reduced()
    }
}

/// Scaling by a sum of integers.
pub proof fn lemma_raw_scale_add(c: int, d: int, a: Fe)
    ensures
        raw_scale(c + d, a) == raw_add(raw_scale(c, a), raw_scale(d, a)),
{
    broadcast use vstd::arithmetic::mul::lemma_mul_is_distributive_add_other_way;

}

/// Scaling a sum.
pub proof fn lemma_raw_scale_of_add(c: int, a: Fe, b: Fe)
    ensures
        raw_scale(c, raw_add(a, b)) == raw_add(raw_scale(c, a), raw_scale(c, b)),
{
    broadcast use vstd::arithmetic::mul::lemma_mul_is_distributive_add;

}

/// Scaling twice.
pub proof fn lemma_raw_scale_scale(c: int, d: int, a: Fe)
    ensures
        raw_scale(c, raw_scale(d, a)) == raw_scale(c * d, a),
        raw_scale(c, raw_scale(d, a)) == raw_scale(d, raw_scale(c, a)),
{
    assert forall|x: int| #[trigger] (c * (d * x)) == (c * d) * x by {
        vstd::arithmetic::mul::lemma_mul_is_associative(c, d, x);
    }
    assert forall|x: int| #[trigger] (d * (c * x)) == (c * d) * x by {
        vstd::arithmetic::mul::lemma_mul_is_associative(d, c, x);
        vstd::arithmetic::mul::lemma_mul_is_commutative(d, c);
    }
    assert(raw_scale(c, raw_scale(d, a)) == raw_scale(c * d, a));
    assert(raw_scale(d, raw_scale(c, a)) == raw_scale(c * d, a));
}

/// Scaling commutes with multiplication by `z`.
pub proof fn lemma_raw_shift_scale(c: int, a: Fe)
    ensures
        raw_shift(raw_scale(c, a)) == raw_scale(c, raw_shift(a)),
{
    assert(c * (5 * a.c6) == 5 * (c * a.c6)) by (nonlinear_arith);
    assert(c * (a.c0 + 3 * a.c6) == c * a.c0 + 3 * (c * a.c6)) by (nonlinear_arith);
}

/// Horner steps add up.
proof fn lemma_horner_add(c: int, d: int, b: Fe, r: Fe, s: Fe)
    ensures
        raw_horner(c + d, b, raw_add(r, s)) == raw_add(raw_horner(c, b, r), raw_horner(d, b, s)),
{
    lemma_raw_scale_add(c, d, b);
}

/// Horner steps scale.
proof fn lemma_horner_scale(k: int, c: int, b: Fe, r: Fe)
    ensures
        raw_horner(k * c, b, raw_scale(k, r)) == raw_scale(k, raw_horner(c, b, r)),
{
    lemma_raw_scale_scale(k, c, b);
    lemma_raw_shift_scale(k, r);
    lemma_raw_scale_of_add(k, raw_scale(c, b), raw_shift(r));
}

/// Horner steps are additive in the factor.
proof fn lemma_horner_add_right(c: int, b: Fe, d: Fe, r: Fe, s: Fe)
    ensures
        raw_horner(c, raw_add(b, d), raw_add(r, s)) == raw_add(
            raw_horner(c, b, r),
            raw_horner(c, d, s),
        ),
{
    lemma_raw_scale_of_add(c, b, d);
}

/// Horner steps scale in the factor.
proof fn lemma_horner_scale_right(k: int, c: int, b: Fe, r: Fe)
    ensures
        raw_horner(c, raw_scale(k, b), raw_scale(k, r)) == raw_scale(k, raw_horner(c, b, r)),
{
    lemma_raw_scale_scale(k, c, b);
    lemma_raw_shift_scale(k, r);
    lemma_raw_scale_of_add(k, raw_scale(c, b), raw_shift(r));
}

/// Multiplication distributes over a sum in its first factor.
pub proof fn lemma_raw_mul_add(a: Fe, b: Fe, w: Fe)
    ensures
        raw_mul(raw_add(a, b), w) == raw_add(raw_mul(a, w), raw_mul(b, w)),
{
    reveal(raw_mul);
    let r6 = raw_scale(a.c6, w);
    let s6 = raw_scale(b.c6, w);
    lemma_raw_scale_add(a.c6, b.c6, w);
    let r5 = raw_horner(a.c5, w, r6);
    let s5 = raw_horner(b.c5, w, s6);
    lemma_horner_add(a.c5, b.c5, w, r6, s6);
    let r4 = raw_horner(a.c4, w, r5);
    let s4 = raw_horner(b.c4, w, s5);
    lemma_horner_add(a.c4, b.c4, w, r5, s5);
    let r3 = raw_horner(a.c3, w, r4);
    let s3 = raw_horner(b.c3, w, s4);
    lemma_horner_add(a.c3, b.c3, w, r4, s4);
    let r2 = raw_horner(a.c2, w, r3);
    let s2 = raw_horner(b.c2, w, s3);
    lemma_horner_add(a.c2, b.c2, w, r3, s3);
    let r1 = raw_horner(a.c1, w, r2);
    let s1 = raw_horner(b.c1, w, s2);
    lemma_horner_add(a.c1, b.c1, w, r2, s2);
    lemma_horner_add(a.c0, b.c0, w, r1, s1);
}

/// Multiplication distributes over a sum in its second factor.
pub proof fn lemma_raw_mul_add_right(a: Fe, w: Fe, v: Fe)
    ensures
        raw_mul(a, raw_add(w, v)) == raw_add(raw_mul(a, w), raw_mul(a, v)),
{
    reveal(raw_mul);
    let r6 = raw_scale(a.c6, w);
    let s6 = raw_scale(a.c6, v);
    lemma_raw_scale_of_add(a.c6, w, v);
    let r5 = raw_horner(a.c5, w, r6);
    let s5 = raw_horner(a.c5, v, s6);
    lemma_horner_add_right(a.c5, w, v, r6, s6);
    let r4 = raw_horner(a.c4, w, r5);
    let s4 = raw_horner(a.c4, v, s5);
    lemma_horner_add_right(a.c4, w, v, r5, s5);
    let r3 = raw_horner(a.c3, w, r4);
    let s3 = raw_horner(a.c3, v, s4);
    lemma_horner_add_right(a.c3, w, v, r4, s4);
    let r2 = raw_horner(a.c2, w, r3);
    let s2 = raw_horner(a.c2, v, s3);
    lemma_horner_add_right(a.c2, w, v, r3, s3);
    let r1 = raw_horner(a.c1, w, r2);
    let s1 = raw_horner(a.c1, v, s2);
    lemma_horner_add_right(a.c1, w, v, r2, s2);
    lemma_horner_add_right(a.c0, w, v, r1, s1);
}

/// A scalar moves out of the first factor.
pub proof fn lemma_raw_mul_scale(k: int, a: Fe, w: Fe)
    ensures
        raw_mul(raw_scale(k, a), w) == raw_scale(k, raw_mul(a, w)),
{
    reveal(raw_mul);
    let r6 = raw_scale(a.c6, w);
    lemma_raw_scale_scale(k, a.c6, w);
    let r5 = raw_horner(a.c5, w, r6);
    lemma_horner_scale(k, a.c5, w, r6);
    let r4 = raw_horner(a.c4, w, r5);
    lemma_horner_scale(k, a.c4, w, r5);
    let r3 = raw_horner(a.c3, w, r4);
    lemma_horner_scale(k, a.c3, w, r4);
    let r2 = raw_horner(a.c2, w, r3);
    lemma_horner_scale(k, a.c2, w, r3);
    let r1 = raw_horner(a.c1, w, r2);
    lemma_horner_scale(k, a.c1, w, r2);
    lemma_horner_scale(k, a.c0, w, r1);
}

/// A scalar moves out of the second factor.
pub proof fn lemma_raw_mul_scale_right(k: int, a: Fe, w: Fe)
    ensures
        raw_mul(a, raw_scale(k, w)) == raw_scale(k, raw_mul(a, w)),
{
    reveal(raw_mul);
    let r6 = raw_scale(a.c6, w);
    lemma_raw_scale_scale(k, a.c6, w);
    let r5 = raw_horner(a.c5, w, r6);
    lemma_horner_scale_right(k, a.c5, w, r6);
    let r4 = raw_horner(a.c4, w, r5);
    lemma_horner_scale_right(k, a.c4, w, r5);
    let r3 = raw_horner(a.c3, w, r4);
    lemma_horner_scale_right(k, a.c3, w, r4);
    let r2 = raw_horner(a.c2, w, r3);
    lemma_horner_scale_right(k, a.c2, w, r3);
    let r1 = raw_horner(a.c1, w, r2);
    lemma_horner_scale_right(k, a.c1, w, r2);
    lemma_horner_scale_right(k, a.c0, w, r1);
}

/// Horner's rule extended by one coefficient below.
pub proof fn lemma_raw_mul_horner(c: int, u: Fe, w: Fe)
    ensures
        raw_mul(raw_add(raw_const(c), raw_shift(u)), w) == raw_horner(c, w, raw_mul(u, w)),
{
    reveal(raw_mul);
    lemma_raw_scale_add(c, 5 * u.c6, w);
    lemma_raw_scale_add(u.c0, 3 * u.c6, w);
    lemma_raw_scale_scale(5, u.c6, w);
    lemma_raw_scale_scale(3, u.c6, w);
}

/// The coefficient of `z^k` in the product of the two polynomials, before reduction.
pub open spec fn product_coef(a: Fe, b: Fe, k: int) -> int {
    if k == 0 {
        a.c0 * b.c0
    } else if k == 1 {
        a.c0 * b.c1 + a.c1 * b.c0
    } else if k == 2 {
        a.c0 * b.c2 + a.c1 * b.c1 + a.c2 * b.c0
    } else if k == 3 {
        a.c0 * b.c3 + a.c1 * b.c2 + a.c2 * b.c1 + a.c3 * b.c0
    } else if k == 4 {
        a.c0 * b.c4 + a.c1 * b.c3 + a.c2 * b.c2 + a.c3 * b.c1 + a.c4 * b.c0
    } else if k == 5 {
        a.c0 * b.c5 + a.c1 * b.c4 + a.c2 * b.c3 + a.c3 * b.c2 + a.c4 * b.c1 + a.c5 * b.c0
    } else if k == 6 {
        a.c0 * b.c6 + a.c1 * b.c5 + a.c2 * b.c4 + a.c3 * b.c3 + a.c4 * b.c2 + a.c5 * b.c1 + a.c6 * b.c0
    } else if k == 7 {
        a.c1 * b.c6 + a.c2 * b.c5 + a.c3 * b.c4 + a.c4 * b.c3 + a.c5 * b.c2 + a.c6 * b.c1
    } else if k == 8 {
        a.c2 * b.c6 + a.c3 * b.c5 + a.c4 * b.c4 + a.c5 * b.c3 + a.c6 * b.c2
    } else if k == 9 {
        a.c3 * b.c6 + a.c4 * b.c5 + a.c5 * b.c4 + a.c6 * b.c3
    } else if k == 10 {
        a.c4 * b.c6 + a.c5 * b.c5 + a.c6 * b.c4
    } else if k == 11 {
        a.c5 * b.c6 + a.c6 * b.c5
    } else if k == 12 {
        a.c6 * b.c6
    } else {
        0
    }
}

/// The product coefficient by coefficient: `z^(7 + i)` adds `5 z^i + 3 z^(i + 1)`.
pub proof fn lemma_raw_mul_coefs(a: Fe, b: Fe)
    ensures
        raw_mul(a, b) == (Fe {
            c0: product_coef(a, b, 0) + 5 * product_coef(a, b, 7),
            c1: product_coef(a, b, 1) + 3 * product_coef(a, b, 7) + 5 * product_coef(a, b, 8),
            c2: product_coef(a, b, 2) + 3 * product_coef(a, b, 8) + 5 * product_coef(a, b, 9),
            c3: product_coef(a, b, 3) + 3 * product_coef(a, b, 9) + 5 * product_coef(a, b, 10),
            c4: product_coef(a, b, 4) + 3 * product_coef(a, b, 10) + 5 * product_coef(a, b, 11),
            c5: product_coef(a, b, 5) + 3 * product_coef(a, b, 11) + 5 * product_coef(a, b, 12),
            c6: product_coef(a, b, 6) + 3 * product_coef(a, b, 12),
        }),
{
    reveal(raw_mul);
}

/// The coefficients divided by the prime.
spec fn quotients(a: Fe) -> Fe {
    Fe {
        c0: a.c0 / prime(),
        c1: a.c1 / prime(),
        c2: a.c2 / prime(),
        c3: a.c3 / prime(),
        c4: a.c4 / prime(),
        c5: a.c5 / prime(),
        c6: a.c6 / prime(),
    }
}

/// A multiple of the prime does not change the class.
pub proof fn lemma_reduced_multiple(a: Fe, b: Fe)
    ensures
        raw_add(a, raw_scale(prime(), b)).reduced() == a.reduced(),
{
}

proof fn lemma_split(a: Fe)
    ensures
        a == raw_add(a.reduced(), raw_scale(prime(), quotients(a))),
{
}

/// Congruence of one coefficient under addition and subtraction.
proof fn lemma_congruent(x: int, y: int)
    ensures
        (x % prime() + y % prime()) % prime() == (x + y) % prime(),
        (x % prime() + (-1) * (y % prime())) % prime() == (x + (-1) * y) % prime(),
        ((-1) * (x % prime())) % prime() == ((-1) * x) % prime(),
{
}

/// Reduction before an addition, subtraction or negation does not change the class.
pub proof fn lemma_reduced_linear(a: Fe, b: Fe)
    ensures
        raw_add(a.reduced(), b.reduced()).reduced() == raw_add(a, b).reduced(),
        raw_add(a.reduced(), raw_scale(-1, b.reduced())).reduced() == raw_add(
            a,
            raw_scale(-1, b),
        ).reduced(),
        raw_scale(-1, a.reduced()).reduced() == raw_scale(-1, a).reduced(),
{
    lemma_congruent(a.c0, b.c0);
    lemma_congruent(a.c1, b.c1);
    lemma_congruent(a.c2, b.c2);
    lemma_congruent(a.c3, b.c3);
    lemma_congruent(a.c4, b.c4);
    lemma_congruent(a.c5, b.c5);
    lemma_congruent(a.c6, b.c6);
}

/// Reduction before a multiplication does not change the class.
pub proof fn lemma_reduced_mul(a: Fe, b: Fe)
    ensures
        raw_mul(a.reduced(), b.reduced()).reduced() == raw_mul(a, b).reduced(),
{
    lemma_split(a);
    lemma_split(b);
    let u = a.reduced();
    let w = b.reduced();
    let q = quotients(a);
    let t = quotients(b);
    assert(raw_mul(a, b) == raw_add(raw_mul(u, b), raw_scale(prime(), raw_mul(q, b)))) by {
        lemma_raw_mul_add(u, raw_scale(prime(), q), b);
        lemma_raw_mul_scale(prime(), q, b);
    }
    lemma_reduced_multiple(raw_mul(u, b), raw_mul(q, b));
    assert(raw_mul(u, b) == raw_add(raw_mul(u, w), raw_scale(prime(), raw_mul(u, t)))) by {
        lemma_raw_mul_add_right(u, w, raw_scale(prime(), t));
        lemma_raw_mul_scale_right(prime(), u, t);
    }
    lemma_reduced_multiple(raw_mul(u, w), raw_mul(u, t));
}

/// A canonical element is its own representative.
pub proof fn lemma_canonical_reduced(a: Fe)
    ensures
        a.reduced().canonical(),
        a.reduced().reduced() == a.reduced(),
        a.canonical() <==> a.reduced() == a,
{
    reveal(Fe::canonical);
}

/// Sums are canonical.
pub broadcast proof fn lemma_plus_canonical(a: Fe, b: Fe)
    ensures
        #[trigger] a.plus(b).canonical(),
{
    reveal(Fe::plus);
    reveal(Fe::canonical);
}

/// Differences are canonical.
pub broadcast proof fn lemma_minus_canonical(a: Fe, b: Fe)
    ensures
        #[trigger] a.minus(b).canonical(),
{
    reveal(Fe::minus);
    reveal(Fe::canonical);
}

/// Negations are canonical.
pub broadcast proof fn lemma_negated_canonical(a: Fe)
    ensures
        #[trigger] a.negated().canonical(),
{
    reveal(Fe::negated);
    reveal(Fe::canonical);
}

/// Products are canonical.
pub broadcast proof fn lemma_times_canonical(a: Fe, b: Fe)
    ensures
        #[trigger] a.times(b).canonical(),
{
    reveal(Fe::times);
    reveal(Fe::canonical);
}

/// Classes of integers are canonical.
pub broadcast proof fn lemma_of_int_canonical(c: int)
    ensures
        #[trigger] Fe::of_int(c).canonical(),
{
    reveal(Fe::of_int);
    reveal(Fe::canonical);
}

/// The results of the field operations are canonical.
pub broadcast group group_canonical {
    lemma_plus_canonical,
    lemma_minus_canonical,
    lemma_negated_canonical,
    lemma_times_canonical,
    lemma_of_int_canonical,
}

/// The classes of 0 and 1, and negation as a difference from zero.
pub proof fn lemma_constants(a: Fe)
    ensures
        Fe::of_int(0) == Fe::zero(),
        Fe::of_int(1) == Fe::one(),
        Fe::zero().canonical(),
        Fe::one().canonical(),
        Fe::zeta().canonical(),
        a.negated() == Fe::of_int(0).minus(a),
{
    reveal(Fe::of_int);
    reveal(Fe::canonical);
    reveal(Fe::negated);
    reveal(Fe::minus);
}

} // verus!
