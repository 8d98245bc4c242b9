//! The septic extension is a field: cancellation and quotients.
use crate::algebra::element;
use crate::algebra::element::Fe;
use crate::algebra::frobenius;
use crate::algebra::laws;
use crate::algebra::powers;
use vstd::prelude::*;

verus! {

impl Fe {
    /// The inverse of an element other than zero.
    pub open spec fn inverse(self) -> Fe {
        self.power((frobenius::prime_power(7) - 2) as nat)
    }

    /// The quotient by an element other than zero.
    pub open spec fn over(self, other: Fe) -> Fe {
        self.times(other.inverse())
    }
}

/// An element times its inverse is one.
pub proof fn lemma_inverse(a: Fe)
    requires
        a.canonical(),
        a != Fe::zero(),
    ensures
        a.inverse().canonical(),
        a.times(a.inverse()) == Fe::one(),
        a.inverse().times(a) == Fe::one(),
{
    broadcast use powers::lemma_power_canonical;

    frobenius::lemma_invertible(a);
    laws::lemma_mul_comm(a, a.inverse());
}

/// There is only one inverse.
pub proof fn lemma_inverse_unique(a: Fe, b: Fe)
    requires
        a.canonical(),
        b.canonical(),
        a.times(b) == Fe::one(),
    ensures
        a != Fe::zero(),
        b == a.inverse(),
{
    element::lemma_constants(a);
    laws::lemma_mul_zero(b);
    laws::lemma_mul_comm(b, Fe::zero());
    lemma_inverse(a);
    let c = a.inverse();
    laws::lemma_mul_assoc(c, a, b);
    laws::lemma_mul_one(c);
    laws::lemma_mul_one(b);
    laws::lemma_mul_comm(Fe::one(), b);
}

/// A quotient times the divisor is the dividend.
pub proof fn lemma_over(a: Fe, b: Fe)
    requires
        a.canonical(),
        b.canonical(),
        b != Fe::zero(),
    ensures
        a.over(b).canonical(),
        a.over(b).times(b) == a,
        b.times(a.over(b)) == a,
{
    broadcast use element::group_canonical;

    lemma_inverse(b);
    laws::lemma_mul_assoc(a, b.inverse(), b);
    element::lemma_constants(a);
    laws::lemma_mul_one(a);
    laws::lemma_mul_comm(b, a.over(b));
}

/// A factor other than zero cancels.
pub proof fn lemma_cancel(c: Fe, a: Fe, b: Fe)
    requires
        c.canonical(),
        a.canonical(),
        b.canonical(),
        c != Fe::of_int(0),
        c.times(a.minus(b)) == Fe::of_int(0),
    ensures
        a == b,
{
    broadcast use element::group_canonical;

    element::lemma_constants(c);
    frobenius::lemma_no_zero_divisors(c, a.minus(b));
    laws::lemma_sub_zero(a, b);
}

} // verus!
