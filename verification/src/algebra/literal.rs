//! Products of elements given by literal coefficients.
use crate::algebra::element;
use crate::algebra::element::Fe;
use vstd::prelude::*;

verus! {

/// The element with the given coefficients.
pub open spec fn fe(c0: int, c1: int, c2: int, c3: int, c4: int, c5: int, c6: int) -> Fe {
    Fe { c0, c1, c2, c3, c4, c5, c6 }
}

/// A product, checked coefficient by coefficient with the quotients `q` by the prime.
pub proof fn lemma_product(
    a0: int,
    a1: int,
    a2: int,
    a3: int,
    a4: int,
    a5: int,
    a6: int,
    b0: int,
    b1: int,
    b2: int,
    b3: int,
    b4: int,
    b5: int,
    b6: int,
    r0: int,
    r1: int,
    r2: int,
    r3: int,
    r4: int,
    r5: int,
    r6: int,
    q0: int,
    q1: int,
    q2: int,
    q3: int,
    q4: int,
    q5: int,
    q6: int,
)
    requires
        a0 * b0 + 5 * (a1 * b6 + a2 * b5 + a3 * b4 + a4 * b3 + a5 * b2 + a6 * b1) == r0 + 2130706433 * q0,
        a0 * b1 + a1 * b0 + 5 * (a2 * b6 + a3 * b5 + a4 * b4 + a5 * b3 + a6 * b2) + 3 * (a1 * b6 + a2 * b5 + a3 * b4 + a4 * b3 + a5 * b2 + a6 * b1) == r1 + 2130706433 * q1,
        a0 * b2 + a1 * b1 + a2 * b0 + 5 * (a3 * b6 + a4 * b5 + a5 * b4 + a6 * b3) + 3 * (a2 * b6 + a3 * b5 + a4 * b4 + a5 * b3 + a6 * b2) == r2 + 2130706433 * q2,
        a0 * b3 + a1 * b2 + a2 * b1 + a3 * b0 + 5 * (a4 * b6 + a5 * b5 + a6 * b4) + 3 * (a3 * b6 + a4 * b5 + a5 * b4 + a6 * b3) == r3 + 2130706433 * q3,
        a0 * b4 + a1 * b3 + a2 * b2 + a3 * b1 + a4 * b0 + 5 * (a5 * b6 + a6 * b5) + 3 * (a4 * b6 + a5 * b5 + a6 * b4) == r4 + 2130706433 * q4,
        a0 * b5 + a1 * b4 + a2 * b3 + a3 * b2 + a4 * b1 + a5 * b0 + 5 * (a6 * b6) + 3 * (a5 * b6 + a6 * b5) == r5 + 2130706433 * q5,
        a0 * b6 + a1 * b5 + a2 * b4 + a3 * b3 + a4 * b2 + a5 * b1 + a6 * b0 + 3 * (a6 * b6) == r6 + 2130706433 * q6,
        0 <= r0 < 2130706433,
        0 <= r1 < 2130706433,
        0 <= r2 < 2130706433,
        0 <= r3 < 2130706433,
        0 <= r4 < 2130706433,
        0 <= r5 < 2130706433,
        0 <= r6 < 2130706433,
    ensures
        fe(a0, a1, a2, a3, a4, a5, a6).times(fe(b0, b1, b2, b3, b4, b5, b6)) == fe(r0, r1, r2, r3, r4, r5, r6),
{
    let a = fe(a0, a1, a2, a3, a4, a5, a6);
    let b = fe(b0, b1, b2, b3, b4, b5, b6);
    reveal(Fe::times);
    element::lemma_raw_mul_coefs(a, b);
    let m = element::raw_mul(a, b);
    assert(m.c0 == r0 + 2130706433 * q0);
    assert(m.c1 == r1 + 2130706433 * q1);
    assert(m.c2 == r2 + 2130706433 * q2);
    assert(m.c3 == r3 + 2130706433 * q3);
    assert(m.c4 == r4 + 2130706433 * q4);
    assert(m.c5 == r5 + 2130706433 * q5);
    assert(m.c6 == r6 + 2130706433 * q6);
    assert(m.c0 % 2130706433 == r0);
    assert(m.c1 % 2130706433 == r1);
    assert(m.c2 % 2130706433 == r2);
    assert(m.c3 % 2130706433 == r3);
    assert(m.c4 % 2130706433 == r4);
    assert(m.c5 % 2130706433 == r5);
    assert(m.c6 % 2130706433 == r6);
}

} // verus!
