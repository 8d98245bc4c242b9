//! What the operations of the septic field and of the curve compute.
use crate::algebra::curve;
use crate::algebra::curve::Point;
use crate::algebra::element;
use crate::algebra::element::Fe;
use crate::algebra::group;
use crate::algebra::laws;
use crate::algebra::literal;
use crate::laws::signatures;
use crate::laws::texts;
use crate::septic::fp7::Fp7;
use crate::septic::point::SepticPoint;
use vstd::prelude::*;

verus! {

/// Sums, differences and opposites are taken coefficient by coefficient, modulo the prime
/// `2^31 - 2^24 + 1`.
pub proof fn lemma_linear(a: &Fp7, b: &Fp7, r: Fp7, i: int)
    requires
        a.wf(),
        b.wf(),
        0 <= i < 7,
    ensures
        call_ensures(Fp7::add, (a, b), r) ==> r.0@[i] == (a.0@[i] + b.0@[i]) % (0x8000_0000
            - 0x100_0000 + 1),
        call_ensures(Fp7::sub, (a, b), r) ==> r.0@[i] == (a.0@[i] - b.0@[i]) % (0x8000_0000
            - 0x100_0000 + 1),
        call_ensures(Fp7::neg, (a,), r) ==> r.0@[i] == (-a.0@[i]) % (0x8000_0000 - 0x100_0000 + 1),
{
    reveal(Fe::canonical);
    reveal(Fe::plus);
    reveal(Fe::minus);
    reveal(Fe::negated);
    assert(i == 0 || i == 1 || i == 2 || i == 3 || i == 4 || i == 5 || i == 6);
}

/// The product with `z` shifts the coefficients by one place and replaces `z^7` by `3 z + 5`.
pub proof fn lemma_times_zeta(zeta: &Fp7, a: &Fp7, r: Fp7)
    requires
        zeta.0@ == seq![0u32, 1, 0, 0, 0, 0, 0],
        call_ensures(Fp7::mul, (zeta, a), r),
    ensures
        r.0@[0] == 5 * a.0@[6] % 2130706433,
        r.0@[1] == (a.0@[0] + 3 * a.0@[6]) % 2130706433,
        r.0@[2] == a.0@[1] % 2130706433,
        r.0@[3] == a.0@[2] % 2130706433,
        r.0@[4] == a.0@[3] % 2130706433,
        r.0@[5] == a.0@[4] % 2130706433,
        r.0@[6] == a.0@[5] % 2130706433,
{
    broadcast use vstd::arithmetic::mul::group_mul_basics;

    reveal(Fe::times);
    reveal(element::raw_mul);
    assert(zeta@ == Fe::zeta()) by {
        assert(zeta.0@[0] == 0 && zeta.0@[1] == 1 && zeta.0@[2] == 0 && zeta.0@[3] == 0
            && zeta.0@[4] == 0 && zeta.0@[5] == 0 && zeta.0@[6] == 0);
    }
    assert(element::raw_scale(0, a@) == Fe::zero());
    assert(element::raw_scale(1, a@) == a@);
}

/// The product with a number multiplies every coefficient by it.
pub proof fn lemma_times_number(c: u32, s: &Fp7, a: &Fp7, r: Fp7, t: Fp7, i: int)
    requires
        s.0@ == seq![c, 0, 0, 0, 0, 0, 0],
        0 <= i < 7,
    ensures
        call_ensures(Fp7::mul, (s, a), r) ==> r.0@[i] == c * a.0@[i] % 2130706433,
        call_ensures(Fp7::scale, (a, c), t) ==> t.0@[i] == c * a.0@[i] % 2130706433,
{
    broadcast use vstd::arithmetic::mul::group_mul_basics;

    reveal(Fe::times);
    reveal(Fe::scaled);
    reveal(element::raw_mul);
    assert(s@ == element::raw_const(c as int)) by {
        assert(s.0@[0] == c && s.0@[1] == 0 && s.0@[2] == 0 && s.0@[3] == 0 && s.0@[4] == 0
            && s.0@[5] == 0 && s.0@[6] == 0);
    }
    assert(element::raw_scale(0, a@) == Fe::zero());
    assert(i == 0 || i == 1 || i == 2 || i == 3 || i == 4 || i == 5 || i == 6);
}

/// A product with a sum is the sum of the products, the order of factors does not matter, and
/// three factors may be taken in any grouping.
pub proof fn lemma_ring(
    a: &Fp7,
    b: &Fp7,
    c: &Fp7,
    sum: Fp7,
    left: Fp7,
    ac: Fp7,
    bc: Fp7,
    right: Fp7,
    ca: Fp7,
    ab: Fp7,
    first: Fp7,
    second: Fp7,
)
    requires
        a.wf() && b.wf() && c.wf(),
        call_ensures(Fp7::add, (a, b), sum),
        call_ensures(Fp7::mul, (&sum, c), left),
        call_ensures(Fp7::mul, (a, c), ac),
        call_ensures(Fp7::mul, (b, c), bc),
        call_ensures(Fp7::add, (&ac, &bc), right),
        call_ensures(Fp7::mul, (c, a), ca),
        call_ensures(Fp7::mul, (a, b), ab),
        call_ensures(Fp7::mul, (&ab, c), first),
        call_ensures(Fp7::mul, (a, &bc), second),
    ensures
        left@ == right@,
        ac@ == ca@,
        first@ == second@,
{
    laws::lemma_distribute_left(a@, b@, c@);
    laws::lemma_mul_comm(a@, c@);
    laws::lemma_mul_assoc(a@, b@, c@);
}

/// An element times its inverse is one, and a quotient times the divisor is the dividend.
pub proof fn lemma_quotient(a: &Fp7, b: &Fp7, inverse: Fp7, quotient: Fp7, one: Fp7, back: Fp7)
    requires
        a.wf(),
        b.wf(),
        b@ != Fe::zero(),
        call_ensures(Fp7::inv, (b,), inverse),
        call_ensures(Fp7::mul, (b, &inverse), one),
        call_ensures(Fp7::div, (a, b), quotient),
        call_ensures(Fp7::mul, (&quotient, b), back),
    ensures
        one.0@ =~= seq![1u32, 0, 0, 0, 0, 0, 0],
        back@ == a@,
{
    reveal(Fe::canonical);
    assert(b@.reduced() == b@);
    assert(a@.reduced() == a@);
    assert(one@ == Fe::one());
}

/// The bytes of an element hold its coefficients.
pub proof fn lemma_to_bytes(a: &Fp7, r: [u8; 28])
    requires
        call_ensures(Fp7::to_bytes, (a,), r),
    ensures
        texts::holds_words(r@, a.0@),
{
    texts::lemma_words(r@, a.0@);
}

/// A point is on the curve exactly when `y^2 = x^3 + 45 x + 41 z^3`.
pub proof fn lemma_on_curve(
    p: &SepticPoint,
    r: bool,
    yy: Fp7,
    xx: Fp7,
    xxx: Fp7,
    linear: Fp7,
    partial: Fp7,
    constant: Fp7,
    rhs: Fp7,
)
    requires
        !p.is_infinity,
        call_ensures(SepticPoint::on_curve, (p,), r),
        call_ensures(Fp7::mul, (&p.y, &p.y), yy),
        call_ensures(Fp7::mul, (&p.x, &p.x), xx),
        call_ensures(Fp7::mul, (&xx, &p.x), xxx),
        call_ensures(Fp7::scale, (&p.x, 45), linear),
        call_ensures(Fp7::add, (&xxx, &linear), partial),
        constant.0@ == seq![0u32, 0, 0, 41, 0, 0, 0],
        call_ensures(Fp7::add, (&partial, &constant), rhs),
    ensures
        r <==> yy@ == rhs@,
{
    assert(constant@ == literal::fe(0, 0, 0, 41, 0, 0, 0)) by {
        assert(constant.0@[0] == 0 && constant.0@[1] == 0 && constant.0@[2] == 0
            && constant.0@[3] == 41 && constant.0@[4] == 0 && constant.0@[5] == 0
            && constant.0@[6] == 0);
    }
    assert(constant.wf()) by {
        reveal(Fe::canonical);
    }
    crate::algebra::frobenius::lemma_scaled(45, p.x@);
}

/// Sums of points of the curve: the order and the grouping do not matter, infinity changes
/// nothing, and a point and its opposite cancel.
pub proof fn lemma_group(
    p: &SepticPoint,
    q: &SepticPoint,
    s: &SepticPoint,
    pq: SepticPoint,
    qp: SepticPoint,
    qs: SepticPoint,
    left: SepticPoint,
    right: SepticPoint,
    minus: SepticPoint,
    nothing: SepticPoint,
)
    requires
        p@.valid() && q@.valid() && s@.valid(),
        call_ensures(SepticPoint::add, (p, q), pq),
        call_ensures(SepticPoint::add, (q, p), qp),
        call_ensures(SepticPoint::add, (q, s), qs),
        call_ensures(SepticPoint::add, (&pq, s), left),
        call_ensures(SepticPoint::add, (p, &qs), right),
        call_ensures(SepticPoint::neg, (p,), minus),
        call_ensures(SepticPoint::add, (p, &minus), nothing),
    ensures
        pq@ == qp@,
        left@ == right@,
        nothing@ == Point::Infinity,
        pq@.valid(),
        p@ == Point::Infinity ==> pq@ == q@,
{
    curve::lemma_plus_comm(p@, q@);
    group::lemma_plus_assoc(p@, q@, s@);
    curve::lemma_negation(p@);
    curve::lemma_plus_closed(p@, q@);
}

/// A multiple by a scalar is the point added to itself as often: with scalars `m`, `n` and
/// `m + n` the multiples add up, twice the point is its double, and the multiple by zero is
/// infinity.
pub proof fn lemma_multiples(
    p: &SepticPoint,
    m: &[u32; 8],
    n: &[u32; 8],
    both: &[u32; 8],
    pm: SepticPoint,
    pn: SepticPoint,
    sum: SepticPoint,
    whole: SepticPoint,
    twice: SepticPoint,
)
    requires
        p@.valid(),
        signatures::number(both@) == signatures::number(m@) + signatures::number(n@),
        call_ensures(SepticPoint::scalar_mul, (p, m), pm),
        call_ensures(SepticPoint::scalar_mul, (p, n), pn),
        call_ensures(SepticPoint::scalar_mul, (p, both), whole),
        call_ensures(SepticPoint::add, (&pm, &pn), sum),
        call_ensures(SepticPoint::double, (p,), twice),
    ensures
        whole@ == sum@,
        signatures::number(m@) == 0 ==> pm@ == Point::Infinity,
        signatures::number(m@) == 1 ==> pm@ == p@,
        signatures::number(m@) == 2 ==> pm@ == twice@,
{
    signatures::lemma_number(m@);
    signatures::lemma_number(n@);
    signatures::lemma_number(both@);
    group::lemma_times_add(p@, signatures::number(m@) as nat, signatures::number(n@) as nat);
    group::lemma_times_small(p@);
}

} // verus!
