//! The curve `y^2 = x^3 + 45x + 41 z^3`.
use crate::algebra::curve;
use crate::algebra::curve::Point;
use crate::algebra::element;
use crate::algebra::element::Fe;
use crate::algebra::frobenius;
use crate::algebra::group;
use crate::algebra::order;
use crate::septic::base::P;
use crate::septic::fp7::Fp7;
use crate::septic::scalar;
use vstd::arithmetic::power2;
use vstd::prelude::*;

verus! {

/// The coefficients of `b = 41 z^3`.
pub const CURVE_B: [u32; 7] = [0, 0, 0, 41, 0, 0, 0];

/// The coefficients of the first coordinate of the generator, from digits of the square root
/// of 2.
pub const GENERATOR_X: [u32; 7] = [
    0x1414213,
    0x5623730,
    0x9504880,
    0x1688724,
    0x2096980,
    0x7856967,
    0x1875376,
];

/// The coefficients of the second coordinate of the generator.
pub const GENERATOR_Y: [u32; 7] = [
    2020310104,
    1513506566,
    1843922297,
    2003644209,
    805967281,
    1882435203,
    1623804682,
];

/// A point of the curve, or the point at infinity.
///
/// The point that a value stands for does not depend on the coordinates at infinity; those of
/// `SepticPoint::infinity` are zero, and the operations keep them so.
#[derive(Clone, Copy, Debug, Eq)]
pub struct SepticPoint {
    pub x: Fp7,
    pub y: Fp7,
    pub is_infinity: bool,
}

impl View for SepticPoint {
    type V = Point;

    open spec fn view(&self) -> Point {
        if self.is_infinity {
            Point::Infinity
        } else {
            Point::Affine { x: self.x@, y: self.y@ }
        }
    }
}

impl PartialEq for SepticPoint {
    fn eq(&self, other: &SepticPoint) -> (r: bool) {
        self.x == other.x && self.y == other.y && self.is_infinity == other.is_infinity
    }
}

impl vstd::std_specs::cmp::PartialEqSpecImpl for SepticPoint {
    open spec fn obeys_eq_spec() -> bool {
        true
    }

    open spec fn eq_spec(&self, other: &SepticPoint) -> bool {
        self.x@ == other.x@ && self.y@ == other.y@ && self.is_infinity == other.is_infinity
    }
}

impl Default for SepticPoint {
    fn default() -> (r: SepticPoint)
        ensures
            r@ == Point::Infinity,
            r.x@ == Fe::zero() && r.y@ == Fe::zero(),
    {
        Self::infinity()
    }
}

impl SepticPoint {
    /// The coordinates are field elements; at infinity nothing is asked of them.
    pub open spec fn wf(self) -> bool {
        self@.canonical()
    }

    /// At infinity, the coordinates are zero.
    pub open spec fn neat(self) -> bool {
        self.is_infinity ==> self.x@ == Fe::zero() && self.y@ == Fe::zero()
    }

    /// Values that stand for the same point are equal.
    pub proof fn lemma_same_point(self, other: SepticPoint)
        requires
            self.neat(),
            other.neat(),
        ensures
            self@ == other@ <==> self.x@ == other.x@ && self.y@ == other.y@ && self.is_infinity
                == other.is_infinity,
    {
    }

    /// The neutral element.
    pub fn infinity() -> (r: SepticPoint)
        ensures
            r@ == Point::Infinity,
            r.x@ == Fe::zero() && r.y@ == Fe::zero(),
    {
        SepticPoint { x: Fp7::zero(), y: Fp7::zero(), is_infinity: true }
    }

    /// The affine point with the given coordinates.
    pub fn new(x: Fp7, y: Fp7) -> (r: SepticPoint)
        ensures
            r.x == x && r.y == y && !r.is_infinity,
    {
        SepticPoint { x, y, is_infinity: false }
    }

    /// The generator of the group.
    pub fn generator() -> (r: SepticPoint)
        ensures
            r@ == order::generator(),
            r@.valid(),
    {
        proof {
            order::lemma_generator();
        }
        SepticPoint::new(Fp7(GENERATOR_X), Fp7(GENERATOR_Y))
    }

    /// `x^3 + 45x + 41 z^3`.
    pub fn curve_rhs(x: &Fp7) -> (r: Fp7)
        ensures
            r@ == curve::curve_rhs(x@),
            r.wf(),
    {
        proof {
            broadcast use element::group_canonical;

            frobenius::lemma_scaled(45, x@);
            assert(Fp7(CURVE_B)@ == curve::curve_b());
            reveal(Fe::canonical);
        }
        x.cube().add(&x.scale(45)).add(&Fp7(CURVE_B))
    }

    /// Whether the point satisfies the equation of the curve.
    pub fn on_curve(&self) -> (r: bool)
        ensures
            r == self@.on_curve(),
    {
        if self.is_infinity {
            return true;
        }
        self.y.square() == Self::curve_rhs(&self.x)
    }

    /// The point mirrored at the first axis.
    pub fn neg(&self) -> (r: SepticPoint)
        requires
            self.wf() || self.is_infinity || forall|i: int|
                0 <= i < 7 ==> #[trigger] self.y.0[i] <= P,
        ensures
            self.wf() ==> r@ == self@.negated() && r.wf(),
            self.is_infinity ==> r == *self,
            !self.is_infinity ==> !r.is_infinity && r.x == self.x && forall|i: int|
                0 <= i < 7 ==> (#[trigger] r.y.0[i]) as int == (if self.y.0[i] == 0 {
                    0
                } else {
                    P - self.y.0[i]
                }),
    {
        if self.is_infinity {
            return *self;
        }
        proof {
            reveal(Fe::canonical);
        }
        SepticPoint::new(self.x, self.y.neg())
    }
}

/// Double-and-add over the binary digits of `n`, lowest first.
pub open spec fn double_and_add(acc: Point, base: Point, n: nat) -> Point
    decreases n,
{
    if n == 0 {
        acc
    } else {
        double_and_add(
            if n % 2 == 1 {
                acc.plus(base)
            } else {
                acc
            },
            base.doubled(),
            n / 2,
        )
    }
}

/// On the curve, double-and-add computes the multiple.
pub proof fn lemma_double_and_add(acc: Point, base: Point, n: nat)
    requires
        acc.valid(),
        base.valid(),
    ensures
        double_and_add(acc, base, n) == acc.plus(base.times(n)),
    decreases n,
{
    group::lemma_times_small(base);
    if n > 0 {
        let k = n / 2;
        curve::lemma_doubled(base);
        curve::lemma_plus_closed(base, base);
        group::lemma_times_mul(base, 2, k);
        group::lemma_times_closed(base, 2 * k);
        if n % 2 == 1 {
            curve::lemma_plus_closed(acc, base);
            lemma_double_and_add(acc.plus(base), base.doubled(), k);
            group::lemma_plus_assoc(acc, base, base.times(2 * k));
            assert((n - 1) as nat == 2 * k);
        } else {
            lemma_double_and_add(acc, base.doubled(), k);
        }
    }
}

/// Doubling keeps the coordinates canonical.
proof fn lemma_doubled_canonical(p: Point)
    requires
        p.canonical(),
    ensures
        p.doubled().canonical(),
{
    broadcast use element::group_canonical;

}

/// Addition keeps the coordinates canonical.
proof fn lemma_plus_canonical(p: Point, q: Point)
    requires
        p.canonical(),
        q.canonical(),
    ensures
        p.plus(q).canonical(),
{
    broadcast use element::group_canonical;

    lemma_doubled_canonical(p);
}

/// Canonical coefficients can be subtracted from anything.
proof fn lemma_subtractable(a: Fp7)
    requires
        a.wf(),
    ensures
        forall|i: int| 0 <= i < 7 ==> #[trigger] a.0[i] < P,
{
    reveal(Fe::canonical);
}

/// Twice an element other than zero is not zero.
proof fn lemma_twice_nonzero(y: Fe)
    requires
        y.canonical(),
        y != Fe::zero(),
    ensures
        y.scaled(2) != Fe::zero(),
        y.scaled(2).reduced() == y.scaled(2),
{
    reveal(Fe::canonical);
    reveal(Fe::scaled);
}

impl SepticPoint {
    /// The sum of two points of the plane, by the complete Weierstrass addition.
    pub fn add(&self, other: &SepticPoint) -> (r: SepticPoint)
        requires
            self.is_infinity || other.is_infinity || (self.wf() && other.wf()),
        ensures
            r@ == self@.plus(other@),
            self.wf() && other.wf() ==> r.wf(),
            self.is_infinity ==> r == *other,
            !self.is_infinity && other.is_infinity ==> r == *self,
            self.neat() && other.neat() ==> r.neat(),
    {
        if self.is_infinity {
            return *other;
        }
        if other.is_infinity {
            return *self;
        }
        proof {
            lemma_plus_canonical(self@, other@);
        }
        if self.x == other.x {
            if self.y == other.y {
                return self.double();
            }
            return SepticPoint::infinity();
        }
        proof {
            lemma_subtractable(self.x);
            lemma_subtractable(self.y);
            lemma_subtractable(other.x);
            if other.x@.minus(self.x@) == Fe::zero() {
                element::lemma_constants(Fe::zero());
                crate::algebra::laws::lemma_sub_zero(other.x@, self.x@);
            }
        }
        let run = other.x.sub(&self.x);
        proof {
            element::lemma_canonical_reduced(run@);
        }
        let slope = other.y.sub(&self.y).div(&run);
        let x3 = slope.square().sub(&self.x).sub(&other.x);
        proof {
            lemma_subtractable(x3);
        }
        let y3 = slope.mul(&self.x.sub(&x3)).sub(&self.y);
        SepticPoint::new(x3, y3)
    }

    /// The sum of a point with itself.
    pub fn double(&self) -> (r: SepticPoint)
        requires
            self.wf(),
        ensures
            r@ == self@.doubled(),
            r.wf(),
            self.is_infinity ==> r == *self,
            self.neat() ==> r.neat(),
    {
        proof {
            lemma_doubled_canonical(self@);
        }
        if self.is_infinity {
            return *self;
        }
        if self.y.is_zero() {
            return SepticPoint::infinity();
        }
        let square = self.x.square();
        let three_x_sq = square.scale(3);
        let numerator = three_x_sq.add(&Fp7::from_u32(45));
        let denominator = self.y.scale(2);
        proof {
            frobenius::lemma_scaled(3, square@);
            frobenius::lemma_scaled(2, self.y@);
            frobenius::lemma_scaled(2, self.x@);
            lemma_twice_nonzero(self.y@);
            lemma_subtractable(self.x);
            lemma_subtractable(self.y);
        }
        let slope = numerator.div(&denominator);
        let twice = self.x.scale(2);
        proof {
            lemma_subtractable(twice);
        }
        let x3 = slope.square().sub(&twice);
        proof {
            lemma_subtractable(x3);
        }
        let y3 = slope.mul(&self.x.sub(&x3)).sub(&self.y);
        SepticPoint::new(x3, y3)
    }

    /// The multiple of a point, by double-and-add over a 256-bit scalar.
    ///
    /// The digits above the highest set one only double the base further.
    pub fn scalar_mul(&self, scalar: &[u32; 8]) -> (r: SepticPoint)
        requires
            self.wf(),
        ensures
            r@ == double_and_add(Point::Infinity, self@, scalar::value(scalar@) as nat),
            r.wf(),
            self@.valid() ==> r@ == self@.times(scalar::value(scalar@) as nat) && r@.valid(),
            self.neat() ==> r.neat(),
    {
        let mut result = SepticPoint::infinity();
        let mut temp = *self;
        let ghost total = double_and_add(
            Point::Infinity,
            self@,
            scalar::value(scalar@) as nat,
        );
        proof {
            scalar::lemma_value_bound(scalar@);
            assert(scalar@.skip(0) == scalar@);
        }
        for i in 0..8usize
            invariant
                result.wf(),
                temp.wf(),
                self.neat() ==> result.neat() && temp.neat(),
                double_and_add(result@, temp@, scalar::value(scalar@.skip(i as int)) as nat)
                    == total,
        {
            let mut word: u32 = scalar[i];
            let ghost rest = scalar::value(scalar@.skip(i + 1));
            proof {
                scalar::lemma_value_bound(scalar@.skip(i + 1));
                scalar::lemma_value_skip(scalar@, i as int);
                power2::lemma2_to64();
            }
            for bit in 0..32usize
                invariant
                    result.wf(),
                    temp.wf(),
                    self.neat() ==> result.neat() && temp.neat(),
                    rest >= 0,
                    word < power2::pow2((32 - bit) as nat),
                    double_and_add(
                        result@,
                        temp@,
                        (word + power2::pow2((32 - bit) as nat) * rest) as nat,
                    ) == total,
            {
                let ghost n = (word + power2::pow2((32 - bit) as nat) * rest) as nat;
                let ghost h = power2::pow2((31 - bit) as nat) as int;
                let ghost acc = result@;
                let ghost base = temp@;
                assert(word & 1 == word % 2) by (bit_vector);
                assert(word >> 1 == word / 2) by (bit_vector);
                proof {
                    power2::lemma_pow2_unfold((32 - bit) as nat);
                    power2::lemma_pow2_pos((31 - bit) as nat);
                    assert((2 * h) * rest == 2 * (h * rest)) by (nonlinear_arith);
                    assert(h * rest >= 0) by (nonlinear_arith)
                        requires
                            h > 0,
                            rest >= 0,
                    ;
                    assert(n == word + 2 * (h * rest));
                    assert(n % 2 == word % 2);
                    assert(n / 2 == word / 2 + h * rest);
                }
                if word & 1 == 1 {
                    result = result.add(&temp);
                }
                temp = temp.double();
                word = word >> 1;
            }
            proof {
                power2::lemma2_to64();
                let one = power2::pow2(0);
                assert(one * rest == rest) by (nonlinear_arith)
                    requires
                        one == 1,
                ;
            }
        }
        proof {
            assert(scalar@.skip(8) == Seq::<u32>::empty());
            if self@.valid() {
                let n = scalar::value(scalar@) as nat;
                lemma_double_and_add(Point::Infinity, self@, n);
                group::lemma_times_closed(self@, n);
            }
        }
        result
    }
}

} // verus!
