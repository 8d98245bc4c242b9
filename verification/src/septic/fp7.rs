//! The septic extension `Fp[z] / (z^7 - 3z - 5)`.
use crate::algebra::element;
use crate::algebra::element::Fe;
use crate::algebra::field;
use crate::algebra::frobenius;
use crate::algebra::laws;
use crate::algebra::powers;
use crate::bytes;
use crate::septic::base::{kb_add, kb_inv, kb_mul, kb_neg, kb_sub, P};
use vstd::arithmetic::div_mod;
use vstd::prelude::*;

verus! {

/// An element of the extension by its coefficients, lowest power of `z` first.
///
/// The coefficients of a field element are residues below the prime; see [`Fp7::wf`].
#[derive(Clone, Copy, Debug, Eq)]
pub struct Fp7(pub [u32; 7]);

impl View for Fp7 {
    type V = Fe;

    open spec fn view(&self) -> Fe {
        Fe {
            c0: self.0[0] as int,
            c1: self.0[1] as int,
            c2: self.0[2] as int,
            c3: self.0[3] as int,
            c4: self.0[4] as int,
            c5: self.0[5] as int,
            c6: self.0[6] as int,
        }
    }
}

impl PartialEq for Fp7 {
    fn eq(&self, other: &Fp7) -> (r: bool) {
        self.0[0] == other.0[0] && self.0[1] == other.0[1] && self.0[2] == other.0[2] && self.0[3]
            == other.0[3] && self.0[4] == other.0[4] && self.0[5] == other.0[5] && self.0[6]
            == other.0[6]
    }
}

impl vstd::std_specs::cmp::PartialEqSpecImpl for Fp7 {
    open spec fn obeys_eq_spec() -> bool {
        true
    }

    open spec fn eq_spec(&self, other: &Fp7) -> bool {
        self@ == other@
    }
}

impl Default for Fp7 {
    fn default() -> (r: Fp7)
        ensures
            r@ == Fe::zero(),
    {
        Fp7::zero()
    }
}

/// The sum of two coefficients as [`kb_add`] computes it.
pub open spec fn limb_sum(a: u32, b: u32) -> int {
    (if a + b >= P {
        a + b - P
    } else {
        a + b
    }) % 0x1_0000_0000
}

/// The difference of two coefficients as [`kb_sub`] computes it.
pub open spec fn limb_difference(a: u32, b: u32) -> int {
    if a >= b {
        a - b
    } else {
        a + P - b
    }
}

/// `a_i b_(k - i)`, or zero where there is no such coefficient.
spec fn cross(a: Seq<u32>, b: Seq<u32>, k: int, i: int) -> int {
    if 0 <= k - i < 7 {
        a[i] * b[k - i]
    } else {
        0
    }
}

/// The sum of the products of `a_0` to `a_(i - 1)` that belong to `z^k`.
spec fn cross_sum(a: Seq<u32>, b: Seq<u32>, k: int, i: nat) -> int
    decreases i,
{
    if i == 0 {
        0
    } else {
        cross_sum(a, b, k, (i - 1) as nat) + cross(a, b, k, i - 1)
    }
}

/// All products that belong to `z^k`.
proof fn lemma_cross_sum(a: Fp7, b: Fp7, k: int)
    requires
        0 <= k < 13,
    ensures
        cross_sum(a.0@, b.0@, k, 7) == element::product_coef(a@, b@, k),
{
    reveal_with_fuel(cross_sum, 8);
}

/// Accumulating residues.
proof fn lemma_accumulate(s: int, t: int, p: int)
    requires
        p > 0,
    ensures
        (s % p + t) % p == (s + t) % p,
{
    div_mod::lemma_add_mod_noop(s, t, p);
    div_mod::lemma_add_mod_noop(s % p, t, p);
    div_mod::lemma_mod_twice(s, p);
}

/// One coefficient of a product after the reduction of the powers from `z^7` on.
proof fn lemma_fold(a: int, b: int, c: int)
    ensures
        ((a % 2130706433) + 3 * (b % 2130706433) + 5 * (c % 2130706433)) % 2130706433 == (a + 3 * b
            + 5 * c) % 2130706433,
{
    let q = 3 * (b / 2130706433) + 5 * (c / 2130706433) + a / 2130706433;
    let s = (a % 2130706433) + 3 * (b % 2130706433) + 5 * (c % 2130706433);
    assert(a + 3 * b + 5 * c == 2130706433 * q + s);
    div_mod::lemma_mod_multiples_vanish(q, s, 2130706433);
}

impl Fp7 {
    /// The coefficients are residues below the prime.
    pub open spec fn wf(self) -> bool {
        self@.canonical()
    }

    /// The additive identity.
    pub fn zero() -> (r: Fp7)
        ensures
            r@ == Fe::zero(),
            r.wf(),
    {
        proof {
            element::lemma_constants(Fe::zero());
        }
        Fp7([0, 0, 0, 0, 0, 0, 0])
    }

    /// The multiplicative identity.
    pub fn one() -> (r: Fp7)
        ensures
            r@ == Fe::one(),
            r.wf(),
    {
        proof {
            element::lemma_constants(Fe::zero());
        }
        Fp7([1, 0, 0, 0, 0, 0, 0])
    }

    /// The class of an integer.
    pub fn from_u32(val: u32) -> (r: Fp7)
        ensures
            r@ == Fe::of_int(val as int),
            r.wf(),
    {
        proof {
            reveal(Fe::of_int);
            element::lemma_of_int_canonical(val as int);
        }
        Fp7([val % (P as u32), 0, 0, 0, 0, 0, 0])
    }

    /// Whether every coefficient is zero.
    pub fn is_zero(&self) -> (r: bool)
        ensures
            r == (self@ == Fe::zero()),
    {
        *self == Fp7::zero()
    }

    /// Sum of two elements, coefficient by coefficient.
    pub fn add(&self, rhs: &Fp7) -> (r: Fp7)
        ensures
            self.wf() && rhs.wf() ==> r@ == self@.plus(rhs@) && r.wf(),
            forall|i: int| 0 <= i < 7 ==> (#[trigger] r.0[i]) as int == limb_sum(self.0[i], rhs.0[i]),
    {
        let r = Fp7(
            [
                kb_add(self.0[0], rhs.0[0]),
                kb_add(self.0[1], rhs.0[1]),
                kb_add(self.0[2], rhs.0[2]),
                kb_add(self.0[3], rhs.0[3]),
                kb_add(self.0[4], rhs.0[4]),
                kb_add(self.0[5], rhs.0[5]),
                kb_add(self.0[6], rhs.0[6]),
            ],
        );
        proof {
            if self.wf() && rhs.wf() {
                reveal(Fe::canonical);
                reveal(Fe::plus);
            }
        }
        r
    }

    /// Difference of two elements, coefficient by coefficient.
    pub fn sub(&self, rhs: &Fp7) -> (r: Fp7)
        requires
            forall|i: int| 0 <= i < 7 ==> #[trigger] rhs.0[i] <= self.0[i] + P,
        ensures
            self.wf() && rhs.wf() ==> r@ == self@.minus(rhs@) && r.wf(),
            forall|i: int|
                0 <= i < 7 ==> (#[trigger] r.0[i]) as int == limb_difference(self.0[i], rhs.0[i]),
    {
        let r = Fp7(
            [
                kb_sub(self.0[0], rhs.0[0]),
                kb_sub(self.0[1], rhs.0[1]),
                kb_sub(self.0[2], rhs.0[2]),
                kb_sub(self.0[3], rhs.0[3]),
                kb_sub(self.0[4], rhs.0[4]),
                kb_sub(self.0[5], rhs.0[5]),
                kb_sub(self.0[6], rhs.0[6]),
            ],
        );
        proof {
            if self.wf() && rhs.wf() {
                reveal(Fe::canonical);
                reveal(Fe::minus);
            }
        }
        r
    }

    /// Negation, coefficient by coefficient.
    pub fn neg(&self) -> (r: Fp7)
        requires
            forall|i: int| 0 <= i < 7 ==> #[trigger] self.0[i] <= P,
        ensures
            self.wf() ==> r@ == self@.negated() && r.wf(),
            forall|i: int|
                0 <= i < 7 ==> (#[trigger] r.0[i]) as int == (if self.0[i] == 0 {
                    0
                } else {
                    P - self.0[i]
                }),
    {
        let r = Fp7(
            [
                kb_neg(self.0[0]),
                kb_neg(self.0[1]),
                kb_neg(self.0[2]),
                kb_neg(self.0[3]),
                kb_neg(self.0[4]),
                kb_neg(self.0[5]),
                kb_neg(self.0[6]),
            ],
        );
        proof {
            if self.wf() {
                reveal(Fe::canonical);
                reveal(Fe::negated);
            }
        }
        r
    }

    /// Schoolbook multiplication with the reduction `z^7 = 3z + 5`.
    ///
    /// The accumulators are reduced after each product: seven of them would not fit.
    pub fn mul(&self, rhs: &Fp7) -> (r: Fp7)
        ensures
            r@ == self@.times(rhs@),
            r.wf(),
    {
        let mut res: [u64; 13] = [0; 13];
        let ghost a = self.0@;
        let ghost b = rhs.0@;
        let ghost p = P as int;
        for i in 0..7usize
            invariant
                a == self.0@,
                b == rhs.0@,
                p == P,
                forall|k: int|
                    0 <= k < 13 ==> (#[trigger] res[k]) as int == cross_sum(a, b, k, i as nat) % p,
        {
            for j in 0..7usize
                invariant
                    0 <= i < 7,
                    a == self.0@,
                    b == rhs.0@,
                    p == P,
                    forall|k: int|
                        0 <= k < 13 ==> (#[trigger] res[k]) as int == (cross_sum(a, b, k, i as nat)
                            + if k - i < j {
                            cross(a, b, k, i as int)
                        } else {
                            0
                        }) % p,
            {
                let ghost before = res@;
                assert(self.0[i as int] * rhs.0[j as int] <= 0xffff_ffff * 0xffff_ffff)
                    by (nonlinear_arith)
                    requires
                        self.0[i as int] <= 0xffff_ffff,
                        rhs.0[j as int] <= 0xffff_ffff,
                ;
                assert(res[i + j] < P);
                res[i + j] = (res[i + j] + self.0[i] as u64 * rhs.0[j] as u64) % P;
                proof {
                    let k = i + j;
                    lemma_accumulate(cross_sum(a, b, k, i as nat), a[i as int] * b[j as int], p);
                    assert(cross(a, b, k, i as int) == a[i as int] * b[j as int]);
                    assert forall|n: int| 0 <= n < 13 implies (#[trigger] res[n]) as int == (
                    cross_sum(a, b, n, i as nat) + if n - i < j + 1 {
                        cross(a, b, n, i as int)
                    } else {
                        0
                    }) % p by {
                        if n != k {
                            assert(res[n] == before[n]);
                        }
                    }
                }
            }
            assert forall|k: int| 0 <= k < 13 implies (#[trigger] res[k]) as int == cross_sum(
                a,
                b,
                k,
                (i + 1) as nat,
            ) % p by {
                assert(k - i >= 7 ==> cross(a, b, k, i as int) == 0);
            }
        }
        let mut ret: [u64; 7] = [res[0], res[1], res[2], res[3], res[4], res[5], res[6]];
        for i in 7..13usize
            invariant
                p == P,
                forall|k: int| 0 <= k < 13 ==> (#[trigger] res[k]) < P,
                forall|k: int|
                    0 <= k < 7 ==> (#[trigger] ret[k]) as int == (res[k] + (if 7 <= k + 6 < i {
                        3 * res[k + 6]
                    } else {
                        0
                    }) + (if k + 7 < i {
                        5 * res[k + 7]
                    } else {
                        0
                    })) % p,
        {
            let ghost before = ret@;
            let ghost m = i as int;
            assert(ret[m - 7] < P && ret[m - 6] < P && res[m] < P);
            ret[i - 7] = (ret[i - 7] + res[i] * 5) % P;
            let ghost middle = ret@;
            ret[i - 6] = (ret[i - 6] + res[i] * 3) % P;
            proof {
                let k = m - 7;
                lemma_accumulate(
                    res[k] + (if 7 <= k + 6 < i {
                        3 * res[k + 6]
                    } else {
                        0
                    }),
                    5 * res[m],
                    p,
                );
                lemma_accumulate(res[m - 6] as int, 3 * res[m], p);
                assert(middle[m - 6] == before[m - 6]);
                assert(ret[m - 7] == middle[m - 7]);
                assert forall|n: int| 0 <= n < 7 implies (#[trigger] ret[n]) as int == (res[n] + (
                if 7 <= n + 6 < i + 1 {
                    3 * res[n + 6]
                } else {
                    0
                }) + (if n + 7 < i + 1 {
                    5 * res[n + 7]
                } else {
                    0
                })) % p by {
                    if n != m - 7 && n != m - 6 {
                        assert(ret[n] == before[n]);
                    }
                }
            }
        }
        proof {
            assert forall|k: int| 0 <= k < 13 implies (#[trigger] res[k]) as int
                == element::product_coef(self@, rhs@, k) % p by {
                lemma_cross_sum(*self, *rhs, k);
            }
            element::lemma_raw_mul_coefs(self@, rhs@);
            reveal(Fe::times);
            lemma_fold(
                element::product_coef(self@, rhs@, 0),
                0,
                element::product_coef(self@, rhs@, 7),
            );
            assert forall|k: int| 1 <= k < 6 implies #[trigger] ((res[k] + 3 * res[k + 6] + 5 * res[k
                + 7]) % p) == (element::product_coef(self@, rhs@, k) + 3 * element::product_coef(
                self@,
                rhs@,
                k + 6,
            ) + 5 * element::product_coef(self@, rhs@, k + 7)) % p by {
                lemma_fold(
                    element::product_coef(self@, rhs@, k),
                    element::product_coef(self@, rhs@, k + 6),
                    element::product_coef(self@, rhs@, k + 7),
                );
            }
            lemma_fold(
                element::product_coef(self@, rhs@, 6),
                element::product_coef(self@, rhs@, 12),
                0,
            );
            element::lemma_times_canonical(self@, rhs@);
        }
        let r = Fp7(
            [
                ret[0] as u32,
                ret[1] as u32,
                ret[2] as u32,
                ret[3] as u32,
                ret[4] as u32,
                ret[5] as u32,
                ret[6] as u32,
            ],
        );
        proof {
            let t = self@.times(rhs@);
            assert(ret[0] == t.c0);
            assert(ret[1] == t.c1);
            assert(ret[2] == t.c2);
            assert(ret[3] == t.c3);
            assert(ret[4] == t.c4);
            assert(ret[5] == t.c5);
            assert(ret[6] == t.c6);
        }
        r
    }
}

/// The coefficient of `z^i`.
spec fn coefficient(a: Fe, i: int) -> int {
    if i == 0 {
        a.c0
    } else if i == 1 {
        a.c1
    } else if i == 2 {
        a.c2
    } else if i == 3 {
        a.c3
    } else if i == 4 {
        a.c4
    } else if i == 5 {
        a.c5
    } else {
        a.c6
    }
}

/// The first `n` terms of the linear formula for the `p`-th power.
spec fn frobenius_terms(a: Fe, n: nat) -> Fe
    decreases n,
{
    if n <= 1 {
        Fe::of_int(a.c0)
    } else {
        frobenius_terms(a, (n - 1) as nat).plus(
            Fe::of_int(coefficient(a, n - 1)).times(frobenius::zeta_p(n - 1)),
        )
    }
}

/// The first `n` terms of the linear formula for the `p^2`-th power.
spec fn double_frobenius_terms(a: Fe, n: nat) -> Fe
    decreases n,
{
    if n <= 1 {
        Fe::of_int(a.c0)
    } else {
        double_frobenius_terms(a, (n - 1) as nat).plus(
            Fe::of_int(coefficient(a, n - 1)).times(frobenius::zeta_p2(n - 1)),
        )
    }
}

/// A factor that has been reduced gives the same product.
proof fn lemma_times_reduced(a: Fe, b: Fe)
    ensures
        a.reduced().times(b) == a.times(b),
        a.times(b.reduced()) == a.times(b),
{
    reveal(Fe::times);
    element::lemma_reduced_mul(a, b);
    element::lemma_reduced_mul(a.reduced(), b);
    element::lemma_reduced_mul(a, b.reduced());
    element::lemma_canonical_reduced(a);
    element::lemma_canonical_reduced(b);
}

impl Fp7 {
    /// The square.
    pub fn square(&self) -> (r: Fp7)
        ensures
            r@ == self@.times(self@),
            r.wf(),
    {
        self.mul(self)
    }

    /// The cube.
    pub fn cube(&self) -> (r: Fp7)
        ensures
            r@ == self@.times(self@).times(self@),
            r.wf(),
    {
        self.square().mul(self)
    }

    /// The product with a base field element.
    pub fn scale(&self, s: u32) -> (r: Fp7)
        ensures
            r@ == self@.scaled(s as int),
            r.wf(),
    {
        let r = Fp7(
            [
                kb_mul(self.0[0], s),
                kb_mul(self.0[1], s),
                kb_mul(self.0[2], s),
                kb_mul(self.0[3], s),
                kb_mul(self.0[4], s),
                kb_mul(self.0[5], s),
                kb_mul(self.0[6], s),
            ],
        );
        proof {
            broadcast use vstd::arithmetic::mul::lemma_mul_is_commutative;

            reveal(Fe::scaled);
            reveal(Fe::canonical);
        }
        r
    }

    /// `z^(index p)`.
    fn z_pow_p(index: usize) -> (r: Fp7)
        requires
            index < 7,
        ensures
            index == 0 ==> r@ == Fe::one(),
            index > 0 ==> r@ == frobenius::zeta_p(index as int),
            r.wf(),
    {
        proof {
            reveal(Fe::canonical);
        }
        if index == 0 {
            Fp7::one()
        } else if index == 1 {
            Fp7([1272123317, 1950759909, 1879852731, 746569225, 180350946, 1600835585, 333893434])
        } else if index == 2 {
            Fp7([129050189, 1749509219, 983995729, 711096547, 1505254548, 639452798, 68186395])
        } else if index == 3 {
            Fp7([1911662442, 1095215454, 1794102427, 1173566779, 140526665, 110899104, 1387282150])
        } else if index == 4 {
            Fp7([1366416596, 1212861, 2104391040, 1447859676, 308944373, 106444152, 1362577042])
        } else if index == 5 {
            Fp7([1411781189, 1580508159, 1332301780, 1528790701, 380217034, 1752756730, 989817517])
        } else {
            Fp7([37669840, 439102875, 410223214, 964813232, 1250258104, 877333757, 222095778])
        }
    }

    /// `z^(index p^2)`.
    fn z_pow_p2(index: usize) -> (r: Fp7)
        requires
            index < 7,
        ensures
            index == 0 ==> r@ == Fe::one(),
            index > 0 ==> r@ == frobenius::zeta_p2(index as int),
            r.wf(),
    {
        proof {
            reveal(Fe::canonical);
        }
        if index == 0 {
            Fp7::one()
        } else if index == 1 {
            Fp7([1330073564, 1724372201, 942213154, 258987814, 1836986639, 566030553, 2086945921])
        } else if index == 2 {
            Fp7([473977877, 99096011, 1919717963, 733784355, 1167998744, 19619652, 1354518805])
        } else if index == 3 {
            Fp7([1040563478, 1866766699, 1875293643, 846885082, 1921678452, 2127718474, 1489297699])
        } else if index == 4 {
            Fp7([1350284585, 1583164394, 512913106, 1818487640, 2116891899, 318922921, 1013732863])
        } else if index == 5 {
            Fp7([887772098, 1971095075, 843183752, 711838602, 1717807390, 521017530, 1548716569])
        } else {
            Fp7([372606377, 357514301, 335089633, 330400379, 1545190367, 1813349020, 1393941056])
        }
    }

    /// The `p`-th power, by its linear formula.
    pub fn frobenius(&self) -> (r: Fp7)
        ensures
            r@ == frobenius::frobenius(self@),
            r@ == self@.reduced().power(P as nat),
            r.wf(),
    {
        let mut result = Fp7::from_u32(self.0[0]);
        for i in 1..7usize
            invariant
                result@ == frobenius_terms(self@, i as nat),
                result.wf(),
        {
            let term = Self::z_pow_p(i).scale(self.0[i]);
            proof {
                frobenius::lemma_scaled(self.0[i as int] as int, frobenius::zeta_p(i as int));
                element::lemma_plus_canonical(result@, term@);
            }
            result = result.add(&term);
        }
        proof {
            reveal_with_fuel(frobenius_terms, 7);
            element::lemma_canonical_reduced(self@);
            frobenius::lemma_combine_reduced(
                self@,
                frobenius::zeta_p(1),
                frobenius::zeta_p(2),
                frobenius::zeta_p(3),
                frobenius::zeta_p(4),
                frobenius::zeta_p(5),
                frobenius::zeta_p(6),
            );
            frobenius::lemma_frobenius(self@.reduced());
        }
        result
    }

    /// The `p^2`-th power, by its linear formula.
    pub fn double_frobenius(&self) -> (r: Fp7)
        ensures
            r@ == frobenius::double_frobenius(self@),
            r@ == self@.reduced().power(frobenius::prime_power(2)),
            r.wf(),
    {
        let mut result = Fp7::from_u32(self.0[0]);
        for i in 1..7usize
            invariant
                result@ == double_frobenius_terms(self@, i as nat),
                result.wf(),
        {
            let term = Self::z_pow_p2(i).scale(self.0[i]);
            proof {
                frobenius::lemma_scaled(self.0[i as int] as int, frobenius::zeta_p2(i as int));
                element::lemma_plus_canonical(result@, term@);
            }
            result = result.add(&term);
        }
        proof {
            reveal_with_fuel(double_frobenius_terms, 7);
            element::lemma_canonical_reduced(self@);
            frobenius::lemma_combine_reduced(
                self@,
                frobenius::zeta_p2(1),
                frobenius::zeta_p2(2),
                frobenius::zeta_p2(3),
                frobenius::zeta_p2(4),
                frobenius::zeta_p2(5),
                frobenius::zeta_p2(6),
            );
            frobenius::lemma_double_frobenius(self@.reduced());
        }
        result
    }

    /// The power with exponent `p + p^2 + p^3 + p^4 + p^5 + p^6`.  Its product with the element is
    /// the norm, which lies in the base field.
    pub fn pow_r_1(&self) -> (r: Fp7)
        ensures
            r@ == self@.reduced().power(frobenius::conorm_exponent()),
            self@.times(r@) == Fe::of_int(self@.times(r@).c0),
            self@.times(r@).c0 == 0 <==> self@.reduced() == Fe::zero(),
            r.wf(),
    {
        let base = self.frobenius().mul(&self.double_frobenius());
        let base_p2 = base.double_frobenius();
        let base_p4 = base_p2.double_frobenius();
        proof {
            let x = self@.reduced();
            let p = P as nat;
            let q = frobenius::prime_power(2);
            element::lemma_canonical_reduced(self@);
            element::lemma_canonical_reduced(base@);
            element::lemma_canonical_reduced(base_p2@);
            frobenius::lemma_prime_powers();
            powers::lemma_power_add(x, p, q);
            let e = p + q;
            powers::lemma_power_mul(x, e, q);
            powers::lemma_power_mul(x, e * q, q);
            assert((e * q) * q == e * (q * q)) by (nonlinear_arith);
            powers::lemma_power_add(x, e, e * q);
            powers::lemma_power_add(x, e + e * q, e * (q * q));
        }
        let r = base.mul(&base_p2).mul(&base_p4);
        proof {
            broadcast use element::group_canonical;

            let x = self@.reduced();
            element::lemma_canonical_reduced(self@);
            lemma_times_reduced(self@, r@);
            laws::lemma_mul_comm(r@, x);
            if x == Fe::zero() {
                element::lemma_constants(r@);
                laws::lemma_mul_zero(r@);
            } else {
                frobenius::lemma_norm(x);
            }
        }
        r
    }

    /// The multiplicative inverse of an element that is not zero.
    pub fn inv(&self) -> (r: Fp7)
        requires
            self@.reduced() != Fe::zero(),
        ensures
            r@ == self@.reduced().inverse(),
            self@.times(r@) == Fe::one(),
            r.wf(),
    {
        let pow_r_1 = self.pow_r_1();
        let pow_r = pow_r_1.mul(self);
        proof {
            element::lemma_canonical_reduced(self@);
            lemma_times_reduced(pow_r_1@, self@);
            frobenius::lemma_norm(self@.reduced());
        }
        let base_inv = kb_inv(pow_r.0[0]);
        let r = pow_r_1.scale(base_inv);
        proof {
            broadcast use element::group_canonical;

            let x = self@.reduced();
            let c = base_inv as int;
            let n = pow_r@.c0;
            element::lemma_constants(x);
            frobenius::lemma_scaled(c, pow_r_1@);
            laws::lemma_mul_comm(x, r@);
            laws::lemma_mul_assoc(Fe::of_int(c), pow_r_1@, x);
            powers::lemma_of_int(c, n);
            powers::lemma_of_int(c * n, 1);
            vstd::arithmetic::mul::lemma_mul_is_commutative(c, n);
            field::lemma_inverse_unique(x, r@);
            lemma_times_reduced(self@, r@);
        }
        r
    }

    /// The quotient by an element that is not zero.
    pub fn div(&self, rhs: &Fp7) -> (r: Fp7)
        requires
            rhs@.reduced() != Fe::zero(),
        ensures
            r@ == self@.over(rhs@.reduced()),
            r@.times(rhs@) == self@.reduced(),
            r.wf(),
    {
        let r = self.mul(&rhs.inv());
        proof {
            let d = rhs@.reduced();
            element::lemma_canonical_reduced(self@);
            element::lemma_canonical_reduced(rhs@);
            lemma_times_reduced(self@, d.inverse());
            field::lemma_over(self@.reduced(), d);
            lemma_times_reduced(r@, rhs@);
        }
        r
    }

    /// The 28 bytes of the coefficients, each in little-endian order.
    pub fn to_bytes(&self) -> (out: [u8; 28])
        ensures
            out@ == bytes::le4_all(self.0@),
    {
        let mut out: [u8; 28] = [0; 28];
        for i in 0..7usize
            invariant
                forall|k: int, j: int|
                    0 <= k < i && 0 <= j < 4 ==> #[trigger] out[4 * k + j] == #[trigger] bytes::le4(
                        self.0[k],
                    )[j],
        {
            let limb = bytes::u32_to_le(self.0[i]);
            let ghost before = out@;
            out[i * 4] = limb[0];
            out[i * 4 + 1] = limb[1];
            out[i * 4 + 2] = limb[2];
            out[i * 4 + 3] = limb[3];
            assert forall|k: int, j: int| 0 <= k < i + 1 && 0 <= j < 4 implies #[trigger] out[4 * k
                + j] == #[trigger] bytes::le4(self.0[k])[j] by {
                if k < i {
                    assert(out[4 * k + j] == before[4 * k + j]);
                } else {
                    assert(limb@[j] == bytes::le4(self.0[k])[j]);
                }
            }
        }
        proof {
            bytes::lemma_le4_all(self.0@);
            assert forall|n: int| 0 <= n < 28 implies out[n] == bytes::le4_all(self.0@)[n] by {
                let k = n / 4;
                let j = n % 4;
                assert(n == 4 * k + j);
                assert(out[4 * k + j] == bytes::le4(self.0[k])[j]);
                assert(bytes::le4_all(self.0@)[4 * k + j] == bytes::le4(self.0@[k])[j]);
            }
        }
        out
    }
}

} // verus!
