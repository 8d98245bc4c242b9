//! 256-bit scalar arithmetic modulo the group order.
//!
//! A scalar is held in eight 32-bit limbs, lowest first.
use crate::algebra::order;
use vstd::arithmetic::power2;
use vstd::prelude::*;

verus! {

/// The order of the subgroup (217 bits):
/// `r = 199372529839252601278447397890876471698671718266839763841250021879`.
pub const GROUP_ORDER: [u32; 8] = [
    0x4e94d1f7,
    0x8aeeafa3,
    0xc62a61f1,
    0x89b4547e,
    0xcc910bb6,
    0x7579fd9a,
    0x01e4a5d4,
    0x00000000,
];

/// `2^32`.
#[verifier::inline]
pub open spec fn radix() -> int {
    0x1_0000_0000
}

/// The integer with the given limbs, lowest first.
pub open spec fn value(s: Seq<u32>) -> int
    decreases s.len(),
{
    if s.len() == 0 {
        0
    } else {
        s[0] + radix() * value(s.drop_first())
    }
}

/// `2^(32 n)`.
pub open spec fn radix_power(n: nat) -> int
    decreases n,
{
    if n == 0 {
        1
    } else {
        radix() * radix_power((n - 1) as nat)
    }
}

/// The value of some limbs is below the next power of the radix.
pub proof fn lemma_value_bound(s: Seq<u32>)
    ensures
        0 <= value(s) < radix_power(s.len()),
    decreases s.len(),
{
    if s.len() > 0 {
        lemma_value_bound(s.drop_first());
    }
}

/// The value of the first `n + 1` limbs.
pub proof fn lemma_value_take(s: Seq<u32>, n: int)
    requires
        0 <= n < s.len(),
    ensures
        value(s.take(n + 1)) == value(s.take(n)) + radix_power(n as nat) * s[n],
    decreases s.len(),
{
    assert(s.take(n + 1).drop_first() == s.drop_first().take(n));
    if n > 0 {
        assert(s.take(n).drop_first() == s.drop_first().take(n - 1));
        lemma_value_take(s.drop_first(), n - 1);
        let r = radix_power((n - 1) as nat);
        assert(radix() * (r * s[n]) == (radix() * r) * s[n]) by (nonlinear_arith);
    } else {
        assert(s.take(1).drop_first() == Seq::<u32>::empty());
        assert(s.take(0) == Seq::<u32>::empty());
        assert(s.drop_first().take(0) == Seq::<u32>::empty());
    }
}

/// The value of the limbs from `n` on.
pub proof fn lemma_value_skip(s: Seq<u32>, n: int)
    requires
        0 <= n < s.len(),
    ensures
        value(s.skip(n)) == s[n] + radix() * value(s.skip(n + 1)),
{
    assert(s.skip(n).drop_first() == s.skip(n + 1));
}

/// The value in two parts.
pub proof fn lemma_value_split(s: Seq<u32>, n: int)
    requires
        0 <= n <= s.len(),
    ensures
        value(s) == value(s.take(n)) + radix_power(n as nat) * value(s.skip(n)),
    decreases n,
{
    if n == 0 {
        assert(s.take(0) == Seq::<u32>::empty());
        assert(s.skip(0) == s);
    } else {
        lemma_value_split(s, n - 1);
        lemma_value_take(s, n - 1);
        lemma_value_skip(s, n - 1);
        let r = radix_power((n - 1) as nat);
        let v = value(s.skip(n));
        assert(r * (s[n - 1] + radix() * v) == r * s[n - 1] + (radix() * r) * v)
            by (nonlinear_arith);
    }
}

/// The value of all limbs.
pub proof fn lemma_value_full(s: Seq<u32>)
    ensures
        s.take(s.len() as int) == s,
{
}

/// The value of eight limbs.
pub proof fn lemma_value_8(s: Seq<u32>)
    requires
        s.len() == 8,
    ensures
        value(s) == s[0] + 0x1_0000_0000 * s[1] + 0x1_0000_0000_0000_0000 * s[2]
            + 0x1_0000_0000_0000_0000_0000_0000int * s[3]
            + 0x1_0000_0000_0000_0000_0000_0000_0000_0000int * s[4]
            + 0x1_0000_0000_0000_0000_0000_0000_0000_0000_0000_0000int * s[5]
            + 0x1_0000_0000_0000_0000_0000_0000_0000_0000_0000_0000_0000_0000int * s[6]
            + 0x1_0000_0000_0000_0000_0000_0000_0000_0000_0000_0000_0000_0000_0000_0000int * s[7],
{
    lemma_value_skip(s, 0);
    lemma_value_skip(s, 1);
    lemma_value_skip(s, 2);
    lemma_value_skip(s, 3);
    lemma_value_skip(s, 4);
    lemma_value_skip(s, 5);
    lemma_value_skip(s, 6);
    lemma_value_skip(s, 7);
    assert(s.skip(0) == s);
    assert(s.skip(8) == Seq::<u32>::empty());
}

/// The value of the group order.
pub proof fn lemma_group_order_value()
    ensures
        value(GROUP_ORDER@) == order::group_order(),
{
    lemma_value_8(GROUP_ORDER@);
}

/// `2^256`.
#[verifier::inline]
pub open spec fn modulus_256() -> int {
    0x1_0000_0000_0000_0000_0000_0000_0000_0000_0000_0000_0000_0000_0000_0000_0000_0000int
}

/// The powers of the radix as powers of two.
pub proof fn lemma_radix_power(n: nat)
    ensures
        radix_power(n) == power2::pow2(32 * n),
        radix_power(n) > 0,
    decreases n,
{
    power2::lemma2_to64();
    if n > 0 {
        let k = (n - 1) as nat;
        lemma_radix_power(k);
        power2::lemma_pow2_adds(32, 32 * k);
        assert(32 + 32 * k == 32 * n);
    }
}

/// `2^256` as a power of the radix.
pub proof fn lemma_radix_power_8()
    ensures
        radix_power(8) == modulus_256(),
{
    reveal_with_fuel(radix_power, 9);
}

/// Powers of the radix multiply by adding the exponents.
pub proof fn lemma_radix_power_add(m: nat, n: nat)
    ensures
        radix_power(m + n) == radix_power(m) * radix_power(n),
    decreases m,
{
    if m > 0 {
        let k = (m - 1) as nat;
        lemma_radix_power_add(k, n);
        assert((m + n - 1) as nat == k + n);
        let a = radix_power(k);
        let b = radix_power(n);
        assert(radix() * (a * b) == (radix() * a) * b) by (nonlinear_arith);
    }
}

/// A digit and a carry make up a sum in its place.
pub proof fn lemma_carry(place: int, sum: int, carry: int, digit: int)
    requires
        sum == radix() * carry + digit,
    ensures
        place * digit + (radix() * place) * carry == place * sum,
{
    assert(place * digit + (0x1_0000_0000 * place) * carry == place * (0x1_0000_0000 * carry
        + digit)) by (nonlinear_arith);
}

/// Writing a limb changes the value in its place.
pub proof fn lemma_value_update(s: Seq<u32>, k: int, v: u32)
    requires
        0 <= k < s.len(),
    ensures
        value(s.update(k, v)) == value(s) + radix_power(k as nat) * (v - s[k]),
    decreases s.len(),
{
    let t = s.update(k, v);
    if k == 0 {
        assert(t.drop_first() == s.drop_first());
        assert(radix_power(0) * (v - s[k]) == v - s[k]);
    } else {
        assert(t.drop_first() == s.drop_first().update(k - 1, v));
        lemma_value_update(s.drop_first(), k - 1, v);
        let r = radix_power((k - 1) as nat);
        let d = v - s[k];
        assert(radix() * (r * d) == (radix() * r) * d) by (nonlinear_arith);
        let w = value(s.drop_first());
        assert(radix() * (w + r * d) == radix() * w + radix() * (r * d)) by (nonlinear_arith);
    }
}

/// The highest limb in which two scalars differ decides.
pub proof fn lemma_compare(a: Seq<u32>, b: Seq<u32>, i: int)
    requires
        a.len() == b.len(),
        0 <= i < a.len(),
        a.skip(i + 1) == b.skip(i + 1),
        a[i] > b[i],
    ensures
        value(a) > value(b),
{
    lemma_value_split(a, i);
    lemma_value_split(b, i);
    lemma_value_skip(a, i);
    lemma_value_skip(b, i);
    lemma_value_bound(a.take(i));
    lemma_value_bound(b.take(i));
    let p = radix_power(i as nat);
    let w = radix() * value(a.skip(i + 1));
    assert(p * (a[i] + w) - p * (b[i] + w) >= p) by (nonlinear_arith)
        requires
            a[i] > b[i],
            p > 0,
    ;
}

/// The limbs from `i` on agree when those after `i` do and the limb at `i` does.
pub proof fn lemma_skip_equal(a: Seq<u32>, b: Seq<u32>, i: int)
    requires
        a.len() == b.len(),
        0 <= i < a.len(),
        a.skip(i + 1) == b.skip(i + 1),
        a[i] == b[i],
    ensures
        a.skip(i) == b.skip(i),
{
    assert forall|k: int| 0 <= k < a.len() - i implies a.skip(i)[k] == b.skip(i)[k] by {
        if k > 0 {
            assert(a.skip(i + 1)[k - 1] == b.skip(i + 1)[k - 1]);
        }
    }
    assert(a.skip(i) =~= b.skip(i));
}

/// Sum of two 256-bit integers, and whether it overflowed.
pub fn u256_add(a: &[u32; 8], b: &[u32; 8]) -> (r: ([u32; 8], bool))
    ensures
        value(r.0@) + (if r.1 {
            modulus_256()
        } else {
            0
        }) == value(a@) + value(b@),
{
    let mut result: [u32; 8] = [0; 8];
    let mut carry: u64 = 0;
    for i in 0..8usize
        invariant
            carry <= 1,
            value(result@.take(i as int)) + radix_power(i as nat) * carry == value(a@.take(i as int))
                + value(b@.take(i as int)),
    {
        let sum: u64 = a[i] as u64 + b[i] as u64 + carry;
        assert(sum as u32 == sum % 0x1_0000_0000) by (bit_vector);
        assert(sum >> 32 == sum / 0x1_0000_0000) by (bit_vector);
        let ghost before = result@;
        let ghost n = i as int;
        let ghost old_carry = carry as int;
        result[i] = sum as u32;
        carry = sum >> 32;
        proof {
            assert(result@.take(n) == before.take(n));
            lemma_value_take(result@, n);
            lemma_value_take(a@, n);
            lemma_value_take(b@, n);
            let place = radix_power(i as nat);
            lemma_carry(place, sum as int, carry as int, result[n] as int);
            assert(place * sum == place * a[n] + place * b[n] + place * old_carry)
                by (nonlinear_arith)
                requires
                    sum == a[n] + b[n] + old_carry,
            ;
        }
    }
    proof {
        lemma_value_full(a@);
        lemma_value_full(b@);
        lemma_value_full(result@);
        lemma_radix_power_8();
    }
    (result, carry != 0)
}

/// Difference of two 256-bit integers, and whether it borrowed.
pub fn u256_sub(a: &[u32; 8], b: &[u32; 8]) -> (r: ([u32; 8], bool))
    ensures
        value(r.0@) == value(a@) - value(b@) + (if r.1 {
            modulus_256()
        } else {
            0
        }),
        r.1 == (value(a@) < value(b@)),
{
    let mut result: [u32; 8] = [0; 8];
    let mut borrow: i64 = 0;
    for i in 0..8usize
        invariant
            0 <= borrow <= 1,
            value(result@.take(i as int)) == value(a@.take(i as int)) - value(b@.take(i as int))
                + radix_power(i as nat) * borrow,
    {
        let diff: i64 = a[i] as i64 - b[i] as i64 - borrow;
        let ghost before = result@;
        let ghost n = i as int;
        let ghost old_borrow = borrow as int;
        if diff < 0 {
            result[i] = (diff + 0x1_0000_0000) as u32;
            borrow = 1;
        } else {
            result[i] = diff as u32;
            borrow = 0;
        }
        proof {
            assert(result@.take(n) == before.take(n));
            lemma_value_take(result@, n);
            lemma_value_take(a@, n);
            lemma_value_take(b@, n);
            let place = radix_power(i as nat);
            lemma_carry(place, diff as int, -(borrow as int), result[n] as int);
            assert(place * diff == place * a[n] - place * b[n] - place * old_borrow)
                by (nonlinear_arith)
                requires
                    diff == a[n] - b[n] - old_borrow,
            ;
            assert((radix() * place) * (-(borrow as int)) == -((radix() * place) * borrow))
                by (nonlinear_arith);
        }
    }
    proof {
        lemma_value_full(a@);
        lemma_value_full(b@);
        lemma_value_full(result@);
        lemma_radix_power_8();
        lemma_value_bound(result@);
    }
    (result, borrow != 0)
}

/// Whether one 256-bit integer is at least another.
pub fn u256_gte(a: &[u32; 8], b: &[u32; 8]) -> (r: bool)
    ensures
        r == (value(a@) >= value(b@)),
{
    let mut i: usize = 8;
    while i > 0
        invariant
            i <= 8,
            a@.skip(i as int) == b@.skip(i as int),
        decreases i,
    {
        i = i - 1;
        if a[i] > b[i] {
            proof {
                lemma_compare(a@, b@, i as int);
            }
            return true;
        }
        if a[i] < b[i] {
            proof {
                lemma_compare(b@, a@, i as int);
            }
            return false;
        }
        proof {
            lemma_skip_equal(a@, b@, i as int);
        }
    }
    proof {
        assert(a@.skip(0) == a@);
        assert(b@.skip(0) == b@);
    }
    true
}

/// One subtraction of the group order, where it fits.
pub fn scalar_reduce(a: &[u32; 8]) -> (r: [u32; 8])
    ensures
        value(r@) == (if value(a@) >= order::group_order() {
            value(a@) - order::group_order()
        } else {
            value(a@)
        }),
        value(a@) < 2 * order::group_order() ==> value(r@) == value(a@) % (
        order::group_order() as int),
{
    proof {
        lemma_group_order_value();
        lemma_value_bound(a@);
    }
    if u256_gte(a, &GROUP_ORDER) {
        let (result, _) = u256_sub(a, &GROUP_ORDER);
        result
    } else {
        *a
    }
}

/// Sum of scalars modulo the group order.
pub fn scalar_add(a: &[u32; 8], b: &[u32; 8]) -> (r: [u32; 8])
    ensures
        ({
            let s = (value(a@) + value(b@)) % modulus_256();
            value(r@) == if s >= order::group_order() {
                s - order::group_order()
            } else {
                s
            }
        }),
        value(a@) < order::group_order() && value(b@) < order::group_order() ==> value(r@) == (value(
            a@,
        ) + value(b@)) % (order::group_order() as int),
{
    let (sum, _) = u256_add(a, b);
    proof {
        lemma_radix_power_8();
        lemma_value_bound(a@);
        lemma_value_bound(b@);
        lemma_value_bound(sum@);
    }
    scalar_reduce(&sum)
}

/// Difference of scalars modulo the group order.
pub fn scalar_sub(a: &[u32; 8], b: &[u32; 8]) -> (r: [u32; 8])
    ensures
        value(r@) == (if value(a@) >= value(b@) {
            value(a@) - value(b@)
        } else {
            (value(a@) - value(b@) + order::group_order()) % modulus_256()
        }),
        value(a@) < order::group_order() && value(b@) < order::group_order() ==> value(r@) == (value(
            a@,
        ) - value(b@)) % (order::group_order() as int),
{
    let (diff, borrow) = u256_sub(a, b);
    proof {
        lemma_group_order_value();
        lemma_radix_power_8();
        lemma_value_bound(a@);
        lemma_value_bound(b@);
        lemma_value_bound(diff@);
    }
    if borrow {
        let (result, _) = u256_add(&diff, &GROUP_ORDER);
        proof {
            lemma_value_bound(result@);
        }
        result
    } else {
        diff
    }
}

/// Subtracting a scalar undoes its addition, and the other way round.
pub proof fn lemma_add_sub(a: int, b: int)
    requires
        0 <= a < order::group_order(),
        0 <= b < order::group_order(),
    ensures
        ((a + b) % (order::group_order() as int) - b) % (order::group_order() as int) == a,
        ((a - b) % (order::group_order() as int) + b) % (order::group_order() as int) == a,
{
}

/// Scalars add and multiply in any order, and one is neutral.
pub proof fn lemma_scalar_laws(a: int, b: int)
    ensures
        (a + b) % (order::group_order() as int) == (b + a) % (order::group_order() as int),
        a * b % (order::group_order() as int) == b * a % (order::group_order() as int),
        0 <= a < order::group_order() ==> a * 1 % (order::group_order() as int) == a,
{
    vstd::arithmetic::mul::lemma_mul_is_commutative(a, b);
}

} // verus!
