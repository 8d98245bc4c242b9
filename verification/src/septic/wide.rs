//! 512-bit products and their reduction modulo the group order.
use crate::algebra::order;
use crate::septic::scalar;
use crate::septic::scalar::{scalar_reduce, GROUP_ORDER};
use vstd::arithmetic::div_mod;
use vstd::arithmetic::power2;
use vstd::prelude::*;

verus! {

/// The number of significant bits of the group order.
const R_BITS: usize = 217;

/// A row of a product, one limb further.
proof fn lemma_row_step(total: int, place: int, p: int, old_limb: int, carry: int, ab: int)
    requires
        p == ab + old_limb + carry,
    ensures
        total + place * (p % scalar::radix() - old_limb) + (scalar::radix() * place) * (p
            / scalar::radix()) == total + place * carry + place * ab,
{
    let d = p % scalar::radix();
    let q = p / scalar::radix();
    assert(place * (d - old_limb) + (0x1_0000_0000 * place) * q == place * (ab + carry))
        by (nonlinear_arith)
        requires
            ab + old_limb + carry == 0x1_0000_0000 * q + d,
    ;
    assert(place * (ab + carry) == place * carry + place * ab) by (nonlinear_arith);
}

/// Schoolbook product of two 256-bit integers.
pub fn u256_full_mul(a: &[u32; 8], b: &[u32; 8]) -> (out: [u32; 16])
    ensures
        scalar::value(out@) == scalar::value(a@) * scalar::value(b@),
{
    let mut out: [u32; 16] = [0; 16];
    proof {
        lemma_zero_value(out@);
        assert(a@.take(0) == Seq::<u32>::empty());
        assert(0 * scalar::value(b@) == 0);
    }
    for i in 0..8usize
        invariant
            scalar::value(out@) == scalar::value(a@.take(i as int)) * scalar::value(b@),
            forall|k: int| i + 8 <= k < 16 ==> (#[trigger] out[k]) == 0,
    {
        let mut carry: u64 = 0;
        let ghost start = scalar::value(out@);
        let ghost place = scalar::radix_power(i as nat);
        let ghost digit = a[i as int] as int;
        proof {
            assert(b@.take(0) == Seq::<u32>::empty());
            assert((place * digit) * 0 == 0) by (nonlinear_arith);
            assert(scalar::radix_power((i + 0) as nat) * 0 == 0) by (nonlinear_arith);
        }
        for j in 0..8usize
            invariant
                0 <= i < 8,
                digit == a[i as int],
                place == scalar::radix_power(i as nat),
                carry < 0x1_0000_0000,
                scalar::value(out@) + scalar::radix_power((i + j) as nat) * carry == start + (place
                    * digit) * scalar::value(b@.take(j as int)),
                forall|k: int| i + 8 <= k < 16 ==> (#[trigger] out[k]) == 0,
        {
            let ghost n = i as int;
            let ghost m = j as int;
            assert(a[n] * b[m] <= 0xffff_ffff * 0xffff_ffff) by (nonlinear_arith)
                requires
                    a[n] <= 0xffff_ffff,
                    b[m] <= 0xffff_ffff,
            ;
            let p: u64 = a[i] as u64 * b[j] as u64 + out[i + j] as u64 + carry;
            assert(p as u32 == p % 0x1_0000_0000) by (bit_vector);
            assert(p >> 32 == p / 0x1_0000_0000) by (bit_vector);
            let ghost before = out@;
            let ghost old_carry = carry as int;
            out[i + j] = p as u32;
            carry = p >> 32;
            proof {
                let here = scalar::radix_power((i + j) as nat);
                scalar::lemma_value_update(before, i + j, p as u32);
                lemma_row_step(
                    scalar::value(before),
                    here,
                    p as int,
                    before[i + j] as int,
                    old_carry,
                    a[n] * b[m],
                );
                scalar::lemma_radix_power_add(i as nat, j as nat);
                scalar::lemma_value_take(b@, m);
                let right = scalar::radix_power(j as nat);
                let v = scalar::value(b@.take(m));
                assert((place * right) * (digit * b[m]) + (place * digit) * v == (place * digit) * (v
                    + right * b[m])) by (nonlinear_arith);
                assert(((i + j + 1) - 1) as nat == (i + j) as nat);
                assert(out@ == before.update(i + j, p as u32));
            }
        }
        let ghost before = out@;
        out[i + 8] = carry as u32;
        proof {
            scalar::lemma_value_update(before, i + 8, carry as u32);
            scalar::lemma_value_full(b@);
            scalar::lemma_value_take(a@, i as int);
            let w = scalar::value(b@);
            let v = scalar::value(a@.take(i as int));
            assert(v * w + (place * digit) * w == (v + place * digit) * w) by (nonlinear_arith);
            assert(out@ == before.update(i + 8, carry as u32));
        }
    }
    proof {
        scalar::lemma_value_full(a@);
    }
    out
}

/// Limbs that are all zero.
proof fn lemma_zero_value(s: Seq<u32>)
    requires
        forall|k: int| 0 <= k < s.len() ==> s[k] == 0,
    ensures
        scalar::value(s) == 0,
    decreases s.len(),
{
    if s.len() > 0 {
        lemma_zero_value(s.drop_first());
    }
}

/// Whether one 512-bit integer is at least another.
fn u512_gte_u512(a: &[u32; 16], b: &[u32; 16]) -> (r: bool)
    ensures
        r == (scalar::value(a@) >= scalar::value(b@)),
{
    let mut i: usize = 16;
    while i > 0
        invariant
            i <= 16,
            a@.skip(i as int) == b@.skip(i as int),
        decreases i,
    {
        i = i - 1;
        if a[i] > b[i] {
            proof {
                scalar::lemma_compare(a@, b@, i as int);
            }
            return true;
        }
        if a[i] < b[i] {
            proof {
                scalar::lemma_compare(b@, a@, i as int);
            }
            return false;
        }
        proof {
            scalar::lemma_skip_equal(a@, b@, i as int);
        }
    }
    proof {
        assert(a@.skip(0) == a@);
        assert(b@.skip(0) == b@);
    }
    true
}

/// Difference of two 512-bit integers.
fn u512_sub(a: &[u32; 16], b: &[u32; 16]) -> (result: [u32; 16])
    requires
        scalar::value(a@) >= scalar::value(b@),
    ensures
        scalar::value(result@) == scalar::value(a@) - scalar::value(b@),
{
    let mut result: [u32; 16] = [0; 16];
    let mut borrow: i64 = 0;
    for i in 0..16usize
        invariant
            0 <= borrow <= 1,
            scalar::value(result@.take(i as int)) == scalar::value(a@.take(i as int))
                - scalar::value(b@.take(i as int)) + scalar::radix_power(i as nat) * borrow,
    {
        let diff: i64 = a[i] as i64 - b[i] as i64 - borrow;
        let ghost before = result@;
        let ghost n = i as int;
        let ghost old_borrow = borrow as int;
        if diff < 0 {
            result[i] = (diff + 0x1_0000_0000) as u32;
            borrow = 1;
        } else {
            result[i] = diff as u32;
            borrow = 0;
        }
        proof {
            assert(result@.take(n) == before.take(n));
            scalar::lemma_value_take(result@, n);
            scalar::lemma_value_take(a@, n);
            scalar::lemma_value_take(b@, n);
            let place = scalar::radix_power(i as nat);
            scalar::lemma_carry(place, diff as int, -(borrow as int), result[n] as int);
            assert(place * diff == place * a[n] - place * b[n] - place * old_borrow)
                by (nonlinear_arith)
                requires
                    diff == a[n] - b[n] - old_borrow,
            ;
            assert((scalar::radix() * place) * (-(borrow as int)) == -((scalar::radix() * place)
                * borrow)) by (nonlinear_arith);
        }
    }
    proof {
        scalar::lemma_value_full(a@);
        scalar::lemma_value_full(b@);
        scalar::lemma_value_full(result@);
        scalar::lemma_value_bound(result@);
        let top = scalar::radix_power(16);
        assert(borrow == 1 ==> top * borrow == top);
    }
    result
}

/// The number of significant bits.
fn bit_length(w: u32) -> (bits: usize)
    ensures
        bits <= 32,
        w < power2::pow2(bits as nat),
        bits > 0 ==> w >= power2::pow2((bits - 1) as nat),
{
    let mut rest: u32 = w;
    let mut bits: usize = 0;
    proof {
        power2::lemma2_to64();
    }
    while rest > 0
        invariant
            bits <= 32,
            rest < power2::pow2((32 - bits) as nat),
            rest * power2::pow2(bits as nat) <= w,
            w < (rest + 1) * power2::pow2(bits as nat),
            rest == 0 && bits > 0 ==> w >= power2::pow2((bits - 1) as nat),
        decreases rest,
    {
        let ghost r = rest as int;
        let ghost p = power2::pow2(bits as nat) as int;
        proof {
            power2::lemma2_to64();
            if bits < 32 {
                power2::lemma_pow2_unfold((32 - bits) as nat);
            }
            power2::lemma_pow2_unfold((bits + 1) as nat);
            power2::lemma_pow2_pos(bits as nat);
            assert((r / 2) * (2 * p) <= r * p) by (nonlinear_arith)
                requires
                    p > 0,
            ;
            assert((r + 1) * p <= (r / 2 + 1) * (2 * p)) by (nonlinear_arith)
                requires
                    p > 0,
            ;
            assert(r * p >= p) by (nonlinear_arith)
                requires
                    r >= 1,
                    p > 0,
            ;
        }
        rest = rest / 2;
        bits = bits + 1;
    }
    proof {
        let p = power2::pow2(bits as nat) as int;
        assert((rest + 1) * p == p) by (nonlinear_arith)
            requires
                rest == 0,
        ;
    }
    bits
}

/// The position one above the highest set bit of a 512-bit integer, or zero.
fn high_bit(a: &[u32; 16]) -> (bits: usize)
    ensures
        bits <= 512,
        scalar::value(a@) < power2::pow2(bits as nat),
{
    let mut i: usize = 16;
    while i > 0
        invariant
            i <= 16,
            forall|k: int| i <= k < 16 ==> (#[trigger] a[k]) == 0,
        decreases i,
    {
        i = i - 1;
        if a[i] != 0 {
            let bits = i * 32 + bit_length(a[i]);
            proof {
                let n = i as int;
                let m = (bits - 32 * i) as nat;
                scalar::lemma_value_split(a@, n);
                scalar::lemma_value_skip(a@, n);
                lemma_zero_value(a@.skip(n + 1));
                scalar::lemma_value_bound(a@.take(n));
                scalar::lemma_radix_power(i as nat);
                power2::lemma_pow2_adds(32 * i as nat, m);
                let p = scalar::radix_power(i as nat);
                let w = power2::pow2(m) as int;
                assert(p * a[n] + p <= p * w) by (nonlinear_arith)
                    requires
                        a[n] + 1 <= w,
                        p > 0,
                ;
            }
            return bits;
        }
    }
    proof {
        lemma_zero_value(a@);
        power2::lemma2_to64();
    }
    0
}

/// The group order has 217 bits.
proof fn lemma_order_bits()
    ensures
        power2::pow2(216) <= order::group_order() < power2::pow2(217),
{
    power2::lemma2_to64();
    power2::lemma_pow2_adds(64, 64);
    power2::lemma_pow2_adds(128, 64);
    power2::lemma_pow2_adds(192, 24);
    power2::lemma_pow2_adds(216, 1);
}

/// The group order shifted to the left.
fn shifted_order(shift: usize) -> (out: [u32; 16])
    requires
        shift <= 512 - R_BITS,
    ensures
        scalar::value(out@) == order::group_order() * power2::pow2(shift as nat),
{
    let word_shift: usize = shift / 32;
    let bit_shift: u64 = (shift % 32) as u64;
    let factor: u64 = 1u64 << bit_shift;
    let mut out: [u32; 16] = [0; 16];
    let mut carry: u64 = 0;
    let ghost f = factor as int;
    let ghost base = scalar::radix_power(word_shift as nat);
    let ghost full = order::group_order() * power2::pow2(shift as nat);
    proof {
        lemma_shift_factor(shift as nat, bit_shift, factor);
        scalar::lemma_group_order_value();
        lemma_zero_value(out@);
        assert(GROUP_ORDER@.take(0) == Seq::<u32>::empty());
        assert((f * base) * 0 == 0) by (nonlinear_arith);
        assert(scalar::radix_power((word_shift + 0) as nat) * 0 == 0) by (nonlinear_arith);
    }
    for i in 0..8usize
        invariant
            word_shift <= 9,
            f == factor,
            1 <= factor <= 0x8000_0000,
            carry < 0x8000_0000,
            base == scalar::radix_power(word_shift as nat),
            full == (f * base) * order::group_order(),
            full < scalar::radix_power(16),
            scalar::value(GROUP_ORDER@) == order::group_order(),
            scalar::value(out@) + scalar::radix_power((word_shift + i) as nat) * carry == (f * base)
                * scalar::value(GROUP_ORDER@.take(i as int)),
            forall|k: int| word_shift + i <= k < 16 ==> (#[trigger] out[k]) == 0,
    {
        let ghost n = i as int;
        let ghost place = scalar::radix_power((word_shift + i) as nat);
        assert(GROUP_ORDER[n] * factor <= 0xffff_ffff * 0x8000_0000) by (nonlinear_arith)
            requires
                GROUP_ORDER[n] <= 0xffff_ffff,
                factor <= 0x8000_0000,
        ;
        let t: u64 = GROUP_ORDER[i] as u64 * factor + carry;
        assert(t as u32 == t % 0x1_0000_0000) by (bit_vector);
        assert(t >> 32 == t / 0x1_0000_0000) by (bit_vector);
        let ghost old_carry = carry as int;
        let ghost before = out@;
        proof {
            scalar::lemma_value_take(GROUP_ORDER@, n);
            scalar::lemma_radix_power_add(word_shift as nat, i as nat);
            let r = scalar::radix_power(i as nat);
            let v = scalar::value(GROUP_ORDER@.take(n));
            let g = GROUP_ORDER[n] as int;
            assert((f * base) * (v + r * g) == (f * base) * v + (base * r) * (g * f))
                by (nonlinear_arith);
            assert(place * (g * f + old_carry) == place * (g * f) + place * old_carry)
                by (nonlinear_arith);
            lemma_partial_bound(f * base, GROUP_ORDER@, n);
            scalar::lemma_value_bound(out@);
        }
        if word_shift + i < 16 {
            out[word_shift + i] = t as u32;
            carry = t >> 32;
            proof {
                scalar::lemma_value_update(before, word_shift + i, t as u32);
                scalar::lemma_carry(place, t as int, carry as int, (t as u32) as int);
                assert(out@ == before.update(word_shift + i, t as u32));
                assert(((word_shift + i + 1) - 1) as nat == (word_shift + i) as nat);
            }
        } else {
            proof {
                assert(i == 7 && word_shift == 9);
                assert(old_carry == 0) by (nonlinear_arith)
                    requires
                        old_carry >= 0,
                        place > 0,
                        place * old_carry < place,
                ;
                assert(GROUP_ORDER[7] == 0);
                assert(0 * f == 0);
                assert(place * 0 == 0);
                assert(scalar::radix_power((word_shift + i + 1) as nat) * 0 == 0)
                    by (nonlinear_arith);
            }
            carry = t >> 32;
        }
    }
    proof {
        scalar::lemma_value_full(GROUP_ORDER@);
    }
    if word_shift + 8 < 16 {
        let ghost before = out@;
        out[word_shift + 8] = carry as u32;
        proof {
            scalar::lemma_value_update(before, word_shift + 8, carry as u32);
            assert(out@ == before.update(word_shift + 8, carry as u32));
        }
    } else {
        proof {
            let place = scalar::radix_power((word_shift + 8) as nat);
            let c = carry as int;
            scalar::lemma_value_bound(out@);
            lemma_radix_increases(16, (word_shift + 8) as nat);
            assert(c == 0) by (nonlinear_arith)
                requires
                    c >= 0,
                    place > 0,
                    place * c < place,
            ;
            assert(place * 0 == 0);
        }
    }
    out
}

/// The value of the first limbs is at most the whole.
proof fn lemma_partial_bound(f: int, s: Seq<u32>, n: int)
    requires
        0 <= n < s.len(),
        f >= 0,
    ensures
        f * scalar::value(s.take(n)) <= f * scalar::value(s),
        f * scalar::value(s.take(n + 1)) <= f * scalar::value(s),
{
    scalar::lemma_value_split(s, n);
    scalar::lemma_value_split(s, n + 1);
    scalar::lemma_value_bound(s.skip(n));
    scalar::lemma_value_bound(s.skip(n + 1));
    scalar::lemma_radix_power(n as nat);
    scalar::lemma_radix_power((n + 1) as nat);
    lemma_scaled_part(f, scalar::value(s.take(n)), scalar::radix_power(n as nat), scalar::value(
        s.skip(n),
    ));
    lemma_scaled_part(
        f,
        scalar::value(s.take(n + 1)),
        scalar::radix_power((n + 1) as nat),
        scalar::value(s.skip(n + 1)),
    );
}

proof fn lemma_scaled_part(f: int, a: int, p: int, b: int)
    requires
        f >= 0,
        p >= 0,
        b >= 0,
    ensures
        f * a <= f * (a + p * b),
{
    assert(p * b >= 0) by (nonlinear_arith)
        requires
            p >= 0,
            b >= 0,
    ;
    let c = a + p * b;
    assert(f * a <= f * c) by (nonlinear_arith)
        requires
            f >= 0,
            a <= c,
    ;
}

proof fn lemma_radix_increases(m: nat, n: nat)
    requires
        m <= n,
    ensures
        0 < scalar::radix_power(m) <= scalar::radix_power(n),
    decreases n - m,
{
    scalar::lemma_radix_power(m);
    if m < n {
        lemma_radix_increases(m, (n - 1) as nat);
    }
}

/// The factor of a shift.
proof fn lemma_shift_factor(shift: nat, bit_shift: u64, factor: u64)
    requires
        shift <= 295,
        bit_shift == shift % 32,
        factor == 1u64 << bit_shift,
    ensures
        1 <= factor <= 0x8000_0000,
        order::group_order() * power2::pow2(shift) == (factor * scalar::radix_power(shift / 32))
            * order::group_order(),
        order::group_order() * power2::pow2(shift) < scalar::radix_power(16),
{
    vstd::bits::lemma_u64_pow2_no_overflow(bit_shift as nat);
    vstd::bits::lemma_u64_shl_is_mul(1, bit_shift);
    power2::lemma2_to64();
    if bit_shift < 31 {
        power2::lemma_pow2_strictly_increases(bit_shift as nat, 31);
    }
    power2::lemma_pow2_pos(bit_shift as nat);
    scalar::lemma_radix_power(shift / 32);
    scalar::lemma_radix_power(16);
    power2::lemma_pow2_adds(bit_shift as nat, 32 * (shift / 32));
    lemma_order_bits();
    power2::lemma_pow2_adds(217, shift);
    let r = order::group_order() as int;
    let t = power2::pow2(shift) as int;
    vstd::arithmetic::mul::lemma_mul_is_commutative(r, t);
    power2::lemma_pow2_pos(shift);
    let top = power2::pow2(217) as int;
    assert(r * t < top * t) by (nonlinear_arith)
        requires
            r < top,
            t > 0,
    ;
    if 217 + shift < 512 {
        power2::lemma_pow2_strictly_increases(217 + shift, 512);
    }
}

/// A 512-bit integer modulo the group order, by binary long division.
pub fn reduce_512_mod_r(product: &[u32; 16]) -> (out: [u32; 8])
    ensures
        scalar::value(out@) == scalar::value(product@) % (order::group_order() as int),
{
    let mut rem: [u32; 16] = *product;
    let high = high_bit(&rem);
    let ghost r = order::group_order() as int;
    let ghost total = scalar::value(product@);
    proof {
        lemma_order_bits();
        scalar::lemma_value_bound(product@);
    }
    if high <= R_BITS {
        proof {
            if high < 217 {
                power2::lemma_pow2_strictly_increases(high as nat, 217);
            }
            power2::lemma_pow2_unfold(217);
            lemma_low_half(rem@);
        }
        let out = low_half(&rem);
        return scalar_reduce(&out);
    }
    let mut shift: usize = high - R_BITS + 1;
    proof {
        let s = (high - 217) as nat;
        power2::lemma_pow2_adds(217, s);
        power2::lemma_pow2_unfold(217);
        power2::lemma_pow2_unfold(s + 1);
        power2::lemma_pow2_pos(s);
        let a = power2::pow2(216) as int;
        let t = power2::pow2(s) as int;
        assert((2 * a) * t <= r * (2 * t)) by (nonlinear_arith)
            requires
                a <= r,
                t > 0,
        ;
    }
    while shift > 0
        invariant
            r == order::group_order(),
            shift <= 512 - R_BITS + 1,
            0 <= scalar::value(rem@) < r * power2::pow2(shift as nat),
            scalar::value(rem@) % r == total % r,
        decreases shift,
    {
        shift = shift - 1;
        let shifted_r = shifted_order(shift);
        let ghost t = power2::pow2(shift as nat) as int;
        proof {
            power2::lemma_pow2_unfold((shift + 1) as nat);
            assert(r * (2 * t) == 2 * (r * t)) by (nonlinear_arith);
        }
        if u512_gte_u512(&rem, &shifted_r) {
            let ghost before = scalar::value(rem@);
            rem = u512_sub(&rem, &shifted_r);
            proof {
                assert(before == r * t + scalar::value(rem@));
                div_mod::lemma_mod_multiples_vanish(t, scalar::value(rem@), r);
            }
        }
        proof {
            scalar::lemma_value_bound(rem@);
        }
    }
    proof {
        power2::lemma2_to64();
        let one = power2::pow2(0) as int;
        assert(r * one == r) by (nonlinear_arith)
            requires
                one == 1,
        ;
        div_mod::lemma_small_mod(scalar::value(rem@) as nat, r as nat);
        lemma_low_half(rem@);
    }
    low_half(&rem)
}

/// A value below `2^256` is the value of its first eight limbs.
proof fn lemma_low_half(s: Seq<u32>)
    requires
        s.len() == 16,
        scalar::value(s) < scalar::modulus_256(),
    ensures
        scalar::value(s.take(8)) == scalar::value(s),
{
    scalar::lemma_value_split(s, 8);
    scalar::lemma_radix_power_8();
    scalar::lemma_value_bound(s.take(8));
    scalar::lemma_value_bound(s.skip(8));
    let p = scalar::radix_power(8);
    let v = scalar::value(s.skip(8));
    assert(v == 0) by (nonlinear_arith)
        requires
            v >= 0,
            p > 0,
            p * v < p,
    ;
    assert(p * 0 == 0);
}

/// The first eight limbs.
fn low_half(a: &[u32; 16]) -> (out: [u32; 8])
    ensures
        out@ == a@.take(8),
{
    let out: [u32; 8] = [a[0], a[1], a[2], a[3], a[4], a[5], a[6], a[7]];
    assert(out@ =~= a@.take(8));
    out
}

/// `(a * b) mod r`.
pub fn scalar_mul_mod_r(a: &[u32; 8], b: &[u32; 8]) -> (r: [u32; 8])
    ensures
        scalar::value(r@) == scalar::value(a@) * scalar::value(b@) % (order::group_order() as int),
{
    let product = u256_full_mul(a, b);
    reduce_512_mod_r(&product)
}

} // verus!
