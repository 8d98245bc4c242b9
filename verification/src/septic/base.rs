//! The KoalaBear base field.
use crate::algebra::powers;
use vstd::arithmetic::div_mod;
use vstd::arithmetic::power;
use vstd::prelude::*;

verus! {

/// The KoalaBear prime `2^31 - 2^24 + 1`.
pub const P: u64 = 2130706433;

/// Sum modulo the prime.  A sum of residues is a residue; of other arguments at most one
/// modulus is taken off, and the result is cut to 32 bits.
pub fn kb_add(a: u32, b: u32) -> (r: u32)
    ensures
        r as int == (if a + b >= P {
            a + b - P
        } else {
            a + b
        }) % 0x1_0000_0000,
        a < P && b < P ==> r as int == (a + b) % (P as int),
{
    let s: u64 = a as u64 + b as u64;
    let t: u64 = if s >= P {
        s - P
    } else {
        s
    };
    assert(t as u32 == t % 0x1_0000_0000) by (bit_vector);
    t as u32
}

/// Difference modulo the prime.
pub fn kb_sub(a: u32, b: u32) -> (r: u32)
    requires
        b <= a + P,
    ensures
        r as int == (if a >= b {
            a - b
        } else {
            a + P - b
        }),
        a < P && b < P ==> r as int == (a - b) % (P as int),
{
    let s: u64 = a as u64 + P - b as u64;
    (if s >= P {
        s - P
    } else {
        s
    }) as u32
}

/// Product modulo the prime.
pub fn kb_mul(a: u32, b: u32) -> (r: u32)
    ensures
        r as int == (a * b) % (P as int),
        r < P,
{
    assert(a * b <= 0xffff_ffff * 0xffff_ffff) by (nonlinear_arith)
        requires
            a <= 0xffff_ffff,
            b <= 0xffff_ffff,
    ;
    ((a as u64 * b as u64) % P) as u32
}

/// Negation modulo the prime.
pub fn kb_neg(a: u32) -> (r: u32)
    requires
        a <= P,
    ensures
        r as int == (if a == 0 {
            0
        } else {
            P - a
        }),
        a < P ==> r as int == (-a) % (P as int),
{
    if a == 0 {
        0
    } else {
        (P - a as u64) as u32
    }
}

/// Power modulo the prime, by square and multiply.
pub fn kb_pow(base: u32, exp: u64) -> (r: u32)
    ensures
        r as int == power::pow(base as int, exp as nat) % (P as int),
{
    let mut b: u32 = base;
    let mut e: u64 = exp;
    let mut result: u32 = 1;
    proof {
        power::lemma_pow_mod_noop(base as int, exp as nat, P as int);
        let w = power::pow(base as int, exp as nat);
        assert(1 * w == w);
    }
    while e > 0
        invariant
            (result * power::pow(b as int, e as nat)) % (P as int) == power::pow(
                base as int,
                exp as nat,
            ) % (P as int),
            result < P,
        decreases e,
    {
        let ghost b0 = b as int;
        let ghost e0 = e as nat;
        let ghost r0 = result as int;
        let ghost p = P as int;
        assert(e & 1 == e % 2) by (bit_vector);
        assert(e >> 1 == e / 2) by (bit_vector);
        if e & 1 == 1 {
            result = kb_mul(result, b);
        }
        b = kb_mul(b, b);
        e = e >> 1;
        proof {
            lemma_square_step(b0, e as nat, p);
            let s = power::pow(b as int, e as nat);
            let t = power::pow(b0, 2 * e as nat);
            if e0 % 2 == 1 {
                power::lemma_pow_adds(b0, 1, 2 * e as nat);
                power::lemma_pow1(b0);
                assert(r0 * (b0 * t) == (r0 * b0) * t) by (nonlinear_arith);
                div_mod::lemma_mul_mod_noop_left(r0 * b0, s, p);
                div_mod::lemma_mul_mod_noop_right(r0 * b0, s, p);
                div_mod::lemma_mul_mod_noop_right(r0 * b0, t, p);
            } else {
                div_mod::lemma_mul_mod_noop_right(r0, s, p);
                div_mod::lemma_mul_mod_noop_right(r0, t, p);
            }
        }
    }
    proof {
        power::lemma_pow0(b as int);
        div_mod::lemma_small_mod(result as nat, P as nat);
    }
    result
}

/// A power of the residue of a square.
proof fn lemma_square_step(b: int, n: nat, p: int)
    requires
        p > 0,
    ensures
        power::pow(b * b % p, n) % p == power::pow(b, 2 * n) % p,
{
    power::lemma_pow_mod_noop(b * b, n, p);
    power::lemma_pow_multiplies(b, 2, n);
    power::lemma_pow_adds(b, 1, 1);
    power::lemma_pow1(b);
}

/// Inverse modulo the prime, as the power with exponent `p - 2`.
pub fn kb_inv(a: u32) -> (r: u32)
    requires
        a != 0,
    ensures
        r as int == power::pow(a as int, (P - 2) as nat) % (P as int),
        a as int % (P as int) != 0 ==> (a * r) % (P as int) == 1,
        r < P,
{
    let r = kb_pow(a, P - 2);
    proof {
        if a as int % (P as int) != 0 {
            powers::lemma_fermat(a as nat);
            div_mod::lemma_mul_mod_noop_right(
                a as int,
                power::pow(a as int, (P - 2) as nat),
                P as int,
            );
        }
    }
    r
}

} // verus!
