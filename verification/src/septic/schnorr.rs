//! Schnorr signatures over the septic curve.
use crate::algebra::curve::Point;
use crate::algebra::element::Fe;
use crate::algebra::group;
use crate::algebra::order;
use crate::algebra::order_prime;
use crate::bytes;
use crate::digest;
use crate::digest::sha256;
use crate::septic::base::P;
use crate::septic::fp7::Fp7;
use crate::septic::point;
use crate::septic::point::SepticPoint;
use crate::septic::scalar;
use crate::septic::scalar::scalar_sub;
use crate::septic::wide::scalar_mul_mod_r;
use num_bigint::{BigUint, RandBigInt};
use rand::RngCore;
use vstd::arithmetic::div_mod;
use vstd::prelude::*;

verus! {

/// A signature: the commitment `R` and the response `s`.
#[derive(Clone, Debug)]
pub struct SepticSchnorrSignature {
    pub r_x: Fp7,
    pub r_y: Fp7,
    pub s: [u32; 8],
}

/// A signed order with the public key.
#[derive(Clone, Debug)]
pub struct SepticSchnorrOrder {
    pub account_address: [u8; 20],
    pub key_index: u8,
    pub market: String,
    pub side: String,
    pub price: u64,
    pub quantity: u64,
    pub signature: SepticSchnorrSignature,
    pub pubkey_x: Fp7,
    pub pubkey_y: Fp7,
}

/// A signed order with the challenge of its signature.
#[derive(Clone, Debug)]
pub struct SepticBenchWitness {
    pub order: SepticSchnorrOrder,
    pub challenge_e: [u32; 8],
}

/// The point belongs to the subgroup whose order is the order of the generator.
pub open spec fn in_subgroup(p: Point) -> bool {
    p.valid() && p.times(order::group_order()) == Point::Infinity
}

/// Multiples of the generator belong to the subgroup.
pub proof fn lemma_in_subgroup(n: nat)
    ensures
        in_subgroup(order::generator().times(n)),
{
    let g = order::generator();
    let r = order::group_order();
    order::lemma_generator();
    order::lemma_group_order();
    group::lemma_times_closed(g, n);
    group::lemma_times_mul(g, n, r);
    group::lemma_times_mul(g, r, n);
    vstd::arithmetic::mul::lemma_mul_is_commutative(n as int, r as int);
    group::lemma_times_infinity(n);
}

/// In the subgroup, only the remainder of a multiple by the group order counts.
pub proof fn lemma_times_mod(p: Point, n: nat)
    requires
        in_subgroup(p),
    ensures
        p.times(n) == p.times(n % order::group_order()),
{
    let r = order::group_order();
    let q = n / r;
    let m = n % r;
    div_mod::lemma_fundamental_div_mod(n as int, r as int);
    group::lemma_times_add(p, r * q, m);
    group::lemma_times_mul(p, r, q);
    group::lemma_times_infinity(q);
}

/// The hash of the commitment, the key and the message, as an integer modulo the group order.
pub open spec fn challenge(r_x: Seq<u32>, pubkey_x: Seq<u32>, msg_hash: Seq<u8>) -> int {
    bytes::be_value(
        digest::sha_256(bytes::le4_all(r_x) + bytes::le4_all(pubkey_x) + msg_hash),
    ) % (order::group_order() as int)
}

/// `s G + e A`.
pub open spec fn schnorr_sum(pubkey: Point, s: int, e: int) -> Point {
    order::generator().times(s as nat).plus(
        point::double_and_add(Point::Infinity, pubkey, e as nat),
    )
}

/// The signature with commitment `(r_x, r_y)` and response `s` holds for the key, with the
/// challenge `e`.
pub open spec fn verifies(
    pubkey: SepticPoint,
    r_x: Seq<u32>,
    r_y: Seq<u32>,
    s: Seq<u32>,
    e: Seq<u32>,
) -> bool {
    &&& pubkey.wf()
    &&& schnorr_sum(pubkey@, scalar::value(s), scalar::value(e)) == affine(r_x, r_y)
}

/// The affine point with the given coefficients.
pub open spec fn affine(x: Seq<u32>, y: Seq<u32>) -> Point {
    Point::Affine { x: coefficients(x), y: coefficients(y) }
}

/// The element with the given coefficients.
pub open spec fn coefficients(x: Seq<u32>) -> Fe {
    Fe {
        c0: x[0] as int,
        c1: x[1] as int,
        c2: x[2] as int,
        c3: x[3] as int,
        c4: x[4] as int,
        c5: x[5] as int,
        c6: x[6] as int,
    }
}

/// A response `s = k - e a` modulo the group order satisfies `s G + e (a G) = k G`.
pub proof fn lemma_schnorr(a: nat, k: nat, e: nat, s: nat)
    requires
        s as int == (k - e * a) % (order::group_order() as int),
    ensures
        schnorr_sum(order::generator().times(a), s as int, e as int) == order::generator().times(k),
{
    let g = order::generator();
    let r = order::group_order();
    order::lemma_generator();
    group::lemma_times_closed(g, a);
    point::lemma_double_and_add(Point::Infinity, g.times(a), e);
    group::lemma_times_mul(g, a, e);
    group::lemma_times_add(g, s, a * e);
    lemma_generator_in_subgroup();
    lemma_times_mod(g, s + a * e);
    lemma_times_mod(g, k);
    vstd::arithmetic::mul::lemma_mul_is_commutative(a as int, e as int);
    div_mod::lemma_add_mod_noop(k - e * a, (e * a) as int, r as int);
    div_mod::lemma_add_mod_noop((k - e * a) % (r as int), (e * a) as int, r as int);
    div_mod::lemma_mod_twice(k - e * a, r as int);
}

/// The generator belongs to the subgroup.
pub proof fn lemma_generator_in_subgroup()
    ensures
        in_subgroup(order::generator()),
{
    lemma_in_subgroup(1);
    group::lemma_times_small(order::generator());
}

/// The limbs of 32 bytes with the highest byte first.
fn limbs_from_be(b: &[u8; 32]) -> (limbs: [u32; 8])
    ensures
        scalar::value(limbs@) == bytes::be_value(b@),
{
    let mut limbs: [u32; 8] = [0; 8];
    proof {
        lemma_zero_limbs(limbs@.skip(8));
        assert(b@.take(0) =~= Seq::<u8>::empty());
    }
    let mut i: usize = 8;
    while i > 0
        invariant
            i <= 8,
            scalar::value(limbs@.skip(i as int)) == bytes::be_value(b@.take(32 - 4 * i)),
        decreases i,
    {
        i = i - 1;
        let j: usize = 28 - 4 * i;
        let ghost before = limbs@;
        let word: u32 = 16777216 * (b[j] as u32) + 65536 * (b[j + 1] as u32) + 256 * (b[j + 2]
            as u32) + b[j + 3] as u32;
        limbs[i] = word;
        proof {
            scalar::lemma_value_skip(limbs@, i as int);
            assert(limbs@.skip(i + 1) =~= before.skip(i + 1));
            bytes::lemma_be_four(b@, j as int);
        }
    }
    proof {
        assert(limbs@.skip(0) =~= limbs@);
        assert(b@.take(32) =~= b@);
    }
    limbs
}

/// The limbs of 32 bytes with the lowest byte first.
pub fn limbs_from_le(b: &[u8; 32]) -> (limbs: [u32; 8])
    ensures
        scalar::value(limbs@) == bytes::le_value(b@),
{
    let mut reversed: [u8; 32] = [0; 32];
    for i in 0..32usize
        invariant
            forall|k: int| 0 <= k < i ==> #[trigger] reversed[k] == b[31 - k],
    {
        reversed[i] = b[31 - i];
    }
    assert(reversed@ =~= b@.reverse());
    limbs_from_be(&reversed)
}

proof fn lemma_zero_limbs(s: Seq<u32>)
    requires
        s.len() == 0,
    ensures
        scalar::value(s) == 0,
{
}

/// A 256-bit integer modulo the group order.
pub fn reduce_256_mod_r(a: &[u32; 8]) -> (r: [u32; 8])
    ensures
        scalar::value(r@) == scalar::value(a@) % (order::group_order() as int),
{
    let one: [u32; 8] = [1, 0, 0, 0, 0, 0, 0, 0];
    proof {
        scalar::lemma_value_8(one@);
        assert(scalar::value(a@) * 1 == scalar::value(a@));
    }
    scalar_mul_mod_r(a, &one)
}

/// Whether a 256-bit integer is a multiple of the group order.
pub fn is_order_multiple(a: &[u32; 8]) -> (r: bool)
    ensures
        r == (scalar::value(a@) % (order::group_order() as int) == 0),
{
    let remainder = reduce_256_mod_r(a);
    let zero: [u32; 8] = [0; 8];
    proof {
        scalar::lemma_value_8(zero@);
        scalar::lemma_value_bound(remainder@);
    }
    scalar::u256_gte(&zero, &remainder)
}

/// The challenge of a commitment, a key and the hash of a message.
pub fn schnorr_challenge(r_x: &Fp7, pubkey_x: &Fp7, msg_hash: &[u8; 32]) -> (e: [u32; 8])
    ensures
        scalar::value(e@) == challenge(r_x.0@, pubkey_x.0@, msg_hash@),
{
    let mut input: Vec<u8> = Vec::new();
    let r_bytes = r_x.to_bytes();
    let key_bytes = pubkey_x.to_bytes();
    input.extend_from_slice(r_bytes.as_slice());
    input.extend_from_slice(key_bytes.as_slice());
    input.extend_from_slice(msg_hash.as_slice());
    assert(input@ =~= bytes::le4_all(r_x.0@) + bytes::le4_all(pubkey_x.0@) + msg_hash@);
    let hash = sha256(input.as_slice());
    let limbs = limbs_from_be(&hash);
    reduce_256_mod_r(&limbs)
}

/// `s G + e A`.
pub fn schnorr_compute(pubkey: &SepticPoint, s: &[u32; 8], e: &[u32; 8]) -> (r: SepticPoint)
    requires
        pubkey.wf(),
    ensures
        r@ == schnorr_sum(pubkey@, scalar::value(s@), scalar::value(e@)),
        r.wf(),
{
    let s_g = SepticPoint::generator().scalar_mul(s);
    let e_a = pubkey.scalar_mul(e);
    s_g.add(&e_a)
}

/// Whether the coefficients are residues below the prime.
pub fn is_canonical(a: &[u32; 7]) -> (r: bool)
    ensures
        r == coefficients(a@).canonical(),
{
    proof {
        reveal(Fe::canonical);
    }
    let p: u32 = P as u32;
    a[0] < p && a[1] < p && a[2] < p && a[3] < p && a[4] < p && a[5] < p && a[6] < p
}

/// Whether `s G + e A` is the affine point with the coordinates of the commitment.
pub fn schnorr_equation(
    pubkey: &SepticPoint,
    r_x: &[u32; 7],
    r_y: &[u32; 7],
    s: &[u32; 8],
    e: &[u32; 8],
) -> (r: bool)
    ensures
        r == verifies(*pubkey, r_x@, r_y@, s@, e@),
{
    if !pubkey.is_infinity && !(is_canonical(&pubkey.x.0) && is_canonical(&pubkey.y.0)) {
        return false;
    }
    let sum = schnorr_compute(pubkey, s, e);
    !sum.is_infinity && sum.x == Fp7(*r_x) && sum.y == Fp7(*r_y)
}

/// Signs the hash of a message with the private scalar `a` and the nonce `k`.
///
/// Returns the coordinates of the commitment `R = k G`, the response `s = k - e a` and the
/// challenge `e`, both modulo the group order.  The signature holds for the public key of the
/// private scalar, unless the nonce is a multiple of the group order.
pub fn schnorr_sign(
    a_limbs: &[u32; 8],
    pubkey: &SepticPoint,
    k_limbs: &[u32; 8],
    msg_hash: &[u8; 32],
) -> (sig: ([u32; 7], [u32; 7], [u32; 8], [u32; 8]))
    ensures
        scalar::value(k_limbs@) % (order::group_order() as int) != 0 ==> affine(sig.0@, sig.1@)
            == order::generator().times(scalar::value(k_limbs@) as nat),
        scalar::value(k_limbs@) % (order::group_order() as int) == 0 ==> coefficients(sig.0@)
            == Fe::zero() && coefficients(sig.1@) == Fe::zero(),
        scalar::value(sig.3@) == challenge(sig.0@, pubkey.x.0@, msg_hash@),
        scalar::value(sig.2@) == (scalar::value(k_limbs@) - scalar::value(sig.3@) * scalar::value(
            a_limbs@,
        )) % (order::group_order() as int),
        pubkey@ == order::generator().times(scalar::value(a_limbs@) as nat) && scalar::value(
            k_limbs@,
        ) % (order::group_order() as int) != 0 ==> verifies(
            *pubkey,
            sig.0@,
            sig.1@,
            sig.2@,
            sig.3@,
        ),
{
    let r_point = SepticPoint::generator().scalar_mul(k_limbs);
    let commitment = if r_point.is_infinity {
        SepticPoint::infinity()
    } else {
        r_point
    };
    let e = schnorr_challenge(&commitment.x, &pubkey.x, msg_hash);
    let ea = scalar_mul_mod_r(&e, a_limbs);
    let k = reduce_256_mod_r(k_limbs);
    let s = scalar_sub(&k, &ea);
    proof {
        let r = order::group_order() as int;
        let kv = scalar::value(k_limbs@);
        let av = scalar::value(a_limbs@);
        let ev = scalar::value(e@);
        scalar::lemma_value_bound(k_limbs@);
        scalar::lemma_value_bound(a_limbs@);
        scalar::lemma_value_bound(e@);
        scalar::lemma_value_bound(s@);
        order_prime::lemma_multiple_infinity(kv as nat);
        div_mod::lemma_sub_mod_noop(kv, ev * av, r);
        if pubkey@ == order::generator().times(av as nat) {
            order::lemma_generator();
            group::lemma_times_closed(order::generator(), av as nat);
            lemma_schnorr(av as nat, kv as nat, ev as nat, scalar::value(s@) as nat);
        }
    }
    (commitment.x.0, commitment.y.0, s, e)
}

/// Whether a signature of the hash of a message holds: the challenge is that of the commitment,
/// the key and the hash, and `s G + e A` is the commitment.
pub fn schnorr_verify(
    pubkey: &SepticPoint,
    msg_hash: &[u8; 32],
    r_x: &[u32; 7],
    r_y: &[u32; 7],
    s: &[u32; 8],
    e: &[u32; 8],
) -> (r: bool)
    ensures
        r == (scalar::value(e@) == challenge(r_x@, pubkey.x.0@, msg_hash@) && verifies(
            *pubkey,
            r_x@,
            r_y@,
            s@,
            e@,
        )),
{
    let expected = schnorr_challenge(&Fp7(*r_x), &pubkey.x, msg_hash);
    let (_, below) = scalar::u256_sub(&expected, e);
    let (_, above) = scalar::u256_sub(e, &expected);
    !below && !above && schnorr_equation(pubkey, r_x, r_y, s, e)
}

/// `rand::rngs::OsRng`, asked for 32 bytes.  Nothing is claimed of them.
#[verifier::external_body]
fn random_bytes() -> (r: [u8; 32]) {
    let mut out = [0u8; 32];
    rand::rngs::OsRng.fill_bytes(&mut out);
    out
}

/// The scalar of 32 bytes, lowest first: their value modulo the group order, unless that is
/// zero.
pub fn scalar_from_bytes(b: &[u8; 32]) -> (r: Option<[u32; 8]>)
    ensures
        r is None <==> bytes::le_value(b@) % (order::group_order() as int) == 0,
        r is Some ==> scalar::value(r->0@) == bytes::le_value(b@) % (
        order::group_order() as int),
{
    let limbs = limbs_from_le(b);
    if is_order_multiple(&limbs) {
        None
    } else {
        Some(reduce_256_mod_r(&limbs))
    }
}

/// `num_bigint::RandBigInt::gen_biguint_range` with the generator of the operating system, on
/// integers in limbs, lowest first: some integer that is at least the lower bound and below the
/// upper one.
#[verifier::external_body]
fn random_between(low: &[u32; 8], high: &[u32; 8]) -> (r: [u32; 8])
    requires
        scalar::value(low@) < scalar::value(high@),
    ensures
        scalar::value(low@) <= scalar::value(r@) < scalar::value(high@),
{
    let lower = BigUint::new(low.to_vec());
    let upper = BigUint::new(high.to_vec());
    let mut digits = rand::rngs::OsRng.gen_biguint_range(&lower, &upper).to_u32_digits();
    digits.resize(8, 0);
    digits.try_into().unwrap()
}

/// The scalar of 32 drawn bytes, or where that would be zero, one drawn among the others.
pub fn scalar_or_redraw(drawn: &[u8; 32]) -> (r: [u32; 8])
    ensures
        0 < scalar::value(r@) < order::group_order(),
        bytes::le_value(drawn@) % (order::group_order() as int) != 0 ==> scalar::value(r@)
            == bytes::le_value(drawn@) % (order::group_order() as int),
{
    match scalar_from_bytes(drawn) {
        Some(k) => {
            proof {
                scalar::lemma_value_bound(k@);
            }
            k
        },
        None => {
            let one: [u32; 8] = [1, 0, 0, 0, 0, 0, 0, 0];
            proof {
                scalar::lemma_group_order_value();
                scalar::lemma_value_8(one@);
            }
            random_between(&one, &scalar::GROUP_ORDER)
        },
    }
}

/// A random scalar other than zero.
pub fn random_scalar() -> (r: [u32; 8])
    ensures
        0 < scalar::value(r@) < order::group_order(),
{
    scalar_or_redraw(&random_bytes())
}

} // verus!
