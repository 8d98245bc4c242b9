//! Batches of signed orders, checked one by one or by one combined equation.
use crate::algebra::curve;
use crate::algebra::curve::Point;
use crate::algebra::group;
use crate::algebra::order;
use crate::bytes;
use crate::bytes::u32_to_le;
use crate::digest;
use crate::digest::sha256;
use crate::septic::point;
use crate::septic::point::SepticPoint;
use crate::septic::scalar;
use crate::septic::scalar::scalar_add;
use crate::septic::schnorr;
use crate::septic::schnorr::{is_canonical, limbs_from_le, schnorr_equation, SepticBenchWitness};
use crate::septic::wide::scalar_mul_mod_r;
use vstd::arithmetic::div_mod;
use vstd::prelude::*;

verus! {

/// The public key of a Schnorr order.
pub open spec fn bench_pubkey(w: SepticBenchWitness) -> SepticPoint {
    SepticPoint { x: w.order.pubkey_x, y: w.order.pubkey_y, is_infinity: false }
}

/// The signature of a Schnorr order holds.
pub open spec fn bench_verifies(w: SepticBenchWitness) -> bool {
    schnorr::verifies(
        bench_pubkey(w),
        w.order.signature.r_x.0@,
        w.order.signature.r_y.0@,
        w.order.signature.s@,
        w.challenge_e@,
    )
}

/// Whether the signature of a Schnorr order holds.
pub fn check_bench(w: &SepticBenchWitness) -> (r: bool)
    ensures
        r == bench_verifies(*w),
{
    let pubkey = SepticPoint::new(w.order.pubkey_x, w.order.pubkey_y);
    schnorr_equation(
        &pubkey,
        &w.order.signature.r_x.0,
        &w.order.signature.r_y.0,
        &w.order.signature.s,
        &w.challenge_e,
    )
}

/// Every signature of a batch holds.
pub open spec fn all_verify(orders: Seq<SepticBenchWitness>) -> bool {
    forall|i: int| 0 <= i < orders.len() ==> bench_verifies(#[trigger] orders[i])
}

/// Whether every signature of a batch holds.
pub fn check_all(orders: &Vec<SepticBenchWitness>) -> (r: bool)
    ensures
        r == all_verify(orders@),
{
    for i in 0..orders.len()
        invariant
            forall|k: int| 0 <= k < i ==> bench_verifies(#[trigger] orders[k]),
    {
        if !check_bench(&orders[i]) {
            assert(!bench_verifies(orders[i as int]));
            return false;
        }
    }
    true
}

// ── The combined equation ─────────────────────────────────────────────────

/// The commitment point of a Schnorr order.
pub open spec fn bench_commitment(w: SepticBenchWitness) -> SepticPoint {
    SepticPoint { x: w.order.signature.r_x, y: w.order.signature.r_y, is_infinity: false }
}

/// What the commitment of a batch holds of one order: the two points and the challenge.
pub open spec fn order_bytes(w: SepticBenchWitness) -> Seq<u8> {
    bytes::le4_all(w.order.signature.r_x.0@) + bytes::le4_all(w.order.signature.r_y.0@)
        + bytes::le4_all(w.order.pubkey_x.0@) + bytes::le4_all(w.order.pubkey_y.0@)
        + bytes::le4_all(w.challenge_e@)
}

/// The concatenated bytes of the orders.
pub open spec fn batch_bytes(orders: Seq<SepticBenchWitness>) -> Seq<u8>
    decreases orders.len(),
{
    if orders.len() == 0 {
        seq![]
    } else {
        batch_bytes(orders.drop_last()) + order_bytes(orders.last())
    }
}

/// The weight of an order: the low 128 bits of the hash of the batch and the position.
pub open spec fn weight(orders: Seq<SepticBenchWitness>, i: int) -> int {
    bytes::le_value(
        digest::sha_256(
            digest::sha_256(batch_bytes(orders)) + bytes::le4((i % 0x1_0000_0000) as u32),
        ).take(16),
    )
}

/// The weighted sum of the first `n` responses.
pub open spec fn response_sum(orders: Seq<SepticBenchWitness>, n: int) -> int
    decreases n,
{
    if n <= 0 {
        0
    } else {
        response_sum(orders, n - 1) + weight(orders, n - 1) * scalar::value(
            orders[n - 1].order.signature.s@,
        )
    }
}

/// The sum of the first `n` keys, each multiplied by its weight and its challenge.
pub open spec fn key_sum(orders: Seq<SepticBenchWitness>, n: int) -> Point
    decreases n,
{
    if n <= 0 {
        Point::Infinity
    } else {
        let factor = weight(orders, n - 1) * scalar::value(orders[n - 1].challenge_e@) % (
        order::group_order() as int);
        key_sum(orders, n - 1).plus(
            point::double_and_add(Point::Infinity, bench_pubkey(orders[n - 1])@, factor as nat),
        )
    }
}

/// The sum of the first `n` commitments, each multiplied by its weight.
pub open spec fn commitment_sum(orders: Seq<SepticBenchWitness>, n: int) -> Point
    decreases n,
{
    if n <= 0 {
        Point::Infinity
    } else {
        commitment_sum(orders, n - 1).plus(
            point::double_and_add(
                Point::Infinity,
                bench_commitment(orders[n - 1])@,
                weight(orders, n - 1) as nat,
            ),
        )
    }
}

/// Every point of the batch has canonical coordinates.
pub open spec fn all_canonical(orders: Seq<SepticBenchWitness>) -> bool {
    forall|i: int|
        0 <= i < orders.len() ==> bench_pubkey(#[trigger] orders[i]).wf() && bench_commitment(
            orders[i],
        ).wf()
}

/// The combined equation of a batch: the weighted responses times the generator, plus the
/// weighted keys, are the weighted commitments.
pub open spec fn batch_equation(orders: Seq<SepticBenchWitness>) -> bool {
    let n = orders.len() as int;
    &&& all_canonical(orders)
    &&& order::generator().times(
        (response_sum(orders, n) % (order::group_order() as int)) as nat,
    ).plus(key_sum(orders, n)) == commitment_sum(orders, n)
}

/// Multiples of a sum are sums of multiples.
pub proof fn lemma_times_sum(p: Point, q: Point, n: nat)
    requires
        p.valid(),
        q.valid(),
    ensures
        p.plus(q).times(n) == p.times(n).plus(q.times(n)),
    decreases n,
{
    if n == 0 {
        group::lemma_times_small(p);
        group::lemma_times_small(q);
        group::lemma_times_small(p.plus(q));
    } else {
        let m = (n - 1) as nat;
        lemma_times_sum(p, q, m);
        curve::lemma_plus_closed(p, q);
        group::lemma_times_small(p);
        group::lemma_times_small(q);
        group::lemma_times_small(p.plus(q));
        group::lemma_times_add(p.plus(q), 1, m);
        group::lemma_times_add(p, 1, m);
        group::lemma_times_add(q, 1, m);
        assert(1 + m == n);
        group::lemma_times_closed(p, m);
        group::lemma_times_closed(q, m);
        lemma_exchange(p, q, p.times(m), q.times(m));
    }
}

/// `(p + q) + (s + t) = (p + s) + (q + t)`.
pub proof fn lemma_exchange(p: Point, q: Point, s: Point, t: Point)
    requires
        p.valid(),
        q.valid(),
        s.valid(),
        t.valid(),
    ensures
        p.plus(q).plus(s.plus(t)) == p.plus(s).plus(q.plus(t)),
{
    curve::lemma_plus_closed(s, t);
    curve::lemma_plus_closed(q, t);
    group::lemma_plus_assoc(p, q, s.plus(t));
    group::lemma_plus_assoc(q, s, t);
    curve::lemma_plus_comm(q, s);
    group::lemma_plus_assoc(s, q, t);
    group::lemma_plus_assoc(p, s, q.plus(t));
}

/// A weight is not negative.
proof fn lemma_weight(orders: Seq<SepticBenchWitness>, i: int)
    ensures
        weight(orders, i) >= 0,
{
    bytes::lemma_be_value_nonnegative(
        digest::sha_256(
            digest::sha_256(batch_bytes(orders)) + bytes::le4((i % 0x1_0000_0000) as u32),
        ).take(16).reverse(),
    );
}

/// The sum of responses is not negative.
pub proof fn lemma_response_sum(orders: Seq<SepticBenchWitness>, n: int)
    ensures
        response_sum(orders, n) >= 0,
    decreases n,
{
    if n > 0 {
        lemma_response_sum(orders, n - 1);
        lemma_weight(orders, n - 1);
        scalar::lemma_value_bound(orders[n - 1].order.signature.s@);
        vstd::arithmetic::mul::lemma_mul_nonnegative(
            weight(orders, n - 1),
            scalar::value(orders[n - 1].order.signature.s@),
        );
    }
}

/// One order whose signature holds, multiplied by a weight.
pub proof fn lemma_weighted(a: Point, s: nat, e: nat, w: nat)
    requires
        schnorr::in_subgroup(a),
    ensures
        schnorr::schnorr_sum(a, s as int, e as int).valid(),
        schnorr::schnorr_sum(a, s as int, e as int).times(w) == order::generator().times(
            w * s,
        ).plus(
            point::double_and_add(Point::Infinity, a, (w * e % order::group_order()) as nat),
        ),
{
    let g = order::generator();
    order::lemma_generator();
    point::lemma_double_and_add(Point::Infinity, a, e);
    point::lemma_double_and_add(Point::Infinity, a, (w * e % order::group_order()) as nat);
    group::lemma_times_closed(g, s);
    group::lemma_times_closed(a, e);
    curve::lemma_plus_closed(g.times(s), a.times(e));
    lemma_times_sum(g.times(s), a.times(e), w);
    group::lemma_times_mul(g, s, w);
    group::lemma_times_mul(a, e, w);
    vstd::arithmetic::mul::lemma_mul_is_commutative(s as int, w as int);
    vstd::arithmetic::mul::lemma_mul_is_commutative(e as int, w as int);
    schnorr::lemma_times_mod(a, w * e);
}

/// The combined equation of the first `n` orders, with the sums' validity.
proof fn lemma_batch_prefix(orders: Seq<SepticBenchWitness>, n: int)
    requires
        0 <= n <= orders.len(),
        all_verify(orders),
        forall|i: int|
            0 <= i < orders.len() ==> schnorr::in_subgroup(bench_pubkey(#[trigger] orders[i])@),
    ensures
        key_sum(orders, n).valid(),
        commitment_sum(orders, n).valid(),
        order::generator().times(response_sum(orders, n) as nat).plus(key_sum(orders, n))
            == commitment_sum(orders, n),
    decreases n,
{
    let g = order::generator();
    order::lemma_generator();
    if n == 0 {
        group::lemma_times_small(g);
    } else {
        lemma_batch_prefix(orders, n - 1);
        let o = orders[n - 1];
        let a = bench_pubkey(o)@;
        let s = scalar::value(o.order.signature.s@);
        let e = scalar::value(o.challenge_e@);
        let w = weight(orders, n - 1);
        let total = response_sum(orders, n - 1);
        scalar::lemma_value_bound(o.order.signature.s@);
        scalar::lemma_value_bound(o.challenge_e@);
        lemma_weight(orders, n - 1);
        lemma_response_sum(orders, n - 1);
        assert(schnorr::in_subgroup(a));
        assert(bench_verifies(o));
        let c = bench_commitment(o)@;
        assert(c == schnorr::schnorr_sum(a, s, e));
        lemma_weighted(a, s as nat, e as nat, w as nat);
        point::lemma_double_and_add(Point::Infinity, c, w as nat);
        let part = point::double_and_add(
            Point::Infinity,
            a,
            (w * e % (order::group_order() as int)) as nat,
        );
        vstd::arithmetic::mul::lemma_mul_nonnegative(w, s);
        vstd::arithmetic::mul::lemma_mul_nonnegative(w, e);
        assert(((w as nat) * (e as nat) % order::group_order()) as nat == (w * e % (
        order::group_order() as int)) as nat);
        assert((w as nat) * (s as nat) == (w * s) as nat);
        point::lemma_double_and_add(
            Point::Infinity,
            a,
            (w * e % (order::group_order() as int)) as nat,
        );
        group::lemma_times_closed(a, (w * e % (order::group_order() as int)) as nat);
        group::lemma_times_closed(c, w as nat);
        group::lemma_times_closed(g, total as nat);
        group::lemma_times_closed(g, (w * s) as nat);
        group::lemma_times_add(g, total as nat, (w * s) as nat);
        assert((total as nat) + ((w * s) as nat) == (total + w * s) as nat);
        curve::lemma_plus_closed(key_sum(orders, n - 1), part);
        curve::lemma_plus_closed(commitment_sum(orders, n - 1), c.times(w as nat));
        lemma_exchange(
            g.times(total as nat),
            g.times((w * s) as nat),
            key_sum(orders, n - 1),
            part,
        );
        assert(Point::Infinity.plus(c.times(w as nat)) == c.times(w as nat));
    }
}

/// A batch whose signatures all hold, with keys of the subgroup, satisfies the combined
/// equation.
pub proof fn lemma_batch_complete(orders: Seq<SepticBenchWitness>)
    requires
        all_verify(orders),
        forall|i: int|
            0 <= i < orders.len() ==> schnorr::in_subgroup(bench_pubkey(#[trigger] orders[i])@),
    ensures
        batch_equation(orders),
{
    let n = orders.len() as int;
    lemma_batch_prefix(orders, n);
    lemma_response_sum(orders, n);
    schnorr::lemma_generator_in_subgroup();
    schnorr::lemma_times_mod(order::generator(), response_sum(orders, n) as nat);
    assert forall|i: int| 0 <= i < orders.len() implies bench_pubkey(#[trigger] orders[i]).wf()
        && bench_commitment(orders[i]).wf() by {
        let o = orders[i];
        assert(bench_verifies(o));
        assert(schnorr::in_subgroup(bench_pubkey(o)@));
        scalar::lemma_value_bound(o.order.signature.s@);
        scalar::lemma_value_bound(o.challenge_e@);
        lemma_weighted(
            bench_pubkey(o)@,
            scalar::value(o.order.signature.s@) as nat,
            scalar::value(o.challenge_e@) as nat,
            0,
        );
        assert(bench_commitment(o)@.valid());
    }
}

/// The product of two 256-bit integers modulo the group order.
pub fn scalar_mul_mod_r_fast(a: &[u32; 8], b: &[u32; 8]) -> (r: [u32; 8])
    ensures
        scalar::value(r@) == scalar::value(a@) * scalar::value(b@) % (order::group_order() as int),
{
    scalar_mul_mod_r(a, b)
}

/// The bytes that the commitment of a batch hashes.
fn collect_bytes(orders: &Vec<SepticBenchWitness>) -> (out: Vec<u8>)
    ensures
        out@ == batch_bytes(orders@),
{
    let mut out: Vec<u8> = Vec::new();
    assert(orders@.take(0) =~= Seq::<SepticBenchWitness>::empty());
    for i in 0..orders.len()
        invariant
            out@ == batch_bytes(orders@.take(i as int)),
    {
        let w = &orders[i];
        let ghost before = out@;
        let r_x = w.order.signature.r_x.to_bytes();
        let r_y = w.order.signature.r_y.to_bytes();
        let key_x = w.order.pubkey_x.to_bytes();
        let key_y = w.order.pubkey_y.to_bytes();
        out.extend_from_slice(r_x.as_slice());
        out.extend_from_slice(r_y.as_slice());
        out.extend_from_slice(key_x.as_slice());
        out.extend_from_slice(key_y.as_slice());
        append_limbs(&mut out, &w.challenge_e);
        proof {
            assert(out@ =~= before + order_bytes(*w));
            assert(orders@.take(i + 1).drop_last() =~= orders@.take(i as int));
        }
    }
    assert(orders@.take(orders@.len() as int) =~= orders@);
    out
}

/// Appends the little-endian bytes of the limbs.
fn append_limbs(out: &mut Vec<u8>, limbs: &[u32; 8])
    ensures
        final(out)@ == old(out)@ + bytes::le4_all(limbs@),
{
    assert(out@ =~= old(out)@ + bytes::le4_all(limbs@.take(0)));
    for j in 0..8usize
        invariant
            out@ == old(out)@ + bytes::le4_all(limbs@.take(j as int)),
    {
        let b = u32_to_le(limbs[j]);
        out.extend_from_slice(b.as_slice());
        proof {
            assert(limbs@.take(j + 1).drop_last() =~= limbs@.take(j as int));
            assert(out@ =~= old(out)@ + bytes::le4_all(limbs@.take(j + 1)));
        }
    }
    assert(limbs@.take(8) =~= limbs@);
}

/// The limbs of the low 16 bytes of a digest, lowest first.
fn low_limbs(d: &[u8; 32]) -> (limbs: [u32; 8])
    ensures
        scalar::value(limbs@) == bytes::le_value(d@.take(16)),
{
    let mut low: [u8; 32] = [0; 32];
    for i in 0..16usize
        invariant
            forall|k: int| 0 <= k < i ==> low[k] == d[k],
            forall|k: int| i <= k < 32 ==> low[k] == 0,
    {
        low[i] = d[i];
    }
    proof {
        let zeros = Seq::new(16, |i: int| 0u8);
        assert(low@.reverse() =~= zeros + d@.take(16).reverse());
        bytes::lemma_leading_zeros(zeros, d@.take(16).reverse());
    }
    limbs_from_le(&low)
}

/// The weights of the orders of a batch.
fn batch_weights(orders: &Vec<SepticBenchWitness>) -> (weights: Vec<[u32; 8]>)
    ensures
        weights.len() == orders.len(),
        forall|i: int|
            0 <= i < orders.len() ==> scalar::value((#[trigger] weights[i])@) == weight(orders@, i),
{
    let committed = collect_bytes(orders);
    let commitment = sha256(committed.as_slice());
    let mut weights: Vec<[u32; 8]> = Vec::new();
    for i in 0..orders.len()
        invariant
            commitment@ == digest::sha_256(batch_bytes(orders@)),
            weights.len() == i,
            forall|k: int|
                0 <= k < i ==> scalar::value((#[trigger] weights[k])@) == weight(orders@, k),
    {
        let mut input: Vec<u8> = Vec::new();
        input.extend_from_slice(commitment.as_slice());
        let position: u32 = (i as u64 % 0x1_0000_0000) as u32;
        let b = u32_to_le(position);
        input.extend_from_slice(b.as_slice());
        assert(input@ =~= commitment@ + bytes::le4(position));
        let d = sha256(input.as_slice());
        weights.push(low_limbs(&d));
    }
    weights
}

/// Whether every point of the batch has canonical coordinates.
fn check_canonical(orders: &Vec<SepticBenchWitness>) -> (r: bool)
    ensures
        r == all_canonical(orders@),
{
    for i in 0..orders.len()
        invariant
            forall|k: int|
                0 <= k < i ==> bench_pubkey(#[trigger] orders[k]).wf() && bench_commitment(
                    orders[k],
                ).wf(),
    {
        let o = &orders[i].order;
        if !(is_canonical(&o.pubkey_x.0) && is_canonical(&o.pubkey_y.0) && is_canonical(
            &o.signature.r_x.0,
        ) && is_canonical(&o.signature.r_y.0)) {
            assert(!(bench_pubkey(orders[i as int]).wf() && bench_commitment(
                orders[i as int],
            ).wf()));
            return false;
        }
    }
    true
}

/// One more term of the sum of responses, modulo the group order.
proof fn lemma_response_step(orders: Seq<SepticBenchWitness>, i: int)
    requires
        0 <= i < orders.len(),
    ensures
        ({
            let r = order::group_order() as int;
            let term = weight(orders, i) * scalar::value(orders[i].order.signature.s@) % r;
            &&& 0 <= response_sum(orders, i) % r < r
            &&& 0 <= term < r
            &&& response_sum(orders, i + 1) % r == (response_sum(orders, i) % r + term) % r
        }),
{
    let r = order::group_order() as int;
    let product = weight(orders, i) * scalar::value(orders[i].order.signature.s@);
    div_mod::lemma_mod_bound(response_sum(orders, i), r);
    div_mod::lemma_mod_bound(product, r);
    div_mod::lemma_add_mod_noop(response_sum(orders, i), product, r);
}

/// The weighted terms of one order: its response, its key and its commitment.
fn weighted_terms(w: &SepticBenchWitness, alpha: &[u32; 8]) -> (r: (
    [u32; 8],
    SepticPoint,
    SepticPoint,
))
    requires
        bench_pubkey(*w).wf(),
        bench_commitment(*w).wf(),
    ensures
        scalar::value(r.0@) == scalar::value(alpha@) * scalar::value(w.order.signature.s@) % (
        order::group_order() as int),
        r.1.wf(),
        r.1@ == point::double_and_add(
            Point::Infinity,
            bench_pubkey(*w)@,
            (scalar::value(alpha@) * scalar::value(w.challenge_e@) % (
            order::group_order() as int)) as nat,
        ),
        r.2.wf(),
        r.2@ == point::double_and_add(
            Point::Infinity,
            bench_commitment(*w)@,
            scalar::value(alpha@) as nat,
        ),
{
    let as_i = scalar_mul_mod_r_fast(alpha, &w.order.signature.s);
    let ae_i = scalar_mul_mod_r_fast(alpha, &w.challenge_e);
    let key = SepticPoint::new(w.order.pubkey_x, w.order.pubkey_y);
    let commitment = SepticPoint::new(w.order.signature.r_x, w.order.signature.r_y);
    (as_i, key.scalar_mul(&ae_i), commitment.scalar_mul(alpha))
}

/// The weighted sums of a batch: the responses, the keys and the commitments.
fn weighted_sums(orders: &Vec<SepticBenchWitness>) -> (r: ([u32; 8], SepticPoint, SepticPoint))
    requires
        all_canonical(orders@),
    ensures
        scalar::value(r.0@) == response_sum(orders@, orders@.len() as int) % (
        order::group_order() as int),
        r.1.wf(),
        r.1@ == key_sum(orders@, orders@.len() as int),
        r.2.wf(),
        r.2@ == commitment_sum(orders@, orders@.len() as int),
{
    let weights = batch_weights(orders);
    let mut responses: [u32; 8] = [0; 8];
    let mut keys = SepticPoint::infinity();
    let mut commitments = SepticPoint::infinity();
    proof {
        scalar::lemma_value_8(responses@);
    }
    for i in 0..orders.len()
        invariant
            all_canonical(orders@),
            weights.len() == orders.len(),
            forall|k: int|
                0 <= k < orders.len() ==> scalar::value((#[trigger] weights[k])@) == weight(
                    orders@,
                    k,
                ),
            scalar::value(responses@) == response_sum(orders@, i as int) % (
            order::group_order() as int),
            keys.wf(),
            keys@ == key_sum(orders@, i as int),
            commitments.wf(),
            commitments@ == commitment_sum(orders@, i as int),
    {
        assert(bench_pubkey(orders[i as int]).wf() && bench_commitment(orders[i as int]).wf());
        let (response, key, commitment) = weighted_terms(&orders[i], &weights[i]);
        proof {
            lemma_response_step(orders@, i as int);
        }
        responses = scalar_add(&responses, &response);
        keys = keys.add(&key);
        commitments = commitments.add(&commitment);
    }
    (responses, keys, commitments)
}

/// Whether a batch satisfies its combined equation.
pub fn check_batch_equation(orders: &Vec<SepticBenchWitness>) -> (r: bool)
    ensures
        r == batch_equation(orders@),
{
    if !check_canonical(orders) {
        return false;
    }
    let (responses, keys, rhs) = weighted_sums(orders);
    let lhs_g = SepticPoint::generator().scalar_mul(&responses);
    let lhs = lhs_g.add(&keys);
    if lhs.is_infinity || rhs.is_infinity {
        lhs.is_infinity && rhs.is_infinity
    } else {
        lhs.x == rhs.x && lhs.y == rhs.y
    }
}

} // verus!
