//! What the combined equation of a batch establishes of its orders.
use crate::algebra::curve;
use crate::algebra::curve::Point;
use crate::algebra::group;
use crate::algebra::order;
use crate::algebra::order_prime;
use crate::algebra::primality;
use crate::bytes;
use crate::digest;
use crate::laws::signatures;
use crate::laws::texts;
use crate::septic::batch;
use crate::septic::point;
use crate::septic::schnorr;
use crate::septic::schnorr::SepticBenchWitness;
use vstd::prelude::*;

verus! {

// ── The weights ───────────────────────────────────────────────────────────

/// The 144 bytes of an order from a place on: the coordinates of the commitment, those of the
/// key, and the challenge.
#[verifier::opaque]
pub open spec fn order_at(b: Seq<u8>, at: int, w: SepticBenchWitness) -> bool {
    &&& texts::holds_words(b.subrange(at, at + 28), w.order.signature.r_x.0@)
    &&& texts::holds_words(b.subrange(at + 28, at + 56), w.order.signature.r_y.0@)
    &&& texts::holds_words(b.subrange(at + 56, at + 84), w.order.pubkey_x.0@)
    &&& texts::holds_words(b.subrange(at + 84, at + 112), w.order.pubkey_y.0@)
    &&& texts::holds_words(b.subrange(at + 112, at + 144), w.challenge_e@)
}

/// The bytes hold the orders one after the other.
pub open spec fn batch_reads(b: Seq<u8>, orders: Seq<SepticBenchWitness>) -> bool {
    &&& b.len() == 144 * orders.len()
    &&& forall|i: int| 0 <= i < orders.len() ==> order_at(b, 144 * i, #[trigger] orders[i])
}

proof fn lemma_order_bytes(w: SepticBenchWitness)
    ensures
        batch::order_bytes(w).len() == 144,
        order_at(batch::order_bytes(w), 0, w),
{
    reveal(order_at);
    let b = batch::order_bytes(w);
    texts::lemma_words(b, w.order.signature.r_x.0@);
    texts::lemma_words(b, w.order.signature.r_y.0@);
    texts::lemma_words(b, w.order.pubkey_x.0@);
    texts::lemma_words(b, w.order.pubkey_y.0@);
    texts::lemma_words(b, w.challenge_e@);
    assert(b.subrange(0, 28) =~= bytes::le4_all(w.order.signature.r_x.0@));
    assert(b.subrange(28, 56) =~= bytes::le4_all(w.order.signature.r_y.0@));
    assert(b.subrange(56, 84) =~= bytes::le4_all(w.order.pubkey_x.0@));
    assert(b.subrange(84, 112) =~= bytes::le4_all(w.order.pubkey_y.0@));
    assert(b.subrange(112, 144) =~= bytes::le4_all(w.challenge_e@));
}

proof fn lemma_order_at(b: Seq<u8>, at: int, w: SepticBenchWitness)
    requires
        0 <= at <= b.len() - 144,
        order_at(b, at, w),
    ensures
        b.subrange(at, at + 144) == batch::order_bytes(w),
{
    reveal(order_at);
    texts::lemma_words(b.subrange(at, at + 28), w.order.signature.r_x.0@);
    texts::lemma_words(b.subrange(at + 28, at + 56), w.order.signature.r_y.0@);
    texts::lemma_words(b.subrange(at + 56, at + 84), w.order.pubkey_x.0@);
    texts::lemma_words(b.subrange(at + 84, at + 112), w.order.pubkey_y.0@);
    texts::lemma_words(b.subrange(at + 112, at + 144), w.challenge_e@);
    assert(b.subrange(at, at + 144) =~= b.subrange(at, at + 28) + b.subrange(at + 28, at + 56)
        + b.subrange(at + 56, at + 84) + b.subrange(at + 84, at + 112) + b.subrange(
        at + 112,
        at + 144,
    ));
}

proof fn lemma_moved(a: Seq<u8>, b: Seq<u8>, from: int, to: int, w: SepticBenchWitness)
    requires
        0 <= from <= a.len() - 144,
        0 <= to <= b.len() - 144,
        a.subrange(from, from + 144) == b.subrange(to, to + 144),
        order_at(a, from, w),
    ensures
        order_at(b, to, w),
{
    reveal(order_at);
    let s = a.subrange(from, from + 144);
    let t = b.subrange(to, to + 144);
    assert(a.subrange(from, from + 28) =~= s.subrange(0, 28));
    assert(a.subrange(from + 28, from + 56) =~= s.subrange(28, 56));
    assert(a.subrange(from + 56, from + 84) =~= s.subrange(56, 84));
    assert(a.subrange(from + 84, from + 112) =~= s.subrange(84, 112));
    assert(a.subrange(from + 112, from + 144) =~= s.subrange(112, 144));
    assert(b.subrange(to, to + 28) =~= t.subrange(0, 28));
    assert(b.subrange(to + 28, to + 56) =~= t.subrange(28, 56));
    assert(b.subrange(to + 56, to + 84) =~= t.subrange(56, 84));
    assert(b.subrange(to + 84, to + 112) =~= t.subrange(84, 112));
    assert(b.subrange(to + 112, to + 144) =~= t.subrange(112, 144));
}

#[verifier::spinoff_prover]
#[verifier::rlimit(60)]
proof fn lemma_batch_holds(orders: Seq<SepticBenchWitness>)
    ensures
        batch_reads(batch::batch_bytes(orders), orders),
    decreases orders.len(),
{
    let s = batch::batch_bytes(orders);
    if orders.len() > 0 {
        let front = orders.drop_last();
        let n = front.len() as int;
        let a = batch::batch_bytes(front);
        let z = batch::order_bytes(orders.last());
        lemma_batch_holds(front);
        lemma_order_bytes(orders.last());
        assert(s == a + z);
        assert forall|i: int| 0 <= i < orders.len() implies order_at(
            s,
            144 * i,
            #[trigger] orders[i],
        ) by {
            if i < n {
                assert(order_at(a, 144 * i, front[i]));
                assert(s.subrange(144 * i, 144 * i + 144) =~= a.subrange(144 * i, 144 * i + 144));
                lemma_moved(a, s, 144 * i, 144 * i, orders[i]);
            } else {
                assert(s.subrange(144 * n, 144 * n + 144) =~= z.subrange(0, 144));
                lemma_moved(z, s, 0, 144 * n, orders[i]);
            }
        }
    }
}

#[verifier::spinoff_prover]
#[verifier::rlimit(60)]
proof fn lemma_batch_unique(b: Seq<u8>, orders: Seq<SepticBenchWitness>)
    requires
        batch_reads(b, orders),
    ensures
        b == batch::batch_bytes(orders),
    decreases orders.len(),
{
    if orders.len() > 0 {
        let front = orders.drop_last();
        let n = front.len() as int;
        let c = b.subrange(0, 144 * n);
        assert forall|i: int| 0 <= i < front.len() implies order_at(
            c,
            144 * i,
            #[trigger] front[i],
        ) by {
            assert(order_at(b, 144 * i, orders[i]));
            assert(c.subrange(144 * i, 144 * i + 144) =~= b.subrange(144 * i, 144 * i + 144));
            lemma_moved(b, c, 144 * i, 144 * i, orders[i]);
        }
        lemma_batch_unique(c, front);
        assert(order_at(b, 144 * n, orders[n]));
        lemma_order_at(b, 144 * n, orders[n]);
        assert(b =~= c + b.subrange(144 * n, 144 * n + 144));
    } else {
        assert(b =~= batch::batch_bytes(orders));
    }
}

/// What the commitment of a batch hashes holds its orders, and no other bytes do.
pub proof fn lemma_batch_bytes(b: Seq<u8>, orders: Seq<SepticBenchWitness>)
    ensures
        batch_reads(batch::batch_bytes(orders), orders),
        batch_reads(b, orders) ==> b == batch::batch_bytes(orders),
{
    lemma_batch_holds(orders);
    if batch_reads(b, orders) {
        lemma_batch_unique(b, orders);
    }
}

/// The weight of the order at position `i`: the first 16 bytes, lowest first, of the digest of
/// the batch's digest and the four bytes of the position.
pub proof fn lemma_weight(orders: Seq<SepticBenchWitness>, i: int, b: Seq<u8>, place: Seq<u8>)
    requires
        0 <= i < orders.len(),
        batch_reads(b, orders),
        place.len() == 4,
        texts::word_at(place, 0) == i % 0x1_0000_0000,
    ensures
        batch::weight(orders, i) == bytes::le_value(
            digest::sha_256(digest::sha_256(b) + place).subrange(0, 16),
        ),
        batch::weight(orders, i) >= 0,
{
    lemma_batch_bytes(b, orders);
    texts::lemma_word(place, (i % 0x1_0000_0000) as u32);
    bytes::lemma_be_value_nonnegative(
        digest::sha_256(digest::sha_256(b) + place).subrange(0, 16).reverse(),
    );
}

proof fn lemma_weight_nonnegative(orders: Seq<SepticBenchWitness>, i: int)
    requires
        0 <= i < orders.len(),
    ensures
        batch::weight(orders, i) >= 0,
{
    let b = batch::batch_bytes(orders);
    let place = bytes::le4((i % 0x1_0000_0000) as u32);
    lemma_batch_bytes(b, orders);
    texts::lemma_word(place, (i % 0x1_0000_0000) as u32);
    lemma_weight(orders, i, b, place);
}

// ── The combined equation ─────────────────────────────────────────────────

/// `s G + e A - R`: infinity exactly when the signature holds.
pub open spec fn defect(w: SepticBenchWitness) -> Point {
    order::generator().times(signatures::number(w.order.signature.s@) as nat).plus(
        signatures::key_of(w).times(signatures::number(w.challenge_e@) as nat),
    ).plus(signatures::commitment_of(w).negated())
}

/// The sum of the first `n` defects, each multiplied by its weight.
pub open spec fn defect_sum(orders: Seq<SepticBenchWitness>, n: int) -> Point
    decreases n,
{
    if n <= 0 {
        Point::Infinity
    } else {
        defect_sum(orders, n - 1).plus(
            defect(orders[n - 1]).times(batch::weight(orders, n - 1) as nat),
        )
    }
}

/// The keys belong to the subgroup and the commitments to the curve.
pub open spec fn proper(orders: Seq<SepticBenchWitness>) -> bool {
    forall|i: int|
        0 <= i < orders.len() ==> schnorr::in_subgroup(signatures::key_of(#[trigger] orders[i]))
            && signatures::commitment_of(orders[i]).valid()
}

/// A defect is a point of the curve, and infinity exactly when the signature holds.
pub proof fn lemma_defect(w: SepticBenchWitness)
    requires
        signatures::key_of(w).valid(),
        signatures::commitment_of(w).valid(),
    ensures
        defect(w).valid(),
        defect(w) == Point::Infinity <==> signatures::bench_holds(w),
        signatures::commitment_of(w).plus(defect(w)) == order::generator().times(
            signatures::number(w.order.signature.s@) as nat,
        ).plus(signatures::key_of(w).times(signatures::number(w.challenge_e@) as nat)),
{
    let g = order::generator();
    let a = signatures::key_of(w);
    let r = signatures::commitment_of(w);
    let s = signatures::number(w.order.signature.s@) as nat;
    let e = signatures::number(w.challenge_e@) as nat;
    order::lemma_generator();
    group::lemma_times_closed(g, s);
    group::lemma_times_closed(a, e);
    curve::lemma_plus_closed(g.times(s), a.times(e));
    let sum = g.times(s).plus(a.times(e));
    curve::lemma_negation(r);
    curve::lemma_plus_closed(sum, r.negated());
    group::lemma_plus_infinity(sum, r.negated());
    curve::lemma_negation(sum);
    curve::lemma_plus_minus(sum, r.negated());
    curve::lemma_plus_comm(r, defect(w));
}

#[verifier::spinoff_prover]
#[verifier::rlimit(60)]
proof fn lemma_defect_prefix(orders: Seq<SepticBenchWitness>, n: int)
    requires
        0 <= n <= orders.len(),
        proper(orders),
    ensures
        defect_sum(orders, n).valid(),
        batch::key_sum(orders, n).valid(),
        batch::commitment_sum(orders, n).valid(),
        order::generator().times(batch::response_sum(orders, n) as nat).plus(
            batch::key_sum(orders, n),
        ) == batch::commitment_sum(orders, n).plus(defect_sum(orders, n)),
    decreases n,
{
    let g = order::generator();
    order::lemma_generator();
    if n == 0 {
        group::lemma_times_small(g);
    } else {
        lemma_defect_prefix(orders, n - 1);
        let o = orders[n - 1];
        let a = signatures::key_of(o);
        let c = signatures::commitment_of(o);
        let d = defect(o);
        let s = signatures::number(o.order.signature.s@);
        let e = signatures::number(o.challenge_e@);
        let w = batch::weight(orders, n - 1);
        let total = batch::response_sum(orders, n - 1);
        let r = order::group_order() as int;
        assert(schnorr::in_subgroup(a) && c.valid());
        assert(batch::bench_pubkey(o)@ == a && batch::bench_commitment(o)@ == c);
        signatures::lemma_number(o.order.signature.s@);
        signatures::lemma_number(o.challenge_e@);
        lemma_weight_nonnegative(orders, n - 1);
        batch::lemma_response_sum(orders, n - 1);
        lemma_defect(o);
        batch::lemma_weighted(a, s as nat, e as nat, w as nat);
        vstd::arithmetic::mul::lemma_mul_nonnegative(w, s);
        vstd::arithmetic::mul::lemma_mul_nonnegative(w, e);
        assert((w as nat) * (s as nat) == (w * s) as nat);
        let factor = (w * e % r) as nat;
        assert(((w as nat) * (e as nat) % order::group_order()) as nat == factor);
        let part = point::double_and_add(Point::Infinity, a, factor);
        point::lemma_double_and_add(Point::Infinity, a, e as nat);
        point::lemma_double_and_add(Point::Infinity, a, factor);
        point::lemma_double_and_add(Point::Infinity, c, w as nat);
        group::lemma_times_closed(a, factor);
        group::lemma_times_closed(c, w as nat);
        group::lemma_times_closed(d, w as nat);
        group::lemma_times_closed(g, total as nat);
        group::lemma_times_closed(g, (w * s) as nat);
        group::lemma_times_add(g, total as nat, (w * s) as nat);
        assert((total as nat) + ((w * s) as nat) == (total + w * s) as nat);
        assert(Point::Infinity.plus(a.times(e as nat)) == a.times(e as nat));
        assert(Point::Infinity.plus(a.times(factor)) == a.times(factor));
        assert(Point::Infinity.plus(c.times(w as nat)) == c.times(w as nat));
        batch::lemma_times_sum(c, d, w as nat);
        assert(schnorr::schnorr_sum(a, s, e) == c.plus(d));
        curve::lemma_plus_closed(batch::key_sum(orders, n - 1), part);
        curve::lemma_plus_closed(batch::commitment_sum(orders, n - 1), c.times(w as nat));
        curve::lemma_plus_closed(defect_sum(orders, n - 1), d.times(w as nat));
        batch::lemma_exchange(
            g.times(total as nat),
            g.times((w * s) as nat),
            batch::key_sum(orders, n - 1),
            part,
        );
        batch::lemma_exchange(
            batch::commitment_sum(orders, n - 1),
            defect_sum(orders, n - 1),
            c.times(w as nat),
            d.times(w as nat),
        );
    }
}

/// The combined equation holds exactly when the weighted defects add up to infinity.
pub proof fn lemma_batch_equation(orders: Seq<SepticBenchWitness>)
    requires
        proper(orders),
    ensures
        batch::batch_equation(orders) <==> defect_sum(orders, orders.len() as int)
            == Point::Infinity,
{
    let n = orders.len() as int;
    let g = order::generator();
    let c = batch::commitment_sum(orders, n);
    let d = defect_sum(orders, n);
    let total = batch::response_sum(orders, n);
    lemma_defect_prefix(orders, n);
    batch::lemma_response_sum(orders, n);
    schnorr::lemma_generator_in_subgroup();
    schnorr::lemma_times_mod(g, total as nat);
    assert((total % (order::group_order() as int)) as nat == (total as nat)
        % order::group_order());
    assert forall|i: int| 0 <= i < orders.len() implies batch::bench_pubkey(
        #[trigger] orders[i],
    ).wf() && batch::bench_commitment(orders[i]).wf() by {
        let o = orders[i];
        assert(batch::bench_pubkey(o)@ == signatures::key_of(o));
        assert(batch::bench_commitment(o)@ == signatures::commitment_of(o));
        assert(schnorr::in_subgroup(signatures::key_of(o)));
    }
    curve::lemma_plus_comm(c, d);
    curve::lemma_plus_minus(d, c);
    curve::lemma_negation(c);
    if d == Point::Infinity {
        assert(c.plus(d) == c);
    }
}

proof fn lemma_one_bad_prefix(orders: Seq<SepticBenchWitness>, j: int, n: int)
    requires
        proper(orders),
        0 <= j < orders.len(),
        0 <= n <= orders.len(),
        forall|i: int|
            0 <= i < orders.len() && i != j ==> signatures::bench_holds(#[trigger] orders[i]),
    ensures
        defect_sum(orders, n) == if n <= j {
            Point::Infinity
        } else {
            defect(orders[j]).times(batch::weight(orders, j) as nat)
        },
    decreases n,
{
    if n > 0 {
        lemma_one_bad_prefix(orders, j, n - 1);
        let o = orders[n - 1];
        assert(schnorr::in_subgroup(signatures::key_of(o)));
        lemma_defect(o);
        if n - 1 != j {
            assert(signatures::bench_holds(o));
            group::lemma_times_infinity(batch::weight(orders, n - 1) as nat);
        }
        match defect_sum(orders, n - 1) {
            Point::Infinity => {},
            Point::Affine { x, y } => {},
        }
    }
}

/// If every order of a batch but one has a signature that holds, the combined equation holds
/// exactly when the weight of that one annihilates its defect.
pub proof fn lemma_one_bad(orders: Seq<SepticBenchWitness>, j: int)
    requires
        proper(orders),
        0 <= j < orders.len(),
        forall|i: int|
            0 <= i < orders.len() && i != j ==> signatures::bench_holds(#[trigger] orders[i]),
    ensures
        batch::batch_equation(orders) <==> defect(orders[j]).times(
            batch::weight(orders, j) as nat,
        ) == Point::Infinity,
{
    lemma_batch_equation(orders);
    lemma_one_bad_prefix(orders, j, orders.len() as int);
}

/// A multiple of a point of the subgroup other than infinity is infinity exactly when the factor
/// is a multiple of the order of the group.
pub proof fn lemma_annihilated(p: Point, k: nat)
    requires
        schnorr::in_subgroup(p),
        p != Point::Infinity,
    ensures
        p.times(k) == Point::Infinity <==> k % order::group_order() == 0,
{
    let r = order::group_order();
    schnorr::lemma_times_mod(p, k);
    group::lemma_times_small(p);
    if k % r != 0 && p.times(k) == Point::Infinity {
        order_prime::lemma_group_order_prime();
        let x = primality::lemma_inverse(r as int, k as int);
        group::lemma_times_mul(p, k, x as nat);
        group::lemma_times_infinity(x as nat);
        vstd::arithmetic::mul::lemma_mul_is_commutative(k as int, x);
        vstd::arithmetic::mul::lemma_mul_nonnegative(x, k as int);
        assert(k * (x as nat) == (x * k) as nat);
        schnorr::lemma_times_mod(p, k * (x as nat));
    }
}

/// A defect of points of the subgroup belongs to the subgroup.
pub proof fn lemma_defect_in_subgroup(w: SepticBenchWitness)
    requires
        schnorr::in_subgroup(signatures::key_of(w)),
        schnorr::in_subgroup(signatures::commitment_of(w)),
    ensures
        schnorr::in_subgroup(defect(w)),
{
    let g = order::generator();
    let a = signatures::key_of(w);
    let c = signatures::commitment_of(w);
    let d = defect(w);
    let s = signatures::number(w.order.signature.s@) as nat;
    let e = signatures::number(w.challenge_e@) as nat;
    let r = order::group_order();
    lemma_defect(w);
    schnorr::lemma_in_subgroup(s);
    group::lemma_times_closed(a, e);
    group::lemma_times_mul(a, e, r);
    group::lemma_times_mul(a, r, e);
    vstd::arithmetic::mul::lemma_mul_is_commutative(e as int, r as int);
    group::lemma_times_infinity(e);
    batch::lemma_times_sum(g.times(s), a.times(e), r);
    batch::lemma_times_sum(c, d, r);
    group::lemma_times_closed(d, r);
}

/// If every order of a batch but one has a signature that holds, with points of the subgroup, the
/// combined equation fails unless the weight of that one is a multiple of the order of the group.
pub proof fn lemma_one_bad_refused(
    orders: Seq<SepticBenchWitness>,
    j: int,
    b: Seq<u8>,
    place: Seq<u8>,
)
    requires
        proper(orders),
        0 <= j < orders.len(),
        schnorr::in_subgroup(signatures::commitment_of(orders[j])),
        forall|i: int|
            0 <= i < orders.len() && i != j ==> signatures::bench_holds(#[trigger] orders[i]),
        !signatures::bench_holds(orders[j]),
        batch_reads(b, orders),
        place.len() == 4,
        texts::word_at(place, 0) == j % 0x1_0000_0000,
    ensures
        batch::batch_equation(orders) <==> bytes::le_value(
            digest::sha_256(digest::sha_256(b) + place).subrange(0, 16),
        ) % (order::group_order() as int) == 0,
{
    assert(schnorr::in_subgroup(signatures::key_of(orders[j])));
    lemma_one_bad(orders, j);
    lemma_weight(orders, j, b, place);
    lemma_defect(orders[j]);
    lemma_defect_in_subgroup(orders[j]);
    lemma_annihilated(defect(orders[j]), batch::weight(orders, j) as nat);
}

/// A batch of orders whose signatures all hold satisfies the combined equation.
pub proof fn lemma_all_good(orders: Seq<SepticBenchWitness>)
    requires
        proper(orders),
        forall|i: int| 0 <= i < orders.len() ==> signatures::bench_holds(#[trigger] orders[i]),
    ensures
        batch::batch_equation(orders),
{
    assert forall|i: int| 0 <= i < orders.len() implies batch::bench_verifies(
        #[trigger] orders[i],
    ) by {
        assert(schnorr::in_subgroup(signatures::key_of(orders[i])));
        assert(signatures::bench_holds(orders[i]));
        signatures::lemma_bench(orders[i]);
    }
    assert forall|i: int| 0 <= i < orders.len() implies schnorr::in_subgroup(
        batch::bench_pubkey(#[trigger] orders[i])@,
    ) by {
        assert(schnorr::in_subgroup(signatures::key_of(orders[i])));
        assert(batch::bench_pubkey(orders[i])@ == signatures::key_of(orders[i]));
    }
    batch::lemma_batch_complete(orders);
}

/// The combined equation for keys and commitments of any kind: with the running sums of the
/// weighted responses, keys and commitments, it says that all coordinates are canonical and that
/// the last sums balance.
pub proof fn lemma_running_sums(
    orders: Seq<SepticBenchWitness>,
    responses: Seq<int>,
    keys: Seq<Point>,
    commitments: Seq<Point>,
)
    requires
        responses.len() == orders.len() + 1,
        keys.len() == orders.len() + 1,
        commitments.len() == orders.len() + 1,
        responses[0] == 0,
        keys[0] == Point::Infinity,
        commitments[0] == Point::Infinity,
        forall|i: int|
            0 <= i < orders.len() ==> {
                let o = #[trigger] orders[i];
                let w = batch::weight(orders, i);
                &&& responses[i + 1] == responses[i] + w * signatures::number(o.order.signature.s@)
                &&& keys[i + 1] == keys[i].plus(
                    point::double_and_add(
                        Point::Infinity,
                        signatures::key_of(o),
                        (w * signatures::number(o.challenge_e@) % (
                        order::group_order() as int)) as nat,
                    ),
                )
                &&& commitments[i + 1] == commitments[i].plus(
                    point::double_and_add(
                        Point::Infinity,
                        signatures::commitment_of(o),
                        w as nat,
                    ),
                )
            },
    ensures
        batch::batch_equation(orders) <==> (forall|i: int|
            0 <= i < orders.len() ==> signatures::key_of(#[trigger] orders[i]).canonical()
                && signatures::commitment_of(orders[i]).canonical()) && order::generator().times(
            (responses.last() % (order::group_order() as int)) as nat,
        ).plus(keys.last()) == commitments.last(),
{
    lemma_running_prefix(orders, responses, keys, commitments, orders.len() as int);
    assert forall|i: int| 0 <= i < orders.len() implies batch::bench_pubkey(
        #[trigger] orders[i],
    )@ == signatures::key_of(orders[i]) && batch::bench_commitment(orders[i])@
        == signatures::commitment_of(orders[i]) by {}
}

proof fn lemma_running_prefix(
    orders: Seq<SepticBenchWitness>,
    responses: Seq<int>,
    keys: Seq<Point>,
    commitments: Seq<Point>,
    n: int,
)
    requires
        0 <= n <= orders.len(),
        responses[0] == 0,
        keys[0] == Point::Infinity,
        commitments[0] == Point::Infinity,
        forall|i: int|
            0 <= i < orders.len() ==> {
                let o = #[trigger] orders[i];
                let w = batch::weight(orders, i);
                &&& responses[i + 1] == responses[i] + w * signatures::number(o.order.signature.s@)
                &&& keys[i + 1] == keys[i].plus(
                    point::double_and_add(
                        Point::Infinity,
                        signatures::key_of(o),
                        (w * signatures::number(o.challenge_e@) % (
                        order::group_order() as int)) as nat,
                    ),
                )
                &&& commitments[i + 1] == commitments[i].plus(
                    point::double_and_add(
                        Point::Infinity,
                        signatures::commitment_of(o),
                        w as nat,
                    ),
                )
            },
    ensures
        responses[n] == batch::response_sum(orders, n),
        keys[n] == batch::key_sum(orders, n),
        commitments[n] == batch::commitment_sum(orders, n),
    decreases n,
{
    if n > 0 {
        lemma_running_prefix(orders, responses, keys, commitments, n - 1);
        let o = orders[n - 1];
        signatures::lemma_number(o.order.signature.s@);
        signatures::lemma_number(o.challenge_e@);
        assert(batch::bench_pubkey(o)@ == signatures::key_of(o));
        assert(batch::bench_commitment(o)@ == signatures::commitment_of(o));
        assert(n - 1 + 1 == n);
    }
}

/// Whether a batch satisfies its equation is what the check of it returns, and the check of a list
/// or of one order returns whether the equations hold.
pub proof fn lemma_checks(orders: &Vec<SepticBenchWitness>, w: &SepticBenchWitness, r: bool)
    ensures
        call_ensures(batch::check_batch_equation, (orders,), r) && proper(orders@) ==> (r
            <==> defect_sum(orders@, orders@.len() as int) == Point::Infinity),
        call_ensures(batch::check_bench, (w,), r) && signatures::key_of(*w).valid() ==> (r
            <==> signatures::bench_holds(*w)),
        call_ensures(batch::check_all, (orders,), r) && (forall|i: int|
            0 <= i < orders@.len() ==> signatures::key_of(#[trigger] orders@[i]).valid()) ==> (r
            <==> forall|i: int|
            0 <= i < orders@.len() ==> signatures::bench_holds(#[trigger] orders@[i])),
{
    if proper(orders@) {
        lemma_batch_equation(orders@);
    }
    signatures::lemma_bench(*w);
    if forall|i: int|
        0 <= i < orders@.len() ==> signatures::key_of(#[trigger] orders@[i]).valid() {
        assert forall|i: int| 0 <= i < orders@.len() implies batch::bench_verifies(
            #[trigger] orders@[i],
        ) == signatures::bench_holds(orders@[i]) by {
            signatures::lemma_bench(orders@[i]);
        }
    }
}

/// The combined equation never holds of a batch with a key or a commitment whose coordinates are
/// not canonical.
pub proof fn lemma_not_canonical(orders: Seq<SepticBenchWitness>, i: int)
    requires
        0 <= i < orders.len(),
        !signatures::key_of(orders[i]).canonical() || !signatures::commitment_of(
            orders[i],
        ).canonical(),
    ensures
        !batch::batch_equation(orders),
{
    assert(batch::bench_pubkey(orders[i])@ == signatures::key_of(orders[i]));
    assert(batch::bench_commitment(orders[i])@ == signatures::commitment_of(orders[i]));
}

} // verus!
