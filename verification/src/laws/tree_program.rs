//! What the checks of witnesses with proofs of the Jellyfish tree accept and refuse, and what they
//! commit to.
use crate::guest::GuestError;
use crate::laws::checks;
use crate::laws::program;
use crate::laws::signatures;
use crate::laws::texts;
use crate::laws::trees;
use crate::merkle;
use crate::poseidon2_hasher;
use crate::septic::fp7::Fp7;
use crate::septic::point::SepticPoint;
use crate::septic::schnorr::SepticBenchWitness;
use crate::state;
use crate::tree_guest;
use crate::types::{DedupOrder, ProofOutput, SessionKeyLeaf};
use crate::witness::{
    JmtDedupBatchWitness, JmtDedupKey, JmtDedupWitness, JmtMerkleOrder, JmtOrderSepticWitness,
    JmtOrderWitness, JmtRegisterKeyWitness, JmtVerifyMerkleWitness, ProofEntry, UniqueKeyInfo,
};
use vstd::prelude::*;
use vstd::string::*;

verus! {

// ── Membership ────────────────────────────────────────────────────────────

/// The 21 bytes whose hash is the slot of a key: its account and its index.
pub open spec fn slot_reads(b: Seq<u8>, account: Seq<u8>, key_index: u8) -> bool {
    b.len() == 21 && b.subrange(0, 20) == account && b[20] == key_index
}

/// A proof shows, under the root, the leaf of a key at its slot.
pub open spec fn shown(
    account: Seq<u8>,
    key_index: u8,
    pubkey_x: Seq<u32>,
    pubkey_y: Seq<u32>,
    root: Seq<u8>,
    proof_bytes: Seq<u8>,
) -> bool {
    exists|place: Seq<u8>, leaf: Seq<u8>|
        #![trigger slot_reads(place, account, key_index), texts::leaf_reads(leaf, account, key_index, pubkey_x, pubkey_y)]
        slot_reads(place, account, key_index) && texts::leaf_reads(
            leaf,
            account,
            key_index,
            pubkey_x,
            pubkey_y,
        ) && state::tree_proof_holds(
            root,
            poseidon2_hasher::poseidon2_digest(place),
            Some(leaf),
            proof_bytes,
        )
}

/// A key is a member exactly when a proof shows its leaf at its slot.
#[verifier::spinoff_prover]
#[verifier::rlimit(60)]
pub proof fn lemma_member(
    account: Seq<u8>,
    key_index: u8,
    pubkey_x: Seq<u32>,
    pubkey_y: Seq<u32>,
    root: Seq<u8>,
    proof_bytes: Seq<u8>,
)
    requires
        account.len() == 20,
        pubkey_x.len() == 7,
        pubkey_y.len() == 7,
    ensures
        tree_guest::is_member(account, key_index, pubkey_x, pubkey_y, root, proof_bytes) <==> shown(
            account,
            key_index,
            pubkey_x,
            pubkey_y,
            root,
            proof_bytes,
        ),
{
    let place = account + seq![key_index];
    let leaf = merkle::leaf_encoding(account, key_index, pubkey_x, pubkey_y);
    assert(place.subrange(0, 20) =~= account);
    assert(slot_reads(place, account, key_index));
    trees::lemma_slot(place, account, key_index);
    texts::lemma_leaf(leaf, account, key_index, pubkey_x, pubkey_y);
    if shown(account, key_index, pubkey_x, pubkey_y, root, proof_bytes) {
        let (p, l) = choose|p: Seq<u8>, l: Seq<u8>|
            #![trigger slot_reads(p, account, key_index), texts::leaf_reads(l, account, key_index, pubkey_x, pubkey_y)]
            slot_reads(p, account, key_index) && texts::leaf_reads(
                l,
                account,
                key_index,
                pubkey_x,
                pubkey_y,
            ) && state::tree_proof_holds(
                root,
                poseidon2_hasher::poseidon2_digest(p),
                Some(l),
                proof_bytes,
            );
        trees::lemma_slot(p, account, key_index);
        texts::lemma_leaf(l, account, key_index, pubkey_x, pubkey_y);
    }
}

// ── Registration ──────────────────────────────────────────────────────────

/// The bytes of the leaf that a registration replaces, or none where there was no leaf.
pub open spec fn old_value_reads(value: Option<Seq<u8>>, leaf: Option<SessionKeyLeaf>) -> bool {
    match leaf {
        None => value is None,
        Some(l) => value matches Some(b) && texts::leaf_reads(
            b,
            l.account_address@,
            l.key_index,
            l.pubkey_x@,
            l.pubkey_y@,
        ),
    }
}

/// The old proof shows, under the old root, what was at the slot of the request.
pub open spec fn tree_replaces(w: JmtRegisterKeyWitness) -> bool {
    exists|place: Seq<u8>, value: Option<Seq<u8>>|
        #![trigger slot_reads(place, w.request.account_address@, w.request.key_index), old_value_reads(value, w.old_leaf)]
        slot_reads(place, w.request.account_address@, w.request.key_index) && old_value_reads(
            value,
            w.old_leaf,
        ) && state::tree_proof_holds(
            w.old_session_key_root@,
            poseidon2_hasher::poseidon2_digest(place),
            value,
            w.old_proof@,
        )
}

proof fn lemma_old_value(leaf: Option<SessionKeyLeaf>, value: Option<Seq<u8>>)
    ensures
        old_value_reads(value, leaf) <==> value == crate::witness::old_value(leaf),
{
    match leaf {
        None => {},
        Some(l) => {
            texts::lemma_leaf(
                l.encoding(),
                l.account_address@,
                l.key_index,
                l.pubkey_x@,
                l.pubkey_y@,
            );
            if value is Some {
                texts::lemma_leaf(
                    value->0,
                    l.account_address@,
                    l.key_index,
                    l.pubkey_x@,
                    l.pubkey_y@,
                );
            }
        },
    }
}

/// A registration is accepted exactly when the old proof shows what was at the slot and the
/// account has signed the request; the output names both roots, the account and the index.
#[verifier::spinoff_prover]
#[verifier::rlimit(60)]
pub proof fn lemma_register(w: JmtRegisterKeyWitness, r: Result<ProofOutput, GuestError>)
    requires
        call_ensures(tree_guest::handle_register_key, (w,), r),
    ensures
        r is Ok <==> tree_replaces(w) && program::request_signed(w.request),
        r == Err::<ProofOutput, GuestError>(GuestError::OldLeafMismatch) <==> !tree_replaces(w),
        r matches Ok(out) ==> {
            &&& out.old_session_key_root@ == w.old_session_key_root@
            &&& out.new_session_key_root@ == w.new_session_key_root@
            &&& out.account_address@ == w.request.account_address@
            &&& out.key_index == w.request.key_index
            &&& out.proof_type@ == "REGISTER_KEY"@
        },
{
    let account = w.request.account_address@;
    let key_index = w.request.key_index;
    let place = account + seq![key_index];
    let value = crate::witness::old_value(w.old_leaf);
    assert(place.subrange(0, 20) =~= account);
    assert(slot_reads(place, account, key_index));
    trees::lemma_slot(place, account, key_index);
    lemma_old_value(w.old_leaf, value);
    program::lemma_request_signed(w.request);
    if tree_replaces(w) {
        let (p, v) = choose|p: Seq<u8>, v: Option<Seq<u8>>|
            #![trigger slot_reads(p, w.request.account_address@, w.request.key_index), old_value_reads(v, w.old_leaf)]
            slot_reads(p, w.request.account_address@, w.request.key_index) && old_value_reads(
                v,
                w.old_leaf,
            ) && state::tree_proof_holds(
                w.old_session_key_root@,
                poseidon2_hasher::poseidon2_digest(p),
                v,
                w.old_proof@,
            );
        trees::lemma_slot(p, account, key_index);
        lemma_old_value(w.old_leaf, v);
    }
}

// ── Orders ────────────────────────────────────────────────────────────────

/// The session key of an order is shown under the root, for the account and index of the order.
pub open spec fn order_shown(w: JmtOrderWitness) -> bool {
    shown(
        w.order.account_address@,
        w.order.key_index,
        w.session_key.pubkey_x@,
        w.session_key.pubkey_y@,
        w.session_key_root@,
        w.merkle_proof@,
    )
}

/// An order is accepted exactly when its key is shown for the account and the index that it
/// names, its challenge is that of its text, and its signature is accepted for that key.
pub proof fn lemma_order(w: JmtOrderWitness, r: Result<ProofOutput, GuestError>)
    requires
        call_ensures(tree_guest::handle_verify_order, (w,), r),
    ensures
        r is Ok <==> order_shown(w) && checks::challenge_fits(w.order, w.session_key.pubkey_x@)
            && checks::equation_fits(w.order, w.session_key),
        r matches Ok(out) ==> {
            &&& shown(
                out.account_address@,
                out.key_index,
                w.session_key.pubkey_x@,
                w.session_key.pubkey_y@,
                out.new_session_key_root@,
                w.merkle_proof@,
            )
            &&& checks::challenge_fits(w.order, w.session_key.pubkey_x@)
            &&& out.old_session_key_root@ == w.session_key_root@
            &&& out.new_session_key_root@ == w.session_key_root@
            &&& out.account_address@ == w.order.account_address@
            &&& out.key_index == w.order.key_index
            &&& out.proof_type@ == "VERIFY_ORDER"@
        },
        r == Err::<ProofOutput, GuestError>(GuestError::KeyNotRegistered) <==> !order_shown(w),
        r is Err && order_shown(w) ==> r == Err::<ProofOutput, GuestError>(
            GuestError::SchnorrMismatch,
        ),
{
    lemma_member(
        w.order.account_address@,
        w.order.key_index,
        w.session_key.pubkey_x@,
        w.session_key.pubkey_y@,
        w.session_key_root@,
        w.merkle_proof@,
    );
    checks::lemma_order_signed(w.order, w.session_key);
}

/// The key of a Schnorr order is shown under the root, for the account and index of the order.
pub open spec fn bench_shown(
    bench: SepticBenchWitness,
    root: Seq<u8>,
    proof_bytes: Seq<u8>,
) -> bool {
    shown(
        bench.order.account_address@,
        bench.order.key_index,
        bench.order.pubkey_x.0@,
        bench.order.pubkey_y.0@,
        root,
        proof_bytes,
    )
}

proof fn lemma_bench_refusal(
    bench: SepticBenchWitness,
    root: Seq<u8>,
    proof_bytes: Seq<u8>,
    mismatch: GuestError,
)
    requires
        mismatch == GuestError::SepticMismatch || mismatch == GuestError::BatchMerkleMismatch,
    ensures
        ({
            let refusal = tree_guest::bench_refusal(bench, root, proof_bytes, mismatch);
            let member = bench_shown(bench, root, proof_bytes);
            &&& refusal is None <==> member && signatures::bench_accepted(bench)
            &&& refusal == Some(GuestError::KeyNotRegistered) <==> !member
            &&& refusal is Some && member ==> refusal == Some(mismatch)
        }),
{
    lemma_member(
        bench.order.account_address@,
        bench.order.key_index,
        bench.order.pubkey_x.0@,
        bench.order.pubkey_y.0@,
        root,
        proof_bytes,
    );
    signatures::lemma_bench_accepted(bench);
}

/// A Schnorr order is accepted exactly when its key is shown for its account and index and its
/// signature is accepted.
pub proof fn lemma_septic_order(w: JmtOrderSepticWitness, r: Result<ProofOutput, GuestError>)
    requires
        call_ensures(tree_guest::handle_verify_order_septic, (w,), r),
    ensures
        ({
            let member = bench_shown(w.bench, w.session_key_root@, w.merkle_proof@);
            &&& r is Ok <==> member && signatures::bench_accepted(w.bench)
            &&& r matches Ok(out) ==> {
                &&& member
                &&& out.old_session_key_root@ == w.session_key_root@
                &&& out.new_session_key_root@ == w.session_key_root@
                &&& out.account_address@ == w.bench.order.account_address@
                &&& out.key_index == w.bench.order.key_index
                &&& out.proof_type@ == "VERIFY_ORDER_SEPTIC"@
            }
            &&& r == Err::<ProofOutput, GuestError>(GuestError::KeyNotRegistered) <==> !member
            &&& r is Err && member ==> r == Err::<ProofOutput, GuestError>(
                GuestError::SepticMismatch,
            )
        }),
{
    lemma_bench_refusal(
        w.bench,
        w.session_key_root@,
        w.merkle_proof@,
        GuestError::SepticMismatch,
    );
}

// ── Batches ───────────────────────────────────────────────────────────────

/// What a batch with a tree commits to: its root, and its kind.
pub open spec fn tree_committed(out: ProofOutput, root: Seq<u8>) -> bool {
    &&& out.old_session_key_root@ == root
    &&& out.new_session_key_root@ == root
    &&& program::blank(out.account_address@, 20)
    &&& out.key_index == 0
}

/// An order of a batch is shown and its signature is accepted.
pub open spec fn merkle_order_fits(o: JmtMerkleOrder, root: Seq<u8>) -> bool {
    bench_shown(o.bench, root, o.merkle_proof@) && signatures::bench_accepted(o.bench)
}

/// The refusal of an order that does not fit.
pub open spec fn merkle_order_error(o: JmtMerkleOrder, root: Seq<u8>) -> GuestError {
    if bench_shown(o.bench, root, o.merkle_proof@) {
        GuestError::BatchMerkleMismatch
    } else {
        GuestError::KeyNotRegistered
    }
}

#[verifier::spinoff_prover]
#[verifier::rlimit(60)]
proof fn lemma_merkle_batch_refusal(orders: Seq<JmtMerkleOrder>, root: Seq<u8>)
    ensures
        tree_guest::merkle_batch_refusal(orders, root) is None <==> (forall|i: int|
            0 <= i < orders.len() ==> merkle_order_fits(#[trigger] orders[i], root)),
        tree_guest::merkle_batch_refusal(orders, root) matches Some(e) ==> exists|j: int|
            0 <= j < orders.len() && !merkle_order_fits(#[trigger] orders[j], root) && e
                == merkle_order_error(orders[j], root) && (forall|i: int|
                0 <= i < j ==> merkle_order_fits(#[trigger] orders[i], root)),
    decreases orders.len(),
{
    if orders.len() > 0 {
        let o = orders[0];
        let rest = orders.drop_first();
        lemma_bench_refusal(o.bench, root, o.merkle_proof@, GuestError::BatchMerkleMismatch);
        lemma_merkle_batch_refusal(rest, root);
        let refusal = tree_guest::merkle_batch_refusal(orders, root);
        if merkle_order_fits(o, root) {
            assert(refusal == tree_guest::merkle_batch_refusal(rest, root));
            if refusal is None {
                assert forall|i: int| 0 <= i < orders.len() implies merkle_order_fits(
                    #[trigger] orders[i],
                    root,
                ) by {
                    if i > 0 {
                        assert(rest[i - 1] == orders[i]);
                    }
                }
            } else {
                let j = choose|j: int|
                    0 <= j < rest.len() && !merkle_order_fits(#[trigger] rest[j], root)
                        && refusal->0 == merkle_order_error(rest[j], root) && (forall|i: int|
                        0 <= i < j ==> merkle_order_fits(#[trigger] rest[i], root));
                assert(orders[j + 1] == rest[j]);
                assert forall|i: int| 0 <= i < j + 1 implies merkle_order_fits(
                    #[trigger] orders[i],
                    root,
                ) by {
                    if i > 0 {
                        assert(rest[i - 1] == orders[i]);
                    }
                }
            }
        } else {
            assert(!merkle_order_fits(orders[0], root));
        }
    }
}

/// A batch is accepted exactly when every key is shown under the root for the account and index
/// of its order and every signature is accepted; the refusal is that of the first order that does not
/// fit.
#[verifier::spinoff_prover]
#[verifier::rlimit(60)]
pub proof fn lemma_merkle_batch(w: JmtVerifyMerkleWitness, r: Result<ProofOutput, GuestError>)
    requires
        call_ensures(tree_guest::handle_batch_septic_verify_merkle, (w,), r),
    ensures
        r is Ok <==> (forall|i: int|
            0 <= i < w.orders@.len() ==> merkle_order_fits(
                #[trigger] w.orders@[i],
                w.session_key_root@,
            )),
        r matches Err(e) ==> exists|j: int|
            0 <= j < w.orders@.len() && !merkle_order_fits(
                #[trigger] w.orders@[j],
                w.session_key_root@,
            ) && e == merkle_order_error(w.orders@[j], w.session_key_root@) && (forall|i: int|
                0 <= i < j ==> merkle_order_fits(#[trigger] w.orders@[i], w.session_key_root@)),
        r matches Ok(out) ==> tree_committed(out, w.session_key_root@) && exists|digits: Seq<char>|
         #[trigger]
            texts::numeral_of(digits, w.orders@.len() as int) && out.proof_type@
                == "BATCH_SEPTIC_VERIFY_MERKLE_"@ + digits,
{
    lemma_merkle_batch_refusal(w.orders@, w.session_key_root@);
    texts::lemma_decimal(w.orders@.len());
}

// ── Batches that share their keys ─────────────────────────────────────────

/// An order names a key of the batch, given by the coordinates of the keys, and its signature is
/// accepted for that key.
pub open spec fn order_holds(xs: Seq<Seq<u32>>, ys: Seq<Seq<u32>>, o: DedupOrder) -> bool {
    o.key_idx < xs.len() && signatures::accepted(
        signatures::point_at(xs[o.key_idx as int], ys[o.key_idx as int]),
        signatures::number(o.signature_s@),
        signatures::number(o.challenge_e@),
        signatures::point_at(o.signature_r_x@, o.signature_r_y@),
    )
}

/// The refusal of an order that does not hold.
pub open spec fn order_error(count: nat, o: DedupOrder) -> GuestError {
    if o.key_idx < count {
        GuestError::DedupMismatch
    } else {
        GuestError::KeyIndexOutOfRange
    }
}

/// The points have the given coordinates.
spec fn points_at(points: Seq<SepticPoint>, xs: Seq<Seq<u32>>, ys: Seq<Seq<u32>>) -> bool {
    &&& points.len() == xs.len()
    &&& points.len() == ys.len()
    &&& forall|i: int|
        0 <= i < points.len() ==> (#[trigger] points[i])@ == signatures::point_at(xs[i], ys[i])
}

#[verifier::spinoff_prover]
#[verifier::rlimit(60)]
proof fn lemma_dedup_orders(
    points: Seq<SepticPoint>,
    xs: Seq<Seq<u32>>,
    ys: Seq<Seq<u32>>,
    orders: Seq<DedupOrder>,
)
    requires
        points_at(points, xs, ys),
    ensures
        tree_guest::dedup_orders_refusal(points, orders) is None <==> (forall|i: int|
            0 <= i < orders.len() ==> order_holds(xs, ys, #[trigger] orders[i])),
        tree_guest::dedup_orders_refusal(points, orders) matches Some(e) ==> exists|j: int|
            0 <= j < orders.len() && !order_holds(xs, ys, #[trigger] orders[j]) && e == order_error(
                xs.len(),
                orders[j],
            ) && (forall|i: int| 0 <= i < j ==> order_holds(xs, ys, #[trigger] orders[i])),
    decreases orders.len(),
{
    if orders.len() > 0 {
        let o = orders[0];
        let rest = orders.drop_first();
        if o.key_idx < points.len() {
            assert(points[o.key_idx as int]@ == signatures::point_at(
                xs[o.key_idx as int],
                ys[o.key_idx as int],
            ));
            signatures::lemma_accepted(
                points[o.key_idx as int],
                o.signature_r_x@,
                o.signature_r_y@,
                o.signature_s@,
                o.challenge_e@,
            );
        }
        lemma_dedup_orders(points, xs, ys, rest);
        let refusal = tree_guest::dedup_orders_refusal(points, orders);
        if order_holds(xs, ys, o) {
            assert(refusal == tree_guest::dedup_orders_refusal(points, rest));
            if refusal is None {
                assert forall|i: int| 0 <= i < orders.len() implies order_holds(
                    xs,
                    ys,
                    #[trigger] orders[i],
                ) by {
                    if i > 0 {
                        assert(rest[i - 1] == orders[i]);
                    }
                }
            } else {
                let j = choose|j: int|
                    0 <= j < rest.len() && !order_holds(xs, ys, #[trigger] rest[j]) && refusal->0
                        == order_error(xs.len(), rest[j]) && (forall|i: int|
                        0 <= i < j ==> order_holds(xs, ys, #[trigger] rest[i]));
                assert(orders[j + 1] == rest[j]);
                assert forall|i: int| 0 <= i < j + 1 implies order_holds(
                    xs,
                    ys,
                    #[trigger] orders[i],
                ) by {
                    if i > 0 {
                        assert(rest[i - 1] == orders[i]);
                    }
                }
            }
        } else {
            assert(!order_holds(xs, ys, orders[0]));
        }
    }
}

/// The kind of a batch with some keys and orders.
pub open spec fn counted(kind: Seq<char>, label: Seq<char>, keys: nat, orders: nat) -> bool {
    exists|k: Seq<char>, n: Seq<char>|
        #![trigger texts::numeral_of(k, keys as int), texts::numeral_of(n, orders as int)]
        texts::numeral_of(k, keys as int) && texts::numeral_of(n, orders as int) && kind == label
            + k + "u_"@ + n + "o"@
}

/// The coordinates of the keys of a batch.
pub open spec fn key_xs(keys: Seq<JmtDedupKey>) -> Seq<Seq<u32>> {
    Seq::new(keys.len(), |i: int| keys[i].pubkey_x@)
}

/// The second coordinates of the keys of a batch.
pub open spec fn key_ys(keys: Seq<JmtDedupKey>) -> Seq<Seq<u32>> {
    Seq::new(keys.len(), |i: int| keys[i].pubkey_y@)
}

/// A key of a batch is shown under the root by its own proof.
pub open spec fn key_shown(key: JmtDedupKey, root: Seq<u8>) -> bool {
    shown(
        key.account_address@,
        key.key_index,
        key.pubkey_x@,
        key.pubkey_y@,
        root,
        key.merkle_proof@,
    )
}

/// A batch that shares its keys is accepted exactly when every key is shown under the root and
/// every order names a key of the batch for which its own signature is accepted.  With a key that is not
/// shown it is refused for that, otherwise for the first order that does not hold.
#[verifier::spinoff_prover]
#[verifier::rlimit(60)]
pub proof fn lemma_dedup(w: JmtDedupWitness, r: Result<ProofOutput, GuestError>)
    requires
        call_ensures(tree_guest::handle_batch_septic_dedup, (w,), r),
    ensures
        ({
            let keys = w.unique_keys@;
            let xs = key_xs(keys);
            let ys = key_ys(keys);
            let members = forall|i: int|
                0 <= i < keys.len() ==> key_shown(#[trigger] keys[i], w.session_key_root@);
            &&& r is Ok <==> members && (forall|i: int|
                0 <= i < w.orders@.len() ==> order_holds(xs, ys, #[trigger] w.orders@[i]))
            &&& r == Err::<ProofOutput, GuestError>(GuestError::KeyNotRegistered) <==> !members
            &&& members ==> (r matches Err(e) ==> exists|j: int|
                0 <= j < w.orders@.len() && !order_holds(xs, ys, #[trigger] w.orders@[j]) && e
                    == order_error(keys.len(), w.orders@[j]) && (forall|i: int|
                    0 <= i < j ==> order_holds(xs, ys, #[trigger] w.orders@[i])))
            &&& r matches Ok(out) ==> tree_committed(out, w.session_key_root@) && counted(
                out.proof_type@,
                "BATCH_SEPTIC_DEDUP_"@,
                keys.len(),
                w.orders@.len(),
            )
        }),
{
    let keys = w.unique_keys@;
    let points = tree_guest::key_points(keys);
    let xs = key_xs(keys);
    let ys = key_ys(keys);
    assert forall|i: int| 0 <= i < keys.len() implies tree_guest::key_is_member(
        #[trigger] keys[i],
        w.session_key_root@,
    ) == key_shown(keys[i], w.session_key_root@) by {
        lemma_member(
            keys[i].account_address@,
            keys[i].key_index,
            keys[i].pubkey_x@,
            keys[i].pubkey_y@,
            w.session_key_root@,
            keys[i].merkle_proof@,
        );
    }
    assert forall|i: int| 0 <= i < points.len() implies (#[trigger] points[i])@
        == signatures::point_at(xs[i], ys[i]) by {
        assert(points[i] == SepticPoint {
            x: Fp7(keys[i].pubkey_x),
            y: Fp7(keys[i].pubkey_y),
            is_infinity: false,
        });
    }
    lemma_dedup_orders(points, xs, ys, w.orders@);
    texts::lemma_decimal(keys.len());
    texts::lemma_decimal(w.orders@.len());
}

/// The first coordinates of keys without proofs.
pub open spec fn info_xs(keys: Seq<UniqueKeyInfo>) -> Seq<Seq<u32>> {
    Seq::new(keys.len(), |i: int| keys[i].pubkey_x@)
}

/// The second coordinates of keys without proofs.
pub open spec fn info_ys(keys: Seq<UniqueKeyInfo>) -> Seq<Seq<u32>> {
    Seq::new(keys.len(), |i: int| keys[i].pubkey_y@)
}

/// The value of an entry is shown at its slot.
pub open spec fn entry_shown(entry: ProofEntry, root: Seq<u8>) -> bool {
    state::tree_proof_holds(root, entry.key_hash@, Some(entry.value@), entry.proof@)
}

/// An entry belongs to a key: its slot is the hash of the key's account and index, and the first
/// 77 bytes of its value are the leaf of the key.
pub open spec fn entry_of(entry: ProofEntry, key: UniqueKeyInfo) -> bool {
    &&& exists|place: Seq<u8>| #[trigger]
        slot_reads(place, key.account_address@, key.key_index) && entry.key_hash@
            == poseidon2_hasher::poseidon2_digest(place)
    &&& entry.value@.len() >= 77
    &&& texts::leaf_reads(
        entry.value@.subrange(0, 77),
        key.account_address@,
        key.key_index,
        key.pubkey_x@,
        key.pubkey_y@,
    )
}

/// An entry is bound to a key exactly when it belongs to it.
pub proof fn lemma_entry_of(entry: ProofEntry, key: UniqueKeyInfo)
    ensures
        tree_guest::entry_binds(entry, key) <==> entry_of(entry, key),
{
    let account = key.account_address@;
    let place = account + seq![key.key_index];
    assert(place.subrange(0, 20) =~= account);
    assert(slot_reads(place, account, key.key_index));
    trees::lemma_slot(place, account, key.key_index);
    assert forall|p: Seq<u8>| #[trigger] slot_reads(p, account, key.key_index) implies p
        == place by {
        assert(p =~= p.subrange(0, 20) + seq![p[20]]);
    }
    texts::lemma_leaf(
        entry.value@.subrange(0, 77),
        account,
        key.key_index,
        key.pubkey_x@,
        key.pubkey_y@,
    );
}

/// A batch whose keys are proved together is accepted exactly when it has one entry for each key,
/// every entry is shown under the root and belongs to the key at its position, and every order
/// names a key for which its own signature is accepted.  A refusal names the first of these that fails.
#[verifier::spinoff_prover]
#[verifier::rlimit(60)]
pub proof fn lemma_dedup_batch(w: JmtDedupBatchWitness, r: Result<ProofOutput, GuestError>)
    requires
        call_ensures(tree_guest::handle_batch_septic_dedup_batch, (w,), r),
    ensures
        ({
            let keys = w.unique_keys@;
            let xs = info_xs(keys);
            let ys = info_ys(keys);
            let counts = w.entries@.len() == keys.len();
            let members = forall|i: int|
                0 <= i < w.entries@.len() ==> entry_shown(
                    #[trigger] w.entries@[i],
                    w.session_key_root@,
                );
            let bound = forall|i: int|
                0 <= i < w.entries@.len() ==> entry_of(#[trigger] w.entries@[i], keys[i]);
            &&& r is Ok <==> counts && members && bound && (forall|i: int|
                0 <= i < w.orders@.len() ==> order_holds(xs, ys, #[trigger] w.orders@[i]))
            &&& r == Err::<ProofOutput, GuestError>(GuestError::EntryCountMismatch) <==> !counts
            &&& r == Err::<ProofOutput, GuestError>(GuestError::KeyNotRegistered) <==> counts
                && !members
            &&& r == Err::<ProofOutput, GuestError>(GuestError::LeafMismatch) <==> counts && members
                && !bound
            &&& counts && members && bound ==> (r matches Err(e) ==> exists|j: int|
                0 <= j < w.orders@.len() && !order_holds(xs, ys, #[trigger] w.orders@[j]) && e
                    == order_error(keys.len(), w.orders@[j]) && (forall|i: int|
                    0 <= i < j ==> order_holds(xs, ys, #[trigger] w.orders@[i])))
            &&& r matches Ok(out) ==> tree_committed(out, w.session_key_root@) && counted(
                out.proof_type@,
                "BATCH_SEPTIC_DEDUP_BATCH_"@,
                keys.len(),
                w.orders@.len(),
            )
        }),
{
    let keys = w.unique_keys@;
    let points = tree_guest::info_points(keys);
    let xs = info_xs(keys);
    let ys = info_ys(keys);
    assert forall|i: int| 0 <= i < w.entries@.len() implies tree_guest::entry_holds(
        #[trigger] w.entries@[i],
        w.session_key_root@,
    ) == entry_shown(w.entries@[i], w.session_key_root@) by {}
    assert forall|i: int| 0 <= i < w.entries@.len() implies tree_guest::entry_binds(
        #[trigger] w.entries@[i],
        keys[i],
    ) == entry_of(w.entries@[i], keys[i]) by {
        lemma_entry_of(w.entries@[i], keys[i]);
    }
    assert forall|i: int| 0 <= i < points.len() implies (#[trigger] points[i])@
        == signatures::point_at(xs[i], ys[i]) by {
        assert(points[i] == SepticPoint {
            x: Fp7(keys[i].pubkey_x),
            y: Fp7(keys[i].pubkey_y),
            is_infinity: false,
        });
    }
    lemma_dedup_orders(points, xs, ys, w.orders@);
    texts::lemma_decimal(keys.len());
    texts::lemma_decimal(w.orders@.len());
}

} // verus!
