//! The program's checks of witnesses that carry proofs of the Jellyfish tree.
use crate::bytes;
use crate::dedup;
use crate::eth::same_address;
use crate::guest;
use crate::guest::{check_order_signed, check_register_signer, GuestError};
use crate::merkle;
use crate::merkle::{
    decode_session_key_leaf, encode_session_key_leaf, same_digest, session_key_hash,
};
use crate::septic::batch;
use crate::septic::batch::check_bench;
use crate::septic::fp7::Fp7;
use crate::septic::point::SepticPoint;
use crate::septic::schnorr;
use crate::septic::schnorr::{schnorr_equation, SepticBenchWitness};
use crate::session::SessionPair;
use crate::state;
use crate::state::verify_tree_proof;
use crate::text;
use crate::text::numbered;
use crate::types::{DedupOrder, ProofOutput, SessionKey, SessionKeyLeaf};
use crate::witness;
use crate::witness::{
    JmtDedupBatchWitness, JmtDedupKey, JmtDedupWitness, JmtMerkleOrder, JmtOrderSepticWitness,
    JmtOrderWitness, JmtRegisterKeyWitness, JmtVerifyMerkleWitness, ProofEntry, UniqueKeyInfo,
};
use vstd::prelude::*;
use vstd::string::*;

verus! {

/// The proof shows that the tree with this root holds the leaf of the key.
pub open spec fn is_member(
    account: Seq<u8>,
    key_index: u8,
    pubkey_x: Seq<u32>,
    pubkey_y: Seq<u32>,
    root: Seq<u8>,
    proof: Seq<u8>,
) -> bool {
    state::tree_proof_holds(
        root,
        merkle::slot(account, key_index),
        Some(merkle::leaf_encoding(account, key_index, pubkey_x, pubkey_y)),
        proof,
    )
}

/// The proof of a registered key shows its leaf, unless its slot is also that of another one.
pub proof fn lemma_registered_member(
    keys: Map<(Seq<u8>, u8), SessionKey>,
    contents: Map<Seq<u8>, Seq<u8>>,
    k: (Seq<u8>, u8),
    root: Seq<u8>,
    proof_bytes: Seq<u8>,
)
    requires
        state::consistent(keys, contents),
        keys.contains_key(k),
        state::unshared(keys, k),
        state::tree_proof_holds(
            root,
            merkle::slot(k.0, k.1),
            Some(contents[merkle::slot(k.0, k.1)]),
            proof_bytes,
        ),
    ensures
        is_member(k.0, k.1, keys[k].pubkey_x@, keys[k].pubkey_y@, root, proof_bytes),
{
    state::lemma_registered(keys, contents, k);
}

/// Whether the proof shows that the tree with this root holds the leaf of the key.
fn check_member(
    account: &[u8; 20],
    key_index: u8,
    pubkey_x: &[u32; 7],
    pubkey_y: &[u32; 7],
    root: &[u8; 32],
    proof: &Vec<u8>,
) -> (r: bool)
    ensures
        r == is_member(account@, key_index, pubkey_x@, pubkey_y@, root@, proof@),
{
    let leaf = SessionKeyLeaf {
        account_address: *account,
        key_index,
        pubkey_x: *pubkey_x,
        pubkey_y: *pubkey_y,
    };
    let key_hash = session_key_hash(account, key_index);
    verify_tree_proof(root, &key_hash, Some(encode_session_key_leaf(&leaf)), proof.as_slice())
}

/// Why a registration is refused, if it is: the old proof must show the old leaf, or that there
/// was none, and the account must have signed the request.
pub open spec fn register_refusal(w: JmtRegisterKeyWitness) -> Option<GuestError> {
    let q = w.request;
    if !state::tree_proof_holds(
        w.old_session_key_root@,
        merkle::slot(q.account_address@, q.key_index),
        witness::old_value(w.old_leaf),
        w.old_proof@,
    ) {
        Some(GuestError::OldLeafMismatch)
    } else {
        guest::register_signer_refusal(q)
    }
}

/// Registers a session key.  The new root is taken as it is.
pub fn handle_register_key(w: JmtRegisterKeyWitness) -> (r: Result<ProofOutput, GuestError>)
    ensures
        guest::outcome(
            r,
            register_refusal(w),
            w.old_session_key_root@,
            w.new_session_key_root@,
            w.request.account_address@,
            w.request.key_index,
            "REGISTER_KEY"@,
        ),
{
    let key_hash = session_key_hash(&w.request.account_address, w.request.key_index);
    let old_value = match &w.old_leaf {
        Some(leaf) => Some(encode_session_key_leaf(leaf)),
        None => None,
    };
    if !verify_tree_proof(&w.old_session_key_root, &key_hash, old_value, w.old_proof.as_slice()) {
        return Err(GuestError::OldLeafMismatch);
    }
    match check_register_signer(&w.request) {
        Some(e) => return Err(e),
        None => {},
    }
    Ok(
        ProofOutput {
            old_session_key_root: w.old_session_key_root,
            new_session_key_root: w.new_session_key_root,
            account_address: w.request.account_address,
            key_index: w.request.key_index,
            proof_type: "REGISTER_KEY".to_owned(),
        },
    )
}

/// Why an order is refused, if it is.
pub open spec fn order_refusal(w: JmtOrderWitness) -> Option<GuestError> {
    let key = w.session_key;
    if !is_member(
        w.order.account_address@,
        w.order.key_index,
        key.pubkey_x@,
        key.pubkey_y@,
        w.session_key_root@,
        w.merkle_proof@,
    ) {
        Some(GuestError::KeyNotRegistered)
    } else if !guest::order_signed(w.order, key) {
        Some(GuestError::SchnorrMismatch)
    } else {
        None
    }
}

/// An accepted order that is changed in its market, side, price or quantity alone is refused,
/// unless its text has the same challenge.
pub proof fn lemma_changed_order_refused(w: JmtOrderWitness, changed: JmtOrderWitness)
    requires
        order_refusal(w) is None,
        guest::same_but_text(w.order, changed.order),
        changed.session_key == w.session_key,
        changed.session_key_root == w.session_key_root,
        changed.merkle_proof == w.merkle_proof,
        guest::order_challenge(changed.order, w.session_key) != guest::order_challenge(
            w.order,
            w.session_key,
        ),
    ensures
        order_refusal(changed) == Some(GuestError::SchnorrMismatch),
{
}

/// Verifies an order: its session key is in the tree, and has signed its text.
pub fn handle_verify_order(w: JmtOrderWitness) -> (r: Result<ProofOutput, GuestError>)
    ensures
        guest::outcome(
            r,
            order_refusal(w),
            w.session_key_root@,
            w.session_key_root@,
            w.order.account_address@,
            w.order.key_index,
            "VERIFY_ORDER"@,
        ),
{
    if !check_member(
        &w.order.account_address,
        w.order.key_index,
        &w.session_key.pubkey_x,
        &w.session_key.pubkey_y,
        &w.session_key_root,
        &w.merkle_proof,
    ) {
        return Err(GuestError::KeyNotRegistered);
    }
    if !check_order_signed(&w.order, &w.session_key) {
        return Err(GuestError::SchnorrMismatch);
    }
    Ok(
        ProofOutput {
            old_session_key_root: w.session_key_root,
            new_session_key_root: w.session_key_root,
            account_address: w.order.account_address,
            key_index: w.order.key_index,
            proof_type: "VERIFY_ORDER".to_owned(),
        },
    )
}

/// Why a Schnorr order with a proof is refused, if it is.
pub open spec fn bench_refusal(
    bench: SepticBenchWitness,
    root: Seq<u8>,
    proof: Seq<u8>,
    mismatch: GuestError,
) -> Option<GuestError> {
    if !is_member(
        bench.order.account_address@,
        bench.order.key_index,
        bench.order.pubkey_x.0@,
        bench.order.pubkey_y.0@,
        root,
        proof,
    ) {
        Some(GuestError::KeyNotRegistered)
    } else if !batch::bench_verifies(bench) {
        Some(mismatch)
    } else {
        None
    }
}

/// Checks a Schnorr order with a proof.
fn check_bench_member(
    bench: &SepticBenchWitness,
    root: &[u8; 32],
    proof: &Vec<u8>,
    mismatch: GuestError,
) -> (r: Option<GuestError>)
    ensures
        r == bench_refusal(*bench, root@, proof@, mismatch),
{
    if !check_member(
        &bench.order.account_address,
        bench.order.key_index,
        &bench.order.pubkey_x.0,
        &bench.order.pubkey_y.0,
        root,
        proof,
    ) {
        return Some(GuestError::KeyNotRegistered);
    }
    if !check_bench(bench) {
        return Some(mismatch);
    }
    None
}

/// Verifies a Schnorr order that carries its public key.
pub fn handle_verify_order_septic(w: JmtOrderSepticWitness) -> (r: Result<ProofOutput, GuestError>)
    ensures
        guest::outcome(
            r,
            bench_refusal(
                w.bench,
                w.session_key_root@,
                w.merkle_proof@,
                GuestError::SepticMismatch,
            ),
            w.session_key_root@,
            w.session_key_root@,
            w.bench.order.account_address@,
            w.bench.order.key_index,
            "VERIFY_ORDER_SEPTIC"@,
        ),
{
    match check_bench_member(
        &w.bench,
        &w.session_key_root,
        &w.merkle_proof,
        GuestError::SepticMismatch,
    ) {
        Some(e) => return Err(e),
        None => {},
    }
    Ok(
        ProofOutput {
            old_session_key_root: w.session_key_root,
            new_session_key_root: w.session_key_root,
            account_address: w.bench.order.account_address,
            key_index: w.bench.order.key_index,
            proof_type: "VERIFY_ORDER_SEPTIC".to_owned(),
        },
    )
}

/// The refusal of the first order of a batch that is refused.
pub open spec fn merkle_batch_refusal(orders: Seq<JmtMerkleOrder>, root: Seq<u8>) -> Option<
    GuestError,
>
    decreases orders.len(),
{
    if orders.len() == 0 {
        None
    } else {
        let first = bench_refusal(
            orders[0].bench,
            root,
            orders[0].merkle_proof@,
            GuestError::BatchMerkleMismatch,
        );
        if first is Some {
            first
        } else {
            merkle_batch_refusal(orders.drop_first(), root)
        }
    }
}

/// A batch is accepted when each of its orders is.
pub proof fn lemma_merkle_batch_accepted(orders: Seq<JmtMerkleOrder>, root: Seq<u8>)
    requires
        forall|i: int|
            0 <= i < orders.len() ==> bench_refusal(
                (#[trigger] orders[i]).bench,
                root,
                orders[i].merkle_proof@,
                GuestError::BatchMerkleMismatch,
            ) is None,
    ensures
        merkle_batch_refusal(orders, root) is None,
    decreases orders.len(),
{
    if orders.len() > 0 {
        assert(orders[0] == orders[0]);
        let rest = orders.drop_first();
        assert forall|i: int| 0 <= i < rest.len() implies bench_refusal(
            (#[trigger] rest[i]).bench,
            root,
            rest[i].merkle_proof@,
            GuestError::BatchMerkleMismatch,
        ) is None by {
            assert(rest[i] == orders[i + 1]);
        }
        lemma_merkle_batch_accepted(rest, root);
    }
}

/// An output for a batch whose keys lie in one tree.
fn tree_output(root: [u8; 32], proof_type: String) -> (out: ProofOutput)
    ensures
        out.old_session_key_root == root,
        out.new_session_key_root == root,
        out.account_address@ == guest::no_account(),
        out.key_index == 0,
        out.proof_type@ == proof_type@,
{
    let out = ProofOutput {
        old_session_key_root: root,
        new_session_key_root: root,
        account_address: [0; 20],
        key_index: 0,
        proof_type,
    };
    assert(out.account_address@ =~= guest::no_account());
    out
}

/// Verifies Schnorr orders whose session keys lie in one tree.
pub fn handle_batch_septic_verify_merkle(w: JmtVerifyMerkleWitness) -> (r: Result<
    ProofOutput,
    GuestError,
>)
    ensures
        guest::batch_outcome(
            r,
            merkle_batch_refusal(w.orders@, w.session_key_root@),
            w.session_key_root@,
            "BATCH_SEPTIC_VERIFY_MERKLE_"@ + text::decimal(w.orders@.len()),
        ),
{
    assert(w.orders@.skip(0) =~= w.orders@);
    for i in 0..w.orders.len()
        invariant
            merkle_batch_refusal(w.orders@.skip(i as int), w.session_key_root@)
                == merkle_batch_refusal(w.orders@, w.session_key_root@),
    {
        assert(w.orders@.skip(i as int).drop_first() =~= w.orders@.skip(i + 1));
        let entry = &w.orders[i];
        match check_bench_member(
            &entry.bench,
            &w.session_key_root,
            &entry.merkle_proof,
            GuestError::BatchMerkleMismatch,
        ) {
            Some(e) => return Err(e),
            None => {},
        }
    }
    assert(w.orders@.skip(w.orders@.len() as int) =~= Seq::<JmtMerkleOrder>::empty());
    Ok(tree_output(w.session_key_root, numbered("BATCH_SEPTIC_VERIFY_MERKLE_", w.orders.len())))
}

/// The tree holds the leaf of the key.
pub open spec fn key_is_member(key: JmtDedupKey, root: Seq<u8>) -> bool {
    is_member(
        key.account_address@,
        key.key_index,
        key.pubkey_x@,
        key.pubkey_y@,
        root,
        key.merkle_proof@,
    )
}

/// The public points of the keys of a batch.
pub open spec fn key_points(keys: Seq<JmtDedupKey>) -> Seq<SepticPoint> {
    Seq::new(
        keys.len(),
        |i: int|
            SepticPoint {
                x: Fp7(keys[i].pubkey_x),
                y: Fp7(keys[i].pubkey_y),
                is_infinity: false,
            },
    )
}

/// Why an order that refers to its key by position is refused, if it is.
pub open spec fn dedup_order_refusal(points: Seq<SepticPoint>, order: DedupOrder) -> Option<
    GuestError,
> {
    if order.key_idx >= points.len() {
        Some(GuestError::KeyIndexOutOfRange)
    } else if schnorr::verifies(
        points[order.key_idx as int],
        order.signature_r_x@,
        order.signature_r_y@,
        order.signature_s@,
        order.challenge_e@,
    ) {
        None
    } else {
        Some(GuestError::DedupMismatch)
    }
}

/// The refusal of the first order that is refused.
pub open spec fn dedup_orders_refusal(points: Seq<SepticPoint>, orders: Seq<DedupOrder>) -> Option<
    GuestError,
>
    decreases orders.len(),
{
    if orders.len() == 0 {
        None
    } else {
        let first = dedup_order_refusal(points, orders[0]);
        if first is Some {
            first
        } else {
            dedup_orders_refusal(points, orders.drop_first())
        }
    }
}

/// Why a batch that shares its keys is refused, if it is: the keys are checked before the orders.
pub open spec fn dedup_refusal(w: JmtDedupWitness) -> Option<GuestError> {
    if forall|i: int|
        0 <= i < w.unique_keys@.len() ==> key_is_member(
            #[trigger] w.unique_keys@[i],
            w.session_key_root@,
        ) {
        dedup_orders_refusal(key_points(w.unique_keys@), w.orders@)
    } else {
        Some(GuestError::KeyNotRegistered)
    }
}

/// A batch that was built from the keys of a tree is accepted, unless two keys of the tree have
/// the same slot.
pub proof fn lemma_dedup_accepted(
    w: JmtDedupWitness,
    sessions: Seq<SessionPair>,
    tree_size: int,
    unique_count: int,
)
    requires
        dedup::dedup_built(w, sessions, tree_size, unique_count),
        0 <= unique_count <= tree_size,
        dedup::slots_distinct(tree_size),
    ensures
        dedup_refusal(w) is None,
{
    let keys = w.unique_keys@;
    assert forall|i: int| 0 <= i < keys.len() implies key_is_member(
        #[trigger] keys[i],
        w.session_key_root@,
    ) by {
        assert(dedup::dedup_key_built(keys[i], sessions, i));
        dedup::lemma_session_leaf(sessions, i);
    }
    assert forall|i: int| 0 <= i < keys.len() implies #[trigger] key_points(keys)[i]
        == sessions[i].pubkey by {
        assert(dedup::dedup_key_built(keys[i], sessions, i));
        assert(sessions[i].wf());
        assert(keys[i].pubkey_x =~= sessions[i].pubkey.x.0);
        assert(keys[i].pubkey_y =~= sessions[i].pubkey.y.0);
    }
    lemma_shuffled_accepted(key_points(keys), w.orders@, sessions, unique_count);
}

/// The orders of a batch are accepted when the points are those of the keys that signed them.
proof fn lemma_shuffled_accepted(
    points: Seq<SepticPoint>,
    orders: Seq<DedupOrder>,
    sessions: Seq<SessionPair>,
    unique_count: int,
)
    requires
        dedup::dedup_orders_shuffled(orders, sessions, unique_count),
        points.len() == unique_count,
        forall|i: int| 0 <= i < points.len() ==> #[trigger] points[i] == sessions[i].pubkey,
    ensures
        dedup_orders_refusal(points, orders) is None,
{
    assert forall|i: int| 0 <= i < orders.len() implies dedup_order_refusal(
        points,
        #[trigger] orders[i],
    ) is None by {
        dedup::lemma_shuffled_verifies(orders, sessions, unique_count, i);
        assert(points[orders[i].key_idx as int] == sessions[orders[i].key_idx as int].pubkey);
    }
    lemma_orders_accepted(points, orders);
}

proof fn lemma_orders_accepted(points: Seq<SepticPoint>, orders: Seq<DedupOrder>)
    requires
        forall|i: int|
            0 <= i < orders.len() ==> dedup_order_refusal(points, #[trigger] orders[i]) is None,
    ensures
        dedup_orders_refusal(points, orders) is None,
    decreases orders.len(),
{
    if orders.len() > 0 {
        assert(orders[0] == orders[0]);
        let rest = orders.drop_first();
        assert forall|i: int| 0 <= i < rest.len() implies dedup_order_refusal(
            points,
            #[trigger] rest[i],
        ) is None by {
            assert(rest[i] == orders[i + 1]);
        }
        lemma_orders_accepted(points, rest);
    }
}

/// Checks an order that refers to its key by position.
fn check_dedup_order(points: &Vec<SepticPoint>, order: &DedupOrder) -> (r: Option<GuestError>)
    ensures
        r == dedup_order_refusal(points@, *order),
{
    if order.key_idx as usize >= points.len() {
        return Some(GuestError::KeyIndexOutOfRange);
    }
    if schnorr_equation(
        &points[order.key_idx as usize],
        &order.signature_r_x,
        &order.signature_r_y,
        &order.signature_s,
        &order.challenge_e,
    ) {
        None
    } else {
        Some(GuestError::DedupMismatch)
    }
}

/// Checks the orders of a batch one by one.
fn check_dedup_orders(points: &Vec<SepticPoint>, orders: &Vec<DedupOrder>) -> (r: Option<
    GuestError,
>)
    ensures
        r == dedup_orders_refusal(points@, orders@),
{
    assert(orders@.skip(0) =~= orders@);
    for i in 0..orders.len()
        invariant
            dedup_orders_refusal(points@, orders@.skip(i as int)) == dedup_orders_refusal(
                points@,
                orders@,
            ),
    {
        assert(orders@.skip(i as int).drop_first() =~= orders@.skip(i + 1));
        match check_dedup_order(points, &orders[i]) {
            Some(e) => return Some(e),
            None => {},
        }
    }
    assert(orders@.skip(orders@.len() as int) =~= Seq::<DedupOrder>::empty());
    None
}

/// The kind of a batch with some keys and orders.
pub open spec fn dedup_label(label: Seq<char>, keys: nat, orders: nat) -> Seq<char> {
    label + text::decimal(keys) + "u_"@ + text::decimal(orders) + "o"@
}

/// The kind of a batch with some keys and orders.
fn make_dedup_label(label: &str, keys: usize, orders: usize) -> (r: String)
    ensures
        r@ == dedup_label(label@, keys as nat, orders as nat),
{
    let mut r = numbered(label, keys);
    r.append("u_");
    text::append_decimal(&mut r, orders as u64);
    r.append("o");
    r
}

/// Verifies a batch in which each session key is proved once.
pub fn handle_batch_septic_dedup(w: JmtDedupWitness) -> (r: Result<ProofOutput, GuestError>)
    ensures
        guest::batch_outcome(
            r,
            dedup_refusal(w),
            w.session_key_root@,
            dedup_label("BATCH_SEPTIC_DEDUP_"@, w.unique_keys@.len(), w.orders@.len()),
        ),
{
    let mut points: Vec<SepticPoint> = Vec::new();
    for i in 0..w.unique_keys.len()
        invariant
            points@ =~= key_points(w.unique_keys@.take(i as int)),
            forall|k: int|
                0 <= k < i ==> key_is_member(#[trigger] w.unique_keys@[k], w.session_key_root@),
    {
        let key = &w.unique_keys[i];
        if !check_member(
            &key.account_address,
            key.key_index,
            &key.pubkey_x,
            &key.pubkey_y,
            &w.session_key_root,
            &key.merkle_proof,
        ) {
            assert(!key_is_member(w.unique_keys@[i as int], w.session_key_root@));
            return Err(GuestError::KeyNotRegistered);
        }
        points.push(SepticPoint::new(Fp7(key.pubkey_x), Fp7(key.pubkey_y)));
    }
    assert(w.unique_keys@.take(w.unique_keys@.len() as int) =~= w.unique_keys@);
    match check_dedup_orders(&points, &w.orders) {
        Some(e) => return Err(e),
        None => {},
    }
    let proof_type = make_dedup_label("BATCH_SEPTIC_DEDUP_", w.unique_keys.len(), w.orders.len());
    Ok(tree_output(w.session_key_root, proof_type))
}

// ── Batches whose keys are proved together ────────────────────────────────

/// The public points of the keys of a batch whose keys are proved together.
pub open spec fn info_points(keys: Seq<UniqueKeyInfo>) -> Seq<SepticPoint> {
    Seq::new(
        keys.len(),
        |i: int|
            SepticPoint {
                x: Fp7(keys[i].pubkey_x),
                y: Fp7(keys[i].pubkey_y),
                is_infinity: false,
            },
    )
}

/// The proof of an entry shows that the tree with this root has its value at its slot.
pub open spec fn entry_holds(entry: ProofEntry, root: Seq<u8>) -> bool {
    state::tree_proof_holds(root, entry.key_hash@, Some(entry.value@), entry.proof@)
}

/// An entry is that of a key: its slot is that of the key, and its value decodes to the leaf of the
/// key.  Bytes after the leaf are ignored.
pub open spec fn entry_binds(entry: ProofEntry, key: UniqueKeyInfo) -> bool {
    &&& entry.key_hash@ == merkle::slot(key.account_address@, key.key_index)
    &&& entry.value@.len() >= 77
    &&& entry.value@.take(77) == merkle::leaf_encoding(
        key.account_address@,
        key.key_index,
        key.pubkey_x@,
        key.pubkey_y@,
    )
}

/// Why a batch whose keys are proved together is refused, if it is: there must be one entry for
/// each key, every entry must hold, then every entry must be that of its key, and then the orders
/// are checked.
pub open spec fn dedup_batch_refusal(w: JmtDedupBatchWitness) -> Option<GuestError> {
    if w.entries@.len() != w.unique_keys@.len() {
        Some(GuestError::EntryCountMismatch)
    } else if !(forall|i: int|
        0 <= i < w.entries@.len() ==> entry_holds(#[trigger] w.entries@[i], w.session_key_root@)) {
        Some(GuestError::KeyNotRegistered)
    } else if !(forall|i: int|
        0 <= i < w.entries@.len() ==> entry_binds(#[trigger] w.entries@[i], w.unique_keys@[i])) {
        Some(GuestError::LeafMismatch)
    } else {
        dedup_orders_refusal(info_points(w.unique_keys@), w.orders@)
    }
}

/// A batch with entries that was built from the keys of a tree is accepted, unless two keys of the
/// tree have the same slot.
pub proof fn lemma_dedup_batch_accepted(
    w: JmtDedupBatchWitness,
    sessions: Seq<SessionPair>,
    tree_size: int,
    unique_count: int,
)
    requires
        dedup::dedup_batch_built(w, sessions, tree_size, unique_count),
        0 <= unique_count <= tree_size,
        dedup::slots_distinct(tree_size),
    ensures
        dedup_batch_refusal(w) is None,
{
    let keys = w.unique_keys@;
    let entries = w.entries@;
    assert forall|i: int| 0 <= i < entries.len() implies entry_holds(
        #[trigger] entries[i],
        w.session_key_root@,
    ) && entry_binds(entries[i], keys[i]) by {
        assert(dedup::entry_built(entries[i], sessions, i));
        assert(dedup::key_info_built(keys[i], sessions, i));
        dedup::lemma_session_leaf(sessions, i);
        bytes::lemma_le4_all(keys[i].pubkey_x@);
        bytes::lemma_le4_all(keys[i].pubkey_y@);
        assert(entries[i].value@.take(77) =~= entries[i].value@);
    }
    assert forall|i: int| 0 <= i < keys.len() implies #[trigger] info_points(keys)[i]
        == sessions[i].pubkey by {
        assert(dedup::key_info_built(keys[i], sessions, i));
        assert(sessions[i].wf());
        assert(keys[i].pubkey_x =~= sessions[i].pubkey.x.0);
        assert(keys[i].pubkey_y =~= sessions[i].pubkey.y.0);
    }
    lemma_shuffled_accepted(info_points(keys), w.orders@, sessions, unique_count);
}

/// Whether an entry is that of a key.
fn check_entry_binds(entry: &ProofEntry, key: &UniqueKeyInfo) -> (r: bool)
    ensures
        r == entry_binds(*entry, *key),
{
    let leaf = match decode_session_key_leaf(entry.value.as_slice()) {
        Ok(leaf) => leaf,
        Err(_) => return false,
    };
    let slot = session_key_hash(&key.account_address, key.key_index);
    proof {
        let expected = SessionKeyLeaf {
            account_address: key.account_address,
            key_index: key.key_index,
            pubkey_x: key.pubkey_x,
            pubkey_y: key.pubkey_y,
        };
        if leaf.encoding() == expected.encoding() {
            merkle::lemma_leaf_encoding_injective(leaf, expected);
        }
        if Fp7(leaf.pubkey_x)@ == Fp7(key.pubkey_x)@ {
            assert(leaf.pubkey_x@ =~= key.pubkey_x@);
        }
        if Fp7(leaf.pubkey_y)@ == Fp7(key.pubkey_y)@ {
            assert(leaf.pubkey_y@ =~= key.pubkey_y@);
        }
    }
    same_address(&leaf.account_address, &key.account_address) && leaf.key_index == key.key_index
        && Fp7(leaf.pubkey_x) == Fp7(key.pubkey_x) && Fp7(leaf.pubkey_y) == Fp7(key.pubkey_y)
        && same_digest(&entry.key_hash, &slot)
}

/// Verifies a batch whose session keys are proved together, from one entry for each.
pub fn handle_batch_septic_dedup_batch(w: JmtDedupBatchWitness) -> (r: Result<
    ProofOutput,
    GuestError,
>)
    ensures
        guest::batch_outcome(
            r,
            dedup_batch_refusal(w),
            w.session_key_root@,
            dedup_label("BATCH_SEPTIC_DEDUP_BATCH_"@, w.unique_keys@.len(), w.orders@.len()),
        ),
{
    if w.entries.len() != w.unique_keys.len() {
        return Err(GuestError::EntryCountMismatch);
    }
    for i in 0..w.entries.len()
        invariant
            w.entries@.len() == w.unique_keys@.len(),
            forall|k: int|
                0 <= k < i ==> entry_holds(#[trigger] w.entries@[k], w.session_key_root@),
    {
        let entry = &w.entries[i];
        let value = entry.value.clone();
        assert(value@ =~= entry.value@);
        if !verify_tree_proof(
            &w.session_key_root,
            &entry.key_hash,
            Some(value),
            entry.proof.as_slice(),
        ) {
            assert(!entry_holds(w.entries@[i as int], w.session_key_root@));
            return Err(GuestError::KeyNotRegistered);
        }
    }
    let mut points: Vec<SepticPoint> = Vec::new();
    for i in 0..w.unique_keys.len()
        invariant
            w.entries@.len() == w.unique_keys@.len(),
            points@ =~= info_points(w.unique_keys@.take(i as int)),
            forall|k: int|
                0 <= k < w.entries@.len() ==> entry_holds(
                    #[trigger] w.entries@[k],
                    w.session_key_root@,
                ),
            forall|k: int|
                0 <= k < i ==> entry_binds(#[trigger] w.entries@[k], w.unique_keys@[k]),
    {
        let key = &w.unique_keys[i];
        if !check_entry_binds(&w.entries[i], key) {
            assert(!entry_binds(w.entries@[i as int], w.unique_keys@[i as int]));
            return Err(GuestError::LeafMismatch);
        }
        points.push(SepticPoint::new(Fp7(key.pubkey_x), Fp7(key.pubkey_y)));
    }
    assert(w.unique_keys@.take(w.unique_keys@.len() as int) =~= w.unique_keys@);
    match check_dedup_orders(&points, &w.orders) {
        Some(e) => return Err(e),
        None => {},
    }
    let proof_type = make_dedup_label(
        "BATCH_SEPTIC_DEDUP_BATCH_",
        w.unique_keys.len(),
        w.orders.len(),
    );
    Ok(tree_output(w.session_key_root, proof_type))
}

} // verus!
