//! Witnesses that carry proofs of the Jellyfish tree.
use crate::merkle;
use crate::septic::schnorr::SepticBenchWitness;
use crate::state;
use crate::state::{AppState, KeyProofResult, RegisterKeyResult};
use crate::types::{DedupOrder, RegisterKeyRequest, SessionKey, SessionKeyLeaf, SignedOrder};
use vstd::prelude::*;

verus! {

/// A registration with the proof of its slot before it, in the Borsh encoding.
#[derive(Clone, Debug)]
pub struct JmtRegisterKeyWitness {
    pub request: RegisterKeyRequest,
    pub old_session_key_root: [u8; 32],
    pub new_session_key_root: [u8; 32],
    pub old_proof: Vec<u8>,
    pub old_leaf: Option<SessionKeyLeaf>,
}

/// A signed order with the proof of its session key.
#[derive(Clone, Debug)]
pub struct JmtOrderWitness {
    pub order: SignedOrder,
    pub session_key: SessionKey,
    pub session_key_root: [u8; 32],
    pub merkle_proof: Vec<u8>,
}

/// A single Schnorr order with the proof of its session key.
#[derive(Clone, Debug)]
pub struct JmtOrderSepticWitness {
    pub bench: SepticBenchWitness,
    pub session_key_root: [u8; 32],
    pub merkle_proof: Vec<u8>,
}

/// One order of a batch with the proof of its session key.
#[derive(Clone, Debug)]
pub struct JmtMerkleOrder {
    pub bench: SepticBenchWitness,
    pub merkle_proof: Vec<u8>,
}

/// Schnorr orders whose session keys lie in one tree.
#[derive(Clone, Debug)]
pub struct JmtVerifyMerkleWitness {
    pub orders: Vec<JmtMerkleOrder>,
    pub session_key_root: [u8; 32],
}

/// A session key that several orders refer to, with its proof.
#[derive(Clone, Debug)]
pub struct JmtDedupKey {
    pub account_address: [u8; 20],
    pub key_index: u8,
    pub pubkey_x: [u32; 7],
    pub pubkey_y: [u32; 7],
    pub merkle_proof: Vec<u8>,
}

/// A batch in which each session key is proved once.
#[derive(Clone, Debug)]
pub struct JmtDedupWitness {
    pub unique_keys: Vec<JmtDedupKey>,
    pub orders: Vec<DedupOrder>,
    pub session_key_root: [u8; 32],
}

/// A session key that several orders refer to, without a proof of its own.
#[derive(Clone, Debug)]
pub struct UniqueKeyInfo {
    pub account_address: [u8; 20],
    pub key_index: u8,
    pub pubkey_x: [u32; 7],
    pub pubkey_y: [u32; 7],
}

/// The slot, the value and the proof of a session key.
#[derive(Clone, Debug)]
pub struct ProofEntry {
    pub key_hash: [u8; 32],
    pub value: Vec<u8>,
    pub proof: Vec<u8>,
}

/// A batch whose session keys are proved together, from one entry for each.
#[derive(Clone, Debug)]
pub struct JmtDedupBatchWitness {
    pub session_key_root: [u8; 32],
    pub entries: Vec<ProofEntry>,
    pub unique_keys: Vec<UniqueKeyInfo>,
    pub orders: Vec<DedupOrder>,
}

/// The value that an old leaf stands for: its encoding, or none.
pub open spec fn old_value(leaf: Option<SessionKeyLeaf>) -> Option<Seq<u8>> {
    match leaf {
        Some(leaf) => Some(leaf.encoding()),
        None => None,
    }
}

/// The witness of a registration.
pub fn register_witness(request: RegisterKeyRequest, result: RegisterKeyResult) -> (w:
    JmtRegisterKeyWitness)
    ensures
        w.request == request,
        w.old_session_key_root == result.old_root,
        w.new_session_key_root == result.new_root,
        w.old_proof == result.old_proof,
        w.old_leaf == result.old_leaf,
{
    JmtRegisterKeyWitness {
        request,
        old_session_key_root: result.old_root,
        new_session_key_root: result.new_root,
        old_proof: result.old_proof,
        old_leaf: result.old_leaf,
    }
}

/// The witness of an order.
pub fn order_witness(order: SignedOrder, proof: KeyProofResult) -> (w: JmtOrderWitness)
    ensures
        w.order == order,
        w.session_key == proof.key,
        w.session_key_root == proof.root,
        w.merkle_proof == proof.proof,
{
    JmtOrderWitness {
        order,
        session_key: proof.key,
        session_key_root: proof.root,
        merkle_proof: proof.proof,
    }
}

/// Registers the key of a request and returns the witness of the registration.
pub fn register_request(app: &mut AppState, request: RegisterKeyRequest) -> (r: Result<
    JmtRegisterKeyWitness,
    String,
>)
    requires
        old(app).wf(),
        old(app).version < u64::MAX - 1,
    ensures
        r is Ok,
        r matches Ok(w) ==> {
            let account = request.account_address@;
            let slot = merkle::slot(account, request.key_index);
            let key = request_key(request);
            &&& final(app).wf()
            &&& final(app).version == old(app).version + 1
            &&& final(app).session_keys@ == old(app).session_keys@.insert(
                (account, request.key_index),
                key,
            )
            &&& final(app).contents() == old(app).contents().insert(
                slot,
                state::leaf_of(account, key),
            )
            &&& w.request == request
            &&& w.old_session_key_root == old(app).current_root
            &&& w.new_session_key_root == final(app).current_root
            &&& w.old_leaf is Some <==> old(app).contents().contains_key(slot)
            &&& w.old_leaf matches Some(leaf) ==> leaf.encoding() == old(app).contents()[slot]
            &&& w.old_proof@ == if old(app).version == 0 {
                state::no_proof()
            } else {
                state::tree_proof(old(app).contents(), slot)
            }
            &&& state::tree_proof_holds(
                w.old_session_key_root@,
                slot,
                old_value(w.old_leaf),
                w.old_proof@,
            )
        },
{
    let key = SessionKey {
        pubkey_x: request.pubkey_x,
        pubkey_y: request.pubkey_y,
        key_index: request.key_index,
    };
    match app.register_key(request.account_address, key) {
        Ok(result) => Ok(register_witness(request, result)),
        Err(m) => Err(m),
    }
}

/// The session key of a request.
pub open spec fn request_key(request: RegisterKeyRequest) -> SessionKey {
    SessionKey {
        pubkey_x: request.pubkey_x,
        pubkey_y: request.pubkey_y,
        key_index: request.key_index,
    }
}

/// The witness of an order of a registered key.  There is one exactly when the key is registered.
/// Its proof shows the leaf of this key, unless its slot is also that of another one.
pub fn order_request(app: &AppState, order: SignedOrder) -> (r: Option<JmtOrderWitness>)
    requires
        app.wf(),
    ensures
        r is Some <==> app.session_keys@.contains_key((order.account_address@, order.key_index)),
        r matches Some(w) ==> {
            &&& w.order == order
            &&& w.session_key == app.session_keys@[(order.account_address@, order.key_index)]
            &&& w.session_key_root == app.current_root
            &&& w.merkle_proof@ == state::tree_proof(
                app.contents(),
                merkle::slot(order.account_address@, order.key_index),
            )
            &&& state::tree_proof_holds(
                w.session_key_root@,
                merkle::slot(order.account_address@, order.key_index),
                Some(app.contents()[merkle::slot(order.account_address@, order.key_index)]),
                w.merkle_proof@,
            )
            &&& state::unshared(app.session_keys@, (order.account_address@, order.key_index))
                ==> state::tree_proof_holds(
                w.session_key_root@,
                merkle::slot(order.account_address@, order.key_index),
                Some(state::leaf_of(order.account_address@, w.session_key)),
                w.merkle_proof@,
            )
        },
{
    match app.get_key_proof(order.account_address, order.key_index) {
        Some(proof) => Some(order_witness(order, proof)),
        None => None,
    }
}

} // verus!
