//! The program whose execution is proved: it checks a witness and commits to an output.
use crate::eth;
use crate::eth::{
    decode_hex_65, eip191_hash, recover_eth_address, recover_eth_address_kalqix, same_address,
    HexError, RecoverError,
};
use crate::merkle;
use crate::merkle::{compute_new_root, hash_leaf, same_digest, verify_merkle_proof};
use crate::messages;
use crate::messages::{eth_order_message, register_key_message};
use crate::poseidon2_hasher;
use crate::septic::batch;
use crate::septic::batch::{check_all, check_batch_equation, check_bench};
use crate::septic::fp7::Fp7;
use crate::septic::point::SepticPoint;
use crate::septic::scalar;
use crate::septic::schnorr;
use crate::septic::schnorr::{schnorr_equation, schnorr_verify, SepticBenchWitness};
use crate::session;
use crate::session::hash_order;
use crate::text;
use crate::text::numbered;
use crate::types::{
    BatchEthWitness, BatchSepticDedupWitness, BatchSepticOptWitness, BatchSepticSingleWitness,
    BatchSepticVerifyMerkleWitness, BatchSepticVerifyWitness, BatchSepticWitness, DedupKey,
    DedupOrder, EthOrderWitness, EthSignedOrder, OrderWitness, ProgramInput, ProofOutput,
    RegisterKeyRequest, RegisterKeyWitness, SepticMerkleOrder, SessionKey, SessionKeyLeaf,
    SignedOrder, VerifyOrderSepticWitness,
};
use vstd::prelude::*;
use vstd::string::*;

verus! {

/// Why a witness is refused.
#[derive(Clone, Copy, Debug, PartialEq, Eq, Structural)]
pub enum GuestError {
    /// A Merkle path has more than 64 levels.
    PathTooLong,
    OldLeafMismatch,
    InvalidHex,
    WrongSignatureLength,
    InvalidSignature,
    InvalidRecoveryId,
    RecoveryFailed,
    AddressMismatch,
    OrderSignerMismatch,
    BatchSignerMismatch,
    NewRootMismatch,
    KeyNotRegistered,
    SchnorrMismatch,
    SepticMismatch,
    BatchSepticMismatch,
    BatchSingleMismatch,
    BatchVerifyMismatch,
    BatchMerkleMismatch,
    DedupMismatch,
    EmptyBatch,
    BatchEquationMismatch,
    BatchEquationSingleMismatch,
    /// An order refers to a key that the batch does not hold.
    KeyIndexOutOfRange,
    /// A batch does not have one entry for each of its keys.
    EntryCountMismatch,
    /// An entry of a batch is not that of its key.
    LeafMismatch,
}

impl GuestError {
    /// The text of the refusal.
    pub open spec fn text(self) -> Seq<char> {
        match self {
            GuestError::PathTooLong => "Merkle path too long"@,
            GuestError::OldLeafMismatch => "old leaf does not match old root"@,
            GuestError::InvalidHex => "invalid hex"@,
            GuestError::WrongSignatureLength => "expected 65 bytes"@,
            GuestError::InvalidSignature => "invalid secp256k1 signature"@,
            GuestError::InvalidRecoveryId => "invalid recovery id"@,
            GuestError::RecoveryFailed => "secp256k1 recovery failed"@,
            GuestError::AddressMismatch => "EIP-191 signature does not match account address"@,
            GuestError::OrderSignerMismatch => "EIP-191 order signature does not match account address"@,
            GuestError::BatchSignerMismatch => "EIP-191 order signature mismatch in batch"@,
            GuestError::NewRootMismatch => "new root mismatch"@,
            GuestError::KeyNotRegistered => "session key not registered — Merkle proof failed"@,
            GuestError::SchnorrMismatch => "Schnorr signature verification failed"@,
            GuestError::SepticMismatch => "Schnorr verify failed: s·G + e·A != R"@,
            GuestError::BatchSepticMismatch => "Schnorr verify failed in batch"@,
            GuestError::BatchSingleMismatch => "Schnorr verify failed in batch (single)"@,
            GuestError::BatchVerifyMismatch => "Schnorr verify failed in batch (verify)"@,
            GuestError::BatchMerkleMismatch => "Schnorr verify failed in batch (verify+merkle)"@,
            GuestError::DedupMismatch => "Schnorr verify failed in dedup batch"@,
            GuestError::EmptyBatch => "empty batch"@,
            GuestError::BatchEquationMismatch => "Batch Schnorr verification failed"@,
            GuestError::BatchEquationSingleMismatch => "Batch Schnorr verification failed (single)"@,
            GuestError::KeyIndexOutOfRange => "key index out of range"@,
            GuestError::EntryCountMismatch => "batch needs one entry for each key"@,
            GuestError::LeafMismatch => "leaf does not match unique key"@,
        }
    }

    /// The text of the refusal.
    pub fn message(&self) -> (r: &'static str)
        ensures
            r@ == self.text(),
    {
        match self {
            GuestError::PathTooLong => "Merkle path too long",
            GuestError::OldLeafMismatch => "old leaf does not match old root",
            GuestError::InvalidHex => "invalid hex",
            GuestError::WrongSignatureLength => "expected 65 bytes",
            GuestError::InvalidSignature => "invalid secp256k1 signature",
            GuestError::InvalidRecoveryId => "invalid recovery id",
            GuestError::RecoveryFailed => "secp256k1 recovery failed",
            GuestError::AddressMismatch => "EIP-191 signature does not match account address",
            GuestError::OrderSignerMismatch => "EIP-191 order signature does not match account address",
            GuestError::BatchSignerMismatch => "EIP-191 order signature mismatch in batch",
            GuestError::NewRootMismatch => "new root mismatch",
            GuestError::KeyNotRegistered => "session key not registered — Merkle proof failed",
            GuestError::SchnorrMismatch => "Schnorr signature verification failed",
            GuestError::SepticMismatch => "Schnorr verify failed: s·G + e·A != R",
            GuestError::BatchSepticMismatch => "Schnorr verify failed in batch",
            GuestError::BatchSingleMismatch => "Schnorr verify failed in batch (single)",
            GuestError::BatchVerifyMismatch => "Schnorr verify failed in batch (verify)",
            GuestError::BatchMerkleMismatch => "Schnorr verify failed in batch (verify+merkle)",
            GuestError::DedupMismatch => "Schnorr verify failed in dedup batch",
            GuestError::EmptyBatch => "empty batch",
            GuestError::BatchEquationMismatch => "Batch Schnorr verification failed",
            GuestError::BatchEquationSingleMismatch => "Batch Schnorr verification failed (single)",
            GuestError::KeyIndexOutOfRange => "key index out of range",
            GuestError::EntryCountMismatch => "batch needs one entry for each key",
            GuestError::LeafMismatch => "leaf does not match unique key",
        }
    }
}

/// The result of a handler: the refusal, or an output with the given fields.
pub open spec fn outcome(
    r: Result<ProofOutput, GuestError>,
    refusal: Option<GuestError>,
    old_root: Seq<u8>,
    new_root: Seq<u8>,
    account: Seq<u8>,
    key_index: u8,
    proof_type: Seq<char>,
) -> bool {
    match refusal {
        Some(e) => r == Err::<ProofOutput, GuestError>(e),
        None => r matches Ok(out) && {
            &&& out.old_session_key_root@ == old_root
            &&& out.new_session_key_root@ == new_root
            &&& out.account_address@ == account
            &&& out.key_index == key_index
            &&& out.proof_type@ == proof_type
        },
    }
}

/// The result of a handler of a batch, which names no account.
pub open spec fn batch_outcome(
    r: Result<ProofOutput, GuestError>,
    refusal: Option<GuestError>,
    root: Seq<u8>,
    proof_type: Seq<char>,
) -> bool {
    outcome(r, refusal, root, root, no_account(), 0, proof_type)
}

/// 32 zero bytes.
pub open spec fn no_root() -> Seq<u8> {
    Seq::new(32, |i: int| 0u8)
}

/// 20 zero bytes.
pub open spec fn no_account() -> Seq<u8> {
    Seq::new(20, |i: int| 0u8)
}

// ── Checks ────────────────────────────────────────────────────────────────

/// Why a key is not a member of the tree, if it is not.
pub open spec fn membership_refusal(
    account: Seq<u8>,
    key_index: u8,
    pubkey_x: Seq<u32>,
    pubkey_y: Seq<u32>,
    leaf_index: u64,
    siblings: Seq<[u8; 32]>,
    root: Seq<u8>,
) -> Option<GuestError> {
    let leaf = poseidon2_hasher::poseidon2_digest(
        merkle::leaf_encoding(account, key_index, pubkey_x, pubkey_y),
    );
    if siblings.len() > 64 {
        Some(GuestError::PathTooLong)
    } else if merkle::merkle_root(leaf, leaf_index as nat, siblings) != root {
        Some(GuestError::KeyNotRegistered)
    } else {
        None
    }
}

/// Checks that a key is a member of the tree.
fn check_membership(
    account: &[u8; 20],
    key_index: u8,
    pubkey_x: &[u32; 7],
    pubkey_y: &[u32; 7],
    leaf_index: u64,
    siblings: &Vec<[u8; 32]>,
    root: &[u8; 32],
) -> (r: Option<GuestError>)
    ensures
        r == membership_refusal(
            account@,
            key_index,
            pubkey_x@,
            pubkey_y@,
            leaf_index,
            siblings@,
            root@,
        ),
{
    let leaf = SessionKeyLeaf {
        account_address: *account,
        key_index,
        pubkey_x: *pubkey_x,
        pubkey_y: *pubkey_y,
    };
    if siblings.len() > 64 {
        return Some(GuestError::PathTooLong);
    }
    let leaf_hash = hash_leaf(&leaf);
    if !verify_merkle_proof(leaf_hash, leaf_index, siblings.as_slice(), *root) {
        return Some(GuestError::KeyNotRegistered);
    }
    None
}

/// The refusal for an error of recovery.
pub open spec fn recover_refusal(e: RecoverError) -> GuestError {
    match e {
        RecoverError::InvalidSignature => GuestError::InvalidSignature,
        RecoverError::InvalidRecoveryId => GuestError::InvalidRecoveryId,
        RecoverError::RecoveryFailed => GuestError::RecoveryFailed,
    }
}

fn refuse_recovery(e: RecoverError) -> (r: GuestError)
    ensures
        r == recover_refusal(e),
{
    match e {
        RecoverError::InvalidSignature => GuestError::InvalidSignature,
        RecoverError::InvalidRecoveryId => GuestError::InvalidRecoveryId,
        RecoverError::RecoveryFailed => GuestError::RecoveryFailed,
    }
}

/// Why a hexadecimal signature of a message does not come from the account, if it does not.
pub open spec fn signer_refusal(
    message: Seq<u8>,
    sig_hex: Seq<u8>,
    account: Seq<u8>,
    mismatch: GuestError,
) -> Option<GuestError> {
    if !text::is_hex(sig_hex) {
        Some(GuestError::InvalidHex)
    } else if sig_hex.len() != 130 {
        Some(GuestError::WrongSignatureLength)
    } else {
        match eth::signer(eth::eip191_digest(message), text::hex_bytes(sig_hex)) {
            Err(e) => Some(recover_refusal(e)),
            Ok(a) => if a == account {
                None
            } else {
                Some(mismatch)
            },
        }
    }
}

/// The refusal for a text that is not a signature.
fn refuse_hex(e: HexError) -> (r: GuestError)
    ensures
        e == HexError::InvalidHex ==> r == GuestError::InvalidHex,
        e == HexError::WrongLength ==> r == GuestError::WrongSignatureLength,
{
    match e {
        HexError::InvalidHex => GuestError::InvalidHex,
        HexError::WrongLength => GuestError::WrongSignatureLength,
    }
}

/// Checks a signature over the digest of a message.
fn check_digest_signer(message: &str, sig_hex: &str, account: &[u8; 20]) -> (r: Option<GuestError>)
    ensures
        r == signer_refusal(
            message.spec_bytes(),
            sig_hex.spec_bytes(),
            account@,
            GuestError::AddressMismatch,
        ),
{
    let digest = eip191_hash(message);
    let sig_bytes = match decode_hex_65(sig_hex) {
        Ok(b) => b,
        Err(e) => return Some(refuse_hex(e)),
    };
    match recover_eth_address(&digest, &sig_bytes) {
        Err(e) => Some(refuse_recovery(e)),
        Ok(a) => if same_address(&a, account) {
            None
        } else {
            Some(GuestError::AddressMismatch)
        },
    }
}

/// Checks a signature over a message.
fn check_message_signer(
    message: &str,
    sig_hex: &str,
    account: &[u8; 20],
    mismatch: GuestError,
) -> (r: Option<GuestError>)
    ensures
        r == signer_refusal(message.spec_bytes(), sig_hex.spec_bytes(), account@, mismatch),
{
    let sig_bytes = match decode_hex_65(sig_hex) {
        Ok(b) => b,
        Err(e) => return Some(refuse_hex(e)),
    };
    match recover_eth_address_kalqix(message.as_bytes(), &sig_bytes) {
        Err(e) => Some(refuse_recovery(e)),
        Ok(a) => if same_address(&a, account) {
            None
        } else {
            Some(mismatch)
        },
    }
}

/// An output for a batch without a tree.
fn batch_output(proof_type: String) -> (out: ProofOutput)
    ensures
        out.old_session_key_root@ == no_root(),
        out.new_session_key_root@ == no_root(),
        out.account_address@ == no_account(),
        out.key_index == 0,
        out.proof_type@ == proof_type@,
{
    let out = ProofOutput {
        old_session_key_root: [0; 32],
        new_session_key_root: [0; 32],
        account_address: [0; 20],
        key_index: 0,
        proof_type,
    };
    assert(out.old_session_key_root@ =~= no_root());
    assert(out.new_session_key_root@ =~= no_root());
    assert(out.account_address@ =~= no_account());
    out
}

// ── Handlers ──────────────────────────────────────────────────────────────

/// Why the account has not signed a request to register a key, if it has not.
pub open spec fn register_signer_refusal(q: RegisterKeyRequest) -> Option<GuestError> {
    signer_refusal(
        vstd::utf8::encode_utf8(
            messages::register_text(q.account_address@, q.pubkey_x@, q.pubkey_y@, q.key_index),
        ),
        vstd::utf8::encode_utf8(q.eth_signature_hex@),
        q.account_address@,
        GuestError::AddressMismatch,
    )
}

/// Checks that the account has signed a request to register a key.
pub fn check_register_signer(q: &RegisterKeyRequest) -> (r: Option<GuestError>)
    ensures
        r == register_signer_refusal(*q),
{
    let message = register_key_message(&q.account_address, &q.pubkey_x, &q.pubkey_y, q.key_index);
    check_digest_signer(message.as_str(), q.eth_signature_hex.as_str(), &q.account_address)
}

/// Why a registration is refused, if it is.
pub open spec fn register_refusal(w: RegisterKeyWitness) -> Option<GuestError> {
    let q = w.request;
    let new_leaf = poseidon2_hasher::poseidon2_digest(
        merkle::leaf_encoding(q.account_address@, q.key_index, q.pubkey_x@, q.pubkey_y@),
    );
    if w.merkle_siblings.len() > 64 {
        Some(GuestError::PathTooLong)
    } else if merkle::merkle_root(w.old_leaf_hash@, w.leaf_index as nat, w.merkle_siblings@)
        != w.old_session_key_root@ {
        Some(GuestError::OldLeafMismatch)
    } else if register_signer_refusal(q) is Some {
        register_signer_refusal(q)
    } else if merkle::merkle_root(new_leaf, w.leaf_index as nat, w.merkle_siblings@)
        != w.new_session_key_root@ {
        Some(GuestError::NewRootMismatch)
    } else {
        None
    }
}

/// Registers a session key: the old leaf lies under the old root, the account has signed the
/// request, and the new leaf in its place gives the new root.
pub fn handle_register_key(w: RegisterKeyWitness) -> (r: Result<ProofOutput, GuestError>)
    ensures
        outcome(
            r,
            register_refusal(w),
            w.old_session_key_root@,
            w.new_session_key_root@,
            w.request.account_address@,
            w.request.key_index,
            "REGISTER_KEY"@,
        ),
{
    if w.merkle_siblings.len() > 64 {
        return Err(GuestError::PathTooLong);
    }
    if !verify_merkle_proof(
        w.old_leaf_hash,
        w.leaf_index,
        w.merkle_siblings.as_slice(),
        w.old_session_key_root,
    ) {
        return Err(GuestError::OldLeafMismatch);
    }
    match check_register_signer(&w.request) {
        Some(e) => return Err(e),
        None => {},
    }
    let new_leaf = SessionKeyLeaf {
        account_address: w.request.account_address,
        key_index: w.request.key_index,
        pubkey_x: w.request.pubkey_x,
        pubkey_y: w.request.pubkey_y,
    };
    let new_leaf_hash = hash_leaf(&new_leaf);
    let computed_new_root = compute_new_root(
        new_leaf_hash,
        w.leaf_index,
        w.merkle_siblings.as_slice(),
    );
    if !same_digest(&computed_new_root, &w.new_session_key_root) {
        return Err(GuestError::NewRootMismatch);
    }
    Ok(
        ProofOutput {
            old_session_key_root: w.old_session_key_root,
            new_session_key_root: w.new_session_key_root,
            account_address: w.request.account_address,
            key_index: w.request.key_index,
            proof_type: "REGISTER_KEY".to_owned(),
        },
    )
}

/// The challenge that the signature of an order by a session key must have: that of the
/// commitment, the key and the hash of the text of the order.
pub open spec fn order_challenge(order: SignedOrder, key: SessionKey) -> int {
    schnorr::challenge(
        order.signature_r_x@,
        key.pubkey_x@,
        session::order_hash(
            order.market@,
            order.side@,
            order.price,
            order.quantity,
            order.account_address@,
        ),
    )
}

/// An order is signed by a session key: its challenge is that of its text, and the equation of
/// its signature holds.
pub open spec fn order_signed(order: SignedOrder, key: SessionKey) -> bool {
    &&& scalar::value(order.challenge_e@) == order_challenge(order, key)
    &&& schnorr::verifies(
        (SepticPoint { x: Fp7(key.pubkey_x), y: Fp7(key.pubkey_y), is_infinity: false }),
        order.signature_r_x@,
        order.signature_r_y@,
        order.signature_s@,
        order.challenge_e@,
    )
}

/// Two orders differ in nothing but their market, side, price and quantity.
pub open spec fn same_but_text(order: SignedOrder, other: SignedOrder) -> bool {
    &&& other.account_address == order.account_address
    &&& other.key_index == order.key_index
    &&& other.signature_r_x == order.signature_r_x
    &&& other.signature_r_y == order.signature_r_y
    &&& other.signature_s == order.signature_s
    &&& other.challenge_e == order.challenge_e
}

/// Whether an order is signed by a session key.
pub fn check_order_signed(order: &SignedOrder, key: &SessionKey) -> (r: bool)
    ensures
        r == order_signed(*order, *key),
{
    let pubkey = SepticPoint::new(Fp7(key.pubkey_x), Fp7(key.pubkey_y));
    let msg_hash = hash_order(
        order.market.as_str(),
        order.side.as_str(),
        order.price,
        order.quantity,
        &order.account_address,
    );
    schnorr_verify(
        &pubkey,
        &msg_hash,
        &order.signature_r_x,
        &order.signature_r_y,
        &order.signature_s,
        &order.challenge_e,
    )
}

/// Why an order is refused, if it is.
pub open spec fn order_refusal(w: OrderWitness) -> Option<GuestError> {
    let member = membership_refusal(
        w.order.account_address@,
        w.order.key_index,
        w.session_key.pubkey_x@,
        w.session_key.pubkey_y@,
        w.leaf_index,
        w.merkle_siblings@,
        w.session_key_root@,
    );
    if member is Some {
        member
    } else if !order_signed(w.order, w.session_key) {
        Some(GuestError::SchnorrMismatch)
    } else {
        None
    }
}

/// An accepted order that is changed in its market, side, price or quantity alone is refused,
/// unless its text has the same challenge.
pub proof fn lemma_changed_order_refused(w: OrderWitness, changed: OrderWitness)
    requires
        order_refusal(w) is None,
        same_but_text(w.order, changed.order),
        changed.session_key == w.session_key,
        changed.session_key_root == w.session_key_root,
        changed.merkle_siblings == w.merkle_siblings,
        changed.leaf_index == w.leaf_index,
        order_challenge(changed.order, w.session_key) != order_challenge(w.order, w.session_key),
    ensures
        order_refusal(changed) == Some(GuestError::SchnorrMismatch),
{
}

/// Verifies an order: its session key is a member of the tree, and has signed its text.
pub fn handle_verify_order(w: OrderWitness) -> (r: Result<ProofOutput, GuestError>)
    ensures
        outcome(
            r,
            order_refusal(w),
            w.session_key_root@,
            w.session_key_root@,
            w.order.account_address@,
            w.order.key_index,
            "VERIFY_ORDER"@,
        ),
{
    match check_membership(
        &w.order.account_address,
        w.order.key_index,
        &w.session_key.pubkey_x,
        &w.session_key.pubkey_y,
        w.leaf_index,
        &w.merkle_siblings,
        &w.session_key_root,
    ) {
        Some(e) => return Err(e),
        None => {},
    }
    if !check_order_signed(&w.order, &w.session_key) {
        return Err(GuestError::SchnorrMismatch);
    }
    Ok(
        ProofOutput {
            old_session_key_root: w.session_key_root,
            new_session_key_root: w.session_key_root,
            account_address: w.order.account_address,
            key_index: w.order.key_index,
            proof_type: "VERIFY_ORDER".to_owned(),
        },
    )
}

/// Why an order signed by its account is refused, if it is.
pub open spec fn eth_order_refusal(order: EthSignedOrder, mismatch: GuestError) -> Option<
    GuestError,
> {
    signer_refusal(
        vstd::utf8::encode_utf8(
            messages::order_text(
                order.market@,
                order.side@,
                order.price,
                order.quantity,
                order.account_address@,
            ),
        ),
        vstd::utf8::encode_utf8(order.eth_signature_hex@),
        order.account_address@,
        mismatch,
    )
}

/// Checks an order signed by its account.
fn check_eth_order(order: &EthSignedOrder, mismatch: GuestError) -> (r: Option<GuestError>)
    ensures
        r == eth_order_refusal(*order, mismatch),
{
    let message = eth_order_message(order);
    check_message_signer(
        message.as_str(),
        order.eth_signature_hex.as_str(),
        &order.account_address,
        mismatch,
    )
}

/// Verifies an order that its account has signed itself.
pub fn handle_verify_order_eth(w: EthOrderWitness) -> (r: Result<ProofOutput, GuestError>)
    ensures
        outcome(
            r,
            eth_order_refusal(w.order, GuestError::OrderSignerMismatch),
            no_root(),
            no_root(),
            w.order.account_address@,
            w.order.key_index,
            "VERIFY_ORDER_ETH"@,
        ),
{
    match check_eth_order(&w.order, GuestError::OrderSignerMismatch) {
        Some(e) => return Err(e),
        None => {},
    }
    let out = ProofOutput {
        old_session_key_root: [0; 32],
        new_session_key_root: [0; 32],
        account_address: w.order.account_address,
        key_index: w.order.key_index,
        proof_type: "VERIFY_ORDER_ETH".to_owned(),
    };
    assert(out.old_session_key_root@ =~= no_root());
    assert(out.new_session_key_root@ =~= no_root());
    Ok(out)
}

/// Why a Schnorr order with a Merkle path is refused, if it is.
pub open spec fn merkle_order_refusal(
    bench: SepticBenchWitness,
    leaf_index: u64,
    siblings: Seq<[u8; 32]>,
    root: Seq<u8>,
    mismatch: GuestError,
) -> Option<GuestError> {
    let member = membership_refusal(
        bench.order.account_address@,
        bench.order.key_index,
        bench.order.pubkey_x.0@,
        bench.order.pubkey_y.0@,
        leaf_index,
        siblings,
        root,
    );
    if member is Some {
        member
    } else if !batch::bench_verifies(bench) {
        Some(mismatch)
    } else {
        None
    }
}

/// Checks a Schnorr order with a Merkle path.
fn check_merkle_order(
    bench: &SepticBenchWitness,
    leaf_index: u64,
    siblings: &Vec<[u8; 32]>,
    root: &[u8; 32],
    mismatch: GuestError,
) -> (r: Option<GuestError>)
    ensures
        r == merkle_order_refusal(*bench, leaf_index, siblings@, root@, mismatch),
{
    match check_membership(
        &bench.order.account_address,
        bench.order.key_index,
        &bench.order.pubkey_x.0,
        &bench.order.pubkey_y.0,
        leaf_index,
        siblings,
        root,
    ) {
        Some(e) => return Some(e),
        None => {},
    }
    if !check_bench(bench) {
        return Some(mismatch);
    }
    None
}

/// Verifies a Schnorr order that carries its public key.
pub fn handle_verify_order_septic(w: VerifyOrderSepticWitness) -> (r: Result<
    ProofOutput,
    GuestError,
>)
    ensures
        outcome(
            r,
            merkle_order_refusal(
                w.bench,
                w.leaf_index,
                w.merkle_siblings@,
                w.session_key_root@,
                GuestError::SepticMismatch,
            ),
            w.session_key_root@,
            w.session_key_root@,
            w.bench.order.account_address@,
            w.bench.order.key_index,
            "VERIFY_ORDER_SEPTIC"@,
        ),
{
    match check_merkle_order(
        &w.bench,
        w.leaf_index,
        &w.merkle_siblings,
        &w.session_key_root,
        GuestError::SepticMismatch,
    ) {
        Some(e) => return Err(e),
        None => {},
    }
    Ok(
        ProofOutput {
            old_session_key_root: w.session_key_root,
            new_session_key_root: w.session_key_root,
            account_address: w.bench.order.account_address,
            key_index: w.bench.order.key_index,
            proof_type: "VERIFY_ORDER_SEPTIC".to_owned(),
        },
    )
}

/// The refusal of a batch whose signatures are checked one by one.
pub open spec fn batch_refusal(orders: Seq<SepticBenchWitness>, mismatch: GuestError) -> Option<
    GuestError,
> {
    if batch::all_verify(orders) {
        None
    } else {
        Some(mismatch)
    }
}

/// Verifies Schnorr orders one by one.
pub fn handle_batch_septic(w: BatchSepticWitness) -> (r: Result<ProofOutput, GuestError>)
    ensures
        batch_outcome(
            r,
            batch_refusal(w.orders@, GuestError::BatchSepticMismatch),
            no_root(),
            "BATCH_SEPTIC_"@ + text::decimal(w.orders@.len()),
        ),
{
    if !check_all(&w.orders) {
        return Err(GuestError::BatchSepticMismatch);
    }
    Ok(batch_output(numbered("BATCH_SEPTIC_", w.orders.len())))
}

/// Verifies Schnorr orders one by one, each multiple in one call.
pub fn handle_batch_septic_single(w: BatchSepticSingleWitness) -> (r: Result<
    ProofOutput,
    GuestError,
>)
    ensures
        batch_outcome(
            r,
            batch_refusal(w.orders@, GuestError::BatchSingleMismatch),
            no_root(),
            "BATCH_SEPTIC_SINGLE_"@ + text::decimal(w.orders@.len()),
        ),
{
    if !check_all(&w.orders) {
        return Err(GuestError::BatchSingleMismatch);
    }
    Ok(batch_output(numbered("BATCH_SEPTIC_SINGLE_", w.orders.len())))
}

/// Verifies Schnorr orders one by one, each signature in one call.
pub fn handle_batch_septic_verify(w: BatchSepticVerifyWitness) -> (r: Result<
    ProofOutput,
    GuestError,
>)
    ensures
        batch_outcome(
            r,
            batch_refusal(w.orders@, GuestError::BatchVerifyMismatch),
            no_root(),
            "BATCH_SEPTIC_VERIFY_"@ + text::decimal(w.orders@.len()),
        ),
{
    if !check_all(&w.orders) {
        return Err(GuestError::BatchVerifyMismatch);
    }
    Ok(batch_output(numbered("BATCH_SEPTIC_VERIFY_", w.orders.len())))
}

/// The refusal of the first order of a batch that is refused.
pub open spec fn merkle_batch_refusal(orders: Seq<SepticMerkleOrder>, root: Seq<u8>) -> Option<
    GuestError,
>
    decreases orders.len(),
{
    if orders.len() == 0 {
        None
    } else {
        let first = merkle_order_refusal(
            orders[0].bench,
            orders[0].leaf_index,
            orders[0].merkle_siblings@,
            root,
            GuestError::BatchMerkleMismatch,
        );
        if first is Some {
            first
        } else {
            merkle_batch_refusal(orders.drop_first(), root)
        }
    }
}

/// Verifies Schnorr orders whose session keys lie in one tree.
pub fn handle_batch_septic_verify_merkle(w: BatchSepticVerifyMerkleWitness) -> (r: Result<
    ProofOutput,
    GuestError,
>)
    ensures
        batch_outcome(
            r,
            merkle_batch_refusal(w.orders@, w.session_key_root@),
            w.session_key_root@,
            "BATCH_SEPTIC_VERIFY_MERKLE_"@ + text::decimal(w.orders@.len()),
        ),
{
    assert(w.orders@.skip(0) =~= w.orders@);
    for i in 0..w.orders.len()
        invariant
            merkle_batch_refusal(w.orders@.skip(i as int), w.session_key_root@)
                == merkle_batch_refusal(w.orders@, w.session_key_root@),
    {
        assert(w.orders@.skip(i as int).drop_first() =~= w.orders@.skip(i + 1));
        let entry = &w.orders[i];
        match check_merkle_order(
            &entry.bench,
            entry.leaf_index,
            &entry.merkle_siblings,
            &w.session_key_root,
            GuestError::BatchMerkleMismatch,
        ) {
            Some(e) => return Err(e),
            None => {},
        }
    }
    assert(w.orders@.skip(w.orders@.len() as int) =~= Seq::<SepticMerkleOrder>::empty());
    let mut out = batch_output(numbered("BATCH_SEPTIC_VERIFY_MERKLE_", w.orders.len()));
    out.old_session_key_root = w.session_key_root;
    out.new_session_key_root = w.session_key_root;
    Ok(out)
}

/// The refusal of the first key that is not a member of the tree.
pub open spec fn dedup_keys_refusal(keys: Seq<DedupKey>, root: Seq<u8>) -> Option<GuestError>
    decreases keys.len(),
{
    if keys.len() == 0 {
        None
    } else {
        let first = membership_refusal(
            keys[0].account_address@,
            keys[0].key_index,
            keys[0].pubkey_x@,
            keys[0].pubkey_y@,
            keys[0].leaf_index,
            keys[0].merkle_siblings@,
            root,
        );
        if first is Some {
            first
        } else {
            dedup_keys_refusal(keys.drop_first(), root)
        }
    }
}

/// Why an order that refers to its key by position is refused, if it is.
pub open spec fn dedup_order_refusal(keys: Seq<DedupKey>, order: DedupOrder) -> Option<GuestError> {
    if order.key_idx >= keys.len() {
        Some(GuestError::KeyIndexOutOfRange)
    } else {
        let key = keys[order.key_idx as int];
        let pubkey = SepticPoint {
            x: Fp7(key.pubkey_x),
            y: Fp7(key.pubkey_y),
            is_infinity: false,
        };
        if schnorr::verifies(
            pubkey,
            order.signature_r_x@,
            order.signature_r_y@,
            order.signature_s@,
            order.challenge_e@,
        ) {
            None
        } else {
            Some(GuestError::DedupMismatch)
        }
    }
}

/// The refusal of the first order that is refused.
pub open spec fn dedup_orders_refusal(keys: Seq<DedupKey>, orders: Seq<DedupOrder>) -> Option<
    GuestError,
>
    decreases orders.len(),
{
    if orders.len() == 0 {
        None
    } else {
        let first = dedup_order_refusal(keys, orders[0]);
        if first is Some {
            first
        } else {
            dedup_orders_refusal(keys, orders.drop_first())
        }
    }
}

/// Why a batch that shares its keys is refused, if it is: the keys are checked before the orders.
pub open spec fn dedup_refusal(w: BatchSepticDedupWitness) -> Option<GuestError> {
    let keys = dedup_keys_refusal(w.unique_keys@, w.session_key_root@);
    if keys is Some {
        keys
    } else {
        dedup_orders_refusal(w.unique_keys@, w.orders@)
    }
}

/// Checks an order that refers to its key by position.
fn check_dedup_order(keys: &Vec<DedupKey>, order: &DedupOrder) -> (r: Option<GuestError>)
    ensures
        r == dedup_order_refusal(keys@, *order),
{
    if order.key_idx as usize >= keys.len() {
        return Some(GuestError::KeyIndexOutOfRange);
    }
    let key = &keys[order.key_idx as usize];
    let pubkey = SepticPoint::new(Fp7(key.pubkey_x), Fp7(key.pubkey_y));
    if schnorr_equation(
        &pubkey,
        &order.signature_r_x,
        &order.signature_r_y,
        &order.signature_s,
        &order.challenge_e,
    ) {
        None
    } else {
        Some(GuestError::DedupMismatch)
    }
}

/// Verifies a batch in which each session key is proved once.
pub fn handle_batch_septic_dedup(w: BatchSepticDedupWitness) -> (r: Result<ProofOutput, GuestError>)
    ensures
        batch_outcome(
            r,
            dedup_refusal(w),
            w.session_key_root@,
            "BATCH_SEPTIC_DEDUP_"@ + text::decimal(w.unique_keys@.len()) + "u_"@ + text::decimal(
                w.orders@.len(),
            ) + "o"@,
        ),
{
    let ghost root = w.session_key_root@;
    assert(w.unique_keys@.skip(0) =~= w.unique_keys@);
    for i in 0..w.unique_keys.len()
        invariant
            root == w.session_key_root@,
            dedup_keys_refusal(w.unique_keys@.skip(i as int), root) == dedup_keys_refusal(
                w.unique_keys@,
                root,
            ),
    {
        assert(w.unique_keys@.skip(i as int).drop_first() =~= w.unique_keys@.skip(i + 1));
        let key = &w.unique_keys[i];
        match check_membership(
            &key.account_address,
            key.key_index,
            &key.pubkey_x,
            &key.pubkey_y,
            key.leaf_index,
            &key.merkle_siblings,
            &w.session_key_root,
        ) {
            Some(e) => return Err(e),
            None => {},
        }
    }
    assert(w.unique_keys@.skip(w.unique_keys@.len() as int) =~= Seq::<DedupKey>::empty());
    assert(w.orders@.skip(0) =~= w.orders@);
    for i in 0..w.orders.len()
        invariant
            dedup_keys_refusal(w.unique_keys@, w.session_key_root@) is None,
            dedup_orders_refusal(w.unique_keys@, w.orders@.skip(i as int)) == dedup_orders_refusal(
                w.unique_keys@,
                w.orders@,
            ),
    {
        assert(w.orders@.skip(i as int).drop_first() =~= w.orders@.skip(i + 1));
        match check_dedup_order(&w.unique_keys, &w.orders[i]) {
            Some(e) => return Err(e),
            None => {},
        }
    }
    assert(w.orders@.skip(w.orders@.len() as int) =~= Seq::<DedupOrder>::empty());
    let mut proof_type = numbered("BATCH_SEPTIC_DEDUP_", w.unique_keys.len());
    proof_type.append("u_");
    text::append_decimal(&mut proof_type, w.orders.len() as u64);
    proof_type.append("o");
    let mut out = batch_output(proof_type);
    out.old_session_key_root = w.session_key_root;
    out.new_session_key_root = w.session_key_root;
    Ok(out)
}

/// The refusal of the first order that is refused.
pub open spec fn eth_batch_refusal(orders: Seq<EthOrderWitness>) -> Option<GuestError>
    decreases orders.len(),
{
    if orders.len() == 0 {
        None
    } else {
        let first = eth_order_refusal(orders[0].order, GuestError::BatchSignerMismatch);
        if first is Some {
            first
        } else {
            eth_batch_refusal(orders.drop_first())
        }
    }
}

/// Verifies orders that their accounts have signed themselves.
pub fn handle_batch_eth(w: BatchEthWitness) -> (r: Result<ProofOutput, GuestError>)
    ensures
        batch_outcome(
            r,
            eth_batch_refusal(w.orders@),
            no_root(),
            "BATCH_ETH_"@ + text::decimal(w.orders@.len()),
        ),
{
    assert(w.orders@.skip(0) =~= w.orders@);
    for i in 0..w.orders.len()
        invariant
            eth_batch_refusal(w.orders@.skip(i as int)) == eth_batch_refusal(w.orders@),
    {
        assert(w.orders@.skip(i as int).drop_first() =~= w.orders@.skip(i + 1));
        match check_eth_order(&w.orders[i].order, GuestError::BatchSignerMismatch) {
            Some(e) => return Err(e),
            None => {},
        }
    }
    assert(w.orders@.skip(w.orders@.len() as int) =~= Seq::<EthOrderWitness>::empty());
    Ok(batch_output(numbered("BATCH_ETH_", w.orders.len())))
}

/// Why a batch that is checked by one equation is refused, if it is.
pub open spec fn combined_refusal(orders: Seq<SepticBenchWitness>, mismatch: GuestError) -> Option<
    GuestError,
> {
    if orders.len() == 0 {
        Some(GuestError::EmptyBatch)
    } else if !batch::batch_equation(orders) {
        Some(mismatch)
    } else {
        None
    }
}

/// Verifies Schnorr orders by one combined equation.
pub fn handle_batch_septic_opt(w: BatchSepticOptWitness) -> (r: Result<ProofOutput, GuestError>)
    ensures
        batch_outcome(
            r,
            combined_refusal(w.orders@, GuestError::BatchEquationMismatch),
            no_root(),
            "BATCH_SEPTIC_OPT_"@ + text::decimal(w.orders@.len()),
        ),
{
    if w.orders.len() == 0 {
        return Err(GuestError::EmptyBatch);
    }
    if !check_batch_equation(&w.orders) {
        return Err(GuestError::BatchEquationMismatch);
    }
    Ok(batch_output(numbered("BATCH_SEPTIC_OPT_", w.orders.len())))
}

/// Verifies Schnorr orders by one combined equation, each multiple in one call.
pub fn handle_batch_septic_opt_single(w: BatchSepticOptWitness) -> (r: Result<
    ProofOutput,
    GuestError,
>)
    ensures
        batch_outcome(
            r,
            combined_refusal(w.orders@, GuestError::BatchEquationSingleMismatch),
            no_root(),
            "BATCH_SEPTIC_OPT_SINGLE_"@ + text::decimal(w.orders@.len()),
        ),
{
    if w.orders.len() == 0 {
        return Err(GuestError::EmptyBatch);
    }
    if !check_batch_equation(&w.orders) {
        return Err(GuestError::BatchEquationSingleMismatch);
    }
    Ok(batch_output(numbered("BATCH_SEPTIC_OPT_SINGLE_", w.orders.len())))
}

/// The outcome of the program on an input.
pub open spec fn program_outcome(input: ProgramInput, r: Result<ProofOutput, GuestError>) -> bool {
    match input {
        ProgramInput::RegisterKey(w) => outcome(
            r,
            register_refusal(w),
            w.old_session_key_root@,
            w.new_session_key_root@,
            w.request.account_address@,
            w.request.key_index,
            "REGISTER_KEY"@,
        ),
        ProgramInput::VerifyOrder(w) => outcome(
            r,
            order_refusal(w),
            w.session_key_root@,
            w.session_key_root@,
            w.order.account_address@,
            w.order.key_index,
            "VERIFY_ORDER"@,
        ),
        ProgramInput::VerifyOrderEth(w) => outcome(
            r,
            eth_order_refusal(w.order, GuestError::OrderSignerMismatch),
            no_root(),
            no_root(),
            w.order.account_address@,
            w.order.key_index,
            "VERIFY_ORDER_ETH"@,
        ),
        ProgramInput::VerifyOrderSeptic(w) => outcome(
            r,
            merkle_order_refusal(
                w.bench,
                w.leaf_index,
                w.merkle_siblings@,
                w.session_key_root@,
                GuestError::SepticMismatch,
            ),
            w.session_key_root@,
            w.session_key_root@,
            w.bench.order.account_address@,
            w.bench.order.key_index,
            "VERIFY_ORDER_SEPTIC"@,
        ),
        ProgramInput::BatchSeptic(w) => batch_outcome(
            r,
            batch_refusal(w.orders@, GuestError::BatchSepticMismatch),
            no_root(),
            "BATCH_SEPTIC_"@ + text::decimal(w.orders@.len()),
        ),
        ProgramInput::BatchSepticOpt(w) => batch_outcome(
            r,
            combined_refusal(w.orders@, GuestError::BatchEquationMismatch),
            no_root(),
            "BATCH_SEPTIC_OPT_"@ + text::decimal(w.orders@.len()),
        ),
        ProgramInput::BatchSepticSingle(w) => batch_outcome(
            r,
            batch_refusal(w.orders@, GuestError::BatchSingleMismatch),
            no_root(),
            "BATCH_SEPTIC_SINGLE_"@ + text::decimal(w.orders@.len()),
        ),
        ProgramInput::BatchSepticOptSingle(w) => batch_outcome(
            r,
            combined_refusal(w.orders@, GuestError::BatchEquationSingleMismatch),
            no_root(),
            "BATCH_SEPTIC_OPT_SINGLE_"@ + text::decimal(w.orders@.len()),
        ),
        ProgramInput::BatchSepticVerify(w) => batch_outcome(
            r,
            batch_refusal(w.orders@, GuestError::BatchVerifyMismatch),
            no_root(),
            "BATCH_SEPTIC_VERIFY_"@ + text::decimal(w.orders@.len()),
        ),
        ProgramInput::BatchSepticVerifyMerkle(w) => batch_outcome(
            r,
            merkle_batch_refusal(w.orders@, w.session_key_root@),
            w.session_key_root@,
            "BATCH_SEPTIC_VERIFY_MERKLE_"@ + text::decimal(w.orders@.len()),
        ),
        ProgramInput::BatchSepticDedup(w) => batch_outcome(
            r,
            dedup_refusal(w),
            w.session_key_root@,
            "BATCH_SEPTIC_DEDUP_"@ + text::decimal(w.unique_keys@.len()) + "u_"@ + text::decimal(
                w.orders@.len(),
            ) + "o"@,
        ),
        ProgramInput::BatchEth(w) => batch_outcome(
            r,
            eth_batch_refusal(w.orders@),
            no_root(),
            "BATCH_ETH_"@ + text::decimal(w.orders@.len()),
        ),
    }
}

/// Runs the program on an input.
pub fn run_program(input: ProgramInput) -> (r: Result<ProofOutput, GuestError>)
    ensures
        program_outcome(input, r),
{
    match input {
        ProgramInput::RegisterKey(w) => handle_register_key(w),
        ProgramInput::VerifyOrder(w) => handle_verify_order(w),
        ProgramInput::VerifyOrderEth(w) => handle_verify_order_eth(w),
        ProgramInput::VerifyOrderSeptic(w) => handle_verify_order_septic(w),
        ProgramInput::BatchSeptic(w) => handle_batch_septic(w),
        ProgramInput::BatchSepticOpt(w) => handle_batch_septic_opt(w),
        ProgramInput::BatchSepticSingle(w) => handle_batch_septic_single(w),
        ProgramInput::BatchSepticOptSingle(w) => handle_batch_septic_opt_single(w),
        ProgramInput::BatchSepticVerify(w) => handle_batch_septic_verify(w),
        ProgramInput::BatchSepticVerifyMerkle(w) => handle_batch_septic_verify_merkle(w),
        ProgramInput::BatchSepticDedup(w) => handle_batch_septic_dedup(w),
        ProgramInput::BatchEth(w) => handle_batch_eth(w),
    }
}

} // verus!
