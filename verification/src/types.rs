//! Session keys, orders, witnesses and the output of a proof.
use crate::septic::schnorr::SepticBenchWitness;
use vstd::prelude::*;

verus! {

/// A registered session key.
#[derive(Clone, Debug)]
pub struct SessionKey {
    pub pubkey_x: [u32; 7],
    pub pubkey_y: [u32; 7],
    pub key_index: u8,
}

/// The content of a leaf of the session-key tree.
#[derive(Clone, Debug)]
pub struct SessionKeyLeaf {
    pub account_address: [u8; 20],
    pub key_index: u8,
    pub pubkey_x: [u32; 7],
    pub pubkey_y: [u32; 7],
}

/// A request to register a session key, signed by the account.
#[derive(Clone, Debug)]
pub struct RegisterKeyRequest {
    pub account_address: [u8; 20],
    pub key_index: u8,
    pub pubkey_x: [u32; 7],
    pub pubkey_y: [u32; 7],
    pub eth_signature_hex: String,
}

/// A registration with the Merkle path of its leaf.
#[derive(Clone, Debug)]
pub struct RegisterKeyWitness {
    pub request: RegisterKeyRequest,
    pub old_leaf_hash: [u8; 32],
    pub old_session_key_root: [u8; 32],
    pub new_session_key_root: [u8; 32],
    pub merkle_siblings: Vec<[u8; 32]>,
    pub leaf_index: u64,
}

/// An order signed with a session key.
#[derive(Clone, Debug)]
pub struct SignedOrder {
    pub account_address: [u8; 20],
    pub key_index: u8,
    pub market: String,
    pub side: String,
    pub price: u64,
    pub quantity: u64,
    pub signature_r_x: [u32; 7],
    pub signature_r_y: [u32; 7],
    pub signature_s: [u32; 8],
    pub challenge_e: [u32; 8],
}

/// A signed order with the Merkle path of its session key.
#[derive(Clone, Debug)]
pub struct OrderWitness {
    pub order: SignedOrder,
    pub session_key: SessionKey,
    pub session_key_root: [u8; 32],
    pub merkle_siblings: Vec<[u8; 32]>,
    pub leaf_index: u64,
}

/// An order signed by the account itself.
#[derive(Clone, Debug)]
pub struct EthSignedOrder {
    pub account_address: [u8; 20],
    pub key_index: u8,
    pub market: String,
    pub side: String,
    pub price: u64,
    pub quantity: u64,
    pub eth_signature_hex: String,
}

/// An order signed by the account itself, as a witness.
#[derive(Clone, Debug)]
pub struct EthOrderWitness {
    pub order: EthSignedOrder,
}

/// A single Schnorr order with the Merkle path of its session key.
#[derive(Clone, Debug)]
pub struct VerifyOrderSepticWitness {
    pub bench: SepticBenchWitness,
    pub session_key_root: [u8; 32],
    pub merkle_siblings: Vec<[u8; 32]>,
    pub leaf_index: u64,
}

/// Schnorr orders to be checked one by one.
#[derive(Clone, Debug)]
pub struct BatchSepticWitness {
    pub orders: Vec<SepticBenchWitness>,
}

/// Schnorr orders to be checked by one combined equation.
#[derive(Clone, Debug)]
pub struct BatchSepticOptWitness {
    pub orders: Vec<SepticBenchWitness>,
}

/// Schnorr orders to be checked one by one, with one call for each multiple.
#[derive(Clone, Debug)]
pub struct BatchSepticSingleWitness {
    pub orders: Vec<SepticBenchWitness>,
}

/// Schnorr orders to be checked one by one, with one call for each signature.
#[derive(Clone, Debug)]
pub struct BatchSepticVerifyWitness {
    pub orders: Vec<SepticBenchWitness>,
}

/// One order of a batch with the Merkle path of its session key.
#[derive(Clone, Debug)]
pub struct SepticMerkleOrder {
    pub bench: SepticBenchWitness,
    pub merkle_siblings: Vec<[u8; 32]>,
    pub leaf_index: u64,
}

/// Schnorr orders whose session keys lie in one tree.
#[derive(Clone, Debug)]
pub struct BatchSepticVerifyMerkleWitness {
    pub orders: Vec<SepticMerkleOrder>,
    pub session_key_root: [u8; 32],
}

/// A session key that several orders of a batch refer to, with its Merkle path.
#[derive(Clone, Debug)]
pub struct DedupKey {
    pub account_address: [u8; 20],
    pub key_index: u8,
    pub pubkey_x: [u32; 7],
    pub pubkey_y: [u32; 7],
    pub merkle_siblings: Vec<[u8; 32]>,
    pub leaf_index: u64,
}

/// An order that refers to its session key by position.
#[derive(Clone, Debug)]
pub struct DedupOrder {
    pub key_idx: u32,
    pub market: String,
    pub side: String,
    pub price: u64,
    pub quantity: u64,
    pub signature_r_x: [u32; 7],
    pub signature_r_y: [u32; 7],
    pub signature_s: [u32; 8],
    pub challenge_e: [u32; 8],
}

/// A batch in which each session key is proved once.
#[derive(Clone, Debug)]
pub struct BatchSepticDedupWitness {
    pub unique_keys: Vec<DedupKey>,
    pub orders: Vec<DedupOrder>,
    pub session_key_root: [u8; 32],
}

/// Orders signed by the accounts themselves.
#[derive(Clone, Debug)]
pub struct BatchEthWitness {
    pub orders: Vec<EthOrderWitness>,
}

/// What a proof commits to.
#[derive(Clone, Debug)]
pub struct ProofOutput {
    pub old_session_key_root: [u8; 32],
    pub new_session_key_root: [u8; 32],
    pub account_address: [u8; 20],
    pub key_index: u8,
    pub proof_type: String,
}

/// The input of the program, one variant for each kind of proof.
#[derive(Clone, Debug)]
pub enum ProgramInput {
    RegisterKey(RegisterKeyWitness),
    VerifyOrder(OrderWitness),
    VerifyOrderEth(EthOrderWitness),
    VerifyOrderSeptic(VerifyOrderSepticWitness),
    BatchSeptic(BatchSepticWitness),
    BatchSepticOpt(BatchSepticOptWitness),
    BatchSepticSingle(BatchSepticSingleWitness),
    BatchSepticOptSingle(BatchSepticOptWitness),
    BatchSepticVerify(BatchSepticVerifyWitness),
    BatchSepticVerifyMerkle(BatchSepticVerifyMerkleWitness),
    BatchSepticDedup(BatchSepticDedupWitness),
    BatchEth(BatchEthWitness),
}

} // verus!
