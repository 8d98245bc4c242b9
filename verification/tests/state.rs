use jmt::proof::SparseMerkleProof;
use kalqix_signature::merkle::{encode_session_key_leaf, session_key_hash};
use kalqix_signature::poseidon2_hasher::Poseidon2Hasher;
use kalqix_signature::state::{key_proof, old_leaf, AppState, EMPTY_ROOT};
use kalqix_signature::types::{RegisterKeyRequest, SessionKey, SessionKeyLeaf};
use kalqix_signature::witness::register_witness;

fn decode_proof(bytes: &[u8]) -> SparseMerkleProof<Poseidon2Hasher> {
    borsh::from_slice(bytes).expect("proof")
}

type Leaf = ([u8; 20], u8, [u32; 7], [u32; 7]);
type RoundTrip = (
    u32,
    ([u8; 20], u8, [u32; 7], [u32; 7], String),
    [u8; 32],
    [u8; 32],
    SparseMerkleProof<Poseidon2Hasher>,
    Option<Leaf>,
);

fn fresh_key(idx: u8) -> SessionKey {
    SessionKey {
        pubkey_x: [idx as u32 + 1; 7],
        pubkey_y: [idx as u32 + 2; 7],
        key_index: idx,
    }
}

#[test]
fn empty_tree_root_is_placeholder() {
    let state = AppState::new();
    assert_eq!(state.current_root, EMPTY_ROOT);
    assert_eq!(state.version, 0);
}

#[test]
fn register_first_key_changes_root_and_verifies() {
    let mut state = AppState::new();
    let address = [0xAB; 20];
    let key = fresh_key(0);

    let result = state.register_key(address, key.clone()).expect("register");

    assert_eq!(result.old_root, EMPTY_ROOT, "old root should be EMPTY_ROOT");
    assert!(result.old_leaf.is_none(), "fresh slot has no old leaf");
    assert_ne!(result.new_root, EMPTY_ROOT, "new root must differ");
    assert_eq!(state.current_root, result.new_root);
    assert_eq!(state.version, 1);

    // The empty proof verifies non-existence against EMPTY_ROOT.
    let key_hash = jmt::KeyHash(session_key_hash(&address, 0));
    decode_proof(&result.old_proof)
        .verify_nonexistence(jmt::RootHash(EMPTY_ROOT), key_hash)
        .expect("empty proof should verify non-existence against EMPTY_ROOT");

    // The current key proof verifies inclusion against the new root.
    let proof = state.get_key_proof(address, 0).expect("registered key");
    let leaf = SessionKeyLeaf {
        account_address: address,
        key_index: 0,
        pubkey_x: key.pubkey_x,
        pubkey_y: key.pubkey_y,
    };
    let leaf_value = encode_session_key_leaf(&leaf);
    decode_proof(&proof.proof)
        .verify_existence(jmt::RootHash(proof.root), key_hash, leaf_value)
        .expect("inclusion proof should verify");
}

#[test]
fn rotate_key_returns_old_leaf() {
    let mut state = AppState::new();
    let address = [0xCD; 20];
    let first = fresh_key(0);
    state.register_key(address, first.clone()).expect("first register");

    let rotated = SessionKey {
        pubkey_x: [99u32; 7],
        pubkey_y: [88u32; 7],
        key_index: 0,
    };
    let result = state.register_key(address, rotated.clone()).expect("rotate");

    let old_leaf = result.old_leaf.expect("rotation must surface old leaf");
    assert_eq!(old_leaf.pubkey_x, first.pubkey_x);
    assert_eq!(old_leaf.pubkey_y, first.pubkey_y);

    // Old proof verifies inclusion of the OLD leaf against the OLD root.
    let key_hash = jmt::KeyHash(session_key_hash(&address, 0));
    let old_value = encode_session_key_leaf(&old_leaf);
    decode_proof(&result.old_proof)
        .verify_existence(jmt::RootHash(result.old_root), key_hash, old_value)
        .expect("old leaf inclusion proof should verify against old root");
}

#[test]
fn register_witness_bincodes_round_trip() {
    let mut state = AppState::new();
    let address = [0xEE; 20];
    let key = fresh_key(0);
    let result = state.register_key(address, key.clone()).expect("register");

    let request = RegisterKeyRequest {
        account_address: address,
        key_index: 0,
        pubkey_x: key.pubkey_x,
        pubkey_y: key.pubkey_y,
        eth_signature_hex: "00".repeat(65),
    };
    let witness = register_witness(request, result);
    let proof = decode_proof(&witness.old_proof);
    let leaf = witness
        .old_leaf
        .map(|l| (l.account_address, l.key_index, l.pubkey_x, l.pubkey_y));
    let request = witness.request;
    let fields = (
        0u32,
        (
            request.account_address,
            request.key_index,
            request.pubkey_x,
            request.pubkey_y,
            request.eth_signature_hex,
        ),
        witness.old_session_key_root,
        witness.new_session_key_root,
        proof,
        leaf,
    );

    let bytes = bincode::serialize(&fields).expect("serialize");
    let round: RoundTrip = bincode::deserialize(&bytes).expect("deserialize");
    assert_eq!(round.0, 0);
    assert_eq!(round.1 .4, "00".repeat(65));
    assert_eq!(round.2, EMPTY_ROOT);
    assert_eq!(round.3, state.current_root);
    assert_eq!(borsh::to_vec(&round.4).expect("encode"), vec![0; 5]);
    assert!(round.5.is_none());
}

#[test]
fn two_distinct_keys_independent_proofs() {
    let mut state = AppState::new();
    let addr_a = [0x11; 20];
    let addr_b = [0x22; 20];
    state.register_key(addr_a, fresh_key(0)).expect("a");
    state.register_key(addr_b, fresh_key(0)).expect("b");

    let proof_a = state.get_key_proof(addr_a, 0).expect("a registered");
    let proof_b = state.get_key_proof(addr_b, 0).expect("b registered");
    assert_eq!(proof_a.root, proof_b.root, "shared root after both inserts");

    let key_a_hash = jmt::KeyHash(session_key_hash(&addr_a, 0));
    let leaf_a = encode_session_key_leaf(&SessionKeyLeaf {
        account_address: addr_a,
        key_index: 0,
        pubkey_x: proof_a.key.pubkey_x,
        pubkey_y: proof_a.key.pubkey_y,
    });
    decode_proof(&proof_a.proof)
        .verify_existence(jmt::RootHash(proof_a.root), key_a_hash, leaf_a)
        .expect("a inclusion");
}

#[test]
fn an_unregistered_key_has_no_proof() {
    let mut state = AppState::new();
    assert!(state.get_key_proof([0x11; 20], 0).is_none());
    state.register_key([0x11; 20], fresh_key(0)).expect("register");
    assert!(state.get_key_proof([0x11; 20], 1).is_none());
    assert!(state.get_key_proof([0x12; 20], 0).is_none());
    assert!(state.get_key_proof([0x11; 20], 0).is_some());
    assert_eq!(state.session_keys.len(), 1);
}

#[test]
fn rotation_replaces_the_key() {
    let mut state = AppState::new();
    let address = [0x33; 20];
    state.register_key(address, fresh_key(2)).expect("first");
    state.register_key([0x44; 20], fresh_key(2)).expect("other");
    let rotated = SessionKey { pubkey_x: [9; 7], pubkey_y: [8; 7], key_index: 2 };
    state.register_key(address, rotated).expect("rotate");
    assert_eq!(state.session_keys.len(), 2);
    assert_eq!(state.version, 3);
    let proof = state.get_key_proof(address, 2).expect("registered");
    assert_eq!(proof.key.pubkey_x, [9; 7]);
    let other = state.get_key_proof([0x44; 20], 2).expect("registered");
    assert_eq!(other.key.pubkey_x, [3; 7]);
}

#[test]
fn the_root_depends_on_the_keys_alone() {
    let mut a = AppState::new();
    let mut b = AppState::new();
    a.register_key([1; 20], fresh_key(0)).expect("a");
    a.register_key([2; 20], fresh_key(1)).expect("a");
    b.register_key([2; 20], fresh_key(4)).expect("b");
    b.register_key([2; 20], fresh_key(1)).expect("b");
    b.register_key([1; 20], fresh_key(0)).expect("b");
    assert_ne!(a.current_root, b.current_root);
    a.register_key([2; 20], fresh_key(4)).expect("a");
    assert_eq!(a.current_root, b.current_root);
}

#[test]
fn a_failed_lookup_is_an_error() {
    assert_eq!(
        old_leaf(Err("no root".to_string())).err(),
        Some("get_with_proof: no root".to_string())
    );
    let short = old_leaf(Ok((Some(vec![0; 76]), vec![]))).expect_err("short");
    assert!(short.starts_with("decode old leaf: "));
    let (leaf, proof) = old_leaf(Ok((None, vec![7]))).expect("empty");
    assert!(leaf.is_none());
    assert_eq!(proof, vec![7]);
    let encoded = encode_session_key_leaf(&SessionKeyLeaf {
        account_address: [5; 20],
        key_index: 6,
        pubkey_x: [7; 7],
        pubkey_y: [8; 7],
    });
    assert_eq!(encoded.len(), 77);
    assert_eq!(encoded[20], 6);
    assert_eq!(&encoded[21..25], &[7, 0, 0, 0]);
    let (leaf, _) = old_leaf(Ok((Some(encoded), vec![]))).expect("leaf");
    let leaf = leaf.expect("taken");
    assert_eq!(leaf.account_address, [5; 20]);
    assert_eq!(leaf.key_index, 6);
    assert_eq!(leaf.pubkey_x, [7; 7]);
    assert_eq!(leaf.pubkey_y, [8; 7]);
}

#[test]
fn a_key_proof_needs_both_parts() {
    assert!(key_proof(None, Ok((None, vec![])), [0; 32]).is_none());
    assert!(key_proof(Some(fresh_key(0)), Err(String::new()), [0; 32]).is_none());
    let p = key_proof(Some(fresh_key(0)), Ok((None, vec![1, 2])), [3; 32]).expect("both");
    assert_eq!(p.proof, vec![1, 2]);
    assert_eq!(p.root, [3; 32]);
    assert_eq!(p.key.key_index, 0);
}
