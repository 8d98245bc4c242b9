use kalqix_signature::builders::{build_register_key_input, build_verify_order_input, TestFixtures};
use jmt::mock::MockTreeStore;
use jmt::{JellyfishMerkleTree, KeyHash};
use kalqix_signature::dedup::{
    build_batch_septic_dedup_batch_input, build_batch_septic_dedup_input,
};
use kalqix_signature::guest::GuestError;
use kalqix_signature::poseidon2_hasher::Poseidon2Hasher;
use kalqix_signature::profile::{
    register_key_case, verify_merkle_case, verify_order_case, verify_order_septic_case,
};
use kalqix_signature::state::{AppState, EMPTY_ROOT};
use kalqix_signature::tree_guest::{
    handle_batch_septic_dedup, handle_batch_septic_dedup_batch, handle_batch_septic_verify_merkle,
    handle_register_key, handle_verify_order, handle_verify_order_septic,
};

#[test]
fn first_registrations_are_accepted() {
    let w = register_key_case().expect("registered");
    let new_root = w.new_session_key_root;
    let account = w.request.account_address;
    let out = handle_register_key(w).expect("accepted");
    assert_eq!(out.old_session_key_root, EMPTY_ROOT);
    assert_eq!(out.new_session_key_root, new_root);
    assert_eq!(out.account_address, account);
    assert_eq!(out.key_index, 0);
    assert_eq!(out.proof_type, "REGISTER_KEY");
}

#[test]
fn rotations_are_accepted() {
    let mut fix = TestFixtures::new();
    let mut app = AppState::new();
    build_register_key_input(&fix, &mut app).expect("registered");
    fix.session = TestFixtures::new().session;
    let w = build_register_key_input(&fix, &mut app).expect("registered");
    assert!(w.old_leaf.is_some());
    assert_ne!(w.old_session_key_root, w.new_session_key_root);
    assert!(handle_register_key(w.clone()).is_ok());

    let mut no_leaf = w.clone();
    no_leaf.old_leaf = None;
    assert_eq!(handle_register_key(no_leaf).err(), Some(GuestError::OldLeafMismatch));
    let mut other_leaf = w.clone();
    if let Some(leaf) = &mut other_leaf.old_leaf {
        leaf.pubkey_x[0] ^= 1;
    }
    assert_eq!(handle_register_key(other_leaf).err(), Some(GuestError::OldLeafMismatch));
    let mut other_root = w.clone();
    other_root.old_session_key_root = w.new_session_key_root;
    assert_eq!(handle_register_key(other_root).err(), Some(GuestError::OldLeafMismatch));
    let mut other_key = w;
    other_key.request.pubkey_x[0] ^= 1;
    assert!(matches!(
        handle_register_key(other_key).err(),
        Some(GuestError::AddressMismatch) | Some(GuestError::RecoveryFailed)
    ));
}

#[test]
fn registrations_with_bad_bytes_are_refused() {
    let w = register_key_case().expect("registered");
    let mut no_proof = w.clone();
    no_proof.old_proof = vec![0; 4];
    assert_eq!(handle_register_key(no_proof).err(), Some(GuestError::OldLeafMismatch));
    let mut long_proof = w.clone();
    long_proof.old_proof.push(0);
    assert_eq!(handle_register_key(long_proof).err(), Some(GuestError::OldLeafMismatch));
    let mut no_hex = w.clone();
    no_hex.request.eth_signature_hex = "zz".to_string();
    assert_eq!(handle_register_key(no_hex).err(), Some(GuestError::InvalidHex));
    let mut short = w;
    short.request.eth_signature_hex = "00".to_string();
    assert_eq!(handle_register_key(short).err(), Some(GuestError::WrongSignatureLength));
}

#[test]
fn orders_in_the_tree_are_accepted() {
    let w = verify_order_case().expect("order");
    let out = handle_verify_order(w.clone()).expect("accepted");
    assert_eq!(out.old_session_key_root, w.session_key_root);
    assert_eq!(out.new_session_key_root, w.session_key_root);
    assert_eq!(out.account_address, w.order.account_address);
    assert_eq!(out.proof_type, "VERIFY_ORDER");

    let mut unsigned = w.clone();
    unsigned.order.signature_s[0] ^= 1;
    assert_eq!(handle_verify_order(unsigned).err(), Some(GuestError::SchnorrMismatch));
    let mut other_price = w.clone();
    other_price.order.price += 1;
    assert_eq!(handle_verify_order(other_price).err(), Some(GuestError::SchnorrMismatch));
    let mut other_side = w.clone();
    other_side.order.side = "SELL".to_string();
    assert_eq!(handle_verify_order(other_side).err(), Some(GuestError::SchnorrMismatch));
    let mut other_account = w.clone();
    other_account.order.account_address[0] ^= 1;
    assert_eq!(handle_verify_order(other_account).err(), Some(GuestError::KeyNotRegistered));
    let mut other_index = w.clone();
    other_index.order.key_index = 1;
    assert_eq!(handle_verify_order(other_index).err(), Some(GuestError::KeyNotRegistered));
    let mut no_proof = w;
    no_proof.merkle_proof = vec![];
    assert_eq!(handle_verify_order(no_proof).err(), Some(GuestError::KeyNotRegistered));
}

#[test]
fn orders_of_a_replaced_key_are_refused() {
    let fix = TestFixtures::new();
    let mut app = AppState::new();
    build_register_key_input(&fix, &mut app).expect("registered");
    let mut next = fix.clone();
    next.session = TestFixtures::new().session;
    build_register_key_input(&next, &mut app).expect("registered");
    let late = build_verify_order_input(&fix, &app).expect("order");
    assert_eq!(handle_verify_order(late).err(), Some(GuestError::SchnorrMismatch));
    let current = build_verify_order_input(&next, &app).expect("order");
    assert!(handle_verify_order(current).is_ok());
}

#[test]
fn septic_orders_in_the_tree_are_accepted() {
    let w = verify_order_septic_case().expect("order");
    let out = handle_verify_order_septic(w.clone()).expect("accepted");
    assert_eq!(out.new_session_key_root, w.session_key_root);
    assert_eq!(out.proof_type, "VERIFY_ORDER_SEPTIC");
    let mut unsigned = w.clone();
    unsigned.bench.order.signature.s[0] ^= 1;
    assert_eq!(handle_verify_order_septic(unsigned).err(), Some(GuestError::SepticMismatch));
    let mut other_root = w;
    other_root.session_key_root = EMPTY_ROOT;
    assert_eq!(handle_verify_order_septic(other_root).err(), Some(GuestError::KeyNotRegistered));
}

#[test]
fn merkle_batches_in_the_tree_are_accepted() {
    let w = verify_merkle_case(3).expect("batch");
    let out = handle_batch_septic_verify_merkle(w.clone()).expect("accepted");
    assert_eq!(out.proof_type, "BATCH_SEPTIC_VERIFY_MERKLE_3");
    assert_eq!(out.account_address, [0; 20]);
    assert_eq!(out.old_session_key_root, w.session_key_root);
    let mut unsigned = w.clone();
    unsigned.orders[2].bench.order.signature.s[0] ^= 1;
    assert_eq!(
        handle_batch_septic_verify_merkle(unsigned.clone()).err(),
        Some(GuestError::BatchMerkleMismatch)
    );
    unsigned.orders[1].merkle_proof.clear();
    assert_eq!(
        handle_batch_septic_verify_merkle(unsigned).err(),
        Some(GuestError::KeyNotRegistered)
    );
}

#[test]
fn dedup_batches_in_the_tree_are_accepted() {
    let w = build_batch_septic_dedup_input(5, 2, 4);
    let out = handle_batch_septic_dedup(w.clone()).expect("accepted");
    assert_eq!(out.proof_type, "BATCH_SEPTIC_DEDUP_2u_5o");
    assert_eq!(out.new_session_key_root, w.session_key_root);
    let mut out_of_range = w.clone();
    out_of_range.orders[0].key_idx = 2;
    assert_eq!(
        handle_batch_septic_dedup(out_of_range).err(),
        Some(GuestError::KeyIndexOutOfRange)
    );
    let mut unsigned = w.clone();
    unsigned.orders[4].challenge_e[0] ^= 1;
    assert_eq!(handle_batch_septic_dedup(unsigned.clone()).err(), Some(GuestError::DedupMismatch));
    unsigned.unique_keys[1].merkle_proof = w.unique_keys[0].merkle_proof.clone();
    assert_eq!(handle_batch_septic_dedup(unsigned).err(), Some(GuestError::KeyNotRegistered));
}

#[test]
fn dedup_batches_with_entries_are_accepted_or_refused() {
    let w = build_batch_septic_dedup_batch_input(5, 2, 4);
    let out = handle_batch_septic_dedup_batch(w.clone()).expect("accepted");
    assert_eq!(out.proof_type, "BATCH_SEPTIC_DEDUP_BATCH_2u_5o");
    assert_eq!(out.old_session_key_root, w.session_key_root);

    let mut missing = w.clone();
    missing.entries.pop();
    let e = handle_batch_septic_dedup_batch(missing).expect_err("count");
    assert_eq!(e, GuestError::EntryCountMismatch);
    assert_eq!(e.message(), "batch needs one entry for each key");

    let mut unsigned = w.clone();
    unsigned.orders[3].signature_s[0] ^= 1;
    assert_eq!(
        handle_batch_septic_dedup_batch(unsigned.clone()).err(),
        Some(GuestError::DedupMismatch)
    );
    unsigned.entries.swap(0, 1);
    let e = handle_batch_septic_dedup_batch(unsigned.clone()).expect_err("leaf");
    assert_eq!(e, GuestError::LeafMismatch);
    assert_eq!(e.message(), "leaf does not match unique key");
    unsigned.entries[1].value[0] ^= 1;
    assert_eq!(
        handle_batch_septic_dedup_batch(unsigned).err(),
        Some(GuestError::KeyNotRegistered)
    );

    let mut out_of_range = w;
    out_of_range.orders[0].key_idx = 9;
    assert_eq!(
        handle_batch_septic_dedup_batch(out_of_range).err(),
        Some(GuestError::KeyIndexOutOfRange)
    );
}

#[test]
fn bytes_after_a_leaf_are_ignored() {
    let mut w = build_batch_septic_dedup_batch_input(1, 1, 1);
    let key_hash = KeyHash(w.entries[0].key_hash);
    for (value, refusal) in [
        ([w.entries[0].value.clone(), vec![7, 8]].concat(), None),
        (w.entries[0].value[..76].to_vec(), Some(GuestError::LeafMismatch)),
    ] {
        let store = MockTreeStore::default();
        let tree: JellyfishMerkleTree<'_, MockTreeStore, Poseidon2Hasher> =
            JellyfishMerkleTree::new(&store);
        let pairs = vec![(key_hash, Some(value.clone()))];
        let (root, batch) = tree.put_value_set(pairs, 1).expect("root");
        store.write_tree_update_batch(batch).expect("written");
        let (_, proof) = tree.get_with_proof(key_hash, 1).expect("proof");
        w.session_key_root = root.0;
        w.entries[0].value = value;
        w.entries[0].proof = borsh::to_vec(&proof).expect("encoded");
        assert_eq!(handle_batch_septic_dedup_batch(w.clone()).err(), refusal);
    }
}
