use kalqix_signature::builders::{
    build_batch_eth_input, build_batch_orders, build_verify_order_eth_input, TestFixtures,
};
use kalqix_signature::guest::{
    handle_batch_eth, handle_batch_septic, handle_batch_septic_dedup, handle_batch_septic_opt,
    handle_batch_septic_opt_single, handle_batch_septic_single, handle_batch_septic_verify,
    handle_batch_septic_verify_merkle, handle_register_key, handle_verify_order,
    handle_verify_order_eth, handle_verify_order_septic, run_program, GuestError,
};
use kalqix_signature::merkle::{compute_new_root, hash_leaf, merkle_node, verify_merkle_proof};
use kalqix_signature::messages::register_key_message;
use kalqix_signature::poseidon2_hasher::poseidon2_hash_bytes;
use kalqix_signature::septic::batch::scalar_mul_mod_r_fast;
use kalqix_signature::septic::scalar_mul_mod_r;
use kalqix_signature::session::build_bench;
use kalqix_signature::types::{
    BatchEthWitness, BatchSepticDedupWitness, BatchSepticOptWitness, BatchSepticSingleWitness,
    BatchSepticVerifyMerkleWitness, BatchSepticVerifyWitness, BatchSepticWitness, DedupKey,
    DedupOrder, EthOrderWitness, OrderWitness, ProgramInput, RegisterKeyRequest,
    RegisterKeyWitness, SepticMerkleOrder, SessionKey, SessionKeyLeaf, SignedOrder,
    VerifyOrderSepticWitness,
};
use kalqix_signature::wallet::eth_sign_text;

fn siblings(depth: u8) -> Vec<[u8; 32]> {
    (0..depth).map(|i| [i + 1; 32]).collect()
}

fn leaf(fix: &TestFixtures) -> SessionKeyLeaf {
    SessionKeyLeaf {
        account_address: fix.eth_key.address,
        key_index: 0,
        pubkey_x: fix.session.pubkey.x.0,
        pubkey_y: fix.session.pubkey.y.0,
    }
}

fn root(fix: &TestFixtures, index: u64, path: &[[u8; 32]]) -> [u8; 32] {
    compute_new_root(hash_leaf(&leaf(fix)), index, path)
}

fn register_witness(fix: &TestFixtures) -> RegisterKeyWitness {
    let path = siblings(8);
    let message = register_key_message(
        &fix.eth_key.address,
        &fix.session.pubkey.x.0,
        &fix.session.pubkey.y.0,
        0,
    );
    RegisterKeyWitness {
        request: RegisterKeyRequest {
            account_address: fix.eth_key.address,
            key_index: 0,
            pubkey_x: fix.session.pubkey.x.0,
            pubkey_y: fix.session.pubkey.y.0,
            eth_signature_hex: eth_sign_text(&fix.eth_key, &message).expect("signed"),
        },
        old_leaf_hash: [0; 32],
        old_session_key_root: compute_new_root([0; 32], 5, &path),
        new_session_key_root: root(fix, 5, &path),
        merkle_siblings: path,
        leaf_index: 5,
    }
}

fn order_witness(fix: &TestFixtures) -> OrderWitness {
    let bench = build_bench(&fix.session, &fix.eth_key.address, 10, 20);
    let path = siblings(8);
    OrderWitness {
        order: SignedOrder {
            account_address: fix.eth_key.address,
            key_index: 0,
            market: bench.order.market,
            side: bench.order.side,
            price: 10,
            quantity: 20,
            signature_r_x: bench.order.signature.r_x.0,
            signature_r_y: bench.order.signature.r_y.0,
            signature_s: bench.order.signature.s,
            challenge_e: bench.challenge_e,
        },
        session_key: SessionKey {
            pubkey_x: fix.session.pubkey.x.0,
            pubkey_y: fix.session.pubkey.y.0,
            key_index: 0,
        },
        session_key_root: root(fix, 3, &path),
        merkle_siblings: path,
        leaf_index: 3,
    }
}

#[test]
fn merkle_path_sides() {
    let leaf = [7u8; 32];
    let path = [[1u8; 32], [2u8; 32]];
    let mut both = [0u8; 64];
    both[..32].copy_from_slice(&[1; 32]);
    both[32..].copy_from_slice(&leaf);
    assert_eq!(merkle_node(&[1; 32], &leaf), poseidon2_hash_bytes(&both));
    let first = merkle_node(&[1; 32], &leaf);
    let second = merkle_node(&first, &[2; 32]);
    assert_eq!(compute_new_root(leaf, 1, &path), second);
    assert_eq!(compute_new_root(leaf, 5, &path), second);
    assert_ne!(compute_new_root(leaf, 0, &path), second);
    assert!(verify_merkle_proof(leaf, 1, &path, second));
    assert!(!verify_merkle_proof(leaf, 2, &path, second));
    assert_eq!(compute_new_root(leaf, 1, &[]), leaf);
}

#[test]
fn a_registration_is_accepted() {
    let fix = TestFixtures::new();
    let w = register_witness(&fix);
    let out = handle_register_key(w.clone()).expect("accepted");
    assert_eq!(out.old_session_key_root, w.old_session_key_root);
    assert_eq!(out.new_session_key_root, w.new_session_key_root);
    assert_eq!(out.account_address, fix.eth_key.address);
    assert_eq!(out.key_index, 0);
    assert_eq!(out.proof_type, "REGISTER_KEY");
    let again = run_program(ProgramInput::RegisterKey(w)).expect("accepted");
    assert_eq!(again.proof_type, "REGISTER_KEY");
}

#[test]
fn registrations_that_are_refused() {
    let fix = TestFixtures::new();
    let good = register_witness(&fix);

    let mut w = good.clone();
    w.merkle_siblings = siblings(65);
    assert_eq!(handle_register_key(w).err(), Some(GuestError::PathTooLong));

    let mut w = good.clone();
    w.old_leaf_hash = [1; 32];
    let e = handle_register_key(w).expect_err("old leaf");
    assert_eq!(e, GuestError::OldLeafMismatch);
    assert_eq!(e.message(), "old leaf does not match old root");

    let mut w = good.clone();
    w.request.eth_signature_hex = "0g".repeat(65);
    assert_eq!(handle_register_key(w).err(), Some(GuestError::InvalidHex));

    let mut w = good.clone();
    w.request.eth_signature_hex = "00".repeat(64);
    let e = handle_register_key(w).expect_err("length");
    assert_eq!(e, GuestError::WrongSignatureLength);
    assert_eq!(e.message(), "expected 65 bytes");

    let mut w = good.clone();
    w.request.eth_signature_hex = "00".repeat(65);
    assert_eq!(handle_register_key(w).err(), Some(GuestError::InvalidSignature));

    let mut w = good.clone();
    w.request.eth_signature_hex.replace_range(128.., "04");
    assert_eq!(handle_register_key(w).err(), Some(GuestError::InvalidRecoveryId));

    let mut w = good.clone();
    let mut sig = "00".repeat(65);
    sig.replace_range(62..64, "05");
    sig.replace_range(126..128, "01");
    w.request.eth_signature_hex = sig;
    assert_eq!(handle_register_key(w).err(), Some(GuestError::RecoveryFailed));

    let other = TestFixtures::new();
    let mut w = good.clone();
    w.request.eth_signature_hex = register_witness(&other).request.eth_signature_hex;
    let e = handle_register_key(w).expect_err("signer");
    assert_eq!(e, GuestError::AddressMismatch);
    assert_eq!(e.message(), "EIP-191 signature does not match account address");

    let mut w = good.clone();
    w.new_session_key_root = [9; 32];
    let e = handle_register_key(w).expect_err("new root");
    assert_eq!(e, GuestError::NewRootMismatch);
    assert_eq!(e.message(), "new root mismatch");
}

#[test]
fn an_order_is_accepted_or_refused() {
    let fix = TestFixtures::new();
    let good = order_witness(&fix);
    let out = handle_verify_order(good.clone()).expect("accepted");
    assert_eq!(out.old_session_key_root, good.session_key_root);
    assert_eq!(out.new_session_key_root, good.session_key_root);
    assert_eq!(out.account_address, fix.eth_key.address);
    assert_eq!(out.proof_type, "VERIFY_ORDER");

    let mut w = good.clone();
    w.leaf_index = 4;
    let e = handle_verify_order(w).expect_err("path");
    assert_eq!(e, GuestError::KeyNotRegistered);
    assert_eq!(e.message(), "session key not registered — Merkle proof failed");

    let mut w = good.clone();
    w.order.signature_s[0] ^= 1;
    let e = handle_verify_order(w).expect_err("signature");
    assert_eq!(e, GuestError::SchnorrMismatch);
    assert_eq!(e.message(), "Schnorr signature verification failed");

    for change in 0..4 {
        let mut w = good.clone();
        match change {
            0 => w.order.market = "BTC/USDC".to_string(),
            1 => w.order.side = "SELL".to_string(),
            2 => w.order.price += 1,
            _ => w.order.quantity += 1,
        }
        assert_eq!(handle_verify_order(w).err(), Some(GuestError::SchnorrMismatch));
    }

    let mut w = good;
    w.merkle_siblings = siblings(65);
    let e = run_program(ProgramInput::VerifyOrder(w)).expect_err("long");
    assert_eq!(e, GuestError::PathTooLong);
    assert_eq!(e.message(), "Merkle path too long");
}

#[test]
fn a_schnorr_order_is_accepted_or_refused() {
    let fix = TestFixtures::new();
    let path = siblings(8);
    let good = VerifyOrderSepticWitness {
        bench: build_bench(&fix.session, &fix.eth_key.address, 1, 2),
        session_key_root: root(&fix, 9, &path),
        merkle_siblings: path,
        leaf_index: 9,
    };
    let out = handle_verify_order_septic(good.clone()).expect("accepted");
    assert_eq!(out.proof_type, "VERIFY_ORDER_SEPTIC");
    let mut w = good;
    w.bench.challenge_e[0] ^= 1;
    let e = handle_verify_order_septic(w).expect_err("signature");
    assert_eq!(e, GuestError::SepticMismatch);
    assert_eq!(e.message(), "Schnorr verify failed: s·G + e·A != R");
}

#[test]
fn an_account_order_is_accepted_or_refused() {
    let fix = TestFixtures::new();
    let input = build_verify_order_eth_input(&fix).expect("signed");
    let out = run_program(input.clone()).expect("accepted");
    assert_eq!(out.proof_type, "VERIFY_ORDER_ETH");
    assert_eq!(out.old_session_key_root, [0; 32]);
    assert_eq!(out.account_address, fix.eth_key.address);
    match input {
        ProgramInput::VerifyOrderEth(good) => {
            let mut order = good.order;
            order.price += 1;
            let e = handle_verify_order_eth(EthOrderWitness { order }).expect_err("signer");
            assert_eq!(e, GuestError::OrderSignerMismatch);
            assert_eq!(e.message(), "EIP-191 order signature does not match account address");
        }
        _ => panic!("another input"),
    }
}

#[test]
fn account_batches() {
    let fix = TestFixtures::new();
    match build_batch_eth_input(&fix, 3).expect("signed") {
        ProgramInput::BatchEth(w) => {
            assert_eq!(w.orders[2].order.price, 2000002);
            assert_eq!(w.orders[2].order.quantity, 102);
            let out = handle_batch_eth(w.clone()).expect("accepted");
            assert_eq!(out.proof_type, "BATCH_ETH_3");
            assert_eq!(out.account_address, [0; 20]);
            let mut orders = w.orders;
            orders[1].order.quantity = 7;
            let e = handle_batch_eth(BatchEthWitness { orders }).expect_err("signer");
            assert_eq!(e, GuestError::BatchSignerMismatch);
            assert_eq!(e.message(), "EIP-191 order signature mismatch in batch");
        }
        _ => panic!("another input"),
    }
    let empty = handle_batch_eth(BatchEthWitness { orders: vec![] }).expect("accepted");
    assert_eq!(empty.proof_type, "BATCH_ETH_0");
}

#[test]
fn schnorr_batches_are_accepted() {
    let fix = TestFixtures::new();
    let orders = build_batch_orders(&fix, 3);
    let o = || orders.clone();
    let out = handle_batch_septic(BatchSepticWitness { orders: o() }).expect("accepted");
    assert_eq!(out.proof_type, "BATCH_SEPTIC_3");
    assert_eq!(out.old_session_key_root, [0; 32]);
    assert_eq!(out.new_session_key_root, [0; 32]);
    assert_eq!(out.account_address, [0; 20]);
    let out = handle_batch_septic_single(BatchSepticSingleWitness { orders: o() }).expect("ok");
    assert_eq!(out.proof_type, "BATCH_SEPTIC_SINGLE_3");
    let out = handle_batch_septic_verify(BatchSepticVerifyWitness { orders: o() }).expect("ok");
    assert_eq!(out.proof_type, "BATCH_SEPTIC_VERIFY_3");
    let out = handle_batch_septic_opt(BatchSepticOptWitness { orders: o() }).expect("ok");
    assert_eq!(out.proof_type, "BATCH_SEPTIC_OPT_3");
    let out = handle_batch_septic_opt_single(BatchSepticOptWitness { orders: o() }).expect("ok");
    assert_eq!(out.proof_type, "BATCH_SEPTIC_OPT_SINGLE_3");
}

#[test]
fn schnorr_batches_are_refused() {
    let fix = TestFixtures::new();
    let mut orders = build_batch_orders(&fix, 2);
    orders[1].order.signature.s[3] ^= 4;
    let o = || orders.clone();
    let e = handle_batch_septic(BatchSepticWitness { orders: o() }).expect_err("refused");
    assert_eq!(e, GuestError::BatchSepticMismatch);
    assert_eq!(e.message(), "Schnorr verify failed in batch");
    let e = handle_batch_septic_single(BatchSepticSingleWitness { orders: o() }).expect_err("no");
    assert_eq!(e, GuestError::BatchSingleMismatch);
    assert_eq!(e.message(), "Schnorr verify failed in batch (single)");
    let e = handle_batch_septic_verify(BatchSepticVerifyWitness { orders: o() }).expect_err("no");
    assert_eq!(e, GuestError::BatchVerifyMismatch);
    assert_eq!(e.message(), "Schnorr verify failed in batch (verify)");
    let e = handle_batch_septic_opt(BatchSepticOptWitness { orders: o() }).expect_err("no");
    assert_eq!(e, GuestError::BatchEquationMismatch);
    assert_eq!(e.message(), "Batch Schnorr verification failed");
    let e = handle_batch_septic_opt_single(BatchSepticOptWitness { orders: o() }).expect_err("no");
    assert_eq!(e, GuestError::BatchEquationSingleMismatch);
    assert_eq!(e.message(), "Batch Schnorr verification failed (single)");
    let e = handle_batch_septic_opt(BatchSepticOptWitness { orders: vec![] }).expect_err("empty");
    assert_eq!(e, GuestError::EmptyBatch);
    assert_eq!(e.message(), "empty batch");
    let out = handle_batch_septic(BatchSepticWitness { orders: vec![] }).expect("accepted");
    assert_eq!(out.proof_type, "BATCH_SEPTIC_0");
}

#[test]
fn merkle_batches() {
    let fix = TestFixtures::new();
    let path = siblings(4);
    let session_key_root = root(&fix, 2, &path);
    let orders: Vec<SepticMerkleOrder> = (0..2)
        .map(|i| SepticMerkleOrder {
            bench: build_bench(&fix.session, &fix.eth_key.address, i, i),
            merkle_siblings: path.clone(),
            leaf_index: 2,
        })
        .collect();
    let good = BatchSepticVerifyMerkleWitness { orders, session_key_root };
    let out = handle_batch_septic_verify_merkle(good.clone()).expect("accepted");
    assert_eq!(out.proof_type, "BATCH_SEPTIC_VERIFY_MERKLE_2");
    assert_eq!(out.old_session_key_root, session_key_root);
    assert_eq!(out.new_session_key_root, session_key_root);
    let mut w = good.clone();
    w.orders[1].leaf_index = 3;
    let e = handle_batch_septic_verify_merkle(w).expect_err("path");
    assert_eq!(e, GuestError::KeyNotRegistered);
    let mut w = good;
    w.orders[0].bench.challenge_e[1] ^= 1;
    w.orders[1].leaf_index = 3;
    let e = handle_batch_septic_verify_merkle(w).expect_err("signature");
    assert_eq!(e, GuestError::BatchMerkleMismatch);
    assert_eq!(e.message(), "Schnorr verify failed in batch (verify+merkle)");
}

#[test]
fn dedup_batches() {
    let fix = TestFixtures::new();
    let path = siblings(4);
    let key = DedupKey {
        account_address: fix.eth_key.address,
        key_index: 0,
        pubkey_x: fix.session.pubkey.x.0,
        pubkey_y: fix.session.pubkey.y.0,
        merkle_siblings: path.clone(),
        leaf_index: 1,
    };
    let orders: Vec<DedupOrder> = (0..3)
        .map(|i| {
            let bench = build_bench(&fix.session, &fix.eth_key.address, i, 1);
            DedupOrder {
                key_idx: 0,
                market: bench.order.market,
                side: bench.order.side,
                price: i,
                quantity: 1,
                signature_r_x: bench.order.signature.r_x.0,
                signature_r_y: bench.order.signature.r_y.0,
                signature_s: bench.order.signature.s,
                challenge_e: bench.challenge_e,
            }
        })
        .collect();
    let good = BatchSepticDedupWitness {
        unique_keys: vec![key],
        orders,
        session_key_root: root(&fix, 1, &path),
    };
    let out = handle_batch_septic_dedup(good.clone()).expect("accepted");
    assert_eq!(out.proof_type, "BATCH_SEPTIC_DEDUP_1u_3o");
    assert_eq!(out.old_session_key_root, good.session_key_root);
    let mut w = good.clone();
    w.orders[2].key_idx = 1;
    let e = handle_batch_septic_dedup(w).expect_err("index");
    assert_eq!(e, GuestError::KeyIndexOutOfRange);
    assert_eq!(e.message(), "key index out of range");
    let mut w = good.clone();
    w.orders[0].signature_r_x[0] ^= 1;
    let e = handle_batch_septic_dedup(w).expect_err("signature");
    assert_eq!(e, GuestError::DedupMismatch);
    assert_eq!(e.message(), "Schnorr verify failed in dedup batch");
    let mut w = good;
    w.unique_keys[0].key_index = 1;
    w.orders[2].key_idx = 1;
    let e = run_program(ProgramInput::BatchSepticDedup(w)).expect_err("key first");
    assert_eq!(e, GuestError::KeyNotRegistered);
}

#[test]
fn the_program_dispatches() {
    let fix = TestFixtures::new();
    let orders = build_batch_orders(&fix, 1);
    let kind = |input: ProgramInput| run_program(input).expect("accepted").proof_type;
    let o = || orders.clone();
    assert_eq!(kind(ProgramInput::BatchSeptic(BatchSepticWitness { orders: o() })), "BATCH_SEPTIC_1");
    assert_eq!(
        kind(ProgramInput::BatchSepticOpt(BatchSepticOptWitness { orders: o() })),
        "BATCH_SEPTIC_OPT_1"
    );
    assert_eq!(
        kind(ProgramInput::BatchSepticSingle(BatchSepticSingleWitness { orders: o() })),
        "BATCH_SEPTIC_SINGLE_1"
    );
    assert_eq!(
        kind(ProgramInput::BatchSepticOptSingle(BatchSepticOptWitness { orders: o() })),
        "BATCH_SEPTIC_OPT_SINGLE_1"
    );
    assert_eq!(
        kind(ProgramInput::BatchSepticVerify(BatchSepticVerifyWitness { orders: o() })),
        "BATCH_SEPTIC_VERIFY_1"
    );
}

#[test]
fn fast_product_agrees() {
    let a = [0xffffffff; 8];
    let b = [3, 1, 4, 1, 5, 9, 2, 6];
    assert_eq!(scalar_mul_mod_r_fast(&a, &b), scalar_mul_mod_r(&a, &b));
}
