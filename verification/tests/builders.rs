use jmt::proof::SparseMerkleProof;
use kalqix_signature::builders::{
    batch_orders_with, build_batch_septic_input, build_batch_septic_opt_input,
    build_batch_septic_opt_single_input, build_batch_septic_single_input,
    build_batch_septic_verify_input, build_batch_septic_verify_merkle_input,
    build_register_key_input, build_verify_order_input, build_verify_order_septic_input,
    verify_merkle_input_with, verify_order_input_with, verify_order_septic_input_with,
    TestFixtures,
};
use kalqix_signature::dedup::{
    build_batch_septic_dedup_batch_input, build_batch_septic_dedup_input, dedup_batch_input_of,
    dedup_input_of, dedup_orders_with, make_order_with, plant,
};
use kalqix_signature::eth::{decode_hex_65, recover_eth_address_kalqix};
use kalqix_signature::guest::run_program;
use kalqix_signature::merkle::{encode_session_key_leaf, session_key_hash};
use kalqix_signature::messages::register_key_message;
use kalqix_signature::poseidon2_hasher::Poseidon2Hasher;
use kalqix_signature::profile::{
    batch_eth_case, register_key_case, verify_merkle_case, verify_order_case, verify_order_eth_case,
    verify_order_septic_case,
};
use kalqix_signature::report::{gas_estimate, sort_sections, total_cycles};
use kalqix_signature::septic::schnorr::schnorr_equation;
use kalqix_signature::septic::{schnorr_verify, Fp7, SepticPoint, GROUP_ORDER};
use kalqix_signature::session::{build_bench_with, hash_order, make_session_pair, SessionPair};
use kalqix_signature::state::{AppState, EMPTY_ROOT};
use kalqix_signature::types::{
    ProgramInput, RegisterKeyRequest, SessionKeyLeaf, SignedOrder,
};
use kalqix_signature::witness::{order_request, register_request};

fn check_existence(proof: &[u8], root: [u8; 32], leaf: &SessionKeyLeaf) {
    let proof: SparseMerkleProof<Poseidon2Hasher> = borsh::from_slice(proof).expect("proof");
    let key = jmt::KeyHash(session_key_hash(&leaf.account_address, leaf.key_index));
    proof
        .verify_existence(jmt::RootHash(root), key, encode_session_key_leaf(leaf))
        .expect("exists");
}

fn fixture_leaf(fix: &TestFixtures) -> SessionKeyLeaf {
    SessionKeyLeaf {
        account_address: fix.eth_key.address,
        key_index: 0,
        pubkey_x: fix.session.pubkey.x.0,
        pubkey_y: fix.session.pubkey.y.0,
    }
}

#[test]
fn session_pairs_sign() {
    let pair = make_session_pair();
    assert!(pair.pubkey.on_curve());
    assert!(!pair.pubkey.is_infinity);
    let (r_x, r_y, s, e) = pair.sign(&[3; 32]);
    assert!(schnorr_verify(&pair.pubkey, &[3; 32], &r_x, &r_y, &s, &e));
    assert!(pair.sign_with(&[0; 8], &[3; 32]).is_none());
    let five = SessionPair::from_scalar([5, 0, 0, 0, 0, 0, 0, 0]);
    assert_eq!(five.pubkey, SepticPoint::generator().scalar_mul(&[5, 0, 0, 0, 0, 0, 0, 0]));
}

#[test]
fn registrations_are_built() {
    let fix = TestFixtures::new();
    let mut app = AppState::new();
    let w = build_register_key_input(&fix, &mut app).expect("registered");
    assert_eq!(app.version, 1);
    assert_eq!(w.new_session_key_root, app.current_root);
    assert!(w.old_leaf.is_none());
    let message =
        register_key_message(&fix.eth_key.address, &w.request.pubkey_x, &w.request.pubkey_y, 0);
    let sig = decode_hex_65(&w.request.eth_signature_hex).expect("hex");
    assert_eq!(recover_eth_address_kalqix(message.as_bytes(), &sig), Ok(fix.eth_key.address));
    let again = build_register_key_input(&fix, &mut app).expect("registered");
    assert_eq!(again.old_session_key_root, w.new_session_key_root);
    assert_eq!(again.new_session_key_root, w.new_session_key_root);
    let old = again.old_leaf.expect("taken");
    assert_eq!(old.pubkey_x, fix.session.pubkey.x.0);
    check_existence(&again.old_proof, again.old_session_key_root, &old);
}

#[test]
fn orders_of_a_registered_key() {
    let fix = TestFixtures::new();
    let mut app = AppState::new();
    assert!(build_verify_order_input(&fix, &app).is_none());
    assert!(build_verify_order_septic_input(&fix, &app).is_none());
    assert!(build_batch_septic_verify_merkle_input(&fix, &app, 2).is_none());
    build_register_key_input(&fix, &mut app).expect("registered");
    let hash = hash_order("ETH/USDC", "BUY", 2000000, 100, &fix.eth_key.address);

    let w = build_verify_order_input(&fix, &app).expect("built");
    let o = &w.order;
    assert_eq!(w.session_key.pubkey_x, fix.session.pubkey.x.0);
    assert!(schnorr_verify(
        &fix.session.pubkey,
        &hash,
        &o.signature_r_x,
        &o.signature_r_y,
        &o.signature_s,
        &o.challenge_e
    ));
    check_existence(&w.merkle_proof, w.session_key_root, &fixture_leaf(&fix));

    let w = build_verify_order_septic_input(&fix, &app).expect("built");
    assert_eq!(w.bench.order.price, 2000000);
    check_existence(&w.merkle_proof, w.session_key_root, &fixture_leaf(&fix));

    let w = build_batch_septic_verify_merkle_input(&fix, &app, 2).expect("built");
    assert_eq!(w.orders.len(), 2);
    assert_eq!(w.orders[1].bench.order.price, 2000001);
    assert_eq!(w.orders[1].bench.order.quantity, 101);
    check_existence(&w.orders[1].merkle_proof, w.session_key_root, &fixture_leaf(&fix));
}

#[test]
fn built_batches_are_accepted() {
    let fix = TestFixtures::new();
    let inputs = vec![
        build_batch_septic_input(&fix, 2),
        build_batch_septic_opt_input(&fix, 2),
        build_batch_septic_single_input(&fix, 2),
        build_batch_septic_opt_single_input(&fix, 2),
        build_batch_septic_verify_input(&fix, 2),
    ];
    for input in inputs {
        run_program(input).expect("accepted");
    }
    match build_batch_septic_input(&fix, 1) {
        ProgramInput::BatchSeptic(w) => {
            let o = &w.orders[0].order;
            assert_eq!(o.market, "ETH/USDC");
            assert_eq!(o.side, "BUY");
            let pubkey = SepticPoint::new(o.pubkey_x, o.pubkey_y);
            let hash = hash_order("ETH/USDC", "BUY", 2000000, 100, &fix.eth_key.address);
            assert!(schnorr_verify(
                &pubkey,
                &hash,
                &o.signature.r_x.0,
                &o.signature.r_y.0,
                &o.signature.s,
                &w.orders[0].challenge_e
            ));
        }
        _ => panic!("another input"),
    }
}

#[test]
fn dedup_batches_are_built() {
    let w = build_batch_septic_dedup_input(6, 2, 4);
    assert_eq!(w.unique_keys.len(), 2);
    assert_eq!(w.orders.len(), 6);
    let mut prices: Vec<u64> = w.orders.iter().map(|o| o.price).collect();
    prices.sort();
    assert_eq!(prices, (2000000..2000006).collect::<Vec<u64>>());
    assert_eq!(w.unique_keys[1].account_address[0], 1);
    assert_eq!(&w.unique_keys[1].account_address[1..], &[0; 19]);
    for key in &w.unique_keys {
        let leaf = SessionKeyLeaf {
            account_address: key.account_address,
            key_index: key.key_index,
            pubkey_x: key.pubkey_x,
            pubkey_y: key.pubkey_y,
        };
        check_existence(&key.merkle_proof, w.session_key_root, &leaf);
    }
    for o in &w.orders {
        let key = &w.unique_keys[o.key_idx as usize];
        assert!(schnorr_equation(
            &SepticPoint::new(Fp7(key.pubkey_x), Fp7(key.pubkey_y)),
            &o.signature_r_x,
            &o.signature_r_y,
            &o.signature_s,
            &o.challenge_e
        ));
    }
}

#[test]
fn dedup_batches_with_entries_are_built() {
    let w = build_batch_septic_dedup_batch_input(2, 2, 3);
    assert_eq!(w.entries.len(), 2);
    for (entry, key) in w.entries.iter().zip(&w.unique_keys) {
        let leaf = SessionKeyLeaf {
            account_address: key.account_address,
            key_index: key.key_index,
            pubkey_x: key.pubkey_x,
            pubkey_y: key.pubkey_y,
        };
        assert_eq!(entry.value, encode_session_key_leaf(&leaf));
        assert_eq!(entry.key_hash, session_key_hash(&leaf.account_address, 0));
        check_existence(&entry.proof, w.session_key_root, &leaf);
    }
    let mut used: Vec<u32> = w.orders.iter().map(|o| o.key_idx).collect();
    used.sort();
    assert_eq!(used, vec![0, 1]);
}

#[test]
fn report_figures() {
    assert_eq!(total_cycles(31329085, 6004), 31335089);
    assert_eq!(gas_estimate(4404296, 99063441, 31335089), 13923838);
    assert_eq!(gas_estimate(u64::MAX, u64::MAX, 1), 1);
    let sorted = sort_sections(vec![
        ("a".to_string(), 3),
        ("b".to_string(), 9),
        ("c".to_string(), 0),
        ("d".to_string(), 9),
    ]);
    let cycles: Vec<u64> = sorted.iter().map(|s| s.1).collect();
    assert_eq!(cycles, vec![9, 9, 3, 0]);
    assert_eq!(sorted[3].0, "c");
    assert!(sort_sections(vec![]).is_empty());
}

#[test]
fn single_signature_cases() {
    let w = register_key_case().expect("registered");
    assert_eq!(w.old_session_key_root, EMPTY_ROOT);
    assert!(w.old_leaf.is_none());

    let w = verify_order_case().expect("built");
    let leaf = SessionKeyLeaf {
        account_address: w.order.account_address,
        key_index: 0,
        pubkey_x: w.session_key.pubkey_x,
        pubkey_y: w.session_key.pubkey_y,
    };
    check_existence(&w.merkle_proof, w.session_key_root, &leaf);

    let w = verify_order_septic_case().expect("built");
    let leaf = SessionKeyLeaf {
        account_address: w.bench.order.account_address,
        key_index: 0,
        pubkey_x: w.bench.order.pubkey_x.0,
        pubkey_y: w.bench.order.pubkey_y.0,
    };
    check_existence(&w.merkle_proof, w.session_key_root, &leaf);

    assert_eq!(verify_merkle_case(2).expect("built").orders.len(), 2);
    run_program(verify_order_eth_case().expect("built")).expect("accepted");
    run_program(batch_eth_case(2).expect("built")).expect("accepted");
}

#[test]
fn requests_of_the_backend() {
    let mut app = AppState::new();
    let request = RegisterKeyRequest {
        account_address: [0xab; 20],
        key_index: 4,
        pubkey_x: [1; 7],
        pubkey_y: [2; 7],
        eth_signature_hex: "00".to_string(),
    };
    let order = SignedOrder {
        account_address: [0xab; 20],
        key_index: 4,
        market: "ETH/USDC".to_string(),
        side: "BUY".to_string(),
        price: 1,
        quantity: 2,
        signature_r_x: [0; 7],
        signature_r_y: [0; 7],
        signature_s: [0; 8],
        challenge_e: [0; 8],
    };
    assert!(order_request(&app, order.clone()).is_none());
    let w = register_request(&mut app, request).expect("registered");
    assert_eq!(w.request.key_index, 4);
    assert_eq!(w.new_session_key_root, app.current_root);
    let w = order_request(&app, order.clone()).expect("registered");
    assert_eq!(w.session_key.pubkey_x, [1; 7]);
    assert_eq!(w.session_key_root, app.current_root);
    let leaf = SessionKeyLeaf {
        account_address: [0xab; 20],
        key_index: 4,
        pubkey_x: [1; 7],
        pubkey_y: [2; 7],
    };
    check_existence(&w.merkle_proof, w.session_key_root, &leaf);
    let mut other = order;
    other.key_index = 5;
    assert!(order_request(&app, other).is_none());
}

#[test]
fn given_nonces_fix_the_signatures() {
    let fix = TestFixtures::new();
    let seven = [7, 0, 0, 0, 0, 0, 0, 0];
    let commitment = SepticPoint::generator().scalar_mul(&seven);
    let bench = build_bench_with(&fix.session, &seven, &fix.eth_key.address, 5, 6).expect("bench");
    assert_eq!(bench.order.signature.r_x, commitment.x);
    assert_eq!(bench.order.signature.r_y, commitment.y);
    assert_eq!((bench.order.price, bench.order.quantity), (5, 6));
    assert!(build_bench_with(&fix.session, &[0; 8], &fix.eth_key.address, 5, 6).is_none());
    assert!(build_bench_with(&fix.session, &GROUP_ORDER, &fix.eth_key.address, 5, 6).is_none());

    let mut app = AppState::new();
    build_register_key_input(&fix, &mut app).expect("registered");
    let proof = app.get_key_proof(fix.eth_key.address, 0).expect("proof");
    let w = verify_order_input_with(&fix, proof.clone(), &seven).expect("order");
    assert_eq!(w.order.signature_r_x, commitment.x.0);
    assert_eq!(w.merkle_proof, proof.proof);
    assert!(verify_order_input_with(&fix, proof.clone(), &[0; 8]).is_none());
    let w = verify_order_septic_input_with(&fix, proof.clone(), &seven).expect("order");
    assert_eq!(w.bench.order.signature.r_x, commitment.x);
    assert_eq!(w.session_key_root, app.current_root);
    assert!(verify_order_septic_input_with(&fix, proof, &[0; 8]).is_none());
}

#[test]
fn trees_are_planted_from_given_keys() {
    let sessions = vec![
        SessionPair::from_scalar([3, 0, 0, 0, 0, 0, 0, 0]),
        SessionPair::from_scalar([4, 0, 0, 0, 0, 0, 0, 0]),
    ];
    let tree = plant(sessions.clone());
    let again = plant(sessions.clone());
    assert_eq!(tree.root, again.root);
    let order = make_order_with(&sessions[1], &[9, 0, 0, 0, 0, 0, 0, 0], 1, 1).expect("order");
    assert_eq!((order.key_idx, order.price, order.quantity), (1, 2_000_001, 101));
    assert!(make_order_with(&sessions[1], &[0; 8], 1, 1).is_none());
    let w = dedup_input_of(&tree, vec![order.clone()], 2);
    assert_eq!(w.session_key_root, tree.root);
    for (i, key) in w.unique_keys.iter().enumerate() {
        let leaf = SessionKeyLeaf {
            account_address: key.account_address,
            key_index: 0,
            pubkey_x: sessions[i].pubkey.x.0,
            pubkey_y: sessions[i].pubkey.y.0,
        };
        check_existence(&key.merkle_proof, tree.root, &leaf);
    }
    let w = dedup_batch_input_of(&tree, vec![order], 1);
    assert_eq!(w.entries.len(), 1);
    assert_eq!(w.unique_keys[0].pubkey_x, sessions[0].pubkey.x.0);
}

#[test]
fn an_empty_merkle_batch_needs_only_the_key() {
    let fix = TestFixtures::new();
    let mut app = AppState::new();
    assert!(build_batch_septic_verify_merkle_input(&fix, &app, 0).is_none());
    build_register_key_input(&fix, &mut app).expect("registered");
    let w = build_batch_septic_verify_merkle_input(&fix, &app, 0).expect("batch");
    assert!(w.orders.is_empty());
    assert_eq!(w.session_key_root, app.current_root);
}

#[test]
fn batches_follow_their_draws() {
    let fix = TestFixtures::new();
    let five = SessionPair::from_scalar([5, 0, 0, 0, 0, 0, 0, 0]);
    let six = SessionPair::from_scalar([6, 0, 0, 0, 0, 0, 0, 0]);
    let seven = [7, 0, 0, 0, 0, 0, 0, 0];
    let eight = [8, 0, 0, 0, 0, 0, 0, 0];
    let mut draws = vec![(five, seven), (six, eight)];
    let orders = batch_orders_with(&[9; 20], &draws).expect("orders");
    assert_eq!(orders.len(), 2);
    assert_eq!(orders[1].order.pubkey_x, six.pubkey.x);
    assert_eq!(orders[1].order.signature.r_x, SepticPoint::generator().scalar_mul(&eight).x);
    assert_eq!((orders[1].order.price, orders[1].order.quantity), (2_000_001, 101));
    draws[0].1 = GROUP_ORDER;
    assert!(batch_orders_with(&[9; 20], &draws).is_none());

    let sessions = vec![five, six];
    let picks = vec![0, 0, 1];
    let mut nonces = vec![seven, eight, seven];
    let orders = dedup_orders_with(&sessions, &picks, &nonces, 2).expect("orders");
    let indices: Vec<u32> = orders.iter().map(|o| o.key_idx).collect();
    assert_eq!(indices, [0, 1, 1]);
    assert_eq!(orders[2].price, 2_000_002);
    nonces[2] = [0; 8];
    assert!(dedup_orders_with(&sessions, &picks, &nonces, 2).is_none());

    let mut app = AppState::new();
    build_register_key_input(&fix, &mut app).expect("registered");
    let proof = app.get_key_proof(fix.eth_key.address, 0).expect("proof");
    let w = verify_merkle_input_with(&fix, &proof, &vec![seven, eight]).expect("batch");
    assert_eq!(w.session_key_root, app.current_root);
    assert_eq!(w.orders[1].merkle_proof, proof.proof);
    assert_eq!(w.orders[0].bench.order.signature.r_x, SepticPoint::generator().scalar_mul(&seven).x);
    assert!(verify_merkle_input_with(&fix, &proof, &nonces).is_none());
}

#[test]
fn an_empty_eth_batch_always_comes() {
    match batch_eth_case(0).expect("batch") {
        ProgramInput::BatchEth(w) => assert!(w.orders.is_empty()),
        _ => panic!("another input"),
    }
}
