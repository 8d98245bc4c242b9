//! Inputs for profiling: orders and registrations with real signatures.
use crate::algebra::order;
use crate::eth;
use crate::guest;
use crate::merkle;
use crate::messages;
use crate::messages::{order_message, register_key_message};
use crate::septic::batch;
use crate::septic::point::SepticPoint;
use crate::septic::scalar;
use crate::septic::schnorr;
use crate::septic::schnorr::SepticBenchWitness;
use crate::session;
use crate::session::{
    build_bench_with, hash_order, make_session_pair, random_nonce, random_nonces, SessionPair,
};
use crate::state;
use crate::state::{AppState, KeyProofResult};
use crate::types::{
    BatchEthWitness, BatchSepticOptWitness, BatchSepticSingleWitness, BatchSepticVerifyWitness,
    BatchSepticWitness, EthOrderWitness, EthSignedOrder, ProgramInput, RegisterKeyRequest,
    SessionKey, SignedOrder,
};
use crate::tree_guest;
use crate::wallet;
use crate::wallet::{eth_sign_text, EthKey};
use crate::witness::{
    order_witness, register_witness, JmtMerkleOrder, JmtOrderSepticWitness, JmtOrderWitness,
    JmtRegisterKeyWitness, JmtVerifyMerkleWitness,
};
use vstd::prelude::*;
use vstd::string::*;

verus! {

/// An Ethereum key and a session key.
#[derive(Clone, Debug)]
pub struct TestFixtures {
    pub eth_key: EthKey,
    pub session: SessionPair,
}

impl TestFixtures {
    /// Both keys are well-formed, and the session key is not infinity.
    pub open spec fn wf(&self) -> bool {
        self.eth_key.wf() && self.session.wf() && !self.session.pubkey.is_infinity
    }

    /// Random keys.
    pub fn new() -> (fix: TestFixtures)
        ensures
            fix.wf(),
    {
        TestFixtures { eth_key: EthKey::random(), session: make_session_pair() }
    }
}

/// The price of order `i`.
pub open spec fn price_at(i: int) -> u64 {
    (2000000 + i) as u64
}

/// The quantity of order `i`.
pub open spec fn quantity_at(i: int) -> u64 {
    (100 + i % 50) as u64
}

// ── Schnorr batches ───────────────────────────────────────────────────────

/// Order `i` of a batch: a buy order of the account with the price and the quantity of `i`,
/// signed by a key of its own.
pub open spec fn batch_order_built(w: SepticBenchWitness, account: Seq<u8>, i: int) -> bool {
    exists|session: SessionPair|
        #![trigger session.wf()]
        session.wf() && !session.pubkey.is_infinity && session::bench_built(
            w,
            session.pubkey,
            account,
            price_at(i),
            quantity_at(i),
        )
}

/// The orders of a batch for the account.
pub open spec fn batch_built(orders: Seq<SepticBenchWitness>, account: Seq<u8>) -> bool {
    forall|i: int|
        0 <= i < orders.len() ==> batch_order_built(#[trigger] orders[i], account, i)
}

/// The orders of a batch that was built are accepted, one by one and by their combined equation.
pub proof fn lemma_batch_accepted(
    orders: Seq<SepticBenchWitness>,
    account: Seq<u8>,
    mismatch: guest::GuestError,
)
    requires
        batch_built(orders, account),
    ensures
        batch::all_verify(orders),
        guest::batch_refusal(orders, mismatch) is None,
        orders.len() > 0 ==> guest::combined_refusal(orders, mismatch) is None,
{
    assert forall|i: int| 0 <= i < orders.len() implies batch::bench_verifies(#[trigger] orders[i])
        && schnorr::in_subgroup(batch::bench_pubkey(orders[i])@) by {
        let w = orders[i];
        assert(batch_order_built(w, account, i));
        let session = choose|session: SessionPair|
            #![trigger session.wf()]
            session.wf() && !session.pubkey.is_infinity && session::bench_built(
                w,
                session.pubkey,
                account,
                price_at(i),
                quantity_at(i),
            );
        session::lemma_built_verifies(
            w,
            session.pubkey,
            account,
            price_at(i),
            quantity_at(i),
        );
        schnorr::lemma_in_subgroup(
            scalar::value(session.priv_scalar@) as nat,
        );
        assert(batch::bench_pubkey(w)@ == session.pubkey@);
    }
    batch::lemma_batch_complete(orders);
}

/// The pairs are well-formed and none of them is infinity.
pub open spec fn draws_wf(draws: Seq<(SessionPair, [u32; 8])>) -> bool {
    forall|i: int|
        0 <= i < draws.len() ==> (#[trigger] draws[i]).0.wf() && !draws[i].0.pubkey.is_infinity
}

/// The orders of a batch, each signed by its key with its nonce.  There are none when a nonce is a
/// multiple of the group order.
pub fn batch_orders_with(account: &[u8; 20], draws: &Vec<(SessionPair, [u32; 8])>) -> (r: Option<
    Vec<SepticBenchWitness>,
>)
    requires
        draws_wf(draws@),
        draws@.len() <= u64::MAX - 2000000,
    ensures
        r is Some <==> forall|i: int|
            0 <= i < draws@.len() ==> scalar::value((#[trigger] draws@[i]).1@) % (
            order::group_order() as int) != 0,
        r matches Some(orders) ==> {
            &&& orders@.len() == draws@.len()
            &&& batch_built(orders@, account@)
            &&& forall|i: int|
                0 <= i < orders@.len() ==> session::bench_built(
                    #[trigger] orders@[i],
                    draws@[i].0.pubkey,
                    account@,
                    price_at(i),
                    quantity_at(i),
                ) && schnorr::affine(
                    orders@[i].order.signature.r_x.0@,
                    orders@[i].order.signature.r_y.0@,
                ) == order::generator().times(scalar::value(draws@[i].1@) as nat)
        },
{
    let mut orders: Vec<SepticBenchWitness> = Vec::new();
    for i in 0..draws.len()
        invariant
            draws_wf(draws@),
            draws@.len() <= u64::MAX - 2000000,
            orders@.len() == i,
            batch_built(orders@, account@),
            forall|k: int|
                0 <= k < i ==> scalar::value((#[trigger] draws@[k]).1@) % (
                order::group_order() as int) != 0,
            forall|k: int|
                0 <= k < orders@.len() ==> session::bench_built(
                    #[trigger] orders@[k],
                    draws@[k].0.pubkey,
                    account@,
                    price_at(k),
                    quantity_at(k),
                ) && schnorr::affine(
                    orders@[k].order.signature.r_x.0@,
                    orders@[k].order.signature.r_y.0@,
                ) == order::generator().times(scalar::value(draws@[k].1@) as nat),
    {
        let price: u64 = 2000000 + i as u64;
        let quantity: u64 = 100 + (i % 50) as u64;
        let draw = &draws[i];
        match build_bench_with(&draw.0, &draw.1, account, price, quantity) {
            Some(w) => {
                assert(batch_order_built(w, account@, i as int)) by {
                    assert(draws@[i as int].0.wf());
                }
                orders.push(w);
            },
            None => {
                assert(scalar::value(draws@[i as int].1@) % (order::group_order() as int) == 0);
                return None;
            },
        }
    }
    Some(orders)
}

/// Random keys with random nonces.
fn random_draws(count: usize) -> (draws: Vec<(SessionPair, [u32; 8])>)
    ensures
        draws@.len() == count,
        draws_wf(draws@),
        forall|i: int|
            0 <= i < count ==> scalar::value((#[trigger] draws@[i]).1@) % (
            order::group_order() as int) != 0,
{
    let mut draws: Vec<(SessionPair, [u32; 8])> = Vec::new();
    for i in 0..count
        invariant
            draws@.len() == i,
            draws_wf(draws@),
            forall|k: int|
                0 <= k < i ==> scalar::value((#[trigger] draws@[k]).1@) % (
                order::group_order() as int) != 0,
    {
        let pair = make_session_pair();
        let nonce = random_nonce();
        draws.push((pair, nonce));
    }
    draws
}

/// The orders of a batch, each signed by a fresh key.
pub fn build_batch_orders(fix: &TestFixtures, count: usize) -> (orders: Vec<SepticBenchWitness>)
    requires
        fix.wf(),
        count <= u64::MAX - 2000000,
    ensures
        orders@.len() == count,
        batch_built(orders@, fix.eth_key.address@),
{
    let draws = random_draws(count);
    batch_orders_with(&fix.eth_key.address, &draws).unwrap()
}

/// A batch to be checked one by one.
pub fn build_batch_septic_input(fix: &TestFixtures, count: usize) -> (input: ProgramInput)
    requires
        fix.wf(),
        count <= u64::MAX - 2000000,
    ensures
        input matches ProgramInput::BatchSeptic(w) && w.orders@.len() == count && batch_built(
            w.orders@,
            fix.eth_key.address@,
        ),
{
    ProgramInput::BatchSeptic(BatchSepticWitness { orders: build_batch_orders(fix, count) })
}

/// A batch to be checked by one combined equation.
pub fn build_batch_septic_opt_input(fix: &TestFixtures, count: usize) -> (input: ProgramInput)
    requires
        fix.wf(),
        count <= u64::MAX - 2000000,
    ensures
        input matches ProgramInput::BatchSepticOpt(w) && w.orders@.len() == count && batch_built(
            w.orders@,
            fix.eth_key.address@,
        ),
{
    ProgramInput::BatchSepticOpt(BatchSepticOptWitness { orders: build_batch_orders(fix, count) })
}

/// A batch to be checked one by one, each multiple in one call.
pub fn build_batch_septic_single_input(fix: &TestFixtures, count: usize) -> (input: ProgramInput)
    requires
        fix.wf(),
        count <= u64::MAX - 2000000,
    ensures
        input matches ProgramInput::BatchSepticSingle(w) && w.orders@.len() == count && batch_built(
            w.orders@,
            fix.eth_key.address@,
        ),
{
    let orders = build_batch_orders(fix, count);
    ProgramInput::BatchSepticSingle(BatchSepticSingleWitness { orders })
}

/// A batch to be checked by one combined equation, each multiple in one call.
pub fn build_batch_septic_opt_single_input(fix: &TestFixtures, count: usize) -> (input:
    ProgramInput)
    requires
        fix.wf(),
        count <= u64::MAX - 2000000,
    ensures
        input matches ProgramInput::BatchSepticOptSingle(w) && w.orders@.len() == count
            && batch_built(w.orders@, fix.eth_key.address@),
{
    let orders = build_batch_orders(fix, count);
    ProgramInput::BatchSepticOptSingle(BatchSepticOptWitness { orders })
}

/// A batch to be checked one by one, each signature in one call.
pub fn build_batch_septic_verify_input(fix: &TestFixtures, count: usize) -> (input: ProgramInput)
    requires
        fix.wf(),
        count <= u64::MAX - 2000000,
    ensures
        input matches ProgramInput::BatchSepticVerify(w) && w.orders@.len() == count && batch_built(
            w.orders@,
            fix.eth_key.address@,
        ),
{
    let orders = build_batch_orders(fix, count);
    ProgramInput::BatchSepticVerify(BatchSepticVerifyWitness { orders })
}

// ── Orders signed by the account ──────────────────────────────────────────

/// The text of a buy order of the account, in its encoding.
pub open spec fn order_bytes(account: Seq<u8>, price: u64, quantity: u64) -> Seq<u8> {
    vstd::utf8::encode_utf8(
        messages::order_text("ETH/USDC"@, "BUY"@, price, quantity, account),
    )
}

/// A buy order of the account, signed by its key.
pub open spec fn eth_order_built(
    order: EthSignedOrder,
    account: [u8; 20],
    price: u64,
    quantity: u64,
) -> bool {
    &&& order.account_address == account
    &&& order.key_index == 0
    &&& order.market@ == "ETH/USDC"@
    &&& order.side@ == "BUY"@
    &&& order.price == price
    &&& order.quantity == quantity
    &&& wallet::signature_of(
        order.eth_signature_hex@,
        eth::eip191_digest(order_bytes(account@, price, quantity)),
        account@,
    )
}

/// An order that was built is accepted.
pub proof fn lemma_eth_order_accepted(
    order: EthSignedOrder,
    account: [u8; 20],
    price: u64,
    quantity: u64,
    mismatch: guest::GuestError,
)
    requires
        eth_order_built(order, account, price, quantity),
    ensures
        guest::eth_order_refusal(order, mismatch) is None,
{
    wallet::lemma_accepted(
        order_bytes(account@, price, quantity),
        order.eth_signature_hex@,
        account@,
        mismatch,
    );
}

/// Signing a buy order of the account succeeds.
pub open spec fn signs(key: EthKey, price: u64, quantity: u64) -> bool {
    wallet::secp256k1_signature(
        key.secret@,
        eth::eip191_digest(order_bytes(key.address@, price, quantity)),
    ) is Some
}

/// A buy order of the account, signed by its key.
pub fn build_eth_order(key: &EthKey, price: u64, quantity: u64) -> (r: Option<EthSignedOrder>)
    requires
        key.wf(),
    ensures
        r is Some <==> signs(*key, price, quantity),
        r matches Some(order) ==> eth_order_built(order, key.address, price, quantity),
{
    let message = order_message("ETH/USDC", "BUY", price, quantity, &key.address);
    match eth_sign_text(key, message.as_str()) {
        Some(eth_signature_hex) => Some(
            EthSignedOrder {
                account_address: key.address,
                key_index: 0,
                market: "ETH/USDC".to_owned(),
                side: "BUY".to_owned(),
                price,
                quantity,
                eth_signature_hex,
            },
        ),
        None => None,
    }
}

/// A single order signed by the account.
pub fn build_verify_order_eth_input(fix: &TestFixtures) -> (r: Option<ProgramInput>)
    requires
        fix.wf(),
    ensures
        r is Some <==> signs(fix.eth_key, 2000000, 100),
        r matches Some(input) ==> (input matches ProgramInput::VerifyOrderEth(w)
            && eth_order_built(w.order, fix.eth_key.address, 2000000, 100)),
{
    match build_eth_order(&fix.eth_key, 2000000, 100) {
        Some(order) => Some(ProgramInput::VerifyOrderEth(EthOrderWitness { order })),
        None => None,
    }
}

/// The orders of a batch signed by the account.
pub open spec fn eth_batch_built(orders: Seq<EthOrderWitness>, account: [u8; 20]) -> bool {
    forall|i: int|
        0 <= i < orders.len() ==> eth_order_built(
            (#[trigger] orders[i]).order,
            account,
            price_at(i),
            quantity_at(i),
        )
}

/// A batch signed by the account that was built is accepted.
pub proof fn lemma_eth_batch_accepted(orders: Seq<EthOrderWitness>, account: [u8; 20])
    requires
        eth_batch_built(orders, account),
    ensures
        guest::eth_batch_refusal(orders) is None,
{
    lemma_eth_suffix_accepted(orders, account, 0);
    assert(orders.skip(0) =~= orders);
}

proof fn lemma_eth_suffix_accepted(orders: Seq<EthOrderWitness>, account: [u8; 20], i: int)
    requires
        eth_batch_built(orders, account),
        0 <= i <= orders.len(),
    ensures
        guest::eth_batch_refusal(orders.skip(i)) is None,
    decreases orders.len() - i,
{
    if i < orders.len() {
        assert(orders.skip(i)[0] == orders[i]);
        lemma_eth_order_accepted(
            orders[i].order,
            account,
            price_at(i),
            quantity_at(i),
            guest::GuestError::BatchSignerMismatch,
        );
        assert(orders.skip(i).drop_first() =~= orders.skip(i + 1));
        lemma_eth_suffix_accepted(orders, account, i + 1);
    }
}

/// A batch of orders signed by the account.
pub fn build_batch_eth_input(fix: &TestFixtures, count: usize) -> (r: Option<ProgramInput>)
    requires
        fix.wf(),
        count <= u64::MAX - 2000000,
    ensures
        r is Some <==> forall|i: int|
            0 <= i < count ==> #[trigger] signs(fix.eth_key, price_at(i), quantity_at(i)),
        r matches Some(input) ==> (input matches ProgramInput::BatchEth(w) && w.orders@.len()
            == count && eth_batch_built(w.orders@, fix.eth_key.address)),
{
    let mut orders: Vec<EthOrderWitness> = Vec::new();
    for i in 0..count
        invariant
            fix.wf(),
            count <= u64::MAX - 2000000,
            orders@.len() == i,
            eth_batch_built(orders@, fix.eth_key.address),
            forall|k: int|
                0 <= k < i ==> #[trigger] signs(fix.eth_key, price_at(k), quantity_at(k)),
    {
        let price: u64 = 2000000 + i as u64;
        let quantity: u64 = 100 + (i % 50) as u64;
        assert(price == price_at(i as int) && quantity == quantity_at(i as int));
        match build_eth_order(&fix.eth_key, price, quantity) {
            Some(order) => orders.push(EthOrderWitness { order }),
            None => {
                assert(!signs(fix.eth_key, price_at(i as int), quantity_at(i as int)));
                return None;
            },
        }
    }
    Some(ProgramInput::BatchEth(BatchEthWitness { orders }))
}

// ── Inputs with proofs of the tree ────────────────────────────────────────

/// The session key of the fixtures, with index 0.
pub open spec fn fixture_key(fix: TestFixtures) -> SessionKey {
    SessionKey {
        pubkey_x: fix.session.pubkey.x.0,
        pubkey_y: fix.session.pubkey.y.0,
        key_index: 0,
    }
}

/// The text that registers the session key of the fixtures, in its encoding.
pub open spec fn register_bytes(fix: TestFixtures) -> Seq<u8> {
    vstd::utf8::encode_utf8(
        messages::register_text(
            fix.eth_key.address@,
            fix.session.pubkey.x.0@,
            fix.session.pubkey.y.0@,
            0,
        ),
    )
}

/// Registers the session key of the fixtures, with the signature of the account over the
/// request.
pub fn build_register_key_input(fix: &TestFixtures, app: &mut AppState) -> (r: Result<
    JmtRegisterKeyWitness,
    String,
>)
    requires
        fix.wf(),
        old(app).wf(),
        old(app).version < u64::MAX - 1,
    ensures
        r is Ok <==> wallet::secp256k1_signature(
            fix.eth_key.secret@,
            eth::eip191_digest(register_bytes(*fix)),
        ) is Some,
        r matches Ok(w) ==> {
            let slot = merkle::slot(fix.eth_key.address@, 0);
            &&& final(app).wf()
            &&& final(app).version == old(app).version + 1
            &&& final(app).session_keys@ == old(app).session_keys@.insert(
                (fix.eth_key.address@, 0),
                fixture_key(*fix),
            )
            &&& final(app).contents() == old(app).contents().insert(
                slot,
                state::leaf_of(fix.eth_key.address@, fixture_key(*fix)),
            )
            &&& w.request.account_address == fix.eth_key.address
            &&& w.request.key_index == 0
            &&& w.request.pubkey_x == fix.session.pubkey.x.0
            &&& w.request.pubkey_y == fix.session.pubkey.y.0
            &&& wallet::signature_of(
                w.request.eth_signature_hex@,
                eth::eip191_digest(register_bytes(*fix)),
                fix.eth_key.address@,
            )
            &&& w.old_session_key_root == old(app).current_root
            &&& w.new_session_key_root == final(app).current_root
            &&& w.old_leaf is Some <==> old(app).contents().contains_key(slot)
            &&& w.old_leaf matches Some(leaf) ==> leaf.encoding() == old(app).contents()[slot]
            &&& w.old_proof@ == if old(app).version == 0 {
                state::no_proof()
            } else {
                state::tree_proof(old(app).contents(), slot)
            }
            &&& tree_guest::register_refusal(w) is None
        },
        r matches Err(m) ==> m@ == "sign failed"@ && *final(app) == *old(app),
{
    let pubkey_x = fix.session.pubkey.x.0;
    let pubkey_y = fix.session.pubkey.y.0;
    let message = register_key_message(&fix.eth_key.address, &pubkey_x, &pubkey_y, 0);
    let eth_signature_hex = match eth_sign_text(&fix.eth_key, message.as_str()) {
        Some(s) => s,
        None => {
            return Err("sign failed".to_owned());
        },
    };
    let ghost eth_signature = eth_signature_hex@;
    let key = SessionKey { pubkey_x, pubkey_y, key_index: 0 };
    let result = match app.register_key(fix.eth_key.address, key) {
        Ok(result) => result,
        Err(m) => {
            return Err(m);
        },
    };
    let request = RegisterKeyRequest {
        account_address: fix.eth_key.address,
        key_index: 0,
        pubkey_x,
        pubkey_y,
        eth_signature_hex,
    };
    proof {
        wallet::lemma_accepted(
            register_bytes(*fix),
            eth_signature,
            fix.eth_key.address@,
            guest::GuestError::AddressMismatch,
        );
    }
    Ok(register_witness(request, result))
}

/// An order of the account, signed by a session key.
pub open spec fn order_built(
    order: SignedOrder,
    pubkey: SepticPoint,
    account: Seq<u8>,
    price: u64,
    quantity: u64,
) -> bool {
    &&& order.account_address@ == account
    &&& order.key_index == 0
    &&& order.market@ == "ETH/USDC"@
    &&& order.side@ == "BUY"@
    &&& order.price == price
    &&& order.quantity == quantity
    &&& scalar::value(order.challenge_e@) == schnorr::challenge(
        order.signature_r_x@,
        pubkey.x.0@,
        session::order_hash("ETH/USDC"@, "BUY"@, price, quantity, account),
    )
    &&& schnorr::verifies(
        pubkey,
        order.signature_r_x@,
        order.signature_r_y@,
        order.signature_s@,
        order.challenge_e@,
    )
}

/// The proof of the registered key of the account in the current tree.
pub open spec fn proof_of(app: AppState, account: Seq<u8>, root: Seq<u8>, proof: Seq<u8>) -> bool {
    &&& app.session_keys@.contains_key((account, 0))
    &&& root == app.current_root@
    &&& proof == state::tree_proof(app.contents(), merkle::slot(account, 0))
    &&& state::tree_proof_holds(
        root,
        merkle::slot(account, 0),
        Some(app.contents()[merkle::slot(account, 0)]),
        proof,
    )
}

/// A single order of a session key with the given proof, signed with the given nonce.  There is
/// none when the nonce is a multiple of the group order.
pub fn verify_order_input_with(fix: &TestFixtures, proof: KeyProofResult, k_limbs: &[u32; 8]) -> (r:
    Option<JmtOrderWitness>)
    requires
        fix.wf(),
    ensures
        r is Some <==> scalar::value(k_limbs@) % (order::group_order() as int) != 0,
        r matches Some(w) ==> {
            &&& order_built(w.order, fix.session.pubkey, fix.eth_key.address@, 2000000, 100)
            &&& schnorr::affine(w.order.signature_r_x@, w.order.signature_r_y@)
                == order::generator().times(scalar::value(k_limbs@) as nat)
            &&& scalar::value(w.order.signature_s@) == (scalar::value(k_limbs@) - scalar::value(
                w.order.challenge_e@,
            ) * scalar::value(fix.session.priv_scalar@)) % (order::group_order() as int)
            &&& w.session_key == proof.key
            &&& w.session_key_root == proof.root
            &&& w.merkle_proof == proof.proof
        },
{
    let msg_hash = hash_order("ETH/USDC", "BUY", 2000000, 100, &fix.eth_key.address);
    match fix.session.sign_with(k_limbs, &msg_hash) {
        Some((signature_r_x, signature_r_y, signature_s, challenge_e)) => {
            let order = SignedOrder {
                account_address: fix.eth_key.address,
                key_index: 0,
                market: "ETH/USDC".to_owned(),
                side: "BUY".to_owned(),
                price: 2000000,
                quantity: 100,
                signature_r_x,
                signature_r_y,
                signature_s,
                challenge_e,
            };
            Some(order_witness(order, proof))
        },
        None => None,
    }
}

/// A single order of a registered session key.  There is one exactly when the key is registered.
pub fn build_verify_order_input(fix: &TestFixtures, app: &AppState) -> (r: Option<JmtOrderWitness>)
    requires
        fix.wf(),
        app.wf(),
    ensures
        r is Some <==> app.session_keys@.contains_key((fix.eth_key.address@, 0)),
        r matches Some(w) ==> {
            &&& order_built(w.order, fix.session.pubkey, fix.eth_key.address@, 2000000, 100)
            &&& w.session_key == app.session_keys@[(fix.eth_key.address@, 0)]
            &&& proof_of(*app, fix.eth_key.address@, w.session_key_root@, w.merkle_proof@)
        },
{
    let proof = match app.get_key_proof(fix.eth_key.address, 0) {
        Some(proof) => proof,
        None => return None,
    };
    let k = random_nonce();
    verify_order_input_with(fix, proof, &k)
}

/// A single Schnorr order with the given proof, signed with the given nonce, which carries its
/// public key.  There is none when the nonce is a multiple of the group order.
pub fn verify_order_septic_input_with(
    fix: &TestFixtures,
    proof: KeyProofResult,
    k_limbs: &[u32; 8],
) -> (r: Option<JmtOrderSepticWitness>)
    requires
        fix.wf(),
    ensures
        r is Some <==> scalar::value(k_limbs@) % (order::group_order() as int) != 0,
        r matches Some(w) ==> {
            &&& session::bench_built(
                w.bench,
                fix.session.pubkey,
                fix.eth_key.address@,
                2000000,
                100,
            )
            &&& schnorr::affine(w.bench.order.signature.r_x.0@, w.bench.order.signature.r_y.0@)
                == order::generator().times(scalar::value(k_limbs@) as nat)
            &&& scalar::value(w.bench.order.signature.s@) == (scalar::value(k_limbs@)
                - scalar::value(w.bench.challenge_e@) * scalar::value(fix.session.priv_scalar@)) % (
            order::group_order() as int)
            &&& w.session_key_root == proof.root
            &&& w.merkle_proof == proof.proof
        },
{
    match build_bench_with(&fix.session, k_limbs, &fix.eth_key.address, 2000000, 100) {
        Some(bench) => Some(
            JmtOrderSepticWitness {
                bench,
                session_key_root: proof.root,
                merkle_proof: proof.proof,
            },
        ),
        None => None,
    }
}

/// A single Schnorr order of a registered session key, which carries its public key.  There is one
/// exactly when the key is registered.
pub fn build_verify_order_septic_input(fix: &TestFixtures, app: &AppState) -> (r: Option<
    JmtOrderSepticWitness,
>)
    requires
        fix.wf(),
        app.wf(),
    ensures
        r is Some <==> app.session_keys@.contains_key((fix.eth_key.address@, 0)),
        r matches Some(w) ==> {
            &&& session::bench_built(
                w.bench,
                fix.session.pubkey,
                fix.eth_key.address@,
                2000000,
                100,
            )
            &&& proof_of(*app, fix.eth_key.address@, w.session_key_root@, w.merkle_proof@)
        },
{
    let proof = match app.get_key_proof(fix.eth_key.address, 0) {
        Some(proof) => proof,
        None => return None,
    };
    let k = random_nonce();
    verify_order_septic_input_with(fix, proof, &k)
}

/// A batch of orders of one session key, all with the given proof, signed with the given nonces.
/// There is none when a nonce is a multiple of the group order.
pub fn verify_merkle_input_with(
    fix: &TestFixtures,
    proof: &KeyProofResult,
    nonces: &Vec<[u32; 8]>,
) -> (r: Option<JmtVerifyMerkleWitness>)
    requires
        fix.wf(),
        nonces@.len() <= u64::MAX - 2000000,
    ensures
        r is Some <==> session::nonces_sign(nonces@),
        r matches Some(w) ==> {
            &&& w.orders@.len() == nonces@.len()
            &&& w.session_key_root == proof.root
            &&& forall|i: int|
                0 <= i < nonces@.len() ==> session::bench_built(
                    (#[trigger] w.orders@[i]).bench,
                    fix.session.pubkey,
                    fix.eth_key.address@,
                    price_at(i),
                    quantity_at(i),
                ) && schnorr::affine(
                    w.orders@[i].bench.order.signature.r_x.0@,
                    w.orders@[i].bench.order.signature.r_y.0@,
                ) == order::generator().times(scalar::value(nonces@[i]@) as nat)
                    && w.orders@[i].merkle_proof@ == proof.proof@
        },
{
    let mut orders: Vec<JmtMerkleOrder> = Vec::new();
    for i in 0..nonces.len()
        invariant
            fix.wf(),
            nonces@.len() <= u64::MAX - 2000000,
            orders@.len() == i,
            session::nonces_sign(nonces@.take(i as int)),
            forall|k: int|
                0 <= k < i ==> session::bench_built(
                    (#[trigger] orders@[k]).bench,
                    fix.session.pubkey,
                    fix.eth_key.address@,
                    price_at(k),
                    quantity_at(k),
                ) && schnorr::affine(
                    orders@[k].bench.order.signature.r_x.0@,
                    orders@[k].bench.order.signature.r_y.0@,
                ) == order::generator().times(scalar::value(nonces@[k]@) as nat)
                    && orders@[k].merkle_proof@ == proof.proof@,
    {
        let price: u64 = 2000000 + i as u64;
        let quantity: u64 = 100 + (i % 50) as u64;
        match build_bench_with(&fix.session, &nonces[i], &fix.eth_key.address, price, quantity) {
            Some(bench) => {
                let merkle_proof = proof.proof.clone();
                assert(merkle_proof@ =~= proof.proof@);
                orders.push(JmtMerkleOrder { bench, merkle_proof });
            },
            None => {
                assert(scalar::value(nonces@[i as int]@) % (order::group_order() as int) == 0);
                return None;
            },
        }
    }
    assert(nonces@.take(nonces@.len() as int) =~= nonces@);
    Some(JmtVerifyMerkleWitness { orders, session_key_root: proof.root })
}

/// A batch of orders of one registered session key, all with the same proof.  There is one exactly
/// when the key is registered.
pub fn build_batch_septic_verify_merkle_input(
    fix: &TestFixtures,
    app: &AppState,
    count: usize,
) -> (r: Option<JmtVerifyMerkleWitness>)
    requires
        fix.wf(),
        app.wf(),
        count <= u64::MAX - 2000000,
    ensures
        r is Some <==> app.session_keys@.contains_key((fix.eth_key.address@, 0)),
        r matches Some(w) ==> {
            &&& w.orders@.len() == count
            &&& app.session_keys@.contains_key((fix.eth_key.address@, 0))
            &&& w.session_key_root == app.current_root
            &&& forall|i: int|
                0 <= i < count ==> session::bench_built(
                    (#[trigger] w.orders[i]).bench,
                    fix.session.pubkey,
                    fix.eth_key.address@,
                    price_at(i),
                    quantity_at(i),
                ) && proof_of(
                    *app,
                    fix.eth_key.address@,
                    w.session_key_root@,
                    w.orders[i].merkle_proof@,
                )
        },
{
    let proof = match app.get_key_proof(fix.eth_key.address, 0) {
        Some(proof) => proof,
        None => return None,
    };
    let nonces = random_nonces(count);
    verify_merkle_input_with(fix, &proof, &nonces)
}

} // verus!
