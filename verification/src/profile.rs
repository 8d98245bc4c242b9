//! The single-signature cases of the profiler, each from fresh keys and an empty tree.
use crate::builders;
use crate::builders::{
    build_batch_eth_input, build_batch_septic_verify_merkle_input, build_register_key_input,
    build_verify_order_eth_input, build_verify_order_input, build_verify_order_septic_input,
    TestFixtures,
};
use crate::eth;
use crate::guest;
use crate::merkle;
use crate::messages;
use crate::septic::batch;
use crate::septic::fp7::Fp7;
use crate::septic::point::SepticPoint;
use crate::session;
use crate::state;
use crate::state::AppState;
use crate::tree_guest;
use crate::types::{ProgramInput, SessionKey};
use crate::wallet;
use crate::witness::{
    JmtOrderSepticWitness, JmtOrderWitness, JmtRegisterKeyWitness, JmtVerifyMerkleWitness,
};
use vstd::prelude::*;

verus! {

/// The values of a tree that holds nothing but the leaf of one key, with index 0.
pub open spec fn single_leaf(account: Seq<u8>, key: SessionKey) -> Map<Seq<u8>, Seq<u8>> {
    Map::<Seq<u8>, Seq<u8>>::empty().insert(
        merkle::slot(account, 0),
        state::leaf_of(account, key),
    )
}

/// The root and the proof of the only key of a tree.
pub open spec fn only_key(
    account: Seq<u8>,
    key: SessionKey,
    root: Seq<u8>,
    proof: Seq<u8>,
) -> bool {
    &&& root == state::tree_root(single_leaf(account, key))
    &&& proof == state::tree_proof(single_leaf(account, key), merkle::slot(account, 0))
}

/// The session key of an order that carries it.
pub open spec fn carried_key(pubkey_x: Fp7, pubkey_y: Fp7) -> SessionKey {
    SessionKey { pubkey_x: pubkey_x.0, pubkey_y: pubkey_y.0, key_index: 0 }
}

/// The public point of a session key.
pub open spec fn key_point(key: SessionKey) -> SepticPoint {
    SepticPoint { x: Fp7(key.pubkey_x), y: Fp7(key.pubkey_y), is_infinity: false }
}

/// The account signs the registration of the session key.
pub open spec fn registration_signs(fix: TestFixtures) -> bool {
    wallet::secp256k1_signature(
        fix.eth_key.secret@,
        eth::eip191_digest(builders::register_bytes(fix)),
    ) is Some
}

/// The account signs the first orders of a batch.
pub open spec fn all_sign(fix: TestFixtures, count: int) -> bool {
    forall|i: int|
        0 <= i < count ==> #[trigger] builders::signs(
            fix.eth_key,
            builders::price_at(i),
            builders::quantity_at(i),
        )
}

/// A tree in which nothing but the session key is registered.  There is one exactly when the
/// account signs the registration.
pub fn registered(fix: &TestFixtures) -> (r: Option<AppState>)
    requires
        fix.wf(),
    ensures
        r is Some <==> registration_signs(*fix),
        r matches Some(app) ==> {
            &&& app.wf()
            &&& app.version == 1
            &&& app.contents() == single_leaf(fix.eth_key.address@, builders::fixture_key(*fix))
            &&& app.session_keys@.contains_key((fix.eth_key.address@, 0))
            &&& app.session_keys@[(fix.eth_key.address@, 0)] == builders::fixture_key(*fix)
        },
{
    let mut app = AppState::new();
    match build_register_key_input(fix, &mut app) {
        Ok(_) => Some(app),
        Err(_) => None,
    }
}

/// The first registration of a fresh key.  It fails only when the fresh account does not sign the
/// registration.
pub fn register_key_case() -> (r: Result<JmtRegisterKeyWitness, String>)
    ensures
        exists|fix: TestFixtures|
            #![trigger fix.wf()]
            fix.wf() && (r is Ok <==> registration_signs(fix)) && (r matches Ok(w)
                ==> w.request.account_address == fix.eth_key.address && w.request.pubkey_x
                == fix.session.pubkey.x.0 && w.request.pubkey_y == fix.session.pubkey.y.0),
        r matches Err(m) ==> m@ == "sign failed"@,
        r matches Ok(w) ==> {
            let account = w.request.account_address@;
            let key = SessionKey {
                pubkey_x: w.request.pubkey_x,
                pubkey_y: w.request.pubkey_y,
                key_index: 0,
            };
            &&& w.request.key_index == 0
            &&& w.old_leaf is None
            &&& w.old_proof@ == state::no_proof()
            &&& w.old_session_key_root@ == state::EMPTY_ROOT@
            &&& w.new_session_key_root@ == state::tree_root(single_leaf(account, key))
            &&& tree_guest::register_refusal(w) is None
            &&& wallet::signature_of(
                w.request.eth_signature_hex@,
                eth::eip191_digest(
                    vstd::utf8::encode_utf8(
                        messages::register_text(account, key.pubkey_x@, key.pubkey_y@, 0),
                    ),
                ),
                account,
            )
        },
{
    let fix = TestFixtures::new();
    let mut app = AppState::new();
    let r = build_register_key_input(&fix, &mut app);
    proof {
        if r is Ok {
            app.lemma_root();
        }
    }
    r
}

/// A single order of a fresh registered key.  There is one exactly when the fresh account signs the
/// registration.
pub fn verify_order_case() -> (r: Option<JmtOrderWitness>)
    ensures
        exists|fix: TestFixtures|
            #![trigger fix.wf()]
            fix.wf() && (r is Some <==> registration_signs(fix)) && (r matches Some(w)
                ==> w.order.account_address@ == fix.eth_key.address@ && w.session_key
                == builders::fixture_key(fix)),
        r matches Some(w) ==> {
            let account = w.order.account_address@;
            &&& w.session_key.key_index == 0
            &&& only_key(account, w.session_key, w.session_key_root@, w.merkle_proof@)
            &&& tree_guest::order_refusal(w) is None
            &&& builders::order_built(w.order, key_point(w.session_key), account, 2000000, 100)
        },
{
    let fix = TestFixtures::new();
    match registered(&fix) {
        Some(app) => {
            proof {
                app.lemma_root();
            }
            build_verify_order_input(&fix, &app)
        },
        None => None,
    }
}

/// A single Schnorr order of a fresh registered key.  There is one exactly when the fresh account
/// signs the registration.
pub fn verify_order_septic_case() -> (r: Option<JmtOrderSepticWitness>)
    ensures
        exists|fix: TestFixtures|
            #![trigger fix.wf()]
            fix.wf() && (r is Some <==> registration_signs(fix)) && (r matches Some(w)
                ==> session::bench_built(
                w.bench,
                fix.session.pubkey,
                fix.eth_key.address@,
                2000000,
                100,
            )),
        r matches Some(w) ==> session::bench_built(
            w.bench,
            key_point(carried_key(w.bench.order.pubkey_x, w.bench.order.pubkey_y)),
            w.bench.order.account_address@,
            2000000,
            100,
        ) && batch::bench_verifies(w.bench) && only_key(
            w.bench.order.account_address@,
            carried_key(w.bench.order.pubkey_x, w.bench.order.pubkey_y),
            w.session_key_root@,
            w.merkle_proof@,
        ),
        r matches Some(w) ==> tree_guest::bench_refusal(
            w.bench,
            w.session_key_root@,
            w.merkle_proof@,
            guest::GuestError::SepticMismatch,
        ) is None,
{
    let fix = TestFixtures::new();
    match registered(&fix) {
        Some(app) => {
            proof {
                app.lemma_root();
            }
            build_verify_order_septic_input(&fix, &app)
        },
        None => None,
    }
}

/// A batch of orders of one fresh registered key.  There is one exactly when the fresh account
/// signs the registration.
pub fn verify_merkle_case(count: usize) -> (r: Option<JmtVerifyMerkleWitness>)
    requires
        count <= u64::MAX - 2000000,
    ensures
        exists|fix: TestFixtures|
            #![trigger fix.wf()]
            fix.wf() && (r is Some <==> registration_signs(fix)) && (r matches Some(w)
                ==> w.session_key_root@ == state::tree_root(
                single_leaf(fix.eth_key.address@, builders::fixture_key(fix)),
            ) && forall|i: int|
                0 <= i < count ==> session::bench_built(
                    (#[trigger] w.orders[i]).bench,
                    fix.session.pubkey,
                    fix.eth_key.address@,
                    builders::price_at(i),
                    builders::quantity_at(i),
                )),
        r matches Some(w) ==> {
            &&& w.orders@.len() == count
            &&& forall|i: int|
                0 <= i < count ==> session::bench_built(
                    (#[trigger] w.orders[i]).bench,
                    key_point(
                        carried_key(
                            w.orders[i].bench.order.pubkey_x,
                            w.orders[i].bench.order.pubkey_y,
                        ),
                    ),
                    w.orders[i].bench.order.account_address@,
                    builders::price_at(i),
                    builders::quantity_at(i),
                ) && batch::bench_verifies(w.orders[i].bench) && only_key(
                    w.orders[i].bench.order.account_address@,
                    carried_key(
                        w.orders[i].bench.order.pubkey_x,
                        w.orders[i].bench.order.pubkey_y,
                    ),
                    w.session_key_root@,
                    w.orders[i].merkle_proof@,
                )
            &&& tree_guest::merkle_batch_refusal(w.orders@, w.session_key_root@) is None
        },
{
    let fix = TestFixtures::new();
    match registered(&fix) {
        Some(app) => {
            proof {
                app.lemma_root();
            }
            let r = build_batch_septic_verify_merkle_input(&fix, &app, count);
            proof {
                if let Some(w) = &r {
                    assert forall|i: int| 0 <= i < count implies batch::bench_verifies(
                        (#[trigger] w.orders[i]).bench,
                    ) by {
                        session::lemma_built_verifies(
                            w.orders[i].bench,
                            fix.session.pubkey,
                            fix.eth_key.address@,
                            builders::price_at(i),
                            builders::quantity_at(i),
                        );
                    }
                    tree_guest::lemma_merkle_batch_accepted(w.orders@, w.session_key_root@);
                }
            }
            r
        },
        None => None,
    }
}

/// A batch of orders that a fresh account has signed itself.  There is one exactly when the account
/// signs all of them.
pub fn batch_eth_case(count: usize) -> (r: Option<ProgramInput>)
    requires
        count <= u64::MAX - 2000000,
    ensures
        count == 0 ==> r is Some,
        exists|fix: TestFixtures|
            #![trigger fix.wf()]
            fix.wf() && (r is Some <==> all_sign(fix, count as int)) && (r matches Some(input) ==> (
            input matches ProgramInput::BatchEth(w) && builders::eth_batch_built(
                w.orders@,
                fix.eth_key.address,
            ))),
        r matches Some(input) ==> (input matches ProgramInput::BatchEth(w) && w.orders@.len()
            == count && builders::eth_batch_built(
            w.orders@,
            w.orders@[0].order.account_address,
        ) && guest::eth_batch_refusal(w.orders@) is None),
{
    let fix = TestFixtures::new();
    let r = build_batch_eth_input(&fix, count);
    proof {
        if let Some(ProgramInput::BatchEth(w)) = &r {
            builders::lemma_eth_batch_accepted(w.orders@, fix.eth_key.address);
        }
    }
    r
}

/// A single order that a fresh account has signed itself.  There is one exactly when the account
/// signs it.
pub fn verify_order_eth_case() -> (r: Option<ProgramInput>)
    ensures
        exists|fix: TestFixtures|
            #![trigger fix.wf()]
            fix.wf() && (r is Some <==> builders::signs(fix.eth_key, 2000000, 100)) && (
            r matches Some(input) ==> (input matches ProgramInput::VerifyOrderEth(w)
                && builders::eth_order_built(w.order, fix.eth_key.address, 2000000, 100))),
        r matches Some(input) ==> (input matches ProgramInput::VerifyOrderEth(w)
            && builders::eth_order_built(w.order, w.order.account_address, 2000000, 100)
            && guest::eth_order_refusal(w.order, guest::GuestError::OrderSignerMismatch) is None),
{
    let fix = TestFixtures::new();
    let r = build_verify_order_eth_input(&fix);
    proof {
        if let Some(ProgramInput::VerifyOrderEth(w)) = &r {
            builders::lemma_eth_order_accepted(
                w.order,
                fix.eth_key.address,
                2000000,
                100,
                guest::GuestError::OrderSignerMismatch,
            );
        }
    }
    r
}

} // verus!
