//! What the registered keys and their tree hold, and that what they prove is accepted.
use crate::builders;
use crate::builders::TestFixtures;
use crate::dedup;
use crate::dedup::SessionTree;
use crate::guest;
use crate::guest::GuestError;
use crate::laws::checks;
use crate::laws::inputs;
use crate::laws::program;
use crate::laws::signing;
use crate::laws::texts;
use crate::laws::tree_program;
use crate::laws::trees;
use crate::merkle;
use crate::poseidon2_hasher;
use crate::profile;
use crate::state;
use crate::state::{AppState, KeyProofResult, RegisterKeyResult};
use crate::tree_guest;
use crate::types::{
    DedupOrder, ProgramInput, ProofOutput, RegisterKeyRequest, SessionKey, SessionKeyLeaf,
    SignedOrder,
};
use crate::witness;
use crate::witness::{
    JmtDedupBatchWitness, JmtDedupWitness, JmtOrderSepticWitness, JmtOrderWitness,
    JmtRegisterKeyWitness, JmtVerifyMerkleWitness,
};
use vstd::prelude::*;
use vstd::string::*;

verus! {

// ── Leaves ────────────────────────────────────────────────────────────────

/// The leaf of a key of an account reads as the account, the index of the key and the key.
pub proof fn lemma_leaf_of(account: Seq<u8>, key: SessionKey)
    requires
        account.len() == 20,
    ensures
        texts::leaf_reads(
            state::leaf_of(account, key),
            account,
            key.key_index,
            key.pubkey_x@,
            key.pubkey_y@,
        ),
{
    texts::lemma_leaf(
        state::leaf_of(account, key),
        account,
        key.key_index,
        key.pubkey_x@,
        key.pubkey_y@,
    );
}

/// The leaf of a request reads as the request, and that of the fixtures as the session key with
/// index 0.
pub proof fn lemma_request_leaf(q: RegisterKeyRequest, fix: TestFixtures)
    ensures
        texts::leaf_reads(
            state::leaf_of(q.account_address@, witness::request_key(q)),
            q.account_address@,
            q.key_index,
            q.pubkey_x@,
            q.pubkey_y@,
        ),
        texts::leaf_reads(
            state::leaf_of(fix.eth_key.address@, builders::fixture_key(fix)),
            fix.eth_key.address@,
            0,
            fix.session.pubkey.x.0@,
            fix.session.pubkey.y.0@,
        ),
{
    lemma_leaf_of(q.account_address@, witness::request_key(q));
    lemma_leaf_of(fix.eth_key.address@, builders::fixture_key(fix));
}

/// The root of the empty tree is a text in its codes, and its proof is five zeros.
pub proof fn lemma_empty_tree()
    ensures
        texts::codes_of(state::EMPTY_ROOT@, "SPARSE_MERKLE_PLACEHOLDER_HASH__"@),
        program::blank(state::no_proof(), 5),
{
    reveal_strlit("SPARSE_MERKLE_PLACEHOLDER_HASH__");
}

/// The value of a slot is the last one that was put there.
pub proof fn lemma_value_of(
    contents: Map<Seq<u8>, Seq<u8>>,
    place: Seq<u8>,
    value: Seq<u8>,
    other: Seq<u8>,
)
    ensures
        state::value_of(contents.insert(place, value), place) == Some(value),
        other != place ==> state::value_of(contents.insert(place, value), other)
            == state::value_of(contents, other),
        state::value_of(Map::empty(), place) is None,
{
}

/// What a lookup says of a slot: an error stays one, a slot without a value has no leaf, and a
/// value of 77 bytes or more is read as a leaf.
pub proof fn lemma_old_leaf(
    lookup: Result<(Option<Vec<u8>>, Vec<u8>), String>,
    r: Result<(Option<SessionKeyLeaf>, Vec<u8>), String>,
)
    requires
        call_ensures(state::old_leaf, (lookup,), r),
    ensures
        lookup matches Err(e) ==> (r matches Err(m) && m@ == "get_with_proof: "@ + e@),
        lookup matches Ok((None, p)) ==> (r matches Ok(t) && t.0 is None && t.1@ == p@),
        lookup matches Ok((Some(v), p)) ==> {
            &&& r is Ok <==> v@.len() >= 77
            &&& r matches Ok(t) ==> t.1@ == p@ && (t.0 matches Some(l) && texts::leaf_reads(
                v@.subrange(0, 77),
                l.account_address@,
                l.key_index,
                l.pubkey_x@,
                l.pubkey_y@,
            ))
        },
{
    match lookup {
        Ok((Some(v), p)) => {
            match r {
                Ok((Some(l), _)) => {
                    texts::lemma_leaf(
                        v@.subrange(0, 77),
                        l.account_address@,
                        l.key_index,
                        l.pubkey_x@,
                        l.pubkey_y@,
                    );
                },
                _ => {},
            }
        },
        _ => {},
    }
}

// ── Registered keys ───────────────────────────────────────────────────────

/// No other registered key has the slot of this one.
pub open spec fn own_slot(
    keys: Map<(Seq<u8>, u8), SessionKey>,
    account: Seq<u8>,
    key_index: u8,
) -> bool {
    forall|other: (Seq<u8>, u8)| #[trigger]
        keys.contains_key(other) && other != (account, key_index) ==> merkle::slot(
            other.0,
            other.1,
        ) != merkle::slot(account, key_index)
}

/// There is a proof exactly for a registered key.  It shows, under the current root, the key that
/// is registered for this account and this index, and an order of theirs that the key has signed
/// is accepted with it.
#[verifier::spinoff_prover]
#[verifier::rlimit(60)]
pub proof fn lemma_key_proof(
    app: &AppState,
    account: [u8; 20],
    key_index: u8,
    p: Option<KeyProofResult>,
    o: SignedOrder,
    w: JmtOrderWitness,
    r: Result<ProofOutput, GuestError>,
)
    requires
        app.wf(),
        call_ensures(AppState::get_key_proof, (app, account, key_index), p),
    ensures
        p is Some <==> app.session_keys@.contains_key((account@, key_index)),
        p matches Some(proved) ==> {
            &&& proved.root@ == app.current_root@
            &&& proved.key == app.session_keys@[(account@, key_index)]
            &&& own_slot(app.session_keys@, account@, key_index) ==> tree_program::shown(
                account@,
                key_index,
                proved.key.pubkey_x@,
                proved.key.pubkey_y@,
                app.current_root@,
                proved.proof@,
            )
            &&& own_slot(app.session_keys@, account@, key_index) && o.account_address@ == account@
                && o.key_index == key_index && checks::challenge_fits(o, proved.key.pubkey_x@) && checks::equation_fits(
                o,
                proved.key,
            ) && call_ensures(witness::order_witness, (o, proved), w) && call_ensures(
                tree_guest::handle_verify_order,
                (w,),
                r,
            ) ==> r is Ok
        },
{
    let k = (account@, key_index);
    match p {
        Some(proved) => {
            assert(app.session_keys@.contains_key(k));
            assert(state::consistent(app.session_keys@, app.contents()));
            assert(proved.key.key_index == key_index);
            if own_slot(app.session_keys@, account@, key_index) {
                assert(state::unshared(app.session_keys@, k));
                tree_program::lemma_member(
                    account@,
                    key_index,
                    proved.key.pubkey_x@,
                    proved.key.pubkey_y@,
                    app.current_root@,
                    proved.proof@,
                );
                if call_ensures(witness::order_witness, (o, proved), w) && call_ensures(
                    tree_guest::handle_verify_order,
                    (w,),
                    r,
                ) {
                    tree_program::lemma_order(w, r);
                }
            }
        },
        None => {},
    }
}

/// In a well-formed state every value of the tree is the leaf of a registered key, at the slot of
/// its account and index.
pub proof fn lemma_values(app: AppState, place: Seq<u8>)
    requires
        app.wf(),
        app.contents().contains_key(place),
    ensures
        exists|k: (Seq<u8>, u8)| #[trigger]
            app.session_keys@.contains_key(k) && place == merkle::slot(k.0, k.1)
                && texts::leaf_reads(
                app.contents()[place],
                k.0,
                k.1,
                app.session_keys@[k].pubkey_x@,
                app.session_keys@[k].pubkey_y@,
            ),
{
    assert(state::held(app.session_keys@, place, app.contents()[place]));
    let k = choose|k: (Seq<u8>, u8)| #[trigger]
        app.session_keys@.contains_key(k) && merkle::slot(k.0, k.1) == place
            && app.contents()[place] == state::leaf_of(k.0, app.session_keys@[k]);
    lemma_leaf_of(k.0, app.session_keys@[k]);
}

/// A registration puts the key in its place and leaves the other keys and slots as they were.  The
/// roots of its result are those before and after, and its old proof shows what was at the slot,
/// so that the witness of a signed request is accepted.
#[verifier::spinoff_prover]
#[verifier::rlimit(60)]
pub proof fn lemma_register_key(
    app: &mut AppState,
    account: [u8; 20],
    key: SessionKey,
    r: Result<RegisterKeyResult, String>,
    other: (Seq<u8>, u8),
    place: Seq<u8>,
    q: RegisterKeyRequest,
    w: JmtRegisterKeyWitness,
    out: Result<ProofOutput, GuestError>,
)
    requires
        old(app).wf(),
        old(app).version < u64::MAX - 1,
        call_ensures(AppState::register_key, (app, account, key), r),
    ensures
        r is Ok,
        final(app).wf(),
        final(app).session_keys@.contains_key((account@, key.key_index)),
        final(app).session_keys@[(account@, key.key_index)] == key,
        other != (account@, key.key_index) ==> {
            &&& final(app).session_keys@.contains_key(other) <==> old(
                app,
            ).session_keys@.contains_key(other)
            &&& old(app).session_keys@.contains_key(other) ==> final(app).session_keys@[other]
                == old(app).session_keys@[other]
        },
        place == merkle::slot(account@, key.key_index) ==> (state::value_of(
            final(app).contents(),
            place,
        ) matches Some(v) && texts::leaf_reads(
            v,
            account@,
            key.key_index,
            key.pubkey_x@,
            key.pubkey_y@,
        )),
        place != merkle::slot(account@, key.key_index) ==> state::value_of(
            final(app).contents(),
            place,
        ) == state::value_of(old(app).contents(), place),
        r matches Ok(result) ==> {
            &&& result.old_root@ == old(app).current_root@
            &&& result.new_root@ == final(app).current_root@
            &&& q.account_address@ == account@ && q.key_index == key.key_index && call_ensures(
                witness::register_witness,
                (q, result),
                w,
            ) && call_ensures(tree_guest::handle_register_key, (w,), out) ==> (out is Ok
                <==> program::request_signed(q))
        },
{
    lemma_leaf_of(account@, key);
    match r {
        Ok(result) => {
            if q.account_address@ == account@ && q.key_index == key.key_index && call_ensures(
                witness::register_witness,
                (q, result),
                w,
            ) && call_ensures(tree_guest::handle_register_key, (w,), out) {
                let slot = merkle::slot(account@, key.key_index);
                assert(witness::old_value(w.old_leaf) == state::value_of(
                    old(app).contents(),
                    slot,
                ));
                assert(tree_guest::register_refusal(w) == guest::register_signer_refusal(q));
                program::lemma_request_signed(q);
            }
        },
        Err(_) => {},
    }
}

/// Registering a request registers its key under its account and index, and the witness is
/// accepted exactly when the account has signed the request.
#[verifier::spinoff_prover]
#[verifier::rlimit(60)]
pub proof fn lemma_register_request(
    app: &mut AppState,
    q: RegisterKeyRequest,
    r: Result<JmtRegisterKeyWitness, String>,
    out: Result<ProofOutput, GuestError>,
)
    requires
        old(app).wf(),
        old(app).version < u64::MAX - 1,
        call_ensures(witness::register_request, (app, q), r),
    ensures
        r is Ok,
        final(app).wf(),
        final(app).session_keys@.contains_key((q.account_address@, q.key_index)),
        final(app).session_keys@[(q.account_address@, q.key_index)].pubkey_x == q.pubkey_x,
        final(app).session_keys@[(q.account_address@, q.key_index)].pubkey_y == q.pubkey_y,
        r matches Ok(w) ==> {
            &&& w.request == q
            &&& w.old_session_key_root@ == old(app).current_root@
            &&& w.new_session_key_root@ == final(app).current_root@
            &&& call_ensures(tree_guest::handle_register_key, (w,), out) ==> (out is Ok
                <==> program::request_signed(q))
        },
{
    match r {
        Ok(w) => {
            if call_ensures(tree_guest::handle_register_key, (w,), out) {
                assert(tree_guest::register_refusal(w) == guest::register_signer_refusal(q));
                program::lemma_request_signed(q);
            }
        },
        Err(_) => {},
    }
}

/// There is a witness for an order exactly when the key of its account and index is registered;
/// it carries that key and the current root, and is accepted exactly when the key has signed the
/// order, unless another key has the same slot.
#[verifier::spinoff_prover]
#[verifier::rlimit(60)]
pub proof fn lemma_order_request(
    app: &AppState,
    o: SignedOrder,
    r: Option<JmtOrderWitness>,
    out: Result<ProofOutput, GuestError>,
)
    requires
        app.wf(),
        call_ensures(witness::order_request, (app, o), r),
    ensures
        r is Some <==> app.session_keys@.contains_key((o.account_address@, o.key_index)),
        r matches Some(w) ==> {
            &&& w.order == o
            &&& w.session_key == app.session_keys@[(o.account_address@, o.key_index)]
            &&& w.session_key_root@ == app.current_root@
            &&& own_slot(app.session_keys@, o.account_address@, o.key_index) && call_ensures(
                tree_guest::handle_verify_order,
                (w,),
                out,
            ) ==> (out is Ok <==> checks::challenge_fits(o, w.session_key.pubkey_x@)
                && checks::equation_fits(o, w.session_key))
        },
{
    let k = (o.account_address@, o.key_index);
    match r {
        Some(w) => {
            assert(state::consistent(app.session_keys@, app.contents()));
            assert(app.session_keys@.contains_key(k));
            if own_slot(app.session_keys@, o.account_address@, o.key_index) {
                assert(state::unshared(app.session_keys@, k));
                tree_program::lemma_member(
                    o.account_address@,
                    o.key_index,
                    w.session_key.pubkey_x@,
                    w.session_key.pubkey_y@,
                    w.session_key_root@,
                    w.merkle_proof@,
                );
                if call_ensures(tree_guest::handle_verify_order, (w,), out) {
                    tree_program::lemma_order(w, out);
                }
            }
        },
        None => {},
    }
}

// ── Fixtures ──────────────────────────────────────────────────────────────

/// What the account of the fixtures signs to register its key is the text of this registration
/// with index 0, and what it signs for an order is the text of a buy order on `ETH/USDC`.
pub proof fn lemma_fixture_texts(fix: TestFixtures, price: u64, quantity: u64, t: Seq<char>)
    ensures
        texts::register_reads(
            t,
            fix.eth_key.address@,
            fix.session.pubkey.x.0@,
            fix.session.pubkey.y.0@,
            0,
        ) ==> builders::register_bytes(fix) == vstd::utf8::encode_utf8(t),
        texts::order_reads(t, "ETH/USDC"@, "BUY"@, price, quantity, fix.eth_key.address@)
            ==> builders::order_bytes(fix.eth_key.address@, price, quantity)
            == vstd::utf8::encode_utf8(t),
{
    texts::lemma_register_text(
        t,
        fix.eth_key.address@,
        fix.session.pubkey.x.0@,
        fix.session.pubkey.y.0@,
        0,
    );
    texts::lemma_order_text(t, "ETH/USDC"@, "BUY"@, price, quantity, fix.eth_key.address@);
}

/// Registering the key of the fixtures registers it under the account with index 0, with a request
/// that the account has signed, and the witness is accepted.
#[verifier::spinoff_prover]
#[verifier::rlimit(60)]
pub proof fn lemma_register_input(
    fix: &TestFixtures,
    app: &mut AppState,
    r: Result<JmtRegisterKeyWitness, String>,
    out: Result<ProofOutput, GuestError>,
)
    requires
        fix.wf(),
        old(app).wf(),
        old(app).version < u64::MAX - 1,
        call_ensures(builders::build_register_key_input, (fix, app), r),
    ensures
        r matches Ok(w) ==> {
            let k = (fix.eth_key.address@, 0u8);
            &&& final(app).wf()
            &&& final(app).session_keys@.contains_key(k)
            &&& final(app).session_keys@[k].pubkey_x@ == fix.session.pubkey.x.0@
            &&& final(app).session_keys@[k].pubkey_y@ == fix.session.pubkey.y.0@
            &&& w.request.account_address@ == fix.eth_key.address@
            &&& w.request.key_index == 0
            &&& w.request.pubkey_x@ == fix.session.pubkey.x.0@
            &&& w.request.pubkey_y@ == fix.session.pubkey.y.0@
            &&& program::request_signed(w.request)
            &&& call_ensures(tree_guest::handle_register_key, (w,), out) ==> (out matches Ok(o)
                && o.old_session_key_root@ == old(app).current_root@ && o.new_session_key_root@
                == final(app).current_root@)
        },
        r is Err ==> *final(app) == *old(app),
{
    match r {
        Ok(w) => {
            program::lemma_request_signed(w.request);
        },
        Err(_) => {},
    }
}

/// The inputs with orders of the registered key of the fixtures exist exactly when there is one,
/// hold signed orders and the current root, and are accepted where the key of the fixtures is the
/// registered one and no other key has its slot.
#[verifier::spinoff_prover]
#[verifier::rlimit(80)]
pub proof fn lemma_order_inputs(
    fix: &TestFixtures,
    app: &AppState,
    single: Option<JmtOrderWitness>,
    septic: Option<JmtOrderSepticWitness>,
    out: Result<ProofOutput, GuestError>,
)
    requires
        fix.wf(),
        app.wf(),
        call_ensures(builders::build_verify_order_input, (fix, app), single),
        call_ensures(builders::build_verify_order_septic_input, (fix, app), septic),
    ensures
        single is Some <==> app.session_keys@.contains_key((fix.eth_key.address@, 0)),
        septic is Some <==> app.session_keys@.contains_key((fix.eth_key.address@, 0)),
        single matches Some(w) ==> {
            &&& inputs::single_order_signed(w.order, fix.session, fix.eth_key.address@)
            &&& w.session_key == app.session_keys@[(fix.eth_key.address@, 0)]
            &&& w.session_key_root@ == app.current_root@
            &&& own_slot(app.session_keys@, fix.eth_key.address@, 0) && w.session_key.pubkey_x@
                == fix.session.pubkey.x.0@ && w.session_key.pubkey_y@ == fix.session.pubkey.y.0@
                && call_ensures(tree_guest::handle_verify_order, (w,), out) ==> out is Ok
        },
        septic matches Some(w) ==> {
            &&& signing::buy_order_signed(
                w.bench,
                fix.session.pubkey,
                fix.eth_key.address@,
                2000000,
                100,
            )
            &&& w.session_key_root@ == app.current_root@
        },
{
    let account = fix.eth_key.address@;
    signing::lemma_pair(fix.session);
    match single {
        Some(w) => {
            inputs::lemma_order_built(w.order, fix.session, account);
            assert(state::consistent(app.session_keys@, app.contents()));
            assert(app.session_keys@.contains_key((account, 0u8)));
            if own_slot(app.session_keys@, account, 0) && w.session_key.pubkey_x@
                == fix.session.pubkey.x.0@ && w.session_key.pubkey_y@ == fix.session.pubkey.y.0@
                && call_ensures(tree_guest::handle_verify_order, (w,), out) {
                assert(state::unshared(app.session_keys@, (account, 0u8)));
                state::lemma_registered(app.session_keys@, app.contents(), (account, 0u8));
                assert(tree_guest::is_member(
                    account,
                    0,
                    w.session_key.pubkey_x@,
                    w.session_key.pubkey_y@,
                    w.session_key_root@,
                    w.merkle_proof@,
                ));
                assert(w.session_key.pubkey_x =~= fix.session.pubkey.x.0);
                assert(w.session_key.pubkey_y =~= fix.session.pubkey.y.0);
                assert(guest::order_signed(w.order, w.session_key));
            }
        },
        None => {},
    }
    match septic {
        Some(w) => {
            signing::lemma_bench_built(w.bench, fix.session.pubkey, account, 2000000, 100);
        },
        None => {},
    }
}

/// The tree of one key has one value, the leaf of the key, at the slot of its account and index 0.
pub proof fn lemma_single_leaf(account: Seq<u8>, key: SessionKey, b: Seq<u8>, place: Seq<u8>)
    requires
        account.len() == 20,
        tree_program::slot_reads(b, account, 0),
    ensures
        profile::single_leaf(account, key).contains_key(place) <==> place
            == poseidon2_hasher::poseidon2_digest(b),
        texts::leaf_reads(
            profile::single_leaf(account, key)[poseidon2_hasher::poseidon2_digest(b)],
            account,
            key.key_index,
            key.pubkey_x@,
            key.pubkey_y@,
        ),
{
    trees::lemma_slot(b, account, 0);
    lemma_leaf_of(account, key);
}

/// The first registration of a fresh key is accepted: it starts from the empty tree, has no old
/// leaf, and ends at the root of the tree of this key alone.
pub proof fn lemma_register_case(
    c: Result<JmtRegisterKeyWitness, String>,
    r: Result<ProofOutput, GuestError>,
)
    requires
        call_ensures(profile::register_key_case, (), c),
    ensures
        c matches Ok(w) ==> {
            &&& w.old_leaf is None
            &&& w.request.key_index == 0
            &&& program::request_signed(w.request)
            &&& call_ensures(tree_guest::handle_register_key, (w,), r) ==> (r matches Ok(out)
                && out.old_session_key_root@ == state::EMPTY_ROOT@)
        },
        c matches Err(m) ==> m@ == "sign failed"@,
{
    match c {
        Ok(w) => {
            program::lemma_request_signed(w.request);
        },
        Err(_) => {},
    }
}

/// The cases with a fresh registered key hold orders that the key has signed, of price 2000000 and
/// quantity 100 or those of their positions, and are accepted.
#[verifier::spinoff_prover]
#[verifier::rlimit(60)]
pub proof fn lemma_order_cases(
    count: usize,
    single: Option<JmtOrderWitness>,
    septic: Option<JmtOrderSepticWitness>,
    many: Option<JmtVerifyMerkleWitness>,
    r: Result<ProofOutput, GuestError>,
)
    requires
        count <= u64::MAX - 2000000,
        call_ensures(profile::verify_order_case, (), single),
        call_ensures(profile::verify_order_septic_case, (), septic),
        call_ensures(profile::verify_merkle_case, (count,), many),
    ensures
        single matches Some(w) ==> {
            &&& w.order.market@ == "ETH/USDC"@ && w.order.side@ == "BUY"@
            &&& w.order.price == 2000000 && w.order.quantity == 100 && w.order.key_index == 0
            &&& call_ensures(tree_guest::handle_verify_order, (w,), r) ==> r is Ok
        },
        septic matches Some(w) ==> {
            &&& w.bench.order.market@ == "ETH/USDC"@ && w.bench.order.side@ == "BUY"@
            &&& w.bench.order.price == 2000000 && w.bench.order.quantity == 100
            &&& w.bench.order.key_index == 0
            &&& call_ensures(tree_guest::handle_verify_order_septic, (w,), r) ==> r is Ok
        },
        many matches Some(w) ==> {
            &&& w.orders@.len() == count
            &&& forall|i: int|
                0 <= i < count ==> (#[trigger] w.orders@[i]).bench.order.price == 2000000 + i
                    && w.orders@[i].bench.order.quantity == 100 + i % 50
                    && w.orders@[i].bench.order.market@ == "ETH/USDC"@
                    && w.orders@[i].bench.order.side@ == "BUY"@
                    && w.orders@[i].bench.order.key_index == 0
            &&& call_ensures(tree_guest::handle_batch_septic_verify_merkle, (w,), r) ==> r is Ok
        },
{
    match many {
        Some(w) => {
            assert forall|i: int| 0 <= i < count implies (
            #[trigger] w.orders@[i]).bench.order.price == 2000000 + i
                && w.orders@[i].bench.order.quantity == 100 + i % 50
                && w.orders@[i].bench.order.market@ == "ETH/USDC"@
                && w.orders@[i].bench.order.side@ == "BUY"@
                && w.orders@[i].bench.order.key_index == 0 by {
                inputs::lemma_prices(i);
                let _ = w.orders[i];
            }
        },
        None => {},
    }
}

/// The cases with orders of a fresh account hold orders that the account has signed, and the
/// program accepts them.
#[verifier::spinoff_prover]
#[verifier::rlimit(60)]
pub proof fn lemma_eth_cases(
    count: usize,
    single: Option<ProgramInput>,
    many: Option<ProgramInput>,
    r: Result<ProofOutput, GuestError>,
)
    requires
        count <= u64::MAX - 2000000,
        call_ensures(profile::verify_order_eth_case, (), single),
        call_ensures(profile::batch_eth_case, (count,), many),
    ensures
        single matches Some(input) ==> {
            &&& input matches ProgramInput::VerifyOrderEth(w) && inputs::eth_buy_order(
                w.order,
                w.order.account_address@,
                2000000,
                100,
            )
            &&& guest::program_outcome(input, r) ==> r is Ok
        },
        many matches Some(input) ==> {
            &&& input matches ProgramInput::BatchEth(w) && w.orders@.len() == count && (forall|
                i: int,
            |
                0 <= i < count ==> inputs::eth_buy_order(
                    #[trigger] w.orders@[i].order,
                    w.orders@[0].order.account_address@,
                    2000000 + i,
                    100 + i % 50,
                ))
            &&& guest::program_outcome(input, r) ==> r is Ok
        },
{
    match single {
        Some(ProgramInput::VerifyOrderEth(w)) => {
            program::lemma_eth_order_signed(w.order, GuestError::OrderSignerMismatch);
        },
        _ => {},
    }
    match many {
        Some(ProgramInput::BatchEth(w)) => {
            assert forall|i: int| 0 <= i < count implies inputs::eth_buy_order(
                #[trigger] w.orders@[i].order,
                w.orders@[0].order.account_address@,
                2000000 + i,
                100 + i % 50,
            ) by {
                let _ = w.orders@[i];
                inputs::lemma_prices(i);
                builders::lemma_eth_order_accepted(
                    w.orders@[i].order,
                    w.orders@[0].order.account_address,
                    builders::price_at(i),
                    builders::quantity_at(i),
                    GuestError::BatchSignerMismatch,
                );
                program::lemma_eth_order_signed(
                    w.orders@[i].order,
                    GuestError::BatchSignerMismatch,
                );
            }
        },
        _ => {},
    }
}

/// The slots of the first keys of a tree all differ.
pub open spec fn own_slots(tree_size: int) -> bool {
    forall|i: int, j: int|
        0 <= i < j < tree_size ==> merkle::slot(#[trigger] dedup::synthetic_address(i as u64), 0)
            != merkle::slot(#[trigger] dedup::synthetic_address(j as u64), 0)
}

/// The keys of a batch of a tree are its first ones, each with the account of its position, index 0
/// and its own point, and each is shown under the root unless two keys of the tree have one slot.
#[verifier::spinoff_prover]
#[verifier::rlimit(60)]
pub proof fn lemma_dedup_keys(
    tree: &SessionTree,
    orders: Vec<DedupOrder>,
    unique_count: usize,
    w: JmtDedupWitness,
    i: int,
)
    requires
        tree.wf(),
        unique_count <= tree.sessions@.len(),
        0 <= i < unique_count,
        call_ensures(dedup::dedup_input_of, (tree, orders, unique_count), w),
    ensures
        w.orders@ == orders@,
        w.session_key_root@ == tree.root@,
        w.unique_keys@.len() == unique_count,
        w.unique_keys@[i].account_address@ == dedup::synthetic_address(i as u64),
        w.unique_keys@[i].key_index == 0,
        w.unique_keys@[i].pubkey_x@ == tree.sessions@[i].pubkey.x.0@,
        w.unique_keys@[i].pubkey_y@ == tree.sessions@[i].pubkey.y.0@,
        own_slots(tree.sessions@.len() as int) ==> tree_program::key_shown(
            w.unique_keys@[i],
            tree.root@,
        ),
{
    let key = w.unique_keys@[i];
    assert(dedup::dedup_key_built(key, tree.sessions@, i));
    if own_slots(tree.sessions@.len() as int) {
        dedup::lemma_session_leaf(tree.sessions@, i);
        tree_program::lemma_member(
            key.account_address@,
            key.key_index,
            key.pubkey_x@,
            key.pubkey_y@,
            tree.root@,
            key.merkle_proof@,
        );
    }
}

/// The same of a batch whose keys are proved together: entry `i` belongs to key `i` and is shown.
#[verifier::spinoff_prover]
#[verifier::rlimit(60)]
pub proof fn lemma_dedup_entries(
    tree: &SessionTree,
    orders: Vec<DedupOrder>,
    unique_count: usize,
    w: JmtDedupBatchWitness,
    i: int,
)
    requires
        tree.wf(),
        unique_count <= tree.sessions@.len(),
        0 <= i < unique_count,
        call_ensures(dedup::dedup_batch_input_of, (tree, orders, unique_count), w),
    ensures
        w.orders@ == orders@,
        w.session_key_root@ == tree.root@,
        w.unique_keys@.len() == unique_count,
        w.entries@.len() == unique_count,
        w.unique_keys@[i].account_address@ == dedup::synthetic_address(i as u64),
        w.unique_keys@[i].key_index == 0,
        w.unique_keys@[i].pubkey_x@ == tree.sessions@[i].pubkey.x.0@,
        w.unique_keys@[i].pubkey_y@ == tree.sessions@[i].pubkey.y.0@,
        tree_program::entry_shown(w.entries@[i], tree.root@),
        own_slots(tree.sessions@.len() as int) ==> tree_program::entry_of(
            w.entries@[i],
            w.unique_keys@[i],
        ),
{
    let key = w.unique_keys@[i];
    let entry = w.entries@[i];
    assert(dedup::key_info_built(key, tree.sessions@, i));
    assert(dedup::entry_built(entry, tree.sessions@, i));
    if own_slots(tree.sessions@.len() as int) {
        dedup::lemma_session_leaf(tree.sessions@, i);
        inputs::lemma_session_leaf(tree.sessions@[i], i as u64);
        assert(entry.value@.subrange(0, 77) =~= entry.value@);
        assert(entry.value@.take(77) =~= entry.value@);
        tree_program::lemma_entry_of(entry, key);
    }
}

/// Batches that share the keys of a random tree hold as many keys and orders as asked, and are
/// accepted unless two keys of the tree have one slot.
#[verifier::spinoff_prover]
#[verifier::rlimit(60)]
pub proof fn lemma_dedup_cases(
    count: usize,
    unique_count: usize,
    tree_size: usize,
    apart: JmtDedupWitness,
    together: JmtDedupBatchWitness,
    r: Result<ProofOutput, GuestError>,
)
    requires
        1 <= unique_count <= tree_size,
        unique_count <= 0x1_0000_0000,
        count <= u64::MAX - 2000000,
        call_ensures(
            dedup::build_batch_septic_dedup_input,
            (count, unique_count, tree_size),
            apart,
        ),
        call_ensures(
            dedup::build_batch_septic_dedup_batch_input,
            (count, unique_count, tree_size),
            together,
        ),
    ensures
        apart.orders@.len() == count && apart.unique_keys@.len() == unique_count,
        together.orders@.len() == count && together.unique_keys@.len() == unique_count
            && together.entries@.len() == unique_count,
        own_slots(tree_size as int) ==> {
            &&& call_ensures(tree_guest::handle_batch_septic_dedup, (apart,), r) ==> r is Ok
            &&& call_ensures(tree_guest::handle_batch_septic_dedup_batch, (together,), r) ==> r
                is Ok
        },
{
    if own_slots(tree_size as int) {
        let s = choose|s: Seq<crate::session::SessionPair>| #[trigger]
            dedup::dedup_built(apart, s, tree_size as int, unique_count as int);
        tree_guest::lemma_dedup_accepted(apart, s, tree_size as int, unique_count as int);
        let t = choose|t: Seq<crate::session::SessionPair>| #[trigger]
            dedup::dedup_batch_built(together, t, tree_size as int, unique_count as int);
        tree_guest::lemma_dedup_batch_accepted(
            together,
            t,
            tree_size as int,
            unique_count as int,
        );
    }
}

} // verus!
