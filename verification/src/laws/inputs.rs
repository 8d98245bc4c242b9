//! What the inputs that are built of keys hold, and that the program accepts them.
use crate::algebra::order;
use crate::builders;
use crate::builders::TestFixtures;
use crate::dedup;
use crate::digest;
use crate::guest;
use crate::guest::GuestError;
use crate::laws::program;
use crate::laws::signatures;
use crate::laws::signing;
use crate::laws::texts;
use crate::laws::tree_program;
use crate::merkle;
use crate::septic::schnorr;
use crate::septic::schnorr::SepticBenchWitness;
use crate::session::SessionPair;
use crate::state;
use crate::state::{KeyProofResult, RegisterKeyResult};
use crate::tree_guest;
use crate::types::{
    DedupOrder, EthSignedOrder, ProgramInput, ProofOutput, RegisterKeyRequest, SignedOrder,
};
use crate::wallet::EthKey;
use crate::witness;
use crate::witness::{
    JmtOrderSepticWitness, JmtOrderWitness, JmtRegisterKeyWitness, JmtVerifyMerkleWitness,
};
use vstd::prelude::*;
use vstd::string::*;

verus! {

// ── Prices and quantities ─────────────────────────────────────────────────

/// Prices count up from 2000000; quantities count from 100 to 149 and start again.
pub proof fn lemma_prices(i: int)
    requires
        0 <= i <= u64::MAX - 2000000,
    ensures
        builders::price_at(0) == 2000000,
        builders::quantity_at(0) == 100,
        i > 0 ==> builders::price_at(i) == builders::price_at(i - 1) + 1,
        i > 0 && i % 50 != 0 ==> builders::quantity_at(i) == builders::quantity_at(i - 1) + 1,
        i % 50 == 0 ==> builders::quantity_at(i) == 100,
        builders::price_at(i) == 2000000 + i,
        builders::quantity_at(i) == 100 + i % 50,
{
}

// ── Schnorr batches ───────────────────────────────────────────────────────

/// The order at position `i` is a signed buy order of some key, with the price and the quantity of
/// its position.
pub open spec fn listed_at(w: SepticBenchWitness, account: Seq<u8>, i: int) -> bool {
    exists|s: SessionPair| #[trigger]
        signing::is_pair(s) && !s.pubkey.is_infinity && signing::buy_order_signed(
            w,
            s.pubkey,
            account,
            2000000 + i,
            100 + i % 50,
        )
}

/// Every order of a batch is that of its position.
pub open spec fn listed(orders: Seq<SepticBenchWitness>, account: Seq<u8>) -> bool {
    forall|i: int| 0 <= i < orders.len() ==> listed_at(#[trigger] orders[i], account, i)
}

/// The orders of a batch that was built are those of their positions.
pub proof fn lemma_listed(orders: Seq<SepticBenchWitness>, account: Seq<u8>)
    requires
        builders::batch_built(orders, account),
        orders.len() <= u64::MAX - 2000000,
    ensures
        listed(orders, account),
{
    assert forall|i: int| 0 <= i < orders.len() implies listed_at(
        #[trigger] orders[i],
        account,
        i,
    ) by {
        assert(builders::batch_order_built(orders[i], account, i));
        let s = choose|s: SessionPair|
            #![trigger s.wf()]
            s.wf() && !s.pubkey.is_infinity && crate::session::bench_built(
                orders[i],
                s.pubkey,
                account,
                builders::price_at(i),
                builders::quantity_at(i),
            );
        lemma_prices(i);
        signing::lemma_pair(s);
        signing::lemma_bench_built(
            orders[i],
            s.pubkey,
            account,
            builders::price_at(i),
            builders::quantity_at(i),
        );
    }
}

/// A batch that is built for the program holds as many signed buy orders of the account as asked,
/// and the program accepts it; an empty one is refused where one equation is checked.
#[verifier::spinoff_prover]
#[verifier::rlimit(60)]
pub proof fn lemma_batch_input(
    fix: &TestFixtures,
    count: usize,
    input: ProgramInput,
    r: Result<ProofOutput, GuestError>,
    orders: Seq<SepticBenchWitness>,
    kind: Seq<char>,
)
    requires
        fix.wf(),
        count <= u64::MAX - 2000000,
        guest::program_outcome(input, r),
        ({
            ||| call_ensures(builders::build_batch_septic_input, (fix, count), input) && (
            input matches ProgramInput::BatchSeptic(w) ==> orders == w.orders@) && kind
                == "BATCH_SEPTIC_"@
            ||| call_ensures(builders::build_batch_septic_single_input, (fix, count), input) && (
            input matches ProgramInput::BatchSepticSingle(w) ==> orders == w.orders@) && kind
                == "BATCH_SEPTIC_SINGLE_"@
            ||| call_ensures(builders::build_batch_septic_verify_input, (fix, count), input) && (
            input matches ProgramInput::BatchSepticVerify(w) ==> orders == w.orders@) && kind
                == "BATCH_SEPTIC_VERIFY_"@
            ||| count > 0 && call_ensures(
                builders::build_batch_septic_opt_input,
                (fix, count),
                input,
            ) && (input matches ProgramInput::BatchSepticOpt(w) ==> orders == w.orders@) && kind
                == "BATCH_SEPTIC_OPT_"@
            ||| count > 0 && call_ensures(
                builders::build_batch_septic_opt_single_input,
                (fix, count),
                input,
            ) && (input matches ProgramInput::BatchSepticOptSingle(w) ==> orders == w.orders@)
                && kind == "BATCH_SEPTIC_OPT_SINGLE_"@
        }),
    ensures
        orders.len() == count,
        listed(orders, fix.eth_key.address@),
        r matches Ok(out) && program::batch_committed(out, kind, count as nat),
{
    lemma_listed(orders, fix.eth_key.address@);
    builders::lemma_batch_accepted(
        orders,
        fix.eth_key.address@,
        match input {
            ProgramInput::BatchSeptic(_) => GuestError::BatchSepticMismatch,
            ProgramInput::BatchSepticSingle(_) => GuestError::BatchSingleMismatch,
            ProgramInput::BatchSepticVerify(_) => GuestError::BatchVerifyMismatch,
            ProgramInput::BatchSepticOpt(_) => GuestError::BatchEquationMismatch,
            _ => GuestError::BatchEquationSingleMismatch,
        },
    );
    texts::lemma_decimal(count as nat);
}

// ── Orders of accounts ────────────────────────────────────────────────────

/// A buy order of an account on `ETH/USDC` with index 0, the price and the quantity, which the
/// account has signed.
pub open spec fn eth_buy_order(
    o: EthSignedOrder,
    account: Seq<u8>,
    price: int,
    quantity: int,
) -> bool {
    &&& o.account_address@ == account
    &&& o.key_index == 0
    &&& o.market@ == "ETH/USDC"@
    &&& o.side@ == "BUY"@
    &&& o.price == price
    &&& o.quantity == quantity
    &&& program::eth_order_signed(o)
}

proof fn lemma_eth_built(o: EthSignedOrder, account: [u8; 20], price: u64, quantity: u64)
    requires
        builders::eth_order_built(o, account, price, quantity),
    ensures
        eth_buy_order(o, account@, price as int, quantity as int),
{
    builders::lemma_eth_order_accepted(
        o,
        account,
        price,
        quantity,
        GuestError::OrderSignerMismatch,
    );
    program::lemma_eth_order_signed(o, GuestError::OrderSignerMismatch);
}

/// Building an order of an account gives one that the account has signed.
pub proof fn lemma_build_eth_order(
    key: &EthKey,
    price: u64,
    quantity: u64,
    t: Seq<char>,
    hashed: Seq<u8>,
    r: Option<EthSignedOrder>,
)
    requires
        key.wf(),
        call_ensures(builders::build_eth_order, (key, price, quantity), r),
        texts::order_reads(t, "ETH/USDC"@, "BUY"@, price, quantity, key.address@),
        texts::wallet_reads(hashed, vstd::utf8::encode_utf8(t)),
    ensures
        r is Some <==> crate::wallet::secp256k1_signature(
            key.secret@,
            digest::keccak_256(hashed),
        ) is Some,
        r matches Some(o) ==> eth_buy_order(o, key.address@, price as int, quantity as int),
{
    texts::lemma_order_text(t, "ETH/USDC"@, "BUY"@, price, quantity, key.address@);
    texts::lemma_eip191(hashed, vstd::utf8::encode_utf8(t));
    match r {
        Some(o) => {
            lemma_eth_built(o, key.address, price, quantity);
        },
        None => {},
    }
}

/// The inputs with orders of an account hold orders that the account has signed, one of price
/// 2000000 and quantity 100 or those of their positions, and the program accepts them.
#[verifier::spinoff_prover]
#[verifier::rlimit(60)]
pub proof fn lemma_eth_inputs(
    fix: &TestFixtures,
    count: usize,
    single: Option<ProgramInput>,
    many: Option<ProgramInput>,
    r: Result<ProofOutput, GuestError>,
)
    requires
        fix.wf(),
        count <= u64::MAX - 2000000,
        call_ensures(builders::build_verify_order_eth_input, (fix,), single),
        call_ensures(builders::build_batch_eth_input, (fix, count), many),
    ensures
        single matches Some(input) ==> {
            &&& input matches ProgramInput::VerifyOrderEth(w) && eth_buy_order(
                w.order,
                fix.eth_key.address@,
                2000000,
                100,
            )
            &&& guest::program_outcome(input, r) ==> r is Ok
        },
        many matches Some(input) ==> {
            &&& input matches ProgramInput::BatchEth(w) && w.orders@.len() == count && (forall|
                i: int,
            |
                0 <= i < count ==> eth_buy_order(
                    #[trigger] w.orders@[i].order,
                    fix.eth_key.address@,
                    2000000 + i,
                    100 + i % 50,
                ))
            &&& guest::program_outcome(input, r) ==> r is Ok
        },
{
    match single {
        Some(ProgramInput::VerifyOrderEth(w)) => {
            lemma_eth_built(w.order, fix.eth_key.address, 2000000, 100);
            builders::lemma_eth_order_accepted(
                w.order,
                fix.eth_key.address,
                2000000,
                100,
                GuestError::OrderSignerMismatch,
            );
        },
        _ => {},
    }
    match many {
        Some(ProgramInput::BatchEth(w)) => {
            assert forall|i: int| 0 <= i < count implies eth_buy_order(
                #[trigger] w.orders@[i].order,
                fix.eth_key.address@,
                2000000 + i,
                100 + i % 50,
            ) by {
                let _ = w.orders@[i];
                lemma_prices(i);
                lemma_eth_built(
                    w.orders@[i].order,
                    fix.eth_key.address,
                    builders::price_at(i),
                    builders::quantity_at(i),
                );
            }
            builders::lemma_eth_batch_accepted(w.orders@, fix.eth_key.address);
        },
        _ => {},
    }
}

// ── Orders of a registered key ────────────────────────────────────────────

/// A buy order of the account on `ETH/USDC` with index 0, price 2000000 and quantity 100, whose
/// challenge is that of its text under the key and whose equation holds for the key.
pub open spec fn single_order_signed(o: SignedOrder, s: SessionPair, account: Seq<u8>) -> bool {
    &&& o.account_address@ == account
    &&& o.key_index == 0
    &&& o.market@ == "ETH/USDC"@
    &&& o.side@ == "BUY"@
    &&& o.price == 2000000
    &&& o.quantity == 100
    &&& exists|t: Seq<char>|
        #![trigger vstd::utf8::encode_utf8(t)]
        texts::order_reads(t, o.market@, o.side@, o.price, o.quantity, account)
            && signing::challenge_of(
            signatures::number(o.challenge_e@),
            o.signature_r_x@,
            s.pubkey.x.0@,
            digest::sha_256(vstd::utf8::encode_utf8(t)),
        )
    &&& signatures::signature_holds(
        s.pubkey@,
        signatures::number(o.signature_s@),
        signatures::number(o.challenge_e@),
        signatures::point_at(o.signature_r_x@, o.signature_r_y@),
    )
}

/// An order that was built for the fixtures is a signed buy order.
pub proof fn lemma_order_built(o: SignedOrder, s: SessionPair, account: Seq<u8>)
    requires
        s.wf(),
        builders::order_built(o, s.pubkey, account, 2000000, 100),
    ensures
        single_order_signed(o, s, account),
{
    let t = crate::messages::order_text("ETH/USDC"@, "BUY"@, 2000000, 100, account);
    texts::lemma_order_text(t, "ETH/USDC"@, "BUY"@, 2000000, 100, account);
    let _ = vstd::utf8::encode_utf8(t);
    signatures::lemma_number(o.challenge_e@);
    signing::lemma_challenge_of(
        signatures::number(o.challenge_e@),
        o.signature_r_x@,
        s.pubkey.x.0@,
        digest::sha_256(vstd::utf8::encode_utf8(t)),
    );
    signing::lemma_pair(s);
    signatures::lemma_verifies(
        s.pubkey,
        o.signature_r_x@,
        o.signature_r_y@,
        o.signature_s@,
        o.challenge_e@,
    );
}

/// An order of a key with a proof: it is built with every nonce but the multiples of the order of
/// the group, signed with it, and carries the key, the root and the proof that were given.
pub proof fn lemma_order_input(
    fix: &TestFixtures,
    proved: KeyProofResult,
    k: &[u32; 8],
    r: Option<JmtOrderWitness>,
)
    requires
        fix.wf(),
        call_ensures(builders::verify_order_input_with, (fix, proved, k), r),
    ensures
        r is Some <==> signatures::number(k@) % (order::group_order() as int) != 0,
        r matches Some(w) ==> {
            &&& single_order_signed(w.order, fix.session, fix.eth_key.address@)
            &&& signatures::point_at(w.order.signature_r_x@, w.order.signature_r_y@)
                == order::generator().times(signatures::number(k@) as nat)
            &&& w.session_key == proved.key
            &&& w.session_key_root@ == proved.root@
            &&& w.merkle_proof@ == proved.proof@
        },
{
    signatures::lemma_number(k@);
    match r {
        Some(w) => {
            lemma_order_built(w.order, fix.session, fix.eth_key.address@);
        },
        None => {},
    }
}

/// The same of an order that carries its key.
pub proof fn lemma_septic_input(
    fix: &TestFixtures,
    proved: KeyProofResult,
    k: &[u32; 8],
    r: Option<JmtOrderSepticWitness>,
)
    requires
        fix.wf(),
        call_ensures(builders::verify_order_septic_input_with, (fix, proved, k), r),
    ensures
        r is Some <==> signatures::number(k@) % (order::group_order() as int) != 0,
        r matches Some(w) ==> {
            &&& signing::buy_order_signed(
                w.bench,
                fix.session.pubkey,
                fix.eth_key.address@,
                2000000,
                100,
            )
            &&& signatures::commitment_of(w.bench) == order::generator().times(
                signatures::number(k@) as nat,
            )
            &&& w.session_key_root@ == proved.root@
            &&& w.merkle_proof@ == proved.proof@
        },
{
    signatures::lemma_number(k@);
    signing::lemma_pair(fix.session);
    match r {
        Some(w) => {
            signing::lemma_bench_built(
                w.bench,
                fix.session.pubkey,
                fix.eth_key.address@,
                2000000,
                100,
            );
        },
        None => {},
    }
}

/// The same of a batch: one order for each nonce, with the price and the quantity of its position,
/// all with the proof that was given.
#[verifier::spinoff_prover]
#[verifier::rlimit(60)]
pub proof fn lemma_merkle_input(
    fix: &TestFixtures,
    proved: &KeyProofResult,
    nonces: &Vec<[u32; 8]>,
    r: Option<JmtVerifyMerkleWitness>,
)
    requires
        fix.wf(),
        nonces@.len() <= u64::MAX - 2000000,
        call_ensures(builders::verify_merkle_input_with, (fix, proved, nonces), r),
    ensures
        r is Some <==> (forall|i: int|
            0 <= i < nonces@.len() ==> signatures::number((#[trigger] nonces@[i])@) % (
            order::group_order() as int) != 0),
        r matches Some(w) ==> {
            &&& w.orders@.len() == nonces@.len()
            &&& w.session_key_root@ == proved.root@
            &&& forall|i: int|
                0 <= i < nonces@.len() ==> signing::buy_order_signed(
                    (#[trigger] w.orders@[i]).bench,
                    fix.session.pubkey,
                    fix.eth_key.address@,
                    2000000 + i,
                    100 + i % 50,
                ) && signatures::commitment_of(w.orders@[i].bench) == order::generator().times(
                    signatures::number(nonces@[i]@) as nat,
                ) && w.orders@[i].merkle_proof@ == proved.proof@
        },
{
    signing::lemma_pair(fix.session);
    assert forall|i: int| 0 <= i < nonces@.len() implies signatures::number(
        (#[trigger] nonces@[i])@,
    ) == crate::septic::scalar::value(nonces@[i]@) by {
        signatures::lemma_number(nonces@[i]@);
    }
    match r {
        Some(w) => {
            assert forall|i: int| 0 <= i < nonces@.len() implies signing::buy_order_signed(
                (#[trigger] w.orders@[i]).bench,
                fix.session.pubkey,
                fix.eth_key.address@,
                2000000 + i,
                100 + i % 50,
            ) && signatures::commitment_of(w.orders@[i].bench) == order::generator().times(
                signatures::number(nonces@[i]@) as nat,
            ) && w.orders@[i].merkle_proof@ == proved.proof@ by {
                lemma_prices(i);
                let _ = nonces@[i];
                signing::lemma_bench_built(
                    w.orders@[i].bench,
                    fix.session.pubkey,
                    fix.eth_key.address@,
                    builders::price_at(i),
                    builders::quantity_at(i),
                );
            }
        },
        None => {},
    }
}

/// What was registered is what the handling of its witness commits to: the root before and the
/// root after, the account and the index of the request.
pub proof fn lemma_registered_witness(
    request: RegisterKeyRequest,
    result: RegisterKeyResult,
    w: JmtRegisterKeyWitness,
    r: Result<ProofOutput, GuestError>,
)
    requires
        call_ensures(witness::register_witness, (request, result), w),
        call_ensures(tree_guest::handle_register_key, (w,), r),
    ensures
        r matches Ok(out) ==> {
            &&& out.old_session_key_root@ == result.old_root@
            &&& out.new_session_key_root@ == result.new_root@
            &&& out.account_address@ == request.account_address@
            &&& out.key_index == request.key_index
            &&& program::request_signed(request)
        },
{
    tree_program::lemma_register(w, r);
}

/// An order with the proof of a key is accepted exactly as the key, the root and the proof allow.
pub proof fn lemma_order_witness(
    o: SignedOrder,
    proved: KeyProofResult,
    w: JmtOrderWitness,
    r: Result<ProofOutput, GuestError>,
)
    requires
        call_ensures(witness::order_witness, (o, proved), w),
        call_ensures(tree_guest::handle_verify_order, (w,), r),
    ensures
        r matches Ok(out) ==> {
            &&& out.new_session_key_root@ == proved.root@
            &&& out.account_address@ == o.account_address@
            &&& out.key_index == o.key_index
            &&& tree_program::shown(
                o.account_address@,
                o.key_index,
                proved.key.pubkey_x@,
                proved.key.pubkey_y@,
                proved.root@,
                proved.proof@,
            )
        },
{
    tree_program::lemma_order(w, r);
}

// ── Batches that share their keys ─────────────────────────────────────────

/// The account of key `i` is `i` in eight bytes, lowest first, and twelve zeros.
pub proof fn lemma_synthetic_address(i: u64)
    ensures
        dedup::synthetic_address(i).len() == 20,
        texts::word_at(dedup::synthetic_address(i), 0) + 0x1_0000_0000 * texts::word_at(
            dedup::synthetic_address(i),
            4,
        ) == i,
        program::blank(dedup::synthetic_address(i).subrange(8, 20), 12),
{
    let b = dedup::synthetic_address(i);
    let low = crate::bytes::le4((i % 0x1_0000_0000) as u32);
    let high = crate::bytes::le4((i / 0x1_0000_0000) as u32);
    texts::lemma_word(low, (i % 0x1_0000_0000) as u32);
    texts::lemma_word(high, (i / 0x1_0000_0000) as u32);
    assert(b[0] == low[0] && b[1] == low[1] && b[2] == low[2] && b[3] == low[3]);
    assert(b[4] == high[0] && b[5] == high[1] && b[6] == high[2] && b[7] == high[3]);
    assert(texts::word_at(b, 0) == texts::word_at(low, 0));
    assert(texts::word_at(b, 4) == texts::word_at(high, 0));
}

/// A buy order on `ETH/USDC` of the key with the given position: its challenge is that of the text
/// with the account of the key, and its equation holds for the key.
pub open spec fn dedup_order_signed(
    o: DedupOrder,
    s: SessionPair,
    key_idx: int,
    price: int,
    quantity: int,
) -> bool {
    &&& o.key_idx == key_idx
    &&& o.market@ == "ETH/USDC"@
    &&& o.side@ == "BUY"@
    &&& o.price == price
    &&& o.quantity == quantity
    &&& exists|t: Seq<char>|
        #![trigger vstd::utf8::encode_utf8(t)]
        texts::order_reads(
            t,
            o.market@,
            o.side@,
            o.price,
            o.quantity,
            dedup::synthetic_address(key_idx as u64),
        ) && signing::challenge_of(
            signatures::number(o.challenge_e@),
            o.signature_r_x@,
            s.pubkey.x.0@,
            digest::sha_256(vstd::utf8::encode_utf8(t)),
        )
    &&& signatures::signature_holds(
        s.pubkey@,
        signatures::number(o.signature_s@),
        signatures::number(o.challenge_e@),
        signatures::point_at(o.signature_r_x@, o.signature_r_y@),
    )
}

/// The order that was made at a position is signed by the key that it names.
pub proof fn lemma_dedup_order_built(
    o: DedupOrder,
    sessions: Seq<SessionPair>,
    unique_count: int,
    i: int,
)
    requires
        0 <= i <= u64::MAX - 2000000,
        unique_count <= sessions.len(),
        dedup::sessions_wf(sessions),
        dedup::dedup_order_built(o, sessions, unique_count, i),
    ensures
        o.key_idx < unique_count,
        i < unique_count ==> o.key_idx == i,
        dedup_order_signed(
            o,
            sessions[o.key_idx as int],
            o.key_idx as int,
            2000000 + i,
            100 + i % 50,
        ),
{
    let s = sessions[o.key_idx as int];
    let account = dedup::synthetic_address(o.key_idx as u64);
    let price = builders::price_at(i);
    let quantity = builders::quantity_at(i);
    let t = crate::messages::order_text("ETH/USDC"@, "BUY"@, price, quantity, account);
    lemma_prices(i);
    texts::lemma_order_text(t, "ETH/USDC"@, "BUY"@, price, quantity, account);
    let _ = vstd::utf8::encode_utf8(t);
    signatures::lemma_number(o.challenge_e@);
    signing::lemma_challenge_of(
        signatures::number(o.challenge_e@),
        o.signature_r_x@,
        s.pubkey.x.0@,
        digest::sha_256(vstd::utf8::encode_utf8(t)),
    );
    signing::lemma_pair(s);
    signatures::lemma_verifies(
        s.pubkey,
        o.signature_r_x@,
        o.signature_r_y@,
        o.signature_s@,
        o.challenge_e@,
    );
}

/// Orders of shared keys: there are some with all nonces but multiples of the order of the group;
/// the first ones are of one key each, in turn, the others of the keys that were picked.
#[verifier::spinoff_prover]
#[verifier::rlimit(60)]
pub proof fn lemma_dedup_orders(
    sessions: &Vec<SessionPair>,
    picks: &Vec<usize>,
    nonces: &Vec<[u32; 8]>,
    unique_count: usize,
    r: Option<Vec<DedupOrder>>,
)
    requires
        dedup::sessions_wf(sessions@),
        1 <= unique_count <= sessions@.len(),
        unique_count <= 0x1_0000_0000,
        nonces@.len() <= u64::MAX - 2000000,
        picks@.len() == nonces@.len(),
        forall|i: int| unique_count <= i < picks@.len() ==> #[trigger] picks@[i] < unique_count,
        call_ensures(dedup::dedup_orders_with, (sessions, picks, nonces, unique_count), r),
    ensures
        r is Some <==> (forall|i: int|
            0 <= i < nonces@.len() ==> signatures::number((#[trigger] nonces@[i])@) % (
            order::group_order() as int) != 0),
        r matches Some(orders) ==> {
            &&& orders@.len() == nonces@.len()
            &&& forall|i: int|
                0 <= i < orders@.len() ==> {
                    let key = if i < unique_count {
                        i
                    } else {
                        picks@[i] as int
                    };
                    &&& dedup_order_signed(
                        #[trigger] orders@[i],
                        sessions@[key],
                        key,
                        2000000 + i,
                        100 + i % 50,
                    )
                    &&& signatures::point_at(orders@[i].signature_r_x@, orders@[i].signature_r_y@)
                        == order::generator().times(signatures::number(nonces@[i]@) as nat)
                }
        },
{
    assert forall|i: int| 0 <= i < nonces@.len() implies signatures::number(
        (#[trigger] nonces@[i])@,
    ) == crate::septic::scalar::value(nonces@[i]@) by {
        signatures::lemma_number(nonces@[i]@);
    }
    match r {
        Some(orders) => {
            assert forall|i: int| 0 <= i < orders@.len() implies {
                let key = if i < unique_count {
                    i
                } else {
                    picks@[i] as int
                };
                &&& dedup_order_signed(
                    #[trigger] orders@[i],
                    sessions@[key],
                    key,
                    2000000 + i,
                    100 + i % 50,
                )
                &&& signatures::point_at(orders@[i].signature_r_x@, orders@[i].signature_r_y@)
                    == order::generator().times(signatures::number(nonces@[i]@) as nat)
            } by {
                let _ = nonces@[i];
                lemma_dedup_order_built(orders@[i], sessions@, unique_count as int, i);
            }
        },
        None => {},
    }
}

/// The leaf of a shared key: its account is that of its position, its index is 0, and its key is
/// the point of the pair.
pub proof fn lemma_session_leaf(s: SessionPair, i: u64)
    ensures
        texts::leaf_reads(
            dedup::session_leaf(s, i as int),
            dedup::synthetic_address(i),
            0,
            s.pubkey.x.0@,
            s.pubkey.y.0@,
        ),
{
    texts::lemma_leaf(
        dedup::session_leaf(s, i as int),
        dedup::synthetic_address(i),
        0,
        s.pubkey.x.0@,
        s.pubkey.y.0@,
    );
}

/// A tree of keys holds something exactly at the slots of the keys.
pub proof fn lemma_session_slots(sessions: Seq<SessionPair>, place: Seq<u8>)
    requires
        sessions.len() <= u64::MAX,
    ensures
        dedup::session_values(sessions).contains_key(place) <==> exists|i: int|
            0 <= i < sessions.len() && place == merkle::slot(
                #[trigger] dedup::synthetic_address(i as u64),
                0,
            ),
    decreases sessions.len(),
{
    if sessions.len() > 0 {
        let n = sessions.len() - 1;
        lemma_session_slots(sessions.drop_last(), place);
        let _ = dedup::synthetic_address(n as u64);
    }
}

} // verus!
