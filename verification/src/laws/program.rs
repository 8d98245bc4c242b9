//! What the program accepts and refuses, and what it commits to.
use crate::algebra::curve::Point;
use crate::eth;
use crate::guest;
use crate::guest::GuestError;
use crate::laws::batches;
use crate::laws::checks;
use crate::laws::signatures;
use crate::laws::texts;
use crate::merkle;
use crate::messages;
use crate::poseidon2_hasher;
use crate::septic::batch;
use crate::septic::fp7::Fp7;
use crate::septic::point::SepticPoint;
use crate::septic::schnorr;
use crate::septic::schnorr::SepticBenchWitness;
use crate::text;
use crate::types::{
    BatchSepticDedupWitness, BatchSepticVerifyMerkleWitness, DedupKey, DedupOrder, EthOrderWitness,
    EthSignedOrder, OrderWitness, ProgramInput, ProofOutput, RegisterKeyRequest,
    RegisterKeyWitness, SepticMerkleOrder, VerifyOrderSepticWitness,
};
use vstd::prelude::*;
use vstd::string::*;

verus! {

/// All bytes are zero.
pub open spec fn blank(b: Seq<u8>, n: nat) -> bool {
    b.len() == n && forall|i: int| 0 <= i < n ==> #[trigger] b[i] == 0
}

/// Running the program on an input has the outcome that the laws below speak of, and so has each
/// handler on its own input.
pub proof fn lemma_handlers(input: ProgramInput, r: Result<ProofOutput, GuestError>)
    ensures
        call_ensures(guest::run_program, (input,), r) ==> guest::program_outcome(input, r),
        (input matches ProgramInput::RegisterKey(w) && call_ensures(
            guest::handle_register_key,
            (w,),
            r,
        )) ==> guest::program_outcome(input, r),
        (input matches ProgramInput::VerifyOrder(w) && call_ensures(
            guest::handle_verify_order,
            (w,),
            r,
        )) ==> guest::program_outcome(input, r),
        (input matches ProgramInput::VerifyOrderEth(w) && call_ensures(
            guest::handle_verify_order_eth,
            (w,),
            r,
        )) ==> guest::program_outcome(input, r),
        (input matches ProgramInput::VerifyOrderSeptic(w) && call_ensures(
            guest::handle_verify_order_septic,
            (w,),
            r,
        )) ==> guest::program_outcome(input, r),
        (input matches ProgramInput::BatchSeptic(w) && call_ensures(
            guest::handle_batch_septic,
            (w,),
            r,
        )) ==> guest::program_outcome(input, r),
        (input matches ProgramInput::BatchSepticOpt(w) && call_ensures(
            guest::handle_batch_septic_opt,
            (w,),
            r,
        )) ==> guest::program_outcome(input, r),
        (input matches ProgramInput::BatchSepticSingle(w) && call_ensures(
            guest::handle_batch_septic_single,
            (w,),
            r,
        )) ==> guest::program_outcome(input, r),
        (input matches ProgramInput::BatchSepticOptSingle(w) && call_ensures(
            guest::handle_batch_septic_opt_single,
            (w,),
            r,
        )) ==> guest::program_outcome(input, r),
        (input matches ProgramInput::BatchSepticVerify(w) && call_ensures(
            guest::handle_batch_septic_verify,
            (w,),
            r,
        )) ==> guest::program_outcome(input, r),
        (input matches ProgramInput::BatchSepticVerifyMerkle(w) && call_ensures(
            guest::handle_batch_septic_verify_merkle,
            (w,),
            r,
        )) ==> guest::program_outcome(input, r),
        (input matches ProgramInput::BatchSepticDedup(w) && call_ensures(
            guest::handle_batch_septic_dedup,
            (w,),
            r,
        )) ==> guest::program_outcome(input, r),
        (input matches ProgramInput::BatchEth(w) && call_ensures(guest::handle_batch_eth, (w,), r))
            ==> guest::program_outcome(input, r),
{
}

// ── Registration ──────────────────────────────────────────────────────────

/// The account has signed the text of a request: the hexadecimal text of the signature spells 65
/// bytes that recover the account from what a wallet hashes.
pub open spec fn request_signed(q: RegisterKeyRequest) -> bool {
    exists|t: Seq<char>, hashed: Seq<u8>, sig: Seq<u8>|
        #![trigger texts::wallet_reads(hashed, vstd::utf8::encode_utf8(t)), texts::reads_hex(vstd::utf8::encode_utf8(q.eth_signature_hex@), sig)]
        texts::register_reads(t, q.account_address@, q.pubkey_x@, q.pubkey_y@, q.key_index)
            && texts::wallet_reads(hashed, vstd::utf8::encode_utf8(t)) && texts::reads_hex(
            vstd::utf8::encode_utf8(q.eth_signature_hex@),
            sig,
        ) && checks::account_signs(hashed, sig, q.account_address@)
}

/// A request counts as signed exactly when the account has signed its text.
#[verifier::spinoff_prover]
#[verifier::rlimit(60)]
pub proof fn lemma_request_signed(q: RegisterKeyRequest)
    ensures
        guest::register_signer_refusal(q) is None <==> request_signed(q),
{
    let t = messages::register_text(q.account_address@, q.pubkey_x@, q.pubkey_y@, q.key_index);
    let m = vstd::utf8::encode_utf8(t);
    let hashed = eth::eip191_bytes(m);
    let hex = vstd::utf8::encode_utf8(q.eth_signature_hex@);
    let sig = text::hex_bytes(hex);
    texts::lemma_register_text(t, q.account_address@, q.pubkey_x@, q.pubkey_y@, q.key_index);
    texts::lemma_eip191(hashed, m);
    texts::lemma_reads_hex(hex, sig);
    checks::lemma_signer(m, hashed, hex, sig, q.account_address@, GuestError::AddressMismatch);
    if request_signed(q) {
        let (t2, hashed2, sig2) = choose|t2: Seq<char>, hashed2: Seq<u8>, sig2: Seq<u8>|
            #![trigger texts::wallet_reads(hashed2, vstd::utf8::encode_utf8(t2)), texts::reads_hex(vstd::utf8::encode_utf8(q.eth_signature_hex@), sig2)]
            texts::register_reads(t2, q.account_address@, q.pubkey_x@, q.pubkey_y@, q.key_index)
                && texts::wallet_reads(hashed2, vstd::utf8::encode_utf8(t2)) && texts::reads_hex(
                vstd::utf8::encode_utf8(q.eth_signature_hex@),
                sig2,
            ) && checks::account_signs(hashed2, sig2, q.account_address@);
        texts::lemma_register_text(t2, q.account_address@, q.pubkey_x@, q.pubkey_y@, q.key_index);
        checks::lemma_signer(
            m,
            hashed2,
            hex,
            sig2,
            q.account_address@,
            GuestError::AddressMismatch,
        );
    }
}

/// The refusal of a request whose signature does not hold is that of the signature over its text.
pub proof fn lemma_request_refusal(q: RegisterKeyRequest, t: Seq<char>)
    requires
        texts::register_reads(t, q.account_address@, q.pubkey_x@, q.pubkey_y@, q.key_index),
    ensures
        guest::register_signer_refusal(q) == guest::signer_refusal(
            vstd::utf8::encode_utf8(t),
            vstd::utf8::encode_utf8(q.eth_signature_hex@),
            q.account_address@,
            GuestError::AddressMismatch,
        ),
{
    texts::lemma_register_text(t, q.account_address@, q.pubkey_x@, q.pubkey_y@, q.key_index);
}

/// The leaf that a registration replaces lies under the old root.
pub open spec fn replaces(w: RegisterKeyWitness) -> bool {
    merkle::merkle_root(w.old_leaf_hash@, w.leaf_index as nat, w.merkle_siblings@)
        == w.old_session_key_root@
}

/// The leaf of the request lies under the new root, at the place of the old leaf.
pub open spec fn places(w: RegisterKeyWitness) -> bool {
    checks::registered(
        w.request.account_address@,
        w.request.key_index,
        w.request.pubkey_x@,
        w.request.pubkey_y@,
        w.leaf_index,
        w.merkle_siblings@,
        w.new_session_key_root@,
    )
}

/// A registration is accepted exactly when the path has at most 64 levels, the old leaf lies under
/// the old root, the account has signed the request, and the leaf of the request lies under the
/// new root; the output names the two roots, the account and the index.  A refusal names the first
/// of these that fails.
#[verifier::spinoff_prover]
#[verifier::rlimit(60)]
pub proof fn lemma_register(w: RegisterKeyWitness, r: Result<ProofOutput, GuestError>)
    requires
        guest::program_outcome(ProgramInput::RegisterKey(w), r),
    ensures
        r is Ok <==> w.merkle_siblings@.len() <= 64 && replaces(w) && request_signed(w.request)
            && places(w),
        r matches Ok(out) ==> {
            &&& out.old_session_key_root@ == w.old_session_key_root@
            &&& out.new_session_key_root@ == w.new_session_key_root@
            &&& out.account_address@ == w.request.account_address@
            &&& out.key_index == w.request.key_index
            &&& out.proof_type@ == "REGISTER_KEY"@
        },
        r == Err::<ProofOutput, GuestError>(GuestError::PathTooLong)
            <==> w.merkle_siblings@.len() > 64,
        r == Err::<ProofOutput, GuestError>(GuestError::OldLeafMismatch)
            <==> w.merkle_siblings@.len() <= 64 && !replaces(w),
        r == Err::<ProofOutput, GuestError>(GuestError::NewRootMismatch)
            <==> w.merkle_siblings@.len() <= 64 && replaces(w) && request_signed(w.request)
            && !places(w),
        w.merkle_siblings@.len() <= 64 && replaces(w) && !request_signed(w.request) ==> (
        r matches Err(e) && guest::register_signer_refusal(w.request) == Some(e)),
{
    let q = w.request;
    lemma_request_signed(q);
    checks::lemma_membership(
        q.account_address@,
        q.key_index,
        q.pubkey_x@,
        q.pubkey_y@,
        w.leaf_index,
        w.merkle_siblings@,
        w.new_session_key_root@,
    );
    let leaf = merkle::leaf_encoding(q.account_address@, q.key_index, q.pubkey_x@, q.pubkey_y@);
    texts::lemma_leaf(leaf, q.account_address@, q.key_index, q.pubkey_x@, q.pubkey_y@);
    if places(w) {
        let b = choose|b: Seq<u8>| #[trigger]
            texts::leaf_reads(b, q.account_address@, q.key_index, q.pubkey_x@, q.pubkey_y@)
                && merkle::merkle_root(
                poseidon2_hasher::poseidon2_digest(b),
                w.leaf_index as nat,
                w.merkle_siblings@,
            ) == w.new_session_key_root@;
        texts::lemma_leaf(b, q.account_address@, q.key_index, q.pubkey_x@, q.pubkey_y@);
    }
}

// ── Orders of session keys ────────────────────────────────────────────────

/// The session key of an order, with the account and the index of the order, is under the root.
pub open spec fn order_registered(w: OrderWitness) -> bool {
    checks::registered(
        w.order.account_address@,
        w.order.key_index,
        w.session_key.pubkey_x@,
        w.session_key.pubkey_y@,
        w.leaf_index,
        w.merkle_siblings@,
        w.session_key_root@,
    )
}

/// An order is accepted exactly when its key is registered for the account and the index that it
/// names, its challenge is that of its text, and its signature is accepted for that key.  What is
/// committed to is the account and the index for which the key is registered.
pub proof fn lemma_order(w: OrderWitness, r: Result<ProofOutput, GuestError>)
    requires
        guest::program_outcome(ProgramInput::VerifyOrder(w), r),
    ensures
        r is Ok <==> w.merkle_siblings@.len() <= 64 && order_registered(w)
            && checks::challenge_fits(w.order, w.session_key.pubkey_x@) && checks::equation_fits(
            w.order,
            w.session_key,
        ),
        r matches Ok(out) ==> {
            &&& out.old_session_key_root@ == w.session_key_root@
            &&& out.new_session_key_root@ == w.session_key_root@
            &&& out.account_address@ == w.order.account_address@
            &&& out.key_index == w.order.key_index
            &&& out.proof_type@ == "VERIFY_ORDER"@
            &&& checks::registered(
                out.account_address@,
                out.key_index,
                w.session_key.pubkey_x@,
                w.session_key.pubkey_y@,
                w.leaf_index,
                w.merkle_siblings@,
                out.new_session_key_root@,
            )
            &&& checks::challenge_fits(w.order, w.session_key.pubkey_x@)
        },
        r == Err::<ProofOutput, GuestError>(GuestError::PathTooLong)
            <==> w.merkle_siblings@.len() > 64,
        r == Err::<ProofOutput, GuestError>(GuestError::KeyNotRegistered)
            <==> w.merkle_siblings@.len() <= 64 && !order_registered(w),
        r is Err && w.merkle_siblings@.len() <= 64 && order_registered(w) ==> r == Err::<
            ProofOutput,
            GuestError,
        >(GuestError::SchnorrMismatch),
{
    checks::lemma_membership(
        w.order.account_address@,
        w.order.key_index,
        w.session_key.pubkey_x@,
        w.session_key.pubkey_y@,
        w.leaf_index,
        w.merkle_siblings@,
        w.session_key_root@,
    );
    checks::lemma_order_signed(w.order, w.session_key);
}

/// After a registration under any index, an order of that account and index that the key has
/// signed is accepted under the new root, with the path of the registration.
pub proof fn lemma_register_then_order(
    w: RegisterKeyWitness,
    registration: Result<ProofOutput, GuestError>,
    v: OrderWitness,
    r: Result<ProofOutput, GuestError>,
)
    requires
        guest::program_outcome(ProgramInput::RegisterKey(w), registration),
        registration is Ok,
        v.order.account_address@ == registration->Ok_0.account_address@,
        v.order.key_index == registration->Ok_0.key_index,
        v.session_key_root@ == registration->Ok_0.new_session_key_root@,
        v.session_key.pubkey_x@ == w.request.pubkey_x@,
        v.session_key.pubkey_y@ == w.request.pubkey_y@,
        v.leaf_index == w.leaf_index,
        v.merkle_siblings@ == w.merkle_siblings@,
        checks::challenge_fits(v.order, v.session_key.pubkey_x@),
        checks::equation_fits(v.order, v.session_key),
        guest::program_outcome(ProgramInput::VerifyOrder(v), r),
    ensures
        r is Ok,
        r->Ok_0.key_index == w.request.key_index,
        r->Ok_0.account_address@ == w.request.account_address@,
        r->Ok_0.old_session_key_root@ == w.new_session_key_root@,
{
    lemma_register(w, registration);
    lemma_order(v, r);
}

// ── Schnorr orders that carry their key ───────────────────────────────────

/// The key of a Schnorr order, with the account and the index of the order, is under the root.
pub open spec fn bench_registered(
    bench: SepticBenchWitness,
    leaf_index: u64,
    siblings: Seq<[u8; 32]>,
    root: Seq<u8>,
) -> bool {
    checks::registered(
        bench.order.account_address@,
        bench.order.key_index,
        bench.order.pubkey_x.0@,
        bench.order.pubkey_y.0@,
        leaf_index,
        siblings,
        root,
    )
}

proof fn lemma_merkle_order(
    bench: SepticBenchWitness,
    leaf_index: u64,
    siblings: Seq<[u8; 32]>,
    root: Seq<u8>,
    mismatch: GuestError,
)
    requires
        mismatch == GuestError::SepticMismatch || mismatch == GuestError::BatchMerkleMismatch,
    ensures
        ({
            let refusal = guest::merkle_order_refusal(
                bench,
                leaf_index,
                siblings,
                root,
                mismatch,
            );
            let member = bench_registered(bench, leaf_index, siblings, root);
            &&& refusal is None <==> siblings.len() <= 64 && member && signatures::bench_accepted(
                bench,
            )
            &&& refusal == Some(GuestError::PathTooLong) <==> siblings.len() > 64
            &&& refusal == Some(GuestError::KeyNotRegistered) <==> siblings.len() <= 64 && !member
            &&& refusal is Some && siblings.len() <= 64 && member ==> refusal == Some(mismatch)
        }),
{
    checks::lemma_membership(
        bench.order.account_address@,
        bench.order.key_index,
        bench.order.pubkey_x.0@,
        bench.order.pubkey_y.0@,
        leaf_index,
        siblings,
        root,
    );
    signatures::lemma_bench_accepted(bench);
}

/// A Schnorr order is accepted exactly when its key is registered for its account and index and
/// its signature is accepted.
pub proof fn lemma_septic_order(w: VerifyOrderSepticWitness, r: Result<ProofOutput, GuestError>)
    requires
        guest::program_outcome(ProgramInput::VerifyOrderSeptic(w), r),
    ensures
        ({
            let member = bench_registered(
                w.bench,
                w.leaf_index,
                w.merkle_siblings@,
                w.session_key_root@,
            );
            &&& r is Ok <==> w.merkle_siblings@.len() <= 64 && member
                && signatures::bench_accepted(w.bench)
            &&& r matches Ok(out) ==> {
                &&& member
                &&& out.old_session_key_root@ == w.session_key_root@
                &&& out.new_session_key_root@ == w.session_key_root@
                &&& out.account_address@ == w.bench.order.account_address@
                &&& out.key_index == w.bench.order.key_index
                &&& out.proof_type@ == "VERIFY_ORDER_SEPTIC"@
            }
            &&& r == Err::<ProofOutput, GuestError>(GuestError::PathTooLong)
                <==> w.merkle_siblings@.len() > 64
            &&& r == Err::<ProofOutput, GuestError>(GuestError::KeyNotRegistered)
                <==> w.merkle_siblings@.len() <= 64 && !member
            &&& r is Err && w.merkle_siblings@.len() <= 64 && member ==> r == Err::<
                ProofOutput,
                GuestError,
            >(GuestError::SepticMismatch)
        }),
{
    lemma_merkle_order(
        w.bench,
        w.leaf_index,
        w.merkle_siblings@,
        w.session_key_root@,
        GuestError::SepticMismatch,
    );
}

// ── Batches checked one by one ────────────────────────────────────────────

/// The output of a batch without a tree: everything but the kind is blank, and the kind ends with
/// the number of orders.
pub open spec fn batch_committed(out: ProofOutput, kind: Seq<char>, n: nat) -> bool {
    &&& blank(out.old_session_key_root@, 32)
    &&& blank(out.new_session_key_root@, 32)
    &&& blank(out.account_address@, 20)
    &&& out.key_index == 0
    &&& exists|digits: Seq<char>| #[trigger]
        texts::numeral_of(digits, n as int) && out.proof_type@ == kind + digits
}

proof fn lemma_batch_committed(r: Result<ProofOutput, GuestError>, kind: Seq<char>, n: nat)
    requires
        guest::batch_outcome(r, None, guest::no_root(), kind + text::decimal(n)),
    ensures
        r matches Ok(out) && batch_committed(out, kind, n),
{
    texts::lemma_decimal(n);
}

/// The equation of every order of a batch holds.
pub open spec fn all_hold(orders: Seq<SepticBenchWitness>) -> bool {
    forall|i: int| 0 <= i < orders.len() ==> signatures::bench_holds(#[trigger] orders[i])
}

/// The signature of every order of a batch is accepted.
pub open spec fn all_accepted(orders: Seq<SepticBenchWitness>) -> bool {
    forall|i: int| 0 <= i < orders.len() ==> signatures::bench_accepted(#[trigger] orders[i])
}

proof fn lemma_all_accepted(orders: Seq<SepticBenchWitness>)
    ensures
        batch::all_verify(orders) <==> all_accepted(orders),
{
    assert forall|i: int| 0 <= i < orders.len() implies batch::bench_verifies(#[trigger] orders[i])
        == signatures::bench_accepted(orders[i]) by {
        signatures::lemma_bench_accepted(orders[i]);
    }
}

/// A batch that is checked one by one is accepted exactly when every signature is.
pub proof fn lemma_one_by_one(
    input: ProgramInput,
    r: Result<ProofOutput, GuestError>,
    orders: Seq<SepticBenchWitness>,
    kind: Seq<char>,
    mismatch: GuestError,
)
    requires
        guest::program_outcome(input, r),
        ({
            ||| input matches ProgramInput::BatchSeptic(w) && orders == w.orders@ && kind
                == "BATCH_SEPTIC_"@ && mismatch == GuestError::BatchSepticMismatch
            ||| input matches ProgramInput::BatchSepticSingle(w) && orders == w.orders@ && kind
                == "BATCH_SEPTIC_SINGLE_"@ && mismatch == GuestError::BatchSingleMismatch
            ||| input matches ProgramInput::BatchSepticVerify(w) && orders == w.orders@ && kind
                == "BATCH_SEPTIC_VERIFY_"@ && mismatch == GuestError::BatchVerifyMismatch
        }),
    ensures
        r is Ok <==> all_accepted(orders),
        r matches Ok(out) ==> batch_committed(out, kind, orders.len()),
        r matches Err(e) ==> e == mismatch,
{
    lemma_all_accepted(orders);
    if all_accepted(orders) {
        lemma_batch_committed(r, kind, orders.len());
    }
}

/// A batch is refused if one of its keys has coordinates that are not canonical.
pub proof fn lemma_one_by_one_canonical(
    input: ProgramInput,
    r: Result<ProofOutput, GuestError>,
    orders: Seq<SepticBenchWitness>,
    i: int,
)
    requires
        guest::program_outcome(input, r),
        ({
            ||| input matches ProgramInput::BatchSeptic(w) && orders == w.orders@
            ||| input matches ProgramInput::BatchSepticSingle(w) && orders == w.orders@
            ||| input matches ProgramInput::BatchSepticVerify(w) && orders == w.orders@
            ||| input matches ProgramInput::BatchSepticOpt(w) && orders == w.orders@
            ||| input matches ProgramInput::BatchSepticOptSingle(w) && orders == w.orders@
        }),
        0 <= i < orders.len(),
        !signatures::key_of(orders[i]).canonical(),
    ensures
        r is Err,
{
    signatures::lemma_bench(orders[i]);
    batches::lemma_not_canonical(orders, i);
    assert(!batch::bench_verifies(orders[i]));
}

// ── Batches checked by one equation ───────────────────────────────────────

/// The input is a batch that is checked by one equation.
pub open spec fn is_combined(
    input: ProgramInput,
    orders: Seq<SepticBenchWitness>,
    kind: Seq<char>,
    mismatch: GuestError,
) -> bool {
    ||| input matches ProgramInput::BatchSepticOpt(w) && orders == w.orders@ && kind
        == "BATCH_SEPTIC_OPT_"@ && mismatch == GuestError::BatchEquationMismatch
    ||| input matches ProgramInput::BatchSepticOptSingle(w) && orders == w.orders@ && kind
        == "BATCH_SEPTIC_OPT_SINGLE_"@ && mismatch == GuestError::BatchEquationSingleMismatch
}

/// A batch that is checked by one equation is accepted exactly when it holds an order and its
/// weighted defects add up to infinity.
pub proof fn lemma_combined(
    input: ProgramInput,
    r: Result<ProofOutput, GuestError>,
    orders: Seq<SepticBenchWitness>,
    kind: Seq<char>,
    mismatch: GuestError,
)
    requires
        guest::program_outcome(input, r),
        is_combined(input, orders, kind, mismatch),
        batches::proper(orders),
    ensures
        r is Ok <==> orders.len() > 0 && batches::defect_sum(orders, orders.len() as int)
            == Point::Infinity,
        r matches Ok(out) ==> batch_committed(out, kind, orders.len()),
        r matches Err(e) ==> e == if orders.len() == 0 {
            GuestError::EmptyBatch
        } else {
            mismatch
        },
        orders.len() > 0 && all_hold(orders) ==> r is Ok,
{
    batches::lemma_batch_equation(orders);
    if r is Ok {
        lemma_batch_committed(r, kind, orders.len());
    }
    if all_hold(orders) {
        batches::lemma_all_good(orders);
    }
}

/// A batch of any orders that is checked by one equation is accepted exactly when it holds an order
/// and the equation holds.
pub proof fn lemma_combined_any(
    input: ProgramInput,
    r: Result<ProofOutput, GuestError>,
    orders: Seq<SepticBenchWitness>,
    kind: Seq<char>,
    mismatch: GuestError,
)
    requires
        guest::program_outcome(input, r),
        is_combined(input, orders, kind, mismatch),
    ensures
        r is Ok <==> orders.len() > 0 && batch::batch_equation(orders),
        r matches Err(e) ==> e == if orders.len() == 0 {
            GuestError::EmptyBatch
        } else {
            mismatch
        },
{
}

/// A batch with one order whose equation does not hold, the others holding, is refused unless
/// the weight of that order, as 128 bits of a digest of the whole batch and its position, is a
/// multiple of the order of the group.
pub proof fn lemma_combined_refused(
    input: ProgramInput,
    r: Result<ProofOutput, GuestError>,
    orders: Seq<SepticBenchWitness>,
    kind: Seq<char>,
    mismatch: GuestError,
    j: int,
    b: Seq<u8>,
    place: Seq<u8>,
)
    requires
        guest::program_outcome(input, r),
        is_combined(input, orders, kind, mismatch),
        batches::proper(orders),
        0 <= j < orders.len(),
        schnorr::in_subgroup(signatures::commitment_of(orders[j])),
        forall|i: int|
            0 <= i < orders.len() && i != j ==> signatures::bench_holds(#[trigger] orders[i]),
        !signatures::bench_holds(orders[j]),
        batches::batch_reads(b, orders),
        place.len() == 4,
        texts::word_at(place, 0) == j % 0x1_0000_0000,
        crate::bytes::le_value(
            crate::digest::sha_256(crate::digest::sha_256(b) + place).subrange(0, 16),
        ) % 199372529839252601278447397890876471698671718266839763841250021879int != 0,
    ensures
        r == Err::<ProofOutput, GuestError>(mismatch),
{
    batches::lemma_one_bad_refused(orders, j, b, place);
}

// ── Batches with a tree ───────────────────────────────────────────────────

/// An order of a batch with a tree is registered and its signature is accepted.
pub open spec fn merkle_order_fits(o: SepticMerkleOrder, root: Seq<u8>) -> bool {
    &&& o.merkle_siblings@.len() <= 64
    &&& bench_registered(o.bench, o.leaf_index, o.merkle_siblings@, root)
    &&& signatures::bench_accepted(o.bench)
}

/// The refusal of an order of a batch with a tree that does not fit.
pub open spec fn merkle_order_error(o: SepticMerkleOrder, root: Seq<u8>) -> GuestError {
    if o.merkle_siblings@.len() > 64 {
        GuestError::PathTooLong
    } else if !bench_registered(o.bench, o.leaf_index, o.merkle_siblings@, root) {
        GuestError::KeyNotRegistered
    } else {
        GuestError::BatchMerkleMismatch
    }
}

#[verifier::spinoff_prover]
#[verifier::rlimit(60)]
proof fn lemma_merkle_batch_refusal(orders: Seq<SepticMerkleOrder>, root: Seq<u8>)
    ensures
        guest::merkle_batch_refusal(orders, root) is None <==> (forall|i: int|
            0 <= i < orders.len() ==> merkle_order_fits(#[trigger] orders[i], root)),
        guest::merkle_batch_refusal(orders, root) matches Some(e) ==> exists|j: int|
            0 <= j < orders.len() && !merkle_order_fits(#[trigger] orders[j], root) && e
                == merkle_order_error(orders[j], root) && (forall|i: int|
                0 <= i < j ==> merkle_order_fits(#[trigger] orders[i], root)),
    decreases orders.len(),
{
    if orders.len() > 0 {
        let o = orders[0];
        let rest = orders.drop_first();
        lemma_merkle_order(
            o.bench,
            o.leaf_index,
            o.merkle_siblings@,
            root,
            GuestError::BatchMerkleMismatch,
        );
        lemma_merkle_batch_refusal(rest, root);
        let refusal = guest::merkle_batch_refusal(orders, root);
        if merkle_order_fits(o, root) {
            assert(refusal == guest::merkle_batch_refusal(rest, root));
            if refusal is None {
                assert forall|i: int| 0 <= i < orders.len() implies merkle_order_fits(
                    #[trigger] orders[i],
                    root,
                ) by {
                    if i > 0 {
                        assert(rest[i - 1] == orders[i]);
                    }
                }
            } else {
                let j = choose|j: int|
                    0 <= j < rest.len() && !merkle_order_fits(#[trigger] rest[j], root)
                        && refusal->0 == merkle_order_error(rest[j], root) && (forall|i: int|
                        0 <= i < j ==> merkle_order_fits(#[trigger] rest[i], root));
                assert(orders[j + 1] == rest[j]);
                assert forall|i: int| 0 <= i < j + 1 implies merkle_order_fits(
                    #[trigger] orders[i],
                    root,
                ) by {
                    if i > 0 {
                        assert(rest[i - 1] == orders[i]);
                    }
                }
            }
        } else {
            assert(!merkle_order_fits(orders[0], root));
        }
    }
}

/// A batch with a tree is accepted exactly when every order is registered under the root for its
/// own account and index and its signature is accepted; the refusal is that of the first order that
/// does not fit.
#[verifier::spinoff_prover]
#[verifier::rlimit(60)]
pub proof fn lemma_merkle_batch(
    w: BatchSepticVerifyMerkleWitness,
    r: Result<ProofOutput, GuestError>,
)
    requires
        guest::program_outcome(ProgramInput::BatchSepticVerifyMerkle(w), r),
    ensures
        r is Ok <==> (forall|i: int|
            0 <= i < w.orders@.len() ==> merkle_order_fits(
                #[trigger] w.orders@[i],
                w.session_key_root@,
            )),
        r matches Err(e) ==> exists|j: int|
            0 <= j < w.orders@.len() && !merkle_order_fits(
                #[trigger] w.orders@[j],
                w.session_key_root@,
            ) && e == merkle_order_error(w.orders@[j], w.session_key_root@) && (forall|i: int|
                0 <= i < j ==> merkle_order_fits(#[trigger] w.orders@[i], w.session_key_root@)),
        r matches Ok(out) ==> {
            &&& out.old_session_key_root@ == w.session_key_root@
            &&& out.new_session_key_root@ == w.session_key_root@
            &&& blank(out.account_address@, 20)
            &&& out.key_index == 0
            &&& exists|digits: Seq<char>| #[trigger]
                texts::numeral_of(digits, w.orders@.len() as int) && out.proof_type@
                    == "BATCH_SEPTIC_VERIFY_MERKLE_"@ + digits
        },
{
    lemma_merkle_batch_refusal(w.orders@, w.session_key_root@);
    texts::lemma_decimal(w.orders@.len());
}

// ── Batches that share their keys ─────────────────────────────────────────

/// A key of a batch is registered under the root.
pub open spec fn dedup_key_registered(key: DedupKey, root: Seq<u8>) -> bool {
    key.merkle_siblings@.len() <= 64 && checks::registered(
        key.account_address@,
        key.key_index,
        key.pubkey_x@,
        key.pubkey_y@,
        key.leaf_index,
        key.merkle_siblings@,
        root,
    )
}

/// An order names a key of the batch, and its signature is accepted for that key.
pub open spec fn dedup_order_holds(keys: Seq<DedupKey>, o: DedupOrder) -> bool {
    o.key_idx < keys.len() && signatures::accepted(
        signatures::point_at(
            keys[o.key_idx as int].pubkey_x@,
            keys[o.key_idx as int].pubkey_y@,
        ),
        signatures::number(o.signature_s@),
        signatures::number(o.challenge_e@),
        signatures::point_at(o.signature_r_x@, o.signature_r_y@),
    )
}

#[verifier::spinoff_prover]
#[verifier::rlimit(60)]
proof fn lemma_dedup_keys(keys: Seq<DedupKey>, root: Seq<u8>)
    ensures
        guest::dedup_keys_refusal(keys, root) is None <==> (forall|i: int|
            0 <= i < keys.len() ==> dedup_key_registered(#[trigger] keys[i], root)),
        guest::dedup_keys_refusal(keys, root) matches Some(e) ==> exists|j: int|
            0 <= j < keys.len() && !dedup_key_registered(#[trigger] keys[j], root) && e == if keys[j].merkle_siblings@.len()
                > 64 {
                GuestError::PathTooLong
            } else {
                GuestError::KeyNotRegistered
            } && (forall|i: int| 0 <= i < j ==> dedup_key_registered(#[trigger] keys[i], root)),
    decreases keys.len(),
{
    if keys.len() > 0 {
        let k = keys[0];
        let rest = keys.drop_first();
        checks::lemma_membership(
            k.account_address@,
            k.key_index,
            k.pubkey_x@,
            k.pubkey_y@,
            k.leaf_index,
            k.merkle_siblings@,
            root,
        );
        lemma_dedup_keys(rest, root);
        let refusal = guest::dedup_keys_refusal(keys, root);
        if dedup_key_registered(k, root) {
            assert(refusal == guest::dedup_keys_refusal(rest, root));
            if refusal is None {
                assert forall|i: int| 0 <= i < keys.len() implies dedup_key_registered(
                    #[trigger] keys[i],
                    root,
                ) by {
                    if i > 0 {
                        assert(rest[i - 1] == keys[i]);
                    }
                }
            } else {
                let j = choose|j: int|
                    0 <= j < rest.len() && !dedup_key_registered(#[trigger] rest[j], root)
                        && refusal->0 == if rest[j].merkle_siblings@.len() > 64 {
                        GuestError::PathTooLong
                    } else {
                        GuestError::KeyNotRegistered
                    } && (forall|i: int|
                        0 <= i < j ==> dedup_key_registered(#[trigger] rest[i], root));
                assert(keys[j + 1] == rest[j]);
                assert forall|i: int| 0 <= i < j + 1 implies dedup_key_registered(
                    #[trigger] keys[i],
                    root,
                ) by {
                    if i > 0 {
                        assert(rest[i - 1] == keys[i]);
                    }
                }
            }
        } else {
            assert(!dedup_key_registered(keys[0], root));
        }
    }
}

proof fn lemma_dedup_order(keys: Seq<DedupKey>, o: DedupOrder)
    ensures
        guest::dedup_order_refusal(keys, o) is None <==> dedup_order_holds(keys, o),
        guest::dedup_order_refusal(keys, o) matches Some(e) ==> e == if o.key_idx >= keys.len() {
            GuestError::KeyIndexOutOfRange
        } else {
            GuestError::DedupMismatch
        },
{
    if o.key_idx < keys.len() {
        let key = keys[o.key_idx as int];
        let p = SepticPoint { x: Fp7(key.pubkey_x), y: Fp7(key.pubkey_y), is_infinity: false };
        assert(p@ == signatures::point_at(key.pubkey_x@, key.pubkey_y@));
        signatures::lemma_accepted(
            p,
            o.signature_r_x@,
            o.signature_r_y@,
            o.signature_s@,
            o.challenge_e@,
        );
    }
}

#[verifier::spinoff_prover]
#[verifier::rlimit(60)]
proof fn lemma_dedup_orders(keys: Seq<DedupKey>, orders: Seq<DedupOrder>)
    ensures
        guest::dedup_orders_refusal(keys, orders) is None <==> (forall|i: int|
            0 <= i < orders.len() ==> dedup_order_holds(keys, #[trigger] orders[i])),
        guest::dedup_orders_refusal(keys, orders) matches Some(e) ==> exists|j: int|
            0 <= j < orders.len() && !dedup_order_holds(keys, #[trigger] orders[j]) && e == if orders[j].key_idx
                >= keys.len() {
                GuestError::KeyIndexOutOfRange
            } else {
                GuestError::DedupMismatch
            } && (forall|i: int| 0 <= i < j ==> dedup_order_holds(keys, #[trigger] orders[i])),
    decreases orders.len(),
{
    if orders.len() > 0 {
        let rest = orders.drop_first();
        lemma_dedup_order(keys, orders[0]);
        lemma_dedup_orders(keys, rest);
        let refusal = guest::dedup_orders_refusal(keys, orders);
        if dedup_order_holds(keys, orders[0]) {
            assert(refusal == guest::dedup_orders_refusal(keys, rest));
            if refusal is None {
                assert forall|i: int| 0 <= i < orders.len() implies dedup_order_holds(
                    keys,
                    #[trigger] orders[i],
                ) by {
                    if i > 0 {
                        assert(rest[i - 1] == orders[i]);
                    }
                }
            } else {
                let j = choose|j: int|
                    0 <= j < rest.len() && !dedup_order_holds(keys, #[trigger] rest[j])
                        && refusal->0 == if rest[j].key_idx >= keys.len() {
                        GuestError::KeyIndexOutOfRange
                    } else {
                        GuestError::DedupMismatch
                    } && (forall|i: int|
                        0 <= i < j ==> dedup_order_holds(keys, #[trigger] rest[i]));
                assert(orders[j + 1] == rest[j]);
                assert forall|i: int| 0 <= i < j + 1 implies dedup_order_holds(
                    keys,
                    #[trigger] orders[i],
                ) by {
                    if i > 0 {
                        assert(rest[i - 1] == orders[i]);
                    }
                }
            }
        }
    }
}

/// A batch that shares its keys is accepted exactly when every key is registered under the root
/// and every order names a key of the batch for which its own signature is accepted.  Otherwise the
/// refusal is that of the first key that is not registered or, with all keys registered, of the
/// first order that does not hold.
#[verifier::spinoff_prover]
#[verifier::rlimit(60)]
pub proof fn lemma_dedup(w: BatchSepticDedupWitness, r: Result<ProofOutput, GuestError>)
    requires
        guest::program_outcome(ProgramInput::BatchSepticDedup(w), r),
    ensures
        r is Ok <==> (forall|i: int|
            0 <= i < w.unique_keys@.len() ==> dedup_key_registered(
                #[trigger] w.unique_keys@[i],
                w.session_key_root@,
            )) && (forall|i: int|
            0 <= i < w.orders@.len() ==> dedup_order_holds(
                w.unique_keys@,
                #[trigger] w.orders@[i],
            )),
        r matches Err(e) ==> {
            ||| exists|j: int|
                0 <= j < w.unique_keys@.len() && !dedup_key_registered(
                    #[trigger] w.unique_keys@[j],
                    w.session_key_root@,
                ) && e == if w.unique_keys@[j].merkle_siblings@.len() > 64 {
                    GuestError::PathTooLong
                } else {
                    GuestError::KeyNotRegistered
                } && (forall|i: int|
                    0 <= i < j ==> dedup_key_registered(
                        #[trigger] w.unique_keys@[i],
                        w.session_key_root@,
                    ))
            ||| (forall|i: int|
                0 <= i < w.unique_keys@.len() ==> dedup_key_registered(
                    #[trigger] w.unique_keys@[i],
                    w.session_key_root@,
                )) && exists|j: int|
                0 <= j < w.orders@.len() && !dedup_order_holds(
                    w.unique_keys@,
                    #[trigger] w.orders@[j],
                ) && e == if w.orders@[j].key_idx >= w.unique_keys@.len() {
                    GuestError::KeyIndexOutOfRange
                } else {
                    GuestError::DedupMismatch
                } && (forall|i: int|
                    0 <= i < j ==> dedup_order_holds(w.unique_keys@, #[trigger] w.orders@[i]))
        },
{
    lemma_dedup_keys(w.unique_keys@, w.session_key_root@);
    lemma_dedup_orders(w.unique_keys@, w.orders@);
}

/// What a batch that shares its keys commits to: the root, and the numbers of keys and orders.
#[verifier::spinoff_prover]
#[verifier::rlimit(60)]
pub proof fn lemma_dedup_output(w: BatchSepticDedupWitness, out: ProofOutput)
    requires
        guest::program_outcome(ProgramInput::BatchSepticDedup(w), Ok(out)),
    ensures
        out.old_session_key_root@ == w.session_key_root@,
        out.new_session_key_root@ == w.session_key_root@,
        blank(out.account_address@, 20),
        out.key_index == 0,
        exists|k: Seq<char>, n: Seq<char>|
            #![trigger texts::numeral_of(k, w.unique_keys@.len() as int), texts::numeral_of(n, w.orders@.len() as int)]
            texts::numeral_of(k, w.unique_keys@.len() as int) && texts::numeral_of(
                n,
                w.orders@.len() as int,
            ) && out.proof_type@ == "BATCH_SEPTIC_DEDUP_"@ + k + "u_"@ + n + "o"@,
{
    texts::lemma_decimal(w.unique_keys@.len());
    texts::lemma_decimal(w.orders@.len());
}

// ── Orders of accounts ────────────────────────────────────────────────────

/// The account has signed the text of its order.
pub open spec fn eth_order_signed(o: EthSignedOrder) -> bool {
    exists|t: Seq<char>, hashed: Seq<u8>, sig: Seq<u8>|
        #![trigger texts::wallet_reads(hashed, vstd::utf8::encode_utf8(t)), texts::reads_hex(vstd::utf8::encode_utf8(o.eth_signature_hex@), sig)]
        texts::order_reads(t, o.market@, o.side@, o.price, o.quantity, o.account_address@)
            && texts::wallet_reads(hashed, vstd::utf8::encode_utf8(t)) && texts::reads_hex(
            vstd::utf8::encode_utf8(o.eth_signature_hex@),
            sig,
        ) && checks::account_signs(hashed, sig, o.account_address@)
}

/// An order of an account passes exactly when the account has signed its text.
#[verifier::spinoff_prover]
#[verifier::rlimit(60)]
pub proof fn lemma_eth_order_signed(o: EthSignedOrder, mismatch: GuestError)
    requires
        mismatch == GuestError::OrderSignerMismatch || mismatch == GuestError::BatchSignerMismatch,
    ensures
        guest::eth_order_refusal(o, mismatch) is None <==> eth_order_signed(o),
{
    let t = messages::order_text(o.market@, o.side@, o.price, o.quantity, o.account_address@);
    let m = vstd::utf8::encode_utf8(t);
    let hashed = eth::eip191_bytes(m);
    let hex = vstd::utf8::encode_utf8(o.eth_signature_hex@);
    let sig = text::hex_bytes(hex);
    texts::lemma_order_text(t, o.market@, o.side@, o.price, o.quantity, o.account_address@);
    texts::lemma_eip191(hashed, m);
    texts::lemma_reads_hex(hex, sig);
    checks::lemma_signer(m, hashed, hex, sig, o.account_address@, mismatch);
    if eth_order_signed(o) {
        let (t2, hashed2, sig2) = choose|t2: Seq<char>, hashed2: Seq<u8>, sig2: Seq<u8>|
            #![trigger texts::wallet_reads(hashed2, vstd::utf8::encode_utf8(t2)), texts::reads_hex(vstd::utf8::encode_utf8(o.eth_signature_hex@), sig2)]
            texts::order_reads(t2, o.market@, o.side@, o.price, o.quantity, o.account_address@)
                && texts::wallet_reads(hashed2, vstd::utf8::encode_utf8(t2)) && texts::reads_hex(
                vstd::utf8::encode_utf8(o.eth_signature_hex@),
                sig2,
            ) && checks::account_signs(hashed2, sig2, o.account_address@);
        texts::lemma_order_text(t2, o.market@, o.side@, o.price, o.quantity, o.account_address@);
        checks::lemma_signer(m, hashed2, hex, sig2, o.account_address@, mismatch);
    }
}

/// The refusal of an order whose signature does not hold is that of the signature over its text.
pub proof fn lemma_eth_order_refusal(o: EthSignedOrder, t: Seq<char>, mismatch: GuestError)
    requires
        texts::order_reads(t, o.market@, o.side@, o.price, o.quantity, o.account_address@),
    ensures
        guest::eth_order_refusal(o, mismatch) == guest::signer_refusal(
            vstd::utf8::encode_utf8(t),
            vstd::utf8::encode_utf8(o.eth_signature_hex@),
            o.account_address@,
            mismatch,
        ),
{
    texts::lemma_order_text(t, o.market@, o.side@, o.price, o.quantity, o.account_address@);
}

/// An order of an account is accepted exactly when the account has signed its text; the output
/// names the account and the index, and no root.
pub proof fn lemma_eth_order(w: EthOrderWitness, r: Result<ProofOutput, GuestError>)
    requires
        guest::program_outcome(ProgramInput::VerifyOrderEth(w), r),
    ensures
        r is Ok <==> eth_order_signed(w.order),
        r matches Err(e) ==> guest::eth_order_refusal(w.order, GuestError::OrderSignerMismatch)
            == Some(e),
        r matches Ok(out) ==> {
            &&& blank(out.old_session_key_root@, 32)
            &&& blank(out.new_session_key_root@, 32)
            &&& out.account_address@ == w.order.account_address@
            &&& out.key_index == w.order.key_index
            &&& out.proof_type@ == "VERIFY_ORDER_ETH"@
        },
{
    lemma_eth_order_signed(w.order, GuestError::OrderSignerMismatch);
}

#[verifier::spinoff_prover]
#[verifier::rlimit(60)]
proof fn lemma_eth_batch_refusal(orders: Seq<EthOrderWitness>)
    ensures
        guest::eth_batch_refusal(orders) is None <==> (forall|i: int|
            0 <= i < orders.len() ==> eth_order_signed(#[trigger] orders[i].order)),
        guest::eth_batch_refusal(orders) is Some ==> exists|j: int|
            0 <= j < orders.len() && !eth_order_signed(#[trigger] orders[j].order)
                && guest::eth_batch_refusal(orders) == guest::eth_order_refusal(
                orders[j].order,
                GuestError::BatchSignerMismatch,
            ) && (forall|i: int| 0 <= i < j ==> eth_order_signed(#[trigger] orders[i].order)),
    decreases orders.len(),
{
    if orders.len() > 0 {
        let rest = orders.drop_first();
        lemma_eth_order_signed(orders[0].order, GuestError::BatchSignerMismatch);
        lemma_eth_batch_refusal(rest);
        let refusal = guest::eth_batch_refusal(orders);
        if eth_order_signed(orders[0].order) {
            assert(refusal == guest::eth_batch_refusal(rest));
            if refusal is None {
                assert forall|i: int| 0 <= i < orders.len() implies eth_order_signed(
                    #[trigger] orders[i].order,
                ) by {
                    if i > 0 {
                        assert(rest[i - 1].order == orders[i].order);
                    }
                }
            } else {
                let j = choose|j: int|
                    0 <= j < rest.len() && !eth_order_signed(#[trigger] rest[j].order) && refusal
                        == guest::eth_order_refusal(
                        rest[j].order,
                        GuestError::BatchSignerMismatch,
                    ) && (forall|i: int| 0 <= i < j ==> eth_order_signed(#[trigger] rest[i].order));
                assert(orders[j + 1].order == rest[j].order);
                assert forall|i: int| 0 <= i < j + 1 implies eth_order_signed(
                    #[trigger] orders[i].order,
                ) by {
                    if i > 0 {
                        assert(rest[i - 1].order == orders[i].order);
                    }
                }
            }
        } else {
            let _ = orders[0].order;
        }
    }
}

/// A batch of orders of accounts is accepted exactly when every account has signed the text of its
/// order; the refusal is that of the first order for which this fails.
#[verifier::spinoff_prover]
#[verifier::rlimit(60)]
pub proof fn lemma_eth_batch(
    w: crate::types::BatchEthWitness,
    r: Result<ProofOutput, GuestError>,
)
    requires
        guest::program_outcome(ProgramInput::BatchEth(w), r),
    ensures
        r is Ok <==> (forall|i: int|
            0 <= i < w.orders@.len() ==> eth_order_signed(#[trigger] w.orders@[i].order)),
        r matches Err(e) ==> exists|j: int|
            0 <= j < w.orders@.len() && !eth_order_signed(#[trigger] w.orders@[j].order) && Some(e)
                == guest::eth_order_refusal(w.orders@[j].order, GuestError::BatchSignerMismatch)
                && (forall|i: int|
                0 <= i < j ==> eth_order_signed(#[trigger] w.orders@[i].order)),
        r matches Ok(out) ==> batch_committed(out, "BATCH_ETH_"@, w.orders@.len()),
{
    lemma_eth_batch_refusal(w.orders@);
    if r is Ok {
        lemma_batch_committed(r, "BATCH_ETH_"@, w.orders@.len());
    }
}

} // verus!
