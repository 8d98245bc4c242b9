//! What a key, an order or an account is checked for.
use crate::bytes;
use crate::digest;
use crate::eth;
use crate::guest;
use crate::guest::GuestError;
use crate::laws::signatures;
use crate::laws::texts;
use crate::merkle;
use crate::poseidon2_hasher;
use crate::septic::fp7::Fp7;
use crate::septic::point::SepticPoint;
use crate::text;
use crate::types::{SessionKey, SignedOrder};
use vstd::prelude::*;

verus! {

// ── Membership ────────────────────────────────────────────────────────────

/// The leaf with the account, the index and the key lies under the root, at the given place.
pub open spec fn registered(
    account: Seq<u8>,
    key_index: u8,
    pubkey_x: Seq<u32>,
    pubkey_y: Seq<u32>,
    leaf_index: u64,
    siblings: Seq<[u8; 32]>,
    root: Seq<u8>,
) -> bool {
    exists|leaf: Seq<u8>| #[trigger]
        texts::leaf_reads(leaf, account, key_index, pubkey_x, pubkey_y) && merkle::merkle_root(
            poseidon2_hasher::poseidon2_digest(leaf),
            leaf_index as nat,
            siblings,
        ) == root
}

/// A key is admitted exactly when its leaf lies under the root and the path has at most 64 levels.
pub proof fn lemma_membership(
    account: Seq<u8>,
    key_index: u8,
    pubkey_x: Seq<u32>,
    pubkey_y: Seq<u32>,
    leaf_index: u64,
    siblings: Seq<[u8; 32]>,
    root: Seq<u8>,
)
    requires
        account.len() == 20,
        pubkey_x.len() == 7,
        pubkey_y.len() == 7,
    ensures
        ({
            let refusal = guest::membership_refusal(
                account,
                key_index,
                pubkey_x,
                pubkey_y,
                leaf_index,
                siblings,
                root,
            );
            let member = registered(
                account,
                key_index,
                pubkey_x,
                pubkey_y,
                leaf_index,
                siblings,
                root,
            );
            &&& refusal is None <==> siblings.len() <= 64 && member
            &&& refusal == Some(GuestError::PathTooLong) <==> siblings.len() > 64
            &&& refusal == Some(GuestError::KeyNotRegistered) <==> siblings.len() <= 64 && !member
        }),
{
    let leaf = merkle::leaf_encoding(account, key_index, pubkey_x, pubkey_y);
    texts::lemma_leaf(leaf, account, key_index, pubkey_x, pubkey_y);
    assert forall|b: Seq<u8>| #[trigger]
        texts::leaf_reads(b, account, key_index, pubkey_x, pubkey_y) implies b == leaf by {
        texts::lemma_leaf(b, account, key_index, pubkey_x, pubkey_y);
    }
}

// ── Orders of session keys ────────────────────────────────────────────────

/// The challenge of an order is that of its text under the key with the given first coordinate.
pub open spec fn challenge_fits(order: SignedOrder, pubkey_x: Seq<u32>) -> bool {
    exists|t: Seq<char>, b: Seq<u8>|
        #![trigger vstd::utf8::encode_utf8(t), digest::sha_256(b)]
        texts::order_reads(
            t,
            order.market@,
            order.side@,
            order.price,
            order.quantity,
            order.account_address@,
        ) && signatures::challenge_reads(
            b,
            order.signature_r_x@,
            pubkey_x,
            digest::sha_256(vstd::utf8::encode_utf8(t)),
        ) && signatures::number(order.challenge_e@) == bytes::be_value(digest::sha_256(b))
            % 199372529839252601278447397890876471698671718266839763841250021879int
}

/// The signature of an order is accepted for the key.
pub open spec fn equation_fits(order: SignedOrder, key: SessionKey) -> bool {
    signatures::accepted(
        signatures::point_at(key.pubkey_x@, key.pubkey_y@),
        signatures::number(order.signature_s@),
        signatures::number(order.challenge_e@),
        signatures::point_at(order.signature_r_x@, order.signature_r_y@),
    )
}

#[verifier::spinoff_prover]
#[verifier::rlimit(60)]
proof fn lemma_challenge_fits(order: SignedOrder, key: SessionKey)
    ensures
        challenge_fits(order, key.pubkey_x@) <==> signatures::number(order.challenge_e@)
            == guest::order_challenge(order, key),
{
    let t = crate::messages::order_text(
        order.market@,
        order.side@,
        order.price,
        order.quantity,
        order.account_address@,
    );
    let h = digest::sha_256(vstd::utf8::encode_utf8(t));
    let b = bytes::le4_all(order.signature_r_x@) + bytes::le4_all(key.pubkey_x@) + h;
    texts::lemma_order_text(
        t,
        order.market@,
        order.side@,
        order.price,
        order.quantity,
        order.account_address@,
    );
    signatures::lemma_order_hash(
        t,
        order.market@,
        order.side@,
        order.price,
        order.quantity,
        order.account_address@,
    );
    assert(signatures::challenge_reads(b, order.signature_r_x@, key.pubkey_x@, h)) by {
        texts::lemma_words(b, order.signature_r_x@);
        texts::lemma_words(b, key.pubkey_x@);
        assert(b.subrange(0, 28) =~= bytes::le4_all(order.signature_r_x@));
        assert(b.subrange(28, 56) =~= bytes::le4_all(key.pubkey_x@));
        assert(b.subrange(56, b.len() as int) =~= h);
    }
    signatures::lemma_challenge(b, order.signature_r_x@, key.pubkey_x@, h);
    let _ = digest::sha_256(b);
    if challenge_fits(order, key.pubkey_x@) {
        let (t2, b2) = choose|t2: Seq<char>, b2: Seq<u8>|
            #![trigger vstd::utf8::encode_utf8(t2), digest::sha_256(b2)]
            texts::order_reads(
                t2,
                order.market@,
                order.side@,
                order.price,
                order.quantity,
                order.account_address@,
            ) && signatures::challenge_reads(
                b2,
                order.signature_r_x@,
                key.pubkey_x@,
                digest::sha_256(vstd::utf8::encode_utf8(t2)),
            ) && signatures::number(order.challenge_e@) == bytes::be_value(digest::sha_256(b2))
                % 199372529839252601278447397890876471698671718266839763841250021879int;
        texts::lemma_order_text(
            t2,
            order.market@,
            order.side@,
            order.price,
            order.quantity,
            order.account_address@,
        );
        signatures::lemma_challenge(b2, order.signature_r_x@, key.pubkey_x@, h);
    }
}

/// An order is signed by a session key exactly when its challenge is that of its text, with the
/// key's first coordinate, and its signature is accepted for the key.
pub proof fn lemma_order_signed(order: SignedOrder, key: SessionKey)
    ensures
        guest::order_signed(order, key) <==> challenge_fits(order, key.pubkey_x@) && equation_fits(
            order,
            key,
        ),
{
    let point = SepticPoint { x: Fp7(key.pubkey_x), y: Fp7(key.pubkey_y), is_infinity: false };
    lemma_challenge_fits(order, key);
    signatures::lemma_number(order.challenge_e@);
    signatures::lemma_accepted(
        point,
        order.signature_r_x@,
        order.signature_r_y@,
        order.signature_s@,
        order.challenge_e@,
    );
    assert(point@ == signatures::point_at(key.pubkey_x@, key.pubkey_y@));
}

// ── Accounts ──────────────────────────────────────────────────────────────

/// Both halves of a signature lie between zero and the order of secp256k1, which is
/// `2^256 - 432420386565659656852420866394968145599`.
pub open spec fn in_range(sig: Seq<u8>) -> bool {
    let n = 0x1_0000_0000_0000_0000_0000_0000_0000_0000_0000_0000_0000_0000_0000_0000_0000_0000int
        - 432420386565659656852420866394968145599int;
    &&& 0 < bytes::be_value(sig.subrange(0, 32)) < n
    &&& 0 < bytes::be_value(sig.subrange(32, 64)) < n
}

/// The id that the last byte of a signature stands for: ids from 27 on are also written.
pub open spec fn id_of(v: u8, id: int) -> bool {
    if v < 27 {
        id == v
    } else {
        id + 27 == v
    }
}

/// The account of the key that is recovered from a signature over what a wallet hashes for the
/// message: the last 20 bytes of the digest of its two coordinates.
pub open spec fn recovers(hashed: Seq<u8>, sig: Seq<u8>, id: u8, account: Seq<u8>) -> bool {
    exists|key: Seq<u8>|
        #![trigger digest::keccak_256(key.subrange(1, key.len() as int))]
        eth::secp256k1_recover(digest::keccak_256(hashed), sig.subrange(0, 64), id) == Some(key)
            && digest::keccak_256(key.subrange(1, key.len() as int)).subrange(12, 32) == account
}

/// The bytes of a signature over a message have an id and recover the account.
pub open spec fn account_signs(hashed: Seq<u8>, sig: Seq<u8>, account: Seq<u8>) -> bool {
    &&& sig.len() == 65
    &&& in_range(sig)
    &&& exists|id: u8| #[trigger] id_of(sig[64], id as int) && id <= 3 && recovers(
        hashed,
        sig,
        id,
        account,
    )
}

/// The check of a signature of a message, given as hexadecimal text: it is accepted exactly when
/// the text spells 65 bytes that recover the account, and otherwise the refusal names the first
/// thing that is wrong.
#[verifier::spinoff_prover]
#[verifier::rlimit(60)]
pub proof fn lemma_signer(
    message: Seq<u8>,
    hashed: Seq<u8>,
    sig_hex: Seq<u8>,
    sig: Seq<u8>,
    account: Seq<u8>,
    mismatch: GuestError,
)
    requires
        texts::wallet_reads(hashed, message),
        mismatch == GuestError::AddressMismatch || mismatch == GuestError::OrderSignerMismatch
            || mismatch == GuestError::BatchSignerMismatch,
    ensures
        ({
            let refusal = guest::signer_refusal(message, sig_hex, account, mismatch);
            let id = if sig[64] < 27 {
                sig[64] as int
            } else {
                sig[64] - 27
            };
            &&& (forall|b: Seq<u8>| !#[trigger] texts::reads_hex(sig_hex, b)) <==> refusal == Some(
                GuestError::InvalidHex,
            )
            &&& texts::reads_hex(sig_hex, sig) ==> {
                &&& refusal == Some(GuestError::WrongSignatureLength) <==> sig.len() != 65
                &&& refusal == Some(GuestError::InvalidSignature) <==> sig.len() == 65 && !in_range(
                    sig,
                )
                &&& refusal == Some(GuestError::InvalidRecoveryId) <==> sig.len() == 65 && in_range(
                    sig,
                ) && id > 3
                &&& refusal == Some(GuestError::RecoveryFailed) <==> sig.len() == 65 && in_range(
                    sig,
                ) && id <= 3 && eth::secp256k1_recover(
                    digest::keccak_256(hashed),
                    sig.subrange(0, 64),
                    id as u8,
                ) is None
                &&& refusal is None <==> account_signs(hashed, sig, account)
                &&& refusal == Some(mismatch) <==> sig.len() == 65 && in_range(sig) && id <= 3
                    && eth::secp256k1_recover(
                    digest::keccak_256(hashed),
                    sig.subrange(0, 64),
                    id as u8,
                ) is Some && !account_signs(hashed, sig, account)
            }
        }),
{
    texts::lemma_eip191(hashed, message);
    texts::lemma_reads_hex(sig_hex, sig);
    if text::is_hex(sig_hex) {
        texts::lemma_reads_hex(sig_hex, text::hex_bytes(sig_hex));
        assert(texts::reads_hex(sig_hex, text::hex_bytes(sig_hex)));
    } else {
        assert forall|b: Seq<u8>| !#[trigger] texts::reads_hex(sig_hex, b) by {
            texts::lemma_reads_hex(sig_hex, b);
        }
    }
    if texts::reads_hex(sig_hex, sig) && sig.len() == 65 {
        assert(sig.take(64).take(32) =~= sig.subrange(0, 32));
        assert(sig.take(64).skip(32) =~= sig.subrange(32, 64));
        let id = eth::signature_recovery_id(sig[64]);
        assert(id_of(sig[64], id as int));
        if in_range(sig) && id <= 3 {
            match eth::secp256k1_recover(digest::keccak_256(hashed), sig.subrange(0, 64), id) {
                Some(key) => {
                    assert(key.skip(1) =~= key.subrange(1, key.len() as int));
                    let _ = digest::keccak_256(key.subrange(1, key.len() as int));
                },
                None => {},
            }
        }
    }
}

} // verus!
