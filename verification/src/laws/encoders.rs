//! What the functions that write texts, hash them and read signatures return.
use crate::digest;
use crate::eth;
use crate::eth::{HexError, RecoverError};
use crate::laws::checks;
use crate::laws::texts;
use crate::laws::trees;
use crate::merkle;
use crate::messages;
use crate::poseidon2_hasher;
use crate::session;
use crate::text;
use crate::types::{EthSignedOrder, SessionKeyLeaf, SignedOrder};
use vstd::prelude::*;
use vstd::string::*;

verus! {

// ── Texts ─────────────────────────────────────────────────────────────────

/// The text that is made of an order reads as this order.
pub proof fn lemma_order_message(
    market: &str,
    side: &str,
    price: u64,
    quantity: u64,
    account: &[u8; 20],
    r: String,
)
    requires
        call_ensures(messages::order_message, (market, side, price, quantity, account), r),
    ensures
        texts::order_reads(r@, market@, side@, price, quantity, account@),
{
    texts::lemma_order_text(r@, market@, side@, price, quantity, account@);
}

/// The text that a session key signs reads as its order.
pub proof fn lemma_septic_order_message(order: &SignedOrder, r: String)
    requires
        call_ensures(messages::septic_order_message, (order,), r),
    ensures
        texts::order_reads(
            r@,
            order.market@,
            order.side@,
            order.price,
            order.quantity,
            order.account_address@,
        ),
{
    texts::lemma_order_text(
        r@,
        order.market@,
        order.side@,
        order.price,
        order.quantity,
        order.account_address@,
    );
}

/// The text that an account signs reads as its order.
pub proof fn lemma_eth_order_message(order: &EthSignedOrder, r: String)
    requires
        call_ensures(messages::eth_order_message, (order,), r),
    ensures
        texts::order_reads(
            r@,
            order.market@,
            order.side@,
            order.price,
            order.quantity,
            order.account_address@,
        ),
{
    texts::lemma_order_text(
        r@,
        order.market@,
        order.side@,
        order.price,
        order.quantity,
        order.account_address@,
    );
}

/// The text that is made of a registration reads as this registration.
pub proof fn lemma_register_message(
    account: &[u8; 20],
    pubkey_x: &[u32; 7],
    pubkey_y: &[u32; 7],
    key_index: u8,
    r: String,
)
    requires
        call_ensures(
            messages::register_key_message,
            (account, pubkey_x, pubkey_y, key_index),
            r,
        ),
    ensures
        texts::register_reads(r@, account@, pubkey_x@, pubkey_y@, key_index),
{
    texts::lemma_register_text(r@, account@, pubkey_x@, pubkey_y@, key_index);
}

/// The 56 bytes of a key hold its first coordinate and then its second.
pub proof fn lemma_pubkey_bytes(pubkey_x: &[u32; 7], pubkey_y: &[u32; 7], r: [u8; 56])
    requires
        call_ensures(messages::pubkey_bytes, (pubkey_x, pubkey_y), r),
    ensures
        texts::holds_words(r@.subrange(0, 28), pubkey_x@),
        texts::holds_words(r@.subrange(28, 56), pubkey_y@),
{
    texts::lemma_words(r@, pubkey_x@);
    texts::lemma_words(r@, pubkey_y@);
    assert(r@.subrange(0, 28) =~= crate::bytes::le4_all(pubkey_x@));
    assert(r@.subrange(28, 56) =~= crate::bytes::le4_all(pubkey_y@));
}

/// A label with a number ends with the numeral of this number.
pub proof fn lemma_numbered(label: &str, count: usize, r: String)
    requires
        call_ensures(text::numbered, (label, count), r),
    ensures
        exists|digits: Seq<char>| #[trigger]
            texts::numeral_of(digits, count as int) && r@ == label@ + digits,
{
    texts::lemma_decimal(count as nat);
}

/// Writing a number behind a text appends its numeral.
pub proof fn lemma_append_decimal(s: &mut String, n: u64, r: ())
    requires
        call_ensures(text::append_decimal, (s, n), r),
    ensures
        exists|digits: Seq<char>| #[trigger]
            texts::numeral_of(digits, n as int) && final(s)@ == old(s)@ + digits,
{
    texts::lemma_decimal(n as nat);
}

/// Writing a number in a buffer of 20 bytes returns the codes of its numeral.
pub proof fn lemma_write_usize(n: usize, buf: &mut [u8; 20], r: &[u8])
    requires
        call_ensures(text::write_usize_ascii, (n, buf), r),
    ensures
        exists|digits: Seq<char>| #[trigger]
            texts::numeral_of(digits, n as int) && texts::codes_of(r@, digits),
{
    texts::lemma_decimal(n as nat);
    texts::lemma_decimal_bytes(n as nat);
}

// ── Digests ───────────────────────────────────────────────────────────────

/// The digest of a message is that of what a wallet hashes for it.
pub proof fn lemma_wallet_digest(message: &[u8], hashed: Seq<u8>, r: [u8; 32])
    requires
        call_ensures(eth::eip191_hash_bytes, (message,), r),
        texts::wallet_reads(hashed, message@),
    ensures
        r@ == digest::keccak_256(hashed),
{
    texts::lemma_eip191(hashed, message@);
}

/// The digest of a text is that of what a wallet hashes for its bytes.
pub proof fn lemma_wallet_text_digest(message: &str, hashed: Seq<u8>, r: [u8; 32])
    requires
        call_ensures(eth::eip191_hash, (message,), r),
        texts::wallet_reads(hashed, vstd::utf8::encode_utf8(message@)),
    ensures
        r@ == digest::keccak_256(hashed),
{
    texts::lemma_eip191(hashed, vstd::utf8::encode_utf8(message@));
}

/// The hash of an order is the SHA-256 digest of its text.
pub proof fn lemma_hash_order(
    market: &str,
    side: &str,
    price: u64,
    quantity: u64,
    account: &[u8; 20],
    t: Seq<char>,
    r: [u8; 32],
)
    requires
        call_ensures(session::hash_order, (market, side, price, quantity, account), r),
        texts::order_reads(t, market@, side@, price, quantity, account@),
    ensures
        r@ == digest::sha_256(vstd::utf8::encode_utf8(t)),
{
    texts::lemma_order_text(t, market@, side@, price, quantity, account@);
}

// ── Signers ───────────────────────────────────────────────────────────────

/// The account of a public key is made of bytes 12 to 31 of the digest of all its bytes but the
/// first.
pub proof fn lemma_address_of_key(key: &[u8], r: [u8; 20])
    requires
        key@.len() >= 1,
        call_ensures(eth::address_of_key, (key,), r),
    ensures
        r@ == digest::keccak_256(key@.subrange(1, key@.len() as int)).subrange(12, 32),
{
    assert(key@.skip(1) =~= key@.subrange(1, key@.len() as int));
}

/// The recovery of a signer from the digest of hashed bytes: an account is found exactly when both
/// halves are in range, the id is below 4 and there is a key, and then it is that of the key.
pub proof fn lemma_recover(
    digest: &[u8; 32],
    sig: &[u8; 65],
    hashed: Seq<u8>,
    account: Seq<u8>,
    r: Result<[u8; 20], RecoverError>,
)
    requires
        call_ensures(eth::recover_eth_address, (digest, sig), r),
        digest@ == digest::keccak_256(hashed),
    ensures
        (r matches Ok(a) && a@ == account) <==> checks::account_signs(hashed, sig@, account),
        r == Err::<[u8; 20], RecoverError>(RecoverError::InvalidSignature) <==> !checks::in_range(
            sig@,
        ),
        r == Err::<[u8; 20], RecoverError>(RecoverError::InvalidRecoveryId) <==> checks::in_range(
            sig@,
        ) && (4 <= sig@[64] < 27 || sig@[64] > 30),
{
    assert(sig@.take(64).take(32) =~= sig@.subrange(0, 32));
    assert(sig@.take(64).skip(32) =~= sig@.subrange(32, 64));
    let id = eth::signature_recovery_id(sig@[64]);
    assert(checks::id_of(sig@[64], id as int));
    if checks::in_range(sig@) && id <= 3 {
        match eth::secp256k1_recover(digest@, sig@.subrange(0, 64), id) {
            Some(key) => {
                assert(key.skip(1) =~= key.subrange(1, key.len() as int));
                let _ = digest::keccak_256(key.subrange(1, key.len() as int));
            },
            None => {},
        }
    }
}

/// The recovery of the signer of a message is that from what a wallet hashes for it.
pub proof fn lemma_recover_message(
    message: &[u8],
    sig: &[u8; 65],
    hashed: Seq<u8>,
    account: Seq<u8>,
    r: Result<[u8; 20], RecoverError>,
)
    requires
        call_ensures(eth::recover_eth_address_kalqix, (message, sig), r),
        texts::wallet_reads(hashed, message@),
    ensures
        (r matches Ok(a) && a@ == account) <==> checks::account_signs(hashed, sig@, account),
{
    texts::lemma_eip191(hashed, message@);
    assert(sig@.take(64).take(32) =~= sig@.subrange(0, 32));
    assert(sig@.take(64).skip(32) =~= sig@.subrange(32, 64));
    let id = eth::signature_recovery_id(sig@[64]);
    assert(checks::id_of(sig@[64], id as int));
    if checks::in_range(sig@) && id <= 3 {
        match eth::secp256k1_recover(digest::keccak_256(hashed), sig@.subrange(0, 64), id) {
            Some(key) => {
                assert(key.skip(1) =~= key.subrange(1, key.len() as int));
                let _ = digest::keccak_256(key.subrange(1, key.len() as int));
            },
            None => {},
        }
    }
}

/// Hexadecimal text is read exactly when it spells 65 bytes, and then as these.
pub proof fn lemma_decode(s: &str, b: Seq<u8>, r: Result<[u8; 65], HexError>)
    requires
        call_ensures(eth::decode_hex_65, (s,), r),
    ensures
        texts::reads_hex(vstd::utf8::encode_utf8(s@), b) ==> {
            &&& b.len() == 65 ==> (r matches Ok(a) && a@ == b)
            &&& b.len() != 65 ==> r == Err::<[u8; 65], HexError>(HexError::WrongLength)
        },
        r matches Ok(a) ==> texts::reads_hex(vstd::utf8::encode_utf8(s@), a@),
        (forall|a: Seq<u8>| !#[trigger] texts::reads_hex(vstd::utf8::encode_utf8(s@), a)) ==> r
            == Err::<[u8; 65], HexError>(HexError::InvalidHex),
{
    let e = vstd::utf8::encode_utf8(s@);
    texts::lemma_reads_hex(e, b);
    if text::is_hex(e) {
        texts::lemma_reads_hex(e, text::hex_bytes(e));
        assert(texts::reads_hex(e, text::hex_bytes(e)));
    }
}

// ── Leaves and roots ──────────────────────────────────────────────────────

/// The bytes of a leaf read as this leaf.
pub proof fn lemma_encode_leaf(leaf: &SessionKeyLeaf, r: Vec<u8>)
    requires
        call_ensures(merkle::encode_session_key_leaf, (leaf,), r),
    ensures
        texts::leaf_reads(
            r@,
            leaf.account_address@,
            leaf.key_index,
            leaf.pubkey_x@,
            leaf.pubkey_y@,
        ),
{
    texts::lemma_leaf(
        r@,
        leaf.account_address@,
        leaf.key_index,
        leaf.pubkey_x@,
        leaf.pubkey_y@,
    );
}

/// A leaf is read from 77 or more bytes, the first 77 of which read as this leaf.
pub proof fn lemma_decode_leaf(data: &[u8], r: Result<SessionKeyLeaf, String>)
    requires
        call_ensures(merkle::decode_session_key_leaf, (data,), r),
    ensures
        r is Ok <==> data@.len() >= 77,
        r matches Ok(leaf) ==> texts::leaf_reads(
            data@.subrange(0, 77),
            leaf.account_address@,
            leaf.key_index,
            leaf.pubkey_x@,
            leaf.pubkey_y@,
        ),
{
    match r {
        Ok(leaf) => {
            texts::lemma_leaf(
                data@.subrange(0, 77),
                leaf.account_address@,
                leaf.key_index,
                leaf.pubkey_x@,
                leaf.pubkey_y@,
            );
        },
        Err(_) => {},
    }
}

/// The hash of a leaf is that of the bytes that read as it.
pub proof fn lemma_hash_leaf(leaf: &SessionKeyLeaf, b: Seq<u8>, r: [u8; 32])
    requires
        call_ensures(merkle::hash_leaf, (leaf,), r),
        texts::leaf_reads(
            b,
            leaf.account_address@,
            leaf.key_index,
            leaf.pubkey_x@,
            leaf.pubkey_y@,
        ),
    ensures
        r@ == poseidon2_hasher::poseidon2_digest(b),
{
    texts::lemma_leaf(
        b,
        leaf.account_address@,
        leaf.key_index,
        leaf.pubkey_x@,
        leaf.pubkey_y@,
    );
}

/// The slot of a key is the hash of its account and its index.
pub proof fn lemma_session_key_hash(account: &[u8; 20], key_index: u8, b: Seq<u8>, r: [u8; 32])
    requires
        call_ensures(merkle::session_key_hash, (account, key_index), r),
        b.len() == 21,
        b.subrange(0, 20) == account@,
        b[20] == key_index,
    ensures
        r@ == poseidon2_hasher::poseidon2_digest(b),
{
    trees::lemma_slot(b, account@, key_index);
}

/// The hash of a node is that of its left child followed by its right child.
pub proof fn lemma_merkle_node(left: &[u8; 32], right: &[u8; 32], b: Seq<u8>, r: [u8; 32])
    requires
        call_ensures(merkle::merkle_node, (left, right), r),
        b.len() == 64,
        b.subrange(0, 32) == left@,
        b.subrange(32, 64) == right@,
    ensures
        r@ == poseidon2_hasher::poseidon2_digest(b),
{
    trees::lemma_node(b, left@, right@);
}

/// A root is computed by climbing from the leaf, and a proof holds exactly when this ends at the
/// expected root.
pub proof fn lemma_root(
    leaf: [u8; 32],
    leaf_index: u64,
    siblings: &[[u8; 32]],
    nodes: Seq<Seq<u8>>,
    root: [u8; 32],
    expected: [u8; 32],
    holds: bool,
)
    requires
        siblings@.len() <= 64,
        trees::climbs(nodes, leaf@, leaf_index as nat, siblings@),
    ensures
        call_ensures(merkle::compute_new_root, (leaf, leaf_index, siblings), root) ==> root@
            == nodes.last(),
        call_ensures(
            merkle::verify_merkle_proof,
            (leaf, leaf_index, siblings, expected),
            holds,
        ) ==> (holds <==> nodes.last() == expected@),
{
    trees::lemma_merkle_root(nodes, leaf@, leaf_index as nat, siblings@);
}

/// The hash of some bytes is what the first eight words of the last state of the sponge hold.
pub proof fn lemma_hash_bytes(
    input: &[u8],
    m: Seq<u8>,
    fills: Seq<Seq<u32>>,
    states: Seq<Seq<u32>>,
    r: [u8; 32],
)
    requires
        call_ensures(poseidon2_hasher::poseidon2_hash_bytes, (input,), r),
        trees::stream_of(m, input@),
        trees::sponge_run(m, fills, states),
    ensures
        texts::holds_words(r@, states.last().take(8)),
{
    trees::lemma_digest(input@, m, fills, states);
}

} // verus!
