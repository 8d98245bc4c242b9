//! What the signers of texts and orders return.
use crate::algebra::group;
use crate::algebra::order;
use crate::bytes;
use crate::digest;
use crate::laws::checks;
use crate::laws::signatures;
use crate::laws::texts;
use crate::septic::fp7::Fp7;
use crate::septic::point::SepticPoint;
use crate::septic::schnorr;
use crate::septic::schnorr::SepticBenchWitness;
use crate::session;
use crate::session::SessionPair;
use crate::signer;
use crate::signer::{KeyPair, OrderSignature, SignError};
use crate::text;
use crate::wallet;
use crate::wallet::EthKey;
use vstd::prelude::*;
use vstd::string::*;

verus! {

// ── Session keys ──────────────────────────────────────────────────────────

/// The challenge is that of the commitment, the key and the hash of the message.
pub open spec fn challenge_of(
    e: int,
    r_x: Seq<u32>,
    pubkey_x: Seq<u32>,
    msg_hash: Seq<u8>,
) -> bool {
    exists|b: Seq<u8>| #[trigger]
        signatures::challenge_reads(b, r_x, pubkey_x, msg_hash) && e == bytes::be_value(
            digest::sha_256(b),
        ) % 199372529839252601278447397890876471698671718266839763841250021879int
}

/// A challenge is determined by the commitment, the key and the hash of the message.
pub proof fn lemma_challenge_of(e: int, r_x: Seq<u32>, pubkey_x: Seq<u32>, msg_hash: Seq<u8>)
    requires
        r_x.len() == 7,
        pubkey_x.len() == 7,
    ensures
        challenge_of(e, r_x, pubkey_x, msg_hash) <==> e == schnorr::challenge(
            r_x,
            pubkey_x,
            msg_hash,
        ),
{
    let b = bytes::le4_all(r_x) + bytes::le4_all(pubkey_x) + msg_hash;
    assert(signatures::challenge_reads(b, r_x, pubkey_x, msg_hash)) by {
        texts::lemma_words(b, r_x);
        texts::lemma_words(b, pubkey_x);
        assert(b.subrange(0, 28) =~= bytes::le4_all(r_x));
        assert(b.subrange(28, 56) =~= bytes::le4_all(pubkey_x));
        assert(b.subrange(56, b.len() as int) =~= msg_hash);
    }
    signatures::lemma_challenge(b, r_x, pubkey_x, msg_hash);
    if challenge_of(e, r_x, pubkey_x, msg_hash) {
        let c = choose|c: Seq<u8>| #[trigger]
            signatures::challenge_reads(c, r_x, pubkey_x, msg_hash) && e == bytes::be_value(
                digest::sha_256(c),
            ) % 199372529839252601278447397890876471698671718266839763841250021879int;
        signatures::lemma_challenge(c, r_x, pubkey_x, msg_hash);
    }
}

/// A challenge that is computed is that of the commitment, the key and the hash.
pub proof fn lemma_schnorr_challenge(
    r_x: &Fp7,
    pubkey_x: &Fp7,
    msg_hash: &[u8; 32],
    e: [u32; 8],
)
    requires
        call_ensures(schnorr::schnorr_challenge, (r_x, pubkey_x, msg_hash), e),
    ensures
        challenge_of(signatures::number(e@), r_x.0@, pubkey_x.0@, msg_hash@),
{
    signatures::lemma_number(e@);
    lemma_challenge_of(signatures::number(e@), r_x.0@, pubkey_x.0@, msg_hash@);
}

/// The check of an equation and of a whole signature, for a key of the curve.
pub proof fn lemma_schnorr_checks(
    pubkey: &SepticPoint,
    msg_hash: &[u8; 32],
    r_x: &[u32; 7],
    r_y: &[u32; 7],
    s: &[u32; 8],
    e: &[u32; 8],
    r: bool,
)
    requires
        pubkey@.valid(),
    ensures
        ({
            let holds = signatures::signature_holds(
                pubkey@,
                signatures::number(s@),
                signatures::number(e@),
                signatures::point_at(r_x@, r_y@),
            );
            &&& call_ensures(schnorr::schnorr_equation, (pubkey, r_x, r_y, s, e), r) ==> r == holds
            &&& call_ensures(schnorr::schnorr_verify, (pubkey, msg_hash, r_x, r_y, s, e), r) ==> (r
                <==> holds && challenge_of(
                signatures::number(e@),
                r_x@,
                pubkey.x.0@,
                msg_hash@,
            ))
        }),
{
    signatures::lemma_number(e@);
    signatures::lemma_verifies(*pubkey, r_x@, r_y@, s@, e@);
    lemma_challenge_of(signatures::number(e@), r_x@, pubkey.x.0@, msg_hash@);
}

/// A scalar is made of 32 bytes, lowest first, modulo the order of the group; there is none for a
/// multiple of the order.
pub proof fn lemma_scalar_from_bytes(b: &[u8; 32], r: Option<[u32; 8]>)
    requires
        call_ensures(schnorr::scalar_from_bytes, (b,), r),
    ensures
        r is None <==> bytes::le_value(b@)
            % 199372529839252601278447397890876471698671718266839763841250021879int == 0,
        r matches Some(k) ==> signatures::number(k@) == bytes::le_value(b@)
            % 199372529839252601278447397890876471698671718266839763841250021879int,
{
    match r {
        Some(k) => {
            signatures::lemma_number(k@);
        },
        None => {},
    }
}

/// The public point of a pair is the multiple of the generator by its scalar.
pub open spec fn is_pair(s: SessionPair) -> bool {
    s.pubkey@ == order::generator().times(signatures::number(s.priv_scalar@) as nat)
}

/// A pair is well-formed exactly when its point is that multiple, and the point is on the curve.
pub proof fn lemma_pair(s: SessionPair)
    ensures
        s.wf() <==> is_pair(s),
        is_pair(s) ==> s.pubkey@.valid(),
{
    signatures::lemma_number(s.priv_scalar@);
    order::lemma_generator();
    group::lemma_times_closed(
        order::generator(),
        signatures::number(s.priv_scalar@) as nat,
    );
}

/// The pair of a scalar has this scalar and its point.
pub proof fn lemma_from_scalar(priv_scalar: [u32; 8], s: SessionPair)
    requires
        call_ensures(SessionPair::from_scalar, (priv_scalar,), s),
    ensures
        is_pair(s),
        s.priv_scalar@ == priv_scalar@,
{
    lemma_pair(s);
}

/// A signature over the hash of a message with a nonce: the commitment is the multiple of the
/// generator by the nonce, the challenge is that of the commitment, the key and the hash, and the
/// equation holds for the key.
pub open spec fn signature_fits(
    sig: ([u32; 7], [u32; 7], [u32; 8], [u32; 8]),
    s: SessionPair,
    msg_hash: Seq<u8>,
) -> bool {
    &&& challenge_of(signatures::number(sig.3@), sig.0@, s.pubkey.x.0@, msg_hash)
    &&& signatures::signature_holds(
        s.pubkey@,
        signatures::number(sig.2@),
        signatures::number(sig.3@),
        signatures::point_at(sig.0@, sig.1@),
    )
}

/// Signing with a nonce succeeds exactly when the nonce is no multiple of the order of the group.
pub proof fn lemma_sign_with(
    s: &SessionPair,
    k: &[u32; 8],
    msg_hash: &[u8; 32],
    r: Option<([u32; 7], [u32; 7], [u32; 8], [u32; 8])>,
)
    requires
        is_pair(*s),
        call_ensures(SessionPair::sign_with, (s, k, msg_hash), r),
    ensures
        r is Some <==> signatures::number(k@) % (order::group_order() as int) != 0,
        r matches Some(sig) ==> {
            &&& signature_fits(sig, *s, msg_hash@)
            &&& signatures::point_at(sig.0@, sig.1@) == order::generator().times(
                signatures::number(k@) as nat,
            )
            &&& signatures::number(sig.2@) < order::group_order()
        },
{
    lemma_pair(*s);
    signatures::lemma_number(k@);
    match r {
        Some(sig) => {
            signatures::lemma_number(sig.2@);
            signatures::lemma_number(sig.3@);
            lemma_challenge_of(
                signatures::number(sig.3@),
                sig.0@,
                s.pubkey.x.0@,
                msg_hash@,
            );
            signatures::lemma_verifies(s.pubkey, sig.0@, sig.1@, sig.2@, sig.3@);
        },
        None => {},
    }
}

/// Signing with a random nonce gives a signature that fits.
pub proof fn lemma_sign(
    s: &SessionPair,
    msg_hash: &[u8; 32],
    sig: ([u32; 7], [u32; 7], [u32; 8], [u32; 8]),
)
    requires
        is_pair(*s),
        call_ensures(SessionPair::sign, (s, msg_hash), sig),
    ensures
        signature_fits(sig, *s, msg_hash@),
{
    lemma_pair(*s);
    signatures::lemma_number(sig.3@);
    lemma_challenge_of(signatures::number(sig.3@), sig.0@, s.pubkey.x.0@, msg_hash@);
    signatures::lemma_verifies(s.pubkey, sig.0@, sig.1@, sig.2@, sig.3@);
}

// ── Orders of session keys ────────────────────────────────────────────────

/// A buy order on `ETH/USDC` for the account, with index 0, the price and the quantity.
pub open spec fn is_buy_order(
    w: SepticBenchWitness,
    pubkey: SepticPoint,
    account: Seq<u8>,
    price: int,
    quantity: int,
) -> bool {
    &&& w.order.account_address@ == account
    &&& w.order.key_index == 0
    &&& w.order.market@ == "ETH/USDC"@
    &&& w.order.side@ == "BUY"@
    &&& w.order.price == price
    &&& w.order.quantity == quantity
    &&& w.order.pubkey_x.0@ == pubkey.x.0@
    &&& w.order.pubkey_y.0@ == pubkey.y.0@
}

/// The order is a buy order whose challenge is that of its own text, and its equation holds for
/// the key.
pub open spec fn buy_order_signed(
    w: SepticBenchWitness,
    pubkey: SepticPoint,
    account: Seq<u8>,
    price: int,
    quantity: int,
) -> bool {
    &&& is_buy_order(w, pubkey, account, price, quantity)
    &&& exists|t: Seq<char>|
        #![trigger vstd::utf8::encode_utf8(t)]
        texts::order_reads(
            t,
            w.order.market@,
            w.order.side@,
            w.order.price,
            w.order.quantity,
            w.order.account_address@,
        ) && challenge_of(
            signatures::number(w.challenge_e@),
            w.order.signature.r_x.0@,
            pubkey.x.0@,
            digest::sha_256(vstd::utf8::encode_utf8(t)),
        )
    &&& signatures::signature_holds(
        pubkey@,
        signatures::number(w.order.signature.s@),
        signatures::number(w.challenge_e@),
        signatures::commitment_of(w),
    )
}

/// An order that was built for a key of the curve is a signed buy order.
pub proof fn lemma_bench_built(
    w: SepticBenchWitness,
    pubkey: SepticPoint,
    account: Seq<u8>,
    price: u64,
    quantity: u64,
)
    requires
        session::bench_built(w, pubkey, account, price, quantity),
        pubkey@.valid(),
    ensures
        buy_order_signed(w, pubkey, account, price as int, quantity as int),
{
    let t = crate::messages::order_text("ETH/USDC"@, "BUY"@, price, quantity, account);
    texts::lemma_order_text(t, "ETH/USDC"@, "BUY"@, price, quantity, account);
    signatures::lemma_number(w.challenge_e@);
    let _ = vstd::utf8::encode_utf8(t);
    lemma_challenge_of(
        signatures::number(w.challenge_e@),
        w.order.signature.r_x.0@,
        pubkey.x.0@,
        digest::sha_256(vstd::utf8::encode_utf8(t)),
    );
    signatures::lemma_verifies(
        pubkey,
        w.order.signature.r_x.0@,
        w.order.signature.r_y.0@,
        w.order.signature.s@,
        w.challenge_e@,
    );
}

/// Building an order with a nonce succeeds exactly when the nonce is no multiple of the order of
/// the group, and gives a signed buy order whose commitment is the multiple by the nonce.
pub proof fn lemma_build_bench_with(
    s: &SessionPair,
    k: &[u32; 8],
    account: &[u8; 20],
    price: u64,
    quantity: u64,
    r: Option<SepticBenchWitness>,
)
    requires
        is_pair(*s),
        call_ensures(session::build_bench_with, (s, k, account, price, quantity), r),
    ensures
        r is Some <==> signatures::number(k@) % (order::group_order() as int) != 0,
        r matches Some(w) ==> buy_order_signed(
            w,
            s.pubkey,
            account@,
            price as int,
            quantity as int,
        ) && signatures::commitment_of(w) == order::generator().times(
            signatures::number(k@) as nat,
        ),
{
    lemma_pair(*s);
    signatures::lemma_number(k@);
    match r {
        Some(w) => {
            lemma_bench_built(w, s.pubkey, account@, price, quantity);
        },
        None => {},
    }
}

/// Building an order with a random nonce gives a signed buy order.
pub proof fn lemma_build_bench(
    s: &SessionPair,
    account: &[u8; 20],
    price: u64,
    quantity: u64,
    w: SepticBenchWitness,
)
    requires
        is_pair(*s),
        call_ensures(session::build_bench, (s, account, price, quantity), w),
    ensures
        buy_order_signed(w, s.pubkey, account@, price as int, quantity as int),
{
    lemma_pair(*s);
    lemma_bench_built(w, s.pubkey, account@, price, quantity);
}

// ── The signer of texts ───────────────────────────────────────────────────

/// The lists hold a scalar of eight limbs and the coordinates of its point.
pub open spec fn is_list_pair(priv_limbs: Seq<u32>, pub_x: Seq<u32>, pub_y: Seq<u32>) -> bool {
    &&& priv_limbs.len() == 8
    &&& pub_x.len() == 7
    &&& pub_y.len() == 7
    &&& signatures::point_at(pub_x, pub_y) == order::generator().times(
        signatures::number(priv_limbs) as nat,
    )
}

/// A key pair is made of every scalar but the multiples of the order of the group.
pub proof fn lemma_keypair(priv_limbs: &[u32; 8], r: Option<KeyPair>)
    requires
        call_ensures(signer::keypair_of, (priv_limbs,), r),
    ensures
        r is Some <==> signatures::number(priv_limbs@) % (order::group_order() as int) != 0,
        r matches Some(kp) ==> kp.priv_limbs@ == priv_limbs@ && is_list_pair(
            kp.priv_limbs@,
            kp.pub_x@,
            kp.pub_y@,
        ),
{
    signatures::lemma_number(priv_limbs@);
}

/// A random key pair is one, and its scalar lies between zero and the order of the group.
pub proof fn lemma_generated(kp: KeyPair)
    requires
        call_ensures(signer::generate_keypair, (), kp),
    ensures
        is_list_pair(kp.priv_limbs@, kp.pub_x@, kp.pub_y@),
        0 < signatures::number(kp.priv_limbs@) < order::group_order(),
{
    signatures::lemma_number(kp.priv_limbs@);
}

/// The signature of a text: it carries the key, its challenge is that of the text, and for a key
/// pair its equation holds.
pub open spec fn text_signed(
    sig: OrderSignature,
    priv_limbs: Seq<u32>,
    pub_x: Seq<u32>,
    pub_y: Seq<u32>,
    message: Seq<u8>,
) -> bool {
    &&& sig.pubkey_x@ == pub_x
    &&& sig.pubkey_y@ == pub_y
    &&& sig.r_x@.len() == 7 && sig.r_y@.len() == 7
    &&& sig.s@.len() == 8 && sig.challenge_e@.len() == 8
    &&& challenge_of(
        signatures::number(sig.challenge_e@),
        sig.r_x@,
        pub_x,
        digest::sha_256(message),
    )
    &&& is_list_pair(priv_limbs, pub_x, pub_y) ==> signatures::signature_holds(
        signatures::point_at(pub_x, pub_y),
        signatures::number(sig.s@),
        signatures::number(sig.challenge_e@),
        signatures::point_at(sig.r_x@, sig.r_y@),
    )
}

proof fn lemma_text_signed(
    sig: OrderSignature,
    priv_limbs: Seq<u32>,
    pub_x: Seq<u32>,
    pub_y: Seq<u32>,
    message: Seq<u8>,
    k: int,
)
    requires
        priv_limbs.len() == 8,
        pub_x.len() == 7,
        pub_y.len() == 7,
        k >= 0,
        signer::signed(sig, priv_limbs, pub_x, pub_y, message, k),
    ensures
        text_signed(sig, priv_limbs, pub_x, pub_y, message),
        signatures::point_at(sig.r_x@, sig.r_y@) == order::generator().times(k as nat),
        signatures::number(sig.s@) < order::group_order(),
{
    signatures::lemma_number(sig.s@);
    signatures::lemma_number(sig.challenge_e@);
    signatures::lemma_number(priv_limbs);
    lemma_challenge_of(
        signatures::number(sig.challenge_e@),
        sig.r_x@,
        pub_x,
        digest::sha_256(message),
    );
    let e = signatures::number(sig.challenge_e@) as nat;
    let a = signatures::number(priv_limbs) as nat;
    let s = signatures::number(sig.s@) as nat;
    signatures::lemma_response(a, k as nat, e, s);
}

/// Signing a text with a nonce: lists of the wrong length are refused first, then a nonce that is
/// a multiple of the order of the group; otherwise the text is signed.
pub proof fn lemma_sign_order_with(
    priv_limbs: &Vec<u32>,
    pub_x: &Vec<u32>,
    pub_y: &Vec<u32>,
    message: &str,
    k: &[u32; 8],
    r: Result<OrderSignature, SignError>,
)
    requires
        call_ensures(signer::sign_order_with, (priv_limbs, pub_x, pub_y, message, k), r),
    ensures
        r == Err::<OrderSignature, SignError>(SignError::PrivateKeyLength) <==> priv_limbs@.len()
            != 8,
        r == Err::<OrderSignature, SignError>(SignError::PublicKeyLength) <==> priv_limbs@.len()
            == 8 && !(pub_x@.len() == 7 && pub_y@.len() == 7),
        r == Err::<OrderSignature, SignError>(SignError::NoNonce) <==> priv_limbs@.len() == 8
            && pub_x@.len() == 7 && pub_y@.len() == 7 && signatures::number(k@) % (
        order::group_order() as int) == 0,
        r matches Ok(sig) ==> {
            &&& text_signed(
                sig,
                priv_limbs@,
                pub_x@,
                pub_y@,
                vstd::utf8::encode_utf8(message@),
            )
            &&& signatures::point_at(sig.r_x@, sig.r_y@) == order::generator().times(
                signatures::number(k@) as nat,
            )
        },
{
    signatures::lemma_number(k@);
    match r {
        Ok(sig) => {
            lemma_text_signed(
                sig,
                priv_limbs@,
                pub_x@,
                pub_y@,
                vstd::utf8::encode_utf8(message@),
                signatures::number(k@),
            );
        },
        Err(_) => {},
    }
}

/// Signing a text with a random nonce.
pub proof fn lemma_sign_order(
    priv_limbs: Vec<u32>,
    pub_x: Vec<u32>,
    pub_y: Vec<u32>,
    message: &str,
    r: Result<OrderSignature, SignError>,
)
    requires
        call_ensures(signer::sign_order, (priv_limbs, pub_x, pub_y, message), r),
    ensures
        r == Err::<OrderSignature, SignError>(SignError::PrivateKeyLength) <==> priv_limbs@.len()
            != 8,
        r == Err::<OrderSignature, SignError>(SignError::PublicKeyLength) <==> priv_limbs@.len()
            == 8 && !(pub_x@.len() == 7 && pub_y@.len() == 7),
        r is Ok <==> priv_limbs@.len() == 8 && pub_x@.len() == 7 && pub_y@.len() == 7,
        r matches Ok(sig) ==> text_signed(
            sig,
            priv_limbs@,
            pub_x@,
            pub_y@,
            vstd::utf8::encode_utf8(message@),
        ),
{
    match r {
        Ok(sig) => {
            let k = choose|k: int|
                0 < k < order::group_order() && #[trigger] signer::signed(
                    sig,
                    priv_limbs@,
                    pub_x@,
                    pub_y@,
                    vstd::utf8::encode_utf8(message@),
                    k,
                );
            lemma_text_signed(
                sig,
                priv_limbs@,
                pub_x@,
                pub_y@,
                vstd::utf8::encode_utf8(message@),
                k,
            );
        },
        Err(_) => {},
    }
}

// ── Accounts ──────────────────────────────────────────────────────────────

/// A secret lies between zero and the order of secp256k1.
pub open spec fn is_secret(secret: Seq<u8>) -> bool {
    0 < bytes::be_value(secret)
        < 0x1_0000_0000_0000_0000_0000_0000_0000_0000_0000_0000_0000_0000_0000_0000_0000_0000int
        - 432420386565659656852420866394968145599int
}

/// The account of a secret is that of its public key: bytes 12 to 31 of the digest of its two
/// coordinates.
pub open spec fn account_of(secret: Seq<u8>, account: Seq<u8>) -> bool {
    let key = wallet::secp256k1_key(secret);
    account == digest::keccak_256(key.subrange(1, key.len() as int)).subrange(12, 32)
}

/// A key is well-formed exactly when its secret is one and its address is the account.
pub proof fn lemma_eth_key(key: EthKey)
    requires
        wallet::secp256k1_key(key.secret@).len() >= 1,
    ensures
        key.wf() <==> is_secret(key.secret@) && account_of(key.secret@, key.address@),
{
    let k = wallet::secp256k1_key(key.secret@);
    assert(k.skip(1) =~= k.subrange(1, k.len() as int));
}

/// A key is made of every secret, with its account.
pub proof fn lemma_from_secret(secret: [u8; 32], r: Option<EthKey>)
    requires
        wallet::secp256k1_key(secret@).len() >= 1,
        call_ensures(EthKey::from_secret, (secret,), r),
    ensures
        r is Some <==> is_secret(secret@),
        r matches Some(key) ==> key.secret@ == secret@ && account_of(secret@, key.address@),
{
    match r {
        Some(key) => {
            lemma_eth_key(key);
        },
        None => {},
    }
}

/// Signing a text as wallets do: the signature is that of what a wallet hashes for the text, with
/// 27 added to its id, in hexadecimal; and it recovers the account of the key.
#[verifier::spinoff_prover]
#[verifier::rlimit(100)]
pub proof fn lemma_eth_sign_text(
    key: &EthKey,
    message: &str,
    hashed: Seq<u8>,
    b: Seq<u8>,
    r: Option<String>,
)
    requires
        key.wf(),
        call_ensures(wallet::eth_sign_text, (key, message), r),
        texts::wallet_reads(hashed, vstd::utf8::encode_utf8(message@)),
    ensures
        r is Some <==> wallet::secp256k1_signature(key.secret@, digest::keccak_256(hashed)) is Some,
        r matches Some(s) ==> {
            let raw = wallet::secp256k1_signature(key.secret@, digest::keccak_256(hashed))->0;
            &&& texts::spells(s@, b) && raw.len() == 65 && raw[64] <= 3 ==> b.subrange(0, 64)
                == raw.subrange(0, 64) && b[64] == raw[64] + 27
            &&& texts::reads_hex(vstd::utf8::encode_utf8(s@), b) ==> checks::account_signs(
                hashed,
                b,
                key.address@,
            )
        },
{
    let m = vstd::utf8::encode_utf8(message@);
    texts::lemma_eip191(hashed, m);
    match r {
        Some(s) => {
            let raw = wallet::secp256k1_signature(key.secret@, digest::keccak_256(hashed))->0;
            let form = wallet::ethereum_form(raw);
            texts::lemma_spells(s@, form);
            texts::lemma_spells(s@, b);
            if texts::spells(s@, b) && raw.len() == 65 && raw[64] <= 3 {
                assert(s@ == text::hex_chars(form) && s@ == text::hex_chars(b));
                text::lemma_hex_round_trip(form);
                text::lemma_hex_round_trip(b);
                assert(form == b);
                assert(form.subrange(0, 64) =~= raw.subrange(0, 64));
            }
            wallet::lemma_accepted(
                m,
                s@,
                key.address@,
                crate::guest::GuestError::AddressMismatch,
            );
            checks::lemma_signer(
                m,
                hashed,
                vstd::utf8::encode_utf8(s@),
                b,
                key.address@,
                crate::guest::GuestError::AddressMismatch,
            );
        },
        None => {},
    }
}

} // verus!
