//! Ethereum keys: their accounts and signatures.
use crate::bytes;
use crate::eth;
use crate::eth::{address_of_key, eip191_hash};
use crate::guest;
use crate::text;
use k256::ecdsa::signature::hazmat::PrehashSigner;
use k256::ecdsa::{RecoveryId, Signature, SigningKey};
use vstd::prelude::*;
use vstd::string::*;

verus! {

/// A secret key, as a big-endian integer, lies strictly between zero and the group order.
pub open spec fn secret_in_range(secret: Seq<u8>) -> bool {
    0 < bytes::be_value(secret) < eth::secp256k1_order()
}

/// The uncompressed public key of a secret key.
pub uninterp spec fn secp256k1_key(secret: Seq<u8>) -> Seq<u8>;

/// The signature of a digest, 64 bytes and the recovery id, if signing succeeds.
pub uninterp spec fn secp256k1_signature(secret: Seq<u8>, digest: Seq<u8>) -> Option<Seq<u8>>;

/// `k256::ecdsa::SigningKey::from_slice` and its verifying key, in the uncompressed form of 65
/// bytes: 32 bytes are accepted exactly when they are in range.
#[verifier::external_body]
fn public_key(secret: &[u8; 32]) -> (r: Option<Vec<u8>>)
    ensures
        r is Some <==> secret_in_range(secret@),
        r matches Some(key) ==> key@ == secp256k1_key(secret@),
        r matches Some(key) ==> key@.len() == 65,
{
    let key = SigningKey::from_slice(secret).ok()?;
    Some(key.verifying_key().to_encoded_point(false).as_bytes().to_vec())
}

/// `PrehashSigner::sign_prehash` of `k256::ecdsa::SigningKey`, which draws its nonce from the key
/// and the digest: a function of both.  The components of the signature are in range, the
/// recovery id is below 4, and recovery with that id gives back the public key.  When signing
/// fails is left unsaid.
#[verifier::external_body]
fn sign_digest(secret: &[u8; 32], digest: &[u8; 32]) -> (r: Option<[u8; 65]>)
    requires
        secret_in_range(secret@),
    ensures
        r is Some == secp256k1_signature(secret@, digest@) is Some,
        r matches Some(sig) ==> sig@ == secp256k1_signature(secret@, digest@)->0,
        r matches Some(sig) ==> eth::signature_in_range(sig@.take(64)),
        r matches Some(sig) ==> sig@[64] <= 3,
        r matches Some(sig) ==> eth::secp256k1_recover(digest@, sig@.take(64), sig@[64]) == Some(
            secp256k1_key(secret@),
        ),
{
    let key = SigningKey::from_slice(secret).ok()?;
    let (sig, id): (Signature, RecoveryId) = key.sign_prehash(digest).ok()?;
    let mut out = [0u8; 65];
    out[..64].copy_from_slice(&sig.to_bytes());
    out[64] = id.to_byte();
    Some(out)
}

/// `k256::ecdsa::SigningKey::random` with the generator of the operating system: some secret
/// key in range.
#[verifier::external_body]
fn random_secret() -> (r: [u8; 32])
    ensures
        secret_in_range(r@),
{
    SigningKey::random(&mut rand::rngs::OsRng).to_bytes().into()
}

/// An Ethereum key and its account.
#[derive(Clone, Debug)]
pub struct EthKey {
    pub secret: [u8; 32],
    pub address: [u8; 20],
}

impl EthKey {
    /// The secret is a key, and the address is its account.
    pub open spec fn wf(&self) -> bool {
        &&& secret_in_range(self.secret@)
        &&& self.address@ == eth::key_account(secp256k1_key(self.secret@))
    }

    /// The key with the given secret, if the secret is in range.
    pub fn from_secret(secret: [u8; 32]) -> (r: Option<EthKey>)
        ensures
            r is Some <==> secret_in_range(secret@),
            r matches Some(key) ==> key.secret == secret && key.wf(),
    {
        match eth_address_from_key(&secret) {
            Some(address) => Some(EthKey { secret, address }),
            None => None,
        }
    }

    /// A random key.
    pub fn random() -> (r: EthKey)
        ensures
            r.wf(),
    {
        EthKey::from_secret(random_secret()).unwrap()
    }
}

/// The account of a secret key.
pub fn eth_address_from_key(secret: &[u8; 32]) -> (r: Option<[u8; 20]>)
    ensures
        r is Some <==> secret_in_range(secret@),
        r matches Some(address) ==> address@ == eth::key_account(secp256k1_key(secret@)),
{
    match public_key(secret) {
        Some(key) => Some(address_of_key(key.as_slice())),
        None => None,
    }
}

/// The 65 bytes of a signature whose recovery id is counted from 27.
pub open spec fn ethereum_form(sig: Seq<u8>) -> Seq<u8> {
    sig.update(64, (sig[64] + 27) as u8)
}

/// The signature of a digest in hexadecimal, with the recovery id counted from 27.
///
/// Whoever recovers the signer from it finds the account of the key.
pub fn eth_sign(key: &EthKey, digest: &[u8; 32]) -> (r: Option<String>)
    requires
        key.wf(),
    ensures
        r is Some <==> secp256k1_signature(key.secret@, digest@) is Some,
        r matches Some(s) ==> s@ == text::hex_chars(
            ethereum_form(secp256k1_signature(key.secret@, digest@)->0),
        ),
        r matches Some(s) ==> signature_of(s@, digest@, key.address@),
{
    match sign_digest(&key.secret, digest) {
        Some(sig) => {
            let mut out = sig;
            out[64] = sig[64] + 27;
            proof {
                assert(out@ =~= ethereum_form(sig@));
                assert(out@.take(64) =~= sig@.take(64));
                text::lemma_hex_round_trip(out@);
            }
            Some(text::hex_encode(out.as_slice()))
        },
        None => None,
    }
}

/// The text is a signature in hexadecimal from which the signer of the digest is recovered.
pub open spec fn signature_of(sig_hex: Seq<char>, digest: Seq<u8>, account: Seq<u8>) -> bool {
    let b = vstd::utf8::encode_utf8(sig_hex);
    &&& text::is_hex(b)
    &&& b.len() == 130
    &&& eth::signer(digest, text::hex_bytes(b)) == Ok::<Seq<u8>, eth::RecoverError>(account)
}

/// A signature over the digest of a message that gives back the account is accepted.
pub proof fn lemma_accepted(
    message: Seq<u8>,
    sig_hex: Seq<char>,
    account: Seq<u8>,
    mismatch: guest::GuestError,
)
    requires
        signature_of(sig_hex, eth::eip191_digest(message), account),
    ensures
        guest::signer_refusal(message, vstd::utf8::encode_utf8(sig_hex), account, mismatch) is None,
{
}

/// Signs a text as Ethereum wallets do.
pub fn eth_sign_text(key: &EthKey, message: &str) -> (r: Option<String>)
    requires
        key.wf(),
    ensures
        r is Some <==> secp256k1_signature(
            key.secret@,
            eth::eip191_digest(message.spec_bytes()),
        ) is Some,
        r matches Some(s) ==> s@ == text::hex_chars(
            ethereum_form(
                secp256k1_signature(key.secret@, eth::eip191_digest(message.spec_bytes()))->0,
            ),
        ),
        r matches Some(s) ==> signature_of(
            s@,
            eth::eip191_digest(message.spec_bytes()),
            key.address@,
        ),
{
    let digest = eip191_hash(message);
    eth_sign(key, &digest)
}

/// Signs a text with the given secret.  There is no signature when the secret is out of range or
/// signing fails.
pub fn eth_sign_with_secret(secret: [u8; 32], message: &str) -> (r: Option<String>)
    ensures
        r is Some <==> secret_in_range(secret@) && secp256k1_signature(
            secret@,
            eth::eip191_digest(message.spec_bytes()),
        ) is Some,
        r matches Some(s) ==> s@ == text::hex_chars(
            ethereum_form(
                secp256k1_signature(secret@, eth::eip191_digest(message.spec_bytes()))->0,
            ),
        ),
{
    match EthKey::from_secret(secret) {
        Some(key) => eth_sign_text(&key, message),
        None => None,
    }
}

} // verus!
