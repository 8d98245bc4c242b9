//! The signer of the frontend: key pairs and signatures as lists of limbs.
use crate::algebra::group;
use crate::algebra::order;
use crate::algebra::order_prime;
use crate::digest;
use crate::digest::sha256;
use crate::guest;
use crate::messages;
use crate::septic::fp7::Fp7;
use crate::septic::point::SepticPoint;
use crate::septic::scalar;
use crate::septic::schnorr;
use crate::septic::schnorr::{is_order_multiple, schnorr_sign};
use crate::session::random_nonce;
use crate::types::{SessionKey, SignedOrder};
use vstd::prelude::*;
use vstd::string::*;

verus! {

/// A key pair: eight limbs of the private scalar and seven coefficients of each coordinate.
#[derive(Clone, Debug)]
pub struct KeyPair {
    pub priv_limbs: Vec<u32>,
    pub pub_x: Vec<u32>,
    pub pub_y: Vec<u32>,
}

/// A signature with its challenge and the key that it was made with.
#[derive(Clone, Debug)]
pub struct OrderSignature {
    pub r_x: Vec<u32>,
    pub r_y: Vec<u32>,
    pub s: Vec<u32>,
    pub challenge_e: Vec<u32>,
    pub pubkey_x: Vec<u32>,
    pub pubkey_y: Vec<u32>,
}

/// Why an order is not signed.
#[derive(Clone, Copy, Debug, PartialEq, Eq, Structural)]
pub enum SignError {
    PrivateKeyLength,
    PublicKeyLength,
    /// The nonce is a multiple of the group order.
    NoNonce,
}

impl SignError {
    /// The text of the error.
    pub open spec fn text(self) -> Seq<char> {
        match self {
            SignError::PrivateKeyLength => "priv_limbs must be length 8"@,
            SignError::PublicKeyLength => "pub_x/pub_y must be length 7"@,
            SignError::NoNonce => "no nonce"@,
        }
    }

    /// The text of the error.
    pub fn message(&self) -> (r: &'static str)
        ensures
            r@ == self.text(),
    {
        match self {
            SignError::PrivateKeyLength => "priv_limbs must be length 8",
            SignError::PublicKeyLength => "pub_x/pub_y must be length 7",
            SignError::NoNonce => "no nonce",
        }
    }
}

/// Eight limbs as an array.
fn limbs_8(v: &Vec<u32>) -> (r: [u32; 8])
    requires
        v@.len() == 8,
    ensures
        r@ == v@,
{
    let mut r: [u32; 8] = [0; 8];
    for i in 0..8usize
        invariant
            v@.len() == 8,
            forall|k: int| 0 <= k < i ==> r[k] == v[k],
    {
        r[i] = v[i];
    }
    assert(r@ =~= v@);
    r
}

/// Seven coefficients as an array.
fn limbs_7(v: &Vec<u32>) -> (r: [u32; 7])
    requires
        v@.len() == 7,
    ensures
        r@ == v@,
{
    let mut r: [u32; 7] = [0; 7];
    for i in 0..7usize
        invariant
            v@.len() == 7,
            forall|k: int| 0 <= k < i ==> r[k] == v[k],
    {
        r[i] = v[i];
    }
    assert(r@ =~= v@);
    r
}

/// The elements of a slice as a list.
fn list(a: &[u32]) -> (r: Vec<u32>)
    ensures
        r@ == a@,
{
    let mut r: Vec<u32> = Vec::new();
    r.extend_from_slice(a);
    assert(r@ =~= a@);
    r
}

/// The lists hold a private scalar and its public point.
pub open spec fn is_key_pair(priv_limbs: Seq<u32>, pub_x: Seq<u32>, pub_y: Seq<u32>) -> bool {
    &&& priv_limbs.len() == 8
    &&& pub_x.len() == 7
    &&& pub_y.len() == 7
    &&& schnorr::affine(pub_x, pub_y) == order::generator().times(scalar::value(priv_limbs) as nat)
}

/// The key pair of a private scalar.  There is none for a multiple of the group order, whose
/// public point would be infinity.
pub fn keypair_of(priv_limbs: &[u32; 8]) -> (r: Option<KeyPair>)
    ensures
        r is Some <==> scalar::value(priv_limbs@) % (order::group_order() as int) != 0,
        r matches Some(kp) ==> kp.priv_limbs@ == priv_limbs@ && is_key_pair(
            kp.priv_limbs@,
            kp.pub_x@,
            kp.pub_y@,
        ),
{
    proof {
        scalar::lemma_value_bound(priv_limbs@);
        order_prime::lemma_multiple_infinity(scalar::value(priv_limbs@) as nat);
    }
    let pubkey = SepticPoint::generator().scalar_mul(priv_limbs);
    if pubkey.is_infinity {
        return None;
    }
    Some(
        KeyPair {
            priv_limbs: list(priv_limbs.as_slice()),
            pub_x: list(pubkey.x.0.as_slice()),
            pub_y: list(pubkey.y.0.as_slice()),
        },
    )
}

/// A random key pair.
pub fn generate_keypair() -> (kp: KeyPair)
    ensures
        is_key_pair(kp.priv_limbs@, kp.pub_x@, kp.pub_y@),
        0 < scalar::value(kp.priv_limbs@) < order::group_order(),
{
    let priv_limbs = random_nonce();
    keypair_of(&priv_limbs).unwrap()
}

/// The lists are not of the right lengths.
pub open spec fn length_error(
    priv_limbs: Seq<u32>,
    pub_x: Seq<u32>,
    pub_y: Seq<u32>,
) -> Option<SignError> {
    if priv_limbs.len() != 8 {
        Some(SignError::PrivateKeyLength)
    } else if pub_x.len() != 7 || pub_y.len() != 7 {
        Some(SignError::PublicKeyLength)
    } else {
        None
    }
}

/// The signature of a text that the private scalar makes with the nonce.
pub open spec fn signed(
    sig: OrderSignature,
    priv_limbs: Seq<u32>,
    pub_x: Seq<u32>,
    pub_y: Seq<u32>,
    message: Seq<u8>,
    k: int,
) -> bool {
    &&& sig.r_x@.len() == 7 && sig.r_y@.len() == 7 && sig.s@.len() == 8 && sig.challenge_e@.len()
        == 8
    &&& sig.pubkey_x@ == pub_x
    &&& sig.pubkey_y@ == pub_y
    &&& schnorr::affine(sig.r_x@, sig.r_y@) == order::generator().times(k as nat)
    &&& scalar::value(sig.challenge_e@) == schnorr::challenge(
        sig.r_x@,
        pub_x,
        digest::sha_256(message),
    )
    &&& scalar::value(sig.s@) == (k - scalar::value(sig.challenge_e@) * scalar::value(priv_limbs))
        % (order::group_order() as int)
}

/// The equation of a signature holds for its key.
pub open spec fn signature_holds(sig: OrderSignature) -> bool {
    schnorr::schnorr_sum(
        schnorr::affine(sig.pubkey_x@, sig.pubkey_y@),
        scalar::value(sig.s@),
        scalar::value(sig.challenge_e@),
    ) == schnorr::affine(sig.r_x@, sig.r_y@)
}

/// An order with the signature that a key pair made over its text is signed by this key, as the
/// verifier asks.
pub proof fn lemma_order_signed(
    sig: OrderSignature,
    priv_limbs: Seq<u32>,
    k: int,
    order: SignedOrder,
    key: SessionKey,
)
    requires
        is_key_pair(priv_limbs, key.pubkey_x@, key.pubkey_y@),
        signed(
            sig,
            priv_limbs,
            key.pubkey_x@,
            key.pubkey_y@,
            vstd::utf8::encode_utf8(
                messages::order_text(
                    order.market@,
                    order.side@,
                    order.price,
                    order.quantity,
                    order.account_address@,
                ),
            ),
            k,
        ),
        signature_holds(sig),
        order.signature_r_x@ == sig.r_x@,
        order.signature_r_y@ == sig.r_y@,
        order.signature_s@ == sig.s@,
        order.challenge_e@ == sig.challenge_e@,
    ensures
        guest::order_signed(order, key),
{
    scalar::lemma_value_bound(priv_limbs);
    order::lemma_generator();
    group::lemma_times_closed(order::generator(), scalar::value(priv_limbs) as nat);
    let pubkey = SepticPoint { x: Fp7(key.pubkey_x), y: Fp7(key.pubkey_y), is_infinity: false };
    assert(pubkey@ == schnorr::affine(key.pubkey_x@, key.pubkey_y@));
}

/// Signs a text with the given nonce.
pub fn sign_order_with(
    priv_limbs: &Vec<u32>,
    pub_x: &Vec<u32>,
    pub_y: &Vec<u32>,
    message: &str,
    k_limbs: &[u32; 8],
) -> (r: Result<OrderSignature, SignError>)
    ensures
        match length_error(priv_limbs@, pub_x@, pub_y@) {
            Some(e) => r == Err::<OrderSignature, SignError>(e),
            None => if scalar::value(k_limbs@) % (order::group_order() as int) == 0 {
                r == Err::<OrderSignature, SignError>(SignError::NoNonce)
            } else {
                r matches Ok(sig) && signed(
                    sig,
                    priv_limbs@,
                    pub_x@,
                    pub_y@,
                    message.spec_bytes(),
                    scalar::value(k_limbs@),
                ) && (is_key_pair(priv_limbs@, pub_x@, pub_y@) ==> signature_holds(sig))
            },
        },
{
    if priv_limbs.len() != 8 {
        return Err(SignError::PrivateKeyLength);
    }
    if pub_x.len() != 7 || pub_y.len() != 7 {
        return Err(SignError::PublicKeyLength);
    }
    let a_limbs = limbs_8(priv_limbs);
    let px = limbs_7(pub_x);
    let py = limbs_7(pub_y);
    if is_order_multiple(k_limbs) {
        return Err(SignError::NoNonce);
    }
    let pubkey = SepticPoint::new(Fp7(px), Fp7(py));
    let msg_hash = sha256(message.as_bytes());
    let (r_x, r_y, s, e) = schnorr_sign(&a_limbs, &pubkey, k_limbs, &msg_hash);
    assert(pubkey@ == schnorr::affine(px@, py@));
    Ok(
        OrderSignature {
            r_x: list(r_x.as_slice()),
            r_y: list(r_y.as_slice()),
            s: list(s.as_slice()),
            challenge_e: list(e.as_slice()),
            pubkey_x: list(px.as_slice()),
            pubkey_y: list(py.as_slice()),
        },
    )
}

/// Signs a text with a random nonce.
pub fn sign_order(priv_limbs: Vec<u32>, pub_x: Vec<u32>, pub_y: Vec<u32>, message: &str) -> (r:
    Result<OrderSignature, SignError>)
    ensures
        match length_error(priv_limbs@, pub_x@, pub_y@) {
            Some(e) => r == Err::<OrderSignature, SignError>(e),
            None => r matches Ok(sig) && exists|k: int|
                0 < k < order::group_order() && #[trigger] signed(
                    sig,
                    priv_limbs@,
                    pub_x@,
                    pub_y@,
                    message.spec_bytes(),
                    k,
                ),
        },
        r matches Ok(sig) ==> (is_key_pair(priv_limbs@, pub_x@, pub_y@) ==> signature_holds(sig)),
{
    if priv_limbs.len() != 8 {
        return Err(SignError::PrivateKeyLength);
    }
    if pub_x.len() != 7 || pub_y.len() != 7 {
        return Err(SignError::PublicKeyLength);
    }
    let k = random_nonce();
    sign_order_with(&priv_limbs, &pub_x, &pub_y, message, &k)
}

} // verus!
