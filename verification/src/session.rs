//! Session keys: key pairs on the septic curve and what they sign.
use crate::algebra::order;
use crate::algebra::order_prime;
use crate::digest;
use crate::digest::sha256;
use crate::messages;
use crate::messages::order_message;
use crate::septic::batch;
use crate::septic::fp7::Fp7;
use crate::septic::point::SepticPoint;
use crate::septic::scalar;
use crate::septic::schnorr;
use crate::septic::schnorr::{
    is_order_multiple, random_scalar, schnorr_sign, SepticBenchWitness, SepticSchnorrOrder,
    SepticSchnorrSignature,
};
use vstd::prelude::*;
use vstd::string::*;

verus! {

/// A private scalar and its public point.
#[derive(Clone, Copy, Debug)]
pub struct SessionPair {
    pub priv_scalar: [u32; 8],
    pub pubkey: SepticPoint,
}

impl SessionPair {
    /// The public point is the multiple of the generator by the private scalar.
    pub open spec fn wf(&self) -> bool {
        self.pubkey@ == order::generator().times(scalar::value(self.priv_scalar@) as nat)
    }

    /// The pair with the given private scalar.
    pub fn from_scalar(priv_scalar: [u32; 8]) -> (r: SessionPair)
        ensures
            r.wf(),
            r.priv_scalar == priv_scalar,
            r.pubkey@.valid(),
    {
        let pubkey = SepticPoint::generator().scalar_mul(&priv_scalar);
        SessionPair { priv_scalar, pubkey }
    }

    /// Signs the hash of a message with the given nonce.  There is no signature when the nonce is
    /// a multiple of the group order, for which the commitment would be infinity.
    pub fn sign_with(&self, k_limbs: &[u32; 8], msg_hash: &[u8; 32]) -> (r: Option<
        ([u32; 7], [u32; 7], [u32; 8], [u32; 8]),
    >)
        requires
            self.wf(),
        ensures
            r is Some <==> scalar::value(k_limbs@) % (order::group_order() as int) != 0,
            r matches Some(sig) ==> {
                &&& schnorr::affine(sig.0@, sig.1@) == order::generator().times(
                    scalar::value(k_limbs@) as nat,
                )
                &&& scalar::value(sig.3@) == schnorr::challenge(
                    sig.0@,
                    self.pubkey.x.0@,
                    msg_hash@,
                )
                &&& scalar::value(sig.2@) == (scalar::value(k_limbs@) - scalar::value(sig.3@)
                    * scalar::value(self.priv_scalar@)) % (order::group_order() as int)
                &&& schnorr::verifies(self.pubkey, sig.0@, sig.1@, sig.2@, sig.3@)
            },
    {
        if is_order_multiple(k_limbs) {
            return None;
        }
        Some(schnorr_sign(&self.priv_scalar, &self.pubkey, k_limbs, msg_hash))
    }

    /// Signs the hash of a message with a random nonce.
    pub fn sign(&self, msg_hash: &[u8; 32]) -> (sig: ([u32; 7], [u32; 7], [u32; 8], [u32; 8]))
        requires
            self.wf(),
        ensures
            scalar::value(sig.3@) == schnorr::challenge(sig.0@, self.pubkey.x.0@, msg_hash@),
            schnorr::verifies(self.pubkey, sig.0@, sig.1@, sig.2@, sig.3@),
    {
        let k = random_nonce();
        self.sign_with(&k, msg_hash).unwrap()
    }
}

/// Every nonce of a list has a signature: none is a multiple of the group order.
pub open spec fn nonces_sign(nonces: Seq<[u32; 8]>) -> bool {
    forall|i: int|
        0 <= i < nonces.len() ==> scalar::value((#[trigger] nonces[i])@) % (
        order::group_order() as int) != 0
}

/// A random nonce.
pub fn random_nonce() -> (k: [u32; 8])
    ensures
        0 < scalar::value(k@) < order::group_order(),
        scalar::value(k@) % (order::group_order() as int) != 0,
{
    let k = random_scalar();
    proof {
        vstd::arithmetic::div_mod::lemma_small_mod(
            scalar::value(k@) as nat,
            order::group_order(),
        );
    }
    k
}

/// Random nonces.
pub fn random_nonces(count: usize) -> (nonces: Vec<[u32; 8]>)
    ensures
        nonces@.len() == count,
        nonces_sign(nonces@),
{
    let mut nonces: Vec<[u32; 8]> = Vec::new();
    for i in 0..count
        invariant
            nonces@.len() == i,
            nonces_sign(nonces@),
    {
        nonces.push(random_nonce());
    }
    nonces
}

/// A random pair.
pub fn make_session_pair() -> (pair: SessionPair)
    ensures
        pair.wf(),
        pair.pubkey@.valid(),
        !pair.pubkey.is_infinity,
        0 < scalar::value(pair.priv_scalar@) < order::group_order(),
{
    let k = random_nonce();
    proof {
        order_prime::lemma_multiple_infinity(scalar::value(k@) as nat);
    }
    SessionPair::from_scalar(k)
}

/// The hash that a session key signs for an order.
pub open spec fn order_hash(
    market: Seq<char>,
    side: Seq<char>,
    price: u64,
    quantity: u64,
    account: Seq<u8>,
) -> Seq<u8> {
    digest::sha_256(
        vstd::utf8::encode_utf8(messages::order_text(market, side, price, quantity, account)),
    )
}

/// The hash that a session key signs for an order.
pub fn hash_order(market: &str, side: &str, price: u64, quantity: u64, account: &[u8; 20]) -> (r:
    [u8; 32])
    ensures
        r@ == order_hash(market@, side@, price, quantity, account@),
{
    let message = order_message(market, side, price, quantity, account);
    sha256(message.as_str().as_bytes())
}

/// A buy order on `ETH/USDC` for the account, signed by the key.
pub open spec fn bench_built(
    w: SepticBenchWitness,
    pubkey: SepticPoint,
    account: Seq<u8>,
    price: u64,
    quantity: u64,
) -> bool {
    &&& w.order.account_address@ == account
    &&& w.order.key_index == 0
    &&& w.order.market@ == "ETH/USDC"@
    &&& w.order.side@ == "BUY"@
    &&& w.order.price == price
    &&& w.order.quantity == quantity
    &&& w.order.pubkey_x == pubkey.x
    &&& w.order.pubkey_y == pubkey.y
    &&& scalar::value(w.challenge_e@) == schnorr::challenge(
        w.order.signature.r_x.0@,
        pubkey.x.0@,
        order_hash("ETH/USDC"@, "BUY"@, price, quantity, account),
    )
    &&& schnorr::verifies(
        pubkey,
        w.order.signature.r_x.0@,
        w.order.signature.r_y.0@,
        w.order.signature.s@,
        w.challenge_e@,
    )
}

/// A buy order on `ETH/USDC` for the account, signed by the session key with the given nonce.
/// There is none when the nonce is a multiple of the group order.
pub fn build_bench_with(
    session: &SessionPair,
    k_limbs: &[u32; 8],
    account: &[u8; 20],
    price: u64,
    quantity: u64,
) -> (r: Option<SepticBenchWitness>)
    requires
        session.wf(),
    ensures
        r is Some <==> scalar::value(k_limbs@) % (order::group_order() as int) != 0,
        r matches Some(w) ==> {
            &&& bench_built(w, session.pubkey, account@, price, quantity)
            &&& schnorr::affine(w.order.signature.r_x.0@, w.order.signature.r_y.0@)
                == order::generator().times(scalar::value(k_limbs@) as nat)
            &&& scalar::value(w.order.signature.s@) == (scalar::value(k_limbs@) - scalar::value(
                w.challenge_e@,
            ) * scalar::value(session.priv_scalar@)) % (order::group_order() as int)
        },
{
    let msg_hash = hash_order("ETH/USDC", "BUY", price, quantity, account);
    match session.sign_with(k_limbs, &msg_hash) {
        Some((r_x, r_y, s, e)) => {
            let order = SepticSchnorrOrder {
                account_address: *account,
                key_index: 0,
                market: "ETH/USDC".to_owned(),
                side: "BUY".to_owned(),
                price,
                quantity,
                signature: SepticSchnorrSignature { r_x: Fp7(r_x), r_y: Fp7(r_y), s },
                pubkey_x: session.pubkey.x,
                pubkey_y: session.pubkey.y,
            };
            Some(SepticBenchWitness { order, challenge_e: e })
        },
        None => None,
    }
}

/// A buy order on `ETH/USDC` for the account, signed by the session key with a random nonce.
pub fn build_bench(session: &SessionPair, account: &[u8; 20], price: u64, quantity: u64) -> (w:
    SepticBenchWitness)
    requires
        session.wf(),
    ensures
        bench_built(w, session.pubkey, account@, price, quantity),
{
    let k = random_nonce();
    build_bench_with(session, &k, account, price, quantity).unwrap()
}

/// An order that was built for a key other than infinity is accepted.
pub proof fn lemma_built_verifies(
    w: SepticBenchWitness,
    pubkey: SepticPoint,
    account: Seq<u8>,
    price: u64,
    quantity: u64,
)
    requires
        bench_built(w, pubkey, account, price, quantity),
        !pubkey.is_infinity,
    ensures
        batch::bench_verifies(w),
{
}

} // verus!
