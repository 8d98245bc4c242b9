//! Ethereum accounts: EIP-191 digests and the recovery of signers.
use crate::bytes;
use crate::digest;
use crate::digest::keccak256;
use crate::text;
use k256::ecdsa::{RecoveryId, Signature, VerifyingKey};
use vstd::prelude::*;
use vstd::string::*;

verus! {

/// Why a signer cannot be recovered.
#[derive(Clone, Copy, Debug, PartialEq, Eq, Structural)]
pub enum RecoverError {
    /// A component of the signature is zero or not below the group order.
    InvalidSignature,
    /// The recovery id is not below 4.
    InvalidRecoveryId,
    /// There is no key for which the signature holds.
    RecoveryFailed,
}

/// The order of the group of secp256k1.
pub open spec fn secp256k1_order() -> int {
    0xFFFF_FFFF_FFFF_FFFF_FFFF_FFFF_FFFF_FFFE_BAAE_DCE6_AF48_A03B_BFD2_5E8C_D036_4141int
}

/// Both components of a signature, as big-endian integers, lie strictly between zero and the
/// group order.
pub open spec fn signature_in_range(sig: Seq<u8>) -> bool {
    &&& sig.len() == 64
    &&& 0 < bytes::be_value(sig.take(32)) < secp256k1_order()
    &&& 0 < bytes::be_value(sig.skip(32)) < secp256k1_order()
}

/// The uncompressed public key for which a signature of a digest holds, if there is one.
pub uninterp spec fn secp256k1_recover(
    digest: Seq<u8>,
    sig: Seq<u8>,
    recovery_id: u8,
) -> Option<Seq<u8>>;

/// `k256::ecdsa::Signature::from_slice`: 64 bytes are accepted exactly when both components are
/// in range.
#[verifier::external_body]
fn signature_parses(sig: &[u8]) -> (r: bool)
    ensures
        r == signature_in_range(sig@),
{
    Signature::from_slice(sig).is_ok()
}

/// `k256::ecdsa::VerifyingKey::recover_from_prehash`, on a signature and a recovery id that
/// parse: a function of the digest, the signature and the id.  The key is handed out in the
/// uncompressed form of 65 bytes.
#[verifier::external_body]
fn recover_key(digest: &[u8; 32], sig: &[u8], recovery_id: u8) -> (r: Option<Vec<u8>>)
    requires
        signature_in_range(sig@),
        recovery_id <= 3,
    ensures
        r is Some == secp256k1_recover(digest@, sig@, recovery_id) is Some,
        r is Some ==> r->0@ == secp256k1_recover(digest@, sig@, recovery_id)->0,
        r is Some ==> r->0@.len() == 65,
{
    let signature = Signature::from_slice(sig).ok()?;
    let id = RecoveryId::from_byte(recovery_id)?;
    let key = VerifyingKey::recover_from_prehash(digest, &signature, id).ok()?;
    Some(key.to_encoded_point(false).as_bytes().to_vec())
}

/// `"\x19Ethereum Signed Message:\n"`.
pub open spec fn eip191_prefix() -> Seq<u8> {
    seq![
        25u8,
        69u8,
        116u8,
        104u8,
        101u8,
        114u8,
        101u8,
        117u8,
        109u8,
        32u8,
        83u8,
        105u8,
        103u8,
        110u8,
        101u8,
        100u8,
        32u8,
        77u8,
        101u8,
        115u8,
        115u8,
        97u8,
        103u8,
        101u8,
        58u8,
        10u8,
    ]
}

/// The bytes that are hashed for a message: the prefix, the length in decimal, the message.
pub open spec fn eip191_bytes(message: Seq<u8>) -> Seq<u8> {
    eip191_prefix() + text::decimal_bytes(message.len()) + message
}

/// The digest of a message.
pub open spec fn eip191_digest(message: Seq<u8>) -> Seq<u8> {
    digest::keccak_256(eip191_bytes(message))
}

/// The account of an uncompressed public key: the last 20 bytes of the hash of its coordinates.
pub open spec fn key_account(key: Seq<u8>) -> Seq<u8> {
    digest::keccak_256(key.skip(1)).subrange(12, 32)
}

/// The recovery id in the last byte of a signature; 27 and above are counted from 27.
pub open spec fn signature_recovery_id(v: u8) -> u8 {
    if v >= 27 {
        (v - 27) as u8
    } else {
        v
    }
}

/// The account that signed a digest.
pub open spec fn signer(digest: Seq<u8>, sig: Seq<u8>) -> Result<Seq<u8>, RecoverError> {
    let id = signature_recovery_id(sig[64]);
    if !signature_in_range(sig.take(64)) {
        Err(RecoverError::InvalidSignature)
    } else if id > 3 {
        Err(RecoverError::InvalidRecoveryId)
    } else {
        match secp256k1_recover(digest, sig.take(64), id) {
            Some(key) => Ok(key_account(key)),
            None => Err(RecoverError::RecoveryFailed),
        }
    }
}

/// The digest of a message given by its bytes.
pub fn eip191_hash_bytes(message: &[u8]) -> (r: [u8; 32])
    ensures
        r@ == eip191_digest(message@),
{
    let mut data: Vec<u8> = vec![
        25,
        69,
        116,
        104,
        101,
        114,
        101,
        117,
        109,
        32,
        83,
        105,
        103,
        110,
        101,
        100,
        32,
        77,
        101,
        115,
        115,
        97,
        103,
        101,
        58,
        10,
    ];
    assert(data@ =~= eip191_prefix());
    let mut len_buf: [u8; 20] = [0; 20];
    let len_str = text::write_usize_ascii(message.len(), &mut len_buf);
    data.extend_from_slice(len_str);
    data.extend_from_slice(message);
    assert(data@ =~= eip191_bytes(message@));
    keccak256(data.as_slice())
}

/// The digest of a text.
pub fn eip191_hash(message: &str) -> (r: [u8; 32])
    ensures
        r@ == eip191_digest(message.spec_bytes()),
{
    eip191_hash_bytes(message.as_bytes())
}

/// The account of an uncompressed public key.
pub fn address_of_key(key: &[u8]) -> (address: [u8; 20])
    requires
        key.len() >= 1,
    ensures
        address@ == key_account(key@),
{
    let hash = keccak256(vstd::slice::slice_subrange(key, 1, key.len()));
    assert(key@.subrange(1, key@.len() as int) =~= key@.skip(1));
    let mut address: [u8; 20] = [0; 20];
    for i in 0..20usize
        invariant
            hash@ == digest::keccak_256(key@.skip(1)),
            forall|k: int| 0 <= k < i ==> #[trigger] address[k] == hash[12 + k],
    {
        address[i] = hash[12 + i];
    }
    assert(address@ =~= key_account(key@));
    address
}

/// The account that signed a digest.
pub fn recover_eth_address(digest: &[u8; 32], sig_bytes: &[u8; 65]) -> (r: Result<
    [u8; 20],
    RecoverError,
>)
    ensures
        match signer(digest@, sig_bytes@) {
            Ok(a) => r is Ok && r->Ok_0@ == a,
            Err(e) => r is Err && r->Err_0 == e,
        },
{
    let sig = vstd::slice::slice_subrange(sig_bytes.as_slice(), 0, 64);
    assert(sig@ =~= sig_bytes@.take(64));
    if !signature_parses(sig) {
        return Err(RecoverError::InvalidSignature);
    }
    let v = sig_bytes[64];
    let recovery_id: u8 = if v >= 27 {
        v - 27
    } else {
        v
    };
    if recovery_id > 3 {
        return Err(RecoverError::InvalidRecoveryId);
    }
    match recover_key(digest, sig, recovery_id) {
        Some(key) => Ok(address_of_key(key.as_slice())),
        None => Err(RecoverError::RecoveryFailed),
    }
}

/// The account that signed a message.
pub fn recover_eth_address_kalqix(message_bytes: &[u8], sig_bytes: &[u8; 65]) -> (r: Result<
    [u8; 20],
    RecoverError,
>)
    ensures
        match signer(eip191_digest(message_bytes@), sig_bytes@) {
            Ok(a) => r is Ok && r->Ok_0@ == a,
            Err(e) => r is Err && r->Err_0 == e,
        },
{
    let digest = eip191_hash_bytes(message_bytes);
    recover_eth_address(&digest, sig_bytes)
}

/// Why a text is not a signature of 65 bytes.
#[derive(Clone, Copy, Debug, PartialEq, Eq, Structural)]
pub enum HexError {
    /// It is not an even number of hexadecimal digits.
    InvalidHex,
    /// It has another length.
    WrongLength,
}

/// The 65 bytes of a signature in hexadecimal.
pub fn decode_hex_65(hex_str: &str) -> (r: Result<[u8; 65], HexError>)
    ensures
        match r {
            Ok(b) => text::is_hex(hex_str.spec_bytes()) && hex_str.spec_bytes().len() == 130 && b@
                == text::hex_bytes(hex_str.spec_bytes()),
            Err(HexError::InvalidHex) => !text::is_hex(hex_str.spec_bytes()),
            Err(HexError::WrongLength) => text::is_hex(hex_str.spec_bytes())
                && hex_str.spec_bytes().len() != 130,
        },
{
    let decoded = match text::hex_decode(hex_str) {
        Some(v) => v,
        None => return Err(HexError::InvalidHex),
    };
    if decoded.len() != 65 {
        return Err(HexError::WrongLength);
    }
    let mut out: [u8; 65] = [0; 65];
    for i in 0..65usize
        invariant
            decoded.len() == 65,
            forall|k: int| 0 <= k < i ==> #[trigger] out[k] == decoded[k],
    {
        out[i] = decoded[i];
    }
    assert(out@ =~= decoded@);
    Ok(out)
}

/// Whether two addresses agree.
pub fn same_address(a: &[u8; 20], b: &[u8; 20]) -> (r: bool)
    ensures
        r == (a@ == b@),
{
    for i in 0..20usize
        invariant
            forall|k: int| 0 <= k < i ==> a[k] == b[k],
    {
        if a[i] != b[i] {
            return false;
        }
    }
    assert(a@ =~= b@);
    true
}

} // verus!
