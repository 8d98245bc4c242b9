use kalqix_signature::eth::{
    decode_hex_65, eip191_hash, recover_eth_address, recover_eth_address_kalqix, same_address,
    HexError, RecoverError,
};
use kalqix_signature::text::write_usize_ascii;
use kalqix_signature::wallet::{eth_address_from_key, eth_sign, eth_sign_text, eth_sign_with_secret, EthKey};

fn secret(last: u8) -> [u8; 32] {
    let mut s = [0u8; 32];
    s[31] = last;
    s
}

fn unhex<const N: usize>(s: &str) -> [u8; N] {
    hex::decode(s).expect("hex").try_into().expect("length")
}

#[test]
fn eip191_digest_of_hello() {
    let expected: [u8; 32] =
        unhex("50b2c43fd39106bafbba0da34fc430e1f91e3c96ea2acee2bc34119f92b37750");
    assert_eq!(eip191_hash("hello"), expected);
}

#[test]
fn accounts_of_small_keys() {
    assert_eq!(
        eth_address_from_key(&secret(1)),
        Some(unhex("7e5f4552091a69125d5dfcb7b8c2659029395bdf"))
    );
    assert_eq!(
        eth_address_from_key(&secret(2)),
        Some(unhex("2b5ad5c4795c026514f8317c7a215e218dccd6cf"))
    );
    assert_eq!(eth_address_from_key(&secret(0)), None);
    assert_eq!(eth_address_from_key(&[0xff; 32]), None);
    assert!(EthKey::from_secret(secret(0)).is_none());
}

#[test]
fn a_signature_gives_back_its_account() {
    let key = EthKey::from_secret(secret(7)).expect("key");
    let sig_hex = eth_sign_text(&key, "hello").expect("signed");
    assert_eq!(sig_hex.len(), 130);
    let sig = decode_hex_65(&sig_hex).expect("hex");
    assert!(sig[64] == 27 || sig[64] == 28);
    assert_eq!(recover_eth_address_kalqix(b"hello", &sig), Ok(key.address));
    assert_eq!(recover_eth_address(&eip191_hash("hello"), &sig), Ok(key.address));
    let mut plain = sig;
    plain[64] -= 27;
    assert_eq!(recover_eth_address(&eip191_hash("hello"), &plain), Ok(key.address));
    assert_ne!(recover_eth_address_kalqix(b"hullo", &sig), Ok(key.address));
    assert_eq!(eth_sign(&key, &eip191_hash("hello")), Some(sig_hex.clone()));
    assert_eq!(eth_sign_with_secret(secret(7), "hello"), Some(sig_hex));
    assert_eq!(eth_sign_with_secret(secret(0), "hello"), None);
}

#[test]
fn signatures_that_do_not_recover() {
    let digest = eip191_hash("hello");
    assert_eq!(recover_eth_address(&digest, &[0; 65]), Err(RecoverError::InvalidSignature));
    assert_eq!(recover_eth_address(&digest, &[0xff; 65]), Err(RecoverError::InvalidSignature));
    let key = EthKey::from_secret(secret(7)).expect("key");
    let mut sig = decode_hex_65(&eth_sign(&key, &digest).expect("signed")).expect("hex");
    sig[64] = 4;
    assert_eq!(recover_eth_address(&digest, &sig), Err(RecoverError::InvalidRecoveryId));
    sig[64] = 31;
    assert_eq!(recover_eth_address(&digest, &sig), Err(RecoverError::InvalidRecoveryId));
    let mut none = [0u8; 65];
    none[31] = 5;
    none[63] = 1;
    assert_eq!(recover_eth_address(&digest, &none), Err(RecoverError::RecoveryFailed));
}

#[test]
fn random_keys_are_keys() {
    let a = EthKey::random();
    let b = EthKey::random();
    assert_eq!(eth_address_from_key(&a.secret), Some(a.address));
    assert!(!same_address(&a.address, &b.address));
    assert!(same_address(&a.address, &a.address));
}

#[test]
fn texts_that_are_not_signatures() {
    assert_eq!(decode_hex_65("zz"), Err(HexError::InvalidHex));
    assert_eq!(decode_hex_65("abc"), Err(HexError::InvalidHex));
    assert_eq!(decode_hex_65("abcd"), Err(HexError::WrongLength));
    assert_eq!(decode_hex_65(""), Err(HexError::WrongLength));
    assert_eq!(decode_hex_65(&"Ab".repeat(65)), Ok([0xab; 65]));
    assert_eq!(decode_hex_65(&"ab".repeat(66)), Err(HexError::WrongLength));
}

#[test]
fn decimal_digits() {
    let mut buf = [0u8; 20];
    assert_eq!(write_usize_ascii(0, &mut buf), b"0");
    assert_eq!(write_usize_ascii(7, &mut buf), b"7");
    assert_eq!(write_usize_ascii(100, &mut buf), b"100");
    assert_eq!(&buf[17..], b"100");
    assert_eq!(buf[0], b'0');
    assert_eq!(write_usize_ascii(usize::MAX, &mut buf), usize::MAX.to_string().as_bytes());
}
