use kalqix_signature::septic::{
    random_scalar, schnorr_sign, schnorr_verify, Fp7, SepticPoint, GROUP_ORDER,
};
use kalqix_signature::septic::schnorr::{
    scalar_from_bytes, scalar_or_redraw, schnorr_challenge,
};
use kalqix_signature::septic::u256_gte;
use kalqix_signature::signer::{
    generate_keypair, keypair_of, sign_order, sign_order_with, SignError,
};
use sha2::{Digest, Sha256};

#[test]
fn lib_test_generator_on_curve() {
    assert!(SepticPoint::generator().on_curve());
}

#[test]
fn test_scalar_mul_group_order_is_infinity() {
    let g = SepticPoint::generator();
    let result = g.scalar_mul(&GROUP_ORDER);
    assert!(result.is_infinity, "r·G must be point at infinity");
}

/// What `schnorr_sign` returns is accepted by `schnorr_verify`.
#[test]
fn test_sign_verify_roundtrip_via_shared() {
    let g = SepticPoint::generator();
    let a_limbs = random_scalar();
    let pubkey = g.scalar_mul(&a_limbs);

    let msg = "ETH/USDC:BUY:2000000:100:ab123456789abcdef0112233445566778899aaef";
    let msg_hash: [u8; 32] = Sha256::digest(msg.as_bytes()).into();
    let k_limbs = random_scalar();

    let (r_x, r_y, s, e) = schnorr_sign(&a_limbs, &pubkey, &k_limbs, &msg_hash);
    assert!(schnorr_verify(&pubkey, &msg_hash, &r_x, &r_y, &s, &e));
}

fn order_hash() -> [u8; 32] {
    Sha256::digest(
        "ETH/USDC:BUY:2000000:100:ab123456789abcdef0112233445566778899aaef".as_bytes(),
    )
    .into()
}

const R_X: [u32; 7] =
    [1183976815, 763229735, 1391818946, 552406207, 57835454, 1608386991, 1725272370];
const R_Y: [u32; 7] =
    [1206313512, 270286941, 244827900, 1949990409, 612480876, 776545623, 1342692810];
const S: [u32; 8] = [
    0x95867540, 0xe4e5e1f6, 0xd791238d, 0xac4bf153, 0x29f3038e, 0xa4302783, 0x115cc8, 0,
];
const E: [u32; 8] = [
    0x447199bc, 0x8bfad5ca, 0x18960074, 0xfcf69c08, 0xd8c00650, 0xf272c375, 0x11f50f0, 0,
];

#[test]
fn signature_with_a_known_nonce() {
    let a = [5, 0, 0, 0, 0, 0, 0, 0];
    let k = [7, 0, 0, 0, 0, 0, 0, 0];
    let pubkey = SepticPoint::generator().scalar_mul(&a);
    let (r_x, r_y, s, e) = schnorr_sign(&a, &pubkey, &k, &order_hash());
    assert_eq!(r_x, R_X);
    assert_eq!(r_y, R_Y);
    assert_eq!(s, S);
    assert_eq!(e, E);
    assert_eq!(schnorr_challenge(&Fp7(R_X), &pubkey.x, &order_hash()), E);
}

#[test]
fn a_changed_signature_is_refused() {
    let a = [5, 0, 0, 0, 0, 0, 0, 0];
    let pubkey = SepticPoint::generator().scalar_mul(&a);
    assert!(schnorr_verify(&pubkey, &order_hash(), &R_X, &R_Y, &S, &E));
    let mut s = S;
    s[0] ^= 1;
    assert!(!schnorr_verify(&pubkey, &order_hash(), &R_X, &R_Y, &s, &E));
    let mut e = E;
    e[0] ^= 1;
    assert!(!schnorr_verify(&pubkey, &order_hash(), &R_X, &R_Y, &S, &e));
    assert!(!schnorr_verify(&pubkey, &[0; 32], &R_X, &R_Y, &S, &E));
    assert!(!schnorr_verify(&pubkey, &order_hash(), &R_Y, &R_X, &S, &E));
    let other = SepticPoint::generator();
    assert!(!schnorr_verify(&other, &order_hash(), &R_X, &R_Y, &S, &E));
}

#[test]
fn coordinates_out_of_range_are_refused() {
    let mut x = SepticPoint::generator().x;
    let y = SepticPoint::generator().y;
    x.0[0] += 2130706433;
    let key = SepticPoint::new(x, y);
    let k = [7, 0, 0, 0, 0, 0, 0, 0];
    let one = [1, 0, 0, 0, 0, 0, 0, 0];
    let (r_x, r_y, s, e) = schnorr_sign(&one, &key, &k, &order_hash());
    assert!(!schnorr_verify(&key, &order_hash(), &r_x, &r_y, &s, &e));
}

#[test]
fn scalars_from_bytes() {
    let mut b = [0u8; 32];
    for (i, v) in b.iter_mut().enumerate() {
        *v = i as u8;
    }
    assert_eq!(
        scalar_from_bytes(&b),
        Some([
            0xfffe123d, 0xb562d84b, 0x6f14435a, 0x458e1da8, 0x571418b7, 0x5c81bfae, 0x33c48f, 0
        ])
    );
    assert_eq!(scalar_from_bytes(&[0; 32]), None);
    let mut order = [0u8; 32];
    for (i, limb) in GROUP_ORDER.iter().enumerate() {
        order[4 * i..4 * i + 4].copy_from_slice(&limb.to_le_bytes());
    }
    assert_eq!(scalar_from_bytes(&order), None);
}

#[test]
fn zero_draws_are_drawn_again() {
    let mut b = [0; 32];
    b[0] = 9;
    assert_eq!(scalar_or_redraw(&b), [9, 0, 0, 0, 0, 0, 0, 0]);
    let first = scalar_or_redraw(&[0; 32]);
    let second = scalar_or_redraw(&[0; 32]);
    for k in [first, second] {
        assert_ne!(k, [0; 8]);
        assert!(!u256_gte(&k, &GROUP_ORDER));
    }
    assert_ne!(first, second);
    assert_ne!(first, [1, 0, 0, 0, 0, 0, 0, 0]);
}

#[test]
fn random_scalars_differ() {
    assert_ne!(random_scalar(), random_scalar());
}

#[test]
fn lists_of_other_lengths_are_refused() {
    let k = [7, 0, 0, 0, 0, 0, 0, 0];
    let e = sign_order(vec![1; 7], vec![0; 7], vec![0; 7], "m").expect_err("short");
    assert_eq!(e, SignError::PrivateKeyLength);
    assert_eq!(e.message(), "priv_limbs must be length 8");
    let e = sign_order(vec![1; 8], vec![0; 7], vec![0; 8], "m").expect_err("long");
    assert_eq!(e, SignError::PublicKeyLength);
    assert_eq!(e.message(), "pub_x/pub_y must be length 7");
    let e = sign_order_with(&vec![1; 8], &vec![0; 6], &vec![0; 7], "m", &k).expect_err("short");
    assert_eq!(e, SignError::PublicKeyLength);
    let e = sign_order_with(&vec![1; 8], &vec![0; 7], &vec![0; 7], "m", &[0; 8]).expect_err("k");
    assert_eq!(e, SignError::NoNonce);
    assert_eq!(e.message(), "no nonce");
}

#[test]
fn signer_with_a_known_nonce() {
    let kp = keypair_of(&[5, 0, 0, 0, 0, 0, 0, 0]).expect("key pair");
    assert_eq!(
        kp.pub_x,
        vec![1802183323, 578369319, 705392214, 905316741, 1750073676, 1742753354, 654289264]
    );
    let sig = sign_order_with(
        &kp.priv_limbs,
        &kp.pub_x,
        &kp.pub_y,
        "ETH/USDC:BUY:2000000:100:ab123456789abcdef0112233445566778899aaef",
        &[7, 0, 0, 0, 0, 0, 0, 0],
    )
    .expect("signed");
    assert_eq!(sig.r_x, R_X.to_vec());
    assert_eq!(sig.r_y, R_Y.to_vec());
    assert_eq!(sig.s, S.to_vec());
    assert_eq!(sig.challenge_e, E.to_vec());
    assert_eq!(sig.pubkey_x, kp.pub_x);
    assert_eq!(sig.pubkey_y, kp.pub_y);
    assert!(keypair_of(&GROUP_ORDER).is_none());
}

#[test]
fn generated_keys_sign() {
    let kp = generate_keypair();
    let sig = sign_order(kp.priv_limbs, kp.pub_x.clone(), kp.pub_y.clone(), "hello").expect("signed");
    let to7 = |v: &Vec<u32>| -> [u32; 7] { v.clone().try_into().expect("seven") };
    let to8 = |v: &Vec<u32>| -> [u32; 8] { v.clone().try_into().expect("eight") };
    let pubkey = SepticPoint::new(Fp7(to7(&kp.pub_x)), Fp7(to7(&kp.pub_y)));
    let hash: [u8; 32] = Sha256::digest("hello".as_bytes()).into();
    assert!(schnorr_verify(
        &pubkey,
        &hash,
        &to7(&sig.r_x),
        &to7(&sig.r_y),
        &to8(&sig.s),
        &to8(&sig.challenge_e),
    ));
}
