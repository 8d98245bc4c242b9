use kalqix_signature::messages::{
    eth_order_message, pubkey_bytes, register_key_message, septic_order_message,
};
use kalqix_signature::types::{EthSignedOrder, SignedOrder};

#[test]
fn test_septic_order_message() {
    let order = SignedOrder {
        account_address: [
            0xab, 0x12, 0x34, 0x56, 0x78, 0x9a, 0xbc, 0xde, 0xf0, 0x11,
            0x22, 0x33, 0x44, 0x55, 0x66, 0x77, 0x88, 0x99, 0xaa, 0xef,
        ],
        key_index: 0,
        market: "ETH/USDC".to_string(),
        side: "BUY".to_string(),
        price: 2000000,
        quantity: 100,
        signature_r_x: [0u32; 7],
        signature_r_y: [0u32; 7],
        signature_s: [0u32; 8],
        challenge_e: [0u32; 8],
    };
    let msg = septic_order_message(&order);
    let expected = "ETH/USDC:BUY:2000000:100:ab123456789abcdef0112233445566778899aaef";
    assert_eq!(msg, expected);
}

#[test]
fn test_register_key_message() {
    let address: [u8; 20] = [
        0xab, 0xcd, 0xef, 0x01, 0x23, 0x45, 0x67, 0x89, 0xab, 0xcd,
        0xef, 0x01, 0x23, 0x45, 0x67, 0x89, 0xab, 0xcd, 0xef, 0x01,
    ];
    let pubkey_x: [u32; 7] = [
        0x04030201, 0x08070605, 0x0c0b0a09, 0x100f0e0d,
        0x14131211, 0x18171615, 0x1c1b1a19,
    ];
    let pubkey_y: [u32; 7] = [
        0x04030201, 0x08070605, 0x0c0b0a09, 0x100f0e0d,
        0x14131211, 0x18171615, 0x1c1b1a19,
    ];
    let msg = register_key_message(&address, &pubkey_x, &pubkey_y, 3);
    let expected = "Register KalqiX Session Key\n\npubkey: 0x0102030405060708090a0b0c0d0e0f101112131415161718191a1b1c0102030405060708090a0b0c0d0e0f101112131415161718191a1b1c\naccount: 0xabcdef0123456789abcdef0123456789abcdef01\nkey index: 3\nOnly sign this message for a trusted client!";
    assert_eq!(msg, expected);
}

#[test]
fn eth_order_message_format() {
    let order = EthSignedOrder {
        account_address: [0x0f; 20],
        key_index: 3,
        market: "BTC/USDC".to_string(),
        side: "SELL".to_string(),
        price: 18446744073709551615,
        quantity: 0,
        eth_signature_hex: String::new(),
    };
    assert_eq!(
        eth_order_message(&order),
        format!("BTC/USDC:SELL:18446744073709551615:0:{}", "0f".repeat(20))
    );
}

#[test]
fn pubkey_bytes_are_little_endian() {
    let x = [0x04030201, 0, 0, 0, 0, 0, 0x1c1b1a19];
    let y = [0, 0, 0, 0, 0, 0, 0xff];
    let b = pubkey_bytes(&x, &y);
    assert_eq!(&b[..4], &[1, 2, 3, 4]);
    assert_eq!(&b[24..28], &[0x19, 0x1a, 0x1b, 0x1c]);
    assert_eq!(&b[28..52], &[0; 24]);
    assert_eq!(&b[52..], &[0xff, 0, 0, 0]);
}
