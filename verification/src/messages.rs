//! The texts that accounts and session keys sign.
use crate::bytes;
use crate::text;
use crate::types::{EthSignedOrder, SignedOrder};
use vstd::prelude::*;
use vstd::string::*;

verus! {

/// `market:side:price:quantity:account`, the account in hexadecimal.
pub open spec fn order_text(
    market: Seq<char>,
    side: Seq<char>,
    price: u64,
    quantity: u64,
    account: Seq<u8>,
) -> Seq<char> {
    market + seq![':'] + side + seq![':'] + text::decimal(price as nat) + seq![':'] + text::decimal(
        quantity as nat,
    ) + seq![':'] + text::hex_chars(account)
}

/// The text of an order.
pub fn order_message(
    market: &str,
    side: &str,
    price: u64,
    quantity: u64,
    account: &[u8; 20],
) -> (r: String)
    ensures
        r@ == order_text(market@, side@, price, quantity, account@),
{
    proof {
        reveal_strlit(":");
        assert(":"@ =~= seq![':']);
    }
    let account_hex = text::hex_encode(account.as_slice());
    let mut s = String::new();
    s.append(market);
    s.append(":");
    s.append(side);
    s.append(":");
    text::append_decimal(&mut s, price);
    s.append(":");
    text::append_decimal(&mut s, quantity);
    s.append(":");
    s.append(account_hex.as_str());
    assert(s@ =~= order_text(market@, side@, price, quantity, account@));
    s
}

/// The text that a session key signs for an order.
pub fn septic_order_message(order: &SignedOrder) -> (r: String)
    ensures
        r@ == order_text(
            order.market@,
            order.side@,
            order.price,
            order.quantity,
            order.account_address@,
        ),
{
    order_message(
        order.market.as_str(),
        order.side.as_str(),
        order.price,
        order.quantity,
        &order.account_address,
    )
}

/// The text that an account signs for an order.
pub fn eth_order_message(order: &EthSignedOrder) -> (r: String)
    ensures
        r@ == order_text(
            order.market@,
            order.side@,
            order.price,
            order.quantity,
            order.account_address@,
        ),
{
    order_message(
        order.market.as_str(),
        order.side.as_str(),
        order.price,
        order.quantity,
        &order.account_address,
    )
}

/// The 56 bytes of a public key: first the coefficients of `x`, then those of `y`, each in
/// little-endian order.
pub fn pubkey_bytes(pubkey_x: &[u32; 7], pubkey_y: &[u32; 7]) -> (out: [u8; 56])
    ensures
        out@ == bytes::le4_all(pubkey_x@) + bytes::le4_all(pubkey_y@),
{
    let mut out: [u8; 56] = [0; 56];
    for i in 0..7usize
        invariant
            forall|k: int, j: int|
                0 <= k < i && 0 <= j < 4 ==> #[trigger] out[4 * k + j] == #[trigger] bytes::le4(
                    pubkey_x[k],
                )[j],
            forall|k: int, j: int|
                0 <= k < i && 0 <= j < 4 ==> #[trigger] out[28 + 4 * k + j]
                    == #[trigger] bytes::le4(pubkey_y[k])[j],
    {
        let x = bytes::u32_to_le(pubkey_x[i]);
        let y = bytes::u32_to_le(pubkey_y[i]);
        let ghost before = out@;
        out[i * 4] = x[0];
        out[i * 4 + 1] = x[1];
        out[i * 4 + 2] = x[2];
        out[i * 4 + 3] = x[3];
        out[28 + i * 4] = y[0];
        out[28 + i * 4 + 1] = y[1];
        out[28 + i * 4 + 2] = y[2];
        out[28 + i * 4 + 3] = y[3];
        assert forall|k: int, j: int| 0 <= k < i + 1 && 0 <= j < 4 implies #[trigger] out[4 * k + j]
            == #[trigger] bytes::le4(pubkey_x[k])[j] by {
            if k < i {
                assert(out[4 * k + j] == before[4 * k + j]);
            } else {
                assert(x@[j] == bytes::le4(pubkey_x[k])[j]);
            }
        }
        assert forall|k: int, j: int| 0 <= k < i + 1 && 0 <= j < 4 implies #[trigger] out[28 + 4 * k
            + j] == #[trigger] bytes::le4(pubkey_y[k])[j] by {
            if k < i {
                assert(out[28 + 4 * k + j] == before[28 + 4 * k + j]);
            } else {
                assert(y@[j] == bytes::le4(pubkey_y[k])[j]);
            }
        }
    }
    proof {
        bytes::lemma_le4_all(pubkey_x@);
        bytes::lemma_le4_all(pubkey_y@);
        let expected = bytes::le4_all(pubkey_x@) + bytes::le4_all(pubkey_y@);
        assert forall|n: int| 0 <= n < 56 implies out[n] == expected[n] by {
            if n < 28 {
                let k = n / 4;
                let j = n % 4;
                assert(out[4 * k + j] == bytes::le4(pubkey_x[k])[j]);
                assert(bytes::le4_all(pubkey_x@)[4 * k + j] == bytes::le4(pubkey_x@[k])[j]);
            } else {
                let k = (n - 28) / 4;
                let j = (n - 28) % 4;
                assert(out[28 + 4 * k + j] == bytes::le4(pubkey_y[k])[j]);
                assert(bytes::le4_all(pubkey_y@)[4 * k + j] == bytes::le4(pubkey_y@[k])[j]);
            }
        }
        assert(out@ =~= expected);
    }
    out
}

/// The text that an account signs to register a session key.
pub open spec fn register_text(
    address: Seq<u8>,
    pubkey_x: Seq<u32>,
    pubkey_y: Seq<u32>,
    key_index: u8,
) -> Seq<char> {
    "Register KalqiX Session Key\n\npubkey: 0x"@ + text::hex_chars(
        bytes::le4_all(pubkey_x) + bytes::le4_all(pubkey_y),
    ) + "\naccount: 0x"@ + text::hex_chars(address) + "\nkey index: "@ + text::decimal(
        key_index as nat,
    ) + "\nOnly sign this message for a trusted client!"@
}

/// The text that an account signs to register a session key.
pub fn register_key_message(
    address: &[u8; 20],
    pubkey_x: &[u32; 7],
    pubkey_y: &[u32; 7],
    key_index: u8,
) -> (r: String)
    ensures
        r@ == register_text(address@, pubkey_x@, pubkey_y@, key_index),
{
    let key_bytes = pubkey_bytes(pubkey_x, pubkey_y);
    let pubkey_hex = text::hex_encode(key_bytes.as_slice());
    let address_hex = text::hex_encode(address.as_slice());
    let mut s = String::new();
    s.append("Register KalqiX Session Key\n\npubkey: 0x");
    s.append(pubkey_hex.as_str());
    s.append("\naccount: 0x");
    s.append(address_hex.as_str());
    s.append("\nkey index: ");
    text::append_decimal(&mut s, key_index as u64);
    s.append("\nOnly sign this message for a trusted client!");
    assert(s@ =~= register_text(address@, pubkey_x@, pubkey_y@, key_index));
    s
}

/// A registration text determines the account, the key and the index.
pub proof fn lemma_register_text_injective(
    address: Seq<u8>,
    pubkey_x: Seq<u32>,
    pubkey_y: Seq<u32>,
    key_index: u8,
    address2: Seq<u8>,
    pubkey_x2: Seq<u32>,
    pubkey_y2: Seq<u32>,
    key_index2: u8,
)
    requires
        address.len() == 20 && pubkey_x.len() == 7 && pubkey_y.len() == 7,
        address2.len() == 20 && pubkey_x2.len() == 7 && pubkey_y2.len() == 7,
        register_text(address, pubkey_x, pubkey_y, key_index) == register_text(
            address2,
            pubkey_x2,
            pubkey_y2,
            key_index2,
        ),
    ensures
        address == address2,
        pubkey_x == pubkey_x2,
        pubkey_y == pubkey_y2,
        key_index == key_index2,
{
    let t = register_text(address, pubkey_x, pubkey_y, key_index);
    let key = bytes::le4_all(pubkey_x) + bytes::le4_all(pubkey_y);
    let key2 = bytes::le4_all(pubkey_x2) + bytes::le4_all(pubkey_y2);
    bytes::lemma_le4_all(pubkey_x);
    bytes::lemma_le4_all(pubkey_y);
    bytes::lemma_le4_all(pubkey_x2);
    bytes::lemma_le4_all(pubkey_y2);
    let a = "Register KalqiX Session Key\n\npubkey: 0x"@.len() as int;
    let b = a + 112;
    let c = b + "\naccount: 0x"@.len();
    let d = c + 40;
    let e = d + "\nkey index: "@.len();
    let f = t.len() - "\nOnly sign this message for a trusted client!"@.len();
    assert(text::hex_chars(key) =~= t.subrange(a, b));
    assert(text::hex_chars(key2) =~= t.subrange(a, b));
    assert(text::hex_chars(address) =~= t.subrange(c, d));
    assert(text::hex_chars(address2) =~= t.subrange(c, d));
    assert(text::decimal(key_index as nat) =~= t.subrange(e, f));
    assert(text::decimal(key_index2 as nat) =~= t.subrange(e, f));
    text::lemma_hex_round_trip(key);
    text::lemma_hex_round_trip(key2);
    text::lemma_hex_round_trip(address);
    text::lemma_hex_round_trip(address2);
    text::lemma_decimal_injective(key_index as nat, key_index2 as nat);
    assert(bytes::le4_all(pubkey_x) =~= key.take(28));
    assert(bytes::le4_all(pubkey_x2) =~= key2.take(28));
    assert(bytes::le4_all(pubkey_y) =~= key.skip(28));
    assert(bytes::le4_all(pubkey_y2) =~= key2.skip(28));
    bytes::lemma_le4_all_injective(pubkey_x, pubkey_x2);
    bytes::lemma_le4_all_injective(pubkey_y, pubkey_y2);
}

} // verus!
