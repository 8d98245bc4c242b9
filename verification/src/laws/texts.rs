//! Encodings read back: what numbers, bytes and texts stand for.
use crate::bytes;
use crate::eth;
use crate::merkle;
use crate::messages;
use crate::text;
use vstd::arithmetic::power;
use vstd::prelude::*;
use vstd::string::*;

verus! {

// ── Decimal numbers ───────────────────────────────────────────────────────

/// The number that decimal digits stand for, highest first.
pub open spec fn read_decimal(s: Seq<char>) -> int
    decreases s.len(),
{
    if s.len() == 0 {
        0
    } else {
        10 * read_decimal(s.drop_last()) + (s.last() as int - '0' as int)
    }
}

/// One or more decimal digits without a leading zero, or the single digit zero.
pub open spec fn is_numeral(s: Seq<char>) -> bool {
    &&& s.len() >= 1
    &&& forall|i: int| 0 <= i < s.len() ==> '0' <= #[trigger] s[i] && s[i] <= '9'
    &&& s.len() > 1 ==> s[0] != '0'
}

/// The text is the numeral of the number.
pub open spec fn numeral_of(s: Seq<char>, n: int) -> bool {
    is_numeral(s) && read_decimal(s) == n
}

/// The bytes are the codes of the characters.
pub open spec fn codes_of(b: Seq<u8>, s: Seq<char>) -> bool {
    b.len() == s.len() && forall|i: int| 0 <= i < s.len() ==> #[trigger] b[i] as int == s[i] as int
}

proof fn lemma_numeral_positive(s: Seq<char>)
    requires
        is_numeral(s),
    ensures
        read_decimal(s) >= 0,
        s[0] != '0' ==> read_decimal(s) >= 1,
    decreases s.len(),
{
    if s.len() == 1 {
        assert(s.drop_last() =~= Seq::<char>::empty());
        assert(read_decimal(s.drop_last()) == 0);
    } else {
        assert(s.drop_last()[0] == s[0]);
        lemma_numeral_positive(s.drop_last());
    }
}

/// A number has one numeral.
pub proof fn lemma_numeral_unique(s: Seq<char>, t: Seq<char>)
    requires
        is_numeral(s),
        is_numeral(t),
        read_decimal(s) == read_decimal(t),
    ensures
        s == t,
    decreases s.len(),
{
    let a = s.drop_last();
    let b = t.drop_last();
    assert(s.last() == t.last() && read_decimal(a) == read_decimal(b)) by {
        let x = s.last() as int - '0' as int;
        let y = t.last() as int - '0' as int;
        assert(0 <= x <= 9 && 0 <= y <= 9);
        assert(10 * read_decimal(a) + x == 10 * read_decimal(b) + y);
    }
    if s.len() > 1 && t.len() > 1 {
        assert(a[0] == s[0] && b[0] == t[0]);
        lemma_numeral_unique(a, b);
    } else if s.len() > 1 {
        assert(b =~= Seq::<char>::empty());
        assert(a[0] == s[0]);
        lemma_numeral_positive(a);
    } else if t.len() > 1 {
        assert(a =~= Seq::<char>::empty());
        assert(b[0] == t[0]);
        lemma_numeral_positive(b);
    } else {
        assert(a =~= b);
    }
    assert(s =~= a.push(s.last()));
    assert(t =~= b.push(t.last()));
}

/// The digits of a number read back as this number.
pub proof fn lemma_decimal(n: nat)
    ensures
        numeral_of(text::decimal(n), n as int),
    decreases n,
{
    let s = text::decimal(n);
    if n >= 10 {
        lemma_decimal(n / 10);
        let head = text::decimal(n / 10);
        assert(s.drop_last() =~= head);
        assert(s[0] == head[0]);
        assert forall|i: int| 0 <= i < s.len() implies '0' <= #[trigger] s[i] && s[i] <= '9' by {
            if i < head.len() {
                assert(s[i] == head[i]);
            }
        }
        if head[0] == '0' {
            assert(head.drop_last() =~= Seq::<char>::empty());
            assert(read_decimal(head.drop_last()) == 0);
            assert(read_decimal(head) == 0);
        }
    } else {
        assert(s.drop_last() =~= Seq::<char>::empty());
        assert(read_decimal(s.drop_last()) == 0);
    }
}

/// The codes of the digits of a number.
pub proof fn lemma_decimal_bytes(n: nat)
    ensures
        codes_of(text::decimal_bytes(n), text::decimal(n)),
    decreases n,
{
    if n >= 10 {
        lemma_decimal_bytes(n / 10);
        let s = text::decimal(n);
        let b = text::decimal_bytes(n);
        assert forall|i: int| 0 <= i < s.len() implies #[trigger] b[i] as int == s[i] as int by {
            if i < text::decimal(n / 10).len() {
                assert(text::decimal_bytes(n / 10)[i] as int == text::decimal(n / 10)[i] as int);
            }
        }
    }
}

// ── Hexadecimal text ──────────────────────────────────────────────────────

/// The sixteen digits of lower-case hexadecimal text, in the order of their values.
pub open spec fn hex_alphabet() -> Seq<char> {
    seq!['0', '1', '2', '3', '4', '5', '6', '7', '8', '9', 'a', 'b', 'c', 'd', 'e', 'f']
}

/// The text spells the bytes: for each byte the digit of its upper half, then that of its lower
/// half.
pub open spec fn spells(s: Seq<char>, b: Seq<u8>) -> bool {
    &&& s.len() == 2 * b.len()
    &&& forall|i: int|
        0 <= i < b.len() ==> s[2 * i] == hex_alphabet()[#[trigger] b[i] as int / 16] && s[2 * i + 1]
            == hex_alphabet()[b[i] as int % 16]
}

/// The hexadecimal text of bytes spells them, and no other text does.
#[verifier::spinoff_prover]
#[verifier::rlimit(60)]
pub proof fn lemma_spells(s: Seq<char>, b: Seq<u8>)
    ensures
        spells(text::hex_chars(b), b),
        spells(s, b) ==> s == text::hex_chars(b),
{
    let h = text::hex_chars(b);
    assert forall|i: int| 0 <= i < b.len() implies h[2 * i] == hex_alphabet()[#[trigger] b[i] as int
        / 16] && h[2 * i + 1] == hex_alphabet()[b[i] as int % 16] by {
        assert(h[2 * i] == text::hex_digit(b[i] as int / 16));
        assert(h[2 * i + 1] == text::hex_digit(b[i] as int % 16));
    }
    if spells(s, b) {
        assert forall|n: int| 0 <= n < s.len() implies s[n] == h[n] by {
            let i = n / 2;
            assert(0 <= i < b.len());
            let _ = b[i];
            assert(n == 2 * i || n == 2 * i + 1);
        }
        assert(s =~= h);
    }
}

/// The code is that of the hexadecimal digit with the value, in either case.
pub open spec fn nibble(c: u8, v: int) -> bool {
    0 <= v < 16 && (c as int == hex_alphabet()[v] as int || v >= 10 && c as int
        == hex_alphabet()[v] as int - 32)
}

/// The codes spell the bytes in hexadecimal digits of either case.
pub open spec fn reads_hex(s: Seq<u8>, b: Seq<u8>) -> bool {
    &&& s.len() == 2 * b.len()
    &&& forall|i: int|
        0 <= i < b.len() ==> nibble(s[2 * i], #[trigger] b[i] as int / 16) && nibble(
            s[2 * i + 1],
            b[i] as int % 16,
        )
}

proof fn lemma_nibble(c: u8, v: int)
    ensures
        nibble(c, v) <==> text::hex_digit_value(c) == Some(v),
{
    if 0 <= v < 16 {
        assert(hex_alphabet()[v] as int == if v < 10 {
            48 + v
        } else {
            87 + v
        });
    }
}

/// Codes are hexadecimal text exactly when they spell some bytes, and then stand for these.
pub proof fn lemma_reads_hex(s: Seq<u8>, b: Seq<u8>)
    ensures
        text::is_hex(s) ==> reads_hex(s, text::hex_bytes(s)),
        reads_hex(s, b) ==> text::is_hex(s) && text::hex_bytes(s) == b,
{
    if text::is_hex(s) {
        lemma_hex_reads(s);
    }
    if reads_hex(s, b) {
        lemma_hex_read(s, b);
    }
}

proof fn lemma_hex_reads(s: Seq<u8>)
    requires
        text::is_hex(s),
    ensures
        reads_hex(s, text::hex_bytes(s)),
{
    let h = text::hex_bytes(s);
    assert forall|i: int| 0 <= i < h.len() implies nibble(s[2 * i], #[trigger] h[i] as int / 16)
        && nibble(s[2 * i + 1], h[i] as int % 16) by {
        let x = text::hex_digit_value(s[2 * i])->0;
        let y = text::hex_digit_value(s[2 * i + 1])->0;
        assert(text::hex_digit_value(s[2 * i]) is Some);
        assert(text::hex_digit_value(s[2 * i + 1]) is Some);
        assert(h[i] == 16 * x + y);
        lemma_nibble(s[2 * i], x);
        lemma_nibble(s[2 * i + 1], y);
    }
}

proof fn lemma_hex_read(s: Seq<u8>, b: Seq<u8>)
    requires
        reads_hex(s, b),
    ensures
        text::is_hex(s),
        text::hex_bytes(s) == b,
{
    assert forall|n: int| 0 <= n < s.len() implies text::hex_digit_value(#[trigger] s[n])
        is Some by {
        let i = n / 2;
        assert(nibble(s[2 * i], b[i] as int / 16) && nibble(s[2 * i + 1], b[i] as int % 16));
        lemma_nibble(s[2 * i], b[i] as int / 16);
        lemma_nibble(s[2 * i + 1], b[i] as int % 16);
        assert(n == 2 * i || n == 2 * i + 1);
    }
    assert forall|i: int| 0 <= i < b.len() implies text::hex_bytes(s)[i] == b[i] by {
        assert(nibble(s[2 * i], b[i] as int / 16) && nibble(s[2 * i + 1], b[i] as int % 16));
        lemma_nibble(s[2 * i], b[i] as int / 16);
        lemma_nibble(s[2 * i + 1], b[i] as int % 16);
    }
    assert(text::hex_bytes(s) =~= b);
}

// ── Little-endian bytes ───────────────────────────────────────────────────

/// The integer in the four bytes from a place on, lowest first.
pub open spec fn word_at(b: Seq<u8>, at: int) -> int {
    b[at] + 0x100 * b[at + 1] + 0x1_0000 * b[at + 2] + 0x100_0000 * b[at + 3]
}

/// The bytes hold the words one after the other, each lowest byte first.
pub open spec fn holds_words(b: Seq<u8>, words: Seq<u32>) -> bool {
    &&& b.len() == 4 * words.len()
    &&& forall|i: int| 0 <= i < words.len() ==> word_at(b, 4 * i) == #[trigger] words[i]
}

/// Four bytes are determined by the integer that they hold.
proof fn lemma_word_unique(a: Seq<u8>, b: Seq<u8>, at: int)
    requires
        word_at(a, at) == word_at(b, at),
    ensures
        a[at] == b[at] && a[at + 1] == b[at + 1] && a[at + 2] == b[at + 2] && a[at + 3] == b[at
            + 3],
{
}

proof fn lemma_word_of(words: Seq<u32>, i: int)
    requires
        0 <= i < words.len(),
    ensures
        bytes::le4_all(words).len() == 4 * words.len(),
        word_at(bytes::le4_all(words), 4 * i) == words[i],
    decreases words.len(),
{
    let front = words.drop_last();
    let a = bytes::le4_all(front);
    let w = bytes::le4(words.last());
    assert(bytes::le4_all(words) == a + w);
    if front.len() == 0 {
        assert(a.len() == 0);
    } else {
        lemma_word_of(front, front.len() - 1);
    }
    if i < front.len() {
        lemma_word_of(front, i);
        assert((a + w)[4 * i] == a[4 * i]);
        assert((a + w)[4 * i + 1] == a[4 * i + 1]);
        assert((a + w)[4 * i + 2] == a[4 * i + 2]);
        assert((a + w)[4 * i + 3] == a[4 * i + 3]);
    } else {
        assert((a + w)[4 * i] == w[0]);
        assert((a + w)[4 * i + 1] == w[1]);
        assert((a + w)[4 * i + 2] == w[2]);
        assert((a + w)[4 * i + 3] == w[3]);
    }
}

/// The encoding of words holds them, and no other bytes do.
pub proof fn lemma_words(b: Seq<u8>, words: Seq<u32>)
    ensures
        holds_words(bytes::le4_all(words), words),
        holds_words(b, words) ==> b == bytes::le4_all(words),
{
    let s = bytes::le4_all(words);
    if words.len() > 0 {
        lemma_word_of(words, 0);
    }
    assert forall|i: int| 0 <= i < words.len() implies word_at(s, 4 * i) == #[trigger] words[i] by {
        lemma_word_of(words, i);
    }
    if holds_words(b, words) {
        lemma_held_words(b, s, words);
    }
}

proof fn lemma_held_words(a: Seq<u8>, b: Seq<u8>, words: Seq<u32>)
    requires
        holds_words(a, words),
        holds_words(b, words),
    ensures
        a == b,
{
    assert forall|n: int| 0 <= n < a.len() implies a[n] == b[n] by {
        let i = n / 4;
        assert(word_at(a, 4 * i) == words[i]);
        assert(word_at(b, 4 * i) == words[i]);
        lemma_word_unique(a, b, 4 * i);
        assert(n == 4 * i || n == 4 * i + 1 || n == 4 * i + 2 || n == 4 * i + 3);
    }
    assert(a =~= b);
}

/// The encoding of one word.
pub proof fn lemma_word(b: Seq<u8>, v: u32)
    ensures
        bytes::le4(v).len() == 4,
        word_at(bytes::le4(v), 0) == v,
        b.len() == 4 && word_at(b, 0) == v ==> b == bytes::le4(v),
{
    if b.len() == 4 && word_at(b, 0) == v {
        lemma_word_unique(b, bytes::le4(v), 0);
        assert(b =~= bytes::le4(v));
    }
}

/// The integer of bytes with the highest first: of no bytes it is zero, and a part in front counts
/// by the power of 256 that the part behind it takes.
pub proof fn lemma_be_value(x: u8, a: Seq<u8>, b: Seq<u8>)
    ensures
        bytes::be_value(Seq::empty()) == 0,
        bytes::be_value(seq![x]) == x,
        bytes::be_value(a + b) == bytes::be_value(a) * power::pow(256, b.len())
            + bytes::be_value(b),
    decreases b.len(),
{
    assert(seq![x].drop_last() =~= Seq::<u8>::empty());
    assert(bytes::be_value(seq![x].drop_last()) == 0);
    if b.len() == 0 {
        assert(a + b =~= a);
        power::lemma_pow0(256);
    } else {
        lemma_be_value(x, a, b.drop_last());
        assert((a + b).drop_last() =~= a + b.drop_last());
        let p = power::pow(256, (b.len() - 1) as nat);
        reveal(power::pow);
        assert(power::pow(256, b.len()) == 256 * p);
        let v = bytes::be_value(a);
        assert(256 * (v * p) == v * (256 * p)) by (nonlinear_arith);
    }
}

/// The integer of bytes with the lowest first: of no bytes it is zero, and a byte in front counts
/// once, those behind it 256 times.
pub proof fn lemma_le_value(x: u8, b: Seq<u8>)
    ensures
        bytes::le_value(Seq::empty()) == 0,
        bytes::le_value(seq![x] + b) == x + 256 * bytes::le_value(b),
{
    assert(Seq::<u8>::empty().reverse() =~= Seq::<u8>::empty());
    let s = (seq![x] + b).reverse();
    assert(s.drop_last() =~= b.reverse());
    assert(s.last() == x);
}

// ── Leaves and slots ──────────────────────────────────────────────────────

/// The bytes of a leaf: 20 of the account, one of the index, 28 of either coordinate.
pub open spec fn leaf_reads(
    b: Seq<u8>,
    account: Seq<u8>,
    key_index: u8,
    pubkey_x: Seq<u32>,
    pubkey_y: Seq<u32>,
) -> bool {
    &&& b.len() == 77
    &&& b.subrange(0, 20) == account
    &&& b[20] == key_index
    &&& holds_words(b.subrange(21, 49), pubkey_x)
    &&& holds_words(b.subrange(49, 77), pubkey_y)
}

/// The encoding of a leaf reads as this leaf, and no other bytes do.
#[verifier::spinoff_prover]
#[verifier::rlimit(60)]
pub proof fn lemma_leaf(
    b: Seq<u8>,
    account: Seq<u8>,
    key_index: u8,
    pubkey_x: Seq<u32>,
    pubkey_y: Seq<u32>,
)
    requires
        account.len() == 20,
        pubkey_x.len() == 7,
        pubkey_y.len() == 7,
    ensures
        leaf_reads(
            merkle::leaf_encoding(account, key_index, pubkey_x, pubkey_y),
            account,
            key_index,
            pubkey_x,
            pubkey_y,
        ),
        leaf_reads(b, account, key_index, pubkey_x, pubkey_y) ==> b == merkle::leaf_encoding(
            account,
            key_index,
            pubkey_x,
            pubkey_y,
        ),
{
    let e = merkle::leaf_encoding(account, key_index, pubkey_x, pubkey_y);
    lemma_words(b.subrange(21, 49), pubkey_x);
    lemma_words(b.subrange(49, 77), pubkey_y);
    assert(e.subrange(0, 20) =~= account);
    assert(e.subrange(21, 49) =~= bytes::le4_all(pubkey_x));
    assert(e.subrange(49, 77) =~= bytes::le4_all(pubkey_y));
    if leaf_reads(b, account, key_index, pubkey_x, pubkey_y) {
        assert forall|n: int| 0 <= n < 77 implies b[n] == e[n] by {
            if n < 20 {
                assert(b.subrange(0, 20)[n] == e.subrange(0, 20)[n]);
            } else if n == 20 {
            } else if n < 49 {
                assert(b.subrange(21, 49)[n - 21] == e.subrange(21, 49)[n - 21]);
            } else {
                assert(b.subrange(49, 77)[n - 49] == e.subrange(49, 77)[n - 49]);
            }
        }
        assert(b =~= e);
    }
}

// ── Signed texts ──────────────────────────────────────────────────────────

/// The text of an order: five fields with colons between them, the numbers in decimal and the
/// account in hexadecimal.
pub open spec fn order_reads(
    t: Seq<char>,
    market: Seq<char>,
    side: Seq<char>,
    price: u64,
    quantity: u64,
    account: Seq<u8>,
) -> bool {
    exists|p: Seq<char>, q: Seq<char>, a: Seq<char>|
        #![trigger numeral_of(p, price as int), numeral_of(q, quantity as int), spells(a, account)]
        numeral_of(p, price as int) && numeral_of(q, quantity as int) && spells(a, account) && t
            == market + ":"@ + side + ":"@ + p + ":"@ + q + ":"@ + a
}

/// The text of an order reads as this order, and no other text does.
#[verifier::spinoff_prover]
#[verifier::rlimit(60)]
pub proof fn lemma_order_text(
    t: Seq<char>,
    market: Seq<char>,
    side: Seq<char>,
    price: u64,
    quantity: u64,
    account: Seq<u8>,
)
    ensures
        order_reads(
            messages::order_text(market, side, price, quantity, account),
            market,
            side,
            price,
            quantity,
            account,
        ),
        order_reads(t, market, side, price, quantity, account) ==> t == messages::order_text(
            market,
            side,
            price,
            quantity,
            account,
        ),
{
    reveal_strlit(":");
    assert(":"@ =~= seq![':']);
    let p = text::decimal(price as nat);
    let q = text::decimal(quantity as nat);
    let a = text::hex_chars(account);
    lemma_decimal(price as nat);
    lemma_decimal(quantity as nat);
    lemma_spells(a, account);
    assert(numeral_of(p, price as int) && numeral_of(q, quantity as int) && spells(a, account));
    assert(messages::order_text(market, side, price, quantity, account) =~= market + ":"@ + side
        + ":"@ + p + ":"@ + q + ":"@ + a);
    if order_reads(t, market, side, price, quantity, account) {
        let (p2, q2, a2) = choose|p2: Seq<char>, q2: Seq<char>, a2: Seq<char>|
            #![trigger numeral_of(p2, price as int), numeral_of(q2, quantity as int), spells(a2, account)]
            numeral_of(p2, price as int) && numeral_of(q2, quantity as int) && spells(a2, account)
                && t == market + ":"@ + side + ":"@ + p2 + ":"@ + q2 + ":"@ + a2;
        lemma_numeral_unique(p, p2);
        lemma_numeral_unique(q, q2);
        lemma_spells(a2, account);
    }
}

/// The text of a registration with its variable parts: `x` and `y` are the bytes of the
/// coordinates, the others are pieces of the text.
pub open spec fn register_parts(
    t: Seq<char>,
    account: Seq<u8>,
    pubkey_x: Seq<u32>,
    pubkey_y: Seq<u32>,
    key_index: u8,
    x: Seq<u8>,
    y: Seq<u8>,
    hx: Seq<char>,
    hy: Seq<char>,
    a: Seq<char>,
    n: Seq<char>,
) -> bool {
    &&& holds_words(x, pubkey_x) && spells(hx, x)
    &&& holds_words(y, pubkey_y) && spells(hy, y)
    &&& spells(a, account)
    &&& numeral_of(n, key_index as int)
    &&& t == "Register KalqiX Session Key\n\npubkey: 0x"@ + hx + hy + "\naccount: 0x"@ + a
        + "\nkey index: "@ + n + "\nOnly sign this message for a trusted client!"@
}

/// The text of a registration: the key in 112 hexadecimal digits, first the 28 bytes of `x` and
/// then the 28 bytes of `y`, each word lowest byte first; the account in 40; the index in decimal.
pub open spec fn register_reads(
    t: Seq<char>,
    account: Seq<u8>,
    pubkey_x: Seq<u32>,
    pubkey_y: Seq<u32>,
    key_index: u8,
) -> bool {
    exists|x: Seq<u8>, y: Seq<u8>, hx: Seq<char>, hy: Seq<char>, a: Seq<char>, n: Seq<char>|
        register_parts(t, account, pubkey_x, pubkey_y, key_index, x, y, hx, hy, a, n)
}

proof fn lemma_hex_concat(x: Seq<u8>, y: Seq<u8>)
    ensures
        text::hex_chars(x + y) == text::hex_chars(x) + text::hex_chars(y),
{
    let s = text::hex_chars(x + y);
    let t = text::hex_chars(x) + text::hex_chars(y);
    assert forall|i: int| 0 <= i < s.len() implies s[i] == t[i] by {
        if i < 2 * x.len() {
            assert((x + y)[i / 2] == x[i / 2]);
        } else {
            let j = i - 2 * x.len();
            assert(i / 2 == x.len() + j / 2 && i % 2 == j % 2);
            assert((x + y)[i / 2] == y[j / 2]);
            assert(t[i] == text::hex_chars(y)[j]);
        }
    }
    assert(s =~= t);
}

proof fn lemma_register_parts(
    t: Seq<char>,
    account: Seq<u8>,
    pubkey_x: Seq<u32>,
    pubkey_y: Seq<u32>,
    key_index: u8,
    x: Seq<u8>,
    y: Seq<u8>,
    hx: Seq<char>,
    hy: Seq<char>,
    a: Seq<char>,
    n: Seq<char>,
)
    requires
        register_parts(t, account, pubkey_x, pubkey_y, key_index, x, y, hx, hy, a, n),
    ensures
        x == bytes::le4_all(pubkey_x),
        y == bytes::le4_all(pubkey_y),
        hx == text::hex_chars(x),
        hy == text::hex_chars(y),
        a == text::hex_chars(account),
        n == text::decimal(key_index as nat),
{
    lemma_words(x, pubkey_x);
    lemma_words(y, pubkey_y);
    lemma_spells(hx, x);
    lemma_spells(hy, y);
    lemma_spells(a, account);
    lemma_decimal(key_index as nat);
    lemma_numeral_unique(n, text::decimal(key_index as nat));
}

/// The text of a registration reads as this registration, and no other text does.
#[verifier::spinoff_prover]
#[verifier::rlimit(60)]
pub proof fn lemma_register_text(
    t: Seq<char>,
    account: Seq<u8>,
    pubkey_x: Seq<u32>,
    pubkey_y: Seq<u32>,
    key_index: u8,
)
    ensures
        register_reads(
            messages::register_text(account, pubkey_x, pubkey_y, key_index),
            account,
            pubkey_x,
            pubkey_y,
            key_index,
        ),
        register_reads(t, account, pubkey_x, pubkey_y, key_index) ==> t == messages::register_text(
            account,
            pubkey_x,
            pubkey_y,
            key_index,
        ),
{
    let x = bytes::le4_all(pubkey_x);
    let y = bytes::le4_all(pubkey_y);
    let hx = text::hex_chars(x);
    let hy = text::hex_chars(y);
    let a = text::hex_chars(account);
    let n = text::decimal(key_index as nat);
    let r = messages::register_text(account, pubkey_x, pubkey_y, key_index);
    assert(r == "Register KalqiX Session Key\n\npubkey: 0x"@ + hx + hy + "\naccount: 0x"@ + a
        + "\nkey index: "@ + n + "\nOnly sign this message for a trusted client!"@) by {
        lemma_hex_concat(x, y);
        assert("Register KalqiX Session Key\n\npubkey: 0x"@ + (hx + hy)
            =~= "Register KalqiX Session Key\n\npubkey: 0x"@ + hx + hy);
    }
    assert(register_parts(r, account, pubkey_x, pubkey_y, key_index, x, y, hx, hy, a, n)) by {
        lemma_words(x, pubkey_x);
        lemma_words(y, pubkey_y);
        lemma_spells(hx, x);
        lemma_spells(hy, y);
        lemma_spells(a, account);
        lemma_decimal(key_index as nat);
    }
    if register_reads(t, account, pubkey_x, pubkey_y, key_index) {
        let (x2, y2, hx2, hy2, a2, n2) = choose|
            x2: Seq<u8>,
            y2: Seq<u8>,
            hx2: Seq<char>,
            hy2: Seq<char>,
            a2: Seq<char>,
            n2: Seq<char>,
        |
            register_parts(t, account, pubkey_x, pubkey_y, key_index, x2, y2, hx2, hy2, a2, n2);
        lemma_register_parts(
            t,
            account,
            pubkey_x,
            pubkey_y,
            key_index,
            x2,
            y2,
            hx2,
            hy2,
            a2,
            n2,
        );
    }
}

/// What a wallet hashes for a message: the words of EIP-191, the number of bytes of the message in
/// decimal, and the message.
pub open spec fn wallet_reads(b: Seq<u8>, message: Seq<u8>) -> bool {
    exists|n: Seq<char>, digits: Seq<u8>, words: Seq<u8>|
        #![trigger numeral_of(n, message.len() as int), codes_of(digits, n), codes_of(words, "\u{19}Ethereum Signed Message:\n"@)]
        numeral_of(n, message.len() as int) && codes_of(digits, n) && codes_of(
            words,
            "\u{19}Ethereum Signed Message:\n"@,
        ) && b == words + digits + message
}

proof fn lemma_codes_unique(a: Seq<u8>, b: Seq<u8>, s: Seq<char>)
    requires
        codes_of(a, s),
        codes_of(b, s),
    ensures
        a == b,
{
    assert forall|i: int| 0 <= i < s.len() implies a[i] == b[i] by {
        assert(a[i] as int == s[i] as int && b[i] as int == s[i] as int);
    }
    assert(a =~= b);
}

/// The bytes that are hashed for a message are those that a wallet hashes, and no others are: 26
/// bytes, all digits of the length, and the message.
#[verifier::spinoff_prover]
#[verifier::rlimit(60)]
pub proof fn lemma_eip191(b: Seq<u8>, message: Seq<u8>)
    ensures
        wallet_reads(eth::eip191_bytes(message), message),
        wallet_reads(b, message) ==> b == eth::eip191_bytes(message),
        eth::eip191_bytes(message).len() == 26 + text::decimal(message.len()).len()
            + message.len(),
{
    let words = eth::eip191_prefix();
    let n = text::decimal(message.len());
    let digits = text::decimal_bytes(message.len());
    reveal_strlit("\u{19}Ethereum Signed Message:\n");
    lemma_decimal(message.len());
    lemma_decimal_bytes(message.len());
    assert(codes_of(words, "\u{19}Ethereum Signed Message:\n"@));
    assert(numeral_of(n, message.len() as int) && codes_of(digits, n));
    assert(eth::eip191_bytes(message) =~= words + digits + message);
    if wallet_reads(b, message) {
        let (n2, digits2, words2) = choose|n2: Seq<char>, digits2: Seq<u8>, words2: Seq<u8>|
            #![trigger numeral_of(n2, message.len() as int), codes_of(digits2, n2), codes_of(words2, "\u{19}Ethereum Signed Message:\n"@)]
            numeral_of(n2, message.len() as int) && codes_of(digits2, n2) && codes_of(
                words2,
                "\u{19}Ethereum Signed Message:\n"@,
            ) && b == words2 + digits2 + message;
        lemma_numeral_unique(n, n2);
        lemma_codes_unique(digits, digits2, n);
        lemma_codes_unique(words, words2, "\u{19}Ethereum Signed Message:\n"@);
    }
}

} // verus!
