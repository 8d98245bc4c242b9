//! Decimal and hexadecimal text.
use vstd::arithmetic::power;
use vstd::prelude::*;
use vstd::slice::*;
use vstd::string::*;

verus! {

/// The character of a hexadecimal digit, in lower case.
pub open spec fn hex_digit(d: int) -> char {
    if d < 10 {
        (48 + d) as char
    } else {
        (87 + d) as char
    }
}

/// Two lower-case hexadecimal digits for each byte, the high one first.
pub open spec fn hex_chars(b: Seq<u8>) -> Seq<char> {
    Seq::new(
        2 * b.len(),
        |i: int|
            if i % 2 == 0 {
                hex_digit(b[i / 2] as int / 16)
            } else {
                hex_digit(b[i / 2] as int % 16)
            },
    )
}

/// The value of the ASCII code of a hexadecimal digit, in either case.
pub open spec fn hex_digit_value(c: u8) -> Option<int> {
    if 48 <= c <= 57 {
        Some(c - 48)
    } else if 65 <= c <= 70 {
        Some(c - 55)
    } else if 97 <= c <= 102 {
        Some(c - 87)
    } else {
        None
    }
}

/// An even number of hexadecimal digits.
pub open spec fn is_hex(s: Seq<u8>) -> bool {
    &&& s.len() % 2 == 0
    &&& forall|i: int| 0 <= i < s.len() ==> hex_digit_value(#[trigger] s[i]) is Some
}

/// The bytes that pairs of hexadecimal digits stand for.
pub open spec fn hex_bytes(s: Seq<u8>) -> Seq<u8> {
    Seq::new(
        s.len() / 2,
        |i: int|
            (16 * hex_digit_value(s[2 * i])->0 + hex_digit_value(s[2 * i + 1])->0) as u8,
    )
}

/// `hex::encode`: two lower-case digits for each byte, the high one first.
#[verifier::external_body]
pub(crate) fn hex_encode(data: &[u8]) -> (r: String)
    ensures
        r@ == hex_chars(data@),
{
    hex::encode(data)
}

/// `hex::decode`: succeeds exactly on an even number of digits of either case, and returns the
/// bytes that they stand for.
#[verifier::external_body]
pub(crate) fn hex_decode(s: &str) -> (r: Option<Vec<u8>>)
    ensures
        r is Some <==> is_hex(s.spec_bytes()),
        r is Some ==> r->0@ == hex_bytes(s.spec_bytes()),
{
    match hex::decode(s) {
        Ok(v) => Some(v),
        Err(_) => None,
    }
}

/// The hexadecimal text of bytes stands for these bytes.
pub proof fn lemma_hex_round_trip(b: Seq<u8>)
    ensures
        is_hex(vstd::utf8::encode_utf8(hex_chars(b))),
        vstd::utf8::encode_utf8(hex_chars(b)).len() == 2 * b.len(),
        hex_bytes(vstd::utf8::encode_utf8(hex_chars(b))) == b,
{
    let s = hex_chars(b);
    assert(vstd::utf8::is_ascii_chars(s));
    vstd::utf8::is_ascii_chars_encode_utf8(s);
    let e = vstd::utf8::encode_utf8(s);
    assert forall|i: int| 0 <= i < e.len() implies hex_digit_value(#[trigger] e[i]) == Some(
        if i % 2 == 0 {
            b[i / 2] as int / 16
        } else {
            b[i / 2] as int % 16
        },
    ) by {
        assert(e[i] == s[i] as u8);
    }
    assert forall|i: int| 0 <= i < b.len() implies hex_bytes(e)[i] == b[i] by {
        assert(hex_digit_value(e[2 * i]) == Some(b[i] as int / 16));
        assert(hex_digit_value(e[2 * i + 1]) == Some(b[i] as int % 16));
    }
    assert(hex_bytes(e) =~= b);
}

/// The decimal digits of a number, highest first, without leading zeros.
pub open spec fn decimal(n: nat) -> Seq<char>
    decreases n,
{
    if n < 10 {
        seq![(48 + n) as char]
    } else {
        decimal(n / 10) + seq![(48 + n % 10) as char]
    }
}

/// Different numbers have different digits.
pub proof fn lemma_decimal_injective(m: nat, n: nat)
    requires
        decimal(m) == decimal(n),
    ensures
        m == n,
    decreases m,
{
    lemma_decimal_nonempty(m);
    lemma_decimal_nonempty(n);
    assert(decimal(m).last() == (48 + m % 10) as char);
    assert(decimal(n).last() == (48 + n % 10) as char);
    if m >= 10 && n >= 10 {
        assert(decimal(m).drop_last() =~= decimal(m / 10));
        assert(decimal(n).drop_last() =~= decimal(n / 10));
        lemma_decimal_injective(m / 10, n / 10);
    } else if m >= 10 {
        lemma_decimal_nonempty(m / 10);
    } else if n >= 10 {
        lemma_decimal_nonempty(n / 10);
    }
}

proof fn lemma_decimal_nonempty(n: nat)
    ensures
        decimal(n).len() >= 1,
{
}

/// The ASCII codes of the decimal digits of a number.
pub open spec fn decimal_bytes(n: nat) -> Seq<u8>
    decreases n,
{
    if n < 10 {
        seq![(48 + n) as u8]
    } else {
        decimal_bytes(n / 10) + seq![(48 + n % 10) as u8]
    }
}

/// The character of a decimal digit.
fn digit(d: u64) -> (r: &'static str)
    requires
        d < 10,
    ensures
        r@ == seq![(48 + d) as char],
{
    proof {
        reveal_strlit("0");
        reveal_strlit("1");
        reveal_strlit("2");
        reveal_strlit("3");
        reveal_strlit("4");
        reveal_strlit("5");
        reveal_strlit("6");
        reveal_strlit("7");
        reveal_strlit("8");
        reveal_strlit("9");
    }
    let r = if d == 0 {
        "0"
    } else if d == 1 {
        "1"
    } else if d == 2 {
        "2"
    } else if d == 3 {
        "3"
    } else if d == 4 {
        "4"
    } else if d == 5 {
        "5"
    } else if d == 6 {
        "6"
    } else if d == 7 {
        "7"
    } else if d == 8 {
        "8"
    } else {
        "9"
    };
    assert(r@ =~= seq![(48 + d) as char]);
    r
}

/// Appends a number in decimal.
pub fn append_decimal(s: &mut String, n: u64)
    ensures
        final(s)@ == old(s)@ + decimal(n as nat),
    decreases n,
{
    let ghost before = s@;
    if n >= 10 {
        append_decimal(s, n / 10);
    }
    s.append(digit(n % 10));
    proof {
        if n >= 10 {
            assert(s@ =~= before + decimal(n as nat));
        }
    }
}

/// A label followed by a number in decimal.
pub fn numbered(label: &str, count: usize) -> (r: String)
    ensures
        r@ == label@ + decimal(count as nat),
{
    let mut s = String::new();
    s.append(label);
    append_decimal(&mut s, count as u64);
    assert(s@ =~= label@ + decimal(count as nat));
    s
}

/// Numbers with at most 20 digits.
proof fn lemma_decimal_length(n: nat, k: nat)
    requires
        n < power::pow(10, k),
        k >= 1,
    ensures
        1 <= decimal_bytes(n).len() <= k,
    decreases k,
{
    reveal(power::pow);
    if k == 1 {
        power::lemma_pow1(10);
    } else if n >= 10 {
        lemma_decimal_length(n / 10, (k - 1) as nat);
    }
}

/// Writes a number in decimal to the end of the buffer (a single zero to its start) and
/// returns the digits.
pub fn write_usize_ascii(n: usize, buf: &mut [u8; 20]) -> (r: &[u8])
    ensures
        r@ == decimal_bytes(n as nat),
        n == 0 ==> final(buf)@ == old(buf)@.update(0, 48),
        n > 0 ==> final(buf)@ == old(buf)@.take(20 - decimal_bytes(n as nat).len()) + decimal_bytes(
            n as nat,
        ),
{
    if n == 0 {
        buf[0] = 48;
        let r = slice_subrange(buf.as_slice(), 0, 1);
        assert(r@ =~= decimal_bytes(0));
        return r;
    }
    let mut rest: usize = n;
    let mut i: usize = 20;
    proof {
        assert(power::pow(10, 20) > usize::MAX) by {
            reveal_with_fuel(power::pow, 21);
        }
        lemma_decimal_length(n as nat, 20);
        assert(buf@.subrange(20, 20) =~= Seq::<u8>::empty());
    }
    while rest > 0
        invariant
            i <= 20,
            n > 0,
            rest > 0 ==> decimal_bytes(n as nat) == decimal_bytes(rest as nat) + buf@.subrange(
                i as int,
                20,
            ),
            rest > 0 ==> decimal_bytes(rest as nat).len() <= i,
            rest == 0 ==> decimal_bytes(n as nat) == buf@.subrange(i as int, 20),
            buf@.take(i as int) == old(buf)@.take(i as int),
        decreases rest,
    {
        let ghost before = buf@;
        proof {
            lemma_decimal_positive(rest as nat);
        }
        i = i - 1;
        buf[i] = 48 + (rest % 10) as u8;
        proof {
            assert(buf@.subrange(i as int, 20) =~= seq![(48 + rest % 10) as u8] + before.subrange(
                i + 1,
                20,
            ));
            if rest >= 10 {
                assert(decimal_bytes((rest / 10) as nat) + (seq![(48 + rest % 10) as u8]
                    + before.subrange(i + 1, 20)) =~= decimal_bytes(rest as nat) + before.subrange(
                    i + 1,
                    20,
                ));
            }
        }
        proof {
            assert(buf@.take(i as int) =~= before.take(i + 1).take(i as int));
            assert(old(buf)@.take(i as int) =~= old(buf)@.take(i + 1).take(i as int));
        }
        rest = rest / 10;
    }
    assert(buf@ =~= buf@.take(i as int) + buf@.subrange(i as int, 20));
    slice_subrange(buf.as_slice(), i, 20)
}

proof fn lemma_decimal_positive(n: nat)
    ensures
        decimal_bytes(n).len() >= 1,
{
}

} // verus!
