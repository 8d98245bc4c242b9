//! Little-endian encodings of integers.
use vstd::prelude::*;

verus! {

/// The four bytes of a 32-bit integer, lowest first.
pub open spec fn le4(v: u32) -> Seq<u8> {
    seq![
        (v % 256) as u8,
        (v / 256 % 256) as u8,
        (v / 65536 % 256) as u8,
        (v / 16777216) as u8,
    ]
}

/// The concatenated little-endian bytes of the integers.
pub open spec fn le4_all(s: Seq<u32>) -> Seq<u8>
    decreases s.len(),
{
    if s.len() == 0 {
        seq![]
    } else {
        le4_all(s.drop_last()) + le4(s.last())
    }
}

/// The integer with the given bytes, highest first.
pub open spec fn be_value(b: Seq<u8>) -> int
    decreases b.len(),
{
    if b.len() == 0 {
        0
    } else {
        256 * be_value(b.drop_last()) + b.last()
    }
}

/// The integer with the given bytes, lowest first.
pub open spec fn le_value(b: Seq<u8>) -> int {
    be_value(b.reverse())
}

/// The value of bytes is not negative.
pub proof fn lemma_be_value_nonnegative(b: Seq<u8>)
    ensures
        be_value(b) >= 0,
    decreases b.len(),
{
    if b.len() > 0 {
        lemma_be_value_nonnegative(b.drop_last());
    }
}

/// Zeros in front do not change the value.
pub proof fn lemma_leading_zeros(zeros: Seq<u8>, b: Seq<u8>)
    requires
        forall|i: int| 0 <= i < zeros.len() ==> zeros[i] == 0,
    ensures
        be_value(zeros + b) == be_value(b),
    decreases zeros.len() + b.len(),
{
    if b.len() > 0 {
        assert((zeros + b).drop_last() =~= zeros + b.drop_last());
        lemma_leading_zeros(zeros, b.drop_last());
    } else if zeros.len() > 0 {
        assert((zeros + b).drop_last() =~= zeros.drop_last() + b);
        lemma_leading_zeros(zeros.drop_last(), b);
    }
}

/// The value of four more bytes.
pub proof fn lemma_be_four(b: Seq<u8>, j: int)
    requires
        0 <= j <= b.len() - 4,
    ensures
        be_value(b.take(j + 4)) == 0x1_0000_0000 * be_value(b.take(j)) + 16777216 * b[j] + 65536
            * b[j + 1] + 256 * b[j + 2] + b[j + 3],
{
    assert(b.take(j + 1).drop_last() =~= b.take(j));
    assert(be_value(b.take(j + 1)) == 256 * be_value(b.take(j)) + b[j]);
    assert(b.take(j + 2).drop_last() =~= b.take(j + 1));
    assert(be_value(b.take(j + 2)) == 256 * be_value(b.take(j + 1)) + b[j + 1]);
    assert(b.take(j + 3).drop_last() =~= b.take(j + 2));
    assert(be_value(b.take(j + 3)) == 256 * be_value(b.take(j + 2)) + b[j + 2]);
    assert(b.take(j + 4).drop_last() =~= b.take(j + 3));
}

/// The four bytes of a 32-bit integer, lowest first.
pub fn u32_to_le(v: u32) -> (r: [u8; 4])
    ensures
        r@ == le4(v),
{
    [(v % 256) as u8, (v / 256 % 256) as u8, (v / 65536 % 256) as u8, (v / 16777216) as u8]
}

/// Different integers have different encodings.
pub proof fn lemma_le4_injective(v: u32, w: u32)
    requires
        le4(v) == le4(w),
    ensures
        v == w,
{
    let s = le4(v);
    let t = le4(w);
    assert(s[0] == t[0] && s[1] == t[1] && s[2] == t[2] && s[3] == t[3]);
}

/// Different sequences of integers have different encodings.
pub proof fn lemma_le4_all_injective(s: Seq<u32>, t: Seq<u32>)
    requires
        le4_all(s) == le4_all(t),
    ensures
        s == t,
{
    lemma_le4_all(s);
    lemma_le4_all(t);
    assert forall|i: int| 0 <= i < s.len() implies s[i] == t[i] by {
        assert forall|j: int| 0 <= j < 4 implies le4(s[i])[j] == le4(t[i])[j] by {
            assert(le4_all(s)[4 * i + j] == le4(s[i])[j]);
            assert(le4_all(t)[4 * i + j] == le4(t[i])[j]);
        }
        assert(le4(s[i]) =~= le4(t[i]));
        lemma_le4_injective(s[i], t[i]);
    }
    assert(s =~= t);
}

/// The length of the concatenated bytes, and their place.
pub proof fn lemma_le4_all(s: Seq<u32>)
    ensures
        le4_all(s).len() == 4 * s.len(),
        forall|i: int, j: int|
            0 <= i < s.len() && 0 <= j < 4 ==> #[trigger] le4_all(s)[4 * i + j] == #[trigger] le4(
                s[i],
            )[j],
    decreases s.len(),
{
    if s.len() > 0 {
        lemma_le4_all(s.drop_last());
        assert forall|i: int, j: int| 0 <= i < s.len() && 0 <= j < 4 implies #[trigger] le4_all(
            s,
        )[4 * i + j] == #[trigger] le4(s[i])[j] by {
            if i < s.len() - 1 {
                assert(le4_all(s.drop_last())[4 * i + j] == le4(s.drop_last()[i])[j]);
            }
        }
    }
}

} // verus!
