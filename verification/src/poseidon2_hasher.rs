//! Poseidon2 byte hasher with a length-prefixed sponge, for the session-key trees.
use crate::bytes;
use jmt::SimpleHasher;
use p3_field::{AbstractField, PrimeField32};
use p3_symmetric::Permutation;
use vstd::prelude::*;

verus! {

/// The Poseidon2 permutation over the KoalaBear field, on canonical representatives.
pub uninterp spec fn poseidon2_permutation(state: Seq<u32>) -> Seq<u32>;

/// `permute_mut` of the permutation that `sp1_primitives::poseidon2_init` returns, on canonical
/// representatives of KoalaBear elements: a function of the state alone, whose results are
/// canonical again.
#[verifier::external_body]
fn permute(state: &[u32; 16]) -> (r: [u32; 16])
    requires
        forall|i: int| 0 <= i < 16 ==> #[trigger] state[i] < 2130706433,
    ensures
        r@ == poseidon2_permutation(state@),
        forall|i: int| 0 <= i < 16 ==> #[trigger] r[i] < 2130706433,
{
    let mut words = state.map(sp1_primitives::SP1Field::from_canonical_u32);
    sp1_primitives::poseidon2_init().permute_mut(&mut words);
    words.map(|w| w.as_canonical_u32())
}

/// The 24-bit word in the three bytes from `3 i` on, lowest first.
pub open spec fn block_word(block: Seq<u8>, i: int) -> u32 {
    (block[3 * i] + 256 * block[3 * i + 1] + 65536 * block[3 * i + 2]) as u32
}

/// The state after a block: its words replace the first eight, and the state is permuted.
pub open spec fn absorb(state: Seq<u32>, block: Seq<u8>) -> Seq<u32> {
    poseidon2_permutation(
        Seq::new(
            16,
            |i: int|
                if i < 8 {
                    block_word(block, i)
                } else {
                    state[i]
                },
        ),
    )
}

/// Zeros appended up to the size of a block.
pub open spec fn padded(data: Seq<u8>) -> Seq<u8> {
    data + Seq::new((24 - data.len()) as nat, |i: int| 0u8)
}

/// The state after all blocks of the data; an incomplete last block is padded.
pub open spec fn absorb_all(state: Seq<u32>, data: Seq<u8>) -> Seq<u32>
    decreases data.len(),
{
    if data.len() == 0 {
        state
    } else if data.len() < 24 {
        absorb(state, padded(data))
    } else {
        absorb_all(absorb(state, data.take(24)), data.skip(24))
    }
}

/// The first block: the length of the data in eight bytes, lowest first, padded.
pub open spec fn length_block(n: nat) -> Seq<u8> {
    padded(
        seq![
            (n % 256) as u8,
            (n / 0x100 % 256) as u8,
            (n / 0x1_0000 % 256) as u8,
            (n / 0x100_0000 % 256) as u8,
            (n / 0x1_0000_0000 % 256) as u8,
            (n / 0x100_0000_0000 % 256) as u8,
            (n / 0x1_0000_0000_0000 % 256) as u8,
            (n / 0x100_0000_0000_0000 % 256) as u8,
        ],
    )
}

/// The hash of some bytes: the length, then the data are absorbed, and the first eight words
/// are put out in little-endian order.
pub open spec fn poseidon2_digest(data: Seq<u8>) -> Seq<u8> {
    let start = absorb(Seq::new(16, |i: int| 0u32), length_block(data.len()));
    bytes::le4_all(absorb_all(start, data).take(8))
}

/// Word `i` of a digest.
pub open spec fn digest_word(d: Seq<u8>, i: int) -> int {
    d[4 * i] + 256 * d[4 * i + 1] + 65536 * d[4 * i + 2] + 16777216 * d[4 * i + 3]
}

/// Replaces the first words of the state by those of a block, and permutes.
fn host_absorb_byte_block(state: &mut [u32; 16], block: &[u8; 24])
    requires
        forall|i: int| 0 <= i < 16 ==> #[trigger] old(state)[i] < 2130706433,
    ensures
        final(state)@ == absorb(old(state)@, block@),
        forall|i: int| 0 <= i < 16 ==> #[trigger] final(state)[i] < 2130706433,
{
    let ghost before = state@;
    for i in 0..8usize
        invariant
            forall|k: int| 0 <= k < 16 ==> #[trigger] state[k] < 2130706433,
            forall|k: int| 0 <= k < i ==> #[trigger] state[k] == block_word(block@, k),
            forall|k: int| i <= k < 16 ==> #[trigger] state[k] == before[k],
    {
        let word: u32 = block[3 * i] as u32 + 256 * (block[3 * i + 1] as u32) + 65536 * (block[3 * i
            + 2] as u32);
        state[i] = word;
    }
    proof {
        assert(state@ =~= Seq::new(
            16,
            |i: int|
                if i < 8 {
                    block_word(block@, i)
                } else {
                    before[i]
                },
        ));
    }
    *state = permute(state);
}

/// The block that starts at `from`, padded with zeros at the end of the input.
fn block_at(input: &[u8], from: usize) -> (block: [u8; 24])
    requires
        from < input.len(),
    ensures
        input.len() - from >= 24 ==> block@ == input@.skip(from as int).take(24),
        input.len() - from < 24 ==> block@ == padded(input@.skip(from as int)),
{
    let mut block: [u8; 24] = [0; 24];
    for i in 0..24usize
        invariant
            from < input.len(),
            forall|k: int|
                0 <= k < i ==> #[trigger] block[k] == if from + k < input.len() {
                    input[from + k]
                } else {
                    0
                },
            forall|k: int| i <= k < 24 ==> #[trigger] block[k] == 0,
    {
        if i < input.len() - from {
            block[i] = input[from + i];
        }
    }
    proof {
        if input.len() - from >= 24 {
            assert(block@ =~= input@.skip(from as int).take(24));
        } else {
            assert(block@ =~= padded(input@.skip(from as int)));
        }
    }
    block
}

/// The Poseidon2 hash of some bytes.  Its words are canonical representatives of field elements.
pub fn poseidon2_hash_bytes(input: &[u8]) -> (r: [u8; 32])
    ensures
        r@ == poseidon2_digest(input@),
        forall|i: int| 0 <= i < 8 ==> #[trigger] digest_word(r@, i) < 2130706433,
{
    let mut state: [u32; 16] = [0; 16];
    let n: u64 = input.len() as u64;
    let mut len_block: [u8; 24] = [0; 24];
    len_block[0] = (n % 256) as u8;
    len_block[1] = (n / 0x100 % 256) as u8;
    len_block[2] = (n / 0x1_0000 % 256) as u8;
    len_block[3] = (n / 0x100_0000 % 256) as u8;
    len_block[4] = (n / 0x1_0000_0000 % 256) as u8;
    len_block[5] = (n / 0x100_0000_0000 % 256) as u8;
    len_block[6] = (n / 0x1_0000_0000_0000 % 256) as u8;
    len_block[7] = (n / 0x100_0000_0000_0000 % 256) as u8;
    assert(len_block@ =~= length_block(input@.len()));
    assert(state@ =~= Seq::new(16, |i: int| 0u32));
    host_absorb_byte_block(&mut state, &len_block);
    let ghost start = state@;
    let mut from: usize = 0;
    assert(input@.skip(0) =~= input@);
    while from < input.len()
        invariant
            from <= input.len(),
            forall|i: int| 0 <= i < 16 ==> #[trigger] state[i] < 2130706433,
            absorb_all(state@, input@.skip(from as int)) == absorb_all(start, input@),
        decreases input.len() - from,
    {
        let block = block_at(input, from);
        let ghost before = state@;
        host_absorb_byte_block(&mut state, &block);
        proof {
            let rest = input@.skip(from as int);
            if rest.len() >= 24 {
                assert(rest.skip(24) =~= input@.skip(from + 24));
            } else {
                assert(input@.skip(input.len() as int) =~= Seq::<u8>::empty());
            }
        }
        if input.len() - from >= 24 {
            from = from + 24;
        } else {
            from = input.len();
        }
    }
    proof {
        assert(input@.skip(input.len() as int) =~= Seq::<u8>::empty());
    }
    words_to_bytes(&state)
}

/// The little-endian bytes of the first eight words.
fn words_to_bytes(state: &[u32; 16]) -> (result: [u8; 32])
    ensures
        result@ == bytes::le4_all(state@.take(8)),
        forall|i: int| 0 <= i < 8 ==> #[trigger] digest_word(result@, i) == state[i],
{
    let mut result: [u8; 32] = [0; 32];
    for i in 0..8usize
        invariant
            forall|k: int, j: int|
                0 <= k < i && 0 <= j < 4 ==> #[trigger] result[4 * k + j] == #[trigger] bytes::le4(
                    state[k],
                )[j],
    {
        let limb = bytes::u32_to_le(state[i]);
        let ghost before = result@;
        result[i * 4] = limb[0];
        result[i * 4 + 1] = limb[1];
        result[i * 4 + 2] = limb[2];
        result[i * 4 + 3] = limb[3];
        assert forall|k: int, j: int| 0 <= k < i + 1 && 0 <= j < 4 implies #[trigger] result[4 * k
            + j] == #[trigger] bytes::le4(state[k])[j] by {
            if k < i {
                assert(result[4 * k + j] == before[4 * k + j]);
            } else {
                assert(limb@[j] == bytes::le4(state[k])[j]);
            }
        }
    }
    proof {
        let words = state@.take(8);
        bytes::lemma_le4_all(words);
        assert forall|n: int| 0 <= n < 32 implies result[n] == bytes::le4_all(words)[n] by {
            let k = n / 4;
            let j = n % 4;
            assert(n == 4 * k + j);
            assert(result[4 * k + j] == bytes::le4(state[k])[j]);
            assert(bytes::le4_all(words)[4 * k + j] == bytes::le4(words[k])[j]);
        }
        assert forall|i: int| 0 <= i < 8 implies #[trigger] digest_word(result@, i) == state[i] by {
            assert(result[4 * i + 0] == bytes::le4(state[i])[0]);
            assert(result[4 * i + 1] == bytes::le4(state[i])[1]);
            assert(result[4 * i + 2] == bytes::le4(state[i])[2]);
            assert(result[4 * i + 3] == bytes::le4(state[i])[3]);
        }
    }
    result
}

/// Collects bytes and hashes them at the end.
///
/// The tree feeds a node in several parts; the digest is that of all parts together.
pub struct Poseidon2Hasher {
    buffer: Vec<u8>,
}

impl View for Poseidon2Hasher {
    type V = Seq<u8>;

    /// The bytes so far.
    closed spec fn view(&self) -> Seq<u8> {
        self.buffer@
    }
}

impl SimpleHasher for Poseidon2Hasher {
    fn new() -> (r: Self)
        ensures
            r@.len() == 0,
    {
        Poseidon2Hasher { buffer: Vec::new() }
    }

    fn update(&mut self, data: &[u8])
        ensures
            final(self)@ == old(self)@ + data@,
    {
        self.buffer.extend_from_slice(data);
        assert(self.buffer@ =~= old(self).buffer@ + data@);
    }

    fn finalize(self) -> (r: [u8; 32])
        ensures
            r@ == poseidon2_digest(self@),
            forall|i: int| 0 <= i < 8 ==> #[trigger] digest_word(r@, i) < 2130706433,
    {
        poseidon2_hash_bytes(self.buffer.as_slice())
    }
}

/// Feeding two parts one after the other is feeding them together.
pub proof fn lemma_updates(before: Seq<u8>, first: Seq<u8>, second: Seq<u8>)
    ensures
        poseidon2_digest((before + first) + second) == poseidon2_digest(before + (first + second)),
{
    assert((before + first) + second =~= before + (first + second));
}

} // verus!
