//! What the hash of the session-key trees and the roots above leaves are made of.
use crate::laws::texts;
use crate::merkle;
use crate::poseidon2_hasher;
use vstd::arithmetic::power2;
use vstd::prelude::*;

verus! {

// ── The sponge ────────────────────────────────────────────────────────────

/// The number of blocks that bytes fill, the last one perhaps in part.
pub open spec fn block_count(n: nat) -> nat {
    (n + 23) / 24
}

/// What the sponge reads for some bytes, in blocks of 24: a block with their number in eight
/// bytes, lowest first, then the bytes themselves; all that is left of a block is zero.
pub open spec fn stream_of(m: Seq<u8>, data: Seq<u8>) -> bool {
    &&& m.len() == 24 * (1 + block_count(data.len()))
    &&& texts::word_at(m, 0) + 0x1_0000_0000 * texts::word_at(m, 4) == data.len()
        % 0x1_0000_0000_0000_0000
    &&& forall|i: int| 8 <= i < 24 ==> #[trigger] m[i] == 0
    &&& forall|i: int| 24 <= i < 24 + data.len() ==> #[trigger] m[i] == data[i - 24]
    &&& forall|i: int| 24 + data.len() <= i < m.len() ==> #[trigger] m[i] == 0
}

/// The state that is permuted for block `j`: eight words of three bytes each, lowest first, and
/// the last eight words of the state before.
pub open spec fn filled(t: Seq<u32>, before: Seq<u32>, m: Seq<u8>, j: int) -> bool {
    &&& t.len() == 16
    &&& forall|i: int|
        0 <= i < 8 ==> #[trigger] t[i] == m[24 * j + 3 * i] + 0x100 * m[24 * j + 3 * i + 1]
            + 0x1_0000 * m[24 * j + 3 * i + 2]
    &&& forall|i: int| 8 <= i < 16 ==> #[trigger] t[i] == before[i]
}

/// The states of the sponge: `fills[j]` is what is permuted for block `j`, and `states[j]` is the
/// state after `j` blocks, at first all zero.
pub open spec fn sponge_run(m: Seq<u8>, fills: Seq<Seq<u32>>, states: Seq<Seq<u32>>) -> bool {
    &&& states.len() == m.len() / 24 + 1
    &&& fills.len() == m.len() / 24
    &&& states[0].len() == 16
    &&& forall|i: int| 0 <= i < 16 ==> #[trigger] states[0][i] == 0
    &&& forall|j: int|
        0 <= j < fills.len() ==> filled(#[trigger] fills[j], states[j], m, j) && states[j + 1]
            == poseidon2_hasher::poseidon2_permutation(fills[j])
}

proof fn lemma_absorb(t: Seq<u32>, before: Seq<u32>, m: Seq<u8>, j: int, block: Seq<u8>)
    requires
        filled(t, before, m, j),
        forall|i: int| 0 <= i < 24 ==> #[trigger] block[i] == m[24 * j + i],
    ensures
        poseidon2_hasher::absorb(before, block) == poseidon2_hasher::poseidon2_permutation(t),
{
    let u = Seq::new(
        16,
        |i: int|
            if i < 8 {
                poseidon2_hasher::block_word(block, i)
            } else {
                before[i]
            },
    );
    assert forall|i: int| 0 <= i < 16 implies u[i] == t[i] by {
        if i < 8 {
            assert(block[3 * i] == m[24 * j + 3 * i]);
            assert(block[3 * i + 1] == m[24 * j + (3 * i + 1)]);
            assert(block[3 * i + 2] == m[24 * j + (3 * i + 2)]);
        }
    }
    assert(u =~= t);
}

proof fn lemma_absorbed(
    data: Seq<u8>,
    m: Seq<u8>,
    fills: Seq<Seq<u32>>,
    states: Seq<Seq<u32>>,
    j: int,
)
    requires
        stream_of(m, data),
        sponge_run(m, fills, states),
        1 <= j <= 1 + block_count(data.len()),
    ensures
        24 * (j - 1) <= data.len() + 23,
        poseidon2_hasher::absorb_all(
            states[j],
            if 24 * (j - 1) <= data.len() {
                data.skip(24 * (j - 1))
            } else {
                Seq::empty()
            },
        ) == states.last(),
    decreases 1 + block_count(data.len()) - j,
{
    let k = 24 * (j - 1);
    let n = data.len() as int;
    if j == 1 + block_count(data.len()) {
    } else {
        assert(k < n);
        let rest = data.skip(k);
        lemma_absorbed(data, m, fills, states, j + 1);
        assert(filled(fills[j], states[j], m, j));
        if rest.len() < 24 {
            let block = poseidon2_hasher::padded(rest);
            assert forall|i: int| 0 <= i < 24 implies #[trigger] block[i] == m[24 * j + i] by {
                if i < rest.len() {
                    assert(m[24 + (k + i)] == data[k + i]);
                }
            }
            lemma_absorb(fills[j], states[j], m, j, block);
        } else {
            let block = rest.take(24);
            assert forall|i: int| 0 <= i < 24 implies #[trigger] block[i] == m[24 * j + i] by {
                assert(m[24 + (k + i)] == data[k + i]);
            }
            lemma_absorb(fills[j], states[j], m, j, block);
            assert(rest.skip(24) =~= data.skip(k + 24));
        }
    }
}

proof fn lemma_digits(n: int, q: int, x: Seq<int>)
    requires
        x.len() == 8,
        n >= 0,
        forall|i: int| 0 <= i < 8 ==> 0 <= #[trigger] x[i] < 256,
        n == x[0] + 0x100 * x[1] + 0x1_0000 * x[2] + 0x100_0000 * x[3] + 0x1_0000_0000 * x[4]
            + 0x100_0000_0000 * x[5] + 0x1_0000_0000_0000 * x[6] + 0x100_0000_0000_0000 * x[7]
            + 0x1_0000_0000_0000_0000 * q,
    ensures
        n % 256 == x[0],
        n / 0x100 % 256 == x[1],
        n / 0x1_0000 % 256 == x[2],
        n / 0x100_0000 % 256 == x[3],
        n / 0x1_0000_0000 % 256 == x[4],
        n / 0x100_0000_0000 % 256 == x[5],
        n / 0x1_0000_0000_0000 % 256 == x[6],
        n / 0x100_0000_0000_0000 % 256 == x[7],
{
    let r7 = x[7] + 256 * q;
    let r6 = x[6] + 256 * r7;
    let r5 = x[5] + 256 * r6;
    let r4 = x[4] + 256 * r5;
    let r3 = x[3] + 256 * r4;
    let r2 = x[2] + 256 * r3;
    let r1 = x[1] + 256 * r2;
    assert(n == x[0] + 256 * r1);
    lemma_digit(n, 1, n, x[0], r1);
    lemma_digit(n, 0x100, r1, x[1], r2);
    lemma_digit(n, 0x1_0000, r2, x[2], r3);
    lemma_digit(n, 0x100_0000, r3, x[3], r4);
    lemma_digit(n, 0x1_0000_0000, r4, x[4], r5);
    lemma_digit(n, 0x100_0000_0000, r5, x[5], r6);
    lemma_digit(n, 0x1_0000_0000_0000, r6, x[6], r7);
    lemma_digit(n, 0x100_0000_0000_0000, r7, x[7], q);
}

proof fn lemma_digit(n: int, d: int, r: int, x: int, rest: int)
    requires
        n >= 0,
        d >= 1,
        n / d == r,
        0 <= x < 256,
        r == x + 256 * rest,
    ensures
        r % 256 == x,
        n / (d * 256) == rest,
{
    vstd::arithmetic::div_mod::lemma_div_denominator(n, d, 256);
}

proof fn lemma_length_block(n: nat, m: Seq<u8>)
    requires
        m.len() >= 24,
        texts::word_at(m, 0) + 0x1_0000_0000 * texts::word_at(m, 4) == n
            % 0x1_0000_0000_0000_0000,
        forall|i: int| 8 <= i < 24 ==> #[trigger] m[i] == 0,
    ensures
        forall|i: int|
            0 <= i < 24 ==> #[trigger] poseidon2_hasher::length_block(n)[i] == m[i],
{
    let x = Seq::new(8, |i: int| m[i] as int);
    let q = n as int / 0x1_0000_0000_0000_0000;
    assert(n == n as int % 0x1_0000_0000_0000_0000 + 0x1_0000_0000_0000_0000 * q);
    lemma_digits(n as int, q, x);
    let b = poseidon2_hasher::length_block(n);
    assert forall|i: int| 0 <= i < 24 implies #[trigger] b[i] == m[i] by {
        assert(i < 8 ==> x[i] == m[i]);
        assert(i >= 8 || i == 0 || i == 1 || i == 2 || i == 3 || i == 4 || i == 5 || i == 6 || i
            == 7);
    }
}

/// The hash of some bytes is what the first eight words of the last state of the sponge hold.
pub proof fn lemma_digest(
    data: Seq<u8>,
    m: Seq<u8>,
    fills: Seq<Seq<u32>>,
    states: Seq<Seq<u32>>,
)
    requires
        stream_of(m, data),
        sponge_run(m, fills, states),
    ensures
        texts::holds_words(poseidon2_hasher::poseidon2_digest(data), states.last().take(8)),
{
    let zero = Seq::new(16, |i: int| 0u32);
    let block = poseidon2_hasher::length_block(data.len());
    assert(states[0] =~= zero);
    assert(filled(fills[0], states[0], m, 0));
    lemma_length_block(data.len(), m);
    lemma_absorb(fills[0], states[0], m, 0, block);
    lemma_absorbed(data, m, fills, states, 1);
    assert(data.skip(0) =~= data);
    texts::lemma_words(Seq::empty(), states.last().take(8));
}

// ── Roots ─────────────────────────────────────────────────────────────────

/// The hashes on the way from a leaf to the root: at each level the node is the hash of 64 bytes,
/// first the left child and then the right one; bit `i` of the index says whether the way comes
/// from the right.
pub open spec fn climbs(
    nodes: Seq<Seq<u8>>,
    leaf: Seq<u8>,
    index: nat,
    siblings: Seq<[u8; 32]>,
) -> bool {
    &&& nodes.len() == siblings.len() + 1
    &&& nodes[0] == leaf
    &&& forall|i: int|
        0 <= i < siblings.len() ==> nodes[i + 1] == poseidon2_hasher::poseidon2_digest(
            if index / power2::pow2(i as nat) % 2 == 0 {
                nodes[i] + #[trigger] siblings[i]@
            } else {
                siblings[i]@ + nodes[i]
            },
        )
}

proof fn lemma_climb(
    nodes: Seq<Seq<u8>>,
    leaf: Seq<u8>,
    index: nat,
    siblings: Seq<[u8; 32]>,
    i: int,
)
    requires
        climbs(nodes, leaf, index, siblings),
        0 <= i <= siblings.len(),
    ensures
        merkle::merkle_root(nodes[i], index / power2::pow2(i as nat), siblings.skip(i))
            == nodes.last(),
    decreases siblings.len() - i,
{
    power2::lemma_pow2_pos(i as nat);
    if i < siblings.len() {
        lemma_climb(nodes, leaf, index, siblings, i + 1);
        let p = power2::pow2(i as nat) as int;
        power2::lemma_pow2_pos((i + 1) as nat);
        power2::lemma_pow2_unfold((i + 1) as nat);
        vstd::arithmetic::div_mod::lemma_div_denominator(index as int, p, 2);
        assert(2 * p == p * 2);
        assert(index as int / power2::pow2((i + 1) as nat) as int == index as int / p / 2);
        assert(siblings.skip(i).drop_first() =~= siblings.skip(i + 1));
        assert(siblings.skip(i)[0] == siblings[i]);
        let _ = siblings[i]@;
    }
}

/// The root above a leaf is the last hash on its way.
pub proof fn lemma_merkle_root(
    nodes: Seq<Seq<u8>>,
    leaf: Seq<u8>,
    index: nat,
    siblings: Seq<[u8; 32]>,
)
    requires
        climbs(nodes, leaf, index, siblings),
    ensures
        merkle::merkle_root(leaf, index, siblings) == nodes.last(),
{
    lemma_climb(nodes, leaf, index, siblings, 0);
    power2::lemma2_to64();
    assert(siblings.skip(0) =~= siblings);
}

/// The slot of a key is the hash of 21 bytes: its account and its index.
pub proof fn lemma_slot(b: Seq<u8>, account: Seq<u8>, key_index: u8)
    requires
        account.len() == 20,
        b.len() == 21,
        b.subrange(0, 20) == account,
        b[20] == key_index,
    ensures
        merkle::slot(account, key_index) == poseidon2_hasher::poseidon2_digest(b),
{
    assert(b =~= b.subrange(0, 20) + seq![b[20]]);
}

/// The hash of a node is that of the 64 bytes of its children, left and right.
pub proof fn lemma_node(b: Seq<u8>, left: Seq<u8>, right: Seq<u8>)
    requires
        left.len() == 32,
        right.len() == 32,
        b.len() == 64,
        b.subrange(0, 32) == left,
        b.subrange(32, 64) == right,
    ensures
        merkle::node_hash(left, right) == poseidon2_hasher::poseidon2_digest(b),
{
    assert(b =~= b.subrange(0, 32) + b.subrange(32, 64));
}

} // verus!
