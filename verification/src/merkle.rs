//! The binary Merkle tree of session keys.
use crate::bytes;
use crate::poseidon2_hasher;
use crate::poseidon2_hasher::poseidon2_hash_bytes;
use crate::types::SessionKeyLeaf;
use vstd::prelude::*;

verus! {

/// The encoding of a leaf: the address, the index, and the coefficients of both coordinates.
pub open spec fn leaf_encoding(
    account: Seq<u8>,
    key_index: u8,
    pubkey_x: Seq<u32>,
    pubkey_y: Seq<u32>,
) -> Seq<u8> {
    account + seq![key_index] + bytes::le4_all(pubkey_x) + bytes::le4_all(pubkey_y)
}

impl SessionKeyLeaf {
    /// The encoding of the leaf.
    pub open spec fn encoding(&self) -> Seq<u8> {
        leaf_encoding(self.account_address@, self.key_index, self.pubkey_x@, self.pubkey_y@)
    }
}

/// `bincode::serialize` with its default options, on fixed-size integers and arrays: their
/// little-endian bytes one after the other, without lengths.
#[verifier::external_body]
fn bincode_serialize(
    account: &[u8; 20],
    key_index: u8,
    pubkey_x: &[u32; 7],
    pubkey_y: &[u32; 7],
) -> (r: Vec<u8>)
    ensures
        r@ == leaf_encoding(account@, key_index, pubkey_x@, pubkey_y@),
{
    bincode::serialize(&(*account, key_index, *pubkey_x, *pubkey_y)).expect("bincode serialize")
}

/// `bincode::deserialize` with its default options: it fails exactly when there are fewer than
/// 77 bytes, and otherwise reads the first 77; further bytes are ignored.
#[verifier::external_body]
fn bincode_deserialize(data: &[u8]) -> (r: Result<([u8; 20], u8, [u32; 7], [u32; 7]), String>)
    ensures
        r is Ok <==> data@.len() >= 77,
        r matches Ok(t) ==> leaf_encoding(t.0@, t.1, t.2@, t.3@) == data@.take(77),
{
    bincode::deserialize(data).map_err(|e| format!("{e}"))
}

/// The bytes of a leaf.
pub fn encode_session_key_leaf(leaf: &SessionKeyLeaf) -> (r: Vec<u8>)
    ensures
        r@ == leaf.encoding(),
        r@.len() == 77,
{
    proof {
        bytes::lemma_le4_all(leaf.pubkey_x@);
        bytes::lemma_le4_all(leaf.pubkey_y@);
    }
    bincode_serialize(&leaf.account_address, leaf.key_index, &leaf.pubkey_x, &leaf.pubkey_y)
}

/// The leaf with the given bytes; bytes after the first 77 are ignored.
pub fn decode_session_key_leaf(data: &[u8]) -> (r: Result<SessionKeyLeaf, String>)
    ensures
        r is Ok <==> data@.len() >= 77,
        r matches Ok(leaf) ==> leaf.encoding() == data@.take(77),
{
    match bincode_deserialize(data) {
        Ok((account_address, key_index, pubkey_x, pubkey_y)) => Ok(
            SessionKeyLeaf { account_address, key_index, pubkey_x, pubkey_y },
        ),
        Err(e) => Err(e),
    }
}

/// A leaf is determined by its encoding, so decoding undoes encoding.
pub proof fn lemma_leaf_encoding_injective(a: SessionKeyLeaf, b: SessionKeyLeaf)
    requires
        a.encoding() == b.encoding(),
    ensures
        a.account_address@ == b.account_address@,
        a.key_index == b.key_index,
        a.pubkey_x@ == b.pubkey_x@,
        a.pubkey_y@ == b.pubkey_y@,
{
    let s = a.encoding();
    let t = b.encoding();
    bytes::lemma_le4_all(a.pubkey_x@);
    bytes::lemma_le4_all(a.pubkey_y@);
    bytes::lemma_le4_all(b.pubkey_x@);
    bytes::lemma_le4_all(b.pubkey_y@);
    assert(a.account_address@ =~= s.subrange(0, 20));
    assert(b.account_address@ =~= t.subrange(0, 20));
    assert(s[20] == a.key_index);
    assert(t[20] == b.key_index);
    assert(bytes::le4_all(a.pubkey_x@) =~= s.subrange(21, 49));
    assert(bytes::le4_all(b.pubkey_x@) =~= t.subrange(21, 49));
    assert(bytes::le4_all(a.pubkey_y@) =~= s.subrange(49, 77));
    assert(bytes::le4_all(b.pubkey_y@) =~= t.subrange(49, 77));
    bytes::lemma_le4_all_injective(a.pubkey_x@, b.pubkey_x@);
    bytes::lemma_le4_all_injective(a.pubkey_y@, b.pubkey_y@);
}

/// The slot of a session key in the Jellyfish tree: the hash of the address and the index.
pub open spec fn slot(address: Seq<u8>, key_index: u8) -> Seq<u8> {
    poseidon2_hasher::poseidon2_digest(address + seq![key_index])
}

/// The slot of a session key in the Jellyfish tree: the hash of the address and the index.
pub fn session_key_hash(address: &[u8; 20], key_index: u8) -> (r: [u8; 32])
    ensures
        r@ == slot(address@, key_index),
{
    let mut input: [u8; 21] = [0; 21];
    for i in 0..20usize
        invariant
            forall|k: int| 0 <= k < i ==> #[trigger] input[k] == address[k],
    {
        input[i] = address[i];
    }
    input[20] = key_index;
    assert(input@ =~= address@ + seq![key_index]);
    poseidon2_hash_bytes(input.as_slice())
}

/// The hash of a leaf.
pub fn hash_leaf(leaf: &SessionKeyLeaf) -> (r: [u8; 32])
    ensures
        r@ == poseidon2_hasher::poseidon2_digest(leaf.encoding()),
{
    let encoded = encode_session_key_leaf(leaf);
    poseidon2_hash_bytes(encoded.as_slice())
}

/// The hash of a node with the given children.
pub open spec fn node_hash(left: Seq<u8>, right: Seq<u8>) -> Seq<u8> {
    poseidon2_hasher::poseidon2_digest(left + right)
}

/// The root above a leaf: bit `i` of the index says on which side the sibling of level `i` is.
pub open spec fn merkle_root(leaf: Seq<u8>, index: nat, siblings: Seq<[u8; 32]>) -> Seq<u8>
    decreases siblings.len(),
{
    if siblings.len() == 0 {
        leaf
    } else {
        merkle_root(
            if index % 2 == 0 {
                node_hash(leaf, siblings[0]@)
            } else {
                node_hash(siblings[0]@, leaf)
            },
            index / 2,
            siblings.drop_first(),
        )
    }
}

/// The hash of a node with the given children.
pub fn merkle_node(left: &[u8; 32], right: &[u8; 32]) -> (r: [u8; 32])
    ensures
        r@ == node_hash(left@, right@),
{
    let mut combined: [u8; 64] = [0; 64];
    for i in 0..32usize
        invariant
            forall|k: int| 0 <= k < i ==> #[trigger] combined[k] == left[k],
            forall|k: int| 0 <= k < i ==> #[trigger] combined[32 + k] == right[k],
    {
        combined[i] = left[i];
        combined[32 + i] = right[i];
    }
    proof {
        assert forall|k: int| 0 <= k < 64 implies combined[k] == (left@ + right@)[k] by {
            if k >= 32 {
                assert(combined[32 + (k - 32)] == right[k - 32]);
            }
        }
        assert(combined@ =~= left@ + right@);
    }
    poseidon2_hash_bytes(combined.as_slice())
}

/// Whether two digests agree.
pub fn same_digest(a: &[u8; 32], b: &[u8; 32]) -> (r: bool)
    ensures
        r == (a@ == b@),
{
    for i in 0..32usize
        invariant
            forall|k: int| 0 <= k < i ==> a[k] == b[k],
    {
        if a[i] != b[i] {
            return false;
        }
    }
    assert(a@ =~= b@);
    true
}

/// The root above a leaf with the given hash.
pub fn compute_new_root(
    new_leaf_hash: [u8; 32],
    leaf_index: u64,
    siblings: &[[u8; 32]],
) -> (root: [u8; 32])
    requires
        siblings.len() <= 64,
    ensures
        root@ == merkle_root(new_leaf_hash@, leaf_index as nat, siblings@),
{
    let mut current = new_leaf_hash;
    let mut bits: u64 = leaf_index;
    assert(siblings@.skip(0) =~= siblings@);
    for level in 0..siblings.len()
        invariant
            merkle_root(current@, bits as nat, siblings@.skip(level as int)) == merkle_root(
                new_leaf_hash@,
                leaf_index as nat,
                siblings@,
            ),
    {
        let ghost rest = siblings@.skip(level as int);
        assert(rest.drop_first() =~= siblings@.skip(level + 1));
        let sibling = &siblings[level];
        current = if bits % 2 == 0 {
            merkle_node(&current, sibling)
        } else {
            merkle_node(sibling, &current)
        };
        bits = bits / 2;
    }
    assert(siblings@.skip(siblings.len() as int) =~= Seq::<[u8; 32]>::empty());
    current
}

/// Whether a leaf with the given hash lies under the expected root.
pub fn verify_merkle_proof(
    leaf_hash: [u8; 32],
    leaf_index: u64,
    siblings: &[[u8; 32]],
    expected_root: [u8; 32],
) -> (r: bool)
    requires
        siblings.len() <= 64,
    ensures
        r == (merkle_root(leaf_hash@, leaf_index as nat, siblings@) == expected_root@),
{
    let root = compute_new_root(leaf_hash, leaf_index, siblings);
    same_digest(&root, &expected_root)
}

} // verus!
