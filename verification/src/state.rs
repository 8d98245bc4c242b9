//! The session keys of the backend, kept in a Jellyfish Merkle tree.
use crate::eth::same_address;
use crate::merkle;
use crate::merkle::{decode_session_key_leaf, encode_session_key_leaf, session_key_hash};
use crate::poseidon2_hasher::Poseidon2Hasher;
use crate::types::{SessionKey, SessionKeyLeaf};
use jmt::mock::MockTreeStore;
use jmt::proof::SparseMerkleProof;
use jmt::storage::TreeUpdateBatch;
use jmt::{JellyfishMerkleTree, KeyHash, RootHash};
use vstd::prelude::*;

verus! {

/// The in-memory store of a Jellyfish Merkle tree.
#[verifier::external_type_specification]
#[verifier::external_body]
pub struct ExMockTreeStore(jmt::mock::MockTreeStore);

/// Nodes and values that an update of a tree adds to its store.
#[verifier::external_type_specification]
#[verifier::external_body]
pub struct ExTreeUpdateBatch(jmt::storage::TreeUpdateBatch);

/// What a store holds: for each version with a root, the values by their keys.
pub uninterp spec fn tree_versions(store: MockTreeStore) -> Map<u64, Map<Seq<u8>, Seq<u8>>>;

/// The version that a batch adds.
pub uninterp spec fn batch_version(batch: TreeUpdateBatch) -> u64;

/// The values by their keys in the version that a batch adds.
pub uninterp spec fn batch_contents(batch: TreeUpdateBatch) -> Map<Seq<u8>, Seq<u8>>;

/// The batch was computed from this state of the store.
pub uninterp spec fn computed_on(batch: TreeUpdateBatch, store: MockTreeStore) -> bool;

/// The root hash of a tree with the given values.
pub uninterp spec fn tree_root(contents: Map<Seq<u8>, Seq<u8>>) -> Seq<u8>;

/// The Borsh encoding of the proof for a key in a tree with the given values.
pub uninterp spec fn tree_proof(contents: Map<Seq<u8>, Seq<u8>>, key: Seq<u8>) -> Seq<u8>;

/// Whether a proof in its Borsh encoding shows, against a root, that a key has the value, or no
/// value.
pub uninterp spec fn tree_proof_holds(
    root: Seq<u8>,
    key: Seq<u8>,
    value: Option<Seq<u8>>,
    proof: Seq<u8>,
) -> bool;

/// The store was made by `MockTreeStore::default`, and since then only by writes of batches that
/// were computed on it, each of a later version than those before.
pub uninterp spec fn sound_store(store: MockTreeStore) -> bool;

/// The value of a key, if it has one.
pub open spec fn value_of(contents: Map<Seq<u8>, Seq<u8>>, key: Seq<u8>) -> Option<Seq<u8>> {
    if contents.contains_key(key) {
        Some(contents[key])
    } else {
        None
    }
}

/// The values after the pairs have been inserted one by one.
pub open spec fn inserted(
    base: Map<Seq<u8>, Seq<u8>>,
    pairs: Seq<([u8; 32], Vec<u8>)>,
) -> Map<Seq<u8>, Seq<u8>>
    decreases pairs.len(),
{
    if pairs.len() == 0 {
        base
    } else {
        inserted(base, pairs.drop_last()).insert(pairs.last().0@, pairs.last().1@)
    }
}

/// The values of a version; a version without a root is empty.
pub open spec fn version_contents(store: MockTreeStore, version: u64) -> Map<Seq<u8>, Seq<u8>> {
    if tree_versions(store).contains_key(version) {
        tree_versions(store)[version]
    } else {
        Map::empty()
    }
}

/// `MockTreeStore::default`: a sound store without any version.
#[verifier::external_body]
pub(crate) fn new_store() -> (r: MockTreeStore)
    ensures
        sound_store(r),
        forall|v: u64| !tree_versions(r).contains_key(v),
{
    MockTreeStore::default()
}

/// `JellyfishMerkleTree::get_with_proof` on a sound store, with the proof in its Borsh encoding.  It
/// succeeds exactly on a version with a root: a sound store has all nodes and values of its
/// versions.  The value is that of the key in this version, if the key is there, and the proof
/// depends on the values of this version and the key alone and holds against their root.
#[verifier::external_body]
pub(crate) fn tree_get(store: &MockTreeStore, key: &[u8; 32], version: u64) -> (r: Result<
    (Option<Vec<u8>>, Vec<u8>),
    String,
>)
    requires
        sound_store(*store),
    ensures
        r is Ok <==> tree_versions(*store).contains_key(version),
        r matches Ok(t) ==> (t.0 is Some <==> version_contents(*store, version).contains_key(key@)),
        r matches Ok(t) ==> (t.0 matches Some(v) ==> v@ == version_contents(*store, version)[key@]),
        r matches Ok(t) ==> t.1@ == tree_proof(version_contents(*store, version), key@),
        r matches Ok(t) ==> tree_proof_holds(
            tree_root(version_contents(*store, version)),
            key@,
            value_of(version_contents(*store, version), key@),
            t.1@,
        ),
{
    let tree: JellyfishMerkleTree<'_, MockTreeStore, Poseidon2Hasher> =
        JellyfishMerkleTree::new(store);
    let (value, proof) = tree.get_with_proof(KeyHash(*key), version).map_err(|e| format!("{e}"))?;
    let encoded = borsh::to_vec(&proof).map_err(|e| format!("{e}"))?;
    Ok((value, encoded))
}

/// `JellyfishMerkleTree::put_value_set` on a sound store, with a value for each of one or more keys.
/// It succeeds, as the nodes that it reads are there.  The batch adds the given version, whose
/// values are those of the version before it with the pairs inserted, and the hash is the root of
/// these values.
#[verifier::external_body]
pub(crate) fn tree_put(
    store: &MockTreeStore,
    pairs: Vec<([u8; 32], Vec<u8>)>,
    version: u64,
) -> (r: Result<([u8; 32], TreeUpdateBatch), String>)
    requires
        sound_store(*store),
        pairs@.len() >= 1,
        1 <= version < u64::MAX,
    ensures
        r is Ok,
        r matches Ok(t) ==> batch_version(t.1) == version,
        r matches Ok(t) ==> batch_contents(t.1) == inserted(
            version_contents(*store, (version - 1) as u64),
            pairs@,
        ),
        r matches Ok(t) ==> computed_on(t.1, *store),
        r matches Ok(t) ==> t.0@ == tree_root(batch_contents(t.1)),
{
    let tree: JellyfishMerkleTree<'_, MockTreeStore, Poseidon2Hasher> =
        JellyfishMerkleTree::new(store);
    let values = pairs.into_iter().map(|pair| (KeyHash(pair.0), Some(pair.1)));
    let (root, batch) = tree.put_value_set(values, version).map_err(|e| format!("{e}"))?;
    Ok((root.0, batch))
}

/// `MockTreeStore::write_tree_update_batch`, on the sound store that the batch was computed from,
/// all of whose versions are earlier.  It succeeds: no node is overwritten, and the values come in
/// the order of their versions.  The store then has the version of the batch besides those it had,
/// and is sound.
#[verifier::external_body]
pub(crate) fn store_write(store: &mut MockTreeStore, batch: TreeUpdateBatch) -> (r: Result<
    (),
    String,
>)
    requires
        sound_store(*old(store)),
        computed_on(batch, *old(store)),
        forall|v: u64| #[trigger]
            tree_versions(*old(store)).contains_key(v) ==> v < batch_version(batch),
    ensures
        r is Ok,
        sound_store(*final(store)),
        tree_versions(*final(store)) == tree_versions(*old(store)).insert(
            batch_version(batch),
            batch_contents(batch),
        ),
{
    store.write_tree_update_batch(batch).map_err(|e| format!("{e}"))
}

/// `SparseMerkleProof::verify` on a proof in its Borsh encoding: a function of the root, the key,
/// the value and the proof.  Bytes that do not decode are no proof.
#[verifier::external_body]
pub(crate) fn verify_tree_proof(
    root: &[u8; 32],
    key: &[u8; 32],
    value: Option<Vec<u8>>,
    proof: &[u8],
) -> (r: bool)
    ensures
        r == tree_proof_holds(
            root@,
            key@,
            match value {
                Some(v) => Some(v@),
                None => None,
            },
            proof@,
        ),
{
    match borsh::from_slice::<SparseMerkleProof<Poseidon2Hasher>>(proof) {
        Ok(decoded) => decoded.verify(RootHash(*root), KeyHash(*key), value).is_ok(),
        Err(_) => false,
    }
}

/// The `SparseMerkleProof` without a leaf and without siblings, in its Borsh encoding: it holds
/// for the absence of any key against the root of the empty tree.
#[verifier::external_body]
fn empty_proof() -> (r: Vec<u8>)
    ensures
        r@ == no_proof(),
        forall|key: Seq<u8>|
            key.len() == 32 ==> #[trigger] tree_proof_holds(EMPTY_ROOT@, key, None, r@),
{
    let decoded: Option<SparseMerkleProof<Poseidon2Hasher>> = borsh::from_slice(&[0; 5]).ok();
    decoded.and_then(|proof| borsh::to_vec(&proof).ok()).unwrap_or_default()
}

/// The root hash of the empty tree.
pub const EMPTY_ROOT: [u8; 32] = [
    83,
    80,
    65,
    82,
    83,
    69,
    95,
    77,
    69,
    82,
    75,
    76,
    69,
    95,
    80,
    76,
    65,
    67,
    69,
    72,
    79,
    76,
    68,
    69,
    82,
    95,
    72,
    65,
    83,
    72,
    95,
    95,
];

/// What a registration leads to.
#[derive(Clone, Debug)]
pub struct RegisterKeyResult {
    pub old_root: [u8; 32],
    pub new_root: [u8; 32],
    /// The Borsh encoding of the proof for the slot before the registration.
    pub old_proof: Vec<u8>,
    /// The leaf that was replaced, if the slot was taken.
    pub old_leaf: Option<SessionKeyLeaf>,
}

/// A registered key with the proof of its leaf.
#[derive(Clone, Debug)]
pub struct KeyProofResult {
    pub key: SessionKey,
    /// The Borsh encoding of the proof.
    pub proof: Vec<u8>,
    pub root: [u8; 32],
}

// ── Registered keys ───────────────────────────────────────────────────────

/// The registered keys, by account and index.
pub struct KeyTable {
    entries: Vec<([u8; 20], SessionKey)>,
}

impl KeyTable {
    /// The account and the index of entry `i`.
    spec fn at(&self, i: int) -> (Seq<u8>, u8) {
        (self.entries@[i].0@, self.entries@[i].1.key_index)
    }

    /// The entry with the given account and index, if it is among the first `n`.
    spec fn found(&self, k: (Seq<u8>, u8), n: int) -> bool {
        exists|i: int| 0 <= i < n && #[trigger] self.at(i) == k
    }

    /// No account and index occur twice.
    pub closed spec fn wf(&self) -> bool {
        forall|i: int, j: int|
            0 <= i < j < self.entries@.len() ==> #[trigger] self.at(i) != #[trigger] self.at(j)
    }

    /// An entry is found under its account and index.
    proof fn lemma_entry(&self, i: int)
        requires
            self.wf(),
            0 <= i < self.entries@.len(),
        ensures
            self@.contains_key(self.at(i)),
            self@[self.at(i)] == self.entries@[i].1,
    {
        let k = self.at(i);
        assert(self.found(k, self.entries@.len() as int));
        let j = choose|j: int| 0 <= j < self.entries@.len() && #[trigger] self.at(j) == k;
        assert(0 <= j < self.entries@.len() && self.at(j) == k);
        if i < j {
            assert(self.at(i) != self.at(j));
        } else if j < i {
            assert(self.at(j) != self.at(i));
        }
    }

    /// An empty table.
    pub fn new() -> (r: KeyTable)
        ensures
            r.wf(),
            r@ == Map::<(Seq<u8>, u8), SessionKey>::empty(),
    {
        let r = KeyTable { entries: Vec::new() };
        assert(r@ =~= Map::<(Seq<u8>, u8), SessionKey>::empty());
        r
    }

    /// The number of registered keys.
    pub fn len(&self) -> (r: usize)
        requires
            self.wf(),
        ensures
            self@.dom().finite(),
            r == self@.dom().len(),
    {
        proof {
            self.lemma_count(self.entries@.len() as int);
            assert(self@.dom() =~= self.prefix(self.entries@.len() as int));
        }
        self.entries.len()
    }

    /// The accounts and indices of the first `n` entries.
    spec fn prefix(&self, n: int) -> Set<(Seq<u8>, u8)> {
        Set::new(|k: (Seq<u8>, u8)| self.found(k, n))
    }

    proof fn lemma_count(&self, n: int)
        requires
            self.wf(),
            0 <= n <= self.entries@.len(),
        ensures
            self.prefix(n).finite(),
            self.prefix(n).len() == n,
        decreases n,
    {
        if n == 0 {
            assert(self.prefix(0) =~= Set::empty());
        } else {
            self.lemma_count(n - 1);
            let k = self.at(n - 1);
            assert(!self.prefix(n - 1).contains(k)) by {
                if self.found(k, n - 1) {
                    let i = choose|i: int| 0 <= i < n - 1 && #[trigger] self.at(i) == k;
                    assert(self.at(i) != self.at(n - 1));
                }
            }
            assert(self.prefix(n) =~= self.prefix(n - 1).insert(k)) by {
                assert forall|c: (Seq<u8>, u8)| #[trigger]
                    self.prefix(n).contains(c) == self.prefix(n - 1).insert(k).contains(c) by {
                    if self.found(c, n) {
                        let i = choose|i: int| 0 <= i < n && #[trigger] self.at(i) == c;
                        if i < n - 1 {
                            assert(self.found(c, n - 1));
                        }
                    }
                    if self.found(c, n - 1) {
                        let i = choose|i: int| 0 <= i < n - 1 && #[trigger] self.at(i) == c;
                        assert(0 <= i < n && self.at(i) == c);
                    }
                    if c == k {
                        assert(0 <= n - 1 < n && self.at(n - 1) == c);
                    }
                }
            }
        }
    }

    /// The position of an account and an index, or the number of entries.
    fn position(&self, account: &[u8; 20], key_index: u8) -> (r: usize)
        ensures
            r <= self.entries@.len(),
            r < self.entries@.len() ==> self.at(r as int) == (account@, key_index),
            r == self.entries@.len() ==> !self.found(
                (account@, key_index),
                self.entries@.len() as int,
            ),
    {
        for i in 0..self.entries.len()
            invariant
                !self.found((account@, key_index), i as int),
        {
            let entry = &self.entries[i];
            if entry.1.key_index == key_index && same_address(&entry.0, account) {
                return i;
            }
            proof {
                if self.found((account@, key_index), i + 1) {
                    let j = choose|j: int|
                        0 <= j < i + 1 && #[trigger] self.at(j) == (account@, key_index);
                    if j < i {
                        assert(self.found((account@, key_index), i as int));
                    }
                }
            }
        }
        self.entries.len()
    }

    /// The key of an account and an index.
    pub fn get(&self, account: &[u8; 20], key_index: u8) -> (r: Option<SessionKey>)
        requires
            self.wf(),
        ensures
            r is Some <==> self@.contains_key((account@, key_index)),
            r matches Some(key) ==> key == self@[(account@, key_index)],
    {
        let i = self.position(account, key_index);
        if i < self.entries.len() {
            proof {
                self.lemma_entry(i as int);
            }
            let key = &self.entries[i].1;
            Some(
                SessionKey {
                    pubkey_x: key.pubkey_x,
                    pubkey_y: key.pubkey_y,
                    key_index: key.key_index,
                },
            )
        } else {
            None
        }
    }

    /// Records the key of an account under its index, in place of one that was there.
    pub fn insert(&mut self, account: [u8; 20], key: SessionKey)
        requires
            old(self).wf(),
        ensures
            final(self).wf(),
            final(self)@ == old(self)@.insert((account@, key.key_index), key),
    {
        let i = self.position(&account, key.key_index);
        let ghost k = (account@, key.key_index);
        let ghost n = self.entries@.len() as int;
        if i < self.entries.len() {
            self.entries.set(i, (account, key));
            proof {
                assert forall|j: int| 0 <= j < n implies #[trigger] self.at(j) == old(self).at(j) by {
                    assert(old(self).at(i as int) == k);
                }
                assert forall|a: int, b: int| 0 <= a < b < n implies #[trigger] self.at(a)
                    != #[trigger] self.at(b) by {
                    assert(old(self).at(a) != old(self).at(b));
                }
            }
        } else {
            self.entries.push((account, key));
            proof {
                assert forall|j: int| 0 <= j < n implies #[trigger] self.at(j) == old(self).at(j) by {
                }
                assert(self.at(n) == k);
                assert forall|a: int, b: int| 0 <= a < b < n + 1 implies #[trigger] self.at(a)
                    != #[trigger] self.at(b) by {
                    if b < n {
                        assert(old(self).at(a) != old(self).at(b));
                    } else {
                        assert(old(self).at(a) != k);
                    }
                }
            }
        }
        proof {
            let before = old(self)@.insert(k, key);
            let m = self.entries@.len() as int;
            assert(self.at(i as int) == k && self.entries@[i as int].1 == key);
            assert forall|c: (Seq<u8>, u8)| #[trigger]
                self@.contains_key(c) == before.contains_key(c) && (before.contains_key(c)
                ==> self@[c] == before[c]) by {
                if self.found(c, m) {
                    let j = choose|j: int| 0 <= j < m && #[trigger] self.at(j) == c;
                    self.lemma_entry(j);
                    if j != i {
                        assert(old(self).at(j) == c);
                        old(self).lemma_entry(j);
                        if j < i {
                            assert(self.at(j) != self.at(i as int));
                        } else {
                            assert(self.at(i as int) != self.at(j));
                        }
                    }
                }
                if old(self).found(c, n) {
                    let j = choose|j: int| 0 <= j < n && #[trigger] old(self).at(j) == c;
                    assert(self.at(j) == c);
                    assert(self.found(c, m));
                }
                if c == k {
                    assert(self.found(c, m));
                }
            }
            assert(self@ =~= before);
        }
    }
}

impl View for KeyTable {
    type V = Map<(Seq<u8>, u8), SessionKey>;

    closed spec fn view(&self) -> Map<(Seq<u8>, u8), SessionKey> {
        Map::new(
            |k: (Seq<u8>, u8)| self.found(k, self.entries@.len() as int),
            |k: (Seq<u8>, u8)|
                self.entries@[choose|i: int|
                    0 <= i < self.entries@.len() && #[trigger] self.at(i) == k].1,
        )
    }
}

// ── The state ─────────────────────────────────────────────────────────────

/// The encoded leaf of a session key of an account.
pub open spec fn leaf_of(account: Seq<u8>, key: SessionKey) -> Seq<u8> {
    merkle::leaf_encoding(account, key.key_index, key.pubkey_x@, key.pubkey_y@)
}

/// The registered keys and the values of the tree agree: every registered key has its slot, and
/// every slot holds the leaf of a registered key that belongs there.
pub open spec fn consistent(
    keys: Map<(Seq<u8>, u8), SessionKey>,
    contents: Map<Seq<u8>, Seq<u8>>,
) -> bool {
    &&& forall|k: (Seq<u8>, u8)| #[trigger]
        keys.contains_key(k) ==> k.0.len() == 20 && keys[k].key_index == k.1
            && contents.contains_key(merkle::slot(k.0, k.1))
    &&& forall|h: Seq<u8>| #[trigger] contents.contains_key(h) ==> held(keys, h, contents[h])
}

/// The value is the leaf of a registered key whose slot this is.
pub open spec fn held(keys: Map<(Seq<u8>, u8), SessionKey>, h: Seq<u8>, value: Seq<u8>) -> bool {
    exists|k: (Seq<u8>, u8)| #[trigger]
        keys.contains_key(k) && merkle::slot(k.0, k.1) == h && value == leaf_of(k.0, keys[k])
}

/// No other registered key has the slot of this one.
pub open spec fn unshared(keys: Map<(Seq<u8>, u8), SessionKey>, k: (Seq<u8>, u8)) -> bool {
    forall|other: (Seq<u8>, u8)| #[trigger]
        keys.contains_key(other) && other != k ==> merkle::slot(other.0, other.1) != merkle::slot(
            k.0,
            k.1,
        )
}

/// A registered key is read back from the tree, unless its slot is also that of another one.
pub proof fn lemma_registered(
    keys: Map<(Seq<u8>, u8), SessionKey>,
    contents: Map<Seq<u8>, Seq<u8>>,
    k: (Seq<u8>, u8),
)
    requires
        consistent(keys, contents),
        keys.contains_key(k),
        unshared(keys, k),
    ensures
        contents.contains_key(merkle::slot(k.0, k.1)),
        contents[merkle::slot(k.0, k.1)] == leaf_of(k.0, keys[k]),
{
    let h = merkle::slot(k.0, k.1);
    assert(contents.contains_key(h));
    assert(held(keys, h, contents[h]));
}

/// A registration keeps the keys and the values in agreement.
pub proof fn lemma_insert_consistent(
    keys: Map<(Seq<u8>, u8), SessionKey>,
    contents: Map<Seq<u8>, Seq<u8>>,
    account: Seq<u8>,
    key: SessionKey,
)
    requires
        consistent(keys, contents),
        account.len() == 20,
    ensures
        consistent(
            keys.insert((account, key.key_index), key),
            contents.insert(merkle::slot(account, key.key_index), leaf_of(account, key)),
        ),
{
    let k = (account, key.key_index);
    let s = merkle::slot(account, key.key_index);
    let keys2 = keys.insert(k, key);
    let contents2 = contents.insert(s, leaf_of(account, key));
    assert forall|c: (Seq<u8>, u8)| #[trigger] keys2.contains_key(c) implies c.0.len() == 20
        && keys2[c].key_index == c.1 && contents2.contains_key(merkle::slot(c.0, c.1)) by {
        if c != k {
            assert(keys.contains_key(c));
        }
    }
    assert forall|h: Seq<u8>| #[trigger] contents2.contains_key(h) implies held(
        keys2,
        h,
        contents2[h],
    ) by {
        if h == s {
            assert(keys2.contains_key(k));
        } else {
            assert(contents.contains_key(h));
            assert(held(keys, h, contents[h]));
            let c = choose|c: (Seq<u8>, u8)| #[trigger]
                keys.contains_key(c) && merkle::slot(c.0, c.1) == h && contents[h] == leaf_of(
                    c.0,
                    keys[c],
                );
            assert(c != k);
            assert(keys2.contains_key(c));
        }
    }
}

/// A text that begins with the given words.
pub open spec fn begins(text: Seq<char>, words: Seq<char>) -> bool {
    text.len() >= words.len() && text.take(words.len() as int) == words
}

/// The words followed by the text of an error.
fn with_words(words: &str, e: String) -> (r: String)
    ensures
        r@ == words@ + e@,
        begins(r@, words@),
{
    let mut s = String::new();
    s.append(words);
    s.append(e.as_str());
    assert(s@ =~= words@ + e@);
    assert(s@.take(words@.len() as int) =~= words@);
    s
}

/// The proof for any key in the empty tree, in its Borsh encoding: no leaf and no siblings.
pub open spec fn no_proof() -> Seq<u8> {
    seq![0, 0, 0, 0, 0]
}

/// What a lookup says of the slot of a key: the leaf that is there, if any, and the proof.
///
/// A failed lookup and a value that is not a leaf are errors.
pub fn old_leaf(lookup: Result<(Option<Vec<u8>>, Vec<u8>), String>) -> (r: Result<
    (Option<SessionKeyLeaf>, Vec<u8>),
    String,
>)
    ensures
        match lookup {
            Err(e) => r matches Err(m) && m@ == "get_with_proof: "@ + e@ && begins(
                m@,
                "get_with_proof: "@,
            ),
            Ok((None, proof)) => r matches Ok(t) && t.0 is None && t.1@ == proof@,
            Ok((Some(value), proof)) => if value@.len() >= 77 {
                r matches Ok(t) && t.1@ == proof@ && (t.0 matches Some(leaf) && leaf.encoding()
                    == value@.take(77))
            } else {
                r matches Err(m) && begins(m@, "decode old leaf: "@)
            },
        },
{
    match lookup {
        Err(e) => Err(with_words("get_with_proof: ", e)),
        Ok((None, proof)) => Ok((None, proof)),
        Ok((Some(value), proof)) => match decode_session_key_leaf(value.as_slice()) {
            Ok(leaf) => Ok((Some(leaf), proof)),
            Err(e) => Err(with_words("decode old leaf: ", e)),
        },
    }
}

/// The answer to a request for the proof of a key: there is none if the key is not registered or
/// the lookup of its slot has failed.
pub fn key_proof(
    key: Option<SessionKey>,
    lookup: Result<(Option<Vec<u8>>, Vec<u8>), String>,
    root: [u8; 32],
) -> (r: Option<KeyProofResult>)
    ensures
        r is Some <==> key is Some && lookup is Ok,
        r matches Some(p) ==> p.key == key->0 && p.proof@ == lookup->Ok_0.1@ && p.root == root,
{
    match (key, lookup) {
        (Some(key), Ok((_, proof))) => Some(KeyProofResult { key, proof, root }),
        _ => None,
    }
}

/// The session keys of all accounts: the tree, its version and root, and the keys themselves.
///
/// Version 0 is the empty tree, which has no root node in the store.
pub struct AppState {
    pub store: MockTreeStore,
    pub version: u64,
    pub current_root: [u8; 32],
    pub session_keys: KeyTable,
}

impl AppState {
    /// The values of the tree by their slots.
    pub open spec fn contents(&self) -> Map<Seq<u8>, Seq<u8>> {
        version_contents(self.store, self.version)
    }

    /// The store has the versions up to the current one, the root is that of the current
    /// values, and the keys agree with them.
    pub open spec fn wf(&self) -> bool {
        &&& sound_store(self.store)
        &&& self.session_keys.wf()
        &&& consistent(self.session_keys@, self.contents())
        &&& forall|v: u64| #[trigger]
            tree_versions(self.store).contains_key(v) <==> 1 <= v <= self.version
        &&& self.version == 0 ==> self.current_root@ == EMPTY_ROOT@
        &&& self.version > 0 ==> self.current_root@ == tree_root(self.contents())
    }

    /// The root of a well-formed state is that of its values, and a state without a version has
    /// neither keys nor values.
    pub proof fn lemma_root(&self)
        requires
            self.wf(),
        ensures
            consistent(self.session_keys@, self.contents()),
            self.version > 0 ==> self.current_root@ == tree_root(self.contents()),
            self.version == 0 ==> self.current_root@ == EMPTY_ROOT@,
            self.version == 0 ==> self.contents() == Map::<Seq<u8>, Seq<u8>>::empty(),
            self.version == 0 ==> self.session_keys@ == Map::<(Seq<u8>, u8), SessionKey>::empty(),
    {
        if self.version == 0 {
            assert(!tree_versions(self.store).contains_key(0));
            assert(self.session_keys@ =~= Map::<(Seq<u8>, u8), SessionKey>::empty());
        }
    }

    /// A state without keys.
    pub fn new() -> (r: AppState)
        ensures
            r.wf(),
            r.version == 0,
            r.current_root@ == EMPTY_ROOT@,
            r.session_keys@ == Map::<(Seq<u8>, u8), SessionKey>::empty(),
            r.contents() == Map::<Seq<u8>, Seq<u8>>::empty(),
    {
        let r = AppState {
            store: new_store(),
            version: 0,
            current_root: EMPTY_ROOT,
            session_keys: KeyTable::new(),
        };
        assert(r.contents() =~= Map::<Seq<u8>, Seq<u8>>::empty());
        r
    }

    /// The lookup of a slot in the current version.
    fn lookup(&self, key_hash: &[u8; 32]) -> (r: Result<(Option<Vec<u8>>, Vec<u8>), String>)
        requires
            self.wf(),
        ensures
            r is Ok,
            self.version == 0 ==> (r matches Ok(t) && t.0 is None && t.1@ == no_proof()),
            self.version > 0 ==> (r matches Ok(t) ==> t.1@ == tree_proof(
                self.contents(),
                key_hash@,
            )),
            r matches Ok(t) ==> (t.0 is Some <==> self.contents().contains_key(key_hash@)),
            r matches Ok(t) ==> (t.0 matches Some(v) ==> v@ == self.contents()[key_hash@]),
            r matches Ok(t) ==> tree_proof_holds(
                self.current_root@,
                key_hash@,
                value_of(self.contents(), key_hash@),
                t.1@,
            ),
    {
        if self.version == 0 {
            assert(!tree_versions(self.store).contains_key(0));
            Ok((None, empty_proof()))
        } else {
            tree_get(&self.store, key_hash, self.version)
        }
    }

    /// Registers a session key of an account, in place of one with the same index.
    ///
    /// The result holds the root and the proof of the slot before the registration, the leaf
    /// that was there, and the new root.  A registration always succeeds.
    pub fn register_key(&mut self, address: [u8; 20], key: SessionKey) -> (r: Result<
        RegisterKeyResult,
        String,
    >)
        requires
            old(self).wf(),
            old(self).version < u64::MAX - 1,
        ensures
            r is Ok,
            r matches Ok(result) ==> {
                let slot = merkle::slot(address@, key.key_index);
                &&& final(self).wf()
                &&& final(self).version == old(self).version + 1
                &&& final(self).contents() == old(self).contents().insert(
                    slot,
                    leaf_of(address@, key),
                )
                &&& final(self).session_keys@ == old(self).session_keys@.insert(
                    (address@, key.key_index),
                    key,
                )
                &&& final(self).current_root == result.new_root
                &&& result.new_root@ == tree_root(final(self).contents())
                &&& result.old_root == old(self).current_root
                &&& result.old_leaf is Some <==> old(self).contents().contains_key(slot)
                &&& result.old_leaf matches Some(leaf) ==> leaf.encoding() == old(
                    self,
                ).contents()[slot]
                &&& result.old_proof@ == if old(self).version == 0 {
                    no_proof()
                } else {
                    tree_proof(old(self).contents(), slot)
                }
                &&& tree_proof_holds(
                    result.old_root@,
                    slot,
                    value_of(old(self).contents(), slot),
                    result.old_proof@,
                )
            },
    {
        let key_hash = session_key_hash(&address, key.key_index);
        let old_root = self.current_root;
        let found = self.lookup(&key_hash);
        proof {
            self.lemma_values(key_hash@);
        }
        let (old_leaf, old_proof) = match old_leaf(found) {
            Ok(t) => t,
            Err(m) => {
                return Err(m);
            },
        };
        let new_leaf = SessionKeyLeaf {
            account_address: address,
            key_index: key.key_index,
            pubkey_x: key.pubkey_x,
            pubkey_y: key.pubkey_y,
        };
        let new_value = encode_session_key_leaf(&new_leaf);
        let new_version: u64 = self.version + 1;
        let mut pairs: Vec<([u8; 32], Vec<u8>)> = Vec::new();
        pairs.push((key_hash, new_value));
        assert(pairs@.drop_last() =~= Seq::<([u8; 32], Vec<u8>)>::empty());
        let ghost inserts = pairs@;
        let (new_root, batch) = match tree_put(&self.store, pairs, new_version) {
            Ok(t) => t,
            Err(e) => {
                return Err(with_words("put_value_set: ", e));
            },
        };
        assert(batch_contents(batch) == self.contents().insert(
            key_hash@,
            leaf_of(address@, key),
        )) by {
            assert(inserted(self.contents(), inserts.drop_last()) == self.contents());
        }
        assert(!tree_versions(self.store).contains_key(new_version));
        match store_write(&mut self.store, batch) {
            Ok(_) => {},
            Err(e) => {
                return Err(with_words("write batch: ", e));
            },
        }
        self.version = new_version;
        self.current_root = new_root;
        proof {
            lemma_insert_consistent(old(self).session_keys@, old(self).contents(), address@, key);
            assert(self.contents() == old(self).contents().insert(
                key_hash@,
                leaf_of(address@, key),
            ));
        }
        self.session_keys.insert(address, key);
        Ok(RegisterKeyResult { old_root, new_root, old_proof, old_leaf })
    }

    /// Every value of a well-formed state is the encoding of a leaf.
    proof fn lemma_values(&self, h: Seq<u8>)
        requires
            self.wf(),
        ensures
            self.contents().contains_key(h) ==> self.contents()[h].len() == 77
                && self.contents()[h].take(77) == self.contents()[h],
    {
        if self.contents().contains_key(h) {
            assert(held(self.session_keys@, h, self.contents()[h]));
            let k = choose|k: (Seq<u8>, u8)| #[trigger]
                self.session_keys@.contains_key(k) && merkle::slot(k.0, k.1) == h
                    && self.contents()[h] == leaf_of(k.0, self.session_keys@[k]);
            crate::bytes::lemma_le4_all(self.session_keys@[k].pubkey_x@);
            crate::bytes::lemma_le4_all(self.session_keys@[k].pubkey_y@);
            assert(self.contents()[h].take(77) =~= self.contents()[h]);
        }
    }

    /// A registered key with the proof of its leaf and the root.
    ///
    /// There is one exactly for a registered key.  The proof shows the leaf of this key, unless
    /// its slot is also that of another one.
    pub fn get_key_proof(&self, address: [u8; 20], key_index: u8) -> (r: Option<KeyProofResult>)
        requires
            self.wf(),
        ensures
            r is Some <==> self.session_keys@.contains_key((address@, key_index)),
            r matches Some(p) ==> {
                &&& p.key == self.session_keys@[(address@, key_index)]
                &&& p.root == self.current_root
                &&& p.proof@ == tree_proof(self.contents(), merkle::slot(address@, key_index))
                &&& self.contents().contains_key(merkle::slot(address@, key_index))
                &&& tree_proof_holds(
                    p.root@,
                    merkle::slot(address@, key_index),
                    Some(self.contents()[merkle::slot(address@, key_index)]),
                    p.proof@,
                )
                &&& unshared(self.session_keys@, (address@, key_index)) ==> tree_proof_holds(
                    p.root@,
                    merkle::slot(address@, key_index),
                    Some(leaf_of(address@, p.key)),
                    p.proof@,
                )
            },
    {
        proof {
            let k = (address@, key_index);
            if self.session_keys@.contains_key(k) {
                self.lemma_root();
                if unshared(self.session_keys@, k) {
                    lemma_registered(self.session_keys@, self.contents(), k);
                }
            }
        }
        let key = self.session_keys.get(&address, key_index);
        let key_hash = session_key_hash(&address, key_index);
        let found = tree_get(&self.store, &key_hash, self.version);
        key_proof(key, found, self.current_root)
    }
}

} // verus!
