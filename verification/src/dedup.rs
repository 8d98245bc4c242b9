//! Batches in which few session keys sign many orders.
use crate::algebra::order;
use crate::builders;
use crate::merkle;
use crate::merkle::{encode_session_key_leaf, session_key_hash};
use crate::septic::scalar;
use crate::septic::schnorr;
use crate::session;
use crate::session::{hash_order, make_session_pair, random_nonces, SessionPair};
use crate::state;
use crate::state::{new_store, store_write, tree_get, tree_put};
use crate::types::{DedupOrder, SessionKeyLeaf};
use crate::witness::{
    JmtDedupBatchWitness, JmtDedupKey, JmtDedupWitness, ProofEntry, UniqueKeyInfo,
};
use jmt::mock::MockTreeStore;
use rand::seq::SliceRandom;
use rand::Rng;
use vstd::prelude::*;

verus! {

/// `Rng::gen_range` of the generator of the operating system: some number below the bound.
#[verifier::external_body]
fn random_below(bound: usize) -> (r: usize)
    requires
        bound > 0,
    ensures
        r < bound,
{
    rand::rngs::OsRng.gen_range(0..bound)
}

/// `SliceRandom::shuffle` with the generator of the operating system: the same orders in some
/// order.
#[verifier::external_body]
fn shuffle(orders: &mut Vec<DedupOrder>)
    ensures
        final(orders)@.to_multiset() == old(orders)@.to_multiset(),
{
    orders.shuffle(&mut rand::rngs::OsRng);
}

/// The address of key `i`: the little-endian bytes of `i`, and zeros.
pub open spec fn synthetic_address(i: u64) -> Seq<u8> {
    Seq::new(
        20,
        |j: int|
            if j < 4 {
                crate::bytes::le4((i % 0x1_0000_0000) as u32)[j]
            } else if j < 8 {
                crate::bytes::le4((i / 0x1_0000_0000) as u32)[j - 4]
            } else {
                0u8
            },
    )
}

/// The address of key `i`.
fn make_address(i: u64) -> (r: [u8; 20])
    ensures
        r@ == synthetic_address(i),
{
    let low = crate::bytes::u32_to_le((i % 0x1_0000_0000) as u32);
    let high = crate::bytes::u32_to_le((i / 0x1_0000_0000) as u32);
    let mut address: [u8; 20] = [0; 20];
    for j in 0..4usize
        invariant
            forall|k: int| 0 <= k < j ==> #[trigger] address[k] == low[k],
            forall|k: int| 0 <= k < j ==> #[trigger] address[4 + k] == high[k],
            forall|k: int| 8 <= k < 20 ==> #[trigger] address[k] == 0,
    {
        address[j] = low[j];
        address[4 + j] = high[j];
    }
    proof {
        assert forall|k: int| 4 <= k < 8 implies address[k] == high[k - 4] by {
            assert(address[4 + (k - 4)] == high[k - 4]);
        }
    }
    assert(address@ =~= synthetic_address(i));
    address
}

/// The pairs are well-formed and none of them is infinity.
pub open spec fn sessions_wf(sessions: Seq<SessionPair>) -> bool {
    forall|i: int|
        0 <= i < sessions.len() ==> (#[trigger] sessions[i]).wf()
            && !sessions[i].pubkey.is_infinity
}

/// The encoded leaf of key `i`.
pub open spec fn session_leaf(session: SessionPair, i: int) -> Seq<u8> {
    merkle::leaf_encoding(
        synthetic_address(i as u64),
        0,
        session.pubkey.x.0@,
        session.pubkey.y.0@,
    )
}

/// The values of the tree after the leaves of all keys have been inserted one by one.
pub open spec fn session_values(sessions: Seq<SessionPair>) -> Map<Seq<u8>, Seq<u8>>
    decreases sessions.len(),
{
    if sessions.len() == 0 {
        Map::empty()
    } else {
        let i = sessions.len() - 1;
        session_values(sessions.drop_last()).insert(
            merkle::slot(synthetic_address(i as u64), 0),
            session_leaf(sessions.last(), i),
        )
    }
}

/// Every key has its slot in the tree.
pub proof fn lemma_session_values(sessions: Seq<SessionPair>, i: int)
    requires
        0 <= i < sessions.len(),
    ensures
        session_values(sessions).contains_key(merkle::slot(synthetic_address(i as u64), 0)),
    decreases sessions.len(),
{
    if i < sessions.len() - 1 {
        lemma_session_values(sessions.drop_last(), i);
    }
}

/// The first keys have slots of their own.
pub open spec fn slots_distinct(tree_size: int) -> bool {
    forall|i: int, j: int|
        0 <= i < j < tree_size ==> merkle::slot(#[trigger] synthetic_address(i as u64), 0)
            != merkle::slot(#[trigger] synthetic_address(j as u64), 0)
}

/// The leaf of a key is read back from the tree, unless a later key has the same slot.
pub proof fn lemma_session_leaf(sessions: Seq<SessionPair>, i: int)
    requires
        0 <= i < sessions.len(),
        forall|j: int|
            i < j < sessions.len() ==> merkle::slot(#[trigger] synthetic_address(j as u64), 0)
                != merkle::slot(synthetic_address(i as u64), 0),
    ensures
        session_values(sessions)[merkle::slot(synthetic_address(i as u64), 0)] == session_leaf(
            sessions[i],
            i,
        ),
    decreases sessions.len(),
{
    let last = sessions.len() - 1;
    if i < last {
        let _ = synthetic_address(last as u64);
        lemma_session_leaf(sessions.drop_last(), i);
    }
}

/// A tree with one leaf for each of some keys.
pub struct SessionTree {
    pub sessions: Vec<SessionPair>,
    pub store: MockTreeStore,
    pub root: [u8; 32],
}

impl SessionTree {
    /// Version 1 of the store holds the leaves of the keys, and the root is theirs.
    pub open spec fn wf(&self) -> bool {
        &&& state::sound_store(self.store)
        &&& sessions_wf(self.sessions@)
        &&& state::tree_versions(self.store).contains_key(1)
        &&& state::tree_versions(self.store)[1] == session_values(self.sessions@)
        &&& self.root@ == state::tree_root(session_values(self.sessions@))
    }
}

/// The slots and leaves of the keys, as they are put into the tree.
fn make_leaves(sessions: &Vec<SessionPair>) -> (pairs: Vec<([u8; 32], Vec<u8>)>)
    ensures
        pairs@.len() == sessions@.len(),
        state::inserted(Map::empty(), pairs@) == session_values(sessions@),
{
    let mut pairs: Vec<([u8; 32], Vec<u8>)> = Vec::new();
    assert(sessions@.take(0) =~= Seq::<SessionPair>::empty());
    for i in 0..sessions.len()
        invariant
            pairs@.len() == i,
            state::inserted(Map::empty(), pairs@) == session_values(sessions@.take(i as int)),
    {
        let session = &sessions[i];
        let address = make_address(i as u64);
        let leaf = SessionKeyLeaf {
            account_address: address,
            key_index: 0,
            pubkey_x: session.pubkey.x.0,
            pubkey_y: session.pubkey.y.0,
        };
        let value = encode_session_key_leaf(&leaf);
        let key_hash = session_key_hash(&address, 0);
        let ghost before = pairs@;
        pairs.push((key_hash, value));
        proof {
            let next = sessions@.take(i + 1);
            assert(pairs@.drop_last() =~= before);
            assert(next.drop_last() =~= sessions@.take(i as int));
        }
    }
    assert(sessions@.take(sessions@.len() as int) =~= sessions@);
    pairs
}

/// The tree of some keys.
pub fn plant(sessions: Vec<SessionPair>) -> (tree: SessionTree)
    requires
        sessions@.len() >= 1,
        sessions_wf(sessions@),
    ensures
        tree.wf(),
        tree.sessions@ == sessions@,
{
    let pairs = make_leaves(&sessions);
    let mut store = new_store();
    assert(state::version_contents(store, 0) =~= Map::<Seq<u8>, Seq<u8>>::empty());
    let (root, batch) = tree_put(&store, pairs, 1).unwrap();
    store_write(&mut store, batch).unwrap();
    SessionTree { sessions, store, root }
}

/// Random keys.
fn make_sessions(tree_size: usize) -> (sessions: Vec<SessionPair>)
    ensures
        sessions@.len() == tree_size,
        sessions_wf(sessions@),
{
    let mut sessions: Vec<SessionPair> = Vec::new();
    for i in 0..tree_size
        invariant
            sessions@.len() == i,
            sessions_wf(sessions@),
    {
        sessions.push(make_session_pair());
    }
    sessions
}

/// A tree with one leaf for each of some random keys.
fn make_tree(tree_size: usize) -> (tree: SessionTree)
    requires
        tree_size >= 1,
    ensures
        tree.wf(),
        tree.sessions@.len() == tree_size,
{
    plant(make_sessions(tree_size))
}

/// The order that is made at position `i`, signed by the key that it refers to.
pub open spec fn dedup_order_built(
    order: DedupOrder,
    sessions: Seq<SessionPair>,
    unique_count: int,
    i: int,
) -> bool {
    let session = sessions[order.key_idx as int];
    &&& order.key_idx < unique_count
    &&& i < unique_count ==> order.key_idx == i
    &&& order.market@ == "ETH/USDC"@
    &&& order.side@ == "BUY"@
    &&& order.price == builders::price_at(i)
    &&& order.quantity == builders::quantity_at(i)
    &&& scalar::value(order.challenge_e@) == schnorr::challenge(
        order.signature_r_x@,
        session.pubkey.x.0@,
        session::order_hash(
            "ETH/USDC"@,
            "BUY"@,
            builders::price_at(i),
            builders::quantity_at(i),
            synthetic_address(order.key_idx as u64),
        ),
    )
    &&& schnorr::verifies(
        session.pubkey,
        order.signature_r_x@,
        order.signature_r_y@,
        order.signature_s@,
        order.challenge_e@,
    )
}

/// All orders in the order in which they are made.
pub open spec fn dedup_orders_built(
    orders: Seq<DedupOrder>,
    sessions: Seq<SessionPair>,
    unique_count: int,
) -> bool {
    forall|i: int|
        0 <= i < orders.len() ==> dedup_order_built(
            #[trigger] orders[i],
            sessions,
            unique_count,
            i,
        )
}

/// The same orders, in some order.
pub open spec fn dedup_orders_shuffled(
    orders: Seq<DedupOrder>,
    sessions: Seq<SessionPair>,
    unique_count: int,
) -> bool {
    exists|made: Seq<DedupOrder>| #[trigger]
        dedup_orders_built(made, sessions, unique_count) && made.to_multiset()
            == orders.to_multiset()
}

/// The order at position `i`, signed by the key with the given index and the given nonce.  There
/// is none when the nonce is a multiple of the group order.
pub fn make_order_with(session: &SessionPair, k_limbs: &[u32; 8], key_idx: u32, i: u64) -> (r:
    Option<DedupOrder>)
    requires
        session.wf(),
        i <= u64::MAX - 2000000,
    ensures
        r is Some <==> scalar::value(k_limbs@) % (order::group_order() as int) != 0,
        r matches Some(order) ==> schnorr::affine(order.signature_r_x@, order.signature_r_y@)
            == order::generator().times(scalar::value(k_limbs@) as nat),
        r matches Some(order) ==> scalar::value(order.signature_s@) == (scalar::value(k_limbs@)
            - scalar::value(order.challenge_e@) * scalar::value(session.priv_scalar@)) % (
        order::group_order() as int),
        r matches Some(order) ==> order.key_idx == key_idx,
        r matches Some(order) ==> forall|sessions: Seq<SessionPair>, unique_count: int|
            0 <= key_idx < unique_count && sessions[key_idx as int] == session && (i < unique_count
                ==> key_idx == i) ==> #[trigger] dedup_order_built(
                order,
                sessions,
                unique_count,
                i as int,
            ),
{
    let address = make_address(key_idx as u64);
    let price: u64 = 2000000 + i;
    let quantity: u64 = 100 + i % 50;
    let msg_hash = hash_order("ETH/USDC", "BUY", price, quantity, &address);
    match session.sign_with(k_limbs, &msg_hash) {
        Some((signature_r_x, signature_r_y, signature_s, challenge_e)) => Some(
            DedupOrder {
                key_idx,
                market: "ETH/USDC".to_owned(),
                side: "BUY".to_owned(),
                price,
                quantity,
                signature_r_x,
                signature_r_y,
                signature_s,
                challenge_e,
            },
        ),
        None => None,
    }
}

/// The key of order `i`: one for each of the first orders, then those that were picked.
pub open spec fn key_at(picks: Seq<usize>, unique_count: int, i: int) -> int {
    if i < unique_count {
        i
    } else {
        picks[i] as int
    }
}

/// Orders of the first keys: one for each of them, then of the keys that were picked, signed with
/// the given nonces.  There are none when a nonce is a multiple of the group order.
pub fn dedup_orders_with(
    sessions: &Vec<SessionPair>,
    picks: &Vec<usize>,
    nonces: &Vec<[u32; 8]>,
    unique_count: usize,
) -> (r: Option<Vec<DedupOrder>>)
    requires
        sessions_wf(sessions@),
        1 <= unique_count <= sessions@.len(),
        unique_count <= 0x1_0000_0000,
        nonces@.len() <= u64::MAX - 2000000,
        picks@.len() == nonces@.len(),
        forall|i: int| unique_count <= i < picks@.len() ==> #[trigger] picks@[i] < unique_count,
    ensures
        r is Some <==> session::nonces_sign(nonces@),
        r matches Some(orders) ==> {
            &&& orders@.len() == nonces@.len()
            &&& dedup_orders_built(orders@, sessions@, unique_count as int)
            &&& forall|i: int|
                0 <= i < orders@.len() ==> (#[trigger] orders@[i]).key_idx == key_at(
                    picks@,
                    unique_count as int,
                    i,
                ) && schnorr::affine(orders@[i].signature_r_x@, orders@[i].signature_r_y@)
                    == order::generator().times(scalar::value(nonces@[i]@) as nat)
        },
{
    let mut orders: Vec<DedupOrder> = Vec::new();
    for i in 0..nonces.len()
        invariant
            sessions_wf(sessions@),
            1 <= unique_count <= sessions@.len(),
            unique_count <= 0x1_0000_0000,
            nonces@.len() <= u64::MAX - 2000000,
            picks@.len() == nonces@.len(),
            forall|k: int| unique_count <= k < picks@.len() ==> #[trigger] picks@[k] < unique_count,
            orders@.len() == i,
            session::nonces_sign(nonces@.take(i as int)),
            dedup_orders_built(orders@, sessions@, unique_count as int),
            forall|k: int|
                0 <= k < orders@.len() ==> (#[trigger] orders@[k]).key_idx == key_at(
                    picks@,
                    unique_count as int,
                    k,
                ) && schnorr::affine(orders@[k].signature_r_x@, orders@[k].signature_r_y@)
                    == order::generator().times(scalar::value(nonces@[k]@) as nat),
    {
        let key_idx: usize = if i < unique_count {
            i
        } else {
            picks[i]
        };
        let session = &sessions[key_idx];
        match make_order_with(session, &nonces[i], key_idx as u32, i as u64) {
            Some(order) => {
                assert(dedup_order_built(order, sessions@, unique_count as int, i as int));
                orders.push(order);
            },
            None => {
                assert(scalar::value(nonces@[i as int]@) % (order::group_order() as int) == 0);
                return None;
            },
        }
    }
    assert(nonces@.take(nonces@.len() as int) =~= nonces@);
    Some(orders)
}

/// Orders of the first keys: one for each of them, then of keys drawn at random, shuffled.
fn make_orders(sessions: &Vec<SessionPair>, count: usize, unique_count: usize) -> (orders: Vec<
    DedupOrder,
>)
    requires
        sessions_wf(sessions@),
        1 <= unique_count <= sessions@.len(),
        unique_count <= 0x1_0000_0000,
        count <= u64::MAX - 2000000,
    ensures
        orders@.len() == count,
        dedup_orders_shuffled(orders@, sessions@, unique_count as int),
{
    let nonces = random_nonces(count);
    let mut picks: Vec<usize> = Vec::new();
    for i in 0..count
        invariant
            unique_count >= 1,
            picks@.len() == i,
            forall|k: int| 0 <= k < i ==> #[trigger] picks@[k] < unique_count,
    {
        picks.push(
            if i < unique_count {
                i
            } else {
                random_below(unique_count)
            },
        );
    }
    let mut orders = dedup_orders_with(sessions, &picks, &nonces, unique_count).unwrap();
    let ghost made = orders@;
    shuffle(&mut orders);
    proof {
        broadcast use vstd::seq_lib::group_to_multiset_ensures;

        assert(made.to_multiset().len() == orders@.to_multiset().len());
        assert(dedup_orders_built(made, sessions@, unique_count as int));
    }
    orders
}

/// Every order of a shuffled batch is signed by the key that it refers to.
pub proof fn lemma_shuffled_verifies(
    orders: Seq<DedupOrder>,
    sessions: Seq<SessionPair>,
    unique_count: int,
    i: int,
)
    requires
        dedup_orders_shuffled(orders, sessions, unique_count),
        0 <= i < orders.len(),
    ensures
        orders[i].key_idx < unique_count,
        schnorr::verifies(
            sessions[orders[i].key_idx as int].pubkey,
            orders[i].signature_r_x@,
            orders[i].signature_r_y@,
            orders[i].signature_s@,
            orders[i].challenge_e@,
        ),
{
    broadcast use vstd::seq_lib::group_to_multiset_ensures;

    let made = choose|made: Seq<DedupOrder>| #[trigger]
        dedup_orders_built(made, sessions, unique_count) && made.to_multiset()
            == orders.to_multiset();
    assert(orders.contains(orders[i]));
    assert(orders.to_multiset().count(orders[i]) > 0);
    assert(made.contains(orders[i]));
    let j = choose|j: int| 0 <= j < made.len() && made[j] == orders[i];
    assert(dedup_order_built(made[j], sessions, unique_count, j));
}

/// Key `i` of a batch.
pub open spec fn unique_key(
    account: Seq<u8>,
    key_index: u8,
    pubkey_x: Seq<u32>,
    pubkey_y: Seq<u32>,
    sessions: Seq<SessionPair>,
    i: int,
) -> bool {
    &&& account == synthetic_address(i as u64)
    &&& key_index == 0
    &&& pubkey_x == sessions[i].pubkey.x.0@
    &&& pubkey_y == sessions[i].pubkey.y.0@
}

/// Key `i` of a batch, with its proof.
pub open spec fn dedup_key_built(key: JmtDedupKey, sessions: Seq<SessionPair>, i: int) -> bool {
    &&& unique_key(
        key.account_address@,
        key.key_index,
        key.pubkey_x@,
        key.pubkey_y@,
        sessions,
        i,
    )
    &&& slot_proved(key.merkle_proof@, sessions, i)
}

/// The proof of the slot of key `i` in the tree of all keys, which holds against its root.
pub open spec fn slot_proved(proof: Seq<u8>, sessions: Seq<SessionPair>, i: int) -> bool {
    let slot = merkle::slot(synthetic_address(i as u64), 0);
    &&& proof == state::tree_proof(session_values(sessions), slot)
    &&& state::tree_proof_holds(
        state::tree_root(session_values(sessions)),
        slot,
        Some(session_values(sessions)[slot]),
        proof,
    )
}

/// The keys of a batch, each with its proof.
pub open spec fn dedup_keys_built(keys: Seq<JmtDedupKey>, sessions: Seq<SessionPair>) -> bool {
    forall|i: int| 0 <= i < keys.len() ==> dedup_key_built(#[trigger] keys[i], sessions, i)
}

/// The batch that is built from the keys of a tree.
pub open spec fn dedup_built(
    w: JmtDedupWitness,
    sessions: Seq<SessionPair>,
    tree_size: int,
    unique_count: int,
) -> bool {
    &&& sessions.len() == tree_size
    &&& sessions_wf(sessions)
    &&& w.session_key_root@ == state::tree_root(session_values(sessions))
    &&& w.unique_keys@.len() == unique_count
    &&& dedup_keys_built(w.unique_keys@, sessions)
    &&& dedup_orders_shuffled(w.orders@, sessions, unique_count)
}

/// The batch is built from the keys of some tree.
pub open spec fn dedup_from_tree(w: JmtDedupWitness, tree_size: int, unique_count: int) -> bool {
    exists|sessions: Seq<SessionPair>| #[trigger]
        dedup_built(w, sessions, tree_size, unique_count)
}

/// The first keys of a tree, each with its proof.
fn make_keys(tree: &SessionTree, unique_count: usize) -> (keys: Vec<JmtDedupKey>)
    requires
        tree.wf(),
        unique_count <= tree.sessions@.len(),
    ensures
        keys@.len() == unique_count,
        dedup_keys_built(keys@, tree.sessions@),
{
    let mut keys: Vec<JmtDedupKey> = Vec::new();
    for i in 0..unique_count
        invariant
            tree.wf(),
            unique_count <= tree.sessions@.len(),
            keys@.len() == i,
            dedup_keys_built(keys@, tree.sessions@),
    {
        let session = &tree.sessions[i];
        let account_address = make_address(i as u64);
        let key_hash = session_key_hash(&account_address, 0);
        proof {
            lemma_session_values(tree.sessions@, i as int);
        }
        let (_, merkle_proof) = tree_get(&tree.store, &key_hash, 1).unwrap();
        keys.push(
            JmtDedupKey {
                account_address,
                key_index: 0,
                pubkey_x: session.pubkey.x.0,
                pubkey_y: session.pubkey.y.0,
                merkle_proof,
            },
        );
    }
    keys
}

/// The batch of some orders of the first keys of a tree, each key with its own proof.
pub fn dedup_input_of(tree: &SessionTree, orders: Vec<DedupOrder>, unique_count: usize) -> (w:
    JmtDedupWitness)
    requires
        tree.wf(),
        unique_count <= tree.sessions@.len(),
    ensures
        w.session_key_root == tree.root,
        w.orders == orders,
        w.unique_keys@.len() == unique_count,
        dedup_keys_built(w.unique_keys@, tree.sessions@),
{
    let unique_keys = make_keys(tree, unique_count);
    JmtDedupWitness { unique_keys, orders, session_key_root: tree.root }
}

/// A batch of `count` orders of `unique_count` keys, which lie in a tree of `tree_size` keys, each
/// with its own proof.
pub fn build_batch_septic_dedup_input(
    count: usize,
    unique_count: usize,
    tree_size: usize,
) -> (w: JmtDedupWitness)
    requires
        1 <= unique_count <= tree_size,
        unique_count <= 0x1_0000_0000,
        count <= u64::MAX - 2000000,
    ensures
        w.orders@.len() == count,
        w.unique_keys@.len() == unique_count,
        forall|i: int| 0 <= i < count ==> (#[trigger] w.orders@[i]).key_idx < unique_count,
        dedup_from_tree(w, tree_size as int, unique_count as int),
{
    let tree = make_tree(tree_size);
    let orders = make_orders(&tree.sessions, count, unique_count);
    let w = dedup_input_of(&tree, orders, unique_count);
    proof {
        assert(dedup_built(w, tree.sessions@, tree_size as int, unique_count as int));
        assert forall|i: int| 0 <= i < w.orders@.len() implies (#[trigger] w.orders@[i]).key_idx
            < unique_count by {
            lemma_shuffled_verifies(w.orders@, tree.sessions@, unique_count as int, i);
        }
    }
    w
}

/// Key `i` of a batch, without a proof of its own.
pub open spec fn key_info_built(key: UniqueKeyInfo, sessions: Seq<SessionPair>, i: int) -> bool {
    unique_key(key.account_address@, key.key_index, key.pubkey_x@, key.pubkey_y@, sessions, i)
}

/// The slot, the value and the proof of key `i`.
pub open spec fn entry_built(entry: ProofEntry, sessions: Seq<SessionPair>, i: int) -> bool {
    let slot = merkle::slot(synthetic_address(i as u64), 0);
    &&& entry.key_hash@ == slot
    &&& entry.value@ == session_values(sessions)[slot]
    &&& slot_proved(entry.proof@, sessions, i)
}

/// The keys of a batch with their entries.
pub open spec fn entries_built(
    entries: Seq<ProofEntry>,
    keys: Seq<UniqueKeyInfo>,
    sessions: Seq<SessionPair>,
) -> bool {
    &&& entries.len() == keys.len()
    &&& forall|i: int| 0 <= i < keys.len() ==> key_info_built(#[trigger] keys[i], sessions, i)
    &&& forall|i: int| 0 <= i < entries.len() ==> entry_built(#[trigger] entries[i], sessions, i)
}

/// The batch that is built from the keys of a tree, with one proof entry for each key.
pub open spec fn dedup_batch_built(
    w: JmtDedupBatchWitness,
    sessions: Seq<SessionPair>,
    tree_size: int,
    unique_count: int,
) -> bool {
    &&& sessions.len() == tree_size
    &&& sessions_wf(sessions)
    &&& w.session_key_root@ == state::tree_root(session_values(sessions))
    &&& w.unique_keys@.len() == unique_count
    &&& entries_built(w.entries@, w.unique_keys@, sessions)
    &&& dedup_orders_shuffled(w.orders@, sessions, unique_count)
}

/// The batch is built from the keys of some tree.
pub open spec fn dedup_batch_from_tree(
    w: JmtDedupBatchWitness,
    tree_size: int,
    unique_count: int,
) -> bool {
    exists|sessions: Seq<SessionPair>| #[trigger]
        dedup_batch_built(w, sessions, tree_size, unique_count)
}

/// The first keys of a tree with their entries.
fn make_entries(tree: &SessionTree, unique_count: usize) -> (t: (
    Vec<ProofEntry>,
    Vec<UniqueKeyInfo>,
))
    requires
        tree.wf(),
        unique_count <= tree.sessions@.len(),
    ensures
        t.1@.len() == unique_count,
        entries_built(t.0@, t.1@, tree.sessions@),
{
    let mut entries: Vec<ProofEntry> = Vec::new();
    let mut keys: Vec<UniqueKeyInfo> = Vec::new();
    for i in 0..unique_count
        invariant
            tree.wf(),
            unique_count <= tree.sessions@.len(),
            keys@.len() == i,
            entries_built(entries@, keys@, tree.sessions@),
    {
        let session = &tree.sessions[i];
        let account_address = make_address(i as u64);
        let key_hash = session_key_hash(&account_address, 0);
        proof {
            lemma_session_values(tree.sessions@, i as int);
        }
        let (value, proof) = tree_get(&tree.store, &key_hash, 1).unwrap();
        entries.push(ProofEntry { key_hash, value: value.unwrap(), proof });
        keys.push(
            UniqueKeyInfo {
                account_address,
                key_index: 0,
                pubkey_x: session.pubkey.x.0,
                pubkey_y: session.pubkey.y.0,
            },
        );
    }
    (entries, keys)
}

/// The batch of some orders of the first keys of a tree, the keys with entries of their own.
pub fn dedup_batch_input_of(tree: &SessionTree, orders: Vec<DedupOrder>, unique_count: usize) -> (w:
    JmtDedupBatchWitness)
    requires
        tree.wf(),
        unique_count <= tree.sessions@.len(),
    ensures
        w.session_key_root == tree.root,
        w.orders == orders,
        w.unique_keys@.len() == unique_count,
        entries_built(w.entries@, w.unique_keys@, tree.sessions@),
{
    let (entries, unique_keys) = make_entries(tree, unique_count);
    JmtDedupBatchWitness { session_key_root: tree.root, entries, unique_keys, orders }
}

/// A batch as `build_batch_septic_dedup_input` makes it, with the values and proofs of its keys
/// in entries of their own, to be proved together.
pub fn build_batch_septic_dedup_batch_input(
    count: usize,
    unique_count: usize,
    tree_size: usize,
) -> (w: JmtDedupBatchWitness)
    requires
        1 <= unique_count <= tree_size,
        unique_count <= 0x1_0000_0000,
        count <= u64::MAX - 2000000,
    ensures
        w.orders@.len() == count,
        w.unique_keys@.len() == unique_count,
        w.entries@.len() == unique_count,
        forall|i: int| 0 <= i < count ==> (#[trigger] w.orders@[i]).key_idx < unique_count,
        dedup_batch_from_tree(w, tree_size as int, unique_count as int),
{
    let tree = make_tree(tree_size);
    let orders = make_orders(&tree.sessions, count, unique_count);
    let w = dedup_batch_input_of(&tree, orders, unique_count);
    proof {
        assert(dedup_batch_built(w, tree.sessions@, tree_size as int, unique_count as int));
        assert forall|i: int| 0 <= i < w.orders@.len() implies (#[trigger] w.orders@[i]).key_idx
            < unique_count by {
            lemma_shuffled_verifies(w.orders@, tree.sessions@, unique_count as int, i);
        }
    }
    w
}

} // verus!
