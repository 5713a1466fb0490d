//! A map from block keys, kept in a hash map over packed keys.

use std::collections::HashMap;
use vstd::prelude::*;

verus! {

broadcast use vstd::std_specs::hash::group_hash_axioms;

/// The place of a block: its epoch and its number in the chain.
#[derive(Debug, Clone, Copy, PartialEq, Eq, Structural, Hash)]
pub struct BlockKey {
    pub epoch: u64,
    pub block_number: u64,
}

impl BlockKey {
    pub fn new(epoch: u64, block_number: u64) -> (key: Self)
        ensures
            key == (BlockKey { epoch, block_number }),
    {
        Self { epoch, block_number }
    }
}

/// One word that holds both halves of a key.
spec fn packed(key: BlockKey) -> u128 {
    (key.epoch * 0x1_0000_0000_0000_0000 + key.block_number) as u128
}

/// The key that a word holds.
spec fn unpacked(word: u128) -> BlockKey {
    BlockKey {
        epoch: (word / 0x1_0000_0000_0000_0000) as u64,
        block_number: (word % 0x1_0000_0000_0000_0000) as u64,
    }
}

proof fn lemma_unpack(key: BlockKey)
    ensures
        unpacked(packed(key)) == key,
{
}

proof fn lemma_pack(word: u128)
    ensures
        packed(unpacked(word)) == word,
{
}

fn pack(key: BlockKey) -> (word: u128)
    ensures
        word == packed(key),
{
    key.epoch as u128 * 0x1_0000_0000_0000_0000 + key.block_number as u128
}

/// A map from block keys to values.
pub struct BlockMap<V> {
    inner: HashMap<u128, V>,
}

impl<V> View for BlockMap<V> {
    type V = Map<BlockKey, V>;

    closed spec fn view(&self) -> Map<BlockKey, V> {
        Map::new(
            |key: BlockKey| self.inner@.contains_key(packed(key)),
            |key: BlockKey| self.inner@[packed(key)],
        )
    }
}

impl<V> BlockMap<V> {
    /// The map without entries.
    pub fn new() -> (map: Self)
        ensures
            map@ == Map::<BlockKey, V>::empty(),
    {
        let map = BlockMap { inner: HashMap::new() };
        assert(map@ =~= Map::<BlockKey, V>::empty());
        map
    }

    /// The number of entries.
    pub fn len(&self) -> (len: usize)
        ensures
            len == self@.len(),
    {
        proof {
            let words = self.inner@.dom();
            let keys = self@.dom();
            assert(words =~= keys.map(|key: BlockKey| packed(key))) by {
                assert forall|word: u128| words.contains(word) implies keys.map(
                    |key: BlockKey| packed(key),
                ).contains(word) by {
                    lemma_pack(word);
                    assert(keys.contains(unpacked(word)));
                }
            }
            assert(keys =~= words.map(|word: u128| unpacked(word))) by {
                assert forall|key: BlockKey| keys.contains(key) implies words.map(
                    |word: u128| unpacked(word),
                ).contains(key) by {
                    lemma_unpack(key);
                    assert(words.contains(packed(key)));
                }
                assert forall|key: BlockKey| words.map(
                    |word: u128| unpacked(word),
                ).contains(key) implies keys.contains(key) by {
                    let word = choose|word: u128| words.contains(word) && unpacked(word) == key;
                    lemma_pack(word);
                }
            }
            assert forall|a: BlockKey, b: BlockKey| packed(a) == packed(b) implies a == b by {
                lemma_unpack(a);
                lemma_unpack(b);
            }
            words.lemma_map_finite(|word: u128| unpacked(word));
            vstd::set_lib::lemma_map_size(keys, words, |key: BlockKey| packed(key));
        }
        self.inner.len()
    }

    /// The value at `key`, if there is one.
    pub fn get(&self, key: BlockKey) -> (value: Option<&V>)
        ensures
            value == (if self@.contains_key(key) {
                Some(&self@[key])
            } else {
                None
            }),
    {
        self.inner.get(&pack(key))
    }

    /// Sets the value at `key`.
    pub fn insert(&mut self, key: BlockKey, value: V)
        ensures
            final(self)@ == old(self)@.insert(key, value),
    {
        self.inner.insert(pack(key), value);
        proof {
            assert forall|a: BlockKey, b: BlockKey| packed(a) == packed(b) implies a == b by {
                lemma_unpack(a);
                lemma_unpack(b);
            }
            assert(self@ =~= old(self)@.insert(key, value));
        }
    }

    /// Drops every entry whose block number is not in `low..=high`.
    pub fn retain_numbers(&mut self, low: u64, high: u64)
        ensures
            final(self)@ == old(self)@.restrict(numbered(low, high)),
    {
        let mut dropped: Vec<u128> = Vec::new();
        let ghost before = self.inner@;
        for word in iter: self.inner.keys()
            invariant
                forall|i: int|
                    0 <= i < dropped.len() ==> !in_range(#[trigger] dropped[i], low, high),
                forall|i: int|
                    0 <= i < iter.index() ==> in_range(*#[trigger] iter.seq()[i], low, high)
                        || dropped@.contains(*iter.seq()[i]),
        {
            let number = *word % 0x1_0000_0000_0000_0000;
            let ghost earlier = dropped@;
            if number < low as u128 || number > high as u128 {
                dropped.push(*word);
                assert(dropped[dropped.len() - 1] == *word);
            }
            assert forall|w: u128| earlier.contains(w) implies dropped@.contains(w) by {
                let i = earlier.index_of(w);
                assert(dropped[i] == w);
            }
        }
        assert forall|w: u128| before.contains_key(w) implies in_range(w, low, high)
            || dropped@.contains(w) by {
            let words = vstd::std_specs::iter::IteratorSpec::remaining(
                &vstd::std_specs::hash::spec_keys_iter(&self.inner),
            );
            assert(words.unref().to_set().contains(w));
            let i = choose|i: int| 0 <= i < words.unref().len() && words.unref()[i] == w;
            assert(*words[i] == w);
        }
        let mut i: usize = 0;
        while i < dropped.len()
            invariant
                i <= dropped.len(),
                forall|w: u128| #[trigger]
                    self.inner@.contains_key(w) <==> before.contains_key(w)
                        && !dropped@.take(i as int).contains(w),
                forall|w: u128| #[trigger]
                    self.inner@.contains_key(w) ==> self.inner@[w] == before[w],
            decreases dropped.len() - i,
        {
            self.inner.remove(&dropped[i]);
            assert(dropped@.take(i + 1) =~= dropped@.take(i as int).push(dropped[i as int]));
            assert forall|w: u128| #[trigger] dropped@.take(i + 1).contains(w) <==> (
            dropped@.take(i as int).contains(w) || w == dropped[i as int]) by {
                if dropped@.take(i as int).contains(w) {
                    let j = dropped@.take(i as int).index_of(w);
                    assert(dropped@.take(i + 1)[j] == w);
                }
                assert(dropped@.take(i + 1)[i as int] == dropped[i as int]);
            }
            i += 1;
        }
        proof {
            assert(dropped@.take(i as int) =~= dropped@);
            assert forall|key: BlockKey| unpacked(packed(key)) == key by {
                lemma_unpack(key);
            }
            assert forall|key: BlockKey| #[trigger] self@.contains_key(key) <==> old(
                self,
            )@.contains_key(key) && numbered(low, high).contains(key) by {
                lemma_unpack(key);
                if dropped@.contains(packed(key)) {
                    let j = dropped@.index_of(packed(key));
                    assert(!in_range(dropped[j], low, high));
                }
            }
            assert(self@ =~= old(self)@.restrict(numbered(low, high)));
        }
    }
}

/// Whether the block number that `word` holds is in `low..=high`.
spec fn in_range(word: u128, low: u64, high: u64) -> bool {
    low <= unpacked(word).block_number <= high
}

/// The keys whose block number is in `low..=high`.
pub open spec fn numbered(low: u64, high: u64) -> Set<BlockKey> {
    Set::new(|key: BlockKey| low <= key.block_number <= high)
}

} // verus!
