//! An in-memory model of the host ledger's durable key-value store: byte-string
//! keys, last-writer-wins `set`, absence-safe `get` and `has`.
//!
//! Entries are kept as an append-only journal; the newest entry for a key is
//! authoritative. Abstractly the store is the finite map from each key to the
//! value of its newest entry, and every operation is specified against that
//! map alone.

use vstd::prelude::*;
use crate::bytes::bytes_eq;

verus! {

/// A key-value store with byte-string keys, viewed as a `Map<Seq<u8>, V::V>`.
pub struct ByteMap<V> {
    entries: Vec<(Vec<u8>, V)>,
}

/// The map described by a journal of entries: later entries shadow earlier
/// ones.
spec fn entries_map<V: View>(entries: Seq<(Vec<u8>, V)>) -> Map<Seq<u8>, V::V>
    decreases entries.len(),
{
    if entries.len() == 0 {
        Map::empty()
    } else {
        entries_map(entries.drop_last()).insert(entries.last().0@, entries.last().1@)
    }
}

impl<V: View> View for ByteMap<V> {
    type V = Map<Seq<u8>, V::V>;

    closed spec fn view(&self) -> Map<Seq<u8>, V::V> {
        entries_map(self.entries@)
    }
}

impl<V: View> ByteMap<V> {
    /// An empty store.
    pub fn new() -> (r: Self)
        ensures
            r@ == Map::<Seq<u8>, V::V>::empty(),
    {
        ByteMap { entries: Vec::new() }
    }

    /// Writes `value` under `key`, replacing whatever the key held before.
    pub fn set(&mut self, key: Vec<u8>, value: V)
        ensures
            final(self)@ == old(self)@.insert(key@, value@),
    {
        let ghost before = self.entries@;
        let ghost k = key@;
        let ghost v = value@;
        self.entries.push((key, value));
        proof {
            assert(self.entries@.drop_last() =~= before);
            assert(self.entries@.last().0@ == k);
            assert(self.entries@.last().1@ == v);
        }
    }

    /// Reads the value under `key`, or `None` when the key was never written.
    pub fn get(&self, key: &Vec<u8>) -> (r: Option<&V>)
        ensures
            match r {
                Some(v) => self@.contains_key(key@) && v@ == self@[key@],
                None => !self@.contains_key(key@),
            },
    {
        let ghost s = self.entries@;
        let ghost k = key@;
        let mut i: usize = self.entries.len();
        proof {
            assert(s.take(s.len() as int) =~= s);
        }
        while i > 0
            invariant
                i <= self.entries@.len(),
                s == self.entries@,
                k == key@,
                entries_map(s).contains_key(k) == entries_map(s.take(i as int)).contains_key(k),
                entries_map(s).contains_key(k) ==> entries_map(s)[k] == entries_map(
                    s.take(i as int),
                )[k],
            decreases i,
        {
            proof {
                assert(s.take(i as int).drop_last() =~= s.take(i - 1));
                assert(s.take(i as int).last() == s[i - 1]);
            }
            if bytes_eq(&self.entries[i - 1].0, key) {
                return Some(&self.entries[i - 1].1);
            }
            i -= 1;
        }
        proof {
            assert(s.take(0) =~= Seq::<(Vec<u8>, V)>::empty());
        }
        None
    }

    /// Whether the key has ever been written.
    pub fn has(&self, key: &Vec<u8>) -> (r: bool)
        ensures
            r == self@.contains_key(key@),
    {
        match self.get(key) {
            Some(_) => true,
            None => false,
        }
    }
}

} // verus!
