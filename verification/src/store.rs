//! The key-path store in which session metadata is kept.
//!
//! [`MetaStore`] is what a store has to offer so that a
//! [`SessionWriter`](crate::writer::SessionWriter) can work on it, and
//! [`MemoryStore`] is such a store. A store that cannot be described to
//! Verus, such as a directory on disk, is served by following a
//! [`Transaction`](crate::transaction::Transaction) instead.

use crate::error::Fault;
use vstd::hash_map::StringHashMap;
use vstd::prelude::*;
use vstd::string::*;

verus! {

/// What a store holds: text values by text key.
pub type Contents = Map<Seq<char>, Seq<char>>;

/// A store of text values under text keys, scoped to the session directory
/// of one project.
///
/// `contents` is what the store holds. An implementation promises that a
/// read reports exactly that, and that a write either lands whole or leaves
/// the store as it was; Verus holds every implementation to it.
pub trait MetaStore {
    /// The values held, by key.
    spec fn contents(&self) -> Contents;

    /// The value under `key`, or `None` where the store holds none.
    fn read(&self, key: &str) -> (value: Option<String>)
        ensures
            match value {
                Some(v) => self.contents().contains_key(key@) && self.contents()[key@] == v@,
                None => !self.contents().contains_key(key@),
            },
    ;

    /// Puts `value` under `key`, replacing what was there. On failure the
    /// store is unchanged.
    fn write(&mut self, key: &str, value: &str) -> (done: Result<(), Fault>)
        ensures
            done is Ok ==> final(self).contents() == old(self).contents().insert(key@, value@),
            done is Err ==> final(self).contents() == old(self).contents(),
    ;
}

/// A store held in memory.
///
/// It can be told to refuse writes to one key, so that callers can be
/// exercised against a store that fails part of the way through.
pub struct MemoryStore {
    entries: StringHashMap<String>,
    refused: Option<String>,
    write_calls: u64,
}

impl MemoryStore {
    /// The key to which writes are refused, if any.
    pub closed spec fn refused_key(&self) -> Option<Seq<char>> {
        match self.refused {
            Some(k) => Some(k@),
            None => None,
        }
    }

    /// The number of writes asked of the store so far, refused ones
    /// included; it stops counting at `u64::MAX`.
    pub closed spec fn spec_write_calls(&self) -> u64 {
        self.write_calls
    }

    /// An empty store that accepts every write.
    pub fn new() -> (store: MemoryStore)
        ensures
            store.contents() == Contents::empty(),
            store.refused_key() is None,
            store.spec_write_calls() == 0,
    {
        let store = MemoryStore { entries: StringHashMap::new(), refused: None, write_calls: 0 };
        assert(store.contents() =~= Contents::empty());
        store
    }

    /// From now on, refuses writes to `key` and to no other key.
    pub fn refuse_writes_to(&mut self, key: &str)
        ensures
            final(self).contents() == old(self).contents(),
            final(self).refused_key() == Some(key@),
            final(self).spec_write_calls() == old(self).spec_write_calls(),
    {
        self.refused = Some(String::from_str(key));
    }

    /// From now on, accepts every write.
    pub fn accept_all_writes(&mut self)
        ensures
            final(self).contents() == old(self).contents(),
            final(self).refused_key() is None,
            final(self).spec_write_calls() == old(self).spec_write_calls(),
    {
        self.refused = None;
    }

    /// The number of writes asked of the store so far, refused ones
    /// included; it stops counting at `u64::MAX`.
    #[verifier::when_used_as_spec(spec_write_calls)]
    pub fn write_calls(&self) -> (calls: u64)
        ensures
            calls == self.spec_write_calls(),
    {
        self.write_calls
    }
}

impl MetaStore for MemoryStore {
    closed spec fn contents(&self) -> Contents {
        Map::new(|k: Seq<char>| self.entries@.contains_key(k), |k: Seq<char>| self.entries@[k]@)
    }

    fn read(&self, key: &str) -> (value: Option<String>) {
        match self.entries.get(key) {
            Some(v) => Some(v.clone()),
            None => None,
        }
    }

    /// Fails exactly on the key to which writes are refused.
    fn write(&mut self, key: &str, value: &str) -> (done: Result<(), Fault>)
        ensures
            done is Err <==> old(self).refused_key() == Some(key@),
            done matches Err(fault) ==> fault.message@ == "write refused"@,
            final(self).refused_key() == old(self).refused_key(),
            old(self).spec_write_calls() < u64::MAX ==> final(self).spec_write_calls()
                == old(self).spec_write_calls() + 1,
            old(self).spec_write_calls() == u64::MAX ==> final(self).spec_write_calls()
                == u64::MAX,
    {
        if self.write_calls < u64::MAX {
            self.write_calls = self.write_calls + 1;
        }
        let wanted = String::from_str(key);
        let refuse = match &self.refused {
            Some(k) => *k == wanted,
            None => false,
        };
        if refuse {
            Err(Fault { message: String::from_str("write refused") })
        } else {
            self.entries.insert(wanted, String::from_str(value));
            assert(self.contents() =~= old(self).contents().insert(key@, value@));
            Ok(())
        }
    }
}

} // verus!
