//! The operation store: which operation each thread has in flight, and
//! through which entry point it came.

use crate::error::ProbeError;
use std::collections::HashMap;
use vstd::prelude::*;

verus! {

/// What a rename in flight has to remember.
#[derive(Clone, Copy, Debug, PartialEq, Eq, Structural)]
pub struct RenameatData {}

/// The operation that a thread has in flight.
#[derive(Clone, Copy, Debug, PartialEq, Eq, Structural)]
pub enum OpInfo {
    /// A rename that was submitted on the asynchronous path.
    Renameat(RenameatData),
}

/// What the store holds, and how much it can hold.
pub ghost struct Entries {
    /// The operation in flight of each thread that has one.
    pub map: Map<u32, OpInfo>,
    /// The largest number of threads that the store can hold.
    pub max_entries: nat,
}

impl Entries {
    /// The store holds no more threads than it has room for.
    pub open spec fn wf(self) -> bool {
        self.map.dom().finite() && self.map.len() <= self.max_entries
    }

    /// An operation of thread `pid` can be recorded: the thread has an entry
    /// to overwrite, or there is room for one more.
    pub open spec fn can_insert(self, pid: u32) -> bool {
        self.map.contains_key(pid) || self.map.len() < self.max_entries
    }

    /// The store after `info` was recorded for thread `pid`.
    pub open spec fn insert(self, pid: u32, info: OpInfo) -> Entries {
        Entries { map: self.map.insert(pid, info), max_entries: self.max_entries }
    }

    /// The operation in flight of thread `pid`.
    pub open spec fn get(self, pid: u32) -> Option<OpInfo> {
        if self.map.contains_key(pid) {
            Some(self.map[pid])
        } else {
            None
        }
    }

    /// The store without an entry for thread `pid`.
    pub open spec fn remove(self, pid: u32) -> Entries {
        Entries { map: self.map.remove(pid), max_entries: self.max_entries }
    }
}

/// A store of bounded size with one slot per thread identifier.
pub struct OpInfoStore {
    entries: HashMap<u32, OpInfo>,
    max_entries: usize,
}

impl View for OpInfoStore {
    type V = Entries;

    closed spec fn view(&self) -> Entries {
        Entries { map: self.entries@, max_entries: self.max_entries as nat }
    }
}

impl OpInfoStore {
    /// Every store keeps within its bounds.
    #[verifier::type_invariant]
    pub open spec fn inv(self) -> bool {
        self@.wf()
    }

    /// Makes an empty store with room for `max_entries` threads.
    pub fn new(max_entries: usize) -> (store: Self)
        ensures
            store@ == (Entries { map: Map::empty(), max_entries: max_entries as nat }),
            store@.wf(),
    {
        OpInfoStore { entries: HashMap::new(), max_entries }
    }

    /// Records `info` as the operation in flight of thread `pid`, in place of
    /// what was recorded for that thread. Fails, and changes nothing, when
    /// the thread has no entry and the store is full.
    pub fn insert(&mut self, pid: u32, info: &OpInfo) -> (r: Result<u32, ProbeError>)
        ensures
            r is Ok <==> old(self)@.can_insert(pid),
            r is Ok ==> r == Ok::<u32, ProbeError>(0) && final(self)@ == old(self)@.insert(
                pid,
                *info,
            ),
            r is Err ==> r == Err::<u32, ProbeError>(ProbeError::ResourceExhausted) && final(self)@
                == old(self)@,
            final(self)@.wf(),
    {
        proof {
            use_type_invariant(&*self);
        }
        if !self.entries.contains_key(&pid) && self.entries.len() >= self.max_entries {
            return Err(ProbeError::ResourceExhausted);
        }
        let mut entries: HashMap<u32, OpInfo> = HashMap::new();
        std::mem::swap(&mut entries, &mut self.entries);
        entries.insert(pid, *info);
        self.entries = entries;
        Ok(0)
    }

    /// Returns the operation in flight of thread `pid`, and leaves it in the
    /// store.
    pub fn get(&self, pid: u32) -> (info: Option<&OpInfo>)
        ensures
            match info {
                Some(found) => self@.get(pid) == Some(*found),
                None => self@.get(pid) is None,
            },
    {
        self.entries.get(&pid)
    }

    /// Takes the entry of thread `pid` out of the store and returns what it
    /// held. A thread without an entry is no error.
    pub fn remove(&mut self, pid: u32) -> (info: Option<OpInfo>)
        ensures
            info == old(self)@.get(pid),
            final(self)@ == old(self)@.remove(pid),
            final(self)@.wf(),
    {
        proof {
            use_type_invariant(&*self);
        }
        let mut entries: HashMap<u32, OpInfo> = HashMap::new();
        std::mem::swap(&mut entries, &mut self.entries);
        let info = entries.remove(&pid);
        self.entries = entries;
        info
    }
}

} // verus!
