//! The watch table: the one piece of mutable state, mapping each kernel
//! watch handle to the directory it stands for.
//!
//! An entry lives from the moment a watch is registered until the kernel
//! invalidates that watch; emptiness of the table is the dispatcher's signal
//! to stop.

use std::collections::HashMap;
use vstd::prelude::*;

verus! {

broadcast use vstd::std_specs::hash::group_hash_axioms;

/// The table of active watches, keyed by the kernel's watch handle.
pub struct WatchTable {
    entries: HashMap<i32, Vec<u8>>,
}

impl View for WatchTable {
    type V = Map<i32, Vec<u8>>;

    closed spec fn view(&self) -> Map<i32, Vec<u8>> {
        self.entries@
    }
}

impl WatchTable {
    /// An empty table: no directory is watched yet.
    pub fn new() -> (t: WatchTable)
        ensures
            t@ == Map::<i32, Vec<u8>>::empty(),
            t@.len() == 0,
    {
        WatchTable { entries: HashMap::new() }
    }

    /// How many watches are active.
    pub fn len(&self) -> (n: usize)
        ensures
            n == self@.len(),
    {
        self.entries.len()
    }

    /// Whether no watch is active — the dispatcher's stop signal.
    pub fn is_empty(&self) -> (r: bool)
        ensures
            r == (self@.len() == 0),
    {
        self.len() == 0
    }

    /// Whether `wd` is an active watch handle.
    pub fn contains(&self, wd: i32) -> (r: bool)
        ensures
            r == self@.contains_key(wd),
    {
        self.entries.contains_key(&wd)
    }

    /// The directory watched under `wd`, if that handle is active.
    pub fn get(&self, wd: i32) -> (r: Option<&Vec<u8>>)
        ensures
            match r {
                Some(p) => self@.contains_key(wd) && *p == self@[wd],
                None => !self@.contains_key(wd),
            },
    {
        self.entries.get(&wd)
    }

    /// Drops the entry for an invalidated handle; a handle the table does
    /// not hold leaves it unchanged.
    pub fn remove(&mut self, wd: i32)
        ensures
            final(self)@ == old(self)@.remove(wd),
            old(self)@.contains_key(wd) ==> final(self)@.len() == old(self)@.len() - 1,
            !old(self)@.contains_key(wd) ==> final(self)@ == old(self)@,
    {
        self.entries.remove(&wd);
        proof {
            broadcast use vstd::set::group_set_axioms;

            assert(self@.dom() =~= old(self)@.remove(wd).dom());
            if !old(self)@.contains_key(wd) {
                assert(self@ =~= old(self)@);
            }
        }
    }

    /// Records a freshly registered watch: `wd` now stands for `path`.
    pub fn insert(&mut self, wd: i32, path: Vec<u8>)
        ensures
            final(self)@ == old(self)@.insert(wd, path),
            !old(self)@.contains_key(wd) ==> final(self)@.len() == old(self)@.len() + 1,
    {
        self.entries.insert(wd, path);
        proof {
            broadcast use vstd::set::group_set_axioms;

            assert(self@.dom() =~= old(self)@.dom().insert(wd));
        }
    }
}

/// Records a successfully registered watch in the table, as registration
/// does once the kernel has handed back the watch handle.
pub fn add_watch(wd: i32, path: Vec<u8>, watches: &mut WatchTable)
    ensures
        final(watches)@ == old(watches)@.insert(wd, path),
        !old(watches)@.contains_key(wd) ==> final(watches)@.len() == old(watches)@.len() + 1,
{
    watches.insert(wd, path);
}

/// Removing a watched subtree of one directory that itself held exactly one
/// nested watched subdirectory shrinks the table by exactly two entries once
/// both invalidation notifications are processed.
pub proof fn lemma_two_invalidations(m: Map<i32, Vec<u8>>, wd_outer: i32, wd_inner: i32)
    requires
        m.dom().finite(),
        m.contains_key(wd_outer),
        m.contains_key(wd_inner),
        wd_outer != wd_inner,
    ensures
        m.remove(wd_outer).remove(wd_inner).len() == m.len() - 2,
{
    broadcast use vstd::set::group_set_axioms;

    assert(m.remove(wd_outer).dom() =~= m.dom().remove(wd_outer));
    assert(m.remove(wd_outer).remove(wd_inner).dom() =~= m.dom().remove(wd_outer).remove(
        wd_inner,
    ));
}

} // verus!
