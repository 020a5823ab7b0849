//! The registry of live windows: pure storage, keyed by window identity.
//!
//! A window and its content view are registered together and released
//! together. The registry knows nothing about what they are; the program
//! around the library stores its platform handles in it.

use std::collections::HashMap;
use vstd::prelude::*;
use crate::event::LuaWindowId;

verus! {

broadcast use vstd::std_specs::hash::group_hash_axioms;

/// The live windows `W` with their content views `C`.
pub struct Registry<W, C> {
    entries: HashMap<u64, (W, C)>,
}

impl<W, C> View for Registry<W, C> {
    type V = Map<u64, (W, C)>;

    closed spec fn view(&self) -> Map<u64, (W, C)> {
        self.entries@
    }
}

impl<W, C> Registry<W, C> {
    /// A registry without windows.
    pub fn new() -> (registry: Self)
        ensures
            registry@ == Map::<u64, (W, C)>::empty(),
    {
        Registry { entries: HashMap::new() }
    }

    /// Registers `window` and its content view under `identity`. An entry
    /// already stored under that identity is released and replaced.
    pub fn register(&mut self, identity: LuaWindowId, window: W, view: C)
        ensures
            final(self)@ == old(self)@.insert(identity.0, (window, view)),
    {
        let _ = self.entries.insert(identity.0, (window, view));
    }

    /// Whether a window is registered under `identity`.
    pub fn contains(&self, identity: LuaWindowId) -> (present: bool)
        ensures
            present == self@.contains_key(identity.0),
    {
        self.entries.contains_key(&identity.0)
    }

    /// The content view registered under `identity`.
    pub fn get(&self, identity: LuaWindowId) -> (found: Option<&C>)
        ensures
            match found {
                Some(view) => self@.contains_key(identity.0) && *view == self@[identity.0].1,
                None => !self@.contains_key(identity.0),
            },
    {
        match self.entries.get(&identity.0) {
            Some(entry) => Some(&entry.1),
            None => None,
        }
    }

    /// The window registered under `identity`.
    pub fn window(&self, identity: LuaWindowId) -> (found: Option<&W>)
        ensures
            match found {
                Some(window) => self@.contains_key(identity.0) && *window == self@[identity.0].0,
                None => !self@.contains_key(identity.0),
            },
    {
        match self.entries.get(&identity.0) {
            Some(entry) => Some(&entry.0),
            None => None,
        }
    }

    /// Releases the window registered under `identity` together with its
    /// content view. Returns whether there was one; removing an identity that
    /// is not registered changes nothing and is no error.
    pub fn remove(&mut self, identity: LuaWindowId) -> (released: bool)
        ensures
            final(self)@ == old(self)@.remove(identity.0),
            released == old(self)@.contains_key(identity.0),
    {
        match self.entries.remove(&identity.0) {
            Some(_) => true,
            None => false,
        }
    }

    /// The number of registered windows.
    pub fn len(&self) -> (count: usize)
        ensures
            count == self@.len(),
    {
        self.entries.len()
    }
}

/// Removal is idempotent, and after it the identity is gone: a second
/// removal finds nothing to release and leaves the registry as the first
/// left it.
pub proof fn lemma_removal_is_idempotent<W, C>(windows: Map<u64, (W, C)>, identity: u64)
    ensures
        !windows.remove(identity).contains_key(identity),
        windows.remove(identity).remove(identity) == windows.remove(identity),
{
    assert(windows.remove(identity).remove(identity) =~= windows.remove(identity));
}

/// Registering and removing one window leaves every other window as it was.
pub proof fn lemma_other_windows_are_untouched<W, C>(
    windows: Map<u64, (W, C)>,
    identity: u64,
    entry: (W, C),
    other: u64,
)
    requires
        other != identity,
    ensures
        windows.insert(identity, entry).contains_key(other) == windows.contains_key(other),
        windows.remove(identity).contains_key(other) == windows.contains_key(other),
        windows.contains_key(other) ==> windows.insert(identity, entry)[other] == windows[other]
            && windows.remove(identity)[other] == windows[other],
{
}

} // verus!
