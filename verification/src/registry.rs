//! The window registry: which windows are live, and the state of each.

use std::collections::hash_map::Entry;
use std::collections::HashMap;
use vstd::prelude::*;
use vstd::std_specs::hash::*;
use crate::error::Error;

verus! {

/// The identity of a window: the number under which the transport knows the
/// window's surface.
///
/// The shell-level window object and the surface under it stand for the same
/// window, so both give the same identity.  The transport gives no two
/// windows that are registered at the same time the same number.
#[derive(Clone, Copy, PartialEq, Eq, Structural, Debug, Hash)]
pub struct WindowId {
    pub surface: u32,
}

impl WindowId {
    /// The identity of the window whose shell-level object lies over the
    /// surface with the given number.
    pub fn new(surface: u32) -> (id: WindowId)
        ensures
            id == (WindowId { surface }),
    {
        WindowId::of_surface(surface)
    }

    /// The identity of the window that is drawn on the surface with the given
    /// number.
    pub fn of_surface(surface: u32) -> (id: WindowId)
        ensures
            id == (WindowId { surface }),
    {
        WindowId { surface }
    }
}

/// The entries of a map from surface numbers, by window identity.
pub open spec fn by_identity<V>(entries: Map<u32, V>) -> Map<WindowId, V> {
    Map::new(
        |id: WindowId| entries.contains_key(id.surface),
        |id: WindowId| entries[id.surface],
    )
}

/// Maps each registered window's identity to the state of that window.  No
/// identity has more than one entry.
pub struct Registry<V> {
    windows: HashMap<u32, V>,
}

impl<V> View for Registry<V> {
    type V = Map<WindowId, V>;

    closed spec fn view(&self) -> Map<WindowId, V> {
        by_identity(self.windows@)
    }
}

impl<V> Registry<V> {
    /// A registry without windows.
    pub fn new() -> (registry: Registry<V>)
        ensures
            registry@ == Map::<WindowId, V>::empty(),
    {
        let registry = Registry { windows: HashMap::new() };
        assert(registry@ =~= Map::<WindowId, V>::empty());
        registry
    }

    /// Registers a window.  An identity that is registered already keeps its
    /// state, and the new state is dropped.
    pub fn insert(&mut self, identity: WindowId, state: V) -> (result: Result<(), Error>)
        ensures
            old(self)@.contains_key(identity) ==> result == Err::<(), Error>(Error::DuplicateWindow)
                && final(self)@ == old(self)@,
            !old(self)@.contains_key(identity) ==> result.is_ok() && final(self)@ == old(self)@.insert(
                identity,
                state,
            ),
    {
        if self.windows.contains_key(&identity.surface) {
            Err(Error::DuplicateWindow)
        } else {
            self.windows.insert(identity.surface, state);
            assert(self@ =~= old(self)@.insert(identity, state));
            Ok(())
        }
    }

    /// True where a window of this identity is registered.
    pub fn contains(&self, identity: WindowId) -> (found: bool)
        ensures
            found == self@.contains_key(identity),
    {
        self.windows.contains_key(&identity.surface)
    }

    /// The state of a window; `None` for an identity that is not registered,
    /// be it closed or never seen.
    pub fn get(&self, identity: WindowId) -> (state: Option<&V>)
        ensures
            state.is_some() == self@.contains_key(identity),
            state matches Some(s) ==> *s == self@[identity],
    {
        self.windows.get(&identity.surface)
    }

    /// The state of a window, to be changed in place; `None` for an identity
    /// that is not registered, be it closed or never seen.
    pub fn get_mut(&mut self, identity: WindowId) -> (state: Option<&mut V>)
        ensures
            state.is_some() == old(self)@.contains_key(identity),
            state matches Some(s) ==> *s == old(self)@[identity] && final(self)@ == old(self)@.insert(
                identity,
                *final(s),
            ),
            state.is_none() ==> final(self)@ == old(self)@,
    {
        match self.windows.entry(identity.surface) {
            Entry::Occupied(entry) => {
                let state = entry.into_mut();
                Some(state)
            },
            Entry::Vacant(_) => None,
        }
    }

    /// Takes a window out of the registry; `None` for an identity that is not
    /// registered.
    pub fn remove(&mut self, identity: WindowId) -> (state: Option<V>)
        ensures
            state.is_some() == old(self)@.contains_key(identity),
            state matches Some(s) ==> s == old(self)@[identity],
            final(self)@ == old(self)@.remove(identity),
    {
        let state = self.windows.remove(&identity.surface);
        assert(self@ =~= old(self)@.remove(identity));
        state
    }

    /// True where no window is registered.
    pub fn is_empty(&self) -> (empty: bool)
        ensures
            empty == self@.is_empty(),
    {
        let empty = self.windows.is_empty();
        proof {
            if empty {
                assert(self@.dom() =~= Set::<WindowId>::empty());
            } else {
                assert(!(self.windows@.dom() =~= Set::<u32>::empty()));
                let k = choose|k: u32| self.windows@.dom().contains(k);
                assert(self@.contains_key(WindowId { surface: k }));
            }
        }
        empty
    }
}

} // verus!
