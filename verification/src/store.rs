//! The one-time publication gate: the resolved configuration is built
//! exactly once at startup, published into an explicitly constructed
//! store, and read many times after; a second publication never
//! silently overwrites the first.

use vstd::prelude::*;

use crate::spring::DyConfiguration;

verus! {

/// Holds the process's one resolved configuration.
pub struct ConfigStore {
    slot: Option<DyConfiguration>,
}

impl ConfigStore {
    /// What the store holds.
    pub closed spec fn configuration(&self) -> Option<DyConfiguration> {
        self.slot
    }

    /// Whether a configuration has been published.
    pub open spec fn is_initialized(&self) -> bool {
        self.configuration() is Some
    }

    /// An empty store.
    pub fn new() -> (r: Self)
        ensures
            !r.is_initialized(),
    {
        ConfigStore { slot: None }
    }

    /// Whether a configuration has been published.
    pub fn initialized(&self) -> (r: bool)
        ensures
            r == self.is_initialized(),
    {
        self.slot.is_some()
    }

    /// Publishes the configuration. The first publication sticks; a
    /// later one is refused and changes nothing, so the snapshot every
    /// reader observed stays stable.
    pub fn set(&mut self, c: DyConfiguration) -> (r: bool)
        ensures
            !old(self).is_initialized() ==> r && final (self).configuration() == Some(c),
            old(self).is_initialized() ==> !r && final (self).configuration() == old(
                self,
            ).configuration(),
    {
        if self.slot.is_some() {
            false
        } else {
            self.slot = Some(c);
            true
        }
    }
}

/// The published configuration; callers establish that publication has
/// happened.
pub fn get(store: &ConfigStore) -> (r: &DyConfiguration)
    requires
        store.is_initialized(),
    ensures
        store.configuration() == Some(*r),
{
    match &store.slot {
        Some(c) => c,
        None => unreached(),
    }
}

} // verus!
