//! Backends of the player that hold no state of their own.
use vstd::prelude::*;

verus! {

/// Sends the player's trace output to the log.
#[derive(Clone, Copy, Debug, PartialEq, Eq, Structural)]
pub struct RetroLogBackend {}

impl RetroLogBackend {
    pub fn new() -> (r: RetroLogBackend)
        ensures
            r == (RetroLogBackend {}),
    {
        RetroLogBackend {}
    }
}

/// Refuses navigation and fetching: the host has no browser.
#[derive(Clone, Copy, Debug, PartialEq, Eq, Structural)]
pub struct RetroNavigatorBackend {}

impl RetroNavigatorBackend {
    pub fn new() -> (r: RetroNavigatorBackend)
        ensures
            r == (RetroNavigatorBackend {}),
    {
        RetroNavigatorBackend {}
    }
}

/// A list of Vulkan properties (extensions or layers) to be written to the log.
pub struct PropertiesFormat<'a, T> {
    pub properties: &'a [T],
}

impl<'a, T> PropertiesFormat<'a, T> {
    pub fn new(properties: &'a [T]) -> (r: PropertiesFormat<'a, T>)
        ensures
            r.properties@ == properties@,
    {
        PropertiesFormat { properties }
    }

    /// How many properties the list holds.
    pub fn len(&self) -> (r: usize)
        ensures
            r == self.properties@.len(),
    {
        self.properties.len()
    }
}

} // verus!
