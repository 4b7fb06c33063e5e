//! The slot that owns the sink.
//!
//! The firmware keeps one registry for its whole run. It starts empty and is
//! filled once, before any fault can occur. From then on the registry owns
//! the sink: the application works through the handle that registration
//! gave it, and the fault path reads the slot itself.

use vstd::prelude::*;

verus! {

/// Owner of at most one sink of type `S`.
pub struct Registry<S> {
    /// The registered sink, or `None` while nothing was registered.
    pub slot: Option<S>,
}

impl<S> Registry<S> {
    /// An empty registry.
    pub fn new() -> (registry: Self)
        ensures
            registry.slot is None,
    {
        Registry { slot: None }
    }

    /// Whether a sink was registered.
    pub fn is_registered(&self) -> (registered: bool)
        ensures
            registered == self.slot is Some,
    {
        self.slot.is_some()
    }

    /// Moves `sink` into the slot and hands back a handle to it there.
    ///
    /// The handle refers to the very value that was passed in, and whatever
    /// is done through the handle is done to the value that the slot holds.
    /// A sink registered earlier is dropped without notice.
    pub fn register(&mut self, sink: S) -> (handle: &mut S)
        ensures
            *handle == sink,
            final(self).slot == Some(*final(handle)),
    {
        self.slot.insert(sink)
    }
}

} // verus!
