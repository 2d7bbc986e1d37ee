//! Event identifiers exchanged between notifiers and listeners.

use vstd::prelude::*;

verus! {

/// An unsigned integer identifying one kind of event on an event service.
///
/// A notifier delivers an `EventId` to every attached listener; a service
/// only accepts identifiers in `[0, event_id_max_value]` of its static
/// configuration.
#[derive(Clone, Copy, Debug, PartialEq, Eq, Structural, Hash)]
pub struct EventId {
    pub value: usize,
}

impl EventId {
    /// Wraps a raw value as an event identifier.
    pub fn new(value: usize) -> (r: EventId)
        ensures
            r.value == value,
    {
        EventId { value }
    }

    /// Returns the raw value of the identifier.
    pub fn as_value(&self) -> (r: usize)
        ensures
            r == self.value,
    {
        self.value
    }
}

} // verus!
