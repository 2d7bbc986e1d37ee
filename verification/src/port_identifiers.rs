//! Globally unique identifiers for ports.
//!
//! Every endpoint receives an identifier minted from the system-wide
//! monotonic id source.  The identifiers are stamped into sample headers and
//! used as origin tags and slot-ownership witnesses.

use vstd::prelude::*;

verus! {

/// Unique identifier of a publisher port.
#[derive(Clone, Copy, Debug, PartialEq, Eq, Structural, Hash)]
pub struct UniquePublisherId {
    pub value: u128,
}

impl UniquePublisherId {
    /// Wraps a raw id-source value.
    pub fn new(value: u128) -> (r: UniquePublisherId)
        ensures
            r.value == value,
    {
        UniquePublisherId { value }
    }
}

/// Unique identifier of a subscriber port.
#[derive(Clone, Copy, Debug, PartialEq, Eq, Structural, Hash)]
pub struct UniqueSubscriberId {
    pub value: u128,
}

impl UniqueSubscriberId {
    /// Wraps a raw id-source value.
    pub fn new(value: u128) -> (r: UniqueSubscriberId)
        ensures
            r.value == value,
    {
        UniqueSubscriberId { value }
    }
}

/// Unique identifier of a notifier port.
#[derive(Clone, Copy, Debug, PartialEq, Eq, Structural, Hash)]
pub struct UniqueNotifierId {
    pub value: u128,
}

impl UniqueNotifierId {
    /// Wraps a raw id-source value.
    pub fn new(value: u128) -> (r: UniqueNotifierId)
        ensures
            r.value == value,
    {
        UniqueNotifierId { value }
    }
}

/// Unique identifier of a listener port.
#[derive(Clone, Copy, Debug, PartialEq, Eq, Structural, Hash)]
pub struct UniqueListenerId {
    pub value: u128,
}

impl UniqueListenerId {
    /// Wraps a raw id-source value.
    pub fn new(value: u128) -> (r: UniqueListenerId)
        ensures
            r.value == value,
    {
        UniqueListenerId { value }
    }
}

} // verus!
