//! The fixed header carried by every publish/subscribe sample.

use crate::port_identifiers::UniquePublisherId;
use vstd::prelude::*;

verus! {

/// Message header placed in front of every payload sent on a
/// publish/subscribe service.
///
/// It records the identifier of the publisher that sent the sample; a
/// subscriber reads it back through `origin` on the received sample.
#[derive(Clone, Copy, Debug, PartialEq, Eq, Structural)]
pub struct Header {
    pub publisher_port_id: UniquePublisherId,
}

impl Header {
    /// Stamps a new header with the sending publisher's identifier.
    pub fn new(publisher_port_id: UniquePublisherId) -> (r: Header)
        ensures
            r.publisher_port_id == publisher_port_id,
    {
        Header { publisher_port_id }
    }

    /// Returns the identifier of the publisher that sent the sample.
    pub fn publisher_id(&self) -> (r: UniquePublisherId)
        ensures
            r == self.publisher_port_id,
    {
        self.publisher_port_id
    }
}

} // verus!
