//! Nodes: a process's handle onto the runtime.
//!
//! A node is required to build services; it carries the serialization
//! format the process uses for static descriptors, injected at node
//! construction — both sides of a service must agree on it.

use crate::service_name::ServiceName;
use crate::system::System;
use vstd::prelude::*;

verus! {

/// A process's handle onto the runtime.
#[derive(Clone, Copy, Debug, PartialEq, Eq, Structural)]
pub struct Node {
    pub id: u128,
    pub serializer: u64,
}

/// Builds a [`Node`].
#[derive(Clone, Copy, Debug, PartialEq, Eq, Structural)]
pub struct NodeBuilder {
    pub serializer: u64,
}

impl NodeBuilder {
    /// A builder for a node using the default serialization format.
    pub fn new() -> (r: NodeBuilder)
        ensures
            r.serializer == 0,
    {
        NodeBuilder { serializer: 0 }
    }

    /// Injects the serialization format the node will write and expect in
    /// static descriptors.
    pub fn serialization_format(self, tag: u64) -> (r: NodeBuilder)
        ensures
            r.serializer == tag,
    {
        NodeBuilder { serializer: tag }
    }

    /// Creates the node, minting its identifier from the id source.
    pub fn create(&self, sys: &mut System) -> (r: Node)
        requires
            old(sys).wf(),
        ensures
            final(sys).wf(),
            final(sys).services@ == old(sys).services@,
            final(sys).samples@ == old(sys).samples@,
            final(sys).now == old(sys).now,
            r.serializer == self.serializer,
            r.id == old(sys).next_id,
    {
        let id = sys.mint_id();
        Node { id, serializer: self.serializer }
    }
}

/// The entry point for opening or creating a service on a name.
#[derive(Clone, Debug)]
pub struct ServiceBuilder {
    pub name: ServiceName,
    pub serializer: u64,
}

impl Node {
    /// Starts building a service under this name.
    pub fn service_builder(&self, name: &ServiceName) -> (r: ServiceBuilder)
        ensures
            r.name@ == name@,
            r.serializer == self.serializer,
    {
        ServiceBuilder { name: name.duplicate(), serializer: self.serializer }
    }
}

impl ServiceBuilder {
    /// Chooses the event messaging pattern.
    pub fn event(self) -> (r: crate::event_builder::Builder)
        ensures
            r.name@ == self.name@,
            r.serializer == self.serializer,
            r.config == crate::static_config::default_event_config(),
            !r.verify_max_notifiers,
            !r.verify_max_listeners,
            !r.verify_max_nodes,
            !r.verify_event_id_max_value,
    {
        crate::event_builder::Builder::new(self.name, self.serializer)
    }

    /// Chooses the publish/subscribe messaging pattern.
    pub fn publish_subscribe(self) -> (r: crate::pubsub_builder::Builder)
        ensures
            r.name@ == self.name@,
            r.serializer == self.serializer,
            r.config == crate::static_config::default_pubsub_config(),
            !r.verify_max_publishers,
            !r.verify_max_subscribers,
            !r.verify_max_nodes,
            !r.verify_history_size,
            !r.verify_subscriber_max_buffer_size,
            !r.verify_enable_safe_overflow,
    {
        crate::pubsub_builder::Builder::new(self.name, self.serializer)
    }
}

} // verus!
