//! The immutable contract of a service: its name, its messaging pattern
//! with the capacities fixed at creation, and its attribute set.

use crate::attributes::AttributeSet;
use crate::service_name::ServiceName;
use vstd::prelude::*;

verus! {

/// Default number of nodes that may share one service.
pub const DEFAULT_MAX_NODES: usize = 32;

/// Default number of notifier ports on an event service.
pub const DEFAULT_MAX_NOTIFIERS: usize = 16;

/// Default number of listener ports on an event service.
pub const DEFAULT_MAX_LISTENERS: usize = 16;

/// Default largest accepted event identifier.
pub const DEFAULT_EVENT_ID_MAX_VALUE: usize = 255;

/// Default number of publisher ports on a publish/subscribe service.
pub const DEFAULT_MAX_PUBLISHERS: usize = 2;

/// Default number of subscriber ports on a publish/subscribe service.
pub const DEFAULT_MAX_SUBSCRIBERS: usize = 8;

/// Default length of the history ring replayed to new subscribers.
pub const DEFAULT_HISTORY_SIZE: usize = 1;

/// Default depth of each per-connection receive buffer.
pub const DEFAULT_SUBSCRIBER_MAX_BUFFER_SIZE: usize = 2;

/// Capacities and policies of an event service, fixed at creation.
#[derive(Clone, Copy, Debug, PartialEq, Eq, Structural)]
pub struct EventConfig {
    pub max_notifiers: usize,
    pub max_listeners: usize,
    pub max_nodes: usize,
    pub event_id_max_value: usize,
}

/// The default capacities of a new event service.
pub open spec fn default_event_config() -> EventConfig {
    EventConfig {
        max_notifiers: DEFAULT_MAX_NOTIFIERS,
        max_listeners: DEFAULT_MAX_LISTENERS,
        max_nodes: DEFAULT_MAX_NODES,
        event_id_max_value: DEFAULT_EVENT_ID_MAX_VALUE,
    }
}

/// The default capacities and policies of a new publish/subscribe service.
pub open spec fn default_pubsub_config() -> PublishSubscribeConfig {
    PublishSubscribeConfig {
        max_publishers: DEFAULT_MAX_PUBLISHERS,
        max_subscribers: DEFAULT_MAX_SUBSCRIBERS,
        max_nodes: DEFAULT_MAX_NODES,
        history_size: DEFAULT_HISTORY_SIZE,
        subscriber_max_buffer_size: DEFAULT_SUBSCRIBER_MAX_BUFFER_SIZE,
        enable_safe_overflow: true,
    }
}

impl EventConfig {
    /// The default capacities of a new event service.
    pub fn new() -> (r: EventConfig)
        ensures
            r == default_event_config(),
            r == (EventConfig {
                max_notifiers: DEFAULT_MAX_NOTIFIERS,
                max_listeners: DEFAULT_MAX_LISTENERS,
                max_nodes: DEFAULT_MAX_NODES,
                event_id_max_value: DEFAULT_EVENT_ID_MAX_VALUE,
            }),
    {
        EventConfig {
            max_notifiers: DEFAULT_MAX_NOTIFIERS,
            max_listeners: DEFAULT_MAX_LISTENERS,
            max_nodes: DEFAULT_MAX_NODES,
            event_id_max_value: DEFAULT_EVENT_ID_MAX_VALUE,
        }
    }
}

/// Capacities and policies of a publish/subscribe service, fixed at
/// creation.
#[derive(Clone, Copy, Debug, PartialEq, Eq, Structural)]
pub struct PublishSubscribeConfig {
    pub max_publishers: usize,
    pub max_subscribers: usize,
    pub max_nodes: usize,
    pub history_size: usize,
    pub subscriber_max_buffer_size: usize,
    pub enable_safe_overflow: bool,
}

impl PublishSubscribeConfig {
    /// The default capacities of a new publish/subscribe service.
    pub fn new() -> (r: PublishSubscribeConfig)
        ensures
            r == (PublishSubscribeConfig {
                max_publishers: DEFAULT_MAX_PUBLISHERS,
                max_subscribers: DEFAULT_MAX_SUBSCRIBERS,
                max_nodes: DEFAULT_MAX_NODES,
                history_size: DEFAULT_HISTORY_SIZE,
                subscriber_max_buffer_size: DEFAULT_SUBSCRIBER_MAX_BUFFER_SIZE,
                enable_safe_overflow: true,
            }),
    {
        PublishSubscribeConfig {
            max_publishers: DEFAULT_MAX_PUBLISHERS,
            max_subscribers: DEFAULT_MAX_SUBSCRIBERS,
            max_nodes: DEFAULT_MAX_NODES,
            history_size: DEFAULT_HISTORY_SIZE,
            subscriber_max_buffer_size: DEFAULT_SUBSCRIBER_MAX_BUFFER_SIZE,
            enable_safe_overflow: true,
        }
    }
}

/// The tagged messaging pattern of a service.
#[derive(Clone, Copy, Debug, PartialEq, Eq, Structural)]
pub enum MessagingPattern {
    PublishSubscribe(PublishSubscribeConfig),
    Event(EventConfig),
}

/// A service's immutable contract: name, pattern and attributes.  Written
/// into the static descriptor once, at the unlock step of creation, and
/// read back by every opener.
#[derive(Clone, Debug)]
pub struct StaticConfig {
    pub service_name: ServiceName,
    pub messaging_pattern: MessagingPattern,
    pub attributes: AttributeSet,
}

/// Number of publisher slots the pattern calls for (zero on event services).
pub open spec fn publisher_capacity(p: MessagingPattern) -> int {
    match p {
        MessagingPattern::PublishSubscribe(c) => c.max_publishers as int,
        MessagingPattern::Event(_) => 0,
    }
}

/// Number of subscriber slots the pattern calls for.
pub open spec fn subscriber_capacity(p: MessagingPattern) -> int {
    match p {
        MessagingPattern::PublishSubscribe(c) => c.max_subscribers as int,
        MessagingPattern::Event(_) => 0,
    }
}

/// Number of notifier slots the pattern calls for (zero on pub/sub).
pub open spec fn notifier_capacity(p: MessagingPattern) -> int {
    match p {
        MessagingPattern::PublishSubscribe(_) => 0,
        MessagingPattern::Event(c) => c.max_notifiers as int,
    }
}

/// Number of listener slots the pattern calls for.
pub open spec fn listener_capacity(p: MessagingPattern) -> int {
    match p {
        MessagingPattern::PublishSubscribe(_) => 0,
        MessagingPattern::Event(c) => c.max_listeners as int,
    }
}

/// Number of nodes the pattern admits.
pub open spec fn node_capacity(p: MessagingPattern) -> int {
    match p {
        MessagingPattern::PublishSubscribe(c) => c.max_nodes as int,
        MessagingPattern::Event(c) => c.max_nodes as int,
    }
}

} // verus!
