//! A verified model of a zero-copy inter-process communication runtime
//! organised around named services.
//!
//! Processes obtain a [`node::Node`], configure a service builder with a
//! [`service_name::ServiceName`] and a messaging pattern, and call `open`,
//! `create` or `open_or_create`.  A successful call yields a port factory
//! from which publisher/subscriber or notifier/listener endpoints are built.
//! All shared state — the named static descriptors, the dynamic endpoint
//! tables, and the pool of payload slots — lives in an explicit
//! [`system::System`] value, so every step of the protocol is an ordinary
//! verified function from one system state to the next.

pub mod attributes;
pub mod bench;
pub mod event_builder;
pub mod event_id;
pub mod event_port;
pub mod header;
pub mod node;
pub mod port_identifiers;
pub mod pubsub_builder;
pub mod pubsub_port;
pub mod service_name;
pub mod static_config;
pub mod system;
