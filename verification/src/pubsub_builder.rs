//! Builder for publish/subscribe services: the open / create /
//! open-or-create protocol of the service lifecycle, instantiated for the
//! publish/subscribe messaging pattern.

use crate::attributes::{requirements_satisfied, AttributeSet, AttributeSpecifier, AttributeVerifier};
use crate::pubsub_port::PublishSubscribeFactory;
use crate::service_name::ServiceName;
use crate::static_config::{node_capacity, MessagingPattern, PublishSubscribeConfig, StaticConfig};
use crate::system::{
    OpenDynamicStorageFailure, ServiceEntry, ServiceState, StaticStorageCreateError, System,
};
use vstd::prelude::*;

verus! {

/// Failures that can occur when an existing publish/subscribe service
/// shall be opened.
#[derive(Clone, Copy, Debug, PartialEq, Eq, Structural, Hash)]
pub enum PublishSubscribeOpenError {
    /// The service does not exist.
    DoesNotExist,
    /// The process has not enough permissions to open the service.
    InsufficientPermissions,
    /// Underlying resources of the service are missing or inconsistent.
    ServiceInCorruptedState,
    /// The service has the wrong messaging pattern.
    IncompatibleMessagingPattern,
    /// The opener required attributes that the service does not satisfy.
    IncompatibleAttributes,
    /// An implementation issue or a wrongly configured system.
    InternalFailure,
    /// The service's creation timeout has passed and it is still not
    /// initialized; its creator presumably crashed.
    HangsInCreation,
    /// The service supports fewer publishers than requested.
    DoesNotSupportRequestedAmountOfPublishers,
    /// The service supports fewer subscribers than requested.
    DoesNotSupportRequestedAmountOfSubscribers,
    /// The service supports fewer nodes than requested.
    DoesNotSupportRequestedAmountOfNodes,
    /// The service's receive buffers are shallower than requested.
    DoesNotSupportRequestedMinBufferSize,
    /// The service's history ring is shorter than requested.
    DoesNotSupportRequestedMinHistorySize,
    /// The service's overflow policy differs from the requested one.
    IncompatibleOverflowBehavior,
    /// The maximum number of nodes already opened the service.
    ExceedsMaxNumberOfNodes,
    /// The service is marked for destruction and currently cleaning up.
    IsMarkedForDestruction,
}

/// Failures that can occur when a new publish/subscribe service shall be
/// created.
#[derive(Clone, Copy, Debug, PartialEq, Eq, Structural, Hash)]
pub enum PublishSubscribeCreateError {
    /// Underlying resources of the service are missing or inconsistent.
    ServiceInCorruptedState,
    /// An implementation issue or a wrongly configured system.
    InternalFailure,
    /// Multiple processes are creating the same service right now.
    IsBeingCreatedByAnotherInstance,
    /// The service already exists.
    AlreadyExists,
    /// The service's creation timeout has passed and it is still not
    /// initialized; its creator presumably crashed.
    HangsInCreation,
    /// The process has insufficient permissions to create the service.
    InsufficientPermissions,
    /// A previous incarnation was cleaned up while endpoints or samples of
    /// it were still alive.
    OldConnectionsStillActive,
}

/// Failures that can occur when a publish/subscribe service shall be
/// opened or created.
#[derive(Clone, Copy, Debug, PartialEq, Eq, Structural)]
pub enum PublishSubscribeOpenOrCreateError {
    /// Failures of the open half.
    PublishSubscribeOpenError(PublishSubscribeOpenError),
    /// Failures of the create half.
    PublishSubscribeCreateError(PublishSubscribeCreateError),
}

/// How a probe outcome surfaces when a publish/subscribe service is opened.
pub open spec fn pubsub_open_error_of_service_state(s: ServiceState) -> PublishSubscribeOpenError {
    match s {
        ServiceState::IncompatibleMessagingPattern => {
            PublishSubscribeOpenError::IncompatibleMessagingPattern
        },
        ServiceState::InsufficientPermissions => PublishSubscribeOpenError::InsufficientPermissions,
        ServiceState::HangsInCreation => PublishSubscribeOpenError::HangsInCreation,
        ServiceState::Corrupted => PublishSubscribeOpenError::ServiceInCorruptedState,
        ServiceState::InternalFailure => PublishSubscribeOpenError::InternalFailure,
    }
}

impl From<ServiceState> for PublishSubscribeOpenError {
    fn from(value: ServiceState) -> (r: PublishSubscribeOpenError) {
        match value {
            ServiceState::IncompatibleMessagingPattern => {
                PublishSubscribeOpenError::IncompatibleMessagingPattern
            },
            ServiceState::InsufficientPermissions => {
                PublishSubscribeOpenError::InsufficientPermissions
            },
            ServiceState::HangsInCreation => PublishSubscribeOpenError::HangsInCreation,
            ServiceState::Corrupted => PublishSubscribeOpenError::ServiceInCorruptedState,
            ServiceState::InternalFailure => PublishSubscribeOpenError::InternalFailure,
        }
    }
}

impl vstd::std_specs::convert::FromSpecImpl<ServiceState> for PublishSubscribeOpenError {
    open spec fn obeys_from_spec() -> bool {
        true
    }

    open spec fn from_spec(t: ServiceState) -> PublishSubscribeOpenError {
        pubsub_open_error_of_service_state(t)
    }
}

/// How a probe outcome surfaces when a publish/subscribe service is created.
pub open spec fn pubsub_create_error_of_service_state(
    s: ServiceState,
) -> PublishSubscribeCreateError {
    match s {
        ServiceState::IncompatibleMessagingPattern => PublishSubscribeCreateError::AlreadyExists,
        ServiceState::InsufficientPermissions => {
            PublishSubscribeCreateError::InsufficientPermissions
        },
        ServiceState::HangsInCreation => PublishSubscribeCreateError::HangsInCreation,
        ServiceState::Corrupted => PublishSubscribeCreateError::ServiceInCorruptedState,
        ServiceState::InternalFailure => PublishSubscribeCreateError::InternalFailure,
    }
}

impl From<ServiceState> for PublishSubscribeCreateError {
    fn from(value: ServiceState) -> (r: PublishSubscribeCreateError) {
        match value {
            ServiceState::IncompatibleMessagingPattern => {
                PublishSubscribeCreateError::AlreadyExists
            },
            ServiceState::InsufficientPermissions => {
                PublishSubscribeCreateError::InsufficientPermissions
            },
            ServiceState::HangsInCreation => PublishSubscribeCreateError::HangsInCreation,
            ServiceState::Corrupted => PublishSubscribeCreateError::ServiceInCorruptedState,
            ServiceState::InternalFailure => PublishSubscribeCreateError::InternalFailure,
        }
    }
}

impl vstd::std_specs::convert::FromSpecImpl<ServiceState> for PublishSubscribeCreateError {
    open spec fn obeys_from_spec() -> bool {
        true
    }

    open spec fn from_spec(t: ServiceState) -> PublishSubscribeCreateError {
        pubsub_create_error_of_service_state(t)
    }
}

impl From<PublishSubscribeOpenError> for PublishSubscribeOpenOrCreateError {
    fn from(value: PublishSubscribeOpenError) -> (r: PublishSubscribeOpenOrCreateError) {
        PublishSubscribeOpenOrCreateError::PublishSubscribeOpenError(value)
    }
}

impl vstd::std_specs::convert::FromSpecImpl<PublishSubscribeOpenError> for PublishSubscribeOpenOrCreateError {
    open spec fn obeys_from_spec() -> bool {
        true
    }

    open spec fn from_spec(t: PublishSubscribeOpenError) -> PublishSubscribeOpenOrCreateError {
        PublishSubscribeOpenOrCreateError::PublishSubscribeOpenError(t)
    }
}

impl From<PublishSubscribeCreateError> for PublishSubscribeOpenOrCreateError {
    fn from(value: PublishSubscribeCreateError) -> (r: PublishSubscribeOpenOrCreateError) {
        PublishSubscribeOpenOrCreateError::PublishSubscribeCreateError(value)
    }
}

impl vstd::std_specs::convert::FromSpecImpl<PublishSubscribeCreateError> for PublishSubscribeOpenOrCreateError {
    open spec fn obeys_from_spec() -> bool {
        true
    }

    open spec fn from_spec(t: PublishSubscribeCreateError) -> PublishSubscribeOpenOrCreateError {
        PublishSubscribeOpenOrCreateError::PublishSubscribeCreateError(t)
    }
}

impl From<ServiceState> for PublishSubscribeOpenOrCreateError {
    fn from(value: ServiceState) -> (r: PublishSubscribeOpenOrCreateError) {
        PublishSubscribeOpenOrCreateError::PublishSubscribeOpenError(
            PublishSubscribeOpenError::from(value),
        )
    }
}

impl vstd::std_specs::convert::FromSpecImpl<ServiceState> for PublishSubscribeOpenOrCreateError {
    open spec fn obeys_from_spec() -> bool {
        true
    }

    open spec fn from_spec(t: ServiceState) -> PublishSubscribeOpenOrCreateError {
        PublishSubscribeOpenOrCreateError::PublishSubscribeOpenError(
            pubsub_open_error_of_service_state(t),
        )
    }
}

/// Zero endpoint and node capacities are invalid configurations: they are
/// promoted to 1, the smallest supported value.
pub open spec fn normalized_pubsub_config(c: PublishSubscribeConfig) -> PublishSubscribeConfig {
    PublishSubscribeConfig {
        max_publishers: if c.max_publishers == 0 {
            1usize
        } else {
            c.max_publishers
        },
        max_subscribers: if c.max_subscribers == 0 {
            1usize
        } else {
            c.max_subscribers
        },
        max_nodes: if c.max_nodes == 0 {
            1usize
        } else {
            c.max_nodes
        },
        history_size: c.history_size,
        subscriber_max_buffer_size: c.subscriber_max_buffer_size,
        enable_safe_overflow: c.enable_safe_overflow,
    }
}

/// Builder to open or create a publish/subscribe service on a given name.
#[derive(Clone, Debug)]
pub struct Builder {
    pub name: ServiceName,
    pub serializer: u64,
    pub config: PublishSubscribeConfig,
    pub verify_max_publishers: bool,
    pub verify_max_subscribers: bool,
    pub verify_max_nodes: bool,
    pub verify_history_size: bool,
    pub verify_subscriber_max_buffer_size: bool,
    pub verify_enable_safe_overflow: bool,
}

impl Builder {
    /// A builder with the default publish/subscribe configuration and no
    /// capacity requirements.
    pub(crate) fn new(name: ServiceName, serializer: u64) -> (r: Builder)
        ensures
            r.name == name,
            r.serializer == serializer,
            r.config == crate::static_config::default_pubsub_config(),
            !r.verify_max_publishers,
            !r.verify_max_subscribers,
            !r.verify_max_nodes,
            !r.verify_history_size,
            !r.verify_subscriber_max_buffer_size,
            !r.verify_enable_safe_overflow,
    {
        Builder {
            name,
            serializer,
            config: PublishSubscribeConfig::new(),
            verify_max_publishers: false,
            verify_max_subscribers: false,
            verify_max_nodes: false,
            verify_history_size: false,
            verify_subscriber_max_buffer_size: false,
            verify_enable_safe_overflow: false,
        }
    }

    /// On create: how many publishers the service supports at most.  On
    /// open: how many must at least be supported.
    pub fn max_publishers(self, value: usize) -> (r: Builder)
        ensures
            r == (Builder {
                config: PublishSubscribeConfig { max_publishers: value, ..self.config },
                verify_max_publishers: true,
                ..self
            }),
    {
        Builder {
            config: PublishSubscribeConfig { max_publishers: value, ..self.config },
            verify_max_publishers: true,
            ..self
        }
    }

    /// On create: how many subscribers the service supports at most.  On
    /// open: how many must at least be supported.
    pub fn max_subscribers(self, value: usize) -> (r: Builder)
        ensures
            r == (Builder {
                config: PublishSubscribeConfig { max_subscribers: value, ..self.config },
                verify_max_subscribers: true,
                ..self
            }),
    {
        Builder {
            config: PublishSubscribeConfig { max_subscribers: value, ..self.config },
            verify_max_subscribers: true,
            ..self
        }
    }

    /// On create: how many nodes may open the service in parallel.  On
    /// open: how many must at least be supported.
    pub fn max_nodes(self, value: usize) -> (r: Builder)
        ensures
            r == (Builder {
                config: PublishSubscribeConfig { max_nodes: value, ..self.config },
                verify_max_nodes: true,
                ..self
            }),
    {
        Builder {
            config: PublishSubscribeConfig { max_nodes: value, ..self.config },
            verify_max_nodes: true,
            ..self
        }
    }

    /// On create: the length of the history ring replayed to new
    /// subscribers.  On open: the history length that must at least be
    /// supported.
    pub fn history_size(self, value: usize) -> (r: Builder)
        ensures
            r == (Builder {
                config: PublishSubscribeConfig { history_size: value, ..self.config },
                verify_history_size: true,
                ..self
            }),
    {
        Builder {
            config: PublishSubscribeConfig { history_size: value, ..self.config },
            verify_history_size: true,
            ..self
        }
    }

    /// On create: the depth of each per-connection receive buffer.  On
    /// open: the depth that must at least be supported.
    pub fn subscriber_max_buffer_size(self, value: usize) -> (r: Builder)
        ensures
            r == (Builder {
                config: PublishSubscribeConfig { subscriber_max_buffer_size: value, ..self.config },
                verify_subscriber_max_buffer_size: true,
                ..self
            }),
    {
        Builder {
            config: PublishSubscribeConfig { subscriber_max_buffer_size: value, ..self.config },
            verify_subscriber_max_buffer_size: true,
            ..self
        }
    }

    /// On create: whether a full receive buffer drops its oldest sample in
    /// favour of a new one.  On open: the policy the service must have.
    pub fn enable_safe_overflow(self, value: bool) -> (r: Builder)
        ensures
            r == (Builder {
                config: PublishSubscribeConfig { enable_safe_overflow: value, ..self.config },
                verify_enable_safe_overflow: true,
                ..self
            }),
    {
        Builder {
            config: PublishSubscribeConfig { enable_safe_overflow: value, ..self.config },
            verify_enable_safe_overflow: true,
            ..self
        }
    }

    /// Promotes zero capacities to 1: they are invalid configurations, not
    /// acceptable ones.
    pub fn adjust_attributes_to_meaningful_values(&mut self)
        ensures
            *final(self) == (Builder {
                config: normalized_pubsub_config(old(self).config),
                ..*old(self)
            }),
    {
        if self.config.max_publishers == 0 {
            self.config.max_publishers = 1;
        }
        if self.config.max_subscribers == 0 {
            self.config.max_subscribers = 1;
        }
        if self.config.max_nodes == 0 {
            self.config.max_nodes = 1;
        }
    }

    /// The compatibility gate of the open protocol for publish/subscribe
    /// services.
    pub open spec fn verify_outcome(self, existing: StaticConfig, attrs_ok: bool) -> Result<
        PublishSubscribeConfig,
        PublishSubscribeOpenError,
    > {
        if !attrs_ok {
            Err(PublishSubscribeOpenError::IncompatibleAttributes)
        } else {
            match existing.messaging_pattern {
                MessagingPattern::Event(_) => Err(
                    PublishSubscribeOpenError::IncompatibleMessagingPattern,
                ),
                MessagingPattern::PublishSubscribe(c) => {
                    if self.verify_max_publishers && c.max_publishers < self.config.max_publishers {
                        Err(PublishSubscribeOpenError::DoesNotSupportRequestedAmountOfPublishers)
                    } else if self.verify_max_subscribers && c.max_subscribers
                        < self.config.max_subscribers {
                        Err(PublishSubscribeOpenError::DoesNotSupportRequestedAmountOfSubscribers)
                    } else if self.verify_subscriber_max_buffer_size && c.subscriber_max_buffer_size
                        < self.config.subscriber_max_buffer_size {
                        Err(PublishSubscribeOpenError::DoesNotSupportRequestedMinBufferSize)
                    } else if self.verify_history_size && c.history_size < self.config.history_size {
                        Err(PublishSubscribeOpenError::DoesNotSupportRequestedMinHistorySize)
                    } else if self.verify_enable_safe_overflow && c.enable_safe_overflow
                        != self.config.enable_safe_overflow {
                        Err(PublishSubscribeOpenError::IncompatibleOverflowBehavior)
                    } else if self.verify_max_nodes && c.max_nodes < self.config.max_nodes {
                        Err(PublishSubscribeOpenError::DoesNotSupportRequestedAmountOfNodes)
                    } else {
                        Ok(c)
                    }
                },
            }
        }
    }

    /// Checks an existing service's static configuration against the
    /// opener's requirements.
    pub fn verify_service_attributes(
        &self,
        existing_settings: &StaticConfig,
        required_attributes: &AttributeVerifier,
    ) -> (r: Result<PublishSubscribeConfig, PublishSubscribeOpenError>)
        ensures
            r == self.verify_outcome(
                *existing_settings,
                requirements_satisfied(*required_attributes, existing_settings.attributes.attrs@),
            ),
    {
        if required_attributes.verify_requirements(&existing_settings.attributes).is_err() {
            return Err(PublishSubscribeOpenError::IncompatibleAttributes);
        }
        let existing = match existing_settings.messaging_pattern {
            MessagingPattern::PublishSubscribe(c) => c,
            MessagingPattern::Event(_) => {
                return Err(PublishSubscribeOpenError::IncompatibleMessagingPattern);
            },
        };
        if self.verify_max_publishers && existing.max_publishers < self.config.max_publishers {
            return Err(PublishSubscribeOpenError::DoesNotSupportRequestedAmountOfPublishers);
        }
        if self.verify_max_subscribers && existing.max_subscribers < self.config.max_subscribers {
            return Err(PublishSubscribeOpenError::DoesNotSupportRequestedAmountOfSubscribers);
        }
        if self.verify_subscriber_max_buffer_size && existing.subscriber_max_buffer_size
            < self.config.subscriber_max_buffer_size {
            return Err(PublishSubscribeOpenError::DoesNotSupportRequestedMinBufferSize);
        }
        if self.verify_history_size && existing.history_size < self.config.history_size {
            return Err(PublishSubscribeOpenError::DoesNotSupportRequestedMinHistorySize);
        }
        if self.verify_enable_safe_overflow && existing.enable_safe_overflow
            != self.config.enable_safe_overflow {
            return Err(PublishSubscribeOpenError::IncompatibleOverflowBehavior);
        }
        if self.verify_max_nodes && existing.max_nodes < self.config.max_nodes {
            return Err(PublishSubscribeOpenError::DoesNotSupportRequestedAmountOfNodes);
        }
        Ok(existing)
    }

    /// Opens an existing service; the opener states no attribute
    /// requirements.
    pub fn open(self, sys: &mut System) -> (r: Result<
        PublishSubscribeFactory,
        PublishSubscribeOpenError,
    >)
        requires
            old(sys).wf(),
        ensures
            final(sys).wf(),
            pubsub_open_contract(self, *old(sys), *final(sys), true, r),
    {
        let v = AttributeVerifier::new();
        let r = self.open_with_attributes(sys, &v);
        proof {
            let pre = *old(sys);
            if pre.probe_ready(self.name@, self.serializer) {
                let e = pre.services@[pre.entry_index(self.name@)];
                crate::attributes::lemma_empty_requirements_always_satisfied(
                    v,
                    e.config.attributes.attrs@,
                );
            }
        }
        r
    }

    /// Opens an existing service with attribute requirements.
    pub fn open_with_attributes(
        self,
        sys: &mut System,
        required_attributes: &AttributeVerifier,
    ) -> (r: Result<PublishSubscribeFactory, PublishSubscribeOpenError>)
        requires
            old(sys).wf(),
        ensures
            final(sys).wf(),
            pubsub_open_contract(
                self,
                *old(sys),
                *final(sys),
                requirements_satisfied(
                    *required_attributes,
                    old(sys).services@[old(sys).entry_index(
                        self.name@,
                    )].config.attributes.attrs@,
                ),
                r,
            ),
    {
        match sys.is_service_available(&self.name, self.serializer) {
            Err(st) => Err(PublishSubscribeOpenError::from(st)),
            Ok(None) => Err(PublishSubscribeOpenError::DoesNotExist),
            Ok(Some(idx)) => {
                let outcome = self.verify_service_attributes(
                    &sys.services[idx].config,
                    required_attributes,
                );
                match outcome {
                    Err(e) => Err(e),
                    Ok(_existing) => {
                        match sys.join_dynamic_descriptor(idx) {
                            Err(OpenDynamicStorageFailure::IsMarkedForDestruction) => Err(
                                PublishSubscribeOpenError::IsMarkedForDestruction,
                            ),
                            Err(OpenDynamicStorageFailure::ExceedsMaxNumberOfNodes) => Err(
                                PublishSubscribeOpenError::ExceedsMaxNumberOfNodes,
                            ),
                            Ok(_) => {
                                let service_id = sys.services[idx].service_id;
                                Ok(PublishSubscribeFactory { service_index: idx, service_id })
                            },
                        }
                    },
                }
            },
        }
    }

    /// Creates a new service with empty attributes.
    pub fn create(self, sys: &mut System) -> (r: Result<
        PublishSubscribeFactory,
        PublishSubscribeCreateError,
    >)
        requires
            old(sys).wf(),
        ensures
            final(sys).wf(),
            pubsub_create_contract(self, *old(sys), *final(sys), Seq::empty(), r),
    {
        let mut this = self;
        let attributes = AttributeSpecifier::new();
        proof {
            assert(attributes.attributes.attrs@ =~= Seq::<crate::attributes::Attribute>::empty());
        }
        this.create_impl(sys, &attributes)
    }

    /// Creates a new service carrying the given attribute set.
    pub fn create_with_attributes(
        self,
        sys: &mut System,
        attributes: &AttributeSpecifier,
    ) -> (r: Result<PublishSubscribeFactory, PublishSubscribeCreateError>)
        requires
            old(sys).wf(),
        ensures
            final(sys).wf(),
            pubsub_create_contract(self, *old(sys), *final(sys), attributes.attributes.attrs@, r),
    {
        let mut this = self;
        this.create_impl(sys, attributes)
    }

    /// The create protocol: normalize the capacities, probe the name, claim
    /// the static descriptor locked, allocate the dynamic descriptor, and
    /// publish the descriptor as the last step.
    pub fn create_impl(&mut self, sys: &mut System, attributes: &AttributeSpecifier) -> (r: Result<
        PublishSubscribeFactory,
        PublishSubscribeCreateError,
    >)
        requires
            old(sys).wf(),
        ensures
            final(sys).wf(),
            *final(self) == (Builder {
                config: normalized_pubsub_config(old(self).config),
                ..*old(self)
            }),
            pubsub_create_contract(
                *old(self),
                *old(sys),
                *final(sys),
                attributes.attributes.attrs@,
                r,
            ),
    {
        self.adjust_attributes_to_meaningful_values();
        match sys.is_service_available(&self.name, self.serializer) {
            Err(st) => Err(PublishSubscribeCreateError::from(st)),
            Ok(Some(_)) => Err(PublishSubscribeCreateError::AlreadyExists),
            Ok(None) => {
                let config = StaticConfig {
                    service_name: self.name.duplicate(),
                    messaging_pattern: MessagingPattern::PublishSubscribe(self.config),
                    attributes: AttributeSet::new(),
                };
                match sys.claim_static_descriptor(config, self.serializer) {
                    Err(StaticStorageCreateError::AlreadyExists) => Err(
                        PublishSubscribeCreateError::AlreadyExists,
                    ),
                    Err(StaticStorageCreateError::Creation) => Err(
                        PublishSubscribeCreateError::IsBeingCreatedByAnotherInstance,
                    ),
                    Err(StaticStorageCreateError::InsufficientPermissions) => Err(
                        PublishSubscribeCreateError::InsufficientPermissions,
                    ),
                    Ok(idx) => {
                        sys.create_dynamic_descriptor(idx);
                        sys.publish_static_descriptor(idx, attributes.attributes.duplicate());
                        let service_id = sys.services[idx].service_id;
                        proof {
                            assert(sys.services@.subrange(0, old(sys).services@.len() as int)
                                =~= old(sys).services@);
                        }
                        Ok(PublishSubscribeFactory { service_index: idx, service_id })
                    },
                }
            },
        }
    }

    /// Opens the service when its descriptor is visible, creates it
    /// otherwise; a benign creation race is reported for the caller to
    /// retry.
    pub fn open_or_create(self, sys: &mut System) -> (r: Result<
        PublishSubscribeFactory,
        PublishSubscribeOpenOrCreateError,
    >)
        requires
            old(sys).wf(),
        ensures
            final(sys).wf(),
            pubsub_open_or_create_contract(self, *old(sys), *final(sys), true, Seq::empty(), r),
    {
        let v = AttributeVerifier::new();
        proof {
            assert(v.required.attrs@ =~= Seq::<crate::attributes::Attribute>::empty());
        }
        let r = self.open_or_create_with_attributes(sys, &v);
        proof {
            let pre = *old(sys);
            if pre.probe_ready(self.name@, self.serializer) {
                let e = pre.services@[pre.entry_index(self.name@)];
                crate::attributes::lemma_empty_requirements_always_satisfied(
                    v,
                    e.config.attributes.attrs@,
                );
            }
        }
        r
    }

    /// Opens the service when its descriptor is visible, creates it with
    /// the required attributes as its attribute set otherwise.
    pub fn open_or_create_with_attributes(
        self,
        sys: &mut System,
        required_attributes: &AttributeVerifier,
    ) -> (r: Result<PublishSubscribeFactory, PublishSubscribeOpenOrCreateError>)
        requires
            old(sys).wf(),
        ensures
            final(sys).wf(),
            pubsub_open_or_create_contract(
                self,
                *old(sys),
                *final(sys),
                requirements_satisfied(
                    *required_attributes,
                    old(sys).services@[old(sys).entry_index(
                        self.name@,
                    )].config.attributes.attrs@,
                ),
                required_attributes.required.attrs@,
                r,
            ),
    {
        match sys.is_service_available(&self.name, self.serializer) {
            Err(st) => Err(PublishSubscribeOpenOrCreateError::from(st)),
            Ok(Some(_)) => {
                match self.open_with_attributes(sys, required_attributes) {
                    Ok(factory) => Ok(factory),
                    Err(e) => Err(PublishSubscribeOpenOrCreateError::from(e)),
                }
            },
            Ok(None) => {
                let attributes = AttributeSpecifier {
                    attributes: required_attributes.attributes().duplicate(),
                };
                let mut this = self;
                match this.create_impl(sys, &attributes) {
                    Ok(factory) => Ok(factory),
                    Err(PublishSubscribeCreateError::AlreadyExists) => Err(
                        PublishSubscribeOpenOrCreateError::PublishSubscribeCreateError(
                            PublishSubscribeCreateError::IsBeingCreatedByAnotherInstance,
                        ),
                    ),
                    Err(e) => Err(PublishSubscribeOpenOrCreateError::from(e)),
                }
            },
        }
    }
}

/// What opening yields, over the probe state and the compatibility gate.
pub open spec fn pubsub_open_error_of(b: Builder, sys: System, attrs_ok: bool) -> Option<
    PublishSubscribeOpenError,
> {
    if sys.probe_hung(b.name@) {
        Some(PublishSubscribeOpenError::HangsInCreation)
    } else if sys.probe_corrupted(b.name@, b.serializer) {
        Some(PublishSubscribeOpenError::ServiceInCorruptedState)
    } else if !sys.probe_ready(b.name@, b.serializer) {
        Some(PublishSubscribeOpenError::DoesNotExist)
    } else {
        let e = sys.services@[sys.entry_index(b.name@)];
        match b.verify_outcome(e.config, attrs_ok) {
            Err(err) => Some(err),
            Ok(_) => {
                if e.marked_for_destruction {
                    Some(PublishSubscribeOpenError::IsMarkedForDestruction)
                } else if e.nodes >= node_capacity(e.config.messaging_pattern) {
                    Some(PublishSubscribeOpenError::ExceedsMaxNumberOfNodes)
                } else {
                    None
                }
            },
        }
    }
}

/// The system change of a successful open.
pub open spec fn pubsub_open_success(
    b: Builder,
    pre: System,
    post: System,
    f: PublishSubscribeFactory,
) -> bool {
    let idx = pre.entry_index(b.name@);
    let e = pre.services@[idx];
    &&& post.samples@ == pre.samples@
    &&& post.now == pre.now
    &&& post.next_id == pre.next_id
    &&& post.creation_timeout == pre.creation_timeout
    &&& post.services@.len() == pre.services@.len()
    &&& forall|j: int|
        0 <= j < pre.services@.len() && j != idx ==> post.services@[j] == pre.services@[j]
    &&& post.services@[idx] == (ServiceEntry {
        refs: crate::system::saturating_inc(e.refs),
        nodes: (e.nodes + 1) as usize,
        ..e
    })
    &&& f.service_index == idx
    &&& f.service_id == e.service_id
    &&& crate::pubsub_port::pubsub_factory_valid(f, post)
}

/// The full contract of opening a publish/subscribe service.
pub open spec fn pubsub_open_contract(
    b: Builder,
    pre: System,
    post: System,
    attrs_ok: bool,
    r: Result<PublishSubscribeFactory, PublishSubscribeOpenError>,
) -> bool {
    match pubsub_open_error_of(b, pre, attrs_ok) {
        Some(e) => r == Err::<PublishSubscribeFactory, PublishSubscribeOpenError>(e) && post == pre,
        None => r matches Ok(f) && pubsub_open_success(b, pre, post, f),
    }
}

/// What creating yields, over the probe state.
pub open spec fn pubsub_create_error_of(sys: System, name: Seq<char>, serializer: u64) -> Option<
    PublishSubscribeCreateError,
> {
    if sys.probe_hung(name) {
        Some(PublishSubscribeCreateError::HangsInCreation)
    } else if sys.probe_corrupted(name, serializer) {
        Some(PublishSubscribeCreateError::ServiceInCorruptedState)
    } else if sys.probe_ready(name, serializer) {
        Some(PublishSubscribeCreateError::AlreadyExists)
    } else if sys.has_entry(name) {
        Some(PublishSubscribeCreateError::IsBeingCreatedByAnotherInstance)
    } else {
        None
    }
}

/// The system change of a successful create.
pub open spec fn pubsub_create_success(
    b: Builder,
    pre: System,
    post: System,
    attrs: Seq<crate::attributes::Attribute>,
    f: PublishSubscribeFactory,
) -> bool {
    let ne = post.services@[pre.services@.len() as int];
    &&& post.samples@ == pre.samples@
    &&& post.now == pre.now
    &&& post.services@.len() == pre.services@.len() + 1
    &&& post.services@.subrange(0, pre.services@.len() as int) == pre.services@
    &&& ne.present
    &&& ne.published
    &&& ne.dynamic
    &&& !ne.marked_for_destruction
    &&& ne.config.service_name@ == b.name@
    &&& ne.config.messaging_pattern == MessagingPattern::PublishSubscribe(
        normalized_pubsub_config(b.config),
    )
    &&& ne.config.attributes.attrs@ == attrs
    &&& ne.refs == 1
    &&& ne.nodes == 1
    &&& ne.serializer == b.serializer
    &&& ne.service_id == pre.next_id
    &&& ne.created_at == pre.now
    &&& post.creation_timeout == pre.creation_timeout
    &&& f.service_index == pre.services@.len()
    &&& f.service_id == ne.service_id
    &&& crate::pubsub_port::pubsub_factory_valid(f, post)
}

/// The full contract of creating a publish/subscribe service.
pub open spec fn pubsub_create_contract(
    b: Builder,
    pre: System,
    post: System,
    attrs: Seq<crate::attributes::Attribute>,
    r: Result<PublishSubscribeFactory, PublishSubscribeCreateError>,
) -> bool {
    match pubsub_create_error_of(pre, b.name@, b.serializer) {
        Some(e) => r == Err::<PublishSubscribeFactory, PublishSubscribeCreateError>(e) && post
            == pre,
        None => r matches Ok(f) && pubsub_create_success(b, pre, post, attrs, f),
    }
}

/// The full contract of open-or-create.
pub open spec fn pubsub_open_or_create_contract(
    b: Builder,
    pre: System,
    post: System,
    attrs_ok: bool,
    attrs: Seq<crate::attributes::Attribute>,
    r: Result<PublishSubscribeFactory, PublishSubscribeOpenOrCreateError>,
) -> bool {
    if pre.probe_ready(b.name@, b.serializer) {
        match pubsub_open_error_of(b, pre, attrs_ok) {
            Some(e) => r == Err::<PublishSubscribeFactory, PublishSubscribeOpenOrCreateError>(
                PublishSubscribeOpenOrCreateError::PublishSubscribeOpenError(e),
            ) && post == pre,
            None => r matches Ok(f) && pubsub_open_success(b, pre, post, f),
        }
    } else if pre.probe_hung(b.name@) {
        r == Err::<PublishSubscribeFactory, PublishSubscribeOpenOrCreateError>(
            PublishSubscribeOpenOrCreateError::PublishSubscribeOpenError(
                PublishSubscribeOpenError::HangsInCreation,
            ),
        ) && post == pre
    } else if pre.probe_corrupted(b.name@, b.serializer) {
        r == Err::<PublishSubscribeFactory, PublishSubscribeOpenOrCreateError>(
            PublishSubscribeOpenOrCreateError::PublishSubscribeOpenError(
                PublishSubscribeOpenError::ServiceInCorruptedState,
            ),
        ) && post == pre
    } else if pre.has_entry(b.name@) {
        r == Err::<PublishSubscribeFactory, PublishSubscribeOpenOrCreateError>(
            PublishSubscribeOpenOrCreateError::PublishSubscribeCreateError(
                PublishSubscribeCreateError::IsBeingCreatedByAnotherInstance,
            ),
        ) && post == pre
    } else {
        r matches Ok(f) && pubsub_create_success(b, pre, post, attrs, f)
    }
}

} // verus!
