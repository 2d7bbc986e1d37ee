//! Builder for event services: the open / create / open-or-create protocol
//! of the service lifecycle, instantiated for the event messaging pattern.

use crate::attributes::{requirements_satisfied, AttributeSet, AttributeSpecifier, AttributeVerifier};
use crate::event_port::EventPortFactory;
use crate::service_name::ServiceName;
use crate::static_config::{node_capacity, EventConfig, MessagingPattern, StaticConfig};
use crate::system::{
    is_present_with_name, OpenDynamicStorageFailure, ServiceEntry, ServiceState,
    StaticStorageCreateError, System,
};
use vstd::prelude::*;

verus! {

/// Failures that can occur when an existing event service shall be opened.
#[derive(Clone, Copy, Debug, PartialEq, Eq, Structural, Hash)]
pub enum EventOpenError {
    /// The service does not exist.
    DoesNotExist,
    /// The process has not enough permissions to open the service.
    InsufficientPermissions,
    /// Underlying resources of the service are missing or inconsistent: the
    /// service is in a corrupted state.
    ServiceInCorruptedState,
    /// The service has the wrong messaging pattern.
    IncompatibleMessagingPattern,
    /// The opener required attributes that the service does not satisfy.
    IncompatibleAttributes,
    /// An implementation issue or a wrongly configured system.
    InternalFailure,
    /// The service's creation timeout has passed and it is still not
    /// initialized; its creator presumably crashed.
    HangsInCreation,
    /// The service supports fewer notifiers than requested.
    DoesNotSupportRequestedAmountOfNotifiers,
    /// The service supports fewer listeners than requested.
    DoesNotSupportRequestedAmountOfListeners,
    /// The service's largest supported event id is smaller than requested.
    DoesNotSupportRequestedMaxEventId,
    /// The service supports fewer nodes than requested.
    DoesNotSupportRequestedAmountOfNodes,
    /// The maximum number of nodes already opened the service.
    ExceedsMaxNumberOfNodes,
    /// The service is marked for destruction and currently cleaning up.
    IsMarkedForDestruction,
}

/// Failures that can occur when a new event service shall be created.
#[derive(Clone, Copy, Debug, PartialEq, Eq, Structural, Hash)]
pub enum EventCreateError {
    /// Underlying resources of the service are missing or inconsistent.
    ServiceInCorruptedState,
    /// An implementation issue or a wrongly configured system.
    InternalFailure,
    /// Multiple processes are creating the same service right now.
    IsBeingCreatedByAnotherInstance,
    /// The service already exists.
    AlreadyExists,
    /// The service's creation timeout has passed and it is still not
    /// initialized; its creator presumably crashed.
    HangsInCreation,
    /// The process has insufficient permissions to create the service.
    InsufficientPermissions,
    /// A previous incarnation was cleaned up while endpoints or samples of
    /// it were still alive.
    OldConnectionsStillActive,
}

/// Failures that can occur when an event service shall be opened or created.
#[derive(Clone, Copy, Debug, PartialEq, Eq, Structural)]
pub enum EventOpenOrCreateError {
    /// Failures of the open half.
    EventOpenError(EventOpenError),
    /// Failures of the create half.
    EventCreateError(EventCreateError),
}

/// How a probe outcome surfaces when an event service is opened.
pub open spec fn open_error_of_service_state(s: ServiceState) -> EventOpenError {
    match s {
        ServiceState::IncompatibleMessagingPattern => EventOpenError::IncompatibleMessagingPattern,
        ServiceState::InsufficientPermissions => EventOpenError::InsufficientPermissions,
        ServiceState::HangsInCreation => EventOpenError::HangsInCreation,
        ServiceState::Corrupted => EventOpenError::ServiceInCorruptedState,
        ServiceState::InternalFailure => EventOpenError::InternalFailure,
    }
}

impl From<ServiceState> for EventOpenError {
    fn from(value: ServiceState) -> (r: EventOpenError) {
        match value {
            ServiceState::IncompatibleMessagingPattern => {
                EventOpenError::IncompatibleMessagingPattern
            },
            ServiceState::InsufficientPermissions => EventOpenError::InsufficientPermissions,
            ServiceState::HangsInCreation => EventOpenError::HangsInCreation,
            ServiceState::Corrupted => EventOpenError::ServiceInCorruptedState,
            ServiceState::InternalFailure => EventOpenError::InternalFailure,
        }
    }
}

impl vstd::std_specs::convert::FromSpecImpl<ServiceState> for EventOpenError {
    open spec fn obeys_from_spec() -> bool {
        true
    }

    open spec fn from_spec(t: ServiceState) -> EventOpenError {
        open_error_of_service_state(t)
    }
}

/// How a probe outcome surfaces when an event service is created.
pub open spec fn create_error_of_service_state(s: ServiceState) -> EventCreateError {
    match s {
        ServiceState::IncompatibleMessagingPattern => EventCreateError::AlreadyExists,
        ServiceState::InsufficientPermissions => EventCreateError::InsufficientPermissions,
        ServiceState::HangsInCreation => EventCreateError::HangsInCreation,
        ServiceState::Corrupted => EventCreateError::ServiceInCorruptedState,
        ServiceState::InternalFailure => EventCreateError::InternalFailure,
    }
}

impl From<ServiceState> for EventCreateError {
    fn from(value: ServiceState) -> (r: EventCreateError) {
        match value {
            ServiceState::IncompatibleMessagingPattern => EventCreateError::AlreadyExists,
            ServiceState::InsufficientPermissions => EventCreateError::InsufficientPermissions,
            ServiceState::HangsInCreation => EventCreateError::HangsInCreation,
            ServiceState::Corrupted => EventCreateError::ServiceInCorruptedState,
            ServiceState::InternalFailure => EventCreateError::InternalFailure,
        }
    }
}

impl vstd::std_specs::convert::FromSpecImpl<ServiceState> for EventCreateError {
    open spec fn obeys_from_spec() -> bool {
        true
    }

    open spec fn from_spec(t: ServiceState) -> EventCreateError {
        create_error_of_service_state(t)
    }
}

impl From<EventOpenError> for EventOpenOrCreateError {
    fn from(value: EventOpenError) -> (r: EventOpenOrCreateError) {
        EventOpenOrCreateError::EventOpenError(value)
    }
}

impl vstd::std_specs::convert::FromSpecImpl<EventOpenError> for EventOpenOrCreateError {
    open spec fn obeys_from_spec() -> bool {
        true
    }

    open spec fn from_spec(t: EventOpenError) -> EventOpenOrCreateError {
        EventOpenOrCreateError::EventOpenError(t)
    }
}

impl From<EventCreateError> for EventOpenOrCreateError {
    fn from(value: EventCreateError) -> (r: EventOpenOrCreateError) {
        EventOpenOrCreateError::EventCreateError(value)
    }
}

impl vstd::std_specs::convert::FromSpecImpl<EventCreateError> for EventOpenOrCreateError {
    open spec fn obeys_from_spec() -> bool {
        true
    }

    open spec fn from_spec(t: EventCreateError) -> EventOpenOrCreateError {
        EventOpenOrCreateError::EventCreateError(t)
    }
}

impl From<ServiceState> for EventOpenOrCreateError {
    fn from(value: ServiceState) -> (r: EventOpenOrCreateError) {
        EventOpenOrCreateError::EventOpenError(EventOpenError::from(value))
    }
}

impl vstd::std_specs::convert::FromSpecImpl<ServiceState> for EventOpenOrCreateError {
    open spec fn obeys_from_spec() -> bool {
        true
    }

    open spec fn from_spec(t: ServiceState) -> EventOpenOrCreateError {
        EventOpenOrCreateError::EventOpenError(open_error_of_service_state(t))
    }
}

/// Zero capacities are invalid configurations: they are promoted to 1, the
/// smallest supported value.
pub open spec fn normalized_event_config(c: EventConfig) -> EventConfig {
    EventConfig {
        max_notifiers: if c.max_notifiers == 0 {
            1usize
        } else {
            c.max_notifiers
        },
        max_listeners: if c.max_listeners == 0 {
            1usize
        } else {
            c.max_listeners
        },
        max_nodes: if c.max_nodes == 0 {
            1usize
        } else {
            c.max_nodes
        },
        event_id_max_value: c.event_id_max_value,
    }
}

/// Builder to open or create an event service on a given name.
#[derive(Clone, Debug)]
pub struct Builder {
    pub name: ServiceName,
    pub serializer: u64,
    pub config: EventConfig,
    pub verify_max_notifiers: bool,
    pub verify_max_listeners: bool,
    pub verify_max_nodes: bool,
    pub verify_event_id_max_value: bool,
}

impl Builder {
    /// A builder with the default event configuration and no capacity
    /// requirements.
    pub(crate) fn new(name: ServiceName, serializer: u64) -> (r: Builder)
        ensures
            r.name == name,
            r.serializer == serializer,
            r.config == crate::static_config::default_event_config(),
            !r.verify_max_notifiers,
            !r.verify_max_listeners,
            !r.verify_max_nodes,
            !r.verify_event_id_max_value,
    {
        Builder {
            name,
            serializer,
            config: EventConfig::new(),
            verify_max_notifiers: false,
            verify_max_listeners: false,
            verify_max_nodes: false,
            verify_event_id_max_value: false,
        }
    }

    /// On create: how many nodes may open the service in parallel.  On
    /// open: how many nodes must at least be supported.
    pub fn max_nodes(self, value: usize) -> (r: Builder)
        ensures
            r == (Builder {
                config: EventConfig { max_nodes: value, ..self.config },
                verify_max_nodes: true,
                ..self
            }),
    {
        Builder {
            config: EventConfig { max_nodes: value, ..self.config },
            verify_max_nodes: true,
            ..self
        }
    }

    /// On create: the largest event id the service accepts.  On open: the
    /// largest event id that must at least be supported.
    pub fn event_id_max_value(self, value: usize) -> (r: Builder)
        ensures
            r == (Builder {
                config: EventConfig { event_id_max_value: value, ..self.config },
                verify_event_id_max_value: true,
                ..self
            }),
    {
        Builder {
            config: EventConfig { event_id_max_value: value, ..self.config },
            verify_event_id_max_value: true,
            ..self
        }
    }

    /// On create: how many notifiers the service supports at most.  On
    /// open: how many must at least be supported.
    pub fn max_notifiers(self, value: usize) -> (r: Builder)
        ensures
            r == (Builder {
                config: EventConfig { max_notifiers: value, ..self.config },
                verify_max_notifiers: true,
                ..self
            }),
    {
        Builder {
            config: EventConfig { max_notifiers: value, ..self.config },
            verify_max_notifiers: true,
            ..self
        }
    }

    /// On create: how many listeners the service supports at most.  On
    /// open: how many must at least be supported.
    pub fn max_listeners(self, value: usize) -> (r: Builder)
        ensures
            r == (Builder {
                config: EventConfig { max_listeners: value, ..self.config },
                verify_max_listeners: true,
                ..self
            }),
    {
        Builder {
            config: EventConfig { max_listeners: value, ..self.config },
            verify_max_listeners: true,
            ..self
        }
    }

    /// Promotes zero capacities to 1: they are invalid configurations, not
    /// acceptable ones.
    pub fn adjust_attributes_to_meaningful_values(&mut self)
        ensures
            *final(self) == (Builder {
                config: normalized_event_config(old(self).config),
                ..*old(self)
            }),
    {
        if self.config.max_notifiers == 0 {
            self.config.max_notifiers = 1;
        }
        if self.config.max_listeners == 0 {
            self.config.max_listeners = 1;
        }
        if self.config.max_nodes == 0 {
            self.config.max_nodes = 1;
        }
    }

    /// The compatibility gate of the open protocol: every requirement the
    /// opener states must be satisfied by the existing attributes
    /// (`attrs_ok`), the pattern must be an event pattern, and every
    /// explicitly requested minimum capacity must not exceed what the
    /// service declares.
    pub open spec fn verify_outcome(self, existing: StaticConfig, attrs_ok: bool) -> Result<
        EventConfig,
        EventOpenError,
    > {
        if !attrs_ok {
            Err(EventOpenError::IncompatibleAttributes)
        } else {
            match existing.messaging_pattern {
                MessagingPattern::PublishSubscribe(_) => Err(
                    EventOpenError::IncompatibleMessagingPattern,
                ),
                MessagingPattern::Event(c) => {
                    if self.verify_max_notifiers && c.max_notifiers < self.config.max_notifiers {
                        Err(EventOpenError::DoesNotSupportRequestedAmountOfNotifiers)
                    } else if self.verify_max_listeners && c.max_listeners
                        < self.config.max_listeners {
                        Err(EventOpenError::DoesNotSupportRequestedAmountOfListeners)
                    } else if self.verify_event_id_max_value && c.event_id_max_value
                        < self.config.event_id_max_value {
                        Err(EventOpenError::DoesNotSupportRequestedMaxEventId)
                    } else if self.verify_max_nodes && c.max_nodes < self.config.max_nodes {
                        Err(EventOpenError::DoesNotSupportRequestedAmountOfNodes)
                    } else {
                        Ok(c)
                    }
                },
            }
        }
    }

    /// Checks an existing service's static configuration against the
    /// opener's requirements; returns the service's event configuration
    /// when every check passes.
    pub fn verify_service_attributes(
        &self,
        existing_settings: &StaticConfig,
        required_attributes: &AttributeVerifier,
    ) -> (r: Result<EventConfig, EventOpenError>)
        ensures
            r == self.verify_outcome(
                *existing_settings,
                requirements_satisfied(*required_attributes, existing_settings.attributes.attrs@),
            ),
    {
        if required_attributes.verify_requirements(&existing_settings.attributes).is_err() {
            return Err(EventOpenError::IncompatibleAttributes);
        }
        let existing = match existing_settings.messaging_pattern {
            MessagingPattern::Event(c) => c,
            MessagingPattern::PublishSubscribe(_) => {
                return Err(EventOpenError::IncompatibleMessagingPattern);
            },
        };
        if self.verify_max_notifiers && existing.max_notifiers < self.config.max_notifiers {
            return Err(EventOpenError::DoesNotSupportRequestedAmountOfNotifiers);
        }
        if self.verify_max_listeners && existing.max_listeners < self.config.max_listeners {
            return Err(EventOpenError::DoesNotSupportRequestedAmountOfListeners);
        }
        if self.verify_event_id_max_value && existing.event_id_max_value
            < self.config.event_id_max_value {
            return Err(EventOpenError::DoesNotSupportRequestedMaxEventId);
        }
        if self.verify_max_nodes && existing.max_nodes < self.config.max_nodes {
            return Err(EventOpenError::DoesNotSupportRequestedAmountOfNodes);
        }
        Ok(existing)
    }

    /// Opens an existing service; the opener states no attribute
    /// requirements.
    pub fn open(self, sys: &mut System) -> (r: Result<EventPortFactory, EventOpenError>)
        requires
            old(sys).wf(),
        ensures
            final(sys).wf(),
            open_contract(self, *old(sys), *final(sys), true, r),
    {
        let v = AttributeVerifier::new();
        let r = self.open_with_attributes(sys, &v);
        proof {
            let pre = *old(sys);
            if pre.probe_ready(self.name@, self.serializer) {
                let e = pre.services@[pre.entry_index(self.name@)];
                crate::attributes::lemma_empty_requirements_always_satisfied(
                    v,
                    e.config.attributes.attrs@,
                );
            }
        }
        r
    }

    /// Opens an existing service with attribute requirements; the open
    /// fails when any requirement is not satisfied.
    pub fn open_with_attributes(
        self,
        sys: &mut System,
        required_attributes: &AttributeVerifier,
    ) -> (r: Result<EventPortFactory, EventOpenError>)
        requires
            old(sys).wf(),
        ensures
            final(sys).wf(),
            open_contract(
                self,
                *old(sys),
                *final(sys),
                requirements_satisfied(
                    *required_attributes,
                    old(sys).services@[old(sys).entry_index(
                        self.name@,
                    )].config.attributes.attrs@,
                ),
                r,
            ),
    {
        match sys.is_service_available(&self.name, self.serializer) {
            Err(st) => Err(EventOpenError::from(st)),
            Ok(None) => Err(EventOpenError::DoesNotExist),
            Ok(Some(idx)) => {
                let outcome = self.verify_service_attributes(
                    &sys.services[idx].config,
                    required_attributes,
                );
                match outcome {
                    Err(e) => Err(e),
                    Ok(_existing) => {
                        match sys.join_dynamic_descriptor(idx) {
                            Err(OpenDynamicStorageFailure::IsMarkedForDestruction) => Err(
                                EventOpenError::IsMarkedForDestruction,
                            ),
                            Err(OpenDynamicStorageFailure::ExceedsMaxNumberOfNodes) => Err(
                                EventOpenError::ExceedsMaxNumberOfNodes,
                            ),
                            Ok(_) => {
                                let service_id = sys.services[idx].service_id;
                                Ok(EventPortFactory { service_index: idx, service_id })
                            },
                        }
                    },
                }
            },
        }
    }

    /// Creates a new service with empty attributes.
    pub fn create(self, sys: &mut System) -> (r: Result<EventPortFactory, EventCreateError>)
        requires
            old(sys).wf(),
        ensures
            final(sys).wf(),
            create_contract(self, *old(sys), *final(sys), Seq::empty(), r),
    {
        let mut this = self;
        let attributes = AttributeSpecifier::new();
        proof {
            assert(attributes.attributes.attrs@ =~= Seq::<crate::attributes::Attribute>::empty());
        }
        this.create_impl(sys, &attributes)
    }

    /// Creates a new service carrying the given attribute set.
    pub fn create_with_attributes(
        self,
        sys: &mut System,
        attributes: &AttributeSpecifier,
    ) -> (r: Result<EventPortFactory, EventCreateError>)
        requires
            old(sys).wf(),
        ensures
            final(sys).wf(),
            create_contract(self, *old(sys), *final(sys), attributes.attributes.attrs@, r),
    {
        let mut this = self;
        this.create_impl(sys, attributes)
    }

    /// The create protocol: normalize the capacities, probe the name, claim
    /// the static descriptor locked, allocate the dynamic descriptor, and
    /// publish the descriptor as the last step.
    pub fn create_impl(&mut self, sys: &mut System, attributes: &AttributeSpecifier) -> (r: Result<
        EventPortFactory,
        EventCreateError,
    >)
        requires
            old(sys).wf(),
        ensures
            final(sys).wf(),
            *final(self) == (Builder {
                config: normalized_event_config(old(self).config),
                ..*old(self)
            }),
            create_contract(*old(self), *old(sys), *final(sys), attributes.attributes.attrs@, r),
    {
        self.adjust_attributes_to_meaningful_values();
        match sys.is_service_available(&self.name, self.serializer) {
            Err(st) => Err(EventCreateError::from(st)),
            Ok(Some(_)) => Err(EventCreateError::AlreadyExists),
            Ok(None) => {
                let config = StaticConfig {
                    service_name: self.name.duplicate(),
                    messaging_pattern: MessagingPattern::Event(self.config),
                    attributes: AttributeSet::new(),
                };
                match sys.claim_static_descriptor(config, self.serializer) {
                    Err(StaticStorageCreateError::AlreadyExists) => Err(
                        EventCreateError::AlreadyExists,
                    ),
                    Err(StaticStorageCreateError::Creation) => Err(
                        EventCreateError::IsBeingCreatedByAnotherInstance,
                    ),
                    Err(StaticStorageCreateError::InsufficientPermissions) => Err(
                        EventCreateError::InsufficientPermissions,
                    ),
                    Ok(idx) => {
                        sys.create_dynamic_descriptor(idx);
                        sys.publish_static_descriptor(idx, attributes.attributes.duplicate());
                        let service_id = sys.services[idx].service_id;
                        proof {
                            assert(sys.services@.subrange(0, old(sys).services@.len() as int)
                                =~= old(sys).services@);
                        }
                        Ok(EventPortFactory { service_index: idx, service_id })
                    },
                }
            },
        }
    }

    /// Opens the service when its descriptor is visible, creates it
    /// otherwise.  A race that the probe can observe — the name claimed by
    /// an unfinished creator — is benign: it is reported as
    /// `IsBeingCreatedByAnotherInstance` once the bounded retry is
    /// exhausted, and the caller may try again after the competing creator
    /// has published or timed out.
    pub fn open_or_create(self, sys: &mut System) -> (r: Result<
        EventPortFactory,
        EventOpenOrCreateError,
    >)
        requires
            old(sys).wf(),
        ensures
            final(sys).wf(),
            open_or_create_contract(self, *old(sys), *final(sys), true, Seq::empty(), r),
    {
        let v = AttributeVerifier::new();
        proof {
            assert(v.required.attrs@ =~= Seq::<crate::attributes::Attribute>::empty());
        }
        let r = self.open_or_create_with_attributes(sys, &v);
        proof {
            let pre = *old(sys);
            if pre.probe_ready(self.name@, self.serializer) {
                let e = pre.services@[pre.entry_index(self.name@)];
                crate::attributes::lemma_empty_requirements_always_satisfied(
                    v,
                    e.config.attributes.attrs@,
                );
            }
        }
        r
    }

    /// Opens the service when its descriptor is visible, creates it with
    /// the required attributes as its attribute set otherwise.
    pub fn open_or_create_with_attributes(
        self,
        sys: &mut System,
        required_attributes: &AttributeVerifier,
    ) -> (r: Result<EventPortFactory, EventOpenOrCreateError>)
        requires
            old(sys).wf(),
        ensures
            final(sys).wf(),
            open_or_create_contract(
                self,
                *old(sys),
                *final(sys),
                requirements_satisfied(
                    *required_attributes,
                    old(sys).services@[old(sys).entry_index(
                        self.name@,
                    )].config.attributes.attrs@,
                ),
                required_attributes.required.attrs@,
                r,
            ),
    {
        match sys.is_service_available(&self.name, self.serializer) {
            Err(st) => Err(EventOpenOrCreateError::from(st)),
            Ok(Some(_)) => {
                match self.open_with_attributes(sys, required_attributes) {
                    Ok(factory) => Ok(factory),
                    Err(e) => Err(EventOpenOrCreateError::from(e)),
                }
            },
            Ok(None) => {
                let attributes = AttributeSpecifier {
                    attributes: required_attributes.attributes().duplicate(),
                };
                let mut this = self;
                match this.create_impl(sys, &attributes) {
                    Ok(factory) => Ok(factory),
                    Err(EventCreateError::AlreadyExists) => Err(
                        EventOpenOrCreateError::EventCreateError(
                            EventCreateError::IsBeingCreatedByAnotherInstance,
                        ),
                    ),
                    Err(e) => Err(EventOpenOrCreateError::from(e)),
                }
            },
        }
    }
}

/// What opening yields, over the probe state and the compatibility gate:
/// either the specific error, with the system untouched, or a factory on
/// the service with one more reference and node registered.
pub open spec fn open_error_of(b: Builder, sys: System, attrs_ok: bool) -> Option<EventOpenError> {
    if sys.probe_hung(b.name@) {
        Some(EventOpenError::HangsInCreation)
    } else if sys.probe_corrupted(b.name@, b.serializer) {
        Some(EventOpenError::ServiceInCorruptedState)
    } else if !sys.probe_ready(b.name@, b.serializer) {
        Some(EventOpenError::DoesNotExist)
    } else {
        let e = sys.services@[sys.entry_index(b.name@)];
        match b.verify_outcome(e.config, attrs_ok) {
            Err(err) => Some(err),
            Ok(_) => {
                if e.marked_for_destruction {
                    Some(EventOpenError::IsMarkedForDestruction)
                } else if e.nodes >= node_capacity(e.config.messaging_pattern) {
                    Some(EventOpenError::ExceedsMaxNumberOfNodes)
                } else {
                    None
                }
            },
        }
    }
}

/// The system change of a successful open.
pub open spec fn open_success(b: Builder, pre: System, post: System, f: EventPortFactory) -> bool {
    let idx = pre.entry_index(b.name@);
    let e = pre.services@[idx];
    &&& post.samples@ == pre.samples@
    &&& post.now == pre.now
    &&& post.next_id == pre.next_id
    &&& post.creation_timeout == pre.creation_timeout
    &&& post.services@.len() == pre.services@.len()
    &&& forall|j: int|
        0 <= j < pre.services@.len() && j != idx ==> post.services@[j] == pre.services@[j]
    &&& post.services@[idx] == (ServiceEntry {
        refs: crate::system::saturating_inc(e.refs),
        nodes: (e.nodes + 1) as usize,
        ..e
    })
    &&& f.service_index == idx
    &&& f.service_id == e.service_id
    &&& crate::event_port::factory_valid(f, post)
}

/// The full contract of opening an event service.
pub open spec fn open_contract(
    b: Builder,
    pre: System,
    post: System,
    attrs_ok: bool,
    r: Result<EventPortFactory, EventOpenError>,
) -> bool {
    match open_error_of(b, pre, attrs_ok) {
        Some(e) => r == Err::<EventPortFactory, EventOpenError>(e) && post == pre,
        None => r matches Ok(f) && open_success(b, pre, post, f),
    }
}

/// What creating yields, over the probe state: either the specific error,
/// with the system untouched, or a fresh published service.
pub open spec fn create_error_of(sys: System, name: Seq<char>, serializer: u64) -> Option<
    EventCreateError,
> {
    if sys.probe_hung(name) {
        Some(EventCreateError::HangsInCreation)
    } else if sys.probe_corrupted(name, serializer) {
        Some(EventCreateError::ServiceInCorruptedState)
    } else if sys.probe_ready(name, serializer) {
        Some(EventCreateError::AlreadyExists)
    } else if sys.has_entry(name) {
        Some(EventCreateError::IsBeingCreatedByAnotherInstance)
    } else {
        None
    }
}

/// The system change of a successful create: one new entry, present,
/// published and dynamic, carrying the normalized configuration and the
/// creator's attributes, with the creator's reference and node registered.
pub open spec fn create_success(
    b: Builder,
    pre: System,
    post: System,
    attrs: Seq<crate::attributes::Attribute>,
    f: EventPortFactory,
) -> bool {
    let ne = post.services@[pre.services@.len() as int];
    &&& post.samples@ == pre.samples@
    &&& post.now == pre.now
    &&& post.services@.len() == pre.services@.len() + 1
    &&& post.services@.subrange(0, pre.services@.len() as int) == pre.services@
    &&& ne.present
    &&& ne.published
    &&& ne.dynamic
    &&& !ne.marked_for_destruction
    &&& ne.config.service_name@ == b.name@
    &&& ne.config.messaging_pattern == MessagingPattern::Event(normalized_event_config(b.config))
    &&& ne.config.attributes.attrs@ == attrs
    &&& ne.refs == 1
    &&& ne.nodes == 1
    &&& ne.serializer == b.serializer
    &&& ne.service_id == pre.next_id
    &&& ne.created_at == pre.now
    &&& post.creation_timeout == pre.creation_timeout
    &&& f.service_index == pre.services@.len()
    &&& f.service_id == ne.service_id
    &&& crate::event_port::factory_valid(f, post)
}

/// The full contract of creating an event service.
pub open spec fn create_contract(
    b: Builder,
    pre: System,
    post: System,
    attrs: Seq<crate::attributes::Attribute>,
    r: Result<EventPortFactory, EventCreateError>,
) -> bool {
    match create_error_of(pre, b.name@, b.serializer) {
        Some(e) => r == Err::<EventPortFactory, EventCreateError>(e) && post == pre,
        None => r matches Ok(f) && create_success(b, pre, post, attrs, f),
    }
}

/// Atomicity of create: once a creator has found the name free and
/// published the service, the name is taken — every later create on it
/// reports the existing service instead of making a second one — and the
/// published descriptor is observable, so an opener that states no
/// capacity requirements and uses the creator's serialization format is
/// admitted as long as the service is not in teardown and its node registry
/// has room.
/// Teardown frees the name: once the entry that carried a name has been
/// torn down — as releasing the last reference does — no present entry
/// carries the name any more, so a later create on the name is owed
/// success, whatever samples of the old incarnation are still held (they
/// live in the global pool, not under the name).
pub proof fn lemma_teardown_frees_the_name(
    pre: System,
    post: System,
    idx: int,
    name: Seq<char>,
    serializer: u64,
)
    requires
        pre.wf(),
        0 <= idx < pre.services@.len(),
        is_present_with_name(pre.services@[idx], name),
        post.services@.len() == pre.services@.len(),
        !post.services@[idx].present,
        forall|j: int|
            0 <= j < pre.services@.len() && j != idx ==> crate::system::entry_same_but_live(
                pre.services@[j],
                post.services@[j],
            ),
    ensures
        !post.has_entry(name),
        create_error_of(post, name, serializer) is None,
{
    if post.has_entry(name) {
        let w = choose|i: int|
            0 <= i < post.services@.len() && is_present_with_name(
                #[trigger] post.services@[i],
                name,
            );
        assert(w != idx);
        assert(crate::system::entry_same_but_live(pre.services@[w], post.services@[w]));
        assert(is_present_with_name(pre.services@[w], name));
        if w < idx {
            assert(pre.services@[w].config.service_name@ != pre.services@[idx].config.service_name@);
        } else {
            assert(pre.services@[idx].config.service_name@ != pre.services@[w].config.service_name@);
        }
        assert(false);
    }
}

pub proof fn lemma_create_is_exclusive(
    b: Builder,
    opener: Builder,
    pre: System,
    post: System,
    attrs: Seq<crate::attributes::Attribute>,
    f: EventPortFactory,
)
    requires
        post.wf(),
        !pre.has_entry(b.name@),
        create_success(b, pre, post, attrs, f),
        opener.name@ == b.name@,
        opener.serializer == b.serializer,
        !opener.verify_max_notifiers,
        !opener.verify_max_listeners,
        !opener.verify_max_nodes,
        !opener.verify_event_id_max_value,
    ensures
        post.has_entry(b.name@),
        post.probe_ready(b.name@, b.serializer),
        create_error_of(post, b.name@, b.serializer) == Some(EventCreateError::AlreadyExists),
        open_error_of(opener, post, true) == (if post.services@[post.entry_index(
            b.name@,
        )].marked_for_destruction {
            Some(EventOpenError::IsMarkedForDestruction)
        } else if post.services@[post.entry_index(b.name@)].nodes >= node_capacity(
            post.services@[post.entry_index(b.name@)].config.messaging_pattern,
        ) {
            Some(EventOpenError::ExceedsMaxNumberOfNodes)
        } else {
            None::<EventOpenError>
        }),
{
    let ni = pre.services@.len() as int;
    assert(is_present_with_name(post.services@[ni], b.name@));
    assert(post.has_entry(b.name@));
    let w = post.entry_index(b.name@);
    assert(is_present_with_name(post.services@[w], b.name@));
    if w != ni {
        assert(post.services@[w] == pre.services@[w]);
        assert(pre.has_entry(b.name@));
        assert(false);
    }
    assert(post.services@[ni].published);
    assert(post.probe_ready(b.name@, b.serializer));
    let e = post.services@[w];
    assert(e.config.messaging_pattern is Event);
    assert(opener.verify_outcome(e.config, true) is Ok);
}

/// The full contract of open-or-create: a visible service is opened, a
/// free name is created, a benign race is reported for the caller to retry.
pub open spec fn open_or_create_contract(
    b: Builder,
    pre: System,
    post: System,
    attrs_ok: bool,
    attrs: Seq<crate::attributes::Attribute>,
    r: Result<EventPortFactory, EventOpenOrCreateError>,
) -> bool {
    if pre.probe_ready(b.name@, b.serializer) {
        match open_error_of(b, pre, attrs_ok) {
            Some(e) => r == Err::<EventPortFactory, EventOpenOrCreateError>(
                EventOpenOrCreateError::EventOpenError(e),
            ) && post == pre,
            None => r matches Ok(f) && open_success(b, pre, post, f),
        }
    } else if pre.probe_hung(b.name@) {
        r == Err::<EventPortFactory, EventOpenOrCreateError>(
            EventOpenOrCreateError::EventOpenError(EventOpenError::HangsInCreation),
        ) && post == pre
    } else if pre.probe_corrupted(b.name@, b.serializer) {
        r == Err::<EventPortFactory, EventOpenOrCreateError>(
            EventOpenOrCreateError::EventOpenError(EventOpenError::ServiceInCorruptedState),
        ) && post == pre
    } else if pre.has_entry(b.name@) {
        r == Err::<EventPortFactory, EventOpenOrCreateError>(
            EventOpenOrCreateError::EventCreateError(
                EventCreateError::IsBeingCreatedByAnotherInstance,
            ),
        ) && post == pre
    } else {
        r matches Ok(f) && create_success(b, pre, post, attrs, f)
    }
}

} // verus!
