//! Event ports: the factory handed out by a successful open or create of an
//! event service, and the notifier/listener endpoints built from it.
//!
//! Every handle holds one reference on the service's dynamic descriptor;
//! releasing the last reference tears the service down.  Handles are
//! explicit about the shared state: each operation takes the [`System`].

use crate::event_id::EventId;
use crate::port_identifiers::{UniqueListenerId, UniqueNotifierId};
use crate::static_config::{listener_capacity, node_capacity, notifier_capacity, MessagingPattern};
use crate::system::{saturating_inc, ListenerSlot, ServiceEntry, System};
use vstd::prelude::*;

verus! {

/// Why building a notifier failed.
#[derive(Clone, Copy, Debug, PartialEq, Eq, Structural)]
pub enum NotifierCreateError {
    /// All notifier slots of the service are taken.
    ExceedsMaxSupportedNotifiers,
    /// The handle no longer points at a live event service.
    ServiceGone,
}

/// Why building a listener failed.
#[derive(Clone, Copy, Debug, PartialEq, Eq, Structural)]
pub enum ListenerCreateError {
    /// All listener slots of the service are taken.
    ExceedsMaxSupportedListeners,
    /// The handle no longer points at a live event service.
    ServiceGone,
}

/// Why a notification failed.
#[derive(Clone, Copy, Debug, PartialEq, Eq, Structural)]
pub enum NotifierNotifyError {
    /// The event id lies outside `[0, event_id_max_value]` of the service.
    EventIdOutOfBounds,
    /// The handle no longer points at a live event service.
    ServiceGone,
}

/// Why a wait failed; an expired timeout and an empty queue are not errors.
#[derive(Clone, Copy, Debug, PartialEq, Eq, Structural)]
pub enum ListenerWaitError {
    InterruptSignal,
    InternalFailure,
    /// The handle no longer points at a live event service.
    ServiceGone,
}

/// The handle returned by a successful open or create of an event service.
/// It owns one reference on the service state; dropping the factory does
/// not tear the service down while endpoints are live.
#[derive(Clone, Copy, Debug, PartialEq, Eq, Structural)]
pub struct EventPortFactory {
    pub service_index: usize,
    pub service_id: u128,
}

/// The factory still points at the live incarnation of an event service.
pub open spec fn factory_valid(f: EventPortFactory, sys: System) -> bool {
    &&& f.service_index < sys.services@.len()
    &&& sys.services@[f.service_index as int].present
    &&& sys.services@[f.service_index as int].published
    &&& sys.services@[f.service_index as int].service_id == f.service_id
    &&& sys.services@[f.service_index as int].config.messaging_pattern is Event
}

/// A notifier endpoint: delivers event ids to every listener of the service.
#[derive(Clone, Copy, Debug, PartialEq, Eq, Structural)]
pub struct Notifier {
    pub service_index: usize,
    pub service_id: u128,
    pub slot: usize,
    pub id: UniqueNotifierId,
}

/// The notifier is still bound to its slot in the live service.
pub open spec fn notifier_valid(n: Notifier, sys: System) -> bool {
    &&& n.service_index < sys.services@.len()
    &&& sys.services@[n.service_index as int].present
    &&& sys.services@[n.service_index as int].published
    &&& sys.services@[n.service_index as int].service_id == n.service_id
    &&& sys.services@[n.service_index as int].config.messaging_pattern is Event
    &&& n.slot < sys.services@[n.service_index as int].notifiers@.len()
    &&& sys.services@[n.service_index as int].notifiers@[n.slot as int].used
    &&& sys.services@[n.service_index as int].notifiers@[n.slot as int].id == n.id.value
}

/// A listener endpoint: drains the event ids delivered to its slot.
#[derive(Clone, Copy, Debug, PartialEq, Eq, Structural)]
pub struct Listener {
    pub service_index: usize,
    pub service_id: u128,
    pub slot: usize,
    pub id: UniqueListenerId,
}

/// The listener is still bound to its slot in the live service.
pub open spec fn listener_valid(l: Listener, sys: System) -> bool {
    &&& l.service_index < sys.services@.len()
    &&& sys.services@[l.service_index as int].present
    &&& sys.services@[l.service_index as int].published
    &&& sys.services@[l.service_index as int].service_id == l.service_id
    &&& sys.services@[l.service_index as int].config.messaging_pattern is Event
    &&& l.slot < sys.services@[l.service_index as int].listeners@.len()
    &&& sys.services@[l.service_index as int].listeners@[l.slot as int].used
    &&& sys.services@[l.service_index as int].listeners@[l.slot as int].id == l.id.value
}

/// Number of used listener slots among the first `i`.
pub open spec fn used_listeners_below(s: Seq<ListenerSlot>, i: int) -> int
    decreases i,
{
    if i <= 0 {
        0
    } else {
        used_listeners_below(s, i - 1) + if s[i - 1].used {
            1int
        } else {
            0int
        }
    }
}

/// Builder for a notifier endpoint on an event service.
#[derive(Clone, Copy, Debug, PartialEq, Eq, Structural)]
pub struct PortFactoryNotifier {
    pub factory: EventPortFactory,
}

/// Builder for a listener endpoint on an event service.
#[derive(Clone, Copy, Debug, PartialEq, Eq, Structural)]
pub struct PortFactoryListener {
    pub factory: EventPortFactory,
}

impl EventPortFactory {
    /// Starts building a notifier endpoint.
    pub fn notifier_builder(&self) -> (r: PortFactoryNotifier)
        ensures
            r.factory == *self,
    {
        PortFactoryNotifier { factory: *self }
    }

    /// Starts building a listener endpoint.
    pub fn listener_builder(&self) -> (r: PortFactoryListener)
        ensures
            r.factory == *self,
    {
        PortFactoryListener { factory: *self }
    }

    /// Drops the factory: releases its reference on the service state and
    /// its node registration.  The service lives on while endpoints hold
    /// references; the last release tears it down.
    pub fn release(self, sys: &mut System)
        requires
            old(sys).wf(),
        ensures
            final(sys).wf(),
            crate::system::held_samples_intact(old(sys).samples@, final(sys).samples@),
            final(sys).samples@.len() == old(sys).samples@.len(),
            final(sys).services@.len() == old(sys).services@.len(),
            final(sys).now == old(sys).now,
            final(sys).next_id == old(sys).next_id,
            final(sys).creation_timeout == old(sys).creation_timeout,
            forall|j: int|
                0 <= j < old(sys).services@.len() && j != self.service_index
                    ==> crate::system::entry_same_but_live(
                    old(sys).services@[j],
                    final(sys).services@[j],
                ),
            !factory_valid(self, *old(sys)) ==> *final(sys) == *old(sys),
            factory_valid(self, *old(sys)) && old(sys).services@[self.service_index as int].refs
                > 1 ==> final(sys).services@[self.service_index as int] == (ServiceEntry {
                refs: (old(sys).services@[self.service_index as int].refs - 1) as usize,
                nodes: if old(sys).services@[self.service_index as int].nodes > 0 {
                    (old(sys).services@[self.service_index as int].nodes - 1) as usize
                } else {
                    0
                },
                ..old(sys).services@[self.service_index as int]
            }),
            factory_valid(self, *old(sys)) && old(sys).services@[self.service_index as int].refs
                <= 1 ==> !final(sys).services@[self.service_index as int].present,
    {
        if self.service_index >= sys.services.len() {
            return ;
        }
        if !sys.services[self.service_index].present
            || !sys.services[self.service_index].published {
            return ;
        }
        if sys.services[self.service_index].service_id != self.service_id {
            return ;
        }
        let is_event = match sys.services[self.service_index].config.messaging_pattern {
            MessagingPattern::Event(_) => true,
            MessagingPattern::PublishSubscribe(_) => false,
        };
        if !is_event {
            return ;
        }
        sys.release_service_reference(self.service_index, true);
    }
}

impl PortFactoryNotifier {
    /// Binds a free notifier slot in the service's dynamic descriptor and
    /// mints the port's unique id.  Fails when every slot is taken.
    pub fn create(&self, sys: &mut System) -> (r: Result<Notifier, NotifierCreateError>)
        requires
            old(sys).wf(),
        ensures
            final(sys).wf(),
            final(sys).samples@ == old(sys).samples@,
            final(sys).services@.len() == old(sys).services@.len(),
            final(sys).now == old(sys).now,
            final(sys).creation_timeout == old(sys).creation_timeout,
            !factory_valid(self.factory, *old(sys)) ==> r == Err::<Notifier, NotifierCreateError>(
                NotifierCreateError::ServiceGone,
            ) && *final(sys) == *old(sys),
            factory_valid(self.factory, *old(sys)) ==> {
                let e = old(sys).services@[self.factory.service_index as int];
                &&& (r == Err::<Notifier, NotifierCreateError>(
                    NotifierCreateError::ExceedsMaxSupportedNotifiers,
                ) <==> forall|i: int| 0 <= i < e.notifiers@.len() ==> (#[trigger] e.notifiers@[i]).used)
                &&& (r is Ok || r == Err::<Notifier, NotifierCreateError>(
                    NotifierCreateError::ExceedsMaxSupportedNotifiers,
                ))
                &&& r is Err ==> *final(sys) == *old(sys)
                &&& r matches Ok(n) ==> {
                    let f = final(sys).services@[self.factory.service_index as int];
                    &&& notifier_valid(n, *final(sys))
                    &&& n.service_index == self.factory.service_index
                    &&& n.service_id == self.factory.service_id
                    &&& n.slot < e.notifiers@.len()
                    &&& !e.notifiers@[n.slot as int].used
                    &&& forall|j: int|
                        0 <= j < old(sys).services@.len() && j != self.factory.service_index
                            ==> final(sys).services@[j] == old(sys).services@[j]
                    &&& f.notifiers@ == e.notifiers@.update(
                        n.slot as int,
                        crate::system::NotifierSlot { used: true, id: n.id.value },
                    )
                    &&& f == (ServiceEntry { refs: saturating_inc(e.refs), notifiers: f.notifiers, ..e })
                }
            },
    {
        let fi = self.factory.service_index;
        if fi >= sys.services.len() || !sys.services[fi].present || !sys.services[fi].published
            || sys.services[fi].service_id != self.factory.service_id {
            return Err(NotifierCreateError::ServiceGone);
        }
        let is_event = match sys.services[fi].config.messaging_pattern {
            MessagingPattern::Event(_) => true,
            MessagingPattern::PublishSubscribe(_) => false,
        };
        if !is_event {
            return Err(NotifierCreateError::ServiceGone);
        }
        let mut slot: usize = 0;
        let n = sys.services[fi].notifiers.len();
        let mut found = false;
        while slot < n && !found
            invariant
                n == sys.services@[fi as int].notifiers@.len(),
                fi < sys.services@.len(),
                slot <= n,
                !found ==> forall|i: int|
                    0 <= i < slot ==> (#[trigger] sys.services@[fi as int].notifiers@[i]).used,
                found ==> slot < n && !sys.services@[fi as int].notifiers@[slot as int].used,
            decreases n - slot, (if found { 0int } else { 1int }),
        {
            if !sys.services[fi].notifiers[slot].used {
                found = true;
            } else {
                slot += 1;
            }
        }
        if !found {
            return Err(NotifierCreateError::ExceedsMaxSupportedNotifiers);
        }
        let id = sys.mint_id();
        sys.services[fi].notifiers[slot] = crate::system::NotifierSlot { used: true, id };
        let refs = sys.services[fi].refs;
        sys.services[fi].refs = if refs < usize::MAX {
            refs + 1
        } else {
            refs
        };
        Ok(
            Notifier {
                service_index: fi,
                service_id: self.factory.service_id,
                slot,
                id: UniqueNotifierId::new(id),
            },
        )
    }
}

impl PortFactoryListener {
    /// Binds a free listener slot in the service's dynamic descriptor and
    /// mints the port's unique id.  Fails when every slot is taken.
    pub fn create(&self, sys: &mut System) -> (r: Result<Listener, ListenerCreateError>)
        requires
            old(sys).wf(),
        ensures
            final(sys).wf(),
            final(sys).samples@ == old(sys).samples@,
            final(sys).services@.len() == old(sys).services@.len(),
            final(sys).now == old(sys).now,
            final(sys).creation_timeout == old(sys).creation_timeout,
            !factory_valid(self.factory, *old(sys)) ==> r == Err::<Listener, ListenerCreateError>(
                ListenerCreateError::ServiceGone,
            ) && *final(sys) == *old(sys),
            factory_valid(self.factory, *old(sys)) ==> {
                let e = old(sys).services@[self.factory.service_index as int];
                &&& (r == Err::<Listener, ListenerCreateError>(
                    ListenerCreateError::ExceedsMaxSupportedListeners,
                ) <==> forall|i: int| 0 <= i < e.listeners@.len() ==> (#[trigger] e.listeners@[i]).used)
                &&& (r is Ok || r == Err::<Listener, ListenerCreateError>(
                    ListenerCreateError::ExceedsMaxSupportedListeners,
                ))
                &&& r is Err ==> *final(sys) == *old(sys)
                &&& r matches Ok(l) ==> {
                    let f = final(sys).services@[self.factory.service_index as int];
                    &&& listener_valid(l, *final(sys))
                    &&& l.service_index == self.factory.service_index
                    &&& l.service_id == self.factory.service_id
                    &&& l.slot < e.listeners@.len()
                    &&& !e.listeners@[l.slot as int].used
                    &&& forall|j: int|
                        0 <= j < old(sys).services@.len() && j != self.factory.service_index
                            ==> final(sys).services@[j] == old(sys).services@[j]
                    &&& f.listeners@.len() == e.listeners@.len()
                    &&& forall|i: int|
                        0 <= i < e.listeners@.len() && i != l.slot ==> f.listeners@[i]
                            == e.listeners@[i]
                    &&& f.listeners@[l.slot as int].used
                    &&& f.listeners@[l.slot as int].id == l.id.value
                    &&& f.listeners@[l.slot as int].pending@.len() == 0
                    &&& f == (ServiceEntry { refs: saturating_inc(e.refs), listeners: f.listeners, ..e })
                }
            },
    {
        let fi = self.factory.service_index;
        if fi >= sys.services.len() || !sys.services[fi].present || !sys.services[fi].published
            || sys.services[fi].service_id != self.factory.service_id {
            return Err(ListenerCreateError::ServiceGone);
        }
        let is_event = match sys.services[fi].config.messaging_pattern {
            MessagingPattern::Event(_) => true,
            MessagingPattern::PublishSubscribe(_) => false,
        };
        if !is_event {
            return Err(ListenerCreateError::ServiceGone);
        }
        let mut slot: usize = 0;
        let n = sys.services[fi].listeners.len();
        let mut found = false;
        while slot < n && !found
            invariant
                n == sys.services@[fi as int].listeners@.len(),
                fi < sys.services@.len(),
                slot <= n,
                !found ==> forall|i: int|
                    0 <= i < slot ==> (#[trigger] sys.services@[fi as int].listeners@[i]).used,
                found ==> slot < n && !sys.services@[fi as int].listeners@[slot as int].used,
            decreases n - slot, (if found { 0int } else { 1int }),
        {
            if !sys.services[fi].listeners[slot].used {
                found = true;
            } else {
                slot += 1;
            }
        }
        if !found {
            return Err(ListenerCreateError::ExceedsMaxSupportedListeners);
        }
        let id = sys.mint_id();
        sys.services[fi].listeners[slot] = ListenerSlot { used: true, id, pending: Vec::new() };
        let refs = sys.services[fi].refs;
        sys.services[fi].refs = if refs < usize::MAX {
            refs + 1
        } else {
            refs
        };
        Ok(
            Listener {
                service_index: fi,
                service_id: self.factory.service_id,
                slot,
                id: UniqueListenerId::new(id),
            },
        )
    }
}

impl Notifier {
    /// Delivers the default event id `0` to every live listener.
    pub fn notify(&self, sys: &mut System) -> (r: Result<usize, NotifierNotifyError>)
        requires
            old(sys).wf(),
        ensures
            final(sys).wf(),
            notify_contract(*self, *old(sys), *final(sys), EventId { value: 0 }, r),
    {
        self.notify_with_custom_event_id(sys, EventId::new(0))
    }

    /// Delivers this event id to every live listener of the service,
    /// coalescing per listener: an id the listener has not drained yet is
    /// not queued twice.  Ids above the service's `event_id_max_value` are
    /// rejected.  Returns how many listeners were notified.
    #[verifier::loop_isolation(false)]
    pub fn notify_with_custom_event_id(&self, sys: &mut System, id: EventId) -> (r: Result<
        usize,
        NotifierNotifyError,
    >)
        requires
            old(sys).wf(),
        ensures
            final(sys).wf(),
            notify_contract(*self, *old(sys), *final(sys), id, r),
    {
        let si = self.service_index;
        if si >= sys.services.len() || !sys.services[si].present || !sys.services[si].published
            || sys.services[si].service_id != self.service_id {
            return Err(NotifierNotifyError::ServiceGone);
        }
        let max = match sys.services[si].config.messaging_pattern {
            MessagingPattern::Event(c) => c.event_id_max_value,
            MessagingPattern::PublishSubscribe(_) => {
                return Err(NotifierNotifyError::ServiceGone);
            },
        };
        if si >= sys.services.len() || self.slot >= sys.services[si].notifiers.len()
            || !sys.services[si].notifiers[self.slot].used
            || sys.services[si].notifiers[self.slot].id != self.id.value {
            return Err(NotifierNotifyError::ServiceGone);
        }
        if id.value > max {
            return Err(NotifierNotifyError::EventIdOutOfBounds);
        }
        let nl = sys.services[si].listeners.len();
        let mut l: usize = 0;
        let mut notified: usize = 0;
        while l < nl
            invariant
                l <= nl,
                notified <= l,
                sys.services@.len() == old(sys).services@.len(),
                sys.samples@ == old(sys).samples@,
                sys.now == old(sys).now,
                sys.next_id == old(sys).next_id,
                sys.creation_timeout == old(sys).creation_timeout,
                forall|j: int|
                    0 <= j < old(sys).services@.len() && j != si ==> sys.services@[j] == old(
                        sys,
                    ).services@[j],
                sys.services@[si as int] == (ServiceEntry {
                    listeners: sys.services@[si as int].listeners,
                    ..old(sys).services@[si as int]
                }),
                nl == sys.services@[si as int].listeners@.len(),
                notified == used_listeners_below(old(sys).services@[si as int].listeners@, l as int),
                forall|i: int|
                    l <= i < nl ==> sys.services@[si as int].listeners@[i] == old(
                        sys,
                    ).services@[si as int].listeners@[i],
                forall|i: int|
                    0 <= i < l ==> listener_delivery(
                        old(sys).services@[si as int].listeners@[i],
                        #[trigger] sys.services@[si as int].listeners@[i],
                        id.value,
                    ),
                forall|i: int|
                    0 <= i < nl ==> (#[trigger] sys.services@[si as int].listeners@[i]).used == old(
                        sys,
                    ).services@[si as int].listeners@[i].used,
                sys.wf(),
            decreases nl - l,
        {
            let used = sys.services[si].listeners[l].used;
            if used {
                if !crate::system::buffer_contains(&sys.services[si].listeners[l].pending, id.value)
                {
                    sys.services[si].listeners[l].pending.push(id.value);
                    proof {
                        let pre_slot = old(sys).services@[si as int].listeners@[l as int];
                        let post_slot = sys.services@[si as int].listeners@[l as int];
                        assert(post_slot.pending@ == pre_slot.pending@.push(id.value));
                        assert(post_slot.pending@[post_slot.pending@.len() - 1] == id.value);
                        assert(post_slot.pending@.contains(id.value));
                    }
                }
                notified += 1;
            }
            l += 1;
        }
        Ok(notified)
    }

    /// Drops the notifier: frees its slot and releases its reference on the
    /// service state.
    pub fn release(self, sys: &mut System)
        requires
            old(sys).wf(),
        ensures
            final(sys).wf(),
            crate::system::held_samples_intact(old(sys).samples@, final(sys).samples@),
            final(sys).samples@.len() == old(sys).samples@.len(),
            final(sys).services@.len() == old(sys).services@.len(),
            final(sys).now == old(sys).now,
            forall|j: int|
                0 <= j < old(sys).services@.len() && j != self.service_index
                    ==> crate::system::entry_same_but_live(
                    old(sys).services@[j],
                    final(sys).services@[j],
                ),
            !notifier_valid(self, *old(sys)) ==> *final(sys) == *old(sys),
            notifier_valid(self, *old(sys)) && old(sys).services@[self.service_index as int].refs
                <= 1 ==> !final(sys).services@[self.service_index as int].present,
            notifier_valid(self, *old(sys)) && old(sys).services@[self.service_index as int].refs
                > 1 ==> {
                let e = old(sys).services@[self.service_index as int];
                let f = final(sys).services@[self.service_index as int];
                &&& f.notifiers@ == e.notifiers@.update(
                    self.slot as int,
                    crate::system::NotifierSlot { used: false, id: 0 },
                )
                &&& f == (ServiceEntry {
                    refs: (e.refs - 1) as usize,
                    notifiers: f.notifiers,
                    ..e
                })
            },
    {
        let si = self.service_index;
        if si >= sys.services.len() || !sys.services[si].present || !sys.services[si].published
            || sys.services[si].service_id != self.service_id {
            return ;
        }
        let is_event = match sys.services[si].config.messaging_pattern {
            MessagingPattern::Event(_) => true,
            MessagingPattern::PublishSubscribe(_) => false,
        };
        if !is_event || self.slot >= sys.services[si].notifiers.len()
            || !sys.services[si].notifiers[self.slot].used
            || sys.services[si].notifiers[self.slot].id != self.id.value {
            return ;
        }
        sys.services[si].notifiers[self.slot] = crate::system::NotifierSlot { used: false, id: 0 };
        sys.release_service_reference(si, false);
    }
}

/// How one listener slot changes when an event id is delivered: a live
/// listener receives the id once (no duplicate while undrained); a free
/// slot stays untouched.
pub open spec fn listener_delivery(pre: ListenerSlot, post: ListenerSlot, id: usize) -> bool {
    if pre.used {
        &&& post.used
        &&& post.id == pre.id
        &&& post.pending@ == if pre.pending@.contains(id) {
            pre.pending@
        } else {
            pre.pending@.push(id)
        }
        &&& post.pending@.contains(id)
    } else {
        post == pre
    }
}

/// The full contract of a notification: rejected outside the id range,
/// otherwise delivered to every live listener of the service, everything
/// else untouched.
pub open spec fn notify_contract(
    n: Notifier,
    pre: System,
    post: System,
    id: EventId,
    r: Result<usize, NotifierNotifyError>,
) -> bool {
    &&& !notifier_valid(n, pre) ==> r == Err::<usize, NotifierNotifyError>(
        NotifierNotifyError::ServiceGone,
    ) && post == pre
    &&& notifier_valid(n, pre) ==> {
        let e = pre.services@[n.service_index as int];
        let max = e.config.messaging_pattern->Event_0.event_id_max_value;
        &&& id.value > max ==> r == Err::<usize, NotifierNotifyError>(
            NotifierNotifyError::EventIdOutOfBounds,
        ) && post == pre
        &&& id.value <= max ==> {
            let f = post.services@[n.service_index as int];
            &&& r == Ok::<usize, NotifierNotifyError>(
                used_listeners_below(e.listeners@, e.listeners@.len() as int) as usize,
            )
            &&& post.samples@ == pre.samples@
            &&& post.now == pre.now
            &&& post.services@.len() == pre.services@.len()
            &&& forall|j: int|
                0 <= j < pre.services@.len() && j != n.service_index ==> post.services@[j]
                    == pre.services@[j]
            &&& f.listeners@.len() == e.listeners@.len()
            &&& forall|i: int|
                0 <= i < e.listeners@.len() ==> listener_delivery(
                    e.listeners@[i],
                    #[trigger] f.listeners@[i],
                    id.value,
                )
            &&& f == (ServiceEntry { listeners: f.listeners, ..e })
        }
    }
}

impl Listener {
    /// Non-blocking wait: returns one pending event id, or nothing.
    pub fn try_wait_one(&self, sys: &mut System) -> (r: Result<Option<EventId>, ListenerWaitError>)
        requires
            old(sys).wf(),
        ensures
            final(sys).wf(),
            wait_contract(*self, *old(sys), *final(sys), r),
            final(sys).now == old(sys).now,
    {
        let si = self.service_index;
        if si >= sys.services.len() || !sys.services[si].present || !sys.services[si].published
            || sys.services[si].service_id != self.service_id
            || self.slot >= sys.services[si].listeners.len()
            || !sys.services[si].listeners[self.slot].used
            || sys.services[si].listeners[self.slot].id != self.id.value {
            return Err(ListenerWaitError::ServiceGone);
        }
        if sys.services[si].listeners[self.slot].pending.len() == 0 {
            return Ok(None);
        }
        let v = sys.services[si].listeners[self.slot].pending.remove(0);
        proof {
            assert(sys.wf()) by {
                assert forall|i: int|
                    0 <= i < sys.services@.len() implies crate::system::entry_wf(
                    sys.samples@,
                    #[trigger] sys.services@[i],
                ) by {
                    assert(crate::system::entry_wf(old(sys).samples@, old(sys).services@[i]));
                }
            }
        }
        Ok(Some(EventId::new(v)))
    }

    /// Waits up to `timeout` nanoseconds for an event id.  A pending id is
    /// returned at once; otherwise the wait expires, the clock advances by
    /// the timeout, and nothing is returned — an expired timeout is not an
    /// error.
    pub fn timed_wait_one(&self, sys: &mut System, timeout: u64) -> (r: Result<
        Option<EventId>,
        ListenerWaitError,
    >)
        requires
            old(sys).wf(),
        ensures
            final(sys).wf(),
            wait_contract(*self, *old(sys), *final(sys), r),
            r matches Ok(o) && o is None && listener_valid(*self, *old(sys)) ==> final(sys).now
                >= old(sys).now,
    {
        let r = self.try_wait_one(sys);
        match &r {
            Ok(o) => {
                if o.is_none() {
                    sys.advance_clock(timeout);
                }
            },
            Err(_) => {},
        }
        r
    }

    /// Non-blocking drain: returns every pending event id in one call, in
    /// the order they were first delivered, and leaves the queue empty.
    #[verifier::loop_isolation(false)]
    pub fn try_wait_all(&self, sys: &mut System) -> (r: Result<Vec<EventId>, ListenerWaitError>)
        requires
            old(sys).wf(),
        ensures
            final(sys).wf(),
            !listener_valid(*self, *old(sys)) ==> r == Err::<Vec<EventId>, ListenerWaitError>(
                ListenerWaitError::ServiceGone,
            ) && *final(sys) == *old(sys),
            listener_valid(*self, *old(sys)) ==> {
                let e = old(sys).services@[self.service_index as int];
                let q = e.listeners@[self.slot as int].pending@;
                let f = final(sys).services@[self.service_index as int];
                &&& r matches Ok(ids) && ids@.len() == q.len() && (forall|i: int|
                    0 <= i < q.len() ==> (#[trigger] ids@[i]).value == q[i])
                &&& final(sys).samples@ == old(sys).samples@
                &&& final(sys).now == old(sys).now
                &&& final(sys).services@.len() == old(sys).services@.len()
                &&& forall|j: int|
                    0 <= j < old(sys).services@.len() && j != self.service_index
                        ==> final(sys).services@[j] == old(sys).services@[j]
                &&& f.listeners@.len() == e.listeners@.len()
                &&& forall|i: int|
                    0 <= i < e.listeners@.len() && i != self.slot ==> f.listeners@[i]
                        == e.listeners@[i]
                &&& f.listeners@[self.slot as int].pending@.len() == 0
                &&& f.listeners@[self.slot as int].used
                &&& f.listeners@[self.slot as int].id == e.listeners@[self.slot as int].id
                &&& f == (ServiceEntry { listeners: f.listeners, ..e })
            },
    {
        let si = self.service_index;
        if si >= sys.services.len() || !sys.services[si].present || !sys.services[si].published
            || sys.services[si].service_id != self.service_id
            || self.slot >= sys.services[si].listeners.len()
            || !sys.services[si].listeners[self.slot].used
            || sys.services[si].listeners[self.slot].id != self.id.value {
            return Err(ListenerWaitError::ServiceGone);
        }
        let n = sys.services[si].listeners[self.slot].pending.len();
        let mut ids: Vec<EventId> = Vec::new();
        let mut i: usize = 0;
        while i < n
            invariant
                i <= n,
                ids@.len() == i,
                *sys == *old(sys),
                si < sys.services@.len(),
                self.slot < sys.services@[si as int].listeners@.len(),
                n == sys.services@[si as int].listeners@[self.slot as int].pending@.len(),
                forall|j: int|
                    0 <= j < i ==> (#[trigger] ids@[j]).value == sys.services@[si as int].listeners@[self.slot as int].pending@[j],
            decreases n - i,
        {
            let value = sys.services[si].listeners[self.slot].pending[i];
            ids.push(EventId::new(value));
            i += 1;
        }
        sys.services[si].listeners[self.slot].pending = Vec::new();
        proof {
            assert(sys.wf()) by {
                assert forall|j: int|
                    0 <= j < sys.services@.len() implies crate::system::entry_wf(
                    sys.samples@,
                    #[trigger] sys.services@[j],
                ) by {
                    assert(crate::system::entry_wf(old(sys).samples@, old(sys).services@[j]));
                }
            }
        }
        Ok(ids)
    }

    /// Drops the listener: frees its slot, discards its undrained events and
    /// releases its reference on the service state.
    pub fn release(self, sys: &mut System)
        requires
            old(sys).wf(),
        ensures
            final(sys).wf(),
            crate::system::held_samples_intact(old(sys).samples@, final(sys).samples@),
            final(sys).samples@.len() == old(sys).samples@.len(),
            final(sys).services@.len() == old(sys).services@.len(),
            final(sys).now == old(sys).now,
            forall|j: int|
                0 <= j < old(sys).services@.len() && j != self.service_index
                    ==> crate::system::entry_same_but_live(
                    old(sys).services@[j],
                    final(sys).services@[j],
                ),
            !listener_valid(self, *old(sys)) ==> *final(sys) == *old(sys),
            listener_valid(self, *old(sys)) && old(sys).services@[self.service_index as int].refs
                <= 1 ==> !final(sys).services@[self.service_index as int].present,
            listener_valid(self, *old(sys)) && old(sys).services@[self.service_index as int].refs
                > 1 ==> {
                let e = old(sys).services@[self.service_index as int];
                let f = final(sys).services@[self.service_index as int];
                &&& f.listeners@.len() == e.listeners@.len()
                &&& forall|i: int|
                    0 <= i < e.listeners@.len() && i != self.slot ==> f.listeners@[i]
                        == e.listeners@[i]
                &&& !f.listeners@[self.slot as int].used
                &&& f == (ServiceEntry {
                    refs: (e.refs - 1) as usize,
                    listeners: f.listeners,
                    ..e
                })
            },
    {
        let si = self.service_index;
        if si >= sys.services.len() || !sys.services[si].present || !sys.services[si].published
            || sys.services[si].service_id != self.service_id {
            return ;
        }
        let is_event = match sys.services[si].config.messaging_pattern {
            MessagingPattern::Event(_) => true,
            MessagingPattern::PublishSubscribe(_) => false,
        };
        if !is_event || self.slot >= sys.services[si].listeners.len()
            || !sys.services[si].listeners[self.slot].used
            || sys.services[si].listeners[self.slot].id != self.id.value {
            return ;
        }
        sys.services[si].listeners[self.slot] = ListenerSlot {
            used: false,
            id: 0,
            pending: Vec::new(),
        };
        sys.release_service_reference(si, false);
    }
}

/// The full contract of a non-blocking drain: the oldest pending event id
/// leaves the listener's queue; an empty queue yields nothing; everything
/// else stays untouched.
pub open spec fn wait_contract(
    l: Listener,
    pre: System,
    post: System,
    r: Result<Option<EventId>, ListenerWaitError>,
) -> bool {
    &&& !listener_valid(l, pre) ==> r == Err::<Option<EventId>, ListenerWaitError>(
        ListenerWaitError::ServiceGone,
    ) && post == pre
    &&& listener_valid(l, pre) ==> {
        let e = pre.services@[l.service_index as int];
        let q = e.listeners@[l.slot as int].pending@;
        &&& q.len() == 0 ==> r == Ok::<Option<EventId>, ListenerWaitError>(None)
            && post.services@ == pre.services@ && post.samples@ == pre.samples@
        &&& q.len() > 0 ==> {
            let f = post.services@[l.service_index as int];
            &&& r == Ok::<Option<EventId>, ListenerWaitError>(Some(EventId { value: q[0] }))
            &&& post.samples@ == pre.samples@
            &&& post.now == pre.now
            &&& post.services@.len() == pre.services@.len()
            &&& forall|j: int|
                0 <= j < pre.services@.len() && j != l.service_index ==> post.services@[j]
                    == pre.services@[j]
            &&& f.listeners@.len() == e.listeners@.len()
            &&& forall|i: int|
                0 <= i < e.listeners@.len() && i != l.slot ==> f.listeners@[i] == e.listeners@[i]
            &&& f.listeners@[l.slot as int].pending@ == q.remove(0)
            &&& f.listeners@[l.slot as int].used
            &&& f.listeners@[l.slot as int].id == e.listeners@[l.slot as int].id
            &&& f == (ServiceEntry { listeners: f.listeners, ..e })
        }
    }
}

} // verus!
