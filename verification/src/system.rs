//! The shared state of the runtime, made explicit.
//!
//! A [`System`] value models everything the platform substrate holds for the
//! processes of one machine: the named static descriptors with their
//! create-exclusive two-phase publication, the per-service dynamic endpoint
//! tables, the pool of payload slots that samples live in, the monotonic
//! clock, and the process-wide id source.  Every operation of the runtime is
//! a function from one `System` state to the next, so the protocols of the
//! service lifecycle are verified as ordinary code.

use crate::attributes::AttributeSet;
use crate::service_name::ServiceName;
use crate::static_config::{
    listener_capacity, node_capacity, notifier_capacity, publisher_capacity, subscriber_capacity,
    MessagingPattern, StaticConfig,
};
use vstd::prelude::*;

verus! {

/// How long a claimed static descriptor may stay unpublished before the
/// creator is presumed dead, in nanoseconds of the monotonic clock.
pub const DEFAULT_CREATION_TIMEOUT: u64 = 500000000;

/// Lifetime of one payload slot: free for loaning, exclusively owned by a
/// publisher, or sent and immutable.
#[derive(Clone, Copy, Debug, PartialEq, Eq, Structural)]
pub enum SampleState {
    Free,
    Loaned,
    Sent,
}

/// One slot of the payload pool.  `handle_refs` counts the receive handles
/// user code still holds on the slot; the slot returns to the pool only when
/// no queue, no history ring and no handle references it.
#[derive(Clone, Copy, Debug, PartialEq, Eq, Structural)]
pub struct SampleSlot {
    pub state: SampleState,
    pub payload: u64,
    pub origin: u128,
    pub owner_entry: usize,
    pub owner_publisher_slot: usize,
    pub handle_refs: usize,
}

/// One publisher slot of a service's dynamic endpoint table.
#[derive(Clone, Debug)]
pub struct PublisherSlot {
    pub used: bool,
    pub id: u128,
    pub live: usize,
    pub history: Vec<usize>,
}

/// One subscriber slot; `queues` holds one receive buffer per publisher
/// slot of the same service (the single-producer single-consumer buffer of
/// each connection).
#[derive(Clone, Debug)]
pub struct SubscriberSlot {
    pub used: bool,
    pub id: u128,
    pub queues: Vec<Vec<usize>>,
}

/// One notifier slot of an event service.
#[derive(Clone, Copy, Debug, PartialEq, Eq, Structural)]
pub struct NotifierSlot {
    pub used: bool,
    pub id: u128,
}

/// One listener slot; `pending` holds the event ids delivered since the
/// listener last drained, one entry per distinct id (coalescing).
#[derive(Clone, Debug)]
pub struct ListenerSlot {
    pub used: bool,
    pub id: u128,
    pub pending: Vec<usize>,
}

/// One named service: the static descriptor (two-phase: claimed, then
/// published), the dynamic descriptor with its endpoint tables and
/// reference count, and the teardown flags.  Entries are never removed from
/// the registry; a torn-down service keeps its slot with `present == false`,
/// so indices stay stable for the lifetime of the [`System`].
#[derive(Clone, Debug)]
pub struct ServiceEntry {
    /// The static descriptor's name is claimed.
    pub present: bool,
    /// The dynamic descriptor has been allocated (tables are sized).
    pub dynamic: bool,
    /// The static descriptor is unlocked: openers may observe the service.
    pub published: bool,
    /// Teardown has begun; concurrent opens are turned away.
    pub marked_for_destruction: bool,
    /// Clock value at which the static descriptor was claimed.
    pub created_at: u64,
    /// Tag of the serialization format the creator used.
    pub serializer: u64,
    /// Incarnation identifier from the id source.
    pub service_id: u128,
    pub config: StaticConfig,
    /// Live references: one per port factory and one per endpoint.
    pub refs: usize,
    /// Nodes registered in the dynamic node registry.
    pub nodes: usize,
    pub publishers: Vec<PublisherSlot>,
    pub subscribers: Vec<SubscriberSlot>,
    pub notifiers: Vec<NotifierSlot>,
    pub listeners: Vec<ListenerSlot>,
}

/// The whole shared state.
pub struct System {
    pub services: Vec<ServiceEntry>,
    pub samples: Vec<SampleSlot>,
    pub next_id: u128,
    pub now: u64,
    pub creation_timeout: u64,
}

/// What a probe of the static descriptor can report besides a readable
/// service: the availability states shared by every messaging pattern.
#[derive(Clone, Copy, Debug, PartialEq, Eq, Structural)]
pub enum ServiceState {
    IncompatibleMessagingPattern,
    InsufficientPermissions,
    HangsInCreation,
    Corrupted,
    InternalFailure,
}

/// Why claiming a static descriptor failed.
#[derive(Clone, Copy, Debug, PartialEq, Eq, Structural)]
pub enum StaticStorageCreateError {
    /// A published descriptor already carries the name.
    AlreadyExists,
    /// The name is claimed but not yet published: another instance is
    /// creating the service right now.
    Creation,
    /// The process may not create the descriptor.
    InsufficientPermissions,
}

/// Why joining a dynamic descriptor failed.
#[derive(Clone, Copy, Debug, PartialEq, Eq, Structural)]
pub enum OpenDynamicStorageFailure {
    /// The service is in teardown.
    IsMarkedForDestruction,
    /// The node registry is full.
    ExceedsMaxNumberOfNodes,
}

/// A reference-count step that cannot overflow.
pub open spec fn saturating_inc(x: usize) -> usize {
    if x < usize::MAX {
        (x + 1) as usize
    } else {
        x
    }
}

/// Samples that user code still holds a receive handle on keep their slot,
/// their payload and their origin through the operation.
pub open spec fn held_samples_intact(pre: Seq<SampleSlot>, post: Seq<SampleSlot>) -> bool {
    &&& pre.len() <= post.len()
    &&& forall|k: int|
        0 <= k < pre.len() && pre[k].state is Sent && pre[k].handle_refs > 0 ==> {
            &&& (#[trigger] post[k]).state is Sent
            &&& post[k].payload == pre[k].payload
            &&& post[k].origin == pre[k].origin
            &&& post[k].handle_refs >= pre[k].handle_refs
        }
}

/// Ownership robustness: a sample that is still held stays intact through
/// any chain of operations, whatever order the factory, the publishers and
/// the subscribers are dropped in.
pub proof fn lemma_held_samples_intact_compose(
    a: Seq<SampleSlot>,
    b: Seq<SampleSlot>,
    c: Seq<SampleSlot>,
)
    requires
        held_samples_intact(a, b),
        held_samples_intact(b, c),
    ensures
        held_samples_intact(a, c),
{
}

/// The slot index is inside the pool and holds a sent sample.
pub open spec fn slot_sent(samples: Seq<SampleSlot>, k: int) -> bool {
    0 <= k < samples.len() && samples[k].state is Sent
}

/// Whether a receive buffer of this subscriber slot still holds the pool
/// index `k`.
pub open spec fn sub_references(s: SubscriberSlot, k: usize) -> bool {
    exists|q: int| 0 <= q < s.queues@.len() && (#[trigger] s.queues@[q])@.contains(k)
}

/// Whether the history ring of this publisher slot still holds the pool
/// index `k`.
pub open spec fn pub_references(p: PublisherSlot, k: usize) -> bool {
    p.history@.contains(k)
}

/// Whether any buffer or history ring of the service still holds `k`.
pub open spec fn entry_references(e: ServiceEntry, k: usize) -> bool {
    ||| exists|s: int|
        0 <= s < e.subscribers@.len() && sub_references(#[trigger] e.subscribers@[s], k)
    ||| exists|p: int| 0 <= p < e.publishers@.len() && pub_references(#[trigger] e.publishers@[p], k)
}

/// Two publisher slots that differ at most in their pool counter, which
/// can only have shrunk (slots are only ever returned to the pool).
pub open spec fn pub_slot_same_but_live(a: PublisherSlot, b: PublisherSlot) -> bool {
    a.used == b.used && a.id == b.id && a.history == b.history && b.live <= a.live
}

/// Two service entries that differ at most in publisher pool counters.
pub open spec fn entry_same_but_live(a: ServiceEntry, b: ServiceEntry) -> bool {
    &&& a.present == b.present
    &&& a.dynamic == b.dynamic
    &&& a.published == b.published
    &&& a.marked_for_destruction == b.marked_for_destruction
    &&& a.created_at == b.created_at
    &&& a.serializer == b.serializer
    &&& a.service_id == b.service_id
    &&& a.config == b.config
    &&& a.refs == b.refs
    &&& a.nodes == b.nodes
    &&& a.subscribers == b.subscribers
    &&& a.notifiers == b.notifiers
    &&& a.listeners == b.listeners
    &&& a.publishers@.len() == b.publishers@.len()
    &&& forall|p: int|
        0 <= p < a.publishers@.len() ==> pub_slot_same_but_live(
            #[trigger] a.publishers@[p],
            b.publishers@[p],
        )
}

/// Two service registries that differ at most in publisher pool counters.
pub open spec fn services_same_but_live(a: Seq<ServiceEntry>, b: Seq<ServiceEntry>) -> bool {
    a.len() == b.len() && forall|i: int|
        0 <= i < a.len() ==> entry_same_but_live(#[trigger] a[i], b[i])
}

/// Well-formedness survives a pool update at one slot, as long as the slot
/// was not a sent sample some buffer still references.
pub(crate) proof fn lemma_wf_after_slot_update(pre: System, post: System, k: int)
    requires
        pre.wf(),
        post.services@ == pre.services@,
        post.now == pre.now,
        post.samples@.len() == pre.samples@.len(),
        forall|j: int| 0 <= j < pre.samples@.len() && j != k ==> post.samples@[j] == pre.samples@[j],
        k >= 0,
        !slot_sent(pre.samples@, k) || !pre.referenced(k as usize),
    ensures
        post.wf(),
{
    assert forall|i: int|
        0 <= i < post.services@.len() implies entry_wf(
        post.samples@,
        #[trigger] post.services@[i],
    ) by {
        let e = pre.services@[i];
        assert(entry_wf(pre.samples@, e));
        assert forall|p: int|
            0 <= p < e.publishers@.len() implies publisher_slot_wf(
            post.samples@,
            #[trigger] e.publishers@[p],
        ) by {
            assert(publisher_slot_wf(pre.samples@, e.publishers@[p]));
            assert forall|j: int| 0 <= j < e.publishers@[p].history@.len() implies slot_sent(
                post.samples@,
                #[trigger] e.publishers@[p].history@[j] as int,
            ) by {
                assert(slot_sent(pre.samples@, e.publishers@[p].history@[j] as int));
                if e.publishers@[p].history@[j] == k {
                    assert(e.publishers@[p].history@.contains(k as usize));
                    assert(pub_references(e.publishers@[p], k as usize));
                    assert(pre.referenced(k as usize));
                    assert(false);
                }
            }
        }
        assert forall|s: int|
            0 <= s < e.subscribers@.len() implies subscriber_slot_wf(
            post.samples@,
            #[trigger] e.subscribers@[s],
            e.publishers@.len() as int,
        ) by {
            assert(subscriber_slot_wf(pre.samples@, e.subscribers@[s], e.publishers@.len() as int));
            assert forall|q: int, j: int|
                0 <= q < e.subscribers@[s].queues@.len() && 0 <= j < e.subscribers@[
                s].queues@[q]@.len() implies slot_sent(
                post.samples@,
                #[trigger] e.subscribers@[s].queues@[q]@[j] as int,
            ) by {
                assert(slot_sent(pre.samples@, e.subscribers@[s].queues@[q]@[j] as int));
                if e.subscribers@[s].queues@[q]@[j] == k {
                    assert(e.subscribers@[s].queues@[q]@.contains(k as usize));
                    assert(sub_references(e.subscribers@[s], k as usize));
                    assert(pre.referenced(k as usize));
                    assert(false);
                }
            }
        }
    }
}

/// Scans a single buffer for a pool index.
pub(crate) fn buffer_contains(v: &Vec<usize>, k: usize) -> (r: bool)
    ensures
        r == v@.contains(k),
{
    let mut i: usize = 0;
    while i < v.len()
        invariant
            i <= v@.len(),
            forall|j: int| 0 <= j < i ==> v@[j] != k,
        decreases v@.len() - i,
    {
        if v[i] == k {
            return true;
        }
        i += 1;
    }
    false
}

/// Every history entry of the slot points at a sent sample; unused slots
/// hold nothing.
pub open spec fn publisher_slot_wf(samples: Seq<SampleSlot>, p: PublisherSlot) -> bool {
    &&& forall|j: int| 0 <= j < p.history@.len() ==> slot_sent(samples, #[trigger] p.history@[j] as int)
    &&& !p.used ==> p.history@.len() == 0 && p.live == 0
}

/// The slot has one buffer per publisher slot, every queued index points at
/// a sent sample, and unused slots hold nothing.
pub open spec fn subscriber_slot_wf(samples: Seq<SampleSlot>, s: SubscriberSlot, npubs: int) -> bool {
    &&& s.queues@.len() == npubs
    &&& forall|q: int, j: int|
        0 <= q < s.queues@.len() && 0 <= j < s.queues@[q]@.len() ==> slot_sent(
            samples,
            #[trigger] s.queues@[q]@[j] as int,
        )
    &&& !s.used ==> forall|q: int| 0 <= q < s.queues@.len() ==> (#[trigger] s.queues@[q])@.len() == 0
}

/// Table sizes follow the static configuration once the dynamic descriptor
/// exists, and are empty before it exists and after teardown.
pub open spec fn entry_wf(samples: Seq<SampleSlot>, e: ServiceEntry) -> bool {
    &&& e.published ==> e.dynamic && e.present
    &&& e.dynamic ==> {
        &&& e.publishers@.len() == publisher_capacity(e.config.messaging_pattern)
        &&& e.subscribers@.len() == subscriber_capacity(e.config.messaging_pattern)
        &&& e.notifiers@.len() == notifier_capacity(e.config.messaging_pattern)
        &&& e.listeners@.len() == listener_capacity(e.config.messaging_pattern)
    }
    &&& !e.dynamic ==> {
        &&& e.publishers@.len() == 0
        &&& e.subscribers@.len() == 0
        &&& e.notifiers@.len() == 0
        &&& e.listeners@.len() == 0
    }
    &&& forall|p: int|
        0 <= p < e.publishers@.len() ==> publisher_slot_wf(samples, #[trigger] e.publishers@[p])
    &&& forall|s: int|
        0 <= s < e.subscribers@.len() ==> subscriber_slot_wf(
            samples,
            #[trigger] e.subscribers@[s],
            e.publishers@.len() as int,
        )
}

/// The entry is claimed under this name.
pub open spec fn is_present_with_name(e: ServiceEntry, name: Seq<char>) -> bool {
    e.present && e.config.service_name@ == name
}

impl System {
    /// Well-formedness of the whole shared state: every entry is
    /// well-formed against the sample pool, present names are unique, and
    /// nothing was claimed in the future.
    pub open spec fn wf(self) -> bool {
        &&& forall|i: int|
            0 <= i < self.services@.len() ==> entry_wf(self.samples@, #[trigger] self.services@[i])
        &&& forall|i: int, j: int|
            0 <= i < j < self.services@.len() && self.services@[i].present
                && self.services@[j].present ==> (#[trigger] self.services@[i].config.service_name@)
                != (#[trigger] self.services@[j].config.service_name@)
        &&& forall|i: int|
            0 <= i < self.services@.len() ==> (#[trigger] self.services@[i].created_at) <= self.now
    }

    /// Some entry is claimed under this name.
    pub open spec fn has_entry(self, name: Seq<char>) -> bool {
        exists|i: int|
            0 <= i < self.services@.len() && is_present_with_name(#[trigger] self.services@[i], name)
    }

    /// Index of the entry claimed under this name.
    pub open spec fn entry_index(self, name: Seq<char>) -> int {
        choose|i: int|
            0 <= i < self.services@.len() && is_present_with_name(#[trigger] self.services@[i], name)
    }

    /// The claimed entry under this name has stayed unpublished past the
    /// creation timeout: its creator is presumed dead.
    pub open spec fn probe_hung(self, name: Seq<char>) -> bool {
        &&& self.has_entry(name)
        &&& !self.services@[self.entry_index(name)].published
        &&& self.now >= self.services@[self.entry_index(name)].created_at + self.creation_timeout
    }

    /// A published service under this name was written with another
    /// serialization format than the prober uses.
    pub open spec fn probe_corrupted(self, name: Seq<char>, serializer: u64) -> bool {
        &&& self.has_entry(name)
        &&& self.services@[self.entry_index(name)].published
        &&& self.services@[self.entry_index(name)].serializer != serializer
    }

    /// A published, readable service exists under this name.
    pub open spec fn probe_ready(self, name: Seq<char>, serializer: u64) -> bool {
        &&& self.has_entry(name)
        &&& self.services@[self.entry_index(name)].published
        &&& self.services@[self.entry_index(name)].serializer == serializer
    }

    /// A fresh, empty system.
    pub fn new() -> (r: System)
        ensures
            r.wf(),
            r.services@.len() == 0,
            r.samples@.len() == 0,
            r.now == 0,
            r.creation_timeout == DEFAULT_CREATION_TIMEOUT,
    {
        System {
            services: Vec::new(),
            samples: Vec::new(),
            next_id: 1,
            now: 0,
            creation_timeout: DEFAULT_CREATION_TIMEOUT,
        }
    }

    /// Advances the monotonic clock.
    pub fn advance_clock(&mut self, nanos: u64)
        requires
            old(self).wf(),
        ensures
            final(self).wf(),
            final(self).services@ == old(self).services@,
            final(self).samples@ == old(self).samples@,
            final(self).next_id == old(self).next_id,
            final(self).creation_timeout == old(self).creation_timeout,
            final(self).now >= old(self).now,
    {
        self.now = if self.now <= u64::MAX - nanos {
            self.now + nanos
        } else {
            u64::MAX
        };
    }

    /// Mints the next identifier from the process-wide id source.
    pub fn mint_id(&mut self) -> (r: u128)
        requires
            old(self).wf(),
        ensures
            final(self).wf(),
            final(self).services@ == old(self).services@,
            final(self).samples@ == old(self).samples@,
            final(self).now == old(self).now,
            final(self).creation_timeout == old(self).creation_timeout,
            r == old(self).next_id,
    {
        let id = self.next_id;
        self.next_id = if self.next_id < u128::MAX {
            self.next_id + 1
        } else {
            1
        };
        id
    }

    /// Looks up the entry claimed under this name, published or not.
    pub fn find_service(&self, name: &ServiceName) -> (r: Option<usize>)
        ensures
            match r {
                Some(i) => i < self.services@.len() && is_present_with_name(
                    self.services@[i as int],
                    name@,
                ),
                None => !self.has_entry(name@),
            },
            self.wf() && r is Some ==> r == Some(self.entry_index(name@) as usize),
    {
        let mut i: usize = 0;
        while i < self.services.len()
            invariant
                i <= self.services@.len(),
                forall|j: int|
                    0 <= j < i ==> !is_present_with_name(#[trigger] self.services@[j], name@),
            decreases self.services@.len() - i,
        {
            let e = &self.services[i];
            if e.present && e.config.service_name.equals(name) {
                proof {
                    if self.wf() {
                        let w = self.entry_index(name@);
                        assert(is_present_with_name(self.services@[i as int], name@));
                        assert(is_present_with_name(self.services@[w], name@));
                        if w < i as int {
                            assert(self.services@[w].config.service_name@ != self.services@[i as int].config.service_name@);
                        } else if (i as int) < w {
                            assert(self.services@[i as int].config.service_name@ != self.services@[w].config.service_name@);
                        }
                    }
                }
                return Some(i);
            }
            i += 1;
        }
        None
    }

    /// Probes the static descriptor under this name, as every open, create
    /// and open-or-create does first.
    ///
    /// Reports nothing while the name is free or a creation is still within
    /// its timeout (an unpublished descriptor is not yet observable);
    /// `HangsInCreation` once the timeout has passed; `Corrupted` when the
    /// descriptor was written with another serialization format; and the
    /// entry's index when the service is ready.
    pub fn is_service_available(&self, name: &ServiceName, serializer: u64) -> (r: Result<
        Option<usize>,
        ServiceState,
    >)
        requires
            self.wf(),
        ensures
            r matches Ok(Some(i)) ==> self.probe_ready(name@, serializer) && i == self.entry_index(
                name@,
            ),
            self.probe_ready(name@, serializer) ==> r is Ok && (r matches Ok(o) ==> o is Some),
            r == Ok::<Option<usize>, ServiceState>(None) <==> !self.has_entry(name@) || (
            !self.services@[self.entry_index(name@)].published && !self.probe_hung(name@)),
            r == Err::<Option<usize>, ServiceState>(ServiceState::HangsInCreation)
                <==> self.probe_hung(name@),
            r == Err::<Option<usize>, ServiceState>(ServiceState::Corrupted) <==> self.probe_corrupted(
                name@,
                serializer,
            ),
            r is Err ==> r == Err::<Option<usize>, ServiceState>(ServiceState::HangsInCreation) || r
                == Err::<Option<usize>, ServiceState>(ServiceState::Corrupted),
    {
        match self.find_service(name) {
            None => Ok(None),
            Some(i) => {
                let e = &self.services[i];
                proof {
                    assert(self.services@[i as int].created_at <= self.now);
                }
                if !e.published {
                    if self.now - e.created_at >= self.creation_timeout {
                        Err(ServiceState::HangsInCreation)
                    } else {
                        Ok(None)
                    }
                } else if e.serializer != serializer {
                    Err(ServiceState::Corrupted)
                } else {
                    Ok(Some(i))
                }
            },
        }
    }

    /// Claims the static descriptor for a new service: the atomic,
    /// create-exclusive first step of the create protocol.  The descriptor
    /// starts locked (unpublished); openers cannot observe it yet.
    pub fn claim_static_descriptor(&mut self, config: StaticConfig, serializer: u64) -> (r: Result<
        usize,
        StaticStorageCreateError,
    >)
        requires
            old(self).wf(),
        ensures
            final(self).wf(),
            r is Err ==> *final(self) == *old(self),
            r matches Err(e) ==> (e == StaticStorageCreateError::AlreadyExists <==> old(
                self,
            ).has_entry(config.service_name@) && old(self).services@[old(self).entry_index(
                config.service_name@,
            )].published),
            r matches Err(e) ==> (e == StaticStorageCreateError::Creation <==> old(self).has_entry(
                config.service_name@,
            ) && !old(self).services@[old(self).entry_index(config.service_name@)].published),
            r is Err <==> old(self).has_entry(config.service_name@),
            r matches Ok(i) ==> {
                &&& i == old(self).services@.len()
                &&& final(self).services@.len() == old(self).services@.len() + 1
                &&& final(self).services@.subrange(0, i as int) == old(self).services@
                &&& final(self).services@[i as int].present
                &&& !final(self).services@[i as int].published
                &&& !final(self).services@[i as int].dynamic
                &&& !final(self).services@[i as int].marked_for_destruction
                &&& final(self).services@[i as int].created_at == old(self).now
                &&& final(self).services@[i as int].service_id == old(self).next_id
                &&& final(self).services@[i as int].serializer == serializer
                &&& final(self).services@[i as int].config == config
                &&& final(self).services@[i as int].refs == 0
                &&& final(self).services@[i as int].nodes == 0
                &&& final(self).samples@ == old(self).samples@
                &&& final(self).now == old(self).now
                &&& final(self).creation_timeout == old(self).creation_timeout
            },
    {
        match self.find_service(&config.service_name) {
            Some(i) => {
                if self.services[i].published {
                    Err(StaticStorageCreateError::AlreadyExists)
                } else {
                    Err(StaticStorageCreateError::Creation)
                }
            },
            None => {
                let id = self.mint_id();
                let idx = self.services.len();
                self.services.push(
                    ServiceEntry {
                        present: true,
                        dynamic: false,
                        published: false,
                        marked_for_destruction: false,
                        created_at: self.now,
                        serializer,
                        service_id: id,
                        config,
                        refs: 0,
                        nodes: 0,
                        publishers: Vec::new(),
                        subscribers: Vec::new(),
                        notifiers: Vec::new(),
                        listeners: Vec::new(),
                    },
                );
                Ok(idx)
            },
        }
    }

    /// Allocates the dynamic descriptor of a freshly claimed service:
    /// endpoint slot tables sized from the static configuration's
    /// capacities, all slots unused.
    pub fn create_dynamic_descriptor(&mut self, idx: usize)
        requires
            old(self).wf(),
            idx < old(self).services@.len(),
            old(self).services@[idx as int].present,
            !old(self).services@[idx as int].dynamic,
            !old(self).services@[idx as int].published,
        ensures
            final(self).wf(),
            final(self).samples@ == old(self).samples@,
            final(self).now == old(self).now,
            final(self).next_id == old(self).next_id,
            final(self).creation_timeout == old(self).creation_timeout,
            final(self).services@.len() == old(self).services@.len(),
            forall|j: int|
                0 <= j < old(self).services@.len() && j != idx ==> final(self).services@[j] == old(
                    self,
                ).services@[j],
            ({
                let e = final(self).services@[idx as int];
                let o = old(self).services@[idx as int];
                &&& e.present && e.dynamic && !e.published
                &&& e.marked_for_destruction == o.marked_for_destruction
                &&& e.created_at == o.created_at
                &&& e.serializer == o.serializer
                &&& e.service_id == o.service_id
                &&& e.config == o.config
                &&& e.refs == o.refs
                &&& e.nodes == o.nodes
                &&& e.publishers@.len() == publisher_capacity(o.config.messaging_pattern)
                &&& e.subscribers@.len() == subscriber_capacity(o.config.messaging_pattern)
                &&& e.notifiers@.len() == notifier_capacity(o.config.messaging_pattern)
                &&& e.listeners@.len() == listener_capacity(o.config.messaging_pattern)
                &&& forall|p: int| 0 <= p < e.publishers@.len() ==> !(#[trigger] e.publishers@[p]).used
                &&& forall|s: int|
                    0 <= s < e.subscribers@.len() ==> !(#[trigger] e.subscribers@[s]).used
                &&& forall|n: int| 0 <= n < e.notifiers@.len() ==> !(#[trigger] e.notifiers@[n]).used
                &&& forall|l: int| 0 <= l < e.listeners@.len() ==> !(#[trigger] e.listeners@[l]).used
            }),
    {
        let (npubs, nsubs, nnots, nlists) = match self.services[idx].config.messaging_pattern {
            MessagingPattern::PublishSubscribe(c) => (c.max_publishers, c.max_subscribers, 0, 0),
            MessagingPattern::Event(c) => (0, 0, c.max_notifiers, c.max_listeners),
        };

        let mut publishers: Vec<PublisherSlot> = Vec::new();
        while publishers.len() < npubs
            invariant
                publishers@.len() <= npubs,
                forall|p: int|
                    0 <= p < publishers@.len() ==> !(#[trigger] publishers@[p]).used && publishers@[p].history@.len() == 0 && publishers@[p].live == 0,
            decreases npubs - publishers@.len(),
        {
            publishers.push(PublisherSlot { used: false, id: 0, live: 0, history: Vec::new() });
        }

        let mut subscribers: Vec<SubscriberSlot> = Vec::new();
        while subscribers.len() < nsubs
            invariant
                subscribers@.len() <= nsubs,
                forall|s: int|
                    0 <= s < subscribers@.len() ==> !(#[trigger] subscribers@[s]).used
                        && subscribers@[s].queues@.len() == npubs && (forall|q: int|
                        0 <= q < subscribers@[s].queues@.len() ==> (#[trigger] subscribers@[s].queues@[q])@.len() == 0),
            decreases nsubs - subscribers@.len(),
        {
            let mut queues: Vec<Vec<usize>> = Vec::new();
            while queues.len() < npubs
                invariant
                    queues@.len() <= npubs,
                    forall|q: int| 0 <= q < queues@.len() ==> (#[trigger] queues@[q])@.len() == 0,
                decreases npubs - queues@.len(),
            {
                queues.push(Vec::new());
            }
            subscribers.push(SubscriberSlot { used: false, id: 0, queues });
        }

        let mut notifiers: Vec<NotifierSlot> = Vec::new();
        while notifiers.len() < nnots
            invariant
                notifiers@.len() <= nnots,
                forall|n: int| 0 <= n < notifiers@.len() ==> !(#[trigger] notifiers@[n]).used,
            decreases nnots - notifiers@.len(),
        {
            notifiers.push(NotifierSlot { used: false, id: 0 });
        }

        let mut listeners: Vec<ListenerSlot> = Vec::new();
        while listeners.len() < nlists
            invariant
                listeners@.len() <= nlists,
                forall|l: int|
                    0 <= l < listeners@.len() ==> !(#[trigger] listeners@[l]).used && listeners@[l].pending@.len() == 0,
            decreases nlists - listeners@.len(),
        {
            listeners.push(ListenerSlot { used: false, id: 0, pending: Vec::new() });
        }

        self.services[idx].publishers = publishers;
        self.services[idx].subscribers = subscribers;
        self.services[idx].notifiers = notifiers;
        self.services[idx].listeners = listeners;
        self.services[idx].dynamic = true;
    }

    /// Serializes the attribute set into the static descriptor and unlocks
    /// it: from this moment openers observe the service.  The creator's
    /// reference and node registration are recorded.
    pub fn publish_static_descriptor(&mut self, idx: usize, attributes: AttributeSet)
        requires
            old(self).wf(),
            idx < old(self).services@.len(),
            old(self).services@[idx as int].present,
            old(self).services@[idx as int].dynamic,
            !old(self).services@[idx as int].published,
        ensures
            final(self).wf(),
            final(self).samples@ == old(self).samples@,
            final(self).now == old(self).now,
            final(self).next_id == old(self).next_id,
            final(self).creation_timeout == old(self).creation_timeout,
            final(self).services@.len() == old(self).services@.len(),
            forall|j: int|
                0 <= j < old(self).services@.len() && j != idx ==> final(self).services@[j] == old(
                    self,
                ).services@[j],
            ({
                let e = final(self).services@[idx as int];
                let o = old(self).services@[idx as int];
                &&& e.present && e.dynamic && e.published
                &&& e.marked_for_destruction == o.marked_for_destruction
                &&& e.created_at == o.created_at
                &&& e.serializer == o.serializer
                &&& e.service_id == o.service_id
                &&& e.config.service_name@ == o.config.service_name@
                &&& e.config.messaging_pattern == o.config.messaging_pattern
                &&& e.config.attributes == attributes
                &&& e.refs == 1
                &&& e.nodes == 1
                &&& e.publishers@ == o.publishers@
                &&& e.subscribers@ == o.subscribers@
                &&& e.notifiers@ == o.notifiers@
                &&& e.listeners@ == o.listeners@
            }),
    {
        self.services[idx].config.attributes = attributes;
        self.services[idx].refs = 1;
        self.services[idx].nodes = 1;
        self.services[idx].published = true;
    }

    /// Joins the dynamic descriptor of a published service and registers
    /// the opener's node, failing when the service is in teardown or the
    /// node registry is full.
    pub fn join_dynamic_descriptor(&mut self, idx: usize) -> (r: Result<
        (),
        OpenDynamicStorageFailure,
    >)
        requires
            old(self).wf(),
            idx < old(self).services@.len(),
            old(self).services@[idx as int].present,
            old(self).services@[idx as int].published,
        ensures
            final(self).wf(),
            r is Err ==> *final(self) == *old(self),
            r == Err::<(), OpenDynamicStorageFailure>(
                OpenDynamicStorageFailure::IsMarkedForDestruction,
            ) <==> old(self).services@[idx as int].marked_for_destruction,
            r == Err::<(), OpenDynamicStorageFailure>(
                OpenDynamicStorageFailure::ExceedsMaxNumberOfNodes,
            ) <==> !old(self).services@[idx as int].marked_for_destruction && old(
                self,
            ).services@[idx as int].nodes >= node_capacity(
                old(self).services@[idx as int].config.messaging_pattern,
            ),
            r is Ok ==> {
                &&& final(self).samples@ == old(self).samples@
                &&& final(self).now == old(self).now
                &&& final(self).next_id == old(self).next_id
                &&& final(self).creation_timeout == old(self).creation_timeout
                &&& final(self).services@.len() == old(self).services@.len()
                &&& forall|j: int|
                    0 <= j < old(self).services@.len() && j != idx ==> final(self).services@[j]
                        == old(self).services@[j]
                &&& final(self).services@[idx as int] == (ServiceEntry {
                    refs: saturating_inc(old(self).services@[idx as int].refs),
                    nodes: (old(self).services@[idx as int].nodes + 1) as usize,
                    ..old(self).services@[idx as int]
                })
            },
    {
        let max_nodes = match self.services[idx].config.messaging_pattern {
            MessagingPattern::PublishSubscribe(c) => c.max_nodes,
            MessagingPattern::Event(c) => c.max_nodes,
        };
        if self.services[idx].marked_for_destruction {
            return Err(OpenDynamicStorageFailure::IsMarkedForDestruction);
        }
        if self.services[idx].nodes >= max_nodes {
            return Err(OpenDynamicStorageFailure::ExceedsMaxNumberOfNodes);
        }
        proof {
            assert(entry_wf(self.samples@, self.services@[idx as int]));
        }
        let refs = self.services[idx].refs;
        self.services[idx].refs = if refs < usize::MAX {
            refs + 1
        } else {
            refs
        };
        let nodes = self.services[idx].nodes;
        self.services[idx].nodes = nodes + 1;
        Ok(())
    }

    /// Begins teardown of a service: a concurrent open observes
    /// `IsMarkedForDestruction` from this moment on.
    pub fn mark_service_for_destruction(&mut self, idx: usize)
        requires
            old(self).wf(),
            idx < old(self).services@.len(),
        ensures
            final(self).wf(),
            final(self).samples@ == old(self).samples@,
            final(self).now == old(self).now,
            final(self).next_id == old(self).next_id,
            final(self).creation_timeout == old(self).creation_timeout,
            final(self).services@.len() == old(self).services@.len(),
            forall|j: int|
                0 <= j < old(self).services@.len() && j != idx ==> final(self).services@[j] == old(
                    self,
                ).services@[j],
            final(self).services@[idx as int] == (ServiceEntry {
                marked_for_destruction: true,
                ..old(self).services@[idx as int]
            }),
    {
        self.services[idx].marked_for_destruction = true;
    }

    /// Whether some receive buffer or history ring anywhere in the system
    /// still holds the pool index `k`.
    pub open spec fn referenced(self, k: usize) -> bool {
        exists|i: int|
            0 <= i < self.services@.len() && entry_references(#[trigger] self.services@[i], k)
    }

    /// Scans every buffer and history ring for a pool index.
    #[verifier::loop_isolation(false)]
    pub fn is_referenced(&self, k: usize) -> (r: bool)
        ensures
            r == self.referenced(k),
    {
        let mut i: usize = 0;
        while i < self.services.len()
            invariant
                i <= self.services@.len(),
                forall|j: int| 0 <= j < i ==> !entry_references(#[trigger] self.services@[j], k),
            decreases self.services@.len() - i,
        {
            let e = &self.services[i];
            let mut s: usize = 0;
            while s < e.subscribers.len()
                invariant
                    s <= e.subscribers@.len(),
                    forall|j: int|
                        0 <= j < s ==> !sub_references(#[trigger] e.subscribers@[j], k),
                decreases e.subscribers@.len() - s,
            {
                let sub = &e.subscribers[s];
                let mut q: usize = 0;
                while q < sub.queues.len()
                    invariant
                        q <= sub.queues@.len(),
                        forall|j: int| 0 <= j < q ==> !(#[trigger] sub.queues@[j])@.contains(k),
                    decreases sub.queues@.len() - q,
                {
                    if buffer_contains(&sub.queues[q], k) {
                        proof {
                            assert(sub_references(self.services@[i as int].subscribers@[s as int], k));
                            assert(entry_references(self.services@[i as int], k));
                        }
                        return true;
                    }
                    q += 1;
                }
                s += 1;
            }
            let mut p: usize = 0;
            while p < e.publishers.len()
                invariant
                    p <= e.publishers@.len(),
                    forall|j: int| 0 <= j < p ==> !pub_references(#[trigger] e.publishers@[j], k),
                decreases e.publishers@.len() - p,
            {
                if buffer_contains(&e.publishers[p].history, k) {
                    proof {
                        assert(pub_references(self.services@[i as int].publishers@[p as int], k));
                        assert(entry_references(self.services@[i as int], k));
                    }
                    return true;
                }
                p += 1;
            }
            i += 1;
        }
        false
    }

    /// Returns the slot to the pool when nothing references it any more:
    /// no queue, no history ring, no receive handle.  The owning
    /// publisher's pool counter is decremented when that publisher is still
    /// bound to its slot.
    pub fn try_release_slot(&mut self, k: usize)
        requires
            old(self).wf(),
        ensures
            final(self).wf(),
            held_samples_intact(old(self).samples@, final(self).samples@),
            final(self).samples@.len() == old(self).samples@.len(),
            final(self).now == old(self).now,
            final(self).next_id == old(self).next_id,
            final(self).creation_timeout == old(self).creation_timeout,
            services_same_but_live(old(self).services@, final(self).services@),
            forall|j: int|
                0 <= j < old(self).samples@.len() && j != k ==> final(self).samples@[j] == old(
                    self,
                ).samples@[j],
            k < old(self).samples@.len() ==> (if old(self).samples@[k as int].state is Sent && old(
                self,
            ).samples@[k as int].handle_refs == 0 && !old(self).referenced(k) {
                final(self).samples@[k as int].state is Free
            } else {
                final(self).samples@[k as int] == old(self).samples@[k as int]
            }),
    {
        if k >= self.samples.len() {
            return ;
        }
        let slot = self.samples[k];
        let is_sent = match slot.state {
            SampleState::Sent => true,
            _ => false,
        };
        if !is_sent || slot.handle_refs > 0 {
            return ;
        }
        if self.is_referenced(k) {
            return ;
        }
        self.samples[k] = SampleSlot {
            state: SampleState::Free,
            payload: 0,
            origin: 0,
            owner_entry: 0,
            owner_publisher_slot: 0,
            handle_refs: 0,
        };
        proof {
            assert forall|i: int|
                0 <= i < self.services@.len() implies entry_wf(
                self.samples@,
                #[trigger] self.services@[i],
            ) by {
                let e = self.services@[i];
                assert(entry_wf(old(self).samples@, e));
                assert(!entry_references(e, k));
                assert forall|p: int|
                    0 <= p < e.publishers@.len() implies publisher_slot_wf(
                    self.samples@,
                    #[trigger] e.publishers@[p],
                ) by {
                    assert(publisher_slot_wf(old(self).samples@, e.publishers@[p]));
                    assert(!pub_references(e.publishers@[p], k));
                    assert forall|j: int| 0 <= j < e.publishers@[p].history@.len() implies slot_sent(
                        self.samples@,
                        #[trigger] e.publishers@[p].history@[j] as int,
                    ) by {
                        assert(e.publishers@[p].history@[j] != k) by {
                            if e.publishers@[p].history@[j] == k {
                                assert(e.publishers@[p].history@.contains(k));
                            }
                        }
                    }
                }
                assert forall|s: int|
                    0 <= s < e.subscribers@.len() implies subscriber_slot_wf(
                    self.samples@,
                    #[trigger] e.subscribers@[s],
                    e.publishers@.len() as int,
                ) by {
                    assert(subscriber_slot_wf(
                        old(self).samples@,
                        e.subscribers@[s],
                        e.publishers@.len() as int,
                    ));
                    assert(!sub_references(e.subscribers@[s], k));
                    assert forall|q: int, j: int|
                        0 <= q < e.subscribers@[s].queues@.len() && 0 <= j < e.subscribers@[
                        s].queues@[q]@.len() implies slot_sent(
                        self.samples@,
                        #[trigger] e.subscribers@[s].queues@[q]@[j] as int,
                    ) by {
                        assert(e.subscribers@[s].queues@[q]@[j] != k) by {
                            if e.subscribers@[s].queues@[q]@[j] == k {
                                assert(e.subscribers@[s].queues@[q]@.contains(k));
                            }
                        }
                    }
                }
            }
        }
        let oe = slot.owner_entry;
        let op = slot.owner_publisher_slot;
        if oe < self.services.len() {
            if op < self.services[oe].publishers.len() {
                let used = self.services[oe].publishers[op].used;
                let pid = self.services[oe].publishers[op].id;
                let live = self.services[oe].publishers[op].live;
                if used && pid == slot.origin && live > 0 {
                    self.services[oe].publishers[op].live = live - 1;
                }
            }
        }
    }

    /// Tears a service down after its last reference dropped: flips the
    /// dynamic descriptor to marked-for-destruction, clears the endpoint
    /// tables, removes the static descriptor (the name becomes free), frees
    /// the payload slots the service still had on loan, and sweeps the pool
    /// for slots nothing references any more.  Samples that user code still
    /// holds keep their payloads.
    #[verifier::loop_isolation(false)]
    pub fn teardown_service(&mut self, idx: usize)
        requires
            old(self).wf(),
            idx < old(self).services@.len(),
        ensures
            final(self).wf(),
            held_samples_intact(old(self).samples@, final(self).samples@),
            final(self).samples@.len() == old(self).samples@.len(),
            final(self).now == old(self).now,
            final(self).next_id == old(self).next_id,
            final(self).creation_timeout == old(self).creation_timeout,
            final(self).services@.len() == old(self).services@.len(),
            forall|j: int|
                0 <= j < old(self).services@.len() && j != idx ==> entry_same_but_live(
                    old(self).services@[j],
                    final(self).services@[j],
                ),
            !final(self).services@[idx as int].present,
            !final(self).services@[idx as int].dynamic,
            !final(self).services@[idx as int].published,
            final(self).services@[idx as int].marked_for_destruction,
            final(self).services@[idx as int].service_id == old(self).services@[idx as int].service_id,
            final(self).services@[idx as int].config.service_name@ == old(
                self,
            ).services@[idx as int].config.service_name@,
    {
        self.services[idx].marked_for_destruction = true;
        self.services[idx].published = false;
        self.services[idx].present = false;
        self.services[idx].dynamic = false;
        self.services[idx].refs = 0;
        self.services[idx].nodes = 0;
        self.services[idx].publishers = Vec::new();
        self.services[idx].subscribers = Vec::new();
        self.services[idx].notifiers = Vec::new();
        self.services[idx].listeners = Vec::new();

        let ghost mid = *self;
        proof {
            assert(mid.wf());
        }

        let mut k: usize = 0;
        while k < self.samples.len()
            invariant
                self.wf(),
                k <= self.samples@.len(),
                self.services@ == mid.services@,
                self.now == mid.now,
                self.next_id == mid.next_id,
                self.creation_timeout == mid.creation_timeout,
                self.samples@.len() == mid.samples@.len(),
                forall|j: int|
                    0 <= j < mid.samples@.len() && !(mid.samples@[j].state is Loaned) ==> #[trigger] self.samples@[j] == mid.samples@[j],
                forall|j: int|
                    0 <= j < mid.samples@.len() && mid.samples@[j].state is Loaned ==> (
                    #[trigger] self.samples@[j] == mid.samples@[j] || self.samples@[j].state is Free),
            decreases self.samples@.len() - k,
        {
            let st = self.samples[k];
            let is_loaned = match st.state {
                SampleState::Loaned => true,
                _ => false,
            };
            if is_loaned && st.owner_entry == idx {
                let ghost pre = *self;
                self.samples[k] = SampleSlot {
                    state: SampleState::Free,
                    payload: 0,
                    origin: 0,
                    owner_entry: 0,
                    owner_publisher_slot: 0,
                    handle_refs: 0,
                };
                proof {
                    lemma_wf_after_slot_update(pre, *self, k as int);
                }
            }
            k += 1;
        }

        let ghost swept = *self;
        let mut k: usize = 0;
        while k < self.samples.len()
            invariant
                self.wf(),
                k <= self.samples@.len(),
                services_same_but_live(swept.services@, self.services@),
                self.now == swept.now,
                self.next_id == swept.next_id,
                self.creation_timeout == swept.creation_timeout,
                self.samples@.len() == swept.samples@.len(),
                held_samples_intact(swept.samples@, self.samples@),
            decreases self.samples@.len() - k,
        {
            let ghost pre = *self;
            self.try_release_slot(k);
            k += 1;
        }
        proof {
            assert forall|j: int|
                0 <= j < old(self).services@.len() && j != idx implies entry_same_but_live(
                old(self).services@[j],
                self.services@[j],
            ) by {
                assert(entry_same_but_live(swept.services@[j], self.services@[j]));
                assert(old(self).services@[j] == swept.services@[j]);
            }
        }
    }

    /// Releases one reference on a service's dynamic descriptor, as every
    /// endpoint and port factory does when it is dropped; `unregister_node`
    /// additionally removes the holder's node registration.  When the last
    /// reference drops the service is torn down and its name becomes free.
    pub fn release_service_reference(&mut self, idx: usize, unregister_node: bool)
        requires
            old(self).wf(),
            idx < old(self).services@.len(),
        ensures
            final(self).wf(),
            held_samples_intact(old(self).samples@, final(self).samples@),
            final(self).samples@.len() == old(self).samples@.len(),
            final(self).now == old(self).now,
            final(self).next_id == old(self).next_id,
            final(self).creation_timeout == old(self).creation_timeout,
            final(self).services@.len() == old(self).services@.len(),
            forall|j: int|
                0 <= j < old(self).services@.len() && j != idx ==> entry_same_but_live(
                    old(self).services@[j],
                    final(self).services@[j],
                ),
            !old(self).services@[idx as int].present ==> *final(self) == *old(self),
            old(self).services@[idx as int].present && old(self).services@[idx as int].refs > 1
                ==> {
                &&& final(self).samples@ == old(self).samples@
                &&& final(self).services@[idx as int] == (ServiceEntry {
                    refs: (old(self).services@[idx as int].refs - 1) as usize,
                    nodes: if unregister_node && old(self).services@[idx as int].nodes > 0 {
                        (old(self).services@[idx as int].nodes - 1) as usize
                    } else {
                        old(self).services@[idx as int].nodes
                    },
                    ..old(self).services@[idx as int]
                })
            },
            old(self).services@[idx as int].present && old(self).services@[idx as int].refs <= 1
                ==> {
                &&& !final(self).services@[idx as int].present
                &&& !final(self).services@[idx as int].published
                &&& final(self).services@[idx as int].service_id == old(
                    self,
                ).services@[idx as int].service_id
            },
    {
        if !self.services[idx].present {
            return ;
        }
        let refs = self.services[idx].refs;
        if refs > 0 {
            self.services[idx].refs = refs - 1;
        }
        if unregister_node {
            let n = self.services[idx].nodes;
            if n > 0 {
                self.services[idx].nodes = n - 1;
            }
        }
        if self.services[idx].refs == 0 {
            self.teardown_service(idx);
        }
    }
}

} // verus!
