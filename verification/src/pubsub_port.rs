//! Publish/subscribe ports: the factory handed out by a successful open or
//! create, the publisher and subscriber endpoints, and the sample handles.
//!
//! A loaned sample is exclusively owned by its publisher until it is sent or
//! dropped; a sent sample is immutable and referenced by receive buffers,
//! history rings and receive handles; the payload slot returns to the
//! publisher's pool only when nothing references it any more.

use crate::header::Header;
use crate::port_identifiers::{UniquePublisherId, UniqueSubscriberId};
use crate::static_config::{MessagingPattern, PublishSubscribeConfig};
use crate::system::{
    entry_wf, held_samples_intact, publisher_slot_wf, saturating_inc, slot_sent, subscriber_slot_wf,
    PublisherSlot, SampleSlot, SampleState, ServiceEntry, SubscriberSlot, System,
};
use vstd::prelude::*;

verus! {

/// Extra loanable slots beyond the history ring and the receive buffers.
pub const LOAN_POOL_SLACK: usize = 2;

/// Why building a publisher failed.
#[derive(Clone, Copy, Debug, PartialEq, Eq, Structural)]
pub enum PublisherCreateError {
    /// All publisher slots of the service are taken.
    ExceedsMaxSupportedPublishers,
    /// The handle no longer points at a live publish/subscribe service.
    ServiceGone,
}

/// Why building a subscriber failed.
#[derive(Clone, Copy, Debug, PartialEq, Eq, Structural)]
pub enum SubscriberCreateError {
    /// All subscriber slots of the service are taken.
    ExceedsMaxSupportedSubscribers,
    /// The handle no longer points at a live publish/subscribe service.
    ServiceGone,
}

/// Why loaning a sample failed.
#[derive(Clone, Copy, Debug, PartialEq, Eq, Structural)]
pub enum LoanError {
    /// The publisher's payload pool is exhausted: too many samples are
    /// loaned or still referenced.
    ExceedsMaxLoanedSamples,
    /// The handle no longer points at a live publish/subscribe service.
    ServiceGone,
}

/// Why a send failed.
#[derive(Clone, Copy, Debug, PartialEq, Eq, Structural)]
pub enum SendError {
    /// The sample or port handle does not belong to a live connection.
    ConnectionCorrupted,
    /// A receive buffer was full and safe overflow is disabled.  Deliveries
    /// to the other subscribers are not rolled back.
    ReceiverBufferFullAndOverflowDisabled,
    /// The publisher's payload pool is exhausted.
    LoanedPoolExhausted,
}

/// Why a receive failed; an empty buffer is not an error.
#[derive(Clone, Copy, Debug, PartialEq, Eq, Structural)]
pub enum ReceiveError {
    /// The port handle does not belong to a live connection.
    ConnectionCorrupted,
}

/// The handle returned by a successful open or create of a
/// publish/subscribe service.  It owns one reference on the service state;
/// dropping the factory does not tear the service down while endpoints or
/// samples are live.
#[derive(Clone, Copy, Debug, PartialEq, Eq, Structural)]
pub struct PublishSubscribeFactory {
    pub service_index: usize,
    pub service_id: u128,
}

/// The factory still points at the live incarnation of a publish/subscribe
/// service.
pub open spec fn pubsub_factory_valid(f: PublishSubscribeFactory, sys: System) -> bool {
    &&& f.service_index < sys.services@.len()
    &&& sys.services@[f.service_index as int].present
    &&& sys.services@[f.service_index as int].published
    &&& sys.services@[f.service_index as int].service_id == f.service_id
    &&& sys.services@[f.service_index as int].config.messaging_pattern is PublishSubscribe
}

/// A publisher endpoint.
#[derive(Clone, Copy, Debug, PartialEq, Eq, Structural)]
pub struct Publisher {
    pub service_index: usize,
    pub service_id: u128,
    pub slot: usize,
    pub port_id: UniquePublisherId,
}

/// The publisher is still bound to its slot in the live service.
pub open spec fn publisher_valid(p: Publisher, sys: System) -> bool {
    &&& p.service_index < sys.services@.len()
    &&& sys.services@[p.service_index as int].present
    &&& sys.services@[p.service_index as int].published
    &&& sys.services@[p.service_index as int].service_id == p.service_id
    &&& sys.services@[p.service_index as int].config.messaging_pattern is PublishSubscribe
    &&& p.slot < sys.services@[p.service_index as int].publishers@.len()
    &&& sys.services@[p.service_index as int].publishers@[p.slot as int].used
    &&& sys.services@[p.service_index as int].publishers@[p.slot as int].id == p.port_id.value
}

/// A subscriber endpoint.
#[derive(Clone, Copy, Debug, PartialEq, Eq, Structural)]
pub struct Subscriber {
    pub service_index: usize,
    pub service_id: u128,
    pub slot: usize,
    pub port_id: UniqueSubscriberId,
}

/// The subscriber is still bound to its slot in the live service.
pub open spec fn subscriber_valid(s: Subscriber, sys: System) -> bool {
    &&& s.service_index < sys.services@.len()
    &&& sys.services@[s.service_index as int].present
    &&& sys.services@[s.service_index as int].published
    &&& sys.services@[s.service_index as int].service_id == s.service_id
    &&& sys.services@[s.service_index as int].config.messaging_pattern is PublishSubscribe
    &&& s.slot < sys.services@[s.service_index as int].subscribers@.len()
    &&& sys.services@[s.service_index as int].subscribers@[s.slot as int].used
    &&& sys.services@[s.service_index as int].subscribers@[s.slot as int].id == s.port_id.value
}

/// An exclusively owned, loaned sample: writable until it is sent.
#[derive(Debug)]
pub struct SampleMut {
    pub slot: usize,
    pub service_index: usize,
    pub publisher_slot: usize,
}

/// The loaned sample still belongs to this publisher.
pub open spec fn sample_mut_valid(s: SampleMut, p: Publisher, sys: System) -> bool {
    &&& s.service_index == p.service_index
    &&& s.publisher_slot == p.slot
    &&& s.slot < sys.samples@.len()
    &&& sys.samples@[s.slot as int].state is Loaned
    &&& sys.samples@[s.slot as int].origin == p.port_id.value
    &&& sys.samples@[s.slot as int].owner_entry == p.service_index
    &&& sys.samples@[s.slot as int].owner_publisher_slot == p.slot
}

/// A received sample: an immutable view of a sent payload, alive until
/// released.
#[derive(Debug)]
pub struct Sample {
    pub slot: usize,
    pub header: Header,
}

/// The receive handle still holds its payload slot.
pub open spec fn sample_valid(s: Sample, sys: System) -> bool {
    &&& s.slot < sys.samples@.len()
    &&& sys.samples@[s.slot as int].state is Sent
    &&& sys.samples@[s.slot as int].handle_refs > 0
    &&& sys.samples@[s.slot as int].origin == s.header.publisher_port_id.value
}

/// Well-formedness survives growing the pool by one slot.
proof fn lemma_wf_after_pool_grow(pre: System, post: System)
    requires
        pre.wf(),
        post.services@ == pre.services@,
        post.now == pre.now,
        pre.samples@.len() <= post.samples@.len(),
        forall|j: int| 0 <= j < pre.samples@.len() ==> post.samples@[j] == pre.samples@[j],
    ensures
        post.wf(),
{
    assert forall|i: int|
        0 <= i < post.services@.len() implies entry_wf(
        post.samples@,
        #[trigger] post.services@[i],
    ) by {
        let e = pre.services@[i];
        assert(entry_wf(pre.samples@, e));
        assert forall|p: int|
            0 <= p < e.publishers@.len() implies publisher_slot_wf(
            post.samples@,
            #[trigger] e.publishers@[p],
        ) by {
            assert(publisher_slot_wf(pre.samples@, e.publishers@[p]));
            assert forall|j: int| 0 <= j < e.publishers@[p].history@.len() implies slot_sent(
                post.samples@,
                #[trigger] e.publishers@[p].history@[j] as int,
            ) by {
                assert(slot_sent(pre.samples@, e.publishers@[p].history@[j] as int));
            }
        }
        assert forall|s: int|
            0 <= s < e.subscribers@.len() implies subscriber_slot_wf(
            post.samples@,
            #[trigger] e.subscribers@[s],
            e.publishers@.len() as int,
        ) by {
            assert(subscriber_slot_wf(pre.samples@, e.subscribers@[s], e.publishers@.len() as int));
            assert forall|q: int, j: int|
                0 <= q < e.subscribers@[s].queues@.len() && 0 <= j < e.subscribers@[
                s].queues@[q]@.len() implies slot_sent(
                post.samples@,
                #[trigger] e.subscribers@[s].queues@[q]@[j] as int,
            ) by {
                assert(slot_sent(pre.samples@, e.subscribers@[s].queues@[q]@[j] as int));
            }
        }
    }
}

/// Well-formedness survives a pool update at one slot whose new state is a
/// sent sample.
proof fn lemma_wf_after_sent_update(pre: System, post: System, k: int)
    requires
        pre.wf(),
        post.services@ == pre.services@,
        post.now == pre.now,
        post.samples@.len() == pre.samples@.len(),
        forall|j: int| 0 <= j < pre.samples@.len() && j != k ==> post.samples@[j] == pre.samples@[j],
        0 <= k < post.samples@.len(),
        post.samples@[k].state is Sent,
    ensures
        post.wf(),
{
    assert forall|i: int|
        0 <= i < post.services@.len() implies entry_wf(
        post.samples@,
        #[trigger] post.services@[i],
    ) by {
        let e = pre.services@[i];
        assert(entry_wf(pre.samples@, e));
        assert forall|p: int|
            0 <= p < e.publishers@.len() implies publisher_slot_wf(
            post.samples@,
            #[trigger] e.publishers@[p],
        ) by {
            assert(publisher_slot_wf(pre.samples@, e.publishers@[p]));
            assert forall|j: int| 0 <= j < e.publishers@[p].history@.len() implies slot_sent(
                post.samples@,
                #[trigger] e.publishers@[p].history@[j] as int,
            ) by {
                assert(slot_sent(pre.samples@, e.publishers@[p].history@[j] as int));
            }
        }
        assert forall|s: int|
            0 <= s < e.subscribers@.len() implies subscriber_slot_wf(
            post.samples@,
            #[trigger] e.subscribers@[s],
            e.publishers@.len() as int,
        ) by {
            assert(subscriber_slot_wf(pre.samples@, e.subscribers@[s], e.publishers@.len() as int));
            assert forall|q: int, j: int|
                0 <= q < e.subscribers@[s].queues@.len() && 0 <= j < e.subscribers@[
                s].queues@[q]@.len() implies slot_sent(
                post.samples@,
                #[trigger] e.subscribers@[s].queues@[q]@[j] as int,
            ) by {
                assert(slot_sent(pre.samples@, e.subscribers@[s].queues@[q]@[j] as int));
            }
        }
    }
}

/// Builder for a publisher endpoint.
#[derive(Clone, Copy, Debug, PartialEq, Eq, Structural)]
pub struct PortFactoryPublisher {
    pub factory: PublishSubscribeFactory,
}

/// Builder for a subscriber endpoint.
#[derive(Clone, Copy, Debug, PartialEq, Eq, Structural)]
pub struct PortFactorySubscriber {
    pub factory: PublishSubscribeFactory,
}

impl PublishSubscribeFactory {
    /// Starts building a publisher endpoint.
    pub fn publisher_builder(&self) -> (r: PortFactoryPublisher)
        ensures
            r.factory == *self,
    {
        PortFactoryPublisher { factory: *self }
    }

    /// Starts building a subscriber endpoint.
    pub fn subscriber_builder(&self) -> (r: PortFactorySubscriber)
        ensures
            r.factory == *self,
    {
        PortFactorySubscriber { factory: *self }
    }

    /// Drops the factory: releases its reference on the service state and
    /// its node registration.  Samples and endpoints keep the service alive.
    pub fn release(self, sys: &mut System)
        requires
            old(sys).wf(),
        ensures
            final(sys).wf(),
            held_samples_intact(old(sys).samples@, final(sys).samples@),
            final(sys).samples@.len() == old(sys).samples@.len(),
            final(sys).services@.len() == old(sys).services@.len(),
            final(sys).now == old(sys).now,
            forall|j: int|
                0 <= j < old(sys).services@.len() && j != self.service_index
                    ==> crate::system::entry_same_but_live(
                    old(sys).services@[j],
                    final(sys).services@[j],
                ),
            !pubsub_factory_valid(self, *old(sys)) ==> *final(sys) == *old(sys),
            ({
                let e = old(sys).services@[self.service_index as int];
                let f = final(sys).services@[self.service_index as int];
                &&& pubsub_factory_valid(self, *old(sys)) && e.refs > 1 ==> f == (ServiceEntry {
                    refs: (e.refs - 1) as usize,
                    nodes: if e.nodes > 0 {
                        (e.nodes - 1) as usize
                    } else {
                        0
                    },
                    ..e
                })
                &&& pubsub_factory_valid(self, *old(sys)) && e.refs <= 1 ==> !f.present
            }),
    {
        if self.service_index >= sys.services.len() {
            return ;
        }
        if !sys.services[self.service_index].present
            || !sys.services[self.service_index].published {
            return ;
        }
        if sys.services[self.service_index].service_id != self.service_id {
            return ;
        }
        let is_pubsub = match sys.services[self.service_index].config.messaging_pattern {
            MessagingPattern::PublishSubscribe(_) => true,
            MessagingPattern::Event(_) => false,
        };
        if !is_pubsub {
            return ;
        }
        sys.release_service_reference(self.service_index, true);
    }
}

/// How one receive buffer changes when a sample is delivered: appended when
/// there is room; the oldest dropped in its favour under safe overflow;
/// unchanged otherwise.
pub open spec fn queue_after_send(q: Seq<usize>, k: usize, cap: int, overflow: bool) -> Seq<usize> {
    if q.len() < cap {
        q.push(k)
    } else if overflow && cap > 0 {
        q.subrange(1, q.len() as int).push(k)
    } else {
        q
    }
}

/// Whether this subscriber slot accepts a delivery.
pub open spec fn accepts(s: SubscriberSlot, p: int, cap: int, overflow: bool) -> bool {
    s.used && (s.queues@[p]@.len() < cap || (overflow && cap > 0))
}

/// Number of subscriber slots among the first `i` that accept a delivery.
pub open spec fn accepted_below(
    subs: Seq<SubscriberSlot>,
    p: int,
    cap: int,
    overflow: bool,
    i: int,
) -> int
    decreases i,
{
    if i <= 0 {
        0
    } else {
        accepted_below(subs, p, cap, overflow, i - 1) + if accepts(subs[i - 1], p, cap, overflow) {
            1int
        } else {
            0int
        }
    }
}

/// Per-pair FIFO, end to end: on a single-publisher service whose
/// subscriber starts with an empty buffer of depth at least two, two
/// successful sends followed by two receives hand the subscriber exactly
/// the two sent samples, in send order, each still carrying the payload its
/// publisher wrote.  The chain is driven purely through the contracts of
/// `send` and `receive`.
pub proof fn lemma_sends_are_received_in_order(
    p: Publisher,
    sub: Subscriber,
    m1: SampleMut,
    m2: SampleMut,
    s0: System,
    s1: System,
    s2: System,
    s3: System,
    s4: System,
    r1: Result<usize, SendError>,
    r2: Result<usize, SendError>,
    rr1: Result<Option<Sample>, ReceiveError>,
    rr2: Result<Option<Sample>, ReceiveError>,
)
    requires
        s0.wf() && s1.wf() && s2.wf() && s3.wf() && s4.wf(),
        publisher_valid(p, s0),
        subscriber_valid(sub, s0),
        sub.service_index == p.service_index,
        s0.services@[p.service_index as int].publishers@.len() == 1,
        s0.services@[p.service_index as int].subscribers@[sub.slot as int].queues@[0]@.len() == 0,
        s0.services@[p.service_index as int].config.messaging_pattern->PublishSubscribe_0.subscriber_max_buffer_size
            >= 2,
        sample_mut_valid(m1, p, s0),
        send_contract(p, m1, s0, s1, r1),
        r1 is Ok,
        sample_mut_valid(m2, p, s1),
        send_contract(p, m2, s1, s2, r2),
        r2 is Ok,
        receive_contract(sub, s2, s3, rr1),
        receive_contract(sub, s3, s4, rr2),
    ensures
        rr1 matches Ok(o1) && o1 matches Some(x) && x.slot == m1.slot,
        rr2 matches Ok(o2) && o2 matches Some(y) && y.slot == m2.slot,
        rr1 matches Ok(o1) && o1 matches Some(x) && s4.samples@[x.slot as int].payload
            == s0.samples@[m1.slot as int].payload,
        rr2 matches Ok(o2) && o2 matches Some(y) && s4.samples@[y.slot as int].payload
            == s1.samples@[m2.slot as int].payload,
{
    let si = p.service_index as int;
    let ss = sub.slot as int;
    let k1 = m1.slot;
    let k2 = m2.slot;
    let e0 = s0.services@[si];
    let e1 = s1.services@[si];
    let e2 = s2.services@[si];
    let e3 = s3.services@[si];
    let c = e0.config.messaging_pattern->PublishSubscribe_0;
    let cap = c.subscriber_max_buffer_size as int;
    let ovf = c.enable_safe_overflow;
    assert(p.slot == 0);

    // first send: the buffer holds exactly the first sample
    assert(e0.subscribers@[ss].used);
    assert(e1.subscribers@[ss].queues@[0]@ == queue_after_send(
        e0.subscribers@[ss].queues@[0]@,
        k1,
        cap,
        ovf,
    ));
    assert(e1.subscribers@[ss].queues@[0]@ =~= seq![k1]);
    assert(publisher_valid(p, s1));
    assert(subscriber_valid(sub, s1));
    // the second sample is loaned, so it is a different slot
    assert(crate::system::entry_wf(s1.samples@, e1));
    assert(crate::system::subscriber_slot_wf(s1.samples@, e1.subscribers@[ss], 1));
    assert(crate::system::slot_sent(s1.samples@, e1.subscribers@[ss].queues@[0]@[0] as int));
    assert(k1 != k2);

    // second send: the buffer holds both, in send order
    assert(e2.subscribers@[ss].queues@[0]@ == queue_after_send(seq![k1], k2, cap, ovf));
    assert(e2.subscribers@[ss].queues@[0]@ =~= seq![k1, k2]);
    assert(subscriber_valid(sub, s2));
    assert(crate::system::entry_wf(s2.samples@, e2));
    assert(crate::system::subscriber_slot_wf(s2.samples@, e2.subscribers@[ss], 1));
    assert(crate::system::slot_sent(s2.samples@, e2.subscribers@[ss].queues@[0]@[0] as int));
    assert(crate::system::slot_sent(s2.samples@, e2.subscribers@[ss].queues@[0]@[1] as int));
    // the first sample's payload survived the second send
    assert(s1.samples@[k1 as int].payload == s0.samples@[k1 as int].payload);
    assert(s2.samples@[k1 as int].payload == s1.samples@[k1 as int].payload);
    assert(s2.samples@[k2 as int].payload == s1.samples@[k2 as int].payload);

    // first receive: the front of the only connection is the first sample
    let qs2 = e2.subscribers@[ss].queues@;
    assert(qs2.len() == 1);
    assert(next_queue_from(qs2, 0) == 0);
    assert(rr1 matches Ok(o1) && o1 matches Some(x) && x.slot == k1);
    assert(e3.subscribers@[ss].queues@[0]@ == qs2[0]@.remove(0));
    assert(e3.subscribers@[ss].queues@[0]@ =~= seq![k2]);
    assert(s3.samples@[k1 as int].payload == s2.samples@[k1 as int].payload);
    assert(s3.samples@[k2 as int].payload == s2.samples@[k2 as int].payload);
    assert(subscriber_valid(sub, s3));

    // second receive: the remaining sample follows
    let qs3 = e3.subscribers@[ss].queues@;
    assert(qs3.len() == 1);
    assert(next_queue_from(qs3, 0) == 0);
    assert(rr2 matches Ok(o2) && o2 matches Some(y) && y.slot == k2);
    assert(s4.samples@[k1 as int].payload == s3.samples@[k1 as int].payload);
    assert(s4.samples@[k2 as int].payload == s3.samples@[k2 as int].payload);
}

/// Per-pair FIFO: samples enqueued by consecutive sends on one connection
/// stand in the buffer in send order, so the subscriber, which always takes
/// the front, observes them in the order the publisher sent them.
pub proof fn lemma_per_pair_fifo(q: Seq<usize>, a: usize, b: usize, cap: int, overflow: bool)
    requires
        q.len() + 2 <= cap,
    ensures
        ({
            let q2 = queue_after_send(queue_after_send(q, a, cap, overflow), b, cap, overflow);
            &&& q2.len() == q.len() + 2
            &&& q2[q.len() as int] == a
            &&& q2[q.len() as int + 1] == b
            &&& q2.subrange(0, q.len() as int) == q
        }),
{
    let q2 = queue_after_send(queue_after_send(q, a, cap, overflow), b, cap, overflow);
    assert(q2.subrange(0, q.len() as int) =~= q);
}

/// Whether one of the first `i` subscriber slots is live with a full buffer
/// that no overflow policy can make room in.
pub open spec fn full_buffer_below(
    subs: Seq<SubscriberSlot>,
    p: int,
    cap: int,
    overflow: bool,
    i: int,
) -> bool
    decreases i,
{
    if i <= 0 {
        false
    } else {
        full_buffer_below(subs, p, cap, overflow, i - 1) || (subs[i - 1].used && subs[i
            - 1].queues@[p]@.len() >= cap && !(overflow && cap > 0))
    }
}

/// The recursive full-buffer check agrees with its existential reading.
proof fn lemma_full_buffer_below_equiv(
    subs: Seq<SubscriberSlot>,
    p: int,
    cap: int,
    overflow: bool,
    i: int,
)
    requires
        0 <= i <= subs.len(),
    ensures
        full_buffer_below(subs, p, cap, overflow, i) <==> exists|s: int|
            0 <= s < i && (#[trigger] subs[s]).used && subs[s].queues@[p]@.len() >= cap && !(
            overflow && cap > 0),
    decreases i,
{
    if i > 0 {
        lemma_full_buffer_below_equiv(subs, p, cap, overflow, i - 1);
    }
}

/// How the history ring changes when a sample is sent.
pub open spec fn history_after_send(h: Seq<usize>, k: usize, cap: int) -> Seq<usize> {
    if cap <= 0 {
        h
    } else if h.len() >= cap {
        h.subrange(1, h.len() as int).push(k)
    } else {
        h.push(k)
    }
}

/// Sent samples are immutable: whatever an operation does, a slot that was
/// a sent sample before and after keeps its payload and origin.
pub open spec fn sent_samples_stable(pre: Seq<SampleSlot>, post: Seq<SampleSlot>) -> bool {
    forall|j: int|
        0 <= j < pre.len() && j < post.len() && pre[j].state is Sent && (#[trigger] post[j]).state
            is Sent ==> post[j].payload == pre[j].payload && post[j].origin == pre[j].origin
}

/// The full contract of a send: rejected on a dead connection; otherwise
/// the sample is delivered to every connected receive buffer under the
/// buffer and overflow policy, recorded in the history ring, and the send
/// reports how many subscribers accepted it — or the overflow error, with
/// successful deliveries not rolled back.
pub open spec fn send_contract(
    p: Publisher,
    m: SampleMut,
    pre: System,
    post: System,
    r: Result<usize, SendError>,
) -> bool {
    &&& !(publisher_valid(p, pre) && sample_mut_valid(m, p, pre)) ==> r == Err::<usize, SendError>(
        SendError::ConnectionCorrupted,
    ) && post == pre
    &&& publisher_valid(p, pre) && sample_mut_valid(m, p, pre) ==> {
        let e = pre.services@[p.service_index as int];
        let c = e.config.messaging_pattern->PublishSubscribe_0;
        let cap = c.subscriber_max_buffer_size as int;
        let ovf = c.enable_safe_overflow;
        let k = m.slot;
        let f = post.services@[p.service_index as int];
        &&& post.now == pre.now
        &&& post.services@.len() == pre.services@.len()
        &&& post.samples@.len() == pre.samples@.len()
        &&& held_samples_intact(pre.samples@, post.samples@)
        &&& sent_samples_stable(pre.samples@, post.samples@)
        &&& (r == Err::<usize, SendError>(SendError::ReceiverBufferFullAndOverflowDisabled) <==> !ovf
            && exists|s: int|
            0 <= s < e.subscribers@.len() && (#[trigger] e.subscribers@[s]).used && e.subscribers@[s].queues@[p.slot as int]@.len() >= cap)
        &&& r is Ok ==> r == Ok::<usize, SendError>(
            accepted_below(
                e.subscribers@,
                p.slot as int,
                cap,
                ovf,
                e.subscribers@.len() as int,
            ) as usize,
        )
        &&& (r is Ok || r == Err::<usize, SendError>(
            SendError::ReceiverBufferFullAndOverflowDisabled,
        ))
        &&& f.subscribers@.len() == e.subscribers@.len()
        &&& forall|s: int|
            0 <= s < e.subscribers@.len() && (#[trigger] e.subscribers@[s]).used ==> {
                &&& f.subscribers@[s].used
                &&& f.subscribers@[s].id == e.subscribers@[s].id
                &&& f.subscribers@[s].queues@.len() == e.subscribers@[s].queues@.len()
                &&& f.subscribers@[s].queues@[p.slot as int]@ == queue_after_send(
                    e.subscribers@[s].queues@[p.slot as int]@,
                    k,
                    cap,
                    ovf,
                )
                &&& forall|q: int|
                    0 <= q < e.subscribers@[s].queues@.len() && q != p.slot
                        ==> #[trigger] f.subscribers@[s].queues@[q] == e.subscribers@[s].queues@[q]
            }
        &&& forall|s: int|
            0 <= s < e.subscribers@.len() && !(#[trigger] e.subscribers@[s]).used
                ==> f.subscribers@[s] == e.subscribers@[s]
        &&& f.publishers@.len() == e.publishers@.len()
        &&& f.publishers@[p.slot as int].history@ == history_after_send(
            e.publishers@[p.slot as int].history@,
            k,
            c.history_size as int,
        )
        &&& f.publishers@[p.slot as int].used
        &&& f.publishers@[p.slot as int].id == e.publishers@[p.slot as int].id
        &&& f.publishers@[p.slot as int].live <= e.publishers@[p.slot as int].live
        &&& forall|i: int|
            0 <= i < e.publishers@.len() && i != p.slot
                ==> crate::system::pub_slot_same_but_live(
                #[trigger] e.publishers@[i],
                f.publishers@[i],
            )
        &&& (post.samples@[k as int].state is Sent || post.samples@[k as int].state is Free)
        &&& post.samples@[k as int].state is Sent ==> {
            &&& post.samples@[k as int].payload == pre.samples@[k as int].payload
            &&& post.samples@[k as int].origin == p.port_id.value
            &&& post.samples@[k as int].handle_refs == 0
        }
        &&& forall|j: int|
            0 <= j < pre.services@.len() && j != p.service_index
                ==> crate::system::entry_same_but_live(pre.services@[j], post.services@[j])
        &&& f == (ServiceEntry { publishers: f.publishers, subscribers: f.subscribers, ..e })
    }
}

impl PortFactoryPublisher {
    /// Binds a free publisher slot in the service's dynamic descriptor and
    /// mints the port's unique id.  Fails when every slot is taken.
    pub fn create(&self, sys: &mut System) -> (r: Result<Publisher, PublisherCreateError>)
        requires
            old(sys).wf(),
        ensures
            final(sys).wf(),
            final(sys).samples@ == old(sys).samples@,
            final(sys).services@.len() == old(sys).services@.len(),
            final(sys).now == old(sys).now,
            !pubsub_factory_valid(self.factory, *old(sys)) ==> r == Err::<
                Publisher,
                PublisherCreateError,
            >(PublisherCreateError::ServiceGone) && *final(sys) == *old(sys),
            pubsub_factory_valid(self.factory, *old(sys)) ==> {
                let e = old(sys).services@[self.factory.service_index as int];
                &&& (r == Err::<Publisher, PublisherCreateError>(
                    PublisherCreateError::ExceedsMaxSupportedPublishers,
                ) <==> forall|i: int|
                    0 <= i < e.publishers@.len() ==> (#[trigger] e.publishers@[i]).used)
                &&& (r is Ok || r == Err::<Publisher, PublisherCreateError>(
                    PublisherCreateError::ExceedsMaxSupportedPublishers,
                ))
                &&& r is Err ==> *final(sys) == *old(sys)
                &&& r matches Ok(p) ==> {
                    let f = final(sys).services@[self.factory.service_index as int];
                    &&& publisher_valid(p, *final(sys))
                    &&& p.service_index == self.factory.service_index
                    &&& p.service_id == self.factory.service_id
                    &&& p.slot < e.publishers@.len()
                    &&& !e.publishers@[p.slot as int].used
                    &&& forall|j: int|
                        0 <= j < old(sys).services@.len() && j != self.factory.service_index
                            ==> final(sys).services@[j] == old(sys).services@[j]
                    &&& f.publishers@.len() == e.publishers@.len()
                    &&& forall|i: int|
                        0 <= i < e.publishers@.len() && i != p.slot ==> f.publishers@[i]
                            == e.publishers@[i]
                    &&& f.publishers@[p.slot as int].used
                    &&& f.publishers@[p.slot as int].id == p.port_id.value
                    &&& f.publishers@[p.slot as int].history@.len() == 0
                    &&& f.publishers@[p.slot as int].live == 0
                    &&& f == (ServiceEntry {
                        refs: saturating_inc(e.refs),
                        publishers: f.publishers,
                        ..e
                    })
                }
            },
    {
        let fi = self.factory.service_index;
        if fi >= sys.services.len() || !sys.services[fi].present || !sys.services[fi].published
            || sys.services[fi].service_id != self.factory.service_id {
            return Err(PublisherCreateError::ServiceGone);
        }
        let is_pubsub = match sys.services[fi].config.messaging_pattern {
            MessagingPattern::PublishSubscribe(_) => true,
            MessagingPattern::Event(_) => false,
        };
        if !is_pubsub {
            return Err(PublisherCreateError::ServiceGone);
        }
        let mut slot: usize = 0;
        let n = sys.services[fi].publishers.len();
        let mut found = false;
        while slot < n && !found
            invariant
                n == sys.services@[fi as int].publishers@.len(),
                fi < sys.services@.len(),
                slot <= n,
                !found ==> forall|i: int|
                    0 <= i < slot ==> (#[trigger] sys.services@[fi as int].publishers@[i]).used,
                found ==> slot < n && !sys.services@[fi as int].publishers@[slot as int].used,
            decreases n - slot, (if found { 0int } else { 1int }),
        {
            if !sys.services[fi].publishers[slot].used {
                found = true;
            } else {
                slot += 1;
            }
        }
        if !found {
            return Err(PublisherCreateError::ExceedsMaxSupportedPublishers);
        }
        let id = sys.mint_id();
        sys.services[fi].publishers[slot] = PublisherSlot {
            used: true,
            id,
            live: 0,
            history: Vec::new(),
        };
        let refs = sys.services[fi].refs;
        sys.services[fi].refs = if refs < usize::MAX {
            refs + 1
        } else {
            refs
        };
        Ok(
            Publisher {
                service_index: fi,
                service_id: self.factory.service_id,
                slot,
                port_id: UniquePublisherId::new(id),
            },
        )
    }
}

impl PortFactorySubscriber {
    /// Binds a free subscriber slot in the service's dynamic descriptor and
    /// mints the port's unique id; the new subscriber is immediately handed
    /// the history ring of every live publisher, oldest first, as far as
    /// its receive buffers allow.  Fails when every slot is taken.
    #[verifier::loop_isolation(false)]
    pub fn create(&self, sys: &mut System) -> (r: Result<Subscriber, SubscriberCreateError>)
        requires
            old(sys).wf(),
        ensures
            final(sys).wf(),
            final(sys).samples@ == old(sys).samples@,
            final(sys).services@.len() == old(sys).services@.len(),
            final(sys).now == old(sys).now,
            !pubsub_factory_valid(self.factory, *old(sys)) ==> r == Err::<
                Subscriber,
                SubscriberCreateError,
            >(SubscriberCreateError::ServiceGone) && *final(sys) == *old(sys),
            pubsub_factory_valid(self.factory, *old(sys)) ==> {
                let e = old(sys).services@[self.factory.service_index as int];
                let cap = e.config.messaging_pattern->PublishSubscribe_0.subscriber_max_buffer_size;
                &&& (r == Err::<Subscriber, SubscriberCreateError>(
                    SubscriberCreateError::ExceedsMaxSupportedSubscribers,
                ) <==> forall|i: int|
                    0 <= i < e.subscribers@.len() ==> (#[trigger] e.subscribers@[i]).used)
                &&& (r is Ok || r == Err::<Subscriber, SubscriberCreateError>(
                    SubscriberCreateError::ExceedsMaxSupportedSubscribers,
                ))
                &&& r is Err ==> *final(sys) == *old(sys)
                &&& r matches Ok(s) ==> {
                    let f = final(sys).services@[self.factory.service_index as int];
                    &&& subscriber_valid(s, *final(sys))
                    &&& s.service_index == self.factory.service_index
                    &&& s.service_id == self.factory.service_id
                    &&& s.slot < e.subscribers@.len()
                    &&& !e.subscribers@[s.slot as int].used
                    &&& forall|j: int|
                        0 <= j < old(sys).services@.len() && j != self.factory.service_index
                            ==> final(sys).services@[j] == old(sys).services@[j]
                    &&& f.subscribers@.len() == e.subscribers@.len()
                    &&& forall|i: int|
                        0 <= i < e.subscribers@.len() && i != s.slot ==> f.subscribers@[i]
                            == e.subscribers@[i]
                    &&& f.subscribers@[s.slot as int].used
                    &&& f.subscribers@[s.slot as int].id == s.port_id.value
                    &&& f.subscribers@[s.slot as int].queues@.len() == e.publishers@.len()
                    // the history drain: each live publisher's ring, oldest
                    // first, as far as the buffer allows
                    &&& forall|p: int|
                        0 <= p < e.publishers@.len() && (#[trigger] e.publishers@[p]).used
                            ==> f.subscribers@[s.slot as int].queues@[p]@ == e.publishers@[p].history@.take(
                            if e.publishers@[p].history@.len() <= cap {
                                e.publishers@[p].history@.len() as int
                            } else {
                                cap as int
                            },
                        )
                    &&& forall|p: int|
                        0 <= p < e.publishers@.len() && !(#[trigger] e.publishers@[p]).used
                            ==> f.subscribers@[s.slot as int].queues@[p]@.len() == 0
                    &&& f == (ServiceEntry {
                        refs: saturating_inc(e.refs),
                        subscribers: f.subscribers,
                        ..e
                    })
                }
            },
    {
        let fi = self.factory.service_index;
        if fi >= sys.services.len() || !sys.services[fi].present || !sys.services[fi].published
            || sys.services[fi].service_id != self.factory.service_id {
            return Err(SubscriberCreateError::ServiceGone);
        }
        let cap = match sys.services[fi].config.messaging_pattern {
            MessagingPattern::PublishSubscribe(c) => c.subscriber_max_buffer_size,
            MessagingPattern::Event(_) => {
                return Err(SubscriberCreateError::ServiceGone);
            },
        };
        let mut slot: usize = 0;
        let n = sys.services[fi].subscribers.len();
        let mut found = false;
        while slot < n && !found
            invariant
                slot <= n,
                !found ==> forall|i: int|
                    0 <= i < slot ==> (#[trigger] sys.services@[fi as int].subscribers@[i]).used,
                found ==> slot < n && !sys.services@[fi as int].subscribers@[slot as int].used,
            decreases n - slot, (if found { 0int } else { 1int }),
        {
            if !sys.services[fi].subscribers[slot].used {
                found = true;
            } else {
                slot += 1;
            }
        }
        if !found {
            return Err(SubscriberCreateError::ExceedsMaxSupportedSubscribers);
        }
        let id = sys.mint_id();
        let npubs = sys.services[fi].publishers.len();
        sys.services[fi].subscribers[slot].used = true;
        sys.services[fi].subscribers[slot].id = id;

        let ghost bound = *sys;
        let mut p: usize = 0;
        while p < npubs
            invariant
                sys.wf(),
                p <= npubs,
                sys.services@.len() == bound.services@.len(),
                sys.samples@ == bound.samples@,
                sys.now == bound.now,
                sys.next_id == bound.next_id,
                sys.creation_timeout == bound.creation_timeout,
                forall|j: int|
                    0 <= j < bound.services@.len() && j != fi ==> sys.services@[j]
                        == bound.services@[j],
                sys.services@[fi as int] == (ServiceEntry {
                    subscribers: sys.services@[fi as int].subscribers,
                    ..bound.services@[fi as int]
                }),
                sys.services@[fi as int].subscribers@.len()
                    == bound.services@[fi as int].subscribers@.len(),
                forall|i: int|
                    0 <= i < bound.services@[fi as int].subscribers@.len() && i != slot
                        ==> sys.services@[fi as int].subscribers@[i] == bound.services@[fi as int].subscribers@[i],
                sys.services@[fi as int].subscribers@[slot as int].used,
                sys.services@[fi as int].subscribers@[slot as int].id == id,
                sys.services@[fi as int].subscribers@[slot as int].queues@.len()
                    == bound.services@[fi as int].publishers@.len(),
                npubs == bound.services@[fi as int].publishers@.len(),
                forall|q: int|
                    0 <= q < npubs && q >= p
                        ==> (#[trigger] sys.services@[fi as int].subscribers@[slot as int].queues@[q])@.len()
                        == 0,
                forall|q: int|
                    0 <= q < p && (#[trigger] bound.services@[fi as int].publishers@[q]).used
                        ==> sys.services@[fi as int].subscribers@[slot as int].queues@[q]@
                        == bound.services@[fi as int].publishers@[q].history@.take(
                        if bound.services@[fi as int].publishers@[q].history@.len() <= cap {
                            bound.services@[fi as int].publishers@[q].history@.len() as int
                        } else {
                            cap as int
                        },
                    ),
                forall|q: int|
                    0 <= q < p && !(#[trigger] bound.services@[fi as int].publishers@[q]).used
                        ==> sys.services@[fi as int].subscribers@[slot as int].queues@[q]@.len()
                        == 0,
            decreases npubs - p,
        {
            if sys.services[fi].publishers[p].used {
                let hlen = sys.services[fi].publishers[p].history.len();
                let take = if hlen <= cap {
                    hlen
                } else {
                    cap
                };
                let mut j: usize = 0;
                while j < take
                    invariant
                        j <= take,
                        take <= sys.services@[fi as int].publishers@[p as int].history@.len(),
                        sys.services@.len() == bound.services@.len(),
                        sys.samples@ == bound.samples@,
                        sys.now == bound.now,
                        sys.next_id == bound.next_id,
                        sys.creation_timeout == bound.creation_timeout,
                        forall|i: int|
                            0 <= i < bound.services@.len() && i != fi ==> sys.services@[i]
                                == bound.services@[i],
                        sys.services@[fi as int] == (ServiceEntry {
                            subscribers: sys.services@[fi as int].subscribers,
                            ..bound.services@[fi as int]
                        }),
                        sys.services@[fi as int].subscribers@.len()
                            == bound.services@[fi as int].subscribers@.len(),
                        forall|i: int|
                            0 <= i < bound.services@[fi as int].subscribers@.len() && i != slot
                                ==> sys.services@[fi as int].subscribers@[i]
                                == bound.services@[fi as int].subscribers@[i],
                        sys.services@[fi as int].subscribers@[slot as int].used,
                        sys.services@[fi as int].subscribers@[slot as int].id == id,
                        sys.services@[fi as int].subscribers@[slot as int].queues@.len()
                            == bound.services@[fi as int].publishers@.len(),
                        p < npubs,
                        forall|q: int|
                            0 <= q < npubs && q > p
                                ==> (#[trigger] sys.services@[fi as int].subscribers@[slot as int].queues@[q])@.len()
                                == 0,
                        forall|q: int|
                            0 <= q < p && (#[trigger] bound.services@[fi as int].publishers@[q]).used
                                ==> sys.services@[fi as int].subscribers@[slot as int].queues@[q]@
                                == bound.services@[fi as int].publishers@[q].history@.take(
                                if bound.services@[fi as int].publishers@[q].history@.len() <= cap {
                                    bound.services@[fi as int].publishers@[q].history@.len() as int
                                } else {
                                    cap as int
                                },
                            ),
                        forall|q: int|
                            0 <= q < p && !(#[trigger] bound.services@[fi as int].publishers@[q]).used
                                ==> sys.services@[fi as int].subscribers@[slot as int].queues@[q]@.len()
                                == 0,
                        sys.services@[fi as int].subscribers@[slot as int].queues@[p as int]@
                            == bound.services@[fi as int].publishers@[p as int].history@.take(
                            j as int,
                        ),
                        sys.wf(),
                    decreases take - j,
                {
                    let k = sys.services[fi].publishers[p].history[j];
                    sys.services[fi].subscribers[slot].queues[p].push(k);
                    proof {
                        assert(sys.services@[fi as int].subscribers@[slot as int].queues@[p as int]@
                            =~= bound.services@[fi as int].publishers@[p as int].history@.take(
                            j as int + 1,
                        ));
                    }
                    j += 1;
                }
            }
            p += 1;
        }
        let refs = sys.services[fi].refs;
        sys.services[fi].refs = if refs < usize::MAX {
            refs + 1
        } else {
            refs
        };
        proof {
            assert forall|j: int|
                0 <= j < old(sys).services@.len() && j != fi as int implies sys.services@[j] == old(
                sys,
            ).services@[j] by {
                assert(sys.services@[j] == bound.services@[j]);
            }
            assert forall|i: int|
                0 <= i < old(sys).services@[fi as int].subscribers@.len() && i != slot as int implies sys.services@[fi as int].subscribers@[i]
                == old(sys).services@[fi as int].subscribers@[i] by {
                assert(sys.services@[fi as int].subscribers@[i] == bound.services@[fi as int].subscribers@[i]);
                assert(bound.services@[fi as int].subscribers@[i] == old(sys).services@[fi as int].subscribers@[i]);
            }
        }
        Ok(
            Subscriber {
                service_index: fi,
                service_id: self.factory.service_id,
                slot,
                port_id: UniqueSubscriberId::new(id),
            },
        )
    }
}

/// How many payload slots one publisher may have live at a time: enough for
/// the history ring and every receive buffer, plus some slack.
pub open spec fn loan_pool_limit(c: PublishSubscribeConfig) -> int {
    c.history_size + c.subscriber_max_buffer_size * c.max_subscribers + LOAN_POOL_SLACK
}

impl Publisher {
    /// The unique identifier stamped into this publisher's sample headers.
    pub fn id(&self) -> (r: UniquePublisherId)
        ensures
            r == self.port_id,
    {
        self.port_id
    }

    /// Loans an exclusively owned sample from the publisher's payload pool.
    /// Fails when the pool is exhausted: the pool is sized for the history
    /// ring plus every receive buffer, with a little slack.
    pub fn loan(&self, sys: &mut System) -> (r: Result<SampleMut, LoanError>)
        requires
            old(sys).wf(),
        ensures
            final(sys).wf(),
            final(sys).services@.len() == old(sys).services@.len(),
            final(sys).now == old(sys).now,
            held_samples_intact(old(sys).samples@, final(sys).samples@),
            sent_samples_stable(old(sys).samples@, final(sys).samples@),
            !publisher_valid(*self, *old(sys)) ==> r == Err::<SampleMut, LoanError>(
                LoanError::ServiceGone,
            ) && *final(sys) == *old(sys),
            publisher_valid(*self, *old(sys)) ==> {
                let e = old(sys).services@[self.service_index as int];
                let c = e.config.messaging_pattern->PublishSubscribe_0;
                &&& (r == Err::<SampleMut, LoanError>(LoanError::ExceedsMaxLoanedSamples)
                    <==> e.publishers@[self.slot as int].live >= loan_pool_limit(c))
                &&& (r is Ok || r == Err::<SampleMut, LoanError>(LoanError::ExceedsMaxLoanedSamples))
                &&& r is Err ==> *final(sys) == *old(sys)
                &&& r matches Ok(m) ==> {
                    let f = final(sys).services@[self.service_index as int];
                    &&& sample_mut_valid(m, *self, *final(sys))
                    &&& final(sys).samples@[m.slot as int].payload == 0
                    &&& final(sys).samples@[m.slot as int].handle_refs == 0
                    &&& (m.slot as int >= old(sys).samples@.len() || old(
                        sys,
                    ).samples@[m.slot as int].state is Free)
                    &&& forall|j: int|
                        0 <= j < old(sys).samples@.len() && j != m.slot
                            ==> final(sys).samples@[j] == old(sys).samples@[j]
                    &&& forall|j: int|
                        0 <= j < old(sys).services@.len() && j != self.service_index
                            ==> final(sys).services@[j] == old(sys).services@[j]
                    &&& f.publishers@.len() == e.publishers@.len()
                    &&& forall|i: int|
                        0 <= i < e.publishers@.len() && i != self.slot ==> f.publishers@[i]
                            == e.publishers@[i]
                    &&& f.publishers@[self.slot as int] == (PublisherSlot {
                        live: saturating_inc(e.publishers@[self.slot as int].live),
                        ..e.publishers@[self.slot as int]
                    })
                    &&& f == (ServiceEntry { publishers: f.publishers, ..e })
                }
            },
    {
        let si = self.service_index;
        if si >= sys.services.len() || !sys.services[si].present || !sys.services[si].published
            || sys.services[si].service_id != self.service_id {
            return Err(LoanError::ServiceGone);
        }
        let c = match sys.services[si].config.messaging_pattern {
            MessagingPattern::PublishSubscribe(c) => c,
            MessagingPattern::Event(_) => {
                return Err(LoanError::ServiceGone);
            },
        };
        if self.slot >= sys.services[si].publishers.len()
            || !sys.services[si].publishers[self.slot].used
            || sys.services[si].publishers[self.slot].id != self.port_id.value {
            return Err(LoanError::ServiceGone);
        }
        let live = sys.services[si].publishers[self.slot].live;
        let cap128 = c.subscriber_max_buffer_size as u128;
        let subs128 = c.max_subscribers as u128;
        proof {
            assert(cap128 * subs128 <= 0xffffffffffffffffu128 * 0xffffffffffffffffu128)
                by (nonlinear_arith)
                requires
                    cap128 <= 0xffffffffffffffffu128,
                    subs128 <= 0xffffffffffffffffu128,
            ;
        }
        if (live as u128) >= (c.history_size as u128) + cap128 * subs128 + (
        LOAN_POOL_SLACK as u128) {
            return Err(LoanError::ExceedsMaxLoanedSamples);
        }
        // find a free slot in the pool or grow it
        let mut k: usize = 0;
        let n = sys.samples.len();
        let mut found = false;
        while k < n && !found
            invariant
                n == sys.samples@.len(),
                k <= n,
                found ==> k < n && sys.samples@[k as int].state is Free,
            decreases n - k, (if found { 0int } else { 1int }),
        {
            let is_free = match sys.samples[k].state {
                SampleState::Free => true,
                _ => false,
            };
            if is_free {
                found = true;
            } else {
                k += 1;
            }
        }
        let fresh = SampleSlot {
            state: SampleState::Loaned,
            payload: 0,
            origin: self.port_id.value,
            owner_entry: si,
            owner_publisher_slot: self.slot,
            handle_refs: 0,
        };
        let ghost pre = *sys;
        if found {
            proof {
                lemma_free_slot_unreferenced(pre, k);
            }
            sys.samples[k] = fresh;
            proof {
                crate::system::lemma_wf_after_slot_update(pre, *sys, k as int);
            }
        } else {
            k = sys.samples.len();
            sys.samples.push(fresh);
            proof {
                lemma_wf_after_pool_grow(pre, *sys);
            }
        }
        sys.services[si].publishers[self.slot].live = if live < usize::MAX {
            live + 1
        } else {
            live
        };
        Ok(SampleMut { slot: k, service_index: si, publisher_slot: self.slot })
    }

    /// Writes the payload of a loaned sample.
    pub fn write_payload(&self, sys: &mut System, sample: &SampleMut, value: u64)
        requires
            old(sys).wf(),
            sample_mut_valid(*sample, *self, *old(sys)),
        ensures
            final(sys).wf(),
            final(sys).services@ == old(sys).services@,
            final(sys).now == old(sys).now,
            final(sys).next_id == old(sys).next_id,
            final(sys).creation_timeout == old(sys).creation_timeout,
            final(sys).samples@ == old(sys).samples@.update(
                sample.slot as int,
                SampleSlot { payload: value, ..old(sys).samples@[sample.slot as int] },
            ),
            sample_mut_valid(*sample, *self, *final(sys)),
    {
        let ghost pre = *sys;
        sys.samples[sample.slot].payload = value;
        proof {
            crate::system::lemma_wf_after_slot_update(pre, *sys, sample.slot as int);
        }
    }

    /// Publishes a loaned sample to every connected subscriber: enqueued
    /// where the receive buffer has room, replacing the oldest sample under
    /// safe overflow, and failing — without rolling back the other
    /// deliveries — where a buffer is full and overflow is disabled.  The
    /// sample enters the history ring; the send reports how many
    /// subscribers accepted it.
    #[verifier::loop_isolation(false)]
    #[verifier::rlimit(30)]
    pub fn send(&self, sys: &mut System, sample: SampleMut) -> (r: Result<usize, SendError>)
        requires
            old(sys).wf(),
        ensures
            final(sys).wf(),
            send_contract(*self, sample, *old(sys), *final(sys), r),
    {
        let si = self.service_index;
        if si >= sys.services.len() || !sys.services[si].present || !sys.services[si].published
            || sys.services[si].service_id != self.service_id {
            return Err(SendError::ConnectionCorrupted);
        }
        let c = match sys.services[si].config.messaging_pattern {
            MessagingPattern::PublishSubscribe(c) => c,
            MessagingPattern::Event(_) => {
                return Err(SendError::ConnectionCorrupted);
            },
        };
        if self.slot >= sys.services[si].publishers.len()
            || !sys.services[si].publishers[self.slot].used
            || sys.services[si].publishers[self.slot].id != self.port_id.value {
            return Err(SendError::ConnectionCorrupted);
        }
        let k = sample.slot;
        if sample.service_index != si || sample.publisher_slot != self.slot
            || k >= sys.samples.len() {
            return Err(SendError::ConnectionCorrupted);
        }
        let slot_now = sys.samples[k];
        let is_loaned = match slot_now.state {
            SampleState::Loaned => true,
            _ => false,
        };
        if !is_loaned || slot_now.origin != self.port_id.value || slot_now.owner_entry != si
            || slot_now.owner_publisher_slot != self.slot {
            return Err(SendError::ConnectionCorrupted);
        }

        // the loaned sample becomes a sent, immutable one
        let ghost pre = *sys;
        sys.samples[k] = SampleSlot {
            state: SampleState::Sent,
            payload: slot_now.payload,
            origin: self.port_id.value,
            owner_entry: si,
            owner_publisher_slot: self.slot,
            handle_refs: 0,
        };
        proof {
            lemma_wf_after_sent_update(pre, *sys, k as int);
        }
        let ghost sent = *sys;

        // deliver to every connected receive buffer
        let ps = self.slot;
        let cap = c.subscriber_max_buffer_size;
        let ovf = c.enable_safe_overflow;
        let nsubs = sys.services[si].subscribers.len();
        let mut s: usize = 0;
        let mut accepted: usize = 0;
        let mut full_hit = false;
        let mut victims: Vec<usize> = Vec::new();
        while s < nsubs
            invariant
                sys.wf(),
                s <= nsubs,
                accepted <= s,
                sys.services@.len() == sent.services@.len(),
                sys.samples@ == sent.samples@,
                sys.now == sent.now,
                sys.next_id == sent.next_id,
                sys.creation_timeout == sent.creation_timeout,
                forall|j: int|
                    0 <= j < sent.services@.len() && j != si ==> sys.services@[j]
                        == sent.services@[j],
                sys.services@[si as int] == (ServiceEntry {
                    subscribers: sys.services@[si as int].subscribers,
                    ..sent.services@[si as int]
                }),
                nsubs == sent.services@[si as int].subscribers@.len(),
                sys.services@[si as int].subscribers@.len() == nsubs,
                forall|i: int|
                    s <= i < nsubs ==> sys.services@[si as int].subscribers@[i]
                        == sent.services@[si as int].subscribers@[i],
                forall|i: int|
                    0 <= i < s && (#[trigger] sent.services@[si as int].subscribers@[i]).used ==> {
                        &&& sys.services@[si as int].subscribers@[i].used
                        &&& sys.services@[si as int].subscribers@[i].id
                            == sent.services@[si as int].subscribers@[i].id
                        &&& sys.services@[si as int].subscribers@[i].queues@.len()
                            == sent.services@[si as int].subscribers@[i].queues@.len()
                        &&& sys.services@[si as int].subscribers@[i].queues@[ps as int]@
                            == queue_after_send(
                            sent.services@[si as int].subscribers@[i].queues@[ps as int]@,
                            k,
                            cap as int,
                            ovf,
                        )
                        &&& forall|q: int|
                            0 <= q < sent.services@[si as int].subscribers@[i].queues@.len() && q
                                != ps ==> #[trigger] sys.services@[si as int].subscribers@[i].queues@[q]
                                == sent.services@[si as int].subscribers@[i].queues@[q]
                    },
                forall|i: int|
                    0 <= i < s && !(#[trigger] sent.services@[si as int].subscribers@[i]).used
                        ==> sys.services@[si as int].subscribers@[i]
                        == sent.services@[si as int].subscribers@[i],
                accepted == accepted_below(
                    sent.services@[si as int].subscribers@,
                    ps as int,
                    cap as int,
                    ovf,
                    s as int,
                ),
                full_hit == full_buffer_below(
                    sent.services@[si as int].subscribers@,
                    ps as int,
                    cap as int,
                    ovf,
                    s as int,
                ),
            decreases nsubs - s,
        {
            let used = sys.services[si].subscribers[s].used;
            if used {
                let qlen = sys.services[si].subscribers[s].queues[ps].len();
                if qlen < cap {
                    sys.services[si].subscribers[s].queues[ps].push(k);
                    accepted += 1;
                } else if ovf && cap > 0 {
                    let victim = sys.services[si].subscribers[s].queues[ps].remove(0);
                    sys.services[si].subscribers[s].queues[ps].push(k);
                    victims.push(victim);
                    accepted += 1;
                    proof {
                        assert(sys.services@[si as int].subscribers@[s as int].queues@[ps as int]@
                            =~= queue_after_send(
                            sent.services@[si as int].subscribers@[s as int].queues@[ps as int]@,
                            k,
                            cap as int,
                            ovf,
                        ));
                    }
                } else {
                    full_hit = true;
                }
            }
            s += 1;
        }

        // record the sample in the history ring
        if c.history_size > 0 {
            let hlen = sys.services[si].publishers[ps].history.len();
            if hlen >= c.history_size {
                let victim = sys.services[si].publishers[ps].history.remove(0);
                victims.push(victim);
            }
            sys.services[si].publishers[ps].history.push(k);
        }
        proof {
            assert(sys.services@[si as int].publishers@[ps as int].history@ =~= history_after_send(
                sent.services@[si as int].publishers@[ps as int].history@,
                k,
                c.history_size as int,
            ));
        }
        let ghost delivered = *sys;

        // evicted samples may now be unreferenced; so may the sample itself,
        // when nothing accepted it and no history retains it
        let mut i: usize = 0;
        while i < victims.len()
            invariant
                sys.wf(),
                i <= victims@.len(),
                crate::system::services_same_but_live(delivered.services@, sys.services@),
                sys.samples@.len() == delivered.samples@.len(),
                sys.now == delivered.now,
                sys.next_id == delivered.next_id,
                sys.creation_timeout == delivered.creation_timeout,
                held_samples_intact(delivered.samples@, sys.samples@),
                sent_samples_stable(delivered.samples@, sys.samples@),
                sys.samples@[k as int].state is Sent || sys.samples@[k as int].state is Free,
                sys.samples@[k as int].state is Sent ==> sys.samples@[k as int]
                    == delivered.samples@[k as int],
            decreases victims@.len() - i,
        {
            sys.try_release_slot(victims[i]);
            i += 1;
        }
        sys.try_release_slot(k);

        proof {
            let eold = old(sys).services@[si as int];
            let fdel = delivered.services@[si as int];
            let ffin = sys.services@[si as int];
            assert(crate::system::entry_same_but_live(fdel, ffin));
            assert(ffin.subscribers@ == fdel.subscribers@);
            assert(crate::system::pub_slot_same_but_live(
                fdel.publishers@[ps as int],
                ffin.publishers@[ps as int],
            ));
            assert(ffin.publishers@[ps as int].history@ == fdel.publishers@[ps as int].history@);
            assert(fdel.publishers@[ps as int].live == eold.publishers@[ps as int].live);
            assert forall|i: int|
                0 <= i < eold.publishers@.len() && i != ps as int implies crate::system::pub_slot_same_but_live(
                #[trigger] eold.publishers@[i],
                ffin.publishers@[i],
            ) by {
                assert(fdel.publishers@[i] == eold.publishers@[i]);
                assert(crate::system::pub_slot_same_but_live(
                    fdel.publishers@[i],
                    ffin.publishers@[i],
                ));
            }
            assert(ffin == (ServiceEntry {
                publishers: ffin.publishers,
                subscribers: ffin.subscribers,
                ..eold
            }));
            lemma_full_buffer_below_equiv(
                eold.subscribers@,
                ps as int,
                cap as int,
                ovf,
                nsubs as int,
            );
            assert(held_samples_intact(old(sys).samples@, sys.samples@));
            assert(sent_samples_stable(old(sys).samples@, sys.samples@));
            assert forall|j: int|
                0 <= j < old(sys).services@.len() && j != si as int implies crate::system::entry_same_but_live(
                old(sys).services@[j],
                sys.services@[j],
            ) by {
                assert(crate::system::entry_same_but_live(
                    delivered.services@[j],
                    sys.services@[j],
                ));
                assert(old(sys).services@[j] == delivered.services@[j]);
            }
        }
        if full_hit && !ovf {
            Err(SendError::ReceiverBufferFullAndOverflowDisabled)
        } else {
            Ok(accepted)
        }
    }

    /// Drops the publisher: closes its connections (the receive buffers of
    /// its samples are released), releases the history ring, frees the
    /// samples it still had on loan, frees its slot and releases its
    /// reference on the service state.  Samples already received stay valid
    /// until they are released in turn, and a new publisher can bind the
    /// slot while they live.
    #[verifier::loop_isolation(false)]
    pub fn release(self, sys: &mut System)
        requires
            old(sys).wf(),
        ensures
            final(sys).wf(),
            held_samples_intact(old(sys).samples@, final(sys).samples@),
            final(sys).samples@.len() == old(sys).samples@.len(),
            final(sys).services@.len() == old(sys).services@.len(),
            final(sys).now == old(sys).now,
            forall|j: int|
                0 <= j < old(sys).services@.len() && j != self.service_index
                    ==> crate::system::entry_same_but_live(
                    old(sys).services@[j],
                    final(sys).services@[j],
                ),
            !publisher_valid(self, *old(sys)) ==> *final(sys) == *old(sys),
            publisher_valid(self, *old(sys)) && old(sys).services@[self.service_index as int].refs
                <= 1 ==> !final(sys).services@[self.service_index as int].present,
            publisher_valid(self, *old(sys)) && old(sys).services@[self.service_index as int].refs
                > 1 ==> {
                let e = old(sys).services@[self.service_index as int];
                let f = final(sys).services@[self.service_index as int];
                &&& f.publishers@.len() == e.publishers@.len()
                &&& !f.publishers@[self.slot as int].used
                &&& forall|p: int|
                    0 <= p < e.publishers@.len() && p != self.slot
                        ==> crate::system::pub_slot_same_but_live(
                        e.publishers@[p],
                        f.publishers@[p],
                    )
                &&& f.subscribers@.len() == e.subscribers@.len()
                &&& forall|s: int|
                    0 <= s < e.subscribers@.len() ==> {
                        &&& (#[trigger] f.subscribers@[s]).used == e.subscribers@[s].used
                        &&& f.subscribers@[s].id == e.subscribers@[s].id
                        &&& f.subscribers@[s].queues@.len() == e.subscribers@[s].queues@.len()
                        &&& f.subscribers@[s].queues@[self.slot as int]@.len() == 0
                        &&& forall|q: int|
                            0 <= q < e.subscribers@[s].queues@.len() && q != self.slot
                                ==> #[trigger] f.subscribers@[s].queues@[q] == e.subscribers@[s].queues@[q]
                    }
                &&& f.refs == e.refs - 1
                &&& f.present && f.published
            },
    {
        let si = self.service_index;
        if si >= sys.services.len() || !sys.services[si].present || !sys.services[si].published
            || sys.services[si].service_id != self.service_id {
            return ;
        }
        let is_pubsub = match sys.services[si].config.messaging_pattern {
            MessagingPattern::PublishSubscribe(_) => true,
            MessagingPattern::Event(_) => false,
        };
        if !is_pubsub || self.slot >= sys.services[si].publishers.len()
            || !sys.services[si].publishers[self.slot].used
            || sys.services[si].publishers[self.slot].id != self.port_id.value {
            return ;
        }
        let ps = self.slot;
        // close every connection of this publisher
        let nsubs = sys.services[si].subscribers.len();
        let mut s: usize = 0;
        while s < nsubs
            invariant
                sys.wf(),
                s <= nsubs,
                nsubs == sys.services@[si as int].subscribers@.len(),
                sys.services@.len() == old(sys).services@.len(),
                sys.samples@ == old(sys).samples@,
                sys.now == old(sys).now,
                sys.next_id == old(sys).next_id,
                sys.creation_timeout == old(sys).creation_timeout,
                ps < sys.services@[si as int].publishers@.len(),
                forall|j: int|
                    0 <= j < old(sys).services@.len() && j != si ==> sys.services@[j] == old(
                        sys,
                    ).services@[j],
                sys.services@[si as int] == (ServiceEntry {
                    subscribers: sys.services@[si as int].subscribers,
                    ..old(sys).services@[si as int]
                }),
                forall|i: int|
                    s <= i < nsubs ==> sys.services@[si as int].subscribers@[i] == old(
                        sys,
                    ).services@[si as int].subscribers@[i],
                forall|i: int|
                    0 <= i < s ==> {
                        &&& (#[trigger] sys.services@[si as int].subscribers@[i]).used == old(
                            sys,
                        ).services@[si as int].subscribers@[i].used
                        &&& sys.services@[si as int].subscribers@[i].id == old(
                            sys,
                        ).services@[si as int].subscribers@[i].id
                        &&& sys.services@[si as int].subscribers@[i].queues@.len() == old(
                            sys,
                        ).services@[si as int].subscribers@[i].queues@.len()
                        &&& sys.services@[si as int].subscribers@[i].queues@[ps as int]@.len() == 0
                        &&& forall|q: int|
                            0 <= q < old(sys).services@[si as int].subscribers@[i].queues@.len()
                                && q != ps
                                ==> #[trigger] sys.services@[si as int].subscribers@[i].queues@[q]
                                == old(sys).services@[si as int].subscribers@[i].queues@[q]
                    },
            decreases nsubs - s,
        {
            proof {
                assert(subscriber_slot_wf(
                    sys.samples@,
                    sys.services@[si as int].subscribers@[s as int],
                    sys.services@[si as int].publishers@.len() as int,
                ));
            }
            sys.services[si].subscribers[s].queues[ps] = Vec::new();
            s += 1;
        }
        // release the history ring and free the slot
        sys.services[si].publishers[ps] = PublisherSlot {
            used: false,
            id: 0,
            live: 0,
            history: Vec::new(),
        };
        // free the samples still on loan to this publisher
        let mut k: usize = 0;
        let n = sys.samples.len();
        let ghost mid = *sys;
        while k < n
            invariant
                sys.wf(),
                k <= n,
                n == sys.samples@.len(),
                sys.services@ == mid.services@,
                sys.now == mid.now,
                sys.next_id == mid.next_id,
                sys.creation_timeout == mid.creation_timeout,
                sys.samples@.len() == mid.samples@.len(),
                forall|j: int|
                    0 <= j < mid.samples@.len() && !(mid.samples@[j].state is Loaned)
                        ==> #[trigger] sys.samples@[j] == mid.samples@[j],
                forall|j: int|
                    0 <= j < mid.samples@.len() && mid.samples@[j].state is Loaned ==> (
                    #[trigger] sys.samples@[j] == mid.samples@[j] || sys.samples@[j].state is Free),
            decreases n - k,
        {
            let st = sys.samples[k];
            let is_loaned = match st.state {
                SampleState::Loaned => true,
                _ => false,
            };
            if is_loaned && st.owner_entry == si && st.owner_publisher_slot == ps && st.origin
                == self.port_id.value {
                let ghost pre = *sys;
                sys.samples[k] = SampleSlot {
                    state: SampleState::Free,
                    payload: 0,
                    origin: 0,
                    owner_entry: 0,
                    owner_publisher_slot: 0,
                    handle_refs: 0,
                };
                proof {
                    crate::system::lemma_wf_after_slot_update(pre, *sys, k as int);
                }
            }
            k += 1;
        }
        // what the buffers and the ring referenced may now be free
        let ghost cleared = *sys;
        let mut k: usize = 0;
        while k < n
            invariant
                sys.wf(),
                k <= n,
                n == sys.samples@.len(),
                crate::system::services_same_but_live(cleared.services@, sys.services@),
                sys.samples@.len() == cleared.samples@.len(),
                sys.now == cleared.now,
                sys.next_id == cleared.next_id,
                sys.creation_timeout == cleared.creation_timeout,
                held_samples_intact(cleared.samples@, sys.samples@),
            decreases n - k,
        {
            sys.try_release_slot(k);
            k += 1;
        }
        let ghost swept = *sys;
        sys.release_service_reference(si, false);
        proof {
            assert forall|j: int|
                0 <= j < old(sys).services@.len() && j != si as int implies crate::system::entry_same_but_live(
                old(sys).services@[j],
                sys.services@[j],
            ) by {
                assert(old(sys).services@[j] == cleared.services@[j]);
                assert(crate::system::entry_same_but_live(
                    cleared.services@[j],
                    swept.services@[j],
                ));
                assert(crate::system::entry_same_but_live(swept.services@[j], sys.services@[j]));
            }
            if old(sys).services@[si as int].refs > 1 {
                assert(crate::system::entry_same_but_live(
                    cleared.services@[si as int],
                    swept.services@[si as int],
                ));
                assert(sys.services@[si as int].publishers == swept.services@[si as int].publishers);
                assert forall|p: int|
                    0 <= p < old(sys).services@[si as int].publishers@.len() && p
                        != ps as int implies crate::system::pub_slot_same_but_live(
                    old(sys).services@[si as int].publishers@[p],
                    sys.services@[si as int].publishers@[p],
                ) by {
                    assert(cleared.services@[si as int].publishers@[p] == old(
                        sys,
                    ).services@[si as int].publishers@[p]);
                    assert(crate::system::pub_slot_same_but_live(
                        cleared.services@[si as int].publishers@[p],
                        swept.services@[si as int].publishers@[p],
                    ));
                }
            }
        }
    }

    /// Loans a sample, writes the value and sends it: the convenience path
    /// with the same delivery and error behaviour as an explicit
    /// loan-write-send.
    pub fn send_copy(&self, sys: &mut System, value: u64) -> (r: Result<usize, SendError>)
        requires
            old(sys).wf(),
        ensures
            final(sys).wf(),
            send_copy_contract(*self, value, *old(sys), *final(sys), r),
    {
        match self.loan(sys) {
            Err(LoanError::ServiceGone) => Err(SendError::ConnectionCorrupted),
            Err(LoanError::ExceedsMaxLoanedSamples) => Err(SendError::LoanedPoolExhausted),
            Ok(sample) => {
                let ghost k = sample.slot;
                let ghost mid0 = *sys;
                self.write_payload(sys, &sample, value);
                let ghost mid1 = *sys;
                let r = self.send(sys, sample);
                proof {
                    let pre = *old(sys);
                    let post = *sys;
                    let e = pre.services@[self.service_index as int];
                    let e1 = mid1.services@[self.service_index as int];
                    assert(e1.subscribers@ == e.subscribers@);
                    assert(e1.publishers@[self.slot as int].history@ == e.publishers@[self.slot as int].history@);
                    assert(publisher_valid(*self, mid1));
                    assert(sample_mut_valid(sample, *self, mid1));
                    assert(held_samples_intact(pre.samples@, mid1.samples@));
                    assert(sent_samples_stable(pre.samples@, mid1.samples@));
                    assert(held_samples_intact(pre.samples@, post.samples@));
                    assert(sent_samples_stable(pre.samples@, post.samples@));
                    assert(mid1.samples@[k as int].payload == value);
                    assert(sent_fresh_sample(*self, value, k, pre, post, r));
                    assert(exists|kk: usize|
                        sent_fresh_sample(*self, value, kk, *old(sys), *sys, r)) by {
                        assert(sent_fresh_sample(*self, value, k, *old(sys), *sys, r));
                    }
                }
                r
            },
        }
    }
}

/// The least buffer index at or after `i` that holds a sample, or the
/// number of buffers when all are drained.
pub open spec fn next_queue_from(qs: Seq<Vec<usize>>, i: int) -> int
    decreases qs.len() - i,
{
    if i < 0 || i >= qs.len() {
        qs.len() as int
    } else if qs[i]@.len() > 0 {
        i
    } else {
        next_queue_from(qs, i + 1)
    }
}

/// The least buffer index at or after `i` with a sample is the first index
/// past an empty prefix.
proof fn lemma_next_queue_from(qs: Seq<Vec<usize>>, i: int, q: int)
    requires
        0 <= i <= q <= qs.len(),
        forall|j: int| i <= j < q ==> (#[trigger] qs[j])@.len() == 0,
        q < qs.len() ==> qs[q]@.len() > 0,
    ensures
        next_queue_from(qs, i) == q,
    decreases q - i,
{
    if i < q {
        lemma_next_queue_from(qs, i + 1, q);
    }
}

/// The full contract of a receive: the oldest sample of the first
/// connection that has one leaves its buffer and is handed out with one
/// more receive handle on its payload slot; nothing else changes.
pub open spec fn receive_contract(
    sub: Subscriber,
    pre: System,
    post: System,
    r: Result<Option<Sample>, ReceiveError>,
) -> bool {
    &&& !subscriber_valid(sub, pre) ==> r == Err::<Option<Sample>, ReceiveError>(
        ReceiveError::ConnectionCorrupted,
    ) && post == pre
    &&& subscriber_valid(sub, pre) ==> {
        let e = pre.services@[sub.service_index as int];
        let qs = e.subscribers@[sub.slot as int].queues@;
        let q = next_queue_from(qs, 0);
        &&& q == qs.len() ==> r == Ok::<Option<Sample>, ReceiveError>(None) && post == pre
        &&& q < qs.len() ==> {
            let k = qs[q]@[0];
            let f = post.services@[sub.service_index as int];
            &&& (r matches Ok(o) && o matches Some(smp) && smp.slot == k
                && smp.header.publisher_port_id.value == pre.samples@[k as int].origin)
            &&& (r matches Ok(o) && o matches Some(smp) && sample_valid(smp, post))
            &&& post.samples@ == pre.samples@.update(
                k as int,
                SampleSlot {
                    handle_refs: saturating_inc(pre.samples@[k as int].handle_refs),
                    ..pre.samples@[k as int]
                },
            )
            &&& post.samples@[k as int].payload == pre.samples@[k as int].payload
            &&& post.now == pre.now
            &&& post.services@.len() == pre.services@.len()
            &&& forall|j: int|
                0 <= j < pre.services@.len() && j != sub.service_index ==> post.services@[j]
                    == pre.services@[j]
            &&& f.subscribers@.len() == e.subscribers@.len()
            &&& forall|i: int|
                0 <= i < e.subscribers@.len() && i != sub.slot ==> f.subscribers@[i]
                    == e.subscribers@[i]
            &&& f.subscribers@[sub.slot as int].used
            &&& f.subscribers@[sub.slot as int].id == e.subscribers@[sub.slot as int].id
            &&& f.subscribers@[sub.slot as int].queues@.len() == qs.len()
            &&& f.subscribers@[sub.slot as int].queues@[q]@ == qs[q]@.remove(0)
            &&& forall|i: int|
                0 <= i < qs.len() && i != q
                    ==> #[trigger] f.subscribers@[sub.slot as int].queues@[i] == qs[i]
            &&& f == (ServiceEntry { subscribers: f.subscribers, ..e })
        }
    }
}

impl Subscriber {
    /// The unique identifier of this subscriber port.
    pub fn id(&self) -> (r: UniqueSubscriberId)
        ensures
            r == self.port_id,
    {
        self.port_id
    }

    /// Receives the oldest queued sample of the first connection that has
    /// one, or nothing.  Never blocks.  Per connection the samples come out
    /// in the order their publisher sent them.
    #[verifier::loop_isolation(false)]
    pub fn receive(&self, sys: &mut System) -> (r: Result<Option<Sample>, ReceiveError>)
        requires
            old(sys).wf(),
        ensures
            final(sys).wf(),
            receive_contract(*self, *old(sys), *final(sys), r),
    {
        let si = self.service_index;
        if si >= sys.services.len() || !sys.services[si].present || !sys.services[si].published
            || sys.services[si].service_id != self.service_id {
            return Err(ReceiveError::ConnectionCorrupted);
        }
        let is_pubsub = match sys.services[si].config.messaging_pattern {
            MessagingPattern::PublishSubscribe(_) => true,
            MessagingPattern::Event(_) => false,
        };
        if !is_pubsub || self.slot >= sys.services[si].subscribers.len()
            || !sys.services[si].subscribers[self.slot].used
            || sys.services[si].subscribers[self.slot].id != self.port_id.value {
            return Err(ReceiveError::ConnectionCorrupted);
        }
        let nq = sys.services[si].subscribers[self.slot].queues.len();
        let mut q: usize = 0;
        while q < nq && sys.services[si].subscribers[self.slot].queues[q].len() == 0
            invariant
                q <= nq,
                forall|i: int|
                    0 <= i < q
                        ==> (#[trigger] sys.services@[si as int].subscribers@[self.slot as int].queues@[i])@.len()
                        == 0,
            decreases nq - q,
        {
            q += 1;
        }
        proof {
            lemma_next_queue_from(
                sys.services@[si as int].subscribers@[self.slot as int].queues@,
                0,
                q as int,
            );
        }
        if q == nq {
            return Ok(None);
        }
        let k = sys.services[si].subscribers[self.slot].queues[q].remove(0);
        let origin = sys.samples[k].origin;
        let refs = sys.samples[k].handle_refs;
        let ghost mid = *sys;
        sys.samples[k].handle_refs = if refs < usize::MAX {
            refs + 1
        } else {
            refs
        };
        proof {
            lemma_wf_after_sent_update(mid, *sys, k as int);
        }
        Ok(Some(Sample { slot: k, header: Header::new(UniquePublisherId::new(origin)) }))
    }

    /// Drops the subscriber: empties its receive buffers, frees its slot
    /// and releases its reference on the service state.  Samples it had
    /// already received stay valid until they are released in turn.
    #[verifier::loop_isolation(false)]
    pub fn release(self, sys: &mut System)
        requires
            old(sys).wf(),
        ensures
            final(sys).wf(),
            held_samples_intact(old(sys).samples@, final(sys).samples@),
            final(sys).samples@.len() == old(sys).samples@.len(),
            final(sys).services@.len() == old(sys).services@.len(),
            final(sys).now == old(sys).now,
            forall|j: int|
                0 <= j < old(sys).services@.len() && j != self.service_index
                    ==> crate::system::entry_same_but_live(
                    old(sys).services@[j],
                    final(sys).services@[j],
                ),
            !subscriber_valid(self, *old(sys)) ==> *final(sys) == *old(sys),
            subscriber_valid(self, *old(sys)) && old(sys).services@[self.service_index as int].refs
                <= 1 ==> !final(sys).services@[self.service_index as int].present,
            subscriber_valid(self, *old(sys)) && old(sys).services@[self.service_index as int].refs
                > 1 ==> {
                let e = old(sys).services@[self.service_index as int];
                let f = final(sys).services@[self.service_index as int];
                &&& f.subscribers@.len() == e.subscribers@.len()
                &&& forall|i: int|
                    0 <= i < e.subscribers@.len() && i != self.slot ==> f.subscribers@[i]
                        == e.subscribers@[i]
                &&& !f.subscribers@[self.slot as int].used
                &&& f.refs == e.refs - 1
                &&& f.present && f.published
            },
    {
        let si = self.service_index;
        if si >= sys.services.len() || !sys.services[si].present || !sys.services[si].published
            || sys.services[si].service_id != self.service_id {
            return ;
        }
        let is_pubsub = match sys.services[si].config.messaging_pattern {
            MessagingPattern::PublishSubscribe(_) => true,
            MessagingPattern::Event(_) => false,
        };
        if !is_pubsub || self.slot >= sys.services[si].subscribers.len()
            || !sys.services[si].subscribers[self.slot].used
            || sys.services[si].subscribers[self.slot].id != self.port_id.value {
            return ;
        }
        // close every connection: the buffers are released
        let npubs = sys.services[si].publishers.len();
        let mut queues: Vec<Vec<usize>> = Vec::new();
        let nq = sys.services[si].subscribers[self.slot].queues.len();
        while queues.len() < nq
            invariant
                queues@.len() <= nq,
                forall|i: int| 0 <= i < queues@.len() ==> (#[trigger] queues@[i])@.len() == 0,
            decreases nq - queues@.len(),
        {
            queues.push(Vec::new());
        }
        sys.services[si].subscribers[self.slot] = SubscriberSlot { used: false, id: 0, queues };
        let ghost cleared = *sys;
        // what the buffers referenced may now be free
        let mut k: usize = 0;
        let n = sys.samples.len();
        while k < n
            invariant
                sys.wf(),
                k <= n,
                n == sys.samples@.len(),
                crate::system::services_same_but_live(cleared.services@, sys.services@),
                sys.samples@.len() == cleared.samples@.len(),
                sys.now == cleared.now,
                sys.next_id == cleared.next_id,
                sys.creation_timeout == cleared.creation_timeout,
                held_samples_intact(cleared.samples@, sys.samples@),
            decreases n - k,
        {
            sys.try_release_slot(k);
            k += 1;
        }
        let ghost swept = *sys;
        sys.release_service_reference(si, false);
        proof {
            assert forall|j: int|
                0 <= j < old(sys).services@.len() && j != si as int implies crate::system::entry_same_but_live(
                old(sys).services@[j],
                sys.services@[j],
            ) by {
                assert(old(sys).services@[j] == cleared.services@[j]);
                assert(crate::system::entry_same_but_live(
                    cleared.services@[j],
                    swept.services@[j],
                ));
                assert(crate::system::entry_same_but_live(swept.services@[j], sys.services@[j]));
            }
        }
    }
}

impl Sample {
    /// The header the sending publisher stamped into the sample.
    pub fn header(&self) -> (r: Header)
        ensures
            r == self.header,
    {
        self.header
    }

    /// The identifier of the publisher the sample came from.
    pub fn origin(&self) -> (r: UniquePublisherId)
        ensures
            r == self.header.publisher_port_id,
    {
        self.header.publisher_id()
    }

    /// Reads the payload.  A held sample stays readable whatever happened
    /// to the factory, the publishers and the subscribers of its service.
    pub fn payload(&self, sys: &System) -> (r: u64)
        requires
            sys.wf(),
            sample_valid(*self, *sys),
        ensures
            r == sys.samples@[self.slot as int].payload,
    {
        sys.samples[self.slot].payload
    }

    /// Drops the receive handle.  When it was the last reference — no
    /// buffer, no history ring, no other handle — the payload slot returns
    /// to its publisher's pool.
    pub fn release(self, sys: &mut System)
        requires
            old(sys).wf(),
        ensures
            final(sys).wf(),
            final(sys).services@.len() == old(sys).services@.len(),
            final(sys).samples@.len() == old(sys).samples@.len(),
            final(sys).now == old(sys).now,
            crate::system::services_same_but_live(old(sys).services@, final(sys).services@),
            forall|j: int|
                0 <= j < old(sys).samples@.len() && j != self.slot ==> final(sys).samples@[j]
                    == old(sys).samples@[j],
            !sample_valid(self, *old(sys)) ==> final(sys).samples@ == old(sys).samples@,
            sample_valid(self, *old(sys)) && old(sys).samples@[self.slot as int].handle_refs > 1
                ==> final(sys).samples@ == old(sys).samples@.update(
                self.slot as int,
                SampleSlot {
                    handle_refs: (old(sys).samples@[self.slot as int].handle_refs - 1) as usize,
                    ..old(sys).samples@[self.slot as int]
                },
            ),
            sample_valid(self, *old(sys)) && old(sys).samples@[self.slot as int].handle_refs == 1
                && !old(sys).referenced(self.slot)
                ==> final(sys).samples@[self.slot as int].state is Free,
    {
        let k = self.slot;
        if k >= sys.samples.len() {
            return ;
        }
        let is_sent = match sys.samples[k].state {
            SampleState::Sent => true,
            _ => false,
        };
        if !is_sent {
            return ;
        }
        let refs = sys.samples[k].handle_refs;
        if refs == 0 || sys.samples[k].origin != self.header.publisher_port_id.value {
            return ;
        }
        let ghost pre = *sys;
        sys.samples[k].handle_refs = refs - 1;
        proof {
            lemma_wf_after_sent_update(pre, *sys, k as int);
            assert(sys.referenced(k) == pre.referenced(k));
        }
        sys.try_release_slot(k);
    }
}

/// The full contract of the loan-write-send convenience path: on a live
/// connection with pool capacity left, some fresh payload slot carrying the
/// value is delivered exactly as a send delivers it.
pub open spec fn send_copy_contract(
    p: Publisher,
    value: u64,
    pre: System,
    post: System,
    r: Result<usize, SendError>,
) -> bool {
    &&& !publisher_valid(p, pre) ==> r == Err::<usize, SendError>(SendError::ConnectionCorrupted)
        && post == pre
    &&& publisher_valid(p, pre) ==> {
        let e = pre.services@[p.service_index as int];
        let c = e.config.messaging_pattern->PublishSubscribe_0;
        &&& (r == Err::<usize, SendError>(SendError::LoanedPoolExhausted) <==> e.publishers@[p.slot as int].live
            >= loan_pool_limit(c))
        &&& r == Err::<usize, SendError>(SendError::LoanedPoolExhausted) ==> post == pre
        &&& e.publishers@[p.slot as int].live < loan_pool_limit(c) ==> exists|k: usize|
            #[trigger] sent_fresh_sample(p, value, k, pre, post, r)
    }
}

/// A fresh payload slot `k` carrying `value` was delivered by a send on
/// publisher `p`: the receive buffers, the history ring and the result are
/// exactly those of a send of `k`.
pub open spec fn sent_fresh_sample(
    p: Publisher,
    value: u64,
    k: usize,
    pre: System,
    post: System,
    r: Result<usize, SendError>,
) -> bool {
    let e = pre.services@[p.service_index as int];
    let c = e.config.messaging_pattern->PublishSubscribe_0;
    let cap = c.subscriber_max_buffer_size as int;
    let ovf = c.enable_safe_overflow;
    let f = post.services@[p.service_index as int];
    &&& (k as int >= pre.samples@.len() || pre.samples@[k as int].state is Free)
    &&& k < post.samples@.len()
    &&& post.now == pre.now
    &&& post.services@.len() == pre.services@.len()
    &&& pre.samples@.len() <= post.samples@.len()
    &&& held_samples_intact(pre.samples@, post.samples@)
    &&& sent_samples_stable(pre.samples@, post.samples@)
    &&& (r == Err::<usize, SendError>(SendError::ReceiverBufferFullAndOverflowDisabled) <==> !ovf
        && exists|s: int|
        0 <= s < e.subscribers@.len() && (#[trigger] e.subscribers@[s]).used && e.subscribers@[s].queues@[p.slot as int]@.len()
            >= cap)
    &&& r is Ok ==> r == Ok::<usize, SendError>(
        accepted_below(e.subscribers@, p.slot as int, cap, ovf, e.subscribers@.len() as int) as usize,
    )
    &&& (r is Ok || r == Err::<usize, SendError>(SendError::ReceiverBufferFullAndOverflowDisabled))
    &&& f.subscribers@.len() == e.subscribers@.len()
    &&& forall|s: int|
        0 <= s < e.subscribers@.len() && (#[trigger] e.subscribers@[s]).used ==> {
            &&& f.subscribers@[s].used
            &&& f.subscribers@[s].id == e.subscribers@[s].id
            &&& f.subscribers@[s].queues@.len() == e.subscribers@[s].queues@.len()
            &&& f.subscribers@[s].queues@[p.slot as int]@ == queue_after_send(
                e.subscribers@[s].queues@[p.slot as int]@,
                k,
                cap,
                ovf,
            )
        }
    &&& f.publishers@.len() == e.publishers@.len()
    &&& f.publishers@[p.slot as int].history@ == history_after_send(
        e.publishers@[p.slot as int].history@,
        k,
        c.history_size as int,
    )
    &&& f.publishers@[p.slot as int].used
    &&& f.publishers@[p.slot as int].id == e.publishers@[p.slot as int].id
    &&& f.publishers@[p.slot as int].live <= crate::system::saturating_inc(
        e.publishers@[p.slot as int].live,
    )
    &&& forall|i: int|
        0 <= i < e.publishers@.len() && i != p.slot ==> crate::system::pub_slot_same_but_live(
            #[trigger] e.publishers@[i],
            f.publishers@[i],
        )
    &&& (post.samples@[k as int].state is Sent || post.samples@[k as int].state is Free)
    &&& post.samples@[k as int].state is Sent ==> {
        &&& post.samples@[k as int].payload == value
        &&& post.samples@[k as int].origin == p.port_id.value
    }
}

/// A pool slot that holds no sent sample is referenced by no buffer.
proof fn lemma_free_slot_unreferenced(sys: System, k: usize)
    requires
        sys.wf(),
        !slot_sent(sys.samples@, k as int),
    ensures
        !sys.referenced(k),
{
    if sys.referenced(k) {
        let i = choose|i: int|
            0 <= i < sys.services@.len() && crate::system::entry_references(
                #[trigger] sys.services@[i],
                k,
            );
        let e = sys.services@[i];
        assert(entry_wf(sys.samples@, e));
        if exists|s: int|
            0 <= s < e.subscribers@.len() && crate::system::sub_references(
                #[trigger] e.subscribers@[s],
                k,
            ) {
            let s = choose|s: int|
                0 <= s < e.subscribers@.len() && crate::system::sub_references(
                    #[trigger] e.subscribers@[s],
                    k,
                );
            let q = choose|q: int|
                0 <= q < e.subscribers@[s].queues@.len() && (#[trigger] e.subscribers@[s].queues@[q])@.contains(k);
            let j = choose|j: int|
                0 <= j < e.subscribers@[s].queues@[q]@.len() && e.subscribers@[s].queues@[q]@[j]
                    == k;
            assert(slot_sent(sys.samples@, e.subscribers@[s].queues@[q]@[j] as int));
        } else {
            let p = choose|p: int|
                0 <= p < e.publishers@.len() && crate::system::pub_references(
                    #[trigger] e.publishers@[p],
                    k,
                );
            let j = choose|j: int|
                0 <= j < e.publishers@[p].history@.len() && e.publishers@[p].history@[j] == k;
            assert(slot_sent(sys.samples@, e.publishers@[p].history@[j] as int));
        }
    }
}

} // verus!
