//! Event Bus: a single-writer/many-reader fan-out primitive with bounded
//! capacity. Publishing never blocks; a subscriber that falls more than
//! `capacity` events behind loses its oldest unread events and resumes at
//! the earliest retained one, observing a detectable gap.
//!
//! The bus here is the sequential core: the embedding program shares it
//! behind its own synchronization and hands out publisher and subscriber
//! handles.

use vstd::prelude::*;
use crate::event::NormalizedEvent;

verus! {

/// The abstract state of the bus: everything ever published, in order, and
/// the retention capacity.
pub struct BusView {
    pub log: Seq<NormalizedEvent>,
    pub capacity: nat,
}

/// The position of the earliest retained event in the log.
pub open spec fn first_retained(v: BusView) -> nat {
    if v.log.len() > v.capacity {
        (v.log.len() - v.capacity) as nat
    } else {
        0
    }
}

/// The retained window: the last `capacity` published events.
pub open spec fn retained(v: BusView) -> Seq<NormalizedEvent> {
    v.log.skip(first_retained(v) as int)
}

/// The bus after one publish: the event is appended to the log.
pub open spec fn bus_publish(v: BusView, e: NormalizedEvent) -> BusView {
    BusView { log: v.log.push(e), capacity: v.capacity }
}

/// The bus after publishing a batch, first element first.
pub open spec fn bus_publish_all(v: BusView, es: Seq<NormalizedEvent>) -> BusView
    decreases es.len(),
{
    if es.len() == 0 {
        v
    } else {
        bus_publish_all(bus_publish(v, es.first()), es.drop_first())
    }
}

/// The fan-out bus. The buffer holds the retained window of the (ghost)
/// full publish log.
pub struct EventBus {
    buffer: Vec<NormalizedEvent>,
    next_seq: u64,
    capacity: usize,
    log: Ghost<Seq<NormalizedEvent>>,
}

/// An independent consumer: a cursor into the bus's publish log. Its view
/// is the position of the next event it will read.
pub struct EventConsumer {
    cursor: u64,
}

/// What one non-blocking receive yields.
pub enum RecvOutcome {
    /// The next event, in publish order.
    Event(NormalizedEvent),
    /// The consumer lagged beyond the retained window: this many events
    /// were lost, and the consumer resumed at the earliest retained one.
    Lagged(u64),
    /// Nothing published yet beyond the consumer's position.
    Empty,
}

impl View for EventBus {
    type V = BusView;

    closed spec fn view(&self) -> BusView {
        BusView { log: self.log@, capacity: self.capacity as nat }
    }
}

impl View for EventConsumer {
    type V = nat;

    closed spec fn view(&self) -> nat {
        self.cursor as nat
    }
}

impl EventBus {
    /// The bus is well formed: the buffer is exactly the retained window
    /// of the log, and the sequence counter is the log's length.
    pub closed spec fn wf(&self) -> bool {
        &&& self.capacity >= 1
        &&& self.next_seq as nat == self.log@.len()
        &&& self.buffer@ == retained(self@)
    }

    /// Allocate a bus retaining up to `capacity` events.
    pub fn new(capacity: usize) -> (r: EventBus)
        requires
            capacity >= 1,
        ensures
            r.wf(),
            r@.log.len() == 0,
            r@.capacity == capacity as nat,
    {
        let r = EventBus { buffer: Vec::new(), next_seq: 0, capacity, log: Ghost(Seq::empty()) };
        proof {
            assert(r.buffer@ =~= retained(r@));
        }
        r
    }

    /// How many events were ever published.
    pub fn published_count(&self) -> (r: u64)
        requires
            self.wf(),
        ensures
            r as nat == self@.log.len(),
    {
        self.next_seq
    }

    /// Publish one event: fire-and-forget and non-blocking. The event is
    /// appended to the log; when the buffer is full the oldest retained
    /// event is dropped.
    pub fn publish(&mut self, e: NormalizedEvent)
        requires
            old(self).wf(),
            old(self)@.log.len() < u64::MAX,
        ensures
            final(self).wf(),
            final(self)@ == bus_publish(old(self)@, e),
    {
        if self.buffer.len() >= self.capacity {
            self.buffer.remove(0);
        }
        self.buffer.push(e);
        self.next_seq = self.next_seq + 1;
        proof {
            self.log@ = self.log@.push(e);
            assert(self.buffer@ =~= retained(self@));
            assert(self@ == bus_publish(old(self)@, e));
        }
    }

    /// A new independent consumer: it observes every event published after
    /// this call.
    pub fn subscribe(&self) -> (c: EventConsumer)
        requires
            self.wf(),
        ensures
            c@ == self@.log.len(),
    {
        EventConsumer { cursor: self.next_seq }
    }
}

impl EventConsumer {
    /// Read the next event without blocking. A consumer within the
    /// retained window gets the next event in publish order; one that
    /// lagged beyond it is told how many events it lost and resumes at the
    /// earliest retained event; one that is caught up gets nothing.
    pub fn recv(&mut self, bus: &EventBus) -> (r: RecvOutcome)
        requires
            bus.wf(),
        ensures
            old(self)@ >= bus@.log.len() ==> (r is Empty && final(self)@ == old(self)@),
            old(self)@ < first_retained(bus@) ==> (r matches RecvOutcome::Lagged(gap) && gap as nat
                == first_retained(bus@) - old(self)@ && final(self)@ == first_retained(bus@)),
            first_retained(bus@) <= old(self)@ < bus@.log.len() ==> (r matches RecvOutcome::Event(e)
                && e == bus@.log[old(self)@ as int] && final(self)@ == old(self)@ + 1),
    {
        let n: u64 = bus.next_seq;
        if self.cursor >= n {
            return RecvOutcome::Empty;
        }
        let first: u64 = n - bus.buffer.len() as u64;
        if self.cursor < first {
            let gap: u64 = first - self.cursor;
            self.cursor = first;
            RecvOutcome::Lagged(gap)
        } else {
            let idx: usize = (self.cursor - first) as usize;
            let e = bus.buffer[idx].duplicate();
            proof {
                assert(bus.buffer@[idx as int] == bus@.log[self.cursor as int]);
            }
            self.cursor = self.cursor + 1;
            RecvOutcome::Event(e)
        }
    }
}

/// Publishing a batch appends it to the log.
pub proof fn lemma_bus_publish_all(v: BusView, es: Seq<NormalizedEvent>)
    ensures
        bus_publish_all(v, es).log == v.log + es,
        bus_publish_all(v, es).capacity == v.capacity,
    decreases es.len(),
{
    if es.len() == 0 {
        assert(v.log + es =~= v.log);
    } else {
        lemma_bus_publish_all(bus_publish(v, es.first()), es.drop_first());
        assert(v.log.push(es.first()) + es.drop_first() =~= v.log + es);
    }
}

/// Ordered, complete delivery to a non-lagging subscriber: after a batch
/// of at most `capacity` events is published, a subscriber that joined
/// just before the batch reads exactly the batch, in publish order — its
/// cursor starts at the subscribe point and each read yields the next
/// batch element, never a gap. Two such subscribers each have their own
/// cursor, so each reads its own full copy.
pub proof fn lemma_bus_ordered_delivery(v: BusView, es: Seq<NormalizedEvent>)
    requires
        es.len() <= v.capacity,
    ensures
        bus_publish_all(v, es).log.len() == v.log.len() + es.len(),
        forall|i: int|
            0 <= i < es.len() ==> first_retained(bus_publish_all(v, es)) <= v.log.len() + i
                < bus_publish_all(v, es).log.len() && bus_publish_all(v, es).log[v.log.len() + i]
                == es[i],
{
    lemma_bus_publish_all(v, es);
}

/// A subscriber lagging beyond `capacity` observes a detectable gap: its
/// next read reports the lost events rather than yielding one, and it
/// resumes at the earliest retained event.
pub proof fn lemma_bus_lag_detectable(v: BusView, cursor: nat)
    requires
        v.log.len() > cursor + v.capacity,
    ensures
        cursor < first_retained(v),
        first_retained(v) - cursor == v.log.len() - v.capacity - cursor,
{
}

} // verus!
