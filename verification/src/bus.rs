//! The inter-task event bus: a bounded, multi-publisher, multi-subscriber
//! channel with drop-oldest overflow semantics.
//!
//! Publishing never blocks and never fails: producers run in
//! timing-sensitive contexts and must not stall on a slow consumer. Each
//! subscriber owns a logical copy of the stream; when a subscriber's
//! buffer is full, the oldest event still queued for it is silently
//! overwritten by the new one. A consumer that falls behind therefore
//! observes gaps — never duplicates, never reordering.

use vstd::prelude::*;
use crate::hid::KeyEvent;

verus! {

/// Append `ev` to a subscriber queue of bound `capacity`, discarding the
/// queue's oldest entry first if the queue is already full.
pub open spec fn spec_publish_one(queue: Seq<KeyEvent>, capacity: int, ev: KeyEvent) -> Seq<
    KeyEvent,
> {
    if queue.len() < capacity {
        queue.push(ev)
    } else {
        queue.skip(1).push(ev)
    }
}

/// The subscriber queue left after publishing every event of `evs` in
/// order into a queue of bound `capacity`.
pub open spec fn spec_publish_all(queue: Seq<KeyEvent>, capacity: int, evs: Seq<KeyEvent>) -> Seq<
    KeyEvent,
>
    decreases evs.len(),
{
    if evs.len() == 0 {
        queue
    } else {
        spec_publish_all(spec_publish_one(queue, capacity, evs[0]), capacity, evs.skip(1))
    }
}

/// Bounded drop-oldest event bus. Every publisher reaches every
/// subscriber; each subscriber consumes its own queue in publish order.
pub struct EventBus {
    capacity: usize,
    queues: Vec<Vec<KeyEvent>>,
}

impl EventBus {
    /// The bound every subscriber queue respects.
    pub closed spec fn spec_capacity(self) -> int {
        self.capacity as int
    }

    /// How many subscribers the bus serves.
    pub closed spec fn spec_num_subscribers(self) -> int {
        self.queues@.len() as int
    }

    /// The events currently queued for subscriber `sub`, oldest first.
    pub closed spec fn spec_queue(self, sub: int) -> Seq<KeyEvent> {
        self.queues@[sub]@
    }

    /// Structural invariant: a positive bound, respected by every queue.
    pub closed spec fn well_formed(self) -> bool {
        &&& self.capacity >= 1
        &&& forall|sub: int|
            0 <= sub < self.spec_num_subscribers() ==> (#[trigger] self.spec_queue(
                sub,
            )).len() <= self.spec_capacity()
    }

    /// Create a bus with `subscribers` empty subscriber queues, each
    /// bounded by `capacity`.
    pub fn new(capacity: usize, subscribers: usize) -> (bus: EventBus)
        requires
            capacity >= 1,
        ensures
            bus.well_formed(),
            bus.spec_capacity() == capacity,
            bus.spec_num_subscribers() == subscribers,
            forall|sub: int|
                0 <= sub < subscribers ==> #[trigger] bus.spec_queue(sub) == Seq::<
                    KeyEvent,
                >::empty(),
    {
        let mut queues: Vec<Vec<KeyEvent>> = Vec::new();
        let mut i: usize = 0;
        while i < subscribers
            invariant
                i <= subscribers,
                queues@.len() == i,
                forall|sub: int| 0 <= sub < i ==> (#[trigger] queues@[sub])@.len() == 0,
            decreases subscribers - i,
        {
            queues.push(Vec::new());
            i = i + 1;
        }
        let bus = EventBus { capacity, queues };
        proof {
            assert forall|sub: int| 0 <= sub < subscribers implies #[trigger] bus.spec_queue(sub)
                =~= Seq::<KeyEvent>::empty() by {
            }
        }
        bus
    }

    /// The bound every subscriber queue respects.
    pub fn capacity(&self) -> (capacity: usize)
        ensures
            capacity as int == self.spec_capacity(),
    {
        self.capacity
    }

    /// How many subscribers the bus serves.
    pub fn num_subscribers(&self) -> (count: usize)
        ensures
            count as int == self.spec_num_subscribers(),
    {
        self.queues.len()
    }

    /// How many events are queued for subscriber `sub`.
    pub fn queue_len(&self, sub: usize) -> (len: usize)
        requires
            sub < self.spec_num_subscribers(),
        ensures
            len as int == self.spec_queue(sub as int).len(),
    {
        self.queues[sub].len()
    }

    /// Publish an event to every subscriber. Never blocks, never fails:
    /// a full subscriber queue loses its oldest entry to make room.
    pub fn publish(&mut self, ev: KeyEvent)
        requires
            old(self).well_formed(),
        ensures
            final(self).well_formed(),
            final(self).spec_capacity() == old(self).spec_capacity(),
            final(self).spec_num_subscribers() == old(self).spec_num_subscribers(),
            forall|sub: int|
                0 <= sub < old(self).spec_num_subscribers() ==> #[trigger] final(self).spec_queue(
                    sub,
                ) == spec_publish_one(old(self).spec_queue(sub), old(self).spec_capacity(), ev),
    {
        let ghost orig = *self;
        let mut i: usize = 0;
        let n = self.queues.len();
        while i < n
            invariant
                i <= n,
                n == orig.spec_num_subscribers(),
                self.capacity == orig.capacity,
                self.queues@.len() == n,
                orig.well_formed(),
                forall|sub: int|
                    0 <= sub < i ==> #[trigger] self.spec_queue(sub) == spec_publish_one(
                        orig.spec_queue(sub),
                        orig.spec_capacity(),
                        ev,
                    ),
                forall|sub: int|
                    i <= sub < n ==> #[trigger] self.queues@[sub] == orig.queues@[sub],
            decreases n - i,
        {
            let ghost head = *self;
            let mut queue = self.queues.remove(i);
            if queue.len() == self.capacity {
                queue.remove(0);
                proof {
                    assert(queue@ =~= orig.spec_queue(i as int).skip(1));
                }
            }
            queue.push(ev);
            self.queues.insert(i, queue);
            proof {
                assert(self.queues@ =~= head.queues@.update(i as int, queue));
                assert(self.spec_queue(i as int) == spec_publish_one(
                    orig.spec_queue(i as int),
                    orig.spec_capacity(),
                    ev,
                ));
                assert forall|sub: int| 0 <= sub < i implies #[trigger] self.spec_queue(sub)
                    == spec_publish_one(orig.spec_queue(sub), orig.spec_capacity(), ev) by {
                    assert(head.spec_queue(sub) == spec_publish_one(
                        orig.spec_queue(sub),
                        orig.spec_capacity(),
                        ev,
                    ));
                    assert(self.queues@[sub] == head.queues@[sub]);
                }
            }
            i = i + 1;
        }
        proof {
            assert forall|sub: int| 0 <= sub < self.spec_num_subscribers() implies (
            #[trigger] self.spec_queue(sub)).len() <= self.spec_capacity() by {
                assert(orig.spec_queue(sub).len() <= orig.spec_capacity());
            }
        }
    }

    /// Hand subscriber `sub` its oldest queued event, if any. Events come
    /// out in publish order, modulo drop-oldest losses; the other
    /// subscribers' queues are untouched.
    pub fn try_next(&mut self, sub: usize) -> (ev: Option<KeyEvent>)
        requires
            old(self).well_formed(),
            sub < old(self).spec_num_subscribers(),
        ensures
            final(self).well_formed(),
            final(self).spec_capacity() == old(self).spec_capacity(),
            final(self).spec_num_subscribers() == old(self).spec_num_subscribers(),
            old(self).spec_queue(sub as int).len() == 0 ==> ev is None && *final(self) == *old(
                self,
            ),
            old(self).spec_queue(sub as int).len() > 0 ==> ev == Some(
                old(self).spec_queue(sub as int)[0],
            ) && final(self).spec_queue(sub as int) == old(self).spec_queue(sub as int).skip(1),
            forall|other: int|
                0 <= other < old(self).spec_num_subscribers() && other != sub
                    ==> #[trigger] final(self).spec_queue(other) == old(self).spec_queue(other),
    {
        let ghost orig = *self;
        if self.queues[sub].len() == 0 {
            proof {
                assert(*self =~= orig);
            }
            return None;
        }
        let mut queue = self.queues.remove(sub);
        let ev = queue.remove(0);
        self.queues.insert(sub, queue);
        proof {
            assert(self.queues@ =~= orig.queues@.update(sub as int, self.queues@[sub as int]));
            assert(self.spec_queue(sub as int) =~= orig.spec_queue(sub as int).skip(1));
            assert forall|other: int|
                0 <= other < orig.spec_num_subscribers() && other != sub implies
                #[trigger] self.spec_queue(other) == orig.spec_queue(other) by {
                assert(self.queues@[other] == orig.queues@[other]);
            }
            assert forall|any: int| 0 <= any < self.spec_num_subscribers() implies (
            #[trigger] self.spec_queue(any)).len() <= self.spec_capacity() by {
                assert(orig.spec_queue(any).len() <= orig.spec_capacity());
            }
        }
        Some(ev)
    }
}

/// Drop-oldest law: publishing `k` events into an empty bounded queue
/// leaves exactly the most recent `capacity` of them, in publish order;
/// the earliest `k - capacity` are silently lost. When everything fits,
/// nothing is lost.
pub proof fn lemma_bus_drop_oldest(capacity: int, evs: Seq<KeyEvent>)
    requires
        capacity >= 1,
    ensures
        evs.len() > capacity ==> spec_publish_all(Seq::empty(), capacity, evs) == evs.skip(
            evs.len() - capacity,
        ),
        evs.len() <= capacity ==> spec_publish_all(Seq::empty(), capacity, evs) == evs,
{
    lemma_publish_all_general(Seq::empty(), capacity, evs);
    if evs.len() > capacity {
        assert(Seq::<KeyEvent>::empty() + evs =~= evs);
        assert(spec_publish_all(Seq::empty(), capacity, evs) == evs.skip(evs.len() - capacity));
    } else {
        assert(Seq::<KeyEvent>::empty() + evs =~= evs);
    }
}

/// General form of the drop-oldest law: a queue within its bound, extended
/// by a publish burst, holds the last `capacity` events of "queue then
/// burst" (or all of them, when they fit).
pub proof fn lemma_publish_all_general(queue: Seq<KeyEvent>, capacity: int, evs: Seq<KeyEvent>)
    requires
        capacity >= 1,
        queue.len() <= capacity,
    ensures
        queue.len() + evs.len() > capacity ==> spec_publish_all(queue, capacity, evs) == (queue
            + evs).skip(queue.len() + evs.len() - capacity),
        queue.len() + evs.len() <= capacity ==> spec_publish_all(queue, capacity, evs) == queue
            + evs,
    decreases evs.len(),
{
    if evs.len() == 0 {
        assert(queue + evs =~= queue);
    } else {
        let stepped = spec_publish_one(queue, capacity, evs[0]);
        lemma_publish_all_general(stepped, capacity, evs.skip(1));
        if queue.len() < capacity {
            assert(stepped + evs.skip(1) =~= queue + evs);
        } else {
            assert(stepped + evs.skip(1) =~= (queue + evs).skip(1));
            if stepped.len() + evs.skip(1).len() > capacity {
                assert(spec_publish_all(queue, capacity, evs) == (stepped + evs.skip(1)).skip(
                    stepped.len() + evs.skip(1).len() - capacity,
                ));
                assert((queue + evs).skip(1).skip(queue.len() + evs.len() - 1 - capacity) =~= (queue
                    + evs).skip(queue.len() + evs.len() - capacity));
            }
        }
    }
}

} // verus!
