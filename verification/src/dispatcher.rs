//! The bounded queues at the host boundary: the outbound dispatcher, through
//! which every event passes on its way to the host, and the command inlet,
//! through which the host's commands arrive.
//!
//! Many producers put items in; one consumer takes them out, one at a time,
//! in the order of their arrival. A producer never waits: where the queue is
//! full, the item is dropped. A dropped frame of a live status feed is made
//! good by the next one.

use vstd::prelude::*;
use crate::media_info::{JniCallback, MetadataInfo, PlaybackInfo, SessionInfo};

verus! {

/// The capacity of the outbound dispatcher's queue.
pub const OUTBOUND_CAPACITY: usize = 10;

/// The capacity of the command inlet of the registry.
pub const INLET_CAPACITY: usize = 100;

/// The capacity of the command inlet of one tracker.
pub const TRACKER_INLET_CAPACITY: usize = 1;

/// What became of an item that a producer offered.
#[derive(Clone, Copy, Debug, PartialEq, Eq, Structural)]
pub enum Offered {
    /// The item is in the queue.
    Queued,
    /// The queue was full; the item is lost.
    Dropped,
}

/// A queue that holds a bounded number of items in the order of their
/// arrival.
#[derive(Debug)]
pub struct BoundedQueue<T> {
    items: Vec<T>,
    capacity: usize,
}

impl<T> View for BoundedQueue<T> {
    type V = Seq<T>;

    closed spec fn view(&self) -> Seq<T> {
        self.items@
    }
}

impl<T> BoundedQueue<T> {
    /// The number of items that the queue can hold.
    pub closed spec fn spec_capacity(&self) -> nat {
        self.capacity as nat
    }

    #[verifier::type_invariant]
    spec fn inv(&self) -> bool {
        self.items@.len() <= self.capacity
    }

    /// An empty queue that can hold `capacity` items.
    pub fn new(capacity: usize) -> (r: BoundedQueue<T>)
        ensures
            r@.len() == 0,
            r.spec_capacity() == capacity,
    {
        BoundedQueue { items: Vec::new(), capacity }
    }

    /// The number of items that the queue can hold.
    pub fn capacity(&self) -> (n: usize)
        ensures
            n == self.spec_capacity(),
    {
        self.capacity
    }

    /// The number of items in the queue, which never exceeds the capacity.
    pub fn len(&self) -> (n: usize)
        ensures
            n == self@.len(),
            n <= self.spec_capacity(),
    {
        proof {
            use_type_invariant(self);
        }
        self.items.len()
    }

    /// Whether the queue holds no item.
    pub fn is_empty(&self) -> (b: bool)
        ensures
            b == (self@.len() == 0),
    {
        self.items.len() == 0
    }

    /// Whether the queue holds as many items as it can.
    pub fn is_full(&self) -> (b: bool)
        ensures
            b == (self@.len() == self.spec_capacity()),
            self@.len() <= self.spec_capacity(),
    {
        proof {
            use_type_invariant(self);
        }
        self.items.len() >= self.capacity
    }

    /// A producer offers an item and does not wait: the item goes to the end
    /// of the queue, or is dropped where the queue is full.
    pub fn offer(&mut self, item: T) -> (r: Offered)
        ensures
            final(self).spec_capacity() == old(self).spec_capacity(),
            final(self)@.len() <= final(self).spec_capacity(),
            old(self)@.len() < old(self).spec_capacity() ==> r == Offered::Queued && final(self)@
                == old(self)@.push(item),
            old(self)@.len() >= old(self).spec_capacity() ==> r == Offered::Dropped
                && final(self)@ == old(self)@,
    {
        proof {
            use_type_invariant(&*self);
        }
        if self.items.len() < self.capacity {
            let mut items: Vec<T> = Vec::new();
            std::mem::swap(&mut self.items, &mut items);
            items.push(item);
            self.items = items;
            Offered::Queued
        } else {
            Offered::Dropped
        }
    }

    /// The consumer takes the item that arrived first, if there is one.
    pub fn take(&mut self) -> (r: Option<T>)
        ensures
            final(self).spec_capacity() == old(self).spec_capacity(),
            match r {
                Some(item) => old(self)@.len() > 0 && item == old(self)@[0] && final(self)@
                    == old(self)@.drop_first(),
                None => old(self)@.len() == 0 && final(self)@ == old(self)@,
            },
    {
        proof {
            use_type_invariant(&*self);
        }
        if self.items.len() == 0 {
            None
        } else {
            let mut items: Vec<T> = Vec::new();
            std::mem::swap(&mut self.items, &mut items);
            let item = items.remove(0);
            assert(items@ =~= old(self)@.drop_first());
            self.items = items;
            Some(item)
        }
    }

    /// Drops every item, as at shutdown.
    pub fn clear(&mut self)
        ensures
            final(self).spec_capacity() == old(self).spec_capacity(),
            final(self)@.len() == 0,
    {
        self.items = Vec::new();
    }
}

/// What the consumer takes out of a queue that producers offered `offered`
/// to, in this order, while nothing was taken: the first of them, as many as
/// the queue had room for.
pub open spec fn spec_after_offers<T>(queue: Seq<T>, capacity: nat, offered: Seq<T>) -> Seq<T>
    decreases offered.len(),
{
    if offered.len() == 0 {
        queue
    } else {
        let before = spec_after_offers(queue, capacity, offered.drop_last());
        if before.len() < capacity {
            before.push(offered.last())
        } else {
            before
        }
    }
}

/// Arrival order: whatever is offered to a queue, the queue then holds what
/// it held, followed by the first of the offered items, as many as it had
/// room for, in the order in which they were offered.
pub proof fn lemma_offers_keep_order<T>(queue: Seq<T>, capacity: nat, offered: Seq<T>)
    requires
        queue.len() <= capacity,
    ensures
        spec_after_offers(queue, capacity, offered).len() <= capacity,
        spec_after_offers(queue, capacity, offered) == queue + offered.take(
            spec_after_offers(queue, capacity, offered).len() - queue.len(),
        ),
        spec_after_offers(queue, capacity, offered).len() == if queue.len() + offered.len()
            <= capacity {
            queue.len() + offered.len()
        } else {
            capacity
        },
    decreases offered.len(),
{
    if offered.len() > 0 {
        let head = offered.drop_last();
        lemma_offers_keep_order(queue, capacity, head);
        let before = spec_after_offers(queue, capacity, head);
        let after = spec_after_offers(queue, capacity, offered);
        let k = before.len() - queue.len();
        assert(head.take(k) == offered.take(k));
        if before.len() < capacity {
            assert(k == head.len());
            assert(offered.take(k + 1) =~= offered.take(k).push(offered.last()));
            assert(after =~= queue + offered.take(k + 1));
        }
    } else {
        assert(queue + offered.take(0) =~= queue);
    }
}

/// The event that hands the session list to the host.
pub fn sessions_changed(sessions: Vec<SessionInfo>) -> (r: JniCallback)
    ensures
        r == JniCallback::SessionsChanged(sessions),
{
    JniCallback::SessionsChanged(sessions)
}

/// The event that tells the host what the player `app_id` plays.
pub fn metadata_changed(app_id: &str, metadata: MetadataInfo) -> (r: JniCallback)
    ensures
        r matches JniCallback::MetadataChanged(id, m) && id@ == app_id@ && m == metadata,
{
    JniCallback::MetadataChanged(app_id.to_owned(), metadata)
}

/// The event that tells the host where the player `app_id` stands.
pub fn playback_state_changed(app_id: &str, playback: PlaybackInfo) -> (r: JniCallback)
    ensures
        r matches JniCallback::PlaybackStateChanged(id, p) && id@ == app_id@ && p == playback,
{
    JniCallback::PlaybackStateChanged(app_id.to_owned(), playback)
}

} // verus!
