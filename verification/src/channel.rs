//! The change channel: a single-producer, multi-consumer latest-value
//! broadcast.
//!
//! One producer (the update task) publishes accepted values; any number of
//! independent subscribers read them through their own cursors. The channel
//! retains only a small bounded window of the most recent events — it is a
//! lossy latest-value broadcast, not a durable log. Publishing never waits:
//! when the window is full, the oldest retained event is overwritten. A
//! subscriber sees every event published after its subscription point in
//! publish order, unless it falls behind by more than the window size, in
//! which case the overwritten events are silently skipped and reading
//! resumes at the oldest retained one.
//!
//! The channel carries a ghost log of every event ever published, so that
//! contracts can name events by their position in the total publish order.

use vstd::math::max;
use vstd::math::min;
use vstd::prelude::*;

verus! {

/// How many of the most recent events a Thing's change channel retains: a
/// subscriber that falls behind by more than this many publishes misses the
/// overwritten ones.
pub const CHANNEL_CAPACITY: usize = 2;

/// A bounded latest-value broadcast channel.
pub struct ChangeChannel<T> {
    window: Vec<T>,
    count: usize,
    capacity: usize,
    events: Ghost<Seq<T>>,
}

/// One subscriber's independent read position: the number of events, in
/// publish order, that it has consumed or skipped.
pub struct SubscriberCursor {
    pos: usize,
}

impl SubscriberCursor {
    /// The cursor's position in the total publish order.
    pub closed spec fn pos(&self) -> int {
        self.pos as int
    }
}

/// The index of the next event a subscriber at position `pos` reads, once
/// `published` events exist in a window of size `capacity`: the oldest
/// retained event at or after the cursor.
pub open spec fn next_event_index(published: int, capacity: int, pos: int) -> int {
    max(pos, published - capacity)
}

/// The events a subscriber at position `pos` still receives if it drains
/// the channel now: everything after its position that the window still
/// retains, in publish order.
pub open spec fn pending_events<T>(events: Seq<T>, capacity: int, pos: int) -> Seq<T> {
    events.subrange(next_event_index(events.len() as int, capacity, pos), events.len() as int)
}

impl<T: Copy> ChangeChannel<T> {
    /// Every event ever published, in publish order.
    pub closed spec fn events(&self) -> Seq<T> {
        self.events@
    }

    /// The fixed size of the retained window.
    pub closed spec fn capacity(&self) -> int {
        self.capacity as int
    }

    /// The channel's invariant: the window holds exactly the most recent
    /// events, at most `capacity` of them.
    pub closed spec fn wf(&self) -> bool {
        &&& self.capacity >= 1
        &&& self.events@.len() == self.count
        &&& self.window@.len() == min(self.count as int, self.capacity as int)
        &&& self.window@ == self.events@.subrange(
            self.count - self.window@.len(),
            self.count as int,
        )
    }

    /// An empty channel retaining at most `capacity` events.
    pub fn new(capacity: usize) -> (c: ChangeChannel<T>)
        requires
            capacity >= 1,
        ensures
            c.wf(),
            c.events() == Seq::<T>::empty(),
            c.capacity() == capacity,
    {
        let c = ChangeChannel { window: Vec::new(), count: 0, capacity, events: Ghost(Seq::empty()) };
        proof {
            assert(c.window@ =~= c.events@.subrange(0, 0));
        }
        c
    }

    /// Publish an event: append it to the total order, overwriting the
    /// oldest retained event when the window is full. Never waits, never
    /// fails, whatever the subscribers do.
    pub fn publish(&mut self, value: T)
        requires
            old(self).wf(),
            old(self).events().len() < usize::MAX,
        ensures
            final (self).wf(),
            final (self).events() == old(self).events().push(value),
            final (self).capacity() == old(self).capacity(),
    {
        if self.window.len() == self.capacity {
            self.window.remove(0);
        }
        self.window.push(value);
        self.count = self.count + 1;
        proof {
            self.events@ = self.events@.push(value);
            assert(self.window@ =~= self.events@.subrange(
                self.count - self.window@.len(),
                self.count as int,
            ));
        }
    }

    /// Register a new subscriber. Its cursor starts at the current end of
    /// the publish order, so it sees exactly the events published after
    /// this call.
    pub fn subscribe(&self) -> (cur: SubscriberCursor)
        requires
            self.wf(),
        ensures
            cur.pos() == self.events().len(),
    {
        SubscriberCursor { pos: self.count }
    }

    /// Read the next event past the cursor, without waiting: the oldest
    /// retained event at or after the cursor's position, or `None` when the
    /// cursor has consumed everything published so far. Advances the cursor
    /// past the returned event, skipping any events that aged out of the
    /// window before this read.
    pub fn poll(&self, cur: &mut SubscriberCursor) -> (ev: Option<T>)
        requires
            self.wf(),
            old(cur).pos() <= self.events().len(),
        ensures
            final (cur).pos() <= self.events().len(),
            match ev {
                Some(v) => {
                    let i = next_event_index(
                        self.events().len() as int,
                        self.capacity(),
                        old(cur).pos(),
                    );
                    &&& old(cur).pos() < self.events().len()
                    &&& v == self.events()[i]
                    &&& final (cur).pos() == i + 1
                },
                None => {
                    &&& old(cur).pos() == self.events().len()
                    &&& final (cur).pos() == old(cur).pos()
                },
            },
    {
        if cur.pos >= self.count {
            return None;
        }
        let oldest: usize = self.count - self.window.len();
        let i: usize = if cur.pos > oldest {
            cur.pos
        } else {
            oldest
        };
        let value = self.window[i - oldest];
        cur.pos = i + 1;
        Some(value)
    }

    /// Read every event the cursor still has pending, in publish order,
    /// leaving the cursor fully caught up.
    pub fn drain(&self, cur: &mut SubscriberCursor) -> (evs: Vec<T>)
        requires
            self.wf(),
            old(cur).pos() <= self.events().len(),
        ensures
            evs@ == pending_events(self.events(), self.capacity(), old(cur).pos()),
            final (cur).pos() == self.events().len(),
    {
        let ghost start = next_event_index(
            self.events().len() as int,
            self.capacity(),
            old(cur).pos(),
        );
        let mut evs: Vec<T> = Vec::new();
        proof {
            assert(evs@ =~= self.events().subrange(start, start));
        }
        loop
            invariant
                self.wf(),
                start == next_event_index(
                    self.events().len() as int,
                    self.capacity(),
                    old(cur).pos(),
                ),
                cur.pos() <= self.events().len(),
                cur.pos() == old(cur).pos() || start <= cur.pos(),
                evs@ == self.events().subrange(start, max(start, cur.pos())),
            decreases self.events().len() - cur.pos(),
        {
            let ghost pos_before = cur.pos();
            match self.poll(cur) {
                Some(v) => {
                    evs.push(v);
                    proof {
                        let len = self.events().len() as int;
                        let i = next_event_index(len, self.capacity(), pos_before);
                        assert(max(start, pos_before) == max(start, i));
                        assert(evs@ =~= self.events().subrange(start, max(start, cur.pos())));
                    }
                },
                None => {
                    proof {
                        assert(max(start, cur.pos()) == self.events().len() as int);
                        assert(evs@ =~= pending_events(
                            self.events(),
                            self.capacity(),
                            old(cur).pos(),
                        ));
                    }
                    return evs;
                },
            }
        }
    }
}

/// Independent subscribers: any two subscribers whose subscription points
/// lie at or before a published event both receive that event when they
/// drain, as long as it has not yet aged out of the retained window — each
/// at its own pace, neither affecting the other.
pub proof fn lemma_independent_subscribers<T>(
    events: Seq<T>,
    capacity: int,
    pos1: int,
    pos2: int,
    k: int,
)
    requires
        capacity >= 1,
        0 <= pos1 <= k,
        0 <= pos2 <= k,
        k < events.len(),
        events.len() - capacity <= k,
    ensures
        pending_events(events, capacity, pos1).contains(events[k]),
        pending_events(events, capacity, pos2).contains(events[k]),
{
    let len = events.len() as int;
    let i1 = next_event_index(len, capacity, pos1);
    assert(pending_events(events, capacity, pos1)[k - i1] == events[k]);
    let i2 = next_event_index(len, capacity, pos2);
    assert(pending_events(events, capacity, pos2)[k - i2] == events[k]);
}

} // verus!
