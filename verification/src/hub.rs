//! The broadcast hub: a bounded buffer of published records that any number
//! of subscribers read, each through a cursor of its own.
//!
//! Publishing never waits for a subscriber. A full buffer drops its oldest
//! record, and a subscriber that was still to read it has missed it.

use crate::record::LogRecord;
use std::collections::VecDeque;
use vstd::prelude::*;

verus! {

/// The capacity of the hub that the pipeline runs with.
pub const DEFAULT_CAPACITY: usize = 1000;

/// What a hub is, seen from outside: its capacity and every record that was
/// ever published through it, oldest first. A record is known by its place
/// in that history.
pub struct HubState {
    pub capacity: nat,
    pub history: Seq<Map<Seq<char>, Seq<char>>>,
}

impl HubState {
    /// The place of the oldest record that the buffer still holds; the length
    /// of the history where it holds none.
    pub open spec fn oldest(self) -> nat {
        if self.history.len() > self.capacity {
            (self.history.len() - self.capacity) as nat
        } else {
            0
        }
    }

    /// The records that the buffer still holds, oldest first.
    pub open spec fn retained(self) -> Seq<Map<Seq<char>, Seq<char>>> {
        self.history.subrange(self.oldest() as int, self.history.len() as int)
    }

    /// The hub after `record` was published: the record stands at the end of
    /// the history. A history that has reached the largest count of the
    /// machine grows no more.
    pub open spec fn after_publish(self, record: Map<Seq<char>, Seq<char>>) -> HubState {
        if self.history.len() < u64::MAX {
            HubState { history: self.history.push(record), ..self }
        } else {
            self
        }
    }

    /// `later` is this hub after some further records were published.
    pub open spec fn grows_to(self, later: HubState) -> bool {
        &&& later.capacity == self.capacity
        &&& self.history.len() <= later.history.len()
        &&& later.history.subrange(0, self.history.len() as int) == self.history
    }

    /// The record that a cursor at `position` is handed by its next read, if
    /// it is handed one: the record at that place, while the buffer holds it.
    pub open spec fn hands_over(self, position: nat) -> Option<Map<Seq<char>, Seq<char>>> {
        if self.oldest() <= position < self.history.len() {
            Some(self.history[position as int])
        } else {
            None
        }
    }

    /// How many records a cursor at `position` has missed for good.
    pub open spec fn missed(self, position: nat) -> nat {
        if position < self.oldest() {
            (self.oldest() - position) as nat
        } else {
            0
        }
    }

    /// Where a cursor at `position` stands after its next read: one further
    /// after a record, at the oldest record after a miss, and where it was
    /// while nothing is there to read.
    pub open spec fn position_after(self, position: nat) -> nat {
        if position >= self.history.len() {
            position
        } else if position < self.oldest() {
            self.oldest()
        } else {
            position + 1
        }
    }

    /// The records that a cursor at `position` is handed, in the order in
    /// which it is handed them, when it reads until nothing is left.
    pub open spec fn drained(self, position: nat) -> Seq<Map<Seq<char>, Seq<char>>>
        decreases self.history.len() - position,
    {
        if position >= self.history.len() {
            Seq::empty()
        } else {
            match self.hands_over(position) {
                Some(record) => seq![record] + self.drained(self.position_after(position)),
                None => self.drained(self.position_after(position)),
            }
        }
    }
}

/// The read position of one subscriber.
#[derive(Debug)]
pub struct Cursor {
    next: u64,
}

impl View for Cursor {
    type V = nat;

    closed spec fn view(&self) -> nat {
        self.next as nat
    }
}

/// What a read through a cursor gives.
#[derive(Debug)]
pub enum Delivery {
    /// The next record in publish order.
    Record(LogRecord),
    /// So many records were dropped before the cursor could read them; it
    /// now stands at the oldest record that is left.
    Missed(u64),
    /// Nothing has been published beyond the cursor.
    Pending,
}

/// A bounded broadcast buffer.
pub struct BroadcastHub {
    capacity: usize,
    buffer: VecDeque<LogRecord>,
    published: u64,
    history: Ghost<Seq<Map<Seq<char>, Seq<char>>>>,
}

impl View for BroadcastHub {
    type V = HubState;

    closed spec fn view(&self) -> HubState {
        HubState { capacity: self.capacity as nat, history: self.history@ }
    }
}

impl BroadcastHub {
    #[verifier::type_invariant]
    spec fn well_formed(&self) -> bool {
        &&& self.published == self.history@.len()
        &&& self.buffer@.len() == self@.retained().len()
        &&& forall|i: int|
            0 <= i < self.buffer@.len() ==> (#[trigger] self.buffer@[i])@ == self@.retained()[i]
    }

    /// A hub that holds at most `capacity` records and has published none.
    pub fn new(capacity: usize) -> (hub: BroadcastHub)
        ensures
            hub@ == (HubState { capacity: capacity as nat, history: Seq::empty() }),
    {
        BroadcastHub { capacity, buffer: VecDeque::new(), published: 0, history: Ghost(Seq::empty()) }
    }

    /// The largest number of records that the buffer holds.
    pub fn capacity(&self) -> (capacity: usize)
        ensures
            capacity == self@.capacity,
    {
        self.capacity
    }

    /// The number of records published so far.
    pub fn published(&self) -> (count: u64)
        ensures
            count == self@.history.len(),
    {
        proof {
            use_type_invariant(self);
        }
        self.published
    }

    /// Publishes `record` to every cursor that has not passed it. Where the
    /// buffer is full its oldest record is dropped. This never waits, and it
    /// needs no subscriber. A hub whose history has reached the largest
    /// count takes no further record.
    pub fn publish(&mut self, record: LogRecord)
        ensures
            final(self)@ == old(self)@.after_publish(record@),
    {
        proof {
            use_type_invariant(&*self);
        }
        if self.published == u64::MAX {
            return;
        }
        let mut taken = BroadcastHub::new(self.capacity);
        core::mem::swap(self, &mut taken);
        let BroadcastHub { capacity, buffer, published, history } = taken;
        let mut buffer = buffer;
        let ghost before = HubState { capacity: capacity as nat, history: history@ };
        let ghost after = before.after_publish(record@);
        buffer.push_back(record);
        if buffer.len() > capacity {
            buffer.pop_front();
        }
        proof {
            assert(buffer@.len() == after.retained().len());
            assert forall|i: int| 0 <= i < buffer@.len() implies (#[trigger] buffer@[i])@
                == after.retained()[i] by {
                if before.history.len() < capacity {
                    if i < before.retained().len() {
                        assert(before.retained()[i] == after.retained()[i]);
                    }
                } else {
                    if i + 1 < buffer@.len() {
                        assert(before.retained()[i + 1] == after.retained()[i]);
                    }
                }
            }
        }
        *self = BroadcastHub {
            capacity,
            buffer,
            published: published + 1,
            history: Ghost(after.history),
        };
    }

    /// A cursor for a new subscriber. It stands behind everything published
    /// so far: the subscriber is handed only what is published from now on.
    pub fn subscribe(&self) -> (cursor: Cursor)
        ensures
            cursor@ == self@.history.len(),
    {
        proof {
            use_type_invariant(self);
        }
        Cursor { next: self.published }
    }

    /// Reads through `cursor`: hands over the record at its position and
    /// moves it one further; or, where that record was dropped, moves it to
    /// the oldest record left and says how many it has missed; or says that
    /// nothing is there yet and leaves it where it was. A cursor that stands
    /// beyond the history, as one of another hub may, is handed nothing until
    /// the history has reached it.
    pub fn poll(&self, cursor: &mut Cursor) -> (delivery: Delivery)
        ensures
            final(cursor)@ == self@.position_after(old(cursor)@),
            match delivery {
                Delivery::Record(record) => self@.hands_over(old(cursor)@) == Some(record@),
                Delivery::Missed(missed) => old(cursor)@ < self@.oldest() && missed
                    == self@.missed(old(cursor)@),
                Delivery::Pending => old(cursor)@ >= self@.history.len(),
            },
    {
        proof {
            use_type_invariant(self);
        }
        let retained: u64 = self.buffer.len() as u64;
        let oldest: u64 = self.published - retained;
        if cursor.next >= self.published {
            Delivery::Pending
        } else if cursor.next < oldest {
            let missed: u64 = oldest - cursor.next;
            cursor.next = oldest;
            Delivery::Missed(missed)
        } else {
            let index: usize = (cursor.next - oldest) as usize;
            let record = self.buffer[index].clone();
            assert(self@.retained()[index as int] == self@.history[old(cursor)@ as int]);
            cursor.next = cursor.next + 1;
            Delivery::Record(record)
        }
    }
}

/// A cursor behind everything the buffer holds is handed nothing.
proof fn lemma_drained_at_end(state: HubState, position: nat)
    requires
        position >= state.history.len(),
    ensures
        state.drained(position) == Seq::<Map<Seq<char>, Seq<char>>>::empty(),
{
}

/// A read never moves a cursor back, and it moves the cursor past each
/// record that it hands over: no record is handed to a cursor twice.
pub proof fn law_cursor_moves_forward(state: HubState, position: nat)
    ensures
        state.position_after(position) >= position,
        state.hands_over(position) is Some ==> state.position_after(position) == position + 1,
        state.position_after(position) == position ==> position >= state.history.len(),
{
}

/// Delivery keeps the publish order: a cursor that reads until nothing is
/// left is handed exactly the records from its position on that the buffer
/// still holds, each once and in the order in which they were published.
/// What was dropped before the cursor reached it is the only gap.
pub proof fn law_delivery_in_publish_order(state: HubState, position: nat)
    requires
        position <= state.history.len(),
    ensures
        state.drained(position) == state.history.subrange(
            if position < state.oldest() {
                state.oldest() as int
            } else {
                position as int
            },
            state.history.len() as int,
        ),
    decreases state.history.len() - position,
{
    let len = state.history.len();
    let from = if position < state.oldest() {
        state.oldest()
    } else {
        position
    };
    if position >= len {
        assert(state.drained(position) =~= state.history.subrange(from as int, len as int));
    } else if position < state.oldest() {
        law_delivery_in_publish_order(state, state.oldest());
    } else {
        law_delivery_in_publish_order(state, position + 1);
        assert(state.drained(position) =~= state.history.subrange(from as int, len as int));
    }
}

/// Reads follow the publish order across publishes as well: where a cursor
/// is handed a record, and later, after more records were published and
/// after it has moved on, another, the first was published before the second.
pub proof fn law_later_reads_are_later_records(
    earlier: HubState,
    later: HubState,
    first: nat,
    second: nat,
)
    requires
        earlier.grows_to(later),
        earlier.hands_over(first) is Some,
        earlier.position_after(first) <= second,
        later.hands_over(second) is Some,
    ensures
        earlier.hands_over(first) == Some(later.history[first as int]),
        later.hands_over(second) == Some(later.history[second as int]),
        first < second,
{
    assert(later.history.subrange(0, earlier.history.len() as int)[first as int]
        == later.history[first as int]);
}

/// A new subscriber sees no history: right after subscribing nothing is
/// there for it to read, and whatever is published later, it is handed only
/// records that were published after it subscribed.
pub proof fn law_new_subscriber_sees_no_history(at_subscribe: HubState, later: HubState)
    requires
        at_subscribe.grows_to(later),
    ensures
        at_subscribe.drained(at_subscribe.history.len()) == Seq::<
            Map<Seq<char>, Seq<char>>,
        >::empty(),
        at_subscribe.hands_over(at_subscribe.history.len()) is None,
        at_subscribe.position_after(at_subscribe.history.len()) == at_subscribe.history.len(),
        later.drained(at_subscribe.history.len()) == later.history.subrange(
            if at_subscribe.history.len() < later.oldest() {
                later.oldest() as int
            } else {
                at_subscribe.history.len() as int
            },
            later.history.len() as int,
        ),
{
    lemma_drained_at_end(at_subscribe, at_subscribe.history.len());
    law_delivery_in_publish_order(later, at_subscribe.history.len());
}

} // verus!
