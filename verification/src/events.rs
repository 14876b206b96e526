//! The event queue handed to the plugin with every process call.
//!
//! Events carry a common header: a time in samples within the block, a
//! namespace (event-space) id and flags. Before each process call the input
//! queue is brought into non-decreasing time order with a stable sort:
//! events that share a time keep the order in which they were pushed. The
//! output queue only collects what the plugin emits, in call order.
//!
//! Real-valued payloads (parameter values, modulation amounts, velocities)
//! travel through the validator untouched, so they are carried here as the
//! 64-bit patterns of the ABI's double-precision fields; the front end
//! converts at the boundary.

use crate::transport::TransportInfo;
use vstd::prelude::*;
use vstd::seq_lib::*;

verus! {

/// The body of an event, by kind. Field names follow the ABI's event
/// structures.
#[derive(Clone, Copy, PartialEq, Eq, Structural)]
pub enum EventPayload {
    /// A parameter set to an absolute value.
    ParamValue {
        param_id: u32,
        port_index: i16,
        channel: i16,
        key: i16,
        note_id: i32,
        value_bits: u64,
    },
    /// A modulation offset applied to a parameter.
    ParamMod {
        param_id: u32,
        port_index: i16,
        channel: i16,
        key: i16,
        note_id: i32,
        amount_bits: u64,
    },
    /// A note starting.
    NoteOn { port_index: i16, channel: i16, key: i16, note_id: i32, velocity_bits: u64 },
    /// A note released.
    NoteOff { port_index: i16, channel: i16, key: i16, note_id: i32, velocity_bits: u64 },
    /// A note expression change.
    NoteExpression {
        expression_id: i32,
        port_index: i16,
        channel: i16,
        key: i16,
        note_id: i32,
        value_bits: u64,
    },
    /// A transport snapshot.
    Transport { transport: TransportInfo },
}

/// One event: the header fields the queue orders and routes by, and the
/// payload.
#[derive(Clone, Copy, PartialEq, Eq, Structural)]
pub struct Event {
    /// Offset in samples from the start of the block; within `[0, block_size)`.
    pub time: u32,
    /// The event namespace. Core CLAP events use the core event-space id;
    /// a conforming plugin ignores namespaces it does not know.
    pub space_id: u16,
    /// Event flags from the header.
    pub flags: u32,
    /// The event body.
    pub payload: EventPayload,
}

/// The events of `s` are in non-decreasing time order.
pub open spec fn sorted_by_time(s: Seq<Event>) -> bool {
    forall|i: int, j: int| #![trigger s[i], s[j]]
        0 <= i <= j < s.len() ==> s[i].time <= s[j].time
}

/// The predicate selecting events at time `t`.
pub open spec fn time_is(t: u32) -> spec_fn(Event) -> bool {
    |e: Event| e.time == t
}

/// `reordered` holds, for every time `t`, exactly the events of `original`
/// at `t`, in the order `original` holds them. This is stability together
/// with being a permutation: each equal-time subsequence is untouched.
pub open spec fn stable_wrt_time(original: Seq<Event>, reordered: Seq<Event>) -> bool {
    forall|t: u32| #[trigger] reordered.filter(time_is(t)) == original.filter(time_is(t))
}

/// Exchanging two adjacent events with different times leaves every
/// equal-time subsequence unchanged.
proof fn lemma_swap_adjacent_preserves_time_filters(s: Seq<Event>, j: int)
    requires
        1 <= j < s.len(),
        s[j - 1].time != s[j].time,
    ensures
        stable_wrt_time(s, s.update(j - 1, s[j]).update(j, s[j - 1])),
{
    let sw = s.update(j - 1, s[j]).update(j, s[j - 1]);
    assert forall|t: u32| #[trigger] sw.filter(time_is(t)) == s.filter(time_is(t)) by {
        let p = time_is(t);
        let a = s[j - 1];
        let b = s[j];
        let front = s.subrange(0, j - 1);
        let back = s.subrange(j + 1, s.len() as int);
        assert(s =~= front + (seq![a, b] + back));
        assert(sw =~= front + (seq![b, a] + back));
        Seq::filter_distributes_over_add(front, seq![a, b] + back, p);
        Seq::filter_distributes_over_add(front, seq![b, a] + back, p);
        Seq::filter_distributes_over_add(seq![a, b], back, p);
        Seq::filter_distributes_over_add(seq![b, a], back, p);
        reveal_with_fuel(Seq::filter, 4);
        assert(seq![a, b].drop_last() =~= seq![a]);
        assert(seq![b, a].drop_last() =~= seq![b]);
        assert(seq![a].drop_last() =~= Seq::<Event>::empty());
        assert(seq![b].drop_last() =~= Seq::<Event>::empty());
        assert(seq![a, b].filter(p) =~= seq![b, a].filter(p));
        assert(sw.filter(p) == s.filter(p));
    }
}

/// A queue of events, pushed in arrival order and sorted by time before it
/// is handed to the plugin.
pub struct EventQueue {
    /// The queued events.
    pub events: Vec<Event>,
}

impl EventQueue {
    /// An empty queue.
    pub fn new() -> (r: EventQueue)
        ensures
            r.events@ =~= Seq::<Event>::empty(),
    {
        EventQueue { events: Vec::new() }
    }

    /// The number of queued events.
    pub fn len(&self) -> (r: usize)
        ensures
            r == self.events@.len(),
    {
        self.events.len()
    }

    /// The event at `index`; the backing of the ABI's `get` slot.
    pub fn get(&self, index: usize) -> (r: &Event)
        requires
            index < self.events@.len(),
        ensures
            *r == self.events@[index as int],
    {
        &self.events[index]
    }

    /// Append an event without sorting.
    pub fn push(&mut self, event: Event)
        ensures
            final(self).events@ == old(self).events@.push(event),
    {
        self.events.push(event);
    }

    /// Hand out all queued events in order and leave the queue empty; how
    /// the driver takes a block's output events for inspection.
    pub fn drain(&mut self) -> (r: Vec<Event>)
        ensures
            r@ == old(self).events@,
            final(self).events@.len() == 0,
    {
        let mut drained = Vec::new();
        std::mem::swap(&mut drained, &mut self.events);
        drained
    }

    /// Remove all events.
    pub fn clear(&mut self)
        ensures
            final(self).events@ =~= Seq::<Event>::empty(),
    {
        self.events.clear();
    }

    /// Whether every queued event lies inside a block of `block_size`
    /// samples: the header invariant the driver checks before handing the
    /// queue to a process call.
    pub fn all_within_block(&self, block_size: u32) -> (r: bool)
        ensures
            r <==> (forall|i: int|
                0 <= i < self.events@.len() ==> (#[trigger] self.events@[i]).time < block_size),
    {
        let mut i: usize = 0;
        while i < self.events.len()
            invariant
                0 <= i <= self.events@.len(),
                forall|k: int| 0 <= k < i ==> (#[trigger] self.events@[k]).time < block_size,
            decreases self.events@.len() - i,
        {
            if self.events[i].time >= block_size {
                return false;
            }
            i += 1;
        }
        true
    }

    /// Sort the queue by time, stably: afterwards times are non-decreasing,
    /// and events that share a time keep their relative order.
    pub fn sort(&mut self)
        ensures
            sorted_by_time(final(self).events@),
            stable_wrt_time(old(self).events@, final(self).events@),
            final(self).events@.len() == old(self).events@.len(),
    {
        let ghost original = self.events@;
        if self.events.len() <= 1 {
            return ;
        }
        let mut i: usize = 1;
        while i < self.events.len()
            invariant
                1 <= i <= self.events@.len(),
                self.events@.len() == original.len(),
                sorted_by_time(self.events@.take(i as int)),
                stable_wrt_time(original, self.events@),
            decreases self.events@.len() - i,
        {
            proof {
                assert forall|a: int, b: int| #![trigger self.events@[a], self.events@[b]]
                    0 <= a <= b <= i && a != i && b != i implies self.events@[a].time
                    <= self.events@[b].time by {
                    assert(self.events@.take(i as int)[a] == self.events@[a]);
                    assert(self.events@.take(i as int)[b] == self.events@[b]);
                }
            }
            let mut j: usize = i;
            while j > 0 && self.events[j - 1].time > self.events[j].time
                invariant
                    0 <= j <= i < self.events@.len(),
                    self.events@.len() == original.len(),
                    stable_wrt_time(original, self.events@),
                    forall|a: int, b: int| #![trigger self.events@[a], self.events@[b]]
                        0 <= a <= b <= i && a != j && b != j
                            ==> self.events@[a].time <= self.events@[b].time,
                    forall|b: int| #![trigger self.events@[b]]
                        j < b <= i ==> self.events@[j as int].time <= self.events@[b].time,
                decreases j,
            {
                let ghost before = self.events@;
                let a = self.events[j - 1];
                let b = self.events[j];
                self.events[j - 1] = b;
                self.events[j] = a;
                proof {
                    lemma_swap_adjacent_preserves_time_filters(before, j as int);
                    assert(self.events@ =~= before.update(j - 1, b).update(j as int, a));
                    assert forall|t: u32| #[trigger] self.events@.filter(time_is(t))
                        == original.filter(time_is(t)) by {
                        assert(self.events@.filter(time_is(t)) == before.filter(time_is(t)));
                    }
                }
                j -= 1;
            }
            proof {
                assert forall|a: int, b: int| #![trigger self.events@[a], self.events@[b]]
                    0 <= a <= b <= i implies self.events@[a].time <= self.events@[b].time by {
                    if b == j && a < j {
                        assert(self.events@[a].time <= self.events@[j - 1].time);
                        assert(self.events@[j - 1].time <= self.events@[j as int].time);
                    }
                }
                assert(sorted_by_time(self.events@.take(i as int + 1))) by {
                    assert forall|a: int|
                        0 <= a <= i implies #[trigger] self.events@.take(i as int + 1)[a]
                        == self.events@[a] by {}
                }
            }
            i += 1;
        }
        proof {
            assert(self.events@.take(self.events@.len() as int) =~= self.events@);
        }
    }
}

} // verus!
