//! Draining a batch of completions into the ticket arena.
use vstd::prelude::*;
use crate::completion::{Completion, is_sentinel, is_internal};
use crate::ticket::{
    Delivery, SlotState, TicketArena, TicketPoll, Slot, delivered_slots, delivery_outcome,
    lemma_identity_unique, lemma_live_not_sentinel, MAX_TICKETS, poll_outcome, polled_slots, slot_index, ticket_state,
};

verus! {

/// Slots after every completion of `batch` is handled in order: internal
/// records are discarded, the rest go to the ticket their tag addresses.
pub open spec fn drained<W>(s: Seq<Slot<W>>, batch: Seq<Completion>) -> Seq<Slot<W>>
    decreases batch.len(),
{
    if batch.len() == 0 {
        s
    } else {
        let before = drained(s, batch.drop_last());
        let c = batch.last();
        if is_sentinel(c.user_data) {
            before
        } else {
            delivered_slots(before, c.user_data, c)
        }
    }
}

/// The consumers to wake after draining `batch`, in the order the batch reports them.
pub open spec fn woken<W>(s: Seq<Slot<W>>, batch: Seq<Completion>) -> Seq<W>
    decreases batch.len(),
{
    if batch.len() == 0 {
        Seq::empty()
    } else {
        let prefix = batch.drop_last();
        let c = batch.last();
        if is_sentinel(c.user_data) {
            woken(s, prefix)
        } else {
            match delivery_outcome(drained(s, prefix), c.user_data) {
                Delivery::Woken(w) => woken(s, prefix).push(w),
                _ => woken(s, prefix),
            }
        }
    }
}

/// Handles each completion of `batch` in order and returns the consumers to wake.
pub fn cq_drain<W>(arena: &mut TicketArena<W>, batch: &Vec<Completion>) -> (wake: Vec<W>)
    ensures
        final(arena).slots() == drained(old(arena).slots(), batch@),
        wake@ == woken(old(arena).slots(), batch@),
        final(arena).slots().len() == old(arena).slots().len(),
{
    let ghost s = arena.slots();
    let mut wake: Vec<W> = Vec::new();
    let mut k: usize = 0;
    while k < batch.len()
        invariant
            0 <= k <= batch@.len(),
            arena.slots() == drained(s, batch@.subrange(0, k as int)),
            wake@ == woken(s, batch@.subrange(0, k as int)),
            arena.slots().len() == s.len(),
        decreases batch@.len() - k,
    {
        let c = batch[k];
        proof {
            assert(batch@.subrange(0, k + 1).drop_last() == batch@.subrange(0, k as int));
        }
        if !is_internal(c.user_data) {
            match arena.deliver(c.user_data, c) {
                Delivery::Woken(w) => wake.push(w),
                _ => {},
            }
        }
        k = k + 1;
    }
    proof {
        assert(batch@.subrange(0, batch@.len() as int) == batch@);
    }
    wake
}

/// A ticket takes exactly one value: while nothing is delivered a poll reports
/// pending and keeps the ticket waiting; after a delivery every poll reports that
/// same value and changes nothing, and a second delivery is ignored.
pub proof fn lemma_single_delivery<W>(s: Seq<Slot<W>>, id: u64, w: W, value: Completion, other: Completion)
    requires
        ticket_state(s, id) matches Some(SlotState::Waiting { .. }),
    ensures
        poll_outcome(s, id) == TicketPoll::Pending,
        ticket_state(polled_slots(s, id, w), id) == Some(SlotState::Waiting { waiter: Some(w) }),
        ({
            let after = delivered_slots(s, id, value);
            &&& ticket_state(after, id) == Some(SlotState::<W>::Ready { value })
            &&& poll_outcome(after, id) == TicketPoll::Ready(value)
            &&& polled_slots(after, id, w) == after
            &&& delivery_outcome(after, id) is Ignored
            &&& delivered_slots(after, id, other) == after
        }),
{
}

/// Draining two batches one after the other does what draining them as one
/// batch does, and wakes the first batch's consumers before the second's.
pub proof fn lemma_drain_batches<W>(s: Seq<Slot<W>>, first: Seq<Completion>, second: Seq<Completion>)
    ensures
        drained(s, first + second) == drained(drained(s, first), second),
        woken(s, first + second) == woken(s, first) + woken(drained(s, first), second),
    decreases second.len(),
{
    if second.len() == 0 {
        assert(first + second == first);
        assert(woken(s, first) + Seq::<W>::empty() == woken(s, first));
    } else {
        let joined = first + second;
        assert(joined.drop_last() == first + second.drop_last());
        assert(joined.last() == second.last());
        lemma_drain_batches(s, first, second.drop_last());
        let mid = drained(s, first);
        let c = second.last();
        if !is_sentinel(c.user_data) {
            match delivery_outcome(drained(mid, second.drop_last()), c.user_data) {
                Delivery::Woken(w) => {
                    assert(woken(s, first) + woken(mid, second.drop_last()).push(w)
                        == (woken(s, first) + woken(mid, second.drop_last())).push(w));
                },
                _ => {},
            }
        }
    }
}

/// Completions reach their tickets in the order the kernel reports them, not the
/// order of submission: a batch reporting `b` before `a` wakes `b`'s consumer first.
pub proof fn lemma_drain_follows_report_order<W>(
    s: Seq<Slot<W>>,
    a: Completion,
    b: Completion,
    wa: W,
    wb: W,
)
    requires
        s.len() <= MAX_TICKETS,
        a.user_data != b.user_data,
        ticket_state(s, a.user_data) == Some(SlotState::Waiting { waiter: Some(wa) }),
        ticket_state(s, b.user_data) == Some(SlotState::Waiting { waiter: Some(wb) }),
    ensures
        woken(s, seq![b, a]) == seq![wb, wa],
        ticket_state(drained(s, seq![b, a]), a.user_data) == Some(SlotState::<W>::Ready { value: a }),
        ticket_state(drained(s, seq![b, a]), b.user_data) == Some(SlotState::<W>::Ready { value: b }),
{
    if slot_index(a.user_data) == slot_index(b.user_data) {
        lemma_identity_unique(a.user_data, b.user_data);
    }
    let batch = seq![b, a];
    assert(batch.drop_last() == seq![b]);
    assert(seq![b].drop_last() == Seq::<Completion>::empty());
    lemma_live_not_sentinel(s, a.user_data);
    lemma_live_not_sentinel(s, b.user_data);
    assert(batch.last() == a);
    assert(seq![b].last() == b);
    assert(drained(s, Seq::<Completion>::empty()) == s);
    assert(woken(s, Seq::<Completion>::empty()) == Seq::<W>::empty());
    let s1 = drained(s, seq![b]);
    assert(s1 == delivered_slots(s, b.user_data, b));
    assert(woken(s, seq![b]) == seq![wb]);
    assert(ticket_state(s1, a.user_data) == ticket_state(s, a.user_data));
}

} // verus!
