//! An arena of single-use tickets addressed by generation-checked identities.
use vstd::prelude::*;
use crate::completion::{Completion, is_sentinel};

verus! {

/// Distance between two generations of one slot in identity space.
pub const GENERATION_STRIDE: u64 = 0x1_0000_0000;

/// Most slots an arena holds; keeps every identity clear of the sentinels.
pub const MAX_TICKETS: usize = 0x7fff_ffff;

/// The identity of slot `index` in generation `generation`.
pub open spec fn identity(index: int, generation: u32) -> int {
    generation * 0x1_0000_0000 + index + 1
}

/// The slot an identity addresses (negative when it addresses none).
pub open spec fn slot_index(id: u64) -> int {
    (id % 0x1_0000_0000) as int - 1
}

/// The generation an identity was issued in.
pub open spec fn slot_generation(id: u64) -> u32 {
    (id / 0x1_0000_0000) as u32
}

/// Decoding an identity gives back the slot and generation it was made from.
pub proof fn lemma_identity_decodes(index: int, generation: u32)
    requires
        0 <= index < MAX_TICKETS,
    ensures
        0 < identity(index, generation) < 0xffff_ffff_ffff_ffff,
        slot_index(identity(index, generation) as u64) == index,
        slot_generation(identity(index, generation) as u64) == generation,
{
    let id = identity(index, generation);
    assert(id == generation * 0x1_0000_0000 + (index + 1));
    assert(0 < id < 0xffff_ffff_ffff_ffff) by (nonlinear_arith)
        requires id == generation * 0x1_0000_0000 + index + 1, 0 <= index < 0x7fff_ffff, 0 <= generation < 0x1_0000_0000;
    vstd::arithmetic::div_mod::lemma_fundamental_div_mod_converse(id, 0x1_0000_0000, generation as int, index + 1);
}

/// Two identities that address the same slot in the same generation are equal.
pub proof fn lemma_identity_unique(a: u64, b: u64)
    requires
        slot_index(a) == slot_index(b),
        slot_generation(a) == slot_generation(b),
    ensures
        a == b,
{
    vstd::arithmetic::div_mod::lemma_fundamental_div_mod(a as int, 0x1_0000_0000);
    vstd::arithmetic::div_mod::lemma_fundamental_div_mod(b as int, 0x1_0000_0000);
}

/// No identity an arena can issue equals a reserved sentinel tag.
pub proof fn lemma_identity_never_sentinel(index: int, generation: u32)
    requires
        0 <= index < MAX_TICKETS,
    ensures
        !is_sentinel(identity(index, generation) as u64),
{
    lemma_identity_decodes(index, generation);
}

/// What a slot holds.
pub enum SlotState<W> {
    /// No ticket lives here.
    Vacant,
    /// A ticket awaits its completion; `waiter` is the last consumer that polled.
    Waiting { waiter: Option<W> },
    /// The completion was delivered and is kept for the consumer.
    Ready { value: Completion },
}

/// One slot of the arena.
pub struct Slot<W> {
    /// Bumped each time the slot is released, so stale identities miss.
    pub generation: u32,
    pub state: SlotState<W>,
}

/// Outcome of handing a completion to a ticket.
pub enum Delivery<W> {
    /// Stored; the consumer that polled last must be woken.
    Woken(W),
    /// Stored; no consumer has polled yet.
    Stored,
    /// The identity addresses no ticket awaiting a value: nothing changed.
    Ignored,
}

/// Outcome of a consumer polling its ticket.
#[derive(Clone, Copy, Debug, PartialEq, Eq, Structural)]
pub enum TicketPoll {
    /// Nothing delivered yet; the polling consumer was recorded.
    Pending,
    /// The delivered completion.
    Ready(Completion),
    /// The identity addresses no live ticket.
    Gone,
}

/// Every slot is taken and the arena is at its size limit.
#[derive(Clone, Copy, Debug, PartialEq, Eq, Structural)]
pub struct ArenaFull;

/// The state of the live ticket `id` addresses, if any.
pub open spec fn ticket_state<W>(s: Seq<Slot<W>>, id: u64) -> Option<SlotState<W>> {
    let i = slot_index(id);
    if 0 <= i < s.len() && s[i].generation == slot_generation(id) && !(s[i].state is Vacant) {
        Some(s[i].state)
    } else {
        None
    }
}

/// Slots after `value` is delivered to `id`.
pub open spec fn delivered_slots<W>(s: Seq<Slot<W>>, id: u64, value: Completion) -> Seq<Slot<W>> {
    match ticket_state(s, id) {
        Some(SlotState::Waiting { .. }) => s.update(
            slot_index(id),
            Slot { generation: slot_generation(id), state: SlotState::Ready { value } },
        ),
        _ => s,
    }
}

/// What delivering to `id` reports.
pub open spec fn delivery_outcome<W>(s: Seq<Slot<W>>, id: u64) -> Delivery<W> {
    match ticket_state(s, id) {
        Some(SlotState::Waiting { waiter: Some(w) }) => Delivery::Woken(w),
        Some(SlotState::Waiting { waiter: None }) => Delivery::Stored,
        _ => Delivery::Ignored,
    }
}

/// Slots after the consumer `waiter` polls `id`.
pub open spec fn polled_slots<W>(s: Seq<Slot<W>>, id: u64, waiter: W) -> Seq<Slot<W>> {
    match ticket_state(s, id) {
        Some(SlotState::Waiting { .. }) => s.update(
            slot_index(id),
            Slot { generation: slot_generation(id), state: SlotState::Waiting { waiter: Some(waiter) } },
        ),
        _ => s,
    }
}

/// What polling `id` reports.
pub open spec fn poll_outcome<W>(s: Seq<Slot<W>>, id: u64) -> TicketPoll {
    match ticket_state(s, id) {
        Some(SlotState::Waiting { .. }) => TicketPoll::Pending,
        Some(SlotState::Ready { value }) => TicketPoll::Ready(value),
        _ => TicketPoll::Gone,
    }
}

/// The generation after `g`, wrapping at the top.
pub open spec fn next_generation(g: u32) -> u32 {
    if g == u32::MAX { 0 } else { (g + 1) as u32 }
}

/// Slots after the ticket `id` is released.
pub open spec fn released_slots<W>(s: Seq<Slot<W>>, id: u64) -> Seq<Slot<W>> {
    match ticket_state(s, id) {
        Some(_) => s.update(
            slot_index(id),
            Slot { generation: next_generation(slot_generation(id)), state: SlotState::Vacant },
        ),
        None => s,
    }
}

/// The lowest vacant slot, or the length when every slot is taken.
pub open spec fn first_vacant<W>(s: Seq<Slot<W>>) -> int
    decreases s.len(),
{
    if s.len() == 0 {
        0
    } else if first_vacant(s.drop_last()) < s.len() - 1 {
        first_vacant(s.drop_last())
    } else if s.last().state is Vacant {
        s.len() - 1
    } else {
        s.len() as int
    }
}

/// Slots after a ticket is issued in the lowest vacant slot.
pub open spec fn issued_slots<W>(s: Seq<Slot<W>>) -> Seq<Slot<W>> {
    let i = first_vacant(s);
    if i < s.len() {
        s.update(i, Slot { generation: s[i].generation, state: SlotState::Waiting { waiter: None } })
    } else {
        s.push(Slot { generation: 0, state: SlotState::Waiting { waiter: None } })
    }
}

/// The identity a ticket issued now gets.
pub open spec fn issued_identity<W>(s: Seq<Slot<W>>) -> int {
    let i = first_vacant(s);
    identity(i, if i < s.len() { s[i].generation } else { 0 })
}

proof fn lemma_first_vacant<W>(s: Seq<Slot<W>>)
    ensures
        0 <= first_vacant(s) <= s.len(),
        first_vacant(s) < s.len() ==> s[first_vacant(s)].state is Vacant,
        forall|j: int| 0 <= j < first_vacant(s) ==> !(#[trigger] s[j].state is Vacant),
    decreases s.len(),
{
    if s.len() > 0 {
        lemma_first_vacant(s.drop_last());
        assert forall|j: int| 0 <= j < first_vacant(s) implies !(#[trigger] s[j].state is Vacant) by {
            if j < s.len() - 1 {
                assert(s[j] == s.drop_last()[j]);
            }
        }
    }
}

/// A live ticket's identity is never a reserved sentinel tag.
pub proof fn lemma_live_not_sentinel<W>(s: Seq<Slot<W>>, id: u64)
    requires
        s.len() <= MAX_TICKETS,
        ticket_state(s, id) is Some,
    ensures
        !is_sentinel(id),
{
    assert(0u64 % 0x1_0000_0000 == 0);
    assert(0xffff_ffff_ffff_ffffu64 % 0x1_0000_0000 == 0xffff_ffff);
}

/// Tickets awaiting completions, each in a slot addressed by its identity.
pub struct TicketArena<W> {
    slots: Vec<Slot<W>>,
}

impl<W> TicketArena<W> {
    /// The slots, in order.
    pub closed spec fn slots(&self) -> Seq<Slot<W>> {
        self.slots@
    }

    /// The arena stays within its size limit.
    pub open spec fn wf(&self) -> bool {
        self.slots().len() <= MAX_TICKETS
    }

    /// An arena with no tickets.
    pub fn new() -> (r: Self)
        ensures
            r.wf(),
            r.slots() == Seq::<Slot<W>>::empty(),
    {
        TicketArena { slots: Vec::new() }
    }

    /// The slot the live ticket `id` occupies.
    fn live_index(&self, id: u64) -> (r: Option<usize>)
        ensures
            r matches Some(i) ==> i == slot_index(id) && ticket_state(self.slots(), id) is Some,
            r is None ==> ticket_state(self.slots(), id) is None,
    {
        let low = id % GENERATION_STRIDE;
        if low == 0 {
            return None;
        }
        let i = (low - 1) as usize;
        if i < self.slots.len() && self.slots[i].generation == (id / GENERATION_STRIDE) as u32 {
            match &self.slots[i].state {
                SlotState::Vacant => None,
                _ => Some(i),
            }
        } else {
            None
        }
    }

    /// Creates a ticket awaiting its completion, in the lowest vacant slot.
    pub fn issue(&mut self) -> (r: Result<u64, ArenaFull>)
        requires
            old(self).wf(),
        ensures
            final(self).wf(),
            match r {
                Ok(id) => {
                    &&& id == issued_identity(old(self).slots())
                    &&& !is_sentinel(id)
                    &&& ticket_state(final(self).slots(), id) == Some(SlotState::<W>::Waiting { waiter: None })
                    &&& final(self).slots() == issued_slots(old(self).slots())
                },
                Err(_) => {
                    &&& first_vacant(old(self).slots()) == MAX_TICKETS
                    &&& final(self).slots() == old(self).slots()
                },
            },
    {
        proof {
            lemma_first_vacant(self.slots());
        }
        let ghost s = self.slots();
        let mut i: usize = 0;
        while i < self.slots.len()
            invariant
                self.slots() == s,
                0 <= i <= s.len(),
                s.len() <= MAX_TICKETS,
                forall|j: int| 0 <= j < i ==> !(#[trigger] s[j].state is Vacant),
            ensures
                0 <= i <= s.len(),
                i < s.len() ==> s[i as int].state is Vacant,
                forall|j: int| 0 <= j < i ==> !(#[trigger] s[j].state is Vacant),
            decreases s.len() - i,
        {
            if let SlotState::Vacant = self.slots[i].state {
                break;
            }
            i = i + 1;
        }
        if i == self.slots.len() {
            if i == MAX_TICKETS {
                return Err(ArenaFull);
            }
            self.slots.push(Slot { generation: 0, state: SlotState::Waiting { waiter: None } });
        } else {
            let generation = self.slots[i].generation;
            self.slots.set(i, Slot { generation, state: SlotState::Waiting { waiter: None } });
        }
        let generation = self.slots[i].generation;
        proof {
            if first_vacant(s) < i {
                assert(!(s[first_vacant(s)].state is Vacant));
            }
            assert(first_vacant(s) == i);
            lemma_identity_decodes(i as int, generation);
            lemma_identity_never_sentinel(i as int, generation);
        }
        Ok(generation as u64 * GENERATION_STRIDE + i as u64 + 1)
    }

    /// Hands `value` to the ticket `id`; a ticket takes one value at most.
    pub fn deliver(&mut self, id: u64, value: Completion) -> (r: Delivery<W>)
        ensures
            final(self).slots() == delivered_slots(old(self).slots(), id, value),
            r == delivery_outcome(old(self).slots(), id),
            final(self).slots().len() == old(self).slots().len(),
    {
        match self.live_index(id) {
            None => Delivery::Ignored,
            Some(i) => {
                let generation = self.slots[i].generation;
                if let SlotState::Ready { .. } = self.slots[i].state {
                    return Delivery::Ignored;
                }
                let mut slot = Slot { generation, state: SlotState::Ready { value } };
                std::mem::swap(&mut self.slots[i], &mut slot);
                match slot.state {
                    SlotState::Waiting { waiter: Some(w) } => Delivery::Woken(w),
                    _ => Delivery::Stored,
                }
            },
        }
    }

    /// A consumer polls the ticket `id`; `waiter` is recorded while nothing is delivered.
    pub fn poll(&mut self, id: u64, waiter: W) -> (r: TicketPoll)
        ensures
            final(self).slots() == polled_slots(old(self).slots(), id, waiter),
            r == poll_outcome(old(self).slots(), id),
            final(self).slots().len() == old(self).slots().len(),
    {
        match self.live_index(id) {
            None => TicketPoll::Gone,
            Some(i) => {
                if let SlotState::Ready { value } = self.slots[i].state {
                    return TicketPoll::Ready(value);
                }
                let generation = self.slots[i].generation;
                self.slots.set(i, Slot { generation, state: SlotState::Waiting { waiter: Some(waiter) } });
                TicketPoll::Pending
            },
        }
    }

    /// Frees the slot of the ticket `id`, so its identity addresses nothing from now on.
    pub fn release(&mut self, id: u64) -> (r: bool)
        ensures
            final(self).slots() == released_slots(old(self).slots(), id),
            r == ticket_state(old(self).slots(), id) is Some,
            final(self).slots().len() == old(self).slots().len(),
    {
        match self.live_index(id) {
            None => false,
            Some(i) => {
                let generation = self.slots[i].generation.wrapping_add(1);
                self.slots.set(i, Slot { generation, state: SlotState::Vacant });
                true
            },
        }
    }
}

} // verus!
