//! A generational arena of slots.
//!
//! Each slot carries an occupancy generation counter and a payload state.
//! A `Handle` is an (index, generation) pair; a `Ticket` is a proof of
//! vacancy for the same pair, consumable exactly once by `put_back` or
//! `forget_ticket`. Provisional removal (`take_reserve`) keeps the slot's
//! generation, so restoring the payload yields the very same handle.

use vstd::pervasive::unreached;
use vstd::prelude::*;

use crate::handle::Handle;
use crate::handle::Ticket;

verus! {

/// Occupancy state of one slot.
#[derive(Debug)]
pub enum SlotState<T> {
    /// The slot holds nothing and may be handed out by `add`.
    Free,
    /// The slot holds a live payload.
    Occupied(T),
    /// The payload was provisionally taken out; a ticket for this slot is
    /// outstanding and the slot cannot be reused until it is forgotten.
    Reserved,
}

impl<T> SlotState<T> {
    /// Executable test for the `Free` state.
    pub fn is_free(&self) -> (r: bool)
        ensures
            r == (*self is Free),
    {
        match self {
            SlotState::Free => true,
            _ => false,
        }
    }

    /// Executable test for the `Occupied` state.
    pub fn is_occupied(&self) -> (r: bool)
        ensures
            r == (*self is Occupied),
    {
        match self {
            SlotState::Occupied(_) => true,
            _ => false,
        }
    }
}

/// One slot of the arena.
#[derive(Debug)]
pub struct Slot<T> {
    pub generation: u64,
    pub state: SlotState<T>,
}

/// The arena itself.
#[derive(Debug)]
pub struct Pool<T> {
    slots: Vec<Slot<T>>,
}

impl<T> View for Pool<T> {
    type V = Seq<Slot<T>>;

    closed spec fn view(&self) -> Seq<Slot<T>> {
        self.slots@
    }
}

/// The handle resolves to a live payload in `s`.
pub open spec fn slot_live<T>(s: Seq<Slot<T>>, h: Handle) -> bool {
    &&& 0 <= h.index < s.len()
    &&& s[h.index as int].generation == h.generation
    &&& h.generation >= 1
    &&& s[h.index as int].state is Occupied
}

/// The payload the handle resolves to (meaningful when `slot_live` holds).
pub open spec fn slot_payload<T>(s: Seq<Slot<T>>, h: Handle) -> T {
    s[h.index as int].state->Occupied_0
}

/// The handle's slot is reserved: a ticket for it is outstanding.
pub open spec fn slot_reserved<T>(s: Seq<Slot<T>>, h: Handle) -> bool {
    &&& 0 <= h.index < s.len()
    &&& s[h.index as int].generation == h.generation
    &&& h.generation >= 1
    &&& s[h.index as int].state is Reserved
}

/// `s` with the handle's slot marked reserved.
pub open spec fn reserve_one<T>(s: Seq<Slot<T>>, h: Handle) -> Seq<Slot<T>> {
    s.update(h.index as int, Slot { generation: h.generation, state: SlotState::Reserved })
}

/// `s` with the handle's slot re-occupied by `payload`.
pub open spec fn occupy_one<T>(s: Seq<Slot<T>>, h: Handle, payload: T) -> Seq<Slot<T>> {
    s.update(h.index as int, Slot { generation: h.generation, state: SlotState::Occupied(payload) })
}

/// `s` with the handle's slot freed for reuse.
pub open spec fn free_one<T>(s: Seq<Slot<T>>, h: Handle) -> Seq<Slot<T>> {
    s.update(h.index as int, Slot { generation: h.generation, state: SlotState::Free })
}

/// Index of the first reusable slot at or after `i`, if any.
///
/// A slot whose generation has reached `u64::MAX` is never reused, so the
/// generation of a reused slot can always be bumped.
pub open spec fn first_free_from<T>(s: Seq<Slot<T>>, i: int) -> Option<int>
    decreases s.len() - i,
{
    if i < 0 || i >= s.len() {
        None
    } else if s[i].state is Free && s[i].generation < u64::MAX {
        Some(i)
    } else {
        first_free_from(s, i + 1)
    }
}

/// The slot sequence and handle produced by `Pool::add`.
pub open spec fn pool_add_spec<T>(s: Seq<Slot<T>>, payload: T) -> (Seq<Slot<T>>, Handle) {
    match first_free_from(s, 0) {
        Some(i) => {
            let g = (s[i].generation + 1) as u64;
            (
                s.update(i, Slot { generation: g, state: SlotState::Occupied(payload) }),
                Handle { index: i as usize, generation: g },
            )
        },
        None => (
            s.push(Slot { generation: 1, state: SlotState::Occupied(payload) }),
            Handle { index: s.len() as usize, generation: 1 },
        ),
    }
}

/// A batch of slot writes: each entry stores one slot state under one
/// handle's index and generation, applied first to last.
pub open spec fn store_all<T>(s: Seq<Slot<T>>, ws: Seq<(Handle, SlotState<T>)>) -> Seq<Slot<T>>
    decreases ws.len(),
{
    if ws.len() == 0 {
        s
    } else {
        let w = ws.last();
        store_all(s, ws.drop_last()).update(
            w.0.index as int,
            Slot { generation: w.0.generation, state: w.1 },
        )
    }
}

/// Every write lands inside the slot sequence.
pub open spec fn writes_in_bounds<T>(ws: Seq<(Handle, SlotState<T>)>, len: int) -> bool {
    forall|j: int| 0 <= j < ws.len() ==> (#[trigger] ws[j]).0.index < len
}

/// No two writes land on the same slot.
pub open spec fn distinct_write_indices<T>(ws: Seq<(Handle, SlotState<T>)>) -> bool {
    forall|j: int, k: int|
        0 <= j < k < ws.len() ==> (#[trigger] ws[j]).0.index != (#[trigger] ws[k]).0.index
}

/// A batch of writes never changes the slot count.
pub proof fn lemma_store_all_len<T>(s: Seq<Slot<T>>, ws: Seq<(Handle, SlotState<T>)>)
    requires
        writes_in_bounds(ws, s.len() as int),
    ensures
        store_all(s, ws).len() == s.len(),
    decreases ws.len(),
{
    if ws.len() > 0 {
        assert(writes_in_bounds(ws.drop_last(), s.len() as int));
        lemma_store_all_len(s, ws.drop_last());
    }
}

/// A batch of writes leaves untouched indices exactly as they were.
pub proof fn lemma_store_all_frame<T>(s: Seq<Slot<T>>, ws: Seq<(Handle, SlotState<T>)>, i: int)
    requires
        writes_in_bounds(ws, s.len() as int),
        forall|j: int| 0 <= j < ws.len() ==> (#[trigger] ws[j]).0.index != i,
    ensures
        0 <= i < s.len() ==> store_all(s, ws)[i] == s[i],
    decreases ws.len(),
{
    if ws.len() > 0 {
        assert(writes_in_bounds(ws.drop_last(), s.len() as int));
        lemma_store_all_frame(s, ws.drop_last(), i);
        lemma_store_all_len(s, ws.drop_last());
    }
}

/// With distinct indices, each write of a batch is visible afterwards.
pub proof fn lemma_store_all_at<T>(s: Seq<Slot<T>>, ws: Seq<(Handle, SlotState<T>)>, j: int)
    requires
        writes_in_bounds(ws, s.len() as int),
        distinct_write_indices(ws),
        0 <= j < ws.len(),
    ensures
        store_all(s, ws).len() == s.len(),
        store_all(s, ws)[ws[j].0.index as int] == (Slot {
            generation: ws[j].0.generation,
            state: ws[j].1,
        }),
    decreases ws.len(),
{
    lemma_store_all_len(s, ws);
    assert(writes_in_bounds(ws.drop_last(), s.len() as int));
    assert(distinct_write_indices(ws.drop_last()));
    lemma_store_all_len(s, ws.drop_last());
    if j == ws.len() - 1 {
    } else {
        lemma_store_all_at(s, ws.drop_last(), j);
        assert(ws.drop_last()[j] == ws[j]);
        assert(ws.last().0.index != ws[j].0.index);
    }
}

impl<T> Pool<T> {
    /// Creates an empty arena.
    pub fn new() -> (p: Pool<T>)
        ensures
            p@ == Seq::<Slot<T>>::empty(),
    {
        let p = Pool { slots: Vec::new() };
        proof {
            assert(p@ =~= Seq::<Slot<T>>::empty());
        }
        p
    }

    /// Number of slots, free or not.
    pub fn slot_count(&self) -> (n: usize)
        ensures
            n == self@.len(),
    {
        self.slots.len()
    }

    /// True when `h` resolves to a live payload.
    pub fn is_valid(&self, h: Handle) -> (r: bool)
        ensures
            r == slot_live(self@, h),
    {
        h.index < self.slots.len() && self.slots[h.index].generation == h.generation
            && h.generation >= 1 && self.slots[h.index].state.is_occupied()
    }

    /// Borrows the payload `h` resolves to.
    pub fn borrow(&self, h: Handle) -> (r: &T)
        requires
            slot_live(self@, h),
        ensures
            *r == slot_payload(self@, h),
    {
        match &self.slots[h.index].state {
            SlotState::Occupied(payload) => payload,
            _ => unreached(),
        }
    }

    /// Stores `payload` in the first reusable slot, or in a fresh one, and
    /// returns a handle that no earlier pool state could resolve.
    pub fn add(&mut self, payload: T) -> (h: Handle)
        ensures
            (final(self)@, h) == pool_add_spec(old(self)@, payload),
            slot_live(final(self)@, h),
            slot_payload(final(self)@, h) == payload,
            !slot_live(old(self)@, h),
            !slot_reserved(old(self)@, h),
            old(self)@.len() <= final(self)@.len(),
            forall|i: int|
                0 <= i < old(self)@.len() && i != h.index ==> final(self)@[i] == old(self)@[i],
            forall|x: Handle|
                slot_live(old(self)@, x) ==> slot_live(final(self)@, x) && slot_payload(
                    final(self)@,
                    x,
                ) == slot_payload(old(self)@, x),
            forall|x: Handle| slot_reserved(old(self)@, x) ==> slot_reserved(final(self)@, x),
    {
        let ghost s0 = self@;
        let n = self.slots.len();
        let mut i: usize = 0;
        while i < n
            invariant
                n == s0.len(),
                old(self)@ == s0,
                self@ == s0,
                0 <= i <= n,
                first_free_from(s0, 0) == first_free_from(s0, i as int),
            decreases n - i,
        {
            let reusable = self.slots[i].state.is_free() && self.slots[i].generation < u64::MAX;
            if reusable {
                proof {
                    assert(first_free_from(s0, i as int) == Some(i as int));
                }
                let g = self.slots[i].generation + 1;
                self.slots[i] = Slot { generation: g, state: SlotState::Occupied(payload) };
                return Handle { index: i, generation: g };
            }
            proof {
                assert(first_free_from(s0, i as int) == first_free_from(s0, i + 1));
            }
            i = i + 1;
        }
        self.slots.push(Slot { generation: 1, state: SlotState::Occupied(payload) });
        Handle { index: n, generation: 1 }
    }

    /// Detaches the payload at `h`, leaving the slot reserved and returning
    /// the ticket that can restore or release it.
    pub fn take_reserve(&mut self, h: Handle) -> (r: (Ticket, T))
        requires
            slot_live(old(self)@, h),
        ensures
            r.0.handle_spec() == h,
            r.1 == slot_payload(old(self)@, h),
            final(self)@ == reserve_one(old(self)@, h),
    {
        let mut prior = SlotState::Reserved;
        std::mem::swap(&mut self.slots[h.index].state, &mut prior);
        match prior {
            SlotState::Occupied(payload) => (Ticket::issue(h.index, h.generation), payload),
            _ => unreached(),
        }
    }

    /// Consumes a ticket, restoring its payload under the original handle.
    pub fn put_back(&mut self, ticket: Ticket, payload: T) -> (h: Handle)
        requires
            slot_reserved(old(self)@, ticket.handle_spec()),
        ensures
            h == ticket.handle_spec(),
            final(self)@ == occupy_one(old(self)@, h, payload),
    {
        let index = ticket.index();
        let generation = ticket.generation();
        self.slots[index].state = SlotState::Occupied(payload);
        Handle { index, generation }
    }

    /// Reads the generation counter of slot `i`.
    pub fn generation_at(&self, i: usize) -> (g: u64)
        requires
            i < self@.len(),
        ensures
            g == self@[i as int].generation,
    {
        self.slots[i].generation
    }

    /// Consumes a ticket, permanently freeing its slot for reuse.
    pub fn forget_ticket(&mut self, ticket: Ticket)
        requires
            slot_reserved(old(self)@, ticket.handle_spec()),
        ensures
            final(self)@ == free_one(old(self)@, ticket.handle_spec()),
    {
        let index = ticket.index();
        self.slots[index].state = SlotState::Free;
    }
}

} // verus!
