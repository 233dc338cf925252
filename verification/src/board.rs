//! A naturally indexed (starting at 1) slab of values, such as client sockets.
use std::collections::VecDeque;
use vstd::prelude::*;

verus! {

/// The index of a slot on a [`SwitchBoard`]; slots are numbered from 1.
#[derive(Clone, Copy, Debug, Eq, PartialEq, Structural, Ord, PartialOrd)]
pub struct SlotIndex(usize);

impl View for SlotIndex {
    type V = nat;

    closed spec fn view(&self) -> nat {
        self.0 as nat
    }
}

impl SlotIndex {
    /// A slot index is never 0.
    #[verifier::type_invariant]
    spec fn non_zero(self) -> bool {
        self.0 != 0
    }

    /// The slot with the given number, which must not be 0.
    pub fn new(index: usize) -> (r: SlotIndex)
        requires
            index != 0,
        ensures
            r@ == index,
    {
        SlotIndex(index)
    }

    /// The number of this slot.
    pub fn get(&self) -> (r: usize)
        ensures
            r == self@,
            r >= 1,
    {
        proof {
            use_type_invariant(self);
        }
        self.0
    }
}

impl Default for SlotIndex {
    fn default() -> (r: SlotIndex)
        ensures
            r@ == 1,
    {
        SlotIndex(1)
    }
}

/// A naturally indexed (starting at 1) slab of values.
///
/// Removed slots are handed out again, oldest first, before new slots are added.
pub struct SwitchBoard<T> {
    slots: Vec<Option<T>>,
    available: VecDeque<SlotIndex>,
}

impl<T> SwitchBoard<T> {
    /// The contents of the slots; slot `i` is at position `i - 1`.
    pub closed spec fn slots(&self) -> Seq<Option<T>> {
        self.slots@
    }

    /// The numbers of the removed slots that will be handed out again, oldest first.
    pub closed spec fn available(&self) -> Seq<nat> {
        self.available@.map_values(|s: SlotIndex| s@)
    }

    /// The slot that the next reservation hands out.
    pub open spec fn next_slot(&self) -> nat {
        if self.available().len() > 0 {
            self.available()[0]
        } else {
            self.slots().len() + 1
        }
    }

    /// `after` is this board once `slot` was removed: the last slot is dropped, any other
    /// slot is emptied and queued to be handed out again.
    pub open spec fn removal(self, after: Self, slot: nat) -> bool {
        if slot == self.slots().len() {
            after.slots() == self.slots().drop_last() && after.available() == self.available()
        } else {
            after.slots() == self.slots().update(slot - 1, None) && after.available()
                == self.available().push(slot)
        }
    }

    /// `after` is this board once `slot` was handed out: the oldest removed slot, taken off
    /// the queue, or else a new empty slot at the end.
    pub open spec fn reservation(self, after: Self, slot: nat) -> bool {
        &&& slot == self.next_slot()
        &&& if self.available().len() > 0 {
            after.slots() == self.slots() && after.available() == self.available().drop_first()
        } else {
            after.slots() == self.slots().push(None) && after.available() == self.available()
        }
    }

    /// `after` is this board once `value` was put into the slot `slot` that a reservation
    /// handed out.
    pub open spec fn addition(self, after: Self, value: T, slot: nat) -> bool {
        &&& slot == self.next_slot()
        &&& if self.available().len() > 0 {
            after.slots() == self.slots().update(slot - 1, Some(value)) && after.available()
                == self.available().drop_first()
        } else {
            after.slots() == self.slots().push(Some(value)) && after.available()
                == self.available()
        }
    }

    /// An empty board.
    pub fn new() -> (r: SwitchBoard<T>)
        ensures
            r.slots() == Seq::<Option<T>>::empty(),
            r.available() == Seq::<nat>::empty(),
    {
        let r = SwitchBoard { slots: Vec::new(), available: VecDeque::new() };
        assert(r.available() =~= Seq::<nat>::empty());
        r
    }

    /// An empty board with room for `capacity` slots before it reallocates.
    pub fn with_capacity(capacity: usize) -> (r: SwitchBoard<T>)
        ensures
            r.slots() == Seq::<Option<T>>::empty(),
            r.available() == Seq::<nat>::empty(),
    {
        let r = SwitchBoard { slots: Vec::with_capacity(capacity), available: VecDeque::new() };
        assert(r.available() =~= Seq::<nat>::empty());
        r
    }

    /// Empties the given slot: the last slot is dropped from the board, any other slot is
    /// emptied and queued to be handed out again.
    pub fn remove(&mut self, slot: SlotIndex)
        requires
            1 <= slot@ <= old(self).slots().len(),
        ensures
            old(self).removal(*final(self), slot@),
    {
        let length = self.slots.len();
        let index = slot.get();
        if index == length {
            self.slots.pop();
            assert(self.slots@ =~= old(self).slots().drop_last());
        } else {
            self.slots.set(index - 1, None);
            self.available.push_back(slot);
            assert(self.available() =~= old(self).available().push(slot@));
        }
    }

    /// Hands out a slot: the oldest removed slot, or a new empty slot at the end.
    pub fn reserve(&mut self) -> (r: SlotIndex)
        requires
            old(self).slots().len() < usize::MAX,
        ensures
            old(self).reservation(*final(self), r@),
    {
        match self.available.pop_front() {
            Some(slot) => {
                assert(self.available() =~= old(self).available().drop_first());
                slot
            },
            None => {
                self.slots.push(None);
                let slot = self.slots.len();
                SlotIndex(slot)
            },
        }
    }

    /// Puts `value` into a slot handed out by [`SwitchBoard::reserve`] and returns the slot.
    pub fn add(&mut self, value: T) -> (r: SlotIndex)
        requires
            old(self).slots().len() < usize::MAX,
            old(self).available().len() > 0 ==> 1 <= old(self).available()[0] <= old(
                self,
            ).slots().len(),
        ensures
            old(self).addition(*final(self), value, r@),
    {
        let slot = self.reserve();
        let index = slot.get();
        self.slots.set(index - 1, Some(value));
        proof {
            if old(self).available().len() == 0 {
                assert(self.slots@ =~= old(self).slots().push(Some(value)));
            }
        }
        slot
    }

    /// The contents of the given slot.
    pub fn get(&self, slot: SlotIndex) -> (r: &Option<T>)
        requires
            1 <= slot@ <= self.slots().len(),
        ensures
            *r == self.slots()[slot@ - 1],
    {
        let index = slot.get();
        &self.slots[index - 1]
    }

    /// Replaces the contents of the given slot.
    pub fn set(&mut self, slot: SlotIndex, value: Option<T>)
        requires
            1 <= slot@ <= old(self).slots().len(),
        ensures
            final(self).slots() == old(self).slots().update(slot@ - 1, value),
            final(self).available() == old(self).available(),
    {
        let index = slot.get();
        self.slots.set(index - 1, value);
    }

    /// The value in the slot at the given position (counting from 0), which must be filled.
    pub fn value_at(&self, index: usize) -> (r: &T)
        requires
            index < self.slots().len(),
            self.slots()[index as int] is Some,
        ensures
            *r == self.slots()[index as int]->0,
    {
        match &self.slots[index] {
            Some(value) => value,
            None => unreached(),
        }
    }
}

impl<T> Default for SwitchBoard<T> {
    fn default() -> (r: SwitchBoard<T>)
        ensures
            r.slots() == Seq::<Option<T>>::empty(),
            r.available() == Seq::<nat>::empty(),
    {
        SwitchBoard::new()
    }
}

/// What is added can be read back: after `value` was added into the slot handed out, that
/// slot exists and holds `value`.
pub proof fn lemma_get_after_add<T>(before: SwitchBoard<T>, after: SwitchBoard<T>, value: T, slot: nat)
    requires
        before.available().len() > 0 ==> 1 <= before.available()[0] <= before.slots().len(),
        before.addition(after, value, slot),
    ensures
        1 <= slot <= after.slots().len(),
        after.slots()[slot - 1] == Some(value),
{
}

/// A removed slot that was not the last one is empty afterwards, and the other slots keep
/// their contents.
pub proof fn lemma_get_after_remove<T>(before: SwitchBoard<T>, after: SwitchBoard<T>, slot: nat, other: nat)
    requires
        1 <= slot < before.slots().len(),
        before.removal(after, slot),
        1 <= other <= before.slots().len(),
        other != slot,
    ensures
        after.slots()[slot - 1] is None,
        after.slots()[other - 1] == before.slots()[other - 1],
{
}

/// Removed slots are handed out again, oldest first: when no slot waited to be handed out,
/// the next reservation after removing a slot other than the last hands out that slot, and
/// leaves the board as long as it was.
pub proof fn lemma_reserve_after_remove<T>(
    before: SwitchBoard<T>,
    removed: SwitchBoard<T>,
    reserved: SwitchBoard<T>,
    slot: nat,
    handed: nat,
)
    requires
        before.available().len() == 0,
        1 <= slot < before.slots().len(),
        before.removal(removed, slot),
        removed.reservation(reserved, handed),
    ensures
        handed == slot,
        reserved.slots().len() == before.slots().len(),
        reserved.available().len() == 0,
{
}

/// Removing the last slot shortens the board by one and queues nothing.
pub proof fn lemma_remove_last<T>(before: SwitchBoard<T>, after: SwitchBoard<T>)
    requires
        before.slots().len() >= 1,
        before.removal(after, before.slots().len()),
    ensures
        after.slots() == before.slots().drop_last(),
        after.available() == before.available(),
{
}

} // verus!
