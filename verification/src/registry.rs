//! The slot assignment registry: which physical gamepad, by its adapter-given
//! device id, currently drives which of the eight emulated slots. The mapping
//! is injective — no two devices ever occupy the same slot, and a device
//! occupies at most one slot.

use vstd::prelude::*;

use crate::NUM_SLOTS;

verus! {

/// The device ids currently mapped, in slot order.
pub open spec fn spec_device_ids(slots: Seq<Option<usize>>) -> Seq<usize>
    decreases slots.len(),
{
    if slots.len() == 0 {
        Seq::empty()
    } else {
        let rest = spec_device_ids(slots.drop_last());
        match slots.last() {
            Some(device_id) => rest.push(device_id),
            None => rest,
        }
    }
}

/// Whether a device occupies a given slot of an assignment sequence.
pub open spec fn spec_seq_maps(slots: Seq<Option<usize>>, device_id: usize, slot: int) -> bool {
    &&& 0 <= slot < slots.len()
    &&& slots[slot] == Some(device_id)
}

/// Whether a device occupies any slot of an assignment sequence.
pub open spec fn spec_seq_contains(slots: Seq<Option<usize>>, device_id: usize) -> bool {
    exists|slot: int| spec_seq_maps(slots, device_id, slot)
}

/// The slot a device occupies in an assignment sequence, if any. Under
/// well-formedness the slot is unique, so the choice is determined.
pub open spec fn spec_seq_slot_of(slots: Seq<Option<usize>>, device_id: usize) -> Option<int> {
    if spec_seq_contains(slots, device_id) {
        Some(choose|slot: int| spec_seq_maps(slots, device_id, slot))
    } else {
        None
    }
}

/// The registry of slot assignments, held as one entry per slot: the id of
/// the device that occupies it, if any.
pub struct SlotRegistry {
    pub slots: Vec<Option<usize>>,
}

impl SlotRegistry {
    /// Whether a device occupies a given slot.
    pub open spec fn spec_maps(&self, device_id: usize, slot: int) -> bool {
        spec_seq_maps(self.slots@, device_id, slot)
    }

    /// Whether a device occupies any slot.
    pub open spec fn spec_contains(&self, device_id: usize) -> bool {
        spec_seq_contains(self.slots@, device_id)
    }

    /// The slot a device occupies, if any. Under well-formedness the slot is
    /// unique, so the choice is determined.
    pub open spec fn spec_slot_of(&self, device_id: usize) -> Option<int> {
        spec_seq_slot_of(self.slots@, device_id)
    }

    /// Well-formedness: one entry per slot, and no device id appears twice.
    pub open spec fn wf(&self) -> bool {
        &&& self.slots@.len() == NUM_SLOTS
        &&& forall|i: int, j: int|
            0 <= i < NUM_SLOTS && 0 <= j < NUM_SLOTS && i != j && (
            #[trigger] self.slots@[i]) is Some && (#[trigger] self.slots@[j]) is Some
                ==> self.slots@[i] != self.slots@[j]
    }

    /// Constructs a registry with every slot unoccupied.
    pub fn new() -> (r: SlotRegistry)
        ensures
            r.wf(),
            forall|i: int| 0 <= i < NUM_SLOTS ==> (#[trigger] r.slots@[i]) is None,
    {
        let mut slots: Vec<Option<usize>> = Vec::new();
        let mut i: usize = 0;
        while i < NUM_SLOTS
            invariant
                0 <= i <= NUM_SLOTS,
                slots@.len() == i,
                forall|j: int| 0 <= j < i ==> (#[trigger] slots@[j]) is None,
            decreases NUM_SLOTS - i,
        {
            slots.push(None);
            i = i + 1;
        }
        SlotRegistry { slots }
    }

    /// Looks up the slot a device currently drives.
    pub fn resolve(&self, device_id: &usize) -> (r: Option<usize>)
        requires
            self.wf(),
        ensures
            (match r {
                Some(slot) => self.spec_maps(*device_id, slot as int) && self.spec_slot_of(
                    *device_id,
                ) == Some(slot as int),
                None => !self.spec_contains(*device_id) && self.spec_slot_of(*device_id) is None,
            }),
    {
        let mut i: usize = 0;
        while i < NUM_SLOTS
            invariant
                0 <= i <= NUM_SLOTS,
                self.wf(),
                forall|j: int| 0 <= j < i ==> #[trigger] self.slots@[j] != Some(*device_id),
            decreases NUM_SLOTS - i,
        {
            match self.slots[i] {
                Some(mapped) => {
                    if mapped == *device_id {
                        proof {
                            assert(self.spec_maps(*device_id, i as int));
                            let s = choose|slot: int| self.spec_maps(*device_id, slot);
                            lemma_device_slot_unique(self, *device_id, s, i as int);
                        }
                        return Some(i);
                    }
                },
                None => (),
            }
            i = i + 1;
        }
        None
    }

    /// Whether a given slot is currently occupied by some device.
    pub fn is_occupied(&self, slot: usize) -> (r: bool)
        requires
            slot < self.slots@.len(),
        ensures
            r == self.slots@[slot as int] is Some,
    {
        self.slots[slot].is_some()
    }

    /// Whether any slot is occupied.
    pub fn has_mapped(&self) -> (r: bool)
        requires
            self.wf(),
        ensures
            r == exists|i: int| 0 <= i < NUM_SLOTS && (#[trigger] self.slots@[i]) is Some,
    {
        let mut i: usize = 0;
        while i < NUM_SLOTS
            invariant
                0 <= i <= NUM_SLOTS,
                self.wf(),
                forall|j: int| 0 <= j < i ==> (#[trigger] self.slots@[j]) is None,
            decreases NUM_SLOTS - i,
        {
            if self.slots[i].is_some() {
                return true;
            }
            i = i + 1;
        }
        false
    }

    /// Claims an unoccupied slot for a device that occupies no other slot.
    pub fn insert(&mut self, device_id: usize, slot: usize)
        requires
            old(self).wf(),
            slot < NUM_SLOTS,
            old(self).slots@[slot as int] is None,
            !old(self).spec_contains(device_id),
        ensures
            final(self).slots@ == old(self).slots@.update(slot as int, Some(device_id)),
            final(self).wf(),
    {
        proof {
            assert forall|j: int|
                0 <= j < NUM_SLOTS && old(self).slots@[j] == Some(device_id) implies false by {
                assert(old(self).spec_maps(device_id, j));
            }
        }
        self.slots.set(slot, Some(device_id));
    }

    /// Removes a device's mapping, returning the slot it occupied, or `None`
    /// (and no state change) when the device was not mapped.
    pub fn remove(&mut self, device_id: &usize) -> (r: Option<usize>)
        requires
            old(self).wf(),
        ensures
            final(self).wf(),
            (match r {
                Some(slot) => {
                    &&& old(self).spec_maps(*device_id, slot as int)
                    &&& old(self).spec_slot_of(*device_id) == Some(slot as int)
                    &&& final(self).slots@ == old(self).slots@.update(slot as int, None)
                },
                None => {
                    &&& !old(self).spec_contains(*device_id)
                    &&& old(self).spec_slot_of(*device_id) is None
                    &&& *final(self) == *old(self)
                },
            }),
    {
        let mut i: usize = 0;
        while i < NUM_SLOTS
            invariant
                0 <= i <= NUM_SLOTS,
                self.wf(),
                *self == *old(self),
                forall|j: int| 0 <= j < i ==> #[trigger] self.slots@[j] != Some(*device_id),
            decreases NUM_SLOTS - i,
        {
            match self.slots[i] {
                Some(mapped) => {
                    if mapped == *device_id {
                        proof {
                            assert(self.spec_maps(*device_id, i as int));
                            let s = choose|slot: int| self.spec_maps(*device_id, slot);
                            lemma_device_slot_unique(self, *device_id, s, i as int);
                        }
                        self.slots.set(i, None);
                        return Some(i);
                    }
                },
                None => (),
            }
            i = i + 1;
        }
        None
    }

    /// Empties the registry: every slot becomes unoccupied.
    pub fn clear(&mut self)
        requires
            old(self).wf(),
        ensures
            final(self).wf(),
            forall|i: int| 0 <= i < NUM_SLOTS ==> (#[trigger] final(self).slots@[i]) is None,
    {
        let mut i: usize = 0;
        while i < NUM_SLOTS
            invariant
                0 <= i <= NUM_SLOTS,
                self.slots@.len() == NUM_SLOTS,
                self.wf(),
                forall|j: int| 0 <= j < i ==> (#[trigger] self.slots@[j]) is None,
            decreases NUM_SLOTS - i,
        {
            self.slots.set(i, None);
            i = i + 1;
        }
    }

    /// All currently mapped device ids, in slot order.
    pub fn device_ids(&self) -> (r: Vec<usize>)
        ensures
            r@ == spec_device_ids(self.slots@),
    {
        let mut out: Vec<usize> = Vec::new();
        let n = self.slots.len();
        let mut i: usize = 0;
        while i < n
            invariant
                0 <= i <= n,
                n == self.slots@.len(),
                out@ == spec_device_ids(self.slots@.take(i as int)),
            decreases n - i,
        {
            proof {
                assert(self.slots@.take(i + 1).drop_last() =~= self.slots@.take(i as int));
                assert(self.slots@.take(i + 1).last() == self.slots@[i as int]);
            }
            match self.slots[i] {
                Some(device_id) => out.push(device_id),
                None => (),
            }
            i = i + 1;
        }
        proof {
            assert(self.slots@.take(n as int) =~= self.slots@);
        }
        out
    }
}

/// Slot exclusivity: a well-formed registry never maps two distinct device
/// ids to the same slot — whenever two mapped devices share a slot, they are
/// the same device.
pub proof fn lemma_slot_exclusivity(registry: &SlotRegistry, a: usize, b: usize, slot: int)
    requires
        registry.wf(),
        registry.spec_maps(a, slot),
        registry.spec_maps(b, slot),
    ensures
        a == b,
{
}

/// The mirror image of slot exclusivity: in a well-formed registry a device
/// occupies at most one slot, so any two slots it maps to coincide.
pub proof fn lemma_device_slot_unique(registry: &SlotRegistry, device_id: usize, i: int, j: int)
    requires
        registry.wf(),
        registry.spec_maps(device_id, i),
        registry.spec_maps(device_id, j),
    ensures
        i == j,
{
}

} // verus!
