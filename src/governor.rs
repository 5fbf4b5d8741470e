use vstd::prelude::*;

verus! {

/// The memory gate's capacity: a worst-case item for each slot, capped at
/// `u64::MAX`.
pub open spec fn memory_budget(concurrency: nat, max_bytes_per_item: nat) -> nat {
    if concurrency * max_bytes_per_item <= u64::MAX {
        concurrency * max_bytes_per_item
    } else {
        u64::MAX as nat
    }
}

/// Two admission gates scoped to one job: a bounded number of concurrency
/// slots and a bounded sum of bytes.
pub struct Governor {
    slot_bound: usize,
    memory_bound: u64,
    slots_in_use: usize,
    memory_in_use: u64,
}

/// The admission tokens held by one item while it runs: one slot and the
/// item's raw byte length. It is consumed by `release`, so it is released once.
pub struct Permit {
    bytes: u64,
}

impl Permit {
    pub closed spec fn bytes_spec(&self) -> nat {
        self.bytes as nat
    }

    pub fn bytes(&self) -> (r: u64)
        ensures
            r as nat == self.bytes_spec(),
    {
        self.bytes
    }
}

impl Governor {
    pub closed spec fn slot_bound_spec(&self) -> nat {
        self.slot_bound as nat
    }

    pub closed spec fn memory_bound_spec(&self) -> nat {
        self.memory_bound as nat
    }

    pub closed spec fn slots_in_use_spec(&self) -> nat {
        self.slots_in_use as nat
    }

    pub closed spec fn memory_in_use_spec(&self) -> nat {
        self.memory_in_use as nat
    }

    /// Outstanding slots and bytes never exceed the bounds.
    pub open spec fn wf(&self) -> bool {
        &&& self.slots_in_use_spec() <= self.slot_bound_spec()
        &&& self.memory_in_use_spec() <= self.memory_bound_spec()
    }

    /// Whether an item of `bytes` bytes is admitted now: a slot is free and the
    /// memory gate has room for it.
    pub open spec fn admits(&self, bytes: nat) -> bool {
        &&& self.slots_in_use_spec() < self.slot_bound_spec()
        &&& self.memory_in_use_spec() + bytes <= self.memory_bound_spec()
    }

    /// A governor with `concurrency` slots and a memory gate that can hold a
    /// worst-case item in every slot at once (at most `u64::MAX` bytes).
    pub fn new(concurrency: usize, max_bytes_per_item: u64) -> (g: Self)
        ensures
            g.wf(),
            g.slot_bound_spec() == concurrency,
            g.memory_bound_spec() == memory_budget(concurrency as nat, max_bytes_per_item as nat),
            g.slots_in_use_spec() == 0,
            g.memory_in_use_spec() == 0,
    {
        let memory_bound = match (concurrency as u64).checked_mul(max_bytes_per_item) {
            Some(m) => m,
            None => u64::MAX,
        };
        Governor {
            slot_bound: concurrency,
            memory_bound,
            slots_in_use: 0,
            memory_in_use: 0,
        }
    }

    pub fn memory_bound(&self) -> (r: u64)
        ensures
            r as nat == self.memory_bound_spec(),
    {
        self.memory_bound
    }

    pub fn slot_bound(&self) -> (r: usize)
        ensures
            r as nat == self.slot_bound_spec(),
    {
        self.slot_bound
    }

    pub fn can_admit(&self, bytes: u64) -> (r: bool)
        requires
            self.wf(),
        ensures
            r == self.admits(bytes as nat),
    {
        self.slots_in_use < self.slot_bound && bytes <= self.memory_bound - self.memory_in_use
    }

    /// Takes a slot and `bytes` of memory when both gates admit the item;
    /// otherwise changes nothing.
    pub fn try_acquire(&mut self, bytes: u64) -> (r: Option<Permit>)
        requires
            old(self).wf(),
        ensures
            final(self).wf(),
            final(self).slot_bound_spec() == old(self).slot_bound_spec(),
            final(self).memory_bound_spec() == old(self).memory_bound_spec(),
            old(self).admits(bytes as nat) ==> {
                &&& r matches Some(p) && p.bytes_spec() == bytes as nat
                &&& final(self).slots_in_use_spec() == old(self).slots_in_use_spec() + 1
                &&& final(self).memory_in_use_spec() == old(self).memory_in_use_spec() + bytes
            },
            !old(self).admits(bytes as nat) ==> r is None && *final(self) == *old(self),
    {
        if self.can_admit(bytes) {
            self.slots_in_use = self.slots_in_use + 1;
            self.memory_in_use = self.memory_in_use + bytes;
            Some(Permit { bytes })
        } else {
            None
        }
    }

    /// Gives back the slot and the bytes that `permit` holds.
    pub fn release(&mut self, permit: Permit)
        requires
            old(self).wf(),
            old(self).slots_in_use_spec() >= 1,
            old(self).memory_in_use_spec() >= permit.bytes_spec(),
        ensures
            final(self).wf(),
            final(self).slot_bound_spec() == old(self).slot_bound_spec(),
            final(self).memory_bound_spec() == old(self).memory_bound_spec(),
            final(self).slots_in_use_spec() == old(self).slots_in_use_spec() - 1,
            final(self).memory_in_use_spec() == old(self).memory_in_use_spec() - permit.bytes_spec(),
    {
        self.slots_in_use = self.slots_in_use - 1;
        self.memory_in_use = self.memory_in_use - permit.bytes;
    }
}

} // verus!
