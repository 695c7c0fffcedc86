//! The pool of execution slots: it bounds how many VM executions run at once.

use vstd::prelude::*;

verus! {

/// The right to run one VM execution: one slot of the pool, held until it is released.
/// A permit cannot be copied, and only a pool makes one.
#[derive(Debug)]
pub struct ExecutionPermit {
    held: (),
}

/// The mathematical model of an [`ExecutionSlotPool`].
pub struct PoolView {
    /// How many executions may run at once.
    pub capacity: nat,
    /// How many slots are held.
    pub in_use: nat,
    /// Whether the pool has been shut down.
    pub closed: bool,
}

impl PoolView {
    /// No more slots are held than the pool has.
    pub open spec fn wf(self) -> bool {
        self.in_use <= self.capacity
    }

    /// A pool of the given capacity with every slot free.
    pub open spec fn fresh(capacity: nat) -> PoolView {
        PoolView { capacity, in_use: 0, closed: false }
    }

    /// Whether a request for a slot is granted at once.
    pub open spec fn grants(self) -> bool {
        !self.closed && self.in_use < self.capacity
    }

    /// Whether a request for a slot has to wait for a release.
    pub open spec fn full(self) -> bool {
        !self.closed && self.in_use >= self.capacity
    }

    /// The pool after a request for a slot: one more slot held where it is granted,
    /// the same pool where it is not.
    pub open spec fn acquired(self) -> PoolView {
        if self.grants() {
            PoolView { in_use: self.in_use + 1, ..self }
        } else {
            self
        }
    }

    /// The pool after one permit came back: one slot fewer held.
    pub open spec fn released(self) -> PoolView {
        if self.in_use > 0 {
            PoolView { in_use: (self.in_use - 1) as nat, ..self }
        } else {
            self
        }
    }

    /// The pool after it was shut down.
    pub open spec fn shut(self) -> PoolView {
        PoolView { closed: true, ..self }
    }
}

/// The pool's answer to a request for a slot.
#[derive(Debug)]
pub enum SlotGrant {
    /// A slot was free: here is the permit for it.
    Granted(ExecutionPermit),
    /// Every slot is held: ask again after a release.
    Busy,
    /// The pool has been shut down.
    Closed,
}

/// A fixed number of execution slots, shared by every caller that runs the VM.
#[derive(Debug)]
pub struct ExecutionSlotPool {
    capacity: usize,
    in_use: usize,
    closed: bool,
}

impl View for ExecutionSlotPool {
    type V = PoolView;

    closed spec fn view(&self) -> PoolView {
        PoolView { capacity: self.capacity as nat, in_use: self.in_use as nat, closed: self.closed }
    }
}

impl ExecutionSlotPool {
    #[verifier::type_invariant]
    spec fn bounded(self) -> bool {
        self.in_use <= self.capacity
    }

    /// A pool of `capacity` slots, all free.
    pub fn new(capacity: usize) -> (pool: Self)
        ensures
            pool@ == PoolView::fresh(capacity as nat),
    {
        ExecutionSlotPool { capacity, in_use: 0, closed: false }
    }

    /// The number of slots.
    pub fn capacity(&self) -> (capacity: usize)
        ensures
            capacity == self@.capacity,
    {
        self.capacity
    }

    /// The number of slots that are held.
    pub fn in_use(&self) -> (in_use: usize)
        ensures
            in_use == self@.in_use,
            self@.wf(),
    {
        proof {
            use_type_invariant(self);
        }
        self.in_use
    }

    /// Whether the pool has been shut down.
    pub fn is_closed(&self) -> (closed: bool)
        ensures
            closed == self@.closed,
    {
        self.closed
    }

    /// Asks for a slot without waiting. A pool that was shut down answers `Closed`, a pool
    /// with a free slot grants it, and a pool with none answers `Busy`; only a grant
    /// changes the pool.
    pub fn try_acquire(&mut self) -> (grant: SlotGrant)
        ensures
            final(self)@ == old(self)@.acquired(),
            final(self)@.wf(),
            grant is Closed <==> old(self)@.closed,
            grant is Granted <==> old(self)@.grants(),
            grant is Busy <==> old(self)@.full(),
    {
        proof {
            use_type_invariant(&*self);
        }
        if self.closed {
            SlotGrant::Closed
        } else if self.in_use < self.capacity {
            self.in_use = self.in_use + 1;
            SlotGrant::Granted(ExecutionPermit { held: () })
        } else {
            SlotGrant::Busy
        }
    }

    /// Takes a permit back and frees its slot, whether or not the pool was shut down since.
    pub fn release(&mut self, permit: ExecutionPermit)
        ensures
            final(self)@ == old(self)@.released(),
            final(self)@.wf(),
    {
        proof {
            use_type_invariant(&*self);
        }
        let ExecutionPermit { held: _ } = permit;
        if self.in_use > 0 {
            self.in_use = self.in_use - 1;
        }
    }

    /// Shuts the pool down: no slot is granted from now on.
    pub fn close(&mut self)
        ensures
            final(self)@ == old(self)@.shut(),
    {
        proof {
            use_type_invariant(&*self);
        }
        self.closed = true;
    }
}

} // verus!
