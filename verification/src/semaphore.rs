//! Global memory budget shared by all concurrent sandboxed runs.
//!
//! One `MemorySemaphore` exists per judger process. Every container reserves
//! its memory through [`MemorySemaphore::try_acquire`] before it starts and
//! hands its permit back through [`MemorySemaphore::release`] when it is torn
//! down, so the host never commits more bytes than the configured ceiling.

use vstd::prelude::*;

verus! {

/// A reservation of bytes granted by [`MemorySemaphore::try_acquire`].
///
/// A permit is proof that its bytes are counted in the semaphore's `used`
/// total; it must be returned exactly once through
/// [`MemorySemaphore::release`].
pub struct MemoryPermit {
    bytes: u64,
}

impl MemoryPermit {
    /// The number of bytes this permit reserves.
    pub closed spec fn bytes_spec(self) -> u64 {
        self.bytes
    }

    pub fn bytes(&self) -> (r: u64)
        ensures
            r == self.bytes_spec(),
    {
        self.bytes
    }
}

/// Counting semaphore over a byte budget.
///
/// Invariant: the bytes held by outstanding permits (`used`) never exceed the
/// configured `capacity`.
pub struct MemorySemaphore {
    capacity: u64,
    used: u64,
}

impl MemorySemaphore {
    /// Configured maximum number of bytes that may be reserved at once.
    pub closed spec fn capacity(self) -> u64 {
        self.capacity
    }

    /// Bytes currently held by outstanding permits.
    pub closed spec fn used(self) -> u64 {
        self.used
    }

    /// Bytes still free under the ceiling.
    pub open spec fn available(self) -> int {
        self.capacity() - self.used()
    }

    pub open spec fn wf(self) -> bool {
        self.used() <= self.capacity()
    }

    /// A fresh semaphore with the whole budget available.
    pub fn new(capacity: u64) -> (s: Self)
        ensures
            s.wf(),
            s.capacity() == capacity,
            s.used() == 0,
    {
        MemorySemaphore { capacity, used: 0 }
    }

    pub fn get_capacity(&self) -> (r: u64)
        ensures
            r == self.capacity(),
    {
        self.capacity
    }

    pub fn get_available(&self) -> (r: u64)
        requires
            self.wf(),
        ensures
            r == self.available(),
    {
        self.capacity - self.used
    }

    /// Reserve `n` bytes without waiting.
    ///
    /// Succeeds exactly when `n` bytes are still available; on success the
    /// permit carries `n` and `used` grows by `n`, on failure the semaphore is
    /// unchanged.
    pub fn try_acquire(&mut self, n: u64) -> (r: Option<MemoryPermit>)
        requires
            old(self).wf(),
        ensures
            final(self).wf(),
            final(self).capacity() == old(self).capacity(),
            match r {
                Some(p) => {
                    &&& n <= old(self).available()
                    &&& p.bytes_spec() == n
                    &&& final(self).used() == old(self).used() + n
                },
                None => {
                    &&& n > old(self).available()
                    &&& final(self).used() == old(self).used()
                },
            },
    {
        if n <= self.capacity - self.used {
            self.used = self.used + n;
            Some(MemoryPermit { bytes: n })
        } else {
            None
        }
    }

    /// Return a permit's bytes to the budget.
    ///
    /// A permit granted by this semaphore always satisfies the precondition,
    /// because its bytes are part of `used` until it is released.
    pub fn release(&mut self, p: MemoryPermit) -> (r: u64)
        requires
            old(self).wf(),
            p.bytes_spec() <= old(self).used(),
        ensures
            final(self).wf(),
            final(self).capacity() == old(self).capacity(),
            final(self).used() == old(self).used() - p.bytes_spec(),
            r == p.bytes_spec(),
    {
        self.used = self.used - p.bytes;
        p.bytes
    }
}

/// One accounting event on the budget: a grant of `n` bytes to a run, or the
/// return of `n` bytes when a run's permit is released.
pub enum BudgetOp {
    Grant(u64),
    Give(u64),
}

/// Net effect of one accounting event on `used`.
pub open spec fn op_delta(op: BudgetOp) -> int {
    match op {
        BudgetOp::Grant(n) => n as int,
        BudgetOp::Give(n) => -(n as int),
    }
}

/// `used` after a sequence of accounting events.
pub open spec fn apply_ops(used: int, ops: Seq<BudgetOp>) -> int
    decreases ops.len(),
{
    if ops.len() == 0 {
        used
    } else {
        apply_ops(used + op_delta(ops[0]), ops.drop_first())
    }
}

/// Total bytes granted over a sequence of events.
pub open spec fn granted_total(ops: Seq<BudgetOp>) -> int
    decreases ops.len(),
{
    if ops.len() == 0 {
        0
    } else {
        (match ops[0] {
            BudgetOp::Grant(n) => n as int,
            BudgetOp::Give(_) => 0,
        }) + granted_total(ops.drop_first())
    }
}

/// Total bytes returned over a sequence of events.
pub open spec fn returned_total(ops: Seq<BudgetOp>) -> int
    decreases ops.len(),
{
    if ops.len() == 0 {
        0
    } else {
        (match ops[0] {
            BudgetOp::Grant(_) => 0,
            BudgetOp::Give(n) => n as int,
        }) + returned_total(ops.drop_first())
    }
}

proof fn lemma_apply_ops_sum(used: int, ops: Seq<BudgetOp>)
    ensures
        apply_ops(used, ops) == used + granted_total(ops) - returned_total(ops),
    decreases ops.len(),
{
    if ops.len() > 0 {
        lemma_apply_ops_sum(used + op_delta(ops[0]), ops.drop_first());
    }
}

/// Budget conservation: after any interleaving of grants and returns in which
/// every granted byte is eventually returned — in particular after any
/// sequence of concurrent container runs has finished — `used` is back where
/// it started, so a budget that began full is full again.
pub proof fn lemma_budget_conservation(used: int, ops: Seq<BudgetOp>)
    requires
        granted_total(ops) == returned_total(ops),
    ensures
        apply_ops(used, ops) == used,
{
    lemma_apply_ops_sum(used, ops);
}

} // verus!
