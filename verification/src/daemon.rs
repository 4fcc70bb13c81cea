//! Container daemon: allocates unique run ids, reserves memory from the
//! global budget, and composes a root filesystem, a monitor and a process
//! into one scoped container per run.
//!
//! A container exclusively owns its rootfs and its memory permit; releasing
//! it hands the permit back and leaves the rootfs in the released state, so
//! a finished run keeps nothing of the host.

use vstd::prelude::*;

use crate::fmt::dec_digits;
use crate::fmt::u64_to_string;
use crate::limits::Limits;
use crate::mount::{MountState, Rootfs};
use crate::process::Process;
use crate::semaphore::{apply_ops, BudgetOp, MemoryPermit, MemorySemaphore};
use crate::semaphore::lemma_budget_conservation;

verus! {

/// Faults of the daemon itself.
#[derive(Clone, Copy, PartialEq, Eq, Structural, Debug)]
pub enum DaemonError {
    /// The requested reservation does not fit under the global memory
    /// ceiling right now; the caller may retry later.
    OutOfMemory,
}

/// One scoped sandboxed execution: a private rootfs plus a share of the
/// memory budget, under a unique run id.
pub struct Container {
    id: u64,
    rootfs: Rootfs,
    permit: MemoryPermit,
}

impl Container {
    pub closed spec fn id_spec(self) -> u64 {
        self.id
    }

    pub closed spec fn rootfs_spec(self) -> Rootfs {
        self.rootfs
    }

    pub closed spec fn permit_spec(self) -> MemoryPermit {
        self.permit
    }

    pub fn get_id(&self) -> (r: u64)
        ensures
            r == self.id_spec(),
    {
        self.id
    }

    pub fn get_path(&self) -> (r: &String)
        ensures
            r@ == self.rootfs_spec().path_spec(),
    {
        self.rootfs.get_path()
    }

    pub fn reserved_bytes(&self) -> (r: u64)
        ensures
            r == self.permit_spec().bytes_spec(),
    {
        self.permit.bytes()
    }

    /// Mark this container's union mount as up.
    pub fn activate(&mut self)
        requires
            old(self).rootfs_spec().state_spec() == MountState::Prepared,
        ensures
            final(self).rootfs_spec().state_spec() == MountState::Active,
            final(self).rootfs_spec().path_spec() == old(self).rootfs_spec().path_spec(),
            final(self).id_spec() == old(self).id_spec(),
            final(self).permit_spec() == old(self).permit_spec(),
    {
        self.rootfs.activate();
    }

    /// Stage one run inside this container: the process takes the
    /// container's root as its filesystem and a control group named after
    /// the run id.
    pub fn start_run(&self, args: Vec<String>, limits: Limits) -> (p: Process)
        requires
            args@.len() > 0,
        ensures
            p.wf(),
            p.fs_path@ == self.rootfs_spec().path_spec(),
            p.args == args,
            p.monitor.wf(),
            p.monitor.limits_spec() == limits,
            p.monitor.cg_path_spec() == dec_digits(self.id_spec() as nat),
            p.monitor.tripped_spec() is None,
            p.monitor.captured_spec() == Seq::<u8>::empty(),
            p.monitor.cpu_us_spec() == 0,
            p.monitor.peak_mem_spec() == 0,
            p.monitor.wall_us_spec() == 0,
    {
        let cg_name = u64_to_string(self.id);
        Process::new(self.rootfs.get_path().clone(), args, limits, cg_name)
    }
}

/// Manages container creation and deletion: hands out run ids, scopes
/// temporary directories under `tmp`, and reserves memory through the
/// global semaphore.
pub struct ContainerDaemon {
    id_counter: u64,
    memory_counter: MemorySemaphore,
    tmp: String,
}

impl ContainerDaemon {
    pub closed spec fn id_counter_spec(self) -> u64 {
        self.id_counter
    }

    pub closed spec fn memory_counter_spec(self) -> MemorySemaphore {
        self.memory_counter
    }

    pub closed spec fn tmp_spec(self) -> Seq<char> {
        self.tmp@
    }

    pub open spec fn wf(self) -> bool {
        self.memory_counter_spec().wf()
    }

    /// A fresh daemon over `tmp` with the whole configured budget and ids
    /// starting at zero.
    pub fn new(tmp: String, available_memory: u64) -> (d: Self)
        ensures
            d.wf(),
            d.tmp_spec() == tmp@,
            d.id_counter_spec() == 0,
            d.memory_counter_spec().capacity() == available_memory,
            d.memory_counter_spec().used() == 0,
    {
        ContainerDaemon {
            id_counter: 0,
            memory_counter: MemorySemaphore::new(available_memory),
            tmp,
        }
    }

    /// A fresh daemon whose run ids start at `id`.
    pub fn new_with_id(tmp: String, available_memory: u64, id: u64) -> (d: Self)
        ensures
            d.wf(),
            d.tmp_spec() == tmp@,
            d.id_counter_spec() == id,
            d.memory_counter_spec().capacity() == available_memory,
            d.memory_counter_spec().used() == 0,
    {
        ContainerDaemon {
            id_counter: id,
            memory_counter: MemorySemaphore::new(available_memory),
            tmp,
        }
    }

    pub fn available_memory(&self) -> (r: u64)
        requires
            self.wf(),
        ensures
            r == self.memory_counter_spec().available(),
    {
        self.memory_counter.get_available()
    }

    pub fn memory_capacity(&self) -> (r: u64)
        ensures
            r == self.memory_counter_spec().capacity(),
    {
        self.memory_counter.get_capacity()
    }

    /// The id the next created container will get.
    pub fn next_run_id(&self) -> (r: u64)
        ensures
            r == self.id_counter_spec(),
    {
        self.id_counter
    }

    /// Create a container under the next run id, reserving `memory` bytes.
    ///
    /// Fails exactly when the reservation does not fit under the budget; on
    /// failure nothing is allocated.
    pub fn create(&mut self, memory: u64) -> (r: Result<Container, DaemonError>)
        requires
            old(self).wf(),
            old(self).id_counter_spec() < u64::MAX,
        ensures
            final(self).wf(),
            final(self).tmp_spec() == old(self).tmp_spec(),
            final(self).memory_counter_spec().capacity() == old(
                self,
            ).memory_counter_spec().capacity(),
            match r {
                Ok(c) => {
                    &&& memory <= old(self).memory_counter_spec().available()
                    &&& c.id_spec() == old(self).id_counter_spec()
                    &&& c.permit_spec().bytes_spec() == memory
                    &&& c.rootfs_spec().state_spec() == MountState::Prepared
                    &&& c.rootfs_spec().path_spec() == Rootfs::spec_run_path(
                        old(self).tmp_spec(),
                        old(self).id_counter_spec(),
                    )
                    &&& final(self).id_counter_spec() == old(self).id_counter_spec() + 1
                    &&& final(self).memory_counter_spec().used() == old(
                        self,
                    ).memory_counter_spec().used() + memory
                },
                Err(e) => {
                    &&& e == DaemonError::OutOfMemory
                    &&& memory > old(self).memory_counter_spec().available()
                    &&& final(self).id_counter_spec() == old(self).id_counter_spec()
                    &&& final(self).memory_counter_spec().used() == old(
                        self,
                    ).memory_counter_spec().used()
                },
            },
    {
        let permit = match self.memory_counter.try_acquire(memory) {
            Some(p) => p,
            None => {
                return Err(DaemonError::OutOfMemory);
            },
        };
        let id = self.id_counter;
        self.id_counter = id + 1;
        let rootfs = Rootfs::prepare(&self.tmp, id);
        Ok(Container { id, rootfs, permit })
    }

    /// Tear a container down: the rootfs is released and the memory permit
    /// handed back, whatever happened during the run.
    ///
    /// Every container of this daemon satisfies the precondition, because
    /// its permit's bytes stay counted in `used` until this call. The
    /// released rootfs is returned so the caller can unmount and delete the
    /// directory it names.
    pub fn release(&mut self, c: Container) -> (fs: Rootfs)
        requires
            old(self).wf(),
            c.permit_spec().bytes_spec() <= old(self).memory_counter_spec().used(),
        ensures
            final(self).wf(),
            final(self).tmp_spec() == old(self).tmp_spec(),
            final(self).id_counter_spec() == old(self).id_counter_spec(),
            final(self).memory_counter_spec().capacity() == old(
                self,
            ).memory_counter_spec().capacity(),
            final(self).memory_counter_spec().used() == old(self).memory_counter_spec().used()
                - c.permit_spec().bytes_spec(),
            fs.state_spec() == MountState::Released,
            fs.path_spec() == c.rootfs_spec().path_spec(),
    {
        let Container { id: _, mut rootfs, permit } = c;
        rootfs.release();
        self.memory_counter.release(permit);
        rootfs
    }
}

/// Cleanup: one run's grant and its release cancel out on the budget, so
/// after any interleaving of runs that have all been released the available
/// memory equals the configured maximum again.
pub proof fn lemma_run_cleanup(used: int, m: u64)
    ensures
        apply_ops(used, seq![BudgetOp::Grant(m), BudgetOp::Give(m)]) == used,
{
    let ops = seq![BudgetOp::Grant(m), BudgetOp::Give(m)];
    assert(ops.drop_first() =~= seq![BudgetOp::Give(m)]);
    assert(ops.drop_first().drop_first() =~= Seq::<BudgetOp>::empty());
    assert(crate::semaphore::granted_total(ops.drop_first().drop_first()) == 0);
    assert(crate::semaphore::returned_total(ops.drop_first().drop_first()) == 0);
    assert(crate::semaphore::granted_total(ops.drop_first()) == 0);
    assert(crate::semaphore::returned_total(ops.drop_first()) == m);
    assert(crate::semaphore::granted_total(ops) == m);
    assert(crate::semaphore::returned_total(ops) == m);
    lemma_budget_conservation(used, ops);
}

} // verus!
