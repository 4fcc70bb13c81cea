//! Resource monitor of a single run.
//!
//! A [`StatMonitor`] owns the run's control group, the wall/cpu/memory
//! accounting and the bounded stdout buffer. The caller forwards every chunk
//! the child writes through [`StatMonitor::feed_stdout`] and reports every
//! reading of the controllers through [`StatMonitor::observe`]; the monitor
//! records which limit was breached first. Each limit trips one way: once a
//! reason is armed it never changes.

use vstd::prelude::*;

use crate::limits::{CpuStatistics, LimitKind, Limits, MemStatistics};

verus! {

pub open spec fn min_int(a: int, b: int) -> int {
    if a <= b {
        a
    } else {
        b
    }
}

/// The reason armed after one reading of the controllers: a reason already
/// armed stays; otherwise the first exceeded ceiling of this reading —
/// wall, then cpu, then memory — trips.
pub open spec fn spec_first_trip(
    limits: Limits,
    tripped: Option<LimitKind>,
    cpu_us: u64,
    mem_bytes: u64,
    wall_us: u64,
) -> Option<LimitKind> {
    if tripped is Some {
        tripped
    } else if wall_us > limits.wall_ms * 1000 {
        Some(LimitKind::Wall)
    } else if cpu_us > limits.cpu_us {
        Some(LimitKind::Cpu)
    } else if mem_bytes > limits.memory_bytes {
        Some(LimitKind::Memory)
    } else {
        None
    }
}

/// Monitor of one sandboxed run: limit enforcement plus statistics capture.
pub struct StatMonitor {
    limits: Limits,
    cg_path: String,
    captured: Vec<u8>,
    /// Every stdout byte the child ever offered, captured or not.
    offered: Ghost<Seq<u8>>,
    tripped: Option<LimitKind>,
    cpu_us: u64,
    peak_mem: u64,
    wall_us: u64,
}

impl StatMonitor {
    pub closed spec fn limits_spec(self) -> Limits {
        self.limits
    }

    pub closed spec fn cg_path_spec(self) -> Seq<char> {
        self.cg_path@
    }

    /// Bytes of stdout kept in the bounded buffer.
    pub closed spec fn captured_spec(self) -> Seq<u8> {
        self.captured@
    }

    /// Every byte the child offered, kept or dropped.
    pub closed spec fn offered_spec(self) -> Seq<u8> {
        self.offered@
    }

    /// The first limit breached, if any.
    pub closed spec fn tripped_spec(self) -> Option<LimitKind> {
        self.tripped
    }

    pub closed spec fn cpu_us_spec(self) -> u64 {
        self.cpu_us
    }

    pub closed spec fn peak_mem_spec(self) -> u64 {
        self.peak_mem
    }

    pub closed spec fn wall_us_spec(self) -> u64 {
        self.wall_us
    }

    /// The buffer keeps exactly the first `output_bytes` bytes offered, and a
    /// child that offered more than `output_bytes` always has a reason armed.
    pub open spec fn wf(self) -> bool {
        &&& self.captured_spec() == self.offered_spec().take(
            min_int(self.limits_spec().output_bytes as int, self.offered_spec().len() as int),
        )
        &&& self.offered_spec().len() > self.limits_spec().output_bytes
            ==> self.tripped_spec() is Some
    }

    /// A fresh monitor: nothing captured, nothing tripped, all counters zero.
    pub fn new(cg_path: String, limits: Limits) -> (m: Self)
        ensures
            m.wf(),
            m.limits_spec() == limits,
            m.cg_path_spec() == cg_path@,
            m.captured_spec() == Seq::<u8>::empty(),
            m.offered_spec() == Seq::<u8>::empty(),
            m.tripped_spec() is None,
            m.cpu_us_spec() == 0,
            m.peak_mem_spec() == 0,
            m.wall_us_spec() == 0,
    {
        let m = StatMonitor {
            limits,
            cg_path,
            captured: Vec::new(),
            offered: Ghost(Seq::empty()),
            tripped: None,
            cpu_us: 0,
            peak_mem: 0,
            wall_us: 0,
        };
        proof {
            assert(m.captured@ =~= m.offered@.take(
                min_int(limits.output_bytes as int, m.offered@.len() as int),
            ));
        }
        m
    }

    /// Path of the run's control group, handed to the isolator so the child
    /// is placed into this group.
    pub fn get_cg_path(&self) -> (r: &String)
        ensures
            r@ == self.cg_path_spec(),
    {
        &self.cg_path
    }

    pub fn get_limits(&self) -> (r: Limits)
        ensures
            r == self.limits_spec(),
    {
        self.limits
    }

    /// First breached limit so far, if any.
    pub fn poll_exhaust(&self) -> (r: Option<LimitKind>)
        ensures
            r == self.tripped_spec(),
    {
        self.tripped
    }

    /// Accept a chunk of the child's stdout.
    ///
    /// Bytes are kept until the buffer holds `output_bytes`; everything past
    /// that is dropped and, if no limit had tripped yet, the `Output` reason
    /// is armed. Writing up to `output_bytes` in total never trips.
    pub fn feed_stdout(&mut self, chunk: &Vec<u8>)
        requires
            old(self).wf(),
        ensures
            final(self).wf(),
            final(self).limits_spec() == old(self).limits_spec(),
            final(self).cg_path_spec() == old(self).cg_path_spec(),
            final(self).cpu_us_spec() == old(self).cpu_us_spec(),
            final(self).peak_mem_spec() == old(self).peak_mem_spec(),
            final(self).wall_us_spec() == old(self).wall_us_spec(),
            final(self).offered_spec() == old(self).offered_spec() + chunk@,
            final(self).tripped_spec() == if old(self).tripped_spec() is Some {
                old(self).tripped_spec()
            } else if old(self).offered_spec().len() + chunk@.len()
                > old(self).limits_spec().output_bytes {
                Some(LimitKind::Output)
            } else {
                None::<LimitKind>
            },
    {
        let ghost old_captured = self.captured@;
        let ghost room = self.limits.output_bytes - self.captured@.len();
        let mut i: usize = 0;
        while i < chunk.len() && (self.captured.len() as u64) < self.limits.output_bytes
            invariant
                0 <= i <= chunk@.len(),
                self.limits == old(self).limits,
                self.cg_path == old(self).cg_path,
                self.offered == old(self).offered,
                self.tripped == old(self).tripped,
                self.cpu_us == old(self).cpu_us,
                self.peak_mem == old(self).peak_mem,
                self.wall_us == old(self).wall_us,
                old(self).wf(),
                old_captured == old(self).captured@,
                room == self.limits.output_bytes - old_captured.len(),
                self.captured@ == old_captured + chunk@.take(i as int),
                i <= room || i == chunk@.len(),
                self.captured@.len() <= self.limits.output_bytes,
            decreases chunk@.len() - i,
        {
            self.captured.push(chunk[i]);
            proof {
                assert(self.captured@ =~= old_captured + chunk@.take(i + 1));
            }
            i = i + 1;
        }
        let overflowed = i < chunk.len();
        if overflowed && self.tripped.is_none() {
            self.tripped = Some(LimitKind::Output);
        }
        proof {
            self.offered@ = self.offered@ + chunk@;
        }
        proof {
            let lim = self.limits.output_bytes as int;
            let off = self.offered@;
            if overflowed {
                assert(self.captured@.len() == lim);
                assert(self.captured@ =~= off.take(min_int(lim, off.len() as int)));
                assert(off.len() > lim);
            } else {
                assert(self.captured@ =~= old_captured + chunk@.take(chunk@.len() as int));
                assert(chunk@.take(chunk@.len() as int) =~= chunk@);
                assert(self.captured@ =~= off.take(min_int(lim, off.len() as int)));
            }
        }
    }

    /// Record one reading of the controllers and the wall clock.
    ///
    /// Counters only ever grow; if no limit had tripped yet, the first
    /// exceeded ceiling of this reading — checked wall, then cpu, then
    /// memory — becomes the armed reason.
    pub fn observe(&mut self, cpu_us: u64, mem_bytes: u64, wall_us: u64)
        requires
            old(self).wf(),
        ensures
            final(self).wf(),
            final(self).limits_spec() == old(self).limits_spec(),
            final(self).cg_path_spec() == old(self).cg_path_spec(),
            final(self).captured_spec() == old(self).captured_spec(),
            final(self).offered_spec() == old(self).offered_spec(),
            final(self).cpu_us_spec() == if cpu_us > old(self).cpu_us_spec() {
                cpu_us
            } else {
                old(self).cpu_us_spec()
            },
            final(self).peak_mem_spec() == if mem_bytes > old(self).peak_mem_spec() {
                mem_bytes
            } else {
                old(self).peak_mem_spec()
            },
            final(self).wall_us_spec() == if wall_us > old(self).wall_us_spec() {
                wall_us
            } else {
                old(self).wall_us_spec()
            },
            final(self).tripped_spec() == spec_first_trip(
                old(self).limits_spec(),
                old(self).tripped_spec(),
                cpu_us,
                mem_bytes,
                wall_us,
            ),
    {
        if cpu_us > self.cpu_us {
            self.cpu_us = cpu_us;
        }
        if mem_bytes > self.peak_mem {
            self.peak_mem = mem_bytes;
        }
        if wall_us > self.wall_us {
            self.wall_us = wall_us;
        }
        if self.tripped.is_none() {
            let wall_ceiling: u128 = (self.limits.wall_ms as u128) * 1000;
            if (wall_us as u128) > wall_ceiling {
                self.tripped = Some(LimitKind::Wall);
            } else if cpu_us > self.limits.cpu_us {
                self.tripped = Some(LimitKind::Cpu);
            } else if mem_bytes > self.limits.memory_bytes {
                self.tripped = Some(LimitKind::Memory);
            }
        }
    }

    /// Statistics snapshot: cpu and memory as captured so far.
    pub fn stat(&self) -> (r: (CpuStatistics, MemStatistics))
        ensures
            r.0.total_us == self.cpu_us_spec(),
            r.1.peak == self.peak_mem_spec(),
    {
        (CpuStatistics { total_us: self.cpu_us }, MemStatistics { peak: self.peak_mem })
    }

    pub fn get_wall_us(&self) -> (r: u64)
        ensures
            r == self.wall_us_spec(),
    {
        self.wall_us
    }

    /// Hand the captured stdout out, leaving the buffer empty.
    pub fn take_buffer(&mut self) -> (r: Vec<u8>)
        ensures
            r@ == old(self).captured_spec(),
            final(self).captured_spec() == Seq::<u8>::empty(),
            final(self).offered_spec() == Seq::<u8>::empty(),
            final(self).limits_spec() == old(self).limits_spec(),
            final(self).cg_path_spec() == old(self).cg_path_spec(),
            final(self).tripped_spec() == old(self).tripped_spec(),
            final(self).cpu_us_spec() == old(self).cpu_us_spec(),
            final(self).peak_mem_spec() == old(self).peak_mem_spec(),
            final(self).wall_us_spec() == old(self).wall_us_spec(),
            final(self).wf(),
    {
        let mut out: Vec<u8> = Vec::new();
        core::mem::swap(&mut out, &mut self.captured);
        proof {
            self.offered@ = Seq::empty();
            assert(self.captured@ =~= self.offered@.take(
                min_int(
                    self.limits.output_bytes as int,
                    self.offered@.len() as int,
                ),
            ));
        }
        out
    }
}

/// Output bounding: once a child has offered more than `output_bytes` of
/// stdout, the buffer holds exactly `output_bytes` — the first ones offered —
/// and a reason is armed; `feed_stdout` guarantees that reason is `Output`
/// when no other limit tripped first.
pub proof fn lemma_output_bounding(m: StatMonitor)
    requires
        m.wf(),
        m.offered_spec().len() > m.limits_spec().output_bytes,
    ensures
        m.captured_spec().len() == m.limits_spec().output_bytes,
        m.captured_spec() == m.offered_spec().take(m.limits_spec().output_bytes as int),
        m.tripped_spec() is Some,
{
}

/// Limit fidelity for memory: a reading that exceeds the memory ceiling by
/// at least one byte, on a monitor with nothing tripped yet whose other
/// ceilings are respected, arms exactly the `Memory` reason. The symmetric
/// facts for wall and cpu follow from the same `observe` contract, and the
/// one for output from `feed_stdout`.
pub proof fn lemma_memory_trip_is_reported(
    limits: Limits,
    cpu_us: u64,
    mem_bytes: u64,
    wall_us: u64,
)
    requires
        mem_bytes >= limits.memory_bytes + 1,
        wall_us <= limits.wall_ms * 1000,
        cpu_us <= limits.cpu_us,
    ensures
        spec_first_trip(limits, None, cpu_us, mem_bytes, wall_us) == Some(LimitKind::Memory),
{
}

} // verus!
