//! The jailed child as the sandbox sees it: the collected stdout, the cpu and
//! memory statistics, and the verdict of the wait race.
//!
//! The caller drains the child's stdout pipe into a [`RunningProc`], records
//! the limiter's statistics, and reports which arm of the race finished
//! first; [`RunningProc::wait`] then decides the post-mortem record.

use vstd::prelude::*;

use crate::fmt::dec_int;
use crate::fmt::i32_to_string;
use crate::limits::{CpuStatistics, MemStatistics};
use crate::monitor::min_int;

verus! {

/// Most stdout bytes a run may hand back; one more byte is a fault.
pub const BUFFER_LIMIT: usize = 32 * 1024 * 1024 - 1;

/// Which ceiling the jail's limiter reported.
#[derive(Clone, Copy, PartialEq, Eq, Structural, Debug)]
pub enum LimitReason {
    Cpu,
    Mem,
}

/// Faults of the jail itself, as opposed to verdicts on the child.
#[derive(Clone, Copy, PartialEq, Eq, Structural, Debug)]
pub enum JailError {
    /// A stdio pipe had already been taken from the child.
    CapturedPipe,
    /// Neither the limiter nor the child resolved within the watchdog hour.
    Stall,
    /// The child wrote more stdout than [`BUFFER_LIMIT`].
    BufferFull,
}

/// Which arm of the wait race resolved first.
#[derive(Clone, Copy, PartialEq, Eq, Structural, Debug)]
pub enum WaitVerdict {
    /// The limiter reported an exhausted resource.
    Exhausted(LimitReason),
    /// The child exited with a code, or with none when a signal killed it.
    Exited(Option<i32>),
    /// The hour-long stall watchdog fired.
    Stalled,
}

/// How a jailed child ended.
#[derive(Clone, Copy, PartialEq, Eq, Structural, Debug)]
pub enum ExitStatus {
    /// Killed by a signal: a runtime error.
    SigExit,
    /// Exited on its own with this code.
    Code(i32),
    /// The memory quota was exhausted.
    MemExhausted,
    /// The cpu quota was exhausted.
    CpuExhausted,
}

impl ExitStatus {
    /// The human-readable description of this status.
    pub open spec fn message_spec(self) -> Seq<char> {
        match self {
            ExitStatus::SigExit => "Killed by signal"@,
            ExitStatus::Code(x) => "Exit with code "@ + dec_int(x as int),
            ExitStatus::MemExhausted => "Reach memory limit"@,
            ExitStatus::CpuExhausted => "Reach cpu quota"@,
        }
    }

    /// Render the status for a human reader.
    pub fn message(&self) -> (s: String)
        ensures
            s@ == self.message_spec(),
    {
        match self {
            ExitStatus::SigExit => String::from_str("Killed by signal"),
            ExitStatus::Code(x) => {
                let digits = i32_to_string(*x);
                String::from_str("Exit with code ").concat(digits.as_str())
            },
            ExitStatus::MemExhausted => String::from_str("Reach memory limit"),
            ExitStatus::CpuExhausted => String::from_str("Reach cpu quota"),
        }
    }

    /// The status a wait verdict stands for; a stall has none.
    pub open spec fn of_verdict(v: WaitVerdict) -> Option<ExitStatus> {
        match v {
            WaitVerdict::Exhausted(LimitReason::Cpu) => Some(ExitStatus::CpuExhausted),
            WaitVerdict::Exhausted(LimitReason::Mem) => Some(ExitStatus::MemExhausted),
            WaitVerdict::Exited(Some(code)) => Some(ExitStatus::Code(code)),
            WaitVerdict::Exited(None) => Some(ExitStatus::SigExit),
            WaitVerdict::Stalled => None,
        }
    }
}

/// Post-mortem record of a jailed child.
pub struct ExitProc {
    pub status: ExitStatus,
    pub stdout: Vec<u8>,
    pub cpu: CpuStatistics,
    pub mem: MemStatistics,
}

impl ExitProc {
    /// Did the child exit cleanly with code zero?
    pub fn succeed(&self) -> (r: bool)
        ensures
            r == (self.status == ExitStatus::Code(0i32)),
    {
        match self.status {
            ExitStatus::Code(x) => x == 0,
            _ => false,
        }
    }
}

/// A launched jailed child: the stdout drained so far and the statistics the
/// limiter last reported.
pub struct RunningProc {
    stdout: Vec<u8>,
    /// Every stdout byte the child ever handed over, kept or dropped.
    offered: Ghost<Seq<u8>>,
    cpu: CpuStatistics,
    mem: MemStatistics,
}

impl RunningProc {
    pub closed spec fn stdout_spec(self) -> Seq<u8> {
        self.stdout@
    }

    pub closed spec fn offered_spec(self) -> Seq<u8> {
        self.offered@
    }

    pub closed spec fn cpu_spec(self) -> CpuStatistics {
        self.cpu
    }

    pub closed spec fn mem_spec(self) -> MemStatistics {
        self.mem
    }

    /// The drained buffer keeps the first `BUFFER_LIMIT + 1` offered bytes:
    /// one byte beyond the limit is kept so that an overflowing child can be
    /// told apart from one that wrote exactly the limit.
    pub open spec fn wf(self) -> bool {
        self.stdout_spec() == self.offered_spec().take(
            min_int((BUFFER_LIMIT + 1) as int, self.offered_spec().len() as int),
        )
    }

    /// A freshly spawned child: nothing drained, nothing measured.
    pub fn new() -> (p: Self)
        ensures
            p.wf(),
            p.stdout_spec() == Seq::<u8>::empty(),
            p.offered_spec() == Seq::<u8>::empty(),
            p.cpu_spec() == (CpuStatistics { total_us: 0 }),
            p.mem_spec() == (MemStatistics { peak: 0 }),
    {
        let p = RunningProc {
            stdout: Vec::new(),
            offered: Ghost(Seq::empty()),
            cpu: CpuStatistics { total_us: 0 },
            mem: MemStatistics { peak: 0 },
        };
        proof {
            assert(p.stdout@ =~= p.offered@.take(
                min_int((BUFFER_LIMIT + 1) as int, p.offered@.len() as int),
            ));
        }
        p
    }

    /// Drain one chunk of the child's stdout into the bounded buffer.
    pub fn push_stdout(&mut self, chunk: &Vec<u8>)
        requires
            old(self).wf(),
        ensures
            final(self).wf(),
            final(self).offered_spec() == old(self).offered_spec() + chunk@,
            final(self).cpu_spec() == old(self).cpu_spec(),
            final(self).mem_spec() == old(self).mem_spec(),
    {
        let ghost old_stdout = self.stdout@;
        let cap: usize = BUFFER_LIMIT + 1;
        let mut i: usize = 0;
        while i < chunk.len() && self.stdout.len() < cap
            invariant
                0 <= i <= chunk@.len(),
                cap == BUFFER_LIMIT + 1,
                self.offered == old(self).offered,
                self.cpu == old(self).cpu,
                self.mem == old(self).mem,
                old(self).wf(),
                old_stdout == old(self).stdout@,
                self.stdout@ == old_stdout + chunk@.take(i as int),
                i <= cap - old_stdout.len() || i == chunk@.len(),
                self.stdout@.len() <= cap,
            decreases chunk@.len() - i,
        {
            self.stdout.push(chunk[i]);
            proof {
                assert(self.stdout@ =~= old_stdout + chunk@.take(i + 1));
            }
            i = i + 1;
        }
        proof {
            self.offered@ = self.offered@ + chunk@;
        }
        proof {
            let lim = (BUFFER_LIMIT + 1) as int;
            let off = self.offered@;
            if i < chunk@.len() {
                assert(self.stdout@.len() == lim);
                assert(self.stdout@ =~= off.take(min_int(lim, off.len() as int)));
            } else {
                assert(self.stdout@ =~= old_stdout + chunk@.take(chunk@.len() as int));
                assert(chunk@.take(chunk@.len() as int) =~= chunk@);
                assert(self.stdout@ =~= off.take(min_int(lim, off.len() as int)));
            }
        }
    }

    /// Record the limiter's statistics.
    pub fn record_stat(&mut self, cpu: CpuStatistics, mem: MemStatistics)
        ensures
            final(self).cpu_spec() == cpu,
            final(self).mem_spec() == mem,
            final(self).stdout_spec() == old(self).stdout_spec(),
            final(self).offered_spec() == old(self).offered_spec(),
            old(self).wf() ==> final(self).wf(),
    {
        self.cpu = cpu;
        self.mem = mem;
    }

    /// Decide the post-mortem record from the first-resolved arm of the race.
    ///
    /// A stall is a jail fault; a child whose stdout overflowed
    /// [`BUFFER_LIMIT`] is rejected as `BufferFull`; otherwise the record
    /// carries the drained stdout, the statistics and the verdict's status.
    pub fn wait(self, verdict: WaitVerdict) -> (r: Result<ExitProc, JailError>)
        requires
            self.wf(),
        ensures
            match r {
                Ok(p) => {
                    &&& verdict != WaitVerdict::Stalled
                    &&& self.offered_spec().len() <= BUFFER_LIMIT
                    &&& Some(p.status) == ExitStatus::of_verdict(verdict)
                    &&& p.stdout@ == self.stdout_spec()
                    &&& p.cpu == self.cpu_spec()
                    &&& p.mem == self.mem_spec()
                },
                Err(e) => {
                    &&& (e == JailError::Stall <==> verdict == WaitVerdict::Stalled)
                    &&& (verdict != WaitVerdict::Stalled ==> e == JailError::BufferFull
                        && self.offered_spec().len() > BUFFER_LIMIT)
                },
            },
    {
        let status = match verdict {
            WaitVerdict::Stalled => {
                return Err(JailError::Stall);
            },
            WaitVerdict::Exhausted(LimitReason::Cpu) => ExitStatus::CpuExhausted,
            WaitVerdict::Exhausted(LimitReason::Mem) => ExitStatus::MemExhausted,
            WaitVerdict::Exited(Some(code)) => ExitStatus::Code(code),
            WaitVerdict::Exited(None) => ExitStatus::SigExit,
        };
        if self.stdout.len() == BUFFER_LIMIT + 1 {
            return Err(JailError::BufferFull);
        }
        proof {
            assert(self.stdout_spec().len() <= BUFFER_LIMIT);
            assert(self.offered_spec().len() <= BUFFER_LIMIT);
        }
        Ok(ExitProc { status, stdout: self.stdout, cpu: self.cpu, mem: self.mem })
    }
}

} // verus!
