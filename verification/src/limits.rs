//! Resource limits of a single sandboxed run and the statistics captured
//! from it.

use vstd::prelude::*;

verus! {

/// The four enforced ceilings of one run. Breach of any of them terminates
/// the run with the corresponding [`LimitKind`].
#[derive(Clone, Copy, PartialEq, Eq, Structural, Debug)]
pub struct Limits {
    /// Wall-clock ceiling, in milliseconds.
    pub wall_ms: u64,
    /// Cpu-time ceiling, in microseconds.
    pub cpu_us: u64,
    /// Peak-memory ceiling, in bytes.
    pub memory_bytes: u64,
    /// Captured-stdout ceiling, in bytes.
    pub output_bytes: u64,
}

/// Which ceiling a run breached first.
#[derive(Clone, Copy, PartialEq, Eq, Structural, Debug)]
pub enum LimitKind {
    Wall,
    Cpu,
    Memory,
    Output,
}

/// Cpu accounting read from the run's cpu controller.
#[derive(Clone, Copy, PartialEq, Eq, Structural, Debug)]
pub struct CpuStatistics {
    /// Total cpu time consumed, in microseconds.
    pub total_us: u64,
}

/// Memory accounting read from the run's memory controller.
#[derive(Clone, Copy, PartialEq, Eq, Structural, Debug)]
pub struct MemStatistics {
    /// Peak resident memory, in bytes.
    pub peak: u64,
}

/// How a finished run ended.
#[derive(Clone, Copy, PartialEq, Eq, Structural, Debug)]
pub enum ExitReason {
    /// The child exited on its own with this code.
    Exited(i32),
    /// The child was terminated by a signal.
    Signaled,
    /// The monitor tripped this limit first and the child was killed.
    Limit(LimitKind),
}

} // verus!
