//! Sandboxed execution engine for an online-judge platform.
//!
//! The crate models the judging pipeline: a global memory budget shared by all
//! concurrent runs, per-run isolated root filesystems, a resource monitor that
//! enforces wall-clock / cpu / memory / output limits, the argument assembly
//! for the external isolator, a language-plugin registry, the output judger
//! that compares program output to the expected answer, and the streaming
//! judge protocol on top.
//!
//! Everything that decides or computes is verified here; the host calls that
//! actually mount filesystems, write cgroup files and spawn children are the
//! caller's duty and are driven through the contracts of these types.

pub mod daemon;
pub mod fmt;
pub mod jail;
pub mod langs;
pub mod limits;
pub mod matcher;
pub mod monitor;
pub mod mount;
pub mod process;
pub mod semaphore;
pub mod server;
