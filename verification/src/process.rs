//! The judger-side process pipeline: a context is mounted, put under a
//! monitor, and turned into the argument vector of the external isolator.
//!
//! The isolator binary is treated as a program with a fixed argument
//! vocabulary: base flags, the cgroup-version flag, `--cgroup-mount=` with
//! the run's control group, `--mount=` with the run's root, a `--`
//! separator, and the inner argument vector whose first element is rewritten
//! to its absolute path under the root.

use vstd::prelude::*;

use crate::limits::{ExitReason, Limits};
use crate::monitor::StatMonitor;

verus! {

/// Immutable post-mortem record of one sandboxed run.
pub struct Corpse {
    /// How the child ended: its own exit, a signal, or a tripped limit.
    pub exit: ExitReason,
    /// The captured stdout, at most the output ceiling.
    pub stdout: Vec<u8>,
    pub cpu_used_us: u64,
    pub peak_mem_bytes: u64,
    pub wall_used_us: u64,
}

/// A directory path without its last component: the characters before the
/// final separator.
pub open spec fn spec_parent_dir(s: Seq<char>) -> Seq<char>
    decreases s.len(),
{
    if s.len() == 0 {
        s
    } else if s.last() == '/' {
        s.drop_last()
    } else {
        spec_parent_dir(s.drop_last())
    }
}

/// The characters of `p` before its last `/`, or nothing when it has none.
pub fn parent_dir(p: &String) -> (r: String)
    ensures
        r@ == spec_parent_dir(p@),
{
    let len = p.as_str().unicode_len();
    proof {
        assert(p@.take(len as int) =~= p@);
    }
    let mut n: usize = len;
    while n > 0 && p.as_str().get_char(n - 1) != '/'
        invariant
            0 <= n <= len,
            len == p@.len(),
            spec_parent_dir(p@) == spec_parent_dir(p@.take(n as int)),
        decreases n,
    {
        proof {
            assert(p@.take(n as int).drop_last() =~= p@.take(n - 1));
            assert(p@.take(n as int).last() == p@[n - 1]);
        }
        n = n - 1;
    }
    if n == 0 {
        proof {
            assert(p@.take(0) =~= Seq::<char>::empty());
        }
        String::new()
    } else {
        proof {
            assert(p@.take(n as int).last() == p@[n - 1]);
            assert(p@.take(n as int).drop_last() =~= p@.take(n - 1));
        }
        let r = p.as_str().substring_char(0, n - 1);
        r.to_owned()
    }
}

/// The inner argument vector with its first element rewritten to live under
/// `root`: the jail sees its own root, so the launcher prefixes the binary.
pub fn get_inner_args(args: &Vec<String>, root: &String) -> (r: Vec<String>)
    requires
        args@.len() > 0,
    ensures
        r@.len() == args@.len(),
        r@[0]@ == root@ + args@[0]@,
        forall|i: int| 1 <= i < args@.len() ==> r@[i]@ == args@[i]@,
{
    let mut r: Vec<String> = Vec::new();
    let first = root.clone().concat(args[0].as_str());
    r.push(first);
    let mut i: usize = 1;
    while i < args.len()
        invariant
            1 <= i <= args@.len(),
            r@.len() == i,
            r@[0]@ == root@ + args@[0]@,
            forall|j: int| 1 <= j < i ==> r@[j]@ == args@[j]@,
        decreases args@.len() - i,
    {
        r.push(args[i].clone());
        i = i + 1;
    }
    r
}

/// The full argument vector handed to the isolator, in its fixed order.
pub open spec fn spec_isolate_argv(cg: Seq<char>, root: Seq<char>, inner: Seq<Seq<char>>) -> Seq<
    Seq<char>,
> {
    seq![
        "--quiet"@,
        "--use-cgroupv2"@,
        "--cgroup-mount="@ + cg,
        "--mount="@ + root,
        "--"@,
        root + inner[0],
    ] + inner.drop_first()
}

/// An unlaunched process whose root filesystem is already assigned.
pub struct MountedProcess {
    pub fs_path: String,
    pub args: Vec<String>,
    pub limits: Limits,
}

impl MountedProcess {
    pub fn new(fs_path: String, args: Vec<String>, limits: Limits) -> (r: Self)
        ensures
            r.fs_path == fs_path,
            r.args == args,
            r.limits == limits,
    {
        MountedProcess { fs_path, args, limits }
    }
}

/// A mounted process whose monitor has been constructed.
pub struct MonitoredProcess {
    pub fs_path: String,
    pub args: Vec<String>,
    pub monitor: StatMonitor,
}

impl MonitoredProcess {
    /// Wire a fresh monitor, owning the named control group, to a mounted
    /// process.
    pub fn new(process: MountedProcess, cg_name: String) -> (r: Self)
        ensures
            r.fs_path == process.fs_path,
            r.args == process.args,
            r.monitor.wf(),
            r.monitor.limits_spec() == process.limits,
            r.monitor.cg_path_spec() == cg_name@,
            r.monitor.tripped_spec() is None,
            r.monitor.captured_spec() == Seq::<u8>::empty(),
            r.monitor.offered_spec() == Seq::<u8>::empty(),
            r.monitor.cpu_us_spec() == 0,
            r.monitor.peak_mem_spec() == 0,
            r.monitor.wall_us_spec() == 0,
    {
        let monitor = StatMonitor::new(cg_name, process.limits);
        MonitoredProcess { fs_path: process.fs_path, args: process.args, monitor }
    }
}

/// A process ready to be spawned and raced against its monitor.
pub struct Process {
    pub fs_path: String,
    pub args: Vec<String>,
    pub monitor: StatMonitor,
}

impl From<MonitoredProcess> for Process {
    fn from(value: MonitoredProcess) -> (r: Process) {
        Process { fs_path: value.fs_path, args: value.args, monitor: value.monitor }
    }
}

impl vstd::std_specs::convert::FromSpecImpl<MonitoredProcess> for Process {
    open spec fn obeys_from_spec() -> bool {
        true
    }

    open spec fn from_spec(t: MonitoredProcess) -> Process {
        Process { fs_path: t.fs_path, args: t.args, monitor: t.monitor }
    }
}

impl Process {
    /// An inner argument vector must name the binary to launch.
    pub open spec fn wf(self) -> bool {
        self.args@.len() > 0
    }

    /// Mount, monitor and stage a process in one step.
    pub fn new(fs_path: String, args: Vec<String>, limits: Limits, cg_name: String) -> (r: Self)
        requires
            args@.len() > 0,
        ensures
            r.wf(),
            r.fs_path == fs_path,
            r.args == args,
            r.monitor.wf(),
            r.monitor.limits_spec() == limits,
            r.monitor.cg_path_spec() == cg_name@,
            r.monitor.tripped_spec() is None,
            r.monitor.captured_spec() == Seq::<u8>::empty(),
            r.monitor.cpu_us_spec() == 0,
            r.monitor.peak_mem_spec() == 0,
            r.monitor.wall_us_spec() == 0,
    {
        let mounted = MountedProcess::new(fs_path, args, limits);
        let monitored = MonitoredProcess::new(mounted, cg_name);
        Process::from(monitored)
    }

    /// The `PATH` passed to the isolator: the parent directory of the
    /// rewritten binary, which lives under the mounted root.
    pub fn get_env(&self) -> (r: String)
        requires
            self.wf(),
        ensures
            r@ == spec_parent_dir(self.fs_path@ + self.args@[0]@),
    {
        let unjailed = self.fs_path.clone().concat(self.args[0].as_str());
        parent_dir(&unjailed)
    }

    /// Assemble the isolator's argument vector.
    pub fn isolate_argv(&self) -> (r: Vec<String>)
        requires
            self.wf(),
        ensures
            r.deep_view() == spec_isolate_argv(
                self.monitor.cg_path_spec(),
                self.fs_path@,
                self.args.deep_view(),
            ),
    {
        let mut r: Vec<String> = Vec::new();
        r.push(String::from_str("--quiet"));
        r.push(String::from_str("--use-cgroupv2"));
        r.push(String::from_str("--cgroup-mount=").concat(self.monitor.get_cg_path().as_str()));
        r.push(String::from_str("--mount=").concat(self.fs_path.as_str()));
        r.push(String::from_str("--"));
        let inner = get_inner_args(&self.args, &self.fs_path);
        let mut i: usize = 0;
        while i < inner.len()
            invariant
                0 <= i <= inner@.len(),
                inner@.len() == self.args@.len() > 0,
                inner@[0]@ == self.fs_path@ + self.args@[0]@,
                forall|j: int| 1 <= j < inner@.len() ==> inner@[j]@ == self.args@[j]@,
                r@.len() == 5 + i,
                r@[0]@ == "--quiet"@,
                r@[1]@ == "--use-cgroupv2"@,
                r@[2]@ == "--cgroup-mount="@ + self.monitor.cg_path_spec(),
                r@[3]@ == "--mount="@ + self.fs_path@,
                r@[4]@ == "--"@,
                forall|j: int| 0 <= j < i ==> r@[5 + j]@ == inner@[j]@,
            decreases inner@.len() - i,
        {
            r.push(inner[i].clone());
            i = i + 1;
        }
        proof {
            let spec_argv = spec_isolate_argv(
                self.monitor.cg_path_spec(),
                self.fs_path@,
                self.args.deep_view(),
            );
            assert(self.args.deep_view().len() == self.args@.len());
            assert forall|k: int| 0 <= k < r@.len() implies r.deep_view()[k] == spec_argv[k] by {
                assert(r.deep_view()[k] == r@[k]@);
                if k >= 6 {
                    assert(self.args.deep_view()[k - 5] == self.args@[k - 5]@);
                    assert(spec_argv[k] == self.args.deep_view().drop_first()[k - 6]);
                } else if k == 5 {
                    assert(self.args.deep_view()[0] == self.args@[0]@);
                }
            }
            assert(r.deep_view() =~= spec_isolate_argv(
                self.monitor.cg_path_spec(),
                self.fs_path@,
                self.args.deep_view(),
            ));
        }
        r
    }

    /// Decide the post-mortem record once the race between the monitor and
    /// the child has resolved.
    ///
    /// `child` is `None` when the monitor won — the child was killed on drop
    /// and its own exit never observed — and otherwise carries the exit code,
    /// or `None` inside when a signal ended the child. A tripped limit always
    /// takes precedence in the record.
    pub fn conclude(self, child: Option<Option<i32>>) -> (c: Corpse)
        requires
            self.monitor.wf(),
            child is None ==> self.monitor.tripped_spec() is Some,
        ensures
            c.exit == (match self.monitor.tripped_spec() {
                Some(k) => ExitReason::Limit(k),
                None => match child {
                    Some(Some(code)) => ExitReason::Exited(code),
                    Some(None) => ExitReason::Signaled,
                    None => ExitReason::Signaled,
                },
            }),
            c.stdout@ == self.monitor.captured_spec(),
            c.cpu_used_us == self.monitor.cpu_us_spec(),
            c.peak_mem_bytes == self.monitor.peak_mem_spec(),
            c.wall_used_us == self.monitor.wall_us_spec(),
    {
        let mut monitor = self.monitor;
        let (cpu, mem) = monitor.stat();
        let wall_used_us = monitor.get_wall_us();
        let tripped = monitor.poll_exhaust();
        let stdout = monitor.take_buffer();
        let exit = match tripped {
            Some(k) => ExitReason::Limit(k),
            None => match child {
                Some(Some(code)) => ExitReason::Exited(code),
                Some(None) => ExitReason::Signaled,
                None => ExitReason::Signaled,
            },
        };
        Corpse {
            exit,
            stdout,
            cpu_used_us: cpu.total_us,
            peak_mem_bytes: mem.peak,
            wall_used_us,
        }
    }
}

} // verus!
