//! The streaming judge service: authentication, request validation, the
//! per-request event stream, and the mapping from a run's corpse to the
//! status code the caller sees.
//!
//! A judge request compiles once and then walks its tests in order. The
//! [`JudgeSession`] state machine owns the stream discipline: every emitted
//! event is recorded, and its well-formedness invariant guarantees that a
//! finished stream is exactly `CaseStarted(1) CaseResult(1) …
//! CaseStarted(k) CaseResult(k)` with strictly increasing indices.

use vstd::prelude::*;

use crate::langs::{CompileLog, JudgeCode, LangError, RequestError};
use crate::limits::{ExitReason, LimitKind};
use crate::matcher::{match_rule_from_i32, output_matches, spec_output_matches, JudgeMatchRule};
use crate::langs::{parsed_uuid, parse_uuid, ArtifactFactory, LangInfo};
use crate::process::Corpse;

verus! {

/// Status of a refused call, as the transport will report it.
#[derive(Clone, Copy, PartialEq, Eq, Structural, Debug)]
pub enum RpcCode {
    Internal,
    FailedPrecondition,
    PermissionDenied,
}

/// A terminal error of one call.
#[derive(Clone, PartialEq, Eq, Debug)]
pub struct RpcStatus {
    pub code: RpcCode,
    pub message: String,
}

/// One judged case's result, with the run's statistics.
#[derive(Clone, Copy, PartialEq, Eq, Structural, Debug)]
pub struct JudgeResult {
    pub status: JudgeCode,
    /// Cpu time consumed, in microseconds.
    pub time: u64,
    /// Peak memory, in bytes.
    pub memory: u64,
    /// Granularity of the time figures, in microseconds.
    pub accuracy: u64,
}

/// One event of a judge stream.
#[derive(Clone, Copy, PartialEq, Eq, Structural, Debug)]
pub enum JudgeEvent {
    /// Case `i` (1-based) is about to run.
    CaseStarted(usize),
    CaseResult(JudgeResult),
}

/// One line of compiler diagnostics as streamed to the caller.
#[derive(Clone, PartialEq, Eq, Debug)]
pub struct Log {
    pub level: u32,
    pub msg: String,
}

impl From<CompileLog> for Log {
    fn from(value: CompileLog) -> (r: Log) {
        Log { level: value.level, msg: value.message }
    }
}

impl vstd::std_specs::convert::FromSpecImpl<CompileLog> for Log {
    open spec fn obeys_from_spec() -> bool {
        true
    }

    open spec fn from_spec(t: CompileLog) -> Log {
        Log { level: t.level, msg: t.message }
    }
}

/// The timing granularity of this host: one kernel tick, in microseconds.
pub fn accuracy(kernel_hz: u64) -> (r: u64)
    requires
        kernel_hz > 0,
    ensures
        r == 1000000u64 / kernel_hz,
{
    1000000u64 / kernel_hz
}

/// The status a corpse forces regardless of the expected output, if any:
/// a tripped limit or an abnormal end. A clean zero exit forces none and is
/// judged against the expected output instead.
pub open spec fn spec_exception(exit: ExitReason) -> Option<JudgeCode> {
    match exit {
        ExitReason::Limit(LimitKind::Cpu) => Some(JudgeCode::Tle),
        ExitReason::Limit(LimitKind::Wall) => Some(JudgeCode::Tle),
        ExitReason::Limit(LimitKind::Memory) => Some(JudgeCode::Mle),
        ExitReason::Limit(LimitKind::Output) => Some(JudgeCode::Ole),
        ExitReason::Signaled => Some(JudgeCode::Re),
        ExitReason::Exited(code) => if code != 0 {
            Some(JudgeCode::Re)
        } else {
            None
        },
    }
}

/// The status a corpse forces, if any.
pub fn corpse_exception(c: &Corpse) -> (r: Option<JudgeCode>)
    ensures
        r == spec_exception(c.exit),
{
    match c.exit {
        ExitReason::Limit(LimitKind::Cpu) => Some(JudgeCode::Tle),
        ExitReason::Limit(LimitKind::Wall) => Some(JudgeCode::Tle),
        ExitReason::Limit(LimitKind::Memory) => Some(JudgeCode::Mle),
        ExitReason::Limit(LimitKind::Output) => Some(JudgeCode::Ole),
        ExitReason::Signaled => Some(JudgeCode::Re),
        ExitReason::Exited(code) => if code != 0 {
            Some(JudgeCode::Re)
        } else {
            None
        },
    }
}

/// The status of one judged case.
pub open spec fn spec_case_code(
    exit: ExitReason,
    stdout: Seq<u8>,
    expected: Seq<u8>,
    rule: JudgeMatchRule,
) -> JudgeCode {
    match spec_exception(exit) {
        Some(c) => c,
        None => if spec_output_matches(stdout, expected, rule) {
            JudgeCode::Ac
        } else {
            JudgeCode::Wa
        },
    }
}

/// A status on which the stream stops: everything but accepted and wrong
/// answer, which both let the next test run.
pub open spec fn spec_is_stopping(c: JudgeCode) -> bool {
    c != JudgeCode::Ac && c != JudgeCode::Wa
}

/// Where a judge request stands.
#[derive(Clone, Copy, PartialEq, Eq, Structural, Debug)]
pub enum JudgePhase {
    /// Compiling the submitted source.
    Compiling,
    /// Between cases: the next one may start.
    Ready,
    /// A case has started and awaits its result.
    CaseRunning,
    /// The stream is closed.
    Done,
}

/// The first `2 * k` events are the well-formed pairs of cases `1 ..= k`:
/// each case announced, then resolved, in strictly increasing order.
pub open spec fn is_case_pairs(events: Seq<JudgeEvent>, k: nat) -> bool {
    &&& events.len() == 2 * k
    &&& forall|t: int|
        0 <= t < k ==> #[trigger] events[2 * t] == JudgeEvent::CaseStarted((t + 1) as usize)
    &&& forall|t: int| 0 <= t < k ==> #[trigger] events[2 * t + 1] is CaseResult
}

/// One judge request's stream discipline.
pub struct JudgeSession {
    total: usize,
    /// 1-based index of the next case to start.
    next_case: usize,
    phase: JudgePhase,
    failed_compile: bool,
    events: Vec<JudgeEvent>,
    rule: JudgeMatchRule,
    accuracy: u64,
}

impl JudgeSession {
    pub closed spec fn total_spec(self) -> usize {
        self.total
    }

    pub closed spec fn next_case_spec(self) -> usize {
        self.next_case
    }

    pub closed spec fn phase_spec(self) -> JudgePhase {
        self.phase
    }

    pub closed spec fn failed_compile_spec(self) -> bool {
        self.failed_compile
    }

    pub closed spec fn events_spec(self) -> Seq<JudgeEvent> {
        self.events@
    }

    pub closed spec fn rule_spec(self) -> JudgeMatchRule {
        self.rule
    }

    pub closed spec fn accuracy_spec(self) -> u64 {
        self.accuracy
    }

    /// The stream discipline: whatever the phase, the recorded events are a
    /// well-formed prefix of a judge stream.
    pub open spec fn wf(self) -> bool {
        &&& self.total_spec() < usize::MAX
        &&& 1 <= self.next_case_spec()
        &&& match self.phase_spec() {
            JudgePhase::Compiling => {
                &&& self.events_spec().len() == 0
                &&& self.next_case_spec() == 1
                &&& !self.failed_compile_spec()
            },
            JudgePhase::Ready => {
                &&& !self.failed_compile_spec()
                &&& self.next_case_spec() <= self.total_spec()
                &&& is_case_pairs(self.events_spec(), (self.next_case_spec() - 1) as nat)
            },
            JudgePhase::CaseRunning => {
                &&& !self.failed_compile_spec()
                &&& self.next_case_spec() <= self.total_spec()
                &&& self.events_spec().len() == 2 * (self.next_case_spec() - 1) + 1
                &&& is_case_pairs(
                    self.events_spec().drop_last(),
                    (self.next_case_spec() - 1) as nat,
                )
                &&& self.events_spec().last() == JudgeEvent::CaseStarted(self.next_case_spec())
            },
            JudgePhase::Done => {
                if self.failed_compile_spec() {
                    self.events_spec().len() == 1 && self.events_spec()[0] is CaseResult
                } else {
                    &&& self.next_case_spec() <= self.total_spec() + 1
                    &&& is_case_pairs(self.events_spec(), (self.next_case_spec() - 1) as nat)
                }
            },
        }
    }

    /// A fresh session for a request with `total` tests.
    pub fn new(total: usize, rule: JudgeMatchRule, accuracy: u64) -> (s: Self)
        requires
            total < usize::MAX,
        ensures
            s.wf(),
            s.total_spec() == total,
            s.phase_spec() == JudgePhase::Compiling,
            s.events_spec() == Seq::<JudgeEvent>::empty(),
            s.rule_spec() == rule,
            s.accuracy_spec() == accuracy,
    {
        JudgeSession {
            total,
            next_case: 1,
            phase: JudgePhase::Compiling,
            failed_compile: false,
            events: Vec::new(),
            rule,
            accuracy,
        }
    }

    pub fn phase(&self) -> (r: JudgePhase)
        ensures
            r == self.phase_spec(),
    {
        self.phase
    }

    pub fn events(&self) -> (r: &Vec<JudgeEvent>)
        ensures
            r@ == self.events_spec(),
    {
        &self.events
    }

    /// Compilation failed: emit the single terminal result and close.
    pub fn compile_rejected(&mut self, result: JudgeResult) -> (ev: JudgeEvent)
        requires
            old(self).wf(),
            old(self).phase_spec() == JudgePhase::Compiling,
        ensures
            final(self).wf(),
            final(self).phase_spec() == JudgePhase::Done,
            final(self).failed_compile_spec(),
            ev == JudgeEvent::CaseResult(result),
            final(self).events_spec() == old(self).events_spec().push(ev),
    {
        let ev = JudgeEvent::CaseResult(result);
        self.events.push(ev);
        self.failed_compile = true;
        self.phase = JudgePhase::Done;
        ev
    }

    /// Compilation succeeded: run the cases, or close at once when the
    /// request has none.
    pub fn compile_done(&mut self)
        requires
            old(self).wf(),
            old(self).phase_spec() == JudgePhase::Compiling,
        ensures
            final(self).wf(),
            final(self).events_spec() == old(self).events_spec(),
            final(self).phase_spec() == (if old(self).total_spec() >= 1 {
                JudgePhase::Ready
            } else {
                JudgePhase::Done
            }),
            final(self).total_spec() == old(self).total_spec(),
            final(self).rule_spec() == old(self).rule_spec(),
            final(self).accuracy_spec() == old(self).accuracy_spec(),
            !final(self).failed_compile_spec(),
    {
        if self.total >= 1 {
            self.phase = JudgePhase::Ready;
        } else {
            self.phase = JudgePhase::Done;
        }
        proof {
            assert(is_case_pairs(self.events@, 0nat));
        }
    }

    /// Announce the next case.
    pub fn start_case(&mut self) -> (ev: JudgeEvent)
        requires
            old(self).wf(),
            old(self).phase_spec() == JudgePhase::Ready,
        ensures
            final(self).wf(),
            final(self).phase_spec() == JudgePhase::CaseRunning,
            ev == JudgeEvent::CaseStarted(old(self).next_case_spec()),
            final(self).events_spec() == old(self).events_spec().push(ev),
            final(self).next_case_spec() == old(self).next_case_spec(),
            final(self).total_spec() == old(self).total_spec(),
            final(self).rule_spec() == old(self).rule_spec(),
            final(self).accuracy_spec() == old(self).accuracy_spec(),
            !final(self).failed_compile_spec(),
    {
        let ev = JudgeEvent::CaseStarted(self.next_case);
        self.events.push(ev);
        self.phase = JudgePhase::CaseRunning;
        proof {
            assert(self.events@.drop_last() =~= old(self).events@);
        }
        ev
    }

    /// Resolve the running case from its corpse: map the corpse to a status
    /// — a tripped limit or abnormal end wins, otherwise the output decides
    /// between accepted and wrong answer — and emit the result. A stopping
    /// status, or the last test, closes the stream.
    pub fn finish_case(&mut self, corpse: &Corpse, expected: &Vec<u8>) -> (ev: JudgeEvent)
        requires
            old(self).wf(),
            old(self).phase_spec() == JudgePhase::CaseRunning,
        ensures
            final(self).wf(),
            ({
                let code = spec_case_code(
                    corpse.exit,
                    corpse.stdout@,
                    expected@,
                    old(self).rule_spec(),
                );
                &&& ev == JudgeEvent::CaseResult(
                    JudgeResult {
                        status: code,
                        time: corpse.cpu_used_us,
                        memory: corpse.peak_mem_bytes,
                        accuracy: old(self).accuracy_spec(),
                    },
                )
                &&& final(self).events_spec() == old(self).events_spec().push(ev)
                &&& final(self).next_case_spec() == old(self).next_case_spec() + 1
                &&& final(self).phase_spec() == (if spec_is_stopping(code) || old(
                    self,
                ).next_case_spec() + 1 > old(self).total_spec() {
                    JudgePhase::Done
                } else {
                    JudgePhase::Ready
                })
                &&& !final(self).failed_compile_spec()
                &&& final(self).total_spec() == old(self).total_spec()
                &&& final(self).rule_spec() == old(self).rule_spec()
                &&& final(self).accuracy_spec() == old(self).accuracy_spec()
            }),
    {
        let status = match corpse_exception(corpse) {
            Some(c) => c,
            None => {
                if output_matches(&corpse.stdout, expected, self.rule) {
                    JudgeCode::Ac
                } else {
                    JudgeCode::Wa
                }
            },
        };
        let ev = JudgeEvent::CaseResult(
            JudgeResult {
                status,
                time: corpse.cpu_used_us,
                memory: corpse.peak_mem_bytes,
                accuracy: self.accuracy,
            },
        );
        self.events.push(ev);
        let stopping = match status {
            JudgeCode::Ac | JudgeCode::Wa => false,
            _ => true,
        };
        let finished_case = self.next_case;
        self.next_case = self.next_case + 1;
        if stopping || self.next_case > self.total {
            self.phase = JudgePhase::Done;
        } else {
            self.phase = JudgePhase::Ready;
        }
        proof {
            let k = (finished_case - 1) as nat;
            let evs = self.events@;
            assert(evs.len() == 2 * k + 2);
            assert forall|t: int| 0 <= t < k + 1 implies #[trigger] evs[2 * t]
                == JudgeEvent::CaseStarted((t + 1) as usize) by {
                if t < k {
                    assert(old(self).events@.drop_last()[2 * t] == evs[2 * t]);
                } else {
                    assert(evs[2 * t] == old(self).events@.last());
                }
            }
            assert forall|t: int| 0 <= t < k + 1 implies #[trigger] evs[2 * t + 1]
                is CaseResult by {
                if t < k {
                    assert(old(self).events@.drop_last()[2 * t + 1] == evs[2 * t + 1]);
                } else {
                    assert(evs[2 * t + 1] == ev);
                }
            }
            assert(is_case_pairs(evs, k + 1));
        }
        ev
    }
}

/// The exact `Authorization` value a configured secret demands.
pub open spec fn spec_auth_header(secret: Seq<u8>) -> Seq<u8> {
    seq![98u8, 97u8, 115u8, 105u8, 99u8, 32u8] + secret
}

/// Authenticate a call against the configured shared secret.
///
/// With no secret configured every call passes. With one, the call passes
/// exactly when it carried a header equal to `basic ` followed by the
/// secret. The comparison walks the whole expected value whatever the
/// header holds: no byte position ends it early.
pub fn check_secret(secret: &Option<Vec<u8>>, header: Option<&Vec<u8>>) -> (r: Result<
    (),
    RpcStatus,
>)
    ensures
        r is Ok <==> (secret is None || (header is Some && header->0@ == spec_auth_header(
            secret->0@,
        ))),
        r is Err ==> r->Err_0.code == RpcCode::PermissionDenied && r->Err_0.message@
            == "Invalid secret"@,
{
    let s = match secret {
        None => {
            return Ok(());
        },
        Some(s) => s,
    };
    let h = match header {
        None => {
            return Err(
                RpcStatus {
                    code: RpcCode::PermissionDenied,
                    message: String::from_str("Invalid secret"),
                },
            );
        },
        Some(h) => h,
    };
    let mut expected: Vec<u8> = Vec::new();
    expected.push(98);
    expected.push(97);
    expected.push(115);
    expected.push(105);
    expected.push(99);
    expected.push(32);
    let mut i: usize = 0;
    proof {
        assert(expected@ =~= seq![98u8, 97u8, 115u8, 105u8, 99u8, 32u8] + s@.take(0));
    }
    while i < s.len()
        invariant
            0 <= i <= s@.len(),
            expected@ == seq![98u8, 97u8, 115u8, 105u8, 99u8, 32u8] + s@.take(i as int),
        decreases s@.len() - i,
    {
        expected.push(s[i]);
        proof {
            assert(expected@ =~= seq![98u8, 97u8, 115u8, 105u8, 99u8, 32u8] + s@.take(i + 1));
        }
        i = i + 1;
    }
    proof {
        assert(s@.take(s@.len() as int) =~= s@);
        assert(expected@ == spec_auth_header(s@));
    }
    let mut ok: bool = h.len() == expected.len();
    let mut j: usize = 0;
    while j < expected.len()
        invariant
            0 <= j <= expected@.len(),
            ok == (h@.len() == expected@.len() && forall|t: int| 0 <= t < j ==> h@[t]
                == expected@[t]),
        decreases expected@.len() - j,
    {
        let b: u8 = if j < h.len() {
            h[j]
        } else {
            0
        };
        let same = b == expected[j];
        ok = ok && same;
        j = j + 1;
    }
    if ok {
        proof {
            assert(h@ =~= expected@);
        }
        Ok(())
    } else {
        proof {
            if h@ == expected@ {
                assert(h@.len() == expected@.len());
                assert(forall|t: int| 0 <= t < expected@.len() ==> h@[t] == expected@[t]);
            }
        }
        Err(
            RpcStatus {
                code: RpcCode::PermissionDenied,
                message: String::from_str("Invalid secret"),
            },
        )
    }
}

/// What the caller is told of a language-layer error: a reportable status
/// becomes a terminal case result, everything else refuses the call.
pub fn report_of_lang_error(value: LangError, accuracy: u64) -> (r: Result<JudgeResult, RpcStatus>)
    ensures
        match value {
            LangError::Internal(_) => r is Err && r->Err_0.code == RpcCode::Internal
                && r->Err_0.message@ == "See log for more details"@,
            LangError::BadRequest(_) => r is Err && r->Err_0.code == RpcCode::FailedPrecondition
                && r->Err_0.message@ == "language with such uuid does not exist on this judger"@,
            LangError::Report(code) => r is Ok && r->Ok_0 == (JudgeResult {
                status: code,
                time: 0,
                memory: 0,
                accuracy,
            }),
        },
{
    match value {
        LangError::Internal(_) => Err(
            RpcStatus {
                code: RpcCode::Internal,
                message: String::from_str("See log for more details"),
            },
        ),
        LangError::BadRequest(RequestError::LangNotFound(_)) => Err(
            RpcStatus {
                code: RpcCode::FailedPrecondition,
                message: String::from_str("language with such uuid does not exist on this judger"),
            },
        ),
        LangError::Report(code) => Ok(JudgeResult { status: code, time: 0, memory: 0, accuracy }),
    }
}

/// Snapshot the info endpoint returns.
pub struct JudgeInfo {
    pub langs: Vec<LangInfo>,
    /// The configured global memory budget, in bytes.
    pub memory: u64,
    /// One kernel tick, in microseconds.
    pub accuracy: u64,
    /// The cpu-time multiplier, in thousandths.
    pub cpu_factor_milli: u64,
}

/// The judge service: the language registry plus the host configuration,
/// injected at construction.
pub struct Server {
    pub factory: ArtifactFactory,
    pub available_memory: u64,
    pub kernel_hz: u64,
    pub cpu_multiplier_milli: u64,
    pub secret: Option<Vec<u8>>,
}

impl Server {
    pub open spec fn wf(self) -> bool {
        &&& self.kernel_hz > 0
        &&& self.factory.wf()
    }

    pub fn new(
        factory: ArtifactFactory,
        available_memory: u64,
        kernel_hz: u64,
        cpu_multiplier_milli: u64,
        secret: Option<Vec<u8>>,
    ) -> (s: Self)
        requires
            kernel_hz > 0,
            factory.wf(),
        ensures
            s.wf(),
            s.factory == factory,
            s.available_memory == available_memory,
            s.kernel_hz == kernel_hz,
            s.cpu_multiplier_milli == cpu_multiplier_milli,
            s.secret == secret,
    {
        Server { factory, available_memory, kernel_hz, cpu_multiplier_milli, secret }
    }

    /// The synchronous info snapshot: the loaded languages, the memory
    /// budget, the tick granularity and the cpu multiplier.
    pub fn judger_info(&self) -> (r: JudgeInfo)
        requires
            self.wf(),
        ensures
            r.memory == self.available_memory,
            r.accuracy == 1000000u64 / self.kernel_hz,
            r.cpu_factor_milli == self.cpu_multiplier_milli,
            r.langs@.len() == self.factory.langs_spec().len(),
            forall|i: int|
                0 <= i < r.langs@.len() ==> r.langs@[i].uuid == self.factory.langs_spec()[i].uuid
                    && r.langs@[i].name@ == self.factory.langs_spec()[i].name@,
    {
        JudgeInfo {
            langs: self.factory.list_module(),
            memory: self.available_memory,
            accuracy: accuracy(self.kernel_hz),
            cpu_factor_milli: self.cpu_multiplier_milli,
        }
    }

    /// Validate a judge request's preconditions: the matching rule must be a
    /// known wire value and the language uuid must parse. Succeeds exactly
    /// when both hold.
    pub fn judge_precheck(&self, rule: i32, lang_uid: &str) -> (r: Result<
        (JudgeMatchRule, u128),
        RpcStatus,
    >)
        ensures
            match r {
                Ok(p) => {
                    &&& crate::matcher::spec_match_rule(rule) == Some(p.0)
                    &&& parsed_uuid(lang_uid@) == Some(p.1)
                },
                Err(e) => {
                    &&& e.code == RpcCode::FailedPrecondition
                    &&& (crate::matcher::spec_match_rule(rule) is None || parsed_uuid(lang_uid@)
                        is None)
                    &&& if crate::matcher::spec_match_rule(rule) is None {
                        e.message@ == "Invalid judge matching rule"@
                    } else {
                        e.message@ == "Invalid uuid"@
                    }
                },
            },
    {
        let mode = match match_rule_from_i32(rule) {
            Some(m) => m,
            None => {
                return Err(
                    RpcStatus {
                        code: RpcCode::FailedPrecondition,
                        message: String::from_str("Invalid judge matching rule"),
                    },
                );
            },
        };
        let uid = match parse_uuid(lang_uid) {
            Some(u) => u,
            None => {
                return Err(
                    RpcStatus {
                        code: RpcCode::FailedPrecondition,
                        message: String::from_str("Invalid uuid"),
                    },
                );
            },
        };
        Ok((mode, uid))
    }
}

/// Where a diagnostic request stands.
#[derive(Clone, Copy, PartialEq, Eq, Structural, Debug)]
pub enum ExecPhase {
    Compiling,
    /// Compile diagnostics have been streamed; the single run may follow.
    Logged,
    Done,
}

/// One event of a diagnostic stream.
#[derive(Clone, PartialEq, Eq, Debug)]
pub enum ExecEvent {
    Log(Log),
    /// The captured stdout of the single run.
    Output(Vec<u8>),
}

pub open spec fn all_logs(events: Seq<ExecEvent>) -> bool {
    forall|i: int| 0 <= i < events.len() ==> events[i] is Log
}

/// The diagnostic endpoint's stream discipline: the compile logs in order,
/// then exactly one output event.
pub struct ExecSession {
    phase: ExecPhase,
    events: Vec<ExecEvent>,
}

impl ExecSession {
    pub closed spec fn phase_spec(self) -> ExecPhase {
        self.phase
    }

    pub closed spec fn events_spec(self) -> Seq<ExecEvent> {
        self.events@
    }

    pub open spec fn wf(self) -> bool {
        match self.phase_spec() {
            ExecPhase::Compiling => self.events_spec().len() == 0,
            ExecPhase::Logged => all_logs(self.events_spec()),
            ExecPhase::Done => {
                &&& self.events_spec().len() >= 1
                &&& all_logs(self.events_spec().drop_last())
                &&& self.events_spec().last() is Output
            },
        }
    }

    pub fn new() -> (s: Self)
        ensures
            s.wf(),
            s.phase_spec() == ExecPhase::Compiling,
            s.events_spec() == Seq::<ExecEvent>::empty(),
    {
        ExecSession { phase: ExecPhase::Compiling, events: Vec::new() }
    }

    pub fn phase(&self) -> (r: ExecPhase)
        ensures
            r == self.phase_spec(),
    {
        self.phase
    }

    pub fn events(&self) -> (r: &Vec<ExecEvent>)
        ensures
            r@ == self.events_spec(),
    {
        &self.events
    }

    /// Stream the compile diagnostics, one event per log line, in order.
    pub fn emit_logs(&mut self, logs: &Vec<CompileLog>)
        requires
            old(self).wf(),
            old(self).phase_spec() == ExecPhase::Compiling,
        ensures
            final(self).wf(),
            final(self).phase_spec() == ExecPhase::Logged,
            final(self).events_spec().len() == logs@.len(),
            forall|i: int|
                0 <= i < logs@.len() ==> final(self).events_spec()[i] == ExecEvent::Log(
                    Log { level: logs@[i].level, msg: logs@[i].message },
                ),
    {
        let mut i: usize = 0;
        while i < logs.len()
            invariant
                0 <= i <= logs@.len(),
                self.events@.len() == i,
                forall|j: int|
                    0 <= j < i ==> self.events@[j] == ExecEvent::Log(
                        Log { level: logs@[j].level, msg: logs@[j].message },
                    ),
                self.phase == old(self).phase,
            decreases logs@.len() - i,
        {
            let entry = Log { level: logs[i].level, msg: logs[i].message.clone() };
            proof {
                assert(entry == (Log { level: logs@[i as int].level, msg: logs@[i as int].message }));
            }
            self.events.push(ExecEvent::Log(entry));
            i = i + 1;
        }
        self.phase = ExecPhase::Logged;
    }

    /// Close the stream with the single run's captured stdout.
    pub fn finish(&mut self, stdout: Vec<u8>)
        requires
            old(self).wf(),
            old(self).phase_spec() == ExecPhase::Logged,
        ensures
            final(self).wf(),
            final(self).phase_spec() == ExecPhase::Done,
            final(self).events_spec() == old(self).events_spec().push(
                ExecEvent::Output(stdout),
            ),
    {
        self.events.push(ExecEvent::Output(stdout));
        self.phase = ExecPhase::Done;
        proof {
            assert(self.events@.drop_last() =~= old(self).events@);
        }
    }
}

/// Limit fidelity: a run whose monitor tripped a limit is always reported
/// with the code of exactly that limit — memory as `Mle`, cpu and wall clock
/// as `Tle`, output as `Ole` — whatever the expected output and rule.
pub proof fn lemma_limit_fidelity(
    exit: ExitReason,
    stdout: Seq<u8>,
    expected: Seq<u8>,
    rule: JudgeMatchRule,
)
    requires
        exit is Limit,
    ensures
        spec_case_code(exit, stdout, expected, rule) == (match exit {
            ExitReason::Limit(LimitKind::Memory) => JudgeCode::Mle,
            ExitReason::Limit(LimitKind::Cpu) => JudgeCode::Tle,
            ExitReason::Limit(LimitKind::Wall) => JudgeCode::Tle,
            ExitReason::Limit(LimitKind::Output) => JudgeCode::Ole,
            _ => JudgeCode::SystemError,
        }),
{
}

/// Event ordering: a finished stream whose compile succeeded consists of
/// exactly the pairs `CaseStarted(i) CaseResult(i)` for `i` from 1 to the
/// number of cases that ran, in strictly increasing order, and no event
/// follows the closing result.
pub proof fn lemma_event_ordering(s: JudgeSession)
    requires
        s.wf(),
        s.phase_spec() == JudgePhase::Done,
        !s.failed_compile_spec(),
    ensures
        is_case_pairs(s.events_spec(), (s.next_case_spec() - 1) as nat),
        s.next_case_spec() - 1 <= s.total_spec(),
{
}

} // verus!
