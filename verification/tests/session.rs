//! End-to-end judging scenarios driven against the session state machine,
//! with the corpses the sandbox would produce for each program.

use judger::langs::JudgeCode;
use judger::limits::{ExitReason, LimitKind};
use judger::matcher::JudgeMatchRule;
use judger::process::Corpse;
use judger::server::{JudgeEvent, JudgePhase, JudgeResult, JudgeSession};

fn corpse(exit: ExitReason, stdout: &[u8], cpu_us: u64, mem: u64) -> Corpse {
    Corpse {
        exit,
        stdout: stdout.to_vec(),
        cpu_used_us: cpu_us,
        peak_mem_bytes: mem,
        wall_used_us: cpu_us,
    }
}

fn result_of(ev: &JudgeEvent) -> JudgeResult {
    match ev {
        JudgeEvent::CaseResult(r) => *r,
        JudgeEvent::CaseStarted(i) => panic!("expected a result, got CaseStarted({})", i),
    }
}

#[test]
fn accepted_run_emits_started_then_ac() {
    let mut s = JudgeSession::new(1, JudgeMatchRule::ExactSame, 10000);
    s.compile_done();
    let started = s.start_case();
    assert_eq!(started, JudgeEvent::CaseStarted(1));
    let c = corpse(ExitReason::Exited(0), b"5", 900_000, 1 << 20);
    let ev = s.finish_case(&c, &b"5".to_vec());
    let r = result_of(&ev);
    assert_eq!(r.status, JudgeCode::Ac);
    assert!(r.time <= 1_000_000);
    assert!(r.memory <= 64 << 20);
    assert_eq!(r.accuracy, 10000);
    assert_eq!(s.phase(), JudgePhase::Done);
    assert_eq!(s.events().len(), 2);
}

#[test]
fn wrong_answer_is_wa_and_stream_continues() {
    let mut s = JudgeSession::new(2, JudgeMatchRule::ExactSame, 10000);
    s.compile_done();
    s.start_case();
    let c = corpse(ExitReason::Exited(0), b"5", 1000, 1024);
    let ev = s.finish_case(&c, &b"6".to_vec());
    assert_eq!(result_of(&ev).status, JudgeCode::Wa);
    assert_eq!(s.phase(), JudgePhase::Ready);
}

#[test]
fn cpu_limit_is_tle_and_stream_stops() {
    let mut s = JudgeSession::new(10, JudgeMatchRule::ExactSame, 10000);
    s.compile_done();
    s.start_case();
    let c = corpse(ExitReason::Limit(LimitKind::Cpu), b"", 105_000, 1024);
    let ev = s.finish_case(&c, &b"whatever".to_vec());
    let r = result_of(&ev);
    assert_eq!(r.status, JudgeCode::Tle);
    assert!(r.time >= 100_000);
    assert_eq!(s.phase(), JudgePhase::Done);
    assert_eq!(s.events().len(), 2);
}

#[test]
fn memory_limit_is_mle_and_stream_stops() {
    let mut s = JudgeSession::new(3, JudgeMatchRule::ExactSame, 10000);
    s.compile_done();
    s.start_case();
    let c = corpse(ExitReason::Limit(LimitKind::Memory), b"", 1000, 256 << 20);
    let ev = s.finish_case(&c, &b"".to_vec());
    assert_eq!(result_of(&ev).status, JudgeCode::Mle);
    assert_eq!(s.phase(), JudgePhase::Done);
}

#[test]
fn output_limit_is_ole_with_bounded_stdout() {
    let mut s = JudgeSession::new(3, JudgeMatchRule::ExactSame, 10000);
    s.compile_done();
    s.start_case();
    let captured = vec![b'A'; 1024];
    let c = corpse(ExitReason::Limit(LimitKind::Output), &captured, 1000, 1024);
    assert_eq!(c.stdout.len(), 1024);
    let ev = s.finish_case(&c, &b"".to_vec());
    assert_eq!(result_of(&ev).status, JudgeCode::Ole);
    assert_eq!(s.phase(), JudgePhase::Done);
}

#[test]
fn signal_and_nonzero_exit_are_re() {
    let mut s = JudgeSession::new(5, JudgeMatchRule::ExactSame, 1);
    s.compile_done();
    s.start_case();
    let ev = s.finish_case(&corpse(ExitReason::Signaled, b"", 1, 1), &b"".to_vec());
    assert_eq!(result_of(&ev).status, JudgeCode::Re);
    assert_eq!(s.phase(), JudgePhase::Done);

    let mut s2 = JudgeSession::new(5, JudgeMatchRule::ExactSame, 1);
    s2.compile_done();
    s2.start_case();
    let ev2 = s2.finish_case(&corpse(ExitReason::Exited(1), b"", 1, 1), &b"".to_vec());
    assert_eq!(result_of(&ev2).status, JudgeCode::Re);
}

#[test]
fn compile_error_emits_single_terminal_result() {
    let mut s = JudgeSession::new(4, JudgeMatchRule::ExactSame, 10000);
    let ev = s.compile_rejected(JudgeResult {
        status: JudgeCode::Ce,
        time: 0,
        memory: 0,
        accuracy: 10000,
    });
    assert_eq!(result_of(&ev).status, JudgeCode::Ce);
    assert_eq!(s.phase(), JudgePhase::Done);
    assert_eq!(s.events().len(), 1);
}

#[test]
fn full_stream_is_increasing_started_result_pairs() {
    let mut s = JudgeSession::new(3, JudgeMatchRule::ExactSame, 1);
    s.compile_done();
    for _ in 0..3 {
        s.start_case();
        let c = corpse(ExitReason::Exited(0), b"ok", 1, 1);
        s.finish_case(&c, &b"ok".to_vec());
    }
    assert_eq!(s.phase(), JudgePhase::Done);
    let events = s.events();
    assert_eq!(events.len(), 6);
    for t in 0..3usize {
        assert_eq!(events[2 * t], JudgeEvent::CaseStarted(t + 1));
        assert!(matches!(events[2 * t + 1], JudgeEvent::CaseResult(_)));
    }
}

#[test]
fn zero_tests_closes_after_compile() {
    let mut s = JudgeSession::new(0, JudgeMatchRule::ExactSame, 1);
    s.compile_done();
    assert_eq!(s.phase(), JudgePhase::Done);
    assert_eq!(s.events().len(), 0);
}
