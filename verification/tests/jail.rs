use judger::jail::{ExitStatus, JailError, LimitReason, RunningProc, WaitVerdict};
use judger::limits::{CpuStatistics, MemStatistics};

#[test]
fn zero_exit_succeeds_and_nothing_else() {
    let make = |status| judger::jail::ExitProc {
        status,
        stdout: Vec::new(),
        cpu: CpuStatistics { total_us: 0 },
        mem: MemStatistics { peak: 0 },
    };
    assert!(make(ExitStatus::Code(0)).succeed());
    assert!(!make(ExitStatus::Code(1)).succeed());
    assert!(!make(ExitStatus::Code(-1)).succeed());
    assert!(!make(ExitStatus::SigExit).succeed());
    assert!(!make(ExitStatus::MemExhausted).succeed());
    assert!(!make(ExitStatus::CpuExhausted).succeed());
}

#[test]
fn messages_render_the_status() {
    assert_eq!(ExitStatus::SigExit.message(), "Killed by signal");
    assert_eq!(ExitStatus::Code(0).message(), "Exit with code 0");
    assert_eq!(ExitStatus::Code(137).message(), "Exit with code 137");
    assert_eq!(ExitStatus::Code(-7).message(), "Exit with code -7");
    assert_eq!(ExitStatus::MemExhausted.message(), "Reach memory limit");
    assert_eq!(ExitStatus::CpuExhausted.message(), "Reach cpu quota");
}

#[test]
fn wait_maps_the_race_verdict() {
    let mut p = RunningProc::new();
    p.push_stdout(&b"hello".to_vec());
    p.record_stat(CpuStatistics { total_us: 5 }, MemStatistics { peak: 9 });
    let exited = p.wait(WaitVerdict::Exited(Some(3))).unwrap();
    assert_eq!(exited.status, ExitStatus::Code(3));
    assert_eq!(exited.stdout, b"hello".to_vec());
    assert_eq!(exited.cpu.total_us, 5);
    assert_eq!(exited.mem.peak, 9);

    let sig = RunningProc::new().wait(WaitVerdict::Exited(None)).unwrap();
    assert_eq!(sig.status, ExitStatus::SigExit);

    let cpu = RunningProc::new().wait(WaitVerdict::Exhausted(LimitReason::Cpu)).unwrap();
    assert_eq!(cpu.status, ExitStatus::CpuExhausted);

    let mem = RunningProc::new().wait(WaitVerdict::Exhausted(LimitReason::Mem)).unwrap();
    assert_eq!(mem.status, ExitStatus::MemExhausted);
}

#[test]
fn a_stall_is_an_error() {
    let p = RunningProc::new();
    assert!(matches!(p.wait(WaitVerdict::Stalled), Err(JailError::Stall)));
}
