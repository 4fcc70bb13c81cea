use judger::langs::{
    ArtifactFactory, CompileLog, CompiledArtifact, LanguageManifest, RequestError,
};
use judger::limits::Limits;
use judger::mount::{MountState, Rootfs};
use judger::semaphore::MemorySemaphore;
use judger::server::{ExecEvent, ExecPhase, ExecSession};

fn manifest(uuid: u128, name: &str) -> LanguageManifest {
    LanguageManifest {
        uuid,
        name: String::from(name),
        compile_argv: vec![String::from("/usr/bin/cc")],
        run_argv: vec![String::from("/out")],
        default_limits: Limits {
            wall_ms: 2000,
            cpu_us: 1_000_000,
            memory_bytes: 64 << 20,
            output_bytes: 1024,
        },
        compile_limit_multiplier: 1,
        source_filename: String::from("src.c"),
        binary_filename: String::from("out"),
    }
}

#[test]
fn registry_finds_loaded_languages_only() {
    let mut f = ArtifactFactory::new();
    f.add_language(manifest(1, "C")).unwrap();
    f.add_language(manifest(2, "Rust")).unwrap();
    assert_eq!(f.find(1).unwrap().name.as_str(), "C");
    assert_eq!(f.find(2).unwrap().name.as_str(), "Rust");
    assert!(matches!(f.find(3), Err(RequestError::LangNotFound(3))));
}

#[test]
fn duplicate_uuids_are_rejected() {
    let mut f = ArtifactFactory::new();
    f.add_language(manifest(1, "C")).unwrap();
    assert!(f.add_language(manifest(1, "C again")).is_err());
    assert_eq!(f.list_module().len(), 1);
}

#[test]
fn list_module_names_every_language_in_order() {
    let mut f = ArtifactFactory::new();
    f.add_language(manifest(9, "C")).unwrap();
    f.add_language(manifest(4, "Python")).unwrap();
    let listed = f.list_module();
    assert_eq!(listed.len(), 2);
    assert_eq!((listed[0].uuid, listed[0].name.as_str()), (9, "C"));
    assert_eq!((listed[1].uuid, listed[1].name.as_str()), (4, "Python"));
}

#[test]
fn taking_logs_drains_them() {
    let mut a = CompiledArtifact {
        lang_uuid: 1,
        logs: vec![CompileLog { level: 4, message: String::from("warning: unused") }],
    };
    let logs = a.take_logs();
    assert_eq!(logs.len(), 1);
    assert_eq!(logs[0].message.as_str(), "warning: unused");
    assert!(a.take_logs().is_empty());
}

#[test]
fn exec_stream_is_logs_then_one_output() {
    let mut s = ExecSession::new();
    s.emit_logs(&vec![
        CompileLog { level: 4, message: String::from("warning: a") },
        CompileLog { level: 5, message: String::from("note: b") },
    ]);
    assert_eq!(s.phase(), ExecPhase::Logged);
    s.finish(b"program output".to_vec());
    assert_eq!(s.phase(), ExecPhase::Done);
    let events = s.events();
    assert_eq!(events.len(), 3);
    match &events[0] {
        ExecEvent::Log(l) => {
            assert_eq!(l.level, 4);
            assert_eq!(l.msg.as_str(), "warning: a");
        },
        _ => panic!("expected a log first"),
    }
    match &events[2] {
        ExecEvent::Output(out) => assert_eq!(out, &b"program output".to_vec()),
        _ => panic!("expected the output last"),
    }
}

#[test]
fn semaphore_grants_and_returns_bytes() {
    let mut s = MemorySemaphore::new(100);
    let p = s.try_acquire(30).unwrap();
    assert_eq!(p.bytes(), 30);
    assert_eq!(s.get_available(), 70);
    assert!(s.try_acquire(71).is_none());
    let q = s.try_acquire(70).unwrap();
    assert_eq!(s.get_available(), 0);
    s.release(p);
    s.release(q);
    assert_eq!(s.get_available(), 100);
    assert_eq!(s.get_capacity(), 100);
}

#[test]
fn rootfs_walks_its_life_cycle() {
    let mut fs = Rootfs::prepare(&String::from("/tmp/judger"), 12);
    assert_eq!(fs.get_path().as_str(), "/tmp/judger/12");
    assert_eq!(fs.get_state(), MountState::Prepared);
    fs.activate();
    assert_eq!(fs.get_state(), MountState::Active);
    fs.release();
    assert_eq!(fs.get_state(), MountState::Released);
    fs.release();
    assert_eq!(fs.get_state(), MountState::Released);
}
