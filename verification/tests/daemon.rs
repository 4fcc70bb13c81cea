use judger::daemon::{ContainerDaemon, DaemonError};
use judger::limits::Limits;
use judger::mount::MountState;

#[test]
fn create_reserves_and_release_restores_budget() {
    let mut d = ContainerDaemon::new(String::from("/tmp/judger"), 1024);
    assert_eq!(d.available_memory(), 1024);
    let c = d.create(1000).unwrap();
    assert_eq!(d.available_memory(), 24);
    let fs = d.release(c);
    assert_eq!(d.available_memory(), 1024);
    assert_eq!(fs.get_state(), MountState::Released);
}

#[test]
fn concurrent_runs_fit_under_the_ceiling() {
    let mut d = ContainerDaemon::new(String::from("/tmp/judger"), 100);
    let a = d.create(60).unwrap();
    assert!(matches!(d.create(60), Err(DaemonError::OutOfMemory)));
    let b = d.create(40).unwrap();
    assert_eq!(d.available_memory(), 0);
    d.release(a);
    d.release(b);
    assert_eq!(d.available_memory(), 100);
}

#[test]
fn out_of_memory_changes_nothing() {
    let mut d = ContainerDaemon::new(String::from("/t"), 10);
    assert!(matches!(d.create(11), Err(DaemonError::OutOfMemory)));
    assert_eq!(d.available_memory(), 10);
    let c = d.create(10).unwrap();
    assert_eq!(c.get_id(), 0);
}

#[test]
fn run_ids_increase_and_name_the_rootfs() {
    let mut d = ContainerDaemon::new(String::from("/tmp/judger"), 1 << 30);
    let a = d.create(1).unwrap();
    let b = d.create(1).unwrap();
    assert_eq!(a.get_id(), 0);
    assert_eq!(b.get_id(), 1);
    assert_eq!(a.get_path().as_str(), "/tmp/judger/0");
    assert_eq!(b.get_path().as_str(), "/tmp/judger/1");
}

#[test]
fn new_with_id_starts_counting_there() {
    let mut d = ContainerDaemon::new_with_id(String::from("/x"), 1 << 20, 41);
    let c = d.create(1).unwrap();
    assert_eq!(c.get_id(), 41);
    assert_eq!(c.get_path().as_str(), "/x/41");
}

#[test]
fn client_drop_mid_stream_releases_everything() {
    // A client that cancels after case 2 of 10 drops its container: the
    // budget returns to full and the rootfs is released.
    let mut d = ContainerDaemon::new(String::from("/tmp/judger"), 512 << 20);
    let mut c = d.create(256 << 20).unwrap();
    c.activate();
    let _running = c.start_run(
        vec![String::from("/usr/bin/prog")],
        Limits { wall_ms: 2000, cpu_us: 1_000_000, memory_bytes: 64 << 20, output_bytes: 1024 },
    );
    let fs = d.release(c);
    assert_eq!(d.available_memory(), 512 << 20);
    assert_eq!(fs.get_state(), MountState::Released);
}
