use judger::limits::{LimitKind, Limits};
use judger::monitor::StatMonitor;

fn small_limits() -> Limits {
    Limits { wall_ms: 2000, cpu_us: 1_000_000, memory_bytes: 64 << 20, output_bytes: 4 }
}

#[test]
fn output_is_bounded_and_trips_ole() {
    let mut m = StatMonitor::new(String::from("0"), small_limits());
    m.feed_stdout(&vec![b'A'; 6]);
    assert_eq!(m.poll_exhaust(), Some(LimitKind::Output));
    let captured = m.take_buffer();
    assert_eq!(captured, vec![b'A'; 4]);
}

#[test]
fn output_keeps_first_bytes_across_chunks() {
    let mut m = StatMonitor::new(String::from("0"), small_limits());
    m.feed_stdout(&vec![1, 2, 3]);
    assert_eq!(m.poll_exhaust(), None);
    m.feed_stdout(&vec![4, 5, 6]);
    assert_eq!(m.poll_exhaust(), Some(LimitKind::Output));
    assert_eq!(m.take_buffer(), vec![1, 2, 3, 4]);
}

#[test]
fn output_exactly_at_limit_does_not_trip() {
    let mut m = StatMonitor::new(String::from("0"), small_limits());
    m.feed_stdout(&vec![b'x'; 4]);
    assert_eq!(m.poll_exhaust(), None);
    assert_eq!(m.take_buffer().len(), 4);
}

#[test]
fn memory_over_limit_trips_memory() {
    let mut m = StatMonitor::new(String::from("0"), small_limits());
    m.observe(1000, (64 << 20) + 1, 1000);
    assert_eq!(m.poll_exhaust(), Some(LimitKind::Memory));
}

#[test]
fn cpu_over_limit_trips_cpu() {
    let mut m = StatMonitor::new(String::from("0"), small_limits());
    m.observe(1_000_001, 0, 0);
    assert_eq!(m.poll_exhaust(), Some(LimitKind::Cpu));
}

#[test]
fn wall_over_limit_trips_wall() {
    let mut m = StatMonitor::new(String::from("0"), small_limits());
    m.observe(0, 0, 2_000_001);
    assert_eq!(m.poll_exhaust(), Some(LimitKind::Wall));
}

#[test]
fn first_trip_wins() {
    let mut m = StatMonitor::new(String::from("0"), small_limits());
    m.observe(1_000_001, 0, 0);
    m.observe(1_000_002, (64 << 20) + 1, 0);
    assert_eq!(m.poll_exhaust(), Some(LimitKind::Cpu));
}

#[test]
fn within_limits_nothing_trips() {
    let mut m = StatMonitor::new(String::from("0"), small_limits());
    m.observe(1_000_000, 64 << 20, 2_000_000);
    assert_eq!(m.poll_exhaust(), None);
}

#[test]
fn statistics_keep_peaks() {
    let mut m = StatMonitor::new(String::from("0"), small_limits());
    m.observe(10, 500, 7);
    m.observe(25, 300, 9);
    let (cpu, mem) = m.stat();
    assert_eq!(cpu.total_us, 25);
    assert_eq!(mem.peak, 500);
    assert_eq!(m.get_wall_us(), 9);
}
