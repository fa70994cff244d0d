use killer::health::{Field, HealthMonitor, HealthStatus, RECORD_SIZE};

fn record() -> HealthStatus {
    HealthStatus {
        last_success: 1000,
        consecutive_failures: 2,
        is_alive: 0,
        should_kill_base: 0,
        parent_requests_kill: 0,
    }
}

#[test]
fn monitor_exists_only_over_a_record() {
    assert!(HealthMonitor::new(None).is_none());
    let monitor = HealthMonitor::new(Some(record())).unwrap();
    assert_eq!(monitor.status(), Some(record()));
    assert_eq!(HealthMonitor::inert().status(), None);
}

#[test]
fn heartbeat_sets_the_liveness_flag() {
    let mut monitor = HealthMonitor::new(Some(record())).unwrap();
    monitor.heartbeat();
    assert_eq!(monitor.status(), Some(HealthStatus { is_alive: 1, ..record() }));
    monitor.heartbeat();
    assert_eq!(monitor.status(), Some(HealthStatus { is_alive: 1, ..record() }));
}

#[test]
fn success_resets_the_count_and_stamps_the_time() {
    let mut monitor = HealthMonitor::new(Some(record())).unwrap();
    monitor.update(true, 1700000000);
    assert_eq!(
        monitor.status(),
        Some(HealthStatus {
            last_success: 1700000000,
            consecutive_failures: 0,
            is_alive: 1,
            should_kill_base: 0,
            parent_requests_kill: 0,
        })
    );
}

#[test]
fn failure_counts_up_and_keeps_the_stamp() {
    let mut monitor = HealthMonitor::new(Some(record())).unwrap();
    monitor.update(false, 1700000000);
    assert_eq!(
        monitor.status(),
        Some(HealthStatus { consecutive_failures: 3, is_alive: 1, ..record() })
    );
    monitor.update(false, 1700000001);
    assert_eq!(
        monitor.status(),
        Some(HealthStatus { consecutive_failures: 4, is_alive: 1, ..record() })
    );
}

#[test]
fn failure_count_stays_at_its_largest() {
    let full = HealthStatus { consecutive_failures: i32::MAX, ..record() };
    let mut monitor = HealthMonitor::new(Some(full)).unwrap();
    monitor.update(false, 5);
    assert_eq!(monitor.status(), Some(HealthStatus { is_alive: 1, ..full }));

    let almost = HealthStatus { consecutive_failures: i32::MAX - 1, ..record() };
    let mut monitor = HealthMonitor::new(Some(almost)).unwrap();
    monitor.update(false, 5);
    assert_eq!(monitor.status(), Some(HealthStatus { is_alive: 1, ..full }));

    let negative = HealthStatus { consecutive_failures: -1, ..record() };
    let mut monitor = HealthMonitor::new(Some(negative)).unwrap();
    monitor.update(false, 5);
    assert_eq!(
        monitor.status(),
        Some(HealthStatus { consecutive_failures: 0, is_alive: 1, ..record() })
    );
}

#[test]
fn kill_base_is_requested_by_flag() {
    let mut monitor = HealthMonitor::new(Some(record())).unwrap();
    monitor.request_kill_base();
    assert_eq!(monitor.status(), Some(HealthStatus { should_kill_base: 1, ..record() }));
}

#[test]
fn kill_request_is_read_from_the_supervisor_flag() {
    let mut asked = record();
    asked.parent_requests_kill = 1;
    assert!(HealthMonitor::new(Some(asked)).unwrap().is_kill_requested());
    assert!(!HealthMonitor::new(Some(record())).unwrap().is_kill_requested());
    for other in [-1, 2, 255, i32::MAX, i32::MIN] {
        let mut odd = record();
        odd.parent_requests_kill = other;
        assert!(!HealthMonitor::new(Some(odd)).unwrap().is_kill_requested());
    }
}

#[test]
fn agent_never_writes_the_supervisor_flag() {
    for flag in [0, 1, 7] {
        let start = HealthStatus { parent_requests_kill: flag, ..record() };
        let mut monitor = HealthMonitor::new(Some(start)).unwrap();
        monitor.heartbeat();
        monitor.update(false, 1);
        monitor.update(true, 2);
        monitor.request_kill_base();
        let _ = monitor.is_kill_requested();
        assert_eq!(monitor.status().unwrap().parent_requests_kill, flag);
    }
}

#[test]
fn inert_monitor_does_nothing() {
    let mut monitor = HealthMonitor::inert();
    monitor.heartbeat();
    assert_eq!(monitor.status(), None);
    monitor.update(true, 10);
    assert_eq!(monitor.status(), None);
    monitor.update(false, 11);
    assert_eq!(monitor.status(), None);
    monitor.request_kill_base();
    assert_eq!(monitor.status(), None);
    assert!(!monitor.is_kill_requested());
    assert_eq!(monitor.status(), None);
}

#[test]
fn record_layout() {
    assert_eq!(RECORD_SIZE, 24);
    assert_eq!((Field::LastSuccess.offset(), Field::LastSuccess.width()), (0, 8));
    assert_eq!((Field::ConsecutiveFailures.offset(), Field::ConsecutiveFailures.width()), (8, 4));
    assert_eq!((Field::IsAlive.offset(), Field::IsAlive.width()), (12, 4));
    assert_eq!((Field::ShouldKillBase.offset(), Field::ShouldKillBase.width()), (16, 4));
    assert_eq!((Field::ParentRequestsKill.offset(), Field::ParentRequestsKill.width()), (20, 4));
    let fields = [
        Field::LastSuccess,
        Field::ConsecutiveFailures,
        Field::IsAlive,
        Field::ShouldKillBase,
        Field::ParentRequestsKill,
    ];
    for (i, a) in fields.iter().enumerate() {
        assert!(a.offset() + a.width() <= RECORD_SIZE);
        assert_eq!(a.offset() % a.width(), 0);
        for b in &fields[i + 1..] {
            assert!(a.offset() + a.width() <= b.offset());
        }
    }
}

#[test]
fn agent_writes_every_field_but_the_supervisor_flag() {
    assert!(Field::LastSuccess.written_by_agent());
    assert!(Field::ConsecutiveFailures.written_by_agent());
    assert!(Field::IsAlive.written_by_agent());
    assert!(Field::ShouldKillBase.written_by_agent());
    assert!(!Field::ParentRequestsKill.written_by_agent());
}

#[test]
fn fields_are_read_by_name() {
    let status = HealthStatus {
        last_success: 1_700_000_000_000,
        consecutive_failures: -3,
        is_alive: 1,
        should_kill_base: 2,
        parent_requests_kill: i32::MIN,
    };
    assert_eq!(status.value(Field::LastSuccess), 1_700_000_000_000);
    assert_eq!(status.value(Field::ConsecutiveFailures), -3);
    assert_eq!(status.value(Field::IsAlive), 1);
    assert_eq!(status.value(Field::ShouldKillBase), 2);
    assert_eq!(status.value(Field::ParentRequestsKill), i32::MIN as i64);
}
