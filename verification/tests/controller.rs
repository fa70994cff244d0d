use killer::config::{Config, KillMethod};
use killer::controller::{
    execute_async, execute_sync, exit_after_kill, kills_loader, verdict, watch_base, AsyncAction,
    Controller, Directive, RuntimePolicy, SyncAction, Verification, Workload, POLL_MS,
    VERIFICATION_TIMEOUT_MS,
};
use killer::health::{HealthMonitor, HealthStatus};
use killer::network::VerifyResponse;

fn config(check_interval_ms: u64, kill_method: KillMethod) -> Config {
    Config {
        license_id: "lic_test".to_string(),
        server_url: "http://localhost:8080".to_string(),
        shared_secret: "secret123".to_string(),
        check_interval_ms,
        self_destruct: true,
        kill_method,
        log_level: "info".to_string(),
        base_binary_path: None,
    }
}

fn answer(authorized: bool, interval: Option<u64>, method: Option<&str>) -> Result<VerifyResponse, String> {
    Ok(VerifyResponse {
        authorized,
        message: "m".to_string(),
        expires_in: None,
        check_interval_ms: interval,
        kill_method: method.map(|m| m.to_string()),
    })
}

fn network_error() -> Result<VerifyResponse, String> {
    Err("HTTP request failed: connection refused".to_string())
}

fn record() -> HealthStatus {
    HealthStatus {
        last_success: 0,
        consecutive_failures: 0,
        is_alive: 0,
        should_kill_base: 0,
        parent_requests_kill: 0,
    }
}

/// Runs the loop on the results of successive checks, and gives every
/// directive it came to, in order.
fn run(
    controller: &mut Controller,
    health: &mut Option<HealthMonitor>,
    results: &[Result<VerifyResponse, String>],
) -> Vec<Directive> {
    let mut directives = Vec::new();
    for (round, result) in results.iter().enumerate() {
        let opening = controller.begin(health);
        directives.push(opening);
        if let Directive::Kill { .. } = opening {
            return directives;
        }
        let closing = controller.conclude(health, result, 1000 + round as i64);
        directives.push(closing);
        match closing {
            Directive::Sleep { .. } => {}
            _ => return directives,
        }
    }
    directives
}

#[test]
fn controller_starts_from_the_settings() {
    let controller = Controller::new(&config(1000, KillMethod::Delete));
    assert!(controller.first_check);
    assert_eq!(
        controller.policy,
        RuntimePolicy { check_interval_ms: 1000, kill_method: KillMethod::Delete }
    );
    assert_eq!(
        RuntimePolicy::from_config(&config(0, KillMethod::Shred)),
        RuntimePolicy { check_interval_ms: 0, kill_method: KillMethod::Shred }
    );
}

#[test]
fn single_check_authorized_exits_zero() {
    let mut controller = Controller::new(&config(0, KillMethod::Shred));
    let mut health = None;
    let directives = run(&mut controller, &mut health, &[answer(true, None, None), answer(true, None, None)]);
    assert_eq!(
        directives,
        vec![Directive::Verify { first_check: true }, Directive::Exit { code: 0 }]
    );
}

#[test]
fn single_check_network_error_exits_nonzero_without_kill() {
    let mut controller = Controller::new(&config(0, KillMethod::Shred));
    let mut health = None;
    let directives = run(&mut controller, &mut health, &[network_error()]);
    assert_eq!(
        directives,
        vec![Directive::Verify { first_check: true }, Directive::Exit { code: 1 }]
    );
}

#[test]
fn network_errors_then_authorization_never_kill() {
    let mut controller = Controller::new(&config(1000, KillMethod::Shred));
    let mut health = HealthMonitor::new(Some(record()));
    let directives = run(
        &mut controller,
        &mut health,
        &[network_error(), network_error(), answer(true, None, None)],
    );
    assert_eq!(
        directives,
        vec![
            Directive::Verify { first_check: true },
            Directive::Sleep { millis: 1000 },
            Directive::Verify { first_check: false },
            Directive::Sleep { millis: 1000 },
            Directive::Verify { first_check: false },
            Directive::Sleep { millis: 1000 },
        ]
    );
    assert!(directives.iter().all(|d| !matches!(d, Directive::Kill { .. })));
    let status = health.unwrap().status().unwrap();
    assert_eq!(status.consecutive_failures, 0);
    assert_eq!(status.last_success, 1002);
    assert_eq!(status.should_kill_base, 0);
}

#[test]
fn network_errors_then_authorization_to_single_check_exits_zero() {
    let mut controller = Controller::new(&config(1000, KillMethod::Shred));
    let mut health = None;
    let directives = run(
        &mut controller,
        &mut health,
        &[network_error(), network_error(), answer(true, Some(0), None)],
    );
    assert_eq!(directives.len(), 6);
    assert_eq!(directives[5], Directive::Exit { code: 0 });
    assert!(directives.iter().all(|d| !matches!(d, Directive::Kill { .. })));
}

#[test]
fn network_errors_count_up_in_the_shared_record() {
    let mut controller = Controller::new(&config(500, KillMethod::Stop));
    let mut health = HealthMonitor::new(Some(record()));
    run(&mut controller, &mut health, &[network_error(), network_error()]);
    let status = health.unwrap().status().unwrap();
    assert_eq!(status.consecutive_failures, 2);
    assert_eq!(status.is_alive, 1);
    assert_eq!(status.should_kill_base, 0);
    assert_eq!(status.last_success, 0);
}

#[test]
fn interval_override_rules_the_next_sleep() {
    let mut controller = Controller::new(&config(1000, KillMethod::Shred));
    let mut health = None;
    let directives = run(
        &mut controller,
        &mut health,
        &[answer(true, None, None), answer(true, Some(5000), None), answer(true, None, None)],
    );
    assert_eq!(
        directives,
        vec![
            Directive::Verify { first_check: true },
            Directive::Sleep { millis: 1000 },
            Directive::Verify { first_check: false },
            Directive::Sleep { millis: 5000 },
            Directive::Verify { first_check: false },
            Directive::Sleep { millis: 5000 },
        ]
    );
    assert_eq!(controller.policy.check_interval_ms, 5000);
}

#[test]
fn interval_override_turns_single_check_into_a_loop() {
    let mut controller = Controller::new(&config(0, KillMethod::Shred));
    let mut health = None;
    let directive = controller.conclude(&mut health, &answer(true, Some(250), None), 1);
    assert_eq!(directive, Directive::Sleep { millis: 250 });
    assert!(!controller.first_check);
}

#[test]
fn kill_method_override_is_used_on_a_later_refusal() {
    let mut controller = Controller::new(&config(1000, KillMethod::Shred));
    let mut health = None;
    let directives = run(
        &mut controller,
        &mut health,
        &[answer(true, None, Some("STOP")), answer(false, Some(1), Some("delete"))],
    );
    assert_eq!(
        directives,
        vec![
            Directive::Verify { first_check: true },
            Directive::Sleep { millis: 1000 },
            Directive::Verify { first_check: false },
            Directive::Kill { method: KillMethod::Stop, code: 1 },
        ]
    );
}

#[test]
fn unknown_kill_method_changes_nothing() {
    let mut policy = RuntimePolicy { check_interval_ms: 10, kill_method: KillMethod::Delete };
    policy.apply(&answer(true, None, Some("explode")).unwrap());
    assert_eq!(policy, RuntimePolicy { check_interval_ms: 10, kill_method: KillMethod::Delete });
    policy.apply(&answer(true, Some(20), Some("Shred")).unwrap());
    assert_eq!(policy, RuntimePolicy { check_interval_ms: 20, kill_method: KillMethod::Shred });
    policy.set_method(None);
    assert_eq!(policy.kill_method, KillMethod::Shred);
    policy.set_method(Some(KillMethod::Stop));
    assert_eq!(policy.kill_method, KillMethod::Stop);
}

#[test]
fn refusal_kills_and_asks_for_the_base_to_be_killed() {
    let mut controller = Controller::new(&config(1000, KillMethod::Delete));
    let mut health = HealthMonitor::new(Some(record()));
    let directives = run(&mut controller, &mut health, &[answer(false, None, None)]);
    assert_eq!(
        directives,
        vec![
            Directive::Verify { first_check: true },
            Directive::Kill { method: KillMethod::Delete, code: 1 },
        ]
    );
    let status = health.unwrap().status().unwrap();
    assert_eq!(status.consecutive_failures, 1);
    assert_eq!(status.should_kill_base, 1);
    assert_eq!(status.is_alive, 1);
}

#[test]
fn supervisor_request_kills_before_any_check() {
    let mut controller = Controller::new(&config(1000, KillMethod::Shred));
    let mut health = HealthMonitor::new(Some(HealthStatus { parent_requests_kill: 1, ..record() }));
    let directives = run(&mut controller, &mut health, &[answer(true, None, None)]);
    assert_eq!(directives, vec![Directive::Kill { method: KillMethod::Shred, code: 0 }]);
    assert_eq!(health.unwrap().status().unwrap().is_alive, 1);
}

#[test]
fn absent_channel_behaves_like_an_inert_one() {
    let results = [
        network_error(),
        answer(true, Some(7), Some("stop")),
        network_error(),
        answer(false, None, None),
    ];
    let mut without = Controller::new(&config(1000, KillMethod::Shred));
    let mut absent = None;
    let mut with = Controller::new(&config(1000, KillMethod::Shred));
    let mut inert = Some(HealthMonitor::inert());
    assert_eq!(
        run(&mut without, &mut absent, &results),
        run(&mut with, &mut inert, &results)
    );
    assert_eq!(without, with);
    assert!(absent.is_none());
    assert_eq!(inert.unwrap().status(), None);
}

#[test]
fn exit_code_after_a_kill() {
    assert_eq!(exit_after_kill(0, true), 0);
    assert_eq!(exit_after_kill(0, false), 1);
    assert_eq!(exit_after_kill(1, true), 1);
    assert_eq!(exit_after_kill(1, false), 1);
}

#[test]
fn sync_strategy() {
    assert_eq!(execute_sync(&answer(true, None, None), true), SyncAction::Proceed);
    assert_eq!(execute_sync(&answer(true, None, None), false), SyncAction::Proceed);
    assert_eq!(execute_sync(&answer(false, None, None), true), SyncAction::SelfDestruct);
    assert_eq!(execute_sync(&answer(false, None, None), false), SyncAction::Abort);
    assert_eq!(execute_sync(&network_error(), true), SyncAction::SelfDestruct);
    assert_eq!(execute_sync(&network_error(), false), SyncAction::Abort);
}

#[test]
fn sync_exit_code_is_zero_only_to_proceed() {
    assert_eq!(SyncAction::Proceed.exit_code(), 0);
    assert_eq!(SyncAction::SelfDestruct.exit_code(), 1);
    assert_eq!(SyncAction::Abort.exit_code(), 1);
}

#[test]
fn async_strategy_follows_the_check() {
    assert_eq!(verdict(&answer(true, None, None)), Verification::Granted);
    assert_eq!(verdict(&answer(false, None, None)), Verification::Refused);
    assert_eq!(verdict(&network_error()), Verification::Refused);
    assert_eq!(execute_async(Verification::Granted, 0, true), AsyncAction::Follow);
    assert_eq!(execute_async(Verification::Granted, 40000, true), AsyncAction::Follow);
    assert_eq!(
        execute_async(Verification::Refused, 0, true),
        AsyncAction::KillBase { self_destruct: true }
    );
    assert_eq!(
        execute_async(Verification::Refused, 0, false),
        AsyncAction::KillBase { self_destruct: false }
    );
}

#[test]
fn async_strategy_gives_up_after_the_timeout() {
    assert_eq!(VERIFICATION_TIMEOUT_MS, 30000);
    assert_eq!(execute_async(Verification::Pending, 0, true), AsyncAction::Watch);
    assert_eq!(execute_async(Verification::Pending, 30000, true), AsyncAction::Watch);
    assert_eq!(
        execute_async(Verification::Pending, 30001, true),
        AsyncAction::KillBase { self_destruct: true }
    );
    assert_eq!(
        execute_async(Verification::Pending, u64::MAX, false),
        AsyncAction::KillBase { self_destruct: false }
    );
}

#[test]
fn async_strategy_watches_the_workload() {
    assert_eq!(POLL_MS, 100);
    assert_eq!(watch_base(Workload::Running), AsyncAction::Sleep { millis: 100 });
    assert_eq!(watch_base(Workload::Exited { code: Some(0) }), AsyncAction::Exit { code: 0 });
    assert_eq!(watch_base(Workload::Exited { code: Some(3) }), AsyncAction::Exit { code: 3 });
    assert_eq!(watch_base(Workload::Exited { code: None }), AsyncAction::Exit { code: 1 });
    assert_eq!(watch_base(Workload::Lost), AsyncAction::Exit { code: 1 });
}

#[test]
fn detached_strategy_kills_the_loader_unless_authorized() {
    assert!(!kills_loader(&answer(true, None, None)));
    assert!(kills_loader(&answer(false, None, None)));
    assert!(kills_loader(&network_error()));
}
