use symphony_cli::{
    fallback_binary_path, render, Line, Outcome, StartAction, StartEvent, StartPhase,
    StartProtocol, Stream,
};

fn texts(lines: &[Line]) -> Vec<(Stream, String)> {
    lines.iter().map(|l| (l.stream, l.text.clone())).collect()
}

#[test]
fn begin_sends_probe() {
    let s = StartProtocol::begin(true, false);
    assert_eq!(s.action, StartAction::SendProbe);
    assert_eq!(s.protocol.phase, StartPhase::Probing);
    assert!(s.lines.is_empty());
}

#[test]
fn already_running_spawns_nothing() {
    let s = StartProtocol::begin(true, false);
    let s = s.protocol.step(StartEvent::Probed { answered: true });
    assert_eq!(s.action, StartAction::Stop);
    assert_eq!(s.protocol.phase, StartPhase::Finished);
    assert_eq!(
        texts(&s.lines),
        vec![(Stream::Stdout, "Service is already running.".to_string())]
    );
    let again = s.protocol.step(StartEvent::Spawned { pid: 5 });
    assert_eq!(again.action, StartAction::Stop);
    assert!(again.lines.is_empty());
}

#[test]
fn already_running_json() {
    let s = StartProtocol::begin(false, true).protocol.step(StartEvent::Probed { answered: true });
    assert_eq!(
        texts(&s.lines),
        vec![(
            Stream::Stdout,
            "{\"message\":\"Service is already running\",\"status\":\"already_running\"}".to_string()
        )]
    );
}

#[test]
fn probe_failure_locates_binary() {
    let s = StartProtocol::begin(true, false).protocol.step(StartEvent::Probed { answered: false });
    assert_eq!(s.action, StartAction::LocateBinary);
    assert_eq!(s.protocol.phase, StartPhase::ResolvingBinary);
    assert!(s.lines.is_empty());
}

fn resolving(daemonize: bool, json: bool) -> StartProtocol {
    StartProtocol::begin(daemonize, json)
        .protocol
        .step(StartEvent::Probed { answered: false })
        .protocol
}

#[test]
fn sibling_preferred_over_existing_fallback() {
    let s = resolving(true, false).step(StartEvent::BinaryLocated {
        sibling: Some("/opt/bin/symphony-management-service".to_string()),
        sibling_exists: true,
        fallback_exists: true,
    });
    assert_eq!(
        s.action,
        StartAction::Spawn { path: "/opt/bin/symphony-management-service".to_string(), detach: true }
    );
    assert_eq!(s.protocol.phase, StartPhase::Spawning);
}

#[test]
fn fallback_used_when_sibling_missing() {
    let s = resolving(false, false).step(StartEvent::BinaryLocated {
        sibling: Some("/opt/bin/symphony-management-service".to_string()),
        sibling_exists: false,
        fallback_exists: true,
    });
    assert_eq!(
        s.action,
        StartAction::Spawn {
            path: "./target/release/symphony-management-service".to_string(),
            detach: false
        }
    );
    assert_eq!(fallback_binary_path(), "./target/release/symphony-management-service");
}

#[test]
fn missing_binary_reported_human() {
    let s = resolving(true, false).step(StartEvent::BinaryLocated {
        sibling: None,
        sibling_exists: false,
        fallback_exists: false,
    });
    assert_eq!(s.action, StartAction::Stop);
    assert_eq!(
        texts(&s.lines),
        vec![(
            Stream::Stderr,
            "Error: Could not find symphony-management-service binary at: ./target/release/symphony-management-service"
                .to_string()
        )]
    );
}

#[test]
fn missing_binary_reported_json() {
    let s = resolving(true, true).step(StartEvent::BinaryLocated {
        sibling: Some("/x/symphony-management-service".to_string()),
        sibling_exists: false,
        fallback_exists: false,
    });
    assert_eq!(s.action, StartAction::Stop);
    assert_eq!(
        texts(&s.lines),
        vec![(
            Stream::Stdout,
            "{\"message\":\"Could not find symphony-management-service binary at: ./target/release/symphony-management-service\",\"status\":\"error\"}"
                .to_string()
        )]
    );
}

fn spawning(daemonize: bool, json: bool) -> StartProtocol {
    resolving(daemonize, json)
        .step(StartEvent::BinaryLocated { sibling: None, sibling_exists: false, fallback_exists: true })
        .protocol
}

#[test]
fn daemonized_start_reports_pid_and_stops() {
    let s = spawning(true, false).step(StartEvent::Spawned { pid: 4242 });
    assert_eq!(s.action, StartAction::Stop);
    assert_eq!(
        texts(&s.lines),
        vec![(Stream::Stdout, "✓ Service started in background (PID: 4242)".to_string())]
    );
}

#[test]
fn daemonized_start_json() {
    let s = spawning(true, true).step(StartEvent::Spawned { pid: 7 });
    assert_eq!(
        texts(&s.lines),
        vec![(
            Stream::Stdout,
            "{\"message\":\"Service started in background\",\"pid\":7,\"status\":\"started\"}".to_string()
        )]
    );
}

#[test]
fn spawn_failure_reported() {
    let s = spawning(false, false).step(StartEvent::SpawnFailed { error: "Permission denied".to_string() });
    assert_eq!(s.action, StartAction::Stop);
    assert_eq!(
        texts(&s.lines),
        vec![(Stream::Stderr, "Error: Failed to start service: Permission denied".to_string())]
    );
}

#[test]
fn foreground_start_waits_then_reports_exit() {
    let s = spawning(false, false).step(StartEvent::Spawned { pid: 100 });
    assert_eq!(s.action, StartAction::WaitForChild);
    assert_eq!(s.protocol.phase, StartPhase::ForegroundWaiting);
    assert_eq!(
        texts(&s.lines),
        vec![
            (Stream::Stdout, "✓ Service starting... (PID: 100)".to_string()),
            (Stream::Stdout, "Press Ctrl+C to stop the service".to_string()),
        ]
    );
    let e = s.protocol.step(StartEvent::ChildExited { code: Some(3) });
    assert_eq!(e.action, StartAction::Stop);
    assert_eq!(texts(&e.lines), vec![(Stream::Stdout, "Service exited with code: Some(3)".to_string())]);
}

#[test]
fn foreground_start_json_absent_code() {
    let s = spawning(false, true).step(StartEvent::Spawned { pid: 12 });
    assert_eq!(
        texts(&s.lines),
        vec![(
            Stream::Stdout,
            "{\"message\":\"Service starting...\",\"pid\":12,\"status\":\"starting\"}".to_string()
        )]
    );
    let e = s.protocol.step(StartEvent::ChildExited { code: None });
    assert_eq!(texts(&e.lines), vec![(Stream::Stdout, "{\"exit_code\":null,\"status\":\"exited\"}".to_string())]);
}

#[test]
fn wait_failure_reported() {
    let w = spawning(false, true).step(StartEvent::Spawned { pid: 1 }).protocol;
    let e = w.step(StartEvent::WaitFailed { error: "interrupted".to_string() });
    assert_eq!(e.action, StartAction::Stop);
    assert_eq!(
        texts(&e.lines),
        vec![(
            Stream::Stdout,
            "{\"message\":\"Failed to wait for service: interrupted\",\"status\":\"error\"}".to_string()
        )]
    );
}

#[test]
fn unexpected_event_stops_silently() {
    let s = StartProtocol::begin(false, false).protocol.step(StartEvent::Spawned { pid: 9 });
    assert_eq!(s.action, StartAction::Stop);
    assert!(s.lines.is_empty());
}

#[test]
fn negative_and_large_exit_codes() {
    let lines = render(&Outcome::Exited { code: Some(-15) }, false);
    assert_eq!(lines[0].text, "Service exited with code: Some(-15)");
    let lines = render(&Outcome::Exited { code: Some(i32::MIN) }, true);
    assert_eq!(lines[0].text, "{\"exit_code\":-2147483648,\"status\":\"exited\"}");
    let lines = render(&Outcome::Detached { pid: u32::MAX }, false);
    assert_eq!(lines[0].text, "✓ Service started in background (PID: 4294967295)");
}
