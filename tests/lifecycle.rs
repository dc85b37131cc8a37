use daemon_rpc::{
    default_poll_options, is_terminal_status, options_or_default, poll_step, Bootstrap,
    BootstrapAction, BootstrapError, BootstrapEvent, BootstrapPhase, DaemonEndpoint, Json,
    PollAction, PollOptions, RpcError, TaskSnapshot,
};

fn snapshot(status: &str) -> TaskSnapshot {
    TaskSnapshot {
        task_id: "t1".to_string(),
        kind: "ocr".to_string(),
        status: status.to_string(),
        progress_current: 0,
        progress_total: 0,
        error: String::new(),
        error_type: String::new(),
        error_code: String::new(),
        details: Json::Object(vec![]),
        output: Json::Object(vec![]),
        raw: Json::Null,
    }
}

fn endpoint(host: &str, port: u16) -> DaemonEndpoint {
    DaemonEndpoint { host: host.to_string(), port, token: "tk".to_string(), timeout_ms: None }
}

fn opts(interval: Option<u64>, budget: Option<u64>) -> PollOptions {
    PollOptions { poll_interval_ms: interval, timeout_ms: budget }
}

#[test]
fn terminal_statuses() {
    assert!(is_terminal_status("success"));
    assert!(is_terminal_status("error"));
    assert!(is_terminal_status("cancelled"));
    assert!(!is_terminal_status("running"));
    assert!(!is_terminal_status("Success"));
    assert!(!is_terminal_status(""));
}

#[test]
fn poll_options_are_clamped() {
    assert_eq!(opts(None, None).interval_ms(), 200);
    assert_eq!(opts(None, None).budget_ms(), 600000);
    assert_eq!(opts(Some(1), Some(1)).interval_ms(), 50);
    assert_eq!(opts(Some(1), Some(1)).budget_ms(), 1000);
    assert_eq!(opts(Some(99999), Some(u64::MAX)).interval_ms(), 5000);
    assert_eq!(opts(Some(99999), Some(u64::MAX)).budget_ms(), 7200000);
    assert_eq!(opts(Some(300), Some(5000)).interval_ms(), 300);
}

#[test]
fn poll_returns_terminal_snapshot() {
    let o = opts(Some(100), Some(2000));
    for st in ["success", "error", "cancelled"] {
        match poll_step(&o, Ok(snapshot(st)), 999_999) {
            PollAction::Finish(Ok(s)) => assert_eq!(s.status, st),
            other => panic!("unexpected {:?}", other),
        }
    }
}

#[test]
fn poll_waits_while_running() {
    let o = opts(Some(100), Some(2000));
    assert_eq!(poll_step(&o, Ok(snapshot("running")), 0), PollAction::Wait(100));
    assert_eq!(poll_step(&o, Ok(snapshot("pending")), 1999), PollAction::Wait(100));
}

#[test]
fn poll_times_out_at_budget() {
    let o = opts(Some(100), Some(2000));
    assert_eq!(
        poll_step(&o, Ok(snapshot("running")), 2000),
        PollAction::Finish(Err(RpcError::PollTimeout(2000)))
    );
    let clamped = opts(None, Some(10));
    assert_eq!(
        poll_step(&clamped, Ok(snapshot("running")), 1000),
        PollAction::Finish(Err(RpcError::PollTimeout(1000)))
    );
    assert_eq!(poll_step(&clamped, Ok(snapshot("running")), 999), PollAction::Wait(200));
}

#[test]
fn poll_passes_fetch_errors_through() {
    let o = opts(None, None);
    assert_eq!(
        poll_step(&o, Err(RpcError::EmptyResponse), 0),
        PollAction::Finish(Err(RpcError::EmptyResponse))
    );
}

#[test]
fn poll_defaults() {
    let d = default_poll_options();
    assert_eq!(d.poll_interval_ms, Some(200));
    assert_eq!(d.timeout_ms, Some(600000));
    let given = options_or_default(Some(opts(Some(7), None)));
    assert_eq!(given.poll_interval_ms, Some(7));
    assert_eq!(given.timeout_ms, None);
    assert_eq!(options_or_default(None).timeout_ms, Some(600000));
}

#[test]
fn bootstrap_rejects_port_zero() {
    let mut b = Bootstrap::new(endpoint("127.0.0.1", 0), None);
    assert_eq!(b.step(BootstrapEvent::Begin), BootstrapAction::Finish(Err(BootstrapError::InvalidPort)));
    assert_eq!(b.phase, BootstrapPhase::Done);
    assert_eq!(b.step(BootstrapEvent::Probed(false)), BootstrapAction::Idle);
}

#[test]
fn bootstrap_reports_running_daemon() {
    let mut b = Bootstrap::new(endpoint("", 8765), None);
    match b.step(BootstrapEvent::Begin) {
        BootstrapAction::Probe { address, timeout_ms } => {
            assert_eq!(address, "127.0.0.1:8765");
            assert_eq!(timeout_ms, 300);
        }
        other => panic!("unexpected {:?}", other),
    }
    match b.step(BootstrapEvent::Probed(true)) {
        BootstrapAction::Finish(Ok(r)) => {
            assert!(r.ok);
            assert_eq!(r.pid, 0);
            assert_eq!(r.message, "daemon already reachable");
            assert_eq!(r.endpoint, ":8765");
        }
        other => panic!("unexpected {:?}", other),
    }
    assert_eq!(
        b.step(BootstrapEvent::Located {
            repo_root: Some("/r".to_string()),
            interpreter: Some("/py".to_string()),
        }),
        BootstrapAction::Idle
    );
}

#[test]
fn bootstrap_starts_worker() {
    let mut b = Bootstrap::new(endpoint(" localhost ", 9000), Some("mathcraft".to_string()));
    assert!(matches!(b.step(BootstrapEvent::Begin), BootstrapAction::Probe { .. }));
    assert_eq!(b.step(BootstrapEvent::Probed(false)), BootstrapAction::Locate);
    match b.step(BootstrapEvent::Located {
        repo_root: Some("/opt/app".to_string()),
        interpreter: Some("/opt/app/deps/python311/python.exe".to_string()),
    }) {
        BootstrapAction::Spawn(plan) => {
            assert_eq!(plan.program, "/opt/app/deps/python311/python.exe");
            assert_eq!(plan.working_dir, "/opt/app/src");
            assert_eq!(
                plan.args,
                vec![
                    "-m", "backend.daemon_server", "--host", "localhost", "--port", "9000",
                    "--token", "tk", "--model", "mathcraft",
                ]
            );
            assert_eq!(plan.env.len(), 3);
        }
        other => panic!("unexpected {:?}", other),
    }
    match b.step(BootstrapEvent::Spawned(Ok(4242))) {
        BootstrapAction::Finish(Ok(r)) => {
            assert_eq!(r.pid, 4242);
            assert_eq!(r.message, "daemon started (pid=4242) using /opt/app/deps/python311/python.exe");
            assert_eq!(r.endpoint, "localhost:9000");
        }
        other => panic!("unexpected {:?}", other),
    }
}

#[test]
fn bootstrap_default_model() {
    let mut b = Bootstrap::new(endpoint("h", 1), None);
    b.step(BootstrapEvent::Begin);
    b.step(BootstrapEvent::Probed(false));
    match b.step(BootstrapEvent::Located {
        repo_root: Some("r".to_string()),
        interpreter: Some("p".to_string()),
    }) {
        BootstrapAction::Spawn(plan) => assert_eq!(plan.args.last().unwrap(), "pix2text"),
        other => panic!("unexpected {:?}", other),
    }
}

#[test]
fn bootstrap_failures() {
    let mut b = Bootstrap::new(endpoint("h", 1), None);
    b.step(BootstrapEvent::Begin);
    b.step(BootstrapEvent::Probed(false));
    assert_eq!(
        b.step(BootstrapEvent::Located { repo_root: None, interpreter: Some("p".to_string()) }),
        BootstrapAction::Finish(Err(BootstrapError::WorkerNotFound))
    );

    let mut b = Bootstrap::new(endpoint("h", 1), None);
    b.step(BootstrapEvent::Begin);
    b.step(BootstrapEvent::Probed(false));
    assert_eq!(
        b.step(BootstrapEvent::Located { repo_root: Some("r".to_string()), interpreter: None }),
        BootstrapAction::Finish(Err(BootstrapError::InterpreterNotFound))
    );

    let mut b = Bootstrap::new(endpoint("h", 1), None);
    b.step(BootstrapEvent::Begin);
    b.step(BootstrapEvent::Probed(false));
    b.step(BootstrapEvent::Located {
        repo_root: Some("r".to_string()),
        interpreter: Some("p".to_string()),
    });
    assert_eq!(
        b.step(BootstrapEvent::Spawned(Err("denied".to_string()))),
        BootstrapAction::Finish(Err(BootstrapError::SpawnError("denied".to_string())))
    );
}

#[test]
fn bootstrap_ignores_out_of_order_events() {
    let mut b = Bootstrap::new(endpoint("h", 1), None);
    assert_eq!(b.step(BootstrapEvent::Probed(true)), BootstrapAction::Idle);
    assert_eq!(b.phase, BootstrapPhase::Start);
}
