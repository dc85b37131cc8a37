use daemon_rpc::{
    build_request, cancel_task, decode_response_line, endpoint_address, endpoint_host,
    endpoint_label, ensure_ok_response, get_task_status, health_handshake, request_line,
    shutdown_daemon, submit_params, submit_task, task_id_params, timeout, DaemonEndpoint, Json,
    MethodSpec, RpcContract, RpcEnums, RpcError,
};

fn s(x: &str) -> Json {
    Json::Str(x.to_string())
}

fn obj(members: Vec<(&str, Json)>) -> Json {
    Json::Object(members.into_iter().map(|(k, v)| (k.to_string(), v)).collect())
}

fn texts(v: &[&str]) -> Vec<String> {
    v.iter().map(|x| x.to_string()).collect()
}

fn endpoint(host: &str, port: u16, timeout_ms: Option<u64>) -> DaemonEndpoint {
    DaemonEndpoint {
        host: host.to_string(),
        port,
        token: "SECRET-REDACTED".to_string(),
        timeout_ms,
    }
}

fn ls_contract() -> RpcContract {
    RpcContract {
        name: "ls".to_string(),
        version: "1.0".to_string(),
        transport: Json::Null,
        auth: Json::Null,
        enums: RpcEnums {
            methods: texts(&["health"]),
            task_kinds: vec![],
            task_status: vec![],
            task_terminal_status: texts(&["success", "error", "cancelled"]),
        },
        methods: vec![(
            "health".to_string(),
            MethodSpec { params_required: vec![], params_optional: vec![], response_ok_fields: vec![] },
        )],
    }
}

#[test]
fn handshake_matching_contract() {
    let reply = obj(vec![
        ("ok", Json::Bool(true)),
        ("contract", obj(vec![("name", s("ls")), ("version", s("1.0"))])),
        ("ready", Json::Bool(true)),
        ("status", s("idle")),
    ]);
    let h = health_handshake(&endpoint("127.0.0.1", 8765, None), &ls_contract(), reply).unwrap();
    assert!(h.ok);
    assert!(h.contract_match);
    assert!(h.ready);
    assert_eq!(h.status, "idle");
    assert_eq!(h.contract_name_remote, "ls");
    assert_eq!(h.contract_version_remote, "1.0");
    assert_eq!(h.contract_name_expected, "ls");
    assert_eq!(h.endpoint, "127.0.0.1:8765");
}

#[test]
fn handshake_mismatch_is_data_not_error() {
    let reply = obj(vec![
        ("ok", Json::Bool(true)),
        ("contract", obj(vec![("name", s("LS")), ("version", s("1.0"))])),
    ]);
    let h = health_handshake(&endpoint("localhost", 9000, None), &ls_contract(), reply).unwrap();
    assert!(!h.contract_match);
    assert!(!h.ready);
    assert_eq!(h.status, "");
    assert_eq!(h.contract_name_remote, "LS");
}

#[test]
fn handshake_without_contract_object() {
    let reply = obj(vec![("ok", Json::Bool(true)), ("ready", Json::Bool(false))]);
    let h = health_handshake(&endpoint("h", 1, None), &ls_contract(), reply).unwrap();
    assert_eq!(h.contract_name_remote, "");
    assert_eq!(h.contract_version_remote, "");
    assert!(!h.contract_match);
}

#[test]
fn handshake_remote_failure() {
    let reply = obj(vec![("ok", Json::Bool(false))]);
    let e = health_handshake(&endpoint("h", 1, None), &ls_contract(), reply).unwrap_err();
    assert_eq!(
        e,
        RpcError::RemoteError {
            method: "health".to_string(),
            message: "unknown error".to_string(),
            error_type: "RemoteError".to_string(),
        }
    );
}

#[test]
fn status_fills_defaults() {
    let reply = obj(vec![
        ("ok", Json::Bool(true)),
        (
            "task",
            obj(vec![
                ("task_id", s("t1")),
                ("kind", s("ocr")),
                ("status", s("running")),
                ("progress_current", Json::Int(3)),
                ("progress_total", Json::Int(10)),
            ]),
        ),
    ]);
    let snap = get_task_status(reply).unwrap();
    assert_eq!(snap.task_id, "t1");
    assert_eq!(snap.kind, "ocr");
    assert_eq!(snap.status, "running");
    assert_eq!(snap.error, "");
    assert_eq!(snap.error_type, "");
    assert_eq!(snap.error_code, "");
    assert_eq!(snap.details, Json::Object(vec![]));
    assert_eq!(snap.output, Json::Object(vec![]));
    assert_eq!(snap.progress_current, 3);
    assert_eq!(snap.progress_total, 10);
    match &snap.raw {
        Json::Object(m) => assert_eq!(m.len(), 2),
        other => panic!("raw is {:?}", other),
    }
}

#[test]
fn status_keeps_given_details() {
    let details = obj(vec![("pages", Json::Array(vec![Json::Int(1), Json::Int(2)]))]);
    let reply = obj(vec![
        ("ok", Json::Bool(true)),
        (
            "task",
            obj(vec![
                ("task_id", s("t2")),
                ("status", s("error")),
                ("error", s("boom")),
                ("error_code", s("E1")),
                ("details", details),
                ("output", Json::Null),
                ("progress_current", Json::Number("1.5".to_string())),
            ]),
        ),
    ]);
    let snap = get_task_status(reply).unwrap();
    assert_eq!(snap.kind, "");
    assert_eq!(snap.error, "boom");
    assert_eq!(snap.error_code, "E1");
    assert_eq!(snap.details, obj(vec![("pages", Json::Array(vec![Json::Int(1), Json::Int(2)]))]));
    assert_eq!(snap.output, Json::Null);
    assert_eq!(snap.progress_current, 0);
}

#[test]
fn status_without_task_object() {
    let missing = get_task_status(obj(vec![("ok", Json::Bool(true))])).unwrap_err();
    let wrong = get_task_status(obj(vec![("ok", Json::Bool(true)), ("task", s("t1"))])).unwrap_err();
    let expected = RpcError::InvalidResponse {
        method: "task_status".to_string(),
        missing: "task".to_string(),
    };
    assert_eq!(missing, expected);
    assert_eq!(wrong, expected);
}

#[test]
fn submit_remote_error() {
    let reply = obj(vec![
        ("ok", Json::Bool(false)),
        ("error", s("bad kind")),
        ("error_type", s("ValidationError")),
    ]);
    assert_eq!(
        submit_task(&reply).unwrap_err(),
        RpcError::RemoteError {
            method: "task_submit".to_string(),
            message: "bad kind".to_string(),
            error_type: "ValidationError".to_string(),
        }
    );
}

#[test]
fn submit_requires_task_id() {
    let reply = obj(vec![("ok", Json::Bool(true)), ("task_id", s(""))]);
    assert_eq!(
        submit_task(&reply).unwrap_err(),
        RpcError::InvalidResponse {
            method: "task_submit".to_string(),
            missing: "task_id".to_string(),
        }
    );
    let ok = submit_task(&obj(vec![("ok", Json::Bool(true)), ("task_id", s("t9"))])).unwrap();
    assert!(ok.ok);
    assert_eq!(ok.task_id, "t9");
}

#[test]
fn submitted_id_comes_back_from_status() {
    let sub = submit_task(&obj(vec![("ok", Json::Bool(true)), ("task_id", s("abc"))])).unwrap();
    let params = task_id_params(&sub.task_id);
    assert_eq!(params, obj(vec![("task_id", s("abc"))]));
    let reply = obj(vec![
        ("ok", Json::Bool(true)),
        ("task", obj(vec![("task_id", s("abc")), ("status", s("success"))])),
    ]);
    assert_eq!(get_task_status(reply).unwrap().task_id, sub.task_id);
}

#[test]
fn ok_flag_must_be_true_boolean() {
    assert!(ensure_ok_response(&obj(vec![("ok", Json::Bool(true))]), "m").is_ok());
    assert!(ensure_ok_response(&obj(vec![("ok", s("true"))]), "m").is_err());
    assert!(ensure_ok_response(&Json::Null, "m").is_err());
}

#[test]
fn cancel_and_shutdown_follow_ok_flag() {
    assert_eq!(cancel_task(&obj(vec![("ok", Json::Bool(true))])), Ok(true));
    assert_eq!(shutdown_daemon(&obj(vec![("ok", Json::Bool(true))])), Ok(true));
    let refused = obj(vec![("ok", Json::Bool(false)), ("error", s("no such task"))]);
    assert_eq!(
        cancel_task(&refused).unwrap_err(),
        RpcError::RemoteError {
            method: "task_cancel".to_string(),
            message: "no such task".to_string(),
            error_type: "RemoteError".to_string(),
        }
    );
    match shutdown_daemon(&refused).unwrap_err() {
        RpcError::RemoteError { method, .. } => assert_eq!(method, "shutdown"),
        other => panic!("unexpected {:?}", other),
    }
}

#[test]
fn empty_line_is_empty_response() {
    assert_eq!(decode_response_line("").unwrap_err(), RpcError::EmptyResponse);
    assert_eq!(decode_response_line(" \r\n").unwrap_err(), RpcError::EmptyResponse);
}

#[test]
fn garbage_line_is_malformed_response() {
    match decode_response_line("not json\n").unwrap_err() {
        RpcError::MalformedResponse(msg) => assert!(!msg.is_empty()),
        other => panic!("unexpected {:?}", other),
    }
    assert!(matches!(decode_response_line("{\"ok\": true"), Err(RpcError::MalformedResponse(_))));
}

#[test]
fn valid_line_decodes() {
    let v = decode_response_line("  {\"ok\":true,\"task_id\":\"t1\"}\n").unwrap();
    assert_eq!(v["task_id"], serde_json::Value::String("t1".to_string()));
}

#[test]
fn request_framing() {
    assert_eq!(request_line("{\"a\":1}"), "{\"a\":1}\n");
    let req = build_request("tok", "health", Json::Object(vec![]));
    assert_eq!(
        req,
        obj(vec![("token", s("tok")), ("method", s("health")), ("params", Json::Object(vec![]))])
    );
    assert_eq!(
        submit_params("ocr", Json::Int(1)),
        obj(vec![("kind", s("ocr")), ("params", Json::Int(1))])
    );
}

#[test]
fn call_timeout_is_clamped() {
    assert_eq!(timeout(&endpoint("h", 1, None)), 12000);
    assert_eq!(timeout(&endpoint("h", 1, Some(10))), 500);
    assert_eq!(timeout(&endpoint("h", 1, Some(3000))), 3000);
    assert_eq!(timeout(&endpoint("h", 1, Some(u64::MAX))), 120000);
}

#[test]
fn address_defaults_to_loopback() {
    assert_eq!(endpoint_address(&endpoint("", 8765, None)), "127.0.0.1:8765");
    assert_eq!(endpoint_address(&endpoint("  example.org ", 80, None)), "example.org:80");
    assert_eq!(endpoint_host(&endpoint(" \t", 1, None)), "127.0.0.1");
    assert_eq!(endpoint_label(&endpoint(" a ", 65535, None)), " a :65535");
}
