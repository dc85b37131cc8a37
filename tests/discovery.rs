use daemon_rpc::{
    dedup_paths, default_contract_candidates, find_repo_root_from, first_existing, is_blank,
    join_path, python_candidates, resolve_contract_path, resolve_python_exe, text_eq, to_summary,
    trim, validate_contract, worker_script_path, ContractError, Json, RpcContract, RpcEnums,
};

fn texts(v: &[&str]) -> Vec<String> {
    v.iter().map(|x| x.to_string()).collect()
}

fn contract(name: &str, version: &str) -> RpcContract {
    RpcContract {
        name: name.to_string(),
        version: version.to_string(),
        transport: Json::Null,
        auth: Json::Null,
        enums: RpcEnums {
            methods: texts(&["health", "task_submit"]),
            task_kinds: texts(&["ocr"]),
            task_status: vec![],
            task_terminal_status: vec![],
        },
        methods: vec![],
    }
}

#[test]
fn trimming() {
    assert_eq!(trim("  a b \t\n"), "a b");
    assert_eq!(trim("\u{3000}x\u{a0}"), "x");
    assert_eq!(trim("   "), "");
    assert_eq!(trim(""), "");
    assert!(is_blank(" \r\n"));
    assert!(!is_blank(" x "));
    assert!(text_eq("héllo", "héllo"));
    assert!(!text_eq("a", "A"));
    assert!(!text_eq("ab", "a"));
}

#[test]
fn dedup_ignores_case() {
    let out = dedup_paths(texts(&["/A/b", "/c", "/a/B", "/C", "/d"]));
    assert_eq!(out, texts(&["/A/b", "/c", "/d"]));
    assert_eq!(dedup_paths(vec![]), Vec::<String>::new());
    assert_eq!(dedup_paths(texts(&["/Ä"])), texts(&["/Ä"]));
    assert_eq!(dedup_paths(texts(&["/Ä", "/ä"])), texts(&["/Ä"]));
}

#[test]
fn contract_candidates_in_order() {
    let c = default_contract_candidates(Some("  /etc/c.json "), "/w", Some("/bin"));
    assert_eq!(
        c,
        texts(&[
            "/etc/c.json",
            "/w/contracts/daemon_rpc_contract.v1.json",
            "/w/../contracts/daemon_rpc_contract.v1.json",
            "/w/../../contracts/daemon_rpc_contract.v1.json",
            "/w/../../../contracts/daemon_rpc_contract.v1.json",
            "/bin/contracts/daemon_rpc_contract.v1.json",
            "/bin/../contracts/daemon_rpc_contract.v1.json",
            "/bin/../../contracts/daemon_rpc_contract.v1.json",
        ])
    );
    let same = default_contract_candidates(Some(" "), "/W", Some("/w"));
    assert_eq!(same.len(), 4);
    assert_eq!(default_contract_candidates(None, "/w", None).len(), 4);
}

#[test]
fn explicit_contract_path() {
    let none: Vec<String> = vec![];
    assert_eq!(resolve_contract_path(Some(" /x.json "), true, &none, &vec![]), Ok("/x.json".to_string()));
    assert_eq!(
        resolve_contract_path(Some(" /x.json "), false, &texts(&["/a"]), &vec![true]),
        Err(ContractError::NotFound(Some("/x.json".to_string())))
    );
}

#[test]
fn first_existing_candidate_wins() {
    let c = texts(&["/a", "/b", "/c"]);
    assert_eq!(resolve_contract_path(None, false, &c, &vec![false, true, true]), Ok("/b".to_string()));
    assert_eq!(
        resolve_contract_path(None, false, &c, &vec![false, false, false]),
        Err(ContractError::NotFound(None))
    );
    assert_eq!(first_existing(&vec![false, false, true]), Some(2));
    assert_eq!(first_existing(&vec![]), None);
}

#[test]
fn contract_validation() {
    assert!(validate_contract(contract("ls", "1.0")).is_ok());
    assert_eq!(validate_contract(contract(" ", "1.0")).unwrap_err(), ContractError::InvalidContract);
    assert_eq!(validate_contract(contract("ls", "")).unwrap_err(), ContractError::InvalidContract);
}

#[test]
fn contract_summary() {
    let s = to_summary("/c.json", &contract("ls", "1.0"));
    assert_eq!(s.path, "/c.json");
    assert_eq!(s.name, "ls");
    assert_eq!(s.version, "1.0");
    assert_eq!(s.methods, texts(&["health", "task_submit"]));
    assert_eq!(s.task_kinds, texts(&["ocr"]));
}

#[test]
fn worker_discovery() {
    assert_eq!(worker_script_path("/r"), "/r/src/backend/daemon_server.py");
    assert_eq!(join_path("/a", "b"), "/a/b");
    let dirs = texts(&["/r/x", "/r", "/"]);
    assert_eq!(find_repo_root_from(&dirs, &vec![false, true, true]), Some("/r".to_string()));
    assert_eq!(find_repo_root_from(&dirs, &vec![false, false, false]), None);
    let py = python_candidates("/r");
    assert_eq!(py, texts(&["/r/src/deps/python311/python.exe", "/r/deps/python311/python.exe"]));
    assert_eq!(resolve_python_exe(Some(" /p "), true, &py, &vec![true, true]), Some("/p".to_string()));
    assert_eq!(
        resolve_python_exe(Some("/p"), false, &py, &vec![false, true]),
        Some("/r/deps/python311/python.exe".to_string())
    );
    assert_eq!(resolve_python_exe(None, false, &py, &vec![false, false]), None);
}
