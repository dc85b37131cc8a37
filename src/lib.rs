//! Client core for a line-oriented task daemon: endpoint handling, the
//! versioned contract, reply interpretation, bounded polling and bootstrap.

pub mod bootstrap;
pub mod commands;
pub mod contract;
pub mod hotkey;
pub mod json;
pub mod paths;
pub mod poll;
pub mod rpc;
pub mod runtime;
pub mod text;
pub mod wire;

pub use bootstrap::{
    find_repo_root_from, python_candidates, resolve_python_exe, worker_script_path, Bootstrap,
    BootstrapAction, BootstrapError, BootstrapEvent, BootstrapPhase, DaemonBootstrapResult,
    LaunchPlan, INTERPRETER_ENV, PROBE_TIMEOUT_MS,
};
pub use commands::{
    default_poll_options, options_or_default, DaemonBootstrapInput, DaemonShutdownInput,
    HandshakeInput, HotkeyRegisterInput, HotkeyStatus, TaskPollInput, TaskStatusInput,
    TaskSubmitAndPollInput, TaskSubmitInput,
};
pub use contract::{
    contract_from_json, dedup_paths, default_contract_candidates, join_path,
    load_contract_document, parse_contract_text, resolve_contract_path, to_summary,
    validate_contract, ContractError, ContractSummary, MethodSpec, RpcContract, RpcEnums,
    CONTRACT_PATH_ENV, DEFAULT_CONTRACT_FILE,
};
pub use hotkey::{parse_hotkey_shortcut, parse_vk, HotkeyError, HotkeySpec};
pub use json::Json;
pub use paths::first_existing;
pub use poll::{is_terminal_status, poll_step, PollAction, PollOptions};
pub use rpc::{
    build_request, cancel_task, endpoint_address, endpoint_host, endpoint_label, ensure_ok_response,
    get_task_status, health_handshake, shutdown_daemon, submit_params, submit_task, task_id_params,
    timeout, DaemonEndpoint, HealthHandshakeResult, RpcError, TaskSnapshot, TaskSubmitResult,
};
pub use runtime::{
    choose_install_base_dir, install_base_dir_from_config, layer_list, read_deps_state_layers,
    resolve_install_base_dir, runtime_cache_dir, runtime_config_path, user_home_dir,
    with_install_base_dir, LaunchDependencyWizardInput, LaunchDependencyWizardResult,
    RuntimeEnvConfig, SetRuntimeEnvConfigInput,
};
pub use text::{is_blank, text_eq, trim};
pub use wire::{decode_response_line, request_line};
