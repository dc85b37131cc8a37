use vstd::prelude::*;
use vstd::string::*;

use crate::contract::RpcContract;
use crate::json::{as_flag, as_int, field, text_or, Json, JsonV};
use crate::text::{blank, concat, decimal, decimal_text, is_blank, trim, trimmed};

verus! {

/// The read/write deadline of a call when the endpoint names none.
pub const DEFAULT_CALL_TIMEOUT_MS: u64 = 12000;

pub const MIN_CALL_TIMEOUT_MS: u64 = 500;

pub const MAX_CALL_TIMEOUT_MS: u64 = 120000;

/// One daemon instance and its shared secret.
#[derive(Debug, Clone, PartialEq, Eq)]
pub struct DaemonEndpoint {
    pub host: String,
    pub port: u16,
    pub token: String,
    pub timeout_ms: Option<u64>,
}

/// What a call can fail with.
#[derive(Debug, Clone, PartialEq, Eq)]
pub enum RpcError {
    /// The endpoint did not resolve to an address.
    AddressError(String),
    /// The connection could not be opened.
    ConnectError(String),
    /// Writing the request or reading the reply failed, timeouts included.
    IoError(String),
    /// The reply line was empty.
    EmptyResponse,
    /// The reply line was no JSON document.
    MalformedResponse(String),
    /// The daemon answered `ok: false`.
    RemoteError { method: String, message: String, error_type: String },
    /// The daemon answered `ok: true` without a field that the method needs.
    InvalidResponse { method: String, missing: String },
    /// A task stayed non-terminal for the whole polling budget (milliseconds).
    PollTimeout(u64),
}

/// The reply to `task_submit`.
#[derive(Debug, Clone, PartialEq, Eq)]
pub struct TaskSubmitResult {
    pub ok: bool,
    pub task_id: String,
}

/// The daemon's view of one task at one instant.
#[derive(Debug, PartialEq, Eq)]
pub struct TaskSnapshot {
    pub task_id: String,
    pub kind: String,
    pub status: String,
    pub progress_current: i64,
    pub progress_total: i64,
    pub error: String,
    pub error_type: String,
    pub error_code: String,
    pub details: Json,
    pub output: Json,
    pub raw: Json,
}

/// The outcome of the `health` exchange.
#[derive(Debug, PartialEq, Eq)]
pub struct HealthHandshakeResult {
    pub ok: bool,
    pub endpoint: String,
    pub contract_name_expected: String,
    pub contract_version_expected: String,
    pub contract_name_remote: String,
    pub contract_version_remote: String,
    pub contract_match: bool,
    pub ready: bool,
    pub status: String,
    pub raw: Json,
}

pub open spec fn clamp(x: int, lo: int, hi: int) -> int {
    if x < lo {
        lo
    } else if x > hi {
        hi
    } else {
        x
    }
}

pub open spec fn or_default(o: Option<u64>, d: u64) -> int {
    match o {
        Some(v) => v as int,
        None => d as int,
    }
}

pub fn clamp_u64(x: u64, lo: u64, hi: u64) -> (r: u64)
    requires
        lo <= hi,
    ensures
        r == clamp(x as int, lo as int, hi as int),
{
    if x < lo {
        lo
    } else if x > hi {
        hi
    } else {
        x
    }
}

/// The call deadline of an endpoint, in milliseconds.
pub open spec fn call_timeout(e: DaemonEndpoint) -> int {
    clamp(
        or_default(e.timeout_ms, DEFAULT_CALL_TIMEOUT_MS),
        MIN_CALL_TIMEOUT_MS as int,
        MAX_CALL_TIMEOUT_MS as int,
    )
}

/// The read, write and connect deadline of a call to `endpoint`, in
/// milliseconds.
pub fn timeout(endpoint: &DaemonEndpoint) -> (r: u64)
    ensures
        r == call_timeout(*endpoint),
{
    let ms = match endpoint.timeout_ms {
        Some(v) => v,
        None => DEFAULT_CALL_TIMEOUT_MS,
    };
    clamp_u64(ms, MIN_CALL_TIMEOUT_MS, MAX_CALL_TIMEOUT_MS)
}

/// The host to connect to: the trimmed host, or the loopback address for a
/// blank one.
pub open spec fn host_of(e: DaemonEndpoint) -> Seq<char> {
    if blank(e.host@) {
        "127.0.0.1"@
    } else {
        trimmed(e.host@)
    }
}

pub fn endpoint_host(endpoint: &DaemonEndpoint) -> (r: String)
    ensures
        r@ == host_of(*endpoint),
{
    if is_blank(endpoint.host.as_str()) {
        "127.0.0.1".to_owned()
    } else {
        trim(endpoint.host.as_str()).to_owned()
    }
}

/// `host:port`, with the host as [`endpoint_host`] gives it; this is the text
/// that is resolved to a socket address.
pub fn endpoint_address(endpoint: &DaemonEndpoint) -> (r: String)
    ensures
        r@ == host_of(*endpoint) + ":"@ + decimal(endpoint.port as nat),
{
    let host = endpoint_host(endpoint);
    let with_colon = concat(host.as_str(), ":");
    let port = decimal_text(endpoint.port as u64);
    concat(with_colon.as_str(), port.as_str())
}

/// `host:port` with the host as the caller gave it.
pub fn endpoint_label(endpoint: &DaemonEndpoint) -> (r: String)
    ensures
        r@ == endpoint.host@ + ":"@ + decimal(endpoint.port as nat),
{
    let with_colon = concat(endpoint.host.as_str(), ":");
    let port = decimal_text(endpoint.port as u64);
    concat(with_colon.as_str(), port.as_str())
}

/// Object members as the model sees them.
pub open spec fn members_of(v: JsonV) -> Seq<(Seq<char>, JsonV)> {
    match v {
        JsonV::Object(m) => m,
        _ => Seq::empty(),
    }
}

/// The request object `{token, method, params}`.
pub fn build_request(token: &str, method: &str, params: Json) -> (r: Json)
    ensures
        r.deep() == JsonV::Object(
            seq![
                ("token"@, JsonV::Str(token@)),
                ("method"@, JsonV::Str(method@)),
                ("params"@, params.deep()),
            ],
        ),
{
    let ghost p = params.deep();
    let members = vec![
        ("token".to_owned(), Json::Str(token.to_owned())),
        ("method".to_owned(), Json::Str(method.to_owned())),
        ("params".to_owned(), params),
    ];
    assert(members@.len() == 3);
    assert(members@[0].0@ == "token"@ && members@[1].0@ == "method"@ && members@[2].0@ == "params"@);
    assert(members@[0].1.deep() == JsonV::Str(token@));
    assert(members@[1].1.deep() == JsonV::Str(method@));
    assert(members@[2].1.deep() == p);
    let r = Json::Object(members);
    assert(members_of(r.deep()) =~= seq![
        ("token"@, JsonV::Str(token@)),
        ("method"@, JsonV::Str(method@)),
        ("params"@, p),
    ]);
    r
}

/// Whether the reply says `ok: true`.
pub open spec fn reply_ok(reply: Json) -> bool {
    as_flag(field(reply, "ok"@)) == Some(true)
}

/// `e` is the remote failure that `reply` reports for `method`.
pub open spec fn is_remote_error(e: RpcError, reply: Json, method: Seq<char>) -> bool {
    match e {
        RpcError::RemoteError { method: m, message, error_type } => {
            &&& m@ == method
            &&& message@ == text_or(field(reply, "error"@), "unknown error"@)
            &&& error_type@ == text_or(field(reply, "error_type"@), "RemoteError"@)
        },
        _ => false,
    }
}

/// `e` reports that the ok reply to `method` lacks `missing`.
pub open spec fn is_invalid_response(e: RpcError, method: Seq<char>, missing: Seq<char>) -> bool {
    match e {
        RpcError::InvalidResponse { method: m, missing: f } => m@ == method && f@ == missing,
        _ => false,
    }
}

/// Accepts a reply that says `ok: true`; turns any other into a
/// `RemoteError` for `method`.
pub fn ensure_ok_response(reply: &Json, method: &str) -> (r: Result<(), RpcError>)
    ensures
        reply_ok(*reply) ==> r is Ok,
        !reply_ok(*reply) ==> r is Err && is_remote_error(r->Err_0, *reply, method@),
{
    if reply.get_flag("ok") == Some(true) {
        return Ok(());
    }
    let message = reply.get_text_or("error", "unknown error");
    let error_type = reply.get_text_or("error_type", "RemoteError");
    Err(RpcError::RemoteError { method: method.to_owned(), message, error_type })
}

/// The text of `key` inside the reply's `contract` object, or empty.
pub open spec fn remote_contract_text(reply: Json, key: Seq<char>) -> Seq<char> {
    match field(reply, "contract"@) {
        Some(c) => text_or(field(c, key), ""@),
        None => ""@,
    }
}

/// `h` is what the `health` reply `reply` says, set against `contract`.
pub open spec fn handshake_of(
    h: HealthHandshakeResult,
    endpoint: DaemonEndpoint,
    contract: RpcContract,
    reply: Json,
) -> bool {
    &&& h.ok
    &&& h.endpoint@ == endpoint.host@ + ":"@ + decimal(endpoint.port as nat)
    &&& h.contract_name_expected@ == contract.name@
    &&& h.contract_version_expected@ == contract.version@
    &&& h.contract_name_remote@ == remote_contract_text(reply, "name"@)
    &&& h.contract_version_remote@ == remote_contract_text(reply, "version"@)
    &&& h.contract_match == (remote_contract_text(reply, "name"@) == contract.name@
        && remote_contract_text(reply, "version"@) == contract.version@)
    &&& h.ready == (as_flag(field(reply, "ready"@)) == Some(true))
    &&& h.status@ == text_or(field(reply, "status"@), ""@)
    &&& h.raw.deep() == reply.deep()
}

/// Reads the reply to `health`. A contract mismatch is reported in
/// `contract_match`, not as an error.
pub fn health_handshake(endpoint: &DaemonEndpoint, contract: &RpcContract, reply: Json) -> (r:
    Result<HealthHandshakeResult, RpcError>)
    ensures
        reply_ok(reply) ==> r is Ok && handshake_of(r->Ok_0, *endpoint, *contract, reply),
        !reply_ok(reply) ==> r is Err && is_remote_error(r->Err_0, reply, "health"@),
{
    ensure_ok_response(&reply, "health")?;
    let (remote_name, remote_version) = match reply.get("contract") {
        Some(c) => (c.get_text_or("name", ""), c.get_text_or("version", "")),
        None => ("".to_owned(), "".to_owned()),
    };
    let contract_match = remote_name == contract.name && remote_version == contract.version;
    let ready = reply.get_flag("ready") == Some(true);
    let status = reply.get_text_or("status", "");
    Ok(HealthHandshakeResult {
        ok: true,
        endpoint: endpoint_label(endpoint),
        contract_name_expected: contract.name.clone(),
        contract_version_expected: contract.version.clone(),
        contract_name_remote: remote_name,
        contract_version_remote: remote_version,
        contract_match,
        ready,
        status,
        raw: reply,
    })
}

/// The parameters of `task_submit`: `{kind, params}`.
pub fn submit_params(kind: &str, params: Json) -> (r: Json)
    ensures
        r.deep() == JsonV::Object(
            seq![("kind"@, JsonV::Str(kind@)), ("params"@, params.deep())],
        ),
{
    let ghost p = params.deep();
    let members = vec![("kind".to_owned(), Json::Str(kind.to_owned())), ("params".to_owned(), params)];
    assert(members@.len() == 2);
    assert(members@[0].0@ == "kind"@ && members@[1].0@ == "params"@);
    assert(members@[0].1.deep() == JsonV::Str(kind@));
    assert(members@[1].1.deep() == p);
    let r = Json::Object(members);
    assert(members_of(r.deep()) =~= seq![("kind"@, JsonV::Str(kind@)), ("params"@, p)]);
    r
}

/// The parameters of `task_status` and `task_cancel`: `{task_id}`.
pub fn task_id_params(task_id: &str) -> (r: Json)
    ensures
        r.deep() == JsonV::Object(seq![("task_id"@, JsonV::Str(task_id@))]),
{
    let members = vec![("task_id".to_owned(), Json::Str(task_id.to_owned()))];
    assert(members@.len() == 1);
    assert(members@[0].0@ == "task_id"@);
    assert(members@[0].1.deep() == JsonV::Str(task_id@));
    let r = Json::Object(members);
    assert(members_of(r.deep()) =~= seq![("task_id"@, JsonV::Str(task_id@))]);
    r
}

/// The task id that an ok `task_submit` reply carries, or empty.
pub open spec fn submitted_id(reply: Json) -> Seq<char> {
    text_or(field(reply, "task_id"@), ""@)
}

/// Reads the reply to `task_submit`: an ok reply must carry a non-empty
/// `task_id`.
pub fn submit_task(reply: &Json) -> (r: Result<TaskSubmitResult, RpcError>)
    ensures
        !reply_ok(*reply) ==> r is Err && is_remote_error(r->Err_0, *reply, "task_submit"@),
        reply_ok(*reply) && submitted_id(*reply).len() == 0 ==> r is Err && is_invalid_response(
            r->Err_0,
            "task_submit"@,
            "task_id"@,
        ),
        reply_ok(*reply) && submitted_id(*reply).len() > 0 ==> r is Ok && r->Ok_0.ok
            && r->Ok_0.task_id@ == submitted_id(*reply),
{
    ensure_ok_response(reply, "task_submit")?;
    let task_id = reply.get_text_or("task_id", "");
    if task_id.as_str().unicode_len() == 0 {
        return Err(
            RpcError::InvalidResponse {
                method: "task_submit".to_owned(),
                missing: "task_id".to_owned(),
            },
        );
    }
    Ok(TaskSubmitResult { ok: true, task_id })
}

/// The model of an object-valued field: its value, or the empty object.
pub open spec fn object_or_empty(v: Option<Json>) -> JsonV {
    match v {
        Some(j) => j.deep(),
        None => JsonV::Object(Seq::empty()),
    }
}

pub open spec fn int_or_zero(v: Option<Json>) -> i64 {
    match as_int(v) {
        Some(i) => i,
        None => 0,
    }
}

/// `s` is the snapshot that the task object `task` of `reply` describes,
/// with the defaults filled in.
pub open spec fn snapshot_of(s: TaskSnapshot, task: Json, reply: Json) -> bool {
    &&& s.task_id@ == text_or(field(task, "task_id"@), ""@)
    &&& s.kind@ == text_or(field(task, "kind"@), ""@)
    &&& s.status@ == text_or(field(task, "status"@), ""@)
    &&& s.progress_current == int_or_zero(field(task, "progress_current"@))
    &&& s.progress_total == int_or_zero(field(task, "progress_total"@))
    &&& s.error@ == text_or(field(task, "error"@), ""@)
    &&& s.error_type@ == text_or(field(task, "error_type"@), ""@)
    &&& s.error_code@ == text_or(field(task, "error_code"@), ""@)
    &&& s.details.deep() == object_or_empty(field(task, "details"@))
    &&& s.output.deep() == object_or_empty(field(task, "output"@))
    &&& s.raw.deep() == reply.deep()
}

/// The embedded task object of a `task_status` reply, where it is an object.
pub open spec fn task_object(reply: Json) -> Option<Json> {
    match field(reply, "task"@) {
        Some(t) => if t is Object {
            Some(t)
        } else {
            None
        },
        None => None,
    }
}

/// Reads the reply to `task_status`. Missing descriptive fields take their
/// defaults; only a missing task object is an error.
pub fn get_task_status(reply: Json) -> (r: Result<TaskSnapshot, RpcError>)
    ensures
        !reply_ok(reply) ==> r is Err && is_remote_error(r->Err_0, reply, "task_status"@),
        reply_ok(reply) && task_object(reply) is None ==> r is Err && is_invalid_response(
            r->Err_0,
            "task_status"@,
            "task"@,
        ),
        reply_ok(reply) && task_object(reply) is Some ==> r is Ok && snapshot_of(
            r->Ok_0,
            task_object(reply)->0,
            reply,
        ),
{
    ensure_ok_response(&reply, "task_status")?;
    let t = match reply.get("task") {
        Some(t) => match t {
            Json::Object(_) => t,
            _ => {
                return Err(
                    RpcError::InvalidResponse {
                        method: "task_status".to_owned(),
                        missing: "task".to_owned(),
                    },
                );
            },
        },
        None => {
            return Err(
                RpcError::InvalidResponse {
                    method: "task_status".to_owned(),
                    missing: "task".to_owned(),
                },
            );
        },
    };
    let task_id = t.get_text_or("task_id", "");
    let kind = t.get_text_or("kind", "");
    let status = t.get_text_or("status", "");
    let progress_current = match t.get_int("progress_current") {
        Some(i) => i,
        None => 0,
    };
    let progress_total = match t.get_int("progress_total") {
        Some(i) => i,
        None => 0,
    };
    let error = t.get_text_or("error", "");
    let error_type = t.get_text_or("error_type", "");
    let error_code = t.get_text_or("error_code", "");
    let details = match t.get("details") {
        Some(d) => d.duplicate(),
        None => Json::new_object(),
    };
    let output = match t.get("output") {
        Some(o) => o.duplicate(),
        None => Json::new_object(),
    };
    Ok(TaskSnapshot {
        task_id,
        kind,
        status,
        progress_current,
        progress_total,
        error,
        error_type,
        error_code,
        details,
        output,
        raw: reply,
    })
}

/// Reads the reply to `task_cancel`: success is the ok flag alone.
pub fn cancel_task(reply: &Json) -> (r: Result<bool, RpcError>)
    ensures
        reply_ok(*reply) ==> r == Ok::<bool, RpcError>(true),
        !reply_ok(*reply) ==> r is Err && is_remote_error(r->Err_0, *reply, "task_cancel"@),
{
    ensure_ok_response(reply, "task_cancel")?;
    Ok(true)
}

/// Reads the reply to `shutdown`: success is the ok flag alone; the daemon's
/// exit is not awaited.
pub fn shutdown_daemon(reply: &Json) -> (r: Result<bool, RpcError>)
    ensures
        reply_ok(*reply) ==> r == Ok::<bool, RpcError>(true),
        !reply_ok(*reply) ==> r is Err && is_remote_error(r->Err_0, *reply, "shutdown"@),
{
    ensure_ok_response(reply, "shutdown")?;
    Ok(true)
}

} // verus!
