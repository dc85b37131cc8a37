use vstd::prelude::*;
use vstd::string::*;

use crate::contract::{join_path, joined};
use crate::paths::{any_hit, first_existing, is_first_hit};
use crate::rpc::{endpoint_address, endpoint_host, endpoint_label, host_of, DaemonEndpoint};
use crate::text::{concat, decimal, decimal_text, trim, trimmed};

verus! {

/// How long the liveness probe may take to connect, in milliseconds.
pub const PROBE_TIMEOUT_MS: u64 = 300;

/// The environment variable that names the worker's interpreter.
pub const INTERPRETER_ENV: &'static str = "LATEXSNIPPER_PYEXE";

/// What bootstrap reports.
#[derive(Debug, Clone, PartialEq, Eq)]
pub struct DaemonBootstrapResult {
    pub ok: bool,
    pub pid: u32,
    pub message: String,
    pub endpoint: String,
}

/// What bootstrap can fail with.
#[derive(Debug, Clone, PartialEq, Eq)]
pub enum BootstrapError {
    /// Port 0 names no daemon.
    InvalidPort,
    /// No directory holds the worker's entry script.
    WorkerNotFound,
    /// No interpreter for the worker was found.
    InterpreterNotFound,
    /// The operating system refused to start the worker.
    SpawnError(String),
}

/// How to start the worker: a detached process with no standard streams.
#[derive(Debug, Clone, PartialEq, Eq)]
pub struct LaunchPlan {
    pub program: String,
    pub args: Vec<String>,
    pub working_dir: String,
    pub env: Vec<(String, String)>,
}

/// Where a bootstrap run stands.
#[derive(Debug, Clone, Copy, PartialEq, Eq)]
pub enum BootstrapPhase {
    Start,
    Probing,
    Locating,
    Spawning,
    Done,
}

/// What the caller observed since the last step.
#[derive(Debug, PartialEq, Eq)]
pub enum BootstrapEvent {
    /// The caller asks to begin.
    Begin,
    /// The liveness probe connected, or did not.
    Probed(bool),
    /// The worker's directory and interpreter, where they were found.
    Located { repo_root: Option<String>, interpreter: Option<String> },
    /// The process id of the started worker, or why it did not start.
    Spawned(Result<u32, String>),
}

/// What the caller does next.
#[derive(Debug, PartialEq, Eq)]
pub enum BootstrapAction {
    /// Try to connect to `address` within `timeout_ms`.
    Probe { address: String, timeout_ms: u64 },
    /// Look for the worker's directory and interpreter.
    Locate,
    /// Start the worker.
    Spawn(LaunchPlan),
    /// Bootstrap is over, with this outcome.
    Finish(Result<DaemonBootstrapResult, BootstrapError>),
    /// Nothing: the event does not fit the phase.
    Idle,
}

/// The kind of an action, for statements about whole runs.
#[derive(Debug, Clone, Copy, PartialEq, Eq)]
pub enum StepKind {
    Probe,
    Locate,
    Spawn,
    Finish,
    Idle,
}

/// One bootstrap run for one endpoint.
#[derive(Debug, Clone, PartialEq, Eq)]
pub struct Bootstrap {
    pub endpoint: DaemonEndpoint,
    /// The model the worker is asked to load; `pix2text` where none is named.
    pub model: Option<String>,
    pub phase: BootstrapPhase,
    /// The interpreter of the planned start, once one is planned.
    pub interpreter: String,
}

pub open spec fn kind_of(a: BootstrapAction) -> StepKind {
    match a {
        BootstrapAction::Probe { .. } => StepKind::Probe,
        BootstrapAction::Locate => StepKind::Locate,
        BootstrapAction::Spawn(_) => StepKind::Spawn,
        BootstrapAction::Finish(_) => StepKind::Finish,
        BootstrapAction::Idle => StepKind::Idle,
    }
}

/// The phase after `ev` in phase `p`, for an endpoint on `port`.
pub open spec fn phase_after(p: BootstrapPhase, ev: BootstrapEvent, port: u16) -> BootstrapPhase {
    match (p, ev) {
        (BootstrapPhase::Start, BootstrapEvent::Begin) => if port == 0 {
            BootstrapPhase::Done
        } else {
            BootstrapPhase::Probing
        },
        (BootstrapPhase::Probing, BootstrapEvent::Probed(up)) => if up {
            BootstrapPhase::Done
        } else {
            BootstrapPhase::Locating
        },
        (BootstrapPhase::Locating, BootstrapEvent::Located { repo_root, interpreter }) => if repo_root
            is Some && interpreter is Some {
            BootstrapPhase::Spawning
        } else {
            BootstrapPhase::Done
        },
        (BootstrapPhase::Spawning, BootstrapEvent::Spawned(_)) => BootstrapPhase::Done,
        (BootstrapPhase::Done, _) => BootstrapPhase::Done,
        (q, _) => q,
    }
}

/// The kind of action that `ev` in phase `p` calls for.
pub open spec fn kind_after(p: BootstrapPhase, ev: BootstrapEvent, port: u16) -> StepKind {
    match (p, ev) {
        (BootstrapPhase::Start, BootstrapEvent::Begin) => if port == 0 {
            StepKind::Finish
        } else {
            StepKind::Probe
        },
        (BootstrapPhase::Probing, BootstrapEvent::Probed(up)) => if up {
            StepKind::Finish
        } else {
            StepKind::Locate
        },
        (BootstrapPhase::Locating, BootstrapEvent::Located { repo_root, interpreter }) => if repo_root
            is Some && interpreter is Some {
            StepKind::Spawn
        } else {
            StepKind::Finish
        },
        (BootstrapPhase::Spawning, BootstrapEvent::Spawned(_)) => StepKind::Finish,
        _ => StepKind::Idle,
    }
}

/// The kinds of the actions of a run from phase `p` through `evs`.
pub open spec fn run_kinds(p: BootstrapPhase, evs: Seq<BootstrapEvent>, port: u16) -> Seq<StepKind>
    decreases evs.len(),
{
    if evs.len() == 0 {
        Seq::empty()
    } else {
        seq![kind_after(p, evs[0], port)] + run_kinds(
            phase_after(p, evs[0], port),
            evs.drop_first(),
            port,
        )
    }
}

/// The worker's arguments: the module, then host, port, token and model.
pub open spec fn launch_args(e: DaemonEndpoint, model: Option<String>) -> Seq<Seq<char>> {
    seq![
        "-m"@,
        "backend.daemon_server"@,
        "--host"@,
        host_of(e),
        "--port"@,
        decimal(e.port as nat),
        "--token"@,
        e.token@,
        "--model"@,
        match model {
            Some(m) => m@,
            None => "pix2text"@,
        },
    ]
}

/// The entry script below a candidate directory.
pub open spec fn script_below(dir: Seq<char>) -> Seq<char> {
    joined(dir, "src/backend/daemon_server.py"@)
}

/// `r` reports a daemon that was already reachable.
pub open spec fn already_running(r: DaemonBootstrapResult, e: DaemonEndpoint) -> bool {
    &&& r.ok
    &&& r.pid == 0
    &&& r.message@ == "daemon already reachable"@
    &&& r.endpoint@ == e.host@ + ":"@ + decimal(e.port as nat)
}

/// `r` reports a worker started as process `pid` with `interpreter`.
pub open spec fn started(r: DaemonBootstrapResult, e: DaemonEndpoint, pid: u32, interpreter: Seq<char>) -> bool {
    &&& r.ok
    &&& r.pid == pid
    &&& r.message@ == "daemon started (pid="@ + decimal(pid as nat) + ") using "@ + interpreter
    &&& r.endpoint@ == host_of(e) + ":"@ + decimal(e.port as nat)
}

/// The path of the worker's entry script below `dir`.
pub fn worker_script_path(dir: &str) -> (r: String)
    ensures
        r@ == script_below(dir@),
{
    join_path(dir, "src/backend/daemon_server.py")
}

/// The first of `dirs` (a directory and its ancestors, nearest first) below
/// which the entry script was found; `found[i]` says whether
/// [`worker_script_path`] of `dirs[i]` exists.
pub fn find_repo_root_from(dirs: &Vec<String>, found: &Vec<bool>) -> (r: Option<String>)
    requires
        dirs@.len() == found@.len(),
    ensures
        r is Some <==> any_hit(found@),
        r is Some ==> exists|i: int| is_first_hit(found@, i) && r->0@ == dirs@[i]@,
{
    match first_existing(found) {
        Some(i) => Some(dirs[i].clone()),
        None => None,
    }
}

/// The conventional interpreter locations below the worker's directory.
pub fn python_candidates(repo_root: &str) -> (r: Vec<String>)
    ensures
        r@.len() == 2,
        r@[0]@ == joined(repo_root@, "src/deps/python311/python.exe"@),
        r@[1]@ == joined(repo_root@, "deps/python311/python.exe"@),
{
    let mut v: Vec<String> = Vec::new();
    v.push(join_path(repo_root, "src/deps/python311/python.exe"));
    v.push(join_path(repo_root, "deps/python311/python.exe"));
    v
}

/// Picks the interpreter: the trimmed override where it exists, else the
/// first conventional location that exists.
pub fn resolve_python_exe(
    env_override: Option<&str>,
    env_found: bool,
    candidates: &Vec<String>,
    found: &Vec<bool>,
) -> (r: Option<String>)
    requires
        candidates@.len() == found@.len(),
    ensures
        env_override is Some && env_found ==> r is Some && r->0@ == trimmed(env_override->0@),
        !(env_override is Some && env_found) ==> (r is Some <==> any_hit(found@)),
        !(env_override is Some && env_found) && r is Some ==> exists|i: int|
            is_first_hit(found@, i) && r->0@ == candidates@[i]@,
{
    if let Some(v) = env_override {
        if env_found {
            return Some(trim(v).to_owned());
        }
    }
    match first_existing(found) {
        Some(i) => Some(candidates[i].clone()),
        None => None,
    }
}

impl Bootstrap {
    /// A run that has not begun.
    pub fn new(endpoint: DaemonEndpoint, model: Option<String>) -> (r: Bootstrap)
        ensures
            r.endpoint == endpoint,
            r.model == model,
            r.phase is Start,
    {
        Bootstrap { endpoint, model, phase: BootstrapPhase::Start, interpreter: String::new() }
    }

    /// The worker's launch plan for the directory `repo_root`.
    pub fn launch_plan(&self, repo_root: &str, interpreter: &str) -> (r: LaunchPlan)
        ensures
            r.program@ == interpreter@,
            r.working_dir@ == joined(repo_root@, "src"@),
            r.args@.map_values(|a: String| a@) == launch_args(self.endpoint, self.model),
    {
        let mut args: Vec<String> = Vec::new();
        args.push("-m".to_owned());
        args.push("backend.daemon_server".to_owned());
        args.push("--host".to_owned());
        args.push(endpoint_host(&self.endpoint));
        args.push("--port".to_owned());
        args.push(decimal_text(self.endpoint.port as u64));
        args.push("--token".to_owned());
        args.push(self.endpoint.token.clone());
        args.push("--model".to_owned());
        match &self.model {
            Some(m) => args.push(m.clone()),
            None => args.push("pix2text".to_owned()),
        }
        assert(args@.map_values(|a: String| a@) =~= launch_args(self.endpoint, self.model));
        let mut env: Vec<(String, String)> = Vec::new();
        env.push(("PYTHONUTF8".to_owned(), "1".to_owned()));
        env.push(("PYTHONIOENCODING".to_owned(), "utf-8".to_owned()));
        env.push(("PYTHONLEGACYWINDOWSSTDIO".to_owned(), "0".to_owned()));
        LaunchPlan {
            program: interpreter.to_owned(),
            args,
            working_dir: join_path(repo_root, "src"),
            env,
        }
    }

    /// Takes one event and says what to do next.
    pub fn step(&mut self, event: BootstrapEvent) -> (r: BootstrapAction)
        ensures
            final(self).endpoint == old(self).endpoint,
            final(self).model == old(self).model,
            final(self).phase == phase_after(old(self).phase, event, old(self).endpoint.port),
            kind_of(r) == kind_after(old(self).phase, event, old(self).endpoint.port),
            // port 0 is refused before any connection is tried
            old(self).phase is Start && event is Begin && old(self).endpoint.port == 0 ==> (r matches BootstrapAction::Finish(
                Err(BootstrapError::InvalidPort),
            )),
            old(self).phase is Start && event is Begin && old(self).endpoint.port != 0 ==> (r matches BootstrapAction::Probe {
                address,
                timeout_ms,
            } && address@ == host_of(old(self).endpoint) + ":"@ + decimal(
                old(self).endpoint.port as nat,
            ) && timeout_ms == PROBE_TIMEOUT_MS),
            // a reachable daemon is reported, and nothing is started
            old(self).phase is Probing && event == BootstrapEvent::Probed(true) ==> (r matches BootstrapAction::Finish(
                Ok(res),
            ) && already_running(res, old(self).endpoint)),
            old(self).phase is Locating && (event matches BootstrapEvent::Located {
                repo_root: None,
                ..
            }) ==> (r matches BootstrapAction::Finish(Err(BootstrapError::WorkerNotFound))),
            old(self).phase is Locating && (event matches BootstrapEvent::Located {
                repo_root: Some(_),
                interpreter: None,
            }) ==> (r matches BootstrapAction::Finish(Err(BootstrapError::InterpreterNotFound))),
            old(self).phase is Locating ==> (event matches BootstrapEvent::Located {
                repo_root: Some(root),
                interpreter: Some(py),
            } ==> (r matches BootstrapAction::Spawn(plan) && plan.program@ == py@
                && plan.working_dir@ == joined(root@, "src"@) && plan.args@.map_values(
                |a: String| a@,
            ) == launch_args(old(self).endpoint, old(self).model))),
            old(self).phase is Spawning ==> (event matches BootstrapEvent::Spawned(Ok(pid))
                ==> (r matches BootstrapAction::Finish(Ok(res)) && started(
                res,
                old(self).endpoint,
                pid,
                old(self).interpreter@,
            ))),
            old(self).phase is Spawning ==> (event matches BootstrapEvent::Spawned(Err(m))
                ==> (r matches BootstrapAction::Finish(Err(BootstrapError::SpawnError(m2)))
                && m2@ == m@)),
    {
        match (&self.phase, event) {
            (BootstrapPhase::Start, BootstrapEvent::Begin) => {
                if self.endpoint.port == 0 {
                    self.phase = BootstrapPhase::Done;
                    return BootstrapAction::Finish(Err(BootstrapError::InvalidPort));
                }
                self.phase = BootstrapPhase::Probing;
                BootstrapAction::Probe {
                    address: endpoint_address(&self.endpoint),
                    timeout_ms: PROBE_TIMEOUT_MS,
                }
            },
            (BootstrapPhase::Probing, BootstrapEvent::Probed(up)) => {
                if up {
                    self.phase = BootstrapPhase::Done;
                    return BootstrapAction::Finish(
                        Ok(
                            DaemonBootstrapResult {
                                ok: true,
                                pid: 0,
                                message: "daemon already reachable".to_owned(),
                                endpoint: endpoint_label(&self.endpoint),
                            },
                        ),
                    );
                }
                self.phase = BootstrapPhase::Locating;
                BootstrapAction::Locate
            },
            (BootstrapPhase::Locating, BootstrapEvent::Located { repo_root, interpreter }) => {
                let root = match repo_root {
                    Some(r) => r,
                    None => {
                        self.phase = BootstrapPhase::Done;
                        return BootstrapAction::Finish(Err(BootstrapError::WorkerNotFound));
                    },
                };
                let py = match interpreter {
                    Some(p) => p,
                    None => {
                        self.phase = BootstrapPhase::Done;
                        return BootstrapAction::Finish(Err(BootstrapError::InterpreterNotFound));
                    },
                };
                let plan = self.launch_plan(root.as_str(), py.as_str());
                self.phase = BootstrapPhase::Spawning;
                self.interpreter = py;
                BootstrapAction::Spawn(plan)
            },
            (BootstrapPhase::Spawning, BootstrapEvent::Spawned(outcome)) => {
                self.phase = BootstrapPhase::Done;
                match outcome {
                    Ok(pid) => {
                        let head = concat("daemon started (pid=", decimal_text(pid as u64).as_str());
                        let mid = concat(head.as_str(), ") using ");
                        let message = concat(mid.as_str(), self.interpreter.as_str());
                        let host = endpoint_host(&self.endpoint);
                        let with_colon = concat(host.as_str(), ":");
                        let endpoint = concat(
                            with_colon.as_str(),
                            decimal_text(self.endpoint.port as u64).as_str(),
                        );
                        BootstrapAction::Finish(Ok(DaemonBootstrapResult { ok: true, pid, message, endpoint }))
                    },
                    Err(m) => BootstrapAction::Finish(Err(BootstrapError::SpawnError(m))),
                }
            },
            _ => BootstrapAction::Idle,
        }
    }
}

/// A run for an endpoint on port 0 never probes the endpoint and never
/// starts a worker, whatever events it is given.
pub proof fn lemma_port_zero_never_connects(p: BootstrapPhase, evs: Seq<BootstrapEvent>)
    requires
        p is Start || p is Done,
    ensures
        forall|i: int|
            0 <= i < run_kinds(p, evs, 0).len() ==> !(#[trigger] run_kinds(p, evs, 0)[i] is Probe)
                && !(run_kinds(p, evs, 0)[i] is Spawn),
    decreases evs.len(),
{
    if evs.len() > 0 {
        lemma_port_zero_never_connects(phase_after(p, evs[0], 0), evs.drop_first());
        let rest = run_kinds(phase_after(p, evs[0], 0), evs.drop_first(), 0);
        assert forall|i: int| 0 <= i < run_kinds(p, evs, 0).len() implies !(#[trigger] run_kinds(
            p,
            evs,
            0,
        )[i] is Probe) && !(run_kinds(p, evs, 0)[i] is Spawn) by {
            if i > 0 {
                assert(run_kinds(p, evs, 0)[i] == rest[i - 1]);
            }
        }
    }
}

/// Once a run is over it does nothing more.
pub proof fn lemma_done_stays_idle(evs: Seq<BootstrapEvent>, port: u16)
    ensures
        forall|i: int|
            0 <= i < run_kinds(BootstrapPhase::Done, evs, port).len() ==> #[trigger] run_kinds(
                BootstrapPhase::Done,
                evs,
                port,
            )[i] is Idle,
    decreases evs.len(),
{
    if evs.len() > 0 {
        lemma_done_stays_idle(evs.drop_first(), port);
        let rest = run_kinds(BootstrapPhase::Done, evs.drop_first(), port);
        assert forall|i: int|
            0 <= i < run_kinds(BootstrapPhase::Done, evs, port).len() implies #[trigger] run_kinds(
            BootstrapPhase::Done,
            evs,
            port,
        )[i] is Idle by {
            if i > 0 {
                assert(run_kinds(BootstrapPhase::Done, evs, port)[i] == rest[i - 1]);
            }
        }
    }
}

/// When the probe finds the daemon reachable, the run finishes at once and
/// no worker is ever started, whatever events follow.
pub proof fn lemma_reachable_never_spawns(evs: Seq<BootstrapEvent>, port: u16)
    requires
        evs.len() > 0,
        evs[0] == BootstrapEvent::Probed(true),
    ensures
        run_kinds(BootstrapPhase::Probing, evs, port)[0] is Finish,
        forall|i: int|
            0 <= i < run_kinds(BootstrapPhase::Probing, evs, port).len() ==> !(
            #[trigger] run_kinds(BootstrapPhase::Probing, evs, port)[i] is Spawn),
{
    lemma_done_stays_idle(evs.drop_first(), port);
    let rest = run_kinds(BootstrapPhase::Done, evs.drop_first(), port);
    assert forall|i: int|
        0 <= i < run_kinds(BootstrapPhase::Probing, evs, port).len() implies !(
    #[trigger] run_kinds(BootstrapPhase::Probing, evs, port)[i] is Spawn) by {
        if i > 0 {
            assert(run_kinds(BootstrapPhase::Probing, evs, port)[i] == rest[i - 1]);
        }
    }
}

} // verus!
