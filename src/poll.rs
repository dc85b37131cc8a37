use vstd::prelude::*;
use vstd::string::*;

use crate::json::{field, text_or, Json};
use crate::rpc::{
    clamp, clamp_u64, or_default, reply_ok, snapshot_of, submitted_id, task_object, RpcError,
    TaskSnapshot,
};
use crate::text::text_eq;

verus! {

pub const DEFAULT_POLL_INTERVAL_MS: u64 = 200;

pub const MIN_POLL_INTERVAL_MS: u64 = 50;

pub const MAX_POLL_INTERVAL_MS: u64 = 5000;

pub const DEFAULT_POLL_TIMEOUT_MS: u64 = 600000;

pub const MIN_POLL_TIMEOUT_MS: u64 = 1000;

pub const MAX_POLL_TIMEOUT_MS: u64 = 7200000;

/// How often to fetch a task's status and how long to keep trying.
#[derive(Debug, Clone, PartialEq, Eq)]
pub struct PollOptions {
    pub poll_interval_ms: Option<u64>,
    pub timeout_ms: Option<u64>,
}

/// The wait between two fetches, in milliseconds, after clamping.
pub open spec fn interval_of(o: PollOptions) -> int {
    clamp(
        or_default(o.poll_interval_ms, DEFAULT_POLL_INTERVAL_MS),
        MIN_POLL_INTERVAL_MS as int,
        MAX_POLL_INTERVAL_MS as int,
    )
}

/// The polling budget, in milliseconds, after clamping.
pub open spec fn timeout_of(o: PollOptions) -> int {
    clamp(
        or_default(o.timeout_ms, DEFAULT_POLL_TIMEOUT_MS),
        MIN_POLL_TIMEOUT_MS as int,
        MAX_POLL_TIMEOUT_MS as int,
    )
}

/// The statuses after which a task never changes.
pub open spec fn is_terminal(status: Seq<char>) -> bool {
    status == "success"@ || status == "error"@ || status == "cancelled"@
}

impl PollOptions {
    /// The clamped wait between two fetches.
    pub fn interval_ms(&self) -> (r: u64)
        ensures
            r == interval_of(*self),
    {
        let ms = match self.poll_interval_ms {
            Some(v) => v,
            None => DEFAULT_POLL_INTERVAL_MS,
        };
        clamp_u64(ms, MIN_POLL_INTERVAL_MS, MAX_POLL_INTERVAL_MS)
    }

    /// The clamped polling budget.
    pub fn budget_ms(&self) -> (r: u64)
        ensures
            r == timeout_of(*self),
    {
        let ms = match self.timeout_ms {
            Some(v) => v,
            None => DEFAULT_POLL_TIMEOUT_MS,
        };
        clamp_u64(ms, MIN_POLL_TIMEOUT_MS, MAX_POLL_TIMEOUT_MS)
    }
}

/// Whether `status` is `success`, `error` or `cancelled`.
pub fn is_terminal_status(status: &str) -> (r: bool)
    ensures
        r == is_terminal(status@),
{
    text_eq(status, "success") || text_eq(status, "error") || text_eq(status, "cancelled")
}

/// What the polling loop does next.
#[derive(Debug, PartialEq, Eq)]
pub enum PollAction {
    /// Stop with this outcome.
    Finish(Result<TaskSnapshot, RpcError>),
    /// Sleep this many milliseconds, then fetch again.
    Wait(u64),
}

/// One turn of the polling loop, taken after a status fetch that ended
/// `elapsed_ms` milliseconds after the loop began.
///
/// A failed fetch ends the loop with its error. A terminal snapshot ends it
/// with that snapshot. Otherwise the loop gives up with `PollTimeout` once the
/// budget is spent, and waits one interval before the next fetch while it is
/// not.
pub fn poll_step(opts: &PollOptions, fetched: Result<TaskSnapshot, RpcError>, elapsed_ms: u64) -> (r:
    PollAction)
    ensures
        fetched is Err ==> r == PollAction::Finish(fetched),
        fetched is Ok && is_terminal(fetched->Ok_0.status@) ==> r == PollAction::Finish(fetched),
        fetched is Ok && !is_terminal(fetched->Ok_0.status@) && elapsed_ms >= timeout_of(*opts)
            ==> r == PollAction::Finish(Err(RpcError::PollTimeout(timeout_of(*opts) as u64))),
        fetched is Ok && !is_terminal(fetched->Ok_0.status@) && elapsed_ms < timeout_of(*opts)
            ==> r == PollAction::Wait(interval_of(*opts) as u64),
        // a snapshot is handed back only once the task is terminal
        r matches PollAction::Finish(Ok(s)) ==> is_terminal(s.status@),
        // after a good fetch, the loop fails only on a non-terminal task whose
        // budget is spent
        fetched is Ok && (r matches PollAction::Finish(Err(_))) ==> !is_terminal(
            fetched->Ok_0.status@,
        ) && elapsed_ms >= timeout_of(*opts),
{
    let snap = match fetched {
        Ok(s) => s,
        Err(e) => return PollAction::Finish(Err(e)),
    };
    if is_terminal_status(snap.status.as_str()) {
        return PollAction::Finish(Ok(snap));
    }
    let budget = opts.budget_ms();
    if elapsed_ms >= budget {
        return PollAction::Finish(Err(RpcError::PollTimeout(budget)));
    }
    PollAction::Wait(opts.interval_ms())
}

/// Elapsed time at the `k`-th status check of one polling run: the first
/// check follows the first fetch; each later one follows a wait of `interval`
/// and one more fetch, `fetch[k]` long.
pub open spec fn check_time(interval: nat, fetch: Seq<nat>, k: int) -> nat
    decreases k,
{
    if k <= 0 {
        fetch[0]
    } else {
        check_time(interval, fetch, k - 1) + interval + fetch[k]
    }
}

/// Where polling gives up on a task that stays non-terminal, at the first
/// check whose elapsed time reaches the budget: that time is at least the
/// budget, and less than the budget plus one poll interval plus that check's
/// fetch.
pub proof fn lemma_poll_timeout_window(opts: PollOptions, fetch: Seq<nat>, k: int)
    requires
        0 <= k < fetch.len(),
        forall|j: int| 0 <= j < k ==> #[trigger] check_time(interval_of(opts) as nat, fetch, j) < timeout_of(opts),
        check_time(interval_of(opts) as nat, fetch, k) >= timeout_of(opts),
    ensures
        timeout_of(opts) <= check_time(interval_of(opts) as nat, fetch, k),
        check_time(interval_of(opts) as nat, fetch, k) < timeout_of(opts) + interval_of(opts) + fetch[k],
{
    if k > 0 {
        assert(check_time(interval_of(opts) as nat, fetch, k - 1) < timeout_of(opts));
    }
}

/// The id that `submit_task` hands back is the daemon's, unchanged; the
/// status request for it carries that id, and a status reply that echoes the
/// id yields a snapshot whose `task_id` is that same id.
pub proof fn lemma_task_id_round_trip(
    submit_reply: Json,
    submitted: Seq<char>,
    status_reply: Json,
    snap: TaskSnapshot,
)
    requires
        reply_ok(submit_reply),
        submitted == submitted_id(submit_reply),
        submitted.len() > 0,
        reply_ok(status_reply),
        task_object(status_reply) is Some,
        text_or(field(task_object(status_reply)->0, "task_id"@), ""@) == submitted,
        snapshot_of(snap, task_object(status_reply)->0, status_reply),
    ensures
        snap.task_id@ == submitted_id(submit_reply),
{
}

} // verus!
