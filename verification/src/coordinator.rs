use vstd::prelude::*;

verus! {

/// How long the launch coordinator waits for the endpoint to appear.
pub const LAUNCH_DEADLINE_MS: u64 = 10000;

/// How long the coordinator sleeps between two polls.
pub const POLL_INTERVAL_MS: u64 = 100;

/// What one poll iteration of the launch coordinator decides. The wait loop
/// runs on the caller's thread: each iteration reads the shared slot, makes
/// a non-blocking liveness check on the child process, looks at the clock,
/// and takes exactly one of these four branches.
#[derive(Debug, Clone, PartialEq, Eq)]
pub enum PollOutcome {
    /// The slot holds the endpoint: terminal success, assemble the handle.
    Ready(String),
    /// The process exited before announcing an endpoint: terminal failure.
    DiedEarly,
    /// The deadline elapsed with no endpoint published: terminal failure.
    TimedOut,
    /// Nothing decisive yet: sleep one interval and poll again.
    KeepWaiting,
}

/// The decision of one poll iteration. The branches are ordered: a
/// published endpoint first — success takes priority over an observed exit,
/// since a browser may print its endpoint and then exit for unrelated
/// reasons during shutdown — then early exit, then the deadline, and only
/// then another wait.
pub open spec fn spec_poll(
    slot: Option<String>,
    process_exited: bool,
    elapsed_ms: u64,
    deadline_ms: u64,
) -> PollOutcome {
    match slot {
        Some(url) => PollOutcome::Ready(url),
        None => if process_exited {
            PollOutcome::DiedEarly
        } else if elapsed_ms >= deadline_ms {
            PollOutcome::TimedOut
        } else {
            PollOutcome::KeepWaiting
        },
    }
}

/// One poll iteration, from the three observations to the decision.
pub fn poll_step(slot: Option<String>, process_exited: bool, elapsed_ms: u64, deadline_ms: u64) -> (r:
    PollOutcome)
    ensures
        r == spec_poll(slot, process_exited, elapsed_ms, deadline_ms),
{
    match slot {
        Some(url) => PollOutcome::Ready(url),
        None => {
            if process_exited {
                PollOutcome::DiedEarly
            } else if elapsed_ms >= deadline_ms {
                PollOutcome::TimedOut
            } else {
                PollOutcome::KeepWaiting
            }
        },
    }
}

/// A whole wait, replayed over a recorded trace. Each element holds what
/// one poll iteration observed: the slot, the liveness check, and the
/// clock. The wait's outcome is the first decisive poll's decision; a trace
/// whose every poll keeps waiting has decided nothing yet.
pub open spec fn spec_wait(obs: Seq<(Option<String>, bool, u64)>, deadline_ms: u64) -> PollOutcome
    decreases obs.len()
{
    if obs.len() == 0 {
        PollOutcome::KeepWaiting
    } else {
        let d = spec_poll(obs[0].0, obs[0].1, obs[0].2, deadline_ms);
        if d == PollOutcome::KeepWaiting {
            spec_wait(obs.drop_first(), deadline_ms)
        } else {
            d
        }
    }
}

/// Indecisive polls at the head of the trace do not change the outcome.
proof fn lemma_wait_skip(obs: Seq<(Option<String>, bool, u64)>, deadline_ms: u64, i: int)
    requires
        0 <= i <= obs.len(),
        forall|j: int| 0 <= j < i ==> spec_poll(obs[j].0, obs[j].1, obs[j].2, deadline_ms)
            == PollOutcome::KeepWaiting,
    ensures
        spec_wait(obs, deadline_ms) == spec_wait(obs.subrange(i, obs.len() as int), deadline_ms),
    decreases i,
{
    if i > 0 {
        let rest = obs.drop_first();
        assert(forall|j: int| 0 <= j < i - 1 ==> spec_poll(
            rest[j].0,
            rest[j].1,
            rest[j].2,
            deadline_ms,
        ) == PollOutcome::KeepWaiting);
        lemma_wait_skip(rest, deadline_ms, i - 1);
        assert(rest.subrange(i - 1, rest.len() as int) =~= obs.subrange(i, obs.len() as int));
    } else {
        assert(obs.subrange(0, obs.len() as int) =~= obs);
    }
}

/// The wait loop, replayed over a recorded trace of observations: polls in
/// order, and stops at the first decisive one.
pub fn run_wait(obs: &Vec<(Option<String>, bool, u64)>, deadline_ms: u64) -> (r: PollOutcome)
    ensures
        r == spec_wait(obs@, deadline_ms),
{
    let n: usize = obs.len();
    let mut i: usize = 0;
    while i < n
        invariant
            n == obs@.len(),
            i <= n,
            forall|j: int| 0 <= j < i ==> spec_poll(obs@[j].0, obs@[j].1, obs@[j].2, deadline_ms)
                == PollOutcome::KeepWaiting,
        decreases n - i,
    {
        let observed = match &obs[i].0 {
            Some(u) => Some(u.clone()),
            None => None,
        };
        let d = poll_step(observed, obs[i].1, obs[i].2, deadline_ms);
        match d {
            PollOutcome::KeepWaiting => {},
            decisive => {
                proof {
                    lemma_wait_skip(obs@, deadline_ms, i as int);
                    let rest = obs@.subrange(i as int, obs@.len() as int);
                    assert(rest[0] == obs@[i as int]);
                }
                return decisive;
            },
        }
        i = i + 1;
    }
    proof {
        lemma_wait_skip(obs@, deadline_ms, n as int);
    }
    PollOutcome::KeepWaiting
}

/// A wait that observes no endpoint and no exit does not fail before the
/// deadline: while every poll's clock is below it, nothing is decided — no
/// timeout, no other failure.
pub proof fn lemma_wait_never_fails_early(obs: Seq<(Option<String>, bool, u64)>, deadline_ms: u64)
    requires
        forall|j: int| 0 <= j < obs.len() ==> obs[j].0 is None && !obs[j].1 && obs[j].2
            < deadline_ms,
    ensures
        spec_wait(obs, deadline_ms) == PollOutcome::KeepWaiting,
{
    assert(forall|j: int| 0 <= j < obs.len() ==> spec_poll(obs[j].0, obs[j].1, obs[j].2, deadline_ms)
        == PollOutcome::KeepWaiting);
    lemma_wait_skip(obs, deadline_ms, obs.len() as int);
}

/// A wait whose stream never matches while the process keeps running times
/// out at the first poll at or past the deadline — not earlier, and at no
/// later poll: the outcome of the whole wait is the timeout failure.
pub proof fn lemma_wait_times_out_at_deadline(
    obs: Seq<(Option<String>, bool, u64)>,
    deadline_ms: u64,
    k: int,
)
    requires
        forall|j: int| 0 <= j <= k ==> obs[j].0 is None && !obs[j].1,
        0 <= k < obs.len(),
        obs[k].2 >= deadline_ms,
        forall|j: int| 0 <= j < k ==> obs[j].2 < deadline_ms,
    ensures
        spec_wait(obs, deadline_ms) == PollOutcome::TimedOut,
{
    assert(forall|j: int| 0 <= j < k ==> spec_poll(obs[j].0, obs[j].1, obs[j].2, deadline_ms)
        == PollOutcome::KeepWaiting);
    lemma_wait_skip(obs, deadline_ms, k);
    let rest = obs.subrange(k, obs.len() as int);
    assert(rest[0] == obs[k]);
    assert(spec_poll(obs[k].0, obs[k].1, obs[k].2, deadline_ms) == PollOutcome::TimedOut);
}

/// A wait that observes the exit of the process with nothing published
/// fails as an early death at that very poll, however far the deadline
/// still is.
pub proof fn lemma_wait_fails_fast_on_exit(
    obs: Seq<(Option<String>, bool, u64)>,
    deadline_ms: u64,
    k: int,
)
    requires
        forall|j: int| 0 <= j <= k ==> obs[j].0 is None,
        0 <= k < obs.len(),
        obs[k].1,
        forall|j: int| 0 <= j < k ==> !obs[j].1 && obs[j].2 < deadline_ms,
    ensures
        spec_wait(obs, deadline_ms) == PollOutcome::DiedEarly,
{
    assert(forall|j: int| 0 <= j < k ==> spec_poll(obs[j].0, obs[j].1, obs[j].2, deadline_ms)
        == PollOutcome::KeepWaiting);
    lemma_wait_skip(obs, deadline_ms, k);
    let rest = obs.subrange(k, obs.len() as int);
    assert(rest[0] == obs[k]);
    assert(spec_poll(obs[k].0, obs[k].1, obs[k].2, deadline_ms) == PollOutcome::DiedEarly);
}

/// Turns the terminal decision of the wait loop into what the launch
/// returns: the endpoint on success, the endpoint-not-found error on a
/// timeout, and a launch failure naming the unexpected exit when the
/// process died early. The non-terminal decision never reaches this point.
pub fn outcome_to_result(outcome: PollOutcome) -> (r: Result<String, crate::error::WebIntelError>)
    requires
        outcome != PollOutcome::KeepWaiting,
    ensures
        outcome matches PollOutcome::Ready(u) ==> r == Ok::<String, crate::error::WebIntelError>(u),
        outcome == PollOutcome::TimedOut ==> r == Err::<String, crate::error::WebIntelError>(
            crate::error::WebIntelError::WebSocketUrlNotFound,
        ),
        outcome == PollOutcome::DiedEarly ==> (r matches Err(e) && e matches
            crate::error::WebIntelError::LaunchFailure(m) && m@
            == "Browser process exited unexpectedly"@),
{
    match outcome {
        PollOutcome::Ready(u) => Ok(u),
        PollOutcome::TimedOut => Err(crate::error::WebIntelError::WebSocketUrlNotFound),
        PollOutcome::DiedEarly => Err(
            crate::error::WebIntelError::LaunchFailure(
                String::from_str("Browser process exited unexpectedly"),
            ),
        ),
        PollOutcome::KeepWaiting => unreached(),
    }
}

/// While the stream has announced nothing and the process keeps running,
/// the coordinator neither fails nor succeeds before the deadline, and at
/// the first poll at or past the deadline it fails with the
/// endpoint-not-found outcome, no other. So the wait ends at the deadline:
/// not earlier, and no later than the first poll past it.
pub proof fn lemma_timeout_at_deadline(elapsed_ms: u64, deadline_ms: u64)
    ensures
        elapsed_ms < deadline_ms ==> spec_poll(None, false, elapsed_ms, deadline_ms)
            == PollOutcome::KeepWaiting,
        elapsed_ms >= deadline_ms ==> spec_poll(None, false, elapsed_ms, deadline_ms)
            == PollOutcome::TimedOut,
{
}

/// A process observed to have exited with nothing published fails the
/// launch at that very poll, however little of the deadline has elapsed:
/// the early-death failure never waits for the timeout.
pub proof fn lemma_early_exit_is_immediate(elapsed_ms: u64, deadline_ms: u64)
    ensures
        spec_poll(None, true, elapsed_ms, deadline_ms) == PollOutcome::DiedEarly,
{
}

/// A published endpoint decides the iteration as success whatever else was
/// observed: even a process exit or an expired deadline in the same window
/// does not override it.
pub proof fn lemma_success_takes_priority(
    url: String,
    process_exited: bool,
    elapsed_ms: u64,
    deadline_ms: u64,
)
    ensures
        spec_poll(Some(url), process_exited, elapsed_ms, deadline_ms) == PollOutcome::Ready(url),
{
}

} // verus!
