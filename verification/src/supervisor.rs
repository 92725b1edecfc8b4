//! The timeout supervisor: a state machine over the lifecycle of one
//! spawned process.
//!
//! The caller owns the process handle and runs the polling loop: it makes
//! a non-blocking liveness check, measures the wall-clock time since
//! spawn, and hands both to [`supervisor_step`], which decides the next
//! state and the action to perform — keep polling, or kill and then reap
//! the process, or finish. The two terminal states, `Completed` and
//! `Killed`, are final: no event moves the machine out of them, so no
//! outcome is derived while the process might still be running.

use vstd::prelude::*;

verus! {

/// Where one supervised process stands.
#[derive(Debug, Clone, Copy, PartialEq, Eq, Structural)]
pub enum SupervisorState {
    /// Spawned and not yet observed to have exited.
    Running,
    /// Observed exited by itself; the exit code is recorded.
    Completed { exit_code: i32 },
    /// Overran its budget: a termination request was sent and the process
    /// reaped; the wall-clock time since spawn is recorded.
    Killed { elapsed_ms: u64 },
}

/// What one non-blocking liveness check reported.
#[derive(Debug, Clone, Copy, PartialEq, Eq, Structural)]
pub enum PollEvent {
    /// The process had not exited yet.
    StillAlive,
    /// The process had exited with this code.
    Exited { exit_code: i32 },
}

/// What the caller must do after a step.
#[derive(Debug, Clone, Copy, PartialEq, Eq, Structural)]
pub enum SupervisorAction {
    /// Sleep briefly, poll again.
    KeepPolling,
    /// Send a termination request, then block until the process is
    /// reaped, so that no zombie outlives the run.
    KillAndReap,
    /// The state is terminal; stop the loop.
    Finish,
}

/// One poll of the liveness check, together with the wall-clock time
/// since spawn at which it was made, in milliseconds.
#[derive(Debug, Clone, Copy, PartialEq, Eq, Structural)]
pub struct Poll {
    pub event: PollEvent,
    pub elapsed_ms: u64,
}

/// Whether a configured budget has run out. `None` means unbounded: the
/// supervisor then never kills.
pub open spec fn timeout_expired(elapsed_ms: u64, timeout_ms: Option<u64>) -> bool {
    timeout_ms matches Some(t) && elapsed_ms > t
}

/// The transition relation of the supervisor, one poll at a time.
pub open spec fn step_spec(
    state: SupervisorState,
    event: PollEvent,
    elapsed_ms: u64,
    timeout_ms: Option<u64>,
) -> (SupervisorState, SupervisorAction) {
    match state {
        SupervisorState::Running => match event {
            PollEvent::Exited { exit_code } => (
                SupervisorState::Completed { exit_code },
                SupervisorAction::Finish,
            ),
            PollEvent::StillAlive => if timeout_expired(elapsed_ms, timeout_ms) {
                (SupervisorState::Killed { elapsed_ms }, SupervisorAction::KillAndReap)
            } else {
                (SupervisorState::Running, SupervisorAction::KeepPolling)
            },
        },
        _ => (state, SupervisorAction::Finish),
    }
}

/// Take one step: from the current state and what the liveness check
/// just reported, decide the next state and the caller's action.
pub fn supervisor_step(
    state: SupervisorState,
    event: PollEvent,
    elapsed_ms: u64,
    timeout_ms: Option<u64>,
) -> (r: (SupervisorState, SupervisorAction))
    ensures
        r == step_spec(state, event, elapsed_ms, timeout_ms),
{
    match state {
        SupervisorState::Running => match event {
            PollEvent::Exited { exit_code } => (
                SupervisorState::Completed { exit_code },
                SupervisorAction::Finish,
            ),
            PollEvent::StillAlive => {
                let expired = match timeout_ms {
                    Some(t) => elapsed_ms > t,
                    None => false,
                };
                if expired {
                    (SupervisorState::Killed { elapsed_ms }, SupervisorAction::KillAndReap)
                } else {
                    (SupervisorState::Running, SupervisorAction::KeepPolling)
                }
            },
        },
        _ => (state, SupervisorAction::Finish),
    }
}

/// The state after a whole sequence of polls, starting from `Running`
/// right after spawn.
pub open spec fn supervise_spec(polls: Seq<Poll>, timeout_ms: Option<u64>) -> SupervisorState
    decreases polls.len(),
{
    if polls.len() == 0 {
        SupervisorState::Running
    } else {
        step_spec(
            supervise_spec(polls.drop_last(), timeout_ms),
            polls.last().event,
            polls.last().elapsed_ms,
            timeout_ms,
        ).0
    }
}

/// Drive the supervisor over a recorded sequence of polls.
pub fn supervise(polls: &Vec<Poll>, timeout_ms: Option<u64>) -> (r: SupervisorState)
    ensures
        r == supervise_spec(polls@, timeout_ms),
{
    let mut state = SupervisorState::Running;
    let mut n: usize = 0;
    while n < polls.len()
        invariant
            n <= polls.len(),
            state == supervise_spec(polls@.take(n as int), timeout_ms),
        decreases polls.len() - n,
    {
        let p = polls[n];
        let (next, _action) = supervisor_step(state, p.event, p.elapsed_ms, timeout_ms);
        state = next;
        n = n + 1;
        proof {
            assert(polls@.take(n as int).drop_last() =~= polls@.take(n - 1));
        }
    }
    proof {
        assert(polls@.take(polls@.len() as int) =~= polls@);
    }
    state
}

/// Both terminal states are final: once `Completed` or `Killed`, every
/// further event leaves the state unchanged and asks the caller to finish.
pub proof fn lemma_terminal_states_final(
    state: SupervisorState,
    event: PollEvent,
    elapsed_ms: u64,
    timeout_ms: Option<u64>,
)
    requires
        state !is Running,
    ensures
        step_spec(state, event, elapsed_ms, timeout_ms) == (state, SupervisorAction::Finish),
{
}

/// The machine enters `Killed` exactly when it demands the kill-and-reap
/// action, whose blocking reap the caller completes before taking another
/// step: a `Killed` state is never observed with the process still
/// running.
pub proof fn lemma_kill_paired_with_reap(
    state: SupervisorState,
    event: PollEvent,
    elapsed_ms: u64,
    timeout_ms: Option<u64>,
)
    requires
        state !is Killed,
    ensures
        step_spec(state, event, elapsed_ms, timeout_ms).0 is Killed <==> step_spec(
            state,
            event,
            elapsed_ms,
            timeout_ms,
        ).1 == SupervisorAction::KillAndReap,
{
}

/// With no timeout configured the supervisor never kills: whatever the
/// polls report, the machine is `Running` or `Completed`.
pub proof fn lemma_unbounded_never_kills(polls: Seq<Poll>)
    ensures
        supervise_spec(polls, None) !is Killed,
    decreases polls.len(),
{
    if polls.len() > 0 {
        lemma_unbounded_never_kills(polls.drop_last());
    }
}

/// A kill only happens past the budget: a `Killed` terminal state records
/// a wall-clock time that exceeds the configured timeout.
pub proof fn lemma_killed_exceeds_timeout(polls: Seq<Poll>, t: u64)
    requires
        supervise_spec(polls, Some(t)) is Killed,
    ensures
        supervise_spec(polls, Some(t))->elapsed_ms > t,
    decreases polls.len(),
{
    if polls.len() > 0 {
        let prev = supervise_spec(polls.drop_last(), Some(t));
        if prev is Killed {
            lemma_killed_exceeds_timeout(polls.drop_last(), t);
        }
    }
}

/// A process observed to exit on the first poll completes with that exit
/// code, whatever later polls report and whatever the timeout: exiting
/// promptly always beats the budget.
pub proof fn lemma_first_exit_completes(polls: Seq<Poll>, code: i32, timeout_ms: Option<u64>)
    requires
        polls.len() > 0,
        polls[0].event == (PollEvent::Exited { exit_code: code }),
    ensures
        supervise_spec(polls, timeout_ms) == (SupervisorState::Completed { exit_code: code }),
    decreases polls.len(),
{
    let prev = supervise_spec(polls.drop_last(), timeout_ms);
    assert(supervise_spec(polls, timeout_ms) == step_spec(
        prev,
        polls.last().event,
        polls.last().elapsed_ms,
        timeout_ms,
    ).0);
    if polls.len() > 1 {
        assert(polls.drop_last()[0] == polls[0]);
        lemma_first_exit_completes(polls.drop_last(), code, timeout_ms);
    } else {
        assert(polls.last() == polls[0]);
        assert(polls.drop_last().len() == 0);
        assert(prev == SupervisorState::Running);
    }
}

} // verus!
