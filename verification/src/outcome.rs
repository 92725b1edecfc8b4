//! Classification of one supervised run into a single structured outcome.
//!
//! A run produces exactly one [`RunOutcome`], built only after the
//! supervisor has reached a terminal state (or the spawn itself failed),
//! and it always carries the paths of both log files, so every failure
//! stays diagnosable after the step returns.

use crate::sink::{stream_lines, StreamKind};
use crate::supervisor::{supervise_spec, Poll, PollEvent, SupervisorState};
use vstd::prelude::*;

verus! {

/// The destinations of one run's output: the durable log file and the
/// combined console-mirror log file.
#[derive(Debug, Clone)]
pub struct LogPaths {
    pub log_file: String,
    pub console_mirror: String,
}

/// Whether the process could be started at all.
#[derive(Debug, Clone)]
pub enum SpawnStatus {
    /// The OS created the process and handed back its pipes.
    Spawned,
    /// The executable could not be located or the OS refused to create
    /// the process. Terminal; never retried.
    FailedToSpawn { reason: String },
}

/// The tag of one run's outcome.
#[derive(Debug, Clone)]
pub enum OutcomeKind {
    /// The process exited by itself with code zero.
    Success,
    /// The process exited by itself with a nonzero code.
    NonZeroExit { exit_code: i32 },
    /// The process overran its budget and was killed and reaped; the
    /// wall-clock time since spawn is recorded.
    TimedOut { elapsed_ms: u64 },
    /// The process never started.
    SpawnFailed { reason: String },
}

/// The structured result of one supervised run. Whatever the tag, the
/// log paths ride along.
#[derive(Debug, Clone)]
pub struct RunOutcome {
    pub kind: OutcomeKind,
    pub logs: LogPaths,
}

/// How spawn result and terminal supervisor state map to an outcome tag:
/// a failed spawn is `SpawnFailed`; a kill is `TimedOut`; a natural exit
/// is `Success` on code zero and `NonZeroExit` otherwise. A still-running
/// process has no outcome.
pub open spec fn classify_kind(spawn: SpawnStatus, terminal: SupervisorState) -> OutcomeKind {
    match spawn {
        SpawnStatus::FailedToSpawn { reason } => OutcomeKind::SpawnFailed { reason },
        SpawnStatus::Spawned => match terminal {
            SupervisorState::Killed { elapsed_ms } => OutcomeKind::TimedOut { elapsed_ms },
            SupervisorState::Completed { exit_code } => if exit_code == 0 {
                OutcomeKind::Success
            } else {
                OutcomeKind::NonZeroExit { exit_code }
            },
            SupervisorState::Running => arbitrary(),
        },
    }
}

/// Convert exit status, spawn result and timeout state into the one
/// `RunOutcome` of the run. Demands a terminal state: no outcome exists
/// while the process may still be running.
pub fn classify(spawn: SpawnStatus, terminal: SupervisorState, logs: LogPaths) -> (r: RunOutcome)
    requires
        spawn is Spawned ==> !(terminal is Running),
    ensures
        r.kind == classify_kind(spawn, terminal),
        r.logs == logs,
{
    let kind = match spawn {
        SpawnStatus::FailedToSpawn { reason } => OutcomeKind::SpawnFailed { reason },
        SpawnStatus::Spawned => match terminal {
            SupervisorState::Killed { elapsed_ms } => OutcomeKind::TimedOut { elapsed_ms },
            SupervisorState::Completed { exit_code } => if exit_code == 0 {
                OutcomeKind::Success
            } else {
                OutcomeKind::NonZeroExit { exit_code }
            },
            // Excluded by the precondition: a running process has no
            // outcome to classify.
            SupervisorState::Running => OutcomeKind::Success,
        },
    };
    RunOutcome { kind, logs }
}

/// The short name of an outcome tag.
pub open spec fn kind_label_spec(kind: OutcomeKind) -> Seq<char> {
    match kind {
        OutcomeKind::Success => "success"@,
        OutcomeKind::NonZeroExit { .. } => "non-zero exit"@,
        OutcomeKind::TimedOut { .. } => "timed out"@,
        OutcomeKind::SpawnFailed { .. } => "spawn failed"@,
    }
}

/// The single-line summary of one run: the outcome kind and both log
/// file locations. Full diagnostic detail lives in the log files.
pub open spec fn summary_spec(outcome: RunOutcome) -> Seq<char> {
    kind_label_spec(outcome.kind) + " (logs: "@ + outcome.logs.log_file@ + ", "@
        + outcome.logs.console_mirror@ + ")"@
}

impl RunOutcome {
    /// Only `Success` counts as a pass; every other tag is reported and
    /// propagated as a step failure.
    pub fn is_pass(&self) -> (r: bool)
        ensures
            r == (self.kind is Success),
    {
        match self.kind {
            OutcomeKind::Success => true,
            _ => false,
        }
    }

    /// Render the single-line summary the calling step reports on any
    /// non-`Success` outcome.
    pub fn summary(&self) -> (r: String)
        ensures
            r@ == summary_spec(*self),
    {
        let mut s = match self.kind {
            OutcomeKind::Success => "success".to_owned(),
            OutcomeKind::NonZeroExit { .. } => "non-zero exit".to_owned(),
            OutcomeKind::TimedOut { .. } => "timed out".to_owned(),
            OutcomeKind::SpawnFailed { .. } => "spawn failed".to_owned(),
        };
        s.append(" (logs: ");
        s.append(self.logs.log_file.as_str());
        s.append(", ");
        s.append(self.logs.console_mirror.as_str());
        s.append(")");
        s
    }
}

/// An executable that exits with code zero at the first poll is
/// classified `Success`, whatever the timeout and whatever later polls
/// would have reported.
pub proof fn lemma_immediate_zero_exit_succeeds(polls: Seq<Poll>, timeout_ms: Option<u64>)
    requires
        polls.len() > 0,
        polls[0].event == (PollEvent::Exited { exit_code: 0i32 }),
    ensures
        classify_kind(SpawnStatus::Spawned, supervise_spec(polls, timeout_ms)) is Success,
{
    crate::supervisor::lemma_first_exit_completes(polls, 0i32, timeout_ms);
}

/// A run whose supervisor ended in `Killed` is classified `TimedOut`,
/// and the elapsed time it reports exceeds the configured budget. The
/// supervisor enters `Killed` only through its kill-and-reap action, so
/// the process is no longer running when this outcome is formed.
pub proof fn lemma_timeout_classified(polls: Seq<Poll>, t: u64)
    requires
        supervise_spec(polls, Some(t)) is Killed,
    ensures
        classify_kind(SpawnStatus::Spawned, supervise_spec(polls, Some(t))) matches
            OutcomeKind::TimedOut { elapsed_ms } && elapsed_ms > t,
{
    crate::supervisor::lemma_killed_exceeds_timeout(polls, t);
}

/// A failed spawn is classified `SpawnFailed` with the reason kept, and
/// a log that no tee worker ever appended to shows no process output on
/// either stream.
pub proof fn lemma_spawn_failure_outcome(reason: String, state: SupervisorState, k: StreamKind)
    ensures
        classify_kind(SpawnStatus::FailedToSpawn { reason }, state) == (OutcomeKind::SpawnFailed {
            reason,
        }),
        stream_lines(Seq::<(StreamKind, Seq<char>)>::empty(), k) == Seq::<Seq<char>>::empty(),
{
}

} // verus!
