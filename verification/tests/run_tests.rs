use supervised_run::outcome::{classify, LogPaths, OutcomeKind, RunOutcome, SpawnStatus};
use supervised_run::sink::{rendered_line, tee_merge, LogSink, StreamKind};
use supervised_run::supervisor::{
    supervise, supervisor_step, Poll, PollEvent, SupervisorAction, SupervisorState,
};

fn strings(items: &[&str]) -> Vec<String> {
    items.iter().map(|s| s.to_string()).collect()
}

fn paths() -> LogPaths {
    LogPaths {
        log_file: "logs/shrinkwrap-build.log".to_string(),
        console_mirror: "logs/console.log".to_string(),
    }
}

fn sink_lines(sink: &LogSink, kind: StreamKind) -> Vec<String> {
    let mut lines = Vec::new();
    let mut idx = 0;
    while idx < sink.len() {
        if sink.stream_at(idx) == kind {
            lines.push(sink.line_at(idx).clone());
        }
        idx += 1;
    }
    lines
}

#[test]
fn immediate_zero_exit_is_success() {
    let polls = vec![Poll { event: PollEvent::Exited { exit_code: 0 }, elapsed_ms: 5 }];
    let terminal = supervise(&polls, Some(600_000));
    assert_eq!(terminal, SupervisorState::Completed { exit_code: 0 });
    let outcome = classify(SpawnStatus::Spawned, terminal, paths());
    assert!(outcome.is_pass());
    assert!(matches!(outcome.kind, OutcomeKind::Success));
    assert_eq!(outcome.logs.log_file, "logs/shrinkwrap-build.log");
    assert_eq!(outcome.logs.console_mirror, "logs/console.log");
}

#[test]
fn nonzero_exit_is_reported_with_code() {
    let polls = vec![
        Poll { event: PollEvent::StillAlive, elapsed_ms: 10 },
        Poll { event: PollEvent::Exited { exit_code: 7 }, elapsed_ms: 20 },
    ];
    let terminal = supervise(&polls, None);
    assert_eq!(terminal, SupervisorState::Completed { exit_code: 7 });
    let outcome = classify(SpawnStatus::Spawned, terminal, paths());
    assert!(!outcome.is_pass());
    assert!(matches!(outcome.kind, OutcomeKind::NonZeroExit { exit_code: 7 }));
}

#[test]
fn forever_looping_process_times_out() {
    // The process never exits; the budget is one time-unit (1 ms here).
    let polls = vec![
        Poll { event: PollEvent::StillAlive, elapsed_ms: 0 },
        Poll { event: PollEvent::StillAlive, elapsed_ms: 1 },
        Poll { event: PollEvent::StillAlive, elapsed_ms: 2 },
    ];
    let terminal = supervise(&polls, Some(1));
    // The supervisor reaches Killed only via its kill-and-reap action, so
    // the process is confirmed terminated; the recorded time is just past
    // the budget.
    assert_eq!(terminal, SupervisorState::Killed { elapsed_ms: 2 });
    let outcome = classify(SpawnStatus::Spawned, terminal, paths());
    assert!(matches!(outcome.kind, OutcomeKind::TimedOut { elapsed_ms: 2 }));
}

#[test]
fn kill_and_reap_is_demanded_exactly_when_budget_overruns() {
    let (next, action) =
        supervisor_step(SupervisorState::Running, PollEvent::StillAlive, 5, Some(4));
    assert_eq!(next, SupervisorState::Killed { elapsed_ms: 5 });
    assert_eq!(action, SupervisorAction::KillAndReap);

    let (next, action) =
        supervisor_step(SupervisorState::Running, PollEvent::StillAlive, 4, Some(4));
    assert_eq!(next, SupervisorState::Running);
    assert_eq!(action, SupervisorAction::KeepPolling);

    let (next, action) =
        supervisor_step(SupervisorState::Running, PollEvent::StillAlive, u64::MAX, None);
    assert_eq!(next, SupervisorState::Running);
    assert_eq!(action, SupervisorAction::KeepPolling);
}

#[test]
fn terminal_states_are_final() {
    let done = SupervisorState::Completed { exit_code: 3 };
    let (next, action) = supervisor_step(done, PollEvent::StillAlive, 99, Some(1));
    assert_eq!(next, done);
    assert_eq!(action, SupervisorAction::Finish);

    let killed = SupervisorState::Killed { elapsed_ms: 8 };
    let (next, action) =
        supervisor_step(killed, PollEvent::Exited { exit_code: 0 }, 100, Some(1));
    assert_eq!(next, killed);
    assert_eq!(action, SupervisorAction::Finish);
}

#[test]
fn spawn_failure_keeps_reason_and_logs() {
    let outcome = classify(
        SpawnStatus::FailedToSpawn { reason: "no such file".to_string() },
        SupervisorState::Running,
        paths(),
    );
    assert!(matches!(outcome.kind, OutcomeKind::SpawnFailed { ref reason } if reason == "no such file"));
    // No tee worker ever ran, so a fresh sink shows no process output.
    let sink = LogSink::new();
    assert_eq!(sink.len(), 0);
    assert_eq!(outcome.logs.log_file, "logs/shrinkwrap-build.log");
}

#[test]
fn one_line_each_stream_lands_once_in_some_order() {
    let outs = strings(&["line1"]);
    let errs = strings(&["err1"]);
    let sched = vec![StreamKind::Stdout, StreamKind::Stderr];
    let sink = tee_merge(&outs, &errs, &sched);
    assert_eq!(sink.len(), 2);
    assert_eq!(sink_lines(&sink, StreamKind::Stdout), strings(&["line1"]));
    assert_eq!(sink_lines(&sink, StreamKind::Stderr), strings(&["err1"]));

    // The reverse interleaving also lands both lines exactly once.
    let sched = vec![StreamKind::Stderr, StreamKind::Stdout];
    let sink = tee_merge(&outs, &errs, &sched);
    assert_eq!(sink.len(), 2);
    assert_eq!(sink_lines(&sink, StreamKind::Stdout), strings(&["line1"]));
    assert_eq!(sink_lines(&sink, StreamKind::Stderr), strings(&["err1"]));
}

#[test]
fn tee_keeps_per_stream_order_under_any_interleaving() {
    let outs = strings(&["o1", "o2", "o3"]);
    let errs = strings(&["e1", "e2"]);
    let sched = vec![
        StreamKind::Stderr,
        StreamKind::Stdout,
        StreamKind::Stdout,
        StreamKind::Stderr,
        StreamKind::Stdout,
    ];
    let sink = tee_merge(&outs, &errs, &sched);
    assert_eq!(sink.len(), 5);
    assert_eq!(sink_lines(&sink, StreamKind::Stdout), outs);
    assert_eq!(sink_lines(&sink, StreamKind::Stderr), errs);
}

#[test]
fn tee_of_a_silent_process_is_empty() {
    let none: Vec<String> = Vec::new();
    let sched: Vec<StreamKind> = Vec::new();
    let sink = tee_merge(&none, &none, &sched);
    assert_eq!(sink.len(), 0);
}

#[test]
fn appends_are_retained_in_order() {
    let mut sink = LogSink::new();
    sink.append(StreamKind::Stdout, "first".to_string());
    sink.append(StreamKind::Stderr, "noise".to_string());
    sink.append(StreamKind::Stdout, "second".to_string());
    assert_eq!(sink.len(), 3);
    assert_eq!(sink_lines(&sink, StreamKind::Stdout), strings(&["first", "second"]));
    assert_eq!(sink_lines(&sink, StreamKind::Stderr), strings(&["noise"]));
}

#[test]
fn rendered_lines_mark_stderr_only() {
    assert_eq!(rendered_line(StreamKind::Stdout, "hello"), "hello");
    assert_eq!(rendered_line(StreamKind::Stderr, "oops"), "STDERR: oops");
}

#[test]
fn summary_names_kind_and_both_logs() {
    let outcome = RunOutcome { kind: OutcomeKind::TimedOut { elapsed_ms: 9 }, logs: paths() };
    assert_eq!(
        outcome.summary(),
        "timed out (logs: logs/shrinkwrap-build.log, logs/console.log)"
    );
    let outcome = RunOutcome { kind: OutcomeKind::Success, logs: paths() };
    assert_eq!(
        outcome.summary(),
        "success (logs: logs/shrinkwrap-build.log, logs/console.log)"
    );
}
