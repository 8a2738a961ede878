use git_utils::poller::{classify_status, run_session, Action, ObservationKind, PollSession, PollState, StatusKind, DEFAULT_INTERVAL_SECS};
use git_utils::workflow::{parse_latest_run, WorkflowError, WorkflowRun};

fn run(status: &str) -> WorkflowRun {
    WorkflowRun {
        name: "CI".to_string(),
        status: status.to_string(),
        conclusion: None,
        created_at: "2024-01-01T00:00:00Z".to_string(),
        updated_at: "2024-01-01T00:05:00Z".to_string(),
    }
}

#[test]
fn classify_known_and_unknown() {
    assert_eq!(classify_status("queued"), StatusKind::Pending);
    assert_eq!(classify_status("in_progress"), StatusKind::Pending);
    assert_eq!(classify_status("waiting"), StatusKind::Pending);
    assert_eq!(classify_status("completed"), StatusKind::Completed);
    assert_eq!(classify_status("requested"), StatusKind::Unrecognized);
    assert_eq!(classify_status("Completed"), StatusKind::Unrecognized);
    assert_eq!(classify_status(""), StatusKind::Unrecognized);
}

#[test]
fn pending_statuses_keep_polling() {
    for s in ["queued", "in_progress", "waiting"] {
        let mut session = PollSession::new(DEFAULT_INTERVAL_SECS);
        let step = session.on_fetch(Ok(run(s)));
        assert_eq!(session.state, PollState::Polling);
        assert!(!session.is_terminal());
        assert_eq!(session.attempts, 1);
        assert!(matches!(step.action, Action::FetchAfter(20)));
        let ob = step.observation.unwrap();
        assert_eq!(ob.kind, ObservationKind::Progress);
        assert_eq!(ob.name, "CI");
        assert_eq!(ob.status, s);
    }
}

#[test]
fn completed_stops() {
    let mut session = PollSession::new(7);
    let step = session.on_fetch(Ok(run("completed")));
    assert_eq!(session.state, PollState::Completed);
    assert!(session.is_terminal());
    assert!(matches!(step.action, Action::Stop));
    assert_eq!(step.observation.unwrap().kind, ObservationKind::Completion);
    assert_eq!(session.last.unwrap().status, "completed");
}

#[test]
fn unknown_status_stops_with_warning() {
    let mut session = PollSession::new(7);
    let step = session.on_fetch(Ok(run("action_required")));
    assert_eq!(session.state, PollState::Other);
    assert!(matches!(step.action, Action::Stop));
    let ob = step.observation.unwrap();
    assert_eq!(ob.kind, ObservationKind::Warning);
    assert_eq!(ob.status, "action_required");
}

#[test]
fn failed_fetch_aborts() {
    let mut session = PollSession::new(7);
    let step = session.on_fetch(Err(WorkflowError::Transport("timed out".to_string())));
    assert_eq!(session.state, PollState::Failed);
    assert!(step.observation.is_none());
    assert!(matches!(step.action, Action::Abort(WorkflowError::Transport(ref m)) if m == "timed out"));
}

#[test]
fn queued_in_progress_completed_scenario() {
    let trace = run_session(20, vec![Ok(run("queued")), Ok(run("in_progress")), Ok(run("completed"))]);
    assert_eq!(trace.fetches, 3);
    assert_eq!(trace.observations.len(), 3);
    assert_eq!(trace.observations[0].kind, ObservationKind::Progress);
    assert_eq!(trace.observations[1].kind, ObservationKind::Progress);
    assert_eq!(trace.observations[2].kind, ObservationKind::Completion);
    assert_eq!(trace.observations[1].status, "in_progress");
    assert!(trace.slept_secs >= 40);
    assert_eq!(trace.slept_secs, 40);
    assert_eq!(trace.state, PollState::Completed);
    assert!(trace.error.is_none());
}

#[test]
fn first_fetch_timeout_scenario() {
    let trace = run_session(
        20,
        vec![Err(WorkflowError::Transport("operation timed out".to_string())), Ok(run("queued"))],
    );
    assert_eq!(trace.fetches, 1);
    assert!(trace.observations.is_empty());
    assert_eq!(trace.slept_secs, 0);
    assert_eq!(trace.state, PollState::Failed);
    assert!(matches!(trace.error, Some(WorkflowError::Transport(_))));
}

#[test]
fn malformed_json_ends_polling() {
    let trace = run_session(20, vec![Ok(run("queued")), parse_latest_run("{oops"), Ok(run("queued"))]);
    assert_eq!(trace.fetches, 2);
    assert_eq!(trace.observations.len(), 1);
    assert_eq!(trace.state, PollState::Failed);
    assert!(matches!(trace.error, Some(WorkflowError::InvalidJson)));
}

#[test]
fn no_fetch_after_terminal() {
    let trace = run_session(5, vec![Ok(run("waiting")), Ok(run("stale")), Ok(run("completed")), Ok(run("queued"))]);
    assert_eq!(trace.fetches, 2);
    assert_eq!(trace.state, PollState::Other);
    assert_eq!(trace.slept_secs, 5);
    assert_eq!(trace.observations[1].kind, ObservationKind::Warning);
}

#[test]
fn all_pending_takes_every_outcome() {
    let trace = run_session(3, vec![Ok(run("queued")), Ok(run("queued")), Ok(run("waiting"))]);
    assert_eq!(trace.fetches, 3);
    assert_eq!(trace.state, PollState::Polling);
    assert_eq!(trace.slept_secs, 6);
    let empty = run_session(3, vec![]);
    assert_eq!(empty.fetches, 0);
    assert_eq!(empty.state, PollState::Polling);
}
