//! The state machine that watches a workflow run until it ends.
//!
//! A session is fed the outcome of each fetch and answers with what to report
//! and what to do next: fetch again after the polling interval, stop, or give
//! up on a fatal error. Whoever drives it performs the fetches and the waits.

use vstd::prelude::*;
use crate::text::same_text;
use crate::workflow::{is_json, latest_run_outcome, view_result, RunView, WorkflowError, WorkflowRun};

verus! {

/// The default polling interval, in seconds.
pub const DEFAULT_INTERVAL_SECS: u64 = 20;

/// How a run's status is read.
#[derive(Clone, Copy, Debug, PartialEq, Eq, Structural)]
pub enum StatusKind {
    /// `queued`, `in_progress` or `waiting`: the run goes on.
    Pending,
    /// `completed`.
    Completed,
    /// Any other value: taken as terminal, with a warning.
    Unrecognized,
}

pub open spec fn status_kind(s: Seq<char>) -> StatusKind {
    if s == "queued"@ || s == "in_progress"@ || s == "waiting"@ {
        StatusKind::Pending
    } else if s == "completed"@ {
        StatusKind::Completed
    } else {
        StatusKind::Unrecognized
    }
}

/// Classifies a status value; values the platform may add later are
/// `Unrecognized`, never an error.
pub fn classify_status(status: &str) -> (r: StatusKind)
    ensures
        r == status_kind(status@),
{
    if same_text(status, "queued") || same_text(status, "in_progress") || same_text(
        status,
        "waiting",
    ) {
        StatusKind::Pending
    } else if same_text(status, "completed") {
        StatusKind::Completed
    } else {
        StatusKind::Unrecognized
    }
}

/// Where a session stands.
#[derive(Clone, Copy, Debug, PartialEq, Eq, Structural)]
pub enum PollState {
    Polling,
    /// The run completed.
    Completed,
    /// The run reached a status that is not known; watching stopped.
    Other,
    /// A fetch failed; watching stopped.
    Failed,
}

/// What is reported of a fetched run.
#[derive(Clone, Copy, Debug, PartialEq, Eq, Structural)]
pub enum ObservationKind {
    Progress,
    Completion,
    Warning,
}

/// A line of progress: the workflow's name and the status it had.
#[derive(Clone, Debug)]
pub struct Observation {
    pub kind: ObservationKind,
    pub name: String,
    pub status: String,
}

pub ghost struct ObservationView {
    pub kind: ObservationKind,
    pub name: Seq<char>,
    pub status: Seq<char>,
}

impl View for Observation {
    type V = ObservationView;

    open spec fn view(&self) -> ObservationView {
        ObservationView { kind: self.kind, name: self.name@, status: self.status@ }
    }
}

/// What the driver does next.
#[derive(Clone, Debug)]
pub enum Action {
    /// Wait this many seconds, then fetch once more.
    FetchAfter(u64),
    /// The run ended: report it.
    Stop,
    /// A fetch failed: end the session with this error.
    Abort(WorkflowError),
}

/// The answer to one fetch.
pub struct Step {
    pub observation: Option<Observation>,
    pub action: Action,
}

pub open spec fn pending(o: Result<WorkflowRun, WorkflowError>) -> bool {
    o matches Ok(run) && status_kind(run.status@) == StatusKind::Pending
}

/// The state a fetch leads to.
pub open spec fn state_after(o: Result<WorkflowRun, WorkflowError>) -> PollState {
    match o {
        Err(_) => PollState::Failed,
        Ok(run) => match status_kind(run.status@) {
            StatusKind::Pending => PollState::Polling,
            StatusKind::Completed => PollState::Completed,
            StatusKind::Unrecognized => PollState::Other,
        },
    }
}

/// What is reported of a fetched run.
pub open spec fn observation_of(run: RunView) -> ObservationView {
    ObservationView {
        kind: match status_kind(run.status) {
            StatusKind::Pending => ObservationKind::Progress,
            StatusKind::Completed => ObservationKind::Completion,
            StatusKind::Unrecognized => ObservationKind::Warning,
        },
        name: run.name,
        status: run.status,
    }
}

/// One monitoring session: where it stands, how many fetches it has seen,
/// its polling interval and the last run fetched.
pub struct PollSession {
    pub state: PollState,
    pub attempts: u64,
    pub interval_secs: u64,
    pub last: Option<WorkflowRun>,
}

impl PollSession {
    /// A session that has not fetched yet.
    pub fn new(interval_secs: u64) -> (r: Self)
        ensures
            r.state == PollState::Polling,
            r.attempts == 0,
            r.interval_secs == interval_secs,
            r.last is None,
    {
        PollSession { state: PollState::Polling, attempts: 0, interval_secs, last: None }
    }

    /// Whether the session is over.
    pub fn is_terminal(&self) -> (r: bool)
        ensures
            r == (self.state != PollState::Polling),
    {
        !matches!(self.state, PollState::Polling)
    }

    /// Takes the outcome of one fetch. A pending status keeps the session
    /// polling and asks for exactly one more fetch after the interval;
    /// `completed` ends it; any other status ends it with a warning; a failed
    /// fetch ends it with that error, reporting nothing.
    pub fn on_fetch(&mut self, outcome: Result<WorkflowRun, WorkflowError>) -> (step: Step)
        requires
            old(self).state == PollState::Polling,
            old(self).attempts < u64::MAX,
        ensures
            final(self).attempts == old(self).attempts + 1,
            final(self).interval_secs == old(self).interval_secs,
            final(self).state == state_after(outcome),
            match outcome {
                Ok(run) => {
                    &&& final(self).last == Some(run)
                    &&& step.observation matches Some(ob) && ob@ == observation_of(run@)
                    &&& match status_kind(run.status@) {
                        StatusKind::Pending => step.action == Action::FetchAfter(
                            old(self).interval_secs,
                        ),
                        _ => step.action == Action::Stop,
                    }
                },
                Err(e) => {
                    &&& final(self).last == old(self).last
                    &&& step.observation is None
                    &&& step.action == Action::Abort(e)
                },
            },
    {
        self.attempts = self.attempts + 1;
        match outcome {
            Err(e) => {
                self.state = PollState::Failed;
                Step { observation: None, action: Action::Abort(e) }
            },
            Ok(run) => {
                let kind = classify_status(run.status.as_str());
                let (state, obs_kind, action) = match kind {
                    StatusKind::Pending => (
                        PollState::Polling,
                        ObservationKind::Progress,
                        Action::FetchAfter(self.interval_secs),
                    ),
                    StatusKind::Completed => (
                        PollState::Completed,
                        ObservationKind::Completion,
                        Action::Stop,
                    ),
                    StatusKind::Unrecognized => (
                        PollState::Other,
                        ObservationKind::Warning,
                        Action::Stop,
                    ),
                };
                let observation = Observation {
                    kind: obs_kind,
                    name: run.name.clone(),
                    status: run.status.clone(),
                };
                self.state = state;
                self.last = Some(run);
                Step { observation: Some(observation), action }
            },
        }
    }
}

/// What a session did over a sequence of fetch outcomes.
pub struct SessionTrace {
    /// What was reported, one entry per fetched run, in order.
    pub observations: Vec<Observation>,
    /// The seconds spent waiting between fetches.
    pub slept_secs: u64,
    /// How many fetch outcomes the session took.
    pub fetches: usize,
    /// Where the session stands at the end.
    pub state: PollState,
    /// The fatal error that ended the session, if one did.
    pub error: Option<WorkflowError>,
}

/// Whether `fetches` outcomes of `s` are what a session takes: every one but
/// the last it took kept it polling, and it stopped early only after one that
/// did not.
pub open spec fn takes(s: Seq<Result<WorkflowRun, WorkflowError>>, fetches: int) -> bool {
    &&& 0 <= fetches <= s.len()
    &&& s.len() > 0 ==> fetches > 0
    &&& forall|k: int| 0 <= k < fetches - 1 ==> pending(#[trigger] s[k])
    &&& fetches < s.len() ==> !pending(s[fetches - 1])
}

/// How many of the first `fetches` outcomes of `s` are fetched runs, all of
/// them but a failure that ends the session.
pub open spec fn observed_count(s: Seq<Result<WorkflowRun, WorkflowError>>, fetches: int) -> int {
    if fetches > 0 && s[fetches - 1] is Err {
        fetches - 1
    } else {
        fetches
    }
}

/// Runs a session over the given fetch outcomes, in order, as the watch loop
/// would: the first fetch at once, each next one after the interval, until
/// the session ends or the outcomes run out.
pub fn run_session(interval_secs: u64, outcomes: Vec<Result<WorkflowRun, WorkflowError>>) -> (r:
    SessionTrace)
    requires
        interval_secs * outcomes.len() <= u64::MAX,
    ensures
        takes(outcomes@, r.fetches as int),
        r.state == (if r.fetches == 0 {
            PollState::Polling
        } else {
            state_after(outcomes@[r.fetches - 1])
        }),
        r.slept_secs == (if r.fetches == 0 {
            0
        } else {
            interval_secs * (r.fetches - 1)
        }),
        r.observations@.len() == observed_count(outcomes@, r.fetches as int),
        forall|k: int|
            0 <= k < r.observations@.len() ==> (#[trigger] outcomes@[k] matches Ok(run)
                && r.observations@[k]@ == observation_of(run@)),
        r.error == (if r.fetches > 0 && outcomes@[r.fetches - 1] is Err {
            Some(outcomes@[r.fetches - 1]->Err_0)
        } else {
            None::<WorkflowError>
        }),
{
    let ghost orig = outcomes@;
    let n = outcomes.len();
    let mut outcomes = outcomes;
    let mut session = PollSession::new(interval_secs);
    let mut observations: Vec<Observation> = Vec::new();
    let mut slept: u64 = 0;
    let mut error: Option<WorkflowError> = None;
    let mut i: usize = 0;
    while i < n && !session.is_terminal()
        invariant
            n == orig.len(),
            interval_secs * n <= u64::MAX,
            i <= n,
            outcomes@ == orig.subrange(i as int, n as int),
            session.attempts == i,
            session.interval_secs == interval_secs,
            session.state == (if i == 0 {
                PollState::Polling
            } else {
                state_after(orig[i - 1])
            }),
            forall|k: int| 0 <= k < i - 1 ==> pending(#[trigger] orig[k]),
            slept == (if i == 0 {
                0
            } else {
                interval_secs * (i - 1)
            }),
            observations@.len() == observed_count(orig, i as int),
            forall|k: int|
                0 <= k < observations@.len() ==> (#[trigger] orig[k] matches Ok(run)
                    && observations@[k]@ == observation_of(run@)),
            error == (if i > 0 && orig[i - 1] is Err {
                Some(orig[i - 1]->Err_0)
            } else {
                None::<WorkflowError>
            }),
        decreases n - i,
    {
        if i > 0 {
            assert(interval_secs * (i - 1) + interval_secs == interval_secs * i)
                by (nonlinear_arith);
            assert(interval_secs * i <= interval_secs * n) by (nonlinear_arith)
                requires
                    i <= n,
            ;
            slept = slept + interval_secs;
        }
        assert(i > 0 ==> pending(orig[i - 1]));
        let outcome = outcomes.remove(0);
        assert(outcome == orig[i as int]);
        let step = session.on_fetch(outcome);
        match step.observation {
            Some(ob) => observations.push(ob),
            None => {},
        }
        match step.action {
            Action::Abort(e) => error = Some(e),
            _ => {},
        }
        i = i + 1;
        assert(outcomes@ =~= orig.subrange(i as int, n as int));
    }
    SessionTrace { observations, slept_secs: slept, fetches: i, state: session.state, error }
}

/// A session over a sequence of outcomes takes exactly the outcomes up to and
/// including the first one that does not keep it polling (a completed run, an
/// unrecognized status or a failed fetch), so it ends once and fetches no more.
pub proof fn lemma_stops_at_first_end(s: Seq<Result<WorkflowRun, WorkflowError>>, j: int, fetches: int)
    requires
        0 <= j < s.len(),
        forall|k: int| 0 <= k < j ==> pending(#[trigger] s[k]),
        !pending(s[j]),
        takes(s, fetches),
    ensures
        fetches == j + 1,
        state_after(s[fetches - 1]) != PollState::Polling,
{
    if fetches < j + 1 {
        assert(!pending(s[fetches - 1]));
    }
    if fetches > j + 1 {
        assert(pending(s[j]));
    }
}

/// While every outcome keeps it polling, a session takes them all.
pub proof fn lemma_takes_all_pending(s: Seq<Result<WorkflowRun, WorkflowError>>, fetches: int)
    requires
        forall|k: int| 0 <= k < s.len() ==> pending(#[trigger] s[k]),
        takes(s, fetches),
    ensures
        fetches == s.len(),
{
    if fetches < s.len() {
        assert(pending(s[fetches - 1]));
    }
}

/// A response body that is not valid JSON makes the fetch fail with
/// `InvalidJson`, which ends the session: it is not pending, and the state it
/// leads to is `Failed`.
pub proof fn lemma_malformed_json_ends_session(body: Seq<char>, outcome: Result<WorkflowRun, WorkflowError>)
    requires
        !is_json(body),
        view_result(outcome) == latest_run_outcome(body),
    ensures
        outcome == Err::<WorkflowRun, WorkflowError>(WorkflowError::InvalidJson),
        !pending(outcome),
        state_after(outcome) == PollState::Failed,
{
}

} // verus!
