//! The latest workflow run of a repository: reading it from the body of a
//! "list workflow runs" response, and the time it took.

use vstd::prelude::*;

verus! {

/// What the workflow-runs response holds at `workflow_runs[0][key]`, where
/// that value is a JSON string; `None` where the run or the member is absent or
/// is not a string.
pub uninterp spec fn latest_run_member(text: Seq<char>, key: Seq<char>) -> Option<Seq<char>>;

/// Whether `serde_json` reads the text as one JSON document (valid JSON,
/// nothing but whitespace after it, nesting within its depth limit).
pub uninterp spec fn is_json(text: Seq<char>) -> bool;

/// The Unix time, in whole seconds, of an RFC 3339 date-time, or `None` where
/// the text is not one.
pub uninterp spec fn rfc3339_seconds(text: Seq<char>) -> Option<int>;

/// A required member of a workflow run.
#[derive(Clone, Copy, Debug, PartialEq, Eq, Structural)]
pub enum RunField {
    Status,
    Name,
    CreatedAt,
    UpdatedAt,
}

/// Why watching a workflow run failed.
#[derive(Clone, Debug)]
pub enum WorkflowError {
    /// The request did not complete; the text says why.
    Transport(String),
    /// The response body is not valid JSON.
    InvalidJson,
    /// The latest run lacks a required member, or it is not a string; an
    /// empty run list lacks them all.
    MissingField(RunField),
    /// A timestamp of the run is not an RFC 3339 date-time.
    BadTimestamp(RunField),
    /// The difference of the two timestamps does not fit in 64 bits.
    DurationOutOfRange,
}

/// The string members of the latest run, as found in a response.
pub struct RunFields {
    pub status: Option<String>,
    pub name: Option<String>,
    pub conclusion: Option<String>,
    pub created_at: Option<String>,
    pub updated_at: Option<String>,
}

/// The latest workflow run of a repository.
#[derive(Clone, Debug)]
pub struct WorkflowRun {
    pub name: String,
    pub status: String,
    pub conclusion: Option<String>,
    pub created_at: String,
    pub updated_at: String,
}

/// A workflow run as mathematical text.
pub ghost struct RunView {
    pub name: Seq<char>,
    pub status: Seq<char>,
    pub conclusion: Option<Seq<char>>,
    pub created_at: Seq<char>,
    pub updated_at: Seq<char>,
}

impl View for WorkflowRun {
    type V = RunView;

    open spec fn view(&self) -> RunView {
        RunView {
            name: self.name@,
            status: self.status@,
            conclusion: text_of(self.conclusion),
            created_at: self.created_at@,
            updated_at: self.updated_at@,
        }
    }
}

pub open spec fn text_of(o: Option<String>) -> Option<Seq<char>> {
    match o {
        Some(s) => Some(s@),
        None => None,
    }
}

pub open spec fn int_of(o: Option<i64>) -> Option<int> {
    match o {
        Some(t) => Some(t as int),
        None => None,
    }
}

pub open spec fn view_result(r: Result<WorkflowRun, WorkflowError>) -> Result<RunView, WorkflowError> {
    match r {
        Ok(run) => Ok(run@),
        Err(e) => Err(e),
    }
}

/// The run that the members make up, or the first required one that is
/// missing, in the order status, name, creation time, update time.
pub open spec fn run_outcome(
    status: Option<Seq<char>>,
    name: Option<Seq<char>>,
    conclusion: Option<Seq<char>>,
    created_at: Option<Seq<char>>,
    updated_at: Option<Seq<char>>,
) -> Result<RunView, WorkflowError> {
    if status is None {
        Err(WorkflowError::MissingField(RunField::Status))
    } else if name is None {
        Err(WorkflowError::MissingField(RunField::Name))
    } else if created_at is None {
        Err(WorkflowError::MissingField(RunField::CreatedAt))
    } else if updated_at is None {
        Err(WorkflowError::MissingField(RunField::UpdatedAt))
    } else {
        Ok(
            RunView {
                name: name->Some_0,
                status: status->Some_0,
                conclusion,
                created_at: created_at->Some_0,
                updated_at: updated_at->Some_0,
            },
        )
    }
}

/// What a workflow-runs response body yields.
pub open spec fn latest_run_outcome(body: Seq<char>) -> Result<RunView, WorkflowError> {
    if !is_json(body) {
        Err(WorkflowError::InvalidJson)
    } else {
        run_outcome(
            latest_run_member(body, "status"@),
            latest_run_member(body, "name"@),
            latest_run_member(body, "conclusion"@),
            latest_run_member(body, "created_at"@),
            latest_run_member(body, "updated_at"@),
        )
    }
}

/// Relies on serde_json::from_str, to parse the body into a `Value`, and on
/// indexing a `Value` followed by `Value::as_str`, to read the string members
/// of `workflow_runs[0]` (indexing yields `Null` for what is absent, and
/// `as_str` yields `None` for what is not a string).
#[verifier::external_body]
fn read_latest_run(body: &str) -> (r: Option<RunFields>)
    ensures
        r is Some <==> is_json(body@),
        r matches Some(f) ==> {
            &&& text_of(f.status) == latest_run_member(body@, "status"@)
            &&& text_of(f.name) == latest_run_member(body@, "name"@)
            &&& text_of(f.conclusion) == latest_run_member(body@, "conclusion"@)
            &&& text_of(f.created_at) == latest_run_member(body@, "created_at"@)
            &&& text_of(f.updated_at) == latest_run_member(body@, "updated_at"@)
        },
{
    let v: serde_json::Value = serde_json::from_str(body).ok()?;
    let run = &v["workflow_runs"][0];
    let member = |key: &str| run[key].as_str().map(String::from);
    Some(RunFields {
        status: member("status"),
        name: member("name"),
        conclusion: member("conclusion"),
        created_at: member("created_at"),
        updated_at: member("updated_at"),
    })
}

/// Relies on chrono's DateTime::parse_from_rfc3339, to read the text, and on
/// DateTime::timestamp, for its Unix time in whole seconds.
#[verifier::external_body]
fn timestamp_seconds(text: &str) -> (r: Option<i64>)
    ensures
        int_of(r) == rfc3339_seconds(text@),
{
    chrono::DateTime::parse_from_rfc3339(text).ok().map(|t| t.timestamp())
}

/// Builds a run from the members found in a response; each required member
/// that is missing gives an error, the first one in the order of `run_outcome`.
pub fn run_from_fields(fields: RunFields) -> (r: Result<WorkflowRun, WorkflowError>)
    ensures
        view_result(r) == run_outcome(
            text_of(fields.status),
            text_of(fields.name),
            text_of(fields.conclusion),
            text_of(fields.created_at),
            text_of(fields.updated_at),
        ),
{
    let RunFields { status, name, conclusion, created_at, updated_at } = fields;
    let status = match status {
        Some(s) => s,
        None => return Err(WorkflowError::MissingField(RunField::Status)),
    };
    let name = match name {
        Some(s) => s,
        None => return Err(WorkflowError::MissingField(RunField::Name)),
    };
    let created_at = match created_at {
        Some(s) => s,
        None => return Err(WorkflowError::MissingField(RunField::CreatedAt)),
    };
    let updated_at = match updated_at {
        Some(s) => s,
        None => return Err(WorkflowError::MissingField(RunField::UpdatedAt)),
    };
    Ok(WorkflowRun { name, status, conclusion, created_at, updated_at })
}

/// Reads the most recent run (the first of the list) from the body of a
/// workflow-runs response.
pub fn parse_latest_run(body: &str) -> (r: Result<WorkflowRun, WorkflowError>)
    ensures
        view_result(r) == latest_run_outcome(body@),
        !is_json(body@) ==> r == Err::<WorkflowRun, WorkflowError>(WorkflowError::InvalidJson),
{
    match read_latest_run(body) {
        Some(fields) => run_from_fields(fields),
        None => Err(WorkflowError::InvalidJson),
    }
}

/// The whole seconds from `created` to `updated`, where that fits in an `i64`.
pub fn elapsed_seconds(created: i64, updated: i64) -> (r: Option<i64>)
    ensures
        r == (if i64::MIN <= updated - created <= i64::MAX {
            Some((updated - created) as i64)
        } else {
            None::<i64>
        }),
{
    updated.checked_sub(created)
}

/// What `run_duration` yields for a run.
pub open spec fn duration_outcome(run: RunView) -> Result<int, WorkflowError> {
    match (rfc3339_seconds(run.created_at), rfc3339_seconds(run.updated_at)) {
        (None, _) => Err(WorkflowError::BadTimestamp(RunField::CreatedAt)),
        (Some(_), None) => Err(WorkflowError::BadTimestamp(RunField::UpdatedAt)),
        (Some(c), Some(u)) => if i64::MIN <= u - c <= i64::MAX {
            Ok(u - c)
        } else {
            Err(WorkflowError::DurationOutOfRange)
        },
    }
}

/// How long a run took: its update time minus its creation time, in whole
/// seconds; zero and negative values are reported as they are.
pub fn run_duration(run: &WorkflowRun) -> (r: Result<i64, WorkflowError>)
    ensures
        match r {
            Ok(d) => duration_outcome(run@) == Ok::<int, WorkflowError>(d as int),
            Err(e) => duration_outcome(run@) == Err::<int, WorkflowError>(e),
        },
{
    let created = match timestamp_seconds(run.created_at.as_str()) {
        Some(t) => t,
        None => return Err(WorkflowError::BadTimestamp(RunField::CreatedAt)),
    };
    let updated = match timestamp_seconds(run.updated_at.as_str()) {
        Some(t) => t,
        None => return Err(WorkflowError::BadTimestamp(RunField::UpdatedAt)),
    };
    match elapsed_seconds(created, updated) {
        Some(d) => Ok(d),
        None => Err(WorkflowError::DurationOutOfRange),
    }
}

/// The duration depends on the two timestamps alone: runs that agree on them
/// get the same duration, or the same error.
pub proof fn lemma_duration_deterministic(a: RunView, b: RunView)
    requires
        a.created_at == b.created_at,
        a.updated_at == b.updated_at,
    ensures
        duration_outcome(a) == duration_outcome(b),
{
}

} // verus!
