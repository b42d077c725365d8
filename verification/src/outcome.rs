//! From what the process runner observed to the reply that goes on the bus.

use vstd::prelude::*;

verus! {

/// The two methods of the service.
#[derive(Clone, Copy, Debug, PartialEq, Eq)]
pub enum Method {
    /// Start the command and do not wait for it.
    Open,
    /// Run the command on the caller's streams and wait for its exit.
    Exec,
}

/// How the system refused to start a command.
#[derive(Clone, Copy, Debug, PartialEq, Eq)]
pub enum SpawnFailureKind {
    /// The executable could not be located.
    NotFound,
    /// Any other refusal: permissions, resource limits.
    Other,
}

/// A refused spawn, with the system's own words.
#[derive(Clone, Debug, PartialEq, Eq)]
pub struct SpawnError {
    pub kind: SpawnFailureKind,
    pub detail: String,
}

/// The result of one call.
#[derive(Clone, Debug, PartialEq, Eq)]
pub enum CallOutcome {
    /// `Open` started its command.
    Started,
    /// `Exec` ran its command to the end, with this status.
    Completed(i32),
    /// The command could not be started.
    SpawnFailed(SpawnFailureKind, String),
}

/// What a reply carries on the bus.
#[derive(Clone, Debug, PartialEq, Eq)]
pub enum ReplyPayload {
    /// A normal return without arguments.
    Accepted,
    /// A normal return with the command's status.
    Status(i32),
    /// A bus-level error with its name and message.
    Error { name: String, message: String },
}

/// The status reported for a child that left no exit code, as one ended by a
/// signal does.
pub const SIGNALLED_STATUS: i32 = 0;

/// The status reported for a child that exited with `code`, or without one.
pub open spec fn status_of(code: Option<i32>) -> i32 {
    match code {
        Some(c) => c,
        None => SIGNALLED_STATUS,
    }
}

/// The bus error name that stands for a kind of spawn failure.
pub open spec fn error_name_of(kind: SpawnFailureKind) -> Seq<char> {
    match kind {
        SpawnFailureKind::NotFound => "simonbru.SessionLaunch.Error.NotFound"@,
        SpawnFailureKind::Other => "simonbru.SessionLaunch.Error.Unknown"@,
    }
}

/// The outcome of an `Open` call, given how spawning went.
pub open spec fn open_outcome_of(spawned: Result<(), SpawnError>) -> CallOutcome {
    match spawned {
        Ok(_) => CallOutcome::Started,
        Err(e) => CallOutcome::SpawnFailed(e.kind, e.detail),
    }
}

/// The outcome of an `Exec` call, given how spawning and waiting went.
pub open spec fn exec_outcome_of(ran: Result<Option<i32>, SpawnError>) -> CallOutcome {
    match ran {
        Ok(code) => CallOutcome::Completed(status_of(code)),
        Err(e) => CallOutcome::SpawnFailed(e.kind, e.detail),
    }
}

/// Whether `payload` is the reply that `outcome` calls for.
pub open spec fn is_reply_of(payload: ReplyPayload, outcome: CallOutcome) -> bool {
    match outcome {
        CallOutcome::Started => payload == ReplyPayload::Accepted,
        CallOutcome::Completed(status) => payload == ReplyPayload::Status(status),
        CallOutcome::SpawnFailed(kind, detail) => payload matches ReplyPayload::Error {
            name,
            message,
        } && name@ == error_name_of(kind) && message == detail,
    }
}

/// The status for an exit code that may be absent.
pub fn exit_status(code: Option<i32>) -> (status: i32)
    ensures
        status == status_of(code),
{
    match code {
        Some(c) => c,
        None => SIGNALLED_STATUS,
    }
}

/// The bus error name for a kind of spawn failure.
pub fn error_name(kind: SpawnFailureKind) -> (name: &'static str)
    ensures
        name@ == error_name_of(kind),
{
    match kind {
        SpawnFailureKind::NotFound => "simonbru.SessionLaunch.Error.NotFound",
        SpawnFailureKind::Other => "simonbru.SessionLaunch.Error.Unknown",
    }
}

/// The outcome of `Open`: started, or the spawn failure as classified.
pub fn method_open(spawned: Result<(), SpawnError>) -> (outcome: CallOutcome)
    ensures
        outcome == open_outcome_of(spawned),
{
    match spawned {
        Ok(_) => CallOutcome::Started,
        Err(e) => CallOutcome::SpawnFailed(e.kind, e.detail),
    }
}

/// The outcome of `Exec`: the child's status, 0 where it left none, or the
/// spawn failure as classified.
pub fn method_exec(ran: Result<Option<i32>, SpawnError>) -> (outcome: CallOutcome)
    ensures
        outcome == exec_outcome_of(ran),
{
    match ran {
        Ok(code) => CallOutcome::Completed(exit_status(code)),
        Err(e) => CallOutcome::SpawnFailed(e.kind, e.detail),
    }
}

/// The bus error for a refused spawn: its name by kind, its message the
/// system's words.
pub fn method_error(kind: SpawnFailureKind, detail: String) -> (payload: ReplyPayload)
    ensures
        is_reply_of(payload, CallOutcome::SpawnFailed(kind, detail)),
{
    ReplyPayload::Error { name: error_name(kind).to_owned(), message: detail }
}

/// The reply that an outcome calls for.
pub fn reply_for(outcome: CallOutcome) -> (payload: ReplyPayload)
    ensures
        is_reply_of(payload, outcome),
{
    match outcome {
        CallOutcome::Started => ReplyPayload::Accepted,
        CallOutcome::Completed(status) => ReplyPayload::Status(status),
        CallOutcome::SpawnFailed(kind, detail) => method_error(kind, detail),
    }
}

/// The two error names differ, so a client can tell a missing command from
/// every other failure.
pub proof fn lemma_error_names_differ()
    ensures
        error_name_of(SpawnFailureKind::NotFound) != error_name_of(SpawnFailureKind::Other),
{
    reveal_strlit("simonbru.SessionLaunch.Error.NotFound");
    reveal_strlit("simonbru.SessionLaunch.Error.Unknown");
    assert(error_name_of(SpawnFailureKind::NotFound).len() == 37);
    assert(error_name_of(SpawnFailureKind::Other).len() == 36);
}

/// A spawn that failed because the executable is missing yields, for `Open`
/// and for `Exec` alike, the error named for it and never the general one.
pub proof fn lemma_missing_executable_is_not_found(detail: String, payload: ReplyPayload)
    requires
        is_reply_of(
            payload,
            open_outcome_of(Err(SpawnError { kind: SpawnFailureKind::NotFound, detail })),
        ) || is_reply_of(
            payload,
            exec_outcome_of(Err(SpawnError { kind: SpawnFailureKind::NotFound, detail })),
        ),
    ensures
        payload matches ReplyPayload::Error { name, message } && name@ == error_name_of(
            SpawnFailureKind::NotFound,
        ) && name@ != error_name_of(SpawnFailureKind::Other) && message == detail,
{
    lemma_error_names_differ();
}

/// The status that `Exec` replies with is the child's own exit code.
pub proof fn lemma_exec_status_is_exit_code(code: i32, payload: ReplyPayload)
    requires
        is_reply_of(payload, exec_outcome_of(Ok(Some(code)))),
    ensures
        payload == ReplyPayload::Status(code),
{
}

} // verus!
