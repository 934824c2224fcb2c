//! What the configuration use cases ask of their surroundings, and what they
//! are told in return.
//!
//! Whatever a use case was granted or has locked on the way (its turn among the
//! configuration operations, its entrance into the application, the
//! configuration lock that it shares with the start of a session) it holds
//! until it is over, unless it gives the lock back earlier.

use crate::domain::{
    AsrEngine, RecordingShortcut, RequestId, SessionId, SettingsSnapshot, SettingsSnapshotInput,
    TimestampMs,
};
use crate::orchestrator::state::ApplicationActivity;
use crate::ports::{
    AsrModelPreparationError, EngineHealth, HistoryRecord, LlmConnectionProbeError,
    LlmRouteCandidate, LlmRouteResolution, PortError, ResolvedLlmRoute, SecretMaterialState,
    SecretValue, TextProcessingRequest, TextProcessingResult,
};
use vstd::prelude::*;

verus! {

/// One thing that the surroundings do for a configuration use case.
pub enum Request {
    /// Wait for the turn among the operations of this kind.
    TakeTurn,
    /// Take the turn among the operations of this kind if it is free.
    TryTurn,
    /// Enter the application, which no one can once it is quitting.
    EnterApplication,
    /// Wait for the lock that also orders the start of a session.
    LockConfiguration,
    /// Give the lock back early.
    ReleaseConfiguration,
    /// Is there work of an input session?
    ProbeWork,
    /// What is the application as a whole doing?
    ProbeActivity,
    LoadSettings,
    /// Are these settings acceptable as a snapshot?
    ValidateSettings(SettingsSnapshotInput),
    ReplaceSettings { expected_version: u64, settings: SettingsSnapshot },
    /// Swap the system-wide shortcut.
    ReplaceBinding { previous: Option<RecordingShortcut>, next: Option<RecordingShortcut> },
    /// Switch local diagnostics of this process on or off.
    SetDiagnostics(bool),
    ReadClock,
    ListHistory,
    /// Remove what the history policy of these settings does not keep.
    EnforcePolicy(SettingsSnapshot),
    ClearHistory,
    WriteClipboard(String),
    PrepareModel(AsrEngine),
    CheckEngine(AsrEngine),
    ResolveRoute(Option<LlmRouteCandidate>),
    InspectStore,
    InspectSecret(String),
    ReadSecret(String),
    /// Make a secret the only one of its namespace.
    ReplaceNamespace { namespace: &'static str, secret_id: String, value: SecretValue },
    DeleteSecret(String),
    DeleteNamespace(&'static str),
    /// Remove a store that cannot be read any more.
    ResetStore,
    /// Make up identities for one request outside any session.
    IssueProbeIds,
    ProbeConnection { route: ResolvedLlmRoute, request: TextProcessingRequest },
}

/// What the surroundings found or did.
pub enum Answer {
    /// What was awaited has happened.
    Ready,
    /// Whether the way is free.
    Granted(bool),
    /// Whether there is work; `None` where that cannot be told.
    Work(Option<bool>),
    /// What the application is doing; `None` where that cannot be told.
    Activity(Option<ApplicationActivity>),
    Settings(Result<SettingsSnapshot, PortError>),
    /// Whether settings are acceptable.
    Valid(bool),
    /// The deed was done, or failed.
    Acted(Result<(), PortError>),
    Now(TimestampMs),
    Records(Result<Vec<HistoryRecord>, PortError>),
    Prepared(Result<(), AsrModelPreparationError>),
    Health(Result<EngineHealth, PortError>),
    Resolution(LlmRouteResolution),
    Material(Result<SecretMaterialState, PortError>),
    Secret(Result<Option<SecretValue>, PortError>),
    Deleted(Result<u64, PortError>),
    ProbeIds { session_id: SessionId, request_id: RequestId },
    Probe(Result<TextProcessingResult, LlmConnectionProbeError>),
}

/// Whether an answer is of the kind that a request asks for.
pub open spec fn answers(answer: Answer, request: Request) -> bool {
    match request {
        Request::TakeTurn
        | Request::LockConfiguration
        | Request::ReleaseConfiguration
        | Request::SetDiagnostics(_) => answer is Ready,
        Request::TryTurn | Request::EnterApplication => answer is Granted,
        Request::ProbeWork => answer is Work,
        Request::ProbeActivity => answer is Activity,
        Request::LoadSettings | Request::ReplaceSettings { .. } => answer is Settings,
        Request::ValidateSettings(_) => answer is Valid,
        Request::ReplaceBinding { .. }
        | Request::EnforcePolicy(_)
        | Request::ClearHistory
        | Request::WriteClipboard(_)
        | Request::ReplaceNamespace { .. }
        | Request::DeleteSecret(_)
        | Request::ResetStore => answer is Acted,
        Request::ReadClock => answer is Now,
        Request::ListHistory => answer is Records,
        Request::PrepareModel(_) => answer is Prepared,
        Request::CheckEngine(_) => answer is Health,
        Request::ResolveRoute(_) => answer is Resolution,
        Request::InspectStore | Request::InspectSecret(_) => answer is Material,
        Request::ReadSecret(_) => answer is Secret,
        Request::DeleteNamespace(_) => answer is Deleted,
        Request::IssueProbeIds => answer is ProbeIds,
        Request::ProbeConnection { .. } => answer is Probe,
    }
}

/// Where a use case stands: it waits for an answer, or it is over.
pub enum Step<F, T> {
    Ask { flow: F, request: Request },
    Done(T),
}

} // verus!
