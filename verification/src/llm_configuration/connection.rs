//! Trying out the language model.
//!
//! The configuration lock is given back before the provider is asked, so that a
//! slow network does not keep a session from starting.

use crate::configuration::{Answer, Request, Step};
use crate::domain::{ProcessingMode, RequestId, SessionId};
use crate::llm_configuration::{
    candidate_of, route_candidate, LlmConfigurationController, LlmConnectionFailure,
    LlmConnectionTestOutcome,
};
use crate::ports::{
    LlmConnectionProbeError, LlmRouteResolution, PortError, ResolvedLlmRoute, SecretMaterialState,
    TextProcessingRequest, TextProcessingResult,
};
use crate::text::{blank, is_blank};
use vstd::prelude::*;

verus! {

/// The text that a connection test sends.
pub const CONNECTION_TEST_TEXT: &'static str =
    "RemTene connection test. Return this sentence without adding new information.";

/// What a provider's failure code means for a connection test.
pub open spec fn connection_failure(code: Seq<char>) -> LlmConnectionFailure {
    if code == "llm.api_key_missing"@ {
        LlmConnectionFailure::NotConfigured
    } else if code == "llm.secret_unavailable"@ {
        LlmConnectionFailure::SecretUnavailable
    } else if code == "llm.secret_recovery_required"@ {
        LlmConnectionFailure::RecoveryRequired
    } else if code == "llm.invalid_config"@ {
        LlmConnectionFailure::InvalidConfiguration
    } else if code == "llm.invalid_request"@ {
        LlmConnectionFailure::Internal
    } else if code == "llm.authentication_failed"@ {
        LlmConnectionFailure::AuthenticationFailed
    } else if code == "llm.permission_denied"@ {
        LlmConnectionFailure::PermissionDenied
    } else if code == "llm.rate_limited"@ {
        LlmConnectionFailure::RateLimited
    } else if code == "llm.timeout"@ {
        LlmConnectionFailure::Timeout
    } else if code == "llm.network"@ {
        LlmConnectionFailure::Network
    } else if code == "llm.provider_unavailable"@ || code == "llm.client_unavailable"@ {
        LlmConnectionFailure::ProviderUnavailable
    } else if code == "llm.request_rejected"@ {
        LlmConnectionFailure::RequestRejected
    } else if code == "llm.invalid_response"@ {
        LlmConnectionFailure::InvalidResponse
    } else if code == "llm.response_too_large"@ {
        LlmConnectionFailure::ResponseTooLarge
    } else if code == "llm.cancelled"@ {
        LlmConnectionFailure::Cancelled
    } else {
        LlmConnectionFailure::Internal
    }
}

/// What a provider's failure means for a connection test.
pub fn map_connection_error(error: &PortError) -> (r: LlmConnectionFailure)
    ensures
        r == connection_failure(error.code@),
{
    if error.has_code("llm.api_key_missing") {
        LlmConnectionFailure::NotConfigured
    } else if error.has_code("llm.secret_unavailable") {
        LlmConnectionFailure::SecretUnavailable
    } else if error.has_code("llm.secret_recovery_required") {
        LlmConnectionFailure::RecoveryRequired
    } else if error.has_code("llm.invalid_config") {
        LlmConnectionFailure::InvalidConfiguration
    } else if error.has_code("llm.invalid_request") {
        LlmConnectionFailure::Internal
    } else if error.has_code("llm.authentication_failed") {
        LlmConnectionFailure::AuthenticationFailed
    } else if error.has_code("llm.permission_denied") {
        LlmConnectionFailure::PermissionDenied
    } else if error.has_code("llm.rate_limited") {
        LlmConnectionFailure::RateLimited
    } else if error.has_code("llm.timeout") {
        LlmConnectionFailure::Timeout
    } else if error.has_code("llm.network") {
        LlmConnectionFailure::Network
    } else if error.has_code("llm.provider_unavailable") || error.has_code(
        "llm.client_unavailable",
    ) {
        LlmConnectionFailure::ProviderUnavailable
    } else if error.has_code("llm.request_rejected") {
        LlmConnectionFailure::RequestRejected
    } else if error.has_code("llm.invalid_response") {
        LlmConnectionFailure::InvalidResponse
    } else if error.has_code("llm.response_too_large") {
        LlmConnectionFailure::ResponseTooLarge
    } else if error.has_code("llm.cancelled") {
        LlmConnectionFailure::Cancelled
    } else {
        LlmConnectionFailure::Internal
    }
}

/// Whether a request is the one that a connection test sends: a fixed text, and
/// nothing of the user's.
pub open spec fn is_connection_test(
    request: TextProcessingRequest,
    session_id: SessionId,
    request_id: RequestId,
) -> bool {
    &&& request.session_id == session_id
    &&& request.request_id == request_id
    &&& request.processing_mode == ProcessingMode::Faithful
    &&& request.raw_transcript@ == CONNECTION_TEST_TEXT@
    &&& request.selected_text is None
}

/// What the provider's reply means. A reply that was understood but not in the
/// agreed form still proves the connection.
pub open spec fn probe_outcome(
    session_id: SessionId,
    request_id: RequestId,
    probe: Result<TextProcessingResult, LlmConnectionProbeError>,
) -> LlmConnectionTestOutcome {
    match probe {
        Ok(result) => if result.session_id == session_id && result.request_id == request_id
            && !blank(result.final_text@) {
            LlmConnectionTestOutcome::Succeeded
        } else {
            LlmConnectionTestOutcome::Failed(LlmConnectionFailure::InvalidResponse)
        },
        Err(error) => if error.error.code@ == "llm.invalid_canonical_response"@ {
            LlmConnectionTestOutcome::Succeeded
        } else {
            let failure = connection_failure(error.error.code@);
            match error.upstream {
                Some(upstream) => LlmConnectionTestOutcome::FailedWithUpstream {
                    failure,
                    upstream,
                },
                None => LlmConnectionTestOutcome::Failed(failure),
            }
        },
    }
}

/// What the provider's reply means.
pub fn connection_outcome(
    session_id: SessionId,
    request_id: RequestId,
    probe: Result<TextProcessingResult, LlmConnectionProbeError>,
) -> (r: LlmConnectionTestOutcome)
    ensures
        r == probe_outcome(session_id, request_id, probe),
{
    match probe {
        Ok(result) => if result.session_id == session_id && result.request_id == request_id
            && !is_blank(result.final_text.as_str()) {
            LlmConnectionTestOutcome::Succeeded
        } else {
            LlmConnectionTestOutcome::Failed(LlmConnectionFailure::InvalidResponse)
        },
        Err(error) => {
            if error.error.has_code("llm.invalid_canonical_response") {
                return LlmConnectionTestOutcome::Succeeded;
            }
            let failure = map_connection_error(&error.error);
            match error.upstream {
                Some(upstream) => LlmConnectionTestOutcome::FailedWithUpstream {
                    failure,
                    upstream,
                },
                None => LlmConnectionTestOutcome::Failed(failure),
            }
        },
    }
}

/// How far a connection test has come.
pub enum ConnectionTestStep {
    TakingTurn,
    Locking,
    Probing,
    Loading,
    Resolving,
    /// Why the key of a valid endpoint cannot be used is being found out.
    InspectingSecret { error: PortError },
    Releasing { route: ResolvedLlmRoute },
    Issuing { route: ResolvedLlmRoute },
    Asking { session_id: SessionId, request_id: RequestId },
}

pub type ConnectionTestMove = Step<ConnectionTestStep, LlmConnectionTestOutcome>;

pub open spec fn test_fails(failure: LlmConnectionFailure) -> ConnectionTestMove {
    Step::Done(LlmConnectionTestOutcome::Failed(failure))
}

pub open spec fn test_asks(step: ConnectionTestStep, request: Request) -> ConnectionTestMove {
    Step::Ask { flow: step, request }
}

/// Whether an answer is what a connection test waits for.
pub open spec fn connection_test_awaits(step: ConnectionTestStep, answer: Answer) -> bool {
    match step {
        ConnectionTestStep::TakingTurn
        | ConnectionTestStep::Locking
        | ConnectionTestStep::Releasing { .. } => answer is Ready,
        ConnectionTestStep::Probing => answer is Work,
        ConnectionTestStep::Loading => answer is Settings,
        ConnectionTestStep::Resolving => answer is Resolution,
        ConnectionTestStep::InspectingSecret { .. } => answer is Material,
        ConnectionTestStep::Issuing { .. } => answer is ProbeIds,
        ConnectionTestStep::Asking { .. } => answer is Probe,
    }
}

pub open spec fn connection_test_begin() -> ConnectionTestMove {
    test_asks(ConnectionTestStep::TakingTurn, Request::TakeTurn)
}

pub open spec fn test_on_resolved(resolution: LlmRouteResolution) -> ConnectionTestMove {
    match resolution {
        LlmRouteResolution::Ready(route) => test_asks(
            ConnectionTestStep::Releasing { route },
            Request::ReleaseConfiguration,
        ),
        LlmRouteResolution::NoConfiguration | LlmRouteResolution::MissingSecret(_) => test_fails(
            LlmConnectionFailure::NotConfigured,
        ),
        LlmRouteResolution::Unavailable { route: Some(route), error } => test_asks(
            ConnectionTestStep::InspectingSecret { error },
            Request::InspectSecret(route.secret_id),
        ),
        LlmRouteResolution::Unavailable { route: None, error } => test_fails(
            connection_failure(error.code@),
        ),
    }
}

/// Whether the provider is asked about a route under the given identities.
pub open spec fn asks_provider(
    step: Step<ConnectionTestStep, LlmConnectionTestOutcome>,
    route: ResolvedLlmRoute,
    session_id: SessionId,
    request_id: RequestId,
) -> bool {
    &&& step is Ask
    &&& step->flow == (ConnectionTestStep::Asking { session_id, request_id })
    &&& step->request is ProbeConnection
    &&& step->request->route == route
    &&& is_connection_test(step->request->ProbeConnection_request, session_id, request_id)
}

/// Whether a step of a connection test follows from an answer.
pub open spec fn connection_test_follows(
    step: ConnectionTestStep,
    answer: Answer,
    next: ConnectionTestMove,
) -> bool {
    match step {
        ConnectionTestStep::TakingTurn => next == test_asks(
            ConnectionTestStep::Locking,
            Request::LockConfiguration,
        ),
        ConnectionTestStep::Locking => next == test_asks(
            ConnectionTestStep::Probing,
            Request::ProbeWork,
        ),
        ConnectionTestStep::Probing => next == match answer->Work_0 {
            Some(true) => test_fails(LlmConnectionFailure::Busy),
            Some(false) => test_asks(ConnectionTestStep::Loading, Request::LoadSettings),
            None => test_fails(LlmConnectionFailure::RuntimeUnavailable),
        },
        ConnectionTestStep::Loading => next == match answer->Settings_0 {
            Ok(settings) => test_asks(
                ConnectionTestStep::Resolving,
                Request::ResolveRoute(candidate_of(settings.input.llm)),
            ),
            Err(_) => test_fails(LlmConnectionFailure::SettingsUnavailable),
        },
        ConnectionTestStep::Resolving => next == test_on_resolved(answer->Resolution_0),
        ConnectionTestStep::InspectingSecret { error } => next == test_fails(
            unusable_key(error, answer->Material_0),
        ),
        ConnectionTestStep::Releasing { route } => next == test_asks(
            ConnectionTestStep::Issuing { route },
            Request::IssueProbeIds,
        ),
        ConnectionTestStep::Issuing { route } => asks_provider(
            next,
            route,
            answer->ProbeIds_session_id,
            answer->ProbeIds_request_id,
        ),
        ConnectionTestStep::Asking { session_id, request_id } => next
            == Step::<ConnectionTestStep, LlmConnectionTestOutcome>::Done(
            probe_outcome(session_id, request_id, answer->Probe_0),
        ),
    }
}

/// Why the key of a valid endpoint cannot be used.
pub open spec fn unusable_key(
    error: PortError,
    material: Result<SecretMaterialState, PortError>,
) -> LlmConnectionFailure {
    match material {
        Ok(SecretMaterialState::RecoveryRequired) => LlmConnectionFailure::RecoveryRequired,
        Ok(SecretMaterialState::NotConfigured) => LlmConnectionFailure::NotConfigured,
        Ok(SecretMaterialState::Configured) => connection_failure(error.code@),
        Err(_) => LlmConnectionFailure::SecretUnavailable,
    }
}

/// A configuration that cannot be used is told without asking the provider, and
/// the provider is only ever asked once the lock has been given back.
pub proof fn the_provider_is_asked_only_without_the_lock(
    step: ConnectionTestStep,
    answer: Answer,
    next: ConnectionTestMove,
)
    requires
        connection_test_follows(step, answer, next),
    ensures
        next is Ask && next->request is ProbeConnection ==> step is Issuing,
        next is Ask && next->flow is Issuing ==> step is Releasing,
        next is Ask && next->flow is Releasing ==> next->request is ReleaseConfiguration
            && answer->Resolution_0 is Ready,
{
}

impl LlmConfigurationController {
    /// Begins a connection test.
    pub fn test_connection(&self) -> (r: ConnectionTestMove)
        ensures
            r == connection_test_begin(),
    {
        Step::Ask { flow: ConnectionTestStep::TakingTurn, request: Request::TakeTurn }
    }

    /// Goes on with a connection test.
    pub fn resume_connection_test(&self, step: ConnectionTestStep, answer: Answer) -> (r:
        ConnectionTestMove)
        requires
            connection_test_awaits(step, answer),
        ensures
            connection_test_follows(step, answer, r),
    {
        match (step, answer) {
            (ConnectionTestStep::TakingTurn, _) => Step::Ask {
                flow: ConnectionTestStep::Locking,
                request: Request::LockConfiguration,
            },
            (ConnectionTestStep::Locking, _) => Step::Ask {
                flow: ConnectionTestStep::Probing,
                request: Request::ProbeWork,
            },
            (ConnectionTestStep::Probing, Answer::Work(work)) => match work {
                Some(true) => Step::Done(
                    LlmConnectionTestOutcome::Failed(LlmConnectionFailure::Busy),
                ),
                Some(false) => Step::Ask {
                    flow: ConnectionTestStep::Loading,
                    request: Request::LoadSettings,
                },
                None => Step::Done(
                    LlmConnectionTestOutcome::Failed(LlmConnectionFailure::RuntimeUnavailable),
                ),
            },
            (ConnectionTestStep::Loading, Answer::Settings(settings)) => match settings {
                Ok(settings) => Step::Ask {
                    flow: ConnectionTestStep::Resolving,
                    request: Request::ResolveRoute(route_candidate(&settings.input.llm)),
                },
                Err(_) => Step::Done(
                    LlmConnectionTestOutcome::Failed(LlmConnectionFailure::SettingsUnavailable),
                ),
            },
            (ConnectionTestStep::Resolving, Answer::Resolution(resolution)) => match resolution {
                LlmRouteResolution::Ready(route) => Step::Ask {
                    flow: ConnectionTestStep::Releasing { route },
                    request: Request::ReleaseConfiguration,
                },
                LlmRouteResolution::NoConfiguration => Step::Done(
                    LlmConnectionTestOutcome::Failed(LlmConnectionFailure::NotConfigured),
                ),
                LlmRouteResolution::MissingSecret(_) => Step::Done(
                    LlmConnectionTestOutcome::Failed(LlmConnectionFailure::NotConfigured),
                ),
                LlmRouteResolution::Unavailable { route: Some(route), error } => Step::Ask {
                    flow: ConnectionTestStep::InspectingSecret { error },
                    request: Request::InspectSecret(route.secret_id),
                },
                LlmRouteResolution::Unavailable { route: None, error } => Step::Done(
                    LlmConnectionTestOutcome::Failed(map_connection_error(&error)),
                ),
            },
            (ConnectionTestStep::InspectingSecret { error }, Answer::Material(material)) => {
                let failure = match material {
                    Ok(SecretMaterialState::RecoveryRequired) => {
                        LlmConnectionFailure::RecoveryRequired
                    },
                    Ok(SecretMaterialState::NotConfigured) => LlmConnectionFailure::NotConfigured,
                    Ok(SecretMaterialState::Configured) => map_connection_error(&error),
                    Err(_) => LlmConnectionFailure::SecretUnavailable,
                };
                Step::Done(LlmConnectionTestOutcome::Failed(failure))
            },
            (ConnectionTestStep::Releasing { route }, _) => Step::Ask {
                flow: ConnectionTestStep::Issuing { route },
                request: Request::IssueProbeIds,
            },
            (ConnectionTestStep::Issuing { route }, Answer::ProbeIds { session_id, request_id }) => {
                let request = TextProcessingRequest {
                    session_id,
                    request_id,
                    processing_mode: ProcessingMode::Faithful,
                    raw_transcript: CONNECTION_TEST_TEXT.to_owned(),
                    selected_text: None,
                };
                Step::Ask {
                    flow: ConnectionTestStep::Asking { session_id, request_id },
                    request: Request::ProbeConnection { route, request },
                }
            },
            (ConnectionTestStep::Asking { session_id, request_id }, Answer::Probe(probe)) => {
                Step::Done(connection_outcome(session_id, request_id, probe))
            },
            _ => vstd::pervasive::unreached(),
        }
    }
}

} // verus!
