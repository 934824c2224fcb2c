//! Storing, showing and removing the key.

use crate::configuration::{Answer, Request, Step};
use crate::domain::SettingsSnapshot;
use crate::llm_configuration::{
    candidate_of, ensure_secret_store_mutable, is_acceptable_key, reset_not_required_error,
    route_candidate, store_refusal, validate_secret_value, validated, validated_route,
    LlmApiKeyStatus, LlmConfigurationController, LlmConfigurationError, LlmConfigurationFailure,
    LLM_SECRET_NAMESPACE,
};
use crate::ports::{secret_text, LlmRouteResolution, PortError, SecretMaterialState, SecretValue};
use crate::settings_write::Refusal;
use vstd::prelude::*;

verus! {

/// What is wanted of the key.
pub enum ApiKeyGoal {
    Store(SecretValue),
    Reveal,
    Delete,
    Reset,
}

/// What came of it.
pub enum ApiKeyOutcome {
    Status(LlmApiKeyStatus),
    Revealed(SecretValue),
}

/// How far it has come.
pub enum ApiKeyFlow {
    TakingTurn(ApiKeyGoal),
    Locking(ApiKeyGoal),
    Probing(ApiKeyGoal),
    Loading(ApiKeyGoal),
    Resolving(ApiKeyGoal),
    /// A new key waits for a store that can be written.
    CheckingStore { value: SecretValue, secret_id: String },
    Storing { secret_id: String },
    /// The key that was just stored is being looked for.
    Verifying,
    /// A key is being looked for before it is shown.
    Inspecting { secret_id: String },
    Reading,
    /// The store is being looked at before the key is removed.
    InspectingBeforeDelete,
    Deleting,
    /// The store is being looked at before it is reset.
    InspectingBeforeReset,
    Resetting,
    InspectingAfterReset,
}

pub type ApiKeyResult = Result<ApiKeyOutcome, LlmConfigurationError>;

/// A step whose failure has not been put into words.
pub type ApiKeyMove = Step<ApiKeyFlow, Result<ApiKeyOutcome, LlmConfigurationFailure>>;

/// Whether a step is the given one, its failure put into words.
pub open spec fn shows_api_key(step: Step<ApiKeyFlow, ApiKeyResult>, mv: ApiKeyMove) -> bool {
    match mv {
        Step::Ask { flow, request } => step == (Step::<ApiKeyFlow, ApiKeyResult>::Ask {
            flow,
            request,
        }),
        Step::Done(Ok(outcome)) => step == Step::<ApiKeyFlow, ApiKeyResult>::Done(Ok(outcome)),
        Step::Done(Err(failure)) => step is Done && step->Done_0 is Err
            && step->Done_0->Err_0.tells(failure),
    }
}

pub open spec fn key_fails(failure: LlmConfigurationFailure) -> ApiKeyMove {
    Step::Done(Err(failure))
}

pub open spec fn key_port_fails(error: PortError) -> ApiKeyMove {
    key_fails(LlmConfigurationFailure::Refused(Refusal::Port(error)))
}

pub open spec fn key_asks(flow: ApiKeyFlow, request: Request) -> ApiKeyMove {
    Step::Ask { flow, request }
}

pub open spec fn key_ends(status: LlmApiKeyStatus) -> ApiKeyMove {
    Step::Done(Ok(ApiKeyOutcome::Status(status)))
}

/// How a use of the key begins. A key that could not be sent is refused at once.
pub open spec fn api_key_begin(goal: ApiKeyGoal) -> ApiKeyMove {
    if goal is Store && !is_acceptable_key(secret_text(goal->Store_0)) {
        key_fails(LlmConfigurationFailure::InvalidSecret)
    } else {
        key_asks(ApiKeyFlow::TakingTurn(goal), Request::TakeTurn)
    }
}

/// Only showing a key can do without an idle application.
pub open spec fn key_on_locked(goal: ApiKeyGoal) -> ApiKeyMove {
    if goal is Reveal {
        key_asks(ApiKeyFlow::Loading(goal), Request::LoadSettings)
    } else {
        key_asks(ApiKeyFlow::Probing(goal), Request::ProbeWork)
    }
}

/// Removing needs no endpoint: it reaches every key of a language model.
pub open spec fn key_on_idle(goal: ApiKeyGoal) -> ApiKeyMove {
    match goal {
        ApiKeyGoal::Delete => key_asks(ApiKeyFlow::InspectingBeforeDelete, Request::InspectStore),
        ApiKeyGoal::Reset => key_asks(ApiKeyFlow::InspectingBeforeReset, Request::InspectStore),
        _ => key_asks(ApiKeyFlow::Loading(goal), Request::LoadSettings),
    }
}

pub open spec fn key_on_loaded(
    goal: ApiKeyGoal,
    settings: Result<SettingsSnapshot, PortError>,
) -> ApiKeyMove {
    match settings {
        Err(error) => key_port_fails(error),
        Ok(settings) => match settings.input.llm {
            Some(_) => key_asks(
                ApiKeyFlow::Resolving(goal),
                Request::ResolveRoute(candidate_of(settings.input.llm)),
            ),
            None => key_fails(LlmConfigurationFailure::NotConfigured),
        },
    }
}

pub open spec fn key_on_resolved(goal: ApiKeyGoal, resolution: LlmRouteResolution) -> ApiKeyMove {
    match validated(resolution) {
        Err(failure) => key_fails(failure),
        Ok(route) => match goal {
            ApiKeyGoal::Store(value) => key_asks(
                ApiKeyFlow::CheckingStore { value, secret_id: route.secret_id },
                Request::InspectStore,
            ),
            _ => key_asks(
                ApiKeyFlow::Inspecting { secret_id: route.secret_id },
                Request::InspectSecret(route.secret_id),
            ),
        },
    }
}

/// A key counts as stored only once it has been found again.
pub open spec fn key_on_verified(material: Result<SecretMaterialState, PortError>) -> ApiKeyMove {
    match material {
        Ok(SecretMaterialState::Configured) => key_ends(LlmApiKeyStatus::Configured),
        Ok(SecretMaterialState::RecoveryRequired) => key_fails(
            LlmConfigurationFailure::RecoveryRequired,
        ),
        Ok(SecretMaterialState::NotConfigured) => key_fails(
            LlmConfigurationFailure::SecretVerificationFailed,
        ),
        Err(error) => key_port_fails(error),
    }
}

pub open spec fn key_on_inspected(
    secret_id: String,
    material: Result<SecretMaterialState, PortError>,
) -> ApiKeyMove {
    match material {
        Ok(SecretMaterialState::NotConfigured) => key_fails(LlmConfigurationFailure::NotConfigured),
        Ok(SecretMaterialState::RecoveryRequired) => key_fails(
            LlmConfigurationFailure::RecoveryRequired,
        ),
        Ok(SecretMaterialState::Configured) => key_asks(
            ApiKeyFlow::Reading,
            Request::ReadSecret(secret_id),
        ),
        Err(error) => key_port_fails(error),
    }
}

pub open spec fn key_on_read(secret: Result<Option<SecretValue>, PortError>) -> ApiKeyMove {
    match secret {
        Ok(Some(value)) => Step::Done(Ok(ApiKeyOutcome::Revealed(value))),
        Ok(None) => key_fails(LlmConfigurationFailure::SecretVerificationFailed),
        Err(error) => key_port_fails(error),
    }
}

/// Whether an answer is what a use of the key waits for.
pub open spec fn api_key_awaits(flow: ApiKeyFlow, answer: Answer) -> bool {
    match flow {
        ApiKeyFlow::TakingTurn(_) | ApiKeyFlow::Locking(_) => answer is Ready,
        ApiKeyFlow::Probing(_) => answer is Work,
        ApiKeyFlow::Loading(_) => answer is Settings,
        ApiKeyFlow::Resolving(_) => answer is Resolution,
        ApiKeyFlow::CheckingStore { .. }
        | ApiKeyFlow::Verifying
        | ApiKeyFlow::Inspecting { .. }
        | ApiKeyFlow::InspectingBeforeDelete
        | ApiKeyFlow::InspectingBeforeReset
        | ApiKeyFlow::InspectingAfterReset => answer is Material,
        ApiKeyFlow::Storing { .. } | ApiKeyFlow::Resetting => answer is Acted,
        ApiKeyFlow::Reading => answer is Secret,
        ApiKeyFlow::Deleting => answer is Deleted,
    }
}

/// The whole use of the key, one answer at a time.
pub open spec fn api_key_step(flow: ApiKeyFlow, answer: Answer) -> ApiKeyMove {
    match flow {
        ApiKeyFlow::TakingTurn(goal) => key_asks(
            ApiKeyFlow::Locking(goal),
            Request::LockConfiguration,
        ),
        ApiKeyFlow::Locking(goal) => key_on_locked(goal),
        ApiKeyFlow::Probing(goal) => match answer->Work_0 {
            Some(true) => key_fails(LlmConfigurationFailure::Refused(Refusal::Busy)),
            Some(false) => key_on_idle(goal),
            None => key_fails(LlmConfigurationFailure::Refused(Refusal::RuntimeUnavailable)),
        },
        ApiKeyFlow::Loading(goal) => key_on_loaded(goal, answer->Settings_0),
        ApiKeyFlow::Resolving(goal) => key_on_resolved(goal, answer->Resolution_0),
        ApiKeyFlow::CheckingStore { value, secret_id } => match store_refusal(answer->Material_0) {
            Some(failure) => key_fails(failure),
            None => key_asks(
                ApiKeyFlow::Storing { secret_id },
                Request::ReplaceNamespace { namespace: LLM_SECRET_NAMESPACE, secret_id, value },
            ),
        },
        ApiKeyFlow::Storing { secret_id } => match answer->Acted_0 {
            Ok(_) => key_asks(ApiKeyFlow::Verifying, Request::InspectSecret(secret_id)),
            Err(error) => key_port_fails(error),
        },
        ApiKeyFlow::Verifying => key_on_verified(answer->Material_0),
        ApiKeyFlow::Inspecting { secret_id } => key_on_inspected(secret_id, answer->Material_0),
        ApiKeyFlow::Reading => key_on_read(answer->Secret_0),
        ApiKeyFlow::InspectingBeforeDelete => match answer->Material_0 {
            Ok(SecretMaterialState::RecoveryRequired) => key_fails(
                LlmConfigurationFailure::RecoveryRequired,
            ),
            Ok(SecretMaterialState::NotConfigured) => key_ends(LlmApiKeyStatus::NotConfigured),
            Ok(SecretMaterialState::Configured) => key_asks(
                ApiKeyFlow::Deleting,
                Request::DeleteNamespace(LLM_SECRET_NAMESPACE),
            ),
            Err(error) => key_port_fails(error),
        },
        ApiKeyFlow::Deleting => match answer->Deleted_0 {
            Ok(_) => key_ends(LlmApiKeyStatus::NotConfigured),
            Err(error) => key_port_fails(error),
        },
        ApiKeyFlow::InspectingBeforeReset => match answer->Material_0 {
            Ok(SecretMaterialState::RecoveryRequired) => key_asks(
                ApiKeyFlow::Resetting,
                Request::ResetStore,
            ),
            Ok(_) => key_fails(LlmConfigurationFailure::ResetNotRequired),
            Err(error) => key_port_fails(error),
        },
        ApiKeyFlow::Resetting => match answer->Acted_0 {
            Ok(_) => key_asks(ApiKeyFlow::InspectingAfterReset, Request::InspectStore),
            Err(error) => key_port_fails(error),
        },
        ApiKeyFlow::InspectingAfterReset => match answer->Material_0 {
            Ok(SecretMaterialState::NotConfigured) => key_ends(LlmApiKeyStatus::NotConfigured),
            Ok(_) => key_fails(LlmConfigurationFailure::SecretVerificationFailed),
            Err(error) => key_port_fails(error),
        },
    }
}

/// A key is stored only as it was given, only under the name of its endpoint,
/// and only in a store that can be read; a store is reset only where it cannot.
pub proof fn secrets_are_written_only_where_they_can_be_read(flow: ApiKeyFlow, answer: Answer)
    requires
        api_key_awaits(flow, answer),
    ensures
        api_key_step(flow, answer) is Ask ==> match api_key_step(flow, answer)->request {
            Request::ReplaceNamespace { namespace, secret_id, value } => {
                &&& flow is CheckingStore
                &&& answer->Material_0 is Ok
                &&& answer->Material_0->Ok_0 != SecretMaterialState::RecoveryRequired
                &&& value == flow->value
                &&& secret_id == flow->CheckingStore_secret_id
                &&& namespace == LLM_SECRET_NAMESPACE
            },
            Request::ResetStore => answer->Material_0 == Ok::<SecretMaterialState, PortError>(
                SecretMaterialState::RecoveryRequired,
            ),
            Request::DeleteNamespace(namespace) => namespace == LLM_SECRET_NAMESPACE
                && answer->Material_0 == Ok::<SecretMaterialState, PortError>(
                SecretMaterialState::Configured,
            ),
            _ => true,
        },
{
}

/// While a session is at work no key is stored or removed.
pub proof fn work_keeps_the_key_as_it_is(goal: ApiKeyGoal, answer: Answer)
    requires
        !(goal is Reveal),
        answer is Work,
    ensures
        api_key_step(ApiKeyFlow::Locking(goal), Answer::Ready) == key_asks(
            ApiKeyFlow::Probing(goal),
            Request::ProbeWork,
        ),
        answer->Work_0 == Some(true) ==> api_key_step(ApiKeyFlow::Probing(goal), answer)
            == key_fails(LlmConfigurationFailure::Refused(Refusal::Busy)),
        answer->Work_0 is None ==> api_key_step(ApiKeyFlow::Probing(goal), answer) == key_fails(
            LlmConfigurationFailure::Refused(Refusal::RuntimeUnavailable),
        ),
{
}

impl LlmConfigurationController {
    /// Begins to store a key for the current endpoint.
    pub fn set_api_key(&self, value: SecretValue) -> (r: Step<ApiKeyFlow, ApiKeyResult>)
        ensures
            shows_api_key(r, api_key_begin(ApiKeyGoal::Store(value))),
    {
        if let Err(error) = validate_secret_value(value.expose()) {
            return Step::Done(Err(error));
        }
        Step::Ask {
            flow: ApiKeyFlow::TakingTurn(ApiKeyGoal::Store(value)),
            request: Request::TakeTurn,
        }
    }

    /// Begins to show the key of the current endpoint.
    pub fn reveal_api_key(&self) -> (r: Step<ApiKeyFlow, ApiKeyResult>)
        ensures
            shows_api_key(r, api_key_begin(ApiKeyGoal::Reveal)),
    {
        Step::Ask { flow: ApiKeyFlow::TakingTurn(ApiKeyGoal::Reveal), request: Request::TakeTurn }
    }

    /// Begins to remove every key of a language model.
    pub fn delete_api_key(&self) -> (r: Step<ApiKeyFlow, ApiKeyResult>)
        ensures
            shows_api_key(r, api_key_begin(ApiKeyGoal::Delete)),
    {
        Step::Ask { flow: ApiKeyFlow::TakingTurn(ApiKeyGoal::Delete), request: Request::TakeTurn }
    }

    /// Begins to reset a secret store that cannot be read any more.
    pub fn reset_unrecoverable_secrets(&self) -> (r: Step<ApiKeyFlow, ApiKeyResult>)
        ensures
            shows_api_key(r, api_key_begin(ApiKeyGoal::Reset)),
    {
        Step::Ask { flow: ApiKeyFlow::TakingTurn(ApiKeyGoal::Reset), request: Request::TakeTurn }
    }

    /// Goes on with a use of the key.
    pub fn resume_api_key(&self, flow: ApiKeyFlow, answer: Answer) -> (r: Step<
        ApiKeyFlow,
        ApiKeyResult,
    >)
        requires
            api_key_awaits(flow, answer),
        ensures
            shows_api_key(r, api_key_step(flow, answer)),
    {
        let (flow, request) = match (flow, answer) {
            (ApiKeyFlow::TakingTurn(goal), _) => (
                ApiKeyFlow::Locking(goal),
                Request::LockConfiguration,
            ),
            (ApiKeyFlow::Locking(goal), _) => match goal {
                ApiKeyGoal::Reveal => (
                    ApiKeyFlow::Loading(ApiKeyGoal::Reveal),
                    Request::LoadSettings,
                ),
                _ => (ApiKeyFlow::Probing(goal), Request::ProbeWork),
            },
            (ApiKeyFlow::Probing(goal), Answer::Work(work)) => match work {
                Some(true) => {
                    return Step::Done(Err(LlmConfigurationError::Busy));
                },
                None => {
                    return Step::Done(Err(LlmConfigurationError::RuntimeUnavailable));
                },
                Some(false) => match goal {
                    ApiKeyGoal::Delete => (
                        ApiKeyFlow::InspectingBeforeDelete,
                        Request::InspectStore,
                    ),
                    ApiKeyGoal::Reset => (ApiKeyFlow::InspectingBeforeReset, Request::InspectStore),
                    _ => (ApiKeyFlow::Loading(goal), Request::LoadSettings),
                },
            },
            (ApiKeyFlow::Loading(goal), Answer::Settings(settings)) => match settings {
                Err(error) => {
                    return Step::Done(Err(LlmConfigurationError::Port(error)));
                },
                Ok(settings) => match route_candidate(&settings.input.llm) {
                    Some(candidate) => (
                        ApiKeyFlow::Resolving(goal),
                        Request::ResolveRoute(Some(candidate)),
                    ),
                    None => {
                        return Step::Done(Err(LlmConfigurationError::NotConfigured));
                    },
                },
            },
            (ApiKeyFlow::Resolving(goal), Answer::Resolution(resolution)) => {
                let route = match validated_route(resolution) {
                    Ok(route) => route,
                    Err(error) => {
                        return Step::Done(Err(error));
                    },
                };
                match goal {
                    ApiKeyGoal::Store(value) => (
                        ApiKeyFlow::CheckingStore { value, secret_id: route.secret_id },
                        Request::InspectStore,
                    ),
                    _ => {
                        let request = Request::InspectSecret(route.secret_id.clone());
                        (ApiKeyFlow::Inspecting { secret_id: route.secret_id }, request)
                    },
                }
            },
            (ApiKeyFlow::CheckingStore { value, secret_id }, Answer::Material(material)) => {
                if let Err(error) = ensure_secret_store_mutable(material) {
                    return Step::Done(Err(error));
                }
                let request = Request::ReplaceNamespace {
                    namespace: LLM_SECRET_NAMESPACE,
                    secret_id: secret_id.clone(),
                    value,
                };
                (ApiKeyFlow::Storing { secret_id }, request)
            },
            (ApiKeyFlow::Storing { secret_id }, Answer::Acted(stored)) => match stored {
                Ok(_) => (ApiKeyFlow::Verifying, Request::InspectSecret(secret_id)),
                Err(error) => {
                    return Step::Done(Err(LlmConfigurationError::Port(error)));
                },
            },
            (ApiKeyFlow::Verifying, Answer::Material(material)) => {
                return match material {
                    Ok(SecretMaterialState::Configured) => Step::Done(
                        Ok(ApiKeyOutcome::Status(LlmApiKeyStatus::Configured)),
                    ),
                    Ok(SecretMaterialState::RecoveryRequired) => Step::Done(
                        Err(LlmConfigurationError::RecoveryRequired),
                    ),
                    Ok(SecretMaterialState::NotConfigured) => Step::Done(
                        Err(LlmConfigurationError::SecretVerificationFailed),
                    ),
                    Err(error) => Step::Done(Err(LlmConfigurationError::Port(error))),
                };
            },
            (ApiKeyFlow::Inspecting { secret_id }, Answer::Material(material)) => match material {
                Ok(SecretMaterialState::Configured) => (
                    ApiKeyFlow::Reading,
                    Request::ReadSecret(secret_id),
                ),
                Ok(SecretMaterialState::NotConfigured) => {
                    return Step::Done(Err(LlmConfigurationError::NotConfigured));
                },
                Ok(SecretMaterialState::RecoveryRequired) => {
                    return Step::Done(Err(LlmConfigurationError::RecoveryRequired));
                },
                Err(error) => {
                    return Step::Done(Err(LlmConfigurationError::Port(error)));
                },
            },
            (ApiKeyFlow::Reading, Answer::Secret(secret)) => {
                return match secret {
                    Ok(Some(value)) => Step::Done(Ok(ApiKeyOutcome::Revealed(value))),
                    Ok(None) => Step::Done(Err(LlmConfigurationError::SecretVerificationFailed)),
                    Err(error) => Step::Done(Err(LlmConfigurationError::Port(error))),
                };
            },
            (ApiKeyFlow::InspectingBeforeDelete, Answer::Material(material)) => match material {
                Ok(SecretMaterialState::Configured) => (
                    ApiKeyFlow::Deleting,
                    Request::DeleteNamespace(LLM_SECRET_NAMESPACE),
                ),
                Ok(SecretMaterialState::RecoveryRequired) => {
                    return Step::Done(Err(LlmConfigurationError::RecoveryRequired));
                },
                Ok(SecretMaterialState::NotConfigured) => {
                    return Step::Done(Ok(ApiKeyOutcome::Status(LlmApiKeyStatus::NotConfigured)));
                },
                Err(error) => {
                    return Step::Done(Err(LlmConfigurationError::Port(error)));
                },
            },
            (ApiKeyFlow::Deleting, Answer::Deleted(deleted)) => {
                return match deleted {
                    Ok(_) => Step::Done(Ok(ApiKeyOutcome::Status(LlmApiKeyStatus::NotConfigured))),
                    Err(error) => Step::Done(Err(LlmConfigurationError::Port(error))),
                };
            },
            (ApiKeyFlow::InspectingBeforeReset, Answer::Material(material)) => match material {
                Ok(SecretMaterialState::RecoveryRequired) => (
                    ApiKeyFlow::Resetting,
                    Request::ResetStore,
                ),
                Ok(_) => {
                    return Step::Done(Err(reset_not_required_error()));
                },
                Err(error) => {
                    return Step::Done(Err(LlmConfigurationError::Port(error)));
                },
            },
            (ApiKeyFlow::Resetting, Answer::Acted(reset)) => match reset {
                Ok(_) => (ApiKeyFlow::InspectingAfterReset, Request::InspectStore),
                Err(error) => {
                    return Step::Done(Err(LlmConfigurationError::Port(error)));
                },
            },
            (ApiKeyFlow::InspectingAfterReset, Answer::Material(material)) => {
                return match material {
                    Ok(SecretMaterialState::NotConfigured) => Step::Done(
                        Ok(ApiKeyOutcome::Status(LlmApiKeyStatus::NotConfigured)),
                    ),
                    Ok(_) => Step::Done(Err(LlmConfigurationError::SecretVerificationFailed)),
                    Err(error) => Step::Done(Err(LlmConfigurationError::Port(error))),
                };
            },
            _ => vstd::pervasive::unreached(),
        };
        Step::Ask { flow, request }
    }
}

} // verus!
