//! Whether there is a key, and whether the language model could be used now.

use crate::configuration::{Answer, Request, Step};
use crate::domain::SettingsSnapshot;
use crate::llm_configuration::{
    candidate_of, route_candidate, LlmApiKeyStatus, LlmConfigurationController,
};
use crate::ports::{LlmRouteResolution, PortError, SecretMaterialState};
use vstd::prelude::*;

verus! {

/// How far finding out about the key has come.
pub enum KeyStatusStep {
    Locking,
    Loading,
    InspectingStore { settings: SettingsSnapshot },
    Resolving,
    InspectingSecret,
}

pub type KeyStatusMove = Step<KeyStatusStep, LlmApiKeyStatus>;

/// What the state of one secret means for the key.
pub open spec fn status_of(material: Result<SecretMaterialState, PortError>) -> LlmApiKeyStatus {
    match material {
        Ok(SecretMaterialState::NotConfigured) => LlmApiKeyStatus::NotConfigured,
        Ok(SecretMaterialState::RecoveryRequired) => LlmApiKeyStatus::RecoveryRequired,
        Ok(SecretMaterialState::Configured) => LlmApiKeyStatus::Configured,
        Err(_) => LlmApiKeyStatus::Unavailable,
    }
}

/// Whether an answer is what finding out about the key waits for.
pub open spec fn key_status_awaits(step: KeyStatusStep, answer: Answer) -> bool {
    match step {
        KeyStatusStep::Locking => answer is Ready,
        KeyStatusStep::Loading => answer is Settings,
        KeyStatusStep::InspectingStore { .. } | KeyStatusStep::InspectingSecret => {
            answer is Material
        },
        KeyStatusStep::Resolving => answer is Resolution,
    }
}

pub open spec fn key_status_begin() -> KeyStatusMove {
    Step::Ask { flow: KeyStatusStep::Locking, request: Request::LockConfiguration }
}

/// Finding out about the key, one answer at a time.
pub open spec fn key_status_step(step: KeyStatusStep, answer: Answer) -> KeyStatusMove {
    match step {
        KeyStatusStep::Locking => Step::Ask {
            flow: KeyStatusStep::Loading,
            request: Request::LoadSettings,
        },
        KeyStatusStep::Loading => match answer->Settings_0 {
            Ok(settings) => Step::Ask {
                flow: KeyStatusStep::InspectingStore { settings },
                request: Request::InspectStore,
            },
            Err(_) => Step::Done(LlmApiKeyStatus::Unavailable),
        },
        KeyStatusStep::InspectingStore { settings } => match answer->Material_0 {
            Ok(SecretMaterialState::RecoveryRequired) => Step::Done(
                LlmApiKeyStatus::RecoveryRequired,
            ),
            Ok(_) => Step::Ask {
                flow: KeyStatusStep::Resolving,
                request: Request::ResolveRoute(candidate_of(settings.input.llm)),
            },
            Err(_) => Step::Done(LlmApiKeyStatus::Unavailable),
        },
        KeyStatusStep::Resolving => match answer->Resolution_0 {
            LlmRouteResolution::NoConfiguration | LlmRouteResolution::MissingSecret(_) => {
                Step::Done(LlmApiKeyStatus::NotConfigured)
            },
            LlmRouteResolution::Ready(_) => Step::Done(LlmApiKeyStatus::Configured),
            LlmRouteResolution::Unavailable { route: Some(route), .. } => Step::Ask {
                flow: KeyStatusStep::InspectingSecret,
                request: Request::InspectSecret(route.secret_id),
            },
            LlmRouteResolution::Unavailable { route: None, .. } => Step::Done(
                LlmApiKeyStatus::Unavailable,
            ),
        },
        KeyStatusStep::InspectingSecret => Step::Done(status_of(answer->Material_0)),
    }
}

/// How far finding out about readiness has come.
#[derive(Clone, Copy, Debug, PartialEq, Eq, Structural)]
pub enum ReadinessStep {
    Locking,
    Loading,
    Resolving,
}

pub type ReadinessMove = Step<ReadinessStep, bool>;

/// Whether an answer is what finding out about readiness waits for.
pub open spec fn readiness_awaits(step: ReadinessStep, answer: Answer) -> bool {
    match step {
        ReadinessStep::Locking => answer is Ready,
        ReadinessStep::Loading => answer is Settings,
        ReadinessStep::Resolving => answer is Resolution,
    }
}

pub open spec fn readiness_begin() -> ReadinessMove {
    Step::Ask { flow: ReadinessStep::Locking, request: Request::LockConfiguration }
}

/// Finding out about readiness, one answer at a time.
pub open spec fn readiness_step(step: ReadinessStep, answer: Answer) -> ReadinessMove {
    match step {
        ReadinessStep::Locking => Step::Ask {
            flow: ReadinessStep::Loading,
            request: Request::LoadSettings,
        },
        ReadinessStep::Loading => match answer->Settings_0 {
            Ok(settings) => Step::Ask {
                flow: ReadinessStep::Resolving,
                request: Request::ResolveRoute(candidate_of(settings.input.llm)),
            },
            Err(_) => Step::Done(false),
        },
        ReadinessStep::Resolving => Step::Done(answer->Resolution_0 is Ready),
    }
}

impl LlmConfigurationController {
    /// Begins to find out about the key.
    pub fn api_key_status(&self) -> (r: KeyStatusMove)
        ensures
            r == key_status_begin(),
    {
        Step::Ask { flow: KeyStatusStep::Locking, request: Request::LockConfiguration }
    }

    /// Goes on finding out about the key.
    pub fn resume_status(&self, step: KeyStatusStep, answer: Answer) -> (r: KeyStatusMove)
        requires
            key_status_awaits(step, answer),
        ensures
            r == key_status_step(step, answer),
    {
        match (step, answer) {
            (KeyStatusStep::Locking, _) => Step::Ask {
                flow: KeyStatusStep::Loading,
                request: Request::LoadSettings,
            },
            (KeyStatusStep::Loading, Answer::Settings(settings)) => match settings {
                Ok(settings) => Step::Ask {
                    flow: KeyStatusStep::InspectingStore { settings },
                    request: Request::InspectStore,
                },
                Err(_) => Step::Done(LlmApiKeyStatus::Unavailable),
            },
            (KeyStatusStep::InspectingStore { settings }, Answer::Material(material)) => {
                match material {
                    Ok(SecretMaterialState::RecoveryRequired) => Step::Done(
                        LlmApiKeyStatus::RecoveryRequired,
                    ),
                    Ok(_) => Step::Ask {
                        flow: KeyStatusStep::Resolving,
                        request: Request::ResolveRoute(route_candidate(&settings.input.llm)),
                    },
                    Err(_) => Step::Done(LlmApiKeyStatus::Unavailable),
                }
            },
            (KeyStatusStep::Resolving, Answer::Resolution(resolution)) => match resolution {
                LlmRouteResolution::NoConfiguration => Step::Done(LlmApiKeyStatus::NotConfigured),
                LlmRouteResolution::MissingSecret(_) => Step::Done(LlmApiKeyStatus::NotConfigured),
                LlmRouteResolution::Ready(_) => Step::Done(LlmApiKeyStatus::Configured),
                LlmRouteResolution::Unavailable { route: Some(route), .. } => Step::Ask {
                    flow: KeyStatusStep::InspectingSecret,
                    request: Request::InspectSecret(route.secret_id),
                },
                LlmRouteResolution::Unavailable { route: None, .. } => Step::Done(
                    LlmApiKeyStatus::Unavailable,
                ),
            },
            (KeyStatusStep::InspectingSecret, Answer::Material(material)) => match material {
                Ok(SecretMaterialState::NotConfigured) => Step::Done(
                    LlmApiKeyStatus::NotConfigured,
                ),
                Ok(SecretMaterialState::RecoveryRequired) => Step::Done(
                    LlmApiKeyStatus::RecoveryRequired,
                ),
                Ok(SecretMaterialState::Configured) => Step::Done(LlmApiKeyStatus::Configured),
                Err(_) => Step::Done(LlmApiKeyStatus::Unavailable),
            },
            _ => vstd::pervasive::unreached(),
        }
    }

    /// Begins to find out whether the language model could be used now.
    pub fn is_llm_ready(&self) -> (r: ReadinessMove)
        ensures
            r == readiness_begin(),
    {
        Step::Ask { flow: ReadinessStep::Locking, request: Request::LockConfiguration }
    }

    /// Goes on finding out about readiness.
    pub fn resume_readiness(&self, step: ReadinessStep, answer: Answer) -> (r: ReadinessMove)
        requires
            readiness_awaits(step, answer),
        ensures
            r == readiness_step(step, answer),
    {
        match (step, answer) {
            (ReadinessStep::Locking, _) => Step::Ask {
                flow: ReadinessStep::Loading,
                request: Request::LoadSettings,
            },
            (ReadinessStep::Loading, Answer::Settings(settings)) => match settings {
                Ok(settings) => Step::Ask {
                    flow: ReadinessStep::Resolving,
                    request: Request::ResolveRoute(route_candidate(&settings.input.llm)),
                },
                Err(_) => Step::Done(false),
            },
            (ReadinessStep::Resolving, Answer::Resolution(resolution)) => Step::Done(
                matches!(resolution, LlmRouteResolution::Ready(_)),
            ),
            _ => vstd::pervasive::unreached(),
        }
    }
}

} // verus!
