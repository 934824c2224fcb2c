//! Everything about the one language model that a user can configure.
//!
//! Ordinary settings and secrets live in different stores. The use cases here
//! are the only ones that write both, and they share the configuration lock with
//! the start of a session: a session freezes what was there before a change or
//! starts after the whole of it.

use crate::configuration::{Answer, Request, Step};
use crate::domain::{LlmNonSecretSettings, SettingsSnapshot};
use crate::ports::{
    port_error, LlmRouteCandidate, LlmRouteResolution, LlmUpstreamError, PortError,
    ResolvedLlmRoute, SecretMaterialState,
};
use crate::settings_write::{
    invalid_settings_error, is_invalid_settings, is_version_conflict, version_conflict_error,
    Refusal,
};
use vstd::prelude::*;

pub mod api_key;
pub mod connection;
pub mod laws;
pub mod settings;
pub mod status;

verus! {

/// The longest key that can be stored.
pub const MAX_API_KEY_BYTES: usize = 8_192;

/// All keys of language models live under this name in the secret store.
pub const LLM_SECRET_NAMESPACE: &'static str = "llm.openai_compatible.";

#[derive(Clone, Copy, Debug, PartialEq, Eq, Structural)]
pub enum LlmApiKeyStatus {
    NotConfigured,
    Configured,
    RecoveryRequired,
    Unavailable,
}

impl LlmApiKeyStatus {
    /// Whether there is a key that can be used.
    pub fn is_configured(self) -> (r: bool)
        ensures
            r <==> self == LlmApiKeyStatus::Configured,
    {
        matches!(self, LlmApiKeyStatus::Configured)
    }
}

#[derive(Clone, Copy, Debug, PartialEq, Eq, Structural)]
pub enum LlmConnectionFailure {
    Busy,
    RuntimeUnavailable,
    SettingsUnavailable,
    NotConfigured,
    RecoveryRequired,
    SecretUnavailable,
    InvalidConfiguration,
    AuthenticationFailed,
    PermissionDenied,
    RateLimited,
    Timeout,
    Network,
    ProviderUnavailable,
    RequestRejected,
    InvalidResponse,
    ResponseTooLarge,
    Cancelled,
    Internal,
}

#[derive(Clone, PartialEq, Eq)]
pub enum LlmConnectionTestOutcome {
    Succeeded,
    Failed(LlmConnectionFailure),
    FailedWithUpstream { failure: LlmConnectionFailure, upstream: LlmUpstreamError },
}

#[derive(Debug, PartialEq, Eq)]
pub enum LlmConfigurationError {
    Busy,
    NotConfigured,
    /// The secret store has to be reset before anything can be stored in it.
    RecoveryRequired,
    InvalidSecret,
    InvalidConfiguration(PortError),
    /// What was stored could not be found again, or the other way round.
    SecretVerificationFailed,
    RuntimeUnavailable,
    Port(PortError),
}

/// Why a use case was not carried out.
pub enum LlmConfigurationFailure {
    Refused(Refusal),
    NotConfigured,
    RecoveryRequired,
    InvalidSecret,
    InvalidConfiguration(PortError),
    InvalidSettings,
    SecretVerificationFailed,
    /// The secret store can be read, so there is nothing to reset.
    ResetNotRequired,
}

impl LlmConfigurationError {
    /// Whether this error tells of a failure. No use case here enters the
    /// application, so none is refused because it quits.
    pub open spec fn tells(self, failure: LlmConfigurationFailure) -> bool {
        match failure {
            LlmConfigurationFailure::Refused(Refusal::Quitting) => self is RuntimeUnavailable,
            LlmConfigurationFailure::Refused(Refusal::Busy) => self is Busy,
            LlmConfigurationFailure::Refused(Refusal::RuntimeUnavailable) => {
                self is RuntimeUnavailable
            },
            LlmConfigurationFailure::Refused(Refusal::VersionConflict) => {
                self is Port && is_version_conflict(self->Port_0)
            },
            LlmConfigurationFailure::Refused(Refusal::Port(error)) => {
                self == LlmConfigurationError::Port(error)
            },
            LlmConfigurationFailure::NotConfigured => self is NotConfigured,
            LlmConfigurationFailure::RecoveryRequired => self is RecoveryRequired,
            LlmConfigurationFailure::InvalidSecret => self is InvalidSecret,
            LlmConfigurationFailure::InvalidConfiguration(error) => {
                self == LlmConfigurationError::InvalidConfiguration(error)
            },
            LlmConfigurationFailure::InvalidSettings => {
                self is InvalidConfiguration && is_invalid_settings(self->InvalidConfiguration_0)
            },
            LlmConfigurationFailure::SecretVerificationFailed => self is SecretVerificationFailed,
            LlmConfigurationFailure::ResetNotRequired => {
                self is Port && self->Port_0.is_coded("secret.reset_not_required"@, false)
            },
        }
    }

    pub(crate) fn of_refusal(refusal: Refusal) -> (r: LlmConfigurationError)
        ensures
            r.tells(LlmConfigurationFailure::Refused(refusal)),
    {
        match refusal {
            Refusal::Quitting => LlmConfigurationError::RuntimeUnavailable,
            Refusal::Busy => LlmConfigurationError::Busy,
            Refusal::RuntimeUnavailable => LlmConfigurationError::RuntimeUnavailable,
            Refusal::VersionConflict => LlmConfigurationError::Port(version_conflict_error()),
            Refusal::Port(error) => LlmConfigurationError::Port(error),
        }
    }
}

/// The failure of settings that would not be acceptable.
pub fn invalid_configuration_error() -> (r: LlmConfigurationError)
    ensures
        r.tells(LlmConfigurationFailure::InvalidSettings),
{
    LlmConfigurationError::InvalidConfiguration(invalid_settings_error())
}

pub(crate) fn reset_not_required_error() -> (r: LlmConfigurationError)
    ensures
        r.tells(LlmConfigurationFailure::ResetNotRequired),
{
    LlmConfigurationError::Port(port_error("secret.reset_not_required", false))
}

/// Whether a character can stand in a bearer header: visible ASCII.
pub open spec fn is_header_safe(c: char) -> bool {
    0x21 <= c as u32 <= 0x7e
}

/// Whether a text can be stored as a key, so that no stored key fails later
/// where it is sent.
pub open spec fn is_acceptable_key(text: Seq<char>) -> bool {
    &&& 0 < text.len() <= MAX_API_KEY_BYTES
    &&& forall|i: int| 0 <= i < text.len() ==> is_header_safe(#[trigger] text[i])
}

/// Accepts only what can be sent as a key.
pub fn validate_secret_value(value: &str) -> (r: Result<(), LlmConfigurationError>)
    ensures
        is_acceptable_key(value@) ==> r is Ok,
        !is_acceptable_key(value@) ==> r == Err::<(), LlmConfigurationError>(
            LlmConfigurationError::InvalidSecret,
        ),
{
    let mut length: usize = 0;
    for c in chars: value.chars()
        invariant
            chars.seq() == value@,
            length == chars.index(),
            length <= MAX_API_KEY_BYTES,
            forall|i: int| 0 <= i < chars.index() ==> is_header_safe(#[trigger] value@[i]),
    {
        assert(c == value@[chars.index() as int]);
        let point: u32 = c as u32;
        if point < 0x21 || point > 0x7e || length == MAX_API_KEY_BYTES {
            return Err(LlmConfigurationError::InvalidSecret);
        }
        length = length + 1;
    }
    if length == 0 {
        return Err(LlmConfigurationError::InvalidSecret);
    }
    Ok(())
}

/// What the provider is asked to resolve for these settings.
pub open spec fn candidate_of(llm: Option<LlmNonSecretSettings>) -> Option<LlmRouteCandidate> {
    match llm {
        Some(llm) => Some(LlmRouteCandidate { base_url: llm.base_url, model: llm.model }),
        None => None,
    }
}

pub(crate) fn route_candidate(llm: &Option<LlmNonSecretSettings>) -> (r: Option<LlmRouteCandidate>)
    ensures
        r == candidate_of(*llm),
{
    match llm {
        Some(llm) => Some(LlmRouteCandidate::new(llm.base_url.clone(), llm.model.clone())),
        None => None,
    }
}

/// The route of a configuration whose endpoint and model are valid, whether or
/// not there is a key for it.
pub open spec fn validated(resolution: LlmRouteResolution) -> Result<
    ResolvedLlmRoute,
    LlmConfigurationFailure,
> {
    match resolution {
        LlmRouteResolution::Ready(route) => Ok(route),
        LlmRouteResolution::MissingSecret(route) => Ok(route),
        LlmRouteResolution::Unavailable { route: Some(route), .. } => Ok(route),
        LlmRouteResolution::NoConfiguration => Err(LlmConfigurationFailure::NotConfigured),
        LlmRouteResolution::Unavailable { route: None, error } => Err(
            LlmConfigurationFailure::InvalidConfiguration(error),
        ),
    }
}

/// The route of a configuration whose endpoint and model are valid.
pub fn validated_route(resolution: LlmRouteResolution) -> (r: Result<
    ResolvedLlmRoute,
    LlmConfigurationError,
>)
    ensures
        match validated(resolution) {
            Ok(route) => r == Ok::<ResolvedLlmRoute, LlmConfigurationError>(route),
            Err(failure) => r is Err && r->Err_0.tells(failure),
        },
{
    match resolution {
        LlmRouteResolution::Ready(route) => Ok(route),
        LlmRouteResolution::MissingSecret(route) => Ok(route),
        LlmRouteResolution::Unavailable { route: Some(route), .. } => Ok(route),
        LlmRouteResolution::NoConfiguration => Err(LlmConfigurationError::NotConfigured),
        LlmRouteResolution::Unavailable { route: None, error } => Err(
            LlmConfigurationError::InvalidConfiguration(error),
        ),
    }
}

/// Why nothing may be stored among the secrets, if so.
pub open spec fn store_refusal(material: Result<SecretMaterialState, PortError>) -> Option<
    LlmConfigurationFailure,
> {
    match material {
        Ok(SecretMaterialState::RecoveryRequired) => Some(
            LlmConfigurationFailure::RecoveryRequired,
        ),
        Ok(_) => None,
        Err(error) => Some(LlmConfigurationFailure::Refused(Refusal::Port(error))),
    }
}

/// Whether something may be stored among the secrets.
pub(crate) fn ensure_secret_store_mutable(material: Result<SecretMaterialState, PortError>) -> (r:
    Result<(), LlmConfigurationError>)
    ensures
        match store_refusal(material) {
            None => r is Ok,
            Some(failure) => r is Err && r->Err_0.tells(failure),
        },
{
    match material {
        Ok(SecretMaterialState::RecoveryRequired) => Err(LlmConfigurationError::RecoveryRequired),
        Ok(_) => Ok(()),
        Err(error) => Err(LlmConfigurationError::Port(error)),
    }
}

/// Configures the language model.
#[derive(Clone, Copy, Debug)]
pub struct LlmConfigurationController {}

impl LlmConfigurationController {
    pub fn new() -> (r: LlmConfigurationController)
        ensures
            r == (LlmConfigurationController {  }),
    {
        LlmConfigurationController {  }
    }

    /// Begins to read the settings.
    pub fn get_settings(&self) -> (r: Step<(), Result<SettingsSnapshot, LlmConfigurationError>>)
        ensures
            r == (Step::<(), Result<SettingsSnapshot, LlmConfigurationError>>::Ask {
                flow: (),
                request: Request::LoadSettings,
            }),
    {
        Step::Ask { flow: (), request: Request::LoadSettings }
    }

    /// Hands on the settings that were read.
    pub fn resume_get_settings(&self, answer: Answer) -> (r: Result<
        SettingsSnapshot,
        LlmConfigurationError,
    >)
        requires
            answer is Settings,
        ensures
            match answer->Settings_0 {
                Ok(settings) => r == Ok::<SettingsSnapshot, LlmConfigurationError>(settings),
                Err(error) => r == Err::<SettingsSnapshot, LlmConfigurationError>(
                    LlmConfigurationError::Port(error),
                ),
            },
    {
        match answer {
            Answer::Settings(Ok(settings)) => Ok(settings),
            Answer::Settings(Err(error)) => Err(LlmConfigurationError::Port(error)),
            _ => vstd::pervasive::unreached(),
        }
    }
}

} // verus!
