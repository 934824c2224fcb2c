//! How the changes to the settings begin, and how they say why they were not made: a
//! request that is turned away is told for what it was, by every use case in the same words.

use crate::asr_health_controller::{
    health_check_begin, model_switch_begin, AsrModelSwitchError, ModelSwitchFailure,
};
use crate::domain::{AsrEngine, SettingsSnapshot, TimestampMs};
use crate::history_controller::{history_begin, HistoryGoal};
use crate::history_settings_controller::{
    history_settings_begin, HistorySettingsError, HistorySettingsFailure,
};
use crate::llm_configuration::laws::llm_change_stands;
use crate::llm_configuration::settings::{delivery_terms, llm_settings_begin, seen_terms};
use crate::llm_configuration::status::{key_status_begin, readiness_begin};
use crate::llm_configuration::{LlmConfigurationError, LlmConfigurationFailure};
use crate::ports::PortError;
use crate::recording_settings_controller::{
    is_offered, recording_settings_begin, RecordingSettingsError, RecordingSettingsFailure,
};
use crate::settings_change::SettingsChange;
use crate::settings_laws::{history_change_stands, recording_stands, system_stands};
use crate::settings_write::{Refusal, Terms};
use crate::system_settings_controller::{
    system_settings_begin, SystemSettingsError, SystemSettingsFailure,
};
use vstd::prelude::*;

verus! {

/// Whether a failure has a code, is told under that code's own key, and is not worth
/// another try.
pub open spec fn is_told_as(error: PortError, code: Seq<char>) -> bool {
    &&& error.code@ == code
    &&& error.safe_message_key@ == "errors."@ + code
    &&& !error.retryable
}

/// Every change to the settings begins by taking its turn, about the change and the version
/// that it was asked for with, and stands where nothing has been found yet.
pub proof fn a_change_begins_with_what_was_asked_for(
    expected_version: u64,
    change: SettingsChange,
    acknowledged: bool,
    found: SettingsSnapshot,
    now: TimestampMs,
)
    ensures
        ({
            let begun = recording_settings_begin(expected_version, change);
            &&& begun is Ask && begun->request is TakeTurn
            &&& begun->flow.change == change && begun->flow.expected_version == expected_version
            &&& begun->flow.step is Opening && recording_stands(begun->flow, found)
        }),
        ({
            let begun = system_settings_begin(expected_version, change);
            &&& begun is Ask && begun->request is TakeTurn
            &&& begun->flow.change == change && begun->flow.expected_version == expected_version
            &&& begun->flow.step is Opening && system_stands(begun->flow, found)
        }),
        ({
            let begun = history_settings_begin(expected_version, change, acknowledged);
            &&& begun is Ask && begun->request is TakeTurn
            &&& begun->flow.change == change && begun->flow.expected_version == expected_version
            &&& begun->flow.acknowledged == acknowledged
            &&& begun->flow.step is Opening && history_change_stands(begun->flow, found, now)
        }),
{
}

/// A change to the language model begins in the same way. One that was made on settings
/// that its caller has seen insists on them and waits for no session; one that concerns
/// delivery alone insists on nothing.
pub proof fn an_llm_change_begins_with_what_was_asked_for(
    expected_version: u64,
    change: SettingsChange,
    terms: Terms,
    found: SettingsSnapshot,
)
    ensures
        ({
            let begun = llm_settings_begin(change, terms);
            &&& begun is Ask && begun->request is TakeTurn
            &&& begun->flow.change == change
            &&& begun->flow.step is Opening && begun->flow.step->Opening_0.terms == terms
            &&& llm_change_stands(begun->flow, found)
        }),
        seen_terms(expected_version).needs_idle,
        seen_terms(expected_version).expected_version == Some(expected_version),
        !seen_terms(expected_version).enters_application,
        !delivery_terms().needs_idle,
        delivery_terms().expected_version is None,
        !delivery_terms().enters_application,
{
}

/// What only looks begins with the lock or its turn, and a switch is about the engine that
/// was asked for.
pub proof fn a_look_begins_with_nothing_found(engine: AsrEngine, goal: HistoryGoal)
    ensures
        health_check_begin() is Ask && health_check_begin()->request is TryTurn,
        health_check_begin()->flow is TakingTurn,
        model_switch_begin(engine) is Ask && model_switch_begin(engine)->request is TryTurn,
        model_switch_begin(engine)->flow.engine == engine,
        model_switch_begin(engine)->flow.step is TakingTurn,
        history_begin(goal) is Ask && history_begin(goal)->request is TakeTurn,
        history_begin(goal)->flow.goal == goal && history_begin(goal)->flow.step is TakingTurn,
        key_status_begin() is Ask && key_status_begin()->request is LockConfiguration,
        key_status_begin()->flow is Locking,
        readiness_begin() is Ask && readiness_begin()->request is LockConfiguration,
        readiness_begin()->flow is Locking,
{
}

/// A recording can be as long as three, five, ten or twenty minutes.
pub proof fn a_recording_length_is_one_of_four(minutes: u64)
    requires
        minutes <= 60,
    ensures
        is_offered((minutes * 60) as u64) <==> minutes == 3 || minutes == 5 || minutes == 10
            || minutes == 20,
        forall|seconds: u64| #[trigger] is_offered(seconds) ==> seconds % 60 == 0 && seconds
            <= 20 * 60,
{
}

/// An error of a change to the recording settings says what kept it.
pub proof fn a_recording_error_says_what_kept_the_change(
    error: RecordingSettingsError,
    failure: RecordingSettingsFailure,
)
    requires
        error.tells(failure),
    ensures
        match failure {
            RecordingSettingsFailure::Refused(refusal) => match refusal {
                Refusal::Busy => error is Busy,
                Refusal::Quitting | Refusal::RuntimeUnavailable => error is RuntimeUnavailable,
                Refusal::VersionConflict => error is Port && is_told_as(
                    error->Port_0,
                    "settings.version_conflict"@,
                ),
                Refusal::Port(cause) => error == RecordingSettingsError::Port(cause),
            },
            RecordingSettingsFailure::InvalidDuration => error is InvalidDuration,
            RecordingSettingsFailure::InvalidShortcut => error is InvalidShortcut,
            RecordingSettingsFailure::ShortcutRollbackFailed { store: kept, rollback: undone } => {
                error == (RecordingSettingsError::ShortcutRollbackFailed {
                    store: kept,
                    rollback: undone,
                })
            },
        },
{
}

/// An error of a change to the system settings says what kept it.
pub proof fn a_system_error_says_what_kept_the_change(
    error: SystemSettingsError,
    failure: SystemSettingsFailure,
)
    requires
        error.tells(failure),
    ensures
        match failure {
            SystemSettingsFailure::Refused(refusal) => match refusal {
                Refusal::Busy => error is Busy,
                Refusal::Quitting | Refusal::RuntimeUnavailable => error is RuntimeUnavailable,
                Refusal::VersionConflict => error is Port && is_told_as(
                    error->Port_0,
                    "settings.version_conflict"@,
                ),
                Refusal::Port(cause) => error == SystemSettingsError::Port(cause),
            },
            SystemSettingsFailure::InvalidSettings => error is Port && is_told_as(
                error->Port_0,
                "settings.invalid"@,
            ),
        },
{
}

/// An error of a change to the history policy says what kept it.
pub proof fn a_policy_error_says_what_kept_the_change(
    error: HistorySettingsError,
    failure: HistorySettingsFailure,
)
    requires
        error.tells(failure),
    ensures
        match failure {
            HistorySettingsFailure::Refused(refusal) => match refusal {
                Refusal::Busy => error is Busy,
                Refusal::Quitting => error is Quitting,
                Refusal::RuntimeUnavailable => error is RuntimeUnavailable,
                Refusal::VersionConflict => error is Port && is_told_as(
                    error->Port_0,
                    "settings.version_conflict"@,
                ),
                Refusal::Port(cause) => error == HistorySettingsError::Port(cause),
            },
            HistorySettingsFailure::ConfirmationRequired => error is ConfirmationRequired,
            HistorySettingsFailure::RetentionConfirmationRequired => error
                is RetentionConfirmationRequired,
            HistorySettingsFailure::InvalidPolicy => error is InvalidPolicy,
        },
{
}

/// An error of a use case of the language model says what kept it.
pub proof fn an_llm_error_says_what_kept_the_use_case(
    error: LlmConfigurationError,
    failure: LlmConfigurationFailure,
)
    requires
        error.tells(failure),
    ensures
        match failure {
            LlmConfigurationFailure::Refused(refusal) => match refusal {
                Refusal::Busy => error is Busy,
                Refusal::Quitting | Refusal::RuntimeUnavailable => error is RuntimeUnavailable,
                Refusal::VersionConflict => error is Port && is_told_as(
                    error->Port_0,
                    "settings.version_conflict"@,
                ),
                Refusal::Port(cause) => error == LlmConfigurationError::Port(cause),
            },
            LlmConfigurationFailure::NotConfigured => error is NotConfigured,
            LlmConfigurationFailure::RecoveryRequired => error is RecoveryRequired,
            LlmConfigurationFailure::InvalidSecret => error is InvalidSecret,
            LlmConfigurationFailure::InvalidConfiguration(cause) => error
                == LlmConfigurationError::InvalidConfiguration(cause),
            LlmConfigurationFailure::InvalidSettings => error is InvalidConfiguration && is_told_as(
                error->InvalidConfiguration_0,
                "settings.invalid"@,
            ),
            LlmConfigurationFailure::SecretVerificationFailed => error is SecretVerificationFailed,
            LlmConfigurationFailure::ResetNotRequired => error is Port && is_told_as(
                error->Port_0,
                "secret.reset_not_required"@,
            ),
        },
{
}

/// An error of a switch of the recogniser says what kept it.
pub proof fn a_switch_error_says_what_kept_the_switch(
    error: AsrModelSwitchError,
    failure: ModelSwitchFailure,
)
    requires
        error.tells(failure),
    ensures
        match failure {
            ModelSwitchFailure::Told(told) => error == told,
            ModelSwitchFailure::InvalidSettings => error is Settings && is_told_as(
                error->Settings_0,
                "settings.invalid"@,
            ),
        },
{
}

} // verus!
