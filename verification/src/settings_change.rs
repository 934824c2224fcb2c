//! The changes that a user can make to the settings, each to its own part.

use crate::domain::{
    AsrPreference, HistoryPolicy, LlmNonSecretSettings, ProcessingMode, RecordingMode,
    RecordingShortcut, Seconds, SettingsSnapshotInput,
};
use vstd::prelude::*;

verus! {

/// One change to the settings.
#[derive(Debug, PartialEq, Eq)]
pub enum SettingsChange {
    ClipboardBridge(bool),
    TextProcessing { processing_mode: ProcessingMode, read_selected_text: bool },
    Llm(Option<LlmNonSecretSettings>),
    HistoryEnabled(bool),
    HistoryLimit(u16),
    HistoryRetention(Option<u16>),
    RecordingPreferences { recording_mode: RecordingMode, max_recording_duration: Seconds },
    Shortcut(Option<RecordingShortcut>),
    AutoCopy(bool),
    LocalDiagnostics(bool),
    Recogniser(AsrPreference),
}

/// Whether both name the same endpoint and model, or none.
pub open spec fn same_llm(
    left: Option<LlmNonSecretSettings>,
    right: Option<LlmNonSecretSettings>,
) -> bool {
    match (left, right) {
        (Some(left), Some(right)) => left.base_url@ == right.base_url@ && left.model@
            == right.model@,
        (None, None) => true,
        _ => false,
    }
}

/// Whether both are the same shortcut, or none.
pub open spec fn same_shortcut(
    left: Option<RecordingShortcut>,
    right: Option<RecordingShortcut>,
) -> bool {
    match (left, right) {
        (Some(left), Some(right)) => left.accelerator@ == right.accelerator@,
        (None, None) => true,
        _ => false,
    }
}

impl SettingsChange {
    /// The settings after the change.
    pub open spec fn applied(self, settings: SettingsSnapshotInput) -> SettingsSnapshotInput {
        match self {
            SettingsChange::ClipboardBridge(allowed) => SettingsSnapshotInput {
                clipboard_bridge_allowed: allowed,
                ..settings
            },
            SettingsChange::TextProcessing { processing_mode, read_selected_text } => {
                SettingsSnapshotInput { processing_mode, read_selected_text, ..settings }
            },
            SettingsChange::Llm(llm) => SettingsSnapshotInput { llm, ..settings },
            SettingsChange::HistoryEnabled(enabled) => SettingsSnapshotInput {
                history_policy: HistoryPolicy { enabled, ..settings.history_policy },
                ..settings
            },
            SettingsChange::HistoryLimit(limit) => SettingsSnapshotInput {
                history_policy: HistoryPolicy { limit, ..settings.history_policy },
                ..settings
            },
            SettingsChange::HistoryRetention(retention_days) => SettingsSnapshotInput {
                history_policy: HistoryPolicy { retention_days, ..settings.history_policy },
                ..settings
            },
            SettingsChange::RecordingPreferences { recording_mode, max_recording_duration } => {
                SettingsSnapshotInput { recording_mode, max_recording_duration, ..settings }
            },
            SettingsChange::Shortcut(recording_shortcut) => SettingsSnapshotInput {
                recording_shortcut,
                ..settings
            },
            SettingsChange::AutoCopy(auto_copy_result) => SettingsSnapshotInput {
                auto_copy_result,
                ..settings
            },
            SettingsChange::LocalDiagnostics(local_diagnostics_enabled) => SettingsSnapshotInput {
                local_diagnostics_enabled,
                ..settings
            },
            SettingsChange::Recogniser(asr_preference) => SettingsSnapshotInput {
                asr_preference,
                ..settings
            },
        }
    }

    /// Whether the settings are already as the change wants them.
    pub open spec fn in_force(self, settings: SettingsSnapshotInput) -> bool {
        match self {
            SettingsChange::ClipboardBridge(allowed) => settings.clipboard_bridge_allowed
                == allowed,
            SettingsChange::TextProcessing { processing_mode, read_selected_text } => {
                settings.processing_mode == processing_mode && settings.read_selected_text
                    == read_selected_text
            },
            SettingsChange::Llm(llm) => same_llm(settings.llm, llm),
            SettingsChange::HistoryEnabled(enabled) => settings.history_policy.enabled == enabled,
            SettingsChange::HistoryLimit(limit) => settings.history_policy.limit == limit,
            SettingsChange::HistoryRetention(days) => settings.history_policy.retention_days
                == days,
            SettingsChange::RecordingPreferences { recording_mode, max_recording_duration } => {
                settings.recording_mode == recording_mode && settings.max_recording_duration
                    == max_recording_duration
            },
            SettingsChange::Shortcut(shortcut) => same_shortcut(
                settings.recording_shortcut,
                shortcut,
            ),
            SettingsChange::AutoCopy(enabled) => settings.auto_copy_result == enabled,
            SettingsChange::LocalDiagnostics(enabled) => settings.local_diagnostics_enabled
                == enabled,
            SettingsChange::Recogniser(preference) => settings.asr_preference == preference,
        }
    }

    /// Whether the settings are already as the change wants them.
    pub fn is_in_force(&self, settings: &SettingsSnapshotInput) -> (r: bool)
        ensures
            r == self.in_force(*settings),
    {
        match self {
            SettingsChange::ClipboardBridge(allowed) => {
                settings.clipboard_bridge_allowed == *allowed
            },
            SettingsChange::TextProcessing { processing_mode, read_selected_text } => {
                settings.processing_mode == *processing_mode && settings.read_selected_text
                    == *read_selected_text
            },
            SettingsChange::Llm(llm) => match (&settings.llm, llm) {
                (Some(left), Some(right)) => left.base_url == right.base_url && left.model
                    == right.model,
                (None, None) => true,
                _ => false,
            },
            SettingsChange::HistoryEnabled(enabled) => settings.history_policy.enabled == *enabled,
            SettingsChange::HistoryLimit(limit) => settings.history_policy.limit == *limit,
            SettingsChange::HistoryRetention(days) => match (
                settings.history_policy.retention_days,
                days,
            ) {
                (Some(left), Some(right)) => left == *right,
                (None, None) => true,
                _ => false,
            },
            SettingsChange::RecordingPreferences { recording_mode, max_recording_duration } => {
                settings.recording_mode == *recording_mode && settings.max_recording_duration
                    == *max_recording_duration
            },
            SettingsChange::Shortcut(shortcut) => match (&settings.recording_shortcut, shortcut) {
                (Some(left), Some(right)) => left.accelerator == right.accelerator,
                (None, None) => true,
                _ => false,
            },
            SettingsChange::AutoCopy(enabled) => settings.auto_copy_result == *enabled,
            SettingsChange::LocalDiagnostics(enabled) => {
                settings.local_diagnostics_enabled == *enabled
            },
            SettingsChange::Recogniser(preference) => settings.asr_preference == *preference,
        }
    }

    /// Makes the change.
    pub fn apply_to(&self, settings: SettingsSnapshotInput) -> (r: SettingsSnapshotInput)
        ensures
            r == self.applied(settings),
    {
        let mut settings = settings;
        match self {
            SettingsChange::ClipboardBridge(allowed) => {
                settings.clipboard_bridge_allowed = *allowed;
            },
            SettingsChange::TextProcessing { processing_mode, read_selected_text } => {
                settings.processing_mode = *processing_mode;
                settings.read_selected_text = *read_selected_text;
            },
            SettingsChange::Llm(llm) => {
                settings.llm = match llm {
                    Some(llm) => Some(llm.clone()),
                    None => None,
                };
            },
            SettingsChange::HistoryEnabled(enabled) => {
                settings.history_policy.enabled = *enabled;
            },
            SettingsChange::HistoryLimit(limit) => {
                settings.history_policy.limit = *limit;
            },
            SettingsChange::HistoryRetention(days) => {
                settings.history_policy.retention_days = *days;
            },
            SettingsChange::RecordingPreferences { recording_mode, max_recording_duration } => {
                settings.recording_mode = *recording_mode;
                settings.max_recording_duration = *max_recording_duration;
            },
            SettingsChange::Shortcut(shortcut) => {
                settings.recording_shortcut = match shortcut {
                    Some(shortcut) => Some(shortcut.clone()),
                    None => None,
                };
            },
            SettingsChange::AutoCopy(enabled) => {
                settings.auto_copy_result = *enabled;
            },
            SettingsChange::LocalDiagnostics(enabled) => {
                settings.local_diagnostics_enabled = *enabled;
            },
            SettingsChange::Recogniser(preference) => {
                settings.asr_preference = *preference;
            },
        }
        settings
    }
}

impl Clone for SettingsChange {
    fn clone(&self) -> (r: SettingsChange)
        ensures
            r == *self,
    {
        match self {
            SettingsChange::ClipboardBridge(allowed) => SettingsChange::ClipboardBridge(*allowed),
            SettingsChange::TextProcessing { processing_mode, read_selected_text } => {
                SettingsChange::TextProcessing {
                    processing_mode: *processing_mode,
                    read_selected_text: *read_selected_text,
                }
            },
            SettingsChange::Llm(llm) => SettingsChange::Llm(
                match llm {
                    Some(llm) => Some(llm.clone()),
                    None => None,
                },
            ),
            SettingsChange::HistoryEnabled(enabled) => SettingsChange::HistoryEnabled(*enabled),
            SettingsChange::HistoryLimit(limit) => SettingsChange::HistoryLimit(*limit),
            SettingsChange::HistoryRetention(days) => SettingsChange::HistoryRetention(*days),
            SettingsChange::RecordingPreferences { recording_mode, max_recording_duration } => {
                SettingsChange::RecordingPreferences {
                    recording_mode: *recording_mode,
                    max_recording_duration: *max_recording_duration,
                }
            },
            SettingsChange::Shortcut(shortcut) => SettingsChange::Shortcut(
                match shortcut {
                    Some(shortcut) => Some(shortcut.clone()),
                    None => None,
                },
            ),
            SettingsChange::AutoCopy(enabled) => SettingsChange::AutoCopy(*enabled),
            SettingsChange::LocalDiagnostics(enabled) => SettingsChange::LocalDiagnostics(*enabled),
            SettingsChange::Recogniser(preference) => SettingsChange::Recogniser(*preference),
        }
    }
}

/// A change is in force once it has been made, and making it again changes
/// nothing more.
pub proof fn a_change_is_in_force_once_made(change: SettingsChange, settings: SettingsSnapshotInput)
    ensures
        change.in_force(change.applied(settings)),
        change.applied(change.applied(settings)) == change.applied(settings),
{
}

/// No change touches the version, and every change leaves alone what belongs to
/// the others: two changes of different kinds can be made in either order.
#[verifier::rlimit(60)]
pub proof fn changes_of_different_kinds_do_not_interfere(
    first: SettingsChange,
    second: SettingsChange,
    settings: SettingsSnapshotInput,
)
    ensures
        first.applied(settings).version == settings.version,
        !same_kind(first, second) ==> first.applied(second.applied(settings)) == second.applied(
            first.applied(settings),
        ),
        !same_kind(first, second) ==> (second.in_force(first.applied(settings))
            <==> second.in_force(settings)),
{
    match first {
        SettingsChange::ClipboardBridge(_) => {},
        SettingsChange::TextProcessing { .. } => {},
        SettingsChange::Llm(_) => {},
        SettingsChange::HistoryEnabled(_) => {},
        SettingsChange::HistoryLimit(_) => {},
        SettingsChange::HistoryRetention(_) => {},
        SettingsChange::RecordingPreferences { .. } => {},
        SettingsChange::Shortcut(_) => {},
        SettingsChange::AutoCopy(_) => {},
        SettingsChange::LocalDiagnostics(_) => {},
        SettingsChange::Recogniser(_) => {},
    }
}

/// Whether two changes concern the same part of the settings.
pub open spec fn same_kind(first: SettingsChange, second: SettingsChange) -> bool {
    match (first, second) {
        (SettingsChange::ClipboardBridge(_), SettingsChange::ClipboardBridge(_)) => true,
        (SettingsChange::TextProcessing { .. }, SettingsChange::TextProcessing { .. }) => true,
        (SettingsChange::Llm(_), SettingsChange::Llm(_)) => true,
        (SettingsChange::HistoryEnabled(_), SettingsChange::HistoryEnabled(_)) => true,
        (SettingsChange::HistoryLimit(_), SettingsChange::HistoryLimit(_)) => true,
        (SettingsChange::HistoryRetention(_), SettingsChange::HistoryRetention(_)) => true,
        (
            SettingsChange::RecordingPreferences { .. },
            SettingsChange::RecordingPreferences { .. },
        ) => true,
        (SettingsChange::Shortcut(_), SettingsChange::Shortcut(_)) => true,
        (SettingsChange::AutoCopy(_), SettingsChange::AutoCopy(_)) => true,
        (SettingsChange::LocalDiagnostics(_), SettingsChange::LocalDiagnostics(_)) => true,
        (SettingsChange::Recogniser(_), SettingsChange::Recogniser(_)) => true,
        _ => false,
    }
}

} // verus!
