use remtene_application::domain::{
    AsrPreference, HistoryPolicy, LlmNonSecretSettings, ProcessingMode, RecordingMode,
    RecordingShortcut, Seconds, SettingsSnapshotInput,
};
use remtene_application::settings_change::SettingsChange;

fn input() -> SettingsSnapshotInput {
    SettingsSnapshotInput {
        version: 4,
        recording_mode: RecordingMode::Toggle,
        max_recording_duration: Seconds(600),
        recording_shortcut: None,
        processing_mode: ProcessingMode::Faithful,
        asr_preference: AsrPreference::Qwen,
        llm: None,
        read_selected_text: false,
        clipboard_bridge_allowed: false,
        auto_copy_result: false,
        local_diagnostics_enabled: true,
        history_policy: HistoryPolicy {
            enabled: true,
            limit: 10,
            retention_days: None,
        },
    }
}

fn changes() -> Vec<SettingsChange> {
    vec![
        SettingsChange::ClipboardBridge(true),
        SettingsChange::TextProcessing {
            processing_mode: ProcessingMode::Structured,
            read_selected_text: true,
        },
        SettingsChange::Llm(Some(LlmNonSecretSettings::new(
            "https://endpoint.test/v1".to_owned(),
            "model".to_owned(),
        ))),
        SettingsChange::HistoryEnabled(false),
        SettingsChange::HistoryLimit(25),
        SettingsChange::HistoryRetention(Some(7)),
        SettingsChange::RecordingPreferences {
            recording_mode: RecordingMode::PushToTalk,
            max_recording_duration: Seconds(300),
        },
        SettingsChange::Shortcut(Some(RecordingShortcut::new("Command+KeyR".to_owned()))),
        SettingsChange::AutoCopy(true),
        SettingsChange::LocalDiagnostics(false),
        SettingsChange::Recogniser(AsrPreference::Whisper),
    ]
}

#[test]
fn every_change_is_in_force_once_it_is_made() {
    for change in changes() {
        assert!(!change.is_in_force(&input()), "{change:?}");
        let after = change.apply_to(input());
        assert!(change.is_in_force(&after), "{change:?}");
        assert_eq!(after.version, 4);
    }
}

#[test]
fn changes_of_different_kinds_leave_each_other_alone() {
    for first in changes() {
        for second in changes() {
            if first != second {
                let after = second.apply_to(first.apply_to(input()));
                assert!(first.is_in_force(&after), "{first:?} then {second:?}");
                assert_eq!(after, first.apply_to(second.apply_to(input())));
            }
        }
    }
}

#[test]
fn a_change_touches_nothing_else() {
    let after = SettingsChange::HistoryLimit(25).apply_to(input());
    let mut expected = input();
    expected.history_policy.limit = 25;

    assert_eq!(after, expected);
}
