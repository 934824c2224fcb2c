//! What a change to the settings does, told by what was found and what was asked for:
//! the part that the change names becomes what it says, everything else stays as it was
//! found, and it is stored over the version that was found.

use crate::configuration::{Answer, Request, Step};
use crate::domain::{HistoryPolicy, SettingsSnapshot, SettingsSnapshotInput, TimestampMs};
use crate::history_settings_controller::{
    has_older, history_settings_awaits, history_settings_step, retention_cutoff,
    HistorySettingsFailure, HistorySettingsFlow, HistorySettingsStep,
};
use crate::ports::HistoryRecord;
use crate::recording_settings_controller::{
    recording_settings_awaits, recording_settings_step, RecordingSettingsFailure,
    RecordingSettingsFlow, RecordingSettingsStep,
};
use crate::settings_change::SettingsChange;
use crate::settings_write::{
    opening_awaits, opening_step, Opened, Opening, OpeningStep, Refusal, Terms,
};
use crate::system_settings_controller::{
    system_settings_awaits, system_settings_step, SystemSettingsFailure, SystemSettingsFlow,
    SystemSettingsStep,
};
use vstd::prelude::*;

verus! {

/// Whether settings are others with a change made, and otherwise the same.
pub open spec fn is_made(
    change: SettingsChange,
    before: SettingsSnapshotInput,
    after: SettingsSnapshotInput,
) -> bool {
    let policy = before.history_policy;
    match change {
        SettingsChange::ClipboardBridge(allowed) => after == (SettingsSnapshotInput {
            clipboard_bridge_allowed: allowed,
            ..before
        }),
        SettingsChange::TextProcessing { processing_mode, read_selected_text } => after == (
        SettingsSnapshotInput { processing_mode, read_selected_text, ..before }),
        SettingsChange::Llm(llm) => after == (SettingsSnapshotInput { llm, ..before }),
        SettingsChange::HistoryEnabled(enabled) => after == (SettingsSnapshotInput {
            history_policy: HistoryPolicy { enabled, ..policy },
            ..before
        }),
        SettingsChange::HistoryLimit(limit) => after == (SettingsSnapshotInput {
            history_policy: HistoryPolicy { limit, ..policy },
            ..before
        }),
        SettingsChange::HistoryRetention(retention_days) => after == (SettingsSnapshotInput {
            history_policy: HistoryPolicy { retention_days, ..policy },
            ..before
        }),
        SettingsChange::RecordingPreferences { recording_mode, max_recording_duration } => after
            == (SettingsSnapshotInput { recording_mode, max_recording_duration, ..before }),
        SettingsChange::Shortcut(recording_shortcut) => after == (SettingsSnapshotInput {
            recording_shortcut,
            ..before
        }),
        SettingsChange::AutoCopy(auto_copy_result) => after == (SettingsSnapshotInput {
            auto_copy_result,
            ..before
        }),
        SettingsChange::LocalDiagnostics(local_diagnostics_enabled) => after == (
        SettingsSnapshotInput { local_diagnostics_enabled, ..before }),
        SettingsChange::Recogniser(asr_preference) => after == (SettingsSnapshotInput {
            asr_preference,
            ..before
        }),
    }
}

/// Whether two settings tell the same, their texts taken by what they say.
pub open spec fn tell_the_same(left: SettingsSnapshotInput, right: SettingsSnapshotInput) -> bool {
    &&& left == (SettingsSnapshotInput {
        llm: left.llm,
        recording_shortcut: left.recording_shortcut,
        ..right
    })
    &&& left.llm is Some <==> right.llm is Some
    &&& left.llm is Some ==> left.llm->0.base_url@ == right.llm->0.base_url@ && left.llm->0.model@
        == right.llm->0.model@
    &&& left.recording_shortcut is Some <==> right.recording_shortcut is Some
    &&& left.recording_shortcut is Some ==> left.recording_shortcut->0.accelerator@
        == right.recording_shortcut->0.accelerator@
}

/// A change makes of the settings what it says, and it is in force already exactly where
/// making it would say nothing new.
pub proof fn a_change_changes_its_own_part_alone(
    change: SettingsChange,
    settings: SettingsSnapshotInput,
)
    ensures
        is_made(change, settings, change.applied(settings)),
        change.in_force(settings) <==> tell_the_same(change.applied(settings), settings),
{
}

/// What turns a write away before it begins, and only that; what is looked at in which
/// order; and that the settings, the change and the terms are handed on as they are.
pub proof fn a_write_opens_in_order(opening: Opening, answer: Answer)
    requires
        opening_awaits(opening.step, answer),
    ensures
        match opening_step(opening, answer) {
            Opened::Ask { opening: after, request } => {
                &&& after.change == opening.change
                &&& after.terms == opening.terms
                &&& match opening.step {
                    OpeningStep::TakingTurn => if opening.terms.enters_application {
                        after.step is Entering && request is EnterApplication
                    } else {
                        after.step is Locking && request is LockConfiguration
                    },
                    OpeningStep::Entering => {
                        &&& answer == Answer::Granted(true)
                        &&& after.step is Locking && request is LockConfiguration
                    },
                    OpeningStep::Locking => if opening.terms.needs_idle {
                        after.step is Probing && request is ProbeWork
                    } else {
                        after.step is Loading && request is LoadSettings
                    },
                    OpeningStep::Probing => {
                        &&& answer == Answer::Work(Some(false))
                        &&& after.step is Loading && request is LoadSettings
                    },
                    OpeningStep::Loading => false,
                }
            },
            Opened::Refused(Refusal::Quitting) => {
                opening.step is Entering && answer == Answer::Granted(false)
            },
            Opened::Refused(Refusal::Busy) => {
                opening.step is Probing && answer == Answer::Work(Some(true))
            },
            Opened::Refused(Refusal::RuntimeUnavailable) => {
                opening.step is Probing && answer == Answer::Work(None)
            },
            Opened::Refused(Refusal::VersionConflict) => {
                &&& opening.step is Loading
                &&& answer->Settings_0 is Ok
                &&& opening.terms.expected_version is Some
                &&& opening.terms.expected_version->0 != answer->Settings_0->Ok_0.input.version
            },
            Opened::Refused(Refusal::Port(error)) => {
                opening.step is Loading && answer == Answer::Settings(Err(error))
            },
            Opened::InForce { current, change } => {
                &&& opening.step is Loading
                &&& answer == Answer::Settings(Ok(current))
                &&& change == opening.change
                &&& opening.terms.expected_version is Some ==> opening.terms.expected_version->0
                    == current.input.version
                &&& tell_the_same(change.applied(current.input), current.input)
            },
            Opened::Clear { current, change } => {
                &&& opening.step is Loading
                &&& answer == Answer::Settings(Ok(current))
                &&& change == opening.change
                &&& opening.terms.expected_version is Some ==> opening.terms.expected_version->0
                    == current.input.version
                &&& !tell_the_same(change.applied(current.input), current.input)
            },
        },
{
    if let Answer::Settings(Ok(current)) = answer {
        a_change_changes_its_own_part_alone(opening.change, current.input);
    }
}

/// Whether a write that waits for its settings is about a change on a version.
pub open spec fn opens_for(
    opening: Opening,
    change: SettingsChange,
    expected_version: u64,
    enters_application: bool,
) -> bool {
    &&& opening.change == change
    &&& opening.terms == (Terms {
        enters_application,
        needs_idle: true,
        expected_version: Some(expected_version),
    })
}

/// Whether settings that are to be stored are those that were found with the change made,
/// over the version that was found.
pub open spec fn is_stored_over(
    expected_version: u64,
    settings: SettingsSnapshot,
    change: SettingsChange,
    found: SettingsSnapshot,
) -> bool {
    expected_version == found.input.version && is_made(change, found.input, settings.input)
}

/// Where a change to the recording settings stands.
pub open spec fn recording_stands(flow: RecordingSettingsFlow, found: SettingsSnapshot) -> bool {
    match flow.step {
        RecordingSettingsStep::Opening(opening) => opens_for(
            opening,
            flow.change,
            flow.expected_version,
            false,
        ),
        RecordingSettingsStep::Validating { candidate, previous }
        | RecordingSettingsStep::Binding { candidate, previous } => {
            &&& flow.expected_version == found.input.version
            &&& is_made(flow.change, found.input, candidate)
            &&& previous == found.input.recording_shortcut
            &&& flow.step is Binding ==> flow.change is Shortcut
        },
        RecordingSettingsStep::Rebinding { current } => current == found && flow.change is Shortcut,
        RecordingSettingsStep::Replacing { previous } => {
            previous == found.input.recording_shortcut
        },
        RecordingSettingsStep::RollingBack { .. } => flow.change is Shortcut,
    }
}

/// A change to the recording settings stores the settings that were found with the change
/// made, binds the shortcut that is wanted in place of the one that was found, and binds
/// that one again where the new one could not be stored. Every end says what has happened.
pub proof fn a_recording_change_goes_by_what_was_found(
    flow: RecordingSettingsFlow,
    answer: Answer,
    found: SettingsSnapshot,
)
    requires
        recording_settings_awaits(flow.step, answer),
        recording_stands(flow, found),
        flow.step is Opening && answer is Settings && answer->Settings_0 is Ok ==> found
            == answer->Settings_0->Ok_0,
    ensures
        match recording_settings_step(flow, answer) {
            Step::Ask { flow: after, request } => {
                &&& after.change == flow.change && after.expected_version == flow.expected_version
                &&& recording_stands(after, found)
                &&& match request {
                    Request::ValidateSettings(candidate) => is_made(
                        flow.change,
                        found.input,
                        candidate,
                    ),
                    Request::ReplaceSettings { expected_version, settings } => {
                        &&& is_stored_over(expected_version, settings, flow.change, found)
                        &&& flow.change is Shortcut ==> flow.step is Binding && answer->Acted_0
                            is Ok
                        &&& !(flow.change is Shortcut) ==> flow.step is Validating && answer
                            == Answer::Valid(true)
                    },
                    Request::ReplaceBinding { previous, next } => {
                        let wanted = flow.change->Shortcut_0;
                        &&& flow.change is Shortcut
                        &&& if flow.step is Replacing {
                            &&& answer->Settings_0 is Err
                            &&& after.step == (RecordingSettingsStep::RollingBack {
                                store: answer->Settings_0->Err_0,
                            })
                            &&& previous == wanted && next == found.input.recording_shortcut
                        } else {
                            previous == found.input.recording_shortcut && next == wanted
                        }
                    },
                    Request::EnterApplication
                    | Request::LockConfiguration
                    | Request::ProbeWork
                    | Request::LoadSettings => flow.step is Opening,
                    _ => false,
                }
            },
            Step::Done(Ok(settings)) => match flow.step {
                RecordingSettingsStep::Opening(_) => {
                    &&& settings == found
                    &&& !(flow.change is Shortcut)
                    &&& tell_the_same(flow.change.applied(found.input), found.input)
                },
                RecordingSettingsStep::Rebinding { .. } => settings == found && answer->Acted_0
                    is Ok,
                RecordingSettingsStep::Replacing { .. } => answer == Answer::Settings(Ok(settings)),
                _ => false,
            },
            Step::Done(Err(RecordingSettingsFailure::InvalidDuration)) => {
                &&& flow.step is Validating && answer == Answer::Valid(false)
                &&& !(flow.change is Shortcut)
            },
            Step::Done(Err(RecordingSettingsFailure::InvalidShortcut)) => {
                &&& flow.step is Validating && answer == Answer::Valid(false)
                &&& flow.change is Shortcut
            },
            Step::Done(
                Err(RecordingSettingsFailure::ShortcutRollbackFailed { store, rollback }),
            ) => {
                &&& flow.step == (RecordingSettingsStep::RollingBack { store })
                &&& answer == Answer::Acted(Err(rollback))
            },
            Step::Done(Err(RecordingSettingsFailure::Refused(Refusal::Port(error)))) => {
                ||| flow.step is Opening && answer == Answer::Settings(Err(error))
                ||| (flow.step is Rebinding || flow.step is Binding) && answer == Answer::Acted(
                    Err(error),
                )
                ||| flow.step is Replacing && !(flow.change is Shortcut) && answer
                    == Answer::Settings(Err(error))
                ||| flow.step == (RecordingSettingsStep::RollingBack { store: error })
                    && answer->Acted_0 is Ok
            },
            Step::Done(Err(RecordingSettingsFailure::Refused(_))) => flow.step is Opening,
        },
{
    if let RecordingSettingsStep::Opening(opening) = flow.step {
        a_write_opens_in_order(opening, answer);
        if let Answer::Settings(Ok(current)) = answer {
            a_change_changes_its_own_part_alone(flow.change, current.input);
        }
    }
}

/// Where a change to the system settings stands.
pub open spec fn system_stands(flow: SystemSettingsFlow, found: SettingsSnapshot) -> bool {
    match flow.step {
        SystemSettingsStep::Opening(opening) => opens_for(
            opening,
            flow.change,
            flow.expected_version,
            false,
        ),
        SystemSettingsStep::Validating { candidate } => {
            &&& flow.expected_version == found.input.version
            &&& is_made(flow.change, found.input, candidate)
        },
        SystemSettingsStep::Replacing => true,
        SystemSettingsStep::Switching { .. } => flow.change is LocalDiagnostics,
    }
}

/// A change to the system settings stores the settings that were found with the change
/// made, and tells the running process what is in force where diagnostics are concerned.
/// Every end says what has happened.
pub proof fn a_system_change_goes_by_what_was_found(
    flow: SystemSettingsFlow,
    answer: Answer,
    found: SettingsSnapshot,
)
    requires
        system_settings_awaits(flow.step, answer),
        system_stands(flow, found),
        flow.step is Opening && answer is Settings && answer->Settings_0 is Ok ==> found
            == answer->Settings_0->Ok_0,
    ensures
        match system_settings_step(flow, answer) {
            Step::Ask { flow: after, request } => {
                &&& after.change == flow.change && after.expected_version == flow.expected_version
                &&& system_stands(after, found)
                &&& match request {
                    Request::ValidateSettings(candidate) => is_made(
                        flow.change,
                        found.input,
                        candidate,
                    ),
                    Request::ReplaceSettings { expected_version, settings } => {
                        &&& is_stored_over(expected_version, settings, flow.change, found)
                        &&& flow.step is Validating && answer == Answer::Valid(true)
                    },
                    Request::SetDiagnostics(enabled) => {
                        &&& flow.change is LocalDiagnostics
                        &&& answer is Settings && answer->Settings_0 is Ok
                        &&& enabled == answer->Settings_0->Ok_0.input.local_diagnostics_enabled
                        &&& after.step == (SystemSettingsStep::Switching {
                            settings: answer->Settings_0->Ok_0,
                        })
                    },
                    Request::EnterApplication
                    | Request::LockConfiguration
                    | Request::ProbeWork
                    | Request::LoadSettings => flow.step is Opening,
                    _ => false,
                }
            },
            Step::Done(Ok(settings)) => match flow.step {
                SystemSettingsStep::Switching { settings: told } => settings == told,
                _ => {
                    &&& answer == Answer::Settings(Ok(settings))
                    &&& !(flow.change is LocalDiagnostics)
                    &&& flow.step is Opening ==> tell_the_same(
                        flow.change.applied(found.input),
                        found.input,
                    )
                },
            },
            Step::Done(Err(SystemSettingsFailure::InvalidSettings)) => {
                flow.step is Validating && answer == Answer::Valid(false)
            },
            Step::Done(Err(SystemSettingsFailure::Refused(Refusal::Port(error)))) => {
                answer == Answer::Settings(Err(error))
            },
            Step::Done(Err(SystemSettingsFailure::Refused(_))) => flow.step is Opening,
        },
{
    if let SystemSettingsStep::Opening(opening) = flow.step {
        a_write_opens_in_order(opening, answer);
        if let Answer::Settings(Ok(current)) = answer {
            a_change_changes_its_own_part_alone(flow.change, current.input);
        }
    }
}

/// A record is too old exactly where more than the given days, of as many milliseconds as
/// a day has, lie between it and now.
pub proof fn a_retention_counts_days(now: TimestampMs, days: u16, created_at: TimestampMs)
    ensures
        0 <= retention_cutoff(now, days) <= now.0,
        created_at.0 < retention_cutoff(now, days) <==> created_at.0 + days * 86_400_000 < now.0,
{
}

/// Where a change to the history policy stands.
pub open spec fn history_change_stands(
    flow: HistorySettingsFlow,
    found: SettingsSnapshot,
    now: TimestampMs,
) -> bool {
    let kept = found.input.history_policy.enabled;
    match flow.step {
        HistorySettingsStep::Opening(opening) => opens_for(
            opening,
            flow.change,
            flow.expected_version,
            true,
        ),
        HistorySettingsStep::Counting { candidate } => {
            &&& flow.expected_version == found.input.version
            &&& is_made(flow.change, found.input, candidate)
            &&& flow.change is HistoryLimit && kept
        },
        HistorySettingsStep::Validating { candidate, trims } => {
            &&& flow.expected_version == found.input.version
            &&& is_made(flow.change, found.input, candidate)
            &&& trims ==> flow.change is HistoryLimit && flow.acknowledged
        },
        HistorySettingsStep::ReadingClock { candidate, days } => {
            &&& flow.expected_version == found.input.version
            &&& is_made(flow.change, found.input, candidate)
            &&& flow.change == SettingsChange::HistoryRetention(Some(days)) && kept
        },
        HistorySettingsStep::Ageing { candidate, cutoff_ms } => {
            &&& flow.expected_version == found.input.version
            &&& is_made(flow.change, found.input, candidate)
            &&& flow.change is HistoryRetention && flow.change->HistoryRetention_0 is Some && kept
            &&& forall|created_at: TimestampMs|
                #![trigger created_at.0]
                created_at.0 < cutoff_ms <==> created_at.0 + flow.change->HistoryRetention_0->0
                    * 86_400_000 < now.0
        },
        HistorySettingsStep::Replacing { trims } => {
            trims ==> flow.change is HistoryLimit && flow.acknowledged
        },
        HistorySettingsStep::Enforcing { .. } => true,
    }
}

/// A change to the history policy stores the settings that were found with the change
/// made. A new limit for a history that is kept is held against the records first, and a
/// new retention against the clock and the records; what it would remove needs the
/// caller's consent. The stored policy, and no other, is then enforced.
#[verifier::rlimit(20)]
pub proof fn a_policy_change_goes_by_what_was_found(
    flow: HistorySettingsFlow,
    answer: Answer,
    found: SettingsSnapshot,
    now: TimestampMs,
)
    requires
        history_settings_awaits(flow.step, answer),
        history_change_stands(flow, found, now),
        flow.step is Opening && answer is Settings && answer->Settings_0 is Ok ==> found
            == answer->Settings_0->Ok_0,
        flow.step is ReadingClock ==> answer == Answer::Now(now),
    ensures
        match history_settings_step(flow, answer) {
            Step::Ask { flow: after, request } => {
                &&& after.change == flow.change && after.expected_version == flow.expected_version
                &&& after.acknowledged == flow.acknowledged
                &&& history_change_stands(after, found, now)
                &&& match request {
                    Request::ListHistory => after.step is Counting || after.step is Ageing,
                    Request::ReadClock => after.step is ReadingClock,
                    Request::ValidateSettings(candidate) => {
                        &&& is_made(flow.change, found.input, candidate)
                        &&& flow.change is HistoryLimit && found.input.history_policy.enabled
                            ==> flow.step is Counting && answer->Records_0 is Ok
                    },
                    Request::ReplaceSettings { expected_version, settings } => {
                        &&& is_stored_over(expected_version, settings, flow.change, found)
                        &&& flow.change is HistoryRetention && flow.change->HistoryRetention_0
                            is Some && found.input.history_policy.enabled ==> flow.step is Ageing
                    },
                    Request::EnforcePolicy(stored) => {
                        &&& answer == Answer::Settings(Ok(stored))
                        &&& after.step == (HistorySettingsStep::Enforcing { stored })
                        &&& flow.change is HistoryLimit || flow.change is HistoryRetention
                            && stored.input.history_policy.enabled
                            && stored.input.history_policy.retention_days is Some
                    },
                    Request::EnterApplication
                    | Request::LockConfiguration
                    | Request::ProbeWork
                    | Request::LoadSettings => flow.step is Opening,
                    _ => false,
                }
            },
            Step::Done(Ok(settings)) => match flow.step {
                HistorySettingsStep::Opening(_) => {
                    &&& settings == found
                    &&& tell_the_same(flow.change.applied(found.input), found.input)
                },
                HistorySettingsStep::Replacing { trims } => {
                    &&& answer == Answer::Settings(Ok(settings))
                    &&& !trims
                    &&& !(flow.change is HistoryRetention && settings.input.history_policy.enabled
                        && settings.input.history_policy.retention_days is Some)
                },
                HistorySettingsStep::Enforcing { stored } => settings == stored && answer->Acted_0
                    is Ok,
                _ => false,
            },
            Step::Done(Err(HistorySettingsFailure::ConfirmationRequired)) => {
                &&& flow.step is Counting && answer->Records_0 is Ok
                &&& !flow.acknowledged
                &&& answer->Records_0->Ok_0@.len() > flow.change->HistoryLimit_0
            },
            Step::Done(Err(HistorySettingsFailure::RetentionConfirmationRequired)) => {
                &&& flow.step is Ageing && answer->Records_0 is Ok
                &&& !flow.acknowledged
                &&& exists|i: int|
                    0 <= i < answer->Records_0->Ok_0@.len() && (
                    #[trigger] answer->Records_0->Ok_0@[i]).created_at.0
                        + flow.change->HistoryRetention_0->0 * 86_400_000 < now.0
            },
            Step::Done(Err(HistorySettingsFailure::InvalidPolicy)) => {
                flow.step is Validating && answer == Answer::Valid(false)
            },
            Step::Done(Err(HistorySettingsFailure::Refused(Refusal::Port(error)))) => {
                ||| answer == Answer::Settings(Err(error))
                ||| answer == Answer::Records(Err(error))
                ||| flow.step is Enforcing && answer == Answer::Acted(Err(error))
            },
            Step::Done(Err(HistorySettingsFailure::Refused(_))) => flow.step is Opening,
        },
{
    match flow.step {
        HistorySettingsStep::Opening(opening) => {
            a_write_opens_in_order(opening, answer);
            if let Answer::Settings(Ok(current)) = answer {
                a_change_changes_its_own_part_alone(flow.change, current.input);
            }
        },
        HistorySettingsStep::ReadingClock { days, .. } => {
            assert forall|created_at: TimestampMs|
                #![trigger created_at.0]
                created_at.0 < retention_cutoff(now, days) <==> created_at.0 + days * 86_400_000
                    < now.0 by {
                a_retention_counts_days(now, days, created_at);
            }
            assert(retention_cutoff(now, days) == retention_cutoff(now, days) as u64) by {
                a_retention_counts_days(now, days, now);
            }
        },
        HistorySettingsStep::Ageing { cutoff_ms, .. } => {
            if answer->Records_0 is Ok && has_older(answer->Records_0->Ok_0@, cutoff_ms as int) {
                let records = answer->Records_0->Ok_0@;
                let i = choose|i: int|
                    0 <= i < records.len() && (#[trigger] records[i]).created_at.0 < cutoff_ms;
                assert(records[i].created_at.0 < cutoff_ms);
            }
        },
        _ => {},
    }
}

/// A new limit that the records keep to, or that the caller accepts, is stored; one that
/// they do not keep to is refused for want of consent.
pub proof fn a_limit_is_held_against_the_records(
    flow: HistorySettingsFlow,
    records: Vec<HistoryRecord>,
    limit: u16,
    found: SettingsSnapshot,
)
    requires
        flow.step is Counting,
        flow.change == SettingsChange::HistoryLimit(limit),
        history_change_stands(flow, found, TimestampMs(0)),
    ensures
        match history_settings_step(flow, Answer::Records(Ok(records))) {
            Step::Ask { flow: after, request } => {
                &&& request is ValidateSettings
                &&& after.step is Validating
                &&& after.step->Validating_trims <==> records@.len() > limit
                &&& records@.len() > limit ==> flow.acknowledged
            },
            Step::Done(result) => {
                &&& records@.len() > limit && !flow.acknowledged
                &&& result is Err && result->Err_0 is ConfirmationRequired
            },
        },
{
}

} // verus!
