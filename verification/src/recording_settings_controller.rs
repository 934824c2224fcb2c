//! Changes to how recordings are made.
//!
//! The system-wide shortcut and the stored one change together: where storing
//! fails, the binding that was there before is put back.

use crate::configuration::{Answer, Request, Step};
use crate::domain::{
    RecordingMode, RecordingShortcut, Seconds, SettingsSnapshot, SettingsSnapshotInput,
};
use crate::ports::PortError;
use crate::settings_change::SettingsChange;
use crate::settings_write::{
    begin_opening, continue_opening, is_version_conflict, opening_awaits, opening_begin,
    opening_step, version_conflict_error, Opened, Opening, Refusal, Terms,
};
use vstd::prelude::*;

verus! {

/// The recording lengths that can be chosen.
pub const RECORDING_DURATION_OPTIONS_SECONDS: [u64; 4] = [180, 300, 600, 1_200];

#[derive(Debug, PartialEq, Eq)]
pub enum RecordingSettingsError {
    Busy,
    RuntimeUnavailable,
    InvalidDuration,
    InvalidShortcut,
    /// Neither could the shortcut be stored nor the old binding be put back.
    ShortcutRollbackFailed { store: PortError, rollback: PortError },
    Port(PortError),
}

/// Why a change to the recording settings was not made.
pub enum RecordingSettingsFailure {
    Refused(Refusal),
    InvalidDuration,
    InvalidShortcut,
    ShortcutRollbackFailed { store: PortError, rollback: PortError },
}

impl RecordingSettingsError {
    /// Whether this error tells of a failure. No change to the recording settings
    /// enters the application, so none is refused because it quits.
    pub open spec fn tells(self, failure: RecordingSettingsFailure) -> bool {
        match failure {
            RecordingSettingsFailure::Refused(Refusal::Quitting) => self is RuntimeUnavailable,
            RecordingSettingsFailure::Refused(Refusal::Busy) => self is Busy,
            RecordingSettingsFailure::Refused(Refusal::RuntimeUnavailable) => {
                self is RuntimeUnavailable
            },
            RecordingSettingsFailure::Refused(Refusal::VersionConflict) => {
                self is Port && is_version_conflict(self->Port_0)
            },
            RecordingSettingsFailure::Refused(Refusal::Port(error)) => {
                self == RecordingSettingsError::Port(error)
            },
            RecordingSettingsFailure::InvalidDuration => self is InvalidDuration,
            RecordingSettingsFailure::InvalidShortcut => self is InvalidShortcut,
            RecordingSettingsFailure::ShortcutRollbackFailed { store, rollback } => {
                self == (RecordingSettingsError::ShortcutRollbackFailed { store, rollback })
            },
        }
    }

    fn of_refusal(refusal: Refusal) -> (r: RecordingSettingsError)
        ensures
            r.tells(RecordingSettingsFailure::Refused(refusal)),
    {
        match refusal {
            Refusal::Quitting => RecordingSettingsError::RuntimeUnavailable,
            Refusal::Busy => RecordingSettingsError::Busy,
            Refusal::RuntimeUnavailable => RecordingSettingsError::RuntimeUnavailable,
            Refusal::VersionConflict => RecordingSettingsError::Port(version_conflict_error()),
            Refusal::Port(error) => RecordingSettingsError::Port(error),
        }
    }
}

/// How far a change to the recording settings has come.
pub enum RecordingSettingsStep {
    Opening(Opening),
    Validating { candidate: SettingsSnapshotInput, previous: Option<RecordingShortcut> },
    /// The binding that the settings already name is being made sure of.
    Rebinding { current: SettingsSnapshot },
    Binding { candidate: SettingsSnapshotInput, previous: Option<RecordingShortcut> },
    Replacing { previous: Option<RecordingShortcut> },
    /// The old binding is being put back.
    RollingBack { store: PortError },
}

/// A change to the recording settings under way.
pub struct RecordingSettingsFlow {
    pub expected_version: u64,
    pub change: SettingsChange,
    pub step: RecordingSettingsStep,
}

pub type RecordingSettingsResult = Result<SettingsSnapshot, RecordingSettingsError>;

/// A step whose failure has not been put into words.
pub type RecordingSettingsMove = Step<
    RecordingSettingsFlow,
    Result<SettingsSnapshot, RecordingSettingsFailure>,
>;

/// Whether a step is the given one, its failure put into words.
pub open spec fn shows_recording_settings(
    step: Step<RecordingSettingsFlow, RecordingSettingsResult>,
    mv: RecordingSettingsMove,
) -> bool {
    match mv {
        Step::Ask { flow, request } => step == (Step::<
            RecordingSettingsFlow,
            RecordingSettingsResult,
        >::Ask { flow, request }),
        Step::Done(Ok(settings)) => step == Step::<
            RecordingSettingsFlow,
            RecordingSettingsResult,
        >::Done(Ok(settings)),
        Step::Done(Err(failure)) => step is Done && step->Done_0 is Err
            && step->Done_0->Err_0.tells(failure),
    }
}

/// The terms of every change to the recording settings.
pub open spec fn recording_terms(expected_version: u64) -> Terms {
    Terms { enters_application: false, needs_idle: true, expected_version: Some(expected_version) }
}

/// Whether a recording length can be chosen.
pub open spec fn is_offered(seconds: u64) -> bool {
    seconds == 180 || seconds == 300 || seconds == 600 || seconds == 1_200
}

/// The shortcut that a change asks for.
pub open spec fn wanted_shortcut(change: SettingsChange) -> Option<RecordingShortcut> {
    change->Shortcut_0
}

pub open spec fn recording_fails(failure: RecordingSettingsFailure) -> RecordingSettingsMove {
    Step::Done(Err(failure))
}

pub open spec fn recording_asks(
    flow: RecordingSettingsFlow,
    step: RecordingSettingsStep,
    request: Request,
) -> RecordingSettingsMove {
    Step::Ask { flow: RecordingSettingsFlow { step, ..flow }, request }
}

pub open spec fn recording_replaces(
    flow: RecordingSettingsFlow,
    candidate: SettingsSnapshotInput,
    previous: Option<RecordingShortcut>,
) -> RecordingSettingsMove {
    recording_asks(
        flow,
        RecordingSettingsStep::Replacing { previous },
        Request::ReplaceSettings {
            expected_version: flow.expected_version,
            settings: SettingsSnapshot { input: candidate },
        },
    )
}

/// What the opening leads to. A shortcut that is stored already is still bound
/// anew.
pub open spec fn recording_on_opened(
    flow: RecordingSettingsFlow,
    opened: Opened,
) -> RecordingSettingsMove {
    match opened {
        Opened::Ask { opening, request } => recording_asks(
            flow,
            RecordingSettingsStep::Opening(opening),
            request,
        ),
        Opened::Refused(refusal) => recording_fails(RecordingSettingsFailure::Refused(refusal)),
        Opened::InForce { current, change } => if change is Shortcut {
            recording_asks(
                flow,
                RecordingSettingsStep::Rebinding { current },
                Request::ReplaceBinding {
                    previous: current.input.recording_shortcut,
                    next: wanted_shortcut(change),
                },
            )
        } else {
            Step::Done(Ok(current))
        },
        Opened::Clear { current, change } => recording_asks(
            flow,
            RecordingSettingsStep::Validating {
                candidate: change.applied(current.input),
                previous: current.input.recording_shortcut,
            },
            Request::ValidateSettings(change.applied(current.input)),
        ),
    }
}

pub open spec fn recording_on_validated(
    flow: RecordingSettingsFlow,
    candidate: SettingsSnapshotInput,
    previous: Option<RecordingShortcut>,
    valid: bool,
) -> RecordingSettingsMove {
    if flow.change is Shortcut {
        if valid {
            recording_asks(
                flow,
                RecordingSettingsStep::Binding { candidate, previous },
                Request::ReplaceBinding { previous, next: wanted_shortcut(flow.change) },
            )
        } else {
            recording_fails(RecordingSettingsFailure::InvalidShortcut)
        }
    } else if valid {
        recording_replaces(flow, candidate, previous)
    } else {
        recording_fails(RecordingSettingsFailure::InvalidDuration)
    }
}

/// A shortcut that could not be stored is unbound again.
pub open spec fn recording_on_stored(
    flow: RecordingSettingsFlow,
    previous: Option<RecordingShortcut>,
    stored: Result<SettingsSnapshot, PortError>,
) -> RecordingSettingsMove {
    match stored {
        Ok(stored) => Step::Done(Ok(stored)),
        Err(store) => if flow.change is Shortcut {
            recording_asks(
                flow,
                RecordingSettingsStep::RollingBack { store },
                Request::ReplaceBinding { previous: wanted_shortcut(flow.change), next: previous },
            )
        } else {
            recording_fails(RecordingSettingsFailure::Refused(Refusal::Port(store)))
        },
    }
}

/// Whether an answer is what a change to the recording settings waits for.
pub open spec fn recording_settings_awaits(step: RecordingSettingsStep, answer: Answer) -> bool {
    match step {
        RecordingSettingsStep::Opening(opening) => opening_awaits(opening.step, answer),
        RecordingSettingsStep::Validating { .. } => answer is Valid,
        RecordingSettingsStep::Rebinding { .. }
        | RecordingSettingsStep::Binding { .. }
        | RecordingSettingsStep::RollingBack { .. } => answer is Acted,
        RecordingSettingsStep::Replacing { .. } => answer is Settings,
    }
}

/// The whole change, one answer at a time.
pub open spec fn recording_settings_step(
    flow: RecordingSettingsFlow,
    answer: Answer,
) -> RecordingSettingsMove {
    match flow.step {
        RecordingSettingsStep::Opening(opening) => recording_on_opened(
            flow,
            opening_step(opening, answer),
        ),
        RecordingSettingsStep::Validating { candidate, previous } => recording_on_validated(
            flow,
            candidate,
            previous,
            answer->Valid_0,
        ),
        RecordingSettingsStep::Rebinding { current } => match answer->Acted_0 {
            Ok(_) => Step::Done(Ok(current)),
            Err(error) => recording_fails(RecordingSettingsFailure::Refused(Refusal::Port(error))),
        },
        RecordingSettingsStep::Binding { candidate, previous } => match answer->Acted_0 {
            Ok(_) => recording_replaces(flow, candidate, previous),
            Err(error) => recording_fails(RecordingSettingsFailure::Refused(Refusal::Port(error))),
        },
        RecordingSettingsStep::Replacing { previous } => recording_on_stored(
            flow,
            previous,
            answer->Settings_0,
        ),
        RecordingSettingsStep::RollingBack { store } => match answer->Acted_0 {
            Ok(_) => recording_fails(RecordingSettingsFailure::Refused(Refusal::Port(store))),
            Err(rollback) => recording_fails(
                RecordingSettingsFailure::ShortcutRollbackFailed { store, rollback },
            ),
        },
    }
}

/// How a change to the recording settings begins.
pub open spec fn recording_settings_begin(
    expected_version: u64,
    change: SettingsChange,
) -> RecordingSettingsMove {
    Step::Ask {
        flow: RecordingSettingsFlow {
            expected_version,
            change,
            step: RecordingSettingsStep::Opening(
                opening_begin(change, recording_terms(expected_version))->opening,
            ),
        },
        request: Request::TakeTurn,
    }
}

/// A shortcut that cannot be stored leaves the system as it was: what is bound
/// last is what was bound before.
pub proof fn an_unstored_shortcut_is_rolled_back(
    flow: RecordingSettingsFlow,
    candidate: SettingsSnapshotInput,
    previous: Option<RecordingShortcut>,
    store: PortError,
)
    requires
        flow.change is Shortcut,
        flow.step == (RecordingSettingsStep::Binding { candidate, previous }),
    ensures
        ({
            let bound = recording_settings_step(flow, Answer::Acted(Ok(())));
            let undone = recording_settings_step(bound->flow, Answer::Settings(Err(store)));
            let ended = recording_settings_step(undone->flow, Answer::Acted(Ok(())));
            &&& bound->request is ReplaceSettings
            &&& undone->request == (Request::ReplaceBinding {
                previous: wanted_shortcut(flow.change),
                next: previous,
            })
            &&& ended == recording_fails(RecordingSettingsFailure::Refused(Refusal::Port(store)))
        }),
{
}

fn is_offered_duration(seconds: u64) -> (r: bool)
    ensures
        r == is_offered(seconds),
{
    let options = RECORDING_DURATION_OPTIONS_SECONDS;
    let mut i: usize = 0;
    while i < 4
        invariant
            i <= 4,
            options@ == seq![180u64, 300u64, 600u64, 1_200u64],
            forall|j: int| 0 <= j < i ==> options@[j] != seconds,
        decreases 4 - i,
    {
        if options[i] == seconds {
            return true;
        }
        i = i + 1;
    }
    assert(options@[0] != seconds && options@[1] != seconds && options@[2] != seconds && options@[3]
        != seconds);
    false
}

fn copy_of(shortcut: &Option<RecordingShortcut>) -> (r: Option<RecordingShortcut>)
    ensures
        r == *shortcut,
{
    match shortcut {
        Some(shortcut) => Some(shortcut.clone()),
        None => None,
    }
}

/// Changes how recordings are made.
#[derive(Clone, Copy, Debug)]
pub struct RecordingSettingsController {}

impl RecordingSettingsController {
    pub fn new() -> (r: RecordingSettingsController)
        ensures
            r == (RecordingSettingsController {  }),
    {
        RecordingSettingsController {  }
    }

    fn begin(&self, expected_version: u64, change: SettingsChange) -> (r: Step<
        RecordingSettingsFlow,
        RecordingSettingsResult,
    >)
        ensures
            shows_recording_settings(r, recording_settings_begin(expected_version, change)),
    {
        let terms = Terms {
            enters_application: false,
            needs_idle: true,
            expected_version: Some(expected_version),
        };
        match begin_opening(change.clone(), terms) {
            Opened::Ask { opening, request } => Step::Ask {
                flow: RecordingSettingsFlow {
                    expected_version,
                    change,
                    step: RecordingSettingsStep::Opening(opening),
                },
                request,
            },
            _ => vstd::pervasive::unreached(),
        }
    }

    /// Sets how a recording is started and stopped and how long it may last. A
    /// length that is not offered is refused at once.
    pub fn set_recording_preferences(
        &self,
        expected_version: u64,
        recording_mode: RecordingMode,
        max_recording_duration_seconds: u64,
    ) -> (r: Step<RecordingSettingsFlow, RecordingSettingsResult>)
        ensures
            shows_recording_settings(
                r,
                if is_offered(max_recording_duration_seconds) {
                    recording_settings_begin(
                        expected_version,
                        SettingsChange::RecordingPreferences {
                            recording_mode,
                            max_recording_duration: Seconds(max_recording_duration_seconds),
                        },
                    )
                } else {
                    recording_fails(RecordingSettingsFailure::InvalidDuration)
                },
            ),
    {
        if !is_offered_duration(max_recording_duration_seconds) {
            return Step::Done(Err(RecordingSettingsError::InvalidDuration));
        }
        self.begin(
            expected_version,
            SettingsChange::RecordingPreferences {
                recording_mode,
                max_recording_duration: Seconds(max_recording_duration_seconds),
            },
        )
    }

    /// Sets the system-wide shortcut, or takes it away.
    pub fn set_recording_shortcut(
        &self,
        expected_version: u64,
        recording_shortcut: Option<RecordingShortcut>,
    ) -> (r: Step<RecordingSettingsFlow, RecordingSettingsResult>)
        ensures
            shows_recording_settings(
                r,
                recording_settings_begin(
                    expected_version,
                    SettingsChange::Shortcut(recording_shortcut),
                ),
            ),
    {
        self.begin(expected_version, SettingsChange::Shortcut(recording_shortcut))
    }

    /// Goes on with a change to the recording settings.
    pub fn resume(&self, flow: RecordingSettingsFlow, answer: Answer) -> (r: Step<
        RecordingSettingsFlow,
        RecordingSettingsResult,
    >)
        requires
            recording_settings_awaits(flow.step, answer),
        ensures
            shows_recording_settings(r, recording_settings_step(flow, answer)),
    {
        let RecordingSettingsFlow { expected_version, change, step } = flow;
        let (step, request) = match (step, answer) {
            (RecordingSettingsStep::Opening(opening), answer) => {
                match continue_opening(opening, answer) {
                    Opened::Ask { opening, request } => (
                        RecordingSettingsStep::Opening(opening),
                        request,
                    ),
                    Opened::Refused(refusal) => {
                        return Step::Done(Err(RecordingSettingsError::of_refusal(refusal)));
                    },
                    Opened::InForce { current, change: wanted } => match wanted {
                        SettingsChange::Shortcut(next) => {
                            let previous = copy_of(&current.input.recording_shortcut);
                            (
                                RecordingSettingsStep::Rebinding { current },
                                Request::ReplaceBinding { previous, next },
                            )
                        },
                        _ => {
                            return Step::Done(Ok(current));
                        },
                    },
                    Opened::Clear { current, change: wanted } => {
                        let previous = copy_of(&current.input.recording_shortcut);
                        let candidate = wanted.apply_to(current.into_input());
                        let request = Request::ValidateSettings(candidate.clone());
                        (RecordingSettingsStep::Validating { candidate, previous }, request)
                    },
                }
            },
            (RecordingSettingsStep::Validating { candidate, previous }, Answer::Valid(valid)) => {
                match &change {
                    SettingsChange::Shortcut(next) => {
                        if !valid {
                            return Step::Done(Err(RecordingSettingsError::InvalidShortcut));
                        }
                        let request = Request::ReplaceBinding {
                            previous: copy_of(&previous),
                            next: copy_of(next),
                        };
                        (RecordingSettingsStep::Binding { candidate, previous }, request)
                    },
                    _ => {
                        if !valid {
                            return Step::Done(Err(RecordingSettingsError::InvalidDuration));
                        }
                        (
                            RecordingSettingsStep::Replacing { previous },
                            Request::ReplaceSettings {
                                expected_version,
                                settings: SettingsSnapshot::new(candidate),
                            },
                        )
                    },
                }
            },
            (RecordingSettingsStep::Rebinding { current }, Answer::Acted(bound)) => {
                return match bound {
                    Ok(_) => Step::Done(Ok(current)),
                    Err(error) => Step::Done(Err(RecordingSettingsError::Port(error))),
                };
            },
            (RecordingSettingsStep::Binding { candidate, previous }, Answer::Acted(bound)) => {
                if let Err(error) = bound {
                    return Step::Done(Err(RecordingSettingsError::Port(error)));
                }
                (
                    RecordingSettingsStep::Replacing { previous },
                    Request::ReplaceSettings {
                        expected_version,
                        settings: SettingsSnapshot::new(candidate),
                    },
                )
            },
            (RecordingSettingsStep::Replacing { previous }, Answer::Settings(stored)) => {
                match stored {
                    Ok(stored) => {
                        return Step::Done(Ok(stored));
                    },
                    Err(store) => match &change {
                        SettingsChange::Shortcut(wanted) => (
                            RecordingSettingsStep::RollingBack { store },
                            Request::ReplaceBinding { previous: copy_of(wanted), next: previous },
                        ),
                        _ => {
                            return Step::Done(Err(RecordingSettingsError::Port(store)));
                        },
                    },
                }
            },
            (RecordingSettingsStep::RollingBack { store }, Answer::Acted(undone)) => {
                return match undone {
                    Ok(_) => Step::Done(Err(RecordingSettingsError::Port(store))),
                    Err(rollback) => Step::Done(
                        Err(RecordingSettingsError::ShortcutRollbackFailed { store, rollback }),
                    ),
                };
            },
            _ => vstd::pervasive::unreached(),
        };
        Step::Ask { flow: RecordingSettingsFlow { expected_version, change, step }, request }
    }
}

} // verus!
