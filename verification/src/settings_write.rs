//! How every write to the settings begins: it takes its turn, closes the
//! configuration lock, makes sure that no session is at work, and looks at the
//! settings as they are now.

use crate::configuration::{Answer, Request};
use crate::domain::SettingsSnapshot;
use crate::ports::{port_error, PortError};
use crate::settings_change::SettingsChange;
use vstd::prelude::*;

verus! {

/// What a write insists on before it looks at the settings.
#[derive(Clone, Copy, Debug, PartialEq, Eq, Structural)]
pub struct Terms {
    /// It counts as an operation of the application, which quitting waits for.
    pub enters_application: bool,
    /// No input session may be at work.
    pub needs_idle: bool,
    /// The version that the caller has seen.
    pub expected_version: Option<u64>,
}

#[derive(Clone, Copy, Debug, PartialEq, Eq, Structural)]
pub enum OpeningStep {
    TakingTurn,
    Entering,
    Locking,
    Probing,
    Loading,
}

/// A write that has not yet seen the settings.
#[derive(Debug, PartialEq, Eq)]
pub struct Opening {
    pub change: SettingsChange,
    pub terms: Terms,
    pub step: OpeningStep,
}

/// Why a write goes no further.
#[derive(Debug, PartialEq, Eq)]
pub enum Refusal {
    Quitting,
    Busy,
    RuntimeUnavailable,
    /// The settings are not the ones that the caller has seen.
    VersionConflict,
    Port(PortError),
}

/// What the opening of a write has come to.
pub enum Opened {
    Ask { opening: Opening, request: Request },
    Refused(Refusal),
    /// The settings are already as wanted.
    InForce { current: SettingsSnapshot, change: SettingsChange },
    /// The change can be made to these settings.
    Clear { current: SettingsSnapshot, change: SettingsChange },
}

pub open spec fn opening(change: SettingsChange, terms: Terms, step: OpeningStep) -> Opening {
    Opening { change, terms, step }
}

/// The first request of a write.
pub open spec fn opening_begin(change: SettingsChange, terms: Terms) -> Opened {
    Opened::Ask {
        opening: opening(change, terms, OpeningStep::TakingTurn),
        request: Request::TakeTurn,
    }
}

/// Whether an answer is what the opening waits for.
pub open spec fn opening_awaits(step: OpeningStep, answer: Answer) -> bool {
    match step {
        OpeningStep::TakingTurn | OpeningStep::Locking => answer is Ready,
        OpeningStep::Entering => answer is Granted,
        OpeningStep::Probing => answer is Work,
        OpeningStep::Loading => answer is Settings,
    }
}

pub open spec fn opening_locks(o: Opening) -> Opened {
    Opened::Ask {
        opening: Opening { step: OpeningStep::Locking, ..o },
        request: Request::LockConfiguration,
    }
}

pub open spec fn opening_loads(o: Opening) -> Opened {
    Opened::Ask {
        opening: Opening { step: OpeningStep::Loading, ..o },
        request: Request::LoadSettings,
    }
}

/// A change to settings that the caller has not seen is a conflict, even where
/// it would change nothing.
pub open spec fn opening_sees(o: Opening, current: SettingsSnapshot) -> Opened {
    if o.terms.expected_version is Some && o.terms.expected_version->0 != current.input.version {
        Opened::Refused(Refusal::VersionConflict)
    } else if o.change.in_force(current.input) {
        Opened::InForce { current, change: o.change }
    } else {
        Opened::Clear { current, change: o.change }
    }
}

/// The whole opening, one answer at a time.
pub open spec fn opening_step(o: Opening, answer: Answer) -> Opened {
    match o.step {
        OpeningStep::TakingTurn => if o.terms.enters_application {
            Opened::Ask {
                opening: Opening { step: OpeningStep::Entering, ..o },
                request: Request::EnterApplication,
            }
        } else {
            opening_locks(o)
        },
        OpeningStep::Entering => if answer->Granted_0 {
            opening_locks(o)
        } else {
            Opened::Refused(Refusal::Quitting)
        },
        OpeningStep::Locking => if o.terms.needs_idle {
            Opened::Ask {
                opening: Opening { step: OpeningStep::Probing, ..o },
                request: Request::ProbeWork,
            }
        } else {
            opening_loads(o)
        },
        OpeningStep::Probing => match answer->Work_0 {
            Some(true) => Opened::Refused(Refusal::Busy),
            Some(false) => opening_loads(o),
            None => Opened::Refused(Refusal::RuntimeUnavailable),
        },
        OpeningStep::Loading => match answer->Settings_0 {
            Ok(current) => opening_sees(o, current),
            Err(error) => Opened::Refused(Refusal::Port(error)),
        },
    }
}

/// Begins a write.
pub fn begin_opening(change: SettingsChange, terms: Terms) -> (r: Opened)
    ensures
        r == opening_begin(change, terms),
{
    Opened::Ask {
        opening: Opening { change, terms, step: OpeningStep::TakingTurn },
        request: Request::TakeTurn,
    }
}

/// Goes on with the opening of a write.
pub fn continue_opening(opening: Opening, answer: Answer) -> (r: Opened)
    requires
        opening_awaits(opening.step, answer),
    ensures
        r == opening_step(opening, answer),
{
    let Opening { change, terms, step } = opening;
    match (step, answer) {
        (OpeningStep::TakingTurn, _) => if terms.enters_application {
            Opened::Ask {
                opening: Opening { change, terms, step: OpeningStep::Entering },
                request: Request::EnterApplication,
            }
        } else {
            Opened::Ask {
                opening: Opening { change, terms, step: OpeningStep::Locking },
                request: Request::LockConfiguration,
            }
        },
        (OpeningStep::Entering, Answer::Granted(granted)) => if granted {
            Opened::Ask {
                opening: Opening { change, terms, step: OpeningStep::Locking },
                request: Request::LockConfiguration,
            }
        } else {
            Opened::Refused(Refusal::Quitting)
        },
        (OpeningStep::Locking, _) => if terms.needs_idle {
            Opened::Ask {
                opening: Opening { change, terms, step: OpeningStep::Probing },
                request: Request::ProbeWork,
            }
        } else {
            Opened::Ask {
                opening: Opening { change, terms, step: OpeningStep::Loading },
                request: Request::LoadSettings,
            }
        },
        (OpeningStep::Probing, Answer::Work(work)) => match work {
            Some(true) => Opened::Refused(Refusal::Busy),
            Some(false) => Opened::Ask {
                opening: Opening { change, terms, step: OpeningStep::Loading },
                request: Request::LoadSettings,
            },
            None => Opened::Refused(Refusal::RuntimeUnavailable),
        },
        (OpeningStep::Loading, Answer::Settings(settings)) => match settings {
            Err(error) => Opened::Refused(Refusal::Port(error)),
            Ok(current) => {
                if let Some(expected_version) = terms.expected_version {
                    if expected_version != current.input.version {
                        return Opened::Refused(Refusal::VersionConflict);
                    }
                }
                if change.is_in_force(&current.input) {
                    Opened::InForce { current, change }
                } else {
                    Opened::Clear { current, change }
                }
            },
        },
        _ => vstd::pervasive::unreached(),
    }
}

/// Whether a failure says that the settings have moved on.
pub open spec fn is_version_conflict(error: PortError) -> bool {
    error.is_coded("settings.version_conflict"@, false)
}

/// Whether a failure says that the settings would not be acceptable.
pub open spec fn is_invalid_settings(error: PortError) -> bool {
    error.is_coded("settings.invalid"@, false)
}

/// The failure of a write to settings that have moved on.
pub fn version_conflict_error() -> (r: PortError)
    ensures
        is_version_conflict(r),
{
    port_error("settings.version_conflict", false)
}

/// The failure of a write that would make the settings unacceptable.
pub fn invalid_settings_error() -> (r: PortError)
    ensures
        is_invalid_settings(r),
{
    port_error("settings.invalid", false)
}

/// A write that insists on idleness and on a version is only ever clear while
/// no session is at work, and only for the version that its caller has seen.
pub proof fn a_clear_write_met_its_terms(opening: Opening, answer: Answer)
    ensures
        opening_step(opening, answer) is Clear ==> {
            &&& opening.step is Loading
            &&& answer->Settings_0 == Ok::<SettingsSnapshot, PortError>(
                opening_step(opening, answer)->Clear_current,
            )
            &&& opening.terms.expected_version is Some ==> opening.terms.expected_version->0
                == opening_step(opening, answer)->Clear_current.input.version
            &&& !opening.change.in_force(opening_step(opening, answer)->Clear_current.input)
        },
        opening.terms.needs_idle && opening_step(opening, answer) is Ask && opening_step(
            opening,
            answer,
        )->request is LoadSettings ==> opening.step is Probing && answer->Work_0 == Some(false),
{
}

/// A caller that has not seen the current settings is told so, even where its
/// change would change nothing.
pub proof fn a_conflict_comes_before_anything_else(opening: Opening, current: SettingsSnapshot)
    requires
        opening.step is Loading,
        opening.terms.expected_version is Some,
        opening.terms.expected_version->0 != current.input.version,
    ensures
        opening_step(opening, Answer::Settings(Ok(current))) == Opened::Refused(
            Refusal::VersionConflict,
        ),
{
}

} // verus!
