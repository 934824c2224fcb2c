//! Changes to the settings of the system page.
//!
//! The switch for local diagnostics also acts on the running process, but only
//! once it has been stored.

use crate::configuration::{Answer, Request, Step};
use crate::domain::{SettingsSnapshot, SettingsSnapshotInput};
use crate::ports::PortError;
use crate::settings_change::SettingsChange;
use crate::settings_write::{
    begin_opening, continue_opening, invalid_settings_error, is_invalid_settings,
    is_version_conflict, opening_awaits, opening_begin, opening_step, version_conflict_error,
    Opened, Opening, Refusal, Terms,
};
use vstd::prelude::*;

verus! {

#[derive(Debug, PartialEq, Eq)]
pub enum SystemSettingsError {
    Busy,
    RuntimeUnavailable,
    Port(PortError),
}

/// Why a change to the system settings was not made.
pub enum SystemSettingsFailure {
    Refused(Refusal),
    InvalidSettings,
}

impl SystemSettingsError {
    /// Whether this error tells of a failure. No change to the system settings
    /// enters the application, so none is refused because it quits.
    pub open spec fn tells(self, failure: SystemSettingsFailure) -> bool {
        match failure {
            SystemSettingsFailure::Refused(Refusal::Quitting) => self is RuntimeUnavailable,
            SystemSettingsFailure::Refused(Refusal::Busy) => self is Busy,
            SystemSettingsFailure::Refused(Refusal::RuntimeUnavailable) => {
                self is RuntimeUnavailable
            },
            SystemSettingsFailure::Refused(Refusal::VersionConflict) => {
                self is Port && is_version_conflict(self->Port_0)
            },
            SystemSettingsFailure::Refused(Refusal::Port(error)) => {
                self == SystemSettingsError::Port(error)
            },
            SystemSettingsFailure::InvalidSettings => {
                self is Port && is_invalid_settings(self->Port_0)
            },
        }
    }

    fn of_refusal(refusal: Refusal) -> (r: SystemSettingsError)
        ensures
            r.tells(SystemSettingsFailure::Refused(refusal)),
    {
        match refusal {
            Refusal::Quitting => SystemSettingsError::RuntimeUnavailable,
            Refusal::Busy => SystemSettingsError::Busy,
            Refusal::RuntimeUnavailable => SystemSettingsError::RuntimeUnavailable,
            Refusal::VersionConflict => SystemSettingsError::Port(version_conflict_error()),
            Refusal::Port(error) => SystemSettingsError::Port(error),
        }
    }
}

/// How far a change to the system settings has come.
pub enum SystemSettingsStep {
    Opening(Opening),
    Validating { candidate: SettingsSnapshotInput },
    Replacing,
    /// The running process is being told.
    Switching { settings: SettingsSnapshot },
}

/// A change to the system settings under way.
pub struct SystemSettingsFlow {
    pub expected_version: u64,
    pub change: SettingsChange,
    pub step: SystemSettingsStep,
}

pub type SystemSettingsResult = Result<SettingsSnapshot, SystemSettingsError>;

/// A step whose failure has not been put into words.
pub type SystemSettingsMove = Step<
    SystemSettingsFlow,
    Result<SettingsSnapshot, SystemSettingsFailure>,
>;

/// Whether a step is the given one, its failure put into words.
pub open spec fn shows_system_settings(
    step: Step<SystemSettingsFlow, SystemSettingsResult>,
    mv: SystemSettingsMove,
) -> bool {
    match mv {
        Step::Ask { flow, request } => step == (
        Step::<SystemSettingsFlow, SystemSettingsResult>::Ask { flow, request }),
        Step::Done(Ok(settings)) => step == Step::<SystemSettingsFlow, SystemSettingsResult>::Done(
            Ok(settings),
        ),
        Step::Done(Err(failure)) => step is Done && step->Done_0 is Err
            && step->Done_0->Err_0.tells(failure),
    }
}

/// The terms of every change to the system settings.
pub open spec fn system_terms(expected_version: u64) -> Terms {
    Terms { enters_application: false, needs_idle: true, expected_version: Some(expected_version) }
}

pub open spec fn system_fails(failure: SystemSettingsFailure) -> SystemSettingsMove {
    Step::Done(Err(failure))
}

pub open spec fn system_asks(
    flow: SystemSettingsFlow,
    step: SystemSettingsStep,
    request: Request,
) -> SystemSettingsMove {
    Step::Ask { flow: SystemSettingsFlow { step, ..flow }, request }
}

/// Settings in force are told to the running process where it has to know.
pub open spec fn system_settles(
    flow: SystemSettingsFlow,
    settings: SettingsSnapshot,
) -> SystemSettingsMove {
    if flow.change is LocalDiagnostics {
        system_asks(
            flow,
            SystemSettingsStep::Switching { settings },
            Request::SetDiagnostics(settings.input.local_diagnostics_enabled),
        )
    } else {
        Step::Done(Ok(settings))
    }
}

/// Whether an answer is what a change to the system settings waits for.
pub open spec fn system_settings_awaits(step: SystemSettingsStep, answer: Answer) -> bool {
    match step {
        SystemSettingsStep::Opening(opening) => opening_awaits(opening.step, answer),
        SystemSettingsStep::Validating { .. } => answer is Valid,
        SystemSettingsStep::Replacing => answer is Settings,
        SystemSettingsStep::Switching { .. } => answer is Ready,
    }
}

/// The whole change, one answer at a time.
pub open spec fn system_settings_step(
    flow: SystemSettingsFlow,
    answer: Answer,
) -> SystemSettingsMove {
    match flow.step {
        SystemSettingsStep::Opening(opening) => match opening_step(opening, answer) {
            Opened::Ask { opening, request } => system_asks(
                flow,
                SystemSettingsStep::Opening(opening),
                request,
            ),
            Opened::Refused(refusal) => system_fails(SystemSettingsFailure::Refused(refusal)),
            Opened::InForce { current, .. } => system_settles(flow, current),
            Opened::Clear { current, change } => system_asks(
                flow,
                SystemSettingsStep::Validating { candidate: change.applied(current.input) },
                Request::ValidateSettings(change.applied(current.input)),
            ),
        },
        SystemSettingsStep::Validating { candidate } => if answer->Valid_0 {
            system_asks(
                flow,
                SystemSettingsStep::Replacing,
                Request::ReplaceSettings {
                    expected_version: flow.expected_version,
                    settings: SettingsSnapshot { input: candidate },
                },
            )
        } else {
            system_fails(SystemSettingsFailure::InvalidSettings)
        },
        SystemSettingsStep::Replacing => match answer->Settings_0 {
            Ok(stored) => system_settles(flow, stored),
            Err(error) => system_fails(SystemSettingsFailure::Refused(Refusal::Port(error))),
        },
        SystemSettingsStep::Switching { settings } => Step::Done(Ok(settings)),
    }
}

/// How a change to the system settings begins.
pub open spec fn system_settings_begin(
    expected_version: u64,
    change: SettingsChange,
) -> SystemSettingsMove {
    Step::Ask {
        flow: SystemSettingsFlow {
            expected_version,
            change,
            step: SystemSettingsStep::Opening(
                opening_begin(change, system_terms(expected_version))->opening,
            ),
        },
        request: Request::TakeTurn,
    }
}

/// Diagnostics of the running process are switched only to what the settings
/// say, as they were found or as they have been stored.
pub proof fn diagnostics_follow_the_settings(flow: SystemSettingsFlow, answer: Answer)
    requires
        system_settings_awaits(flow.step, answer),
    ensures
        system_settings_step(flow, answer) is Ask && system_settings_step(
            flow,
            answer,
        )->request is SetDiagnostics ==> answer is Settings && answer->Settings_0 is Ok
            && system_settings_step(flow, answer)->request == Request::SetDiagnostics(
            answer->Settings_0->Ok_0.input.local_diagnostics_enabled,
        ),
{
}

/// Changes the settings of the system page.
#[derive(Clone, Copy, Debug)]
pub struct SystemSettingsController {}

impl SystemSettingsController {
    pub fn new() -> (r: SystemSettingsController)
        ensures
            r == (SystemSettingsController {  }),
    {
        SystemSettingsController {  }
    }

    fn begin(&self, expected_version: u64, change: SettingsChange) -> (r: Step<
        SystemSettingsFlow,
        SystemSettingsResult,
    >)
        ensures
            shows_system_settings(r, system_settings_begin(expected_version, change)),
    {
        let terms = Terms {
            enters_application: false,
            needs_idle: true,
            expected_version: Some(expected_version),
        };
        match begin_opening(change.clone(), terms) {
            Opened::Ask { opening, request } => Step::Ask {
                flow: SystemSettingsFlow {
                    expected_version,
                    change,
                    step: SystemSettingsStep::Opening(opening),
                },
                request,
            },
            _ => vstd::pervasive::unreached(),
        }
    }

    /// Sets whether every result is also copied.
    pub fn set_auto_copy_result(&self, expected_version: u64, enabled: bool) -> (r: Step<
        SystemSettingsFlow,
        SystemSettingsResult,
    >)
        ensures
            shows_system_settings(
                r,
                system_settings_begin(expected_version, SettingsChange::AutoCopy(enabled)),
            ),
    {
        self.begin(expected_version, SettingsChange::AutoCopy(enabled))
    }

    /// Sets whether diagnostics are kept on this machine.
    pub fn set_local_diagnostics_enabled(&self, expected_version: u64, enabled: bool) -> (r: Step<
        SystemSettingsFlow,
        SystemSettingsResult,
    >)
        ensures
            shows_system_settings(
                r,
                system_settings_begin(expected_version, SettingsChange::LocalDiagnostics(enabled)),
            ),
    {
        self.begin(expected_version, SettingsChange::LocalDiagnostics(enabled))
    }

    /// Goes on with a change to the system settings.
    pub fn resume(&self, flow: SystemSettingsFlow, answer: Answer) -> (r: Step<
        SystemSettingsFlow,
        SystemSettingsResult,
    >)
        requires
            system_settings_awaits(flow.step, answer),
        ensures
            shows_system_settings(r, system_settings_step(flow, answer)),
    {
        let SystemSettingsFlow { expected_version, change, step } = flow;
        let settled = match (step, answer) {
            (SystemSettingsStep::Opening(opening), answer) => {
                match continue_opening(opening, answer) {
                    Opened::Ask { opening, request } => {
                        return Step::Ask {
                            flow: SystemSettingsFlow {
                                expected_version,
                                change,
                                step: SystemSettingsStep::Opening(opening),
                            },
                            request,
                        };
                    },
                    Opened::Refused(refusal) => {
                        return Step::Done(Err(SystemSettingsError::of_refusal(refusal)));
                    },
                    Opened::InForce { current, .. } => current,
                    Opened::Clear { current, change: wanted } => {
                        let candidate = wanted.apply_to(current.into_input());
                        let request = Request::ValidateSettings(candidate.clone());
                        return Step::Ask {
                            flow: SystemSettingsFlow {
                                expected_version,
                                change,
                                step: SystemSettingsStep::Validating { candidate },
                            },
                            request,
                        };
                    },
                }
            },
            (SystemSettingsStep::Validating { candidate }, Answer::Valid(valid)) => {
                if !valid {
                    return Step::Done(Err(SystemSettingsError::Port(invalid_settings_error())));
                }
                return Step::Ask {
                    flow: SystemSettingsFlow {
                        expected_version,
                        change,
                        step: SystemSettingsStep::Replacing,
                    },
                    request: Request::ReplaceSettings {
                        expected_version,
                        settings: SettingsSnapshot::new(candidate),
                    },
                };
            },
            (SystemSettingsStep::Replacing, Answer::Settings(stored)) => match stored {
                Ok(stored) => stored,
                Err(error) => {
                    return Step::Done(Err(SystemSettingsError::Port(error)));
                },
            },
            (SystemSettingsStep::Switching { settings }, _) => {
                return Step::Done(Ok(settings));
            },
            _ => vstd::pervasive::unreached(),
        };
        match &change {
            SettingsChange::LocalDiagnostics(_) => {
                let request = Request::SetDiagnostics(settled.input.local_diagnostics_enabled);
                Step::Ask {
                    flow: SystemSettingsFlow {
                        expected_version,
                        change,
                        step: SystemSettingsStep::Switching { settings: settled },
                    },
                    request,
                }
            },
            _ => Step::Done(Ok(settled)),
        }
    }
}

} // verus!
