//! Changes to the history policy.
//!
//! Switching history off deletes nothing. A change that would remove records
//! has to be acknowledged first, and is counted on the records as they are.

use crate::configuration::{Answer, Request, Step};
use crate::domain::{SettingsSnapshot, SettingsSnapshotInput, TimestampMs};
use crate::ports::{HistoryRecord, PortError};
use crate::settings_change::SettingsChange;
use crate::settings_write::{
    begin_opening, continue_opening, is_version_conflict, opening_awaits, opening_begin,
    opening_step, version_conflict_error, Opened, Opening, Refusal, Terms,
};
use vstd::prelude::*;

verus! {

/// Milliseconds in a day.
pub const HISTORY_DAY_MS: u64 = 86_400_000;

#[derive(Debug, PartialEq, Eq)]
pub enum HistorySettingsError {
    Busy,
    RuntimeUnavailable,
    Quitting,
    /// Lowering the limit would remove records.
    ConfirmationRequired,
    /// Shortening the retention would remove records.
    RetentionConfirmationRequired,
    InvalidPolicy,
    Port(PortError),
}

/// Why a change to the history policy was not made.
pub enum HistorySettingsFailure {
    Refused(Refusal),
    ConfirmationRequired,
    RetentionConfirmationRequired,
    InvalidPolicy,
}

impl HistorySettingsError {
    /// Whether this error tells of a failure.
    pub open spec fn tells(self, failure: HistorySettingsFailure) -> bool {
        match failure {
            HistorySettingsFailure::Refused(Refusal::Quitting) => self is Quitting,
            HistorySettingsFailure::Refused(Refusal::Busy) => self is Busy,
            HistorySettingsFailure::Refused(Refusal::RuntimeUnavailable) => {
                self is RuntimeUnavailable
            },
            HistorySettingsFailure::Refused(Refusal::VersionConflict) => {
                self is Port && is_version_conflict(self->Port_0)
            },
            HistorySettingsFailure::Refused(Refusal::Port(error)) => {
                self == HistorySettingsError::Port(error)
            },
            HistorySettingsFailure::ConfirmationRequired => self is ConfirmationRequired,
            HistorySettingsFailure::RetentionConfirmationRequired => {
                self is RetentionConfirmationRequired
            },
            HistorySettingsFailure::InvalidPolicy => self is InvalidPolicy,
        }
    }

    fn of_refusal(refusal: Refusal) -> (r: HistorySettingsError)
        ensures
            r.tells(HistorySettingsFailure::Refused(refusal)),
    {
        match refusal {
            Refusal::Quitting => HistorySettingsError::Quitting,
            Refusal::Busy => HistorySettingsError::Busy,
            Refusal::RuntimeUnavailable => HistorySettingsError::RuntimeUnavailable,
            Refusal::VersionConflict => HistorySettingsError::Port(version_conflict_error()),
            Refusal::Port(error) => HistorySettingsError::Port(error),
        }
    }
}

/// How far a change to the history policy has come.
pub enum HistorySettingsStep {
    Opening(Opening),
    /// The records are being counted against a new limit.
    Counting { candidate: SettingsSnapshotInput },
    Validating { candidate: SettingsSnapshotInput, trims: bool },
    ReadingClock { candidate: SettingsSnapshotInput, days: u16 },
    /// The records are being held against a new retention.
    Ageing { candidate: SettingsSnapshotInput, cutoff_ms: u64 },
    Replacing { trims: bool },
    Enforcing { stored: SettingsSnapshot },
}

/// What a caller wants of the history policy.
pub struct HistorySettingsFlow {
    pub expected_version: u64,
    pub change: SettingsChange,
    /// The caller accepts that records may be lost.
    pub acknowledged: bool,
    pub step: HistorySettingsStep,
}

pub type HistorySettingsResult = Result<SettingsSnapshot, HistorySettingsError>;

/// A step whose failure has not been put into words.
pub type HistorySettingsMove = Step<
    HistorySettingsFlow,
    Result<SettingsSnapshot, HistorySettingsFailure>,
>;

/// Whether a step is the given one, its failure put into words.
pub open spec fn shows_history_settings(
    step: Step<HistorySettingsFlow, HistorySettingsResult>,
    mv: HistorySettingsMove,
) -> bool {
    match mv {
        Step::Ask { flow, request } => step == (
        Step::<HistorySettingsFlow, HistorySettingsResult>::Ask { flow, request }),
        Step::Done(Ok(settings)) => step == Step::<HistorySettingsFlow, HistorySettingsResult>::Done(
            Ok(settings),
        ),
        Step::Done(Err(failure)) => step is Done && step->Done_0 is Err
            && step->Done_0->Err_0.tells(failure),
    }
}

/// The terms of every change to the history policy.
pub open spec fn history_terms(expected_version: u64) -> Terms {
    Terms { enters_application: true, needs_idle: true, expected_version: Some(expected_version) }
}

/// The instant before which records are not kept.
pub open spec fn retention_cutoff(now: TimestampMs, days: u16) -> int {
    if now.0 >= days * HISTORY_DAY_MS {
        now.0 - days * HISTORY_DAY_MS
    } else {
        0
    }
}

/// Whether some record is older than an instant.
pub open spec fn has_older(records: Seq<HistoryRecord>, cutoff_ms: int) -> bool {
    exists|i: int| 0 <= i < records.len() && (#[trigger] records[i]).created_at.0 < cutoff_ms
}

pub open spec fn history_fails(failure: HistorySettingsFailure) -> HistorySettingsMove {
    Step::Done(Err(failure))
}

pub open spec fn history_asks(
    flow: HistorySettingsFlow,
    step: HistorySettingsStep,
    request: Request,
) -> HistorySettingsMove {
    Step::Ask { flow: HistorySettingsFlow { step, ..flow }, request }
}

pub open spec fn history_validates(
    flow: HistorySettingsFlow,
    candidate: SettingsSnapshotInput,
    trims: bool,
) -> HistorySettingsMove {
    history_asks(
        flow,
        HistorySettingsStep::Validating { candidate, trims },
        Request::ValidateSettings(candidate),
    )
}

pub open spec fn history_replaces(
    flow: HistorySettingsFlow,
    candidate: SettingsSnapshotInput,
    trims: bool,
) -> HistorySettingsMove {
    history_asks(
        flow,
        HistorySettingsStep::Replacing { trims },
        Request::ReplaceSettings {
            expected_version: flow.expected_version,
            settings: SettingsSnapshot { input: candidate },
        },
    )
}

/// What the opening leads to. Only a new limit on a history that is kept has
/// records counted.
pub open spec fn history_on_opened(flow: HistorySettingsFlow, opened: Opened) -> HistorySettingsMove {
    match opened {
        Opened::Ask { opening, request } => history_asks(
            flow,
            HistorySettingsStep::Opening(opening),
            request,
        ),
        Opened::Refused(refusal) => history_fails(HistorySettingsFailure::Refused(refusal)),
        Opened::InForce { current, .. } => Step::Done(Ok(current)),
        Opened::Clear { current, change } => {
            let candidate = change.applied(current.input);
            if change is HistoryLimit && current.input.history_policy.enabled {
                history_asks(flow, HistorySettingsStep::Counting { candidate }, Request::ListHistory)
            } else {
                history_validates(flow, candidate, false)
            }
        },
    }
}

pub open spec fn history_on_counted(
    flow: HistorySettingsFlow,
    candidate: SettingsSnapshotInput,
    records: Result<Vec<HistoryRecord>, PortError>,
) -> HistorySettingsMove {
    match records {
        Err(error) => history_fails(HistorySettingsFailure::Refused(Refusal::Port(error))),
        Ok(records) => {
            let trims = records@.len() > candidate.history_policy.limit;
            if trims && !flow.acknowledged {
                history_fails(HistorySettingsFailure::ConfirmationRequired)
            } else {
                history_validates(flow, candidate, trims)
            }
        },
    }
}

/// Acceptable settings are stored, after a look at the clock and the records
/// where a retention comes into force.
pub open spec fn history_on_validated(
    flow: HistorySettingsFlow,
    candidate: SettingsSnapshotInput,
    trims: bool,
    valid: bool,
) -> HistorySettingsMove {
    if !valid {
        history_fails(HistorySettingsFailure::InvalidPolicy)
    } else if flow.change is HistoryRetention && candidate.history_policy.enabled
        && flow.change->HistoryRetention_0 is Some {
        history_asks(
            flow,
            HistorySettingsStep::ReadingClock {
                candidate,
                days: flow.change->HistoryRetention_0->0,
            },
            Request::ReadClock,
        )
    } else {
        history_replaces(flow, candidate, trims)
    }
}

pub open spec fn history_on_aged(
    flow: HistorySettingsFlow,
    candidate: SettingsSnapshotInput,
    cutoff_ms: u64,
    records: Result<Vec<HistoryRecord>, PortError>,
) -> HistorySettingsMove {
    match records {
        Err(error) => history_fails(HistorySettingsFailure::Refused(Refusal::Port(error))),
        Ok(records) => if has_older(records@, cutoff_ms as int) && !flow.acknowledged {
            history_fails(HistorySettingsFailure::RetentionConfirmationRequired)
        } else {
            history_replaces(flow, candidate, false)
        },
    }
}

/// Whether the stored policy is enforced at once: a new limit where it trims, a
/// retention where one is in force.
pub open spec fn enforces(change: SettingsChange, trims: bool, stored: SettingsSnapshot) -> bool {
    match change {
        SettingsChange::HistoryLimit(_) => trims,
        SettingsChange::HistoryRetention(_) => stored.input.history_policy.enabled
            && stored.input.history_policy.retention_days is Some,
        _ => false,
    }
}

pub open spec fn history_on_stored(
    flow: HistorySettingsFlow,
    trims: bool,
    stored: Result<SettingsSnapshot, PortError>,
) -> HistorySettingsMove {
    match stored {
        Err(error) => history_fails(HistorySettingsFailure::Refused(Refusal::Port(error))),
        Ok(stored) => if enforces(flow.change, trims, stored) {
            history_asks(
                flow,
                HistorySettingsStep::Enforcing { stored },
                Request::EnforcePolicy(stored),
            )
        } else {
            Step::Done(Ok(stored))
        },
    }
}

/// Whether an answer is what a change to the history policy waits for.
pub open spec fn history_settings_awaits(step: HistorySettingsStep, answer: Answer) -> bool {
    match step {
        HistorySettingsStep::Opening(opening) => opening_awaits(opening.step, answer),
        HistorySettingsStep::Counting { .. } | HistorySettingsStep::Ageing { .. } => {
            answer is Records
        },
        HistorySettingsStep::Validating { .. } => answer is Valid,
        HistorySettingsStep::ReadingClock { .. } => answer is Now,
        HistorySettingsStep::Replacing { .. } => answer is Settings,
        HistorySettingsStep::Enforcing { .. } => answer is Acted,
    }
}

/// The whole change, one answer at a time.
pub open spec fn history_settings_step(
    flow: HistorySettingsFlow,
    answer: Answer,
) -> HistorySettingsMove {
    match flow.step {
        HistorySettingsStep::Opening(opening) => history_on_opened(
            flow,
            opening_step(opening, answer),
        ),
        HistorySettingsStep::Counting { candidate } => history_on_counted(
            flow,
            candidate,
            answer->Records_0,
        ),
        HistorySettingsStep::Validating { candidate, trims } => history_on_validated(
            flow,
            candidate,
            trims,
            answer->Valid_0,
        ),
        HistorySettingsStep::ReadingClock { candidate, days } => history_asks(
            flow,
            HistorySettingsStep::Ageing {
                candidate,
                cutoff_ms: retention_cutoff(answer->Now_0, days) as u64,
            },
            Request::ListHistory,
        ),
        HistorySettingsStep::Ageing { candidate, cutoff_ms } => history_on_aged(
            flow,
            candidate,
            cutoff_ms,
            answer->Records_0,
        ),
        HistorySettingsStep::Replacing { trims } => history_on_stored(
            flow,
            trims,
            answer->Settings_0,
        ),
        HistorySettingsStep::Enforcing { stored } => match answer->Acted_0 {
            Ok(_) => Step::Done(Ok(stored)),
            Err(error) => history_fails(HistorySettingsFailure::Refused(Refusal::Port(error))),
        },
    }
}

/// How a change to the history policy begins.
pub open spec fn history_settings_begin(
    expected_version: u64,
    change: SettingsChange,
    acknowledged: bool,
) -> HistorySettingsMove {
    Step::Ask {
        flow: HistorySettingsFlow {
            expected_version,
            change,
            acknowledged,
            step: HistorySettingsStep::Opening(
                opening_begin(change, history_terms(expected_version))->opening,
            ),
        },
        request: Request::TakeTurn,
    }
}

/// Switching history on or off removes no record.
pub proof fn switching_history_removes_nothing(flow: HistorySettingsFlow, answer: Answer)
    requires
        history_settings_awaits(flow.step, answer),
        flow.change is HistoryEnabled,
    ensures
        match history_settings_step(flow, answer) {
            Step::Ask { request, .. } => !(request is EnforcePolicy) && !(request is ClearHistory),
            Step::Done(_) => true,
        },
{
}

/// Whether records are to be removed only where the caller accepts it.
pub open spec fn trims_with_consent(flow: HistorySettingsFlow) -> bool {
    match flow.step {
        HistorySettingsStep::Validating { trims, .. } => trims ==> flow.acknowledged,
        HistorySettingsStep::Replacing { trims } => trims ==> flow.acknowledged,
        _ => true,
    }
}

/// A limit that would remove records is neither stored nor enforced unless the
/// caller accepts it: from the beginning of a change on, every step keeps to
/// that.
pub proof fn a_limit_trims_only_with_consent(flow: HistorySettingsFlow, answer: Answer)
    requires
        history_settings_awaits(flow.step, answer),
        trims_with_consent(flow),
    ensures
        match history_settings_step(flow, answer) {
            Step::Ask { flow: after, request } => trims_with_consent(after) && (request
                is EnforcePolicy && flow.change is HistoryLimit ==> flow.acknowledged),
            Step::Done(_) => true,
        },
{
}

/// A retention that would remove a record as of now is not stored unless the
/// caller accepts it.
pub proof fn a_retention_expires_only_with_consent(
    flow: HistorySettingsFlow,
    records: Vec<HistoryRecord>,
)
    requires
        flow.step is Ageing,
        has_older(records@, flow.step->cutoff_ms as int),
        !flow.acknowledged,
    ensures
        history_settings_step(flow, Answer::Records(Ok(records))) == history_fails(
            HistorySettingsFailure::RetentionConfirmationRequired,
        ),
{
}

/// The instant before which records are not kept.
pub fn retention_cutoff_ms(now: TimestampMs, days: u16) -> (r: u64)
    ensures
        r == retention_cutoff(now, days),
{
    let retention_ms: u64 = (days as u64) * HISTORY_DAY_MS;
    now.get().saturating_sub(retention_ms)
}

/// Whether some record is older than an instant.
pub fn any_older(records: &Vec<HistoryRecord>, cutoff_ms: u64) -> (r: bool)
    ensures
        r == has_older(records@, cutoff_ms as int),
{
    let mut i: usize = 0;
    while i < records.len()
        invariant
            i <= records@.len(),
            forall|j: int| 0 <= j < i ==> (#[trigger] records@[j]).created_at.0 >= cutoff_ms,
        decreases records@.len() - i,
    {
        if records[i].created_at.get() < cutoff_ms {
            assert(records@[i as int].created_at.0 < cutoff_ms);
            return true;
        }
        i = i + 1;
    }
    false
}

/// Changes the history policy.
#[derive(Clone, Copy, Debug)]
pub struct HistorySettingsController {}

impl HistorySettingsController {
    pub fn new() -> (r: HistorySettingsController)
        ensures
            r == (HistorySettingsController {  }),
    {
        HistorySettingsController {  }
    }

    fn begin(&self, expected_version: u64, change: SettingsChange, acknowledged: bool) -> (r: Step<
        HistorySettingsFlow,
        HistorySettingsResult,
    >)
        ensures
            shows_history_settings(
                r,
                history_settings_begin(expected_version, change, acknowledged),
            ),
    {
        let terms = Terms {
            enters_application: true,
            needs_idle: true,
            expected_version: Some(expected_version),
        };
        match begin_opening(change.clone(), terms) {
            Opened::Ask { opening, request } => Step::Ask {
                flow: HistorySettingsFlow {
                    expected_version,
                    change,
                    acknowledged,
                    step: HistorySettingsStep::Opening(opening),
                },
                request,
            },
            _ => vstd::pervasive::unreached(),
        }
    }

    /// Switches on or off that later texts are kept.
    pub fn set_enabled(&self, expected_version: u64, enabled: bool) -> (r: Step<
        HistorySettingsFlow,
        HistorySettingsResult,
    >)
        ensures
            shows_history_settings(
                r,
                history_settings_begin(
                    expected_version,
                    SettingsChange::HistoryEnabled(enabled),
                    false,
                ),
            ),
    {
        self.begin(expected_version, SettingsChange::HistoryEnabled(enabled), false)
    }

    /// Sets how many records are kept.
    pub fn set_limit(&self, expected_version: u64, limit: u16, acknowledge_data_loss: bool) -> (r:
        Step<HistorySettingsFlow, HistorySettingsResult>)
        ensures
            shows_history_settings(
                r,
                history_settings_begin(
                    expected_version,
                    SettingsChange::HistoryLimit(limit),
                    acknowledge_data_loss,
                ),
            ),
    {
        self.begin(expected_version, SettingsChange::HistoryLimit(limit), acknowledge_data_loss)
    }

    /// Sets for how many days records are kept.
    pub fn set_retention_days(
        &self,
        expected_version: u64,
        retention_days: Option<u16>,
        acknowledge_data_loss: bool,
    ) -> (r: Step<HistorySettingsFlow, HistorySettingsResult>)
        ensures
            shows_history_settings(
                r,
                history_settings_begin(
                    expected_version,
                    SettingsChange::HistoryRetention(retention_days),
                    acknowledge_data_loss,
                ),
            ),
    {
        self.begin(
            expected_version,
            SettingsChange::HistoryRetention(retention_days),
            acknowledge_data_loss,
        )
    }

    /// Goes on with a change to the history policy.
    pub fn resume(&self, flow: HistorySettingsFlow, answer: Answer) -> (r: Step<
        HistorySettingsFlow,
        HistorySettingsResult,
    >)
        requires
            history_settings_awaits(flow.step, answer),
        ensures
            shows_history_settings(r, history_settings_step(flow, answer)),
    {
        let HistorySettingsFlow { expected_version, change, acknowledged, step } = flow;
        let (step, request) = match (step, answer) {
            (HistorySettingsStep::Opening(opening), answer) => {
                match continue_opening(opening, answer) {
                    Opened::Ask { opening, request } => (
                        HistorySettingsStep::Opening(opening),
                        request,
                    ),
                    Opened::Refused(refusal) => {
                        return Step::Done(Err(HistorySettingsError::of_refusal(refusal)));
                    },
                    Opened::InForce { current, .. } => {
                        return Step::Done(Ok(current));
                    },
                    Opened::Clear { current, change: wanted } => {
                        let kept = current.input.history_policy.enabled;
                        let candidate = wanted.apply_to(current.into_input());
                        if matches!(wanted, SettingsChange::HistoryLimit(_)) && kept {
                            (HistorySettingsStep::Counting { candidate }, Request::ListHistory)
                        } else {
                            let request = Request::ValidateSettings(candidate.clone());
                            (HistorySettingsStep::Validating { candidate, trims: false }, request)
                        }
                    },
                }
            },
            (HistorySettingsStep::Counting { candidate }, Answer::Records(records)) => {
                match records {
                    Err(error) => {
                        return Step::Done(Err(HistorySettingsError::Port(error)));
                    },
                    Ok(records) => {
                        let trims = records.len() > candidate.history_policy.limit as usize;
                        if trims && !acknowledged {
                            return Step::Done(Err(HistorySettingsError::ConfirmationRequired));
                        }
                        let request = Request::ValidateSettings(candidate.clone());
                        (HistorySettingsStep::Validating { candidate, trims }, request)
                    },
                }
            },
            (HistorySettingsStep::Validating { candidate, trims }, Answer::Valid(valid)) => {
                if !valid {
                    return Step::Done(Err(HistorySettingsError::InvalidPolicy));
                }
                match &change {
                    SettingsChange::HistoryRetention(Some(days)) if candidate.history_policy.enabled => (
                        HistorySettingsStep::ReadingClock { candidate, days: *days },
                        Request::ReadClock,
                    ),
                    _ => (
                        HistorySettingsStep::Replacing { trims },
                        Request::ReplaceSettings {
                            expected_version,
                            settings: SettingsSnapshot::new(candidate),
                        },
                    ),
                }
            },
            (HistorySettingsStep::ReadingClock { candidate, days }, Answer::Now(now)) => (
                HistorySettingsStep::Ageing {
                    candidate,
                    cutoff_ms: retention_cutoff_ms(now, days),
                },
                Request::ListHistory,
            ),
            (HistorySettingsStep::Ageing { candidate, cutoff_ms }, Answer::Records(records)) => {
                match records {
                    Err(error) => {
                        return Step::Done(Err(HistorySettingsError::Port(error)));
                    },
                    Ok(records) => {
                        if any_older(&records, cutoff_ms) && !acknowledged {
                            return Step::Done(
                                Err(HistorySettingsError::RetentionConfirmationRequired),
                            );
                        }
                        (
                            HistorySettingsStep::Replacing { trims: false },
                            Request::ReplaceSettings {
                                expected_version,
                                settings: SettingsSnapshot::new(candidate),
                            },
                        )
                    },
                }
            },
            (HistorySettingsStep::Replacing { trims }, Answer::Settings(stored)) => match stored {
                Err(error) => {
                    return Step::Done(Err(HistorySettingsError::Port(error)));
                },
                Ok(stored) => {
                    let enforced = match &change {
                        SettingsChange::HistoryLimit(_) => trims,
                        SettingsChange::HistoryRetention(_) => {
                            stored.input.history_policy.enabled
                                && stored.input.history_policy.retention_days.is_some()
                        },
                        _ => false,
                    };
                    if !enforced {
                        return Step::Done(Ok(stored));
                    }
                    let request = Request::EnforcePolicy(stored.clone());
                    (HistorySettingsStep::Enforcing { stored }, request)
                },
            },
            (HistorySettingsStep::Enforcing { stored }, Answer::Acted(enforced)) => {
                return match enforced {
                    Ok(_) => Step::Done(Ok(stored)),
                    Err(error) => Step::Done(Err(HistorySettingsError::Port(error))),
                };
            },
            _ => vstd::pervasive::unreached(),
        };
        Step::Ask { flow: HistorySettingsFlow { expected_version, change, acknowledged, step }, request }
    }
}

} // verus!
