//! What a health check reports and what a switch of the recogniser does, told over
//! whole runs: the answers that were given, what was asked, and what came of it.

use crate::asr_health_controller::{
    health_check_awaits, health_check_step, model_switch_awaits, model_switch_step,
    AsrHealthCheckError, AsrHealthCheckOutcome, AsrModelSwitchError, HealthCheckResult,
    HealthCheckStep, ModelSwitchFailure, ModelSwitchFlow, ModelSwitchStep,
};
use crate::configuration::{Answer, Request, Step};
use crate::domain::{AsrEngine, AsrPreference, SettingsSnapshot, SettingsSnapshotInput};
use crate::orchestrator::state::ApplicationActivity;
use crate::ports::{AsrModelPreparationError, EngineHealth, PortError};
use vstd::prelude::*;

verus! {

/// Whether a preference is for an engine.
pub open spec fn is_for(preference: AsrPreference, engine: AsrEngine) -> bool {
    preference is Qwen && engine is Qwen || preference is Whisper && engine is Whisper
}

/// Whether an outcome tells the health of the preferred engine, and of no other.
pub open spec fn tells_health(
    outcome: AsrHealthCheckOutcome,
    preference: AsrPreference,
    health: EngineHealth,
) -> bool {
    &&& outcome.preference == preference
    &&& preference is Qwen ==> outcome.qwen == Some(health) && outcome.whisper is None
    &&& preference is Whisper ==> outcome.whisper == Some(health) && outcome.qwen is None
}

/// What a health check comes to, given these answers in turn; `None` while it still
/// waits.
pub open spec fn health_check_ends(step: HealthCheckStep, answers: Seq<Answer>) -> Option<
    HealthCheckResult,
>
    decreases answers.len(),
{
    if answers.len() == 0 {
        None
    } else {
        match health_check_step(step, answers[0]) {
            Step::Ask { flow, .. } => health_check_ends(flow, answers.drop_first()),
            Step::Done(result) => Some(result),
        }
    }
}

/// What a health check asks, given these answers in turn.
pub open spec fn health_check_requests(step: HealthCheckStep, answers: Seq<Answer>) -> Seq<Request>
    decreases answers.len(),
{
    if answers.len() == 0 {
        Seq::empty()
    } else {
        match health_check_step(step, answers[0]) {
            Step::Ask { flow, request } => seq![request] + health_check_requests(
                flow,
                answers.drop_first(),
            ),
            Step::Done(_) => Seq::empty(),
        }
    }
}

/// Whether every answer is of the kind that a health check waits for.
pub open spec fn health_check_answered(step: HealthCheckStep, answers: Seq<Answer>) -> bool
    decreases answers.len(),
{
    answers.len() == 0 || health_check_awaits(step, answers[0]) && match health_check_step(
        step,
        answers[0],
    ) {
        Step::Ask { flow, .. } => health_check_answered(flow, answers.drop_first()),
        Step::Done(_) => true,
    }
}

/// The health of an engine is what its model and the engine itself gave away: an
/// engine counts as healthy only where its model was prepared and the engine said
/// so, a missing model is missing, one with another hash does not fit, and one that
/// could not be prepared or checked is unhealthy.
pub open spec fn is_found(
    health: EngineHealth,
    prepared: Result<(), AsrModelPreparationError>,
    checked: Option<Result<EngineHealth, PortError>>,
) -> bool {
    match prepared {
        Err(AsrModelPreparationError::Missing) => health is Missing,
        Err(AsrModelPreparationError::HashMismatch) => health is Incompatible,
        Err(AsrModelPreparationError::Runtime(_)) => health is Unhealthy,
        Ok(_) => match checked {
            Some(Ok(found)) => health == found,
            Some(Err(_)) => health is Unhealthy,
            None => false,
        },
    }
}

/// A check reports healthy only where the model was prepared and the engine answered
/// that it is; everything else that went wrong is reported for what it is.
pub proof fn a_check_reports_what_was_found(step: HealthCheckStep, answer: Answer)
    requires
        health_check_awaits(step, answer),
    ensures
        match health_check_step(step, answer) {
            Step::Done(Ok(outcome)) => match step {
                HealthCheckStep::Preparing { preference } => match answer->Prepared_0 {
                    Err(AsrModelPreparationError::Missing) => tells_health(
                        outcome,
                        preference,
                        EngineHealth::Missing,
                    ),
                    Err(AsrModelPreparationError::HashMismatch) => tells_health(
                        outcome,
                        preference,
                        EngineHealth::Incompatible,
                    ),
                    Err(AsrModelPreparationError::Runtime(_)) => tells_health(
                        outcome,
                        preference,
                        EngineHealth::Unhealthy,
                    ),
                    Ok(_) => false,
                },
                HealthCheckStep::Checking { preference } => match answer->Health_0 {
                    Ok(health) => tells_health(outcome, preference, health),
                    Err(_) => tells_health(outcome, preference, EngineHealth::Unhealthy),
                },
                _ => false,
            },
            _ => true,
        },
        match health_check_step(step, answer) {
            Step::Done(Ok(outcome)) => outcome.qwen == Some(EngineHealth::Healthy)
                || outcome.whisper == Some(EngineHealth::Healthy) ==> step is Checking && answer
                == Answer::Health(Ok(EngineHealth::Healthy)),
            _ => true,
        },
{
}

/// What a whole check comes to: it asks in one order only, about the engine that the
/// settings name, and reports what was found of that engine.
pub proof fn a_whole_check_is_about_the_chosen_engine(
    settings: SettingsSnapshot,
    prepared: Result<(), AsrModelPreparationError>,
    checked: Result<EngineHealth, PortError>,
    engine: AsrEngine,
    health: EngineHealth,
)
    requires
        is_for(settings.input.asr_preference, engine),
        is_found(health, prepared, Some(checked)),
    ensures
        ({
            let answers = seq![
                Answer::Granted(true),
                Answer::Granted(true),
                Answer::Ready,
                Answer::Activity(Some(ApplicationActivity::Idle)),
                Answer::Settings(Ok(settings)),
                Answer::Prepared(prepared),
                Answer::Health(checked),
            ];
            let asked = health_check_requests(HealthCheckStep::TakingTurn, answers);
            let ended = health_check_ends(HealthCheckStep::TakingTurn, answers);
            &&& health_check_answered(HealthCheckStep::TakingTurn, answers)
            &&& asked.len() == if prepared is Ok {
                6int
            } else {
                5
            }
            &&& asked[0] is EnterApplication
            &&& asked[1] is LockConfiguration
            &&& asked[2] is ProbeActivity
            &&& asked[3] is LoadSettings
            &&& asked[4] == Request::PrepareModel(engine)
            &&& prepared is Ok ==> asked[5] == Request::CheckEngine(engine)
            &&& ended is Some && ended->0 is Ok
            &&& tells_health(ended->0->Ok_0, settings.input.asr_preference, health)
        }),
{
    reveal_with_fuel(health_check_requests, 8);
    reveal_with_fuel(health_check_ends, 8);
    reveal_with_fuel(health_check_answered, 8);
    let a0 = seq![
        Answer::Granted(true),
        Answer::Granted(true),
        Answer::Ready,
        Answer::Activity(Some(ApplicationActivity::Idle)),
        Answer::Settings(Ok(settings)),
        Answer::Prepared(prepared),
        Answer::Health(checked),
    ];
    let a1 = a0.drop_first();
    let a2 = a1.drop_first();
    let a3 = a2.drop_first();
    let a4 = a3.drop_first();
    let a5 = a4.drop_first();
    let a6 = a5.drop_first();
    let preference = settings.input.asr_preference;
    let check = HealthCheckStep::Checking { preference };
    let prepare = HealthCheckStep::Preparing { preference };
    assert(a6[0] == Answer::Health(checked));
    assert(health_check_requests(check, a6) =~= Seq::empty());
    assert(a5[0] == Answer::Prepared(prepared));
    if prepared is Ok {
        assert(prepared->Ok_0 == ());
    }
    assert(prepared is Ok ==> health_check_requests(prepare, a5) =~= seq![
        Request::CheckEngine(engine),
    ]);
    assert(prepared is Err ==> health_check_requests(prepare, a5) =~= Seq::empty());
    assert(a4[0] == Answer::Settings(Ok(settings)));
    assert(a3[0] == Answer::Activity(Some(ApplicationActivity::Idle)));
    assert(a2[0] == Answer::Ready);
    assert(a1[0] == Answer::Granted(true));
}

/// A check that is turned away says why, and only then: the turn is taken or work is
/// under way, the application quits, nothing is known of it, or the settings cannot
/// be read.
pub proof fn a_check_is_turned_away_only_with_reason(
    step: HealthCheckStep,
    answer: Answer,
    error: AsrHealthCheckError,
)
    requires
        health_check_awaits(step, answer),
    ensures
        health_check_step(step, answer) == Step::<HealthCheckStep, HealthCheckResult>::Done(
            Err(error),
        ) <==> {
            ||| step is TakingTurn && answer == Answer::Granted(false) && error is Busy
            ||| step is Entering && answer == Answer::Granted(false) && error is Quitting
            ||| step is Probing && answer == Answer::Activity(Some(ApplicationActivity::Busy))
                && error is Busy
            ||| step is Probing && answer == Answer::Activity(Some(ApplicationActivity::Quitting))
                && error is Quitting
            ||| step is Probing && answer == Answer::Activity(None) && error is RuntimeUnavailable
            ||| step is Loading && answer->Settings_0 is Err && error
                == AsrHealthCheckError::Settings(answer->Settings_0->Err_0)
        },
{
}

/// Whether settings are others with another recogniser chosen, and otherwise the same.
pub open spec fn differ_in_the_recogniser(
    left: SettingsSnapshotInput,
    right: SettingsSnapshotInput,
    engine: AsrEngine,
) -> bool {
    &&& is_for(right.asr_preference, engine)
    &&& right == (SettingsSnapshotInput { asr_preference: right.asr_preference, ..left })
}

/// Where a switch stands, and what it was told on the way there: the settings that it
/// found, and those that it has made of them.
pub open spec fn switch_stands(flow: ModelSwitchFlow, found: SettingsSnapshot) -> bool {
    match flow.step {
        ModelSwitchStep::Validating { previous, expected_version, candidate } => {
            &&& is_for(found.input.asr_preference, previous)
            &&& !is_for(found.input.asr_preference, flow.engine)
            &&& expected_version == found.input.version
            &&& differ_in_the_recogniser(found.input, candidate, flow.engine)
        },
        ModelSwitchStep::Preparing { previous, replacement }
        | ModelSwitchStep::Checking { previous, replacement } => {
            &&& is_for(found.input.asr_preference, previous)
            &&& replacement is None <==> is_for(found.input.asr_preference, flow.engine)
            &&& match replacement {
                Some((expected_version, settings)) => {
                    &&& expected_version == found.input.version
                    &&& differ_in_the_recogniser(found.input, settings.input, flow.engine)
                },
                None => true,
            }
        },
        ModelSwitchStep::Storing { previous } | ModelSwitchStep::Restoring { previous, .. } => {
            is_for(found.input.asr_preference, previous)
        },
        _ => true,
    }
}

/// What a switch asks goes by what was found and what was chosen: the chosen engine is
/// prepared, checked and stored over the version that was found, with everything else
/// as it was; the engine that was chosen before is prepared and checked only to undo.
pub open spec fn switch_request_fits(
    flow: ModelSwitchFlow,
    answer: Answer,
    request: Request,
    found: SettingsSnapshot,
) -> bool {
    match request {
        Request::ValidateSettings(candidate) => differ_in_the_recogniser(
            found.input,
            candidate,
            flow.engine,
        ),
        Request::ReplaceSettings { expected_version, settings } => {
            &&& expected_version == found.input.version
            &&& differ_in_the_recogniser(found.input, settings.input, flow.engine)
            &&& answer == Answer::Health(Ok(EngineHealth::Healthy))
        },
        Request::PrepareModel(engine) => if flow.step is Loading || flow.step is Validating {
            engine == flow.engine
        } else {
            is_for(found.input.asr_preference, engine)
        },
        Request::CheckEngine(engine) => if flow.step is Preparing {
            engine == flow.engine
        } else {
            flow.step is Restoring && is_for(found.input.asr_preference, engine)
        },
        Request::EnterApplication
        | Request::LockConfiguration
        | Request::ProbeActivity
        | Request::LoadSettings => true,
        _ => false,
    }
}

/// Every step of a switch asks what it should and stands where it should.
pub proof fn a_switch_goes_by_what_was_found_and_chosen(
    flow: ModelSwitchFlow,
    answer: Answer,
    found: SettingsSnapshot,
)
    requires
        model_switch_awaits(flow.step, answer),
        switch_stands(flow, found),
        flow.step is Loading && answer->Settings_0 is Ok ==> found == answer->Settings_0->Ok_0,
    ensures
        match model_switch_step(flow, answer) {
            Step::Ask { flow: after, request } => {
                &&& after.engine == flow.engine
                &&& switch_stands(after, found)
                &&& switch_request_fits(flow, answer, request, found)
            },
            Step::Done(_) => true,
        },
{
}

/// A switch succeeds only for the chosen engine, found healthy and, unless it was the
/// one already, stored.
pub proof fn a_switch_succeeds_only_for_a_healthy_engine(
    flow: ModelSwitchFlow,
    answer: Answer,
    outcome: AsrHealthCheckOutcome,
)
    requires
        model_switch_awaits(flow.step, answer),
        model_switch_step(flow, answer) == Step::<
            ModelSwitchFlow,
            Result<AsrHealthCheckOutcome, ModelSwitchFailure>,
        >::Done(Ok(outcome)),
    ensures
        is_for(outcome.preference, flow.engine),
        tells_health(outcome, outcome.preference, EngineHealth::Healthy),
        flow.step is Storing && answer->Settings_0 is Ok || flow.step is Checking && answer
            == Answer::Health(Ok(EngineHealth::Healthy)) && flow.step->Checking_replacement is None,
{
}

/// What a model that could not be had, or does not do, keeps a switch from.
pub open spec fn is_kept_by(
    error: AsrModelSwitchError,
    prepared: Result<(), AsrModelPreparationError>,
    checked: Result<EngineHealth, PortError>,
) -> bool {
    match prepared {
        Err(AsrModelPreparationError::Missing) => error is Missing,
        Err(AsrModelPreparationError::HashMismatch) => error is HashMismatch,
        Err(AsrModelPreparationError::Runtime(cause)) => error == AsrModelSwitchError::Runtime(
            cause,
        ),
        Ok(_) => match checked {
            Ok(EngineHealth::Healthy) => false,
            Ok(EngineHealth::Unhealthy) => error is Unhealthy,
            Ok(EngineHealth::Missing) | Ok(EngineHealth::Incompatible) => error is Missing,
            Err(cause) => error == AsrModelSwitchError::Runtime(cause),
        },
    }
}

/// A switch that fails says what kept it: it is turned away as a check is, the model
/// could not be prepared or is not healthy, or the choice could not be stored. Once
/// the chosen engine has been prepared, the one from before is made ready first.
pub proof fn a_switch_fails_only_with_reason(flow: ModelSwitchFlow, answer: Answer)
    requires
        model_switch_awaits(flow.step, answer),
    ensures
        match model_switch_step(flow, answer) {
            Step::Done(Err(ModelSwitchFailure::Told(told))) => match flow.step {
                ModelSwitchStep::TakingTurn => answer == Answer::Granted(false) && told is Busy,
                ModelSwitchStep::Entering => answer == Answer::Granted(false) && told is Quitting,
                ModelSwitchStep::Probing => match answer->Activity_0 {
                    Some(ApplicationActivity::Idle) => false,
                    Some(ApplicationActivity::Busy) => told is Busy,
                    Some(ApplicationActivity::Quitting) => told is Quitting,
                    None => told is RuntimeUnavailable,
                },
                ModelSwitchStep::Loading => answer->Settings_0 is Err && told
                    == AsrModelSwitchError::Settings(answer->Settings_0->Err_0),
                ModelSwitchStep::Preparing { .. } => answer->Prepared_0 is Err && is_kept_by(
                    told,
                    answer->Prepared_0,
                    Ok(EngineHealth::Healthy),
                ),
                ModelSwitchStep::Restoring { error, .. } => answer->Prepared_0 is Err && told
                    == error,
                ModelSwitchStep::Warming { error } => told == error,
                _ => false,
            },
            Step::Done(Err(ModelSwitchFailure::InvalidSettings)) => flow.step is Validating
                && answer == Answer::Valid(false),
            Step::Done(Ok(_)) => true,
            Step::Ask { flow: after, .. } => match after.step {
                ModelSwitchStep::Restoring { previous, error } => {
                    ||| flow.step is Checking && previous == flow.step->Checking_previous
                        && is_kept_by(error, Ok(()), answer->Health_0)
                    ||| flow.step is Storing && previous == flow.step->Storing_previous
                        && answer->Settings_0 is Err && error == AsrModelSwitchError::Settings(
                        answer->Settings_0->Err_0,
                    )
                },
                ModelSwitchStep::Warming { error } => flow.step is Restoring
                    && flow.step->Restoring_error == error,
                _ => true,
            },
        },
{
}

} // verus!
