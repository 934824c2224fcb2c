//! Checking the chosen recogniser, and choosing another one.
//!
//! Both share the configuration lock with the start of a session, so that no
//! session sees a model in preparation. Only the recogniser that is chosen is
//! ever checked: no other stands in for it.

use crate::configuration::{Answer, Request, Step};
use crate::domain::{AsrEngine, AsrPreference, SettingsSnapshot, SettingsSnapshotInput};
use crate::orchestrator::state::ApplicationActivity;
use crate::ports::{AsrModelPreparationError, EngineHealth, PortError};
use crate::settings_change::SettingsChange;
use crate::settings_write::{invalid_settings_error, is_invalid_settings};
use vstd::prelude::*;

verus! {

/// The chosen recogniser and its health. Nothing is known of the other one.
#[derive(Clone, Copy, Debug, Default, PartialEq, Eq)]
pub struct AsrHealthCheckOutcome {
    pub preference: AsrPreference,
    pub qwen: Option<EngineHealth>,
    pub whisper: Option<EngineHealth>,
}

#[derive(Clone, Debug, PartialEq, Eq)]
pub enum AsrHealthCheckError {
    Busy,
    Quitting,
    RuntimeUnavailable,
    Settings(PortError),
}

#[derive(Clone, Debug, PartialEq, Eq)]
pub enum AsrModelSwitchError {
    Busy,
    Quitting,
    RuntimeUnavailable,
    /// The model package is missing or does not fit.
    Missing,
    HashMismatch,
    Unhealthy,
    Runtime(PortError),
    Settings(PortError),
}

/// What is known after the chosen recogniser has been checked.
pub open spec fn outcome_for(
    preference: AsrPreference,
    health: EngineHealth,
) -> AsrHealthCheckOutcome {
    AsrHealthCheckOutcome {
        preference,
        qwen: if preference is Qwen {
            Some(health)
        } else {
            None
        },
        whisper: if preference is Whisper {
            Some(health)
        } else {
            None
        },
    }
}

pub fn single_engine_outcome(preference: AsrPreference, health: EngineHealth) -> (r:
    AsrHealthCheckOutcome)
    ensures
        r == outcome_for(preference, health),
{
    match preference {
        AsrPreference::Qwen => AsrHealthCheckOutcome {
            preference,
            qwen: Some(health),
            whisper: None,
        },
        AsrPreference::Whisper => AsrHealthCheckOutcome {
            preference,
            qwen: None,
            whisper: Some(health),
        },
    }
}

/// The health of an engine whose model could not be prepared.
pub open spec fn unprepared_health(error: AsrModelPreparationError) -> EngineHealth {
    match error {
        AsrModelPreparationError::Missing => EngineHealth::Missing,
        AsrModelPreparationError::HashMismatch => EngineHealth::Incompatible,
        AsrModelPreparationError::Runtime(_) => EngineHealth::Unhealthy,
    }
}

/// The health that a check reports: a check that fails finds an unhealthy engine.
pub open spec fn checked_health(health: Result<EngineHealth, PortError>) -> EngineHealth {
    match health {
        Ok(health) => health,
        Err(_) => EngineHealth::Unhealthy,
    }
}

/// Why the application cannot be asked to check a model now.
pub open spec fn activity_refusal(activity: Option<ApplicationActivity>) -> Option<
    AsrHealthCheckError,
> {
    match activity {
        Some(ApplicationActivity::Idle) => None,
        Some(ApplicationActivity::Busy) => Some(AsrHealthCheckError::Busy),
        Some(ApplicationActivity::Quitting) => Some(AsrHealthCheckError::Quitting),
        None => Some(AsrHealthCheckError::RuntimeUnavailable),
    }
}

fn ensure_idle(activity: Option<ApplicationActivity>) -> (r: Result<(), AsrHealthCheckError>)
    ensures
        match activity_refusal(activity) {
            None => r is Ok,
            Some(error) => r == Err::<(), AsrHealthCheckError>(error),
        },
{
    match activity {
        Some(ApplicationActivity::Idle) => Ok(()),
        Some(ApplicationActivity::Busy) => Err(AsrHealthCheckError::Busy),
        Some(ApplicationActivity::Quitting) => Err(AsrHealthCheckError::Quitting),
        None => Err(AsrHealthCheckError::RuntimeUnavailable),
    }
}

/// What keeps a switch from its model, told of a check.
pub open spec fn switch_activity(error: AsrHealthCheckError) -> AsrModelSwitchError {
    match error {
        AsrHealthCheckError::Busy => AsrModelSwitchError::Busy,
        AsrHealthCheckError::Quitting => AsrModelSwitchError::Quitting,
        AsrHealthCheckError::RuntimeUnavailable => AsrModelSwitchError::RuntimeUnavailable,
        AsrHealthCheckError::Settings(error) => AsrModelSwitchError::Settings(error),
    }
}

pub fn switch_activity_error(error: AsrHealthCheckError) -> (r: AsrModelSwitchError)
    ensures
        r == switch_activity(error),
{
    match error {
        AsrHealthCheckError::Busy => AsrModelSwitchError::Busy,
        AsrHealthCheckError::Quitting => AsrModelSwitchError::Quitting,
        AsrHealthCheckError::RuntimeUnavailable => AsrModelSwitchError::RuntimeUnavailable,
        AsrHealthCheckError::Settings(error) => AsrModelSwitchError::Settings(error),
    }
}

/// A model that cannot be prepared cannot be chosen.
pub open spec fn switch_preparation(error: AsrModelPreparationError) -> AsrModelSwitchError {
    match error {
        AsrModelPreparationError::Missing => AsrModelSwitchError::Missing,
        AsrModelPreparationError::HashMismatch => AsrModelSwitchError::HashMismatch,
        AsrModelPreparationError::Runtime(error) => AsrModelSwitchError::Runtime(error),
    }
}

pub fn switch_preparation_error(error: AsrModelPreparationError) -> (r: AsrModelSwitchError)
    ensures
        r == switch_preparation(error),
{
    match error {
        AsrModelPreparationError::Missing => AsrModelSwitchError::Missing,
        AsrModelPreparationError::HashMismatch => AsrModelSwitchError::HashMismatch,
        AsrModelPreparationError::Runtime(error) => AsrModelSwitchError::Runtime(error),
    }
}

/// Why a model that has been prepared cannot be chosen, if it cannot.
pub open spec fn unfit(health: Result<EngineHealth, PortError>) -> Option<AsrModelSwitchError> {
    match health {
        Ok(EngineHealth::Healthy) => None,
        Ok(EngineHealth::Missing) | Ok(EngineHealth::Incompatible) => Some(
            AsrModelSwitchError::Missing,
        ),
        Ok(EngineHealth::Unhealthy) => Some(AsrModelSwitchError::Unhealthy),
        Err(error) => Some(AsrModelSwitchError::Runtime(error)),
    }
}

/// How far a health check has come.
#[derive(Clone, Copy, Debug, PartialEq, Eq, Structural)]
pub enum HealthCheckStep {
    TakingTurn,
    Entering,
    Locking,
    Probing,
    Loading,
    Preparing { preference: AsrPreference },
    Checking { preference: AsrPreference },
}

pub type HealthCheckResult = Result<AsrHealthCheckOutcome, AsrHealthCheckError>;

pub type HealthCheckMove = Step<HealthCheckStep, HealthCheckResult>;

/// Whether an answer is what a health check waits for.
pub open spec fn health_check_awaits(step: HealthCheckStep, answer: Answer) -> bool {
    match step {
        HealthCheckStep::TakingTurn | HealthCheckStep::Entering => answer is Granted,
        HealthCheckStep::Locking => answer is Ready,
        HealthCheckStep::Probing => answer is Activity,
        HealthCheckStep::Loading => answer is Settings,
        HealthCheckStep::Preparing { .. } => answer is Prepared,
        HealthCheckStep::Checking { .. } => answer is Health,
    }
}

pub open spec fn health_check_begin() -> HealthCheckMove {
    Step::Ask { flow: HealthCheckStep::TakingTurn, request: Request::TryTurn }
}

/// The whole health check, one answer at a time.
pub open spec fn health_check_step(step: HealthCheckStep, answer: Answer) -> HealthCheckMove {
    match step {
        HealthCheckStep::TakingTurn => if answer->Granted_0 {
            Step::Ask { flow: HealthCheckStep::Entering, request: Request::EnterApplication }
        } else {
            Step::Done(Err(AsrHealthCheckError::Busy))
        },
        HealthCheckStep::Entering => if answer->Granted_0 {
            Step::Ask { flow: HealthCheckStep::Locking, request: Request::LockConfiguration }
        } else {
            Step::Done(Err(AsrHealthCheckError::Quitting))
        },
        HealthCheckStep::Locking => Step::Ask {
            flow: HealthCheckStep::Probing,
            request: Request::ProbeActivity,
        },
        HealthCheckStep::Probing => match activity_refusal(answer->Activity_0) {
            None => Step::Ask { flow: HealthCheckStep::Loading, request: Request::LoadSettings },
            Some(error) => Step::Done(Err(error)),
        },
        HealthCheckStep::Loading => match answer->Settings_0 {
            Ok(settings) => {
                let preference = settings.input.asr_preference;
                Step::Ask {
                    flow: HealthCheckStep::Preparing { preference },
                    request: Request::PrepareModel(preference.spec_engine()),
                }
            },
            Err(error) => Step::Done(Err(AsrHealthCheckError::Settings(error))),
        },
        HealthCheckStep::Preparing { preference } => match answer->Prepared_0 {
            Ok(_) => Step::Ask {
                flow: HealthCheckStep::Checking { preference },
                request: Request::CheckEngine(preference.spec_engine()),
            },
            Err(error) => Step::Done(Ok(outcome_for(preference, unprepared_health(error)))),
        },
        HealthCheckStep::Checking { preference } => Step::Done(
            Ok(outcome_for(preference, checked_health(answer->Health_0))),
        ),
    }
}

/// How far a switch to another recogniser has come.
pub enum ModelSwitchStep {
    TakingTurn,
    Entering,
    Locking,
    Probing,
    Loading,
    Validating { previous: AsrEngine, expected_version: u64, candidate: SettingsSnapshotInput },
    Preparing { previous: AsrEngine, replacement: Option<(u64, SettingsSnapshot)> },
    Checking { previous: AsrEngine, replacement: Option<(u64, SettingsSnapshot)> },
    Storing { previous: AsrEngine },
    /// The engine that was chosen before is being prepared again.
    Restoring { previous: AsrEngine, error: AsrModelSwitchError },
    /// The engine that was chosen before is being warmed up again.
    Warming { error: AsrModelSwitchError },
}

/// A switch to another recogniser under way.
pub struct ModelSwitchFlow {
    pub engine: AsrEngine,
    pub step: ModelSwitchStep,
}

pub type ModelSwitchResult = Result<AsrHealthCheckOutcome, AsrModelSwitchError>;

/// Why a switch was not made.
pub enum ModelSwitchFailure {
    Told(AsrModelSwitchError),
    InvalidSettings,
}

impl AsrModelSwitchError {
    /// Whether this error tells of a failure.
    pub open spec fn tells(self, failure: ModelSwitchFailure) -> bool {
        match failure {
            ModelSwitchFailure::Told(error) => self == error,
            ModelSwitchFailure::InvalidSettings => {
                self is Settings && is_invalid_settings(self->Settings_0)
            },
        }
    }
}

/// A step whose failure has not been put into words.
pub type ModelSwitchMove = Step<
    ModelSwitchFlow,
    Result<AsrHealthCheckOutcome, ModelSwitchFailure>,
>;

/// Whether a step is the given one, its failure put into words.
pub open spec fn shows_model_switch(
    step: Step<ModelSwitchFlow, ModelSwitchResult>,
    mv: ModelSwitchMove,
) -> bool {
    match mv {
        Step::Ask { flow, request } => step == (Step::<ModelSwitchFlow, ModelSwitchResult>::Ask {
            flow,
            request,
        }),
        Step::Done(Ok(outcome)) => step == Step::<ModelSwitchFlow, ModelSwitchResult>::Done(
            Ok(outcome),
        ),
        Step::Done(Err(failure)) => step is Done && step->Done_0 is Err
            && step->Done_0->Err_0.tells(failure),
    }
}

/// Whether an answer is what a switch waits for.
pub open spec fn model_switch_awaits(step: ModelSwitchStep, answer: Answer) -> bool {
    match step {
        ModelSwitchStep::TakingTurn | ModelSwitchStep::Entering => answer is Granted,
        ModelSwitchStep::Locking => answer is Ready,
        ModelSwitchStep::Probing => answer is Activity,
        ModelSwitchStep::Loading | ModelSwitchStep::Storing { .. } => answer is Settings,
        ModelSwitchStep::Validating { .. } => answer is Valid,
        ModelSwitchStep::Preparing { .. } | ModelSwitchStep::Restoring { .. } => {
            answer is Prepared
        },
        ModelSwitchStep::Checking { .. } | ModelSwitchStep::Warming { .. } => answer is Health,
    }
}

pub open spec fn switch_asks(
    engine: AsrEngine,
    step: ModelSwitchStep,
    request: Request,
) -> ModelSwitchMove {
    Step::Ask { flow: ModelSwitchFlow { engine, step }, request }
}

pub open spec fn switch_fails(error: AsrModelSwitchError) -> ModelSwitchMove {
    Step::Done(Err(ModelSwitchFailure::Told(error)))
}

pub open spec fn switch_prepares(
    engine: AsrEngine,
    previous: AsrEngine,
    replacement: Option<(u64, SettingsSnapshot)>,
) -> ModelSwitchMove {
    switch_asks(
        engine,
        ModelSwitchStep::Preparing { previous, replacement },
        Request::PrepareModel(engine),
    )
}

/// Before the failure is told, the previous engine is made ready again.
pub open spec fn switch_restores(
    engine: AsrEngine,
    previous: AsrEngine,
    error: AsrModelSwitchError,
) -> ModelSwitchMove {
    switch_asks(
        engine,
        ModelSwitchStep::Restoring { previous, error },
        Request::PrepareModel(previous),
    )
}

pub open spec fn switch_succeeds(engine: AsrEngine) -> ModelSwitchMove {
    Step::Done(Ok(outcome_for(AsrPreference::of(engine), EngineHealth::Healthy)))
}

pub open spec fn switch_on_loaded(
    engine: AsrEngine,
    settings: Result<SettingsSnapshot, PortError>,
) -> ModelSwitchMove {
    match settings {
        Err(error) => switch_fails(AsrModelSwitchError::Settings(error)),
        Ok(current) => {
            let previous = current.input.asr_preference.spec_engine();
            let change = SettingsChange::Recogniser(AsrPreference::of(engine));
            if change.in_force(current.input) {
                switch_prepares(engine, previous, None)
            } else {
                let candidate = change.applied(current.input);
                switch_asks(
                    engine,
                    ModelSwitchStep::Validating {
                        previous,
                        expected_version: current.input.version,
                        candidate,
                    },
                    Request::ValidateSettings(candidate),
                )
            }
        },
    }
}

/// The choice is stored only once the model has been found healthy.
pub open spec fn switch_on_checked(
    engine: AsrEngine,
    previous: AsrEngine,
    replacement: Option<(u64, SettingsSnapshot)>,
    health: Result<EngineHealth, PortError>,
) -> ModelSwitchMove {
    match unfit(health) {
        Some(error) => switch_restores(engine, previous, error),
        None => match replacement {
            Some((expected_version, settings)) => switch_asks(
                engine,
                ModelSwitchStep::Storing { previous },
                Request::ReplaceSettings { expected_version, settings },
            ),
            None => switch_succeeds(engine),
        },
    }
}

/// The whole switch, one answer at a time.
pub open spec fn model_switch_step(flow: ModelSwitchFlow, answer: Answer) -> ModelSwitchMove {
    let engine = flow.engine;
    match flow.step {
        ModelSwitchStep::TakingTurn => if answer->Granted_0 {
            switch_asks(engine, ModelSwitchStep::Entering, Request::EnterApplication)
        } else {
            switch_fails(AsrModelSwitchError::Busy)
        },
        ModelSwitchStep::Entering => if answer->Granted_0 {
            switch_asks(engine, ModelSwitchStep::Locking, Request::LockConfiguration)
        } else {
            switch_fails(AsrModelSwitchError::Quitting)
        },
        ModelSwitchStep::Locking => switch_asks(
            engine,
            ModelSwitchStep::Probing,
            Request::ProbeActivity,
        ),
        ModelSwitchStep::Probing => match activity_refusal(answer->Activity_0) {
            None => switch_asks(engine, ModelSwitchStep::Loading, Request::LoadSettings),
            Some(error) => switch_fails(switch_activity(error)),
        },
        ModelSwitchStep::Loading => switch_on_loaded(engine, answer->Settings_0),
        ModelSwitchStep::Validating { previous, expected_version, candidate } => {
            if answer->Valid_0 {
                switch_prepares(
                    engine,
                    previous,
                    Some((expected_version, SettingsSnapshot { input: candidate })),
                )
            } else {
                Step::Done(Err(ModelSwitchFailure::InvalidSettings))
            }
        },
        ModelSwitchStep::Preparing { previous, replacement } => match answer->Prepared_0 {
            Ok(_) => switch_asks(
                engine,
                ModelSwitchStep::Checking { previous, replacement },
                Request::CheckEngine(engine),
            ),
            Err(error) => switch_fails(switch_preparation(error)),
        },
        ModelSwitchStep::Checking { previous, replacement } => switch_on_checked(
            engine,
            previous,
            replacement,
            answer->Health_0,
        ),
        ModelSwitchStep::Storing { previous } => match answer->Settings_0 {
            Ok(_) => switch_succeeds(engine),
            Err(error) => switch_restores(engine, previous, AsrModelSwitchError::Settings(error)),
        },
        ModelSwitchStep::Restoring { previous, error } => match answer->Prepared_0 {
            Ok(_) => switch_asks(
                engine,
                ModelSwitchStep::Warming { error },
                Request::CheckEngine(previous),
            ),
            Err(_) => switch_fails(error),
        },
        ModelSwitchStep::Warming { error } => switch_fails(error),
    }
}

pub open spec fn model_switch_begin(engine: AsrEngine) -> ModelSwitchMove {
    switch_asks(engine, ModelSwitchStep::TakingTurn, Request::TryTurn)
}

/// Settings are replaced only right after the chosen engine was found healthy,
/// and only to name it.
pub proof fn only_a_healthy_engine_is_stored(flow: ModelSwitchFlow, answer: Answer)
    requires
        model_switch_awaits(flow.step, answer),
    ensures
        model_switch_step(flow, answer) is Ask && model_switch_step(
            flow,
            answer,
        )->request is ReplaceSettings ==> {
            &&& flow.step is Checking
            &&& answer->Health_0 == Ok::<EngineHealth, PortError>(EngineHealth::Healthy)
            &&& flow.step->Checking_replacement is Some
            &&& model_switch_step(flow, answer)->request->settings
                == (flow.step->Checking_replacement->0).1
        },
        flow.step is Validating && model_switch_step(flow, answer) is Ask ==> {
            let asked = model_switch_step(flow, answer)->flow;
            asked.step is Preparing && asked.step->Preparing_replacement == Some(
                (
                    flow.step->expected_version,
                    SettingsSnapshot { input: flow.step->Validating_candidate },
                ),
            )
        },
{
}

/// A switch that fails after the model was prepared makes the previous engine
/// ready again before it says so.
pub proof fn a_failed_switch_restores_the_previous_engine(flow: ModelSwitchFlow, answer: Answer)
    requires
        model_switch_awaits(flow.step, answer),
    ensures
        flow.step is Checking && unfit(answer->Health_0) is Some ==> model_switch_step(flow, answer)
            == switch_restores(
            flow.engine,
            flow.step->Checking_previous,
            unfit(answer->Health_0)->0,
        ),
        flow.step is Storing && answer->Settings_0 is Err ==> model_switch_step(flow, answer)
            == switch_restores(
            flow.engine,
            flow.step->Storing_previous,
            AsrModelSwitchError::Settings(answer->Settings_0->Err_0),
        ),
        (flow.step is Checking || flow.step is Storing) && model_switch_step(flow, answer) is Done
            ==> model_switch_step(flow, answer)->Done_0 is Ok,
{
}

/// No engine but the chosen one is prepared or checked by a health check.
pub proof fn a_check_reaches_only_the_chosen_engine(step: HealthCheckStep, answer: Answer)
    ensures
        health_check_step(step, answer) is Ask ==> match health_check_step(step, answer)->request {
            Request::PrepareModel(engine) => answer->Settings_0 is Ok && engine
                == answer->Settings_0->Ok_0.input.asr_preference.spec_engine(),
            Request::CheckEngine(engine) => step is Preparing && engine
                == step->Preparing_preference.spec_engine(),
            Request::ReplaceSettings { .. } => false,
            _ => true,
        },
        health_check_step(step, answer) is Done && health_check_step(step, answer)->Done_0 is Ok
            ==> {
            let outcome = health_check_step(step, answer)->Done_0->Ok_0;
            &&& outcome.preference is Qwen ==> outcome.whisper is None && outcome.qwen is Some
            &&& outcome.preference is Whisper ==> outcome.qwen is None && outcome.whisper is Some
        },
{
}

/// Checks the chosen recogniser and switches to another one.
#[derive(Clone, Copy, Debug)]
pub struct AsrHealthController {}

impl AsrHealthController {
    pub fn new() -> (r: AsrHealthController)
        ensures
            r == (AsrHealthController {  }),
    {
        AsrHealthController {  }
    }

    /// Begins to check the recogniser that the settings name.
    pub fn check(&self) -> (r: HealthCheckMove)
        ensures
            r == health_check_begin(),
    {
        Step::Ask { flow: HealthCheckStep::TakingTurn, request: Request::TryTurn }
    }

    /// Goes on with a health check.
    pub fn resume_check(&self, step: HealthCheckStep, answer: Answer) -> (r: HealthCheckMove)
        requires
            health_check_awaits(step, answer),
        ensures
            r == health_check_step(step, answer),
    {
        match (step, answer) {
            (HealthCheckStep::TakingTurn, Answer::Granted(granted)) => if granted {
                Step::Ask { flow: HealthCheckStep::Entering, request: Request::EnterApplication }
            } else {
                Step::Done(Err(AsrHealthCheckError::Busy))
            },
            (HealthCheckStep::Entering, Answer::Granted(granted)) => if granted {
                Step::Ask { flow: HealthCheckStep::Locking, request: Request::LockConfiguration }
            } else {
                Step::Done(Err(AsrHealthCheckError::Quitting))
            },
            (HealthCheckStep::Locking, _) => Step::Ask {
                flow: HealthCheckStep::Probing,
                request: Request::ProbeActivity,
            },
            (HealthCheckStep::Probing, Answer::Activity(activity)) => {
                match ensure_idle(activity) {
                    Ok(_) => Step::Ask {
                        flow: HealthCheckStep::Loading,
                        request: Request::LoadSettings,
                    },
                    Err(error) => Step::Done(Err(error)),
                }
            },
            (HealthCheckStep::Loading, Answer::Settings(settings)) => match settings {
                Ok(settings) => {
                    let preference = settings.input.asr_preference;
                    Step::Ask {
                        flow: HealthCheckStep::Preparing { preference },
                        request: Request::PrepareModel(preference.engine()),
                    }
                },
                Err(error) => Step::Done(Err(AsrHealthCheckError::Settings(error))),
            },
            (HealthCheckStep::Preparing { preference }, Answer::Prepared(prepared)) => {
                let health = match prepared {
                    Ok(_) => {
                        return Step::Ask {
                            flow: HealthCheckStep::Checking { preference },
                            request: Request::CheckEngine(preference.engine()),
                        };
                    },
                    Err(AsrModelPreparationError::Missing) => EngineHealth::Missing,
                    Err(AsrModelPreparationError::HashMismatch) => EngineHealth::Incompatible,
                    Err(AsrModelPreparationError::Runtime(_)) => EngineHealth::Unhealthy,
                };
                Step::Done(Ok(single_engine_outcome(preference, health)))
            },
            (HealthCheckStep::Checking { preference }, Answer::Health(health)) => {
                let health = match health {
                    Ok(health) => health,
                    Err(_) => EngineHealth::Unhealthy,
                };
                Step::Done(Ok(single_engine_outcome(preference, health)))
            },
            _ => vstd::pervasive::unreached(),
        }
    }

    /// Begins to make an engine the chosen one.
    pub fn switch_to(&self, engine: AsrEngine) -> (r: Step<ModelSwitchFlow, ModelSwitchResult>)
        ensures
            shows_model_switch(r, model_switch_begin(engine)),
    {
        Step::Ask {
            flow: ModelSwitchFlow { engine, step: ModelSwitchStep::TakingTurn },
            request: Request::TryTurn,
        }
    }

    /// Goes on with a switch.
    pub fn resume_switch(&self, flow: ModelSwitchFlow, answer: Answer) -> (r: Step<
        ModelSwitchFlow,
        ModelSwitchResult,
    >)
        requires
            model_switch_awaits(flow.step, answer),
        ensures
            shows_model_switch(r, model_switch_step(flow, answer)),
    {
        let ModelSwitchFlow { engine, step } = flow;
        let (step, request) = match (step, answer) {
            (ModelSwitchStep::TakingTurn, Answer::Granted(granted)) => {
                if !granted {
                    return Step::Done(Err(AsrModelSwitchError::Busy));
                }
                (ModelSwitchStep::Entering, Request::EnterApplication)
            },
            (ModelSwitchStep::Entering, Answer::Granted(granted)) => {
                if !granted {
                    return Step::Done(Err(AsrModelSwitchError::Quitting));
                }
                (ModelSwitchStep::Locking, Request::LockConfiguration)
            },
            (ModelSwitchStep::Locking, _) => (ModelSwitchStep::Probing, Request::ProbeActivity),
            (ModelSwitchStep::Probing, Answer::Activity(activity)) => {
                match ensure_idle(activity) {
                    Ok(_) => (ModelSwitchStep::Loading, Request::LoadSettings),
                    Err(error) => {
                        return Step::Done(Err(switch_activity_error(error)));
                    },
                }
            },
            (ModelSwitchStep::Loading, Answer::Settings(settings)) => {
                let current = match settings {
                    Ok(current) => current,
                    Err(error) => {
                        return Step::Done(Err(AsrModelSwitchError::Settings(error)));
                    },
                };
                let previous = current.input.asr_preference.engine();
                let change = SettingsChange::Recogniser(AsrPreference::from_engine(engine));
                if change.is_in_force(&current.input) {
                    (
                        ModelSwitchStep::Preparing { previous, replacement: None },
                        Request::PrepareModel(engine),
                    )
                } else {
                    let expected_version: u64 = current.input.version;
                    let candidate = change.apply_to(current.into_input());
                    let request = Request::ValidateSettings(candidate.clone());
                    (
                        ModelSwitchStep::Validating { previous, expected_version, candidate },
                        request,
                    )
                }
            },
            (
                ModelSwitchStep::Validating { previous, expected_version, candidate },
                Answer::Valid(valid),
            ) => {
                if !valid {
                    return Step::Done(
                        Err(AsrModelSwitchError::Settings(invalid_settings_error())),
                    );
                }
                (
                    ModelSwitchStep::Preparing {
                        previous,
                        replacement: Some((expected_version, SettingsSnapshot::new(candidate))),
                    },
                    Request::PrepareModel(engine),
                )
            },
            (ModelSwitchStep::Preparing { previous, replacement }, Answer::Prepared(prepared)) => {
                if let Err(error) = prepared {
                    return Step::Done(Err(switch_preparation_error(error)));
                }
                (
                    ModelSwitchStep::Checking { previous, replacement },
                    Request::CheckEngine(engine),
                )
            },
            (ModelSwitchStep::Checking { previous, replacement }, Answer::Health(health)) => {
                let error = match health {
                    Ok(EngineHealth::Healthy) => None,
                    Ok(EngineHealth::Missing) | Ok(EngineHealth::Incompatible) => Some(
                        AsrModelSwitchError::Missing,
                    ),
                    Ok(EngineHealth::Unhealthy) => Some(AsrModelSwitchError::Unhealthy),
                    Err(error) => Some(AsrModelSwitchError::Runtime(error)),
                };
                match error {
                    Some(error) => (
                        ModelSwitchStep::Restoring { previous, error },
                        Request::PrepareModel(previous),
                    ),
                    None => match replacement {
                        Some((expected_version, settings)) => (
                            ModelSwitchStep::Storing { previous },
                            Request::ReplaceSettings { expected_version, settings },
                        ),
                        None => {
                            return Step::Done(
                                Ok(
                                    single_engine_outcome(
                                        AsrPreference::from_engine(engine),
                                        EngineHealth::Healthy,
                                    ),
                                ),
                            );
                        },
                    },
                }
            },
            (ModelSwitchStep::Storing { previous }, Answer::Settings(stored)) => match stored {
                Ok(_) => {
                    return Step::Done(
                        Ok(
                            single_engine_outcome(
                                AsrPreference::from_engine(engine),
                                EngineHealth::Healthy,
                            ),
                        ),
                    );
                },
                Err(error) => (
                    ModelSwitchStep::Restoring {
                        previous,
                        error: AsrModelSwitchError::Settings(error),
                    },
                    Request::PrepareModel(previous),
                ),
            },
            (ModelSwitchStep::Restoring { previous, error }, Answer::Prepared(prepared)) => {
                if prepared.is_err() {
                    return Step::Done(Err(error));
                }
                (ModelSwitchStep::Warming { error }, Request::CheckEngine(previous))
            },
            (ModelSwitchStep::Warming { error }, _) => {
                return Step::Done(Err(error));
            },
            _ => vstd::pervasive::unreached(),
        };
        Step::Ask { flow: ModelSwitchFlow { engine, step }, request }
    }
}

} // verus!
