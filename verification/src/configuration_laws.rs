//! Every question that a configuration use case asks can be answered: whatever
//! is of the kind that a request asks for is what the use case waits for.

use crate::asr_health_controller::{
    health_check_awaits, health_check_begin, health_check_step, model_switch_awaits,
    model_switch_begin, model_switch_step, HealthCheckMove, HealthCheckStep, ModelSwitchFlow,
    ModelSwitchMove,
};
use crate::configuration::{answers, Answer};
use crate::domain::AsrEngine;
use crate::history_controller::{
    history_awaits, history_begin, history_step, HistoryController, HistoryFlow, HistoryGoal,
    HistoryMove,
};
use crate::history_settings_controller::{
    history_settings_awaits, history_settings_begin, history_settings_step, HistorySettingsFlow,
    HistorySettingsMove,
};
use crate::llm_configuration::api_key::{
    api_key_awaits, api_key_begin, api_key_step, ApiKeyFlow, ApiKeyGoal, ApiKeyMove,
};
use crate::llm_configuration::connection::{
    connection_test_awaits, connection_test_begin, connection_test_follows, ConnectionTestMove,
    ConnectionTestStep,
};
use crate::llm_configuration::settings::{
    llm_settings_awaits, llm_settings_begin, llm_settings_fits, llm_settings_step,
    LlmSettingsFlow, LlmSettingsMove,
};
use crate::llm_configuration::status::{
    key_status_awaits, key_status_begin, key_status_step, readiness_awaits, readiness_begin,
    readiness_step, KeyStatusMove, KeyStatusStep, ReadinessMove, ReadinessStep,
};
use crate::recording_settings_controller::{
    recording_settings_awaits, recording_settings_begin, recording_settings_step,
    RecordingSettingsFlow, RecordingSettingsMove,
};
use crate::settings_change::SettingsChange;
use crate::settings_write::Terms;
use crate::system_settings_controller::{
    system_settings_awaits, system_settings_begin, system_settings_step, SystemSettingsFlow,
    SystemSettingsMove,
};
use vstd::prelude::*;

verus! {

/// Whether a health check that asks something takes this answer, if it is one.
pub open spec fn health_check_takes(next: HealthCheckMove, answer: Answer) -> bool {
    next is Ask && answers(answer, next->request) ==> health_check_awaits(next->flow, answer)
}

/// Whether a model switch that asks something takes this answer, if it is one.
pub open spec fn model_switch_takes(next: ModelSwitchMove, answer: Answer) -> bool {
    next is Ask && answers(answer, next->request) ==> model_switch_awaits(next->flow.step, answer)
}

/// Whether a use of the history that asks something takes this answer, if it is
/// one.
pub open spec fn history_takes(next: HistoryMove, answer: Answer) -> bool {
    next is Ask && answers(answer, next->request) ==> history_awaits(next->flow.step, answer)
}

/// Whether a change to the history policy that asks something takes this answer,
/// if it is one.
pub open spec fn history_settings_takes(next: HistorySettingsMove, answer: Answer) -> bool {
    next is Ask && answers(answer, next->request) ==> history_settings_awaits(
        next->flow.step,
        answer,
    )
}

/// Whether a change to the recording that asks something takes this answer, if
/// it is one.
pub open spec fn recording_settings_takes(next: RecordingSettingsMove, answer: Answer) -> bool {
    next is Ask && answers(answer, next->request) ==> recording_settings_awaits(
        next->flow.step,
        answer,
    )
}

/// Whether a change to the system settings that asks something takes this
/// answer, if it is one.
pub open spec fn system_settings_takes(next: SystemSettingsMove, answer: Answer) -> bool {
    next is Ask && answers(answer, next->request) ==> system_settings_awaits(
        next->flow.step,
        answer,
    )
}

/// Whether a change to the language model settings that asks something takes
/// this answer, if it is one, and is about what it began with.
pub open spec fn llm_settings_takes(next: LlmSettingsMove, answer: Answer) -> bool {
    next is Ask ==> llm_settings_fits(next->flow) && (answers(answer, next->request)
        ==> llm_settings_awaits(next->flow.step, answer))
}

/// Whether a use of the key that asks something takes this answer, if it is one.
pub open spec fn api_key_takes(next: ApiKeyMove, answer: Answer) -> bool {
    next is Ask && answers(answer, next->request) ==> api_key_awaits(next->flow, answer)
}

/// Whether a connection test that asks something takes this answer, if it is one.
pub open spec fn connection_test_takes(next: ConnectionTestMove, answer: Answer) -> bool {
    next is Ask && answers(answer, next->request) ==> connection_test_awaits(next->flow, answer)
}

/// Whether a look at the key that asks something takes this answer, if it is one.
pub open spec fn key_status_takes(next: KeyStatusMove, answer: Answer) -> bool {
    next is Ask && answers(answer, next->request) ==> key_status_awaits(next->flow, answer)
}

/// Whether a look at the readiness that asks something takes this answer, if it
/// is one.
pub open spec fn readiness_takes(next: ReadinessMove, answer: Answer) -> bool {
    next is Ask && answers(answer, next->request) ==> readiness_awaits(next->flow, answer)
}

/// A health check takes every answer to what it asks.
pub proof fn a_health_check_can_be_answered(step: HealthCheckStep, given: Answer, answer: Answer)
    requires
        health_check_awaits(step, given),
    ensures
        health_check_takes(health_check_begin(), answer),
        health_check_takes(health_check_step(step, given), answer),
{
}

/// A model switch takes every answer to what it asks.
pub proof fn a_model_switch_can_be_answered(
    engine: AsrEngine,
    flow: ModelSwitchFlow,
    given: Answer,
    answer: Answer,
)
    requires
        model_switch_awaits(flow.step, given),
    ensures
        model_switch_takes(model_switch_begin(engine), answer),
        model_switch_takes(model_switch_step(flow, given), answer),
{
}

/// A use of the history takes every answer to what it asks.
pub proof fn a_use_of_the_history_can_be_answered(
    controller: HistoryController,
    goal: HistoryGoal,
    flow: HistoryFlow,
    given: Answer,
    answer: Answer,
)
    requires
        history_awaits(flow.step, given),
    ensures
        history_takes(history_begin(goal), answer),
        history_takes(history_step(controller, flow, given), answer),
{
}

/// A change to the history policy takes every answer to what it asks.
pub proof fn a_policy_change_can_be_answered(
    expected_version: u64,
    change: SettingsChange,
    acknowledged: bool,
    flow: HistorySettingsFlow,
    given: Answer,
    answer: Answer,
)
    requires
        history_settings_awaits(flow.step, given),
    ensures
        history_settings_takes(
            history_settings_begin(expected_version, change, acknowledged),
            answer,
        ),
        history_settings_takes(history_settings_step(flow, given), answer),
{
}

/// A change to the recording takes every answer to what it asks.
pub proof fn a_recording_change_can_be_answered(
    expected_version: u64,
    change: SettingsChange,
    flow: RecordingSettingsFlow,
    given: Answer,
    answer: Answer,
)
    requires
        recording_settings_awaits(flow.step, given),
    ensures
        recording_settings_takes(recording_settings_begin(expected_version, change), answer),
        recording_settings_takes(recording_settings_step(flow, given), answer),
{
}

/// A change to the system settings takes every answer to what it asks.
pub proof fn a_system_change_can_be_answered(
    expected_version: u64,
    change: SettingsChange,
    flow: SystemSettingsFlow,
    given: Answer,
    answer: Answer,
)
    requires
        system_settings_awaits(flow.step, given),
    ensures
        system_settings_takes(system_settings_begin(expected_version, change), answer),
        system_settings_takes(system_settings_step(flow, given), answer),
{
}

/// A change to the language model settings takes every answer to what it asks,
/// and stays about what it began with.
pub proof fn an_llm_change_can_be_answered(
    change: SettingsChange,
    terms: Terms,
    flow: LlmSettingsFlow,
    given: Answer,
    answer: Answer,
)
    requires
        llm_settings_awaits(flow.step, given),
        llm_settings_fits(flow),
    ensures
        llm_settings_takes(llm_settings_begin(change, terms), answer),
        llm_settings_takes(llm_settings_step(flow, given), answer),
{
}

/// A use of the key takes every answer to what it asks.
pub proof fn a_use_of_the_key_can_be_answered(
    goal: ApiKeyGoal,
    flow: ApiKeyFlow,
    given: Answer,
    answer: Answer,
)
    requires
        api_key_awaits(flow, given),
    ensures
        api_key_takes(api_key_begin(goal), answer),
        api_key_takes(api_key_step(flow, given), answer),
{
}

/// A connection test takes every answer to what it asks.
pub proof fn a_connection_test_can_be_answered(
    step: ConnectionTestStep,
    given: Answer,
    next: ConnectionTestMove,
    answer: Answer,
)
    requires
        connection_test_awaits(step, given),
        connection_test_follows(step, given, next),
    ensures
        connection_test_takes(connection_test_begin(), answer),
        connection_test_takes(next, answer),
{
}

/// A look at the key takes every answer to what it asks.
pub proof fn a_look_at_the_key_can_be_answered(
    step: KeyStatusStep,
    given: Answer,
    answer: Answer,
)
    requires
        key_status_awaits(step, given),
    ensures
        key_status_takes(key_status_begin(), answer),
        key_status_takes(key_status_step(step, given), answer),
{
}

/// A look at the readiness takes every answer to what it asks.
pub proof fn a_look_at_the_readiness_can_be_answered(
    step: ReadinessStep,
    given: Answer,
    answer: Answer,
)
    requires
        readiness_awaits(step, given),
    ensures
        readiness_takes(readiness_begin(), answer),
        readiness_takes(readiness_step(step, given), answer),
{
}

} // verus!
