//! What configuring the language model comes to, told by what was found on the way: which
//! endpoint the provider is asked about, which key is stored, shown, kept or removed, and
//! what is said of it.

use crate::configuration::{Answer, Request, Step};
use crate::domain::SettingsSnapshot;
use crate::llm_configuration::api_key::{
    api_key_awaits, api_key_begin, api_key_step, ApiKeyFlow, ApiKeyGoal, ApiKeyOutcome,
};
use crate::llm_configuration::connection::{
    connection_failure, connection_test_awaits, connection_test_follows, ConnectionTestMove,
    ConnectionTestStep, CONNECTION_TEST_TEXT,
};
use crate::llm_configuration::settings::{
    llm_settings_awaits, llm_settings_fits, llm_settings_step, LlmSettingsFlow, LlmSettingsStep,
};
use crate::llm_configuration::status::{
    key_status_awaits, key_status_step, readiness_awaits, readiness_step, KeyStatusStep,
    ReadinessStep,
};
use crate::llm_configuration::{
    is_acceptable_key, LlmApiKeyStatus, LlmConfigurationFailure, LlmConnectionTestOutcome,
};
use crate::ports::{
    secret_text, LlmRouteCandidate, LlmRouteResolution, ResolvedLlmRoute, SecretMaterialState,
};
use crate::settings_change::SettingsChange;
use crate::settings_laws::{
    a_change_changes_its_own_part_alone, a_write_opens_in_order, is_made, tell_the_same,
};
use crate::settings_write::Refusal;
use crate::text::blank;
use vstd::prelude::*;

verus! {

/// Whether the provider is asked about the endpoint and the model of these settings.
pub open spec fn is_candidate_of(
    candidate: Option<LlmRouteCandidate>,
    settings: SettingsSnapshot,
) -> bool {
    match settings.input.llm {
        Some(llm) => candidate is Some && candidate->0.base_url == llm.base_url
            && candidate->0.model == llm.model,
        None => candidate is None,
    }
}

/// Whether an answer of the provider's names a valid endpoint.
pub open spec fn names(resolution: LlmRouteResolution, route: ResolvedLlmRoute) -> bool {
    ||| resolution == LlmRouteResolution::Ready(route)
    ||| resolution == LlmRouteResolution::MissingSecret(route)
    ||| resolution is Unavailable && resolution->route == Some(route)
}

/// A look at the key says that there is one exactly where the provider is ready with it
/// or the store has it, and asks about the endpoint that the settings name.
pub proof fn a_status_says_what_was_found(step: KeyStatusStep, answer: Answer)
    requires
        key_status_awaits(step, answer),
    ensures
        match key_status_step(step, answer) {
            Step::Ask { flow: after, request } => match step {
                KeyStatusStep::Locking => request is LoadSettings && after is Loading,
                KeyStatusStep::Loading => {
                    &&& request is InspectStore
                    &&& answer->Settings_0 is Ok
                    &&& after == (KeyStatusStep::InspectingStore {
                        settings: answer->Settings_0->Ok_0,
                    })
                },
                KeyStatusStep::InspectingStore { settings } => {
                    &&& request is ResolveRoute
                    &&& is_candidate_of(request->ResolveRoute_0, settings)
                    &&& after is Resolving
                    &&& answer->Material_0 is Ok && !(answer->Material_0->Ok_0 is RecoveryRequired)
                },
                KeyStatusStep::Resolving => {
                    &&& answer->Resolution_0 is Unavailable
                    &&& answer->Resolution_0->route is Some
                    &&& request == Request::InspectSecret(
                        answer->Resolution_0->route->0.secret_id,
                    )
                    &&& after is InspectingSecret
                },
                KeyStatusStep::InspectingSecret => false,
            },
            Step::Done(LlmApiKeyStatus::Configured) => {
                ||| step is Resolving && answer->Resolution_0 is Ready
                ||| step is InspectingSecret && answer == Answer::Material(
                    Ok(SecretMaterialState::Configured),
                )
            },
            Step::Done(LlmApiKeyStatus::NotConfigured) => {
                ||| step is Resolving && (answer->Resolution_0 is NoConfiguration
                    || answer->Resolution_0 is MissingSecret)
                ||| step is InspectingSecret && answer == Answer::Material(
                    Ok(SecretMaterialState::NotConfigured),
                )
            },
            Step::Done(LlmApiKeyStatus::RecoveryRequired) => {
                &&& step is InspectingStore || step is InspectingSecret
                &&& answer == Answer::Material(Ok(SecretMaterialState::RecoveryRequired))
            },
            Step::Done(LlmApiKeyStatus::Unavailable) => {
                ||| step is Loading && answer->Settings_0 is Err
                ||| (step is InspectingStore || step is InspectingSecret) && answer->Material_0
                    is Err
                ||| step is Resolving && answer->Resolution_0 is Unavailable
                    && answer->Resolution_0->route is None
            },
        },
{
}

/// A look at the readiness says yes exactly where the provider is ready, and asks about
/// the endpoint that the settings name.
pub proof fn a_readiness_says_what_was_found(step: ReadinessStep, answer: Answer)
    requires
        readiness_awaits(step, answer),
    ensures
        match readiness_step(step, answer) {
            Step::Ask { flow: after, request } => match step {
                ReadinessStep::Locking => request is LoadSettings && after is Loading,
                ReadinessStep::Loading => {
                    &&& answer->Settings_0 is Ok
                    &&& request is ResolveRoute
                    &&& is_candidate_of(request->ResolveRoute_0, answer->Settings_0->Ok_0)
                    &&& after is Resolving
                },
                ReadinessStep::Resolving => false,
            },
            Step::Done(ready) => if ready {
                step is Resolving && answer->Resolution_0 is Ready
            } else {
                ||| step is Loading && answer->Settings_0 is Err
                ||| step is Resolving && !(answer->Resolution_0 is Ready)
            },
        },
{
}

/// A key is taken in exactly where it is not empty, not longer than eight kibibytes, and
/// made of visible characters alone.
pub proof fn a_key_is_refused_only_where_it_could_not_be_sent(goal: ApiKeyGoal)
    ensures
        match api_key_begin(goal) {
            Step::Done(result) => {
                &&& goal is Store && result is Err && result->Err_0 is InvalidSecret
                &&& {
                    let text = secret_text(goal->Store_0);
                    ||| text.len() == 0
                    ||| text.len() > 8_192
                    ||| exists|i: int|
                        0 <= i < text.len() && (((#[trigger] text[i]) as u32) < 0x21 || (
                        text[i] as u32) > 0x7e)
                }
            },
            Step::Ask { flow, request } => {
                &&& flow == ApiKeyFlow::TakingTurn(goal)
                &&& request is TakeTurn
                &&& goal is Store ==> {
                    let text = secret_text(goal->Store_0);
                    &&& 0 < text.len() <= 8_192
                    &&& forall|i: int|
                        0 <= i < text.len() ==> 0x21 <= ((#[trigger] text[i]) as u32) <= 0x7e
                }
            },
        },
{
    if goal is Store {
        let text = secret_text(goal->Store_0);
        if !is_acceptable_key(text) && 0 < text.len() <= 8_192 {
            let i = choose|i: int|
                0 <= i < text.len() && !crate::llm_configuration::is_header_safe(
                    #[trigger] text[i],
                );
            assert((text[i] as u32) < 0x21 || (text[i] as u32) > 0x7e);
        }
    }
}

/// What a use of the key asks follows from what is wanted and what was found: the key is
/// stored as it was given, under the name that the provider gave for the endpoint of the
/// settings; that one and no other is looked at and shown; and all keys of language models
/// are removed, or a store that cannot be read any more is reset, where that is wanted.
pub proof fn a_use_of_the_key_asks_for_what_is_wanted(flow: ApiKeyFlow, answer: Answer)
    requires
        api_key_awaits(flow, answer),
        api_key_step(flow, answer) is Ask,
    ensures
        ({
            let after = api_key_step(flow, answer)->flow;
            let request = api_key_step(flow, answer)->request;
            match flow {
                ApiKeyFlow::TakingTurn(goal) => {
                    request is LockConfiguration && after == ApiKeyFlow::Locking(goal)
                },
                ApiKeyFlow::Locking(goal) => if goal is Reveal {
                    request is LoadSettings && after == ApiKeyFlow::Loading(goal)
                } else {
                    request is ProbeWork && after == ApiKeyFlow::Probing(goal)
                },
                ApiKeyFlow::Probing(goal) => {
                    &&& answer == Answer::Work(Some(false))
                    &&& match goal {
                        ApiKeyGoal::Delete => request is InspectStore && after
                            is InspectingBeforeDelete,
                        ApiKeyGoal::Reset => request is InspectStore && after
                            is InspectingBeforeReset,
                        _ => request is LoadSettings && after == ApiKeyFlow::Loading(goal),
                    }
                },
                ApiKeyFlow::Loading(goal) => {
                    &&& answer->Settings_0 is Ok
                    &&& answer->Settings_0->Ok_0.input.llm is Some
                    &&& request is ResolveRoute
                    &&& is_candidate_of(request->ResolveRoute_0, answer->Settings_0->Ok_0)
                    &&& after == ApiKeyFlow::Resolving(goal)
                },
                ApiKeyFlow::Resolving(ApiKeyGoal::Store(value)) => {
                    &&& request is InspectStore
                    &&& after is CheckingStore && after->value == value
                    &&& exists|route: ResolvedLlmRoute|
                        #[trigger] names(answer->Resolution_0, route)
                            && after->CheckingStore_secret_id == route.secret_id
                },
                ApiKeyFlow::Resolving(_) => {
                    &&& after is Inspecting
                    &&& request == Request::InspectSecret(after->Inspecting_secret_id)
                    &&& exists|route: ResolvedLlmRoute|
                        #[trigger] names(answer->Resolution_0, route)
                            && after->Inspecting_secret_id == route.secret_id
                },
                ApiKeyFlow::CheckingStore { value, secret_id } => {
                    &&& answer->Material_0 is Ok && !(answer->Material_0->Ok_0 is RecoveryRequired)
                    &&& request is ReplaceNamespace
                    &&& request->namespace@ == "llm.openai_compatible."@
                    &&& request->ReplaceNamespace_secret_id == secret_id
                    &&& request->ReplaceNamespace_value == value
                    &&& after == (ApiKeyFlow::Storing { secret_id })
                },
                ApiKeyFlow::Storing { secret_id } => {
                    &&& answer->Acted_0 is Ok
                    &&& request == Request::InspectSecret(secret_id)
                    &&& after is Verifying
                },
                ApiKeyFlow::Inspecting { secret_id } => {
                    &&& answer == Answer::Material(Ok(SecretMaterialState::Configured))
                    &&& request == Request::ReadSecret(secret_id)
                    &&& after is Reading
                },
                ApiKeyFlow::InspectingBeforeDelete => {
                    &&& answer == Answer::Material(Ok(SecretMaterialState::Configured))
                    &&& request is DeleteNamespace
                    &&& request->DeleteNamespace_0@ == "llm.openai_compatible."@
                    &&& after is Deleting
                },
                ApiKeyFlow::InspectingBeforeReset => {
                    &&& answer == Answer::Material(Ok(SecretMaterialState::RecoveryRequired))
                    &&& request is ResetStore && after is Resetting
                },
                ApiKeyFlow::Resetting => {
                    &&& answer->Acted_0 is Ok
                    &&& request is InspectStore && after is InspectingAfterReset
                },
                _ => false,
            }
        }),
{
    if let ApiKeyFlow::Resolving(_) = flow {
        match answer->Resolution_0 {
            LlmRouteResolution::Ready(route) => {
                assert(names(answer->Resolution_0, route));
            },
            LlmRouteResolution::MissingSecret(route) => {
                assert(names(answer->Resolution_0, route));
            },
            LlmRouteResolution::Unavailable { route: Some(route), .. } => {
                assert(names(answer->Resolution_0, route));
            },
            _ => {},
        }
    }
}

/// What came of a use of the key is what was found last: stored only where it was found
/// again, shown only as it was read, gone only where the store says so; and a failure is
/// told for what it was.
pub proof fn a_use_of_the_key_ends_with_what_was_found(flow: ApiKeyFlow, answer: Answer)
    requires
        api_key_awaits(flow, answer),
        api_key_step(flow, answer) is Done,
    ensures
        match api_key_step(flow, answer)->Done_0 {
            Ok(ApiKeyOutcome::Status(LlmApiKeyStatus::Configured)) => {
                flow is Verifying && answer == Answer::Material(Ok(SecretMaterialState::Configured))
            },
            Ok(ApiKeyOutcome::Status(LlmApiKeyStatus::NotConfigured)) => {
                ||| (flow is InspectingBeforeDelete || flow is InspectingAfterReset) && answer
                    == Answer::Material(Ok(SecretMaterialState::NotConfigured))
                ||| flow is Deleting && answer->Deleted_0 is Ok
            },
            Ok(ApiKeyOutcome::Status(_)) => false,
            Ok(ApiKeyOutcome::Revealed(value)) => {
                flow is Reading && answer == Answer::Secret(Ok(Some(value)))
            },
            Err(LlmConfigurationFailure::Refused(Refusal::Busy)) => {
                flow is Probing && answer == Answer::Work(Some(true))
            },
            Err(LlmConfigurationFailure::Refused(Refusal::RuntimeUnavailable)) => {
                flow is Probing && answer == Answer::Work(None)
            },
            Err(LlmConfigurationFailure::Refused(Refusal::Port(error))) => {
                ||| answer == Answer::Settings(Err(error))
                ||| answer == Answer::Material(Err(error))
                ||| answer == Answer::Acted(Err(error))
                ||| answer == Answer::Secret(Err(error))
                ||| answer == Answer::Deleted(Err(error))
            },
            Err(LlmConfigurationFailure::Refused(_)) => false,
            Err(LlmConfigurationFailure::NotConfigured) => {
                ||| flow is Loading && answer->Settings_0 is Ok
                    && answer->Settings_0->Ok_0.input.llm is None
                ||| flow is Resolving && answer->Resolution_0 is NoConfiguration
                ||| flow is Inspecting && answer == Answer::Material(
                    Ok(SecretMaterialState::NotConfigured),
                )
            },
            Err(LlmConfigurationFailure::RecoveryRequired) => {
                &&& !(flow is InspectingBeforeReset) && !(flow is InspectingAfterReset)
                &&& answer == Answer::Material(Ok(SecretMaterialState::RecoveryRequired))
            },
            Err(LlmConfigurationFailure::InvalidSecret) => false,
            Err(LlmConfigurationFailure::InvalidConfiguration(error)) => {
                &&& flow is Resolving
                &&& answer->Resolution_0 == (LlmRouteResolution::Unavailable { route: None, error })
            },
            Err(LlmConfigurationFailure::InvalidSettings) => false,
            Err(LlmConfigurationFailure::SecretVerificationFailed) => {
                ||| flow is Verifying && answer == Answer::Material(
                    Ok(SecretMaterialState::NotConfigured),
                )
                ||| flow is Reading && answer == Answer::Secret(Ok(None))
                ||| flow is InspectingAfterReset && answer->Material_0 is Ok && !(
                answer->Material_0->Ok_0 is NotConfigured)
            },
            Err(LlmConfigurationFailure::ResetNotRequired) => {
                &&& flow is InspectingBeforeReset
                &&& answer->Material_0 is Ok && !(answer->Material_0->Ok_0 is RecoveryRequired)
            },
        },
{
}

/// Where a change to the settings of the language model stands.
pub open spec fn llm_change_stands(flow: LlmSettingsFlow, found: SettingsSnapshot) -> bool {
    match flow.step {
        LlmSettingsStep::Opening(opening) => opening.change == flow.change,
        LlmSettingsStep::InspectingStore { current }
        | LlmSettingsStep::ResolvingOld { current }
        | LlmSettingsStep::ResolvingNew { current, .. }
        | LlmSettingsStep::Predeleting { current, .. } => current == found,
        LlmSettingsStep::Validating { version, candidate, .. } => {
            &&& version == found.input.version
            &&& is_made(flow.change, found.input, candidate)
        },
        _ => true,
    }
}

/// A change to the settings of the language model stores the settings that were found with
/// the change made. The provider is asked about the endpoint that was current and about the
/// one that is wanted; where they keep their keys in different places, the place of the one
/// that is wanted is emptied before the settings are stored and that of the other one
/// afterwards, and no key is removed otherwise.
pub proof fn an_llm_change_goes_by_what_was_found(
    flow: LlmSettingsFlow,
    answer: Answer,
    found: SettingsSnapshot,
)
    requires
        llm_settings_awaits(flow.step, answer),
        llm_settings_fits(flow),
        llm_change_stands(flow, found),
        flow.step is Opening && answer is Settings && answer->Settings_0 is Ok ==> found
            == answer->Settings_0->Ok_0,
    ensures
        match llm_settings_step(flow, answer) {
            Step::Ask { flow: after, request } => {
                &&& after.change == flow.change
                &&& llm_change_stands(after, found)
                &&& match request {
                    Request::InspectStore => flow.step is Opening && flow.change is Llm,
                    Request::ResolveRoute(candidate) => if after.step is ResolvingOld {
                        is_candidate_of(candidate, found)
                    } else {
                        let wanted = flow.change->Llm_0;
                        &&& after.step is ResolvingNew
                        &&& wanted is Some && candidate is Some
                        &&& candidate->0.base_url == wanted->0.base_url
                        &&& candidate->0.model == wanted->0.model
                        &&& match after.step->old {
                            Some(old) => flow.step is ResolvingOld && names(
                                answer->Resolution_0,
                                old,
                            ),
                            None => true,
                        }
                    },
                    Request::DeleteSecret(secret_id) => match flow.step {
                        LlmSettingsStep::ResolvingNew { old, .. } => {
                            &&& exists|new: ResolvedLlmRoute|
                                #[trigger] names(answer->Resolution_0, new) && new.secret_id
                                    == secret_id && (old is Some ==> old->0.secret_id@
                                    != new.secret_id@)
                            &&& after.step is Predeleting
                            &&& after.step->Predeleting_orphan == match old {
                                Some(old) => Some(old.secret_id),
                                None => None,
                            }
                        },
                        LlmSettingsStep::Replacing { orphan } => {
                            &&& orphan == Some(secret_id)
                            &&& answer->Settings_0 is Ok
                            &&& after.step == (LlmSettingsStep::DeletingOrphan {
                                stored: answer->Settings_0->Ok_0,
                            })
                        },
                        _ => false,
                    },
                    Request::ValidateSettings(candidate) => {
                        &&& is_made(flow.change, found.input, candidate)
                        &&& match flow.step {
                            LlmSettingsStep::Predeleting { orphan, .. } => answer->Acted_0 is Ok
                                && after.step->Validating_orphan == orphan,
                            LlmSettingsStep::ResolvingNew { old, .. } => {
                                &&& after.step->Validating_orphan is None
                                &&& old is Some
                                &&& exists|new: ResolvedLlmRoute|
                                    #[trigger] names(answer->Resolution_0, new)
                                        && old->0.secret_id@ == new.secret_id@
                            },
                            LlmSettingsStep::Opening(_) => !(flow.change is Llm)
                                && after.step->Validating_orphan is None,
                            _ => flow.change == SettingsChange::Llm(None),
                        }
                    },
                    Request::ReplaceSettings { expected_version, settings } => {
                        &&& expected_version == found.input.version
                        &&& is_made(flow.change, found.input, settings.input)
                        &&& answer == Answer::Valid(true)
                        &&& after.step == (LlmSettingsStep::Replacing {
                            orphan: flow.step->Validating_orphan,
                        })
                    },
                    Request::EnterApplication
                    | Request::LockConfiguration
                    | Request::ProbeWork
                    | Request::LoadSettings => flow.step is Opening,
                    _ => false,
                }
            },
            Step::Done(Ok(settings)) => match flow.step {
                LlmSettingsStep::Opening(_) => settings == found && tell_the_same(
                    flow.change.applied(found.input),
                    found.input,
                ),
                LlmSettingsStep::Replacing { orphan } => orphan is None && answer
                    == Answer::Settings(Ok(settings)),
                LlmSettingsStep::DeletingOrphan { stored } => settings == stored,
                _ => false,
            },
            Step::Done(Err(LlmConfigurationFailure::RecoveryRequired)) => {
                &&& flow.step is InspectingStore
                &&& answer == Answer::Material(Ok(SecretMaterialState::RecoveryRequired))
            },
            Step::Done(Err(LlmConfigurationFailure::NotConfigured)) => {
                flow.step is ResolvingNew && answer->Resolution_0 is NoConfiguration
            },
            Step::Done(Err(LlmConfigurationFailure::InvalidConfiguration(error))) => {
                &&& flow.step is ResolvingNew
                &&& answer->Resolution_0 == (LlmRouteResolution::Unavailable { route: None, error })
            },
            Step::Done(Err(LlmConfigurationFailure::InvalidSettings)) => {
                flow.step is Validating && answer == Answer::Valid(false)
            },
            Step::Done(Err(LlmConfigurationFailure::Refused(Refusal::Port(error)))) => {
                ||| answer == Answer::Settings(Err(error))
                ||| flow.step is InspectingStore && answer == Answer::Material(Err(error))
                ||| flow.step is Predeleting && answer == Answer::Acted(Err(error))
            },
            Step::Done(Err(LlmConfigurationFailure::Refused(_))) => flow.step is Opening,
            Step::Done(Err(_)) => false,
        },
{
    match flow.step {
        LlmSettingsStep::Opening(opening) => {
            a_write_opens_in_order(opening, answer);
        },
        LlmSettingsStep::ResolvingNew { .. } => {
            match answer->Resolution_0 {
                LlmRouteResolution::Ready(route) => {
                    assert(names(answer->Resolution_0, route));
                },
                LlmRouteResolution::MissingSecret(route) => {
                    assert(names(answer->Resolution_0, route));
                },
                LlmRouteResolution::Unavailable { route: Some(route), .. } => {
                    assert(names(answer->Resolution_0, route));
                },
                _ => {},
            }
        },
        _ => {},
    }
    a_change_changes_its_own_part_alone(flow.change, found.input);
}

/// A connection test asks the provider that was found ready, and once: a fixed text, no
/// selection and no session of the user's. It succeeds exactly where the provider answered
/// that very request with a text, or with one that was understood though not in the agreed
/// form; everything else is told for what it was.
pub proof fn a_connection_test_says_what_was_found(
    step: ConnectionTestStep,
    answer: Answer,
    next: ConnectionTestMove,
)
    requires
        connection_test_awaits(step, answer),
        connection_test_follows(step, answer, next),
    ensures
        match next {
            Step::Ask { flow: after, request } => match step {
                ConnectionTestStep::TakingTurn => request is LockConfiguration && after is Locking,
                ConnectionTestStep::Locking => request is ProbeWork && after is Probing,
                ConnectionTestStep::Probing => {
                    &&& answer == Answer::Work(Some(false))
                    &&& request is LoadSettings && after is Loading
                },
                ConnectionTestStep::Loading => {
                    &&& answer->Settings_0 is Ok
                    &&& request is ResolveRoute
                    &&& is_candidate_of(request->ResolveRoute_0, answer->Settings_0->Ok_0)
                    &&& after is Resolving
                },
                ConnectionTestStep::Resolving => match answer->Resolution_0 {
                    LlmRouteResolution::Ready(route) => {
                        &&& request is ReleaseConfiguration
                        &&& after == (ConnectionTestStep::Releasing { route })
                    },
                    LlmRouteResolution::Unavailable { route: Some(route), error } => {
                        &&& request == Request::InspectSecret(route.secret_id)
                        &&& after == (ConnectionTestStep::InspectingSecret { error })
                    },
                    _ => false,
                },
                ConnectionTestStep::Releasing { route } => {
                    &&& request is IssueProbeIds
                    &&& after == (ConnectionTestStep::Issuing { route })
                },
                ConnectionTestStep::Issuing { route } => {
                    &&& request is ProbeConnection
                    &&& request->ProbeConnection_route == route
                    &&& answer == (Answer::ProbeIds {
                        session_id: request->ProbeConnection_request.session_id,
                        request_id: request->ProbeConnection_request.request_id,
                    })
                    &&& request->ProbeConnection_request.processing_mode is Faithful
                    &&& request->ProbeConnection_request.raw_transcript@ == CONNECTION_TEST_TEXT@
                    &&& request->ProbeConnection_request.selected_text is None
                    &&& after == (ConnectionTestStep::Asking {
                        session_id: request->ProbeConnection_request.session_id,
                        request_id: request->ProbeConnection_request.request_id,
                    })
                },
                _ => false,
            },
            Step::Done(LlmConnectionTestOutcome::Succeeded) => match step {
                ConnectionTestStep::Asking { session_id, request_id } => match answer->Probe_0 {
                    Ok(result) => {
                        &&& result.session_id == session_id
                        &&& result.request_id == request_id
                        &&& !blank(result.final_text@)
                    },
                    Err(error) => error.error.code@ == "llm.invalid_canonical_response"@,
                },
                _ => false,
            },
            Step::Done(LlmConnectionTestOutcome::FailedWithUpstream { failure, upstream }) => {
                &&& step is Asking
                &&& answer->Probe_0 is Err
                &&& answer->Probe_0->Err_0.upstream == Some(upstream)
                &&& failure == connection_failure(answer->Probe_0->Err_0.error.code@)
            },
            Step::Done(LlmConnectionTestOutcome::Failed(failure)) => match step {
                ConnectionTestStep::Probing => match answer->Work_0 {
                    Some(true) => failure is Busy,
                    Some(false) => false,
                    None => failure is RuntimeUnavailable,
                },
                ConnectionTestStep::Loading => answer->Settings_0 is Err && failure
                    is SettingsUnavailable,
                ConnectionTestStep::Resolving => match answer->Resolution_0 {
                    LlmRouteResolution::NoConfiguration | LlmRouteResolution::MissingSecret(_) => {
                        failure is NotConfigured
                    },
                    LlmRouteResolution::Unavailable { route: None, error } => failure
                        == connection_failure(error.code@),
                    _ => false,
                },
                ConnectionTestStep::InspectingSecret { error } => match answer->Material_0 {
                    Ok(SecretMaterialState::RecoveryRequired) => failure is RecoveryRequired,
                    Ok(SecretMaterialState::NotConfigured) => failure is NotConfigured,
                    Ok(SecretMaterialState::Configured) => failure == connection_failure(
                        error.code@,
                    ),
                    Err(_) => failure is SecretUnavailable,
                },
                ConnectionTestStep::Asking { session_id, request_id } => match answer->Probe_0 {
                    Ok(result) => {
                        &&& failure is InvalidResponse
                        &&& result.session_id != session_id || result.request_id != request_id
                            || blank(result.final_text@)
                    },
                    Err(error) => {
                        &&& error.upstream is None
                        &&& failure == connection_failure(error.error.code@)
                    },
                },
                _ => false,
            },
        },
{
}

} // verus!
