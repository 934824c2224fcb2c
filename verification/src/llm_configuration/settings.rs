//! Changes to the settings of the language model.
//!
//! A key belongs to an endpoint. An endpoint never becomes current while a key
//! from an earlier time is still stored for it, and a key is never handed on to
//! another endpoint.

use crate::configuration::{Answer, Request, Step};
use crate::domain::{LlmNonSecretSettings, ProcessingMode, SettingsSnapshot, SettingsSnapshotInput};
use crate::llm_configuration::{
    candidate_of, ensure_secret_store_mutable, invalid_configuration_error, route_candidate,
    store_refusal, validated, validated_route, LlmConfigurationController, LlmConfigurationError,
    LlmConfigurationFailure,
};
use crate::ports::{PortError, ResolvedLlmRoute, SecretMaterialState};
use crate::settings_change::SettingsChange;
use crate::settings_write::{
    begin_opening, continue_opening, opening_awaits, opening_begin, opening_step, Opened, Opening,
    Refusal, Terms,
};
use vstd::prelude::*;

verus! {

/// How far a change to these settings has come.
pub enum LlmSettingsStep {
    Opening(Opening),
    InspectingStore { current: SettingsSnapshot },
    /// The provider is asked about the endpoint that is current.
    ResolvingOld { current: SettingsSnapshot },
    /// The provider is asked about the endpoint that is wanted.
    ResolvingNew { current: SettingsSnapshot, old: Option<ResolvedLlmRoute> },
    /// A key from an earlier time is removed before its endpoint becomes current.
    Predeleting { current: SettingsSnapshot, orphan: Option<String> },
    Validating { version: u64, candidate: SettingsSnapshotInput, orphan: Option<String> },
    Replacing { orphan: Option<String> },
    /// The key of the endpoint that was current is removed.
    DeletingOrphan { stored: SettingsSnapshot },
}

/// A change to the settings of the language model under way.
pub struct LlmSettingsFlow {
    pub change: SettingsChange,
    pub step: LlmSettingsStep,
}

pub type LlmSettingsResult = Result<SettingsSnapshot, LlmConfigurationError>;

/// A step whose failure has not been put into words.
pub type LlmSettingsMove = Step<LlmSettingsFlow, Result<SettingsSnapshot, LlmConfigurationFailure>>;

/// Whether a step is the given one, its failure put into words.
pub open spec fn shows_llm_settings(
    step: Step<LlmSettingsFlow, LlmSettingsResult>,
    mv: LlmSettingsMove,
) -> bool {
    match mv {
        Step::Ask { flow, request } => step == (Step::<LlmSettingsFlow, LlmSettingsResult>::Ask {
            flow,
            request,
        }),
        Step::Done(Ok(settings)) => step == Step::<LlmSettingsFlow, LlmSettingsResult>::Done(
            Ok(settings),
        ),
        Step::Done(Err(failure)) => step is Done && step->Done_0 is Err
            && step->Done_0->Err_0.tells(failure),
    }
}

pub open spec fn llm_fails(failure: LlmConfigurationFailure) -> LlmSettingsMove {
    Step::Done(Err(failure))
}

pub open spec fn llm_asks(
    change: SettingsChange,
    step: LlmSettingsStep,
    request: Request,
) -> LlmSettingsMove {
    Step::Ask { flow: LlmSettingsFlow { change, step }, request }
}

/// Whether two routes keep their keys in different places.
pub open spec fn endpoint_changed(
    old: Option<ResolvedLlmRoute>,
    new: Option<ResolvedLlmRoute>,
) -> bool {
    match (old, new) {
        (Some(old), Some(new)) => old.secret_id@ != new.secret_id@,
        (None, None) => false,
        _ => true,
    }
}

/// The key that no endpoint will use any more.
pub open spec fn orphaned(
    old: Option<ResolvedLlmRoute>,
    new: Option<ResolvedLlmRoute>,
) -> Option<String> {
    if endpoint_changed(old, new) && old is Some {
        Some(old->0.secret_id)
    } else {
        None
    }
}

pub open spec fn llm_validates(
    change: SettingsChange,
    current: SettingsSnapshot,
    orphan: Option<String>,
) -> LlmSettingsMove {
    let candidate = change.applied(current.input);
    llm_asks(
        change,
        LlmSettingsStep::Validating { version: current.input.version, candidate, orphan },
        Request::ValidateSettings(candidate),
    )
}

/// What is done once both endpoints are known: where the key's place changes,
/// the new place is emptied first.
pub open spec fn llm_on_routes(
    change: SettingsChange,
    current: SettingsSnapshot,
    old: Option<ResolvedLlmRoute>,
    new: Option<ResolvedLlmRoute>,
) -> LlmSettingsMove {
    let orphan = orphaned(old, new);
    if endpoint_changed(old, new) && new is Some {
        llm_asks(
            change,
            LlmSettingsStep::Predeleting { current, orphan },
            Request::DeleteSecret(new->0.secret_id),
        )
    } else {
        llm_validates(change, current, orphan)
    }
}

/// What is done once the current endpoint is known.
pub open spec fn llm_on_old(
    change: SettingsChange,
    current: SettingsSnapshot,
    old: Option<ResolvedLlmRoute>,
) -> LlmSettingsMove {
    match change->Llm_0 {
        Some(_) => llm_asks(
            change,
            LlmSettingsStep::ResolvingNew { current, old },
            Request::ResolveRoute(candidate_of(change->Llm_0)),
        ),
        None => llm_on_routes(change, current, old, None),
    }
}

pub open spec fn llm_on_opened(change: SettingsChange, opened: Opened) -> LlmSettingsMove {
    match opened {
        Opened::Ask { opening, request } => llm_asks(
            change,
            LlmSettingsStep::Opening(opening),
            request,
        ),
        Opened::Refused(refusal) => llm_fails(LlmConfigurationFailure::Refused(refusal)),
        Opened::InForce { current, .. } => Step::Done(Ok(current)),
        Opened::Clear { current, .. } => if change is Llm {
            llm_asks(change, LlmSettingsStep::InspectingStore { current }, Request::InspectStore)
        } else {
            llm_validates(change, current, None)
        },
    }
}

pub open spec fn llm_on_inspected(
    change: SettingsChange,
    current: SettingsSnapshot,
    material: Result<SecretMaterialState, PortError>,
) -> LlmSettingsMove {
    match store_refusal(material) {
        Some(failure) => llm_fails(failure),
        None => match current.input.llm {
            Some(_) => llm_asks(
                change,
                LlmSettingsStep::ResolvingOld { current },
                Request::ResolveRoute(candidate_of(current.input.llm)),
            ),
            None => llm_on_old(change, current, None),
        },
    }
}

/// Whether an answer is what a change to these settings waits for.
pub open spec fn llm_settings_awaits(step: LlmSettingsStep, answer: Answer) -> bool {
    match step {
        LlmSettingsStep::Opening(opening) => opening_awaits(opening.step, answer),
        LlmSettingsStep::InspectingStore { .. } => answer is Material,
        LlmSettingsStep::ResolvingOld { .. } | LlmSettingsStep::ResolvingNew { .. } => {
            answer is Resolution
        },
        LlmSettingsStep::Predeleting { .. } | LlmSettingsStep::DeletingOrphan { .. } => {
            answer is Acted
        },
        LlmSettingsStep::Validating { .. } => answer is Valid,
        LlmSettingsStep::Replacing { .. } => answer is Settings,
    }
}

/// The whole change, one answer at a time. A current endpoint that cannot be
/// resolved counts as none.
pub open spec fn llm_settings_step(flow: LlmSettingsFlow, answer: Answer) -> LlmSettingsMove {
    let change = flow.change;
    match flow.step {
        LlmSettingsStep::Opening(opening) => llm_on_opened(change, opening_step(opening, answer)),
        LlmSettingsStep::InspectingStore { current } => llm_on_inspected(
            change,
            current,
            answer->Material_0,
        ),
        LlmSettingsStep::ResolvingOld { current } => llm_on_old(
            change,
            current,
            match validated(answer->Resolution_0) {
                Ok(route) => Some(route),
                Err(_) => None,
            },
        ),
        LlmSettingsStep::ResolvingNew { current, old } => match validated(answer->Resolution_0) {
            Ok(route) => llm_on_routes(change, current, old, Some(route)),
            Err(failure) => llm_fails(failure),
        },
        LlmSettingsStep::Predeleting { current, orphan } => match answer->Acted_0 {
            Ok(_) => llm_validates(change, current, orphan),
            Err(error) => llm_fails(LlmConfigurationFailure::Refused(Refusal::Port(error))),
        },
        LlmSettingsStep::Validating { version, candidate, orphan } => if answer->Valid_0 {
            llm_asks(
                change,
                LlmSettingsStep::Replacing { orphan },
                Request::ReplaceSettings {
                    expected_version: version,
                    settings: SettingsSnapshot { input: candidate },
                },
            )
        } else {
            llm_fails(LlmConfigurationFailure::InvalidSettings)
        },
        LlmSettingsStep::Replacing { orphan } => match answer->Settings_0 {
            Ok(stored) => match orphan {
                Some(secret_id) => llm_asks(
                    change,
                    LlmSettingsStep::DeletingOrphan { stored },
                    Request::DeleteSecret(secret_id),
                ),
                None => Step::Done(Ok(stored)),
            },
            Err(error) => llm_fails(LlmConfigurationFailure::Refused(Refusal::Port(error))),
        },
        LlmSettingsStep::DeletingOrphan { stored } => Step::Done(Ok(stored)),
    }
}

/// How a change to these settings begins.
pub open spec fn llm_settings_begin(change: SettingsChange, terms: Terms) -> LlmSettingsMove {
    llm_asks(
        change,
        LlmSettingsStep::Opening(opening_begin(change, terms)->opening),
        Request::TakeTurn,
    )
}

/// The terms of a change that its caller made on the settings it has seen.
pub open spec fn seen_terms(expected_version: u64) -> Terms {
    Terms { enters_application: false, needs_idle: true, expected_version: Some(expected_version) }
}

/// The terms of a change to what concerns delivery alone.
pub open spec fn delivery_terms() -> Terms {
    Terms { enters_application: false, needs_idle: false, expected_version: None }
}

/// Where the place of the key changes, the new place has been emptied before the
/// settings are touched, and where it stays the same no key is removed at all.
pub proof fn an_endpoint_becomes_current_only_without_an_old_key(
    change: SettingsChange,
    current: SettingsSnapshot,
    old: Option<ResolvedLlmRoute>,
    new: Option<ResolvedLlmRoute>,
)
    ensures
        endpoint_changed(old, new) && new is Some ==> llm_on_routes(change, current, old, new)
            == llm_asks(
            change,
            LlmSettingsStep::Predeleting { current, orphan: orphaned(old, new) },
            Request::DeleteSecret(new->0.secret_id),
        ),
        !endpoint_changed(old, new) ==> llm_on_routes(change, current, old, new) == llm_validates(
            change,
            current,
            None,
        ),
{
}

/// A change that could not empty the place of the new key changes neither the
/// settings nor any other key.
pub proof fn a_failed_predelete_changes_nothing(
    flow: LlmSettingsFlow,
    error: PortError,
)
    requires
        flow.step is Predeleting,
    ensures
        llm_settings_step(flow, Answer::Acted(Err(error))) == llm_fails(
            LlmConfigurationFailure::Refused(Refusal::Port(error)),
        ),
{
}

/// Once the settings are stored the change has succeeded, whatever becomes of
/// the key that is left over.
pub proof fn a_leftover_key_does_not_fail_the_change(
    change: SettingsChange,
    stored: SettingsSnapshot,
    answer: Answer,
)
    ensures
        llm_settings_step(
            LlmSettingsFlow { change, step: LlmSettingsStep::DeletingOrphan { stored } },
            answer,
        ) == Step::<LlmSettingsFlow, Result<SettingsSnapshot, LlmConfigurationFailure>>::Done(
            Ok(stored),
        ),
{
}

fn has_endpoint_changed(old: &Option<ResolvedLlmRoute>, new: &Option<ResolvedLlmRoute>) -> (r: bool)
    ensures
        r == endpoint_changed(*old, *new),
{
    match (old, new) {
        (Some(old), Some(new)) => old.secret_id != new.secret_id,
        (None, None) => false,
        _ => true,
    }
}

fn validate(change: SettingsChange, current: SettingsSnapshot, orphan: Option<String>) -> (r: Step<
    LlmSettingsFlow,
    LlmSettingsResult,
>)
    ensures
        shows_llm_settings(r, llm_validates(change, current, orphan)),
{
    let version: u64 = current.input.version;
    let candidate = change.apply_to(current.into_input());
    let request = Request::ValidateSettings(candidate.clone());
    Step::Ask {
        flow: LlmSettingsFlow {
            change,
            step: LlmSettingsStep::Validating { version, candidate, orphan },
        },
        request,
    }
}

fn on_routes(
    change: SettingsChange,
    current: SettingsSnapshot,
    old: Option<ResolvedLlmRoute>,
    new: Option<ResolvedLlmRoute>,
) -> (r: Step<LlmSettingsFlow, LlmSettingsResult>)
    ensures
        shows_llm_settings(r, llm_on_routes(change, current, old, new)),
{
    let changed = has_endpoint_changed(&old, &new);
    let orphan = match old {
        Some(old) => if changed {
            Some(old.secret_id)
        } else {
            None
        },
        None => None,
    };
    match new {
        Some(new) => if changed {
            Step::Ask {
                flow: LlmSettingsFlow {
                    change,
                    step: LlmSettingsStep::Predeleting { current, orphan },
                },
                request: Request::DeleteSecret(new.secret_id),
            }
        } else {
            validate(change, current, orphan)
        },
        None => validate(change, current, orphan),
    }
}

fn on_old(change: SettingsChange, current: SettingsSnapshot, old: Option<ResolvedLlmRoute>) -> (r:
    Step<LlmSettingsFlow, LlmSettingsResult>)
    requires
        change is Llm,
    ensures
        shows_llm_settings(r, llm_on_old(change, current, old)),
{
    let candidate = match &change {
        SettingsChange::Llm(llm) => route_candidate(llm),
        _ => vstd::pervasive::unreached(),
    };
    match candidate {
        Some(candidate) => Step::Ask {
            flow: LlmSettingsFlow {
                change,
                step: LlmSettingsStep::ResolvingNew { current, old },
            },
            request: Request::ResolveRoute(Some(candidate)),
        },
        None => on_routes(change, current, old, None),
    }
}

/// Whether the step belongs to the change: only a change of the endpoint looks
/// at keys.
pub open spec fn llm_settings_fits(flow: LlmSettingsFlow) -> bool {
    match flow.step {
        LlmSettingsStep::InspectingStore { .. }
        | LlmSettingsStep::ResolvingOld { .. }
        | LlmSettingsStep::ResolvingNew { .. } => flow.change is Llm,
        _ => true,
    }
}

impl LlmConfigurationController {
    fn begin_settings(&self, change: SettingsChange, terms: Terms) -> (r: Step<
        LlmSettingsFlow,
        LlmSettingsResult,
    >)
        ensures
            shows_llm_settings(r, llm_settings_begin(change, terms)),
            r is Ask,
            llm_settings_fits(r->flow),
    {
        match begin_opening(change.clone(), terms) {
            Opened::Ask { opening, request } => Step::Ask {
                flow: LlmSettingsFlow { change, step: LlmSettingsStep::Opening(opening) },
                request,
            },
            _ => vstd::pervasive::unreached(),
        }
    }

    /// Sets whether the clipboard may be used to read a selection and to
    /// deliver. A running session keeps what it has frozen.
    pub fn set_clipboard_bridge_allowed(&self, allowed: bool) -> (r: Step<
        LlmSettingsFlow,
        LlmSettingsResult,
    >)
        ensures
            shows_llm_settings(
                r,
                llm_settings_begin(SettingsChange::ClipboardBridge(allowed), delivery_terms()),
            ),
            r is Ask,
            llm_settings_fits(r->flow),
    {
        let terms = Terms { enters_application: false, needs_idle: false, expected_version: None };
        self.begin_settings(SettingsChange::ClipboardBridge(allowed), terms)
    }

    /// Sets how texts are processed and whether selected text is read, both at
    /// once.
    pub fn set_text_processing_settings(
        &self,
        expected_version: u64,
        processing_mode: ProcessingMode,
        read_selected_text: bool,
    ) -> (r: Step<LlmSettingsFlow, LlmSettingsResult>)
        ensures
            shows_llm_settings(
                r,
                llm_settings_begin(
                    SettingsChange::TextProcessing { processing_mode, read_selected_text },
                    seen_terms(expected_version),
                ),
            ),
            r is Ask,
            llm_settings_fits(r->flow),
    {
        let terms = Terms {
            enters_application: false,
            needs_idle: true,
            expected_version: Some(expected_version),
        };
        self.begin_settings(
            SettingsChange::TextProcessing { processing_mode, read_selected_text },
            terms,
        )
    }

    /// Sets endpoint and model, or takes them away.
    pub fn set_llm_settings(
        &self,
        expected_version: u64,
        llm_settings: Option<LlmNonSecretSettings>,
    ) -> (r: Step<LlmSettingsFlow, LlmSettingsResult>)
        ensures
            shows_llm_settings(
                r,
                llm_settings_begin(
                    SettingsChange::Llm(llm_settings),
                    seen_terms(expected_version),
                ),
            ),
            r is Ask,
            llm_settings_fits(r->flow),
    {
        let terms = Terms {
            enters_application: false,
            needs_idle: true,
            expected_version: Some(expected_version),
        };
        self.begin_settings(SettingsChange::Llm(llm_settings), terms)
    }

    /// Goes on with a change to these settings.
    pub fn resume_settings(&self, flow: LlmSettingsFlow, answer: Answer) -> (r: Step<
        LlmSettingsFlow,
        LlmSettingsResult,
    >)
        requires
            llm_settings_awaits(flow.step, answer),
            llm_settings_fits(flow),
        ensures
            shows_llm_settings(r, llm_settings_step(flow, answer)),
            r is Ask ==> llm_settings_fits(r->flow),
    {
        let LlmSettingsFlow { change, step } = flow;
        match (step, answer) {
            (LlmSettingsStep::Opening(opening), answer) => {
                match continue_opening(opening, answer) {
                    Opened::Ask { opening, request } => Step::Ask {
                        flow: LlmSettingsFlow { change, step: LlmSettingsStep::Opening(opening) },
                        request,
                    },
                    Opened::Refused(refusal) => Step::Done(
                        Err(LlmConfigurationError::of_refusal(refusal)),
                    ),
                    Opened::InForce { current, .. } => Step::Done(Ok(current)),
                    Opened::Clear { current, .. } => {
                        if matches!(change, SettingsChange::Llm(_)) {
                            Step::Ask {
                                flow: LlmSettingsFlow {
                                    change,
                                    step: LlmSettingsStep::InspectingStore { current },
                                },
                                request: Request::InspectStore,
                            }
                        } else {
                            validate(change, current, None)
                        }
                    },
                }
            },
            (LlmSettingsStep::InspectingStore { current }, Answer::Material(material)) => {
                if let Err(error) = ensure_secret_store_mutable(material) {
                    return Step::Done(Err(error));
                }
                match route_candidate(&current.input.llm) {
                    Some(candidate) => Step::Ask {
                        flow: LlmSettingsFlow {
                            change,
                            step: LlmSettingsStep::ResolvingOld { current },
                        },
                        request: Request::ResolveRoute(Some(candidate)),
                    },
                    None => on_old(change, current, None),
                }
            },
            (LlmSettingsStep::ResolvingOld { current }, Answer::Resolution(resolution)) => {
                let old = match validated_route(resolution) {
                    Ok(route) => Some(route),
                    Err(_) => None,
                };
                on_old(change, current, old)
            },
            (LlmSettingsStep::ResolvingNew { current, old }, Answer::Resolution(resolution)) => {
                match validated_route(resolution) {
                    Ok(route) => on_routes(change, current, old, Some(route)),
                    Err(error) => Step::Done(Err(error)),
                }
            },
            (LlmSettingsStep::Predeleting { current, orphan }, Answer::Acted(deleted)) => {
                match deleted {
                    Ok(_) => validate(change, current, orphan),
                    Err(error) => Step::Done(Err(LlmConfigurationError::Port(error))),
                }
            },
            (
                LlmSettingsStep::Validating { version, candidate, orphan },
                Answer::Valid(valid),
            ) => {
                if !valid {
                    return Step::Done(Err(invalid_configuration_error()));
                }
                Step::Ask {
                    flow: LlmSettingsFlow { change, step: LlmSettingsStep::Replacing { orphan } },
                    request: Request::ReplaceSettings {
                        expected_version: version,
                        settings: SettingsSnapshot::new(candidate),
                    },
                }
            },
            (LlmSettingsStep::Replacing { orphan }, Answer::Settings(stored)) => match stored {
                Ok(stored) => match orphan {
                    Some(secret_id) => Step::Ask {
                        flow: LlmSettingsFlow {
                            change,
                            step: LlmSettingsStep::DeletingOrphan { stored },
                        },
                        request: Request::DeleteSecret(secret_id),
                    },
                    None => Step::Done(Ok(stored)),
                },
                Err(error) => Step::Done(Err(LlmConfigurationError::Port(error))),
            },
            (LlmSettingsStep::DeletingOrphan { stored }, _) => Step::Done(Ok(stored)),
            _ => vstd::pervasive::unreached(),
        }
    }
}

} // verus!
