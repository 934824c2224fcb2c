//! Whether a transcript goes through the language model.

use crate::domain::ProcessingMode;
use crate::ports::{LlmRouteResolution, ResolvedLlmRoute};
use vstd::prelude::*;

verus! {

#[derive(Clone, Copy, Debug, PartialEq, Eq, Structural)]
pub enum DirectDeliveryReason {
    RawMode,
    LlmNotConfigured,
    LlmUnavailable,
}

#[derive(PartialEq, Eq)]
pub enum TextProcessingRoute {
    DirectAsr(DirectDeliveryReason),
    Llm(ResolvedLlmRoute),
}

impl Clone for TextProcessingRoute {
    fn clone(&self) -> (r: TextProcessingRoute)
        ensures
            r == *self,
    {
        match self {
            TextProcessingRoute::DirectAsr(reason) => TextProcessingRoute::DirectAsr(*reason),
            TextProcessingRoute::Llm(route) => TextProcessingRoute::Llm(route.clone()),
        }
    }
}

/// Raw mode goes straight to delivery. The other modes use the language model
/// where its route is ready, and otherwise say why they do not.
pub open spec fn spec_text_route(
    processing_mode: ProcessingMode,
    llm_resolution: LlmRouteResolution,
) -> TextProcessingRoute {
    if processing_mode == ProcessingMode::Raw {
        TextProcessingRoute::DirectAsr(DirectDeliveryReason::RawMode)
    } else {
        match llm_resolution {
            LlmRouteResolution::Ready(route) => TextProcessingRoute::Llm(route),
            LlmRouteResolution::NoConfiguration | LlmRouteResolution::MissingSecret(_) => {
                TextProcessingRoute::DirectAsr(DirectDeliveryReason::LlmNotConfigured)
            },
            LlmRouteResolution::Unavailable { .. } => {
                TextProcessingRoute::DirectAsr(DirectDeliveryReason::LlmUnavailable)
            },
        }
    }
}

pub fn text_processing_route(
    processing_mode: ProcessingMode,
    llm_resolution: LlmRouteResolution,
) -> (r: TextProcessingRoute)
    ensures
        r == spec_text_route(processing_mode, llm_resolution),
{
    match processing_mode {
        ProcessingMode::Raw => TextProcessingRoute::DirectAsr(DirectDeliveryReason::RawMode),
        ProcessingMode::Faithful | ProcessingMode::Structured => match llm_resolution {
            LlmRouteResolution::Ready(route) => TextProcessingRoute::Llm(route),
            LlmRouteResolution::NoConfiguration | LlmRouteResolution::MissingSecret(_) => {
                TextProcessingRoute::DirectAsr(DirectDeliveryReason::LlmNotConfigured)
            },
            LlmRouteResolution::Unavailable { .. } => {
                TextProcessingRoute::DirectAsr(DirectDeliveryReason::LlmUnavailable)
            },
        },
    }
}

/// The language model is used only with a ready route and never in raw mode.
pub proof fn language_model_needs_a_ready_route(
    processing_mode: ProcessingMode,
    llm_resolution: LlmRouteResolution,
)
    ensures
        spec_text_route(processing_mode, llm_resolution) is Llm <==> (processing_mode
            != ProcessingMode::Raw && llm_resolution is Ready),
{
}

/// A transcript goes to the very language model that was found ready, and where it
/// goes to none the reason given is the one that held: raw mode before all else, no
/// configuration or no key, or a route that failed.
pub proof fn a_route_says_what_was_found(
    processing_mode: ProcessingMode,
    llm_resolution: LlmRouteResolution,
)
    ensures
        match spec_text_route(processing_mode, llm_resolution) {
            TextProcessingRoute::Llm(route) => llm_resolution == LlmRouteResolution::Ready(route),
            TextProcessingRoute::DirectAsr(DirectDeliveryReason::RawMode) => {
                processing_mode is Raw
            },
            TextProcessingRoute::DirectAsr(DirectDeliveryReason::LlmNotConfigured) => {
                !(processing_mode is Raw) && (llm_resolution is NoConfiguration
                    || llm_resolution is MissingSecret)
            },
            TextProcessingRoute::DirectAsr(DirectDeliveryReason::LlmUnavailable) => {
                !(processing_mode is Raw) && llm_resolution is Unavailable
            },
        },
{
}

} // verus!
