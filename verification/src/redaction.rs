//! How values that carry what a user said, wrote or keeps secret look in a log:
//! without any of it.

use crate::domain::{IntentDecision, ProcessingMode, RequestId, SessionId};
use crate::llm_contract::LlmPrompt;
use crate::ports::{
    LlmRouteCandidate, LlmUpstreamError, ResolvedLlmRoute, SecretValue, TextProcessingRequest,
    TextProcessingResult,
};
use crate::text::{decimal, number};
use vstd::prelude::*;

verus! {

pub open spec fn flag_text(flag: bool) -> Seq<char> {
    if flag {
        "true"@
    } else {
        "false"@
    }
}

fn flag_name(flag: bool) -> (r: &'static str)
    ensures
        r@ == flag_text(flag),
{
    if flag {
        "true"
    } else {
        "false"
    }
}

pub open spec fn mode_text(mode: ProcessingMode) -> Seq<char> {
    match mode {
        ProcessingMode::Raw => "Raw"@,
        ProcessingMode::Faithful => "Faithful"@,
        ProcessingMode::Structured => "Structured"@,
    }
}

fn mode_label(mode: ProcessingMode) -> (r: &'static str)
    ensures
        r@ == mode_text(mode),
{
    match mode {
        ProcessingMode::Raw => "Raw",
        ProcessingMode::Faithful => "Faithful",
        ProcessingMode::Structured => "Structured",
    }
}

pub open spec fn intent_text(intent: IntentDecision) -> Seq<char> {
    match intent {
        IntentDecision::Dictation => "Dictation"@,
        IntentDecision::TextCommand => "TextCommand"@,
    }
}

fn intent_label(intent: IntentDecision) -> (r: &'static str)
    ensures
        r@ == intent_text(intent),
{
    match intent {
        IntentDecision::Dictation => "Dictation",
        IntentDecision::TextCommand => "TextCommand",
    }
}

/// Who a request belongs to.
pub open spec fn identity_text(session_id: SessionId, request_id: RequestId) -> Seq<char> {
    "session_id: SessionId("@ + decimal(session_id.0 as nat) + "), request_id: RequestId("@
        + decimal(request_id.0 as nat) + ")"@
}

fn identity(session_id: SessionId, request_id: RequestId) -> (r: String)
    ensures
        r@ == identity_text(session_id, request_id),
{
    let mut text = "session_id: SessionId(".to_owned();
    text.append(number(session_id.as_uuid()).as_str());
    text.append("), request_id: RequestId(");
    text.append(number(request_id.as_uuid()).as_str());
    text.append(")");
    text
}

/// What a log shows of a request to process a text: who asked, how, and whether
/// there was a selection.
pub open spec fn request_text(
    session_id: SessionId,
    request_id: RequestId,
    mode: ProcessingMode,
    selected: bool,
) -> Seq<char> {
    "TextProcessingRequest { "@ + identity_text(session_id, request_id) + ", processing_mode: "@
        + mode_text(mode) + ", raw_transcript: \"[REDACTED]\", selected_text_present: "@
        + flag_text(selected) + " }"@
}

/// What a log shows of a processed text: who asked and what was understood.
pub open spec fn result_text(
    session_id: SessionId,
    request_id: RequestId,
    intent: IntentDecision,
) -> Seq<char> {
    "TextProcessingResult { "@ + identity_text(session_id, request_id) + ", intent: "@
        + intent_text(intent) + ", final_text: \"[REDACTED]\" }"@
}

/// What a log shows of an upstream response.
pub open spec fn upstream_text(http_status: u16, truncated: bool) -> Seq<char> {
    "LlmUpstreamError { http_status: "@ + decimal(http_status as nat)
        + ", response_body: \"[REDACTED]\", truncated: "@ + flag_text(truncated) + " }"@
}

/// What a log shows of a prompt: its versions.
pub open spec fn prompt_text(contract_version: u16, system_prompt_version: Seq<char>) -> Seq<char> {
    "LlmPrompt { contract_version: "@ + decimal(contract_version as nat)
        + ", system_prompt_version: \""@ + system_prompt_version
        + "\", system_message: \"[REDACTED]\", user_message: \"[REDACTED]\", output_schema_json: \"[REDACTED]\" }"@
}

impl SecretValue {
    /// What a log shows of a secret: that it is one.
    pub fn debug_text(&self) -> (r: String)
        ensures
            r@ == "SecretValue([REDACTED])"@,
    {
        "SecretValue([REDACTED])".to_owned()
    }
}

impl TextProcessingRequest {
    /// What a log shows of the request.
    pub fn debug_text(&self) -> (r: String)
        ensures
            r@ == request_text(
                self.session_id,
                self.request_id,
                self.processing_mode,
                self.selected_text is Some,
            ),
    {
        let mut text = "TextProcessingRequest { ".to_owned();
        text.append(identity(self.session_id, self.request_id).as_str());
        text.append(", processing_mode: ");
        text.append(mode_label(self.processing_mode));
        text.append(", raw_transcript: \"[REDACTED]\", selected_text_present: ");
        text.append(flag_name(self.selected_text.is_some()));
        text.append(" }");
        text
    }
}

impl TextProcessingResult {
    /// What a log shows of the result.
    pub fn debug_text(&self) -> (r: String)
        ensures
            r@ == result_text(self.session_id, self.request_id, self.intent),
    {
        let mut text = "TextProcessingResult { ".to_owned();
        text.append(identity(self.session_id, self.request_id).as_str());
        text.append(", intent: ");
        text.append(intent_label(self.intent));
        text.append(", final_text: \"[REDACTED]\" }");
        text
    }
}

impl LlmRouteCandidate {
    /// What a log shows of the candidate.
    pub fn debug_text(&self) -> (r: String)
        ensures
            r@
                == "LlmRouteCandidate { base_url: \"[REDACTED]\", model: \"[REDACTED]\" }"@,
    {
        "LlmRouteCandidate { base_url: \"[REDACTED]\", model: \"[REDACTED]\" }".to_owned()
    }
}

impl ResolvedLlmRoute {
    /// What a log shows of the route.
    pub fn debug_text(&self) -> (r: String)
        ensures
            r@
                == "ResolvedLlmRoute { provider_ref: \"[REDACTED]\", endpoint: \"[REDACTED]\", model: \"[REDACTED]\", secret_id: \"[REDACTED]\" }"@,
    {
        "ResolvedLlmRoute { provider_ref: \"[REDACTED]\", endpoint: \"[REDACTED]\", model: \"[REDACTED]\", secret_id: \"[REDACTED]\" }".to_owned()
    }
}

impl LlmUpstreamError {
    /// What a log shows of the response.
    pub fn debug_text(&self) -> (r: String)
        ensures
            r@ == upstream_text(self.http_status, self.truncated),
    {
        let mut text = "LlmUpstreamError { http_status: ".to_owned();
        text.append(number(self.http_status as u128).as_str());
        text.append(", response_body: \"[REDACTED]\", truncated: ");
        text.append(flag_name(self.truncated));
        text.append(" }");
        text
    }
}

impl LlmPrompt {
    /// What a log shows of the prompt.
    pub fn debug_text(&self) -> (r: String)
        ensures
            r@ == prompt_text(self.contract_version, self.system_prompt_version@),
    {
        let mut text = "LlmPrompt { contract_version: ".to_owned();
        text.append(number(self.contract_version as u128).as_str());
        text.append(", system_prompt_version: \"");
        text.append(self.system_prompt_version);
        text.append(
            "\", system_message: \"[REDACTED]\", user_message: \"[REDACTED]\", output_schema_json: \"[REDACTED]\" }",
        );
        text
    }
}

/// What a log shows names the mode and what was understood by their own names, and a flag by
/// its truth.
pub proof fn labels_say_what_they_stand_for()
    ensures
        mode_text(ProcessingMode::Raw) == "Raw"@,
        mode_text(ProcessingMode::Faithful) == "Faithful"@,
        mode_text(ProcessingMode::Structured) == "Structured"@,
        intent_text(IntentDecision::Dictation) == "Dictation"@,
        intent_text(IntentDecision::TextCommand) == "TextCommand"@,
        flag_text(true) == "true"@,
        flag_text(false) == "false"@,
{
}

} // verus!
