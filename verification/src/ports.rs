//! Values that cross the boundary between the workflows and the capabilities
//! around them: devices, windows, stores, recognisers and providers.

use crate::domain::{
    AsrEngine, DeliveryId, IntentDecision, ProcessingMode, RequestId, SessionId, TimestampMs,
};
use crate::text::joined;
use vstd::prelude::*;

pub use crate::lifecycle::{CommitGuard, LifecycleFence, LifecycleQuiescence};

verus! {

/// Failure of a capability: a stable code, the key of a message that is safe to
/// show, and whether trying again may help.
#[derive(Debug, PartialEq, Eq)]
pub struct PortError {
    pub code: String,
    pub safe_message_key: String,
    pub retryable: bool,
}

impl Clone for PortError {
    fn clone(&self) -> (r: PortError)
        ensures
            r == *self,
    {
        PortError {
            code: self.code.clone(),
            safe_message_key: self.safe_message_key.clone(),
            retryable: self.retryable,
        }
    }
}

impl PortError {
    /// Whether this is the failure with the given code, told under its own
    /// message key.
    pub open spec fn is_coded(self, code: Seq<char>, retryable: bool) -> bool {
        &&& self.code@ == code
        &&& self.safe_message_key@ == "errors."@ + code
        &&& self.retryable == retryable
    }

    /// Whether this is a failure with the given code.
    pub fn has_code(&self, code: &str) -> (r: bool)
        ensures
            r == (self.code@ == code@),
    {
        let code = code.to_owned();
        self.code == code
    }
}

/// The failure with the given code. Its message key is the code under `errors.`.
pub fn port_error(code: &str, retryable: bool) -> (r: PortError)
    ensures
        r.is_coded(code@, retryable),
{
    PortError { code: code.to_owned(), safe_message_key: joined("errors.", code), retryable }
}

/// Stable code for a capture that finalized without any audio frames.
pub const AUDIO_EMPTY_CAPTURE_CODE: &'static str = "audio.empty_capture";

/// Stable code for audio that contains no recognizable speech.
pub const ASR_NO_SPEECH_CODE: &'static str = "asr.no_speech";

/// A microphone capture that an audio adapter owns.
#[derive(Debug, PartialEq, Eq, Hash)]
pub struct AudioCaptureRef(String);

/// Finalized audio that an audio adapter owns.
#[derive(Debug, PartialEq, Eq, Hash)]
pub struct AudioRef(String);

/// The input position that was focused when a session started.
#[derive(Debug, PartialEq, Eq, Hash)]
pub struct TargetSnapshotRef(String);

/// An input position that was found unchanged.
#[derive(Debug, PartialEq, Eq, Hash)]
pub struct ValidatedTargetRef(String);

/// A managed model update.
#[derive(Debug, PartialEq, Eq, Hash)]
pub struct ModelOperationId(String);

impl View for AudioCaptureRef {
    type V = Seq<char>;

    closed spec fn view(&self) -> Seq<char> {
        self.0@
    }
}

impl View for AudioRef {
    type V = Seq<char>;

    closed spec fn view(&self) -> Seq<char> {
        self.0@
    }
}

impl View for TargetSnapshotRef {
    type V = Seq<char>;

    closed spec fn view(&self) -> Seq<char> {
        self.0@
    }
}

impl View for ValidatedTargetRef {
    type V = Seq<char>;

    closed spec fn view(&self) -> Seq<char> {
        self.0@
    }
}

impl View for ModelOperationId {
    type V = Seq<char>;

    closed spec fn view(&self) -> Seq<char> {
        self.0@
    }
}

impl Clone for AudioCaptureRef {
    fn clone(&self) -> (r: AudioCaptureRef)
        ensures
            r == *self,
    {
        AudioCaptureRef(self.0.clone())
    }
}

impl Clone for AudioRef {
    fn clone(&self) -> (r: AudioRef)
        ensures
            r == *self,
    {
        AudioRef(self.0.clone())
    }
}

impl Clone for TargetSnapshotRef {
    fn clone(&self) -> (r: TargetSnapshotRef)
        ensures
            r == *self,
    {
        TargetSnapshotRef(self.0.clone())
    }
}

impl Clone for ValidatedTargetRef {
    fn clone(&self) -> (r: ValidatedTargetRef)
        ensures
            r == *self,
    {
        ValidatedTargetRef(self.0.clone())
    }
}

impl Clone for ModelOperationId {
    fn clone(&self) -> (r: ModelOperationId)
        ensures
            r == *self,
    {
        ModelOperationId(self.0.clone())
    }
}

impl AudioCaptureRef {
    pub fn new(value: String) -> (r: AudioCaptureRef)
        ensures
            r@ == value@,
    {
        AudioCaptureRef(value)
    }

    pub fn as_str(&self) -> (r: &str)
        ensures
            r@ == self@,
    {
        self.0.as_str()
    }

    /// Whether both stand for the same capture.
    pub fn same(&self, other: &AudioCaptureRef) -> (r: bool)
        ensures
            r == (self@ == other@),
    {
        self.0 == other.0
    }
}

impl AudioRef {
    pub fn new(value: String) -> (r: AudioRef)
        ensures
            r@ == value@,
    {
        AudioRef(value)
    }

    pub fn as_str(&self) -> (r: &str)
        ensures
            r@ == self@,
    {
        self.0.as_str()
    }

    /// Whether both stand for the same audio.
    pub fn same(&self, other: &AudioRef) -> (r: bool)
        ensures
            r == (self@ == other@),
    {
        self.0 == other.0
    }
}

impl TargetSnapshotRef {
    pub fn new(value: String) -> (r: TargetSnapshotRef)
        ensures
            r@ == value@,
    {
        TargetSnapshotRef(value)
    }

    pub fn as_str(&self) -> (r: &str)
        ensures
            r@ == self@,
    {
        self.0.as_str()
    }
}

impl ValidatedTargetRef {
    pub fn new(value: String) -> (r: ValidatedTargetRef)
        ensures
            r@ == value@,
    {
        ValidatedTargetRef(value)
    }

    pub fn as_str(&self) -> (r: &str)
        ensures
            r@ == self@,
    {
        self.0.as_str()
    }
}

impl ModelOperationId {
    pub fn new(value: String) -> (r: ModelOperationId)
        ensures
            r@ == value@,
    {
        ModelOperationId(value)
    }

    pub fn as_str(&self) -> (r: &str)
        ensures
            r@ == self@,
    {
        self.0.as_str()
    }
}

/// Ownership of one scheduled recording deadline. Whoever is handed the guard
/// back stops the deadline that it stands for.
#[derive(Debug, PartialEq, Eq)]
pub struct RecordingDeadlineGuard {
    pub deadline: u64,
}

impl RecordingDeadlineGuard {
    pub fn new(deadline: u64) -> (r: RecordingDeadlineGuard)
        ensures
            r.deadline == deadline,
    {
        RecordingDeadlineGuard { deadline }
    }
}

#[derive(Clone, Copy, Debug, PartialEq, Eq, Structural)]
pub enum TargetSecurity {
    Safe,
    SecureInput,
    Unknown,
}

/// Content-free global logical point used only to place transient system UI on
/// the display containing the captured target window.
#[derive(Clone, Copy, Debug, PartialEq, Eq, Structural)]
pub struct TargetDisplayHint {
    pub x: i32,
    pub y: i32,
}

#[derive(Clone, Debug, PartialEq, Eq)]
pub struct CapturedTarget {
    pub target_ref: TargetSnapshotRef,
    pub security: TargetSecurity,
    pub has_selection: bool,
    pub display_hint: Option<TargetDisplayHint>,
}

#[derive(Clone, Debug, PartialEq, Eq)]
pub struct SelectionSnapshot {
    pub text: Option<String>,
    pub anchor_normalized_to_end: bool,
    pub exceeded_limit: bool,
}

#[derive(Clone, Debug, PartialEq, Eq)]
pub enum TargetRevalidation {
    Valid(ValidatedTargetRef),
    Invalid,
    Indeterminate,
}

#[derive(Clone, Copy, Debug, PartialEq, Eq, Structural)]
pub struct AudioFormat {
    pub sample_rate_hz: u32,
    pub channels: u8,
    pub bits_per_sample: u8,
}

#[derive(Clone, Debug, PartialEq, Eq)]
pub struct FinalizedAudio {
    pub audio_ref: AudioRef,
    pub format: AudioFormat,
    pub duration_ms: u64,
}

/// The result of an explicit, user-triggered microphone authorization check.
#[derive(Clone, Copy, Debug, PartialEq, Eq, Structural)]
pub enum MicrophoneAccess {
    Granted,
    Denied,
    Restricted,
    Unavailable,
}

/// Short, content-free audible feedback for the microphone lifecycle.
#[derive(Clone, Copy, Debug, PartialEq, Eq, Structural)]
pub enum RecordingCue {
    Start,
    Finish,
    Cancel,
}

/// Content-free projection of the active session for the recording HUD.
#[derive(Clone, Copy, Debug, PartialEq, Eq, Structural)]
pub enum RecordingHudState {
    Preparing,
    Recording,
    Recognizing,
    Processing,
    Delivering,
    Finalizing,
    Completed,
}

impl RecordingHudState {
    /// Whether the HUD offers to finish: only while recording.
    pub fn can_finish(self) -> (r: bool)
        ensures
            r <==> self == RecordingHudState::Recording,
    {
        matches!(self, RecordingHudState::Recording)
    }

    /// Whether the HUD offers to cancel: until the recording has been finished.
    pub fn can_cancel(self) -> (r: bool)
        ensures
            r <==> self == RecordingHudState::Preparing || self == RecordingHudState::Recording,
    {
        matches!(self, RecordingHudState::Preparing | RecordingHudState::Recording)
    }
}

/// Content-free user feedback that is rendered outside the recording HUD.
#[derive(Clone, Copy, Debug, PartialEq, Eq, Structural)]
pub enum UserNotificationKind {
    MicrophonePermission,
    Asr,
    Llm,
    Delivery,
}

#[derive(Clone, Copy, Debug, PartialEq, Eq, Structural)]
pub enum EngineHealth {
    Healthy,
    Unhealthy,
    Missing,
    Incompatible,
}

#[derive(Clone, Debug, PartialEq, Eq)]
pub struct AsrRequest {
    pub session_id: SessionId,
    pub request_id: RequestId,
    pub engine: AsrEngine,
    pub audio: FinalizedAudio,
    pub language_hint: Option<String>,
    pub deadline_ms: u64,
}

#[derive(Clone, Debug, PartialEq, Eq)]
pub struct AsrResult {
    pub session_id: SessionId,
    pub request_id: RequestId,
    pub engine: AsrEngine,
    pub final_text: String,
    pub detected_language: Option<String>,
    pub inference_duration_ms: u64,
}

/// What preparing an explicitly chosen local model can fail with.
#[derive(Clone, Debug, PartialEq, Eq)]
pub enum AsrModelPreparationError {
    Missing,
    HashMismatch,
    Runtime(PortError),
}

#[derive(Clone, PartialEq, Eq)]
pub struct TextProcessingRequest {
    pub session_id: SessionId,
    pub request_id: RequestId,
    pub processing_mode: ProcessingMode,
    pub raw_transcript: String,
    pub selected_text: Option<String>,
}

#[derive(Clone, PartialEq, Eq)]
pub struct TextProcessingResult {
    pub session_id: SessionId,
    pub request_id: RequestId,
    pub intent: IntentDecision,
    pub final_text: String,
}

/// Non-secret language-model settings proposed for a future session.
#[derive(Clone, PartialEq, Eq)]
pub struct LlmRouteCandidate {
    pub base_url: String,
    pub model: String,
}

impl LlmRouteCandidate {
    pub fn new(base_url: String, model: String) -> (r: LlmRouteCandidate)
        ensures
            r.base_url == base_url,
            r.model == model,
    {
        LlmRouteCandidate { base_url, model }
    }

    pub fn base_url(&self) -> (r: &str)
        ensures
            r@ == self.base_url@,
    {
        self.base_url.as_str()
    }

    pub fn model(&self) -> (r: &str)
        ensures
            r@ == self.model@,
    {
        self.model.as_str()
    }
}

/// Immutable, non-secret provider route frozen for one session.
///
/// The logical secret identity binds the key to the normalized endpoint but
/// never contains the key itself.
#[derive(PartialEq, Eq)]
pub struct ResolvedLlmRoute {
    pub provider_ref: String,
    pub endpoint: String,
    pub model: String,
    pub secret_id: String,
}

impl Clone for ResolvedLlmRoute {
    fn clone(&self) -> (r: ResolvedLlmRoute)
        ensures
            r == *self,
    {
        ResolvedLlmRoute {
            provider_ref: self.provider_ref.clone(),
            endpoint: self.endpoint.clone(),
            model: self.model.clone(),
            secret_id: self.secret_id.clone(),
        }
    }
}

impl ResolvedLlmRoute {
    pub fn new(provider_ref: String, endpoint: String, model: String, secret_id: String) -> (r:
        ResolvedLlmRoute)
        ensures
            r == (ResolvedLlmRoute { provider_ref, endpoint, model, secret_id }),
    {
        ResolvedLlmRoute { provider_ref, endpoint, model, secret_id }
    }

    pub fn provider_ref(&self) -> (r: &str)
        ensures
            r@ == self.provider_ref@,
    {
        self.provider_ref.as_str()
    }

    pub fn endpoint(&self) -> (r: &str)
        ensures
            r@ == self.endpoint@,
    {
        self.endpoint.as_str()
    }

    pub fn model(&self) -> (r: &str)
        ensures
            r@ == self.model@,
    {
        self.model.as_str()
    }

    pub fn secret_id(&self) -> (r: &str)
        ensures
            r@ == self.secret_id@,
    {
        self.secret_id.as_str()
    }
}

/// What came of resolving a candidate.
#[derive(Clone, PartialEq, Eq)]
pub enum LlmRouteResolution {
    NoConfiguration,
    MissingSecret(ResolvedLlmRoute),
    Ready(ResolvedLlmRoute),
    /// The candidate could not become ready. `route` is kept only where endpoint
    /// and model were found valid before the secret store failed.
    Unavailable { route: Option<ResolvedLlmRoute>, error: PortError },
}

/// Bounded upstream response returned only by an explicit connection probe.
#[derive(PartialEq, Eq)]
pub struct LlmUpstreamError {
    pub http_status: u16,
    pub response_body: String,
    pub truncated: bool,
}

impl Clone for LlmUpstreamError {
    fn clone(&self) -> (r: LlmUpstreamError)
        ensures
            r == *self,
    {
        LlmUpstreamError {
            http_status: self.http_status,
            response_body: self.response_body.clone(),
            truncated: self.truncated,
        }
    }
}

impl LlmUpstreamError {
    pub fn new(http_status: u16, response_body: String, truncated: bool) -> (r: LlmUpstreamError)
        ensures
            r == (LlmUpstreamError { http_status, response_body, truncated }),
    {
        LlmUpstreamError { http_status, response_body, truncated }
    }

    pub fn http_status(&self) -> (r: u16)
        ensures
            r == self.http_status,
    {
        self.http_status
    }

    pub fn response_body(&self) -> (r: &str)
        ensures
            r@ == self.response_body@,
    {
        self.response_body.as_str()
    }

    pub fn truncated(&self) -> (r: bool)
        ensures
            r == self.truncated,
    {
        self.truncated
    }
}

/// Failure envelope for the explicit connection probe.
#[derive(Clone, PartialEq, Eq)]
pub struct LlmConnectionProbeError {
    pub error: PortError,
    pub upstream: Option<LlmUpstreamError>,
}

impl LlmConnectionProbeError {
    pub fn from_port(error: PortError) -> (r: LlmConnectionProbeError)
        ensures
            r == (LlmConnectionProbeError { error, upstream: None }),
    {
        LlmConnectionProbeError { error, upstream: None }
    }

    pub fn with_upstream(error: PortError, upstream: LlmUpstreamError) -> (r:
        LlmConnectionProbeError)
        ensures
            r == (LlmConnectionProbeError { error, upstream: Some(upstream) }),
    {
        LlmConnectionProbeError { error, upstream: Some(upstream) }
    }

    pub fn into_port_error(self) -> (r: PortError)
        ensures
            r == self.error,
    {
        self.error
    }
}

#[derive(Clone, Copy, Debug, PartialEq, Eq, Structural)]
pub enum InsertOutcome {
    Inserted,
    NotInserted,
    Indeterminate,
}

/// Result of a user-directed compatibility paste. `Dispatched` proves only that
/// the paste shortcut was posted to the focus that the user selected.
#[derive(Clone, Copy, Debug, PartialEq, Eq, Structural)]
pub enum UserDirectedPasteOutcome {
    Dispatched,
    NotDispatched,
    Indeterminate,
}

#[derive(Clone, Copy, Debug, PartialEq, Eq, Structural)]
pub enum TemporaryTextStatus {
    NotInserted,
    Indeterminate,
    LlmFallback,
}

#[derive(Debug, PartialEq, Eq)]
pub struct HistoryRecord {
    pub delivery_id: DeliveryId,
    pub final_text: String,
    pub created_at: TimestampMs,
}

impl Clone for HistoryRecord {
    fn clone(&self) -> (r: HistoryRecord)
        ensures
            r == *self,
    {
        HistoryRecord {
            delivery_id: self.delivery_id,
            final_text: self.final_text.clone(),
            created_at: self.created_at,
        }
    }
}

/// Authenticated state of one logical secret.
///
/// `RecoveryRequired` is reserved for persisted material that is
/// deterministically unreadable. Ordinary failures of the store remain errors.
#[derive(Clone, Copy, Debug, PartialEq, Eq, Structural)]
pub enum SecretMaterialState {
    NotConfigured,
    Configured,
    RecoveryRequired,
}

impl SecretMaterialState {
    /// What a store without destructive recovery knows of a secret once it has
    /// read it: a value that can be read is configured.
    pub fn of_read(present: bool) -> (r: SecretMaterialState)
        ensures
            r == (if present {
                SecretMaterialState::Configured
            } else {
                SecretMaterialState::NotConfigured
            }),
    {
        if present {
            SecretMaterialState::Configured
        } else {
            SecretMaterialState::NotConfigured
        }
    }
}

/// What a secret store need not be able to do.
#[derive(Clone, Copy, Debug, PartialEq, Eq, Structural)]
pub enum SecretStoreCapability {
    Inspection,
    NamespaceReplace,
    NamespaceDelete,
    Reset,
}

impl SecretStoreCapability {
    /// The code of the failure where a store cannot do it.
    pub open spec fn missing_code(self) -> Seq<char> {
        match self {
            SecretStoreCapability::Inspection => "secret.store_inspection_unsupported"@,
            SecretStoreCapability::NamespaceReplace => "secret.namespace_replace_unsupported"@,
            SecretStoreCapability::NamespaceDelete => "secret.namespace_delete_unsupported"@,
            SecretStoreCapability::Reset => "secret.reset_unsupported"@,
        }
    }

    /// The failure where a store cannot do it.
    pub fn unsupported(self) -> (r: PortError)
        ensures
            r.is_coded(self.missing_code(), false),
    {
        match self {
            SecretStoreCapability::Inspection => port_error(
                "secret.store_inspection_unsupported",
                false,
            ),
            SecretStoreCapability::NamespaceReplace => port_error(
                "secret.namespace_replace_unsupported",
                false,
            ),
            SecretStoreCapability::NamespaceDelete => port_error(
                "secret.namespace_delete_unsupported",
                false,
            ),
            SecretStoreCapability::Reset => port_error("secret.reset_unsupported", false),
        }
    }
}

#[derive(Clone, Copy, Debug, PartialEq, Eq, Structural)]
pub enum ModelHealth {
    Unknown,
    Healthy,
    Unhealthy,
}

#[derive(Clone, Debug, PartialEq, Eq)]
pub struct ModelReadiness {
    pub engine: AsrEngine,
    pub logical_model_id: String,
    pub version: String,
    pub health: ModelHealth,
}

/// One content-free diagnostic record.
#[derive(Clone, Debug, PartialEq, Eq)]
pub struct DiagnosticEvent {
    pub session_id: Option<SessionId>,
    pub phase: Option<String>,
    pub state: Option<String>,
    pub duration_ms: Option<u64>,
    pub error_code: Option<String>,
    pub detail: Option<String>,
}

/// A secret that is wiped from memory when it is dropped.
#[verifier::external_body]
pub struct SecretValue(zeroize::Zeroizing<String>);

/// The text that a secret holds.
pub uninterp spec fn secret_text(secret: SecretValue) -> Seq<char>;

impl SecretValue {
    /// `zeroize::Zeroizing::new` moves a text into a container that wipes it on
    /// drop: the secret holds that text.
    #[verifier::external_body]
    pub fn new(value: String) -> (r: SecretValue)
        ensures
            secret_text(r) == value@,
    {
        SecretValue(zeroize::Zeroizing::new(value))
    }

    /// `Deref` of `zeroize::Zeroizing` lends out what the container holds: the
    /// text of the secret, unchanged.
    #[verifier::external_body]
    pub fn expose(&self) -> (r: &str)
        ensures
            r@ == secret_text(*self),
    {
        self.0.as_str()
    }
}

} // verus!
