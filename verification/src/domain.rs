//! Plain values that the application workflows reason about: identities,
//! frozen settings and the lifecycle of one dictation session.

use vstd::prelude::*;

verus! {

/// Identity of one dictation session.
#[derive(Clone, Copy, Debug, PartialEq, Eq, Structural, Hash)]
pub struct SessionId(pub u128);

/// Identity of one request to the recogniser or to the language model.
#[derive(Clone, Copy, Debug, PartialEq, Eq, Structural, Hash)]
pub struct RequestId(pub u128);

/// Identity of one delivered text, and of the history record made of it.
#[derive(Clone, Copy, Debug, PartialEq, Eq, Structural, Hash)]
pub struct DeliveryId(pub u128);

impl SessionId {
    /// The session with the given 128-bit identity.
    pub fn from_uuid(value: u128) -> (r: SessionId)
        ensures
            r.0 == value,
    {
        SessionId(value)
    }

    /// The 128-bit identity.
    pub fn as_uuid(&self) -> (r: u128)
        ensures
            r == self.0,
    {
        self.0
    }
}

impl RequestId {
    /// The request with the given 128-bit identity.
    pub fn from_uuid(value: u128) -> (r: RequestId)
        ensures
            r.0 == value,
    {
        RequestId(value)
    }

    /// The 128-bit identity.
    pub fn as_uuid(&self) -> (r: u128)
        ensures
            r == self.0,
    {
        self.0
    }
}

impl DeliveryId {
    /// The delivery with the given 128-bit identity.
    pub fn from_uuid(value: u128) -> (r: DeliveryId)
        ensures
            r.0 == value,
    {
        DeliveryId(value)
    }

    /// The 128-bit identity.
    pub fn as_uuid(&self) -> (r: u128)
        ensures
            r == self.0,
    {
        self.0
    }
}

/// Milliseconds since the epoch.
#[derive(Clone, Copy, Debug, PartialEq, Eq, Structural, Hash)]
pub struct TimestampMs(pub u64);

impl TimestampMs {
    /// The instant that lies `value` milliseconds after the epoch.
    pub fn new(value: u64) -> (r: TimestampMs)
        ensures
            r.0 == value,
    {
        TimestampMs(value)
    }

    /// Milliseconds since the epoch.
    pub fn get(&self) -> (r: u64)
        ensures
            r == self.0,
    {
        self.0
    }
}

/// A whole number of seconds.
#[derive(Clone, Copy, Debug, PartialEq, Eq, Structural, Hash)]
pub struct Seconds(pub u64);

#[derive(Clone, Copy, Debug, PartialEq, Eq, Structural, Hash)]
pub enum AsrEngine {
    Qwen,
    Whisper,
}

/// The recogniser that the user chose explicitly.
#[derive(Clone, Copy, Debug, Default, PartialEq, Eq, Structural, Hash)]
pub enum AsrPreference {
    #[default]
    Qwen,
    Whisper,
}

impl AsrPreference {
    /// The engine that the preference names.
    pub open spec fn spec_engine(self) -> AsrEngine {
        match self {
            AsrPreference::Qwen => AsrEngine::Qwen,
            AsrPreference::Whisper => AsrEngine::Whisper,
        }
    }

    /// The preference for one engine.
    pub open spec fn of(engine: AsrEngine) -> AsrPreference {
        match engine {
            AsrEngine::Qwen => AsrPreference::Qwen,
            AsrEngine::Whisper => AsrPreference::Whisper,
        }
    }

    pub fn engine(self) -> (r: AsrEngine)
        ensures
            r == self.spec_engine(),
    {
        match self {
            AsrPreference::Qwen => AsrEngine::Qwen,
            AsrPreference::Whisper => AsrEngine::Whisper,
        }
    }

    pub fn from_engine(engine: AsrEngine) -> (r: AsrPreference)
        ensures
            r == AsrPreference::of(engine),
            r.spec_engine() == engine,
    {
        match engine {
            AsrEngine::Qwen => AsrPreference::Qwen,
            AsrEngine::Whisper => AsrPreference::Whisper,
        }
    }
}

#[derive(Clone, Copy, Debug, PartialEq, Eq, Structural, Hash)]
pub enum ProcessingMode {
    Raw,
    Faithful,
    Structured,
}

#[derive(Clone, Copy, Debug, PartialEq, Eq, Structural, Hash)]
pub enum RecordingMode {
    Toggle,
    PushToTalk,
}

#[derive(Clone, Copy, Debug, PartialEq, Eq, Structural, Hash)]
pub enum IntentDecision {
    Dictation,
    TextCommand,
}

/// Global shortcut that starts and stops a recording.
#[derive(Debug, PartialEq, Eq)]
pub struct RecordingShortcut {
    pub accelerator: String,
}

impl RecordingShortcut {
    pub fn new(accelerator: String) -> (r: RecordingShortcut)
        ensures
            r.accelerator == accelerator,
    {
        RecordingShortcut { accelerator }
    }

    pub fn as_str(&self) -> (r: &str)
        ensures
            r@ == self.accelerator@,
    {
        self.accelerator.as_str()
    }
}

impl Clone for RecordingShortcut {
    fn clone(&self) -> (r: RecordingShortcut)
        ensures
            r == *self,
    {
        RecordingShortcut { accelerator: self.accelerator.clone() }
    }
}

/// Where the user's language model lives, without its key.
#[derive(Debug, PartialEq, Eq)]
pub struct LlmNonSecretSettings {
    pub base_url: String,
    pub model: String,
}

impl LlmNonSecretSettings {
    pub fn new(base_url: String, model: String) -> (r: LlmNonSecretSettings)
        ensures
            r.base_url == base_url,
            r.model == model,
    {
        LlmNonSecretSettings { base_url, model }
    }
}

impl Clone for LlmNonSecretSettings {
    fn clone(&self) -> (r: LlmNonSecretSettings)
        ensures
            r == *self,
    {
        LlmNonSecretSettings { base_url: self.base_url.clone(), model: self.model.clone() }
    }
}

#[derive(Clone, Copy, Debug, PartialEq, Eq, Structural)]
pub struct HistoryPolicy {
    pub enabled: bool,
    pub limit: u16,
    pub retention_days: Option<u16>,
}

/// Every setting, as proposed for a snapshot.
#[derive(Debug, PartialEq, Eq)]
pub struct SettingsSnapshotInput {
    pub version: u64,
    pub recording_mode: RecordingMode,
    pub max_recording_duration: Seconds,
    pub recording_shortcut: Option<RecordingShortcut>,
    pub processing_mode: ProcessingMode,
    pub asr_preference: AsrPreference,
    pub llm: Option<LlmNonSecretSettings>,
    pub read_selected_text: bool,
    pub clipboard_bridge_allowed: bool,
    pub auto_copy_result: bool,
    pub local_diagnostics_enabled: bool,
    pub history_policy: HistoryPolicy,
}

impl Clone for SettingsSnapshotInput {
    fn clone(&self) -> (r: SettingsSnapshotInput)
        ensures
            r == *self,
    {
        SettingsSnapshotInput {
            version: self.version,
            recording_mode: self.recording_mode,
            max_recording_duration: self.max_recording_duration,
            recording_shortcut: match &self.recording_shortcut {
                Some(shortcut) => Some(shortcut.clone()),
                None => None,
            },
            processing_mode: self.processing_mode,
            asr_preference: self.asr_preference,
            llm: match &self.llm {
                Some(llm) => Some(llm.clone()),
                None => None,
            },
            read_selected_text: self.read_selected_text,
            clipboard_bridge_allowed: self.clipboard_bridge_allowed,
            auto_copy_result: self.auto_copy_result,
            local_diagnostics_enabled: self.local_diagnostics_enabled,
            history_policy: self.history_policy,
        }
    }
}

/// Settings at one version. A session freezes the snapshot that it started with.
#[derive(Debug, PartialEq, Eq)]
pub struct SettingsSnapshot {
    pub input: SettingsSnapshotInput,
}

impl Clone for SettingsSnapshot {
    fn clone(&self) -> (r: SettingsSnapshot)
        ensures
            r == *self,
    {
        SettingsSnapshot { input: self.input.clone() }
    }
}

impl SettingsSnapshot {
    /// The snapshot of settings that have been accepted.
    pub fn new(input: SettingsSnapshotInput) -> (r: SettingsSnapshot)
        ensures
            r.input == input,
    {
        SettingsSnapshot { input }
    }

    pub fn into_input(self) -> (r: SettingsSnapshotInput)
        ensures
            r == self.input,
    {
        self.input
    }
}

#[derive(Clone, Copy, Debug, PartialEq, Eq, Structural)]
pub enum FailureCategory {
    Audio,
    Asr,
    Llm,
    Delivery,
    Storage,
    Lifecycle,
}

#[derive(Clone, Copy, Debug, PartialEq, Eq, Structural)]
pub enum RejectReason {
    PermissionUnavailable,
    SelectionTooLong,
    RecordingHudUnavailable,
    AsrUnavailable,
}

#[derive(Clone, Copy, Debug, PartialEq, Eq, Structural)]
pub enum TerminalOutcome {
    Completed,
    Cancelled,
    Rejected(RejectReason),
    Failed(FailureCategory),
}

#[derive(Clone, Copy, Debug, PartialEq, Eq, Structural)]
pub enum SessionPhase {
    Preparing,
    Recording,
    Recognizing,
    Processing,
    Delivering,
    Finalizing,
    Terminal(TerminalOutcome),
}

#[derive(Clone, Copy, Debug, PartialEq, Eq, Structural)]
pub enum SessionEvent {
    PreflightPassed,
    FinishRecording,
    CancelRecording,
    NoSpeech,
    BeginProcessing,
    BeginDelivery,
    BeginFinalizing,
    Complete,
    Reject(RejectReason),
    Fail(FailureCategory),
}

/// What an accepted event did to the session.
#[derive(Clone, Copy, Debug, PartialEq, Eq, Structural)]
pub enum TransitionEffect {
    Advanced(SessionPhase),
    Terminated(TerminalOutcome),
}

/// The event does not belong to the phase that the session is in.
#[derive(Clone, Copy, Debug, PartialEq, Eq, Structural)]
pub struct TransitionError {
    pub phase: SessionPhase,
    pub event: SessionEvent,
}

impl SessionPhase {
    /// The phase that an event leads to, or `None` where the event is not
    /// allowed. A failure ends any session that has not ended yet; nothing
    /// leaves a terminal phase.
    pub open spec fn next(self, event: SessionEvent) -> Option<SessionPhase> {
        match (self, event) {
            (SessionPhase::Terminal(_), _) => None,
            (_, SessionEvent::Fail(category)) => Some(
                SessionPhase::Terminal(TerminalOutcome::Failed(category)),
            ),
            (SessionPhase::Preparing, SessionEvent::Reject(reason)) => Some(
                SessionPhase::Terminal(TerminalOutcome::Rejected(reason)),
            ),
            (SessionPhase::Preparing, SessionEvent::PreflightPassed) => Some(
                SessionPhase::Recording,
            ),
            (SessionPhase::Recording, SessionEvent::CancelRecording) => Some(
                SessionPhase::Terminal(TerminalOutcome::Cancelled),
            ),
            (SessionPhase::Recording, SessionEvent::FinishRecording) => Some(
                SessionPhase::Recognizing,
            ),
            (SessionPhase::Recognizing, SessionEvent::NoSpeech) => Some(
                SessionPhase::Terminal(TerminalOutcome::Cancelled),
            ),
            (SessionPhase::Recognizing, SessionEvent::BeginProcessing) => Some(
                SessionPhase::Processing,
            ),
            (SessionPhase::Recognizing, SessionEvent::BeginDelivery) => Some(
                SessionPhase::Delivering,
            ),
            (SessionPhase::Processing, SessionEvent::BeginDelivery) => Some(
                SessionPhase::Delivering,
            ),
            (SessionPhase::Delivering, SessionEvent::BeginFinalizing) => Some(
                SessionPhase::Finalizing,
            ),
            (SessionPhase::Finalizing, SessionEvent::Complete) => Some(
                SessionPhase::Terminal(TerminalOutcome::Completed),
            ),
            _ => None,
        }
    }

    /// How the session ended, if it has.
    pub open spec fn spec_terminal_outcome(self) -> Option<TerminalOutcome> {
        match self {
            SessionPhase::Terminal(outcome) => Some(outcome),
            _ => None,
        }
    }

    /// What reaching this phase amounts to.
    pub open spec fn effect(self) -> TransitionEffect {
        match self {
            SessionPhase::Terminal(outcome) => TransitionEffect::Terminated(outcome),
            _ => TransitionEffect::Advanced(self),
        }
    }

    fn advance(self, event: SessionEvent) -> (r: Option<SessionPhase>)
        ensures
            r == self.next(event),
    {
        match (self, event) {
            (SessionPhase::Terminal(_), _) => None,
            (_, SessionEvent::Fail(category)) => Some(
                SessionPhase::Terminal(TerminalOutcome::Failed(category)),
            ),
            (SessionPhase::Preparing, SessionEvent::Reject(reason)) => Some(
                SessionPhase::Terminal(TerminalOutcome::Rejected(reason)),
            ),
            (SessionPhase::Preparing, SessionEvent::PreflightPassed) => Some(
                SessionPhase::Recording,
            ),
            (SessionPhase::Recording, SessionEvent::CancelRecording) => Some(
                SessionPhase::Terminal(TerminalOutcome::Cancelled),
            ),
            (SessionPhase::Recording, SessionEvent::FinishRecording) => Some(
                SessionPhase::Recognizing,
            ),
            (SessionPhase::Recognizing, SessionEvent::NoSpeech) => Some(
                SessionPhase::Terminal(TerminalOutcome::Cancelled),
            ),
            (SessionPhase::Recognizing, SessionEvent::BeginProcessing) => Some(
                SessionPhase::Processing,
            ),
            (SessionPhase::Recognizing, SessionEvent::BeginDelivery) => Some(
                SessionPhase::Delivering,
            ),
            (SessionPhase::Processing, SessionEvent::BeginDelivery) => Some(
                SessionPhase::Delivering,
            ),
            (SessionPhase::Delivering, SessionEvent::BeginFinalizing) => Some(
                SessionPhase::Finalizing,
            ),
            (SessionPhase::Finalizing, SessionEvent::Complete) => Some(
                SessionPhase::Terminal(TerminalOutcome::Completed),
            ),
            _ => None,
        }
    }
}

/// One dictation, from preparation to its single terminal outcome.
#[derive(Debug, PartialEq, Eq)]
pub struct TranscriptionSession {
    pub id: SessionId,
    pub created_at: TimestampMs,
    pub settings: SettingsSnapshot,
    pub selected_asr_engine: AsrEngine,
    pub phase: SessionPhase,
}

impl Clone for TranscriptionSession {
    fn clone(&self) -> (r: TranscriptionSession)
        ensures
            r == *self,
    {
        TranscriptionSession {
            id: self.id,
            created_at: self.created_at,
            settings: self.settings.clone(),
            selected_asr_engine: self.selected_asr_engine,
            phase: self.phase,
        }
    }
}

impl TranscriptionSession {
    pub fn new(
        id: SessionId,
        created_at: TimestampMs,
        settings: SettingsSnapshot,
        selected_asr_engine: AsrEngine,
    ) -> (r: TranscriptionSession)
        ensures
            r == (TranscriptionSession {
                id,
                created_at,
                settings,
                selected_asr_engine,
                phase: SessionPhase::Preparing,
            }),
    {
        TranscriptionSession {
            id,
            created_at,
            settings,
            selected_asr_engine,
            phase: SessionPhase::Preparing,
        }
    }

    pub fn phase(&self) -> (r: SessionPhase)
        ensures
            r == self.phase,
    {
        self.phase
    }

    pub fn selected_asr_engine(&self) -> (r: AsrEngine)
        ensures
            r == self.selected_asr_engine,
    {
        self.selected_asr_engine
    }

    /// How the session ended, if it has.
    pub fn terminal_outcome(&self) -> (r: Option<TerminalOutcome>)
        ensures
            r == self.phase.spec_terminal_outcome(),
    {
        match self.phase {
            SessionPhase::Terminal(outcome) => Some(outcome),
            _ => None,
        }
    }

    /// Moves the session on, or leaves it as it is where the event is not
    /// allowed in its phase.
    pub fn apply(&mut self, event: SessionEvent) -> (r: Result<TransitionEffect, TransitionError>)
        ensures
            match old(self).phase.next(event) {
                Some(phase) => {
                    &&& *final(self) == (TranscriptionSession { phase, ..*old(self) })
                    &&& r == Ok::<TransitionEffect, TransitionError>(phase.effect())
                },
                None => {
                    &&& *final(self) == *old(self)
                    &&& r == Err::<TransitionEffect, TransitionError>(
                        TransitionError { phase: old(self).phase, event },
                    )
                },
            },
    {
        match self.phase.advance(event) {
            Some(phase) => {
                self.phase = phase;
                match phase {
                    SessionPhase::Terminal(outcome) => Ok(TransitionEffect::Terminated(outcome)),
                    _ => Ok(TransitionEffect::Advanced(phase)),
                }
            },
            None => Err(TransitionError { phase: self.phase, event }),
        }
    }
}

/// A session that has ended accepts no further event.
pub proof fn terminal_sessions_are_final(outcome: TerminalOutcome, event: SessionEvent)
    ensures
        SessionPhase::Terminal(outcome).next(event) is None,
{
}

/// Whatever phase a session is in, a failure ends it unless it has ended already.
pub proof fn failure_ends_every_open_session(phase: SessionPhase, category: FailureCategory)
    requires
        !(phase is Terminal),
    ensures
        phase.next(SessionEvent::Fail(category)) == Some(
            SessionPhase::Terminal(TerminalOutcome::Failed(category)),
        ),
{
}

/// Each engine has a preference of its own, which names that engine and no other.
pub proof fn a_preference_names_its_engine(engine: AsrEngine, preference: AsrPreference)
    ensures
        AsrPreference::of(engine).spec_engine() == engine,
        AsrPreference::of(preference.spec_engine()) == preference,
        preference is Qwen <==> preference.spec_engine() is Qwen,
{
}

/// Each phase is reached from one before it and by its own event alone: a session records
/// once its preparation has passed, is recognised once its recording is finished, is
/// processed or delivered only then, and completes only once it was finalized. It is
/// cancelled only while it records or where nothing was said, and rejected only while it
/// prepares.
pub proof fn a_phase_is_reached_only_by_its_own_event(phase: SessionPhase, event: SessionEvent)
    ensures
        match phase.next(event) {
            Some(SessionPhase::Preparing) => false,
            Some(SessionPhase::Recording) => phase is Preparing && event is PreflightPassed,
            Some(SessionPhase::Recognizing) => phase is Recording && event is FinishRecording,
            Some(SessionPhase::Processing) => phase is Recognizing && event is BeginProcessing,
            Some(SessionPhase::Delivering) => {
                (phase is Recognizing || phase is Processing) && event is BeginDelivery
            },
            Some(SessionPhase::Finalizing) => phase is Delivering && event is BeginFinalizing,
            Some(SessionPhase::Terminal(TerminalOutcome::Completed)) => {
                phase is Finalizing && event is Complete
            },
            Some(SessionPhase::Terminal(TerminalOutcome::Cancelled)) => {
                ||| phase is Recording && event is CancelRecording
                ||| phase is Recognizing && event is NoSpeech
            },
            Some(SessionPhase::Terminal(TerminalOutcome::Rejected(reason))) => {
                phase is Preparing && event == SessionEvent::Reject(reason)
            },
            Some(SessionPhase::Terminal(TerminalOutcome::Failed(category))) => {
                !(phase is Terminal) && event == SessionEvent::Fail(category)
            },
            None => {
                &&& !(phase is Preparing && (event is PreflightPassed || event is Reject))
                &&& !(phase is Recording && (event is FinishRecording || event is CancelRecording))
                &&& !(phase is Recognizing && (event is NoSpeech || event is BeginProcessing
                    || event is BeginDelivery))
                &&& !(phase is Processing && event is BeginDelivery)
                &&& !(phase is Delivering && event is BeginFinalizing)
                &&& !(phase is Finalizing && event is Complete)
                &&& event is Fail ==> phase is Terminal
            },
        },
{
}

/// What a phase amounts to is told by the phase itself: a terminal one by its outcome, any
/// other by its name.
pub proof fn a_phase_tells_what_it_amounts_to(phase: SessionPhase, outcome: TerminalOutcome)
    ensures
        phase == SessionPhase::Terminal(outcome) <==> phase.spec_terminal_outcome() == Some(
            outcome,
        ),
        phase == SessionPhase::Terminal(outcome) <==> phase.effect()
            == TransitionEffect::Terminated(outcome),
        !(phase is Terminal) ==> phase.effect() == TransitionEffect::Advanced(phase),
{
}

} // verus!
