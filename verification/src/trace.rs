//! Content-free records of what a workflow decided and of what failed.
//!
//! Nothing here carries a transcript, a selection or a secret: causes name only
//! structural facts and stable failure codes.

use crate::domain::{ProcessingMode, SessionId};
use crate::ports::{DiagnosticEvent, TargetSecurity};
use crate::text::joined;
use vstd::prelude::*;

verus! {

/// What a text of an event reads, if the event has it.
pub open spec fn shown(text: Option<String>) -> Option<Seq<char>> {
    match text {
        Some(text) => Some(text@),
        None => None,
    }
}

/// What the texts and numbers of an event read.
pub struct EventView {
    pub session_id: Option<SessionId>,
    pub phase: Option<Seq<char>>,
    pub state: Option<Seq<char>>,
    pub duration_ms: Option<u64>,
    pub error_code: Option<Seq<char>>,
    pub detail: Option<Seq<char>>,
}

impl View for DiagnosticEvent {
    type V = EventView;

    open spec fn view(&self) -> EventView {
        EventView {
            session_id: self.session_id,
            phase: shown(self.phase),
            state: shown(self.state),
            duration_ms: self.duration_ms,
            error_code: shown(self.error_code),
            detail: shown(self.detail),
        }
    }
}

/// The record of a decision: its stage, what was decided, and why, if that
/// needs saying.
pub open spec fn decision_view(stage: Seq<char>, outcome: Seq<char>, cause: Seq<char>) -> EventView {
    EventView {
        session_id: None,
        phase: Some("application.delivery."@ + stage),
        state: Some(outcome),
        duration_ms: None,
        error_code: None,
        detail: if cause.len() == 0 {
            None
        } else {
            Some(cause)
        },
    }
}

pub fn decision(stage: &str, outcome: &str, cause: &str) -> (r: DiagnosticEvent)
    ensures
        r@ == decision_view(stage@, outcome@, cause@),
{
    DiagnosticEvent {
        session_id: None,
        phase: Some(joined("application.delivery.", stage)),
        state: Some(outcome.to_owned()),
        duration_ms: None,
        error_code: None,
        detail: if cause.is_empty() {
            None
        } else {
            Some(cause.to_owned())
        },
    }
}

pub fn session_mark(label: &str) -> (r: DiagnosticEvent)
    ensures
        r@ == (EventView {
            session_id: None,
            phase: Some("application.session"@),
            state: Some(label@),
            duration_ms: None,
            error_code: None,
            detail: None,
        }),
{
    DiagnosticEvent {
        session_id: None,
        phase: Some("application.session".to_owned()),
        state: Some(label.to_owned()),
        duration_ms: None,
        error_code: None,
        detail: None,
    }
}

/// The mark of a recording that was asked for.
pub fn recording_mark() -> (r: DiagnosticEvent)
    ensures
        r@ == (EventView {
            session_id: None,
            phase: Some("application.session"@),
            state: Some("开始录音"@),
            duration_ms: None,
            error_code: None,
            detail: None,
        }),
{
    session_mark("开始录音")
}

/// A decision on the way from the captured target to the delivered text.
#[derive(Clone, Debug, PartialEq, Eq)]
pub enum Decision {
    CaptureFailed { code: String },
    TargetCaptured { security: TargetSecurity, has_selection: bool },
    TemporaryForced,
    NoVerifiableTarget,
    Inserted,
    NotInserted,
    InsertionIndeterminate,
    InsertionFailed { code: String },
    TargetLost,
    RevalidationFailed { code: String },
    BridgeForbidden,
    BridgeTargetLost,
    BridgeRevalidationFailed { code: String },
    BridgeInserted,
    BridgeNotInserted,
    BridgeIndeterminate,
    BridgeFailed { code: String },
    PasteForbidden,
    PasteDispatched,
    PasteNotDispatched,
    PasteIndeterminate,
    PasteFailed { code: String },
}

impl Decision {
    /// The stage that the decision belongs to.
    pub open spec fn spec_stage(self) -> Seq<char> {
        match self {
            Decision::CaptureFailed { .. } | Decision::TargetCaptured { .. } => "capture"@,
            Decision::TemporaryForced
            | Decision::NoVerifiableTarget
            | Decision::Inserted
            | Decision::NotInserted
            | Decision::InsertionIndeterminate
            | Decision::InsertionFailed { .. }
            | Decision::TargetLost
            | Decision::RevalidationFailed { .. } => "deliver"@,
            Decision::BridgeForbidden
            | Decision::BridgeTargetLost
            | Decision::BridgeRevalidationFailed { .. }
            | Decision::BridgeInserted
            | Decision::BridgeNotInserted
            | Decision::BridgeIndeterminate
            | Decision::BridgeFailed { .. } => "clipboard"@,
            Decision::PasteForbidden
            | Decision::PasteDispatched
            | Decision::PasteNotDispatched
            | Decision::PasteIndeterminate
            | Decision::PasteFailed { .. } => "userpaste"@,
        }
    }

    /// What was decided.
    pub open spec fn spec_outcome(self) -> Seq<char> {
        match self {
            Decision::CaptureFailed { .. } => "拒绝开始"@,
            Decision::TargetCaptured { security, .. } => match security {
                TargetSecurity::Safe => "目标安全（可尝试插入）"@,
                TargetSecurity::Unknown => "目标未知（将尝试用户导向粘贴）"@,
                TargetSecurity::SecureInput => "安全输入状态（输入位置由用户决定）"@,
            },
            Decision::Inserted => "已插入光标处"@,
            Decision::NotInserted | Decision::InsertionFailed { .. } => "回退剪贴板"@,
            Decision::NoVerifiableTarget
            | Decision::TargetLost
            | Decision::RevalidationFailed { .. }
            | Decision::BridgeTargetLost
            | Decision::BridgeRevalidationFailed { .. } => "用户导向粘贴"@,
            Decision::BridgeInserted => "已经由剪贴板插入"@,
            Decision::PasteDispatched => "已发送到当前输入位置"@,
            Decision::TemporaryForced
            | Decision::InsertionIndeterminate
            | Decision::BridgeForbidden
            | Decision::BridgeNotInserted
            | Decision::BridgeIndeterminate
            | Decision::BridgeFailed { .. }
            | Decision::PasteForbidden
            | Decision::PasteNotDispatched
            | Decision::PasteIndeterminate
            | Decision::PasteFailed { .. } => "临时文本框"@,
        }
    }

    /// Why, or nothing where the outcome says it all.
    pub open spec fn spec_cause(self) -> Seq<char> {
        match self {
            Decision::CaptureFailed { code } => "捕获端口报错 "@ + code@,
            Decision::TargetCaptured { has_selection, .. } => if has_selection {
                "有选区=true"@
            } else {
                "有选区=false"@
            },
            Decision::TemporaryForced => "调用方强制（未尝试插入）"@,
            Decision::NoVerifiableTarget =>
            "捕获阶段没有可验证文本控件，输入位置以当前键盘焦点为准"@,
            Decision::Inserted => ""@,
            Decision::NotInserted => "AX 插入未发生（具体原因见上方 dispatch 记录）"@,
            Decision::InsertionIndeterminate => "AX 结果不确定，禁止二次投递"@,
            Decision::InsertionFailed { code } => "插入端口报错 "@ + code@,
            Decision::TargetLost => "精确目标复核未通过且尚未写入，改投用户当前焦点"@,
            Decision::RevalidationFailed { code } => "精确复核报错 "@ + code@ + " 且尚未写入"@,
            Decision::BridgeForbidden => "设置中未允许剪贴板桥接"@,
            Decision::BridgeTargetLost => "目标绑定粘贴复核未通过且尚未派发"@,
            Decision::BridgeRevalidationFailed { code } => "目标绑定粘贴复核报错 "@ + code@
                + " 且尚未派发"@,
            Decision::BridgeInserted => ""@,
            Decision::BridgeNotInserted => "⌘V 模拟未生效"@,
            Decision::BridgeIndeterminate => "剪贴板结果不确定"@,
            Decision::BridgeFailed { code } => "剪贴板端口报错 "@ + code@,
            Decision::PasteForbidden => "设置中未允许剪贴板兼容投递"@,
            Decision::PasteDispatched => "按键事件已派发；目标不提供内容回读能力"@,
            Decision::PasteNotDispatched => "按键事件未派发"@,
            Decision::PasteIndeterminate => "按键派发结果不确定"@,
            Decision::PasteFailed { code } => "通用粘贴端口报错 "@ + code@,
        }
    }

    fn stage(&self) -> (r: &'static str)
        ensures
            r@ == self.spec_stage(),
    {
        match self {
            Decision::CaptureFailed { .. } | Decision::TargetCaptured { .. } => "capture",
            Decision::TemporaryForced
            | Decision::NoVerifiableTarget
            | Decision::Inserted
            | Decision::NotInserted
            | Decision::InsertionIndeterminate
            | Decision::InsertionFailed { .. }
            | Decision::TargetLost
            | Decision::RevalidationFailed { .. } => "deliver",
            Decision::BridgeForbidden
            | Decision::BridgeTargetLost
            | Decision::BridgeRevalidationFailed { .. }
            | Decision::BridgeInserted
            | Decision::BridgeNotInserted
            | Decision::BridgeIndeterminate
            | Decision::BridgeFailed { .. } => "clipboard",
            Decision::PasteForbidden
            | Decision::PasteDispatched
            | Decision::PasteNotDispatched
            | Decision::PasteIndeterminate
            | Decision::PasteFailed { .. } => "userpaste",
        }
    }

    fn outcome(&self) -> (r: &'static str)
        ensures
            r@ == self.spec_outcome(),
    {
        match self {
            Decision::CaptureFailed { .. } => "拒绝开始",
            Decision::TargetCaptured { security, .. } => match security {
                TargetSecurity::Safe => "目标安全（可尝试插入）",
                TargetSecurity::Unknown => "目标未知（将尝试用户导向粘贴）",
                TargetSecurity::SecureInput => "安全输入状态（输入位置由用户决定）",
            },
            Decision::Inserted => "已插入光标处",
            Decision::NotInserted | Decision::InsertionFailed { .. } => "回退剪贴板",
            Decision::NoVerifiableTarget
            | Decision::TargetLost
            | Decision::RevalidationFailed { .. }
            | Decision::BridgeTargetLost
            | Decision::BridgeRevalidationFailed { .. } => "用户导向粘贴",
            Decision::BridgeInserted => "已经由剪贴板插入",
            Decision::PasteDispatched => "已发送到当前输入位置",
            Decision::TemporaryForced
            | Decision::InsertionIndeterminate
            | Decision::BridgeForbidden
            | Decision::BridgeNotInserted
            | Decision::BridgeIndeterminate
            | Decision::BridgeFailed { .. }
            | Decision::PasteForbidden
            | Decision::PasteNotDispatched
            | Decision::PasteIndeterminate
            | Decision::PasteFailed { .. } => "临时文本框",
        }
    }

    fn cause(&self) -> (r: String)
        ensures
            r@ == self.spec_cause(),
    {
        match self {
            Decision::CaptureFailed { code } => joined("捕获端口报错 ", code.as_str()),
            Decision::TargetCaptured { has_selection, .. } => {
                if *has_selection {
                    "有选区=true".to_owned()
                } else {
                    "有选区=false".to_owned()
                }
            },
            Decision::TemporaryForced => "调用方强制（未尝试插入）".to_owned(),
            Decision::NoVerifiableTarget => {
                "捕获阶段没有可验证文本控件，输入位置以当前键盘焦点为准".to_owned()
            },
            Decision::Inserted => "".to_owned(),
            Decision::NotInserted => {
                "AX 插入未发生（具体原因见上方 dispatch 记录）".to_owned()
            },
            Decision::InsertionIndeterminate => "AX 结果不确定，禁止二次投递".to_owned(),
            Decision::InsertionFailed { code } => joined("插入端口报错 ", code.as_str()),
            Decision::TargetLost => {
                "精确目标复核未通过且尚未写入，改投用户当前焦点".to_owned()
            },
            Decision::RevalidationFailed { code } => {
                let start = joined("精确复核报错 ", code.as_str());
                joined(start.as_str(), " 且尚未写入")
            },
            Decision::BridgeForbidden => "设置中未允许剪贴板桥接".to_owned(),
            Decision::BridgeTargetLost => "目标绑定粘贴复核未通过且尚未派发".to_owned(),
            Decision::BridgeRevalidationFailed { code } => {
                let start = joined("目标绑定粘贴复核报错 ", code.as_str());
                joined(start.as_str(), " 且尚未派发")
            },
            Decision::BridgeInserted => "".to_owned(),
            Decision::BridgeNotInserted => "⌘V 模拟未生效".to_owned(),
            Decision::BridgeIndeterminate => "剪贴板结果不确定".to_owned(),
            Decision::BridgeFailed { code } => joined("剪贴板端口报错 ", code.as_str()),
            Decision::PasteForbidden => "设置中未允许剪贴板兼容投递".to_owned(),
            Decision::PasteDispatched => {
                "按键事件已派发；目标不提供内容回读能力".to_owned()
            },
            Decision::PasteNotDispatched => "按键事件未派发".to_owned(),
            Decision::PasteIndeterminate => "按键派发结果不确定".to_owned(),
            Decision::PasteFailed { code } => joined("通用粘贴端口报错 ", code.as_str()),
        }
    }

    /// The record of the decision.
    pub fn event(&self) -> (r: DiagnosticEvent)
        ensures
            r@ == decision_view(self.spec_stage(), self.spec_outcome(), self.spec_cause()),
    {
        let cause = self.cause();
        decision(self.stage(), self.outcome(), cause.as_str())
    }
}

/// Something about a running session that diagnostics keep.
#[derive(Clone, Debug, PartialEq, Eq)]
pub enum Diagnostic {
    /// A capability failed during a phase.
    PortFailed { session_id: SessionId, phase: &'static str, code: String },
    /// A phase found nothing that was said.
    NoSpeech { session_id: SessionId, phase: &'static str },
    /// An answer came too late, or belongs to another request.
    LateResponse { session_id: SessionId, phase: &'static str },
    /// A text went to the language model.
    LlmRequested { session_id: SessionId, processing_mode: ProcessingMode },
    /// The language model answered, or failed with a code.
    LlmAnswered { session_id: SessionId, duration_ms: u64, failure: Option<String> },
}

/// How a processing mode reads in a diagnostic detail.
pub open spec fn mode_detail(mode: ProcessingMode) -> Seq<char> {
    match mode {
        ProcessingMode::Raw => "mode=Raw"@,
        ProcessingMode::Faithful => "mode=Faithful"@,
        ProcessingMode::Structured => "mode=Structured"@,
    }
}

impl Diagnostic {
    /// What the record reads.
    pub open spec fn reads(self) -> EventView {
        match self {
            Diagnostic::PortFailed { session_id, phase, code } => EventView {
                session_id: Some(session_id),
                phase: Some(phase@),
                state: Some("failed"@),
                duration_ms: None,
                error_code: Some(code@),
                detail: None,
            },
            Diagnostic::NoSpeech { session_id, phase } => EventView {
                session_id: Some(session_id),
                phase: Some(phase@),
                state: Some("no_speech"@),
                duration_ms: None,
                error_code: None,
                detail: None,
            },
            Diagnostic::LateResponse { session_id, phase } => EventView {
                session_id: Some(session_id),
                phase: Some(phase@),
                state: Some("discarded"@),
                duration_ms: None,
                error_code: Some("late_or_mismatched_response"@),
                detail: None,
            },
            Diagnostic::LlmRequested { session_id, processing_mode } => EventView {
                session_id: Some(session_id),
                phase: Some("llm.request"@),
                state: Some("sent"@),
                duration_ms: None,
                error_code: None,
                detail: Some(mode_detail(processing_mode)),
            },
            Diagnostic::LlmAnswered { session_id, duration_ms, failure } => EventView {
                session_id: Some(session_id),
                phase: Some("llm.response"@),
                state: Some(
                    if failure is None {
                        "received"@
                    } else {
                        "failed"@
                    },
                ),
                duration_ms: Some(duration_ms),
                error_code: shown(failure),
                detail: None,
            },
        }
    }

    /// The record in full.
    pub fn event(&self) -> (r: DiagnosticEvent)
        ensures
            r@ == self.reads(),
    {
        match self {
            Diagnostic::PortFailed { session_id, phase, code } => DiagnosticEvent {
                session_id: Some(*session_id),
                phase: Some((*phase).to_owned()),
                state: Some("failed".to_owned()),
                duration_ms: None,
                error_code: Some(code.clone()),
                detail: None,
            },
            Diagnostic::NoSpeech { session_id, phase } => DiagnosticEvent {
                session_id: Some(*session_id),
                phase: Some((*phase).to_owned()),
                state: Some("no_speech".to_owned()),
                duration_ms: None,
                error_code: None,
                detail: None,
            },
            Diagnostic::LateResponse { session_id, phase } => DiagnosticEvent {
                session_id: Some(*session_id),
                phase: Some((*phase).to_owned()),
                state: Some("discarded".to_owned()),
                duration_ms: None,
                error_code: Some("late_or_mismatched_response".to_owned()),
                detail: None,
            },
            Diagnostic::LlmRequested { session_id, processing_mode } => DiagnosticEvent {
                session_id: Some(*session_id),
                phase: Some("llm.request".to_owned()),
                state: Some("sent".to_owned()),
                duration_ms: None,
                error_code: None,
                detail: Some(
                    match processing_mode {
                        ProcessingMode::Raw => "mode=Raw".to_owned(),
                        ProcessingMode::Faithful => "mode=Faithful".to_owned(),
                        ProcessingMode::Structured => "mode=Structured".to_owned(),
                    },
                ),
            },
            Diagnostic::LlmAnswered { session_id, duration_ms, failure } => DiagnosticEvent {
                session_id: Some(*session_id),
                phase: Some("llm.response".to_owned()),
                state: Some(
                    match failure {
                        None => "received".to_owned(),
                        Some(_) => "failed".to_owned(),
                    },
                ),
                duration_ms: Some(*duration_ms),
                error_code: match failure {
                    None => None,
                    Some(code) => Some(code.clone()),
                },
                detail: None,
            },
        }
    }
}

/// The record of a decision belongs to no session, is filed under the delivery, and gives a
/// cause exactly where there is one to give.
pub proof fn a_decision_is_filed_under_the_delivery(
    stage: Seq<char>,
    outcome: Seq<char>,
    cause: Seq<char>,
)
    ensures
        ({
            let event = decision_view(stage, outcome, cause);
            &&& event.session_id is None
            &&& event.phase == Some("application.delivery."@ + stage)
            &&& event.state == Some(outcome)
            &&& event.duration_ms is None && event.error_code is None
            &&& event.detail is None <==> cause.len() == 0
            &&& cause.len() > 0 ==> event.detail == Some(cause)
        }),
{
}

/// Whether a cause tells a code, after some words and before some others.
pub open spec fn tells_code(
    cause: Seq<char>,
    code: Seq<char>,
    before: Seq<char>,
    after: Seq<char>,
) -> bool {
    cause == before + code + after
}

/// A decision that follows from a failure tells the code of that failure in its cause, and a
/// decision that says it all has none.
pub proof fn a_cause_tells_the_code_of_its_failure(decision: Decision)
    ensures
        match decision {
            Decision::CaptureFailed { code } => tells_code(
                decision.spec_cause(),
                code@,
                "捕获端口报错 "@,
                Seq::empty(),
            ),
            Decision::InsertionFailed { code } => tells_code(
                decision.spec_cause(),
                code@,
                "插入端口报错 "@,
                Seq::empty(),
            ),
            Decision::RevalidationFailed { code } => tells_code(
                decision.spec_cause(),
                code@,
                "精确复核报错 "@,
                " 且尚未写入"@,
            ),
            Decision::BridgeRevalidationFailed { code } => tells_code(
                decision.spec_cause(),
                code@,
                "目标绑定粘贴复核报错 "@,
                " 且尚未派发"@,
            ),
            Decision::BridgeFailed { code } => tells_code(
                decision.spec_cause(),
                code@,
                "剪贴板端口报错 "@,
                Seq::empty(),
            ),
            Decision::PasteFailed { code } => tells_code(
                decision.spec_cause(),
                code@,
                "通用粘贴端口报错 "@,
                Seq::empty(),
            ),
            Decision::Inserted | Decision::BridgeInserted => decision.spec_cause().len() == 0,
            _ => true,
        },
{
    reveal_strlit("");
    let cause = decision.spec_cause();
    assert(cause + Seq::<char>::empty() =~= cause);
}

/// Where a text ends up is told by the decision that brought it there: in the temporary
/// surface, at the user's own focus, on the way over the clipboard, or where it was meant.
pub proof fn a_decision_says_where_the_text_goes(decision: Decision)
    ensures
        match decision {
            Decision::TemporaryForced
            | Decision::InsertionIndeterminate
            | Decision::BridgeForbidden
            | Decision::BridgeNotInserted
            | Decision::BridgeIndeterminate
            | Decision::BridgeFailed { .. }
            | Decision::PasteForbidden
            | Decision::PasteNotDispatched
            | Decision::PasteIndeterminate
            | Decision::PasteFailed { .. } => decision.spec_outcome() == "临时文本框"@,
            Decision::NoVerifiableTarget
            | Decision::TargetLost
            | Decision::RevalidationFailed { .. }
            | Decision::BridgeTargetLost
            | Decision::BridgeRevalidationFailed { .. } => decision.spec_outcome()
                == "用户导向粘贴"@,
            Decision::NotInserted | Decision::InsertionFailed { .. } => decision.spec_outcome()
                == "回退剪贴板"@,
            Decision::Inserted => decision.spec_outcome() == "已插入光标处"@,
            Decision::BridgeInserted => decision.spec_outcome() == "已经由剪贴板插入"@,
            Decision::PasteDispatched => decision.spec_outcome() == "已发送到当前输入位置"@,
            Decision::CaptureFailed { .. } => decision.spec_outcome() == "拒绝开始"@,
            Decision::TargetCaptured { security, .. } => match security {
                TargetSecurity::Safe => decision.spec_outcome() == "目标安全（可尝试插入）"@,
                TargetSecurity::Unknown => decision.spec_outcome()
                    == "目标未知（将尝试用户导向粘贴）"@,
                TargetSecurity::SecureInput => decision.spec_outcome()
                    == "安全输入状态（输入位置由用户决定）"@,
            },
        },
        decision.spec_stage() == match decision {
            Decision::CaptureFailed { .. } | Decision::TargetCaptured { .. } => "capture"@,
            Decision::BridgeForbidden
            | Decision::BridgeTargetLost
            | Decision::BridgeRevalidationFailed { .. }
            | Decision::BridgeInserted
            | Decision::BridgeNotInserted
            | Decision::BridgeIndeterminate
            | Decision::BridgeFailed { .. } => "clipboard"@,
            Decision::PasteForbidden
            | Decision::PasteDispatched
            | Decision::PasteNotDispatched
            | Decision::PasteIndeterminate
            | Decision::PasteFailed { .. } => "userpaste"@,
            _ => "deliver"@,
        },
{
}

/// A diagnostic is about its own session, carries the phase, the code and the time that it
/// was made of, and nothing else; what failed reads as failed, and nothing that did not
/// fail carries the code of a failure.
pub proof fn a_diagnostic_reads_as_it_was_made(diagnostic: Diagnostic)
    ensures
        ({
            let event = diagnostic.reads();
            match diagnostic {
                Diagnostic::PortFailed { session_id, phase, code } => {
                    &&& event.session_id == Some(session_id) && event.phase == Some(phase@)
                    &&& event.state == Some("failed"@) && event.error_code == Some(code@)
                    &&& event.duration_ms is None && event.detail is None
                },
                Diagnostic::NoSpeech { session_id, phase } => {
                    &&& event.session_id == Some(session_id) && event.phase == Some(phase@)
                    &&& event.state == Some("no_speech"@) && event.error_code is None
                    &&& event.duration_ms is None && event.detail is None
                },
                Diagnostic::LateResponse { session_id, phase } => {
                    &&& event.session_id == Some(session_id) && event.phase == Some(phase@)
                    &&& event.state == Some("discarded"@)
                    &&& event.error_code == Some("late_or_mismatched_response"@)
                    &&& event.duration_ms is None && event.detail is None
                },
                Diagnostic::LlmRequested { session_id, processing_mode } => {
                    &&& event.session_id == Some(session_id)
                    &&& event.phase == Some("llm.request"@) && event.state == Some("sent"@)
                    &&& event.error_code is None && event.duration_ms is None
                    &&& processing_mode is Raw ==> event.detail == Some("mode=Raw"@)
                    &&& processing_mode is Faithful ==> event.detail == Some("mode=Faithful"@)
                    &&& processing_mode is Structured ==> event.detail == Some("mode=Structured"@)
                },
                Diagnostic::LlmAnswered { session_id, duration_ms, failure } => {
                    &&& event.session_id == Some(session_id)
                    &&& event.phase == Some("llm.response"@)
                    &&& event.duration_ms == Some(duration_ms) && event.detail is None
                    &&& match failure {
                        Some(code) => event.state == Some("failed"@) && event.error_code == Some(
                            code@,
                        ),
                        None => event.state == Some("received"@) && event.error_code is None,
                    }
                },
            }
        }),
{
}

} // verus!
