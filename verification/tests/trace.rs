use remtene_application::domain::{ProcessingMode, SessionId};
use remtene_application::orchestrator::limit::limit_diagnostic;
use remtene_application::ports::{DiagnosticEvent, TargetSecurity};
use remtene_application::trace::{decision, recording_mark, session_mark, Decision, Diagnostic};
use remtene_application::{FinishOutcome, OrchestratorError};

fn event(phase: &str, state: &str, detail: Option<&str>) -> DiagnosticEvent {
    DiagnosticEvent {
        session_id: None,
        phase: Some(phase.to_owned()),
        state: Some(state.to_owned()),
        duration_ms: None,
        error_code: None,
        detail: detail.map(str::to_owned),
    }
}

#[test]
fn a_decision_names_its_stage_outcome_and_cause() {
    assert_eq!(
        decision("deliver", "kept", "because"),
        event("application.delivery.deliver", "kept", Some("because"))
    );
    assert_eq!(
        decision("deliver", "kept", ""),
        event("application.delivery.deliver", "kept", None)
    );
    assert_eq!(
        session_mark("start"),
        event("application.session", "start", None)
    );
    assert_eq!(
        recording_mark(),
        event("application.session", "开始录音", None)
    );
}

#[test]
fn decisions_read_as_they_are_shown_to_the_user() {
    assert_eq!(
        Decision::Inserted.event(),
        event("application.delivery.deliver", "已插入光标处", None)
    );
    assert_eq!(
        Decision::TargetCaptured {
            security: TargetSecurity::Safe,
            has_selection: true,
        }
        .event(),
        event(
            "application.delivery.capture",
            "目标安全（可尝试插入）",
            Some("有选区=true")
        )
    );
    assert_eq!(
        Decision::RevalidationFailed {
            code: "target.lost".to_owned(),
        }
        .event(),
        event(
            "application.delivery.deliver",
            "用户导向粘贴",
            Some("精确复核报错 target.lost 且尚未写入")
        )
    );
    assert_eq!(
        Decision::BridgeFailed {
            code: "clipboard.failed".to_owned(),
        }
        .event(),
        event(
            "application.delivery.clipboard",
            "临时文本框",
            Some("剪贴板端口报错 clipboard.failed")
        )
    );
    assert_eq!(
        Decision::PasteDispatched.event(),
        event(
            "application.delivery.userpaste",
            "已发送到当前输入位置",
            Some("按键事件已派发；目标不提供内容回读能力")
        )
    );
}

#[test]
fn diagnostics_carry_codes_and_never_content() {
    let session_id = SessionId::from_uuid(5);
    let failed = Diagnostic::PortFailed {
        session_id,
        phase: "asr",
        code: "asr_failed".to_owned(),
    }
    .event();
    assert_eq!(failed.session_id, Some(session_id));
    assert_eq!(failed.phase.as_deref(), Some("asr"));
    assert_eq!(failed.state.as_deref(), Some("failed"));
    assert_eq!(failed.error_code.as_deref(), Some("asr_failed"));

    let late = Diagnostic::LateResponse {
        session_id,
        phase: "llm",
    }
    .event();
    assert_eq!(late.state.as_deref(), Some("discarded"));
    assert_eq!(
        late.error_code.as_deref(),
        Some("late_or_mismatched_response")
    );

    let requested = Diagnostic::LlmRequested {
        session_id,
        processing_mode: ProcessingMode::Structured,
    }
    .event();
    assert_eq!(requested.phase.as_deref(), Some("llm.request"));
    assert_eq!(requested.state.as_deref(), Some("sent"));
    assert_eq!(requested.detail.as_deref(), Some("mode=Structured"));

    let answered = Diagnostic::LlmAnswered {
        session_id,
        duration_ms: 12,
        failure: None,
    }
    .event();
    assert_eq!(answered.phase.as_deref(), Some("llm.response"));
    assert_eq!(answered.state.as_deref(), Some("received"));
    assert_eq!(answered.duration_ms, Some(12));

    let silent = Diagnostic::NoSpeech {
        session_id,
        phase: "asr",
    }
    .event();
    assert_eq!(silent.state.as_deref(), Some("no_speech"));
    assert_eq!(silent.error_code, None);
}

#[test]
fn only_a_finish_that_could_not_be_carried_out_is_told_at_the_limit() {
    let session_id = SessionId::from_uuid(5);
    assert_eq!(
        limit_diagnostic(session_id, &Ok(FinishOutcome::NoSpeech)),
        None
    );

    let event = limit_diagnostic(session_id, &Err(OrchestratorError::RuntimeLockPoisoned))
        .expect("the failure is told")
        .event();
    assert_eq!(event.phase.as_deref(), Some("recording_deadline_finish"));
    assert_eq!(
        event.error_code.as_deref(),
        Some("recording.deadline_finish_failed")
    );
}
