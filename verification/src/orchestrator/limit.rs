//! What happens when the longest recording is over: the recording is finished
//! as if the user had finished it.

use crate::domain::SessionId;
use crate::orchestrator::state::{FinishOutcome, OrchestratorError};
use crate::trace::Diagnostic;
use vstd::prelude::*;

verus! {

/// Whether a diagnostic tells that the recording of a session could not be
/// finished at its limit.
pub open spec fn tells_limit_failure(diagnostic: Diagnostic, session_id: SessionId) -> bool {
    match diagnostic {
        Diagnostic::PortFailed { session_id: told, phase, code } => {
            &&& told == session_id
            &&& phase == "recording_deadline_finish"
            &&& code@ == "recording.deadline_finish_failed"@
        },
        _ => false,
    }
}

/// What finishing a recording at its limit leaves behind. However the session
/// ended, that is told elsewhere; only a finish that could not be carried out is
/// recorded here.
pub fn limit_diagnostic(
    session_id: SessionId,
    finished: &Result<FinishOutcome, OrchestratorError>,
) -> (r: Option<Diagnostic>)
    ensures
        r is Some <==> *finished is Err,
        r is Some ==> tells_limit_failure(r->0, session_id),
{
    match finished {
        Ok(_) => None,
        Err(_) => Some(
            Diagnostic::PortFailed {
                session_id,
                phase: "recording_deadline_finish",
                code: "recording.deadline_finish_failed".to_owned(),
            },
        ),
    }
}

} // verus!
