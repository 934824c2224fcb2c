
//! The dictation workflow: start, cancel, finish, retry and quit.

pub mod answer_laws;
pub mod cancel;
pub mod choice_laws;
pub mod cleanup_laws;
pub mod closing;
pub mod consent_laws;
pub mod deliver;
pub mod delivery_laws;
pub mod departure_laws;
pub mod exit;
pub mod farewell_laws;
pub mod finish;
pub mod finish_laws;
pub mod frozen_laws;
pub mod limit;
pub mod limit_laws;
pub mod opening_laws;
pub mod prepare;
pub mod privacy_laws;
pub mod protocol;
pub mod quit;
pub mod raw_laws;
pub mod report_laws;
pub mod resource_laws;
pub mod retry;
pub mod run_laws;
pub mod session_laws;
pub mod slot_laws;
pub mod start;
pub mod start_laws;
pub mod start_run_laws;
pub mod state;
pub mod state_laws;
pub mod trail_laws;
pub mod way_laws;
