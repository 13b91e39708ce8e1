//! Supervision of one server process: its lifecycle, the operator's requests and the rules
//! for starting, watching and stopping it.

pub mod admission;
pub mod control;
pub mod lifecycle;
pub mod monitor;
pub mod players;
pub mod readiness;
pub mod reaping;
pub mod reconcile;
pub mod run;
pub mod stopping;
pub mod waiting;
