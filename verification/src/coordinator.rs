//! The daemon as a whole: its servers, its control endpoint, its signals and its end.

pub mod daemon;
pub mod failures;
pub mod signals;

pub use self::daemon::DaemonCoordinator;
