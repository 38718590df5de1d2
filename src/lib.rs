//! A readiness gate: it probes TCP and HTTP endpoints again and again until
//! every one of them has answered, or until the process is interrupted.
//!
//! The library holds the decisions: how a probe's observations are classified,
//! how the set of pending endpoints shrinks, and what the check loop does
//! next. The network, the clock and the signal handler stay with the caller.
pub mod checkerror;
pub mod config;
pub mod probe;
pub mod scheduler;
pub mod workset;

pub use checkerror::{CheckError, FailureKind};
pub use config::{ConfigError, LogLevel, RunConfig};
pub use probe::{
    connection_outcome, http_outcome, resolution_outcome, status_is_success, tcp_target,
    HttpObservation,
};
pub use scheduler::{Action, Phase, Scheduler, EXIT_ALL_PASSED, EXIT_INTERRUPTED};
pub use workset::drop_succeeded;
