//! Supervision of a single backend process: port selection, launch, health
//! gating, coordinated start and stop, and forced process-tree termination.
//!
//! The library holds the decisions. Every outside action (sleeping, an HTTP
//! probe, spawning or killing a process) is returned to the host as an
//! action, and the host feeds its outcome back as an event.

pub mod health;
pub mod supervisor;
pub mod start;
pub mod terminator;
pub mod launcher;

pub use health::{
    is_success, HealthProbeResult, ProbeAction, ProbeEvent, ProbeStage, Prober,
    HEALTH_INTERVAL_MS, HEALTH_MAX_ATTEMPTS,
};
pub use supervisor::{Phase, Supervisor};
pub use start::{StartAction, StartCall, StartError, StartEvent, StartStage};
pub use terminator::{decimal_string, kill_process_tree, Platform};
pub use launcher::{launch_args, CONFIG_PATH_VAR};
