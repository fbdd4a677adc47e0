//! Weaver: a verified two-process launcher toolkit.
//!
//! The crate covers the supervision engine behind a packaged launcher:
//! a binary container format (stub, two payloads and a trailing
//! configuration footer welded into one file), header inspection that
//! identifies a payload's operating system and architecture, and the
//! decision logic of the launcher stub that runs both payloads under a
//! health supervisor.

pub mod arch;
pub mod assemble;
pub mod binary_info;
pub mod bytefield;
pub mod compiler;
pub mod config;
pub mod decimal;
pub mod footer;
pub mod health;
pub mod image;
pub mod launcher;
pub mod models;
pub mod os;
pub mod platform;
pub mod progress;

pub use arch::Architecture;
pub use assemble::{merge_v2, MergeError, StubCatalog};
pub use binary_info::BinaryInfo;
pub use footer::ConfigFooter;
pub use health::{
    current_time, evaluate_health_status, should_enable_health_monitoring, HealthCheckResult,
    HealthStatus,
};
pub use launcher::parse_launcher;
pub use os::OperatingSystem;
