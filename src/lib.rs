//! Self-update decision logic for a command-line binary: release selection,
//! version comparison, package-manager install detection, confirmation and the
//! update state machine that sequences them.

pub mod text;
pub mod confirm;
pub mod error;
pub mod guard;
pub mod orchestrator;
pub mod release;
pub mod version;
