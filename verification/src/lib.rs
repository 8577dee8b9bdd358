//! Task orchestration engine for a media-download service.
//!
//! A submitted request becomes a [`task::Task`]: an immutable description of
//! one job (a download followed by a relocation, or a self-update of the
//! downloader).  Tasks in flight are kept in a [`registry::Registry`]; the
//! argument vectors handed to the external downloader and relocator are built
//! by the pure functions in [`cmd`]; destination lookup and the path-safety
//! check live in [`resolve`] and [`paths`]; and [`run`] gives the step-by-step
//! plan an unverified runner follows to execute a task and retire it from the
//! registry.

mod clock;

pub mod cmd;
pub mod config;
pub mod errors;
pub mod paths;
pub mod registry;
pub mod resolve;
pub mod run;
pub mod submit;
pub mod task;
pub mod text;
