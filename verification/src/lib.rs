//! Lifecycle supervisor for a companion backend server process.
//!
//! A desktop application shell starts one long-running backend process at
//! startup and must terminate it when the main window closes. This crate
//! holds the supervisor's logic: resolving the filesystem location of the
//! backend's entry point from the deployment mode and the shell executable's
//! own path, planning the launch, and keeping the resulting process handle
//! in a take-once registry so that the process receives at most one
//! terminate signal. The surrounding shell performs the actual process
//! spawning, killing, and window-event plumbing.

pub mod launcher;
pub mod registry;
pub mod resolver;
pub mod shutdown;
