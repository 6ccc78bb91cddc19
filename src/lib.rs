//! Decision logic of a small control-plane sidecar: it checks a shared
//! secret, says which orchestration command to run, and maps the command's
//! outcome to an HTTP reply. Spawning processes and serving HTTP happen
//! around this library.

pub mod auth;
pub mod config;
pub mod command;
pub mod handlers;
