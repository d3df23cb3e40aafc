//! The command-line arguments of the daemon and the client, as values.

use vstd::prelude::*;

use crate::packet::DeployRequest;

verus! {

/// How much the logger says.
#[derive(Debug, Clone, Copy, PartialEq, Eq, Structural)]
pub enum Verbosity {
    Off,
    Error,
    Warn,
    Info,
    Debug,
    Trace,
}

/// The daemon's arguments.
pub struct DaemonCLIArgs {
    /// Path to the configuration file (by default `config.toml`).
    pub config: String,
    /// Sets the logger's verbosity level (by default `Info`).
    pub verbosity: Verbosity,
}

/// The client's arguments.
pub struct MainCLIArgs {
    /// Sets the logger's verbosity level (by default `Info`).
    pub verbosity: Verbosity,
    /// Path to the configuration file (by default `config.client.toml`).
    pub config: String,
    /// What to deploy.
    pub options: DeployRequest,
}

} // verus!
