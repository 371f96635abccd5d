//! What can go wrong before and while a simulation runs, and how it is
//! reported.

use vstd::prelude::*;

verus! {

/// A failure to put the launch settings together. Each variant carries the
/// report of the failure itself.
#[derive(Clone, Debug, PartialEq, Eq)]
pub enum ConfigError {
    /// The configuration file could not be read.
    Io(String),
    /// The command line was not understood.
    Clap(String),
    /// The configuration file is not the TOML that is expected.
    Toml(String),
}

/// A failure to set up or to keep up the window that shows the simulation.
/// Each variant carries the report of the failure itself.
#[derive(Clone, Debug, PartialEq, Eq)]
pub enum SimulatorError {
    GlCreation(String),
    GlContext(String),
    Window(String),
}

impl ConfigError {
    /// The text shown to the user: what was being done, a blank line, and
    /// the report of the failure.
    pub open spec fn spec_message(self) -> Seq<char> {
        match self {
            ConfigError::Io(report) => "Could not read config:\n\n"@ + report@,
            ConfigError::Clap(report) => "Could not parse arguments:\n\n"@ + report@,
            ConfigError::Toml(report) => "Could not parse toml:\n\n"@ + report@,
        }
    }

    pub fn message(&self) -> (r: String)
        ensures
            r@ == self.spec_message(),
    {
        match self {
            ConfigError::Io(report) => "Could not read config:\n\n".to_owned().concat(
                report.as_str(),
            ),
            ConfigError::Clap(report) => "Could not parse arguments:\n\n".to_owned().concat(
                report.as_str(),
            ),
            ConfigError::Toml(report) => "Could not parse toml:\n\n".to_owned().concat(
                report.as_str(),
            ),
        }
    }
}

impl SimulatorError {
    /// The text shown to the user: the kind of failure, then its report.
    pub open spec fn spec_message(self) -> Seq<char> {
        match self {
            SimulatorError::GlCreation(report) => "GL creation error, "@ + report@,
            SimulatorError::GlContext(report) => "GL context error, "@ + report@,
            SimulatorError::Window(report) => "Window error, "@ + report@,
        }
    }

    pub fn message(&self) -> (r: String)
        ensures
            r@ == self.spec_message(),
    {
        match self {
            SimulatorError::GlCreation(report) => "GL creation error, ".to_owned().concat(
                report.as_str(),
            ),
            SimulatorError::GlContext(report) => "GL context error, ".to_owned().concat(
                report.as_str(),
            ),
            SimulatorError::Window(report) => "Window error, ".to_owned().concat(report.as_str()),
        }
    }
}

} // verus!
