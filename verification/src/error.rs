//! The ways an operation of the supervisor can fail.

use vstd::prelude::*;

verus! {

/// What went wrong. Every kind but [`ManagerError::ClockError`] ends the
/// current invocation.
#[derive(Clone, Copy, Debug, PartialEq, Eq, Structural)]
pub enum ManagerError {
    /// The configuration file exists but could not be opened or read.
    ConfigReadError,
    /// The configuration file does not hold a list of definitions.
    ConfigParseError,
    /// The configuration file could not be opened for writing, or the write
    /// did not complete.
    ConfigWriteError,
    /// The detection command could not be run to the point of capturing its
    /// output.
    DetectionCommandError,
    /// The process could not be spawned.
    SpawnError,
    /// A process reports a start time that lies after the time of the query.
    ClockError,
}

impl ManagerError {
    /// Whether this failure ends the invocation.
    pub open spec fn fatal(self) -> bool {
        self != ManagerError::ClockError
    }

    /// Whether this failure ends the invocation: all do, except a clock
    /// anomaly.
    pub fn is_fatal(&self) -> (fatal: bool)
        ensures
            fatal == self.fatal(),
    {
        match self {
            ManagerError::ClockError => false,
            _ => true,
        }
    }
}

} // verus!
