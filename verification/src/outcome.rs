//! Interpretation of a finished transfer: what to relay, what to report.
//!
//! The external process has run and its exit status and captured streams are
//! in hand; this module decides, purely, whether the run failed and which
//! captured streams the caller should relay to its own output.

use crate::resolve::ConfigError;
use crate::resolve::ConfigField;
use vstd::prelude::*;
use vstd::string::*;

verus! {

/// Result of one external transfer invocation.
pub struct TransferResult {
    pub exit_success: bool,
    pub stdout: Vec<u8>,
    pub stderr: Vec<u8>,
}

/// Which captured streams the caller should relay to its own output.
pub struct RelayPlan {
    pub show_stdout: bool,
    pub show_stderr: bool,
}

/// The error kinds a run can end with.
#[derive(Clone, Copy, PartialEq, Eq, Structural, Debug)]
pub enum RunError {
    /// Configuration resolution failed.
    Config(ConfigError),
    /// A source path could not be resolved.
    PathResolution,
    /// The external binary could not be launched.
    Spawn,
    /// The external binary exited with a non-zero status.
    TransferFailed,
}

/// Decide what one finished transfer means: on success the run goes on and
/// captured standard output is relayed only under verbosity; on failure both
/// captured streams are relayed and the run reports a failed transfer.
pub fn interpret_transfer(result: &TransferResult, verbose: bool) -> (r: (
    RelayPlan,
    Result<(), RunError>,
))
    ensures
        r.0.show_stdout == (verbose || !result.exit_success),
        r.0.show_stderr == !result.exit_success,
        result.exit_success <==> r.1 is Ok,
        !result.exit_success ==> r.1 == Result::<(), RunError>::Err(RunError::TransferFailed),
{
    if result.exit_success {
        (RelayPlan { show_stdout: verbose, show_stderr: false }, Ok(()))
    } else {
        (RelayPlan { show_stdout: true, show_stderr: true }, Err(RunError::TransferFailed))
    }
}

impl RunError {
    /// The human-readable description printed when the run terminates on this
    /// error.
    pub fn describe(&self) -> (r: String)
        ensures
            self == RunError::Config(ConfigError::MissingField(ConfigField::Port)) ==> r@
                == "Missing config value: port"@,
            self == RunError::Config(ConfigError::MissingField(ConfigField::Dest)) ==> r@
                == "Missing config value: dest"@,
            self == RunError::Config(ConfigError::MissingField(ConfigField::Username)) ==> r@
                == "Missing config value: username"@,
            self == RunError::Config(ConfigError::InvalidPort) ==> r@
                == "Invalid config value: port"@,
            self is PathResolution ==> r@ == "Failed to resolve"@,
            self is Spawn ==> r@ == "Failed to launch rsync command"@,
            self is TransferFailed ==> r@ == "Rsync command failed!"@,
    {
        match self {
            RunError::Config(ConfigError::MissingField(ConfigField::Port)) => String::from_str(
                "Missing config value: port",
            ),
            RunError::Config(ConfigError::MissingField(ConfigField::Dest)) => String::from_str(
                "Missing config value: dest",
            ),
            RunError::Config(ConfigError::MissingField(ConfigField::Username)) => String::from_str(
                "Missing config value: username",
            ),
            RunError::Config(ConfigError::InvalidPort) => String::from_str(
                "Invalid config value: port",
            ),
            RunError::PathResolution => String::from_str("Failed to resolve"),
            RunError::Spawn => String::from_str("Failed to launch rsync command"),
            RunError::TransferFailed => String::from_str("Rsync command failed!"),
        }
    }
}

} // verus!
