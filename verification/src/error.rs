//! How a run ends: with the exit status of the sandboxed process, or with a
//! failure of the supervisor before that process could run.

use crate::ambient::AmbientVar;
use crate::text::{concat2, signed_decimal, signed_decimal_string};
use vstd::prelude::*;

verus! {

/// A failure of the supervisor. None is retried: each stems from the
/// configuration or the environment.
#[derive(Clone, Copy, Debug, PartialEq, Eq, Structural)]
pub enum LaunchError {
    /// The profile document is malformed or unreadable.
    ConfigParseError,
    /// A display-sharing mode or the bus proxy needs an ambient variable that
    /// the environment does not hold.
    MissingEnvironment(AmbientVar),
    /// The bus proxy could not be started.
    ProxyLaunchFailed,
    /// The bus proxy ended, with this exit code, before its socket appeared.
    ProxyExitedEarly(i32),
    /// The sandbox launcher could not be started.
    LaunchFailed,
}

/// The result of a run.
#[derive(Clone, Copy, Debug, PartialEq, Eq, Structural)]
pub enum Outcome {
    /// The sandboxed process ran and ended with this exit code.
    SandboxExit(i32),
    /// The supervisor failed before the sandboxed process could run.
    Failed(LaunchError),
}

/// The exit code of the supervisor after a failure of its own.
pub const FAILURE_EXIT_CODE: i32 = 1;

impl LaunchError {
    /// The diagnostic message for the failure.
    pub open spec fn spec_describe(self) -> Seq<char> {
        match self {
            LaunchError::ConfigParseError => "malformed profile document"@,
            LaunchError::MissingEnvironment(var) => "missing environment variable: "@
                + var.spec_name(),
            LaunchError::ProxyLaunchFailed => "launching dbus-proxy failed"@,
            LaunchError::ProxyExitedEarly(code) => "dbus-proxy exited too early: exit status code "@
                + signed_decimal(code as int),
            LaunchError::LaunchFailed => "launching bwrap failed"@,
        }
    }

    /// The diagnostic message for the failure.
    pub fn describe(&self) -> (message: String)
        ensures
            message@ == self.spec_describe(),
    {
        match self {
            LaunchError::ConfigParseError => "malformed profile document".to_owned(),
            LaunchError::MissingEnvironment(var) => concat2(
                "missing environment variable: ",
                var.name(),
            ),
            LaunchError::ProxyLaunchFailed => "launching dbus-proxy failed".to_owned(),
            LaunchError::ProxyExitedEarly(code) => {
                let digits = signed_decimal_string(*code);
                concat2("dbus-proxy exited too early: exit status code ", digits.as_str())
            },
            LaunchError::LaunchFailed => "launching bwrap failed".to_owned(),
        }
    }
}

impl Outcome {
    /// The exit code with which the supervisor ends: that of the sandboxed
    /// process, passed through unchanged, or the failure code.
    pub open spec fn spec_exit_code(self) -> i32 {
        match self {
            Outcome::SandboxExit(code) => code,
            Outcome::Failed(_) => FAILURE_EXIT_CODE,
        }
    }

    /// The exit code with which the supervisor ends: that of the sandboxed
    /// process, passed through unchanged, or a non-zero code after a failure
    /// of the supervisor itself.
    pub fn exit_code(&self) -> (code: i32)
        ensures
            code == self.spec_exit_code(),
            self is Failed ==> code != 0,
            self matches Outcome::SandboxExit(status) ==> code == status,
    {
        match self {
            Outcome::SandboxExit(code) => *code,
            Outcome::Failed(_) => FAILURE_EXIT_CODE,
        }
    }
}

} // verus!
