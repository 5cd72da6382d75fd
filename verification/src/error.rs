//! Per-request error taxonomy and its mapping to HTTP statuses and log
//! levels.

use vstd::prelude::*;

verus! {

/// Faults of the execution protocol itself.
#[derive(Clone, Copy, Debug, PartialEq, Eq, Structural)]
pub enum PhpError {
    /// The engine refused to begin the request.
    RequestStartupFailed,
    /// The execution slot did not hold the expected context afterwards.
    ServerContextCorrupted,
}

/// Ways a single execution can fail; each stays contained to its request.
#[derive(Clone, Copy, Debug, PartialEq, Eq, Structural)]
pub enum ExecutePhpError {
    /// A request field holds a byte the engine's string form cannot carry.
    InitSapiGlobalsError,
    /// The engine's per-request startup reported failure.
    RequestStartupFailed,
    /// The engine left the script through its abnormal, non-local path.
    Bailout,
}

/// The HTTP status that reports an execution error to the client.
pub open spec fn spec_error_status(e: ExecutePhpError) -> u16 {
    match e {
        ExecutePhpError::InitSapiGlobalsError => 400,
        ExecutePhpError::RequestStartupFailed => 503,
        ExecutePhpError::Bailout => 500,
    }
}

/// Maps an execution error to the status of the error response: encoding
/// faults are the client's (400), a refused startup is unavailability (503),
/// an engine bailout is an internal error (500).
pub fn error_status(e: ExecutePhpError) -> (r: u16)
    ensures
        r == spec_error_status(e),
{
    match e {
        ExecutePhpError::InitSapiGlobalsError => 400,
        ExecutePhpError::RequestStartupFailed => 503,
        ExecutePhpError::Bailout => 500,
    }
}

/// The host's structured log levels.
#[derive(Clone, Copy, Debug, PartialEq, Eq, Structural)]
pub enum LogLevel {
    Error,
    Warn,
    Info,
    Debug,
}

/// The host log level for an engine syslog severity, if any: 0..=3 are
/// errors, 4 warns, 5 and 6 inform, 7 debugs, anything else is dropped.
pub open spec fn spec_log_level(syslog: i32) -> Option<LogLevel> {
    if 0 <= syslog <= 3 {
        Some(LogLevel::Error)
    } else if syslog == 4 {
        Some(LogLevel::Warn)
    } else if syslog == 5 || syslog == 6 {
        Some(LogLevel::Info)
    } else if syslog == 7 {
        Some(LogLevel::Debug)
    } else {
        None
    }
}

/// Maps an engine syslog severity to the host's log level.
pub fn log_level(syslog: i32) -> (r: Option<LogLevel>)
    ensures
        r == spec_log_level(syslog),
{
    if 0 <= syslog && syslog <= 3 {
        Some(LogLevel::Error)
    } else if syslog == 4 {
        Some(LogLevel::Warn)
    } else if syslog == 5 || syslog == 6 {
        Some(LogLevel::Info)
    } else if syslog == 7 {
        Some(LogLevel::Debug)
    } else {
        None
    }
}

} // verus!
