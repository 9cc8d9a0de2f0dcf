//! Application severities and their mapping to syslog priority codes.

use vstd::prelude::*;

verus! {

/// Severity of a log event. `Error` is the most severe, `Trace` the least.
#[derive(Clone, Copy, PartialEq, Eq, Structural, Debug)]
pub enum Level {
    Error,
    Warn,
    Info,
    Debug,
    Trace,
}

impl Level {
    /// Rank of a severity: a larger rank means a more severe event.
    pub open spec fn severity(self) -> nat {
        match self {
            Level::Error => 4,
            Level::Warn => 3,
            Level::Info => 2,
            Level::Debug => 1,
            Level::Trace => 0,
        }
    }

    /// The syslog priority code assigned to this severity: numerically
    /// smaller codes stand for more severe events, and the two least
    /// severe levels share one code.
    pub open spec fn priority(self) -> int {
        match self {
            Level::Error => 3,
            Level::Warn => 4,
            Level::Info => 6,
            Level::Debug => 7,
            Level::Trace => 7,
        }
    }

    /// Executable severity rank, equal to the specification rank.
    pub fn severity_rank(self) -> (r: u8)
        ensures
            r as nat == self.severity(),
    {
        match self {
            Level::Error => 4,
            Level::Warn => 3,
            Level::Info => 2,
            Level::Debug => 1,
            Level::Trace => 0,
        }
    }
}

/// Relies on `libc::LOG_ERR`, the syslog "error conditions" priority, value 3.
#[verifier::external_body]
fn syslog_err() -> (r: i32)
    ensures
        r == 3,
{
    libc::LOG_ERR
}

/// Relies on `libc::LOG_WARNING`, the syslog "warning conditions" priority, value 4.
#[verifier::external_body]
fn syslog_warning() -> (r: i32)
    ensures
        r == 4,
{
    libc::LOG_WARNING
}

/// Relies on `libc::LOG_INFO`, the syslog "informational" priority, value 6.
#[verifier::external_body]
fn syslog_info() -> (r: i32)
    ensures
        r == 6,
{
    libc::LOG_INFO
}

/// Relies on `libc::LOG_DEBUG`, the syslog "debug-level messages" priority, value 7.
#[verifier::external_body]
fn syslog_debug() -> (r: i32)
    ensures
        r == 7,
{
    libc::LOG_DEBUG
}

/// Maps an application severity to its syslog priority code.
pub fn rust_log_level_to_syslog_rpiority(log_level: Level) -> (p: i32)
    ensures
        p == log_level.priority(),
{
    match log_level {
        Level::Error => syslog_err(),
        Level::Warn => syslog_warning(),
        Level::Info => syslog_info(),
        Level::Debug | Level::Trace => syslog_debug(),
    }
}

/// The severity-to-priority mapping is a fixed total function: it is
/// antitone (a more severe event never gets a numerically larger code),
/// and two severities share a code exactly when they are equal or are
/// the two least severe levels.
pub proof fn lemma_priority_antitone(a: Level, b: Level)
    ensures
        a.severity() >= b.severity() ==> a.priority() <= b.priority(),
        a.priority() == b.priority() <==> (a == b || (a.severity() <= 1 && b.severity() <= 1)),
        Level::Debug.priority() == Level::Trace.priority(),
{
}

} // verus!
