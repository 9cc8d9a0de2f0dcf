//! The log sink: threshold filtering, backend selection, and the
//! set-once installation slot.

use vstd::prelude::*;
use crate::journal::{journal_send_entry, spec_message_field, spec_priority_field, JournalEntry};
use crate::level::Level;
use crate::record::Record;

verus! {

/// Where formatted events are delivered: the native journal facility, or
/// standard output on platforms without it.
#[derive(Clone, Copy, PartialEq, Eq, Structural, Debug)]
pub enum Backend {
    Journal,
    Console,
}

/// What one log call produces: nothing when the event is below the
/// threshold, otherwise exactly one delivery for the configured backend.
pub enum Output {
    /// The pre-joined entry handed to the native journal call.
    Journal(JournalEntry),
    /// The one line written to standard output.
    Console(String),
}

/// The log sink adapter: an optional minimum severity and a backend.
#[derive(Clone, Copy, Debug)]
pub struct Logger {
    pub threshold: Option<Level>,
    pub backend: Backend,
}

/// Failure of a sink installation attempt.
#[derive(Clone, Copy, PartialEq, Eq, Structural, Debug)]
pub enum InitError {
    /// A sink was already installed; the slot is set exactly once.
    AlreadyInstalled,
}

/// The process-wide slot the active sink is installed into: empty until
/// one installation wins, then read-only.
pub struct SinkSlot {
    sink: Option<Logger>,
}

impl SinkSlot {
    /// The installed sink, if any.
    pub closed spec fn spec_sink(self) -> Option<Logger> {
        self.sink
    }

    /// Whether a sink has been installed.
    pub open spec fn spec_installed(self) -> bool {
        self.spec_sink() is Some
    }

    /// A fresh, uninstalled slot.
    pub fn new() -> (s: SinkSlot)
        ensures
            !s.spec_installed(),
    {
        SinkSlot { sink: None }
    }

    /// Whether a sink has been installed, matching `spec_installed`.
    pub fn installed(&self) -> (r: bool)
        ensures
            r == self.spec_installed(),
    {
        self.sink.is_some()
    }

    /// The installed sink, matching `spec_sink`.
    pub fn active(&self) -> (r: &Option<Logger>)
        ensures
            *r == self.spec_sink(),
    {
        &self.sink
    }
}

impl Logger {
    /// A sink with the given minimum severity (none meaning everything
    /// passes) and backend.
    pub fn new(threshold: Option<Level>, backend: Backend) -> (l: Logger)
        ensures
            l.threshold == threshold,
            l.backend == backend,
    {
        Logger { threshold, backend }
    }

    /// Whether an event of this severity passes the threshold: it does
    /// when no threshold is configured, or when it is at least as severe
    /// as the threshold.
    pub open spec fn spec_enabled(self, level: Level) -> bool {
        match self.threshold {
            None => true,
            Some(t) => level.severity() >= t.severity(),
        }
    }

    /// Threshold check, matching `spec_enabled`.
    pub fn enabled(&self, level: Level) -> (r: bool)
        ensures
            r == self.spec_enabled(level),
    {
        match self.threshold {
            None => true,
            Some(t) => level.severity_rank() >= t.severity_rank(),
        }
    }

    /// Installs this sink into the slot. The first installation wins and
    /// makes the sink active; every later attempt fails and leaves the
    /// slot unchanged.
    pub fn init(self, slot: &mut SinkSlot) -> (r: Result<(), InitError>)
        ensures
            !old(slot).spec_installed() ==> r is Ok && final(slot).spec_sink() == Some(self),
            old(slot).spec_installed() ==> r == Result::<(), InitError>::Err(
                InitError::AlreadyInstalled,
            ) && *final(slot) == *old(slot),
    {
        if slot.installed() {
            Err(InitError::AlreadyInstalled)
        } else {
            slot.sink = Some(self);
            Ok(())
        }
    }

    /// Handles one log call. An event below the threshold produces no
    /// output at all; an event at or above it produces exactly one
    /// delivery: the pre-joined journal entry for its formatted line on
    /// the journal backend, the formatted line itself on the console
    /// backend.
    pub fn log(&self, record: &Record) -> (out: Option<Output>)
        ensures
            !self.spec_enabled(record.level) ==> out is None,
            self.spec_enabled(record.level) && self.backend is Journal ==> (out matches Some(
                Output::Journal(e),
            ) && e.priority_field@ == spec_priority_field(record.level) && e.message_field@
                == spec_message_field(record.spec_line())),
            self.spec_enabled(record.level) && self.backend is Console ==> (out matches Some(
                Output::Console(l),
            ) && l@ == record.spec_line()),
    {
        if !self.enabled(record.level) {
            return None;
        }
        let line = record.render_line();
        match self.backend {
            Backend::Journal => Some(Output::Journal(journal_send_entry(record.level, line.as_str()))),
            Backend::Console => Some(Output::Console(line)),
        }
    }

    /// Delivery is synchronous and unbuffered; there is nothing to flush.
    pub fn flush(&self) {
    }
}

} // verus!
