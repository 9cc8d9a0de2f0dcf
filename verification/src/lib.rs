//! A verified core for a journal-style log sink.
//!
//! The crate models the pure part of routing structured log records to an
//! operating system's journal facility: mapping application severities to
//! syslog priority codes, filtering by a configured threshold, formatting a
//! single output line, and building the byte fields handed across the native
//! boundary. Delivery itself (the foreign call, or printing to standard
//! output) is left to an unverified shell around this library.

pub mod journal;
pub mod level;
pub mod line;
pub mod record;
pub mod sink;

pub use journal::Descriptor;
pub use journal::FieldSet;
pub use journal::JournalEntry;
pub use level::Level;
pub use level::rust_log_level_to_syslog_rpiority;
pub use record::Record;
pub use sink::Backend;
pub use sink::InitError;
pub use sink::Logger;
pub use sink::Output;
pub use sink::SinkSlot;
