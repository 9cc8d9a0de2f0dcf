//! Structured log events and their rendered output line.

use vstd::prelude::*;
use crate::level::Level;
use crate::line::{format_line, spec_format_line};

verus! {

/// One structured log event handed to the sink: severity, originating
/// source location, and message text. Location fields may be absent.
pub struct Record {
    pub level: Level,
    pub module: Option<String>,
    pub file: Option<String>,
    pub line: Option<u32>,
    pub message: String,
}

/// The text of an optional field; an absent field reads as empty.
pub open spec fn spec_or_empty(o: Option<String>) -> Seq<char> {
    match o {
        Some(s) => s@,
        None => Seq::empty(),
    }
}

/// The value of an optional line number; an absent number reads as zero.
pub open spec fn spec_or_zero(o: Option<u32>) -> u32 {
    match o {
        Some(n) => n,
        None => 0,
    }
}

fn str_or_empty(o: &Option<String>) -> (r: &str)
    ensures
        r@ == spec_or_empty(*o),
{
    match o {
        Some(s) => s.as_str(),
        None => {
            let r = "";
            proof {
                reveal_strlit("");
                assert(r@ =~= Seq::<char>::empty());
            }
            r
        },
    }
}

fn u32_or_zero(o: &Option<u32>) -> (r: u32)
    ensures
        r == spec_or_zero(*o),
{
    match o {
        Some(n) => *n,
        None => 0,
    }
}

impl Record {
    /// The one output line this event formats to.
    pub open spec fn spec_line(self) -> Seq<char> {
        spec_format_line(
            self.level,
            spec_or_empty(self.module),
            spec_or_empty(self.file),
            spec_or_zero(self.line),
            self.message@,
        )
    }

    /// Renders the event's output line, matching `spec_line`.
    pub fn render_line(&self) -> (r: String)
        ensures
            r@ == self.spec_line(),
    {
        format_line(
            self.level,
            str_or_empty(&self.module),
            str_or_empty(&self.file),
            u32_or_zero(&self.line),
            self.message.as_str(),
        )
    }
}

} // verus!
