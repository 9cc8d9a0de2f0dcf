//! Building the single output line of a log event.
//!
//! The line has the shape `LEVEL[module,file:line] message`, where the
//! level tag is padded to five characters and the file path is cut down to
//! its trailing characters when it is too long.

use vstd::prelude::*;
use crate::level::Level;

verus! {

/// How many trailing characters of the source file path are kept.
pub const FILE_SUFFIX_LEN: usize = 30;

/// The character for a single decimal digit.
pub open spec fn spec_digit(d: nat) -> char {
    if d == 0 {
        '0'
    } else if d == 1 {
        '1'
    } else if d == 2 {
        '2'
    } else if d == 3 {
        '3'
    } else if d == 4 {
        '4'
    } else if d == 5 {
        '5'
    } else if d == 6 {
        '6'
    } else if d == 7 {
        '7'
    } else if d == 8 {
        '8'
    } else {
        '9'
    }
}

/// The decimal rendering of a natural number, most significant digit
/// first, with no leading zeros (zero itself renders as "0").
pub open spec fn spec_decimal(n: nat) -> Seq<char>
    decreases n,
{
    if n < 10 {
        seq![spec_digit(n)]
    } else {
        spec_decimal(n / 10) + seq![spec_digit(n % 10)]
    }
}

/// The trailing suffix of a sequence: the whole sequence when it has at
/// most `n` elements, otherwise exactly its last `n` elements.
pub open spec fn spec_tail(s: Seq<char>, n: nat) -> Seq<char> {
    if s.len() <= n {
        s
    } else {
        s.subrange(s.len() - n, s.len() as int)
    }
}

fn digit_str(d: u32) -> (r: &'static str)
    requires
        d < 10,
    ensures
        r@ == seq![spec_digit(d as nat)],
{
    proof {
        reveal_strlit("0");
        reveal_strlit("1");
        reveal_strlit("2");
        reveal_strlit("3");
        reveal_strlit("4");
        reveal_strlit("5");
        reveal_strlit("6");
        reveal_strlit("7");
        reveal_strlit("8");
        reveal_strlit("9");
    }
    let r: &'static str = if d == 0 {
        "0"
    } else if d == 1 {
        "1"
    } else if d == 2 {
        "2"
    } else if d == 3 {
        "3"
    } else if d == 4 {
        "4"
    } else if d == 5 {
        "5"
    } else if d == 6 {
        "6"
    } else if d == 7 {
        "7"
    } else if d == 8 {
        "8"
    } else {
        "9"
    };
    proof {
        assert(r@ =~= seq![spec_digit(d as nat)]);
    }
    r
}

/// Renders a number in decimal, matching `spec_decimal`.
pub fn u32_decimal(n: u32) -> (r: String)
    ensures
        r@ == spec_decimal(n as nat),
    decreases n,
{
    if n < 10 {
        digit_str(n).to_owned()
    } else {
        let mut r = u32_decimal(n / 10);
        r.append(digit_str(n % 10));
        proof {
            assert(r@ =~= spec_decimal(n as nat));
        }
        r
    }
}

/// The trailing `n` characters of a string; the whole string when it is
/// no longer than `n` characters.
pub fn tail_chars(s: &str, n: usize) -> (r: &str)
    ensures
        r@ == spec_tail(s@, n as nat),
        s@.len() <= n ==> r@ == s@,
        s@.len() > n ==> r@ == s@.subrange(s@.len() - n, s@.len() as int),
{
    let len = s.unicode_len();
    if len <= n {
        s
    } else {
        s.substring_char(len - n, len)
    }
}

impl Level {
    /// The five-character tag of a severity, as it appears at the head of
    /// an output line: the severity's name padded with spaces to width 5.
    pub open spec fn spec_tag(self) -> Seq<char> {
        match self {
            Level::Error => "ERROR"@,
            Level::Warn => "WARN "@,
            Level::Info => "INFO "@,
            Level::Debug => "DEBUG"@,
            Level::Trace => "TRACE"@,
        }
    }

    /// Executable level tag, equal to `spec_tag`.
    pub fn tag(self) -> (r: &'static str)
        ensures
            r@ == self.spec_tag(),
    {
        match self {
            Level::Error => "ERROR",
            Level::Warn => "WARN ",
            Level::Info => "INFO ",
            Level::Debug => "DEBUG",
            Level::Trace => "TRACE",
        }
    }
}

/// Every level tag is exactly five characters wide.
pub proof fn lemma_tag_width(l: Level)
    ensures
        l.spec_tag().len() == 5,
{
    reveal_strlit("ERROR");
    reveal_strlit("WARN ");
    reveal_strlit("INFO ");
    reveal_strlit("DEBUG");
    reveal_strlit("TRACE");
}

/// The one output line of a log event: the padded level tag, then the
/// module path, the trailing suffix of the file path and the line number
/// in brackets, then the message.
pub open spec fn spec_format_line(
    level: Level,
    module: Seq<char>,
    file: Seq<char>,
    line: u32,
    msg: Seq<char>,
) -> Seq<char> {
    level.spec_tag() + "["@ + module + ","@ + spec_tail(file, FILE_SUFFIX_LEN as nat) + ":"@
        + spec_decimal(line as nat) + "] "@ + msg
}

/// Builds the output line of a log event, matching `spec_format_line`.
pub fn format_line(level: Level, module: &str, file: &str, line: u32, msg: &str) -> (r: String)
    ensures
        r@ == spec_format_line(level, module@, file@, line, msg@),
{
    let mut out = String::new();
    out.append(level.tag());
    out.append("[");
    out.append(module);
    out.append(",");
    out.append(tail_chars(file, FILE_SUFFIX_LEN));
    out.append(":");
    let num = u32_decimal(line);
    out.append(num.as_str());
    out.append("] ");
    out.append(msg);
    proof {
        assert(out@ =~= spec_format_line(level, module@, file@, line, msg@));
    }
    out
}

} // verus!
