//! The two wire shapes handed to the native journal facility.
//!
//! The pre-joined shape is a pair of null-terminated `KEY=VALUE` texts.
//! The vectorized shape is an array of buffer descriptors, each describing
//! one `KEY=VALUE` field without a terminator; the fields live in an owned
//! set, and a descriptor only ever refers to a field of that set, so the
//! memory it describes cannot be freed before the native call consumes it.

use vstd::prelude::*;
use crate::level::{rust_log_level_to_syslog_rpiority, Level};
use crate::line::{spec_decimal, u32_decimal};

verus! {

/// The pre-joined wire shape: two null-terminated field texts.
pub struct JournalEntry {
    pub priority_field: String,
    pub message_field: String,
}

/// The null-terminated priority field of the pre-joined shape.
pub open spec fn spec_priority_field(level: Level) -> Seq<char> {
    "PRIORITY="@ + spec_decimal(level.priority() as nat) + "\u{0}"@
}

/// The null-terminated message field of the pre-joined shape.
pub open spec fn spec_message_field(line: Seq<char>) -> Seq<char> {
    "MESSAGE="@ + line + "\u{0}"@
}

/// Builds the pre-joined entry for one formatted line.
pub fn journal_send_entry(level: Level, line: &str) -> (e: JournalEntry)
    ensures
        e.priority_field@ == spec_priority_field(level),
        e.message_field@ == spec_message_field(line@),
{
    let p = rust_log_level_to_syslog_rpiority(level);
    let mut pf = "PRIORITY=".to_owned();
    let num = u32_decimal(p as u32);
    pf.append(num.as_str());
    pf.append("\u{0}");
    let mut mf = "MESSAGE=".to_owned();
    mf.append(line);
    mf.append("\u{0}");
    proof {
        assert(pf@ =~= spec_priority_field(level));
        assert(mf@ =~= spec_message_field(line@));
    }
    JournalEntry { priority_field: pf, message_field: mf }
}

/// A buffer descriptor of the vectorized wire shape: it stands for a
/// (pointer, length) pair, given here as the index of the owned field it
/// points into and the length of that field.
#[derive(Clone, Copy, PartialEq, Eq, Structural, Debug)]
pub struct Descriptor {
    pub index: usize,
    pub len: usize,
}

impl Descriptor {
    /// A descriptor is valid for a set of fields when it refers to one of
    /// them and carries exactly that field's length.
    pub open spec fn valid_for(self, fields: Seq<Seq<char>>) -> bool {
        self.index < fields.len() && self.len == fields[self.index as int].len()
    }
}

/// An owned set of `KEY=VALUE` journal fields: the backing storage of the
/// vectorized wire shape. Descriptors are handed out only against fields
/// owned by the set, never against temporaries.
pub struct FieldSet {
    fields: Vec<String>,
}

impl View for FieldSet {
    type V = Seq<Seq<char>>;

    closed spec fn view(&self) -> Seq<Seq<char>> {
        self.fields@.map_values(|s: String| s@)
    }
}

impl FieldSet {
    /// An empty field set.
    pub fn new() -> (r: FieldSet)
        ensures
            r@ == Seq::<Seq<char>>::empty(),
    {
        let r = FieldSet { fields: Vec::new() };
        proof {
            assert(r@ =~= Seq::<Seq<char>>::empty());
        }
        r
    }

    /// How many fields the set owns.
    pub fn len(&self) -> (n: usize)
        ensures
            n == self@.len(),
    {
        self.fields.len()
    }

    /// Appends the field `key=value`, owned by the set from then on.
    pub fn push_field(&mut self, key: &str, value: &str)
        ensures
            final(self)@ == old(self)@.push(key@ + "="@ + value@),
    {
        let mut f = key.to_owned();
        f.append("=");
        f.append(value);
        self.fields.push(f);
        proof {
            assert(self@ =~= old(self)@.push(key@ + "="@ + value@));
        }
    }

    /// The text of the field at `i`, when there is one.
    pub fn field_at(&self, i: usize) -> (r: Option<&str>)
        ensures
            i < self@.len() ==> (r matches Some(s) && s@ == self@[i as int]),
            i >= self@.len() ==> r is None,
    {
        if i < self.fields.len() {
            Some(self.fields[i].as_str())
        } else {
            None
        }
    }

    /// One descriptor per owned field, in order. Every descriptor handed
    /// out is valid for the set: it refers to a field the set owns and
    /// carries that field's length, so it can never describe memory that
    /// was freed before the native call runs.
    pub fn descriptors(&self) -> (ds: Vec<Descriptor>)
        ensures
            ds@.len() == self@.len(),
            forall|i: int|
                #![trigger ds@[i]]
                0 <= i < ds@.len() ==> ds@[i].index == i && ds@[i].valid_for(self@),
    {
        let n = self.fields.len();
        let mut ds: Vec<Descriptor> = Vec::new();
        let mut i: usize = 0;
        while i < n
            invariant
                n == self@.len(),
                n == self.fields@.len(),
                i <= n,
                ds@.len() == i,
                forall|j: int|
                    #![trigger ds@[j]]
                    0 <= j < i ==> ds@[j].index == j && ds@[j].valid_for(self@),
            decreases n - i,
        {
            let len = self.fields[i].as_str().unicode_len();
            ds.push(Descriptor { index: i, len });
            proof {
                assert(self@[i as int] == self.fields@[i as int]@);
                assert(ds@[i as int].valid_for(self@));
            }
            i = i + 1;
        }
        ds
    }

    /// Resolves a descriptor back to the field text it describes; a
    /// descriptor that is not valid for this set resolves to nothing.
    pub fn resolve(&self, d: Descriptor) -> (r: Option<&str>)
        ensures
            d.valid_for(self@) ==> (r matches Some(s) && s@ == self@[d.index as int]),
            !d.valid_for(self@) ==> r is None,
    {
        if d.index < self.fields.len() {
            let s = self.fields[d.index].as_str();
            if s.unicode_len() == d.len {
                Some(s)
            } else {
                None
            }
        } else {
            None
        }
    }
}

/// The two standard fields of the vectorized shape for one formatted
/// line: `PRIORITY=<code>` and `MESSAGE=<line>`, owned by the set.
pub fn journal_fields(level: Level, line: &str) -> (fs: FieldSet)
    ensures
        fs@.len() == 2,
        fs@[0] == "PRIORITY"@ + "="@ + spec_decimal(level.priority() as nat),
        fs@[1] == "MESSAGE"@ + "="@ + line@,
{
    let p = rust_log_level_to_syslog_rpiority(level);
    let num = u32_decimal(p as u32);
    let mut fs = FieldSet::new();
    fs.push_field("PRIORITY", num.as_str());
    fs.push_field("MESSAGE", line);
    fs
}

} // verus!
