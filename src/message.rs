//! The event that the encoders render: one record with its metadata.

use vstd::prelude::*;
use vstd::string::*;

use crate::event::{additional_of, merged_entries, level_name, pairs_view, Level, target_of, AdditionalFields, Pair, Record};

verus! {

/// The name of a level as the JSON line carries it: its name in lower case.
pub open spec fn json_level(l: Level) -> Seq<char> {
    match l {
        Level::Critical => "critical"@,
        Level::Error => "error"@,
        Level::Warning => "warn"@,
        Level::Info => "info"@,
        Level::Debug => "debug"@,
        Level::Trace => "trace"@,
    }
}

/// An ASCII character in lower case: `A`..=`Z` become `a`..=`z`, others stay.
pub open spec fn ascii_lower(c: char) -> char {
    if 'A' <= c <= 'Z' {
        ((c as u32) + 32) as char
    } else {
        c
    }
}

/// The JSON name of a level is its upper-case name in lower case.
pub proof fn lemma_json_level_is_lower_case(l: Level)
    ensures
        json_level(l) == level_name(l).map_values(|c: char| ascii_lower(c)),
{
    reveal_strlit("CRITICAL");
    reveal_strlit("ERROR");
    reveal_strlit("WARN");
    reveal_strlit("INFO");
    reveal_strlit("DEBUG");
    reveal_strlit("TRACE");
    reveal_strlit("critical");
    reveal_strlit("error");
    reveal_strlit("warn");
    reveal_strlit("info");
    reveal_strlit("debug");
    reveal_strlit("trace");
    assert(level_name(l).map_values(|c: char| ascii_lower(c)) =~= json_level(l));
}

impl Level {
    /// The name of this level in a JSON line (`"info"`, `"warn"`, ...).
    pub fn json_name(&self) -> (r: &'static str)
        ensures
            r@ == json_level(*self),
    {
        match self {
            Level::Critical => "critical",
            Level::Error => "error",
            Level::Warning => "warn",
            Level::Info => "info",
            Level::Debug => "debug",
            Level::Trace => "trace",
        }
    }
}

/// The metadata of an event.
pub struct Fields {
    pub target: String,
    pub file: String,
    pub line: u32,
    pub additional: AdditionalFields,
}

impl Fields {
    /// The metadata of `record`, with the context pairs and then the call-site pairs
    /// merged into the additional fields.
    pub fn new(record: &Record, context: &Vec<Pair>, call_site: &Vec<Pair>) -> (r: Fields)
        ensures
            r.target@ == target_of(record.tag@, record.module@),
            r.file@ == record.file@,
            r.line == record.line,
            r.additional.wf(),
            r.additional@ == additional_of(pairs_view(context@), pairs_view(call_site@)),
            r.additional.entries() == merged_entries(pairs_view(context@), pairs_view(call_site@)),
    {
        Fields {
            target: String::from_str(record.target()),
            file: record.file.clone(),
            line: record.line,
            additional: AdditionalFields::merged(context, call_site),
        }
    }
}

/// One fully formed log event.
pub struct Message {
    pub timestamp: String,
    pub app: String,
    pub message: String,
    pub level: String,
    pub metadata: Fields,
}

impl Message {
    /// The event for `record`, emitted by `app` at `timestamp`.
    pub fn new(
        app: &str,
        timestamp: String,
        record: &Record,
        context: &Vec<Pair>,
        call_site: &Vec<Pair>,
    ) -> (r: Message)
        ensures
            r.timestamp@ == timestamp@,
            r.app@ == app@,
            r.message@ == record.message@,
            r.level@ == json_level(record.level),
            r.metadata.target@ == target_of(record.tag@, record.module@),
            r.metadata.file@ == record.file@,
            r.metadata.line == record.line,
            r.metadata.additional.wf(),
            r.metadata.additional@ == additional_of(pairs_view(context@), pairs_view(call_site@)),
            r.metadata.additional.entries() == merged_entries(
                pairs_view(context@),
                pairs_view(call_site@),
            ),
    {
        Message {
            timestamp,
            app: String::from_str(app),
            message: record.message.clone(),
            level: String::from_str(record.level.json_name()),
            metadata: Fields::new(record, context, call_site),
        }
    }
}

} // verus!
