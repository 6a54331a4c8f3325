//! The JSON encoder: one event as one JSON object on one line.

use vstd::prelude::*;
use vstd::string::*;

use crate::event::{merged_entries, pairs_view, target_of, Pair, Record};
use crate::message::{json_level, Message};
use crate::clock::{rfc3339_text, timestamp_rfc3339, TimeParts};
use crate::text::{decimal, digit_char, push_decimal};

verus! {

#[verifier::external_type_specification]
#[verifier::external_body]
pub struct ExJsonError(serde_json::Error);

/// The hexadecimal digit of `d`, in lower case.
pub open spec fn hex_char(d: nat) -> char {
    if d < 10 {
        digit_char(d)
    } else if d == 10 {
        'a'
    } else if d == 11 {
        'b'
    } else if d == 12 {
        'c'
    } else if d == 13 {
        'd'
    } else if d == 14 {
        'e'
    } else {
        'f'
    }
}

/// How one character stands inside a JSON string literal: `"` and `\` and the
/// control characters are escaped, every other character stands as it is.
pub open spec fn escaped_char(c: char) -> Seq<char> {
    if c == '"' {
        seq!['\\', '"']
    } else if c == '\\' {
        seq!['\\', '\\']
    } else if c == '\u{8}' {
        seq!['\\', 'b']
    } else if c == '\t' {
        seq!['\\', 't']
    } else if c == '\n' {
        seq!['\\', 'n']
    } else if c == '\u{c}' {
        seq!['\\', 'f']
    } else if c == '\r' {
        seq!['\\', 'r']
    } else if (c as u32) < 0x20 {
        seq!['\\', 'u', '0', '0', hex_char((c as u32 / 16) as nat), hex_char((c as u32 % 16) as nat)]
    } else {
        seq![c]
    }
}

/// The escaped characters of a string, in order.
pub open spec fn escaped(s: Seq<char>) -> Seq<char>
    decreases s.len(),
{
    if s.len() == 0 {
        Seq::empty()
    } else {
        escaped(s.drop_last()) + escaped_char(s.last())
    }
}

/// The JSON string literal of `s`: quotes around its escaped characters.
pub open spec fn json_quoted(s: Seq<char>) -> Seq<char> {
    seq!['"'] + escaped(s) + seq!['"']
}

/// Relies on `serde_json::to_string` on a `str`: it writes into a `Vec`, which
/// cannot fail, the string between quotes with `"`, `\\` and the characters below
/// U+0020 escaped (`\b \t \n \f \r`, else `\u00xx` in lower-case hex).
#[verifier::external_body]
fn to_json_string(s: &str) -> (r: Result<String, serde_json::Error>)
    ensures
        r is Ok,
        r matches Ok(t) ==> t@ == json_quoted(s@),
{
    serde_json::to_string(s)
}

/// Why an event could not be encoded.
#[derive(Debug, PartialEq, Eq, Structural)]
pub enum EncodeError {
    /// A value could not be serialised.
    Serialize,
}

/// Members `,"key":"value"`, already quoted, in order.
pub open spec fn members_text(members: Seq<(Seq<char>, Seq<char>)>) -> Seq<char>
    decreases members.len(),
{
    if members.len() == 0 {
        Seq::empty()
    } else {
        members_text(members.drop_last()) + ","@ + members.last().0 + ":"@ + members.last().1
    }
}

/// The layout of a JSON line from the JSON literals of its parts: the reserved
/// members in a fixed order, then the additional fields flattened into the same
/// object, then a newline.
pub open spec fn json_layout(
    timestamp: Seq<char>,
    app: Seq<char>,
    message: Seq<char>,
    level: Seq<char>,
    target: Seq<char>,
    file: Seq<char>,
    line: u32,
    members: Seq<(Seq<char>, Seq<char>)>,
) -> Seq<char> {
    "{\"timestamp\":"@ + timestamp + ",\"type\":"@ + app + ",\"message\":"@ + message
        + ",\"level\":"@ + level + ",\"target\":"@ + target + ",\"file\":"@ + file
        + ",\"line\":"@ + decimal(line as nat) + members_text(members) + "}\n"@
}

/// Each key and value as a JSON string literal.
pub open spec fn quoted_entries(entries: Seq<(Seq<char>, Seq<char>)>) -> Seq<
    (Seq<char>, Seq<char>),
> {
    entries.map_values(|e: (Seq<char>, Seq<char>)| (json_quoted(e.0), json_quoted(e.1)))
}

/// The JSON line of an event. An additional field named like a reserved member
/// follows it, so a reader that keeps the last of two equal keys sees the
/// caller's value.
pub open spec fn json_line(
    timestamp: Seq<char>,
    app: Seq<char>,
    message: Seq<char>,
    level: Seq<char>,
    target: Seq<char>,
    file: Seq<char>,
    line: u32,
    entries: Seq<(Seq<char>, Seq<char>)>,
) -> Seq<char> {
    json_layout(
        json_quoted(timestamp),
        json_quoted(app),
        json_quoted(message),
        json_quoted(level),
        json_quoted(target),
        json_quoted(file),
        line,
        quoted_entries(entries),
    )
}

/// The JSON line of `record` for the application `app` at `timestamp`.
pub open spec fn record_json_line(
    app: Seq<char>,
    timestamp: Seq<char>,
    record: Record,
    context: Seq<Pair>,
    call_site: Seq<Pair>,
) -> Seq<char> {
    json_line(
        timestamp,
        app,
        record.message@,
        json_level(record.level),
        target_of(record.tag@, record.module@),
        record.file@,
        record.line,
        merged_entries(pairs_view(context), pairs_view(call_site)),
    )
}

/// The JSON string literal of `s`.
fn quote(s: &str) -> (r: Result<String, EncodeError>)
    ensures
        r is Ok,
        r matches Ok(t) ==> t@ == json_quoted(s@),
{
    match to_json_string(s) {
        Ok(t) => Ok(t),
        Err(_) => Err(EncodeError::Serialize),
    }
}

/// Lays out a JSON line from the JSON literals of its parts.
pub fn layout_json_line(
    timestamp: &str,
    app: &str,
    message: &str,
    level: &str,
    target: &str,
    file: &str,
    line: u32,
    members: &Vec<Pair>,
) -> (r: String)
    ensures
        r@ == json_layout(
            timestamp@,
            app@,
            message@,
            level@,
            target@,
            file@,
            line,
            pairs_view(members@),
        ),
{
    let mut out = String::from_str("{\"timestamp\":");
    out.append(timestamp);
    out.append(",\"type\":");
    out.append(app);
    out.append(",\"message\":");
    out.append(message);
    out.append(",\"level\":");
    out.append(level);
    out.append(",\"target\":");
    out.append(target);
    out.append(",\"file\":");
    out.append(file);
    out.append(",\"line\":");
    push_decimal(&mut out, line);
    let ghost head = out@;
    let mut i: usize = 0;
    while i < members.len()
        invariant
            0 <= i <= members.len(),
            out@ == head + members_text(pairs_view(members@).take(i as int)),
        decreases members.len() - i,
    {
        out.append(",");
        out.append(members[i].0.as_str());
        out.append(":");
        out.append(members[i].1.as_str());
        proof {
            let ms = pairs_view(members@);
            assert(ms.take(i as int + 1).drop_last() =~= ms.take(i as int));
            assert(ms[i as int] == (members@[i as int].0@, members@[i as int].1@));
        }
        i = i + 1;
    }
    out.append("}\n");
    proof {
        assert(pairs_view(members@).take(members.len() as int) =~= pairs_view(members@));
    }
    out
}

impl Message {
    /// The event as one JSON line.
    pub fn to_json_line(&self) -> (r: Result<String, EncodeError>)
        ensures
            r is Ok,
            r matches Ok(t) ==> t@ == json_line(
                self.timestamp@,
                self.app@,
                self.message@,
                self.level@,
                self.metadata.target@,
                self.metadata.file@,
                self.metadata.line,
                self.metadata.additional.entries(),
            ),
    {
        let timestamp = match quote(self.timestamp.as_str()) {
            Ok(t) => t,
            Err(e) => return Err(e),
        };
        let app = match quote(self.app.as_str()) {
            Ok(t) => t,
            Err(e) => return Err(e),
        };
        let message = match quote(self.message.as_str()) {
            Ok(t) => t,
            Err(e) => return Err(e),
        };
        let level = match quote(self.level.as_str()) {
            Ok(t) => t,
            Err(e) => return Err(e),
        };
        let target = match quote(self.metadata.target.as_str()) {
            Ok(t) => t,
            Err(e) => return Err(e),
        };
        let file = match quote(self.metadata.file.as_str()) {
            Ok(t) => t,
            Err(e) => return Err(e),
        };
        let entries = &self.metadata.additional.0;
        let mut members: Vec<Pair> = Vec::new();
        let mut i: usize = 0;
        while i < entries.len()
            invariant
                0 <= i <= entries.len(),
                entries == &self.metadata.additional.0,
                pairs_view(members@) == quoted_entries(
                    self.metadata.additional.entries().take(i as int),
                ),
            decreases entries.len() - i,
        {
            let k = match quote(entries[i].0.as_str()) {
                Ok(t) => t,
                Err(e) => return Err(e),
            };
            let v = match quote(entries[i].1.as_str()) {
                Ok(t) => t,
                Err(e) => return Err(e),
            };
            let ghost before = members@;
            members.push((k, v));
            proof {
                let es = self.metadata.additional.entries();
                assert(es[i as int] == (entries@[i as int].0@, entries@[i as int].1@));
                assert(pairs_view(members@) =~= pairs_view(before).push(
                    (json_quoted(es[i as int].0), json_quoted(es[i as int].1)),
                ));
                assert(quoted_entries(es.take(i as int + 1)) =~= quoted_entries(
                    es.take(i as int),
                ).push((json_quoted(es[i as int].0), json_quoted(es[i as int].1))));
            }
            i = i + 1;
        }
        proof {
            assert(self.metadata.additional.entries().take(entries.len() as int)
                =~= self.metadata.additional.entries());
        }
        Ok(
            layout_json_line(
                timestamp.as_str(),
                app.as_str(),
                message.as_str(),
                level.as_str(),
                target.as_str(),
                file.as_str(),
                self.metadata.line,
                &members,
            ),
        )
    }
}

/// A drain that renders events as JSON lines for one application.
pub struct JsonDrain<W> {
    app: String,
    output: W,
}

impl<W> JsonDrain<W> {
    /// A drain for the application `app` that hands its lines to `d`.
    pub fn new(app: &str, d: W) -> (r: Self)
        ensures
            r.app()@ == app@,
            r.output() == d,
    {
        JsonDrain { app: String::from_str(app), output: d }
    }

    pub closed spec fn app(&self) -> String {
        self.app
    }

    pub closed spec fn output(&self) -> W {
        self.output
    }

    /// The application name, which the JSON line carries as `type`.
    pub fn app_name(&self) -> (r: &str)
        ensures
            r@ == self.app()@,
    {
        self.app.as_str()
    }

    /// The sink that the lines are for.
    pub fn writer(&self) -> (r: &W)
        ensures
            *r == self.output(),
    {
        &self.output
    }

    /// The JSON line of `record` at `timestamp`: the context pairs, then the
    /// call-site pairs, make its additional fields.
    pub fn encode(
        &self,
        timestamp: String,
        record: &Record,
        context: &Vec<Pair>,
        call_site: &Vec<Pair>,
    ) -> (r: Result<String, EncodeError>)
        ensures
            r is Ok,
            r matches Ok(t) ==> t@ == record_json_line(
                self.app()@,
                timestamp@,
                *record,
                context@,
                call_site@,
            ),
    {
        let m = Message::new(self.app.as_str(), timestamp, record, context, call_site);
        m.to_json_line()
    }

    /// The JSON line of `record` at the UTC time `now`.
    pub fn log(
        &self,
        now: &TimeParts,
        record: &Record,
        context: &Vec<Pair>,
        call_site: &Vec<Pair>,
    ) -> (r: Result<String, EncodeError>)
        requires
            now.wf(),
        ensures
            r is Ok,
            r matches Ok(t) ==> t@ == record_json_line(
                self.app()@,
                rfc3339_text(*now),
                *record,
                context@,
                call_site@,
            ),
    {
        self.encode(timestamp_rfc3339(now), record, context, call_site)
    }
}

} // verus!
