//! The terminal encoder's header: timestamp, `[target:line]`, `[LEVEL]` and message,
//! each segment tagged with the role that decides its colour.

use vstd::prelude::*;
use vstd::string::*;

use crate::event::{level_name, target_of, Record};
use crate::clock::{local_text, timestamp_local, TimeParts};
use crate::text::{decimal, push_decimal};

verus! {

/// The role of a segment of a terminal line, which picks its colour.
#[derive(Clone, Copy, Debug, PartialEq, Eq, Structural)]
pub enum Role {
    Timestamp,
    Whitespace,
    Level,
    Message,
}

/// A piece of a terminal line with its role.
pub struct Segment {
    pub role: Role,
    pub text: String,
}

/// The text view of segments.
pub open spec fn segments_view(s: Seq<Segment>) -> Seq<(Role, Seq<char>)> {
    s.map_values(|g: Segment| (g.role, g.text@))
}

/// `[target:line]`
pub open spec fn location_text(target: Seq<char>, line: u32) -> Seq<char> {
    "["@ + target + ":"@ + decimal(line as nat) + "]"@
}

/// `[LEVEL]`
pub open spec fn level_text(name: Seq<char>) -> Seq<char> {
    "["@ + name + "]"@
}

/// The header of a terminal line for `record` at `timestamp`.
pub open spec fn header_segments(timestamp: Seq<char>, record: Record) -> Seq<(Role, Seq<char>)> {
    seq![
        (Role::Timestamp, timestamp),
        (Role::Whitespace, " "@),
        (Role::Whitespace, location_text(target_of(record.tag@, record.module@), record.line)),
        (Role::Level, level_text(level_name(record.level))),
        (Role::Whitespace, " "@),
        (Role::Message, record.message@),
    ]
}

fn segment(role: Role, text: String) -> (r: Segment)
    ensures
        r.role == role,
        r.text@ == text@,
{
    Segment { role, text }
}

/// The header segments of `record` at `timestamp`, and whether the message
/// is non-empty, which is when a key-value list after it needs a leading separator.
pub fn print_msg_header(timestamp: &str, record: &Record) -> (r: (Vec<Segment>, bool))
    ensures
        segments_view(r.0@) == header_segments(timestamp@, *record),
        r.1 == (record.message@.len() > 0),
{
    let mut location = String::from_str("[");
    location.append(record.target());
    location.append(":");
    push_decimal(&mut location, record.line);
    location.append("]");
    let mut level = String::from_str("[");
    level.append(record.level.as_str());
    level.append("]");
    let mut v: Vec<Segment> = Vec::new();
    v.push(segment(Role::Timestamp, String::from_str(timestamp)));
    v.push(segment(Role::Whitespace, String::from_str(" ")));
    v.push(segment(Role::Whitespace, location));
    v.push(segment(Role::Level, level));
    v.push(segment(Role::Whitespace, String::from_str(" ")));
    v.push(segment(Role::Message, record.message.clone()));
    assert(segments_view(v@) =~= header_segments(timestamp@, *record));
    let comma_needed = !record.message.as_str().is_empty();
    (v, comma_needed)
}

/// A terminal drain for one application over the decorator `D`.
pub struct CustomFormat<D> {
    app: String,
    decorator: D,
    use_original_order: bool,
}

impl<D> CustomFormat<D> {
    /// A terminal drain for `app` writing through `d`, with key-value pairs in the
    /// decorator's default order.
    pub fn new(app: &str, d: D) -> (r: Self)
        ensures
            r.app()@ == app@,
            r.decorator() == d,
            !r.use_original_order(),
    {
        CustomFormat { app: String::from_str(app), decorator: d, use_original_order: false }
    }

    pub closed spec fn app(&self) -> String {
        self.app
    }

    pub closed spec fn decorator(&self) -> D {
        self.decorator
    }

    pub closed spec fn use_original_order(&self) -> bool {
        self.use_original_order
    }

    /// The application name.
    pub fn app_name(&self) -> (r: &str)
        ensures
            r@ == self.app()@,
    {
        self.app.as_str()
    }

    /// The decorator that the lines are written through.
    pub fn get_decorator(&self) -> (r: &D)
        ensures
            *r == self.decorator(),
    {
        &self.decorator
    }

    /// Whether key-value pairs keep the order in which they were given.
    pub fn original_order(&self) -> (r: bool)
        ensures
            r == self.use_original_order(),
    {
        self.use_original_order
    }

    /// The header of `record` at the local time `now`, and whether a key-value
    /// list after it needs a leading separator.
    pub fn header(&self, now: &TimeParts, record: &Record) -> (r: (Vec<Segment>, bool))
        requires
            now.wf(),
        ensures
            segments_view(r.0@) == header_segments(local_text(*now), *record),
            r.1 == (record.message@.len() > 0),
    {
        let ts = timestamp_local(now);
        print_msg_header(ts.as_str(), record)
    }
}

} // verus!
