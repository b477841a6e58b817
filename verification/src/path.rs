//! The CalDAV path resolver: from a request path to the calendar and the
//! event that it names.
//!
//! A path has the form `/calendars/{calendar}` or
//! `/calendars/{calendar}/{event}.ics`. One leading slash is dropped and the
//! rest is cut at every slash. The second segment names the calendar, the
//! third is the event's file name.

use crate::error::AppError;
use crate::error::ErrorView;
use crate::ident::parsed_uuid;
use crate::ident::Id;
use crate::text::chars_of;
use crate::text::ends_with;
use crate::text::has_suffix;
use crate::text::split;
use crate::text::split_chars;
use crate::text::string_of;
use vstd::prelude::*;

verus! {

/// The path without its one leading slash, if it has one.
pub open spec fn without_leading_slash(path: Seq<char>) -> Seq<char> {
    if path.len() > 0 && path[0] == '/' {
        path.skip(1)
    } else {
        path
    }
}

/// The segments of a request path.
pub open spec fn segments(path: Seq<char>) -> Seq<Seq<char>> {
    split(without_leading_slash(path), '/')
}

/// Whether the segments name a whole calendar: there is no third segment, or
/// it is empty.
pub open spec fn names_collection(segs: Seq<Seq<char>>) -> bool {
    segs.len() < 3 || segs[2].len() == 0
}

/// An event's file name without its `.ics` suffix, if it has one.
pub open spec fn event_name(file: Seq<char>) -> Seq<char> {
    if has_suffix(file, ".ics"@) {
        file.take(file.len() - ".ics"@.len())
    } else {
        file
    }
}

/// The view of an identifier that was read, or of the error.
pub open spec fn id_outcome(r: Result<Id, AppError>) -> Result<Id, ErrorView> {
    match r {
        Ok(id) => Ok(id),
        Err(e) => Err(e@),
    }
}

/// The identifier that a segment names; an identifier-format error if it names none.
pub open spec fn id_named(segment: Seq<char>) -> Result<Id, ErrorView> {
    match parsed_uuid(segment) {
        Some(v) => Ok(Id { value: v }),
        None => Err(ErrorView::Uuid),
    }
}

/// The segment that names the calendar: the second. A path of fewer than two
/// segments is invalid.
pub open spec fn calendar_segment_of(segs: Seq<Seq<char>>) -> Result<Seq<char>, ErrorView> {
    if segs.len() < 2 {
        Err(ErrorView::Validation("Invalid calendar path"@))
    } else {
        Ok(segs[1])
    }
}

/// The segment that names the event: the third. A path of fewer than three
/// segments is invalid.
pub open spec fn event_segment_of(segs: Seq<Seq<char>>) -> Result<Seq<char>, ErrorView> {
    if segs.len() < 3 {
        Err(ErrorView::Validation("Invalid event path"@))
    } else {
        Ok(segs[2])
    }
}

/// The view of a segment that was picked, or of the error.
pub open spec fn segment_outcome(r: Result<&str, AppError>) -> Result<Seq<char>, ErrorView> {
    match r {
        Ok(s) => Ok(s@),
        Err(e) => Err(e@),
    }
}

/// Cuts a request path into its segments.
pub fn path_segments(path: &str) -> (segs: Vec<String>)
    ensures
        segs.deep_view() == segments(path@),
        segs.len() >= 1,
{
    let chars = chars_of(path);
    let rest = if chars.len() > 0 && chars[0] == '/' {
        vstd::slice::slice_subrange(chars.as_slice(), 1, chars.len())
    } else {
        chars.as_slice()
    };
    let pieces = split_chars(rest, '/');
    let mut segs: Vec<String> = Vec::new();
    let mut i: usize = 0;
    while i < pieces.len()
        invariant
            i <= pieces.len(),
            segs.len() == i,
            forall|k: int| 0 <= k < i ==> segs@[k]@ == pieces@[k]@,
        decreases pieces.len() - i,
    {
        segs.push(string_of(pieces[i].as_slice()));
        i += 1;
    }
    assert(segs.deep_view() == pieces.deep_view()) by {
        assert forall|k: int| 0 <= k < segs.len() implies segs.deep_view()[k]
            == pieces.deep_view()[k] by {}
    }
    segs
}

/// The segment that names the calendar.
pub fn calendar_segment(segs: &Vec<String>) -> (r: Result<&str, AppError>)
    ensures
        segment_outcome(r) == calendar_segment_of(segs.deep_view()),
{
    if segs.len() < 2 {
        Err(AppError::ValidationError("Invalid calendar path".to_owned()))
    } else {
        Ok(segs[1].as_str())
    }
}

/// The segment that names the event.
pub fn event_segment(segs: &Vec<String>) -> (r: Result<&str, AppError>)
    ensures
        segment_outcome(r) == event_segment_of(segs.deep_view()),
{
    if segs.len() < 3 {
        Err(AppError::ValidationError("Invalid event path".to_owned()))
    } else {
        Ok(segs[2].as_str())
    }
}

/// Whether the segments name a whole calendar rather than one event.
pub fn is_collection(segs: &Vec<String>) -> (b: bool)
    ensures
        b == names_collection(segs.deep_view()),
{
    if segs.len() < 3 {
        true
    } else {
        segs[2].as_str().is_empty()
    }
}

/// An event's file name without its `.ics` suffix.
pub fn strip_ics(file: &str) -> (name: String)
    ensures
        name@ == event_name(file@),
{
    let chars = chars_of(file);
    let suffix = chars_of(".ics");
    if ends_with(chars.as_slice(), suffix.as_slice()) {
        string_of(vstd::slice::slice_subrange(chars.as_slice(), 0, chars.len() - suffix.len()))
    } else {
        string_of(chars.as_slice())
    }
}

/// Turns what the identifier parser returned into the resolver's own result:
/// a text that is no identifier gives an identifier-format error.
pub fn id_or_error(parsed: Result<Id, uuid::Error>) -> (r: Result<Id, AppError>)
    ensures
        match parsed {
            Ok(id) => r == Ok::<Id, AppError>(id),
            Err(_) => r is Err && r->Err_0@ == ErrorView::Uuid,
        },
{
    match parsed {
        Ok(id) => Ok(id),
        Err(e) => Err(AppError::UuidError(e)),
    }
}

/// Reads the identifier that a segment names.
pub fn parse_id(segment: &str) -> (r: Result<Id, AppError>)
    ensures
        id_outcome(r) == id_named(segment@),
{
    id_or_error(Id::parse_str(segment))
}

/// Reads the identifier of an event from its file name.
pub fn event_id(file: &str) -> (r: Result<Id, AppError>)
    ensures
        id_outcome(r) == id_named(event_name(file@)),
{
    let name = strip_ics(file);
    parse_id(name.as_str())
}

/// What a request path names: a calendar, and an event of it where the
/// path goes on to one.
#[derive(Clone, Copy, Debug, PartialEq, Eq, Structural)]
pub struct ResourcePath {
    pub calendar_id: Id,
    pub event_id: Option<Id>,
}

/// The view of a path that was resolved, or of the error.
pub open spec fn path_outcome(r: Result<ResourcePath, AppError>) -> Result<ResourcePath, ErrorView> {
    match r {
        Ok(p) => Ok(p),
        Err(e) => Err(e@),
    }
}

/// The resource path that two readings make: the calendar's identifier and,
/// where the path names an event, the event's. The calendar's is looked at first.
pub open spec fn path_of(
    calendar: Result<Id, ErrorView>,
    event: Option<Result<Id, ErrorView>>,
) -> Result<ResourcePath, ErrorView> {
    match calendar {
        Err(e) => Err(e),
        Ok(calendar_id) => match event {
            None => Ok(ResourcePath { calendar_id, event_id: None }),
            Some(Ok(event_id)) => Ok(ResourcePath { calendar_id, event_id: Some(event_id) }),
            Some(Err(e)) => Err(e),
        },
    }
}

/// What a request path resolves to. The path needs two segments, and the
/// second must name a calendar. Without a third segment, or with an empty
/// one, the path names the whole calendar; otherwise the third, without its
/// `.ics` suffix, must name an event.
pub open spec fn resolved(path: Seq<char>) -> Result<ResourcePath, ErrorView> {
    let segs = segments(path);
    match calendar_segment_of(segs) {
        Err(e) => Err(e),
        Ok(segment) => path_of(
            id_named(segment),
            if names_collection(segs) {
                None
            } else {
                Some(id_named(event_name(segs[2])))
            },
        ),
    }
}

/// The view of an optional reading of an identifier.
pub open spec fn reading_view(r: Option<Result<Id, AppError>>) -> Option<Result<Id, ErrorView>> {
    match r {
        Some(r) => Some(id_outcome(r)),
        None => None,
    }
}

/// Makes a resource path of what the two segments were read as.
pub fn path_from(calendar: Result<Id, AppError>, event: Option<Result<Id, AppError>>) -> (r: Result<
    ResourcePath,
    AppError,
>)
    ensures
        path_outcome(r) == path_of(id_outcome(calendar), reading_view(event)),
{
    let calendar_id = match calendar {
        Ok(id) => id,
        Err(e) => {
            return Err(e);
        },
    };
    match event {
        None => Ok(ResourcePath { calendar_id, event_id: None }),
        Some(Ok(event_id)) => Ok(ResourcePath { calendar_id, event_id: Some(event_id) }),
        Some(Err(e)) => Err(e),
    }
}

/// Resolves a request path to the calendar and the event that it names.
pub fn resolve(path: &str) -> (r: Result<ResourcePath, AppError>)
    ensures
        path_outcome(r) == resolved(path@),
{
    let segs = path_segments(path);
    let calendar = match calendar_segment(&segs) {
        Ok(segment) => parse_id(segment),
        Err(e) => {
            return Err(e);
        },
    };
    let event = if is_collection(&segs) {
        None
    } else {
        Some(event_id(segs[2].as_str()))
    };
    path_from(calendar, event)
}

} // verus!
