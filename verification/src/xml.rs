//! The XML multistatus builder: WebDAV `207 Multi-Status` bodies.
//!
//! A body is fixed markup around a few values. Every text value that goes
//! into an element is escaped for XML first.

use crate::ical::vevent_text;
use crate::ical::ical_event_of;
use crate::ical::ICalendarEvent;
use crate::ident::uuid_text;
use crate::models::Calendar;
use crate::models::CalendarView;
use crate::models::Event;
use crate::models::EventView;
use crate::text::expand;
use vstd::prelude::*;
use vstd::string::StringExecFns;

verus! {

/// Opens a multistatus document.
pub const MULTISTATUS_OPEN: &'static str =
    "<?xml version=\"1.0\" encoding=\"utf-8\"?>\n<d:multistatus xmlns:d=\"DAV:\" xmlns:cal=\"urn:ietf:params:xml:ns:caldav\">\n    ";

/// Closes a multistatus document.
pub const MULTISTATUS_CLOSE: &'static str = "\n</d:multistatus>";

/// A calendar's response block, up to its href.
pub const COLLECTION_OPEN: &'static str = "<d:response>\n                <d:href>";

/// A calendar's response block, between its href and its display name.
pub const COLLECTION_MIDDLE: &'static str =
    "</d:href>\n                <d:propstat>\n                    <d:prop>\n                        <d:resourcetype>\n                            <d:collection/>\n                            <cal:calendar/>\n                        </d:resourcetype>\n                        <d:displayname>";

/// A calendar's response block, after its display name.
pub const COLLECTION_CLOSE: &'static str =
    "</d:displayname>\n                        <cal:supported-calendar-component-set>\n                            <cal:comp name=\"VEVENT\"/>\n                            <cal:comp name=\"VTODO\"/>\n                        </cal:supported-calendar-component-set>\n                    </d:prop>\n                    <d:status>HTTP/1.1 200 OK</d:status>\n                </d:propstat>\n            </d:response>";

/// An event's response block, up to its href.
pub const RESOURCE_OPEN: &'static str = "<d:response>\n                    <d:href>";

/// An event's response block, between its href and its entity tag.
pub const RESOURCE_TAG: &'static str =
    "</d:href>\n                    <d:propstat>\n                        <d:prop>\n                            <d:getetag>\"";

/// An event's response block, between its entity tag and its calendar data.
pub const RESOURCE_DATA: &'static str =
    "\"</d:getetag>\n                            <cal:calendar-data>";

/// An event's response block, after its calendar data.
pub const RESOURCE_CLOSE: &'static str =
    "</cal:calendar-data>\n                        </d:prop>\n                        <d:status>HTTP/1.1 200 OK</d:status>\n                    </d:propstat>\n                </d:response>";

/// How one character of a text value is written in XML: the five special
/// characters become entities, every other character stands for itself.
pub open spec fn xml_escaped_char(c: char) -> Seq<char> {
    if c == '&' {
        "&amp;"@
    } else if c == '<' {
        "&lt;"@
    } else if c == '>' {
        "&gt;"@
    } else if c == '"' {
        "&quot;"@
    } else if c == '\'' {
        "&apos;"@
    } else {
        seq![c]
    }
}

/// A text value as it is written into an element.
pub open spec fn xml_escaped(s: Seq<char>) -> Seq<char> {
    expand(s, |c: char| xml_escaped_char(c))
}

/// The path of a calendar collection.
pub open spec fn calendar_href(calendar: crate::ident::Id) -> Seq<char> {
    "/calendars/"@ + uuid_text(calendar.value) + "/"@
}

/// The path of an event resource.
pub open spec fn event_href(calendar: crate::ident::Id, event: crate::ident::Id) -> Seq<char> {
    "/calendars/"@ + uuid_text(calendar.value) + "/"@ + uuid_text(event.value) + ".ics"@
}

/// An entity tag: the event's identifier between double quotes.
pub open spec fn entity_tag(event: crate::ident::Id) -> Seq<char> {
    seq!['"'] + uuid_text(event.value) + seq!['"']
}

/// The response block of a calendar: its href, its type (a collection and a
/// calendar), its display name, and the component set it supports.
pub open spec fn collection_response(c: CalendarView) -> Seq<char> {
    COLLECTION_OPEN@ + calendar_href(c.id) + COLLECTION_MIDDLE@ + xml_escaped(c.name)
        + COLLECTION_CLOSE@
}

/// The response blocks of a list of calendars, one after the other.
pub open spec fn collection_responses(calendars: Seq<CalendarView>) -> Seq<char>
    decreases calendars.len(),
{
    if calendars.len() == 0 {
        Seq::empty()
    } else {
        collection_responses(calendars.drop_last()) + collection_response(calendars.last())
    }
}

/// The response block of an event: its href under the given calendar, its
/// entity tag, and its `VEVENT` text as calendar data.
pub open spec fn resource_response(calendar: crate::ident::Id, e: EventView) -> Seq<char> {
    RESOURCE_OPEN@ + event_href(calendar, e.id) + RESOURCE_TAG@ + uuid_text(e.id.value)
        + RESOURCE_DATA@ + xml_escaped(vevent_text(ical_event_of(e))) + RESOURCE_CLOSE@
}

/// The response blocks of a list of events of one calendar, one after the other.
pub open spec fn resource_responses(calendar: crate::ident::Id, events: Seq<EventView>) -> Seq<char>
    decreases events.len(),
{
    if events.len() == 0 {
        Seq::empty()
    } else {
        resource_responses(calendar, events.drop_last()) + resource_response(
            calendar,
            events.last(),
        )
    }
}

/// The multistatus document around the given response blocks.
pub open spec fn multistatus_text(responses: Seq<char>) -> Seq<char> {
    MULTISTATUS_OPEN@ + responses + MULTISTATUS_CLOSE@
}

/// Escapes the five XML special characters of a text value.
pub fn escape_xml(s: &str) -> (escaped: String)
    ensures
        escaped@ == xml_escaped(s@),
{
    let mut out = String::new();
    let ghost f = |c: char| xml_escaped_char(c);
    for c in it: s.chars()
        invariant
            it.seq() == s@,
            f == (|c: char| xml_escaped_char(c)),
            out@ == expand(it.seq().take(it.index()), f),
    {
        proof {
            let next = it.seq().take(it.index() + 1);
            assert(next.drop_last() == it.seq().take(it.index()));
        }
        if c == '&' {
            out.append("&amp;");
        } else if c == '<' {
            out.append("&lt;");
        } else if c == '>' {
            out.append("&gt;");
        } else if c == '"' {
            out.append("&quot;");
        } else if c == '\'' {
            out.append("&apos;");
        } else {
            out.push(c);
        }
    }
    assert(s@.take(s@.len() as int) == s@);
    out
}

/// The path of a calendar collection, `/calendars/{calendar}/`.
pub fn calendar_path(calendar: crate::ident::Id) -> (path: String)
    ensures
        path@ == calendar_href(calendar),
{
    let mut out = String::new();
    out.append("/calendars/");
    out.append(calendar.to_string().as_str());
    out.append("/");
    out
}

/// The path of an event resource, `/calendars/{calendar}/{event}.ics`.
pub fn event_path(calendar: crate::ident::Id, event: crate::ident::Id) -> (path: String)
    ensures
        path@ == event_href(calendar, event),
{
    let mut out = String::new();
    out.append("/calendars/");
    out.append(calendar.to_string().as_str());
    out.append("/");
    out.append(event.to_string().as_str());
    out.append(".ics");
    out
}

/// The entity tag of an event: its identifier between double quotes.
pub fn quoted_tag(event: crate::ident::Id) -> (tag: String)
    ensures
        tag@ == entity_tag(event),
{
    let mut out = String::new();
    out.push('"');
    out.append(event.to_string().as_str());
    out.push('"');
    out
}

/// Appends the response block of a calendar.
pub fn push_collection_response(out: &mut String, calendar: &Calendar)
    ensures
        final(out)@ == old(out)@ + collection_response(calendar@),
{
    out.append(COLLECTION_OPEN);
    out.append(calendar_path(calendar.id).as_str());
    out.append(COLLECTION_MIDDLE);
    out.append(escape_xml(calendar.name.as_str()).as_str());
    out.append(COLLECTION_CLOSE);
}

/// Appends the response block of an event of the given calendar.
pub fn push_resource_response(out: &mut String, calendar: crate::ident::Id, event: &Event)
    ensures
        final(out)@ == old(out)@ + resource_response(calendar, event@),
{
    let ical = ICalendarEvent::from(event);
    out.append(RESOURCE_OPEN);
    out.append(event_path(calendar, event.id).as_str());
    out.append(RESOURCE_TAG);
    out.append(event.id.to_string().as_str());
    out.append(RESOURCE_DATA);
    out.append(escape_xml(ical.to_ical_string().as_str()).as_str());
    out.append(RESOURCE_CLOSE);
}

/// Appends the response blocks of the events of one calendar.
pub fn push_resource_responses(out: &mut String, calendar: crate::ident::Id, events: &Vec<Event>)
    ensures
        final(out)@ == old(out)@ + resource_responses(calendar, events.deep_view()),
{
    let mut i: usize = 0;
    while i < events.len()
        invariant
            i <= events.len(),
            out@ == old(out)@ + resource_responses(calendar, events.deep_view().take(i as int)),
        decreases events.len() - i,
    {
        push_resource_response(out, calendar, &events[i]);
        proof {
            let next = events.deep_view().take(i + 1);
            assert(next.drop_last() == events.deep_view().take(i as int));
        }
        i += 1;
    }
    assert(events.deep_view().take(events.len() as int) == events.deep_view());
}

/// The multistatus document around the given response blocks.
pub fn multistatus(responses: &str) -> (body: String)
    ensures
        body@ == multistatus_text(responses@),
{
    let mut out = String::new();
    out.append(MULTISTATUS_OPEN);
    out.append(responses);
    out.append(MULTISTATUS_CLOSE);
    out
}

/// The multistatus body that lists the given calendars.
pub fn collections_body(calendars: &Vec<Calendar>) -> (body: String)
    ensures
        body@ == multistatus_text(collection_responses(calendars.deep_view())),
{
    let mut responses = String::new();
    let mut i: usize = 0;
    while i < calendars.len()
        invariant
            i <= calendars.len(),
            responses@ == collection_responses(calendars.deep_view().take(i as int)),
        decreases calendars.len() - i,
    {
        push_collection_response(&mut responses, &calendars[i]);
        proof {
            let next = calendars.deep_view().take(i + 1);
            assert(next.drop_last() == calendars.deep_view().take(i as int));
        }
        i += 1;
    }
    assert(calendars.deep_view().take(calendars.len() as int) == calendars.deep_view());
    multistatus(responses.as_str())
}

/// Whether a character can open or close markup, or end an attribute value.
pub open spec fn is_markup(c: char) -> bool {
    c == '<' || c == '>' || c == '"' || c == '\''
}

/// An escaped text holds no character that opens or closes markup or ends an
/// attribute value, so that it cannot break out of the element that holds it.
pub proof fn law_escaped_text_holds_no_markup(s: Seq<char>)
    ensures
        forall|i: int| 0 <= i < xml_escaped(s).len() ==> !is_markup(#[trigger] xml_escaped(s)[i]),
    decreases s.len(),
{
    if s.len() > 0 {
        let head = xml_escaped(s.drop_last());
        law_escaped_text_holds_no_markup(s.drop_last());
        reveal_strlit("&amp;");
        reveal_strlit("&lt;");
        reveal_strlit("&gt;");
        reveal_strlit("&quot;");
        reveal_strlit("&apos;");
    }
}

} // verus!
