//! The iCalendar codec: events to `VEVENT` text and back, and the
//! `VCALENDAR` documents that wrap them.

use crate::error::AppError;
use crate::error::ErrorView;
use crate::models::text_view;
use crate::models::Event;
use crate::models::EventView;
use crate::models::NewEvent;
use crate::models::NewEventView;
use crate::text::after_last;
use crate::text::after_last_char;
use crate::text::chars_of;
use crate::text::contains_chars;
use crate::text::expand;
use crate::text::has_prefix;
use crate::text::has_substring;
use crate::text::split;
use crate::text::split_chars;
use crate::text::starts_with;
use crate::text::string_of;
use crate::text::trim;
use crate::text::trim_chars;
use crate::time::chrono_parse_date;
use crate::time::chrono_parse_date_time;
use crate::time::ical_stamp;
use crate::time::date_read;
use crate::time::date_time_read;
use crate::time::found_date_time;
use crate::time::is_date;
use crate::time::UtcDateTime;
use vstd::prelude::*;
use vstd::string::StringExecFns;

verus! {

/// How one character of a text value is written: backslash, semicolon, comma
/// and newline are escaped, every other character stands for itself.
pub open spec fn ical_escaped_char(c: char) -> Seq<char> {
    if c == '\\' {
        seq!['\\', '\\']
    } else if c == ';' {
        seq!['\\', ';']
    } else if c == ',' {
        seq!['\\', ',']
    } else if c == '\n' {
        seq!['\\', 'n']
    } else {
        seq![c]
    }
}

/// A text value as it is written into a property line.
pub open spec fn ical_escaped(s: Seq<char>) -> Seq<char> {
    expand(s, |c: char| ical_escaped_char(c))
}

/// The text value that a property line holds: the inverse of `ical_escaped`.
/// A backslash that starts none of the four escapes stands for itself.
pub open spec fn ical_unescaped(s: Seq<char>) -> Seq<char>
    decreases s.len(),
{
    if s.len() == 0 {
        Seq::empty()
    } else if s.len() >= 2 && s[0] == '\\' && (s[1] == '\\' || s[1] == ';' || s[1] == ',') {
        seq![s[1]] + ical_unescaped(s.skip(2))
    } else if s.len() >= 2 && s[0] == '\\' && s[1] == 'n' {
        seq!['\n'] + ical_unescaped(s.skip(2))
    } else {
        seq![s[0]] + ical_unescaped(s.skip(1))
    }
}

/// The text of an optional value; empty where there is none.
pub open spec fn or_empty(t: Option<Seq<char>>) -> Seq<char> {
    match t {
        Some(s) => s,
        None => Seq::empty(),
    }
}

/// A content line: the content and its CRLF terminator.
pub open spec fn line(content: Seq<char>) -> Seq<char> {
    content + seq!['\r', '\n']
}

/// The fields of a `VEVENT` block.
#[derive(Clone, Debug)]
pub struct ICalendarEvent {
    pub uid: String,
    pub summary: String,
    pub description: Option<String>,
    pub location: Option<String>,
    pub dtstart: UtcDateTime,
    pub dtend: UtcDateTime,
}

/// What an `ICalendarEvent` holds, as mathematical values.
pub ghost struct ICalendarEventView {
    pub uid: Seq<char>,
    pub summary: Seq<char>,
    pub description: Option<Seq<char>>,
    pub location: Option<Seq<char>>,
    pub dtstart: UtcDateTime,
    pub dtend: UtcDateTime,
}

impl View for ICalendarEvent {
    type V = ICalendarEventView;

    open spec fn view(&self) -> ICalendarEventView {
        ICalendarEventView {
            uid: self.uid@,
            summary: self.summary@,
            description: text_view(self.description),
            location: text_view(self.location),
            dtstart: self.dtstart,
            dtend: self.dtend,
        }
    }
}

/// The `VEVENT` fields of an event: its identifier in canonical text as UID,
/// its title as SUMMARY, and its description, location, start and end.
pub open spec fn ical_event_of(e: EventView) -> ICalendarEventView {
    ICalendarEventView {
        uid: crate::ident::uuid_text(e.id.value),
        summary: e.title,
        description: e.description,
        location: e.location,
        dtstart: e.start_time,
        dtend: e.end_time,
    }
}

/// The `VEVENT` block: eight CRLF-terminated lines in fixed order. UID is
/// written as it is; the three text values are escaped; an absent description
/// or location gives an empty value; both instants are written in UTC form.
pub open spec fn vevent_text(e: ICalendarEventView) -> Seq<char> {
    line("BEGIN:VEVENT"@) + line("UID:"@ + e.uid) + line("SUMMARY:"@ + ical_escaped(e.summary))
        + line("DESCRIPTION:"@ + ical_escaped(or_empty(e.description))) + line(
        "LOCATION:"@ + ical_escaped(or_empty(e.location)),
    ) + line("DTSTART:"@ + ical_stamp(e.dtstart)) + line("DTEND:"@ + ical_stamp(e.dtend)) + line(
        "END:VEVENT"@,
    )
}

/// The `VEVENT` blocks of a list of events, one after the other.
pub open spec fn vevents_text(events: Seq<EventView>) -> Seq<char>
    decreases events.len(),
{
    if events.len() == 0 {
        Seq::empty()
    } else {
        vevents_text(events.drop_last()) + vevent_text(ical_event_of(events.last()))
    }
}

/// The opening lines of every `VCALENDAR` document: version, product and
/// calendar scale.
pub open spec fn vcalendar_head() -> Seq<char> {
    line("BEGIN:VCALENDAR"@) + line("VERSION:2.0"@) + line("PRODID:-//My CalDAV Server//EN"@) + line(
        "CALSCALE:GREGORIAN"@,
    )
}

/// The line that names the calendar, where the document has a name to give.
pub open spec fn calendar_name_line(name: Option<Seq<char>>) -> Seq<char> {
    match name {
        Some(n) => line("X-WR-CALNAME:"@ + n),
        None => Seq::empty(),
    }
}

/// A `VCALENDAR` document: the head, the calendar's name if one is given,
/// one block for each event, and the closing line.
pub open spec fn vcalendar_text(name: Option<Seq<char>>, events: Seq<EventView>) -> Seq<char> {
    vcalendar_head() + calendar_name_line(name) + vevents_text(events) + line("END:VCALENDAR"@)
}

/// The export of a whole calendar: a document under the calendar's name
/// that holds every event.
pub open spec fn calendar_document_text(name: Seq<char>, events: Seq<EventView>) -> Seq<char> {
    vcalendar_text(Some(name), events)
}

/// The document for a single event: it has no name and holds the one event.
pub open spec fn event_document_text(event: EventView) -> Seq<char> {
    vcalendar_text(None, seq![event])
}

/// Ends the current content line.
fn push_crlf(out: &mut String)
    ensures
        final(out)@ == old(out)@ + seq!['\r', '\n'],
{
    out.push('\r');
    out.push('\n');
}

/// Appends one content line made of a fixed part and a value.
fn push_line(out: &mut String, fixed: &str, value: &str)
    ensures
        final(out)@ == old(out)@ + line(fixed@ + value@),
{
    out.append(fixed);
    out.append(value);
    push_crlf(out);
}

/// Escapes a text value for a property line.
pub fn escape_ical_text(text: &str) -> (escaped: String)
    ensures
        escaped@ == ical_escaped(text@),
{
    let mut out = String::new();
    let ghost f = |c: char| ical_escaped_char(c);
    for c in it: text.chars()
        invariant
            it.seq() == text@,
            f == (|c: char| ical_escaped_char(c)),
            out@ == expand(it.seq().take(it.index()), f),
    {
        proof {
            let next = it.seq().take(it.index() + 1);
            assert(next.drop_last() == it.seq().take(it.index()));
        }
        if c == '\\' {
            out.push('\\');
            out.push('\\');
        } else if c == ';' {
            out.push('\\');
            out.push(';');
        } else if c == ',' {
            out.push('\\');
            out.push(',');
        } else if c == '\n' {
            out.push('\\');
            out.push('n');
        } else {
            out.push(c);
        }
    }
    assert(text@.take(text@.len() as int) == text@);
    out
}

/// Reads a text value back from a property line.
pub fn unescape_ical_text(value: &[char]) -> (text: String)
    ensures
        text@ == ical_unescaped(value@),
{
    let mut out = String::new();
    let mut i: usize = 0;
    assert(value@.skip(0) == value@);
    while i < value.len()
        invariant
            i <= value.len(),
            ical_unescaped(value@) == out@ + ical_unescaped(value@.skip(i as int)),
        decreases value.len() - i,
    {
        let ghost rest = value@.skip(i as int);
        let c = value[i];
        if c == '\\' && i + 1 < value.len() && (value[i + 1] == '\\' || value[i + 1] == ';'
            || value[i + 1] == ',' || value[i + 1] == 'n') {
            assert(rest.skip(2) == value@.skip(i + 2));
            if value[i + 1] == 'n' {
                out.push('\n');
            } else {
                out.push(value[i + 1]);
            }
            i += 2;
        } else {
            assert(rest.skip(1) == value@.skip(i + 1));
            out.push(c);
            i += 1;
        }
    }
    out
}

impl ICalendarEvent {
    /// The `VEVENT` fields of an event.
    pub fn from(event: &Event) -> (ical: ICalendarEvent)
        ensures
            ical@ == ical_event_of(event@),
    {
        ICalendarEvent {
            uid: event.id.to_string(),
            summary: event.title.clone(),
            description: event.description.clone(),
            location: event.location.clone(),
            dtstart: event.start_time,
            dtend: event.end_time,
        }
    }

    /// The `VEVENT` block of the event, CRLF-terminated throughout.
    pub fn to_ical_string(&self) -> (text: String)
        ensures
            text@ == vevent_text(self@),
    {
        let summary = escape_ical_text(self.summary.as_str());
        let description = match &self.description {
            Some(d) => escape_ical_text(d.as_str()),
            None => String::new(),
        };
        let location = match &self.location {
            Some(l) => escape_ical_text(l.as_str()),
            None => String::new(),
        };
        let dtstart = self.dtstart.to_ical_stamp();
        let dtend = self.dtend.to_ical_stamp();
        let mut out = String::new();
        push_line(&mut out, "BEGIN:VEVENT", "");
        assert("BEGIN:VEVENT"@ + ""@ == "BEGIN:VEVENT"@) by {
            reveal_strlit("");
        }
        push_line(&mut out, "UID:", self.uid.as_str());
        push_line(&mut out, "SUMMARY:", summary.as_str());
        push_line(&mut out, "DESCRIPTION:", description.as_str());
        push_line(&mut out, "LOCATION:", location.as_str());
        push_line(&mut out, "DTSTART:", dtstart.as_str());
        push_line(&mut out, "DTEND:", dtend.as_str());
        push_line(&mut out, "END:VEVENT", "");
        out
    }
}

/// Appends the opening lines of a `VCALENDAR` document.
fn push_head(out: &mut String)
    ensures
        final(out)@ == old(out)@ + vcalendar_head(),
{
    proof {
        reveal_strlit("");
    }
    push_line(out, "BEGIN:VCALENDAR", "");
    push_line(out, "VERSION:2.0", "");
    push_line(out, "PRODID:-//My CalDAV Server//EN", "");
    push_line(out, "CALSCALE:GREGORIAN", "");
}

/// Appends the `VEVENT` blocks of the events, in order.
pub fn push_vevents(out: &mut String, events: &Vec<Event>)
    ensures
        final(out)@ == old(out)@ + vevents_text(events.deep_view()),
{
    let mut i: usize = 0;
    while i < events.len()
        invariant
            i <= events.len(),
            out@ == old(out)@ + vevents_text(events.deep_view().take(i as int)),
        decreases events.len() - i,
    {
        let block = ICalendarEvent::from(&events[i]).to_ical_string();
        out.append(block.as_str());
        proof {
            let next = events.deep_view().take(i + 1);
            assert(next.drop_last() == events.deep_view().take(i as int));
        }
        i += 1;
    }
    assert(events.deep_view().take(events.len() as int) == events.deep_view());
}

/// The `VCALENDAR` document that exports a whole calendar.
pub fn calendar_document(name: &str, events: &Vec<Event>) -> (text: String)
    ensures
        text@ == calendar_document_text(name@, events.deep_view()),
{
    let mut out = String::new();
    push_head(&mut out);
    push_line(&mut out, "X-WR-CALNAME:", name);
    push_vevents(&mut out, events);
    assert("END:VCALENDAR"@ + ""@ == "END:VCALENDAR"@) by {
        reveal_strlit("");
    }
    push_line(&mut out, "END:VCALENDAR", "");
    out
}

/// The `VCALENDAR` document that holds a single event.
pub fn event_document(event: &Event) -> (text: String)
    ensures
        text@ == event_document_text(event@),
{
    let mut out = String::new();
    push_head(&mut out);
    out.append(ICalendarEvent::from(event).to_ical_string().as_str());
    assert("END:VCALENDAR"@ + ""@ == "END:VCALENDAR"@) by {
        reveal_strlit("");
    }
    push_line(&mut out, "END:VCALENDAR", "");
    proof {
        let one = seq![event@];
        assert(vevents_text(one.drop_last()) == Seq::<char>::empty());
    }
    out
}

/// The instant that a `DTSTART` or `DTEND` value names. Three forms are tried
/// in order: eight characters are a date, at midnight; a value that ends in
/// `Z` is a UTC date-time, read from its first fifteen characters; anything
/// else is a floating date-time, taken as UTC.
pub open spec fn date_time_value(value: Seq<char>) -> Result<UtcDateTime, ErrorView> {
    let s = trim(value);
    if s.len() == 8 {
        match date_read(s) {
            Some(d) => Ok(UtcDateTime::at(d.0, d.1, d.2, 0, 0, 0, 0)),
            None => Err(ErrorView::Validation("Invalid date format"@)),
        }
    } else if s.len() > 0 && s.last() == 'Z' {
        if s.len() < 15 {
            Err(ErrorView::Validation("Invalid datetime format"@))
        } else {
            match date_time_read(s.take(15)) {
                Some(t) => Ok(t),
                None => Err(ErrorView::Validation("Invalid datetime format"@)),
            }
        }
    } else {
        match date_time_read(s) {
            Some(t) => Ok(t),
            None => Err(ErrorView::Validation("Invalid datetime format"@)),
        }
    }
}

/// What has been read of a `VEVENT` so far.
pub ghost struct Fields {
    pub title: Option<Seq<char>>,
    pub description: Option<Seq<char>>,
    pub location: Option<Seq<char>>,
    pub start: Option<UtcDateTime>,
    pub end: Option<UtcDateTime>,
    pub all_day: bool,
}

/// Nothing read yet.
pub open spec fn no_fields() -> Fields {
    Fields { title: None, description: None, location: None, start: None, end: None, all_day: false }
}

/// The fields after one more line, which has been trimmed. A property that
/// comes again replaces the earlier value. A `DTSTART` or `DTEND` line holds
/// its value after its last colon and marks the event as all-day where
/// `VALUE=DATE` stands anywhere on it. Any other line changes nothing.
pub open spec fn line_read(f: Fields, l: Seq<char>) -> Result<Fields, ErrorView> {
    if has_prefix(l, "SUMMARY:"@) {
        Ok(Fields { title: Some(ical_unescaped(l.skip("SUMMARY:"@.len() as int))), ..f })
    } else if has_prefix(l, "DESCRIPTION:"@) {
        Ok(Fields { description: Some(ical_unescaped(l.skip("DESCRIPTION:"@.len() as int))), ..f })
    } else if has_prefix(l, "LOCATION:"@) {
        Ok(Fields { location: Some(ical_unescaped(l.skip("LOCATION:"@.len() as int))), ..f })
    } else if has_prefix(l, "DTSTART"@) {
        match date_time_value(after_last(l, ':')) {
            Ok(t) => Ok(
                Fields { start: Some(t), all_day: f.all_day || has_substring(l, "VALUE=DATE"@), ..f },
            ),
            Err(e) => Err(e),
        }
    } else if has_prefix(l, "DTEND"@) {
        match date_time_value(after_last(l, ':')) {
            Ok(t) => Ok(
                Fields { end: Some(t), all_day: f.all_day || has_substring(l, "VALUE=DATE"@), ..f },
            ),
            Err(e) => Err(e),
        }
    } else {
        Ok(f)
    }
}

/// The fields after the given lines, each trimmed before it is read. The
/// first line whose instant cannot be read ends the reading with its error.
pub open spec fn lines_read(f: Fields, lines: Seq<Seq<char>>) -> Result<Fields, ErrorView>
    decreases lines.len(),
{
    if lines.len() == 0 {
        Ok(f)
    } else {
        match line_read(f, trim(lines[0])) {
            Ok(g) => lines_read(g, lines.skip(1)),
            Err(e) => Err(e),
        }
    }
}

/// The draft that the fields make. SUMMARY, DTSTART and DTEND are required,
/// and the first of them that is missing is reported.
pub open spec fn draft_of(f: Fields) -> Result<NewEventView, ErrorView> {
    if f.title is None {
        Err(ErrorView::Validation("Missing SUMMARY"@))
    } else if f.start is None {
        Err(ErrorView::Validation("Missing DTSTART"@))
    } else if f.end is None {
        Err(ErrorView::Validation("Missing DTEND"@))
    } else {
        Ok(
            NewEventView {
                title: f.title->0,
                description: f.description,
                location: f.location,
                start_time: f.start->0,
                end_time: f.end->0,
                is_all_day: f.all_day,
            },
        )
    }
}

/// The draft that an iCalendar text holds, read line by line. Lines end in LF
/// or CRLF.
pub open spec fn decoded(text: Seq<char>) -> Result<NewEventView, ErrorView> {
    match lines_read(no_fields(), split(text, '\n')) {
        Ok(f) => draft_of(f),
        Err(e) => Err(e),
    }
}

/// The view of what a parse returned.
pub open spec fn instant_outcome(r: Result<UtcDateTime, AppError>) -> Result<UtcDateTime, ErrorView> {
    match r {
        Ok(t) => Ok(t),
        Err(e) => Err(e@),
    }
}

/// The view of what a decode returned.
pub open spec fn draft_outcome(r: Result<NewEvent, AppError>) -> Result<NewEventView, ErrorView> {
    match r {
        Ok(d) => Ok(d@),
        Err(e) => Err(e@),
    }
}

/// What a date parse found, as the decoder reads it: the day at midnight,
/// or nothing.
pub open spec fn midnight_found(parsed: Result<(i32, u32, u32), chrono::format::ParseError>) -> Option<
    UtcDateTime,
> {
    match parsed {
        Ok(d) => if is_date(d.0 as int, d.1 as int, d.2 as int) {
            Some(UtcDateTime::at(d.0, d.1, d.2, 0, 0, 0, 0))
        } else {
            None
        },
        Err(_) => None,
    }
}

/// The instant that a parse found, or the given complaint where it found none.
pub open spec fn found_or(found: Option<UtcDateTime>, complaint: Seq<char>) -> Result<
    UtcDateTime,
    ErrorView,
> {
    match found {
        Some(t) => Ok(t),
        None => Err(ErrorView::Validation(complaint)),
    }
}

/// Turns what the date parser returned into the decoder's own result: the
/// day at midnight, or a validation error.
pub fn date_or_error(parsed: Result<(i32, u32, u32), chrono::format::ParseError>) -> (r: Result<
    UtcDateTime,
    AppError,
>)
    ensures
        instant_outcome(r) == found_or(midnight_found(parsed), "Invalid date format"@),
{
    match parsed {
        Ok(d) => match UtcDateTime::midnight(d.0, d.1, d.2) {
            Some(t) => Ok(t),
            None => Err(AppError::ValidationError("Invalid date format".to_owned())),
        },
        Err(_) => Err(AppError::ValidationError("Invalid date format".to_owned())),
    }
}

/// Turns what the date-time parser returned into the decoder's own result:
/// the instant, or a validation error.
pub fn date_time_or_error(parsed: Result<UtcDateTime, chrono::format::ParseError>) -> (r: Result<
    UtcDateTime,
    AppError,
>)
    ensures
        instant_outcome(r) == found_or(found_date_time(parsed), "Invalid datetime format"@),
{
    match parsed {
        Ok(t) => Ok(t),
        Err(_) => Err(AppError::ValidationError("Invalid datetime format".to_owned())),
    }
}

/// Reads the instant of a `DTSTART` or `DTEND` value from characters.
fn date_time_of(value: &[char]) -> (r: Result<UtcDateTime, AppError>)
    ensures
        instant_outcome(r) == date_time_value(value@),
{
    let s = trim_chars(value);
    if s.len() == 8 {
        let text = string_of(s);
        date_or_error(chrono_parse_date(text.as_str()))
    } else if s.len() > 0 && s[s.len() - 1] == 'Z' {
        if s.len() < 15 {
            Err(AppError::ValidationError("Invalid datetime format".to_owned()))
        } else {
            let head = vstd::slice::slice_subrange(s, 0, 15);
            let text = string_of(head);
            date_time_or_error(chrono_parse_date_time(text.as_str()))
        }
    } else {
        let text = string_of(s);
        date_time_or_error(chrono_parse_date_time(text.as_str()))
    }
}

/// Reads the instant of a `DTSTART` or `DTEND` value: `YYYYMMDD`,
/// `YYYYMMDDTHHMMSSZ` or `YYYYMMDDTHHMMSS`, with white space around it ignored.
pub fn parse_ical_datetime(date_str: &str) -> (r: Result<UtcDateTime, AppError>)
    ensures
        instant_outcome(r) == date_time_value(date_str@),
{
    let chars = chars_of(date_str);
    date_time_of(chars.as_slice())
}

/// Decodes an iCalendar text into the draft of an event.
pub fn parse_icalendar(data: &str) -> (r: Result<NewEvent, AppError>)
    ensures
        draft_outcome(r) == decoded(data@),
{
    let chars = chars_of(data);
    let lines = split_chars(chars.as_slice(), '\n');
    let summary = chars_of("SUMMARY:");
    let description_key = chars_of("DESCRIPTION:");
    let location_key = chars_of("LOCATION:");
    let dtstart = chars_of("DTSTART");
    let dtend = chars_of("DTEND");
    let marker = chars_of("VALUE=DATE");
    let mut title: Option<String> = None;
    let mut description: Option<String> = None;
    let mut location: Option<String> = None;
    let mut start_time: Option<UtcDateTime> = None;
    let mut end_time: Option<UtcDateTime> = None;
    let mut is_all_day = false;
    let ghost all = lines.deep_view();
    let mut i: usize = 0;
    assert(all.skip(0) == all);
    while i < lines.len()
        invariant
            i <= lines.len(),
            all == lines.deep_view(),
            all == split(data@, '\n'),
            summary@ == "SUMMARY:"@,
            description_key@ == "DESCRIPTION:"@,
            location_key@ == "LOCATION:"@,
            dtstart@ == "DTSTART"@,
            dtend@ == "DTEND"@,
            marker@ == "VALUE=DATE"@,
            lines_read(no_fields(), all) == lines_read(
                Fields {
                    title: text_view(title),
                    description: text_view(description),
                    location: text_view(location),
                    start: start_time,
                    end: end_time,
                    all_day: is_all_day,
                },
                all.skip(i as int),
            ),
        decreases lines.len() - i,
    {
        let ghost before = Fields {
            title: text_view(title),
            description: text_view(description),
            location: text_view(location),
            start: start_time,
            end: end_time,
            all_day: is_all_day,
        };
        let l = trim_chars(lines[i].as_slice());
        proof {
            assert(lines@[i as int].deep_view() == lines@[i as int]@);
            assert(all.skip(i as int).skip(1) == all.skip(i + 1));
        }
        if starts_with(l, summary.as_slice()) {
            let value = vstd::slice::slice_subrange(l, summary.len(), l.len());
            title = Some(unescape_ical_text(value));
        } else if starts_with(l, description_key.as_slice()) {
            let value = vstd::slice::slice_subrange(l, description_key.len(), l.len());
            description = Some(unescape_ical_text(value));
        } else if starts_with(l, location_key.as_slice()) {
            let value = vstd::slice::slice_subrange(l, location_key.len(), l.len());
            location = Some(unescape_ical_text(value));
        } else if starts_with(l, dtstart.as_slice()) {
            match date_time_of(after_last_char(l, ':')) {
                Ok(t) => {
                    start_time = Some(t);
                    if contains_chars(l, marker.as_slice()) {
                        is_all_day = true;
                    }
                },
                Err(e) => {
                    return Err(e);
                },
            }
        } else if starts_with(l, dtend.as_slice()) {
            match date_time_of(after_last_char(l, ':')) {
                Ok(t) => {
                    end_time = Some(t);
                    if contains_chars(l, marker.as_slice()) {
                        is_all_day = true;
                    }
                },
                Err(e) => {
                    return Err(e);
                },
            }
        }
        assert(line_read(before, l@) == Ok::<Fields, ErrorView>(
            Fields {
                title: text_view(title),
                description: text_view(description),
                location: text_view(location),
                start: start_time,
                end: end_time,
                all_day: is_all_day,
            },
        ));
        i += 1;
    }
    let title = match title {
        Some(t) => t,
        None => {
            return Err(AppError::ValidationError("Missing SUMMARY".to_owned()));
        },
    };
    let start_time = match start_time {
        Some(t) => t,
        None => {
            return Err(AppError::ValidationError("Missing DTSTART".to_owned()));
        },
    };
    let end_time = match end_time {
        Some(t) => t,
        None => {
            return Err(AppError::ValidationError("Missing DTEND".to_owned()));
        },
    };
    Ok(NewEvent { title, description, location, start_time, end_time, is_all_day })
}

} // verus!
