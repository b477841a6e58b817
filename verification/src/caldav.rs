//! The CalDAV method handlers.
//!
//! A handler holds no state between requests and does no I/O. It is written
//! as a conversation with the data layer: a verb's function returns the first
//! `Step`, which either ends the request or asks the data layer one question
//! and names what is pending; `resume` takes the pending work and the answer
//! and returns the next step. Whoever drives the conversation performs the
//! queries. A query that fails ends the request at once, outside this module.

use crate::error::AppError;
use crate::error::ErrorView;
use crate::ical::calendar_document;
use crate::ical::calendar_document_text;
use crate::ical::decoded;
use crate::ical::draft_outcome;
use crate::ical::event_document;
use crate::ical::event_document_text;
use crate::ical::parse_icalendar;
use crate::ident::Id;
use crate::models::text_view;
use crate::models::Calendar;
use crate::models::CalendarView;
use crate::models::Event;
use crate::models::EventView;
use crate::models::NewEvent;
use crate::models::NewEventView;
use crate::path::calendar_segment;
use crate::path::calendar_segment_of;
use crate::path::event_id;
use crate::path::event_name;
use crate::path::event_segment;
use crate::path::event_segment_of;
use crate::path::id_named;
use crate::path::id_outcome;
use crate::path::is_collection;
use crate::path::names_collection;
use crate::path::parse_id;
use crate::path::path_segments;
use crate::path::segments;
use crate::text::same_text;
use crate::xml::collection_responses;
use crate::xml::collections_body;
use crate::xml::entity_tag;
use crate::xml::event_href;
use crate::xml::event_path;
use crate::xml::multistatus;
use crate::xml::multistatus_text;
use crate::xml::push_resource_responses;
use crate::xml::quoted_tag;
use crate::xml::resource_responses;
use vstd::prelude::*;

verus! {

/// Content type of calendar bodies.
pub const CALENDAR_TYPE: &'static str = "text/calendar; charset=utf-8";

/// Content type of multistatus bodies.
pub const XML_TYPE: &'static str = "application/xml; charset=utf-8";

/// Where the discovery endpoint sends a client.
pub const CALENDAR_HOME: &'static str = "/calendars/";

/// A response, as the transport layer is to send it.
#[derive(Clone, Debug)]
pub struct DavResponse {
    pub status: u16,
    pub content_type: Option<String>,
    pub etag: Option<String>,
    pub location: Option<String>,
    pub body: String,
}

/// What a `DavResponse` holds, as mathematical values.
pub ghost struct ResponseView {
    pub status: u16,
    pub content_type: Option<Seq<char>>,
    pub etag: Option<Seq<char>>,
    pub location: Option<Seq<char>>,
    pub body: Seq<char>,
}

impl View for DavResponse {
    type V = ResponseView;

    open spec fn view(&self) -> ResponseView {
        ResponseView {
            status: self.status,
            content_type: text_view(self.content_type),
            etag: text_view(self.etag),
            location: text_view(self.location),
            body: self.body@,
        }
    }
}

/// A question to the data layer.
#[derive(Clone, Debug)]
pub enum Query {
    /// The calendar with the given identifier, if there is one.
    Calendar(Id),
    /// All calendars that the given user owns.
    CalendarsOf(Id),
    /// The event with the given identifier, if there is one.
    Event(Id),
    /// All events of the given calendar.
    EventsIn(Id),
    /// Store the draft as a new event of the given calendar.
    Create(Id, NewEvent),
    /// Remove the event with the given identifier.
    Delete(Id),
}

/// What a `Query` holds, as mathematical values.
pub enum QueryView {
    Calendar(Id),
    CalendarsOf(Id),
    Event(Id),
    EventsIn(Id),
    Create(Id, NewEventView),
    Delete(Id),
}

impl View for Query {
    type V = QueryView;

    open spec fn view(&self) -> QueryView {
        match self {
            Query::Calendar(id) => QueryView::Calendar(*id),
            Query::CalendarsOf(id) => QueryView::CalendarsOf(*id),
            Query::Event(id) => QueryView::Event(*id),
            Query::EventsIn(id) => QueryView::EventsIn(*id),
            Query::Create(id, draft) => QueryView::Create(*id, draft@),
            Query::Delete(id) => QueryView::Delete(*id),
        }
    }
}

/// The data layer's answer to a `Query`.
#[derive(Clone, Debug)]
pub enum Answer {
    /// To `Query::Calendar`.
    Calendar(Option<Calendar>),
    /// To `Query::CalendarsOf`.
    Calendars(Vec<Calendar>),
    /// To `Query::Event`.
    Event(Option<Event>),
    /// To `Query::EventsIn`.
    Events(Vec<Event>),
    /// To `Query::Create`: the event as it was stored.
    Created(Event),
    /// To `Query::Delete`.
    Deleted,
}

/// What an `Answer` holds, as mathematical values.
pub enum AnswerView {
    Calendar(Option<CalendarView>),
    Calendars(Seq<CalendarView>),
    Event(Option<EventView>),
    Events(Seq<EventView>),
    Created(EventView),
    Deleted,
}

impl View for Answer {
    type V = AnswerView;

    open spec fn view(&self) -> AnswerView {
        match self {
            Answer::Calendar(c) => AnswerView::Calendar(
                match c {
                    Some(c) => Some(c@),
                    None => None,
                },
            ),
            Answer::Calendars(cs) => AnswerView::Calendars(cs.deep_view()),
            Answer::Event(e) => AnswerView::Event(
                match e {
                    Some(e) => Some(e@),
                    None => None,
                },
            ),
            Answer::Events(es) => AnswerView::Events(es.deep_view()),
            Answer::Created(e) => AnswerView::Created(e@),
            Answer::Deleted => AnswerView::Deleted,
        }
    }
}

/// What a handler still has to do once the data layer has answered.
#[derive(Clone, Debug)]
pub enum Pending {
    /// GET: the calendar was asked for.
    GetCalendar { user: Id, calendar_id: Id, segments: Vec<String> },
    /// GET of a collection: the calendar's events were asked for.
    GetEvents { name: String },
    /// GET of a resource: the event was asked for.
    GetEvent,
    /// PUT: the calendar was asked for.
    PutCalendar { user: Id, calendar_id: Id, body: String },
    /// PUT: the draft was handed over to be stored.
    PutCreated { calendar_id: Id },
    /// DELETE: the event was asked for.
    DeleteEvent { user: Id, event_id: Id },
    /// DELETE: the event's calendar was asked for.
    DeleteCalendar { user: Id, event_id: Id },
    /// DELETE: the removal was asked for.
    DeleteDone,
    /// PROPFIND: the user's calendars were asked for.
    Propfind,
    /// REPORT: the user's calendars were asked for.
    ReportCalendars,
    /// REPORT: the events of `calendars[index]` were asked for; `responses`
    /// holds the blocks of the calendars before it.
    ReportEvents { calendars: Vec<Calendar>, index: usize, responses: String },
}

/// What a `Pending` holds, as mathematical values.
pub enum PendingView {
    GetCalendar { user: Id, calendar_id: Id, segments: Seq<Seq<char>> },
    GetEvents { name: Seq<char> },
    GetEvent,
    PutCalendar { user: Id, calendar_id: Id, body: Seq<char> },
    PutCreated { calendar_id: Id },
    DeleteEvent { user: Id, event_id: Id },
    DeleteCalendar { user: Id, event_id: Id },
    DeleteDone,
    Propfind,
    ReportCalendars,
    ReportEvents { calendars: Seq<CalendarView>, index: int, responses: Seq<char> },
}

impl View for Pending {
    type V = PendingView;

    open spec fn view(&self) -> PendingView {
        match self {
            Pending::GetCalendar { user, calendar_id, segments } => PendingView::GetCalendar {
                user: *user,
                calendar_id: *calendar_id,
                segments: segments.deep_view(),
            },
            Pending::GetEvents { name } => PendingView::GetEvents { name: name@ },
            Pending::GetEvent => PendingView::GetEvent,
            Pending::PutCalendar { user, calendar_id, body } => PendingView::PutCalendar {
                user: *user,
                calendar_id: *calendar_id,
                body: body@,
            },
            Pending::PutCreated { calendar_id } => PendingView::PutCreated {
                calendar_id: *calendar_id,
            },
            Pending::DeleteEvent { user, event_id } => PendingView::DeleteEvent {
                user: *user,
                event_id: *event_id,
            },
            Pending::DeleteCalendar { user, event_id } => PendingView::DeleteCalendar {
                user: *user,
                event_id: *event_id,
            },
            Pending::DeleteDone => PendingView::DeleteDone,
            Pending::Propfind => PendingView::Propfind,
            Pending::ReportCalendars => PendingView::ReportCalendars,
            Pending::ReportEvents { calendars, index, responses } => PendingView::ReportEvents {
                calendars: calendars.deep_view(),
                index: *index as int,
                responses: responses@,
            },
        }
    }
}

/// One step of a handler: a question with what is pending, or the end.
#[derive(Debug)]
pub enum Step {
    /// The data layer is to answer the query; `resume` goes on from there.
    Ask(Query, Pending),
    /// The request succeeded with this response.
    Done(DavResponse),
    /// The request failed with this error.
    Failed(AppError),
}

/// What a `Step` holds, as mathematical values.
pub enum StepView {
    Ask(QueryView, PendingView),
    Done(ResponseView),
    Failed(ErrorView),
}

impl View for Step {
    type V = StepView;

    open spec fn view(&self) -> StepView {
        match self {
            Step::Ask(q, p) => StepView::Ask(q@, p@),
            Step::Done(r) => StepView::Done(r@),
            Step::Failed(e) => StepView::Failed(e@),
        }
    }
}

/// The response of the discovery endpoint: plain text that names the calendar home.
pub open spec fn discovery_response() -> ResponseView {
    ResponseView {
        status: 200,
        content_type: Some("text/plain"@),
        etag: None,
        location: None,
        body: CALENDAR_HOME@,
    }
}

/// A `207 Multi-Status` response with the given document.
pub open spec fn multistatus_response(body: Seq<char>) -> ResponseView {
    ResponseView { status: 207, content_type: Some(XML_TYPE@), etag: None, location: None, body }
}

/// A `200 OK` response with a calendar document and, for a single event, its entity tag.
pub open spec fn calendar_response(body: Seq<char>, etag: Option<Seq<char>>) -> ResponseView {
    ResponseView { status: 200, content_type: Some(CALENDAR_TYPE@), etag, location: None, body }
}

/// The `201 Created` response for an event stored under a calendar: no body,
/// the event's canonical path as location, and its entity tag.
pub open spec fn created_response(calendar: Id, event: Id) -> ResponseView {
    ResponseView {
        status: 201,
        content_type: None,
        etag: Some(entity_tag(event)),
        location: Some(event_href(calendar, event)),
        body: Seq::empty(),
    }
}

/// The `204 No Content` response.
pub open spec fn no_content_response() -> ResponseView {
    ResponseView { status: 204, content_type: None, etag: None, location: None, body: Seq::empty() }
}

/// The failure for an answer that does not fit the question.
pub open spec fn misfit() -> StepView {
    StepView::Failed(ErrorView::Internal("Unexpected answer from the data layer"@))
}

/// GET, once the calendar's identifier has been read from the path: ask for the calendar.
pub open spec fn get_asks(user: Id, segs: Seq<Seq<char>>, calendar: Result<Id, ErrorView>) -> StepView {
    match calendar {
        Ok(id) => StepView::Ask(
            QueryView::Calendar(id),
            PendingView::GetCalendar { user, calendar_id: id, segments: segs },
        ),
        Err(e) => StepView::Failed(e),
    }
}

/// The first step of GET. The path needs two segments, and the second must
/// name a calendar.
pub open spec fn get_begins(user: Id, path: Seq<char>) -> StepView {
    let segs = segments(path);
    match calendar_segment_of(segs) {
        Ok(segment) => get_asks(user, segs, id_named(segment)),
        Err(e) => StepView::Failed(e),
    }
}

/// PUT, once the calendar's identifier has been read from the path: ask for the calendar.
pub open spec fn put_asks(user: Id, body: Seq<char>, calendar: Result<Id, ErrorView>) -> StepView {
    match calendar {
        Ok(id) => StepView::Ask(
            QueryView::Calendar(id),
            PendingView::PutCalendar { user, calendar_id: id, body },
        ),
        Err(e) => StepView::Failed(e),
    }
}

/// The first step of PUT. The path needs three segments, and the second must
/// name a calendar. The event's file name is not read: the data layer names
/// the event that it stores.
pub open spec fn put_begins(user: Id, path: Seq<char>, body: Seq<char>) -> StepView {
    let segs = segments(path);
    match event_segment_of(segs) {
        Ok(_) => put_asks(user, body, id_named(segs[1])),
        Err(e) => StepView::Failed(e),
    }
}

/// DELETE, once the event's identifier has been read from the path: ask for the event.
pub open spec fn delete_asks(user: Id, event: Result<Id, ErrorView>) -> StepView {
    match event {
        Ok(id) => StepView::Ask(QueryView::Event(id), PendingView::DeleteEvent { user, event_id: id }),
        Err(e) => StepView::Failed(e),
    }
}

/// The first step of DELETE. The path needs three segments, and the third
/// must name an event.
pub open spec fn delete_begins(user: Id, path: Seq<char>) -> StepView {
    match event_segment_of(segments(path)) {
        Ok(file) => delete_asks(user, id_named(event_name(file))),
        Err(e) => StepView::Failed(e),
    }
}

/// The first step of PROPFIND: ask for the calendars of the principal.
pub open spec fn propfind_begins(user: Id) -> StepView {
    StepView::Ask(QueryView::CalendarsOf(user), PendingView::Propfind)
}

/// The first step of REPORT: ask for the calendars of the principal.
pub open spec fn report_begins(user: Id) -> StepView {
    StepView::Ask(QueryView::CalendarsOf(user), PendingView::ReportCalendars)
}

/// Whether a principal may read a calendar: its owner may, and anyone may
/// read a public calendar.
pub open spec fn may_read(user: Id, c: CalendarView) -> bool {
    c.user_id == user || c.is_public
}

/// Whether a principal may change a calendar: only its owner may.
pub open spec fn may_write(user: Id, c: CalendarView) -> bool {
    c.user_id == user
}

/// GET of a resource, once the event's identifier has been read: ask for the event.
pub open spec fn get_asks_event(event: Result<Id, ErrorView>) -> StepView {
    match event {
        Ok(id) => StepView::Ask(QueryView::Event(id), PendingView::GetEvent),
        Err(e) => StepView::Failed(e),
    }
}

/// GET, once the calendar is known. A reader who may not read it is turned
/// away. Then a whole calendar has its events asked for, and a single event
/// is asked for by the identifier in its file name.
pub open spec fn get_reads(
    user: Id,
    calendar_id: Id,
    segs: Seq<Seq<char>>,
    c: CalendarView,
) -> StepView {
    if !may_read(user, c) {
        StepView::Failed(ErrorView::Authentication("Access denied"@))
    } else if names_collection(segs) {
        StepView::Ask(QueryView::EventsIn(calendar_id), PendingView::GetEvents { name: c.name })
    } else {
        get_asks_event(id_named(event_name(segs[2])))
    }
}

/// PUT, once the body has been decoded: hand the draft over to be stored.
pub open spec fn put_stores(calendar_id: Id, draft: Result<NewEventView, ErrorView>) -> StepView {
    match draft {
        Ok(d) => StepView::Ask(
            QueryView::Create(calendar_id, d),
            PendingView::PutCreated { calendar_id },
        ),
        Err(e) => StepView::Failed(e),
    }
}

/// PUT, once the calendar is known. Only the owner may write; the body is
/// decoded after that check.
pub open spec fn put_writes(user: Id, calendar_id: Id, body: Seq<char>, c: CalendarView) -> StepView {
    if !may_write(user, c) {
        StepView::Failed(ErrorView::Authentication("You don't own this calendar"@))
    } else {
        put_stores(calendar_id, decoded(body))
    }
}

/// DELETE, once the event's calendar is known. Only the owner may delete.
pub open spec fn delete_removes(user: Id, event_id: Id, c: CalendarView) -> StepView {
    if !may_write(user, c) {
        StepView::Failed(ErrorView::Authentication("You don't have access to this event"@))
    } else {
        StepView::Ask(QueryView::Delete(event_id), PendingView::DeleteDone)
    }
}

/// REPORT, with the response blocks of the calendars before `index`: ask for
/// the events of the calendar at `index`, or finish where there is none.
pub open spec fn report_goes_on(
    calendars: Seq<CalendarView>,
    index: int,
    responses: Seq<char>,
) -> StepView {
    if 0 <= index < calendars.len() {
        StepView::Ask(
            QueryView::EventsIn(calendars[index].id),
            PendingView::ReportEvents { calendars, index, responses },
        )
    } else {
        StepView::Done(multistatus_response(multistatus_text(responses)))
    }
}

/// The step that follows an answer.
pub open spec fn next(pending: PendingView, answer: AnswerView) -> StepView {
    match (pending, answer) {
        (PendingView::GetCalendar { .. }, AnswerView::Calendar(None)) => StepView::Failed(
            ErrorView::NotFound("Calendar not found"@),
        ),
        (
            PendingView::GetCalendar { user, calendar_id, segments },
            AnswerView::Calendar(Some(c)),
        ) => get_reads(user, calendar_id, segments, c),
        (PendingView::GetEvents { name }, AnswerView::Events(events)) => StepView::Done(
            calendar_response(calendar_document_text(name, events), None),
        ),
        (PendingView::GetEvent, AnswerView::Event(None)) => StepView::Failed(
            ErrorView::NotFound("Event not found"@),
        ),
        (PendingView::GetEvent, AnswerView::Event(Some(e))) => StepView::Done(
            calendar_response(event_document_text(e), Some(entity_tag(e.id))),
        ),
        (PendingView::PutCalendar { .. }, AnswerView::Calendar(None)) => StepView::Failed(
            ErrorView::NotFound("Calendar not found"@),
        ),
        (
            PendingView::PutCalendar { user, calendar_id, body },
            AnswerView::Calendar(Some(c)),
        ) => put_writes(user, calendar_id, body, c),
        (PendingView::PutCreated { calendar_id }, AnswerView::Created(e)) => StepView::Done(
            created_response(calendar_id, e.id),
        ),
        (PendingView::DeleteEvent { .. }, AnswerView::Event(None)) => StepView::Failed(
            ErrorView::NotFound("Event not found"@),
        ),
        (PendingView::DeleteEvent { user, event_id }, AnswerView::Event(Some(e))) => StepView::Ask(
            QueryView::Calendar(e.calendar_id),
            PendingView::DeleteCalendar { user, event_id },
        ),
        (PendingView::DeleteCalendar { .. }, AnswerView::Calendar(None)) => StepView::Failed(
            ErrorView::NotFound("Calendar not found"@),
        ),
        (PendingView::DeleteCalendar { user, event_id }, AnswerView::Calendar(Some(c))) =>
            delete_removes(user, event_id, c),
        (PendingView::DeleteDone, AnswerView::Deleted) => StepView::Done(no_content_response()),
        (PendingView::Propfind, AnswerView::Calendars(calendars)) => StepView::Done(
            multistatus_response(multistatus_text(collection_responses(calendars))),
        ),
        (PendingView::ReportCalendars, AnswerView::Calendars(calendars)) => report_goes_on(
            calendars,
            0,
            Seq::empty(),
        ),
        (PendingView::ReportEvents { calendars, index, responses }, AnswerView::Events(events)) => {
            if 0 <= index < calendars.len() {
                report_goes_on(
                    calendars,
                    index + 1,
                    responses + resource_responses(calendars[index].id, events),
                )
            } else {
                misfit()
            }
        },
        _ => misfit(),
    }
}

/// A failure for something that does not exist.
fn not_found(what: &str) -> (step: Step)
    ensures
        step@ == StepView::Failed(ErrorView::NotFound(what@)),
{
    Step::Failed(AppError::NotFoundError(what.to_owned()))
}

/// A failure for a principal who is not allowed.
fn denied(why: &str) -> (step: Step)
    ensures
        step@ == StepView::Failed(ErrorView::Authentication(why@)),
{
    Step::Failed(AppError::AuthenticationError(why.to_owned()))
}

/// A failure for an answer that does not fit the question.
fn unexpected() -> (step: Step)
    ensures
        step@ == misfit(),
{
    Step::Failed(AppError::InternalServerError("Unexpected answer from the data layer".to_owned()))
}

/// A `207 Multi-Status` response with the given document.
fn multistatus_done(body: String) -> (step: Step)
    ensures
        step@ == StepView::Done(multistatus_response(body@)),
{
    Step::Done(
        DavResponse {
            status: 207,
            content_type: Some(XML_TYPE.to_owned()),
            etag: None,
            location: None,
            body,
        },
    )
}

/// A `200 OK` response with a calendar document.
fn calendar_done(body: String, etag: Option<String>) -> (step: Step)
    ensures
        step@ == StepView::Done(calendar_response(body@, text_view(etag))),
{
    Step::Done(
        DavResponse {
            status: 200,
            content_type: Some(CALENDAR_TYPE.to_owned()),
            etag,
            location: None,
            body,
        },
    )
}

/// Answers the discovery endpoint `/.well-known/caldav`: `200 OK`, plain
/// text, the path of the calendar home. It needs no principal.
pub fn caldav_discovery() -> (response: DavResponse)
    ensures
        response@ == discovery_response(),
{
    DavResponse {
        status: 200,
        content_type: Some("text/plain".to_owned()),
        etag: None,
        location: None,
        body: CALENDAR_HOME.to_owned(),
    }
}

/// GET, with the segments of the path and what the second segment was read
/// as: asks for the calendar, or fails with the reading's error.
pub fn get_with_calendar(user: Id, segments: Vec<String>, calendar: Result<Id, AppError>) -> (step:
    Step)
    ensures
        step@ == get_asks(user, segments.deep_view(), id_outcome(calendar)),
{
    match calendar {
        Ok(id) => Step::Ask(
            Query::Calendar(id),
            Pending::GetCalendar { user, calendar_id: id, segments },
        ),
        Err(e) => Step::Failed(e),
    }
}

/// Begins a GET of a calendar collection or of an event resource.
pub fn caldav_get(user_id: Id, path: &str) -> (step: Step)
    ensures
        step@ == get_begins(user_id, path@),
{
    let segs = path_segments(path);
    match calendar_segment(&segs) {
        Ok(segment) => {
            let parsed = parse_id(segment);
            get_with_calendar(user_id, segs, parsed)
        },
        Err(e) => Step::Failed(e),
    }
}

/// PUT, with the body and what the second segment of the path was read as:
/// asks for the calendar, or fails with the reading's error.
pub fn put_with_calendar(user: Id, body: String, calendar: Result<Id, AppError>) -> (step: Step)
    ensures
        step@ == put_asks(user, body@, id_outcome(calendar)),
{
    match calendar {
        Ok(id) => Step::Ask(Query::Calendar(id), Pending::PutCalendar { user, calendar_id: id, body }),
        Err(e) => Step::Failed(e),
    }
}

/// Begins a PUT of an event resource. The event is always stored as a new
/// one, under an identifier that the data layer chooses.
pub fn caldav_put(user_id: Id, path: &str, body: String) -> (step: Step)
    ensures
        step@ == put_begins(user_id, path@, body@),
{
    let segs = path_segments(path);
    match event_segment(&segs) {
        Ok(_) => {
            let parsed = parse_id(segs[1].as_str());
            put_with_calendar(user_id, body, parsed)
        },
        Err(e) => Step::Failed(e),
    }
}

/// DELETE, with what the event's file name was read as: asks for the event,
/// or fails with the reading's error.
pub fn delete_with_event(user: Id, event: Result<Id, AppError>) -> (step: Step)
    ensures
        step@ == delete_asks(user, id_outcome(event)),
{
    match event {
        Ok(id) => Step::Ask(Query::Event(id), Pending::DeleteEvent { user, event_id: id }),
        Err(e) => Step::Failed(e),
    }
}

/// Begins a DELETE of an event resource.
pub fn caldav_delete(user_id: Id, path: &str) -> (step: Step)
    ensures
        step@ == delete_begins(user_id, path@),
{
    let segs = path_segments(path);
    match event_segment(&segs) {
        Ok(file) => {
            let parsed = event_id(file);
            delete_with_event(user_id, parsed)
        },
        Err(e) => Step::Failed(e),
    }
}

/// Begins a PROPFIND on the calendar home: the calendars of the principal are listed.
pub fn caldav_propfind(user_id: Id) -> (step: Step)
    ensures
        step@ == propfind_begins(user_id),
{
    Step::Ask(Query::CalendarsOf(user_id), Pending::Propfind)
}

/// Begins a REPORT on the calendar home. The query in the body is accepted
/// and not interpreted: every event of every calendar of the principal is
/// reported.
pub fn caldav_report(user_id: Id, _body: String) -> (step: Step)
    ensures
        step@ == report_begins(user_id),
{
    Step::Ask(Query::CalendarsOf(user_id), Pending::ReportCalendars)
}

/// GET of a resource, with what the event's file name was read as: asks for
/// the event, or fails with the reading's error.
pub fn get_with_event(event: Result<Id, AppError>) -> (step: Step)
    ensures
        step@ == get_asks_event(id_outcome(event)),
{
    match event {
        Ok(id) => Step::Ask(Query::Event(id), Pending::GetEvent),
        Err(e) => Step::Failed(e),
    }
}

/// GET, with the calendar that the data layer found.
pub fn get_with_found(user: Id, calendar_id: Id, segments: Vec<String>, calendar: Calendar) -> (step:
    Step)
    ensures
        step@ == get_reads(user, calendar_id, segments.deep_view(), calendar@),
{
    if calendar.user_id != user && !calendar.is_public {
        denied("Access denied")
    } else if is_collection(&segments) {
        Step::Ask(Query::EventsIn(calendar_id), Pending::GetEvents { name: calendar.name })
    } else {
        let parsed = event_id(segments[2].as_str());
        get_with_event(parsed)
    }
}

/// PUT, with what the body was decoded to: hands the draft over to be
/// stored, or fails with the decoding's error.
pub fn put_with_draft(calendar_id: Id, draft: Result<NewEvent, AppError>) -> (step: Step)
    ensures
        step@ == put_stores(calendar_id, draft_outcome(draft)),
{
    match draft {
        Ok(d) => Step::Ask(Query::Create(calendar_id, d), Pending::PutCreated { calendar_id }),
        Err(e) => Step::Failed(e),
    }
}

/// PUT, with the calendar that the data layer found.
pub fn put_with_found(user: Id, calendar_id: Id, body: &str, calendar: &Calendar) -> (step: Step)
    ensures
        step@ == put_writes(user, calendar_id, body@, calendar@),
{
    if calendar.user_id != user {
        denied("You don't own this calendar")
    } else {
        let draft = parse_icalendar(body);
        put_with_draft(calendar_id, draft)
    }
}

/// DELETE, with the calendar of the event that the data layer found.
pub fn delete_with_found(user: Id, event_id: Id, calendar: &Calendar) -> (step: Step)
    ensures
        step@ == delete_removes(user, event_id, calendar@),
{
    if calendar.user_id != user {
        denied("You don't have access to this event")
    } else {
        Step::Ask(Query::Delete(event_id), Pending::DeleteDone)
    }
}

/// REPORT, with the response blocks of the calendars before `index`.
pub fn report_from(calendars: Vec<Calendar>, index: usize, responses: String) -> (step: Step)
    ensures
        step@ == report_goes_on(calendars.deep_view(), index as int, responses@),
{
    if index < calendars.len() {
        let id = calendars[index].id;
        Step::Ask(Query::EventsIn(id), Pending::ReportEvents { calendars, index, responses })
    } else {
        multistatus_done(multistatus(responses.as_str()))
    }
}

/// Goes on with a request once the data layer has answered its query.
pub fn resume(pending: Pending, answer: Answer) -> (step: Step)
    ensures
        step@ == next(pending@, answer@),
{
    match (pending, answer) {
        (Pending::GetCalendar { .. }, Answer::Calendar(None)) => not_found("Calendar not found"),
        (Pending::GetCalendar { user, calendar_id, segments }, Answer::Calendar(Some(c))) => {
            get_with_found(user, calendar_id, segments, c)
        },
        (Pending::GetEvents { name }, Answer::Events(events)) => {
            calendar_done(calendar_document(name.as_str(), &events), None)
        },
        (Pending::GetEvent, Answer::Event(None)) => not_found("Event not found"),
        (Pending::GetEvent, Answer::Event(Some(e))) => {
            calendar_done(event_document(&e), Some(quoted_tag(e.id)))
        },
        (Pending::PutCalendar { .. }, Answer::Calendar(None)) => not_found("Calendar not found"),
        (Pending::PutCalendar { user, calendar_id, body }, Answer::Calendar(Some(c))) => {
            put_with_found(user, calendar_id, body.as_str(), &c)
        },
        (Pending::PutCreated { calendar_id }, Answer::Created(e)) => {
            Step::Done(
                DavResponse {
                    status: 201,
                    content_type: None,
                    etag: Some(quoted_tag(e.id)),
                    location: Some(event_path(calendar_id, e.id)),
                    body: String::new(),
                },
            )
        },
        (Pending::DeleteEvent { .. }, Answer::Event(None)) => not_found("Event not found"),
        (Pending::DeleteEvent { user, event_id }, Answer::Event(Some(e))) => {
            Step::Ask(Query::Calendar(e.calendar_id), Pending::DeleteCalendar { user, event_id })
        },
        (Pending::DeleteCalendar { .. }, Answer::Calendar(None)) => not_found("Calendar not found"),
        (Pending::DeleteCalendar { user, event_id }, Answer::Calendar(Some(c))) => {
            delete_with_found(user, event_id, &c)
        },
        (Pending::DeleteDone, Answer::Deleted) => {
            Step::Done(
                DavResponse {
                    status: 204,
                    content_type: None,
                    etag: None,
                    location: None,
                    body: String::new(),
                },
            )
        },
        (Pending::Propfind, Answer::Calendars(calendars)) => {
            multistatus_done(collections_body(&calendars))
        },
        (Pending::ReportCalendars, Answer::Calendars(calendars)) => {
            report_from(calendars, 0, String::new())
        },
        (Pending::ReportEvents { calendars, index, responses }, Answer::Events(events)) => {
            if index < calendars.len() {
                let mut responses = responses;
                push_resource_responses(&mut responses, calendars[index].id, &events);
                report_from(calendars, index + 1, responses)
            } else {
                unexpected()
            }
        },
        _ => unexpected(),
    }
}

/// The end of a request against a data layer that answers each query as
/// `layer` says, after at most `turns` answers: the handler's step is taken,
/// the query is answered, and the handler goes on from the answer.
pub open spec fn run(step: StepView, layer: spec_fn(QueryView) -> AnswerView, turns: nat) -> StepView
    decreases turns,
{
    match step {
        StepView::Ask(q, p) => if turns > 0 {
            run(next(p, layer(q)), layer, (turns - 1) as nat)
        } else {
            step
        },
        _ => step,
    }
}

/// Whether a path is the calendar home, with or without its final slash.
pub open spec fn is_home(path: Seq<char>) -> bool {
    path == "/calendars"@ || path == "/calendars/"@
}

/// Whether a request asks for a calendar to be made: MKCOL on the
/// calendar-creation path. Making it is left to the data layer.
pub open spec fn creates_calendar(method: Seq<char>, path: Seq<char>) -> bool {
    method == "MKCOL"@ && path == "/calendars/new"@
}

/// Whether a request asks for a calendar to be made.
pub fn is_calendar_creation(method: &str, path: &str) -> (b: bool)
    ensures
        b == creates_calendar(method@, path@),
{
    same_text(method, "MKCOL") && same_text(path, "/calendars/new")
}

/// The first step of a request on the CalDAV surface, by its verb and its
/// path. On the calendar home REPORT queries the events and every other
/// verb lists the calendars. On any other path PUT stores, DELETE removes,
/// and every other verb reads.
pub open spec fn request_begins(
    user: Id,
    method: Seq<char>,
    path: Seq<char>,
    body: Seq<char>,
) -> StepView {
    if is_home(path) {
        if method == "REPORT"@ {
            report_begins(user)
        } else {
            propfind_begins(user)
        }
    } else if method == "PUT"@ {
        put_begins(user, path, body)
    } else if method == "DELETE"@ {
        delete_begins(user, path)
    } else {
        get_begins(user, path)
    }
}

/// Begins a request on the CalDAV surface: the verb and the path choose the handler.
pub fn caldav_request(user_id: Id, method: &str, path: &str, body: String) -> (step: Step)
    ensures
        step@ == request_begins(user_id, method@, path@, body@),
{
    if same_text(path, "/calendars") || same_text(path, "/calendars/") {
        if same_text(method, "REPORT") {
            caldav_report(user_id, body)
        } else {
            caldav_propfind(user_id)
        }
    } else if same_text(method, "PUT") {
        caldav_put(user_id, path, body)
    } else if same_text(method, "DELETE") {
        caldav_delete(user_id, path)
    } else {
        caldav_get(user_id, path)
    }
}

/// The response blocks of the events that the data layer holds for the
/// calendars from `index` on, calendar by calendar.
pub open spec fn blocks_from(
    calendars: Seq<CalendarView>,
    index: int,
    layer: spec_fn(QueryView) -> AnswerView,
) -> Seq<char>
    decreases calendars.len() - index,
{
    if 0 <= index < calendars.len() {
        (match layer(QueryView::EventsIn(calendars[index].id)) {
            AnswerView::Events(events) => resource_responses(calendars[index].id, events),
            _ => Seq::empty(),
        }) + blocks_from(calendars, index + 1, layer)
    } else {
        Seq::empty()
    }
}

/// Whether the data layer answers every question about events with events.
pub open spec fn answers_events(layer: spec_fn(QueryView) -> AnswerView) -> bool {
    forall|calendar: Id| #[trigger] layer(QueryView::EventsIn(calendar)) is Events
}

/// REPORT, from the calendar at `index` on, ends with the blocks gathered so
/// far and those of the calendars that are left.
pub proof fn lemma_report_runs(
    calendars: Seq<CalendarView>,
    index: int,
    responses: Seq<char>,
    layer: spec_fn(QueryView) -> AnswerView,
    turns: nat,
)
    requires
        0 <= index <= calendars.len(),
        turns >= calendars.len() - index,
        answers_events(layer),
    ensures
        run(report_goes_on(calendars, index, responses), layer, turns) == StepView::Done(
            multistatus_response(multistatus_text(responses + blocks_from(calendars, index, layer))),
        ),
    decreases calendars.len() - index,
{
    if index < calendars.len() {
        let id = calendars[index].id;
        let events = layer(QueryView::EventsIn(id))->Events_0;
        let more = responses + resource_responses(id, events);
        lemma_report_runs(calendars, index + 1, more, layer, (turns - 1) as nat);
        assert(more + blocks_from(calendars, index + 1, layer) == responses + blocks_from(
            calendars,
            index,
            layer,
        ));
        assert(next(
            PendingView::ReportEvents { calendars, index, responses },
            layer(QueryView::EventsIn(id)),
        ) == report_goes_on(calendars, index + 1, more));
    }
}

/// REPORT is complete: it ends with `207 Multi-Status` and one block for
/// every event of every calendar of the principal, in the order in which the
/// data layer gives the calendars and their events. The query in the body
/// plays no part.
pub proof fn law_report_lists_everything(
    user: Id,
    layer: spec_fn(QueryView) -> AnswerView,
    turns: nat,
    calendars: Seq<CalendarView>,
)
    requires
        layer(QueryView::CalendarsOf(user)) == AnswerView::Calendars(calendars),
        answers_events(layer),
        turns > calendars.len(),
    ensures
        run(report_begins(user), layer, turns) == StepView::Done(
            multistatus_response(multistatus_text(blocks_from(calendars, 0, layer))),
        ),
{
    lemma_report_runs(calendars, 0, Seq::empty(), layer, (turns - 1) as nat);
    assert(Seq::<char>::empty() + blocks_from(calendars, 0, layer) == blocks_from(
        calendars,
        0,
        layer,
    ));
}

/// PROPFIND is complete: it ends with `207 Multi-Status` and one block for
/// every calendar of the principal.
pub proof fn law_propfind_lists_calendars(
    user: Id,
    layer: spec_fn(QueryView) -> AnswerView,
    turns: nat,
    calendars: Seq<CalendarView>,
)
    requires
        layer(QueryView::CalendarsOf(user)) == AnswerView::Calendars(calendars),
        turns >= 1,
    ensures
        run(propfind_begins(user), layer, turns) == StepView::Done(
            multistatus_response(multistatus_text(collection_responses(calendars))),
        ),
{
    reveal_with_fuel(run, 2);
}

/// Ownership on GET: where the calendar that the path names is not public
/// and belongs to another user, the request fails with an authentication
/// error, whatever else the data layer holds.
pub proof fn law_get_refuses_strangers(
    user: Id,
    path: Seq<char>,
    layer: spec_fn(QueryView) -> AnswerView,
    turns: nat,
    calendar: Id,
    c: CalendarView,
)
    requires
        turns >= 1,
        calendar_segment_of(segments(path)) is Ok,
        id_named(calendar_segment_of(segments(path))->Ok_0) == Ok::<Id, ErrorView>(calendar),
        layer(QueryView::Calendar(calendar)) == AnswerView::Calendar(Some(c)),
        c.user_id != user,
        !c.is_public,
    ensures
        run(get_begins(user, path), layer, turns) == StepView::Failed(
            ErrorView::Authentication("Access denied"@),
        ),
{
    reveal_with_fuel(run, 2);
}

/// Reading: GET of a calendar's collection succeeds for its owner, and
/// for every principal where the calendar is public, with the export of the
/// calendar's events.
pub proof fn law_get_serves_readers(
    user: Id,
    path: Seq<char>,
    layer: spec_fn(QueryView) -> AnswerView,
    turns: nat,
    calendar: Id,
    c: CalendarView,
    events: Seq<EventView>,
)
    requires
        turns >= 2,
        calendar_segment_of(segments(path)) is Ok,
        id_named(calendar_segment_of(segments(path))->Ok_0) == Ok::<Id, ErrorView>(calendar),
        names_collection(segments(path)),
        layer(QueryView::Calendar(calendar)) == AnswerView::Calendar(Some(c)),
        layer(QueryView::EventsIn(calendar)) == AnswerView::Events(events),
        c.user_id == user || c.is_public,
    ensures
        run(get_begins(user, path), layer, turns) == StepView::Done(
            calendar_response(calendar_document_text(c.name, events), None),
        ),
{
    reveal_with_fuel(run, 3);
}

/// Reading: GET of an event under a calendar succeeds for the calendar's
/// owner, and for every principal where the calendar is public, with the
/// event's document and its entity tag.
pub proof fn law_get_serves_readers_of_events(
    user: Id,
    path: Seq<char>,
    layer: spec_fn(QueryView) -> AnswerView,
    turns: nat,
    calendar: Id,
    c: CalendarView,
    event: Id,
    e: EventView,
)
    requires
        turns >= 2,
        calendar_segment_of(segments(path)) is Ok,
        id_named(calendar_segment_of(segments(path))->Ok_0) == Ok::<Id, ErrorView>(calendar),
        !names_collection(segments(path)),
        id_named(event_name(segments(path)[2])) == Ok::<Id, ErrorView>(event),
        layer(QueryView::Calendar(calendar)) == AnswerView::Calendar(Some(c)),
        layer(QueryView::Event(event)) == AnswerView::Event(Some(e)),
        c.user_id == user || c.is_public,
    ensures
        run(get_begins(user, path), layer, turns) == StepView::Done(
            calendar_response(event_document_text(e), Some(entity_tag(e.id))),
        ),
{
    reveal_with_fuel(run, 3);
}

/// The owner's PUT: the body is decoded, the draft is handed over to be
/// stored under the calendar that the path names, and the request ends with
/// `201 Created`, the path of the event as it was stored, and its entity tag.
pub proof fn law_owner_puts(
    user: Id,
    path: Seq<char>,
    body: Seq<char>,
    layer: spec_fn(QueryView) -> AnswerView,
    turns: nat,
    calendar: Id,
    c: CalendarView,
    draft: NewEventView,
    stored: EventView,
)
    requires
        turns >= 2,
        event_segment_of(segments(path)) is Ok,
        id_named(segments(path)[1]) == Ok::<Id, ErrorView>(calendar),
        layer(QueryView::Calendar(calendar)) == AnswerView::Calendar(Some(c)),
        c.user_id == user,
        decoded(body) == Ok::<NewEventView, ErrorView>(draft),
        layer(QueryView::Create(calendar, draft)) == AnswerView::Created(stored),
    ensures
        run(put_begins(user, path, body), layer, turns) == StepView::Done(
            created_response(calendar, stored.id),
        ),
{
    reveal_with_fuel(run, 3);
}

/// Ownership on PUT: where the calendar that the path names belongs to
/// another user, the request fails with an authentication error, whether or
/// not the calendar is public, and nothing is stored.
pub proof fn law_put_needs_owner(
    user: Id,
    path: Seq<char>,
    body: Seq<char>,
    layer: spec_fn(QueryView) -> AnswerView,
    turns: nat,
    calendar: Id,
    c: CalendarView,
)
    requires
        turns >= 1,
        event_segment_of(segments(path)) is Ok,
        id_named(segments(path)[1]) == Ok::<Id, ErrorView>(calendar),
        layer(QueryView::Calendar(calendar)) == AnswerView::Calendar(Some(c)),
        c.user_id != user,
    ensures
        run(put_begins(user, path, body), layer, turns) == StepView::Failed(
            ErrorView::Authentication("You don't own this calendar"@),
        ),
{
    reveal_with_fuel(run, 2);
}

/// Ownership on DELETE: where the calendar of the event that the path names
/// belongs to another user, the request fails with an authentication error,
/// whether or not the calendar is public, and nothing is removed.
pub proof fn law_delete_needs_owner(
    user: Id,
    path: Seq<char>,
    layer: spec_fn(QueryView) -> AnswerView,
    turns: nat,
    event: Id,
    e: EventView,
    c: CalendarView,
)
    requires
        turns >= 2,
        event_segment_of(segments(path)) is Ok,
        id_named(event_name(event_segment_of(segments(path))->Ok_0)) == Ok::<Id, ErrorView>(event),
        layer(QueryView::Event(event)) == AnswerView::Event(Some(e)),
        layer(QueryView::Calendar(e.calendar_id)) == AnswerView::Calendar(Some(c)),
        c.user_id != user,
    ensures
        run(delete_begins(user, path), layer, turns) == StepView::Failed(
            ErrorView::Authentication("You don't have access to this event"@),
        ),
{
    reveal_with_fuel(run, 3);
}

/// The owner's DELETE: the removal is asked for, and once the data layer
/// has done it the request ends with `204 No Content`.
pub proof fn law_owner_deletes(
    user: Id,
    path: Seq<char>,
    layer: spec_fn(QueryView) -> AnswerView,
    turns: nat,
    event: Id,
    e: EventView,
    c: CalendarView,
)
    requires
        turns >= 3,
        event_segment_of(segments(path)) is Ok,
        id_named(event_name(event_segment_of(segments(path))->Ok_0)) == Ok::<Id, ErrorView>(event),
        layer(QueryView::Event(event)) == AnswerView::Event(Some(e)),
        layer(QueryView::Calendar(e.calendar_id)) == AnswerView::Calendar(Some(c)),
        layer(QueryView::Delete(event)) == AnswerView::Deleted,
        c.user_id == user,
    ensures
        run(delete_begins(user, path), layer, turns) == StepView::Done(no_content_response()),
{
    reveal_with_fuel(run, 4);
}

} // verus!
