use caldav_server::caldav::caldav_delete;
use caldav_server::caldav::caldav_discovery;
use caldav_server::caldav::caldav_get;
use caldav_server::caldav::caldav_propfind;
use caldav_server::caldav::caldav_put;
use caldav_server::caldav::caldav_report;
use caldav_server::caldav::caldav_request;
use caldav_server::caldav::is_calendar_creation;
use caldav_server::caldav::resume;
use caldav_server::caldav::Answer;
use caldav_server::caldav::DavResponse;
use caldav_server::caldav::Pending;
use caldav_server::caldav::Query;
use caldav_server::caldav::Step;
use caldav_server::error::AppError;
use caldav_server::ical::ICalendarEvent;
use caldav_server::ident::Id;
use caldav_server::models::Calendar;
use caldav_server::models::Event;
use caldav_server::time::UtcDateTime;
use caldav_server::xml::escape_xml;
use caldav_server::xml::multistatus;

struct Store {
    calendars: Vec<Calendar>,
    events: Vec<Event>,
    asked: usize,
}

fn at(year: i32, month: u32, day: u32, hour: u32, minute: u32, second: u32) -> UtcDateTime {
    UtcDateTime::new(year, month, day, hour, minute, second, 0).unwrap()
}

fn calendar(id: u128, owner: u128, name: &str, is_public: bool) -> Calendar {
    Calendar {
        id: Id::from_u128(id),
        user_id: Id::from_u128(owner),
        name: name.to_string(),
        description: None,
        color: None,
        is_public,
        created_at: at(2024, 1, 1, 0, 0, 0),
        updated_at: at(2024, 1, 1, 0, 0, 0),
    }
}

fn event(id: u128, calendar: u128, title: &str) -> Event {
    Event {
        id: Id::from_u128(id),
        calendar_id: Id::from_u128(calendar),
        title: title.to_string(),
        description: None,
        location: None,
        start_time: at(2024, 3, 1, 9, 0, 0),
        end_time: at(2024, 3, 1, 9, 15, 0),
        is_all_day: false,
        created_at: at(2024, 1, 1, 0, 0, 0),
        updated_at: at(2024, 1, 1, 0, 0, 0),
    }
}

fn answer(store: &mut Store, query: Query) -> Answer {
    store.asked += 1;
    match query {
        Query::Calendar(id) => Answer::Calendar(store.calendars.iter().find(|c| c.id == id).cloned()),
        Query::CalendarsOf(user) => {
            Answer::Calendars(store.calendars.iter().filter(|c| c.user_id == user).cloned().collect())
        }
        Query::Event(id) => Answer::Event(store.events.iter().find(|e| e.id == id).cloned()),
        Query::EventsIn(calendar) => {
            Answer::Events(store.events.iter().filter(|e| e.calendar_id == calendar).cloned().collect())
        }
        Query::Create(calendar, draft) => {
            let created = Event {
                id: Id::from_u128(0xfeed),
                calendar_id: calendar,
                title: draft.title,
                description: draft.description,
                location: draft.location,
                start_time: draft.start_time,
                end_time: draft.end_time,
                is_all_day: draft.is_all_day,
                created_at: at(2024, 6, 1, 0, 0, 0),
                updated_at: at(2024, 6, 1, 0, 0, 0),
            };
            store.events.push(created.clone());
            Answer::Created(created)
        }
        Query::Delete(id) => {
            store.events.retain(|e| e.id != id);
            Answer::Deleted
        }
    }
}

fn serve(store: &mut Store, first: Step) -> Result<DavResponse, AppError> {
    let mut step = first;
    loop {
        match step {
            Step::Ask(query, pending) => {
                let a = answer(store, query);
                step = resume(pending, a);
            }
            Step::Done(response) => return Ok(response),
            Step::Failed(error) => return Err(error),
        }
    }
}

fn refusal(r: Result<DavResponse, AppError>) -> String {
    match r {
        Err(AppError::AuthenticationError(m)) => m,
        other => panic!("expected a refusal, got {:?}", other),
    }
}

fn missing(r: Result<DavResponse, AppError>) -> String {
    match r {
        Err(AppError::NotFoundError(m)) => m,
        other => panic!("expected not found, got {:?}", other),
    }
}

fn owner() -> Id {
    Id::from_u128(1)
}

fn stranger() -> Id {
    Id::from_u128(2)
}

fn store() -> Store {
    Store {
        calendars: vec![calendar(10, 1, "Work", false), calendar(11, 1, "Open <&> days", true)],
        events: vec![event(100, 10, "Standup"), event(101, 10, "Review"), event(102, 11, "Fair")],
        asked: 0,
    }
}

fn calendar_path(id: u128) -> String {
    format!("/calendars/{}", Id::from_u128(id).to_string())
}

fn event_path(calendar: u128, event: u128) -> String {
    format!("/calendars/{}/{}.ics", Id::from_u128(calendar).to_string(), Id::from_u128(event).to_string())
}

#[test]
fn discovery_points_to_the_calendar_home() {
    let r = caldav_discovery();
    assert_eq!(r.status, 200);
    assert_eq!(r.content_type.as_deref(), Some("text/plain"));
    assert_eq!(r.body, "/calendars/");
    assert_eq!(r.etag, None);
    assert_eq!(r.location, None);
}

#[test]
fn end_to_end_scenario() {
    let mut s = store();
    let path = event_path(10, 100);
    let r = serve(&mut s, caldav_get(owner(), &path)).unwrap();
    assert_eq!(r.status, 200);
    assert_eq!(r.content_type.as_deref(), Some("text/calendar; charset=utf-8"));
    assert_eq!(r.etag, Some(format!("\"{}\"", Id::from_u128(100).to_string())));
    assert!(r.body.starts_with("BEGIN:VCALENDAR\r\n"));
    assert!(r.body.ends_with("END:VEVENT\r\nEND:VCALENDAR\r\n"));
    assert_eq!(r.body.matches("BEGIN:VEVENT").count(), 1);
    assert!(r.body.contains("\r\nDTSTART:20240301T090000Z\r\n"));
    assert!(r.body.contains("\r\nSUMMARY:Standup\r\n"));
    assert!(r.body.contains("\r\nDTEND:20240301T091500Z\r\n"));

    assert_eq!(refusal(serve(&mut s, caldav_get(stranger(), &path))), "Access denied");

    let d = serve(&mut s, caldav_delete(owner(), &path)).unwrap();
    assert_eq!(d.status, 204);
    assert_eq!(d.body, "");
    assert_eq!(d.content_type, None);
    assert_eq!(missing(serve(&mut s, caldav_get(owner(), &path))), "Event not found");
}

#[test]
fn get_is_refused_to_a_stranger_of_a_private_calendar() {
    let mut s = store();
    assert_eq!(refusal(serve(&mut s, caldav_get(stranger(), &calendar_path(10)))), "Access denied");
    assert_eq!(s.asked, 1);
    assert_eq!(refusal(serve(&mut s, caldav_get(stranger(), &event_path(10, 100)))), "Access denied");
    assert_eq!(
        refusal(serve(&mut s, caldav_get(stranger(), &format!("{}/not-an-id.ics", calendar_path(10))))),
        "Access denied"
    );
}

#[test]
fn get_of_a_public_calendar_serves_anyone() {
    let mut s = store();
    let whole = serve(&mut s, caldav_get(stranger(), &calendar_path(11))).unwrap();
    assert_eq!(whole.status, 200);
    assert_eq!(whole.etag, None);
    assert!(whole.body.contains("X-WR-CALNAME:Open <&> days\r\n"));
    assert!(whole.body.contains("SUMMARY:Fair\r\n"));
    let one = serve(&mut s, caldav_get(stranger(), &event_path(11, 102))).unwrap();
    assert_eq!(one.status, 200);
    assert!(one.body.contains("SUMMARY:Fair\r\n"));
}

#[test]
fn get_of_a_collection_exports_every_event() {
    let mut s = store();
    for path in [calendar_path(10), format!("{}/", calendar_path(10))] {
        let r = serve(&mut s, caldav_get(owner(), &path)).unwrap();
        let expected = format!(
            "BEGIN:VCALENDAR\r\nVERSION:2.0\r\nPRODID:-//My CalDAV Server//EN\r\nCALSCALE:GREGORIAN\r\nX-WR-CALNAME:Work\r\n{}{}END:VCALENDAR\r\n",
            ICalendarEvent::from(&event(100, 10, "Standup")).to_ical_string(),
            ICalendarEvent::from(&event(101, 10, "Review")).to_ical_string()
        );
        assert_eq!(r.body, expected);
        assert_eq!(r.status, 200);
    }
}

#[test]
fn get_of_what_is_missing_is_not_found() {
    let mut s = store();
    assert_eq!(missing(serve(&mut s, caldav_get(owner(), &calendar_path(99)))), "Calendar not found");
    assert_eq!(missing(serve(&mut s, caldav_get(owner(), &event_path(10, 999)))), "Event not found");
}

#[test]
fn get_of_a_bad_event_name_is_an_identifier_error() {
    let mut s = store();
    let r = serve(&mut s, caldav_get(owner(), &format!("{}/xyz.ics", calendar_path(10))));
    assert!(matches!(r, Err(AppError::UuidError(_))));
}

#[test]
fn put_stores_a_new_event_for_the_owner() {
    let mut s = store();
    let body = "BEGIN:VEVENT\r\nSUMMARY:Lunch\\, late\r\nDTSTART:20240401T120000Z\r\nDTEND:20240401T130000Z\r\nEND:VEVENT\r\n";
    let r = serve(&mut s, caldav_put(owner(), &event_path(10, 100), body.to_string())).unwrap();
    assert_eq!(r.status, 201);
    assert_eq!(r.body, "");
    assert_eq!(r.content_type, None);
    let created = Id::from_u128(0xfeed).to_string();
    assert_eq!(r.location, Some(format!("{}/{}.ics", calendar_path(10), created)));
    assert_eq!(r.etag, Some(format!("\"{}\"", created)));
    let stored = s.events.last().unwrap();
    assert_eq!(stored.title, "Lunch, late");
    assert_eq!(stored.calendar_id, Id::from_u128(10));
    assert_eq!(stored.start_time, at(2024, 4, 1, 12, 0, 0));
    assert_eq!(s.events.len(), 4);
}

#[test]
fn put_is_refused_to_anyone_but_the_owner() {
    let mut s = store();
    let body = "SUMMARY:x\nDTSTART:20240401\nDTEND:20240402".to_string();
    for cal in [10, 11] {
        let r = serve(&mut s, caldav_put(stranger(), &event_path(cal, 100), body.clone()));
        assert_eq!(refusal(r), "You don't own this calendar");
    }
    assert_eq!(s.events.len(), 3);
}

#[test]
fn put_checks_the_owner_before_the_body() {
    let mut s = store();
    let r = serve(&mut s, caldav_put(stranger(), &event_path(10, 100), "junk".to_string()));
    assert_eq!(refusal(r), "You don't own this calendar");
    let r = serve(&mut s, caldav_put(owner(), &event_path(10, 100), "junk".to_string()));
    match r {
        Err(AppError::ValidationError(m)) => assert_eq!(m, "Missing SUMMARY"),
        other => panic!("unexpected {:?}", other),
    }
    let r = serve(&mut s, caldav_put(owner(), &event_path(99, 100), "junk".to_string()));
    assert_eq!(missing(r), "Calendar not found");
}

#[test]
fn delete_is_refused_to_anyone_but_the_owner() {
    let mut s = store();
    for (cal, ev) in [(10, 100), (11, 102)] {
        let r = serve(&mut s, caldav_delete(stranger(), &event_path(cal, ev)));
        assert_eq!(refusal(r), "You don't have access to this event");
    }
    assert_eq!(s.events.len(), 3);
}

#[test]
fn delete_of_what_is_missing_is_not_found() {
    let mut s = store();
    assert_eq!(missing(serve(&mut s, caldav_delete(owner(), &event_path(10, 999)))), "Event not found");
    s.events.push(event(103, 77, "Orphan"));
    assert_eq!(
        missing(serve(&mut s, caldav_delete(owner(), &event_path(10, 103)))),
        "Calendar not found"
    );
}

#[test]
fn propfind_lists_the_calendars_of_the_principal() {
    let mut s = store();
    let r = serve(&mut s, caldav_propfind(owner())).unwrap();
    assert_eq!(r.status, 207);
    assert_eq!(r.content_type.as_deref(), Some("application/xml; charset=utf-8"));
    let block = |id: u128, name: &str| {
        format!(
            "<d:response>\n                <d:href>/calendars/{}/</d:href>\n                <d:propstat>\n                    <d:prop>\n                        <d:resourcetype>\n                            <d:collection/>\n                            <cal:calendar/>\n                        </d:resourcetype>\n                        <d:displayname>{}</d:displayname>\n                        <cal:supported-calendar-component-set>\n                            <cal:comp name=\"VEVENT\"/>\n                            <cal:comp name=\"VTODO\"/>\n                        </cal:supported-calendar-component-set>\n                    </d:prop>\n                    <d:status>HTTP/1.1 200 OK</d:status>\n                </d:propstat>\n            </d:response>",
            Id::from_u128(id).to_string(),
            name
        )
    };
    let expected = format!(
        "<?xml version=\"1.0\" encoding=\"utf-8\"?>\n<d:multistatus xmlns:d=\"DAV:\" xmlns:cal=\"urn:ietf:params:xml:ns:caldav\">\n    {}{}\n</d:multistatus>",
        block(10, "Work"),
        block(11, "Open &lt;&amp;&gt; days")
    );
    assert_eq!(r.body, expected);
    let none = serve(&mut s, caldav_propfind(stranger())).unwrap();
    assert_eq!(none.body, multistatus(""));
    assert_eq!(none.status, 207);
}

#[test]
fn report_lists_every_event_of_every_calendar() {
    let mut s = store();
    let r = serve(&mut s, caldav_report(owner(), "<cal:calendar-query/>".to_string())).unwrap();
    assert_eq!(r.status, 207);
    assert_eq!(r.content_type.as_deref(), Some("application/xml; charset=utf-8"));
    let block = |e: &Event| {
        let id = e.id.to_string();
        format!(
            "<d:response>\n                    <d:href>/calendars/{}/{}.ics</d:href>\n                    <d:propstat>\n                        <d:prop>\n                            <d:getetag>\"{}\"</d:getetag>\n                            <cal:calendar-data>{}</cal:calendar-data>\n                        </d:prop>\n                        <d:status>HTTP/1.1 200 OK</d:status>\n                    </d:propstat>\n                </d:response>",
            e.calendar_id.to_string(),
            id,
            id,
            escape_xml(&ICalendarEvent::from(e).to_ical_string())
        )
    };
    let blocks: String = s.events.iter().map(|e| block(e)).collect();
    assert_eq!(r.body, multistatus(&blocks));
    assert_eq!(s.asked, 3);
    let none = serve(&mut s, caldav_report(stranger(), String::new())).unwrap();
    assert_eq!(none.body, multistatus(""));
}

#[test]
fn report_escapes_the_calendar_data() {
    let mut s = store();
    s.events = vec![event(100, 10, "Q&A <live> \"now\" 'here'")];
    let r = serve(&mut s, caldav_report(owner(), String::new())).unwrap();
    assert!(r.body.contains("SUMMARY:Q&amp;A &lt;live&gt; &quot;now&quot; &apos;here&apos;\r\n"));
}

#[test]
fn an_answer_that_does_not_fit_fails() {
    let cases = vec![
        (Pending::GetEvent, Answer::Deleted),
        (Pending::Propfind, Answer::Events(Vec::new())),
        (Pending::DeleteDone, Answer::Calendar(None)),
        (Pending::ReportCalendars, Answer::Event(None)),
        (Pending::PutCreated { calendar_id: Id::from_u128(1) }, Answer::Deleted),
        (
            Pending::ReportEvents { calendars: Vec::new(), index: 0, responses: String::new() },
            Answer::Events(Vec::new()),
        ),
    ];
    for (pending, given) in cases {
        match resume(pending, given) {
            Step::Failed(AppError::InternalServerError(m)) => {
                assert_eq!(m, "Unexpected answer from the data layer")
            }
            other => panic!("unexpected {:?}", other),
        }
    }
}

#[test]
fn escape_xml_writes_the_five_entities() {
    assert_eq!(escape_xml("&"), "&amp;");
    assert_eq!(escape_xml("<"), "&lt;");
    assert_eq!(escape_xml(">"), "&gt;");
    assert_eq!(escape_xml("\""), "&quot;");
    assert_eq!(escape_xml("'"), "&apos;");
    assert_eq!(escape_xml("a&b<c>d\"e'f"), "a&amp;b&lt;c&gt;d&quot;e&apos;f");
    assert_eq!(escape_xml("&amp;"), "&amp;amp;");
    assert_eq!(escape_xml("plain; text, \\ \n"), "plain; text, \\ \n");
    assert_eq!(escape_xml(""), "");
}

#[test]
fn verb_and_path_choose_the_handler() {
    let mut s = store();
    for home in ["/calendars", "/calendars/"] {
        let listed = serve(&mut s, caldav_request(owner(), "PROPFIND", home, String::new())).unwrap();
        assert_eq!(listed.body, serve(&mut s, caldav_propfind(owner())).unwrap().body);
        let any = serve(&mut s, caldav_request(owner(), "GET", home, String::new())).unwrap();
        assert_eq!(any.body, listed.body);
        let reported = serve(&mut s, caldav_request(owner(), "REPORT", home, "q".to_string())).unwrap();
        assert_eq!(reported.body, serve(&mut s, caldav_report(owner(), "q".to_string())).unwrap().body);
        assert_ne!(reported.body, listed.body);
    }
    let path = event_path(10, 100);
    let read = serve(&mut s, caldav_request(owner(), "GET", &path, String::new())).unwrap();
    assert_eq!(read.status, 200);
    let other = serve(&mut s, caldav_request(owner(), "PROPFIND", &path, String::new())).unwrap();
    assert_eq!(other.body, read.body);
    let body = "SUMMARY:x\nDTSTART:20240401\nDTEND:20240402".to_string();
    assert_eq!(serve(&mut s, caldav_request(owner(), "PUT", &path, body)).unwrap().status, 201);
    assert_eq!(serve(&mut s, caldav_request(owner(), "DELETE", &path, String::new())).unwrap().status, 204);
    assert_eq!(missing(serve(&mut s, caldav_request(owner(), "GET", &path, String::new()))), "Event not found");
    assert_eq!(refusal(serve(&mut s, caldav_request(stranger(), "put", &path, String::new()))), "Access denied");
    assert!(is_calendar_creation("MKCOL", "/calendars/new"));
    assert!(!is_calendar_creation("GET", "/calendars/new"));
    assert!(!is_calendar_creation("MKCOL", "/calendars/new/"));
    assert!(!is_calendar_creation("mkcol", "/calendars/new"));
}
