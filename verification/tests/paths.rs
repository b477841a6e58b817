use caldav_server::caldav::caldav_delete;
use caldav_server::caldav::caldav_get;
use caldav_server::caldav::caldav_put;
use caldav_server::caldav::Pending;
use caldav_server::caldav::Query;
use caldav_server::caldav::Step;
use caldav_server::error::AppError;
use caldav_server::ident::Id;
use caldav_server::path::calendar_segment;
use caldav_server::path::event_id;
use caldav_server::path::event_segment;
use caldav_server::path::id_or_error;
use caldav_server::path::is_collection;
use caldav_server::path::parse_id;
use caldav_server::path::path_segments;
use caldav_server::path::strip_ics;

const CAL: &str = "11111111-2222-3333-4444-555555555555";
const EVT: &str = "aaaaaaaa-bbbb-cccc-dddd-eeeeeeeeeeee";

fn user() -> Id {
    Id::from_u128(1)
}

#[test]
fn path_is_cut_at_slashes() {
    assert_eq!(path_segments("/calendars/abc"), vec!["calendars", "abc"]);
    assert_eq!(path_segments("/calendars/abc/"), vec!["calendars", "abc", ""]);
    assert_eq!(path_segments("/calendars/abc/xyz.ics"), vec!["calendars", "abc", "xyz.ics"]);
    assert_eq!(path_segments("/calendars"), vec!["calendars"]);
    assert_eq!(path_segments("calendars/abc"), vec!["calendars", "abc"]);
    assert_eq!(path_segments(""), vec![""]);
    assert_eq!(path_segments("/"), vec![""]);
    assert_eq!(path_segments("/a/b/c/d"), vec!["a", "b", "c", "d"]);
}

#[test]
fn only_one_leading_slash_is_dropped() {
    assert_eq!(path_segments("//calendars/abc"), vec!["", "calendars", "abc"]);
}

#[test]
fn collection_path_has_no_event_segment() {
    let segs = path_segments("/calendars/abc");
    assert_eq!(calendar_segment(&segs).unwrap(), "abc");
    assert!(is_collection(&segs));
    assert!(is_collection(&path_segments("/calendars/abc/")));
    assert!(!is_collection(&path_segments("/calendars/abc/xyz.ics")));
}

#[test]
fn event_path_names_a_file() {
    let segs = path_segments("/calendars/abc/xyz.ics");
    assert_eq!(calendar_segment(&segs).unwrap(), "abc");
    assert_eq!(event_segment(&segs).unwrap(), "xyz.ics");
    assert_eq!(strip_ics("xyz.ics"), "xyz");
}

#[test]
fn suffix_is_stripped_once() {
    assert_eq!(strip_ics("xyz"), "xyz");
    assert_eq!(strip_ics(".ics"), "");
    assert_eq!(strip_ics("xyz.ics.ics"), "xyz.ics");
    assert_eq!(strip_ics("xyz.ICS"), "xyz.ICS");
    assert_eq!(strip_ics("ics"), "ics");
}

#[test]
fn short_paths_fail_validation() {
    let one = path_segments("/calendars");
    match calendar_segment(&one) {
        Err(AppError::ValidationError(m)) => assert_eq!(m, "Invalid calendar path"),
        other => panic!("unexpected {:?}", other),
    }
    let two = path_segments("/calendars/abc");
    match event_segment(&two) {
        Err(AppError::ValidationError(m)) => assert_eq!(m, "Invalid event path"),
        other => panic!("unexpected {:?}", other),
    }
}

#[test]
fn segment_that_is_no_identifier_is_an_identifier_error() {
    assert!(matches!(parse_id("abc"), Err(AppError::UuidError(_))));
    assert!(matches!(event_id("xyz.ics"), Err(AppError::UuidError(_))));
    assert!(matches!(event_id(""), Err(AppError::UuidError(_))));
    assert!(matches!(id_or_error(Id::parse_str("nope")), Err(AppError::UuidError(_))));
    assert_eq!(id_or_error(Id::parse_str(CAL)).unwrap(), Id::parse_str(CAL).unwrap());
}

#[test]
fn identifiers_are_read_from_segments() {
    assert_eq!(parse_id(CAL).unwrap(), Id::parse_str(CAL).unwrap());
    assert_eq!(event_id(&format!("{}.ics", EVT)).unwrap(), Id::parse_str(EVT).unwrap());
    assert_eq!(event_id(EVT).unwrap(), Id::parse_str(EVT).unwrap());
}

#[test]
fn get_begins_by_asking_for_the_calendar() {
    match caldav_get(user(), &format!("/calendars/{}", CAL)) {
        Step::Ask(Query::Calendar(id), Pending::GetCalendar { user: u, calendar_id, segments }) => {
            assert_eq!(id, Id::parse_str(CAL).unwrap());
            assert_eq!(calendar_id, id);
            assert_eq!(u, user());
            assert_eq!(segments, vec!["calendars", CAL]);
        }
        other => panic!("unexpected {:?}", other),
    }
}

#[test]
fn get_of_a_short_path_fails_validation() {
    match caldav_get(user(), "/calendars") {
        Step::Failed(AppError::ValidationError(m)) => assert_eq!(m, "Invalid calendar path"),
        other => panic!("unexpected {:?}", other),
    }
}

#[test]
fn get_of_a_bad_calendar_id_fails_with_an_identifier_error() {
    assert!(matches!(caldav_get(user(), "/calendars/abc"), Step::Failed(AppError::UuidError(_))));
    assert!(matches!(
        caldav_get(user(), "/calendars/abc/xyz.ics"),
        Step::Failed(AppError::UuidError(_))
    ));
}

#[test]
fn put_needs_three_segments_and_a_calendar() {
    match caldav_put(user(), &format!("/calendars/{}", CAL), String::new()) {
        Step::Failed(AppError::ValidationError(m)) => assert_eq!(m, "Invalid event path"),
        other => panic!("unexpected {:?}", other),
    }
    assert!(matches!(
        caldav_put(user(), "/calendars/abc/new.ics", String::new()),
        Step::Failed(AppError::UuidError(_))
    ));
    match caldav_put(user(), &format!("/calendars/{}/anything.ics", CAL), "body".to_string()) {
        Step::Ask(Query::Calendar(id), Pending::PutCalendar { user: u, calendar_id, body }) => {
            assert_eq!(id, Id::parse_str(CAL).unwrap());
            assert_eq!(calendar_id, id);
            assert_eq!(u, user());
            assert_eq!(body, "body");
        }
        other => panic!("unexpected {:?}", other),
    }
}

#[test]
fn delete_needs_three_segments_and_an_event() {
    match caldav_delete(user(), &format!("/calendars/{}", CAL)) {
        Step::Failed(AppError::ValidationError(m)) => assert_eq!(m, "Invalid event path"),
        other => panic!("unexpected {:?}", other),
    }
    assert!(matches!(
        caldav_delete(user(), &format!("/calendars/{}/xyz.ics", CAL)),
        Step::Failed(AppError::UuidError(_))
    ));
    assert!(matches!(
        caldav_delete(user(), &format!("/calendars/{}/", CAL)),
        Step::Failed(AppError::UuidError(_))
    ));
    match caldav_delete(user(), &format!("/calendars/not-read/{}.ics", EVT)) {
        Step::Ask(Query::Event(id), Pending::DeleteEvent { user: u, event_id }) => {
            assert_eq!(id, Id::parse_str(EVT).unwrap());
            assert_eq!(event_id, id);
            assert_eq!(u, user());
        }
        other => panic!("unexpected {:?}", other),
    }
}

#[test]
fn paths_resolve_to_typed_identifiers() {
    let cal = Id::parse_str(CAL).unwrap();
    let evt = Id::parse_str(EVT).unwrap();
    for path in [format!("/calendars/{}", CAL), format!("/calendars/{}/", CAL), format!("calendars/{}", CAL)] {
        let p = caldav_server::path::resolve(&path).unwrap();
        assert_eq!((p.calendar_id, p.event_id), (cal, None));
    }
    for path in [format!("/calendars/{}/{}.ics", CAL, EVT), format!("/calendars/{}/{}", CAL, EVT), format!("/x/{}/{}.ics/more", CAL, EVT)] {
        let p = caldav_server::path::resolve(&path).unwrap();
        assert_eq!((p.calendar_id, p.event_id), (cal, Some(evt)));
    }
    match caldav_server::path::resolve("/calendars") {
        Err(AppError::ValidationError(m)) => assert_eq!(m, "Invalid calendar path"),
        other => panic!("unexpected {:?}", other),
    }
    assert!(matches!(caldav_server::path::resolve("/calendars/abc"), Err(AppError::UuidError(_))));
    assert!(matches!(
        caldav_server::path::resolve(&format!("/calendars/{}/xyz.ics", CAL)),
        Err(AppError::UuidError(_))
    ));
    assert!(matches!(
        caldav_server::path::resolve(&format!("//calendars/{}", CAL)),
        Err(AppError::UuidError(_))
    ));
    let both = caldav_server::path::path_from(Id::parse_str("x").map_err(AppError::UuidError), Some(Ok(evt)));
    assert!(matches!(both, Err(AppError::UuidError(_))));
    let p = caldav_server::path::path_from(Ok(cal), None).unwrap();
    assert_eq!(p, caldav_server::path::ResourcePath { calendar_id: cal, event_id: None });
}
