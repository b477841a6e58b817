use caldav_server::error::AppError;
use caldav_server::forms::form_time_or_error;
use caldav_server::ical::calendar_document;
use caldav_server::ical::date_or_error;
use caldav_server::ical::date_time_or_error;
use caldav_server::ical::escape_ical_text;
use caldav_server::ical::event_document;
use caldav_server::ical::parse_ical_datetime;
use caldav_server::ical::parse_icalendar;
use caldav_server::ical::unescape_ical_text;
use caldav_server::ical::ICalendarEvent;
use caldav_server::ident::Id;
use caldav_server::models::Event;
use caldav_server::time::UtcDateTime;
use chrono::Datelike;

fn at(year: i32, month: u32, day: u32, hour: u32, minute: u32, second: u32) -> UtcDateTime {
    UtcDateTime::new(year, month, day, hour, minute, second, 0).unwrap()
}

fn event(title: &str, description: Option<&str>, location: Option<&str>) -> Event {
    Event {
        id: Id::from_u128(0x550e8400_e29b_41d4_a716_446655440000),
        calendar_id: Id::from_u128(7),
        title: title.to_string(),
        description: description.map(|d| d.to_string()),
        location: location.map(|l| l.to_string()),
        start_time: at(2024, 3, 1, 9, 0, 0),
        end_time: at(2024, 3, 1, 9, 15, 0),
        is_all_day: false,
        created_at: at(2024, 1, 1, 0, 0, 0),
        updated_at: at(2024, 1, 1, 0, 0, 0),
    }
}

fn validation_message<T: std::fmt::Debug>(r: Result<T, AppError>) -> String {
    match r {
        Err(AppError::ValidationError(m)) => m,
        other => panic!("expected a validation error, got {:?}", other),
    }
}

#[test]
fn escape_leaves_plain_text_alone() {
    assert_eq!(escape_ical_text("Standup"), "Standup");
    assert_eq!(escape_ical_text(""), "");
    assert_eq!(escape_ical_text("tab\there \"quoted\" <&>"), "tab\there \"quoted\" <&>");
}

#[test]
fn escape_writes_the_four_escapes() {
    assert_eq!(escape_ical_text("\\"), "\\\\");
    assert_eq!(escape_ical_text(";"), "\\;");
    assert_eq!(escape_ical_text(","), "\\,");
    assert_eq!(escape_ical_text("\n"), "\\n");
    assert_eq!(escape_ical_text("a\\b;c,d\ne"), "a\\\\b\\;c\\,d\\ne");
    assert_eq!(escape_ical_text("\r"), "\r");
}

#[test]
fn unescape_reads_the_four_escapes() {
    let escaped: Vec<char> = "a\\\\b\\;c\\,d\\ne".chars().collect();
    assert_eq!(unescape_ical_text(&escaped), "a\\b;c,d\ne");
}

#[test]
fn unescape_keeps_other_backslashes() {
    let odd: Vec<char> = "a\\xb\\".chars().collect();
    assert_eq!(unescape_ical_text(&odd), "a\\xb\\");
    let upper: Vec<char> = "\\N".chars().collect();
    assert_eq!(unescape_ical_text(&upper), "\\N");
}

#[test]
fn unescape_undoes_escape() {
    for text in ["", "plain", "\\n", "\\\\n", "a;b", ",,,", "line\nbreak", "\\", "\\;\\,\\\\"] {
        let escaped: Vec<char> = escape_ical_text(text).chars().collect();
        assert_eq!(unescape_ical_text(&escaped), text);
    }
}

#[test]
fn vevent_has_eight_lines_in_fixed_order() {
    let e = event("Standup", Some("Daily"), Some("Room 1"));
    let text = ICalendarEvent::from(&e).to_ical_string();
    assert_eq!(
        text,
        "BEGIN:VEVENT\r\n\
         UID:550e8400-e29b-41d4-a716-446655440000\r\n\
         SUMMARY:Standup\r\n\
         DESCRIPTION:Daily\r\n\
         LOCATION:Room 1\r\n\
         DTSTART:20240301T090000Z\r\n\
         DTEND:20240301T091500Z\r\n\
         END:VEVENT\r\n"
    );
}

#[test]
fn vevent_keeps_the_lines_of_absent_fields() {
    let e = event("Standup", None, None);
    let text = ICalendarEvent::from(&e).to_ical_string();
    assert!(text.contains("\r\nDESCRIPTION:\r\nLOCATION:\r\nDTSTART:"));
}

#[test]
fn vevent_of_an_all_day_event_still_shows_the_time() {
    let mut e = event("Holiday", None, None);
    e.is_all_day = true;
    e.start_time = at(2024, 12, 25, 0, 0, 0);
    e.end_time = at(2024, 12, 26, 0, 0, 0);
    let text = ICalendarEvent::from(&e).to_ical_string();
    assert!(text.contains("DTSTART:20241225T000000Z\r\n"));
    assert!(text.contains("DTEND:20241226T000000Z\r\n"));
}

#[test]
fn escaped_title_is_recovered() {
    let title = "Team; Sync, Room\\1\nFinal";
    let e = event(title, None, None);
    let text = ICalendarEvent::from(&e).to_ical_string();
    assert!(text.contains("SUMMARY:Team\\; Sync\\, Room\\\\1\\nFinal\r\n"));
    let draft = parse_icalendar(&text).unwrap();
    assert_eq!(draft.title, title);
}

#[test]
fn round_trip_returns_the_event() {
    let e = event("Review, part 2; final", Some("Bring\nnotes"), Some("C:\\rooms\\4"));
    let text = ICalendarEvent::from(&e).to_ical_string();
    let draft = parse_icalendar(&text).unwrap();
    assert_eq!(draft.title, e.title);
    assert_eq!(draft.description, e.description);
    assert_eq!(draft.location, e.location);
    assert_eq!(draft.start_time, e.start_time);
    assert_eq!(draft.end_time, e.end_time);
    assert!(!draft.is_all_day);
}

#[test]
fn round_trip_of_absent_fields_gives_empty_ones() {
    let e = event("Standup", None, None);
    let draft = parse_icalendar(&ICalendarEvent::from(&e).to_ical_string()).unwrap();
    assert_eq!(draft.description, Some(String::new()));
    assert_eq!(draft.location, Some(String::new()));
}

#[test]
fn round_trip_loses_trailing_space() {
    let e = event("Standup ", None, None);
    let draft = parse_icalendar(&ICalendarEvent::from(&e).to_ical_string()).unwrap();
    assert_eq!(draft.title, "Standup");
}

#[test]
fn round_trip_cuts_to_whole_seconds() {
    let mut e = event("Standup", None, None);
    e.start_time = UtcDateTime::new(2024, 3, 1, 9, 0, 0, 123_456_789).unwrap();
    let draft = parse_icalendar(&ICalendarEvent::from(&e).to_ical_string()).unwrap();
    assert_eq!(draft.start_time, at(2024, 3, 1, 9, 0, 0));
}

#[test]
fn date_decodes_to_midnight() {
    assert_eq!(parse_ical_datetime("20240115").unwrap(), at(2024, 1, 15, 0, 0, 0));
}

#[test]
fn utc_date_time_decodes() {
    assert_eq!(parse_ical_datetime("20240115T143000Z").unwrap(), at(2024, 1, 15, 14, 30, 0));
}

#[test]
fn floating_date_time_is_taken_as_utc() {
    assert_eq!(parse_ical_datetime("20240115T143000").unwrap(), at(2024, 1, 15, 14, 30, 0));
}

#[test]
fn date_time_value_is_trimmed() {
    assert_eq!(parse_ical_datetime("  20240115\t").unwrap(), at(2024, 1, 15, 0, 0, 0));
}

#[test]
fn utc_date_time_reads_its_first_fifteen_characters() {
    assert_eq!(parse_ical_datetime("20240115T143000.000Z").unwrap(), at(2024, 1, 15, 14, 30, 0));
}

#[test]
fn leap_second_is_read_and_written() {
    let t = parse_ical_datetime("20161231T235960Z").unwrap();
    assert_eq!(t, UtcDateTime::new(2016, 12, 31, 23, 59, 59, 1_000_000_000).unwrap());
    assert_eq!(t.to_ical_stamp(), "20161231T235960Z");
}

#[test]
fn dtstart_line_forms() {
    let plain = parse_icalendar("SUMMARY:x\nDTSTART:20240115\nDTEND:20240116").unwrap();
    assert_eq!(plain.start_time, at(2024, 1, 15, 0, 0, 0));
    assert!(!plain.is_all_day);
    let timed = parse_icalendar("SUMMARY:x\nDTSTART:20240115T143000Z\nDTEND:20240116").unwrap();
    assert_eq!(timed.start_time, at(2024, 1, 15, 14, 30, 0));
    assert!(!timed.is_all_day);
    let all_day = parse_icalendar("SUMMARY:x\nDTSTART;VALUE=DATE:20240115\nDTEND:20240116").unwrap();
    assert_eq!(all_day.start_time, plain.start_time);
    assert!(all_day.is_all_day);
}

#[test]
fn dtend_line_marks_all_day_too() {
    let draft = parse_icalendar("SUMMARY:x\nDTSTART:20240115\nDTEND;VALUE=DATE:20240116").unwrap();
    assert!(draft.is_all_day);
    assert_eq!(draft.end_time, at(2024, 1, 16, 0, 0, 0));
}

#[test]
fn marker_on_another_line_marks_nothing() {
    let draft =
        parse_icalendar("SUMMARY:x\nRDATE;VALUE=DATE:20240101\nDTSTART:20240115\nDTEND:20240116")
            .unwrap();
    assert!(!draft.is_all_day);
}

#[test]
fn value_is_what_follows_the_last_colon() {
    let draft = parse_icalendar(
        "SUMMARY:x\nDTSTART;TZID=Europe/Paris:x:20240115T143000\nDTEND:20240116",
    )
    .unwrap();
    assert_eq!(draft.start_time, at(2024, 1, 15, 14, 30, 0));
}

#[test]
fn decode_accepts_lf_and_crlf_and_indentation() {
    let lf = parse_icalendar("SUMMARY:a\nDTSTART:20240115\nDTEND:20240116\n").unwrap();
    let crlf = parse_icalendar("SUMMARY:a\r\nDTSTART:20240115\r\nDTEND:20240116\r\n").unwrap();
    let padded = parse_icalendar("  SUMMARY:a  \n\tDTSTART:20240115\n DTEND:20240116 ").unwrap();
    for draft in [lf, crlf, padded] {
        assert_eq!(draft.title, "a");
        assert_eq!(draft.start_time, at(2024, 1, 15, 0, 0, 0));
        assert_eq!(draft.end_time, at(2024, 1, 16, 0, 0, 0));
        assert_eq!(draft.description, None);
        assert_eq!(draft.location, None);
    }
}

#[test]
fn decode_takes_the_last_of_a_repeated_property() {
    let draft =
        parse_icalendar("SUMMARY:a\nSUMMARY:b\nDTSTART:20240115\nDTEND:20240116\nLOCATION:x\nLOCATION:y")
            .unwrap();
    assert_eq!(draft.title, "b");
    assert_eq!(draft.location, Some("y".to_string()));
}

#[test]
fn decode_accepts_an_end_before_the_start() {
    let draft = parse_icalendar("SUMMARY:a\nDTSTART:20240116\nDTEND:20240115").unwrap();
    assert_eq!(draft.start_time, at(2024, 1, 16, 0, 0, 0));
    assert_eq!(draft.end_time, at(2024, 1, 15, 0, 0, 0));
}

#[test]
fn decode_requires_summary_start_and_end() {
    assert_eq!(validation_message(parse_icalendar("")), "Missing SUMMARY");
    assert_eq!(
        validation_message(parse_icalendar("DTSTART:20240115\nDTEND:20240116")),
        "Missing SUMMARY"
    );
    assert_eq!(validation_message(parse_icalendar("SUMMARY:a\nDTEND:20240116")), "Missing DTSTART");
    assert_eq!(validation_message(parse_icalendar("SUMMARY:a\nDTSTART:20240115")), "Missing DTEND");
}

#[test]
fn decode_rejects_instants_that_cannot_be_read() {
    assert_eq!(validation_message(parse_ical_datetime("20240230")), "Invalid date format");
    assert_eq!(validation_message(parse_ical_datetime("2024011x")), "Invalid date format");
    assert_eq!(validation_message(parse_ical_datetime("")), "Invalid datetime format");
    assert_eq!(validation_message(parse_ical_datetime("Z")), "Invalid datetime format");
    assert_eq!(validation_message(parse_ical_datetime("20240115T1430Z")), "Invalid datetime format");
    assert_eq!(validation_message(parse_ical_datetime("20240115T250000Z")), "Invalid datetime format");
    assert_eq!(validation_message(parse_ical_datetime("tomorrow")), "Invalid date format");
    assert_eq!(validation_message(parse_ical_datetime("next week")), "Invalid datetime format");
    assert_eq!(
        validation_message(parse_icalendar("DTSTART:20240115T999999Z\nDTEND:junk")),
        "Invalid datetime format"
    );
    assert_eq!(
        validation_message(parse_icalendar("DTEND:2024011\nSUMMARY:a")),
        "Invalid datetime format"
    );
}

#[test]
fn stamp_of_a_year_outside_four_digits_has_a_sign() {
    assert_eq!(at(12345, 1, 2, 3, 4, 5).to_ical_stamp(), "+123450102T030405Z");
    assert_eq!(at(-1, 1, 2, 3, 4, 5).to_ical_stamp(), "-00010102T030405Z");
    assert_eq!(at(0, 1, 2, 3, 4, 5).to_ical_stamp(), "00000102T030405Z");
    assert_eq!(at(987, 11, 30, 23, 59, 59).to_ical_stamp(), "09871130T235959Z");
}

#[test]
fn calendar_document_wraps_the_events() {
    let events = vec![event("One", None, None), event("Two", None, None)];
    let text = calendar_document("Work", &events);
    let first = ICalendarEvent::from(&events[0]).to_ical_string();
    let second = ICalendarEvent::from(&events[1]).to_ical_string();
    let expected = format!(
        "BEGIN:VCALENDAR\r\nVERSION:2.0\r\nPRODID:-//My CalDAV Server//EN\r\nCALSCALE:GREGORIAN\r\nX-WR-CALNAME:Work\r\n{}{}END:VCALENDAR\r\n",
        first, second
    );
    assert_eq!(text, expected);
    assert_eq!(
        calendar_document("Empty", &Vec::new()),
        "BEGIN:VCALENDAR\r\nVERSION:2.0\r\nPRODID:-//My CalDAV Server//EN\r\nCALSCALE:GREGORIAN\r\nX-WR-CALNAME:Empty\r\nEND:VCALENDAR\r\n"
    );
}

#[test]
fn event_document_wraps_one_event() {
    let e = event("One", None, None);
    let expected = format!(
        "BEGIN:VCALENDAR\r\nVERSION:2.0\r\nPRODID:-//My CalDAV Server//EN\r\nCALSCALE:GREGORIAN\r\n{}END:VCALENDAR\r\n",
        ICalendarEvent::from(&e).to_ical_string()
    );
    assert_eq!(event_document(&e), expected);
}

#[test]
fn parser_results_become_instants() {
    let found = chrono::NaiveDate::parse_from_str("20240115", "%Y%m%d")
        .map(|d| (d.year(), d.month(), d.day()));
    assert_eq!(date_or_error(found).unwrap(), at(2024, 1, 15, 0, 0, 0));
    let none = chrono::NaiveDate::parse_from_str("junk", "%Y%m%d")
        .map(|d| (d.year(), d.month(), d.day()));
    assert_eq!(validation_message(date_or_error(none)), "Invalid date format");
    assert_eq!(validation_message(date_or_error(Ok((2024, 2, 30)))), "Invalid date format");
    let t = at(2024, 1, 15, 14, 30, 0);
    assert_eq!(date_time_or_error(Ok(t)).unwrap(), t);
    let unread = chrono::NaiveDate::parse_from_str("junk", "%Y%m%d").unwrap_err();
    assert_eq!(validation_message(date_time_or_error(Err(unread))), "Invalid datetime format");
    assert_eq!(form_time_or_error(Ok(t), "bad").unwrap(), t);
    assert_eq!(validation_message(form_time_or_error(Err(unread), "bad")), "bad");
}

#[test]
fn plain_forms_are_read_field_by_field() {
    let years = [0, 1, 999, 1000, 2024, 9999];
    let days = [(1, 1), (2, 28), (2, 29), (2, 30), (4, 31), (12, 31), (0, 1), (13, 1), (1, 0), (1, 32)];
    let times = [(0, 0, 0), (23, 59, 59), (23, 59, 60), (24, 0, 0), (12, 60, 0), (12, 0, 61), (0, 0, 60)];
    for year in years {
        for (month, day) in days {
            let date = format!("{:04}{:02}{:02}", year, month, day);
            let expected_date = UtcDateTime::midnight(year, month, day);
            assert_eq!(parse_ical_datetime(&date).ok(), expected_date, "{}", date);
            for (hour, minute, second) in times {
                let text = format!("{}T{:02}{:02}{:02}", date, hour, minute, second);
                let expected = if second == 60 {
                    UtcDateTime::new(year, month, day, hour, minute, 59, 1_000_000_000)
                } else {
                    UtcDateTime::new(year, month, day, hour, minute, second, 0)
                };
                assert_eq!(parse_ical_datetime(&text).ok(), expected, "{}", text);
                assert_eq!(parse_ical_datetime(&format!("{}Z", text)).ok(), expected, "{}Z", text);
            }
        }
    }
}

#[test]
fn instants_come_back_whatever_the_text_holds() {
    let titles = ["Standup ", " ", "", "tab\t", "line\n", "cr\r", "  both  ", "SUMMARY:x", "DTSTART:19990101", "\u{2003}", "x\u{00a0}"];
    for title in titles {
        for extra in [None, Some("  "), Some("VALUE=DATE "), Some("a\r\n"), Some("ends \\")] {
            let mut e = event(title, extra, extra);
            e.is_all_day = true;
            e.start_time = at(1, 1, 1, 0, 0, 0);
            e.end_time = at(9999, 12, 31, 23, 59, 59);
            let draft = parse_icalendar(&ICalendarEvent::from(&e).to_ical_string()).unwrap();
            assert_eq!(draft.start_time, e.start_time, "{:?}", title);
            assert_eq!(draft.end_time, e.end_time, "{:?}", title);
            assert!(!draft.is_all_day);
            let kept = |t: &str| {
                let escaped = caldav_server::ical::escape_ical_text(t);
                let cut: Vec<char> = escaped.trim_end().chars().collect();
                unescape_ical_text(&cut)
            };
            assert_eq!(draft.title, kept(title), "{:?}", title);
            assert_eq!(draft.description, Some(kept(extra.unwrap_or(""))));
            assert_eq!(draft.location, Some(kept(extra.unwrap_or(""))));
        }
    }
    let e = event("Standup \t", None, None);
    assert_eq!(parse_icalendar(&ICalendarEvent::from(&e).to_ical_string()).unwrap().title, "Standup");
    let e = event("kept\n", None, None);
    assert_eq!(parse_icalendar(&ICalendarEvent::from(&e).to_ical_string()).unwrap().title, "kept\n");
}
