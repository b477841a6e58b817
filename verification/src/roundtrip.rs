//! What the codec guarantees: a `VEVENT` block that the encoder wrote is
//! decoded to the event that it was written from.

use crate::ical::decoded;
use crate::ical::date_time_value;
use crate::ical::ical_escaped;
use crate::ical::ical_escaped_char;
use crate::ical::ical_event_of;
use crate::ical::ical_unescaped;
use crate::ical::line;
use crate::ical::line_read;
use crate::ical::lines_read;
use crate::ical::no_fields;
use crate::ical::or_empty;
use crate::ical::vevent_text;
use crate::ical::Fields;
use crate::ical::ICalendarEventView;
use crate::ident::hex_text;
use crate::ident::uuid_text;
use crate::error::ErrorView;
use crate::models::EventView;
use crate::models::NewEventView;
use crate::text::after_last;
use crate::text::has_prefix;
use crate::text::has_substring;
use crate::text::is_white_space;
use crate::text::lemma_after_last;
use crate::text::lemma_expand_first;
use crate::text::lemma_prefix_of_concat;
use crate::text::lemma_split_at;
use crate::text::lemma_trim_keeps_head;
use crate::text::trim_end;
use crate::text::split;
use crate::time::ical_stamp;
use crate::time::lemma_stamp_reads_back;
use crate::time::UtcDateTime;
use vstd::prelude::*;

verus! {

/// The text does not end in white space that trimming a line would take
/// away. A final newline is kept: it is written as an escape.
pub open spec fn keeps_its_end(s: Seq<char>) -> bool {
    s.len() == 0 || !is_white_space(s.last()) || s.last() == '\n'
}

/// No character of the text ends a line.
pub open spec fn on_one_line(s: Seq<char>) -> bool {
    forall|i: int| 0 <= i < s.len() ==> s[i] != '\n'
}

/// Unescaping undoes escaping.
pub proof fn lemma_unescape_escape(s: Seq<char>)
    ensures
        ical_unescaped(ical_escaped(s)) == s,
    decreases s.len(),
{
    let f = |c: char| ical_escaped_char(c);
    if s.len() > 0 {
        let c = s[0];
        let e = ical_escaped(s);
        let tail = ical_escaped(s.skip(1));
        lemma_expand_first(s, f);
        lemma_unescape_escape(s.skip(1));
        if c == '\\' || c == ';' || c == ',' || c == '\n' {
            assert(e.skip(2) == tail);
        } else {
            assert(e.skip(1) == tail);
        }
    }
}

/// An escaped text stands on one line, is empty only where the text is, and
/// ends in white space only where the text ends in white space other than a
/// newline.
pub proof fn lemma_escaped_shape(s: Seq<char>)
    ensures
        on_one_line(ical_escaped(s)),
        s.len() == 0 ==> ical_escaped(s).len() == 0,
        s.len() > 0 ==> ical_escaped(s).len() > 0,
        s.len() > 0 && keeps_its_end(s) ==> !is_white_space(ical_escaped(s).last()),
    decreases s.len(),
{
    if s.len() > 0 {
        lemma_escaped_shape(s.drop_last());
    }
}

/// The characters of which the text of an identifier is made.
pub open spec fn is_uuid_char(c: char) -> bool {
    ('0' <= c <= '9') || ('a' <= c <= 'f') || c == '-'
}

/// Hexadecimal text has the length asked for and holds hexadecimal digits only.
pub proof fn lemma_hex_text_shape(v: nat, digits: nat)
    ensures
        hex_text(v, digits).len() == digits,
        forall|i: int| 0 <= i < digits ==> is_uuid_char(#[trigger] hex_text(v, digits)[i]),
    decreases digits,
{
    if digits > 0 {
        lemma_hex_text_shape(v / 16, (digits - 1) as nat);
        let d = (v % 16) as int;
        let alphabet = seq![
            '0',
            '1',
            '2',
            '3',
            '4',
            '5',
            '6',
            '7',
            '8',
            '9',
            'a',
            'b',
            'c',
            'd',
            'e',
            'f',
        ];
        assert(alphabet[0] == '0' && alphabet[1] == '1' && alphabet[2] == '2' && alphabet[3] == '3'
            && alphabet[4] == '4' && alphabet[5] == '5' && alphabet[6] == '6' && alphabet[7] == '7'
            && alphabet[8] == '8' && alphabet[9] == '9' && alphabet[10] == 'a' && alphabet[11]
            == 'b' && alphabet[12] == 'c' && alphabet[13] == 'd' && alphabet[14] == 'e'
            && alphabet[15] == 'f');
    }
}

/// The text of an identifier has 36 characters: hexadecimal digits and hyphens.
pub proof fn lemma_uuid_text_shape(v: u128)
    ensures
        uuid_text(v).len() == 36,
        forall|i: int| 0 <= i < 36 ==> is_uuid_char(#[trigger] uuid_text(v)[i]),
{
    lemma_hex_text_shape(v as nat, 32);
}

/// The first two characters of each property name that the decoder knows.
proof fn lemma_names()
    ensures
        "SUMMARY:"@.len() == 8 && "SUMMARY:"@[0] == 'S' && "SUMMARY:"@[7] == ':',
        "DESCRIPTION:"@.len() == 12 && "DESCRIPTION:"@[0] == 'D' && "DESCRIPTION:"@[1] == 'E'
            && "DESCRIPTION:"@[11] == ':',
        "LOCATION:"@.len() == 9 && "LOCATION:"@[0] == 'L' && "LOCATION:"@[8] == ':',
        "DTSTART"@.len() == 7 && "DTSTART"@[0] == 'D' && "DTSTART"@[1] == 'T' && "DTSTART"@[2]
            == 'S',
        "DTEND"@.len() == 5 && "DTEND"@[0] == 'D' && "DTEND"@[1] == 'T' && "DTEND"@[2] == 'E',
{
    reveal_strlit("SUMMARY:");
    reveal_strlit("DESCRIPTION:");
    reveal_strlit("LOCATION:");
    reveal_strlit("DTSTART");
    reveal_strlit("DTEND");
}

/// The property names stand on one line.
proof fn lemma_names_on_one_line()
    ensures
        on_one_line("SUMMARY:"@),
        on_one_line("DESCRIPTION:"@),
        on_one_line("LOCATION:"@),
        on_one_line("DTSTART:"@),
        on_one_line("DTEND:"@),
        on_one_line("UID:"@),
        on_one_line("BEGIN:VEVENT"@),
        on_one_line("END:VEVENT"@),
{
    reveal_strlit("SUMMARY:");
    reveal_strlit("DESCRIPTION:");
    reveal_strlit("LOCATION:");
    reveal_strlit("DTSTART:");
    reveal_strlit("DTEND:");
    reveal_strlit("UID:");
    reveal_strlit("BEGIN:VEVENT");
    reveal_strlit("END:VEVENT");
}

/// `DTSTART:` and `DTEND:` are their names and a colon, and hold no `V`.
proof fn lemma_instant_names()
    ensures
        "DTSTART:"@ == "DTSTART"@ + seq![':'],
        "DTEND:"@ == "DTEND"@ + seq![':'],
        forall|i: int| 0 <= i < "DTSTART"@.len() ==> "DTSTART"@[i] != 'V',
        forall|i: int| 0 <= i < "DTEND"@.len() ==> "DTEND"@[i] != 'V',
        "VALUE=DATE"@.len() == 10 && "VALUE=DATE"@[0] == 'V',
{
    reveal_strlit("DTSTART");
    reveal_strlit("DTSTART:");
    reveal_strlit("DTEND");
    reveal_strlit("DTEND:");
    reveal_strlit("VALUE=DATE");
}

/// A content line at the head of a text is read first, trimmed to its
/// fixed part and its value without the white space at the value's end, and
/// the rest of the text is read after it.
proof fn lemma_first_line(f: Fields, key: Seq<char>, value: Seq<char>, rest: Seq<char>)
    requires
        key.len() > 0,
        on_one_line(key),
        !is_white_space(key[0]),
        !is_white_space(key.last()),
        on_one_line(value),
    ensures
        lines_read(f, split(line(key + value) + rest, '\n')) == (match line_read(
            f,
            key + trim_end(value),
        ) {
            Ok(g) => lines_read(g, split(rest, '\n')),
            Err(e) => Err(e),
        }),
{
    let c = key + value;
    let first = c + seq!['\r'];
    assert(line(c) + rest == first + seq!['\n'] + rest);
    lemma_split_at(first, '\n', rest);
    let lines = split(line(c) + rest, '\n');
    assert(lines.skip(1) == split(rest, '\n'));
    lemma_trim_keeps_head(key, value);
}

/// What comes back of a text value that is written and read again: the
/// text without the white space at its end that the trimming of its line
/// takes away.
pub open spec fn read_back(text: Seq<char>) -> Seq<char> {
    ical_unescaped(trim_end(ical_escaped(text)))
}

/// A text that does not end in white space other than a newline comes back
/// as it was.
pub proof fn lemma_read_back_keeps(text: Seq<char>)
    requires
        keeps_its_end(text),
    ensures
        read_back(text) == text,
{
    lemma_unescape_escape(text);
}

/// A line that begins with none of the five property names changes nothing.
proof fn lemma_other_line(f: Fields, c: Seq<char>)
    requires
        c.len() > 0 ==> c[0] != 'S' && c[0] != 'D' && c[0] != 'L',
    ensures
        line_read(f, c) == Ok::<Fields, ErrorView>(f),
{
    lemma_names();
}

/// The UTC form of an instant with a four-digit year is read back as the
/// instant, cut down to whole seconds.
proof fn lemma_stamp_value(t: UtcDateTime)
    requires
        t.is_valid(),
        0 <= t.civil().0 <= 9999,
    ensures
        date_time_value(ical_stamp(t)) == Ok::<UtcDateTime, ErrorView>(t.whole_second()),
        on_one_line(ical_stamp(t)),
        ical_stamp(t).len() > 0,
        !is_white_space(ical_stamp(t).last()),
{
    lemma_stamp_reads_back(t);
}

/// A `DTSTART` or `DTEND` line that the encoder wrote: its value is the UTC
/// form, and it does not mark the event as all-day.
proof fn lemma_stamp_line(key: Seq<char>, t: UtcDateTime)
    requires
        t.is_valid(),
        0 <= t.civil().0 <= 9999,
        forall|i: int| 0 <= i < key.len() ==> key[i] != 'V',
    ensures
        after_last(key + seq![':'] + ical_stamp(t), ':') == ical_stamp(t),
        !has_substring(key + seq![':'] + ical_stamp(t), "VALUE=DATE"@),
{
    let s = ical_stamp(t);
    lemma_stamp_reads_back(t);
    lemma_after_last(key, ':', s);
    lemma_instant_names();
}

/// Reading goes past a line that holds no property the decoder knows.
proof fn lemma_reads_past(f: Fields, key: Seq<char>, value: Seq<char>, rest: Seq<char>)
    requires
        key.len() > 0,
        on_one_line(key),
        key[0] == 'B' || key[0] == 'U' || key[0] == 'E',
        !is_white_space(key.last()),
        on_one_line(value),
    ensures
        lines_read(f, split(line(key + value) + rest, '\n')) == lines_read(f, split(rest, '\n')),
{
    lemma_first_line(f, key, value, rest);
    lemma_other_line(f, key + trim_end(value));
}

/// Reading a `SUMMARY` line that the encoder wrote sets the title.
proof fn lemma_reads_summary(f: Fields, text: Seq<char>, rest: Seq<char>)
    ensures
        lines_read(f, split(line("SUMMARY:"@ + ical_escaped(text)) + rest, '\n')) == lines_read(
            Fields { title: Some(read_back(text)), ..f },
            split(rest, '\n'),
        ),
{
    let value = ical_escaped(text);
    lemma_names();
    lemma_names_on_one_line();
    lemma_escaped_shape(text);
    lemma_first_line(f, "SUMMARY:"@, value, rest);
    lemma_prefix_of_concat("SUMMARY:"@, trim_end(value));
}

/// Reading a `DESCRIPTION` line that the encoder wrote sets the description.
proof fn lemma_reads_description(f: Fields, text: Seq<char>, rest: Seq<char>)
    ensures
        lines_read(f, split(line("DESCRIPTION:"@ + ical_escaped(text)) + rest, '\n'))
            == lines_read(Fields { description: Some(read_back(text)), ..f }, split(rest, '\n')),
{
    let value = ical_escaped(text);
    lemma_names();
    lemma_names_on_one_line();
    lemma_escaped_shape(text);
    lemma_first_line(f, "DESCRIPTION:"@, value, rest);
    lemma_prefix_of_concat("DESCRIPTION:"@, trim_end(value));
}

/// Reading a `LOCATION` line that the encoder wrote sets the location.
proof fn lemma_reads_location(f: Fields, text: Seq<char>, rest: Seq<char>)
    ensures
        lines_read(f, split(line("LOCATION:"@ + ical_escaped(text)) + rest, '\n')) == lines_read(
            Fields { location: Some(read_back(text)), ..f },
            split(rest, '\n'),
        ),
{
    let value = ical_escaped(text);
    lemma_names();
    lemma_names_on_one_line();
    lemma_escaped_shape(text);
    assert("LOCATION:"@.last() == "LOCATION:"@[8]);
    lemma_first_line(f, "LOCATION:"@, value, rest);
    lemma_prefix_of_concat("LOCATION:"@, trim_end(value));
}

/// Reading a `DTSTART` line that the encoder wrote sets the start.
proof fn lemma_reads_start(f: Fields, t: UtcDateTime, rest: Seq<char>)
    requires
        t.is_valid(),
        0 <= t.civil().0 <= 9999,
    ensures
        lines_read(f, split(line("DTSTART:"@ + ical_stamp(t)) + rest, '\n')) == lines_read(
            Fields { start: Some(t.whole_second()), ..f },
            split(rest, '\n'),
        ),
{
    let value = ical_stamp(t);
    let c = "DTSTART:"@ + value;
    lemma_names();
    lemma_instant_names();
    lemma_names_on_one_line();
    lemma_stamp_value(t);
    assert("DTSTART:"@.len() == 8 && "DTSTART:"@[0] == 'D' && "DTSTART:"@[1] == 'T'
        && "DTSTART:"@.last() == ':');
    lemma_first_line(f, "DTSTART:"@, value, rest);
    assert(c == "DTSTART"@ + (seq![':'] + value));
    lemma_prefix_of_concat("DTSTART"@, seq![':'] + value);
    lemma_stamp_line("DTSTART"@, t);
}

/// Reading a `DTEND` line that the encoder wrote sets the end.
proof fn lemma_reads_end(f: Fields, t: UtcDateTime, rest: Seq<char>)
    requires
        t.is_valid(),
        0 <= t.civil().0 <= 9999,
    ensures
        lines_read(f, split(line("DTEND:"@ + ical_stamp(t)) + rest, '\n')) == lines_read(
            Fields { end: Some(t.whole_second()), ..f },
            split(rest, '\n'),
        ),
{
    let value = ical_stamp(t);
    let c = "DTEND:"@ + value;
    lemma_names();
    lemma_instant_names();
    lemma_names_on_one_line();
    lemma_stamp_value(t);
    assert("DTEND:"@.len() == 6 && "DTEND:"@[0] == 'D' && "DTEND:"@[1] == 'T' && "DTEND:"@[2]
        == 'E' && "DTEND:"@.last() == ':');
    lemma_first_line(f, "DTEND:"@, value, rest);
    assert(c == "DTEND"@ + (seq![':'] + value));
    lemma_prefix_of_concat("DTEND"@, seq![':'] + value);
    lemma_stamp_line("DTEND"@, t);
}

/// Reading an empty text changes nothing.
proof fn lemma_reads_nothing(f: Fields)
    ensures
        lines_read(f, split(Seq::<char>::empty(), '\n')) == Ok::<Fields, ErrorView>(f),
{
    let nothing = Seq::<char>::empty();
    lemma_other_line(f, nothing);
    let last = split(nothing, '\n');
    assert(lines_read(f, last.skip(1)) == Ok::<Fields, ErrorView>(f));
}

/// The encoder's block is decoded to what it was written from: the three
/// text values as they are read back, an absent description or location as
/// an empty one, both instants cut down to whole seconds, and no all-day
/// mark.
pub proof fn lemma_block_decodes(e: ICalendarEventView)
    requires
        on_one_line(e.uid),
        e.dtstart.is_valid(),
        e.dtend.is_valid(),
        0 <= e.dtstart.civil().0 <= 9999,
        0 <= e.dtend.civil().0 <= 9999,
    ensures
        decoded(vevent_text(e)) == Ok::<NewEventView, ErrorView>(
            NewEventView {
                title: read_back(e.summary),
                description: Some(read_back(or_empty(e.description))),
                location: Some(read_back(or_empty(e.location))),
                start_time: e.dtstart.whole_second(),
                end_time: e.dtend.whole_second(),
                is_all_day: false,
            },
        ),
{
    let nothing = Seq::<char>::empty();
    let c1 = "BEGIN:VEVENT"@ + nothing;
    let c2 = "UID:"@ + e.uid;
    let c3 = "SUMMARY:"@ + ical_escaped(e.summary);
    let c4 = "DESCRIPTION:"@ + ical_escaped(or_empty(e.description));
    let c5 = "LOCATION:"@ + ical_escaped(or_empty(e.location));
    let c6 = "DTSTART:"@ + ical_stamp(e.dtstart);
    let c7 = "DTEND:"@ + ical_stamp(e.dtend);
    let c8 = "END:VEVENT"@ + nothing;
    let r7 = line(c8) + nothing;
    let r6 = line(c7) + r7;
    let r5 = line(c6) + r6;
    let r4 = line(c5) + r5;
    let r3 = line(c4) + r4;
    let r2 = line(c3) + r3;
    let r1 = line(c2) + r2;
    assert(vevent_text(e) == line(c1) + r1);
    let f0 = no_fields();
    let f3 = Fields { title: Some(read_back(e.summary)), ..f0 };
    let f4 = Fields { description: Some(read_back(or_empty(e.description))), ..f3 };
    let f5 = Fields { location: Some(read_back(or_empty(e.location))), ..f4 };
    let f6 = Fields { start: Some(e.dtstart.whole_second()), ..f5 };
    let f7 = Fields { end: Some(e.dtend.whole_second()), ..f6 };
    assert("BEGIN:VEVENT"@.len() == 12 && "BEGIN:VEVENT"@[0] == 'B' && "BEGIN:VEVENT"@.last()
        == 'T') by {
        reveal_strlit("BEGIN:VEVENT");
    }
    assert("END:VEVENT"@.len() == 10 && "END:VEVENT"@[0] == 'E' && "END:VEVENT"@.last() == 'T')
        by {
        reveal_strlit("END:VEVENT");
    }
    assert("UID:"@.len() == 4 && "UID:"@[0] == 'U' && "UID:"@.last() == ':') by {
        reveal_strlit("UID:");
    }
    lemma_names_on_one_line();
    lemma_reads_past(f0, "BEGIN:VEVENT"@, nothing, r1);
    lemma_reads_past(f0, "UID:"@, e.uid, r2);
    lemma_reads_summary(f0, e.summary, r3);
    lemma_reads_description(f3, or_empty(e.description), r4);
    lemma_reads_location(f4, or_empty(e.location), r5);
    lemma_reads_start(f5, e.dtstart, r6);
    lemma_reads_end(f6, e.dtend, r7);
    lemma_reads_past(f7, "END:VEVENT"@, nothing, nothing);
    lemma_reads_nothing(f7);
}

/// Round trip of any event whose instants have a year from 0 to 9999.
/// Encoded and decoded again, the event is read without error, and its
/// start and end come back, cut down to whole seconds: an instant at a
/// whole second comes back as it was, whatever the text fields hold. Each
/// text field comes back without the white space at its end that the
/// trimming of its line takes away, an absent description or location
/// comes back empty, and the all-day mark is not carried.
pub proof fn law_round_trip_of_any_event(e: EventView)
    requires
        e.start_time.is_valid(),
        e.end_time.is_valid(),
        0 <= e.start_time.civil().0 <= 9999,
        0 <= e.end_time.civil().0 <= 9999,
    ensures
        decoded(vevent_text(ical_event_of(e))) == Ok::<NewEventView, ErrorView>(
            NewEventView {
                title: read_back(e.title),
                description: Some(read_back(or_empty(e.description))),
                location: Some(read_back(or_empty(e.location))),
                start_time: e.start_time.whole_second(),
                end_time: e.end_time.whole_second(),
                is_all_day: false,
            },
        ),
        e.start_time.civil().6 == 0 ==> decoded(vevent_text(ical_event_of(e)))->Ok_0.start_time
            == e.start_time,
        e.end_time.civil().6 == 0 ==> decoded(vevent_text(ical_event_of(e)))->Ok_0.end_time
            == e.end_time,
{
    lemma_uuid_text_shape(e.id.value);
    lemma_block_decodes(ical_event_of(e));
}

/// Round trip. An event that is encoded and decoded again comes back with
/// its title, description, location, start and end, provided that no text
/// field ends in white space other than a newline, and that both instants
/// have a year from 0 to 9999. An absent description or location comes back
/// empty, an instant comes back cut down to whole seconds, and the all-day
/// mark is not carried.
pub proof fn law_round_trip(e: EventView)
    requires
        keeps_its_end(e.title),
        keeps_its_end(or_empty(e.description)),
        keeps_its_end(or_empty(e.location)),
        e.start_time.is_valid(),
        e.end_time.is_valid(),
        0 <= e.start_time.civil().0 <= 9999,
        0 <= e.end_time.civil().0 <= 9999,
    ensures
        decoded(vevent_text(ical_event_of(e))) == Ok::<NewEventView, ErrorView>(
            NewEventView {
                title: e.title,
                description: Some(or_empty(e.description)),
                location: Some(or_empty(e.location)),
                start_time: e.start_time.whole_second(),
                end_time: e.end_time.whole_second(),
                is_all_day: false,
            },
        ),
{
    law_round_trip_of_any_event(e);
    lemma_read_back_keeps(e.title);
    lemma_read_back_keeps(or_empty(e.description));
    lemma_read_back_keeps(or_empty(e.location));
}

} // verus!
