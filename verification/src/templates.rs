//! What the pages of the web interface show.

use crate::ident::Id;
use crate::models::text_view;
use crate::models::Calendar;
use crate::models::Event;
use crate::models::EventView;
use crate::models::Share;
use crate::models::User;
use crate::time::UtcDateTime;
use vstd::prelude::*;
use vstd::string::StringExecFns;

verus! {

/// What a page shows of a user.
#[derive(Clone, Debug)]
pub struct UserInfo {
    pub id: Id,
    pub name: String,
    pub email: String,
}

impl UserInfo {
    /// What a page shows of the given user.
    pub fn from(user: &User) -> (info: UserInfo)
        ensures
            info.id == user.id,
            info.name@ == user.name@,
            info.email@ == user.email@,
    {
        UserInfo { id: user.id, name: user.name.clone(), email: user.email.clone() }
    }
}

/// What a page shows of a calendar.
#[derive(Clone, Debug)]
pub struct CalendarInfo {
    pub id: Id,
    pub name: String,
    pub description: Option<String>,
    pub color: Option<String>,
    pub is_public: bool,
}

impl CalendarInfo {
    /// What a page shows of the given calendar.
    pub fn from(cal: &Calendar) -> (info: CalendarInfo)
        ensures
            info.id == cal.id,
            info.name@ == cal.name@,
            text_view(info.description) == text_view(cal.description),
            text_view(info.color) == text_view(cal.color),
            info.is_public == cal.is_public,
    {
        CalendarInfo {
            id: cal.id,
            name: cal.name.clone(),
            description: cal.description.clone(),
            color: cal.color.clone(),
            is_public: cal.is_public,
        }
    }
}

/// What a page shows of an event.
#[derive(Clone, Debug)]
pub struct EventInfo {
    pub id: Id,
    pub title: String,
    pub description: Option<String>,
    pub location: Option<String>,
    pub start_time: UtcDateTime,
    pub end_time: UtcDateTime,
    pub is_all_day: bool,
    pub calendar_id: Id,
}

/// What an `EventInfo` holds, as mathematical values.
pub ghost struct EventInfoView {
    pub id: Id,
    pub title: Seq<char>,
    pub description: Option<Seq<char>>,
    pub location: Option<Seq<char>>,
    pub start_time: UtcDateTime,
    pub end_time: UtcDateTime,
    pub is_all_day: bool,
    pub calendar_id: Id,
}

impl View for EventInfo {
    type V = EventInfoView;

    open spec fn view(&self) -> EventInfoView {
        EventInfoView {
            id: self.id,
            title: self.title@,
            description: text_view(self.description),
            location: text_view(self.location),
            start_time: self.start_time,
            end_time: self.end_time,
            is_all_day: self.is_all_day,
            calendar_id: self.calendar_id,
        }
    }
}

impl DeepView for EventInfo {
    type V = EventInfoView;

    open spec fn deep_view(&self) -> EventInfoView {
        self@
    }
}

/// What a page shows of an event: everything but the times of its making
/// and of its last change.
pub open spec fn info_of(e: EventView) -> EventInfoView {
    EventInfoView {
        id: e.id,
        title: e.title,
        description: e.description,
        location: e.location,
        start_time: e.start_time,
        end_time: e.end_time,
        is_all_day: e.is_all_day,
        calendar_id: e.calendar_id,
    }
}

impl EventInfo {
    /// What a page shows of the given event.
    pub fn from(event: &Event) -> (info: EventInfo)
        ensures
            info@ == info_of(event@),
    {
        EventInfo {
            id: event.id,
            title: event.title.clone(),
            description: event.description.clone(),
            location: event.location.clone(),
            start_time: event.start_time,
            end_time: event.end_time,
            is_all_day: event.is_all_day,
            calendar_id: event.calendar_id,
        }
    }
}

/// What a page shows of a share.
#[derive(Clone, Debug)]
pub struct ShareInfo {
    pub id: Id,
    pub shared_with_email: Option<String>,
    pub permission: String,
}

impl ShareInfo {
    /// What a page shows of the given share.
    pub fn from(share: &Share) -> (info: ShareInfo)
        ensures
            info.id == share.id,
            text_view(info.shared_with_email) == text_view(share.shared_with_email),
            info.permission@ == share.permission_level@,
    {
        ShareInfo {
            id: share.id,
            shared_with_email: share.shared_with_email.clone(),
            permission: share.permission_level.clone(),
        }
    }
}

/// What the calendar form is filled with.
#[derive(Clone, Debug)]
pub struct CalendarFormData {
    pub name: Option<String>,
    pub description: Option<String>,
    pub color: Option<String>,
    pub is_public: bool,
}

impl Default for CalendarFormData {
    /// The empty form: nothing filled in, and not public.
    fn default() -> (data: CalendarFormData)
        ensures
            data.name is None,
            data.description is None,
            data.color is None,
            !data.is_public,
    {
        CalendarFormData { name: None, description: None, color: None, is_public: false }
    }
}

impl CalendarFormData {
    /// The form filled with the given calendar.
    pub fn from(cal: &Calendar) -> (data: CalendarFormData)
        ensures
            data.name is Some && data.name->0@ == cal.name@,
            text_view(data.description) == text_view(cal.description),
            text_view(data.color) == text_view(cal.color),
            data.is_public == cal.is_public,
    {
        CalendarFormData {
            name: Some(cal.name.clone()),
            description: cal.description.clone(),
            color: cal.color.clone(),
            is_public: cal.is_public,
        }
    }
}

/// What the event form is filled with.
#[derive(Clone, Debug)]
pub struct EventFormData {
    pub title: Option<String>,
    pub description: Option<String>,
    pub location: Option<String>,
    pub start_time: Option<UtcDateTime>,
    pub end_time: Option<UtcDateTime>,
    pub is_all_day: Option<bool>,
}

impl Default for EventFormData {
    /// The empty form.
    fn default() -> (data: EventFormData)
        ensures
            data.title is None,
            data.description is None,
            data.location is None,
            data.start_time is None,
            data.end_time is None,
            data.is_all_day is None,
    {
        EventFormData {
            title: None,
            description: None,
            location: None,
            start_time: None,
            end_time: None,
            is_all_day: None,
        }
    }
}

impl EventFormData {
    /// The form filled with the given event.
    pub fn from(event: &Event) -> (data: EventFormData)
        ensures
            data.title is Some && data.title->0@ == event.title@,
            text_view(data.description) == text_view(event.description),
            text_view(data.location) == text_view(event.location),
            data.start_time == Some(event.start_time),
            data.end_time == Some(event.end_time),
            data.is_all_day == Some(event.is_all_day),
    {
        EventFormData {
            title: Some(event.title.clone()),
            description: event.description.clone(),
            location: event.location.clone(),
            start_time: Some(event.start_time),
            end_time: Some(event.end_time),
            is_all_day: Some(event.is_all_day),
        }
    }
}

/// Whether `calendar_id` is the calendar that was chosen, if one was.
pub fn is_selected(selected: Option<Id>, calendar_id: &Id) -> (b: bool)
    ensures
        b == (selected == Some(*calendar_id)),
{
    match selected {
        Some(id) => id == *calendar_id,
        None => false,
    }
}

/// The page that lists events.
#[derive(Clone, Debug)]
pub struct EventsTemplate {
    pub current_user: Option<UserInfo>,
    pub flash_message: Option<String>,
    pub flash_type: Option<String>,
    pub events: Vec<EventInfo>,
    pub calendars: Vec<CalendarInfo>,
    pub calendar_names: Vec<(Id, String)>,
    pub selected_calendar: Option<Id>,
}

impl EventsTemplate {
    /// Whether the list is narrowed to the given calendar.
    pub fn is_calendar_selected(&self, calendar_id: &Id) -> (b: bool)
        ensures
            b == (self.selected_calendar == Some(*calendar_id)),
    {
        is_selected(self.selected_calendar, calendar_id)
    }
}

/// The page that holds the event form.
#[derive(Clone, Debug)]
pub struct EventFormTemplate {
    pub current_user: Option<UserInfo>,
    pub flash_message: Option<String>,
    pub flash_type: Option<String>,
    pub is_edit: bool,
    pub event_id: Option<Id>,
    pub event: EventFormData,
    pub calendars: Vec<CalendarInfo>,
    pub selected_calendar_id: Option<Id>,
}

impl EventFormTemplate {
    /// Whether the form has the given calendar chosen.
    pub fn is_calendar_selected(&self, calendar_id: &Id) -> (b: bool)
        ensures
            b == (self.selected_calendar_id == Some(*calendar_id)),
    {
        is_selected(self.selected_calendar_id, calendar_id)
    }
}

/// A whole HTML document around the given content.
pub open spec fn html_document(content: Seq<char>) -> Seq<char> {
    "<!DOCTYPE html>\n<html lang=\"en\">\n"@ + content + "\n</html>"@
}

/// Wraps rendered content in a whole HTML document.
pub fn wrap_html(content: &str) -> (document: String)
    ensures
        document@ == html_document(content@),
{
    let mut out = String::new();
    out.append("<!DOCTYPE html>\n<html lang=\"en\">\n");
    out.append(content);
    out.append("\n</html>");
    out
}

/// How many upcoming events the dashboard shows at most.
pub const UPCOMING_LIMIT: usize = 10;

/// Whether an event starts within the window from `from` to `until`, both included.
pub open spec fn starts_within(e: EventView, from: UtcDateTime, until: UtcDateTime) -> bool {
    from.at_or_before(e.start_time) && e.start_time.at_or_before(until)
}

/// The first `limit` of the events that start within the window, in the
/// order in which they stand.
pub open spec fn upcoming(
    events: Seq<EventView>,
    from: UtcDateTime,
    until: UtcDateTime,
    limit: nat,
) -> Seq<EventInfoView>
    decreases events.len(),
{
    if events.len() == 0 || limit == 0 {
        Seq::empty()
    } else if starts_within(events[0], from, until) {
        seq![info_of(events[0])] + upcoming(events.skip(1), from, until, (limit - 1) as nat)
    } else {
        upcoming(events.skip(1), from, until, limit)
    }
}

/// The events that the dashboard shows as upcoming: those that start from
/// `now` up to `until`, ten at most.
pub fn upcoming_events(events: &Vec<Event>, now: &UtcDateTime, until: &UtcDateTime) -> (shown: Vec<
    EventInfo,
>)
    ensures
        shown.deep_view() == upcoming(events.deep_view(), *now, *until, UPCOMING_LIMIT as nat),
{
    let mut shown: Vec<EventInfo> = Vec::new();
    let mut i: usize = 0;
    let ghost all = events.deep_view();
    assert(all.skip(0) == all);
    assert(shown.deep_view() + upcoming(all, *now, *until, UPCOMING_LIMIT as nat) == upcoming(
        all,
        *now,
        *until,
        UPCOMING_LIMIT as nat,
    ));
    while i < events.len() && shown.len() < UPCOMING_LIMIT
        invariant
            i <= events.len(),
            shown.len() <= UPCOMING_LIMIT,
            all == events.deep_view(),
            upcoming(all, *now, *until, UPCOMING_LIMIT as nat) == shown.deep_view() + upcoming(
                all.skip(i as int),
                *now,
                *until,
                (UPCOMING_LIMIT - shown.len()) as nat,
            ),
        decreases events.len() - i,
    {
        let event = &events[i];
        proof {
            assert(all.skip(i as int).skip(1) == all.skip(i + 1));
        }
        if now.is_at_or_before(&event.start_time) && event.start_time.is_at_or_before(until) {
            let ghost before = shown.deep_view();
            let info = EventInfo::from(event);
            shown.push(info);
            assert(before + (seq![info_of(event@)] + upcoming(
                all.skip(i + 1),
                *now,
                *until,
                (UPCOMING_LIMIT - shown.len()) as nat,
            )) == shown.deep_view() + upcoming(
                all.skip(i + 1),
                *now,
                *until,
                (UPCOMING_LIMIT - shown.len()) as nat,
            ));
        }
        i += 1;
    }
    shown
}

/// The events that the list shows: all of them, or those of the calendar
/// to which the list is narrowed.
pub open spec fn listed(events: Seq<EventView>, calendar: Option<Id>) -> Seq<EventInfoView>
    decreases events.len(),
{
    if events.len() == 0 {
        Seq::empty()
    } else if calendar is None || events.last().calendar_id == calendar->0 {
        listed(events.drop_last(), calendar).push(info_of(events.last()))
    } else {
        listed(events.drop_last(), calendar)
    }
}

/// The events that the list shows.
pub fn listed_events(events: &Vec<Event>, calendar: Option<Id>) -> (shown: Vec<EventInfo>)
    ensures
        shown.deep_view() == listed(events.deep_view(), calendar),
{
    let mut shown: Vec<EventInfo> = Vec::new();
    let mut i: usize = 0;
    let ghost all = events.deep_view();
    while i < events.len()
        invariant
            i <= events.len(),
            all == events.deep_view(),
            shown.deep_view() == listed(all.take(i as int), calendar),
        decreases events.len() - i,
    {
        let event = &events[i];
        proof {
            let next = all.take(i + 1);
            assert(next.drop_last() == all.take(i as int));
        }
        let keep = match calendar {
            Some(id) => event.calendar_id == id,
            None => true,
        };
        if keep {
            shown.push(EventInfo::from(event));
        }
        i += 1;
    }
    assert(all.take(events.len() as int) == all);
    shown
}

} // verus!
