//! The forms of the web interface and what is made of them.

use crate::error::AppError;
use crate::error::ErrorView;
use crate::ical::found_or;
use crate::ical::instant_outcome;
use crate::ident::uuid_text;
use crate::ident::Id;
use crate::models::text_view;
use crate::models::NewCalendar;
use crate::models::NewEvent;
use crate::models::NewShare;
use crate::models::NewUser;
use crate::models::UpdateCalendar;
use crate::models::UpdateEvent;
use crate::text::same_text;
use crate::time::chrono_parse_form_time;
use crate::time::found_date_time;
use crate::time::parsed_form_time;
use crate::time::UtcDateTime;
use vstd::prelude::*;
use vstd::string::StringExecFns;

verus! {

/// The message that a page shows once, and its kind.
#[derive(Debug)]
pub struct FlashQuery {
    pub message: Option<String>,
    pub flash_type: Option<String>,
}

/// The calendar to which the list of events is narrowed, if any.
#[derive(Debug)]
pub struct EventFilterQuery {
    pub calendar: Option<Id>,
}

/// The login form.
#[derive(Debug)]
pub struct LoginForm {
    pub email: String,
    pub password: String,
}

/// The registration form.
#[derive(Debug)]
pub struct RegisterForm {
    pub name: String,
    pub email: String,
    pub password: String,
    pub confirm_password: String,
}

/// The calendar form. A checkbox is submitted as `on` or not at all.
#[derive(Debug)]
pub struct CalendarFormInput {
    pub name: String,
    pub description: Option<String>,
    pub color: Option<String>,
    pub is_public: Option<String>,
}

/// The event form. Both times are submitted as `YYYY-MM-DDTHH:MM`.
#[derive(Debug)]
pub struct EventFormInput {
    pub title: String,
    pub calendar_id: Id,
    pub start_time: String,
    pub end_time: String,
    pub is_all_day: Option<String>,
    pub location: Option<String>,
    pub description: Option<String>,
}

/// The share form.
#[derive(Debug)]
pub struct ShareFormInput {
    pub shared_with_email: String,
    pub permission: String,
}

/// Where a registration whose passwords differ is sent.
pub const PASSWORDS_DIFFER: &'static str =
    "/web/register?message=Passwords do not match&flash_type=error";

/// Where a registration whose password is too short is sent.
pub const PASSWORD_TOO_SHORT: &'static str =
    "/web/register?message=Password must be at least 6 characters&flash_type=error";

/// Where a registration under an email that is taken is sent.
pub const EMAIL_TAKEN: &'static str =
    "/web/register?message=Email already registered&flash_type=error";

/// Where a login with wrong credentials is sent.
pub const LOGIN_FAILED: &'static str = "/web/login?message=Invalid credentials&flash_type=error";

/// The least number of bytes of a password.
pub const MIN_PASSWORD_BYTES: usize = 6;

/// The number of bytes of a text in UTF-8.
pub open spec fn byte_length(s: Seq<char>) -> nat {
    vstd::utf8::encode_utf8(s).len()
}

/// Whether a checkbox was ticked: it was submitted, as `on`.
pub open spec fn ticked(value: Option<String>) -> bool {
    value is Some && value->0@ == "on"@
}

/// Whether a checkbox was ticked.
pub fn is_checked(value: &Option<String>) -> (b: bool)
    ensures
        b == ticked(*value),
{
    match value {
        Some(v) => same_text(v.as_str(), "on"),
        None => false,
    }
}

/// The path of a calendar's page.
pub open spec fn calendar_page_path(calendar: Id) -> Seq<char> {
    "/web/calendars/"@ + uuid_text(calendar.value)
}

/// The path of a calendar's page with a message of success to show.
pub open spec fn calendar_page_with(calendar: Id, message: Seq<char>) -> Seq<char> {
    calendar_page_path(calendar) + "?message="@ + message + "&flash_type=success"@
}

/// The path of a calendar's page.
pub fn calendar_page(calendar: Id) -> (path: String)
    ensures
        path@ == calendar_page_path(calendar),
{
    let mut out = String::new();
    out.append("/web/calendars/");
    out.append(calendar.to_string().as_str());
    out
}

/// The path of a calendar's page with a message of success to show.
pub fn calendar_page_message(calendar: Id, message: &str) -> (path: String)
    ensures
        path@ == calendar_page_with(calendar, message@),
{
    let mut out = calendar_page(calendar);
    out.append("?message=");
    out.append(message);
    out.append("&flash_type=success");
    out
}

impl RegisterForm {
    /// Where the form is sent back to, if it cannot be accepted: the
    /// passwords must be the same, and of six bytes at least.
    pub fn refusal(&self) -> (target: Option<&'static str>)
        ensures
            self.password@ != self.confirm_password@ ==> target is Some && target->0@
                == PASSWORDS_DIFFER@,
            self.password@ == self.confirm_password@ && byte_length(self.password@)
                < MIN_PASSWORD_BYTES ==> target is Some && target->0@ == PASSWORD_TOO_SHORT@,
            self.password@ == self.confirm_password@ && byte_length(self.password@)
                >= MIN_PASSWORD_BYTES ==> target is None,
    {
        if !same_text(self.password.as_str(), self.confirm_password.as_str()) {
            Some(PASSWORDS_DIFFER)
        } else if self.password.as_str().as_bytes().len() < MIN_PASSWORD_BYTES {
            Some(PASSWORD_TOO_SHORT)
        } else {
            None
        }
    }

    /// The new user that the form describes.
    pub fn into_new_user(self) -> (user: NewUser)
        ensures
            user.name@ == self.name@,
            user.email@ == self.email@,
            user.password@ == self.password@,
    {
        NewUser { name: self.name, email: self.email, password: self.password }
    }
}

impl CalendarFormInput {
    /// The new calendar that the form describes.
    pub fn into_new_calendar(self) -> (calendar: NewCalendar)
        ensures
            calendar.name@ == self.name@,
            text_view(calendar.description) == text_view(self.description),
            text_view(calendar.color) == text_view(self.color),
            calendar.is_public == ticked(self.is_public),
    {
        let is_public = is_checked(&self.is_public);
        NewCalendar {
            name: self.name,
            description: self.description,
            color: self.color,
            is_public,
        }
    }

    /// The update that the form describes: the name and the visibility are
    /// set, the description and the colour only where they were submitted.
    pub fn into_update(self) -> (update: UpdateCalendar)
        ensures
            update.name is Some && update.name->0@ == self.name@,
            text_view(update.description) == text_view(self.description),
            text_view(update.color) == text_view(self.color),
            update.is_public == Some(ticked(self.is_public)),
    {
        let is_public = is_checked(&self.is_public);
        UpdateCalendar {
            name: Some(self.name),
            description: self.description,
            color: self.color,
            is_public: Some(is_public),
        }
    }
}

impl ShareFormInput {
    /// The new share that the form describes.
    pub fn into_new_share(self) -> (share: NewShare)
        ensures
            share.shared_with_email@ == self.shared_with_email@,
            share.permission@ == self.permission@,
    {
        NewShare { shared_with_email: self.shared_with_email, permission: self.permission }
    }
}

/// The instant that a form's time names, or the given complaint.
pub open spec fn form_time(text: Seq<char>, complaint: Seq<char>) -> Result<UtcDateTime, ErrorView> {
    match parsed_form_time(text) {
        Some(t) => Ok(t),
        None => Err(ErrorView::Validation(complaint)),
    }
}

/// The view of times that were read, or of the error.
pub open spec fn times_outcome(r: Result<(UtcDateTime, UtcDateTime), AppError>) -> Result<
    (UtcDateTime, UtcDateTime),
    ErrorView,
> {
    match r {
        Ok(t) => Ok(t),
        Err(e) => Err(e@),
    }
}

/// The start and the end that an event form names. The start is read first.
pub open spec fn form_times(start: Seq<char>, end: Seq<char>) -> Result<
    (UtcDateTime, UtcDateTime),
    ErrorView,
> {
    match form_time(start, "Invalid start time format"@) {
        Err(e) => Err(e),
        Ok(s) => match form_time(end, "Invalid end time format"@) {
            Err(e) => Err(e),
            Ok(e) => Ok((s, e)),
        },
    }
}

/// Turns what the form-time parser returned into the form's own result: the
/// instant, or a validation error with the given complaint.
pub fn form_time_or_error(
    parsed: Result<UtcDateTime, chrono::format::ParseError>,
    complaint: &str,
) -> (r: Result<UtcDateTime, AppError>)
    ensures
        instant_outcome(r) == found_or(found_date_time(parsed), complaint@),
{
    match parsed {
        Ok(t) => Ok(t),
        Err(_) => Err(AppError::ValidationError(complaint.to_owned())),
    }
}

/// Reads one time of an event form.
pub fn parse_form_time(text: &str, complaint: &str) -> (r: Result<UtcDateTime, AppError>)
    ensures
        instant_outcome(r) == form_time(text@, complaint@),
{
    form_time_or_error(chrono_parse_form_time(text), complaint)
}

impl EventFormInput {
    /// Reads the start and the end of the form.
    pub fn times(&self) -> (r: Result<(UtcDateTime, UtcDateTime), AppError>)
        ensures
            times_outcome(r) == form_times(self.start_time@, self.end_time@),
    {
        let start = match parse_form_time(self.start_time.as_str(), "Invalid start time format") {
            Ok(t) => t,
            Err(e) => {
                return Err(e);
            },
        };
        let end = match parse_form_time(self.end_time.as_str(), "Invalid end time format") {
            Ok(t) => t,
            Err(e) => {
                return Err(e);
            },
        };
        Ok((start, end))
    }

    /// The draft of an event that the form describes, with the times as they were read.
    pub fn into_new_event(self, start_time: UtcDateTime, end_time: UtcDateTime) -> (draft: NewEvent)
        ensures
            draft.title@ == self.title@,
            text_view(draft.description) == text_view(self.description),
            text_view(draft.location) == text_view(self.location),
            draft.start_time == start_time,
            draft.end_time == end_time,
            draft.is_all_day == ticked(self.is_all_day),
    {
        let is_all_day = is_checked(&self.is_all_day);
        NewEvent {
            title: self.title,
            description: self.description,
            location: self.location,
            start_time,
            end_time,
            is_all_day,
        }
    }

    /// The update that the form describes, with the times as they were
    /// read: the title, the times and the all-day mark are set, the
    /// description and the location only where they were submitted.
    pub fn into_update(self, start_time: UtcDateTime, end_time: UtcDateTime) -> (update:
        UpdateEvent)
        ensures
            update.title is Some && update.title->0@ == self.title@,
            text_view(update.description) == text_view(self.description),
            text_view(update.location) == text_view(self.location),
            update.start_time == Some(start_time),
            update.end_time == Some(end_time),
            update.is_all_day == Some(ticked(self.is_all_day)),
    {
        let is_all_day = is_checked(&self.is_all_day);
        UpdateEvent {
            title: Some(self.title),
            description: self.description,
            location: self.location,
            start_time: Some(start_time),
            end_time: Some(end_time),
            is_all_day: Some(is_all_day),
        }
    }
}

} // verus!
