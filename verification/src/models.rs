//! The records that the protocol core reads and produces.
//!
//! Each record is a value snapshot: the core never changes one. A record's
//! view shows its text fields as sequences of characters.

use crate::ident::Id;
use crate::text::same_text;
use crate::time::UtcDateTime;
use vstd::prelude::*;

verus! {

/// The view of an optional text.
pub open spec fn text_view(t: Option<String>) -> Option<Seq<char>> {
    match t {
        Some(s) => Some(s@),
        None => None,
    }
}

/// A calendar: a named collection of events that belongs to one user.
#[derive(Clone, Debug)]
pub struct Calendar {
    pub id: Id,
    pub user_id: Id,
    pub name: String,
    pub description: Option<String>,
    pub color: Option<String>,
    pub is_public: bool,
    pub created_at: UtcDateTime,
    pub updated_at: UtcDateTime,
}

/// What a `Calendar` holds, as mathematical values.
pub ghost struct CalendarView {
    pub id: Id,
    pub user_id: Id,
    pub name: Seq<char>,
    pub description: Option<Seq<char>>,
    pub color: Option<Seq<char>>,
    pub is_public: bool,
    pub created_at: UtcDateTime,
    pub updated_at: UtcDateTime,
}

impl View for Calendar {
    type V = CalendarView;

    open spec fn view(&self) -> CalendarView {
        CalendarView {
            id: self.id,
            user_id: self.user_id,
            name: self.name@,
            description: text_view(self.description),
            color: text_view(self.color),
            is_public: self.is_public,
            created_at: self.created_at,
            updated_at: self.updated_at,
        }
    }
}

impl DeepView for Calendar {
    type V = CalendarView;

    open spec fn deep_view(&self) -> CalendarView {
        self@
    }
}

/// An event: one entry of one calendar.
#[derive(Clone, Debug)]
pub struct Event {
    pub id: Id,
    pub calendar_id: Id,
    pub title: String,
    pub description: Option<String>,
    pub location: Option<String>,
    pub start_time: UtcDateTime,
    pub end_time: UtcDateTime,
    pub is_all_day: bool,
    pub created_at: UtcDateTime,
    pub updated_at: UtcDateTime,
}

/// What an `Event` holds, as mathematical values.
pub ghost struct EventView {
    pub id: Id,
    pub calendar_id: Id,
    pub title: Seq<char>,
    pub description: Option<Seq<char>>,
    pub location: Option<Seq<char>>,
    pub start_time: UtcDateTime,
    pub end_time: UtcDateTime,
    pub is_all_day: bool,
    pub created_at: UtcDateTime,
    pub updated_at: UtcDateTime,
}

impl View for Event {
    type V = EventView;

    open spec fn view(&self) -> EventView {
        EventView {
            id: self.id,
            calendar_id: self.calendar_id,
            title: self.title@,
            description: text_view(self.description),
            location: text_view(self.location),
            start_time: self.start_time,
            end_time: self.end_time,
            is_all_day: self.is_all_day,
            created_at: self.created_at,
            updated_at: self.updated_at,
        }
    }
}

impl DeepView for Event {
    type V = EventView;

    open spec fn deep_view(&self) -> EventView {
        self@
    }
}

/// A draft of an event, as a client submits it: it has no identifier and
/// belongs to no calendar yet.
#[derive(Clone, Debug)]
pub struct NewEvent {
    pub title: String,
    pub description: Option<String>,
    pub location: Option<String>,
    pub start_time: UtcDateTime,
    pub end_time: UtcDateTime,
    pub is_all_day: bool,
}

/// What a `NewEvent` holds, as mathematical values.
pub ghost struct NewEventView {
    pub title: Seq<char>,
    pub description: Option<Seq<char>>,
    pub location: Option<Seq<char>>,
    pub start_time: UtcDateTime,
    pub end_time: UtcDateTime,
    pub is_all_day: bool,
}

impl View for NewEvent {
    type V = NewEventView;

    open spec fn view(&self) -> NewEventView {
        NewEventView {
            title: self.title@,
            description: text_view(self.description),
            location: text_view(self.location),
            start_time: self.start_time,
            end_time: self.end_time,
            is_all_day: self.is_all_day,
        }
    }
}

impl DeepView for NewEvent {
    type V = NewEventView;

    open spec fn deep_view(&self) -> NewEventView {
        self@
    }
}

/// A user of the service.
#[derive(Clone, Debug)]
pub struct User {
    pub id: Id,
    pub name: String,
    pub email: String,
    pub password_hash: String,
    pub created_at: UtcDateTime,
    pub updated_at: UtcDateTime,
}

/// A grant of access to a calendar, made by its owner to another user.
#[derive(Clone, Debug)]
pub struct Share {
    pub id: Id,
    pub calendar_id: Id,
    pub user_id: Id,
    pub shared_with_user_id: Option<Id>,
    pub shared_with_email: Option<String>,
    pub permission_level: String,
    pub created_at: UtcDateTime,
}

/// What a share allows.
#[derive(Clone, Copy, Debug, PartialEq, Eq, Structural)]
pub enum PermissionLevel {
    Read,
    Write,
    Admin,
}

/// The name under which a permission level is stored.
pub open spec fn permission_text(p: PermissionLevel) -> Seq<char> {
    match p {
        PermissionLevel::Read => "read"@,
        PermissionLevel::Write => "write"@,
        PermissionLevel::Admin => "admin"@,
    }
}

/// The permission level that a name stands for, if it stands for one.
pub open spec fn permission_named(s: Seq<char>) -> Option<PermissionLevel> {
    if s == "read"@ {
        Some(PermissionLevel::Read)
    } else if s == "write"@ {
        Some(PermissionLevel::Write)
    } else if s == "admin"@ {
        Some(PermissionLevel::Admin)
    } else {
        None
    }
}

impl PermissionLevel {
    /// The name under which the level is stored.
    pub fn as_str(&self) -> (text: &'static str)
        ensures
            text@ == permission_text(*self),
    {
        match self {
            PermissionLevel::Read => "read",
            PermissionLevel::Write => "write",
            PermissionLevel::Admin => "admin",
        }
    }

    /// The level that the name stands for, if it stands for one.
    pub fn from_str(s: &str) -> (level: Option<PermissionLevel>)
        ensures
            level == permission_named(s@),
    {
        if same_text(s, "read") {
            Some(PermissionLevel::Read)
        } else if same_text(s, "write") {
            Some(PermissionLevel::Write)
        } else if same_text(s, "admin") {
            Some(PermissionLevel::Admin)
        } else {
            None
        }
    }
}

/// Every permission level is read back from its name.
pub proof fn law_permission_names(p: PermissionLevel)
    ensures
        permission_named(permission_text(p)) == Some(p),
{
    reveal_strlit("read");
    reveal_strlit("write");
    reveal_strlit("admin");
    assert("write"@[0] == 'w' && "admin"@[0] == 'a');
}

/// What a new user submits.
#[derive(Clone, Debug)]
pub struct NewUser {
    pub name: String,
    pub email: String,
    pub password: String,
}

/// What the owner of a new calendar submits.
#[derive(Clone, Debug)]
pub struct NewCalendar {
    pub name: String,
    pub description: Option<String>,
    pub color: Option<String>,
    pub is_public: bool,
}

/// The fields of a calendar that are to change; an absent field stays as it is.
#[derive(Clone, Debug)]
pub struct UpdateCalendar {
    pub name: Option<String>,
    pub description: Option<String>,
    pub color: Option<String>,
    pub is_public: Option<bool>,
}

impl Default for UpdateCalendar {
    /// The update that changes nothing.
    fn default() -> (update: UpdateCalendar)
        ensures
            update.name is None,
            update.description is None,
            update.color is None,
            update.is_public is None,
    {
        UpdateCalendar { name: None, description: None, color: None, is_public: None }
    }
}

/// The fields of an event that are to change; an absent field stays as it is.
#[derive(Clone, Debug)]
pub struct UpdateEvent {
    pub title: Option<String>,
    pub description: Option<String>,
    pub location: Option<String>,
    pub start_time: Option<UtcDateTime>,
    pub end_time: Option<UtcDateTime>,
    pub is_all_day: Option<bool>,
}

impl Default for UpdateEvent {
    /// The update that changes nothing.
    fn default() -> (update: UpdateEvent)
        ensures
            update.title is None,
            update.description is None,
            update.location is None,
            update.start_time is None,
            update.end_time is None,
            update.is_all_day is None,
    {
        UpdateEvent {
            title: None,
            description: None,
            location: None,
            start_time: None,
            end_time: None,
            is_all_day: None,
        }
    }
}

/// What the owner of a calendar submits to share it.
#[derive(Clone, Debug)]
pub struct NewShare {
    pub shared_with_email: String,
    pub permission: String,
}

/// The change of a share's permission level.
#[derive(Clone, Debug)]
pub struct UpdateShare {
    pub permission_level: PermissionLevel,
}

} // verus!
