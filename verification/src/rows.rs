//! From the columns of a stored row to a record.
//!
//! The storage keeps identifiers as text and flags as numbers. A row whose
//! identifier cannot be read is refused with the name of its column.

use crate::ident::parsed_uuid;
use crate::ident::Id;
use crate::models::text_view;
use crate::models::Calendar;
use crate::models::Event;
use crate::models::Share;
use crate::models::User;
use crate::time::UtcDateTime;
use vstd::prelude::*;

verus! {

/// A column that holds no identifier, and what the identifier parser said of it.
#[derive(Debug)]
pub struct ColumnError {
    pub column: &'static str,
    pub source: uuid::Error,
}

/// Whether a stored flag is set: any number but zero sets it.
pub open spec fn flag_set(value: i32) -> bool {
    value != 0
}

/// Whether a stored flag is set.
pub fn flag_column(value: i32) -> (b: bool)
    ensures
        b == flag_set(value),
{
    value != 0
}

/// The identifier that a column holds, or the column's name.
pub open spec fn id_in(value: Seq<char>, column: Seq<char>) -> Result<Id, Seq<char>> {
    match parsed_uuid(value) {
        Some(v) => Ok(Id { value: v }),
        None => Err(column),
    }
}

/// The view of an identifier that was read, or the name of the column that was refused.
pub open spec fn id_or_column(r: Result<Id, ColumnError>) -> Result<Id, Seq<char>> {
    match r {
        Ok(id) => Ok(id),
        Err(e) => Err(e.column@),
    }
}

/// Turns what the identifier parser returned into the reading of a column.
pub fn id_from(parsed: Result<Id, uuid::Error>, column: &'static str) -> (r: Result<Id, ColumnError>)
    ensures
        match parsed {
            Ok(id) => r == Ok::<Id, ColumnError>(id),
            Err(_) => r is Err && r->Err_0.column@ == column@,
        },
{
    match parsed {
        Ok(id) => Ok(id),
        Err(source) => Err(ColumnError { column, source }),
    }
}

/// Reads the identifier that a column holds.
pub fn id_column(value: &str, column: &'static str) -> (r: Result<Id, ColumnError>)
    ensures
        id_or_column(r) == id_in(value@, column@),
{
    id_from(Id::parse_str(value), column)
}

/// The user that the columns of a row make.
pub fn user_from_columns(
    id: &str,
    name: String,
    email: String,
    password_hash: String,
    created_at: UtcDateTime,
    updated_at: UtcDateTime,
) -> (r: Result<User, ColumnError>)
    ensures
        match id_in(id@, "id"@) {
            Ok(read) => r is Ok && r->Ok_0.id == read && r->Ok_0.name@ == name@ && r->Ok_0.email@
                == email@ && r->Ok_0.password_hash@ == password_hash@ && r->Ok_0.created_at
                == created_at && r->Ok_0.updated_at == updated_at,
            Err(column) => r is Err && r->Err_0.column@ == column,
        },
{
    let id = match id_column(id, "id") {
        Ok(id) => id,
        Err(e) => {
            return Err(e);
        },
    };
    Ok(User { id, name, email, password_hash, created_at, updated_at })
}

/// The calendar that the columns of a row make. The calendar's identifier
/// is read before its owner's.
pub fn calendar_from_columns(
    id: &str,
    user_id: &str,
    name: String,
    description: Option<String>,
    color: Option<String>,
    is_public: i32,
    created_at: UtcDateTime,
    updated_at: UtcDateTime,
) -> (r: Result<Calendar, ColumnError>)
    ensures
        match (id_in(id@, "id"@), id_in(user_id@, "user_id"@)) {
            (Ok(read), Ok(owner)) => r is Ok && r->Ok_0.id == read && r->Ok_0.user_id == owner
                && r->Ok_0.name@ == name@ && text_view(r->Ok_0.description) == text_view(
                description,
            ) && text_view(r->Ok_0.color) == text_view(color) && r->Ok_0.is_public == flag_set(
                is_public,
            ) && r->Ok_0.created_at == created_at && r->Ok_0.updated_at == updated_at,
            (Err(column), _) => r is Err && r->Err_0.column@ == column,
            (Ok(_), Err(column)) => r is Err && r->Err_0.column@ == column,
        },
{
    let id = match id_column(id, "id") {
        Ok(id) => id,
        Err(e) => {
            return Err(e);
        },
    };
    let user_id = match id_column(user_id, "user_id") {
        Ok(id) => id,
        Err(e) => {
            return Err(e);
        },
    };
    Ok(
        Calendar {
            id,
            user_id,
            name,
            description,
            color,
            is_public: flag_column(is_public),
            created_at,
            updated_at,
        },
    )
}

/// The event that the columns of a row make. The event's identifier is read
/// before its calendar's.
pub fn event_from_columns(
    id: &str,
    calendar_id: &str,
    title: String,
    description: Option<String>,
    location: Option<String>,
    start_time: UtcDateTime,
    end_time: UtcDateTime,
    is_all_day: i32,
    created_at: UtcDateTime,
    updated_at: UtcDateTime,
) -> (r: Result<Event, ColumnError>)
    ensures
        match (id_in(id@, "id"@), id_in(calendar_id@, "calendar_id"@)) {
            (Ok(read), Ok(calendar)) => r is Ok && r->Ok_0.id == read && r->Ok_0.calendar_id
                == calendar && r->Ok_0.title@ == title@ && text_view(r->Ok_0.description)
                == text_view(description) && text_view(r->Ok_0.location) == text_view(location)
                && r->Ok_0.start_time == start_time && r->Ok_0.end_time == end_time
                && r->Ok_0.is_all_day == flag_set(is_all_day) && r->Ok_0.created_at == created_at
                && r->Ok_0.updated_at == updated_at,
            (Err(column), _) => r is Err && r->Err_0.column@ == column,
            (Ok(_), Err(column)) => r is Err && r->Err_0.column@ == column,
        },
{
    let id = match id_column(id, "id") {
        Ok(id) => id,
        Err(e) => {
            return Err(e);
        },
    };
    let calendar_id = match id_column(calendar_id, "calendar_id") {
        Ok(id) => id,
        Err(e) => {
            return Err(e);
        },
    };
    Ok(
        Event {
            id,
            calendar_id,
            title,
            description,
            location,
            start_time,
            end_time,
            is_all_day: flag_column(is_all_day),
            created_at,
            updated_at,
        },
    )
}

/// The identifier that an optional column holds: none where the column is
/// empty, and otherwise what the column reads as.
pub open spec fn optional_id_in(value: Option<Seq<char>>, column: Seq<char>) -> Result<
    Option<Id>,
    Seq<char>,
> {
    match value {
        None => Ok(None),
        Some(text) => match id_in(text, column) {
            Ok(id) => Ok(Some(id)),
            Err(c) => Err(c),
        },
    }
}

/// The share that the columns of a row make. The identifiers are read in
/// the order: the share, its calendar, its owner, and whom it is shared with.
pub fn share_from_columns(
    id: &str,
    calendar_id: &str,
    user_id: &str,
    shared_with_user_id: Option<String>,
    shared_with_email: Option<String>,
    permission_level: String,
    created_at: UtcDateTime,
) -> (r: Result<Share, ColumnError>)
    ensures
        match (
            id_in(id@, "id"@),
            id_in(calendar_id@, "calendar_id"@),
            id_in(user_id@, "user_id"@),
            optional_id_in(text_view(shared_with_user_id), "shared_with_user_id"@),
        ) {
            (Ok(read), Ok(calendar), Ok(owner), Ok(with)) => r is Ok && r->Ok_0.id == read
                && r->Ok_0.calendar_id == calendar && r->Ok_0.user_id == owner
                && r->Ok_0.shared_with_user_id == with && text_view(r->Ok_0.shared_with_email)
                == text_view(shared_with_email) && r->Ok_0.permission_level@ == permission_level@
                && r->Ok_0.created_at == created_at,
            (Err(column), _, _, _) => r is Err && r->Err_0.column@ == column,
            (Ok(_), Err(column), _, _) => r is Err && r->Err_0.column@ == column,
            (Ok(_), Ok(_), Err(column), _) => r is Err && r->Err_0.column@ == column,
            (Ok(_), Ok(_), Ok(_), Err(column)) => r is Err && r->Err_0.column@ == column,
        },
{
    let id = match id_column(id, "id") {
        Ok(id) => id,
        Err(e) => {
            return Err(e);
        },
    };
    let calendar_id = match id_column(calendar_id, "calendar_id") {
        Ok(id) => id,
        Err(e) => {
            return Err(e);
        },
    };
    let user_id = match id_column(user_id, "user_id") {
        Ok(id) => id,
        Err(e) => {
            return Err(e);
        },
    };
    let shared_with_user_id = match &shared_with_user_id {
        None => None,
        Some(text) => match id_column(text.as_str(), "shared_with_user_id") {
            Ok(id) => Some(id),
            Err(e) => {
                return Err(e);
            },
        },
    };
    Ok(
        Share {
            id,
            calendar_id,
            user_id,
            shared_with_user_id,
            shared_with_email,
            permission_level,
            created_at,
        },
    )
}

} // verus!
