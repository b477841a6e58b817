//! The JSON interface: its request and response bodies, and what its
//! handlers decide between their questions to the data layer.

use crate::error::AppError;
use crate::error::ErrorView;
use crate::ident::uuid_text;
use crate::ident::Id;
use crate::middleware::Claims;
use crate::models::Calendar;
use crate::models::CalendarView;
use crate::models::Event;
use crate::models::EventView;
use crate::models::NewEvent;
use crate::models::User;
use vstd::prelude::*;

verus! {

/// The body of a login request.
#[derive(Debug)]
pub struct LoginRequest {
    pub email: String,
    pub password: String,
}

/// What is shown of a user.
#[derive(Debug)]
pub struct UserResponse {
    pub id: Id,
    pub email: String,
}

impl UserResponse {
    /// What is shown of the given user: the identifier and the email.
    pub fn from(user: User) -> (shown: UserResponse)
        ensures
            shown.id == user.id,
            shown.email@ == user.email@,
    {
        UserResponse { id: user.id, email: user.email }
    }
}

/// The body of a login response.
#[derive(Debug)]
pub struct LoginResponse {
    pub token: String,
    pub user: UserResponse,
}

/// The query parameters of the calendar list.
#[derive(Debug)]
pub struct GetCalendarsParams {
    pub include_events: Option<bool>,
}

/// The body of a request that creates an event.
#[derive(Debug)]
pub struct CreateEventRequest {
    pub calendar_id: Id,
    pub event: NewEvent,
}

/// What is said to a user who asks to change a calendar of another user.
pub const NOT_YOUR_CALENDAR: &'static str = "You don't own this calendar";

/// What is said to a user who asks for the events of a calendar of another user.
pub const NOT_YOUR_EVENTS: &'static str = "You don't have access to this calendar";

/// What is said to a user who asks for an event of a calendar of another user.
pub const NOT_YOUR_EVENT: &'static str = "You don't have access to this event";

/// What a page says to a user who asks for what belongs to another user.
pub const ACCESS_DENIED: &'static str = "Access denied";

/// How long a session token is valid: one day, in seconds.
pub const SESSION_SECONDS: usize = 86400;

/// The claims of a session token issued to `user` at `now`, in seconds since
/// the epoch: the user's identifier is the subject, and the token expires a
/// day after its issue.
pub fn session_claims(user: Id, now: usize) -> (claims: Claims)
    requires
        now + SESSION_SECONDS <= usize::MAX,
    ensures
        claims.sub@ == uuid_text(user.value),
        claims.iat == now,
        claims.exp == now + SESSION_SECONDS,
{
    Claims { sub: user.to_string(), iat: now, exp: now + SESSION_SECONDS }
}

/// The view of a calendar that was let through, or of the error.
pub open spec fn calendar_outcome(r: Result<Calendar, AppError>) -> Result<CalendarView, ErrorView> {
    match r {
        Ok(c) => Ok(c@),
        Err(e) => Err(e@),
    }
}

/// The view of an event that was let through, or of the error.
pub open spec fn event_outcome(r: Result<Event, AppError>) -> Result<EventView, ErrorView> {
    match r {
        Ok(e) => Ok(e@),
        Err(e) => Err(e@),
    }
}

/// What a handler that changes a calendar, or anything in it, makes of the
/// calendar that the data layer found: a missing calendar is not found, and
/// anyone but the owner is refused with the given reason.
pub open spec fn owned_calendar(
    found: Option<CalendarView>,
    user: Id,
    refusal: Seq<char>,
) -> Result<CalendarView, ErrorView> {
    match found {
        None => Err(ErrorView::NotFound("Calendar not found"@)),
        Some(c) => if c.user_id != user {
            Err(ErrorView::Authentication(refusal))
        } else {
            Ok(c)
        },
    }
}

/// Lets the owner of a calendar through.
pub fn check_owner(found: Option<Calendar>, user: Id, refusal: &str) -> (r: Result<
    Calendar,
    AppError,
>)
    ensures
        calendar_outcome(r) == owned_calendar(
            match found {
                Some(c) => Some(c@),
                None => None,
            },
            user,
            refusal@,
        ),
{
    match found {
        None => Err(AppError::NotFoundError("Calendar not found".to_owned())),
        Some(c) => {
            if c.user_id != user {
                Err(AppError::AuthenticationError(refusal.to_owned()))
            } else {
                Ok(c)
            }
        },
    }
}

/// What a handler makes of the event that the data layer found.
pub fn check_event(found: Option<Event>) -> (r: Result<Event, AppError>)
    ensures
        event_outcome(r) == (match found {
            Some(e) => Ok::<EventView, ErrorView>(e@),
            None => Err::<EventView, ErrorView>(ErrorView::NotFound("Event not found"@)),
        }),
{
    match found {
        Some(e) => Ok(e),
        None => Err(AppError::NotFoundError("Event not found".to_owned())),
    }
}

/// What a handler makes of the user that the data layer found.
pub fn check_user(found: Option<User>) -> (r: Result<User, AppError>)
    ensures
        found is Some ==> r is Ok && r->Ok_0 == found->0,
        found is None ==> r is Err && r->Err_0@ == ErrorView::NotFound("User not found"@),
{
    match found {
        Some(u) => Ok(u),
        None => Err(AppError::NotFoundError("User not found".to_owned())),
    }
}

/// What registration makes of the user that the data layer found under the
/// new email: an email that is taken is refused.
pub fn register(found: Option<User>) -> (r: Result<(), AppError>)
    ensures
        found is None ==> r is Ok,
        found is Some ==> r is Err && r->Err_0@ == ErrorView::Validation(
            "Email already registered"@,
        ),
{
    match found {
        None => Ok(()),
        Some(_) => Err(AppError::ValidationError("Email already registered".to_owned())),
    }
}

/// Whether `bcrypt::verify` finds that a password matches a stored hash, if
/// it can read the hash.
pub uninterp spec fn bcrypt_verified(password: Seq<char>, hash: Seq<char>) -> Option<bool>;

/// What a verification found, without the error's detail.
pub open spec fn found_match(r: Result<bool, bcrypt::BcryptError>) -> Option<bool> {
    match r {
        Ok(b) => Some(b),
        Err(_) => None,
    }
}

/// Calls `bcrypt::verify`.
/// Trusted: the result is what `bcrypt_verified` names for the same password and hash.
#[verifier::external_body]
pub(crate) fn bcrypt_verify(password: &str, hash: &str) -> (r: Result<bool, bcrypt::BcryptError>)
    ensures
        found_match(r) == bcrypt_verified(password@, hash@),
{
    bcrypt::verify(password, hash)
}

/// The view of a user that was let through, or of the error.
pub open spec fn user_outcome(r: Result<User, AppError>) -> Result<User, ErrorView> {
    match r {
        Ok(u) => Ok(u),
        Err(e) => Err(e@),
    }
}

/// What login makes of a user and of what verifying the password returned:
/// a hash that cannot be read is a hashing error, and a password that does
/// not match is refused.
pub open spec fn verified_user(user: User, verified: Option<bool>) -> Result<User, ErrorView> {
    match verified {
        None => Err(ErrorView::PasswordHash),
        Some(false) => Err(ErrorView::Authentication("Invalid credentials"@)),
        Some(true) => Ok(user),
    }
}

/// What login makes of the user that the data layer found under the email:
/// an unknown user is refused in the words of a wrong password.
pub open spec fn logged_in(found: Option<User>, password: Seq<char>) -> Result<User, ErrorView> {
    match found {
        None => Err(ErrorView::Authentication("Invalid credentials"@)),
        Some(user) => verified_user(user, bcrypt_verified(password, user.password_hash@)),
    }
}

/// Lets a user in whose password was verified.
pub fn login_with(user: User, verified: Result<bool, bcrypt::BcryptError>) -> (r: Result<
    User,
    AppError,
>)
    ensures
        user_outcome(r) == verified_user(user, found_match(verified)),
{
    match verified {
        Err(e) => Err(AppError::PasswordHashError(e)),
        Ok(false) => Err(AppError::AuthenticationError("Invalid credentials".to_owned())),
        Ok(true) => Ok(user),
    }
}

/// Checks a login: the user that the data layer found under the email, and
/// the password that was submitted.
pub fn login(found: Option<User>, password: &str) -> (r: Result<User, AppError>)
    ensures
        user_outcome(r) == logged_in(found, password@),
{
    match found {
        None => Err(AppError::AuthenticationError("Invalid credentials".to_owned())),
        Some(user) => {
            let verified = bcrypt_verify(password, user.password_hash.as_str());
            login_with(user, verified)
        },
    }
}

} // verus!
