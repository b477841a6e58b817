//! The protocol core of a CalDAV server.
//!
//! The core turns calendars and events into iCalendar text and back, reads
//! the paths of calendar resources, and answers the WebDAV verbs that
//! calendar clients use. It does no I/O: whatever it needs from storage it
//! asks for, step by step, and whoever drives it answers.
//!
//! - [`ical`] is the codec between events and `VEVENT` text, and
//!   [`roundtrip`] proves that decoding undoes encoding.
//! - [`path`] resolves request paths to calendars and events.
//! - [`xml`] builds multistatus bodies.
//! - [`caldav`] holds the handlers of PROPFIND, REPORT, GET, PUT and DELETE
//!   and what they guarantee about ownership.
//! - [`middleware`], [`api`], [`forms`], [`templates`], [`config`],
//!   [`migrations`] and [`error`] hold what the rest of the server decides:
//!   who is let in, what a form means, what a page shows, which migrations
//!   run, and how an error is reported.
//! - [`ident`], [`time`], [`text`] and [`models`] are the values all of them
//!   work on, and [`rows`] makes records of stored rows.

pub mod api;
pub mod caldav;
pub mod config;
pub mod error;
pub mod forms;
pub mod ical;
pub mod ident;
pub mod middleware;
pub mod migrations;
pub mod models;
pub mod path;
pub mod roundtrip;
pub mod rows;
pub mod templates;
pub mod text;
pub mod time;
pub mod xml;
