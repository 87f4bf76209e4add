//! Waste-collection schedule tooling: session-cookie handling, query-URL
//! construction, and conversion of schedule records into calendar events.

pub mod calendar;
pub mod clock;
pub mod cookies;
pub mod dates;
pub mod ical;
pub mod models;
pub mod money;
pub mod schedule;
pub mod session;
pub mod text;
