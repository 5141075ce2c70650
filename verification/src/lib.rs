//! A calendar feed: one shared calendar that grows by one synthetic event per
//! request and is handed out, whole, as an iCalendar document.
//!
//! The calendar itself is an `icalendar::Calendar` and the times are reckoned by
//! `chrono`; what a request does with them is stated and proved here.

pub mod document;
pub mod event;
pub mod handler;
pub mod instant;
pub mod ordinal;
pub mod requests;
pub mod response;
pub mod store;
