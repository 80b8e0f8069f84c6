//! Verified core of the dimigomeal back end: meal scraping, date handling,
//! meal slots, device tokens and command decisions.
pub mod api;
pub mod calendar;
pub mod command;
pub mod error;
pub mod html;
pub mod ios;
pub mod meal;
pub mod pattern;
pub mod scrape;
pub mod text;
