//! Scraping of weekly timetable pages into calendars of typed events.

pub mod text;
pub mod dates;
pub mod calendar;
pub mod dom;
pub mod markup;
pub mod parser;
pub mod laws;
pub mod resolver;
pub mod proxy;
pub mod cache;
