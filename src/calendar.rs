//! The values that a scrape produces: calendars, events and failures.
use crate::dates::{date_stamp_of, format_date, format_time, time_stamp_of, Date, Time};
use crate::text::{dash_spaces, opt_view, replace_char};
use vstd::prelude::*;

verus! {

/// One scheduled entry of a timetable.
#[derive(Clone, Debug, PartialEq, Eq)]
pub struct Event {
    pub date: Date,
    pub start: Time,
    pub end: Time,
    pub title: String,
    pub location: Option<String>,
    pub organizer: Option<String>,
    pub description: Option<String>,
}

impl Event {
    /// The event falls on a valid date and starts and ends at valid times.
    pub open spec fn wf(self) -> bool {
        self.date.wf() && self.start.wf() && self.end.wf()
    }
}

/// Every event falls on a valid date, at valid times.
pub open spec fn all_wf(events: Seq<Event>) -> bool {
    forall|i: int| 0 <= i < events.len() ==> (#[trigger] events[i]).wf()
}

/// A named, ordered list of events.
#[derive(Clone, Debug, PartialEq, Eq)]
pub struct Calendar {
    pub name: String,
    pub events: Vec<Event>,
}

/// Why a page could not be read as a calendar.
#[derive(Clone, Debug, PartialEq, Eq)]
pub enum ParseError {
    /// A required element is absent: the query that found nothing, and the
    /// rule that asked for it.
    Selection { query: String, rule: String },
    /// A derived value, such as a date, cannot be computed.
    Generic { message: String },
    /// An element holds text that does not have the expected form.
    Content { message: String, html: String },
}

pub struct EventView {
    pub date: Date,
    pub start: Time,
    pub end: Time,
    pub title: Seq<char>,
    pub location: Option<Seq<char>>,
    pub organizer: Option<Seq<char>>,
    pub description: Option<Seq<char>>,
}

pub struct CalendarView {
    pub name: Seq<char>,
    pub events: Seq<EventView>,
}

pub enum Failure {
    Selection { query: Seq<char>, rule: Seq<char> },
    Generic { message: Seq<char> },
    Content { message: Seq<char>, html: Seq<char> },
}

impl View for Event {
    type V = EventView;

    open spec fn view(&self) -> EventView {
        EventView {
            date: self.date,
            start: self.start,
            end: self.end,
            title: self.title@,
            location: opt_view(self.location),
            organizer: opt_view(self.organizer),
            description: opt_view(self.description),
        }
    }
}

/// The view of each event in turn.
pub open spec fn event_views(v: Seq<Event>) -> Seq<EventView> {
    v.map_values(|e: Event| e@)
}

impl View for Calendar {
    type V = CalendarView;

    open spec fn view(&self) -> CalendarView {
        CalendarView { name: self.name@, events: event_views(self.events@) }
    }
}

impl View for ParseError {
    type V = Failure;

    open spec fn view(&self) -> Failure {
        match self {
            ParseError::Selection { query, rule } => Failure::Selection {
                query: query@,
                rule: rule@,
            },
            ParseError::Generic { message } => Failure::Generic { message: message@ },
            ParseError::Content { message, html } => Failure::Content {
                message: message@,
                html: html@,
            },
        }
    }
}

/// The local date-time text of an iCalendar property for `time` on `date`.
pub open spec fn stamp(date: Date, time: Time) -> Seq<char> {
    date_stamp_of(date.year, date.month, date.day) + "T"@ + time_stamp_of(time.hour, time.minute)
        + "00"@
}

/// The iCalendar identifier of an event: its start stamp and its title with
/// dashes for spaces.
pub open spec fn event_uid(e: EventView) -> Seq<char> {
    stamp(e.date, e.start) + "_"@ + replace_char(e.title, ' ', '-')
}

fn stamp_text(date: Date, time: Time) -> (r: Option<String>)
    ensures
        r is Some <==> date.wf() && time.wf(),
        r matches Some(s) ==> s@ == stamp(date, time),
{
    let d = format_date(date)?;
    let t = format_time(time)?;
    let mut s = d;
    s.append("T");
    s.append(t.as_str());
    s.append("00");
    Some(s)
}

impl Event {
    /// The iCalendar text of the event's start; nothing where its date or
    /// start time is no valid one.
    pub fn start_stamp(&self) -> (r: Option<String>)
        ensures
            r is Some <==> self.date.wf() && self.start.wf(),
            r matches Some(s) ==> s@ == stamp(self.date, self.start),
    {
        stamp_text(self.date, self.start)
    }

    /// The iCalendar text of the event's end; nothing where its date or end
    /// time is no valid one.
    pub fn end_stamp(&self) -> (r: Option<String>)
        ensures
            r is Some <==> self.date.wf() && self.end.wf(),
            r matches Some(s) ==> s@ == stamp(self.date, self.end),
    {
        stamp_text(self.date, self.end)
    }

    /// The event's iCalendar identifier; nothing where its date or start time
    /// is no valid one.
    pub fn uid(&self) -> (r: Option<String>)
        ensures
            r is Some <==> self.date.wf() && self.start.wf(),
            r matches Some(s) ==> s@ == event_uid(self@),
    {
        let mut s = stamp_text(self.date, self.start)?;
        s.append("_");
        s.append(dash_spaces(self.title.as_str()).as_str());
        Some(s)
    }
}

/// A line of text that says what failed.
pub open spec fn description(f: Failure) -> Seq<char> {
    match f {
        Failure::Selection { query, rule } => "nothing matches "@ + query + " ("@ + rule + ")"@,
        Failure::Generic { message } => "parse failure: "@ + message,
        Failure::Content { message, html } => message + ": "@ + html,
    }
}

impl ParseError {
    /// A line of text that says what failed, for logs and error responses.
    pub fn describe(&self) -> (r: String)
        ensures
            r@ == description(self@),
    {
        let mut out = String::new();
        match self {
            ParseError::Selection { query, rule } => {
                out.append("nothing matches ");
                out.append(query.as_str());
                out.append(" (");
                out.append(rule.as_str());
                out.append(")");
            },
            ParseError::Generic { message } => {
                out.append("parse failure: ");
                out.append(message.as_str());
            },
            ParseError::Content { message, html } => {
                out.append(message.as_str());
                out.append(": ");
                out.append(html.as_str());
            },
        }
        out
    }
}

} // verus!
