//! Turning the week blocks of a timetable page into dated events.
use crate::calendar::{
    all_wf, event_views, Calendar, CalendarView, Event, EventView, Failure, ParseError,
};
use crate::dates::{
    add_days, calendar_date, clock_reading, lemma_plus_days_valid, plus_days, read_clock,
    valid_ymd, Date, Time, MAX_YEAR,
};
use crate::markup::{
    decode_entities, entities_decoded, page_of, queries_valid, read_page, row_view, Cell, CellView, Page, PageView,
    Queries, Week, WeekView, CONTENT_QUERY, TITLE_QUERY, WEEK_HEADER_QUERY, WEEK_NUMBER_QUERY,
};
use crate::text::{
    decimal, decimal_text, join, join_text, opt_view, parse_u32, parse_u64, same_text,
    split, split_text, starts_with_text, trim, trim_end_char, trim_end_char_text, trim_text,
    u32_of, u64_of, views, word, words_text,
};
use vstd::prelude::*;

verus! {

/// The start of a day with no start time given, and of one given as midnight.
pub open spec fn day_start() -> Time {
    Time { hour: 8, minute: 0 }
}

/// The end of a day with no end time given.
pub open spec fn day_end() -> Time {
    Time { hour: 18, minute: 0 }
}

/// The start time that a token gives: the day's start where it is empty or
/// reads as midnight, else the time it reads as.
pub open spec fn start_time(tok: Seq<char>) -> Option<Time> {
    if tok.len() == 0 {
        Some(day_start())
    } else {
        match clock_reading(tok) {
            Some(hm) => if hm.0 == 0 && hm.1 == 0 {
                Some(day_start())
            } else {
                Some(Time { hour: hm.0, minute: hm.1 })
            },
            None => None,
        }
    }
}

/// The end time that a token gives: the day's end where it is empty, else the
/// time it reads as.
pub open spec fn end_time(tok: Seq<char>) -> Option<Time> {
    if tok.len() == 0 {
        Some(day_end())
    } else {
        match clock_reading(tok) {
            Some(hm) => Some(Time { hour: hm.0, minute: hm.1 }),
            None => None,
        }
    }
}

/// Each text with its character references decoded.
pub open spec fn decoded_all(v: Seq<Seq<char>>) -> Seq<Seq<char>> {
    v.map_values(|x: Seq<char>| entities_decoded(x))
}

/// The last of the texts, if there are any.
pub open spec fn last_of(v: Seq<Seq<char>>) -> Option<Seq<char>> {
    if v.len() == 0 {
        None
    } else {
        Some(v.last())
    }
}

/// The texts joined by `", "`, if there are any.
pub open spec fn listing(v: Seq<Seq<char>>) -> Option<Seq<char>> {
    if v.len() == 0 {
        None
    } else {
        Some(join(v, ", "@))
    }
}

/// The event that a cell describes, on `date`.
pub open spec fn event_of(cell: CellView, date: Date) -> Result<EventView, Failure> {
    match cell.content {
        None => Err(Failure::Selection { query: CONTENT_QUERY@, rule: "event details"@ }),
        Some(details) => {
            let segs = split(details, "<br>"@);
            let times = segs[0];
            let bounds = split(times, "&nbsp;-"@);
            if bounds.len() < 2 {
                Err(Failure::Content { message: "time range without an end"@, html: times })
            } else {
                match start_time(bounds[0]) {
                    None => Err(Failure::Content { message: "malformed start time"@, html: times }),
                    Some(start) => match end_time(bounds[1]) {
                        None => Err(
                            Failure::Content { message: "malformed end time"@, html: times },
                        ),
                        Some(end) => if segs.len() < 2 {
                            Err(Failure::Content { message: "event without a title"@, html: details })
                        } else {
                            let resources = decoded_all(cell.resources);
                            Ok(
                                EventView {
                                    date,
                                    start,
                                    end,
                                    title: entities_decoded(segs[1]),
                                    location: last_of(resources),
                                    organizer: listing(decoded_all(cell.persons)),
                                    description: listing(resources),
                                },
                            )
                        },
                    },
                }
            }
        },
    }
}

/// The events of `first` followed by those of `rest`; the first failure where
/// either fails.
pub open spec fn chain(
    first: Result<Seq<EventView>, Failure>,
    rest: Result<Seq<EventView>, Failure>,
) -> Result<Seq<EventView>, Failure> {
    match first {
        Err(f) => Err(f),
        Ok(a) => match rest {
            Err(f) => Err(f),
            Ok(b) => Ok(a + b),
        },
    }
}

/// The events of one event cell, `day_index` days after `monday`.
pub open spec fn cell_events(cell: CellView, monday: (int, int, int), day_index: nat) -> Result<
    Seq<EventView>,
    Failure,
> {
    let day = plus_days(monday, day_index);
    if day.0 > MAX_YEAR {
        Err(Failure::Generic { message: "event date beyond the supported range"@ })
    } else {
        match event_of(cell, Date::of(day)) {
            Ok(e) => Ok(seq![e]),
            Err(f) => Err(f),
        }
    }
}

/// The events of the cells of a row from the `c`th on, with `day_index` days
/// counted so far: each separator cell counts one more day, each event cell
/// gives an event on the day counted, other cells are passed over.
pub open spec fn cells_outcome(
    cells: Seq<CellView>,
    c: int,
    day_index: nat,
    monday: (int, int, int),
) -> Result<Seq<EventView>, Failure>
    decreases cells.len() - c,
{
    if c < 0 || c >= cells.len() {
        Ok(Seq::empty())
    } else {
        match cells[c].class {
            None => Err(Failure::Content { message: "cell without a class"@, html: cells[c].markup }),
            Some(k) => {
                let counted = if "week_separatorcell"@.is_prefix_of(k) {
                    day_index + 1
                } else {
                    day_index
                };
                if k == "week_block"@ {
                    chain(
                        cell_events(cells[c], monday, counted),
                        cells_outcome(cells, c + 1, counted, monday),
                    )
                } else {
                    cells_outcome(cells, c + 1, counted, monday)
                }
            },
        }
    }
}

/// The events of the rows from the `r`th on.
pub open spec fn rows_outcome(rows: Seq<Seq<CellView>>, r: int, monday: (int, int, int)) -> Result<
    Seq<EventView>,
    Failure,
>
    decreases rows.len() - r,
{
    if r < 0 || r >= rows.len() {
        Ok(Seq::empty())
    } else {
        chain(cells_outcome(rows[r], 0, 0, monday), rows_outcome(rows, r + 1, monday))
    }
}

/// The day and month that a week header gives: its second word (runs of
/// white space separate words), without trailing dots, holds exactly two
/// numbers separated by a dot.
pub open spec fn header_day_month(header: Seq<char>) -> Option<(u32, u32)> {
    match word(header, 1) {
        None => None,
        Some(tok) => {
            let parts = split(trim_end_char(tok, '.'), "."@);
            if parts.len() == 2 && u32_of(parts[0]) is Some && u32_of(parts[1]) is Some {
                Some((u32_of(parts[0])->0, u32_of(parts[1])->0))
            } else {
                None
            }
        },
    }
}

/// The events of a week block in year `year`: the header gives the Monday,
/// and every row after the header row gives events from that day on.
pub open spec fn week_outcome(w: WeekView, year: int) -> Result<Seq<EventView>, Failure> {
    match w.header {
        None => Err(Failure::Selection { query: WEEK_HEADER_QUERY@, rule: "week header"@ }),
        Some(h) => match header_day_month(h) {
            None => Err(Failure::Content { message: "malformed week header"@, html: h }),
            Some(dm) => if valid_ymd((year, dm.1 as int, dm.0 as int)) {
                rows_outcome(w.rows, 1, (year, dm.1 as int, dm.0 as int))
            } else {
                Err(Failure::Content { message: "week header names no date"@, html: h })
            },
        },
    }
}

/// The view of a result that holds events.
pub open spec fn events_result_view(r: Result<Vec<Event>, ParseError>) -> Result<
    Seq<EventView>,
    Failure,
> {
    match r {
        Ok(v) => Ok(event_views(v@)),
        Err(f) => Err(f@),
    }
}

/// `acc` followed by the events of `rest`; the failure where `rest` fails.
pub open spec fn prepend(acc: Seq<EventView>, rest: Result<Seq<EventView>, Failure>) -> Result<
    Seq<EventView>,
    Failure,
> {
    match rest {
        Ok(b) => Ok(acc + b),
        Err(f) => Err(f),
    }
}

proof fn lemma_prepend_chain(
    acc: Seq<EventView>,
    a: Result<Seq<EventView>, Failure>,
    b: Result<Seq<EventView>, Failure>,
)
    ensures
        a matches Ok(x) ==> prepend(acc, chain(a, b)) == prepend(acc + x, b),
        a matches Err(f) ==> prepend(acc, chain(a, b)) == Err::<Seq<EventView>, Failure>(f),
{
    if let Ok(x) = a {
        if let Ok(y) = b {
            assert(acc + (x + y) =~= (acc + x) + y);
        }
    }
}

/// The week number that a label gives: its second word (runs of white space
/// separate words), read as an unsigned integer.
pub open spec fn week_number(label: Seq<char>) -> Option<u64> {
    match word(label, 1) {
        Some(tok) => u64_of(tok),
        None => None,
    }
}

/// The week number of a week block, where it has a label that gives one.
pub open spec fn block_number(w: WeekView) -> Option<u64> {
    match w.label {
        Some(l) => week_number(l),
        None => None,
    }
}

/// How many of the week blocks after the first, up to and including the
/// `i`th, are numbered 1: the years that have begun since the first block.
pub open spec fn rollovers(weeks: Seq<WeekView>, i: int) -> nat
    decreases i,
{
    if i <= 0 {
        0
    } else {
        rollovers(weeks, i - 1) + if block_number(weeks[i]) == Some(1u64) {
            1nat
        } else {
            0nat
        }
    }
}

/// The year of the `i`th week block when the first is in `start_year`.
pub open spec fn week_year(weeks: Seq<WeekView>, i: int, start_year: int) -> int {
    start_year + rollovers(weeks, i)
}

/// The failure for a week-number label that gives no number, in the week
/// block counted `ordinal` from 1.
pub open spec fn label_failure(ordinal: nat, label: Seq<char>) -> Failure {
    Failure::Content { message: "malformed week number label in week block "@ + decimal(ordinal), html: label }
}

/// The events of the week blocks from the `i`th on, the first block being in
/// `start_year`.
pub open spec fn weeks_outcome(weeks: Seq<WeekView>, i: int, start_year: int) -> Result<
    Seq<EventView>,
    Failure,
>
    decreases weeks.len() - i,
{
    if i < 0 || i >= weeks.len() {
        Ok(Seq::empty())
    } else {
        match weeks[i].label {
            None => Err(Failure::Selection { query: WEEK_NUMBER_QUERY@, rule: "week number label"@ }),
            Some(l) => match week_number(l) {
                None => Err(label_failure((i + 1) as nat, l)),
                Some(_) => chain(
                    week_outcome(weeks[i], week_year(weeks, i, start_year)),
                    weeks_outcome(weeks, i + 1, start_year),
                ),
            },
        }
    }
}

/// The calendar that a page gives when its first week block is in
/// `start_year`: named by its trimmed title, with the events of every week
/// block in order.
pub open spec fn page_outcome(p: PageView, start_year: int) -> Result<CalendarView, Failure> {
    match p.title {
        None => Err(Failure::Selection { query: TITLE_QUERY@, rule: "calendar title"@ }),
        Some(t) => match weeks_outcome(p.weeks, 0, start_year) {
            Ok(events) => Ok(CalendarView { name: trim(entities_decoded(t)), events }),
            Err(f) => Err(f),
        },
    }
}

/// The view of a result that holds a calendar.
pub open spec fn calendar_result_view(r: Result<Calendar, ParseError>) -> Result<
    CalendarView,
    Failure,
> {
    match r {
        Ok(c) => Ok(c@),
        Err(f) => Err(f@),
    }
}

/// The view of a result that holds one event.
pub open spec fn event_result_view(r: Result<Event, ParseError>) -> Result<EventView, Failure> {
    match r {
        Ok(e) => Ok(e@),
        Err(f) => Err(f@),
    }
}

fn start_time_of(tok: &str) -> (r: Option<Time>)
    ensures
        r == start_time(tok@),
        r matches Some(t) ==> t.wf(),
{
    if tok.unicode_len() == 0 {
        return Some(Time { hour: 8, minute: 0 });
    }
    match read_clock(tok) {
        Some(t) => if t.hour == 0 && t.minute == 0 {
            Some(Time { hour: 8, minute: 0 })
        } else {
            Some(t)
        },
        None => None,
    }
}

fn end_time_of(tok: &str) -> (r: Option<Time>)
    ensures
        r == end_time(tok@),
        r matches Some(t) ==> t.wf(),
{
    if tok.unicode_len() == 0 {
        return Some(Time { hour: 18, minute: 0 });
    }
    read_clock(tok)
}

fn decode_each(v: &Vec<String>) -> (r: Vec<String>)
    ensures
        views(r@) == decoded_all(views(v@)),
{
    let mut out: Vec<String> = Vec::new();
    let mut i: usize = 0;
    while i < v.len()
        invariant
            i <= v@.len(),
            views(out@) == decoded_all(views(v@)).take(i as int),
        decreases v@.len() - i,
    {
        let ghost before = views(out@);
        let d = decode_entities(v[i].as_str());
        out.push(d);
        assert(views(out@) =~= before.push(d@));
        i = i + 1;
        assert(views(out@) =~= decoded_all(views(v@)).take(i as int));
    }
    assert(decoded_all(views(v@)).take(i as int) =~= decoded_all(views(v@)));
    out
}

fn last_text(v: &Vec<String>) -> (r: Option<String>)
    ensures
        opt_view(r) == last_of(views(v@)),
{
    if v.len() == 0 {
        None
    } else {
        Some(v[v.len() - 1].clone())
    }
}

fn listing_text(v: &Vec<String>) -> (r: Option<String>)
    ensures
        opt_view(r) == listing(views(v@)),
{
    if v.len() == 0 {
        None
    } else {
        Some(join_text(v, ", "))
    }
}

fn content_failure(message: &str, html: &str) -> (r: ParseError)
    ensures
        r@ == (Failure::Content { message: message@, html: html@ }),
{
    ParseError::Content { message: String::from_str(message), html: String::from_str(html) }
}

/// Reads the event that an event cell describes, for the day `date`: its time
/// range and title from the cell's details, its location and description from
/// the resource tags, its organizer from the person tags.
pub fn parse_event(cell: &Cell, date: Date) -> (r: Result<Event, ParseError>)
    ensures
        event_result_view(r) == event_of(cell@, date),
        r matches Ok(e) ==> e.start.wf() && e.end.wf() && e.date == date,
{
    let details = match &cell.content {
        None => {
            return Err(
                ParseError::Selection {
                    query: String::from_str(CONTENT_QUERY),
                    rule: String::from_str("event details"),
                },
            );
        },
        Some(d) => d,
    };
    proof {
        reveal_strlit("<br>");
        reveal_strlit("&nbsp;-");
    }
    let segs = split_text(details.as_str(), "<br>");
    let times = segs[0].as_str();
    let bounds = split_text(times, "&nbsp;-");
    if bounds.len() < 2 {
        return Err(content_failure("time range without an end", times));
    }
    let start = match start_time_of(bounds[0].as_str()) {
        None => {
            return Err(content_failure("malformed start time", times));
        },
        Some(t) => t,
    };
    let end = match end_time_of(bounds[1].as_str()) {
        None => {
            return Err(content_failure("malformed end time", times));
        },
        Some(t) => t,
    };
    if segs.len() < 2 {
        return Err(content_failure("event without a title", details.as_str()));
    }
    let title = decode_entities(segs[1].as_str());
    let resources = decode_each(&cell.resources);
    let persons = decode_each(&cell.persons);
    Ok(
        Event {
            date,
            start,
            end,
            title,
            location: last_text(&resources),
            organizer: listing_text(&persons),
            description: listing_text(&resources),
        },
    )
}

/// The day and month that a week header gives.
fn header_day_month_of(header: &str) -> (r: Option<(u32, u32)>)
    ensures
        r == header_day_month(header@),
{
    proof {
        reveal_strlit(".");
    }
    let toks = words_text(header);
    if toks.len() < 2 {
        return None;
    }
    let tok = trim_end_char_text(toks[1].as_str(), '.');
    let parts = split_text(tok.as_str(), ".");
    if parts.len() != 2 {
        return None;
    }
    match (parse_u32(parts[0].as_str()), parse_u32(parts[1].as_str())) {
        (Some(day), Some(month)) => Some((day, month)),
        _ => None,
    }
}

/// Reads the events of one week block in year `year`: the header gives the
/// week's Monday; in each row after the header row, separator cells count the
/// days and each event cell gives an event on the day counted.
pub fn parse_week(week: &Week, year: i64) -> (r: Result<Vec<Event>, ParseError>)
    ensures
        events_result_view(r) == week_outcome(week@, year as int),
        r matches Ok(v) ==> all_wf(v@),
{
    let header = match &week.header {
        None => {
            return Err(
                ParseError::Selection {
                    query: String::from_str(WEEK_HEADER_QUERY),
                    rule: String::from_str("week header"),
                },
            );
        },
        Some(h) => h,
    };
    let (day, month) = match header_day_month_of(header.as_str()) {
        None => {
            return Err(content_failure("malformed week header", header.as_str()));
        },
        Some(dm) => dm,
    };
    let found = if i32::MIN as i64 <= year && year <= i32::MAX as i64 {
        calendar_date(year as i32, month, day)
    } else {
        None
    };
    let monday = match found {
        None => {
            return Err(content_failure("week header names no date", header.as_str()));
        },
        Some(d) => d,
    };
    let ghost m = monday@;
    let ghost rows = week@.rows;
    let mut events: Vec<Event> = Vec::new();
    let mut r: usize = 1;
    while r < week.rows.len()
        invariant
            monday.wf(),
            all_wf(events@),
            m == monday@,
            rows == week@.rows,
            week_outcome(week@, year as int) == prepend(
                event_views(events@),
                rows_outcome(rows, r as int, m),
            ),
        decreases week.rows@.len() - r,
    {
        let row = &week.rows[r];
        assert(rows[r as int] == row_view(*row));
        proof {
            lemma_prepend_chain(
                event_views(events@),
                cells_outcome(rows[r as int], 0, 0, m),
                rows_outcome(rows, r + 1, m),
            );
        }
        let mut day_index: u64 = 0;
        let mut c: usize = 0;
        while c < row.len()
            invariant
                monday.wf(),
                all_wf(events@),
                m == monday@,
                rows == week@.rows,
                r < rows.len(),
                rows[r as int] == row_view(*row),
                day_index <= c <= row@.len(),
                week_outcome(week@, year as int) == prepend(
                    event_views(events@),
                    chain(
                        cells_outcome(rows[r as int], c as int, day_index as nat, m),
                        rows_outcome(rows, r + 1, m),
                    ),
                ),
            decreases row@.len() - c,
        {
            let cell = &row[c];
            let ghost cells = rows[r as int];
            assert(cells[c as int] == cell@);
            let class = match &cell.class {
                None => {
                    return Err(content_failure("cell without a class", cell.markup.as_str()));
                },
                Some(k) => k,
            };
            if starts_with_text(class.as_str(), "week_separatorcell") {
                day_index = day_index + 1;
            }
            if !same_text(class.as_str(), "week_block") {
                c = c + 1;
                continue;
            }
            let date = match add_days(monday, day_index) {
                None => {
                    return Err(
                        ParseError::Generic {
                            message: String::from_str("event date beyond the supported range"),
                        },
                    );
                },
                Some(d) => d,
            };
            proof {
                lemma_plus_days_valid(m, day_index as nat);
            }
            let event = match parse_event(cell, date) {
                Err(f) => {
                    return Err(f);
                },
                Ok(e) => e,
            };
            let ghost before = event_views(events@);
            events.push(event);
            proof {
                assert(all_wf(events@)) by {
                    assert(events@.last() == event);
                }
                assert(event_views(events@) =~= before + seq![event@]);
                lemma_prepend_chain(
                    before,
                    cell_events(cells[c as int], m, day_index as nat),
                    cells_outcome(cells, c + 1, day_index as nat, m),
                );
                lemma_prepend_chain(
                    before,
                    chain(
                        cell_events(cells[c as int], m, day_index as nat),
                        cells_outcome(cells, c + 1, day_index as nat, m),
                    ),
                    rows_outcome(rows, r + 1, m),
                );
                lemma_prepend_chain(
                    before + seq![event@],
                    cells_outcome(cells, c + 1, day_index as nat, m),
                    rows_outcome(rows, r + 1, m),
                );
            }
            c = c + 1;
        }
        r = r + 1;
    }
    assert(event_views(events@) + Seq::<EventView>::empty() =~= event_views(events@));
    Ok(events)
}

/// Reads the calendar of a page whose first week block is in `start_year`.
/// A week block numbered 1 that is not the first begins a new year.
pub fn parse_page(page: &Page, start_year: i32) -> (r: Result<Calendar, ParseError>)
    ensures
        calendar_result_view(r) == page_outcome(page@, start_year as int),
        r matches Ok(c) ==> all_wf(c.events@),
{
    let title = match &page.title {
        None => {
            return Err(
                ParseError::Selection {
                    query: String::from_str(TITLE_QUERY),
                    rule: String::from_str("calendar title"),
                },
            );
        },
        Some(t) => t,
    };
    let name = trim_text(decode_entities(title.as_str()).as_str());
    let ghost weeks = page@.weeks;
    let ghost start = start_year as int;
    let mut year: i64 = start_year as i64;
    let mut events: Vec<Event> = Vec::new();
    let mut idx: usize = 0;
    assert(weeks_outcome(weeks, 0, start) == prepend(event_views(events@), weeks_outcome(weeks, 0, start))) by {
        if let Ok(x) = weeks_outcome(weeks, 0, start) {
            assert(event_views(events@) + x =~= x);
        }
    }
    while idx < page.weeks.len()
        invariant
            weeks == page@.weeks,
            all_wf(events@),
            page@.title == Some(title@),
            name@ == trim(entities_decoded(title@)),
            start == start_year as int,
            idx <= weeks.len(),
            year == start + rollovers(weeks, idx - 1),
            year <= i32::MAX,
            rollovers(weeks, idx - 1) <= idx,
            weeks_outcome(weeks, 0, start) == prepend(
                event_views(events@),
                weeks_outcome(weeks, idx as int, start),
            ),
        decreases weeks.len() - idx,
    {
        let week = &page.weeks[idx];
        assert(weeks[idx as int] == week@);
        let label = match &week.label {
            None => {
                return Err(
                    ParseError::Selection {
                        query: String::from_str(WEEK_NUMBER_QUERY),
                        rule: String::from_str("week number label"),
                    },
                );
            },
            Some(l) => l,
        };
        let toks = words_text(label.as_str());
        let number = if toks.len() < 2 {
            None
        } else {
            parse_u64(toks[1].as_str())
        };
        let number = match number {
            None => {
                let mut message = String::from_str("malformed week number label in week block ");
                message.append(decimal_text(idx as u64 + 1).as_str());
                return Err(ParseError::Content { message, html: label.clone() });
            },
            Some(n) => n,
        };
        assert(block_number(weeks[idx as int]) == Some(number));
        if number == 1 && idx > 0 {
            year = year + 1;
        }
        assert(year == start + rollovers(weeks, idx as int));
        let found = match parse_week(week, year) {
            Err(f) => {
                return Err(f);
            },
            Ok(v) => v,
        };
        assert(year <= MAX_YEAR);
        let ghost before = event_views(events@);
        let ghost added = event_views(found@);
        let ghost old_events = events@;
        let ghost new_events = found@;
        let mut found = found;
        events.append(&mut found);
        proof {
            assert(events@ == old_events + new_events);
            assert(all_wf(events@)) by {
                assert forall|i: int| 0 <= i < events@.len() implies (#[trigger] events@[i]).wf() by {
                    if i >= old_events.len() {
                        assert(events@[i] == new_events[i - old_events.len()]);
                    }
                }
            }
            assert(event_views(events@) =~= before + added);
            lemma_prepend_chain(
                before,
                week_outcome(weeks[idx as int], week_year(weeks, idx as int, start)),
                weeks_outcome(weeks, idx + 1, start),
            );
        }
        idx = idx + 1;
    }
    assert(event_views(events@) + Seq::<EventView>::empty() =~= event_views(events@));
    Ok(Calendar { name, events })
}

/// Reads the calendar that the HTML document `s` describes, with queries
/// compiled beforehand, its first week block being in `start_year`: the
/// outcome of `parse_page` on the title and week blocks that the document
/// holds.
pub fn parse_calendar_with(queries: &Queries, s: &str, start_year: i32) -> (r: Result<
    Calendar,
    ParseError,
>)
    requires
        queries.wf(),
    ensures
        calendar_result_view(r) == page_outcome(page_of(s@), start_year as int),
        r matches Ok(c) ==> all_wf(c.events@),
{
    let page = read_page(s, queries);
    parse_page(&page, start_year)
}

/// The failure where a query that reading a page needs does not compile.
pub const QUERY_FAILURE: &'static str = "a structural query does not compile";

/// Reads the calendar that the HTML document `s` describes, its first week
/// block being in `start_year`, compiling the queries first.
pub fn parse_calendar(s: &str, start_year: i32) -> (r: Result<Calendar, ParseError>)
    ensures
        queries_valid() ==> calendar_result_view(r) == page_outcome(page_of(s@), start_year as int),
        !queries_valid() ==> calendar_result_view(r) == Err::<CalendarView, Failure>(
            Failure::Generic { message: QUERY_FAILURE@ },
        ),
        r matches Ok(c) ==> all_wf(c.events@),
{
    match Queries::compile() {
        None => Err(ParseError::Generic { message: String::from_str(QUERY_FAILURE) }),
        Some(q) => parse_calendar_with(&q, s, start_year),
    }
}

} // verus!
