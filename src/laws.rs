//! Properties of page reading that hold for every input.
use crate::calendar::{Calendar, CalendarView, EventView, Failure, ParseError};
use crate::dates::{next_day, plus_days, Date, MAX_YEAR};
use crate::dom::document_matches;
use crate::markup::{page_of, queries_valid, CellView, TITLE_QUERY};
use crate::parser::{
    block_number, calendar_result_view, cell_events, cells_outcome, event_of, page_outcome, rows_outcome,
    week_year, QUERY_FAILURE,
};
use vstd::prelude::*;

verus! {

/// A document without a title element fails with a selection failure for the
/// title query, whatever else it holds.
pub proof fn untitled_document_fails(s: Seq<char>, start_year: int)
    requires
        document_matches(s, TITLE_QUERY@) == 0,
    ensures
        page_outcome(page_of(s), start_year) == Err::<CalendarView, Failure>(
            Failure::Selection { query: TITLE_QUERY@, rule: "calendar title"@ },
        ),
{
}

/// The first week block of a document is read in the starting year, whatever
/// its number; each later block is read in the year of the block before it,
/// one year later exactly where it is numbered 1.
pub proof fn year_advances_at_week_one(s: Seq<char>, start_year: int, i: int)
    requires
        0 < i < page_of(s).weeks.len(),
    ensures
        week_year(page_of(s).weeks, 0, start_year) == start_year,
        week_year(page_of(s).weeks, i, start_year) == week_year(page_of(s).weeks, i - 1, start_year)
            + if block_number(page_of(s).weeks[i]) == Some(1u64) {
            1int
        } else {
            0int
        },
{
}

/// An event read from a cell without resource tags has neither location nor
/// description, and one read from a cell without person tags has no
/// organizer.
pub proof fn untagged_cell_fields_absent(cell: CellView, date: Date)
    ensures
        event_of(cell, date) matches Ok(e) ==> (cell.resources.len() == 0 ==> e.location is None
            && e.description is None) && (cell.persons.len() == 0 ==> e.organizer is None),
{
}

/// What `parse_calendar` promises of its result on a document and a year.
pub open spec fn parse_calendar_result(
    s: Seq<char>,
    start_year: int,
    r: Result<Calendar, ParseError>,
) -> bool {
    &&& queries_valid() ==> calendar_result_view(r) == page_outcome(page_of(s), start_year)
    &&& !queries_valid() ==> calendar_result_view(r) == Err::<CalendarView, Failure>(
        Failure::Generic { message: QUERY_FAILURE@ },
    )
}

/// Parsing the same document twice, with the same starting year, gives equal
/// calendars, or equal failures.
pub proof fn parsing_repeats(
    s: Seq<char>,
    start_year: int,
    first: Result<Calendar, ParseError>,
    second: Result<Calendar, ParseError>,
)
    requires
        parse_calendar_result(s, start_year, first),
        parse_calendar_result(s, start_year, second),
    ensures
        calendar_result_view(first) == calendar_result_view(second),
{
}

/// In a row that begins with a separator cell followed by an event cell, the
/// first event falls on the day after the week's Monday, whatever cells
/// follow.
pub proof fn separator_moves_to_next_day(cells: Seq<CellView>, monday: (int, int, int))
    requires
        cells.len() >= 2,
        cells[0].class matches Some(k) && "week_separatorcell"@.is_prefix_of(k),
        cells[1].class == Some("week_block"@),
    ensures
        cells_outcome(cells, 0, 0, monday) matches Ok(events) ==> events.len() >= 1
            && events[0].date == Date::of(next_day(monday)),
{
    reveal_strlit("week_separatorcell");
    reveal_strlit("week_block");
    let k = cells[0].class->0;
    assert(k != "week_block"@) by {
        if k == "week_block"@ {
            assert(k[5] == "week_separatorcell"@[5]);
        }
    }
    assert(plus_days(monday, 1) == next_day(monday)) by {
        reveal_with_fuel(plus_days, 2);
    }
    assert(cells_outcome(cells, 0, 0, monday) == cells_outcome(cells, 1, 1, monday));
    let day = Date::of(plus_days(monday, 1));
    if let Ok(e) = event_of(cells[1], day) {
        assert(e.date == day);
        assert(cell_events(cells[1], monday, 1) == Ok::<Seq<EventView>, Failure>(seq![e])
            || plus_days(monday, 1).0 > MAX_YEAR);
    }
}

/// In a week block, the events of the rows from a row on that begins with a
/// separator cell followed by an event cell start with an event on the day
/// after the week's Monday.
pub proof fn separator_row_moves_to_next_day(
    rows: Seq<Seq<CellView>>,
    r: int,
    monday: (int, int, int),
)
    requires
        0 <= r < rows.len(),
        rows[r].len() >= 2,
        rows[r][0].class matches Some(k) && "week_separatorcell"@.is_prefix_of(k),
        rows[r][1].class == Some("week_block"@),
    ensures
        rows_outcome(rows, r, monday) matches Ok(events) ==> events.len() >= 1
            && events[0].date == Date::of(next_day(monday)),
{
    separator_moves_to_next_day(rows[r], monday);
}

} // verus!
