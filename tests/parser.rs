use rapla_proxy::calendar::{Calendar, ParseError};
use rapla_proxy::dates::{Date, Time};
use rapla_proxy::markup::{Cell, Page, Week};
use rapla_proxy::parser::{parse_calendar, parse_event, parse_page, parse_week};

fn cell(class: &str, content: Option<&str>, resources: &[&str], persons: &[&str]) -> Cell {
    Cell {
        class: Some(class.to_string()),
        markup: format!("<td class=\"{class}\"></td>"),
        content: content.map(|c| c.to_string()),
        resources: resources.iter().map(|r| r.to_string()).collect(),
        persons: persons.iter().map(|p| p.to_string()).collect(),
    }
}

fn event_cell(content: &str) -> Cell {
    cell("week_block", Some(content), &[], &[])
}

fn separator() -> Cell {
    cell("week_separatorcell", None, &[], &[])
}

fn week(label: &str, header: &str, rows: Vec<Vec<Cell>>) -> Week {
    let mut all = vec![vec![cell("week_header", None, &[], &[])]];
    all.extend(rows);
    Week { label: Some(label.to_string()), header: Some(header.to_string()), rows: all }
}

fn date(year: i32, month: u32, day: u32) -> Date {
    Date { year, month, day }
}

fn time(hour: u32, minute: u32) -> Time {
    Time { hour, minute }
}

const DOCUMENT: &str = r##"<!DOCTYPE html>
<html><head><title>  Course TINF23  </title></head><body>
<div class="calendar"><table class="week_table"><tbody>
<tr><th class="week_number">KW 12</th><td class="week_header"><nobr>Mo 18.03.</nobr></td></tr>
<tr><td class="week_block"><a href="#">09:00&nbsp;-12:00<br>Math &amp; Logic<br><span class="resource">Room A</span><span class="person">Doe, J.</span></a></td><td class="week_separatorcell"></td><td class="week_block"><span class="link"><a href="#">&nbsp;-<br>Project day</a></span></td></tr>
</tbody></table>
<table class="week_table"><tbody>
<tr><th class="week_number">KW 1</th><td class="week_header"><nobr>Mo 30.12.</nobr></td></tr>
<tr><td class="week_separatorcell"></td><td class="week_separatorcell"></td><td class="week_block"><a href="#">00:00&nbsp;-10:00<br>New year<br><span class="resource">Hall</span><span class="resource">Room B</span></a></td></tr>
</tbody></table></div>
</body></html>"##;

#[test]
fn document_events_in_order() {
    let cal = parse_calendar(DOCUMENT, 2024).unwrap();
    assert_eq!(cal.name, "Course TINF23");
    assert_eq!(cal.events.len(), 3);
    let first = &cal.events[0];
    assert_eq!(first.date, date(2024, 3, 18));
    assert_eq!(first.start, time(9, 0));
    assert_eq!(first.end, time(12, 0));
    assert_eq!(first.title, "Math & Logic");
    assert_eq!(first.location.as_deref(), Some("Room A"));
    assert_eq!(first.description.as_deref(), Some("Room A"));
    assert_eq!(first.organizer.as_deref(), Some("Doe, J."));
    let second = &cal.events[1];
    assert_eq!(second.date, date(2024, 3, 19));
    assert_eq!(second.start, time(8, 0));
    assert_eq!(second.end, time(18, 0));
    assert_eq!(second.title, "Project day");
    assert_eq!(second.location, None);
    assert_eq!(second.organizer, None);
}

#[test]
fn document_week_one_rolls_over_year() {
    let cal = parse_calendar(DOCUMENT, 2024).unwrap();
    let third = &cal.events[2];
    // Monday 30 December 2025, two separators later: 1 January 2026.
    assert_eq!(third.date, date(2026, 1, 1));
    assert_eq!(third.start, time(8, 0));
    assert_eq!(third.end, time(10, 0));
    assert_eq!(third.location.as_deref(), Some("Room B"));
    assert_eq!(third.description.as_deref(), Some("Hall, Room B"));
}

#[test]
fn document_without_title_fails_selection() {
    let html = "<html><body><div class=\"calendar\"></div></body></html>";
    match parse_calendar(html, 2024) {
        Err(ParseError::Selection { query, .. }) => assert_eq!(query, "title"),
        other => panic!("unexpected {other:?}"),
    }
}

#[test]
fn page_without_title_fails_selection() {
    let page = Page { title: None, weeks: vec![week("KW 1", "Mo 01.01.", vec![])] };
    assert!(matches!(parse_page(&page, 2024), Err(ParseError::Selection { .. })));
}

#[test]
fn parsing_twice_gives_equal_calendars() {
    let a: Calendar = parse_calendar(DOCUMENT, 2023).unwrap();
    let b: Calendar = parse_calendar(DOCUMENT, 2023).unwrap();
    assert_eq!(a, b);
}

#[test]
fn empty_document_has_no_events() {
    let cal = parse_calendar("<html><head><title>x</title></head></html>", 2024).unwrap();
    assert_eq!(cal.name, "x");
    assert!(cal.events.is_empty());
}

#[test]
fn first_week_one_keeps_year() {
    let row = vec![event_cell("10:00&nbsp;-11:00<br>A")];
    let page = Page {
        title: Some("t".to_string()),
        weeks: vec![
            week("KW 1", "Mo 01.01.", vec![row.clone()]),
            week("KW 2", "Mo 08.01.", vec![row.clone()]),
            week("KW 1", "Mo 06.01.", vec![row.clone()]),
            week("KW 1", "Mo 05.01.", vec![row]),
        ],
    };
    let cal = parse_page(&page, 2024).unwrap();
    let years: Vec<i32> = cal.events.iter().map(|e| e.date.year).collect();
    assert_eq!(years, vec![2024, 2024, 2025, 2026]);
}

#[test]
fn malformed_week_label_names_week_ordinal() {
    let page = Page {
        title: Some("t".to_string()),
        weeks: vec![week("KW 1", "Mo 01.01.", vec![]), week("KW", "Mo 08.01.", vec![])],
    };
    match parse_page(&page, 2024) {
        Err(ParseError::Content { message, html }) => {
            assert_eq!(message, "malformed week number label in week block 2");
            assert_eq!(html, "KW");
        }
        other => panic!("unexpected {other:?}"),
    }
}

#[test]
fn missing_week_label_fails_selection() {
    let mut w = week("KW 1", "Mo 01.01.", vec![]);
    w.label = None;
    let page = Page { title: Some("t".to_string()), weeks: vec![w] };
    match parse_page(&page, 2024) {
        Err(ParseError::Selection { query, .. }) => assert_eq!(query, "th.week_number"),
        other => panic!("unexpected {other:?}"),
    }
}

#[test]
fn week_header_gives_monday() {
    let w = week("KW 12", "Mo 23.03.", vec![vec![event_cell("10:00&nbsp;-11:00<br>A")]]);
    let events = parse_week(&w, 2024).unwrap();
    assert_eq!(events[0].date, date(2024, 3, 23));
}

#[test]
fn week_header_reads_second_token_only() {
    // The second token here is the week number, which holds no day and month.
    let w = week("KW 12", "KW 12 23.03.", vec![]);
    match parse_week(&w, 2024) {
        Err(ParseError::Content { html, .. }) => assert_eq!(html, "KW 12 23.03."),
        other => panic!("unexpected {other:?}"),
    }
}

#[test]
fn separator_then_event_is_next_day() {
    let w = week("KW 12", "Mo 18.03.", vec![vec![separator(), event_cell("10:00&nbsp;-11:00<br>A")]]);
    let events = parse_week(&w, 2024).unwrap();
    assert_eq!(events[0].date, date(2024, 3, 19));
}

#[test]
fn separators_cross_month_end() {
    let row = vec![separator(), separator(), event_cell("10:00&nbsp;-11:00<br>A")];
    let w = week("KW 14", "Mo 30.03.", vec![row]);
    let events = parse_week(&w, 2026).unwrap();
    assert_eq!(events[0].date, date(2026, 4, 1));
}

#[test]
fn day_index_restarts_each_row() {
    let rows = vec![
        vec![separator(), event_cell("10:00&nbsp;-11:00<br>A")],
        vec![event_cell("12:00&nbsp;-13:00<br>B")],
    ];
    let w = week("KW 12", "Mo 18.03.", rows);
    let events = parse_week(&w, 2024).unwrap();
    assert_eq!(events[0].date, date(2024, 3, 19));
    assert_eq!(events[1].date, date(2024, 3, 18));
}

#[test]
fn other_cells_are_skipped() {
    let row = vec![cell("week_smallseparatorcell", None, &[], &[]), cell("week_empty", None, &[], &[])];
    let w = week("KW 12", "Mo 18.03.", vec![row]);
    assert_eq!(parse_week(&w, 2024).unwrap(), vec![]);
}

#[test]
fn header_with_three_parts_fails() {
    let w = week("KW 12", "Mo 18.03.2024", vec![]);
    assert!(matches!(parse_week(&w, 2024), Err(ParseError::Content { .. })));
}

#[test]
fn header_without_second_token_fails() {
    let w = week("KW 12", "Montag", vec![]);
    match parse_week(&w, 2024) {
        Err(ParseError::Content { html, .. }) => assert_eq!(html, "Montag"),
        other => panic!("unexpected {other:?}"),
    }
}

#[test]
fn header_with_impossible_date_fails() {
    let w = week("KW 12", "Mo 31.04.", vec![]);
    assert!(matches!(parse_week(&w, 2024), Err(ParseError::Content { .. })));
    let leap = week("KW 9", "Do 29.02.", vec![]);
    assert!(parse_week(&leap, 2024).is_ok());
    assert!(matches!(parse_week(&leap, 2023), Err(ParseError::Content { .. })));
}

#[test]
fn missing_week_header_fails_selection() {
    let mut w = week("KW 12", "Mo 18.03.", vec![]);
    w.header = None;
    match parse_week(&w, 2024) {
        Err(ParseError::Selection { query, .. }) => assert_eq!(query, "tr > td.week_header > nobr"),
        other => panic!("unexpected {other:?}"),
    }
}

#[test]
fn cell_without_class_fails() {
    let mut c = event_cell("10:00&nbsp;-11:00<br>A");
    c.class = None;
    c.markup = "<td></td>".to_string();
    let w = week("KW 12", "Mo 18.03.", vec![vec![c]]);
    match parse_week(&w, 2024) {
        Err(ParseError::Content { html, .. }) => assert_eq!(html, "<td></td>"),
        other => panic!("unexpected {other:?}"),
    }
}

#[test]
fn date_beyond_range_fails_generic() {
    let w = week("KW 52", "Mo 31.12.", vec![vec![separator(), event_cell("10:00&nbsp;-11:00<br>A")]]);
    assert!(matches!(parse_week(&w, 262142), Err(ParseError::Generic { .. })));
}

#[test]
fn empty_start_defaults_to_eight() {
    let e = parse_event(&event_cell("&nbsp;-17:00<br>A"), date(2024, 3, 18)).unwrap();
    assert_eq!(e.start, time(8, 0));
    assert_eq!(e.end, time(17, 0));
}

#[test]
fn empty_end_defaults_to_eighteen() {
    let e = parse_event(&event_cell("09:00&nbsp;-<br>A"), date(2024, 3, 18)).unwrap();
    assert_eq!(e.start, time(9, 0));
    assert_eq!(e.end, time(18, 0));
}

#[test]
fn midnight_start_becomes_eight() {
    let e = parse_event(&event_cell("00:00&nbsp;-10:00<br>A"), date(2024, 3, 18)).unwrap();
    assert_eq!(e.start, time(8, 0));
    let e = parse_event(&event_cell("07:30&nbsp;-10:00<br>A"), date(2024, 3, 18)).unwrap();
    assert_eq!(e.start, time(7, 30));
}

#[test]
fn midnight_end_is_kept() {
    let e = parse_event(&event_cell("22:00&nbsp;-00:00<br>A"), date(2024, 3, 18)).unwrap();
    assert_eq!(e.end, time(0, 0));
}

#[test]
fn two_resources_give_location_and_description() {
    let c = cell("week_block", Some("09:00&nbsp;-10:00<br>A"), &["Room A", "Room B"], &[]);
    let e = parse_event(&c, date(2024, 3, 18)).unwrap();
    assert_eq!(e.location.as_deref(), Some("Room B"));
    assert_eq!(e.description.as_deref(), Some("Room A, Room B"));
}

#[test]
fn no_tags_give_absent_fields() {
    let e = parse_event(&event_cell("09:00&nbsp;-10:00<br>A"), date(2024, 3, 18)).unwrap();
    assert_eq!(e.location, None);
    assert_eq!(e.description, None);
    assert_eq!(e.organizer, None);
}

#[test]
fn persons_are_joined() {
    let c = cell("week_block", Some("09:00&nbsp;-10:00<br>A"), &[], &["Doe", "M&uuml;ller"]);
    let e = parse_event(&c, date(2024, 3, 18)).unwrap();
    assert_eq!(e.organizer.as_deref(), Some("Doe, Müller"));
}

#[test]
fn title_entities_are_decoded() {
    let e = parse_event(&event_cell("09:00&nbsp;-10:00<br>R&amp;D &lt;1&gt;<br>extra"), date(2024, 3, 18)).unwrap();
    assert_eq!(e.title, "R&D <1>");
}

#[test]
fn missing_details_fail_selection() {
    let c = cell("week_block", None, &[], &[]);
    assert!(matches!(parse_event(&c, date(2024, 3, 18)), Err(ParseError::Selection { .. })));
}

#[test]
fn time_range_without_end_fails() {
    match parse_event(&event_cell("09:00<br>A"), date(2024, 3, 18)) {
        Err(ParseError::Content { html, .. }) => assert_eq!(html, "09:00"),
        other => panic!("unexpected {other:?}"),
    }
}

#[test]
fn malformed_times_fail() {
    assert!(matches!(
        parse_event(&event_cell("9h&nbsp;-10:00<br>A"), date(2024, 3, 18)),
        Err(ParseError::Content { .. })
    ));
    assert!(matches!(
        parse_event(&event_cell("09:00&nbsp;-25:00<br>A"), date(2024, 3, 18)),
        Err(ParseError::Content { .. })
    ));
}

#[test]
fn missing_title_fails() {
    match parse_event(&event_cell("09:00&nbsp;-10:00"), date(2024, 3, 18)) {
        Err(ParseError::Content { html, .. }) => assert_eq!(html, "09:00&nbsp;-10:00"),
        other => panic!("unexpected {other:?}"),
    }
}

#[test]
fn precompiled_queries_give_same_calendar() {
    let queries = rapla_proxy::markup::Queries::compile().unwrap();
    let a = rapla_proxy::parser::parse_calendar_with(&queries, DOCUMENT, 2024).unwrap();
    let b = parse_calendar(DOCUMENT, 2024).unwrap();
    assert_eq!(a, b);
}

#[test]
fn document_cell_without_class_fails() {
    let html = r##"<html><head><title>t</title></head><body>
<div class="calendar"><table class="week_table"><tbody>
<tr><th class="week_number">KW 12</th><td class="week_header"><nobr>Mo 18.03.</nobr></td></tr>
<tr><td>x</td></tr>
</tbody></table></div></body></html>"##;
    match parse_calendar(html, 2024) {
        Err(ParseError::Content { html, .. }) => assert_eq!(html, "<td>x</td>"),
        other => panic!("unexpected {other:?}"),
    }
}

#[test]
fn document_week_without_header_fails() {
    let html = r##"<html><head><title>t</title></head><body>
<div class="calendar"><table class="week_table"><tbody>
<tr><th class="week_number">KW 12</th></tr>
</tbody></table></div></body></html>"##;
    assert!(matches!(parse_calendar(html, 2024), Err(ParseError::Selection { .. })));
}

#[test]
fn document_first_week_one_keeps_year() {
    let html = r##"<html><head><title>t</title></head><body>
<div class="calendar"><table class="week_table"><tbody>
<tr><th class="week_number">KW 1</th><td class="week_header"><nobr>Mo 01.01.</nobr></td></tr>
<tr><td class="week_block"><a>10:00&nbsp;-11:00<br>A</a></td></tr>
</tbody></table></div></body></html>"##;
    let cal = parse_calendar(html, 2024).unwrap();
    assert_eq!(cal.events[0].date, date(2024, 1, 1));
}

#[test]
fn many_separators_pass_the_week_end() {
    let mut row: Vec<Cell> = (0..8).map(|_| separator()).collect();
    row.push(event_cell("10:00&nbsp;-11:00<br>A"));
    let w = week("KW 12", "Mo 18.03.", vec![row]);
    let events = parse_week(&w, 2024).unwrap();
    assert_eq!(events[0].date, date(2024, 3, 26));
}

#[test]
fn separator_class_prefix_counts() {
    let row = vec![cell("week_separatorcell_black", None, &[], &[]), event_cell("10:00&nbsp;-11:00<br>A")];
    let w = week("KW 12", "Mo 18.03.", vec![row]);
    let events = parse_week(&w, 2024).unwrap();
    assert_eq!(events[0].date, date(2024, 3, 19));
}

#[test]
fn labels_and_headers_split_on_white_space_runs() {
    let row = vec![event_cell("10:00&nbsp;-11:00<br>A")];
    let page = Page {
        title: Some("t".to_string()),
        weeks: vec![
            week("KW\t1", "Mo  01.01.", vec![row.clone()]),
            week("KW   1", "\tMo\t08.01. ", vec![row]),
        ],
    };
    let cal = parse_page(&page, 2024).unwrap();
    assert_eq!(cal.events[0].date, date(2024, 1, 1));
    assert_eq!(cal.events[1].date, date(2025, 1, 8));
}

#[test]
fn title_is_decoded_and_trimmed() {
    let cal = parse_calendar("<html><head><title> R&amp;D &lt;x&gt; </title></head></html>", 2024).unwrap();
    assert_eq!(cal.name, "R&D <x>");
}

#[test]
fn class_attribute_first_token_decides() {
    let html = r##"<html><head><title>t</title></head><body>
<div class="calendar"><table class="week_table"><tbody>
<tr><th class="week_number">KW 12</th><td class="week_header"><nobr>Mo 18.03.</nobr></td></tr>
<tr><td class="week_block highlight"><a>10:00&nbsp;-11:00<br>A</a></td><td class="highlight week_block"><a>12:00&nbsp;-13:00<br>B</a></td></tr>
</tbody></table></div></body></html>"##;
    let cal = parse_calendar(html, 2024).unwrap();
    assert_eq!(cal.events.len(), 1);
    assert_eq!(cal.events[0].title, "A");
}
