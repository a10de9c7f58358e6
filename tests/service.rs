use rapla_proxy::cache::{capacity_bytes, entry_weight};
use rapla_proxy::calendar::{Event, ParseError};
use rapla_proxy::dates::{Date, Time};
use rapla_proxy::proxy::{check_status, ProxyFailure};

fn event(title: &str) -> Event {
    Event {
        date: Date { year: 2024, month: 3, day: 8 },
        start: Time { hour: 9, minute: 5 },
        end: Time { hour: 17, minute: 45 },
        title: title.to_string(),
        location: None,
        organizer: None,
        description: None,
    }
}

#[test]
fn event_stamps() {
    let e = event("Math & Logic");
    assert_eq!(e.start_stamp().as_deref(), Some("20240308T090500"));
    assert_eq!(e.end_stamp().as_deref(), Some("20240308T174500"));
    assert_eq!(e.uid().as_deref(), Some("20240308T090500_Math-&-Logic"));
}

#[test]
fn event_stamps_need_valid_values() {
    let mut e = event("x");
    e.end = Time { hour: 24, minute: 0 };
    assert_eq!(e.end_stamp(), None);
    assert!(e.start_stamp().is_some());
    e.date = Date { year: 2023, month: 2, day: 29 };
    assert_eq!(e.uid(), None);
}

#[test]
fn failure_status_codes() {
    assert_eq!(ProxyFailure::Upstream.status_code(), 502);
    assert_eq!(ProxyFailure::Status(404).status_code(), 404);
    let parse = ParseError::Generic { message: "m".to_string() };
    assert_eq!(ProxyFailure::Parse(parse).status_code(), 500);
}

#[test]
fn status_check() {
    assert_eq!(check_status(200), Ok(()));
    assert_eq!(check_status(299), Ok(()));
    assert_eq!(check_status(199), Err(ProxyFailure::Status(199)));
    assert_eq!(check_status(300), Err(ProxyFailure::Status(300)));
    assert_eq!(check_status(503), Err(ProxyFailure::Status(503)));
}

#[test]
fn describe_each_failure() {
    let s = ParseError::Selection { query: "title".to_string(), rule: "calendar title".to_string() };
    assert_eq!(s.describe(), "nothing matches title (calendar title)");
    let g = ParseError::Generic { message: "bad date".to_string() };
    assert_eq!(g.describe(), "parse failure: bad date");
    let c = ParseError::Content { message: "malformed".to_string(), html: "<td>".to_string() };
    assert_eq!(c.describe(), "malformed: <td>");
}

#[test]
fn cache_capacity_in_bytes() {
    assert_eq!(capacity_bytes(0), 0);
    assert_eq!(capacity_bytes(3), 3 * 1024 * 1024);
    assert_eq!(capacity_bytes(u64::MAX), u64::MAX);
}

#[test]
fn cache_entry_weights() {
    assert_eq!(entry_weight(0, 0, 0), 1);
    assert_eq!(entry_weight(100, 20, 3), 123);
    assert_eq!(entry_weight(100, 20, u32::MAX as usize), u32::MAX);
    assert_eq!(entry_weight(usize::MAX, usize::MAX, 1), u32::MAX);
}
