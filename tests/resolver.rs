use chrono::Datelike;
use rapla_proxy::dates::Date;
use rapla_proxy::resolver::{
    resolve_components, RaplaBaseQuery, UpstreamUrlComponents, UpstreamUrlExtension, UriParts,
};

fn uri(s: &str) -> UriParts {
    UriParts::parse(s).unwrap()
}

fn components(page: &str, cutoff: Option<&str>) -> UpstreamUrlComponents {
    UpstreamUrlComponents {
        host: "rapla.dhbw.de".to_string(),
        page: page.to_string(),
        query: RaplaBaseQuery::V1 { key: "k1".to_string(), salt: "s 2".to_string() },
        cutoff_date: cutoff.map(|c| c.to_string()),
    }
}

#[test]
fn simple_uri_with_key_and_salt() {
    let c = UpstreamUrlComponents::from_simple_uri(&uri(
        "https://rapla.dhbw.de/rapla/calendar?key=abc&salt=def",
    ))
    .unwrap();
    assert_eq!(c.host, "rapla.dhbw.de");
    assert_eq!(c.page, "calendar");
    assert_eq!(c.query, RaplaBaseQuery::V1 { key: "abc".to_string(), salt: "def".to_string() });
    assert_eq!(c.cutoff_date, None);
}

#[test]
fn simple_uri_page_parameter_wins() {
    let c = UpstreamUrlComponents::from_simple_uri(&uri(
        "/rapla/other?page=ical&user=u1&file=f1&cutoff_date=2024-01-02",
    ))
    .unwrap();
    assert_eq!(c.host, "rapla.dhbw.de");
    assert_eq!(c.page, "ical");
    assert_eq!(c.query, RaplaBaseQuery::V2 { user: "u1".to_string(), file: "f1".to_string() });
    assert_eq!(c.cutoff_date.as_deref(), Some("2024-01-02"));
}

#[test]
fn simple_uri_trailing_slash_dropped() {
    let c = UpstreamUrlComponents::from_simple_uri(&uri("/rapla/calendar/?key=a&salt=b")).unwrap();
    assert_eq!(c.page, "calendar");
}

#[test]
fn simple_uri_other_host_refused() {
    assert!(UpstreamUrlComponents::from_simple_uri(&uri("https://example.com/rapla/calendar?key=a&salt=b")).is_none());
}

#[test]
fn simple_uri_needs_identifying_query() {
    assert!(UpstreamUrlComponents::from_simple_uri(&uri("/rapla/calendar")).is_none());
    assert!(UpstreamUrlComponents::from_simple_uri(&uri("/rapla/calendar?key=a")).is_none());
    assert!(UpstreamUrlComponents::from_simple_uri(&uri("/rapla/calendar?user=a")).is_none());
}

#[test]
fn simple_uri_needs_page() {
    assert!(UpstreamUrlComponents::from_simple_uri(&uri("/calendar?key=a&salt=b")).is_none());
}

#[test]
fn request_uri_with_upstream_in_path() {
    let c = UpstreamUrlComponents::from_request_uri(&uri(
        "/https://rapla.dhbw.de/rapla/calendar?key=abc&salt=def",
    ))
    .unwrap();
    assert_eq!(c.page, "calendar");
    assert_eq!(c.query, RaplaBaseQuery::V1 { key: "abc".to_string(), salt: "def".to_string() });
}

#[test]
fn request_uri_itself() {
    let c = UpstreamUrlComponents::from_request_uri(&uri("/rapla/calendar?user=u&file=f")).unwrap();
    assert_eq!(c.page, "calendar");
    assert_eq!(c.query, RaplaBaseQuery::V2 { user: "u".to_string(), file: "f".to_string() });
}

#[test]
fn request_uri_unresolvable() {
    assert!(UpstreamUrlComponents::from_request_uri(&uri("/favicon.ico")).is_none());
}

#[test]
fn resolve_maps_ical_to_calendar() {
    let c = resolve_components(&uri("/rapla/ical?key=a&salt=b")).unwrap();
    assert_eq!(c.page, "calendar");
    let c = resolve_components(&uri("/rapla/week?key=a&salt=b")).unwrap();
    assert_eq!(c.page, "week");
}

#[test]
fn url_from_cutoff_date() {
    let fallback = Date { year: 2020, month: 5, day: 6 };
    let ext = components("calendar", Some("2024-09-01")).generate_url_from(fallback);
    assert_eq!(
        ext,
        UpstreamUrlExtension {
            url: "https://rapla.dhbw.de/rapla/calendar?day=1&month=9&year=2024&pages=104&key=k1&salt=s+2"
                .to_string(),
            start_year: 2024,
        }
    );
}

#[test]
fn url_from_fallback() {
    let fallback = Date { year: 2023, month: 11, day: 20 };
    let ext = components("week", Some("not a date")).generate_url_from(fallback);
    assert_eq!(ext.url, "https://rapla.dhbw.de/rapla/week?day=20&month=11&year=2023&pages=104&key=k1&salt=s+2");
    assert_eq!(ext.start_year, 2023);
    let ext = components("week", None).generate_url_from(fallback);
    assert_eq!(ext.start_year, 2023);
}

#[test]
fn url_for_user_and_file() {
    let mut c = components("calendar", Some("2025-01-31"));
    c.query = RaplaBaseQuery::V2 { user: "doe".to_string(), file: "tinf&23".to_string() };
    let ext = c.generate_url_from(Date { year: 2000, month: 1, day: 1 });
    assert_eq!(ext.url, "https://rapla.dhbw.de/rapla/calendar?day=31&month=1&year=2025&pages=104&user=doe&file=tinf%2623");
}

#[test]
fn url_now() {
    let ext = components("calendar", None).generate_url().unwrap();
    assert!(ext.url.starts_with("https://rapla.dhbw.de/rapla/calendar?day="));
    assert!(ext.url.ends_with("&pages=104&key=k1&salt=s+2"));
    assert!(ext.start_year >= 2024);
}

#[test]
fn request_uri_embedded_week_page() {
    let c = UpstreamUrlComponents::from_request_uri(&uri("/https://rapla.dhbw.de/rapla/week?user=u&file=f")).unwrap();
    assert_eq!(
        c,
        UpstreamUrlComponents {
            host: "rapla.dhbw.de".to_string(),
            page: "week".to_string(),
            query: RaplaBaseQuery::V2 { user: "u".to_string(), file: "f".to_string() },
            cutoff_date: None,
        }
    );
}

#[test]
fn request_uri_embedded_url_takes_precedence() {
    // The embedded URL names the page "week"; the request path alone would not resolve.
    let c = UpstreamUrlComponents::from_request_uri(&uri("/https://rapla.dhbw.de/rapla/week?key=a&salt=b")).unwrap();
    assert_eq!(c.page, "week");
}

#[test]
fn uri_parts_are_read() {
    let p = UriParts::parse("https://rapla.dhbw.de/rapla/calendar?key=a").unwrap();
    assert_eq!(p.host.as_deref(), Some("rapla.dhbw.de"));
    assert_eq!(p.path, "/rapla/calendar");
    assert_eq!(p.query.as_deref(), Some("key=a"));
    assert_eq!(p.path_and_query.as_deref(), Some("/rapla/calendar?key=a"));
    assert!(UriParts::parse("http://[bad").is_none());
}

#[test]
fn url_with_cutoff_needs_no_clock() {
    let ext = components("calendar", Some("2024-09-01")).generate_url().unwrap();
    assert_eq!(ext.start_year, 2024);
    assert!(ext.url.contains("?day=1&month=9&year=2024&"));
}

#[test]
fn repeated_identifying_field_is_refused() {
    assert!(UpstreamUrlComponents::from_simple_uri(&uri("/rapla/calendar?user=u&user=v&file=f")).is_none());
    assert!(UpstreamUrlComponents::from_simple_uri(&uri("/rapla/calendar?key=a&salt=s&salt=t")).is_none());
}

#[test]
fn repeated_key_falls_back_to_user_and_file() {
    let c = UpstreamUrlComponents::from_simple_uri(&uri("/rapla/calendar?key=a&key=b&salt=s&user=u&file=f")).unwrap();
    assert_eq!(c.query, RaplaBaseQuery::V2 { user: "u".to_string(), file: "f".to_string() });
}

#[test]
fn repeated_page_or_cutoff_is_refused() {
    assert!(UpstreamUrlComponents::from_simple_uri(&uri("/rapla/calendar?key=a&salt=s&page=x&page=y")).is_none());
    assert!(UpstreamUrlComponents::from_simple_uri(&uri(
        "/rapla/calendar?key=a&salt=s&cutoff_date=2024-01-01&cutoff_date=2024-02-01"
    ))
    .is_none());
}

#[test]
fn url_without_cutoff_starts_a_year_ago() {
    let expected = chrono::Utc::now().date_naive() - chrono::Days::new(365);
    let ext = components("calendar", Some("bad")).generate_url().unwrap();
    assert_eq!(ext.start_year, expected.year());
    let part = format!("?day={}&month={}&year={}&", expected.day(), expected.month(), expected.year());
    assert!(ext.url.contains(&part), "{}", ext.url);
}
