//! Working out which upstream timetable page a request asks for, and the URL
//! that fetches it.
use crate::dates::{
    epoch_day, lemma_plus_days_valid, minus_days, plus_days, sub_days, utc_date_of_timestamp, Date,
};
use crate::text::{
    decimal, decimal_text, opt_view, same_text, starts_with_text, trim_end_char,
    trim_end_char_text, trim_start_text, trim_start_text_spec,
};
use chrono::Datelike;
use vstd::prelude::*;

verus! {

/// The only upstream host that requests may reach, and the one used where a
/// request names none.
pub const DEFAULT_HOST: &'static str = "rapla.dhbw.de";

/// How far back, in days, the window starts where no cutoff date is given.
pub const DAYS_ONE_YEAR: u64 = 365;

/// How many weeks an upstream page is asked to cover.
pub const WEEKS_TWO_YEARS: u64 = 104;

/// The parts of a URI that resolving reads.
#[derive(Clone, Debug, PartialEq, Eq)]
pub struct UriParts {
    pub host: Option<String>,
    pub path: String,
    pub query: Option<String>,
    pub path_and_query: Option<String>,
}

pub struct UriPartsView {
    pub host: Option<Seq<char>>,
    pub path: Seq<char>,
    pub query: Option<Seq<char>>,
    pub path_and_query: Option<Seq<char>>,
}

impl View for UriParts {
    type V = UriPartsView;

    open spec fn view(&self) -> UriPartsView {
        UriPartsView {
            host: opt_view(self.host),
            path: self.path@,
            query: opt_view(self.query),
            path_and_query: opt_view(self.path_and_query),
        }
    }
}

/// The view of optional URI parts.
pub open spec fn parts_view(r: Option<UriParts>) -> Option<UriPartsView> {
    match r {
        Some(p) => Some(p@),
        None => None,
    }
}

/// The parts of the URI that `<http::Uri as FromStr>::from_str` reads from
/// `s`, if it reads one.
pub uninterp spec fn uri_parts_of(s: Seq<char>) -> Option<UriPartsView>;

/// The query that identifies a timetable upstream, in either of its two forms.
#[derive(Clone, Debug, PartialEq, Eq)]
pub enum RaplaBaseQuery {
    V1 { key: String, salt: String },
    V2 { user: String, file: String },
}

/// What a request resolves to: upstream host, page, identifying query and an
/// optional first day (`YYYY-MM-DD`) of the window to fetch.
#[derive(Clone, Debug, PartialEq, Eq)]
pub struct UpstreamUrlComponents {
    pub host: String,
    pub page: String,
    pub query: RaplaBaseQuery,
    pub cutoff_date: Option<String>,
}

/// The URL to fetch, and the year of the first week that it shows.
#[derive(Clone, Debug, PartialEq, Eq)]
pub struct UpstreamUrlExtension {
    pub url: String,
    pub start_year: i32,
}

pub enum QueryView {
    V1 { key: Seq<char>, salt: Seq<char> },
    V2 { user: Seq<char>, file: Seq<char> },
}

pub struct ComponentsView {
    pub host: Seq<char>,
    pub page: Seq<char>,
    pub query: QueryView,
    pub cutoff_date: Option<Seq<char>>,
}

impl View for RaplaBaseQuery {
    type V = QueryView;

    open spec fn view(&self) -> QueryView {
        match self {
            RaplaBaseQuery::V1 { key, salt } => QueryView::V1 { key: key@, salt: salt@ },
            RaplaBaseQuery::V2 { user, file } => QueryView::V2 { user: user@, file: file@ },
        }
    }
}

impl View for UpstreamUrlComponents {
    type V = ComponentsView;

    open spec fn view(&self) -> ComponentsView {
        ComponentsView {
            host: self.host@,
            page: self.page@,
            query: self.query@,
            cutoff_date: opt_view(self.cutoff_date),
        }
    }
}

/// The pairs that write an identifying query, in field order.
pub open spec fn query_pairs(q: QueryView) -> Seq<(Seq<char>, Seq<char>)> {
    match q {
        QueryView::V1 { key, salt } => seq![("key"@, key), ("salt"@, salt)],
        QueryView::V2 { user, file } => seq![("user"@, user), ("file"@, file)],
    }
}

/// `y` written in decimal, with a leading `'-'` where it is negative.
pub open spec fn signed_decimal(y: int) -> Seq<char> {
    if y < 0 {
        "-"@ + decimal((-y) as nat)
    } else {
        decimal(y as nat)
    }
}

/// Whether a cutoff date is given and reads as a date.
pub open spec fn cutoff_reads(c: ComponentsView) -> bool {
    c.cutoff_date matches Some(s) && iso_date_reading(s) is Some
}

/// The first day of the window to fetch: the cutoff date where one is given
/// and reads as a date, else `fallback`.
pub open spec fn cutoff_of(c: ComponentsView, fallback: Date) -> Date {
    match c.cutoff_date {
        Some(s) => match iso_date_reading(s) {
            Some(ymd) => Date { year: ymd.0, month: ymd.1, day: ymd.2 },
            None => fallback,
        },
        None => fallback,
    }
}

/// The upstream URL for the page of `c`, showing `WEEKS_TWO_YEARS` weeks from
/// `cutoff` on, with the encoded identifying query appended.
pub open spec fn upstream_url(c: ComponentsView, cutoff: Date, encoded: Seq<char>) -> Seq<char> {
    "https://"@ + c.host + "/rapla/"@ + c.page + "?day="@ + decimal(cutoff.day as nat) + "&month="@
        + decimal(cutoff.month as nat) + "&year="@ + signed_decimal(cutoff.year as int) + "&pages="@
        + decimal(WEEKS_TWO_YEARS as nat) + "&"@ + encoded
}

/// The URL and first year that `c` resolves to, with `fallback` as the first
/// day where `c` gives none.
pub open spec fn extension_of(c: ComponentsView, fallback: Date) -> (Seq<char>, i32) {
    (
        upstream_url(c, cutoff_of(c, fallback), form_encoding(query_pairs(c.query))),
        cutoff_of(c, fallback).year,
    )
}

/// The URL and first year of an extension.
pub open spec fn extension_view(x: UpstreamUrlExtension) -> (Seq<char>, i32) {
    (x.url@, x.start_year)
}

/// The view of each name-value pair in turn.
pub open spec fn pairs_view(v: Seq<(String, String)>) -> Seq<(Seq<char>, Seq<char>)> {
    v.map_values(|p: (String, String)| (p.0@, p.1@))
}

/// The name-value pairs that `serde_urlencoded::from_str` reads from a query
/// string, if it reads it.
pub uninterp spec fn form_pairs(q: Seq<char>) -> Option<Seq<(Seq<char>, Seq<char>)>>;

/// The query string that `serde_urlencoded::to_string` writes for a sequence
/// of name-value pairs.
pub uninterp spec fn form_encoding(pairs: Seq<(Seq<char>, Seq<char>)>) -> Seq<char>;

/// The date that `chrono::NaiveDate::parse_from_str(s, "%Y-%m-%d")` reads from
/// `s`, if it reads one.
pub uninterp spec fn iso_date_reading(s: Seq<char>) -> Option<(i32, u32, u32)>;

/// Relies on `<http::Uri as FromStr>::from_str`: the URI that `s` writes, if
/// it is one, taken apart by `Uri::host`, `Uri::path`, `Uri::query` and
/// `Uri::path_and_query`; what it gives depends on `s` alone.
#[verifier::external_body]
fn read_uri(s: &str) -> (r: Option<UriParts>)
    ensures
        parts_view(r) == uri_parts_of(s@),
{
    match s.parse::<axum::http::Uri>() {
        Ok(u) => Some(UriParts {
            host: u.host().map(String::from),
            path: u.path().to_string(),
            query: u.query().map(String::from),
            path_and_query: u.path_and_query().map(|p| p.as_str().to_string()),
        }),
        Err(_) => None,
    }
}

/// Relies on `serde_urlencoded::from_str` into a sequence of string pairs:
/// what it reads depends on `q` alone.
#[verifier::external_body]
fn read_form(q: &str) -> (r: Option<Vec<(String, String)>>)
    ensures
        (match r {
            Some(v) => form_pairs(q@) == Some(pairs_view(v@)),
            None => form_pairs(q@) is None,
        }),
{
    serde_urlencoded::from_str::<Vec<(String, String)>>(q).ok()
}

/// Relies on `serde_urlencoded::to_string` on a sequence of string pairs:
/// it always writes them, and what it writes depends on the pairs alone.
#[verifier::external_body]
fn write_form(pairs: &Vec<(String, String)>) -> (r: Option<String>)
    ensures
        r is Some,
        r matches Some(s) ==> s@ == form_encoding(pairs_view(pairs@)),
{
    serde_urlencoded::to_string(pairs).ok()
}

/// Relies on `chrono::NaiveDate::parse_from_str` with the format `"%Y-%m-%d"`:
/// what it reads depends on `s` alone, and is a date.
#[verifier::external_body]
fn read_iso_date(s: &str) -> (r: Option<Date>)
    ensures
        r == (match iso_date_reading(s@) {
            Some(ymd) => Some(Date { year: ymd.0, month: ymd.1, day: ymd.2 }),
            None => None,
        }),
        r matches Some(d) ==> d.wf(),
{
    match chrono::NaiveDate::parse_from_str(s, "%Y-%m-%d") {
        Ok(d) => Some(Date { year: d.year(), month: d.month(), day: d.day() }),
        Err(_) => None,
    }
}

#[verifier::external_type_specification]
#[verifier::external_body]
pub struct ExSystemTime(std::time::SystemTime);

/// Relies on `std::time::SystemTime::now`: the system clock's reading.
#[verifier::external_body]
fn system_now() -> std::time::SystemTime {
    std::time::SystemTime::now()
}

/// Relies on `std::time::SystemTime::duration_since` from the Unix epoch: the
/// whole seconds since the start of 1970, or nothing where `t` is earlier.
#[verifier::external_body]
fn seconds_since_epoch(t: std::time::SystemTime) -> Option<u64> {
    match t.duration_since(std::time::UNIX_EPOCH) {
        Ok(d) => Some(d.as_secs()),
        Err(_) => None,
    }
}

/// The UTC date that `secs` seconds after the start of 1970 fall on.
pub open spec fn date_of_seconds(secs: nat) -> Date {
    Date::of(plus_days(epoch_day(), secs / 86400))
}

/// Today's date in UTC, or nothing where the clock reads before 1970 or beyond
/// chrono's last year.
fn today() -> (r: Option<Date>)
    ensures
        r matches Some(d) ==> exists|secs: nat| d == date_of_seconds(secs),
        r matches Some(d) ==> d.wf(),
{
    let secs = match seconds_since_epoch(system_now()) {
        Some(s) => s,
        None => {
            return None;
        },
    };
    if secs > i64::MAX as u64 {
        return None;
    }
    let r = utc_date_of_timestamp(secs as i64);
    proof {
        if r is Some {
            lemma_plus_days_valid(epoch_day(), (secs / 86400) as nat);
            assert(r->0 == date_of_seconds(secs as nat));
        }
    }
    r
}

/// The value of the first pair named `name`.
pub open spec fn lookup(pairs: Seq<(Seq<char>, Seq<char>)>, name: Seq<char>) -> Option<Seq<char>>
    decreases pairs.len(),
{
    if pairs.len() == 0 {
        None
    } else if pairs[0].0 == name {
        Some(pairs[0].1)
    } else {
        lookup(pairs.drop_first(), name)
    }
}

/// How many pairs are named `name`.
pub open spec fn occurrences(pairs: Seq<(Seq<char>, Seq<char>)>, name: Seq<char>) -> nat
    decreases pairs.len(),
{
    if pairs.len() == 0 {
        0
    } else {
        occurrences(pairs.drop_first(), name) + if pairs[0].0 == name {
            1nat
        } else {
            0nat
        }
    }
}

/// The identifying query that the pairs give: `key` and `salt` where each is
/// given exactly once, else `user` and `file` where each is.
pub open spec fn base_query(pairs: Seq<(Seq<char>, Seq<char>)>) -> Option<QueryView> {
    if occurrences(pairs, "key"@) == 1 && occurrences(pairs, "salt"@) == 1 {
        Some(QueryView::V1 { key: lookup(pairs, "key"@)->0, salt: lookup(pairs, "salt"@)->0 })
    } else if occurrences(pairs, "user"@) == 1 && occurrences(pairs, "file"@) == 1 {
        Some(QueryView::V2 { user: lookup(pairs, "user"@)->0, file: lookup(pairs, "file"@)->0 })
    } else {
        None
    }
}

/// The page that a path under `/rapla/` names: the rest of the path, without
/// trailing slashes.
pub open spec fn page_of_path(path: Seq<char>) -> Option<Seq<char>> {
    if "/rapla/"@.is_prefix_of(path) {
        Some(trim_end_char(trim_start_text_spec(path, "/rapla/"@), '/'))
    } else {
        None
    }
}

/// What a request's host, path and query pairs resolve to: the host must be
/// the allowed one (the default where none is given), the pairs must identify
/// a timetable, `page` and `cutoff_date` may be given at most once, and the
/// page is the `page` pair or else taken from the path.
pub open spec fn components_of(
    host: Option<Seq<char>>,
    path: Seq<char>,
    pairs: Option<Seq<(Seq<char>, Seq<char>)>>,
) -> Option<ComponentsView> {
    let h = match host {
        Some(x) => x,
        None => DEFAULT_HOST@,
    };
    if h != DEFAULT_HOST@ {
        None
    } else {
        match pairs {
            None => None,
            Some(ps) => if occurrences(ps, "page"@) > 1 || occurrences(ps, "cutoff_date"@) > 1 {
                None
            } else {
                match base_query(ps) {
                    None => None,
                    Some(q) => {
                        let page = match lookup(ps, "page"@) {
                            Some(p) => Some(p),
                            None => page_of_path(path),
                        };
                        match page {
                            None => None,
                            Some(p) => Some(
                                ComponentsView {
                                    host: h,
                                    page: p,
                                    query: q,
                                    cutoff_date: lookup(ps, "cutoff_date"@),
                                },
                            ),
                        }
                    },
                }
            },
        }
    }
}

/// What a URI that names the upstream page directly resolves to.
pub open spec fn simple_components(u: UriPartsView) -> Option<ComponentsView> {
    components_of(
        u.host,
        u.path,
        match u.query {
            Some(q) => form_pairs(q),
            None => None,
        },
    )
}

/// What a request URI resolves to: the URI written in its path and query,
/// where there is one and it resolves, else the request URI itself.
pub open spec fn request_components(u: UriPartsView) -> Option<ComponentsView> {
    let inner = match u.path_and_query {
        Some(p) => uri_parts_of(trim_start_text_spec(p, "/"@)),
        None => None,
    };
    match inner {
        Some(i) => match simple_components(i) {
            Some(c) => Some(c),
            None => simple_components(u),
        },
        None => simple_components(u),
    }
}

/// The components with the page `ical` read as `calendar`.
pub open spec fn normalized(c: ComponentsView) -> ComponentsView {
    ComponentsView {
        page: if c.page == "ical"@ {
            "calendar"@
        } else {
            c.page
        },
        ..c
    }
}

/// The view of optional components.
pub open spec fn components_view(r: Option<UpstreamUrlComponents>) -> Option<ComponentsView> {
    match r {
        Some(c) => Some(c@),
        None => None,
    }
}

proof fn lemma_occurring_is_found(pairs: Seq<(Seq<char>, Seq<char>)>, name: Seq<char>)
    requires
        occurrences(pairs, name) > 0,
    ensures
        lookup(pairs, name) is Some,
    decreases pairs.len(),
{
    if pairs[0].0 != name {
        lemma_occurring_is_found(pairs.drop_first(), name);
    }
}

fn count_pairs(pairs: &Vec<(String, String)>, name: &str) -> (r: usize)
    ensures
        r == occurrences(pairs_view(pairs@), name@),
{
    let mut i: usize = 0;
    let mut count: usize = 0;
    assert(pairs_view(pairs@).skip(0) =~= pairs_view(pairs@));
    while i < pairs.len()
        invariant
            i <= pairs@.len(),
            count <= i,
            occurrences(pairs_view(pairs@), name@) == count + occurrences(
                pairs_view(pairs@).skip(i as int),
                name@,
            ),
        decreases pairs@.len() - i,
    {
        let ghost rest = pairs_view(pairs@).skip(i as int);
        assert(rest[0] == (pairs@[i as int].0@, pairs@[i as int].1@));
        assert(rest.drop_first() =~= pairs_view(pairs@).skip(i + 1));
        if same_text(pairs[i].0.as_str(), name) {
            count = count + 1;
        }
        i = i + 1;
    }
    assert(pairs_view(pairs@).skip(i as int) =~= Seq::empty());
    count
}

/// The value of the pair named `name`, where exactly one pair is.
fn single_pair(pairs: &Vec<(String, String)>, name: &str) -> (r: Option<String>)
    ensures
        r is Some <==> occurrences(pairs_view(pairs@), name@) == 1,
        r matches Some(v) ==> Some(v@) == lookup(pairs_view(pairs@), name@),
{
    if count_pairs(pairs, name) == 1 {
        proof {
            lemma_occurring_is_found(pairs_view(pairs@), name@);
        }
        lookup_pair(pairs, name)
    } else {
        None
    }
}

fn lookup_pair(pairs: &Vec<(String, String)>, name: &str) -> (r: Option<String>)
    ensures
        opt_view(r) == lookup(pairs_view(pairs@), name@),
{
    let mut i: usize = 0;
    assert(pairs_view(pairs@).skip(0) =~= pairs_view(pairs@));
    while i < pairs.len()
        invariant
            i <= pairs@.len(),
            lookup(pairs_view(pairs@), name@) == lookup(pairs_view(pairs@).skip(i as int), name@),
        decreases pairs@.len() - i,
    {
        let ghost rest = pairs_view(pairs@).skip(i as int);
        assert(rest[0] == (pairs@[i as int].0@, pairs@[i as int].1@));
        if same_text(pairs[i].0.as_str(), name) {
            return Some(pairs[i].1.clone());
        }
        assert(rest.drop_first() =~= pairs_view(pairs@).skip(i + 1));
        i = i + 1;
    }
    None
}

impl UpstreamUrlComponents {
    /// Resolves a request's host, path and decoded query pairs.
    pub fn from_parts(host: Option<&str>, path: &str, pairs: Option<Vec<(String, String)>>) -> (r:
        Option<Self>)
        ensures
            components_view(r) == components_of(
                match host {
                    Some(h) => Some(h@),
                    None => None,
                },
                path@,
                match pairs {
                    Some(ps) => Some(pairs_view(ps@)),
                    None => None,
                },
            ),
    {
        let h = match host {
            Some(x) => x,
            None => DEFAULT_HOST,
        };
        if !same_text(h, DEFAULT_HOST) {
            return None;
        }
        let ps = match pairs {
            None => {
                return None;
            },
            Some(ps) => ps,
        };
        if count_pairs(&ps, "page") > 1 || count_pairs(&ps, "cutoff_date") > 1 {
            return None;
        }
        let query = match (single_pair(&ps, "key"), single_pair(&ps, "salt")) {
            (Some(key), Some(salt)) => RaplaBaseQuery::V1 { key, salt },
            _ => match (single_pair(&ps, "user"), single_pair(&ps, "file")) {
                (Some(user), Some(file)) => RaplaBaseQuery::V2 { user, file },
                _ => {
                    return None;
                },
            },
        };
        let page = match lookup_pair(&ps, "page") {
            Some(p) => p,
            None => {
                if !starts_with_text(path, "/rapla/") {
                    return None;
                }
                let rest = trim_start_text(path, "/rapla/");
                trim_end_char_text(rest.as_str(), '/')
            },
        };
        Some(
            UpstreamUrlComponents {
                host: String::from_str(h),
                page,
                query,
                cutoff_date: lookup_pair(&ps, "cutoff_date"),
            },
        )
    }

    /// Resolves a URI that names the upstream page directly: its host, path
    /// and decoded query pairs.
    pub fn from_simple_uri(uri: &UriParts) -> (r: Option<Self>)
        ensures
            components_view(r) == simple_components(uri@),
    {
        let pairs = match &uri.query {
            Some(q) => read_form(q.as_str()),
            None => None,
        };
        match &uri.host {
            Some(h) => UpstreamUrlComponents::from_parts(Some(h.as_str()), uri.path.as_str(), pairs),
            None => UpstreamUrlComponents::from_parts(None, uri.path.as_str(), pairs),
        }
    }

    /// Resolves a request URI: first its path and query, without leading
    /// slashes, read as a URI of its own (a proxied upstream URL); where that
    /// resolves to nothing, the request URI itself.
    pub fn from_request_uri(uri: &UriParts) -> (r: Option<Self>)
        ensures
            components_view(r) == request_components(uri@),
    {
        let inner = match &uri.path_and_query {
            Some(p) => read_uri(trim_start_text(p.as_str(), "/").as_str()),
            None => None,
        };
        let found = match &inner {
            Some(u) => UpstreamUrlComponents::from_simple_uri(u),
            None => None,
        };
        match found {
            Some(c) => Some(c),
            None => UpstreamUrlComponents::from_simple_uri(uri),
        }
    }
}

impl UriParts {
    /// The parts of the URI that `s` writes, if it is one.
    pub fn parse(s: &str) -> (r: Option<UriParts>)
        ensures
            parts_view(r) == uri_parts_of(s@),
    {
        read_uri(s)
    }
}

fn signed_decimal_text(y: i32) -> (r: String)
    ensures
        r@ == signed_decimal(y as int),
{
    if y < 0 {
        let mut r = String::from_str("-");
        let magnitude: u64 = (-(y as i64)) as u64;
        r.append(decimal_text(magnitude).as_str());
        r
    } else {
        decimal_text(y as u64)
    }
}

impl UpstreamUrlComponents {
    /// The components with the page `ical`, which clients ask for, replaced by
    /// `calendar`, the upstream page that serves the same timetable.
    pub fn normalize_page(self) -> (r: Self)
        ensures
            r@.page == (if self@.page == "ical"@ {
                "calendar"@
            } else {
                self@.page
            }),
            r@.host == self@.host,
            r@.query == self@.query,
            r@.cutoff_date == self@.cutoff_date,
    {
        let mut c = self;
        if same_text(c.page.as_str(), "ical") {
            c.page = String::from_str("calendar");
        }
        c
    }

    /// The upstream URL and first year, with `fallback` as the first day of
    /// the window where no cutoff date is given or it does not read as a date.
    pub fn generate_url_from(self, fallback: Date) -> (r: UpstreamUrlExtension)
        ensures
            extension_view(r) == extension_of(self@, fallback),
    {
        let cutoff = match self.read_cutoff() {
            Some(d) => d,
            None => fallback,
        };
        self.url_at(cutoff)
    }

    /// The cutoff date, where one is given and reads as a date.
    fn read_cutoff(&self) -> (r: Option<Date>)
        ensures
            cutoff_reads(self@) <==> r is Some,
            r matches Some(d) ==> d == cutoff_of(self@, d),
    {
        match &self.cutoff_date {
            Some(s) => read_iso_date(s.as_str()),
            None => None,
        }
    }

    /// The upstream URL for a window that starts on `cutoff`.
    fn url_at(self, cutoff: Date) -> (r: UpstreamUrlExtension)
        ensures
            extension_view(r) == (
                upstream_url(self@, cutoff, form_encoding(query_pairs(self@.query))),
                cutoff.year,
            ),
    {
        let mut pairs: Vec<(String, String)> = Vec::new();
        match &self.query {
            RaplaBaseQuery::V1 { key, salt } => {
                pairs.push((String::from_str("key"), key.clone()));
                pairs.push((String::from_str("salt"), salt.clone()));
            },
            RaplaBaseQuery::V2 { user, file } => {
                pairs.push((String::from_str("user"), user.clone()));
                pairs.push((String::from_str("file"), file.clone()));
            },
        }
        assert(pairs_view(pairs@) =~= query_pairs(self@.query));
        let encoded = match write_form(&pairs) {
            Some(e) => e,
            None => String::new(),
        };
        let mut url = String::from_str("https://");
        url.append(self.host.as_str());
        url.append("/rapla/");
        url.append(self.page.as_str());
        url.append("?day=");
        url.append(decimal_text(cutoff.day as u64).as_str());
        url.append("&month=");
        url.append(decimal_text(cutoff.month as u64).as_str());
        url.append("&year=");
        url.append(signed_decimal_text(cutoff.year).as_str());
        url.append("&pages=");
        url.append(decimal_text(WEEKS_TWO_YEARS).as_str());
        url.append("&");
        url.append(encoded.as_str());
        UpstreamUrlExtension { url, start_year: cutoff.year }
    }

    /// The upstream URL and first year. Where no cutoff date is given, or it
    /// does not read as a date, the window starts `DAYS_ONE_YEAR` days before
    /// today (UTC); nothing where the clock cannot be read as a date.
    pub fn generate_url(self) -> (r: Option<UpstreamUrlExtension>)
        ensures
            cutoff_reads(self@) ==> (r matches Some(x) && forall|fallback: Date|
                extension_view(x) == extension_of(self@, fallback)),
            !cutoff_reads(self@) ==> (r matches Some(x) ==> exists|secs: nat|
                extension_view(x) == extension_of(
                    self@,
                    Date::of(minus_days(date_of_seconds(secs)@, DAYS_ONE_YEAR as nat)),
                )),
    {
        match self.read_cutoff() {
            Some(d) => Some(self.generate_url_from(d)),
            None => {
                let now = match today() {
                    Some(d) => d,
                    None => {
                        return None;
                    },
                };
                match sub_days(now, DAYS_ONE_YEAR) {
                    Some(fallback) => Some(self.generate_url_from(fallback)),
                    None => None,
                }
            },
        }
    }
}

/// What a request URI resolves to: its upstream components, with the `ical`
/// page read as `calendar`.
pub fn resolve_components(uri: &UriParts) -> (r: Option<UpstreamUrlComponents>)
    ensures
        components_view(r) == (match request_components(uri@) {
            Some(c) => Some(normalized(c)),
            None => None,
        }),
{
    match UpstreamUrlComponents::from_request_uri(uri) {
        Some(c) => Some(c.normalize_page()),
        None => None,
    }
}

} // verus!
