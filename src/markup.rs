//! The parts of a timetable page that the scraper reads, held as plain
//! strings, and the code that takes them out of the parsed HTML.
use crate::dom::{
    class_attr, class_attr_at, compile_query, document_matches, element_matches, inner_at,
    inner_markup, outer_at, outer_markup, parse_document, select_in, select_in_document,
    selector_valid, Element, Path, Query,
};
use crate::text::{opt_view, views, word, words_text};
use vstd::prelude::*;

verus! {

/// One table cell of a week block.
#[derive(Clone, Debug, PartialEq, Eq)]
pub struct Cell {
    /// The first token of the cell's `class` attribute.
    pub class: Option<String>,
    /// The cell's own markup.
    pub markup: String,
    /// The inner markup of the last link, or decorated link, in the cell.
    pub content: Option<String>,
    /// The inner markup of each resource tag, in document order.
    pub resources: Vec<String>,
    /// The inner markup of each person tag, in document order.
    pub persons: Vec<String>,
}

/// One week block: its labels and its rows of cells.
#[derive(Clone, Debug, PartialEq, Eq)]
pub struct Week {
    /// The inner markup of the week-number label.
    pub label: Option<String>,
    /// The inner markup of the header that gives the week's first day.
    pub header: Option<String>,
    /// Every row of the block, the header row first.
    pub rows: Vec<Vec<Cell>>,
}

/// A timetable page: its title and its week blocks, in the order in which
/// the parser created them.
#[derive(Clone, Debug, PartialEq, Eq)]
pub struct Page {
    pub title: Option<String>,
    pub weeks: Vec<Week>,
}

pub struct CellView {
    pub class: Option<Seq<char>>,
    pub markup: Seq<char>,
    pub content: Option<Seq<char>>,
    pub resources: Seq<Seq<char>>,
    pub persons: Seq<Seq<char>>,
}

pub struct WeekView {
    pub label: Option<Seq<char>>,
    pub header: Option<Seq<char>>,
    pub rows: Seq<Seq<CellView>>,
}

pub struct PageView {
    pub title: Option<Seq<char>>,
    pub weeks: Seq<WeekView>,
}

impl View for Cell {
    type V = CellView;

    open spec fn view(&self) -> CellView {
        CellView {
            class: opt_view(self.class),
            markup: self.markup@,
            content: opt_view(self.content),
            resources: views(self.resources@),
            persons: views(self.persons@),
        }
    }
}

/// The view of each cell of a row in turn.
pub open spec fn row_view(row: Vec<Cell>) -> Seq<CellView> {
    row@.map_values(|c: Cell| c@)
}

impl View for Week {
    type V = WeekView;

    open spec fn view(&self) -> WeekView {
        WeekView {
            label: opt_view(self.label),
            header: opt_view(self.header),
            rows: self.rows@.map_values(|r: Vec<Cell>| row_view(r)),
        }
    }
}

impl View for Page {
    type V = PageView;

    open spec fn view(&self) -> PageView {
        PageView { title: opt_view(self.title), weeks: self.weeks@.map_values(|w: Week| w@) }
    }
}

/// The text that `html_escape::decode_html_entities` makes of `s`.
pub uninterp spec fn entities_decoded(s: Seq<char>) -> Seq<char>;

/// Relies on `html_escape::decode_html_entities`: the decoded text depends on
/// `s` alone.
#[verifier::external_body]
pub(crate) fn decode_entities(s: &str) -> (r: String)
    ensures
        r@ == entities_decoded(s@),
{
    html_escape::decode_html_entities(s).into_owned()
}

/// The compiled form of each query that reading a page makes.
pub struct Queries {
    title: Query,
    week: Query,
    week_number: Query,
    week_header: Query,
    row: Query,
    cell: Query,
    content: Query,
    resource: Query,
    person: Query,
}

pub const TITLE_QUERY: &'static str = "title";

pub const WEEK_QUERY: &'static str = "div.calendar > table.week_table > tbody";

pub const WEEK_NUMBER_QUERY: &'static str = "th.week_number";

pub const WEEK_HEADER_QUERY: &'static str = "tr > td.week_header > nobr";

pub const ROW_QUERY: &'static str = "tr";

pub const CELL_QUERY: &'static str = "td";

pub const CONTENT_QUERY: &'static str = ":is(a, span.link)";

pub const RESOURCE_QUERY: &'static str = "span.resource";

pub const PERSON_QUERY: &'static str = "span.person";

/// Whether the parser accepts every query that reading a page makes.
pub open spec fn queries_valid() -> bool {
    &&& selector_valid(TITLE_QUERY@)
    &&& selector_valid(WEEK_QUERY@)
    &&& selector_valid(WEEK_NUMBER_QUERY@)
    &&& selector_valid(WEEK_HEADER_QUERY@)
    &&& selector_valid(ROW_QUERY@)
    &&& selector_valid(CELL_QUERY@)
    &&& selector_valid(CONTENT_QUERY@)
    &&& selector_valid(RESOURCE_QUERY@)
    &&& selector_valid(PERSON_QUERY@)
}

impl Queries {
    /// Each query holds the text it is named for.
    pub closed spec fn wf(&self) -> bool {
        &&& self.title.text() == TITLE_QUERY@
        &&& self.week.text() == WEEK_QUERY@
        &&& self.week_number.text() == WEEK_NUMBER_QUERY@
        &&& self.week_header.text() == WEEK_HEADER_QUERY@
        &&& self.row.text() == ROW_QUERY@
        &&& self.cell.text() == CELL_QUERY@
        &&& self.content.text() == CONTENT_QUERY@
        &&& self.resource.text() == RESOURCE_QUERY@
        &&& self.person.text() == PERSON_QUERY@
    }

    /// Compiles every query; nothing exactly where one of them does not
    /// compile.
    pub fn compile() -> (r: Option<Queries>)
        ensures
            r is Some <==> queries_valid(),
            r matches Some(q) ==> q.wf(),
    {
        let title = compile_query(TITLE_QUERY);
        let week = compile_query(WEEK_QUERY);
        let week_number = compile_query(WEEK_NUMBER_QUERY);
        let week_header = compile_query(WEEK_HEADER_QUERY);
        let row = compile_query(ROW_QUERY);
        let cell = compile_query(CELL_QUERY);
        let content = compile_query(CONTENT_QUERY);
        let resource = compile_query(RESOURCE_QUERY);
        let person = compile_query(PERSON_QUERY);
        match (title, week, week_number, week_header, row, cell, content, resource, person) {
            (
                Some(title),
                Some(week),
                Some(week_number),
                Some(week_header),
                Some(row),
                Some(cell),
                Some(content),
                Some(resource),
                Some(person),
            ) => Some(
                Queries {
                    title,
                    week,
                    week_number,
                    week_header,
                    row,
                    cell,
                    content,
                    resource,
                    person,
                },
            ),
            _ => None,
        }
    }
}

/// The inner markup of every match of `q` under the element at `path`.
pub open spec fn inners_at(src: Seq<char>, path: Path, q: Seq<char>) -> Seq<Seq<char>> {
    Seq::new(element_matches(src, path, q), |i: int| inner_at(src, path.push((q, i as nat))))
}

/// The inner markup of the first match of `q` under the element at `path`.
pub open spec fn first_inner_at(src: Seq<char>, path: Path, q: Seq<char>) -> Option<Seq<char>> {
    if element_matches(src, path, q) > 0 {
        Some(inner_at(src, path.push((q, 0))))
    } else {
        None
    }
}

/// The inner markup of the last match of `q` under the element at `path`.
pub open spec fn last_inner_at(src: Seq<char>, path: Path, q: Seq<char>) -> Option<Seq<char>> {
    let n = element_matches(src, path, q);
    if n > 0 {
        Some(inner_at(src, path.push((q, (n - 1) as nat))))
    } else {
        None
    }
}

/// The cell at `path`.
pub open spec fn cell_at(src: Seq<char>, path: Path) -> CellView {
    CellView {
        class: match class_attr_at(src, path) {
            Some(a) => word(a, 0),
            None => None,
        },
        markup: outer_at(src, path),
        content: last_inner_at(src, path, CONTENT_QUERY@),
        resources: inners_at(src, path, RESOURCE_QUERY@),
        persons: inners_at(src, path, PERSON_QUERY@),
    }
}

/// The cells of the row at `path`.
pub open spec fn row_at(src: Seq<char>, path: Path) -> Seq<CellView> {
    Seq::new(
        element_matches(src, path, CELL_QUERY@),
        |i: int| cell_at(src, path.push((CELL_QUERY@, i as nat))),
    )
}

/// The week block at `path`.
pub open spec fn week_at(src: Seq<char>, path: Path) -> WeekView {
    WeekView {
        label: first_inner_at(src, path, WEEK_NUMBER_QUERY@),
        header: first_inner_at(src, path, WEEK_HEADER_QUERY@),
        rows: Seq::new(
            element_matches(src, path, ROW_QUERY@),
            |i: int| row_at(src, path.push((ROW_QUERY@, i as nat))),
        ),
    }
}

/// What the HTML document `src` holds: the inner markup of its first title,
/// and its week blocks in the order in which the parser created them.
pub open spec fn page_of(src: Seq<char>) -> PageView {
    PageView {
        title: if document_matches(src, TITLE_QUERY@) > 0 {
            Some(inner_at(src, seq![(TITLE_QUERY@, 0nat)]))
        } else {
            None
        },
        weeks: Seq::new(
            document_matches(src, WEEK_QUERY@),
            |i: int| week_at(src, seq![(WEEK_QUERY@, i as nat)]),
        ),
    }
}

/// The inner markup of each element, in order.
fn all_inner(found: &Vec<Element>) -> (r: Vec<String>)
    ensures
        views(r@) == Seq::new(found@.len(), |i: int| inner_at(found@[i].source(), found@[i].path())),
{
    let mut out: Vec<String> = Vec::new();
    let mut i: usize = 0;
    while i < found.len()
        invariant
            i <= found@.len(),
            views(out@) == Seq::new(i as nat, |k: int| inner_at(found@[k].source(), found@[k].path())),
        decreases found@.len() - i,
    {
        let ghost before = views(out@);
        let s = inner_markup(&found[i]);
        out.push(s);
        assert(views(out@) =~= before.push(s@));
        i = i + 1;
        assert(views(out@) =~= Seq::new(i as nat, |k: int| inner_at(found@[k].source(), found@[k].path())));
    }
    out
}

fn read_cell(e: &Element, q: &Queries) -> (r: Cell)
    requires
        q.wf(),
    ensures
        r@ == cell_at(e.source(), e.path()),
{
    let content = select_in(e, &q.content);
    let last = if content.len() > 0 {
        Some(inner_markup(&content[content.len() - 1]))
    } else {
        None
    };
    let resources = all_inner(&select_in(e, &q.resource));
    let persons = all_inner(&select_in(e, &q.person));
    let class = match class_attr(e) {
        Some(a) => {
            let tokens = words_text(a.as_str());
            if tokens.len() > 0 {
                Some(tokens[0].clone())
            } else {
                None
            }
        },
        None => None,
    };
    let r = Cell { class, markup: outer_markup(e), content: last, resources, persons };
    assert(r@.resources =~= cell_at(e.source(), e.path()).resources);
    assert(r@.persons =~= cell_at(e.source(), e.path()).persons);
    r
}

fn read_row(e: &Element, q: &Queries) -> (r: Vec<Cell>)
    requires
        q.wf(),
    ensures
        row_view(r) == row_at(e.source(), e.path()),
{
    let found = select_in(e, &q.cell);
    let ghost want = row_at(e.source(), e.path());
    let mut cells: Vec<Cell> = Vec::new();
    let mut i: usize = 0;
    while i < found.len()
        invariant
            q.wf(),
            i <= found@.len(),
            found@.len() == want.len(),
            want == row_at(e.source(), e.path()),
            forall|k: int|
                0 <= k < found@.len() ==> (#[trigger] found@[k]).source() == e.source()
                    && found@[k].path() == e.path().push((CELL_QUERY@, k as nat)),
            row_view(cells) == want.take(i as int),
        decreases found@.len() - i,
    {
        let c = read_cell(&found[i], q);
        let ghost before = row_view(cells);
        cells.push(c);
        assert(row_view(cells) =~= before.push(c@));
        assert(want.take(i + 1) =~= want.take(i as int).push(want[i as int]));
        i = i + 1;
        assert(row_view(cells) =~= want.take(i as int));
    }
    assert(want.take(i as int) =~= want);
    cells
}

fn read_week(e: &Element, q: &Queries) -> (r: Week)
    requires
        q.wf(),
    ensures
        r@ == week_at(e.source(), e.path()),
{
    let found = select_in(e, &q.row);
    let ghost want = week_at(e.source(), e.path()).rows;
    let mut rows: Vec<Vec<Cell>> = Vec::new();
    let mut i: usize = 0;
    while i < found.len()
        invariant
            q.wf(),
            i <= found@.len(),
            found@.len() == want.len(),
            want == week_at(e.source(), e.path()).rows,
            forall|k: int|
                0 <= k < found@.len() ==> (#[trigger] found@[k]).source() == e.source()
                    && found@[k].path() == e.path().push((ROW_QUERY@, k as nat)),
            rows@.map_values(|r: Vec<Cell>| row_view(r)) == want.take(i as int),
        decreases found@.len() - i,
    {
        let row = read_row(&found[i], q);
        let ghost before = rows@.map_values(|r: Vec<Cell>| row_view(r));
        let ghost added = row_view(row);
        rows.push(row);
        assert(rows@.map_values(|r: Vec<Cell>| row_view(r)) =~= before.push(added));
        assert(want.take(i + 1) =~= want.take(i as int).push(want[i as int]));
        i = i + 1;
        assert(rows@.map_values(|r: Vec<Cell>| row_view(r)) =~= want.take(i as int));
    }
    assert(want.take(i as int) =~= want);
    let labels = select_in(e, &q.week_number);
    let label = if labels.len() > 0 {
        Some(inner_markup(&labels[0]))
    } else {
        None
    };
    let headers = select_in(e, &q.week_header);
    let header = if headers.len() > 0 {
        Some(inner_markup(&headers[0]))
    } else {
        None
    };
    Week { label, header, rows }
}

/// The title and week blocks of the HTML document `s`, as the queries find
/// them.
pub fn read_page(s: &str, q: &Queries) -> (r: Page)
    requires
        q.wf(),
    ensures
        r@ == page_of(s@),
{
    let doc = parse_document(s);
    let found = select_in_document(&doc, &q.week);
    let ghost want = page_of(s@).weeks;
    let mut weeks: Vec<Week> = Vec::new();
    let mut i: usize = 0;
    while i < found.len()
        invariant
            q.wf(),
            doc.source() == s@,
            i <= found@.len(),
            found@.len() == want.len(),
            want == page_of(s@).weeks,
            forall|k: int|
                0 <= k < found@.len() ==> (#[trigger] found@[k]).source() == s@ && found@[k].path()
                    == seq![(WEEK_QUERY@, k as nat)],
            weeks@.map_values(|w: Week| w@) == want.take(i as int),
        decreases found@.len() - i,
    {
        let w = read_week(&found[i], q);
        let ghost before = weeks@.map_values(|w: Week| w@);
        let ghost added = w@;
        weeks.push(w);
        assert(weeks@.map_values(|w: Week| w@) =~= before.push(added));
        assert(want.take(i + 1) =~= want.take(i as int).push(want[i as int]));
        i = i + 1;
        assert(weeks@.map_values(|w: Week| w@) =~= want.take(i as int));
    }
    assert(want.take(i as int) =~= want);
    let titles = select_in_document(&doc, &q.title);
    let title = if titles.len() > 0 {
        Some(inner_markup(&titles[0]))
    } else {
        None
    };
    Page { title, weeks }
}

} // verus!
