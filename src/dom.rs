//! Parsed HTML documents and the elements found in them by queries.
//!
//! An element is known by the text of its document and the path of queries
//! that found it: at each step, the query and the index of the element among
//! its matches, in the order in which the query yields them. Values of the types here are made only by
//! the functions of this module, so an element always is the one that its
//! path finds in its document.
use crate::text::opt_view;
use scraper::{ElementRef, Html, Selector};
use vstd::prelude::*;

verus! {

#[verifier::external_type_specification]
#[verifier::external_body]
pub struct ExHtml(Html);

#[verifier::external_type_specification]
#[verifier::external_body]
pub struct ExSelector(Selector);

#[verifier::external_type_specification]
#[verifier::external_body]
pub struct ExElementRef<'a>(ElementRef<'a>);

/// The steps that find an element: each a query and the index of the element
/// among that query's matches.
pub type Path = Seq<(Seq<char>, nat)>;

/// Whether `scraper::Selector::parse` accepts `q`.
pub uninterp spec fn selector_valid(q: Seq<char>) -> bool;

/// How many elements of the document that `scraper::Html::parse_document`
/// makes of `src` match `q`, as `scraper::Html::select` finds them.
pub uninterp spec fn document_matches(src: Seq<char>, q: Seq<char>) -> nat;

/// How many descendants of the element at `path` match `q`, as
/// `scraper::ElementRef::select` finds them.
pub uninterp spec fn element_matches(src: Seq<char>, path: Path, q: Seq<char>) -> nat;

/// What `scraper::ElementRef::inner_html` gives for the element at `path`.
pub uninterp spec fn inner_at(src: Seq<char>, path: Path) -> Seq<char>;

/// What `scraper::ElementRef::html` gives for the element at `path`.
pub uninterp spec fn outer_at(src: Seq<char>, path: Path) -> Seq<char>;

/// The value of the `class` attribute that `scraper::node::Element::attr`
/// gives for the element at `path`, if it has one.
pub uninterp spec fn class_attr_at(src: Seq<char>, path: Path) -> Option<Seq<char>>;

/// A parsed HTML document with the text it was parsed from.
pub struct Document {
    html: Html,
    src: String,
}

/// A compiled query with its text.
pub struct Query {
    selector: Selector,
    text: &'static str,
}

/// An element of a document, with the path that found it.
pub struct Element<'a> {
    node: ElementRef<'a>,
    src: &'a str,
    path: Vec<(&'static str, usize)>,
}

impl Document {
    pub closed spec fn source(&self) -> Seq<char> {
        self.src@
    }
}

impl Query {
    pub closed spec fn text(&self) -> Seq<char> {
        self.text@
    }
}

impl<'a> Element<'a> {
    pub closed spec fn source(&self) -> Seq<char> {
        self.src@
    }

    pub closed spec fn path(&self) -> Path {
        self.path@.map_values(|s: (&'static str, usize)| (s.0@, s.1 as nat))
    }
}

/// Relies on `scraper::Html::parse_document`, which reads any text as a
/// document.
#[verifier::external_body]
pub(crate) fn parse_document(s: &str) -> (r: Document)
    ensures
        r.source() == s@,
{
    Document { html: Html::parse_document(s), src: s.to_string() }
}

/// Relies on `scraper::Selector::parse`: the compiled query, or nothing where
/// `q` is no valid selector.
#[verifier::external_body]
pub(crate) fn compile_query(q: &'static str) -> (r: Option<Query>)
    ensures
        r is Some <==> selector_valid(q@),
        r matches Some(c) ==> c.text() == q@,
{
    match Selector::parse(q) {
        Ok(selector) => Some(Query { selector, text: q }),
        Err(_) => None,
    }
}

/// Relies on `scraper::Html::select`: the elements of the document that match
/// `q`, in the order in which the parser created them.
#[verifier::external_body]
pub(crate) fn select_in_document<'a>(doc: &'a Document, q: &Query) -> (r: Vec<Element<'a>>)
    ensures
        r@.len() == document_matches(doc.source(), q.text()),
        forall|i: int|
            0 <= i < r@.len() ==> (#[trigger] r@[i]).source() == doc.source() && r@[i].path()
                == seq![(q.text(), i as nat)],
{
    let found = doc.html.select(&q.selector).enumerate();
    found.map(|(i, node)| Element { node, src: doc.src.as_str(), path: vec![(q.text, i)] }).collect()
}

/// Relies on `scraper::ElementRef::select`: the descendants of `e` that match
/// `q`, in document order.
#[verifier::external_body]
pub(crate) fn select_in<'a>(e: &Element<'a>, q: &Query) -> (r: Vec<Element<'a>>)
    ensures
        r@.len() == element_matches(e.source(), e.path(), q.text()),
        forall|i: int|
            0 <= i < r@.len() ==> (#[trigger] r@[i]).source() == e.source() && r@[i].path()
                == e.path().push((q.text(), i as nat)),
{
    let found = e.node.select(&q.selector).enumerate();
    found.map(|(i, node)| {
        let mut path = e.path.clone();
        path.push((q.text, i));
        Element { node, src: e.src, path }
    }).collect()
}

/// Relies on `scraper::ElementRef::inner_html`: the markup of the children.
#[verifier::external_body]
pub(crate) fn inner_markup(e: &Element) -> (r: String)
    ensures
        r@ == inner_at(e.source(), e.path()),
{
    e.node.inner_html()
}

/// Relies on `scraper::ElementRef::html`: the markup of the element itself.
#[verifier::external_body]
pub(crate) fn outer_markup(e: &Element) -> (r: String)
    ensures
        r@ == outer_at(e.source(), e.path()),
{
    e.node.html()
}

/// Relies on `scraper::node::Element::attr`: the value of the element's
/// `class` attribute as written, if it has one.
#[verifier::external_body]
pub(crate) fn class_attr(e: &Element) -> (r: Option<String>)
    ensures
        opt_view(r) == class_attr_at(e.source(), e.path()),
{
    e.node.value().attr("class").map(String::from)
}

} // verus!
