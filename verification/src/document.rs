//! Parsing an HTML fragment and selecting elements from it.
//!
//! The fragment parser never fails: malformed markup is repaired by the
//! standard recovery rules. Matching walks the element tree in document
//! (pre-)order and yields the serialized outer HTML of every element that
//! matches at least one member of the selector group; a matched element's
//! descendants are still considered, so overlapping matches are all yielded.

use vstd::prelude::*;

use crate::selector::SelectorGroup;

verus! {

#[verifier::external_type_specification]
#[verifier::external_body]
pub struct ExHtml(scraper::Html);

/// The serialized outer HTML of each element of the document that the group
/// matches, in document order. A function of the two source strings alone:
/// fragment parsing, selector compilation, matching and serialization are
/// all deterministic.
pub uninterp spec fn selected(selectors: Seq<char>, document: Seq<char>) -> Seq<Seq<char>>;

/// What the debug formatting of a string shows: the string quoted, with
/// escape sequences for the characters that need them.
pub uninterp spec fn debug_quoted(s: Seq<char>) -> Seq<char>;

/// A parsed HTML document, together with the string it was parsed from.
///
/// The parsed tree is always the one scraper produced for the recorded
/// source string: the only constructor pairs the two.
pub struct Document {
    parsed: scraper::Html,
    source: Ghost<Seq<char>>,
}

/// Relies on scraper::Html::parse_fragment: it never fails, and repairs
/// malformed markup instead of rejecting it.
#[verifier::external_body]
fn parse_fragment_raw(fragment: &str) -> scraper::Html {
    scraper::Html::parse_fragment(fragment)
}

/// Relies on scraper's Html::select and ElementRef::html: the elements the
/// group matches, in document order, each serialized to its outer HTML.
/// Selector::parse, Html::parse_fragment, select and serialization are pure
/// functions of their inputs, and the two arguments hold the values scraper
/// produced for their recorded source strings, so the result is the one
/// function `selected` of those strings.
#[verifier::external_body]
fn select_raw(doc: &Document, group: &SelectorGroup) -> (r: Vec<String>)
    ensures
        r@.map_values(|s: String| s@) == selected(group.source(), doc.source()),
{
    doc.parsed.select(&group.compiled).map(|e| e.html()).collect()
}

/// Relies on the Debug formatting of str: the string quoted and escaped,
/// a pure function of its characters.
#[verifier::external_body]
fn debug_format(s: &str) -> (r: String)
    ensures
        r@ == debug_quoted(s@),
{
    format!("{:?}", s)
}

impl Document {
    /// The string this document was parsed from.
    pub closed spec fn source(&self) -> Seq<char> {
        self.source@
    }

    /// Parses an HTML fragment. Never fails: malformed markup is repaired.
    pub fn parse_fragment(fragment: &str) -> (d: Document)
        ensures
            d.source() == fragment@,
    {
        Document { parsed: parse_fragment_raw(fragment), source: Ghost(fragment@) }
    }

    /// The serialized outer HTML of every element the group matches, in
    /// document order, overlapping matches included.
    pub fn select(&self, group: &SelectorGroup) -> (r: Vec<String>)
        ensures
            r@.map_values(|s: String| s@) == selected(group.source(), self.source()),
    {
        select_raw(self, group)
    }
}

/// Quotes each matched fragment for output, one line per match, in order.
pub fn render_matches(matches: &Vec<String>) -> (r: Vec<String>)
    ensures
        r@.len() == matches@.len(),
        forall|i: int| 0 <= i < r@.len() ==> r@[i]@ == debug_quoted(matches@[i]@),
{
    let mut r: Vec<String> = Vec::new();
    let mut i: usize = 0;
    while i < matches.len()
        invariant
            i <= matches@.len(),
            r@.len() == i,
            forall|j: int| 0 <= j < i ==> r@[j]@ == debug_quoted(matches@[j]@),
        decreases matches@.len() - i,
    {
        r.push(debug_format(matches[i].as_str()));
        i = i + 1;
    }
    r
}

/// Matching is idempotent: the same selector-group and document strings
/// always select the same sequence of fragments, so re-running the matcher
/// on the same compiled group and document yields an identical sequence.
pub proof fn lemma_select_idempotent(
    first: Seq<Seq<char>>,
    second: Seq<Seq<char>>,
    selectors: Seq<char>,
    document: Seq<char>,
)
    requires
        first == selected(selectors, document),
        second == selected(selectors, document),
    ensures
        first == second,
{
}

/// Selects every element the group matches and quotes each match for
/// output: the lines the tool prints, in document order.
pub fn extract(group: &SelectorGroup, document: &Document) -> (r: Vec<String>)
    ensures
        r@.len() == selected(group.source(), document.source()).len(),
        forall|i: int|
            0 <= i < r@.len() ==> r@[i]@ == debug_quoted(
                selected(group.source(), document.source())[i],
            ),
{
    let matches = document.select(group);
    let r = render_matches(&matches);
    proof {
        let sel = selected(group.source(), document.source());
        assert(matches@.map_values(|s: String| s@).len() == sel.len());
        assert forall|i: int| 0 <= i < r@.len() implies r@[i]@ == debug_quoted(sel[i]) by {
            assert(matches@[i]@ == matches@.map_values(|s: String| s@)[i]);
        }
    }
    r
}

} // verus!
