//! The boundary to the HTML parser and the CSS selector engine.
//!
//! Parsing HTML and matching selectors is the work of the `scraper` crate.
//! Nothing here is proved about it: the two functions at the end of this
//! file hand its answers on as plain values, and the rest of the library is
//! verified against the names that stand for those answers. The parser's
//! tree does not leave this file, so each query parses its document anew.

use scraper::{Html, Selector};
use vstd::prelude::*;

verus! {

/// What the extraction rules read of one element that a selector matched.
#[derive(Clone, Debug, PartialEq, Eq)]
pub struct Element {
    /// The text of the element's first child node, if that child is a text node.
    pub first_text: Option<String>,
    /// The text of the element's last child node, if that child is a text node.
    pub last_text: Option<String>,
    /// The text nodes below the element, at any depth, in traversal order.
    pub fragments: Vec<String>,
}

/// The mathematical content of an [`Element`].
pub struct ElementView {
    pub first_text: Option<Seq<char>>,
    pub last_text: Option<Seq<char>>,
    pub fragments: Seq<Seq<char>>,
}

/// The characters of an optional string.
pub open spec fn text_view(text: Option<String>) -> Option<Seq<char>> {
    match text {
        Some(t) => Some(t@),
        None => None,
    }
}

/// The characters of each string of a sequence.
pub open spec fn texts_view(texts: Seq<String>) -> Seq<Seq<char>> {
    texts.map_values(|t: String| t@)
}

impl View for Element {
    type V = ElementView;

    open spec fn view(&self) -> ElementView {
        ElementView {
            first_text: text_view(self.first_text),
            last_text: text_view(self.last_text),
            fragments: texts_view(self.fragments@),
        }
    }
}

/// The content of each element of a sequence.
pub open spec fn elements_view(elements: Seq<Element>) -> Seq<ElementView> {
    elements.map_values(|e: Element| e@)
}

/// The content of the answer to a selector query for elements.
pub open spec fn element_matches_view(matches: Option<Vec<Element>>) -> Option<Seq<ElementView>> {
    match matches {
        Some(m) => Some(elements_view(m@)),
        None => None,
    }
}

/// The characters of each optional string of a sequence.
pub open spec fn attributes_view(values: Seq<Option<String>>) -> Seq<Option<Seq<char>>> {
    values.map_values(|a: Option<String>| text_view(a))
}

/// The content of the answer to a selector query for one attribute.
pub open spec fn attribute_matches_view(matches: Option<Vec<Option<String>>>) -> Option<
    Seq<Option<Seq<char>>>,
> {
    match matches {
        Some(m) => Some(attributes_view(m@)),
        None => None,
    }
}

/// The values that are present, in their order.
pub open spec fn present(values: Seq<Option<Seq<char>>>) -> Seq<Seq<char>> {
    values.filter_map(|v: Option<Seq<char>>| v)
}

/// Keeps the values that are present, in their order.
pub fn read_present(values: &Vec<Option<String>>) -> (r: Vec<String>)
    ensures
        texts_view(r@) == present(attributes_view(values@)),
{
    let ghost all = attributes_view(values@);
    let mut kept: Vec<String> = Vec::new();
    let mut i: usize = 0;
    while i < values.len()
        invariant
            i <= values.len(),
            all == attributes_view(values@),
            texts_view(kept@) == present(all.take(i as int)),
        decreases values.len() - i,
    {
        proof {
            all.lemma_filter_map_take_succ(|v: Option<Seq<char>>| v, i as int);
        }
        match &values[i] {
            Some(value) => {
                let ghost before = kept@;
                kept.push(value.clone());
                assert(texts_view(kept@) =~= texts_view(before) + seq![value@]);
            },
            None => {},
        }
        i = i + 1;
    }
    proof {
        assert(all.take(i as int) =~= all);
    }
    kept
}

/// The elements of the document `html` that `selector` matches, in the order
/// in which the selector engine yields them; `None` if the engine rejects
/// `selector`.
pub uninterp spec fn matched_elements(html: Seq<char>, selector: Seq<char>) -> Option<
    Seq<ElementView>,
>;

/// For each element of the document `html` that `selector` matches, in the
/// order in which the selector engine yields them, the value of its attribute
/// `attribute` where it has one; `None` if the engine rejects `selector`.
pub uninterp spec fn matched_attributes(
    html: Seq<char>,
    selector: Seq<char>,
    attribute: Seq<char>,
) -> Option<Seq<Option<Seq<char>>>>;

/// Runs `scraper`: `Selector::parse` on `selector`, `Html::parse_document` on
/// `html`, then `Html::select`, and reads of each match its first and last
/// child (`first_child`, `last_child`, `Node::as_text`) and its descendant
/// text (`ElementRef::text`).
///
/// Trusted: the answer depends on the two strings alone, which is all the
/// contract claims by equating it with [`matched_elements`].
#[verifier::external_body]
pub(crate) fn select_elements(html: &str, selector: &str) -> (r: Option<Vec<Element>>)
    ensures
        element_matches_view(r) == matched_elements(html@, selector@),
{
    let selector = Selector::parse(selector).ok()?;
    let document = Html::parse_document(html);
    let matches = document.select(&selector).map(
        |e| Element {
            first_text: e.first_child().and_then(|n| n.value().as_text()).map(|t| t.to_string()),
            last_text: e.last_child().and_then(|n| n.value().as_text()).map(|t| t.to_string()),
            fragments: e.text().map(|t| t.to_string()).collect(),
        },
    );
    Some(matches.collect())
}

/// Runs `scraper`: `Selector::parse` on `selector`, `Html::parse_document` on
/// `html`, then `Html::select`, and asks each match for `attribute` with
/// `Element::attr`.
///
/// Trusted: the answer depends on the three strings alone, which is all the
/// contract claims by equating it with [`matched_attributes`].
#[verifier::external_body]
pub(crate) fn select_attributes(html: &str, selector: &str, attribute: &str) -> (r: Option<
    Vec<Option<String>>,
>)
    ensures
        attribute_matches_view(r) == matched_attributes(html@, selector@, attribute@),
{
    let selector = Selector::parse(selector).ok()?;
    let document = Html::parse_document(html);
    let matches = document.select(&selector);
    Some(matches.map(|e| e.value().attr(attribute).map(|v| v.to_string())).collect())
}

} // verus!
