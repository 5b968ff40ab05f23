//! One advertisement, and the rules that read it out of its page.

use crate::failure::{parse_failure, Failure, FailureView, Field};
use crate::markup::{
    attribute_matches_view, element_matches_view, elements_view, matched_attributes,
    matched_elements, present, read_present, select_attributes, select_elements, text_view,
    texts_view, Element, ElementView,
};
use crate::text::{trim, trimmed};
use vstd::prelude::*;

verus! {

/// Selector of the element that holds the title.
pub const TITLE_SELECTOR: &'static str = "h1.boxedarticle--title";

/// Selector of the element that holds the price.
pub const PRICE_SELECTOR: &'static str = "h2#viewad-price";

/// Selector of the element that holds the location.
pub const LOCATION_SELECTOR: &'static str = "span#viewad-locality";

/// Selector of the element that holds the description.
pub const DESCRIPTION_SELECTOR: &'static str = "p#viewad-description-text";

/// Selector of the rows of the attribute list.
pub const DETAIL_SELECTOR: &'static str = "li.addetailslist--detail";

/// Selector of the gallery's images.
pub const IMAGE_SELECTOR: &'static str = "div.galleryimage-element img#viewad-image";

/// The attribute that holds an image's address.
pub const IMAGE_ATTRIBUTE: &'static str = "src";

/// The structured record of one advertisement.
#[derive(Clone, Debug, PartialEq, Eq)]
pub struct Article {
    pub url: String,
    pub title: String,
    pub location: String,
    pub price: String,
    pub description: String,
    /// Label and value of each row of the attribute list, in document order.
    /// A label may occur more than once.
    pub details: Vec<(String, String)>,
    /// The addresses of the gallery's images, in document order.
    pub images: Vec<String>,
}

/// The mathematical content of an [`Article`].
pub struct ArticleView {
    pub url: Seq<char>,
    pub title: Seq<char>,
    pub location: Seq<char>,
    pub price: Seq<char>,
    pub description: Seq<char>,
    pub details: Seq<(Seq<char>, Seq<char>)>,
    pub images: Seq<Seq<char>>,
}

/// The characters of each pair of strings of a sequence.
pub open spec fn pairs_view(pairs: Seq<(String, String)>) -> Seq<(Seq<char>, Seq<char>)> {
    pairs.map_values(|p: (String, String)| (p.0@, p.1@))
}

impl View for Article {
    type V = ArticleView;

    open spec fn view(&self) -> ArticleView {
        ArticleView {
            url: self.url@,
            title: self.title@,
            location: self.location@,
            price: self.price@,
            description: self.description@,
            details: pairs_view(self.details@),
            images: texts_view(self.images@),
        }
    }
}

/// The content of each record of a sequence.
pub open spec fn articles_view(articles: Seq<Article>) -> Seq<ArticleView> {
    articles.map_values(|a: Article| a@)
}

/// What the six queries of article extraction found in one document.
#[derive(Clone, Debug, PartialEq, Eq)]
pub struct Matches {
    pub title: Option<Vec<Element>>,
    pub price: Option<Vec<Element>>,
    pub location: Option<Vec<Element>>,
    pub description: Option<Vec<Element>>,
    /// The image address of each gallery image that has one.
    pub images: Option<Vec<Option<String>>>,
    pub details: Option<Vec<Element>>,
}

/// The mathematical content of [`Matches`].
pub struct MatchesView {
    pub title: Option<Seq<ElementView>>,
    pub price: Option<Seq<ElementView>>,
    pub location: Option<Seq<ElementView>>,
    pub description: Option<Seq<ElementView>>,
    pub images: Option<Seq<Option<Seq<char>>>>,
    pub details: Option<Seq<ElementView>>,
}

impl View for Matches {
    type V = MatchesView;

    open spec fn view(&self) -> MatchesView {
        MatchesView {
            title: element_matches_view(self.title),
            price: element_matches_view(self.price),
            location: element_matches_view(self.location),
            description: element_matches_view(self.description),
            images: attribute_matches_view(self.images),
            details: element_matches_view(self.details),
        }
    }
}

/// The element of a query that a required field accepts: the only match.
/// No match, several matches and a rejected selector all leave the field
/// unresolved.
pub open spec fn sole(matches: Option<Seq<ElementView>>) -> Option<ElementView> {
    match matches {
        Some(m) => if m.len() == 1 {
            Some(m[0])
        } else {
            None
        },
        None => None,
    }
}

/// The trimmed text of the only match's first child, for a field whose text
/// comes first in its element.
pub open spec fn leading_text(matches: Option<Seq<ElementView>>) -> Option<Seq<char>> {
    match sole(matches) {
        Some(e) => match e.first_text {
            Some(t) => Some(trimmed(t)),
            None => None,
        },
        None => None,
    }
}

/// The trimmed text of the only match's last child, for a field whose text
/// comes last in its element.
pub open spec fn trailing_text(matches: Option<Seq<ElementView>>) -> Option<Seq<char>> {
    match sole(matches) {
        Some(e) => match e.last_text {
            Some(t) => Some(trimmed(t)),
            None => None,
        },
        None => None,
    }
}

/// The trimmed concatenation of all text below the only match.
pub open spec fn whole_text(matches: Option<Seq<ElementView>>) -> Option<Seq<char>> {
    match sole(matches) {
        Some(e) => Some(trimmed(e.fragments.flatten())),
        None => None,
    }
}

/// Label and value of one row of the attribute list: its first two text
/// fragments, trimmed. A row with fewer than two fragments has neither.
pub open spec fn detail_pair(row: ElementView) -> Option<(Seq<char>, Seq<char>)> {
    if row.fragments.len() >= 2 {
        Some((trimmed(row.fragments[0]), trimmed(row.fragments[1])))
    } else {
        None
    }
}

/// The pairs of the rows that have one, in the order of the rows.
pub open spec fn detail_pairs(rows: Seq<ElementView>) -> Seq<(Seq<char>, Seq<char>)> {
    rows.filter_map(|row: ElementView| detail_pair(row))
}

/// The first field, in the order title, price, location, description,
/// images, details, that `found` does not resolve.
pub open spec fn unresolved(found: MatchesView) -> Option<Field> {
    if trailing_text(found.title) is None {
        Some(Field::Title)
    } else if leading_text(found.price) is None {
        Some(Field::Price)
    } else if leading_text(found.location) is None {
        Some(Field::Location)
    } else if whole_text(found.description) is None {
        Some(Field::Description)
    } else if found.images is None {
        Some(Field::Images)
    } else if found.details is None {
        Some(Field::Details)
    } else {
        None
    }
}

/// The record that `found` amounts to for the advertisement at `url`, or the
/// parse failure that names the first unresolved field.
pub open spec fn article_of(url: Seq<char>, found: MatchesView) -> Result<
    ArticleView,
    FailureView,
> {
    match unresolved(found) {
        Some(field) => Err(parse_failure(url, field)),
        None => Ok(
            ArticleView {
                url,
                title: trailing_text(found.title)->0,
                location: leading_text(found.location)->0,
                price: leading_text(found.price)->0,
                description: whole_text(found.description)->0,
                details: detail_pairs(found.details->0),
                images: present(found.images->0),
            },
        ),
    }
}

/// What the six queries find in the document `html`.
pub open spec fn matches_in(html: Seq<char>) -> MatchesView {
    MatchesView {
        title: matched_elements(html, TITLE_SELECTOR@),
        price: matched_elements(html, PRICE_SELECTOR@),
        location: matched_elements(html, LOCATION_SELECTOR@),
        description: matched_elements(html, DESCRIPTION_SELECTOR@),
        images: matched_attributes(html, IMAGE_SELECTOR@, IMAGE_ATTRIBUTE@),
        details: matched_elements(html, DETAIL_SELECTOR@),
    }
}

/// The content of the outcome of an extraction.
pub open spec fn outcome_view(outcome: Result<Article, Failure>) -> Result<
    ArticleView,
    FailureView,
> {
    match outcome {
        Ok(article) => Ok(article@),
        Err(failure) => Err(failure@),
    }
}

/// The only element of a query's answer.
fn sole_match(matches: &Option<Vec<Element>>) -> (r: Option<&Element>)
    ensures
        match r {
            Some(e) => sole(element_matches_view(*matches)) == Some(e@),
            None => sole(element_matches_view(*matches)) is None,
        },
{
    match matches {
        Some(m) => {
            if m.len() == 1 {
                Some(&m[0])
            } else {
                None
            }
        },
        None => None,
    }
}

/// The trimmed text of a child, where the child is text.
fn trimmed_text(text: &Option<String>) -> (r: Option<String>)
    ensures
        text_view(r) == match text_view(*text) {
            Some(t) => Some(trimmed(t)),
            None => None,
        },
{
    match text {
        Some(t) => Some(trim(t.as_str())),
        None => None,
    }
}

/// All fragments in one string, in their order.
fn join(fragments: &Vec<String>) -> (r: String)
    ensures
        r@ == texts_view(fragments@).flatten(),
{
    let ghost all = texts_view(fragments@);
    let mut text = String::new();
    let mut i: usize = 0;
    while i < fragments.len()
        invariant
            i <= fragments.len(),
            all == texts_view(fragments@),
            text@ == all.take(i as int).flatten(),
        decreases fragments.len() - i,
    {
        proof {
            assert(all.take(i + 1) =~= all.take(i as int).push(all[i as int]));
            all.take(i as int).lemma_flatten_push(all[i as int]);
        }
        text.append(fragments[i].as_str());
        i = i + 1;
    }
    proof {
        assert(all.take(i as int) =~= all);
    }
    text
}

/// Reads label and value out of each row of the attribute list that has
/// both. A row with fewer than two text fragments is passed over.
pub fn read_details(rows: &Vec<Element>) -> (r: Vec<(String, String)>)
    ensures
        pairs_view(r@) == detail_pairs(elements_view(rows@)),
{
    let ghost all = elements_view(rows@);
    let mut pairs: Vec<(String, String)> = Vec::new();
    let mut i: usize = 0;
    while i < rows.len()
        invariant
            i <= rows.len(),
            all == elements_view(rows@),
            pairs_view(pairs@) == detail_pairs(all.take(i as int)),
        decreases rows.len() - i,
    {
        proof {
            all.lemma_filter_map_take_succ(|row: ElementView| detail_pair(row), i as int);
        }
        let row = &rows[i];
        if row.fragments.len() >= 2 {
            let label = trim(row.fragments[0].as_str());
            let value = trim(row.fragments[1].as_str());
            let ghost before = pairs@;
            pairs.push((label, value));
            assert(pairs_view(pairs@) =~= pairs_view(before) + seq![(label@, value@)]);
        }
        i = i + 1;
    }
    proof {
        assert(all.take(i as int) =~= all);
    }
    pairs
}

impl Matches {
    /// Puts the six queries to the document `html`.
    pub fn find(html: &str) -> (r: Matches)
        ensures
            r@ == matches_in(html@),
    {
        Matches {
            title: select_elements(html, TITLE_SELECTOR),
            price: select_elements(html, PRICE_SELECTOR),
            location: select_elements(html, LOCATION_SELECTOR),
            description: select_elements(html, DESCRIPTION_SELECTOR),
            images: select_attributes(html, IMAGE_SELECTOR, IMAGE_ATTRIBUTE),
            details: select_elements(html, DETAIL_SELECTOR),
        }
    }
}

impl Article {
    /// The record of the advertisement at `article_url` whose document
    /// answered the six queries with `found`.
    ///
    /// Title, price, location and description are required: each needs
    /// exactly one matching element from which its text can be read, and the
    /// first of them that lacks one is reported as a parse failure. Images
    /// and detail rows may be absent; they fail only if their selector was
    /// rejected.
    pub fn from_matches(article_url: String, found: &Matches) -> (r: Result<Article, Failure>)
        ensures
            outcome_view(r) == article_of(article_url@, found@),
    {
        let title = match sole_match(&found.title) {
            Some(e) => trimmed_text(&e.last_text),
            None => None,
        };
        let title = match title {
            Some(t) => t,
            None => { return Err(Failure::parse(article_url, Field::Title)); },
        };
        let price = match sole_match(&found.price) {
            Some(e) => trimmed_text(&e.first_text),
            None => None,
        };
        let price = match price {
            Some(t) => t,
            None => { return Err(Failure::parse(article_url, Field::Price)); },
        };
        let location = match sole_match(&found.location) {
            Some(e) => trimmed_text(&e.first_text),
            None => None,
        };
        let location = match location {
            Some(t) => t,
            None => { return Err(Failure::parse(article_url, Field::Location)); },
        };
        let description = match sole_match(&found.description) {
            Some(e) => {
                let whole = join(&e.fragments);
                trim(whole.as_str())
            },
            None => { return Err(Failure::parse(article_url, Field::Description)); },
        };
        let images = match &found.images {
            Some(values) => read_present(values),
            None => { return Err(Failure::parse(article_url, Field::Images)); },
        };
        let details = match &found.details {
            Some(rows) => read_details(rows),
            None => { return Err(Failure::parse(article_url, Field::Details)); },
        };
        Ok(Article { url: article_url, title, location, price, description, details, images })
    }

    /// What extraction yields for the document `html` served at `url`.
    pub open spec fn extracted(url: Seq<char>, html: Seq<char>) -> Result<
        ArticleView,
        FailureView,
    > {
        article_of(url, matches_in(html))
    }

    /// Extracts the record of the advertisement at `article_url` from its
    /// document.
    pub fn parse_from_html(article_url: String, article_html: String) -> (r: Result<
        Article,
        Failure,
    >)
        ensures
            outcome_view(r) == Article::extracted(article_url@, article_html@),
    {
        let found = Matches::find(article_html.as_str());
        Article::from_matches(article_url, &found)
    }
}

/// Extraction determinism. Two extractions from the same document, for the
/// same address, yield the same record or the same failure.
pub proof fn lemma_extraction_is_deterministic(
    url: Seq<char>,
    html: Seq<char>,
    first: Result<Article, Failure>,
    second: Result<Article, Failure>,
)
    requires
        outcome_view(first) == Article::extracted(url, html),
        outcome_view(second) == Article::extracted(url, html),
    ensures
        outcome_view(first) == outcome_view(second),
{
}

/// Required-field strictness. A required field resolves only with exactly
/// one matching element whose designated child is text, or, for the
/// description, with exactly one matching element. The first required field
/// that does not resolve is named by a parse failure for the address, and no
/// record comes out, whatever the other queries found.
pub proof fn lemma_required_fields_are_strict(url: Seq<char>, found: MatchesView)
    ensures
        trailing_text(found.title) is Some <==> found.title is Some && found.title->0.len() == 1
            && found.title->0[0].last_text is Some,
        leading_text(found.price) is Some <==> found.price is Some && found.price->0.len() == 1
            && found.price->0[0].first_text is Some,
        leading_text(found.location) is Some <==> found.location is Some
            && found.location->0.len() == 1 && found.location->0[0].first_text is Some,
        whole_text(found.description) is Some <==> found.description is Some
            && found.description->0.len() == 1,
        trailing_text(found.title) is None ==> article_of(url, found) == Err::<
            ArticleView,
            FailureView,
        >(parse_failure(url, Field::Title)),
        trailing_text(found.title) is Some && leading_text(found.price) is None ==> article_of(
            url,
            found,
        ) == Err::<ArticleView, FailureView>(parse_failure(url, Field::Price)),
        trailing_text(found.title) is Some && leading_text(found.price) is Some && leading_text(
            found.location,
        ) is None ==> article_of(url, found) == Err::<ArticleView, FailureView>(
            parse_failure(url, Field::Location),
        ),
        trailing_text(found.title) is Some && leading_text(found.price) is Some && leading_text(
            found.location,
        ) is Some && whole_text(found.description) is None ==> article_of(url, found) == Err::<
            ArticleView,
            FailureView,
        >(parse_failure(url, Field::Description)),
        article_of(url, found) is Ok ==> unresolved(found) is None && article_of(url, found)->Ok_0.url
            == url,
{
}

/// Detail-pair tolerance. A row gives a pair exactly when it has two text
/// fragments or more; the pair is made of the first two, trimmed, and any
/// further fragment is left out.
pub proof fn lemma_detail_pair_tolerance(row: ElementView)
    ensures
        row.fragments.len() < 2 ==> detail_pair(row) is None,
        row.fragments.len() >= 2 ==> detail_pair(row) == Some(
            (trimmed(row.fragments[0]), trimmed(row.fragments[1])),
        ),
        detail_pairs(seq![row]) == match detail_pair(row) {
            Some(pair) => seq![pair],
            None => Seq::empty(),
        },
{
    Seq::lemma_filter_map_singleton(row, |r: ElementView| detail_pair(r));
}

/// Rows that give no pair leave no trace: the pairs of a list of rows are
/// those of the list before its last row, then the pair of the last row
/// where it gives one.
pub proof fn lemma_detail_pairs_follow_rows(rows: Seq<ElementView>, row: ElementView)
    ensures
        detail_pairs(rows.push(row)) == detail_pairs(rows) + match detail_pair(row) {
            Some(pair) => seq![pair],
            None => Seq::empty(),
        },
{
    let all = rows.push(row);
    assert(all.drop_last() =~= rows);
    assert(detail_pairs(all) =~= detail_pairs(rows) + match detail_pair(row) {
        Some(pair) => seq![pair],
        None => Seq::empty(),
    });
}

} // verus!
