//! One page of search results: the advertisements it lists and the way on.

use crate::failure::{parse_failure, Failure, FailureView, Field};
use crate::markup::{
    attribute_matches_view, attributes_view, matched_attributes, present, select_attributes,
    text_view, texts_view,
};
use vstd::prelude::*;

verus! {

/// Origin of the site, to which the link targets of its pages are relative.
pub const SITE_ORIGIN: &'static str = "https://www.ebay-kleinanzeigen.de";

/// Selector of the anchors that lead to advertisements.
pub const LISTING_SELECTOR: &'static str = "a.ellipsis";

/// Selector of the anchor that leads to the next page of results.
pub const NEXT_PAGE_SELECTOR: &'static str = "a.pagination-next";

/// The attribute that holds an anchor's target.
pub const LINK_ATTRIBUTE: &'static str = "href";

/// The address of a link target of the site.
pub open spec fn absolute(target: Seq<char>) -> Seq<char> {
    SITE_ORIGIN@ + target
}

/// The address of a link target of the site: the origin, then the target.
pub fn resolve(target: &str) -> (r: String)
    ensures
        r@ == absolute(target@),
{
    String::from_str(SITE_ORIGIN).concat(target)
}

/// What a page of search results says about the crawl's way on.
#[derive(Clone, Debug, PartialEq, Eq)]
pub struct SearchPage {
    /// The addresses of the advertisements listed, in document order.
    pub listings: Vec<String>,
    /// The target of the link to the next page, as the page gives it.
    pub next_page: Option<String>,
}

/// The mathematical content of a [`SearchPage`].
pub struct SearchPageView {
    pub listings: Seq<Seq<char>>,
    pub next_page: Option<Seq<char>>,
}

impl View for SearchPage {
    type V = SearchPageView;

    open spec fn view(&self) -> SearchPageView {
        SearchPageView {
            listings: texts_view(self.listings@),
            next_page: text_view(self.next_page),
        }
    }
}

/// The addresses of the listing anchors that have a target, in their order.
pub open spec fn listing_urls(targets: Seq<Option<Seq<char>>>) -> Seq<Seq<char>> {
    present(targets).map_values(|t: Seq<char>| absolute(t))
}

/// The target of the first next-page anchor, where there is such an anchor
/// and it has a target.
pub open spec fn next_target(targets: Seq<Option<Seq<char>>>) -> Option<Seq<char>> {
    if targets.len() > 0 {
        targets[0]
    } else {
        None
    }
}

/// The page that the answers to the two link queries amount to for the
/// results page at `url`, or the parse failure for the first of the two
/// selectors that was rejected.
pub open spec fn search_page_of(
    url: Seq<char>,
    listing_targets: Option<Seq<Option<Seq<char>>>>,
    next_targets: Option<Seq<Option<Seq<char>>>>,
) -> Result<SearchPageView, FailureView> {
    match listing_targets {
        None => Err(parse_failure(url, Field::Listings)),
        Some(listing) => match next_targets {
            None => Err(parse_failure(url, Field::NextPage)),
            Some(next) => Ok(
                SearchPageView { listings: listing_urls(listing), next_page: next_target(next) },
            ),
        },
    }
}

/// The content of the outcome of reading a results page.
pub open spec fn page_outcome_view(outcome: Result<SearchPage, Failure>) -> Result<
    SearchPageView,
    FailureView,
> {
    match outcome {
        Ok(page) => Ok(page@),
        Err(failure) => Err(failure@),
    }
}

/// Resolves each listing target that is present against the site's origin.
fn read_listings(targets: &Vec<Option<String>>) -> (r: Vec<String>)
    ensures
        texts_view(r@) == listing_urls(attributes_view(targets@)),
{
    let ghost all = attributes_view(targets@);
    let mut urls: Vec<String> = Vec::new();
    let mut i: usize = 0;
    while i < targets.len()
        invariant
            i <= targets.len(),
            all == attributes_view(targets@),
            texts_view(urls@) == listing_urls(all.take(i as int)),
        decreases targets.len() - i,
    {
        proof {
            all.lemma_filter_map_take_succ(|v: Option<Seq<char>>| v, i as int);
        }
        match &targets[i] {
            Some(target) => {
                let url = resolve(target.as_str());
                let ghost before = urls@;
                urls.push(url);
                assert(texts_view(urls@) =~= texts_view(before) + seq![absolute(target@)]);
                assert(listing_urls(all.take(i + 1)) =~= listing_urls(all.take(i as int))
                    + seq![absolute(target@)]);
            },
            None => {},
        }
        i = i + 1;
    }
    proof {
        assert(all.take(i as int) =~= all);
    }
    urls
}

impl SearchPage {
    /// The results page at `page_url` whose document answered the query for
    /// listing anchors with `listing_targets` and the query for next-page
    /// anchors with `next_targets`.
    ///
    /// Anchors without a target are passed over. Of several next-page
    /// anchors the first counts; none at all means that this is the last
    /// page. A rejected selector is the only parse failure.
    pub fn from_links(
        page_url: String,
        listing_targets: &Option<Vec<Option<String>>>,
        next_targets: &Option<Vec<Option<String>>>,
    ) -> (r: Result<SearchPage, Failure>)
        ensures
            page_outcome_view(r) == search_page_of(
                page_url@,
                attribute_matches_view(*listing_targets),
                attribute_matches_view(*next_targets),
            ),
    {
        let listings = match listing_targets {
            Some(targets) => read_listings(targets),
            None => { return Err(Failure::parse(page_url, Field::Listings)); },
        };
        let next_page = match next_targets {
            Some(targets) => {
                if targets.len() > 0 {
                    targets[0].clone()
                } else {
                    None
                }
            },
            None => { return Err(Failure::parse(page_url, Field::NextPage)); },
        };
        Ok(SearchPage { listings, next_page })
    }

    /// What reading the results page `html` served at `url` yields.
    pub open spec fn extracted(url: Seq<char>, html: Seq<char>) -> Result<
        SearchPageView,
        FailureView,
    > {
        search_page_of(
            url,
            matched_attributes(html, LISTING_SELECTOR@, LINK_ATTRIBUTE@),
            matched_attributes(html, NEXT_PAGE_SELECTOR@, LINK_ATTRIBUTE@),
        )
    }

    /// Reads the listing links and the next-page link out of the results
    /// page served at `page_url`.
    pub fn parse_from_html(page_url: String, page_html: &str) -> (r: Result<SearchPage, Failure>)
        ensures
            page_outcome_view(r) == SearchPage::extracted(page_url@, page_html@),
    {
        let listing_targets = select_attributes(page_html, LISTING_SELECTOR, LINK_ATTRIBUTE);
        let next_targets = select_attributes(page_html, NEXT_PAGE_SELECTOR, LINK_ATTRIBUTE);
        SearchPage::from_links(page_url, &listing_targets, &next_targets)
    }
}

} // verus!
