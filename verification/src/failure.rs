//! The two ways a crawl can fail, and the message shown for each.

use vstd::prelude::*;

verus! {

/// The category of a failure. There is no third one.
#[derive(Clone, Copy, Debug, PartialEq, Eq, Structural)]
pub enum FailureKind {
    /// The browser or the transport to it reported an error.
    Navigation,
    /// A fetched document did not have the expected structure.
    Parse,
}

/// What the extractor looks for in a document.
#[derive(Clone, Copy, Debug, PartialEq, Eq, Structural)]
pub enum Field {
    Title,
    Price,
    Location,
    Description,
    Images,
    Details,
    Listings,
    NextPage,
}

impl Field {
    /// The name by which a failure refers to the field.
    pub open spec fn label(self) -> Seq<char> {
        match self {
            Field::Title => "title"@,
            Field::Price => "price"@,
            Field::Location => "location"@,
            Field::Description => "description"@,
            Field::Images => "images"@,
            Field::Details => "details"@,
            Field::Listings => "listings"@,
            Field::NextPage => "next page"@,
        }
    }

    /// The name by which a failure refers to the field.
    pub fn name(self) -> (r: &'static str)
        ensures
            r@ == self.label(),
    {
        match self {
            Field::Title => "title",
            Field::Price => "price",
            Field::Location => "location",
            Field::Description => "description",
            Field::Images => "images",
            Field::Details => "details",
            Field::Listings => "listings",
            Field::NextPage => "next page",
        }
    }
}

/// The single error that ends a crawl.
#[derive(Clone, Debug, PartialEq, Eq)]
pub struct Failure {
    pub kind: FailureKind,
    /// The URL that was being loaded or parsed.
    pub url: String,
    /// For a navigation failure, the transport's own words; for a parse
    /// failure, the name of the field that could not be resolved.
    pub detail: String,
}

/// The mathematical content of a [`Failure`].
pub struct FailureView {
    pub kind: FailureKind,
    pub url: Seq<char>,
    pub detail: Seq<char>,
}

impl View for Failure {
    type V = FailureView;

    open spec fn view(&self) -> FailureView {
        FailureView { kind: self.kind, url: self.url@, detail: self.detail@ }
    }
}

/// The content of a failure that may be absent.
pub open spec fn failure_view(failure: Option<Failure>) -> Option<FailureView> {
    match failure {
        Some(f) => Some(f@),
        None => None,
    }
}

/// The failure for a transport error while loading or reading `url`.
pub open spec fn navigation_failure(url: Seq<char>, detail: Seq<char>) -> FailureView {
    FailureView { kind: FailureKind::Navigation, url, detail }
}

/// The failure for a document at `url` in which `field` cannot be resolved.
pub open spec fn parse_failure(url: Seq<char>, field: Field) -> FailureView {
    FailureView { kind: FailureKind::Parse, url, detail: field.label() }
}

impl FailureKind {
    /// How a message of this kind begins.
    pub open spec fn prefix(self) -> Seq<char> {
        match self {
            FailureKind::Navigation => "navigation failure at "@,
            FailureKind::Parse => "parse failure at "@,
        }
    }
}

impl FailureView {
    /// The text shown to the caller: kind, URL and detail, in that order.
    pub open spec fn message(self) -> Seq<char> {
        self.kind.prefix() + self.url + ": "@ + self.detail
    }
}

impl Failure {
    /// Classifies a transport error.
    pub fn navigation(url: String, detail: String) -> (r: Failure)
        ensures
            r@ == navigation_failure(url@, detail@),
    {
        Failure { kind: FailureKind::Navigation, url, detail }
    }

    /// Classifies an unmet expectation on the document at `url`.
    pub fn parse(url: String, field: Field) -> (r: Failure)
        ensures
            r@ == parse_failure(url@, field),
    {
        Failure { kind: FailureKind::Parse, url, detail: String::from_str(field.name()) }
    }

    /// The text shown to the caller: kind, URL and detail, in that order.
    pub fn message(&self) -> (r: String)
        ensures
            r@ == self@.message(),
    {
        let mut text = match self.kind {
            FailureKind::Navigation => String::from_str("navigation failure at "),
            FailureKind::Parse => String::from_str("parse failure at "),
        };
        text.append(self.url.as_str());
        text.append(": ");
        text.append(self.detail.as_str());
        text
    }
}

} // verus!
