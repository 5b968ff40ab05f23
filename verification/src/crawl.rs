//! The crawl as a state machine.
//!
//! The machine decides; a driver outside this library acts. The driver asks
//! the browser for what [`Action`] says, reports what came of it as an
//! [`Event`], and gets the next state and the next action back, until the
//! action is [`Action::Finish`] or [`Action::Abort`]. Either of the two also
//! tells the driver to release the tab.
//!
//! The phases are the points at which the machine waits for the driver.
//! Reading the links out of a page of results happens inside the step that
//! receives that page's document, so the machine never rests between
//! fetching a page and choosing where to go. A visit to an advertisement
//! waits twice, for the tab to arrive and for the document.
//!
//! [`CrawlView`] is the machine in mathematical terms: its transitions, the
//! invariant [`CrawlView::inv`] of every state that a crawl reaches, and,
//! proved from the invariant, what a crawl that has ended holds. [`Crawl`]
//! is the machine that runs.

use crate::article::{
    article_of, articles_view, outcome_view, Article, ArticleView, Matches,
};
use crate::failure::{failure_view, navigation_failure, Failure, FailureView};
use crate::markup::{attribute_matches_view, text_view, texts_view};
use crate::search::{
    absolute, page_outcome_view, resolve, search_page_of, SearchPage, SearchPageView,
};
use vstd::prelude::*;

verus! {

/// The request for one crawl.
#[derive(Clone, Debug, PartialEq, Eq)]
pub struct Scrape {
    /// The address of the first page of search results.
    pub url: String,
    /// The address of the advertisement before which the crawl stops.
    pub until: Option<String>,
}

/// The mathematical content of a [`Scrape`].
pub struct ScrapeView {
    pub url: Seq<char>,
    pub until: Option<Seq<char>>,
}

impl View for Scrape {
    type V = ScrapeView;

    open spec fn view(&self) -> ScrapeView {
        ScrapeView { url: self.url@, until: text_view(self.until) }
    }
}

/// Where a crawl stands.
#[derive(Clone, Copy, Debug, PartialEq, Eq, Structural)]
pub enum Phase {
    /// Waiting for the tab to open on the requested address.
    Start,
    /// Waiting for the document of the current page of results.
    FetchingPage,
    /// Waiting for the tab to arrive at the advertisement under the cursor.
    VisitingListing,
    /// Waiting for the document of the advertisement under the cursor.
    FetchingListing,
    /// Waiting for the tab to arrive at the next page of results.
    Paginating,
    /// Ended with the records gathered.
    Done,
    /// Ended with one failure and no records.
    Failed,
}

/// What the driver is to do next.
#[derive(Clone, Debug, PartialEq, Eq)]
pub enum Action {
    /// Open a tab of its own for this crawl on the address and wait until it
    /// has loaded.
    Open(String),
    /// Send the crawl's tab to the address and wait until it has loaded.
    Goto(String),
    /// Read the document that the crawl's tab shows.
    Fetch,
    /// Stop: the crawl has succeeded.
    Finish,
    /// Stop: the crawl has failed.
    Abort,
}

/// The mathematical content of an [`Action`].
pub enum ActionView {
    Open(Seq<char>),
    Goto(Seq<char>),
    Fetch,
    Finish,
    Abort,
}

impl View for Action {
    type V = ActionView;

    open spec fn view(&self) -> ActionView {
        match self {
            Action::Open(url) => ActionView::Open(url@),
            Action::Goto(url) => ActionView::Goto(url@),
            Action::Fetch => ActionView::Fetch,
            Action::Finish => ActionView::Finish,
            Action::Abort => ActionView::Abort,
        }
    }
}

/// What came of the last action.
#[derive(Clone, Debug, PartialEq, Eq)]
pub enum Event {
    /// The tab has loaded the address it was sent to.
    Navigated,
    /// The document that the tab shows.
    Content(String),
    /// The browser reported an error, in these words.
    Error(String),
}

/// The mathematical content of an [`Event`].
pub enum EventView {
    Navigated,
    Content(Seq<char>),
    Error(Seq<char>),
}

impl View for Event {
    type V = EventView;

    open spec fn view(&self) -> EventView {
        match self {
            Event::Navigated => EventView::Navigated,
            Event::Content(html) => EventView::Content(html@),
            Event::Error(detail) => EventView::Error(detail@),
        }
    }
}

/// The mathematical content of a [`Crawl`].
pub struct CrawlView {
    pub scrape: ScrapeView,
    pub phase: Phase,
    /// The address of the current page of results.
    pub page_url: Seq<char>,
    /// The advertisements that the current page lists.
    pub listings: Seq<Seq<char>>,
    /// How many of `listings` are dealt with.
    pub cursor: int,
    /// The link target that leads on from the current page.
    pub next_page: Option<Seq<char>>,
    /// The records gathered.
    pub articles: Seq<ArticleView>,
    /// Whether the crawl ended at the advertisement named by `until`.
    pub boundary_hit: bool,
    /// The failure that ended the crawl.
    pub failure: Option<FailureView>,
    /// The advertisements listed by each page of results read so far.
    pub pages: Seq<Seq<Seq<char>>>,
}

impl CrawlView {
    /// The state in which a crawl for `scrape` begins.
    pub open spec fn initial(scrape: ScrapeView) -> CrawlView {
        CrawlView {
            scrape,
            phase: Phase::Start,
            page_url: scrape.url,
            listings: Seq::empty(),
            cursor: 0,
            next_page: None,
            articles: Seq::empty(),
            boundary_hit: false,
            failure: None,
            pages: Seq::empty(),
        }
    }

    /// Every advertisement encountered so far: the listings of the first
    /// page read, then those of the second, and so on.
    pub open spec fn encountered(self) -> Seq<Seq<char>> {
        self.pages.flatten()
    }

    /// The addresses of the records gathered, in their order.
    pub open spec fn article_urls(self) -> Seq<Seq<char>> {
        self.articles.map_values(|a: ArticleView| a.url)
    }

    /// Whether the advertisement under the cursor is the one named by `until`.
    pub open spec fn at_boundary(self) -> bool {
        0 <= self.cursor < self.listings.len() && self.scrape.until == Some(
            self.listings[self.cursor],
        )
    }

    /// The crawl ended by `failure`: whatever was gathered is dropped.
    pub open spec fn failed(self, failure: FailureView) -> CrawlView {
        CrawlView {
            phase: Phase::Failed,
            articles: Seq::empty(),
            failure: Some(failure),
            ..self
        }
    }

    /// The choice at the cursor. An advertisement that is left is visited,
    /// unless it is the one named by `until`, which ends the crawl. With
    /// none left the crawl goes on to the next page, or ends where there is
    /// none.
    pub open spec fn advanced(self) -> CrawlView {
        if 0 <= self.cursor < self.listings.len() {
            if self.at_boundary() {
                CrawlView { phase: Phase::Done, boundary_hit: true, ..self }
            } else {
                CrawlView { phase: Phase::VisitingListing, ..self }
            }
        } else if self.next_page is Some {
            CrawlView { phase: Phase::Paginating, ..self }
        } else {
            CrawlView { phase: Phase::Done, ..self }
        }
    }

    /// The state after the current page of results was read with `outcome`.
    /// Outside [`Phase::FetchingPage`] nothing changes.
    pub open spec fn with_page(self, outcome: Result<SearchPageView, FailureView>) -> CrawlView {
        if self.phase != Phase::FetchingPage {
            self
        } else {
            match outcome {
                Err(failure) => self.failed(failure),
                Ok(page) => CrawlView {
                    listings: page.listings,
                    cursor: 0,
                    next_page: page.next_page,
                    pages: self.pages.push(page.listings),
                    ..self
                }.advanced(),
            }
        }
    }

    /// The state after the advertisement under the cursor was read with
    /// `outcome`. Outside [`Phase::FetchingListing`] nothing changes.
    pub open spec fn with_article(self, outcome: Result<ArticleView, FailureView>) -> CrawlView {
        if self.phase != Phase::FetchingListing {
            self
        } else {
            match outcome {
                Err(failure) => self.failed(failure),
                Ok(article) => CrawlView {
                    articles: self.articles.push(article),
                    cursor: self.cursor + 1,
                    ..self
                }.advanced(),
            }
        }
    }

    /// The address that the tab is at, or on its way to.
    pub open spec fn target(self) -> Seq<char> {
        match self.phase {
            Phase::Start => self.scrape.url,
            Phase::VisitingListing | Phase::FetchingListing => self.listings[self.cursor],
            Phase::Paginating => absolute(self.next_page->0),
            _ => self.page_url,
        }
    }

    /// The state after `event`. An event that does not answer the awaited
    /// action changes nothing, and neither does any event once the crawl has
    /// ended.
    pub open spec fn next(self, event: EventView) -> CrawlView {
        match (self.phase, event) {
            (Phase::Done, _) | (Phase::Failed, _) => self,
            (_, EventView::Error(detail)) => self.failed(navigation_failure(self.target(), detail)),
            (Phase::Start, EventView::Navigated) => CrawlView {
                phase: Phase::FetchingPage,
                ..self
            },
            (Phase::VisitingListing, EventView::Navigated) => CrawlView {
                phase: Phase::FetchingListing,
                ..self
            },
            (Phase::Paginating, EventView::Navigated) => CrawlView {
                phase: Phase::FetchingPage,
                page_url: self.target(),
                ..self
            },
            (Phase::FetchingPage, EventView::Content(html)) => self.with_page(
                SearchPage::extracted(self.page_url, html),
            ),
            (Phase::FetchingListing, EventView::Content(html)) => self.with_article(
                Article::extracted(self.target(), html),
            ),
            _ => self,
        }
    }

    /// The action whose outcome the crawl waits for.
    pub open spec fn awaited(self) -> ActionView {
        match self.phase {
            Phase::Start => ActionView::Open(self.target()),
            Phase::VisitingListing | Phase::Paginating => ActionView::Goto(self.target()),
            Phase::FetchingPage | Phase::FetchingListing => ActionView::Fetch,
            Phase::Done => ActionView::Finish,
            Phase::Failed => ActionView::Abort,
        }
    }

    /// The state after each of `events` in turn.
    pub open spec fn run(self, events: Seq<EventView>) -> CrawlView
        decreases events.len(),
    {
        if events.len() == 0 {
            self
        } else {
            self.run(events.drop_last()).next(events.last())
        }
    }

    /// What a crawl has to show when it has ended.
    pub open spec fn outcome(self) -> Option<Result<Seq<ArticleView>, FailureView>> {
        match self.phase {
            Phase::Done => Some(Ok(self.articles)),
            Phase::Failed => Some(Err(self.failure->0)),
            _ => None,
        }
    }

    /// What the caller is answered once the driver has released the tab,
    /// with `released` as what came of that. An error in releasing the tab
    /// of a crawl that has ended well is a navigation failure for the
    /// current page of results, in place of the records; nothing else
    /// changes what the crawl has to show.
    pub open spec fn concluded(self, released: Result<(), Seq<char>>) -> Option<
        Result<Seq<ArticleView>, FailureView>,
    > {
        match (self.outcome(), released) {
            (Some(Ok(_)), Err(detail)) => Some(Err(navigation_failure(self.page_url, detail))),
            (outcome, _) => outcome,
        }
    }

    /// What holds of every state that a crawl can reach.
    pub open spec fn inv(self) -> bool {
        &&& 0 <= self.cursor <= self.listings.len()
        &&& self.pages.len() == 0 ==> self.listings.len() == 0
        &&& self.pages.len() > 0 ==> self.listings == self.pages.last()
        &&& self.phase == Phase::Start ==> self.pages.len() == 0
        &&& self.phase == Phase::FetchingPage ==> self.cursor == self.listings.len()
        &&& self.phase == Phase::VisitingListing || self.phase == Phase::FetchingListing ==> {
            &&& self.cursor < self.listings.len()
            &&& !self.at_boundary()
        }
        &&& self.phase == Phase::Paginating ==> {
            &&& self.cursor == self.listings.len()
            &&& self.next_page is Some
        }
        &&& self.phase == Phase::Done ==> {
            &&& self.pages.len() > 0
            &&& self.boundary_hit ==> self.at_boundary()
            &&& !self.boundary_hit ==> self.cursor == self.listings.len() && self.next_page is None
        }
        &&& self.phase != Phase::Done ==> !self.boundary_hit
        &&& self.phase == Phase::Failed <==> self.failure is Some
        &&& self.phase == Phase::Failed ==> self.articles.len() == 0
        &&& self.phase != Phase::Failed ==> self.articles.len() + self.listings.len()
            - self.cursor == self.encountered().len()
        &&& forall|i: int|
            0 <= i < self.articles.len() ==> {
                &&& (#[trigger] self.articles[i]).url == self.encountered()[i]
                &&& self.scrape.until != Some(self.articles[i].url)
            }
    }
}

/// The advertisements encountered are those of the earlier pages, then
/// those of the last page read.
proof fn lemma_encountered_ends_with_last_page(pages: Seq<Seq<Seq<char>>>)
    requires
        pages.len() > 0,
    ensures
        pages.flatten() == pages.drop_last().flatten() + pages.last(),
{
    assert(pages =~= pages.drop_last().push(pages.last()));
    pages.drop_last().lemma_flatten_push(pages.last());
}

/// Reading a page of results keeps a state well formed.
pub proof fn lemma_with_page_keeps_inv(c: CrawlView, outcome: Result<SearchPageView, FailureView>)
    requires
        c.inv(),
    ensures
        c.with_page(outcome).inv(),
{
    let after = c.with_page(outcome);
    if c.phase == Phase::FetchingPage {
        if let Ok(page) = outcome {
            c.pages.lemma_flatten_push(page.listings);
            assert(after.pages.last() == page.listings);
            assert(after.encountered() =~= c.encountered() + page.listings);
        }
    }
    assert forall|i: int| 0 <= i < after.articles.len() implies {
        &&& (#[trigger] after.articles[i]).url == after.encountered()[i]
        &&& after.scrape.until != Some(after.articles[i].url)
    } by {
        assert(c.articles[i].url == c.encountered()[i]);
    }
}

/// Reading the advertisement under the cursor keeps a state well formed.
pub proof fn lemma_with_article_keeps_inv(c: CrawlView, outcome: Result<ArticleView, FailureView>)
    requires
        c.inv(),
        c.phase == Phase::FetchingListing ==> (outcome matches Ok(article) ==> article.url
            == c.listings[c.cursor]),
    ensures
        c.with_article(outcome).inv(),
{
    let after = c.with_article(outcome);
    if c.phase == Phase::FetchingListing && outcome is Ok {
        lemma_encountered_ends_with_last_page(c.pages);
        let earlier = c.pages.drop_last().flatten();
        assert(c.articles.len() == earlier.len() + c.cursor);
        assert(c.encountered()[c.articles.len() as int] == c.listings[c.cursor]);
    }
    assert forall|i: int| 0 <= i < after.articles.len() implies {
        &&& (#[trigger] after.articles[i]).url == after.encountered()[i]
        &&& after.scrape.until != Some(after.articles[i].url)
    } by {
        if i < c.articles.len() {
            assert(c.articles[i].url == c.encountered()[i]);
        }
    }
}

/// One event keeps a state well formed.
pub proof fn lemma_next_keeps_inv(c: CrawlView, event: EventView)
    requires
        c.inv(),
    ensures
        c.next(event).inv(),
{
    let after = c.next(event);
    match (c.phase, event) {
        (Phase::FetchingPage, EventView::Content(html)) => {
            lemma_with_page_keeps_inv(c, SearchPage::extracted(c.page_url, html));
        },
        (Phase::FetchingListing, EventView::Content(html)) => {
            lemma_with_article_keeps_inv(c, Article::extracted(c.target(), html));
        },
        _ => {
            assert forall|i: int| 0 <= i < after.articles.len() implies {
                &&& (#[trigger] after.articles[i]).url == after.encountered()[i]
                &&& after.scrape.until != Some(after.articles[i].url)
            } by {
                assert(c.articles[i].url == c.encountered()[i]);
            }
        },
    }
}

/// Every state that a crawl reaches is well formed.
pub proof fn lemma_run_keeps_inv(scrape: ScrapeView, events: Seq<EventView>)
    ensures
        CrawlView::initial(scrape).run(events).inv(),
    decreases events.len(),
{
    if events.len() == 0 {
        assert(CrawlView::initial(scrape).encountered() =~= Seq::empty());
    } else {
        lemma_run_keeps_inv(scrape, events.drop_last());
        lemma_next_keeps_inv(CrawlView::initial(scrape).run(events.drop_last()), events.last());
    }
}

/// Order preservation. A crawl without a boundary that has ended well holds
/// one record for each advertisement encountered, in the order in which they
/// were encountered: page by page, and within a page in document order.
pub proof fn lemma_order_preserved(c: CrawlView)
    requires
        c.inv(),
        c.phase == Phase::Done,
        c.scrape.until is None,
    ensures
        c.article_urls() == c.encountered(),
{
    assert(c.article_urls() =~= c.encountered());
}

/// Boundary exclusivity. Let the advertisement named by `until` be
/// encountered first at position `k`, counted from 0, on whichever page. A
/// crawl that has ended well then ended there: it holds the records of the
/// `k` advertisements before it, in order, and nothing else.
pub proof fn lemma_boundary_excluded(c: CrawlView, k: int)
    requires
        c.inv(),
        c.phase == Phase::Done,
        0 <= k < c.encountered().len(),
        c.scrape.until == Some(c.encountered()[k]),
        forall|i: int| 0 <= i < k ==> c.scrape.until != Some(c.encountered()[i]),
    ensures
        c.boundary_hit,
        c.articles.len() == k,
        c.article_urls() == c.encountered().take(k),
{
    lemma_encountered_ends_with_last_page(c.pages);
    let n = c.articles.len() as int;
    if c.boundary_hit {
        assert(c.encountered()[n] == c.listings[c.cursor]);
    }
    if k < n {
        assert(c.articles[k].url == c.encountered()[k]);
    }
    assert(n == k);
    assert(c.article_urls() =~= c.encountered().take(k));
}

/// Without the boundary among the advertisements encountered, a crawl that
/// has ended well holds a record for each of them.
pub proof fn lemma_boundary_not_met(c: CrawlView)
    requires
        c.inv(),
        c.phase == Phase::Done,
        forall|i: int| 0 <= i < c.encountered().len() ==> c.scrape.until != Some(c.encountered()[i]),
    ensures
        !c.boundary_hit,
        c.article_urls() == c.encountered(),
{
    lemma_encountered_ends_with_last_page(c.pages);
    if c.boundary_hit {
        assert(c.encountered()[c.articles.len() as int] == c.listings[c.cursor]);
    }
    assert(c.article_urls() =~= c.encountered());
}

/// Pagination termination. When the current page of results has no link to
/// a next page and none of its advertisements is left, the choice at the
/// cursor ends the crawl well, with the records as they are.
pub proof fn lemma_last_page_ends_crawl(c: CrawlView)
    requires
        c.cursor == c.listings.len(),
        c.next_page is None,
    ensures
        c.advanced().phase == Phase::Done,
        c.advanced().articles == c.articles,
        c.advanced().boundary_hit == c.boundary_hit,
        c.advanced().outcome() == Some(Ok::<Seq<ArticleView>, FailureView>(c.articles)),
{
}

/// Pagination termination, seen from the events. A page of results that
/// lists nothing and has no link to a next page ends the crawl well with the
/// records gathered before it. The record of the last advertisement of a
/// page without such a link ends the crawl well with that record added.
pub proof fn lemma_crawl_ends_without_next_page(
    c: CrawlView,
    page: SearchPageView,
    article: ArticleView,
)
    requires
        c.inv(),
    ensures
        c.phase == Phase::FetchingPage && page.listings.len() == 0 && page.next_page is None
            ==> c.with_page(Ok(page)).outcome() == Some(
            Ok::<Seq<ArticleView>, FailureView>(c.articles),
        ),
        c.phase == Phase::FetchingListing && c.cursor + 1 == c.listings.len() && c.next_page is None
            ==> c.with_article(Ok(article)).outcome() == Some(
            Ok::<Seq<ArticleView>, FailureView>(c.articles.push(article)),
        ),
{
}

/// A failure ends the crawl at once. Whatever fails, an error of the
/// browser in any phase before the end, a page of results or an
/// advertisement that cannot be read, the crawl has failed with that one
/// failure, and the records gathered before are gone.
pub proof fn lemma_failure_ends_crawl(c: CrawlView, failure: FailureView, detail: Seq<char>)
    ensures
        c.failed(failure).outcome() == Some(Err::<Seq<ArticleView>, FailureView>(failure)),
        c.failed(failure).articles.len() == 0,
        c.phase == Phase::FetchingPage ==> c.with_page(Err(failure)) == c.failed(failure),
        c.phase == Phase::FetchingListing ==> c.with_article(Err(failure)) == c.failed(failure),
        c.phase != Phase::Done && c.phase != Phase::Failed ==> c.next(EventView::Error(detail))
            == c.failed(navigation_failure(c.target(), detail)),
{
}

/// Failure atomicity. A crawl that has failed reports its one failure and
/// holds no record; a crawl that has ended well reports no failure.
pub proof fn lemma_failure_is_atomic(c: CrawlView)
    requires
        c.inv(),
    ensures
        c.phase == Phase::Failed ==> c.articles.len() == 0 && c.outcome() == Some(
            Err::<Seq<ArticleView>, FailureView>(c.failure->0),
        ),
        c.phase == Phase::Done ==> c.failure is None && c.outcome() == Some(
            Ok::<Seq<ArticleView>, FailureView>(c.articles),
        ),
{
}

/// The fields of a crawl, free to pass through states that no crawl rests
/// in while one step is worked out.
struct State {
    scrape: Scrape,
    phase: Phase,
    page_url: String,
    listings: Vec<String>,
    cursor: usize,
    next_page: Option<String>,
    articles: Vec<Article>,
    boundary_hit: bool,
    failure: Option<Failure>,
    pages: Ghost<Seq<Seq<Seq<char>>>>,
}

impl View for State {
    type V = CrawlView;

    closed spec fn view(&self) -> CrawlView {
        CrawlView {
            scrape: self.scrape@,
            phase: self.phase,
            page_url: self.page_url@,
            listings: texts_view(self.listings@),
            cursor: self.cursor as int,
            next_page: text_view(self.next_page),
            articles: articles_view(self.articles@),
            boundary_hit: self.boundary_hit,
            failure: failure_view(self.failure),
            pages: self.pages@,
        }
    }
}

impl State {
    /// The address that the tab is at, or on its way to.
    fn target(&self) -> (r: String)
        requires
            self@.inv(),
        ensures
            r@ == self@.target(),
    {
        match self.phase {
            Phase::Start => self.scrape.url.clone(),
            Phase::VisitingListing | Phase::FetchingListing => self.listings[self.cursor].clone(),
            Phase::Paginating => match &self.next_page {
                Some(link) => resolve(link.as_str()),
                None => self.page_url.clone(),
            },
            _ => self.page_url.clone(),
        }
    }

    /// The action whose outcome the crawl waits for.
    fn action(&self) -> (r: Action)
        requires
            self@.inv(),
        ensures
            r@ == self@.awaited(),
    {
        match self.phase {
            Phase::Start => Action::Open(self.target()),
            Phase::VisitingListing | Phase::Paginating => Action::Goto(self.target()),
            Phase::FetchingPage | Phase::FetchingListing => Action::Fetch,
            Phase::Done => Action::Finish,
            Phase::Failed => Action::Abort,
        }
    }

    /// Ends the crawl with `failure` and drops what was gathered.
    fn fail(&mut self, failure: Failure)
        ensures
            final(self)@ == old(self)@.failed(failure@),
    {
        self.phase = Phase::Failed;
        self.articles = Vec::new();
        self.failure = Some(failure);
        assert(self@.articles =~= Seq::empty());
    }

    /// Makes the choice at the cursor.
    fn advance(&mut self)
        requires
            old(self).cursor <= old(self).listings.len(),
        ensures
            final(self)@ == old(self)@.advanced(),
    {
        if self.cursor < self.listings.len() {
            let stop = match &self.scrape.until {
                Some(boundary) => *boundary == self.listings[self.cursor],
                None => false,
            };
            if stop {
                self.phase = Phase::Done;
                self.boundary_hit = true;
            } else {
                self.phase = Phase::VisitingListing;
            }
        } else if self.next_page.is_some() {
            self.phase = Phase::Paginating;
        } else {
            self.phase = Phase::Done;
        }
    }

    /// Takes in what was read of the current page of results.
    fn read_page(&mut self, outcome: Result<SearchPage, Failure>)
        requires
            old(self)@.inv(),
        ensures
            final(self)@.inv(),
            final(self)@ == old(self)@.with_page(page_outcome_view(outcome)),
    {
        proof {
            lemma_with_page_keeps_inv(self@, page_outcome_view(outcome));
        }
        if self.phase == Phase::FetchingPage {
            match outcome {
                Err(failure) => {
                    self.fail(failure);
                },
                Ok(page) => {
                    self.pages = Ghost(self.pages@.push(page@.listings));
                    self.listings = page.listings;
                    self.cursor = 0;
                    self.next_page = page.next_page;
                    self.advance();
                },
            }
        }
    }

    /// Takes in what was read of the advertisement under the cursor.
    fn read_article(&mut self, outcome: Result<Article, Failure>)
        requires
            old(self)@.inv(),
            old(self)@.phase == Phase::FetchingListing ==> (outcome matches Ok(article)
                ==> article@.url == old(self)@.target()),
        ensures
            final(self)@.inv(),
            final(self)@ == old(self)@.with_article(outcome_view(outcome)),
    {
        proof {
            lemma_with_article_keeps_inv(self@, outcome_view(outcome));
        }
        if self.phase == Phase::FetchingListing {
            match outcome {
                Err(failure) => {
                    self.fail(failure);
                },
                Ok(article) => {
                    assert(self.cursor < self.listings.len());
                    let ghost before = self.articles@;
                    self.articles.push(article);
                    assert(articles_view(self.articles@) =~= articles_view(before).push(article@));
                    self.cursor = self.cursor + 1;
                    self.advance();
                },
            }
        }
    }

    /// Takes in what came of the awaited action.
    fn step(&mut self, event: Event)
        requires
            old(self)@.inv(),
        ensures
            final(self)@.inv(),
            final(self)@ == old(self)@.next(event@),
    {
        proof {
            lemma_next_keeps_inv(self@, event@);
        }
        match self.phase {
            Phase::Done | Phase::Failed => {},
            _ => match event {
                Event::Error(detail) => {
                    let url = self.target();
                    self.fail(Failure::navigation(url, detail));
                },
                Event::Navigated => match self.phase {
                    Phase::Start => {
                        self.phase = Phase::FetchingPage;
                    },
                    Phase::VisitingListing => {
                        self.phase = Phase::FetchingListing;
                    },
                    Phase::Paginating => {
                        self.page_url = self.target();
                        self.phase = Phase::FetchingPage;
                    },
                    _ => {},
                },
                Event::Content(html) => match self.phase {
                    Phase::FetchingPage => {
                        let outcome = SearchPage::parse_from_html(
                            self.page_url.clone(),
                            html.as_str(),
                        );
                        self.read_page(outcome);
                    },
                    Phase::FetchingListing => {
                        let outcome = Article::parse_from_html(self.target(), html);
                        self.read_article(outcome);
                    },
                    _ => {},
                },
            },
        }
    }
}

/// One crawl: the request, where it stands, and what it has gathered.
///
/// A crawl is always in a state that [`CrawlView::inv`] describes.
pub struct Crawl {
    state: State,
}

impl View for Crawl {
    type V = CrawlView;

    closed spec fn view(&self) -> CrawlView {
        self.state@
    }
}

/// The content of what came of releasing the tab.
pub open spec fn released_view(released: Result<(), String>) -> Result<(), Seq<char>> {
    match released {
        Ok(()) => Ok(()),
        Err(detail) => Err(detail@),
    }
}

/// The content of what a crawl has to show.
pub open spec fn crawl_outcome_view(outcome: Option<Result<Vec<Article>, Failure>>) -> Option<
    Result<Seq<ArticleView>, FailureView>,
> {
    match outcome {
        Some(Ok(articles)) => Some(Ok(articles_view(articles@))),
        Some(Err(failure)) => Some(Err(failure@)),
        None => None,
    }
}

impl Crawl {
    #[verifier::type_invariant]
    spec fn valid(&self) -> bool {
        self.state@.inv()
    }

    /// A crawl for `scrape`, about to open its tab.
    pub fn new(scrape: Scrape) -> (r: Crawl)
        ensures
            r@ == CrawlView::initial(scrape@),
            r@.inv(),
    {
        let page_url = scrape.url.clone();
        let state = State {
            scrape,
            phase: Phase::Start,
            page_url,
            listings: Vec::new(),
            cursor: 0,
            next_page: None,
            articles: Vec::new(),
            boundary_hit: false,
            failure: None,
            pages: Ghost(Seq::empty()),
        };
        proof {
            assert(state@.listings =~= Seq::empty());
            assert(state@.articles =~= Seq::empty());
            lemma_run_keeps_inv(scrape@, Seq::empty());
        }
        Crawl { state }
    }

    /// Where the crawl stands.
    pub fn phase(&self) -> (r: Phase)
        ensures
            r == self@.phase,
    {
        self.state.phase
    }

    /// The address of the current page of results.
    pub fn page_url(&self) -> (r: &str)
        ensures
            r@ == self@.page_url,
    {
        self.state.page_url.as_str()
    }

    /// The advertisements that the current page of results lists.
    pub fn listings(&self) -> (r: &Vec<String>)
        ensures
            texts_view(r@) == self@.listings,
    {
        &self.state.listings
    }

    /// The records gathered so far.
    pub fn articles(&self) -> (r: &Vec<Article>)
        ensures
            articles_view(r@) == self@.articles,
    {
        &self.state.articles
    }

    /// Whether the crawl ended at the advertisement named by `until`.
    pub fn boundary_hit(&self) -> (r: bool)
        ensures
            r == self@.boundary_hit,
    {
        self.state.boundary_hit
    }

    /// The action whose outcome the crawl waits for.
    pub fn action(&self) -> (r: Action)
        ensures
            r@ == self@.awaited(),
            self@.inv(),
    {
        proof {
            use_type_invariant(self);
        }
        self.state.action()
    }

    /// The crawl after `event`, which is what came of the awaited action,
    /// and what to do next.
    ///
    /// An error of the browser ends the crawl with a navigation failure for
    /// the address that the tab was at or on its way to. The document of a
    /// page of results is read for its links, the document of an
    /// advertisement for its record; what cannot be read ends the crawl
    /// with a parse failure. An event that does not answer the awaited
    /// action is passed over.
    pub fn step(self, event: Event) -> (r: (Crawl, Action))
        ensures
            r.0@ == self@.next(event@),
            r.0@.inv(),
            r.1@ == r.0@.awaited(),
    {
        proof {
            use_type_invariant(&self);
        }
        let mut state = self.state;
        state.step(event);
        let action = state.action();
        (Crawl { state }, action)
    }

    /// The crawl after the two link queries on the document of the current
    /// page of results were answered as given, and what to do next. This is
    /// the step for that document, from its answers on. Outside
    /// [`Phase::FetchingPage`] nothing changes.
    pub fn accept_links(
        self,
        listing_targets: &Option<Vec<Option<String>>>,
        next_targets: &Option<Vec<Option<String>>>,
    ) -> (r: (Crawl, Action))
        ensures
            r.0@ == self@.with_page(
                search_page_of(
                    self@.page_url,
                    attribute_matches_view(*listing_targets),
                    attribute_matches_view(*next_targets),
                ),
            ),
            r.0@.inv(),
            r.1@ == r.0@.awaited(),
    {
        proof {
            use_type_invariant(&self);
        }
        let mut state = self.state;
        if state.phase == Phase::FetchingPage {
            let outcome = SearchPage::from_links(
                state.page_url.clone(),
                listing_targets,
                next_targets,
            );
            state.read_page(outcome);
        }
        let action = state.action();
        (Crawl { state }, action)
    }

    /// The crawl after the six queries on the document of the advertisement
    /// under the cursor were answered with `found`, and what to do next.
    /// This is the step for that document, from its answers on. Outside
    /// [`Phase::FetchingListing`] nothing changes.
    pub fn accept_matches(self, found: &Matches) -> (r: (Crawl, Action))
        ensures
            r.0@ == self@.with_article(article_of(self@.target(), found@)),
            r.0@.inv(),
            r.1@ == r.0@.awaited(),
    {
        proof {
            use_type_invariant(&self);
        }
        let mut state = self.state;
        if state.phase == Phase::FetchingListing {
            let outcome = Article::from_matches(state.target(), found);
            state.read_article(outcome);
        }
        let action = state.action();
        (Crawl { state }, action)
    }

    /// What the crawl has to show: the records gathered once it is done,
    /// its one failure once it has failed, and nothing before that.
    pub fn into_outcome(self) -> (r: Option<Result<Vec<Article>, Failure>>)
        ensures
            crawl_outcome_view(r) == self@.outcome(),
    {
        proof {
            use_type_invariant(&self);
        }
        match self.state.failure {
            Some(failure) => Some(Err(failure)),
            None => match self.state.phase {
                Phase::Done => Some(Ok(self.state.articles)),
                _ => None,
            },
        }
    }

    /// What the caller is answered once the driver has released the tab,
    /// with `released` as what came of that: the records of a crawl that is
    /// done, unless releasing the tab failed, which is then the crawl's one
    /// failure; the failure of a crawl that has failed; nothing for a crawl
    /// that has not ended.
    pub fn conclude(self, released: Result<(), String>) -> (r: Option<
        Result<Vec<Article>, Failure>,
    >)
        ensures
            crawl_outcome_view(r) == self@.concluded(released_view(released)),
    {
        proof {
            use_type_invariant(&self);
        }
        match self.state.failure {
            Some(failure) => Some(Err(failure)),
            None => match self.state.phase {
                Phase::Done => match released {
                    Ok(()) => Some(Ok(self.state.articles)),
                    Err(detail) => Some(Err(Failure::navigation(self.state.page_url, detail))),
                },
                _ => None,
            },
        }
    }
}

} // verus!
