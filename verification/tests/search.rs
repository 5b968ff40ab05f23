use listing_crawler::failure::{Failure, FailureKind};
use listing_crawler::search::{resolve, SearchPage, SITE_ORIGIN};

const URL: &str = "https://www.ebay-kleinanzeigen.de/s-fahrraeder/k0";

fn page(body: &str) -> String {
    format!("<!DOCTYPE html><html><head></head><body>{}</body></html>", body)
}

fn parse(body: &str) -> Result<SearchPage, Failure> {
    SearchPage::parse_from_html(URL.to_string(), &page(body))
}

#[test]
fn origin_is_prefixed() {
    assert_eq!(SITE_ORIGIN, "https://www.ebay-kleinanzeigen.de");
    assert_eq!(resolve("/s-anzeige/1"), "https://www.ebay-kleinanzeigen.de/s-anzeige/1");
    assert_eq!(resolve(""), "https://www.ebay-kleinanzeigen.de");
}

#[test]
fn listings_come_in_document_order_with_the_origin_in_front() {
    let found = parse(
        r#"<ul>
          <li><a class="ellipsis" href="/s-anzeige/b/2">B</a></li>
          <li><a class="ellipsis" href="/s-anzeige/a/1">A</a></li>
          <li><a class="other" href="/s-anzeige/x/9">X</a></li>
          <li><a class="ellipsis big" href="/s-anzeige/c/3">C</a></li>
        </ul>
        <a class="pagination-next" href="/s-fahrraeder/seite:2/k0">next</a>"#,
    )
    .unwrap();
    assert_eq!(
        found.listings,
        vec![
            "https://www.ebay-kleinanzeigen.de/s-anzeige/b/2".to_string(),
            "https://www.ebay-kleinanzeigen.de/s-anzeige/a/1".to_string(),
            "https://www.ebay-kleinanzeigen.de/s-anzeige/c/3".to_string(),
        ]
    );
    assert_eq!(found.next_page, Some("/s-fahrraeder/seite:2/k0".to_string()));
}

#[test]
fn page_without_next_link_is_the_last() {
    let found = parse(r#"<a class="ellipsis" href="/s-anzeige/a/1">A</a>"#).unwrap();
    assert_eq!(found.listings.len(), 1);
    assert_eq!(found.next_page, None);
}

#[test]
fn empty_page_is_valid() {
    let found = parse("<p>nothing found</p>").unwrap();
    assert_eq!(found, SearchPage { listings: Vec::new(), next_page: None });
}

#[test]
fn anchors_without_target_are_passed_over() {
    let found = parse(
        r#"<a class="ellipsis">no target</a>
           <a class="ellipsis" href="/s-anzeige/a/1">A</a>
           <a class="pagination-next">no target</a>
           <a class="pagination-next" href="/later">later</a>"#,
    )
    .unwrap();
    assert_eq!(found.listings, vec!["https://www.ebay-kleinanzeigen.de/s-anzeige/a/1".to_string()]);
    assert_eq!(found.next_page, None);
}

#[test]
fn first_of_several_next_links_counts() {
    let found = parse(
        r#"<a class="pagination-next" href="/two">2</a><a class="pagination-next" href="/three">3</a>"#,
    )
    .unwrap();
    assert_eq!(found.next_page, Some("/two".to_string()));
}

#[test]
fn page_from_given_links() {
    let listings = Some(vec![Some("/a".to_string()), None, Some("/b".to_string())]);
    let next = Some(vec![Some("/p2".to_string()), Some("/p3".to_string())]);
    assert_eq!(
        SearchPage::from_links(URL.to_string(), &listings, &next),
        Ok(SearchPage {
            listings: vec![
                "https://www.ebay-kleinanzeigen.de/a".to_string(),
                "https://www.ebay-kleinanzeigen.de/b".to_string(),
            ],
            next_page: Some("/p2".to_string()),
        })
    );
    assert_eq!(
        SearchPage::from_links(URL.to_string(), &Some(Vec::new()), &Some(vec![None])),
        Ok(SearchPage { listings: Vec::new(), next_page: None })
    );
}

#[test]
fn rejected_selector_is_a_parse_failure() {
    let some = Some(vec![Some("/a".to_string())]);
    assert_eq!(
        SearchPage::from_links(URL.to_string(), &None, &some),
        Err(Failure { kind: FailureKind::Parse, url: URL.to_string(), detail: "listings".to_string() })
    );
    assert_eq!(
        SearchPage::from_links(URL.to_string(), &some, &None),
        Err(Failure { kind: FailureKind::Parse, url: URL.to_string(), detail: "next page".to_string() })
    );
    assert_eq!(
        SearchPage::from_links(URL.to_string(), &None, &None).unwrap_err().detail,
        "listings"
    );
}
