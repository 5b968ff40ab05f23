use listing_crawler::failure::{Failure, FailureKind, Field};

#[test]
fn field_names() {
    assert_eq!(Field::Title.name(), "title");
    assert_eq!(Field::Price.name(), "price");
    assert_eq!(Field::Location.name(), "location");
    assert_eq!(Field::Description.name(), "description");
    assert_eq!(Field::Images.name(), "images");
    assert_eq!(Field::Details.name(), "details");
    assert_eq!(Field::Listings.name(), "listings");
    assert_eq!(Field::NextPage.name(), "next page");
}

#[test]
fn parse_failure_names_url_and_field() {
    let failure = Failure::parse("https://example/ad/7".to_string(), Field::Price);
    assert_eq!(failure.kind, FailureKind::Parse);
    assert_eq!(failure.url, "https://example/ad/7");
    assert_eq!(failure.detail, "price");
    assert_eq!(failure.message(), "parse failure at https://example/ad/7: price");
}

#[test]
fn navigation_failure_names_url_and_detail() {
    let failure =
        Failure::navigation("https://example/search".to_string(), "net::ERR_TIMED_OUT".to_string());
    assert_eq!(failure.kind, FailureKind::Navigation);
    assert_eq!(failure.url, "https://example/search");
    assert_eq!(failure.detail, "net::ERR_TIMED_OUT");
    assert_eq!(failure.message(), "navigation failure at https://example/search: net::ERR_TIMED_OUT");
}

#[test]
fn page_not_found_and_timeout_are_both_navigation_failures() {
    let missing = Failure::navigation("https://example/a".to_string(), "404".to_string());
    let timeout = Failure::navigation("https://example/a".to_string(), "timeout".to_string());
    assert_eq!(missing.kind, timeout.kind);
    assert_ne!(missing, timeout);
}

#[test]
fn message_with_empty_parts() {
    let failure = Failure::navigation(String::new(), String::new());
    assert_eq!(failure.message(), "navigation failure at : ");
}
