use listing_crawler::article::{read_details, Article, Matches};
use listing_crawler::failure::{Failure, FailureKind, Field};
use listing_crawler::markup::{read_present, Element};

const URL: &str = "https://www.ebay-kleinanzeigen.de/s-anzeige/bike/1";

const TITLE: &str =
    r#"<h1 class="boxedarticle--title"><span class="hidden">Reserviert</span> Mountain bike </h1>"#;
const PRICE: &str = r#"<h2 id="viewad-price"> 120 € VB <span>x</span></h2>"#;
const LOCATION: &str = r#"<span id="viewad-locality"> 10115 Berlin - Mitte </span>"#;
const DESCRIPTION: &str =
    r#"<p id="viewad-description-text"> Well kept.<br>Pick-up <b>only</b>. </p>"#;
const DETAILS: &str = r#"<ul>
  <li class="addetailslist--detail"> Type <span class="addetailslist--detail--value"> Men </span></li>
  <li class="addetailslist--detail">Colour<span> Red </span><span>extra</span></li>
  <li class="addetailslist--detail">Lonely</li>
</ul>"#;
const IMAGES: &str = r#"
<div class="galleryimage-element"><img id="viewad-image" src="https://img.example/1.jpg"></div>
<div class="galleryimage-element"><img id="viewad-image"></div>
<div class="galleryimage-element"><img id="viewad-image" src="https://img.example/2.jpg"></div>
<div class="other"><img id="viewad-image" src="https://img.example/not-in-gallery.jpg"></div>"#;

fn page(parts: &[&str]) -> String {
    format!(
        "<!DOCTYPE html><html><head><title>t</title></head><body>{}</body></html>",
        parts.concat()
    )
}

fn full() -> String {
    page(&[TITLE, PRICE, LOCATION, DESCRIPTION, DETAILS, IMAGES])
}

fn parse(html: String) -> Result<Article, Failure> {
    Article::parse_from_html(URL.to_string(), html)
}

fn parse_failure(field: &str) -> Failure {
    Failure { kind: FailureKind::Parse, url: URL.to_string(), detail: field.to_string() }
}

fn text_element(first: Option<&str>, last: Option<&str>, fragments: &[&str]) -> Element {
    Element {
        first_text: first.map(|t| t.to_string()),
        last_text: last.map(|t| t.to_string()),
        fragments: fragments.iter().map(|t| t.to_string()).collect(),
    }
}

fn given_matches() -> Matches {
    Matches {
        title: Some(vec![text_element(None, Some(" Bike "), &["Reserviert", " Bike "])]),
        price: Some(vec![text_element(Some(" 5 € "), None, &[" 5 € ", "VB"])]),
        location: Some(vec![text_element(Some("Berlin"), Some("Berlin"), &["Berlin"])]),
        description: Some(vec![text_element(Some(" a"), Some("c "), &[" a", "b", "c "])]),
        images: Some(vec![Some("one.jpg".to_string()), None, Some("two.jpg".to_string())]),
        details: Some(vec![
            text_element(None, None, &[" k1 ", " v1 ", "more"]),
            text_element(None, None, &["alone"]),
            text_element(None, None, &[]),
            text_element(None, None, &["k2", "v2"]),
        ]),
    }
}

#[test]
fn full_article_is_extracted() {
    let article = parse(full()).unwrap();
    assert_eq!(article.url, URL);
    assert_eq!(article.title, "Mountain bike");
    assert_eq!(article.price, "120 € VB");
    assert_eq!(article.location, "10115 Berlin - Mitte");
    assert_eq!(article.description, "Well kept.Pick-up only.");
    assert_eq!(
        article.details,
        vec![
            ("Type".to_string(), "Men".to_string()),
            ("Colour".to_string(), "Red".to_string()),
        ]
    );
    assert_eq!(
        article.images,
        vec!["https://img.example/1.jpg".to_string(), "https://img.example/2.jpg".to_string()]
    );
}

#[test]
fn extraction_is_deterministic() {
    let first = parse(full());
    let second = parse(full());
    assert!(first.is_ok());
    assert_eq!(first, second);
    let broken = page(&[TITLE, LOCATION]);
    assert_eq!(parse(broken.clone()), parse(broken));
}

#[test]
fn missing_price_is_a_parse_failure_naming_price_and_url() {
    let failure = parse(page(&[TITLE, LOCATION, DESCRIPTION, DETAILS, IMAGES])).unwrap_err();
    assert_eq!(failure, parse_failure("price"));
    assert_eq!(failure.message(), format!("parse failure at {}: price", URL));
}

#[test]
fn each_required_field_is_required() {
    assert_eq!(parse(page(&[PRICE, LOCATION, DESCRIPTION])), Err(parse_failure("title")));
    assert_eq!(parse(page(&[TITLE, LOCATION, DESCRIPTION])), Err(parse_failure("price")));
    assert_eq!(parse(page(&[TITLE, PRICE, DESCRIPTION])), Err(parse_failure("location")));
    assert_eq!(parse(page(&[TITLE, PRICE, LOCATION])), Err(parse_failure("description")));
}

#[test]
fn first_unresolved_field_is_reported() {
    assert_eq!(parse(page(&[])), Err(parse_failure("title")));
    assert_eq!(parse(page(&[TITLE])), Err(parse_failure("price")));
    assert_eq!(parse(page(&[TITLE, DESCRIPTION])), Err(parse_failure("price")));
    assert_eq!(parse(page(&[TITLE, PRICE])), Err(parse_failure("location")));
}

#[test]
fn several_matches_of_a_required_field_are_a_failure() {
    assert_eq!(
        parse(page(&[TITLE, TITLE, PRICE, LOCATION, DESCRIPTION])),
        Err(parse_failure("title"))
    );
    let other_description = r#"<p id="viewad-description-text">again</p>"#;
    assert_eq!(
        parse(page(&[TITLE, PRICE, LOCATION, DESCRIPTION, other_description])),
        Err(parse_failure("description"))
    );
}

#[test]
fn field_without_readable_text_is_a_failure() {
    let price_behind_element = r#"<h2 id="viewad-price"><span>120</span> €</h2>"#;
    assert_eq!(
        parse(page(&[TITLE, price_behind_element, LOCATION, DESCRIPTION])),
        Err(parse_failure("price"))
    );
    let empty_location = r#"<span id="viewad-locality"></span>"#;
    assert_eq!(
        parse(page(&[TITLE, PRICE, empty_location, DESCRIPTION])),
        Err(parse_failure("location"))
    );
    let title_before_element = r#"<h1 class="boxedarticle--title">Bike <span>sold</span></h1>"#;
    assert_eq!(
        parse(page(&[title_before_element, PRICE, LOCATION, DESCRIPTION])),
        Err(parse_failure("title"))
    );
}

#[test]
fn title_is_read_from_the_last_child_and_price_from_the_first() {
    let title = r#"<h1 class="boxedarticle--title">ignored<i>x</i> Kept </h1>"#;
    let price = r#"<h2 id="viewad-price"> Kept too <i>x</i>ignored</h2>"#;
    let article = parse(page(&[title, price, LOCATION, DESCRIPTION])).unwrap();
    assert_eq!(article.title, "Kept");
    assert_eq!(article.price, "Kept too");
}

#[test]
fn images_and_details_may_be_absent() {
    let article = parse(page(&[TITLE, PRICE, LOCATION, DESCRIPTION])).unwrap();
    assert_eq!(article.images, Vec::<String>::new());
    assert_eq!(article.details, Vec::<(String, String)>::new());
}

#[test]
fn description_without_text_is_empty() {
    let description = r#"<p id="viewad-description-text"><br></p>"#;
    let article = parse(page(&[TITLE, PRICE, LOCATION, description])).unwrap();
    assert_eq!(article.description, "");
}

#[test]
fn detail_with_three_fragments_gives_the_first_two_and_one_fragment_gives_nothing() {
    let rows = r#"<ul>
      <li class="addetailslist--detail">one<span>two</span><span>three</span></li>
      <li class="addetailslist--detail">single</li>
    </ul>"#;
    let article = parse(page(&[TITLE, PRICE, LOCATION, DESCRIPTION, rows])).unwrap();
    assert_eq!(article.details, vec![("one".to_string(), "two".to_string())]);
}

#[test]
fn duplicate_detail_labels_coexist_in_document_order() {
    let rows = r#"<ul>
      <li class="addetailslist--detail">Size<span>M</span></li>
      <li class="addetailslist--detail">Colour<span>Red</span></li>
      <li class="addetailslist--detail">Size<span>L</span></li>
    </ul>"#;
    let article = parse(page(&[TITLE, PRICE, LOCATION, DESCRIPTION, rows])).unwrap();
    assert_eq!(
        article.details,
        vec![
            ("Size".to_string(), "M".to_string()),
            ("Colour".to_string(), "Red".to_string()),
            ("Size".to_string(), "L".to_string()),
        ]
    );
}

#[test]
fn matches_are_found_by_the_selector_engine() {
    let found = Matches::find(&full());
    assert_eq!(
        found.title,
        Some(vec![text_element(None, Some(" Mountain bike "), &["Reserviert", " Mountain bike "])])
    );
    assert_eq!(found.price, Some(vec![text_element(Some(" 120 € VB "), None, &[" 120 € VB ", "x"])]));
    assert_eq!(
        found.images,
        Some(vec![
            Some("https://img.example/1.jpg".to_string()),
            None,
            Some("https://img.example/2.jpg".to_string()),
        ])
    );
    assert_eq!(found.details.map(|rows| rows.len()), Some(3));
    assert_eq!(Matches::find(&page(&[])).title, Some(Vec::new()));
}

#[test]
fn record_from_given_matches() {
    let article = Article::from_matches(URL.to_string(), &given_matches()).unwrap();
    assert_eq!(
        article,
        Article {
            url: URL.to_string(),
            title: "Bike".to_string(),
            location: "Berlin".to_string(),
            price: "5 €".to_string(),
            description: "abc".to_string(),
            details: vec![
                ("k1".to_string(), "v1".to_string()),
                ("k2".to_string(), "v2".to_string()),
            ],
            images: vec!["one.jpg".to_string(), "two.jpg".to_string()],
        }
    );
}

#[test]
fn failure_from_given_matches() {
    let mut found = given_matches();
    found.price = Some(Vec::new());
    assert_eq!(Article::from_matches(URL.to_string(), &found), Err(parse_failure("price")));

    let mut found = given_matches();
    found.location = Some(vec![text_element(None, Some("Berlin"), &["Berlin"])]);
    assert_eq!(Article::from_matches(URL.to_string(), &found), Err(parse_failure("location")));

    let mut found = given_matches();
    let twice = found.description.clone().unwrap()[0].clone();
    found.description = Some(vec![twice.clone(), twice]);
    assert_eq!(Article::from_matches(URL.to_string(), &found), Err(parse_failure("description")));

    let mut found = given_matches();
    found.title = None;
    assert_eq!(Article::from_matches(URL.to_string(), &found), Err(parse_failure("title")));
}

#[test]
fn rejected_selector_of_an_optional_field_is_a_failure() {
    let mut found = given_matches();
    found.images = None;
    assert_eq!(Article::from_matches(URL.to_string(), &found), Err(parse_failure("images")));
    let mut found = given_matches();
    found.details = None;
    assert_eq!(Article::from_matches(URL.to_string(), &found), Err(parse_failure("details")));
    let mut found = given_matches();
    found.images = None;
    found.details = None;
    assert_eq!(
        Article::from_matches(URL.to_string(), &found).unwrap_err().detail,
        Field::Images.name()
    );
}

#[test]
fn details_are_read_from_rows() {
    let rows = vec![
        text_element(None, None, &["\n Art \n", "\n Herren \n", "x", "y"]),
        text_element(None, None, &["only"]),
        text_element(None, None, &["", " "]),
    ];
    assert_eq!(
        read_details(&rows),
        vec![("Art".to_string(), "Herren".to_string()), (String::new(), String::new())]
    );
    assert_eq!(read_details(&Vec::new()), Vec::<(String, String)>::new());
}

#[test]
fn present_values_are_kept_in_order() {
    let values = vec![None, Some("a".to_string()), None, Some("b".to_string()), Some("a".to_string())];
    assert_eq!(read_present(&values), vec!["a".to_string(), "b".to_string(), "a".to_string()]);
    assert_eq!(read_present(&vec![None, None]), Vec::<String>::new());
}
