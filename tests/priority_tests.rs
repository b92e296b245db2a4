//! Source priority on two sample pages whose Open Graph and Schema.org data
//! disagree.

use url2ref::archive::ArchiveState;
use url2ref::attribute::{Attribute, Author, Date, Timestamp};
use url2ref::generator::{create_reference, AttributeConfig, AttributePriority, MetadataType, ServiceOutcomes};
use url2ref::parser::ParseInfo;
use url2ref::reference::Reference;
use url2ref::schema_org::JsonValue;
use url2ref::GenerationOptions;

fn text(s: &str) -> JsonValue {
    JsonValue::Str(s.to_string())
}

fn member(k: &str, v: JsonValue) -> (String, JsonValue) {
    (k.to_string(), v)
}

fn og(pairs: &[(&str, &str)]) -> Vec<(String, String)> {
    pairs.iter().map(|(k, v)| (k.to_string(), v.to_string())).collect()
}

fn page(opengraph: Vec<(String, String)>, schema: JsonValue) -> ParseInfo {
    ParseInfo {
        raw_html: String::from("<html><head></head><body></body></html>"),
        opengraph,
        schema_org: Some(schema),
        bibliography: None,
        citoid: None,
        url: None,
    }
}

/// A news page of Jyllands-Posten, 13 December 2023.
fn jyllands_posten() -> ParseInfo {
    let schema = JsonValue::Object(vec![
        member("@type", text("NewsArticle")),
        member("headline", text("»I år skal jeg for første gang lave kamstegen på grillen«")),
        member("datePublished", text("2023-12-13T05:00:00+01:00")),
        member(
            "author",
            JsonValue::Array(vec![JsonValue::Object(vec![
                member("@type", text("Person")),
                member("name", text("Marie Duedahl")),
            ])]),
        ),
        member(
            "publisher",
            JsonValue::Object(vec![member("@type", text("Organization")), member("name", text("JP/Politikens Hus A/S"))]),
        ),
    ]);
    page(
        og(&[
            ("title", "»I år skal jeg for første gang lave kamstegen på grillen«"),
            ("site_name", "Jyllands-Posten"),
            ("url", "https://jyllands-posten.dk/livsstil/mad/ECE16686543/i-aar-skal-jeg-for-foerste-gang-lave-kamstegen-paa-grillen/"),
        ]),
        schema,
    )
}

/// A news page of The Sun, 14 December 2023.
fn the_sun() -> ParseInfo {
    let schema = JsonValue::Object(vec![
        member("@type", text("NewsArticle")),
        member("headline", text("Christmas lights switched on across the country")),
        member("datePublished", text("2023-12-14T10:30:00Z")),
        member(
            "author",
            JsonValue::Array(vec![JsonValue::Object(vec![
                member("@type", text("Person")),
                member("name", text("Jane Smith")),
            ])]),
        ),
        member("publisher", JsonValue::Object(vec![member("name", text("The Sun"))])),
        member("url", text("https://www.thesun.co.uk/news/christmas-lights/")),
    ]);
    page(
        og(&[
            ("title", "Christmas lights switched on | The Sun"),
            ("site_name", "The Sun UK"),
            ("url", "https://www.thesun.co.uk/news/christmas-lights/?og"),
        ]),
        schema,
    )
}

/// What each source is expected to give for a sample page.
fn expected(sample: &str, source: MetadataType) -> Vec<Attribute> {
    match (sample, source) {
        ("jyllands-posten", MetadataType::OpenGraph) => vec![
            Attribute::Title("»I år skal jeg for første gang lave kamstegen på grillen«".to_string()),
            Attribute::Site("Jyllands-Posten".to_string()),
            Attribute::Url("https://jyllands-posten.dk/livsstil/mad/ECE16686543/i-aar-skal-jeg-for-foerste-gang-lave-kamstegen-paa-grillen/".to_string()),
        ],
        ("jyllands-posten", _) => vec![
            Attribute::Title("»I år skal jeg for første gang lave kamstegen på grillen«".to_string()),
            Attribute::Authors(vec![Author::Generic("Marie Duedahl".to_string())]),
            Attribute::Site("JP/Politikens Hus A/S".to_string()),
            Attribute::Date(Date::DateTime(Timestamp { year: 2023, month: 12, day: 13, hour: 4, minute: 0, second: 0 })),
        ],
        ("the-sun", MetadataType::OpenGraph) => vec![
            Attribute::Title("Christmas lights switched on | The Sun".to_string()),
            Attribute::Site("The Sun UK".to_string()),
            Attribute::Url("https://www.thesun.co.uk/news/christmas-lights/?og".to_string()),
        ],
        _ => vec![
            Attribute::Title("Christmas lights switched on across the country".to_string()),
            Attribute::Authors(vec![Author::Generic("Jane Smith".to_string())]),
            Attribute::Site("The Sun".to_string()),
            Attribute::Url("https://www.thesun.co.uk/news/christmas-lights/".to_string()),
            Attribute::Date(Date::DateTime(Timestamp { year: 2023, month: 12, day: 14, hour: 10, minute: 30, second: 0 })),
        ],
    }
}

fn generate(info: &ParseInfo, order: Vec<MetadataType>) -> Reference {
    let options = GenerationOptions {
        attribute_config: AttributeConfig::new(AttributePriority { priority: order }),
        ..Default::default()
    };
    let outcomes = ServiceOutcomes { translated_title: None, ai_metadata: None, archive: ArchiveState::Idle };
    create_reference(info, &options, &outcomes)
}

fn compare(actual: &Option<Attribute>, expected: &Attribute) {
    assert!(actual.is_some());
    assert_eq!(actual.clone().unwrap(), expected.clone());
}

fn compared_attributes_with_expected(info: &ParseInfo, expected_attributes: &Vec<Attribute>, order: Vec<MetadataType>) {
    let reference = generate(info, order);
    assert!(matches!(reference, Reference::NewsArticle { .. }));
    if let Reference::NewsArticle { title, author, date, language, site, url, .. } = reference {
        for attribute in expected_attributes {
            match attribute {
                Attribute::Title(_) => compare(&title, attribute),
                Attribute::Authors(_) => {
                    assert!(author.is_some());
                    let generic: Vec<Author> = match author.clone().unwrap() {
                        Attribute::Authors(list) => list
                            .iter()
                            .map(|a| match a {
                                Author::Person(s) | Author::Organization(s) | Author::Generic(s) => Author::Generic(s.clone()),
                            })
                            .collect(),
                        _ => panic!("author field holds no authors"),
                    };
                    assert_eq!(Attribute::Authors(generic), attribute.clone());
                }
                Attribute::Date(_) => compare(&date, attribute),
                Attribute::Language(_) => compare(&language, attribute),
                Attribute::Site(_) => compare(&site, attribute),
                Attribute::Url(_) => compare(&url, attribute),
                _ => panic!("Non-viable test attribute used"),
            }
        }
    }
}

fn check(info: &ParseInfo, sample: &str, order: Vec<MetadataType>) {
    let priority_type = order[0];
    let expected_results = expected(sample, priority_type);
    compared_attributes_with_expected(info, &expected_results, order);
}

#[test]
fn test_priority_opengraph_over_schema_case2() {
    check(&jyllands_posten(), "jyllands-posten", vec![MetadataType::OpenGraph, MetadataType::SchemaOrg]);
}

#[test]
fn test_priority_schema_over_opengraph_case2() {
    check(&jyllands_posten(), "jyllands-posten", vec![MetadataType::SchemaOrg, MetadataType::OpenGraph]);
}

#[test]
fn test_priority_opengraph_over_schema_case7() {
    check(&the_sun(), "the-sun", vec![MetadataType::OpenGraph, MetadataType::SchemaOrg]);
}

#[test]
fn test_priority_schema_over_opengraph_case7() {
    check(&the_sun(), "the-sun", vec![MetadataType::SchemaOrg, MetadataType::OpenGraph]);
}

/// Every sample page against the expected values of each single source.
#[test]
fn test_suite_test_all() {
    let samples = [("jyllands-posten", jyllands_posten()), ("the-sun", the_sun())];
    for (name, info) in samples.iter() {
        for source in [MetadataType::OpenGraph, MetadataType::SchemaOrg] {
            let expected_attributes = expected(name, source);
            compared_attributes_with_expected(info, &expected_attributes, vec![source]);
        }
    }
}

/// Every sample page against each single source, the HTML meta tags included.
#[test]
fn test_all() {
    let samples = [("jyllands-posten", jyllands_posten()), ("the-sun", the_sun())];
    for (name, info) in samples.iter() {
        for source in [MetadataType::OpenGraph, MetadataType::SchemaOrg, MetadataType::HtmlMeta, MetadataType::Doi, MetadataType::Zotero] {
            let expected_attributes = match source {
                MetadataType::OpenGraph | MetadataType::SchemaOrg => expected(name, source),
                _ => Vec::new(),
            };
            compared_attributes_with_expected(info, &expected_attributes, vec![source]);
        }
    }
}

#[test]
fn opengraph_title_wins_when_listed_first() {
    let info = page(og(&[("title", "X")]), JsonValue::Object(vec![member("headline", text("Y"))]));
    let first = generate(&info, vec![MetadataType::OpenGraph, MetadataType::SchemaOrg]);
    let second = generate(&info, vec![MetadataType::SchemaOrg, MetadataType::OpenGraph]);
    match (first, second) {
        (Reference::NewsArticle { title: a, .. }, Reference::NewsArticle { title: b, .. }) => {
            assert_eq!(a, Some(Attribute::Title("X".to_string())));
            assert_eq!(b, Some(Attribute::Title("Y".to_string())));
        }
        _ => panic!("expected news articles"),
    }
}

#[test]
fn later_source_fills_what_the_first_lacks() {
    let info = page(og(&[("site_name", "Site")]), JsonValue::Object(vec![member("headline", text("Y"))]));
    match generate(&info, vec![MetadataType::OpenGraph, MetadataType::SchemaOrg]) {
        Reference::NewsArticle { title, site, .. } => {
            assert_eq!(title, Some(Attribute::Title("Y".to_string())));
            assert_eq!(site, Some(Attribute::Site("Site".to_string())));
        }
        _ => panic!("expected a news article"),
    }
}

#[test]
fn blank_opengraph_value_is_skipped() {
    let info = page(og(&[("title", "")]), JsonValue::Object(vec![member("headline", text("Y"))]));
    match generate(&info, vec![MetadataType::OpenGraph, MetadataType::SchemaOrg]) {
        Reference::NewsArticle { title, .. } => assert_eq!(title, Some(Attribute::Title("Y".to_string()))),
        _ => panic!("expected a news article"),
    }
}
