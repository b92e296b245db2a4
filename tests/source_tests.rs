//! The metadata sources and the date readers they use.

use url2ref::ai_extractor::{extract_metadata, get_attribute_from_ai, AiExtractedMetadata, AiExtractionError, AiExtractionOptions, AiProvider, SYSTEM_PROMPT};
use url2ref::attribute::{Attribute, AttributeType, Author, CalendarDate, Date, Timestamp};
use url2ref::datetime::{parse_ai_date, parse_date, parse_zotero_date};
use url2ref::doi::{doi_regex_match, doi_request_url, BibDate, BibDateParts, BibEntry, BibPerson, Doi, DoiError};
use url2ref::html_meta::HtmlMeta;
use url2ref::opengraph::OpenGraph;
use url2ref::parser::{AttributeCollection, ParseInfo};
use url2ref::generator::AttributeConfig;
use url2ref::zotero::{citoid_request_url, should_skip_zotero, Zotero, ZoteroCreator, ZoteroResult};
use url2ref::zotero::{is_blacklisted, title_is_usable, ZoteroCache};
use url2ref::html_meta::clean_byline;

fn empty_page(raw_html: &str) -> ParseInfo {
    ParseInfo {
        raw_html: raw_html.to_string(),
        opengraph: Vec::new(),
        schema_org: None,
        bibliography: None,
        citoid: None,
        url: None,
    }
}

fn record(title: Option<&str>) -> ZoteroResult {
    ZoteroResult {
        item_type: Some("newspaperArticle".to_string()),
        title: title.map(|t| t.to_string()),
        creators: Some(vec![
            ZoteroCreator {
                creator_type: Some("author".to_string()),
                first_name: Some(" John ".to_string()),
                last_name: Some("Smith".to_string()),
                name: None,
            },
            ZoteroCreator {
                creator_type: Some("editor".to_string()),
                first_name: Some("Ed".to_string()),
                last_name: Some("Itor".to_string()),
                name: None,
            },
        ]),
        date: Some("2024-01".to_string()),
        publication_title: None,
        book_title: None,
        website_title: Some("The Site".to_string()),
        doi: None,
        url: Some("https://e.x/a".to_string()),
        language: Some("en".to_string()),
        publisher: None,
        place: None,
        volume: None,
        issue: None,
        pages: None,
        isbn: None,
        issn: None,
        abstract_note: None,
        extra: Some("PMID: 12345678\nADS Bibcode: 2020ApJ...1A".to_string()),
        university: Some("Uni".to_string()),
        thesis_type: None,
    }
}

fn bib_entry(date: BibDate) -> BibEntry {
    BibEntry {
        title: Some("The Structure of Ordinary Water".to_string()),
        authors: Some(vec![BibPerson { given_name: "Henry S.".to_string(), name: "Frank".to_string() }]),
        date: Some(date),
        url: Some("http://dx.doi.org/10.1126/science.169.3946.635".to_string()),
        entry_type: Some("article".to_string()),
        journal: Some("Science".to_string()),
        volume: Some("169".to_string()),
        language: None,
        publisher: Some("AAAS".to_string()),
    }
}

#[test]
fn test_creator_to_author() {
    let creator = ZoteroCreator {
        creator_type: Some("author".to_string()),
        first_name: Some("John".to_string()),
        last_name: Some("Smith".to_string()),
        name: None,
    };
    assert!(matches!(creator.to_author(), Some(Author::Person(_))));

    let org = ZoteroCreator {
        creator_type: Some("author".to_string()),
        first_name: None,
        last_name: None,
        name: Some("Associated Press".to_string()),
    };
    assert!(matches!(org.to_author(), Some(Author::Organization(_))));
}

#[test]
fn test_should_skip_zotero() {
    assert!(should_skip_zotero("https://twitter.com/user/status/123"));
    assert!(should_skip_zotero("https://www.facebook.com/page"));
    assert!(!should_skip_zotero("https://www.nytimes.com/article"));
}

#[test]
fn skip_check_ignores_case() {
    assert!(should_skip_zotero("https://WWW.YouTube.COM/watch?v=1"));
}

#[test]
fn test_parse_zotero_date() {
    assert!(matches!(parse_zotero_date("2024-01-15"), Some(Date::YearMonthDay(_))));
    assert!(matches!(parse_zotero_date("2024"), Some(Date::Year(2024))));
    assert!(matches!(parse_zotero_date("2024-01"), Some(Date::YearMonth { year: 2024, month: 1 })));
}

#[test]
fn zotero_date_forms() {
    assert_eq!(parse_zotero_date(" January 15, 2024 "), Some(Date::YearMonthDay(CalendarDate { year: 2024, month: 1, day: 15 })));
    assert_eq!(parse_zotero_date("15/01/2024"), None);
    assert_eq!(parse_zotero_date("999"), None);
    assert_eq!(
        parse_zotero_date("2024-01-15T10:00:00Z"),
        Some(Date::DateTime(Timestamp { year: 2024, month: 1, day: 15, hour: 10, minute: 0, second: 0 }))
    );
}

#[test]
fn test_parse_ai_date() {
    assert!(parse_ai_date("2024-01-15").is_some());
    assert!(parse_ai_date("2024-01").is_some());
    assert!(parse_ai_date("2024").is_some());
    assert!(parse_ai_date("invalid").is_none());
}

#[test]
fn ai_date_values() {
    assert_eq!(parse_ai_date("2024-01"), Some(Date::YearMonth { year: 2024, month: 1 }));
    assert_eq!(parse_ai_date("2024"), Some(Date::Year(2024)));
    assert_eq!(parse_ai_date("2024-1-"), None);
}

#[test]
fn rfc3339_is_read_as_utc() {
    assert_eq!(
        parse_date("2023-12-13T05:00:00+01:00"),
        Some(Date::DateTime(Timestamp { year: 2023, month: 12, day: 13, hour: 4, minute: 0, second: 0 }))
    );
    assert_eq!(parse_date("2023-12-13"), None);
}

#[test]
fn citoid_record_fields() {
    let r = record(Some("A real title"));
    assert!(r.is_valid());
    assert_eq!(r.get_authors(), vec![Author::Person("John Smith".to_string())]);
    assert_eq!(r.get_site_name(), Some("The Site".to_string()));
    assert_eq!(r.get_pmid(), Some("12345678".to_string()));
    assert_eq!(r.get_bibcode(), Some("2020ApJ...1A".to_string()));
    assert_eq!(
        Zotero::parse_from_result(&r, AttributeType::Date),
        Some(Attribute::Date(Date::YearMonth { year: 2024, month: 1 }))
    );
    assert_eq!(Zotero::parse_from_result(&r, AttributeType::Publisher), Some(Attribute::Publisher("Uni".to_string())));
    assert_eq!(Zotero::parse_from_result(&r, AttributeType::Journal), None);
}

#[test]
fn citoid_404_contributes_nothing() {
    for bad in [Some("404"), Some("Not Found: page"), Some("ERROR"), Some(""), None] {
        let r = record(bad);
        assert!(!r.is_valid());
        let mut info = empty_page("");
        info.citoid = Some(r);
        for t in [AttributeType::Title, AttributeType::Author, AttributeType::Date, AttributeType::Site, AttributeType::Url, AttributeType::Language] {
            assert_eq!(Zotero::parse_attribute(&info, t), None);
        }
    }
}

#[test]
fn citoid_request_address() {
    assert_eq!(
        citoid_request_url("https://e.x/a b"),
        "https://en.wikipedia.org/api/rest_v1/data/citation/zotero/https%3A%2F%2Fe.x%2Fa%20b"
    );
}

#[test]
fn doi_match_regex_doi() {
    let text = r#"https://doi.org/10.48550/arXiv.1712.01815"#;
    let result_option = doi_regex_match(text);
    assert!(result_option.is_ok());
    let result = result_option.unwrap();
    let expected = r#"10.48550/arXiv.1712.01815"#;
    assert_eq!(result, expected);
}

#[test]
fn doi_missing_is_an_error() {
    assert_eq!(doi_regex_match("no identifier here"), Err(DoiError::DoiNotInHtmlError));
    assert_eq!(doi_request_url("10.1126/science.169.3946.635"), "https://doi.org/10.1126/science.169.3946.635");
}

#[test]
fn bibtex_entry_fields() {
    let date = BibDate { value: Some(BibDateParts { year: 1970, month: Some(7), day: Some(14) }), approximate: false, uncertain: false };
    let mut info = empty_page("");
    info.bibliography = Some(bib_entry(date));
    assert_eq!(
        Doi::parse_attribute(&info, AttributeType::Author),
        Some(Attribute::Authors(vec![Author::Person("Henry S. Frank".to_string())]))
    );
    assert_eq!(
        Doi::parse_attribute(&info, AttributeType::Date),
        Some(Attribute::Date(Date::YearMonthDay(CalendarDate { year: 1970, month: 8, day: 15 })))
    );
    assert_eq!(Doi::parse_attribute(&info, AttributeType::Journal), Some(Attribute::Journal("Science".to_string())));
    assert_eq!(Doi::parse_attribute(&info, AttributeType::Site), None);
}

#[test]
fn bibtex_approximate_date_is_absent() {
    let date = BibDate { value: Some(BibDateParts { year: 1970, month: Some(7), day: None }), approximate: true, uncertain: false };
    let mut info = empty_page("");
    info.bibliography = Some(bib_entry(date));
    assert_eq!(Doi::parse_attribute(&info, AttributeType::Date), None);
    let uncertain = BibDate { value: Some(BibDateParts { year: 1970, month: None, day: None }), approximate: false, uncertain: true };
    info.bibliography = Some(bib_entry(uncertain));
    assert_eq!(Doi::parse_attribute(&info, AttributeType::Date), None);
    let month = BibDate { value: Some(BibDateParts { year: 1970, month: Some(7), day: None }), approximate: false, uncertain: false };
    info.bibliography = Some(bib_entry(month));
    assert_eq!(Doi::parse_attribute(&info, AttributeType::Date), Some(Attribute::Date(Date::YearMonth { year: 1970, month: 8 })));
}

#[test]
fn html_meta_tags_and_fallbacks() {
    let html = r#"<html><head>
        <meta name="author" content="  ">
        <meta property="author" content="Jane Doe">
        <meta name="publisher" content="Pub House">
        </head><body>
        <time datetime="2023-05-01">May 1</time>
        </body></html>"#;
    let info = empty_page(html);
    assert_eq!(
        HtmlMeta::parse_attribute(&info, AttributeType::Author),
        Some(Attribute::Authors(vec![Author::Generic("Jane Doe".to_string())]))
    );
    assert_eq!(HtmlMeta::parse_attribute(&info, AttributeType::Publisher), Some(Attribute::Publisher("Pub House".to_string())));
    assert_eq!(
        HtmlMeta::parse_attribute(&info, AttributeType::Date),
        Some(Attribute::Date(Date::YearMonthDay(CalendarDate { year: 2023, month: 5, day: 1 })))
    );
    assert_eq!(HtmlMeta::parse_attribute(&info, AttributeType::Title), None);
}

#[test]
fn html_bylines_are_cleaned() {
    let html = r#"<html><body><span class="byline">  By John Smith </span><span class="byline">Af Marie Duedahl</span></body></html>"#;
    let info = empty_page(html);
    assert_eq!(
        HtmlMeta::parse_attribute(&info, AttributeType::Author),
        Some(Attribute::Authors(vec![Author::Generic("John Smith".to_string()), Author::Generic("Marie Duedahl".to_string())]))
    );
}

#[test]
fn opengraph_author_and_date() {
    let mut info = empty_page("");
    info.opengraph = vec![
        ("article:author".to_string(), "Søren Astrup".to_string()),
        ("article:modified_time".to_string(), "2023-12-11T08:00:00Z".to_string()),
    ];
    assert_eq!(
        OpenGraph::parse_attribute(&info, AttributeType::Author),
        Some(Attribute::Authors(vec![Author::Generic("Søren Astrup".to_string())]))
    );
    assert_eq!(
        OpenGraph::parse_attribute(&info, AttributeType::Date),
        Some(Attribute::Date(Date::DateTime(Timestamp { year: 2023, month: 12, day: 11, hour: 8, minute: 0, second: 0 })))
    );
}

#[test]
fn ai_fallback_fills_only_missing_fields() {
    let mut info = empty_page("");
    info.opengraph = vec![("title".to_string(), "From the page".to_string())];
    let mut collection = AttributeCollection::initialize(&AttributeConfig::default(), &info);
    let metadata = AiExtractedMetadata {
        title: Some("From the model".to_string()),
        authors: Some(vec!["Jane Smith".to_string()]),
        date: Some("2024-02".to_string()),
        site: None,
        publisher: Some("Publisher".to_string()),
        language: None,
    };
    collection.apply_ai_fallback(&metadata);
    assert_eq!(collection.get(AttributeType::Title), Some(Attribute::Title("From the page".to_string())));
    assert_eq!(collection.get(AttributeType::Publisher), Some(Attribute::Publisher("Publisher".to_string())));
    assert_eq!(collection.get(AttributeType::Date), Some(Attribute::Date(Date::YearMonth { year: 2024, month: 2 })));
    assert_eq!(collection.get(AttributeType::Site), None);
    assert_eq!(
        get_attribute_from_ai(&metadata, AttributeType::Author),
        Some(Attribute::Authors(vec![Author::Generic("Jane Smith".to_string())]))
    );
}

#[test]
fn test_extract_text_from_html() {
    let html = r#"<html><head><script>alert('x')</script></head>
            <body><h1>Title</h1><p>Content here</p></body></html>"#;
    let text = url2ref::ai_extractor::extract_text_from_html(html);
    assert!(text.contains("Title"));
    assert!(text.contains("Content here"));
    assert!(!text.contains("script"));
    assert!(!text.contains("alert"));
}

#[test]
fn page_text_is_decoded_and_collapsed() {
    let html = "<p>Fish &amp;   chips</p>\n<style>p { color: red }</style><p>today</p>";
    assert_eq!(url2ref::ai_extractor::extract_text_from_html(html), "Fish & chips today");
}

#[test]
fn test_extract_json_from_text() {
    let text = r#"Here's the JSON: {"title": "Test"} hope it helps"#;
    let json = url2ref::ai_extractor::extract_json_from_text(text).unwrap();
    assert_eq!(json, r#"{"title": "Test"}"#);
}

#[test]
fn answer_without_json_is_an_error() {
    let r = url2ref::ai_extractor::extract_json_from_text("no json } here {");
    assert!(matches!(r, Err(url2ref::ai_extractor::AiExtractionError::ParseError(_))));
}

#[test]
fn extraction_request_preparation() {
    let off = AiExtractionOptions::default();
    assert_eq!(extract_metadata("https://e.x", "<p>x</p>", &off), Ok(None));
    let no_key = AiExtractionOptions { enabled: true, provider: AiProvider::Anthropic, api_key: None, model: None };
    assert_eq!(extract_metadata("https://e.x", "<p>x</p>", &no_key), Err(AiExtractionError::NoApiKey));
    let unnamed = AiExtractionOptions { enabled: true, provider: AiProvider::Anthropic, api_key: Some("k".to_string()), model: None };
    assert_eq!(extract_metadata("https://e.x", "<p>x</p>", &unnamed), Err(AiExtractionError::NoModel));
    let on = AiExtractionOptions { enabled: true, provider: AiProvider::OpenAI, api_key: Some("k".to_string()), model: None };
    let request = extract_metadata("https://e.x", "<p>Body</p>", &on).unwrap().unwrap();
    assert_eq!(request.model, "gpt-4o-mini");
    assert_eq!(request.system_prompt, SYSTEM_PROMPT);
    assert_eq!(request.user_prompt, "Extract metadata from this web page.\n\nURL: https://e.x\n\nContent:\nBody");
}

#[test]
fn html_meta_local_datetime_is_read_as_utc() {
    let info = empty_page(r#"<html><head><meta name="pubdate" content="2023-05-01T10:20:30"></head></html>"#);
    assert_eq!(
        HtmlMeta::parse_attribute(&info, AttributeType::Date),
        Some(Attribute::Date(Date::DateTime(Timestamp { year: 2023, month: 5, day: 1, hour: 10, minute: 20, second: 30 })))
    );
}

#[test]
fn all_sources_side_by_side() {
    let mut info = empty_page(r#"<html><head><meta name="application-name" content="Meta Site"></head></html>"#);
    info.opengraph = vec![("title".to_string(), "OG".to_string())];
    info.citoid = Some(record(Some("Citoid title")));
    let all = url2ref::parse_all_metadata_from_parse_info(&info);
    assert_eq!(all.get(AttributeType::Title, url2ref::generator::MetadataType::OpenGraph), Some(Attribute::Title("OG".to_string())));
    assert_eq!(all.get(AttributeType::Title, url2ref::generator::MetadataType::Zotero), Some(Attribute::Title("Citoid title".to_string())));
    assert_eq!(all.get(AttributeType::Site, url2ref::generator::MetadataType::HtmlMeta), Some(Attribute::Site("Meta Site".to_string())));
    assert_eq!(all.default_source(AttributeType::Title), Some(url2ref::generator::MetadataType::OpenGraph));
    assert_eq!(all.default_source(AttributeType::Site), Some(url2ref::generator::MetadataType::HtmlMeta));
    assert_eq!(all.default_source(AttributeType::Volume), None);
}

#[test]
fn title_rules_on_given_lower_case() {
    assert!(!title_is_usable("404", "404"));
    assert!(!title_is_usable("Not Found", "not found"));
    assert!(!title_is_usable("Access Denied", "access denied"));
    assert!(!title_is_usable("", ""));
    assert!(title_is_usable("Error handling in Rust", "error handling in rust"));
}

#[test]
fn blacklist_on_given_lower_case() {
    assert!(is_blacklisted("https://youtu.be/abc"));
    assert!(is_blacklisted("https://web.archive.org/web/2020/https://e.x"));
    assert!(!is_blacklisted("https://example.com/"));
}

#[test]
fn cache_discards_unusable_record() {
    let mut cache = ZoteroCache::new();
    cache.fetch(Some(record(Some("404"))));
    assert!(cache.result.is_none());
    cache.fetch(Some(record(Some("Good"))));
    assert_eq!(cache.result.as_ref().and_then(|r| r.title.clone()), Some("Good".to_string()));
    cache.fetch(Some(record(Some("Other"))));
    assert_eq!(cache.result.as_ref().and_then(|r| r.title.clone()), Some("Good".to_string()));
}

#[test]
fn byline_rules_on_given_text() {
    assert_eq!(clean_byline("  By By Jane Doe "), Some("Jane Doe".to_string()));
    assert_eq!(clean_byline("af Søren Astrup"), Some("Søren Astrup".to_string()));
    assert_eq!(clean_byline("By "), Some("By".to_string()));
    assert_eq!(clean_byline(" \n "), None);
    assert_eq!(clean_byline("By  by x"), Some("by x".to_string()));
    assert_eq!(clean_byline(&"x".repeat(200)), None);
    assert_eq!(clean_byline(&"x".repeat(199)), Some("x".repeat(199)));
}

#[test]
fn non_ascii_is_percent_encoded_per_byte() {
    assert_eq!(
        citoid_request_url("https://e.x/ø~"),
        "https://en.wikipedia.org/api/rest_v1/data/citation/zotero/https%3A%2F%2Fe.x%2F%C3%B8~"
    );
}

#[test]
fn unusable_record_gives_no_field_from_extractor() {
    let types = [
        AttributeType::Title,
        AttributeType::Author,
        AttributeType::Date,
        AttributeType::Language,
        AttributeType::Site,
        AttributeType::Url,
        AttributeType::Journal,
        AttributeType::Publisher,
        AttributeType::Volume,
    ];
    for t in types {
        assert_eq!(Zotero::parse_from_result(&record(Some("404")), t), None);
        assert_eq!(Zotero::parse_from_result(&record(None), t), None);
    }
    assert_eq!(
        Zotero::parse_from_result(&record(Some("Fine")), AttributeType::Title),
        Some(Attribute::Title("Fine".to_string()))
    );
}
