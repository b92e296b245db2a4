//! The three citation builders and the reference shapes that drive them.

use url2ref::attribute::{Attribute, Author, CalendarDate, Date, Timestamp, Translation};
use url2ref::citation::{BibTeXCitation, HarvardCitation, WikiCitation};
use url2ref::reference::Reference;

fn person(s: &str) -> Author {
    Author::Person(s.to_string())
}

fn ymd(year: i32, month: u32, day: u32) -> Date {
    Date::YearMonthDay(CalendarDate { year, month, day })
}

#[test]
fn citation_wiki_citation_try_add() {
    let title = "Test title";
    let attribute = Attribute::Title(title.to_string());
    let wiki_citation = WikiCitation::new().try_add(&Some(attribute)).build();
    let expected_result = format!("{{{{cite web\n| title = {title}\n}}}}");
    assert_eq!(wiki_citation, expected_result)
}

#[test]
fn wiki_single_author_is_unindexed() {
    let out = WikiCitation::new().add(&Attribute::Authors(vec![person("Jane Smith")])).build();
    assert_eq!(out, "{{cite web\n| last = Smith\n| first = Jane\n}}");
}

#[test]
fn wiki_two_authors_are_indexed() {
    let out = WikiCitation::new()
        .add(&Attribute::Authors(vec![person("Jane Smith"), person("John Doe")]))
        .build();
    assert_eq!(out, "{{cite web\n| last1 = Smith\n| first1 = Jane | last2 = Doe\n| first2 = John\n}}");
}

#[test]
fn wiki_organization_and_single_word_generic_use_author() {
    let out = WikiCitation::new()
        .add(&Attribute::Authors(vec![
            Author::Organization("Associated   Press".to_string()),
            Author::Generic("Reuters".to_string()),
        ]))
        .build();
    assert_eq!(out, "{{cite web\n| author1 = Associated Press | author2 = Reuters\n}}");
}

#[test]
fn wiki_dates_keep_their_precision() {
    let out = WikiCitation::new()
        .add(&Attribute::Date(Date::Year(2020)))
        .add(&Attribute::ArchiveDate(ymd(2020, 3, 5)))
        .build();
    assert_eq!(out, "{{cite web\n| date = 2020\n| archive-date = 2020-03-05\n}}");
    let month = WikiCitation::new().add(&Attribute::Date(Date::YearMonth { year: 2020, month: 3 })).build();
    assert_eq!(month, "{{cite web\n| date = 2020-03\n}}");
    let instant = WikiCitation::new()
        .add(&Attribute::Date(Date::DateTime(Timestamp { year: 999, month: 1, day: 2, hour: 3, minute: 4, second: 5 })))
        .build();
    assert_eq!(instant, "{{cite web\n| date = 0999-01-02\n}}");
    let negative = WikiCitation::new().add(&Attribute::Date(Date::Year(-44))).build();
    assert_eq!(negative, "{{cite web\n| date = -44\n}}");
}

#[test]
fn wiki_normalizes_whitespace_and_skips_unshown_kinds() {
    let out = WikiCitation::new()
        .add(&Attribute::Title("  A \n  title ".to_string()))
        .add(&Attribute::Locale("da_DK".to_string()))
        .add(&Attribute::Url("https://e.x/a".to_string()))
        .add(&Attribute::TranslatedTitle(Translation { text: "En titel".to_string(), language: "da".to_string() }))
        .build();
    assert_eq!(out, "{{cite web\n| title = A title\n| url = https://e.x/a\n| trans-title = En titel\n}}");
}

#[test]
fn bibtex_two_persons_joined_with_and() {
    let out = BibTeXCitation::new()
        .add(&Attribute::Authors(vec![person("Jane Smith"), person("John Doe")]))
        .build();
    assert_eq!(out, "@misc{ url2ref,\nauthor = \"Smith, Jane and Doe, John\",\n}");
}

#[test]
fn bibtex_organization_is_braced() {
    let out = BibTeXCitation::new()
        .add(&Attribute::Authors(vec![Author::Organization("Associated Press".to_string())]))
        .build();
    assert_eq!(out, "@misc{ url2ref,\nauthor = \"{Associated Press}\",\n}");
}

#[test]
fn bibtex_dates_by_precision() {
    let day = BibTeXCitation::new().add(&Attribute::Date(ymd(2023, 12, 13))).build();
    assert_eq!(day, "@misc{ url2ref,\ndate = \"2023-12-13\",\n}");
    let month = BibTeXCitation::new().add(&Attribute::Date(Date::YearMonth { year: 2024, month: 1 })).build();
    assert_eq!(month, "@misc{ url2ref,\nyear = \"2024\",\nmonth = \"1\",\n}");
    let year = BibTeXCitation::new().add(&Attribute::Date(Date::Year(2020))).build();
    assert_eq!(year, "@misc{ url2ref,\nyear = \"2020\",\n}");
    let archived = BibTeXCitation::new()
        .add(&Attribute::ArchiveDate(Date::YearMonth { year: 2024, month: 1 }))
        .build();
    assert_eq!(archived, "@misc{ url2ref,\narchivedate = \"2024-01\",\n}");
}

#[test]
fn bibtex_fields() {
    let out = BibTeXCitation::new()
        .add(&Attribute::Title("T".to_string()))
        .add(&Attribute::Url("https://e.x".to_string()))
        .add(&Attribute::Site("S".to_string()))
        .add(&Attribute::ArchiveUrl("https://a.x".to_string()))
        .add(&Attribute::Volume("3".to_string()))
        .build();
    assert_eq!(
        out,
        "@misc{ url2ref,\ntitle = \"T\",\nurl = \\url{https://e.x},\nhowpublished = \"S\",\narchiveurl = \\url{https://a.x},\n}"
    );
}

#[test]
fn harvard_full_reference() {
    let out = HarvardCitation::new()
        .add(&Attribute::Title("The Fellowship".to_string()))
        .add(&Attribute::Authors(vec![person("John Ronald Tolkien")]))
        .add(&Attribute::Date(Date::Year(1954)))
        .add(&Attribute::Site("Allen".to_string()))
        .add(&Attribute::Url("http://x".to_string()))
        .add(&Attribute::ArchiveDate(ymd(2024, 1, 1)))
        .build();
    assert_eq!(out, "Tolkien, J.R. (1954) 'The Fellowship', Allen. Available at: http://x (Accessed: 1 January 2024).");
}

#[test]
fn harvard_author_counts() {
    let two = HarvardCitation::new()
        .add(&Attribute::Authors(vec![person("Jane Smith"), person("John Doe")]))
        .build();
    assert_eq!(two, "Smith, J. and Doe, J. (n.d.).");
    let three = HarvardCitation::new()
        .add(&Attribute::Authors(vec![person("Jane Smith"), person("John Doe"), person("Ann Lee")]))
        .build();
    assert_eq!(three, "Smith, J. et al. (n.d.).");
    let empty = HarvardCitation::new().build();
    assert_eq!(empty, "(n.d.).");
    let year_only = HarvardCitation::new()
        .add(&Attribute::Date(Date::YearMonth { year: 2021, month: 6 }))
        .add(&Attribute::Publisher("Pub".to_string()))
        .add(&Attribute::ArchiveDate(Date::YearMonth { year: 2022, month: 13 }))
        .build();
    assert_eq!(year_only, "(2021), Pub. (Accessed: Unknown 2022).");
}

#[test]
fn try_add_none_changes_nothing() {
    let base = Attribute::Title("T".to_string());
    let wiki_a = WikiCitation::new().add(&base).try_add(&None).build();
    let wiki_b = WikiCitation::new().add(&base).build();
    assert_eq!(wiki_a, wiki_b);
    let bib_a = BibTeXCitation::new().add(&base).try_add(&None).build();
    let bib_b = BibTeXCitation::new().add(&base).build();
    assert_eq!(bib_a, bib_b);
    let harvard_a = HarvardCitation::new().add(&base).try_add(&None).build();
    let harvard_b = HarvardCitation::new().add(&base).build();
    assert_eq!(harvard_a, harvard_b);
}

#[test]
fn reference_renders_in_all_styles() {
    let reference = Reference::NewsArticle {
        title: Some(Attribute::Title("Headline".to_string())),
        translated_title: None,
        author: Some(Attribute::Authors(vec![person("Jane Smith")])),
        date: Some(Attribute::Date(ymd(2023, 12, 13))),
        language: Some(Attribute::Language("da".to_string())),
        site: Some(Attribute::Site("Politiken".to_string())),
        url: Some(Attribute::Url("https://politiken.dk/a".to_string())),
        publisher: None,
        archive_url: None,
        archive_date: None,
    };
    assert_eq!(
        reference.wiki(),
        "{{cite web\n| title = Headline\n| last = Smith\n| first = Jane\n| date = 2023-12-13\n| language = da\n| site = Politiken\n| url = https://politiken.dk/a\n}}"
    );
    assert_eq!(
        reference.bibtex(),
        "@misc{ url2ref,\ntitle = \"Headline\",\nauthor = \"Smith, Jane\",\ndate = \"2023-12-13\",\nlanguage = \"da\",\nhowpublished = \"Politiken\",\nurl = \\url{https://politiken.dk/a},\n}"
    );
    assert_eq!(reference.harvard(), "Smith, J. (2023) 'Headline', Politiken. Available at: https://politiken.dk/a");
}
