//! The DOI source: a DOI found in the page text, and the fields of the
//! BibTeX entry that the DOI resolves to.

use vstd::prelude::*;
use crate::attribute::{Attribute, AttributeType, AttributeView, Author, AuthorView, CalendarDate, Date, author_views, is_valid_ymd, opt_view, valid_ymd};
use crate::parser::ParseInfo;

verus! {

/// The first group of the first match of the regular expression `pattern`
/// in `text`, if the pattern compiles and matches.
pub uninterp spec fn first_capture_of(pattern: Seq<char>, text: Seq<char>) -> Option<Seq<char>>;

/// Relies on regex's `Regex::new` and `Regex::captures`: the text of group 1
/// of the leftmost match.
#[verifier::external_body]
pub(crate) fn first_capture(pattern: &str, text: &str) -> (r: Option<String>)
    ensures
        match r {
            Some(s) => first_capture_of(pattern@, text@) == Some(s@),
            None => first_capture_of(pattern@, text@) is None,
        },
{
    let re = regex::Regex::new(pattern).ok()?;
    let caps = re.captures(text)?;
    match caps.get(1) {
        Some(m) => Some(m.as_str().to_string()),
        None => None,
    }
}

/// The DOI pattern (Crossref's recommendation, which matches nearly all DOIs in use).
pub const DOI_PATTERN: &'static str = r"(\b10\.\d{4,9}/[-.;()/:\w]+)";

/// Why no BibTeX entry could be had for a page.
#[derive(Debug, Clone, Copy, PartialEq, Eq, Structural)]
pub enum DoiError {
    TransportError,
    DoiNotInHtmlError,
    BibtexParseError,
}

/// The first DOI in a text.
pub fn doi_regex_match(string: &str) -> (r: Result<String, DoiError>)
    ensures
        match r {
            Ok(s) => first_capture_of(DOI_PATTERN@, string@) == Some(s@),
            Err(e) => e == DoiError::DoiNotInHtmlError && first_capture_of(DOI_PATTERN@, string@) is None,
        },
{
    match first_capture(DOI_PATTERN, string) {
        Some(s) => Ok(s),
        None => Err(DoiError::DoiNotInHtmlError),
    }
}

/// The first DOI in a page's text.
pub fn try_find_doi_in_html(html: &str) -> (r: Result<String, DoiError>)
    ensures
        match r {
            Ok(s) => first_capture_of(DOI_PATTERN@, html@) == Some(s@),
            Err(e) => e == DoiError::DoiNotInHtmlError && first_capture_of(DOI_PATTERN@, html@) is None,
        },
{
    doi_regex_match(html)
}

/// The address that content negotiation on a DOI answers with BibTeX.
pub open spec fn doi_request_url_text(doi: Seq<char>) -> Seq<char> {
    "https://doi.org/"@ + doi
}

/// The address to ask for a DOI's BibTeX entry.
pub fn doi_request_url(doi: &str) -> (r: String)
    ensures
        r@ == doi_request_url_text(doi@),
{
    String::from_str("https://doi.org/").concat(doi)
}

/// The request header that asks for BibTeX.
pub const BIBTEX_ACCEPT_HEADER: &'static str = "Accept: application/x-bibtex";

/// A person of a BibTeX name list.
#[derive(Clone, Debug, PartialEq, Eq)]
pub struct BibPerson {
    pub given_name: String,
    pub name: String,
}

/// A single BibTeX date; month and day count from zero, as biblatex gives them.
#[derive(Clone, Copy, Debug, PartialEq, Eq, Structural)]
pub struct BibDateParts {
    pub year: i32,
    pub month: Option<u8>,
    pub day: Option<u8>,
}

/// A BibTeX date field: a single date (`value`), or `None` for a range or
/// text that is no date, with the field's qualifiers.
#[derive(Clone, Copy, Debug, PartialEq, Eq, Structural)]
pub struct BibDate {
    pub value: Option<BibDateParts>,
    pub approximate: bool,
    pub uncertain: bool,
}

/// The fields of a BibTeX entry that citations use, as text. A text field is
/// present when its first chunk is plain or verbatim text.
#[derive(Clone, Debug, PartialEq, Eq)]
pub struct BibEntry {
    pub title: Option<String>,
    pub authors: Option<Vec<BibPerson>>,
    pub date: Option<BibDate>,
    pub url: Option<String>,
    pub entry_type: Option<String>,
    pub journal: Option<String>,
    pub volume: Option<String>,
    pub language: Option<String>,
    pub publisher: Option<String>,
}

/// The authors of a name list: given name, a space, family name.
pub open spec fn bib_persons(v: Seq<BibPerson>) -> Seq<AuthorView> {
    v.map_values(|p: BibPerson| AuthorView::Person(p.given_name@ + " "@ + p.name@))
}

/// The date a BibTeX date field gives: nothing when approximate or uncertain
/// or not a single date; else as precise as the field is, and only a day
/// that exists.
pub open spec fn bib_date_of(d: BibDate) -> Option<Date> {
    if d.approximate || d.uncertain {
        None
    } else {
        match d.value {
            Some(p) => match (p.month, p.day) {
                (Some(m), Some(day)) => if valid_ymd(p.year as int, m + 1, day + 1) {
                    Some(
                        Date::YearMonthDay(
                            CalendarDate { year: p.year, month: (m + 1) as u32, day: (day + 1) as u32 },
                        ),
                    )
                } else {
                    None
                },
                (Some(m), None) => Some(Date::YearMonth { year: p.year, month: (m + 1) as i32 }),
                (None, None) => Some(Date::Year(p.year)),
                (None, Some(_)) => None,
            },
            None => None,
        }
    }
}

/// A text field made into an attribute.
pub open spec fn text_attr(o: Option<String>, f: spec_fn(Seq<char>) -> AttributeView) -> Option<AttributeView> {
    match o {
        Some(s) => Some(f(s@)),
        None => None,
    }
}

/// What a BibTeX entry says of a field kind.
pub open spec fn bib_value(e: BibEntry, t: AttributeType) -> Option<AttributeView> {
    match t {
        AttributeType::Title => text_attr(e.title, |s| AttributeView::Title(s)),
        AttributeType::Author => match e.authors {
            Some(v) => Some(AttributeView::Authors(bib_persons(v@))),
            None => None,
        },
        AttributeType::Url => text_attr(e.url, |s| AttributeView::Url(s)),
        AttributeType::Date => match e.date {
            Some(d) => match bib_date_of(d) {
                Some(x) => Some(AttributeView::Date(x)),
                None => None,
            },
            None => None,
        },
        AttributeType::Type => text_attr(e.entry_type, |s| AttributeView::Type(s)),
        AttributeType::Journal => text_attr(e.journal, |s| AttributeView::Journal(s)),
        AttributeType::Volume => text_attr(e.volume, |s| AttributeView::Volume(s)),
        AttributeType::Language => text_attr(e.language, |s| AttributeView::Language(s)),
        AttributeType::Publisher => text_attr(e.publisher, |s| AttributeView::Publisher(s)),
        AttributeType::Institution => text_attr(e.journal, |s| AttributeView::Institution(s)),
        _ => None,
    }
}

/// What the page's DOI entry says of a field kind.
pub open spec fn doi_value(info: ParseInfo, t: AttributeType) -> Option<AttributeView> {
    match info.bibliography {
        Some(e) => bib_value(e, t),
        None => None,
    }
}

/// The authors of a BibTeX name list.
pub fn author_to_attribute(persons: &Vec<BibPerson>) -> (r: Attribute)
    ensures
        r@ == AttributeView::Authors(bib_persons(persons@)),
{
    let mut authors: Vec<Author> = Vec::new();
    let mut i: usize = 0;
    while i < persons.len()
        invariant
            i <= persons@.len(),
            author_views(authors@) == bib_persons(persons@.take(i as int)),
        decreases persons@.len() - i,
    {
        let p = &persons[i];
        let name = p.given_name.clone().concat(" ").concat(p.name.as_str());
        let ghost before = authors@;
        authors.push(Author::Person(name));
        assert(author_views(authors@) =~= author_views(before).push(AuthorView::Person(name@)));
        assert(bib_persons(persons@.take(i + 1)) =~= bib_persons(persons@.take(i as int)).push(
            AuthorView::Person(p.given_name@ + " "@ + p.name@),
        ));
        i = i + 1;
    }
    assert(persons@.take(persons@.len() as int) =~= persons@);
    Attribute::Authors(authors)
}

/// The date of a BibTeX date field, never guessed.
pub fn date_to_attribute(d: &BibDate) -> (r: Option<Date>)
    ensures
        r == bib_date_of(*d),
        r matches Some(x) ==> x.wf(),
{
    if d.approximate || d.uncertain {
        return None;
    }
    match d.value {
        Some(p) => match (p.month, p.day) {
            (Some(m), Some(day)) => {
                let month = m as u32 + 1;
                let dd = day as u32 + 1;
                if is_valid_ymd(p.year, month, dd) {
                    Some(Date::YearMonthDay(CalendarDate { year: p.year, month, day: dd }))
                } else {
                    None
                }
            },
            (Some(m), None) => Some(Date::YearMonth { year: p.year, month: m as i32 + 1 }),
            (None, None) => Some(Date::Year(p.year)),
            (None, Some(_)) => None,
        },
        None => None,
    }
}

fn text_field(o: &Option<String>, t: AttributeType) -> (r: Option<Attribute>)
    requires
        t == AttributeType::Title || t == AttributeType::Url || t == AttributeType::Type || t
            == AttributeType::Journal || t == AttributeType::Volume || t == AttributeType::Language
            || t == AttributeType::Publisher || t == AttributeType::Institution,
    ensures
        opt_view(r) == match *o {
            Some(s) => Some(
                match t {
                    AttributeType::Title => AttributeView::Title(s@),
                    AttributeType::Url => AttributeView::Url(s@),
                    AttributeType::Type => AttributeView::Type(s@),
                    AttributeType::Journal => AttributeView::Journal(s@),
                    AttributeType::Volume => AttributeView::Volume(s@),
                    AttributeType::Language => AttributeView::Language(s@),
                    AttributeType::Publisher => AttributeView::Publisher(s@),
                    _ => AttributeView::Institution(s@),
                },
            ),
            None => None,
        },
{
    match o {
        Some(s) => {
            let v = s.clone();
            Some(
                match t {
                    AttributeType::Title => Attribute::Title(v),
                    AttributeType::Url => Attribute::Url(v),
                    AttributeType::Type => Attribute::Type(v),
                    AttributeType::Journal => Attribute::Journal(v),
                    AttributeType::Volume => Attribute::Volume(v),
                    AttributeType::Language => Attribute::Language(v),
                    AttributeType::Publisher => Attribute::Publisher(v),
                    _ => Attribute::Institution(v),
                },
            )
        },
        None => None,
    }
}

/// What a BibTeX entry says of a field kind.
pub fn attribute_type_to_attribute(entry: &BibEntry, attribute_type: AttributeType) -> (r: Option<
    Attribute,
>)
    ensures
        opt_view(r) == bib_value(*entry, attribute_type),
{
    match attribute_type {
        AttributeType::Title => text_field(&entry.title, attribute_type),
        AttributeType::Author => match &entry.authors {
            Some(v) => Some(author_to_attribute(v)),
            None => None,
        },
        AttributeType::Url => text_field(&entry.url, attribute_type),
        AttributeType::Date => match &entry.date {
            Some(d) => match date_to_attribute(d) {
                Some(x) => Some(Attribute::Date(x)),
                None => None,
            },
            None => None,
        },
        AttributeType::Type => text_field(&entry.entry_type, attribute_type),
        AttributeType::Journal => text_field(&entry.journal, attribute_type),
        AttributeType::Volume => text_field(&entry.volume, attribute_type),
        AttributeType::Language => text_field(&entry.language, attribute_type),
        AttributeType::Publisher => text_field(&entry.publisher, attribute_type),
        AttributeType::Institution => text_field(&entry.journal, attribute_type),
        _ => None,
    }
}

/// The DOI source.
pub struct Doi;

impl Doi {
    /// What the BibTeX entry of the page's DOI says of a field kind.
    pub fn parse_attribute(parse_info: &ParseInfo, attribute_type: AttributeType) -> (r: Option<
        Attribute,
    >)
        ensures
            opt_view(r) == doi_value(*parse_info, attribute_type),
    {
        match &parse_info.bibliography {
            Some(e) => attribute_type_to_attribute(e, attribute_type),
            None => None,
        }
    }
}

} // verus!
