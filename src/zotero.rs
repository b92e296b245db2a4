//! The Citoid source: the Zotero record that Wikipedia's citation service
//! returns for a URL.

use vstd::prelude::*;
use vstd::utf8::encode_utf8;
use crate::attribute::{Attribute, AttributeType, AttributeView, Author, AuthorView, Date, author_views, opt_view};
use crate::datetime::{citoid_date_of, parse_zotero_date};
use crate::doi::{first_capture, first_capture_of};
use crate::parser::ParseInfo;
use crate::text::{contains_text, occurs_at, same_text, starts_with_text, trim_text, trimmed};

verus! {

/// The lower-case form of a text under Unicode's case mapping.
pub uninterp spec fn lower_of(s: Seq<char>) -> Seq<char>;

/// Relies on `str::to_lowercase`: the result depends on the characters
/// alone, and an empty text stays empty.
#[verifier::external_body]
fn lowercase(s: &str) -> (r: String)
    ensures
        r@ == lower_of(s@),
        s@.len() == 0 ==> r@.len() == 0,
{
    s.to_lowercase()
}

/// Whether percent-encoding leaves a character as it is: ASCII letters and
/// digits, `-`, `.`, `_` and `~`.
pub open spec fn is_unreserved(c: char) -> bool {
    ('0' <= c && c <= '9') || ('A' <= c && c <= 'Z') || ('a' <= c && c <= 'z') || c == '-' || c
        == '.' || c == '_' || c == '~'
}

/// The upper-case hexadecimal digit of `d < 16`.
pub open spec fn hex_digit(d: int) -> char {
    if d < 10 {
        crate::text::digit_char(d as nat)
    } else if d == 10 {
        'A'
    } else if d == 11 {
        'B'
    } else if d == 12 {
        'C'
    } else if d == 13 {
        'D'
    } else if d == 14 {
        'E'
    } else {
        'F'
    }
}

/// Each byte as `%` and two upper-case hexadecimal digits.
pub open spec fn percent_bytes(b: Seq<u8>) -> Seq<char>
    decreases b.len(),
{
    if b.len() == 0 {
        Seq::empty()
    } else {
        percent_bytes(b.drop_last()) + seq![
            '%',
            hex_digit(b.last() as int / 16),
            hex_digit(b.last() as int % 16),
        ]
    }
}

/// A text percent-encoded for a URL: unreserved characters stay, every byte
/// of the UTF-8 encoding of any other character becomes `%XX`.
pub open spec fn url_encoded(s: Seq<char>) -> Seq<char>
    decreases s.len(),
{
    if s.len() == 0 {
        Seq::empty()
    } else {
        url_encoded(s.drop_last()) + if is_unreserved(s.last()) {
            seq![s.last()]
        } else {
            percent_bytes(encode_utf8(seq![s.last()]))
        }
    }
}

/// Relies on urlencoding's `encode`: every byte of the text's UTF-8 form
/// except ASCII letters, digits, `-`, `.`, `_` and `~` becomes `%` and two
/// upper-case hexadecimal digits.
#[verifier::external_body]
pub(crate) fn url_encode(s: &str) -> (r: String)
    ensures
        r@ == url_encoded(s@),
{
    urlencoding::encode(s).into_owned()
}

/// The Citoid endpoint; the encoded URL follows it.
pub const CITOID_ENDPOINT: &'static str = "https://en.wikipedia.org/api/rest_v1/data/citation/zotero/";

/// The address that asks Citoid about `url`.
pub fn citoid_request_url(url: &str) -> (r: String)
    ensures
        r@ == CITOID_ENDPOINT@ + url_encoded(url@),
{
    String::from_str(CITOID_ENDPOINT).concat(url_encode(url).as_str())
}

/// A creator of a Zotero record.
#[derive(Debug, Clone, PartialEq, Eq)]
pub struct ZoteroCreator {
    pub creator_type: Option<String>,
    pub first_name: Option<String>,
    pub last_name: Option<String>,
    pub name: Option<String>,
}

/// The author a creator stands for: an organization when it has a single
/// `name`, else a person from the trimmed first and last names.
pub open spec fn creator_author(c: ZoteroCreator) -> Option<AuthorView> {
    match c.name {
        Some(n) => Some(AuthorView::Organization(n@)),
        None => match (c.first_name, c.last_name) {
            (Some(f), Some(l)) => Some(AuthorView::Person(trimmed(f@) + " "@ + trimmed(l@))),
            (None, Some(l)) => Some(AuthorView::Person(l@)),
            (Some(f), None) => Some(AuthorView::Person(f@)),
            (None, None) => None,
        },
    }
}

/// Whether a creator counts as an author: its role is `author`,
/// `contributor` or `artist`, or it has none.
pub open spec fn creator_is_author(c: ZoteroCreator) -> bool {
    match c.creator_type {
        Some(t) => t@ == "author"@ || t@ == "contributor"@ || t@ == "artist"@,
        None => true,
    }
}

impl ZoteroCreator {
    /// The author this creator stands for.
    pub fn to_author(&self) -> (r: Option<Author>)
        ensures
            match r {
                Some(a) => creator_author(*self) == Some(a@),
                None => creator_author(*self) is None,
            },
    {
        match &self.name {
            Some(name) => {
                return Some(Author::Organization(name.clone()));
            },
            None => {},
        }
        match (&self.first_name, &self.last_name) {
            (Some(first), Some(last)) => {
                let full = trim_text(first.as_str()).concat(" ").concat(trim_text(last.as_str()).as_str());
                Some(Author::Person(full))
            },
            (None, Some(last)) => Some(Author::Person(last.clone())),
            (Some(first), None) => Some(Author::Person(first.clone())),
            (None, None) => None,
        }
    }

    /// Whether this creator is an author rather than an editor, translator and the like.
    pub fn is_author(&self) -> (r: bool)
        ensures
            r == creator_is_author(*self),
    {
        match &self.creator_type {
            Some(ct) => same_text(ct.as_str(), "author") || same_text(ct.as_str(), "contributor")
                || same_text(ct.as_str(), "artist"),
            None => true,
        }
    }
}

/// A Zotero record as Citoid returns it.
#[derive(Debug, Clone, PartialEq, Eq)]
pub struct ZoteroResult {
    pub item_type: Option<String>,
    pub title: Option<String>,
    pub creators: Option<Vec<ZoteroCreator>>,
    pub date: Option<String>,
    pub publication_title: Option<String>,
    pub book_title: Option<String>,
    pub website_title: Option<String>,
    pub doi: Option<String>,
    pub url: Option<String>,
    pub language: Option<String>,
    pub publisher: Option<String>,
    pub place: Option<String>,
    pub volume: Option<String>,
    pub issue: Option<String>,
    pub pages: Option<String>,
    pub isbn: Option<String>,
    pub issn: Option<String>,
    pub abstract_note: Option<String>,
    pub extra: Option<String>,
    pub university: Option<String>,
    pub thesis_type: Option<String>,
}

/// The authors among some creators, in order.
pub open spec fn creators_authors(v: Seq<ZoteroCreator>) -> Seq<AuthorView>
    decreases v.len(),
{
    if v.len() == 0 {
        Seq::empty()
    } else {
        let rest = creators_authors(v.drop_last());
        if creator_is_author(v.last()) {
            match creator_author(v.last()) {
                Some(a) => rest.push(a),
                None => rest,
            }
        } else {
            rest
        }
    }
}

/// The authors of a record.
pub open spec fn record_authors(r: ZoteroResult) -> Seq<AuthorView> {
    match r.creators {
        Some(v) => creators_authors(v@),
        None => Seq::empty(),
    }
}

/// The first of two optional texts that is present.
pub open spec fn first_present(a: Option<String>, b: Option<String>) -> Option<String> {
    match a {
        Some(x) => Some(x),
        None => b,
    }
}

/// The site of a record: publication, else website, else book title.
pub open spec fn record_site(r: ZoteroResult) -> Option<String> {
    first_present(r.publication_title, first_present(r.website_title, r.book_title))
}

/// Whether a title, given with its lower-case form `lower`, is usable: it is
/// not empty and `lower` neither starts with `not found` nor is `404`,
/// `error` or `access denied`.
pub open spec fn title_usable(title: Seq<char>, lower: Seq<char>) -> bool {
    &&& !occurs_at(lower, "not found"@, 0)
    &&& lower != "404"@
    &&& lower != "error"@
    &&& lower != "access denied"@
    &&& title.len() > 0
}

/// Whether a record is usable: it has a title that is usable.
pub open spec fn record_is_valid(r: ZoteroResult) -> bool {
    match r.title {
        Some(t) => title_usable(t@, lower_of(t@)),
        None => false,
    }
}

/// Whether a title, given with its lower-case form, is usable rather than the
/// service's way of saying that it found nothing.
pub fn title_is_usable(title: &str, lower: &str) -> (r: bool)
    ensures
        r == title_usable(title@, lower@),
{
    let bad = starts_with_text(lower, "not found") || same_text(lower, "404") || same_text(
        lower,
        "error",
    ) || same_text(lower, "access denied") || title.unicode_len() == 0;
    !bad
}

/// A record whose title lower-cases to `404` is not usable.
pub proof fn law_404_title_is_unusable(r: ZoteroResult)
    requires
        r.title matches Some(t) && lower_of(t@) == "404"@,
    ensures
        !record_is_valid(r),
{
}

/// The text of an optional string.
pub open spec fn opt_text(o: Option<String>) -> Option<Seq<char>> {
    match o {
        Some(s) => Some(s@),
        None => None,
    }
}

/// What a record says of a field kind.
pub open spec fn record_value(r: ZoteroResult, t: AttributeType) -> Option<AttributeView> {
    match t {
        AttributeType::Title => match r.title {
            Some(s) => Some(AttributeView::Title(s@)),
            None => None,
        },
        AttributeType::Author => if record_authors(r).len() == 0 {
            None
        } else {
            Some(AttributeView::Authors(record_authors(r)))
        },
        AttributeType::Date => match r.date {
            Some(s) => match citoid_date_of(s@) {
                Some(d) => Some(AttributeView::Date(d)),
                None => None,
            },
            None => None,
        },
        AttributeType::Language => match r.language {
            Some(s) => Some(AttributeView::Language(s@)),
            None => None,
        },
        AttributeType::Site => match record_site(r) {
            Some(s) => Some(AttributeView::Site(s@)),
            None => None,
        },
        AttributeType::Url => match r.url {
            Some(s) => Some(AttributeView::Url(s@)),
            None => None,
        },
        AttributeType::Journal => match r.publication_title {
            Some(s) => Some(AttributeView::Journal(s@)),
            None => None,
        },
        AttributeType::Publisher => match first_present(r.publisher, r.university) {
            Some(s) => Some(AttributeView::Publisher(s@)),
            None => None,
        },
        AttributeType::Volume => match r.volume {
            Some(s) => Some(AttributeView::Volume(s@)),
            None => None,
        },
        _ => None,
    }
}

/// What a record says of a field kind when it is usable; nothing otherwise.
pub open spec fn usable_record_value(r: ZoteroResult, t: AttributeType) -> Option<AttributeView> {
    if record_is_valid(r) {
        record_value(r, t)
    } else {
        None
    }
}

/// What the page's Citoid record says of a field kind: nothing unless the
/// record is usable.
pub open spec fn citoid_value(info: ParseInfo, t: AttributeType) -> Option<AttributeView> {
    match info.citoid {
        Some(r) => usable_record_value(r, t),
        None => None,
    }
}

fn copy_text(o: &Option<String>) -> (r: Option<String>)
    ensures
        opt_text(r) == opt_text(*o),
        r is Some <==> o is Some,
{
    match o {
        Some(s) => Some(s.clone()),
        None => None,
    }
}

impl ZoteroResult {
    /// The authors, leaving out editors, translators and the like.
    pub fn get_authors(&self) -> (r: Vec<Author>)
        ensures
            author_views(r@) == record_authors(*self),
    {
        let mut out: Vec<Author> = Vec::new();
        match &self.creators {
            Some(creators) => {
                let mut i: usize = 0;
                while i < creators.len()
                    invariant
                        i <= creators@.len(),
                        author_views(out@) == creators_authors(creators@.take(i as int)),
                    decreases creators@.len() - i,
                {
                    assert(creators@.take(i + 1).drop_last() =~= creators@.take(i as int));
                    let c = &creators[i];
                    if c.is_author() {
                        match c.to_author() {
                            Some(a) => {
                                let ghost before = out@;
                                out.push(a);
                                assert(author_views(out@) =~= author_views(before).push(a@));
                            },
                            None => {},
                        }
                    }
                    i = i + 1;
                }
                assert(creators@.take(creators@.len() as int) =~= creators@);
            },
            None => {
                assert(author_views(out@) =~= Seq::<AuthorView>::empty());
            },
        }
        out
    }

    /// The site or publication name.
    pub fn get_site_name(&self) -> (r: Option<String>)
        ensures
            opt_text(r) == opt_text(record_site(*self)),
    {
        if self.publication_title.is_some() {
            copy_text(&self.publication_title)
        } else if self.website_title.is_some() {
            copy_text(&self.website_title)
        } else {
            copy_text(&self.book_title)
        }
    }

    /// The record's date, read in the forms Citoid uses.
    pub fn get_date(&self) -> (r: Option<Date>)
        ensures
            r == match self.date {
                Some(s) => citoid_date_of(s@),
                None => None,
            },
    {
        match &self.date {
            Some(s) => parse_zotero_date(s.as_str()),
            None => None,
        }
    }

    /// The PubMed identifier noted in the `extra` field, if any.
    pub fn get_pmid(&self) -> (r: Option<String>)
        ensures
            opt_text(r) == match self.extra {
                Some(e) => first_capture_of(r"PMID:\s*(\d+)"@, e@),
                None => None,
            },
    {
        match &self.extra {
            Some(e) => first_capture(r"PMID:\s*(\d+)", e.as_str()),
            None => None,
        }
    }

    /// The ADS bibcode noted in the `extra` field, if any.
    pub fn get_bibcode(&self) -> (r: Option<String>)
        ensures
            opt_text(r) == match self.extra {
                Some(e) => first_capture_of(r"ADS Bibcode:\s*(\S+)"@, e@),
                None => None,
            },
    {
        match &self.extra {
            Some(e) => first_capture(r"ADS Bibcode:\s*(\S+)", e.as_str()),
            None => None,
        }
    }

    /// Whether the record is usable rather than the service's way of saying
    /// that it found nothing.
    pub fn is_valid(&self) -> (r: bool)
        ensures
            r == record_is_valid(*self),
    {
        match &self.title {
            Some(title) => {
                let l = lowercase(title.as_str());
                title_is_usable(title.as_str(), l.as_str())
            },
            None => false,
        }
    }
}

/// What a cache holds after a fetch: what it held, else the fetched record
/// when it is usable, else nothing.
pub open spec fn cache_after(held: Option<ZoteroResult>, fetched: Option<ZoteroResult>) -> Option<
    ZoteroResult,
> {
    match held {
        Some(r) => Some(r),
        None => match fetched {
            Some(r) => if record_is_valid(r) {
                Some(r)
            } else {
                None
            },
            None => None,
        },
    }
}

/// An unusable record is never taken into an empty cache.
pub proof fn law_unusable_record_not_cached(r: ZoteroResult)
    requires
        !record_is_valid(r),
    ensures
        cache_after(None, Some(r)) is None,
{
}

/// A record whose title lower-cases to `404` gives no field, whatever is
/// asked, and is not taken into an empty cache.
pub proof fn law_404_record_contributes_nothing(r: ZoteroResult, t: AttributeType)
    requires
        r.title matches Some(title) && lower_of(title@) == "404"@,
    ensures
        usable_record_value(r, t) is None,
        cache_after(None, Some(r)) is None,
{
    law_404_title_is_unusable(r);
    law_unusable_record_not_cached(r);
}

/// Keeps a usable Citoid record once one has been had.
pub struct ZoteroCache {
    pub result: Option<ZoteroResult>,
}

impl ZoteroCache {
    /// An empty cache.
    pub fn new() -> (r: Self)
        ensures
            r.result is None,
    {
        ZoteroCache { result: None }
    }

    /// Takes a fetched record into an empty cache when it is usable; a cache
    /// that holds a record keeps it.
    pub fn fetch(&mut self, fetched: Option<ZoteroResult>)
        ensures
            final(self).result == cache_after(old(self).result, fetched),
    {
        if self.result.is_none() {
            match fetched {
                Some(r) => {
                    if r.is_valid() {
                        self.result = Some(r);
                    }
                },
                None => {},
            }
        }
    }
}

impl Default for ZoteroCache {
    fn default() -> (r: Self)
        ensures
            r.result is None,
    {
        ZoteroCache::new()
    }
}

/// A record that is not usable gives no field at all.
pub proof fn law_unusable_record_gives_nothing(info: ParseInfo, t: AttributeType)
    requires
        info.citoid matches Some(r) && !record_is_valid(r),
    ensures
        citoid_value(info, t) is None,
{
}

/// The Citoid source.
pub struct Zotero;

impl Zotero {
    /// What a usable record says of a field kind; an unusable record says nothing.
    pub fn parse_from_result(result: &ZoteroResult, attribute_type: AttributeType) -> (r: Option<
        Attribute,
    >)
        ensures
            opt_view(r) == usable_record_value(*result, attribute_type),
    {
        if result.is_valid() {
            Zotero::record_attribute(result, attribute_type)
        } else {
            None
        }
    }

    fn record_attribute(result: &ZoteroResult, attribute_type: AttributeType) -> (r: Option<
        Attribute,
    >)
        ensures
            opt_view(r) == record_value(*result, attribute_type),
    {
        match attribute_type {
            AttributeType::Title => match &result.title {
                Some(s) => Some(Attribute::Title(s.clone())),
                None => None,
            },
            AttributeType::Author => {
                let authors = result.get_authors();
                if authors.len() == 0 {
                    None
                } else {
                    Some(Attribute::Authors(authors))
                }
            },
            AttributeType::Date => match result.get_date() {
                Some(d) => Some(Attribute::Date(d)),
                None => None,
            },
            AttributeType::Language => match &result.language {
                Some(s) => Some(Attribute::Language(s.clone())),
                None => None,
            },
            AttributeType::Site => match result.get_site_name() {
                Some(s) => Some(Attribute::Site(s)),
                None => None,
            },
            AttributeType::Url => match &result.url {
                Some(s) => Some(Attribute::Url(s.clone())),
                None => None,
            },
            AttributeType::Journal => match &result.publication_title {
                Some(s) => Some(Attribute::Journal(s.clone())),
                None => None,
            },
            AttributeType::Publisher => {
                let p = if result.publisher.is_some() {
                    copy_text(&result.publisher)
                } else {
                    copy_text(&result.university)
                };
                match p {
                    Some(s) => Some(Attribute::Publisher(s)),
                    None => None,
                }
            },
            AttributeType::Volume => match &result.volume {
                Some(s) => Some(Attribute::Volume(s.clone())),
                None => None,
            },
            _ => None,
        }
    }

    /// What the page's Citoid record says of a field kind, if it is usable.
    pub fn parse_attribute(parse_info: &ParseInfo, attribute_type: AttributeType) -> (r: Option<
        Attribute,
    >)
        ensures
            opt_view(r) == citoid_value(*parse_info, attribute_type),
    {
        match &parse_info.citoid {
            Some(result) => Zotero::parse_from_result(result, attribute_type),
            None => None,
        }
    }
}

/// The sites whose pages Citoid handles badly; they are never sent to it.
pub open spec fn citoid_blacklist() -> Seq<Seq<char>> {
    seq![
        "facebook.com"@,
        "twitter.com"@,
        "x.com"@,
        "instagram.com"@,
        "tiktok.com"@,
        "archive.org/web"@,
        "youtube.com"@,
        "youtu.be"@,
        "linkedin.com"@,
        "reddit.com"@,
    ]
}

/// Whether a lower-case URL contains one of the blacklisted sites.
pub open spec fn in_blacklist(lower: Seq<char>) -> bool {
    exists|k: int, i: int| 0 <= k < citoid_blacklist().len() && occurs_at(lower, citoid_blacklist()[k], i)
}

/// Whether a URL is one that Citoid should not be asked about: its
/// lower-case form contains one of the blacklisted sites.
pub open spec fn skips_citoid(url: Seq<char>) -> bool {
    in_blacklist(lower_of(url))
}

/// Whether a lower-case URL contains one of the blacklisted sites.
pub fn is_blacklisted(url_lower: &str) -> (r: bool)
    ensures
        r == in_blacklist(url_lower@),
{
    let blocked = [
        "facebook.com",
        "twitter.com",
        "x.com",
        "instagram.com",
        "tiktok.com",
        "archive.org/web",
        "youtube.com",
        "youtu.be",
        "linkedin.com",
        "reddit.com",
    ];
    let ghost bl = citoid_blacklist();
    assert(forall|k: int| 0 <= k < 10 ==> (#[trigger] blocked@[k])@ == bl[k]);
    let mut k: usize = 0;
    while k < 10
        invariant
            k <= 10,
            bl == citoid_blacklist(),
            forall|j: int| 0 <= j < 10 ==> (#[trigger] blocked@[j])@ == bl[j],
            forall|j: int, i: int|
                #![trigger occurs_at(url_lower@, bl[j], i)]
                0 <= j < k ==> !occurs_at(url_lower@, bl[j], i),
        decreases 10 - k,
    {
        if contains_text(url_lower, blocked[k]) {
            return true;
        }
        k = k + 1;
    }
    false
}

/// Whether Citoid should not be asked about a URL.
pub fn should_skip_zotero(url: &str) -> (r: bool)
    ensures
        r == skips_citoid(url@),
{
    let url_lower = lowercase(url);
    is_blacklisted(url_lower.as_str())
}

} // verus!
