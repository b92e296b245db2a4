//! The HTML source: `<meta>` tags, then microdata and common class names
//! where the meta tags say nothing.

use vstd::prelude::*;
use crate::attribute::{Attribute, AttributeType, AttributeView, Author, AuthorView, author_views, opt_view};
use crate::datetime::{naive_date_of, naive_datetime_of, parse_date, parse_day, parse_instant, rfc3339_date};
use crate::parser::{MetadataKey, ParseInfo, key_views};
use crate::text::{occurs_at, starts_with_text, trim_text, trimmed, views};

verus! {

/// The attribute `attr` of the first element of `html` that the CSS
/// selector matches; nothing when there is none or the selector is invalid.
pub uninterp spec fn first_attr_of(html: Seq<char>, selector: Seq<char>, attr: Seq<char>) -> Option<
    Seq<char>,
>;

/// The text content of each element of `html` that the CSS selector
/// matches, in document order; none when the selector is invalid.
pub uninterp spec fn texts_of(html: Seq<char>, selector: Seq<char>) -> Seq<Seq<char>>;

/// Relies on scraper's `Html::parse_document`, `Selector::parse`,
/// `Html::select` and `Element::attr`: the attribute of the first match.
#[verifier::external_body]
fn select_first_attr(html: &str, selector: &str, attr: &str) -> (r: Option<String>)
    ensures
        match r {
            Some(s) => first_attr_of(html@, selector@, attr@) == Some(s@),
            None => first_attr_of(html@, selector@, attr@) is None,
        },
{
    let document = scraper::Html::parse_document(html);
    let sel = scraper::Selector::parse(selector).ok()?;
    let element = document.select(&sel).next()?;
    match element.value().attr(attr) {
        Some(a) => Some(a.to_string()),
        None => None,
    }
}

/// Relies on scraper's `Html::parse_document`, `Selector::parse`,
/// `Html::select` and `ElementRef::text`: the text of every match.
#[verifier::external_body]
fn select_texts(html: &str, selector: &str) -> (r: Vec<String>)
    ensures
        views(r@) == texts_of(html@, selector@),
{
    let document = scraper::Html::parse_document(html);
    let mut out = Vec::new();
    if let Ok(sel) = scraper::Selector::parse(selector) {
        for element in document.select(&sel) {
            out.push(element.text().collect::<String>());
        }
    }
    out
}

/// The `name` and `property` values looked up in `<meta>` tags for each field kind.
pub open spec fn meta_keys(t: AttributeType) -> Seq<Seq<char>> {
    match t {
        AttributeType::Author => seq!["author"@, "article:author"@, "byl"@],
        AttributeType::Publisher => seq!["publisher"@, "article:publisher"@],
        AttributeType::Date => seq![
            "date"@,
            "article:published_time"@,
            "pubdate"@,
            "publishdate"@,
            "DC.date.issued"@,
        ],
        AttributeType::Site => seq!["application-name"@, "apple-mobile-web-app-title"@],
        AttributeType::Language => seq!["language"@, "DC.language"@],
        _ => Seq::empty(),
    }
}

/// The `<meta>` names for a field kind, in the order tried.
pub fn keys(key: AttributeType) -> (r: Vec<MetadataKey>)
    ensures
        key_views(r@) == meta_keys(key),
{
    let r = match key {
        AttributeType::Author => vec![
            MetadataKey { key: "author" },
            MetadataKey { key: "article:author" },
            MetadataKey { key: "byl" },
        ],
        AttributeType::Publisher => vec![
            MetadataKey { key: "publisher" },
            MetadataKey { key: "article:publisher" },
        ],
        AttributeType::Date => vec![
            MetadataKey { key: "date" },
            MetadataKey { key: "article:published_time" },
            MetadataKey { key: "pubdate" },
            MetadataKey { key: "publishdate" },
            MetadataKey { key: "DC.date.issued" },
        ],
        AttributeType::Site => vec![
            MetadataKey { key: "application-name" },
            MetadataKey { key: "apple-mobile-web-app-title" },
        ],
        AttributeType::Language => vec![
            MetadataKey { key: "language" },
            MetadataKey { key: "DC.language" },
        ],
        _ => Vec::new(),
    };
    assert(key_views(r@) =~= meta_keys(key));
    r
}

/// A value that is there and not blank.
pub open spec fn usable(o: Option<Seq<char>>) -> bool {
    o matches Some(v) && trimmed(v).len() > 0
}

/// The selector of `<meta name="k">`.
pub open spec fn name_selector(k: Seq<char>) -> Seq<char> {
    "meta[name=\""@ + k + "\"]"@
}

/// The selector of `<meta property="k">`.
pub open spec fn property_selector(k: Seq<char>) -> Seq<char> {
    "meta[property=\""@ + k + "\"]"@
}

/// The `content` of the first `<meta>` tag named (by `name`, then by
/// `property`) after one of `keys`, taking the keys in order and skipping
/// blank contents.
pub open spec fn meta_content(html: Seq<char>, keys: Seq<Seq<char>>) -> Option<Seq<char>>
    decreases keys.len(),
{
    if keys.len() == 0 {
        None
    } else {
        let by_name = first_attr_of(html, name_selector(keys[0]), "content"@);
        let by_property = first_attr_of(html, property_selector(keys[0]), "content"@);
        if usable(by_name) {
            by_name
        } else if usable(by_property) {
            by_property
        } else {
            meta_content(html, keys.drop_first())
        }
    }
}

/// The `<time>` selectors whose `datetime` gives a date, in the order tried.
pub open spec fn time_selectors() -> Seq<Seq<char>> {
    seq![
        "time[itemprop=\"datePublished\"]"@,
        "time[itemprop=\"published\"]"@,
        "time[itemprop=\"dateCreated\"]"@,
        "time[datetime]"@,
    ]
}

/// The first non-blank `datetime` among the first matches of `sels`.
pub open spec fn microdata_date(html: Seq<char>, sels: Seq<Seq<char>>) -> Option<Seq<char>>
    decreases sels.len(),
{
    if sels.len() == 0 {
        None
    } else {
        let v = first_attr_of(html, sels[0], "datetime"@);
        if usable(v) {
            v
        } else {
            microdata_date(html, sels.drop_first())
        }
    }
}

/// The selectors that may hold an author's name, in the order tried.
pub open spec fn author_selectors() -> Seq<Seq<char>> {
    seq![
        "[itemprop=\"author\"] [itemprop=\"name\"]"@,
        "[itemprop=\"author\"]"@,
        "[rel=\"author\"]"@,
        ".author"@,
        ".byline"@,
        "[class*=\"author-name\"]"@,
        "[class*=\"byline\"]"@,
    ]
}

/// The number of bytes of a text in UTF-8.
pub open spec fn utf8_len(s: Seq<char>) -> nat
    decreases s.len(),
{
    if s.len() == 0 {
        0
    } else {
        let u = s.last() as u32;
        utf8_len(s.drop_last()) + if u < 0x80 {
            1nat
        } else if u < 0x800 {
            2nat
        } else if u < 0x10000 {
            3nat
        } else {
            4nat
        }
    }
}

/// `s` with `p` taken off its front as many times as it is there.
pub open spec fn strip_all(s: Seq<char>, p: Seq<char>) -> Seq<char>
    decreases s.len(),
{
    if p.len() > 0 && occurs_at(s, p, 0) {
        strip_all(s.skip(p.len() as int), p)
    } else {
        s
    }
}

/// A byline cleaned up: trimmed, under 200 bytes, without leading `Af `,
/// `By `, `af ` and `by `, and not blank.
pub open spec fn byline_author(text: Seq<char>) -> Option<Seq<char>> {
    let t = trimmed(text);
    if t.len() > 0 && utf8_len(t) < 200 {
        let c = trimmed(strip_all(strip_all(strip_all(strip_all(t, "Af "@), "By "@), "af "@), "by "@));
        if c.len() > 0 {
            Some(c)
        } else {
            None
        }
    } else {
        None
    }
}

/// The bylines among some texts, as authors.
pub open spec fn bylines(texts: Seq<Seq<char>>) -> Seq<AuthorView>
    decreases texts.len(),
{
    if texts.len() == 0 {
        Seq::empty()
    } else {
        match byline_author(texts.last()) {
            Some(c) => bylines(texts.drop_last()).push(AuthorView::Generic(c)),
            None => bylines(texts.drop_last()),
        }
    }
}

/// The authors from the first selector of `sels` whose matches give any.
pub open spec fn page_authors(html: Seq<char>, sels: Seq<Seq<char>>) -> Option<Seq<AuthorView>>
    decreases sels.len(),
{
    if sels.len() == 0 {
        None
    } else {
        let found = bylines(texts_of(html, sels[0]));
        if found.len() > 0 {
            Some(found)
        } else {
            page_authors(html, sels.drop_first())
        }
    }
}

/// A date from a meta tag or a `<time>` element: RFC 3339, else
/// `YYYY-MM-DDTHH:MM:SS` read as UTC, else `YYYY-MM-DD`.
pub open spec fn meta_date(v: Seq<char>) -> Option<AttributeView> {
    match rfc3339_date(v) {
        Some(d) => Some(AttributeView::Date(d)),
        None => match naive_datetime_of(v, "%Y-%m-%dT%H:%M:%S"@) {
            Some(t) => Some(AttributeView::Date(crate::attribute::Date::DateTime(t))),
            None => match naive_date_of(v, "%Y-%m-%d"@) {
                Some(d) => Some(AttributeView::Date(crate::attribute::Date::YearMonthDay(d))),
                None => None,
            },
        },
    }
}

/// The attribute a meta value makes for a field kind.
pub open spec fn meta_attribute(t: AttributeType, v: Seq<char>) -> Option<AttributeView> {
    match t {
        AttributeType::Author => Some(AttributeView::Authors(seq![AuthorView::Generic(v)])),
        AttributeType::Date => meta_date(v),
        AttributeType::Publisher => Some(AttributeView::Publisher(v)),
        AttributeType::Site => Some(AttributeView::Site(v)),
        AttributeType::Language => Some(AttributeView::Language(v)),
        _ => None,
    }
}

/// What the page's HTML says of a field kind: a meta tag first; for
/// authors, then the page's bylines; for dates, then its `<time>` elements.
pub open spec fn html_value(info: ParseInfo, t: AttributeType) -> Option<AttributeView> {
    let html = info.raw_html@;
    match meta_content(html, meta_keys(t)) {
        Some(v) => meta_attribute(t, v),
        None => match t {
            AttributeType::Author => match page_authors(html, author_selectors()) {
                Some(a) => Some(AttributeView::Authors(a)),
                None => None,
            },
            AttributeType::Date => match microdata_date(html, time_selectors()) {
                Some(v) => meta_attribute(t, v),
                None => None,
            },
            _ => None,
        },
    }
}

fn is_usable(o: &Option<String>) -> (r: bool)
    ensures
        r == usable(match *o {
            Some(s) => Some(s@),
            None => None,
        }),
{
    match o {
        Some(s) => trim_text(s.as_str()).as_str().unicode_len() > 0,
        None => false,
    }
}

fn try_find_meta_content(raw_html: &str, external_keys: &Vec<MetadataKey>) -> (r: Option<String>)
    ensures
        match r {
            Some(s) => meta_content(raw_html@, key_views(external_keys@)) == Some(s@),
            None => meta_content(raw_html@, key_views(external_keys@)) is None,
        },
{
    let ghost ks = key_views(external_keys@);
    let mut i: usize = 0;
    assert(ks.skip(0) =~= ks);
    while i < external_keys.len()
        invariant
            i <= external_keys@.len(),
            ks == key_views(external_keys@),
            meta_content(raw_html@, ks) == meta_content(raw_html@, ks.skip(i as int)),
        decreases external_keys@.len() - i,
    {
        assert(ks.skip(i as int).drop_first() =~= ks.skip(i + 1));
        let key = external_keys[i].key;
        let name_sel = String::from_str("meta[name=\"").concat(key).concat("\"]");
        let by_name = select_first_attr(raw_html, name_sel.as_str(), "content");
        if is_usable(&by_name) {
            return by_name;
        }
        let prop_sel = String::from_str("meta[property=\"").concat(key).concat("\"]");
        let by_property = select_first_attr(raw_html, prop_sel.as_str(), "content");
        if is_usable(&by_property) {
            return by_property;
        }
        i = i + 1;
    }
    None
}

fn try_find_microdata_date(raw_html: &str) -> (r: Option<String>)
    ensures
        match r {
            Some(s) => microdata_date(raw_html@, time_selectors()) == Some(s@),
            None => microdata_date(raw_html@, time_selectors()) is None,
        },
{
    let selectors = [
        "time[itemprop=\"datePublished\"]",
        "time[itemprop=\"published\"]",
        "time[itemprop=\"dateCreated\"]",
        "time[datetime]",
    ];
    let ghost sels = time_selectors();
    assert(forall|k: int| 0 <= k < 4 ==> (#[trigger] selectors@[k])@ == sels[k]);
    assert(sels.skip(0) =~= sels);
    let mut i: usize = 0;
    while i < 4
        invariant
            i <= 4,
            sels == time_selectors(),
            forall|k: int| 0 <= k < 4 ==> (#[trigger] selectors@[k])@ == sels[k],
            microdata_date(raw_html@, sels) == microdata_date(raw_html@, sels.skip(i as int)),
        decreases 4 - i,
    {
        assert(sels.skip(i as int).drop_first() =~= sels.skip(i + 1));
        assert(sels.skip(i as int)[0] == selectors@[i as int]@);
        let v = select_first_attr(raw_html, selectors[i], "datetime");
        if is_usable(&v) {
            return v;
        }
        i = i + 1;
    }
    None
}

fn strip_prefix_all(s: String, p: &str) -> (r: String)
    requires
        p@.len() > 0,
    ensures
        r@ == strip_all(s@, p@),
{
    let mut cur = s;
    let m = p.unicode_len();
    while starts_with_text(cur.as_str(), p)
        invariant
            m == p@.len(),
            m > 0,
            strip_all(cur@, p@) == strip_all(s@, p@),
        decreases cur@.len(),
    {
        let n = cur.as_str().unicode_len();
        let rest = String::from_str(cur.as_str().substring_char(m, n));
        assert(rest@ =~= cur@.skip(m as int));
        cur = rest;
    }
    cur
}

fn utf8_length(s: &str) -> (r: usize)
    ensures
        r as nat == utf8_len(s@) || (r == 200 && utf8_len(s@) >= 200),
{
    let n = s.unicode_len();
    let mut total: usize = 0;
    let mut i: usize = 0;
    while i < n
        invariant
            n == s@.len(),
            i <= n,
            total as nat == utf8_len(s@.take(i as int)),
            total < 200,
        decreases n - i,
    {
        let u = s.get_char(i) as u32;
        let w: usize = if u < 0x80 {
            1
        } else if u < 0x800 {
            2
        } else if u < 0x10000 {
            3
        } else {
            4
        };
        assert(s@.take(i + 1).drop_last() =~= s@.take(i as int));
        total = total + w;
        i = i + 1;
        if total >= 200 {
            proof {
                lemma_utf8_len_grows(s@, i as int);
            }
            return 200;
        }
    }
    assert(s@.take(n as int) =~= s@);
    total
}

proof fn lemma_utf8_len_grows(s: Seq<char>, i: int)
    requires
        0 <= i <= s.len(),
    ensures
        utf8_len(s.take(i)) <= utf8_len(s),
    decreases s.len() - i,
{
    if i < s.len() {
        lemma_utf8_len_grows(s, i + 1);
        assert(s.take(i + 1).drop_last() =~= s.take(i));
    } else {
        assert(s.take(i) =~= s);
    }
}

/// A byline cleaned up, or nothing when it is blank or 200 bytes or longer.
pub fn clean_byline(text: &str) -> (r: Option<String>)
    ensures
        match r {
            Some(c) => byline_author(text@) == Some(c@),
            None => byline_author(text@) is None,
        },
{
    let t = trim_text(text);
    if t.as_str().unicode_len() == 0 || utf8_length(t.as_str()) >= 200 {
        return None;
    }
    proof {
        reveal_strlit("Af ");
        reveal_strlit("By ");
        reveal_strlit("af ");
        reveal_strlit("by ");
    }
    let a = strip_prefix_all(t, "Af ");
    let b = strip_prefix_all(a, "By ");
    let c = strip_prefix_all(b, "af ");
    let d = strip_prefix_all(c, "by ");
    let cleaned = trim_text(d.as_str());
    if cleaned.as_str().unicode_len() > 0 {
        Some(cleaned)
    } else {
        None
    }
}

fn try_find_author(raw_html: &str) -> (r: Option<Vec<Author>>)
    ensures
        match r {
            Some(v) => page_authors(raw_html@, author_selectors()) == Some(author_views(v@)),
            None => page_authors(raw_html@, author_selectors()) is None,
        },
{
    let selectors = [
        "[itemprop=\"author\"] [itemprop=\"name\"]",
        "[itemprop=\"author\"]",
        "[rel=\"author\"]",
        ".author",
        ".byline",
        "[class*=\"author-name\"]",
        "[class*=\"byline\"]",
    ];
    let ghost sels = author_selectors();
    assert(forall|k: int| 0 <= k < 7 ==> (#[trigger] selectors@[k])@ == sels[k]);
    assert(sels.skip(0) =~= sels);
    let mut i: usize = 0;
    while i < 7
        invariant
            i <= 7,
            sels == author_selectors(),
            forall|k: int| 0 <= k < 7 ==> (#[trigger] selectors@[k])@ == sels[k],
            page_authors(raw_html@, sels) == page_authors(raw_html@, sels.skip(i as int)),
        decreases 7 - i,
    {
        assert(sels.skip(i as int).drop_first() =~= sels.skip(i + 1));
        assert(sels.skip(i as int)[0] == selectors@[i as int]@);
        let texts = select_texts(raw_html, selectors[i]);
        let mut authors: Vec<Author> = Vec::new();
        let mut j: usize = 0;
        while j < texts.len()
            invariant
                j <= texts@.len(),
                author_views(authors@) == bylines(views(texts@).take(j as int)),
            decreases texts@.len() - j,
        {
            assert(views(texts@).take(j + 1).drop_last() =~= views(texts@).take(j as int));
            match clean_byline(texts[j].as_str()) {
                Some(c) => {
                    let ghost before = authors@;
                    authors.push(Author::Generic(c));
                    assert(author_views(authors@) =~= author_views(before).push(
                        AuthorView::Generic(c@),
                    ));
                },
                None => {},
            }
            j = j + 1;
        }
        assert(views(texts@).take(texts@.len() as int) =~= views(texts@));
        if authors.len() > 0 {
            return Some(authors);
        }
        i = i + 1;
    }
    None
}

/// The attribute a meta value makes for a field kind.
pub fn attribute_type_to_attribute(attribute_type: AttributeType, attribute_value: String) -> (r:
    Option<Attribute>)
    ensures
        opt_view(r) == meta_attribute(attribute_type, attribute_value@),
{
    match attribute_type {
        AttributeType::Author => {
            let v = vec![Author::Generic(attribute_value)];
            assert(author_views(v@) =~= seq![AuthorView::Generic(attribute_value@)]);
            Some(Attribute::Authors(v))
        },
        AttributeType::Date => {
            match parse_date(attribute_value.as_str()) {
                Some(d) => {
                    return Some(Attribute::Date(d));
                },
                None => {},
            }
            match parse_instant(attribute_value.as_str(), "%Y-%m-%dT%H:%M:%S") {
                Some(d) => {
                    return Some(Attribute::Date(d));
                },
                None => {},
            }
            match parse_day(attribute_value.as_str(), "%Y-%m-%d") {
                Some(d) => Some(Attribute::Date(d)),
                None => None,
            }
        },
        AttributeType::Publisher => Some(Attribute::Publisher(attribute_value)),
        AttributeType::Site => Some(Attribute::Site(attribute_value)),
        AttributeType::Language => Some(Attribute::Language(attribute_value)),
        _ => None,
    }
}

/// The HTML source.
pub struct HtmlMeta;

impl HtmlMeta {
    /// What the page's HTML says of a field kind.
    pub fn parse_attribute(parse_info: &ParseInfo, attribute_type: AttributeType) -> (r: Option<
        Attribute,
    >)
        ensures
            opt_view(r) == html_value(*parse_info, attribute_type),
    {
        let raw_html = parse_info.raw_html.as_str();
        let external_keys = keys(attribute_type);
        match try_find_meta_content(raw_html, &external_keys) {
            Some(v) => {
                return attribute_type_to_attribute(attribute_type, v);
            },
            None => {},
        }
        match attribute_type {
            AttributeType::Author => match try_find_author(raw_html) {
                Some(authors) => Some(Attribute::Authors(authors)),
                None => None,
            },
            AttributeType::Date => match try_find_microdata_date(raw_html) {
                Some(v) => attribute_type_to_attribute(attribute_type, v),
                None => None,
            },
            _ => None,
        }
    }
}

} // verus!
