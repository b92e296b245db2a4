//! Citation builders: accumulators that take resolved attributes one at a
//! time and render a MediaWiki `{{cite web}}`, a BibTeX entry or a Harvard
//! reference.

use vstd::prelude::*;
use crate::attribute::{
    Attribute,
    AttributeView,
    Author,
    AuthorView,
    CalendarDate,
    Date,
    author_views,
    opt_view,
};
use crate::text::{
    digits,
    int_digits,
    int_text,
    join,
    join_first,
    join_strings,
    nat_text,
    normalize_whitespace,
    normalized,
    padded_text,
    split_words,
    views,
    lemma_digits_len,
    lemma_words_nonempty,
    words,
    zero_pad,
};

verus! {

// ---------------------------------------------------------------------------
// Dates
/// A year as `%Y` writes it: four digits at least, with a sign outside 0 to 9999.
pub open spec fn year4(y: int) -> Seq<char> {
    if 0 <= y && y <= 9999 {
        zero_pad(digits(y as nat), 4)
    } else if y > 9999 {
        seq!['+'] + digits(y as nat)
    } else {
        seq!['-'] + zero_pad(digits((-y) as nat), 4)
    }
}

/// A day as `YYYY-MM-DD`.
pub open spec fn ymd_text(d: CalendarDate) -> Seq<char> {
    year4(d.year as int) + seq!['-'] + zero_pad(digits(d.month as nat), 2) + seq!['-'] + zero_pad(
        digits(d.day as nat),
        2,
    )
}

/// A date in the precision it has: `YYYY-MM-DD` for an instant or a day,
/// the year and a two-digit month for a month, the year alone for a year.
pub open spec fn date_text(d: Date) -> Seq<char> {
    match d {
        Date::DateTime(t) => ymd_text(t.spec_date()),
        Date::YearMonthDay(c) => ymd_text(c),
        Date::YearMonth { year, month } => int_digits(year as int) + seq!['-'] + two_digits(
            month as int,
        ),
        Date::Year(year) => int_digits(year as int),
    }
}

/// A year in the `%Y` form.
pub fn year_text4(y: i32) -> (r: String)
    ensures
        r@ == year4(y as int),
{
    if 0 <= y && y <= 9999 {
        padded_text(y as u64, 4)
    } else if y > 9999 {
        let tail = nat_text(y as u64);
        proof {
            reveal_strlit("+");
        }
        let r = String::from_str("+").concat(tail.as_str());
        assert(r@ =~= seq!['+'] + digits(y as nat));
        r
    } else {
        let m: u64 = (-(y as i64)) as u64;
        let tail = padded_text(m, 4);
        proof {
            reveal_strlit("-");
        }
        let r = String::from_str("-").concat(tail.as_str());
        assert(r@ =~= seq!['-'] + zero_pad(digits((-y) as nat), 4));
        r
    }
}

/// A day as `YYYY-MM-DD`.
pub fn ymd_string(d: CalendarDate) -> (r: String)
    ensures
        r@ == ymd_text(d),
{
    proof {
        reveal_strlit("-");
        assert("-"@ =~= seq!['-']);
    }
    let mut r = year_text4(d.year);
    r.append("-");
    r.append(padded_text(d.month as u64, 2).as_str());
    r.append("-");
    r.append(padded_text(d.day as u64, 2).as_str());
    r
}

/// A date in the precision it has.
pub fn date_string(d: &Date) -> (r: String)
    ensures
        r@ == date_text(*d),
{
    proof {
        reveal_strlit("-");
        assert("-"@ =~= seq!['-']);
    }
    match d {
        Date::DateTime(t) => ymd_string(CalendarDate { year: t.year, month: t.month, day: t.day }),
        Date::YearMonthDay(c) => ymd_string(*c),
        Date::YearMonth { year, month } => {
            let mut r = int_text(*year);
            r.append("-");
            r.append(two_digit_string(*month).as_str());
            r
        },
        Date::Year(year) => int_text(*year),
    }
}

/// A date never shows more than it holds: a year shows as the year alone; a
/// month (of a year from 0 to 9999) shows as `YYYY-MM`; a day (of a year from
/// 0 to 9999) always shows as `YYYY-MM-DD`, with all three parts.
pub proof fn law_date_precision(d: Date)
    ensures
        d matches Date::Year(y) ==> date_text(d) == int_digits(y as int) && bib_date_value(d)
            == int_digits(y as int),
        d matches Date::YearMonth { year, month } ==> (1000 <= year <= 9999 && 1 <= month <= 12
            ==> {
            let t = date_text(d);
            &&& t == bib_date_value(d)
            &&& t.len() == 7
            &&& t[4] == '-'
            &&& t.subrange(0, 4) == digits(year as nat)
            &&& t.subrange(5, 7) == zero_pad(digits(month as nat), 2)
        }),
        d matches Date::YearMonthDay(c) ==> (c.wf() && 0 <= c.year <= 9999 ==> {
            let t = date_text(d);
            &&& t.len() == 10
            &&& t[4] == '-'
            &&& t[7] == '-'
            &&& t.subrange(0, 4) == zero_pad(digits(c.year as nat), 4)
            &&& t.subrange(5, 7) == zero_pad(digits(c.month as nat), 2)
            &&& t.subrange(8, 10) == zero_pad(digits(c.day as nat), 2)
        }),
{
    if let Date::YearMonth { year, month } = d {
        if 1000 <= year <= 9999 && 1 <= month <= 12 {
            lemma_digits_len(year as nat);
            lemma_digits_len(month as nat);
            assert(digits(year as nat).len() == 4) by {
                lemma_digits_len((year / 10) as nat);
                lemma_digits_len((year / 100) as nat);
            }
            let m = two_digits(month as int);
            assert(m == zero_pad(digits(month as nat), 2)) by {
                if month < 10 {
                    assert(Seq::new(1, |k: int| '0') =~= seq!['0']);
                }
            }
            let t = date_text(d);
            assert(t =~= digits(year as nat) + seq!['-'] + m);
            assert(t.subrange(0, 4) =~= digits(year as nat));
            assert(t.subrange(5, 7) =~= m);
        }
    }
    if let Date::YearMonthDay(c) = d {
        if c.wf() && 0 <= c.year <= 9999 {
            lemma_digits_len(c.year as nat);
            lemma_digits_len(c.month as nat);
            lemma_digits_len(c.day as nat);
            let y = zero_pad(digits(c.year as nat), 4);
            let m = zero_pad(digits(c.month as nat), 2);
            let dd = zero_pad(digits(c.day as nat), 2);
            assert(y.len() == 4);
            assert(m.len() == 2);
            assert(dd.len() == 2);
            let t = date_text(d);
            assert(t =~= y + seq!['-'] + m + seq!['-'] + dd);
            assert(t.subrange(0, 4) =~= y);
            assert(t.subrange(5, 7) =~= m);
            assert(t.subrange(8, 10) =~= dd);
        }
    }
}

// ---------------------------------------------------------------------------
// Wiki
/// One author's `{{cite web}}` parameters; `idx` is the author's number, or
/// empty when there is a single author.
pub open spec fn wiki_author(a: AuthorView, idx: Seq<char>) -> Seq<char> {
    let (s, splits) = match a {
        AuthorView::Person(s) => (s, words(s).len() >= 1),
        AuthorView::Generic(s) => (s, words(s).len() >= 2),
        AuthorView::Organization(s) => (s, false),
    };
    let w = words(s);
    if splits {
        "| last"@ + idx + " = "@ + w.last() + "\n| first"@ + idx + " = "@ + join(
            w.drop_last(),
            seq![' '],
        )
    } else {
        "| author"@ + idx + " = "@ + normalized(s)
    }
}

/// The number shown after each author's parameters: none for a single author.
pub open spec fn wiki_index(count: nat, i: int) -> Seq<char> {
    if count > 1 {
        digits((i + 1) as nat)
    } else {
        Seq::empty()
    }
}

/// The author parameters of a list of authors, separated by spaces.
pub open spec fn wiki_authors(v: Seq<AuthorView>) -> Seq<char> {
    join(Seq::new(v.len(), |i: int| wiki_author(v[i], wiki_index(v.len(), i))), seq![' '])
}

/// A single author's parameters carry no number; with two authors each
/// carries its position, `1` and `2`.
pub proof fn law_wiki_author_numbering(a: AuthorView, b: AuthorView)
    ensures
        wiki_authors(seq![a]) == wiki_author(a, Seq::empty()),
        wiki_authors(seq![a, b]) == wiki_author(a, seq!['1']) + seq![' '] + wiki_author(
            b,
            seq!['2'],
        ),
{
    let one = Seq::new(1, |i: int| wiki_author(seq![a][i], wiki_index(1, i)));
    assert(one.len() == 1);
    let two = Seq::new(2, |i: int| wiki_author(seq![a, b][i], wiki_index(2, i)));
    assert(two.drop_last() =~= seq![wiki_author(a, digits(1))]);
    assert(digits(1) =~= seq!['1']);
    assert(digits(2) =~= seq!['2']);
    assert(join(two.drop_last(), seq![' ']) == wiki_author(a, seq!['1']));
    assert(two.last() == wiki_author(b, seq!['2']));
    assert(wiki_authors(seq![a, b]) == join(two, seq![' ']));
}

/// What `{{cite web}}` shows for an attribute, if it shows it.
pub open spec fn wiki_entry(a: AttributeView) -> Option<Seq<char>> {
    match a {
        AttributeView::Title(v) => Some("| title = "@ + normalized(v)),
        AttributeView::TranslatedTitle(t, _) => Some("| trans-title = "@ + normalized(t)),
        AttributeView::Authors(v) => Some(wiki_authors(v)),
        AttributeView::Date(d) => Some("| date = "@ + date_text(d)),
        AttributeView::ArchiveDate(d) => Some("| archive-date = "@ + date_text(d)),
        AttributeView::Language(v) => Some("| language = "@ + normalized(v)),
        AttributeView::Site(v) => Some("| site = "@ + normalized(v)),
        AttributeView::Url(v) => Some("| url = "@ + v),
        AttributeView::ArchiveUrl(v) => Some("| archive-url = "@ + v),
        AttributeView::Journal(v) => Some("| journal = "@ + normalized(v)),
        AttributeView::Publisher(v) => Some("| publisher = "@ + normalized(v)),
        _ => None,
    }
}

/// The accumulated parameters after adding `a`: one more line when shown.
pub open spec fn wiki_after(acc: Seq<char>, a: AttributeView) -> Seq<char> {
    match wiki_entry(a) {
        Some(e) => acc + "\n"@ + e,
        None => acc,
    }
}

/// The finished `{{cite web}}` template around the accumulated parameters.
pub open spec fn wiki_text(acc: Seq<char>) -> Seq<char> {
    "{{cite web"@ + acc + "\n}}"@
}

fn wiki_author_string(a: &Author, idx: &str) -> (r: String)
    ensures
        r@ == wiki_author(a@, idx@),
{
    let s = match a {
        Author::Person(s) => s,
        Author::Generic(s) => s,
        Author::Organization(s) => s,
    };
    let w = split_words(s.as_str());
    let n = w.len();
    assert(views(w@).len() == n);
    let splits = match a {
        Author::Person(_) => n >= 1,
        Author::Generic(_) => n >= 2,
        Author::Organization(_) => false,
    };
    if splits {
        let firsts = join_first(&w, n - 1, " ");
        proof {
            reveal_strlit(" ");
            assert(" "@ =~= seq![' ']);
            assert(views(w@.take(n - 1)) =~= views(w@).drop_last());
        }
        let mut r = String::from_str("| last");
        r.append(idx);
        r.append(" = ");
        r.append(w[n - 1].as_str());
        r.append("\n| first");
        r.append(idx);
        r.append(" = ");
        r.append(firsts.as_str());
        r
    } else {
        let mut r = String::from_str("| author");
        r.append(idx);
        r.append(" = ");
        r.append(normalize_whitespace(s.as_str()).as_str());
        r
    }
}

fn wiki_authors_string(v: &Vec<Author>) -> (r: String)
    ensures
        r@ == wiki_authors(author_views(v@)),
{
    let n = v.len();
    let ghost av = author_views(v@);
    let mut parts: Vec<String> = Vec::new();
    let mut i: usize = 0;
    while i < n
        invariant
            n == v@.len(),
            av == author_views(v@),
            i <= n,
            views(parts@) =~= Seq::new(i as nat, |k: int| wiki_author(av[k], wiki_index(n as nat, k))),
        decreases n - i,
    {
        let idx = if n > 1 {
            nat_text((i + 1) as u64)
        } else {
            String::new()
        };
        let part = wiki_author_string(&v[i], idx.as_str());
        let ghost before = parts@;
        parts.push(part);
        assert(views(parts@) =~= views(before).push(part@));
        i = i + 1;
    }
    proof {
        reveal_strlit(" ");
        assert(" "@ =~= seq![' ']);
    }
    join_strings(&parts, " ")
}

/// Builds a citation with the `{{cite web}}` template of the English Wikipedia.
pub struct WikiCitation {
    formatted_string: String,
}

impl View for WikiCitation {
    type V = Seq<char>;

    closed spec fn view(&self) -> Seq<char> {
        self.formatted_string@
    }
}

impl WikiCitation {
    /// An empty citation.
    pub fn new() -> (r: Self)
        ensures
            r@ == Seq::<char>::empty(),
    {
        WikiCitation { formatted_string: String::new() }
    }

    /// Adds the attribute when there is one; `None` leaves the citation as it is.
    pub fn try_add(self, attribute_option: &Option<Attribute>) -> (r: Self)
        ensures
            r@ == match opt_view(*attribute_option) {
                Some(a) => wiki_after(self@, a),
                None => self@,
            },
    {
        match attribute_option {
            Some(attribute) => self.add(attribute),
            None => self,
        }
    }

    /// Adds the attribute's parameters on a line of their own; kinds that the
    /// template does not show are skipped.
    pub fn add(self, attribute: &Attribute) -> (r: Self)
        ensures
            r@ == wiki_after(self@, attribute@),
    {
        let entry: Option<String> = match attribute {
            Attribute::Title(v) => Some(String::from_str("| title = ").concat(normalize_whitespace(v.as_str()).as_str())),
            Attribute::TranslatedTitle(t) => Some(String::from_str("| trans-title = ").concat(normalize_whitespace(t.text.as_str()).as_str())),
            Attribute::Authors(v) => Some(wiki_authors_string(v)),
            Attribute::Date(d) => Some(String::from_str("| date = ").concat(date_string(d).as_str())),
            Attribute::ArchiveDate(d) => Some(String::from_str("| archive-date = ").concat(date_string(d).as_str())),
            Attribute::Language(v) => Some(String::from_str("| language = ").concat(normalize_whitespace(v.as_str()).as_str())),
            Attribute::Site(v) => Some(String::from_str("| site = ").concat(normalize_whitespace(v.as_str()).as_str())),
            Attribute::Url(v) => Some(String::from_str("| url = ").concat(v.as_str())),
            Attribute::ArchiveUrl(v) => Some(String::from_str("| archive-url = ").concat(v.as_str())),
            Attribute::Journal(v) => Some(String::from_str("| journal = ").concat(normalize_whitespace(v.as_str()).as_str())),
            Attribute::Publisher(v) => Some(String::from_str("| publisher = ").concat(normalize_whitespace(v.as_str()).as_str())),
            _ => None,
        };
        let mut fs = self.formatted_string;
        match entry {
            Some(e) => {
                fs.append("\n");
                fs.append(e.as_str());
            },
            None => {},
        }
        WikiCitation { formatted_string: fs }
    }

    /// The finished template.
    pub fn build(self) -> (r: String)
        ensures
            r@ == wiki_text(self@),
    {
        let r = String::from_str("{{cite web").concat(self.formatted_string.as_str());
        r.concat("\n}}")
    }
}

// ---------------------------------------------------------------------------
// BibTeX
/// One author as BibTeX names it: `Last, First` where the name splits, else
/// the whole name in braces.
pub open spec fn bib_author(a: AuthorView) -> Seq<char> {
    let (s, splits) = match a {
        AuthorView::Person(s) => (s, words(s).len() >= 1),
        AuthorView::Generic(s) => (s, words(s).len() >= 2),
        AuthorView::Organization(s) => (s, false),
    };
    let w = words(s);
    if splits {
        w.last() + ", "@ + join(w.drop_last(), seq![' '])
    } else {
        "{"@ + normalized(s) + "}"@
    }
}

/// The `author` field: every author, joined with ` and `.
pub open spec fn bib_authors(v: Seq<AuthorView>) -> Seq<char> {
    "author = \""@ + join(Seq::new(v.len(), |i: int| bib_author(v[i])), " and "@) + "\""@
}

/// A month number with two digits at least, as `{:02}` writes it.
pub open spec fn two_digits(m: int) -> Seq<char> {
    if 0 <= m && m < 10 {
        seq!['0'] + digits(m as nat)
    } else {
        int_digits(m)
    }
}

/// The date fields: one `date` for an instant or a day, `year` and `month`
/// for a month, `year` alone for a year.
pub open spec fn bib_date(d: Date) -> Seq<char> {
    match d {
        Date::DateTime(t) => "date = \""@ + ymd_text(t.spec_date()) + "\""@,
        Date::YearMonthDay(c) => "date = \""@ + ymd_text(c) + "\""@,
        Date::YearMonth { year, month } => "year = \""@ + int_digits(year as int)
            + "\",\nmonth = \""@ + int_digits(month as int) + "\""@,
        Date::Year(year) => "year = \""@ + int_digits(year as int) + "\""@,
    }
}

/// A date as one value: `YYYY-MM-DD`, `YYYY-MM` or the year.
pub open spec fn bib_date_value(d: Date) -> Seq<char> {
    match d {
        Date::DateTime(t) => ymd_text(t.spec_date()),
        Date::YearMonthDay(c) => ymd_text(c),
        Date::YearMonth { year, month } => int_digits(year as int) + seq!['-'] + two_digits(
            month as int,
        ),
        Date::Year(year) => int_digits(year as int),
    }
}

/// What a BibTeX entry holds for an attribute, if it holds it.
pub open spec fn bib_entry(a: AttributeView) -> Option<Seq<char>> {
    match a {
        AttributeView::Title(v) => Some("title = \""@ + normalized(v) + "\""@),
        AttributeView::TranslatedTitle(t, _) => Some(
            "note = \"Translated title: "@ + normalized(t) + "\""@,
        ),
        AttributeView::Authors(v) => Some(bib_authors(v)),
        AttributeView::Date(d) => Some(bib_date(d)),
        AttributeView::Url(v) => Some("url = \\url{"@ + v + "}"@),
        AttributeView::Site(v) => Some("howpublished = \""@ + normalized(v) + "\""@),
        AttributeView::Publisher(v) => Some("publisher = \""@ + normalized(v) + "\""@),
        AttributeView::Language(v) => Some("language = \""@ + normalized(v) + "\""@),
        AttributeView::Journal(v) => Some("journal = \""@ + normalized(v) + "\""@),
        AttributeView::ArchiveUrl(v) => Some("archiveurl = \\url{"@ + v + "}"@),
        AttributeView::ArchiveDate(d) => Some("archivedate = \""@ + bib_date_value(d) + "\""@),
        _ => None,
    }
}

/// The accumulated fields after adding `a`: one more field when held.
pub open spec fn bib_after(acc: Seq<char>, a: AttributeView) -> Seq<char> {
    match bib_entry(a) {
        Some(e) => acc + e + ",\n"@,
        None => acc,
    }
}

/// The finished `@misc` entry around the accumulated fields.
pub open spec fn bib_text(acc: Seq<char>) -> Seq<char> {
    "@misc{ url2ref,\n"@ + acc + "}"@
}

fn bib_author_string(a: &Author) -> (r: String)
    ensures
        r@ == bib_author(a@),
{
    let s = match a {
        Author::Person(s) => s,
        Author::Generic(s) => s,
        Author::Organization(s) => s,
    };
    let w = split_words(s.as_str());
    let n = w.len();
    assert(views(w@).len() == n);
    let splits = match a {
        Author::Person(_) => n >= 1,
        Author::Generic(_) => n >= 2,
        Author::Organization(_) => false,
    };
    if splits {
        let firsts = join_first(&w, n - 1, " ");
        proof {
            reveal_strlit(" ");
            assert(" "@ =~= seq![' ']);
            assert(views(w@.take(n - 1)) =~= views(w@).drop_last());
        }
        let mut r = w[n - 1].clone();
        r.append(", ");
        r.append(firsts.as_str());
        r
    } else {
        let mut r = String::from_str("{");
        r.append(normalize_whitespace(s.as_str()).as_str());
        r.append("}");
        r
    }
}

fn bib_authors_string(v: &Vec<Author>) -> (r: String)
    ensures
        r@ == bib_authors(author_views(v@)),
{
    let n = v.len();
    let ghost av = author_views(v@);
    let mut parts: Vec<String> = Vec::new();
    let mut i: usize = 0;
    while i < n
        invariant
            n == v@.len(),
            av == author_views(v@),
            i <= n,
            views(parts@) =~= Seq::new(i as nat, |k: int| bib_author(av[k])),
        decreases n - i,
    {
        let part = bib_author_string(&v[i]);
        let ghost before = parts@;
        parts.push(part);
        assert(views(parts@) =~= views(before).push(part@));
        i = i + 1;
    }
    let mut r = String::from_str("author = \"");
    r.append(join_strings(&parts, " and ").as_str());
    r.append("\"");
    r
}

fn two_digit_string(m: i32) -> (r: String)
    ensures
        r@ == two_digits(m as int),
{
    if 0 <= m && m < 10 {
        let r = padded_text(m as u64, 2);
        assert(digits(m as nat).len() == 1);
        assert(r@ =~= seq!['0'] + digits(m as nat));
        r
    } else {
        int_text(m)
    }
}

fn bib_date_string(d: &Date) -> (r: String)
    ensures
        r@ == bib_date(*d),
{
    match d {
        Date::DateTime(t) => {
            let mut r = String::from_str("date = \"");
            r.append(ymd_string(CalendarDate { year: t.year, month: t.month, day: t.day }).as_str());
            r.append("\"");
            r
        },
        Date::YearMonthDay(c) => {
            let mut r = String::from_str("date = \"");
            r.append(ymd_string(*c).as_str());
            r.append("\"");
            r
        },
        Date::YearMonth { year, month } => {
            let mut r = String::from_str("year = \"");
            r.append(int_text(*year).as_str());
            r.append("\",\nmonth = \"");
            r.append(int_text(*month).as_str());
            r.append("\"");
            r
        },
        Date::Year(year) => {
            let mut r = String::from_str("year = \"");
            r.append(int_text(*year).as_str());
            r.append("\"");
            r
        },
    }
}

fn bib_date_value_string(d: &Date) -> (r: String)
    ensures
        r@ == bib_date_value(*d),
{
    proof {
        reveal_strlit("-");
        assert("-"@ =~= seq!['-']);
    }
    match d {
        Date::DateTime(t) => ymd_string(CalendarDate { year: t.year, month: t.month, day: t.day }),
        Date::YearMonthDay(c) => ymd_string(*c),
        Date::YearMonth { year, month } => {
            let mut r = int_text(*year);
            r.append("-");
            r.append(two_digit_string(*month).as_str());
            r
        },
        Date::Year(year) => int_text(*year),
    }
}

fn quoted(prefix: &str, v: &str) -> (r: String)
    ensures
        r@ == prefix@ + normalized(v@) + "\""@,
{
    let mut r = String::from_str(prefix);
    r.append(normalize_whitespace(v).as_str());
    r.append("\"");
    r
}

fn braced(prefix: &str, v: &str) -> (r: String)
    ensures
        r@ == prefix@ + v@ + "}"@,
{
    let mut r = String::from_str(prefix);
    r.append(v);
    r.append("}");
    r
}

/// Builds a citation as a BibTeX `@misc` entry.
pub struct BibTeXCitation {
    formatted_string: String,
}

impl View for BibTeXCitation {
    type V = Seq<char>;

    closed spec fn view(&self) -> Seq<char> {
        self.formatted_string@
    }
}

impl BibTeXCitation {
    /// An empty entry.
    pub fn new() -> (r: Self)
        ensures
            r@ == Seq::<char>::empty(),
    {
        BibTeXCitation { formatted_string: String::new() }
    }

    /// Adds the attribute when there is one; `None` leaves the entry as it is.
    pub fn try_add(self, attribute_option: &Option<Attribute>) -> (r: Self)
        ensures
            r@ == match opt_view(*attribute_option) {
                Some(a) => bib_after(self@, a),
                None => self@,
            },
    {
        match attribute_option {
            Some(attribute) => self.add(attribute),
            None => self,
        }
    }

    /// Adds the attribute's field followed by `,` and a line break; kinds that
    /// the entry does not hold are skipped.
    pub fn add(self, attribute: &Attribute) -> (r: Self)
        ensures
            r@ == bib_after(self@, attribute@),
    {
        let entry: Option<String> = match attribute {
            Attribute::Title(v) => Some(quoted("title = \"", v.as_str())),
            Attribute::TranslatedTitle(t) => Some(quoted("note = \"Translated title: ", t.text.as_str())),
            Attribute::Authors(v) => Some(bib_authors_string(v)),
            Attribute::Date(d) => Some(bib_date_string(d)),
            Attribute::Url(v) => Some(braced("url = \\url{", v.as_str())),
            Attribute::Site(v) => Some(quoted("howpublished = \"", v.as_str())),
            Attribute::Publisher(v) => Some(quoted("publisher = \"", v.as_str())),
            Attribute::Language(v) => Some(quoted("language = \"", v.as_str())),
            Attribute::Journal(v) => Some(quoted("journal = \"", v.as_str())),
            Attribute::ArchiveUrl(v) => Some(braced("archiveurl = \\url{", v.as_str())),
            Attribute::ArchiveDate(d) => {
                let mut r = String::from_str("archivedate = \"");
                r.append(bib_date_value_string(d).as_str());
                r.append("\"");
                Some(r)
            },
            _ => None,
        };
        let mut fs = self.formatted_string;
        match entry {
            Some(e) => {
                fs.append(e.as_str());
                fs.append(",\n");
            },
            None => {},
        }
        BibTeXCitation { formatted_string: fs }
    }

    /// The finished entry.
    pub fn build(self) -> (r: String)
        ensures
            r@ == bib_text(self@),
    {
        let r = String::from_str("@misc{ url2ref,\n").concat(self.formatted_string.as_str());
        r.concat("}")
    }
}

// ---------------------------------------------------------------------------
// Harvard
/// The initials of some names: each name's first character and a full stop.
pub open spec fn initials(names: Seq<Seq<char>>) -> Seq<char>
    decreases names.len(),
{
    if names.len() == 0 {
        Seq::empty()
    } else {
        initials(names.drop_last()) + seq![names.last()[0], '.']
    }
}

/// One author in Harvard style: `Last, F.M.` for a name of two words or more,
/// the single word for a one-word name, an organization's name as it is.
pub open spec fn harvard_author(a: AuthorView) -> Seq<char> {
    match a {
        AuthorView::Organization(s) => normalized(s),
        AuthorView::Person(s) | AuthorView::Generic(s) => {
            let w = words(s);
            if w.len() >= 2 {
                w.last() + ", "@ + initials(w.drop_last())
            } else {
                normalized(s)
            }
        },
    }
}

/// The author part: one author, two joined with `and`, or the first author
/// and `et al.` for three or more.
pub open spec fn harvard_authors(v: Seq<AuthorView>) -> Seq<char> {
    if v.len() == 0 {
        Seq::empty()
    } else if v.len() == 1 {
        harvard_author(v[0])
    } else if v.len() == 2 {
        harvard_author(v[0]) + " and "@ + harvard_author(v[1])
    } else {
        harvard_author(v[0]) + " et al."@
    }
}

/// The English name of a month, `Unknown` outside 1 to 12.
pub open spec fn month_name_text(month: int) -> Seq<char> {
    if month == 1 {
        "January"@
    } else if month == 2 {
        "February"@
    } else if month == 3 {
        "March"@
    } else if month == 4 {
        "April"@
    } else if month == 5 {
        "May"@
    } else if month == 6 {
        "June"@
    } else if month == 7 {
        "July"@
    } else if month == 8 {
        "August"@
    } else if month == 9 {
        "September"@
    } else if month == 10 {
        "October"@
    } else if month == 11 {
        "November"@
    } else if month == 12 {
        "December"@
    } else {
        "Unknown"@
    }
}

/// The year a date falls in.
pub open spec fn harvard_year(d: Date) -> Seq<char> {
    match d {
        Date::DateTime(t) => year4(t.year as int),
        Date::YearMonthDay(c) => year4(c.year as int),
        Date::YearMonth { year, .. } => int_digits(year as int),
        Date::Year(year) => int_digits(year as int),
    }
}

/// An access date such as `1 January 2024`, `January 2024` or `2024`.
pub open spec fn harvard_access(d: Date) -> Seq<char> {
    match d {
        Date::DateTime(t) => digits(t.day as nat) + " "@ + month_name_text(t.month as int) + " "@
            + year4(t.year as int),
        Date::YearMonthDay(c) => digits(c.day as nat) + " "@ + month_name_text(c.month as int)
            + " "@ + year4(c.year as int),
        Date::YearMonth { year, month } => month_name_text(month as int) + " "@ + int_digits(
            year as int,
        ),
        Date::Year(year) => int_digits(year as int),
    }
}

/// The English name of a month, `Unknown` outside 1 to 12.
pub fn month_name(month: i32) -> (r: &'static str)
    ensures
        r@ == month_name_text(month as int),
{
    match month {
        1 => "January",
        2 => "February",
        3 => "March",
        4 => "April",
        5 => "May",
        6 => "June",
        7 => "July",
        8 => "August",
        9 => "September",
        10 => "October",
        11 => "November",
        12 => "December",
        _ => "Unknown",
    }
}

fn month_name_of(month: u32) -> (r: &'static str)
    ensures
        r@ == month_name_text(month as int),
{
    if month <= 12 {
        month_name(month as i32)
    } else {
        "Unknown"
    }
}

fn slot_part(prefix: &str, o: &Option<String>, suffix: &str) -> (r: String)
    ensures
        r@ == match slot(*o) {
            Some(t) => prefix@ + t + suffix@,
            None => Seq::empty(),
        },
{
    match o {
        Some(t) => {
            let mut r = String::from_str(prefix);
            r.append(t.as_str());
            r.append(suffix);
            r
        },
        None => String::new(),
    }
}

fn initials_string(w: &Vec<String>, k: usize) -> (r: String)
    requires
        k <= w@.len(),
        forall|i: int| 0 <= i < k ==> (#[trigger] w@[i])@.len() > 0,
    ensures
        r@ == initials(views(w@).take(k as int)),
{
    let mut r = String::new();
    let mut i: usize = 0;
    while i < k
        invariant
            k <= w@.len(),
            i <= k,
            forall|j: int| 0 <= j < k ==> (#[trigger] w@[j])@.len() > 0,
            r@ == initials(views(w@).take(i as int)),
        decreases k - i,
    {
        let name = w[i].as_str();
        let first = name.substring_char(0, 1);
        r.append(first);
        proof {
            reveal_strlit(".");
        }
        r.append(".");
        assert(views(w@).take(i + 1).drop_last() =~= views(w@).take(i as int));
        assert(r@ =~= initials(views(w@).take(i + 1)));
        i = i + 1;
    }
    r
}

fn harvard_author_string(a: &Author) -> (r: String)
    ensures
        r@ == harvard_author(a@),
{
    match a {
        Author::Organization(s) => normalize_whitespace(s.as_str()),
        Author::Person(s) | Author::Generic(s) => {
            let w = split_words(s.as_str());
            let n = w.len();
            assert(views(w@).len() == n);
            if n >= 2 {
                proof {
                    lemma_words_nonempty(s@);
                    assert forall|i: int| 0 <= i < n - 1 implies (#[trigger] w@[i])@.len() > 0 by {
                        assert(views(w@)[i] == w@[i]@);
                    }
                    assert(views(w@).take(n - 1) =~= views(w@).drop_last());
                }
                let mut r = w[n - 1].clone();
                r.append(", ");
                r.append(initials_string(&w, n - 1).as_str());
                r
            } else {
                normalize_whitespace(s.as_str())
            }
        },
    }
}

fn harvard_authors_string(v: &Vec<Author>) -> (r: String)
    ensures
        r@ == harvard_authors(author_views(v@)),
{
    let n = v.len();
    if n == 0 {
        String::new()
    } else if n == 1 {
        harvard_author_string(&v[0])
    } else if n == 2 {
        let mut r = harvard_author_string(&v[0]);
        r.append(" and ");
        r.append(harvard_author_string(&v[1]).as_str());
        r
    } else {
        let r = harvard_author_string(&v[0]);
        r.concat(" et al.")
    }
}

fn harvard_year_string(d: &Date) -> (r: String)
    ensures
        r@ == harvard_year(*d),
{
    match d {
        Date::DateTime(t) => year_text4(t.year),
        Date::YearMonthDay(c) => year_text4(c.year),
        Date::YearMonth { year, .. } => int_text(*year),
        Date::Year(year) => int_text(*year),
    }
}

fn harvard_access_string(d: &Date) -> (r: String)
    ensures
        r@ == harvard_access(*d),
{
    match d {
        Date::DateTime(t) => {
            let mut r = nat_text(t.day as u64);
            r.append(" ");
            r.append(month_name_of(t.month));
            r.append(" ");
            r.append(year_text4(t.year).as_str());
            r
        },
        Date::YearMonthDay(c) => {
            let mut r = nat_text(c.day as u64);
            r.append(" ");
            r.append(month_name_of(c.month));
            r.append(" ");
            r.append(year_text4(c.year).as_str());
            r
        },
        Date::YearMonth { year, month } => {
            let mut r = String::from_str(month_name(*month));
            r.append(" ");
            r.append(int_text(*year).as_str());
            r
        },
        Date::Year(year) => int_text(*year),
    }
}

/// The view of a text slot.
pub open spec fn slot(o: Option<String>) -> Option<Seq<char>> {
    match o {
        Some(s) => Some(s@),
        None => None,
    }
}

/// The named slots of a Harvard reference.
pub struct HarvardSlots {
    pub authors: Option<Seq<char>>,
    pub year: Option<Seq<char>>,
    pub title: Option<Seq<char>>,
    pub site: Option<Seq<char>>,
    pub publisher: Option<Seq<char>>,
    pub url: Option<Seq<char>>,
    pub access_date: Option<Seq<char>>,
}

/// The slots after adding `a`: the slot of its kind is set, or none is.
pub open spec fn harvard_after(h: HarvardSlots, a: AttributeView) -> HarvardSlots {
    match a {
        AttributeView::Title(v) => HarvardSlots { title: Some(normalized(v)), ..h },
        AttributeView::Authors(v) => HarvardSlots { authors: Some(harvard_authors(v)), ..h },
        AttributeView::Date(d) => HarvardSlots { year: Some(harvard_year(d)), ..h },
        AttributeView::Site(v) => HarvardSlots { site: Some(normalized(v)), ..h },
        AttributeView::Publisher(v) => HarvardSlots { publisher: Some(normalized(v)), ..h },
        AttributeView::Url(v) => HarvardSlots { url: Some(v), ..h },
        AttributeView::ArchiveDate(d) => HarvardSlots { access_date: Some(harvard_access(d)), ..h },
        _ => h,
    }
}

/// `Author (Year)`, with `n.d.` for a missing year.
pub open spec fn harvard_lead(h: HarvardSlots) -> Seq<char> {
    match (h.authors, h.year) {
        (Some(a), Some(y)) => a + " ("@ + y + ")"@,
        (Some(a), None) => a + " (n.d.)"@,
        (None, Some(y)) => "("@ + y + ")"@,
        (None, None) => "(n.d.)"@,
    }
}

/// The site, or the publisher where there is no site.
pub open spec fn harvard_source(h: HarvardSlots) -> Option<Seq<char>> {
    match h.site {
        Some(s) => Some(s),
        None => h.publisher,
    }
}

/// `Author (Year) 'Title', Site. Available at: URL (Accessed: Date).`, each
/// part present only when its slot is.
pub open spec fn harvard_text(h: HarvardSlots) -> Seq<char> {
    harvard_lead(h) + match h.title {
        Some(t) => " '"@ + t + "'"@,
        None => Seq::empty(),
    } + match harvard_source(h) {
        Some(s) => ", "@ + s,
        None => Seq::empty(),
    } + "."@ + match h.url {
        Some(u) => " Available at: "@ + u,
        None => Seq::empty(),
    } + match h.access_date {
        Some(d) => " (Accessed: "@ + d + ")."@,
        None => Seq::empty(),
    }
}

/// Builds a citation in Harvard style. Values go to named slots, since the
/// order of the parts differs from the order in which attributes arrive.
pub struct HarvardCitation {
    authors: Option<String>,
    year: Option<String>,
    title: Option<String>,
    site: Option<String>,
    publisher: Option<String>,
    url: Option<String>,
    access_date: Option<String>,
}

impl View for HarvardCitation {
    type V = HarvardSlots;

    closed spec fn view(&self) -> HarvardSlots {
        HarvardSlots {
            authors: slot(self.authors),
            year: slot(self.year),
            title: slot(self.title),
            site: slot(self.site),
            publisher: slot(self.publisher),
            url: slot(self.url),
            access_date: slot(self.access_date),
        }
    }
}

impl HarvardCitation {
    /// A citation with every slot empty.
    pub fn new() -> (r: Self)
        ensures
            r@ == (HarvardSlots {
                authors: None,
                year: None,
                title: None,
                site: None,
                publisher: None,
                url: None,
                access_date: None,
            }),
    {
        HarvardCitation {
            authors: None,
            year: None,
            title: None,
            site: None,
            publisher: None,
            url: None,
            access_date: None,
        }
    }

    /// Adds the attribute when there is one; `None` leaves the citation as it is.
    pub fn try_add(self, attribute_option: &Option<Attribute>) -> (r: Self)
        ensures
            r@ == match opt_view(*attribute_option) {
                Some(a) => harvard_after(self@, a),
                None => self@,
            },
    {
        match attribute_option {
            Some(attribute) => self.add(attribute),
            None => self,
        }
    }

    /// Fills the slot of the attribute's kind; kinds with no slot are skipped.
    pub fn add(self, attribute: &Attribute) -> (r: Self)
        ensures
            r@ == harvard_after(self@, attribute@),
    {
        let mut h = self;
        match attribute {
            Attribute::Title(v) => h.title = Some(normalize_whitespace(v.as_str())),
            Attribute::Authors(v) => h.authors = Some(harvard_authors_string(v)),
            Attribute::Date(d) => h.year = Some(harvard_year_string(d)),
            Attribute::Site(v) => h.site = Some(normalize_whitespace(v.as_str())),
            Attribute::Publisher(v) => h.publisher = Some(normalize_whitespace(v.as_str())),
            Attribute::Url(v) => h.url = Some(v.clone()),
            Attribute::ArchiveDate(d) => h.access_date = Some(harvard_access_string(d)),
            _ => {},
        }
        h
    }

    /// The finished reference.
    pub fn build(self) -> (r: String)
        ensures
            r@ == harvard_text(self@),
    {
        let mut result = match (&self.authors, &self.year) {
            (Some(a), Some(y)) => {
                let mut r = a.clone();
                r.append(" (");
                r.append(y.as_str());
                r.append(")");
                r
            },
            (Some(a), None) => a.clone().concat(" (n.d.)"),
            (None, Some(y)) => {
                let mut r = String::from_str("(");
                r.append(y.as_str());
                r.append(")");
                r
            },
            (None, None) => String::from_str("(n.d.)"),
        };
        proof {
            reveal_strlit("");
            assert(""@ =~= Seq::<char>::empty());
        }
        result.append(slot_part(" '", &self.title, "'").as_str());
        let source = match &self.site {
            Some(s) => Some(s.clone()),
            None => match &self.publisher {
                Some(p) => Some(p.clone()),
                None => None,
            },
        };
        assert(slot(source) == harvard_source(self@));
        result.append(slot_part(", ", &source, "").as_str());
        result.append(".");
        result.append(slot_part(" Available at: ", &self.url, "").as_str());
        result.append(slot_part(" (Accessed: ", &self.access_date, ").").as_str());
        assert(result@ =~= harvard_text(self@));
        result
    }
}

} // verus!
