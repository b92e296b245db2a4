//! Attributes: the typed values of the citation fields, the field kinds that
//! key them, and the date and author shapes they carry.

use vstd::prelude::*;

verus! {

/// The semantic fields of a reference. Sources and builders are keyed by it.
#[derive(PartialEq, Eq, Structural, PartialOrd, Ord, Hash, Clone, Copy, Debug)]
pub enum AttributeType {
    Title,
    Author,
    Locale,
    Language,
    Site,
    Date,
    ArchiveDate,
    Url,
    ArchiveUrl,
    Type,
    Journal,
    Publisher,
    Institution,
    Volume,
}

/// The number of field kinds.
pub const ATTRIBUTE_TYPE_COUNT: usize = 14;

/// Position of a field kind in declaration order.
pub open spec fn type_index(t: AttributeType) -> int {
    match t {
        AttributeType::Title => 0,
        AttributeType::Author => 1,
        AttributeType::Locale => 2,
        AttributeType::Language => 3,
        AttributeType::Site => 4,
        AttributeType::Date => 5,
        AttributeType::ArchiveDate => 6,
        AttributeType::Url => 7,
        AttributeType::ArchiveUrl => 8,
        AttributeType::Type => 9,
        AttributeType::Journal => 10,
        AttributeType::Publisher => 11,
        AttributeType::Institution => 12,
        AttributeType::Volume => 13,
    }
}

/// Every field kind, in declaration order.
pub open spec fn all_types() -> Seq<AttributeType> {
    seq![
        AttributeType::Title,
        AttributeType::Author,
        AttributeType::Locale,
        AttributeType::Language,
        AttributeType::Site,
        AttributeType::Date,
        AttributeType::ArchiveDate,
        AttributeType::Url,
        AttributeType::ArchiveUrl,
        AttributeType::Type,
        AttributeType::Journal,
        AttributeType::Publisher,
        AttributeType::Institution,
        AttributeType::Volume,
    ]
}

/// The field kinds' positions and the listing agree.
pub proof fn lemma_all_types_index(t: AttributeType)
    ensures
        0 <= type_index(t) < ATTRIBUTE_TYPE_COUNT,
        all_types().len() == ATTRIBUTE_TYPE_COUNT,
        all_types()[type_index(t)] == t,
{
}

impl AttributeType {
    /// Position of this kind in declaration order.
    pub fn index(self) -> (r: usize)
        ensures
            r as int == type_index(self),
            r < ATTRIBUTE_TYPE_COUNT,
    {
        match self {
            AttributeType::Title => 0,
            AttributeType::Author => 1,
            AttributeType::Locale => 2,
            AttributeType::Language => 3,
            AttributeType::Site => 4,
            AttributeType::Date => 5,
            AttributeType::ArchiveDate => 6,
            AttributeType::Url => 7,
            AttributeType::ArchiveUrl => 8,
            AttributeType::Type => 9,
            AttributeType::Journal => 10,
            AttributeType::Publisher => 11,
            AttributeType::Institution => 12,
            AttributeType::Volume => 13,
        }
    }

    /// Every field kind, in declaration order.
    pub fn all() -> (r: Vec<AttributeType>)
        ensures
            r@ == all_types(),
    {
        let r = vec![
            AttributeType::Title,
            AttributeType::Author,
            AttributeType::Locale,
            AttributeType::Language,
            AttributeType::Site,
            AttributeType::Date,
            AttributeType::ArchiveDate,
            AttributeType::Url,
            AttributeType::ArchiveUrl,
            AttributeType::Type,
            AttributeType::Journal,
            AttributeType::Publisher,
            AttributeType::Institution,
            AttributeType::Volume,
        ];
        assert(r@ =~= all_types());
        r
    }
}

/// A calendar day of the proleptic Gregorian calendar.
#[derive(Clone, Copy, PartialEq, Eq, Structural, Debug)]
pub struct CalendarDate {
    pub year: i32,
    pub month: u32,
    pub day: u32,
}

/// A UTC instant to the second.
#[derive(Clone, Copy, PartialEq, Eq, Structural, Debug)]
pub struct Timestamp {
    pub year: i32,
    pub month: u32,
    pub day: u32,
    pub hour: u32,
    pub minute: u32,
    pub second: u32,
}

/// Whether `year` is a Gregorian leap year.
pub open spec fn is_leap_year(year: int) -> bool {
    (year % 4 == 0 && year % 100 != 0) || year % 400 == 0
}

/// The number of days of a month (1 to 12) of a year.
pub open spec fn days_in_month(year: int, month: int) -> int {
    if month == 2 {
        if is_leap_year(year) {
            29
        } else {
            28
        }
    } else if month == 4 || month == 6 || month == 9 || month == 11 {
        30
    } else {
        31
    }
}

/// Whether year, month and day name a day that exists.
pub open spec fn valid_ymd(year: int, month: int, day: int) -> bool {
    1 <= month <= 12 && 1 <= day <= days_in_month(year, month)
}

impl CalendarDate {
    /// The day exists in the calendar.
    pub open spec fn wf(&self) -> bool {
        valid_ymd(self.year as int, self.month as int, self.day as int)
    }
}

impl Timestamp {
    /// The day exists and the time of day is within range.
    pub open spec fn wf(&self) -> bool {
        &&& valid_ymd(self.year as int, self.month as int, self.day as int)
        &&& self.hour < 24
        &&& self.minute < 60
        &&& self.second < 60
    }

    /// The calendar day of this instant.
    pub open spec fn spec_date(&self) -> CalendarDate {
        CalendarDate { year: self.year, month: self.month, day: self.day }
    }
}

/// Whether the year, month and day form an existing calendar day.
pub fn is_valid_ymd(year: i32, month: u32, day: u32) -> (r: bool)
    ensures
        r == valid_ymd(year as int, month as int, day as int),
{
    if month < 1 || month > 12 || day < 1 {
        return false;
    }
    let leap = (year % 4 == 0 && year % 100 != 0) || year % 400 == 0;
    let max: u32 = if month == 2 {
        if leap {
            29
        } else {
            28
        }
    } else if month == 4 || month == 6 || month == 9 || month == 11 {
        30
    } else {
        31
    };
    day <= max
}

/// A date as precise as its source gave it: an instant, a day, a month or a year.
#[derive(Clone, Copy, PartialEq, Eq, Structural, Debug)]
pub enum Date {
    DateTime(Timestamp),
    YearMonthDay(CalendarDate),
    YearMonth { year: i32, month: i32 },
    Year(i32),
}

impl Date {
    /// The date holds a real day or instant where it claims one.
    pub open spec fn wf(&self) -> bool {
        match self {
            Date::DateTime(t) => t.wf(),
            Date::YearMonthDay(d) => d.wf(),
            _ => true,
        }
    }
}

/// Who wrote a work.
#[derive(Clone, Debug, Eq, PartialEq)]
pub enum Author {
    Person(String),
    Organization(String),
    Generic(String),
}

/// The view of an [`Author`].
pub enum AuthorView {
    Person(Seq<char>),
    Organization(Seq<char>),
    Generic(Seq<char>),
}

impl View for Author {
    type V = AuthorView;

    open spec fn view(&self) -> AuthorView {
        match self {
            Author::Person(s) => AuthorView::Person(s@),
            Author::Organization(s) => AuthorView::Organization(s@),
            Author::Generic(s) => AuthorView::Generic(s@),
        }
    }
}

/// The views of a sequence of authors.
pub open spec fn author_views(v: Seq<Author>) -> Seq<AuthorView> {
    v.map_values(|a: Author| a@)
}

impl Author {
    /// A copy of this author.
    pub fn duplicate(&self) -> (r: Author)
        ensures
            r@ == self@,
    {
        match self {
            Author::Person(s) => Author::Person(s.clone()),
            Author::Organization(s) => Author::Organization(s.clone()),
            Author::Generic(s) => Author::Generic(s.clone()),
        }
    }
}

/// A copy of a list of authors.
pub fn duplicate_authors(v: &Vec<Author>) -> (r: Vec<Author>)
    ensures
        author_views(r@) == author_views(v@),
{
    let mut r: Vec<Author> = Vec::new();
    let mut i: usize = 0;
    while i < v.len()
        invariant
            i <= v@.len(),
            author_views(r@) == author_views(v@.take(i as int)),
        decreases v@.len() - i,
    {
        let ghost before = r@;
        r.push(v[i].duplicate());
        assert(author_views(r@) =~= author_views(before).push(v@[i as int]@));
        assert(author_views(v@.take(i + 1)) =~= author_views(v@.take(i as int)).push(v@[i as int]@));
        i = i + 1;
    }
    assert(v@.take(v@.len() as int) =~= v@);
    r
}

/// A title rendered into another language, with that language's ISO 639 code.
#[derive(Clone, Debug, Eq, PartialEq)]
pub struct Translation {
    pub text: String,
    pub language: String,
}

/// The normalized value of one citation field.
#[derive(Clone, Debug, Eq, PartialEq)]
pub enum Attribute {
    Title(String),
    TranslatedTitle(Translation),
    Authors(Vec<Author>),
    Date(Date),
    ArchiveDate(Date),
    Language(String),
    Locale(String),
    Site(String),
    Url(String),
    ArchiveUrl(String),
    Type(String),
    Journal(String),
    Publisher(String),
    Institution(String),
    Volume(String),
}

/// The view of an [`Attribute`]: its texts as character sequences.
pub enum AttributeView {
    Title(Seq<char>),
    TranslatedTitle(Seq<char>, Seq<char>),
    Authors(Seq<AuthorView>),
    Date(Date),
    ArchiveDate(Date),
    Language(Seq<char>),
    Locale(Seq<char>),
    Site(Seq<char>),
    Url(Seq<char>),
    ArchiveUrl(Seq<char>),
    Type(Seq<char>),
    Journal(Seq<char>),
    Publisher(Seq<char>),
    Institution(Seq<char>),
    Volume(Seq<char>),
}

impl View for Attribute {
    type V = AttributeView;

    open spec fn view(&self) -> AttributeView {
        match self {
            Attribute::Title(s) => AttributeView::Title(s@),
            Attribute::TranslatedTitle(t) => AttributeView::TranslatedTitle(t.text@, t.language@),
            Attribute::Authors(v) => AttributeView::Authors(author_views(v@)),
            Attribute::Date(d) => AttributeView::Date(*d),
            Attribute::ArchiveDate(d) => AttributeView::ArchiveDate(*d),
            Attribute::Language(s) => AttributeView::Language(s@),
            Attribute::Locale(s) => AttributeView::Locale(s@),
            Attribute::Site(s) => AttributeView::Site(s@),
            Attribute::Url(s) => AttributeView::Url(s@),
            Attribute::ArchiveUrl(s) => AttributeView::ArchiveUrl(s@),
            Attribute::Type(s) => AttributeView::Type(s@),
            Attribute::Journal(s) => AttributeView::Journal(s@),
            Attribute::Publisher(s) => AttributeView::Publisher(s@),
            Attribute::Institution(s) => AttributeView::Institution(s@),
            Attribute::Volume(s) => AttributeView::Volume(s@),
        }
    }
}

/// The view of an optional attribute.
pub open spec fn opt_view(a: Option<Attribute>) -> Option<AttributeView> {
    match a {
        Some(x) => Some(x@),
        None => None,
    }
}

/// The field kind an attribute value belongs to.
pub open spec fn kind_of(a: AttributeView) -> AttributeType {
    match a {
        AttributeView::Title(_) => AttributeType::Title,
        AttributeView::TranslatedTitle(_, _) => AttributeType::Title,
        AttributeView::Authors(_) => AttributeType::Author,
        AttributeView::Date(_) => AttributeType::Date,
        AttributeView::ArchiveDate(_) => AttributeType::ArchiveDate,
        AttributeView::Language(_) => AttributeType::Language,
        AttributeView::Locale(_) => AttributeType::Locale,
        AttributeView::Site(_) => AttributeType::Site,
        AttributeView::Url(_) => AttributeType::Url,
        AttributeView::ArchiveUrl(_) => AttributeType::ArchiveUrl,
        AttributeView::Type(_) => AttributeType::Type,
        AttributeView::Journal(_) => AttributeType::Journal,
        AttributeView::Publisher(_) => AttributeType::Publisher,
        AttributeView::Institution(_) => AttributeType::Institution,
        AttributeView::Volume(_) => AttributeType::Volume,
    }
}

impl Attribute {
    /// The field kind this value belongs to.
    pub fn attribute_type(&self) -> (r: AttributeType)
        ensures
            r == kind_of(self@),
    {
        match self {
            Attribute::Title(_) => AttributeType::Title,
            Attribute::TranslatedTitle(_) => AttributeType::Title,
            Attribute::Authors(_) => AttributeType::Author,
            Attribute::Date(_) => AttributeType::Date,
            Attribute::ArchiveDate(_) => AttributeType::ArchiveDate,
            Attribute::Language(_) => AttributeType::Language,
            Attribute::Locale(_) => AttributeType::Locale,
            Attribute::Site(_) => AttributeType::Site,
            Attribute::Url(_) => AttributeType::Url,
            Attribute::ArchiveUrl(_) => AttributeType::ArchiveUrl,
            Attribute::Type(_) => AttributeType::Type,
            Attribute::Journal(_) => AttributeType::Journal,
            Attribute::Publisher(_) => AttributeType::Publisher,
            Attribute::Institution(_) => AttributeType::Institution,
            Attribute::Volume(_) => AttributeType::Volume,
        }
    }

    /// A copy of this attribute.
    pub fn duplicate(&self) -> (r: Attribute)
        ensures
            r@ == self@,
    {
        match self {
            Attribute::Title(s) => Attribute::Title(s.clone()),
            Attribute::TranslatedTitle(t) => Attribute::TranslatedTitle(
                Translation { text: t.text.clone(), language: t.language.clone() },
            ),
            Attribute::Authors(v) => Attribute::Authors(duplicate_authors(v)),
            Attribute::Date(d) => Attribute::Date(*d),
            Attribute::ArchiveDate(d) => Attribute::ArchiveDate(*d),
            Attribute::Language(s) => Attribute::Language(s.clone()),
            Attribute::Locale(s) => Attribute::Locale(s.clone()),
            Attribute::Site(s) => Attribute::Site(s.clone()),
            Attribute::Url(s) => Attribute::Url(s.clone()),
            Attribute::ArchiveUrl(s) => Attribute::ArchiveUrl(s.clone()),
            Attribute::Type(s) => Attribute::Type(s.clone()),
            Attribute::Journal(s) => Attribute::Journal(s.clone()),
            Attribute::Publisher(s) => Attribute::Publisher(s.clone()),
            Attribute::Institution(s) => Attribute::Institution(s.clone()),
            Attribute::Volume(s) => Attribute::Volume(s.clone()),
        }
    }
}

/// A copy of an optional attribute.
pub fn duplicate_option(a: &Option<Attribute>) -> (r: Option<Attribute>)
    ensures
        opt_view(r) == opt_view(*a),
{
    match a {
        Some(x) => Some(x.duplicate()),
        None => None,
    }
}

} // verus!
