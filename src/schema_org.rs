//! The Schema.org source: the page's first JSON-LD object.

use vstd::prelude::*;
use crate::attribute::{Attribute, AttributeType, AttributeView, Author, AuthorView, author_views, opt_view};
use crate::datetime::{parse_date, rfc3339_date};
use crate::parser::{MetadataKey, ParseInfo, key_views};
use crate::text::same_text;

verus! {

/// A JSON value. Numbers keep their text; object members keep their order.
#[derive(Debug, PartialEq, Eq)]
pub enum JsonValue {
    Null,
    Bool(bool),
    Number(String),
    Str(String),
    Array(Vec<JsonValue>),
    Object(Vec<(String, JsonValue)>),
}

/// The value of the first member named `key`.
pub open spec fn json_field(fields: Seq<(String, JsonValue)>, key: Seq<char>) -> Option<JsonValue>
    decreases fields.len(),
{
    if fields.len() == 0 {
        None
    } else if fields[0].0@ == key {
        Some(fields[0].1)
    } else {
        json_field(fields.drop_first(), key)
    }
}

/// The member `key` of an object; nothing for other values.
pub open spec fn json_get(v: JsonValue, key: Seq<char>) -> Option<JsonValue> {
    match v {
        JsonValue::Object(f) => json_field(f@, key),
        _ => None,
    }
}

/// The Schema.org property names for each field kind, in the order tried.
pub open spec fn schema_keys(t: AttributeType) -> Seq<Seq<char>> {
    match t {
        AttributeType::Title => seq!["headline"@, "alternativeHeadline"@],
        AttributeType::Author => seq!["author"@],
        AttributeType::Language => seq!["inLanguage"@],
        AttributeType::Site => seq!["publisher"@, "sourceOrganization"@],
        AttributeType::Url => seq!["mainEntityOfPage"@, "url"@],
        AttributeType::Date => seq!["datePublished"@, "dateModified"@],
        AttributeType::Type => seq!["@type"@],
        _ => Seq::empty(),
    }
}

/// The Schema.org property names for a field kind, in the order tried.
pub fn keys(key: AttributeType) -> (r: Vec<MetadataKey>)
    ensures
        key_views(r@) == schema_keys(key),
{
    let r = match key {
        AttributeType::Title => vec![
            MetadataKey { key: "headline" },
            MetadataKey { key: "alternativeHeadline" },
        ],
        AttributeType::Author => vec![MetadataKey { key: "author" }],
        AttributeType::Language => vec![MetadataKey { key: "inLanguage" }],
        AttributeType::Site => vec![
            MetadataKey { key: "publisher" },
            MetadataKey { key: "sourceOrganization" },
        ],
        AttributeType::Url => vec![MetadataKey { key: "mainEntityOfPage" }, MetadataKey { key: "url" }],
        AttributeType::Date => vec![
            MetadataKey { key: "datePublished" },
            MetadataKey { key: "dateModified" },
        ],
        AttributeType::Type => vec![MetadataKey { key: "@type" }],
        _ => Vec::new(),
    };
    assert(key_views(r@) =~= schema_keys(key));
    r
}

/// The first of `keys` whose member is a string, and that string.
pub open spec fn schema_string(v: JsonValue, keys: Seq<Seq<char>>) -> Option<Seq<char>>
    decreases keys.len(),
{
    if keys.len() == 0 {
        None
    } else {
        match json_get(v, keys[0]) {
            Some(JsonValue::Str(s)) => Some(s@),
            _ => schema_string(v, keys.drop_first()),
        }
    }
}

/// An author entry: an object whose `@type` is `Person` or `Organization`
/// and whose `name` is a string. Anything else gives no author.
pub open spec fn schema_author(e: JsonValue) -> Option<AuthorView> {
    match (json_get(e, "@type"@), json_get(e, "name"@)) {
        (Some(JsonValue::Str(t)), Some(JsonValue::Str(n))) => if t@ == "Person"@ {
            Some(AuthorView::Person(n@))
        } else if t@ == "Organization"@ {
            Some(AuthorView::Organization(n@))
        } else {
            None
        },
        _ => None,
    }
}

/// The authors of a list of entries, in order, skipping entries that give none.
pub open spec fn schema_authors(list: Seq<JsonValue>) -> Seq<AuthorView>
    decreases list.len(),
{
    if list.len() == 0 {
        Seq::empty()
    } else {
        match schema_author(list.last()) {
            Some(a) => schema_authors(list.drop_last()).push(a),
            None => schema_authors(list.drop_last()),
        }
    }
}

/// The authors under the first of `keys` that holds an array giving at least one.
pub open spec fn schema_author_list(v: JsonValue, keys: Seq<Seq<char>>) -> Option<Seq<AuthorView>>
    decreases keys.len(),
{
    if keys.len() == 0 {
        None
    } else {
        match json_get(v, keys[0]) {
            Some(JsonValue::Array(list)) => if schema_authors(list@).len() > 0 {
                Some(schema_authors(list@))
            } else {
                schema_author_list(v, keys.drop_first())
            },
            _ => schema_author_list(v, keys.drop_first()),
        }
    }
}

/// The `name` of the object under the first of `keys` that has a string one.
pub open spec fn schema_site(v: JsonValue, keys: Seq<Seq<char>>) -> Option<Seq<char>>
    decreases keys.len(),
{
    if keys.len() == 0 {
        None
    } else {
        match json_get(v, keys[0]) {
            Some(o) => match json_get(o, "name"@) {
                Some(JsonValue::Str(n)) => Some(n@),
                _ => schema_site(v, keys.drop_first()),
            },
            None => schema_site(v, keys.drop_first()),
        }
    }
}

/// The attribute a Schema.org string makes for a field kind.
pub open spec fn schema_attribute(t: AttributeType, v: Seq<char>) -> Option<AttributeView> {
    match t {
        AttributeType::Title => Some(AttributeView::Title(v)),
        AttributeType::Date => match rfc3339_date(v) {
            Some(d) => Some(AttributeView::Date(d)),
            None => None,
        },
        AttributeType::Locale => Some(AttributeView::Locale(v)),
        AttributeType::Language => Some(AttributeView::Language(v)),
        AttributeType::Url => Some(AttributeView::Url(v)),
        _ => None,
    }
}

/// What a Schema.org object says of a field kind.
pub open spec fn schema_object_value(v: JsonValue, t: AttributeType) -> Option<AttributeView> {
    match t {
        AttributeType::Author => match schema_author_list(v, schema_keys(t)) {
            Some(a) => Some(AttributeView::Authors(a)),
            None => None,
        },
        AttributeType::Site => match schema_site(v, schema_keys(t)) {
            Some(s) => Some(AttributeView::Site(s)),
            None => None,
        },
        _ => match schema_string(v, schema_keys(t)) {
            Some(s) => schema_attribute(t, s),
            None => None,
        },
    }
}

/// What the page's Schema.org data says of a field kind.
pub open spec fn schema_value(info: ParseInfo, t: AttributeType) -> Option<AttributeView> {
    match info.schema_org {
        Some(v) => schema_object_value(v, t),
        None => None,
    }
}

fn member<'a>(v: &'a JsonValue, key: &str) -> (r: Option<&'a JsonValue>)
    ensures
        match r {
            Some(x) => json_get(*v, key@) == Some(*x),
            None => json_get(*v, key@) is None,
        },
{
    match v {
        JsonValue::Object(fields) => {
            assert(json_get(*v, key@) == json_field(fields@, key@));
            let mut i: usize = 0;
            assert(fields@.skip(0) =~= fields@);
            while i < fields.len()
                invariant
                    i <= fields@.len(),
                    json_field(fields@, key@) == json_field(fields@.skip(i as int), key@),
                    json_get(*v, key@) == json_field(fields@, key@),
                decreases fields@.len() - i,
            {
                assert(fields@.skip(i as int).drop_first() =~= fields@.skip(i + 1));
                assert(fields@.skip(i as int)[0] == fields@[i as int]);
                if same_text(fields[i].0.as_str(), key) {
                    assert(json_field(fields@.skip(i as int), key@) == Some(fields@[i as int].1));
                    let r = &fields[i].1;
                    assert(*r == fields@[i as int].1);
                    return Some(r);
                }
                i = i + 1;
            }
            None
        },
        _ => None,
    }
}

fn try_find_generic_attribute(schema_value: &JsonValue, external_keys: &Vec<MetadataKey>) -> (r:
    Option<String>)
    ensures
        match r {
            Some(s) => schema_string(*schema_value, key_views(external_keys@)) == Some(s@),
            None => schema_string(*schema_value, key_views(external_keys@)) is None,
        },
{
    let ghost ks = key_views(external_keys@);
    let mut i: usize = 0;
    assert(ks.skip(0) =~= ks);
    while i < external_keys.len()
        invariant
            i <= external_keys@.len(),
            ks == key_views(external_keys@),
            schema_string(*schema_value, ks) == schema_string(*schema_value, ks.skip(i as int)),
        decreases external_keys@.len() - i,
    {
        assert(ks.skip(i as int).drop_first() =~= ks.skip(i + 1));
        match member(schema_value, external_keys[i].key) {
            Some(JsonValue::Str(s)) => {
                return Some(s.clone());
            },
            _ => {},
        }
        i = i + 1;
    }
    None
}

/// An author from one entry of an author array.
pub fn match_author_type(entry: &JsonValue) -> (r: Option<Author>)
    ensures
        match r {
            Some(a) => schema_author(*entry) == Some(a@),
            None => schema_author(*entry) is None,
        },
{
    match (member(entry, "@type"), member(entry, "name")) {
        (Some(JsonValue::Str(t)), Some(JsonValue::Str(n))) => {
            if same_text(t.as_str(), "Person") {
                Some(Author::Person(n.clone()))
            } else if same_text(t.as_str(), "Organization") {
                Some(Author::Organization(n.clone()))
            } else {
                None
            }
        },
        _ => None,
    }
}

fn try_find_author_array_of_persons(value_list: &Vec<JsonValue>) -> (r: Vec<Author>)
    ensures
        author_views(r@) == schema_authors(value_list@),
{
    let mut ret: Vec<Author> = Vec::new();
    let mut i: usize = 0;
    while i < value_list.len()
        invariant
            i <= value_list@.len(),
            author_views(ret@) == schema_authors(value_list@.take(i as int)),
        decreases value_list@.len() - i,
    {
        assert(value_list@.take(i + 1).drop_last() =~= value_list@.take(i as int));
        match match_author_type(&value_list[i]) {
            Some(a) => {
                let ghost before = ret@;
                ret.push(a);
                assert(author_views(ret@) =~= author_views(before).push(a@));
            },
            None => {},
        }
        i = i + 1;
    }
    assert(value_list@.take(value_list@.len() as int) =~= value_list@);
    ret
}

fn try_find_author_attribute(schema_value: &JsonValue, external_keys: &Vec<MetadataKey>) -> (r:
    Option<Vec<Author>>)
    ensures
        match r {
            Some(v) => schema_author_list(*schema_value, key_views(external_keys@)) == Some(
                author_views(v@),
            ),
            None => schema_author_list(*schema_value, key_views(external_keys@)) is None,
        },
{
    let ghost ks = key_views(external_keys@);
    let mut i: usize = 0;
    assert(ks.skip(0) =~= ks);
    while i < external_keys.len()
        invariant
            i <= external_keys@.len(),
            ks == key_views(external_keys@),
            schema_author_list(*schema_value, ks) == schema_author_list(
                *schema_value,
                ks.skip(i as int),
            ),
        decreases external_keys@.len() - i,
    {
        assert(ks.skip(i as int).drop_first() =~= ks.skip(i + 1));
        match member(schema_value, external_keys[i].key) {
            Some(JsonValue::Array(list)) => {
                let found = try_find_author_array_of_persons(list);
                if found.len() > 0 {
                    return Some(found);
                }
            },
            _ => {},
        }
        i = i + 1;
    }
    None
}

fn try_find_site_attribute(schema_value: &JsonValue, external_keys: &Vec<MetadataKey>) -> (r:
    Option<String>)
    ensures
        match r {
            Some(s) => schema_site(*schema_value, key_views(external_keys@)) == Some(s@),
            None => schema_site(*schema_value, key_views(external_keys@)) is None,
        },
{
    let ghost ks = key_views(external_keys@);
    let mut i: usize = 0;
    assert(ks.skip(0) =~= ks);
    while i < external_keys.len()
        invariant
            i <= external_keys@.len(),
            ks == key_views(external_keys@),
            schema_site(*schema_value, ks) == schema_site(*schema_value, ks.skip(i as int)),
        decreases external_keys@.len() - i,
    {
        assert(ks.skip(i as int).drop_first() =~= ks.skip(i + 1));
        match member(schema_value, external_keys[i].key) {
            Some(o) => match member(o, "name") {
                Some(JsonValue::Str(n)) => {
                    return Some(n.clone());
                },
                _ => {},
            },
            None => {},
        }
        i = i + 1;
    }
    None
}

/// The attribute a Schema.org string makes for a field kind.
pub fn attribute_type_to_attribute(attribute_type: AttributeType, attribute_value: String) -> (r:
    Option<Attribute>)
    ensures
        opt_view(r) == schema_attribute(attribute_type, attribute_value@),
{
    match attribute_type {
        AttributeType::Title => Some(Attribute::Title(attribute_value)),
        AttributeType::Date => match parse_date(attribute_value.as_str()) {
            Some(d) => Some(Attribute::Date(d)),
            None => None,
        },
        AttributeType::Locale => Some(Attribute::Locale(attribute_value)),
        AttributeType::Language => Some(Attribute::Language(attribute_value)),
        AttributeType::Url => Some(Attribute::Url(attribute_value)),
        _ => None,
    }
}

/// The authors under the first listed key that holds a usable author array.
pub fn create_author_attribute(schema_value: &JsonValue, external_keys: &Vec<MetadataKey>) -> (r:
    Option<Attribute>)
    ensures
        opt_view(r) == match schema_author_list(*schema_value, key_views(external_keys@)) {
            Some(a) => Some(AttributeView::Authors(a)),
            None => None,
        },
{
    match try_find_author_attribute(schema_value, external_keys) {
        Some(v) => Some(Attribute::Authors(v)),
        None => None,
    }
}

/// The site named by the first listed key that holds an object with a name.
pub fn create_site_attribute(schema_value: &JsonValue, external_keys: &Vec<MetadataKey>) -> (r:
    Option<Attribute>)
    ensures
        opt_view(r) == match schema_site(*schema_value, key_views(external_keys@)) {
            Some(s) => Some(AttributeView::Site(s)),
            None => None,
        },
{
    match try_find_site_attribute(schema_value, external_keys) {
        Some(s) => Some(Attribute::Site(s)),
        None => None,
    }
}

/// The attribute made from the first listed key that holds a string.
pub fn create_generic_attribute(
    schema_value: &JsonValue,
    external_keys: &Vec<MetadataKey>,
    attribute_type: AttributeType,
) -> (r: Option<Attribute>)
    ensures
        opt_view(r) == match schema_string(*schema_value, key_views(external_keys@)) {
            Some(s) => schema_attribute(attribute_type, s),
            None => None,
        },
{
    match try_find_generic_attribute(schema_value, external_keys) {
        Some(s) => attribute_type_to_attribute(attribute_type, s),
        None => None,
    }
}

/// The Schema.org source.
pub struct SchemaOrg;

impl SchemaOrg {
    /// What the page's Schema.org object says of a field kind. Authors and
    /// sites are nested objects; other fields are plain strings.
    pub fn parse_attribute(parse_info: &ParseInfo, attribute_type: AttributeType) -> (r: Option<
        Attribute,
    >)
        ensures
            opt_view(r) == schema_value(*parse_info, attribute_type),
    {
        match &parse_info.schema_org {
            Some(schema_json) => {
                let external_keys = keys(attribute_type);
                match attribute_type {
                    AttributeType::Author => create_author_attribute(schema_json, &external_keys),
                    AttributeType::Site => create_site_attribute(schema_json, &external_keys),
                    _ => create_generic_attribute(schema_json, &external_keys, attribute_type),
                }
            },
            None => None,
        }
    }
}

} // verus!
