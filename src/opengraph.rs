//! The Open Graph source: `og:*` properties of the page.

use vstd::prelude::*;
use crate::attribute::{Attribute, AttributeType, AttributeView, Author, AuthorView, opt_view};
use crate::datetime::{parse_date, rfc3339_date};
use crate::parser::{MetadataKey, ParseInfo, key_views};
use crate::text::same_text;

verus! {

/// The Open Graph property names for each field kind, in the order tried.
pub open spec fn og_keys(t: AttributeType) -> Seq<Seq<char>> {
    match t {
        AttributeType::Title => seq!["title"@],
        AttributeType::Author => seq!["article:author"@],
        AttributeType::Locale => seq!["locale"@],
        AttributeType::Site => seq!["site_name"@],
        AttributeType::Url => seq!["url"@],
        AttributeType::Date => seq![
            "article:published_time"@,
            "article:modified_time"@,
            "updated_time"@,
        ],
        AttributeType::Type => seq!["type"@],
        _ => Seq::empty(),
    }
}

/// The Open Graph property names for a field kind, in the order tried.
pub fn keys(key: AttributeType) -> (r: Vec<MetadataKey>)
    ensures
        key_views(r@) == og_keys(key),
{
    let r = match key {
        AttributeType::Title => vec![MetadataKey { key: "title" }],
        AttributeType::Author => vec![MetadataKey { key: "article:author" }],
        AttributeType::Locale => vec![MetadataKey { key: "locale" }],
        AttributeType::Site => vec![MetadataKey { key: "site_name" }],
        AttributeType::Url => vec![MetadataKey { key: "url" }],
        AttributeType::Date => vec![
            MetadataKey { key: "article:published_time" },
            MetadataKey { key: "article:modified_time" },
            MetadataKey { key: "updated_time" },
        ],
        AttributeType::Type => vec![MetadataKey { key: "type" }],
        _ => Vec::new(),
    };
    assert(key_views(r@) =~= og_keys(key));
    r
}

/// The value of the first property named `key` whose value is not empty.
pub open spec fn pair_value(props: Seq<(String, String)>, key: Seq<char>) -> Option<Seq<char>>
    decreases props.len(),
{
    if props.len() == 0 {
        None
    } else if props[0].0@ == key && props[0].1@.len() > 0 {
        Some(props[0].1@)
    } else {
        pair_value(props.drop_first(), key)
    }
}

/// The value under the first of `keys` that has a non-empty one.
pub open spec fn first_key_value(props: Seq<(String, String)>, keys: Seq<Seq<char>>) -> Option<
    Seq<char>,
>
    decreases keys.len(),
{
    if keys.len() == 0 {
        None
    } else {
        match pair_value(props, keys[0]) {
            Some(v) => Some(v),
            None => first_key_value(props, keys.drop_first()),
        }
    }
}

/// The attribute an Open Graph value makes for a field kind.
pub open spec fn og_attribute(t: AttributeType, v: Seq<char>) -> Option<AttributeView> {
    match t {
        AttributeType::Title => Some(AttributeView::Title(v)),
        AttributeType::Author => Some(AttributeView::Authors(seq![AuthorView::Generic(v)])),
        AttributeType::Date => match rfc3339_date(v) {
            Some(d) => Some(AttributeView::Date(d)),
            None => None,
        },
        AttributeType::Locale => Some(AttributeView::Locale(v)),
        AttributeType::Language => Some(AttributeView::Language(v)),
        AttributeType::Site => Some(AttributeView::Site(v)),
        AttributeType::Url => Some(AttributeView::Url(v)),
        _ => None,
    }
}

/// What Open Graph says of a field kind.
pub open spec fn og_value(info: ParseInfo, t: AttributeType) -> Option<AttributeView> {
    match first_key_value(info.opengraph@, og_keys(t)) {
        Some(v) => og_attribute(t, v),
        None => None,
    }
}

fn pair_lookup(props: &Vec<(String, String)>, key: &str) -> (r: Option<String>)
    ensures
        match r {
            Some(s) => pair_value(props@, key@) == Some(s@),
            None => pair_value(props@, key@) is None,
        },
{
    let mut i: usize = 0;
    assert(props@.skip(0) =~= props@);
    while i < props.len()
        invariant
            i <= props@.len(),
            pair_value(props@, key@) == pair_value(props@.skip(i as int), key@),
        decreases props@.len() - i,
    {
        assert(props@.skip(i as int).drop_first() =~= props@.skip(i + 1));
        let (k, v) = &props[i];
        if same_text(k.as_str(), key) && v.as_str().unicode_len() > 0 {
            return Some(v.clone());
        }
        i = i + 1;
    }
    None
}

/// The value under the first of the keys that has a non-empty one.
pub fn try_find_attribute(og: &Vec<(String, String)>, external_keys: &Vec<MetadataKey>) -> (r:
    Option<String>)
    ensures
        match r {
            Some(s) => first_key_value(og@, key_views(external_keys@)) == Some(s@),
            None => first_key_value(og@, key_views(external_keys@)) is None,
        },
{
    let ghost ks = key_views(external_keys@);
    let mut i: usize = 0;
    assert(ks.skip(0) =~= ks);
    while i < external_keys.len()
        invariant
            i <= external_keys@.len(),
            ks == key_views(external_keys@),
            first_key_value(og@, ks) == first_key_value(og@, ks.skip(i as int)),
        decreases external_keys@.len() - i,
    {
        assert(ks.skip(i as int).drop_first() =~= ks.skip(i + 1));
        let found = pair_lookup(og, external_keys[i].key);
        if found.is_some() {
            return found;
        }
        i = i + 1;
    }
    None
}

/// The attribute that a text makes for a field kind, reading dates as RFC 3339.
pub fn attribute_type_to_attribute(attribute_type: AttributeType, attribute_value: String) -> (r:
    Option<Attribute>)
    ensures
        opt_view(r) == og_attribute(attribute_type, attribute_value@),
{
    match attribute_type {
        AttributeType::Title => Some(Attribute::Title(attribute_value)),
        AttributeType::Author => {
            let v = vec![Author::Generic(attribute_value)];
            let r = Attribute::Authors(v);
            assert(r@ == og_attribute(attribute_type, attribute_value@)->0) by {
                assert(crate::attribute::author_views(v@) =~= seq![
                    AuthorView::Generic(attribute_value@),
                ]);
            }
            Some(r)
        },
        AttributeType::Date => match parse_date(attribute_value.as_str()) {
            Some(d) => Some(Attribute::Date(d)),
            None => None,
        },
        AttributeType::Locale => Some(Attribute::Locale(attribute_value)),
        AttributeType::Language => Some(Attribute::Language(attribute_value)),
        AttributeType::Site => Some(Attribute::Site(attribute_value)),
        AttributeType::Url => Some(Attribute::Url(attribute_value)),
        _ => None,
    }
}

/// The Open Graph source.
pub struct OpenGraph;

impl OpenGraph {
    /// What the page's Open Graph properties say of a field kind: the first
    /// listed property with a non-empty value, made into an attribute.
    pub fn parse_attribute(parse_info: &ParseInfo, attribute_type: AttributeType) -> (r: Option<
        Attribute,
    >)
        ensures
            opt_view(r) == og_value(*parse_info, attribute_type),
    {
        let external_keys = keys(attribute_type);
        match try_find_attribute(&parse_info.opengraph, &external_keys) {
            Some(v) => attribute_type_to_attribute(attribute_type, v),
            None => None,
        }
    }
}

} // verus!
