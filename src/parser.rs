//! The request bundle handed to every source, and the priority resolver
//! that picks one value per field.

use vstd::prelude::*;
use crate::ai_extractor::{AiExtractedMetadata, ai_value, get_attribute_from_ai};
use crate::attribute::{
    ATTRIBUTE_TYPE_COUNT,
    Attribute,
    AttributeType,
    AttributeView,
    all_types,
    duplicate_option,
    lemma_all_types_index,
    opt_view,
    type_index,
};
use crate::doi::{Doi, doi_value};
use crate::generator::{AttributeConfig, AttributePriority, MetadataType, priority_for};
use crate::html_meta::{HtmlMeta, html_value};
use crate::opengraph::{OpenGraph, og_value};
use crate::schema_org::{SchemaOrg, schema_value};
use crate::zotero::{Zotero, citoid_value};
use crate::doi::BibEntry;
use crate::schema_org::JsonValue;
use crate::zotero::ZoteroResult;

verus! {

/// A key under which a metadata format stores a field.
#[derive(PartialEq, Eq, PartialOrd, Ord, Hash, Clone, Debug)]
pub struct MetadataKey {
    pub key: &'static str,
}

/// The texts of a list of keys.
pub open spec fn key_views(v: Seq<MetadataKey>) -> Seq<Seq<char>> {
    v.map_values(|k: MetadataKey| k.key@)
}

/// What one resolution request knows of the page: its HTML text, its Open
/// Graph properties (names without the `og:` prefix; names are unique, so
/// their order does not matter), its
/// first Schema.org JSON-LD object, the BibTeX entry of a DOI found in it,
/// the Citoid record for it, and its URL when it came from the web.
pub struct ParseInfo {
    pub raw_html: String,
    pub opengraph: Vec<(String, String)>,
    pub schema_org: Option<JsonValue>,
    pub bibliography: Option<BibEntry>,
    pub citoid: Option<ZoteroResult>,
    pub url: Option<String>,
}

/// What one source says of a field kind.
pub open spec fn source_value(info: ParseInfo, m: MetadataType, t: AttributeType) -> Option<
    AttributeView,
> {
    match m {
        MetadataType::OpenGraph => og_value(info, t),
        MetadataType::SchemaOrg => schema_value(info, t),
        MetadataType::HtmlMeta => html_value(info, t),
        MetadataType::Doi => doi_value(info, t),
        MetadataType::Zotero => citoid_value(info, t),
    }
}

/// The value of the first source in `order` that has one for the field kind.
pub open spec fn first_match(info: ParseInfo, t: AttributeType, order: Seq<MetadataType>) -> Option<
    AttributeView,
>
    decreases order.len(),
{
    if order.len() == 0 {
        None
    } else {
        match source_value(info, order[0], t) {
            Some(v) => Some(v),
            None => first_match(info, t, order.drop_first()),
        }
    }
}

/// The first source that has a value wins, whatever the later ones say;
/// when it has none, the next source decides.
pub proof fn law_first_source_wins(
    info: ParseInfo,
    t: AttributeType,
    a: MetadataType,
    b: MetadataType,
)
    ensures
        source_value(info, a, t) is Some ==> first_match(info, t, seq![a, b]) == source_value(
            info,
            a,
            t,
        ),
        source_value(info, a, t) is None ==> first_match(info, t, seq![a, b]) == source_value(
            info,
            b,
            t,
        ),
{
    reveal_with_fuel(first_match, 3);
    assert(seq![a, b].drop_first() =~= seq![b]);
    assert(seq![b].drop_first() =~= Seq::<MetadataType>::empty());
}

/// Asks one source about a field kind.
pub fn parse_with(parse_info: &ParseInfo, metadata_type: MetadataType, attribute_type: AttributeType) -> (r:
    Option<Attribute>)
    ensures
        opt_view(r) == source_value(*parse_info, metadata_type, attribute_type),
{
    match metadata_type {
        MetadataType::OpenGraph => OpenGraph::parse_attribute(parse_info, attribute_type),
        MetadataType::SchemaOrg => SchemaOrg::parse_attribute(parse_info, attribute_type),
        MetadataType::HtmlMeta => HtmlMeta::parse_attribute(parse_info, attribute_type),
        MetadataType::Doi => Doi::parse_attribute(parse_info, attribute_type),
        MetadataType::Zotero => Zotero::parse_attribute(parse_info, attribute_type),
    }
}

/// Asks the sources in order and keeps the first value found.
pub fn parse(parse_info: &ParseInfo, attribute_type: AttributeType, formats: &AttributePriority) -> (r:
    Option<Attribute>)
    ensures
        opt_view(r) == first_match(*parse_info, attribute_type, formats.priority@),
{
    let ghost order = formats.priority@;
    let mut i: usize = 0;
    assert(order.skip(0) =~= order);
    while i < formats.priority.len()
        invariant
            order == formats.priority@,
            i <= order.len(),
            first_match(*parse_info, attribute_type, order) == first_match(
                *parse_info,
                attribute_type,
                order.skip(i as int),
            ),
        decreases order.len() - i,
    {
        assert(order.skip(i as int).drop_first() =~= order.skip(i + 1));
        let attribute = parse_with(parse_info, formats.priority[i], attribute_type);
        if attribute.is_some() {
            return attribute;
        }
        i = i + 1;
    }
    None
}

/// The resolved value of each field kind, by position.
pub struct AttributeCollection {
    attributes: Vec<Option<Attribute>>,
}

impl AttributeCollection {
    /// There is a slot for every field kind.
    #[verifier::type_invariant]
    spec fn has_every_kind(self) -> bool {
        self.attributes@.len() == ATTRIBUTE_TYPE_COUNT
    }
}

impl View for AttributeCollection {
    type V = Seq<Option<AttributeView>>;

    closed spec fn view(&self) -> Seq<Option<AttributeView>> {
        self.attributes@.map_values(|a: Option<Attribute>| opt_view(a))
    }
}

/// What the configured sources resolve a field kind to.
pub open spec fn resolved(info: ParseInfo, config: AttributeConfig, t: AttributeType) -> Option<
    AttributeView,
> {
    first_match(info, t, priority_for(config, t))
}

/// The collection after the AI fallback: fields already resolved stay as
/// they are; the others take what the extracted fields give.
pub open spec fn overlay(c: Seq<Option<AttributeView>>, m: AiExtractedMetadata) -> Seq<
    Option<AttributeView>,
> {
    Seq::new(
        c.len(),
        |i: int|
            if c[i] is Some {
                c[i]
            } else {
                ai_value(m, all_types()[i])
            },
    )
}

/// The AI fallback never replaces a value that a source resolved.
pub proof fn law_ai_never_overwrites(
    c: Seq<Option<AttributeView>>,
    m: AiExtractedMetadata,
    t: AttributeType,
)
    requires
        c.len() == ATTRIBUTE_TYPE_COUNT,
        c[type_index(t)] is Some,
    ensures
        overlay(c, m)[type_index(t)] == c[type_index(t)],
{
    lemma_all_types_index(t);
}

impl AttributeCollection {
    /// Resolves every field kind with its configured source order.
    pub fn initialize(config: &AttributeConfig, parse_info: &ParseInfo) -> (r: Self)
        ensures
            r@.len() == ATTRIBUTE_TYPE_COUNT,
            forall|t: AttributeType| #[trigger] r@[type_index(t)] == resolved(*parse_info, *config, t),
    {
        let types = AttributeType::all();
        let mut attributes: Vec<Option<Attribute>> = Vec::new();
        let mut i: usize = 0;
        while i < ATTRIBUTE_TYPE_COUNT
            invariant
                types@ == all_types(),
                i <= ATTRIBUTE_TYPE_COUNT,
                attributes@.len() == i,
                forall|k: int|
                    0 <= k < i ==> opt_view(#[trigger] attributes@[k]) == resolved(
                        *parse_info,
                        *config,
                        all_types()[k],
                    ),
            decreases ATTRIBUTE_TYPE_COUNT - i,
        {
            let t = types[i];
            let order = AttributePriority { priority: config.order(t) };
            attributes.push(parse(parse_info, t, &order));
            i = i + 1;
        }
        let r = AttributeCollection { attributes };
        assert forall|t: AttributeType| #[trigger] r@[type_index(t)] == resolved(*parse_info, *config, t) by {
            lemma_all_types_index(t);
        }
        r
    }

    /// The resolved value of a field kind, if any.
    pub fn get(&self, attribute_type: AttributeType) -> (r: Option<Attribute>)
        ensures
            self@.len() == ATTRIBUTE_TYPE_COUNT,
            opt_view(r) == self@[type_index(attribute_type)],
    {
        proof {
            use_type_invariant(self);
        }
        let i = attribute_type.index();
        duplicate_option(&self.attributes[i])
    }

    /// Fills each field kind that no source resolved with what the extracted
    /// fields give; resolved fields are kept.
    pub fn apply_ai_fallback(&mut self, metadata: &AiExtractedMetadata)
        ensures
            final(self)@ == overlay(old(self)@, *metadata),
    {
        proof {
            use_type_invariant(&*self);
        }
        let types = AttributeType::all();
        let ghost start = self@;
        let mut updated: Vec<Option<Attribute>> = Vec::new();
        let mut i: usize = 0;
        while i < ATTRIBUTE_TYPE_COUNT
            invariant
                types@ == all_types(),
                i <= ATTRIBUTE_TYPE_COUNT,
                start == self@,
                start.len() == ATTRIBUTE_TYPE_COUNT,
                self.attributes@.len() == ATTRIBUTE_TYPE_COUNT,
                updated@.len() == i,
                forall|k: int| 0 <= k < i ==> opt_view(#[trigger] updated@[k]) == overlay(start, *metadata)[k],
            decreases ATTRIBUTE_TYPE_COUNT - i,
        {
            assert(start[i as int] == opt_view(self.attributes@[i as int]));
            assert(types@[i as int] == all_types()[i as int]);
            let v = if self.attributes[i].is_none() {
                get_attribute_from_ai(metadata, types[i])
            } else {
                duplicate_option(&self.attributes[i])
            };
            updated.push(v);
            i = i + 1;
        }
        *self = AttributeCollection { attributes: updated };
        assert(self@ =~= overlay(start, *metadata));
    }
}

/// Every source's value for every field kind, for comparing sources.
pub struct MultiSourceAttributeCollection {
    values: Vec<Vec<Option<Attribute>>>,
}

impl MultiSourceAttributeCollection {
    /// A row for every field kind, a column for every compared source.
    #[verifier::type_invariant]
    spec fn has_every_cell(self) -> bool {
        &&& self.values@.len() == ATTRIBUTE_TYPE_COUNT
        &&& forall|i: int| 0 <= i < ATTRIBUTE_TYPE_COUNT ==> (#[trigger] self.values@[i])@.len() == 5
    }
}

/// The sources that the comparison asks, in the order of its columns.
pub open spec fn compared_sources() -> Seq<MetadataType> {
    seq![
        MetadataType::OpenGraph,
        MetadataType::SchemaOrg,
        MetadataType::HtmlMeta,
        MetadataType::Doi,
        MetadataType::Zotero,
    ]
}

/// The column of a source in the comparison.
pub open spec fn source_index(m: MetadataType) -> int {
    match m {
        MetadataType::OpenGraph => 0,
        MetadataType::SchemaOrg => 1,
        MetadataType::HtmlMeta => 2,
        MetadataType::Doi => 3,
        MetadataType::Zotero => 4,
    }
}

impl View for MultiSourceAttributeCollection {
    type V = Seq<Seq<Option<AttributeView>>>;

    closed spec fn view(&self) -> Seq<Seq<Option<AttributeView>>> {
        self.values@.map_values(
            |row: Vec<Option<Attribute>>| row@.map_values(|a: Option<Attribute>| opt_view(a)),
        )
    }
}

impl MultiSourceAttributeCollection {
    /// Asks every source about every field kind; nothing is chosen.
    pub fn parse_all(parse_info: &ParseInfo) -> (r: Self)
        ensures
            r@.len() == ATTRIBUTE_TYPE_COUNT,
            forall|t: AttributeType, m: MetadataType|
                #[trigger] r@[type_index(t)][source_index(m)] == source_value(*parse_info, m, t),
            forall|i: int| 0 <= i < ATTRIBUTE_TYPE_COUNT ==> (#[trigger] r@[i]).len() == 5,
    {
        let types = AttributeType::all();
        let sources = [
            MetadataType::OpenGraph,
            MetadataType::SchemaOrg,
            MetadataType::HtmlMeta,
            MetadataType::Doi,
            MetadataType::Zotero,
        ];
        let mut values: Vec<Vec<Option<Attribute>>> = Vec::new();
        let mut i: usize = 0;
        while i < ATTRIBUTE_TYPE_COUNT
            invariant
                types@ == all_types(),
                sources@ == compared_sources(),
                i <= ATTRIBUTE_TYPE_COUNT,
                values@.len() == i,
                forall|k: int, j: int|
                    0 <= k < i && 0 <= j < 5 ==> opt_view(#[trigger] values@[k]@[j]) == source_value(
                        *parse_info,
                        compared_sources()[j],
                        all_types()[k],
                    ),
                forall|k: int| 0 <= k < i ==> (#[trigger] values@[k]@).len() == 5,
            decreases ATTRIBUTE_TYPE_COUNT - i,
        {
            let mut row: Vec<Option<Attribute>> = Vec::new();
            let mut j: usize = 0;
            while j < 5
                invariant
                    types@ == all_types(),
                    sources@ == compared_sources(),
                    i < ATTRIBUTE_TYPE_COUNT,
                    j <= 5,
                    row@.len() == j,
                    forall|q: int|
                        0 <= q < j ==> opt_view(#[trigger] row@[q]) == source_value(
                            *parse_info,
                            compared_sources()[q],
                            all_types()[i as int],
                        ),
                decreases 5 - j,
            {
                row.push(parse_with(parse_info, sources[j], types[i]));
                j = j + 1;
            }
            values.push(row);
            i = i + 1;
        }
        let r = MultiSourceAttributeCollection { values };
        assert forall|t: AttributeType, m: MetadataType|
            #[trigger] r@[type_index(t)][source_index(m)] == source_value(*parse_info, m, t) by {
            lemma_all_types_index(t);
            assert(compared_sources()[source_index(m)] == m);
        }
        r
    }

    /// The source shown by default for a field kind: the first, in the
    /// comparison's order, that has a value.
    pub fn default_source(&self, attribute_type: AttributeType) -> (r: Option<MetadataType>)
        ensures
            match r {
                Some(m) => self@[type_index(attribute_type)][source_index(m)] is Some && forall|j: int|
                    0 <= j < source_index(m) ==> self@[type_index(attribute_type)][j] is None,
                None => forall|j: int| 0 <= j < 5 ==> self@[type_index(attribute_type)][j] is None,
            },
    {
        let sources = [
            MetadataType::OpenGraph,
            MetadataType::SchemaOrg,
            MetadataType::HtmlMeta,
            MetadataType::Doi,
            MetadataType::Zotero,
        ];
        proof {
            use_type_invariant(self);
        }
        let i = attribute_type.index();
        let ghost row = self@[i as int];
        assert(source_index(sources@[0]) == 0);
        assert(source_index(sources@[1]) == 1);
        assert(source_index(sources@[2]) == 2);
        assert(source_index(sources@[3]) == 3);
        assert(source_index(sources@[4]) == 4);
        let mut j: usize = 0;
        while j < 5
            invariant
                i < self.values@.len(),
                i as int == type_index(attribute_type),
                self.values@[i as int]@.len() == 5,
                row == self@[i as int],
                j <= 5,
                forall|k: int| 0 <= k < 5 ==> source_index(#[trigger] sources@[k]) == k,
                forall|k: int| 0 <= k < j ==> row[k] is None,
            decreases 5 - j,
        {
            assert(row[j as int] == opt_view(self.values@[i as int]@[j as int]));
            if self.values[i][j].is_some() {
                assert(row[j as int] is Some);
                assert(source_index(sources@[j as int]) == j);
                assert(type_index(attribute_type) == i);
                return Some(sources[j]);
            }
            j = j + 1;
        }
        None
    }

    /// What one source said of one field kind.
    pub fn get(&self, attribute_type: AttributeType, metadata_type: MetadataType) -> (r: Option<
        Attribute,
    >)
        ensures
            opt_view(r) == self@[type_index(attribute_type)][source_index(metadata_type)],
    {
        proof {
            use_type_invariant(self);
        }
        let i = attribute_type.index();
        let j: usize = match metadata_type {
            MetadataType::OpenGraph => 0,
            MetadataType::SchemaOrg => 1,
            MetadataType::HtmlMeta => 2,
            MetadataType::Doi => 3,
            MetadataType::Zotero => 4,
        };
        assert(self.values@[i as int]@.len() == 5);
        duplicate_option(&self.values[i][j])
    }
}

} // verus!
