//! Generation settings: the metadata sources, their priority per field,
//! and the translation and archive options.

use vstd::prelude::*;
use crate::ai_extractor::AiExtractedMetadata;
use crate::archive::{ArchiveState, archive_attributes, archive_fields};
use crate::attribute::{
    ATTRIBUTE_TYPE_COUNT,
    Attribute,
    AttributeType,
    AttributeView,
    Translation,
    all_types,
    lemma_all_types_index,
    opt_view,
    type_index,
};
use crate::parser::{AttributeCollection, ParseInfo, overlay, resolved};
use crate::reference::{Reference, reference_fields};
use crate::GenerationOptions;

verus! {

/// A metadata source.
#[derive(Debug, Clone, Copy, PartialEq, Eq, Structural, Hash)]
pub enum MetadataType {
    OpenGraph,
    SchemaOrg,
    HtmlMeta,
    Doi,
    Zotero,
}

/// Options for translating the title.
#[derive(Clone, Debug)]
pub struct TranslationOptions {
    /// ISO 639 code of the title's language; guessed when absent.
    pub source: Option<String>,
    /// ISO 639 code to translate into; no translation when absent.
    pub target: Option<String>,
    /// Key for the DeepL service.
    pub deepl_key: Option<String>,
}

/// Options for archive snapshots.
#[derive(Clone, Copy, Debug, PartialEq, Eq, Structural)]
pub struct ArchiveOptions {
    /// Look up an archived copy of the page.
    pub include_archived: bool,
    /// Ask the archive to make a copy when it has none.
    pub perform_archival: bool,
}

/// The order in which sources are asked about a field.
#[derive(Clone, Debug)]
pub struct AttributePriority {
    pub priority: Vec<MetadataType>,
}

/// The order used for a field that has none configured: Open Graph,
/// Schema.org, then the HTML meta tags.
pub open spec fn default_priority() -> Seq<MetadataType> {
    seq![MetadataType::OpenGraph, MetadataType::SchemaOrg, MetadataType::HtmlMeta]
}

impl AttributePriority {
    /// The default order: Open Graph, Schema.org, HTML meta tags.
    pub fn default_order() -> (r: Self)
        ensures
            r.priority@ == default_priority(),
    {
        let v = vec![MetadataType::OpenGraph, MetadataType::SchemaOrg, MetadataType::HtmlMeta];
        assert(v@ =~= default_priority());
        AttributePriority { priority: v }
    }

    /// An order given as a list of sources.
    pub fn new(priority: &[MetadataType]) -> (r: Self)
        ensures
            r.priority@ == priority@,
    {
        let mut v: Vec<MetadataType> = Vec::new();
        let mut i: usize = 0;
        while i < priority.len()
            invariant
                i <= priority@.len(),
                v@ == priority@.take(i as int),
            decreases priority@.len() - i,
        {
            v.push(priority[i]);
            assert(v@ =~= priority@.take(i + 1));
            i = i + 1;
        }
        assert(priority@.take(priority@.len() as int) =~= priority@);
        AttributePriority { priority: v }
    }

    /// This order with one more source at its end.
    pub fn and_then(self, metadata_type: MetadataType) -> (r: Self)
        ensures
            r.priority@ == self.priority@.push(metadata_type),
    {
        let mut v = self.priority;
        v.push(metadata_type);
        AttributePriority { priority: v }
    }

    /// A copy of this order.
    pub fn duplicate(&self) -> (r: Self)
        ensures
            r.priority@ == self.priority@,
    {
        AttributePriority::new(self.priority.as_slice())
    }
}

impl Default for AttributePriority {
    fn default() -> (r: Self)
        ensures
            r.priority@ == default_priority(),
    {
        AttributePriority::default_order()
    }
}

/// The source order of each field; a field without one uses the default order.
#[derive(Clone, Debug)]
pub struct AttributeConfig {
    pub title: Option<AttributePriority>,
    pub authors: Option<AttributePriority>,
    pub date: Option<AttributePriority>,
    pub language: Option<AttributePriority>,
    pub locale: Option<AttributePriority>,
    pub site: Option<AttributePriority>,
    pub url: Option<AttributePriority>,
    pub journal: Option<AttributePriority>,
    pub publisher: Option<AttributePriority>,
    pub institution: Option<AttributePriority>,
    pub volume: Option<AttributePriority>,
}

/// The configured order of a field, if any.
pub open spec fn configured(c: AttributeConfig, t: AttributeType) -> Option<AttributePriority> {
    match t {
        AttributeType::Title => c.title,
        AttributeType::Author => c.authors,
        AttributeType::Date => c.date,
        AttributeType::Language => c.language,
        AttributeType::Locale => c.locale,
        AttributeType::Site => c.site,
        AttributeType::Url => c.url,
        AttributeType::Journal => c.journal,
        AttributeType::Publisher => c.publisher,
        AttributeType::Institution => c.institution,
        AttributeType::Volume => c.volume,
        _ => None,
    }
}

/// The order in which sources are asked about a field.
pub open spec fn order_of(o: Option<AttributePriority>) -> Seq<MetadataType> {
    match o {
        Some(p) => p.priority@,
        None => default_priority(),
    }
}

/// The source order that applies to a field.
pub open spec fn priority_for(c: AttributeConfig, t: AttributeType) -> Seq<MetadataType> {
    order_of(configured(c, t))
}

/// The orders of the configurable fields, each with the default filled in.
pub open spec fn field_orders(c: AttributeConfig) -> Seq<Seq<MetadataType>> {
    seq![
        order_of(c.title),
        order_of(c.authors),
        order_of(c.date),
        order_of(c.language),
        order_of(c.locale),
        order_of(c.site),
        order_of(c.url),
        order_of(c.journal),
        order_of(c.publisher),
        order_of(c.institution),
        order_of(c.volume),
    ]
}

fn copy_option(o: &Option<AttributePriority>) -> (r: Option<AttributePriority>)
    ensures
        order_of(r) == order_of(*o),
        r is Some <==> o is Some,
{
    match o {
        Some(p) => Some(p.duplicate()),
        None => None,
    }
}

fn effective(o: &Option<AttributePriority>) -> (r: Vec<MetadataType>)
    ensures
        r@ == order_of(*o),
{
    match o {
        Some(p) => p.duplicate().priority,
        None => AttributePriority::default_order().priority,
    }
}

/// A sequence with one more element contains what it contained and that element.
pub proof fn lemma_push_contains<A>(s: Seq<A>, a: A, x: A)
    ensures
        s.push(a).contains(x) <==> (s.contains(x) || x == a),
{
    if s.push(a).contains(x) {
        let w = choose|w: int| 0 <= w < s.push(a).len() && s.push(a)[w] == x;
        if w < s.len() {
            assert(s[w] == x);
        }
    }
    if s.contains(x) {
        let w = choose|w: int| 0 <= w < s.len() && s[w] == x;
        assert(s.push(a)[w] == x);
    }
    if x == a {
        assert(s.push(a)[s.len() as int] == x);
    }
}

impl AttributeConfig {
    /// The same order for every field.
    pub fn new(priority: AttributePriority) -> (r: Self)
        ensures
            forall|t: AttributeType|
                configured(r, t) is Some ==> #[trigger] priority_for(r, t) == priority.priority@,
            r.title is Some && r.authors is Some && r.date is Some && r.language is Some
                && r.locale is Some && r.site is Some && r.url is Some && r.journal is Some
                && r.publisher is Some && r.institution is Some && r.volume is Some,
    {
        AttributeConfig {
            title: Some(priority.duplicate()),
            authors: Some(priority.duplicate()),
            date: Some(priority.duplicate()),
            language: Some(priority.duplicate()),
            locale: Some(priority.duplicate()),
            site: Some(priority.duplicate()),
            url: Some(priority.duplicate()),
            journal: Some(priority.duplicate()),
            publisher: Some(priority.duplicate()),
            institution: Some(priority.duplicate()),
            volume: Some(priority),
        }
    }

    /// The configured order of a field, if it has one; the archive fields
    /// and the type field have none.
    pub fn get(&self, attribute_type: AttributeType) -> (r: Option<AttributePriority>)
        ensures
            r is Some <==> configured(*self, attribute_type) is Some,
            order_of(r) == priority_for(*self, attribute_type),
    {
        match attribute_type {
            AttributeType::Title => copy_option(&self.title),
            AttributeType::Author => copy_option(&self.authors),
            AttributeType::Date => copy_option(&self.date),
            AttributeType::Language => copy_option(&self.language),
            AttributeType::Locale => copy_option(&self.locale),
            AttributeType::Site => copy_option(&self.site),
            AttributeType::Url => copy_option(&self.url),
            AttributeType::Journal => copy_option(&self.journal),
            AttributeType::Publisher => copy_option(&self.publisher),
            AttributeType::Institution => copy_option(&self.institution),
            AttributeType::Volume => copy_option(&self.volume),
            _ => None,
        }
    }

    /// The order that applies to a field: its own, else the default.
    pub fn order(&self, attribute_type: AttributeType) -> (r: Vec<MetadataType>)
        ensures
            r@ == priority_for(*self, attribute_type),
    {
        let o = self.get(attribute_type);
        effective(&o)
    }

    /// Every source that some configurable field asks, once each.
    pub fn parsers_used(&self) -> (r: Vec<MetadataType>)
        ensures
            r@.no_duplicates(),
            forall|m: MetadataType|
                r@.contains(m) <==> exists|i: int|
                    0 <= i < 11 && (#[trigger] field_orders(*self)[i]).contains(m),
    {
        let orders = vec![
            effective(&self.title),
            effective(&self.authors),
            effective(&self.date),
            effective(&self.language),
            effective(&self.locale),
            effective(&self.site),
            effective(&self.url),
            effective(&self.journal),
            effective(&self.publisher),
            effective(&self.institution),
            effective(&self.volume),
        ];
        let ghost fo = field_orders(*self);
        assert(forall|i: int| 0 <= i < 11 ==> (#[trigger] orders@[i])@ == fo[i]);
        let mut used: Vec<MetadataType> = Vec::new();
        let mut i: usize = 0;
        while i < 11
            invariant
                i <= 11,
                orders@.len() == 11,
                fo == field_orders(*self),
                forall|k: int| 0 <= k < 11 ==> (#[trigger] orders@[k])@ == fo[k],
                used@.no_duplicates(),
                forall|m: MetadataType|
                    used@.contains(m) <==> exists|k: int| 0 <= k < i && (#[trigger] fo[k]).contains(m),
            decreases 11 - i,
        {
            let order = &orders[i];
            let mut j: usize = 0;
            while j < order.len()
                invariant
                    i < 11,
                    j <= order@.len(),
                    order@ == fo[i as int],
                    used@.no_duplicates(),
                    forall|m: MetadataType|
                        used@.contains(m) <==> (exists|k: int| 0 <= k < i && (#[trigger] fo[k]).contains(m))
                            || order@.take(j as int).contains(m),
                decreases order@.len() - j,
            {
                let m = order[j];
                let mut present = false;
                let mut k: usize = 0;
                while k < used.len()
                    invariant
                        k <= used@.len(),
                        present <==> used@.take(k as int).contains(m),
                    decreases used@.len() - k,
                {
                    assert(used@.take(k + 1) =~= used@.take(k as int).push(used@[k as int]));
                    proof {
                        lemma_push_contains(used@.take(k as int), used@[k as int], m);
                    }
                    if used[k] == m {
                        present = true;
                    }
                    k = k + 1;
                }
                assert(used@.take(used@.len() as int) =~= used@);
                let ghost before = used@;
                if !present {
                    used.push(m);
                    assert(used@ =~= before.push(m));
                    assert forall|a: int, b: int| 0 <= a < b < used@.len() implies used@[a] != used@[b] by {
                        if b == used@.len() - 1 {
                            assert(before.contains(before[a]));
                        }
                    }
                }
                assert(order@.take(j + 1) =~= order@.take(j as int).push(m));
                assert forall|x: MetadataType|
                    used@.contains(x) <==> (exists|k: int| 0 <= k < i && (#[trigger] fo[k]).contains(x))
                        || order@.take(j + 1).contains(x) by {
                    lemma_push_contains(order@.take(j as int), m, x);
                    lemma_push_contains(before, m, x);
                }
                j = j + 1;
            }
            assert(order@.take(order@.len() as int) =~= order@);
            assert forall|x: MetadataType|
                used@.contains(x) <==> exists|k: int| 0 <= k < i + 1 && (#[trigger] fo[k]).contains(x) by {
                if order@.contains(x) {
                    assert(fo[i as int].contains(x));
                }
                if exists|k: int| 0 <= k < i + 1 && (#[trigger] fo[k]).contains(x) {
                    let k = choose|k: int| 0 <= k < i + 1 && (#[trigger] fo[k]).contains(x);
                    if k == i {
                        assert(order@.contains(x));
                    }
                }
            }
            i = i + 1;
        }
        used
    }
}

impl Default for TranslationOptions {
    fn default() -> (r: Self)
        ensures
            r.source is None && r.target is None && r.deepl_key is None,
    {
        TranslationOptions { source: None, target: None, deepl_key: None }
    }
}

impl Default for ArchiveOptions {
    fn default() -> (r: Self)
        ensures
            !r.include_archived && !r.perform_archival,
    {
        ArchiveOptions { include_archived: false, perform_archival: false }
    }
}

impl Default for AttributeConfig {
    /// No field has an order of its own: every field uses the default order.
    fn default() -> (r: Self)
        ensures
            forall|t: AttributeType| #[trigger] configured(r, t) is None,
    {
        AttributeConfig {
            title: None,
            authors: None,
            date: None,
            language: None,
            locale: None,
            site: None,
            url: None,
            journal: None,
            publisher: None,
            institution: None,
            volume: None,
        }
    }
}

/// Why no reference could be made.
#[derive(Debug, Clone, Copy, PartialEq, Eq, Structural)]
pub enum ReferenceGenerationError {
    /// The page could not be fetched.
    CurlError,
    /// Every requested source failed to read the page.
    ParseFailure,
    /// A source was not asked to run.
    ParseSkip,
    /// The HTML could not be parsed.
    HTMLParseError,
    /// The translation service failed.
    DeepLError,
    /// There was no title to translate, or no key or target language.
    TranslationError,
    /// No BibTeX entry could be had for the page's DOI.
    DoiError,
}

/// Whether a fetched page can be used: it cannot when the HTML sources were
/// requested and the HTML failed to parse, and the DOI source was requested
/// and no entry was had.
pub fn check_parsers(parsers: &Vec<MetadataType>, html_parsed: bool, bibliography_found: bool) -> (r:
    Result<(), ReferenceGenerationError>)
    ensures
        r is Err <==> ((parsers@.contains(MetadataType::OpenGraph) || parsers@.contains(
            MetadataType::SchemaOrg,
        )) && !html_parsed) && (parsers@.contains(MetadataType::Doi) && !bibliography_found),
        r matches Err(e) ==> e == ReferenceGenerationError::ParseFailure,
{
    let mut html_wanted = false;
    let mut doi_wanted = false;
    let mut i: usize = 0;
    while i < parsers.len()
        invariant
            i <= parsers@.len(),
            html_wanted <==> (parsers@.take(i as int).contains(MetadataType::OpenGraph)
                || parsers@.take(i as int).contains(MetadataType::SchemaOrg)),
            doi_wanted <==> parsers@.take(i as int).contains(MetadataType::Doi),
        decreases parsers@.len() - i,
    {
        let m = parsers[i];
        proof {
            assert(parsers@.take(i + 1) =~= parsers@.take(i as int).push(m));
            lemma_push_contains(parsers@.take(i as int), m, MetadataType::OpenGraph);
            lemma_push_contains(parsers@.take(i as int), m, MetadataType::SchemaOrg);
            lemma_push_contains(parsers@.take(i as int), m, MetadataType::Doi);
        }
        match m {
            MetadataType::OpenGraph | MetadataType::SchemaOrg => {
                html_wanted = true;
            },
            MetadataType::Doi => {
                doi_wanted = true;
            },
            _ => {},
        }
        i = i + 1;
    }
    assert(parsers@.take(parsers@.len() as int) =~= parsers@);
    if html_wanted && !html_parsed && doi_wanted && !bibliography_found {
        Err(ReferenceGenerationError::ParseFailure)
    } else {
        Ok(())
    }
}

/// The text to send for translation: the title, when there is one and both
/// a key and a target language are set.
pub open spec fn translation_request_of(title: Option<AttributeView>, options: TranslationOptions) -> Option<
    Seq<char>,
> {
    match title {
        Some(AttributeView::Title(t)) => if options.deepl_key is Some && options.target is Some {
            Some(t)
        } else {
            None
        },
        _ => None,
    }
}

/// The text to send for translation, if a translation is to be made.
pub fn translation_request(title: &Option<Attribute>, options: &TranslationOptions) -> (r: Result<
    String,
    ReferenceGenerationError,
>)
    ensures
        match translation_request_of(opt_view(*title), *options) {
            Some(t) => r matches Ok(s) && s@ == t,
            None => r == Err::<String, ReferenceGenerationError>(
                ReferenceGenerationError::TranslationError,
            ),
        },
{
    match title {
        Some(Attribute::Title(content)) => {
            if options.deepl_key.is_some() && options.target.is_some() {
                Ok(content.clone())
            } else {
                Err(ReferenceGenerationError::TranslationError)
            }
        },
        _ => Err(ReferenceGenerationError::TranslationError),
    }
}

/// The translated title: the translation, in the target language, of a
/// title that was sent for translation.
pub open spec fn translated_title_of(
    title: Option<AttributeView>,
    options: TranslationOptions,
    translated: Option<String>,
) -> Option<AttributeView> {
    match (translation_request_of(title, options), translated, options.target) {
        (Some(_), Some(x), Some(lang)) => Some(AttributeView::TranslatedTitle(x@, lang@)),
        _ => None,
    }
}

/// Pairs a translation with its target language, when the title was sent.
pub fn translate_title(title: &Option<Attribute>, options: &TranslationOptions, translated: Option<String>) -> (r: Option<
    Attribute,
>)
    ensures
        opt_view(r) == translated_title_of(opt_view(*title), *options, translated),
{
    match translation_request(title, options) {
        Ok(_) => match (translated, &options.target) {
            (Some(text), Some(lang)) => Some(
                Attribute::TranslatedTitle(Translation { text, language: lang.clone() }),
            ),
            _ => None,
        },
        Err(_) => None,
    }
}

/// What the outside services returned for one request.
pub struct ServiceOutcomes {
    /// The title's translation, if one was made.
    pub translated_title: Option<String>,
    /// The AI extraction, if one was made.
    pub ai_metadata: Option<AiExtractedMetadata>,
    /// Where the archive step ended.
    pub archive: ArchiveState,
}

/// The value of each field kind after resolution and, when enabled and
/// available, the AI fallback.
pub open spec fn final_values(info: ParseInfo, options: GenerationOptions, outcomes: ServiceOutcomes) -> Seq<
    Option<AttributeView>,
> {
    let c0 = Seq::new(
        ATTRIBUTE_TYPE_COUNT as nat,
        |i: int| resolved(info, options.attribute_config, all_types()[i]),
    );
    match outcomes.ai_metadata {
        Some(m) => if options.ai_options.enabled {
            overlay(c0, m)
        } else {
            c0
        },
        None => c0,
    }
}

/// The fields of the news article made for a request, in builder order.
pub open spec fn assembled_fields(info: ParseInfo, options: GenerationOptions, outcomes: ServiceOutcomes) -> Seq<
    Option<AttributeView>,
> {
    let c = final_values(info, options, outcomes);
    let at = |t: AttributeType| c[type_index(t)];
    seq![
        at(AttributeType::Title),
        translated_title_of(
            at(AttributeType::Title),
            options.translation_options,
            outcomes.translated_title,
        ),
        at(AttributeType::Author),
        at(AttributeType::Date),
        at(AttributeType::Language),
        at(AttributeType::Site),
        at(AttributeType::Url),
        archive_fields(outcomes.archive).0,
        archive_fields(outcomes.archive).1,
        at(AttributeType::Publisher),
    ]
}

/// Makes the news article for a request from the page's sources, the
/// options, and what the outside services returned.
pub fn create_reference(parse_info: &ParseInfo, options: &GenerationOptions, outcomes: &ServiceOutcomes) -> (r:
    Reference)
    ensures
        r is NewsArticle,
        reference_fields(r) == assembled_fields(*parse_info, *options, *outcomes),
{
    let mut collection = AttributeCollection::initialize(&options.attribute_config, parse_info);
    let ghost c0 = Seq::new(
        ATTRIBUTE_TYPE_COUNT as nat,
        |i: int| resolved(*parse_info, options.attribute_config, all_types()[i]),
    );
    proof {
        assert forall|i: int| 0 <= i < ATTRIBUTE_TYPE_COUNT implies collection@[i] == c0[i] by {
            let t = all_types()[i];
            lemma_all_types_index(t);
            assert(type_index(t) == i);
        }
        assert(collection@ =~= c0);
    }
    match &outcomes.ai_metadata {
        Some(m) => {
            if options.ai_options.enabled {
                collection.apply_ai_fallback(m);
            }
        },
        None => {},
    }
    assert(collection@ == final_values(*parse_info, *options, *outcomes));
    let title = collection.get(AttributeType::Title);
    let translated_title = translate_title(
        &title,
        &options.translation_options,
        match &outcomes.translated_title {
            Some(s) => Some(s.clone()),
            None => None,
        },
    );
    let (archive_url, archive_date) = archive_attributes(&outcomes.archive);
    let r = Reference::NewsArticle {
        title,
        translated_title,
        author: collection.get(AttributeType::Author),
        date: collection.get(AttributeType::Date),
        language: collection.get(AttributeType::Language),
        site: collection.get(AttributeType::Site),
        url: collection.get(AttributeType::Url),
        publisher: collection.get(AttributeType::Publisher),
        archive_url,
        archive_date,
    };
    assert(reference_fields(r) =~= assembled_fields(*parse_info, *options, *outcomes));
    r
}

} // verus!
