//! Reference generation from a web page: typed citation attributes, the
//! metadata sources that produce them, priority-based resolution of one value
//! per field, archive-snapshot resolution, and rendering into MediaWiki,
//! BibTeX and Harvard citations.

pub mod ai_extractor;
pub mod archive;
pub mod attribute;
pub mod citation;
pub mod datetime;
pub mod doi;
pub mod generator;
pub mod html_meta;
pub mod opengraph;
pub mod parser;
pub mod reference;
pub mod schema_org;
pub mod text;
pub mod zotero;

use vstd::prelude::*;
use crate::ai_extractor::AiExtractionOptions;
use crate::generator::{ArchiveOptions, AttributeConfig, TranslationOptions, configured};
use crate::attribute::AttributeType;
use crate::parser::{MultiSourceAttributeCollection, ParseInfo};

verus! {

/// Options for reference generation: the source order per field, title
/// translation, archive snapshots and the AI fallback.
#[derive(Clone, Debug)]
pub struct GenerationOptions {
    pub attribute_config: AttributeConfig,
    pub translation_options: TranslationOptions,
    pub archive_options: ArchiveOptions,
    pub ai_options: AiExtractionOptions,
}

impl Default for GenerationOptions {
    /// Default source orders, no translation, no archive, no AI fallback.
    fn default() -> (r: Self)
        ensures
            forall|t: AttributeType| #[trigger] configured(r.attribute_config, t) is None,
            r.translation_options.target is None,
            !r.archive_options.include_archived && !r.archive_options.perform_archival,
            !r.ai_options.enabled,
    {
        GenerationOptions {
            attribute_config: AttributeConfig::default(),
            translation_options: TranslationOptions::default(),
            archive_options: ArchiveOptions::default(),
            ai_options: AiExtractionOptions::default(),
        }
    }
}

impl GenerationOptions {
    /// Options with the AI fallback switched off.
    pub fn new(
        attribute_config: AttributeConfig,
        translation_options: TranslationOptions,
        archive_options: ArchiveOptions,
    ) -> (r: Self)
        ensures
            r.attribute_config == attribute_config,
            r.translation_options == translation_options,
            r.archive_options == archive_options,
            !r.ai_options.enabled,
    {
        GenerationOptions {
            attribute_config,
            translation_options,
            archive_options,
            ai_options: AiExtractionOptions::default(),
        }
    }

    /// These options with the given AI fallback settings.
    pub fn with_ai(self, ai_options: AiExtractionOptions) -> (r: Self)
        ensures
            r.attribute_config == self.attribute_config,
            r.translation_options == self.translation_options,
            r.archive_options == self.archive_options,
            r.ai_options == ai_options,
    {
        GenerationOptions { ai_options, ..self }
    }

    /// Default options with the given translation settings.
    pub fn with_translation(translation_options: TranslationOptions) -> (r: Self)
        ensures
            forall|t: AttributeType| #[trigger] configured(r.attribute_config, t) is None,
            r.translation_options == translation_options,
            !r.archive_options.include_archived,
            !r.ai_options.enabled,
    {
        GenerationOptions {
            attribute_config: AttributeConfig::default(),
            translation_options,
            archive_options: ArchiveOptions::default(),
            ai_options: AiExtractionOptions::default(),
        }
    }
}

/// Every source's value for every field kind of a page, for comparison.
pub fn parse_all_metadata_from_parse_info(parse_info: &ParseInfo) -> (r: MultiSourceAttributeCollection)
    ensures
        r@.len() == crate::attribute::ATTRIBUTE_TYPE_COUNT,
        forall|t: AttributeType, m: crate::generator::MetadataType|
            #[trigger] r@[crate::attribute::type_index(t)][crate::parser::source_index(m)]
                == crate::parser::source_value(*parse_info, m, t),
{
    MultiSourceAttributeCollection::parse_all(parse_info)
}

} // verus!
