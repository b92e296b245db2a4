//! References: the resolved fields of a cited work in one of three shapes,
//! rendered by feeding them to a citation builder in a fixed order.

use vstd::prelude::*;
use crate::attribute::{Attribute, AttributeView, duplicate_option, opt_view};
use crate::citation::{
    BibTeXCitation,
    HarvardCitation,
    HarvardSlots,
    WikiCitation,
    bib_after,
    bib_text,
    harvard_after,
    harvard_text,
    wiki_after,
    wiki_text,
};

verus! {

/// A cited work. The shape names follow the Schema.org vocabulary.
#[derive(Debug)]
pub enum Reference {
    NewsArticle {
        title: Option<Attribute>,
        translated_title: Option<Attribute>,
        author: Option<Attribute>,
        date: Option<Attribute>,
        language: Option<Attribute>,
        site: Option<Attribute>,
        url: Option<Attribute>,
        publisher: Option<Attribute>,
        archive_url: Option<Attribute>,
        archive_date: Option<Attribute>,
    },
    ScholarlyArticle {
        title: Option<Attribute>,
        translated_title: Option<Attribute>,
        author: Option<Attribute>,
        date: Option<Attribute>,
        language: Option<Attribute>,
        url: Option<Attribute>,
        journal: Option<Attribute>,
        publisher: Option<Attribute>,
        archive_url: Option<Attribute>,
        archive_date: Option<Attribute>,
    },
    GenericReference {
        title: Option<Attribute>,
        translated_title: Option<Attribute>,
        author: Option<Attribute>,
        date: Option<Attribute>,
        language: Option<Attribute>,
        site: Option<Attribute>,
        url: Option<Attribute>,
        archive_url: Option<Attribute>,
        archive_date: Option<Attribute>,
    },
}

/// The fields of a reference in the order the builders receive them.
pub open spec fn reference_fields(r: Reference) -> Seq<Option<AttributeView>> {
    match r {
        Reference::NewsArticle {
            title,
            translated_title,
            author,
            date,
            language,
            site,
            url,
            publisher,
            archive_url,
            archive_date,
        } => seq![
            opt_view(title),
            opt_view(translated_title),
            opt_view(author),
            opt_view(date),
            opt_view(language),
            opt_view(site),
            opt_view(url),
            opt_view(archive_url),
            opt_view(archive_date),
            opt_view(publisher),
        ],
        Reference::ScholarlyArticle {
            title,
            translated_title,
            author,
            date,
            language,
            url,
            journal,
            publisher,
            archive_url,
            archive_date,
        } => seq![
            opt_view(title),
            opt_view(translated_title),
            opt_view(author),
            opt_view(date),
            opt_view(language),
            opt_view(url),
            opt_view(archive_url),
            opt_view(archive_date),
            opt_view(journal),
            opt_view(publisher),
        ],
        Reference::GenericReference {
            title,
            translated_title,
            author,
            date,
            language,
            site,
            url,
            archive_url,
            archive_date,
        } => seq![
            opt_view(title),
            opt_view(translated_title),
            opt_view(author),
            opt_view(date),
            opt_view(language),
            opt_view(site),
            opt_view(url),
            opt_view(archive_url),
            opt_view(archive_date),
        ],
    }
}

/// The `{{cite web}}` parameters accumulated from some fields.
pub open spec fn wiki_fold(fs: Seq<Option<AttributeView>>) -> Seq<char>
    decreases fs.len(),
{
    if fs.len() == 0 {
        Seq::empty()
    } else {
        match fs.last() {
            Some(a) => wiki_after(wiki_fold(fs.drop_last()), a),
            None => wiki_fold(fs.drop_last()),
        }
    }
}

/// The BibTeX fields accumulated from some fields.
pub open spec fn bib_fold(fs: Seq<Option<AttributeView>>) -> Seq<char>
    decreases fs.len(),
{
    if fs.len() == 0 {
        Seq::empty()
    } else {
        match fs.last() {
            Some(a) => bib_after(bib_fold(fs.drop_last()), a),
            None => bib_fold(fs.drop_last()),
        }
    }
}

/// No Harvard slot filled.
pub open spec fn empty_slots() -> HarvardSlots {
    HarvardSlots {
        authors: None,
        year: None,
        title: None,
        site: None,
        publisher: None,
        url: None,
        access_date: None,
    }
}

/// The Harvard slots filled from some fields.
pub open spec fn harvard_fold(fs: Seq<Option<AttributeView>>) -> HarvardSlots
    decreases fs.len(),
{
    if fs.len() == 0 {
        empty_slots()
    } else {
        match fs.last() {
            Some(a) => harvard_after(harvard_fold(fs.drop_last()), a),
            None => harvard_fold(fs.drop_last()),
        }
    }
}

/// A field that is absent changes no rendering: adding it after any fields
/// leaves the Wiki and BibTeX text and the Harvard slots as they were.
pub proof fn law_absent_field_is_invisible(fs: Seq<Option<AttributeView>>)
    ensures
        wiki_fold(fs.push(None)) == wiki_fold(fs),
        bib_fold(fs.push(None)) == bib_fold(fs),
        harvard_fold(fs.push(None)) == harvard_fold(fs),
{
    assert(fs.push(None).drop_last() =~= fs);
}

impl Reference {
    /// Copies of the fields in the order the builders receive them.
    pub fn fields(&self) -> (r: Vec<Option<Attribute>>)
        ensures
            r@.map_values(|a: Option<Attribute>| opt_view(a)) == reference_fields(*self),
    {
        let r = match self {
            Reference::NewsArticle {
                title,
                translated_title,
                author,
                date,
                language,
                site,
                url,
                publisher,
                archive_url,
                archive_date,
            } => vec![
                duplicate_option(title),
                duplicate_option(translated_title),
                duplicate_option(author),
                duplicate_option(date),
                duplicate_option(language),
                duplicate_option(site),
                duplicate_option(url),
                duplicate_option(archive_url),
                duplicate_option(archive_date),
                duplicate_option(publisher),
            ],
            Reference::ScholarlyArticle {
                title,
                translated_title,
                author,
                date,
                language,
                url,
                journal,
                publisher,
                archive_url,
                archive_date,
            } => vec![
                duplicate_option(title),
                duplicate_option(translated_title),
                duplicate_option(author),
                duplicate_option(date),
                duplicate_option(language),
                duplicate_option(url),
                duplicate_option(archive_url),
                duplicate_option(archive_date),
                duplicate_option(journal),
                duplicate_option(publisher),
            ],
            Reference::GenericReference {
                title,
                translated_title,
                author,
                date,
                language,
                site,
                url,
                archive_url,
                archive_date,
            } => vec![
                duplicate_option(title),
                duplicate_option(translated_title),
                duplicate_option(author),
                duplicate_option(date),
                duplicate_option(language),
                duplicate_option(site),
                duplicate_option(url),
                duplicate_option(archive_url),
                duplicate_option(archive_date),
            ],
        };
        assert(r@.map_values(|a: Option<Attribute>| opt_view(a)) =~= reference_fields(*self));
        r
    }

    /// The reference in BibTeX markup.
    pub fn bibtex(&self) -> (r: String)
        ensures
            r@ == bib_text(bib_fold(reference_fields(*self))),
    {
        let fs = self.fields();
        let ghost views = fs@.map_values(|a: Option<Attribute>| opt_view(a));
        let mut builder = BibTeXCitation::new();
        let mut i: usize = 0;
        while i < fs.len()
            invariant
                i <= fs@.len(),
                views == fs@.map_values(|a: Option<Attribute>| opt_view(a)),
                builder@ == bib_fold(views.take(i as int)),
            decreases fs@.len() - i,
        {
            assert(views.take(i + 1).drop_last() =~= views.take(i as int));
            builder = builder.try_add(&fs[i]);
            i = i + 1;
        }
        assert(views.take(fs@.len() as int) =~= views);
        builder.build()
    }

    /// The reference in MediaWiki `{{cite web}}` markup.
    pub fn wiki(&self) -> (r: String)
        ensures
            r@ == wiki_text(wiki_fold(reference_fields(*self))),
    {
        let fs = self.fields();
        let ghost views = fs@.map_values(|a: Option<Attribute>| opt_view(a));
        let mut builder = WikiCitation::new();
        let mut i: usize = 0;
        while i < fs.len()
            invariant
                i <= fs@.len(),
                views == fs@.map_values(|a: Option<Attribute>| opt_view(a)),
                builder@ == wiki_fold(views.take(i as int)),
            decreases fs@.len() - i,
        {
            assert(views.take(i + 1).drop_last() =~= views.take(i as int));
            builder = builder.try_add(&fs[i]);
            i = i + 1;
        }
        assert(views.take(fs@.len() as int) =~= views);
        builder.build()
    }

    /// The reference in Harvard style.
    pub fn harvard(&self) -> (r: String)
        ensures
            r@ == harvard_text(harvard_fold(reference_fields(*self))),
    {
        let fs = self.fields();
        let ghost views = fs@.map_values(|a: Option<Attribute>| opt_view(a));
        let mut builder = HarvardCitation::new();
        let mut i: usize = 0;
        while i < fs.len()
            invariant
                i <= fs@.len(),
                views == fs@.map_values(|a: Option<Attribute>| opt_view(a)),
                builder@ == harvard_fold(views.take(i as int)),
            decreases fs@.len() - i,
        {
            assert(views.take(i + 1).drop_last() =~= views.take(i as int));
            builder = builder.try_add(&fs[i]);
            i = i + 1;
        }
        assert(views.take(fs@.len() as int) =~= views);
        builder.build()
    }
}

} // verus!
