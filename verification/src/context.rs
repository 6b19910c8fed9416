//! Rendering contexts.
//!
//! A rendering context is the flat set of already-resolved strings and
//! booleans handed to the template binder for one render. `compose_page`
//! derives the context for an article page, `compose_index` the context for a
//! listing page; both are assembled fresh per call from their inputs and the
//! fixed site constants.

use vstd::prelude::*;

use crate::assets::relative_prefix;
use crate::assets::search_bundle;
use crate::assets::search_script_at_depth;
use crate::assets::search_script_path;
use crate::assets::spec_relative_prefix;
use crate::assets::spec_search_script;
use crate::locale::has_translations;
use crate::locale::links_resolved;
use crate::locale::spec_translation_link;
use crate::locale::spec_translation_links;
use crate::locale::translation_links;
use crate::locale::TranslationLink;
use crate::locale::TranslationLinkView;
use crate::locale::TranslationRef;
use crate::locale::TranslationRefView;
use crate::footer_text;
use crate::site_title;
use crate::spec_footer_text;
use crate::spec_site_title;

verus! {

/// One content unit, as the host hands it in. The raw markdown body and the
/// creation instant are carried along but converted for display by the host's
/// collaborators (markdown renderer, timestamp formatter), whose outputs are
/// passed to `compose_page` beside the article itself.
pub struct Article {
    /// The display title.
    pub title: String,
    /// The raw markdown body.
    pub content: String,
    /// The author's display name.
    pub author: String,
    /// The creation instant, in seconds since the Unix epoch.
    pub created: u64,
    /// The article's locale identifier, e.g. `"en"`.
    pub locale: String,
    /// The category path; its length is the page's nesting depth.
    pub category_path: Vec<String>,
    /// The sibling translations the host knows of, ordinarily the article's
    /// own locale among them. If the host omits it, no link is marked
    /// selected; the inconsistency is not repaired here.
    pub translations: Vec<TranslationRef>,
}

/// Spec-level image of an `Article`.
pub struct ArticleView {
    pub title: Seq<char>,
    pub content: Seq<char>,
    pub author: Seq<char>,
    pub created: u64,
    pub locale: Seq<char>,
    pub category_path: Seq<Seq<char>>,
    pub translations: Seq<TranslationRefView>,
}

impl DeepView for Article {
    type V = ArticleView;

    open spec fn deep_view(&self) -> ArticleView {
        ArticleView {
            title: self.title@,
            content: self.content@,
            author: self.author@,
            created: self.created,
            locale: self.locale@,
            category_path: self.category_path.deep_view(),
            translations: self.translations.deep_view(),
        }
    }
}

/// A lighter view of an article, used only to build listing pages.
pub struct ArticlePreview {
    /// The display title.
    pub title: String,
    /// The output file path of the rendered page.
    pub href: String,
    /// The author's display name.
    pub author: String,
    /// The category path of the article.
    pub category_path: Vec<String>,
}

/// Spec-level image of an `ArticlePreview`.
pub struct ArticlePreviewView {
    pub title: Seq<char>,
    pub href: Seq<char>,
    pub author: Seq<char>,
    pub category_path: Seq<Seq<char>>,
}

impl DeepView for ArticlePreview {
    type V = ArticlePreviewView;

    open spec fn deep_view(&self) -> ArticlePreviewView {
        ArticlePreviewView {
            title: self.title@,
            href: self.href@,
            author: self.author@,
            category_path: self.category_path.deep_view(),
        }
    }
}

/// One listing entry: a title and the page it links to.
pub struct IndexEntry {
    /// The display title.
    pub title: String,
    /// The path of the rendered page.
    pub href: String,
}

/// Spec-level image of an `IndexEntry`.
pub struct IndexEntryView {
    pub title: Seq<char>,
    pub href: Seq<char>,
}

impl View for IndexEntry {
    type V = IndexEntryView;

    open spec fn view(&self) -> IndexEntryView {
        IndexEntryView { title: self.title@, href: self.href@ }
    }
}

impl DeepView for IndexEntry {
    type V = IndexEntryView;

    open spec fn deep_view(&self) -> IndexEntryView {
        self@
    }
}

/// The rendering context of an article page.
pub struct PageContext {
    pub title: String,
    pub created: String,
    pub body: String,
    pub author: String,
    pub asset_prefix: String,
    pub search_js: String,
    pub site_title: String,
    pub footer: String,
    pub translations: Vec<TranslationLink>,
    pub has_translations: bool,
}

/// Spec-level image of a `PageContext`.
#[verifier::ext_equal]
pub struct PageContextView {
    pub title: Seq<char>,
    pub created: Seq<char>,
    pub body: Seq<char>,
    pub author: Seq<char>,
    pub asset_prefix: Seq<char>,
    pub search_js: Seq<char>,
    pub site_title: Seq<char>,
    pub footer: Seq<char>,
    pub translations: Seq<TranslationLinkView>,
    pub has_translations: bool,
}

impl View for PageContext {
    type V = PageContextView;

    open spec fn view(&self) -> PageContextView {
        PageContextView {
            title: self.title@,
            created: self.created@,
            body: self.body@,
            author: self.author@,
            asset_prefix: self.asset_prefix@,
            search_js: self.search_js@,
            site_title: self.site_title@,
            footer: self.footer@,
            translations: self.translations.deep_view(),
            has_translations: self.has_translations,
        }
    }
}

/// The rendering context of a listing page.
pub struct IndexContext {
    pub entries: Vec<IndexEntry>,
    pub search_js: String,
    pub asset_prefix: String,
    pub site_title: String,
    pub footer: String,
    pub has_entries: bool,
}

/// Spec-level image of an `IndexContext`.
#[verifier::ext_equal]
pub struct IndexContextView {
    pub entries: Seq<IndexEntryView>,
    pub search_js: Seq<char>,
    pub asset_prefix: Seq<char>,
    pub site_title: Seq<char>,
    pub footer: Seq<char>,
    pub has_entries: bool,
}

impl View for IndexContext {
    type V = IndexContextView;

    open spec fn view(&self) -> IndexContextView {
        IndexContextView {
            entries: self.entries.deep_view(),
            search_js: self.search_js@,
            asset_prefix: self.asset_prefix@,
            site_title: self.site_title@,
            footer: self.footer@,
            has_entries: self.has_entries,
        }
    }
}

/// The context an article page is rendered with: the article's own fields,
/// the collaborator-produced body and timestamp, the asset paths for the
/// article's depth, the resolved translation links, and the site constants.
pub open spec fn spec_page_context(
    a: ArticleView,
    body_html: Seq<char>,
    created: Seq<char>,
) -> PageContextView {
    PageContextView {
        title: a.title,
        created: created,
        body: body_html,
        author: a.author,
        asset_prefix: spec_relative_prefix(a.category_path.len()),
        search_js: spec_search_script(a.category_path.len()),
        site_title: spec_site_title(),
        footer: spec_footer_text(),
        translations: spec_translation_links(a.translations, a.locale),
        has_translations: a.translations.len() > 1,
    }
}

/// The context a listing page is rendered with: one entry per preview, in
/// order, root-relative asset paths, and the site constants.
pub open spec fn spec_index_context(previews: Seq<ArticlePreviewView>) -> IndexContextView {
    IndexContextView {
        entries: Seq::new(previews.len(), |i: int| spec_index_entry(previews[i])),
        search_js: search_bundle(),
        asset_prefix: "."@,
        site_title: spec_site_title(),
        footer: spec_footer_text(),
        has_entries: previews.len() > 0,
    }
}

/// Assembles the rendering context of an article page.
///
/// `body_html` is the article's markdown body converted to HTML, and `created`
/// its creation instant formatted for display, both produced by the host's
/// collaborators from `article.content` and `article.created`.
pub fn compose_page(article: &Article, body_html: &String, created: &String) -> (ctx: PageContext)
    ensures
        ctx@ == spec_page_context(article.deep_view(), body_html@, created@),
        links_resolved(article.translations@, article.locale@, ctx.translations@),
{
    let depth = article.category_path.len();
    let translations = translation_links(&article.translations, &article.locale);
    let has = has_translations(&translations);
    let ctx = PageContext {
        title: article.title.clone(),
        created: created.clone(),
        body: body_html.clone(),
        author: article.author.clone(),
        asset_prefix: relative_prefix(depth),
        search_js: search_script_at_depth(depth),
        site_title: String::from_str(site_title()),
        footer: String::from_str(footer_text()),
        translations,
        has_translations: has,
    };
    proof {
        let ts = article.translations.deep_view();
        let loc = article.locale@;
        assert forall|i: int| 0 <= i < ts.len() implies ctx.translations.deep_view()[i]
            == spec_translation_links(ts, loc)[i] by {
            assert(ctx.translations@[i]@ == spec_translation_link(article.translations@[i]@, loc));
        }
        assert(ctx.translations.deep_view() =~= spec_translation_links(ts, loc));
        assert(ctx@ =~= spec_page_context(article.deep_view(), body_html@, created@));
    }
    ctx
}

/// The entry a single preview projects to.
pub open spec fn spec_index_entry(p: ArticlePreviewView) -> IndexEntryView {
    IndexEntryView { title: p.title, href: p.href }
}

/// `entries` is the projection of `previews`: same order and cardinality, each
/// entry carrying its preview's title and path.
pub open spec fn entries_projected(previews: Seq<ArticlePreview>, entries: Seq<IndexEntry>) -> bool {
    &&& entries.len() == previews.len()
    &&& forall|i: int|
        0 <= i < previews.len() ==> #[trigger] entries[i]@ == spec_index_entry(
            previews[i].deep_view(),
        )
}

/// Assembles the rendering context of a listing page over the given previews,
/// preserving their order and cardinality exactly. The index sits at the site
/// root, so its asset prefix is `"."` and its search script the bare bundle
/// path.
pub fn compose_index(previews: &Vec<ArticlePreview>) -> (ctx: IndexContext)
    ensures
        ctx@ == spec_index_context(previews.deep_view()),
        entries_projected(previews@, ctx.entries@),
{
    let mut entries: Vec<IndexEntry> = Vec::new();
    let mut i: usize = 0;
    while i < previews.len()
        invariant
            i <= previews@.len(),
            entries@.len() == i,
            forall|j: int|
                0 <= j < i ==> #[trigger] entries@[j]@ == spec_index_entry(
                    previews@[j].deep_view(),
                ),
        decreases previews@.len() - i,
    {
        let p = &previews[i];
        entries.push(IndexEntry { title: p.title.clone(), href: p.href.clone() });
        i = i + 1;
    }
    let has_entries = entries.len() > 0;
    let ctx = IndexContext {
        entries,
        search_js: String::from_str(search_script_path()),
        asset_prefix: String::from_str("."),
        site_title: String::from_str(site_title()),
        footer: String::from_str(footer_text()),
        has_entries,
    };
    proof {
        let pv = previews.deep_view();
        assert forall|i: int| 0 <= i < pv.len() implies ctx.entries.deep_view()[i]
            == spec_index_context(pv).entries[i] by {
            assert(ctx.entries@[i]@ == spec_index_entry(previews@[i].deep_view()));
        }
        assert(ctx.entries.deep_view() =~= spec_index_context(pv).entries);
        assert(ctx@ =~= spec_index_context(pv));
    }
    ctx
}

} // verus!
