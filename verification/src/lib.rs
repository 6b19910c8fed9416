//! Rendering core for the Zenflow static-site theme.
//!
//! Given an article (or a list of article previews) whose collaborator-produced
//! pieces (markdown already converted to HTML, timestamps already formatted)
//! are handed in as plain strings, this crate derives every value a page needs
//! — relative asset paths, the search-script location, translation links — and
//! binds them into the final HTML for an article page or a site index.

use vstd::prelude::*;

pub mod assets;
pub mod context;
pub mod escape;
pub mod locale;
pub mod render;

use crate::context::compose_index;
use crate::context::compose_page;
use crate::context::spec_index_context;
use crate::context::spec_page_context;
use crate::context::Article;
use crate::context::ArticlePreview;
use crate::render::render_index;
use crate::render::render_page;
use crate::render::spec_index_html;
use crate::render::spec_page_html;

verus! {

/// The site's display title, fixed theme-wide.
pub open spec fn spec_site_title() -> Seq<char> {
    "Zenflow"@
}

/// The site's display title, fixed theme-wide.
pub fn site_title() -> (r: &'static str)
    ensures
        r@ == spec_site_title(),
{
    "Zenflow"
}

/// The footer text shown on every page.
pub open spec fn spec_footer_text() -> Seq<char> {
    "Thought"@
}

/// The footer text shown on every page.
pub fn footer_text() -> (r: &'static str)
    ensures
        r@ == spec_footer_text(),
{
    "Thought"
}

/// The Zenflow theme: the two entry points the host's page-writing pipeline
/// calls, each a pure function from an article (or preview list) to the HTML
/// of one page.
pub struct Zenflow;

impl Zenflow {
    /// Renders the page of one article.
    ///
    /// `body_html` is the article's markdown body converted to HTML and
    /// `created` its creation instant formatted for display, both produced by
    /// the host's collaborators from `article.content` and `article.created`.
    pub fn generate_page(article: Article, body_html: &String, created: &String) -> (r: String)
        ensures
            r@ == spec_page_html(spec_page_context(article.deep_view(), body_html@, created@)),
    {
        let ctx = compose_page(&article, body_html, created);
        render_page(&ctx)
    }

    /// Renders the site index over the given previews, in their given order.
    pub fn generate_index(articles: Vec<ArticlePreview>) -> (r: String)
        ensures
            r@ == spec_index_html(spec_index_context(articles.deep_view())),
    {
        let ctx = compose_index(&articles);
        render_index(&ctx)
    }
}

} // verus!
