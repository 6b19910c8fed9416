//! Template binding.
//!
//! The theme's two templates are fixed layouts; binding substitutes the
//! already-resolved context values into them. Every text value is escaped on
//! the way in; only the article body is inserted as-is, since it is already
//! HTML produced by the host's markdown renderer. The spec functions below
//! state the rendered output exactly, character for character, so a binding
//! can never silently drop or garble a field. Binding is total: it cannot
//! fail at run time, so a rendered page is always complete.

use vstd::prelude::*;

use crate::context::ArticlePreviewView;
use crate::context::ArticleView;
use crate::context::spec_page_context;
use crate::context::IndexContext;
use crate::context::IndexContextView;
use crate::context::IndexEntry;
use crate::context::IndexEntryView;
use crate::context::PageContext;
use crate::context::PageContextView;
use crate::context::spec_index_context;
use crate::escape::escape_html;
use crate::escape::escape_seq;
use crate::locale::TranslationLink;
use crate::locale::TranslationLinkView;

verus! {

/// The list item one translation link renders as; the article's own locale is
/// marked as selected.
pub open spec fn spec_link_item(l: TranslationLinkView) -> Seq<char> {
    "<li><a href=\""@ + escape_seq(l.href) + "\""@ + (if l.selected {
        " class=\"selected\""@
    } else {
        ""@
    }) + ">"@ + escape_seq(l.locale) + "</a></li>\n"@
}

/// The list items of all translation links, concatenated in order.
pub open spec fn spec_link_items(links: Seq<TranslationLinkView>) -> Seq<char>
    decreases links.len(),
{
    if links.len() == 0 {
        Seq::<char>::empty()
    } else {
        spec_link_items(links.drop_last()) + spec_link_item(links.last())
    }
}

/// The translation controls of a page: suppressed entirely unless the page
/// offers a choice of locales.
pub open spec fn spec_translations_block(links: Seq<TranslationLinkView>, has: bool) -> Seq<
    char,
> {
    if has {
        "<nav class=\"translations\">\n<ul>\n"@ + spec_link_items(links) + "</ul>\n</nav>\n"@
    } else {
        ""@
    }
}

/// The full HTML of an article page rendered with context `v`.
pub open spec fn spec_page_html(v: PageContextView) -> Seq<char> {
    "<!DOCTYPE html>\n<html>\n<head>\n<title>"@ + escape_seq(v.title) + " - "@ + escape_seq(
        v.site_title,
    ) + "</title>\n<script defer src=\""@ + escape_seq(v.search_js)
        + "\"></script>\n</head>\n<body data-asset-prefix=\""@ + escape_seq(v.asset_prefix)
        + "\">\n<article>\n<h1>"@ + escape_seq(v.title) + "</h1>\n<p class=\"meta\">"@
        + escape_seq(v.created) + " - "@ + escape_seq(v.author) + "</p>\n"@ + v.body
        + "\n</article>\n"@ + spec_translations_block(v.translations, v.has_translations)
        + "<footer>"@ + escape_seq(v.footer) + "</footer>\n</body>\n</html>\n"@
}

/// Appends the escaped form of `s` to `out`.
fn append_escaped(out: &mut String, s: &str)
    ensures
        final(out)@ == old(out)@ + escape_seq(s@),
{
    let e = escape_html(s);
    out.append(e.as_str());
}

fn render_link_item(l: &TranslationLink) -> (r: String)
    ensures
        r@ == spec_link_item(l@),
{
    let mut r = String::from_str("<li><a href=\"");
    append_escaped(&mut r, l.href.as_str());
    r.append("\"");
    let sel: &str = if l.selected {
        " class=\"selected\""
    } else {
        ""
    };
    r.append(sel);
    r.append(">");
    append_escaped(&mut r, l.locale.as_str());
    r.append("</a></li>\n");
    r
}

fn render_link_items(links: &Vec<TranslationLink>) -> (r: String)
    ensures
        r@ == spec_link_items(links.deep_view()),
{
    let ghost dv = links.deep_view();
    let mut r = String::new();
    proof {
        assert(dv.subrange(0, 0) =~= Seq::<TranslationLinkView>::empty());
        assert(spec_link_items(dv.subrange(0, 0)) == Seq::<char>::empty());
    }
    let mut i: usize = 0;
    while i < links.len()
        invariant
            i <= links@.len(),
            dv == links.deep_view(),
            dv.len() == links@.len(),
            r@ == spec_link_items(dv.subrange(0, i as int)),
        decreases links@.len() - i,
    {
        let item = render_link_item(&links[i]);
        r.append(item.as_str());
        proof {
            let grown = dv.subrange(0, (i + 1) as int);
            assert(grown.drop_last() =~= dv.subrange(0, i as int));
            assert(grown.last() == dv[i as int]);
            assert(dv[i as int] == links@[i as int]@);
        }
        i = i + 1;
    }
    proof {
        assert(dv.subrange(0, dv.len() as int) =~= dv);
    }
    r
}

fn render_translations_block(links: &Vec<TranslationLink>, has: bool) -> (r: String)
    ensures
        r@ == spec_translations_block(links.deep_view(), has),
{
    if has {
        let mut r = String::from_str("<nav class=\"translations\">\n<ul>\n");
        let items = render_link_items(links);
        r.append(items.as_str());
        r.append("</ul>\n</nav>\n");
        r
    } else {
        String::from_str("")
    }
}

/// Binds an article-page context into the page template.
pub fn render_page(ctx: &PageContext) -> (r: String)
    ensures
        r@ == spec_page_html(ctx@),
{
    let mut r = String::from_str("<!DOCTYPE html>\n<html>\n<head>\n<title>");
    append_escaped(&mut r, ctx.title.as_str());
    r.append(" - ");
    append_escaped(&mut r, ctx.site_title.as_str());
    r.append("</title>\n<script defer src=\"");
    append_escaped(&mut r, ctx.search_js.as_str());
    r.append("\"></script>\n</head>\n<body data-asset-prefix=\"");
    append_escaped(&mut r, ctx.asset_prefix.as_str());
    r.append("\">\n<article>\n<h1>");
    append_escaped(&mut r, ctx.title.as_str());
    r.append("</h1>\n<p class=\"meta\">");
    append_escaped(&mut r, ctx.created.as_str());
    r.append(" - ");
    append_escaped(&mut r, ctx.author.as_str());
    r.append("</p>\n");
    r.append(ctx.body.as_str());
    r.append("\n</article>\n");
    let block = render_translations_block(&ctx.translations, ctx.has_translations);
    r.append(block.as_str());
    r.append("<footer>");
    append_escaped(&mut r, ctx.footer.as_str());
    r.append("</footer>\n</body>\n</html>\n");
    r
}

/// The list item one index entry renders as.
pub open spec fn spec_entry_item(e: IndexEntryView) -> Seq<char> {
    "<li><a href=\""@ + escape_seq(e.href) + "\">"@ + escape_seq(e.title) + "</a></li>\n"@
}

/// The list items of all index entries, concatenated in order.
pub open spec fn spec_entry_items(entries: Seq<IndexEntryView>) -> Seq<char>
    decreases entries.len(),
{
    if entries.len() == 0 {
        Seq::<char>::empty()
    } else {
        spec_entry_items(entries.drop_last()) + spec_entry_item(entries.last())
    }
}

/// The article list of an index page, or the fixed empty state when there is
/// nothing to list.
pub open spec fn spec_entries_block(entries: Seq<IndexEntryView>, has: bool) -> Seq<char> {
    if has {
        "<ul class=\"articles\">\n"@ + spec_entry_items(entries) + "</ul>\n"@
    } else {
        "<p class=\"empty\">No articles yet.</p>\n"@
    }
}

/// The full HTML of a listing page rendered with context `v`.
pub open spec fn spec_index_html(v: IndexContextView) -> Seq<char> {
    "<!DOCTYPE html>\n<html>\n<head>\n<title>"@ + escape_seq(v.site_title)
        + "</title>\n<script defer src=\""@ + escape_seq(v.search_js)
        + "\"></script>\n</head>\n<body data-asset-prefix=\""@ + escape_seq(v.asset_prefix)
        + "\">\n<h1>"@ + escape_seq(v.site_title) + "</h1>\n"@ + spec_entries_block(
        v.entries,
        v.has_entries,
    ) + "<footer>"@ + escape_seq(v.footer) + "</footer>\n</body>\n</html>\n"@
}

fn render_entry_items(entries: &Vec<IndexEntry>) -> (r: String)
    ensures
        r@ == spec_entry_items(entries.deep_view()),
{
    let ghost dv = entries.deep_view();
    let mut r = String::new();
    proof {
        assert(dv.subrange(0, 0) =~= Seq::<IndexEntryView>::empty());
        assert(spec_entry_items(dv.subrange(0, 0)) == Seq::<char>::empty());
    }
    let mut i: usize = 0;
    while i < entries.len()
        invariant
            i <= entries@.len(),
            dv == entries.deep_view(),
            dv.len() == entries@.len(),
            r@ == spec_entry_items(dv.subrange(0, i as int)),
        decreases entries@.len() - i,
    {
        let mut item = String::from_str("<li><a href=\"");
        append_escaped(&mut item, entries[i].href.as_str());
        item.append("\">");
        append_escaped(&mut item, entries[i].title.as_str());
        item.append("</a></li>\n");
        r.append(item.as_str());
        proof {
            let grown = dv.subrange(0, (i + 1) as int);
            assert(grown.drop_last() =~= dv.subrange(0, i as int));
            assert(grown.last() == dv[i as int]);
            assert(dv[i as int] == entries@[i as int]@);
        }
        i = i + 1;
    }
    proof {
        assert(dv.subrange(0, dv.len() as int) =~= dv);
    }
    r
}

/// Binds a listing-page context into the index template.
pub fn render_index(ctx: &IndexContext) -> (r: String)
    ensures
        r@ == spec_index_html(ctx@),
{
    let mut r = String::from_str("<!DOCTYPE html>\n<html>\n<head>\n<title>");
    append_escaped(&mut r, ctx.site_title.as_str());
    r.append("</title>\n<script defer src=\"");
    append_escaped(&mut r, ctx.search_js.as_str());
    r.append("\"></script>\n</head>\n<body data-asset-prefix=\"");
    append_escaped(&mut r, ctx.asset_prefix.as_str());
    r.append("\">\n<h1>");
    append_escaped(&mut r, ctx.site_title.as_str());
    r.append("</h1>\n");
    let block = if ctx.has_entries {
        let mut b = String::from_str("<ul class=\"articles\">\n");
        let items = render_entry_items(&ctx.entries);
        b.append(items.as_str());
        b.append("</ul>\n");
        b
    } else {
        String::from_str("<p class=\"empty\">No articles yet.</p>\n")
    };
    r.append(block.as_str());
    r.append("<footer>");
    append_escaped(&mut r, ctx.footer.as_str());
    r.append("</footer>\n</body>\n</html>\n");
    r
}

/// An article that exists in at most one locale gets no translation controls:
/// the translations block of its page is empty.
pub proof fn lemma_single_locale_page(a: ArticleView, body_html: Seq<char>, created: Seq<char>)
    requires
        a.translations.len() <= 1,
    ensures
        spec_translations_block(
            spec_page_context(a, body_html, created).translations,
            spec_page_context(a, body_html, created).has_translations,
        ) == ""@,
{
}

/// An index composed from no previews renders the fixed empty state: no
/// entries, and an entries block that mentions no article.
pub proof fn lemma_empty_index(previews: Seq<ArticlePreviewView>)
    requires
        previews.len() == 0,
    ensures
        !spec_index_context(previews).has_entries,
        spec_index_context(previews).entries.len() == 0,
        spec_entries_block(
            spec_index_context(previews).entries,
            spec_index_context(previews).has_entries,
        ) == "<p class=\"empty\">No articles yet.</p>\n"@,
{
}

} // verus!
