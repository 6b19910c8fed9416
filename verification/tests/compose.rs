use zenflow::context::compose_index;
use zenflow::context::compose_page;
use zenflow::context::Article;
use zenflow::context::ArticlePreview;
use zenflow::locale::TranslationRef;

fn preview(title: &str, href: &str) -> ArticlePreview {
    ArticlePreview {
        title: title.to_string(),
        href: href.to_string(),
        author: "ann".to_string(),
        category_path: Vec::new(),
    }
}

#[test]
fn empty_index_has_no_entries() {
    let ctx = compose_index(&Vec::new());
    assert!(!ctx.has_entries);
    assert_eq!(ctx.entries.len(), 0);
    assert_eq!(ctx.asset_prefix, ".");
    assert_eq!(ctx.search_js, "assets/thought-search/thought-search.js");
}

#[test]
fn index_preserves_input_order() {
    let previews = vec![
        preview("B", "b.html"),
        preview("A", "a.html"),
        preview("C", "c.html"),
    ];
    let ctx = compose_index(&previews);
    assert!(ctx.has_entries);
    let titles: Vec<&str> = ctx.entries.iter().map(|e| e.title.as_str()).collect();
    assert_eq!(titles, ["B", "A", "C"]);
    let hrefs: Vec<&str> = ctx.entries.iter().map(|e| e.href.as_str()).collect();
    assert_eq!(hrefs, ["b.html", "a.html", "c.html"]);
}

#[test]
fn index_keeps_duplicates() {
    let previews = vec![preview("A", "a.html"), preview("A", "a.html")];
    let ctx = compose_index(&previews);
    assert_eq!(ctx.entries.len(), 2);
}

#[test]
fn page_context_carries_all_fields() {
    let article = Article {
        title: "Hello".to_string(),
        content: "*hi*".to_string(),
        author: "ann".to_string(),
        created: 1704153600,
        locale: "en".to_string(),
        category_path: vec!["notes".to_string(), "2024".to_string()],
        translations: vec![TranslationRef {
            locale: "en".to_string(),
            href: "notes/2024/hello.html".to_string(),
        }],
    };
    let body = "<p><em>hi</em></p>".to_string();
    let created = "2024-01-02T00:00:00Z".to_string();
    let ctx = compose_page(&article, &body, &created);
    assert_eq!(ctx.title, "Hello");
    assert_eq!(ctx.body, "<p><em>hi</em></p>");
    assert_eq!(ctx.created, "2024-01-02T00:00:00Z");
    assert_eq!(ctx.author, "ann");
    assert_eq!(ctx.asset_prefix, "../../");
    assert_eq!(ctx.search_js, "../../assets/thought-search/thought-search.js");
    assert_eq!(ctx.site_title, "Zenflow");
    assert_eq!(ctx.footer, "Thought");
    assert!(!ctx.has_translations);
    assert_eq!(ctx.translations.len(), 1);
    assert!(ctx.translations[0].selected);
}
