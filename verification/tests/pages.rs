use zenflow::context::Article;
use zenflow::context::ArticlePreview;
use zenflow::locale::TranslationRef;
use zenflow::Zenflow;

fn hello_article(translations: Vec<TranslationRef>) -> Article {
    Article {
        title: "Hello".to_string(),
        content: "*hi*".to_string(),
        author: "ann".to_string(),
        created: 1704153600,
        locale: "en".to_string(),
        category_path: vec!["notes".to_string(), "2024".to_string()],
        translations,
    }
}

fn en_link() -> TranslationRef {
    TranslationRef {
        locale: "en".to_string(),
        href: "notes/2024/hello.html".to_string(),
    }
}

fn fr_link() -> TranslationRef {
    TranslationRef {
        locale: "fr".to_string(),
        href: "fr/notes/2024/hello.html".to_string(),
    }
}

#[test]
fn page_at_depth_two_single_locale() {
    let body = "<p><em>hi</em></p>".to_string();
    let created = "2024-01-02T00:00:00Z".to_string();
    let html = Zenflow::generate_page(hello_article(vec![en_link()]), &body, &created);
    assert!(html.contains("data-asset-prefix=\"../../\""));
    assert!(html.contains("src=\"../../assets/thought-search/thought-search.js\""));
    assert!(html.contains("<h1>Hello</h1>"));
    assert!(html.contains("<p><em>hi</em></p>"));
    assert!(html.contains("2024-01-02T00:00:00Z"));
    // a single locale conveys no choice: no translation controls at all
    assert!(!html.contains("<nav class=\"translations\">"));
    assert!(!html.contains("class=\"selected\""));
}

#[test]
fn page_with_sibling_translation() {
    let body = "<p><em>hi</em></p>".to_string();
    let created = "2024-01-02T00:00:00Z".to_string();
    let html = Zenflow::generate_page(hello_article(vec![en_link(), fr_link()]), &body, &created);
    assert!(html.contains("<nav class=\"translations\">"));
    assert_eq!(html.matches("<li><a href=").count(), 2);
    assert_eq!(html.matches("class=\"selected\"").count(), 1);
    assert!(html.contains(
        "<li><a href=\"notes/2024/hello.html\" class=\"selected\">en</a></li>"
    ));
    assert!(html.contains("<li><a href=\"fr/notes/2024/hello.html\">fr</a></li>"));
}

#[test]
fn page_escapes_text_but_not_body() {
    let mut article = hello_article(vec![]);
    article.title = "Tips & <tricks>".to_string();
    let body = "<p>kept <b>raw</b></p>".to_string();
    let created = "2024-01-02".to_string();
    let html = Zenflow::generate_page(article, &body, &created);
    assert!(html.contains("<h1>Tips &amp; &lt;tricks&gt;</h1>"));
    assert!(!html.contains("<tricks>"));
    assert!(html.contains("<p>kept <b>raw</b></p>"));
}

#[test]
fn page_at_root_uses_dot_prefix() {
    let mut article = hello_article(vec![]);
    article.category_path = Vec::new();
    let body = "<p>x</p>".to_string();
    let created = "2024-01-02".to_string();
    let html = Zenflow::generate_page(article, &body, &created);
    assert!(html.contains("data-asset-prefix=\".\""));
    assert!(html.contains("src=\"./assets/thought-search/thought-search.js\""));
}

#[test]
fn index_of_three_articles() {
    let previews: Vec<ArticlePreview> = [("B", "b.html"), ("A", "a.html"), ("C", "c.html")]
        .iter()
        .map(|(t, h)| ArticlePreview {
            title: t.to_string(),
            href: h.to_string(),
            author: "ann".to_string(),
            category_path: Vec::new(),
        })
        .collect();
    let html = Zenflow::generate_index(previews);
    let b = html.find("<li><a href=\"b.html\">B</a></li>").unwrap();
    let a = html.find("<li><a href=\"a.html\">A</a></li>").unwrap();
    let c = html.find("<li><a href=\"c.html\">C</a></li>").unwrap();
    assert!(b < a && a < c);
    assert!(html.contains("data-asset-prefix=\".\""));
    assert!(html.contains("src=\"assets/thought-search/thought-search.js\""));
    assert!(html.contains("<title>Zenflow</title>"));
    assert!(html.contains("<footer>Thought</footer>"));
    assert!(!html.contains("class=\"empty\""));
}

#[test]
fn empty_index_renders_empty_state() {
    let html = Zenflow::generate_index(Vec::new());
    assert!(html.contains("<p class=\"empty\">No articles yet.</p>"));
    assert!(!html.contains("<li>"));
    assert!(!html.contains("<ul class=\"articles\">"));
}
