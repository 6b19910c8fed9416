use zenflow::escape::escape_html;

#[test]
fn escapes_each_special_character() {
    assert_eq!(escape_html("&"), "&amp;");
    assert_eq!(escape_html("<"), "&lt;");
    assert_eq!(escape_html(">"), "&gt;");
    assert_eq!(escape_html("\""), "&quot;");
    assert_eq!(escape_html("'"), "&#x27;");
}

#[test]
fn plain_text_passes_through() {
    assert_eq!(escape_html("hello world 42"), "hello world 42");
    assert_eq!(escape_html(""), "");
}

#[test]
fn mixed_text_is_escaped_in_place() {
    assert_eq!(
        escape_html("<a href=\"x\">Q&A</a>"),
        "&lt;a href=&quot;x&quot;&gt;Q&amp;A&lt;/a&gt;"
    );
}

#[test]
fn non_ascii_passes_through() {
    assert_eq!(escape_html("caf\u{e9} < th\u{e9}"), "caf\u{e9} &lt; th\u{e9}");
}
