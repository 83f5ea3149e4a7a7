use telegram_core::html::escape_html;

#[test]
fn test_escape_html() {
    assert_eq!(escape_html("<script>"), "&lt;script&gt;");
    assert_eq!(escape_html("a & b"), "a &amp; b");
    assert_eq!(escape_html("normal text"), "normal text");
}

#[test]
fn test_escape_html_all_special_chars() {
    assert_eq!(escape_html("<"), "&lt;");
    assert_eq!(escape_html(">"), "&gt;");
    assert_eq!(escape_html("&"), "&amp;");
    assert_eq!(escape_html("<>&"), "&lt;&gt;&amp;");
}

#[test]
fn test_escape_html_multiple_occurrences() {
    assert_eq!(escape_html("<<>>"), "&lt;&lt;&gt;&gt;");
    assert_eq!(escape_html("a && b && c"), "a &amp;&amp; b &amp;&amp; c");
}

#[test]
fn test_escape_html_mixed_content() {
    assert_eq!(
        escape_html("<b>Hello</b> & <i>World</i>"),
        "&lt;b&gt;Hello&lt;/b&gt; &amp; &lt;i&gt;World&lt;/i&gt;"
    );
}

#[test]
fn test_escape_html_empty_string() {
    assert_eq!(escape_html(""), "");
}

#[test]
fn test_escape_html_preserves_other_chars() {
    assert_eq!(escape_html("Hello, World!"), "Hello, World!");
    assert_eq!(escape_html("123 + 456 = 579"), "123 + 456 = 579");
    assert_eq!(
        escape_html("emoji: \u{f8ff}\u{fc}\u{e9}\u{e2}"),
        "emoji: \u{f8ff}\u{fc}\u{e9}\u{e2}"
    );
}

#[test]
fn test_escape_reserved_scenario() {
    assert_eq!(escape_html("<b>&</b>"), "&lt;b&gt;&amp;&lt;/b&gt;");
}

#[test]
fn test_escape_plain_text_unchanged() {
    let plain = "already plain text with no markup";
    let once = escape_html(plain);
    assert_eq!(once, plain);
    let twice = escape_html(&once);
    assert_eq!(twice, once);
}
