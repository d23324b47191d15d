use rustxt::markdown::{
    convert_links, extract_meta_description, html_to_markdown, remove_tag_content,
    strip_html_tags,
};

#[test]
fn test_simple_paragraph() {
    let html = "<p>Hello world</p>";
    let md = html_to_markdown(html);
    assert!(md.contains("Hello world"));
}

#[test]
fn test_code_inline() {
    let html = "<p>Use <code>foo()</code> here</p>";
    let md = html_to_markdown(html);
    assert!(md.contains("`foo()`"));
}

#[test]
fn test_extract_meta_description() {
    let html = r#"<html><head><meta name="description" content="Test description"></head></html>"#;
    let desc = extract_meta_description(html);
    assert_eq!(desc, Some("Test description".to_owned()));
}

#[test]
fn markdown_test_strip_html_tags() {
    let html = "A <code>helper</code> trait for building.";
    let result = strip_html_tags(html);
    assert_eq!(result, "A helper trait for building.");
}

#[test]
fn test_convert_links() {
    let html = r#"See <a href="https://example.com">example</a> for more."#;
    let result = convert_links(html);
    assert!(result.contains("[example](https://example.com)"));
}

#[test]
fn paragraph_is_trimmed_exactly() {
    assert_eq!(html_to_markdown("<p>Hello world</p>"), "Hello world");
}

#[test]
fn script_and_style_are_removed() {
    let html = "<script>var x = 1;</script><style>p { }</style><p>Text</p><noscript>no</noscript>";
    assert_eq!(html_to_markdown(html), "Text");
}

#[test]
fn unclosed_script_without_bracket_is_kept_once() {
    let chars: Vec<char> = "ab<script".chars().collect();
    let out: String = remove_tag_content(&chars, "script").into_iter().collect();
    assert_eq!(out, "ab<script");
    assert_eq!(html_to_markdown("ab<script"), "ab");
    let chars: Vec<char> = "x<script>y</script>ab<script".chars().collect();
    let out: String = remove_tag_content(&chars, "script").into_iter().collect();
    assert_eq!(out, "xab<script");
}

#[test]
fn unclosed_script_with_bracket_drops_open_tag() {
    let chars: Vec<char> = "a<script src=x>b".chars().collect();
    let out: String = remove_tag_content(&chars, "script").into_iter().collect();
    assert_eq!(out, "ab");
}

#[test]
fn newline_runs_are_capped_and_spaces_collapsed() {
    let html = "<p>a</p>\n\n\n\n<p>b   \t c</p>";
    assert_eq!(html_to_markdown(html), "a\n\nb c");
}

#[test]
fn markdown_output_is_clean() {
    let html = "  <h2>Title</h2>\r\n<ul><li>one</li><li>two</li></ul>\n\n\n\n <br/>  end  ";
    let md = html_to_markdown(html);
    assert!(!md.contains("  "));
    assert!(!md.contains("\n\n\n"));
    assert!(md.chars().all(|c| !c.is_whitespace() || c == ' ' || c == '\n'));
    assert_eq!(md.trim(), md);
    assert_eq!(md, "## Title\n \n\n- one\n- two\n\n \n end");
}

#[test]
fn headers_and_emphasis() {
    assert_eq!(html_to_markdown("<h2>Title</h2>"), "## Title");
    assert_eq!(html_to_markdown("<strong>a</strong> <em>b</em>"), "**a** *b*");
    assert_eq!(html_to_markdown("<pre>x</pre>"), "```\nx\n```");
}

#[test]
fn link_with_nested_markup() {
    let html = r#"See <a href="https://x.org">x <b>y</b></a>."#;
    assert_eq!(html_to_markdown(html), "See [x **y**](https://x.org).");
}

#[test]
fn link_without_href_keeps_text() {
    assert_eq!(convert_links(r#"<a name="x">t</a>!"#), "t!");
}

#[test]
fn link_without_close_keeps_following_text() {
    assert_eq!(convert_links(r#"x <a href="u">y"#), "x y");
}

#[test]
fn anchor_without_bracket_drops_rest() {
    assert_eq!(convert_links("x <a href"), "x ");
}

#[test]
fn entities_are_decoded() {
    assert_eq!(html_to_markdown("&lt;T&gt; &amp; &quot;q&quot; &#39;s&apos; a&nbsp;b"), "<T> & \"q\" 's' a b");
}

#[test]
fn meta_description_missing_or_unterminated() {
    assert_eq!(extract_meta_description("<html></html>"), None);
    assert_eq!(extract_meta_description(r#"<meta name="description" content="abc"#), None);
}

#[test]
fn meta_description_decodes_entities() {
    let html = r#"<meta name="description" content="A &amp; B">"#;
    assert_eq!(extract_meta_description(html), Some("A & B".to_owned()));
}

#[test]
fn stripped_text_has_no_brackets() {
    let out = strip_html_tags("a<b>c</b>>d<e");
    assert_eq!(out, "acd");
    assert!(!out.contains('<') && !out.contains('>'));
}

#[test]
fn converting_twice_changes_nothing() {
    let html = "<h2>Usage</h2>\n<p>Call <code>run()</code>  with <a href=\"x.html\"><b>care</b></a>.</p>\n\n\n<ul><li>one</li><li>two</li></ul><script>skip()</script>";
    let once = html_to_markdown(html);
    assert_eq!(once, "## Usage\n\nCall `run()` with [**care**](x.html).\n\n- one\n- two");
    assert_eq!(html_to_markdown(&once), once);
}

#[test]
fn converting_twice_differs_with_an_escaped_entity() {
    let once = html_to_markdown("&amp;lt;b&amp;gt;x");
    assert_eq!(once, "&lt;b&gt;x");
    assert_eq!(html_to_markdown(&once), "<b>x");
}
