use rustxt::index::ItemKind;
use rustxt::item::{
    clean_signature, extract_item_name, extract_section_names, find_matching_close_div,
    parse_item,
};

#[test]
fn test_clean_signature() {
    let html = r##"pub trait <a href="#">FluentBuilder</a> { ... }"##;
    let clean = clean_signature(html);
    assert_eq!(clean, "pub trait FluentBuilder { ... }");
}

#[test]
fn test_extract_item_name() {
    let html = r"<title>FluentBuilder in gpui::prelude - Rust</title>";
    let name = extract_item_name(html);
    assert_eq!(name, Some("FluentBuilder".to_owned()));
}

#[test]
fn test_extract_section_names() {
    let html = "<h2 id=\"variants\">Variants</h2><section id=\"variant.Alpha\" class=\"variant\">Alpha</section><section id=\"variant.Beta\" class=\"variant\">Beta</section><h2 id=\"implementations\">Implementations</h2>";
    let names = extract_section_names(html, r#"id="variants"#, r#"id="variant."#);
    assert_eq!(names, vec!["Alpha".to_owned(), "Beta".to_owned()]);
}

#[test]
fn signature_whitespace_is_normalized() {
    let out = clean_signature(" pub  fn\n\tf(&amp;self)  -&gt;   u8 ");
    assert_eq!(out, "pub fn f(&self) -> u8");
    assert!(!out.contains("  "));
    assert_eq!(out.trim(), out);
}

#[test]
fn item_name_variants() {
    assert_eq!(extract_item_name("<title>Very<wbr>Long - Rust</title>"), Some("VeryLong".to_owned()));
    assert_eq!(extract_item_name("<title> Foo </title>"), Some("Foo".to_owned()));
    assert_eq!(extract_item_name("<html></html>"), None);
    assert_eq!(extract_item_name("<title>Foo"), None);
}

#[test]
fn section_names_stop_at_trait_heading() {
    let html = "<h2 id=\"fields\">Fields</h2><span id=\"structfield.a\">a</span><h2 id=\"trait-implementations\">T</h2><span id=\"structfield.b\">b</span>";
    let names = extract_section_names(html, r#"id="fields"#, r#"id="structfield."#);
    assert_eq!(names, vec!["a".to_owned()]);
    assert!(extract_section_names(html, r#"id="variants"#, r#"id="variant."#).is_empty());
}

fn chars(s: &str) -> Vec<char> {
    s.chars().collect()
}

#[test]
fn matching_close_div() {
    assert_eq!(find_matching_close_div(&chars("ab</div>")), Some(2));
    assert_eq!(find_matching_close_div(&chars("<div></div></div>")), Some(11));
    assert_eq!(find_matching_close_div(&chars("<div></div>")), None);
    assert_eq!(find_matching_close_div(&chars("é</div>")), Some(1));
    assert_eq!(find_matching_close_div(&chars("<div>ü</div>ö</div>")), Some(13));
}

const STRUCT_PAGE: &str = "<title>Foo in my_crate - Rust</title><meta name=\"description\" content=\"Meta desc\"><pre class=\"rust item-decl\"><code>pub struct Foo {\n    pub a: <a href=\"x\">u8</a>,\n}</code></pre><details class=\"toggle top-doc\" open><div class=\"docblock\"><p>A <em>foo</em>.</p><div>inner</div></div></details><h2 id=\"fields\">Fields</h2><span id=\"structfield.a\" class=\"structfield\">a</span><span id=\"structfield.b\">b</span><h2 id=\"implementations\">Implementations</h2><section id=\"method.new\" class=\"method\"><h4 class=\"code-header\">pub fn <a href=\"#\">new</a>() -&gt; Self</h4></section><div class=\"docblock\"><p>Makes one.</p><p>More.</p></div>";

#[test]
fn parse_struct_page() {
    let doc = parse_item(STRUCT_PAGE, ItemKind::Struct);
    assert_eq!(doc.kind, ItemKind::Struct);
    assert_eq!(doc.name, "Foo");
    assert_eq!(doc.signature, "pub struct Foo { pub a: u8, }");
    assert_eq!(doc.description, "A *foo*.\n\ninner");
    assert_eq!(doc.fields, vec!["a".to_owned(), "b".to_owned()]);
    assert!(doc.variants.is_empty());
    assert_eq!(doc.methods.len(), 1);
    assert_eq!(doc.methods[0].name, "new");
    assert_eq!(doc.methods[0].signature, "pub fn new() -> Self");
    assert_eq!(doc.methods[0].description, "Makes one.");
}

#[test]
fn parse_page_without_docblock_uses_meta_description() {
    let html = r#"<title>E - Rust</title><meta name="description" content="An enum">"#;
    let doc = parse_item(html, ItemKind::Enum);
    assert_eq!(doc.name, "E");
    assert_eq!(doc.description, "An enum");
    assert_eq!(doc.signature, "");
    assert!(doc.methods.is_empty());
}

#[test]
fn docblock_with_non_ascii_text_ends_at_its_div() {
    let html = r#"<title>X - Rust</title><details class="toggle top-doc"><div class="docblock"><p>Café</p></div></details><p>after</p>"#;
    let doc = parse_item(html, ItemKind::Struct);
    assert_eq!(doc.description, "Café");
}
