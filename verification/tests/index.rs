use rustxt::index::{extract_link_from_dt, parse_index, strip_html_tags, ItemKind};

#[test]
fn test_extract_link_from_dt() {
    let dt = r#"<dt><a class="trait" href="trait.FluentBuilder.html" title="trait">FluentBuilder</a></dt>"#;
    let result = extract_link_from_dt(dt);
    assert_eq!(
        result,
        Some(("FluentBuilder".to_owned(), "trait.FluentBuilder.html".to_owned()))
    );
}

#[test]
fn index_test_strip_html_tags() {
    let html = "A <code>helper</code> trait for building.";
    let result = strip_html_tags(html);
    assert_eq!(result, "A helper trait for building.");
}

#[test]
fn plain_text_decodes_and_trims() {
    assert_eq!(strip_html_tags("  &lt;b&gt; <i>x</i> &#39;y&#39; "), "<b> x 'y'");
}

#[test]
fn link_name_is_cleaned() {
    let dt = r#"<dt><a href="struct.A.html">Very<wbr>Long&lt;T&gt;</a></dt>"#;
    assert_eq!(
        extract_link_from_dt(dt),
        Some(("VeryLong<T>".to_owned(), "struct.A.html".to_owned()))
    );
}

#[test]
fn link_without_href_is_none() {
    assert_eq!(extract_link_from_dt("<dt><a>X</a></dt>"), None);
    assert_eq!(extract_link_from_dt(r#"<dt><a href="x">X</dt>"#), None);
}

#[test]
fn section_ids_and_labels() {
    let kinds = [
        (ItemKind::Module, "modules", "Module"),
        (ItemKind::Struct, "structs", "Struct"),
        (ItemKind::Enum, "enums", "Enum"),
        (ItemKind::Trait, "traits", "Trait"),
        (ItemKind::Function, "functions", "Function"),
        (ItemKind::Type, "types", "Type"),
        (ItemKind::Constant, "constants", "Constant"),
        (ItemKind::Macro, "macros", "Macro"),
    ];
    for (k, id, label) in kinds {
        assert_eq!(k.section_id(), id);
        assert_eq!(k.label(), label);
    }
}

const INDEX_PAGE: &str = "<html><head><meta name=\"description\" content=\"A crate\"></head><body><details class=\"toggle top-doc\" open><div class=\"docblock\"><p>Hello <code>world</code></p></div></details><h2 id=\"structs\" class=\"section-header\">Structs</h2><dl class=\"item-table\"><dt><a class=\"struct\" href=\"struct.Foo.html\" title=\"struct\">Foo</a></dt><dd>A <code>foo</code>.</dd><dt><a class=\"struct\" href=\"struct.Bar.html\">Bar</a></dt><dd></dd></dl><h2 id=\"traits\">Traits</h2><dl class=\"item-table\"><dt><a href=\"trait.T.html\">T</a></dt></dl></section></body></html>";

#[test]
fn parse_index_page() {
    let idx = parse_index(INDEX_PAGE, "demo", "0.1.0");
    assert_eq!(idx.name, "demo");
    assert_eq!(idx.version, "0.1.0");
    assert_eq!(idx.description, "A crate");
    assert_eq!(idx.docblock, "Hello `world`");
    assert_eq!(idx.structs.len(), 2);
    assert_eq!(idx.structs[0].name, "Foo");
    assert_eq!(idx.structs[0].path, "struct.Foo.html");
    assert_eq!(idx.structs[0].description, "A foo.");
    assert_eq!(idx.structs[1].name, "Bar");
    assert_eq!(idx.structs[1].description, "");
    assert_eq!(idx.traits.len(), 1);
    assert_eq!(idx.traits[0].name, "T");
    assert_eq!(idx.traits[0].description, "");
    assert!(idx.modules.is_empty());
    assert!(idx.enums.is_empty());
    assert!(idx.macros.is_empty());
}

#[test]
fn parse_index_of_empty_page() {
    let idx = parse_index("", "x", "1");
    assert_eq!(idx.description, "");
    assert_eq!(idx.docblock, "");
    assert!(idx.structs.is_empty());
}

#[test]
fn docblock_without_details_end_is_cut_by_bytes() {
    let page = format!(
        r#"<div class="toggle top-doc"><div class="docblock"><p>{}</p>"#,
        "x".repeat(6000)
    );
    let idx = parse_index(&page, "x", "1");
    assert_eq!(idx.docblock.len(), 4997);
}

#[test]
fn docblock_cut_inside_a_character_is_empty() {
    let page = format!(
        r#"<div class="toggle top-doc"><div class="docblock">{}"#,
        "é".repeat(3000)
    );
    let idx = parse_index(&page, "x", "1");
    assert_eq!(idx.docblock, "é".repeat(2500));
    let page = format!(
        r#"<div class="toggle top-doc"><div class="docblock">a{}"#,
        "é".repeat(3000)
    );
    let idx = parse_index(&page, "x", "1");
    assert_eq!(idx.docblock, "");
}

#[test]
fn link_name_keeps_text_around_wbr() {
    let dt = r#"<dt><a class="struct" href="struct.FooBar.html" title="struct">Foo<wbr>Bar</a></dt>"#;
    assert_eq!(
        extract_link_from_dt(dt),
        Some(("FooBar".to_owned(), "struct.FooBar.html".to_owned()))
    );
}
