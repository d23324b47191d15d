use rustxt::docs::{collect_items, format_docs_body, format_docs_summary, key_item_requests, CrateDocs};
use rustxt::index::{CrateIndex, ItemEntry, ItemKind};
use rustxt::item::{ItemDoc, MethodDoc};

fn entry(name: &str, description: &str) -> ItemEntry {
    ItemEntry {
        name: name.to_owned(),
        description: description.to_owned(),
        path: format!("struct.{name}.html"),
    }
}

fn index(structs: Vec<ItemEntry>) -> CrateIndex {
    CrateIndex {
        name: "c".to_owned(),
        version: "1".to_owned(),
        description: "D".to_owned(),
        docblock: "D".to_owned(),
        modules: vec![entry("m1", "")],
        structs,
        enums: vec![],
        traits: vec![],
        functions: vec![],
        types: vec![],
        constants: vec![],
        macros: vec![],
    }
}

#[test]
fn summary_exact_text() {
    let docs = CrateDocs {
        index: index(vec![entry("S", "s")]),
        items: vec![ItemDoc {
            kind: ItemKind::Struct,
            name: "S".to_owned(),
            signature: "pub struct S;".to_owned(),
            description: "An S.\nMore".to_owned(),
            methods: vec![MethodDoc {
                name: "f".to_owned(),
                signature: String::new(),
                description: "Does f.\r\nMore.".to_owned(),
            }],
            fields: vec!["a".to_owned(), "b".to_owned()],
            variants: vec![],
        }],
    };
    let expected = "# c v1\n\n## Overview\n\nD\n\n## Modules\n\n- **m1**\n\n## Structs\n\n- **S**: s\n\n## Key Types (Detailed)\n\n### Struct S\n\n```rust\npub struct S;\n```\n\nAn S.\nMore\n\n**Fields:** a, b\n\n**Key methods:**\n- `f`: Does f.\n\n";
    assert_eq!(format_docs_summary(&docs), expected);
}

#[test]
fn summary_lists_at_most_fifteen_structs() {
    let structs = (0..20).map(|i| entry(&format!("S{i}"), "")).collect();
    let mut idx = index(structs);
    idx.modules.clear();
    let docs = CrateDocs { index: idx, items: vec![] };
    let text = format_docs_summary(&docs);
    assert_eq!(text.matches("- **").count(), 15);
    assert!(text.contains("S14") && !text.contains("S15"));
}

#[test]
fn summary_shows_docblock_when_different() {
    let mut idx = index(vec![]);
    idx.docblock = "Longer text".to_owned();
    idx.modules.clear();
    let docs = CrateDocs { index: idx, items: vec![] };
    assert_eq!(format_docs_summary(&docs), "# c v1\n\n## Overview\n\nD\n\nLonger text\n\n");
}

#[test]
fn key_requests_are_limited_and_ordered() {
    let mut idx = index((0..12).map(|i| entry(&format!("S{i}"), "")).collect());
    idx.traits = vec![entry("T", "")];
    idx.enums = (0..7).map(|i| entry(&format!("E{i}"), "")).collect();
    let reqs = key_item_requests(&idx);
    assert_eq!(reqs.len(), 16);
    assert_eq!(reqs[0].kind, ItemKind::Struct);
    assert_eq!(reqs[9].path, "struct.S9.html");
    assert_eq!(reqs[10].kind, ItemKind::Trait);
    assert_eq!(reqs[11].kind, ItemKind::Enum);
    assert_eq!(reqs[15].path, "struct.E4.html");
}

#[test]
fn unread_pages_are_skipped() {
    let pages = vec![
        (ItemKind::Struct, Some("<title>A - Rust</title>".to_owned())),
        (ItemKind::Trait, None),
        (ItemKind::Enum, Some("<title>B - Rust</title>".to_owned())),
    ];
    let items = collect_items(&pages);
    assert_eq!(items.len(), 2);
    assert_eq!(items[0].name, "A");
    assert_eq!(items[0].kind, ItemKind::Struct);
    assert_eq!(items[1].name, "B");
    assert_eq!(items[1].kind, ItemKind::Enum);
}

#[test]
fn method_summary_uses_first_line_and_at_most_five_methods() {
    let method = |name: &str, sig: &str, desc: &str| MethodDoc {
        name: name.to_owned(),
        signature: sig.to_owned(),
        description: desc.to_owned(),
    };
    let mut idx = index(vec![]);
    idx.modules.clear();
    idx.description.clear();
    idx.docblock.clear();
    let docs = CrateDocs {
        index: idx,
        items: vec![ItemDoc {
            kind: ItemKind::Trait,
            name: "T".to_owned(),
            signature: String::new(),
            description: String::new(),
            methods: vec![
                method("a", "fn a()", "trailing\r"),
                method("b", "", "one\ntwo"),
                method("c", "", ""),
                method("d", "", "\nafter"),
                method("e", "", "x"),
                method("f", "", "y"),
            ],
            fields: vec![],
            variants: vec!["V".to_owned()],
        }],
    };
    let expected = "# c v1\n\n## Key Types (Detailed)\n\n### Trait T\n\n**Variants:** V\n\n**Key methods:**\n- `fn a()`: trailing\r\n- `b`: one\n- `c`\n- `d`: \n- `e`: x\n\n";
    assert_eq!(format_docs_summary(&docs), expected);
}

#[test]
fn body_is_one_level_deeper_without_header() {
    let docs = CrateDocs {
        index: index(vec![entry("S", "s")]),
        items: vec![ItemDoc {
            kind: ItemKind::Enum,
            name: "E".to_owned(),
            signature: String::new(),
            description: String::new(),
            methods: vec![],
            fields: vec![],
            variants: vec!["A".to_owned()],
        }],
    };
    let expected = "### Overview\n\nD\n\n### Modules\n\n- **m1**\n\n### Structs\n\n- **S**: s\n\n### Key Types (Detailed)\n\n#### Enum E\n\n**Variants:** A\n\n";
    assert_eq!(format_docs_body(&docs), expected);
    let summary = "# c v1\n\n## Overview\n\nD\n\n## Modules\n\n- **m1**\n\n## Structs\n\n- **S**: s\n\n## Key Types (Detailed)\n\n### Enum E\n\n**Variants:** A\n\n";
    assert_eq!(format_docs_summary(&docs), summary);
}
