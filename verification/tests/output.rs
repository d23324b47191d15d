use rustxt::docs::CrateDocs;
use rustxt::index::{CrateIndex, ItemEntry};
use rustxt::output::CrateOutput;

fn make_test_docs() -> CrateDocs {
    CrateDocs {
        index: CrateIndex {
            name: "test_crate".to_owned(),
            version: "1.0.0".to_owned(),
            description: "A test crate".to_owned(),
            docblock: String::new(),
            modules: vec![],
            structs: vec![],
            enums: vec![],
            traits: vec![],
            functions: vec![],
            types: vec![],
            constants: vec![],
            macros: vec![],
        },
        items: vec![],
    }
}

#[test]
fn test_output_with_summary() {
    let docs = make_test_docs();
    let output = CrateOutput::with_summary(&docs, "This is a summary.".to_owned());
    let md = output.to_markdown();

    assert!(md.contains("# test_crate v1.0.0"));
    assert!(md.contains("## Summary"));
    assert!(md.contains("This is a summary."));
}

#[test]
fn test_output_without_summary() {
    let docs = make_test_docs();
    let output = CrateOutput::without_summary(&docs);
    let md = output.to_markdown();

    assert!(md.contains("# test_crate v1.0.0"));
    assert!(!md.contains("## Summary"));
}

#[test]
fn full_markdown_exact() {
    let docs = make_test_docs();
    let output = CrateOutput::with_summary(&docs, "Sum.".to_owned());
    assert_eq!(
        output.to_markdown(),
        "# test_crate v1.0.0\n\n## Summary\n\nSum.\n\n---\n\n## Documentation\n\n### Overview\n\nA test crate\n\n"
    );
}

#[test]
fn compact_markdown_with_and_without_summary() {
    let docs = make_test_docs();
    let with = CrateOutput::with_summary(&docs, "Sum.".to_owned());
    assert_eq!(with.to_compact_markdown(), "# test_crate v1.0.0\n\nSum.");
    let without = CrateOutput::without_summary(&docs);
    assert_eq!(without.to_compact_markdown(), without.to_markdown());
}

#[test]
fn full_document_has_one_header_and_level_three_sections() {
    let mut docs = make_test_docs();
    docs.index.modules = vec![ItemEntry {
        name: "builder".to_owned(),
        description: "Builder API".to_owned(),
        path: "builder/index.html".to_owned(),
    }];
    let md = CrateOutput::with_summary(&docs, "Sum.".to_owned()).to_markdown();
    assert_eq!(md.matches("# test_crate v1.0.0").count(), 1);
    assert!(md.starts_with("# test_crate v1.0.0\n\n## Summary"));
    assert!(md.contains("## Documentation\n\n### Overview\n\nA test crate\n\n### Modules\n\n- **builder**: Builder API\n"));
    assert!(!md.contains("\n## Overview") && !md.contains("\n## Modules"));
}
