use rustxt::fetch::{
    docs_root_candidates, download_url, not_found, extract_version_from_url, requested_version,
    resolved_version, zip_entry_action, EntryAction,
};

#[test]
fn test_extract_version_from_url() {
    let url = "https://docs.rs/crate/clap/4.5.0/download";
    assert_eq!(extract_version_from_url(url, "clap"), Some("4.5.0".to_owned()));

    let url = "https://docs.rs/crate/tokio/1.0.0/download";
    assert_eq!(extract_version_from_url(url, "tokio"), Some("1.0.0".to_owned()));
}

#[test]
fn version_missing_from_url() {
    assert_eq!(extract_version_from_url("https://docs.rs/other/x", "clap"), None);
    assert_eq!(extract_version_from_url("https://docs.rs/crate/clap/4.5.0", "clap"), None);
}

#[test]
fn download_url_and_its_version() {
    let url = download_url("serde-json", "1.0.1");
    assert_eq!(url, "https://docs.rs/crate/serde-json/1.0.1/download");
    assert_eq!(extract_version_from_url(&url, "serde-json"), Some("1.0.1".to_owned()));
}

#[test]
fn requested_and_resolved_versions() {
    assert_eq!(requested_version(None), "latest");
    assert_eq!(requested_version(Some("2.0")), "2.0");
    assert_eq!(resolved_version("https://docs.rs/crate/a/3.1.4/download", "a", "latest"), "3.1.4");
    assert_eq!(resolved_version("https://example.com/file.zip", "a", "latest"), "latest");
}

#[test]
fn root_candidates_in_order() {
    assert_eq!(
        docs_root_candidates("my-crate"),
        vec!["my-crate".to_owned(), "my_crate".to_owned(), String::new()]
    );
}

#[test]
fn zip_entries_are_classified() {
    assert_eq!(zip_entry_action("clap/index.html"), EntryAction::WriteFile);
    assert_eq!(zip_entry_action("clap/"), EntryAction::CreateDir);
    assert_eq!(zip_entry_action("/etc/passwd"), EntryAction::Skip);
    assert_eq!(zip_entry_action("../x"), EntryAction::Skip);
    assert_eq!(zip_entry_action("a/../../x"), EntryAction::Skip);
    assert_eq!(zip_entry_action("a/.."), EntryAction::Skip);
    assert_eq!(zip_entry_action("a\\..\\b"), EntryAction::WriteFile);
    assert_eq!(zip_entry_action("\\x"), EntryAction::WriteFile);
    assert_eq!(zip_entry_action("a/..b/c"), EntryAction::WriteFile);
    assert_eq!(zip_entry_action("...txt"), EntryAction::WriteFile);
}

#[test]
fn only_status_404_means_not_found() {
    let missing = not_found(404, "nope", "latest").expect("404 is not found");
    assert_eq!(missing.name, "nope");
    assert_eq!(missing.version, "latest");
    assert!(not_found(200, "clap", "1").is_none());
    assert!(not_found(500, "clap", "1").is_none());
}
