use rustxt::docs::CrateDocs;
use rustxt::index::CrateIndex;
use rustxt::summary::{default_model, format_user_prompt, reply_content, summary_request, summary_prompt, RetryAction, RetryState};

#[test]
fn test_format_user_prompt() {
    let prompt = format_user_prompt("test_crate", "1.0.0", "Some docs here");
    assert!(prompt.contains("test_crate"));
    assert!(prompt.contains("1.0.0"));
    assert!(prompt.contains("Some docs here"));
}

#[test]
fn prompt_exact_text() {
    let prompt = format_user_prompt("c", "1", "D");
    assert_eq!(
        prompt,
        "Summarize the following Rust crate documentation for \"c\" v1.\n\nCreate a summary suitable for an LLM to understand how to use this crate effectively.\n\n---\nDOCUMENTATION:\n\nD\n---\n\nProvide your summary in Markdown format."
    );
}

#[test]
fn prompt_for_docs_embeds_summary() {
    let docs = CrateDocs {
        index: CrateIndex {
            name: "c".to_owned(),
            version: "1".to_owned(),
            description: String::new(),
            docblock: String::new(),
            modules: vec![],
            structs: vec![],
            enums: vec![],
            traits: vec![],
            functions: vec![],
            types: vec![],
            constants: vec![],
            macros: vec![],
        },
        items: vec![],
    };
    assert_eq!(summary_prompt(&docs), format_user_prompt("c", "1", "# c v1\n\n"));
}

#[test]
fn retry_schedule_doubles_and_gives_up() {
    let mut s = RetryState::new(3);
    assert_eq!(s.next_action(), RetryAction::Attempt { wait_secs: None });
    assert_eq!(s.next_action(), RetryAction::Attempt { wait_secs: Some(1) });
    assert_eq!(s.next_action(), RetryAction::Attempt { wait_secs: Some(2) });
    assert_eq!(s.next_action(), RetryAction::Attempt { wait_secs: Some(4) });
    assert_eq!(s.next_action(), RetryAction::GiveUp);
    assert_eq!(s.next_action(), RetryAction::GiveUp);
}

#[test]
fn rate_limit_hint_replaces_delay() {
    let mut s = RetryState::new(3);
    assert_eq!(s.next_action(), RetryAction::Attempt { wait_secs: None });
    s.record_failure(Some(10));
    assert_eq!(s.next_action(), RetryAction::Attempt { wait_secs: Some(10) });
    s.record_failure(None);
    assert_eq!(s.next_action(), RetryAction::Attempt { wait_secs: Some(20) });
}

#[test]
fn no_retries_means_one_attempt() {
    let mut s = RetryState::new(0);
    assert_eq!(s.next_action(), RetryAction::Attempt { wait_secs: None });
    assert_eq!(s.next_action(), RetryAction::GiveUp);
}

#[test]
fn reply_content_takes_first_choice() {
    assert_eq!(reply_content(&vec![Some("a".to_owned()), Some("b".to_owned())]), Ok("a".to_owned()));
    assert_eq!(reply_content(&vec![None, Some("b".to_owned())]), Err("Empty response from API".to_owned()));
    assert_eq!(reply_content(&vec![]), Err("Empty response from API".to_owned()));
}

#[test]
fn request_content() {
    assert_eq!(default_model(), "gpt-4.1");
    let r = summary_request("gpt-4.1", "Summarize this.");
    assert_eq!(r.model, "gpt-4.1");
    assert_eq!(r.user_prompt, "Summarize this.");
    assert_eq!(r.max_tokens, 4096);
    assert!(r.system_prompt.starts_with("You are a technical documentation summarizer for Rust crates."));
    assert!(r.system_prompt.ends_with("- Speculation about features not documented"));
}
