//! The text and the retry schedule of a summarization request.

use vstd::prelude::*;
use vstd::arithmetic::power2::{
    lemma2_to64, lemma2_to64_rest, lemma_pow2_strictly_increases, lemma_pow2_unfold, pow2,
};

use crate::docs::{docs_summary, format_docs_summary, min_nat, CrateDocs};

verus! {

// ---------------------------------------------------------------------------
// The prompt
// ---------------------------------------------------------------------------

/// The user prompt that asks for a summary of `docs` of a crate version.
pub open spec fn prompt_text(name: Seq<char>, version: Seq<char>, docs: Seq<char>) -> Seq<char> {
    "Summarize the following Rust crate documentation for \""@ + name + "\" v"@ + version
        + ".\n\nCreate a summary suitable for an LLM to understand how to use this crate effectively.\n\n---\nDOCUMENTATION:\n\n"@
        + docs + "\n---\n\nProvide your summary in Markdown format."@
}

/// Formats the user prompt for the summarization request.
pub fn format_user_prompt(crate_name: &str, version: &str, docs_text: &str) -> (p: String)
    ensures
        p@ == prompt_text(crate_name@, version@, docs_text@),
{
    let mut p = String::new();
    p.append("Summarize the following Rust crate documentation for \"");
    p.append(crate_name);
    p.append("\" v");
    p.append(version);
    p.append(
        ".\n\nCreate a summary suitable for an LLM to understand how to use this crate effectively.\n\n---\nDOCUMENTATION:\n\n",
    );
    p.append(docs_text);
    p.append("\n---\n\nProvide your summary in Markdown format.");
    assert(p@ =~= prompt_text(crate_name@, version@, docs_text@));
    p
}

/// The user prompt for the documentation of a crate.
pub fn summary_prompt(docs: &CrateDocs) -> (p: String)
    ensures
        p@ == prompt_text(docs.index.name@, docs.index.version@, docs_summary(*docs)),
{
    let docs_text = format_docs_summary(docs);
    format_user_prompt(docs.index.name.as_str(), docs.index.version.as_str(), docs_text.as_str())
}

// ---------------------------------------------------------------------------
// The request
// ---------------------------------------------------------------------------

/// The instructions given to the model with every request.
pub open spec fn system_prompt_text() -> Seq<char> {
    r#"You are a technical documentation summarizer for Rust crates. Your task is to create concise, actionable summaries that help developers understand how to use a crate effectively.

Your summary should focus on:
1. What the crate does (one clear sentence)
2. Core types and their purposes
3. Key patterns for common use cases
4. Important traits to implement or use
5. Getting started guidance

Guidelines:
- Keep summaries factual and based only on the provided documentation
- Use clear, concise language suitable for experienced Rust developers
- Highlight the most important types and functions
- Include brief code snippets only if they clarify usage
- Output in Markdown format with clear sections

Do not include:
- Version numbers or changelog information
- Installation instructions (users know cargo add)
- Verbose explanations of basic Rust concepts
- Speculation about features not documented"#@
}

/// The model used unless another is chosen.
pub fn default_model() -> (m: &'static str)
    ensures
        m@ == "gpt-4.1"@,
{
    "gpt-4.1"
}

/// The content of a summarization request.
pub struct SummaryRequest {
    /// The model to ask.
    pub model: String,
    /// The system message.
    pub system_prompt: String,
    /// The user message.
    pub user_prompt: String,
    /// The most tokens the reply may hold.
    pub max_tokens: u32,
}

/// The request for a summary from `model` of the documentation in
/// `user_prompt`: the fixed system prompt, and replies of at most 4096
/// tokens.
pub fn summary_request(model: &str, user_prompt: &str) -> (r: SummaryRequest)
    ensures
        r.model@ == model@,
        r.system_prompt@ == system_prompt_text(),
        r.user_prompt@ == user_prompt@,
        r.max_tokens == 4096,
{
    SummaryRequest {
        model: model.to_owned(),
        system_prompt: r#"You are a technical documentation summarizer for Rust crates. Your task is to create concise, actionable summaries that help developers understand how to use a crate effectively.

Your summary should focus on:
1. What the crate does (one clear sentence)
2. Core types and their purposes
3. Key patterns for common use cases
4. Important traits to implement or use
5. Getting started guidance

Guidelines:
- Keep summaries factual and based only on the provided documentation
- Use clear, concise language suitable for experienced Rust developers
- Highlight the most important types and functions
- Include brief code snippets only if they clarify usage
- Output in Markdown format with clear sections

Do not include:
- Version numbers or changelog information
- Installation instructions (users know cargo add)
- Verbose explanations of basic Rust concepts
- Speculation about features not documented"#.to_owned(),
        user_prompt: user_prompt.to_owned(),
        max_tokens: 4096,
    }
}

// ---------------------------------------------------------------------------
// The reply
// ---------------------------------------------------------------------------

/// The text of a reply with the given choice contents: the content of the
/// first choice, or the message `Empty response from API` when there is no
/// first choice or it has no content.
pub open spec fn reply_content_of(contents: Seq<Option<String>>) -> Result<Seq<char>, Seq<char>> {
    if contents.len() > 0 && contents[0] is Some {
        Ok(contents[0]->0@)
    } else {
        Err("Empty response from API"@)
    }
}

/// Takes the summary out of a reply's choice contents.
pub fn reply_content(contents: &Vec<Option<String>>) -> (r: Result<String, String>)
    ensures
        match r {
            Ok(c) => reply_content_of(contents@) == Ok::<Seq<char>, Seq<char>>(c@),
            Err(e) => reply_content_of(contents@) == Err::<Seq<char>, Seq<char>>(e@),
        },
{
    if contents.len() > 0 {
        if let Some(c) = &contents[0] {
            return Ok(c.clone());
        }
    }
    Err("Empty response from API".to_owned())
}

// ---------------------------------------------------------------------------
// Retries
// ---------------------------------------------------------------------------

/// Where a sequence of summarization attempts stands.
#[derive(Debug, Clone, Copy)]
pub struct RetryState {
    /// Attempts started so far.
    pub attempt: u64,
    /// Retries allowed after the first attempt.
    pub max_retries: u32,
    /// Seconds to wait before the next retry.
    pub delay_secs: u64,
}

/// What to do next.
#[derive(Debug, Clone, Copy, PartialEq, Eq, Structural)]
pub enum RetryAction {
    /// Make a request, after waiting the given number of seconds if any.
    Attempt { wait_secs: Option<u64> },
    /// Stop: no retries are left.
    GiveUp,
}

/// Every state: no more attempts started than the first one plus the
/// retries.
pub open spec fn retry_wf(s: RetryState) -> bool {
    s.attempt <= s.max_retries as u64 + 1
}

/// The state before the first attempt.
pub open spec fn fresh_state(max_retries: u32) -> RetryState {
    RetryState { attempt: 0, max_retries, delay_secs: 1 }
}

/// The action in state `s`: give up once the first attempt and all retries
/// have been made; otherwise attempt, waiting the current delay before any
/// attempt but the first.
pub open spec fn action_of(s: RetryState) -> RetryAction {
    if s.attempt > s.max_retries {
        RetryAction::GiveUp
    } else if s.attempt == 0 {
        RetryAction::Attempt { wait_secs: None }
    } else {
        RetryAction::Attempt { wait_secs: Some(s.delay_secs) }
    }
}

/// The state after deciding the action in `s`: one more attempt started,
/// and the delay doubled after each wait.
pub open spec fn next_state(s: RetryState) -> RetryState {
    if s.attempt > s.max_retries {
        s
    } else if s.attempt == 0 {
        RetryState { attempt: 1, ..s }
    } else {
        RetryState { attempt: (s.attempt + 1) as u64, delay_secs: (s.delay_secs * 2) as u64, ..s }
    }
}

/// Deciding the action in `s` does not overflow the delay.
pub open spec fn can_advance(s: RetryState) -> bool {
    s.attempt == 0 || s.attempt > s.max_retries || s.delay_secs <= u64::MAX / 2
}

impl RetryState {
    /// The state before the first of at most `max_retries + 1` attempts,
    /// with a first retry delay of one second.
    pub fn new(max_retries: u32) -> (s: Self)
        ensures
            s == fresh_state(max_retries),
            retry_wf(s),
    {
        RetryState { attempt: 0, max_retries, delay_secs: 1 }
    }

    /// Decides the next action and advances the state.
    pub fn next_action(&mut self) -> (a: RetryAction)
        requires
            can_advance(*old(self)),
            retry_wf(*old(self)),
        ensures
            a == action_of(*old(self)),
            *final(self) == next_state(*old(self)),
            retry_wf(*final(self)),
    {
        if self.attempt > self.max_retries as u64 {
            return RetryAction::GiveUp;
        }
        if self.attempt == 0 {
            self.attempt = 1;
            return RetryAction::Attempt { wait_secs: None };
        }
        let wait = self.delay_secs;
        self.delay_secs = self.delay_secs * 2;
        self.attempt = self.attempt + 1;
        RetryAction::Attempt { wait_secs: Some(wait) }
    }

    /// Records a failed attempt; a rate-limit hint replaces the delay before
    /// the next retry.
    pub fn record_failure(&mut self, retry_after_secs: Option<u64>)
        requires
            retry_wf(*old(self)),
        ensures
            final(self).attempt == old(self).attempt,
            final(self).max_retries == old(self).max_retries,
            final(self).delay_secs == match retry_after_secs {
                Some(secs) => secs,
                None => old(self).delay_secs,
            },
            retry_wf(*final(self)),
    {
        if let Some(secs) = retry_after_secs {
            self.delay_secs = secs;
        }
    }
}

/// The state after `k` actions from `s`, with no failure recorded.
pub open spec fn after_actions(s: RetryState, k: nat) -> RetryState
    decreases k,
{
    if k == 0 {
        s
    } else {
        next_state(after_actions(s, (k - 1) as nat))
    }
}

/// From a fresh state, exactly `max_retries + 1` attempts are made, and
/// without rate-limit hints the retries wait 1, 2, 4, ... seconds: the
/// `k`-th retry waits `2^(k-1)` seconds.
pub proof fn lemma_retry_schedule(max_retries: u32, k: nat)
    ensures
        after_actions(fresh_state(max_retries), k).attempt == min_nat(k, max_retries as nat + 1),
        k <= max_retries ==> (action_of(after_actions(fresh_state(max_retries), k)) is Attempt),
        k > max_retries ==> (action_of(after_actions(fresh_state(max_retries), k)) is GiveUp),
        1 <= k <= max_retries && k <= 63 ==> after_actions(fresh_state(max_retries), k).delay_secs
            == pow2((k - 1) as nat),
        1 <= k <= max_retries && k <= 63 ==> action_of(after_actions(fresh_state(max_retries), k))
            == (RetryAction::Attempt { wait_secs: Some(pow2((k - 1) as nat) as u64) }),
    decreases k,
{
    let s0 = fresh_state(max_retries);
    if k == 0 {
    } else {
        lemma_retry_schedule(max_retries, (k - 1) as nat);
        let prev = after_actions(s0, (k - 1) as nat);
        assert(after_actions(s0, k) == next_state(prev));
        assert(after_actions(s0, k).max_retries == max_retries) by {
            lemma_max_retries_kept(s0, k);
        }
        if 1 <= k <= max_retries && k <= 63 {
            lemma2_to64();
            lemma2_to64_rest();
            if k == 1 {
            } else {
                lemma_pow2_unfold((k - 1) as nat);
                if k - 1 < 62 {
                    lemma_pow2_strictly_increases((k - 2) as nat, 62);
                }
                assert(prev.delay_secs * 2 <= u64::MAX);
            }
        }
    }
}

/// Actions never change the number of retries allowed.
pub proof fn lemma_max_retries_kept(s: RetryState, k: nat)
    ensures
        after_actions(s, k).max_retries == s.max_retries,
    decreases k,
{
    if k > 0 {
        lemma_max_retries_kept(s, (k - 1) as nat);
    }
}

} // verus!
