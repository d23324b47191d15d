//! Conversion of rustdoc HTML fragments to lightweight Markdown.
//!
//! The conversion is string-based rather than DOM-based: the output of
//! rustdoc is regular enough for a sequence of textual rewrites.

use vstd::prelude::*;

use crate::text::{
    append_chars, chars_of, lemma_match_needs_first, lemma_mismatch, lemma_replace_single,
    lemma_replace_unmatched, find, find_char, find_in, head, is_trimmed, is_whitespace, is_ws, matches_at, replace_from,
    lemma_find, lemma_trim, replace_all, replace_str, string_of, tail, trim, trim_end, trim_start, trimmed,
};

verus! {

// ---------------------------------------------------------------------------
// Tag stripping
// ---------------------------------------------------------------------------

/// Scanning `s` left to right: the characters kept so far, and whether the
/// scan is inside a tag (after a `<` not yet closed by a `>`).
pub open spec fn strip_state(s: Seq<char>) -> (Seq<char>, bool)
    decreases s.len(),
{
    if s.len() == 0 {
        (Seq::empty(), false)
    } else {
        let (out, in_tag) = strip_state(s.drop_last());
        let c = s.last();
        if c == '<' {
            (out, true)
        } else if c == '>' {
            (out, false)
        } else if !in_tag {
            (out.push(c), in_tag)
        } else {
            (out, in_tag)
        }
    }
}

/// `s` with every `<`, every `>` and every character between a `<` and the
/// next `>` removed.
pub open spec fn strip_tags(s: Seq<char>) -> Seq<char> {
    strip_state(s).0
}

/// Computes `strip_tags(s@)`.
pub fn strip_tags_chars(s: &[char]) -> (out: Vec<char>)
    ensures
        out@ == strip_tags(s@),
{
    let mut out: Vec<char> = Vec::new();
    let mut in_tag = false;
    let mut i: usize = 0;
    while i < s.len()
        invariant
            i <= s@.len(),
            (out@, in_tag) == strip_state(s@.take(i as int)),
        decreases s@.len() - i,
    {
        let c = s[i];
        assert(s@.take(i + 1).drop_last() == s@.take(i as int));
        assert(s@.take(i + 1).last() == c);
        if c == '<' {
            in_tag = true;
        } else if c == '>' {
            in_tag = false;
        } else if !in_tag {
            out.push(c);
        }
        i = i + 1;
    }
    assert(s@.take(s@.len() as int) == s@);
    out
}

/// Strips all HTML tags from text.
pub fn strip_html_tags(html: &str) -> (out: String)
    ensures
        out@ == strip_tags(html@),
{
    let s = chars_of(html);
    let r = strip_tags_chars(s.as_slice());
    string_of(r.as_slice())
}

// ---------------------------------------------------------------------------
// Entities
// ---------------------------------------------------------------------------

/// `s` with the entities `&lt;`, `&gt;`, `&amp;`, `&quot;`, `&#39;`,
/// `&apos;` and `&nbsp;` decoded, in that order, each over the whole text.
pub open spec fn decode_entities(s: Seq<char>) -> Seq<char> {
    let s = replace_all(s, "&lt;"@, "<"@);
    let s = replace_all(s, "&gt;"@, ">"@);
    let s = replace_all(s, "&amp;"@, "&"@);
    let s = replace_all(s, "&quot;"@, "\""@);
    let s = replace_all(s, "&#39;"@, "'"@);
    let s = replace_all(s, "&apos;"@, "'"@);
    replace_all(s, "&nbsp;"@, " "@)
}

/// Computes `decode_entities(s@)`.
pub fn decode_html_entities(s: &[char]) -> (out: Vec<char>)
    ensures
        out@ == decode_entities(s@),
{
    let a = replace_str(s, "&lt;", "<");
    let a = replace_str(a.as_slice(), "&gt;", ">");
    let a = replace_str(a.as_slice(), "&amp;", "&");
    let a = replace_str(a.as_slice(), "&quot;", "\"");
    let a = replace_str(a.as_slice(), "&#39;", "'");
    let a = replace_str(a.as_slice(), "&apos;", "'");
    replace_str(a.as_slice(), "&nbsp;", " ")
}

// ---------------------------------------------------------------------------
// Whitespace cleanup
// ---------------------------------------------------------------------------

/// Scanning `s` left to right: the text kept so far, the number of
/// consecutive newlines just seen (counted up to 3), and whether the last
/// character kept was a space that stands for a run of other whitespace.
pub open spec fn cleanup_state(s: Seq<char>) -> (Seq<char>, nat, bool)
    decreases s.len(),
{
    if s.len() == 0 {
        (Seq::empty(), 0, false)
    } else {
        let (out, nl, sp) = cleanup_state(s.drop_last());
        let c = s.last();
        if c == '\n' {
            let nl2: nat = if nl < 3 {
                nl + 1
            } else {
                3
            };
            (
                if nl2 <= 2 {
                    out.push(c)
                } else {
                    out
                },
                nl2,
                false,
            )
        } else if is_ws(c) {
            (
                if !sp {
                    out.push(' ')
                } else {
                    out
                },
                0,
                true,
            )
        } else {
            (out.push(c), 0, false)
        }
    }
}

/// `s` with runs of more than two newlines cut to two, every run of other
/// whitespace replaced by one space, and the result trimmed.
pub open spec fn cleanup(s: Seq<char>) -> Seq<char> {
    trim(cleanup_state(s).0)
}

/// Computes `cleanup(s@)`.
pub fn cleanup_markdown(s: &[char]) -> (out: Vec<char>)
    ensures
        out@ == cleanup(s@),
{
    let mut out: Vec<char> = Vec::new();
    let mut nl: u8 = 0;
    let mut sp = false;
    let mut i: usize = 0;
    while i < s.len()
        invariant
            i <= s@.len(),
            (out@, nl as nat, sp) == cleanup_state(s@.take(i as int)),
        decreases s@.len() - i,
    {
        let c = s[i];
        assert(s@.take(i + 1).drop_last() == s@.take(i as int));
        assert(s@.take(i + 1).last() == c);
        if c == '\n' {
            if nl < 3 {
                nl = nl + 1;
            }
            sp = false;
            if nl <= 2 {
                out.push(c);
            }
        } else if is_whitespace(c) {
            nl = 0;
            if !sp {
                out.push(' ');
                sp = true;
            }
        } else {
            nl = 0;
            sp = false;
            out.push(c);
        }
        i = i + 1;
    }
    assert(s@.take(s@.len() as int) == s@);
    trimmed(out.as_slice())
}

// ---------------------------------------------------------------------------
// Removal of script-like elements
// ---------------------------------------------------------------------------

/// `<tag`
pub open spec fn open_tag(tag: Seq<char>) -> Seq<char> {
    seq!['<'] + tag
}

/// `</tag>`
pub open spec fn close_tag(tag: Seq<char>) -> Seq<char> {
    seq!['<', '/'] + tag + seq!['>']
}

/// `s` with each element `<tag ... </tag>` removed, scanning left to right.
/// An opening `<tag` without a closing tag loses only the opening tag up to
/// its `>`; one without a following `>` stops the scan and is kept, with
/// the rest of the text.
pub open spec fn remove_tagged(s: Seq<char>, tag: Seq<char>) -> Seq<char>
    decreases s.len(),
{
    match find(s, open_tag(tag)) {
        None => s,
        Some(st) => {
            let after = s.skip(st);
            match find(after, close_tag(tag)) {
                Some(e) => {
                    proof {
                        lemma_find(s, open_tag(tag));
                        lemma_find(after, close_tag(tag));
                    }
                    s.take(st) + remove_tagged(after.skip(e + close_tag(tag).len()), tag)
                },
                None => match find(after, seq!['>']) {
                    Some(te) => {
                        proof {
                            lemma_find(s, open_tag(tag));
                            lemma_find(after, seq!['>']);
                        }
                        s.take(st) + remove_tagged(after.skip(te + 1), tag)
                    },
                    None => s.take(st) + after,
                },
            }
        },
    }
}

/// Removing elements never makes the text longer.
pub proof fn lemma_remove_tagged_shrinks(s: Seq<char>, tag: Seq<char>)
    ensures
        remove_tagged(s, tag).len() <= s.len(),
    decreases s.len(),
{
    lemma_find(s, open_tag(tag));
    if let Some(st) = find(s, open_tag(tag)) {
        let after = s.skip(st);
        lemma_find(after, close_tag(tag));
        lemma_find(after, seq!['>']);
        if let Some(e) = find(after, close_tag(tag)) {
            lemma_remove_tagged_shrinks(after.skip(e + close_tag(tag).len()), tag);
        } else if let Some(te) = find(after, seq!['>']) {
            lemma_remove_tagged_shrinks(after.skip(te + 1), tag);
        }
    }
}

/// Removes content within a specific tag, including the tags themselves.
pub fn remove_tag_content(html: &[char], tag: &str) -> (out: Vec<char>)
    ensures
        out@ == remove_tagged(html@, tag@),
{
    let t = chars_of(tag);
    let mut open: Vec<char> = Vec::new();
    open.push('<');
    append_chars(&mut open, t.as_slice());
    let mut close: Vec<char> = Vec::new();
    close.push('<');
    close.push('/');
    append_chars(&mut close, t.as_slice());
    close.push('>');
    assert(open@ == open_tag(tag@));
    assert(close@ == close_tag(tag@));
    let mut result: Vec<char> = Vec::new();
    let mut remaining: &[char] = html;
    loop
        invariant
            open@ == open_tag(tag@),
            close@ == close_tag(tag@),
            result@ + remove_tagged(remaining@, tag@) == remove_tagged(html@, tag@),
        decreases remaining@.len(),
    {
        match find_in(remaining, open.as_slice()) {
            None => {
                append_chars(&mut result, remaining);
                return result;
            },
            Some(start) => {
                let ghost rem = remaining@;
                append_chars(&mut result, head(remaining, start));
                let after_open = tail(remaining, start);
                match find_in(after_open, close.as_slice()) {
                    Some(end) => {
                        remaining = tail(after_open, end + close.len());
                        assert(remove_tagged(rem, tag@) == rem.take(start as int)
                            + remove_tagged(remaining@, tag@));
                    },
                    None => match find_char(after_open, '>') {
                        Some(te) => {
                            remaining = tail(after_open, te + 1);
                            assert(remove_tagged(rem, tag@) == rem.take(start as int)
                                + remove_tagged(remaining@, tag@));
                        },
                        None => {
                            append_chars(&mut result, after_open);
                            return result;
                        },
                    },
                }
            },
        }
    }
}

// ---------------------------------------------------------------------------
// Links
// ---------------------------------------------------------------------------

/// The value of the first `href="..."` attribute in `a`.
pub open spec fn href_of(a: Seq<char>) -> Option<Seq<char>> {
    match find(a, "href=\""@) {
        None => None,
        Some(hs) => {
            let hc = a.skip(hs + "href=\""@.len());
            match find(hc, seq!['"']) {
                None => None,
                Some(he) => Some(hc.take(he)),
            }
        },
    }
}

/// `[text](href)`, or `text` alone when `href` is empty.
pub open spec fn markdown_link(text: Seq<char>, href: Seq<char>) -> Seq<char> {
    if href.len() == 0 {
        text
    } else {
        seq!['['] + text + seq![']', '('] + href + seq![')']
    }
}

/// For text `a` that starts at an anchor: the Markdown emitted for it and
/// the text that follows it. An anchor without `>` ends the text; one
/// without `</a>` emits nothing and resumes after its first `>`.
pub open spec fn single_link(a: Seq<char>) -> (Seq<char>, Seq<char>) {
    let href = match href_of(a) {
        Some(h) => h,
        None => Seq::empty(),
    };
    match find(a, seq!['>']) {
        Some(ts) => {
            let at = a.skip(ts + 1);
            match find(at, "</a>"@) {
                Some(te) => (
                    markdown_link(strip_tags(at.take(te)), href),
                    at.skip(te + "</a>"@.len()),
                ),
                None => (Seq::empty(), at),
            }
        },
        None => (Seq::empty(), Seq::empty()),
    }
}

/// What follows an anchor is strictly shorter than the text it starts.
pub proof fn lemma_single_link_rest(a: Seq<char>)
    requires
        a.len() > 0,
    ensures
        single_link(a).1.len() < a.len(),
{
    lemma_find(a, seq!['>']);
    if let Some(ts) = find(a, seq!['>']) {
        let at = a.skip(ts + 1);
        lemma_find(at, "</a>"@);
    }
}

/// `s` with every anchor `<a ...>text</a>` replaced by a Markdown link.
pub open spec fn links_converted(s: Seq<char>) -> Seq<char>
    decreases s.len(),
{
    match find(s, "<a "@) {
        None => s,
        Some(st) => {
            proof {
                lemma_find(s, "<a "@);
                reveal_strlit("<a ");
                lemma_single_link_rest(s.skip(st));
            }
            s.take(st) + single_link(s.skip(st)).0 + links_converted(single_link(s.skip(st)).1)
        },
    }
}

/// Extracts the `href` attribute value from an anchor tag.
pub fn extract_href<'a>(anchor_html: &'a [char]) -> (r: Option<&'a [char]>)
    ensures
        match r {
            Some(h) => href_of(anchor_html@) == Some(h@),
            None => href_of(anchor_html@) is None,
        },
{
    let pat = chars_of("href=\"");
    let href_start = find_in(anchor_html, pat.as_slice())?;
    let href_content = tail(anchor_html, href_start + pat.len());
    let href_end = find_char(href_content, '"')?;
    Some(head(href_content, href_end))
}

/// Appends a Markdown link, or bare text when the target is empty.
pub fn push_markdown_link(result: &mut Vec<char>, link_text: &[char], href: &[char])
    ensures
        final(result)@ == old(result)@ + markdown_link(link_text@, href@),
{
    if href.len() == 0 {
        append_chars(result, link_text);
    } else {
        let ghost start = result@;
        result.push('[');
        append_chars(result, link_text);
        result.push(']');
        result.push('(');
        append_chars(result, href);
        result.push(')');
        assert(result@ == start + markdown_link(link_text@, href@));
    }
}

/// Converts one anchor element, appending Markdown to `result`, and returns
/// the text after the anchor.
pub fn convert_single_link<'a>(after_a: &'a [char], result: &mut Vec<char>) -> (rest: &'a [char])
    ensures
        final(result)@ == old(result)@ + single_link(after_a@).0,
        rest@ == single_link(after_a@).1,
{
    let href: &[char] = match extract_href(after_a) {
        Some(h) => h,
        None => head(after_a, 0),
    };
    let n = after_a.len();
    if let Some(text_start) = find_char(after_a, '>') {
        let after_text = tail(after_a, text_start + 1);
        let close = chars_of("</a>");
        if let Some(text_end) = find_in(after_text, close.as_slice()) {
            let link_text = strip_tags_chars(head(after_text, text_end));
            push_markdown_link(result, link_text.as_slice(), href);
            return tail(after_text, text_end + close.len());
        }
        return after_text;
    }
    tail(after_a, n)
}

/// Computes `links_converted(s@)`.
pub fn links_chars(s: &[char]) -> (out: Vec<char>)
    ensures
        out@ == links_converted(s@),
{
    let pat = chars_of("<a ");
    let mut result: Vec<char> = Vec::new();
    let mut remaining: &[char] = s;
    loop
        invariant
            pat@ == "<a "@,
            result@ + links_converted(remaining@) == links_converted(s@),
        decreases remaining@.len(),
    {
        match find_in(remaining, pat.as_slice()) {
            None => {
                append_chars(&mut result, remaining);
                return result;
            },
            Some(start) => {
                proof {
                    lemma_find(remaining@, pat@);
                    reveal_strlit("<a ");
                    lemma_single_link_rest(remaining@.skip(start as int));
                }
                let ghost rem = remaining@;
                append_chars(&mut result, head(remaining, start));
                let after_a = tail(remaining, start);
                remaining = convert_single_link(after_a, &mut result);
                assert(links_converted(rem) == rem.take(start as int) + single_link(
                    rem.skip(start as int),
                ).0 + links_converted(remaining@));
            },
        }
    }
}

/// Converts HTML links to Markdown links.
pub fn convert_links(html: &str) -> (out: String)
    ensures
        out@ == links_converted(html@),
{
    let s = chars_of(html);
    let r = links_chars(s.as_slice());
    string_of(r.as_slice())
}

// ---------------------------------------------------------------------------
// The whole conversion
// ---------------------------------------------------------------------------

/// The textual rewrites of block and inline markup, applied in order.
pub open spec fn rewrite_markup(s: Seq<char>) -> Seq<char> {
    let s = replace_all(s, "<pre class=\"rust item-decl\">"@, "\n```rust\n"@);
    let s = replace_all(s, "<pre>"@, "\n```\n"@);
    let s = replace_all(s, "</pre>"@, "\n```\n"@);
    let s = replace_all(s, "<code>"@, "`"@);
    let s = replace_all(s, "</code>"@, "`"@);
    let s = replace_all(s, "<h1>"@, "\n# "@);
    let s = replace_all(s, "</h1>"@, "\n"@);
    let s = replace_all(s, "<h2>"@, "\n## "@);
    let s = replace_all(s, "</h2>"@, "\n"@);
    let s = replace_all(s, "<h3>"@, "\n### "@);
    let s = replace_all(s, "</h3>"@, "\n"@);
    let s = replace_all(s, "<h4>"@, "\n#### "@);
    let s = replace_all(s, "</h4>"@, "\n"@);
    let s = replace_all(s, "<strong>"@, "**"@);
    let s = replace_all(s, "</strong>"@, "**"@);
    let s = replace_all(s, "<b>"@, "**"@);
    let s = replace_all(s, "</b>"@, "**"@);
    let s = replace_all(s, "<em>"@, "*"@);
    let s = replace_all(s, "</em>"@, "*"@);
    let s = replace_all(s, "<i>"@, "*"@);
    let s = replace_all(s, "</i>"@, "*"@);
    let s = replace_all(s, "<p>"@, "\n\n"@);
    let s = replace_all(s, "</p>"@, "\n\n"@);
    let s = replace_all(s, "<br>"@, "\n"@);
    let s = replace_all(s, "<br/>"@, "\n"@);
    let s = replace_all(s, "<br />"@, "\n"@);
    let s = replace_all(s, "<li>"@, "\n- "@);
    let s = replace_all(s, "</li>"@, ""@);
    let s = replace_all(s, "<ul>"@, "\n"@);
    let s = replace_all(s, "</ul>"@, "\n"@);
    let s = replace_all(s, "<ol>"@, "\n"@);
    replace_all(s, "</ol>"@, "\n"@)
}

/// Computes `rewrite_markup(s@)`.
pub fn rewrite_markup_chars(s: &[char]) -> (out: Vec<char>)
    ensures
        out@ == rewrite_markup(s@),
{
    let a = replace_str(s, "<pre class=\"rust item-decl\">", "\n```rust\n");
    let a = replace_str(a.as_slice(), "<pre>", "\n```\n");
    let a = replace_str(a.as_slice(), "</pre>", "\n```\n");
    let a = replace_str(a.as_slice(), "<code>", "`");
    let a = replace_str(a.as_slice(), "</code>", "`");
    let a = replace_str(a.as_slice(), "<h1>", "\n# ");
    let a = replace_str(a.as_slice(), "</h1>", "\n");
    let a = replace_str(a.as_slice(), "<h2>", "\n## ");
    let a = replace_str(a.as_slice(), "</h2>", "\n");
    let a = replace_str(a.as_slice(), "<h3>", "\n### ");
    let a = replace_str(a.as_slice(), "</h3>", "\n");
    let a = replace_str(a.as_slice(), "<h4>", "\n#### ");
    let a = replace_str(a.as_slice(), "</h4>", "\n");
    let a = replace_str(a.as_slice(), "<strong>", "**");
    let a = replace_str(a.as_slice(), "</strong>", "**");
    let a = replace_str(a.as_slice(), "<b>", "**");
    let a = replace_str(a.as_slice(), "</b>", "**");
    let a = replace_str(a.as_slice(), "<em>", "*");
    let a = replace_str(a.as_slice(), "</em>", "*");
    let a = replace_str(a.as_slice(), "<i>", "*");
    let a = replace_str(a.as_slice(), "</i>", "*");
    let a = replace_str(a.as_slice(), "<p>", "\n\n");
    let a = replace_str(a.as_slice(), "</p>", "\n\n");
    let a = replace_str(a.as_slice(), "<br>", "\n");
    let a = replace_str(a.as_slice(), "<br/>", "\n");
    let a = replace_str(a.as_slice(), "<br />", "\n");
    let a = replace_str(a.as_slice(), "<li>", "\n- ");
    let a = replace_str(a.as_slice(), "</li>", "");
    let a = replace_str(a.as_slice(), "<ul>", "\n");
    let a = replace_str(a.as_slice(), "</ul>", "\n");
    let a = replace_str(a.as_slice(), "<ol>", "\n");
    replace_str(a.as_slice(), "</ol>", "\n")
}

/// The Markdown rendering of an HTML fragment: script, style and noscript
/// elements removed, markup rewritten, links converted, remaining tags
/// stripped, entities decoded and whitespace cleaned up.
pub open spec fn markdown_of(h: Seq<char>) -> Seq<char> {
    let s = remove_tagged(h, "script"@);
    let s = remove_tagged(s, "style"@);
    let s = remove_tagged(s, "noscript"@);
    let s = rewrite_markup(s);
    let s = links_converted(s);
    let s = strip_tags(s);
    let s = decode_entities(s);
    cleanup(s)
}

/// Computes `markdown_of(html@)`.
pub fn markdown_chars(html: &[char]) -> (out: Vec<char>)
    ensures
        out@ == markdown_of(html@),
{
    let a = remove_tag_content(html, "script");
    let a = remove_tag_content(a.as_slice(), "style");
    let a = remove_tag_content(a.as_slice(), "noscript");
    let a = rewrite_markup_chars(a.as_slice());
    let a = links_chars(a.as_slice());
    let a = strip_tags_chars(a.as_slice());
    let a = decode_html_entities(a.as_slice());
    cleanup_markdown(a.as_slice())
}

/// Converts rustdoc HTML to lightweight Markdown.
pub fn html_to_markdown(html: &str) -> (md: String)
    ensures
        md@ == markdown_of(html@),
{
    let s = chars_of(html);
    let r = markdown_chars(s.as_slice());
    string_of(r.as_slice())
}

/// The decoded `content` of the first `<meta name="description" content="...">`
/// tag, if the tag and its closing quote are present.
pub open spec fn meta_description_of(h: Seq<char>) -> Option<Seq<char>> {
    let pat = "<meta name=\"description\" content=\""@;
    match find(h, pat) {
        None => None,
        Some(st) => {
            let rest = h.skip(st + pat.len());
            match find(rest, seq!['"']) {
                None => None,
                Some(e) => Some(decode_entities(rest.take(e))),
            }
        },
    }
}

/// Computes `meta_description_of(html@)`.
pub fn meta_description_chars(html: &[char]) -> (r: Option<Vec<char>>)
    ensures
        match r {
            Some(d) => meta_description_of(html@) == Some(d@),
            None => meta_description_of(html@) is None,
        },
{
    let pat = chars_of("<meta name=\"description\" content=\"");
    let start = find_in(html, pat.as_slice())?;
    let rest = tail(html, start + pat.len());
    let end = find_char(rest, '"')?;
    Some(decode_html_entities(head(rest, end)))
}

/// Extracts the description from a `<meta name="description">` tag.
pub fn extract_meta_description(html: &str) -> (r: Option<String>)
    ensures
        match r {
            Some(d) => meta_description_of(html@) == Some(d@),
            None => meta_description_of(html@) is None,
        },
{
    let s = chars_of(html);
    match meta_description_chars(s.as_slice()) {
        Some(d) => Some(string_of(d.as_slice())),
        None => None,
    }
}

// ---------------------------------------------------------------------------
// Properties of the output
// ---------------------------------------------------------------------------

/// The only whitespace in `t` is spaces and newlines.
pub open spec fn only_spaces_and_newlines(t: Seq<char>) -> bool {
    forall|i: int| 0 <= i < t.len() && is_ws(#[trigger] t[i]) ==> t[i] == ' ' || t[i] == '\n'
}

/// No two spaces follow each other in `t`.
pub open spec fn no_double_space(t: Seq<char>) -> bool {
    forall|i: int, j: int|
        #![trigger t[i], t[j]]
        0 <= i && j == i + 1 && j < t.len() ==> !(t[i] == ' ' && t[j] == ' ')
}

/// No three newlines follow each other in `t`.
pub open spec fn no_triple_newline(t: Seq<char>) -> bool {
    forall|i: int, j: int, k: int|
        #![trigger t[i], t[j], t[k]]
        0 <= i && j == i + 1 && k == j + 1 && k < t.len() ==> !(t[i] == '\n' && t[j] == '\n'
            && t[k] == '\n')
}

/// Text whose whitespace is clean: only spaces and newlines, no double
/// spaces, no more than two newlines in a row, none at either end.
pub open spec fn is_clean_text(t: Seq<char>) -> bool {
    &&& only_spaces_and_newlines(t)
    &&& no_double_space(t)
    &&& no_triple_newline(t)
    &&& is_trimmed(t)
}

/// What the cleanup scan keeps true of its state.
pub open spec fn cleanup_inv(out: Seq<char>, nl: nat, sp: bool) -> bool {
    &&& only_spaces_and_newlines(out)
    &&& no_double_space(out)
    &&& no_triple_newline(out)
    &&& nl <= 3
    &&& sp ==> out.len() > 0 && out.last() == ' '
    &&& !sp ==> out.len() == 0 || out.last() != ' '
    &&& nl == 0 ==> out.len() == 0 || out.last() != '\n'
    &&& nl == 1 ==> out.len() >= 1 && out.last() == '\n' && (out.len() == 1 || out[out.len() - 2]
        != '\n')
    &&& nl >= 2 ==> out.len() >= 2 && out.last() == '\n' && out[out.len() - 2] == '\n'
}

proof fn lemma_push_clean(out: Seq<char>, c: char)
    requires
        only_spaces_and_newlines(out),
        no_double_space(out),
        no_triple_newline(out),
        !is_ws(c) || c == ' ' || c == '\n',
        c == ' ' ==> out.len() == 0 || out.last() != ' ',
        c == '\n' && out.len() >= 2 ==> !(out.last() == '\n' && out[out.len() - 2] == '\n'),
    ensures
        only_spaces_and_newlines(out.push(c)),
        no_double_space(out.push(c)),
        no_triple_newline(out.push(c)),
{
    let t = out.push(c);
    assert forall|i: int| 0 <= i < t.len() && is_ws(#[trigger] t[i]) implies t[i] == ' ' || t[i]
        == '\n' by {
        if i < out.len() {
            assert(t[i] == out[i]);
        }
    }
    assert forall|i: int, j: int|
        #![trigger t[i], t[j]]
        0 <= i && j == i + 1 && j < t.len() implies !(t[i] == ' ' && t[j] == ' ') by {
        if j < out.len() {
            assert(t[i] == out[i] && t[j] == out[j]);
        } else {
            assert(t[i] == out.last());
        }
    }
    assert forall|i: int, j: int, k: int|
        #![trigger t[i], t[j], t[k]]
        0 <= i && j == i + 1 && k == j + 1 && k < t.len() implies !(t[i] == '\n' && t[j] == '\n'
            && t[k] == '\n') by {
        if k < out.len() {
            assert(t[i] == out[i] && t[j] == out[j] && t[k] == out[k]);
        } else {
            assert(t[j] == out.last());
            assert(t[i] == out[out.len() - 2]);
        }
    }
}

/// The cleanup scan keeps `cleanup_inv`.
pub proof fn lemma_cleanup_state(s: Seq<char>)
    ensures
        cleanup_inv(cleanup_state(s).0, cleanup_state(s).1, cleanup_state(s).2),
    decreases s.len(),
{
    if s.len() > 0 {
        lemma_cleanup_state(s.drop_last());
        let (out, nl, sp) = cleanup_state(s.drop_last());
        let c = s.last();
        if c == '\n' {
            if nl < 2 {
                lemma_push_clean(out, c);
            }
        } else if is_ws(c) {
            if !sp {
                lemma_push_clean(out, ' ');
            }
        } else {
            lemma_push_clean(out, c);
        }
    }
}

/// A contiguous part of clean-spaced text is clean-spaced too.
proof fn lemma_clean_subrange(t: Seq<char>, a: int, b: int)
    requires
        0 <= a <= b <= t.len(),
        only_spaces_and_newlines(t),
        no_double_space(t),
        no_triple_newline(t),
    ensures
        only_spaces_and_newlines(t.subrange(a, b)),
        no_double_space(t.subrange(a, b)),
        no_triple_newline(t.subrange(a, b)),
{
    let u = t.subrange(a, b);
    assert forall|i: int| 0 <= i < u.len() && is_ws(#[trigger] u[i]) implies u[i] == ' ' || u[i]
        == '\n' by {
        assert(u[i] == t[a + i]);
    }
    assert forall|i: int, j: int|
        #![trigger u[i], u[j]]
        0 <= i && j == i + 1 && j < u.len() implies !(u[i] == ' ' && u[j] == ' ') by {
        assert(u[i] == t[a + i] && u[j] == t[a + j]);
    }
    assert forall|i: int, j: int, k: int|
        #![trigger u[i], u[j], u[k]]
        0 <= i && j == i + 1 && k == j + 1 && k < u.len() implies !(u[i] == '\n' && u[j] == '\n'
            && u[k] == '\n') by {
        assert(u[i] == t[a + i] && u[j] == t[a + j] && u[k] == t[a + k]);
    }
}

/// Cleaned-up text has clean whitespace.
pub proof fn lemma_cleanup_is_clean(s: Seq<char>)
    ensures
        is_clean_text(cleanup(s)),
{
    lemma_cleanup_state(s);
    let out = cleanup_state(s).0;
    let (a, b) = lemma_trim(out);
    lemma_clean_subrange(out, a, b);
}

/// The Markdown of any HTML has clean whitespace: only spaces and
/// newlines, no double spaces, at most two newlines in a row, and none at
/// either end.
pub proof fn lemma_markdown_is_clean(html: Seq<char>)
    ensures
        is_clean_text(markdown_of(html)),
{
    lemma_cleanup_is_clean(decode_entities(strip_tags(links_converted(rewrite_markup(
        remove_tagged(remove_tagged(remove_tagged(html, "script"@), "style"@), "noscript"@),
    )))));
}

/// The scan of `strip_tags` never keeps `<` or `>`.
pub proof fn lemma_strip_state(s: Seq<char>)
    ensures
        forall|i: int|
            0 <= i < strip_state(s).0.len() ==> #[trigger] strip_state(s).0[i] != '<'
                && strip_state(s).0[i] != '>',
    decreases s.len(),
{
    if s.len() > 0 {
        lemma_strip_state(s.drop_last());
        let (out, in_tag) = strip_state(s.drop_last());
        let c = s.last();
        if c != '<' && c != '>' && !in_tag {
            assert forall|i: int| 0 <= i < out.push(c).len() implies #[trigger] out.push(c)[i]
                != '<' && out.push(c)[i] != '>' by {
                if i < out.len() {
                    assert(out.push(c)[i] == out[i]);
                }
            }
        }
    }
}

/// Text with its tags stripped holds no `<` and no `>`.
pub proof fn lemma_strip_tags_no_brackets(s: Seq<char>)
    ensures
        forall|i: int|
            0 <= i < strip_tags(s).len() ==> #[trigger] strip_tags(s)[i] != '<' && strip_tags(
                s,
            )[i] != '>',
{
    lemma_strip_state(s);
}

// ---------------------------------------------------------------------------
// Converting twice
// ---------------------------------------------------------------------------

/// `c` does not occur in `s`.
pub open spec fn lacks(s: Seq<char>, c: char) -> bool {
    forall|i: int| 0 <= i < s.len() ==> #[trigger] s[i] != c
}

/// A part of text that lacks `c` lacks it too.
pub proof fn lemma_lacks_subrange(s: Seq<char>, a: int, b: int, c: char)
    requires
        0 <= a <= b <= s.len(),
        lacks(s, c),
    ensures
        lacks(s.subrange(a, b), c),
{
    assert forall|i: int| 0 <= i < b - a implies #[trigger] s.subrange(a, b)[i] != c by {
        assert(s.subrange(a, b)[i] == s[a + i]);
    }
}

/// Joining two texts that lack `c` gives a text that lacks it.
pub proof fn lemma_lacks_concat(x: Seq<char>, y: Seq<char>, c: char)
    requires
        lacks(x, c),
        lacks(y, c),
    ensures
        lacks(x + y, c),
{
    assert forall|i: int| 0 <= i < (x + y).len() implies #[trigger] (x + y)[i] != c by {
        if i < x.len() {
            assert((x + y)[i] == x[i]);
        } else {
            assert((x + y)[i] == y[i - x.len()]);
        }
    }
}

/// A pattern whose first character does not occur in `s` is not found.
proof fn lemma_find_absent(s: Seq<char>, p: Seq<char>)
    requires
        p.len() > 0,
        lacks(s, p[0]),
    ensures
        find(s, p) is None,
{
    lemma_find(s, p);
    if let Some(k) = find(s, p) {
        assert(s.subrange(k, k + p.len())[0] == s[k]);
    }
}

/// Replacing a pattern whose first character does not occur changes
/// nothing.
proof fn lemma_replace_absent(s: Seq<char>, p: Seq<char>, r: Seq<char>, i: int)
    requires
        p.len() > 0,
        lacks(s, p[0]),
        0 <= i <= s.len(),
    ensures
        replace_from(s, p, r, i) == s.skip(i),
    decreases s.len() - i,
{
    if i < s.len() {
        if matches_at(s, p, i) {
            assert(s.subrange(i, i + p.len())[0] == s[i]);
        }
        lemma_replace_absent(s, p, r, i + 1);
        assert(seq![s[i]] + s.skip(i + 1) =~= s.skip(i));
    } else {
        assert(s.skip(i) =~= Seq::<char>::empty());
    }
}

/// Replacing a pattern whose first character does not occur changes
/// nothing.
pub proof fn lemma_replace_all_absent(s: Seq<char>, p: Seq<char>, r: Seq<char>)
    requires
        p.len() > 0,
        lacks(s, p[0]),
    ensures
        replace_all(s, p, r) == s,
{
    lemma_replace_absent(s, p, r, 0);
    assert(s.skip(0) =~= s);
}

/// Replacement introduces a character only through the replacement text.
proof fn lemma_replace_lacks(s: Seq<char>, p: Seq<char>, r: Seq<char>, i: int, c: char)
    requires
        lacks(s, c),
        lacks(r, c),
        0 <= i <= s.len(),
    ensures
        lacks(replace_from(s, p, r, i), c),
    decreases s.len() - i,
{
    if i < s.len() {
        if p.len() > 0 && matches_at(s, p, i) {
            lemma_replace_lacks(s, p, r, i + p.len(), c);
            lemma_lacks_concat(r, replace_from(s, p, r, i + p.len()), c);
        } else {
            lemma_replace_lacks(s, p, r, i + 1, c);
            lemma_lacks_concat(seq![s[i]], replace_from(s, p, r, i + 1), c);
        }
    }
}

/// Removing elements introduces no character.
proof fn lemma_remove_lacks(s: Seq<char>, tag: Seq<char>, c: char)
    requires
        lacks(s, c),
    ensures
        lacks(remove_tagged(s, tag), c),
    decreases s.len(),
{
    lemma_find(s, open_tag(tag));
    if let Some(st) = find(s, open_tag(tag)) {
        let after = s.skip(st);
        lemma_lacks_subrange(s, 0, st, c);
        lemma_lacks_subrange(s, st, s.len() as int, c);
        lemma_find(after, close_tag(tag));
        lemma_find(after, seq!['>']);
        if let Some(e) = find(after, close_tag(tag)) {
            let rest = after.skip(e + close_tag(tag).len());
            lemma_lacks_subrange(after, e + close_tag(tag).len(), after.len() as int, c);
            lemma_remove_lacks(rest, tag, c);
            lemma_lacks_concat(s.take(st), remove_tagged(rest, tag), c);
        } else if let Some(te) = find(after, seq!['>']) {
            let rest = after.skip(te + 1);
            lemma_lacks_subrange(after, te + 1, after.len() as int, c);
            lemma_remove_lacks(rest, tag, c);
            lemma_lacks_concat(s.take(st), remove_tagged(rest, tag), c);
        } else {
            lemma_lacks_concat(s.take(st), after, c);
        }
    }
}

/// Text without `<` keeps no element to remove.
proof fn lemma_remove_absent(s: Seq<char>, tag: Seq<char>)
    requires
        lacks(s, '<'),
    ensures
        remove_tagged(s, tag) == s,
{
    lemma_find_absent(s, open_tag(tag));
}

/// Stripping tags introduces no character.
proof fn lemma_strip_lacks(s: Seq<char>, c: char)
    requires
        lacks(s, c),
    ensures
        lacks(strip_state(s).0, c),
    decreases s.len(),
{
    if s.len() > 0 {
        lemma_lacks_subrange(s, 0, s.len() - 1, c);
        lemma_strip_lacks(s.drop_last(), c);
        let (out, in_tag) = strip_state(s.drop_last());
        lemma_lacks_concat(out, seq![s.last()], c);
    }
}

/// Text without `<` and `>` appended to a scan is kept when the scan is
/// outside a tag and dropped inside one.
pub proof fn lemma_strip_append(u: Seq<char>, w: Seq<char>)
    requires
        lacks(w, '<'),
        lacks(w, '>'),
    ensures
        strip_state(u + w) == (strip_state(u).0 + (if strip_state(u).1 {
            Seq::empty()
        } else {
            w
        }), strip_state(u).1),
    decreases w.len(),
{
    if w.len() == 0 {
        assert(u + w =~= u);
        assert(strip_state(u).0 + Seq::<char>::empty() =~= strip_state(u).0);
    } else {
        lemma_lacks_subrange(w, 0, w.len() - 1, '<');
        lemma_lacks_subrange(w, 0, w.len() - 1, '>');
        assert(w.subrange(0, w.len() - 1) =~= w.drop_last());
        lemma_strip_append(u, w.drop_last());
        assert((u + w).drop_last() =~= u + w.drop_last());
        assert((u + w).last() == w.last());
        if !strip_state(u).1 {
            assert(strip_state(u).0 + w.drop_last() + seq![w.last()] =~= strip_state(u).0 + w);
            assert((strip_state(u).0 + w.drop_last()).push(w.last()) =~= strip_state(u).0 + w);
        }
    }
}

/// A tag `<...>` is dropped whole by the tag stripping, with what lies
/// around it kept.
pub proof fn lemma_strip_one_tag(a: Seq<char>, x: Seq<char>, b: Seq<char>)
    requires
        lacks(a, '<') && lacks(a, '>'),
        lacks(x, '<') && lacks(x, '>'),
        lacks(b, '<') && lacks(b, '>'),
    ensures
        strip_tags(a + seq!['<'] + x + seq!['>'] + b) == a + b,
{
    lemma_strip_absent(a);
    let a1 = a + seq!['<'];
    assert(a1.drop_last() =~= a && a1.last() == '<');
    lemma_strip_append(a1, x);
    let a2 = a1 + x + seq!['>'];
    assert(a2.drop_last() =~= a1 + x && a2.last() == '>');
    lemma_strip_append(a2, b);
    assert(strip_state(a2).0 + b =~= a + b);
}

/// Text without `<` and `>` has no tags to strip.
pub proof fn lemma_strip_absent(s: Seq<char>)
    requires
        lacks(s, '<'),
        lacks(s, '>'),
    ensures
        strip_state(s) == (s, false),
    decreases s.len(),
{
    if s.len() > 0 {
        lemma_lacks_subrange(s, 0, s.len() - 1, '<');
        lemma_lacks_subrange(s, 0, s.len() - 1, '>');
        lemma_strip_absent(s.drop_last());
        assert(s.drop_last().push(s.last()) =~= s);
    }
}

/// Text without `<` has no markup to rewrite.
proof fn lemma_rewrite_absent(s: Seq<char>)
    requires
        lacks(s, '<'),
    ensures
        rewrite_markup(s) == s,
{
    reveal_strlit("<pre class=\"rust item-decl\">");
    reveal_strlit("\n```rust\n");
    reveal_strlit("<pre>");
    reveal_strlit("\n```\n");
    reveal_strlit("</pre>");
    reveal_strlit("<code>");
    reveal_strlit("`");
    reveal_strlit("</code>");
    reveal_strlit("<h1>");
    reveal_strlit("\n# ");
    reveal_strlit("</h1>");
    reveal_strlit("\n");
    reveal_strlit("<h2>");
    reveal_strlit("\n## ");
    reveal_strlit("</h2>");
    reveal_strlit("<h3>");
    reveal_strlit("\n### ");
    reveal_strlit("</h3>");
    reveal_strlit("<h4>");
    reveal_strlit("\n#### ");
    reveal_strlit("</h4>");
    reveal_strlit("<strong>");
    reveal_strlit("**");
    reveal_strlit("</strong>");
    reveal_strlit("<b>");
    reveal_strlit("</b>");
    reveal_strlit("<em>");
    reveal_strlit("*");
    reveal_strlit("</em>");
    reveal_strlit("<i>");
    reveal_strlit("</i>");
    reveal_strlit("<p>");
    reveal_strlit("\n\n");
    reveal_strlit("</p>");
    reveal_strlit("<br>");
    reveal_strlit("<br/>");
    reveal_strlit("<br />");
    reveal_strlit("<li>");
    reveal_strlit("\n- ");
    reveal_strlit("</li>");
    reveal_strlit("");
    reveal_strlit("<ul>");
    reveal_strlit("</ul>");
    reveal_strlit("<ol>");
    reveal_strlit("</ol>");
    lemma_replace_all_absent(s, "<pre class=\"rust item-decl\">"@, "\n```rust\n"@);
    lemma_replace_all_absent(s, "<pre>"@, "\n```\n"@);
    lemma_replace_all_absent(s, "</pre>"@, "\n```\n"@);
    lemma_replace_all_absent(s, "<code>"@, "`"@);
    lemma_replace_all_absent(s, "</code>"@, "`"@);
    lemma_replace_all_absent(s, "<h1>"@, "\n# "@);
    lemma_replace_all_absent(s, "</h1>"@, "\n"@);
    lemma_replace_all_absent(s, "<h2>"@, "\n## "@);
    lemma_replace_all_absent(s, "</h2>"@, "\n"@);
    lemma_replace_all_absent(s, "<h3>"@, "\n### "@);
    lemma_replace_all_absent(s, "</h3>"@, "\n"@);
    lemma_replace_all_absent(s, "<h4>"@, "\n#### "@);
    lemma_replace_all_absent(s, "</h4>"@, "\n"@);
    lemma_replace_all_absent(s, "<strong>"@, "**"@);
    lemma_replace_all_absent(s, "</strong>"@, "**"@);
    lemma_replace_all_absent(s, "<b>"@, "**"@);
    lemma_replace_all_absent(s, "</b>"@, "**"@);
    lemma_replace_all_absent(s, "<em>"@, "*"@);
    lemma_replace_all_absent(s, "</em>"@, "*"@);
    lemma_replace_all_absent(s, "<i>"@, "*"@);
    lemma_replace_all_absent(s, "</i>"@, "*"@);
    lemma_replace_all_absent(s, "<p>"@, "\n\n"@);
    lemma_replace_all_absent(s, "</p>"@, "\n\n"@);
    lemma_replace_all_absent(s, "<br>"@, "\n"@);
    lemma_replace_all_absent(s, "<br/>"@, "\n"@);
    lemma_replace_all_absent(s, "<br />"@, "\n"@);
    lemma_replace_all_absent(s, "<li>"@, "\n- "@);
    lemma_replace_all_absent(s, "</li>"@, ""@);
    lemma_replace_all_absent(s, "<ul>"@, "\n"@);
    lemma_replace_all_absent(s, "</ul>"@, "\n"@);
    lemma_replace_all_absent(s, "<ol>"@, "\n"@);
    lemma_replace_all_absent(s, "</ol>"@, "\n"@);
}

/// The markup rewrites introduce no character other than newlines,
/// backticks, `#`, `*`, `-`, spaces and the letters of `rust`.
proof fn lemma_rewrite_lacks(s: Seq<char>, c: char)
    requires
        lacks(s, c),
        c != '\n' && c != '`' && c != '#' && c != '*' && c != '-' && c != ' ' && c != 'r' && c
            != 'u' && c != 's' && c != 't',
    ensures
        lacks(rewrite_markup(s), c),
{
    reveal_strlit("<pre class=\"rust item-decl\">");
    reveal_strlit("\n```rust\n");
    reveal_strlit("<pre>");
    reveal_strlit("\n```\n");
    reveal_strlit("</pre>");
    reveal_strlit("<code>");
    reveal_strlit("`");
    reveal_strlit("</code>");
    reveal_strlit("<h1>");
    reveal_strlit("\n# ");
    reveal_strlit("</h1>");
    reveal_strlit("\n");
    reveal_strlit("<h2>");
    reveal_strlit("\n## ");
    reveal_strlit("</h2>");
    reveal_strlit("<h3>");
    reveal_strlit("\n### ");
    reveal_strlit("</h3>");
    reveal_strlit("<h4>");
    reveal_strlit("\n#### ");
    reveal_strlit("</h4>");
    reveal_strlit("<strong>");
    reveal_strlit("**");
    reveal_strlit("</strong>");
    reveal_strlit("<b>");
    reveal_strlit("</b>");
    reveal_strlit("<em>");
    reveal_strlit("*");
    reveal_strlit("</em>");
    reveal_strlit("<i>");
    reveal_strlit("</i>");
    reveal_strlit("<p>");
    reveal_strlit("\n\n");
    reveal_strlit("</p>");
    reveal_strlit("<br>");
    reveal_strlit("<br/>");
    reveal_strlit("<br />");
    reveal_strlit("<li>");
    reveal_strlit("\n- ");
    reveal_strlit("</li>");
    reveal_strlit("");
    reveal_strlit("<ul>");
    reveal_strlit("</ul>");
    reveal_strlit("<ol>");
    reveal_strlit("</ol>");
    lemma_replace_lacks(s, "<pre class=\"rust item-decl\">"@, "\n```rust\n"@, 0, c);
    let t0 = replace_all(s, "<pre class=\"rust item-decl\">"@, "\n```rust\n"@);
    lemma_replace_lacks(t0, "<pre>"@, "\n```\n"@, 0, c);
    let t1 = replace_all(t0, "<pre>"@, "\n```\n"@);
    lemma_replace_lacks(t1, "</pre>"@, "\n```\n"@, 0, c);
    let t2 = replace_all(t1, "</pre>"@, "\n```\n"@);
    lemma_replace_lacks(t2, "<code>"@, "`"@, 0, c);
    let t3 = replace_all(t2, "<code>"@, "`"@);
    lemma_replace_lacks(t3, "</code>"@, "`"@, 0, c);
    let t4 = replace_all(t3, "</code>"@, "`"@);
    lemma_replace_lacks(t4, "<h1>"@, "\n# "@, 0, c);
    let t5 = replace_all(t4, "<h1>"@, "\n# "@);
    lemma_replace_lacks(t5, "</h1>"@, "\n"@, 0, c);
    let t6 = replace_all(t5, "</h1>"@, "\n"@);
    lemma_replace_lacks(t6, "<h2>"@, "\n## "@, 0, c);
    let t7 = replace_all(t6, "<h2>"@, "\n## "@);
    lemma_replace_lacks(t7, "</h2>"@, "\n"@, 0, c);
    let t8 = replace_all(t7, "</h2>"@, "\n"@);
    lemma_replace_lacks(t8, "<h3>"@, "\n### "@, 0, c);
    let t9 = replace_all(t8, "<h3>"@, "\n### "@);
    lemma_replace_lacks(t9, "</h3>"@, "\n"@, 0, c);
    let t10 = replace_all(t9, "</h3>"@, "\n"@);
    lemma_replace_lacks(t10, "<h4>"@, "\n#### "@, 0, c);
    let t11 = replace_all(t10, "<h4>"@, "\n#### "@);
    lemma_replace_lacks(t11, "</h4>"@, "\n"@, 0, c);
    let t12 = replace_all(t11, "</h4>"@, "\n"@);
    lemma_replace_lacks(t12, "<strong>"@, "**"@, 0, c);
    let t13 = replace_all(t12, "<strong>"@, "**"@);
    lemma_replace_lacks(t13, "</strong>"@, "**"@, 0, c);
    let t14 = replace_all(t13, "</strong>"@, "**"@);
    lemma_replace_lacks(t14, "<b>"@, "**"@, 0, c);
    let t15 = replace_all(t14, "<b>"@, "**"@);
    lemma_replace_lacks(t15, "</b>"@, "**"@, 0, c);
    let t16 = replace_all(t15, "</b>"@, "**"@);
    lemma_replace_lacks(t16, "<em>"@, "*"@, 0, c);
    let t17 = replace_all(t16, "<em>"@, "*"@);
    lemma_replace_lacks(t17, "</em>"@, "*"@, 0, c);
    let t18 = replace_all(t17, "</em>"@, "*"@);
    lemma_replace_lacks(t18, "<i>"@, "*"@, 0, c);
    let t19 = replace_all(t18, "<i>"@, "*"@);
    lemma_replace_lacks(t19, "</i>"@, "*"@, 0, c);
    let t20 = replace_all(t19, "</i>"@, "*"@);
    lemma_replace_lacks(t20, "<p>"@, "\n\n"@, 0, c);
    let t21 = replace_all(t20, "<p>"@, "\n\n"@);
    lemma_replace_lacks(t21, "</p>"@, "\n\n"@, 0, c);
    let t22 = replace_all(t21, "</p>"@, "\n\n"@);
    lemma_replace_lacks(t22, "<br>"@, "\n"@, 0, c);
    let t23 = replace_all(t22, "<br>"@, "\n"@);
    lemma_replace_lacks(t23, "<br/>"@, "\n"@, 0, c);
    let t24 = replace_all(t23, "<br/>"@, "\n"@);
    lemma_replace_lacks(t24, "<br />"@, "\n"@, 0, c);
    let t25 = replace_all(t24, "<br />"@, "\n"@);
    lemma_replace_lacks(t25, "<li>"@, "\n- "@, 0, c);
    let t26 = replace_all(t25, "<li>"@, "\n- "@);
    lemma_replace_lacks(t26, "</li>"@, ""@, 0, c);
    let t27 = replace_all(t26, "</li>"@, ""@);
    lemma_replace_lacks(t27, "<ul>"@, "\n"@, 0, c);
    let t28 = replace_all(t27, "<ul>"@, "\n"@);
    lemma_replace_lacks(t28, "</ul>"@, "\n"@, 0, c);
    let t29 = replace_all(t28, "</ul>"@, "\n"@);
    lemma_replace_lacks(t29, "<ol>"@, "\n"@, 0, c);
    let t30 = replace_all(t29, "<ol>"@, "\n"@);
    lemma_replace_lacks(t30, "</ol>"@, "\n"@, 0, c);
    let t31 = replace_all(t30, "</ol>"@, "\n"@);
}

/// Text without `&` has no entities to decode.
proof fn lemma_decode_absent(s: Seq<char>)
    requires
        lacks(s, '&'),
    ensures
        decode_entities(s) == s,
{
    reveal_strlit("&lt;");
    reveal_strlit("&gt;");
    reveal_strlit("&amp;");
    reveal_strlit("&quot;");
    reveal_strlit("&#39;");
    reveal_strlit("&apos;");
    reveal_strlit("&nbsp;");
    lemma_replace_all_absent(s, "&lt;"@, "<"@);
    lemma_replace_all_absent(s, "&gt;"@, ">"@);
    lemma_replace_all_absent(s, "&amp;"@, "&"@);
    lemma_replace_all_absent(s, "&quot;"@, "\""@);
    lemma_replace_all_absent(s, "&#39;"@, "'"@);
    lemma_replace_all_absent(s, "&apos;"@, "'"@);
    lemma_replace_all_absent(s, "&nbsp;"@, " "@);
}


/// Converting links introduces no character other than brackets and
/// parentheses.
proof fn lemma_links_lacks(s: Seq<char>, c: char)
    requires
        lacks(s, c),
        c != '[' && c != ']' && c != '(' && c != ')',
    ensures
        lacks(links_converted(s), c),
    decreases s.len(),
{
    reveal_strlit("<a ");
    lemma_find(s, "<a "@);
    if let Some(st) = find(s, "<a "@) {
        let a = s.skip(st);
        lemma_single_link_rest(a);
        lemma_lacks_subrange(s, 0, st, c);
        lemma_lacks_subrange(s, st, s.len() as int, c);
        lemma_single_link_lacks(a, c);
        let (emitted, rest) = single_link(a);
        lemma_links_lacks(rest, c);
        lemma_lacks_concat(s.take(st), emitted, c);
        lemma_lacks_concat(s.take(st) + emitted, links_converted(rest), c);
    }
}

/// What one anchor emits, and the text after it, hold no character that
/// the anchor lacked, brackets and parentheses aside.
proof fn lemma_single_link_lacks(a: Seq<char>, c: char)
    requires
        lacks(a, c),
        c != '[' && c != ']' && c != '(' && c != ')',
    ensures
        lacks(single_link(a).0, c),
        lacks(single_link(a).1, c),
{
    reveal_strlit("href=\"");
    reveal_strlit("</a>");
    lemma_find(a, "href=\""@);
    let href = match href_of(a) {
        Some(h) => h,
        None => Seq::empty(),
    };
    if let Some(hs) = find(a, "href=\""@) {
        let hc = a.skip(hs + "href=\""@.len());
        lemma_lacks_subrange(a, hs + "href=\""@.len(), a.len() as int, c);
        lemma_find(hc, seq!['"']);
        if let Some(he) = find(hc, seq!['"']) {
            lemma_lacks_subrange(hc, 0, he, c);
        }
    }
    assert(lacks(href, c));
    lemma_find(a, seq!['>']);
    if let Some(ts) = find(a, seq!['>']) {
        let at = a.skip(ts + 1);
        lemma_lacks_subrange(a, ts + 1, a.len() as int, c);
        lemma_find(at, "</a>"@);
        if let Some(te) = find(at, "</a>"@) {
            lemma_lacks_subrange(at, 0, te, c);
            lemma_lacks_subrange(at, te + "</a>"@.len(), at.len() as int, c);
            let text = strip_tags(at.take(te));
            lemma_strip_lacks(at.take(te), c);
            if href.len() > 0 {
                lemma_lacks_concat(seq!['['], text, c);
                lemma_lacks_concat(seq!['['] + text, seq![']', '('], c);
                lemma_lacks_concat(seq!['['] + text + seq![']', '('], href, c);
                lemma_lacks_concat(seq!['['] + text + seq![']', '('] + href, seq![')'], c);
            }
        }
    }
}

/// Text without `<` holds no anchor to convert.
proof fn lemma_links_absent(s: Seq<char>)
    requires
        lacks(s, '<'),
    ensures
        links_converted(s) == s,
{
    reveal_strlit("<a ");
    lemma_find_absent(s, "<a "@);
}

/// The whitespace cleanup introduces no character other than whitespace.
proof fn lemma_cleanup_lacks(s: Seq<char>, c: char)
    requires
        lacks(s, c),
        !is_ws(c),
    ensures
        lacks(cleanup_state(s).0, c),
        lacks(cleanup(s), c),
    decreases s.len(),
{
    if s.len() > 0 {
        lemma_lacks_subrange(s, 0, s.len() - 1, c);
        lemma_cleanup_lacks(s.drop_last(), c);
        let out = cleanup_state(s.drop_last()).0;
        assert(is_ws('\n') && is_ws(' '));
        lemma_lacks_concat(out, seq![s.last()], c);
        lemma_lacks_concat(out, seq![' '], c);
        assert(out.push(s.last()) == out + seq![s.last()]);
        assert(out.push(' ') == out + seq![' ']);
    }
    let out = cleanup_state(s).0;
    let (a, b) = lemma_trim(out);
    lemma_lacks_subrange(out, a, b, c);
}

/// The number of newlines at the end of `t`, counted up to 3.
pub open spec fn trailing_newlines(t: Seq<char>) -> nat
    decreases t.len(),
{
    if t.len() > 0 && t.last() == '\n' {
        let n = trailing_newlines(t.drop_last());
        if n < 3 {
            n + 1
        } else {
            3
        }
    } else {
        0
    }
}

/// On text with clean spacing the cleanup scan keeps every character.
proof fn lemma_cleanup_state_clean(t: Seq<char>)
    requires
        only_spaces_and_newlines(t),
        no_double_space(t),
        no_triple_newline(t),
    ensures
        cleanup_state(t) == (t, trailing_newlines(t), t.len() > 0 && t.last() == ' '),
    decreases t.len(),
{
    if t.len() > 0 {
        let n = t.len() - 1;
        let u = t.drop_last();
        lemma_clean_subrange(t, 0, n);
        assert(t.subrange(0, n) == u);
        lemma_cleanup_state_clean(u);
        let c = t.last();
        assert(u.push(c) =~= t);
        if c == '\n' {
            if trailing_newlines(u) >= 2 {
                let v = u.drop_last();
                assert(u.len() > 0 && u.last() == '\n' && trailing_newlines(v) >= 1);
                assert(v.len() > 0 && v.last() == '\n');
                assert(v.last() == t[n - 2]);
                assert(t[n - 2] == '\n' && t[n - 1] == '\n' && t[n] == '\n');
            }
        } else if is_ws(c) {
            assert(t[n] == ' ');
            if n > 0 {
                assert(t[n - 1] == u.last());
            }
        }
    }
}

/// Trimmed text is left as it is by trimming.
proof fn lemma_trim_fixed(t: Seq<char>)
    requires
        is_trimmed(t),
    ensures
        trim(t) == t,
{
    assert(trim_start(t) == t);
    assert(trim_end(t) == t);
}

/// Clean text is left as it is by the cleanup.
proof fn lemma_cleanup_fixed(t: Seq<char>)
    requires
        is_clean_text(t),
    ensures
        cleanup(t) == t,
{
    lemma_cleanup_state_clean(t);
    lemma_trim_fixed(t);
}

/// Converting a second time changes nothing, for HTML without `&`: the
/// first conversion leaves no tag, no entity and no untidy whitespace for
/// the second to act on.
pub proof fn lemma_markdown_twice(h: Seq<char>)
    requires
        lacks(h, '&'),
    ensures
        markdown_of(markdown_of(h)) == markdown_of(h),
{
    let r1 = remove_tagged(h, "script"@);
    let r2 = remove_tagged(r1, "style"@);
    let r3 = remove_tagged(r2, "noscript"@);
    lemma_remove_lacks(h, "script"@, '&');
    lemma_remove_lacks(r1, "style"@, '&');
    lemma_remove_lacks(r2, "noscript"@, '&');
    let w = rewrite_markup(r3);
    lemma_rewrite_lacks(r3, '&');
    let l = links_converted(w);
    lemma_links_lacks(w, '&');
    let st = strip_tags(l);
    lemma_strip_lacks(l, '&');
    lemma_strip_tags_no_brackets(l);
    assert(lacks(st, '<') && lacks(st, '>'));
    lemma_decode_absent(st);
    let m = cleanup(st);
    assert(markdown_of(h) == m);
    lemma_cleanup_lacks(st, '<');
    lemma_cleanup_lacks(st, '>');
    lemma_cleanup_lacks(st, '&');
    lemma_cleanup_is_clean(st);
    lemma_remove_absent(m, "script"@);
    lemma_remove_absent(m, "style"@);
    lemma_remove_absent(m, "noscript"@);
    lemma_rewrite_absent(m);
    lemma_links_absent(m);
    lemma_strip_absent(m);
    lemma_decode_absent(m);
    lemma_cleanup_fixed(m);
}

// ---------------------------------------------------------------------------
// Headings
// ---------------------------------------------------------------------------

/// Where `<` occurs in `x + t + y` only at the start of `x` and of `y`, a
/// pattern that starts with `<` can match only at one of those two places.
proof fn lemma_framed_unmatched(x: Seq<char>, t: Seq<char>, y: Seq<char>, p: Seq<char>)
    requires
        p.len() > 0,
        p[0] == '<',
        lacks(t, '<'),
        forall|i: int| 0 < i < x.len() ==> x[i] != '<',
        forall|i: int| 0 < i < y.len() ==> y[i] != '<',
    ensures
        forall|j: int|
            0 <= j < (x + t + y).len() && j != 0 && j != x.len() + t.len() ==> !#[trigger] matches_at(
                x + t + y,
                p,
                j,
            ),
{
    let s = x + t + y;
    let e = x.len() + t.len();
    assert forall|j: int|
        0 <= j < s.len() && j != 0 && j != e implies !#[trigger] matches_at(s, p, j) by {
        if matches_at(s, p, j) {
            lemma_match_needs_first(s, p, j);
            if j < x.len() {
                assert(s[j] == x[j]);
            } else if j < e {
                assert(s[j] == t[j - x.len()]);
            } else {
                assert(s[j] == y[j - e]);
            }
        }
    }
}

/// Joining two texts with clean spacing keeps the spacing clean when the
/// join does not put whitespace next to whitespace.
proof fn lemma_spacing_concat(x: Seq<char>, y: Seq<char>)
    requires
        only_spaces_and_newlines(x),
        no_double_space(x),
        no_triple_newline(x),
        only_spaces_and_newlines(y),
        no_double_space(y),
        no_triple_newline(y),
        x.len() == 0 || y.len() == 0 || !is_ws(x.last()) || !is_ws(y[0]),
    ensures
        only_spaces_and_newlines(x + y),
        no_double_space(x + y),
        no_triple_newline(x + y),
{
    let s = x + y;
    let n = x.len() as int;
    assert(is_ws(' ') && is_ws('\n'));
    assert forall|i: int| 0 <= i < s.len() && is_ws(#[trigger] s[i]) implies s[i] == ' ' || s[i]
        == '\n' by {
        if i < n {
            assert(s[i] == x[i]);
        } else {
            assert(s[i] == y[i - n]);
        }
    }
    assert forall|i: int, j: int|
        #![trigger s[i], s[j]]
        0 <= i && j == i + 1 && j < s.len() implies !(s[i] == ' ' && s[j] == ' ') by {
        if j < n {
            assert(s[i] == x[i] && s[j] == x[j]);
        } else if i >= n {
            assert(s[i] == y[i - n] && s[j] == y[j - n]);
        } else {
            assert(s[i] == x.last() && s[j] == y[0]);
        }
    }
    assert forall|i: int, j: int, k: int|
        #![trigger s[i], s[j], s[k]]
        0 <= i && j == i + 1 && k == j + 1 && k < s.len() implies !(s[i] == '\n' && s[j] == '\n'
            && s[k] == '\n') by {
        if k < n {
            assert(s[i] == x[i] && s[j] == x[j] && s[k] == x[k]);
        } else if i >= n {
            assert(s[i] == y[i - n] && s[j] == y[j - n] && s[k] == y[k - n]);
        } else if j < n {
            assert(s[j] == x.last() && s[k] == y[0]);
        } else {
            assert(s[i] == x.last() && s[j] == y[0]);
        }
    }
}

/// The markup rewrites turn `<h1>` and `</h1>` around text without `<`
/// into a level-1 Markdown heading line.
proof fn lemma_heading_markup_1(t: Seq<char>)
    requires
        lacks(t, '<'),
    ensures
        rewrite_markup("<h1>"@ + t + "</h1>"@) == "\n# "@ + t + "\n"@,
{
    reveal_strlit("");
    reveal_strlit("\n");
    reveal_strlit("\n\n");
    reveal_strlit("\n# ");
    reveal_strlit("\n## ");
    reveal_strlit("\n### ");
    reveal_strlit("\n#### ");
    reveal_strlit("\n- ");
    reveal_strlit("\n```\n");
    reveal_strlit("\n```rust\n");
    reveal_strlit("*");
    reveal_strlit("**");
    reveal_strlit("</b>");
    reveal_strlit("</code>");
    reveal_strlit("</em>");
    reveal_strlit("</h1>");
    reveal_strlit("</h2>");
    reveal_strlit("</h3>");
    reveal_strlit("</h4>");
    reveal_strlit("</i>");
    reveal_strlit("</li>");
    reveal_strlit("</ol>");
    reveal_strlit("</p>");
    reveal_strlit("</pre>");
    reveal_strlit("</strong>");
    reveal_strlit("</ul>");
    reveal_strlit("<b>");
    reveal_strlit("<br />");
    reveal_strlit("<br/>");
    reveal_strlit("<br>");
    reveal_strlit("<code>");
    reveal_strlit("<em>");
    reveal_strlit("<h1>");
    reveal_strlit("<h2>");
    reveal_strlit("<h3>");
    reveal_strlit("<h4>");
    reveal_strlit("<i>");
    reveal_strlit("<li>");
    reveal_strlit("<ol>");
    reveal_strlit("<p>");
    reveal_strlit("<pre class=\"rust item-decl\">");
    reveal_strlit("<pre>");
    reveal_strlit("<strong>");
    reveal_strlit("<ul>");
    reveal_strlit("`");
    let s0 = "<h1>"@ + t + "</h1>"@;
    lemma_framed_unmatched("<h1>"@, t, "</h1>"@, "<pre class=\"rust item-decl\">"@);
    lemma_mismatch(s0, "<pre class=\"rust item-decl\">"@, 0, 1);
    assert(s0[("<h1>"@.len() + t.len()) as int + 1] == "</h1>"@[1]);
    lemma_mismatch(s0, "<pre class=\"rust item-decl\">"@, ("<h1>"@.len() + t.len()) as int, 1);
    lemma_replace_unmatched(s0, "<pre class=\"rust item-decl\">"@, "\n```rust\n"@);
    let s1 = "<h1>"@ + t + "</h1>"@;
    lemma_framed_unmatched("<h1>"@, t, "</h1>"@, "<pre>"@);
    lemma_mismatch(s1, "<pre>"@, 0, 1);
    assert(s1[("<h1>"@.len() + t.len()) as int + 1] == "</h1>"@[1]);
    lemma_mismatch(s1, "<pre>"@, ("<h1>"@.len() + t.len()) as int, 1);
    lemma_replace_unmatched(s1, "<pre>"@, "\n```\n"@);
    let s2 = "<h1>"@ + t + "</h1>"@;
    lemma_framed_unmatched("<h1>"@, t, "</h1>"@, "</pre>"@);
    lemma_mismatch(s2, "</pre>"@, 0, 1);
    assert(s2[("<h1>"@.len() + t.len()) as int + 2] == "</h1>"@[2]);
    lemma_mismatch(s2, "</pre>"@, ("<h1>"@.len() + t.len()) as int, 2);
    lemma_replace_unmatched(s2, "</pre>"@, "\n```\n"@);
    let s3 = "<h1>"@ + t + "</h1>"@;
    lemma_framed_unmatched("<h1>"@, t, "</h1>"@, "<code>"@);
    lemma_mismatch(s3, "<code>"@, 0, 1);
    assert(s3[("<h1>"@.len() + t.len()) as int + 1] == "</h1>"@[1]);
    lemma_mismatch(s3, "<code>"@, ("<h1>"@.len() + t.len()) as int, 1);
    lemma_replace_unmatched(s3, "<code>"@, "`"@);
    let s4 = "<h1>"@ + t + "</h1>"@;
    lemma_framed_unmatched("<h1>"@, t, "</h1>"@, "</code>"@);
    lemma_mismatch(s4, "</code>"@, 0, 1);
    assert(s4[("<h1>"@.len() + t.len()) as int + 2] == "</h1>"@[2]);
    lemma_mismatch(s4, "</code>"@, ("<h1>"@.len() + t.len()) as int, 2);
    lemma_replace_unmatched(s4, "</code>"@, "`"@);
    let s5 = "<h1>"@ + t + "</h1>"@;
    lemma_framed_unmatched("<h1>"@, t, "</h1>"@, "<h1>"@);
    assert(s5[("<h1>"@.len() + t.len()) as int + 1] == "</h1>"@[1]);
    lemma_mismatch(s5, "<h1>"@, ("<h1>"@.len() + t.len()) as int, 1);
    assert(Seq::<char>::empty() + "<h1>"@ + (t + "</h1>"@) =~= s5);
    lemma_replace_single(Seq::<char>::empty(), "<h1>"@, t + "</h1>"@, "\n# "@);
    assert(replace_all(s5, "<h1>"@, "\n# "@) =~= "\n# "@ + t + "</h1>"@);
    let s6 = "\n# "@ + t + "</h1>"@;
    lemma_framed_unmatched("\n# "@, t, "</h1>"@, "</h1>"@);
    lemma_mismatch(s6, "</h1>"@, 0, 0);
    assert(("\n# "@ + t) + "</h1>"@ + Seq::<char>::empty() =~= s6);
    lemma_replace_single("\n# "@ + t, "</h1>"@, Seq::<char>::empty(), "\n"@);
    assert(replace_all(s6, "</h1>"@, "\n"@) =~= "\n# "@ + t + "\n"@);
    let s7 = "\n# "@ + t + "\n"@;
    lemma_lacks_concat("\n# "@, t, '<');
    lemma_lacks_concat("\n# "@ + t, "\n"@, '<');
    lemma_replace_all_absent(s7, "<h2>"@, "\n## "@);
    let s8 = "\n# "@ + t + "\n"@;
    lemma_lacks_concat("\n# "@, t, '<');
    lemma_lacks_concat("\n# "@ + t, "\n"@, '<');
    lemma_replace_all_absent(s8, "</h2>"@, "\n"@);
    let s9 = "\n# "@ + t + "\n"@;
    lemma_lacks_concat("\n# "@, t, '<');
    lemma_lacks_concat("\n# "@ + t, "\n"@, '<');
    lemma_replace_all_absent(s9, "<h3>"@, "\n### "@);
    let s10 = "\n# "@ + t + "\n"@;
    lemma_lacks_concat("\n# "@, t, '<');
    lemma_lacks_concat("\n# "@ + t, "\n"@, '<');
    lemma_replace_all_absent(s10, "</h3>"@, "\n"@);
    let s11 = "\n# "@ + t + "\n"@;
    lemma_lacks_concat("\n# "@, t, '<');
    lemma_lacks_concat("\n# "@ + t, "\n"@, '<');
    lemma_replace_all_absent(s11, "<h4>"@, "\n#### "@);
    let s12 = "\n# "@ + t + "\n"@;
    lemma_lacks_concat("\n# "@, t, '<');
    lemma_lacks_concat("\n# "@ + t, "\n"@, '<');
    lemma_replace_all_absent(s12, "</h4>"@, "\n"@);
    let s13 = "\n# "@ + t + "\n"@;
    lemma_lacks_concat("\n# "@, t, '<');
    lemma_lacks_concat("\n# "@ + t, "\n"@, '<');
    lemma_replace_all_absent(s13, "<strong>"@, "**"@);
    let s14 = "\n# "@ + t + "\n"@;
    lemma_lacks_concat("\n# "@, t, '<');
    lemma_lacks_concat("\n# "@ + t, "\n"@, '<');
    lemma_replace_all_absent(s14, "</strong>"@, "**"@);
    let s15 = "\n# "@ + t + "\n"@;
    lemma_lacks_concat("\n# "@, t, '<');
    lemma_lacks_concat("\n# "@ + t, "\n"@, '<');
    lemma_replace_all_absent(s15, "<b>"@, "**"@);
    let s16 = "\n# "@ + t + "\n"@;
    lemma_lacks_concat("\n# "@, t, '<');
    lemma_lacks_concat("\n# "@ + t, "\n"@, '<');
    lemma_replace_all_absent(s16, "</b>"@, "**"@);
    let s17 = "\n# "@ + t + "\n"@;
    lemma_lacks_concat("\n# "@, t, '<');
    lemma_lacks_concat("\n# "@ + t, "\n"@, '<');
    lemma_replace_all_absent(s17, "<em>"@, "*"@);
    let s18 = "\n# "@ + t + "\n"@;
    lemma_lacks_concat("\n# "@, t, '<');
    lemma_lacks_concat("\n# "@ + t, "\n"@, '<');
    lemma_replace_all_absent(s18, "</em>"@, "*"@);
    let s19 = "\n# "@ + t + "\n"@;
    lemma_lacks_concat("\n# "@, t, '<');
    lemma_lacks_concat("\n# "@ + t, "\n"@, '<');
    lemma_replace_all_absent(s19, "<i>"@, "*"@);
    let s20 = "\n# "@ + t + "\n"@;
    lemma_lacks_concat("\n# "@, t, '<');
    lemma_lacks_concat("\n# "@ + t, "\n"@, '<');
    lemma_replace_all_absent(s20, "</i>"@, "*"@);
    let s21 = "\n# "@ + t + "\n"@;
    lemma_lacks_concat("\n# "@, t, '<');
    lemma_lacks_concat("\n# "@ + t, "\n"@, '<');
    lemma_replace_all_absent(s21, "<p>"@, "\n\n"@);
    let s22 = "\n# "@ + t + "\n"@;
    lemma_lacks_concat("\n# "@, t, '<');
    lemma_lacks_concat("\n# "@ + t, "\n"@, '<');
    lemma_replace_all_absent(s22, "</p>"@, "\n\n"@);
    let s23 = "\n# "@ + t + "\n"@;
    lemma_lacks_concat("\n# "@, t, '<');
    lemma_lacks_concat("\n# "@ + t, "\n"@, '<');
    lemma_replace_all_absent(s23, "<br>"@, "\n"@);
    let s24 = "\n# "@ + t + "\n"@;
    lemma_lacks_concat("\n# "@, t, '<');
    lemma_lacks_concat("\n# "@ + t, "\n"@, '<');
    lemma_replace_all_absent(s24, "<br/>"@, "\n"@);
    let s25 = "\n# "@ + t + "\n"@;
    lemma_lacks_concat("\n# "@, t, '<');
    lemma_lacks_concat("\n# "@ + t, "\n"@, '<');
    lemma_replace_all_absent(s25, "<br />"@, "\n"@);
    let s26 = "\n# "@ + t + "\n"@;
    lemma_lacks_concat("\n# "@, t, '<');
    lemma_lacks_concat("\n# "@ + t, "\n"@, '<');
    lemma_replace_all_absent(s26, "<li>"@, "\n- "@);
    let s27 = "\n# "@ + t + "\n"@;
    lemma_lacks_concat("\n# "@, t, '<');
    lemma_lacks_concat("\n# "@ + t, "\n"@, '<');
    lemma_replace_all_absent(s27, "</li>"@, ""@);
    let s28 = "\n# "@ + t + "\n"@;
    lemma_lacks_concat("\n# "@, t, '<');
    lemma_lacks_concat("\n# "@ + t, "\n"@, '<');
    lemma_replace_all_absent(s28, "<ul>"@, "\n"@);
    let s29 = "\n# "@ + t + "\n"@;
    lemma_lacks_concat("\n# "@, t, '<');
    lemma_lacks_concat("\n# "@ + t, "\n"@, '<');
    lemma_replace_all_absent(s29, "</ul>"@, "\n"@);
    let s30 = "\n# "@ + t + "\n"@;
    lemma_lacks_concat("\n# "@, t, '<');
    lemma_lacks_concat("\n# "@ + t, "\n"@, '<');
    lemma_replace_all_absent(s30, "<ol>"@, "\n"@);
    let s31 = "\n# "@ + t + "\n"@;
    lemma_lacks_concat("\n# "@, t, '<');
    lemma_lacks_concat("\n# "@ + t, "\n"@, '<');
    lemma_replace_all_absent(s31, "</ol>"@, "\n"@);
}

/// The markup rewrites turn `<h2>` and `</h2>` around text without `<`
/// into a level-2 Markdown heading line.
proof fn lemma_heading_markup_2(t: Seq<char>)
    requires
        lacks(t, '<'),
    ensures
        rewrite_markup("<h2>"@ + t + "</h2>"@) == "\n## "@ + t + "\n"@,
{
    reveal_strlit("");
    reveal_strlit("\n");
    reveal_strlit("\n\n");
    reveal_strlit("\n# ");
    reveal_strlit("\n## ");
    reveal_strlit("\n### ");
    reveal_strlit("\n#### ");
    reveal_strlit("\n- ");
    reveal_strlit("\n```\n");
    reveal_strlit("\n```rust\n");
    reveal_strlit("*");
    reveal_strlit("**");
    reveal_strlit("</b>");
    reveal_strlit("</code>");
    reveal_strlit("</em>");
    reveal_strlit("</h1>");
    reveal_strlit("</h2>");
    reveal_strlit("</h3>");
    reveal_strlit("</h4>");
    reveal_strlit("</i>");
    reveal_strlit("</li>");
    reveal_strlit("</ol>");
    reveal_strlit("</p>");
    reveal_strlit("</pre>");
    reveal_strlit("</strong>");
    reveal_strlit("</ul>");
    reveal_strlit("<b>");
    reveal_strlit("<br />");
    reveal_strlit("<br/>");
    reveal_strlit("<br>");
    reveal_strlit("<code>");
    reveal_strlit("<em>");
    reveal_strlit("<h1>");
    reveal_strlit("<h2>");
    reveal_strlit("<h3>");
    reveal_strlit("<h4>");
    reveal_strlit("<i>");
    reveal_strlit("<li>");
    reveal_strlit("<ol>");
    reveal_strlit("<p>");
    reveal_strlit("<pre class=\"rust item-decl\">");
    reveal_strlit("<pre>");
    reveal_strlit("<strong>");
    reveal_strlit("<ul>");
    reveal_strlit("`");
    let s0 = "<h2>"@ + t + "</h2>"@;
    lemma_framed_unmatched("<h2>"@, t, "</h2>"@, "<pre class=\"rust item-decl\">"@);
    lemma_mismatch(s0, "<pre class=\"rust item-decl\">"@, 0, 1);
    assert(s0[("<h2>"@.len() + t.len()) as int + 1] == "</h2>"@[1]);
    lemma_mismatch(s0, "<pre class=\"rust item-decl\">"@, ("<h2>"@.len() + t.len()) as int, 1);
    lemma_replace_unmatched(s0, "<pre class=\"rust item-decl\">"@, "\n```rust\n"@);
    let s1 = "<h2>"@ + t + "</h2>"@;
    lemma_framed_unmatched("<h2>"@, t, "</h2>"@, "<pre>"@);
    lemma_mismatch(s1, "<pre>"@, 0, 1);
    assert(s1[("<h2>"@.len() + t.len()) as int + 1] == "</h2>"@[1]);
    lemma_mismatch(s1, "<pre>"@, ("<h2>"@.len() + t.len()) as int, 1);
    lemma_replace_unmatched(s1, "<pre>"@, "\n```\n"@);
    let s2 = "<h2>"@ + t + "</h2>"@;
    lemma_framed_unmatched("<h2>"@, t, "</h2>"@, "</pre>"@);
    lemma_mismatch(s2, "</pre>"@, 0, 1);
    assert(s2[("<h2>"@.len() + t.len()) as int + 2] == "</h2>"@[2]);
    lemma_mismatch(s2, "</pre>"@, ("<h2>"@.len() + t.len()) as int, 2);
    lemma_replace_unmatched(s2, "</pre>"@, "\n```\n"@);
    let s3 = "<h2>"@ + t + "</h2>"@;
    lemma_framed_unmatched("<h2>"@, t, "</h2>"@, "<code>"@);
    lemma_mismatch(s3, "<code>"@, 0, 1);
    assert(s3[("<h2>"@.len() + t.len()) as int + 1] == "</h2>"@[1]);
    lemma_mismatch(s3, "<code>"@, ("<h2>"@.len() + t.len()) as int, 1);
    lemma_replace_unmatched(s3, "<code>"@, "`"@);
    let s4 = "<h2>"@ + t + "</h2>"@;
    lemma_framed_unmatched("<h2>"@, t, "</h2>"@, "</code>"@);
    lemma_mismatch(s4, "</code>"@, 0, 1);
    assert(s4[("<h2>"@.len() + t.len()) as int + 2] == "</h2>"@[2]);
    lemma_mismatch(s4, "</code>"@, ("<h2>"@.len() + t.len()) as int, 2);
    lemma_replace_unmatched(s4, "</code>"@, "`"@);
    let s5 = "<h2>"@ + t + "</h2>"@;
    lemma_framed_unmatched("<h2>"@, t, "</h2>"@, "<h1>"@);
    lemma_mismatch(s5, "<h1>"@, 0, 2);
    assert(s5[("<h2>"@.len() + t.len()) as int + 1] == "</h2>"@[1]);
    lemma_mismatch(s5, "<h1>"@, ("<h2>"@.len() + t.len()) as int, 1);
    lemma_replace_unmatched(s5, "<h1>"@, "\n# "@);
    let s6 = "<h2>"@ + t + "</h2>"@;
    lemma_framed_unmatched("<h2>"@, t, "</h2>"@, "</h1>"@);
    lemma_mismatch(s6, "</h1>"@, 0, 1);
    assert(s6[("<h2>"@.len() + t.len()) as int + 3] == "</h2>"@[3]);
    lemma_mismatch(s6, "</h1>"@, ("<h2>"@.len() + t.len()) as int, 3);
    lemma_replace_unmatched(s6, "</h1>"@, "\n"@);
    let s7 = "<h2>"@ + t + "</h2>"@;
    lemma_framed_unmatched("<h2>"@, t, "</h2>"@, "<h2>"@);
    assert(s7[("<h2>"@.len() + t.len()) as int + 1] == "</h2>"@[1]);
    lemma_mismatch(s7, "<h2>"@, ("<h2>"@.len() + t.len()) as int, 1);
    assert(Seq::<char>::empty() + "<h2>"@ + (t + "</h2>"@) =~= s7);
    lemma_replace_single(Seq::<char>::empty(), "<h2>"@, t + "</h2>"@, "\n## "@);
    assert(replace_all(s7, "<h2>"@, "\n## "@) =~= "\n## "@ + t + "</h2>"@);
    let s8 = "\n## "@ + t + "</h2>"@;
    lemma_framed_unmatched("\n## "@, t, "</h2>"@, "</h2>"@);
    lemma_mismatch(s8, "</h2>"@, 0, 0);
    assert(("\n## "@ + t) + "</h2>"@ + Seq::<char>::empty() =~= s8);
    lemma_replace_single("\n## "@ + t, "</h2>"@, Seq::<char>::empty(), "\n"@);
    assert(replace_all(s8, "</h2>"@, "\n"@) =~= "\n## "@ + t + "\n"@);
    let s9 = "\n## "@ + t + "\n"@;
    lemma_lacks_concat("\n## "@, t, '<');
    lemma_lacks_concat("\n## "@ + t, "\n"@, '<');
    lemma_replace_all_absent(s9, "<h3>"@, "\n### "@);
    let s10 = "\n## "@ + t + "\n"@;
    lemma_lacks_concat("\n## "@, t, '<');
    lemma_lacks_concat("\n## "@ + t, "\n"@, '<');
    lemma_replace_all_absent(s10, "</h3>"@, "\n"@);
    let s11 = "\n## "@ + t + "\n"@;
    lemma_lacks_concat("\n## "@, t, '<');
    lemma_lacks_concat("\n## "@ + t, "\n"@, '<');
    lemma_replace_all_absent(s11, "<h4>"@, "\n#### "@);
    let s12 = "\n## "@ + t + "\n"@;
    lemma_lacks_concat("\n## "@, t, '<');
    lemma_lacks_concat("\n## "@ + t, "\n"@, '<');
    lemma_replace_all_absent(s12, "</h4>"@, "\n"@);
    let s13 = "\n## "@ + t + "\n"@;
    lemma_lacks_concat("\n## "@, t, '<');
    lemma_lacks_concat("\n## "@ + t, "\n"@, '<');
    lemma_replace_all_absent(s13, "<strong>"@, "**"@);
    let s14 = "\n## "@ + t + "\n"@;
    lemma_lacks_concat("\n## "@, t, '<');
    lemma_lacks_concat("\n## "@ + t, "\n"@, '<');
    lemma_replace_all_absent(s14, "</strong>"@, "**"@);
    let s15 = "\n## "@ + t + "\n"@;
    lemma_lacks_concat("\n## "@, t, '<');
    lemma_lacks_concat("\n## "@ + t, "\n"@, '<');
    lemma_replace_all_absent(s15, "<b>"@, "**"@);
    let s16 = "\n## "@ + t + "\n"@;
    lemma_lacks_concat("\n## "@, t, '<');
    lemma_lacks_concat("\n## "@ + t, "\n"@, '<');
    lemma_replace_all_absent(s16, "</b>"@, "**"@);
    let s17 = "\n## "@ + t + "\n"@;
    lemma_lacks_concat("\n## "@, t, '<');
    lemma_lacks_concat("\n## "@ + t, "\n"@, '<');
    lemma_replace_all_absent(s17, "<em>"@, "*"@);
    let s18 = "\n## "@ + t + "\n"@;
    lemma_lacks_concat("\n## "@, t, '<');
    lemma_lacks_concat("\n## "@ + t, "\n"@, '<');
    lemma_replace_all_absent(s18, "</em>"@, "*"@);
    let s19 = "\n## "@ + t + "\n"@;
    lemma_lacks_concat("\n## "@, t, '<');
    lemma_lacks_concat("\n## "@ + t, "\n"@, '<');
    lemma_replace_all_absent(s19, "<i>"@, "*"@);
    let s20 = "\n## "@ + t + "\n"@;
    lemma_lacks_concat("\n## "@, t, '<');
    lemma_lacks_concat("\n## "@ + t, "\n"@, '<');
    lemma_replace_all_absent(s20, "</i>"@, "*"@);
    let s21 = "\n## "@ + t + "\n"@;
    lemma_lacks_concat("\n## "@, t, '<');
    lemma_lacks_concat("\n## "@ + t, "\n"@, '<');
    lemma_replace_all_absent(s21, "<p>"@, "\n\n"@);
    let s22 = "\n## "@ + t + "\n"@;
    lemma_lacks_concat("\n## "@, t, '<');
    lemma_lacks_concat("\n## "@ + t, "\n"@, '<');
    lemma_replace_all_absent(s22, "</p>"@, "\n\n"@);
    let s23 = "\n## "@ + t + "\n"@;
    lemma_lacks_concat("\n## "@, t, '<');
    lemma_lacks_concat("\n## "@ + t, "\n"@, '<');
    lemma_replace_all_absent(s23, "<br>"@, "\n"@);
    let s24 = "\n## "@ + t + "\n"@;
    lemma_lacks_concat("\n## "@, t, '<');
    lemma_lacks_concat("\n## "@ + t, "\n"@, '<');
    lemma_replace_all_absent(s24, "<br/>"@, "\n"@);
    let s25 = "\n## "@ + t + "\n"@;
    lemma_lacks_concat("\n## "@, t, '<');
    lemma_lacks_concat("\n## "@ + t, "\n"@, '<');
    lemma_replace_all_absent(s25, "<br />"@, "\n"@);
    let s26 = "\n## "@ + t + "\n"@;
    lemma_lacks_concat("\n## "@, t, '<');
    lemma_lacks_concat("\n## "@ + t, "\n"@, '<');
    lemma_replace_all_absent(s26, "<li>"@, "\n- "@);
    let s27 = "\n## "@ + t + "\n"@;
    lemma_lacks_concat("\n## "@, t, '<');
    lemma_lacks_concat("\n## "@ + t, "\n"@, '<');
    lemma_replace_all_absent(s27, "</li>"@, ""@);
    let s28 = "\n## "@ + t + "\n"@;
    lemma_lacks_concat("\n## "@, t, '<');
    lemma_lacks_concat("\n## "@ + t, "\n"@, '<');
    lemma_replace_all_absent(s28, "<ul>"@, "\n"@);
    let s29 = "\n## "@ + t + "\n"@;
    lemma_lacks_concat("\n## "@, t, '<');
    lemma_lacks_concat("\n## "@ + t, "\n"@, '<');
    lemma_replace_all_absent(s29, "</ul>"@, "\n"@);
    let s30 = "\n## "@ + t + "\n"@;
    lemma_lacks_concat("\n## "@, t, '<');
    lemma_lacks_concat("\n## "@ + t, "\n"@, '<');
    lemma_replace_all_absent(s30, "<ol>"@, "\n"@);
    let s31 = "\n## "@ + t + "\n"@;
    lemma_lacks_concat("\n## "@, t, '<');
    lemma_lacks_concat("\n## "@ + t, "\n"@, '<');
    lemma_replace_all_absent(s31, "</ol>"@, "\n"@);
}

/// The markup rewrites turn `<h3>` and `</h3>` around text without `<`
/// into a level-3 Markdown heading line.
proof fn lemma_heading_markup_3(t: Seq<char>)
    requires
        lacks(t, '<'),
    ensures
        rewrite_markup("<h3>"@ + t + "</h3>"@) == "\n### "@ + t + "\n"@,
{
    reveal_strlit("");
    reveal_strlit("\n");
    reveal_strlit("\n\n");
    reveal_strlit("\n# ");
    reveal_strlit("\n## ");
    reveal_strlit("\n### ");
    reveal_strlit("\n#### ");
    reveal_strlit("\n- ");
    reveal_strlit("\n```\n");
    reveal_strlit("\n```rust\n");
    reveal_strlit("*");
    reveal_strlit("**");
    reveal_strlit("</b>");
    reveal_strlit("</code>");
    reveal_strlit("</em>");
    reveal_strlit("</h1>");
    reveal_strlit("</h2>");
    reveal_strlit("</h3>");
    reveal_strlit("</h4>");
    reveal_strlit("</i>");
    reveal_strlit("</li>");
    reveal_strlit("</ol>");
    reveal_strlit("</p>");
    reveal_strlit("</pre>");
    reveal_strlit("</strong>");
    reveal_strlit("</ul>");
    reveal_strlit("<b>");
    reveal_strlit("<br />");
    reveal_strlit("<br/>");
    reveal_strlit("<br>");
    reveal_strlit("<code>");
    reveal_strlit("<em>");
    reveal_strlit("<h1>");
    reveal_strlit("<h2>");
    reveal_strlit("<h3>");
    reveal_strlit("<h4>");
    reveal_strlit("<i>");
    reveal_strlit("<li>");
    reveal_strlit("<ol>");
    reveal_strlit("<p>");
    reveal_strlit("<pre class=\"rust item-decl\">");
    reveal_strlit("<pre>");
    reveal_strlit("<strong>");
    reveal_strlit("<ul>");
    reveal_strlit("`");
    let s0 = "<h3>"@ + t + "</h3>"@;
    lemma_framed_unmatched("<h3>"@, t, "</h3>"@, "<pre class=\"rust item-decl\">"@);
    lemma_mismatch(s0, "<pre class=\"rust item-decl\">"@, 0, 1);
    assert(s0[("<h3>"@.len() + t.len()) as int + 1] == "</h3>"@[1]);
    lemma_mismatch(s0, "<pre class=\"rust item-decl\">"@, ("<h3>"@.len() + t.len()) as int, 1);
    lemma_replace_unmatched(s0, "<pre class=\"rust item-decl\">"@, "\n```rust\n"@);
    let s1 = "<h3>"@ + t + "</h3>"@;
    lemma_framed_unmatched("<h3>"@, t, "</h3>"@, "<pre>"@);
    lemma_mismatch(s1, "<pre>"@, 0, 1);
    assert(s1[("<h3>"@.len() + t.len()) as int + 1] == "</h3>"@[1]);
    lemma_mismatch(s1, "<pre>"@, ("<h3>"@.len() + t.len()) as int, 1);
    lemma_replace_unmatched(s1, "<pre>"@, "\n```\n"@);
    let s2 = "<h3>"@ + t + "</h3>"@;
    lemma_framed_unmatched("<h3>"@, t, "</h3>"@, "</pre>"@);
    lemma_mismatch(s2, "</pre>"@, 0, 1);
    assert(s2[("<h3>"@.len() + t.len()) as int + 2] == "</h3>"@[2]);
    lemma_mismatch(s2, "</pre>"@, ("<h3>"@.len() + t.len()) as int, 2);
    lemma_replace_unmatched(s2, "</pre>"@, "\n```\n"@);
    let s3 = "<h3>"@ + t + "</h3>"@;
    lemma_framed_unmatched("<h3>"@, t, "</h3>"@, "<code>"@);
    lemma_mismatch(s3, "<code>"@, 0, 1);
    assert(s3[("<h3>"@.len() + t.len()) as int + 1] == "</h3>"@[1]);
    lemma_mismatch(s3, "<code>"@, ("<h3>"@.len() + t.len()) as int, 1);
    lemma_replace_unmatched(s3, "<code>"@, "`"@);
    let s4 = "<h3>"@ + t + "</h3>"@;
    lemma_framed_unmatched("<h3>"@, t, "</h3>"@, "</code>"@);
    lemma_mismatch(s4, "</code>"@, 0, 1);
    assert(s4[("<h3>"@.len() + t.len()) as int + 2] == "</h3>"@[2]);
    lemma_mismatch(s4, "</code>"@, ("<h3>"@.len() + t.len()) as int, 2);
    lemma_replace_unmatched(s4, "</code>"@, "`"@);
    let s5 = "<h3>"@ + t + "</h3>"@;
    lemma_framed_unmatched("<h3>"@, t, "</h3>"@, "<h1>"@);
    lemma_mismatch(s5, "<h1>"@, 0, 2);
    assert(s5[("<h3>"@.len() + t.len()) as int + 1] == "</h3>"@[1]);
    lemma_mismatch(s5, "<h1>"@, ("<h3>"@.len() + t.len()) as int, 1);
    lemma_replace_unmatched(s5, "<h1>"@, "\n# "@);
    let s6 = "<h3>"@ + t + "</h3>"@;
    lemma_framed_unmatched("<h3>"@, t, "</h3>"@, "</h1>"@);
    lemma_mismatch(s6, "</h1>"@, 0, 1);
    assert(s6[("<h3>"@.len() + t.len()) as int + 3] == "</h3>"@[3]);
    lemma_mismatch(s6, "</h1>"@, ("<h3>"@.len() + t.len()) as int, 3);
    lemma_replace_unmatched(s6, "</h1>"@, "\n"@);
    let s7 = "<h3>"@ + t + "</h3>"@;
    lemma_framed_unmatched("<h3>"@, t, "</h3>"@, "<h2>"@);
    lemma_mismatch(s7, "<h2>"@, 0, 2);
    assert(s7[("<h3>"@.len() + t.len()) as int + 1] == "</h3>"@[1]);
    lemma_mismatch(s7, "<h2>"@, ("<h3>"@.len() + t.len()) as int, 1);
    lemma_replace_unmatched(s7, "<h2>"@, "\n## "@);
    let s8 = "<h3>"@ + t + "</h3>"@;
    lemma_framed_unmatched("<h3>"@, t, "</h3>"@, "</h2>"@);
    lemma_mismatch(s8, "</h2>"@, 0, 1);
    assert(s8[("<h3>"@.len() + t.len()) as int + 3] == "</h3>"@[3]);
    lemma_mismatch(s8, "</h2>"@, ("<h3>"@.len() + t.len()) as int, 3);
    lemma_replace_unmatched(s8, "</h2>"@, "\n"@);
    let s9 = "<h3>"@ + t + "</h3>"@;
    lemma_framed_unmatched("<h3>"@, t, "</h3>"@, "<h3>"@);
    assert(s9[("<h3>"@.len() + t.len()) as int + 1] == "</h3>"@[1]);
    lemma_mismatch(s9, "<h3>"@, ("<h3>"@.len() + t.len()) as int, 1);
    assert(Seq::<char>::empty() + "<h3>"@ + (t + "</h3>"@) =~= s9);
    lemma_replace_single(Seq::<char>::empty(), "<h3>"@, t + "</h3>"@, "\n### "@);
    assert(replace_all(s9, "<h3>"@, "\n### "@) =~= "\n### "@ + t + "</h3>"@);
    let s10 = "\n### "@ + t + "</h3>"@;
    lemma_framed_unmatched("\n### "@, t, "</h3>"@, "</h3>"@);
    lemma_mismatch(s10, "</h3>"@, 0, 0);
    assert(("\n### "@ + t) + "</h3>"@ + Seq::<char>::empty() =~= s10);
    lemma_replace_single("\n### "@ + t, "</h3>"@, Seq::<char>::empty(), "\n"@);
    assert(replace_all(s10, "</h3>"@, "\n"@) =~= "\n### "@ + t + "\n"@);
    let s11 = "\n### "@ + t + "\n"@;
    lemma_lacks_concat("\n### "@, t, '<');
    lemma_lacks_concat("\n### "@ + t, "\n"@, '<');
    lemma_replace_all_absent(s11, "<h4>"@, "\n#### "@);
    let s12 = "\n### "@ + t + "\n"@;
    lemma_lacks_concat("\n### "@, t, '<');
    lemma_lacks_concat("\n### "@ + t, "\n"@, '<');
    lemma_replace_all_absent(s12, "</h4>"@, "\n"@);
    let s13 = "\n### "@ + t + "\n"@;
    lemma_lacks_concat("\n### "@, t, '<');
    lemma_lacks_concat("\n### "@ + t, "\n"@, '<');
    lemma_replace_all_absent(s13, "<strong>"@, "**"@);
    let s14 = "\n### "@ + t + "\n"@;
    lemma_lacks_concat("\n### "@, t, '<');
    lemma_lacks_concat("\n### "@ + t, "\n"@, '<');
    lemma_replace_all_absent(s14, "</strong>"@, "**"@);
    let s15 = "\n### "@ + t + "\n"@;
    lemma_lacks_concat("\n### "@, t, '<');
    lemma_lacks_concat("\n### "@ + t, "\n"@, '<');
    lemma_replace_all_absent(s15, "<b>"@, "**"@);
    let s16 = "\n### "@ + t + "\n"@;
    lemma_lacks_concat("\n### "@, t, '<');
    lemma_lacks_concat("\n### "@ + t, "\n"@, '<');
    lemma_replace_all_absent(s16, "</b>"@, "**"@);
    let s17 = "\n### "@ + t + "\n"@;
    lemma_lacks_concat("\n### "@, t, '<');
    lemma_lacks_concat("\n### "@ + t, "\n"@, '<');
    lemma_replace_all_absent(s17, "<em>"@, "*"@);
    let s18 = "\n### "@ + t + "\n"@;
    lemma_lacks_concat("\n### "@, t, '<');
    lemma_lacks_concat("\n### "@ + t, "\n"@, '<');
    lemma_replace_all_absent(s18, "</em>"@, "*"@);
    let s19 = "\n### "@ + t + "\n"@;
    lemma_lacks_concat("\n### "@, t, '<');
    lemma_lacks_concat("\n### "@ + t, "\n"@, '<');
    lemma_replace_all_absent(s19, "<i>"@, "*"@);
    let s20 = "\n### "@ + t + "\n"@;
    lemma_lacks_concat("\n### "@, t, '<');
    lemma_lacks_concat("\n### "@ + t, "\n"@, '<');
    lemma_replace_all_absent(s20, "</i>"@, "*"@);
    let s21 = "\n### "@ + t + "\n"@;
    lemma_lacks_concat("\n### "@, t, '<');
    lemma_lacks_concat("\n### "@ + t, "\n"@, '<');
    lemma_replace_all_absent(s21, "<p>"@, "\n\n"@);
    let s22 = "\n### "@ + t + "\n"@;
    lemma_lacks_concat("\n### "@, t, '<');
    lemma_lacks_concat("\n### "@ + t, "\n"@, '<');
    lemma_replace_all_absent(s22, "</p>"@, "\n\n"@);
    let s23 = "\n### "@ + t + "\n"@;
    lemma_lacks_concat("\n### "@, t, '<');
    lemma_lacks_concat("\n### "@ + t, "\n"@, '<');
    lemma_replace_all_absent(s23, "<br>"@, "\n"@);
    let s24 = "\n### "@ + t + "\n"@;
    lemma_lacks_concat("\n### "@, t, '<');
    lemma_lacks_concat("\n### "@ + t, "\n"@, '<');
    lemma_replace_all_absent(s24, "<br/>"@, "\n"@);
    let s25 = "\n### "@ + t + "\n"@;
    lemma_lacks_concat("\n### "@, t, '<');
    lemma_lacks_concat("\n### "@ + t, "\n"@, '<');
    lemma_replace_all_absent(s25, "<br />"@, "\n"@);
    let s26 = "\n### "@ + t + "\n"@;
    lemma_lacks_concat("\n### "@, t, '<');
    lemma_lacks_concat("\n### "@ + t, "\n"@, '<');
    lemma_replace_all_absent(s26, "<li>"@, "\n- "@);
    let s27 = "\n### "@ + t + "\n"@;
    lemma_lacks_concat("\n### "@, t, '<');
    lemma_lacks_concat("\n### "@ + t, "\n"@, '<');
    lemma_replace_all_absent(s27, "</li>"@, ""@);
    let s28 = "\n### "@ + t + "\n"@;
    lemma_lacks_concat("\n### "@, t, '<');
    lemma_lacks_concat("\n### "@ + t, "\n"@, '<');
    lemma_replace_all_absent(s28, "<ul>"@, "\n"@);
    let s29 = "\n### "@ + t + "\n"@;
    lemma_lacks_concat("\n### "@, t, '<');
    lemma_lacks_concat("\n### "@ + t, "\n"@, '<');
    lemma_replace_all_absent(s29, "</ul>"@, "\n"@);
    let s30 = "\n### "@ + t + "\n"@;
    lemma_lacks_concat("\n### "@, t, '<');
    lemma_lacks_concat("\n### "@ + t, "\n"@, '<');
    lemma_replace_all_absent(s30, "<ol>"@, "\n"@);
    let s31 = "\n### "@ + t + "\n"@;
    lemma_lacks_concat("\n### "@, t, '<');
    lemma_lacks_concat("\n### "@ + t, "\n"@, '<');
    lemma_replace_all_absent(s31, "</ol>"@, "\n"@);
}

/// The markup rewrites turn `<h4>` and `</h4>` around text without `<`
/// into a level-4 Markdown heading line.
proof fn lemma_heading_markup_4(t: Seq<char>)
    requires
        lacks(t, '<'),
    ensures
        rewrite_markup("<h4>"@ + t + "</h4>"@) == "\n#### "@ + t + "\n"@,
{
    reveal_strlit("");
    reveal_strlit("\n");
    reveal_strlit("\n\n");
    reveal_strlit("\n# ");
    reveal_strlit("\n## ");
    reveal_strlit("\n### ");
    reveal_strlit("\n#### ");
    reveal_strlit("\n- ");
    reveal_strlit("\n```\n");
    reveal_strlit("\n```rust\n");
    reveal_strlit("*");
    reveal_strlit("**");
    reveal_strlit("</b>");
    reveal_strlit("</code>");
    reveal_strlit("</em>");
    reveal_strlit("</h1>");
    reveal_strlit("</h2>");
    reveal_strlit("</h3>");
    reveal_strlit("</h4>");
    reveal_strlit("</i>");
    reveal_strlit("</li>");
    reveal_strlit("</ol>");
    reveal_strlit("</p>");
    reveal_strlit("</pre>");
    reveal_strlit("</strong>");
    reveal_strlit("</ul>");
    reveal_strlit("<b>");
    reveal_strlit("<br />");
    reveal_strlit("<br/>");
    reveal_strlit("<br>");
    reveal_strlit("<code>");
    reveal_strlit("<em>");
    reveal_strlit("<h1>");
    reveal_strlit("<h2>");
    reveal_strlit("<h3>");
    reveal_strlit("<h4>");
    reveal_strlit("<i>");
    reveal_strlit("<li>");
    reveal_strlit("<ol>");
    reveal_strlit("<p>");
    reveal_strlit("<pre class=\"rust item-decl\">");
    reveal_strlit("<pre>");
    reveal_strlit("<strong>");
    reveal_strlit("<ul>");
    reveal_strlit("`");
    let s0 = "<h4>"@ + t + "</h4>"@;
    lemma_framed_unmatched("<h4>"@, t, "</h4>"@, "<pre class=\"rust item-decl\">"@);
    lemma_mismatch(s0, "<pre class=\"rust item-decl\">"@, 0, 1);
    assert(s0[("<h4>"@.len() + t.len()) as int + 1] == "</h4>"@[1]);
    lemma_mismatch(s0, "<pre class=\"rust item-decl\">"@, ("<h4>"@.len() + t.len()) as int, 1);
    lemma_replace_unmatched(s0, "<pre class=\"rust item-decl\">"@, "\n```rust\n"@);
    let s1 = "<h4>"@ + t + "</h4>"@;
    lemma_framed_unmatched("<h4>"@, t, "</h4>"@, "<pre>"@);
    lemma_mismatch(s1, "<pre>"@, 0, 1);
    assert(s1[("<h4>"@.len() + t.len()) as int + 1] == "</h4>"@[1]);
    lemma_mismatch(s1, "<pre>"@, ("<h4>"@.len() + t.len()) as int, 1);
    lemma_replace_unmatched(s1, "<pre>"@, "\n```\n"@);
    let s2 = "<h4>"@ + t + "</h4>"@;
    lemma_framed_unmatched("<h4>"@, t, "</h4>"@, "</pre>"@);
    lemma_mismatch(s2, "</pre>"@, 0, 1);
    assert(s2[("<h4>"@.len() + t.len()) as int + 2] == "</h4>"@[2]);
    lemma_mismatch(s2, "</pre>"@, ("<h4>"@.len() + t.len()) as int, 2);
    lemma_replace_unmatched(s2, "</pre>"@, "\n```\n"@);
    let s3 = "<h4>"@ + t + "</h4>"@;
    lemma_framed_unmatched("<h4>"@, t, "</h4>"@, "<code>"@);
    lemma_mismatch(s3, "<code>"@, 0, 1);
    assert(s3[("<h4>"@.len() + t.len()) as int + 1] == "</h4>"@[1]);
    lemma_mismatch(s3, "<code>"@, ("<h4>"@.len() + t.len()) as int, 1);
    lemma_replace_unmatched(s3, "<code>"@, "`"@);
    let s4 = "<h4>"@ + t + "</h4>"@;
    lemma_framed_unmatched("<h4>"@, t, "</h4>"@, "</code>"@);
    lemma_mismatch(s4, "</code>"@, 0, 1);
    assert(s4[("<h4>"@.len() + t.len()) as int + 2] == "</h4>"@[2]);
    lemma_mismatch(s4, "</code>"@, ("<h4>"@.len() + t.len()) as int, 2);
    lemma_replace_unmatched(s4, "</code>"@, "`"@);
    let s5 = "<h4>"@ + t + "</h4>"@;
    lemma_framed_unmatched("<h4>"@, t, "</h4>"@, "<h1>"@);
    lemma_mismatch(s5, "<h1>"@, 0, 2);
    assert(s5[("<h4>"@.len() + t.len()) as int + 1] == "</h4>"@[1]);
    lemma_mismatch(s5, "<h1>"@, ("<h4>"@.len() + t.len()) as int, 1);
    lemma_replace_unmatched(s5, "<h1>"@, "\n# "@);
    let s6 = "<h4>"@ + t + "</h4>"@;
    lemma_framed_unmatched("<h4>"@, t, "</h4>"@, "</h1>"@);
    lemma_mismatch(s6, "</h1>"@, 0, 1);
    assert(s6[("<h4>"@.len() + t.len()) as int + 3] == "</h4>"@[3]);
    lemma_mismatch(s6, "</h1>"@, ("<h4>"@.len() + t.len()) as int, 3);
    lemma_replace_unmatched(s6, "</h1>"@, "\n"@);
    let s7 = "<h4>"@ + t + "</h4>"@;
    lemma_framed_unmatched("<h4>"@, t, "</h4>"@, "<h2>"@);
    lemma_mismatch(s7, "<h2>"@, 0, 2);
    assert(s7[("<h4>"@.len() + t.len()) as int + 1] == "</h4>"@[1]);
    lemma_mismatch(s7, "<h2>"@, ("<h4>"@.len() + t.len()) as int, 1);
    lemma_replace_unmatched(s7, "<h2>"@, "\n## "@);
    let s8 = "<h4>"@ + t + "</h4>"@;
    lemma_framed_unmatched("<h4>"@, t, "</h4>"@, "</h2>"@);
    lemma_mismatch(s8, "</h2>"@, 0, 1);
    assert(s8[("<h4>"@.len() + t.len()) as int + 3] == "</h4>"@[3]);
    lemma_mismatch(s8, "</h2>"@, ("<h4>"@.len() + t.len()) as int, 3);
    lemma_replace_unmatched(s8, "</h2>"@, "\n"@);
    let s9 = "<h4>"@ + t + "</h4>"@;
    lemma_framed_unmatched("<h4>"@, t, "</h4>"@, "<h3>"@);
    lemma_mismatch(s9, "<h3>"@, 0, 2);
    assert(s9[("<h4>"@.len() + t.len()) as int + 1] == "</h4>"@[1]);
    lemma_mismatch(s9, "<h3>"@, ("<h4>"@.len() + t.len()) as int, 1);
    lemma_replace_unmatched(s9, "<h3>"@, "\n### "@);
    let s10 = "<h4>"@ + t + "</h4>"@;
    lemma_framed_unmatched("<h4>"@, t, "</h4>"@, "</h3>"@);
    lemma_mismatch(s10, "</h3>"@, 0, 1);
    assert(s10[("<h4>"@.len() + t.len()) as int + 3] == "</h4>"@[3]);
    lemma_mismatch(s10, "</h3>"@, ("<h4>"@.len() + t.len()) as int, 3);
    lemma_replace_unmatched(s10, "</h3>"@, "\n"@);
    let s11 = "<h4>"@ + t + "</h4>"@;
    lemma_framed_unmatched("<h4>"@, t, "</h4>"@, "<h4>"@);
    assert(s11[("<h4>"@.len() + t.len()) as int + 1] == "</h4>"@[1]);
    lemma_mismatch(s11, "<h4>"@, ("<h4>"@.len() + t.len()) as int, 1);
    assert(Seq::<char>::empty() + "<h4>"@ + (t + "</h4>"@) =~= s11);
    lemma_replace_single(Seq::<char>::empty(), "<h4>"@, t + "</h4>"@, "\n#### "@);
    assert(replace_all(s11, "<h4>"@, "\n#### "@) =~= "\n#### "@ + t + "</h4>"@);
    let s12 = "\n#### "@ + t + "</h4>"@;
    lemma_framed_unmatched("\n#### "@, t, "</h4>"@, "</h4>"@);
    lemma_mismatch(s12, "</h4>"@, 0, 0);
    assert(("\n#### "@ + t) + "</h4>"@ + Seq::<char>::empty() =~= s12);
    lemma_replace_single("\n#### "@ + t, "</h4>"@, Seq::<char>::empty(), "\n"@);
    assert(replace_all(s12, "</h4>"@, "\n"@) =~= "\n#### "@ + t + "\n"@);
    let s13 = "\n#### "@ + t + "\n"@;
    lemma_lacks_concat("\n#### "@, t, '<');
    lemma_lacks_concat("\n#### "@ + t, "\n"@, '<');
    lemma_replace_all_absent(s13, "<strong>"@, "**"@);
    let s14 = "\n#### "@ + t + "\n"@;
    lemma_lacks_concat("\n#### "@, t, '<');
    lemma_lacks_concat("\n#### "@ + t, "\n"@, '<');
    lemma_replace_all_absent(s14, "</strong>"@, "**"@);
    let s15 = "\n#### "@ + t + "\n"@;
    lemma_lacks_concat("\n#### "@, t, '<');
    lemma_lacks_concat("\n#### "@ + t, "\n"@, '<');
    lemma_replace_all_absent(s15, "<b>"@, "**"@);
    let s16 = "\n#### "@ + t + "\n"@;
    lemma_lacks_concat("\n#### "@, t, '<');
    lemma_lacks_concat("\n#### "@ + t, "\n"@, '<');
    lemma_replace_all_absent(s16, "</b>"@, "**"@);
    let s17 = "\n#### "@ + t + "\n"@;
    lemma_lacks_concat("\n#### "@, t, '<');
    lemma_lacks_concat("\n#### "@ + t, "\n"@, '<');
    lemma_replace_all_absent(s17, "<em>"@, "*"@);
    let s18 = "\n#### "@ + t + "\n"@;
    lemma_lacks_concat("\n#### "@, t, '<');
    lemma_lacks_concat("\n#### "@ + t, "\n"@, '<');
    lemma_replace_all_absent(s18, "</em>"@, "*"@);
    let s19 = "\n#### "@ + t + "\n"@;
    lemma_lacks_concat("\n#### "@, t, '<');
    lemma_lacks_concat("\n#### "@ + t, "\n"@, '<');
    lemma_replace_all_absent(s19, "<i>"@, "*"@);
    let s20 = "\n#### "@ + t + "\n"@;
    lemma_lacks_concat("\n#### "@, t, '<');
    lemma_lacks_concat("\n#### "@ + t, "\n"@, '<');
    lemma_replace_all_absent(s20, "</i>"@, "*"@);
    let s21 = "\n#### "@ + t + "\n"@;
    lemma_lacks_concat("\n#### "@, t, '<');
    lemma_lacks_concat("\n#### "@ + t, "\n"@, '<');
    lemma_replace_all_absent(s21, "<p>"@, "\n\n"@);
    let s22 = "\n#### "@ + t + "\n"@;
    lemma_lacks_concat("\n#### "@, t, '<');
    lemma_lacks_concat("\n#### "@ + t, "\n"@, '<');
    lemma_replace_all_absent(s22, "</p>"@, "\n\n"@);
    let s23 = "\n#### "@ + t + "\n"@;
    lemma_lacks_concat("\n#### "@, t, '<');
    lemma_lacks_concat("\n#### "@ + t, "\n"@, '<');
    lemma_replace_all_absent(s23, "<br>"@, "\n"@);
    let s24 = "\n#### "@ + t + "\n"@;
    lemma_lacks_concat("\n#### "@, t, '<');
    lemma_lacks_concat("\n#### "@ + t, "\n"@, '<');
    lemma_replace_all_absent(s24, "<br/>"@, "\n"@);
    let s25 = "\n#### "@ + t + "\n"@;
    lemma_lacks_concat("\n#### "@, t, '<');
    lemma_lacks_concat("\n#### "@ + t, "\n"@, '<');
    lemma_replace_all_absent(s25, "<br />"@, "\n"@);
    let s26 = "\n#### "@ + t + "\n"@;
    lemma_lacks_concat("\n#### "@, t, '<');
    lemma_lacks_concat("\n#### "@ + t, "\n"@, '<');
    lemma_replace_all_absent(s26, "<li>"@, "\n- "@);
    let s27 = "\n#### "@ + t + "\n"@;
    lemma_lacks_concat("\n#### "@, t, '<');
    lemma_lacks_concat("\n#### "@ + t, "\n"@, '<');
    lemma_replace_all_absent(s27, "</li>"@, ""@);
    let s28 = "\n#### "@ + t + "\n"@;
    lemma_lacks_concat("\n#### "@, t, '<');
    lemma_lacks_concat("\n#### "@ + t, "\n"@, '<');
    lemma_replace_all_absent(s28, "<ul>"@, "\n"@);
    let s29 = "\n#### "@ + t + "\n"@;
    lemma_lacks_concat("\n#### "@, t, '<');
    lemma_lacks_concat("\n#### "@ + t, "\n"@, '<');
    lemma_replace_all_absent(s29, "</ul>"@, "\n"@);
    let s30 = "\n#### "@ + t + "\n"@;
    lemma_lacks_concat("\n#### "@, t, '<');
    lemma_lacks_concat("\n#### "@ + t, "\n"@, '<');
    lemma_replace_all_absent(s30, "<ol>"@, "\n"@);
    let s31 = "\n#### "@ + t + "\n"@;
    lemma_lacks_concat("\n#### "@, t, '<');
    lemma_lacks_concat("\n#### "@ + t, "\n"@, '<');
    lemma_replace_all_absent(s31, "</ol>"@, "\n"@);
}


/// A heading of level 1 to 4 becomes a Markdown heading of as many `#`:
/// `<hN>text</hN>` gives `N` times `#`, a space and the text, for any
/// non-empty text without markup, entities or untidy whitespace.
pub proof fn lemma_heading_levels(t: Seq<char>)
    requires
        t.len() > 0,
        is_clean_text(t),
        lacks(t, '<'),
        lacks(t, '>'),
        lacks(t, '&'),
    ensures
        markdown_of("<h1>"@ + t + "</h1>"@) == "# "@ + t,
        markdown_of("<h2>"@ + t + "</h2>"@) == "## "@ + t,
        markdown_of("<h3>"@ + t + "</h3>"@) == "### "@ + t,
        markdown_of("<h4>"@ + t + "</h4>"@) == "#### "@ + t,
{
    reveal_strlit("<h1>");
    reveal_strlit("</h1>");
    reveal_strlit("<h2>");
    reveal_strlit("</h2>");
    reveal_strlit("<h3>");
    reveal_strlit("</h3>");
    reveal_strlit("<h4>");
    reveal_strlit("</h4>");
    reveal_strlit("\n# ");
    reveal_strlit("\n## ");
    reveal_strlit("\n### ");
    reveal_strlit("\n#### ");
    reveal_strlit("# ");
    reveal_strlit("## ");
    reveal_strlit("### ");
    reveal_strlit("#### ");
    reveal_strlit("\n");
    lemma_heading_markup_1(t);
    lemma_heading_rest("<h1>"@, "</h1>"@, "\n# "@, t);
    assert("\n# "@.drop_first() =~= "# "@);
    lemma_heading_markup_2(t);
    lemma_heading_rest("<h2>"@, "</h2>"@, "\n## "@, t);
    assert("\n## "@.drop_first() =~= "## "@);
    lemma_heading_markup_3(t);
    lemma_heading_rest("<h3>"@, "</h3>"@, "\n### "@, t);
    assert("\n### "@.drop_first() =~= "### "@);
    lemma_heading_markup_4(t);
    lemma_heading_rest("<h4>"@, "</h4>"@, "\n#### "@, t);
    assert("\n#### "@.drop_first() =~= "#### "@);
}

/// The steps after the markup rewrites, for a heading: a newline, the
/// `#` marks and a space, then the text, then a newline, become the marks,
/// the space and the text.
proof fn lemma_heading_rest(open: Seq<char>, close: Seq<char>, marks: Seq<char>, t: Seq<char>)
    requires
        t.len() > 0,
        is_clean_text(t),
        lacks(t, '<'),
        lacks(t, '>'),
        lacks(t, '&'),
        open.len() > 1 && open[0] == '<' && open[1] == 'h',
        close.len() > 1 && close[0] == '<' && close[1] == '/',
        forall|i: int| 0 < i < open.len() ==> open[i] != '<',
        forall|i: int| 0 < i < close.len() ==> close[i] != '<',
        rewrite_markup(open + t + close) == marks + t + "\n"@,
        marks.len() >= 3,
        marks[0] == '\n',
        marks[1] == '#',
        marks.last() == ' ',
        forall|i: int| 1 <= i < marks.len() - 1 ==> marks[i] == '#',
    ensures
        markdown_of(open + t + close) == marks.drop_first() + t,
{
    reveal_strlit("\n");
    let s = open + t + close;
    let e = (open.len() + t.len()) as int;
    reveal_strlit("script");
    reveal_strlit("style");
    reveal_strlit("noscript");
    assert(s[1] == 'h' && s[e + 1] == '/');
    assert(s[0] == '<' && s[e] == '<');
    lemma_framed_unmatched(open, t, close, open_tag("script"@));
    lemma_mismatch(s, open_tag("script"@), 0, 1);
    lemma_mismatch(s, open_tag("script"@), e, 1);
    lemma_find(s, open_tag("script"@));
    lemma_framed_unmatched(open, t, close, open_tag("style"@));
    lemma_mismatch(s, open_tag("style"@), 0, 1);
    lemma_mismatch(s, open_tag("style"@), e, 1);
    lemma_find(s, open_tag("style"@));
    lemma_framed_unmatched(open, t, close, open_tag("noscript"@));
    lemma_mismatch(s, open_tag("noscript"@), 0, 1);
    lemma_mismatch(s, open_tag("noscript"@), e, 1);
    lemma_find(s, open_tag("noscript"@));
    assert(remove_tagged(s, "script"@) == s);
    assert(remove_tagged(s, "style"@) == s);
    assert(remove_tagged(s, "noscript"@) == s);
    let r = marks + t + "\n"@;
    assert(lacks(marks, '<') && lacks(marks, '>') && lacks(marks, '&'));
    assert(lacks("\n"@, '<') && lacks("\n"@, '>') && lacks("\n"@, '&'));
    lemma_lacks_concat(marks, t, '<');
    lemma_lacks_concat(marks + t, "\n"@, '<');
    lemma_lacks_concat(marks, t, '>');
    lemma_lacks_concat(marks + t, "\n"@, '>');
    lemma_lacks_concat(marks, t, '&');
    lemma_lacks_concat(marks + t, "\n"@, '&');
    lemma_links_absent(r);
    lemma_strip_absent(r);
    lemma_decode_absent(r);
    // The spacing of `r` is clean, so the cleanup only trims it.
    assert(is_ws(' ') && is_ws('\n') && !is_ws('#'));
    assert forall|i: int| 0 <= i < marks.len() && is_ws(#[trigger] marks[i]) implies marks[i]
        == ' ' || marks[i] == '\n' by {
        if 1 <= i < marks.len() - 1 {
            assert(marks[i] == '#');
        }
    }
    assert forall|i: int, j: int|
        #![trigger marks[i], marks[j]]
        0 <= i && j == i + 1 && j < marks.len() implies !(marks[i] == ' ' && marks[j] == ' ') by {
        assert(marks[i] != ' ');
    }
    assert forall|i: int, j: int, k: int|
        #![trigger marks[i], marks[j], marks[k]]
        0 <= i && j == i + 1 && k == j + 1 && k < marks.len() implies !(marks[i] == '\n'
            && marks[j] == '\n' && marks[k] == '\n') by {
        assert(marks[j] == '#');
    }
    lemma_spacing_concat(marks, t);
    assert(only_spaces_and_newlines("\n"@) && no_double_space("\n"@) && no_triple_newline(
        "\n"@,
    ));
    assert((marks + t).last() == t.last());
    lemma_spacing_concat(marks + t, "\n"@);
    lemma_cleanup_state_clean(r);
    let u = r.drop_first();
    assert(u[0] == '#');
    assert(trim_start(r) == trim_start(u));
    assert(trim_start(u) == u);
    let v = u.drop_last();
    assert(u.last() == '\n');
    assert(v =~= marks.drop_first() + t);
    assert(v.last() == t.last());
    assert(trim_end(u) == trim_end(v));
    assert(trim_end(v) == v);
}

// ---------------------------------------------------------------------------
// Entities
// ---------------------------------------------------------------------------

/// In `a + q + b`, where only `q` starts with `c` and neither `a`, `b` nor
/// the rest of `q` holds it, `c` occurs only at the start of `q`.
pub proof fn lemma_only_at(a: Seq<char>, q: Seq<char>, b: Seq<char>, c: char)
    requires
        lacks(a, c),
        lacks(b, c),
        q.len() > 0,
        q[0] == c,
        forall|i: int| 0 < i < q.len() ==> q[i] != c,
    ensures
        forall|j: int|
            0 <= j < (a + q + b).len() && j != a.len() ==> #[trigger] (a + q + b)[j] != c,
{
    let s = a + q + b;
    assert forall|j: int| 0 <= j < s.len() && j != a.len() implies #[trigger] s[j] != c by {
        if j < a.len() {
            assert(s[j] == a[j]);
        } else if j < a.len() + q.len() {
            assert(s[j] == q[j - a.len()]);
        } else {
            assert(s[j] == b[j - a.len() - q.len()]);
        }
    }
}

/// A pattern whose first character occurs only where the pattern itself
/// stands is replaced there and nowhere else.
pub proof fn lemma_replace_only_at(a: Seq<char>, q: Seq<char>, b: Seq<char>, r: Seq<char>)
    requires
        q.len() > 0,
        forall|j: int| 0 <= j < (a + q + b).len() && j != a.len() ==> #[trigger] (a + q + b)[j] != q[0],
    ensures
        replace_all(a + q + b, q, r) == a + r + b,
{
    let s = a + q + b;
    assert forall|j: int| 0 <= j < s.len() && j != a.len() implies !#[trigger] matches_at(s, q, j) by {
        if matches_at(s, q, j) {
            lemma_match_needs_first(s, q, j);
        }
    }
    lemma_replace_single(a, q, b, r);
}

/// A pattern that does not match where its first character occurs is not
/// replaced anywhere.
pub proof fn lemma_replace_unmatched_first(s: Seq<char>, p: Seq<char>, r: Seq<char>, e: int)
    requires
        p.len() > 0,
        !matches_at(s, p, e),
        forall|j: int| 0 <= j < s.len() && j != e ==> #[trigger] s[j] != p[0],
    ensures
        replace_all(s, p, r) == s,
{
    assert forall|j: int| 0 <= j < s.len() implies !#[trigger] matches_at(s, p, j) by {
        if j != e && matches_at(s, p, j) {
            lemma_match_needs_first(s, p, j);
        }
    }
    lemma_replace_unmatched(s, p, r);
}

/// A pattern matching at the `&` of `a + "&" + b` continues into `b`.
pub proof fn lemma_amp_prefix(a: Seq<char>, b: Seq<char>, p: Seq<char>)
    requires
        p.len() > 1,
        matches_at(a + "&"@ + b, p, a.len() as int),
    ensures
        matches_at(b, p.skip(1), 0),
{
    reveal_strlit("&");
    let s = a + "&"@ + b;
    let e = a.len() as int;
    assert(s.subrange(e + 1, e + p.len()) =~= b.subrange(0, p.len() - 1));
    assert(s.subrange(e, e + p.len()).skip(1) =~= s.subrange(e + 1, e + p.len()));
}

/// Each entity, between texts without `&`, decodes to its character:
/// `&lt;` to `<`, `&gt;` to `>`, `&quot;` to `"`, `&#39;` and `&apos;` to
/// `'`, `&nbsp;` to a space, and `&amp;` to `&`, decoded once: the `&` it
/// leaves is read again only when the name of a later entity follows it.
pub proof fn lemma_decode_entity(a: Seq<char>, b: Seq<char>)
    requires
        lacks(a, '&'),
        lacks(b, '&'),
    ensures
        decode_entities(a + "&lt;"@ + b) == a + "<"@ + b,
        decode_entities(a + "&gt;"@ + b) == a + ">"@ + b,
        (!matches_at(b, "quot;"@, 0) && !matches_at(b, "#39;"@, 0) && !matches_at(b, "apos;"@, 0) && !matches_at(b, "nbsp;"@, 0)) ==> decode_entities(a + "&amp;"@ + b) == a + "&"@ + b,
        decode_entities(a + "&quot;"@ + b) == a + "\""@ + b,
        decode_entities(a + "&#39;"@ + b) == a + "'"@ + b,
        decode_entities(a + "&apos;"@ + b) == a + "'"@ + b,
        decode_entities(a + "&nbsp;"@ + b) == a + " "@ + b,
{
    lemma_decode_entity_one(a, b, 0);
    lemma_decode_entity_one(a, b, 1);
    if !matches_at(b, "quot;"@, 0) && !matches_at(b, "#39;"@, 0) && !matches_at(b, "apos;"@, 0) && !matches_at(b, "nbsp;"@, 0) {
        lemma_decode_entity_one(a, b, 2);
    }
    lemma_decode_entity_one(a, b, 3);
    lemma_decode_entity_one(a, b, 4);
    lemma_decode_entity_one(a, b, 5);
    lemma_decode_entity_one(a, b, 6);
}

proof fn lemma_decode_entity_one(a: Seq<char>, b: Seq<char>, n: int)
    requires
        lacks(a, '&'),
        lacks(b, '&'),
        0 <= n < 7,
        n == 2 ==> (!matches_at(b, "quot;"@, 0) && !matches_at(b, "#39;"@, 0) && !matches_at(b, "apos;"@, 0) && !matches_at(b, "nbsp;"@, 0)),
    ensures
        n == 0 ==> decode_entities(a + "&lt;"@ + b) == a + "<"@ + b,
        n == 1 ==> decode_entities(a + "&gt;"@ + b) == a + ">"@ + b,
        n == 2 ==> decode_entities(a + "&amp;"@ + b) == a + "&"@ + b,
        n == 3 ==> decode_entities(a + "&quot;"@ + b) == a + "\""@ + b,
        n == 4 ==> decode_entities(a + "&#39;"@ + b) == a + "'"@ + b,
        n == 5 ==> decode_entities(a + "&apos;"@ + b) == a + "'"@ + b,
        n == 6 ==> decode_entities(a + "&nbsp;"@ + b) == a + " "@ + b,
{
    reveal_strlit(" ");
    reveal_strlit("\"");
    reveal_strlit("#39;");
    reveal_strlit("&");
    reveal_strlit("&#39;");
    reveal_strlit("&amp;");
    reveal_strlit("&apos;");
    reveal_strlit("&gt;");
    reveal_strlit("&lt;");
    reveal_strlit("&nbsp;");
    reveal_strlit("&quot;");
    reveal_strlit("'");
    reveal_strlit("<");
    reveal_strlit(">");
    reveal_strlit("amp;");
    reveal_strlit("apos;");
    reveal_strlit("gt;");
    reveal_strlit("lt;");
    reveal_strlit("nbsp;");
    reveal_strlit("quot;");
    let e = a.len() as int;
    if n == 0 {
        let s = a + "&lt;"@ + b;
        lemma_only_at(a, "&lt;"@, b, '&');
        lemma_replace_only_at(a, "&lt;"@, b, "<"@);
        let s2 = a + "<"@ + b;
        lemma_lacks_concat(a, "<"@, '&');
        lemma_lacks_concat(a + "<"@, b, '&');
        lemma_replace_all_absent(s2, "&gt;"@, ">"@);
        lemma_lacks_concat(a, "<"@, '&');
        lemma_lacks_concat(a + "<"@, b, '&');
        lemma_replace_all_absent(s2, "&amp;"@, "&"@);
        lemma_lacks_concat(a, "<"@, '&');
        lemma_lacks_concat(a + "<"@, b, '&');
        lemma_replace_all_absent(s2, "&quot;"@, "\""@);
        lemma_lacks_concat(a, "<"@, '&');
        lemma_lacks_concat(a + "<"@, b, '&');
        lemma_replace_all_absent(s2, "&#39;"@, "'"@);
        lemma_lacks_concat(a, "<"@, '&');
        lemma_lacks_concat(a + "<"@, b, '&');
        lemma_replace_all_absent(s2, "&apos;"@, "'"@);
        lemma_lacks_concat(a, "<"@, '&');
        lemma_lacks_concat(a + "<"@, b, '&');
        lemma_replace_all_absent(s2, "&nbsp;"@, " "@);
    }
    if n == 1 {
        let s = a + "&gt;"@ + b;
        lemma_only_at(a, "&gt;"@, b, '&');
        assert(s[e + 1] == "&gt;"@[1]);
        lemma_mismatch(s, "&lt;"@, e, 1);
        lemma_replace_unmatched_first(s, "&lt;"@, "<"@, e);
        lemma_replace_only_at(a, "&gt;"@, b, ">"@);
        let s2 = a + ">"@ + b;
        lemma_lacks_concat(a, ">"@, '&');
        lemma_lacks_concat(a + ">"@, b, '&');
        lemma_replace_all_absent(s2, "&amp;"@, "&"@);
        lemma_lacks_concat(a, ">"@, '&');
        lemma_lacks_concat(a + ">"@, b, '&');
        lemma_replace_all_absent(s2, "&quot;"@, "\""@);
        lemma_lacks_concat(a, ">"@, '&');
        lemma_lacks_concat(a + ">"@, b, '&');
        lemma_replace_all_absent(s2, "&#39;"@, "'"@);
        lemma_lacks_concat(a, ">"@, '&');
        lemma_lacks_concat(a + ">"@, b, '&');
        lemma_replace_all_absent(s2, "&apos;"@, "'"@);
        lemma_lacks_concat(a, ">"@, '&');
        lemma_lacks_concat(a + ">"@, b, '&');
        lemma_replace_all_absent(s2, "&nbsp;"@, " "@);
    }
    if n == 2 {
        let s = a + "&amp;"@ + b;
        lemma_only_at(a, "&amp;"@, b, '&');
        assert(s[e + 1] == "&amp;"@[1]);
        lemma_mismatch(s, "&lt;"@, e, 1);
        lemma_replace_unmatched_first(s, "&lt;"@, "<"@, e);
        assert(s[e + 1] == "&amp;"@[1]);
        lemma_mismatch(s, "&gt;"@, e, 1);
        lemma_replace_unmatched_first(s, "&gt;"@, ">"@, e);
        lemma_replace_only_at(a, "&amp;"@, b, "&"@);
        let s2 = a + "&"@ + b;
        if matches_at(s2, "&quot;"@, e) {
            lemma_amp_prefix(a, b, "&quot;"@);
            assert("&quot;"@.skip(1) =~= "quot;"@);
        }
        lemma_only_at(a, "&"@, b, '&');
        lemma_replace_unmatched_first(s2, "&quot;"@, "\""@, e);
        if matches_at(s2, "&#39;"@, e) {
            lemma_amp_prefix(a, b, "&#39;"@);
            assert("&#39;"@.skip(1) =~= "#39;"@);
        }
        lemma_only_at(a, "&"@, b, '&');
        lemma_replace_unmatched_first(s2, "&#39;"@, "'"@, e);
        if matches_at(s2, "&apos;"@, e) {
            lemma_amp_prefix(a, b, "&apos;"@);
            assert("&apos;"@.skip(1) =~= "apos;"@);
        }
        lemma_only_at(a, "&"@, b, '&');
        lemma_replace_unmatched_first(s2, "&apos;"@, "'"@, e);
        if matches_at(s2, "&nbsp;"@, e) {
            lemma_amp_prefix(a, b, "&nbsp;"@);
            assert("&nbsp;"@.skip(1) =~= "nbsp;"@);
        }
        lemma_only_at(a, "&"@, b, '&');
        lemma_replace_unmatched_first(s2, "&nbsp;"@, " "@, e);
    }
    if n == 3 {
        let s = a + "&quot;"@ + b;
        lemma_only_at(a, "&quot;"@, b, '&');
        assert(s[e + 1] == "&quot;"@[1]);
        lemma_mismatch(s, "&lt;"@, e, 1);
        lemma_replace_unmatched_first(s, "&lt;"@, "<"@, e);
        assert(s[e + 1] == "&quot;"@[1]);
        lemma_mismatch(s, "&gt;"@, e, 1);
        lemma_replace_unmatched_first(s, "&gt;"@, ">"@, e);
        assert(s[e + 1] == "&quot;"@[1]);
        lemma_mismatch(s, "&amp;"@, e, 1);
        lemma_replace_unmatched_first(s, "&amp;"@, "&"@, e);
        lemma_replace_only_at(a, "&quot;"@, b, "\""@);
        let s2 = a + "\""@ + b;
        lemma_lacks_concat(a, "\""@, '&');
        lemma_lacks_concat(a + "\""@, b, '&');
        lemma_replace_all_absent(s2, "&#39;"@, "'"@);
        lemma_lacks_concat(a, "\""@, '&');
        lemma_lacks_concat(a + "\""@, b, '&');
        lemma_replace_all_absent(s2, "&apos;"@, "'"@);
        lemma_lacks_concat(a, "\""@, '&');
        lemma_lacks_concat(a + "\""@, b, '&');
        lemma_replace_all_absent(s2, "&nbsp;"@, " "@);
    }
    if n == 4 {
        let s = a + "&#39;"@ + b;
        lemma_only_at(a, "&#39;"@, b, '&');
        assert(s[e + 1] == "&#39;"@[1]);
        lemma_mismatch(s, "&lt;"@, e, 1);
        lemma_replace_unmatched_first(s, "&lt;"@, "<"@, e);
        assert(s[e + 1] == "&#39;"@[1]);
        lemma_mismatch(s, "&gt;"@, e, 1);
        lemma_replace_unmatched_first(s, "&gt;"@, ">"@, e);
        assert(s[e + 1] == "&#39;"@[1]);
        lemma_mismatch(s, "&amp;"@, e, 1);
        lemma_replace_unmatched_first(s, "&amp;"@, "&"@, e);
        assert(s[e + 1] == "&#39;"@[1]);
        lemma_mismatch(s, "&quot;"@, e, 1);
        lemma_replace_unmatched_first(s, "&quot;"@, "\""@, e);
        lemma_replace_only_at(a, "&#39;"@, b, "'"@);
        let s2 = a + "'"@ + b;
        lemma_lacks_concat(a, "'"@, '&');
        lemma_lacks_concat(a + "'"@, b, '&');
        lemma_replace_all_absent(s2, "&apos;"@, "'"@);
        lemma_lacks_concat(a, "'"@, '&');
        lemma_lacks_concat(a + "'"@, b, '&');
        lemma_replace_all_absent(s2, "&nbsp;"@, " "@);
    }
    if n == 5 {
        let s = a + "&apos;"@ + b;
        lemma_only_at(a, "&apos;"@, b, '&');
        assert(s[e + 1] == "&apos;"@[1]);
        lemma_mismatch(s, "&lt;"@, e, 1);
        lemma_replace_unmatched_first(s, "&lt;"@, "<"@, e);
        assert(s[e + 1] == "&apos;"@[1]);
        lemma_mismatch(s, "&gt;"@, e, 1);
        lemma_replace_unmatched_first(s, "&gt;"@, ">"@, e);
        assert(s[e + 2] == "&apos;"@[2]);
        lemma_mismatch(s, "&amp;"@, e, 2);
        lemma_replace_unmatched_first(s, "&amp;"@, "&"@, e);
        assert(s[e + 1] == "&apos;"@[1]);
        lemma_mismatch(s, "&quot;"@, e, 1);
        lemma_replace_unmatched_first(s, "&quot;"@, "\""@, e);
        assert(s[e + 1] == "&apos;"@[1]);
        lemma_mismatch(s, "&#39;"@, e, 1);
        lemma_replace_unmatched_first(s, "&#39;"@, "'"@, e);
        lemma_replace_only_at(a, "&apos;"@, b, "'"@);
        let s2 = a + "'"@ + b;
        lemma_lacks_concat(a, "'"@, '&');
        lemma_lacks_concat(a + "'"@, b, '&');
        lemma_replace_all_absent(s2, "&nbsp;"@, " "@);
    }
    if n == 6 {
        let s = a + "&nbsp;"@ + b;
        lemma_only_at(a, "&nbsp;"@, b, '&');
        assert(s[e + 1] == "&nbsp;"@[1]);
        lemma_mismatch(s, "&lt;"@, e, 1);
        lemma_replace_unmatched_first(s, "&lt;"@, "<"@, e);
        assert(s[e + 1] == "&nbsp;"@[1]);
        lemma_mismatch(s, "&gt;"@, e, 1);
        lemma_replace_unmatched_first(s, "&gt;"@, ">"@, e);
        assert(s[e + 1] == "&nbsp;"@[1]);
        lemma_mismatch(s, "&amp;"@, e, 1);
        lemma_replace_unmatched_first(s, "&amp;"@, "&"@, e);
        assert(s[e + 1] == "&nbsp;"@[1]);
        lemma_mismatch(s, "&quot;"@, e, 1);
        lemma_replace_unmatched_first(s, "&quot;"@, "\""@, e);
        assert(s[e + 1] == "&nbsp;"@[1]);
        lemma_mismatch(s, "&#39;"@, e, 1);
        lemma_replace_unmatched_first(s, "&#39;"@, "'"@, e);
        assert(s[e + 1] == "&nbsp;"@[1]);
        lemma_mismatch(s, "&apos;"@, e, 1);
        lemma_replace_unmatched_first(s, "&apos;"@, "'"@, e);
        lemma_replace_only_at(a, "&nbsp;"@, b, " "@);
        let s2 = a + " "@ + b;
    }
}

// ---------------------------------------------------------------------------
// Elements
// ---------------------------------------------------------------------------

/// Trimming text framed by whitespace gives the trimmed text inside.
proof fn lemma_trim_frame(u: Seq<char>, m: Seq<char>, v: Seq<char>)
    requires
        forall|i: int| 0 <= i < u.len() ==> is_ws(#[trigger] u[i]),
        forall|i: int| 0 <= i < v.len() ==> is_ws(#[trigger] v[i]),
        m.len() > 0,
        is_trimmed(m),
    ensures
        trim(u + m + v) == m,
{
    lemma_trim_start_frame(u, m + v);
    assert(u + m + v =~= u + (m + v));
    lemma_trim_end_frame(m, v);
}

proof fn lemma_trim_start_frame(u: Seq<char>, w: Seq<char>)
    requires
        forall|i: int| 0 <= i < u.len() ==> is_ws(#[trigger] u[i]),
        w.len() > 0,
        !is_ws(w[0]),
    ensures
        trim_start(u + w) == w,
    decreases u.len(),
{
    if u.len() > 0 {
        assert((u + w)[0] == u[0]);
        assert((u + w).drop_first() =~= u.drop_first() + w);
        assert forall|i: int| 0 <= i < u.drop_first().len() implies is_ws(
            #[trigger] u.drop_first()[i],
        ) by {
            assert(u.drop_first()[i] == u[i + 1]);
        }
        lemma_trim_start_frame(u.drop_first(), w);
    } else {
        assert(u + w =~= w);
    }
}

proof fn lemma_trim_end_frame(w: Seq<char>, v: Seq<char>)
    requires
        forall|i: int| 0 <= i < v.len() ==> is_ws(#[trigger] v[i]),
        w.len() > 0,
        !is_ws(w.last()),
    ensures
        trim_end(w + v) == w,
    decreases v.len(),
{
    if v.len() > 0 {
        assert((w + v).last() == v.last());
        assert(is_ws(v[v.len() - 1]));
        assert((w + v).drop_last() =~= w + v.drop_last());
        assert forall|i: int| 0 <= i < v.drop_last().len() implies is_ws(
            #[trigger] v.drop_last()[i],
        ) by {
            assert(v.drop_last()[i] == v[i]);
        }
        lemma_trim_end_frame(w, v.drop_last());
    } else {
        assert(w + v =~= w);
    }
}

/// The steps after the markup rewrites, for an element around plain text
/// that the rewrites turned into text without tags or entities, between
/// parts with clean spacing: the result is that text, trimmed.
proof fn lemma_element_rest(
    open: Seq<char>,
    close: Seq<char>,
    pre: Seq<char>,
    post: Seq<char>,
    t: Seq<char>,
)
    requires
        t.len() > 0,
        is_clean_text(t),
        lacks(t, '<'),
        lacks(t, '>'),
        lacks(t, '&'),
        open.len() > 0 && open[0] == '<',
        close.len() > 1 && close[0] == '<' && close[1] == '/',
        forall|i: int| 0 < i < open.len() ==> open[i] != '<',
        forall|i: int| 0 < i < close.len() ==> close[i] != '<',
        !matches_at(open + t + close, open_tag("script"@), 0),
        !matches_at(open + t + close, open_tag("style"@), 0),
        !matches_at(open + t + close, open_tag("noscript"@), 0),
        rewrite_markup(open + t + close) == pre + t + post,
        lacks(pre, '<') && lacks(pre, '>') && lacks(pre, '&'),
        lacks(post, '<') && lacks(post, '>') && lacks(post, '&'),
        only_spaces_and_newlines(pre) && no_double_space(pre) && no_triple_newline(pre),
        only_spaces_and_newlines(post) && no_double_space(post) && no_triple_newline(post),
    ensures
        markdown_of(open + t + close) == trim(pre + t + post),
{
    let s = open + t + close;
    let e = (open.len() + t.len()) as int;
    reveal_strlit("script");
    reveal_strlit("style");
    reveal_strlit("noscript");
    assert(s[e] == '<' && s[e + 1] == '/');
    lemma_framed_unmatched(open, t, close, open_tag("script"@));
    lemma_mismatch(s, open_tag("script"@), e, 1);
    lemma_find(s, open_tag("script"@));
    lemma_framed_unmatched(open, t, close, open_tag("style"@));
    lemma_mismatch(s, open_tag("style"@), e, 1);
    lemma_find(s, open_tag("style"@));
    lemma_framed_unmatched(open, t, close, open_tag("noscript"@));
    lemma_mismatch(s, open_tag("noscript"@), e, 1);
    lemma_find(s, open_tag("noscript"@));
    assert(remove_tagged(s, "script"@) == s);
    assert(remove_tagged(s, "style"@) == s);
    assert(remove_tagged(s, "noscript"@) == s);
    let r = pre + t + post;
    lemma_lacks_concat(pre, t, '<');
    lemma_lacks_concat(pre + t, post, '<');
    lemma_lacks_concat(pre, t, '>');
    lemma_lacks_concat(pre + t, post, '>');
    lemma_lacks_concat(pre, t, '&');
    lemma_lacks_concat(pre + t, post, '&');
    lemma_links_absent(r);
    lemma_strip_absent(r);
    lemma_decode_absent(r);
    lemma_spacing_concat(pre, t);
    assert((pre + t).last() == t.last());
    lemma_spacing_concat(pre + t, post);
    lemma_cleanup_state_clean(r);
}

/// The markup rewrites turn `<pre class="rust item-decl">` and `</pre>` around text without `<` into
/// their Markdown forms.
proof fn lemma_element_markup_pre_decl(t: Seq<char>)
    requires
        lacks(t, '<'),
    ensures
        rewrite_markup("<pre class=\"rust item-decl\">"@ + t + "</pre>"@) == "\n```rust\n"@ + t + "\n```\n"@,
{
    reveal_strlit("");
    reveal_strlit("\n");
    reveal_strlit("\n\n");
    reveal_strlit("\n# ");
    reveal_strlit("\n## ");
    reveal_strlit("\n### ");
    reveal_strlit("\n#### ");
    reveal_strlit("\n- ");
    reveal_strlit("\n```\n");
    reveal_strlit("\n```rust\n");
    reveal_strlit("*");
    reveal_strlit("**");
    reveal_strlit("</b>");
    reveal_strlit("</code>");
    reveal_strlit("</em>");
    reveal_strlit("</h1>");
    reveal_strlit("</h2>");
    reveal_strlit("</h3>");
    reveal_strlit("</h4>");
    reveal_strlit("</i>");
    reveal_strlit("</li>");
    reveal_strlit("</ol>");
    reveal_strlit("</p>");
    reveal_strlit("</pre>");
    reveal_strlit("</strong>");
    reveal_strlit("</ul>");
    reveal_strlit("<b>");
    reveal_strlit("<br />");
    reveal_strlit("<br/>");
    reveal_strlit("<br>");
    reveal_strlit("<code>");
    reveal_strlit("<em>");
    reveal_strlit("<h1>");
    reveal_strlit("<h2>");
    reveal_strlit("<h3>");
    reveal_strlit("<h4>");
    reveal_strlit("<i>");
    reveal_strlit("<li>");
    reveal_strlit("<ol>");
    reveal_strlit("<p>");
    reveal_strlit("<pre class=\"rust item-decl\">");
    reveal_strlit("<pre>");
    reveal_strlit("<strong>");
    reveal_strlit("<ul>");
    reveal_strlit("`");
    let s0 = "<pre class=\"rust item-decl\">"@ + t + "</pre>"@;
    lemma_framed_unmatched("<pre class=\"rust item-decl\">"@, t, "</pre>"@, "<pre class=\"rust item-decl\">"@);
    assert(s0[("<pre class=\"rust item-decl\">"@.len() + t.len()) as int + 1] == "</pre>"@[1]);
    lemma_mismatch(s0, "<pre class=\"rust item-decl\">"@, ("<pre class=\"rust item-decl\">"@.len() + t.len()) as int, 1);
    assert(Seq::<char>::empty() + "<pre class=\"rust item-decl\">"@ + (t + "</pre>"@) =~= s0);
    lemma_replace_single(Seq::<char>::empty(), "<pre class=\"rust item-decl\">"@, t + "</pre>"@, "\n```rust\n"@);
    assert(replace_all(s0, "<pre class=\"rust item-decl\">"@, "\n```rust\n"@) =~= "\n```rust\n"@ + t + "</pre>"@);
    let s1 = "\n```rust\n"@ + t + "</pre>"@;
    lemma_framed_unmatched("\n```rust\n"@, t, "</pre>"@, "<pre>"@);
    lemma_mismatch(s1, "<pre>"@, 0, 0);
    assert(s1[("\n```rust\n"@.len() + t.len()) as int + 1] == "</pre>"@[1]);
    lemma_mismatch(s1, "<pre>"@, ("\n```rust\n"@.len() + t.len()) as int, 1);
    lemma_replace_unmatched(s1, "<pre>"@, "\n```\n"@);
    let s2 = "\n```rust\n"@ + t + "</pre>"@;
    lemma_framed_unmatched("\n```rust\n"@, t, "</pre>"@, "</pre>"@);
    lemma_mismatch(s2, "</pre>"@, 0, 0);
    assert(("\n```rust\n"@ + t) + "</pre>"@ + Seq::<char>::empty() =~= s2);
    lemma_replace_single("\n```rust\n"@ + t, "</pre>"@, Seq::<char>::empty(), "\n```\n"@);
    assert(replace_all(s2, "</pre>"@, "\n```\n"@) =~= "\n```rust\n"@ + t + "\n```\n"@);
    let s3 = "\n```rust\n"@ + t + "\n```\n"@;
    lemma_lacks_concat("\n```rust\n"@, t, '<');
    lemma_lacks_concat("\n```rust\n"@ + t, "\n```\n"@, '<');
    lemma_replace_all_absent(s3, "<code>"@, "`"@);
    let s4 = "\n```rust\n"@ + t + "\n```\n"@;
    lemma_lacks_concat("\n```rust\n"@, t, '<');
    lemma_lacks_concat("\n```rust\n"@ + t, "\n```\n"@, '<');
    lemma_replace_all_absent(s4, "</code>"@, "`"@);
    let s5 = "\n```rust\n"@ + t + "\n```\n"@;
    lemma_lacks_concat("\n```rust\n"@, t, '<');
    lemma_lacks_concat("\n```rust\n"@ + t, "\n```\n"@, '<');
    lemma_replace_all_absent(s5, "<h1>"@, "\n# "@);
    let s6 = "\n```rust\n"@ + t + "\n```\n"@;
    lemma_lacks_concat("\n```rust\n"@, t, '<');
    lemma_lacks_concat("\n```rust\n"@ + t, "\n```\n"@, '<');
    lemma_replace_all_absent(s6, "</h1>"@, "\n"@);
    let s7 = "\n```rust\n"@ + t + "\n```\n"@;
    lemma_lacks_concat("\n```rust\n"@, t, '<');
    lemma_lacks_concat("\n```rust\n"@ + t, "\n```\n"@, '<');
    lemma_replace_all_absent(s7, "<h2>"@, "\n## "@);
    let s8 = "\n```rust\n"@ + t + "\n```\n"@;
    lemma_lacks_concat("\n```rust\n"@, t, '<');
    lemma_lacks_concat("\n```rust\n"@ + t, "\n```\n"@, '<');
    lemma_replace_all_absent(s8, "</h2>"@, "\n"@);
    let s9 = "\n```rust\n"@ + t + "\n```\n"@;
    lemma_lacks_concat("\n```rust\n"@, t, '<');
    lemma_lacks_concat("\n```rust\n"@ + t, "\n```\n"@, '<');
    lemma_replace_all_absent(s9, "<h3>"@, "\n### "@);
    let s10 = "\n```rust\n"@ + t + "\n```\n"@;
    lemma_lacks_concat("\n```rust\n"@, t, '<');
    lemma_lacks_concat("\n```rust\n"@ + t, "\n```\n"@, '<');
    lemma_replace_all_absent(s10, "</h3>"@, "\n"@);
    let s11 = "\n```rust\n"@ + t + "\n```\n"@;
    lemma_lacks_concat("\n```rust\n"@, t, '<');
    lemma_lacks_concat("\n```rust\n"@ + t, "\n```\n"@, '<');
    lemma_replace_all_absent(s11, "<h4>"@, "\n#### "@);
    let s12 = "\n```rust\n"@ + t + "\n```\n"@;
    lemma_lacks_concat("\n```rust\n"@, t, '<');
    lemma_lacks_concat("\n```rust\n"@ + t, "\n```\n"@, '<');
    lemma_replace_all_absent(s12, "</h4>"@, "\n"@);
    let s13 = "\n```rust\n"@ + t + "\n```\n"@;
    lemma_lacks_concat("\n```rust\n"@, t, '<');
    lemma_lacks_concat("\n```rust\n"@ + t, "\n```\n"@, '<');
    lemma_replace_all_absent(s13, "<strong>"@, "**"@);
    let s14 = "\n```rust\n"@ + t + "\n```\n"@;
    lemma_lacks_concat("\n```rust\n"@, t, '<');
    lemma_lacks_concat("\n```rust\n"@ + t, "\n```\n"@, '<');
    lemma_replace_all_absent(s14, "</strong>"@, "**"@);
    let s15 = "\n```rust\n"@ + t + "\n```\n"@;
    lemma_lacks_concat("\n```rust\n"@, t, '<');
    lemma_lacks_concat("\n```rust\n"@ + t, "\n```\n"@, '<');
    lemma_replace_all_absent(s15, "<b>"@, "**"@);
    let s16 = "\n```rust\n"@ + t + "\n```\n"@;
    lemma_lacks_concat("\n```rust\n"@, t, '<');
    lemma_lacks_concat("\n```rust\n"@ + t, "\n```\n"@, '<');
    lemma_replace_all_absent(s16, "</b>"@, "**"@);
    let s17 = "\n```rust\n"@ + t + "\n```\n"@;
    lemma_lacks_concat("\n```rust\n"@, t, '<');
    lemma_lacks_concat("\n```rust\n"@ + t, "\n```\n"@, '<');
    lemma_replace_all_absent(s17, "<em>"@, "*"@);
    let s18 = "\n```rust\n"@ + t + "\n```\n"@;
    lemma_lacks_concat("\n```rust\n"@, t, '<');
    lemma_lacks_concat("\n```rust\n"@ + t, "\n```\n"@, '<');
    lemma_replace_all_absent(s18, "</em>"@, "*"@);
    let s19 = "\n```rust\n"@ + t + "\n```\n"@;
    lemma_lacks_concat("\n```rust\n"@, t, '<');
    lemma_lacks_concat("\n```rust\n"@ + t, "\n```\n"@, '<');
    lemma_replace_all_absent(s19, "<i>"@, "*"@);
    let s20 = "\n```rust\n"@ + t + "\n```\n"@;
    lemma_lacks_concat("\n```rust\n"@, t, '<');
    lemma_lacks_concat("\n```rust\n"@ + t, "\n```\n"@, '<');
    lemma_replace_all_absent(s20, "</i>"@, "*"@);
    let s21 = "\n```rust\n"@ + t + "\n```\n"@;
    lemma_lacks_concat("\n```rust\n"@, t, '<');
    lemma_lacks_concat("\n```rust\n"@ + t, "\n```\n"@, '<');
    lemma_replace_all_absent(s21, "<p>"@, "\n\n"@);
    let s22 = "\n```rust\n"@ + t + "\n```\n"@;
    lemma_lacks_concat("\n```rust\n"@, t, '<');
    lemma_lacks_concat("\n```rust\n"@ + t, "\n```\n"@, '<');
    lemma_replace_all_absent(s22, "</p>"@, "\n\n"@);
    let s23 = "\n```rust\n"@ + t + "\n```\n"@;
    lemma_lacks_concat("\n```rust\n"@, t, '<');
    lemma_lacks_concat("\n```rust\n"@ + t, "\n```\n"@, '<');
    lemma_replace_all_absent(s23, "<br>"@, "\n"@);
    let s24 = "\n```rust\n"@ + t + "\n```\n"@;
    lemma_lacks_concat("\n```rust\n"@, t, '<');
    lemma_lacks_concat("\n```rust\n"@ + t, "\n```\n"@, '<');
    lemma_replace_all_absent(s24, "<br/>"@, "\n"@);
    let s25 = "\n```rust\n"@ + t + "\n```\n"@;
    lemma_lacks_concat("\n```rust\n"@, t, '<');
    lemma_lacks_concat("\n```rust\n"@ + t, "\n```\n"@, '<');
    lemma_replace_all_absent(s25, "<br />"@, "\n"@);
    let s26 = "\n```rust\n"@ + t + "\n```\n"@;
    lemma_lacks_concat("\n```rust\n"@, t, '<');
    lemma_lacks_concat("\n```rust\n"@ + t, "\n```\n"@, '<');
    lemma_replace_all_absent(s26, "<li>"@, "\n- "@);
    let s27 = "\n```rust\n"@ + t + "\n```\n"@;
    lemma_lacks_concat("\n```rust\n"@, t, '<');
    lemma_lacks_concat("\n```rust\n"@ + t, "\n```\n"@, '<');
    lemma_replace_all_absent(s27, "</li>"@, ""@);
    let s28 = "\n```rust\n"@ + t + "\n```\n"@;
    lemma_lacks_concat("\n```rust\n"@, t, '<');
    lemma_lacks_concat("\n```rust\n"@ + t, "\n```\n"@, '<');
    lemma_replace_all_absent(s28, "<ul>"@, "\n"@);
    let s29 = "\n```rust\n"@ + t + "\n```\n"@;
    lemma_lacks_concat("\n```rust\n"@, t, '<');
    lemma_lacks_concat("\n```rust\n"@ + t, "\n```\n"@, '<');
    lemma_replace_all_absent(s29, "</ul>"@, "\n"@);
    let s30 = "\n```rust\n"@ + t + "\n```\n"@;
    lemma_lacks_concat("\n```rust\n"@, t, '<');
    lemma_lacks_concat("\n```rust\n"@ + t, "\n```\n"@, '<');
    lemma_replace_all_absent(s30, "<ol>"@, "\n"@);
    let s31 = "\n```rust\n"@ + t + "\n```\n"@;
    lemma_lacks_concat("\n```rust\n"@, t, '<');
    lemma_lacks_concat("\n```rust\n"@ + t, "\n```\n"@, '<');
    lemma_replace_all_absent(s31, "</ol>"@, "\n"@);
}

/// The markup rewrites turn `<pre>` and `</pre>` around text without `<` into
/// their Markdown forms.
proof fn lemma_element_markup_pre(t: Seq<char>)
    requires
        lacks(t, '<'),
    ensures
        rewrite_markup("<pre>"@ + t + "</pre>"@) == "\n```\n"@ + t + "\n```\n"@,
{
    reveal_strlit("");
    reveal_strlit("\n");
    reveal_strlit("\n\n");
    reveal_strlit("\n# ");
    reveal_strlit("\n## ");
    reveal_strlit("\n### ");
    reveal_strlit("\n#### ");
    reveal_strlit("\n- ");
    reveal_strlit("\n```\n");
    reveal_strlit("\n```rust\n");
    reveal_strlit("*");
    reveal_strlit("**");
    reveal_strlit("</b>");
    reveal_strlit("</code>");
    reveal_strlit("</em>");
    reveal_strlit("</h1>");
    reveal_strlit("</h2>");
    reveal_strlit("</h3>");
    reveal_strlit("</h4>");
    reveal_strlit("</i>");
    reveal_strlit("</li>");
    reveal_strlit("</ol>");
    reveal_strlit("</p>");
    reveal_strlit("</pre>");
    reveal_strlit("</strong>");
    reveal_strlit("</ul>");
    reveal_strlit("<b>");
    reveal_strlit("<br />");
    reveal_strlit("<br/>");
    reveal_strlit("<br>");
    reveal_strlit("<code>");
    reveal_strlit("<em>");
    reveal_strlit("<h1>");
    reveal_strlit("<h2>");
    reveal_strlit("<h3>");
    reveal_strlit("<h4>");
    reveal_strlit("<i>");
    reveal_strlit("<li>");
    reveal_strlit("<ol>");
    reveal_strlit("<p>");
    reveal_strlit("<pre class=\"rust item-decl\">");
    reveal_strlit("<pre>");
    reveal_strlit("<strong>");
    reveal_strlit("<ul>");
    reveal_strlit("`");
    let s0 = "<pre>"@ + t + "</pre>"@;
    lemma_framed_unmatched("<pre>"@, t, "</pre>"@, "<pre class=\"rust item-decl\">"@);
    assert(s0[4] == "<pre>"@[4]);
    lemma_mismatch(s0, "<pre class=\"rust item-decl\">"@, 0, 4);
    assert(s0[("<pre>"@.len() + t.len()) as int + 1] == "</pre>"@[1]);
    lemma_mismatch(s0, "<pre class=\"rust item-decl\">"@, ("<pre>"@.len() + t.len()) as int, 1);
    lemma_replace_unmatched(s0, "<pre class=\"rust item-decl\">"@, "\n```rust\n"@);
    let s1 = "<pre>"@ + t + "</pre>"@;
    lemma_framed_unmatched("<pre>"@, t, "</pre>"@, "<pre>"@);
    assert(s1[("<pre>"@.len() + t.len()) as int + 1] == "</pre>"@[1]);
    lemma_mismatch(s1, "<pre>"@, ("<pre>"@.len() + t.len()) as int, 1);
    assert(Seq::<char>::empty() + "<pre>"@ + (t + "</pre>"@) =~= s1);
    lemma_replace_single(Seq::<char>::empty(), "<pre>"@, t + "</pre>"@, "\n```\n"@);
    assert(replace_all(s1, "<pre>"@, "\n```\n"@) =~= "\n```\n"@ + t + "</pre>"@);
    let s2 = "\n```\n"@ + t + "</pre>"@;
    lemma_framed_unmatched("\n```\n"@, t, "</pre>"@, "</pre>"@);
    lemma_mismatch(s2, "</pre>"@, 0, 0);
    assert(("\n```\n"@ + t) + "</pre>"@ + Seq::<char>::empty() =~= s2);
    lemma_replace_single("\n```\n"@ + t, "</pre>"@, Seq::<char>::empty(), "\n```\n"@);
    assert(replace_all(s2, "</pre>"@, "\n```\n"@) =~= "\n```\n"@ + t + "\n```\n"@);
    let s3 = "\n```\n"@ + t + "\n```\n"@;
    lemma_lacks_concat("\n```\n"@, t, '<');
    lemma_lacks_concat("\n```\n"@ + t, "\n```\n"@, '<');
    lemma_replace_all_absent(s3, "<code>"@, "`"@);
    let s4 = "\n```\n"@ + t + "\n```\n"@;
    lemma_lacks_concat("\n```\n"@, t, '<');
    lemma_lacks_concat("\n```\n"@ + t, "\n```\n"@, '<');
    lemma_replace_all_absent(s4, "</code>"@, "`"@);
    let s5 = "\n```\n"@ + t + "\n```\n"@;
    lemma_lacks_concat("\n```\n"@, t, '<');
    lemma_lacks_concat("\n```\n"@ + t, "\n```\n"@, '<');
    lemma_replace_all_absent(s5, "<h1>"@, "\n# "@);
    let s6 = "\n```\n"@ + t + "\n```\n"@;
    lemma_lacks_concat("\n```\n"@, t, '<');
    lemma_lacks_concat("\n```\n"@ + t, "\n```\n"@, '<');
    lemma_replace_all_absent(s6, "</h1>"@, "\n"@);
    let s7 = "\n```\n"@ + t + "\n```\n"@;
    lemma_lacks_concat("\n```\n"@, t, '<');
    lemma_lacks_concat("\n```\n"@ + t, "\n```\n"@, '<');
    lemma_replace_all_absent(s7, "<h2>"@, "\n## "@);
    let s8 = "\n```\n"@ + t + "\n```\n"@;
    lemma_lacks_concat("\n```\n"@, t, '<');
    lemma_lacks_concat("\n```\n"@ + t, "\n```\n"@, '<');
    lemma_replace_all_absent(s8, "</h2>"@, "\n"@);
    let s9 = "\n```\n"@ + t + "\n```\n"@;
    lemma_lacks_concat("\n```\n"@, t, '<');
    lemma_lacks_concat("\n```\n"@ + t, "\n```\n"@, '<');
    lemma_replace_all_absent(s9, "<h3>"@, "\n### "@);
    let s10 = "\n```\n"@ + t + "\n```\n"@;
    lemma_lacks_concat("\n```\n"@, t, '<');
    lemma_lacks_concat("\n```\n"@ + t, "\n```\n"@, '<');
    lemma_replace_all_absent(s10, "</h3>"@, "\n"@);
    let s11 = "\n```\n"@ + t + "\n```\n"@;
    lemma_lacks_concat("\n```\n"@, t, '<');
    lemma_lacks_concat("\n```\n"@ + t, "\n```\n"@, '<');
    lemma_replace_all_absent(s11, "<h4>"@, "\n#### "@);
    let s12 = "\n```\n"@ + t + "\n```\n"@;
    lemma_lacks_concat("\n```\n"@, t, '<');
    lemma_lacks_concat("\n```\n"@ + t, "\n```\n"@, '<');
    lemma_replace_all_absent(s12, "</h4>"@, "\n"@);
    let s13 = "\n```\n"@ + t + "\n```\n"@;
    lemma_lacks_concat("\n```\n"@, t, '<');
    lemma_lacks_concat("\n```\n"@ + t, "\n```\n"@, '<');
    lemma_replace_all_absent(s13, "<strong>"@, "**"@);
    let s14 = "\n```\n"@ + t + "\n```\n"@;
    lemma_lacks_concat("\n```\n"@, t, '<');
    lemma_lacks_concat("\n```\n"@ + t, "\n```\n"@, '<');
    lemma_replace_all_absent(s14, "</strong>"@, "**"@);
    let s15 = "\n```\n"@ + t + "\n```\n"@;
    lemma_lacks_concat("\n```\n"@, t, '<');
    lemma_lacks_concat("\n```\n"@ + t, "\n```\n"@, '<');
    lemma_replace_all_absent(s15, "<b>"@, "**"@);
    let s16 = "\n```\n"@ + t + "\n```\n"@;
    lemma_lacks_concat("\n```\n"@, t, '<');
    lemma_lacks_concat("\n```\n"@ + t, "\n```\n"@, '<');
    lemma_replace_all_absent(s16, "</b>"@, "**"@);
    let s17 = "\n```\n"@ + t + "\n```\n"@;
    lemma_lacks_concat("\n```\n"@, t, '<');
    lemma_lacks_concat("\n```\n"@ + t, "\n```\n"@, '<');
    lemma_replace_all_absent(s17, "<em>"@, "*"@);
    let s18 = "\n```\n"@ + t + "\n```\n"@;
    lemma_lacks_concat("\n```\n"@, t, '<');
    lemma_lacks_concat("\n```\n"@ + t, "\n```\n"@, '<');
    lemma_replace_all_absent(s18, "</em>"@, "*"@);
    let s19 = "\n```\n"@ + t + "\n```\n"@;
    lemma_lacks_concat("\n```\n"@, t, '<');
    lemma_lacks_concat("\n```\n"@ + t, "\n```\n"@, '<');
    lemma_replace_all_absent(s19, "<i>"@, "*"@);
    let s20 = "\n```\n"@ + t + "\n```\n"@;
    lemma_lacks_concat("\n```\n"@, t, '<');
    lemma_lacks_concat("\n```\n"@ + t, "\n```\n"@, '<');
    lemma_replace_all_absent(s20, "</i>"@, "*"@);
    let s21 = "\n```\n"@ + t + "\n```\n"@;
    lemma_lacks_concat("\n```\n"@, t, '<');
    lemma_lacks_concat("\n```\n"@ + t, "\n```\n"@, '<');
    lemma_replace_all_absent(s21, "<p>"@, "\n\n"@);
    let s22 = "\n```\n"@ + t + "\n```\n"@;
    lemma_lacks_concat("\n```\n"@, t, '<');
    lemma_lacks_concat("\n```\n"@ + t, "\n```\n"@, '<');
    lemma_replace_all_absent(s22, "</p>"@, "\n\n"@);
    let s23 = "\n```\n"@ + t + "\n```\n"@;
    lemma_lacks_concat("\n```\n"@, t, '<');
    lemma_lacks_concat("\n```\n"@ + t, "\n```\n"@, '<');
    lemma_replace_all_absent(s23, "<br>"@, "\n"@);
    let s24 = "\n```\n"@ + t + "\n```\n"@;
    lemma_lacks_concat("\n```\n"@, t, '<');
    lemma_lacks_concat("\n```\n"@ + t, "\n```\n"@, '<');
    lemma_replace_all_absent(s24, "<br/>"@, "\n"@);
    let s25 = "\n```\n"@ + t + "\n```\n"@;
    lemma_lacks_concat("\n```\n"@, t, '<');
    lemma_lacks_concat("\n```\n"@ + t, "\n```\n"@, '<');
    lemma_replace_all_absent(s25, "<br />"@, "\n"@);
    let s26 = "\n```\n"@ + t + "\n```\n"@;
    lemma_lacks_concat("\n```\n"@, t, '<');
    lemma_lacks_concat("\n```\n"@ + t, "\n```\n"@, '<');
    lemma_replace_all_absent(s26, "<li>"@, "\n- "@);
    let s27 = "\n```\n"@ + t + "\n```\n"@;
    lemma_lacks_concat("\n```\n"@, t, '<');
    lemma_lacks_concat("\n```\n"@ + t, "\n```\n"@, '<');
    lemma_replace_all_absent(s27, "</li>"@, ""@);
    let s28 = "\n```\n"@ + t + "\n```\n"@;
    lemma_lacks_concat("\n```\n"@, t, '<');
    lemma_lacks_concat("\n```\n"@ + t, "\n```\n"@, '<');
    lemma_replace_all_absent(s28, "<ul>"@, "\n"@);
    let s29 = "\n```\n"@ + t + "\n```\n"@;
    lemma_lacks_concat("\n```\n"@, t, '<');
    lemma_lacks_concat("\n```\n"@ + t, "\n```\n"@, '<');
    lemma_replace_all_absent(s29, "</ul>"@, "\n"@);
    let s30 = "\n```\n"@ + t + "\n```\n"@;
    lemma_lacks_concat("\n```\n"@, t, '<');
    lemma_lacks_concat("\n```\n"@ + t, "\n```\n"@, '<');
    lemma_replace_all_absent(s30, "<ol>"@, "\n"@);
    let s31 = "\n```\n"@ + t + "\n```\n"@;
    lemma_lacks_concat("\n```\n"@, t, '<');
    lemma_lacks_concat("\n```\n"@ + t, "\n```\n"@, '<');
    lemma_replace_all_absent(s31, "</ol>"@, "\n"@);
}

/// The markup rewrites turn `<code>` and `</code>` around text without `<` into
/// their Markdown forms.
proof fn lemma_element_markup_code(t: Seq<char>)
    requires
        lacks(t, '<'),
    ensures
        rewrite_markup("<code>"@ + t + "</code>"@) == "`"@ + t + "`"@,
{
    reveal_strlit("");
    reveal_strlit("\n");
    reveal_strlit("\n\n");
    reveal_strlit("\n# ");
    reveal_strlit("\n## ");
    reveal_strlit("\n### ");
    reveal_strlit("\n#### ");
    reveal_strlit("\n- ");
    reveal_strlit("\n```\n");
    reveal_strlit("\n```rust\n");
    reveal_strlit("*");
    reveal_strlit("**");
    reveal_strlit("</b>");
    reveal_strlit("</code>");
    reveal_strlit("</em>");
    reveal_strlit("</h1>");
    reveal_strlit("</h2>");
    reveal_strlit("</h3>");
    reveal_strlit("</h4>");
    reveal_strlit("</i>");
    reveal_strlit("</li>");
    reveal_strlit("</ol>");
    reveal_strlit("</p>");
    reveal_strlit("</pre>");
    reveal_strlit("</strong>");
    reveal_strlit("</ul>");
    reveal_strlit("<b>");
    reveal_strlit("<br />");
    reveal_strlit("<br/>");
    reveal_strlit("<br>");
    reveal_strlit("<code>");
    reveal_strlit("<em>");
    reveal_strlit("<h1>");
    reveal_strlit("<h2>");
    reveal_strlit("<h3>");
    reveal_strlit("<h4>");
    reveal_strlit("<i>");
    reveal_strlit("<li>");
    reveal_strlit("<ol>");
    reveal_strlit("<p>");
    reveal_strlit("<pre class=\"rust item-decl\">");
    reveal_strlit("<pre>");
    reveal_strlit("<strong>");
    reveal_strlit("<ul>");
    reveal_strlit("`");
    let s0 = "<code>"@ + t + "</code>"@;
    lemma_framed_unmatched("<code>"@, t, "</code>"@, "<pre class=\"rust item-decl\">"@);
    assert(s0[1] == "<code>"@[1]);
    lemma_mismatch(s0, "<pre class=\"rust item-decl\">"@, 0, 1);
    assert(s0[("<code>"@.len() + t.len()) as int + 1] == "</code>"@[1]);
    lemma_mismatch(s0, "<pre class=\"rust item-decl\">"@, ("<code>"@.len() + t.len()) as int, 1);
    lemma_replace_unmatched(s0, "<pre class=\"rust item-decl\">"@, "\n```rust\n"@);
    let s1 = "<code>"@ + t + "</code>"@;
    lemma_framed_unmatched("<code>"@, t, "</code>"@, "<pre>"@);
    assert(s1[1] == "<code>"@[1]);
    lemma_mismatch(s1, "<pre>"@, 0, 1);
    assert(s1[("<code>"@.len() + t.len()) as int + 1] == "</code>"@[1]);
    lemma_mismatch(s1, "<pre>"@, ("<code>"@.len() + t.len()) as int, 1);
    lemma_replace_unmatched(s1, "<pre>"@, "\n```\n"@);
    let s2 = "<code>"@ + t + "</code>"@;
    lemma_framed_unmatched("<code>"@, t, "</code>"@, "</pre>"@);
    assert(s2[1] == "<code>"@[1]);
    lemma_mismatch(s2, "</pre>"@, 0, 1);
    assert(s2[("<code>"@.len() + t.len()) as int + 2] == "</code>"@[2]);
    lemma_mismatch(s2, "</pre>"@, ("<code>"@.len() + t.len()) as int, 2);
    lemma_replace_unmatched(s2, "</pre>"@, "\n```\n"@);
    let s3 = "<code>"@ + t + "</code>"@;
    lemma_framed_unmatched("<code>"@, t, "</code>"@, "<code>"@);
    assert(s3[("<code>"@.len() + t.len()) as int + 1] == "</code>"@[1]);
    lemma_mismatch(s3, "<code>"@, ("<code>"@.len() + t.len()) as int, 1);
    assert(Seq::<char>::empty() + "<code>"@ + (t + "</code>"@) =~= s3);
    lemma_replace_single(Seq::<char>::empty(), "<code>"@, t + "</code>"@, "`"@);
    assert(replace_all(s3, "<code>"@, "`"@) =~= "`"@ + t + "</code>"@);
    let s4 = "`"@ + t + "</code>"@;
    lemma_framed_unmatched("`"@, t, "</code>"@, "</code>"@);
    lemma_mismatch(s4, "</code>"@, 0, 0);
    assert(("`"@ + t) + "</code>"@ + Seq::<char>::empty() =~= s4);
    lemma_replace_single("`"@ + t, "</code>"@, Seq::<char>::empty(), "`"@);
    assert(replace_all(s4, "</code>"@, "`"@) =~= "`"@ + t + "`"@);
    let s5 = "`"@ + t + "`"@;
    lemma_lacks_concat("`"@, t, '<');
    lemma_lacks_concat("`"@ + t, "`"@, '<');
    lemma_replace_all_absent(s5, "<h1>"@, "\n# "@);
    let s6 = "`"@ + t + "`"@;
    lemma_lacks_concat("`"@, t, '<');
    lemma_lacks_concat("`"@ + t, "`"@, '<');
    lemma_replace_all_absent(s6, "</h1>"@, "\n"@);
    let s7 = "`"@ + t + "`"@;
    lemma_lacks_concat("`"@, t, '<');
    lemma_lacks_concat("`"@ + t, "`"@, '<');
    lemma_replace_all_absent(s7, "<h2>"@, "\n## "@);
    let s8 = "`"@ + t + "`"@;
    lemma_lacks_concat("`"@, t, '<');
    lemma_lacks_concat("`"@ + t, "`"@, '<');
    lemma_replace_all_absent(s8, "</h2>"@, "\n"@);
    let s9 = "`"@ + t + "`"@;
    lemma_lacks_concat("`"@, t, '<');
    lemma_lacks_concat("`"@ + t, "`"@, '<');
    lemma_replace_all_absent(s9, "<h3>"@, "\n### "@);
    let s10 = "`"@ + t + "`"@;
    lemma_lacks_concat("`"@, t, '<');
    lemma_lacks_concat("`"@ + t, "`"@, '<');
    lemma_replace_all_absent(s10, "</h3>"@, "\n"@);
    let s11 = "`"@ + t + "`"@;
    lemma_lacks_concat("`"@, t, '<');
    lemma_lacks_concat("`"@ + t, "`"@, '<');
    lemma_replace_all_absent(s11, "<h4>"@, "\n#### "@);
    let s12 = "`"@ + t + "`"@;
    lemma_lacks_concat("`"@, t, '<');
    lemma_lacks_concat("`"@ + t, "`"@, '<');
    lemma_replace_all_absent(s12, "</h4>"@, "\n"@);
    let s13 = "`"@ + t + "`"@;
    lemma_lacks_concat("`"@, t, '<');
    lemma_lacks_concat("`"@ + t, "`"@, '<');
    lemma_replace_all_absent(s13, "<strong>"@, "**"@);
    let s14 = "`"@ + t + "`"@;
    lemma_lacks_concat("`"@, t, '<');
    lemma_lacks_concat("`"@ + t, "`"@, '<');
    lemma_replace_all_absent(s14, "</strong>"@, "**"@);
    let s15 = "`"@ + t + "`"@;
    lemma_lacks_concat("`"@, t, '<');
    lemma_lacks_concat("`"@ + t, "`"@, '<');
    lemma_replace_all_absent(s15, "<b>"@, "**"@);
    let s16 = "`"@ + t + "`"@;
    lemma_lacks_concat("`"@, t, '<');
    lemma_lacks_concat("`"@ + t, "`"@, '<');
    lemma_replace_all_absent(s16, "</b>"@, "**"@);
    let s17 = "`"@ + t + "`"@;
    lemma_lacks_concat("`"@, t, '<');
    lemma_lacks_concat("`"@ + t, "`"@, '<');
    lemma_replace_all_absent(s17, "<em>"@, "*"@);
    let s18 = "`"@ + t + "`"@;
    lemma_lacks_concat("`"@, t, '<');
    lemma_lacks_concat("`"@ + t, "`"@, '<');
    lemma_replace_all_absent(s18, "</em>"@, "*"@);
    let s19 = "`"@ + t + "`"@;
    lemma_lacks_concat("`"@, t, '<');
    lemma_lacks_concat("`"@ + t, "`"@, '<');
    lemma_replace_all_absent(s19, "<i>"@, "*"@);
    let s20 = "`"@ + t + "`"@;
    lemma_lacks_concat("`"@, t, '<');
    lemma_lacks_concat("`"@ + t, "`"@, '<');
    lemma_replace_all_absent(s20, "</i>"@, "*"@);
    let s21 = "`"@ + t + "`"@;
    lemma_lacks_concat("`"@, t, '<');
    lemma_lacks_concat("`"@ + t, "`"@, '<');
    lemma_replace_all_absent(s21, "<p>"@, "\n\n"@);
    let s22 = "`"@ + t + "`"@;
    lemma_lacks_concat("`"@, t, '<');
    lemma_lacks_concat("`"@ + t, "`"@, '<');
    lemma_replace_all_absent(s22, "</p>"@, "\n\n"@);
    let s23 = "`"@ + t + "`"@;
    lemma_lacks_concat("`"@, t, '<');
    lemma_lacks_concat("`"@ + t, "`"@, '<');
    lemma_replace_all_absent(s23, "<br>"@, "\n"@);
    let s24 = "`"@ + t + "`"@;
    lemma_lacks_concat("`"@, t, '<');
    lemma_lacks_concat("`"@ + t, "`"@, '<');
    lemma_replace_all_absent(s24, "<br/>"@, "\n"@);
    let s25 = "`"@ + t + "`"@;
    lemma_lacks_concat("`"@, t, '<');
    lemma_lacks_concat("`"@ + t, "`"@, '<');
    lemma_replace_all_absent(s25, "<br />"@, "\n"@);
    let s26 = "`"@ + t + "`"@;
    lemma_lacks_concat("`"@, t, '<');
    lemma_lacks_concat("`"@ + t, "`"@, '<');
    lemma_replace_all_absent(s26, "<li>"@, "\n- "@);
    let s27 = "`"@ + t + "`"@;
    lemma_lacks_concat("`"@, t, '<');
    lemma_lacks_concat("`"@ + t, "`"@, '<');
    lemma_replace_all_absent(s27, "</li>"@, ""@);
    let s28 = "`"@ + t + "`"@;
    lemma_lacks_concat("`"@, t, '<');
    lemma_lacks_concat("`"@ + t, "`"@, '<');
    lemma_replace_all_absent(s28, "<ul>"@, "\n"@);
    let s29 = "`"@ + t + "`"@;
    lemma_lacks_concat("`"@, t, '<');
    lemma_lacks_concat("`"@ + t, "`"@, '<');
    lemma_replace_all_absent(s29, "</ul>"@, "\n"@);
    let s30 = "`"@ + t + "`"@;
    lemma_lacks_concat("`"@, t, '<');
    lemma_lacks_concat("`"@ + t, "`"@, '<');
    lemma_replace_all_absent(s30, "<ol>"@, "\n"@);
    let s31 = "`"@ + t + "`"@;
    lemma_lacks_concat("`"@, t, '<');
    lemma_lacks_concat("`"@ + t, "`"@, '<');
    lemma_replace_all_absent(s31, "</ol>"@, "\n"@);
}

/// The markup rewrites turn `<strong>` and `</strong>` around text without `<` into
/// their Markdown forms.
proof fn lemma_element_markup_strong(t: Seq<char>)
    requires
        lacks(t, '<'),
    ensures
        rewrite_markup("<strong>"@ + t + "</strong>"@) == "**"@ + t + "**"@,
{
    reveal_strlit("");
    reveal_strlit("\n");
    reveal_strlit("\n\n");
    reveal_strlit("\n# ");
    reveal_strlit("\n## ");
    reveal_strlit("\n### ");
    reveal_strlit("\n#### ");
    reveal_strlit("\n- ");
    reveal_strlit("\n```\n");
    reveal_strlit("\n```rust\n");
    reveal_strlit("*");
    reveal_strlit("**");
    reveal_strlit("</b>");
    reveal_strlit("</code>");
    reveal_strlit("</em>");
    reveal_strlit("</h1>");
    reveal_strlit("</h2>");
    reveal_strlit("</h3>");
    reveal_strlit("</h4>");
    reveal_strlit("</i>");
    reveal_strlit("</li>");
    reveal_strlit("</ol>");
    reveal_strlit("</p>");
    reveal_strlit("</pre>");
    reveal_strlit("</strong>");
    reveal_strlit("</ul>");
    reveal_strlit("<b>");
    reveal_strlit("<br />");
    reveal_strlit("<br/>");
    reveal_strlit("<br>");
    reveal_strlit("<code>");
    reveal_strlit("<em>");
    reveal_strlit("<h1>");
    reveal_strlit("<h2>");
    reveal_strlit("<h3>");
    reveal_strlit("<h4>");
    reveal_strlit("<i>");
    reveal_strlit("<li>");
    reveal_strlit("<ol>");
    reveal_strlit("<p>");
    reveal_strlit("<pre class=\"rust item-decl\">");
    reveal_strlit("<pre>");
    reveal_strlit("<strong>");
    reveal_strlit("<ul>");
    reveal_strlit("`");
    let s0 = "<strong>"@ + t + "</strong>"@;
    lemma_framed_unmatched("<strong>"@, t, "</strong>"@, "<pre class=\"rust item-decl\">"@);
    assert(s0[1] == "<strong>"@[1]);
    lemma_mismatch(s0, "<pre class=\"rust item-decl\">"@, 0, 1);
    assert(s0[("<strong>"@.len() + t.len()) as int + 1] == "</strong>"@[1]);
    lemma_mismatch(s0, "<pre class=\"rust item-decl\">"@, ("<strong>"@.len() + t.len()) as int, 1);
    lemma_replace_unmatched(s0, "<pre class=\"rust item-decl\">"@, "\n```rust\n"@);
    let s1 = "<strong>"@ + t + "</strong>"@;
    lemma_framed_unmatched("<strong>"@, t, "</strong>"@, "<pre>"@);
    assert(s1[1] == "<strong>"@[1]);
    lemma_mismatch(s1, "<pre>"@, 0, 1);
    assert(s1[("<strong>"@.len() + t.len()) as int + 1] == "</strong>"@[1]);
    lemma_mismatch(s1, "<pre>"@, ("<strong>"@.len() + t.len()) as int, 1);
    lemma_replace_unmatched(s1, "<pre>"@, "\n```\n"@);
    let s2 = "<strong>"@ + t + "</strong>"@;
    lemma_framed_unmatched("<strong>"@, t, "</strong>"@, "</pre>"@);
    assert(s2[1] == "<strong>"@[1]);
    lemma_mismatch(s2, "</pre>"@, 0, 1);
    assert(s2[("<strong>"@.len() + t.len()) as int + 2] == "</strong>"@[2]);
    lemma_mismatch(s2, "</pre>"@, ("<strong>"@.len() + t.len()) as int, 2);
    lemma_replace_unmatched(s2, "</pre>"@, "\n```\n"@);
    let s3 = "<strong>"@ + t + "</strong>"@;
    lemma_framed_unmatched("<strong>"@, t, "</strong>"@, "<code>"@);
    assert(s3[1] == "<strong>"@[1]);
    lemma_mismatch(s3, "<code>"@, 0, 1);
    assert(s3[("<strong>"@.len() + t.len()) as int + 1] == "</strong>"@[1]);
    lemma_mismatch(s3, "<code>"@, ("<strong>"@.len() + t.len()) as int, 1);
    lemma_replace_unmatched(s3, "<code>"@, "`"@);
    let s4 = "<strong>"@ + t + "</strong>"@;
    lemma_framed_unmatched("<strong>"@, t, "</strong>"@, "</code>"@);
    assert(s4[1] == "<strong>"@[1]);
    lemma_mismatch(s4, "</code>"@, 0, 1);
    assert(s4[("<strong>"@.len() + t.len()) as int + 2] == "</strong>"@[2]);
    lemma_mismatch(s4, "</code>"@, ("<strong>"@.len() + t.len()) as int, 2);
    lemma_replace_unmatched(s4, "</code>"@, "`"@);
    let s5 = "<strong>"@ + t + "</strong>"@;
    lemma_framed_unmatched("<strong>"@, t, "</strong>"@, "<h1>"@);
    assert(s5[1] == "<strong>"@[1]);
    lemma_mismatch(s5, "<h1>"@, 0, 1);
    assert(s5[("<strong>"@.len() + t.len()) as int + 1] == "</strong>"@[1]);
    lemma_mismatch(s5, "<h1>"@, ("<strong>"@.len() + t.len()) as int, 1);
    lemma_replace_unmatched(s5, "<h1>"@, "\n# "@);
    let s6 = "<strong>"@ + t + "</strong>"@;
    lemma_framed_unmatched("<strong>"@, t, "</strong>"@, "</h1>"@);
    assert(s6[1] == "<strong>"@[1]);
    lemma_mismatch(s6, "</h1>"@, 0, 1);
    assert(s6[("<strong>"@.len() + t.len()) as int + 2] == "</strong>"@[2]);
    lemma_mismatch(s6, "</h1>"@, ("<strong>"@.len() + t.len()) as int, 2);
    lemma_replace_unmatched(s6, "</h1>"@, "\n"@);
    let s7 = "<strong>"@ + t + "</strong>"@;
    lemma_framed_unmatched("<strong>"@, t, "</strong>"@, "<h2>"@);
    assert(s7[1] == "<strong>"@[1]);
    lemma_mismatch(s7, "<h2>"@, 0, 1);
    assert(s7[("<strong>"@.len() + t.len()) as int + 1] == "</strong>"@[1]);
    lemma_mismatch(s7, "<h2>"@, ("<strong>"@.len() + t.len()) as int, 1);
    lemma_replace_unmatched(s7, "<h2>"@, "\n## "@);
    let s8 = "<strong>"@ + t + "</strong>"@;
    lemma_framed_unmatched("<strong>"@, t, "</strong>"@, "</h2>"@);
    assert(s8[1] == "<strong>"@[1]);
    lemma_mismatch(s8, "</h2>"@, 0, 1);
    assert(s8[("<strong>"@.len() + t.len()) as int + 2] == "</strong>"@[2]);
    lemma_mismatch(s8, "</h2>"@, ("<strong>"@.len() + t.len()) as int, 2);
    lemma_replace_unmatched(s8, "</h2>"@, "\n"@);
    let s9 = "<strong>"@ + t + "</strong>"@;
    lemma_framed_unmatched("<strong>"@, t, "</strong>"@, "<h3>"@);
    assert(s9[1] == "<strong>"@[1]);
    lemma_mismatch(s9, "<h3>"@, 0, 1);
    assert(s9[("<strong>"@.len() + t.len()) as int + 1] == "</strong>"@[1]);
    lemma_mismatch(s9, "<h3>"@, ("<strong>"@.len() + t.len()) as int, 1);
    lemma_replace_unmatched(s9, "<h3>"@, "\n### "@);
    let s10 = "<strong>"@ + t + "</strong>"@;
    lemma_framed_unmatched("<strong>"@, t, "</strong>"@, "</h3>"@);
    assert(s10[1] == "<strong>"@[1]);
    lemma_mismatch(s10, "</h3>"@, 0, 1);
    assert(s10[("<strong>"@.len() + t.len()) as int + 2] == "</strong>"@[2]);
    lemma_mismatch(s10, "</h3>"@, ("<strong>"@.len() + t.len()) as int, 2);
    lemma_replace_unmatched(s10, "</h3>"@, "\n"@);
    let s11 = "<strong>"@ + t + "</strong>"@;
    lemma_framed_unmatched("<strong>"@, t, "</strong>"@, "<h4>"@);
    assert(s11[1] == "<strong>"@[1]);
    lemma_mismatch(s11, "<h4>"@, 0, 1);
    assert(s11[("<strong>"@.len() + t.len()) as int + 1] == "</strong>"@[1]);
    lemma_mismatch(s11, "<h4>"@, ("<strong>"@.len() + t.len()) as int, 1);
    lemma_replace_unmatched(s11, "<h4>"@, "\n#### "@);
    let s12 = "<strong>"@ + t + "</strong>"@;
    lemma_framed_unmatched("<strong>"@, t, "</strong>"@, "</h4>"@);
    assert(s12[1] == "<strong>"@[1]);
    lemma_mismatch(s12, "</h4>"@, 0, 1);
    assert(s12[("<strong>"@.len() + t.len()) as int + 2] == "</strong>"@[2]);
    lemma_mismatch(s12, "</h4>"@, ("<strong>"@.len() + t.len()) as int, 2);
    lemma_replace_unmatched(s12, "</h4>"@, "\n"@);
    let s13 = "<strong>"@ + t + "</strong>"@;
    lemma_framed_unmatched("<strong>"@, t, "</strong>"@, "<strong>"@);
    assert(s13[("<strong>"@.len() + t.len()) as int + 1] == "</strong>"@[1]);
    lemma_mismatch(s13, "<strong>"@, ("<strong>"@.len() + t.len()) as int, 1);
    assert(Seq::<char>::empty() + "<strong>"@ + (t + "</strong>"@) =~= s13);
    lemma_replace_single(Seq::<char>::empty(), "<strong>"@, t + "</strong>"@, "**"@);
    assert(replace_all(s13, "<strong>"@, "**"@) =~= "**"@ + t + "</strong>"@);
    let s14 = "**"@ + t + "</strong>"@;
    lemma_framed_unmatched("**"@, t, "</strong>"@, "</strong>"@);
    lemma_mismatch(s14, "</strong>"@, 0, 0);
    assert(("**"@ + t) + "</strong>"@ + Seq::<char>::empty() =~= s14);
    lemma_replace_single("**"@ + t, "</strong>"@, Seq::<char>::empty(), "**"@);
    assert(replace_all(s14, "</strong>"@, "**"@) =~= "**"@ + t + "**"@);
    let s15 = "**"@ + t + "**"@;
    lemma_lacks_concat("**"@, t, '<');
    lemma_lacks_concat("**"@ + t, "**"@, '<');
    lemma_replace_all_absent(s15, "<b>"@, "**"@);
    let s16 = "**"@ + t + "**"@;
    lemma_lacks_concat("**"@, t, '<');
    lemma_lacks_concat("**"@ + t, "**"@, '<');
    lemma_replace_all_absent(s16, "</b>"@, "**"@);
    let s17 = "**"@ + t + "**"@;
    lemma_lacks_concat("**"@, t, '<');
    lemma_lacks_concat("**"@ + t, "**"@, '<');
    lemma_replace_all_absent(s17, "<em>"@, "*"@);
    let s18 = "**"@ + t + "**"@;
    lemma_lacks_concat("**"@, t, '<');
    lemma_lacks_concat("**"@ + t, "**"@, '<');
    lemma_replace_all_absent(s18, "</em>"@, "*"@);
    let s19 = "**"@ + t + "**"@;
    lemma_lacks_concat("**"@, t, '<');
    lemma_lacks_concat("**"@ + t, "**"@, '<');
    lemma_replace_all_absent(s19, "<i>"@, "*"@);
    let s20 = "**"@ + t + "**"@;
    lemma_lacks_concat("**"@, t, '<');
    lemma_lacks_concat("**"@ + t, "**"@, '<');
    lemma_replace_all_absent(s20, "</i>"@, "*"@);
    let s21 = "**"@ + t + "**"@;
    lemma_lacks_concat("**"@, t, '<');
    lemma_lacks_concat("**"@ + t, "**"@, '<');
    lemma_replace_all_absent(s21, "<p>"@, "\n\n"@);
    let s22 = "**"@ + t + "**"@;
    lemma_lacks_concat("**"@, t, '<');
    lemma_lacks_concat("**"@ + t, "**"@, '<');
    lemma_replace_all_absent(s22, "</p>"@, "\n\n"@);
    let s23 = "**"@ + t + "**"@;
    lemma_lacks_concat("**"@, t, '<');
    lemma_lacks_concat("**"@ + t, "**"@, '<');
    lemma_replace_all_absent(s23, "<br>"@, "\n"@);
    let s24 = "**"@ + t + "**"@;
    lemma_lacks_concat("**"@, t, '<');
    lemma_lacks_concat("**"@ + t, "**"@, '<');
    lemma_replace_all_absent(s24, "<br/>"@, "\n"@);
    let s25 = "**"@ + t + "**"@;
    lemma_lacks_concat("**"@, t, '<');
    lemma_lacks_concat("**"@ + t, "**"@, '<');
    lemma_replace_all_absent(s25, "<br />"@, "\n"@);
    let s26 = "**"@ + t + "**"@;
    lemma_lacks_concat("**"@, t, '<');
    lemma_lacks_concat("**"@ + t, "**"@, '<');
    lemma_replace_all_absent(s26, "<li>"@, "\n- "@);
    let s27 = "**"@ + t + "**"@;
    lemma_lacks_concat("**"@, t, '<');
    lemma_lacks_concat("**"@ + t, "**"@, '<');
    lemma_replace_all_absent(s27, "</li>"@, ""@);
    let s28 = "**"@ + t + "**"@;
    lemma_lacks_concat("**"@, t, '<');
    lemma_lacks_concat("**"@ + t, "**"@, '<');
    lemma_replace_all_absent(s28, "<ul>"@, "\n"@);
    let s29 = "**"@ + t + "**"@;
    lemma_lacks_concat("**"@, t, '<');
    lemma_lacks_concat("**"@ + t, "**"@, '<');
    lemma_replace_all_absent(s29, "</ul>"@, "\n"@);
    let s30 = "**"@ + t + "**"@;
    lemma_lacks_concat("**"@, t, '<');
    lemma_lacks_concat("**"@ + t, "**"@, '<');
    lemma_replace_all_absent(s30, "<ol>"@, "\n"@);
    let s31 = "**"@ + t + "**"@;
    lemma_lacks_concat("**"@, t, '<');
    lemma_lacks_concat("**"@ + t, "**"@, '<');
    lemma_replace_all_absent(s31, "</ol>"@, "\n"@);
}

/// The markup rewrites turn `<b>` and `</b>` around text without `<` into
/// their Markdown forms.
proof fn lemma_element_markup_b(t: Seq<char>)
    requires
        lacks(t, '<'),
    ensures
        rewrite_markup("<b>"@ + t + "</b>"@) == "**"@ + t + "**"@,
{
    reveal_strlit("");
    reveal_strlit("\n");
    reveal_strlit("\n\n");
    reveal_strlit("\n# ");
    reveal_strlit("\n## ");
    reveal_strlit("\n### ");
    reveal_strlit("\n#### ");
    reveal_strlit("\n- ");
    reveal_strlit("\n```\n");
    reveal_strlit("\n```rust\n");
    reveal_strlit("*");
    reveal_strlit("**");
    reveal_strlit("</b>");
    reveal_strlit("</code>");
    reveal_strlit("</em>");
    reveal_strlit("</h1>");
    reveal_strlit("</h2>");
    reveal_strlit("</h3>");
    reveal_strlit("</h4>");
    reveal_strlit("</i>");
    reveal_strlit("</li>");
    reveal_strlit("</ol>");
    reveal_strlit("</p>");
    reveal_strlit("</pre>");
    reveal_strlit("</strong>");
    reveal_strlit("</ul>");
    reveal_strlit("<b>");
    reveal_strlit("<br />");
    reveal_strlit("<br/>");
    reveal_strlit("<br>");
    reveal_strlit("<code>");
    reveal_strlit("<em>");
    reveal_strlit("<h1>");
    reveal_strlit("<h2>");
    reveal_strlit("<h3>");
    reveal_strlit("<h4>");
    reveal_strlit("<i>");
    reveal_strlit("<li>");
    reveal_strlit("<ol>");
    reveal_strlit("<p>");
    reveal_strlit("<pre class=\"rust item-decl\">");
    reveal_strlit("<pre>");
    reveal_strlit("<strong>");
    reveal_strlit("<ul>");
    reveal_strlit("`");
    let s0 = "<b>"@ + t + "</b>"@;
    lemma_framed_unmatched("<b>"@, t, "</b>"@, "<pre class=\"rust item-decl\">"@);
    assert(s0[1] == "<b>"@[1]);
    lemma_mismatch(s0, "<pre class=\"rust item-decl\">"@, 0, 1);
    assert(s0[("<b>"@.len() + t.len()) as int + 1] == "</b>"@[1]);
    lemma_mismatch(s0, "<pre class=\"rust item-decl\">"@, ("<b>"@.len() + t.len()) as int, 1);
    lemma_replace_unmatched(s0, "<pre class=\"rust item-decl\">"@, "\n```rust\n"@);
    let s1 = "<b>"@ + t + "</b>"@;
    lemma_framed_unmatched("<b>"@, t, "</b>"@, "<pre>"@);
    assert(s1[1] == "<b>"@[1]);
    lemma_mismatch(s1, "<pre>"@, 0, 1);
    assert(s1[("<b>"@.len() + t.len()) as int + 1] == "</b>"@[1]);
    lemma_mismatch(s1, "<pre>"@, ("<b>"@.len() + t.len()) as int, 1);
    lemma_replace_unmatched(s1, "<pre>"@, "\n```\n"@);
    let s2 = "<b>"@ + t + "</b>"@;
    lemma_framed_unmatched("<b>"@, t, "</b>"@, "</pre>"@);
    assert(s2[1] == "<b>"@[1]);
    lemma_mismatch(s2, "</pre>"@, 0, 1);
    assert(s2[("<b>"@.len() + t.len()) as int + 2] == "</b>"@[2]);
    lemma_mismatch(s2, "</pre>"@, ("<b>"@.len() + t.len()) as int, 2);
    lemma_replace_unmatched(s2, "</pre>"@, "\n```\n"@);
    let s3 = "<b>"@ + t + "</b>"@;
    lemma_framed_unmatched("<b>"@, t, "</b>"@, "<code>"@);
    assert(s3[1] == "<b>"@[1]);
    lemma_mismatch(s3, "<code>"@, 0, 1);
    assert(s3[("<b>"@.len() + t.len()) as int + 1] == "</b>"@[1]);
    lemma_mismatch(s3, "<code>"@, ("<b>"@.len() + t.len()) as int, 1);
    lemma_replace_unmatched(s3, "<code>"@, "`"@);
    let s4 = "<b>"@ + t + "</b>"@;
    lemma_framed_unmatched("<b>"@, t, "</b>"@, "</code>"@);
    assert(s4[1] == "<b>"@[1]);
    lemma_mismatch(s4, "</code>"@, 0, 1);
    assert(s4[("<b>"@.len() + t.len()) as int + 2] == "</b>"@[2]);
    lemma_mismatch(s4, "</code>"@, ("<b>"@.len() + t.len()) as int, 2);
    lemma_replace_unmatched(s4, "</code>"@, "`"@);
    let s5 = "<b>"@ + t + "</b>"@;
    lemma_framed_unmatched("<b>"@, t, "</b>"@, "<h1>"@);
    assert(s5[1] == "<b>"@[1]);
    lemma_mismatch(s5, "<h1>"@, 0, 1);
    assert(s5[("<b>"@.len() + t.len()) as int + 1] == "</b>"@[1]);
    lemma_mismatch(s5, "<h1>"@, ("<b>"@.len() + t.len()) as int, 1);
    lemma_replace_unmatched(s5, "<h1>"@, "\n# "@);
    let s6 = "<b>"@ + t + "</b>"@;
    lemma_framed_unmatched("<b>"@, t, "</b>"@, "</h1>"@);
    assert(s6[1] == "<b>"@[1]);
    lemma_mismatch(s6, "</h1>"@, 0, 1);
    assert(s6[("<b>"@.len() + t.len()) as int + 2] == "</b>"@[2]);
    lemma_mismatch(s6, "</h1>"@, ("<b>"@.len() + t.len()) as int, 2);
    lemma_replace_unmatched(s6, "</h1>"@, "\n"@);
    let s7 = "<b>"@ + t + "</b>"@;
    lemma_framed_unmatched("<b>"@, t, "</b>"@, "<h2>"@);
    assert(s7[1] == "<b>"@[1]);
    lemma_mismatch(s7, "<h2>"@, 0, 1);
    assert(s7[("<b>"@.len() + t.len()) as int + 1] == "</b>"@[1]);
    lemma_mismatch(s7, "<h2>"@, ("<b>"@.len() + t.len()) as int, 1);
    lemma_replace_unmatched(s7, "<h2>"@, "\n## "@);
    let s8 = "<b>"@ + t + "</b>"@;
    lemma_framed_unmatched("<b>"@, t, "</b>"@, "</h2>"@);
    assert(s8[1] == "<b>"@[1]);
    lemma_mismatch(s8, "</h2>"@, 0, 1);
    assert(s8[("<b>"@.len() + t.len()) as int + 2] == "</b>"@[2]);
    lemma_mismatch(s8, "</h2>"@, ("<b>"@.len() + t.len()) as int, 2);
    lemma_replace_unmatched(s8, "</h2>"@, "\n"@);
    let s9 = "<b>"@ + t + "</b>"@;
    lemma_framed_unmatched("<b>"@, t, "</b>"@, "<h3>"@);
    assert(s9[1] == "<b>"@[1]);
    lemma_mismatch(s9, "<h3>"@, 0, 1);
    assert(s9[("<b>"@.len() + t.len()) as int + 1] == "</b>"@[1]);
    lemma_mismatch(s9, "<h3>"@, ("<b>"@.len() + t.len()) as int, 1);
    lemma_replace_unmatched(s9, "<h3>"@, "\n### "@);
    let s10 = "<b>"@ + t + "</b>"@;
    lemma_framed_unmatched("<b>"@, t, "</b>"@, "</h3>"@);
    assert(s10[1] == "<b>"@[1]);
    lemma_mismatch(s10, "</h3>"@, 0, 1);
    assert(s10[("<b>"@.len() + t.len()) as int + 2] == "</b>"@[2]);
    lemma_mismatch(s10, "</h3>"@, ("<b>"@.len() + t.len()) as int, 2);
    lemma_replace_unmatched(s10, "</h3>"@, "\n"@);
    let s11 = "<b>"@ + t + "</b>"@;
    lemma_framed_unmatched("<b>"@, t, "</b>"@, "<h4>"@);
    assert(s11[1] == "<b>"@[1]);
    lemma_mismatch(s11, "<h4>"@, 0, 1);
    assert(s11[("<b>"@.len() + t.len()) as int + 1] == "</b>"@[1]);
    lemma_mismatch(s11, "<h4>"@, ("<b>"@.len() + t.len()) as int, 1);
    lemma_replace_unmatched(s11, "<h4>"@, "\n#### "@);
    let s12 = "<b>"@ + t + "</b>"@;
    lemma_framed_unmatched("<b>"@, t, "</b>"@, "</h4>"@);
    assert(s12[1] == "<b>"@[1]);
    lemma_mismatch(s12, "</h4>"@, 0, 1);
    assert(s12[("<b>"@.len() + t.len()) as int + 2] == "</b>"@[2]);
    lemma_mismatch(s12, "</h4>"@, ("<b>"@.len() + t.len()) as int, 2);
    lemma_replace_unmatched(s12, "</h4>"@, "\n"@);
    let s13 = "<b>"@ + t + "</b>"@;
    lemma_framed_unmatched("<b>"@, t, "</b>"@, "<strong>"@);
    assert(s13[1] == "<b>"@[1]);
    lemma_mismatch(s13, "<strong>"@, 0, 1);
    assert(s13[("<b>"@.len() + t.len()) as int + 1] == "</b>"@[1]);
    lemma_mismatch(s13, "<strong>"@, ("<b>"@.len() + t.len()) as int, 1);
    lemma_replace_unmatched(s13, "<strong>"@, "**"@);
    let s14 = "<b>"@ + t + "</b>"@;
    lemma_framed_unmatched("<b>"@, t, "</b>"@, "</strong>"@);
    assert(s14[1] == "<b>"@[1]);
    lemma_mismatch(s14, "</strong>"@, 0, 1);
    assert(s14[("<b>"@.len() + t.len()) as int + 2] == "</b>"@[2]);
    lemma_mismatch(s14, "</strong>"@, ("<b>"@.len() + t.len()) as int, 2);
    lemma_replace_unmatched(s14, "</strong>"@, "**"@);
    let s15 = "<b>"@ + t + "</b>"@;
    lemma_framed_unmatched("<b>"@, t, "</b>"@, "<b>"@);
    assert(s15[("<b>"@.len() + t.len()) as int + 1] == "</b>"@[1]);
    lemma_mismatch(s15, "<b>"@, ("<b>"@.len() + t.len()) as int, 1);
    assert(Seq::<char>::empty() + "<b>"@ + (t + "</b>"@) =~= s15);
    lemma_replace_single(Seq::<char>::empty(), "<b>"@, t + "</b>"@, "**"@);
    assert(replace_all(s15, "<b>"@, "**"@) =~= "**"@ + t + "</b>"@);
    let s16 = "**"@ + t + "</b>"@;
    lemma_framed_unmatched("**"@, t, "</b>"@, "</b>"@);
    lemma_mismatch(s16, "</b>"@, 0, 0);
    assert(("**"@ + t) + "</b>"@ + Seq::<char>::empty() =~= s16);
    lemma_replace_single("**"@ + t, "</b>"@, Seq::<char>::empty(), "**"@);
    assert(replace_all(s16, "</b>"@, "**"@) =~= "**"@ + t + "**"@);
    let s17 = "**"@ + t + "**"@;
    lemma_lacks_concat("**"@, t, '<');
    lemma_lacks_concat("**"@ + t, "**"@, '<');
    lemma_replace_all_absent(s17, "<em>"@, "*"@);
    let s18 = "**"@ + t + "**"@;
    lemma_lacks_concat("**"@, t, '<');
    lemma_lacks_concat("**"@ + t, "**"@, '<');
    lemma_replace_all_absent(s18, "</em>"@, "*"@);
    let s19 = "**"@ + t + "**"@;
    lemma_lacks_concat("**"@, t, '<');
    lemma_lacks_concat("**"@ + t, "**"@, '<');
    lemma_replace_all_absent(s19, "<i>"@, "*"@);
    let s20 = "**"@ + t + "**"@;
    lemma_lacks_concat("**"@, t, '<');
    lemma_lacks_concat("**"@ + t, "**"@, '<');
    lemma_replace_all_absent(s20, "</i>"@, "*"@);
    let s21 = "**"@ + t + "**"@;
    lemma_lacks_concat("**"@, t, '<');
    lemma_lacks_concat("**"@ + t, "**"@, '<');
    lemma_replace_all_absent(s21, "<p>"@, "\n\n"@);
    let s22 = "**"@ + t + "**"@;
    lemma_lacks_concat("**"@, t, '<');
    lemma_lacks_concat("**"@ + t, "**"@, '<');
    lemma_replace_all_absent(s22, "</p>"@, "\n\n"@);
    let s23 = "**"@ + t + "**"@;
    lemma_lacks_concat("**"@, t, '<');
    lemma_lacks_concat("**"@ + t, "**"@, '<');
    lemma_replace_all_absent(s23, "<br>"@, "\n"@);
    let s24 = "**"@ + t + "**"@;
    lemma_lacks_concat("**"@, t, '<');
    lemma_lacks_concat("**"@ + t, "**"@, '<');
    lemma_replace_all_absent(s24, "<br/>"@, "\n"@);
    let s25 = "**"@ + t + "**"@;
    lemma_lacks_concat("**"@, t, '<');
    lemma_lacks_concat("**"@ + t, "**"@, '<');
    lemma_replace_all_absent(s25, "<br />"@, "\n"@);
    let s26 = "**"@ + t + "**"@;
    lemma_lacks_concat("**"@, t, '<');
    lemma_lacks_concat("**"@ + t, "**"@, '<');
    lemma_replace_all_absent(s26, "<li>"@, "\n- "@);
    let s27 = "**"@ + t + "**"@;
    lemma_lacks_concat("**"@, t, '<');
    lemma_lacks_concat("**"@ + t, "**"@, '<');
    lemma_replace_all_absent(s27, "</li>"@, ""@);
    let s28 = "**"@ + t + "**"@;
    lemma_lacks_concat("**"@, t, '<');
    lemma_lacks_concat("**"@ + t, "**"@, '<');
    lemma_replace_all_absent(s28, "<ul>"@, "\n"@);
    let s29 = "**"@ + t + "**"@;
    lemma_lacks_concat("**"@, t, '<');
    lemma_lacks_concat("**"@ + t, "**"@, '<');
    lemma_replace_all_absent(s29, "</ul>"@, "\n"@);
    let s30 = "**"@ + t + "**"@;
    lemma_lacks_concat("**"@, t, '<');
    lemma_lacks_concat("**"@ + t, "**"@, '<');
    lemma_replace_all_absent(s30, "<ol>"@, "\n"@);
    let s31 = "**"@ + t + "**"@;
    lemma_lacks_concat("**"@, t, '<');
    lemma_lacks_concat("**"@ + t, "**"@, '<');
    lemma_replace_all_absent(s31, "</ol>"@, "\n"@);
}

/// The markup rewrites turn `<em>` and `</em>` around text without `<` into
/// their Markdown forms.
proof fn lemma_element_markup_em(t: Seq<char>)
    requires
        lacks(t, '<'),
    ensures
        rewrite_markup("<em>"@ + t + "</em>"@) == "*"@ + t + "*"@,
{
    reveal_strlit("");
    reveal_strlit("\n");
    reveal_strlit("\n\n");
    reveal_strlit("\n# ");
    reveal_strlit("\n## ");
    reveal_strlit("\n### ");
    reveal_strlit("\n#### ");
    reveal_strlit("\n- ");
    reveal_strlit("\n```\n");
    reveal_strlit("\n```rust\n");
    reveal_strlit("*");
    reveal_strlit("**");
    reveal_strlit("</b>");
    reveal_strlit("</code>");
    reveal_strlit("</em>");
    reveal_strlit("</h1>");
    reveal_strlit("</h2>");
    reveal_strlit("</h3>");
    reveal_strlit("</h4>");
    reveal_strlit("</i>");
    reveal_strlit("</li>");
    reveal_strlit("</ol>");
    reveal_strlit("</p>");
    reveal_strlit("</pre>");
    reveal_strlit("</strong>");
    reveal_strlit("</ul>");
    reveal_strlit("<b>");
    reveal_strlit("<br />");
    reveal_strlit("<br/>");
    reveal_strlit("<br>");
    reveal_strlit("<code>");
    reveal_strlit("<em>");
    reveal_strlit("<h1>");
    reveal_strlit("<h2>");
    reveal_strlit("<h3>");
    reveal_strlit("<h4>");
    reveal_strlit("<i>");
    reveal_strlit("<li>");
    reveal_strlit("<ol>");
    reveal_strlit("<p>");
    reveal_strlit("<pre class=\"rust item-decl\">");
    reveal_strlit("<pre>");
    reveal_strlit("<strong>");
    reveal_strlit("<ul>");
    reveal_strlit("`");
    let s0 = "<em>"@ + t + "</em>"@;
    lemma_framed_unmatched("<em>"@, t, "</em>"@, "<pre class=\"rust item-decl\">"@);
    assert(s0[1] == "<em>"@[1]);
    lemma_mismatch(s0, "<pre class=\"rust item-decl\">"@, 0, 1);
    assert(s0[("<em>"@.len() + t.len()) as int + 1] == "</em>"@[1]);
    lemma_mismatch(s0, "<pre class=\"rust item-decl\">"@, ("<em>"@.len() + t.len()) as int, 1);
    lemma_replace_unmatched(s0, "<pre class=\"rust item-decl\">"@, "\n```rust\n"@);
    let s1 = "<em>"@ + t + "</em>"@;
    lemma_framed_unmatched("<em>"@, t, "</em>"@, "<pre>"@);
    assert(s1[1] == "<em>"@[1]);
    lemma_mismatch(s1, "<pre>"@, 0, 1);
    assert(s1[("<em>"@.len() + t.len()) as int + 1] == "</em>"@[1]);
    lemma_mismatch(s1, "<pre>"@, ("<em>"@.len() + t.len()) as int, 1);
    lemma_replace_unmatched(s1, "<pre>"@, "\n```\n"@);
    let s2 = "<em>"@ + t + "</em>"@;
    lemma_framed_unmatched("<em>"@, t, "</em>"@, "</pre>"@);
    assert(s2[1] == "<em>"@[1]);
    lemma_mismatch(s2, "</pre>"@, 0, 1);
    assert(s2[("<em>"@.len() + t.len()) as int + 2] == "</em>"@[2]);
    lemma_mismatch(s2, "</pre>"@, ("<em>"@.len() + t.len()) as int, 2);
    lemma_replace_unmatched(s2, "</pre>"@, "\n```\n"@);
    let s3 = "<em>"@ + t + "</em>"@;
    lemma_framed_unmatched("<em>"@, t, "</em>"@, "<code>"@);
    assert(s3[1] == "<em>"@[1]);
    lemma_mismatch(s3, "<code>"@, 0, 1);
    assert(s3[("<em>"@.len() + t.len()) as int + 1] == "</em>"@[1]);
    lemma_mismatch(s3, "<code>"@, ("<em>"@.len() + t.len()) as int, 1);
    lemma_replace_unmatched(s3, "<code>"@, "`"@);
    let s4 = "<em>"@ + t + "</em>"@;
    lemma_framed_unmatched("<em>"@, t, "</em>"@, "</code>"@);
    assert(s4[1] == "<em>"@[1]);
    lemma_mismatch(s4, "</code>"@, 0, 1);
    assert(s4[("<em>"@.len() + t.len()) as int + 2] == "</em>"@[2]);
    lemma_mismatch(s4, "</code>"@, ("<em>"@.len() + t.len()) as int, 2);
    lemma_replace_unmatched(s4, "</code>"@, "`"@);
    let s5 = "<em>"@ + t + "</em>"@;
    lemma_framed_unmatched("<em>"@, t, "</em>"@, "<h1>"@);
    assert(s5[1] == "<em>"@[1]);
    lemma_mismatch(s5, "<h1>"@, 0, 1);
    assert(s5[("<em>"@.len() + t.len()) as int + 1] == "</em>"@[1]);
    lemma_mismatch(s5, "<h1>"@, ("<em>"@.len() + t.len()) as int, 1);
    lemma_replace_unmatched(s5, "<h1>"@, "\n# "@);
    let s6 = "<em>"@ + t + "</em>"@;
    lemma_framed_unmatched("<em>"@, t, "</em>"@, "</h1>"@);
    assert(s6[1] == "<em>"@[1]);
    lemma_mismatch(s6, "</h1>"@, 0, 1);
    assert(s6[("<em>"@.len() + t.len()) as int + 2] == "</em>"@[2]);
    lemma_mismatch(s6, "</h1>"@, ("<em>"@.len() + t.len()) as int, 2);
    lemma_replace_unmatched(s6, "</h1>"@, "\n"@);
    let s7 = "<em>"@ + t + "</em>"@;
    lemma_framed_unmatched("<em>"@, t, "</em>"@, "<h2>"@);
    assert(s7[1] == "<em>"@[1]);
    lemma_mismatch(s7, "<h2>"@, 0, 1);
    assert(s7[("<em>"@.len() + t.len()) as int + 1] == "</em>"@[1]);
    lemma_mismatch(s7, "<h2>"@, ("<em>"@.len() + t.len()) as int, 1);
    lemma_replace_unmatched(s7, "<h2>"@, "\n## "@);
    let s8 = "<em>"@ + t + "</em>"@;
    lemma_framed_unmatched("<em>"@, t, "</em>"@, "</h2>"@);
    assert(s8[1] == "<em>"@[1]);
    lemma_mismatch(s8, "</h2>"@, 0, 1);
    assert(s8[("<em>"@.len() + t.len()) as int + 2] == "</em>"@[2]);
    lemma_mismatch(s8, "</h2>"@, ("<em>"@.len() + t.len()) as int, 2);
    lemma_replace_unmatched(s8, "</h2>"@, "\n"@);
    let s9 = "<em>"@ + t + "</em>"@;
    lemma_framed_unmatched("<em>"@, t, "</em>"@, "<h3>"@);
    assert(s9[1] == "<em>"@[1]);
    lemma_mismatch(s9, "<h3>"@, 0, 1);
    assert(s9[("<em>"@.len() + t.len()) as int + 1] == "</em>"@[1]);
    lemma_mismatch(s9, "<h3>"@, ("<em>"@.len() + t.len()) as int, 1);
    lemma_replace_unmatched(s9, "<h3>"@, "\n### "@);
    let s10 = "<em>"@ + t + "</em>"@;
    lemma_framed_unmatched("<em>"@, t, "</em>"@, "</h3>"@);
    assert(s10[1] == "<em>"@[1]);
    lemma_mismatch(s10, "</h3>"@, 0, 1);
    assert(s10[("<em>"@.len() + t.len()) as int + 2] == "</em>"@[2]);
    lemma_mismatch(s10, "</h3>"@, ("<em>"@.len() + t.len()) as int, 2);
    lemma_replace_unmatched(s10, "</h3>"@, "\n"@);
    let s11 = "<em>"@ + t + "</em>"@;
    lemma_framed_unmatched("<em>"@, t, "</em>"@, "<h4>"@);
    assert(s11[1] == "<em>"@[1]);
    lemma_mismatch(s11, "<h4>"@, 0, 1);
    assert(s11[("<em>"@.len() + t.len()) as int + 1] == "</em>"@[1]);
    lemma_mismatch(s11, "<h4>"@, ("<em>"@.len() + t.len()) as int, 1);
    lemma_replace_unmatched(s11, "<h4>"@, "\n#### "@);
    let s12 = "<em>"@ + t + "</em>"@;
    lemma_framed_unmatched("<em>"@, t, "</em>"@, "</h4>"@);
    assert(s12[1] == "<em>"@[1]);
    lemma_mismatch(s12, "</h4>"@, 0, 1);
    assert(s12[("<em>"@.len() + t.len()) as int + 2] == "</em>"@[2]);
    lemma_mismatch(s12, "</h4>"@, ("<em>"@.len() + t.len()) as int, 2);
    lemma_replace_unmatched(s12, "</h4>"@, "\n"@);
    let s13 = "<em>"@ + t + "</em>"@;
    lemma_framed_unmatched("<em>"@, t, "</em>"@, "<strong>"@);
    assert(s13[1] == "<em>"@[1]);
    lemma_mismatch(s13, "<strong>"@, 0, 1);
    assert(s13[("<em>"@.len() + t.len()) as int + 1] == "</em>"@[1]);
    lemma_mismatch(s13, "<strong>"@, ("<em>"@.len() + t.len()) as int, 1);
    lemma_replace_unmatched(s13, "<strong>"@, "**"@);
    let s14 = "<em>"@ + t + "</em>"@;
    lemma_framed_unmatched("<em>"@, t, "</em>"@, "</strong>"@);
    assert(s14[1] == "<em>"@[1]);
    lemma_mismatch(s14, "</strong>"@, 0, 1);
    assert(s14[("<em>"@.len() + t.len()) as int + 2] == "</em>"@[2]);
    lemma_mismatch(s14, "</strong>"@, ("<em>"@.len() + t.len()) as int, 2);
    lemma_replace_unmatched(s14, "</strong>"@, "**"@);
    let s15 = "<em>"@ + t + "</em>"@;
    lemma_framed_unmatched("<em>"@, t, "</em>"@, "<b>"@);
    assert(s15[1] == "<em>"@[1]);
    lemma_mismatch(s15, "<b>"@, 0, 1);
    assert(s15[("<em>"@.len() + t.len()) as int + 1] == "</em>"@[1]);
    lemma_mismatch(s15, "<b>"@, ("<em>"@.len() + t.len()) as int, 1);
    lemma_replace_unmatched(s15, "<b>"@, "**"@);
    let s16 = "<em>"@ + t + "</em>"@;
    lemma_framed_unmatched("<em>"@, t, "</em>"@, "</b>"@);
    assert(s16[1] == "<em>"@[1]);
    lemma_mismatch(s16, "</b>"@, 0, 1);
    assert(s16[("<em>"@.len() + t.len()) as int + 2] == "</em>"@[2]);
    lemma_mismatch(s16, "</b>"@, ("<em>"@.len() + t.len()) as int, 2);
    lemma_replace_unmatched(s16, "</b>"@, "**"@);
    let s17 = "<em>"@ + t + "</em>"@;
    lemma_framed_unmatched("<em>"@, t, "</em>"@, "<em>"@);
    assert(s17[("<em>"@.len() + t.len()) as int + 1] == "</em>"@[1]);
    lemma_mismatch(s17, "<em>"@, ("<em>"@.len() + t.len()) as int, 1);
    assert(Seq::<char>::empty() + "<em>"@ + (t + "</em>"@) =~= s17);
    lemma_replace_single(Seq::<char>::empty(), "<em>"@, t + "</em>"@, "*"@);
    assert(replace_all(s17, "<em>"@, "*"@) =~= "*"@ + t + "</em>"@);
    let s18 = "*"@ + t + "</em>"@;
    lemma_framed_unmatched("*"@, t, "</em>"@, "</em>"@);
    lemma_mismatch(s18, "</em>"@, 0, 0);
    assert(("*"@ + t) + "</em>"@ + Seq::<char>::empty() =~= s18);
    lemma_replace_single("*"@ + t, "</em>"@, Seq::<char>::empty(), "*"@);
    assert(replace_all(s18, "</em>"@, "*"@) =~= "*"@ + t + "*"@);
    let s19 = "*"@ + t + "*"@;
    lemma_lacks_concat("*"@, t, '<');
    lemma_lacks_concat("*"@ + t, "*"@, '<');
    lemma_replace_all_absent(s19, "<i>"@, "*"@);
    let s20 = "*"@ + t + "*"@;
    lemma_lacks_concat("*"@, t, '<');
    lemma_lacks_concat("*"@ + t, "*"@, '<');
    lemma_replace_all_absent(s20, "</i>"@, "*"@);
    let s21 = "*"@ + t + "*"@;
    lemma_lacks_concat("*"@, t, '<');
    lemma_lacks_concat("*"@ + t, "*"@, '<');
    lemma_replace_all_absent(s21, "<p>"@, "\n\n"@);
    let s22 = "*"@ + t + "*"@;
    lemma_lacks_concat("*"@, t, '<');
    lemma_lacks_concat("*"@ + t, "*"@, '<');
    lemma_replace_all_absent(s22, "</p>"@, "\n\n"@);
    let s23 = "*"@ + t + "*"@;
    lemma_lacks_concat("*"@, t, '<');
    lemma_lacks_concat("*"@ + t, "*"@, '<');
    lemma_replace_all_absent(s23, "<br>"@, "\n"@);
    let s24 = "*"@ + t + "*"@;
    lemma_lacks_concat("*"@, t, '<');
    lemma_lacks_concat("*"@ + t, "*"@, '<');
    lemma_replace_all_absent(s24, "<br/>"@, "\n"@);
    let s25 = "*"@ + t + "*"@;
    lemma_lacks_concat("*"@, t, '<');
    lemma_lacks_concat("*"@ + t, "*"@, '<');
    lemma_replace_all_absent(s25, "<br />"@, "\n"@);
    let s26 = "*"@ + t + "*"@;
    lemma_lacks_concat("*"@, t, '<');
    lemma_lacks_concat("*"@ + t, "*"@, '<');
    lemma_replace_all_absent(s26, "<li>"@, "\n- "@);
    let s27 = "*"@ + t + "*"@;
    lemma_lacks_concat("*"@, t, '<');
    lemma_lacks_concat("*"@ + t, "*"@, '<');
    lemma_replace_all_absent(s27, "</li>"@, ""@);
    let s28 = "*"@ + t + "*"@;
    lemma_lacks_concat("*"@, t, '<');
    lemma_lacks_concat("*"@ + t, "*"@, '<');
    lemma_replace_all_absent(s28, "<ul>"@, "\n"@);
    let s29 = "*"@ + t + "*"@;
    lemma_lacks_concat("*"@, t, '<');
    lemma_lacks_concat("*"@ + t, "*"@, '<');
    lemma_replace_all_absent(s29, "</ul>"@, "\n"@);
    let s30 = "*"@ + t + "*"@;
    lemma_lacks_concat("*"@, t, '<');
    lemma_lacks_concat("*"@ + t, "*"@, '<');
    lemma_replace_all_absent(s30, "<ol>"@, "\n"@);
    let s31 = "*"@ + t + "*"@;
    lemma_lacks_concat("*"@, t, '<');
    lemma_lacks_concat("*"@ + t, "*"@, '<');
    lemma_replace_all_absent(s31, "</ol>"@, "\n"@);
}

/// The markup rewrites turn `<i>` and `</i>` around text without `<` into
/// their Markdown forms.
proof fn lemma_element_markup_i(t: Seq<char>)
    requires
        lacks(t, '<'),
    ensures
        rewrite_markup("<i>"@ + t + "</i>"@) == "*"@ + t + "*"@,
{
    reveal_strlit("");
    reveal_strlit("\n");
    reveal_strlit("\n\n");
    reveal_strlit("\n# ");
    reveal_strlit("\n## ");
    reveal_strlit("\n### ");
    reveal_strlit("\n#### ");
    reveal_strlit("\n- ");
    reveal_strlit("\n```\n");
    reveal_strlit("\n```rust\n");
    reveal_strlit("*");
    reveal_strlit("**");
    reveal_strlit("</b>");
    reveal_strlit("</code>");
    reveal_strlit("</em>");
    reveal_strlit("</h1>");
    reveal_strlit("</h2>");
    reveal_strlit("</h3>");
    reveal_strlit("</h4>");
    reveal_strlit("</i>");
    reveal_strlit("</li>");
    reveal_strlit("</ol>");
    reveal_strlit("</p>");
    reveal_strlit("</pre>");
    reveal_strlit("</strong>");
    reveal_strlit("</ul>");
    reveal_strlit("<b>");
    reveal_strlit("<br />");
    reveal_strlit("<br/>");
    reveal_strlit("<br>");
    reveal_strlit("<code>");
    reveal_strlit("<em>");
    reveal_strlit("<h1>");
    reveal_strlit("<h2>");
    reveal_strlit("<h3>");
    reveal_strlit("<h4>");
    reveal_strlit("<i>");
    reveal_strlit("<li>");
    reveal_strlit("<ol>");
    reveal_strlit("<p>");
    reveal_strlit("<pre class=\"rust item-decl\">");
    reveal_strlit("<pre>");
    reveal_strlit("<strong>");
    reveal_strlit("<ul>");
    reveal_strlit("`");
    let s0 = "<i>"@ + t + "</i>"@;
    lemma_framed_unmatched("<i>"@, t, "</i>"@, "<pre class=\"rust item-decl\">"@);
    assert(s0[1] == "<i>"@[1]);
    lemma_mismatch(s0, "<pre class=\"rust item-decl\">"@, 0, 1);
    assert(s0[("<i>"@.len() + t.len()) as int + 1] == "</i>"@[1]);
    lemma_mismatch(s0, "<pre class=\"rust item-decl\">"@, ("<i>"@.len() + t.len()) as int, 1);
    lemma_replace_unmatched(s0, "<pre class=\"rust item-decl\">"@, "\n```rust\n"@);
    let s1 = "<i>"@ + t + "</i>"@;
    lemma_framed_unmatched("<i>"@, t, "</i>"@, "<pre>"@);
    assert(s1[1] == "<i>"@[1]);
    lemma_mismatch(s1, "<pre>"@, 0, 1);
    assert(s1[("<i>"@.len() + t.len()) as int + 1] == "</i>"@[1]);
    lemma_mismatch(s1, "<pre>"@, ("<i>"@.len() + t.len()) as int, 1);
    lemma_replace_unmatched(s1, "<pre>"@, "\n```\n"@);
    let s2 = "<i>"@ + t + "</i>"@;
    lemma_framed_unmatched("<i>"@, t, "</i>"@, "</pre>"@);
    assert(s2[1] == "<i>"@[1]);
    lemma_mismatch(s2, "</pre>"@, 0, 1);
    assert(s2[("<i>"@.len() + t.len()) as int + 2] == "</i>"@[2]);
    lemma_mismatch(s2, "</pre>"@, ("<i>"@.len() + t.len()) as int, 2);
    lemma_replace_unmatched(s2, "</pre>"@, "\n```\n"@);
    let s3 = "<i>"@ + t + "</i>"@;
    lemma_framed_unmatched("<i>"@, t, "</i>"@, "<code>"@);
    assert(s3[1] == "<i>"@[1]);
    lemma_mismatch(s3, "<code>"@, 0, 1);
    assert(s3[("<i>"@.len() + t.len()) as int + 1] == "</i>"@[1]);
    lemma_mismatch(s3, "<code>"@, ("<i>"@.len() + t.len()) as int, 1);
    lemma_replace_unmatched(s3, "<code>"@, "`"@);
    let s4 = "<i>"@ + t + "</i>"@;
    lemma_framed_unmatched("<i>"@, t, "</i>"@, "</code>"@);
    assert(s4[1] == "<i>"@[1]);
    lemma_mismatch(s4, "</code>"@, 0, 1);
    assert(s4[("<i>"@.len() + t.len()) as int + 2] == "</i>"@[2]);
    lemma_mismatch(s4, "</code>"@, ("<i>"@.len() + t.len()) as int, 2);
    lemma_replace_unmatched(s4, "</code>"@, "`"@);
    let s5 = "<i>"@ + t + "</i>"@;
    lemma_framed_unmatched("<i>"@, t, "</i>"@, "<h1>"@);
    assert(s5[1] == "<i>"@[1]);
    lemma_mismatch(s5, "<h1>"@, 0, 1);
    assert(s5[("<i>"@.len() + t.len()) as int + 1] == "</i>"@[1]);
    lemma_mismatch(s5, "<h1>"@, ("<i>"@.len() + t.len()) as int, 1);
    lemma_replace_unmatched(s5, "<h1>"@, "\n# "@);
    let s6 = "<i>"@ + t + "</i>"@;
    lemma_framed_unmatched("<i>"@, t, "</i>"@, "</h1>"@);
    assert(s6[1] == "<i>"@[1]);
    lemma_mismatch(s6, "</h1>"@, 0, 1);
    assert(s6[("<i>"@.len() + t.len()) as int + 2] == "</i>"@[2]);
    lemma_mismatch(s6, "</h1>"@, ("<i>"@.len() + t.len()) as int, 2);
    lemma_replace_unmatched(s6, "</h1>"@, "\n"@);
    let s7 = "<i>"@ + t + "</i>"@;
    lemma_framed_unmatched("<i>"@, t, "</i>"@, "<h2>"@);
    assert(s7[1] == "<i>"@[1]);
    lemma_mismatch(s7, "<h2>"@, 0, 1);
    assert(s7[("<i>"@.len() + t.len()) as int + 1] == "</i>"@[1]);
    lemma_mismatch(s7, "<h2>"@, ("<i>"@.len() + t.len()) as int, 1);
    lemma_replace_unmatched(s7, "<h2>"@, "\n## "@);
    let s8 = "<i>"@ + t + "</i>"@;
    lemma_framed_unmatched("<i>"@, t, "</i>"@, "</h2>"@);
    assert(s8[1] == "<i>"@[1]);
    lemma_mismatch(s8, "</h2>"@, 0, 1);
    assert(s8[("<i>"@.len() + t.len()) as int + 2] == "</i>"@[2]);
    lemma_mismatch(s8, "</h2>"@, ("<i>"@.len() + t.len()) as int, 2);
    lemma_replace_unmatched(s8, "</h2>"@, "\n"@);
    let s9 = "<i>"@ + t + "</i>"@;
    lemma_framed_unmatched("<i>"@, t, "</i>"@, "<h3>"@);
    assert(s9[1] == "<i>"@[1]);
    lemma_mismatch(s9, "<h3>"@, 0, 1);
    assert(s9[("<i>"@.len() + t.len()) as int + 1] == "</i>"@[1]);
    lemma_mismatch(s9, "<h3>"@, ("<i>"@.len() + t.len()) as int, 1);
    lemma_replace_unmatched(s9, "<h3>"@, "\n### "@);
    let s10 = "<i>"@ + t + "</i>"@;
    lemma_framed_unmatched("<i>"@, t, "</i>"@, "</h3>"@);
    assert(s10[1] == "<i>"@[1]);
    lemma_mismatch(s10, "</h3>"@, 0, 1);
    assert(s10[("<i>"@.len() + t.len()) as int + 2] == "</i>"@[2]);
    lemma_mismatch(s10, "</h3>"@, ("<i>"@.len() + t.len()) as int, 2);
    lemma_replace_unmatched(s10, "</h3>"@, "\n"@);
    let s11 = "<i>"@ + t + "</i>"@;
    lemma_framed_unmatched("<i>"@, t, "</i>"@, "<h4>"@);
    assert(s11[1] == "<i>"@[1]);
    lemma_mismatch(s11, "<h4>"@, 0, 1);
    assert(s11[("<i>"@.len() + t.len()) as int + 1] == "</i>"@[1]);
    lemma_mismatch(s11, "<h4>"@, ("<i>"@.len() + t.len()) as int, 1);
    lemma_replace_unmatched(s11, "<h4>"@, "\n#### "@);
    let s12 = "<i>"@ + t + "</i>"@;
    lemma_framed_unmatched("<i>"@, t, "</i>"@, "</h4>"@);
    assert(s12[1] == "<i>"@[1]);
    lemma_mismatch(s12, "</h4>"@, 0, 1);
    assert(s12[("<i>"@.len() + t.len()) as int + 2] == "</i>"@[2]);
    lemma_mismatch(s12, "</h4>"@, ("<i>"@.len() + t.len()) as int, 2);
    lemma_replace_unmatched(s12, "</h4>"@, "\n"@);
    let s13 = "<i>"@ + t + "</i>"@;
    lemma_framed_unmatched("<i>"@, t, "</i>"@, "<strong>"@);
    assert(s13[1] == "<i>"@[1]);
    lemma_mismatch(s13, "<strong>"@, 0, 1);
    assert(s13[("<i>"@.len() + t.len()) as int + 1] == "</i>"@[1]);
    lemma_mismatch(s13, "<strong>"@, ("<i>"@.len() + t.len()) as int, 1);
    lemma_replace_unmatched(s13, "<strong>"@, "**"@);
    let s14 = "<i>"@ + t + "</i>"@;
    lemma_framed_unmatched("<i>"@, t, "</i>"@, "</strong>"@);
    assert(s14[1] == "<i>"@[1]);
    lemma_mismatch(s14, "</strong>"@, 0, 1);
    assert(s14[("<i>"@.len() + t.len()) as int + 2] == "</i>"@[2]);
    lemma_mismatch(s14, "</strong>"@, ("<i>"@.len() + t.len()) as int, 2);
    lemma_replace_unmatched(s14, "</strong>"@, "**"@);
    let s15 = "<i>"@ + t + "</i>"@;
    lemma_framed_unmatched("<i>"@, t, "</i>"@, "<b>"@);
    assert(s15[1] == "<i>"@[1]);
    lemma_mismatch(s15, "<b>"@, 0, 1);
    assert(s15[("<i>"@.len() + t.len()) as int + 1] == "</i>"@[1]);
    lemma_mismatch(s15, "<b>"@, ("<i>"@.len() + t.len()) as int, 1);
    lemma_replace_unmatched(s15, "<b>"@, "**"@);
    let s16 = "<i>"@ + t + "</i>"@;
    lemma_framed_unmatched("<i>"@, t, "</i>"@, "</b>"@);
    assert(s16[1] == "<i>"@[1]);
    lemma_mismatch(s16, "</b>"@, 0, 1);
    assert(s16[("<i>"@.len() + t.len()) as int + 2] == "</i>"@[2]);
    lemma_mismatch(s16, "</b>"@, ("<i>"@.len() + t.len()) as int, 2);
    lemma_replace_unmatched(s16, "</b>"@, "**"@);
    let s17 = "<i>"@ + t + "</i>"@;
    lemma_framed_unmatched("<i>"@, t, "</i>"@, "<em>"@);
    assert(s17[1] == "<i>"@[1]);
    lemma_mismatch(s17, "<em>"@, 0, 1);
    assert(s17[("<i>"@.len() + t.len()) as int + 1] == "</i>"@[1]);
    lemma_mismatch(s17, "<em>"@, ("<i>"@.len() + t.len()) as int, 1);
    lemma_replace_unmatched(s17, "<em>"@, "*"@);
    let s18 = "<i>"@ + t + "</i>"@;
    lemma_framed_unmatched("<i>"@, t, "</i>"@, "</em>"@);
    assert(s18[1] == "<i>"@[1]);
    lemma_mismatch(s18, "</em>"@, 0, 1);
    assert(s18[("<i>"@.len() + t.len()) as int + 2] == "</i>"@[2]);
    lemma_mismatch(s18, "</em>"@, ("<i>"@.len() + t.len()) as int, 2);
    lemma_replace_unmatched(s18, "</em>"@, "*"@);
    let s19 = "<i>"@ + t + "</i>"@;
    lemma_framed_unmatched("<i>"@, t, "</i>"@, "<i>"@);
    assert(s19[("<i>"@.len() + t.len()) as int + 1] == "</i>"@[1]);
    lemma_mismatch(s19, "<i>"@, ("<i>"@.len() + t.len()) as int, 1);
    assert(Seq::<char>::empty() + "<i>"@ + (t + "</i>"@) =~= s19);
    lemma_replace_single(Seq::<char>::empty(), "<i>"@, t + "</i>"@, "*"@);
    assert(replace_all(s19, "<i>"@, "*"@) =~= "*"@ + t + "</i>"@);
    let s20 = "*"@ + t + "</i>"@;
    lemma_framed_unmatched("*"@, t, "</i>"@, "</i>"@);
    lemma_mismatch(s20, "</i>"@, 0, 0);
    assert(("*"@ + t) + "</i>"@ + Seq::<char>::empty() =~= s20);
    lemma_replace_single("*"@ + t, "</i>"@, Seq::<char>::empty(), "*"@);
    assert(replace_all(s20, "</i>"@, "*"@) =~= "*"@ + t + "*"@);
    let s21 = "*"@ + t + "*"@;
    lemma_lacks_concat("*"@, t, '<');
    lemma_lacks_concat("*"@ + t, "*"@, '<');
    lemma_replace_all_absent(s21, "<p>"@, "\n\n"@);
    let s22 = "*"@ + t + "*"@;
    lemma_lacks_concat("*"@, t, '<');
    lemma_lacks_concat("*"@ + t, "*"@, '<');
    lemma_replace_all_absent(s22, "</p>"@, "\n\n"@);
    let s23 = "*"@ + t + "*"@;
    lemma_lacks_concat("*"@, t, '<');
    lemma_lacks_concat("*"@ + t, "*"@, '<');
    lemma_replace_all_absent(s23, "<br>"@, "\n"@);
    let s24 = "*"@ + t + "*"@;
    lemma_lacks_concat("*"@, t, '<');
    lemma_lacks_concat("*"@ + t, "*"@, '<');
    lemma_replace_all_absent(s24, "<br/>"@, "\n"@);
    let s25 = "*"@ + t + "*"@;
    lemma_lacks_concat("*"@, t, '<');
    lemma_lacks_concat("*"@ + t, "*"@, '<');
    lemma_replace_all_absent(s25, "<br />"@, "\n"@);
    let s26 = "*"@ + t + "*"@;
    lemma_lacks_concat("*"@, t, '<');
    lemma_lacks_concat("*"@ + t, "*"@, '<');
    lemma_replace_all_absent(s26, "<li>"@, "\n- "@);
    let s27 = "*"@ + t + "*"@;
    lemma_lacks_concat("*"@, t, '<');
    lemma_lacks_concat("*"@ + t, "*"@, '<');
    lemma_replace_all_absent(s27, "</li>"@, ""@);
    let s28 = "*"@ + t + "*"@;
    lemma_lacks_concat("*"@, t, '<');
    lemma_lacks_concat("*"@ + t, "*"@, '<');
    lemma_replace_all_absent(s28, "<ul>"@, "\n"@);
    let s29 = "*"@ + t + "*"@;
    lemma_lacks_concat("*"@, t, '<');
    lemma_lacks_concat("*"@ + t, "*"@, '<');
    lemma_replace_all_absent(s29, "</ul>"@, "\n"@);
    let s30 = "*"@ + t + "*"@;
    lemma_lacks_concat("*"@, t, '<');
    lemma_lacks_concat("*"@ + t, "*"@, '<');
    lemma_replace_all_absent(s30, "<ol>"@, "\n"@);
    let s31 = "*"@ + t + "*"@;
    lemma_lacks_concat("*"@, t, '<');
    lemma_lacks_concat("*"@ + t, "*"@, '<');
    lemma_replace_all_absent(s31, "</ol>"@, "\n"@);
}

/// The markup rewrites turn `<p>` and `</p>` around text without `<` into
/// their Markdown forms.
proof fn lemma_element_markup_p(t: Seq<char>)
    requires
        lacks(t, '<'),
    ensures
        rewrite_markup("<p>"@ + t + "</p>"@) == "\n\n"@ + t + "\n\n"@,
{
    reveal_strlit("");
    reveal_strlit("\n");
    reveal_strlit("\n\n");
    reveal_strlit("\n# ");
    reveal_strlit("\n## ");
    reveal_strlit("\n### ");
    reveal_strlit("\n#### ");
    reveal_strlit("\n- ");
    reveal_strlit("\n```\n");
    reveal_strlit("\n```rust\n");
    reveal_strlit("*");
    reveal_strlit("**");
    reveal_strlit("</b>");
    reveal_strlit("</code>");
    reveal_strlit("</em>");
    reveal_strlit("</h1>");
    reveal_strlit("</h2>");
    reveal_strlit("</h3>");
    reveal_strlit("</h4>");
    reveal_strlit("</i>");
    reveal_strlit("</li>");
    reveal_strlit("</ol>");
    reveal_strlit("</p>");
    reveal_strlit("</pre>");
    reveal_strlit("</strong>");
    reveal_strlit("</ul>");
    reveal_strlit("<b>");
    reveal_strlit("<br />");
    reveal_strlit("<br/>");
    reveal_strlit("<br>");
    reveal_strlit("<code>");
    reveal_strlit("<em>");
    reveal_strlit("<h1>");
    reveal_strlit("<h2>");
    reveal_strlit("<h3>");
    reveal_strlit("<h4>");
    reveal_strlit("<i>");
    reveal_strlit("<li>");
    reveal_strlit("<ol>");
    reveal_strlit("<p>");
    reveal_strlit("<pre class=\"rust item-decl\">");
    reveal_strlit("<pre>");
    reveal_strlit("<strong>");
    reveal_strlit("<ul>");
    reveal_strlit("`");
    let s0 = "<p>"@ + t + "</p>"@;
    lemma_framed_unmatched("<p>"@, t, "</p>"@, "<pre class=\"rust item-decl\">"@);
    assert(s0[2] == "<p>"@[2]);
    lemma_mismatch(s0, "<pre class=\"rust item-decl\">"@, 0, 2);
    assert(s0[("<p>"@.len() + t.len()) as int + 1] == "</p>"@[1]);
    lemma_mismatch(s0, "<pre class=\"rust item-decl\">"@, ("<p>"@.len() + t.len()) as int, 1);
    lemma_replace_unmatched(s0, "<pre class=\"rust item-decl\">"@, "\n```rust\n"@);
    let s1 = "<p>"@ + t + "</p>"@;
    lemma_framed_unmatched("<p>"@, t, "</p>"@, "<pre>"@);
    assert(s1[2] == "<p>"@[2]);
    lemma_mismatch(s1, "<pre>"@, 0, 2);
    assert(s1[("<p>"@.len() + t.len()) as int + 1] == "</p>"@[1]);
    lemma_mismatch(s1, "<pre>"@, ("<p>"@.len() + t.len()) as int, 1);
    lemma_replace_unmatched(s1, "<pre>"@, "\n```\n"@);
    let s2 = "<p>"@ + t + "</p>"@;
    lemma_framed_unmatched("<p>"@, t, "</p>"@, "</pre>"@);
    assert(s2[1] == "<p>"@[1]);
    lemma_mismatch(s2, "</pre>"@, 0, 1);
    assert(s2[("<p>"@.len() + t.len()) as int + 3] == "</p>"@[3]);
    lemma_mismatch(s2, "</pre>"@, ("<p>"@.len() + t.len()) as int, 3);
    lemma_replace_unmatched(s2, "</pre>"@, "\n```\n"@);
    let s3 = "<p>"@ + t + "</p>"@;
    lemma_framed_unmatched("<p>"@, t, "</p>"@, "<code>"@);
    assert(s3[1] == "<p>"@[1]);
    lemma_mismatch(s3, "<code>"@, 0, 1);
    assert(s3[("<p>"@.len() + t.len()) as int + 1] == "</p>"@[1]);
    lemma_mismatch(s3, "<code>"@, ("<p>"@.len() + t.len()) as int, 1);
    lemma_replace_unmatched(s3, "<code>"@, "`"@);
    let s4 = "<p>"@ + t + "</p>"@;
    lemma_framed_unmatched("<p>"@, t, "</p>"@, "</code>"@);
    assert(s4[1] == "<p>"@[1]);
    lemma_mismatch(s4, "</code>"@, 0, 1);
    assert(s4[("<p>"@.len() + t.len()) as int + 2] == "</p>"@[2]);
    lemma_mismatch(s4, "</code>"@, ("<p>"@.len() + t.len()) as int, 2);
    lemma_replace_unmatched(s4, "</code>"@, "`"@);
    let s5 = "<p>"@ + t + "</p>"@;
    lemma_framed_unmatched("<p>"@, t, "</p>"@, "<h1>"@);
    assert(s5[1] == "<p>"@[1]);
    lemma_mismatch(s5, "<h1>"@, 0, 1);
    assert(s5[("<p>"@.len() + t.len()) as int + 1] == "</p>"@[1]);
    lemma_mismatch(s5, "<h1>"@, ("<p>"@.len() + t.len()) as int, 1);
    lemma_replace_unmatched(s5, "<h1>"@, "\n# "@);
    let s6 = "<p>"@ + t + "</p>"@;
    lemma_framed_unmatched("<p>"@, t, "</p>"@, "</h1>"@);
    assert(s6[1] == "<p>"@[1]);
    lemma_mismatch(s6, "</h1>"@, 0, 1);
    assert(s6[("<p>"@.len() + t.len()) as int + 2] == "</p>"@[2]);
    lemma_mismatch(s6, "</h1>"@, ("<p>"@.len() + t.len()) as int, 2);
    lemma_replace_unmatched(s6, "</h1>"@, "\n"@);
    let s7 = "<p>"@ + t + "</p>"@;
    lemma_framed_unmatched("<p>"@, t, "</p>"@, "<h2>"@);
    assert(s7[1] == "<p>"@[1]);
    lemma_mismatch(s7, "<h2>"@, 0, 1);
    assert(s7[("<p>"@.len() + t.len()) as int + 1] == "</p>"@[1]);
    lemma_mismatch(s7, "<h2>"@, ("<p>"@.len() + t.len()) as int, 1);
    lemma_replace_unmatched(s7, "<h2>"@, "\n## "@);
    let s8 = "<p>"@ + t + "</p>"@;
    lemma_framed_unmatched("<p>"@, t, "</p>"@, "</h2>"@);
    assert(s8[1] == "<p>"@[1]);
    lemma_mismatch(s8, "</h2>"@, 0, 1);
    assert(s8[("<p>"@.len() + t.len()) as int + 2] == "</p>"@[2]);
    lemma_mismatch(s8, "</h2>"@, ("<p>"@.len() + t.len()) as int, 2);
    lemma_replace_unmatched(s8, "</h2>"@, "\n"@);
    let s9 = "<p>"@ + t + "</p>"@;
    lemma_framed_unmatched("<p>"@, t, "</p>"@, "<h3>"@);
    assert(s9[1] == "<p>"@[1]);
    lemma_mismatch(s9, "<h3>"@, 0, 1);
    assert(s9[("<p>"@.len() + t.len()) as int + 1] == "</p>"@[1]);
    lemma_mismatch(s9, "<h3>"@, ("<p>"@.len() + t.len()) as int, 1);
    lemma_replace_unmatched(s9, "<h3>"@, "\n### "@);
    let s10 = "<p>"@ + t + "</p>"@;
    lemma_framed_unmatched("<p>"@, t, "</p>"@, "</h3>"@);
    assert(s10[1] == "<p>"@[1]);
    lemma_mismatch(s10, "</h3>"@, 0, 1);
    assert(s10[("<p>"@.len() + t.len()) as int + 2] == "</p>"@[2]);
    lemma_mismatch(s10, "</h3>"@, ("<p>"@.len() + t.len()) as int, 2);
    lemma_replace_unmatched(s10, "</h3>"@, "\n"@);
    let s11 = "<p>"@ + t + "</p>"@;
    lemma_framed_unmatched("<p>"@, t, "</p>"@, "<h4>"@);
    assert(s11[1] == "<p>"@[1]);
    lemma_mismatch(s11, "<h4>"@, 0, 1);
    assert(s11[("<p>"@.len() + t.len()) as int + 1] == "</p>"@[1]);
    lemma_mismatch(s11, "<h4>"@, ("<p>"@.len() + t.len()) as int, 1);
    lemma_replace_unmatched(s11, "<h4>"@, "\n#### "@);
    let s12 = "<p>"@ + t + "</p>"@;
    lemma_framed_unmatched("<p>"@, t, "</p>"@, "</h4>"@);
    assert(s12[1] == "<p>"@[1]);
    lemma_mismatch(s12, "</h4>"@, 0, 1);
    assert(s12[("<p>"@.len() + t.len()) as int + 2] == "</p>"@[2]);
    lemma_mismatch(s12, "</h4>"@, ("<p>"@.len() + t.len()) as int, 2);
    lemma_replace_unmatched(s12, "</h4>"@, "\n"@);
    let s13 = "<p>"@ + t + "</p>"@;
    lemma_framed_unmatched("<p>"@, t, "</p>"@, "<strong>"@);
    assert(s13[1] == "<p>"@[1]);
    lemma_mismatch(s13, "<strong>"@, 0, 1);
    assert(s13[("<p>"@.len() + t.len()) as int + 1] == "</p>"@[1]);
    lemma_mismatch(s13, "<strong>"@, ("<p>"@.len() + t.len()) as int, 1);
    lemma_replace_unmatched(s13, "<strong>"@, "**"@);
    let s14 = "<p>"@ + t + "</p>"@;
    lemma_framed_unmatched("<p>"@, t, "</p>"@, "</strong>"@);
    assert(s14[1] == "<p>"@[1]);
    lemma_mismatch(s14, "</strong>"@, 0, 1);
    assert(s14[("<p>"@.len() + t.len()) as int + 2] == "</p>"@[2]);
    lemma_mismatch(s14, "</strong>"@, ("<p>"@.len() + t.len()) as int, 2);
    lemma_replace_unmatched(s14, "</strong>"@, "**"@);
    let s15 = "<p>"@ + t + "</p>"@;
    lemma_framed_unmatched("<p>"@, t, "</p>"@, "<b>"@);
    assert(s15[1] == "<p>"@[1]);
    lemma_mismatch(s15, "<b>"@, 0, 1);
    assert(s15[("<p>"@.len() + t.len()) as int + 1] == "</p>"@[1]);
    lemma_mismatch(s15, "<b>"@, ("<p>"@.len() + t.len()) as int, 1);
    lemma_replace_unmatched(s15, "<b>"@, "**"@);
    let s16 = "<p>"@ + t + "</p>"@;
    lemma_framed_unmatched("<p>"@, t, "</p>"@, "</b>"@);
    assert(s16[1] == "<p>"@[1]);
    lemma_mismatch(s16, "</b>"@, 0, 1);
    assert(s16[("<p>"@.len() + t.len()) as int + 2] == "</p>"@[2]);
    lemma_mismatch(s16, "</b>"@, ("<p>"@.len() + t.len()) as int, 2);
    lemma_replace_unmatched(s16, "</b>"@, "**"@);
    let s17 = "<p>"@ + t + "</p>"@;
    lemma_framed_unmatched("<p>"@, t, "</p>"@, "<em>"@);
    assert(s17[1] == "<p>"@[1]);
    lemma_mismatch(s17, "<em>"@, 0, 1);
    assert(s17[("<p>"@.len() + t.len()) as int + 1] == "</p>"@[1]);
    lemma_mismatch(s17, "<em>"@, ("<p>"@.len() + t.len()) as int, 1);
    lemma_replace_unmatched(s17, "<em>"@, "*"@);
    let s18 = "<p>"@ + t + "</p>"@;
    lemma_framed_unmatched("<p>"@, t, "</p>"@, "</em>"@);
    assert(s18[1] == "<p>"@[1]);
    lemma_mismatch(s18, "</em>"@, 0, 1);
    assert(s18[("<p>"@.len() + t.len()) as int + 2] == "</p>"@[2]);
    lemma_mismatch(s18, "</em>"@, ("<p>"@.len() + t.len()) as int, 2);
    lemma_replace_unmatched(s18, "</em>"@, "*"@);
    let s19 = "<p>"@ + t + "</p>"@;
    lemma_framed_unmatched("<p>"@, t, "</p>"@, "<i>"@);
    assert(s19[1] == "<p>"@[1]);
    lemma_mismatch(s19, "<i>"@, 0, 1);
    assert(s19[("<p>"@.len() + t.len()) as int + 1] == "</p>"@[1]);
    lemma_mismatch(s19, "<i>"@, ("<p>"@.len() + t.len()) as int, 1);
    lemma_replace_unmatched(s19, "<i>"@, "*"@);
    let s20 = "<p>"@ + t + "</p>"@;
    lemma_framed_unmatched("<p>"@, t, "</p>"@, "</i>"@);
    assert(s20[1] == "<p>"@[1]);
    lemma_mismatch(s20, "</i>"@, 0, 1);
    assert(s20[("<p>"@.len() + t.len()) as int + 2] == "</p>"@[2]);
    lemma_mismatch(s20, "</i>"@, ("<p>"@.len() + t.len()) as int, 2);
    lemma_replace_unmatched(s20, "</i>"@, "*"@);
    let s21 = "<p>"@ + t + "</p>"@;
    lemma_framed_unmatched("<p>"@, t, "</p>"@, "<p>"@);
    assert(s21[("<p>"@.len() + t.len()) as int + 1] == "</p>"@[1]);
    lemma_mismatch(s21, "<p>"@, ("<p>"@.len() + t.len()) as int, 1);
    assert(Seq::<char>::empty() + "<p>"@ + (t + "</p>"@) =~= s21);
    lemma_replace_single(Seq::<char>::empty(), "<p>"@, t + "</p>"@, "\n\n"@);
    assert(replace_all(s21, "<p>"@, "\n\n"@) =~= "\n\n"@ + t + "</p>"@);
    let s22 = "\n\n"@ + t + "</p>"@;
    lemma_framed_unmatched("\n\n"@, t, "</p>"@, "</p>"@);
    lemma_mismatch(s22, "</p>"@, 0, 0);
    assert(("\n\n"@ + t) + "</p>"@ + Seq::<char>::empty() =~= s22);
    lemma_replace_single("\n\n"@ + t, "</p>"@, Seq::<char>::empty(), "\n\n"@);
    assert(replace_all(s22, "</p>"@, "\n\n"@) =~= "\n\n"@ + t + "\n\n"@);
    let s23 = "\n\n"@ + t + "\n\n"@;
    lemma_lacks_concat("\n\n"@, t, '<');
    lemma_lacks_concat("\n\n"@ + t, "\n\n"@, '<');
    lemma_replace_all_absent(s23, "<br>"@, "\n"@);
    let s24 = "\n\n"@ + t + "\n\n"@;
    lemma_lacks_concat("\n\n"@, t, '<');
    lemma_lacks_concat("\n\n"@ + t, "\n\n"@, '<');
    lemma_replace_all_absent(s24, "<br/>"@, "\n"@);
    let s25 = "\n\n"@ + t + "\n\n"@;
    lemma_lacks_concat("\n\n"@, t, '<');
    lemma_lacks_concat("\n\n"@ + t, "\n\n"@, '<');
    lemma_replace_all_absent(s25, "<br />"@, "\n"@);
    let s26 = "\n\n"@ + t + "\n\n"@;
    lemma_lacks_concat("\n\n"@, t, '<');
    lemma_lacks_concat("\n\n"@ + t, "\n\n"@, '<');
    lemma_replace_all_absent(s26, "<li>"@, "\n- "@);
    let s27 = "\n\n"@ + t + "\n\n"@;
    lemma_lacks_concat("\n\n"@, t, '<');
    lemma_lacks_concat("\n\n"@ + t, "\n\n"@, '<');
    lemma_replace_all_absent(s27, "</li>"@, ""@);
    let s28 = "\n\n"@ + t + "\n\n"@;
    lemma_lacks_concat("\n\n"@, t, '<');
    lemma_lacks_concat("\n\n"@ + t, "\n\n"@, '<');
    lemma_replace_all_absent(s28, "<ul>"@, "\n"@);
    let s29 = "\n\n"@ + t + "\n\n"@;
    lemma_lacks_concat("\n\n"@, t, '<');
    lemma_lacks_concat("\n\n"@ + t, "\n\n"@, '<');
    lemma_replace_all_absent(s29, "</ul>"@, "\n"@);
    let s30 = "\n\n"@ + t + "\n\n"@;
    lemma_lacks_concat("\n\n"@, t, '<');
    lemma_lacks_concat("\n\n"@ + t, "\n\n"@, '<');
    lemma_replace_all_absent(s30, "<ol>"@, "\n"@);
    let s31 = "\n\n"@ + t + "\n\n"@;
    lemma_lacks_concat("\n\n"@, t, '<');
    lemma_lacks_concat("\n\n"@ + t, "\n\n"@, '<');
    lemma_replace_all_absent(s31, "</ol>"@, "\n"@);
}

/// The markup rewrites turn `<li>` and `</li>` around text without `<` into
/// their Markdown forms.
proof fn lemma_element_markup_li(t: Seq<char>)
    requires
        lacks(t, '<'),
    ensures
        rewrite_markup("<li>"@ + t + "</li>"@) == "\n- "@ + t + ""@,
{
    reveal_strlit("");
    reveal_strlit("\n");
    reveal_strlit("\n\n");
    reveal_strlit("\n# ");
    reveal_strlit("\n## ");
    reveal_strlit("\n### ");
    reveal_strlit("\n#### ");
    reveal_strlit("\n- ");
    reveal_strlit("\n```\n");
    reveal_strlit("\n```rust\n");
    reveal_strlit("*");
    reveal_strlit("**");
    reveal_strlit("</b>");
    reveal_strlit("</code>");
    reveal_strlit("</em>");
    reveal_strlit("</h1>");
    reveal_strlit("</h2>");
    reveal_strlit("</h3>");
    reveal_strlit("</h4>");
    reveal_strlit("</i>");
    reveal_strlit("</li>");
    reveal_strlit("</ol>");
    reveal_strlit("</p>");
    reveal_strlit("</pre>");
    reveal_strlit("</strong>");
    reveal_strlit("</ul>");
    reveal_strlit("<b>");
    reveal_strlit("<br />");
    reveal_strlit("<br/>");
    reveal_strlit("<br>");
    reveal_strlit("<code>");
    reveal_strlit("<em>");
    reveal_strlit("<h1>");
    reveal_strlit("<h2>");
    reveal_strlit("<h3>");
    reveal_strlit("<h4>");
    reveal_strlit("<i>");
    reveal_strlit("<li>");
    reveal_strlit("<ol>");
    reveal_strlit("<p>");
    reveal_strlit("<pre class=\"rust item-decl\">");
    reveal_strlit("<pre>");
    reveal_strlit("<strong>");
    reveal_strlit("<ul>");
    reveal_strlit("`");
    let s0 = "<li>"@ + t + "</li>"@;
    lemma_framed_unmatched("<li>"@, t, "</li>"@, "<pre class=\"rust item-decl\">"@);
    assert(s0[1] == "<li>"@[1]);
    lemma_mismatch(s0, "<pre class=\"rust item-decl\">"@, 0, 1);
    assert(s0[("<li>"@.len() + t.len()) as int + 1] == "</li>"@[1]);
    lemma_mismatch(s0, "<pre class=\"rust item-decl\">"@, ("<li>"@.len() + t.len()) as int, 1);
    lemma_replace_unmatched(s0, "<pre class=\"rust item-decl\">"@, "\n```rust\n"@);
    let s1 = "<li>"@ + t + "</li>"@;
    lemma_framed_unmatched("<li>"@, t, "</li>"@, "<pre>"@);
    assert(s1[1] == "<li>"@[1]);
    lemma_mismatch(s1, "<pre>"@, 0, 1);
    assert(s1[("<li>"@.len() + t.len()) as int + 1] == "</li>"@[1]);
    lemma_mismatch(s1, "<pre>"@, ("<li>"@.len() + t.len()) as int, 1);
    lemma_replace_unmatched(s1, "<pre>"@, "\n```\n"@);
    let s2 = "<li>"@ + t + "</li>"@;
    lemma_framed_unmatched("<li>"@, t, "</li>"@, "</pre>"@);
    assert(s2[1] == "<li>"@[1]);
    lemma_mismatch(s2, "</pre>"@, 0, 1);
    assert(s2[("<li>"@.len() + t.len()) as int + 2] == "</li>"@[2]);
    lemma_mismatch(s2, "</pre>"@, ("<li>"@.len() + t.len()) as int, 2);
    lemma_replace_unmatched(s2, "</pre>"@, "\n```\n"@);
    let s3 = "<li>"@ + t + "</li>"@;
    lemma_framed_unmatched("<li>"@, t, "</li>"@, "<code>"@);
    assert(s3[1] == "<li>"@[1]);
    lemma_mismatch(s3, "<code>"@, 0, 1);
    assert(s3[("<li>"@.len() + t.len()) as int + 1] == "</li>"@[1]);
    lemma_mismatch(s3, "<code>"@, ("<li>"@.len() + t.len()) as int, 1);
    lemma_replace_unmatched(s3, "<code>"@, "`"@);
    let s4 = "<li>"@ + t + "</li>"@;
    lemma_framed_unmatched("<li>"@, t, "</li>"@, "</code>"@);
    assert(s4[1] == "<li>"@[1]);
    lemma_mismatch(s4, "</code>"@, 0, 1);
    assert(s4[("<li>"@.len() + t.len()) as int + 2] == "</li>"@[2]);
    lemma_mismatch(s4, "</code>"@, ("<li>"@.len() + t.len()) as int, 2);
    lemma_replace_unmatched(s4, "</code>"@, "`"@);
    let s5 = "<li>"@ + t + "</li>"@;
    lemma_framed_unmatched("<li>"@, t, "</li>"@, "<h1>"@);
    assert(s5[1] == "<li>"@[1]);
    lemma_mismatch(s5, "<h1>"@, 0, 1);
    assert(s5[("<li>"@.len() + t.len()) as int + 1] == "</li>"@[1]);
    lemma_mismatch(s5, "<h1>"@, ("<li>"@.len() + t.len()) as int, 1);
    lemma_replace_unmatched(s5, "<h1>"@, "\n# "@);
    let s6 = "<li>"@ + t + "</li>"@;
    lemma_framed_unmatched("<li>"@, t, "</li>"@, "</h1>"@);
    assert(s6[1] == "<li>"@[1]);
    lemma_mismatch(s6, "</h1>"@, 0, 1);
    assert(s6[("<li>"@.len() + t.len()) as int + 2] == "</li>"@[2]);
    lemma_mismatch(s6, "</h1>"@, ("<li>"@.len() + t.len()) as int, 2);
    lemma_replace_unmatched(s6, "</h1>"@, "\n"@);
    let s7 = "<li>"@ + t + "</li>"@;
    lemma_framed_unmatched("<li>"@, t, "</li>"@, "<h2>"@);
    assert(s7[1] == "<li>"@[1]);
    lemma_mismatch(s7, "<h2>"@, 0, 1);
    assert(s7[("<li>"@.len() + t.len()) as int + 1] == "</li>"@[1]);
    lemma_mismatch(s7, "<h2>"@, ("<li>"@.len() + t.len()) as int, 1);
    lemma_replace_unmatched(s7, "<h2>"@, "\n## "@);
    let s8 = "<li>"@ + t + "</li>"@;
    lemma_framed_unmatched("<li>"@, t, "</li>"@, "</h2>"@);
    assert(s8[1] == "<li>"@[1]);
    lemma_mismatch(s8, "</h2>"@, 0, 1);
    assert(s8[("<li>"@.len() + t.len()) as int + 2] == "</li>"@[2]);
    lemma_mismatch(s8, "</h2>"@, ("<li>"@.len() + t.len()) as int, 2);
    lemma_replace_unmatched(s8, "</h2>"@, "\n"@);
    let s9 = "<li>"@ + t + "</li>"@;
    lemma_framed_unmatched("<li>"@, t, "</li>"@, "<h3>"@);
    assert(s9[1] == "<li>"@[1]);
    lemma_mismatch(s9, "<h3>"@, 0, 1);
    assert(s9[("<li>"@.len() + t.len()) as int + 1] == "</li>"@[1]);
    lemma_mismatch(s9, "<h3>"@, ("<li>"@.len() + t.len()) as int, 1);
    lemma_replace_unmatched(s9, "<h3>"@, "\n### "@);
    let s10 = "<li>"@ + t + "</li>"@;
    lemma_framed_unmatched("<li>"@, t, "</li>"@, "</h3>"@);
    assert(s10[1] == "<li>"@[1]);
    lemma_mismatch(s10, "</h3>"@, 0, 1);
    assert(s10[("<li>"@.len() + t.len()) as int + 2] == "</li>"@[2]);
    lemma_mismatch(s10, "</h3>"@, ("<li>"@.len() + t.len()) as int, 2);
    lemma_replace_unmatched(s10, "</h3>"@, "\n"@);
    let s11 = "<li>"@ + t + "</li>"@;
    lemma_framed_unmatched("<li>"@, t, "</li>"@, "<h4>"@);
    assert(s11[1] == "<li>"@[1]);
    lemma_mismatch(s11, "<h4>"@, 0, 1);
    assert(s11[("<li>"@.len() + t.len()) as int + 1] == "</li>"@[1]);
    lemma_mismatch(s11, "<h4>"@, ("<li>"@.len() + t.len()) as int, 1);
    lemma_replace_unmatched(s11, "<h4>"@, "\n#### "@);
    let s12 = "<li>"@ + t + "</li>"@;
    lemma_framed_unmatched("<li>"@, t, "</li>"@, "</h4>"@);
    assert(s12[1] == "<li>"@[1]);
    lemma_mismatch(s12, "</h4>"@, 0, 1);
    assert(s12[("<li>"@.len() + t.len()) as int + 2] == "</li>"@[2]);
    lemma_mismatch(s12, "</h4>"@, ("<li>"@.len() + t.len()) as int, 2);
    lemma_replace_unmatched(s12, "</h4>"@, "\n"@);
    let s13 = "<li>"@ + t + "</li>"@;
    lemma_framed_unmatched("<li>"@, t, "</li>"@, "<strong>"@);
    assert(s13[1] == "<li>"@[1]);
    lemma_mismatch(s13, "<strong>"@, 0, 1);
    assert(s13[("<li>"@.len() + t.len()) as int + 1] == "</li>"@[1]);
    lemma_mismatch(s13, "<strong>"@, ("<li>"@.len() + t.len()) as int, 1);
    lemma_replace_unmatched(s13, "<strong>"@, "**"@);
    let s14 = "<li>"@ + t + "</li>"@;
    lemma_framed_unmatched("<li>"@, t, "</li>"@, "</strong>"@);
    assert(s14[1] == "<li>"@[1]);
    lemma_mismatch(s14, "</strong>"@, 0, 1);
    assert(s14[("<li>"@.len() + t.len()) as int + 2] == "</li>"@[2]);
    lemma_mismatch(s14, "</strong>"@, ("<li>"@.len() + t.len()) as int, 2);
    lemma_replace_unmatched(s14, "</strong>"@, "**"@);
    let s15 = "<li>"@ + t + "</li>"@;
    lemma_framed_unmatched("<li>"@, t, "</li>"@, "<b>"@);
    assert(s15[1] == "<li>"@[1]);
    lemma_mismatch(s15, "<b>"@, 0, 1);
    assert(s15[("<li>"@.len() + t.len()) as int + 1] == "</li>"@[1]);
    lemma_mismatch(s15, "<b>"@, ("<li>"@.len() + t.len()) as int, 1);
    lemma_replace_unmatched(s15, "<b>"@, "**"@);
    let s16 = "<li>"@ + t + "</li>"@;
    lemma_framed_unmatched("<li>"@, t, "</li>"@, "</b>"@);
    assert(s16[1] == "<li>"@[1]);
    lemma_mismatch(s16, "</b>"@, 0, 1);
    assert(s16[("<li>"@.len() + t.len()) as int + 2] == "</li>"@[2]);
    lemma_mismatch(s16, "</b>"@, ("<li>"@.len() + t.len()) as int, 2);
    lemma_replace_unmatched(s16, "</b>"@, "**"@);
    let s17 = "<li>"@ + t + "</li>"@;
    lemma_framed_unmatched("<li>"@, t, "</li>"@, "<em>"@);
    assert(s17[1] == "<li>"@[1]);
    lemma_mismatch(s17, "<em>"@, 0, 1);
    assert(s17[("<li>"@.len() + t.len()) as int + 1] == "</li>"@[1]);
    lemma_mismatch(s17, "<em>"@, ("<li>"@.len() + t.len()) as int, 1);
    lemma_replace_unmatched(s17, "<em>"@, "*"@);
    let s18 = "<li>"@ + t + "</li>"@;
    lemma_framed_unmatched("<li>"@, t, "</li>"@, "</em>"@);
    assert(s18[1] == "<li>"@[1]);
    lemma_mismatch(s18, "</em>"@, 0, 1);
    assert(s18[("<li>"@.len() + t.len()) as int + 2] == "</li>"@[2]);
    lemma_mismatch(s18, "</em>"@, ("<li>"@.len() + t.len()) as int, 2);
    lemma_replace_unmatched(s18, "</em>"@, "*"@);
    let s19 = "<li>"@ + t + "</li>"@;
    lemma_framed_unmatched("<li>"@, t, "</li>"@, "<i>"@);
    assert(s19[1] == "<li>"@[1]);
    lemma_mismatch(s19, "<i>"@, 0, 1);
    assert(s19[("<li>"@.len() + t.len()) as int + 1] == "</li>"@[1]);
    lemma_mismatch(s19, "<i>"@, ("<li>"@.len() + t.len()) as int, 1);
    lemma_replace_unmatched(s19, "<i>"@, "*"@);
    let s20 = "<li>"@ + t + "</li>"@;
    lemma_framed_unmatched("<li>"@, t, "</li>"@, "</i>"@);
    assert(s20[1] == "<li>"@[1]);
    lemma_mismatch(s20, "</i>"@, 0, 1);
    assert(s20[("<li>"@.len() + t.len()) as int + 2] == "</li>"@[2]);
    lemma_mismatch(s20, "</i>"@, ("<li>"@.len() + t.len()) as int, 2);
    lemma_replace_unmatched(s20, "</i>"@, "*"@);
    let s21 = "<li>"@ + t + "</li>"@;
    lemma_framed_unmatched("<li>"@, t, "</li>"@, "<p>"@);
    assert(s21[1] == "<li>"@[1]);
    lemma_mismatch(s21, "<p>"@, 0, 1);
    assert(s21[("<li>"@.len() + t.len()) as int + 1] == "</li>"@[1]);
    lemma_mismatch(s21, "<p>"@, ("<li>"@.len() + t.len()) as int, 1);
    lemma_replace_unmatched(s21, "<p>"@, "\n\n"@);
    let s22 = "<li>"@ + t + "</li>"@;
    lemma_framed_unmatched("<li>"@, t, "</li>"@, "</p>"@);
    assert(s22[1] == "<li>"@[1]);
    lemma_mismatch(s22, "</p>"@, 0, 1);
    assert(s22[("<li>"@.len() + t.len()) as int + 2] == "</li>"@[2]);
    lemma_mismatch(s22, "</p>"@, ("<li>"@.len() + t.len()) as int, 2);
    lemma_replace_unmatched(s22, "</p>"@, "\n\n"@);
    let s23 = "<li>"@ + t + "</li>"@;
    lemma_framed_unmatched("<li>"@, t, "</li>"@, "<br>"@);
    assert(s23[1] == "<li>"@[1]);
    lemma_mismatch(s23, "<br>"@, 0, 1);
    assert(s23[("<li>"@.len() + t.len()) as int + 1] == "</li>"@[1]);
    lemma_mismatch(s23, "<br>"@, ("<li>"@.len() + t.len()) as int, 1);
    lemma_replace_unmatched(s23, "<br>"@, "\n"@);
    let s24 = "<li>"@ + t + "</li>"@;
    lemma_framed_unmatched("<li>"@, t, "</li>"@, "<br/>"@);
    assert(s24[1] == "<li>"@[1]);
    lemma_mismatch(s24, "<br/>"@, 0, 1);
    assert(s24[("<li>"@.len() + t.len()) as int + 1] == "</li>"@[1]);
    lemma_mismatch(s24, "<br/>"@, ("<li>"@.len() + t.len()) as int, 1);
    lemma_replace_unmatched(s24, "<br/>"@, "\n"@);
    let s25 = "<li>"@ + t + "</li>"@;
    lemma_framed_unmatched("<li>"@, t, "</li>"@, "<br />"@);
    assert(s25[1] == "<li>"@[1]);
    lemma_mismatch(s25, "<br />"@, 0, 1);
    assert(s25[("<li>"@.len() + t.len()) as int + 1] == "</li>"@[1]);
    lemma_mismatch(s25, "<br />"@, ("<li>"@.len() + t.len()) as int, 1);
    lemma_replace_unmatched(s25, "<br />"@, "\n"@);
    let s26 = "<li>"@ + t + "</li>"@;
    lemma_framed_unmatched("<li>"@, t, "</li>"@, "<li>"@);
    assert(s26[("<li>"@.len() + t.len()) as int + 1] == "</li>"@[1]);
    lemma_mismatch(s26, "<li>"@, ("<li>"@.len() + t.len()) as int, 1);
    assert(Seq::<char>::empty() + "<li>"@ + (t + "</li>"@) =~= s26);
    lemma_replace_single(Seq::<char>::empty(), "<li>"@, t + "</li>"@, "\n- "@);
    assert(replace_all(s26, "<li>"@, "\n- "@) =~= "\n- "@ + t + "</li>"@);
    let s27 = "\n- "@ + t + "</li>"@;
    lemma_framed_unmatched("\n- "@, t, "</li>"@, "</li>"@);
    lemma_mismatch(s27, "</li>"@, 0, 0);
    assert(("\n- "@ + t) + "</li>"@ + Seq::<char>::empty() =~= s27);
    lemma_replace_single("\n- "@ + t, "</li>"@, Seq::<char>::empty(), ""@);
    assert(replace_all(s27, "</li>"@, ""@) =~= "\n- "@ + t + ""@);
    let s28 = "\n- "@ + t + ""@;
    lemma_lacks_concat("\n- "@, t, '<');
    lemma_lacks_concat("\n- "@ + t, ""@, '<');
    lemma_replace_all_absent(s28, "<ul>"@, "\n"@);
    let s29 = "\n- "@ + t + ""@;
    lemma_lacks_concat("\n- "@, t, '<');
    lemma_lacks_concat("\n- "@ + t, ""@, '<');
    lemma_replace_all_absent(s29, "</ul>"@, "\n"@);
    let s30 = "\n- "@ + t + ""@;
    lemma_lacks_concat("\n- "@, t, '<');
    lemma_lacks_concat("\n- "@ + t, ""@, '<');
    lemma_replace_all_absent(s30, "<ol>"@, "\n"@);
    let s31 = "\n- "@ + t + ""@;
    lemma_lacks_concat("\n- "@, t, '<');
    lemma_lacks_concat("\n- "@ + t, ""@, '<');
    lemma_replace_all_absent(s31, "</ol>"@, "\n"@);
}

/// The markup rewrites turn `<ul>` and `</ul>` around text without `<` into
/// their Markdown forms.
proof fn lemma_element_markup_ul(t: Seq<char>)
    requires
        lacks(t, '<'),
    ensures
        rewrite_markup("<ul>"@ + t + "</ul>"@) == "\n"@ + t + "\n"@,
{
    reveal_strlit("");
    reveal_strlit("\n");
    reveal_strlit("\n\n");
    reveal_strlit("\n# ");
    reveal_strlit("\n## ");
    reveal_strlit("\n### ");
    reveal_strlit("\n#### ");
    reveal_strlit("\n- ");
    reveal_strlit("\n```\n");
    reveal_strlit("\n```rust\n");
    reveal_strlit("*");
    reveal_strlit("**");
    reveal_strlit("</b>");
    reveal_strlit("</code>");
    reveal_strlit("</em>");
    reveal_strlit("</h1>");
    reveal_strlit("</h2>");
    reveal_strlit("</h3>");
    reveal_strlit("</h4>");
    reveal_strlit("</i>");
    reveal_strlit("</li>");
    reveal_strlit("</ol>");
    reveal_strlit("</p>");
    reveal_strlit("</pre>");
    reveal_strlit("</strong>");
    reveal_strlit("</ul>");
    reveal_strlit("<b>");
    reveal_strlit("<br />");
    reveal_strlit("<br/>");
    reveal_strlit("<br>");
    reveal_strlit("<code>");
    reveal_strlit("<em>");
    reveal_strlit("<h1>");
    reveal_strlit("<h2>");
    reveal_strlit("<h3>");
    reveal_strlit("<h4>");
    reveal_strlit("<i>");
    reveal_strlit("<li>");
    reveal_strlit("<ol>");
    reveal_strlit("<p>");
    reveal_strlit("<pre class=\"rust item-decl\">");
    reveal_strlit("<pre>");
    reveal_strlit("<strong>");
    reveal_strlit("<ul>");
    reveal_strlit("`");
    let s0 = "<ul>"@ + t + "</ul>"@;
    lemma_framed_unmatched("<ul>"@, t, "</ul>"@, "<pre class=\"rust item-decl\">"@);
    assert(s0[1] == "<ul>"@[1]);
    lemma_mismatch(s0, "<pre class=\"rust item-decl\">"@, 0, 1);
    assert(s0[("<ul>"@.len() + t.len()) as int + 1] == "</ul>"@[1]);
    lemma_mismatch(s0, "<pre class=\"rust item-decl\">"@, ("<ul>"@.len() + t.len()) as int, 1);
    lemma_replace_unmatched(s0, "<pre class=\"rust item-decl\">"@, "\n```rust\n"@);
    let s1 = "<ul>"@ + t + "</ul>"@;
    lemma_framed_unmatched("<ul>"@, t, "</ul>"@, "<pre>"@);
    assert(s1[1] == "<ul>"@[1]);
    lemma_mismatch(s1, "<pre>"@, 0, 1);
    assert(s1[("<ul>"@.len() + t.len()) as int + 1] == "</ul>"@[1]);
    lemma_mismatch(s1, "<pre>"@, ("<ul>"@.len() + t.len()) as int, 1);
    lemma_replace_unmatched(s1, "<pre>"@, "\n```\n"@);
    let s2 = "<ul>"@ + t + "</ul>"@;
    lemma_framed_unmatched("<ul>"@, t, "</ul>"@, "</pre>"@);
    assert(s2[1] == "<ul>"@[1]);
    lemma_mismatch(s2, "</pre>"@, 0, 1);
    assert(s2[("<ul>"@.len() + t.len()) as int + 2] == "</ul>"@[2]);
    lemma_mismatch(s2, "</pre>"@, ("<ul>"@.len() + t.len()) as int, 2);
    lemma_replace_unmatched(s2, "</pre>"@, "\n```\n"@);
    let s3 = "<ul>"@ + t + "</ul>"@;
    lemma_framed_unmatched("<ul>"@, t, "</ul>"@, "<code>"@);
    assert(s3[1] == "<ul>"@[1]);
    lemma_mismatch(s3, "<code>"@, 0, 1);
    assert(s3[("<ul>"@.len() + t.len()) as int + 1] == "</ul>"@[1]);
    lemma_mismatch(s3, "<code>"@, ("<ul>"@.len() + t.len()) as int, 1);
    lemma_replace_unmatched(s3, "<code>"@, "`"@);
    let s4 = "<ul>"@ + t + "</ul>"@;
    lemma_framed_unmatched("<ul>"@, t, "</ul>"@, "</code>"@);
    assert(s4[1] == "<ul>"@[1]);
    lemma_mismatch(s4, "</code>"@, 0, 1);
    assert(s4[("<ul>"@.len() + t.len()) as int + 2] == "</ul>"@[2]);
    lemma_mismatch(s4, "</code>"@, ("<ul>"@.len() + t.len()) as int, 2);
    lemma_replace_unmatched(s4, "</code>"@, "`"@);
    let s5 = "<ul>"@ + t + "</ul>"@;
    lemma_framed_unmatched("<ul>"@, t, "</ul>"@, "<h1>"@);
    assert(s5[1] == "<ul>"@[1]);
    lemma_mismatch(s5, "<h1>"@, 0, 1);
    assert(s5[("<ul>"@.len() + t.len()) as int + 1] == "</ul>"@[1]);
    lemma_mismatch(s5, "<h1>"@, ("<ul>"@.len() + t.len()) as int, 1);
    lemma_replace_unmatched(s5, "<h1>"@, "\n# "@);
    let s6 = "<ul>"@ + t + "</ul>"@;
    lemma_framed_unmatched("<ul>"@, t, "</ul>"@, "</h1>"@);
    assert(s6[1] == "<ul>"@[1]);
    lemma_mismatch(s6, "</h1>"@, 0, 1);
    assert(s6[("<ul>"@.len() + t.len()) as int + 2] == "</ul>"@[2]);
    lemma_mismatch(s6, "</h1>"@, ("<ul>"@.len() + t.len()) as int, 2);
    lemma_replace_unmatched(s6, "</h1>"@, "\n"@);
    let s7 = "<ul>"@ + t + "</ul>"@;
    lemma_framed_unmatched("<ul>"@, t, "</ul>"@, "<h2>"@);
    assert(s7[1] == "<ul>"@[1]);
    lemma_mismatch(s7, "<h2>"@, 0, 1);
    assert(s7[("<ul>"@.len() + t.len()) as int + 1] == "</ul>"@[1]);
    lemma_mismatch(s7, "<h2>"@, ("<ul>"@.len() + t.len()) as int, 1);
    lemma_replace_unmatched(s7, "<h2>"@, "\n## "@);
    let s8 = "<ul>"@ + t + "</ul>"@;
    lemma_framed_unmatched("<ul>"@, t, "</ul>"@, "</h2>"@);
    assert(s8[1] == "<ul>"@[1]);
    lemma_mismatch(s8, "</h2>"@, 0, 1);
    assert(s8[("<ul>"@.len() + t.len()) as int + 2] == "</ul>"@[2]);
    lemma_mismatch(s8, "</h2>"@, ("<ul>"@.len() + t.len()) as int, 2);
    lemma_replace_unmatched(s8, "</h2>"@, "\n"@);
    let s9 = "<ul>"@ + t + "</ul>"@;
    lemma_framed_unmatched("<ul>"@, t, "</ul>"@, "<h3>"@);
    assert(s9[1] == "<ul>"@[1]);
    lemma_mismatch(s9, "<h3>"@, 0, 1);
    assert(s9[("<ul>"@.len() + t.len()) as int + 1] == "</ul>"@[1]);
    lemma_mismatch(s9, "<h3>"@, ("<ul>"@.len() + t.len()) as int, 1);
    lemma_replace_unmatched(s9, "<h3>"@, "\n### "@);
    let s10 = "<ul>"@ + t + "</ul>"@;
    lemma_framed_unmatched("<ul>"@, t, "</ul>"@, "</h3>"@);
    assert(s10[1] == "<ul>"@[1]);
    lemma_mismatch(s10, "</h3>"@, 0, 1);
    assert(s10[("<ul>"@.len() + t.len()) as int + 2] == "</ul>"@[2]);
    lemma_mismatch(s10, "</h3>"@, ("<ul>"@.len() + t.len()) as int, 2);
    lemma_replace_unmatched(s10, "</h3>"@, "\n"@);
    let s11 = "<ul>"@ + t + "</ul>"@;
    lemma_framed_unmatched("<ul>"@, t, "</ul>"@, "<h4>"@);
    assert(s11[1] == "<ul>"@[1]);
    lemma_mismatch(s11, "<h4>"@, 0, 1);
    assert(s11[("<ul>"@.len() + t.len()) as int + 1] == "</ul>"@[1]);
    lemma_mismatch(s11, "<h4>"@, ("<ul>"@.len() + t.len()) as int, 1);
    lemma_replace_unmatched(s11, "<h4>"@, "\n#### "@);
    let s12 = "<ul>"@ + t + "</ul>"@;
    lemma_framed_unmatched("<ul>"@, t, "</ul>"@, "</h4>"@);
    assert(s12[1] == "<ul>"@[1]);
    lemma_mismatch(s12, "</h4>"@, 0, 1);
    assert(s12[("<ul>"@.len() + t.len()) as int + 2] == "</ul>"@[2]);
    lemma_mismatch(s12, "</h4>"@, ("<ul>"@.len() + t.len()) as int, 2);
    lemma_replace_unmatched(s12, "</h4>"@, "\n"@);
    let s13 = "<ul>"@ + t + "</ul>"@;
    lemma_framed_unmatched("<ul>"@, t, "</ul>"@, "<strong>"@);
    assert(s13[1] == "<ul>"@[1]);
    lemma_mismatch(s13, "<strong>"@, 0, 1);
    assert(s13[("<ul>"@.len() + t.len()) as int + 1] == "</ul>"@[1]);
    lemma_mismatch(s13, "<strong>"@, ("<ul>"@.len() + t.len()) as int, 1);
    lemma_replace_unmatched(s13, "<strong>"@, "**"@);
    let s14 = "<ul>"@ + t + "</ul>"@;
    lemma_framed_unmatched("<ul>"@, t, "</ul>"@, "</strong>"@);
    assert(s14[1] == "<ul>"@[1]);
    lemma_mismatch(s14, "</strong>"@, 0, 1);
    assert(s14[("<ul>"@.len() + t.len()) as int + 2] == "</ul>"@[2]);
    lemma_mismatch(s14, "</strong>"@, ("<ul>"@.len() + t.len()) as int, 2);
    lemma_replace_unmatched(s14, "</strong>"@, "**"@);
    let s15 = "<ul>"@ + t + "</ul>"@;
    lemma_framed_unmatched("<ul>"@, t, "</ul>"@, "<b>"@);
    assert(s15[1] == "<ul>"@[1]);
    lemma_mismatch(s15, "<b>"@, 0, 1);
    assert(s15[("<ul>"@.len() + t.len()) as int + 1] == "</ul>"@[1]);
    lemma_mismatch(s15, "<b>"@, ("<ul>"@.len() + t.len()) as int, 1);
    lemma_replace_unmatched(s15, "<b>"@, "**"@);
    let s16 = "<ul>"@ + t + "</ul>"@;
    lemma_framed_unmatched("<ul>"@, t, "</ul>"@, "</b>"@);
    assert(s16[1] == "<ul>"@[1]);
    lemma_mismatch(s16, "</b>"@, 0, 1);
    assert(s16[("<ul>"@.len() + t.len()) as int + 2] == "</ul>"@[2]);
    lemma_mismatch(s16, "</b>"@, ("<ul>"@.len() + t.len()) as int, 2);
    lemma_replace_unmatched(s16, "</b>"@, "**"@);
    let s17 = "<ul>"@ + t + "</ul>"@;
    lemma_framed_unmatched("<ul>"@, t, "</ul>"@, "<em>"@);
    assert(s17[1] == "<ul>"@[1]);
    lemma_mismatch(s17, "<em>"@, 0, 1);
    assert(s17[("<ul>"@.len() + t.len()) as int + 1] == "</ul>"@[1]);
    lemma_mismatch(s17, "<em>"@, ("<ul>"@.len() + t.len()) as int, 1);
    lemma_replace_unmatched(s17, "<em>"@, "*"@);
    let s18 = "<ul>"@ + t + "</ul>"@;
    lemma_framed_unmatched("<ul>"@, t, "</ul>"@, "</em>"@);
    assert(s18[1] == "<ul>"@[1]);
    lemma_mismatch(s18, "</em>"@, 0, 1);
    assert(s18[("<ul>"@.len() + t.len()) as int + 2] == "</ul>"@[2]);
    lemma_mismatch(s18, "</em>"@, ("<ul>"@.len() + t.len()) as int, 2);
    lemma_replace_unmatched(s18, "</em>"@, "*"@);
    let s19 = "<ul>"@ + t + "</ul>"@;
    lemma_framed_unmatched("<ul>"@, t, "</ul>"@, "<i>"@);
    assert(s19[1] == "<ul>"@[1]);
    lemma_mismatch(s19, "<i>"@, 0, 1);
    assert(s19[("<ul>"@.len() + t.len()) as int + 1] == "</ul>"@[1]);
    lemma_mismatch(s19, "<i>"@, ("<ul>"@.len() + t.len()) as int, 1);
    lemma_replace_unmatched(s19, "<i>"@, "*"@);
    let s20 = "<ul>"@ + t + "</ul>"@;
    lemma_framed_unmatched("<ul>"@, t, "</ul>"@, "</i>"@);
    assert(s20[1] == "<ul>"@[1]);
    lemma_mismatch(s20, "</i>"@, 0, 1);
    assert(s20[("<ul>"@.len() + t.len()) as int + 2] == "</ul>"@[2]);
    lemma_mismatch(s20, "</i>"@, ("<ul>"@.len() + t.len()) as int, 2);
    lemma_replace_unmatched(s20, "</i>"@, "*"@);
    let s21 = "<ul>"@ + t + "</ul>"@;
    lemma_framed_unmatched("<ul>"@, t, "</ul>"@, "<p>"@);
    assert(s21[1] == "<ul>"@[1]);
    lemma_mismatch(s21, "<p>"@, 0, 1);
    assert(s21[("<ul>"@.len() + t.len()) as int + 1] == "</ul>"@[1]);
    lemma_mismatch(s21, "<p>"@, ("<ul>"@.len() + t.len()) as int, 1);
    lemma_replace_unmatched(s21, "<p>"@, "\n\n"@);
    let s22 = "<ul>"@ + t + "</ul>"@;
    lemma_framed_unmatched("<ul>"@, t, "</ul>"@, "</p>"@);
    assert(s22[1] == "<ul>"@[1]);
    lemma_mismatch(s22, "</p>"@, 0, 1);
    assert(s22[("<ul>"@.len() + t.len()) as int + 2] == "</ul>"@[2]);
    lemma_mismatch(s22, "</p>"@, ("<ul>"@.len() + t.len()) as int, 2);
    lemma_replace_unmatched(s22, "</p>"@, "\n\n"@);
    let s23 = "<ul>"@ + t + "</ul>"@;
    lemma_framed_unmatched("<ul>"@, t, "</ul>"@, "<br>"@);
    assert(s23[1] == "<ul>"@[1]);
    lemma_mismatch(s23, "<br>"@, 0, 1);
    assert(s23[("<ul>"@.len() + t.len()) as int + 1] == "</ul>"@[1]);
    lemma_mismatch(s23, "<br>"@, ("<ul>"@.len() + t.len()) as int, 1);
    lemma_replace_unmatched(s23, "<br>"@, "\n"@);
    let s24 = "<ul>"@ + t + "</ul>"@;
    lemma_framed_unmatched("<ul>"@, t, "</ul>"@, "<br/>"@);
    assert(s24[1] == "<ul>"@[1]);
    lemma_mismatch(s24, "<br/>"@, 0, 1);
    assert(s24[("<ul>"@.len() + t.len()) as int + 1] == "</ul>"@[1]);
    lemma_mismatch(s24, "<br/>"@, ("<ul>"@.len() + t.len()) as int, 1);
    lemma_replace_unmatched(s24, "<br/>"@, "\n"@);
    let s25 = "<ul>"@ + t + "</ul>"@;
    lemma_framed_unmatched("<ul>"@, t, "</ul>"@, "<br />"@);
    assert(s25[1] == "<ul>"@[1]);
    lemma_mismatch(s25, "<br />"@, 0, 1);
    assert(s25[("<ul>"@.len() + t.len()) as int + 1] == "</ul>"@[1]);
    lemma_mismatch(s25, "<br />"@, ("<ul>"@.len() + t.len()) as int, 1);
    lemma_replace_unmatched(s25, "<br />"@, "\n"@);
    let s26 = "<ul>"@ + t + "</ul>"@;
    lemma_framed_unmatched("<ul>"@, t, "</ul>"@, "<li>"@);
    assert(s26[1] == "<ul>"@[1]);
    lemma_mismatch(s26, "<li>"@, 0, 1);
    assert(s26[("<ul>"@.len() + t.len()) as int + 1] == "</ul>"@[1]);
    lemma_mismatch(s26, "<li>"@, ("<ul>"@.len() + t.len()) as int, 1);
    lemma_replace_unmatched(s26, "<li>"@, "\n- "@);
    let s27 = "<ul>"@ + t + "</ul>"@;
    lemma_framed_unmatched("<ul>"@, t, "</ul>"@, "</li>"@);
    assert(s27[1] == "<ul>"@[1]);
    lemma_mismatch(s27, "</li>"@, 0, 1);
    assert(s27[("<ul>"@.len() + t.len()) as int + 2] == "</ul>"@[2]);
    lemma_mismatch(s27, "</li>"@, ("<ul>"@.len() + t.len()) as int, 2);
    lemma_replace_unmatched(s27, "</li>"@, ""@);
    let s28 = "<ul>"@ + t + "</ul>"@;
    lemma_framed_unmatched("<ul>"@, t, "</ul>"@, "<ul>"@);
    assert(s28[("<ul>"@.len() + t.len()) as int + 1] == "</ul>"@[1]);
    lemma_mismatch(s28, "<ul>"@, ("<ul>"@.len() + t.len()) as int, 1);
    assert(Seq::<char>::empty() + "<ul>"@ + (t + "</ul>"@) =~= s28);
    lemma_replace_single(Seq::<char>::empty(), "<ul>"@, t + "</ul>"@, "\n"@);
    assert(replace_all(s28, "<ul>"@, "\n"@) =~= "\n"@ + t + "</ul>"@);
    let s29 = "\n"@ + t + "</ul>"@;
    lemma_framed_unmatched("\n"@, t, "</ul>"@, "</ul>"@);
    lemma_mismatch(s29, "</ul>"@, 0, 0);
    assert(("\n"@ + t) + "</ul>"@ + Seq::<char>::empty() =~= s29);
    lemma_replace_single("\n"@ + t, "</ul>"@, Seq::<char>::empty(), "\n"@);
    assert(replace_all(s29, "</ul>"@, "\n"@) =~= "\n"@ + t + "\n"@);
    let s30 = "\n"@ + t + "\n"@;
    lemma_lacks_concat("\n"@, t, '<');
    lemma_lacks_concat("\n"@ + t, "\n"@, '<');
    lemma_replace_all_absent(s30, "<ol>"@, "\n"@);
    let s31 = "\n"@ + t + "\n"@;
    lemma_lacks_concat("\n"@, t, '<');
    lemma_lacks_concat("\n"@ + t, "\n"@, '<');
    lemma_replace_all_absent(s31, "</ol>"@, "\n"@);
}

/// The markup rewrites turn `<ol>` and `</ol>` around text without `<` into
/// their Markdown forms.
proof fn lemma_element_markup_ol(t: Seq<char>)
    requires
        lacks(t, '<'),
    ensures
        rewrite_markup("<ol>"@ + t + "</ol>"@) == "\n"@ + t + "\n"@,
{
    reveal_strlit("");
    reveal_strlit("\n");
    reveal_strlit("\n\n");
    reveal_strlit("\n# ");
    reveal_strlit("\n## ");
    reveal_strlit("\n### ");
    reveal_strlit("\n#### ");
    reveal_strlit("\n- ");
    reveal_strlit("\n```\n");
    reveal_strlit("\n```rust\n");
    reveal_strlit("*");
    reveal_strlit("**");
    reveal_strlit("</b>");
    reveal_strlit("</code>");
    reveal_strlit("</em>");
    reveal_strlit("</h1>");
    reveal_strlit("</h2>");
    reveal_strlit("</h3>");
    reveal_strlit("</h4>");
    reveal_strlit("</i>");
    reveal_strlit("</li>");
    reveal_strlit("</ol>");
    reveal_strlit("</p>");
    reveal_strlit("</pre>");
    reveal_strlit("</strong>");
    reveal_strlit("</ul>");
    reveal_strlit("<b>");
    reveal_strlit("<br />");
    reveal_strlit("<br/>");
    reveal_strlit("<br>");
    reveal_strlit("<code>");
    reveal_strlit("<em>");
    reveal_strlit("<h1>");
    reveal_strlit("<h2>");
    reveal_strlit("<h3>");
    reveal_strlit("<h4>");
    reveal_strlit("<i>");
    reveal_strlit("<li>");
    reveal_strlit("<ol>");
    reveal_strlit("<p>");
    reveal_strlit("<pre class=\"rust item-decl\">");
    reveal_strlit("<pre>");
    reveal_strlit("<strong>");
    reveal_strlit("<ul>");
    reveal_strlit("`");
    let s0 = "<ol>"@ + t + "</ol>"@;
    lemma_framed_unmatched("<ol>"@, t, "</ol>"@, "<pre class=\"rust item-decl\">"@);
    assert(s0[1] == "<ol>"@[1]);
    lemma_mismatch(s0, "<pre class=\"rust item-decl\">"@, 0, 1);
    assert(s0[("<ol>"@.len() + t.len()) as int + 1] == "</ol>"@[1]);
    lemma_mismatch(s0, "<pre class=\"rust item-decl\">"@, ("<ol>"@.len() + t.len()) as int, 1);
    lemma_replace_unmatched(s0, "<pre class=\"rust item-decl\">"@, "\n```rust\n"@);
    let s1 = "<ol>"@ + t + "</ol>"@;
    lemma_framed_unmatched("<ol>"@, t, "</ol>"@, "<pre>"@);
    assert(s1[1] == "<ol>"@[1]);
    lemma_mismatch(s1, "<pre>"@, 0, 1);
    assert(s1[("<ol>"@.len() + t.len()) as int + 1] == "</ol>"@[1]);
    lemma_mismatch(s1, "<pre>"@, ("<ol>"@.len() + t.len()) as int, 1);
    lemma_replace_unmatched(s1, "<pre>"@, "\n```\n"@);
    let s2 = "<ol>"@ + t + "</ol>"@;
    lemma_framed_unmatched("<ol>"@, t, "</ol>"@, "</pre>"@);
    assert(s2[1] == "<ol>"@[1]);
    lemma_mismatch(s2, "</pre>"@, 0, 1);
    assert(s2[("<ol>"@.len() + t.len()) as int + 2] == "</ol>"@[2]);
    lemma_mismatch(s2, "</pre>"@, ("<ol>"@.len() + t.len()) as int, 2);
    lemma_replace_unmatched(s2, "</pre>"@, "\n```\n"@);
    let s3 = "<ol>"@ + t + "</ol>"@;
    lemma_framed_unmatched("<ol>"@, t, "</ol>"@, "<code>"@);
    assert(s3[1] == "<ol>"@[1]);
    lemma_mismatch(s3, "<code>"@, 0, 1);
    assert(s3[("<ol>"@.len() + t.len()) as int + 1] == "</ol>"@[1]);
    lemma_mismatch(s3, "<code>"@, ("<ol>"@.len() + t.len()) as int, 1);
    lemma_replace_unmatched(s3, "<code>"@, "`"@);
    let s4 = "<ol>"@ + t + "</ol>"@;
    lemma_framed_unmatched("<ol>"@, t, "</ol>"@, "</code>"@);
    assert(s4[1] == "<ol>"@[1]);
    lemma_mismatch(s4, "</code>"@, 0, 1);
    assert(s4[("<ol>"@.len() + t.len()) as int + 2] == "</ol>"@[2]);
    lemma_mismatch(s4, "</code>"@, ("<ol>"@.len() + t.len()) as int, 2);
    lemma_replace_unmatched(s4, "</code>"@, "`"@);
    let s5 = "<ol>"@ + t + "</ol>"@;
    lemma_framed_unmatched("<ol>"@, t, "</ol>"@, "<h1>"@);
    assert(s5[1] == "<ol>"@[1]);
    lemma_mismatch(s5, "<h1>"@, 0, 1);
    assert(s5[("<ol>"@.len() + t.len()) as int + 1] == "</ol>"@[1]);
    lemma_mismatch(s5, "<h1>"@, ("<ol>"@.len() + t.len()) as int, 1);
    lemma_replace_unmatched(s5, "<h1>"@, "\n# "@);
    let s6 = "<ol>"@ + t + "</ol>"@;
    lemma_framed_unmatched("<ol>"@, t, "</ol>"@, "</h1>"@);
    assert(s6[1] == "<ol>"@[1]);
    lemma_mismatch(s6, "</h1>"@, 0, 1);
    assert(s6[("<ol>"@.len() + t.len()) as int + 2] == "</ol>"@[2]);
    lemma_mismatch(s6, "</h1>"@, ("<ol>"@.len() + t.len()) as int, 2);
    lemma_replace_unmatched(s6, "</h1>"@, "\n"@);
    let s7 = "<ol>"@ + t + "</ol>"@;
    lemma_framed_unmatched("<ol>"@, t, "</ol>"@, "<h2>"@);
    assert(s7[1] == "<ol>"@[1]);
    lemma_mismatch(s7, "<h2>"@, 0, 1);
    assert(s7[("<ol>"@.len() + t.len()) as int + 1] == "</ol>"@[1]);
    lemma_mismatch(s7, "<h2>"@, ("<ol>"@.len() + t.len()) as int, 1);
    lemma_replace_unmatched(s7, "<h2>"@, "\n## "@);
    let s8 = "<ol>"@ + t + "</ol>"@;
    lemma_framed_unmatched("<ol>"@, t, "</ol>"@, "</h2>"@);
    assert(s8[1] == "<ol>"@[1]);
    lemma_mismatch(s8, "</h2>"@, 0, 1);
    assert(s8[("<ol>"@.len() + t.len()) as int + 2] == "</ol>"@[2]);
    lemma_mismatch(s8, "</h2>"@, ("<ol>"@.len() + t.len()) as int, 2);
    lemma_replace_unmatched(s8, "</h2>"@, "\n"@);
    let s9 = "<ol>"@ + t + "</ol>"@;
    lemma_framed_unmatched("<ol>"@, t, "</ol>"@, "<h3>"@);
    assert(s9[1] == "<ol>"@[1]);
    lemma_mismatch(s9, "<h3>"@, 0, 1);
    assert(s9[("<ol>"@.len() + t.len()) as int + 1] == "</ol>"@[1]);
    lemma_mismatch(s9, "<h3>"@, ("<ol>"@.len() + t.len()) as int, 1);
    lemma_replace_unmatched(s9, "<h3>"@, "\n### "@);
    let s10 = "<ol>"@ + t + "</ol>"@;
    lemma_framed_unmatched("<ol>"@, t, "</ol>"@, "</h3>"@);
    assert(s10[1] == "<ol>"@[1]);
    lemma_mismatch(s10, "</h3>"@, 0, 1);
    assert(s10[("<ol>"@.len() + t.len()) as int + 2] == "</ol>"@[2]);
    lemma_mismatch(s10, "</h3>"@, ("<ol>"@.len() + t.len()) as int, 2);
    lemma_replace_unmatched(s10, "</h3>"@, "\n"@);
    let s11 = "<ol>"@ + t + "</ol>"@;
    lemma_framed_unmatched("<ol>"@, t, "</ol>"@, "<h4>"@);
    assert(s11[1] == "<ol>"@[1]);
    lemma_mismatch(s11, "<h4>"@, 0, 1);
    assert(s11[("<ol>"@.len() + t.len()) as int + 1] == "</ol>"@[1]);
    lemma_mismatch(s11, "<h4>"@, ("<ol>"@.len() + t.len()) as int, 1);
    lemma_replace_unmatched(s11, "<h4>"@, "\n#### "@);
    let s12 = "<ol>"@ + t + "</ol>"@;
    lemma_framed_unmatched("<ol>"@, t, "</ol>"@, "</h4>"@);
    assert(s12[1] == "<ol>"@[1]);
    lemma_mismatch(s12, "</h4>"@, 0, 1);
    assert(s12[("<ol>"@.len() + t.len()) as int + 2] == "</ol>"@[2]);
    lemma_mismatch(s12, "</h4>"@, ("<ol>"@.len() + t.len()) as int, 2);
    lemma_replace_unmatched(s12, "</h4>"@, "\n"@);
    let s13 = "<ol>"@ + t + "</ol>"@;
    lemma_framed_unmatched("<ol>"@, t, "</ol>"@, "<strong>"@);
    assert(s13[1] == "<ol>"@[1]);
    lemma_mismatch(s13, "<strong>"@, 0, 1);
    assert(s13[("<ol>"@.len() + t.len()) as int + 1] == "</ol>"@[1]);
    lemma_mismatch(s13, "<strong>"@, ("<ol>"@.len() + t.len()) as int, 1);
    lemma_replace_unmatched(s13, "<strong>"@, "**"@);
    let s14 = "<ol>"@ + t + "</ol>"@;
    lemma_framed_unmatched("<ol>"@, t, "</ol>"@, "</strong>"@);
    assert(s14[1] == "<ol>"@[1]);
    lemma_mismatch(s14, "</strong>"@, 0, 1);
    assert(s14[("<ol>"@.len() + t.len()) as int + 2] == "</ol>"@[2]);
    lemma_mismatch(s14, "</strong>"@, ("<ol>"@.len() + t.len()) as int, 2);
    lemma_replace_unmatched(s14, "</strong>"@, "**"@);
    let s15 = "<ol>"@ + t + "</ol>"@;
    lemma_framed_unmatched("<ol>"@, t, "</ol>"@, "<b>"@);
    assert(s15[1] == "<ol>"@[1]);
    lemma_mismatch(s15, "<b>"@, 0, 1);
    assert(s15[("<ol>"@.len() + t.len()) as int + 1] == "</ol>"@[1]);
    lemma_mismatch(s15, "<b>"@, ("<ol>"@.len() + t.len()) as int, 1);
    lemma_replace_unmatched(s15, "<b>"@, "**"@);
    let s16 = "<ol>"@ + t + "</ol>"@;
    lemma_framed_unmatched("<ol>"@, t, "</ol>"@, "</b>"@);
    assert(s16[1] == "<ol>"@[1]);
    lemma_mismatch(s16, "</b>"@, 0, 1);
    assert(s16[("<ol>"@.len() + t.len()) as int + 2] == "</ol>"@[2]);
    lemma_mismatch(s16, "</b>"@, ("<ol>"@.len() + t.len()) as int, 2);
    lemma_replace_unmatched(s16, "</b>"@, "**"@);
    let s17 = "<ol>"@ + t + "</ol>"@;
    lemma_framed_unmatched("<ol>"@, t, "</ol>"@, "<em>"@);
    assert(s17[1] == "<ol>"@[1]);
    lemma_mismatch(s17, "<em>"@, 0, 1);
    assert(s17[("<ol>"@.len() + t.len()) as int + 1] == "</ol>"@[1]);
    lemma_mismatch(s17, "<em>"@, ("<ol>"@.len() + t.len()) as int, 1);
    lemma_replace_unmatched(s17, "<em>"@, "*"@);
    let s18 = "<ol>"@ + t + "</ol>"@;
    lemma_framed_unmatched("<ol>"@, t, "</ol>"@, "</em>"@);
    assert(s18[1] == "<ol>"@[1]);
    lemma_mismatch(s18, "</em>"@, 0, 1);
    assert(s18[("<ol>"@.len() + t.len()) as int + 2] == "</ol>"@[2]);
    lemma_mismatch(s18, "</em>"@, ("<ol>"@.len() + t.len()) as int, 2);
    lemma_replace_unmatched(s18, "</em>"@, "*"@);
    let s19 = "<ol>"@ + t + "</ol>"@;
    lemma_framed_unmatched("<ol>"@, t, "</ol>"@, "<i>"@);
    assert(s19[1] == "<ol>"@[1]);
    lemma_mismatch(s19, "<i>"@, 0, 1);
    assert(s19[("<ol>"@.len() + t.len()) as int + 1] == "</ol>"@[1]);
    lemma_mismatch(s19, "<i>"@, ("<ol>"@.len() + t.len()) as int, 1);
    lemma_replace_unmatched(s19, "<i>"@, "*"@);
    let s20 = "<ol>"@ + t + "</ol>"@;
    lemma_framed_unmatched("<ol>"@, t, "</ol>"@, "</i>"@);
    assert(s20[1] == "<ol>"@[1]);
    lemma_mismatch(s20, "</i>"@, 0, 1);
    assert(s20[("<ol>"@.len() + t.len()) as int + 2] == "</ol>"@[2]);
    lemma_mismatch(s20, "</i>"@, ("<ol>"@.len() + t.len()) as int, 2);
    lemma_replace_unmatched(s20, "</i>"@, "*"@);
    let s21 = "<ol>"@ + t + "</ol>"@;
    lemma_framed_unmatched("<ol>"@, t, "</ol>"@, "<p>"@);
    assert(s21[1] == "<ol>"@[1]);
    lemma_mismatch(s21, "<p>"@, 0, 1);
    assert(s21[("<ol>"@.len() + t.len()) as int + 1] == "</ol>"@[1]);
    lemma_mismatch(s21, "<p>"@, ("<ol>"@.len() + t.len()) as int, 1);
    lemma_replace_unmatched(s21, "<p>"@, "\n\n"@);
    let s22 = "<ol>"@ + t + "</ol>"@;
    lemma_framed_unmatched("<ol>"@, t, "</ol>"@, "</p>"@);
    assert(s22[1] == "<ol>"@[1]);
    lemma_mismatch(s22, "</p>"@, 0, 1);
    assert(s22[("<ol>"@.len() + t.len()) as int + 2] == "</ol>"@[2]);
    lemma_mismatch(s22, "</p>"@, ("<ol>"@.len() + t.len()) as int, 2);
    lemma_replace_unmatched(s22, "</p>"@, "\n\n"@);
    let s23 = "<ol>"@ + t + "</ol>"@;
    lemma_framed_unmatched("<ol>"@, t, "</ol>"@, "<br>"@);
    assert(s23[1] == "<ol>"@[1]);
    lemma_mismatch(s23, "<br>"@, 0, 1);
    assert(s23[("<ol>"@.len() + t.len()) as int + 1] == "</ol>"@[1]);
    lemma_mismatch(s23, "<br>"@, ("<ol>"@.len() + t.len()) as int, 1);
    lemma_replace_unmatched(s23, "<br>"@, "\n"@);
    let s24 = "<ol>"@ + t + "</ol>"@;
    lemma_framed_unmatched("<ol>"@, t, "</ol>"@, "<br/>"@);
    assert(s24[1] == "<ol>"@[1]);
    lemma_mismatch(s24, "<br/>"@, 0, 1);
    assert(s24[("<ol>"@.len() + t.len()) as int + 1] == "</ol>"@[1]);
    lemma_mismatch(s24, "<br/>"@, ("<ol>"@.len() + t.len()) as int, 1);
    lemma_replace_unmatched(s24, "<br/>"@, "\n"@);
    let s25 = "<ol>"@ + t + "</ol>"@;
    lemma_framed_unmatched("<ol>"@, t, "</ol>"@, "<br />"@);
    assert(s25[1] == "<ol>"@[1]);
    lemma_mismatch(s25, "<br />"@, 0, 1);
    assert(s25[("<ol>"@.len() + t.len()) as int + 1] == "</ol>"@[1]);
    lemma_mismatch(s25, "<br />"@, ("<ol>"@.len() + t.len()) as int, 1);
    lemma_replace_unmatched(s25, "<br />"@, "\n"@);
    let s26 = "<ol>"@ + t + "</ol>"@;
    lemma_framed_unmatched("<ol>"@, t, "</ol>"@, "<li>"@);
    assert(s26[1] == "<ol>"@[1]);
    lemma_mismatch(s26, "<li>"@, 0, 1);
    assert(s26[("<ol>"@.len() + t.len()) as int + 1] == "</ol>"@[1]);
    lemma_mismatch(s26, "<li>"@, ("<ol>"@.len() + t.len()) as int, 1);
    lemma_replace_unmatched(s26, "<li>"@, "\n- "@);
    let s27 = "<ol>"@ + t + "</ol>"@;
    lemma_framed_unmatched("<ol>"@, t, "</ol>"@, "</li>"@);
    assert(s27[1] == "<ol>"@[1]);
    lemma_mismatch(s27, "</li>"@, 0, 1);
    assert(s27[("<ol>"@.len() + t.len()) as int + 2] == "</ol>"@[2]);
    lemma_mismatch(s27, "</li>"@, ("<ol>"@.len() + t.len()) as int, 2);
    lemma_replace_unmatched(s27, "</li>"@, ""@);
    let s28 = "<ol>"@ + t + "</ol>"@;
    lemma_framed_unmatched("<ol>"@, t, "</ol>"@, "<ul>"@);
    assert(s28[1] == "<ol>"@[1]);
    lemma_mismatch(s28, "<ul>"@, 0, 1);
    assert(s28[("<ol>"@.len() + t.len()) as int + 1] == "</ol>"@[1]);
    lemma_mismatch(s28, "<ul>"@, ("<ol>"@.len() + t.len()) as int, 1);
    lemma_replace_unmatched(s28, "<ul>"@, "\n"@);
    let s29 = "<ol>"@ + t + "</ol>"@;
    lemma_framed_unmatched("<ol>"@, t, "</ol>"@, "</ul>"@);
    assert(s29[1] == "<ol>"@[1]);
    lemma_mismatch(s29, "</ul>"@, 0, 1);
    assert(s29[("<ol>"@.len() + t.len()) as int + 2] == "</ol>"@[2]);
    lemma_mismatch(s29, "</ul>"@, ("<ol>"@.len() + t.len()) as int, 2);
    lemma_replace_unmatched(s29, "</ul>"@, "\n"@);
    let s30 = "<ol>"@ + t + "</ol>"@;
    lemma_framed_unmatched("<ol>"@, t, "</ol>"@, "<ol>"@);
    assert(s30[("<ol>"@.len() + t.len()) as int + 1] == "</ol>"@[1]);
    lemma_mismatch(s30, "<ol>"@, ("<ol>"@.len() + t.len()) as int, 1);
    assert(Seq::<char>::empty() + "<ol>"@ + (t + "</ol>"@) =~= s30);
    lemma_replace_single(Seq::<char>::empty(), "<ol>"@, t + "</ol>"@, "\n"@);
    assert(replace_all(s30, "<ol>"@, "\n"@) =~= "\n"@ + t + "</ol>"@);
    let s31 = "\n"@ + t + "</ol>"@;
    lemma_framed_unmatched("\n"@, t, "</ol>"@, "</ol>"@);
    lemma_mismatch(s31, "</ol>"@, 0, 0);
    assert(("\n"@ + t) + "</ol>"@ + Seq::<char>::empty() =~= s31);
    lemma_replace_single("\n"@ + t, "</ol>"@, Seq::<char>::empty(), "\n"@);
    assert(replace_all(s31, "</ol>"@, "\n"@) =~= "\n"@ + t + "\n"@);
}

proof fn lemma_element_form_pre_decl(t: Seq<char>)
    requires
        t.len() > 0,
        is_clean_text(t),
        lacks(t, '<'),
        lacks(t, '>'),
        lacks(t, '&'),
    ensures
        markdown_of("<pre class=\"rust item-decl\">"@ + t + "</pre>"@) == "```rust\n"@ + t + "\n```"@,
{
    reveal_strlit("\n");
    reveal_strlit("\n```");
    reveal_strlit("\n```\n");
    reveal_strlit("\n```rust\n");
    reveal_strlit("</pre>");
    reveal_strlit("<pre class=\"rust item-decl\">");
    reveal_strlit("```rust\n");
    reveal_strlit("noscript");
    reveal_strlit("script");
    reveal_strlit("style");
    lemma_element_markup_pre_decl(t);
    let s = "<pre class=\"rust item-decl\">"@ + t + "</pre>"@;
    assert(s[1] == "<pre class=\"rust item-decl\">"@[1]);
    lemma_mismatch(s, open_tag("script"@), 0, 1);
    assert(s[1] == "<pre class=\"rust item-decl\">"@[1]);
    lemma_mismatch(s, open_tag("style"@), 0, 1);
    assert(s[1] == "<pre class=\"rust item-decl\">"@[1]);
    lemma_mismatch(s, open_tag("noscript"@), 0, 1);
    lemma_element_rest("<pre class=\"rust item-decl\">"@, "</pre>"@, "\n```rust\n"@, "\n```\n"@, t);
    assert("\n```rust\n"@ + t + "\n```\n"@ =~= "\n"@ + ("```rust\n"@ + t + "\n```"@) + "\n"@);
    lemma_trim_frame("\n"@, "```rust\n"@ + t + "\n```"@, "\n"@);
    assert("```rust\n"@ + t + "\n```"@ =~= "```rust\n"@ + t + "\n```"@);
}

proof fn lemma_element_form_pre(t: Seq<char>)
    requires
        t.len() > 0,
        is_clean_text(t),
        lacks(t, '<'),
        lacks(t, '>'),
        lacks(t, '&'),
    ensures
        markdown_of("<pre>"@ + t + "</pre>"@) == "```\n"@ + t + "\n```"@,
{
    reveal_strlit("\n");
    reveal_strlit("\n```");
    reveal_strlit("\n```\n");
    reveal_strlit("</pre>");
    reveal_strlit("<pre>");
    reveal_strlit("```\n");
    reveal_strlit("noscript");
    reveal_strlit("script");
    reveal_strlit("style");
    lemma_element_markup_pre(t);
    let s = "<pre>"@ + t + "</pre>"@;
    assert(s[1] == "<pre>"@[1]);
    lemma_mismatch(s, open_tag("script"@), 0, 1);
    assert(s[1] == "<pre>"@[1]);
    lemma_mismatch(s, open_tag("style"@), 0, 1);
    assert(s[1] == "<pre>"@[1]);
    lemma_mismatch(s, open_tag("noscript"@), 0, 1);
    lemma_element_rest("<pre>"@, "</pre>"@, "\n```\n"@, "\n```\n"@, t);
    assert("\n```\n"@ + t + "\n```\n"@ =~= "\n"@ + ("```\n"@ + t + "\n```"@) + "\n"@);
    lemma_trim_frame("\n"@, "```\n"@ + t + "\n```"@, "\n"@);
    assert("```\n"@ + t + "\n```"@ =~= "```\n"@ + t + "\n```"@);
}

proof fn lemma_element_form_code(t: Seq<char>)
    requires
        t.len() > 0,
        is_clean_text(t),
        lacks(t, '<'),
        lacks(t, '>'),
        lacks(t, '&'),
    ensures
        markdown_of("<code>"@ + t + "</code>"@) == "`"@ + t + "`"@,
{
    reveal_strlit("");
    reveal_strlit("</code>");
    reveal_strlit("<code>");
    reveal_strlit("`");
    reveal_strlit("noscript");
    reveal_strlit("script");
    reveal_strlit("style");
    lemma_element_markup_code(t);
    let s = "<code>"@ + t + "</code>"@;
    assert(s[1] == "<code>"@[1]);
    lemma_mismatch(s, open_tag("script"@), 0, 1);
    assert(s[1] == "<code>"@[1]);
    lemma_mismatch(s, open_tag("style"@), 0, 1);
    assert(s[1] == "<code>"@[1]);
    lemma_mismatch(s, open_tag("noscript"@), 0, 1);
    lemma_element_rest("<code>"@, "</code>"@, "`"@, "`"@, t);
    assert("`"@ + t + "`"@ =~= ""@ + ("`"@ + t + "`"@) + ""@);
    lemma_trim_frame(""@, "`"@ + t + "`"@, ""@);
    assert("`"@ + t + "`"@ =~= "`"@ + t + "`"@);
}

proof fn lemma_element_form_strong(t: Seq<char>)
    requires
        t.len() > 0,
        is_clean_text(t),
        lacks(t, '<'),
        lacks(t, '>'),
        lacks(t, '&'),
    ensures
        markdown_of("<strong>"@ + t + "</strong>"@) == "**"@ + t + "**"@,
{
    reveal_strlit("");
    reveal_strlit("**");
    reveal_strlit("</strong>");
    reveal_strlit("<strong>");
    reveal_strlit("noscript");
    reveal_strlit("script");
    reveal_strlit("style");
    lemma_element_markup_strong(t);
    let s = "<strong>"@ + t + "</strong>"@;
    assert(s[2] == "<strong>"@[2]);
    lemma_mismatch(s, open_tag("script"@), 0, 2);
    assert(s[3] == "<strong>"@[3]);
    lemma_mismatch(s, open_tag("style"@), 0, 3);
    assert(s[1] == "<strong>"@[1]);
    lemma_mismatch(s, open_tag("noscript"@), 0, 1);
    lemma_element_rest("<strong>"@, "</strong>"@, "**"@, "**"@, t);
    assert("**"@ + t + "**"@ =~= ""@ + ("**"@ + t + "**"@) + ""@);
    lemma_trim_frame(""@, "**"@ + t + "**"@, ""@);
    assert("**"@ + t + "**"@ =~= "**"@ + t + "**"@);
}

proof fn lemma_element_form_b(t: Seq<char>)
    requires
        t.len() > 0,
        is_clean_text(t),
        lacks(t, '<'),
        lacks(t, '>'),
        lacks(t, '&'),
    ensures
        markdown_of("<b>"@ + t + "</b>"@) == "**"@ + t + "**"@,
{
    reveal_strlit("");
    reveal_strlit("**");
    reveal_strlit("</b>");
    reveal_strlit("<b>");
    reveal_strlit("noscript");
    reveal_strlit("script");
    reveal_strlit("style");
    lemma_element_markup_b(t);
    let s = "<b>"@ + t + "</b>"@;
    assert(s[1] == "<b>"@[1]);
    lemma_mismatch(s, open_tag("script"@), 0, 1);
    assert(s[1] == "<b>"@[1]);
    lemma_mismatch(s, open_tag("style"@), 0, 1);
    assert(s[1] == "<b>"@[1]);
    lemma_mismatch(s, open_tag("noscript"@), 0, 1);
    lemma_element_rest("<b>"@, "</b>"@, "**"@, "**"@, t);
    assert("**"@ + t + "**"@ =~= ""@ + ("**"@ + t + "**"@) + ""@);
    lemma_trim_frame(""@, "**"@ + t + "**"@, ""@);
    assert("**"@ + t + "**"@ =~= "**"@ + t + "**"@);
}

proof fn lemma_element_form_em(t: Seq<char>)
    requires
        t.len() > 0,
        is_clean_text(t),
        lacks(t, '<'),
        lacks(t, '>'),
        lacks(t, '&'),
    ensures
        markdown_of("<em>"@ + t + "</em>"@) == "*"@ + t + "*"@,
{
    reveal_strlit("");
    reveal_strlit("*");
    reveal_strlit("</em>");
    reveal_strlit("<em>");
    reveal_strlit("noscript");
    reveal_strlit("script");
    reveal_strlit("style");
    lemma_element_markup_em(t);
    let s = "<em>"@ + t + "</em>"@;
    assert(s[1] == "<em>"@[1]);
    lemma_mismatch(s, open_tag("script"@), 0, 1);
    assert(s[1] == "<em>"@[1]);
    lemma_mismatch(s, open_tag("style"@), 0, 1);
    assert(s[1] == "<em>"@[1]);
    lemma_mismatch(s, open_tag("noscript"@), 0, 1);
    lemma_element_rest("<em>"@, "</em>"@, "*"@, "*"@, t);
    assert("*"@ + t + "*"@ =~= ""@ + ("*"@ + t + "*"@) + ""@);
    lemma_trim_frame(""@, "*"@ + t + "*"@, ""@);
    assert("*"@ + t + "*"@ =~= "*"@ + t + "*"@);
}

proof fn lemma_element_form_i(t: Seq<char>)
    requires
        t.len() > 0,
        is_clean_text(t),
        lacks(t, '<'),
        lacks(t, '>'),
        lacks(t, '&'),
    ensures
        markdown_of("<i>"@ + t + "</i>"@) == "*"@ + t + "*"@,
{
    reveal_strlit("");
    reveal_strlit("*");
    reveal_strlit("</i>");
    reveal_strlit("<i>");
    reveal_strlit("noscript");
    reveal_strlit("script");
    reveal_strlit("style");
    lemma_element_markup_i(t);
    let s = "<i>"@ + t + "</i>"@;
    assert(s[1] == "<i>"@[1]);
    lemma_mismatch(s, open_tag("script"@), 0, 1);
    assert(s[1] == "<i>"@[1]);
    lemma_mismatch(s, open_tag("style"@), 0, 1);
    assert(s[1] == "<i>"@[1]);
    lemma_mismatch(s, open_tag("noscript"@), 0, 1);
    lemma_element_rest("<i>"@, "</i>"@, "*"@, "*"@, t);
    assert("*"@ + t + "*"@ =~= ""@ + ("*"@ + t + "*"@) + ""@);
    lemma_trim_frame(""@, "*"@ + t + "*"@, ""@);
    assert("*"@ + t + "*"@ =~= "*"@ + t + "*"@);
}

proof fn lemma_element_form_p(t: Seq<char>)
    requires
        t.len() > 0,
        is_clean_text(t),
        lacks(t, '<'),
        lacks(t, '>'),
        lacks(t, '&'),
    ensures
        markdown_of("<p>"@ + t + "</p>"@) == t,
{
    reveal_strlit("");
    reveal_strlit("\n\n");
    reveal_strlit("</p>");
    reveal_strlit("<p>");
    reveal_strlit("noscript");
    reveal_strlit("script");
    reveal_strlit("style");
    lemma_element_markup_p(t);
    let s = "<p>"@ + t + "</p>"@;
    assert(s[1] == "<p>"@[1]);
    lemma_mismatch(s, open_tag("script"@), 0, 1);
    assert(s[1] == "<p>"@[1]);
    lemma_mismatch(s, open_tag("style"@), 0, 1);
    assert(s[1] == "<p>"@[1]);
    lemma_mismatch(s, open_tag("noscript"@), 0, 1);
    lemma_element_rest("<p>"@, "</p>"@, "\n\n"@, "\n\n"@, t);
    assert("\n\n"@ + t + "\n\n"@ =~= "\n\n"@ + (""@ + t + ""@) + "\n\n"@);
    lemma_trim_frame("\n\n"@, ""@ + t + ""@, "\n\n"@);
    assert(""@ + t + ""@ =~= t);
}

proof fn lemma_element_form_li(t: Seq<char>)
    requires
        t.len() > 0,
        is_clean_text(t),
        lacks(t, '<'),
        lacks(t, '>'),
        lacks(t, '&'),
    ensures
        markdown_of("<li>"@ + t + "</li>"@) == "- "@ + t,
{
    reveal_strlit("");
    reveal_strlit("\n");
    reveal_strlit("\n- ");
    reveal_strlit("- ");
    reveal_strlit("</li>");
    reveal_strlit("<li>");
    reveal_strlit("noscript");
    reveal_strlit("script");
    reveal_strlit("style");
    lemma_element_markup_li(t);
    let s = "<li>"@ + t + "</li>"@;
    assert(s[1] == "<li>"@[1]);
    lemma_mismatch(s, open_tag("script"@), 0, 1);
    assert(s[1] == "<li>"@[1]);
    lemma_mismatch(s, open_tag("style"@), 0, 1);
    assert(s[1] == "<li>"@[1]);
    lemma_mismatch(s, open_tag("noscript"@), 0, 1);
    lemma_element_rest("<li>"@, "</li>"@, "\n- "@, ""@, t);
    assert("\n- "@ + t + ""@ =~= "\n"@ + ("- "@ + t + ""@) + ""@);
    lemma_trim_frame("\n"@, "- "@ + t + ""@, ""@);
    assert("- "@ + t + ""@ =~= "- "@ + t);
}

proof fn lemma_element_form_ul(t: Seq<char>)
    requires
        t.len() > 0,
        is_clean_text(t),
        lacks(t, '<'),
        lacks(t, '>'),
        lacks(t, '&'),
    ensures
        markdown_of("<ul>"@ + t + "</ul>"@) == t,
{
    reveal_strlit("");
    reveal_strlit("\n");
    reveal_strlit("</ul>");
    reveal_strlit("<ul>");
    reveal_strlit("noscript");
    reveal_strlit("script");
    reveal_strlit("style");
    lemma_element_markup_ul(t);
    let s = "<ul>"@ + t + "</ul>"@;
    assert(s[1] == "<ul>"@[1]);
    lemma_mismatch(s, open_tag("script"@), 0, 1);
    assert(s[1] == "<ul>"@[1]);
    lemma_mismatch(s, open_tag("style"@), 0, 1);
    assert(s[1] == "<ul>"@[1]);
    lemma_mismatch(s, open_tag("noscript"@), 0, 1);
    lemma_element_rest("<ul>"@, "</ul>"@, "\n"@, "\n"@, t);
    assert("\n"@ + t + "\n"@ =~= "\n"@ + (""@ + t + ""@) + "\n"@);
    lemma_trim_frame("\n"@, ""@ + t + ""@, "\n"@);
    assert(""@ + t + ""@ =~= t);
}

proof fn lemma_element_form_ol(t: Seq<char>)
    requires
        t.len() > 0,
        is_clean_text(t),
        lacks(t, '<'),
        lacks(t, '>'),
        lacks(t, '&'),
    ensures
        markdown_of("<ol>"@ + t + "</ol>"@) == t,
{
    reveal_strlit("");
    reveal_strlit("\n");
    reveal_strlit("</ol>");
    reveal_strlit("<ol>");
    reveal_strlit("noscript");
    reveal_strlit("script");
    reveal_strlit("style");
    lemma_element_markup_ol(t);
    let s = "<ol>"@ + t + "</ol>"@;
    assert(s[1] == "<ol>"@[1]);
    lemma_mismatch(s, open_tag("script"@), 0, 1);
    assert(s[1] == "<ol>"@[1]);
    lemma_mismatch(s, open_tag("style"@), 0, 1);
    assert(s[1] == "<ol>"@[1]);
    lemma_mismatch(s, open_tag("noscript"@), 0, 1);
    lemma_element_rest("<ol>"@, "</ol>"@, "\n"@, "\n"@, t);
    assert("\n"@ + t + "\n"@ =~= "\n"@ + (""@ + t + ""@) + "\n"@);
    lemma_trim_frame("\n"@, ""@ + t + ""@, "\n"@);
    assert(""@ + t + ""@ =~= t);
}

/// Each inline or block element around plain text becomes its Markdown
/// form: a code block for `<pre>` (tagged `rust` for a declaration),
/// backticks for `<code>`, `**` for `<strong>` and `<b>`, `*` for `<em>`
/// and `<i>`, a `- ` item for `<li>`, and the text alone for `<p>`, `<ul>`
/// and `<ol>`; the text is any non-empty text without markup, entities
/// or untidy whitespace.
pub proof fn lemma_element_forms(t: Seq<char>)
    requires
        t.len() > 0,
        is_clean_text(t),
        lacks(t, '<'),
        lacks(t, '>'),
        lacks(t, '&'),
    ensures
        markdown_of("<pre class=\"rust item-decl\">"@ + t + "</pre>"@) == "```rust\n"@ + t + "\n```"@,
        markdown_of("<pre>"@ + t + "</pre>"@) == "```\n"@ + t + "\n```"@,
        markdown_of("<code>"@ + t + "</code>"@) == "`"@ + t + "`"@,
        markdown_of("<strong>"@ + t + "</strong>"@) == "**"@ + t + "**"@,
        markdown_of("<b>"@ + t + "</b>"@) == "**"@ + t + "**"@,
        markdown_of("<em>"@ + t + "</em>"@) == "*"@ + t + "*"@,
        markdown_of("<i>"@ + t + "</i>"@) == "*"@ + t + "*"@,
        markdown_of("<p>"@ + t + "</p>"@) == t,
        markdown_of("<li>"@ + t + "</li>"@) == "- "@ + t,
        markdown_of("<ul>"@ + t + "</ul>"@) == t,
        markdown_of("<ol>"@ + t + "</ol>"@) == t,
{
    lemma_element_form_pre_decl(t);
    lemma_element_form_pre(t);
    lemma_element_form_code(t);
    lemma_element_form_strong(t);
    lemma_element_form_b(t);
    lemma_element_form_em(t);
    lemma_element_form_i(t);
    lemma_element_form_p(t);
    lemma_element_form_li(t);
    lemma_element_form_ul(t);
    lemma_element_form_ol(t);
}

/// The steps after the markup rewrites, for a line break between two
/// clean texts: nothing else changes.
proof fn lemma_break_rest(a: Seq<char>, x: Seq<char>, b: Seq<char>)
    requires
        a.len() > 0 && is_clean_text(a) && lacks(a, '<') && lacks(a, '>') && lacks(a, '&'),
        b.len() > 0 && is_clean_text(b) && lacks(b, '<') && lacks(b, '>') && lacks(b, '&'),
        x.len() > 2 && x[0] == '<' && x[1] == 'b',
        forall|i: int| 0 < i < x.len() ==> x[i] != '<',
        rewrite_markup(a + x + b) == a + "\n"@ + b,
    ensures
        markdown_of(a + x + b) == a + "\n"@ + b,
{
    reveal_strlit("\n");
    reveal_strlit("script");
    reveal_strlit("style");
    reveal_strlit("noscript");
    let s = a + x + b;
    let e = a.len() as int;
    lemma_only_at(a, x, b, '<');
    assert(s[e + 1] == 'b');
    lemma_mismatch(s, open_tag("script"@), e, 1);
    lemma_mismatch(s, open_tag("style"@), e, 1);
    lemma_mismatch(s, open_tag("noscript"@), e, 1);
    lemma_find(s, open_tag("script"@));
    lemma_find(s, open_tag("style"@));
    lemma_find(s, open_tag("noscript"@));
    if let Some(k) = find(s, open_tag("script"@)) {
        lemma_match_needs_first(s, open_tag("script"@), k);
    }
    if let Some(k) = find(s, open_tag("style"@)) {
        lemma_match_needs_first(s, open_tag("style"@), k);
    }
    if let Some(k) = find(s, open_tag("noscript"@)) {
        lemma_match_needs_first(s, open_tag("noscript"@), k);
    }
    assert(remove_tagged(s, "script"@) == s);
    assert(remove_tagged(s, "style"@) == s);
    assert(remove_tagged(s, "noscript"@) == s);
    let nl = "\n"@;
    let r = a + nl + b;
    assert(lacks(nl, '<') && lacks(nl, '>') && lacks(nl, '&'));
    lemma_lacks_concat(a, nl, '<');
    lemma_lacks_concat(a + nl, b, '<');
    lemma_lacks_concat(a, nl, '>');
    lemma_lacks_concat(a + nl, b, '>');
    lemma_lacks_concat(a, nl, '&');
    lemma_lacks_concat(a + nl, b, '&');
    lemma_links_absent(r);
    lemma_strip_absent(r);
    lemma_decode_absent(r);
    assert(is_ws('\n'));
    assert(only_spaces_and_newlines(nl) && no_double_space(nl) && no_triple_newline(nl));
    lemma_spacing_concat(a, nl);
    lemma_spacing_concat(a + nl, b);
    lemma_cleanup_state_clean(r);
    assert(r[0] == a[0] && r.last() == b.last());
    lemma_trim_frame(Seq::empty(), r, Seq::empty());
    assert(Seq::<char>::empty() + r + Seq::<char>::empty() =~= r);
}

/// The markup rewrites turn `<br>` between texts without `<` into a newline.
proof fn lemma_break_markup_br(a: Seq<char>, b: Seq<char>)
    requires
        lacks(a, '<'),
        lacks(b, '<'),
    ensures
        rewrite_markup(a + "<br>"@ + b) == a + "\n"@ + b,
{
    reveal_strlit("");
    reveal_strlit("\n");
    reveal_strlit("\n\n");
    reveal_strlit("\n# ");
    reveal_strlit("\n## ");
    reveal_strlit("\n### ");
    reveal_strlit("\n#### ");
    reveal_strlit("\n- ");
    reveal_strlit("\n```\n");
    reveal_strlit("\n```rust\n");
    reveal_strlit("*");
    reveal_strlit("**");
    reveal_strlit("</b>");
    reveal_strlit("</code>");
    reveal_strlit("</em>");
    reveal_strlit("</h1>");
    reveal_strlit("</h2>");
    reveal_strlit("</h3>");
    reveal_strlit("</h4>");
    reveal_strlit("</i>");
    reveal_strlit("</li>");
    reveal_strlit("</ol>");
    reveal_strlit("</p>");
    reveal_strlit("</pre>");
    reveal_strlit("</strong>");
    reveal_strlit("</ul>");
    reveal_strlit("<b>");
    reveal_strlit("<br />");
    reveal_strlit("<br/>");
    reveal_strlit("<br>");
    reveal_strlit("<code>");
    reveal_strlit("<em>");
    reveal_strlit("<h1>");
    reveal_strlit("<h2>");
    reveal_strlit("<h3>");
    reveal_strlit("<h4>");
    reveal_strlit("<i>");
    reveal_strlit("<li>");
    reveal_strlit("<ol>");
    reveal_strlit("<p>");
    reveal_strlit("<pre class=\"rust item-decl\">");
    reveal_strlit("<pre>");
    reveal_strlit("<strong>");
    reveal_strlit("<ul>");
    reveal_strlit("`");
    let e = a.len() as int;
    lemma_only_at(a, "<br>"@, b, '<');
    assert((a + "<br>"@ + b)[e + 1] == "<br>"@[1]);
    lemma_mismatch((a + "<br>"@ + b), "<pre class=\"rust item-decl\">"@, e, 1);
    lemma_replace_unmatched_first((a + "<br>"@ + b), "<pre class=\"rust item-decl\">"@, "\n```rust\n"@, e);
    assert((a + "<br>"@ + b)[e + 1] == "<br>"@[1]);
    lemma_mismatch((a + "<br>"@ + b), "<pre>"@, e, 1);
    lemma_replace_unmatched_first((a + "<br>"@ + b), "<pre>"@, "\n```\n"@, e);
    assert((a + "<br>"@ + b)[e + 1] == "<br>"@[1]);
    lemma_mismatch((a + "<br>"@ + b), "</pre>"@, e, 1);
    lemma_replace_unmatched_first((a + "<br>"@ + b), "</pre>"@, "\n```\n"@, e);
    assert((a + "<br>"@ + b)[e + 1] == "<br>"@[1]);
    lemma_mismatch((a + "<br>"@ + b), "<code>"@, e, 1);
    lemma_replace_unmatched_first((a + "<br>"@ + b), "<code>"@, "`"@, e);
    assert((a + "<br>"@ + b)[e + 1] == "<br>"@[1]);
    lemma_mismatch((a + "<br>"@ + b), "</code>"@, e, 1);
    lemma_replace_unmatched_first((a + "<br>"@ + b), "</code>"@, "`"@, e);
    assert((a + "<br>"@ + b)[e + 1] == "<br>"@[1]);
    lemma_mismatch((a + "<br>"@ + b), "<h1>"@, e, 1);
    lemma_replace_unmatched_first((a + "<br>"@ + b), "<h1>"@, "\n# "@, e);
    assert((a + "<br>"@ + b)[e + 1] == "<br>"@[1]);
    lemma_mismatch((a + "<br>"@ + b), "</h1>"@, e, 1);
    lemma_replace_unmatched_first((a + "<br>"@ + b), "</h1>"@, "\n"@, e);
    assert((a + "<br>"@ + b)[e + 1] == "<br>"@[1]);
    lemma_mismatch((a + "<br>"@ + b), "<h2>"@, e, 1);
    lemma_replace_unmatched_first((a + "<br>"@ + b), "<h2>"@, "\n## "@, e);
    assert((a + "<br>"@ + b)[e + 1] == "<br>"@[1]);
    lemma_mismatch((a + "<br>"@ + b), "</h2>"@, e, 1);
    lemma_replace_unmatched_first((a + "<br>"@ + b), "</h2>"@, "\n"@, e);
    assert((a + "<br>"@ + b)[e + 1] == "<br>"@[1]);
    lemma_mismatch((a + "<br>"@ + b), "<h3>"@, e, 1);
    lemma_replace_unmatched_first((a + "<br>"@ + b), "<h3>"@, "\n### "@, e);
    assert((a + "<br>"@ + b)[e + 1] == "<br>"@[1]);
    lemma_mismatch((a + "<br>"@ + b), "</h3>"@, e, 1);
    lemma_replace_unmatched_first((a + "<br>"@ + b), "</h3>"@, "\n"@, e);
    assert((a + "<br>"@ + b)[e + 1] == "<br>"@[1]);
    lemma_mismatch((a + "<br>"@ + b), "<h4>"@, e, 1);
    lemma_replace_unmatched_first((a + "<br>"@ + b), "<h4>"@, "\n#### "@, e);
    assert((a + "<br>"@ + b)[e + 1] == "<br>"@[1]);
    lemma_mismatch((a + "<br>"@ + b), "</h4>"@, e, 1);
    lemma_replace_unmatched_first((a + "<br>"@ + b), "</h4>"@, "\n"@, e);
    assert((a + "<br>"@ + b)[e + 1] == "<br>"@[1]);
    lemma_mismatch((a + "<br>"@ + b), "<strong>"@, e, 1);
    lemma_replace_unmatched_first((a + "<br>"@ + b), "<strong>"@, "**"@, e);
    assert((a + "<br>"@ + b)[e + 1] == "<br>"@[1]);
    lemma_mismatch((a + "<br>"@ + b), "</strong>"@, e, 1);
    lemma_replace_unmatched_first((a + "<br>"@ + b), "</strong>"@, "**"@, e);
    assert((a + "<br>"@ + b)[e + 2] == "<br>"@[2]);
    lemma_mismatch((a + "<br>"@ + b), "<b>"@, e, 2);
    lemma_replace_unmatched_first((a + "<br>"@ + b), "<b>"@, "**"@, e);
    assert((a + "<br>"@ + b)[e + 1] == "<br>"@[1]);
    lemma_mismatch((a + "<br>"@ + b), "</b>"@, e, 1);
    lemma_replace_unmatched_first((a + "<br>"@ + b), "</b>"@, "**"@, e);
    assert((a + "<br>"@ + b)[e + 1] == "<br>"@[1]);
    lemma_mismatch((a + "<br>"@ + b), "<em>"@, e, 1);
    lemma_replace_unmatched_first((a + "<br>"@ + b), "<em>"@, "*"@, e);
    assert((a + "<br>"@ + b)[e + 1] == "<br>"@[1]);
    lemma_mismatch((a + "<br>"@ + b), "</em>"@, e, 1);
    lemma_replace_unmatched_first((a + "<br>"@ + b), "</em>"@, "*"@, e);
    assert((a + "<br>"@ + b)[e + 1] == "<br>"@[1]);
    lemma_mismatch((a + "<br>"@ + b), "<i>"@, e, 1);
    lemma_replace_unmatched_first((a + "<br>"@ + b), "<i>"@, "*"@, e);
    assert((a + "<br>"@ + b)[e + 1] == "<br>"@[1]);
    lemma_mismatch((a + "<br>"@ + b), "</i>"@, e, 1);
    lemma_replace_unmatched_first((a + "<br>"@ + b), "</i>"@, "*"@, e);
    assert((a + "<br>"@ + b)[e + 1] == "<br>"@[1]);
    lemma_mismatch((a + "<br>"@ + b), "<p>"@, e, 1);
    lemma_replace_unmatched_first((a + "<br>"@ + b), "<p>"@, "\n\n"@, e);
    assert((a + "<br>"@ + b)[e + 1] == "<br>"@[1]);
    lemma_mismatch((a + "<br>"@ + b), "</p>"@, e, 1);
    lemma_replace_unmatched_first((a + "<br>"@ + b), "</p>"@, "\n\n"@, e);
    lemma_replace_only_at(a, "<br>"@, b, "\n"@);
    lemma_lacks_concat(a, "\n"@, '<');
    lemma_lacks_concat(a + "\n"@, b, '<');
    lemma_replace_all_absent((a + "\n"@ + b), "<br/>"@, "\n"@);
    lemma_lacks_concat(a, "\n"@, '<');
    lemma_lacks_concat(a + "\n"@, b, '<');
    lemma_replace_all_absent((a + "\n"@ + b), "<br />"@, "\n"@);
    lemma_lacks_concat(a, "\n"@, '<');
    lemma_lacks_concat(a + "\n"@, b, '<');
    lemma_replace_all_absent((a + "\n"@ + b), "<li>"@, "\n- "@);
    lemma_lacks_concat(a, "\n"@, '<');
    lemma_lacks_concat(a + "\n"@, b, '<');
    lemma_replace_all_absent((a + "\n"@ + b), "</li>"@, ""@);
    lemma_lacks_concat(a, "\n"@, '<');
    lemma_lacks_concat(a + "\n"@, b, '<');
    lemma_replace_all_absent((a + "\n"@ + b), "<ul>"@, "\n"@);
    lemma_lacks_concat(a, "\n"@, '<');
    lemma_lacks_concat(a + "\n"@, b, '<');
    lemma_replace_all_absent((a + "\n"@ + b), "</ul>"@, "\n"@);
    lemma_lacks_concat(a, "\n"@, '<');
    lemma_lacks_concat(a + "\n"@, b, '<');
    lemma_replace_all_absent((a + "\n"@ + b), "<ol>"@, "\n"@);
    lemma_lacks_concat(a, "\n"@, '<');
    lemma_lacks_concat(a + "\n"@, b, '<');
    lemma_replace_all_absent((a + "\n"@ + b), "</ol>"@, "\n"@);
}

/// The markup rewrites turn `<br/>` between texts without `<` into a newline.
proof fn lemma_break_markup_br_slash(a: Seq<char>, b: Seq<char>)
    requires
        lacks(a, '<'),
        lacks(b, '<'),
    ensures
        rewrite_markup(a + "<br/>"@ + b) == a + "\n"@ + b,
{
    reveal_strlit("");
    reveal_strlit("\n");
    reveal_strlit("\n\n");
    reveal_strlit("\n# ");
    reveal_strlit("\n## ");
    reveal_strlit("\n### ");
    reveal_strlit("\n#### ");
    reveal_strlit("\n- ");
    reveal_strlit("\n```\n");
    reveal_strlit("\n```rust\n");
    reveal_strlit("*");
    reveal_strlit("**");
    reveal_strlit("</b>");
    reveal_strlit("</code>");
    reveal_strlit("</em>");
    reveal_strlit("</h1>");
    reveal_strlit("</h2>");
    reveal_strlit("</h3>");
    reveal_strlit("</h4>");
    reveal_strlit("</i>");
    reveal_strlit("</li>");
    reveal_strlit("</ol>");
    reveal_strlit("</p>");
    reveal_strlit("</pre>");
    reveal_strlit("</strong>");
    reveal_strlit("</ul>");
    reveal_strlit("<b>");
    reveal_strlit("<br />");
    reveal_strlit("<br/>");
    reveal_strlit("<br>");
    reveal_strlit("<code>");
    reveal_strlit("<em>");
    reveal_strlit("<h1>");
    reveal_strlit("<h2>");
    reveal_strlit("<h3>");
    reveal_strlit("<h4>");
    reveal_strlit("<i>");
    reveal_strlit("<li>");
    reveal_strlit("<ol>");
    reveal_strlit("<p>");
    reveal_strlit("<pre class=\"rust item-decl\">");
    reveal_strlit("<pre>");
    reveal_strlit("<strong>");
    reveal_strlit("<ul>");
    reveal_strlit("`");
    let e = a.len() as int;
    lemma_only_at(a, "<br/>"@, b, '<');
    assert((a + "<br/>"@ + b)[e + 1] == "<br/>"@[1]);
    lemma_mismatch((a + "<br/>"@ + b), "<pre class=\"rust item-decl\">"@, e, 1);
    lemma_replace_unmatched_first((a + "<br/>"@ + b), "<pre class=\"rust item-decl\">"@, "\n```rust\n"@, e);
    assert((a + "<br/>"@ + b)[e + 1] == "<br/>"@[1]);
    lemma_mismatch((a + "<br/>"@ + b), "<pre>"@, e, 1);
    lemma_replace_unmatched_first((a + "<br/>"@ + b), "<pre>"@, "\n```\n"@, e);
    assert((a + "<br/>"@ + b)[e + 1] == "<br/>"@[1]);
    lemma_mismatch((a + "<br/>"@ + b), "</pre>"@, e, 1);
    lemma_replace_unmatched_first((a + "<br/>"@ + b), "</pre>"@, "\n```\n"@, e);
    assert((a + "<br/>"@ + b)[e + 1] == "<br/>"@[1]);
    lemma_mismatch((a + "<br/>"@ + b), "<code>"@, e, 1);
    lemma_replace_unmatched_first((a + "<br/>"@ + b), "<code>"@, "`"@, e);
    assert((a + "<br/>"@ + b)[e + 1] == "<br/>"@[1]);
    lemma_mismatch((a + "<br/>"@ + b), "</code>"@, e, 1);
    lemma_replace_unmatched_first((a + "<br/>"@ + b), "</code>"@, "`"@, e);
    assert((a + "<br/>"@ + b)[e + 1] == "<br/>"@[1]);
    lemma_mismatch((a + "<br/>"@ + b), "<h1>"@, e, 1);
    lemma_replace_unmatched_first((a + "<br/>"@ + b), "<h1>"@, "\n# "@, e);
    assert((a + "<br/>"@ + b)[e + 1] == "<br/>"@[1]);
    lemma_mismatch((a + "<br/>"@ + b), "</h1>"@, e, 1);
    lemma_replace_unmatched_first((a + "<br/>"@ + b), "</h1>"@, "\n"@, e);
    assert((a + "<br/>"@ + b)[e + 1] == "<br/>"@[1]);
    lemma_mismatch((a + "<br/>"@ + b), "<h2>"@, e, 1);
    lemma_replace_unmatched_first((a + "<br/>"@ + b), "<h2>"@, "\n## "@, e);
    assert((a + "<br/>"@ + b)[e + 1] == "<br/>"@[1]);
    lemma_mismatch((a + "<br/>"@ + b), "</h2>"@, e, 1);
    lemma_replace_unmatched_first((a + "<br/>"@ + b), "</h2>"@, "\n"@, e);
    assert((a + "<br/>"@ + b)[e + 1] == "<br/>"@[1]);
    lemma_mismatch((a + "<br/>"@ + b), "<h3>"@, e, 1);
    lemma_replace_unmatched_first((a + "<br/>"@ + b), "<h3>"@, "\n### "@, e);
    assert((a + "<br/>"@ + b)[e + 1] == "<br/>"@[1]);
    lemma_mismatch((a + "<br/>"@ + b), "</h3>"@, e, 1);
    lemma_replace_unmatched_first((a + "<br/>"@ + b), "</h3>"@, "\n"@, e);
    assert((a + "<br/>"@ + b)[e + 1] == "<br/>"@[1]);
    lemma_mismatch((a + "<br/>"@ + b), "<h4>"@, e, 1);
    lemma_replace_unmatched_first((a + "<br/>"@ + b), "<h4>"@, "\n#### "@, e);
    assert((a + "<br/>"@ + b)[e + 1] == "<br/>"@[1]);
    lemma_mismatch((a + "<br/>"@ + b), "</h4>"@, e, 1);
    lemma_replace_unmatched_first((a + "<br/>"@ + b), "</h4>"@, "\n"@, e);
    assert((a + "<br/>"@ + b)[e + 1] == "<br/>"@[1]);
    lemma_mismatch((a + "<br/>"@ + b), "<strong>"@, e, 1);
    lemma_replace_unmatched_first((a + "<br/>"@ + b), "<strong>"@, "**"@, e);
    assert((a + "<br/>"@ + b)[e + 1] == "<br/>"@[1]);
    lemma_mismatch((a + "<br/>"@ + b), "</strong>"@, e, 1);
    lemma_replace_unmatched_first((a + "<br/>"@ + b), "</strong>"@, "**"@, e);
    assert((a + "<br/>"@ + b)[e + 2] == "<br/>"@[2]);
    lemma_mismatch((a + "<br/>"@ + b), "<b>"@, e, 2);
    lemma_replace_unmatched_first((a + "<br/>"@ + b), "<b>"@, "**"@, e);
    assert((a + "<br/>"@ + b)[e + 1] == "<br/>"@[1]);
    lemma_mismatch((a + "<br/>"@ + b), "</b>"@, e, 1);
    lemma_replace_unmatched_first((a + "<br/>"@ + b), "</b>"@, "**"@, e);
    assert((a + "<br/>"@ + b)[e + 1] == "<br/>"@[1]);
    lemma_mismatch((a + "<br/>"@ + b), "<em>"@, e, 1);
    lemma_replace_unmatched_first((a + "<br/>"@ + b), "<em>"@, "*"@, e);
    assert((a + "<br/>"@ + b)[e + 1] == "<br/>"@[1]);
    lemma_mismatch((a + "<br/>"@ + b), "</em>"@, e, 1);
    lemma_replace_unmatched_first((a + "<br/>"@ + b), "</em>"@, "*"@, e);
    assert((a + "<br/>"@ + b)[e + 1] == "<br/>"@[1]);
    lemma_mismatch((a + "<br/>"@ + b), "<i>"@, e, 1);
    lemma_replace_unmatched_first((a + "<br/>"@ + b), "<i>"@, "*"@, e);
    assert((a + "<br/>"@ + b)[e + 1] == "<br/>"@[1]);
    lemma_mismatch((a + "<br/>"@ + b), "</i>"@, e, 1);
    lemma_replace_unmatched_first((a + "<br/>"@ + b), "</i>"@, "*"@, e);
    assert((a + "<br/>"@ + b)[e + 1] == "<br/>"@[1]);
    lemma_mismatch((a + "<br/>"@ + b), "<p>"@, e, 1);
    lemma_replace_unmatched_first((a + "<br/>"@ + b), "<p>"@, "\n\n"@, e);
    assert((a + "<br/>"@ + b)[e + 1] == "<br/>"@[1]);
    lemma_mismatch((a + "<br/>"@ + b), "</p>"@, e, 1);
    lemma_replace_unmatched_first((a + "<br/>"@ + b), "</p>"@, "\n\n"@, e);
    assert((a + "<br/>"@ + b)[e + 3] == "<br/>"@[3]);
    lemma_mismatch((a + "<br/>"@ + b), "<br>"@, e, 3);
    lemma_replace_unmatched_first((a + "<br/>"@ + b), "<br>"@, "\n"@, e);
    lemma_replace_only_at(a, "<br/>"@, b, "\n"@);
    lemma_lacks_concat(a, "\n"@, '<');
    lemma_lacks_concat(a + "\n"@, b, '<');
    lemma_replace_all_absent((a + "\n"@ + b), "<br />"@, "\n"@);
    lemma_lacks_concat(a, "\n"@, '<');
    lemma_lacks_concat(a + "\n"@, b, '<');
    lemma_replace_all_absent((a + "\n"@ + b), "<li>"@, "\n- "@);
    lemma_lacks_concat(a, "\n"@, '<');
    lemma_lacks_concat(a + "\n"@, b, '<');
    lemma_replace_all_absent((a + "\n"@ + b), "</li>"@, ""@);
    lemma_lacks_concat(a, "\n"@, '<');
    lemma_lacks_concat(a + "\n"@, b, '<');
    lemma_replace_all_absent((a + "\n"@ + b), "<ul>"@, "\n"@);
    lemma_lacks_concat(a, "\n"@, '<');
    lemma_lacks_concat(a + "\n"@, b, '<');
    lemma_replace_all_absent((a + "\n"@ + b), "</ul>"@, "\n"@);
    lemma_lacks_concat(a, "\n"@, '<');
    lemma_lacks_concat(a + "\n"@, b, '<');
    lemma_replace_all_absent((a + "\n"@ + b), "<ol>"@, "\n"@);
    lemma_lacks_concat(a, "\n"@, '<');
    lemma_lacks_concat(a + "\n"@, b, '<');
    lemma_replace_all_absent((a + "\n"@ + b), "</ol>"@, "\n"@);
}

/// The markup rewrites turn `<br />` between texts without `<` into a newline.
proof fn lemma_break_markup_br_space(a: Seq<char>, b: Seq<char>)
    requires
        lacks(a, '<'),
        lacks(b, '<'),
    ensures
        rewrite_markup(a + "<br />"@ + b) == a + "\n"@ + b,
{
    reveal_strlit("");
    reveal_strlit("\n");
    reveal_strlit("\n\n");
    reveal_strlit("\n# ");
    reveal_strlit("\n## ");
    reveal_strlit("\n### ");
    reveal_strlit("\n#### ");
    reveal_strlit("\n- ");
    reveal_strlit("\n```\n");
    reveal_strlit("\n```rust\n");
    reveal_strlit("*");
    reveal_strlit("**");
    reveal_strlit("</b>");
    reveal_strlit("</code>");
    reveal_strlit("</em>");
    reveal_strlit("</h1>");
    reveal_strlit("</h2>");
    reveal_strlit("</h3>");
    reveal_strlit("</h4>");
    reveal_strlit("</i>");
    reveal_strlit("</li>");
    reveal_strlit("</ol>");
    reveal_strlit("</p>");
    reveal_strlit("</pre>");
    reveal_strlit("</strong>");
    reveal_strlit("</ul>");
    reveal_strlit("<b>");
    reveal_strlit("<br />");
    reveal_strlit("<br/>");
    reveal_strlit("<br>");
    reveal_strlit("<code>");
    reveal_strlit("<em>");
    reveal_strlit("<h1>");
    reveal_strlit("<h2>");
    reveal_strlit("<h3>");
    reveal_strlit("<h4>");
    reveal_strlit("<i>");
    reveal_strlit("<li>");
    reveal_strlit("<ol>");
    reveal_strlit("<p>");
    reveal_strlit("<pre class=\"rust item-decl\">");
    reveal_strlit("<pre>");
    reveal_strlit("<strong>");
    reveal_strlit("<ul>");
    reveal_strlit("`");
    let e = a.len() as int;
    lemma_only_at(a, "<br />"@, b, '<');
    assert((a + "<br />"@ + b)[e + 1] == "<br />"@[1]);
    lemma_mismatch((a + "<br />"@ + b), "<pre class=\"rust item-decl\">"@, e, 1);
    lemma_replace_unmatched_first((a + "<br />"@ + b), "<pre class=\"rust item-decl\">"@, "\n```rust\n"@, e);
    assert((a + "<br />"@ + b)[e + 1] == "<br />"@[1]);
    lemma_mismatch((a + "<br />"@ + b), "<pre>"@, e, 1);
    lemma_replace_unmatched_first((a + "<br />"@ + b), "<pre>"@, "\n```\n"@, e);
    assert((a + "<br />"@ + b)[e + 1] == "<br />"@[1]);
    lemma_mismatch((a + "<br />"@ + b), "</pre>"@, e, 1);
    lemma_replace_unmatched_first((a + "<br />"@ + b), "</pre>"@, "\n```\n"@, e);
    assert((a + "<br />"@ + b)[e + 1] == "<br />"@[1]);
    lemma_mismatch((a + "<br />"@ + b), "<code>"@, e, 1);
    lemma_replace_unmatched_first((a + "<br />"@ + b), "<code>"@, "`"@, e);
    assert((a + "<br />"@ + b)[e + 1] == "<br />"@[1]);
    lemma_mismatch((a + "<br />"@ + b), "</code>"@, e, 1);
    lemma_replace_unmatched_first((a + "<br />"@ + b), "</code>"@, "`"@, e);
    assert((a + "<br />"@ + b)[e + 1] == "<br />"@[1]);
    lemma_mismatch((a + "<br />"@ + b), "<h1>"@, e, 1);
    lemma_replace_unmatched_first((a + "<br />"@ + b), "<h1>"@, "\n# "@, e);
    assert((a + "<br />"@ + b)[e + 1] == "<br />"@[1]);
    lemma_mismatch((a + "<br />"@ + b), "</h1>"@, e, 1);
    lemma_replace_unmatched_first((a + "<br />"@ + b), "</h1>"@, "\n"@, e);
    assert((a + "<br />"@ + b)[e + 1] == "<br />"@[1]);
    lemma_mismatch((a + "<br />"@ + b), "<h2>"@, e, 1);
    lemma_replace_unmatched_first((a + "<br />"@ + b), "<h2>"@, "\n## "@, e);
    assert((a + "<br />"@ + b)[e + 1] == "<br />"@[1]);
    lemma_mismatch((a + "<br />"@ + b), "</h2>"@, e, 1);
    lemma_replace_unmatched_first((a + "<br />"@ + b), "</h2>"@, "\n"@, e);
    assert((a + "<br />"@ + b)[e + 1] == "<br />"@[1]);
    lemma_mismatch((a + "<br />"@ + b), "<h3>"@, e, 1);
    lemma_replace_unmatched_first((a + "<br />"@ + b), "<h3>"@, "\n### "@, e);
    assert((a + "<br />"@ + b)[e + 1] == "<br />"@[1]);
    lemma_mismatch((a + "<br />"@ + b), "</h3>"@, e, 1);
    lemma_replace_unmatched_first((a + "<br />"@ + b), "</h3>"@, "\n"@, e);
    assert((a + "<br />"@ + b)[e + 1] == "<br />"@[1]);
    lemma_mismatch((a + "<br />"@ + b), "<h4>"@, e, 1);
    lemma_replace_unmatched_first((a + "<br />"@ + b), "<h4>"@, "\n#### "@, e);
    assert((a + "<br />"@ + b)[e + 1] == "<br />"@[1]);
    lemma_mismatch((a + "<br />"@ + b), "</h4>"@, e, 1);
    lemma_replace_unmatched_first((a + "<br />"@ + b), "</h4>"@, "\n"@, e);
    assert((a + "<br />"@ + b)[e + 1] == "<br />"@[1]);
    lemma_mismatch((a + "<br />"@ + b), "<strong>"@, e, 1);
    lemma_replace_unmatched_first((a + "<br />"@ + b), "<strong>"@, "**"@, e);
    assert((a + "<br />"@ + b)[e + 1] == "<br />"@[1]);
    lemma_mismatch((a + "<br />"@ + b), "</strong>"@, e, 1);
    lemma_replace_unmatched_first((a + "<br />"@ + b), "</strong>"@, "**"@, e);
    assert((a + "<br />"@ + b)[e + 2] == "<br />"@[2]);
    lemma_mismatch((a + "<br />"@ + b), "<b>"@, e, 2);
    lemma_replace_unmatched_first((a + "<br />"@ + b), "<b>"@, "**"@, e);
    assert((a + "<br />"@ + b)[e + 1] == "<br />"@[1]);
    lemma_mismatch((a + "<br />"@ + b), "</b>"@, e, 1);
    lemma_replace_unmatched_first((a + "<br />"@ + b), "</b>"@, "**"@, e);
    assert((a + "<br />"@ + b)[e + 1] == "<br />"@[1]);
    lemma_mismatch((a + "<br />"@ + b), "<em>"@, e, 1);
    lemma_replace_unmatched_first((a + "<br />"@ + b), "<em>"@, "*"@, e);
    assert((a + "<br />"@ + b)[e + 1] == "<br />"@[1]);
    lemma_mismatch((a + "<br />"@ + b), "</em>"@, e, 1);
    lemma_replace_unmatched_first((a + "<br />"@ + b), "</em>"@, "*"@, e);
    assert((a + "<br />"@ + b)[e + 1] == "<br />"@[1]);
    lemma_mismatch((a + "<br />"@ + b), "<i>"@, e, 1);
    lemma_replace_unmatched_first((a + "<br />"@ + b), "<i>"@, "*"@, e);
    assert((a + "<br />"@ + b)[e + 1] == "<br />"@[1]);
    lemma_mismatch((a + "<br />"@ + b), "</i>"@, e, 1);
    lemma_replace_unmatched_first((a + "<br />"@ + b), "</i>"@, "*"@, e);
    assert((a + "<br />"@ + b)[e + 1] == "<br />"@[1]);
    lemma_mismatch((a + "<br />"@ + b), "<p>"@, e, 1);
    lemma_replace_unmatched_first((a + "<br />"@ + b), "<p>"@, "\n\n"@, e);
    assert((a + "<br />"@ + b)[e + 1] == "<br />"@[1]);
    lemma_mismatch((a + "<br />"@ + b), "</p>"@, e, 1);
    lemma_replace_unmatched_first((a + "<br />"@ + b), "</p>"@, "\n\n"@, e);
    assert((a + "<br />"@ + b)[e + 3] == "<br />"@[3]);
    lemma_mismatch((a + "<br />"@ + b), "<br>"@, e, 3);
    lemma_replace_unmatched_first((a + "<br />"@ + b), "<br>"@, "\n"@, e);
    assert((a + "<br />"@ + b)[e + 3] == "<br />"@[3]);
    lemma_mismatch((a + "<br />"@ + b), "<br/>"@, e, 3);
    lemma_replace_unmatched_first((a + "<br />"@ + b), "<br/>"@, "\n"@, e);
    lemma_replace_only_at(a, "<br />"@, b, "\n"@);
    lemma_lacks_concat(a, "\n"@, '<');
    lemma_lacks_concat(a + "\n"@, b, '<');
    lemma_replace_all_absent((a + "\n"@ + b), "<li>"@, "\n- "@);
    lemma_lacks_concat(a, "\n"@, '<');
    lemma_lacks_concat(a + "\n"@, b, '<');
    lemma_replace_all_absent((a + "\n"@ + b), "</li>"@, ""@);
    lemma_lacks_concat(a, "\n"@, '<');
    lemma_lacks_concat(a + "\n"@, b, '<');
    lemma_replace_all_absent((a + "\n"@ + b), "<ul>"@, "\n"@);
    lemma_lacks_concat(a, "\n"@, '<');
    lemma_lacks_concat(a + "\n"@, b, '<');
    lemma_replace_all_absent((a + "\n"@ + b), "</ul>"@, "\n"@);
    lemma_lacks_concat(a, "\n"@, '<');
    lemma_lacks_concat(a + "\n"@, b, '<');
    lemma_replace_all_absent((a + "\n"@ + b), "<ol>"@, "\n"@);
    lemma_lacks_concat(a, "\n"@, '<');
    lemma_lacks_concat(a + "\n"@, b, '<');
    lemma_replace_all_absent((a + "\n"@ + b), "</ol>"@, "\n"@);
}

/// A line break, in any of its three spellings, between two non-empty
/// texts without markup, entities or untidy whitespace becomes a single
/// newline.
pub proof fn lemma_line_breaks(a: Seq<char>, b: Seq<char>)
    requires
        a.len() > 0 && is_clean_text(a) && lacks(a, '<') && lacks(a, '>') && lacks(a, '&'),
        b.len() > 0 && is_clean_text(b) && lacks(b, '<') && lacks(b, '>') && lacks(b, '&'),
    ensures
        markdown_of(a + "<br>"@ + b) == a + "\n"@ + b,
        markdown_of(a + "<br/>"@ + b) == a + "\n"@ + b,
        markdown_of(a + "<br />"@ + b) == a + "\n"@ + b,
{
    reveal_strlit("<br>");
    reveal_strlit("<br/>");
    reveal_strlit("<br />");
    lemma_break_markup_br(a, b);
    lemma_break_rest(a, "<br>"@, b);
    lemma_break_markup_br_slash(a, b);
    lemma_break_rest(a, "<br/>"@, b);
    lemma_break_markup_br_space(a, b);
    lemma_break_rest(a, "<br />"@, b);
}


} // verus!
