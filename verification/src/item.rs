//! Parser for individual rustdoc item pages (structs, enums, traits, etc.).

use vstd::prelude::*;

use crate::index::{top_docblock, top_docblock_content, ItemKind};
use crate::markdown::{
    markdown_chars, markdown_of, meta_description_chars, meta_description_of, no_double_space,
};
use crate::text::{
    bounded_prefix, bounded_prefix_len, chars_of, find, find_char, find_in,
    find_str, head, is_trimmed, is_whitespace, is_ws, lemma_find, lemma_nth_find, lemma_trim, matches_at, nth_find,
    occurs_at, replace_all, replace_from, replace_str, string_of, tail, trim, trimmed,
   
};

verus! {

/// Parsed documentation for a single item (struct, enum, trait, etc.).
#[derive(Debug, Clone)]
pub struct ItemDoc {
    /// The kind of item.
    pub kind: ItemKind,
    /// The item name.
    pub name: String,
    /// The type signature/declaration.
    pub signature: String,
    /// The item description (from docblock).
    pub description: String,
    /// Methods or associated items.
    pub methods: Vec<MethodDoc>,
    /// Field names (for structs).
    pub fields: Vec<String>,
    /// Variant names (for enums).
    pub variants: Vec<String>,
}

/// Documentation for a method.
#[derive(Debug, Clone)]
pub struct MethodDoc {
    /// Method name.
    pub name: String,
    /// Method signature.
    pub signature: String,
    /// Brief description.
    pub description: String,
}

/// The text of a `MethodDoc`.
pub ghost struct MethodView {
    pub name: Seq<char>,
    pub signature: Seq<char>,
    pub description: Seq<char>,
}

impl View for MethodDoc {
    type V = MethodView;

    open spec fn view(&self) -> MethodView {
        MethodView {
            name: self.name@,
            signature: self.signature@,
            description: self.description@,
        }
    }
}

/// The content of an `ItemDoc`.
pub ghost struct ItemView {
    pub kind: ItemKind,
    pub name: Seq<char>,
    pub signature: Seq<char>,
    pub description: Seq<char>,
    pub methods: Seq<MethodView>,
    pub fields: Seq<Seq<char>>,
    pub variants: Seq<Seq<char>>,
}

impl View for ItemDoc {
    type V = ItemView;

    open spec fn view(&self) -> ItemView {
        ItemView {
            kind: self.kind,
            name: self.name@,
            signature: self.signature@,
            description: self.description@,
            methods: methods_view(self.methods@),
            fields: strings_view(self.fields@),
            variants: strings_view(self.variants@),
        }
    }
}

/// The texts of a list of methods.
pub open spec fn methods_view(v: Seq<MethodDoc>) -> Seq<MethodView> {
    v.map_values(|m: MethodDoc| m@)
}

/// The texts of a list of strings.
pub open spec fn strings_view(v: Seq<String>) -> Seq<Seq<char>> {
    v.map_values(|s: String| s@)
}

/// The text of an optional text, or empty.
pub open spec fn or_empty(o: Option<Seq<char>>) -> Seq<char> {
    match o {
        Some(s) => s,
        None => Seq::empty(),
    }
}

// ---------------------------------------------------------------------------
// Name
// ---------------------------------------------------------------------------

/// The part of `s` before the first occurrence of `p`, or all of `s`.
pub open spec fn before_first(s: Seq<char>, p: Seq<char>) -> Seq<char> {
    match find(s, p) {
        Some(i) => s.take(i),
        None => s,
    }
}

/// The item name from a page title `Name in path - Rust`: the title text
/// up to ` - Rust` (else up to `</title>`), cut before the first ` in `,
/// trimmed and without `<wbr>`.
pub open spec fn item_name_of(h: Seq<char>) -> Option<Seq<char>> {
    match find(h, "<title>"@) {
        None => None,
        Some(start) => {
            let rest = h.skip(start + "<title>"@.len());
            let end = match find(rest, " - Rust"@) {
                Some(e) => Some(e),
                None => find(rest, "</title>"@),
            };
            match end {
                None => None,
                Some(e) => Some(
                    replace_all(trim(before_first(rest.take(e), " in "@)), "<wbr>"@, ""@),
                ),
            }
        },
    }
}

/// Computes `item_name_of(html@)`.
pub fn item_name_chars(html: &[char]) -> (r: Option<Vec<char>>)
    ensures
        match r {
            Some(n) => item_name_of(html@) == Some(n@),
            None => item_name_of(html@) is None,
        },
{
    let open = chars_of("<title>");
    let start = find_in(html, open.as_slice())?;
    let rest = tail(html, start + open.len());
    let end = match find_str(rest, " - Rust") {
        Some(e) => e,
        None => find_str(rest, "</title>")?,
    };
    let title = head(rest, end);
    let first = match find_str(title, " in ") {
        Some(i) => head(title, i),
        None => title,
    };
    let t = trimmed(first);
    Some(replace_str(t.as_slice(), "<wbr>", ""))
}

/// Extracts the item name from the page title.
pub fn extract_item_name(html: &str) -> (r: Option<String>)
    ensures
        match r {
            Some(n) => item_name_of(html@) == Some(n@),
            None => item_name_of(html@) is None,
        },
{
    let s = chars_of(html);
    match item_name_chars(s.as_slice()) {
        Some(n) => Some(string_of(n.as_slice())),
        None => None,
    }
}

// ---------------------------------------------------------------------------
// Signatures
// ---------------------------------------------------------------------------

/// Scanning `s` left to right: the text kept so far, whether the scan is
/// inside a tag, and whether the last character kept is a space standing
/// for whitespace.
pub open spec fn sig_state(s: Seq<char>) -> (Seq<char>, bool, bool)
    decreases s.len(),
{
    if s.len() == 0 {
        (Seq::empty(), false, false)
    } else {
        let (out, in_tag, sp) = sig_state(s.drop_last());
        let c = s.last();
        if c == '<' {
            (out, true, sp)
        } else if c == '>' {
            (out, false, sp)
        } else if in_tag {
            (out, in_tag, sp)
        } else if is_ws(c) {
            if !sp {
                (out.push(' '), in_tag, true)
            } else {
                (out, in_tag, sp)
            }
        } else {
            (out.push(c), in_tag, false)
        }
    }
}

/// `s` with tags removed, whitespace runs collapsed to one space, the
/// entities `&lt;`, `&gt;`, `&amp;` and `&quot;` decoded, and the result
/// trimmed.
pub open spec fn clean_sig(s: Seq<char>) -> Seq<char> {
    let t = sig_state(s).0;
    let t = replace_all(t, "&lt;"@, "<"@);
    let t = replace_all(t, "&gt;"@, ">"@);
    let t = replace_all(t, "&amp;"@, "&"@);
    let t = replace_all(t, "&quot;"@, "\""@);
    trim(t)
}

/// Computes `clean_sig(s@)`.
pub fn clean_signature_chars(s: &[char]) -> (out: Vec<char>)
    ensures
        out@ == clean_sig(s@),
{
    let mut out: Vec<char> = Vec::new();
    let mut in_tag = false;
    let mut sp = false;
    let mut i: usize = 0;
    while i < s.len()
        invariant
            i <= s@.len(),
            (out@, in_tag, sp) == sig_state(s@.take(i as int)),
        decreases s@.len() - i,
    {
        let c = s[i];
        assert(s@.take(i + 1).drop_last() == s@.take(i as int));
        assert(s@.take(i + 1).last() == c);
        if c == '<' {
            in_tag = true;
        } else if c == '>' {
            in_tag = false;
        } else if in_tag {
        } else if is_whitespace(c) {
            if !sp {
                out.push(' ');
                sp = true;
            }
        } else {
            out.push(c);
            sp = false;
        }
        i = i + 1;
    }
    assert(s@.take(s@.len() as int) == s@);
    let a = replace_str(out.as_slice(), "&lt;", "<");
    let a = replace_str(a.as_slice(), "&gt;", ">");
    let a = replace_str(a.as_slice(), "&amp;", "&");
    let a = replace_str(a.as_slice(), "&quot;", "\"");
    trimmed(a.as_slice())
}

/// Cleans up a signature by removing HTML tags and normalizing whitespace.
pub fn clean_signature(html: &str) -> (out: String)
    ensures
        out@ == clean_sig(html@),
{
    let s = chars_of(html);
    let r = clean_signature_chars(s.as_slice());
    string_of(r.as_slice())
}

/// The only whitespace in `t` is spaces.
pub open spec fn only_spaces(t: Seq<char>) -> bool {
    forall|i: int| 0 <= i < t.len() && is_ws(#[trigger] t[i]) ==> t[i] == ' '
}

/// A normalized signature: no whitespace but single spaces, none at either
/// end.
pub open spec fn is_normalized(t: Seq<char>) -> bool {
    &&& only_spaces(t)
    &&& no_double_space(t)
    &&& is_trimmed(t)
}

/// What the signature scan keeps true of its state.
pub open spec fn sig_inv(out: Seq<char>, sp: bool) -> bool {
    &&& only_spaces(out)
    &&& no_double_space(out)
    &&& sp ==> out.len() > 0 && out.last() == ' '
    &&& !sp ==> out.len() == 0 || out.last() != ' '
}

proof fn lemma_push_spaced(out: Seq<char>, c: char)
    requires
        only_spaces(out),
        no_double_space(out),
        !is_ws(c) || c == ' ',
        c == ' ' ==> out.len() == 0 || out.last() != ' ',
    ensures
        only_spaces(out.push(c)),
        no_double_space(out.push(c)),
{
    let t = out.push(c);
    assert forall|i: int| 0 <= i < t.len() && is_ws(#[trigger] t[i]) implies t[i] == ' ' by {
        if i < out.len() {
            assert(t[i] == out[i]);
        }
    }
    assert forall|i: int, j: int|
        #![trigger t[i], t[j]]
        0 <= i && j == i + 1 && j < t.len() implies !(t[i] == ' ' && t[j] == ' ') by {
        if j < out.len() {
            assert(t[i] == out[i] && t[j] == out[j]);
        } else {
            assert(t[i] == out.last());
        }
    }
}

/// The signature scan keeps `sig_inv`.
pub proof fn lemma_sig_state(s: Seq<char>)
    ensures
        sig_inv(sig_state(s).0, sig_state(s).2),
    decreases s.len(),
{
    if s.len() > 0 {
        lemma_sig_state(s.drop_last());
        let (out, in_tag, sp) = sig_state(s.drop_last());
        let c = s.last();
        if c != '<' && c != '>' && !in_tag {
            if is_ws(c) {
                if !sp {
                    lemma_push_spaced(out, ' ');
                }
            } else {
                lemma_push_spaced(out, c);
            }
        }
    }
}

/// Replacing occurrences by a non-empty text without whitespace keeps the
/// spacing of `s`; the result from `i` starts with `s[i]` or with `r`.
pub proof fn lemma_replace_spacing(s: Seq<char>, p: Seq<char>, r: Seq<char>, i: int)
    requires
        0 <= i <= s.len(),
        r.len() > 0,
        forall|k: int| 0 <= k < r.len() ==> !is_ws(#[trigger] r[k]),
        only_spaces(s),
        no_double_space(s),
    ensures
        only_spaces(replace_from(s, p, r, i)),
        no_double_space(replace_from(s, p, r, i)),
        i < s.len() ==> replace_from(s, p, r, i).len() > 0 && (replace_from(s, p, r, i)[0]
            == s[i] || replace_from(s, p, r, i)[0] == r[0]),
    decreases s.len() - i,
{
    if i < s.len() {
        let t = replace_from(s, p, r, i);
        if p.len() > 0 && matches_at(s, p, i) {
            let n = i + p.len();
            lemma_replace_spacing(s, p, r, n);
            let rest = replace_from(s, p, r, n);
            assert(t == r + rest);
            assert forall|k: int| 0 <= k < t.len() && is_ws(#[trigger] t[k]) implies t[k] == ' ' by {
                if k < r.len() {
                    assert(t[k] == r[k]);
                } else {
                    assert(t[k] == rest[k - r.len()]);
                }
            }
            assert forall|a: int, b: int|
                #![trigger t[a], t[b]]
                0 <= a && b == a + 1 && b < t.len() implies !(t[a] == ' ' && t[b] == ' ') by {
                if b < r.len() {
                    assert(t[a] == r[a]);
                } else if a < r.len() {
                    assert(t[a] == r[a]);
                } else {
                    assert(t[a] == rest[a - r.len()] && t[b] == rest[b - r.len()]);
                }
            }
            assert(t[0] == r[0]);
        } else {
            lemma_replace_spacing(s, p, r, i + 1);
            let rest = replace_from(s, p, r, i + 1);
            assert(t == seq![s[i]] + rest);
            assert forall|k: int| 0 <= k < t.len() && is_ws(#[trigger] t[k]) implies t[k] == ' ' by {
                if k == 0 {
                    assert(t[k] == s[i]);
                } else {
                    assert(t[k] == rest[k - 1]);
                }
            }
            assert forall|a: int, b: int|
                #![trigger t[a], t[b]]
                0 <= a && b == a + 1 && b < t.len() implies !(t[a] == ' ' && t[b] == ' ') by {
                if a == 0 {
                    assert(t[a] == s[i] && t[b] == rest[0]);
                    if rest[0] == s[i + 1] {
                        assert(s[i] == s[i] && s[i + 1] == s[i + 1]);
                    } else {
                        assert(!is_ws(r[0]));
                    }
                } else {
                    assert(t[a] == rest[a - 1] && t[b] == rest[b - 1]);
                }
            }
            assert(t[0] == s[i]);
        }
    }
}

/// Normalized spacing survives taking a contiguous part.
proof fn lemma_spacing_subrange(t: Seq<char>, a: int, b: int)
    requires
        0 <= a <= b <= t.len(),
        only_spaces(t),
        no_double_space(t),
    ensures
        only_spaces(t.subrange(a, b)),
        no_double_space(t.subrange(a, b)),
{
    let u = t.subrange(a, b);
    assert forall|i: int| 0 <= i < u.len() && is_ws(#[trigger] u[i]) implies u[i] == ' ' by {
        assert(u[i] == t[a + i]);
    }
    assert forall|i: int, j: int|
        #![trigger u[i], u[j]]
        0 <= i && j == i + 1 && j < u.len() implies !(u[i] == ' ' && u[j] == ' ') by {
        assert(u[i] == t[a + i] && u[j] == t[a + j]);
    }
}

proof fn lemma_replace_all_spacing(s: Seq<char>, p: Seq<char>, r: Seq<char>)
    requires
        r.len() > 0,
        forall|k: int| 0 <= k < r.len() ==> !is_ws(#[trigger] r[k]),
        only_spaces(s),
        no_double_space(s),
    ensures
        only_spaces(replace_all(s, p, r)),
        no_double_space(replace_all(s, p, r)),
{
    lemma_replace_spacing(s, p, r, 0);
}

/// A cleaned signature is normalized: its only whitespace is single
/// spaces, and none at either end.
pub proof fn lemma_clean_sig_normalized(s: Seq<char>)
    ensures
        is_normalized(clean_sig(s)),
{
    reveal_strlit("<");
    reveal_strlit(">");
    reveal_strlit("&");
    reveal_strlit("\"");
    lemma_sig_state(s);
    let t0 = sig_state(s).0;
    lemma_replace_all_spacing(t0, "&lt;"@, "<"@);
    let t1 = replace_all(t0, "&lt;"@, "<"@);
    lemma_replace_all_spacing(t1, "&gt;"@, ">"@);
    let t2 = replace_all(t1, "&gt;"@, ">"@);
    lemma_replace_all_spacing(t2, "&amp;"@, "&"@);
    let t3 = replace_all(t2, "&amp;"@, "&"@);
    lemma_replace_all_spacing(t3, "&quot;"@, "\""@);
    let t4 = replace_all(t3, "&quot;"@, "\""@);
    let (a, b) = lemma_trim(t4);
    lemma_spacing_subrange(t4, a, b);
}

/// The declaration of an item: the cleaned `<code>` content of the first
/// `class="rust item-decl` block, or empty.
pub open spec fn signature_of(h: Seq<char>) -> Seq<char> {
    match find(h, "class=\"rust item-decl"@) {
        None => Seq::empty(),
        Some(st) => {
            let rest = h.skip(st);
            match find(rest, "<code>"@) {
                None => Seq::empty(),
                Some(cs) => {
                    let cr = rest.skip(cs + "<code>"@.len());
                    match find(cr, "</code>"@) {
                        None => Seq::empty(),
                        Some(ce) => clean_sig(cr.take(ce)),
                    }
                },
            }
        },
    }
}

/// Extracts the type signature/declaration.
pub fn extract_signature(html: &[char]) -> (out: Vec<char>)
    ensures
        out@ == signature_of(html@),
{
    let start = match find_str(html, "class=\"rust item-decl") {
        Some(s) => s,
        None => {
            return Vec::new();
        },
    };
    let rest = tail(html, start);
    let open = chars_of("<code>");
    let code_start = match find_in(rest, open.as_slice()) {
        Some(c) => c,
        None => {
            return Vec::new();
        },
    };
    let code_rest = tail(rest, code_start + open.len());
    match find_str(code_rest, "</code>") {
        Some(code_end) => clean_signature_chars(head(code_rest, code_end)),
        None => Vec::new(),
    }
}

// ---------------------------------------------------------------------------
// Docblock
// ---------------------------------------------------------------------------

/// Scanning from `i` with `depth` open `div`s: the character position of
/// the `</div>` that closes the outermost one. The scan steps over `<div`
/// and `</div>` and one character otherwise.
pub open spec fn close_div_from(s: Seq<char>, i: int, depth: nat) -> Option<nat>
    decreases s.len() - i,
{
    if i < 0 || i >= s.len() {
        None
    } else if matches_at(s, "<div"@, i) {
        proof {
            reveal_strlit("<div");
        }
        close_div_from(s, i + "<div"@.len(), depth + 1)
    } else if matches_at(s, "</div>"@, i) {
        proof {
            reveal_strlit("</div>");
        }
        if depth <= 1 {
            Some(i as nat)
        } else {
            close_div_from(s, i + "</div>"@.len(), (depth - 1) as nat)
        }
    } else {
        close_div_from(s, i + 1, depth)
    }
}

/// The position of the `</div>` that closes the `div` whose content `s` is.
pub open spec fn close_div_of(s: Seq<char>) -> Option<nat> {
    close_div_from(s, 0, 1)
}

/// Finds the character position of the matching `</div>` tag, accounting
/// for nesting.
pub fn find_matching_close_div(html: &[char]) -> (r: Option<usize>)
    ensures
        match r {
            Some(k) => close_div_of(html@) == Some(k as nat),
            None => close_div_of(html@) is None,
        },
        r matches Some(k) ==> k <= html@.len(),
{
    let open = chars_of("<div");
    let close = chars_of("</div>");
    proof {
        reveal_strlit("<div");
        reveal_strlit("</div>");
    }
    let n = html.len();
    let mut depth: usize = 1;
    let mut pos: usize = 0;
    while pos < n
        invariant
            n == html@.len(),
            open@ == "<div"@,
            close@ == "</div>"@,
            open@.len() == 4,
            close@.len() == 6,
            pos <= n,
            1 <= depth <= pos + 1,
            close_div_of(html@) == close_div_from(html@, pos as int, depth as nat),
        decreases n - pos,
    {
        if occurs_at(html, open.as_slice(), pos) {
            depth = depth + 1;
            pos = pos + 4;
        } else if occurs_at(html, close.as_slice(), pos) {
            if depth <= 1 {
                return Some(pos);
            }
            depth = depth - 1;
            pos = pos + 6;
        } else {
            pos = pos + 1;
        }
    }
    None
}

/// The position the scan for the closing `</div>` reports holds a
/// `</div>`, at or after where the scan started.
pub proof fn lemma_close_div_from(s: Seq<char>, i: int, depth: nat)
    ensures
        close_div_from(s, i, depth) matches Some(k) ==> i <= k && matches_at(s, "</div>"@, k as int),
    decreases s.len() - i,
{
    reveal_strlit("<div");
    reveal_strlit("</div>");
    if 0 <= i < s.len() {
        if matches_at(s, "<div"@, i) {
            lemma_close_div_from(s, i + 4, depth + 1);
        } else if matches_at(s, "</div>"@, i) {
            if depth > 1 {
                lemma_close_div_from(s, i + 6, (depth - 1) as nat);
            }
        } else {
            lemma_close_div_from(s, i + 1, depth);
        }
    }
}

/// The matching close of a `div` is a `</div>` tag.
pub proof fn lemma_close_div_is_close_tag(s: Seq<char>)
    ensures
        close_div_of(s) matches Some(k) ==> matches_at(s, "</div>"@, k as int),
{
    lemma_close_div_from(s, 0, 1);
}

/// The end of an item docblock's content: the matching `</div>`, else the
/// first 3000 bytes of the content.
pub open spec fn item_docblock_end(content: Seq<char>) -> Option<nat> {
    match close_div_of(content) {
        Some(e) => Some(e),
        None => bounded_prefix(content, 3000),
    }
}

/// The top docblock of an item page, converted to Markdown.
pub open spec fn item_docblock_of(h: Seq<char>) -> Seq<char> {
    match top_docblock_content(h) {
        None => Seq::empty(),
        Some(content) => match item_docblock_end(content) {
            Some(e) => markdown_of(content.take(e as int)),
            None => markdown_of(Seq::empty()),
        },
    }
}

/// Extracts the main docblock content for the item.
pub fn extract_item_docblock(html: &[char]) -> (out: Vec<char>)
    ensures
        out@ == item_docblock_of(html@),
{
    let content = match top_docblock(html) {
        Some(c) => c,
        None => {
            return Vec::new();
        },
    };
    let end = match find_matching_close_div(content) {
        Some(e) => Some(e),
        None => bounded_prefix_len(content, 3000),
    };
    match end {
        Some(e) => markdown_chars(head(content, e)),
        None => markdown_chars(head(content, 0)),
    }
}

// ---------------------------------------------------------------------------
// Identifiers
// ---------------------------------------------------------------------------

/// The value that follows the first occurrence of `p` at or after `pos`, up
/// to the next `"`, and the position just past that occurrence of `p`.
pub open spec fn id_value(h: Seq<char>, p: Seq<char>, pos: int) -> Option<(Seq<char>, int)> {
    if pos < 0 || pos > h.len() {
        None
    } else {
        match find(h.skip(pos), p) {
            None => None,
            Some(found) => {
                let abs = pos + found;
                let id_rest = h.skip(abs + p.len());
                match find(id_rest, seq!['"']) {
                    None => None,
                    Some(e) => Some((id_rest.take(e), abs + p.len())),
                }
            },
        }
    }
}

/// The position `id_value` reports lies after `pos` (strictly, for a
/// non-empty pattern) and within `h`.
pub proof fn lemma_id_value(h: Seq<char>, p: Seq<char>, pos: int)
    ensures
        id_value(h, p, pos) matches Some((v, next)) ==> pos + p.len() <= next <= h.len(),
{
    if 0 <= pos <= h.len() {
        lemma_find(h.skip(pos), p);
    }
}

/// Extracts the value that follows an `id="prefix"` attribute occurrence,
/// and the position just past the match.
pub fn next_id_value<'a>(html: &'a [char], pattern: &[char], pos: usize) -> (r: Option<
    (&'a [char], usize),
>)
    ensures
        match r {
            Some((v, next)) => id_value(html@, pattern@, pos as int) == Some((v@, next as int)),
            None => id_value(html@, pattern@, pos as int) is None,
        },
        r matches Some((v, next)) ==> next <= html@.len(),
{
    if pos > html.len() {
        return None;
    }
    let from = tail(html, pos);
    let found = find_in(from, pattern)?;
    let abs_start = pos + found;
    let id_rest = tail(html, abs_start + pattern.len());
    let id_end = find_char(id_rest, '"')?;
    Some((head(id_rest, id_end), abs_start + pattern.len()))
}

/// The values of all occurrences of a non-empty `p`, from `pos` on.
pub open spec fn ids_from(s: Seq<char>, p: Seq<char>, pos: int) -> Seq<Seq<char>>
    decreases s.len() - pos,
{
    if p.len() == 0 {
        Seq::empty()
    } else {
        match id_value(s, p, pos) {
            None => Seq::empty(),
            Some((name, next)) => {
                proof {
                    lemma_id_value(s, p, pos);
                }
                seq![name] + ids_from(s, p, next)
            },
        }
    }
}

/// The identifiers of pattern `id_pattern` within the section that starts
/// at `section_anchor` and ends at the next `<h2 id="implementations`, else
/// the next `<h2 id="trait`, else the end of the page.
pub open spec fn section_names_of(h: Seq<char>, section_anchor: Seq<char>, id_pattern: Seq<char>) -> Seq<Seq<char>> {
    match find(h, section_anchor) {
        None => Seq::empty(),
        Some(sp) => {
            let section = h.skip(sp);
            let se = match find(section, "<h2 id=\"implementations"@) {
                Some(e) => e,
                None => match find(section, "<h2 id=\"trait"@) {
                    Some(e) => e,
                    None => section.len() as int,
                },
            };
            ids_from(section.take(se), id_pattern, 0)
        },
    }
}

/// Computes `section_names_of(html@, section_anchor@, id_pattern@)`.
pub fn section_names_chars(html: &[char], section_anchor: &str, id_pattern: &str) -> (names: Vec<String>)
    requires
        id_pattern@.len() > 0,
    ensures
        strings_view(names@) == section_names_of(html@, section_anchor@, id_pattern@),
{
    let section_pos = match find_str(html, section_anchor) {
        Some(p) => p,
        None => {
            return Vec::new();
        },
    };
    let section = tail(html, section_pos);
    let section_end = match find_str(section, "<h2 id=\"implementations") {
        Some(e) => e,
        None => match find_str(section, "<h2 id=\"trait") {
            Some(e) => e,
            None => section.len(),
        },
    };
    let section_html = head(section, section_end);
    let pat = chars_of(id_pattern);
    let mut names: Vec<String> = Vec::new();
    let mut pos: usize = 0;
    loop
        invariant
            pat@ == id_pattern@,
            pat@.len() > 0,
            section_names_of(html@, section_anchor@, id_pattern@) == ids_from(section_html@, pat@, 0),
            pos <= section_html@.len(),
            strings_view(names@) + ids_from(section_html@, pat@, pos as int) == ids_from(
                section_html@,
                pat@,
                0,
            ),
        decreases section_html@.len() - pos,
    {
        match next_id_value(section_html, pat.as_slice(), pos) {
            None => {
                assert(strings_view(names@) + Seq::<Seq<char>>::empty() =~= strings_view(names@));
                return names;
            },
            Some((name, next_pos)) => {
                proof {
                    lemma_id_value(section_html@, pat@, pos as int);
                }
                let ghost prev = names@;
                names.push(string_of(name));
                assert(strings_view(names@) =~= strings_view(prev) + seq![name@]);
                pos = next_pos;
            },
        }
    }
}

/// Extracts the identifier names within a page section: struct fields
/// (`id="structfield.*"` within `id="fields"`) or enum variants
/// (`id="variant.*"` within `id="variants"`).
pub fn extract_section_names(html: &str, section_anchor: &str, id_pattern: &str) -> (names: Vec<String>)
    requires
        id_pattern@.len() > 0,
    ensures
        strings_view(names@) == section_names_of(html@, section_anchor@, id_pattern@),
{
    let h = chars_of(html);
    section_names_chars(h.as_slice(), section_anchor, id_pattern)
}

// ---------------------------------------------------------------------------
// Methods
// ---------------------------------------------------------------------------

/// The cleaned content of the first `class="code-header` heading of a method
/// section, up to `</h4>`.
pub open spec fn method_signature_of(sec: Seq<char>) -> Option<Seq<char>> {
    match find(sec, "class=\"code-header"@) {
        None => None,
        Some(st) => {
            let rest = sec.skip(st);
            match find(rest, seq!['>']) {
                None => None,
                Some(g) => {
                    let content = rest.skip(g + 1);
                    match find(content, "</h4>"@) {
                        None => None,
                        Some(e) => Some(clean_sig(content.take(e))),
                    }
                },
            }
        },
    }
}

fn extract_method_signature(section_html: &[char]) -> (r: Option<Vec<char>>)
    ensures
        match r {
            Some(v) => method_signature_of(section_html@) == Some(v@),
            None => method_signature_of(section_html@) is None,
        },
{
    let start = find_str(section_html, "class=\"code-header")?;
    let rest = tail(section_html, start);
    let content_start = find_char(rest, '>')?;
    let content = tail(rest, content_start + 1);
    let content_end = find_str(content, "</h4>")?;
    Some(clean_signature_chars(head(content, content_end)))
}

/// The Markdown of the first paragraph of a method's docblock (up to and
/// including `</p>`, else its first 500 bytes).
pub open spec fn method_doc_of(sec: Seq<char>) -> Option<Seq<char>> {
    match find(sec, "class=\"docblock"@) {
        None => None,
        Some(st) => {
            let rest = sec.skip(st);
            match find(rest, seq!['>']) {
                None => None,
                Some(g) => {
                    let content = rest.skip(g + 1);
                    let end = match find(content, "</p>"@) {
                        Some(p) => Some((p + "</p>"@.len()) as nat),
                        None => bounded_prefix(content, 500),
                    };
                    match end {
                        None => None,
                        Some(e) => Some(markdown_of(content.take(e as int))),
                    }
                },
            }
        },
    }
}

fn extract_method_docblock(section_html: &[char]) -> (r: Option<Vec<char>>)
    ensures
        match r {
            Some(v) => method_doc_of(section_html@) == Some(v@),
            None => method_doc_of(section_html@) is None,
        },
{
    let start = find_str(section_html, "class=\"docblock")?;
    let rest = tail(section_html, start);
    let content_start = find_char(rest, '>')?;
    let content = tail(rest, content_start + 1);
    let close = chars_of("</p>");
    let end = match find_in(content, close.as_slice()) {
        Some(p) => p + close.len(),
        None => bounded_prefix_len(content, 500)?,
    };
    Some(markdown_chars(head(content, end)))
}

/// The methods documented on an item page, in order: one for each
/// `<section id="method.`, named by its `id="method.` value.
pub open spec fn methods_of(h: Seq<char>) -> Seq<MethodView>
    decreases h.len(),
{
    let pat = "<section id=\"method."@;
    match find(h, pat) {
        None => Seq::empty(),
        Some(f) => {
            let rest = h.skip(f);
            match id_value(rest, "id=\"method."@, 0) {
                None => Seq::empty(),
                Some((name, _)) => {
                    proof {
                        lemma_find(h, pat);
                        reveal_strlit("<section id=\"method.");
                    }
                    seq![
                        MethodView {
                            name,
                            signature: or_empty(method_signature_of(rest)),
                            description: or_empty(method_doc_of(rest)),
                        },
                    ] + methods_of(rest.skip(pat.len() as int))
                },
            }
        },
    }
}

/// Each method is read from its own section: the `k`-th method is named,
/// signed and described by the `k`-th `<section id="method.` of the page,
/// taken from the start of that section.
pub proof fn lemma_method_from_own_section(h: Seq<char>, k: nat)
    requires
        k < methods_of(h).len(),
    ensures
        nth_find(h, "<section id=\"method."@, k) matches Some(q) && 0 <= q <= h.len() && ({
            let sec = h.skip(q);
            &&& methods_of(h)[k as int].signature == or_empty(method_signature_of(sec))
            &&& methods_of(h)[k as int].description == or_empty(method_doc_of(sec))
            &&& id_value(sec, "id=\"method."@, 0) matches Some((name, _)) && methods_of(
                h,
            )[k as int].name == name
        }),
    decreases k,
{
    let pat = "<section id=\"method."@;
    reveal_strlit("<section id=\"method.");
    lemma_find(h, pat);
    let f = find(h, pat)->Some_0;
    let rest = h.skip(f);
    if k > 0 {
        let h2 = h.skip(f + pat.len());
        assert(rest.skip(pat.len() as int) =~= h2);
        assert(methods_of(h)[k as int] == methods_of(h2)[k - 1]);
        lemma_method_from_own_section(h2, (k - 1) as nat);
        let q2 = nth_find(h2, pat, (k - 1) as nat)->Some_0;
        assert(h.skip(f + pat.len() + q2) =~= h2.skip(q2));
    }
}

/// No method section is left out: when the first `k + 1` sections of the
/// page each carry an `id="method.` value, at least `k + 1` methods are
/// read.
pub proof fn lemma_methods_cover_sections(h: Seq<char>, k: nat)
    requires
        forall|i: nat|
            i <= k ==> (#[trigger] nth_find(h, "<section id=\"method."@, i) matches Some(q) && 0
                <= q <= h.len() && id_value(h.skip(q), "id=\"method."@, 0) is Some),
    ensures
        k < methods_of(h).len(),
    decreases k,
{
    let pat = "<section id=\"method."@;
    reveal_strlit("<section id=\"method.");
    lemma_find(h, pat);
    assert(nth_find(h, pat, 0) is Some);
    let f = find(h, pat)->Some_0;
    let rest = h.skip(f);
    let h2 = h.skip(f + pat.len());
    assert(rest.skip(pat.len() as int) =~= h2);
    if k > 0 {
        assert forall|i: nat| i <= (k - 1) as nat implies (#[trigger] nth_find(h2, pat, i) matches Some(
            q,
        ) && 0 <= q <= h2.len() && id_value(h2.skip(q), "id=\"method."@, 0) is Some) by {
            assert(nth_find(h, pat, i + 1) is Some);
            lemma_nth_find(h2, pat, i);
            let q = nth_find(h2, pat, i)->Some_0;
            assert(h.skip(f + pat.len() + q) =~= h2.skip(q));
        }
        lemma_methods_cover_sections(h2, (k - 1) as nat);
    }
}

/// Extracts method documentation.
pub fn extract_methods(html: &[char]) -> (methods: Vec<MethodDoc>)
    ensures
        methods_view(methods@) == methods_of(html@),
{
    let pat = chars_of("<section id=\"method.");
    let id_pat = chars_of("id=\"method.");
    proof {
        reveal_strlit("<section id=\"method.");
    }
    let mut methods: Vec<MethodDoc> = Vec::new();
    let mut remaining: &[char] = html;
    loop
        invariant
            pat@ == "<section id=\"method."@,
            pat@.len() > 0,
            id_pat@ == "id=\"method."@,
            methods_view(methods@) + methods_of(remaining@) == methods_of(html@),
        decreases remaining@.len(),
    {
        let found = match find_in(remaining, pat.as_slice()) {
            Some(f) => f,
            None => {
                assert(methods_view(methods@) + Seq::<MethodView>::empty() =~= methods_view(
                    methods@,
                ));
                return methods;
            },
        };
        let rest = tail(remaining, found);
        let method_name = match next_id_value(rest, id_pat.as_slice(), 0) {
            Some((name, _)) => name,
            None => {
                assert(methods_view(methods@) + Seq::<MethodView>::empty() =~= methods_view(
                    methods@,
                ));
                return methods;
            },
        };
        let ghost rem = remaining@;
        let ghost prev = methods@;
        let signature = match extract_method_signature(rest) {
            Some(s) => string_of(s.as_slice()),
            None => String::new(),
        };
        let description = match extract_method_docblock(rest) {
            Some(d) => string_of(d.as_slice()),
            None => String::new(),
        };
        methods.push(MethodDoc { name: string_of(method_name), signature, description });
        assert(methods_view(methods@) =~= methods_view(prev) + seq![methods@.last()@]);
        remaining = tail(rest, pat.len());
        assert(methods_of(rem) == seq![methods@.last()@] + methods_of(remaining@));
        assert(methods_view(prev) + methods_of(rem) =~= methods_view(methods@) + methods_of(
            remaining@,
        ));
    }
}

// ---------------------------------------------------------------------------
// The item page
// ---------------------------------------------------------------------------

/// The description of an item: its docblock, or its meta description when
/// the docblock is empty.
pub open spec fn item_description_of(h: Seq<char>) -> Seq<char> {
    if item_docblock_of(h).len() == 0 {
        or_empty(meta_description_of(h))
    } else {
        item_docblock_of(h)
    }
}

/// The documentation that an item page of kind `kind` yields.
pub open spec fn item_view_of(h: Seq<char>, kind: ItemKind) -> ItemView {
    ItemView {
        kind,
        name: or_empty(item_name_of(h)),
        signature: signature_of(h),
        description: item_description_of(h),
        methods: methods_of(h),
        fields: section_names_of(h, "id=\"fields"@, "id=\"structfield."@),
        variants: section_names_of(h, "id=\"variants"@, "id=\"variant."@),
    }
}

/// Parses an item page from HTML content.
///
/// Missing or malformed sections degrade to empty results rather than
/// failing, because rustdoc output varies between toolchain versions.
pub fn parse_item(html: &str, kind: ItemKind) -> (doc: ItemDoc)
    ensures
        doc@ == item_view_of(html@, kind),
{
    let h = chars_of(html);
    let s = h.as_slice();
    let name = match item_name_chars(s) {
        Some(n) => string_of(n.as_slice()),
        None => String::new(),
    };
    let description = match meta_description_chars(s) {
        Some(d) => d,
        None => Vec::new(),
    };
    let signature = extract_signature(s);
    let docblock = extract_item_docblock(s);
    let full_description = if docblock.len() == 0 {
        description
    } else {
        docblock
    };
    proof {
        reveal_strlit("id=\"structfield.");
        reveal_strlit("id=\"variant.");
    }
    ItemDoc {
        kind,
        name,
        signature: string_of(signature.as_slice()),
        description: string_of(full_description.as_slice()),
        methods: extract_methods(s),
        fields: section_names_chars(s, "id=\"fields", "id=\"structfield."),
        variants: section_names_chars(s, "id=\"variants", "id=\"variant."),
    }
}

} // verus!
