//! Parser for rustdoc crate index pages.

use vstd::prelude::*;

use crate::markdown::{
    lacks, lemma_amp_prefix, lemma_lacks_concat, lemma_only_at, lemma_replace_all_absent, lemma_replace_only_at,
    lemma_replace_unmatched_first, lemma_strip_absent, lemma_strip_one_tag, markdown_chars, markdown_of, meta_description_chars, meta_description_of, strip_tags,
    strip_tags_chars,
};
use crate::text::{
    bounded_prefix, bounded_prefix_len, chars_of, find, find_char, find_str, head, is_trimmed,
    lemma_find, lemma_mismatch, lemma_trim, matches_at, replace_all, replace_str, string_of,
    tail, trim, trimmed,
};

verus! {

/// Represents a parsed crate index page.
#[derive(Debug, Clone)]
pub struct CrateIndex {
    /// The crate name.
    pub name: String,
    /// The crate version.
    pub version: String,
    /// The crate description from the meta tag.
    pub description: String,
    /// The full docblock content converted to Markdown.
    pub docblock: String,
    /// Modules in the crate.
    pub modules: Vec<ItemEntry>,
    /// Structs in the crate.
    pub structs: Vec<ItemEntry>,
    /// Enums in the crate.
    pub enums: Vec<ItemEntry>,
    /// Traits in the crate.
    pub traits: Vec<ItemEntry>,
    /// Functions in the crate.
    pub functions: Vec<ItemEntry>,
    /// Type aliases in the crate.
    pub types: Vec<ItemEntry>,
    /// Constants in the crate.
    pub constants: Vec<ItemEntry>,
    /// Macros in the crate.
    pub macros: Vec<ItemEntry>,
}

/// An entry in an item list (struct, enum, trait, etc.).
#[derive(Debug, Clone)]
pub struct ItemEntry {
    /// The item name.
    pub name: String,
    /// Brief description of the item.
    pub description: String,
    /// Relative path to the item's HTML file.
    pub path: String,
}

/// The text of an `ItemEntry`.
pub ghost struct EntryView {
    pub name: Seq<char>,
    pub description: Seq<char>,
    pub path: Seq<char>,
}

impl View for ItemEntry {
    type V = EntryView;

    open spec fn view(&self) -> EntryView {
        EntryView { name: self.name@, description: self.description@, path: self.path@ }
    }
}

/// The texts of a list of entries.
pub open spec fn entries_view(v: Seq<ItemEntry>) -> Seq<EntryView> {
    v.map_values(|e: ItemEntry| e@)
}

/// The kind of documentation item.
#[derive(Debug, Clone, Copy, PartialEq, Eq, Structural)]
pub enum ItemKind {
    /// A module.
    Module,
    /// A struct.
    Struct,
    /// An enum.
    Enum,
    /// A trait.
    Trait,
    /// A function.
    Function,
    /// A type alias.
    Type,
    /// A constant.
    Constant,
    /// A macro.
    Macro,
}

/// The section ID that rustdoc gives the list of items of a kind.
pub open spec fn section_id_of(kind: ItemKind) -> Seq<char> {
    match kind {
        ItemKind::Module => "modules"@,
        ItemKind::Struct => "structs"@,
        ItemKind::Enum => "enums"@,
        ItemKind::Trait => "traits"@,
        ItemKind::Function => "functions"@,
        ItemKind::Type => "types"@,
        ItemKind::Constant => "constants"@,
        ItemKind::Macro => "macros"@,
    }
}

/// The heading label of a kind.
pub open spec fn label_of(kind: ItemKind) -> Seq<char> {
    match kind {
        ItemKind::Module => "Module"@,
        ItemKind::Struct => "Struct"@,
        ItemKind::Enum => "Enum"@,
        ItemKind::Trait => "Trait"@,
        ItemKind::Function => "Function"@,
        ItemKind::Type => "Type"@,
        ItemKind::Constant => "Constant"@,
        ItemKind::Macro => "Macro"@,
    }
}

impl ItemKind {
    /// Returns the section ID used in rustdoc HTML.
    pub fn section_id(self) -> (id: &'static str)
        ensures
            id@ == section_id_of(self),
    {
        match self {
            ItemKind::Module => "modules",
            ItemKind::Struct => "structs",
            ItemKind::Enum => "enums",
            ItemKind::Trait => "traits",
            ItemKind::Function => "functions",
            ItemKind::Type => "types",
            ItemKind::Constant => "constants",
            ItemKind::Macro => "macros",
        }
    }

    /// Returns a human-readable label for detailed output headings.
    pub fn label(self) -> (l: &'static str)
        ensures
            l@ == label_of(self),
    {
        match self {
            ItemKind::Module => "Module",
            ItemKind::Struct => "Struct",
            ItemKind::Enum => "Enum",
            ItemKind::Trait => "Trait",
            ItemKind::Function => "Function",
            ItemKind::Type => "Type",
            ItemKind::Constant => "Constant",
            ItemKind::Macro => "Macro",
        }
    }
}

// ---------------------------------------------------------------------------
// The crate docblock
// ---------------------------------------------------------------------------

/// The end of a docblock's content: the first `</details>` (or
/// `</div></details>`), else the first 5000 bytes of the content.
pub open spec fn docblock_end(content: Seq<char>) -> Option<nat> {
    match find(content, "</details>"@) {
        Some(e) => Some(e as nat),
        None => match find(content, "</div></details>"@) {
            Some(e) => Some(e as nat),
            None => bounded_prefix(content, 5000),
        },
    }
}

/// The content of the top docblock (after its opening tag's `>`) of a page.
pub open spec fn top_docblock_content(h: Seq<char>) -> Option<Seq<char>> {
    match find(h, "class=\"toggle top-doc"@) {
        None => None,
        Some(start) => {
            let rest = h.skip(start);
            match find(rest, "class=\"docblock"@) {
                None => None,
                Some(ds) => {
                    let dr = rest.skip(ds);
                    match find(dr, seq!['>']) {
                        None => None,
                        Some(cs) => Some(dr.skip(cs + 1)),
                    }
                },
            }
        },
    }
}

/// The crate docblock of an index page, converted to Markdown.
pub open spec fn docblock_of(h: Seq<char>) -> Seq<char> {
    match top_docblock_content(h) {
        None => Seq::empty(),
        Some(content) => match docblock_end(content) {
            Some(e) => markdown_of(content.take(e as int)),
            None => markdown_of(Seq::empty()),
        },
    }
}

/// Finds the content of the top docblock of a page.
pub fn top_docblock<'a>(html: &'a [char]) -> (r: Option<&'a [char]>)
    ensures
        match r {
            Some(c) => top_docblock_content(html@) == Some(c@),
            None => top_docblock_content(html@) is None,
        },
{
    let start = find_str(html, "class=\"toggle top-doc")?;
    let rest = tail(html, start);
    let ds = find_str(rest, "class=\"docblock")?;
    let dr = tail(rest, ds);
    let cs = find_char(dr, '>')?;
    Some(tail(dr, cs + 1))
}

/// Extracts the main docblock content from the HTML.
pub fn extract_docblock_content(html: &[char]) -> (out: Vec<char>)
    ensures
        out@ == docblock_of(html@),
{
    let content = match top_docblock(html) {
        Some(c) => c,
        None => {
            return Vec::new();
        },
    };
    let end = match find_str(content, "</details>") {
        Some(e) => Some(e),
        None => match find_str(content, "</div></details>") {
            Some(e) => Some(e),
            None => bounded_prefix_len(content, 5000),
        },
    };
    match end {
        Some(e) => {
            markdown_chars(head(content, e))
        },
        None => markdown_chars(head(content, 0)),
    }
}

// ---------------------------------------------------------------------------
// Item tables
// ---------------------------------------------------------------------------

/// The item table of the section `section_id`: from the first
/// `class="item-table` after `id="section_id"` up to the next `<h2 id=`, else
/// the next `</section>`, else the end of the page.
pub open spec fn item_table_of(h: Seq<char>, section_id: Seq<char>) -> Option<Seq<char>> {
    let pat = "id=\""@ + section_id + "\""@;
    match find(h, pat) {
        None => None,
        Some(ss) => {
            let rest = h.skip(ss);
            match find(rest, "class=\"item-table"@) {
                None => None,
                Some(ts) => {
                    let tr = rest.skip(ts);
                    let te = match find(tr, "<h2 id="@) {
                        Some(e) => e,
                        None => match find(tr, "</section>"@) {
                            Some(e) => e,
                            None => tr.len() as int,
                        },
                    };
                    Some(tr.take(te))
                },
            }
        },
    }
}

/// Locates the item-table HTML for a given section, if present.
pub fn find_item_table(html: &[char], section_id: &str) -> (r: Option<Vec<char>>)
    ensures
        match r {
            Some(t) => item_table_of(html@, section_id@) == Some(t@),
            None => item_table_of(html@, section_id@) is None,
        },
{
    let mut pat = chars_of("id=\"");
    let sid = chars_of(section_id);
    crate::text::append_chars(&mut pat, sid.as_slice());
    let q = chars_of("\"");
    crate::text::append_chars(&mut pat, q.as_slice());
    let section_start = crate::text::find_in(html, pat.as_slice())?;
    let rest = tail(html, section_start);
    let table_start = find_str(rest, "class=\"item-table")?;
    let table_rest = tail(rest, table_start);
    let table_end = match find_str(table_rest, "<h2 id=") {
        Some(e) => e,
        None => match find_str(table_rest, "</section>") {
            Some(e) => e,
            None => table_rest.len(),
        },
    };
    Some(crate::text::to_vec(head(table_rest, table_end)))
}

/// `s` with tags stripped, the entities `&lt;`, `&gt;`, `&amp;`, `&quot;`
/// and `&#39;` decoded, and surrounding whitespace trimmed.
pub open spec fn plain_text(s: Seq<char>) -> Seq<char> {
    let s = strip_tags(s);
    let s = replace_all(s, "&lt;"@, "<"@);
    let s = replace_all(s, "&gt;"@, ">"@);
    let s = replace_all(s, "&amp;"@, "&"@);
    let s = replace_all(s, "&quot;"@, "\""@);
    let s = replace_all(s, "&#39;"@, "'"@);
    trim(s)
}

/// Plain text has no whitespace at either end.
pub proof fn lemma_plain_text_trimmed(s: Seq<char>)
    ensures
        is_trimmed(plain_text(s)),
{
    let t = strip_tags(s);
    let t = replace_all(t, "&lt;"@, "<"@);
    let t = replace_all(t, "&gt;"@, ">"@);
    let t = replace_all(t, "&amp;"@, "&"@);
    let t = replace_all(t, "&quot;"@, "\""@);
    let t = replace_all(t, "&#39;"@, "'"@);
    lemma_trim(t);
}

/// Each entity that plain text decodes, between texts without tags or
/// `&`, reads as its character: `&lt;` as `<`, `&gt;` as `>`, `&quot;` as
/// `"`, `&#39;` as `'`, and `&amp;` as `&`, read again only when `quot;` or
/// `#39;` follows it; nothing else changes but the trimming.
pub proof fn lemma_plain_entity(a: Seq<char>, b: Seq<char>)
    requires
        lacks(a, '<') && lacks(a, '>') && lacks(a, '&'),
        lacks(b, '<') && lacks(b, '>') && lacks(b, '&'),
    ensures
        plain_text(a + "&lt;"@ + b) == trim(a + "<"@ + b),
        plain_text(a + "&gt;"@ + b) == trim(a + ">"@ + b),
        (!matches_at(b, "quot;"@, 0) && !matches_at(b, "#39;"@, 0)) ==> plain_text(a + "&amp;"@ + b) == trim(a + "&"@ + b),
        plain_text(a + "&quot;"@ + b) == trim(a + "\""@ + b),
        plain_text(a + "&#39;"@ + b) == trim(a + "'"@ + b),
{
    lemma_plain_entity_one(a, b, 0);
    lemma_plain_entity_one(a, b, 1);
    if !matches_at(b, "quot;"@, 0) && !matches_at(b, "#39;"@, 0) {
        lemma_plain_entity_one(a, b, 2);
    }
    lemma_plain_entity_one(a, b, 3);
    lemma_plain_entity_one(a, b, 4);
}

proof fn lemma_plain_entity_one(a: Seq<char>, b: Seq<char>, n: int)
    requires
        lacks(a, '<') && lacks(a, '>') && lacks(a, '&'),
        lacks(b, '<') && lacks(b, '>') && lacks(b, '&'),
        0 <= n < 5,
        n == 2 ==> (!matches_at(b, "quot;"@, 0) && !matches_at(b, "#39;"@, 0)),
    ensures
        n == 0 ==> plain_text(a + "&lt;"@ + b) == trim(a + "<"@ + b),
        n == 1 ==> plain_text(a + "&gt;"@ + b) == trim(a + ">"@ + b),
        n == 2 ==> plain_text(a + "&amp;"@ + b) == trim(a + "&"@ + b),
        n == 3 ==> plain_text(a + "&quot;"@ + b) == trim(a + "\""@ + b),
        n == 4 ==> plain_text(a + "&#39;"@ + b) == trim(a + "'"@ + b),
{
    reveal_strlit("\"");
    reveal_strlit("#39;");
    reveal_strlit("&");
    reveal_strlit("&#39;");
    reveal_strlit("&amp;");
    reveal_strlit("&gt;");
    reveal_strlit("&lt;");
    reveal_strlit("&quot;");
    reveal_strlit("'");
    reveal_strlit("<");
    reveal_strlit(">");
    reveal_strlit("amp;");
    reveal_strlit("gt;");
    reveal_strlit("lt;");
    reveal_strlit("quot;");
    let e = a.len() as int;
    if n == 0 {
        let s = a + "&lt;"@ + b;
        lemma_only_at(a, "&lt;"@, b, '&');
        lemma_lacks_concat(a, "&lt;"@, '<');
        lemma_lacks_concat(a + "&lt;"@, b, '<');
        lemma_lacks_concat(a, "&lt;"@, '>');
        lemma_lacks_concat(a + "&lt;"@, b, '>');
        lemma_strip_absent(s);
        lemma_replace_only_at(a, "&lt;"@, b, "<"@);
        let s2 = a + "<"@ + b;
        lemma_lacks_concat(a, "<"@, '&');
        lemma_lacks_concat(a + "<"@, b, '&');
        lemma_replace_all_absent(s2, "&gt;"@, ">"@);
        lemma_lacks_concat(a, "<"@, '&');
        lemma_lacks_concat(a + "<"@, b, '&');
        lemma_replace_all_absent(s2, "&amp;"@, "&"@);
        lemma_lacks_concat(a, "<"@, '&');
        lemma_lacks_concat(a + "<"@, b, '&');
        lemma_replace_all_absent(s2, "&quot;"@, "\""@);
        lemma_lacks_concat(a, "<"@, '&');
        lemma_lacks_concat(a + "<"@, b, '&');
        lemma_replace_all_absent(s2, "&#39;"@, "'"@);
    }
    if n == 1 {
        let s = a + "&gt;"@ + b;
        lemma_only_at(a, "&gt;"@, b, '&');
        lemma_lacks_concat(a, "&gt;"@, '<');
        lemma_lacks_concat(a + "&gt;"@, b, '<');
        lemma_lacks_concat(a, "&gt;"@, '>');
        lemma_lacks_concat(a + "&gt;"@, b, '>');
        lemma_strip_absent(s);
        assert(s[e + 1] == "&gt;"@[1]);
        lemma_mismatch(s, "&lt;"@, e, 1);
        lemma_replace_unmatched_first(s, "&lt;"@, "<"@, e);
        lemma_replace_only_at(a, "&gt;"@, b, ">"@);
        let s2 = a + ">"@ + b;
        lemma_lacks_concat(a, ">"@, '&');
        lemma_lacks_concat(a + ">"@, b, '&');
        lemma_replace_all_absent(s2, "&amp;"@, "&"@);
        lemma_lacks_concat(a, ">"@, '&');
        lemma_lacks_concat(a + ">"@, b, '&');
        lemma_replace_all_absent(s2, "&quot;"@, "\""@);
        lemma_lacks_concat(a, ">"@, '&');
        lemma_lacks_concat(a + ">"@, b, '&');
        lemma_replace_all_absent(s2, "&#39;"@, "'"@);
    }
    if n == 2 {
        let s = a + "&amp;"@ + b;
        lemma_only_at(a, "&amp;"@, b, '&');
        lemma_lacks_concat(a, "&amp;"@, '<');
        lemma_lacks_concat(a + "&amp;"@, b, '<');
        lemma_lacks_concat(a, "&amp;"@, '>');
        lemma_lacks_concat(a + "&amp;"@, b, '>');
        lemma_strip_absent(s);
        assert(s[e + 1] == "&amp;"@[1]);
        lemma_mismatch(s, "&lt;"@, e, 1);
        lemma_replace_unmatched_first(s, "&lt;"@, "<"@, e);
        assert(s[e + 1] == "&amp;"@[1]);
        lemma_mismatch(s, "&gt;"@, e, 1);
        lemma_replace_unmatched_first(s, "&gt;"@, ">"@, e);
        lemma_replace_only_at(a, "&amp;"@, b, "&"@);
        let s2 = a + "&"@ + b;
        if matches_at(s2, "&quot;"@, e) {
            lemma_amp_prefix(a, b, "&quot;"@);
            assert("&quot;"@.skip(1) =~= "quot;"@);
        }
        lemma_only_at(a, "&"@, b, '&');
        lemma_replace_unmatched_first(s2, "&quot;"@, "\""@, e);
        if matches_at(s2, "&#39;"@, e) {
            lemma_amp_prefix(a, b, "&#39;"@);
            assert("&#39;"@.skip(1) =~= "#39;"@);
        }
        lemma_only_at(a, "&"@, b, '&');
        lemma_replace_unmatched_first(s2, "&#39;"@, "'"@, e);
    }
    if n == 3 {
        let s = a + "&quot;"@ + b;
        lemma_only_at(a, "&quot;"@, b, '&');
        lemma_lacks_concat(a, "&quot;"@, '<');
        lemma_lacks_concat(a + "&quot;"@, b, '<');
        lemma_lacks_concat(a, "&quot;"@, '>');
        lemma_lacks_concat(a + "&quot;"@, b, '>');
        lemma_strip_absent(s);
        assert(s[e + 1] == "&quot;"@[1]);
        lemma_mismatch(s, "&lt;"@, e, 1);
        lemma_replace_unmatched_first(s, "&lt;"@, "<"@, e);
        assert(s[e + 1] == "&quot;"@[1]);
        lemma_mismatch(s, "&gt;"@, e, 1);
        lemma_replace_unmatched_first(s, "&gt;"@, ">"@, e);
        assert(s[e + 1] == "&quot;"@[1]);
        lemma_mismatch(s, "&amp;"@, e, 1);
        lemma_replace_unmatched_first(s, "&amp;"@, "&"@, e);
        lemma_replace_only_at(a, "&quot;"@, b, "\""@);
        let s2 = a + "\""@ + b;
        lemma_lacks_concat(a, "\""@, '&');
        lemma_lacks_concat(a + "\""@, b, '&');
        lemma_replace_all_absent(s2, "&#39;"@, "'"@);
    }
    if n == 4 {
        let s = a + "&#39;"@ + b;
        lemma_only_at(a, "&#39;"@, b, '&');
        lemma_lacks_concat(a, "&#39;"@, '<');
        lemma_lacks_concat(a + "&#39;"@, b, '<');
        lemma_lacks_concat(a, "&#39;"@, '>');
        lemma_lacks_concat(a + "&#39;"@, b, '>');
        lemma_strip_absent(s);
        assert(s[e + 1] == "&#39;"@[1]);
        lemma_mismatch(s, "&lt;"@, e, 1);
        lemma_replace_unmatched_first(s, "&lt;"@, "<"@, e);
        assert(s[e + 1] == "&#39;"@[1]);
        lemma_mismatch(s, "&gt;"@, e, 1);
        lemma_replace_unmatched_first(s, "&gt;"@, ">"@, e);
        assert(s[e + 1] == "&#39;"@[1]);
        lemma_mismatch(s, "&amp;"@, e, 1);
        lemma_replace_unmatched_first(s, "&amp;"@, "&"@, e);
        assert(s[e + 1] == "&#39;"@[1]);
        lemma_mismatch(s, "&quot;"@, e, 1);
        lemma_replace_unmatched_first(s, "&quot;"@, "\""@, e);
        lemma_replace_only_at(a, "&#39;"@, b, "'"@);
        let s2 = a + "'"@ + b;
    }
}


/// Plain text drops every tag and keeps the text around it; text without
/// tags or entities is only trimmed.
pub proof fn lemma_plain_text_tags(a: Seq<char>, x: Seq<char>, b: Seq<char>)
    requires
        lacks(a, '<') && lacks(a, '>') && lacks(a, '&'),
        lacks(x, '<') && lacks(x, '>'),
        lacks(b, '<') && lacks(b, '>') && lacks(b, '&'),
    ensures
        plain_text(a + "<"@ + x + ">"@ + b) == trim(a + b),
        plain_text(a) == trim(a),
{
    reveal_strlit("<");
    reveal_strlit(">");
    reveal_strlit("&lt;");
    reveal_strlit("&gt;");
    reveal_strlit("&amp;");
    reveal_strlit("&quot;");
    reveal_strlit("&#39;");
    assert("<"@ =~= seq!['<'] && ">"@ =~= seq!['>']);
    lemma_strip_one_tag(a, x, b);
    lemma_lacks_concat(a, b, '&');
    let t = a + b;
    lemma_replace_all_absent(t, "&lt;"@, "<"@);
    lemma_replace_all_absent(t, "&gt;"@, ">"@);
    lemma_replace_all_absent(t, "&amp;"@, "&"@);
    lemma_replace_all_absent(t, "&quot;"@, "\""@);
    lemma_replace_all_absent(t, "&#39;"@, "'"@);
    lemma_strip_absent(a);
    lemma_replace_all_absent(a, "&lt;"@, "<"@);
    lemma_replace_all_absent(a, "&gt;"@, ">"@);
    lemma_replace_all_absent(a, "&amp;"@, "&"@);
    lemma_replace_all_absent(a, "&quot;"@, "\""@);
    lemma_replace_all_absent(a, "&#39;"@, "'"@);
}

/// Computes `plain_text(s@)`.
pub fn plain_text_chars(s: &[char]) -> (out: Vec<char>)
    ensures
        out@ == plain_text(s@),
{
    let a = strip_tags_chars(s);
    let a = replace_str(a.as_slice(), "&lt;", "<");
    let a = replace_str(a.as_slice(), "&gt;", ">");
    let a = replace_str(a.as_slice(), "&amp;", "&");
    let a = replace_str(a.as_slice(), "&quot;", "\"");
    let a = replace_str(a.as_slice(), "&#39;", "'");
    trimmed(a.as_slice())
}

/// Strips HTML tags, decodes the common entities and trims the result.
pub fn strip_html_tags(html: &str) -> (out: String)
    ensures
        out@ == plain_text(html@),
{
    let s = chars_of(html);
    let r = plain_text_chars(s.as_slice());
    string_of(r.as_slice())
}

/// The description of an entry: the plain text of the first `<dd>...</dd>`
/// after its term, or empty.
pub open spec fn description_of(after: Seq<char>) -> Seq<char> {
    match find(after, "<dd>"@) {
        None => Seq::empty(),
        Some(f) => {
            let content = after.skip(f + "<dd>"@.len());
            match find(content, "</dd>"@) {
                Some(e) => plain_text(content.take(e)),
                None => Seq::empty(),
            }
        },
    }
}

/// Extracts the `<dd>` description that follows a definition term.
pub fn extract_description(after_term: &[char]) -> (out: Vec<char>)
    ensures
        out@ == description_of(after_term@),
{
    let open = chars_of("<dd>");
    let found = match crate::text::find_in(after_term, open.as_slice()) {
        Some(f) => f,
        None => {
            return Vec::new();
        },
    };
    let content = tail(after_term, found + open.len());
    match find_str(content, "</dd>") {
        Some(end) => plain_text_chars(head(content, end)),
        None => Vec::new(),
    }
}

/// An anchor's text with `<wbr>` removed and `&lt;`, `&gt;`, `&amp;`
/// decoded.
pub open spec fn anchor_name(name: Seq<char>) -> Seq<char> {
    let s = replace_all(name, "<wbr>"@, ""@);
    let s = replace_all(s, "&lt;"@, "<"@);
    let s = replace_all(s, "&gt;"@, ">"@);
    replace_all(s, "&amp;"@, "&"@)
}

/// The name and target of the link in a definition term: the target is the
/// value of the first `href="..."`; the name is the text of the first
/// anchor, from after its opening tag's `>` up to the next `</a>`, with
/// `<wbr>` removed and `&lt;`, `&gt;`, `&amp;` decoded.
pub open spec fn link_of_dt(dt: Seq<char>) -> Option<(Seq<char>, Seq<char>)> {
    match find(dt, "href=\""@) {
        None => None,
        Some(hs) => {
            let hr = dt.skip(hs + "href=\""@.len());
            match find(hr, seq!['"']) {
                None => None,
                Some(he) => match anchor_text(dt) {
                    None => None,
                    Some(text) => Some((anchor_name(text), hr.take(he))),
                },
            }
        },
    }
}

/// The text of the first anchor `<a ...>text</a>` in `dt`.
pub open spec fn anchor_text(dt: Seq<char>) -> Option<Seq<char>> {
    match find(dt, "<a "@) {
        None => None,
        Some(a) => {
            let at = dt.skip(a);
            match find(at, seq!['>']) {
                None => None,
                Some(g) => {
                    let text = at.skip(g + 1);
                    match find(text, "</a>"@) {
                        None => None,
                        Some(e) => Some(text.take(e)),
                    }
                },
            }
        },
    }
}

/// Computes `link_of_dt(dt@)`.
pub fn link_from_dt_chars(dt: &[char]) -> (r: Option<(Vec<char>, Vec<char>)>)
    ensures
        match r {
            Some((n, h)) => link_of_dt(dt@) == Some((n@, h@)),
            None => link_of_dt(dt@) is None,
        },
{
    let hpat = chars_of("href=\"");
    let href_start = crate::text::find_in(dt, hpat.as_slice())?;
    let href_rest = tail(dt, href_start + hpat.len());
    let href_end = find_char(href_rest, '"')?;
    let href = head(href_rest, href_end);
    let anchor_start = find_str(dt, "<a ")?;
    let anchor = tail(dt, anchor_start);
    let text_start = find_char(anchor, '>')?;
    let text = tail(anchor, text_start + 1);
    let text_end = find_str(text, "</a>")?;
    let name = head(text, text_end);
    let a = replace_str(name, "<wbr>", "");
    let a = replace_str(a.as_slice(), "&lt;", "<");
    let a = replace_str(a.as_slice(), "&gt;", ">");
    let a = replace_str(a.as_slice(), "&amp;", "&");
    Some((a, crate::text::to_vec(href)))
}

/// Extracts the link name and target from a definition term.
pub fn extract_link_from_dt(dt_html: &str) -> (r: Option<(String, String)>)
    ensures
        match r {
            Some((n, h)) => link_of_dt(dt_html@) == Some((n@, h@)),
            None => link_of_dt(dt_html@) is None,
        },
{
    let s = chars_of(dt_html);
    match link_from_dt_chars(s.as_slice()) {
        Some((n, h)) => Some((string_of(n.as_slice()), string_of(h.as_slice()))),
        None => None,
    }
}

/// The entries of an item table, in order: for each `<dt ...>...</dt>` whose
/// term holds a link, its name, target and the description that follows.
/// A `<dt` without a closing `</dt>` ends the list.
pub open spec fn table_entries(t: Seq<char>) -> Seq<EntryView>
    decreases t.len(),
{
    match find(t, "<dt"@) {
        None => Seq::empty(),
        Some(f) => {
            let rest = t.skip(f);
            match find(rest, "</dt>"@) {
                None => Seq::empty(),
                Some(te) => {
                    proof {
                        lemma_find(t, "<dt"@);
                        lemma_find(rest, "</dt>"@);
                        reveal_strlit("</dt>");
                    }
                    let after = rest.skip(te + "</dt>"@.len());
                    match link_of_dt(rest.take(te)) {
                        Some((name, href)) => seq![
                            EntryView { name, description: description_of(after), path: href },
                        ] + table_entries(after),
                        None => table_entries(after),
                    }
                },
            }
        },
    }
}

/// The entries of kind `kind` listed on an index page.
pub open spec fn items_of(h: Seq<char>, kind: ItemKind) -> Seq<EntryView> {
    match item_table_of(h, section_id_of(kind)) {
        None => Seq::empty(),
        Some(t) => table_entries(t),
    }
}

/// Extracts items of a given kind from the HTML using string-based parsing.
pub fn extract_items(html: &[char], kind: ItemKind) -> (items: Vec<ItemEntry>)
    ensures
        entries_view(items@) == items_of(html@, kind),
{
    let table_html = match find_item_table(html, kind.section_id()) {
        Some(t) => t,
        None => {
            return Vec::new();
        },
    };
    let dt_open = chars_of("<dt");
    let dt_close = chars_of("</dt>");
    let mut items: Vec<ItemEntry> = Vec::new();
    let mut remaining: &[char] = table_html.as_slice();
    loop
        invariant
            dt_open@ == "<dt"@,
            dt_close@ == "</dt>"@,
            items_of(html@, kind) == table_entries(table_html@),
            entries_view(items@) + table_entries(remaining@) == table_entries(table_html@),
        decreases remaining@.len(),
    {
        let found = match crate::text::find_in(remaining, dt_open.as_slice()) {
            Some(f) => f,
            None => {
                assert(entries_view(items@) + Seq::<EntryView>::empty() =~= entries_view(items@));
                return items;
            },
        };
        let rest = tail(remaining, found);
        let term_end = match crate::text::find_in(rest, dt_close.as_slice()) {
            Some(e) => e,
            None => {
                assert(entries_view(items@) + Seq::<EntryView>::empty() =~= entries_view(items@));
                return items;
            },
        };
        proof {
            reveal_strlit("</dt>");
        }
        let ghost rem = remaining@;
        let term = head(rest, term_end);
        let after_term = tail(rest, term_end + dt_close.len());
        let ghost prev = items@;
        if let Some((name, href)) = link_from_dt_chars(term) {
            let description = extract_description(after_term);
            items.push(
                ItemEntry {
                    name: string_of(name.as_slice()),
                    description: string_of(description.as_slice()),
                    path: string_of(href.as_slice()),
                },
            );
            assert(entries_view(items@) =~= entries_view(prev) + seq![items@.last()@]);
            assert(table_entries(rem) == seq![items@.last()@] + table_entries(after_term@));
            assert(entries_view(prev) + table_entries(rem) =~= entries_view(items@)
                + table_entries(after_term@));
        } else {
            assert(table_entries(rem) == table_entries(after_term@));
        }
        remaining = after_term;
    }
}

// ---------------------------------------------------------------------------
// The index page
// ---------------------------------------------------------------------------

/// The meta description of a page, or empty.
pub open spec fn description_or_empty(h: Seq<char>) -> Seq<char> {
    match meta_description_of(h) {
        Some(d) => d,
        None => Seq::empty(),
    }
}

/// Parses a crate index HTML file.
///
/// Malformed or missing sections degrade to empty results rather than
/// failing, because rustdoc output varies between toolchain versions.
pub fn parse_index(html: &str, crate_name: &str, version: &str) -> (idx: CrateIndex)
    ensures
        idx.name@ == crate_name@,
        idx.version@ == version@,
        idx.description@ == description_or_empty(html@),
        idx.docblock@ == docblock_of(html@),
        entries_view(idx.modules@) == items_of(html@, ItemKind::Module),
        entries_view(idx.structs@) == items_of(html@, ItemKind::Struct),
        entries_view(idx.enums@) == items_of(html@, ItemKind::Enum),
        entries_view(idx.traits@) == items_of(html@, ItemKind::Trait),
        entries_view(idx.functions@) == items_of(html@, ItemKind::Function),
        entries_view(idx.types@) == items_of(html@, ItemKind::Type),
        entries_view(idx.constants@) == items_of(html@, ItemKind::Constant),
        entries_view(idx.macros@) == items_of(html@, ItemKind::Macro),
{
    let h = chars_of(html);
    let s = h.as_slice();
    let description = match meta_description_chars(s) {
        Some(d) => string_of(d.as_slice()),
        None => String::new(),
    };
    let docblock = extract_docblock_content(s);
    CrateIndex {
        name: crate_name.to_owned(),
        version: version.to_owned(),
        description,
        docblock: string_of(docblock.as_slice()),
        modules: extract_items(s, ItemKind::Module),
        structs: extract_items(s, ItemKind::Struct),
        enums: extract_items(s, ItemKind::Enum),
        traits: extract_items(s, ItemKind::Trait),
        functions: extract_items(s, ItemKind::Function),
        types: extract_items(s, ItemKind::Type),
        constants: extract_items(s, ItemKind::Constant),
        macros: extract_items(s, ItemKind::Macro),
    }
}

} // verus!
