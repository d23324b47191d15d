//! Parsed documentation of a whole crate and its Markdown summary.

use vstd::prelude::*;

use crate::index::{entries_view, label_of, CrateIndex, EntryView, ItemEntry, ItemKind};
use crate::item::{
    item_view_of, methods_view, parse_item, strings_view, ItemDoc, ItemView, MethodDoc,
    MethodView,
};
use crate::text::{chars_of, find, find_char, head, string_of};

verus! {

/// Complete parsed documentation for a crate.
#[derive(Debug, Clone)]
pub struct CrateDocs {
    /// The crate index (overview, module list, etc.).
    pub index: CrateIndex,
    /// Parsed documentation for key types.
    pub items: Vec<ItemDoc>,
}

/// The smaller of two numbers.
pub open spec fn min_nat(a: nat, b: nat) -> nat {
    if a < b {
        a
    } else {
        b
    }
}

// ---------------------------------------------------------------------------
// Header and overview
// ---------------------------------------------------------------------------

/// `# name vversion` followed by a blank line.
pub open spec fn header_text(name: Seq<char>, version: Seq<char>) -> Seq<char> {
    "# "@ + name + " v"@ + version + "\n\n"@
}

/// Appends the `# name vversion` header.
fn push_header(output: &mut String, name: &str, version: &str)
    ensures
        final(output)@ == old(output)@ + header_text(name@, version@),
{
    output.append("# ");
    output.append(name);
    output.append(" v");
    output.append(version);
    output.append("\n\n");
}

/// The overview section, headed by the marker `h` (such as `## `), when
/// there is a description, followed by the docblock when it is non-empty
/// and differs from the description.
pub open spec fn overview_text(h: Seq<char>, description: Seq<char>, docblock: Seq<char>) -> Seq<char> {
    (if description.len() > 0 {
        h + "Overview\n\n"@ + description + "\n\n"@
    } else {
        Seq::empty()
    }) + (if docblock.len() > 0 && docblock != description {
        docblock + "\n\n"@
    } else {
        Seq::empty()
    })
}

/// The docblock follows the overview exactly when it is non-empty and not
/// the description itself; the description, when there is one, is shown
/// under an `Overview` heading.
pub proof fn lemma_overview_docblock(h: Seq<char>, d: Seq<char>, b: Seq<char>)
    ensures
        b.len() > 0 && b != d ==> overview_text(h, d, b) == overview_text(h, d, Seq::empty()) + b
            + "\n\n"@,
        b.len() == 0 || b == d ==> overview_text(h, d, b) == overview_text(h, d, Seq::empty()),
        d.len() > 0 ==> overview_text(h, d, Seq::empty()) == h + "Overview\n\n"@ + d + "\n\n"@,
        d.len() == 0 ==> overview_text(h, d, Seq::empty()).len() == 0,
{
    assert(Seq::<char>::empty().len() == 0);
    if d.len() > 0 {
        assert(Seq::<char>::empty() != d);
    }
}

/// Appends the crate overview and docblock sections.
fn push_overview(output: &mut String, h: &str, index: &CrateIndex)
    ensures
        final(output)@ == old(output)@ + overview_text(h@, index.description@, index.docblock@),
{
    let ghost start = output@;
    if !index.description.as_str().is_empty() {
        output.append(h);
        output.append("Overview\n\n");
        output.append(index.description.as_str());
        output.append("\n\n");
    }
    if !index.docblock.as_str().is_empty() && !(index.docblock == index.description) {
        output.append(index.docblock.as_str());
        output.append("\n\n");
    }
    assert(output@ =~= start + overview_text(h@, index.description@, index.docblock@));
}

// ---------------------------------------------------------------------------
// Entry sections
// ---------------------------------------------------------------------------

/// `- **name**: description` (the colon part only for a description).
pub open spec fn entry_line(e: EntryView) -> Seq<char> {
    "- **"@ + e.name + "**"@ + (if e.description.len() > 0 {
        ": "@ + e.description
    } else {
        Seq::empty()
    }) + "\n"@
}

/// One line per entry.
pub open spec fn entry_lines(es: Seq<EntryView>) -> Seq<char>
    decreases es.len(),
{
    if es.len() == 0 {
        Seq::empty()
    } else {
        entry_lines(es.drop_last()) + entry_line(es.last())
    }
}

/// A section headed by the marker `h` and `heading`, listing the first
/// `limit` entries; nothing when there are no entries.
pub open spec fn entry_section(h: Seq<char>, heading: Seq<char>, es: Seq<EntryView>, limit: nat) -> Seq<char> {
    if es.len() == 0 {
        Seq::empty()
    } else {
        h + heading + "\n\n"@ + entry_lines(es.take(min_nat(limit, es.len()) as int))
            + "\n"@
    }
}

/// Appends a section headed by `h` and `heading` listing up to `limit`
/// entries.
fn push_entry_section(output: &mut String, h: &str, heading: &str, entries: &Vec<ItemEntry>, limit: usize)
    ensures
        final(output)@ == old(output)@ + entry_section(h@, heading@, entries_view(entries@), limit as nat),
{
    if entries.len() == 0 {
        return;
    }
    let ghost start = output@;
    let ghost es = entries_view(entries@);
    output.append(h);
    output.append(heading);
    output.append("\n\n");
    let ghost lines_start = output@;
    let n = if limit < entries.len() {
        limit
    } else {
        entries.len()
    };
    let mut i: usize = 0;
    while i < n
        invariant
            n <= entries@.len(),
            i <= n,
            es == entries_view(entries@),
            output@ == lines_start + entry_lines(es.take(i as int)),
        decreases n - i,
    {
        let entry = &entries[i];
        let ghost before = output@;
        output.append("- **");
        output.append(entry.name.as_str());
        output.append("**");
        if !entry.description.as_str().is_empty() {
            output.append(": ");
            output.append(entry.description.as_str());
        }
        output.append("\n");
        assert(es.take(i + 1).drop_last() == es.take(i as int));
        assert(es.take(i + 1).last() == entry@);
        assert(output@ == before + entry_line(entry@));
        i = i + 1;
    }
    output.append("\n");
    assert(output@ =~= start + entry_section(h@, heading@, es, limit as nat));
}

// ---------------------------------------------------------------------------
// Item details
// ---------------------------------------------------------------------------

/// The names joined with `sep` between consecutive names.
pub open spec fn join_with(names: Seq<Seq<char>>, sep: Seq<char>) -> Seq<char>
    decreases names.len(),
{
    if names.len() == 0 {
        Seq::empty()
    } else if names.len() == 1 {
        names[0]
    } else {
        join_with(names.drop_last(), sep) + sep + names.last()
    }
}

/// `label` followed by the comma-separated names; nothing without names.
pub open spec fn name_list_text(label: Seq<char>, names: Seq<Seq<char>>) -> Seq<char> {
    if names.len() == 0 {
        Seq::empty()
    } else {
        label + join_with(names, ", "@) + "\n\n"@
    }
}

/// Appends a labelled, comma-separated list of names, if any.
fn push_name_list(output: &mut String, label: &str, names: &Vec<String>)
    ensures
        final(output)@ == old(output)@ + name_list_text(label@, strings_view(names@)),
{
    if names.len() == 0 {
        return;
    }
    let ghost start = output@;
    let ghost ns = strings_view(names@);
    output.append(label);
    let ghost list_start = output@;
    let mut i: usize = 0;
    while i < names.len()
        invariant
            i <= names@.len(),
            ns == strings_view(names@),
            output@ == list_start + join_with(ns.take(i as int), ", "@),
        decreases names@.len() - i,
    {
        assert(ns.take(i + 1).drop_last() == ns.take(i as int));
        assert(ns.take(i + 1).last() == names@[i as int]@);
        if i > 0 {
            output.append(", ");
        } else {
            assert(ns.take(0) == Seq::<Seq<char>>::empty());
        }
        output.append(names[i].as_str());
        i = i + 1;
    }
    assert(ns.take(names@.len() as int) == ns);
    output.append("\n\n");
}

/// The first line of `d`: up to the first newline, without a carriage
/// return just before it.
pub open spec fn first_line(d: Seq<char>) -> Seq<char> {
    match find(d, seq!['\n']) {
        None => d,
        Some(i) => {
            let l = d.take(i);
            if l.len() > 0 && l.last() == '\r' {
                l.drop_last()
            } else {
                l
            }
        },
    }
}

/// Computes `first_line(d@)`.
fn first_line_of(d: &str) -> (l: String)
    ensures
        l@ == first_line(d@),
{
    let v = chars_of(d);
    match find_char(v.as_slice(), '\n') {
        None => string_of(v.as_slice()),
        Some(i) => {
            if i > 0 && v[i - 1] == '\r' {
                let r = head(v.as_slice(), i - 1);
                assert(v@.take(i as int).drop_last() == v@.take(i - 1));
                string_of(r)
            } else {
                string_of(head(v.as_slice(), i))
            }
        },
    }
}

/// `` - `signature` `` (the name when there is no signature), then the
/// first line of the description.
pub open spec fn method_line(m: MethodView) -> Seq<char> {
    "- `"@ + (if m.signature.len() == 0 {
        m.name
    } else {
        m.signature
    }) + "`"@ + (if m.description.len() > 0 {
        ": "@ + first_line(m.description)
    } else {
        Seq::empty()
    }) + "\n"@
}

/// One line per method.
pub open spec fn method_lines(ms: Seq<MethodView>) -> Seq<char>
    decreases ms.len(),
{
    if ms.len() == 0 {
        Seq::empty()
    } else {
        method_lines(ms.drop_last()) + method_line(ms.last())
    }
}

/// A bullet list of the first five methods; nothing without methods.
pub open spec fn method_summary_text(ms: Seq<MethodView>) -> Seq<char> {
    if ms.len() == 0 {
        Seq::empty()
    } else {
        "**Key methods:**\n"@ + method_lines(ms.take(min_nat(5, ms.len()) as int)) + "\n"@
    }
}

/// Appends a bullet list summarizing up to five methods.
fn push_method_summary(output: &mut String, methods: &Vec<MethodDoc>)
    ensures
        final(output)@ == old(output)@ + method_summary_text(methods_view(methods@)),
{
    if methods.len() == 0 {
        return;
    }
    let ghost start = output@;
    let ghost ms = methods_view(methods@);
    output.append("**Key methods:**\n");
    let ghost lines_start = output@;
    let n = if 5 < methods.len() {
        5
    } else {
        methods.len()
    };
    let mut i: usize = 0;
    while i < n
        invariant
            n <= methods@.len(),
            i <= n,
            ms == methods_view(methods@),
            output@ == lines_start + method_lines(ms.take(i as int)),
        decreases n - i,
    {
        let method = &methods[i];
        let ghost before = output@;
        output.append("- `");
        if method.signature.as_str().is_empty() {
            output.append(method.name.as_str());
        } else {
            output.append(method.signature.as_str());
        }
        output.append("`");
        if !method.description.as_str().is_empty() {
            let brief = first_line_of(method.description.as_str());
            output.append(": ");
            output.append(brief.as_str());
        }
        output.append("\n");
        assert(ms.take(i + 1).drop_last() == ms.take(i as int));
        assert(ms.take(i + 1).last() == method@);
        assert(output@ == before + method_line(method@));
        i = i + 1;
    }
    output.append("\n");
    assert(output@ == start + method_summary_text(ms));
}

/// The marker `sub` (such as `### `), `Label name`, and a blank line.
pub open spec fn item_heading(sub: Seq<char>, item: ItemDoc) -> Seq<char> {
    sub + label_of(item.kind) + " "@ + item.name@ + "\n\n"@
}

/// A Rust code block holding `code`; nothing for empty code.
pub open spec fn code_block(code: Seq<char>) -> Seq<char> {
    if code.len() > 0 {
        "```rust\n"@ + code + "\n```\n\n"@
    } else {
        Seq::empty()
    }
}

/// `text` followed by a blank line; nothing for empty text.
pub open spec fn paragraph(text: Seq<char>) -> Seq<char> {
    if text.len() > 0 {
        text + "\n\n"@
    } else {
        Seq::empty()
    }
}

/// The detailed block of one item.
pub open spec fn item_block(sub: Seq<char>, item: ItemDoc) -> Seq<char> {
    item_heading(sub, item) + code_block(item.signature@) + paragraph(item.description@)
        + name_list_text("**Fields:** "@, strings_view(item.fields@)) + name_list_text(
        "**Variants:** "@,
        strings_view(item.variants@),
    ) + method_summary_text(methods_view(item.methods@))
}

/// The detailed blocks of the items, in order.
pub open spec fn item_blocks(sub: Seq<char>, items: Seq<ItemDoc>) -> Seq<char>
    decreases items.len(),
{
    if items.len() == 0 {
        Seq::empty()
    } else {
        item_blocks(sub, items.drop_last()) + item_block(sub, items.last())
    }
}

/// The `Key Types (Detailed)` section headed by `h`, with one block per
/// item headed by `sub`; nothing without items.
pub open spec fn item_details_text(h: Seq<char>, sub: Seq<char>, items: Seq<ItemDoc>) -> Seq<char> {
    if items.len() == 0 {
        Seq::empty()
    } else {
        h + "Key Types (Detailed)\n\n"@ + item_blocks(sub, items)
    }
}

/// Appends the detailed block of one item.
fn push_item_block(output: &mut String, sub: &str, item: &ItemDoc)
    ensures
        final(output)@ == old(output)@ + item_block(sub@, *item),
{
    let ghost start = output@;
    output.append(sub);
    output.append(item.kind.label());
    output.append(" ");
    output.append(item.name.as_str());
    output.append("\n\n");
    let ghost a = output@;
    assert(a =~= start + item_heading(sub@, *item));
    if !item.signature.as_str().is_empty() {
        output.append("```rust\n");
        output.append(item.signature.as_str());
        output.append("\n```\n\n");
    }
    let ghost b = output@;
    assert(b =~= a + code_block(item.signature@));
    if !item.description.as_str().is_empty() {
        output.append(item.description.as_str());
        output.append("\n\n");
    }
    let ghost c = output@;
    assert(c =~= b + paragraph(item.description@));
    push_name_list(output, "**Fields:** ", &item.fields);
    push_name_list(output, "**Variants:** ", &item.variants);
    push_method_summary(output, &item.methods);
    assert(output@ =~= start + item_block(sub@, *item));
}

/// Appends the detailed documentation for each parsed item.
fn push_item_details(output: &mut String, h: &str, sub: &str, items: &Vec<ItemDoc>)
    ensures
        final(output)@ == old(output)@ + item_details_text(h@, sub@, items@),
{
    if items.len() == 0 {
        return;
    }
    let ghost start = output@;
    output.append(h);
    output.append("Key Types (Detailed)\n\n");
    let ghost blocks_start = output@;
    let mut i: usize = 0;
    while i < items.len()
        invariant
            i <= items@.len(),
            output@ == blocks_start + item_blocks(sub@, items@.take(i as int)),
        decreases items@.len() - i,
    {
        push_item_block(output, sub, &items[i]);
        assert(items@.take(i + 1).drop_last() == items@.take(i as int));
        assert(items@.take(i + 1).last() == items@[i as int]);
        i = i + 1;
    }
    assert(items@.take(items@.len() as int) == items@);
    assert(output@ =~= start + item_details_text(h@, sub@, items@));
}

// ---------------------------------------------------------------------------
// The summary
// ---------------------------------------------------------------------------

/// The sections of a crate's documentation: overview, item lists and key
/// types, headed by the marker `h` and with item blocks headed by `sub`.
pub open spec fn docs_sections(docs: CrateDocs, h: Seq<char>, sub: Seq<char>) -> Seq<char> {
    overview_text(h, docs.index.description@, docs.index.docblock@) + listed_sections(docs, h, sub)
}

/// The sections that follow the overview: the item lists and the key
/// types.
pub open spec fn listed_sections(docs: CrateDocs, h: Seq<char>, sub: Seq<char>) -> Seq<char> {
    let idx = docs.index;
    entry_section(
        h,
        "Modules"@,
        entries_view(idx.modules@),
        usize::MAX as nat,
    ) + entry_section(h, "Structs"@, entries_view(idx.structs@), 15) + entry_section(
        h,
        "Traits"@,
        entries_view(idx.traits@),
        10,
    ) + entry_section(h, "Enums"@, entries_view(idx.enums@), 10) + entry_section(
        h,
        "Functions"@,
        entries_view(idx.functions@),
        10,
    ) + entry_section(h, "Type Aliases"@, entries_view(idx.types@), 10) + entry_section(
        h,
        "Constants"@,
        entries_view(idx.constants@),
        10,
    ) + entry_section(h, "Macros"@, entries_view(idx.macros@), 10) + item_details_text(
        h,
        sub,
        docs.items@,
    )
}

/// The standalone text summary of a crate's documentation: the header,
/// then level-2 sections with level-3 item blocks.
pub open spec fn docs_summary(docs: CrateDocs) -> Seq<char> {
    header_text(docs.index.name@, docs.index.version@) + docs_sections(docs, "## "@, "### "@)
}

/// A crate docblock that is non-empty and differs from the description
/// appears in the summary, right after the header and the overview.
pub proof fn lemma_summary_shows_docblock(docs: CrateDocs)
    requires
        docs.index.docblock@.len() > 0,
        docs.index.docblock@ != docs.index.description@,
    ensures
        ({
            let b = docs.index.docblock@;
            let k = header_text(docs.index.name@, docs.index.version@).len() + overview_text(
                "## "@,
                docs.index.description@,
                Seq::empty(),
            ).len();
            docs_summary(docs).subrange(k as int, (k + b.len()) as int) == b
        }),
{
    let b = docs.index.docblock@;
    let d = docs.index.description@;
    lemma_overview_docblock("## "@, d, b);
    let head = header_text(docs.index.name@, docs.index.version@);
    let ov = overview_text("## "@, d, Seq::<char>::empty());
    let rest = listed_sections(docs, "## "@, "### "@);
    assert(docs_summary(docs) =~= head + ov + b + ("\n\n"@ + rest));
    let k = head.len() + ov.len();
    assert(docs_summary(docs).subrange(k as int, (k + b.len()) as int) =~= b);
}

/// The documentation as a part of a larger document: no header of its own,
/// level-3 sections with level-4 item blocks.
pub open spec fn docs_body(docs: CrateDocs) -> Seq<char> {
    docs_sections(docs, "### "@, "#### "@)
}

/// Appends the sections of a crate's documentation.
fn push_sections(output: &mut String, docs: &CrateDocs, h: &str, sub: &str)
    ensures
        final(output)@ == old(output)@ + docs_sections(*docs, h@, sub@),
{
    let ghost start = output@;
    let idx = &docs.index;
    push_overview(output, h, idx);
    push_entry_section(output, h, "Modules", &idx.modules, usize::MAX);
    push_entry_section(output, h, "Structs", &idx.structs, 15);
    push_entry_section(output, h, "Traits", &idx.traits, 10);
    push_entry_section(output, h, "Enums", &idx.enums, 10);
    push_entry_section(output, h, "Functions", &idx.functions, 10);
    push_entry_section(output, h, "Type Aliases", &idx.types, 10);
    push_entry_section(output, h, "Constants", &idx.constants, 10);
    push_entry_section(output, h, "Macros", &idx.macros, 10);
    push_item_details(output, h, sub, &docs.items);
    assert(output@ =~= start + docs_sections(*docs, h@, sub@));
}

/// Returns a summary of the crate suitable for LLM consumption: name and
/// version, description, module overview and key types.
pub fn format_docs_summary(docs: &CrateDocs) -> (s: String)
    ensures
        s@ == docs_summary(*docs),
{
    let mut output = String::new();
    push_header(&mut output, docs.index.name.as_str(), docs.index.version.as_str());
    push_sections(&mut output, docs, "## ", "### ");
    output
}

/// Returns the documentation of a crate for the `Documentation` part of
/// the final document: the same sections one heading level deeper, with no
/// header of their own.
pub fn format_docs_body(docs: &CrateDocs) -> (s: String)
    ensures
        s@ == docs_body(*docs),
{
    let mut output = String::new();
    push_sections(&mut output, docs, "### ", "#### ");
    assert(output@ =~= docs_body(*docs));
    output
}

// ---------------------------------------------------------------------------
// Key item pages
// ---------------------------------------------------------------------------

/// A request to read the documentation page of a key item.
#[derive(Debug, Clone)]
pub struct ItemRequest {
    /// The kind of the item.
    pub kind: ItemKind,
    /// The page's path relative to the documentation root.
    pub path: String,
}

/// The content of an `ItemRequest`.
pub ghost struct RequestView {
    pub kind: ItemKind,
    pub path: Seq<char>,
}

impl View for ItemRequest {
    type V = RequestView;

    open spec fn view(&self) -> RequestView {
        RequestView { kind: self.kind, path: self.path@ }
    }
}

/// The contents of a list of requests.
pub open spec fn requests_view(v: Seq<ItemRequest>) -> Seq<RequestView> {
    v.map_values(|r: ItemRequest| r@)
}

/// Requests for the pages of the first `limit` entries, of kind `kind`.
pub open spec fn entry_requests(es: Seq<EntryView>, kind: ItemKind, limit: nat) -> Seq<RequestView> {
    es.take(min_nat(limit, es.len()) as int).map_values(|e: EntryView| RequestView { kind, path: e.path })
}

/// The key item pages of a crate: up to 10 structs, then up to 5 traits,
/// then up to 5 enums, each in index order.
pub open spec fn key_requests_of(idx: CrateIndex) -> Seq<RequestView> {
    entry_requests(entries_view(idx.structs@), ItemKind::Struct, 10) + entry_requests(
        entries_view(idx.traits@),
        ItemKind::Trait,
        5,
    ) + entry_requests(entries_view(idx.enums@), ItemKind::Enum, 5)
}

/// At most 20 key item pages are read: 10 structs, 5 traits, 5 enums.
pub proof fn lemma_key_requests_bounded(idx: CrateIndex)
    ensures
        key_requests_of(idx).len() <= 20,
{
}

/// Appends requests for the pages of up to `limit` entries.
fn push_requests(reqs: &mut Vec<ItemRequest>, entries: &Vec<ItemEntry>, kind: ItemKind, limit: usize)
    ensures
        requests_view(final(reqs)@) == requests_view(old(reqs)@) + entry_requests(
            entries_view(entries@),
            kind,
            limit as nat,
        ),
{
    let ghost start = requests_view(reqs@);
    let ghost es = entries_view(entries@);
    let n = if limit < entries.len() {
        limit
    } else {
        entries.len()
    };
    let mut i: usize = 0;
    while i < n
        invariant
            n <= entries@.len(),
            n == min_nat(limit as nat, es.len()),
            i <= n,
            es == entries_view(entries@),
            requests_view(reqs@) == start + es.take(i as int).map_values(
                |e: EntryView| RequestView { kind, path: e.path },
            ),
        decreases n - i,
    {
        let ghost before = reqs@;
        reqs.push(ItemRequest { kind, path: entries[i].path.clone() });
        assert(requests_view(reqs@) =~= requests_view(before) + seq![reqs@.last()@]);
        assert(es.take(i + 1).map_values(|e: EntryView| RequestView { kind, path: e.path })
            =~= es.take(i as int).map_values(|e: EntryView| RequestView { kind, path: e.path })
            + seq![reqs@.last()@]);
        i = i + 1;
    }
}

/// The pages to read for the detailed part of the documentation.
pub fn key_item_requests(index: &CrateIndex) -> (reqs: Vec<ItemRequest>)
    ensures
        requests_view(reqs@) == key_requests_of(*index),
{
    let mut reqs: Vec<ItemRequest> = Vec::new();
    assert(requests_view(reqs@) =~= Seq::<RequestView>::empty());
    push_requests(&mut reqs, &index.structs, ItemKind::Struct, 10);
    push_requests(&mut reqs, &index.traits, ItemKind::Trait, 5);
    push_requests(&mut reqs, &index.enums, ItemKind::Enum, 5);
    reqs
}

/// The contents of a list of items.
pub open spec fn items_view(v: Seq<ItemDoc>) -> Seq<ItemView> {
    v.map_values(|d: ItemDoc| d@)
}

/// The items parsed from the pages that could be read, in order; pages that
/// could not be read are skipped.
pub open spec fn parsed_pages(pages: Seq<(ItemKind, Option<String>)>) -> Seq<ItemView>
    decreases pages.len(),
{
    if pages.len() == 0 {
        Seq::empty()
    } else {
        let rest = parsed_pages(pages.drop_last());
        match pages.last().1 {
            Some(html) => rest.push(item_view_of(html@, pages.last().0)),
            None => rest,
        }
    }
}

/// Parses the item pages that were read, skipping those that could not be.
pub fn collect_items(pages: &Vec<(ItemKind, Option<String>)>) -> (items: Vec<ItemDoc>)
    ensures
        items_view(items@) == parsed_pages(pages@),
{
    let mut items: Vec<ItemDoc> = Vec::new();
    let mut i: usize = 0;
    while i < pages.len()
        invariant
            i <= pages@.len(),
            items_view(items@) == parsed_pages(pages@.take(i as int)),
        decreases pages@.len() - i,
    {
        assert(pages@.take(i + 1).drop_last() == pages@.take(i as int));
        assert(pages@.take(i + 1).last() == pages@[i as int]);
        let page = &pages[i];
        let ghost before = items@;
        match &page.1 {
            Some(html) => {
                let doc = parse_item(html.as_str(), page.0);
                items.push(doc);
                assert(items_view(items@) =~= items_view(before).push(items@.last()@));
            },
            None => {},
        }
        i = i + 1;
    }
    assert(pages@.take(pages@.len() as int) == pages@);
    items
}

} // verus!
