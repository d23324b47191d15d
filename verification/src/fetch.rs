//! The text-level part of fetching documentation from docs.rs: download
//! URLs, versions recovered from redirected URLs, and the directories in
//! which an unpacked archive may hold the crate's documentation.

use vstd::prelude::*;

use crate::text::{
    chars_of, find, find_char, find_in, head, lemma_find_first, matches_at, replace_all,
    replace_from, replace_str, string_of, tail,
};

verus! {

/// The version asked for: the one given, or `latest`.
pub open spec fn requested_version_of(version: Option<Seq<char>>) -> Seq<char> {
    match version {
        Some(v) => v,
        None => "latest"@,
    }
}

/// The version to put in a download URL.
pub fn requested_version<'a>(version: Option<&'a str>) -> (v: &'a str)
    ensures
        v@ == requested_version_of(
            match version {
                Some(s) => Some(s@),
                None => None,
            },
        ),
{
    match version {
        Some(v) => v,
        None => "latest",
    }
}

/// `https://docs.rs/crate/{name}/{version}/download`
pub open spec fn download_url_of(name: Seq<char>, version: Seq<char>) -> Seq<char> {
    "https://docs.rs/crate/"@ + name + "/"@ + version + "/download"@
}

/// The docs.rs URL of the documentation archive of a crate version.
pub fn download_url(crate_name: &str, version: &str) -> (url: String)
    ensures
        url@ == download_url_of(crate_name@, version@),
{
    let mut url = String::new();
    url.append("https://docs.rs/crate/");
    url.append(crate_name);
    url.append("/");
    url.append(version);
    url.append("/download");
    assert(url@ =~= download_url_of(crate_name@, version@));
    url
}

/// A crate version that docs.rs does not have.
pub struct CrateNotFound {
    /// The crate name asked for.
    pub name: String,
    /// The version asked for.
    pub version: String,
}

/// The download of `crate_name` at `version` answered with HTTP `status`
/// means that docs.rs has no such crate version exactly when the status is
/// 404 (Not Found).
pub fn not_found(status: u16, crate_name: &str, version: &str) -> (r: Option<CrateNotFound>)
    ensures
        (r is Some) <==> status == 404,
        r matches Some(e) ==> e.name@ == crate_name@ && e.version@ == version@,
{
    if status == 404 {
        Some(CrateNotFound { name: crate_name.to_owned(), version: version.to_owned() })
    } else {
        None
    }
}

/// The version in a docs.rs URL: the text between the first
/// `/crate/{name}/` and the next `/`.
pub open spec fn version_in_url(url: Seq<char>, name: Seq<char>) -> Option<Seq<char>> {
    let pat = "/crate/"@ + name + "/"@;
    match find(url, pat) {
        None => None,
        Some(st) => {
            let rest = url.skip(st + pat.len());
            match find(rest, seq!['/']) {
                None => None,
                Some(e) => Some(rest.take(e)),
            }
        },
    }
}

/// Extracts the version from a docs.rs URL.
pub fn extract_version_from_url(url: &str, crate_name: &str) -> (r: Option<String>)
    ensures
        match r {
            Some(v) => version_in_url(url@, crate_name@) == Some(v@),
            None => version_in_url(url@, crate_name@) is None,
        },
{
    let u = chars_of(url);
    let mut pat = chars_of("/crate/");
    let name = chars_of(crate_name);
    crate::text::append_chars(&mut pat, name.as_slice());
    let slash = chars_of("/");
    crate::text::append_chars(&mut pat, slash.as_slice());
    let start = find_in(u.as_slice(), pat.as_slice())?;
    let rest = tail(u.as_slice(), start + pat.len());
    let end = find_char(rest, '/')?;
    Some(string_of(head(rest, end)))
}

/// The version a download resolved to: the one in the final URL, else the
/// one asked for.
pub open spec fn resolved_version_of(final_url: Seq<char>, name: Seq<char>, asked: Seq<char>) -> Seq<char> {
    match version_in_url(final_url, name) {
        Some(v) => v,
        None => asked,
    }
}

/// The version a download resolved to, from the URL it ended at.
pub fn resolved_version(final_url: &str, crate_name: &str, version: &str) -> (v: String)
    ensures
        v@ == resolved_version_of(final_url@, crate_name@, version@),
{
    match extract_version_from_url(final_url, crate_name) {
        Some(v) => v,
        None => version.to_owned(),
    }
}

/// The directories, relative to an unpacked archive and in the order to
/// try them, that may hold the crate's `index.html`: the crate's name, its
/// name with `-` replaced by `_`, and the archive root (the empty path).
pub open spec fn docs_root_candidates_of(name: Seq<char>) -> Seq<Seq<char>> {
    seq![name, replace_all(name, "-"@, "_"@), Seq::empty()]
}

/// Lists the directories in which to look for the documentation root.
pub fn docs_root_candidates(crate_name: &str) -> (dirs: Vec<String>)
    ensures
        dirs@.map_values(|d: String| d@) == docs_root_candidates_of(crate_name@),
{
    let name = chars_of(crate_name);
    let snake = replace_str(name.as_slice(), "-", "_");
    let mut dirs: Vec<String> = Vec::new();
    dirs.push(crate_name.to_owned());
    dirs.push(string_of(snake.as_slice()));
    dirs.push(String::new());
    assert(dirs@.map_values(|d: String| d@) =~= docs_root_candidates_of(crate_name@));
    dirs
}

/// What to do with an entry of a documentation archive.
#[derive(Debug, Clone, Copy, PartialEq, Eq, Structural)]
pub enum EntryAction {
    /// The entry's path would leave the extraction directory.
    Skip,
    /// The entry is a directory.
    CreateDir,
    /// The entry is a file.
    WriteFile,
}

/// The path separator of archive entry names.
pub open spec fn is_path_sep(c: char) -> bool {
    c == '/'
}

/// A `..` path component starts at `i`.
pub open spec fn parent_step_at(name: Seq<char>, i: int) -> bool {
    &&& 0 <= i
    &&& i + 2 <= name.len()
    &&& name[i] == '.'
    &&& name[i + 1] == '.'
    &&& (i == 0 || is_path_sep(name[i - 1]))
    &&& (i + 2 == name.len() || is_path_sep(name[i + 2]))
}

/// A path that is absolute or holds a `..` component, and so may leave the
/// directory it is joined to.
pub open spec fn escapes_root(name: Seq<char>) -> bool {
    (name.len() > 0 && is_path_sep(name[0])) || exists|i: int| parent_step_at(name, i)
}

/// Entries whose path may leave the extraction directory are skipped;
/// names ending in `/` are directories; the rest are files.
pub open spec fn entry_action_of(name: Seq<char>) -> EntryAction {
    if escapes_root(name) {
        EntryAction::Skip
    } else if name.len() > 0 && name.last() == '/' {
        EntryAction::CreateDir
    } else {
        EntryAction::WriteFile
    }
}

/// Absolute names and names with a `..` component, wherever it stands,
/// are skipped.
pub proof fn lemma_escaping_entries_skipped(x: Seq<char>, y: Seq<char>)
    ensures
        entry_action_of("/"@ + y) == EntryAction::Skip,
        entry_action_of(".."@) == EntryAction::Skip,
        entry_action_of("../"@ + y) == EntryAction::Skip,
        entry_action_of(x + "/.."@) == EntryAction::Skip,
        entry_action_of(x + "/../"@ + y) == EntryAction::Skip,
{
    reveal_strlit("/");
    reveal_strlit("..");
    reveal_strlit("../");
    reveal_strlit("/..");
    reveal_strlit("/../");
    assert(("/"@ + y)[0] == '/');
    assert(parent_step_at(".."@, 0));
    assert(parent_step_at("../"@ + y, 0));
    let n = x.len() as int;
    assert(parent_step_at(x + "/.."@, n + 1));
    assert(parent_step_at(x + "/../"@ + y, n + 1));
}

/// A relative name without any `.` is never skipped: it is a directory
/// when it ends in `/`, a file otherwise.
pub proof fn lemma_plain_entries_kept(name: Seq<char>)
    requires
        forall|i: int| 0 <= i < name.len() ==> name[i] != '.',
        name.len() == 0 || name[0] != '/',
    ensures
        entry_action_of(name) == (if name.len() > 0 && name.last() == '/' {
            EntryAction::CreateDir
        } else {
            EntryAction::WriteFile
        }),
{
    assert forall|i: int| !parent_step_at(name, i) by {
        if parent_step_at(name, i) {
            assert(name[i] == '.');
        }
    }
}

/// A name of a single component, other than `..`, is a file: dots inside
/// a component never make it escape.
pub proof fn lemma_single_component_kept(name: Seq<char>)
    requires
        forall|i: int| 0 <= i < name.len() ==> name[i] != '/',
        name != ".."@,
    ensures
        entry_action_of(name) == EntryAction::WriteFile,
{
    reveal_strlit("..");
    assert forall|i: int| !parent_step_at(name, i) by {
        if parent_step_at(name, i) {
            assert(i == 0 && name.len() == 2);
            assert(name =~= ".."@);
        }
    }
}

/// Decides what to do with an archive entry, from its name.
pub fn zip_entry_action(name: &str) -> (a: EntryAction)
    ensures
        a == entry_action_of(name@),
{
    let v = chars_of(name);
    let n = v.len();
    if n > 0 && v[0] == '/' {
        return EntryAction::Skip;
    }
    let mut i: usize = 0;
    while n >= 2 && i <= n - 2
        invariant
            n == v@.len(),
            i <= n,
            v@ == name@,
            forall|j: int| 0 <= j < i ==> !parent_step_at(name@, j),
        decreases n - i,
    {
        if v[i] == '.' && v[i + 1] == '.' && (i == 0 || v[i - 1] == '/') && (i + 2 == n
            || v[i + 2] == '/') {
            assert(parent_step_at(name@, i as int));
            return EntryAction::Skip;
        }
        i = i + 1;
    }
    assert(forall|j: int| #![trigger parent_step_at(name@, j)] !parent_step_at(name@, j));
    if n > 0 && v[n - 1] == '/' {
        EntryAction::CreateDir
    } else {
        EntryAction::WriteFile
    }
}

/// The version of a download URL is found again in that URL, for every
/// crate name and every version without a `/`.
pub proof fn lemma_version_roundtrip(name: Seq<char>, version: Seq<char>)
    requires
        forall|i: int| 0 <= i < version.len() ==> version[i] != '/',
    ensures
        version_in_url(download_url_of(name, version), name) == Some(version),
{
    reveal_strlit("https://docs.rs/crate/");
    reveal_strlit("/crate/");
    reveal_strlit("/");
    reveal_strlit("/download");
    let url = download_url_of(name, version);
    let prefix = "https://docs.rs/crate/"@;
    let pat = "/crate/"@ + name + "/"@;
    assert(prefix.len() == 22);
    assert(url.subrange(15, 15 + pat.len() as int) =~= pat);
    assert forall|j: int| 0 <= j < 15 implies !matches_at(url, pat, j) by {
        if matches_at(url, pat, j) {
            assert(url.subrange(j, j + pat.len())[0] == pat[0]);
            assert(url.subrange(j, j + pat.len())[1] == pat[1]);
            assert(url[j] == prefix[j]);
            assert(url[j + 1] == prefix[j + 1]);
        }
    }
    lemma_find_first(url, pat, 15);
    let rest = url.skip(15 + pat.len() as int);
    assert(rest =~= version + "/download"@);
    assert forall|j: int| 0 <= j < version.len() implies !matches_at(rest, seq!['/'], j) by {
        if matches_at(rest, seq!['/'], j) {
            assert(rest.subrange(j, j + 1)[0] == '/');
        }
    }
    assert(rest.subrange(version.len() as int, version.len() + 1 as int) =~= seq!['/']);
    lemma_find_first(rest, seq!['/'], version.len() as int);
    assert(rest.take(version.len() as int) =~= version);
}

/// Replacing one character by another keeps the length, and changes
/// exactly the positions that held the first character.
proof fn lemma_replace_char(s: Seq<char>, a: char, b: char, i: int)
    requires
        0 <= i <= s.len(),
    ensures
        replace_from(s, seq![a], seq![b], i).len() == s.len() - i,
        forall|k: int|
            0 <= k < s.len() - i ==> #[trigger] replace_from(s, seq![a], seq![b], i)[k] == (if s[i
                + k] == a {
                b
            } else {
                s[i + k]
            }),
    decreases s.len() - i,
{
    if i < s.len() {
        lemma_replace_char(s, a, b, i + 1);
        assert(s.subrange(i, i + 1) =~= seq![s[i]]);
        let rest = replace_from(s, seq![a], seq![b], i + 1);
        let out = replace_from(s, seq![a], seq![b], i);
        if s[i] == a {
            assert(matches_at(s, seq![a], i));
            assert(out == seq![b] + rest);
        } else {
            if matches_at(s, seq![a], i) {
                assert(s.subrange(i, i + 1)[0] == a);
            }
            assert(out == seq![s[i]] + rest);
        }
        assert forall|k: int| 0 <= k < s.len() - i implies #[trigger] out[k] == (if s[i + k] == a {
            b
        } else {
            s[i + k]
        }) by {
            if k > 0 {
                assert(out[k] == rest[k - 1]);
            }
        }
    }
}

/// The candidates are the crate's name, the same name with every `-`
/// turned into `_` and nothing else changed, and the archive root.
pub proof fn lemma_docs_root_candidates(name: Seq<char>)
    ensures
        docs_root_candidates_of(name).len() == 3,
        docs_root_candidates_of(name)[0] == name,
        docs_root_candidates_of(name)[1].len() == name.len(),
        forall|i: int|
            0 <= i < name.len() ==> #[trigger] docs_root_candidates_of(name)[1][i] == (if name[i]
                == '-' {
                '_'
            } else {
                name[i]
            }),
        forall|i: int|
            0 <= i < name.len() ==> #[trigger] docs_root_candidates_of(name)[1][i] != '-',
        docs_root_candidates_of(name)[2].len() == 0,
{
    reveal_strlit("-");
    reveal_strlit("_");
    assert("-"@ =~= seq!['-']);
    assert("_"@ =~= seq!['_']);
    lemma_replace_char(name, '-', '_', 0);
}

} // verus!
