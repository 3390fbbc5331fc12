//! Relevance probe over the immediate entries of one directory.
use vstd::prelude::*;

verus! {

/// What a directory entry resolved to (links followed; broken links are `Other`).
#[derive(Clone, Copy, Debug, PartialEq, Eq, Structural)]
pub enum EntryKind {
    File,
    Dir,
    Other,
}

/// One entry directly under the probed directory.
#[derive(Clone, Debug)]
pub struct DirEntry {
    pub name: String,
    pub kind: EntryKind,
}

/// The configured markers of a probe; every name is matched case-sensitively.
#[derive(Clone, Debug)]
pub struct ProbeSpec {
    pub file_names: Vec<String>,
    pub extensions: Vec<String>,
    pub folder_names: Vec<String>,
    pub exclusion_folder_names: Vec<String>,
}

pub open spec fn contains_name(names: Seq<String>, s: Seq<char>) -> bool {
    exists|j: int| 0 <= j < names.len() && #[trigger] names[j]@ == s
}

/// `k` is the position of the last `.` of `s`.
pub open spec fn is_last_dot(s: Seq<char>, k: int) -> bool {
    &&& 0 <= k < s.len()
    &&& s[k] == '.'
    &&& forall|j: int| k < j < s.len() ==> s[j] != '.'
}

/// The extension of a file name, as `Path::extension` gives it: what follows
/// the last dot, unless there is none, the only dot leads the name, or the
/// name is `..`.
pub open spec fn extension_of(name: Seq<char>) -> Option<Seq<char>> {
    if name =~= seq!['.', '.'] {
        None
    } else if exists|k: int| 0 < k && is_last_dot(name, k) {
        let k = choose|k: int| 0 < k && is_last_dot(name, k);
        Some(name.subrange(k + 1, name.len() as int))
    } else {
        None
    }
}

pub open spec fn has_entry_named(entries: Seq<DirEntry>, names: Seq<String>, kind: EntryKind) -> bool {
    exists|i: int|
        0 <= i < entries.len() && #[trigger] entries[i].kind == kind && contains_name(names, entries[i].name@)
}

pub open spec fn has_file_with_extension(entries: Seq<DirEntry>, exts: Seq<String>) -> bool {
    exists|i: int|
        0 <= i < entries.len() && #[trigger] entries[i].kind == EntryKind::File
            && match extension_of(entries[i].name@) {
            Some(e) => contains_name(exts, e),
            None => false,
        }
}

/// An exclusion folder is present.
pub open spec fn is_excluded(entries: Seq<DirEntry>, spec: ProbeSpec) -> bool {
    has_entry_named(entries, spec.exclusion_folder_names@, EntryKind::Dir)
}

/// Some configured marker is present.
pub open spec fn has_marker(entries: Seq<DirEntry>, spec: ProbeSpec) -> bool {
    has_entry_named(entries, spec.file_names@, EntryKind::File)
        || has_file_with_extension(entries, spec.extensions@)
        || has_entry_named(entries, spec.folder_names@, EntryKind::Dir)
}

/// The answer of the probe on a directory holding `entries`.
pub open spec fn probe_result(entries: Seq<DirEntry>, spec: ProbeSpec) -> bool {
    !is_excluded(entries, spec) && has_marker(entries, spec)
}

fn contains(names: &Vec<String>, s: &String) -> (r: bool)
    ensures
        r == contains_name(names@, s@),
{
    let mut j: usize = 0;
    while j < names.len()
        invariant
            j <= names@.len(),
            forall|k: int| 0 <= k < j ==> names@[k]@ != s@,
        decreases names.len() - j,
    {
        if names[j] == *s {
            return true;
        }
        j += 1;
    }
    false
}

/// Whether the name of some entry of the given kind is one of `names`.
fn find_named(entries: &Vec<DirEntry>, names: &Vec<String>, kind: EntryKind) -> (r: bool)
    ensures
        r == has_entry_named(entries@, names@, kind),
{
    let mut i: usize = 0;
    while i < entries.len()
        invariant
            i <= entries@.len(),
            forall|k: int|
                0 <= k < i ==> !(#[trigger] entries@[k].kind == kind && contains_name(names@, entries@[k].name@)),
        decreases entries.len() - i,
    {
        if entries[i].kind == kind && contains(names, &entries[i].name) {
            return true;
        }
        i += 1;
    }
    false
}

/// The extension of a file name; see `extension_of`.
pub fn extension(name: &str) -> (r: Option<String>)
    ensures
        r matches Some(e) ==> extension_of(name@) == Some(e@),
        r is None ==> extension_of(name@) is None,
{
    let n = name.unicode_len();
    let mut i: usize = n;
    while i > 0 && name.get_char(i - 1) != '.'
        invariant
            i <= n == name@.len(),
            forall|j: int| i <= j < n ==> name@[j] != '.',
        decreases i,
    {
        i -= 1;
    }
    if n == 2 && i == 2 {
        // the only name of two characters whose last is a dot and that has no extension
        if name.get_char(0) == '.' {
            assert(name@ =~= seq!['.', '.']);
            return None;
        }
    }
    if i <= 1 {
        assert(!exists|k: int| 0 < k && is_last_dot(name@, k)) by {
            if exists|k: int| 0 < k && is_last_dot(name@, k) {
                let k = choose|k: int| 0 < k && is_last_dot(name@, k);
                assert(name@[k] == '.');
            }
        }
        return None;
    }
    let k = i - 1;
    assert(is_last_dot(name@, k as int));
    assert(!(name@ =~= seq!['.', '.'])) by {
        if name@ =~= seq!['.', '.'] {
            assert(name@[0] == '.');
        }
    }
    proof {
        let c = choose|c: int| 0 < c && is_last_dot(name@, c);
        assert(c == k as int) by {
            if c < k {
                assert(name@[k as int] != '.');
            } else if c > k {
                assert(name@[c] != '.');
            }
        }
    }
    Some(String::from_str(name.substring_char(i, n)))
}

fn find_extension(entries: &Vec<DirEntry>, exts: &Vec<String>) -> (r: bool)
    ensures
        r == has_file_with_extension(entries@, exts@),
{
    let mut i: usize = 0;
    while i < entries.len()
        invariant
            i <= entries@.len(),
            forall|k: int|
                0 <= k < i ==> !(#[trigger] entries@[k].kind == EntryKind::File && match extension_of(
                    entries@[k].name@,
                ) {
                    Some(e) => contains_name(exts@, e),
                    None => false,
                }),
        decreases entries.len() - i,
    {
        if entries[i].kind == EntryKind::File {
            match extension(entries[i].name.as_str()) {
                Some(e) => {
                    if contains(exts, &e) {
                        return true;
                    }
                },
                None => {},
            }
        }
        i += 1;
    }
    false
}

/// Decides whether a directory holding `entries` is relevant: an exclusion
/// folder rules it out, and otherwise one marker file, extension or folder
/// suffices. The checks run in that order and stop at the first that decides.
pub fn evaluate(entries: &Vec<DirEntry>, spec: &ProbeSpec) -> (r: bool)
    ensures
        r == probe_result(entries@, *spec),
{
    if find_named(entries, &spec.exclusion_folder_names, EntryKind::Dir) {
        return false;
    }
    if find_named(entries, &spec.file_names, EntryKind::File) {
        return true;
    }
    if find_extension(entries, &spec.extensions) {
        return true;
    }
    find_named(entries, &spec.folder_names, EntryKind::Dir)
}

/// An exclusion folder rules a directory out, whatever markers it holds.
pub proof fn lemma_exclusion_dominates(entries: Seq<DirEntry>, spec: ProbeSpec)
    requires
        is_excluded(entries, spec),
    ensures
        !probe_result(entries, spec),
{
}

/// A directory with no exclusion folder and none of the configured file
/// names, extensions or folder names is not relevant.
pub proof fn lemma_no_marker_irrelevant(entries: Seq<DirEntry>, spec: ProbeSpec)
    requires
        forall|i: int|
            0 <= i < entries.len() ==> {
                &&& !(entries[i].kind == EntryKind::File && contains_name(spec.file_names@, entries[i].name@))
                &&& !(entries[i].kind == EntryKind::File && match extension_of(entries[i].name@) {
                    Some(e) => contains_name(spec.extensions@, e),
                    None => false,
                })
                &&& !(entries[i].kind == EntryKind::Dir && contains_name(spec.folder_names@, entries[i].name@))
            },
    ensures
        !probe_result(entries, spec),
{
}

/// A directory with no exclusion folder and at least one configured marker
/// is relevant.
pub proof fn lemma_marker_relevant(entries: Seq<DirEntry>, spec: ProbeSpec, i: int)
    requires
        0 <= i < entries.len(),
        !is_excluded(entries, spec),
        (entries[i].kind == EntryKind::File && contains_name(spec.file_names@, entries[i].name@))
            || (entries[i].kind == EntryKind::File && match extension_of(entries[i].name@) {
            Some(e) => contains_name(spec.extensions@, e),
            None => false,
        }) || (entries[i].kind == EntryKind::Dir && contains_name(spec.folder_names@, entries[i].name@)),
    ensures
        probe_result(entries, spec),
{
}

} // verus!
