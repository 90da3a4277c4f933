//! The module search path of a development environment: the project's
//! Python source directory, then the package directory of the virtual
//! environment when one is found under `<venv>/lib/python*/site-packages`.

use vstd::prelude::*;
use vstd::string::*;

use crate::paths::{join_path, path_join};

verus! {

/// What the scan of `<venv>/lib` reports about one directory entry.
pub struct LibEntry {
    /// The entry's file name.
    pub name: String,
    /// Whether `<venv>/lib/<name>/site-packages` exists.
    pub has_site_packages: bool,
}

/// The name prefix of the interpreter's version directories (`python3.12`).
pub open spec fn interpreter_prefix() -> Seq<char> {
    "python"@
}

pub open spec fn is_interpreter_dir_name(name: Seq<char>) -> bool {
    interpreter_prefix().is_prefix_of(name)
}

/// An entry that holds the packages: a version directory with a
/// `site-packages` child.
pub open spec fn qualifies(e: LibEntry) -> bool {
    is_interpreter_dir_name(e.name@) && e.has_site_packages
}

/// `<venv>/lib/<name>/site-packages`.
pub open spec fn site_packages_path(venv_dir: Seq<char>, name: Seq<char>) -> Seq<char> {
    path_join(path_join(path_join(venv_dir, "lib"@), name), "site-packages"@)
}

/// `<manifest_dir>/src-python`, where the project's Python sources live.
pub open spec fn source_dir_path(manifest_dir: Seq<char>) -> Seq<char> {
    path_join(manifest_dir, "src-python"@)
}

/// The package directory picked from the scan: that of the first entry,
/// in scan order, that qualifies.
pub open spec fn site_packages_of(venv_dir: Seq<char>, entries: Seq<LibEntry>) -> Option<
    Seq<char>,
>
    decreases entries.len(),
{
    if entries.len() == 0 {
        None
    } else if qualifies(entries[0]) {
        Some(site_packages_path(venv_dir, entries[0].name@))
    } else {
        site_packages_of(venv_dir, entries.drop_first())
    }
}

/// The search path: the source directory, then the package directory if any.
pub open spec fn search_path(
    source_dir: Seq<char>,
    venv_dir: Seq<char>,
    entries: Seq<LibEntry>,
) -> Seq<Seq<char>> {
    match site_packages_of(venv_dir, entries) {
        Some(p) => seq![source_dir, p],
        None => seq![source_dir],
    }
}

/// The entries of `parts` joined by `sep`.
pub open spec fn joined(parts: Seq<Seq<char>>, sep: char) -> Seq<char>
    decreases parts.len(),
{
    if parts.len() == 0 {
        Seq::empty()
    } else if parts.len() == 1 {
        parts[0]
    } else {
        joined(parts.drop_last(), sep) + seq![sep] + parts.last()
    }
}

pub open spec fn views(v: Seq<String>) -> Seq<Seq<char>> {
    v.map_values(|s: String| s@)
}

/// Whether `name` starts with the interpreter prefix.
pub fn is_interpreter_dir(name: &str) -> (r: bool)
    ensures
        r == is_interpreter_dir_name(name@),
{
    let prefix = "python";
    proof {
        reveal_strlit("python");
    }
    let n = name.unicode_len();
    if n < 6 {
        return false;
    }
    let mut i: usize = 0;
    while i < 6
        invariant
            i <= 6 <= n,
            n == name@.len(),
            prefix@ == interpreter_prefix(),
            prefix@.len() == 6,
            forall|j: int| 0 <= j < i ==> prefix@[j] == name@[j],
        decreases 6 - i,
    {
        if prefix.get_char(i) != name.get_char(i) {
            return false;
        }
        i = i + 1;
    }
    true
}

/// `<venv_dir>/lib/<name>/site-packages`.
pub fn site_packages_dir(venv_dir: &str, name: &str) -> (r: String)
    ensures
        r@ == site_packages_path(venv_dir@, name@),
{
    let lib = join_path(venv_dir, "lib");
    let version_dir = join_path(lib.as_str(), name);
    join_path(version_dir.as_str(), "site-packages")
}

/// `<manifest_dir>/src-python`.
pub fn source_dir(manifest_dir: &str) -> (r: String)
    ensures
        r@ == source_dir_path(manifest_dir@),
{
    join_path(manifest_dir, "src-python")
}

/// Picks the package directory from the scan of `<venv_dir>/lib`: the
/// `site-packages` of the first entry, in the order given, whose name has
/// the interpreter prefix and which has such a child. No such entry is no
/// error: the result is then `None`.
pub fn find_site_packages(venv_dir: &str, entries: &Vec<LibEntry>) -> (r: Option<String>)
    ensures
        match r {
            Some(p) => site_packages_of(venv_dir@, entries@) == Some(p@),
            None => site_packages_of(venv_dir@, entries@) == None::<Seq<char>>,
        },
{
    let mut i: usize = 0;
    assert(entries@.subrange(0, entries@.len() as int) =~= entries@);
    while i < entries.len()
        invariant
            i <= entries@.len(),
            site_packages_of(venv_dir@, entries@) == site_packages_of(
                venv_dir@,
                entries@.subrange(i as int, entries@.len() as int),
            ),
        decreases entries@.len() - i,
    {
        let rest = Ghost(entries@.subrange(i as int, entries@.len() as int));
        assert(rest@.drop_first() =~= entries@.subrange(i + 1, entries@.len() as int));
        let e = &entries[i];
        if e.has_site_packages && is_interpreter_dir(e.name.as_str()) {
            return Some(site_packages_dir(venv_dir, e.name.as_str()));
        }
        i = i + 1;
    }
    None
}

/// Composes the search path: `source_dir` first, then the package directory
/// picked from the scan of `<venv_dir>/lib`, if there is one.
pub fn compose_search_path(source_dir: &str, venv_dir: &str, entries: &Vec<LibEntry>) -> (r: Vec<
    String,
>)
    ensures
        views(r@) == search_path(source_dir@, venv_dir@, entries@),
{
    let mut r: Vec<String> = Vec::new();
    r.push(String::from_str(source_dir));
    match find_site_packages(venv_dir, entries) {
        Some(p) => {
            r.push(p);
        },
        None => {},
    }
    assert(views(r@) =~= search_path(source_dir@, venv_dir@, entries@));
    r
}

/// Joins the search path into the one string that the interpreter reads,
/// the entries separated by `:`.
pub fn join_search_path(paths: &Vec<String>) -> (r: String)
    ensures
        r@ == joined(views(paths@), ':'),
{
    let ghost parts = views(paths@);
    if paths.len() == 0 {
        return String::new();
    }
    let mut r = paths[0].clone();
    assert(parts.take(1) =~= seq![parts[0]]);
    let mut i: usize = 1;
    while i < paths.len()
        invariant
            1 <= i <= paths@.len(),
            parts == views(paths@),
            r@ == joined(parts.take(i as int), ':'),
        decreases paths@.len() - i,
    {
        proof {
            reveal_strlit(":");
            assert(parts.take(i + 1).drop_last() =~= parts.take(i as int));
        }
        r.append(":");
        r.append(paths[i].as_str());
        i = i + 1;
    }
    assert(parts.take(paths@.len() as int) =~= parts);
    r
}

/// With exactly one entry of the scan named for the interpreter, and that
/// one holding `site-packages`, the search path has two entries: the source
/// directory, then that entry's `site-packages`.
pub proof fn lemma_one_candidate_gives_two_entries(
    source_dir: Seq<char>,
    venv_dir: Seq<char>,
    entries: Seq<LibEntry>,
    k: int,
)
    requires
        0 <= k < entries.len(),
        is_interpreter_dir_name(entries[k].name@),
        entries[k].has_site_packages,
        forall|i: int| 0 <= i < entries.len() && i != k ==> !is_interpreter_dir_name(entries[i].name@),
    ensures
        search_path(source_dir, venv_dir, entries) == seq![
            source_dir,
            site_packages_path(venv_dir, entries[k].name@),
        ],
    decreases k,
{
    if k > 0 {
        let rest = entries.drop_first();
        assert(rest[k - 1] == entries[k]);
        assert forall|i: int| 0 <= i < rest.len() && i != k - 1 implies !is_interpreter_dir_name(
            rest[i].name@,
        ) by {
            assert(rest[i] == entries[i + 1]);
        }
        lemma_one_candidate_gives_two_entries(source_dir, venv_dir, rest, k - 1);
    }
}

/// With no entry of the scan named for the interpreter, the search path is
/// the source directory alone.
pub proof fn lemma_no_candidate_gives_source_only(
    source_dir: Seq<char>,
    venv_dir: Seq<char>,
    entries: Seq<LibEntry>,
)
    requires
        forall|i: int| 0 <= i < entries.len() ==> !is_interpreter_dir_name(entries[i].name@),
    ensures
        search_path(source_dir, venv_dir, entries) == seq![source_dir],
    decreases entries.len(),
{
    if entries.len() > 0 {
        let rest = entries.drop_first();
        assert forall|i: int| 0 <= i < rest.len() implies !is_interpreter_dir_name(rest[i].name@) by {
            assert(rest[i] == entries[i + 1]);
        }
        lemma_no_candidate_gives_source_only(source_dir, venv_dir, rest);
    }
}

} // verus!
