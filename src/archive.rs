//! Naming of release artifacts and the rule for which source-tree entries a
//! source archive leaves out.

use vstd::prelude::*;
use crate::text::{chars_of, same_text};

verus! {

/// File-name prefix of the source archive of a release.
pub const SOURCE_ARCHIVE_PREFIX: &'static str = "viewtube-src";

/// File-name prefix of the prebuilt binary bundle of a release.
pub const BINARY_ARCHIVE_PREFIX: &'static str = "viewtube-bin";

/// Top-level directory that holds the source tree inside a source archive.
pub const SOURCE_ROOT_DIR: &'static str = "source";

/// Top-level directory that holds `bin` and `www` inside a binary bundle.
pub const BINARY_ROOT_DIR: &'static str = "bundle";

/// Suffix of every release artifact.
pub const ARCHIVE_SUFFIX: &'static str = ".tar.gz";

/// Suffix that turns an artifact's name into its signature's name.
pub const SIGNATURE_SUFFIX: &'static str = ".sig";

/// `<prefix>-<tag>.tar.gz`.
pub open spec fn artifact_name(prefix: Seq<char>, tag: Seq<char>) -> Seq<char> {
    prefix + "-"@ + tag + ARCHIVE_SUFFIX@
}

/// The name of the detached signature that sits next to `artifact`.
pub open spec fn signature_name(artifact: Seq<char>) -> Seq<char> {
    artifact + SIGNATURE_SUFFIX@
}

/// Name of the source archive of release `tag`.
pub fn source_archive_name(tag: &str) -> (r: String)
    ensures
        r@ == artifact_name(SOURCE_ARCHIVE_PREFIX@, tag@),
{
    let mut name = String::from_str(SOURCE_ARCHIVE_PREFIX);
    name.append("-");
    name.append(tag);
    name.append(ARCHIVE_SUFFIX);
    name
}

/// Name of the binary bundle of release `tag`.
pub fn binary_archive_name(tag: &str) -> (r: String)
    ensures
        r@ == artifact_name(BINARY_ARCHIVE_PREFIX@, tag@),
{
    let mut name = String::from_str(BINARY_ARCHIVE_PREFIX);
    name.append("-");
    name.append(tag);
    name.append(ARCHIVE_SUFFIX);
    name
}

/// Where the detached signature of the artifact at `archive` is written.
pub fn signature_path_for(archive: &str) -> (r: String)
    ensures
        r@ == signature_name(archive@),
{
    let mut path = String::from_str(archive);
    path.append(SIGNATURE_SUFFIX);
    path
}

/// Index of the first `'/'` in `p` at or after `from`, or `p.len()`.
pub open spec fn next_slash(p: Seq<char>, from: int) -> int
    recommends
        0 <= from <= p.len(),
    decreases p.len() - from,
{
    if from >= p.len() || p[from] == '/' {
        from
    } else {
        next_slash(p, from + 1)
    }
}

/// Index of the first character of `p` at or after `from` that is not `'/'`.
pub open spec fn skip_slashes(p: Seq<char>, from: int) -> int
    decreases p.len() - from,
{
    if from >= p.len() || p[from] != '/' {
        from
    } else {
        skip_slashes(p, from + 1)
    }
}

/// The first component of a relative path (empty when it has none).
pub open spec fn first_component(p: Seq<char>) -> Seq<char> {
    p.subrange(skip_slashes(p, 0), next_slash(p, skip_slashes(p, 0)))
}

/// Top-level directories that never go into a source archive: version
/// control, build output and dependency caches.
pub open spec fn is_excluded_dir(name: Seq<char>) -> bool {
    name == ".git"@ || name == "target"@ || name == "node_modules"@ || name == "coverage"@
}

proof fn lemma_skip_slashes_bounds(p: Seq<char>, from: int)
    requires
        0 <= from <= p.len(),
    ensures
        from <= skip_slashes(p, from) <= p.len(),
        forall|k: int| from <= k < skip_slashes(p, from) ==> p[k] == '/',
    decreases p.len() - from,
{
    if from < p.len() && p[from] == '/' {
        lemma_skip_slashes_bounds(p, from + 1);
    }
}

proof fn lemma_next_slash_bounds(p: Seq<char>, from: int)
    requires
        0 <= from <= p.len(),
    ensures
        from <= next_slash(p, from) <= p.len(),
        forall|k: int| from <= k < next_slash(p, from) ==> p[k] != '/',
        next_slash(p, from) < p.len() ==> p[next_slash(p, from)] == '/',
    decreases p.len() - from,
{
    if from < p.len() && p[from] != '/' {
        lemma_next_slash_bounds(p, from + 1);
    }
}

/// Whether the entry at relative path `rel` is left out of a source archive:
/// its first component names an excluded directory.
pub fn should_skip_source_entry(rel: &str) -> (r: bool)
    ensures
        r == is_excluded_dir(first_component(rel@)),
{
    let cs = chars_of(rel);
    let n = cs.len();
    let mut start: usize = 0;
    while start < n && cs[start] == '/'
        invariant
            cs@ == rel@,
            n == cs@.len(),
            start <= n,
            skip_slashes(rel@, start as int) == skip_slashes(rel@, 0),
        decreases n - start,
    {
        start = start + 1;
    }
    proof {
        lemma_skip_slashes_bounds(rel@, 0);
    }
    let mut end: usize = start;
    while end < n && cs[end] != '/'
        invariant
            cs@ == rel@,
            n == cs@.len(),
            start <= end <= n,
            start == skip_slashes(rel@, 0),
            next_slash(rel@, end as int) == next_slash(rel@, start as int),
        decreases n - end,
    {
        end = end + 1;
    }
    let mut first = String::new();
    let mut i: usize = start;
    while i < end
        invariant
            cs@ == rel@,
            start <= i <= end <= n,
            n == cs@.len(),
            first@ == rel@.subrange(start as int, i as int),
        decreases end - i,
    {
        first.push(cs[i]);
        i = i + 1;
        assert(first@ =~= rel@.subrange(start as int, i as int));
    }
    let name = first.as_str();
    same_text(name, ".git") || same_text(name, "target") || same_text(name, "node_modules")
        || same_text(name, "coverage")
}

/// An entry found while walking a source tree, by its path relative to the
/// tree's root.
pub struct TreeEntry {
    pub rel_path: String,
    pub is_dir: bool,
}

/// An entry to write into a source archive: `name` inside the archive, taken
/// from `rel_path` in the tree. Directories are written explicitly so that
/// empty ones survive extraction.
pub struct ArchiveEntry {
    pub name: String,
    pub rel_path: String,
    pub is_dir: bool,
}

/// Name of a tree entry inside the source archive.
pub open spec fn archived_name(rel: Seq<char>) -> Seq<char> {
    SOURCE_ROOT_DIR@ + "/"@ + rel
}

/// Whether a tree entry goes into the source archive.
pub open spec fn is_archived(rel: Seq<char>) -> bool {
    rel.len() > 0 && !is_excluded_dir(first_component(rel))
}

/// The archive entries for the tree entries `tree`, in the same order:
/// every entry that is kept, under the source namespace.
pub open spec fn source_plan(tree: Seq<(Seq<char>, bool)>) -> Seq<(Seq<char>, Seq<char>, bool)>
    decreases tree.len(),
{
    if tree.len() == 0 {
        Seq::empty()
    } else {
        let rest = source_plan(tree.drop_last());
        let (rel, is_dir) = tree.last();
        if is_archived(rel) {
            rest.push((archived_name(rel), rel, is_dir))
        } else {
            rest
        }
    }
}

/// Tree entries as plain values.
pub open spec fn tree_view(tree: Seq<TreeEntry>) -> Seq<(Seq<char>, bool)> {
    tree.map_values(|e: TreeEntry| (e.rel_path@, e.is_dir))
}

/// Archive entries as plain values.
pub open spec fn plan_view(plan: Seq<ArchiveEntry>) -> Seq<(Seq<char>, Seq<char>, bool)> {
    plan.map_values(|e: ArchiveEntry| (e.name@, e.rel_path@, e.is_dir))
}

/// Decides what a source archive of the walked tree holds and under which
/// names.
pub fn plan_source_archive(tree: &Vec<TreeEntry>) -> (r: Vec<ArchiveEntry>)
    ensures
        plan_view(r@) == source_plan(tree_view(tree@)),
{
    let mut out: Vec<ArchiveEntry> = Vec::new();
    let mut i: usize = 0;
    while i < tree.len()
        invariant
            i <= tree@.len(),
            plan_view(out@) == source_plan(tree_view(tree@.take(i as int))),
        decreases tree@.len() - i,
    {
        let e = &tree[i];
        let rel = e.rel_path.as_str();
        assert(tree_view(tree@.take(i + 1)).drop_last() =~= tree_view(tree@.take(i as int)));
        assert(tree_view(tree@.take(i + 1)).last() == (rel@, e.is_dir));
        if rel.unicode_len() > 0 && !should_skip_source_entry(rel) {
            let mut name = String::from_str(SOURCE_ROOT_DIR);
            name.append("/");
            name.append(rel);
            let ghost before = plan_view(out@);
            out.push(ArchiveEntry { name, rel_path: e.rel_path.clone(), is_dir: e.is_dir });
            assert(plan_view(out@) =~= before.push((archived_name(rel@), rel@, e.is_dir)));
        }
        i = i + 1;
    }
    assert(tree@.take(i as int) =~= tree@);
    out
}

/// Top-level entries of the repository that are not web assets.
pub open spec fn is_non_asset(name: Seq<char>) -> bool {
    name == ".git"@ || name == ".github"@ || name == "node_modules"@ || name == "coverage"@ || name == "cypress"@ || name == "tests"@ || name == "target"@ || name == "src"@ || name == "Cargo.lock"@ || name == "Cargo.toml"@ || name == "package.json"@ || name == "package-lock.json"@ || name == "README.md"@ || name == "LICENSE"@
}

/// Whether the top-level repository entry `name` is left out when the web
/// assets are copied.
pub fn should_skip_frontend_entry(name: &str) -> (r: bool)
    ensures
        r == is_non_asset(name@),
{
    same_text(name, ".git") || same_text(name, ".github") || same_text(name, "node_modules") || same_text(name, "coverage") || same_text(name, "cypress") || same_text(name, "tests") || same_text(name, "target") || same_text(name, "src") || same_text(name, "Cargo.lock") || same_text(name, "Cargo.toml") || same_text(name, "package.json") || same_text(name, "package-lock.json") || same_text(name, "README.md") || same_text(name, "LICENSE")
}

} // verus!
