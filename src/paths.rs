//! Sorting paths into files and folders.
//!
//! Looking at the file system is the host's part: it reports for each path
//! what it found there as a [`PathEntry`]. The sorting is done here.
use vstd::prelude::*;

verus! {

/// What stands at a path.
#[derive(PartialEq, Eq, Structural, Clone, Copy, Debug)]
pub enum PathKind {
    /// A regular file (a link counts as what it points to).
    File,
    /// A directory.
    Directory,
    /// Something that exists but is neither.
    Other,
    /// Nothing, or nothing that could be read.
    Missing,
}

/// A path with what stands at it.
#[derive(Clone, Debug)]
pub struct PathEntry {
    pub path: String,
    pub kind: PathKind,
}

/// The existing files and folders among a list of paths, each in input order.
#[derive(Clone, Debug)]
pub struct PathClasses {
    pub files: Vec<String>,
    pub folders: Vec<String>,
}

/// The paths of the entries of kind `k`, in order.
pub open spec fn paths_of_kind(entries: Seq<PathEntry>, k: PathKind) -> Seq<String>
    decreases entries.len(),
{
    if entries.len() == 0 {
        seq![]
    } else {
        let rest = paths_of_kind(entries.drop_last(), k);
        if entries.last().kind == k {
            rest.push(entries.last().path)
        } else {
            rest
        }
    }
}

/// How many entries are a file or a directory.
pub open spec fn classified_count(entries: Seq<PathEntry>) -> nat
    decreases entries.len(),
{
    if entries.len() == 0 {
        0
    } else {
        classified_count(entries.drop_last()) + (if entries.last().kind == PathKind::File
            || entries.last().kind == PathKind::Directory {
            1nat
        } else {
            0nat
        })
    }
}

/// Sorts the entries into files and folders, keeping their order; paths that
/// are missing or neither are left out.
pub fn classify_paths(entries: Vec<PathEntry>) -> (r: PathClasses)
    ensures
        r.files@ == paths_of_kind(entries@, PathKind::File),
        r.folders@ == paths_of_kind(entries@, PathKind::Directory),
{
    let mut files: Vec<String> = Vec::new();
    let mut folders: Vec<String> = Vec::new();
    let mut i: usize = 0;
    while i < entries.len()
        invariant
            i <= entries@.len(),
            files@ == paths_of_kind(entries@.subrange(0, i as int), PathKind::File),
            folders@ == paths_of_kind(entries@.subrange(0, i as int), PathKind::Directory),
        decreases entries@.len() - i,
    {
        let e = &entries[i];
        assert(entries@.subrange(0, i + 1).drop_last() == entries@.subrange(0, i as int));
        if e.kind == PathKind::File {
            files.push(e.path.clone());
        } else if e.kind == PathKind::Directory {
            folders.push(e.path.clone());
        }
        i = i + 1;
    }
    assert(entries@.subrange(0, entries@.len() as int) == entries@);
    PathClasses { files, folders }
}

proof fn lemma_kind_member(entries: Seq<PathEntry>, k: PathKind, i: int)
    requires
        0 <= i < entries.len(),
        entries[i].kind == k,
    ensures
        paths_of_kind(entries, k).contains(entries[i].path),
    decreases entries.len(),
{
    let rest = paths_of_kind(entries.drop_last(), k);
    if i < entries.len() - 1 {
        lemma_kind_member(entries.drop_last(), k, i);
        let j = choose|j: int| 0 <= j < rest.len() && rest[j] == entries[i].path;
        if entries.last().kind == k {
            assert(rest.push(entries.last().path)[j] == entries[i].path);
        }
    } else {
        assert(rest.push(entries.last().path)[rest.len() as int] == entries[i].path);
    }
}

/// Some entry of kind `k` has the path `p`.
pub open spec fn has_entry(entries: Seq<PathEntry>, k: PathKind, p: String) -> bool {
    exists|i: int| 0 <= i < entries.len() && entries[i].kind == k && #[trigger] entries[i].path == p
}

proof fn lemma_kind_source(entries: Seq<PathEntry>, k: PathKind, j: int)
    requires
        0 <= j < paths_of_kind(entries, k).len(),
    ensures
        has_entry(entries, k, paths_of_kind(entries, k)[j]),
    decreases entries.len(),
{
    let rest = paths_of_kind(entries.drop_last(), k);
    if j < rest.len() {
        lemma_kind_source(entries.drop_last(), k, j);
        let i = choose|i: int|
            0 <= i < entries.drop_last().len() && entries.drop_last()[i].kind == k
                && #[trigger] entries.drop_last()[i].path == rest[j];
        assert(entries[i] == entries.drop_last()[i]);
    } else {
        assert(entries[entries.len() - 1].kind == k);
    }
}

proof fn lemma_counts(entries: Seq<PathEntry>)
    ensures
        paths_of_kind(entries, PathKind::File).len() + paths_of_kind(
            entries,
            PathKind::Directory,
        ).len() == classified_count(entries),
    decreases entries.len(),
{
    if entries.len() > 0 {
        lemma_counts(entries.drop_last());
    }
}

/// The files and folders that `classify_paths` returns split the existing
/// entries exactly: each file is in `files`, each directory in `folders`,
/// everything returned comes from an entry of that kind, and together they
/// hold as many paths as there are files and directories among the entries.
pub proof fn lemma_classes_partition(entries: Seq<PathEntry>)
    ensures
        forall|i: int|
            0 <= i < entries.len() && entries[i].kind == PathKind::File ==> paths_of_kind(
                entries,
                PathKind::File,
            ).contains(#[trigger] entries[i].path),
        forall|i: int|
            0 <= i < entries.len() && entries[i].kind == PathKind::Directory ==> paths_of_kind(
                entries,
                PathKind::Directory,
            ).contains(#[trigger] entries[i].path),
        forall|j: int|
            0 <= j < paths_of_kind(entries, PathKind::File).len() ==> has_entry(
                entries,
                PathKind::File,
                #[trigger] paths_of_kind(entries, PathKind::File)[j],
            ),
        forall|j: int|
            0 <= j < paths_of_kind(entries, PathKind::Directory).len() ==> has_entry(
                entries,
                PathKind::Directory,
                #[trigger] paths_of_kind(entries, PathKind::Directory)[j],
            ),
        paths_of_kind(entries, PathKind::File).len() + paths_of_kind(
            entries,
            PathKind::Directory,
        ).len() == classified_count(entries),
{
    assert forall|i: int|
        0 <= i < entries.len() && entries[i].kind == PathKind::File implies paths_of_kind(
            entries,
            PathKind::File,
        ).contains(#[trigger] entries[i].path) by {
        lemma_kind_member(entries, PathKind::File, i);
    }
    assert forall|i: int|
        0 <= i < entries.len() && entries[i].kind == PathKind::Directory implies paths_of_kind(
            entries,
            PathKind::Directory,
        ).contains(#[trigger] entries[i].path) by {
        lemma_kind_member(entries, PathKind::Directory, i);
    }
    assert forall|j: int| 0 <= j < paths_of_kind(entries, PathKind::File).len() implies has_entry(
        entries,
        PathKind::File,
        #[trigger] paths_of_kind(entries, PathKind::File)[j],
    ) by {
        lemma_kind_source(entries, PathKind::File, j);
    }
    assert forall|j: int|
        0 <= j < paths_of_kind(entries, PathKind::Directory).len() implies has_entry(
        entries,
        PathKind::Directory,
        #[trigger] paths_of_kind(entries, PathKind::Directory)[j],
    ) by {
        lemma_kind_source(entries, PathKind::Directory, j);
    }
    lemma_counts(entries);
}

} // verus!
