//! Which local files go once a run has seen every wallpaper.

use crate::download::{file_path, spec_file_path};
use crate::text::starts_with;
use vstd::hash_set::StringHashSet;
use vstd::prelude::*;

verus! {

/// What is known of one entry found under the destination directory.
#[derive(Debug)]
pub struct LocalEntry {
    /// The entry's name, without its directory.
    pub name: String,
    /// 0 for the destination directory itself, 1 for its direct children.
    pub depth: usize,
    /// Whether the entry still exists.
    pub exists: bool,
    /// Whether the entry is a directory.
    pub is_dir: bool,
}

/// An entry as plain values.
pub struct EntryView {
    pub name: Seq<char>,
    pub depth: usize,
    pub exists: bool,
    pub is_dir: bool,
}

impl View for LocalEntry {
    type V = EntryView;

    open spec fn view(&self) -> EntryView {
        EntryView { name: self.name@, depth: self.depth, exists: self.exists, is_dir: self.is_dir }
    }
}

impl DeepView for LocalEntry {
    type V = EntryView;

    open spec fn deep_view(&self) -> EntryView {
        self@
    }
}

/// Whether an entry of this name is hidden or belongs to the system: its
/// name begins with `.` or with `$RECYCLE`.
pub open spec fn spec_is_hidden(name: Seq<char>) -> bool {
    "."@.is_prefix_of(name) || "$RECYCLE"@.is_prefix_of(name)
}

/// Whether reconciliation removes `entry`: it is a direct child of the
/// destination, not hidden, not a directory, still there, and no wallpaper
/// of the run was stored under its name.
pub open spec fn spec_is_stale(seen: Set<Seq<char>>, entry: EntryView) -> bool {
    &&& entry.depth == 1
    &&& !spec_is_hidden(entry.name)
    &&& !seen.contains(entry.name)
    &&& entry.exists
    &&& !entry.is_dir
}

/// The paths of the stale entries among `entries`, in their order.
pub open spec fn spec_stale_paths(
    dir: Seq<char>,
    seen: Set<Seq<char>>,
    entries: Seq<EntryView>,
) -> Seq<Seq<char>>
    decreases entries.len(),
{
    if entries.len() == 0 {
        Seq::empty()
    } else {
        let before = spec_stale_paths(dir, seen, entries.drop_last());
        if spec_is_stale(seen, entries.last()) {
            before.push(spec_file_path(dir, entries.last().name))
        } else {
            before
        }
    }
}

/// Whether `path` is the path of a stale entry among `entries`.
pub open spec fn spec_is_stale_path(
    dir: Seq<char>,
    seen: Set<Seq<char>>,
    entries: Seq<EntryView>,
    path: Seq<char>,
) -> bool {
    exists|j: int|
        0 <= j < entries.len() && spec_is_stale(seen, #[trigger] entries[j]) && path
            == spec_file_path(dir, entries[j].name)
}

/// Every path chosen for removal is that of a stale entry, and the path of
/// every stale entry is chosen.
pub proof fn lemma_stale_paths(dir: Seq<char>, seen: Set<Seq<char>>, entries: Seq<EntryView>)
    ensures
        forall|i: int|
            0 <= i < spec_stale_paths(dir, seen, entries).len() ==> spec_is_stale_path(
                dir,
                seen,
                entries,
                #[trigger] spec_stale_paths(dir, seen, entries)[i],
            ),
        forall|j: int|
            0 <= j < entries.len() && spec_is_stale(seen, #[trigger] entries[j])
                ==> spec_stale_paths(dir, seen, entries).contains(
                spec_file_path(dir, entries[j].name),
            ),
    decreases entries.len(),
{
    let paths = spec_stale_paths(dir, seen, entries);
    if entries.len() > 0 {
        let init = entries.drop_last();
        let before = spec_stale_paths(dir, seen, init);
        lemma_stale_paths(dir, seen, init);
        assert forall|i: int| 0 <= i < paths.len() implies spec_is_stale_path(
            dir,
            seen,
            entries,
            #[trigger] paths[i],
        ) by {
            if i < before.len() {
                assert(paths[i] == before[i]);
                assert(spec_is_stale_path(dir, seen, init, before[i]));
                let j = choose|j: int|
                    0 <= j < init.len() && spec_is_stale(seen, #[trigger] init[j]) && before[i]
                        == spec_file_path(dir, init[j].name);
                assert(entries[j] == init[j]);
            } else {
                assert(spec_is_stale(seen, entries[entries.len() - 1]));
            }
        }
        assert forall|j: int|
            0 <= j < entries.len() && spec_is_stale(seen, #[trigger] entries[j]) implies paths.contains(
            spec_file_path(dir, entries[j].name),
        ) by {
            if j < init.len() {
                assert(entries[j] == init[j]);
                let i = choose|i: int|
                    0 <= i < before.len() && before[i] == spec_file_path(dir, init[j].name);
                assert(paths[i] == before[i]);
            } else {
                assert(paths[paths.len() - 1] == spec_file_path(dir, entries[j].name));
            }
        }
    }
}

/// Tells whether an entry of this name is hidden or belongs to the system.
pub fn is_hidden(name: &str) -> (hidden: bool)
    ensures
        hidden == spec_is_hidden(name@),
{
    starts_with(name, ".") || starts_with(name, "$RECYCLE")
}

/// Tells whether reconciliation removes `entry`.
pub fn is_stale(seen: &StringHashSet, entry: &LocalEntry) -> (stale: bool)
    ensures
        stale == spec_is_stale(seen@, entry@),
{
    entry.depth == 1 && !is_hidden(entry.name.as_str()) && !seen.contains(entry.name.as_str())
        && entry.exists && !entry.is_dir
}

/// Chooses the files to remove from the destination directory `dir`: the
/// stale ones among `entries`, by their paths and in their order. Nothing
/// else is ever chosen: no directory, no hidden or system entry, no entry
/// whose name is in `seen`, and not the destination itself.
pub fn stale_paths(dir: &str, seen: &StringHashSet, entries: &Vec<LocalEntry>) -> (paths: Vec<
    String,
>)
    ensures
        paths.deep_view() == spec_stale_paths(dir@, seen@, entries.deep_view()),
        forall|i: int|
            0 <= i < paths.len() ==> spec_is_stale_path(
                dir@,
                seen@,
                entries.deep_view(),
                #[trigger] paths[i]@,
            ),
{
    let mut paths: Vec<String> = Vec::new();
    let mut i: usize = 0;
    assert(entries.deep_view().take(0) =~= Seq::empty());
    assert(paths.deep_view() =~= Seq::empty());
    while i < entries.len()
        invariant
            i <= entries.len(),
            paths.deep_view() == spec_stale_paths(dir@, seen@, entries.deep_view().take(i as int)),
        decreases entries.len() - i,
    {
        let ghost before = paths.deep_view();
        assert(entries.deep_view().take(i + 1).drop_last() =~= entries.deep_view().take(i as int));
        assert(entries.deep_view().take(i + 1).last() == entries[i as int]@);
        if is_stale(seen, &entries[i]) {
            let path = file_path(dir, entries[i].name.as_str());
            paths.push(path);
            assert(paths.deep_view() =~= before.push(spec_file_path(dir@, entries[i as int].name@)));
        }
        i += 1;
    }
    proof {
        assert(entries.deep_view().take(i as int) =~= entries.deep_view());
        lemma_stale_paths(dir@, seen@, entries.deep_view());
        assert forall|k: int| 0 <= k < paths.len() implies spec_is_stale_path(
            dir@,
            seen@,
            entries.deep_view(),
            #[trigger] paths[k]@,
        ) by {
            assert(paths.deep_view()[k] == paths[k]@);
        }
    }
    paths
}

} // verus!
