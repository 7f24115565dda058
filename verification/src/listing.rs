//! The directory model: from the entries of a directory to its listing.

use crate::file::{entry_views, file_views, DirEntry, DirectoryRead, EntryView, File, FileView};
use crate::order::{
    lemma_name_le_antisymmetric, lemma_name_le_reflexive, lemma_name_le_total,
    lemma_name_le_transitive, name_comes_first, name_le,
};
use crate::path::AbsPath;
use vstd::prelude::*;
use vstd::relations::{sorted_by, total_ordering};

verus! {

/// Whether entry `a` is listed before or with entry `b`: directories before
/// files, and within each group by name.
pub open spec fn entry_le(a: EntryView, b: EntryView) -> bool {
    if a.is_dir == b.is_dir {
        name_le(a.name, b.name)
    } else {
        a.is_dir
    }
}

/// The order of a listing, as a relation.
pub open spec fn entry_order() -> spec_fn(EntryView, EntryView) -> bool {
    |a: EntryView, b: EntryView| entry_le(a, b)
}

/// The file that an entry of the directory `dir` is listed as.
pub open spec fn child(dir: Seq<Seq<char>>, entry: EntryView) -> FileView {
    FileView { path: dir.push(entry.name), is_dir: entry.is_dir }
}

/// The entry that leads to the parent of `dir`; the root has none.
pub open spec fn parent_entry(dir: Seq<Seq<char>>) -> Seq<FileView> {
    if dir.len() == 0 {
        Seq::empty()
    } else {
        seq![FileView { path: dir.drop_last(), is_dir: true }]
    }
}

/// The listing of the directory `dir` that holds `entries`: the entry for
/// the parent, then the directories by name, then the files by name.
pub open spec fn listing(dir: Seq<Seq<char>>, entries: Seq<EntryView>) -> Seq<FileView> {
    parent_entry(dir) + entries.sort_by(entry_order()).map_values(
        |entry: EntryView| child(dir, entry),
    )
}

/// Whether `files` is the listing of the directory `dir` for some entries.
pub open spec fn is_listing(dir: Seq<Seq<char>>, files: Seq<FileView>) -> bool {
    exists|entries: Seq<EntryView>| files == listing(dir, entries)
}

/// The order of a listing is a total order.
pub proof fn lemma_entry_order_total()
    ensures
        total_ordering(entry_order()),
{
    let order = entry_order();
    assert forall|a: EntryView| #[trigger] order(a, a) by {
        lemma_name_le_reflexive(a.name);
    }
    assert forall|a: EntryView, b: EntryView| #[trigger] order(a, b) && #[trigger] order(
        b,
        a,
    ) implies a == b by {
        lemma_name_le_antisymmetric(a.name, b.name);
    }
    assert forall|a: EntryView, b: EntryView, c: EntryView| #[trigger] order(a, b)
        && #[trigger] order(b, c) implies order(a, c) by {
        if a.is_dir == b.is_dir && b.is_dir == c.is_dir {
            lemma_name_le_transitive(a.name, b.name, c.name);
        }
    }
    assert forall|a: EntryView, b: EntryView| #[trigger] order(a, b) || #[trigger] order(b, a) by {
        lemma_name_le_total(a.name, b.name);
    }
}

/// Sorting changes the order of the entries and nothing else: the sorted
/// entries are in the order of a listing, and each entry is among them as
/// often as it was before.
pub proof fn lemma_sort_by_entry_order(entries: Seq<EntryView>)
    ensures
        sorted_by(entries.sort_by(entry_order()), entry_order()),
        entries.sort_by(entry_order()).to_multiset() == entries.to_multiset(),
        entries.sort_by(entry_order()).len() == entries.len(),
{
    lemma_entry_order_total();
    entries.lemma_sort_by_ensures(entry_order());
    entries.to_multiset_ensures();
    entries.sort_by(entry_order()).to_multiset_ensures();
}

/// Entries in the order of a listing that hold what `entries` holds are
/// `entries` sorted.
pub proof fn lemma_sorted_is_sort(sorted: Seq<EntryView>, entries: Seq<EntryView>)
    requires
        sorted_by(sorted, entry_order()),
        sorted.to_multiset() == entries.to_multiset(),
    ensures
        sorted == entries.sort_by(entry_order()),
{
    lemma_entry_order_total();
    crate::order::lemma_sorted_is_sort(sorted, entries, entry_order());
}

/// Whether entry `a` is listed before or with entry `b`.
pub fn entry_comes_first(a: &DirEntry, b: &DirEntry) -> (first: bool)
    ensures
        first == entry_le(a@, b@),
{
    if a.is_dir == b.is_dir {
        name_comes_first(a.name.as_str(), b.name.as_str())
    } else {
        a.is_dir
    }
}

/// Where to put `entry` among `sorted`: behind every entry that is listed
/// before or with it, and in front of every other.
fn insertion_point(sorted: &Vec<DirEntry>, entry: &DirEntry) -> (at: usize)
    requires
        sorted_by(entry_views(sorted@), entry_order()),
    ensures
        at <= sorted.len(),
        forall|k: int| 0 <= k < at ==> entry_le(#[trigger] sorted[k]@, entry@),
        forall|k: int| at <= k < sorted.len() ==> !entry_le(#[trigger] sorted[k]@, entry@),
{
    let ghost views = entry_views(sorted@);
    let mut low: usize = 0;
    let mut high: usize = sorted.len();
    while low < high
        invariant
            low <= high <= sorted.len(),
            views == entry_views(sorted@),
            sorted_by(views, entry_order()),
            forall|k: int| 0 <= k < low ==> entry_le(#[trigger] sorted[k]@, entry@),
            forall|k: int| high <= k < sorted.len() ==> !entry_le(#[trigger] sorted[k]@, entry@),
        decreases high - low,
    {
        let middle: usize = low + (high - low) / 2;
        proof {
            lemma_entry_order_total();
        }
        if entry_comes_first(&sorted[middle], entry) {
            assert forall|k: int| 0 <= k < middle + 1 implies entry_le(
                #[trigger] sorted[k]@,
                entry@,
            ) by {
                if k < middle {
                    assert(entry_order()(views[k], views[middle as int]));
                    assert(entry_order()(views[middle as int], entry@));
                }
            }
            low = middle + 1;
        } else {
            assert forall|k: int| middle <= k < sorted.len() implies !entry_le(
                #[trigger] sorted[k]@,
                entry@,
            ) by {
                if k > middle && entry_le(sorted[k]@, entry@) {
                    assert(entry_order()(views[middle as int], views[k]));
                    assert(entry_order()(views[k], entry@));
                }
            }
            high = middle;
        }
    }
    low
}

/// The entries in the order of a listing.
pub fn sort_entries(entries: &Vec<DirEntry>) -> (sorted: Vec<DirEntry>)
    ensures
        entry_views(sorted@) == entry_views(entries@).sort_by(entry_order()),
{
    let n: usize = entries.len();
    let mut sorted: Vec<DirEntry> = Vec::new();
    let mut i: usize = 0;
    assert(entry_views(entries@).take(0) =~= entry_views(sorted@));
    while i < n
        invariant
            n == entries.len(),
            i <= n,
            sorted.len() == i,
            sorted_by(entry_views(sorted@), entry_order()),
            entry_views(sorted@).to_multiset() == entry_views(entries@).take(
                i as int,
            ).to_multiset(),
        decreases n - i,
    {
        let entry: DirEntry = entries[i].clone();
        let at: usize = insertion_point(&sorted, &entry);
        let ghost before = entry_views(sorted@);
        proof {
            let after = before.insert(at as int, entry@);
            lemma_entry_order_total();
            assert forall|j: int, k: int| 0 <= j < k < after.len() implies #[trigger] entry_order()(
                after[j],
                after[k],
            ) by {
                if j == at {
                    assert(entry_order()(entry@, before[k - 1]) || entry_order()(
                        before[k - 1],
                        entry@,
                    ));
                }
            }
            vstd::seq_lib::to_multiset_insert(before, at as int, entry@);
            let all = entry_views(entries@);
            assert(all.take(i + 1) =~= all.take(i as int).push(entry@));
            vstd::seq_lib::to_multiset_build(all.take(i as int), entry@);
        }
        sorted.insert(at, entry);
        assert(entry_views(sorted@) =~= before.insert(at as int, entry@));
        i += 1;
    }
    proof {
        assert(entry_views(entries@).take(n as int) =~= entry_views(entries@));
        lemma_sorted_is_sort(entry_views(sorted@), entry_views(entries@));
    }
    sorted
}

/// The listing of a directory does not depend on the order in which the
/// filesystem gave its entries.
pub proof fn lemma_listing_ignores_enumeration_order(
    dir: Seq<Seq<char>>,
    first: Seq<EntryView>,
    second: Seq<EntryView>,
)
    requires
        first.to_multiset() == second.to_multiset(),
    ensures
        listing(dir, first) == listing(dir, second),
{
    lemma_entry_order_total();
    first.lemma_sort_by_ensures(entry_order());
    lemma_sorted_is_sort(first.sort_by(entry_order()), second);
}

/// A listing holds the entry for the parent, where there is one, and one
/// file for each entry of the directory.
pub proof fn lemma_listing_len(dir: Seq<Seq<char>>, entries: Seq<EntryView>)
    ensures
        listing(dir, entries).len() == parent_entry(dir).len() + entries.len(),
        dir.len() > 0 ==> listing(dir, entries).len() > 0,
{
    lemma_sort_by_entry_order(entries);
}

/// The listing of the directory `dir`, from the outcome of reading it. Where
/// the read failed, the listing holds the entry for the parent alone.
pub fn list(dir: &AbsPath, read: &DirectoryRead) -> (files: Vec<File>)
    ensures
        file_views(files@) == listing(dir@, read.entries()),
{
    let mut files: Vec<File> = Vec::new();
    if let Some(parent) = dir.parent() {
        files.push(File::new(parent, true));
    }
    match read {
        DirectoryRead::Entries(entries) => {
            let sorted: Vec<DirEntry> = sort_entries(entries);
            let ghost views = entry_views(sorted@);
            let n: usize = sorted.len();
            let mut i: usize = 0;
            while i < n
                invariant
                    n == sorted.len(),
                    i <= n,
                    views == entry_views(sorted@),
                    file_views(files@) == parent_entry(dir@) + views.take(i as int).map_values(
                        |entry: EntryView| child(dir@, entry),
                    ),
                decreases n - i,
            {
                let path: AbsPath = dir.join(sorted[i].name.as_str());
                let ghost before = file_views(files@);
                files.push(File::new(path, sorted[i].is_dir));
                assert(file_views(files@) =~= before.push(child(dir@, views[i as int])));
                i += 1;
            }
        },
        _ => {
            assert(read.entries().sort_by(entry_order()) =~= Seq::<EntryView>::empty()) by {
                lemma_sort_by_entry_order(read.entries());
            }
        },
    }
    files
}

} // verus!
