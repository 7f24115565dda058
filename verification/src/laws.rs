//! What holds of the explorer whatever the inputs and whatever the
//! filesystem.

use crate::file::{EntryView, FileView};
use crate::input::{event_input, recognized, Input, RawEvent};
use crate::listing::{
    child, entry_order, lemma_listing_len, lemma_sort_by_entry_order, listing, parent_entry,
};
use crate::model::{toggled, ExplorerView, Filesystem};
use crate::order::{lemma_path_order_total, path_order};
use crate::theme::ThemeView;
use vstd::prelude::*;
use vstd::relations::sorted_by;

verus! {

/// Whether an input moves the cursor and does nothing else.
pub open spec fn is_cursor_move(input: Input) -> bool {
    input == Input::Up || input == Input::Down
}

/// An explorer starts in a state that an explorer can be in.
pub proof fn lemma_started_wf(dir: Seq<Seq<char>>, entries: Seq<EntryView>, theme: ThemeView)
    ensures
        ExplorerView::started(dir, entries, theme).wf(),
{
    lemma_listing_len(dir, entries);
}

/// Every input takes a state that an explorer can be in to another such
/// state.
pub proof fn lemma_apply_keeps_wf(state: ExplorerView, input: Input, fs: Filesystem)
    requires
        state.wf(),
    ensures
        state.apply(input, fs).wf(),
{
    match state.target(input) {
        Some(dir) => {
            lemma_listing_len(dir, fs(dir));
        },
        None => {
            if input == Input::Space && state.current() is Some && !state.on_parent_entry() {
                lemma_toggled(state.selected, state.current()->0.path);
            }
        },
    }
}

/// Toggling a path keeps every other path as it was and turns the
/// membership of the path itself around. The paths stay in the order of
/// paths, none of them twice.
pub proof fn lemma_toggled(selected: Seq<Seq<Seq<char>>>, path: Seq<Seq<char>>)
    requires
        sorted_by(selected, path_order()),
        selected.no_duplicates(),
    ensures
        sorted_by(toggled(selected, path), path_order()),
        toggled(selected, path).no_duplicates(),
        toggled(selected, path).contains(path) == !selected.contains(path),
        forall|other: Seq<Seq<char>>|
            other != path ==> (#[trigger] toggled(selected, path).contains(other)
                == selected.contains(other)),
        toggled(selected, path).to_multiset() == if selected.contains(path) {
            selected.to_multiset().remove(path)
        } else {
            selected.to_multiset().insert(path)
        },
{
    broadcast use vstd::multiset::group_multiset_axioms;

    let after = toggled(selected, path);
    selected.to_multiset_ensures();
    after.to_multiset_ensures();
    selected.lemma_multiset_has_no_duplicates();
    if selected.contains(path) {
        selected.index_of_first_ensures(path);
        let i = selected.index_of_first(path)->0;
        assert(after == selected.remove(i));
        assert forall|j: int, k: int| 0 <= j < k < after.len() implies #[trigger] path_order()(
            after[j],
            after[k],
        ) by {
            let old_j = if j < i { j } else { j + 1 };
            let old_k = if k < i { k } else { k + 1 };
            assert(path_order()(selected[old_j], selected[old_k]));
        }
    } else {
        lemma_path_order_total();
        selected.push(path).lemma_sort_by_ensures(path_order());
        vstd::seq_lib::to_multiset_build(selected, path);
    }
    let counts = after.to_multiset();
    assert forall|x: Seq<Seq<char>>| counts.contains(x) implies counts.count(x) == 1 by {
        if x != path {
            assert(selected.to_multiset().contains(x));
        }
    }
    after.lemma_multiset_has_no_duplicates_conv();
    assert forall|other: Seq<Seq<char>>| other != path implies (#[trigger] after.contains(other)
        == selected.contains(other)) by {
        assert(after.to_multiset().count(other) == selected.to_multiset().count(other));
    }
    assert(after.to_multiset().count(path) > 0 <==> !selected.contains(path));
}

/// Through any sequence of `Up` and `Down` the cursor stays on an entry of
/// the listing, and nothing but the cursor changes.
pub proof fn lemma_cursor_stays_in_listing(state: ExplorerView, inputs: Seq<Input>, fs: Filesystem)
    requires
        state.wf(),
        forall|i: int| 0 <= i < inputs.len() ==> is_cursor_move(#[trigger] inputs[i]),
    ensures
        state.apply_all(inputs, fs) == (ExplorerView {
            cursor: state.apply_all(inputs, fs).cursor,
            ..state
        }),
        state.apply_all(inputs, fs).wf(),
        state.files.len() > 0 ==> 0 <= state.apply_all(inputs, fs).cursor < state.files.len(),
        state.files.len() == 0 ==> state.apply_all(inputs, fs).cursor == 0,
    decreases inputs.len(),
{
    if inputs.len() > 0 {
        lemma_cursor_stays_in_listing(state, inputs.drop_last(), fs);
    }
}

/// The cursor stops at the ends of the listing: `Up` on the first entry and
/// `Down` on the last leave it where it is. Everywhere else they move it by
/// one.
pub proof fn lemma_cursor_saturates(state: ExplorerView, fs: Filesystem)
    requires
        state.wf(),
    ensures
        state.cursor == 0 ==> state.apply(Input::Up, fs) == state,
        state.cursor > 0 ==> state.apply(Input::Up, fs).cursor == state.cursor - 1,
        state.cursor + 1 >= state.files.len() ==> state.apply(Input::Down, fs) == state,
        state.cursor + 1 < state.files.len() ==> state.apply(Input::Down, fs).cursor
            == state.cursor + 1,
{
}

/// The cursor and the selection do not bear on each other: `Space` leaves the
/// cursor where it is, and changes nothing but the selection; `Up` and `Down`
/// leave the selection as it is.
pub proof fn lemma_cursor_and_selection_are_independent(state: ExplorerView, fs: Filesystem)
    ensures
        state.apply(Input::Space, fs) == (ExplorerView {
            selected: state.apply(Input::Space, fs).selected,
            ..state
        }),
        state.apply(Input::Up, fs).selected == state.selected,
        state.apply(Input::Down, fs).selected == state.selected,
{
}

/// `Space` twice on one entry, with nothing between, leaves the state as it
/// was in every respect.
pub proof fn lemma_space_twice(state: ExplorerView, fs: Filesystem)
    requires
        state.wf(),
    ensures
        state.apply(Input::Space, fs).apply(Input::Space, fs) == state,
{
    broadcast use vstd::multiset::group_multiset_axioms;

    if state.current() is Some && !state.on_parent_entry() {
        let path = state.current()->0.path;
        let once = toggled(state.selected, path);
        let twice = toggled(once, path);
        lemma_toggled(state.selected, path);
        lemma_toggled(once, path);
        state.selected.to_multiset_ensures();
        assert(twice.to_multiset() =~= state.selected.to_multiset());
        lemma_path_order_total();
        vstd::seq_lib::lemma_sorted_unique(twice, state.selected, path_order());
    }
}

/// `Space` on the entry for the parent, or on an empty listing, changes
/// nothing.
pub proof fn lemma_space_without_effect(state: ExplorerView, fs: Filesystem)
    requires
        state.on_parent_entry() || state.files.len() == 0,
    ensures
        state.apply(Input::Space, fs) == state,
{
}

/// A child of a directory is listed in it: every entry that a directory
/// holds has its file in the listing, and the listing of a directory other
/// than the root begins with the entry for the parent.
pub proof fn lemma_listing_holds(dir: Seq<Seq<char>>, entries: Seq<EntryView>, entry: EntryView)
    requires
        entries.contains(entry),
    ensures
        listing(dir, entries).contains(child(dir, entry)),
        dir.len() > 0 ==> listing(dir, entries)[0] == (FileView {
            path: dir.drop_last(),
            is_dir: true,
        }),
{
    lemma_sort_by_entry_order(entries);
    let sorted = entries.sort_by(entry_order());
    sorted.to_multiset_ensures();
    entries.to_multiset_ensures();
    assert(entries.to_multiset().count(entry) > 0);
    assert(sorted.to_multiset().count(entry) > 0);
    assert(sorted.contains(entry));
    let k = choose|k: int| 0 <= k < sorted.len() && sorted[k] == entry;
    let files = sorted.map_values(|e: EntryView| child(dir, e));
    assert(files[k] == child(dir, entry));
    assert(listing(dir, entries)[parent_entry(dir).len() + k] == child(dir, entry));
}

/// After `Left`, `Right` on the entry of the directory that was left leads
/// back into it: the current directory is the one from before, and so is the
/// listing, entry for entry. The cursor is on the first entry.
pub proof fn lemma_left_then_right(state: ExplorerView, back: int, fs: Filesystem)
    requires
        state.wf(),
        state.cwd.len() > 0,
        state.files == listing(state.cwd, fs(state.cwd)),
        0 <= back < state.apply(Input::Left, fs).files.len(),
        state.apply(Input::Left, fs).files[back] == (FileView { path: state.cwd, is_dir: true }),
    ensures
        state.apply(Input::Left, fs).cwd == state.cwd.drop_last(),
        state.apply(Input::Left, fs).files == listing(
            state.cwd.drop_last(),
            fs(state.cwd.drop_last()),
        ),
        (ExplorerView { cursor: back, ..state.apply(Input::Left, fs) }).apply(Input::Right, fs)
            == (ExplorerView { cursor: 0, ..state }),
{
}

/// The directory that was left with `Left` is an entry of its parent's
/// listing as long as the parent still holds it.
pub proof fn lemma_way_back_is_listed(state: ExplorerView, fs: Filesystem)
    requires
        state.wf(),
        state.cwd.len() > 0,
        fs(state.cwd.drop_last()).contains(EntryView { name: state.cwd.last(), is_dir: true }),
    ensures
        state.apply(Input::Left, fs).files.contains(FileView { path: state.cwd, is_dir: true }),
{
    let parent = state.cwd.drop_last();
    let entry = EntryView { name: state.cwd.last(), is_dir: true };
    lemma_listing_holds(parent, fs(parent), entry);
    assert(parent.push(state.cwd.last()) =~= state.cwd);
}

/// Only `Space` changes the selection: through any sequence of other inputs,
/// whatever directories they lead through, the same paths stay selected.
pub proof fn lemma_selection_survives_navigation(
    state: ExplorerView,
    inputs: Seq<Input>,
    fs: Filesystem,
)
    requires
        forall|i: int| 0 <= i < inputs.len() ==> #[trigger] inputs[i] != Input::Space,
    ensures
        state.apply_all(inputs, fs).selected == state.selected,
    decreases inputs.len(),
{
    if inputs.len() > 0 {
        lemma_selection_survives_navigation(state, inputs.drop_last(), fs);
    }
}

/// A path that is selected is still selected after leaving its directory and
/// coming back by any way that does not toggle it.
pub proof fn lemma_selected_path_stays(
    state: ExplorerView,
    inputs: Seq<Input>,
    fs: Filesystem,
)
    requires
        state.wf(),
        state.current() is Some,
        !state.on_parent_entry(),
        !state.selected.contains(state.current()->0.path),
        forall|i: int| 0 <= i < inputs.len() ==> #[trigger] inputs[i] != Input::Space,
    ensures
        state.apply(Input::Space, fs).apply_all(inputs, fs).selected.contains(
            state.current()->0.path,
        ),
{
    lemma_toggled(state.selected, state.current()->0.path);
    lemma_selection_survives_navigation(state.apply(Input::Space, fs), inputs, fs);
}

/// The theme bears on no transition: an input does to a state with another
/// theme what it does to the state, and leaves the theme as it is.
pub proof fn lemma_theme_bears_on_no_transition(
    state: ExplorerView,
    theme: ThemeView,
    input: Input,
    fs: Filesystem,
)
    ensures
        (ExplorerView { theme, ..state }).apply(input, fs) == (ExplorerView {
            theme,
            ..state.apply(input, fs)
        }),
{
}

/// An event that is no stroke of a key that navigation reads changes
/// nothing.
pub proof fn lemma_unrecognized_event_changes_nothing(
    state: ExplorerView,
    event: RawEvent,
    fs: Filesystem,
)
    requires
        !recognized(event),
    ensures
        event_input(event) == Input::Ignored,
        state.apply(event_input(event), fs) == state,
{
}

} // verus!
