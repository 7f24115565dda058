//! The explorer as a mathematical state machine: what a state is, and what
//! each input makes of it.
//!
//! Reading a directory is the host's work. A transition that changes the
//! directory is therefore split in two: [`ExplorerView::target`] names the
//! directory to read, and [`ExplorerView::entered`] is the state once its
//! entries are known. [`ExplorerView::apply`] puts the two together over a
//! filesystem given as a function from directories to their entries.

use crate::file::{EntryView, FileView};
use crate::input::Input;
use crate::listing::{is_listing, listing};
use crate::order::path_order;
use crate::theme::ThemeView;
use vstd::prelude::*;
use vstd::relations::sorted_by;

verus! {

/// A filesystem as the explorer sees it: the entries of every directory. A
/// directory that cannot be read has none.
pub type Filesystem = spec_fn(Seq<Seq<char>>) -> Seq<EntryView>;

/// The paths `selected` with `path` taken out if it was among them, and put
/// in at its place in the order of paths if it was not.
pub open spec fn toggled(selected: Seq<Seq<Seq<char>>>, path: Seq<Seq<char>>) -> Seq<
    Seq<Seq<char>>,
> {
    if selected.contains(path) {
        selected.remove_value(path)
    } else {
        selected.push(path).sort_by(path_order())
    }
}

/// The state of an explorer.
pub ghost struct ExplorerView {
    /// The current directory.
    pub cwd: Seq<Seq<char>>,
    /// The listing of the current directory.
    pub files: Seq<FileView>,
    /// The index of the entry under the cursor; 0 where the listing is empty.
    pub cursor: int,
    /// The selected paths, each of them once, in the order of paths. The
    /// order says nothing of when a path was selected: the selection is a
    /// set.
    pub selected: Seq<Seq<Seq<char>>>,
    /// The look of the explorer.
    pub theme: ThemeView,
}

impl ExplorerView {
    /// The state of an explorer that was started in the directory `dir` that
    /// holds `entries`: the cursor is on the first entry of the listing, and
    /// nothing is selected.
    pub open spec fn started(
        dir: Seq<Seq<char>>,
        entries: Seq<EntryView>,
        theme: ThemeView,
    ) -> ExplorerView {
        ExplorerView {
            cwd: dir,
            files: listing(dir, entries),
            cursor: 0,
            selected: Seq::empty(),
            theme,
        }
    }

    /// Whether the state is one that an explorer can be in: the listing is
    /// that of the current directory for some entries, the cursor is on an
    /// entry of it unless it is empty, and the selected paths are in the
    /// order of paths, none of them twice.
    pub open spec fn wf(self) -> bool {
        &&& is_listing(self.cwd, self.files)
        &&& 0 <= self.cursor
        &&& self.cursor < self.files.len() || (self.files.len() == 0 && self.cursor == 0)
        &&& sorted_by(self.selected, path_order())
        &&& self.selected.no_duplicates()
    }

    /// Whether the cursor is on the entry that leads to the parent.
    pub open spec fn on_parent_entry(self) -> bool {
        self.cwd.len() > 0 && self.cursor == 0
    }

    /// The entry under the cursor, where the listing has one.
    pub open spec fn current(self) -> Option<FileView> {
        if 0 <= self.cursor < self.files.len() {
            Some(self.files[self.cursor])
        } else {
            None
        }
    }

    /// The directory that an input leads to, where it leads to one: `Left` to
    /// the parent of the current directory unless that is the root, `Right`
    /// to the entry under the cursor where that is a directory.
    pub open spec fn target(self, input: Input) -> Option<Seq<Seq<char>>> {
        match input {
            Input::Left => if self.cwd.len() > 0 {
                Some(self.cwd.drop_last())
            } else {
                None
            },
            Input::Right => match self.current() {
                Some(file) => if file.is_dir {
                    Some(file.path)
                } else {
                    None
                },
                None => None,
            },
            _ => None,
        }
    }

    /// The state after an input that stays in the current directory. `Up` and
    /// `Down` move the cursor by one entry and stop at the ends of the
    /// listing. `Space` toggles the selection of the path under the cursor,
    /// unless the cursor is on the entry for the parent or the listing is
    /// empty. Every other input leaves the state as it is.
    pub open spec fn moved(self, input: Input) -> ExplorerView {
        match input {
            Input::Up => ExplorerView {
                cursor: if self.cursor > 0 {
                    self.cursor - 1
                } else {
                    self.cursor
                },
                ..self
            },
            Input::Down => ExplorerView {
                cursor: if self.cursor + 1 < self.files.len() {
                    self.cursor + 1
                } else {
                    self.cursor
                },
                ..self
            },
            Input::Space => match self.current() {
                Some(file) => if self.on_parent_entry() {
                    self
                } else {
                    ExplorerView { selected: toggled(self.selected, file.path), ..self }
                },
                None => self,
            },
            _ => self,
        }
    }

    /// The state after entering the directory `dir` that holds `entries`: the
    /// listing is rebuilt from them and the cursor goes to its first entry,
    /// on the way down as on the way up; the place that the cursor had in a
    /// directory is not kept. The selection and the theme stay.
    pub open spec fn entered(self, dir: Seq<Seq<char>>, entries: Seq<EntryView>) -> ExplorerView {
        ExplorerView { cwd: dir, files: listing(dir, entries), cursor: 0, ..self }
    }

    /// The state after an input, over the filesystem `fs`.
    pub open spec fn apply(self, input: Input, fs: Filesystem) -> ExplorerView {
        match self.target(input) {
            Some(dir) => self.entered(dir, fs(dir)),
            None => self.moved(input),
        }
    }

    /// The state after a sequence of inputs, over the filesystem `fs`.
    pub open spec fn apply_all(self, inputs: Seq<Input>, fs: Filesystem) -> ExplorerView
        decreases inputs.len(),
    {
        if inputs.len() == 0 {
            self
        } else {
            self.apply_all(inputs.drop_last(), fs).apply(inputs.last(), fs)
        }
    }
}

} // verus!
