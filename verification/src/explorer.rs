//! The explorer: a current directory, its listing, a cursor and a selection.

use crate::file::{file_views, DirectoryRead, File};
use crate::input::Input;
use crate::listing::{lemma_listing_len, list, listing};
use crate::laws::lemma_toggled;
use crate::model::ExplorerView;
use crate::order::{
    lemma_path_order_total, lemma_sorted_is_sort, path_comes_first, path_le, path_order,
};
use crate::path::AbsPath;
use crate::theme::{Theme, ThemeView};
use vstd::prelude::*;
use vstd::relations::sorted_by;
use vstd::string::StringExecFns;

verus! {

/// Why an explorer could not be started.
#[derive(Clone, Copy, Debug, PartialEq, Eq, Structural)]
pub enum InitializationError {
    /// Nothing exists at the starting path.
    NotFound,
    /// The starting path is no directory.
    NotADirectory,
}

impl InitializationError {
    /// What went wrong, in words.
    pub fn message(&self) -> (text: String)
        ensures
            text@ == match self {
                InitializationError::NotFound => "the starting path does not exist"@,
                InitializationError::NotADirectory => "the starting path is not a directory"@,
            },
    {
        match self {
            InitializationError::NotFound => String::from_str("the starting path does not exist"),
            InitializationError::NotADirectory => String::from_str(
                "the starting path is not a directory",
            ),
        }
    }
}

/// What each path of a sequence stands for.
pub open spec fn path_views(paths: Seq<AbsPath>) -> Seq<Seq<Seq<char>>> {
    paths.map_values(|path: AbsPath| path@)
}

/// The state of a file explorer.
///
/// The explorer never reads the filesystem itself. [`FileExplorer::handle`]
/// answers an input that changes the directory with the directory to read;
/// the host reads it and hands the outcome to [`FileExplorer::set_cwd`].
#[derive(Debug)]
pub struct FileExplorer {
    cwd: AbsPath,
    files: Vec<File>,
    cursor: usize,
    selected: Vec<AbsPath>,
    theme: Theme,
}

impl View for FileExplorer {
    type V = ExplorerView;

    closed spec fn view(&self) -> ExplorerView {
        ExplorerView {
            cwd: self.cwd@,
            files: file_views(self.files@),
            cursor: self.cursor as int,
            selected: path_views(self.selected@),
            theme: self.theme@,
        }
    }
}

/// The index of the first of `paths` that equals `path`.
fn position(paths: &Vec<AbsPath>, path: &AbsPath) -> (found: Option<usize>)
    ensures
        match found {
            Some(i) => {
                &&& i < paths.len()
                &&& path_views(paths@)[i as int] == path@
                &&& path_views(paths@).index_of_first(path@) == Some(i as int)
            },
            None => !path_views(paths@).contains(path@),
        },
{
    let n: usize = paths.len();
    let mut i: usize = 0;
    while i < n
        invariant
            n == paths.len(),
            i <= n,
            forall|k: int| 0 <= k < i ==> path_views(paths@)[k] != path@,
        decreases n - i,
    {
        if paths[i] == *path {
            proof {
                assert(path_views(paths@)[i as int] == path@);
                path_views(paths@).index_of_first_ensures(path@);
            }
            return Some(i);
        }
        i += 1;
    }
    None
}

/// Where to put `path` among `paths`: behind every path that comes before or
/// with it, and in front of every other.
fn insertion_point(paths: &Vec<AbsPath>, path: &AbsPath) -> (at: usize)
    ensures
        at <= paths.len(),
        forall|k: int| 0 <= k < at ==> path_le(#[trigger] path_views(paths@)[k], path@),
        at < paths.len() ==> !path_le(path_views(paths@)[at as int], path@),
{
    let mut at: usize = 0;
    while at < paths.len() && path_comes_first(&paths[at], path)
        invariant
            at <= paths.len(),
            forall|k: int| 0 <= k < at ==> path_le(#[trigger] path_views(paths@)[k], path@),
        decreases paths.len() - at,
    {
        at += 1;
    }
    at
}

/// A path that is put into sorted paths behind every path that comes before
/// or with it, and in front of one that does not, makes them the paths with
/// the new one added, sorted.
proof fn lemma_inserted_is_sorted(paths: Seq<Seq<Seq<char>>>, at: int, path: Seq<Seq<char>>)
    requires
        sorted_by(paths, path_order()),
        0 <= at <= paths.len(),
        forall|k: int| 0 <= k < at ==> path_le(#[trigger] paths[k], path),
        at < paths.len() ==> !path_le(paths[at], path),
    ensures
        paths.insert(at, path) == paths.push(path).sort_by(path_order()),
{
    let after = paths.insert(at, path);
    lemma_path_order_total();
    assert forall|j: int, k: int| 0 <= j < k < after.len() implies #[trigger] path_order()(
        after[j],
        after[k],
    ) by {
        if j == at {
            assert(path_order()(path, paths[at]) || path_order()(paths[at], path));
            if k - 1 > at {
                assert(path_order()(paths[at], paths[k - 1]));
            }
        }
    }
    vstd::seq_lib::to_multiset_insert(paths, at, path);
    vstd::seq_lib::to_multiset_build(paths, path);
    lemma_sorted_is_sort(after, paths.push(path), path_order());
}

impl FileExplorer {
    #[verifier::type_invariant]
    spec fn inv(&self) -> bool {
        self@.wf()
    }

    /// An explorer with the standard theme, started in the directory `path`,
    /// of which `read` is the outcome of reading it.
    pub fn new(path: AbsPath, read: DirectoryRead) -> (started: Result<
        FileExplorer,
        InitializationError,
    >)
        ensures
            match started {
                Ok(explorer) => {
                    &&& read.is_directory()
                    &&& explorer@ == ExplorerView::started(
                        path@,
                        read.entries(),
                        ThemeView::standard(),
                    )
                    &&& explorer@.wf()
                },
                Err(InitializationError::NotFound) => read is Missing,
                Err(InitializationError::NotADirectory) => read is NotADirectory,
            },
    {
        FileExplorer::with_theme(Theme::new(), path, read)
    }

    /// An explorer with the given theme, started in the directory `path`, of
    /// which `read` is the outcome of reading it. The cursor is on the first
    /// entry and nothing is selected. Where the entries of the directory
    /// could not be read, the listing holds the entry for the parent alone.
    pub fn with_theme(theme: Theme, path: AbsPath, read: DirectoryRead) -> (started: Result<
        FileExplorer,
        InitializationError,
    >)
        ensures
            match started {
                Ok(explorer) => {
                    &&& read.is_directory()
                    &&& explorer@ == ExplorerView::started(path@, read.entries(), theme@)
                    &&& explorer@.wf()
                },
                Err(InitializationError::NotFound) => read is Missing,
                Err(InitializationError::NotADirectory) => read is NotADirectory,
            },
    {
        match read {
            DirectoryRead::Missing => Err(InitializationError::NotFound),
            DirectoryRead::NotADirectory => Err(InitializationError::NotADirectory),
            _ => {
                let files: Vec<File> = list(&path, &read);
                let selected: Vec<AbsPath> = Vec::new();
                assert(path_views(selected@) =~= Seq::empty());
                Ok(FileExplorer { cwd: path, files, cursor: 0, selected, theme })
            },
        }
    }

    /// The current directory.
    pub fn cwd(&self) -> (cwd: &AbsPath)
        ensures
            cwd@ == self@.cwd,
    {
        &self.cwd
    }

    /// The listing of the current directory.
    pub fn files(&self) -> (files: &Vec<File>)
        ensures
            file_views(files@) == self@.files,
    {
        &self.files
    }

    /// The index of the entry under the cursor; 0 where the listing is empty.
    pub fn cursor(&self) -> (cursor: usize)
        ensures
            cursor == self@.cursor,
            self@.wf(),
    {
        proof {
            use_type_invariant(self);
        }
        self.cursor
    }

    /// The entry under the cursor; none where the listing is empty.
    pub fn current(&self) -> (current: Option<&File>)
        ensures
            match current {
                Some(file) => self@.current() == Some(file@),
                None => self@.current() is None,
            },
    {
        if self.cursor < self.files.len() {
            Some(&self.files[self.cursor])
        } else {
            None
        }
    }

    /// The selected paths, each of them once, in the order of paths.
    pub fn selected_paths(&self) -> (selected: &Vec<AbsPath>)
        ensures
            path_views(selected@) == self@.selected,
    {
        &self.selected
    }

    /// Whether a path is selected.
    pub fn is_selected(&self, path: &AbsPath) -> (selected: bool)
        ensures
            selected == self@.selected.contains(path@),
    {
        position(&self.selected, path).is_some()
    }

    /// The look of the explorer.
    pub fn theme(&self) -> (theme: &Theme)
        ensures
            theme@ == self@.theme,
    {
        &self.theme
    }

    /// Gives the explorer another look. Nothing else changes.
    pub fn set_theme(&mut self, theme: Theme)
        ensures
            final(self)@ == (ExplorerView { theme: theme@, ..old(self)@ }),
            final(self)@.wf(),
    {
        proof {
            use_type_invariant(&*self);
        }
        self.theme = theme;
    }

    /// Handles an input.
    ///
    /// An input that leads to another directory changes nothing yet: the
    /// directory is returned, for the host to read it and to call
    /// [`FileExplorer::set_cwd`] with the outcome. Every other input is
    /// applied at once, and nothing is returned.
    pub fn handle(&mut self, input: Input) -> (request: Option<AbsPath>)
        ensures
            match old(self)@.target(input) {
                Some(dir) => request is Some && request->0@ == dir && final(self)@ == old(self)@,
                None => request is None && final(self)@ == old(self)@.moved(input),
            },
            final(self)@.wf(),
    {
        proof {
            use_type_invariant(&*self);
        }
        match input {
            Input::Up => {
                if self.cursor > 0 {
                    self.cursor = self.cursor - 1;
                }
                None
            },
            Input::Down => {
                let n: usize = self.files.len();
                if self.cursor + 1 < n {
                    self.cursor = self.cursor + 1;
                }
                None
            },
            Input::Left => self.cwd.parent(),
            Input::Right => {
                if self.cursor < self.files.len() && self.files[self.cursor].is_dir() {
                    Some(self.files[self.cursor].path().clone())
                } else {
                    None
                }
            },
            Input::Space => {
                self.toggle();
                None
            },
            Input::Ignored => None,
        }
    }

    /// Moves the state out, and leaves an explorer at the root with nothing
    /// listed in its place.
    fn take(&mut self) -> (state: FileExplorer)
        ensures
            state@ == old(self)@,
            state@.wf(),
    {
        proof {
            use_type_invariant(&*self);
            lemma_listing_len(Seq::empty(), Seq::empty());
        }
        let files: Vec<File> = Vec::new();
        let selected: Vec<AbsPath> = Vec::new();
        assert(file_views(files@) =~= listing(Seq::empty(), Seq::empty()));
        let mut state = FileExplorer {
            cwd: AbsPath::root(),
            files,
            cursor: 0,
            selected,
            theme: Theme::new(),
        };
        std::mem::swap(self, &mut state);
        state
    }

    /// Toggles the selection of the path under the cursor.
    fn toggle(&mut self)
        ensures
            final(self)@ == old(self)@.moved(Input::Space),
            final(self)@.wf(),
    {
        proof {
            use_type_invariant(&*self);
        }
        if self.cursor >= self.files.len() {
            return ;
        }
        if self.cursor == 0 && !self.cwd.is_root() {
            return ;
        }
        let path: AbsPath = self.files[self.cursor].path().clone();
        let FileExplorer { cwd, files, cursor, mut selected, theme } = self.take();
        let ghost before = path_views(selected@);
        proof {
            lemma_toggled(before, path@);
        }
        match position(&selected, &path) {
            Some(i) => {
                selected.remove(i);
                assert(path_views(selected@) =~= before.remove(i as int));
            },
            None => {
                let at: usize = insertion_point(&selected, &path);
                proof {
                    lemma_inserted_is_sorted(before, at as int, path@);
                }
                selected.insert(at, path);
                assert(path_views(selected@) =~= before.insert(at as int, path@));
            },
        }
        *self = FileExplorer { cwd, files, cursor, selected, theme };
    }

    /// Enters the directory `dir`, of which `read` is the outcome of reading
    /// it. The listing is rebuilt and the cursor goes to its first entry; the
    /// selection stays. Where the directory could not be read, the listing
    /// holds the entry for the parent alone.
    pub fn set_cwd(&mut self, dir: AbsPath, read: DirectoryRead)
        ensures
            final(self)@ == old(self)@.entered(dir@, read.entries()),
            final(self)@.wf(),
    {
        proof {
            use_type_invariant(&*self);
        }
        let files: Vec<File> = list(&dir, &read);
        let FileExplorer { selected, theme, .. } = self.take();
        *self = FileExplorer { cwd: dir, files, cursor: 0, selected, theme };
    }
}

} // verus!
