//! Entries of a directory: as the filesystem reports them, and as the
//! explorer lists them.

use crate::path::AbsPath;
use vstd::prelude::*;

verus! {

/// What a [`DirEntry`] stands for: a name and whether it is a directory.
pub ghost struct EntryView {
    pub name: Seq<char>,
    pub is_dir: bool,
}

/// An entry of a directory as the filesystem reports it.
#[derive(Debug, PartialEq, Eq)]
pub struct DirEntry {
    /// The name of the entry within its directory.
    pub name: String,
    /// Whether the entry is a directory.
    pub is_dir: bool,
}

impl View for DirEntry {
    type V = EntryView;

    open spec fn view(&self) -> EntryView {
        EntryView { name: self.name@, is_dir: self.is_dir }
    }
}

impl Clone for DirEntry {
    fn clone(&self) -> (copy: DirEntry)
        ensures
            copy@ == self@,
    {
        DirEntry { name: self.name.clone(), is_dir: self.is_dir }
    }
}

/// What each entry of a sequence stands for.
pub open spec fn entry_views(entries: Seq<DirEntry>) -> Seq<EntryView> {
    entries.map_values(|entry: DirEntry| entry@)
}

/// The outcome of reading a path as a directory.
#[derive(Debug, PartialEq, Eq)]
pub enum DirectoryRead {
    /// Nothing exists at the path.
    Missing,
    /// The path exists and is no directory.
    NotADirectory,
    /// The path is a directory whose entries could not be read.
    Unreadable,
    /// The entries of the directory, in the order the filesystem gave them.
    Entries(Vec<DirEntry>),
}

impl DirectoryRead {
    /// The entries that were read; none where the read failed.
    pub open spec fn entries(&self) -> Seq<EntryView> {
        match self {
            DirectoryRead::Entries(entries) => entry_views(entries@),
            _ => Seq::empty(),
        }
    }

    /// Whether the path was found to be a directory.
    pub open spec fn is_directory(&self) -> bool {
        self is Unreadable || self is Entries
    }
}

/// What a [`File`] stands for: its path and whether it is a directory.
pub ghost struct FileView {
    pub path: Seq<Seq<char>>,
    pub is_dir: bool,
}

/// What each file of a sequence stands for.
pub open spec fn file_views(files: Seq<File>) -> Seq<FileView> {
    files.map_values(|file: File| file@)
}

/// An entry of a listing. Two files are equal when their paths are.
#[derive(Debug)]
pub struct File {
    path: AbsPath,
    is_dir: bool,
}

impl View for File {
    type V = FileView;

    closed spec fn view(&self) -> FileView {
        FileView { path: self.path@, is_dir: self.is_dir }
    }
}

impl File {
    /// The file at `path`.
    pub fn new(path: AbsPath, is_dir: bool) -> (file: File)
        ensures
            file@ == (FileView { path: path@, is_dir }),
    {
        File { path, is_dir }
    }

    /// The path of the file.
    pub fn path(&self) -> (path: &AbsPath)
        ensures
            path@ == self@.path,
    {
        &self.path
    }

    /// Whether the file is a directory.
    pub fn is_dir(&self) -> (is_dir: bool)
        ensures
            is_dir == self@.is_dir,
    {
        self.is_dir
    }

    /// The name of the file: the last component of its path. The root has
    /// none.
    pub fn name(&self) -> (name: Option<&String>)
        ensures
            self@.path.len() == 0 ==> name is None,
            self@.path.len() > 0 ==> name is Some && name->0@ == self@.path.last(),
    {
        self.path.file_name()
    }
}

impl Clone for File {
    fn clone(&self) -> (copy: File)
        ensures
            copy@ == self@,
    {
        File { path: self.path.clone(), is_dir: self.is_dir }
    }
}

impl PartialEq for File {
    fn eq(&self, other: &File) -> (equal: bool) {
        self.path == other.path
    }
}

impl vstd::std_specs::cmp::PartialEqSpecImpl for File {
    open spec fn obeys_eq_spec() -> bool {
        true
    }

    open spec fn eq_spec(&self, other: &File) -> bool {
        self@.path == other@.path
    }
}

impl Eq for File {

}

} // verus!
