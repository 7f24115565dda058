//! The selection as text, for a host that prints it or copies it.

use crate::path::{display_text, AbsPath};
use vstd::prelude::*;
use vstd::string::StringExecFns;

verus! {

/// The outcome of reading a path as a file.
#[derive(Debug, PartialEq, Eq)]
pub enum FileRead {
    /// The path is no file.
    NotAFile,
    /// The text of the file.
    Content(String),
    /// The file could not be read; the text says why.
    Failed(String),
}

/// A selected path and the outcome of reading it.
#[derive(Debug, PartialEq, Eq)]
pub struct SelectedFile {
    pub path: AbsPath,
    pub read: FileRead,
}

/// The lines with a line break between each two of them.
pub open spec fn joined(lines: Seq<Seq<char>>) -> Seq<char>
    decreases lines.len(),
{
    if lines.len() == 0 {
        Seq::empty()
    } else if lines.len() == 1 {
        lines[0]
    } else {
        joined(lines.drop_last()) + "\n"@ + lines.last()
    }
}

/// What is shown for a path that was read as a file: the text of a file,
/// the reason where reading it failed, and nothing for what is no file.
pub open spec fn content_text(read: FileRead) -> Seq<char> {
    match read {
        FileRead::NotAFile => Seq::empty(),
        FileRead::Content(text) => text@,
        FileRead::Failed(reason) => "Unable to read file: "@ + reason@,
    }
}

/// The section of a file in the text of the selection: its path under
/// `File:` and what is shown for it under `Content:`.
pub open spec fn section_text(file: SelectedFile) -> Seq<char> {
    "File: "@ + display_text(file.path@) + "\nContent:\n"@ + content_text(file.read) + "\n"@
}

/// The lines with a line break between each two of them.
pub fn join_lines(lines: &Vec<String>) -> (text: String)
    ensures
        text@ == joined(lines@.map_values(|line: String| line@)),
{
    let ghost views = lines@.map_values(|line: String| line@);
    let n: usize = lines.len();
    let mut text: String = String::new();
    let mut i: usize = 0;
    while i < n
        invariant
            n == lines.len(),
            i <= n,
            views == lines@.map_values(|line: String| line@),
            text@ == joined(views.take(i as int)),
        decreases n - i,
    {
        assert(views.take(i + 1).drop_last() =~= views.take(i as int));
        if i > 0 {
            text.append("\n");
        }
        text.append(lines[i].as_str());
        i += 1;
    }
    assert(views.take(n as int) =~= views);
    text
}

/// What is shown for a path that was read as a file.
pub fn get_file_content(read: &FileRead) -> (text: String)
    ensures
        text@ == content_text(*read),
{
    match read {
        FileRead::NotAFile => String::new(),
        FileRead::Content(content) => content.clone(),
        FileRead::Failed(reason) => {
            let mut text: String = String::from_str("Unable to read file: ");
            text.append(reason.as_str());
            text
        },
    }
}

/// The section of a file in the text of the selection.
pub fn file_section(file: &SelectedFile) -> (text: String)
    ensures
        text@ == section_text(*file),
{
    let mut text: String = String::from_str("File: ");
    text.append(file.path.display().as_str());
    text.append("\nContent:\n");
    text.append(get_file_content(&file.read).as_str());
    text.append("\n");
    text
}

/// The text of the selection with the contents of its files: the section of
/// each file, in their order, with an empty line between each two of them.
pub fn get_selected_files_content(files: &Vec<SelectedFile>) -> (text: String)
    ensures
        text@ == joined(files@.map_values(|file: SelectedFile| section_text(file))),
{
    let n: usize = files.len();
    let mut sections: Vec<String> = Vec::new();
    let mut i: usize = 0;
    while i < n
        invariant
            n == files.len(),
            i <= n,
            sections.len() == i,
            forall|k: int| 0 <= k < i ==> #[trigger] sections[k]@ == section_text(files[k]),
        decreases n - i,
    {
        sections.push(file_section(&files[i]));
        i += 1;
    }
    assert(sections@.map_values(|line: String| line@) =~= files@.map_values(
        |file: SelectedFile| section_text(file),
    ));
    join_lines(&sections)
}

/// The text of the selection: the paths, one on each line.
pub fn selected_paths_text(paths: &Vec<AbsPath>) -> (text: String)
    ensures
        text@ == joined(paths@.map_values(|path: AbsPath| display_text(path@))),
{
    let n: usize = paths.len();
    let mut lines: Vec<String> = Vec::new();
    let mut i: usize = 0;
    while i < n
        invariant
            n == paths.len(),
            i <= n,
            lines.len() == i,
            forall|k: int| 0 <= k < i ==> #[trigger] lines[k]@ == display_text(paths[k]@),
        decreases n - i,
    {
        lines.push(paths[i].display());
        i += 1;
    }
    assert(lines@.map_values(|line: String| line@) =~= paths@.map_values(
        |path: AbsPath| display_text(path@),
    ));
    join_lines(&lines)
}

} // verus!
