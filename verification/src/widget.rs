//! The renderer: from the state of an explorer to a description of what to
//! draw. The description is a plain value; drawing it is the host's work.

use crate::explorer::FileExplorer;
use crate::file::{File, FileView};
use crate::model::ExplorerView;
use crate::path::display_text;
use crate::theme::{Block, Style, Title, TitleView};
use vstd::prelude::*;
use vstd::string::StringExecFns;

verus! {

/// What a [`Row`] stands for.
pub ghost struct RowView {
    pub text: Seq<char>,
    pub style: Style,
    pub selected: bool,
}

/// One line of the listing as it is drawn.
#[derive(Debug, PartialEq, Eq)]
pub struct Row {
    /// The text of the line: the selection marker, then the label.
    pub text: String,
    /// The style of the line.
    pub style: Style,
    /// Whether the path of the entry is selected.
    pub selected: bool,
}

impl View for Row {
    type V = RowView;

    open spec fn view(&self) -> RowView {
        RowView { text: self.text@, style: self.style, selected: self.selected }
    }
}

/// What a [`Widget`] stands for.
pub ghost struct WidgetView {
    pub block: Option<Block>,
    pub title: Option<Seq<char>>,
    pub rows: Seq<RowView>,
    pub highlighted: Option<int>,
}

/// What to draw of an explorer.
#[derive(Debug, PartialEq, Eq)]
pub struct Widget {
    /// The frame around the listing, if it has one.
    pub block: Option<Block>,
    /// The title, if there is one.
    pub title: Option<String>,
    /// One row for each entry of the listing, in its order.
    pub rows: Vec<Row>,
    /// The index of the row under the cursor; none where there is no row.
    pub highlighted: Option<usize>,
}

impl View for Widget {
    type V = WidgetView;

    open spec fn view(&self) -> WidgetView {
        WidgetView {
            block: self.block,
            title: match self.title {
                Some(title) => Some(title@),
                None => None,
            },
            rows: self.rows@.map_values(|row: Row| row@),
            highlighted: match self.highlighted {
                Some(index) => Some(index as int),
                None => None,
            },
        }
    }
}

/// The marker in front of an entry: a star where its path is selected, and
/// blanks of the same width where it is not.
pub open spec fn marker(selected: bool) -> Seq<char> {
    if selected {
        "* "@
    } else {
        "  "@
    }
}

/// The label of an entry: `../` for the entry that leads to the parent, the
/// name with `/` behind it for a directory, and the name for a file.
pub open spec fn label(file: FileView, leads_to_parent: bool) -> Seq<char> {
    if leads_to_parent {
        "../"@
    } else {
        let name = if file.path.len() > 0 {
            file.path.last()
        } else {
            Seq::empty()
        };
        if file.is_dir {
            name + "/"@
        } else {
            name
        }
    }
}

impl ExplorerView {
    /// The row of the entry at `index`: its marker and label, in the style
    /// that the theme gives to its kind and to the cursor being on it or not.
    pub open spec fn row(self, index: int) -> RowView {
        let file = self.files[index];
        let selected = self.selected.contains(file.path);
        RowView {
            text: marker(selected) + label(file, index == 0 && self.cwd.len() > 0),
            style: self.theme.entry_style(file.is_dir, index == self.cursor),
            selected,
        }
    }

    /// The title: the text that the theme gives, or the path of the current
    /// directory where the theme asks for it.
    pub open spec fn title(self) -> Option<Seq<char>> {
        match self.theme.title {
            Some(TitleView::Text(text)) => Some(text),
            Some(TitleView::CurrentDirectory) => Some(display_text(self.cwd)),
            None => None,
        }
    }

    /// What is drawn of the state.
    pub open spec fn rendered(self) -> WidgetView {
        WidgetView {
            block: self.theme.block,
            title: self.title(),
            rows: Seq::new(self.files.len(), |index: int| self.row(index)),
            highlighted: if self.files.len() > 0 {
                Some(self.cursor)
            } else {
                None
            },
        }
    }
}

impl FileExplorer {
    /// What to draw of the explorer. The state is read and not changed; the
    /// same state is always drawn the same way.
    pub fn widget(&self) -> (widget: Widget)
        ensures
            widget@ == self@.rendered(),
    {
        let cursor: usize = self.cursor();
        let files: &Vec<File> = self.files();
        let at_root: bool = self.cwd().is_root();
        let n: usize = files.len();
        let mut rows: Vec<Row> = Vec::new();
        let mut i: usize = 0;
        while i < n
            invariant
                n == files.len(),
                i <= n,
                crate::file::file_views(files@) == self@.files,
                at_root == (self@.cwd.len() == 0),
                cursor == self@.cursor,
                rows.len() == i,
                forall|k: int| 0 <= k < i ==> #[trigger] rows[k]@ == self@.row(k),
            decreases n - i,
        {
            let file: &File = &files[i];
            let selected: bool = self.is_selected(file.path());
            let mut text: String = String::from_str(if selected { "* " } else { "  " });
            if i == 0 && !at_root {
                text.append("../");
            } else {
                if let Some(name) = file.name() {
                    text.append(name.as_str());
                }
                if file.is_dir() {
                    text.append("/");
                }
            }
            let style: Style = self.theme().entry_style(file.is_dir(), i == cursor);
            assert(text@ =~= self@.row(i as int).text);
            rows.push(Row { text, style, selected });
            i += 1;
        }
        let title: Option<String> = match self.theme().title() {
            Some(Title::Text(text)) => Some(text.clone()),
            Some(Title::CurrentDirectory) => Some(self.cwd().display()),
            None => None,
        };
        let highlighted: Option<usize> = if n > 0 { Some(cursor) } else { None };
        let widget = Widget { block: self.theme().block(), title, rows, highlighted };
        assert(widget@.rows =~= self@.rendered().rows);
        widget
    }
}

} // verus!
