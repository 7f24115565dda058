//! The rules of a picker: a program that shows an explorer, the file under
//! its cursor and its selection, and that copies the selection on request.

use crate::input::{Key, RawEvent};
use crate::theme::{Block, Borders, Color, Modifier, Style, Theme, ThemeView};
use vstd::prelude::*;

verus! {

/// What a picker does on a key, besides handing the event to its explorer.
#[derive(Clone, Copy, Debug, PartialEq, Eq, Structural)]
pub enum Command {
    /// Leave, and print the selected paths.
    Quit,
    /// Copy the selected files, with their contents, to the clipboard.
    CopyFiles,
    /// Copy the selected paths to the clipboard.
    CopyPaths,
}

/// The command that an event stands for: `q` quits, `c` copies the files and
/// `p` copies the paths, whatever the state of the key and whatever is held
/// down with it. No other event stands for a command.
pub open spec fn event_command(event: RawEvent) -> Option<Command> {
    match event {
        RawEvent::Key(Key::Char('q'), _, _) => Some(Command::Quit),
        RawEvent::Key(Key::Char('c'), _, _) => Some(Command::CopyFiles),
        RawEvent::Key(Key::Char('p'), _, _) => Some(Command::CopyPaths),
        _ => None,
    }
}

/// The command that an event stands for, if it stands for one.
pub fn command(event: RawEvent) -> (command: Option<Command>)
    ensures
        command == event_command(event),
{
    match event {
        RawEvent::Key(Key::Char(c), _, _) => {
            if c == 'q' {
                Some(Command::Quit)
            } else if c == 'c' {
                Some(Command::CopyFiles)
            } else if c == 'p' {
                Some(Command::CopyPaths)
            } else {
                None
            }
        },
        _ => None,
    }
}

/// White and bold.
pub open spec fn emphasis() -> Style {
    Style { fg: Some(Color::White), ..Style::plain().modified(Modifier::Bold, true) }
}

/// The theme of the picker: the standard theme, with directories in bold
/// white, on dark gray under the cursor.
pub fn get_theme() -> (theme: Theme)
    ensures
        theme@ == (ThemeView {
            dir_style: emphasis(),
            highlight_dir_style: Style { bg: Some(Color::DarkGray), ..emphasis() },
            ..ThemeView::standard()
        }),
{
    Theme::default().with_block(Block::new().borders(Borders::all())).with_dir_style(
        Style::new().fg(Color::White).add_modifier(Modifier::Bold),
    ).with_highlight_dir_style(
        Style::new().fg(Color::White).add_modifier(Modifier::Bold).bg(Color::DarkGray),
    )
}

} // verus!
