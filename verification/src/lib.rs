//! State and rendering core of a terminal file explorer.
//!
//! The explorer tracks a current directory, its listing, a cursor and a set
//! of selected paths. It takes normalized input, and it describes what to
//! draw. It does no input or output of its own: the host reads events and
//! directories and draws the description.

pub mod explorer;
pub mod export;
pub mod file;
pub mod input;
pub mod laws;
pub mod listing;
pub mod model;
pub mod order;
pub mod path;
pub mod picker;
pub mod theme;
pub mod widget;

pub use explorer::{FileExplorer, InitializationError};
pub use file::{DirEntry, DirectoryRead, File};
pub use input::{Held, Input, Key, KeyState, RawEvent};
pub use path::AbsPath;
pub use theme::{
    Block, BorderType, Borders, Color, Modifier, Modifiers, Style, Theme, Title,
};
pub use widget::{Row, Widget};
