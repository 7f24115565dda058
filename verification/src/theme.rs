//! How the explorer looks: colours, borders and title. Nothing here bears on
//! what an input does.

use vstd::prelude::*;

verus! {

/// A terminal colour.
#[derive(Clone, Copy, Debug, PartialEq, Eq, Structural)]
pub enum Color {
    /// The terminal's own default.
    Reset,
    Black,
    Red,
    Green,
    Yellow,
    Blue,
    Magenta,
    Cyan,
    Gray,
    DarkGray,
    LightRed,
    LightGreen,
    LightYellow,
    LightBlue,
    LightMagenta,
    LightCyan,
    White,
    /// Red, green and blue.
    Rgb(u8, u8, u8),
    /// An entry of the 256-colour table.
    Indexed(u8),
}

/// A way to set text off.
#[derive(Clone, Copy, Debug, PartialEq, Eq, Structural)]
pub enum Modifier {
    Bold,
    Dim,
    Italic,
    Underlined,
    SlowBlink,
    RapidBlink,
    Reversed,
    Hidden,
    CrossedOut,
}

/// A set of modifiers: for each modifier, whether it is in the set.
#[derive(Clone, Copy, Debug, PartialEq, Eq, Structural)]
pub struct Modifiers {
    pub bold: bool,
    pub dim: bool,
    pub italic: bool,
    pub underlined: bool,
    pub slow_blink: bool,
    pub rapid_blink: bool,
    pub reversed: bool,
    pub hidden: bool,
    pub crossed_out: bool,
}

impl Modifiers {
    /// The empty set.
    pub open spec fn nothing() -> Modifiers {
        Modifiers {
            bold: false,
            dim: false,
            italic: false,
            underlined: false,
            slow_blink: false,
            rapid_blink: false,
            reversed: false,
            hidden: false,
            crossed_out: false,
        }
    }

    /// Whether a modifier is in the set.
    pub open spec fn has(self, modifier: Modifier) -> bool {
        match modifier {
            Modifier::Bold => self.bold,
            Modifier::Dim => self.dim,
            Modifier::Italic => self.italic,
            Modifier::Underlined => self.underlined,
            Modifier::SlowBlink => self.slow_blink,
            Modifier::RapidBlink => self.rapid_blink,
            Modifier::Reversed => self.reversed,
            Modifier::Hidden => self.hidden,
            Modifier::CrossedOut => self.crossed_out,
        }
    }

    /// This set with a modifier put in or taken out.
    pub open spec fn set(self, modifier: Modifier, present: bool) -> Modifiers {
        match modifier {
            Modifier::Bold => Modifiers { bold: present, ..self },
            Modifier::Dim => Modifiers { dim: present, ..self },
            Modifier::Italic => Modifiers { italic: present, ..self },
            Modifier::Underlined => Modifiers { underlined: present, ..self },
            Modifier::SlowBlink => Modifiers { slow_blink: present, ..self },
            Modifier::RapidBlink => Modifiers { rapid_blink: present, ..self },
            Modifier::Reversed => Modifiers { reversed: present, ..self },
            Modifier::Hidden => Modifiers { hidden: present, ..self },
            Modifier::CrossedOut => Modifiers { crossed_out: present, ..self },
        }
    }

    /// The empty set.
    pub fn empty() -> (modifiers: Modifiers)
        ensures
            modifiers == Modifiers::nothing(),
    {
        Modifiers {
            bold: false,
            dim: false,
            italic: false,
            underlined: false,
            slow_blink: false,
            rapid_blink: false,
            reversed: false,
            hidden: false,
            crossed_out: false,
        }
    }

    /// Whether a modifier is in the set.
    pub fn contains(&self, modifier: Modifier) -> (present: bool)
        ensures
            present == self.has(modifier),
    {
        match modifier {
            Modifier::Bold => self.bold,
            Modifier::Dim => self.dim,
            Modifier::Italic => self.italic,
            Modifier::Underlined => self.underlined,
            Modifier::SlowBlink => self.slow_blink,
            Modifier::RapidBlink => self.rapid_blink,
            Modifier::Reversed => self.reversed,
            Modifier::Hidden => self.hidden,
            Modifier::CrossedOut => self.crossed_out,
        }
    }

    /// This set with a modifier put in.
    pub fn insert(self, modifier: Modifier) -> (modifiers: Modifiers)
        ensures
            modifiers == self.set(modifier, true),
    {
        self.with(modifier, true)
    }

    /// This set with a modifier taken out.
    pub fn remove(self, modifier: Modifier) -> (modifiers: Modifiers)
        ensures
            modifiers == self.set(modifier, false),
    {
        self.with(modifier, false)
    }

    fn with(self, modifier: Modifier, present: bool) -> (modifiers: Modifiers)
        ensures
            modifiers == self.set(modifier, present),
    {
        match modifier {
            Modifier::Bold => Modifiers { bold: present, ..self },
            Modifier::Dim => Modifiers { dim: present, ..self },
            Modifier::Italic => Modifiers { italic: present, ..self },
            Modifier::Underlined => Modifiers { underlined: present, ..self },
            Modifier::SlowBlink => Modifiers { slow_blink: present, ..self },
            Modifier::RapidBlink => Modifiers { rapid_blink: present, ..self },
            Modifier::Reversed => Modifiers { reversed: present, ..self },
            Modifier::Hidden => Modifiers { hidden: present, ..self },
            Modifier::CrossedOut => Modifiers { crossed_out: present, ..self },
        }
    }
}

/// How a piece of text is drawn, on top of what is drawn below it. A colour
/// that is not set is left as it is below. A modifier in `add_modifier` is
/// switched on, one in `sub_modifier` is switched off, and one in neither is
/// left as it is below.
#[derive(Clone, Copy, Debug, PartialEq, Eq)]
pub struct Style {
    pub fg: Option<Color>,
    pub bg: Option<Color>,
    pub underline_color: Option<Color>,
    pub add_modifier: Modifiers,
    pub sub_modifier: Modifiers,
}

impl Style {
    /// The style that sets nothing.
    pub open spec fn plain() -> Style {
        Style {
            fg: None,
            bg: None,
            underline_color: None,
            add_modifier: Modifiers::nothing(),
            sub_modifier: Modifiers::nothing(),
        }
    }

    /// This style with a modifier switched on, if `on`, or switched off.
    pub open spec fn modified(self, modifier: Modifier, on: bool) -> Style {
        Style {
            add_modifier: self.add_modifier.set(modifier, on),
            sub_modifier: self.sub_modifier.set(modifier, !on),
            ..self
        }
    }

    /// The style that sets nothing.
    pub fn new() -> (style: Style)
        ensures
            style == Style::plain(),
    {
        Style {
            fg: None,
            bg: None,
            underline_color: None,
            add_modifier: Modifiers::empty(),
            sub_modifier: Modifiers::empty(),
        }
    }

    /// This style with the foreground colour set.
    pub fn fg(self, color: Color) -> (style: Style)
        ensures
            style == (Style { fg: Some(color), ..self }),
    {
        Style { fg: Some(color), ..self }
    }

    /// This style with the background colour set.
    pub fn bg(self, color: Color) -> (style: Style)
        ensures
            style == (Style { bg: Some(color), ..self }),
    {
        Style { bg: Some(color), ..self }
    }

    /// This style with the colour of the line under underlined text set.
    pub fn underline_color(self, color: Color) -> (style: Style)
        ensures
            style == (Style { underline_color: Some(color), ..self }),
    {
        Style { underline_color: Some(color), ..self }
    }

    /// This style with a modifier switched on: the modifier is put among
    /// those to add and taken from those to remove.
    pub fn add_modifier(self, modifier: Modifier) -> (style: Style)
        ensures
            style == self.modified(modifier, true),
    {
        Style {
            add_modifier: self.add_modifier.insert(modifier),
            sub_modifier: self.sub_modifier.remove(modifier),
            ..self
        }
    }

    /// This style with a modifier switched off: the modifier is put among
    /// those to remove and taken from those to add, so that it is also taken
    /// from what is drawn below.
    pub fn remove_modifier(self, modifier: Modifier) -> (style: Style)
        ensures
            style == self.modified(modifier, false),
    {
        Style {
            add_modifier: self.add_modifier.remove(modifier),
            sub_modifier: self.sub_modifier.insert(modifier),
            ..self
        }
    }
}

impl Default for Style {
    fn default() -> (style: Style)
        ensures
            style == Style::plain(),
    {
        Style::new()
    }
}

/// The sides of a block that have a border.
#[derive(Clone, Copy, Debug, PartialEq, Eq, Structural)]
pub struct Borders {
    pub top: bool,
    pub right: bool,
    pub bottom: bool,
    pub left: bool,
}

impl Borders {
    /// A border on every side.
    pub fn all() -> (borders: Borders)
        ensures
            borders == (Borders { top: true, right: true, bottom: true, left: true }),
    {
        Borders { top: true, right: true, bottom: true, left: true }
    }

    /// No border.
    pub fn none() -> (borders: Borders)
        ensures
            borders == (Borders { top: false, right: false, bottom: false, left: false }),
    {
        Borders { top: false, right: false, bottom: false, left: false }
    }
}

/// The line that a border is drawn with.
#[derive(Clone, Copy, Debug, PartialEq, Eq, Structural)]
pub enum BorderType {
    Plain,
    Rounded,
    Double,
    Thick,
}

/// The frame around the listing.
#[derive(Clone, Copy, Debug, PartialEq, Eq, Structural)]
pub struct Block {
    pub borders: Borders,
    pub border_type: BorderType,
}

impl Block {
    /// A frame without borders.
    pub fn new() -> (block: Block)
        ensures
            block == (Block {
                borders: Borders { top: false, right: false, bottom: false, left: false },
                border_type: BorderType::Plain,
            }),
    {
        Block { borders: Borders::none(), border_type: BorderType::Plain }
    }

    /// This frame with borders on the given sides.
    pub fn borders(self, borders: Borders) -> (block: Block)
        ensures
            block == (Block { borders, ..self }),
    {
        Block { borders, ..self }
    }

    /// This frame with its borders drawn with the given line.
    pub fn border_type(self, border_type: BorderType) -> (block: Block)
        ensures
            block == (Block { border_type, ..self }),
    {
        Block { border_type, ..self }
    }
}

/// What a [`Title`] stands for.
pub ghost enum TitleView {
    Text(Seq<char>),
    CurrentDirectory,
}

/// The title of the explorer.
#[derive(Debug, PartialEq, Eq)]
pub enum Title {
    /// A fixed text.
    Text(String),
    /// The path of the current directory.
    CurrentDirectory,
}

impl View for Title {
    type V = TitleView;

    open spec fn view(&self) -> TitleView {
        match self {
            Title::Text(text) => TitleView::Text(text@),
            Title::CurrentDirectory => TitleView::CurrentDirectory,
        }
    }
}

impl Clone for Title {
    fn clone(&self) -> (copy: Title)
        ensures
            copy@ == self@,
    {
        match self {
            Title::Text(text) => Title::Text(text.clone()),
            Title::CurrentDirectory => Title::CurrentDirectory,
        }
    }
}

/// What a [`Theme`] stands for.
pub ghost struct ThemeView {
    pub block: Option<Block>,
    pub title: Option<TitleView>,
    pub item_style: Style,
    pub dir_style: Style,
    pub highlight_item_style: Style,
    pub highlight_dir_style: Style,
}

impl ThemeView {
    /// The style of an entry, by whether it is a directory and whether the
    /// cursor is on it.
    pub open spec fn entry_style(self, is_dir: bool, highlighted: bool) -> Style {
        if highlighted {
            if is_dir {
                self.highlight_dir_style
            } else {
                self.highlight_item_style
            }
        } else {
            if is_dir {
                self.dir_style
            } else {
                self.item_style
            }
        }
    }

    /// The theme that an explorer has unless it is given another: borders on
    /// every side, no title, files in white and directories in light blue,
    /// and a dark gray background under the cursor.
    pub open spec fn standard() -> ThemeView {
        ThemeView {
            block: Some(
                Block {
                    borders: Borders { top: true, right: true, bottom: true, left: true },
                    border_type: BorderType::Plain,
                },
            ),
            title: None,
            item_style: Style { fg: Some(Color::White), ..Style::plain() },
            dir_style: Style { fg: Some(Color::LightBlue), ..Style::plain() },
            highlight_item_style: Style {
                fg: Some(Color::White),
                bg: Some(Color::DarkGray),
                ..Style::plain()
            },
            highlight_dir_style: Style {
                fg: Some(Color::LightBlue),
                bg: Some(Color::DarkGray),
                ..Style::plain()
            },
        }
    }
}

/// The look of an explorer: its frame, its title, and a style for each kind
/// of entry.
#[derive(Debug, PartialEq, Eq)]
pub struct Theme {
    block: Option<Block>,
    title: Option<Title>,
    item_style: Style,
    dir_style: Style,
    highlight_item_style: Style,
    highlight_dir_style: Style,
}

impl View for Theme {
    type V = ThemeView;

    closed spec fn view(&self) -> ThemeView {
        ThemeView {
            block: self.block,
            title: match self.title {
                Some(title) => Some(title@),
                None => None,
            },
            item_style: self.item_style,
            dir_style: self.dir_style,
            highlight_item_style: self.highlight_item_style,
            highlight_dir_style: self.highlight_dir_style,
        }
    }
}

impl Theme {
    /// The standard theme.
    pub fn new() -> (theme: Theme)
        ensures
            theme@ == ThemeView::standard(),
    {
        Theme {
            block: Some(Block::new().borders(Borders::all())),
            title: None,
            item_style: Style::new().fg(Color::White),
            dir_style: Style::new().fg(Color::LightBlue),
            highlight_item_style: Style::new().fg(Color::White).bg(Color::DarkGray),
            highlight_dir_style: Style::new().fg(Color::LightBlue).bg(Color::DarkGray),
        }
    }

    /// This theme with the path of the current directory as its title.
    pub fn add_default_title(self) -> (theme: Theme)
        ensures
            theme@ == (ThemeView { title: Some(TitleView::CurrentDirectory), ..self@ }),
    {
        Theme { title: Some(Title::CurrentDirectory), ..self }
    }

    /// This theme with a fixed text as its title.
    pub fn with_title(self, text: String) -> (theme: Theme)
        ensures
            theme@ == (ThemeView { title: Some(TitleView::Text(text@)), ..self@ }),
    {
        Theme { title: Some(Title::Text(text)), ..self }
    }

    /// This theme without a title.
    pub fn without_title(self) -> (theme: Theme)
        ensures
            theme@ == (ThemeView { title: None, ..self@ }),
    {
        Theme { title: None, ..self }
    }

    /// This theme with the given frame.
    pub fn with_block(self, block: Block) -> (theme: Theme)
        ensures
            theme@ == (ThemeView { block: Some(block), ..self@ }),
    {
        Theme { block: Some(block), ..self }
    }

    /// This theme without a frame.
    pub fn without_block(self) -> (theme: Theme)
        ensures
            theme@ == (ThemeView { block: None, ..self@ }),
    {
        Theme { block: None, ..self }
    }

    /// This theme with the given style for files.
    pub fn with_item_style(self, style: Style) -> (theme: Theme)
        ensures
            theme@ == (ThemeView { item_style: style, ..self@ }),
    {
        Theme { item_style: style, ..self }
    }

    /// This theme with the given style for directories.
    pub fn with_dir_style(self, style: Style) -> (theme: Theme)
        ensures
            theme@ == (ThemeView { dir_style: style, ..self@ }),
    {
        Theme { dir_style: style, ..self }
    }

    /// This theme with the given style for a file under the cursor.
    pub fn with_highlight_item_style(self, style: Style) -> (theme: Theme)
        ensures
            theme@ == (ThemeView { highlight_item_style: style, ..self@ }),
    {
        Theme { highlight_item_style: style, ..self }
    }

    /// This theme with the given style for a directory under the cursor.
    pub fn with_highlight_dir_style(self, style: Style) -> (theme: Theme)
        ensures
            theme@ == (ThemeView { highlight_dir_style: style, ..self@ }),
    {
        Theme { highlight_dir_style: style, ..self }
    }

    /// The frame, if the theme has one.
    pub fn block(&self) -> (block: Option<Block>)
        ensures
            block == self@.block,
    {
        self.block
    }

    /// The title, if the theme has one.
    pub fn title(&self) -> (title: Option<&Title>)
        ensures
            match title {
                Some(t) => self@.title == Some(t@),
                None => self@.title is None,
            },
    {
        self.title.as_ref()
    }

    /// The style of files.
    pub fn item_style(&self) -> (style: Style)
        ensures
            style == self@.item_style,
    {
        self.item_style
    }

    /// The style of directories.
    pub fn dir_style(&self) -> (style: Style)
        ensures
            style == self@.dir_style,
    {
        self.dir_style
    }

    /// The style of a file under the cursor.
    pub fn highlight_item_style(&self) -> (style: Style)
        ensures
            style == self@.highlight_item_style,
    {
        self.highlight_item_style
    }

    /// The style of a directory under the cursor.
    pub fn highlight_dir_style(&self) -> (style: Style)
        ensures
            style == self@.highlight_dir_style,
    {
        self.highlight_dir_style
    }

    /// The style of an entry, by whether it is a directory and whether the
    /// cursor is on it.
    pub fn entry_style(&self, is_dir: bool, highlighted: bool) -> (style: Style)
        ensures
            style == self@.entry_style(is_dir, highlighted),
    {
        if highlighted {
            if is_dir {
                self.highlight_dir_style
            } else {
                self.highlight_item_style
            }
        } else {
            if is_dir {
                self.dir_style
            } else {
                self.item_style
            }
        }
    }
}

impl Default for Theme {
    fn default() -> (theme: Theme)
        ensures
            theme@ == ThemeView::standard(),
    {
        Theme::new()
    }
}

impl Clone for Theme {
    fn clone(&self) -> (copy: Theme)
        ensures
            copy@ == self@,
    {
        Theme {
            block: self.block,
            title: match &self.title {
                Some(title) => Some(title.clone()),
                None => None,
            },
            item_style: self.item_style,
            dir_style: self.dir_style,
            highlight_item_style: self.highlight_item_style,
            highlight_dir_style: self.highlight_dir_style,
        }
    }
}

} // verus!
