//! Normalized navigation input.
//!
//! Every terminal backend reports events in a type of its own. An adapter
//! reads such an event into a [`RawEvent`], and one mapping, the same for all
//! backends, turns a [`RawEvent`] into an [`Input`].

use vstd::prelude::*;

pub mod from_crossterm;
pub mod from_termion;

verus! {

/// A key as a terminal backend reports it, reduced to what navigation reads.
#[derive(Clone, Copy, Debug, PartialEq, Eq, Structural)]
pub enum Key {
    /// A character key.
    Char(char),
    Up,
    Down,
    Left,
    Right,
    Backspace,
    Enter,
    /// Any other key.
    Other,
}

/// Whether a key went down, is held down, or came up.
#[derive(Clone, Copy, Debug, PartialEq, Eq, Structural)]
pub enum KeyState {
    Press,
    Repeat,
    Release,
}

/// The modifier keys that are held down while a key is struck.
#[derive(Clone, Copy, Debug, PartialEq, Eq, Structural)]
pub struct Held {
    pub shift: bool,
    pub control: bool,
    pub alt: bool,
}

impl Held {
    /// No modifier key.
    pub open spec fn nothing() -> Held {
        Held { shift: false, control: false, alt: false }
    }

    /// No modifier key.
    pub fn none() -> (held: Held)
        ensures
            held == Held::nothing(),
    {
        Held { shift: false, control: false, alt: false }
    }
}

/// A terminal event, independent of the backend that reported it.
#[derive(Clone, Copy, Debug, PartialEq, Eq, Structural)]
pub enum RawEvent {
    /// A key event: the key, what is held down with it, and its state.
    Key(Key, Held, KeyState),
    /// Anything that is no key event: a resize, the mouse, focus, a paste.
    Other,
}

/// What the explorer understands of an event.
#[derive(Clone, Copy, Debug, PartialEq, Eq, Structural)]
pub enum Input {
    /// Move the cursor up by one entry.
    Up,
    /// Move the cursor down by one entry.
    Down,
    /// Go to the parent directory.
    Left,
    /// Enter the directory under the cursor.
    Right,
    /// Toggle the selection of the entry under the cursor.
    Space,
    /// No effect.
    Ignored,
}

/// The direction that a key stands for.
pub open spec fn key_input(key: Key) -> Input {
    match key {
        Key::Char('j') | Key::Down => Input::Down,
        Key::Char('k') | Key::Up => Input::Up,
        Key::Char('h') | Key::Left | Key::Backspace => Input::Left,
        Key::Char('l') | Key::Right | Key::Enter | Key::Char('\n') => Input::Right,
        Key::Char(' ') => Input::Space,
        _ => Input::Ignored,
    }
}

/// The key that a stroke counts as, given what is held down with it: the key
/// itself where nothing is held down, and a character also where Shift is.
/// A key struck with Control or Alt, or any key but a character struck with
/// Shift, counts as no key that navigation reads.
pub open spec fn plain_key(key: Key, held: Held) -> Key {
    if held.control || held.alt {
        Key::Other
    } else if held.shift && !(key is Char) {
        Key::Other
    } else {
        key
    }
}

/// The direction that an event stands for: that of the key that the stroke
/// counts as where a key went down or is held down, and [`Input::Ignored`]
/// for everything else.
pub open spec fn event_input(event: RawEvent) -> Input {
    match event {
        RawEvent::Key(key, held, KeyState::Press) | RawEvent::Key(key, held, KeyState::Repeat) =>
            key_input(plain_key(key, held)),
        _ => Input::Ignored,
    }
}

/// Whether a key is one of those that navigation reads.
pub open spec fn recognized_key(key: Key) -> bool {
    match key {
        Key::Char(c) => c == 'j' || c == 'k' || c == 'h' || c == 'l' || c == '\n' || c == ' ',
        Key::Other => false,
        _ => true,
    }
}

/// Whether an event is a stroke of a key that navigation reads.
pub open spec fn recognized(event: RawEvent) -> bool {
    match event {
        RawEvent::Key(key, held, state) => state != KeyState::Release && recognized_key(
            plain_key(key, held),
        ),
        RawEvent::Other => false,
    }
}

impl Input {
    /// Maps a key to the direction it stands for.
    pub fn from_key(key: Key) -> (input: Input)
        ensures
            input == key_input(key),
    {
        match key {
            Key::Char(c) => {
                if c == 'j' {
                    Input::Down
                } else if c == 'k' {
                    Input::Up
                } else if c == 'h' {
                    Input::Left
                } else if c == 'l' || c == '\n' {
                    Input::Right
                } else if c == ' ' {
                    Input::Space
                } else {
                    Input::Ignored
                }
            },
            Key::Down => Input::Down,
            Key::Up => Input::Up,
            Key::Left | Key::Backspace => Input::Left,
            Key::Right | Key::Enter => Input::Right,
            Key::Other => Input::Ignored,
        }
    }
}

/// The key that a stroke counts as, given what is held down with it.
pub fn plain(key: Key, held: Held) -> (plain: Key)
    ensures
        plain == plain_key(key, held),
{
    if held.control || held.alt {
        Key::Other
    } else {
        match key {
            Key::Char(_) => key,
            _ => if held.shift {
                Key::Other
            } else {
                key
            },
        }
    }
}

impl From<RawEvent> for Input {
    /// Maps an event to the direction it stands for.
    fn from(event: RawEvent) -> (input: Input) {
        match event {
            RawEvent::Key(key, held, KeyState::Press) => Input::from_key(plain(key, held)),
            RawEvent::Key(key, held, KeyState::Repeat) => Input::from_key(plain(key, held)),
            _ => Input::Ignored,
        }
    }
}

impl vstd::std_specs::convert::FromSpecImpl<RawEvent> for Input {
    open spec fn obeys_from_spec() -> bool {
        true
    }

    open spec fn from_spec(event: RawEvent) -> Input {
        event_input(event)
    }
}

/// An event maps to a direction exactly when it is a stroke of a key that
/// navigation reads; every other event maps to [`Input::Ignored`].
pub proof fn lemma_ignored_iff_unrecognized(event: RawEvent)
    ensures
        event_input(event) == Input::Ignored <==> !recognized(event),
{
}

} // verus!
