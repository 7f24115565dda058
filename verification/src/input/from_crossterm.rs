//! Adapter for events of the `crossterm` backend.

use crate::input::{event_input, Held, Input, Key, KeyState, RawEvent};
use crossterm::event::{Event, KeyCode, KeyEvent, KeyEventKind, KeyModifiers};
use vstd::prelude::*;

verus! {

#[verifier::external_type_specification]
#[verifier::external_body]
pub struct ExCrosstermEvent(crossterm::event::Event);

#[verifier::external_type_specification]
#[verifier::external_body]
pub struct ExCrosstermKeyEvent(crossterm::event::KeyEvent);

/// The key event that a `crossterm` event holds; an event that is no key
/// event holds none.
pub uninterp spec fn crossterm_key_event(event: Event) -> Option<KeyEvent>;

/// The key of a `crossterm` key event, whatever is held down with it.
pub uninterp spec fn crossterm_key(event: KeyEvent) -> Key;

/// The kind of a `crossterm` key event.
pub uninterp spec fn crossterm_state(event: KeyEvent) -> KeyState;

/// The modifier keys that a `crossterm` key event reports as held down.
pub uninterp spec fn crossterm_held(event: KeyEvent) -> Held;

/// What a `crossterm` event is read as: a key event with its key, what is
/// held down with it and its kind, and every other event as
/// [`RawEvent::Other`].
pub open spec fn crossterm_raw(event: Event) -> RawEvent {
    match crossterm_key_event(event) {
        Some(key) => RawEvent::Key(crossterm_key(key), crossterm_held(key), crossterm_state(key)),
        None => RawEvent::Other,
    }
}

/// Calls `crossterm::event::Event::as_key_event`, which hands out the key
/// event that an event holds and nothing for any other event. The event is
/// opaque to the verifier: the contract gives the result its name and claims
/// nothing else.
#[verifier::external_body]
fn key_event(event: &Event) -> (key: Option<KeyEvent>)
    ensures
        key == crossterm_key_event(*event),
{
    event.as_key_event()
}

/// Reads the field `code` of a `crossterm::event::KeyEvent` into a [`Key`],
/// one variant of `crossterm::event::KeyCode` for one of [`Key`], and every
/// variant that [`Key`] does not have as [`Key::Other`]. The contract gives
/// the result its name and claims nothing else.
#[verifier::external_body]
fn key_of(event: &KeyEvent) -> (key: Key)
    ensures
        key == crossterm_key(*event),
{
    match event.code {
        KeyCode::Char(c) => Key::Char(c),
        KeyCode::Up => Key::Up,
        KeyCode::Down => Key::Down,
        KeyCode::Left => Key::Left,
        KeyCode::Right => Key::Right,
        KeyCode::Backspace => Key::Backspace,
        KeyCode::Enter => Key::Enter,
        _ => Key::Other,
    }
}

/// Reads the field `kind` of a `crossterm::event::KeyEvent` into a
/// [`KeyState`], one variant of `crossterm::event::KeyEventKind` for one of
/// [`KeyState`]. The contract gives the result its name and claims nothing
/// else.
#[verifier::external_body]
fn state_of(event: &KeyEvent) -> (state: KeyState)
    ensures
        state == crossterm_state(*event),
{
    match event.kind {
        KeyEventKind::Press => KeyState::Press,
        KeyEventKind::Repeat => KeyState::Repeat,
        KeyEventKind::Release => KeyState::Release,
    }
}

/// Reads the field `modifiers` of a `crossterm::event::KeyEvent` into a
/// [`Held`]: each field of [`Held`] is what
/// `crossterm::event::KeyModifiers::contains` says of the constant of
/// `KeyModifiers` of that name. The contract gives the result its name and
/// claims nothing else.
#[verifier::external_body]
fn held_of(event: &KeyEvent) -> (held: Held)
    ensures
        held == crossterm_held(*event),
{
    Held {
        shift: event.modifiers.contains(KeyModifiers::SHIFT),
        control: event.modifiers.contains(KeyModifiers::CONTROL),
        alt: event.modifiers.contains(KeyModifiers::ALT),
    }
}

impl From<&Event> for RawEvent {
    /// Reads a `crossterm` event.
    fn from(event: &Event) -> (raw: RawEvent) {
        match key_event(event) {
            Some(key) => RawEvent::Key(key_of(&key), held_of(&key), state_of(&key)),
            None => RawEvent::Other,
        }
    }
}

impl vstd::std_specs::convert::FromSpecImpl<&Event> for RawEvent {
    open spec fn obeys_from_spec() -> bool {
        true
    }

    open spec fn from_spec(event: &Event) -> RawEvent {
        crossterm_raw(*event)
    }
}

impl From<&Event> for Input {
    /// Maps a `crossterm` event to the direction it stands for: the event is
    /// read into a [`RawEvent`], and that is mapped as every [`RawEvent`] is.
    fn from(event: &Event) -> (input: Input) {
        Input::from(RawEvent::from(event))
    }
}

impl vstd::std_specs::convert::FromSpecImpl<&Event> for Input {
    open spec fn obeys_from_spec() -> bool {
        true
    }

    open spec fn from_spec(event: &Event) -> Input {
        event_input(crossterm_raw(*event))
    }
}

} // verus!
