//! Adapter for events of the `termion` backend.

use crate::input::{event_input, Held, Input, Key, KeyState, RawEvent};
use termion::event::Event;
use vstd::prelude::*;

verus! {

#[verifier::external_type_specification]
#[verifier::external_body]
pub struct ExTermionEvent(termion::event::Event);

/// The key that a `termion` event holds; an event that is no key event holds
/// none.
pub uninterp spec fn termion_key(event: Event) -> Option<Key>;

/// What a `termion` event is read as: a key event with its key, and every
/// other event as [`RawEvent::Other`]. This backend reports a key when it
/// goes down and at no other time, and it has a key of its own for every
/// stroke with a modifier key, so nothing is ever held down with a key.
pub open spec fn termion_raw(event: Event) -> RawEvent {
    match termion_key(event) {
        Some(key) => RawEvent::Key(key, Held::nothing(), KeyState::Press),
        None => RawEvent::Other,
    }
}

/// Reads the key of a `termion::event::Event` into a [`Key`], one variant of
/// `termion::event::Key` for one of [`Key`], and every variant that [`Key`]
/// does not have as [`Key::Other`]. An event that is no key event holds no
/// key. The event is opaque to the verifier: the contract gives the result
/// its name and claims nothing else.
#[verifier::external_body]
fn key_of(event: &Event) -> (key: Option<Key>)
    ensures
        key == termion_key(*event),
{
    match event {
        Event::Key(termion::event::Key::Char(c)) => Some(Key::Char(*c)),
        Event::Key(termion::event::Key::Up) => Some(Key::Up),
        Event::Key(termion::event::Key::Down) => Some(Key::Down),
        Event::Key(termion::event::Key::Left) => Some(Key::Left),
        Event::Key(termion::event::Key::Right) => Some(Key::Right),
        Event::Key(termion::event::Key::Backspace) => Some(Key::Backspace),
        Event::Key(_) => Some(Key::Other),
        _ => None,
    }
}

impl From<&Event> for RawEvent {
    /// Reads a `termion` event.
    fn from(event: &Event) -> (raw: RawEvent) {
        match key_of(event) {
            Some(key) => RawEvent::Key(key, Held::none(), KeyState::Press),
            None => RawEvent::Other,
        }
    }
}

impl vstd::std_specs::convert::FromSpecImpl<&Event> for RawEvent {
    open spec fn obeys_from_spec() -> bool {
        true
    }

    open spec fn from_spec(event: &Event) -> RawEvent {
        termion_raw(*event)
    }
}

impl From<&Event> for Input {
    /// Maps a `termion` event to the direction it stands for: the event is
    /// read into a [`RawEvent`], and that is mapped as every [`RawEvent`] is.
    fn from(event: &Event) -> (input: Input) {
        Input::from(RawEvent::from(event))
    }
}

impl vstd::std_specs::convert::FromSpecImpl<&Event> for Input {
    open spec fn obeys_from_spec() -> bool {
        true
    }

    open spec fn from_spec(event: &Event) -> Input {
        event_input(termion_raw(*event))
    }
}

} // verus!
