use fpicker::input::plain;
use fpicker::{Held, Input, Key, KeyState, RawEvent};

fn press(key: Key) -> RawEvent {
    RawEvent::Key(key, Held::none(), KeyState::Press)
}

fn held(shift: bool, control: bool, alt: bool) -> Held {
    Held { shift, control, alt }
}

#[test]
fn vi_keys_map_to_directions() {
    assert_eq!(Input::from_key(Key::Char('j')), Input::Down);
    assert_eq!(Input::from_key(Key::Char('k')), Input::Up);
    assert_eq!(Input::from_key(Key::Char('h')), Input::Left);
    assert_eq!(Input::from_key(Key::Char('l')), Input::Right);
    assert_eq!(Input::from_key(Key::Char(' ')), Input::Space);
}

#[test]
fn arrow_keys_map_to_directions() {
    assert_eq!(Input::from_key(Key::Down), Input::Down);
    assert_eq!(Input::from_key(Key::Up), Input::Up);
    assert_eq!(Input::from_key(Key::Left), Input::Left);
    assert_eq!(Input::from_key(Key::Right), Input::Right);
}

#[test]
fn backspace_goes_left_and_enter_goes_right() {
    assert_eq!(Input::from_key(Key::Backspace), Input::Left);
    assert_eq!(Input::from_key(Key::Enter), Input::Right);
    assert_eq!(Input::from_key(Key::Char('\n')), Input::Right);
}

#[test]
fn other_keys_are_ignored() {
    assert_eq!(Input::from_key(Key::Other), Input::Ignored);
    assert_eq!(Input::from_key(Key::Char('q')), Input::Ignored);
    assert_eq!(Input::from_key(Key::Char('J')), Input::Ignored);
    assert_eq!(Input::from_key(Key::Char('\t')), Input::Ignored);
}

#[test]
fn pressed_and_repeated_keys_count() {
    assert_eq!(Input::from(press(Key::Char('j'))), Input::Down);
    assert_eq!(Input::from(RawEvent::Key(Key::Up, Held::none(), KeyState::Repeat)), Input::Up);
    assert_eq!(Input::from(press(Key::Char(' '))), Input::Space);
}

#[test]
fn released_keys_are_ignored() {
    assert_eq!(
        Input::from(RawEvent::Key(Key::Char('j'), Held::none(), KeyState::Release)),
        Input::Ignored
    );
    assert_eq!(
        Input::from(RawEvent::Key(Key::Enter, Held::none(), KeyState::Release)),
        Input::Ignored
    );
}

#[test]
fn events_without_a_key_are_ignored() {
    assert_eq!(Input::from(RawEvent::Other), Input::Ignored);
}

#[test]
fn every_character_but_six_is_ignored() {
    for code in 0u32..0x3000 {
        if let Some(c) = char::from_u32(code) {
            let expected = match c {
                'j' => Input::Down,
                'k' => Input::Up,
                'h' => Input::Left,
                'l' | '\n' => Input::Right,
                ' ' => Input::Space,
                _ => Input::Ignored,
            };
            assert_eq!(Input::from_key(Key::Char(c)), expected);
        }
    }
}

#[test]
fn no_modifier_key_is_held_by_default() {
    assert_eq!(Held::none(), held(false, false, false));
}

#[test]
fn keys_struck_with_control_or_alt_are_ignored() {
    for key in [Key::Char('j'), Key::Char(' '), Key::Up, Key::Left, Key::Enter, Key::Backspace] {
        for shift in [false, true] {
            for (control, alt) in [(true, false), (false, true), (true, true)] {
                let event = RawEvent::Key(key, held(shift, control, alt), KeyState::Press);
                assert_eq!(Input::from(event), Input::Ignored);
                assert_eq!(plain(key, held(shift, control, alt)), Key::Other);
            }
        }
    }
}

#[test]
fn shift_counts_for_keys_that_are_no_characters() {
    let shift = held(true, false, false);
    assert_eq!(Input::from(RawEvent::Key(Key::Char('j'), shift, KeyState::Press)), Input::Down);
    assert_eq!(Input::from(RawEvent::Key(Key::Char(' '), shift, KeyState::Press)), Input::Space);
    assert_eq!(plain(Key::Char('l'), shift), Key::Char('l'));
    for key in [Key::Up, Key::Down, Key::Left, Key::Right, Key::Backspace, Key::Enter] {
        assert_eq!(Input::from(RawEvent::Key(key, shift, KeyState::Press)), Input::Ignored);
        assert_eq!(plain(key, shift), Key::Other);
        assert_eq!(plain(key, Held::none()), key);
    }
}
