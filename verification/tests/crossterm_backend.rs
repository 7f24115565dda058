use crossterm::event::{
    Event, KeyCode, KeyEvent, KeyEventKind, KeyModifiers, MouseButton, MouseEvent, MouseEventKind,
};
use fpicker::Input;
use termion::event::{Event as TermionEvent, Key as TermionKey};

fn key(code: KeyCode) -> Event {
    Event::Key(KeyEvent::new(code, KeyModifiers::NONE))
}

fn key_of_kind(code: KeyCode, kind: KeyEventKind) -> Event {
    Event::Key(KeyEvent::new_with_kind(code, KeyModifiers::NONE, kind))
}

#[test]
fn crossterm_keys_map_to_directions() {
    assert_eq!(Input::from(&key(KeyCode::Char('j'))), Input::Down);
    assert_eq!(Input::from(&key(KeyCode::Down)), Input::Down);
    assert_eq!(Input::from(&key(KeyCode::Char('k'))), Input::Up);
    assert_eq!(Input::from(&key(KeyCode::Up)), Input::Up);
    assert_eq!(Input::from(&key(KeyCode::Char('h'))), Input::Left);
    assert_eq!(Input::from(&key(KeyCode::Left)), Input::Left);
    assert_eq!(Input::from(&key(KeyCode::Backspace)), Input::Left);
    assert_eq!(Input::from(&key(KeyCode::Char('l'))), Input::Right);
    assert_eq!(Input::from(&key(KeyCode::Right)), Input::Right);
    assert_eq!(Input::from(&key(KeyCode::Enter)), Input::Right);
    assert_eq!(Input::from(&key(KeyCode::Char(' '))), Input::Space);
}

#[test]
fn crossterm_unmapped_keys_are_ignored() {
    assert_eq!(Input::from(&key(KeyCode::Char('q'))), Input::Ignored);
    assert_eq!(Input::from(&key(KeyCode::Tab)), Input::Ignored);
    assert_eq!(Input::from(&key(KeyCode::Esc)), Input::Ignored);
    assert_eq!(Input::from(&key(KeyCode::F(1))), Input::Ignored);
    assert_eq!(Input::from(&key(KeyCode::Home)), Input::Ignored);
}

#[test]
fn crossterm_events_without_a_key_are_ignored() {
    assert_eq!(Input::from(&Event::Resize(80, 24)), Input::Ignored);
    assert_eq!(Input::from(&Event::FocusGained), Input::Ignored);
    assert_eq!(Input::from(&Event::FocusLost), Input::Ignored);
    assert_eq!(Input::from(&Event::Paste("j".to_string())), Input::Ignored);
    let mouse = MouseEvent {
        kind: MouseEventKind::Down(MouseButton::Left),
        column: 1,
        row: 1,
        modifiers: KeyModifiers::NONE,
    };
    assert_eq!(Input::from(&Event::Mouse(mouse)), Input::Ignored);
}

#[test]
fn crossterm_key_kinds() {
    assert_eq!(Input::from(&key_of_kind(KeyCode::Down, KeyEventKind::Press)), Input::Down);
    assert_eq!(Input::from(&key_of_kind(KeyCode::Down, KeyEventKind::Repeat)), Input::Down);
    assert_eq!(Input::from(&key_of_kind(KeyCode::Down, KeyEventKind::Release)), Input::Ignored);
    assert_eq!(
        Input::from(&key_of_kind(KeyCode::Char('l'), KeyEventKind::Release)),
        Input::Ignored
    );
}

#[test]
fn backends_agree() {
    let pairs = [
        (KeyCode::Char('j'), TermionKey::Char('j')),
        (KeyCode::Char('x'), TermionKey::Char('x')),
        (KeyCode::Up, TermionKey::Up),
        (KeyCode::Down, TermionKey::Down),
        (KeyCode::Left, TermionKey::Left),
        (KeyCode::Right, TermionKey::Right),
        (KeyCode::Backspace, TermionKey::Backspace),
        (KeyCode::Esc, TermionKey::Esc),
    ];
    for (code, other) in pairs {
        assert_eq!(Input::from(&key(code)), Input::from(&TermionEvent::Key(other)));
    }
}

#[test]
fn crossterm_keys_struck_with_control_or_alt_are_ignored() {
    for modifiers in [KeyModifiers::CONTROL, KeyModifiers::ALT] {
        for code in [KeyCode::Char('j'), KeyCode::Char('h'), KeyCode::Up, KeyCode::Enter] {
            assert_eq!(Input::from(&Event::Key(KeyEvent::new(code, modifiers))), Input::Ignored);
        }
    }
}

#[test]
fn crossterm_shift_counts_for_keys_that_are_no_characters() {
    let shifted = |code| Event::Key(KeyEvent::new(code, KeyModifiers::SHIFT));
    assert_eq!(Input::from(&shifted(KeyCode::Char('j'))), Input::Down);
    assert_eq!(Input::from(&shifted(KeyCode::Char('J'))), Input::Ignored);
    assert_eq!(Input::from(&shifted(KeyCode::Left)), Input::Ignored);
    assert_eq!(Input::from(&shifted(KeyCode::Down)), Input::Ignored);
}

#[test]
fn backends_agree_on_modified_keys() {
    let pairs = [
        (KeyCode::Char('j'), KeyModifiers::CONTROL, TermionKey::Ctrl('j')),
        (KeyCode::Char('k'), KeyModifiers::ALT, TermionKey::Alt('k')),
        (KeyCode::Left, KeyModifiers::SHIFT, TermionKey::ShiftLeft),
        (KeyCode::Right, KeyModifiers::CONTROL, TermionKey::CtrlRight),
        (KeyCode::Up, KeyModifiers::ALT, TermionKey::AltUp),
    ];
    for (code, modifiers, other) in pairs {
        let event = Event::Key(KeyEvent::new(code, modifiers));
        assert_eq!(Input::from(&event), Input::Ignored);
        assert_eq!(Input::from(&TermionEvent::Key(other)), Input::Ignored);
    }
}
