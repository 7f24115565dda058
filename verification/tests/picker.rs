use crossterm::event::{Event, KeyCode, KeyEvent, KeyEventKind, KeyModifiers};
use fpicker::picker::{command, get_theme, Command};
use fpicker::{
    Block, Borders, Color, Held, Input, Key, KeyState, Modifier, RawEvent, Style, Theme,
};

fn stroke(key: Key, state: KeyState) -> RawEvent {
    RawEvent::Key(key, Held::none(), state)
}

#[test]
fn keys_of_the_picker() {
    let control = Held { shift: false, control: true, alt: false };
    for state in [KeyState::Press, KeyState::Repeat, KeyState::Release] {
        for held in [Held::none(), control] {
            assert_eq!(command(RawEvent::Key(Key::Char('q'), held, state)), Some(Command::Quit));
            assert_eq!(
                command(RawEvent::Key(Key::Char('c'), held, state)),
                Some(Command::CopyFiles)
            );
            assert_eq!(
                command(RawEvent::Key(Key::Char('p'), held, state)),
                Some(Command::CopyPaths)
            );
            assert_eq!(command(RawEvent::Key(Key::Char('j'), held, state)), None);
            assert_eq!(command(RawEvent::Key(Key::Char('Q'), held, state)), None);
            assert_eq!(command(RawEvent::Key(Key::Enter, held, state)), None);
            assert_eq!(command(RawEvent::Key(Key::Other, held, state)), None);
        }
    }
    assert_eq!(command(RawEvent::Other), None);
}

#[test]
fn keys_of_the_picker_move_nothing() {
    for c in ['q', 'c', 'p'] {
        let event = RawEvent::Key(Key::Char(c), Held::none(), KeyState::Press);
        assert_eq!(Input::from(event), Input::Ignored);
    }
}

#[test]
fn theme_of_the_picker() {
    let bold_white = Style::new().fg(Color::White).add_modifier(Modifier::Bold);
    let theme = get_theme();
    assert_eq!(theme.block(), Some(Block::new().borders(Borders::all())));
    assert_eq!(theme.title(), None);
    assert_eq!(theme.dir_style(), bold_white);
    assert_eq!(theme.highlight_dir_style(), bold_white.bg(Color::DarkGray));
    assert_eq!(theme.item_style(), Theme::default().item_style());
    assert_eq!(theme.highlight_item_style(), Theme::default().highlight_item_style());
}

#[test]
fn crossterm_events_are_read_part_by_part() {
    let press = Event::Key(KeyEvent::new(KeyCode::Char('q'), KeyModifiers::NONE));
    assert_eq!(RawEvent::from(&press), stroke(Key::Char('q'), KeyState::Press));
    let release = Event::Key(KeyEvent::new_with_kind(
        KeyCode::Enter,
        KeyModifiers::NONE,
        KeyEventKind::Release,
    ));
    assert_eq!(RawEvent::from(&release), stroke(Key::Enter, KeyState::Release));
    let repeat = Event::Key(KeyEvent::new_with_kind(
        KeyCode::Backspace,
        KeyModifiers::NONE,
        KeyEventKind::Repeat,
    ));
    assert_eq!(RawEvent::from(&repeat), stroke(Key::Backspace, KeyState::Repeat));
    let unmapped = Event::Key(KeyEvent::new(KeyCode::Tab, KeyModifiers::NONE));
    assert_eq!(RawEvent::from(&unmapped), stroke(Key::Other, KeyState::Press));
    for (code, key) in [
        (KeyCode::Up, Key::Up),
        (KeyCode::Down, Key::Down),
        (KeyCode::Left, Key::Left),
        (KeyCode::Right, Key::Right),
    ] {
        let event = Event::Key(KeyEvent::new(code, KeyModifiers::NONE));
        assert_eq!(RawEvent::from(&event), stroke(key, KeyState::Press));
    }
    assert_eq!(RawEvent::from(&Event::Resize(1, 1)), RawEvent::Other);
}

#[test]
fn termion_events_are_read_part_by_part() {
    let press = termion::event::Event::Key(termion::event::Key::Char('p'));
    assert_eq!(RawEvent::from(&press), stroke(Key::Char('p'), KeyState::Press));
    let arrow = termion::event::Event::Key(termion::event::Key::Left);
    assert_eq!(RawEvent::from(&arrow), stroke(Key::Left, KeyState::Press));
    let unmapped = termion::event::Event::Key(termion::event::Key::F(5));
    assert_eq!(RawEvent::from(&unmapped), stroke(Key::Other, KeyState::Press));
    let other = termion::event::Event::Unsupported(vec![0]);
    assert_eq!(RawEvent::from(&other), RawEvent::Other);
}

#[test]
fn crossterm_modifiers_are_read_one_by_one() {
    let cases = [
        (KeyModifiers::NONE, Held { shift: false, control: false, alt: false }),
        (KeyModifiers::SHIFT, Held { shift: true, control: false, alt: false }),
        (KeyModifiers::CONTROL, Held { shift: false, control: true, alt: false }),
        (KeyModifiers::ALT, Held { shift: false, control: false, alt: true }),
        (KeyModifiers::SUPER, Held { shift: false, control: false, alt: false }),
        (
            KeyModifiers::SHIFT | KeyModifiers::CONTROL | KeyModifiers::ALT,
            Held { shift: true, control: true, alt: true },
        ),
    ];
    for (modifiers, held) in cases {
        let event = Event::Key(KeyEvent::new(KeyCode::Char('q'), modifiers));
        assert_eq!(RawEvent::from(&event), RawEvent::Key(Key::Char('q'), held, KeyState::Press));
    }
}

#[test]
fn control_q_quits_and_moves_nothing() {
    let event = Event::Key(KeyEvent::new(KeyCode::Char('q'), KeyModifiers::CONTROL));
    assert_eq!(command(RawEvent::from(&event)), Some(Command::Quit));
    assert_eq!(Input::from(&event), Input::Ignored);
}
