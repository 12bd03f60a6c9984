use stock_forum_tui::event::{
    translate, KeyCode, KeyEvent, KeyEventKind, KeyModifiers, SkillKey, TerminalEvent, TuiEvent,
};

#[test]
fn skill_open_uses_the_authoritative_bare_four_destination() {
    assert_eq!(
        SkillKey::from_key(KeyEvent::new(KeyCode::Char('4'), KeyModifiers::none())),
        Some(SkillKey::Open)
    );
    assert_eq!(
        SkillKey::from_key(KeyEvent::new(KeyCode::Char('6'), KeyModifiers::alt())),
        None
    );
    assert_eq!(
        SkillKey::from_key(KeyEvent::new(KeyCode::Char('s'), KeyModifiers::none())),
        None
    );
}

#[test]
fn key_press_resize_and_interrupt_become_typed_events() {
    assert_eq!(
        translate(TerminalEvent::Resize(90, 25)),
        Some(TuiEvent::Resize(90, 25))
    );
    assert!(matches!(
        translate(TerminalEvent::Key(KeyEvent::new(
            KeyCode::Char('q'),
            KeyModifiers::none()
        ))),
        Some(TuiEvent::Key(_))
    ));
    assert_eq!(translate(TerminalEvent::FocusGained), None);
}

#[test]
fn key_repeat_events_are_forwarded() {
    let event =
        KeyEvent::new_with_kind(KeyCode::Char('x'), KeyModifiers::none(), KeyEventKind::Repeat);
    assert_eq!(translate(TerminalEvent::Key(event)), Some(TuiEvent::Key(event)));
}

#[test]
fn key_release_events_are_ignored() {
    let event = KeyEvent::new_with_kind(
        KeyCode::Char('q'),
        KeyModifiers::none(),
        KeyEventKind::Release,
    );
    assert_eq!(translate(TerminalEvent::Key(event)), None);
}

#[test]
fn unsupported_terminal_events_are_ignored() {
    assert_eq!(translate(TerminalEvent::FocusLost), None);
}

#[test]
fn paste_becomes_a_typed_tui_event() {
    assert_eq!(
        translate(TerminalEvent::Paste("/status\n".to_owned())),
        Some(TuiEvent::Paste("/status\n".to_owned()))
    );
}

#[test]
fn skill_keys_cover_arrows_enter_escape_and_create() {
    let plain = |code| KeyEvent::new(code, KeyModifiers::none());
    assert_eq!(SkillKey::from_key(plain(KeyCode::Up)), Some(SkillKey::Up));
    assert_eq!(SkillKey::from_key(plain(KeyCode::Down)), Some(SkillKey::Down));
    assert_eq!(SkillKey::from_key(plain(KeyCode::Left)), Some(SkillKey::Left));
    assert_eq!(SkillKey::from_key(plain(KeyCode::Right)), Some(SkillKey::Right));
    assert_eq!(SkillKey::from_key(plain(KeyCode::Enter)), Some(SkillKey::Enter));
    assert_eq!(SkillKey::from_key(plain(KeyCode::Esc)), Some(SkillKey::Escape));
    assert_eq!(SkillKey::from_key(plain(KeyCode::Char('c'))), Some(SkillKey::Create));
    assert_eq!(SkillKey::from_key(plain(KeyCode::Char('3'))), None);
    assert_eq!(
        SkillKey::from_key(KeyEvent::new(KeyCode::Up, KeyModifiers::shift())),
        None
    );
}
