//! Terminal input as the cockpit sees it: keys with their modifiers and kind, pasted
//! text, resizes and interrupts.
use vstd::prelude::*;
use crate::screen::{NavigationTab, tab_at};

verus! {

/// The key of a key event.
#[derive(Debug, Clone, Copy, PartialEq, Eq, Structural)]
pub enum KeyCode {
    Char(char),
    Enter,
    Esc,
    Tab,
    BackTab,
    Backspace,
    Delete,
    Up,
    Down,
    Left,
    Right,
    Home,
    End,
    PageUp,
    PageDown,
    Other,
}

/// The modifier keys held, one bit each: shift, control, alt, super, hyper, meta.
#[derive(Debug, Clone, Copy, PartialEq, Eq, Structural)]
pub struct KeyModifiers {
    pub bits: u8,
}

impl KeyModifiers {
    /// No modifier.
    pub fn none() -> (modifiers: KeyModifiers)
        ensures
            modifiers.bits == 0,
    {
        KeyModifiers { bits: 0 }
    }

    /// Shift alone.
    pub fn shift() -> (modifiers: KeyModifiers)
        ensures
            modifiers.bits == 1,
    {
        KeyModifiers { bits: 1 }
    }

    /// Control alone.
    pub fn control() -> (modifiers: KeyModifiers)
        ensures
            modifiers.bits == 2,
    {
        KeyModifiers { bits: 2 }
    }

    /// Alt alone.
    pub fn alt() -> (modifiers: KeyModifiers)
        ensures
            modifiers.bits == 4,
    {
        KeyModifiers { bits: 4 }
    }
}

/// Whether a key was pressed, repeated or released.
#[derive(Debug, Clone, Copy, PartialEq, Eq, Structural)]
pub enum KeyEventKind {
    Press,
    Repeat,
    Release,
}

/// A key event.
#[derive(Debug, Clone, Copy, PartialEq, Eq, Structural)]
pub struct KeyEvent {
    pub code: KeyCode,
    pub modifiers: KeyModifiers,
    pub kind: KeyEventKind,
}

impl KeyEvent {
    /// A key press.
    pub fn new(code: KeyCode, modifiers: KeyModifiers) -> (key: KeyEvent)
        ensures
            key == (KeyEvent { code, modifiers, kind: KeyEventKind::Press }),
    {
        KeyEvent { code, modifiers, kind: KeyEventKind::Press }
    }

    /// A key event of the given kind.
    pub fn new_with_kind(code: KeyCode, modifiers: KeyModifiers, kind: KeyEventKind) -> (key:
        KeyEvent)
        ensures
            key == (KeyEvent { code, modifiers, kind }),
    {
        KeyEvent { code, modifiers, kind }
    }
}

/// What the terminal reports.
#[derive(Debug, Clone, PartialEq, Eq)]
pub enum TerminalEvent {
    Key(KeyEvent),
    Paste(String),
    Resize(u16, u16),
    FocusGained,
    FocusLost,
    Mouse,
}

/// An event the cockpit handles.
#[derive(Debug, Clone, PartialEq, Eq)]
pub enum TuiEvent {
    Key(KeyEvent),
    Paste(String),
    Resize(u16, u16),
    Interrupt,
}

/// The cockpit event of a terminal event: key presses and repeats, pastes and resizes;
/// nothing for a key release or any other report.
pub open spec fn translated(event: TerminalEvent) -> Option<TuiEvent> {
    match event {
        TerminalEvent::Key(key) => if key.kind == KeyEventKind::Release {
            None
        } else {
            Some(TuiEvent::Key(key))
        },
        TerminalEvent::Resize(width, height) => Some(TuiEvent::Resize(width, height)),
        TerminalEvent::Paste(text) => Some(TuiEvent::Paste(text)),
        _ => None,
    }
}

/// Turns a terminal event into a cockpit event; see `translated`.
pub fn translate(event: TerminalEvent) -> (translated_event: Option<TuiEvent>)
    ensures
        translated_event == translated(event),
{
    match event {
        TerminalEvent::Key(key) => match key.kind {
            KeyEventKind::Press | KeyEventKind::Repeat => Some(TuiEvent::Key(key)),
            KeyEventKind::Release => None,
        },
        TerminalEvent::Resize(width, height) => Some(TuiEvent::Resize(width, height)),
        TerminalEvent::Paste(text) => Some(TuiEvent::Paste(text)),
        _ => None,
    }
}

/// Keys of the skills workspace.
#[derive(Debug, Clone, Copy, PartialEq, Eq, Structural)]
pub enum SkillKey {
    Up,
    Down,
    Left,
    Right,
    Enter,
    Escape,
    Open,
    Create,
}

/// The skills key of an unmodified key: arrows, enter and escape, the digit of the
/// skills tab to open, `c` to create; nothing otherwise.
pub open spec fn skill_key_of(key: KeyEvent) -> Option<SkillKey> {
    if key.modifiers.bits != 0 {
        None
    } else {
        match key.code {
            KeyCode::Up => Some(SkillKey::Up),
            KeyCode::Down => Some(SkillKey::Down),
            KeyCode::Left => Some(SkillKey::Left),
            KeyCode::Right => Some(SkillKey::Right),
            KeyCode::Enter => Some(SkillKey::Enter),
            KeyCode::Esc => Some(SkillKey::Escape),
            KeyCode::Char(c) => if '1' <= c && c <= '9' && tab_at(c as u32 - '1' as u32)
                == NavigationTab::Skills {
                Some(SkillKey::Open)
            } else if c == 'c' {
                Some(SkillKey::Create)
            } else {
                None
            },
            _ => None,
        }
    }
}

impl SkillKey {
    /// The skills key of `key`; see `skill_key_of`.
    pub fn from_key(key: KeyEvent) -> (skill_key: Option<SkillKey>)
        ensures
            skill_key == skill_key_of(key),
    {
        if key.modifiers.bits != 0 {
            return None;
        }
        match key.code {
            KeyCode::Up => Some(SkillKey::Up),
            KeyCode::Down => Some(SkillKey::Down),
            KeyCode::Left => Some(SkillKey::Left),
            KeyCode::Right => Some(SkillKey::Right),
            KeyCode::Enter => Some(SkillKey::Enter),
            KeyCode::Esc => Some(SkillKey::Escape),
            KeyCode::Char(character) => {
                let opens = match NavigationTab::for_number(character) {
                    Some(tab) => tab == NavigationTab::Skills,
                    None => false,
                };
                if opens {
                    Some(SkillKey::Open)
                } else if character == 'c' {
                    Some(SkillKey::Create)
                } else {
                    None
                }
            },
            _ => None,
        }
    }
}

} // verus!
