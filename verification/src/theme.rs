//! The cockpit's colours and text emphasis, with or without colour, and the colour that
//! tells agents apart.
use vstd::prelude::*;
use crate::domain::AgentProfileId;

verus! {

/// A terminal colour.
#[derive(Debug, Clone, Copy, PartialEq, Eq, Structural)]
pub enum Color {
    Black,
    Red,
    Green,
    Yellow,
    Cyan,
    Rgb(u8, u8, u8),
}

/// Bold text.
pub const BOLD: u16 = 1;

/// Dimmed text.
pub const DIM: u16 = 2;

/// Italic text.
pub const ITALIC: u16 = 4;

/// Underlined text.
pub const UNDERLINED: u16 = 8;

/// Reversed foreground and background.
pub const REVERSED: u16 = 64;

/// How a piece of text is drawn: its colours, when set, and the emphasis added to it,
/// one bit each (`BOLD`, `DIM`, `ITALIC`, `UNDERLINED`, `REVERSED`).
#[derive(Debug, Clone, Copy, PartialEq, Eq, Structural)]
pub struct Style {
    pub fg: Option<Color>,
    pub bg: Option<Color>,
    pub modifiers: u16,
}

/// The plain style: no colour, no emphasis.
pub open spec fn plain() -> Style {
    Style { fg: None, bg: None, modifiers: 0 }
}

/// The styles of the cockpit.
#[derive(Debug, Clone, Copy, PartialEq, Eq, Structural)]
pub struct Theme {
    pub base: Style,
    pub accent: Style,
    pub focus: Style,
    pub muted: Style,
    pub success: Style,
    pub warning: Style,
    pub error: Style,
}

/// The theme without colour: emphasis alone tells the styles apart.
pub open spec fn no_color_theme() -> Theme {
    Theme {
        base: plain(),
        accent: Style { modifiers: BOLD, ..plain() },
        focus: Style { modifiers: BOLD | REVERSED, ..plain() },
        muted: Style { modifiers: DIM, ..plain() },
        success: Style { modifiers: BOLD, ..plain() },
        warning: Style { modifiers: BOLD | ITALIC, ..plain() },
        error: Style { modifiers: BOLD | UNDERLINED, ..plain() },
    }
}

/// The colour theme: light text on a dark ground, cyan accents, green, yellow and red
/// for success, warning and error.
pub open spec fn color_theme() -> Theme {
    Theme {
        base: Style { fg: Some(Color::Rgb(228, 234, 241)), bg: Some(Color::Rgb(14, 18, 23)), modifiers: 0 },
        accent: Style { fg: Some(Color::Cyan), bg: None, modifiers: BOLD },
        focus: Style { fg: Some(Color::Black), bg: Some(Color::Cyan), modifiers: BOLD },
        muted: Style { fg: Some(Color::Rgb(155, 160, 171)), bg: None, modifiers: 0 },
        success: Style { fg: Some(Color::Green), bg: None, modifiers: BOLD },
        warning: Style { fg: Some(Color::Yellow), bg: None, modifiers: BOLD },
        error: Style { fg: Some(Color::Red), bg: None, modifiers: BOLD },
    }
}

/// The byte at position `i` (from the most significant) of an identifier's sixteen.
pub open spec fn id_byte(id: u128, i: int) -> int {
    ((id >> ((8 * (15 - i)) as u128)) % 256) as int
}

/// The agent colour bucket after the first `n` bytes of `id`: each byte is folded in
/// as `value * 31 + byte`, wrapping at the width of `usize`.
pub open spec fn bucket_upto(id: u128, n: nat) -> usize
    decreases n,
{
    if n == 0 {
        0
    } else {
        ((bucket_upto(id, (n - 1) as nat) * 31 + id_byte(id, n - 1)) % (usize::MAX as int + 1)) as usize
    }
}

/// The five agent colours.
pub open spec fn agent_color(index: int) -> Color {
    if index == 0 {
        Color::Rgb(111, 202, 196)
    } else if index == 1 {
        Color::Rgb(234, 176, 112)
    } else if index == 2 {
        Color::Rgb(173, 155, 227)
    } else if index == 3 {
        Color::Rgb(128, 183, 231)
    } else {
        Color::Rgb(207, 160, 180)
    }
}

/// The colour bucket of an agent identifier, folded over its sixteen bytes.
fn monogram_bucket(id: AgentProfileId) -> (bucket: usize)
    ensures
        bucket == bucket_upto(id.0, 16),
{
    let mut value: usize = 0;
    let mut i: usize = 0;
    while i < 16
        invariant
            i <= 16,
            value == bucket_upto(id.0, i as nat),
        decreases 16 - i,
    {
        let shift: u128 = (8 * (15 - i)) as u128;
        let byte: usize = ((id.0 >> shift) % 256) as usize;
        let next = value.wrapping_mul(31).wrapping_add(byte);
        proof {
            lemma_fold_step(value, byte);
        }
        value = next;
        i = i + 1;
    }
    value
}

/// Wrapping `value * 31 + byte` is the sum taken modulo the width of `usize`.
proof fn lemma_fold_step(value: usize, byte: usize)
    ensures
        value.wrapping_mul(31).wrapping_add(byte) == ((value * 31 + byte) % (usize::MAX as int + 1)) as usize,
{
    let m = usize::MAX as int + 1;
    vstd::arithmetic::div_mod::lemma_add_mod_noop(value * 31, byte as int, m);
    vstd::arithmetic::div_mod::lemma_mod_twice(byte as int, m);
    vstd::arithmetic::div_mod::lemma_small_mod(byte as nat, m as nat);
}

impl Theme {
    /// The theme with or without colour.
    pub fn from_no_color(no_color: bool) -> (theme: Theme)
        ensures
            theme == if no_color {
                no_color_theme()
            } else {
                color_theme()
            },
    {
        let plain = Style { fg: None, bg: None, modifiers: 0 };
        if no_color {
            return Theme {
                base: plain,
                accent: Style { modifiers: BOLD, ..plain },
                focus: Style { modifiers: BOLD | REVERSED, ..plain },
                muted: Style { modifiers: DIM, ..plain },
                success: Style { modifiers: BOLD, ..plain },
                warning: Style { modifiers: BOLD | ITALIC, ..plain },
                error: Style { modifiers: BOLD | UNDERLINED, ..plain },
            };
        }
        Theme {
            base: Style { fg: Some(Color::Rgb(228, 234, 241)), bg: Some(Color::Rgb(14, 18, 23)), modifiers: 0 },
            accent: Style { fg: Some(Color::Cyan), bg: None, modifiers: BOLD },
            focus: Style { fg: Some(Color::Black), bg: Some(Color::Cyan), modifiers: BOLD },
            muted: Style { fg: Some(Color::Rgb(155, 160, 171)), bg: None, modifiers: 0 },
            success: Style { fg: Some(Color::Green), bg: None, modifiers: BOLD },
            warning: Style { fg: Some(Color::Yellow), bg: None, modifiers: BOLD },
            error: Style { fg: Some(Color::Red), bg: None, modifiers: BOLD },
        }
    }

    /// The ground of panels: the base style, on a panel colour when the theme has colour.
    pub fn surface(self) -> (style: Style)
        ensures
            style == if self.base.fg is None {
                self.base
            } else {
                Style { bg: Some(Color::Rgb(21, 28, 36)), ..self.base }
            },
    {
        if self.base.fg.is_none() {
            self.base
        } else {
            Style { bg: Some(Color::Rgb(21, 28, 36)), ..self.base }
        }
    }

    /// The ground of a selected row: bold without colour, else a selection colour.
    pub fn selected_surface(self) -> (style: Style)
        ensures
            style == if self.base.fg is None {
                Style { modifiers: self.base.modifiers | BOLD, ..self.base }
            } else {
                Style { bg: Some(Color::Rgb(12, 43, 51)), ..self.base }
            },
    {
        if self.base.fg.is_none() {
            Style { modifiers: self.base.modifiers | BOLD, ..self.base }
        } else {
            Style { bg: Some(Color::Rgb(12, 43, 51)), ..self.base }
        }
    }

    /// Panel borders: the muted style without colour, else a border colour.
    pub fn border(self) -> (style: Style)
        ensures
            style == if self.base.fg is None {
                self.muted
            } else {
                Style { fg: Some(Color::Rgb(65, 83, 103)), bg: None, modifiers: 0 }
            },
    {
        if self.base.fg.is_none() {
            self.muted
        } else {
            Style { fg: Some(Color::Rgb(65, 83, 103)), bg: None, modifiers: 0 }
        }
    }

    /// The bold colour of agent `id`: the accent without colour, else one of five colours
    /// chosen by the identifier's bucket.
    pub open spec fn monogram_of(self, id: AgentProfileId) -> Style {
        if self.base.fg is None {
            self.accent
        } else {
            Style {
                fg: Some(agent_color(bucket_upto(id.0, 16) as int % 5)),
                bg: None,
                modifiers: BOLD,
            }
        }
    }

    /// The style of agent `id`'s monogram; see `monogram_of`.
    pub fn agent_monogram(self, id: AgentProfileId) -> (style: Style)
        ensures
            style == self.monogram_of(id),
    {
        if self.base.fg.is_none() {
            return self.accent;
        }
        let index = monogram_bucket(id) % 5;
        let color = if index == 0 {
            Color::Rgb(111, 202, 196)
        } else if index == 1 {
            Color::Rgb(234, 176, 112)
        } else if index == 2 {
            Color::Rgb(173, 155, 227)
        } else if index == 3 {
            Color::Rgb(128, 183, 231)
        } else {
            Color::Rgb(207, 160, 180)
        };
        Style { fg: Some(color), bg: None, modifiers: BOLD }
    }

    /// The badge of agent `id`: black bold text on its colour, or the accent when the
    /// monogram has no colour.
    pub fn agent_badge(self, id: AgentProfileId) -> (style: Style)
        ensures
            style == match self.monogram_of(id).fg {
                Some(color) => Style { fg: Some(Color::Black), bg: Some(color), modifiers: BOLD },
                None => self.accent,
            },
    {
        match self.agent_monogram(id).fg {
            Some(color) => Style { fg: Some(Color::Black), bg: Some(color), modifiers: BOLD },
            None => self.accent,
        }
    }

    /// The theme's styles in order: base, accent, focus, muted, success, warning, error.
    pub fn styles(self) -> (styles: [Style; 7])
        ensures
            styles@ == seq![
                self.base,
                self.accent,
                self.focus,
                self.muted,
                self.success,
                self.warning,
                self.error,
            ],
    {
        let styles = [self.base, self.accent, self.focus, self.muted, self.success, self.warning, self.error];
        assert(styles@ =~= seq![
            self.base,
            self.accent,
            self.focus,
            self.muted,
            self.success,
            self.warning,
            self.error,
        ]);
        styles
    }
}

} // verus!
