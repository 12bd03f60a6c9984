use stock_forum_tui::domain::AgentProfileId;
use stock_forum_tui::theme::{Color, Style, Theme, BOLD, DIM, REVERSED};

fn expected_bucket(id: u128) -> usize {
    id.to_be_bytes()
        .iter()
        .fold(0usize, |value, byte| value.wrapping_mul(31).wrapping_add(usize::from(*byte)))
}

const AGENT_COLORS: [Color; 5] = [
    Color::Rgb(111, 202, 196),
    Color::Rgb(234, 176, 112),
    Color::Rgb(173, 155, 227),
    Color::Rgb(128, 183, 231),
    Color::Rgb(207, 160, 180),
];

#[test]
fn no_color_theme_uses_emphasis_only() {
    let theme = Theme::from_no_color(true);
    for style in theme.styles() {
        assert_eq!(style.fg, None);
        assert_eq!(style.bg, None);
    }
    assert_eq!(theme.focus.modifiers, BOLD | REVERSED);
    assert_eq!(theme.muted.modifiers, DIM);
    assert_eq!(theme.surface(), theme.base);
    assert_eq!(theme.selected_surface().modifiers, BOLD);
    assert_eq!(theme.border(), theme.muted);
    assert_eq!(theme.agent_monogram(AgentProfileId(7)), theme.accent);
    assert_eq!(theme.agent_badge(AgentProfileId(7)), theme.accent);
}

#[test]
fn color_theme_paints_panels_and_agents() {
    let theme = Theme::from_no_color(false);
    assert_eq!(theme.accent.fg, Some(Color::Cyan));
    assert_eq!(theme.surface().bg, Some(Color::Rgb(21, 28, 36)));
    assert_eq!(theme.selected_surface().bg, Some(Color::Rgb(12, 43, 51)));
    assert_eq!(
        theme.border(),
        Style {
            fg: Some(Color::Rgb(65, 83, 103)),
            bg: None,
            modifiers: 0
        }
    );
    for id in [0u128, 1, 2, 0x0123_4567_89ab_cdef_0123_4567_89ab_cdef, u128::MAX] {
        let color = AGENT_COLORS[expected_bucket(id) % 5];
        assert_eq!(
            theme.agent_monogram(AgentProfileId(id)),
            Style {
                fg: Some(color),
                bg: None,
                modifiers: BOLD
            }
        );
        assert_eq!(
            theme.agent_badge(AgentProfileId(id)),
            Style {
                fg: Some(Color::Black),
                bg: Some(color),
                modifiers: BOLD
            }
        );
    }
    assert_eq!(
        theme.agent_monogram(AgentProfileId(1)).fg,
        Some(Color::Rgb(234, 176, 112))
    );
}
