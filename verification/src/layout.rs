//! The cockpit's screen geometry: the layout mode chosen by terminal size, and the
//! header, navigation, workspace, inspector, message and command areas.
use vstd::prelude::*;
use ratatui::layout::{Constraint, Layout};

verus! {

/// Narrowest usable terminal.
pub const MIN_WIDTH: u16 = 60;

/// Lowest usable terminal.
pub const MIN_HEIGHT: u16 = 18;

/// Narrowest terminal with a navigation column.
pub const MEDIUM_WIDTH: u16 = 80;

/// Narrowest terminal with three columns.
pub const WIDE_WIDTH: u16 = 120;

/// Lowest terminal with a navigation column.
pub const MEDIUM_HEIGHT: u16 = 24;

/// Lowest terminal with three columns.
pub const WIDE_HEIGHT: u16 = 30;

/// A screen rectangle.
#[derive(Debug, Clone, Copy, PartialEq, Eq, Structural)]
pub struct Rect {
    pub x: u16,
    pub y: u16,
    pub width: u16,
    pub height: u16,
}

impl Rect {
    /// A rectangle at `x`, `y` of `width` by `height` cells.
    pub fn new(x: u16, y: u16, width: u16, height: u16) -> (rect: Rect)
        ensures
            rect == (Rect { x, y, width, height }),
    {
        Rect { x, y, width, height }
    }

    /// The column just right of the rectangle, saturating.
    pub fn right(&self) -> (right: u16)
        ensures
            right == if self.x + self.width <= u16::MAX {
                (self.x + self.width) as u16
            } else {
                u16::MAX
            },
    {
        self.x.saturating_add(self.width)
    }

    /// The row just below the rectangle, saturating.
    pub fn bottom(&self) -> (bottom: u16)
        ensures
            bottom == if self.y + self.height <= u16::MAX {
                (self.y + self.height) as u16
            } else {
                u16::MAX
            },
    {
        self.y.saturating_add(self.height)
    }
}

/// How a layout sizes one of its parts.
#[derive(Debug, Clone, Copy, PartialEq, Eq, Structural)]
pub enum LayoutConstraint {
    Length(u16),
    Min(u16),
    Fill(u16),
}

/// How the cockpit arranges itself.
#[derive(Debug, Clone, Copy, PartialEq, Eq, Structural)]
pub enum LayoutMode {
    Wide,
    Medium,
    Narrow,
    TooSmall,
}

/// The cockpit's areas.
#[derive(Debug, Clone, Copy, PartialEq, Eq, Structural)]
pub struct CockpitLayout {
    pub mode: LayoutMode,
    pub viewport: Rect,
    pub header: Rect,
    pub navigation: Option<Rect>,
    pub workspace: Rect,
    pub inspector: Option<Rect>,
    pub message: Rect,
    pub command: Rect,
}

/// Splits `area` top to bottom with `ratatui::layout::Layout::vertical(..).split(..)`.
/// Trusted: one part per constraint, each spanning the full width of `area` (the layout
/// has no margin, and every part is built from `area`'s `x` and `width`) and lying within
/// its height (the solver keeps every boundary within the area as a required
/// constraint); the parts come top to bottom in the order of their constraints, none
/// reaching below the start of a later one (`Direction::Vertical` is documented as
/// arranging the segments top to bottom, and with the default start alignment and no
/// spacing the solver holds the gaps between segments at zero above every size
/// preference). How tall each part is, is the solver's answer and is not stated.
#[verifier::external_body]
fn split_vertical(area: Rect, constraints: &Vec<LayoutConstraint>) -> (parts: Vec<Rect>)
    ensures
        parts@.len() == constraints@.len(),
        forall|i: int|
            0 <= i < parts@.len() ==> (#[trigger] parts@[i]).x == area.x && parts@[i].width == area.width
                && parts@[i].y >= area.y && parts@[i].y + parts@[i].height <= bottom_of(area),
        forall|i: int, j: int|
            0 <= i < j < parts@.len() ==> #[trigger] parts@[i].y + parts@[i].height <= #[trigger] parts@[j].y,
{
    let area = ratatui::layout::Rect { x: area.x, y: area.y, width: area.width, height: area.height };
    Layout::vertical(constraints.iter().map(|c| match *c {
        LayoutConstraint::Length(v) => Constraint::Length(v),
        LayoutConstraint::Min(v) => Constraint::Min(v),
        LayoutConstraint::Fill(v) => Constraint::Fill(v),
    })).split(area).iter().map(|r| Rect { x: r.x, y: r.y, width: r.width, height: r.height }).collect()
}

/// Splits `area` left to right with `ratatui::layout::Layout::horizontal(..).split(..)`.
/// Trusted: one part per constraint, each spanning the full height of `area` and lying
/// within its width; the parts come left to right in the order of their constraints,
/// none reaching past the start of a later one (`Direction::Horizontal` is documented
/// as arranging the segments side by side, left to right). How wide each part is, is
/// the solver's answer and is not stated.
#[verifier::external_body]
fn split_horizontal(area: Rect, constraints: &Vec<LayoutConstraint>) -> (parts: Vec<Rect>)
    ensures
        parts@.len() == constraints@.len(),
        forall|i: int|
            0 <= i < parts@.len() ==> (#[trigger] parts@[i]).y == area.y && parts@[i].height == area.height
                && parts@[i].x >= area.x && parts@[i].x + parts@[i].width <= right_of(area),
        forall|i: int, j: int|
            0 <= i < j < parts@.len() ==> #[trigger] parts@[i].x + parts@[i].width <= #[trigger] parts@[j].x,
{
    let area = ratatui::layout::Rect { x: area.x, y: area.y, width: area.width, height: area.height };
    Layout::horizontal(constraints.iter().map(|c| match *c {
        LayoutConstraint::Length(v) => Constraint::Length(v),
        LayoutConstraint::Min(v) => Constraint::Min(v),
        LayoutConstraint::Fill(v) => Constraint::Fill(v),
    })).split(area).iter().map(|r| Rect { x: r.x, y: r.y, width: r.width, height: r.height }).collect()
}

/// The layout mode for a terminal of `width` by `height` cells.
pub open spec fn mode_for(width: u16, height: u16) -> LayoutMode {
    if width < MIN_WIDTH || height < MIN_HEIGHT {
        LayoutMode::TooSmall
    } else if width >= WIDE_WIDTH && height >= WIDE_HEIGHT {
        LayoutMode::Wide
    } else if width >= MEDIUM_WIDTH && height >= MEDIUM_HEIGHT {
        LayoutMode::Medium
    } else {
        LayoutMode::Narrow
    }
}

/// The layout mode for `area`.
pub fn layout_mode(area: Rect) -> (mode: LayoutMode)
    ensures
        mode == mode_for(area.width, area.height),
{
    if area.width < MIN_WIDTH || area.height < MIN_HEIGHT {
        LayoutMode::TooSmall
    } else if area.width >= WIDE_WIDTH && area.height >= WIDE_HEIGHT {
        LayoutMode::Wide
    } else if area.width >= MEDIUM_WIDTH && area.height >= MEDIUM_HEIGHT {
        LayoutMode::Medium
    } else {
        LayoutMode::Narrow
    }
}

/// How much of the cockpit a layout mode shows, from the guidance screen up to three
/// columns.
pub open spec fn mode_rank(mode: LayoutMode) -> int {
    match mode {
        LayoutMode::TooSmall => 0,
        LayoutMode::Narrow => 1,
        LayoutMode::Medium => 2,
        LayoutMode::Wide => 3,
    }
}

/// The layout mode by terminal size: below 60 by 18 cells the guidance screen; the wide
/// density needs at least 120 columns; and a terminal at least as wide and as tall as
/// another never shows less of the cockpit.
pub proof fn law_layout_mode_grows_with_the_terminal(width: u16, height: u16, wider: u16, taller: u16)
    requires
        width <= wider,
        height <= taller,
    ensures
        (mode_for(width, height) == LayoutMode::TooSmall) == (width < 60 || height < 18),
        mode_for(width, height) == LayoutMode::Wide ==> width >= 120,
        mode_for(width, height) == LayoutMode::Medium ==> width < 120 || height < WIDE_HEIGHT,
        mode_rank(mode_for(width, height)) <= mode_rank(mode_for(wider, taller)),
{
}

/// Seventy percent of `value`, rounded down.
pub fn seventy_percent(value: u16) -> (result: u16)
    ensures
        result == (value as int * 70) / 100,
{
    ((value as u32 * 70) / 100) as u16
}

/// The column just right of `area`, saturating as `Rect::right` does.
pub open spec fn right_of(area: Rect) -> int {
    if area.x + area.width <= u16::MAX {
        area.x + area.width
    } else {
        u16::MAX as int
    }
}

/// The row just below `area`, saturating as `Rect::bottom` does.
pub open spec fn bottom_of(area: Rect) -> int {
    if area.y + area.height <= u16::MAX {
        area.y + area.height
    } else {
        u16::MAX as int
    }
}

/// `part` lies within `area`.
pub open spec fn inside(part: Rect, area: Rect) -> bool {
    &&& part.x >= area.x
    &&& part.y >= area.y
    &&& right_of(part) <= right_of(area)
    &&& bottom_of(part) <= bottom_of(area)
}

/// A part of a part of `area` lies within `area`.
pub proof fn lemma_inside_transitive(part: Rect, middle: Rect, area: Rect)
    requires
        inside(part, middle),
        inside(middle, area),
    ensures
        inside(part, area),
{
}

/// `part` runs across the whole width of `area`.
pub open spec fn spans_width(part: Rect, area: Rect) -> bool {
    part.x == area.x && part.width == area.width
}

/// `layout` has the shape of the cockpit in `area`: the mode of its size; everything the
/// viewport when it is too small; otherwise every part within the area, header, message
/// and command bands across the whole width with the header above the workspace, the
/// workspace above the message line and the message line above the command line; a
/// navigation column left of the workspace except in the narrow mode; an inspector
/// column right of the workspace in the wide mode and an inspector overlay in the others
/// exactly when it is open. Where the solver puts the boundaries between parts is not
/// part of the shape.
pub open spec fn cockpit_shaped(area: Rect, inspector_open: bool, layout: CockpitLayout) -> bool {
    let mode = mode_for(area.width, area.height);
    &&& layout.mode == mode
    &&& layout.viewport == area
    &&& if mode == LayoutMode::TooSmall {
        layout == (CockpitLayout {
            mode,
            viewport: area,
            header: area,
            navigation: None,
            workspace: area,
            inspector: None,
            message: area,
            command: area,
        })
    } else {
        &&& spans_width(layout.header, area) && inside(layout.header, area)
        &&& spans_width(layout.message, area) && inside(layout.message, area)
        &&& spans_width(layout.command, area) && inside(layout.command, area)
        &&& inside(layout.workspace, area)
        &&& (layout.navigation is Some ==> inside(layout.navigation->0, area))
        &&& (layout.inspector is Some ==> inside(layout.inspector->0, area))
        &&& (layout.navigation is Some) == (mode != LayoutMode::Narrow)
        &&& (mode == LayoutMode::Narrow ==> spans_width(layout.workspace, area))
        &&& (mode != LayoutMode::Narrow ==> layout.workspace.y == layout.navigation->0.y
            && layout.workspace.height == layout.navigation->0.height)
        &&& (mode == LayoutMode::Wide ==> layout.inspector is Some && layout.inspector->0.y
            == layout.workspace.y && layout.inspector->0.height == layout.workspace.height)
        &&& (mode != LayoutMode::Wide ==> (layout.inspector is Some) == inspector_open)
        &&& bottom_of(layout.header) <= layout.workspace.y
        &&& bottom_of(layout.workspace) <= layout.message.y
        &&& bottom_of(layout.message) <= layout.command.y
        &&& (mode != LayoutMode::Narrow ==> right_of(layout.navigation->0) <= layout.workspace.x)
        &&& (mode == LayoutMode::Wide ==> right_of(layout.workspace) <= layout.inspector->0.x)
    }
}

/// An overlay centered in `area`, seventy percent of its width and height as far as
/// the solver grants them; it lies within `area`, and where it lands there is the
/// solver's answer.
fn centered_overlay(area: Rect) -> (overlay: Rect)
    ensures
        inside(overlay, area),
{
    let overlay_width = seventy_percent(area.width);
    let overlay_height = seventy_percent(area.height);
    let mut across: Vec<LayoutConstraint> = Vec::new();
    across.push(LayoutConstraint::Fill(1));
    across.push(LayoutConstraint::Length(overlay_width));
    across.push(LayoutConstraint::Fill(1));
    let mut down: Vec<LayoutConstraint> = Vec::new();
    down.push(LayoutConstraint::Fill(1));
    down.push(LayoutConstraint::Length(overlay_height));
    down.push(LayoutConstraint::Fill(1));
    let horizontal = split_horizontal(area, &across);
    let vertical = split_vertical(area, &down);
    Rect { x: horizontal[1].x, y: vertical[1].y, width: horizontal[1].width, height: vertical[1].height }
}

/// The areas of the cockpit in `area`, with the inspector overlay when it is open.
pub fn calculate(area: Rect, inspector_open: bool) -> (layout: CockpitLayout)
    ensures
        cockpit_shaped(area, inspector_open, layout),
{
    let mode = layout_mode(area);
    if mode == LayoutMode::TooSmall {
        return CockpitLayout {
            mode,
            viewport: area,
            header: area,
            navigation: None,
            workspace: area,
            inspector: None,
            message: area,
            command: area,
        };
    }
    let mut rows: Vec<LayoutConstraint> = Vec::new();
    rows.push(LayoutConstraint::Length(3));
    rows.push(LayoutConstraint::Min(0));
    rows.push(LayoutConstraint::Length(1));
    rows.push(LayoutConstraint::Length(3));
    let bands = split_vertical(area, &rows);
    let header = bands[0];
    let content = bands[1];
    let message = bands[2];
    let command = bands[3];
    assert(bands@[0] == header && bands@[1] == content && bands@[2] == message && bands@[3] == command);
    assert(inside(content, area));
    assert(inside(header, area) && inside(message, area) && inside(command, area));
    let (navigation, workspace, inspector) = match mode {
        LayoutMode::Wide => {
            let mut cols: Vec<LayoutConstraint> = Vec::new();
            cols.push(LayoutConstraint::Length(22));
            cols.push(LayoutConstraint::Fill(2));
            cols.push(LayoutConstraint::Fill(1));
            let columns = split_horizontal(content, &cols);
            assert(inside(columns@[0], content) && inside(columns@[1], content) && inside(columns@[2], content));
            assert(columns@[0] == columns[0] && columns@[1] == columns[1] && columns@[2] == columns[2]);
            proof {
                lemma_inside_transitive(columns@[0], content, area);
                lemma_inside_transitive(columns@[1], content, area);
                lemma_inside_transitive(columns@[2], content, area);
            }
            (Some(columns[0]), columns[1], Some(columns[2]))
        },
        LayoutMode::Medium => {
            let mut cols: Vec<LayoutConstraint> = Vec::new();
            cols.push(LayoutConstraint::Length(20));
            cols.push(LayoutConstraint::Min(0));
            let columns = split_horizontal(content, &cols);
            let workspace = columns[1];
            assert(inside(columns@[0], content) && inside(columns@[1], content));
            assert(columns@[0] == columns[0] && columns@[1] == columns[1]);
            proof {
                lemma_inside_transitive(columns@[0], content, area);
                lemma_inside_transitive(columns@[1], content, area);
            }
            let inspector = if inspector_open {
                let overlay = centered_overlay(workspace);
                proof {
                    lemma_inside_transitive(overlay, workspace, area);
                }
                Some(overlay)
            } else {
                None
            };
            (Some(columns[0]), workspace, inspector)
        },
        _ => {
            let inspector = if inspector_open {
                let overlay = centered_overlay(content);
                proof {
                    lemma_inside_transitive(overlay, content, area);
                }
                Some(overlay)
            } else {
                None
            };
            (None, content, inspector)
        },
    };
    CockpitLayout { mode, viewport: area, header, navigation, workspace, inspector, message, command }
}

} // verus!
