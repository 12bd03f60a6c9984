//! What the cockpit shows around its workspaces: the view, the focused region, the
//! input mode, messages and runtime state.
use vstd::prelude::*;

verus! {

/// The cockpit views.
#[derive(Debug, Clone, Copy, PartialEq, Eq, Structural)]
pub enum View {
    Overview,
    Chat,
    Connections,
    Activity,
    Setup,
    Audit,
    Help,
    Agents,
}

/// The region that receives keys.
#[derive(Debug, Clone, Copy, PartialEq, Eq, Structural)]
pub enum Focus {
    Navigation,
    List,
    Workspace,
    Actions,
    Inspector,
    Command,
}

/// Whether keys navigate or type.
#[derive(Debug, Clone, Copy, PartialEq, Eq, Structural)]
pub enum InputMode {
    Nav,
    Type,
}

/// How serious a message is.
#[derive(Debug, Clone, Copy, PartialEq, Eq, Structural)]
pub enum Severity {
    Info,
    Warning,
    Error,
}

/// Whether the application runtime accepts work.
#[derive(Debug, Clone, Copy, PartialEq, Eq, Structural)]
pub enum RuntimeStatus {
    Ready,
    Stopping,
}

/// A message line.
#[derive(Debug, Clone, PartialEq, Eq)]
pub struct UiMessage {
    pub severity: Severity,
    pub text: String,
}

/// The tabs of the navigation bar, in order.
#[derive(Debug, Clone, Copy, PartialEq, Eq, Structural)]
pub enum NavigationTab {
    Overview,
    Chat,
    Agents,
    Skills,
    Connections,
    Activity,
    Setup,
    Audit,
    Help,
}

/// Number of navigation tabs.
pub const TAB_COUNT: usize = 9;

/// Position of a tab in the bar.
pub open spec fn tab_index(tab: NavigationTab) -> int {
    match tab {
        NavigationTab::Overview => 0,
        NavigationTab::Chat => 1,
        NavigationTab::Agents => 2,
        NavigationTab::Skills => 3,
        NavigationTab::Connections => 4,
        NavigationTab::Activity => 5,
        NavigationTab::Setup => 6,
        NavigationTab::Audit => 7,
        NavigationTab::Help => 8,
    }
}

/// The tab at position `index` of the bar.
pub open spec fn tab_at(index: int) -> NavigationTab {
    if index == 0 {
        NavigationTab::Overview
    } else if index == 1 {
        NavigationTab::Chat
    } else if index == 2 {
        NavigationTab::Agents
    } else if index == 3 {
        NavigationTab::Skills
    } else if index == 4 {
        NavigationTab::Connections
    } else if index == 5 {
        NavigationTab::Activity
    } else if index == 6 {
        NavigationTab::Setup
    } else if index == 7 {
        NavigationTab::Audit
    } else {
        NavigationTab::Help
    }
}

/// The tab showing `view`.
pub open spec fn tab_for_view(view: View) -> NavigationTab {
    match view {
        View::Overview => NavigationTab::Overview,
        View::Chat => NavigationTab::Chat,
        View::Connections => NavigationTab::Connections,
        View::Activity => NavigationTab::Activity,
        View::Setup => NavigationTab::Setup,
        View::Audit => NavigationTab::Audit,
        View::Help => NavigationTab::Help,
        View::Agents => NavigationTab::Agents,
    }
}

/// Positions and tabs correspond one to one.
/// The label of `tab` in the navigation bar.
pub open spec fn tab_label(tab: NavigationTab) -> Seq<char> {
    match tab {
        NavigationTab::Overview => vstd::view::View::view(&"Home"),
        NavigationTab::Chat => vstd::view::View::view(&"Chat"),
        NavigationTab::Agents => vstd::view::View::view(&"Agents"),
        NavigationTab::Skills => vstd::view::View::view(&"Skills"),
        NavigationTab::Connections => vstd::view::View::view(&"Connections"),
        NavigationTab::Activity => vstd::view::View::view(&"Activity"),
        NavigationTab::Setup => vstd::view::View::view(&"Setup"),
        NavigationTab::Audit => vstd::view::View::view(&"Audit"),
        NavigationTab::Help => vstd::view::View::view(&"Help"),
    }
}

pub proof fn lemma_tab_index_round_trip(tab: NavigationTab)
    ensures
        0 <= tab_index(tab) < TAB_COUNT,
        tab_at(tab_index(tab)) == tab,
{
}

impl NavigationTab {
    /// Position of this tab in the bar.
    pub fn index(self) -> (index: usize)
        ensures
            index == tab_index(self),
            index < TAB_COUNT,
    {
        match self {
            NavigationTab::Overview => 0,
            NavigationTab::Chat => 1,
            NavigationTab::Agents => 2,
            NavigationTab::Skills => 3,
            NavigationTab::Connections => 4,
            NavigationTab::Activity => 5,
            NavigationTab::Setup => 6,
            NavigationTab::Audit => 7,
            NavigationTab::Help => 8,
        }
    }

    /// The tab at position `index`.
    pub fn at(index: usize) -> (tab: NavigationTab)
        requires
            index < TAB_COUNT,
        ensures
            tab == tab_at(index as int),
            tab_index(tab) == index,
    {
        if index == 0 {
            NavigationTab::Overview
        } else if index == 1 {
            NavigationTab::Chat
        } else if index == 2 {
            NavigationTab::Agents
        } else if index == 3 {
            NavigationTab::Skills
        } else if index == 4 {
            NavigationTab::Connections
        } else if index == 5 {
            NavigationTab::Activity
        } else if index == 6 {
            NavigationTab::Setup
        } else if index == 7 {
            NavigationTab::Audit
        } else {
            NavigationTab::Help
        }
    }

    /// The key that selects this tab: its position plus one, as a digit.
    pub fn key(self) -> (key: char)
        ensures
            key as u32 == '1' as u32 + tab_index(self),
    {
        match self {
            NavigationTab::Overview => '1',
            NavigationTab::Chat => '2',
            NavigationTab::Agents => '3',
            NavigationTab::Skills => '4',
            NavigationTab::Connections => '5',
            NavigationTab::Activity => '6',
            NavigationTab::Setup => '7',
            NavigationTab::Audit => '8',
            NavigationTab::Help => '9',
        }
    }

    /// The tab's label; see `tab_label`.
    pub fn label(self) -> (label: &'static str)
        ensures
            vstd::view::View::view(&label) == tab_label(self),
    {
        match self {
            NavigationTab::Overview => "Home",
            NavigationTab::Chat => "Chat",
            NavigationTab::Agents => "Agents",
            NavigationTab::Skills => "Skills",
            NavigationTab::Connections => "Connections",
            NavigationTab::Activity => "Activity",
            NavigationTab::Setup => "Setup",
            NavigationTab::Audit => "Audit",
            NavigationTab::Help => "Help",
        }
    }

    /// The tab selected by digit key `number`: `1` to `9` name the tabs in order.
    pub fn for_number(number: char) -> (tab: Option<NavigationTab>)
        ensures
            tab == (if '1' <= number && number <= '9' {
                Some(tab_at(number as u32 - '1' as u32))
            } else {
                None
            }),
    {
        if '1' <= number && number <= '9' {
            let index = (number as u32 - '1' as u32) as usize;
            Some(NavigationTab::at(index))
        } else {
            None
        }
    }

    /// The tab showing `view`.
    pub fn for_view(view: View) -> (tab: NavigationTab)
        ensures
            tab == tab_for_view(view),
    {
        match view {
            View::Overview => NavigationTab::Overview,
            View::Chat => NavigationTab::Chat,
            View::Connections => NavigationTab::Connections,
            View::Activity => NavigationTab::Activity,
            View::Setup => NavigationTab::Setup,
            View::Audit => NavigationTab::Audit,
            View::Help => NavigationTab::Help,
            View::Agents => NavigationTab::Agents,
        }
    }

    /// The neighbouring tab, wrapping around the bar.
    pub fn adjacent(self, forward: bool) -> (tab: NavigationTab)
        ensures
            tab == tab_at(
                if forward {
                    (tab_index(self) + 1) % (TAB_COUNT as int)
                } else if tab_index(self) == 0 {
                    TAB_COUNT - 1
                } else {
                    tab_index(self) - 1
                },
            ),
    {
        let index = self.index();
        let next = if forward {
            (index + 1) % TAB_COUNT
        } else if index == 0 {
            TAB_COUNT - 1
        } else {
            index - 1
        };
        NavigationTab::at(next)
    }
}

/// Moving to the next tab and back returns to the same tab, in either order.
pub proof fn law_adjacent_tabs_are_inverse(tab: NavigationTab)
    ensures
        ({
            let i = tab_index(tab);
            let next = tab_at((i + 1) % (TAB_COUNT as int));
            let back = tab_at(
                if tab_index(next) == 0 {
                    TAB_COUNT - 1
                } else {
                    tab_index(next) - 1
                },
            );
            back == tab
        }),
        ({
            let i = tab_index(tab);
            let previous = tab_at(
                if i == 0 {
                    TAB_COUNT - 1
                } else {
                    i - 1
                },
            );
            tab_at((tab_index(previous) + 1) % (TAB_COUNT as int)) == tab
        }),
{
}

} // verus!
