//! The cockpit model: the shown tab and view, focus, layout, the command line, the
//! audit list, and the per-tab state that comes back when a tab is shown again.
use vstd::prelude::*;
use crate::domain::{
    AuditEntry, DatabaseReadiness, InstallationId, PresentationSnapshot, ProcessGuardOwnership,
    SessionId, SetupStatus, SkillSummary, SkillVersionRef,
};
use crate::editor::{CommandDraft, CommandEditor, COMMAND_HISTORY_CAPACITY, relocated_recall};
use crate::layout::{calculate, mode_for, LayoutMode, Rect, WIDE_HEIGHT, WIDE_WIDTH};
use crate::memory::MemoryPane;
use crate::screen::{
    Focus, InputMode, NavigationTab, RuntimeStatus, Severity, UiMessage, tab_for_view, tab_index, lemma_tab_index_round_trip,
};
use crate::workspace::{
    AgentSkillAction, AgentSkillUpgradeAvailability, AgentsPane, AgentsViewState,
    AgentOutcomeIntent, SkillsPane, SkillsViewState, SkillWorkspaceOrigin, first_skill_index, find_skill,
    skill_action_at, initial_agents, initial_skills,
};

verus! {

/// What a tab keeps while another tab is shown.
#[derive(Debug, Clone, PartialEq, Eq)]
pub struct TabState {
    pub focus: Focus,
    pub input_mode: InputMode,
    pub inspector_open: bool,
    pub workspace_scroll: u16,
    pub command_draft: CommandDraft,
}

impl TabState {
    /// The state of a tab never shown.
    pub open spec fn is_fresh(self) -> bool {
        &&& self.focus == Focus::Workspace
        &&& self.input_mode == InputMode::Nav
        &&& !self.inspector_open
        &&& self.workspace_scroll == 0
        &&& self.command_draft.text_view() == Seq::<char>::empty()
        &&& self.command_draft.cursor_view() == 0
        &&& self.command_draft.recall_index() == None::<usize>
    }
    /// The state of a tab never shown: workspace focus, navigation input, no inspector,
    /// no scroll, an empty command line.
    pub fn new() -> (state: TabState)
        ensures
            state.focus == Focus::Workspace,
            state.input_mode == InputMode::Nav,
            !state.inspector_open,
            state.workspace_scroll == 0,
            state.command_draft.text_view() == Seq::<char>::empty(),
            state.command_draft.cursor_view() == 0,
            state.command_draft.recall_index() == None::<usize>,
    {
        TabState {
            focus: Focus::Workspace,
            input_mode: InputMode::Nav,
            inspector_open: false,
            workspace_scroll: 0,
            command_draft: CommandDraft::empty(),
        }
    }

    /// Same focus, input mode, inspector, scroll, and command text, cursor and
    /// recall position.
    pub open spec fn same_as(self, other: TabState) -> bool {
        &&& self.focus == other.focus
        &&& self.input_mode == other.input_mode
        &&& self.inspector_open == other.inspector_open
        &&& self.workspace_scroll == other.workspace_scroll
        &&& self.command_draft.text_view() == other.command_draft.text_view()
        &&& self.command_draft.cursor_view() == other.command_draft.cursor_view()
        &&& self.command_draft.recall_index() == other.command_draft.recall_index()
    }

    /// A copy of this state.
    pub fn duplicate(&self) -> (state: TabState)
        ensures
            state.same_as(*self),
    {
        let command_draft = self.command_draft.duplicate();
        TabState {
            focus: self.focus,
            input_mode: self.input_mode,
            inspector_open: self.inspector_open,
            workspace_scroll: self.workspace_scroll,
            command_draft,
        }
    }
}

/// Whether the answer to the command in flight may change the shown tab.
#[derive(Debug, Clone, Copy, PartialEq, Eq, Structural)]
pub enum PendingOutcomeNavigation {
    SelectIfUnchanged { tab: NavigationTab, generation: u64 },
    PreserveCurrent,
}

/// The cockpit model.
#[derive(Debug, Clone, PartialEq, Eq)]
pub struct TuiModel {
    pub active_view: crate::screen::View,
    pub agents: AgentsViewState,
    pub skills: SkillsViewState,
    pub pending_agent_outcome: Option<AgentOutcomeIntent>,
    pub focus: Focus,
    pub input_mode: InputMode,
    pub layout_mode: LayoutMode,
    pub inspector_open: bool,
    pub command: CommandEditor,
    pub installation_id: InstallationId,
    pub session_id: SessionId,
    pub database_readiness: DatabaseReadiness,
    pub process_guard_ownership: ProcessGuardOwnership,
    pub setup_status: SetupStatus,
    pub audit_entries: Vec<AuditEntry>,
    pub audit_selection: Option<usize>,
    pub workspace_scroll: u16,
    pub workspace_body_width: u16,
    pub workspace_body_height: u16,
    pub workspace_content_height: u16,
    pub terminal_width: u16,
    pub terminal_height: u16,
    pub message: Option<UiMessage>,
    pub command_in_flight: bool,
    pub runtime_status: RuntimeStatus,
    pub previous_session_interrupted: bool,
    pub navigation_generation: u64,
    pub pending_outcome_navigation: Option<PendingOutcomeNavigation>,
    pub tab_states: [TabState; 9],
}

/// The audit selection after a new list of `len` entries: the entry with the same
/// sequence number when the list still holds it, else the former position clamped
/// to the list, else the newest entry; none for an empty list.
pub open spec fn reselected_audit(
    entries: Seq<AuditEntry>,
    previous_sequence: Option<u64>,
    previous_selection: Option<usize>,
) -> Option<usize> {
    match previous_sequence {
        Some(sequence) if exists|i: int| 0 <= i < entries.len() && entries[i].sequence
            == sequence => Some(first_sequence_index(entries, sequence) as usize),
        _ => if entries.len() == 0 {
            None
        } else {
            match previous_selection {
                Some(selection) => if selection < entries.len() {
                    Some(selection)
                } else {
                    Some((entries.len() - 1) as usize)
                },
                None => Some((entries.len() - 1) as usize),
            }
        },
    }
}

/// Position of the first entry with `sequence`.
pub open spec fn first_sequence_index(entries: Seq<AuditEntry>, sequence: u64) -> nat
    decreases entries.len(),
{
    if entries.len() == 0 || entries[0].sequence == sequence {
        0
    } else {
        first_sequence_index(entries.drop_first(), sequence) + 1
    }
}

/// The first position with `sequence` is the one before which no entry has it.
pub proof fn lemma_first_sequence_index(entries: Seq<AuditEntry>, sequence: u64, i: int)
    requires
        0 <= i < entries.len(),
        entries[i].sequence == sequence,
        forall|j: int| 0 <= j < i ==> entries[j].sequence != sequence,
    ensures
        first_sequence_index(entries, sequence) == i,
    decreases i,
{
    if i > 0 {
        assert(entries[0].sequence != sequence);
        let rest = entries.drop_first();
        assert forall|j: int| 0 <= j < i - 1 implies rest[j].sequence != sequence by {
            assert(rest[j] == entries[j + 1]);
        }
        lemma_first_sequence_index(rest, sequence, i - 1);
    }
}

/// The first position of an audit entry with `sequence`.
pub fn position_of_sequence(entries: &Vec<AuditEntry>, sequence: u64) -> (found: Option<usize>)
    ensures
        match found {
            Some(i) => (exists|j: int| 0 <= j < entries@.len() && entries@[j].sequence == sequence)
                && i == first_sequence_index(entries@, sequence) && i < entries@.len()
                && entries@[i as int].sequence == sequence,
            None => !(exists|j: int| 0 <= j < entries@.len() && entries@[j].sequence == sequence),
        },
{
    let mut i: usize = 0;
    while i < entries.len()
        invariant
            i <= entries@.len(),
            forall|j: int| 0 <= j < i ==> entries@[j].sequence != sequence,
        decreases entries@.len() - i,
    {
        if entries[i].sequence == sequence {
            proof {
                lemma_first_sequence_index(entries@, sequence, i as int);
            }
            return Some(i);
        }
        i = i + 1;
    }
    None
}

/// The newest `COMMAND_HISTORY_CAPACITY` entries of `entries`.
pub open spec fn newest_audit(entries: Seq<AuditEntry>) -> Seq<AuditEntry> {
    if entries.len() > COMMAND_HISTORY_CAPACITY {
        entries.skip(entries.len() - COMMAND_HISTORY_CAPACITY)
    } else {
        entries
    }
}

/// The sequence number of the selected audit entry, if the selection names one.
pub open spec fn selected_sequence(entries: Seq<AuditEntry>, selection: Option<usize>) -> Option<u64> {
    match selection {
        Some(i) => if i < entries.len() {
            Some(entries[i as int].sequence)
        } else {
            None
        },
        None => None,
    }
}

/// An audit selection names an entry exactly when there is one.
pub open spec fn audit_selection_ok(entries: Seq<AuditEntry>, selection: Option<usize>) -> bool {
    match selection {
        Some(i) => i < entries.len(),
        None => entries.len() == 0,
    }
}

/// The selection one entry up, clamped to the first; the last when nothing was selected.
pub open spec fn previous_audit(len: nat, selection: Option<usize>) -> Option<usize> {
    if len == 0 {
        None
    } else {
        match selection {
            Some(s) => {
                let clamped = if s < len {
                    s as int
                } else {
                    len - 1
                };
                Some(if clamped == 0 {
                    0usize
                } else {
                    (clamped - 1) as usize
                })
            },
            None => Some((len - 1) as usize),
        }
    }
}

/// The selection one entry down, clamped to the last; the first when nothing was
/// selected.
pub open spec fn next_audit(len: nat, selection: Option<usize>) -> Option<usize> {
    if len == 0 {
        None
    } else {
        match selection {
            Some(s) => Some(if s + 1 < len {
                (s + 1) as usize
            } else {
                (len - 1) as usize
            }),
            None => Some(0usize),
        }
    }
}

/// The selected skill version assigned to the agent shown.
pub open spec fn assigned_selection(agents: AgentsViewState) -> Option<SkillVersionRef> {
    match agents.detail {
        Some(d) => if agents.selected_assigned_skill < d.skill_refs@.len() {
            Some(d.skill_refs@[agents.selected_assigned_skill as int])
        } else {
            None
        },
        None => None,
    }
}

/// Whether the pinned skill version has a newer active version in the library: unknown
/// without a pinned version or a library row for its skill; current when the row is the
/// pinned version; available when the row has a higher version; else inconsistent.
pub open spec fn upgrade_availability(
    pinned: Option<SkillVersionRef>,
    library: Seq<SkillSummary>,
) -> AgentSkillUpgradeAvailability {
    match pinned {
        None => AgentSkillUpgradeAvailability::Unknown,
        Some(pinned) => match first_skill_index(library, pinned.skill_id) {
            None => AgentSkillUpgradeAvailability::Unknown,
            Some(i) => {
                let active = library[i as int].skill_ref;
                if active == pinned {
                    AgentSkillUpgradeAvailability::Current
                } else if active.version > pinned.version {
                    AgentSkillUpgradeAvailability::Available(active)
                } else {
                    AgentSkillUpgradeAvailability::Inconsistent
                }
            },
        },
    }
}

/// The actions offered on an assigned skill: upgrade only when one is available.
pub open spec fn offered_skill_actions(availability: AgentSkillUpgradeAvailability) -> Seq<
    AgentSkillAction,
> {
    if availability is Available {
        seq![AgentSkillAction::View, AgentSkillAction::Upgrade, AgentSkillAction::Unassign]
    } else {
        seq![AgentSkillAction::View, AgentSkillAction::Unassign]
    }
}

/// `action` when offered, else view.
pub open spec fn offered_or_view(
    availability: AgentSkillUpgradeAvailability,
    action: AgentSkillAction,
) -> AgentSkillAction {
    if offered_skill_actions(availability).contains(action) {
        action
    } else {
        AgentSkillAction::View
    }
}

/// The index under which `action` is selected.
pub open spec fn skill_action_index(action: AgentSkillAction) -> usize {
    match action {
        AgentSkillAction::View => 0,
        AgentSkillAction::Upgrade => 1,
        AgentSkillAction::Unassign => 2,
    }
}

/// The navigation part of the model, saved before a command that may be rolled back.
#[derive(Debug, Clone, PartialEq, Eq)]
pub struct NavigationStateSnapshot {
    pub active_view: crate::screen::View,
    pub skills_active: bool,
    pub skills_pane: SkillsPane,
    pub skills_workspace_origin: Option<SkillWorkspaceOrigin>,
    pub agents_pane: AgentsPane,
    pub focus: Focus,
    pub input_mode: InputMode,
    pub inspector_open: bool,
    pub command: CommandEditor,
    pub workspace_scroll: u16,
    pub message: Option<UiMessage>,
    pub pending_agent_outcome: Option<AgentOutcomeIntent>,
    pub navigation_generation: u64,
    pub pending_outcome_navigation: Option<PendingOutcomeNavigation>,
    pub tab_states: [TabState; 9],
}

/// `snapshot` records the navigation state of `model`.
pub open spec fn records_navigation(snapshot: NavigationStateSnapshot, model: TuiModel) -> bool {
    &&& snapshot.active_view == model.active_view
    &&& snapshot.skills_active == model.skills.active
    &&& snapshot.skills_pane == model.skills.pane
    &&& snapshot.skills_workspace_origin == model.skills.workspace_origin
    &&& snapshot.agents_pane == model.agents.pane
    &&& snapshot.focus == model.focus
    &&& snapshot.input_mode == model.input_mode
    &&& snapshot.inspector_open == model.inspector_open
    &&& snapshot.command.text_view() == model.command.text_view()
    &&& snapshot.command.cursor_view() == model.command.cursor_view()
    &&& snapshot.command.history_view() == model.command.history_view()
    &&& snapshot.command.recall_index() == model.command.recall_index()
    &&& snapshot.workspace_scroll == model.workspace_scroll
    &&& snapshot.message == model.message
    &&& snapshot.pending_agent_outcome == model.pending_agent_outcome
    &&& snapshot.navigation_generation == model.navigation_generation
    &&& snapshot.pending_outcome_navigation == model.pending_outcome_navigation
    &&& forall|tab: NavigationTab| #[trigger] snapshot.tab_states@[tab_index(tab)].same_as(
        model.saved_tab(tab),
    )
}

/// `model` with the navigation state of `snapshot` put back, before the layout is derived.
pub open spec fn with_navigation(model: TuiModel, snapshot: NavigationStateSnapshot) -> TuiModel {
    TuiModel {
        active_view: snapshot.active_view,
        skills: SkillsViewState {
            active: snapshot.skills_active,
            pane: snapshot.skills_pane,
            workspace_origin: snapshot.skills_workspace_origin,
            ..model.skills
        },
        agents: AgentsViewState { pane: snapshot.agents_pane, ..model.agents },
        focus: snapshot.focus,
        input_mode: snapshot.input_mode,
        inspector_open: snapshot.inspector_open,
        command: snapshot.command,
        workspace_scroll: snapshot.workspace_scroll,
        message: snapshot.message,
        pending_agent_outcome: snapshot.pending_agent_outcome,
        navigation_generation: snapshot.navigation_generation,
        pending_outcome_navigation: snapshot.pending_outcome_navigation,
        tab_states: snapshot.tab_states,
        ..model
    }
}

/// The view once `target` is shown: the skills tab keeps the view beneath it.
pub open spec fn view_after(view: crate::screen::View, target: NavigationTab) -> crate::screen::View {
    match target {
        NavigationTab::Overview => crate::screen::View::Overview,
        NavigationTab::Chat => crate::screen::View::Chat,
        NavigationTab::Agents => crate::screen::View::Agents,
        NavigationTab::Skills => view,
        NavigationTab::Connections => crate::screen::View::Connections,
        NavigationTab::Activity => crate::screen::View::Activity,
        NavigationTab::Setup => crate::screen::View::Setup,
        NavigationTab::Audit => crate::screen::View::Audit,
        NavigationTab::Help => crate::screen::View::Help,
    }
}

/// `state` holds the live focus, input mode, inspector, scroll and command line of `model`.
pub open spec fn holds_live(state: TabState, model: TuiModel) -> bool {
    &&& state.focus == model.focus
    &&& state.input_mode == model.input_mode
    &&& state.inspector_open == model.inspector_open
    &&& state.workspace_scroll == model.workspace_scroll
    &&& state.command_draft.text_view() == model.command.text_view()
    &&& state.command_draft.cursor_view() == model.command.cursor_view()
    &&& state.command_draft.recall_index() == model.command.recall_index()
}

/// The command line of `after` is the draft `saved`, over the history of `before`, with
/// its recall position relocated.
pub open spec fn command_restored(before: TuiModel, saved: TabState, after: TuiModel) -> bool {
    &&& after.command.text_view() == saved.command_draft.text_view()
    &&& after.command.cursor_view() == saved.command_draft.cursor_view()
    &&& after.command.history_view() == before.command.history_view()
    &&& after.command.recall_index() == relocated_recall(
        before.command.history_view(),
        saved.command_draft.recall_index(),
        saved.command_draft.text_view(),
    )
}

/// `after` is `before` with its live tab state exchanged for the one saved for `tab`.
pub open spec fn tab_state_swapped(before: TuiModel, tab: NavigationTab, after: TuiModel) -> bool {
    let saved = before.saved_tab(tab);
    &&& after == (TuiModel {
        focus: saved.focus,
        input_mode: saved.input_mode,
        inspector_open: saved.inspector_open,
        workspace_scroll: saved.workspace_scroll,
        command: after.command,
        tab_states: after.tab_states,
        ..before
    })
    &&& command_restored(before, saved, after)
    &&& holds_live(after.saved_tab(tab), before)
    &&& forall|other: NavigationTab| other != tab ==> after.saved_tab(other) == before.saved_tab(
        other,
    )
}

/// `before.navigation_generation + 1`, wrapping.
pub open spec fn next_generation(generation: u64) -> u64 {
    if generation == u64::MAX {
        0
    } else {
        (generation + 1) as u64
    }
}

/// `after` is `before` with its geometry derived anew, as `synchronize_geometry` leaves
/// it: the layout mode of the terminal size, the focus made visible (see `laid_out`), and
/// the workspace body the layout gave, which is empty when the terminal is too small.
/// How large the body is otherwise is the layout solver's answer and is not stated.
pub open spec fn resynced(before: TuiModel, after: TuiModel) -> bool {
    &&& after == (TuiModel {
        workspace_body_width: after.workspace_body_width,
        workspace_body_height: after.workspace_body_height,
        ..before.laid_out()
    })
    &&& after.layout_mode == LayoutMode::TooSmall ==> after.workspace_body_width == 0
        && after.workspace_body_height == 0
}

/// `after` shows tab `target`, which `before` did not show: the generation advanced, the
/// live state of the tab left is saved, the saved state of `target` is live again with
/// its focus made visible, and the layout is derived anew. Other saved tabs are kept.
pub open spec fn tab_switched(before: TuiModel, target: NavigationTab, after: TuiModel) -> bool {
    let saved = before.saved_tab(target);
    let placed = TuiModel {
        active_view: view_after(before.active_view, target),
        skills: SkillsViewState { active: target == NavigationTab::Skills, ..before.skills },
        focus: saved.focus,
        input_mode: saved.input_mode,
        inspector_open: saved.inspector_open,
        workspace_scroll: saved.workspace_scroll,
        command: after.command,
        tab_states: after.tab_states,
        navigation_generation: next_generation(before.navigation_generation),
        ..before
    };
    &&& resynced(placed, after)
    &&& command_restored(before, saved, after)
    &&& holds_live(after.saved_tab(before.active_tab()), before)
    &&& forall|other: NavigationTab|
        other != target && other != before.active_tab() ==> after.saved_tab(other)
            == before.saved_tab(other)
}

/// Restoring a snapshot of a model whose layout was derived brings back all of the
/// navigation state it recorded, focus included, and the same layout mode, whatever happened
/// in between, as long as the terminal kept its size.
pub proof fn law_restore_brings_back_navigation(
    start: TuiModel,
    snapshot: NavigationStateSnapshot,
    middle: TuiModel,
    end: TuiModel,
)
    requires
        records_navigation(snapshot, start),
        resynced(start, start),
        middle.terminal_width == start.terminal_width,
        middle.terminal_height == start.terminal_height,
        resynced(with_navigation(middle, snapshot), end),
    ensures
        records_navigation(snapshot, end),
        end.layout_mode == start.layout_mode,
{
}

/// Moving the audit selection up or down, or to the first or last entry, always leaves a
/// selection that names an entry exactly when the list has one.
pub proof fn law_audit_moves_stay_in_range(entries: Seq<AuditEntry>, selection: Option<usize>)
    ensures
        audit_selection_ok(entries, previous_audit(entries.len(), selection)),
        audit_selection_ok(entries, next_audit(entries.len(), selection)),
        audit_selection_ok(
            entries,
            if entries.len() == 0 {
                None
            } else {
                Some(0usize)
            },
        ),
        audit_selection_ok(
            entries,
            if entries.len() == 0 {
                None
            } else {
                Some((entries.len() - 1) as usize)
            },
        ),
{
}

/// The answer to a command sent on a tab is presented while the user stays there, and
/// not once another tab was shown in the meantime.
pub proof fn law_outcome_presented_only_without_navigation(
    sent: TuiModel,
    target: NavigationTab,
    moved: TuiModel,
)
    requires
        sent.pending_outcome_navigation == Some(
            PendingOutcomeNavigation::SelectIfUnchanged {
                tab: sent.active_tab(),
                generation: sent.navigation_generation,
            },
        ),
        target != sent.active_tab(),
        tab_switched(sent, target, moved),
    ensures
        sent.presents_outcome(),
        !moved.presents_outcome(),
{
    lemma_active_tab_of_switched(sent, target, moved);
}

/// Once made visible, the focus stays where it is.
pub proof fn lemma_visible_focus_stable(model: TuiModel)
    ensures
        (TuiModel { focus: model.visible_focus(), ..model }).visible_focus() == model.visible_focus(),
{
}

/// Showing another tab and then coming back brings back the tab, its command line
/// (text, cursor, history, and recall position relocated to the same entry), its input
/// mode, inspector and scroll, and its focus as it is made visible; the generation
/// advanced twice.
pub proof fn law_tab_round_trip_restores_state(
    start: TuiModel,
    away: NavigationTab,
    middle: TuiModel,
    end: TuiModel,
)
    requires
        start.active_tab() != away,
        tab_switched(start, away, middle),
        tab_switched(middle, start.active_tab(), end),
    ensures
        end.active_tab() == start.active_tab(),
        end.command.text_view() == start.command.text_view(),
        end.command.cursor_view() == start.command.cursor_view(),
        end.command.history_view() == start.command.history_view(),
        end.command.recall_index() == relocated_recall(
            start.command.history_view(),
            start.command.recall_index(),
            start.command.text_view(),
        ),
        end.input_mode == start.input_mode,
        end.inspector_open == start.inspector_open,
        end.workspace_scroll == start.workspace_scroll,
        end.focus == start.laid_out().focus,
        end.navigation_generation == next_generation(next_generation(start.navigation_generation)),
{
    lemma_active_tab_of_switched(start, away, middle);
    lemma_active_tab_of_switched(middle, start.active_tab(), end);
}

/// The tab shown after a switch is its target.
pub proof fn lemma_active_tab_of_switched(before: TuiModel, target: NavigationTab, after: TuiModel)
    requires
        tab_switched(before, target, after),
    ensures
        after.active_tab() == target,
        after.agents == before.agents,
        after.terminal_width == before.terminal_width,
        after.terminal_height == before.terminal_height,
{
}

impl TuiModel {
    /// The tab shown.
    pub open spec fn active_tab(self) -> NavigationTab {
        if self.skills.active {
            NavigationTab::Skills
        } else {
            tab_for_view(self.active_view)
        }
    }

    /// The memory workspace of the agents view is shown.
    pub open spec fn memory_shown(self) -> bool {
        !self.skills.active && self.active_view == crate::screen::View::Agents && self.agents.pane
            == AgentsPane::Memory
    }

    /// The inspector is drawn: it is open and the memory workspace is not shown.
    pub open spec fn inspector_visible(self) -> bool {
        self.inspector_open && !self.memory_shown()
    }

    /// The command line is drawn: the command has focus, or an editor that types into
    /// the command line is open.
    pub open spec fn input_visible(self) -> bool {
        self.focus == Focus::Command || (!self.skills.active && self.active_view
            == crate::screen::View::Agents && self.agents.pane == AgentsPane::Editor) || (
        self.skills.active && self.skills.pane == SkillsPane::Editor) || (self.memory_shown()
            && self.agents.memory.pane == MemoryPane::Editor && self.agents.memory.editor is Some)
    }

    /// The focus once made visible: the command keeps it; the inspector gives way to the
    /// workspace when the memory workspace is shown, or when closed; a too-small layout
    /// shows only the workspace.
    pub open spec fn visible_focus(self) -> Focus {
        if self.focus == Focus::Command {
            self.focus
        } else if self.memory_shown() && self.focus == Focus::Inspector {
            Focus::Workspace
        } else {
            let visible = match self.layout_mode {
                LayoutMode::TooSmall => self.focus == Focus::Workspace,
                _ => self.focus != Focus::Inspector || self.inspector_open,
            };
            if visible {
                self.focus
            } else {
                Focus::Workspace
            }
        }
    }

    /// The saved state of `tab`.
    pub open spec fn saved_tab(self, tab: NavigationTab) -> TabState {
        self.tab_states@[tab_index(tab)]
    }

    /// How many times the shown tab changed, modulo 2^64.
    pub open spec fn navigation_generation_view(self) -> u64 {
        self.navigation_generation
    }

    /// Whether the answer to the command in flight may change the shown tab.
    pub open spec fn pending_navigation(self) -> Option<PendingOutcomeNavigation> {
        self.pending_outcome_navigation
    }

    /// The model with the layout mode of its terminal size and its focus made visible.
    pub open spec fn laid_out(self) -> TuiModel {
        let moded = TuiModel {
            layout_mode: mode_for(self.terminal_width, self.terminal_height),
            ..self
        };
        TuiModel { focus: moded.visible_focus(), ..moded }
    }

    /// The tab shown.
    pub fn active_navigation_tab(&self) -> (tab: NavigationTab)
        ensures
            tab == self.active_tab(),
    {
        if self.skills.active {
            return NavigationTab::Skills;
        }
        NavigationTab::for_view(self.active_view)
    }

    /// Whether the inspector is drawn.
    pub fn inspector_is_visible(&self) -> (visible: bool)
        ensures
            visible == self.inspector_visible(),
    {
        self.inspector_open && !(!self.skills.active && self.active_view
            == crate::screen::View::Agents && self.agents.pane == AgentsPane::Memory)
    }

    /// Whether the command line is drawn.
    pub fn input_is_visible(&self) -> (visible: bool)
        ensures
            visible == self.input_visible(),
    {
        self.focus == Focus::Command || (!self.skills.active && self.active_view
            == crate::screen::View::Agents && self.agents.pane == AgentsPane::Editor) || (
        self.skills.active && self.skills.pane == SkillsPane::Editor) || (!self.skills.active
            && self.active_view == crate::screen::View::Agents && self.agents.pane
            == AgentsPane::Memory && self.agents.memory.pane == MemoryPane::Editor
            && self.agents.memory.editor.is_some())
    }

    /// Moves the focus to the workspace when it sits on a region that is not drawn.
    pub fn normalize_visible_focus(&mut self)
        ensures
            *final(self) == (TuiModel { focus: old(self).visible_focus(), ..*old(self) }),
    {
        if self.focus == Focus::Command {
            return;
        }
        if !self.skills.active && self.active_view == crate::screen::View::Agents
            && self.agents.pane == AgentsPane::Memory && self.focus == Focus::Inspector {
            self.focus = Focus::Workspace;
            return;
        }
        let visible = match self.layout_mode {
            LayoutMode::TooSmall => self.focus == Focus::Workspace,
            _ => self.focus != Focus::Inspector || self.inspector_open,
        };
        if !visible {
            self.focus = Focus::Workspace;
        }
    }

    /// Derives the layout mode and workspace body from the terminal size and the
    /// inspector, then makes the focus visible.
    pub fn synchronize_geometry(&mut self)
        ensures
            resynced(*old(self), *final(self)),
    {
        let area = Rect { x: 0, y: 0, width: self.terminal_width, height: self.terminal_height };
        let cockpit = calculate(area, self.inspector_is_visible());
        let (width, height) = if cockpit.mode == LayoutMode::TooSmall {
            (0u16, 0u16)
        } else {
            (cockpit.workspace.width.saturating_sub(2), cockpit.workspace.height.saturating_sub(2))
        };
        self.layout_mode = cockpit.mode;
        self.workspace_body_width = width;
        self.workspace_body_height = height;
        self.normalize_visible_focus();
    }

    /// Focuses `focus`; the command focus types, every other navigates.
    pub fn set_focus(&mut self, focus: Focus)
        ensures
            resynced(TuiModel {
                focus,
                input_mode: if focus == Focus::Command {
                    InputMode::Type
                } else {
                    InputMode::Nav
                },
                ..*old(self)
            }, *final(self)),
    {
        self.focus = focus;
        self.input_mode = if focus == Focus::Command {
            InputMode::Type
        } else {
            InputMode::Nav
        };
        self.synchronize_geometry();
    }

    /// Sets the input mode.
    pub fn set_input_mode(&mut self, input_mode: InputMode)
        ensures
            *final(self) == (TuiModel { input_mode, ..*old(self) }),
    {
        self.input_mode = input_mode;
    }

    /// Sets the layout mode.
    pub fn set_layout_mode(&mut self, layout_mode: LayoutMode)
        ensures
            *final(self) == (TuiModel { layout_mode, ..*old(self) }),
    {
        self.layout_mode = layout_mode;
    }

    /// Opens or closes the inspector.
    pub fn toggle_inspector(&mut self)
        ensures
            resynced(TuiModel { inspector_open: !old(self).inspector_open, ..*old(self) }, *final(self)),
    {
        self.inspector_open = !self.inspector_open;
        self.synchronize_geometry();
    }

    /// Scrolls the workspace up by `amount` lines, stopping at the top.
    pub fn scroll_up(&mut self, amount: u16)
        ensures
            *final(self) == (TuiModel {
                workspace_scroll: if old(self).workspace_scroll >= amount {
                    (old(self).workspace_scroll - amount) as u16
                } else {
                    0
                },
                ..*old(self)
            }),
    {
        self.workspace_scroll = self.workspace_scroll.saturating_sub(amount);
    }

    /// Scrolls the workspace down by `amount` lines, saturating.
    pub fn scroll_down(&mut self, amount: u16)
        ensures
            *final(self) == (TuiModel {
                workspace_scroll: if old(self).workspace_scroll + amount <= u16::MAX {
                    (old(self).workspace_scroll + amount) as u16
                } else {
                    u16::MAX
                },
                ..*old(self)
            }),
    {
        self.workspace_scroll = self.workspace_scroll.saturating_add(amount);
    }

    /// Scrolls the workspace to the top.
    pub fn scroll_home(&mut self)
        ensures
            *final(self) == (TuiModel { workspace_scroll: 0, ..*old(self) }),
    {
        self.workspace_scroll = 0;
    }

    /// Records the size of the workspace body.
    pub fn set_workspace_body_size(&mut self, width: u16, height: u16)
        ensures
            *final(self) == (TuiModel {
                workspace_body_width: width,
                workspace_body_height: height,
                ..*old(self)
            }),
    {
        self.workspace_body_width = width;
        self.workspace_body_height = height;
    }

    /// Records the height of the workspace content as last drawn.
    pub fn set_workspace_content_height(&mut self, height: u16)
        ensures
            *final(self) == (TuiModel { workspace_content_height: height, ..*old(self) }),
    {
        self.workspace_content_height = height;
    }

    /// Records the terminal size and derives the layout from it.
    pub fn set_terminal_size(&mut self, width: u16, height: u16)
        ensures
            resynced(TuiModel {
                terminal_width: width,
                terminal_height: height,
                ..*old(self)
            }, *final(self)),
    {
        self.terminal_width = width;
        self.terminal_height = height;
        self.synchronize_geometry();
    }

    /// Shows a message.
    pub fn set_message(&mut self, severity: Severity, text: String)
        ensures
            *final(self) == (TuiModel { message: Some(UiMessage { severity, text }), ..*old(self) }),
    {
        self.message = Some(UiMessage { severity, text });
    }

    /// Hides the message.
    pub fn clear_message(&mut self)
        ensures
            *final(self) == (TuiModel { message: None, ..*old(self) }),
    {
        self.message = None;
    }

    /// Records the runtime status.
    pub fn set_runtime_status(&mut self, runtime_status: RuntimeStatus)
        ensures
            *final(self) == (TuiModel { runtime_status, ..*old(self) }),
    {
        self.runtime_status = runtime_status;
    }

    /// Exchanges the live focus, input mode, inspector, scroll and command line with
    /// the state saved for `tab`.
    fn swap_tab_state(&mut self, tab: NavigationTab)
        ensures
            tab_state_swapped(*old(self), tab, *final(self)),
    {
        let i = tab.index();
        let saved = self.tab_states[i].duplicate();
        let mut draft = saved.command_draft;
        self.command.swap_draft(&mut draft);
        let live = TabState {
            focus: self.focus,
            input_mode: self.input_mode,
            inspector_open: self.inspector_open,
            workspace_scroll: self.workspace_scroll,
            command_draft: draft,
        };
        self.focus = saved.focus;
        self.input_mode = saved.input_mode;
        self.inspector_open = saved.inspector_open;
        self.workspace_scroll = saved.workspace_scroll;
        self.tab_states.set(i, live);
        proof {
            assert forall|other: NavigationTab| other != tab implies self.saved_tab(other)
                == old(self).saved_tab(other) by {
                lemma_tab_index_round_trip(other);
                lemma_tab_index_round_trip(tab);
            }
        }
    }

    /// Points the view and the skills flag at `target`.
    fn show_view_of(&mut self, target: NavigationTab)
        ensures
            *final(self) == (TuiModel {
                active_view: view_after(old(self).active_view, target),
                skills: SkillsViewState {
                    active: target == NavigationTab::Skills,
                    ..old(self).skills
                },
                ..*old(self)
            }),
    {
        let view = match target {
            NavigationTab::Overview => crate::screen::View::Overview,
            NavigationTab::Chat => crate::screen::View::Chat,
            NavigationTab::Agents => crate::screen::View::Agents,
            NavigationTab::Skills => self.active_view,
            NavigationTab::Connections => crate::screen::View::Connections,
            NavigationTab::Activity => crate::screen::View::Activity,
            NavigationTab::Setup => crate::screen::View::Setup,
            NavigationTab::Audit => crate::screen::View::Audit,
            NavigationTab::Help => crate::screen::View::Help,
        };
        self.skills.active = target == NavigationTab::Skills;
        self.active_view = view;
    }

    /// Shows tab `target`; nothing changes when it is already shown.
    pub fn switch_tab(&mut self, target: NavigationTab)
        ensures
            old(self).active_tab() == target ==> *final(self) == *old(self),
            old(self).active_tab() != target ==> tab_switched(*old(self), target, *final(self)),
    {
        let current = self.active_navigation_tab();
        if current == target {
            return;
        }
        let ghost before = *self;
        self.navigation_generation = self.navigation_generation.wrapping_add(1);
        self.swap_tab_state(current);
        let ghost first = *self;
        self.show_view_of(target);
        let ghost moved = *self;
        self.swap_tab_state(target);
        let ghost second = *self;
        self.synchronize_geometry();
        let ghost synced = *self;
        self.normalize_visible_focus();
        proof {
            lemma_visible_focus_stable(TuiModel {
                layout_mode: synced.layout_mode,
                workspace_body_width: synced.workspace_body_width,
                workspace_body_height: synced.workspace_body_height,
                ..second
            });
            assert(first.saved_tab(target) == before.saved_tab(target));
            assert(moved.tab_states == first.tab_states);
            assert(moved.saved_tab(target) == before.saved_tab(target));
            assert(second.saved_tab(current) == first.saved_tab(current));
            assert forall|other: NavigationTab|
                other != target && other != current implies second.saved_tab(other)
                    == before.saved_tab(other) by {
                assert(first.saved_tab(other) == before.saved_tab(other));
                assert(second.saved_tab(other) == moved.saved_tab(other));
            }
        }
    }

    /// Shows the tab of `view`.
    pub fn select_view(&mut self, view: crate::screen::View)
        ensures
            old(self).active_tab() == tab_for_view(view) ==> *final(self) == *old(self),
            old(self).active_tab() != tab_for_view(view) ==> tab_switched(
                *old(self),
                tab_for_view(view),
                *final(self),
            ),
    {
        self.switch_tab(NavigationTab::for_view(view));
    }

    /// The position of the newest audit entry.
    fn audit_last_index(&self) -> (last: Option<usize>)
        ensures
            last == (if self.audit_entries@.len() == 0 {
                None
            } else {
                Some((self.audit_entries@.len() - 1) as usize)
            }),
    {
        self.audit_entries.len().checked_sub(1)
    }

    /// Installs a new audit list, keeping its newest entries. The selection follows the
    /// same event when it is still listed; see `reselected_audit`.
    pub fn replace_audit(&mut self, entries: Vec<AuditEntry>)
        ensures
            final(self).audit_entries@ == newest_audit(entries@),
            final(self).audit_selection == reselected_audit(
                newest_audit(entries@),
                selected_sequence(old(self).audit_entries@, old(self).audit_selection),
                old(self).audit_selection,
            ),
            *final(self) == (TuiModel {
                audit_entries: final(self).audit_entries,
                audit_selection: final(self).audit_selection,
                ..*old(self)
            }),
            final(self).audit_entries@.len() <= COMMAND_HISTORY_CAPACITY,
            audit_selection_ok(final(self).audit_entries@, final(self).audit_selection),
    {
        let ghost incoming = entries@;
        let mut entries = entries;
        let selected = match self.audit_selection {
            Some(selection) => if selection < self.audit_entries.len() {
                Some(self.audit_entries[selection].sequence)
            } else {
                None
            },
            None => None,
        };
        let previous_selection = self.audit_selection;
        let first_newest = entries.len().saturating_sub(COMMAND_HISTORY_CAPACITY);
        if first_newest > 0 {
            entries = entries.split_off(first_newest);
        }
        proof {
            assert(entries@ =~= newest_audit(incoming));
        }
        self.audit_entries = entries;
        let found = match selected {
            Some(sequence) => position_of_sequence(&self.audit_entries, sequence),
            None => None,
        };
        self.audit_selection = match found {
            Some(index) => Some(index),
            None => match (previous_selection, self.audit_last_index()) {
                (_, None) => None,
                (Some(selection), Some(last_index)) => Some(
                    if selection < last_index {
                        selection
                    } else {
                        last_index
                    },
                ),
                (None, Some(last_index)) => Some(last_index),
            },
        };
    }

    /// Selects the audit entry one up; see `previous_audit`.
    pub fn select_previous_audit(&mut self)
        ensures
            *final(self) == (TuiModel {
                audit_selection: previous_audit(old(self).audit_entries@.len(), old(self).audit_selection),
                ..*old(self)
            }),
    {
        let len = self.audit_entries.len();
        self.audit_selection = if len == 0 {
            None
        } else {
            match self.audit_selection {
                Some(selection) => {
                    let clamped = if selection < len {
                        selection
                    } else {
                        len - 1
                    };
                    Some(
                        if clamped == 0 {
                            0
                        } else {
                            clamped - 1
                        },
                    )
                },
                None => Some(len - 1),
            }
        };
    }

    /// Selects the audit entry one down; see `next_audit`.
    pub fn select_next_audit(&mut self)
        ensures
            *final(self) == (TuiModel {
                audit_selection: next_audit(old(self).audit_entries@.len(), old(self).audit_selection),
                ..*old(self)
            }),
    {
        let len = self.audit_entries.len();
        self.audit_selection = if len == 0 {
            None
        } else {
            match self.audit_selection {
                Some(selection) => Some(
                    if selection < len - 1 {
                        selection + 1
                    } else {
                        len - 1
                    },
                ),
                None => Some(0),
            }
        };
    }

    /// Selects the oldest audit entry, if any.
    pub fn select_first_audit(&mut self)
        ensures
            *final(self) == (TuiModel {
                audit_selection: if old(self).audit_entries@.len() == 0 {
                    None
                } else {
                    Some(0usize)
                },
                ..*old(self)
            }),
    {
        self.audit_selection = match self.audit_last_index() {
            Some(_) => Some(0),
            None => None,
        };
    }

    /// Selects the newest audit entry, if any.
    pub fn select_last_audit(&mut self)
        ensures
            *final(self) == (TuiModel {
                audit_selection: if old(self).audit_entries@.len() == 0 {
                    None
                } else {
                    Some((old(self).audit_entries@.len() - 1) as usize)
                },
                ..*old(self)
            }),
    {
        self.audit_selection = self.audit_last_index();
    }

    /// Marks a command as sent or answered. Sending from idle records the shown tab and
    /// generation, so the answer is presented only if the user has not moved on; an answer
    /// forgets that record.
    pub fn set_command_in_flight(&mut self, command_in_flight: bool)
        ensures
            *final(self) == (TuiModel {
                command_in_flight,
                pending_outcome_navigation: if command_in_flight && !old(self).command_in_flight {
                    Some(
                        PendingOutcomeNavigation::SelectIfUnchanged {
                            tab: old(self).active_tab(),
                            generation: old(self).navigation_generation,
                        },
                    )
                } else if !command_in_flight {
                    None
                } else {
                    old(self).pending_outcome_navigation
                },
                ..*old(self)
            }),
    {
        if command_in_flight && !self.command_in_flight {
            self.pending_outcome_navigation = Some(
                PendingOutcomeNavigation::SelectIfUnchanged {
                    tab: self.active_navigation_tab(),
                    generation: self.navigation_generation,
                },
            );
        } else if !command_in_flight {
            self.pending_outcome_navigation = None;
        }
        self.command_in_flight = command_in_flight;
    }

    /// Marks a command as sent whose answer must leave the shown tab as it is.
    pub fn set_command_in_flight_preserving_navigation(&mut self)
        ensures
            *final(self) == (TuiModel {
                command_in_flight: true,
                pending_outcome_navigation: Some(PendingOutcomeNavigation::PreserveCurrent),
                ..*old(self)
            }),
    {
        self.command_in_flight = true;
        self.pending_outcome_navigation = Some(PendingOutcomeNavigation::PreserveCurrent);
    }

    /// Whether the answer to the command in flight may be presented: always when nothing
    /// was recorded, never when it must preserve the shown tab, else only while the same
    /// tab is shown and no switch happened since.
    pub open spec fn presents_outcome(self) -> bool {
        match self.pending_outcome_navigation {
            Some(PendingOutcomeNavigation::SelectIfUnchanged { tab, generation }) => tab
                == self.active_tab() && generation == self.navigation_generation,
            Some(PendingOutcomeNavigation::PreserveCurrent) => false,
            None => true,
        }
    }

    /// Whether the answer to the command in flight may be presented.
    pub fn should_present_pending_outcome(&self) -> (present: bool)
        ensures
            present == self.presents_outcome(),
    {
        match self.pending_outcome_navigation {
            Some(PendingOutcomeNavigation::SelectIfUnchanged { tab, generation }) => {
                tab == self.active_navigation_tab() && generation == self.navigation_generation
            },
            Some(PendingOutcomeNavigation::PreserveCurrent) => false,
            None => true,
        }
    }

    /// Whether the selected assigned skill can be upgraded; see `upgrade_availability`.
    pub fn agent_skill_upgrade_availability(&self) -> (availability: AgentSkillUpgradeAvailability)
        ensures
            availability == upgrade_availability(
                assigned_selection(self.agents),
                self.skills.library.skills@,
            ),
    {
        let pinned = match self.agents.selected_assigned_skill_ref() {
            Some(pinned) => pinned,
            None => return AgentSkillUpgradeAvailability::Unknown,
        };
        let active = match find_skill(&self.skills.library.skills, pinned.skill_id) {
            Some(index) => self.skills.library.skills[index].skill_ref,
            None => return AgentSkillUpgradeAvailability::Unknown,
        };
        if active == pinned {
            AgentSkillUpgradeAvailability::Current
        } else if active.version > pinned.version {
            AgentSkillUpgradeAvailability::Available(active)
        } else {
            AgentSkillUpgradeAvailability::Inconsistent
        }
    }

    /// The actions offered on the selected assigned skill.
    pub fn available_agent_skill_actions(&self) -> (actions: Vec<AgentSkillAction>)
        ensures
            actions@ == offered_skill_actions(
                upgrade_availability(assigned_selection(self.agents), self.skills.library.skills@),
            ),
    {
        let availability = self.agent_skill_upgrade_availability();
        match availability {
            AgentSkillUpgradeAvailability::Available(_) => vec![
                AgentSkillAction::View,
                AgentSkillAction::Upgrade,
                AgentSkillAction::Unassign,
            ],
            _ => vec![AgentSkillAction::View, AgentSkillAction::Unassign],
        }
    }

    /// Whether `action` is offered on the selected assigned skill.
    fn offers_skill_action(&self, action: AgentSkillAction) -> (offered: bool)
        ensures
            offered == offered_skill_actions(
                upgrade_availability(assigned_selection(self.agents), self.skills.library.skills@),
            ).contains(action),
    {
        let actions = self.available_agent_skill_actions();
        let mut i: usize = 0;
        while i < actions.len()
            invariant
                i <= actions@.len(),
                actions@ == offered_skill_actions(
                    upgrade_availability(assigned_selection(self.agents), self.skills.library.skills@),
                ),
                forall|j: int| 0 <= j < i ==> actions@[j] != action,
            decreases actions@.len() - i,
        {
            if actions[i] == action {
                assert(actions@[i as int] == action);
                return true;
            }
            i = i + 1;
        }
        false
    }

    /// The selected action on the assigned skill, view when it is not offered.
    pub fn selected_available_agent_skill_action(&self) -> (action: AgentSkillAction)
        ensures
            action == offered_or_view(
                upgrade_availability(assigned_selection(self.agents), self.skills.library.skills@),
                skill_action_at(self.agents.selected_skill_action_index),
            ),
    {
        let selected = self.agents.selected_skill_action();
        if self.offers_skill_action(selected) {
            selected
        } else {
            AgentSkillAction::View
        }
    }

    /// Selects `action` on the assigned skill, view when it is not offered.
    pub fn select_available_agent_skill_action(&mut self, action: AgentSkillAction)
        ensures
            *final(self) == (TuiModel {
                agents: AgentsViewState {
                    selected_skill_action_index: skill_action_index(
                        offered_or_view(
                            upgrade_availability(
                                assigned_selection(old(self).agents),
                                old(self).skills.library.skills@,
                            ),
                            action,
                        ),
                    ),
                    ..old(self).agents
                },
                ..*old(self)
            }),
    {
        let action = if self.offers_skill_action(action) {
            action
        } else {
            AgentSkillAction::View
        };
        self.agents.selected_skill_action_index = match action {
            AgentSkillAction::View => 0,
            AgentSkillAction::Upgrade => 1,
            AgentSkillAction::Unassign => 2,
        };
    }

    /// The cockpit as it starts: the overview shown with workspace focus, the snapshot's
    /// identity, readiness and agent profiles, its newest audit entries with the newest
    /// selected, an empty command line, every tab fresh, and the layout of the default
    /// terminal size.
    pub fn new(snapshot: PresentationSnapshot, previous_session_interrupted: bool) -> (model: TuiModel)
        ensures
            resynced(TuiModel {
                active_view: crate::screen::View::Overview,
                agents: AgentsViewState {
                    detail: snapshot.selected_agent_profile,
                    history: snapshot.selected_agent_profile_history,
                    ..model.agents
                },
                skills: model.skills,
                pending_agent_outcome: None,
                focus: Focus::Workspace,
                input_mode: InputMode::Nav,
                layout_mode: LayoutMode::Wide,
                inspector_open: false,
                command: model.command,
                installation_id: snapshot.installation_id,
                session_id: snapshot.session_id,
                database_readiness: snapshot.database_readiness,
                process_guard_ownership: snapshot.process_guard_ownership,
                setup_status: snapshot.setup_status,
                audit_entries: model.audit_entries,
                audit_selection: if newest_audit(snapshot.recent_audit@).len() == 0 {
                    None
                } else {
                    Some((newest_audit(snapshot.recent_audit@).len() - 1) as usize)
                },
                workspace_scroll: 0,
                workspace_body_width: 0,
                workspace_body_height: 0,
                workspace_content_height: 0,
                terminal_width: WIDE_WIDTH,
                terminal_height: WIDE_HEIGHT,
                message: None,
                command_in_flight: false,
                runtime_status: RuntimeStatus::Ready,
                previous_session_interrupted,
                navigation_generation: 0,
                pending_outcome_navigation: None,
                tab_states: model.tab_states,
            }, model),
            model.agents == (AgentsViewState {
                detail: snapshot.selected_agent_profile,
                history: snapshot.selected_agent_profile_history,
                ..model.agents
            }),
            model.agents == (AgentsViewState {
                detail: model.agents.detail,
                history: model.agents.history,
                ..initial_agents(snapshot.agent_profiles)
            }),
            model.skills == initial_skills(model.skills.library),
            model.skills.library.skills@.len() == 0,
            model.audit_entries@ == newest_audit(snapshot.recent_audit@),
            model.command.text_view() == Seq::<char>::empty(),
            model.command.cursor_view() == 0,
            model.command.history_view() == Seq::<Seq<char>>::empty(),
            model.command.recall_index() == None::<usize>,
            forall|tab: NavigationTab| #[trigger] model.saved_tab(tab).is_fresh(),
    {
        let PresentationSnapshot {
            installation_id,
            session_id,
            database_readiness,
            process_guard_ownership,
            setup_status,
            recent_audit,
            agent_profiles,
            selected_agent_profile,
            selected_agent_profile_history,
        } = snapshot;
        let mut agents = AgentsViewState::new(agent_profiles);
        agents.detail = selected_agent_profile;
        agents.history = selected_agent_profile_history;
        let mut model = TuiModel {
            active_view: crate::screen::View::Overview,
            agents,
            skills: SkillsViewState::new(),
            pending_agent_outcome: None,
            focus: Focus::Workspace,
            input_mode: InputMode::Nav,
            layout_mode: LayoutMode::Wide,
            inspector_open: false,
            command: CommandEditor::new(),
            installation_id,
            session_id,
            database_readiness,
            process_guard_ownership,
            setup_status,
            audit_entries: Vec::new(),
            audit_selection: None,
            workspace_scroll: 0,
            workspace_body_width: 0,
            workspace_body_height: 0,
            workspace_content_height: 0,
            terminal_width: WIDE_WIDTH,
            terminal_height: WIDE_HEIGHT,
            message: None,
            command_in_flight: false,
            runtime_status: RuntimeStatus::Ready,
            previous_session_interrupted,
            navigation_generation: 0,
            pending_outcome_navigation: None,
            tab_states: [
                TabState::new(),
                TabState::new(),
                TabState::new(),
                TabState::new(),
                TabState::new(),
                TabState::new(),
                TabState::new(),
                TabState::new(),
                TabState::new(),
            ],
        };
        proof {
            assert forall|tab: NavigationTab| #[trigger] model.saved_tab(tab).is_fresh() by {
                lemma_tab_index_round_trip(tab);
            }
        }
        model.replace_audit(recent_audit);
        model.synchronize_geometry();
        model
    }

    /// Records the navigation state.
    pub fn navigation_state_snapshot(&self) -> (snapshot: NavigationStateSnapshot)
        ensures
            records_navigation(snapshot, *self),
    {
        let message = match &self.message {
            Some(message) => Some(UiMessage { severity: message.severity, text: message.text.clone() }),
            None => None,
        };
        let tab_states = [
            self.tab_states[0].duplicate(),
            self.tab_states[1].duplicate(),
            self.tab_states[2].duplicate(),
            self.tab_states[3].duplicate(),
            self.tab_states[4].duplicate(),
            self.tab_states[5].duplicate(),
            self.tab_states[6].duplicate(),
            self.tab_states[7].duplicate(),
            self.tab_states[8].duplicate(),
        ];
        let snapshot = NavigationStateSnapshot {
            active_view: self.active_view,
            skills_active: self.skills.active,
            skills_pane: self.skills.pane,
            skills_workspace_origin: self.skills.workspace_origin,
            agents_pane: self.agents.pane,
            focus: self.focus,
            input_mode: self.input_mode,
            inspector_open: self.inspector_open,
            command: self.command.duplicate(),
            workspace_scroll: self.workspace_scroll,
            message,
            pending_agent_outcome: self.pending_agent_outcome,
            navigation_generation: self.navigation_generation,
            pending_outcome_navigation: self.pending_outcome_navigation,
            tab_states,
        };
        proof {
            assert forall|tab: NavigationTab| #[trigger] snapshot.tab_states@[tab_index(tab)].same_as(
                self.saved_tab(tab),
            ) by {
                lemma_tab_index_round_trip(tab);
            }
        }
        snapshot
    }

    /// Puts back the navigation state of `snapshot`, then derives the layout.
    pub fn restore_navigation_state(&mut self, snapshot: NavigationStateSnapshot)
        ensures
            resynced(with_navigation(*old(self), snapshot), *final(self)),
    {
        let ghost before = *self;
        self.active_view = snapshot.active_view;
        self.skills.active = snapshot.skills_active;
        self.skills.pane = snapshot.skills_pane;
        self.skills.workspace_origin = snapshot.skills_workspace_origin;
        self.agents.pane = snapshot.agents_pane;
        self.focus = snapshot.focus;
        self.input_mode = snapshot.input_mode;
        self.inspector_open = snapshot.inspector_open;
        self.command = snapshot.command;
        self.workspace_scroll = snapshot.workspace_scroll;
        self.message = snapshot.message;
        self.pending_agent_outcome = snapshot.pending_agent_outcome;
        self.navigation_generation = snapshot.navigation_generation;
        self.pending_outcome_navigation = snapshot.pending_outcome_navigation;
        self.tab_states = snapshot.tab_states;
        assert(*self == with_navigation(before, snapshot));
        let ghost placed = *self;
        self.synchronize_geometry();
        let ghost synced = *self;
        self.normalize_visible_focus();
        proof {
            lemma_visible_focus_stable(TuiModel {
                layout_mode: synced.layout_mode,
                workspace_body_width: synced.workspace_body_width,
                workspace_body_height: synced.workspace_body_height,
                ..placed
            });
        }
    }
}

} // verus!