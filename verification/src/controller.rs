//! What a key, a paste, a resize or a command's answer does to the cockpit model, and
//! which effect the host is asked to carry out.
use vstd::prelude::*;
use crate::domain::{
    EpisodicSummaryId, MemoryEntryVersionId, MemoryProposalId,    AgentProfileView, AuditEntry, CommandOutcome, CommandView, SkillHistoryView, SkillView, SkillsView,    AgentProfileId, AgentProfileSelector, AgentProfileVersionId, AgentWorkflowCommand,
    ApplicationCommand, ParsedLine, SkillId, SkillWorkflowCommand,
    SkillVersionRef, ShutdownDisposition, ShutdownReason,
};
use crate::editor::{COMMAND_HISTORY_CAPACITY, CommandEditor, LineEdit, MAX_INPUT_BYTES, edited, remembered, typed};
use crate::event::{KeyCode, KeyEvent, KeyEventKind, KeyModifiers, TuiEvent};
use crate::text::{byte_len, fitted, safe_prefix, strip_controls};
use crate::layout::LayoutMode;
use crate::model::{
    PendingOutcomeNavigation, TuiModel, resynced, view_after, first_sequence_index, newest_audit, position_of_sequence,
    audit_selection_ok, reselected_audit, selected_sequence, assigned_selection, offered_or_view, offered_skill_actions, skill_action_index,
    tab_switched, upgrade_availability,
};
use crate::screen::{Focus, InputMode, NavigationTab, RuntimeStatus, Severity, tab_at, tab_for_view};
use crate::workspace::{
    AgentOutcomeIntent, SkillDetailAction, classify_assignment, SkillEditorSession, clamp_index, skill_action_at,
    AgentSkillAction, AgentSkillUpgradeAvailability, AgentsPane, AgentsViewState, AssignmentKind,
    SkillOperationOrigin, SkillWorkspaceOrigin, SkillsPane,
    SkillsViewState,
};

verus! {

/// What the host is asked to do after an event.
#[derive(Debug, Clone, PartialEq, Eq)]
pub enum ControllerEffect {
    Nothing,
    Redraw,
    Submit(ApplicationCommand),
    RequestShutdown(ShutdownReason),
    LoadAgentProfiles,
    LoadAgentProfile { selected_profile: usize },
    LoadAgentProfileHistory { selected_profile: usize },
    LoadAgentProfileVersion { profile_id: AgentProfileId, version: u64 },
    LoadAgentSkillLibrary,
    StartProfileCreate { template_index: usize },
    StartProfileEdit { selected_profile: usize },
    StartProfileCreateByTemplate { template_id: String },
    StartProfileEditBySelector { selector: AgentProfileSelector },
    StartSkillWorkflow(SkillWorkflowCommand),
    ExecuteProfile(ApplicationCommand),
    CancelProfileReview,
    LoadSkills,
    LoadSkill { selected_skill: usize },
    LoadSkillHistory { skill_id: SkillId },
    LoadSkillVersion { skill_id: SkillId, version: u64 },
    LoadSkillStarter { selected_skill: usize },
    LoadSkillAgents,
    LoadSkillAgent { profile_id: AgentProfileId },
    RequestSkillAssignmentPreview {
        profile_id: AgentProfileId,
        expected_active_profile_version_id: AgentProfileVersionId,
        target: SkillVersionRef,
        assignment: AssignmentKind,
    },
    ExecuteSkill(ApplicationCommand),
    CancelSkillReview,
    LoadAgentMemory(AgentProfileSelector),
    LoadMemoryEntry { selector: AgentProfileSelector, key: String },
    LoadMemoryEntryHistory { selector: AgentProfileSelector, key: String },
    LoadMemoryEntryVersion {
        selector: AgentProfileSelector,
        key: String,
        version: u64,
        expected_entry_version_id: MemoryEntryVersionId,
    },
    LoadMemoryProposals { selector: AgentProfileSelector },
    LoadMemoryProposal(MemoryProposalId),
    LoadEpisodicSummaries(AgentProfileSelector),
    LoadEpisodicSummary(EpisodicSummaryId),
    ExecuteMemory(ApplicationCommand),
    CancelMemoryReview,
    /// The command line was entered: the host parses `line` and hands the result to
    /// `submit_parsed_line`.
    ParseCommandLine { line: String },
    /// A key for the open agent-profile editor, which decides it.
    ProfileEditorKey(KeyEvent),
    /// A key for the open skill editor, which decides it.
    SkillEditorKey(KeyEvent),
}

/// `after` is `before` after `set_focus(focus)`: focused there, typing on the command
/// line and navigating elsewhere, with the geometry derived anew.
pub open spec fn focus_set(before: TuiModel, focus: Focus, after: TuiModel) -> bool {
    resynced(
        TuiModel {
            focus,
            input_mode: if focus == Focus::Command {
                InputMode::Type
            } else {
                InputMode::Nav
            },
            ..before
        },
        after,
    )
}

/// `after` is `before` showing tab `target`: unchanged when already shown.
pub open spec fn tab_shown(before: TuiModel, target: NavigationTab, after: TuiModel) -> bool {
    if before.active_tab() == target {
        after == before
    } else {
        tab_switched(before, target, after)
    }
}

/// `model` with the skills workspace left.
pub open spec fn skills_left(model: TuiModel) -> TuiModel {
    TuiModel { skills: SkillsViewState { active: false, ..model.skills }, ..model }
}

/// `after` is `before` with the skills workspace left, the tab of `view` shown, the
/// workspace focused and scrolled to the top.
pub open spec fn workspace_selected(before: TuiModel, view: crate::screen::View, after: TuiModel) -> bool {
    exists|shown: TuiModel|
        #[trigger] tab_shown(
            skills_left(before),
            tab_for_view(view),
            shown,
        ) && after.workspace_scroll == 0 && focus_set(
            shown,
            Focus::Workspace,
            TuiModel { workspace_scroll: shown.workspace_scroll, ..after },
        )
}

/// No modifier is held.
pub fn no_modifiers(modifiers: KeyModifiers) -> (none: bool)
    ensures
        none == (modifiers.bits == 0),
{
    modifiers.bits == 0
}

/// Nothing but shift is held, as text may be typed with.
pub fn text_modifiers(modifiers: KeyModifiers) -> (text: bool)
    ensures
        text == (modifiers.bits == 0 || modifiers.bits == 1),
{
    modifiers.bits == 0 || modifiers.bits == 1
}

/// Nothing but shift is held, as back-tab comes with.
pub fn backtab_modifiers(modifiers: KeyModifiers) -> (backtab: bool)
    ensures
        backtab == (modifiers.bits == 0 || modifiers.bits == 1),
{
    modifiers.bits == 0 || modifiers.bits == 1
}

/// The key is control-c.
pub fn is_ctrl_c(key: KeyEvent) -> (ctrl_c: bool)
    ensures
        ctrl_c == (key.code == KeyCode::Char('c') && key.modifiers.bits == 2),
{
    key.code == KeyCode::Char('c') && key.modifiers.bits == 2
}

/// The key is `expected` without modifiers.
pub fn is_plain_char(key: KeyEvent, expected: char) -> (plain: bool)
    ensures
        plain == (key.code == KeyCode::Char(expected) && key.modifiers.bits == 0),
{
    key.code == KeyCode::Char(expected) && no_modifiers(key.modifiers)
}

/// Whether a disposition asks to stop.
pub fn requests_shutdown(disposition: ShutdownDisposition) -> (stop: bool)
    ensures
        stop == (disposition == ShutdownDisposition::Requested),
{
    match disposition {
        ShutdownDisposition::Continue => false,
        ShutdownDisposition::Requested => true,
    }
}

/// The view one step along the cycle overview, setup, audit, help; the agents view steps
/// back to the overview either way.
pub open spec fn adjacent_view_of(view: crate::screen::View, forward: bool) -> crate::screen::View {
    match view {
        crate::screen::View::Overview => if forward {
            crate::screen::View::Setup
        } else {
            crate::screen::View::Help
        },
        crate::screen::View::Setup => if forward {
            crate::screen::View::Audit
        } else {
            crate::screen::View::Overview
        },
        crate::screen::View::Audit => if forward {
            crate::screen::View::Help
        } else {
            crate::screen::View::Setup
        },
        crate::screen::View::Help => if forward {
            crate::screen::View::Overview
        } else {
            crate::screen::View::Audit
        },
        _ => crate::screen::View::Overview,
    }
}

/// The view next to `view`; see `adjacent_view_of`.
pub fn adjacent_view(view: crate::screen::View, forward: bool) -> (next: crate::screen::View)
    ensures
        next == adjacent_view_of(view, forward),
{
    match view {
        crate::screen::View::Overview => if forward {
            crate::screen::View::Setup
        } else {
            crate::screen::View::Help
        },
        crate::screen::View::Setup => if forward {
            crate::screen::View::Audit
        } else {
            crate::screen::View::Overview
        },
        crate::screen::View::Audit => if forward {
            crate::screen::View::Help
        } else {
            crate::screen::View::Setup
        },
        crate::screen::View::Help => if forward {
            crate::screen::View::Overview
        } else {
            crate::screen::View::Audit
        },
        _ => crate::screen::View::Overview,
    }
}

/// The regions that can take focus, in tab order: navigation where the layout shows it,
/// the workspace, the inspector where it is drawn, and the command line; only the
/// workspace when the terminal is too small.
pub open spec fn focus_order(layout_mode: LayoutMode, inspector_open: bool) -> Seq<Focus> {
    match layout_mode {
        LayoutMode::Wide => seq![Focus::Navigation, Focus::Workspace, Focus::Inspector, Focus::Command],
        LayoutMode::Medium => if inspector_open {
            seq![Focus::Navigation, Focus::Workspace, Focus::Inspector, Focus::Command]
        } else {
            seq![Focus::Navigation, Focus::Workspace, Focus::Command]
        },
        LayoutMode::Narrow => if inspector_open {
            seq![Focus::Workspace, Focus::Inspector, Focus::Command]
        } else {
            seq![Focus::Workspace, Focus::Command]
        },
        LayoutMode::TooSmall => seq![Focus::Workspace],
    }
}

/// The regions that can take focus in `model`; see `focus_order`.
pub fn visible_focus_order(model: &TuiModel) -> (order: Vec<Focus>)
    ensures
        order@ == focus_order(model.layout_mode, model.inspector_open),
        order@.len() > 0,
        forall|i: int, j: int| 0 <= i < j < order@.len() ==> order@[i] != order@[j],
{
    match model.layout_mode {
        LayoutMode::Wide => vec![Focus::Navigation, Focus::Workspace, Focus::Inspector, Focus::Command],
        LayoutMode::Medium => if model.inspector_open {
            vec![Focus::Navigation, Focus::Workspace, Focus::Inspector, Focus::Command]
        } else {
            vec![Focus::Navigation, Focus::Workspace, Focus::Command]
        },
        LayoutMode::Narrow => if model.inspector_open {
            vec![Focus::Workspace, Focus::Inspector, Focus::Command]
        } else {
            vec![Focus::Workspace, Focus::Command]
        },
        LayoutMode::TooSmall => vec![Focus::Workspace],
    }
}

/// Position of `focus` in `order`, or the first when absent.
pub open spec fn focus_position(order: Seq<Focus>, focus: Focus) -> int {
    if order.contains(focus) {
        choose|i: int| 0 <= i < order.len() && order[i] == focus
    } else {
        0
    }
}

/// The focus one step along `order` from `focus`, wrapping; from a region not in the
/// order, one step from its first.
pub open spec fn cycled_focus(order: Seq<Focus>, focus: Focus, forward: bool) -> Focus {
    let current = focus_position(order, focus);
    if forward {
        order[(current + 1) % (order.len() as int)]
    } else if current == 0 {
        order[order.len() - 1]
    } else {
        order[current - 1]
    }
}

/// The position of `focus` in `order`, if there.
fn position_of_focus(order: &Vec<Focus>, focus: Focus) -> (position: Option<usize>)
    requires
        forall|i: int, j: int| 0 <= i < j < order@.len() ==> order@[i] != order@[j],
    ensures
        match position {
            Some(i) => i < order@.len() && order@[i as int] == focus && i == focus_position(
                order@,
                focus,
            ),
            None => !order@.contains(focus) && focus_position(order@, focus) == 0,
        },
{
    let mut i: usize = 0;
    while i < order.len()
        invariant
            i <= order@.len(),
            forall|j: int| 0 <= j < i ==> order@[j] != focus,
            forall|a: int, b: int| 0 <= a < b < order@.len() ==> order@[a] != order@[b],
        decreases order@.len() - i,
    {
        if order[i] == focus {
            proof {
                assert(order@.contains(focus));
                let chosen = choose|k: int| 0 <= k < order@.len() && order@[k] == focus;
                assert(chosen == i);
            }
            return Some(i);
        }
        i = i + 1;
    }
    None
}

/// Tab or back-tab leads from `before` to `after` with `effect`; see `cycle_focus`.
pub open spec fn focus_cycled(before: TuiModel, forward: bool, effect: ControllerEffect, after: TuiModel) -> bool {
    &&& (effect == ControllerEffect::Redraw)
    &&& (focus_set(
        before,
        cycled_focus(focus_order(before.layout_mode, before.inspector_open), before.focus, forward), after))
}

/// Moves the focus one step along the visible regions; see `cycled_focus`.
pub fn cycle_focus(model: &mut TuiModel, forward: bool) -> (effect: ControllerEffect)
    ensures
        focus_cycled(*old(model), forward, effect, *final(model)),
{
    let order = visible_focus_order(model);
    let current = match position_of_focus(&order, model.focus) {
        Some(i) => i,
        None => 0,
    };
    let next = if forward {
        (current + 1) % order.len()
    } else if current == 0 {
        order.len() - 1
    } else {
        current - 1
    };
    model.set_focus(order[next]);
    ControllerEffect::Redraw
}

/// Moves the focus to the workspace when the layout no longer shows its region.
pub fn normalize_focus(model: &mut TuiModel)
    ensures
        if focus_order(old(model).layout_mode, old(model).inspector_open).contains(old(model).focus) {
            *final(model) == *old(model)
        } else {
            focus_set(*old(model), Focus::Workspace, *final(model))
        },
{
    let order = visible_focus_order(model);
    if position_of_focus(&order, model.focus).is_none() {
        model.set_focus(Focus::Workspace);
    }
}

/// The inspector key leads from `before` to `after` with `effect`; see
/// `toggle_or_focus_inspector`.
pub open spec fn inspector_toggled(before: TuiModel, effect: ControllerEffect, after: TuiModel) -> bool {
    &&& (effect == ControllerEffect::Redraw)
    &&& (before.focus == Focus::Inspector ==> focus_set(
        TuiModel { inspector_open: false, ..before },
        Focus::Workspace, after))
    &&& (before.focus != Focus::Inspector ==> focus_set(
        TuiModel { inspector_open: true, ..before },
        Focus::Inspector, after))
}

/// Focuses the inspector, opening it; from the inspector, closes it and focuses the
/// workspace.
pub fn toggle_or_focus_inspector(model: &mut TuiModel) -> (effect: ControllerEffect)
    ensures
        inspector_toggled(*old(model), effect, *final(model)),
{
    if model.focus == Focus::Inspector {
        model.inspector_open = false;
        model.set_focus(Focus::Workspace);
    } else {
        model.inspector_open = true;
        model.set_focus(Focus::Inspector);
    }
    ControllerEffect::Redraw
}

/// Escape outside the workspaces leads from `before` to `after` with `effect`; see
/// `dismiss`.
pub open spec fn dismissed(before: TuiModel, effect: ControllerEffect, after: TuiModel) -> bool {
    if before.focus == Focus::Inspector || before.inspector_open {
        effect == ControllerEffect::Redraw && focus_set(
            TuiModel { inspector_open: false, ..before },
            Focus::Workspace, after)
    } else if before.message is Some {
        effect == ControllerEffect::Redraw && after == (TuiModel { message: None, ..before })
    } else {
        effect == ControllerEffect::Nothing && after == before
    }
}

/// Escape outside the workspaces: closes the inspector, else hides the message, else
/// does nothing.
pub fn dismiss(model: &mut TuiModel) -> (effect: ControllerEffect)
    ensures
        dismissed(*old(model), effect, *final(model)),
{
    if model.focus == Focus::Inspector || model.inspector_open {
        model.inspector_open = false;
        model.set_focus(Focus::Workspace);
        ControllerEffect::Redraw
    } else if model.message.is_some() {
        model.clear_message();
        ControllerEffect::Redraw
    } else {
        ControllerEffect::Nothing
    }
}

/// Leaves the skills workspace, shows the tab of `view`, focuses the workspace and
/// scrolls it to the top.
pub fn select_workspace_view(model: &mut TuiModel, view: crate::screen::View)
    ensures
        workspace_selected(*old(model), view, *final(model)),
{
    model.skills.active = false;
    let ghost left = *model;
    model.select_view(view);
    let ghost shown = *model;
    model.set_focus(Focus::Workspace);
    model.scroll_home();
    assert(tab_shown(left, tab_for_view(view), shown));
}

/// `select_workspace_view`, then a redraw.
pub fn select_view(model: &mut TuiModel, view: crate::screen::View) -> (effect: ControllerEffect)
    ensures
        effect == ControllerEffect::Redraw,
        workspace_selected(*old(model), view, *final(model)),
{
    select_workspace_view(model, view);
    ControllerEffect::Redraw
}

/// The selection after `steps` moves down (at least one) from `selection` in a list of
/// `len` entries: from none, the first entry and then down; clamped to the last entry.
pub open spec fn audit_after_steps_down(len: nat, selection: Option<usize>, steps: nat) -> Option<usize> {
    if len == 0 {
        None
    } else {
        let reached: int = match selection {
            Some(s) => s + steps,
            None => steps - 1,
        };
        Some(
            if reached < len {
                reached as usize
            } else {
                (len - 1) as usize
            },
        )
    }
}

/// The selection after `steps` moves up (at least one) from `selection` in a list of
/// `len` entries: from none, the last entry and then up; clamped to the first entry.
pub open spec fn audit_after_steps_up(len: nat, selection: Option<usize>, steps: nat) -> Option<usize> {
    if len == 0 {
        None
    } else {
        let reached: int = match selection {
            Some(s) => (if s < len {
                s as int
            } else {
                len - 1
            }) - steps,
            None => len - 1 - (steps - 1),
        };
        Some(
            if reached > 0 {
                reached as usize
            } else {
                0usize
            },
        )
    }
}

/// One more move down or up extends a run of moves by one step.
pub proof fn lemma_audit_steps(len: nat, selection: Option<usize>, steps: nat)
    requires
        len <= usize::MAX,
    ensures
        crate::model::next_audit(
            len,
            if steps == 0 {
                selection
            } else {
                audit_after_steps_down(len, selection, steps)
            },
        ) == audit_after_steps_down(len, selection, steps + 1),
        crate::model::previous_audit(
            len,
            if steps == 0 {
                selection
            } else {
                audit_after_steps_up(len, selection, steps)
            },
        ) == audit_after_steps_up(len, selection, steps + 1),
{
}

/// The number of lines or entries a move covers: a page is the workspace body height,
/// at least one.
pub open spec fn move_amount(model: TuiModel, page: bool) -> u16 {
    if page && model.workspace_body_height > 1 {
        model.workspace_body_height
    } else {
        1
    }
}

/// The furthest the workspace may scroll: none for the audit view, else the part of the
/// content below the body.
pub open spec fn max_scroll(model: TuiModel) -> u16 {
    if model.active_view == crate::screen::View::Audit
        || model.workspace_content_height <= model.workspace_body_height {
        0
    } else {
        (model.workspace_content_height - model.workspace_body_height) as u16
    }
}

/// The furthest the workspace may scroll; see `max_scroll`.
pub fn workspace_max_scroll(model: &TuiModel) -> (limit: u16)
    ensures
        limit == max_scroll(*model),
{
    if model.active_view == crate::screen::View::Audit {
        return 0;
    }
    model.workspace_content_height.saturating_sub(model.workspace_body_height)
}

/// Keeps the workspace scroll within `max_scroll`.
pub fn clamp_workspace_scroll(model: &mut TuiModel)
    ensures
        *final(model) == (TuiModel {
            workspace_scroll: if old(model).workspace_scroll <= max_scroll(*old(model)) {
                old(model).workspace_scroll
            } else {
                max_scroll(*old(model))
            },
            ..*old(model)
        }),
{
    let limit = workspace_max_scroll(model);
    if model.workspace_scroll > limit {
        model.workspace_scroll = limit;
    }
}

/// An arrow or page key outside the workspaces leads from `before` to `after` with
/// `effect`; see `move_focused`.
pub open spec fn focused_moved(before: TuiModel, forward: bool, page: bool, effect: ControllerEffect, after: TuiModel) -> bool {
    &&& (effect == ControllerEffect::Redraw)
    &&& (before.focus == Focus::Navigation ==> exists|shown: TuiModel|
        #[trigger] tab_shown(
            before,
            tab_for_view(adjacent_view_of(before.active_view, forward)),
            shown,
        ) && after == (TuiModel { workspace_scroll: 0, ..shown }))
    &&& (before.focus != Focus::Navigation && before.active_view
        == crate::screen::View::Audit ==> after == (TuiModel {
        audit_selection: if forward {
            audit_after_steps_down(
                before.audit_entries@.len(),
                before.audit_selection,
                move_amount(before, page) as nat,
            )
        } else {
            audit_after_steps_up(
                before.audit_entries@.len(),
                before.audit_selection,
                move_amount(before, page) as nat,
            )
        },
        ..before
    }))
    &&& (before.focus != Focus::Navigation && before.active_view
        != crate::screen::View::Audit ==> after == (TuiModel {
        workspace_scroll: if forward {
            if before.workspace_scroll + move_amount(before, page) <= u16::MAX {
                (before.workspace_scroll + move_amount(before, page)) as u16
            } else {
                u16::MAX
            }
        } else if before.workspace_scroll >= move_amount(before, page) {
            (before.workspace_scroll - move_amount(before, page)) as u16
        } else {
            0
        },
        ..before
    }))
}

/// Arrow and page keys outside the workspaces: on the navigation bar they show the
/// adjacent view from the top; on the audit view they move the selection by one entry
/// or a page; elsewhere they scroll the workspace by a line or a page.
pub fn move_focused(model: &mut TuiModel, forward: bool, page: bool) -> (effect: ControllerEffect)
    ensures
        focused_moved(*old(model), forward, page, effect, *final(model)),
{
    if model.focus == Focus::Navigation {
        let ghost before = *model;
        model.select_view(adjacent_view(model.active_view, forward));
        let ghost shown = *model;
        model.scroll_home();
        assert(tab_shown(before, tab_for_view(adjacent_view_of(before.active_view, forward)), shown));
        return ControllerEffect::Redraw;
    }
    let amount: u16 = if page && model.workspace_body_height > 1 {
        model.workspace_body_height
    } else {
        1
    };
    if model.active_view == crate::screen::View::Audit {
        let ghost start = *model;
        let count: usize = amount as usize;
        let mut done: usize = 0;
        while done < count
            invariant
                done <= count,
                count == move_amount(start, page),
                *model == (TuiModel {
                    audit_selection: if done == 0 {
                        start.audit_selection
                    } else if forward {
                        audit_after_steps_down(start.audit_entries@.len(), start.audit_selection, done as nat)
                    } else {
                        audit_after_steps_up(start.audit_entries@.len(), start.audit_selection, done as nat)
                    },
                    ..start
                }),
            decreases count - done,
        {
            proof {
                assert(start.audit_entries.len() == start.audit_entries@.len());
                lemma_audit_steps(start.audit_entries@.len(), start.audit_selection, done as nat);
            }
            if forward {
                model.select_next_audit();
            } else {
                model.select_previous_audit();
            }
            done = done + 1;
        }
    } else if forward {
        model.scroll_down(amount);
    } else {
        model.scroll_up(amount);
    }
    ControllerEffect::Redraw
}

/// Home or End outside the workspaces leads from `before` to `after` with `effect`; see
/// `move_to_bound`.
pub open spec fn bound_reached(before: TuiModel, end: bool, effect: ControllerEffect, after: TuiModel) -> bool {
    &&& (effect == ControllerEffect::Redraw)
    &&& (before.focus == Focus::Navigation ==> tab_shown(
        before,
        if end {
            NavigationTab::Help
        } else {
            NavigationTab::Overview
        },
        after,
    ))
    &&& (before.focus != Focus::Navigation && before.active_view
        == crate::screen::View::Audit ==> after == (TuiModel {
        audit_selection: if before.audit_entries@.len() == 0 {
            None
        } else if end {
            Some((before.audit_entries@.len() - 1) as usize)
        } else {
            Some(0usize)
        },
        ..before
    }))
    &&& (before.focus != Focus::Navigation && before.active_view
        != crate::screen::View::Audit ==> after == (TuiModel {
        workspace_scroll: if end {
            max_scroll(before)
        } else {
            0
        },
        ..before
    }))
}

/// Home and End outside the workspaces: on the navigation bar they show the overview or
/// the help; on the audit view they select the first or last entry; elsewhere they
/// scroll to the top or as far as the content goes.
pub fn move_to_bound(model: &mut TuiModel, end: bool) -> (effect: ControllerEffect)
    ensures
        bound_reached(*old(model), end, effect, *final(model)),
{
    if model.focus == Focus::Navigation {
        model.select_view(
            if end {
                crate::screen::View::Help
            } else {
                crate::screen::View::Overview
            },
        );
    } else if model.active_view == crate::screen::View::Audit {
        if end {
            model.select_last_audit();
        } else {
            model.select_first_audit();
        }
    } else if end {
        model.workspace_scroll = workspace_max_scroll(model);
    } else {
        model.scroll_home();
    }
    ControllerEffect::Redraw
}

/// Where the skills workspace is opened from: the agent whose skill panel is open, else
/// the view shown.
pub open spec fn skills_origin(model: TuiModel) -> SkillWorkspaceOrigin {
    if model.active_view == crate::screen::View::Agents && model.agents.skill_panel_open {
        match model.agents.detail {
            Some(detail) => SkillWorkspaceOrigin::AgentSkills {
                profile_id: detail.profile.profile_id,
            },
            None => SkillWorkspaceOrigin::Cockpit(model.active_view),
        }
    } else {
        SkillWorkspaceOrigin::Cockpit(model.active_view)
    }
}

/// The agents workspace back on `profile_id`'s row with its skill panel open.
pub open spec fn agent_skills_shown(agents: AgentsViewState, profile_id: AgentProfileId) -> AgentsViewState {
    AgentsViewState { skill_panel_open: true, ..agents.after_select_id(profile_id).1 }
}

/// Opening the agents workspace leads from `before` to `after` with `effect`; see
/// `open_agents`.
pub open spec fn agents_opened(before: TuiModel, effect: ControllerEffect, after: TuiModel) -> bool {
    &&& (effect == ControllerEffect::LoadAgentProfiles)
    &&& (exists|shown: TuiModel|
        #[trigger] tab_shown(
            skills_left(before),
            NavigationTab::Agents,
            shown,
        ) && after.agents.pane == AgentsPane::List && focus_set(
            shown,
            Focus::Workspace,
            TuiModel { agents: AgentsViewState { pane: shown.agents.pane, ..after.agents }, ..after },
        ))
}

/// Shows the agents workspace on its list and asks for the profiles.
pub fn open_agents(model: &mut TuiModel) -> (effect: ControllerEffect)
    ensures
        agents_opened(*old(model), effect, *final(model)),
{
    model.skills.active = false;
    let ghost left = *model;
    model.select_view(crate::screen::View::Agents);
    let ghost shown = *model;
    model.set_focus(Focus::Workspace);
    model.agents.pane = AgentsPane::List;
    assert(tab_shown(left, NavigationTab::Agents, shown));
    ControllerEffect::LoadAgentProfiles
}

/// Opening the skills library leads from `before` to `after` with `effect`; see
/// `open_skills`.
pub open spec fn skills_opened(before: TuiModel, effect: ControllerEffect, after: TuiModel) -> bool {
    &&& (effect == ControllerEffect::LoadSkills)
    &&& (focus_set(
        TuiModel {
            skills: SkillsViewState {
                workspace_origin: Some(skills_origin(before)),
                active: true,
                pane: SkillsPane::List,
                ..before.skills
            },
            ..before
        },
        Focus::Workspace, after))
}

/// Shows the skills library, remembering where it was opened from, and asks for it.
pub fn open_skills(model: &mut TuiModel) -> (effect: ControllerEffect)
    ensures
        skills_opened(*old(model), effect, *final(model)),
{
    let origin = if model.active_view == crate::screen::View::Agents && model.agents.skill_panel_open {
        match &model.agents.detail {
            Some(detail) => SkillWorkspaceOrigin::AgentSkills { profile_id: detail.profile.profile_id },
            None => SkillWorkspaceOrigin::Cockpit(model.active_view),
        }
    } else {
        SkillWorkspaceOrigin::Cockpit(model.active_view)
    };
    model.skills.workspace_origin = Some(origin);
    model.skills.active = true;
    model.skills.pane = SkillsPane::List;
    model.set_focus(Focus::Workspace);
    ControllerEffect::LoadSkills
}

/// Returns to where a skill operation started: a pane of the skills workspace, or the
/// skill panel of an agent.
pub fn restore_skill_origin(model: &mut TuiModel, origin: SkillOperationOrigin)
    ensures
        match origin {
            SkillOperationOrigin::Skills(pane) => *final(model) == (TuiModel {
                skills: SkillsViewState { active: true, pane, ..old(model).skills },
                ..*old(model)
            }),
            SkillOperationOrigin::AgentSkills { profile_id } => *final(model) == (TuiModel {
                skills: SkillsViewState {
                    active: false,
                    pane: SkillsPane::Detail,
                    ..old(model).skills
                },
                agents: agent_skills_shown(old(model).agents, profile_id),
                active_view: crate::screen::View::Agents,
                ..*old(model)
            }),
        },
{
    match origin {
        SkillOperationOrigin::Skills(pane) => {
            model.skills.active = true;
            model.skills.pane = pane;
        },
        SkillOperationOrigin::AgentSkills { profile_id } => {
            model.skills.active = false;
            model.skills.pane = SkillsPane::Detail;
            model.agents.select_profile_id(profile_id);
            model.agents.skill_panel_open = true;
            model.active_view = crate::screen::View::Agents;
        },
    }
}

/// The skills workspace after escape, when it is not left for the agents workspace or a
/// view: one pane back.
pub open spec fn skills_pane_back(skills: SkillsViewState) -> SkillsViewState {
    match skills.pane {
        SkillsPane::CreateSource | SkillsPane::Detail => SkillsViewState { pane: SkillsPane::List, ..skills },
        SkillsPane::History | SkillsPane::AgentPicker | SkillsPane::Result => SkillsViewState {
            pane: SkillsPane::Detail,
            ..skills
        },
        SkillsPane::AssignmentReview => SkillsViewState { pane: SkillsPane::AgentPicker, ..skills },
        SkillsPane::Editor => SkillsViewState { editor: None, pane: SkillsPane::Detail, ..skills },
        SkillsPane::Confirmation => SkillsViewState {
            pending_confirmation: None,
            pane: SkillsPane::Detail,
            ..skills
        },
        SkillsPane::List => skills,
    }
}

/// The agent a skill detail was opened from, if it was.
pub open spec fn detail_from_agent(skills: SkillsViewState) -> Option<AgentProfileId> {
    if skills.pane == SkillsPane::Detail {
        match skills.workspace_origin {
            Some(SkillWorkspaceOrigin::AgentSkills { profile_id }) => Some(profile_id),
            _ => None,
        }
    } else {
        None
    }
}

/// Escape leads the skills workspace from `before` to `after`; see `unwind_skills`.
pub open spec fn skills_unwound(before: TuiModel, after: TuiModel) -> bool {
    let left = SkillsViewState { active: false, workspace_origin: None, ..before.skills };
    if before.skills.pane == SkillsPane::List {
        after == match before.skills.workspace_origin {
            Some(SkillWorkspaceOrigin::Cockpit(view)) => TuiModel {
                skills: left,
                active_view: view,
                ..before
            },
            Some(SkillWorkspaceOrigin::AgentSkills { profile_id }) => TuiModel {
                skills: left,
                active_view: crate::screen::View::Agents,
                agents: agent_skills_shown(before.agents, profile_id),
                ..before
            },
            None => TuiModel { skills: SkillsViewState { active: false, ..before.skills }, ..before },
        }
    } else {
        match detail_from_agent(before.skills) {
            Some(profile_id) => after == (TuiModel {
                skills: left,
                active_view: crate::screen::View::Agents,
                agents: agent_skills_shown(before.agents, profile_id),
                ..before
            }),
            None => after == (TuiModel { skills: skills_pane_back(before.skills), ..before }),
        }
    }
}

/// Escape in the skills workspace. From the list it leaves the workspace for where it
/// was opened from; from a skill detail opened from an agent it returns to that agent's
/// skill panel; elsewhere it goes one pane back.
pub fn unwind_skills(model: &mut TuiModel) -> (effect: ControllerEffect)
    ensures
        effect == ControllerEffect::Redraw,
        skills_unwound(*old(model), *final(model)),
{
    match model.skills.pane {
        SkillsPane::List => match model.skills.workspace_origin {
            Some(SkillWorkspaceOrigin::Cockpit(view)) => {
                model.skills.active = false;
                model.skills.workspace_origin = None;
                model.active_view = view;
            },
            Some(SkillWorkspaceOrigin::AgentSkills { profile_id }) => {
                return_to_agent_skills(model, profile_id);
            },
            None => {
                model.skills.active = false;
            },
        },
        SkillsPane::Detail => match model.skills.workspace_origin {
            Some(SkillWorkspaceOrigin::AgentSkills { profile_id }) => {
                return_to_agent_skills(model, profile_id);
            },
            _ => step_back(&mut model.skills),
        },
        _ => step_back(&mut model.skills),
    }
    ControllerEffect::Redraw
}

/// Leaves the skills workspace for `profile_id`'s skill panel in the agents workspace.
fn return_to_agent_skills(model: &mut TuiModel, profile_id: AgentProfileId)
    ensures
        *final(model) == (TuiModel {
            skills: SkillsViewState { active: false, workspace_origin: None, ..old(model).skills },
            active_view: crate::screen::View::Agents,
            agents: agent_skills_shown(old(model).agents, profile_id),
            ..*old(model)
        }),
{
    model.skills.active = false;
    model.skills.workspace_origin = None;
    model.active_view = crate::screen::View::Agents;
    model.agents.select_profile_id(profile_id);
    model.agents.skill_panel_open = true;
}

/// One pane back in the skills workspace; see `skills_pane_back`.
fn step_back(skills: &mut SkillsViewState)
    ensures
        *final(skills) == skills_pane_back(*old(skills)),
{
    match skills.pane {
        SkillsPane::CreateSource | SkillsPane::Detail => skills.pane = SkillsPane::List,
        SkillsPane::History | SkillsPane::AgentPicker | SkillsPane::Result => {
            skills.pane = SkillsPane::Detail;
        },
        SkillsPane::AssignmentReview => skills.pane = SkillsPane::AgentPicker,
        SkillsPane::Editor => {
            skills.editor = None;
            skills.pane = SkillsPane::Detail;
        },
        SkillsPane::Confirmation => {
            skills.pending_confirmation = None;
            skills.pane = SkillsPane::Detail;
        },
        SkillsPane::List => {},
    }
}

/// Escape leads the agents workspace from `before` to `after`; see `unwind_agents`.
pub open spec fn agents_unwound(before: TuiModel, after: TuiModel) -> bool {
    match before.agents.pane {
        AgentsPane::List => tab_shown(before, NavigationTab::Overview, after),
        AgentsPane::Detail => after == (TuiModel {
            agents: AgentsViewState { skill_panel_open: false, pane: AgentsPane::List, ..before.agents },
            ..before
        }),
        AgentsPane::Confirmation => after == (TuiModel {
            agents: AgentsViewState {
                pending_confirmation: None,
                pane: AgentsPane::Editor,
                ..before.agents
            },
            ..before
        }),
        _ => after == (TuiModel {
            agents: AgentsViewState { pane: AgentsPane::Detail, ..before.agents },
            ..before
        }),
    }
}

/// Escape in the agents workspace: from the list back to the overview; from the detail
/// to the list, closing the skill panel; from history, editor and memory to the detail;
/// from a confirmation back to the editor, dropping the command.
pub fn unwind_agents(model: &mut TuiModel) -> (effect: ControllerEffect)
    ensures
        effect == ControllerEffect::Redraw,
        agents_unwound(*old(model), *final(model)),
{
    match model.agents.pane {
        AgentsPane::List => {
            model.select_view(crate::screen::View::Overview);
        },
        AgentsPane::Detail => {
            model.agents.skill_panel_open = false;
            model.agents.pane = AgentsPane::List;
        },
        AgentsPane::History | AgentsPane::Editor | AgentsPane::Memory => {
            model.agents.pane = AgentsPane::Detail;
        },
        AgentsPane::Confirmation => {
            model.agents.pending_confirmation = None;
            model.agents.pane = AgentsPane::Editor;
        },
    }
    ControllerEffect::Redraw
}

/// `index + 1`, clamped to `last`.
pub open spec fn step_down(index: usize, last: usize) -> usize {
    if index < last {
        (index + 1) as usize
    } else {
        last
    }
}

/// `index - 1`, clamped to zero.
pub open spec fn step_up(index: usize) -> usize {
    if index > 0 {
        (index - 1) as usize
    } else {
        0
    }
}

/// `len - 1`, or zero for an empty list.
pub open spec fn last_index(len: nat) -> usize {
    if len > 0 {
        (len - 1) as usize
    } else {
        0
    }
}

/// An unmodified key other than escape in the agents workspace, outside the skill
/// panel: the effect and the new workspace, or nothing when the key means nothing there.
pub open spec fn agents_key_plain(agents: AgentsViewState, code: KeyCode) -> Option<
    (ControllerEffect, AgentsViewState),
> {
    match (agents.pane, code) {
        (AgentsPane::List, KeyCode::Down) => {
            let selected = step_down(
                agents.selected_profile,
                last_index(agents.profiles.profiles@.len()),
            );
            Some(
                (
                    ControllerEffect::Redraw,
                    AgentsViewState { selected_profile: selected, list_scroll: selected as usize, ..agents },
                ),
            )
        },
        (AgentsPane::List, KeyCode::Up) => {
            let selected = step_up(agents.selected_profile);
            Some(
                (
                    ControllerEffect::Redraw,
                    AgentsViewState { selected_profile: selected, list_scroll: selected as usize, ..agents },
                ),
            )
        },
        (AgentsPane::List, KeyCode::Enter) => Some(
            (
                ControllerEffect::LoadAgentProfile { selected_profile: agents.selected_profile },
                AgentsViewState { pane: AgentsPane::Detail, ..agents },
            ),
        ),
        (AgentsPane::List, KeyCode::Char('c')) | (AgentsPane::Detail, KeyCode::Char('c')) => Some(
            (ControllerEffect::StartProfileCreate { template_index: agents.selected_template }, agents),
        ),
        (AgentsPane::List, KeyCode::Char('e')) | (AgentsPane::Detail, KeyCode::Char('e')) => Some(
            (
                ControllerEffect::StartProfileEdit { selected_profile: agents.selected_profile },
                AgentsViewState { pane: AgentsPane::Editor, ..agents },
            ),
        ),
        (AgentsPane::Detail, KeyCode::Char('h')) => Some(
            (
                ControllerEffect::LoadAgentProfileHistory { selected_profile: agents.selected_profile },
                AgentsViewState { pane: AgentsPane::History, ..agents },
            ),
        ),
        (AgentsPane::Detail, KeyCode::Enter) => Some(
            (
                ControllerEffect::Redraw,
                match agents.detail {
                    Some(detail) => if detail.skill_refs@.len() > 0 {
                        AgentsViewState {
                            skill_panel_open: true,
                            selected_assigned_skill: 0,
                            selected_skill_action_index: 0,
                            ..agents
                        }
                    } else {
                        agents
                    },
                    None => agents,
                },
            ),
        ),
        (AgentsPane::Detail, KeyCode::Down) => Some(
            (
                ControllerEffect::Redraw,
                AgentsViewState {
                    detail_scroll: if agents.detail_scroll < usize::MAX {
                        (agents.detail_scroll + 1) as usize
                    } else {
                        usize::MAX
                    },
                    ..agents
                },
            ),
        ),
        (AgentsPane::Detail, KeyCode::Up) => Some(
            (
                ControllerEffect::Redraw,
                AgentsViewState { detail_scroll: step_up(agents.detail_scroll), ..agents },
            ),
        ),
        (AgentsPane::History, KeyCode::Down) => {
            let last = match agents.history {
                Some(history) => last_index(history.versions@.len()),
                None => 0,
            };
            let selected = step_down(agents.selected_history_version, last);
            Some(
                (
                    ControllerEffect::Redraw,
                    AgentsViewState {
                        selected_history_version: selected,
                        history_scroll: selected,
                        ..agents
                    },
                ),
            )
        },
        (AgentsPane::History, KeyCode::Up) => {
            let selected = step_up(agents.selected_history_version);
            Some(
                (
                    ControllerEffect::Redraw,
                    AgentsViewState {
                        selected_history_version: selected,
                        history_scroll: selected,
                        ..agents
                    },
                ),
            )
        },
        (AgentsPane::History, KeyCode::Enter) => Some(
            (
                match agents.history {
                    Some(history) => if agents.selected_history_version < history.versions@.len() {
                        ControllerEffect::LoadAgentProfileVersion {
                            profile_id: history.profile_id,
                            version: history.versions@[agents.selected_history_version as int].version,
                        }
                    } else {
                        ControllerEffect::Redraw
                    },
                    None => ControllerEffect::Redraw,
                },
                agents,
            ),
        ),
        _ => None,
    }
}

/// An unmodified key other than escape in the agents workspace, outside the skill
/// panel; see `agents_key_plain`.
fn agents_key(agents: &mut AgentsViewState, code: KeyCode) -> (effect: Option<ControllerEffect>)
    ensures
        match agents_key_plain(*old(agents), code) {
            Some((e, next)) => effect == Some(e) && *final(agents) == next,
            None => effect is None && *final(agents) == *old(agents),
        },
{
    match (agents.pane, code) {
        (AgentsPane::List, KeyCode::Down) => {
            let last = agents.profiles.profiles.len().saturating_sub(1);
            let next = agents.selected_profile.saturating_add(1);
            agents.selected_profile = if next < last {
                next
            } else {
                last
            };
            agents.list_scroll = agents.selected_profile;
            Some(ControllerEffect::Redraw)
        },
        (AgentsPane::List, KeyCode::Up) => {
            agents.selected_profile = agents.selected_profile.saturating_sub(1);
            agents.list_scroll = agents.selected_profile;
            Some(ControllerEffect::Redraw)
        },
        (AgentsPane::List, KeyCode::Enter) => {
            agents.pane = AgentsPane::Detail;
            Some(ControllerEffect::LoadAgentProfile { selected_profile: agents.selected_profile })
        },
        (AgentsPane::List, KeyCode::Char('c')) | (AgentsPane::Detail, KeyCode::Char('c')) => {
            Some(ControllerEffect::StartProfileCreate { template_index: agents.selected_template })
        },
        (AgentsPane::List, KeyCode::Char('e')) | (AgentsPane::Detail, KeyCode::Char('e')) => {
            agents.pane = AgentsPane::Editor;
            Some(ControllerEffect::StartProfileEdit { selected_profile: agents.selected_profile })
        },
        (AgentsPane::Detail, KeyCode::Char('h')) => {
            agents.pane = AgentsPane::History;
            Some(ControllerEffect::LoadAgentProfileHistory { selected_profile: agents.selected_profile })
        },
        (AgentsPane::Detail, KeyCode::Enter) => {
            let has_skills = match &agents.detail {
                Some(detail) => detail.skill_refs.len() > 0,
                None => false,
            };
            if has_skills {
                agents.skill_panel_open = true;
                agents.selected_assigned_skill = 0;
                agents.selected_skill_action_index = 0;
            }
            Some(ControllerEffect::Redraw)
        },
        (AgentsPane::Detail, KeyCode::Down) => {
            agents.detail_scroll = agents.detail_scroll.saturating_add(1);
            Some(ControllerEffect::Redraw)
        },
        (AgentsPane::Detail, KeyCode::Up) => {
            agents.detail_scroll = agents.detail_scroll.saturating_sub(1);
            Some(ControllerEffect::Redraw)
        },
        (AgentsPane::History, KeyCode::Down) => {
            let last = match &agents.history {
                Some(history) => history.versions.len().saturating_sub(1),
                None => 0,
            };
            let next = agents.selected_history_version.saturating_add(1);
            agents.selected_history_version = if next < last {
                next
            } else {
                last
            };
            agents.history_scroll = agents.selected_history_version;
            Some(ControllerEffect::Redraw)
        },
        (AgentsPane::History, KeyCode::Up) => {
            agents.selected_history_version = agents.selected_history_version.saturating_sub(1);
            agents.history_scroll = agents.selected_history_version;
            Some(ControllerEffect::Redraw)
        },
        (AgentsPane::History, KeyCode::Enter) => {
            let effect = match &agents.history {
                Some(history) => if agents.selected_history_version < history.versions.len() {
                    ControllerEffect::LoadAgentProfileVersion {
                        profile_id: history.profile_id,
                        version: history.versions[agents.selected_history_version].version,
                    }
                } else {
                    ControllerEffect::Redraw
                },
                None => ControllerEffect::Redraw,
            };
            Some(effect)
        },
        _ => None,
    }
}

/// Whether the pinned skill version selected in the agent's skill panel can be upgraded.
pub open spec fn panel_availability(model: TuiModel) -> AgentSkillUpgradeAvailability {
    upgrade_availability(assigned_selection(model.agents), model.skills.library.skills@)
}

/// The action selected in the agent's skill panel, view when it is not offered.
pub open spec fn panel_action(model: TuiModel) -> AgentSkillAction {
    offered_or_view(panel_availability(model), skill_action_at(model.agents.selected_skill_action_index))
}

/// Where `action` stands among the actions offered.
pub open spec fn offered_position(availability: AgentSkillUpgradeAvailability, action: AgentSkillAction) -> int {
    match action {
        AgentSkillAction::View => 0,
        AgentSkillAction::Upgrade => if availability is Available {
            1
        } else {
            0
        },
        AgentSkillAction::Unassign => offered_skill_actions(availability).len() - 1,
    }
}

/// The offered action one step right (or left) of `current`, stopping at either end.
pub open spec fn stepped_skill_action(
    availability: AgentSkillUpgradeAvailability,
    current: AgentSkillAction,
    forward: bool,
) -> AgentSkillAction {
    let actions = offered_skill_actions(availability);
    let i = offered_position(availability, current);
    actions[if forward {
        if i + 1 < actions.len() {
            i + 1
        } else {
            actions.len() - 1
        }
    } else if i > 0 {
        i - 1
    } else {
        0
    }]
}

/// The first position of `action` in `actions`.
fn position_of_action(actions: &Vec<AgentSkillAction>, action: AgentSkillAction) -> (position: Option<usize>)
    ensures
        match position {
            Some(i) => i < actions@.len() && actions@[i as int] == action && forall|j: int|
                0 <= j < i ==> actions@[j] != action,
            None => forall|j: int| 0 <= j < actions@.len() ==> actions@[j] != action,
        },
{
    let mut i: usize = 0;
    while i < actions.len()
        invariant
            i <= actions@.len(),
            forall|j: int| 0 <= j < i ==> actions@[j] != action,
        decreases actions@.len() - i,
    {
        if actions[i] == action {
            return Some(i);
        }
        i = i + 1;
    }
    None
}

/// Moves the selected action of the agent's skill panel one step; see
/// `stepped_skill_action`.
pub fn move_agent_skill_action(model: &mut TuiModel, forward: bool)
    ensures
        *final(model) == (TuiModel {
            agents: AgentsViewState {
                selected_skill_action_index: skill_action_index(
                    stepped_skill_action(panel_availability(*old(model)), panel_action(*old(model)), forward),
                ),
                ..old(model).agents
            },
            ..*old(model)
        }),
{
    let actions = model.available_agent_skill_actions();
    let current = model.selected_available_agent_skill_action();
    let ghost availability = panel_availability(*model);
    let current_index = match position_of_action(&actions, current) {
        Some(i) => i,
        None => 0,
    };
    assert(current_index == offered_position(availability, current));
    let next_index = if forward {
        let next = current_index + 1;
        if next < actions.len() {
            next
        } else {
            actions.len() - 1
        }
    } else if current_index > 0 {
        current_index - 1
    } else {
        0
    };
    model.select_available_agent_skill_action(actions[next_index]);
}

/// The agents workspace with the panel's assigned-skill selection moved down or up.
pub open spec fn panel_moved(agents: AgentsViewState, down: bool) -> AgentsViewState {
    AgentsViewState {
        selected_assigned_skill: if down {
            step_down(
                agents.selected_assigned_skill,
                match agents.detail {
                    Some(detail) => last_index(detail.skill_refs@.len()),
                    None => 0,
                },
            )
        } else {
            step_up(agents.selected_assigned_skill)
        },
        ..agents
    }
}

/// `model` with the agent's skill panel's selected action set as
/// `select_available_agent_skill_action(action)` sets it.
pub open spec fn panel_action_selected(model: TuiModel, action: AgentSkillAction) -> TuiModel {
    TuiModel {
        agents: AgentsViewState {
            selected_skill_action_index: skill_action_index(
                offered_or_view(panel_availability(model), action),
            ),
            ..model.agents
        },
        ..model
    }
}

/// Enter in an agent's skill panel leads from `before` to `after` with `effect`; see
/// `handle_agent_skills_key`.
pub open spec fn panel_entered(before: TuiModel, effect: Option<ControllerEffect>, after: TuiModel) -> bool {
    match assigned_selection(before.agents) {
        None => effect is None && after == before,
        Some(selected) => {
            let profile = before.agents.detail->0.profile;
            match panel_action(before) {
                AgentSkillAction::View => effect == Some(
                    ControllerEffect::LoadSkillVersion {
                        skill_id: selected.skill_id,
                        version: selected.version,
                    },
                ) && after == (TuiModel {
                    skills: SkillsViewState {
                        workspace_origin: Some(
                            SkillWorkspaceOrigin::AgentSkills { profile_id: profile.profile_id },
                        ),
                        detail: None,
                        history: None,
                        version_detail: None,
                        selected_history_version: 0,
                        pending_active_skill: None,
                        active: true,
                        ..before.skills
                    },
                    ..before
                }),
                AgentSkillAction::Upgrade => match panel_availability(before) {
                    AgentSkillUpgradeAvailability::Available(replacement) => effect == Some(
                        ControllerEffect::RequestSkillAssignmentPreview {
                            profile_id: profile.profile_id,
                            expected_active_profile_version_id: profile.profile_version_id,
                            target: replacement,
                            assignment: AssignmentKind::Upgrade { expected: selected },
                        },
                    ) && after == (TuiModel {
                        skills: SkillsViewState {
                            operation_origin: SkillOperationOrigin::AgentSkills {
                                profile_id: profile.profile_id,
                            },
                            ..before.skills
                        },
                        ..before
                    }),
                    _ => effect == Some(ControllerEffect::Redraw) && after
                        == panel_action_selected(before, AgentSkillAction::View),
                },
                AgentSkillAction::Unassign => effect == Some(
                    ControllerEffect::RequestSkillAssignmentPreview {
                        profile_id: profile.profile_id,
                        expected_active_profile_version_id: profile.profile_version_id,
                        target: selected,
                        assignment: AssignmentKind::Unassign { expected: selected },
                    },
                ) && after == (TuiModel {
                    skills: SkillsViewState {
                        operation_origin: SkillOperationOrigin::AgentSkills {
                            profile_id: profile.profile_id,
                        },
                        ..before.skills
                    },
                    ..before
                }),
            }
        },
    }
}

/// A key in an agent's skill panel leads from `before` to `after` with `effect`; see
/// `handle_agent_skills_key`.
pub open spec fn panel_key_handled(
    before: TuiModel,
    key: KeyEvent,
    effect: Option<ControllerEffect>,
    after: TuiModel,
) -> bool {
    &&& (key.modifiers.bits != 0 ==> effect is None && after == before)
    &&& (key.modifiers.bits == 0 && (key.code == KeyCode::Down || key.code == KeyCode::Up) ==> effect
        == Some(ControllerEffect::Redraw) && after == panel_action_selected(
        TuiModel { agents: panel_moved(before.agents, key.code == KeyCode::Down), ..before },
        panel_action(before),
    ))
    &&& (key.modifiers.bits == 0 && (key.code == KeyCode::Right || key.code == KeyCode::Left) ==> effect
        == Some(ControllerEffect::Redraw) && after == (TuiModel {
        agents: AgentsViewState {
            selected_skill_action_index: skill_action_index(
                stepped_skill_action(
                    panel_availability(before),
                    panel_action(before),
                    key.code == KeyCode::Right,
                ),
            ),
            ..before.agents
        },
        ..before
    }))
    &&& (key.modifiers.bits == 0 && key.code == KeyCode::Esc ==> effect == Some(ControllerEffect::Redraw)
        && after == (TuiModel {
        agents: AgentsViewState { skill_panel_open: false, ..before.agents },
        ..before
    }))
    &&& (key.modifiers.bits == 0 && key.code == KeyCode::Enter ==> panel_entered(
        before,
        effect,
        after,
    ))
    &&& (key.modifiers.bits == 0 && !(key.code == KeyCode::Down || key.code == KeyCode::Up
        || key.code == KeyCode::Right || key.code == KeyCode::Left || key.code == KeyCode::Esc
        || key.code == KeyCode::Enter) ==> effect is None && after == before)
}

/// Keys in an agent's skill panel. Up and down move along the assigned skills, keeping
/// the chosen action where still offered; left and right move along the actions; enter
/// views the skill version, or asks for a preview of upgrading or unassigning it; escape
/// closes the panel. Any other key, or enter without a selected skill, means nothing.
pub fn handle_agent_skills_key(model: &mut TuiModel, key: KeyEvent) -> (effect: Option<ControllerEffect>)
    ensures
        panel_key_handled(*old(model), key, effect, *final(model)),
{
    if !no_modifiers(key.modifiers) {
        return None;
    }
    match key.code {
        KeyCode::Down | KeyCode::Up => {
            let previous_action = model.selected_available_agent_skill_action();
            if key.code == KeyCode::Down {
                let last = match &model.agents.detail {
                    Some(detail) => detail.skill_refs.len().saturating_sub(1),
                    None => 0,
                };
                let next = model.agents.selected_assigned_skill.saturating_add(1);
                model.agents.selected_assigned_skill = if next < last {
                    next
                } else {
                    last
                };
            } else {
                model.agents.selected_assigned_skill = model.agents.selected_assigned_skill.saturating_sub(1);
            }
            model.select_available_agent_skill_action(previous_action);
            Some(ControllerEffect::Redraw)
        },
        KeyCode::Right => {
            move_agent_skill_action(model, true);
            Some(ControllerEffect::Redraw)
        },
        KeyCode::Left => {
            move_agent_skill_action(model, false);
            Some(ControllerEffect::Redraw)
        },
        KeyCode::Enter => open_panel_skill(model),
        KeyCode::Esc => {
            model.agents.skill_panel_open = false;
            Some(ControllerEffect::Redraw)
        },
        _ => None,
    }
}

/// Enter in an agent's skill panel; see `handle_agent_skills_key`.
fn open_panel_skill(model: &mut TuiModel) -> (effect: Option<ControllerEffect>)
    ensures
        panel_entered(*old(model), effect, *final(model)),
{
    let selected = match model.agents.selected_assigned_skill_ref() {
        Some(selected) => selected,
        None => return None,
    };
    let profile = match &model.agents.detail {
        Some(detail) => detail.profile,
        None => return None,
    };
    match model.selected_available_agent_skill_action() {
        AgentSkillAction::View => {
            model.skills.workspace_origin = Some(
                SkillWorkspaceOrigin::AgentSkills { profile_id: profile.profile_id },
            );
            model.skills.clear_skill_context();
            model.skills.active = true;
            Some(ControllerEffect::LoadSkillVersion { skill_id: selected.skill_id, version: selected.version })
        },
        AgentSkillAction::Upgrade => {
            match model.agent_skill_upgrade_availability() {
                AgentSkillUpgradeAvailability::Available(replacement) => {
                    model.skills.operation_origin = SkillOperationOrigin::AgentSkills {
                        profile_id: profile.profile_id,
                    };
                    Some(
                        ControllerEffect::RequestSkillAssignmentPreview {
                            profile_id: profile.profile_id,
                            expected_active_profile_version_id: profile.profile_version_id,
                            target: replacement,
                            assignment: AssignmentKind::Upgrade { expected: selected },
                        },
                    )
                },
                _ => {
                    model.select_available_agent_skill_action(AgentSkillAction::View);
                    Some(ControllerEffect::Redraw)
                },
            }
        },
        AgentSkillAction::Unassign => {
            model.skills.operation_origin = SkillOperationOrigin::AgentSkills {
                profile_id: profile.profile_id,
            };
            Some(
                ControllerEffect::RequestSkillAssignmentPreview {
                    profile_id: profile.profile_id,
                    expected_active_profile_version_id: profile.profile_version_id,
                    target: selected,
                    assignment: AssignmentKind::Unassign { expected: selected },
                },
            )
        },
    }
}

/// A key in the agents workspace leads from `before` to `after` with `effect`; see
/// `handle_agents_key`.
pub open spec fn agents_key_handled(before: TuiModel, key: KeyEvent, effect: Option<ControllerEffect>, after: TuiModel) -> bool {
    &&& (before.agents.pane == AgentsPane::Detail && before.agents.skill_panel_open
        ==> panel_key_handled(before, key, effect, after))
    &&& (!(before.agents.pane == AgentsPane::Detail && before.agents.skill_panel_open) ==> {
        if key.modifiers.bits != 0 {
            effect is None && after == before
        } else if key.code == KeyCode::Esc {
            effect == Some(ControllerEffect::Redraw) && agents_unwound(before, after)
        } else {
            match agents_key_plain(before.agents, key.code) {
                Some((e, agents)) => effect == Some(e) && after == (TuiModel {
                    agents,
                    ..before
                }),
                None => effect is None && after == before,
            }
        }
    })
}

/// Keys in the agents workspace: in a skill panel see `handle_agent_skills_key`; escape
/// unwinds (see `unwind_agents`); other unmodified keys see `agents_key_plain`. Nothing
/// for a key the workspace does not use.
pub fn handle_agents_key(model: &mut TuiModel, key: KeyEvent) -> (effect: Option<ControllerEffect>)
    ensures
        agents_key_handled(*old(model), key, effect, *final(model)),
        effect is None ==> *final(model) == *old(model),
{
    if model.agents.pane == AgentsPane::Detail && model.agents.skill_panel_open {
        return handle_agent_skills_key(model, key);
    }
    if !no_modifiers(key.modifiers) {
        return None;
    }
    if key.code == KeyCode::Esc {
        return Some(unwind_agents(model));
    }
    agents_key(&mut model.agents, key.code)
}

/// The command line `after` is `before` emptied, its history kept.
pub open spec fn command_cleared(before: CommandEditor, after: CommandEditor) -> bool {
    &&& after.text_view() == Seq::<char>::empty()
    &&& after.cursor_view() == 0
    &&& after.history_view() == before.history_view()
    &&& after.recall_index() == None::<usize>
}

/// `after` is `before` with the command line holding `/` and focused for typing.
pub open spec fn command_started(before: TuiModel, after: TuiModel) -> bool {
    &&& focus_set(TuiModel { command: after.command, ..before }, Focus::Command, after)
    &&& after.command.text_view() == seq!['/']
    &&& after.command.cursor_view() == 1
    &&& after.command.history_view() == before.command.history_view()
    &&& after.command.recall_index() == None::<usize>
}

/// Empties the command line, types `/` into it and focuses it.
pub fn start_command_line(model: &mut TuiModel) -> (effect: ControllerEffect)
    ensures
        effect == ControllerEffect::Redraw,
        command_started(*old(model), *final(model)),
{
    model.command.clear();
    let ghost cleared = model.command;
    model.command.insert('/');
    proof {
        let single = seq!['/'];
        assert(single.drop_first() =~= Seq::<char>::empty());
        assert('/' as u32 == 47);
        assert(!crate::text::is_control(single[0]));
        assert(strip_controls(Seq::<char>::empty()) == Seq::<char>::empty());
        assert(strip_controls(single) == seq![single[0]] + strip_controls(single.drop_first()));
        assert(strip_controls(single) =~= single);
        assert(crate::text::char_width(single[0]) == 1);
        assert(fitted(Seq::<char>::empty(), MAX_INPUT_BYTES as int - 1) == Seq::<char>::empty());
        assert(fitted(single, MAX_INPUT_BYTES as int) == seq![single[0]] + fitted(
            single.drop_first(),
            MAX_INPUT_BYTES as int - 1,
        ));
        assert(byte_len(cleared.text_view()) == 0);
        assert(fitted(single, MAX_INPUT_BYTES as int) =~= single);
        assert(cleared.text_view().take(0) =~= Seq::<char>::empty());
        assert(cleared.text_view().skip(0) =~= Seq::<char>::empty());
        assert(model.command.text_view() =~= seq!['/']);
    }
    model.set_focus(Focus::Command);
    ControllerEffect::Redraw
}

/// The message shown when the agent already has the skill version to assign.
pub open spec fn already_assigned_text() -> Seq<char> {
    "Agent already has this exact skill version."@
}

/// The detail action under the selection, clamped to those offered.
pub open spec fn selected_detail_action(skills: SkillsViewState) -> SkillDetailAction {
    skills.detail_actions()[clamp_index(skills.selected_action_index, skills.detail_actions().len()) as int]
}

/// Where a skill assignment returns to: the agent the workspace was opened from, else
/// the assignment review.
pub open spec fn assignment_origin(skills: SkillsViewState) -> SkillOperationOrigin {
    match skills.workspace_origin {
        Some(SkillWorkspaceOrigin::AgentSkills { profile_id }) => SkillOperationOrigin::AgentSkills {
            profile_id,
        },
        _ => SkillOperationOrigin::Skills(SkillsPane::AssignmentReview),
    }
}

/// An unmodified key in the skills workspace with a result stated over the model alone:
/// the effect and the new model, or nothing when the key means nothing there.
pub open spec fn skills_key_plain(model: TuiModel, code: KeyCode) -> Option<(ControllerEffect, TuiModel)> {
    let skills = model.skills;
    match (skills.pane, code) {
        (SkillsPane::List, KeyCode::Down) => Some(
            (
                ControllerEffect::Redraw,
                TuiModel {
                    skills: SkillsViewState {
                        selected_skill: step_down(
                            skills.selected_skill,
                            last_index(skills.library.skills@.len()),
                        ),
                        ..skills
                    },
                    ..model
                },
            ),
        ),
        (SkillsPane::List, KeyCode::Up) => Some(
            (
                ControllerEffect::Redraw,
                TuiModel {
                    skills: SkillsViewState { selected_skill: step_up(skills.selected_skill), ..skills },
                    ..model
                },
            ),
        ),
        (SkillsPane::List, KeyCode::Enter) => Some(
            (ControllerEffect::LoadSkill { selected_skill: skills.selected_skill }, model),
        ),
        (SkillsPane::List, KeyCode::Char('c')) => Some(
            (
                ControllerEffect::Redraw,
                TuiModel {
                    skills: SkillsViewState { pane: SkillsPane::CreateSource, ..skills },
                    ..model
                },
            ),
        ),
        (SkillsPane::CreateSource, KeyCode::Down) => Some(
            (
                ControllerEffect::Redraw,
                TuiModel {
                    skills: SkillsViewState {
                        selected_create_source: step_down(
                            skills.selected_create_source,
                            skills.library.skills@.len() as usize,
                        ),
                        ..skills
                    },
                    ..model
                },
            ),
        ),
        (SkillsPane::CreateSource, KeyCode::Up) => Some(
            (
                ControllerEffect::Redraw,
                TuiModel {
                    skills: SkillsViewState {
                        selected_create_source: step_up(skills.selected_create_source),
                        ..skills
                    },
                    ..model
                },
            ),
        ),
        (SkillsPane::CreateSource, KeyCode::Enter) => if skills.selected_create_source == 0 {
            None
        } else {
            Some(
                (
                    ControllerEffect::LoadSkillStarter {
                        selected_skill: (skills.selected_create_source - 1) as usize,
                    },
                    model,
                ),
            )
        },
        (SkillsPane::Detail, KeyCode::Down) | (SkillsPane::Detail, KeyCode::Right) => Some(
            (
                ControllerEffect::Redraw,
                TuiModel {
                    skills: SkillsViewState {
                        selected_action_index: step_down(
                            skills.selected_action_index,
                            last_index(skills.detail_actions().len()),
                        ),
                        ..skills
                    },
                    ..model
                },
            ),
        ),
        (SkillsPane::Detail, KeyCode::Up) | (SkillsPane::Detail, KeyCode::Left) => Some(
            (
                ControllerEffect::Redraw,
                TuiModel {
                    skills: SkillsViewState {
                        selected_action_index: step_up(skills.selected_action_index),
                        ..skills
                    },
                    ..model
                },
            ),
        ),
        (SkillsPane::Detail, KeyCode::Enter) => match selected_detail_action(skills) {
            SkillDetailAction::Assign => Some(
                (
                    match skills.workspace_origin {
                        Some(SkillWorkspaceOrigin::AgentSkills { profile_id }) => ControllerEffect::LoadSkillAgent {
                            profile_id,
                        },
                        _ => ControllerEffect::LoadSkillAgents,
                    },
                    TuiModel {
                        skills: SkillsViewState { pane: SkillsPane::AgentPicker, ..skills },
                        pending_agent_outcome: Some(AgentOutcomeIntent::SkillAssignment),
                        ..model
                    },
                ),
            ),
            SkillDetailAction::CreateVersion => None,
            SkillDetailAction::History => match skills.current_ref() {
                Some(current) => Some(
                    (ControllerEffect::LoadSkillHistory { skill_id: current.skill_id }, model),
                ),
                None => None,
            },
        },
        (SkillsPane::History, KeyCode::Down) => Some(
            (
                ControllerEffect::Redraw,
                TuiModel {
                    skills: SkillsViewState {
                        selected_history_version: step_down(
                            skills.selected_history_version,
                            match skills.history {
                                Some(history) => last_index(history.versions@.len()),
                                None => 0,
                            },
                        ),
                        ..skills
                    },
                    ..model
                },
            ),
        ),
        (SkillsPane::History, KeyCode::Up) => Some(
            (
                ControllerEffect::Redraw,
                TuiModel {
                    skills: SkillsViewState {
                        selected_history_version: step_up(skills.selected_history_version),
                        ..skills
                    },
                    ..model
                },
            ),
        ),
        (SkillsPane::History, KeyCode::Enter) => Some(
            (
                match skills.history {
                    Some(history) => if skills.selected_history_version < history.versions@.len() {
                        ControllerEffect::LoadSkillVersion {
                            skill_id: history.skill_id,
                            version: history.versions@[skills.selected_history_version as int].skill_ref.version,
                        }
                    } else {
                        ControllerEffect::Redraw
                    },
                    None => ControllerEffect::Redraw,
                },
                model,
            ),
        ),
        (SkillsPane::AgentPicker, KeyCode::Down) => Some(
            (
                ControllerEffect::Redraw,
                TuiModel {
                    skills: SkillsViewState {
                        selected_agent: step_down(
                            skills.selected_agent,
                            last_index(model.agents.profiles.profiles@.len()),
                        ),
                        ..skills
                    },
                    ..model
                },
            ),
        ),
        (SkillsPane::AgentPicker, KeyCode::Up) => Some(
            (
                ControllerEffect::Redraw,
                TuiModel {
                    skills: SkillsViewState { selected_agent: step_up(skills.selected_agent), ..skills },
                    ..model
                },
            ),
        ),
        (SkillsPane::AgentPicker, KeyCode::Enter) => if skills.selected_agent
            < model.agents.profiles.profiles@.len() {
            Some(
                (
                    ControllerEffect::LoadSkillAgent {
                        profile_id: model.agents.profiles.profiles@[skills.selected_agent as int].profile_id,
                    },
                    TuiModel {
                        pending_agent_outcome: Some(AgentOutcomeIntent::SkillAssignment),
                        ..model
                    },
                ),
            )
        } else {
            None
        },
        (SkillsPane::AssignmentReview, KeyCode::Enter) => match (
            skills.selected_agent_detail,
            skills.current_ref(),
            skills.assignment,
        ) {
            (Some(detail), Some(target), Some(assignment)) => if assignment
                == AssignmentKind::AlreadyAssigned {
                None
            } else {
                Some(
                    (
                        ControllerEffect::RequestSkillAssignmentPreview {
                            profile_id: detail.profile.profile_id,
                            expected_active_profile_version_id: detail.profile.profile_version_id,
                            target,
                            assignment,
                        },
                        TuiModel {
                            skills: SkillsViewState {
                                operation_origin: assignment_origin(skills),
                                ..skills
                            },
                            ..model
                        },
                    ),
                )
            },
            _ => None,
        },
        (SkillsPane::Result, KeyCode::Enter) | (SkillsPane::Result, KeyCode::Esc) => if skills.pending_active_skill is Some {
            Some((ControllerEffect::Submit(ApplicationCommand::ListSkills), model))
        } else {
            Some(
                (
                    ControllerEffect::Redraw,
                    TuiModel { skills: SkillsViewState { pane: SkillsPane::Detail, ..skills }, ..model },
                ),
            )
        },
        _ => None,
    }
}

/// The unmodified keys of the skills workspace whose result also touches the command
/// line or the message.
pub open spec fn skills_key_special(model: TuiModel, code: KeyCode) -> bool {
    let skills = model.skills;
    ||| code == KeyCode::Char('/')
    ||| (code == KeyCode::Esc && skills.pane != SkillsPane::Result)
    ||| (skills.pane == SkillsPane::CreateSource && code == KeyCode::Enter
        && skills.selected_create_source == 0)
    ||| (skills.pane == SkillsPane::Detail && code == KeyCode::Enter && selected_detail_action(skills)
        == SkillDetailAction::CreateVersion)
    ||| (skills.pane == SkillsPane::AssignmentReview && code == KeyCode::Enter
        && skills.selected_agent_detail is Some && skills.current_ref() is Some && skills.assignment
        == Some(AssignmentKind::AlreadyAssigned))
}

/// Keys on the skill library list.
fn skills_list_key(model: &mut TuiModel, code: KeyCode) -> (effect: Option<ControllerEffect>)
    requires
        old(model).skills.pane == SkillsPane::List,
        !skills_key_special(*old(model), code),
    ensures
        match skills_key_plain(*old(model), code) {
            Some((e, next)) => effect == Some(e) && *final(model) == next,
            None => effect is None && *final(model) == *old(model),
        },
{
    match code {
        KeyCode::Down => {
            let last = model.skills.library.skills.len().saturating_sub(1);
            let next = model.skills.selected_skill.saturating_add(1);
            model.skills.selected_skill = if next < last {
                next
            } else {
                last
            };
            Some(ControllerEffect::Redraw)
        },
        KeyCode::Up => {
            model.skills.selected_skill = model.skills.selected_skill.saturating_sub(1);
            Some(ControllerEffect::Redraw)
        },
        KeyCode::Enter => Some(ControllerEffect::LoadSkill { selected_skill: model.skills.selected_skill }),
        KeyCode::Char('c') => {
            model.skills.pane = SkillsPane::CreateSource;
            Some(ControllerEffect::Redraw)
        },
        _ => None,
    }
}

/// Keys on the choice of what a new skill starts from.
fn skills_create_source_key(model: &mut TuiModel, code: KeyCode) -> (effect: Option<ControllerEffect>)
    requires
        old(model).skills.pane == SkillsPane::CreateSource,
        !skills_key_special(*old(model), code),
    ensures
        match skills_key_plain(*old(model), code) {
            Some((e, next)) => effect == Some(e) && *final(model) == next,
            None => effect is None && *final(model) == *old(model),
        },
{
    match code {
        KeyCode::Down => {
            let last = model.skills.library.skills.len();
            let next = model.skills.selected_create_source.saturating_add(1);
            model.skills.selected_create_source = if next < last {
                next
            } else {
                last
            };
            Some(ControllerEffect::Redraw)
        },
        KeyCode::Up => {
            model.skills.selected_create_source = model.skills.selected_create_source.saturating_sub(1);
            Some(ControllerEffect::Redraw)
        },
        KeyCode::Enter => Some(
            ControllerEffect::LoadSkillStarter { selected_skill: model.skills.selected_create_source - 1 },
        ),
        _ => None,
    }
}

/// Keys on a skill's detail.
fn skills_detail_key(model: &mut TuiModel, code: KeyCode) -> (effect: Option<ControllerEffect>)
    requires
        old(model).skills.pane == SkillsPane::Detail,
        !skills_key_special(*old(model), code),
    ensures
        match skills_key_plain(*old(model), code) {
            Some((e, next)) => effect == Some(e) && *final(model) == next,
            None => effect is None && *final(model) == *old(model),
        },
{
    match code {
        KeyCode::Down | KeyCode::Right => {
            let last = model.skills.available_detail_actions().len().saturating_sub(1);
            let next = model.skills.selected_action_index.saturating_add(1);
            model.skills.selected_action_index = if next < last {
                next
            } else {
                last
            };
            Some(ControllerEffect::Redraw)
        },
        KeyCode::Up | KeyCode::Left => {
            model.skills.selected_action_index = model.skills.selected_action_index.saturating_sub(1);
            Some(ControllerEffect::Redraw)
        },
        KeyCode::Enter => match model.skills.selected_action() {
            SkillDetailAction::Assign => {
                model.skills.pane = SkillsPane::AgentPicker;
                model.pending_agent_outcome = Some(AgentOutcomeIntent::SkillAssignment);
                match model.skills.agent_origin_profile_id() {
                    Some(profile_id) => Some(ControllerEffect::LoadSkillAgent { profile_id }),
                    None => Some(ControllerEffect::LoadSkillAgents),
                }
            },
            SkillDetailAction::CreateVersion => None,
            SkillDetailAction::History => match model.skills.current_skill_id() {
                Some(skill_id) => Some(ControllerEffect::LoadSkillHistory { skill_id }),
                None => None,
            },
        },
        _ => None,
    }
}

/// Keys on a skill's version history.
fn skills_history_key(model: &mut TuiModel, code: KeyCode) -> (effect: Option<ControllerEffect>)
    requires
        old(model).skills.pane == SkillsPane::History,
        !skills_key_special(*old(model), code),
    ensures
        match skills_key_plain(*old(model), code) {
            Some((e, next)) => effect == Some(e) && *final(model) == next,
            None => effect is None && *final(model) == *old(model),
        },
{
    match code {
        KeyCode::Down => {
            let last = match &model.skills.history {
                Some(history) => history.versions.len().saturating_sub(1),
                None => 0,
            };
            let next = model.skills.selected_history_version.saturating_add(1);
            model.skills.selected_history_version = if next < last {
                next
            } else {
                last
            };
            Some(ControllerEffect::Redraw)
        },
        KeyCode::Up => {
            model.skills.selected_history_version = model.skills.selected_history_version.saturating_sub(1);
            Some(ControllerEffect::Redraw)
        },
        KeyCode::Enter => {
            let effect = match &model.skills.history {
                Some(history) => if model.skills.selected_history_version < history.versions.len() {
                    ControllerEffect::LoadSkillVersion {
                        skill_id: history.skill_id,
                        version: history.versions[model.skills.selected_history_version].skill_ref.version,
                    }
                } else {
                    ControllerEffect::Redraw
                },
                None => ControllerEffect::Redraw,
            };
            Some(effect)
        },
        _ => None,
    }
}

/// Keys on the choice of the agent to assign a skill to.
fn skills_agent_picker_key(model: &mut TuiModel, code: KeyCode) -> (effect: Option<ControllerEffect>)
    requires
        old(model).skills.pane == SkillsPane::AgentPicker,
        !skills_key_special(*old(model), code),
    ensures
        match skills_key_plain(*old(model), code) {
            Some((e, next)) => effect == Some(e) && *final(model) == next,
            None => effect is None && *final(model) == *old(model),
        },
{
    match code {
        KeyCode::Down => {
            let last = model.agents.profiles.profiles.len().saturating_sub(1);
            let next = model.skills.selected_agent.saturating_add(1);
            model.skills.selected_agent = if next < last {
                next
            } else {
                last
            };
            Some(ControllerEffect::Redraw)
        },
        KeyCode::Up => {
            model.skills.selected_agent = model.skills.selected_agent.saturating_sub(1);
            Some(ControllerEffect::Redraw)
        },
        KeyCode::Enter => {
            if model.skills.selected_agent < model.agents.profiles.profiles.len() {
                let profile_id = model.agents.profiles.profiles[model.skills.selected_agent].profile_id;
                model.pending_agent_outcome = Some(AgentOutcomeIntent::SkillAssignment);
                Some(ControllerEffect::LoadSkillAgent { profile_id })
            } else {
                None
            }
        },
        _ => None,
    }
}

/// Keys on the review of an assignment.
fn skills_review_key(model: &mut TuiModel, code: KeyCode) -> (effect: Option<ControllerEffect>)
    requires
        old(model).skills.pane == SkillsPane::AssignmentReview,
        !skills_key_special(*old(model), code),
    ensures
        match skills_key_plain(*old(model), code) {
            Some((e, next)) => effect == Some(e) && *final(model) == next,
            None => effect is None && *final(model) == *old(model),
        },
{
    match code {
        KeyCode::Enter => {
            let profile = match &model.skills.selected_agent_detail {
                Some(detail) => detail.profile,
                None => return None,
            };
            let target = match model.skills.selected_skill_ref() {
                Some(target) => target,
                None => return None,
            };
            let assignment = match model.skills.assignment {
                Some(assignment) => assignment,
                None => return None,
            };
            model.skills.operation_origin = match model.skills.agent_origin_profile_id() {
                Some(profile_id) => SkillOperationOrigin::AgentSkills { profile_id },
                None => SkillOperationOrigin::Skills(SkillsPane::AssignmentReview),
            };
            Some(
                ControllerEffect::RequestSkillAssignmentPreview {
                    profile_id: profile.profile_id,
                    expected_active_profile_version_id: profile.profile_version_id,
                    target,
                    assignment,
                },
            )
        },
        _ => None,
    }
}

/// Keys on the result of a skill operation.
fn skills_result_key(model: &mut TuiModel, code: KeyCode) -> (effect: Option<ControllerEffect>)
    requires
        old(model).skills.pane == SkillsPane::Result,
        !skills_key_special(*old(model), code),
    ensures
        match skills_key_plain(*old(model), code) {
            Some((e, next)) => effect == Some(e) && *final(model) == next,
            None => effect is None && *final(model) == *old(model),
        },
{
    match code {
        KeyCode::Enter | KeyCode::Esc => {
            if model.skills.pending_active_skill.is_some() {
                Some(ControllerEffect::Submit(ApplicationCommand::ListSkills))
            } else {
                model.skills.pane = SkillsPane::Detail;
                Some(ControllerEffect::Redraw)
            }
        },
        _ => None,
    }
}

/// Unmodified keys of the skills workspace other than the special ones; see
/// `skills_key_plain`.
fn skills_plain_key(model: &mut TuiModel, code: KeyCode) -> (effect: Option<ControllerEffect>)
    requires
        !skills_key_special(*old(model), code),
    ensures
        match skills_key_plain(*old(model), code) {
            Some((e, next)) => effect == Some(e) && *final(model) == next,
            None => effect is None && *final(model) == *old(model),
        },
{
    match model.skills.pane {
        SkillsPane::List => skills_list_key(model, code),
        SkillsPane::CreateSource => skills_create_source_key(model, code),
        SkillsPane::Detail => skills_detail_key(model, code),
        SkillsPane::History => skills_history_key(model, code),
        SkillsPane::AgentPicker => skills_agent_picker_key(model, code),
        SkillsPane::AssignmentReview => skills_review_key(model, code),
        SkillsPane::Result => skills_result_key(model, code),
        _ => None,
    }
}

/// The skills workspace after `start_version`: the editor open on the shown skill, unless
/// a historical version or no skill is shown.
pub open spec fn version_started(skills: SkillsViewState) -> SkillsViewState {
    if skills.version_detail is None && skills.detail is Some {
        SkillsViewState {
            editor: Some(SkillEditorSession { base: Some(skills.detail->0.skill_ref) }),
            editor_origin: SkillsPane::Detail,
            pane: SkillsPane::Editor,
            pending_confirmation: None,
            ..skills
        }
    } else {
        skills
    }
}

/// The skills workspace after `start_create(None)`: the editor open on a new skill.
pub open spec fn creation_started(skills: SkillsViewState) -> SkillsViewState {
    SkillsViewState {
        editor: Some(SkillEditorSession { base: None }),
        editor_origin: SkillsPane::CreateSource,
        pane: SkillsPane::Editor,
        pending_confirmation: None,
        ..skills
    }
}

/// Empties the command line for the skill editor, which shows its field's value itself.
fn synchronize_skill_editor_input(model: &mut TuiModel)
    ensures
        *final(model) == (TuiModel { command: final(model).command, ..*old(model) }),
        command_cleared(old(model).command, final(model).command),
{
    model.command.clear();
}

/// A key in the skills workspace leads from `before` to `after` with `effect`; see
/// `handle_skills_key`.
pub open spec fn skills_key_handled(before: TuiModel, key: KeyEvent, effect: Option<ControllerEffect>, after: TuiModel) -> bool {
    &&& (key.modifiers.bits != 0 ==> effect is None && after == before)
    &&& (key.modifiers.bits == 0 ==> {
        let skills = before.skills;
        let code = key.code;
        if code == KeyCode::Char('/') {
            effect == Some(ControllerEffect::Redraw) && command_started(before, after)
        } else if code == KeyCode::Esc && skills.pane != SkillsPane::Result {
            effect == Some(ControllerEffect::Redraw) && skills_unwound(before, after)
        } else if skills.pane == SkillsPane::CreateSource && code == KeyCode::Enter
            && skills.selected_create_source == 0 {
            &&& effect == Some(ControllerEffect::Redraw)
            &&& after == (TuiModel {
                skills: creation_started(skills),
                command: after.command,
                ..before
            })
            &&& command_cleared(before.command, after.command)
        } else if skills.pane == SkillsPane::Detail && code == KeyCode::Enter
            && selected_detail_action(skills) == SkillDetailAction::CreateVersion {
            &&& effect == Some(ControllerEffect::Redraw)
            &&& after == (TuiModel {
                skills: version_started(skills),
                command: after.command,
                ..before
            })
            &&& command_cleared(before.command, after.command)
        } else if skills_key_special(before, code) {
            &&& effect == Some(ControllerEffect::Redraw)
            &&& after == (TuiModel { message: after.message, ..before })
            &&& after.message is Some
            &&& after.message->0.severity == Severity::Warning
            &&& after.message->0.text@ == already_assigned_text()
        } else {
            match skills_key_plain(before, code) {
                Some((e, next)) => effect == Some(e) && after == next,
                None => effect is None && after == before,
            }
        }
    })
}

/// Keys of the skills workspace. Slash starts a command; escape unwinds (see
/// `unwind_skills`) but on a result; enter on the first creation source opens the editor
/// on a new skill, and on the create-version action opens it on the shown skill, both
/// emptying the command line; enter on an assignment the agent already has only warns;
/// the other unmodified keys go by `skills_key_plain`. Nothing for a key the workspace
/// does not use.
pub fn handle_skills_key(model: &mut TuiModel, key: KeyEvent) -> (effect: Option<ControllerEffect>)
    ensures
        skills_key_handled(*old(model), key, effect, *final(model)),
{
    if !no_modifiers(key.modifiers) {
        return None;
    }
    let code = key.code;
    if code == KeyCode::Char('/') {
        return Some(start_command_line(model));
    }
    if code == KeyCode::Esc && model.skills.pane != SkillsPane::Result {
        return Some(unwind_skills(model));
    }
    if model.skills.pane == SkillsPane::CreateSource && code == KeyCode::Enter
        && model.skills.selected_create_source == 0 {
        model.skills.start_create(None);
        synchronize_skill_editor_input(model);
        return Some(ControllerEffect::Redraw);
    }
    if model.skills.pane == SkillsPane::Detail && code == KeyCode::Enter {
        if model.skills.selected_action() == SkillDetailAction::CreateVersion {
            model.skills.start_version();
            synchronize_skill_editor_input(model);
            return Some(ControllerEffect::Redraw);
        }
    }
    if model.skills.pane == SkillsPane::AssignmentReview && code == KeyCode::Enter {
        let already = match (&model.skills.selected_agent_detail, model.skills.selected_skill_ref(), model.skills.assignment) {
            (Some(_), Some(_), Some(AssignmentKind::AlreadyAssigned)) => true,
            _ => false,
        };
        if already {
            model.set_message(Severity::Warning, "Agent already has this exact skill version.".to_owned());
            return Some(ControllerEffect::Redraw);
        }
    }
    skills_plain_key(model, code)
}

/// The line edit a key makes on the command line: the arrows, home, end, backspace and
/// delete without modifiers, and a character typed with at most shift.
pub open spec fn command_edit_of(key: KeyEvent) -> Option<LineEdit> {
    if key.modifiers.bits == 0 {
        match key.code {
            KeyCode::Left => Some(LineEdit::MoveLeft),
            KeyCode::Right => Some(LineEdit::MoveRight),
            KeyCode::Home => Some(LineEdit::MoveHome),
            KeyCode::End => Some(LineEdit::MoveEnd),
            KeyCode::Backspace => Some(LineEdit::Backspace),
            KeyCode::Delete => Some(LineEdit::Delete),
            KeyCode::Up => Some(LineEdit::HistoryPrevious),
            KeyCode::Down => Some(LineEdit::HistoryNext),
            KeyCode::Char(c) => Some(LineEdit::Insert(c)),
            _ => None,
        }
    } else if key.modifiers.bits == 1 {
        match key.code {
            KeyCode::Char(c) => Some(LineEdit::Insert(c)),
            _ => None,
        }
    } else {
        None
    }
}

/// The line edit of `key`; see `command_edit_of`.
pub fn line_edit_of(key: KeyEvent) -> (edit: Option<LineEdit>)
    ensures
        edit == command_edit_of(key),
{
    if no_modifiers(key.modifiers) {
        match key.code {
            KeyCode::Left => Some(LineEdit::MoveLeft),
            KeyCode::Right => Some(LineEdit::MoveRight),
            KeyCode::Home => Some(LineEdit::MoveHome),
            KeyCode::End => Some(LineEdit::MoveEnd),
            KeyCode::Backspace => Some(LineEdit::Backspace),
            KeyCode::Delete => Some(LineEdit::Delete),
            KeyCode::Up => Some(LineEdit::HistoryPrevious),
            KeyCode::Down => Some(LineEdit::HistoryNext),
            KeyCode::Char(c) => Some(LineEdit::Insert(c)),
            _ => None,
        }
    } else if key.modifiers.bits == 1 {
        match key.code {
            KeyCode::Char(c) => Some(LineEdit::Insert(c)),
            _ => None,
        }
    } else {
        None
    }
}

/// `after` is `before` with its command line changed by `edit`.
pub open spec fn line_edited(before: TuiModel, edit: LineEdit, after: TuiModel) -> bool {
    &&& after == (TuiModel { command: after.command, ..before })
    &&& edited(before.command, after.command, edit)
}

/// Applies a line edit to the command line.
pub fn edit(model: &mut TuiModel, line_edit: LineEdit) -> (effect: ControllerEffect)
    ensures
        effect == ControllerEffect::Redraw,
        line_edited(*old(model), line_edit, *final(model)),
{
    model.command.apply_edit(line_edit);
    ControllerEffect::Redraw
}

/// The message shown when a command is entered while another runs.
pub open spec fn in_flight_text() -> Seq<char> {
    "A command is already running."@
}

/// The message shown when the application rejects a command.
pub open spec fn rejected_text() -> Seq<char> {
    "Command rejected. Check the command and try again."@
}

/// Entering the command line leads from `before` to `after` with `effect`: while a
/// command runs it only warns; otherwise the line is taken out for parsing.
pub open spec fn line_entered(before: TuiModel, effect: ControllerEffect, after: TuiModel) -> bool {
    if before.command_in_flight {
        &&& effect == ControllerEffect::Nothing
        &&& after == (TuiModel { message: after.message, ..before })
        &&& after.message is Some
        &&& after.message->0.severity == Severity::Warning
        &&& after.message->0.text@ == in_flight_text()
    } else {
        &&& effect is ParseCommandLine
        &&& effect->ParseCommandLine_line@ == before.command.text_view()
        &&& after == (TuiModel { command: after.command, ..before })
        &&& command_cleared(before.command, after.command)
    }
}

/// Enter on the command line; see `line_entered`.
pub fn submit_command(model: &mut TuiModel) -> (effect: ControllerEffect)
    ensures
        line_entered(*old(model), effect, *final(model)),
{
    if model.command_in_flight {
        model.set_message(Severity::Warning, "A command is already running.".to_owned());
        return ControllerEffect::Nothing;
    }
    let line = model.command.take_text();
    ControllerEffect::ParseCommandLine { line }
}

/// A key on the focused command line leads from `before` to `after` with `effect`; see
/// `handle_command_key`.
pub open spec fn command_key_handled(
    before: TuiModel,
    key: KeyEvent,
    effect: ControllerEffect,
    after: TuiModel,
) -> bool {
    if key.modifiers.bits == 0 && key.code == KeyCode::Esc {
        &&& effect == ControllerEffect::Redraw
        &&& focus_set(TuiModel { command: after.command, ..before }, Focus::Workspace, after)
        &&& command_cleared(before.command, after.command)
    } else if key.modifiers.bits == 0 && key.code == KeyCode::Enter {
        line_entered(before, effect, after)
    } else if key.modifiers.bits == 0 && key.code == KeyCode::Tab {
        effect == ControllerEffect::Redraw && focus_set(
            before,
            cycled_focus(focus_order(before.layout_mode, before.inspector_open), before.focus, true), after)
    } else if (key.modifiers.bits == 0 || key.modifiers.bits == 1) && key.code == KeyCode::BackTab {
        effect == ControllerEffect::Redraw && focus_set(
            before,
            cycled_focus(focus_order(before.layout_mode, before.inspector_open), before.focus, false), after)
    } else {
        match command_edit_of(key) {
            Some(e) => effect == ControllerEffect::Redraw && line_edited(before, e, after),
            None => effect == ControllerEffect::Nothing && after == before,
        }
    }
}

/// Keys on the focused command line: escape empties it and returns to the workspace;
/// enter submits it (see `line_entered`); tab and back-tab move the focus; the editing
/// keys of `command_edit_of` edit it. Nothing for any other key.
pub fn handle_command_key(model: &mut TuiModel, key: KeyEvent) -> (effect: ControllerEffect)
    ensures
        command_key_handled(*old(model), key, effect, *final(model)),
{
    if no_modifiers(key.modifiers) && key.code == KeyCode::Esc {
        model.command.clear();
        model.set_focus(Focus::Workspace);
        return ControllerEffect::Redraw;
    }
    if no_modifiers(key.modifiers) && key.code == KeyCode::Enter {
        return submit_command(model);
    }
    if no_modifiers(key.modifiers) && key.code == KeyCode::Tab {
        return cycle_focus(model, true);
    }
    if backtab_modifiers(key.modifiers) && key.code == KeyCode::BackTab {
        return cycle_focus(model, false);
    }
    match line_edit_of(key) {
        Some(line_edit) => edit(model, line_edit),
        None => ControllerEffect::Nothing,
    }
}

/// A key while the terminal is too small leads from `before` to `after` with `effect`;
/// see `handle_too_small_key`.
pub open spec fn too_small_key_handled(before: TuiModel, key: KeyEvent, effect: ControllerEffect, after: TuiModel) -> bool {
    &&& (before.focus == Focus::Command ==> command_key_handled(before, key, effect, after))
    &&& (before.focus != Focus::Command && key.modifiers.bits == 0 && key.code == KeyCode::Char('/')
        ==> effect == ControllerEffect::Redraw && command_started(before, after))
    &&& (before.focus != Focus::Command && !(key.modifiers.bits == 0 && key.code == KeyCode::Char('/'))
        ==> effect == ControllerEffect::Nothing && after == before)
}

/// Keys while the terminal is too small: the command line works as usual when focused,
/// and slash starts a command; nothing else.
pub fn handle_too_small_key(model: &mut TuiModel, key: KeyEvent) -> (effect: ControllerEffect)
    ensures
        too_small_key_handled(*old(model), key, effect, *final(model)),
{
    if model.focus == Focus::Command {
        return handle_command_key(model, key);
    }
    if is_plain_char(key, '/') {
        start_command_line(model)
    } else {
        ControllerEffect::Nothing
    }
}

/// The command line `after` is `before` with `line` offered to its history.
pub open spec fn line_remembered(before: CommandEditor, after: CommandEditor, line: Seq<char>) -> bool {
    &&& after.history_view() == remembered(before.history_view(), safe_prefix(line, MAX_INPUT_BYTES as int))
    &&& after.text_view() == before.text_view()
    &&& after.cursor_view() == before.cursor_view()
    &&& after.recall_index() == before.recall_index()
}

/// The model once a command is marked as sent; see `TuiModel::set_command_in_flight`.
pub open spec fn sent(model: TuiModel) -> TuiModel {
    TuiModel {
        command_in_flight: true,
        pending_outcome_navigation: if !model.command_in_flight {
            Some(
                PendingOutcomeNavigation::SelectIfUnchanged {
                    tab: model.active_tab(),
                    generation: model.navigation_generation,
                },
            )
        } else {
            model.pending_outcome_navigation
        },
        ..model
    }
}

/// The skills workspace once a skill workflow starts from the command line: opened from
/// the view shown unless it was already active, its skill context cleared.
pub open spec fn skill_workflow_started(model: TuiModel) -> SkillsViewState {
    SkillsViewState {
        workspace_origin: if model.skills.active {
            model.skills.workspace_origin
        } else {
            Some(SkillWorkspaceOrigin::Cockpit(model.active_view))
        },
        detail: None,
        history: None,
        version_detail: None,
        selected_history_version: 0,
        pending_active_skill: None,
        active: true,
        operation_origin: SkillOperationOrigin::Skills(SkillsPane::Detail),
        ..model.skills
    }
}

/// Handling the parse of an entered `line` leads from `before` to `after` with `effect`:
/// an ignored line does nothing; a command is sent (remembered unless rejected input),
/// and listing or showing agent profiles awaits an answer for the agents workspace; an
/// agent workflow shows the agents workspace and starts it; a skill workflow opens the
/// skills workspace and starts it. Every line but an ignored or rejected one is
/// remembered, and the message is hidden.
pub open spec fn parsed_line_submitted(
    before: TuiModel,
    line: Seq<char>,
    parsed: ParsedLine,
    effect: ControllerEffect,
    after: TuiModel,
) -> bool {
    match parsed {
        ParsedLine::Ignored => effect == ControllerEffect::Nothing && after == before,
        ParsedLine::Command(command) => {
            &&& effect == ControllerEffect::Submit(command)
            &&& after == sent(
                TuiModel {
                    command: after.command,
                    message: None,
                    pending_agent_outcome: match command {
                        ApplicationCommand::ListAgentProfiles => Some(AgentOutcomeIntent::AgentsWorkspace),
                        ApplicationCommand::ShowAgentProfile { .. } => Some(
                            AgentOutcomeIntent::AgentsWorkspace,
                        ),
                        _ => before.pending_agent_outcome,
                    },
                    ..before
                },
            )
            &&& if command is RejectInput {
                after.command == before.command
            } else {
                line_remembered(before.command, after.command, line)
            }
        },
        ParsedLine::AgentWorkflow(workflow) => {
            &&& effect == match workflow {
                AgentWorkflowCommand::SelectCreateTemplate => ControllerEffect::StartProfileCreate {
                    template_index: before.agents.selected_template,
                },
                AgentWorkflowCommand::Create { template_id } => ControllerEffect::StartProfileCreateByTemplate {
                    template_id,
                },
                AgentWorkflowCommand::Edit { selector } => ControllerEffect::StartProfileEditBySelector {
                    selector,
                },
            }
            &&& exists|remembered_line: CommandEditor, shown: TuiModel|
                #[trigger] tab_shown(
                    TuiModel { command: remembered_line, message: None, ..before },
                    NavigationTab::Agents,
                    shown,
                ) && line_remembered(before.command, remembered_line, line) && focus_set(
                    shown,
                    Focus::Workspace, after)
        },
        ParsedLine::SkillWorkflow(workflow) => {
            &&& effect == ControllerEffect::StartSkillWorkflow(workflow)
            &&& focus_set(
                TuiModel {
                    command: after.command,
                    message: None,
                    skills: skill_workflow_started(before),
                    ..before
                },
                Focus::Workspace, after)
            &&& line_remembered(before.command, after.command, line)
        },
    }
}

/// Acts on what the parser made of an entered `line`; see `parsed_line_submitted`.
pub fn submit_parsed_line(model: &mut TuiModel, line: String, parsed: ParsedLine) -> (effect:
    ControllerEffect)
    ensures
        parsed_line_submitted(*old(model), line@, parsed, effect, *final(model)),
{
    match parsed {
        ParsedLine::Ignored => ControllerEffect::Nothing,
        ParsedLine::Command(command) => submit_parsed_command(model, line, command),
        ParsedLine::AgentWorkflow(workflow) => start_agent_workflow(model, line, workflow),
        ParsedLine::SkillWorkflow(workflow) => start_skill_workflow(model, line, workflow),
    }
}

/// Sends a parsed command; see `parsed_line_submitted`.
fn submit_parsed_command(model: &mut TuiModel, line: String, command: ApplicationCommand) -> (effect:
    ControllerEffect)
    ensures
        parsed_line_submitted(*old(model), line@, ParsedLine::Command(command), effect, *final(model)),
{
    let rejected = match &command {
        ApplicationCommand::RejectInput => true,
        _ => false,
    };
    if !rejected {
        model.command.remember(line);
    }
    model.clear_message();
    let for_agents = match &command {
        ApplicationCommand::ListAgentProfiles => true,
        ApplicationCommand::ShowAgentProfile { .. } => true,
        _ => false,
    };
    model.set_command_in_flight(true);
    if for_agents {
        model.pending_agent_outcome = Some(AgentOutcomeIntent::AgentsWorkspace);
    }
    ControllerEffect::Submit(command)
}

/// Starts a parsed agent workflow; see `parsed_line_submitted`.
fn start_agent_workflow(model: &mut TuiModel, line: String, workflow: AgentWorkflowCommand) -> (effect:
    ControllerEffect)
    ensures
        parsed_line_submitted(
            *old(model),
            line@,
            ParsedLine::AgentWorkflow(workflow),
            effect,
            *final(model),
        ),
{
    let ghost entered = line@;
    model.command.remember(line);
    model.clear_message();
    let ghost remembered_model = *model;
    model.select_view(crate::screen::View::Agents);
    let ghost shown = *model;
    model.set_focus(Focus::Workspace);
    assert(tab_shown(remembered_model, NavigationTab::Agents, shown));
    assert(line_remembered(old(model).command, remembered_model.command, entered));
    match workflow {
        AgentWorkflowCommand::SelectCreateTemplate => ControllerEffect::StartProfileCreate {
            template_index: model.agents.selected_template,
        },
        AgentWorkflowCommand::Create { template_id } => ControllerEffect::StartProfileCreateByTemplate {
            template_id,
        },
        AgentWorkflowCommand::Edit { selector } => ControllerEffect::StartProfileEditBySelector {
            selector,
        },
    }
}

/// Starts a parsed skill workflow; see `parsed_line_submitted`.
fn start_skill_workflow(model: &mut TuiModel, line: String, workflow: SkillWorkflowCommand) -> (effect:
    ControllerEffect)
    ensures
        parsed_line_submitted(
            *old(model),
            line@,
            ParsedLine::SkillWorkflow(workflow),
            effect,
            *final(model),
        ),
{
    model.command.remember(line);
    model.clear_message();
    if !model.skills.active {
        model.skills.workspace_origin = Some(SkillWorkspaceOrigin::Cockpit(model.active_view));
    }
    model.skills.clear_skill_context();
    model.skills.active = true;
    model.skills.operation_origin = SkillOperationOrigin::Skills(SkillsPane::Detail);
    model.set_focus(Focus::Workspace);
    ControllerEffect::StartSkillWorkflow(workflow)
}

/// An agent-profile editor is open in the agents workspace.
pub open spec fn profile_editor_open(model: TuiModel) -> bool {
    model.active_view == crate::screen::View::Agents && model.agents.pane == AgentsPane::Editor
        && model.agents.editor is Some
}

/// A skill editor is open in the skills workspace.
pub open spec fn skill_editor_open(model: TuiModel) -> bool {
    model.skills.active && model.skills.pane == SkillsPane::Editor && model.skills.editor is Some
}

/// An agent-profile command awaits confirmation.
pub open spec fn profile_confirmation_open(model: TuiModel) -> bool {
    model.active_view == crate::screen::View::Agents && model.agents.pane == AgentsPane::Confirmation
        && model.agents.pending_confirmation is Some
}

/// A skill command awaits confirmation.
pub open spec fn skill_confirmation_open(model: TuiModel) -> bool {
    model.skills.pane == SkillsPane::Confirmation && model.skills.pending_confirmation is Some
}

/// Whether an agent-profile editor is open.
pub fn active_profile_editor(model: &TuiModel) -> (open: bool)
    ensures
        open == profile_editor_open(*model),
{
    model.active_view == crate::screen::View::Agents && model.agents.pane == AgentsPane::Editor
        && model.agents.editor.is_some()
}

/// Whether a skill editor is open.
pub fn active_skill_editor(model: &TuiModel) -> (open: bool)
    ensures
        open == skill_editor_open(*model),
{
    model.skills.active && model.skills.pane == SkillsPane::Editor && model.skills.editor.is_some()
}

/// Whether an agent-profile command awaits confirmation.
pub fn active_confirmation(model: &TuiModel) -> (open: bool)
    ensures
        open == profile_confirmation_open(*model),
{
    model.active_view == crate::screen::View::Agents && model.agents.pane == AgentsPane::Confirmation
        && model.agents.pending_confirmation.is_some()
}

/// Whether a skill command awaits confirmation.
pub fn active_skill_confirmation(model: &TuiModel) -> (open: bool)
    ensures
        open == skill_confirmation_open(*model),
{
    model.skills.pane == SkillsPane::Confirmation && model.skills.pending_confirmation.is_some()
}

/// Pasting `text` leads from `before` to `after` with `effect`; see `handle_paste`.
pub open spec fn pasted(before: TuiModel, text: Seq<char>, effect: ControllerEffect, after: TuiModel) -> bool {
    if !profile_editor_open(before) && !skill_editor_open(before) && before.focus != Focus::Command {
        effect == ControllerEffect::Nothing && after == before
    } else {
        let accepted = safe_prefix(text, MAX_INPUT_BYTES - byte_len(before.command.text_view()));
        &&& after == (TuiModel { command: after.command, ..before })
        &&& typed(before.command, after.command, accepted)
        &&& effect == if accepted.len() == 0 {
            ControllerEffect::Nothing
        } else {
            ControllerEffect::Redraw
        }
    }
}

/// Pasted text goes into the command line where it is typed into: an open editor or the
/// focused command line; elsewhere it is dropped. A redraw only when something was
/// accepted.
pub fn handle_paste(model: &mut TuiModel, text: &str) -> (effect: ControllerEffect)
    ensures
        pasted(*old(model), text@, effect, *final(model)),
{
    if !active_profile_editor(model) && !active_skill_editor(model) && model.focus != Focus::Command {
        return ControllerEffect::Nothing;
    }
    model.command.assert_consistent();
    let before = model.command.char_count();
    let ghost old_command = model.command;
    model.command.ingest(text);
    proof {
        let accepted = safe_prefix(text@, MAX_INPUT_BYTES - byte_len(old_command.text_view()));
        let t = old_command.text_view();
        let c = old_command.cursor_view() as int;
        if accepted.len() > 0 {
            assert((t.take(c) + accepted + t.skip(c)).len() == t.len() + accepted.len());
        }
    }
    if model.command.char_count() == before {
        ControllerEffect::Nothing
    } else {
        ControllerEffect::Redraw
    }
}

/// A key while an agent-profile command awaits confirmation leads from `before` to
/// `after` with `effect`: a press of enter executes it, emptying the command line and
/// hiding the message; escape drops it and returns to the editor; nothing else.
pub open spec fn profile_confirmation_key_handled(
    before: TuiModel,
    key: KeyEvent,
    effect: ControllerEffect,
    after: TuiModel,
) -> bool {
    if key.code == KeyCode::Enter && key.kind == KeyEventKind::Press && key.modifiers.bits == 0 {
        match before.agents.pending_confirmation {
            Some(confirmation) => {
                &&& effect == ControllerEffect::ExecuteProfile(confirmation.command)
                &&& after == (TuiModel { command: after.command, message: None, ..before })
                &&& command_cleared(before.command, after.command)
            },
            None => effect == ControllerEffect::Nothing && after == before,
        }
    } else if key.code == KeyCode::Esc && key.modifiers.bits == 0 {
        &&& effect == ControllerEffect::Redraw
        &&& after == (TuiModel {
            command: after.command,
            agents: AgentsViewState {
                pending_confirmation: None,
                pane: AgentsPane::Editor,
                ..before.agents
            },
            ..before
        })
        &&& command_cleared(before.command, after.command)
    } else {
        effect == ControllerEffect::Nothing && after == before
    }
}

/// Keys while an agent-profile command awaits confirmation; see
/// `profile_confirmation_key_handled`.
pub fn handle_confirmation_key(model: &mut TuiModel, key: KeyEvent) -> (effect: ControllerEffect)
    ensures
        profile_confirmation_key_handled(*old(model), key, effect, *final(model)),
{
    if key.code == KeyCode::Enter && key.kind == KeyEventKind::Press && no_modifiers(key.modifiers) {
        let command = match &model.agents.pending_confirmation {
            Some(confirmation) => confirmation.command.duplicate(),
            None => return ControllerEffect::Nothing,
        };
        model.command.clear();
        model.clear_message();
        return ControllerEffect::ExecuteProfile(command);
    }
    if key.code == KeyCode::Esc && no_modifiers(key.modifiers) {
        model.command.clear();
        model.agents.pending_confirmation = None;
        model.agents.pane = AgentsPane::Editor;
        return ControllerEffect::Redraw;
    }
    ControllerEffect::Nothing
}

/// The origin a cancelled skill confirmation returns to: its own, else the skill detail.
pub open spec fn confirmation_origin(skills: SkillsViewState) -> SkillOperationOrigin {
    match skills.pending_confirmation {
        Some(confirmation) => confirmation.origin,
        None => SkillOperationOrigin::Skills(SkillsPane::Detail),
    }
}

/// `after` is `model` returned to `origin`, as `restore_skill_origin` leaves it.
pub open spec fn skill_origin_restored(model: TuiModel, origin: SkillOperationOrigin, after: TuiModel) -> bool {
    match origin {
        SkillOperationOrigin::Skills(pane) => after == (TuiModel {
            skills: SkillsViewState { active: true, pane, ..model.skills },
            ..model
        }),
        SkillOperationOrigin::AgentSkills { profile_id } => after == (TuiModel {
            skills: SkillsViewState { active: false, pane: SkillsPane::Detail, ..model.skills },
            agents: agent_skills_shown(model.agents, profile_id),
            active_view: crate::screen::View::Agents,
            ..model
        }),
    }
}

/// A key while a skill command awaits confirmation leads from `before` to `after` with
/// `effect`: a press of enter executes it; escape drops it, returns to where it started,
/// empties the command line and cancels the review; nothing else.
pub open spec fn skill_confirmation_key_handled(
    before: TuiModel,
    key: KeyEvent,
    effect: ControllerEffect,
    after: TuiModel,
) -> bool {
    if key.code == KeyCode::Enter && key.kind == KeyEventKind::Press && key.modifiers.bits == 0 {
        after == before && effect == match before.skills.pending_confirmation {
            Some(confirmation) => ControllerEffect::ExecuteSkill(confirmation.command),
            None => ControllerEffect::Nothing,
        }
    } else if key.code == KeyCode::Esc && key.modifiers.bits == 0 {
        &&& effect == ControllerEffect::CancelSkillReview
        &&& command_cleared(before.command, after.command)
        &&& skill_origin_restored(
            TuiModel {
                skills: SkillsViewState { pending_confirmation: None, ..before.skills },
                command: after.command,
                ..before
            },
            confirmation_origin(before.skills),
            after,
        )
    } else {
        effect == ControllerEffect::Nothing && after == before
    }
}

/// Keys while a skill command awaits confirmation; see `skill_confirmation_key_handled`.
pub fn handle_skill_confirmation_key(model: &mut TuiModel, key: KeyEvent) -> (effect: ControllerEffect)
    ensures
        skill_confirmation_key_handled(*old(model), key, effect, *final(model)),
{
    if key.code == KeyCode::Enter && key.kind == KeyEventKind::Press && no_modifiers(key.modifiers) {
        return match &model.skills.pending_confirmation {
            Some(confirmation) => ControllerEffect::ExecuteSkill(confirmation.command.duplicate()),
            None => ControllerEffect::Nothing,
        };
    }
    if key.code == KeyCode::Esc && no_modifiers(key.modifiers) {
        let origin = match &model.skills.pending_confirmation {
            Some(confirmation) => confirmation.origin,
            None => SkillOperationOrigin::Skills(SkillsPane::Detail),
        };
        model.skills.pending_confirmation = None;
        model.command.clear();
        restore_skill_origin(model, origin);
        return ControllerEffect::CancelSkillReview;
    }
    ControllerEffect::Nothing
}

/// A key while an agent-profile editor is open leads from `before` to `after` with
/// `effect`: line edits change the command line; escape, enter, up and down go to the
/// editor; delete is a line edit too; nothing else.
pub open spec fn profile_editor_key_handled(
    before: TuiModel,
    key: KeyEvent,
    effect: ControllerEffect,
    after: TuiModel,
) -> bool {
    if (key.code == KeyCode::Esc && key.modifiers.bits == 0) || key.code == KeyCode::Enter || ((key.code
        == KeyCode::Up || key.code == KeyCode::Down) && key.modifiers.bits == 0) {
        effect == ControllerEffect::ProfileEditorKey(key) && after == before
    } else {
        match command_edit_of(key) {
            Some(e) => effect == ControllerEffect::Redraw && line_edited(before, e, after),
            None => effect == ControllerEffect::Nothing && after == before,
        }
    }
}

/// Keys while an agent-profile editor is open; see `profile_editor_key_handled`.
pub fn handle_profile_editor_key(model: &mut TuiModel, key: KeyEvent) -> (effect: ControllerEffect)
    ensures
        profile_editor_key_handled(*old(model), key, effect, *final(model)),
{
    if (key.code == KeyCode::Esc && no_modifiers(key.modifiers)) || key.code == KeyCode::Enter || ((key.code
        == KeyCode::Up || key.code == KeyCode::Down) && no_modifiers(key.modifiers)) {
        return ControllerEffect::ProfileEditorKey(key);
    }
    match line_edit_of(key) {
        Some(line_edit) => edit(model, line_edit),
        None => ControllerEffect::Nothing,
    }
}

/// A key while a skill editor is open leads from `before` to `after` with `effect`:
/// escape, enter, up, down and delete go to the editor, which may act on its own
/// selection first; the other line edits change the command line; nothing else.
pub open spec fn skill_editor_key_handled(
    before: TuiModel,
    key: KeyEvent,
    effect: ControllerEffect,
    after: TuiModel,
) -> bool {
    if key.modifiers.bits == 0 && (key.code == KeyCode::Esc || key.code == KeyCode::Enter || key.code
        == KeyCode::Up || key.code == KeyCode::Down || key.code == KeyCode::Delete) {
        effect == ControllerEffect::SkillEditorKey(key) && after == before
    } else {
        match command_edit_of(key) {
            Some(e) => effect == ControllerEffect::Redraw && line_edited(before, e, after),
            None => effect == ControllerEffect::Nothing && after == before,
        }
    }
}

/// Keys while a skill editor is open; see `skill_editor_key_handled`.
pub fn handle_skill_editor_key(model: &mut TuiModel, key: KeyEvent) -> (effect: ControllerEffect)
    ensures
        skill_editor_key_handled(*old(model), key, effect, *final(model)),
{
    if no_modifiers(key.modifiers) && (key.code == KeyCode::Esc || key.code == KeyCode::Enter
        || key.code == KeyCode::Up || key.code == KeyCode::Down || key.code == KeyCode::Delete) {
        return ControllerEffect::SkillEditorKey(key);
    }
    match line_edit_of(key) {
        Some(line_edit) => edit(model, line_edit),
        None => ControllerEffect::Nothing,
    }
}

/// The tab a bare digit names: `1` to `9` name the tabs of the navigation bar in order.
pub open spec fn digit_tab(code: KeyCode) -> Option<NavigationTab> {
    match code {
        KeyCode::Char(c) => if '1' <= c && c <= '9' {
            Some(tab_at(c as u32 - '1' as u32))
        } else {
            None
        },
        _ => None,
    }
}

/// The direction a `w`, `a`, `s` or `d` key (either case) moves: `w` and `a` back, `s`
/// and `d` forward.
pub open spec fn wasd_forward(code: KeyCode) -> Option<bool> {
    match code {
        KeyCode::Char(c) => if c == 'w' || c == 'W' || c == 'a' || c == 'A' {
            Some(false)
        } else if c == 's' || c == 'S' || c == 'd' || c == 'D' {
            Some(true)
        } else {
            None
        },
        _ => None,
    }
}

/// A key outside any workspace, editor or confirmation leads from `before` to `after`
/// with `effect`: a bare digit opens its tab (the agents and skills workspaces load
/// their lists, the other tabs show their view); `?` shows the help; `i` toggles or
/// focuses the inspector; tab and back-tab move the focus; escape dismisses; the arrows,
/// `w` `a` `s` `d` (also shifted) and the page keys move; home and end go to a bound.
/// Nothing for any other key.
pub open spec fn global_key_handled(
    before: TuiModel,
    key: KeyEvent,
    effect: ControllerEffect,
    after: TuiModel,
) -> bool {
    let plain = key.modifiers.bits == 0;
    let code = key.code;
    if plain && digit_tab(code) is Some {
        let tab = digit_tab(code)->0;
        if tab == NavigationTab::Agents {
            agents_opened(before, effect, after)
        } else if tab == NavigationTab::Skills {
            skills_opened(before, effect, after)
        } else {
            effect == ControllerEffect::Redraw && workspace_selected(
                before,
                view_after(before.active_view, tab),
                after,
            )
        }
    } else if (plain || key.modifiers.bits == 1) && wasd_forward(code) is Some {
        focused_moved(before, wasd_forward(code)->0, false, effect, after)
    } else if (plain || key.modifiers.bits == 1) && code == KeyCode::Char('?') {
        effect == ControllerEffect::Redraw && workspace_selected(before, crate::screen::View::Help, after)
    } else if plain && code == KeyCode::Char('/') {
        effect == ControllerEffect::Redraw && command_started(before, after)
    } else if plain && code == KeyCode::Char('i') {
        inspector_toggled(before, effect, after)
    } else if plain && code == KeyCode::Tab {
        focus_cycled(before, true, effect, after)
    } else if (plain || key.modifiers.bits == 1) && code == KeyCode::BackTab {
        focus_cycled(before, false, effect, after)
    } else if plain && code == KeyCode::Esc {
        dismissed(before, effect, after)
    } else if plain && (code == KeyCode::Up || code == KeyCode::Left) {
        focused_moved(before, false, false, effect, after)
    } else if plain && (code == KeyCode::Down || code == KeyCode::Right) {
        focused_moved(before, true, false, effect, after)
    } else if plain && code == KeyCode::PageUp {
        focused_moved(before, false, true, effect, after)
    } else if plain && code == KeyCode::PageDown {
        focused_moved(before, true, true, effect, after)
    } else if plain && code == KeyCode::Home {
        bound_reached(before, false, effect, after)
    } else if plain && code == KeyCode::End {
        bound_reached(before, true, effect, after)
    } else {
        effect == ControllerEffect::Nothing && after == before
    }
}

/// Keys outside any workspace, editor or confirmation; see `global_key_handled`.
fn handle_global_key(model: &mut TuiModel, key: KeyEvent) -> (effect: ControllerEffect)
    ensures
        global_key_handled(*old(model), key, effect, *final(model)),
{
    let plain = no_modifiers(key.modifiers);
    let code = key.code;
    let tab = match code {
        KeyCode::Char(c) => NavigationTab::for_number(c),
        _ => None,
    };
    let wasd = match code {
        KeyCode::Char(c) => if c == 'w' || c == 'W' || c == 'a' || c == 'A' {
            Some(false)
        } else if c == 's' || c == 'S' || c == 'd' || c == 'D' {
            Some(true)
        } else {
            None
        },
        _ => None,
    };
    if plain && tab.is_some() {
        let tab = tab.unwrap();
        if tab == NavigationTab::Agents {
            open_agents(model)
        } else if tab == NavigationTab::Skills {
            open_skills(model)
        } else {
            let view = match tab {
                NavigationTab::Overview => crate::screen::View::Overview,
                NavigationTab::Chat => crate::screen::View::Chat,
                NavigationTab::Connections => crate::screen::View::Connections,
                NavigationTab::Activity => crate::screen::View::Activity,
                NavigationTab::Setup => crate::screen::View::Setup,
                NavigationTab::Audit => crate::screen::View::Audit,
                _ => crate::screen::View::Help,
            };
            select_view(model, view)
        }
    } else if text_modifiers(key.modifiers) && wasd.is_some() {
        move_focused(model, wasd.unwrap(), false)
    } else if text_modifiers(key.modifiers) && code == KeyCode::Char('?') {
        select_view(model, crate::screen::View::Help)
    } else if plain && code == KeyCode::Char('/') {
        start_command_line(model)
    } else if plain && code == KeyCode::Char('i') {
        toggle_or_focus_inspector(model)
    } else if plain && code == KeyCode::Tab {
        cycle_focus(model, true)
    } else if backtab_modifiers(key.modifiers) && code == KeyCode::BackTab {
        cycle_focus(model, false)
    } else if plain && code == KeyCode::Esc {
        dismiss(model)
    } else if plain && (code == KeyCode::Up || code == KeyCode::Left) {
        move_focused(model, false, false)
    } else if plain && (code == KeyCode::Down || code == KeyCode::Right) {
        move_focused(model, true, false)
    } else if plain && code == KeyCode::PageUp {
        move_focused(model, false, true)
    } else if plain && code == KeyCode::PageDown {
        move_focused(model, true, true)
    } else if plain && code == KeyCode::Home {
        move_to_bound(model, false)
    } else if plain && code == KeyCode::End {
        move_to_bound(model, true)
    } else {
        ControllerEffect::Nothing
    }
}

/// A key leads from `before` to `after` with `effect`. Control-c asks to stop. Then the
/// first that applies decides: a too-small terminal; an agent-profile confirmation; an
/// agent-profile editor; the focused command line; slash, which starts a command; a
/// skill confirmation; a skill editor; the skills workspace (nothing for a key it does
/// not use); the agents workspace, for a key it uses; the global keys.
pub open spec fn key_handled(before: TuiModel, key: KeyEvent, effect: ControllerEffect, after: TuiModel) -> bool {
    if key.code == KeyCode::Char('c') && key.modifiers.bits == 2 {
        effect == ControllerEffect::RequestShutdown(ShutdownReason::Interrupted) && after == before
    } else if before.layout_mode == LayoutMode::TooSmall {
        too_small_key_handled(before, key, effect, after)
    } else if profile_confirmation_open(before) {
        profile_confirmation_key_handled(before, key, effect, after)
    } else if profile_editor_open(before) {
        profile_editor_key_handled(before, key, effect, after)
    } else if before.focus == Focus::Command {
        command_key_handled(before, key, effect, after)
    } else if key.code == KeyCode::Char('/') && key.modifiers.bits == 0 {
        effect == ControllerEffect::Redraw && command_started(before, after)
    } else if skill_confirmation_open(before) {
        skill_confirmation_key_handled(before, key, effect, after)
    } else if skill_editor_open(before) {
        skill_editor_key_handled(before, key, effect, after)
    } else if before.skills.active {
        exists|handled: Option<ControllerEffect>|
            #[trigger] skills_key_handled(before, key, handled, after) && effect == match handled {
                Some(e) => e,
                None => ControllerEffect::Nothing,
            }
    } else if before.active_view == crate::screen::View::Agents {
        exists|handled: Option<ControllerEffect>, mid: TuiModel|
            #[trigger] agents_key_handled(before, key, handled, mid) && match handled {
                Some(e) => effect == e && after == mid,
                None => mid == before && global_key_handled(before, key, effect, after),
            }
    } else {
        global_key_handled(before, key, effect, after)
    }
}

/// Handles a key; see `key_handled`.
pub fn handle_key(model: &mut TuiModel, key: KeyEvent) -> (effect: ControllerEffect)
    ensures
        key_handled(*old(model), key, effect, *final(model)),
{
    if is_ctrl_c(key) {
        return ControllerEffect::RequestShutdown(ShutdownReason::Interrupted);
    }
    if model.layout_mode == LayoutMode::TooSmall {
        return handle_too_small_key(model, key);
    }
    if active_confirmation(model) {
        return handle_confirmation_key(model, key);
    }
    if active_profile_editor(model) {
        return handle_profile_editor_key(model, key);
    }
    if model.focus == Focus::Command {
        return handle_command_key(model, key);
    }
    if is_plain_char(key, '/') {
        return start_command_line(model);
    }
    if active_skill_confirmation(model) {
        return handle_skill_confirmation_key(model, key);
    }
    if active_skill_editor(model) {
        return handle_skill_editor_key(model, key);
    }
    if model.skills.active {
        let handled = handle_skills_key(model, key);
        return match handled {
            Some(effect) => effect,
            None => ControllerEffect::Nothing,
        };
    }
    if model.active_view == crate::screen::View::Agents {
        let ghost before = *model;
        let handled = handle_agents_key(model, key);
        let ghost mid = *model;
        match handled {
            Some(effect) => {
                assert(agents_key_handled(before, key, handled, mid));
                return effect;
            },
            None => {
                let effect = handle_global_key(model, key);
                assert(agents_key_handled(before, key, handled, before));
                return effect;
            },
        }
    }
    handle_global_key(model, key)
}

/// An event leads from `before` to `after` with `effect`, before the workspace scroll is
/// clamped: an interrupt asks to stop; a resize lays the cockpit out anew and moves a
/// focus the layout no longer shows to the workspace, unless typing a command; a paste
/// goes by `handle_paste`; a pressed or repeated key by `key_handled`; a released key
/// does nothing.
pub open spec fn event_handled(before: TuiModel, event: TuiEvent, effect: ControllerEffect, after: TuiModel) -> bool {
    match event {
        TuiEvent::Interrupt => effect == ControllerEffect::RequestShutdown(ShutdownReason::Interrupted)
            && after == before,
        TuiEvent::Resize(width, height) => {
            &&& effect == ControllerEffect::Redraw
            &&& exists|sized: TuiModel|
                #[trigger] resynced(TuiModel { terminal_width: width, terminal_height: height, ..before }, sized)
                    && if sized.focus == Focus::Command || focus_order(
                    sized.layout_mode,
                    sized.inspector_open,
                ).contains(sized.focus) {
                    after == sized
                } else {
                    focus_set(sized, Focus::Workspace, after)
                }
        },
        TuiEvent::Paste(text) => pasted(before, text@, effect, after),
        TuiEvent::Key(key) => if key.kind == KeyEventKind::Release {
            effect == ControllerEffect::Nothing && after == before
        } else {
            key_handled(before, key, effect, after)
        },
    }
}

/// Handles an event, then keeps the workspace scroll within `max_scroll`; see
/// `event_handled`.
pub fn handle_event(model: &mut TuiModel, event: TuiEvent) -> (effect: ControllerEffect)
    ensures
        exists|handled: TuiModel|
            #[trigger] event_handled(*old(model), event, effect, handled) && *final(model) == (TuiModel {
                workspace_scroll: if handled.workspace_scroll <= max_scroll(handled) {
                    handled.workspace_scroll
                } else {
                    max_scroll(handled)
                },
                ..handled
            }),
        final(model).workspace_scroll <= max_scroll(*final(model)),
{
    let ghost before = *model;
    let effect = match event {
        TuiEvent::Interrupt => ControllerEffect::RequestShutdown(ShutdownReason::Interrupted),
        TuiEvent::Resize(width, height) => {
            model.set_terminal_size(width, height);
            if model.focus != Focus::Command {
                normalize_focus(model);
            }
            ControllerEffect::Redraw
        },
        TuiEvent::Paste(text) => handle_paste(model, text.as_str()),
        TuiEvent::Key(key) => match key.kind {
            KeyEventKind::Press | KeyEventKind::Repeat => handle_key(model, key),
            KeyEventKind::Release => ControllerEffect::Nothing,
        },
    };
    let ghost handled = *model;
    assert(event_handled(before, event, effect, handled));
    clamp_workspace_scroll(model);
    effect
}

/// `entries` with `entry` merged in: it replaces the first entry with its sequence
/// number, or is appended when there is none.
pub open spec fn merged_entry(entries: Seq<AuditEntry>, entry: AuditEntry) -> Seq<AuditEntry> {
    if exists|i: int| 0 <= i < entries.len() && entries[i].sequence == entry.sequence {
        entries.update(first_sequence_index(entries, entry.sequence) as int, entry)
    } else {
        entries.push(entry)
    }
}

/// `entries` with each of `committed` merged in, in order.
pub open spec fn merged_entries(entries: Seq<AuditEntry>, committed: Seq<AuditEntry>) -> Seq<AuditEntry>
    decreases committed.len(),
{
    if committed.len() == 0 {
        entries
    } else {
        merged_entry(merged_entries(entries, committed.drop_last()), committed.last())
    }
}

/// The entries are in ascending order of sequence number.
pub open spec fn by_sequence(entries: Seq<AuditEntry>) -> bool {
    forall|i: int, j: int| 0 <= i < j < entries.len() ==> entries[i].sequence <= entries[j].sequence
}

/// Sorts `entries` by sequence number with `slice::sort_by_key`: the entries are
/// rearranged, none added or lost, into ascending order of sequence number. The order
/// of entries with equal sequence numbers, which std keeps, is not stated.
#[verifier::external_body]
fn sort_by_sequence(entries: &mut Vec<AuditEntry>)
    ensures
        final(entries)@.to_multiset() == old(entries)@.to_multiset(),
        by_sequence(final(entries)@),
{
    entries.sort_by_key(|entry| entry.sequence);
}

/// Merging committed audit entries leads from `before` to `after`: they are merged into
/// the list (see `merged_entries`), the list is sorted by sequence number and installed
/// as by `replace_audit`, with the selection kept by position.
pub open spec fn audit_merged(before: TuiModel, committed: Seq<AuditEntry>, after: TuiModel) -> bool {
    exists|sorted: Seq<AuditEntry>|
        #[trigger] by_sequence(sorted) && sorted.to_multiset() == merged_entries(
            before.audit_entries@,
            committed,
        ).to_multiset() && after.audit_entries@ == newest_audit(sorted) && after == (TuiModel {
            audit_entries: after.audit_entries,
            audit_selection: reselected_audit(newest_audit(sorted), None, before.audit_selection),
            ..before
        })
}

/// Merges the audit entries of the events a command committed into the audit list.
pub fn merge_committed_audit(model: &mut TuiModel, committed: Vec<AuditEntry>)
    ensures
        audit_merged(*old(model), committed@, *final(model)),
        final(model).audit_entries@.len() <= COMMAND_HISTORY_CAPACITY,
        audit_selection_ok(final(model).audit_entries@, final(model).audit_selection),
{
    let mut entries: Vec<AuditEntry> = Vec::new();
    std::mem::swap(&mut entries, &mut model.audit_entries);
    let ghost incoming = entries@;
    let mut i: usize = 0;
    while i < committed.len()
        invariant
            i <= committed@.len(),
            entries@ == merged_entries(incoming, committed@.take(i as int)),
        decreases committed@.len() - i,
    {
        let entry = committed[i].duplicate();
        proof {
            assert(committed@.take(i + 1).drop_last() =~= committed@.take(i as int));
            assert(committed@.take(i + 1).last() == committed@[i as int]);
        }
        match position_of_sequence(&entries, entry.sequence) {
            Some(index) => entries.set(index, entry),
            None => entries.push(entry),
        }
        i = i + 1;
    }
    assert(committed@.take(committed@.len() as int) =~= committed@);
    let ghost unsorted = entries@;
    sort_by_sequence(&mut entries);
    let ghost cleared = *model;
    assert(cleared.audit_entries@.len() == 0);
    model.replace_audit(entries);
    assert(by_sequence(entries@));
}

/// The model once a command's answer arrived: nothing in flight, nothing recorded.
pub open spec fn answered(model: TuiModel) -> TuiModel {
    TuiModel { command_in_flight: false, pending_outcome_navigation: None, ..model }
}

/// The workspace an agent-profile answer is for: the one awaited, else the agents
/// workspace.
pub open spec fn awaited_intent(model: TuiModel) -> AgentOutcomeIntent {
    match model.pending_agent_outcome {
        Some(intent) => intent,
        None => AgentOutcomeIntent::AgentsWorkspace,
    }
}

/// The first version in `refs` of skill `skill_id`.
pub open spec fn first_ref_with_skill(refs: Seq<SkillVersionRef>, skill_id: SkillId) -> Option<SkillVersionRef>
    decreases refs.len(),
{
    if refs.len() == 0 {
        None
    } else if refs[0].skill_id == skill_id {
        Some(refs[0])
    } else {
        first_ref_with_skill(refs.drop_first(), skill_id)
    }
}

/// The first version in `refs` of skill `skill_id`; see `first_ref_with_skill`.
pub fn find_ref_with_skill(refs: &Vec<SkillVersionRef>, skill_id: SkillId) -> (found: Option<SkillVersionRef>)
    ensures
        found == first_ref_with_skill(refs@, skill_id),
{
    let mut i: usize = 0;
    assert(refs@.skip(0) =~= refs@);
    while i < refs.len()
        invariant
            i <= refs@.len(),
            first_ref_with_skill(refs@.skip(i as int), skill_id) == first_ref_with_skill(refs@, skill_id),
        decreases refs@.len() - i,
    {
        let ghost rest = refs@.skip(i as int);
        assert(rest.drop_first() =~= refs@.skip(i + 1));
        if refs[i].skill_id == skill_id {
            return Some(refs[i]);
        }
        i = i + 1;
    }
    assert(refs@.skip(i as int).len() == 0);
    None
}

/// `after` is `before` showing `view` from the top with the workspace focused, the
/// skills workspace left, and the message hidden.
pub open spec fn shown_clean(before: TuiModel, view: crate::screen::View, after: TuiModel) -> bool {
    exists|shown: TuiModel|
        #[trigger] workspace_selected(before, view, shown) && after == (TuiModel { message: None, ..shown })
}

/// Applying a cockpit view (help, status, setup, audit, a rejection, a shutdown) leads
/// from `before` to `after` with `follow_up` and `disposition`.
pub open spec fn cockpit_view_applied(
    before: TuiModel,
    view: CommandView,
    follow_up: ControllerEffect,
    disposition: ShutdownDisposition,
    after: TuiModel,
) -> bool {
    &&& follow_up == ControllerEffect::Redraw
    &&& match view {
        CommandView::Help => disposition == ShutdownDisposition::Continue && shown_clean(
            before,
            crate::screen::View::Help,
            after,
        ),
        CommandView::Status { installation_id, session_id } => disposition
            == ShutdownDisposition::Continue && shown_clean(
            TuiModel { installation_id, session_id, ..before },
            crate::screen::View::Overview,
            after,
        ),
        CommandView::SetupStatus { status } => disposition == ShutdownDisposition::Continue
            && shown_clean(TuiModel { setup_status: status, ..before }, crate::screen::View::Setup, after),
        CommandView::AuditTail { entries } => disposition == ShutdownDisposition::Continue && exists|
            listed: TuiModel,
        |
            #[trigger] shown_clean(listed, crate::screen::View::Audit, after) && listed.audit_entries@
                == newest_audit(entries@) && listed == (TuiModel {
                audit_entries: listed.audit_entries,
                audit_selection: reselected_audit(
                    newest_audit(entries@),
                    selected_sequence(before.audit_entries@, before.audit_selection),
                    before.audit_selection,
                ),
                ..before
            }),
        CommandView::InputRejected => {
            &&& disposition == ShutdownDisposition::Continue
            &&& focus_set(before, Focus::Command, TuiModel { message: before.message, ..after })
            &&& after.message is Some
            &&& after.message->0.severity == Severity::Error
            &&& after.message->0.text@ == rejected_text()
        },
        CommandView::Shutdown { disposition: requested } => disposition == requested && after == (TuiModel {
            runtime_status: RuntimeStatus::Stopping,
            ..before
        }),
        _ => false,
    }
}

/// Applies a cockpit view; see `cockpit_view_applied`.
fn apply_cockpit_view(model: &mut TuiModel, view: CommandView) -> (result: (ControllerEffect, ShutdownDisposition))
    requires
        view is Help || view is Status || view is SetupStatus || view is AuditTail || view is InputRejected
            || view is Shutdown,
    ensures
        cockpit_view_applied(*old(model), view, result.0, result.1, *final(model)),
{
    let ghost before = *model;
    match view {
        CommandView::Help => {
            select_workspace_view(model, crate::screen::View::Help);
            let ghost shown = *model;
            model.clear_message();
            assert(workspace_selected(before, crate::screen::View::Help, shown));
        },
        CommandView::Status { installation_id, session_id } => {
            model.installation_id = installation_id;
            model.session_id = session_id;
            let ghost set = *model;
            select_workspace_view(model, crate::screen::View::Overview);
            let ghost shown = *model;
            model.clear_message();
            assert(workspace_selected(set, crate::screen::View::Overview, shown));
        },
        CommandView::SetupStatus { status } => {
            model.setup_status = status;
            let ghost set = *model;
            select_workspace_view(model, crate::screen::View::Setup);
            let ghost shown = *model;
            model.clear_message();
            assert(workspace_selected(set, crate::screen::View::Setup, shown));
        },
        CommandView::AuditTail { entries } => {
            let ghost listed_entries = entries@;
            model.replace_audit(entries);
            let ghost listed = *model;
            select_workspace_view(model, crate::screen::View::Audit);
            let ghost shown = *model;
            model.clear_message();
            assert(workspace_selected(listed, crate::screen::View::Audit, shown));
            assert(shown_clean(listed, crate::screen::View::Audit, *model));
        },
        CommandView::InputRejected => {
            model.set_focus(Focus::Command);
            model.set_message(Severity::Error, "Command rejected. Check the command and try again.".to_owned());
        },
        CommandView::Shutdown { disposition } => {
            model.set_runtime_status(RuntimeStatus::Stopping);
            return (ControllerEffect::Redraw, disposition);
        },
        _ => {},
    }
    (ControllerEffect::Redraw, ShutdownDisposition::Continue)
}

/// The assignment to review for an agent whose profile is `profile`: what assigning the
/// skill version the workspace is about would do.
pub open spec fn reviewed_assignment(skills: SkillsViewState, profile: AgentProfileView) -> Option<AssignmentKind> {
    match skills.current_ref() {
        Some(target) => Some(
            classify_assignment(target, first_ref_with_skill(profile.skill_refs@, target.skill_id)),
        ),
        None => None,
    }
}

/// Applying an agent-profile view leads from `before` to `after` with `follow_up` and
/// `disposition`. A profile page or a profile goes to the workspace that awaited it: the
/// agents workspace (its list or detail shown) or the skill assignment under review; a
/// profile shown in the agents workspace asks for the skill library when it has skills
/// and the library was never loaded. A history or a historical version shows in the
/// agents workspace's history. Creation and activation change nothing.
pub open spec fn agents_view_applied(
    before: TuiModel,
    view: CommandView,
    follow_up: ControllerEffect,
    disposition: ShutdownDisposition,
    after: TuiModel,
) -> bool {
    let intent = awaited_intent(before);
    let taken = TuiModel { pending_agent_outcome: None, ..before };
    &&& disposition == ShutdownDisposition::Continue
    &&& match view {
        CommandView::AgentProfiles(profiles) => {
            &&& follow_up == ControllerEffect::Redraw
            &&& exists|replaced: bool, agents: AgentsViewState|
                #[trigger] taken.agents.profiles_replaced(profiles, replaced, agents) && match intent {
                    AgentOutcomeIntent::AgentsWorkspace => shown_clean(
                        TuiModel { agents: AgentsViewState { pane: AgentsPane::List, ..agents }, ..taken },
                        crate::screen::View::Agents,
                        after,
                    ),
                    AgentOutcomeIntent::SkillAssignment => after == (TuiModel {
                        agents,
                        skills: SkillsViewState { active: true, ..taken.skills },
                        message: None,
                        ..taken
                    }),
                }
        },
        CommandView::AgentProfile(profile) => {
            &&& follow_up == if intent == AgentOutcomeIntent::AgentsWorkspace
                && !before.skills.library_loaded && profile.skill_refs@.len() > 0 {
                ControllerEffect::LoadAgentSkillLibrary
            } else {
                ControllerEffect::Redraw
            }
            &&& match intent {
                AgentOutcomeIntent::SkillAssignment => after == (TuiModel {
                    skills: SkillsViewState {
                        assignment: reviewed_assignment(before.skills, profile),
                        selected_agent_detail: Some(profile),
                        active: true,
                        pane: SkillsPane::AssignmentReview,
                        ..taken.skills
                    },
                    message: None,
                    ..taken
                }),
                AgentOutcomeIntent::AgentsWorkspace => exists|replaced: bool, agents: AgentsViewState|
                    #[trigger] taken.agents.detail_replaced(profile, replaced, agents) && shown_clean(
                        TuiModel { agents: AgentsViewState { pane: AgentsPane::Detail, ..agents }, ..taken },
                        crate::screen::View::Agents,
                        after,
                    ),
            }
        },
        CommandView::AgentProfileHistory(history) => {
            &&& follow_up == ControllerEffect::Redraw
            &&& exists|replaced: bool, agents: AgentsViewState|
                #[trigger] before.agents.history_replaced(history, replaced, agents) && shown_clean(
                    TuiModel { agents: AgentsViewState { pane: AgentsPane::History, ..agents }, ..before },
                    crate::screen::View::Agents,
                    after,
                )
        },
        CommandView::AgentProfileVersion(version) => {
            &&& follow_up == ControllerEffect::Redraw
            &&& exists|replaced: bool, agents: AgentsViewState|
                #[trigger] before.agents.version_detail_replaced(version, replaced, agents) && shown_clean(
                    TuiModel { agents: AgentsViewState { pane: AgentsPane::History, ..agents }, ..before },
                    crate::screen::View::Agents,
                    after,
                )
        },
        CommandView::AgentProfileCreated | CommandView::AgentProfileVersionActivated => follow_up
            == ControllerEffect::Redraw && after == before,
        _ => false,
    }
}

/// Shows the agents workspace on `pane` after an answer, from the top, with the message
/// hidden.
fn show_agents_pane(model: &mut TuiModel, pane: AgentsPane)
    ensures
        shown_clean(
            TuiModel { agents: AgentsViewState { pane, ..old(model).agents }, ..*old(model) },
            crate::screen::View::Agents,
            *final(model),
        ),
{
    model.agents.pane = pane;
    let ghost set = *model;
    select_workspace_view(model, crate::screen::View::Agents);
    let ghost shown = *model;
    model.clear_message();
    assert(workspace_selected(set, crate::screen::View::Agents, shown));
}

/// Applies an agent-profile view; see `agents_view_applied`.
fn apply_agents_view(model: &mut TuiModel, view: CommandView) -> (result: (ControllerEffect, ShutdownDisposition))
    requires
        view is AgentProfiles || view is AgentProfile || view is AgentProfileHistory
            || view is AgentProfileVersion || view is AgentProfileCreated
            || view is AgentProfileVersionActivated,
    ensures
        agents_view_applied(*old(model), view, result.0, result.1, *final(model)),
{
    let intent = match model.pending_agent_outcome {
        Some(intent) => intent,
        None => AgentOutcomeIntent::AgentsWorkspace,
    };
    match view {
        CommandView::AgentProfiles(profiles) => {
            model.pending_agent_outcome = None;
            let ghost taken = *model;
            let replaced = model.agents.replace_profiles(profiles);
            let ghost agents = model.agents;
            assert(taken.agents.profiles_replaced(profiles, replaced, agents));
            match intent {
                AgentOutcomeIntent::AgentsWorkspace => show_agents_pane(model, AgentsPane::List),
                AgentOutcomeIntent::SkillAssignment => {
                    model.skills.active = true;
                    model.clear_message();
                },
            }
            (ControllerEffect::Redraw, ShutdownDisposition::Continue)
        },
        CommandView::AgentProfile(profile) => {
            model.pending_agent_outcome = None;
            let needs_skill_library = intent == AgentOutcomeIntent::AgentsWorkspace
                && !model.skills.library_loaded && profile.skill_refs.len() > 0;
            match intent {
                AgentOutcomeIntent::SkillAssignment => {
                    let assignment = match model.skills.selected_skill_ref() {
                        Some(target) => {
                            let current = find_ref_with_skill(&profile.skill_refs, target.skill_id);
                            let kind = match current {
                                Some(current) => AssignmentKind::classify(&target, Some(&current)),
                                None => AssignmentKind::classify(&target, None),
                            };
                            Some(kind)
                        },
                        None => None,
                    };
                    model.skills.assignment = assignment;
                    model.skills.selected_agent_detail = Some(profile);
                    model.skills.active = true;
                    model.skills.pane = SkillsPane::AssignmentReview;
                    model.clear_message();
                },
                AgentOutcomeIntent::AgentsWorkspace => {
                    let ghost taken = *model;
                    let ghost shown_profile = profile;
                    let replaced = model.agents.replace_detail(profile);
                    let ghost agents = model.agents;
                    assert(taken.agents.detail_replaced(shown_profile, replaced, agents));
                    show_agents_pane(model, AgentsPane::Detail);
                },
            }
            if needs_skill_library {
                (ControllerEffect::LoadAgentSkillLibrary, ShutdownDisposition::Continue)
            } else {
                (ControllerEffect::Redraw, ShutdownDisposition::Continue)
            }
        },
        CommandView::AgentProfileHistory(history) => {
            let ghost before = *model;
            let ghost shown_history = history;
            let replaced = model.agents.replace_history(history);
            let ghost agents = model.agents;
            assert(before.agents.history_replaced(shown_history, replaced, agents));
            show_agents_pane(model, AgentsPane::History);
            (ControllerEffect::Redraw, ShutdownDisposition::Continue)
        },
        CommandView::AgentProfileVersion(version) => {
            let ghost before = *model;
            let replaced = model.agents.replace_version_detail(version);
            let ghost agents = model.agents;
            assert(before.agents.version_detail_replaced(version, replaced, agents));
            show_agents_pane(model, AgentsPane::History);
            (ControllerEffect::Redraw, ShutdownDisposition::Continue)
        },
        _ => (ControllerEffect::Redraw, ShutdownDisposition::Continue),
    }
}

/// Applying a skill view leads from `before` to `after` with `follow_up`: the library,
/// a skill, its history or a historical version are installed and shown in the skills
/// workspace; a created or activated skill is awaited; a skill assigned, upgraded or
/// unassigned only hides the message. A library page asks for the awaited skill.
pub open spec fn skills_view_applied(
    before: TuiModel,
    view: CommandView,
    follow_up: ControllerEffect,
    disposition: ShutdownDisposition,
    after: TuiModel,
) -> bool {
    &&& disposition == ShutdownDisposition::Continue
    &&& match view {
        CommandView::Skills(library) => {
            let skills = before.skills.with_library(library);
            follow_up == match skills.pending_active_skill {
                Some(skill_id) => ControllerEffect::Submit(ApplicationCommand::ShowSkill { skill_id }),
                None => ControllerEffect::Redraw,
            } && after == (TuiModel {
                skills: SkillsViewState { active: true, pane: SkillsPane::List, ..skills },
                message: None,
                ..before
            })
        },
        CommandView::Skill(detail) => {
            let skills = before.skills.with_detail(detail);
            follow_up == ControllerEffect::Redraw && after == (TuiModel {
                skills: SkillsViewState {
                    pending_active_skill: if skills.pending_active_skill == Some(detail.skill_ref.skill_id) {
                        None
                    } else {
                        skills.pending_active_skill
                    },
                    active: true,
                    ..skills
                },
                message: None,
                ..before
            })
        },
        CommandView::SkillHistory(history) => follow_up == ControllerEffect::Redraw && after == (TuiModel {
            skills: SkillsViewState {
                active: true,
                pane: SkillsPane::History,
                ..before.skills.with_history(history)
            },
            message: None,
            ..before
        }),
        CommandView::SkillVersion(detail) => follow_up == ControllerEffect::Redraw && after == (TuiModel {
            skills: SkillsViewState {
                active: true,
                pane: SkillsPane::Detail,
                ..before.skills.with_version_detail(detail)
            },
            message: None,
            ..before
        }),
        CommandView::SkillCreated { skill_id } | CommandView::SkillVersionActivated { skill_id } => follow_up
            == ControllerEffect::Redraw && after == (TuiModel {
            skills: SkillsViewState { pending_active_skill: Some(skill_id), ..before.skills },
            message: None,
            ..before
        }),
        CommandView::AgentSkillAssigned | CommandView::AgentSkillUpgraded
        | CommandView::AgentSkillUnassigned => follow_up == ControllerEffect::Redraw && after == (TuiModel {
            message: None,
            ..before
        }),
        _ => false,
    }
}

/// Installs and shows a library page; see `skills_view_applied`.
fn show_skills_page(model: &mut TuiModel, library: SkillsView) -> (follow_up: ControllerEffect)
    ensures
        skills_view_applied(
            *old(model),
            CommandView::Skills(library),
            follow_up,
            ShutdownDisposition::Continue,
            *final(model),
        ),
{
    model.skills.replace_skills(library);
    model.skills.active = true;
    model.skills.pane = SkillsPane::List;
    model.clear_message();
    match model.skills.pending_active_skill {
        Some(skill_id) => ControllerEffect::Submit(ApplicationCommand::ShowSkill { skill_id }),
        None => ControllerEffect::Redraw,
    }
}

/// Installs and shows a skill; see `skills_view_applied`.
fn show_skill_detail(model: &mut TuiModel, detail: SkillView)
    ensures
        skills_view_applied(
            *old(model),
            CommandView::Skill(detail),
            ControllerEffect::Redraw,
            ShutdownDisposition::Continue,
            *final(model),
        ),
{
    let skill_id = detail.skill_ref.skill_id;
    model.skills.replace_detail(detail);
    if model.skills.pending_active_skill == Some(skill_id) {
        model.skills.pending_active_skill = None;
    }
    model.skills.active = true;
    model.clear_message();
}

/// Installs and shows a skill's history; see `skills_view_applied`.
fn show_skill_history(model: &mut TuiModel, history: SkillHistoryView)
    ensures
        skills_view_applied(
            *old(model),
            CommandView::SkillHistory(history),
            ControllerEffect::Redraw,
            ShutdownDisposition::Continue,
            *final(model),
        ),
{
    model.skills.replace_history(history);
    model.skills.active = true;
    model.skills.pane = SkillsPane::History;
    model.clear_message();
}

/// Installs and shows a historical skill version; see `skills_view_applied`.
fn show_skill_version(model: &mut TuiModel, detail: SkillView)
    ensures
        skills_view_applied(
            *old(model),
            CommandView::SkillVersion(detail),
            ControllerEffect::Redraw,
            ShutdownDisposition::Continue,
            *final(model),
        ),
{
    model.skills.replace_version_detail(detail);
    model.skills.active = true;
    model.skills.pane = SkillsPane::Detail;
    model.clear_message();
}

/// Applies a skill view; see `skills_view_applied`.
fn apply_skills_view(model: &mut TuiModel, view: CommandView) -> (result: (ControllerEffect, ShutdownDisposition))
    requires
        view is Skills || view is Skill || view is SkillHistory || view is SkillVersion
            || view is SkillCreated || view is SkillVersionActivated || view is AgentSkillAssigned
            || view is AgentSkillUpgraded || view is AgentSkillUnassigned,
    ensures
        skills_view_applied(*old(model), view, result.0, result.1, *final(model)),
{
    match view {
        CommandView::Skills(library) => {
            let follow_up = show_skills_page(model, library);
            (follow_up, ShutdownDisposition::Continue)
        },
        CommandView::Skill(detail) => {
            show_skill_detail(model, detail);
            (ControllerEffect::Redraw, ShutdownDisposition::Continue)
        },
        CommandView::SkillHistory(history) => {
            show_skill_history(model, history);
            (ControllerEffect::Redraw, ShutdownDisposition::Continue)
        },
        CommandView::SkillVersion(detail) => {
            show_skill_version(model, detail);
            (ControllerEffect::Redraw, ShutdownDisposition::Continue)
        },
        CommandView::SkillCreated { skill_id } | CommandView::SkillVersionActivated { skill_id } => {
            model.skills.pending_active_skill = Some(skill_id);
            model.clear_message();
            (ControllerEffect::Redraw, ShutdownDisposition::Continue)
        },
        _ => {
            model.clear_message();
            (ControllerEffect::Redraw, ShutdownDisposition::Continue)
        },
    }
}

/// Applying the view of an answer leads from `before` to `after` with `follow_up` and
/// `disposition`; see the cockpit, agent-profile and skill cases.
pub open spec fn view_applied(
    before: TuiModel,
    view: CommandView,
    follow_up: ControllerEffect,
    disposition: ShutdownDisposition,
    after: TuiModel,
) -> bool {
    if view is Help || view is Status || view is SetupStatus || view is AuditTail || view is InputRejected
        || view is Shutdown {
        cockpit_view_applied(before, view, follow_up, disposition, after)
    } else if view is AgentProfiles || view is AgentProfile || view is AgentProfileHistory
        || view is AgentProfileVersion || view is AgentProfileCreated || view is AgentProfileVersionActivated {
        agents_view_applied(before, view, follow_up, disposition, after)
    } else {
        skills_view_applied(before, view, follow_up, disposition, after)
    }
}

/// Applies the view of an answer; see `view_applied`.
fn apply_view(model: &mut TuiModel, view: CommandView) -> (result: (ControllerEffect, ShutdownDisposition))
    ensures
        view_applied(*old(model), view, result.0, result.1, *final(model)),
{
    match view {
        CommandView::Help | CommandView::Status { .. } | CommandView::SetupStatus { .. }
        | CommandView::AuditTail { .. } | CommandView::InputRejected | CommandView::Shutdown { .. } => {
            apply_cockpit_view(model, view)
        },
        CommandView::AgentProfiles(_) | CommandView::AgentProfile(_) | CommandView::AgentProfileHistory(_)
        | CommandView::AgentProfileVersion(_) | CommandView::AgentProfileCreated
        | CommandView::AgentProfileVersionActivated => apply_agents_view(model, view),
        _ => apply_skills_view(model, view),
    }
}

/// The answer `outcome` to a command leads from `before` to `after` with `effect`:
/// nothing is in flight any more; its view is applied (see `view_applied`); the audit
/// entries of its committed events are merged in (see `audit_merged`); the scroll is
/// kept within `max_scroll`. When the outcome or its view asks to stop, the runtime is
/// marked as stopping and the user's quit is requested; otherwise the view's follow-up
/// is the effect.
pub open spec fn outcome_applied(before: TuiModel, outcome: CommandOutcome, effect: ControllerEffect, after: TuiModel) -> bool {
    exists|viewed: TuiModel, follow_up: ControllerEffect, disposition: ShutdownDisposition, merged: TuiModel|
        #[trigger] view_applied(answered(before), outcome.view, follow_up, disposition, viewed)
            && #[trigger] audit_merged(viewed, outcome.committed_audit@, merged) && {
            let clamped = TuiModel {
                workspace_scroll: if merged.workspace_scroll <= max_scroll(merged) {
                    merged.workspace_scroll
                } else {
                    max_scroll(merged)
                },
                ..merged
            };
            if outcome.shutdown == ShutdownDisposition::Requested || disposition == ShutdownDisposition::Requested {
                effect == ControllerEffect::RequestShutdown(ShutdownReason::UserQuit) && after == (TuiModel {
                    runtime_status: RuntimeStatus::Stopping,
                    ..clamped
                })
            } else {
                effect == follow_up && after == clamped
            }
        }
}

/// Applies the answer to a command; see `outcome_applied`.
pub fn apply_outcome(model: &mut TuiModel, outcome: CommandOutcome) -> (effect: ControllerEffect)
    ensures
        outcome_applied(*old(model), outcome, effect, *final(model)),
        !final(model).command_in_flight,
        final(model).workspace_scroll <= max_scroll(*final(model)),
        final(model).audit_entries@.len() <= COMMAND_HISTORY_CAPACITY,
        audit_selection_ok(final(model).audit_entries@, final(model).audit_selection),
{
    let ghost before = *model;
    let ghost whole = outcome;
    model.set_command_in_flight(false);
    let CommandOutcome { committed_audit, view, shutdown } = outcome;
    let (follow_up, view_shutdown) = apply_view(model, view);
    let ghost viewed = *model;
    merge_committed_audit(model, committed_audit);
    let ghost merged = *model;
    clamp_workspace_scroll(model);
    assert(view_applied(answered(before), whole.view, follow_up, view_shutdown, viewed));
    assert(audit_merged(viewed, whole.committed_audit@, merged));
    if requests_shutdown(shutdown) || requests_shutdown(view_shutdown) {
        model.set_runtime_status(RuntimeStatus::Stopping);
        ControllerEffect::RequestShutdown(ShutdownReason::UserQuit)
    } else {
        follow_up
    }
}

/// Control-c asks for the interrupted shutdown from any state, and changes nothing.
pub proof fn law_ctrl_c_always_interrupts(
    before: TuiModel,
    key: KeyEvent,
    effect: ControllerEffect,
    after: TuiModel,
)
    requires
        key_handled(before, key, effect, after),
        key.code == KeyCode::Char('c'),
        key.modifiers.bits == 2,
    ensures
        effect == ControllerEffect::RequestShutdown(ShutdownReason::Interrupted),
        after == before,
{
}

/// A key held with a modifier other than shift (control-c aside) changes nothing and
/// asks for nothing, unless an agent-profile editor is open, which takes enter with any
/// modifier.
pub proof fn law_modified_chords_are_inert(
    before: TuiModel,
    key: KeyEvent,
    effect: ControllerEffect,
    after: TuiModel,
)
    requires
        key_handled(before, key, effect, after),
        key.modifiers.bits != 0,
        key.modifiers.bits != 1,
        !(key.code == KeyCode::Char('c') && key.modifiers.bits == 2),
        !profile_editor_open(before) || before.layout_mode == LayoutMode::TooSmall
            || profile_confirmation_open(before),
    ensures
        effect == ControllerEffect::Nothing,
        after == before,
{
    if before.active_view == crate::screen::View::Agents && !before.skills.active
        && before.layout_mode != LayoutMode::TooSmall && !profile_confirmation_open(before)
        && !profile_editor_open(before) && before.focus != Focus::Command
        && !skill_confirmation_open(before) && !skill_editor_open(before) {
        let (handled, mid) = choose|handled: Option<ControllerEffect>, mid: TuiModel|
            #[trigger] agents_key_handled(before, key, handled, mid) && match handled {
                Some(e) => effect == e && after == mid,
                None => mid == before && global_key_handled(before, key, effect, after),
            };
        assert(handled is None);
    }
    if before.skills.active && before.layout_mode != LayoutMode::TooSmall && !profile_confirmation_open(
        before,
    ) && !profile_editor_open(before) && before.focus != Focus::Command && !skill_confirmation_open(
        before,
    ) && !skill_editor_open(before) {
        let handled = choose|handled: Option<ControllerEffect>|
            #[trigger] skills_key_handled(before, key, handled, after) && effect == match handled {
                Some(e) => e,
                None => ControllerEffect::Nothing,
            };
        assert(handled is None);
    }
}

/// Showing another tab keeps the workspaces' selections, drafts and pending
/// confirmations, the command history, the command in flight and the workspace awaiting
/// an answer: switching tabs never submits or cancels anything.
pub proof fn law_switching_tabs_keeps_pending_work(
    before: TuiModel,
    target: NavigationTab,
    after: TuiModel,
)
    requires
        tab_shown(before, target, after),
    ensures
        after.agents == before.agents,
        after.skills == (SkillsViewState { active: after.skills.active, ..before.skills }),
        after.command.history_view() == before.command.history_view(),
        after.command_in_flight == before.command_in_flight,
        after.pending_outcome_navigation == before.pending_outcome_navigation,
        after.pending_agent_outcome == before.pending_agent_outcome,
        after.audit_entries == before.audit_entries,
        after.message == before.message,
{
}

/// The views that the navigation column steps through.
pub open spec fn in_view_cycle(view: crate::screen::View) -> bool {
    view == crate::screen::View::Overview || view == crate::screen::View::Setup
        || view == crate::screen::View::Audit || view == crate::screen::View::Help
}

/// Stepping through the views from the navigation column: a step forward and a step back
/// undo each other; a step forward goes to the next view of the cycle in the order of the
/// navigation bar, skipping none of them, and from the last back to the first; the
/// agents view steps back to the overview either way.
pub proof fn law_view_steps_follow_the_bar(view: crate::screen::View, other: crate::screen::View)
    ensures
        in_view_cycle(view) ==> in_view_cycle(adjacent_view_of(view, true)) && in_view_cycle(
            adjacent_view_of(view, false),
        ),
        in_view_cycle(view) ==> adjacent_view_of(adjacent_view_of(view, true), false) == view,
        in_view_cycle(view) ==> adjacent_view_of(adjacent_view_of(view, false), true) == view,
        in_view_cycle(view) && view != crate::screen::View::Help ==> crate::screen::tab_index(
            tab_for_view(view),
        ) < crate::screen::tab_index(tab_for_view(adjacent_view_of(view, true))),
        in_view_cycle(view) && in_view_cycle(other) && crate::screen::tab_index(tab_for_view(view))
            < crate::screen::tab_index(tab_for_view(other)) ==> crate::screen::tab_index(
            tab_for_view(adjacent_view_of(view, true)),
        ) <= crate::screen::tab_index(tab_for_view(other)),
        adjacent_view_of(crate::screen::View::Help, true) == crate::screen::View::Overview,
        adjacent_view_of(crate::screen::View::Agents, true) == crate::screen::View::Overview,
        adjacent_view_of(crate::screen::View::Agents, false) == crate::screen::View::Overview,
{
}

/// Where a region stands on the screen, left to right and then top to bottom:
/// navigation, workspace, inspector, command line.
pub open spec fn screen_rank(focus: Focus) -> int {
    match focus {
        Focus::Navigation => 0,
        Focus::Workspace => 1,
        Focus::Inspector => 2,
        Focus::Command => 3,
        _ => 4,
    }
}

/// The focus cycle matches what the layout draws: the navigation column and the
/// inspector take focus exactly when the cockpit's layout shows them, the workspace
/// always, and the command line whenever the terminal is large enough to show the
/// cockpit; nothing else takes focus, and the cycle visits the regions in the order
/// they stand on the screen.
pub proof fn law_focus_cycle_covers_what_is_drawn(
    area: crate::layout::Rect,
    inspector_open: bool,
    layout: crate::layout::CockpitLayout,
)
    requires
        crate::layout::cockpit_shaped(area, inspector_open, layout),
    ensures
        focus_order(layout.mode, inspector_open).contains(Focus::Navigation) == (layout.navigation is Some),
        focus_order(layout.mode, inspector_open).contains(Focus::Inspector) == (layout.inspector is Some),
        focus_order(layout.mode, inspector_open).contains(Focus::Workspace),
        focus_order(layout.mode, inspector_open).contains(Focus::Command) == (layout.mode != LayoutMode::TooSmall),
        !focus_order(layout.mode, inspector_open).contains(Focus::List),
        !focus_order(layout.mode, inspector_open).contains(Focus::Actions),
        forall|i: int, j: int|
            0 <= i < j < focus_order(layout.mode, inspector_open).len() ==> screen_rank(
                #[trigger] focus_order(layout.mode, inspector_open)[i],
            ) < screen_rank(#[trigger] focus_order(layout.mode, inspector_open)[j]),
{
    let order = focus_order(layout.mode, inspector_open);
    match layout.mode {
        LayoutMode::Wide => {
            assert(order[0] == Focus::Navigation && order[1] == Focus::Workspace);
            assert(order[2] == Focus::Inspector && order[3] == Focus::Command);
        },
        LayoutMode::Medium => {
            assert(order[0] == Focus::Navigation && order[1] == Focus::Workspace);
            if inspector_open {
                assert(order[2] == Focus::Inspector && order[3] == Focus::Command);
            } else {
                assert(order[2] == Focus::Command);
            }
        },
        LayoutMode::Narrow => {
            assert(order[0] == Focus::Workspace);
            if inspector_open {
                assert(order[1] == Focus::Inspector && order[2] == Focus::Command);
            } else {
                assert(order[1] == Focus::Command);
            }
        },
        LayoutMode::TooSmall => {
            assert(order[0] == Focus::Workspace);
        },
    }
}

/// The arrows in the agents history pane: down selects the next version, or stays on
/// the last one (and from past the end, goes back to the last); up selects the previous
/// version, or stays on the first; the list scrolls with the selection and nothing else
/// changes.
pub proof fn law_history_arrows_move_the_selection(agents: AgentsViewState)
    requires
        agents.pane == AgentsPane::History,
    ensures
        ({
            let count: int = match agents.history {
                Some(history) => history.versions@.len() as int,
                None => 0,
            };
            let old_index = agents.selected_history_version as int;
            match agents_key_plain(agents, KeyCode::Down) {
                Some((effect, next)) => {
                    &&& effect == ControllerEffect::Redraw
                    &&& old_index + 1 < count ==> next.selected_history_version == old_index + 1
                    &&& old_index + 1 >= count ==> next.selected_history_version as int == if count > 0 {
                        count - 1
                    } else {
                        0
                    }
                    &&& next.history_scroll == next.selected_history_version
                    &&& next == AgentsViewState {
                        selected_history_version: next.selected_history_version,
                        history_scroll: next.history_scroll,
                        ..agents
                    }
                },
                None => false,
            }
        }),
        ({
            let old_index = agents.selected_history_version as int;
            match agents_key_plain(agents, KeyCode::Up) {
                Some((effect, next)) => {
                    &&& effect == ControllerEffect::Redraw
                    &&& old_index > 0 ==> next.selected_history_version == old_index - 1
                    &&& old_index == 0 ==> next.selected_history_version == 0
                    &&& next.history_scroll == next.selected_history_version
                    &&& next == AgentsViewState {
                        selected_history_version: next.selected_history_version,
                        history_scroll: next.history_scroll,
                        ..agents
                    }
                },
                None => false,
            }
        }),
{
    match agents.history {
        Some(history) => {
            assert(history.versions@.len() == history.versions.len());
        },
        None => {},
    }
}

/// Tab and back-tab along a focus cycle with no region twice: tab moves from each region
/// to the next one and from the last to the first, back-tab undoes tab and tab undoes
/// back-tab, and from a region outside the cycle both act as from its first region.
pub proof fn law_tab_and_back_tab_walk_the_cycle(order: Seq<Focus>, i: int, outside: Focus)
    requires
        order.len() > 0,
        forall|a: int, b: int| 0 <= a < b < order.len() ==> order[a] != order[b],
        0 <= i < order.len(),
        !order.contains(outside),
    ensures
        i + 1 < order.len() ==> cycled_focus(order, order[i], true) == order[i + 1],
        i + 1 == order.len() ==> cycled_focus(order, order[i], true) == order[0],
        cycled_focus(order, cycled_focus(order, order[i], true), false) == order[i],
        cycled_focus(order, cycled_focus(order, order[i], false), true) == order[i],
        cycled_focus(order, outside, true) == cycled_focus(order, order[0], true),
        cycled_focus(order, outside, false) == cycled_focus(order, order[0], false),
{
    assert forall|k: int| 0 <= k < order.len() implies focus_position(order, #[trigger] order[k]) == k by {
        assert(order.contains(order[k]));
        let chosen = choose|c: int| 0 <= c < order.len() && order[c] == order[k];
        assert(chosen == k);
    }
    let len = order.len() as int;
    let next = (i + 1) % len;
    let prev = if i == 0 {
        len - 1
    } else {
        i - 1
    };
    if i + 1 < len {
        vstd::arithmetic::div_mod::lemma_small_mod((i + 1) as nat, len as nat);
    } else {
        vstd::arithmetic::div_mod::lemma_mod_self_0(len);
    }
    if prev + 1 < len {
        vstd::arithmetic::div_mod::lemma_small_mod((prev + 1) as nat, len as nat);
    } else {
        vstd::arithmetic::div_mod::lemma_mod_self_0(len);
    }
    if len > 1 {
        vstd::arithmetic::div_mod::lemma_small_mod(1, len as nat);
    } else {
        vstd::arithmetic::div_mod::lemma_mod_self_0(len);
    }
    assert(0 <= next < len);
    assert(focus_position(order, order[next]) == next);
    assert(focus_position(order, order[prev]) == prev);
    assert(focus_position(order, order[0]) == 0);
}

} // verus!