use stock_forum_tui::domain::{
    Actor, AgentProfilesView, AuditEntry, DatabaseReadiness, InstallationId, PresentationSnapshot,
    ProcessGuardOwnership, SessionId, SetupStatus,
};
use stock_forum_tui::editor::COMMAND_HISTORY_CAPACITY;
use stock_forum_tui::layout::LayoutMode;
use stock_forum_tui::memory::{MemoryOutcomeIntent, MemoryViewState};
use stock_forum_tui::model::TuiModel;
use stock_forum_tui::screen::{Focus, NavigationTab, RuntimeStatus, Severity, UiMessage, View};

fn snapshot() -> PresentationSnapshot {
    PresentationSnapshot {
        installation_id: InstallationId(1),
        session_id: SessionId(2),
        database_readiness: DatabaseReadiness::Ready,
        process_guard_ownership: ProcessGuardOwnership::Held,
        setup_status: SetupStatus::NotStarted,
        recent_audit: vec![audit_entry(1)],
        agent_profiles: AgentProfilesView {
            profiles: Vec::new(),
            total_count: 0,
            returned_count: 0,
            truncated: false,
        },
        selected_agent_profile: None,
        selected_agent_profile_history: None,
    }
}

fn audit_entry(sequence: u64) -> AuditEntry {
    AuditEntry {
        sequence,
        occurred_at_ms: 0,
        actor: Actor::System,
        kind: "help_viewed".to_owned(),
        correlation_id: sequence as u128 + 10,
        summary: "help viewed".to_owned(),
    }
}

#[test]
fn model_starts_on_overview_with_snapshot_data() {
    let snapshot = snapshot();
    let expected_audit = snapshot.recent_audit.clone();
    let model = TuiModel::new(snapshot, true);
    assert_eq!(model.active_view, View::Overview);
    assert_eq!(model.focus, Focus::Workspace);
    assert!(model.previous_session_interrupted);
    assert_eq!(model.audit_entries, expected_audit);
}

#[test]
fn audit_selection_is_clamped_after_entries_are_replaced() {
    let mut model = TuiModel::new(snapshot(), false);
    model.audit_selection = Some(8);
    model.replace_audit(vec![audit_entry(1), audit_entry(2)]);
    assert_eq!(model.audit_selection, Some(1));
}

#[test]
fn audit_replacement_preserves_the_selected_event_sequence_when_its_index_moves() {
    let mut model = TuiModel::new(snapshot(), false);
    model.replace_audit((1..=100).map(audit_entry).collect());
    model.audit_selection = Some(75);

    model.replace_audit((2..=101).map(audit_entry).collect());

    assert_eq!(model.audit_selection, Some(74));
    assert_eq!(model.audit_entries[74].sequence, 76);
}

#[test]
fn restored_tab_drops_a_stale_history_position_but_keeps_its_exact_buffer() {
    let mut model = TuiModel::new(snapshot(), false);
    for index in 0..COMMAND_HISTORY_CAPACITY {
        model.command.remember(format!("command {index}"));
    }
    for _ in 0..COMMAND_HISTORY_CAPACITY {
        model.command.history_previous();
    }
    assert_eq!(model.command.text(), "command 0");

    model.switch_tab(NavigationTab::Setup);
    model.command.remember("new command".to_owned());
    model.switch_tab(NavigationTab::Overview);
    assert_eq!(model.command.text(), "command 0");

    model.command.history_next();
    assert_eq!(model.command.text(), "command 0");
}

#[test]
fn restored_tab_keeps_the_exact_position_of_a_duplicate_history_entry() {
    let mut model = TuiModel::new(snapshot(), false);
    for command in ["A", "B", "A", "C"] {
        model.command.remember(command.to_owned());
    }
    for _ in 0..4 {
        model.command.history_previous();
    }
    assert_eq!(model.command.text(), "A");

    model.switch_tab(NavigationTab::Setup);
    model.switch_tab(NavigationTab::Overview);
    model.command.history_previous();

    assert_eq!(model.command.text(), "A");
}

#[test]
fn model_initializes_the_newest_audit_selection_and_pure_state() {
    let model = TuiModel::new(snapshot(), false);
    assert_eq!(model.layout_mode, LayoutMode::Wide);
    assert!(!model.inspector_open);
    assert_eq!(model.workspace_scroll, 0);
    assert_eq!(model.audit_selection, Some(0));
    assert_eq!(model.message, None);
    assert!(!model.command_in_flight);
}

#[test]
fn model_initializes_ready_runtime_and_updates_typed_status() {
    let mut model = TuiModel::new(snapshot(), false);
    assert_eq!(model.runtime_status, RuntimeStatus::Ready);

    model.set_runtime_status(RuntimeStatus::Stopping);

    assert_eq!(model.runtime_status, RuntimeStatus::Stopping);
}

#[test]
fn model_updates_navigation_layout_focus_scroll_and_messages() {
    let mut model = TuiModel::new(snapshot(), false);
    model.select_view(View::Audit);
    model.set_focus(Focus::Command);
    model.set_terminal_size(70, 20);
    model.toggle_inspector();
    model.scroll_down(u16::MAX);
    model.scroll_down(1);
    model.scroll_up(u16::MAX);
    model.scroll_home();
    model.set_message(Severity::Warning, "check setup".to_owned());
    model.set_command_in_flight(true);

    assert_eq!(model.active_view, View::Audit);
    assert_eq!(model.focus, Focus::Command);
    assert_eq!(model.layout_mode, LayoutMode::Narrow);
    assert!(model.inspector_open);
    assert_eq!(model.workspace_scroll, 0);
    assert_eq!(
        model.message,
        Some(UiMessage {
            severity: Severity::Warning,
            text: "check setup".to_owned(),
        })
    );
    assert!(model.command_in_flight);
    model.clear_message();
    assert_eq!(model.message, None);
}

#[test]
fn model_initialization_keeps_only_the_newest_hundred_audit_entries() {
    let mut snapshot = snapshot();
    snapshot.recent_audit = (1..=110).map(audit_entry).collect();

    let model = TuiModel::new(snapshot, false);

    assert_eq!(model.audit_entries.len(), COMMAND_HISTORY_CAPACITY);
    assert_eq!(
        model.audit_entries.first().map(|entry| entry.sequence),
        Some(11)
    );
    assert_eq!(
        model.audit_entries.last().map(|entry| entry.sequence),
        Some(110)
    );
    assert_eq!(model.audit_selection, Some(99));
}

#[test]
fn audit_replacement_keeps_the_newest_hundred_entries() {
    let mut model = TuiModel::new(snapshot(), false);
    model.audit_selection = None;
    model.replace_audit((1..=110).map(audit_entry).collect());
    assert_eq!(model.audit_entries.len(), 100);
    assert_eq!(
        model.audit_entries.first().map(|entry| entry.sequence),
        Some(11)
    );
    assert_eq!(
        model.audit_entries.last().map(|entry| entry.sequence),
        Some(110)
    );
    assert_eq!(model.audit_selection, Some(99));
}

#[test]
fn audit_selection_methods_are_total_and_clamped() {
    let mut model = TuiModel::new(snapshot(), false);
    model.replace_audit(Vec::new());
    model.select_previous_audit();
    model.select_next_audit();
    model.select_first_audit();
    model.select_last_audit();
    assert_eq!(model.audit_selection, None);

    model.replace_audit(vec![audit_entry(1), audit_entry(2)]);
    model.select_first_audit();
    model.select_previous_audit();
    assert_eq!(model.audit_selection, Some(0));
    model.select_next_audit();
    model.select_next_audit();
    assert_eq!(model.audit_selection, Some(1));
    model.select_last_audit();
    assert_eq!(model.audit_selection, Some(1));
}

#[test]
fn memory_pending_cleanup_requires_the_exact_intent_and_generation() {
    let mut state = MemoryViewState::default();
    let generation = state
        .begin_pending(MemoryOutcomeIntent::Entries)
        .expect("pending generation");

    assert!(!state.clear_pending_if(&MemoryOutcomeIntent::Proposals, generation));
    assert!(!state.clear_pending_if(&MemoryOutcomeIntent::Entries, generation + 1));
    assert_eq!(state.pending_intent, Some(MemoryOutcomeIntent::Entries));

    assert!(state.clear_pending_if(&MemoryOutcomeIntent::Entries, generation));
    assert_eq!(state.pending_intent, None);
}

#[test]
fn switching_away_and_back_restores_the_tab_state() {
    let mut model = TuiModel::new(snapshot(), false);
    model.set_terminal_size(120, 30);
    model.toggle_inspector();
    model.set_focus(Focus::Inspector);
    model.scroll_down(7);
    model.command.insert('x');
    model.switch_tab(NavigationTab::Help);
    assert_eq!(model.active_view, View::Help);
    assert_eq!(model.focus, Focus::Workspace);
    assert!(!model.inspector_open);
    assert_eq!(model.workspace_scroll, 0);
    assert_eq!(model.command.text(), "");
    model.switch_tab(NavigationTab::Overview);
    assert_eq!(model.active_view, View::Overview);
    assert_eq!(model.focus, Focus::Inspector);
    assert!(model.inspector_open);
    assert_eq!(model.workspace_scroll, 7);
    assert_eq!(model.command.text(), "x");
}

#[test]
fn an_outcome_is_not_presented_after_the_user_moved_on() {
    let mut model = TuiModel::new(snapshot(), false);
    model.set_command_in_flight(true);
    assert!(model.should_present_pending_outcome());
    model.switch_tab(NavigationTab::Chat);
    assert!(!model.should_present_pending_outcome());
    model.switch_tab(NavigationTab::Overview);
    assert!(!model.should_present_pending_outcome());
    model.set_command_in_flight(false);
    assert!(model.should_present_pending_outcome());
    model.set_command_in_flight_preserving_navigation();
    assert!(!model.should_present_pending_outcome());
}

#[test]
fn a_restored_snapshot_brings_back_navigation() {
    let mut model = TuiModel::new(snapshot(), false);
    model.select_view(View::Audit);
    model.command.insert('a');
    let saved = model.navigation_state_snapshot();
    model.select_view(View::Chat);
    model.command.insert('b');
    model.set_message(Severity::Error, "failed".to_owned());
    model.restore_navigation_state(saved);
    assert_eq!(model.active_view, View::Audit);
    assert_eq!(model.command.text(), "a");
    assert_eq!(model.message, None);
}
