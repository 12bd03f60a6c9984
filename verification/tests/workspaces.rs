use stock_forum_tui::controller::{apply_outcome, handle_event, ControllerEffect};
use stock_forum_tui::domain::{
    AgentProfileId, AgentProfileSummary, AgentProfileVersionId, AgentProfileVersionRef,
    AgentProfileView, AgentProfilesView, CommandOutcome, CommandView, ContentDigest,
    DatabaseReadiness, InstallationId, PresentationSnapshot, ProcessGuardOwnership, SessionId,
    SetupStatus, ShutdownDisposition, SkillId, SkillSummary, SkillVersionId, SkillVersionRef,
    SkillsView,
};
use stock_forum_tui::event::{KeyCode, KeyEvent, KeyModifiers, TuiEvent};
use stock_forum_tui::model::TuiModel;
use stock_forum_tui::screen::{Focus, NavigationTab, View};
use stock_forum_tui::workspace::{
    AgentSkillAction, AgentSkillUpgradeAvailability, AgentsPane, AssignmentKind,
    SkillWorkspaceOrigin, SkillsPane,
};

fn model() -> TuiModel {
    TuiModel::new(
        PresentationSnapshot {
            installation_id: InstallationId(1),
            session_id: SessionId(2),
            database_readiness: DatabaseReadiness::Ready,
            process_guard_ownership: ProcessGuardOwnership::Held,
            setup_status: SetupStatus::NotStarted,
            recent_audit: Vec::new(),
            agent_profiles: profiles(0),
            selected_agent_profile: None,
            selected_agent_profile_history: None,
        },
        false,
    )
}

fn profile_ref(id: u128) -> AgentProfileVersionRef {
    AgentProfileVersionRef {
        profile_id: AgentProfileId(id),
        profile_version_id: AgentProfileVersionId(id + 1000),
        version: 1,
        content_digest: ContentDigest(id + 2000),
    }
}

fn profiles(count: u128) -> AgentProfilesView {
    let profiles: Vec<AgentProfileSummary> = (1..=count)
        .map(|id| {
            let r = profile_ref(id);
            AgentProfileSummary {
                profile_id: r.profile_id,
                profile_version_id: r.profile_version_id,
                version: r.version,
                content_digest: r.content_digest,
            }
        })
        .collect();
    AgentProfilesView {
        total_count: profiles.len() as u64,
        returned_count: profiles.len() as u64,
        truncated: false,
        profiles,
    }
}

fn skill_ref(skill: u128, version: u64) -> SkillVersionRef {
    SkillVersionRef {
        skill_id: SkillId(skill),
        skill_version_id: SkillVersionId(skill * 100 + version as u128),
        version,
    }
}

fn library(refs: &[SkillVersionRef]) -> SkillsView {
    SkillsView {
        skills: refs.iter().map(|r| SkillSummary { skill_ref: *r }).collect(),
        total_count: refs.len() as u64,
        returned_count: refs.len() as u64,
        truncated: false,
    }
}

fn plain(code: KeyCode) -> TuiEvent {
    TuiEvent::Key(KeyEvent::new(code, KeyModifiers::none()))
}

fn answer(view: CommandView) -> CommandOutcome {
    CommandOutcome {
        committed_audit: Vec::new(),
        view,
        shutdown: ShutdownDisposition::Continue,
    }
}

#[test]
fn agents_workspace_walks_list_detail_and_history_and_escape_unwinds() {
    let mut model = model();
    assert_eq!(handle_event(&mut model, plain(KeyCode::Char('3'))), ControllerEffect::LoadAgentProfiles);
    assert_eq!(model.active_view, View::Agents);
    assert_eq!(model.agents.pane, AgentsPane::List);

    apply_outcome(&mut model, answer(CommandView::AgentProfiles(profiles(3))));
    assert_eq!(model.agents.profiles.profiles.len(), 3);

    assert_eq!(handle_event(&mut model, plain(KeyCode::Down)), ControllerEffect::Redraw);
    assert_eq!(model.agents.selected_profile, 1);
    assert_eq!(model.agents.list_scroll, 1);
    handle_event(&mut model, plain(KeyCode::Down));
    handle_event(&mut model, plain(KeyCode::Down));
    assert_eq!(model.agents.selected_profile, 2);

    assert_eq!(
        handle_event(&mut model, plain(KeyCode::Enter)),
        ControllerEffect::LoadAgentProfile { selected_profile: 2 }
    );
    assert_eq!(model.agents.pane, AgentsPane::Detail);
    assert_eq!(
        handle_event(&mut model, plain(KeyCode::Char('h'))),
        ControllerEffect::LoadAgentProfileHistory { selected_profile: 2 }
    );
    assert_eq!(model.agents.pane, AgentsPane::History);

    assert_eq!(handle_event(&mut model, plain(KeyCode::Esc)), ControllerEffect::Redraw);
    assert_eq!(model.agents.pane, AgentsPane::Detail);
    assert_eq!(handle_event(&mut model, plain(KeyCode::Esc)), ControllerEffect::Redraw);
    assert_eq!(model.agents.pane, AgentsPane::List);
    assert_eq!(handle_event(&mut model, plain(KeyCode::Esc)), ControllerEffect::Redraw);
    assert_eq!(model.active_view, View::Overview);
}

#[test]
fn skills_library_selection_is_clamped_and_escape_returns_to_the_origin_view() {
    let mut model = model();
    model.select_view(View::Setup);
    assert_eq!(handle_event(&mut model, plain(KeyCode::Char('4'))), ControllerEffect::LoadSkills);
    assert!(model.skills.active);
    assert_eq!(
        model.skills.workspace_origin,
        Some(SkillWorkspaceOrigin::Cockpit(View::Setup))
    );

    apply_outcome(
        &mut model,
        answer(CommandView::Skills(library(&[skill_ref(1, 1), skill_ref(2, 3)]))),
    );
    assert_eq!(model.skills.pane, SkillsPane::List);
    handle_event(&mut model, plain(KeyCode::Down));
    handle_event(&mut model, plain(KeyCode::Down));
    assert_eq!(model.skills.selected_skill, 1);
    assert_eq!(
        handle_event(&mut model, plain(KeyCode::Enter)),
        ControllerEffect::LoadSkill { selected_skill: 1 }
    );

    assert_eq!(handle_event(&mut model, plain(KeyCode::Char('c'))), ControllerEffect::Redraw);
    assert_eq!(model.skills.pane, SkillsPane::CreateSource);
    handle_event(&mut model, plain(KeyCode::Down));
    assert_eq!(
        handle_event(&mut model, plain(KeyCode::Enter)),
        ControllerEffect::LoadSkillStarter { selected_skill: 0 }
    );
    handle_event(&mut model, plain(KeyCode::Up));
    assert_eq!(handle_event(&mut model, plain(KeyCode::Enter)), ControllerEffect::Redraw);
    assert_eq!(model.skills.pane, SkillsPane::Editor);
    assert!(model.skills.editor.is_some());
    assert_eq!(
        handle_event(&mut model, plain(KeyCode::Esc)),
        ControllerEffect::SkillEditorKey(KeyEvent::new(KeyCode::Esc, KeyModifiers::none()))
    );

    model.skills.pane = SkillsPane::List;
    assert_eq!(handle_event(&mut model, plain(KeyCode::Esc)), ControllerEffect::Redraw);
    assert!(!model.skills.active);
    assert_eq!(model.active_view, View::Setup);
    assert_eq!(model.skills.workspace_origin, None);
}

#[test]
fn an_agent_skill_panel_offers_the_upgrade_to_the_active_version() {
    let mut model = model();
    model.select_view(View::Agents);
    model.agents.profiles = profiles(1);
    model.agents.detail = Some(AgentProfileView {
        profile: profile_ref(1),
        skill_refs: vec![skill_ref(7, 1)],
    });
    model.agents.pane = AgentsPane::Detail;
    model.skills.library = library(&[skill_ref(7, 2)]);

    assert_eq!(handle_event(&mut model, plain(KeyCode::Enter)), ControllerEffect::Redraw);
    assert!(model.agents.skill_panel_open);
    assert_eq!(
        model.agent_skill_upgrade_availability(),
        AgentSkillUpgradeAvailability::Available(skill_ref(7, 2))
    );
    assert_eq!(
        model.available_agent_skill_actions(),
        vec![AgentSkillAction::View, AgentSkillAction::Upgrade, AgentSkillAction::Unassign]
    );

    handle_event(&mut model, plain(KeyCode::Right));
    assert_eq!(model.selected_available_agent_skill_action(), AgentSkillAction::Upgrade);
    assert_eq!(
        handle_event(&mut model, plain(KeyCode::Enter)),
        ControllerEffect::RequestSkillAssignmentPreview {
            profile_id: AgentProfileId(1),
            expected_active_profile_version_id: AgentProfileVersionId(1001),
            target: skill_ref(7, 2),
            assignment: AssignmentKind::Upgrade {
                expected: skill_ref(7, 1)
            },
        }
    );

    handle_event(&mut model, plain(KeyCode::Right));
    handle_event(&mut model, plain(KeyCode::Right));
    assert_eq!(model.selected_available_agent_skill_action(), AgentSkillAction::Unassign);
    handle_event(&mut model, plain(KeyCode::Left));
    handle_event(&mut model, plain(KeyCode::Left));
    handle_event(&mut model, plain(KeyCode::Left));
    assert_eq!(model.selected_available_agent_skill_action(), AgentSkillAction::View);

    assert_eq!(handle_event(&mut model, plain(KeyCode::Esc)), ControllerEffect::Redraw);
    assert!(!model.agents.skill_panel_open);
}

#[test]
fn a_current_pin_offers_no_upgrade() {
    let mut model = model();
    model.agents.detail = Some(AgentProfileView {
        profile: profile_ref(1),
        skill_refs: vec![skill_ref(7, 2)],
    });
    model.skills.library = library(&[skill_ref(7, 2)]);
    assert_eq!(
        model.agent_skill_upgrade_availability(),
        AgentSkillUpgradeAvailability::Current
    );
    model.select_available_agent_skill_action(AgentSkillAction::Upgrade);
    assert_eq!(model.agents.selected_skill_action_index, 0);
    model.skills.library = library(&[]);
    assert_eq!(
        model.agent_skill_upgrade_availability(),
        AgentSkillUpgradeAvailability::Unknown
    );
}

#[test]
fn a_profile_for_a_skill_assignment_is_classified_for_review() {
    let mut model = model();
    model.skills.active = true;
    model.skills.library = library(&[skill_ref(7, 3)]);
    model.skills.pane = SkillsPane::AgentPicker;
    model.pending_agent_outcome = Some(stock_forum_tui::workspace::AgentOutcomeIntent::SkillAssignment);
    apply_outcome(
        &mut model,
        answer(CommandView::AgentProfile(AgentProfileView {
            profile: profile_ref(4),
            skill_refs: vec![skill_ref(7, 1)],
        })),
    );
    assert_eq!(model.skills.pane, SkillsPane::AssignmentReview);
    assert_eq!(
        model.skills.assignment,
        Some(AssignmentKind::Upgrade {
            expected: skill_ref(7, 1)
        })
    );
    assert_eq!(model.pending_agent_outcome, None);
}

#[test]
fn tab_and_shift_tab_cycle_through_the_visible_regions() {
    let mut model = model();
    assert_eq!(model.focus, Focus::Workspace);
    handle_event(&mut model, plain(KeyCode::Char('i')));
    assert_eq!(model.focus, Focus::Inspector);
    handle_event(&mut model, plain(KeyCode::Tab));
    assert_eq!(model.focus, Focus::Command);
    handle_event(&mut model, plain(KeyCode::Tab));
    assert_eq!(model.focus, Focus::Navigation);
    handle_event(&mut model, plain(KeyCode::Down));
    assert_eq!(model.active_view, View::Setup);
    assert_eq!(model.focus, Focus::Workspace);
    handle_event(
        &mut model,
        TuiEvent::Key(KeyEvent::new(KeyCode::BackTab, KeyModifiers::shift())),
    );
    assert_eq!(model.focus, Focus::Navigation);
    handle_event(&mut model, plain(KeyCode::End));
    assert_eq!(model.active_navigation_tab(), NavigationTab::Help);
}

#[test]
fn escape_closes_the_inspector_then_the_message() {
    let mut model = model();
    handle_event(&mut model, plain(KeyCode::Char('i')));
    model.set_message(stock_forum_tui::screen::Severity::Info, "note".to_owned());
    assert_eq!(handle_event(&mut model, plain(KeyCode::Esc)), ControllerEffect::Redraw);
    assert!(!model.inspector_open);
    assert!(model.message.is_some());
    assert_eq!(handle_event(&mut model, plain(KeyCode::Esc)), ControllerEffect::Redraw);
    assert!(model.message.is_none());
    assert_eq!(handle_event(&mut model, plain(KeyCode::Esc)), ControllerEffect::Nothing);
}

#[test]
fn scrolling_stays_within_the_content_below_the_body() {
    let mut model = model();
    model.set_workspace_content_height(model.workspace_body_height + 3);
    for _ in 0..10 {
        handle_event(&mut model, plain(KeyCode::PageDown));
    }
    assert_eq!(model.workspace_scroll, 3);
    handle_event(&mut model, plain(KeyCode::Home));
    assert_eq!(model.workspace_scroll, 0);
    handle_event(&mut model, plain(KeyCode::End));
    assert_eq!(model.workspace_scroll, 3);
}

#[test]
fn an_open_memory_editor_pins_the_selected_profile() {
    let mut model = model();
    model.agents.profiles = profiles(2);
    model.agents.memory.editor = Some(stock_forum_tui::memory::MemoryEditorSession {
        selector: stock_forum_tui::domain::AgentProfileSelector::Id(AgentProfileId(1)),
        seed: None,
    });
    assert!(!model.agents.select_profile_index(1));
    assert_eq!(model.agents.selected_profile, 0);
    assert!(!model.agents.select_profile_id(AgentProfileId(2)));
    assert!(model.agents.select_profile_id(AgentProfileId(1)));
    model.agents.memory.editor = None;
    assert!(model.agents.select_profile_index(1));
    assert_eq!(model.agents.selected_profile, 1);
}

#[test]
fn committed_entries_are_merged_in_sequence_order() {
    let mut model = model();
    let entry = |sequence: u64, kind: &str| stock_forum_tui::domain::AuditEntry {
        sequence,
        occurred_at_ms: 0,
        actor: stock_forum_tui::domain::Actor::System,
        kind: kind.to_owned(),
        correlation_id: 0,
        summary: String::new(),
    };
    model.replace_audit(vec![entry(1, "a"), entry(4, "a")]);
    apply_outcome(
        &mut model,
        CommandOutcome {
            committed_audit: vec![entry(5, "b"), entry(3, "b"), entry(4, "b")],
            view: CommandView::AgentSkillAssigned,
            shutdown: ShutdownDisposition::Continue,
        },
    );
    let sequences: Vec<u64> = model.audit_entries.iter().map(|e| e.sequence).collect();
    assert_eq!(sequences, vec![1, 3, 4, 5]);
    assert_eq!(model.audit_entries[2].kind, "b");
    assert_eq!(model.audit_selection, Some(1));
}
