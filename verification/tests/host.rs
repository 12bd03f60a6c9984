use stock_forum_tui::domain::{
    AgentProfileId, AgentProfileVersionId, AgentProfileVersionRef, AgentProfileVersionView,
    AgentProfileView, AgentProfilesView, CommandView, ContentDigest, DatabaseReadiness,
    InstallationId, PresentationSnapshot, ProcessGuardOwnership, SessionId, SetupStatus, SkillId,
    SkillVersionId, SkillVersionRef,
};
use stock_forum_tui::error::{AppError, RuntimeError};
use stock_forum_tui::controller::ControllerEffect;
use stock_forum_tui::domain::{AgentProfileSelector, CommandOutcome, ShutdownDisposition, SkillSummary, SkillsView};
use stock_forum_tui::host::{
    agent_effect_request, apply_agent_answer, apply_skill_submission, apply_skill_workflow_failure,
    assignment_profile_id, needs_agent_skill_library, open_skill_starter, profile_read_matches,
    retain_profile_error, skill_effect_request, AgentHostStep, AgentProfileRead, SkillFollowUp,
    SkillHostStep,
};
use stock_forum_tui::domain::{AgentProfileSummary, ApplicationCommand, SkillView};
use stock_forum_tui::workspace::{SkillConfirmation, SkillOperationOrigin, SkillsPane};
use stock_forum_tui::model::TuiModel;
use stock_forum_tui::screen::Severity;
use stock_forum_tui::workspace::AgentsPane;

fn model() -> TuiModel {
    TuiModel::new(
        PresentationSnapshot {
            installation_id: InstallationId(1),
            session_id: SessionId(2),
            database_readiness: DatabaseReadiness::Ready,
            process_guard_ownership: ProcessGuardOwnership::Held,
            setup_status: SetupStatus::NotStarted,
            recent_audit: Vec::new(),
            agent_profiles: AgentProfilesView {
                profiles: Vec::new(),
                total_count: 0,
                returned_count: 0,
                truncated: false,
            },
            selected_agent_profile: None,
            selected_agent_profile_history: None,
        },
        false,
    )
}

fn profile(version: u64) -> AgentProfileVersionRef {
    AgentProfileVersionRef {
        profile_id: AgentProfileId(1),
        profile_version_id: AgentProfileVersionId(10 + version as u128),
        version,
        content_digest: ContentDigest(7),
    }
}

#[test]
fn a_read_is_answered_only_by_its_own_kind_of_view() {
    let version = CommandView::AgentProfileVersion(AgentProfileVersionView { profile: profile(3) });
    assert!(profile_read_matches(AgentProfileRead::Version(3), &version));
    assert!(!profile_read_matches(AgentProfileRead::Version(2), &version));
    assert!(!profile_read_matches(AgentProfileRead::Detail, &version));
    let detail = CommandView::AgentProfile(AgentProfileView {
        profile: profile(1),
        skill_refs: Vec::new(),
    });
    assert!(profile_read_matches(AgentProfileRead::Detail, &detail));
    assert!(!profile_read_matches(AgentProfileRead::History, &detail));
}

#[test]
fn the_skill_library_is_needed_once_for_an_agent_with_skills() {
    let mut model = model();
    assert!(!needs_agent_skill_library(&model));
    model.agents.detail = Some(AgentProfileView {
        profile: profile(1),
        skill_refs: vec![SkillVersionRef {
            skill_id: SkillId(1),
            skill_version_id: SkillVersionId(2),
            version: 1,
        }],
    });
    assert!(needs_agent_skill_library(&model));
    model.skills.library_loaded = true;
    assert!(!needs_agent_skill_library(&model));
}

#[test]
fn a_failed_profile_action_says_what_became_of_the_draft() {
    let cases = [
        (RuntimeError::Backpressure, "Command queue is busy; draft retained."),
        (
            RuntimeError::Application(AppError::StaleAgentProfileVersion),
            "Profile action failed; draft retained.",
        ),
        (RuntimeError::Closed, "Profile action is unavailable."),
    ];
    for (error, text) in cases {
        let mut model = model();
        model.set_command_in_flight(true);
        retain_profile_error(&mut model, &error, AgentsPane::Editor);
        assert!(!model.command_in_flight);
        assert!(model.should_present_pending_outcome());
        assert_eq!(model.agents.pane, AgentsPane::Editor);
        let message = model.message.expect("an error message");
        assert_eq!(message.severity, Severity::Error);
        assert_eq!(message.text, text);
    }
}

fn skill(id: u128) -> SkillVersionRef {
    SkillVersionRef {
        skill_id: SkillId(id),
        skill_version_id: SkillVersionId(id + 50),
        version: 1,
    }
}

#[test]
fn skill_effects_become_the_commands_the_host_submits() {
    let mut model = model();
    model.skills.library = SkillsView {
        skills: vec![SkillSummary { skill_ref: skill(9) }],
        total_count: 1,
        returned_count: 1,
        truncated: false,
    };
    assert_eq!(
        skill_effect_request(&mut model, &ControllerEffect::LoadSkillStarter { selected_skill: 0 }),
        SkillHostStep::Show {
            command: ApplicationCommand::ShowSkill { skill_id: SkillId(9) },
            starter: true
        }
    );
    assert_eq!(
        skill_effect_request(&mut model, &ControllerEffect::LoadSkill { selected_skill: 3 }),
        SkillHostStep::Nothing
    );
    assert_eq!(model.message.as_ref().unwrap().text, "No skill is selected.");
    assert_eq!(
        skill_effect_request(&mut model, &ControllerEffect::LoadSkillAgents),
        SkillHostStep::ShowForAssignment {
            command: ApplicationCommand::ListAgentProfiles,
            picker: true
        }
    );
    assert_eq!(
        skill_effect_request(&mut model, &ControllerEffect::CancelSkillReview),
        SkillHostStep::Nothing
    );
    model.skills.review_registered = true;
    assert_eq!(
        skill_effect_request(&mut model, &ControllerEffect::CancelSkillReview),
        SkillHostStep::CancelReview
    );
    assert!(!model.skills.review_registered);
}

#[test]
fn a_busy_queue_keeps_the_confirmed_skill_review_for_a_retry() {
    let mut model = model();
    model.skills.active = true;
    model.skills.pane = SkillsPane::Confirmation;
    model.skills.review_registered = true;
    model.skills.pending_confirmation = Some(SkillConfirmation {
        command: ApplicationCommand::AssignAgentSkill {
            profile_id: AgentProfileId(4),
        },
        origin: SkillOperationOrigin::Skills(SkillsPane::AssignmentReview),
    });
    model.set_command_in_flight(true);
    let before = model.skills.clone();
    let next = apply_skill_submission(&mut model, Some(AgentProfileId(4)), Err(RuntimeError::Backpressure));
    assert_eq!(next, Ok(SkillFollowUp::Nothing));
    assert_eq!(model.skills, before);
    assert!(!model.command_in_flight);
    assert_eq!(
        model.message.as_ref().unwrap().text,
        "Command queue is busy; review retained for retry."
    );

    let next = apply_skill_submission(
        &mut model,
        Some(AgentProfileId(4)),
        Err(RuntimeError::Application(AppError::StaleAgentProfileVersion)),
    );
    assert_eq!(next, Ok(SkillFollowUp::CancelReview));
    assert!(model.skills.pending_confirmation.is_none());
    assert!(!model.skills.review_registered);
    assert_eq!(model.skills.pane, SkillsPane::Detail);
    assert_eq!(model.message.as_ref().unwrap().text, "Skill action failed; review cleared.");

    assert_eq!(
        apply_skill_submission(&mut model, None, Err(RuntimeError::Closed)),
        Err(RuntimeError::Closed)
    );
}

#[test]
fn a_completed_skill_action_shows_its_result_and_refreshes_the_agent() {
    let mut model = model();
    model.skills.active = true;
    model.skills.review_registered = true;
    let command = ApplicationCommand::UpgradeAgentSkill {
        profile_id: AgentProfileId(4),
    };
    let affected = assignment_profile_id(&command);
    assert_eq!(affected, Some(AgentProfileId(4)));
    let next = apply_skill_submission(
        &mut model,
        affected,
        Ok(CommandOutcome {
            committed_audit: Vec::new(),
            view: CommandView::AgentSkillUpgraded,
            shutdown: ShutdownDisposition::Continue,
        }),
    );
    assert_eq!(next, Ok(SkillFollowUp::RefreshAgent(AgentProfileId(4))));
    assert_eq!(model.skills.pane, SkillsPane::Result);
    assert!(!model.skills.review_registered);
    assert_eq!(model.message.as_ref().unwrap().text, "Skill action completed.");
}

#[test]
fn a_skill_workflow_that_cannot_start_returns_to_the_library() {
    let mut model = model();
    model.skills.pane = SkillsPane::Editor;
    assert_eq!(apply_skill_workflow_failure(&mut model, RuntimeError::Backpressure), Ok(()));
    assert_eq!(model.skills.pane, SkillsPane::List);
    assert_eq!(
        model.message.as_ref().unwrap().text,
        "Command queue is busy; skill workflow was not started."
    );
    assert_eq!(
        apply_skill_workflow_failure(&mut model, RuntimeError::WorkerExited),
        Err(RuntimeError::WorkerExited)
    );
}

#[test]
fn a_starter_opens_the_editor_seeded_from_the_shown_skill() {
    let mut model = model();
    model.command.insert('x');
    model.skills.detail = Some(SkillView { skill_ref: skill(3) });
    open_skill_starter(&mut model);
    assert_eq!(model.skills.pane, SkillsPane::Editor);
    assert_eq!(model.skills.editor.unwrap().base, Some(skill(3)));
    assert_eq!(model.command.text(), "");
}

#[test]
fn agent_effects_become_the_commands_the_host_submits() {
    let mut model = model();
    model.agents.profiles = AgentProfilesView {
        profiles: vec![AgentProfileSummary {
            profile_id: AgentProfileId(1),
            profile_version_id: AgentProfileVersionId(11),
            version: 1,
            content_digest: ContentDigest(7),
        }],
        total_count: 1,
        returned_count: 1,
        truncated: false,
    };
    assert_eq!(
        agent_effect_request(&mut model, &ControllerEffect::LoadAgentProfile { selected_profile: 0 }),
        AgentHostStep::Show {
            command: ApplicationCommand::ShowAgentProfile {
                selector: AgentProfileSelector::Id(AgentProfileId(1))
            },
            then_library: true
        }
    );
    assert_eq!(
        agent_effect_request(&mut model, &ControllerEffect::LoadAgentProfileHistory { selected_profile: 4 }),
        AgentHostStep::Nothing
    );
    assert_eq!(model.agents.selected_profile, 0);
    assert_eq!(model.agents.pane, AgentsPane::List);
    assert_eq!(model.message.as_ref().unwrap().text, "No agent profile is selected.");
    assert_eq!(
        agent_effect_request(&mut model, &ControllerEffect::LoadAgentProfiles),
        AgentHostStep::RefreshNavigation
    );
}

#[test]
fn an_agent_answer_lands_in_the_agents_workspace() {
    let mut model = model();
    let listed = AgentProfilesView {
        profiles: vec![AgentProfileSummary {
            profile_id: AgentProfileId(1),
            profile_version_id: AgentProfileVersionId(11),
            version: 1,
            content_digest: ContentDigest(7),
        }],
        total_count: 1,
        returned_count: 1,
        truncated: false,
    };
    apply_agent_answer(
        &mut model,
        CommandOutcome {
            committed_audit: Vec::new(),
            view: CommandView::AgentProfiles(listed.clone()),
            shutdown: ShutdownDisposition::Continue,
        },
    );
    assert_eq!(model.agents.profiles, listed);
    assert!(!model.command_in_flight);
}
