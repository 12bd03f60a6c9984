use stock_forum_tui::controller::ControllerEffect;
use stock_forum_tui::domain::{
    AgentProfileId, AgentProfileSelector, AgentProfileVersionId, AgentProfileVersionRef,
    AgentProfilesView, ApplicationCommand, ContentDigest, DatabaseReadiness, InstallationId,
    MemoryEntryId, MemoryNamespaceId, MemoryProfileIdentityView, MemoryProposalId,
    PresentationSnapshot, ProcessGuardOwnership, ProfileTemplate, SessionId, SetupStatus,
    ShutdownReason,
};
use stock_forum_tui::error::{RuntimeError, TuiError};
use stock_forum_tui::host::{
    apply_memory_outcome, complete_memory_outcome, defer_navigation_refresh, host_step,
    memory_effect_request, open_profile_create, queue_memory_request,
    recover_memory_pending_error, refuse_memory_submission, HostStep, MemoryHostStep,
    TemplateChoice,
};
use stock_forum_tui::memory::{
    ExpectedEntryState, MemoryAnswer, MemoryConfirmation, MemoryEditReview, MemoryMutationKind,
    MemoryMutationResult, MemoryOutcomeIntent, MemoryPane,
};
use stock_forum_tui::model::TuiModel;
use stock_forum_tui::screen::{Focus, RuntimeStatus};
use stock_forum_tui::workspace::AgentsPane;

fn model() -> TuiModel {
    TuiModel::new(
        PresentationSnapshot {
            installation_id: InstallationId(1),
            session_id: SessionId(2),
            database_readiness: DatabaseReadiness::Ready,
            process_guard_ownership: ProcessGuardOwnership::Held,
            setup_status: SetupStatus::NotStarted,
            recent_audit: Vec::new(),
            agent_profiles: AgentProfilesView {
                profiles: Vec::new(),
                total_count: 0,
                returned_count: 0,
                truncated: false,
            },
            selected_agent_profile: None,
            selected_agent_profile_history: None,
        },
        false,
    )
}

fn profile() -> AgentProfileVersionRef {
    AgentProfileVersionRef {
        profile_id: AgentProfileId(1),
        profile_version_id: AgentProfileVersionId(2),
        version: 1,
        content_digest: ContentDigest(3),
    }
}

fn bound_model() -> TuiModel {
    let mut model = model();
    model
        .agents
        .memory
        .bind_profile(
            MemoryProfileIdentityView {
                profile: profile(),
                display_name: "analyst".to_owned(),
            },
            MemoryNamespaceId(9),
        )
        .unwrap();
    model
}

fn set_command() -> ApplicationCommand {
    ApplicationCommand::SetMemoryEntry {
        selector: AgentProfileSelector::Id(AgentProfileId(1)),
        key: "watchlist".to_owned(),
    }
}

#[test]
fn the_host_defers_warns_quits_and_routes() {
    let mut model = model();
    assert_eq!(
        host_step(&mut model, true, ControllerEffect::LoadSkills),
        HostStep::Defer(ControllerEffect::LoadSkills)
    );
    assert_eq!(
        host_step(&mut model, true, ControllerEffect::LoadSkill { selected_skill: 0 }),
        HostStep::Continue { redraw: true }
    );
    assert_eq!(
        model.message.as_ref().unwrap().text,
        "Another command is running; this action remains available to retry."
    );
    assert_eq!(
        host_step(&mut model, false, ControllerEffect::LoadSkill { selected_skill: 0 }),
        HostStep::Skill(ControllerEffect::LoadSkill { selected_skill: 0 })
    );
    assert_eq!(
        host_step(&mut model, false, ControllerEffect::LoadAgentMemory(AgentProfileSelector::Id(AgentProfileId(1)))),
        HostStep::Memory(ControllerEffect::LoadAgentMemory(AgentProfileSelector::Id(AgentProfileId(1))))
    );
    assert_eq!(
        host_step(&mut model, true, ControllerEffect::Submit(ApplicationCommand::RequestShutdown)),
        HostStep::QueueShutdown
    );
    assert_eq!(model.runtime_status, RuntimeStatus::Stopping);
    assert_eq!(
        host_step(&mut model, false, ControllerEffect::Submit(ApplicationCommand::RequestShutdown)),
        HostStep::Continue { redraw: false }
    );
    assert_eq!(
        host_step(&mut model, false, ControllerEffect::Submit(ApplicationCommand::ShowStatus)),
        HostStep::Continue { redraw: false }
    );
    let mut fresh = self::model();
    assert_eq!(
        host_step(&mut fresh, false, ControllerEffect::RequestShutdown(ShutdownReason::Interrupted)),
        HostStep::Finish(ShutdownReason::Interrupted)
    );
    assert_eq!(
        defer_navigation_refresh(Some(ControllerEffect::LoadSkills), ControllerEffect::LoadAgentProfiles),
        Some(ControllerEffect::LoadAgentProfiles)
    );
    assert_eq!(
        defer_navigation_refresh(Some(ControllerEffect::LoadAgentProfiles), ControllerEffect::LoadSkills),
        Some(ControllerEffect::LoadAgentProfiles)
    );
}

#[test]
fn memory_effects_become_requests_awaiting_their_answer() {
    let model = bound_model();
    assert_eq!(
        memory_effect_request(&model, &ControllerEffect::LoadMemoryProposal(MemoryProposalId(5))),
        Ok(MemoryHostStep::Queue {
            command: ApplicationCommand::ShowMemoryProposal {
                proposal_id: MemoryProposalId(5)
            },
            intent: MemoryOutcomeIntent::ProposalDetail(MemoryProposalId(5)),
        })
    );
    assert_eq!(
        memory_effect_request(
            &model,
            &ControllerEffect::LoadMemoryEntry {
                selector: AgentProfileSelector::Id(AgentProfileId(1)),
                key: "watchlist".to_owned()
            }
        ),
        Err(TuiError::MemoryState(stock_forum_tui::error::DomainError::MemorySelectionUnavailable))
    );
    assert_eq!(
        memory_effect_request(&model, &ControllerEffect::ExecuteMemory(ApplicationCommand::ShowStatus)),
        Err(TuiError::UnexpectedControllerEffect)
    );
}

#[test]
fn a_confirmed_change_is_queued_answered_and_completed() {
    let mut model = bound_model();
    let memory = &mut model.agents.memory;
    assert_eq!(
        queue_memory_request(memory, &set_command(), MemoryOutcomeIntent::Mutation),
        Err(TuiError::UnexpectedControllerEffect)
    );
    memory.edit_review = Some(MemoryEditReview {
        operation: MemoryMutationKind::SetEntry,
        namespace_id: MemoryNamespaceId(9),
        key: "watchlist".to_owned(),
        expected: ExpectedEntryState::Absent,
    });
    memory.confirmation = Some(MemoryConfirmation {
        command: set_command(),
        generation: memory.generation,
    });
    let generation = queue_memory_request(memory, &set_command(), MemoryOutcomeIntent::Mutation).unwrap();
    assert_eq!(memory.confirmation.as_ref().unwrap().generation, generation);
    let result = MemoryAnswer::Mutation(MemoryMutationResult {
        namespace_id: MemoryNamespaceId(9),
        key: "watchlist".to_owned(),
        present: true,
        entry_id: MemoryEntryId(7),
    });
    assert!(!apply_memory_outcome(memory, &MemoryOutcomeIntent::Mutation, generation + 1, result.clone()));
    assert!(apply_memory_outcome(memory, &MemoryOutcomeIntent::Mutation, generation, result.clone()));
    let reloads = complete_memory_outcome(memory, &MemoryOutcomeIntent::Mutation, &result).unwrap();
    assert_eq!(
        reloads,
        vec![ControllerEffect::LoadAgentMemory(AgentProfileSelector::Id(AgentProfileId(1)))]
    );
    assert_eq!(memory.pane, MemoryPane::Result);
    assert!(memory.edit_review.is_none() && memory.confirmation.is_none());
}

#[test]
fn a_refused_change_keeps_or_drops_its_review() {
    let mut model = bound_model();
    model.agents.memory.edit_review = Some(MemoryEditReview {
        operation: MemoryMutationKind::DeleteEntry,
        namespace_id: MemoryNamespaceId(9),
        key: "watchlist".to_owned(),
        expected: ExpectedEntryState::Present(MemoryEntryId(7)),
    });
    model.agents.memory.review_registered = true;
    let generation = model.agents.memory.begin_pending(MemoryOutcomeIntent::Mutation).unwrap();
    assert!(!recover_memory_pending_error(
        &mut model,
        &MemoryOutcomeIntent::Mutation,
        generation,
        &RuntimeError::Backpressure
    ));
    assert!(model.agents.memory.edit_review.is_some());
    let generation = model.agents.memory.begin_pending(MemoryOutcomeIntent::Mutation).unwrap();
    assert!(recover_memory_pending_error(
        &mut model,
        &MemoryOutcomeIntent::Mutation,
        generation,
        &RuntimeError::Closed
    ));
    assert!(model.agents.memory.edit_review.is_none());
    assert_eq!(model.agents.memory.pane, MemoryPane::EntryDetail);
    assert_eq!(
        model.message.as_ref().unwrap().text,
        "Memory review was cleared; request a fresh review."
    );

    let generation = model.agents.memory.begin_pending(MemoryOutcomeIntent::Entries).unwrap();
    assert_eq!(
        refuse_memory_submission(&mut model, &MemoryOutcomeIntent::Entries, generation, RuntimeError::Backpressure),
        Ok(())
    );
    assert_eq!(model.agents.memory.pending_intent, None);
}

#[test]
fn a_new_profile_opens_from_a_listed_template_only() {
    let templates = vec![
        ProfileTemplate { id: "analyst".to_owned() },
        ProfileTemplate { id: "trader".to_owned() },
    ];
    let mut model = model();
    model.command.insert('x');
    assert!(open_profile_create(&mut model, &templates, &TemplateChoice::Id("trader".to_owned())));
    assert_eq!(model.agents.pane, AgentsPane::Editor);
    assert!(model.agents.editor.is_some());
    assert_eq!(model.focus, Focus::Workspace);
    assert_eq!(model.command.text(), "");

    let mut other = self::model();
    assert!(!open_profile_create(&mut other, &templates, &TemplateChoice::Index(5)));
    assert_eq!(other.agents.pane, AgentsPane::List);
    assert_eq!(other.message.as_ref().unwrap().text, "Profile template is unavailable.");
}
