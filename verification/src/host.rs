//! Decisions the host makes around the commands it runs for the cockpit: which answer a
//! pending profile read awaits, when the skill library must be loaded for an agent, and
//! what a failed profile action leaves on screen.
use vstd::prelude::*;
use crate::controller::{
    agent_skills_shown, apply_outcome, outcome_applied, tab_shown, ControllerEffect,
};
use crate::domain::{
    AgentProfileHistoryEntry, AgentProfileHistoryView, AgentProfileId, AgentProfileSelector,
    AgentProfileSummary, AgentProfileVersionId, AgentProfileVersionView, AgentProfileView,
    AgentProfilesView, ApplicationCommand, CommandOutcome, CommandView, SkillVersionRef,
};
use crate::error::{AppError, DomainError, RuntimeError, TuiError};
use crate::memory::{
    MemoryAnswer, MemoryConfirmation, MemoryOutcomeIntent, MemoryPane, MemoryResolutionAction,
    MemoryResultOrigin, MemoryViewState, same_intent, intents_match,
};
use crate::error::{is_retryable, memory_submission_is_retryable};
use crate::domain::{ProfileTemplate, ShutdownReason, commands_match, same_command};
use crate::controller::focus_set;
use crate::screen::Focus;
use crate::workspace::ProfileEditorSession;
use crate::model::TuiModel;
use crate::screen::{NavigationTab, RuntimeStatus, Severity};
use crate::workspace::{
    AgentOutcomeIntent, AgentsPane, AgentsViewState, AssignmentKind, SkillOperationOrigin, SkillsPane,
    SkillsViewState,
};

verus! {

/// What a pending agent-profile read asks for.
#[derive(Debug, Clone, Copy, PartialEq, Eq, Structural)]
pub enum AgentProfileRead {
    Detail,
    History,
    Version(u64),
}

/// Whether `view` answers `read`: a profile answers a detail read, a history a history
/// read, and a historical version the read of exactly its version number.
pub open spec fn answers_read(read: AgentProfileRead, view: CommandView) -> bool {
    match (read, view) {
        (AgentProfileRead::Detail, CommandView::AgentProfile(_)) => true,
        (AgentProfileRead::History, CommandView::AgentProfileHistory(_)) => true,
        (AgentProfileRead::Version(expected), CommandView::AgentProfileVersion(version)) => version.profile.version
            == expected,
        _ => false,
    }
}

/// Whether `view` answers `read`; see `answers_read`.
pub fn profile_read_matches(read: AgentProfileRead, view: &CommandView) -> (matches: bool)
    ensures
        matches == answers_read(read, *view),
{
    match (read, view) {
        (AgentProfileRead::Detail, CommandView::AgentProfile(_)) => true,
        (AgentProfileRead::History, CommandView::AgentProfileHistory(_)) => true,
        (AgentProfileRead::Version(expected), CommandView::AgentProfileVersion(version)) => {
            version.profile.version == expected
        },
        _ => false,
    }
}

/// The skill library must be loaded for the agent shown: it never was, and the agent has
/// skills assigned.
pub open spec fn library_needed(model: TuiModel) -> bool {
    !model.skills.library_loaded && match model.agents.detail {
        Some(detail) => detail.skill_refs@.len() > 0,
        None => false,
    }
}

/// Whether the skill library must be loaded for the agent shown; see `library_needed`.
pub fn needs_agent_skill_library(model: &TuiModel) -> (needed: bool)
    ensures
        needed == library_needed(*model),
{
    !model.skills.library_loaded && match &model.agents.detail {
        Some(detail) => detail.skill_refs.len() > 0,
        None => false,
    }
}

/// The message a failed profile action leaves: a busy queue retains the draft, so does
/// an application refusal; anything else makes the action unavailable.
pub open spec fn profile_error_text(error: RuntimeError) -> Seq<char> {
    match error {
        RuntimeError::Backpressure => "Command queue is busy; draft retained."@,
        RuntimeError::Application(_) => "Profile action failed; draft retained."@,
        _ => "Profile action is unavailable."@,
    }
}

/// After a failed profile action: nothing is in flight, the agents workspace shows
/// `pane`, and an error message says what became of the draft (see
/// `profile_error_text`).
pub fn retain_profile_error(model: &mut TuiModel, error: &RuntimeError, pane: AgentsPane)
    ensures
        *final(model) == (TuiModel {
            command_in_flight: false,
            pending_outcome_navigation: None,
            agents: AgentsViewState { pane, ..old(model).agents },
            message: final(model).message,
            ..*old(model)
        }),
        final(model).message is Some,
        final(model).message->0.severity == Severity::Error,
        final(model).message->0.text@ == profile_error_text(*error),
{
    model.set_command_in_flight(false);
    model.agents.pane = pane;
    let message = match error {
        RuntimeError::Backpressure => "Command queue is busy; draft retained.".to_owned(),
        RuntimeError::Application(_) => "Profile action failed; draft retained.".to_owned(),
        _ => "Profile action is unavailable.".to_owned(),
    };
    model.set_message(Severity::Error, message);
}

/// What the host does for a skill effect: nothing; list the skill library (keeping the
/// navigation as it was); submit a command to show something, opening the editor on it
/// afterwards for a starter; submit a command for the skill assignment under review
/// (showing the agent picker afterwards when listing agents); ask for an assignment
/// preview; execute a confirmed command; or cancel the registered review.
#[derive(Debug, Clone, PartialEq, Eq)]
pub enum SkillHostStep {
    Nothing,
    LoadLibrary,
    Show { command: ApplicationCommand, starter: bool },
    ShowForAssignment { command: ApplicationCommand, picker: bool },
    PreviewAssignment {
        profile_id: AgentProfileId,
        expected_active_profile_version_id: AgentProfileVersionId,
        target: SkillVersionRef,
        assignment: AssignmentKind,
    },
    Execute(ApplicationCommand),
    CancelReview,
}

/// The step for `effect` in `model`; see `SkillHostStep`. A skill row that is not listed
/// asks for nothing, and an assignment the agent already has needs no preview.
pub open spec fn skill_step(model: TuiModel, effect: ControllerEffect) -> SkillHostStep {
    let skills = model.skills.library.skills@;
    match effect {
        ControllerEffect::LoadSkills => SkillHostStep::LoadLibrary,
        ControllerEffect::LoadSkill { selected_skill } => if selected_skill < skills.len() {
            SkillHostStep::Show {
                command: ApplicationCommand::ShowSkill {
                    skill_id: skills[selected_skill as int].skill_ref.skill_id,
                },
                starter: false,
            }
        } else {
            SkillHostStep::Nothing
        },
        ControllerEffect::LoadSkillStarter { selected_skill } => if selected_skill < skills.len() {
            SkillHostStep::Show {
                command: ApplicationCommand::ShowSkill {
                    skill_id: skills[selected_skill as int].skill_ref.skill_id,
                },
                starter: true,
            }
        } else {
            SkillHostStep::Nothing
        },
        ControllerEffect::LoadSkillHistory { skill_id } => SkillHostStep::Show {
            command: ApplicationCommand::ShowSkillHistory { skill_id },
            starter: false,
        },
        ControllerEffect::LoadSkillVersion { skill_id, version } => SkillHostStep::Show {
            command: ApplicationCommand::ShowSkillVersion { skill_id, version },
            starter: false,
        },
        ControllerEffect::LoadSkillAgents => SkillHostStep::ShowForAssignment {
            command: ApplicationCommand::ListAgentProfiles,
            picker: true,
        },
        ControllerEffect::LoadSkillAgent { profile_id } => SkillHostStep::ShowForAssignment {
            command: ApplicationCommand::ShowAgentProfile { selector: AgentProfileSelector::Id(profile_id) },
            picker: false,
        },
        ControllerEffect::RequestSkillAssignmentPreview {
            profile_id,
            expected_active_profile_version_id,
            target,
            assignment,
        } => if assignment == AssignmentKind::AlreadyAssigned {
            SkillHostStep::Nothing
        } else {
            SkillHostStep::PreviewAssignment {
                profile_id,
                expected_active_profile_version_id,
                target,
                assignment,
            }
        },
        ControllerEffect::ExecuteSkill(command) => SkillHostStep::Execute(command),
        ControllerEffect::CancelSkillReview => if model.skills.review_registered {
            SkillHostStep::CancelReview
        } else {
            SkillHostStep::Nothing
        },
        _ => SkillHostStep::Nothing,
    }
}

/// The text warning that no skill is selected.
pub open spec fn no_skill_text() -> Seq<char> {
    "No skill is selected."@
}

/// Decides what the host does for a skill effect; see `skill_step`. A row that is not
/// listed warns that no skill is selected; cancelling forgets the registered review;
/// nothing else changes.
pub fn skill_effect_request(model: &mut TuiModel, effect: &ControllerEffect) -> (step: SkillHostStep)
    ensures
        step == skill_step(*old(model), *effect),
        match *effect {
            ControllerEffect::LoadSkill { selected_skill } | ControllerEffect::LoadSkillStarter {
                selected_skill,
            } => if selected_skill < old(model).skills.library.skills@.len() {
                *final(model) == *old(model)
            } else {
                &&& *final(model) == (TuiModel { message: final(model).message, ..*old(model) })
                &&& final(model).message is Some
                &&& final(model).message->0.severity == Severity::Warning
                &&& final(model).message->0.text@ == no_skill_text()
            },
            ControllerEffect::CancelSkillReview => *final(model) == (TuiModel {
                skills: SkillsViewState { review_registered: false, ..old(model).skills },
                ..*old(model)
            }),
            _ => *final(model) == *old(model),
        },
{
    match effect {
        ControllerEffect::LoadSkills => SkillHostStep::LoadLibrary,
        ControllerEffect::LoadSkill { selected_skill } | ControllerEffect::LoadSkillStarter {
            selected_skill,
        } => {
            let starter = match effect {
                ControllerEffect::LoadSkillStarter { .. } => true,
                _ => false,
            };
            if *selected_skill < model.skills.library.skills.len() {
                let skill_id = model.skills.library.skills[*selected_skill].skill_ref.skill_id;
                SkillHostStep::Show { command: ApplicationCommand::ShowSkill { skill_id }, starter }
            } else {
                model.set_message(Severity::Warning, "No skill is selected.".to_owned());
                SkillHostStep::Nothing
            }
        },
        ControllerEffect::LoadSkillHistory { skill_id } => SkillHostStep::Show {
            command: ApplicationCommand::ShowSkillHistory { skill_id: *skill_id },
            starter: false,
        },
        ControllerEffect::LoadSkillVersion { skill_id, version } => SkillHostStep::Show {
            command: ApplicationCommand::ShowSkillVersion { skill_id: *skill_id, version: *version },
            starter: false,
        },
        ControllerEffect::LoadSkillAgents => SkillHostStep::ShowForAssignment {
            command: ApplicationCommand::ListAgentProfiles,
            picker: true,
        },
        ControllerEffect::LoadSkillAgent { profile_id } => SkillHostStep::ShowForAssignment {
            command: ApplicationCommand::ShowAgentProfile {
                selector: AgentProfileSelector::Id(*profile_id),
            },
            picker: false,
        },
        ControllerEffect::RequestSkillAssignmentPreview {
            profile_id,
            expected_active_profile_version_id,
            target,
            assignment,
        } => if *assignment == AssignmentKind::AlreadyAssigned {
            SkillHostStep::Nothing
        } else {
            SkillHostStep::PreviewAssignment {
                profile_id: *profile_id,
                expected_active_profile_version_id: *expected_active_profile_version_id,
                target: *target,
                assignment: *assignment,
            }
        },
        ControllerEffect::ExecuteSkill(command) => SkillHostStep::Execute(command.duplicate()),
        ControllerEffect::CancelSkillReview => {
            if model.skills.review_registered {
                model.skills.review_registered = false;
                SkillHostStep::CancelReview
            } else {
                SkillHostStep::Nothing
            }
        },
        _ => SkillHostStep::Nothing,
    }
}

/// The agent whose skills a command changes, if it is an assignment, an upgrade or an
/// unassignment.
pub open spec fn assigned_profile(command: ApplicationCommand) -> Option<AgentProfileId> {
    match command {
        ApplicationCommand::AssignAgentSkill { profile_id } => Some(profile_id),
        ApplicationCommand::UpgradeAgentSkill { profile_id } => Some(profile_id),
        ApplicationCommand::UnassignAgentSkill { profile_id } => Some(profile_id),
        _ => None,
    }
}

/// The agent whose skills `command` changes; see `assigned_profile`.
pub fn assignment_profile_id(command: &ApplicationCommand) -> (profile_id: Option<AgentProfileId>)
    ensures
        profile_id == assigned_profile(*command),
{
    match command {
        ApplicationCommand::AssignAgentSkill { profile_id } => Some(*profile_id),
        ApplicationCommand::UpgradeAgentSkill { profile_id } => Some(*profile_id),
        ApplicationCommand::UnassignAgentSkill { profile_id } => Some(*profile_id),
        _ => None,
    }
}

/// What the host does after a skill command's answer was applied.
#[derive(Debug, Clone, Copy, PartialEq, Eq, Structural)]
pub enum SkillFollowUp {
    Nothing,
    RefreshAgent(AgentProfileId),
    CancelReview,
}

/// `after` is `model` with nothing in flight and an error message of `text`.
pub open spec fn settled_with_error(model: TuiModel, text: Seq<char>, after: TuiModel) -> bool {
    &&& after == (TuiModel {
        command_in_flight: false,
        pending_outcome_navigation: None,
        message: after.message,
        ..model
    })
    &&& after.message is Some
    &&& after.message->0.severity == Severity::Error
    &&& after.message->0.text@ == text
}

/// The skills workspace once a failed skill action is recovered from: the review and
/// confirmation are dropped, and the editor is shown when one is open, else the detail.
pub open spec fn review_dropped(skills: SkillsViewState) -> SkillsViewState {
    SkillsViewState {
        review_registered: false,
        pending_confirmation: None,
        pane: if skills.editor is Some {
            SkillsPane::Editor
        } else {
            SkillsPane::Detail
        },
        ..skills
    }
}

/// `model` with the skills workspace's origin forgotten.
pub open spec fn origin_cleared(model: TuiModel) -> TuiModel {
    TuiModel { skills: SkillsViewState { workspace_origin: None, ..model.skills }, ..model }
}

/// Recovering from a failed skill action leads from `before` to `after`: the review is
/// dropped (see `review_dropped`); an action started from an agent's skill panel returns
/// there; nothing is in flight and the message says the review was cleared.
pub open spec fn skill_error_recovered(before: TuiModel, after: TuiModel) -> bool {
    let dropped = TuiModel { skills: review_dropped(before.skills), ..before };
    match before.skills.operation_origin {
        SkillOperationOrigin::AgentSkills { profile_id } => exists|shown: TuiModel|
            #[trigger] tab_shown(
                origin_cleared(dropped),
                NavigationTab::Agents,
                shown,
            ) && settled_with_error(
                TuiModel { agents: agent_skills_shown(shown.agents, profile_id), ..shown },
                "Skill action failed; review cleared."@,
                after,
            ),
        _ => settled_with_error(dropped, "Skill action failed; review cleared."@, after),
    }
}

/// Drops the review and confirmation of a failed skill action; see `review_dropped`.
fn drop_review(skills: &mut SkillsViewState)
    ensures
        *final(skills) == review_dropped(*old(skills)),
{
    skills.review_registered = false;
    skills.pending_confirmation = None;
    skills.pane = if skills.editor.is_some() {
        SkillsPane::Editor
    } else {
        SkillsPane::Detail
    };
}

/// Leaves the skills workspace for `profile_id`'s skill panel after a failed action.
fn return_to_agent_panel(model: &mut TuiModel, profile_id: AgentProfileId)
    ensures
        exists|shown: TuiModel|
            #[trigger] tab_shown(
                origin_cleared(*old(model)),
                NavigationTab::Agents,
                shown,
            ) && *final(model) == (TuiModel { agents: agent_skills_shown(shown.agents, profile_id), ..shown }),
{
    model.skills.workspace_origin = None;
    let ghost left = *model;
    model.select_view(crate::screen::View::Agents);
    let ghost shown = *model;
    model.agents.select_profile_id(profile_id);
    model.agents.skill_panel_open = true;
    assert(tab_shown(left, NavigationTab::Agents, shown));
}

/// Marks nothing in flight and shows that the failed skill action's review was cleared.
fn settle_failed_action(model: &mut TuiModel)
    ensures
        settled_with_error(*old(model), "Skill action failed; review cleared."@, *final(model)),
{
    model.set_command_in_flight(false);
    model.set_message(Severity::Error, "Skill action failed; review cleared.".to_owned());
}

/// Recovers from a failed skill action; see `skill_error_recovered`. Returns whether the
/// review registered with the application must be cancelled.
pub fn recover_skill_error(model: &mut TuiModel) -> (cancel_owed: bool)
    ensures
        cancel_owed == old(model).skills.review_registered,
        skill_error_recovered(*old(model), *final(model)),
{
    let cancel_owed = model.skills.review_registered;
    drop_review(&mut model.skills);
    match model.skills.operation_origin {
        SkillOperationOrigin::AgentSkills { profile_id } => {
            return_to_agent_panel(model, profile_id);
        },
        _ => {},
    }
    settle_failed_action(model);
    cancel_owed
}

/// Applying the result of executing a confirmed skill command leads from `before` to
/// `after` with `next`. Success applies the answer (see `outcome_applied`), clears the
/// review, confirmation, editor and assignment, shows the result pane with a completion
/// message, and asks to refresh the agent the command changed. A busy queue keeps the
/// review, confirmation, editor and pane for a retry and says so. An application refusal
/// recovers (see `skill_error_recovered`), cancelling a registered review. Any other
/// failure is handed back with nothing in flight.
pub open spec fn skill_submission_applied(
    before: TuiModel,
    affected: Option<AgentProfileId>,
    result: Result<CommandOutcome, RuntimeError>,
    next: Result<SkillFollowUp, RuntimeError>,
    after: TuiModel,
) -> bool {
    match result {
        Ok(outcome) => {
            &&& next == Ok::<SkillFollowUp, RuntimeError>(
                match affected {
                    Some(profile_id) => SkillFollowUp::RefreshAgent(profile_id),
                    None => SkillFollowUp::Nothing,
                },
            )
            &&& exists|answered: TuiModel, effect: ControllerEffect|
                #[trigger] outcome_applied(before, outcome, effect, answered) && after == (TuiModel {
                    skills: SkillsViewState {
                        review_registered: false,
                        pending_confirmation: None,
                        editor: None,
                        assignment: None,
                        pane: SkillsPane::Result,
                        ..answered.skills
                    },
                    message: after.message,
                    ..answered
                })
            &&& after.message is Some
            &&& after.message->0.severity == Severity::Info
            &&& after.message->0.text@ == "Skill action completed."@
        },
        Err(RuntimeError::Backpressure) => {
            &&& next == Ok::<SkillFollowUp, RuntimeError>(SkillFollowUp::Nothing)
            &&& settled_with_error(before, "Command queue is busy; review retained for retry."@, after)
        },
        Err(RuntimeError::Application(_)) => {
            &&& next == Ok::<SkillFollowUp, RuntimeError>(
                if before.skills.review_registered {
                    SkillFollowUp::CancelReview
                } else {
                    SkillFollowUp::Nothing
                },
            )
            &&& exists|released: TuiModel|
                #[trigger] skill_error_recovered(released, after) && released == (TuiModel {
                    command_in_flight: false,
                    pending_outcome_navigation: None,
                    ..before
                })
        },
        Err(error) => next == Err::<SkillFollowUp, RuntimeError>(error) && after == (TuiModel {
            command_in_flight: false,
            pending_outcome_navigation: None,
            ..before
        }),
    }
}

/// Applies the result of executing a confirmed skill command that changes the skills of
/// `affected`, if any; see `skill_submission_applied`.
pub fn apply_skill_submission(
    model: &mut TuiModel,
    affected: Option<AgentProfileId>,
    result: Result<CommandOutcome, RuntimeError>,
) -> (next: Result<SkillFollowUp, RuntimeError>)
    ensures
        skill_submission_applied(*old(model), affected, result, next, *final(model)),
{
    let ghost before = *model;
    let ghost whole = result;
    match result {
        Ok(outcome) => {
            let ghost applied = outcome;
            let effect = apply_outcome(model, outcome);
            let ghost answered = *model;
            assert(outcome_applied(before, applied, effect, answered));
            model.skills.review_registered = false;
            model.skills.pending_confirmation = None;
            model.skills.editor = None;
            model.skills.assignment = None;
            model.skills.pane = SkillsPane::Result;
            model.set_message(Severity::Info, "Skill action completed.".to_owned());
            Ok(
                match affected {
                    Some(profile_id) => SkillFollowUp::RefreshAgent(profile_id),
                    None => SkillFollowUp::Nothing,
                },
            )
        },
        Err(RuntimeError::Backpressure) => {
            model.set_command_in_flight(false);
            model.set_message(Severity::Error, "Command queue is busy; review retained for retry.".to_owned());
            Ok(SkillFollowUp::Nothing)
        },
        Err(RuntimeError::Application(_)) => {
            model.set_command_in_flight(false);
            let ghost released = *model;
            let cancel_owed = recover_skill_error(model);
            assert(skill_error_recovered(released, *model));
            Ok(
                if cancel_owed {
                    SkillFollowUp::CancelReview
                } else {
                    SkillFollowUp::Nothing
                },
            )
        },
        Err(error) => {
            model.set_command_in_flight(false);
            Err(error)
        },
    }
}

/// A skill workflow that could not be started leads from `before` to `after`: a busy
/// queue or an application refusal returns to the library with nothing in flight and a
/// message saying why; any other failure is handed back, changing nothing.
pub open spec fn skill_workflow_failure_applied(
    before: TuiModel,
    error: RuntimeError,
    next: Result<(), RuntimeError>,
    after: TuiModel,
) -> bool {
    match error {
        RuntimeError::Backpressure => next is Ok && settled_with_error(
            TuiModel { skills: SkillsViewState { pane: SkillsPane::List, ..before.skills }, ..before },
            "Command queue is busy; skill workflow was not started."@,
            after,
        ),
        RuntimeError::Application(_) => next is Ok && settled_with_error(
            TuiModel { skills: SkillsViewState { pane: SkillsPane::List, ..before.skills }, ..before },
            "Skill workflow could not be started."@,
            after,
        ),
        _ => next == Err::<(), RuntimeError>(error) && after == before,
    }
}

/// Applies the failure to start a skill workflow; see `skill_workflow_failure_applied`.
pub fn apply_skill_workflow_failure(model: &mut TuiModel, error: RuntimeError) -> (next: Result<
    (),
    RuntimeError,
>)
    ensures
        skill_workflow_failure_applied(*old(model), error, next, *final(model)),
{
    match error {
        RuntimeError::Backpressure => {
            model.skills.pane = SkillsPane::List;
            model.set_command_in_flight(false);
            model.set_message(
                Severity::Error,
                "Command queue is busy; skill workflow was not started.".to_owned(),
            );
            Ok(())
        },
        RuntimeError::Application(_) => {
            model.skills.pane = SkillsPane::List;
            model.set_command_in_flight(false);
            model.set_message(Severity::Error, "Skill workflow could not be started.".to_owned());
            Ok(())
        },
        _ => Err(error),
    }
}

/// After the skill a starter was asked for is shown, opens the editor on a new skill
/// seeded from it and empties the command line for the editor.
pub fn open_skill_starter(model: &mut TuiModel)
    ensures
        *final(model) == (TuiModel {
            skills: SkillsViewState {
                editor: Some(
                    crate::workspace::SkillEditorSession {
                        base: match old(model).skills.detail {
                            Some(detail) => Some(detail.skill_ref),
                            None => None,
                        },
                    },
                ),
                editor_origin: SkillsPane::CreateSource,
                pane: SkillsPane::Editor,
                pending_confirmation: None,
                ..old(model).skills
            },
            command: final(model).command,
            ..*old(model)
        }),
        final(model).command.text_view() == Seq::<char>::empty(),
        final(model).command.cursor_view() == 0,
        final(model).command.history_view() == old(model).command.history_view(),
        final(model).command.recall_index() == None::<usize>,
{
    let seed = match &model.skills.detail {
        Some(detail) => Some(detail.skill_ref),
        None => None,
    };
    model.skills.start_create(seed);
    model.command.clear();
}

/// What the host does for an agent-profile effect: nothing; refresh the skill library
/// and the profile list (keeping the navigation as it was); submit a command to show a
/// profile, its history or a version (loading the skill library afterwards where the
/// shown agent needs it); load the skill library; execute a confirmed command; or cancel
/// the review.
#[derive(Debug, Clone, PartialEq, Eq)]
pub enum AgentHostStep {
    Nothing,
    LoadTemplates(TemplateChoice),
    RefreshNavigation,
    Show { command: ApplicationCommand, then_library: bool },
    LoadSkillLibrary,
    Execute(ApplicationCommand),
    CancelReview,
}

/// Which template a new profile is to start from: by position or by identifier.
#[derive(Debug, Clone, PartialEq, Eq)]
pub enum TemplateChoice {
    Index(usize),
    Id(String),
}

/// The position of the first template with identifier `id`.
pub open spec fn template_position(templates: Seq<ProfileTemplate>, id: Seq<char>) -> Option<nat>
    decreases templates.len(),
{
    if templates.len() == 0 {
        None
    } else if templates[0].id@ == id {
        Some(0)
    } else {
        match template_position(templates.drop_first(), id) {
            Some(i) => Some(i + 1),
            None => None,
        }
    }
}

/// The template position a choice names, if it names one of `templates`.
pub open spec fn chosen_template(templates: Seq<ProfileTemplate>, choice: TemplateChoice) -> Option<nat> {
    match choice {
        TemplateChoice::Index(i) => if i < templates.len() {
            Some(i as nat)
        } else {
            None
        },
        TemplateChoice::Id(id) => template_position(templates, id@),
    }
}

/// The first position of the template with identifier `id`.
fn find_template(templates: &Vec<ProfileTemplate>, id: &String) -> (position: Option<usize>)
    ensures
        match position {
            Some(i) => template_position(templates@, id@) == Some(i as nat) && i < templates@.len(),
            None => template_position(templates@, id@) is None,
        },
{
    let mut i: usize = 0;
    assert(templates@.skip(0) =~= templates@);
    while i < templates.len()
        invariant
            i <= templates@.len(),
            forall|j: int| 0 <= j < i ==> templates@[j].id@ != id@,
            template_position(templates@, id@) == match template_position(templates@.skip(i as int), id@) {
                Some(k) => Some((k + i) as nat),
                None => None::<nat>,
            },
        decreases templates@.len() - i,
    {
        let ghost rest = templates@.skip(i as int);
        assert(rest.drop_first() =~= templates@.skip(i + 1));
        if templates[i].id == *id {
            return Some(i);
        }
        i = i + 1;
    }
    assert(templates@.skip(i as int).len() == 0);
    None
}

/// Opening the editor on a new profile once the templates are known leads from `before`
/// to `after`: with the chosen template the editor opens, the workspace is focused, the
/// command line emptied and the message hidden; without it the list is shown with a
/// warning that the template is unavailable.
pub open spec fn profile_create_started(
    before: TuiModel,
    templates: Seq<ProfileTemplate>,
    choice: TemplateChoice,
    started: bool,
    after: TuiModel,
) -> bool {
    match chosen_template(templates, choice) {
        Some(_) => {
            &&& started
            &&& focus_set(
                TuiModel {
                    agents: AgentsViewState {
                        editor: Some(ProfileEditorSession { profile_id: None }),
                        pane: AgentsPane::Editor,
                        ..before.agents
                    },
                    command: after.command,
                    message: None,
                    ..before
                },
                Focus::Workspace,
                after,
            )
            &&& after.command.text_view() == Seq::<char>::empty()
            &&& after.command.cursor_view() == 0
            &&& after.command.history_view() == before.command.history_view()
            &&& after.command.recall_index() == None::<usize>
        },
        None => {
            &&& !started
            &&& after == (TuiModel {
                agents: AgentsViewState { pane: AgentsPane::List, ..before.agents },
                message: after.message,
                ..before
            })
            &&& after.message is Some
            &&& after.message->0.severity == Severity::Warning
            &&& after.message->0.text@ == "Profile template is unavailable."@
        },
    }
}

/// Opens the editor on a new profile from the chosen one of `templates`; see
/// `profile_create_started`.
pub fn open_profile_create(model: &mut TuiModel, templates: &Vec<ProfileTemplate>, choice: &TemplateChoice) -> (started:
    bool)
    ensures
        profile_create_started(*old(model), templates@, *choice, started, *final(model)),
{
    let index = match choice {
        TemplateChoice::Index(i) => if *i < templates.len() {
            Some(*i)
        } else {
            None
        },
        TemplateChoice::Id(id) => find_template(templates, id),
    };
    match index {
        Some(i) => {
            model.agents.start_profile_create(i, templates);
            model.command.clear();
            model.clear_message();
            model.set_focus(Focus::Workspace);
            true
        },
        None => {
            model.agents.pane = AgentsPane::List;
            model.set_message(Severity::Warning, "Profile template is unavailable.".to_owned());
            false
        },
    }
}

/// The profile of list row `selected_profile`, if listed.
pub open spec fn row_profile(model: TuiModel, selected_profile: usize) -> Option<AgentProfileId> {
    if selected_profile < model.agents.profiles.profiles@.len() {
        Some(model.agents.profiles.profiles@[selected_profile as int].profile_id)
    } else {
        None
    }
}

/// The text warning that no agent profile is selected.
pub open spec fn no_profile_text() -> Seq<char> {
    "No agent profile is selected."@
}

/// After asking for a row that is not listed: the selection moves to the last row, the
/// list is shown, and a warning says no profile is selected.
pub open spec fn no_profile_warned(before: TuiModel, after: TuiModel) -> bool {
    &&& after == (TuiModel {
        agents: AgentsViewState {
            selected_profile: if before.agents.profiles.profiles@.len() > 0 {
                (before.agents.profiles.profiles@.len() - 1) as usize
            } else {
                0
            },
            pane: AgentsPane::List,
            ..before.agents
        },
        message: after.message,
        ..before
    })
    &&& after.message is Some
    &&& after.message->0.severity == Severity::Warning
    &&& after.message->0.text@ == no_profile_text()
}

/// The profile of list row `selected_profile`. When the row is not listed, the selection
/// moves to the last row, the list is shown, and a warning says no profile is selected.
pub fn selected_profile_id(model: &mut TuiModel, selected_profile: usize) -> (profile_id: Option<AgentProfileId>)
    ensures
        profile_id == row_profile(*old(model), selected_profile),
        profile_id is Some ==> *final(model) == *old(model),
        profile_id is None ==> no_profile_warned(*old(model), *final(model)),
{
    if selected_profile < model.agents.profiles.profiles.len() {
        return Some(model.agents.profiles.profiles[selected_profile].profile_id);
    }
    model.agents.selected_profile = model.agents.profiles.profiles.len().saturating_sub(1);
    model.agents.pane = AgentsPane::List;
    model.set_message(Severity::Warning, "No agent profile is selected.".to_owned());
    None
}

/// The step for agent-profile `effect` in `model`; see `AgentHostStep`. A row that is
/// not listed asks for nothing.
pub open spec fn agent_step(model: TuiModel, effect: ControllerEffect) -> AgentHostStep {
    match effect {
        ControllerEffect::LoadAgentProfiles => AgentHostStep::RefreshNavigation,
        ControllerEffect::LoadAgentProfile { selected_profile } | ControllerEffect::StartProfileEdit {
            selected_profile,
        } => match row_profile(model, selected_profile) {
            Some(profile_id) => AgentHostStep::Show {
                command: ApplicationCommand::ShowAgentProfile {
                    selector: AgentProfileSelector::Id(profile_id),
                },
                then_library: true,
            },
            None => AgentHostStep::Nothing,
        },
        ControllerEffect::LoadAgentProfileHistory { selected_profile } => match row_profile(
            model,
            selected_profile,
        ) {
            Some(profile_id) => AgentHostStep::Show {
                command: ApplicationCommand::ShowAgentProfileHistory {
                    selector: AgentProfileSelector::Id(profile_id),
                },
                then_library: false,
            },
            None => AgentHostStep::Nothing,
        },
        ControllerEffect::LoadAgentProfileVersion { profile_id, version } => AgentHostStep::Show {
            command: ApplicationCommand::ShowAgentProfileVersion {
                selector: AgentProfileSelector::Id(profile_id),
                version,
            },
            then_library: false,
        },
        ControllerEffect::StartProfileEditBySelector { selector } => AgentHostStep::Show {
            command: ApplicationCommand::ShowAgentProfile { selector },
            then_library: false,
        },
        ControllerEffect::LoadAgentSkillLibrary => AgentHostStep::LoadSkillLibrary,
        ControllerEffect::ExecuteProfile(command) => AgentHostStep::Execute(command),
        ControllerEffect::CancelProfileReview => AgentHostStep::CancelReview,
        ControllerEffect::StartProfileCreate { template_index } => AgentHostStep::LoadTemplates(
            TemplateChoice::Index(template_index),
        ),
        ControllerEffect::StartProfileCreateByTemplate { template_id } => AgentHostStep::LoadTemplates(
            TemplateChoice::Id(template_id),
        ),
        _ => AgentHostStep::Nothing,
    }
}

/// Decides what the host does for an agent-profile effect; see `agent_step`. A row that
/// is not listed warns as `selected_profile_id` does; nothing else changes.
pub fn agent_effect_request(model: &mut TuiModel, effect: &ControllerEffect) -> (step: AgentHostStep)
    ensures
        step == agent_step(*old(model), *effect),
        match *effect {
            ControllerEffect::LoadAgentProfile { selected_profile }
            | ControllerEffect::StartProfileEdit { selected_profile }
            | ControllerEffect::LoadAgentProfileHistory { selected_profile } => if row_profile(
                *old(model),
                selected_profile,
            ) is Some {
                *final(model) == *old(model)
            } else {
                no_profile_warned(*old(model), *final(model))
            },
            _ => *final(model) == *old(model),
        },
{
    match effect {
        ControllerEffect::LoadAgentProfiles => AgentHostStep::RefreshNavigation,
        ControllerEffect::LoadAgentProfile { selected_profile } | ControllerEffect::StartProfileEdit {
            selected_profile,
        } => match selected_profile_id(model, *selected_profile) {
            Some(profile_id) => AgentHostStep::Show {
                command: ApplicationCommand::ShowAgentProfile {
                    selector: AgentProfileSelector::Id(profile_id),
                },
                then_library: true,
            },
            None => AgentHostStep::Nothing,
        },
        ControllerEffect::LoadAgentProfileHistory { selected_profile } => match selected_profile_id(
            model,
            *selected_profile,
        ) {
            Some(profile_id) => AgentHostStep::Show {
                command: ApplicationCommand::ShowAgentProfileHistory {
                    selector: AgentProfileSelector::Id(profile_id),
                },
                then_library: false,
            },
            None => AgentHostStep::Nothing,
        },
        ControllerEffect::LoadAgentProfileVersion { profile_id, version } => AgentHostStep::Show {
            command: ApplicationCommand::ShowAgentProfileVersion {
                selector: AgentProfileSelector::Id(*profile_id),
                version: *version,
            },
            then_library: false,
        },
        ControllerEffect::StartProfileEditBySelector { selector } => AgentHostStep::Show {
            command: ApplicationCommand::ShowAgentProfile { selector: selector.duplicate() },
            then_library: false,
        },
        ControllerEffect::LoadAgentSkillLibrary => AgentHostStep::LoadSkillLibrary,
        ControllerEffect::ExecuteProfile(command) => AgentHostStep::Execute(command.duplicate()),
        ControllerEffect::CancelProfileReview => AgentHostStep::CancelReview,
        ControllerEffect::StartProfileCreate { template_index } => AgentHostStep::LoadTemplates(
            TemplateChoice::Index(*template_index),
        ),
        ControllerEffect::StartProfileCreateByTemplate { template_id } => AgentHostStep::LoadTemplates(
            TemplateChoice::Id(template_id.clone()),
        ),
        _ => AgentHostStep::Nothing,
    }
}

/// A confirmed skill action refused because the queue is busy keeps everything needed
/// to retry it: the skills workspace (confirmation, editor, assignment, review and pane),
/// the agents workspace and the command line are as they were; only the command in
/// flight and the message change.
pub proof fn law_busy_queue_keeps_the_review_for_retry(
    before: TuiModel,
    affected: Option<AgentProfileId>,
    next: Result<SkillFollowUp, RuntimeError>,
    after: TuiModel,
)
    requires
        skill_submission_applied(before, affected, Err(RuntimeError::Backpressure), next, after),
    ensures
        after.skills == before.skills,
        after.agents == before.agents,
        after.command == before.command,
        !after.command_in_flight,
        next == Ok::<SkillFollowUp, RuntimeError>(SkillFollowUp::Nothing),
{
}

/// The agent-profile part of an answer, kept to install it in the agents workspace.
#[derive(Debug, Clone, PartialEq, Eq)]
pub enum AgentAnswer {
    Profiles(AgentProfilesView),
    Profile(AgentProfileView),
    History(AgentProfileHistoryView),
    Version(AgentProfileVersionView),
}

/// The agent-profile part of `view`, if it has one.
pub open spec fn agent_answer_of(view: CommandView) -> Option<AgentAnswer> {
    match view {
        CommandView::AgentProfiles(profiles) => Some(AgentAnswer::Profiles(profiles)),
        CommandView::AgentProfile(profile) => Some(AgentAnswer::Profile(profile)),
        CommandView::AgentProfileHistory(history) => Some(AgentAnswer::History(history)),
        CommandView::AgentProfileVersion(version) => Some(AgentAnswer::Version(version)),
        _ => None,
    }
}

/// `after` is `before` with `answer` installed in the agents workspace as its
/// `replace_*` method installs it (refused while a protected memory workflow pins
/// another profile), and nothing else changed.
pub open spec fn agent_answer_installed(before: TuiModel, answer: Option<AgentAnswer>, after: TuiModel) -> bool {
    &&& after == (TuiModel { agents: after.agents, ..before })
    &&& match answer {
        Some(AgentAnswer::Profiles(profiles)) => exists|replaced: bool|
            #[trigger] before.agents.profiles_replaced(profiles, replaced, after.agents),
        Some(AgentAnswer::Profile(profile)) => exists|replaced: bool|
            #[trigger] before.agents.detail_replaced(profile, replaced, after.agents),
        Some(AgentAnswer::History(history)) => exists|replaced: bool|
            #[trigger] before.agents.history_replaced(history, replaced, after.agents),
        Some(AgentAnswer::Version(version)) => exists|replaced: bool|
            #[trigger] before.agents.version_detail_replaced(version, replaced, after.agents),
        None => after == before,
    }
}

/// A copy of a row list of agent profiles.
fn copy_profiles(rows: &Vec<AgentProfileSummary>) -> (copy: Vec<AgentProfileSummary>)
    ensures
        copy@ == rows@,
{
    let mut copy: Vec<AgentProfileSummary> = Vec::new();
    let mut i: usize = 0;
    while i < rows.len()
        invariant
            i <= rows@.len(),
            copy@ == rows@.take(i as int),
        decreases rows@.len() - i,
    {
        copy.push(rows[i]);
        i = i + 1;
        assert(copy@ =~= rows@.take(i as int));
    }
    assert(rows@.take(i as int) =~= rows@);
    copy
}

/// A copy of a list of skill versions.
fn copy_skill_refs(refs: &Vec<SkillVersionRef>) -> (copy: Vec<SkillVersionRef>)
    ensures
        copy@ == refs@,
{
    let mut copy: Vec<SkillVersionRef> = Vec::new();
    let mut i: usize = 0;
    while i < refs.len()
        invariant
            i <= refs@.len(),
            copy@ == refs@.take(i as int),
        decreases refs@.len() - i,
    {
        copy.push(refs[i]);
        i = i + 1;
        assert(copy@ =~= refs@.take(i as int));
    }
    assert(refs@.take(i as int) =~= refs@);
    copy
}

/// A copy of the rows of a profile history.
fn copy_history_rows(rows: &Vec<AgentProfileHistoryEntry>) -> (copy: Vec<AgentProfileHistoryEntry>)
    ensures
        copy@ == rows@,
{
    let mut copy: Vec<AgentProfileHistoryEntry> = Vec::new();
    let mut i: usize = 0;
    while i < rows.len()
        invariant
            i <= rows@.len(),
            copy@ == rows@.take(i as int),
        decreases rows@.len() - i,
    {
        copy.push(rows[i]);
        i = i + 1;
        assert(copy@ =~= rows@.take(i as int));
    }
    assert(rows@.take(i as int) =~= rows@);
    copy
}

/// The agent-profile part of `view`; see `agent_answer_of`. Lists are copied entry by
/// entry, so the copy has the same views.
fn agent_answer(view: &CommandView) -> (answer: Option<AgentAnswer>)
    ensures
        match (answer, agent_answer_of(*view)) {
            (Some(AgentAnswer::Profiles(a)), Some(AgentAnswer::Profiles(b))) => a.profiles@ == b.profiles@
                && a.total_count == b.total_count && a.returned_count == b.returned_count
                && a.truncated == b.truncated,
            (Some(AgentAnswer::Profile(a)), Some(AgentAnswer::Profile(b))) => a.profile == b.profile
                && a.skill_refs@ == b.skill_refs@,
            (Some(AgentAnswer::History(a)), Some(AgentAnswer::History(b))) => a.profile_id == b.profile_id
                && a.active_version_id == b.active_version_id && a.versions@ == b.versions@,
            (Some(AgentAnswer::Version(a)), Some(AgentAnswer::Version(b))) => a == b,
            (None, None) => true,
            _ => false,
        },
{
    match view {
        CommandView::AgentProfiles(profiles) => Some(
            AgentAnswer::Profiles(
                AgentProfilesView {
                    profiles: copy_profiles(&profiles.profiles),
                    total_count: profiles.total_count,
                    returned_count: profiles.returned_count,
                    truncated: profiles.truncated,
                },
            ),
        ),
        CommandView::AgentProfile(profile) => Some(
            AgentAnswer::Profile(
                AgentProfileView { profile: profile.profile, skill_refs: copy_skill_refs(&profile.skill_refs) },
            ),
        ),
        CommandView::AgentProfileHistory(history) => Some(
            AgentAnswer::History(
                AgentProfileHistoryView {
                    profile_id: history.profile_id,
                    active_version_id: history.active_version_id,
                    versions: copy_history_rows(&history.versions),
                },
            ),
        ),
        CommandView::AgentProfileVersion(version) => Some(AgentAnswer::Version(*version)),
        _ => None,
    }
}

/// Installs profiles in the agents workspace; see `agent_answer_installed`.
fn install_profiles(model: &mut TuiModel, profiles: AgentProfilesView)
    ensures
        agent_answer_installed(*old(model), Some(AgentAnswer::Profiles(profiles)), *final(model)),
{
    let ghost before = *model;
    let ghost given = profiles;
    let replaced = model.agents.replace_profiles(profiles);
    assert(before.agents.profiles_replaced(given, replaced, model.agents));
    assert(*model == (TuiModel { agents: model.agents, ..before }));
    let ghost answer = Some(AgentAnswer::Profiles(given));
    assert(match answer {
        Some(AgentAnswer::Profiles(p)) => p == given,
        _ => false,
    });
    assert(agent_answer_installed(before, answer, *model));
}

/// Installs profile in the agents workspace; see `agent_answer_installed`.
fn install_profile(model: &mut TuiModel, profile: AgentProfileView)
    ensures
        agent_answer_installed(*old(model), Some(AgentAnswer::Profile(profile)), *final(model)),
{
    let ghost before = *model;
    let ghost given = profile;
    let replaced = model.agents.replace_detail(profile);
    assert(before.agents.detail_replaced(given, replaced, model.agents));
    assert(*model == (TuiModel { agents: model.agents, ..before }));
    let ghost answer = Some(AgentAnswer::Profile(given));
    assert(match answer {
        Some(AgentAnswer::Profile(p)) => p == given,
        _ => false,
    });
    assert(agent_answer_installed(before, answer, *model));
}

/// Installs history in the agents workspace; see `agent_answer_installed`.
fn install_history(model: &mut TuiModel, history: AgentProfileHistoryView)
    ensures
        agent_answer_installed(*old(model), Some(AgentAnswer::History(history)), *final(model)),
{
    let ghost before = *model;
    let ghost given = history;
    let replaced = model.agents.replace_history(history);
    assert(before.agents.history_replaced(given, replaced, model.agents));
    assert(*model == (TuiModel { agents: model.agents, ..before }));
    let ghost answer = Some(AgentAnswer::History(given));
    assert(match answer {
        Some(AgentAnswer::History(p)) => p == given,
        _ => false,
    });
    assert(agent_answer_installed(before, answer, *model));
}

/// Installs version in the agents workspace; see `agent_answer_installed`.
fn install_version(model: &mut TuiModel, version: AgentProfileVersionView)
    ensures
        agent_answer_installed(*old(model), Some(AgentAnswer::Version(version)), *final(model)),
{
    let ghost before = *model;
    let ghost given = version;
    let replaced = model.agents.replace_version_detail(version);
    assert(before.agents.version_detail_replaced(given, replaced, model.agents));
    assert(*model == (TuiModel { agents: model.agents, ..before }));
    let ghost answer = Some(AgentAnswer::Version(given));
    assert(match answer {
        Some(AgentAnswer::Version(p)) => p == given,
        _ => false,
    });
    assert(agent_answer_installed(before, answer, *model));
}

/// Installs an agent-profile answer in the agents workspace; see
/// `agent_answer_installed`.
fn install_agent_answer(model: &mut TuiModel, answer: Option<AgentAnswer>)
    ensures
        agent_answer_installed(*old(model), answer, *final(model)),
{
    match answer {
        Some(AgentAnswer::Profiles(profiles)) => install_profiles(model, profiles),
        Some(AgentAnswer::Profile(profile)) => install_profile(model, profile),
        Some(AgentAnswer::History(history)) => install_history(model, history),
        Some(AgentAnswer::Version(version)) => install_version(model, version),
        None => {},
    }
}

/// Applying the answer to an agent-profile command the host ran leads from `before` to
/// `after`: the answer is applied as any answer is (see `outcome_applied`), then its
/// profile list, profile, history or version is installed in the agents workspace
/// again, whichever workspace awaited it (see `agent_answer_installed`).
pub open spec fn agent_answer_applied(before: TuiModel, outcome: CommandOutcome, after: TuiModel) -> bool {
    exists|answered: TuiModel, effect: ControllerEffect, answer: Option<AgentAnswer>|
        #[trigger] outcome_applied(before, outcome, effect, answered) && #[trigger] agent_answer_installed(
            answered,
            answer,
            after,
        ) && match (answer, agent_answer_of(outcome.view)) {
            (Some(AgentAnswer::Profiles(a)), Some(AgentAnswer::Profiles(b))) => a.profiles@ == b.profiles@
                && a.total_count == b.total_count && a.returned_count == b.returned_count
                && a.truncated == b.truncated,
            (Some(AgentAnswer::Profile(a)), Some(AgentAnswer::Profile(b))) => a.profile == b.profile
                && a.skill_refs@ == b.skill_refs@,
            (Some(AgentAnswer::History(a)), Some(AgentAnswer::History(b))) => a.profile_id == b.profile_id
                && a.active_version_id == b.active_version_id && a.versions@ == b.versions@,
            (Some(AgentAnswer::Version(a)), Some(AgentAnswer::Version(b))) => a == b,
            (None, None) => true,
            _ => false,
        }
}

/// Applies the answer to an agent-profile command the host ran; see
/// `agent_answer_applied`.
pub fn apply_agent_answer(model: &mut TuiModel, outcome: CommandOutcome)
    ensures
        agent_answer_applied(*old(model), outcome, *final(model)),
{
    let ghost before = *model;
    let ghost whole = outcome;
    let answer = agent_answer(&outcome.view);
    let ghost kept = answer;
    let effect = apply_outcome(model, outcome);
    let ghost answered = *model;
    install_agent_answer(model, answer);
    assert(outcome_applied(before, whole, effect, answered));
    assert(agent_answer_installed(answered, kept, *model));
}

/// A memory change request: a confirmed change or a proposal resolution.
pub open spec fn is_change(intent: MemoryOutcomeIntent) -> bool {
    intent is Mutation || intent is Resolution
}

/// Queueing `command` for `intent` leads from `before` to `after` with `result`. A change
/// must be the confirmed command of the current generation, else it is refused as an
/// unexpected effect. Then a new generation begins with `intent` pending (refused on
/// overflow), which a change's confirmation is tied to. A refusal changes nothing.
pub open spec fn memory_queued(
    before: MemoryViewState,
    command: ApplicationCommand,
    intent: MemoryOutcomeIntent,
    result: Result<u64, TuiError>,
    after: MemoryViewState,
) -> bool {
    if is_change(intent) && !(before.confirmed() is Some && same_command(before.confirmed()->0, command)) {
        result == Err::<u64, TuiError>(TuiError::UnexpectedControllerEffect) && after == before
    } else if before.generation == u64::MAX {
        result == Err::<u64, TuiError>(TuiError::MemoryState(DomainError::MemoryGenerationOverflow))
            && after == before
    } else {
        let generation = (before.generation + 1) as u64;
        &&& result == Ok::<u64, TuiError>(generation)
        &&& after == (MemoryViewState {
            generation,
            pending_intent: Some(intent),
            confirmation: if is_change(intent) {
                Some(MemoryConfirmation { command: before.confirmation->0.command, generation })
            } else {
                before.confirmation
            },
            ..before
        })
    }
}

/// Begins a memory request for `command` and `intent`; see `memory_queued`. The host
/// then submits the command.
pub fn queue_memory_request(
    memory: &mut MemoryViewState,
    command: &ApplicationCommand,
    intent: MemoryOutcomeIntent,
) -> (generation: Result<u64, TuiError>)
    ensures
        memory_queued(*old(memory), *command, intent, generation, *final(memory)),
{
    let change = match intent {
        MemoryOutcomeIntent::Mutation | MemoryOutcomeIntent::Resolution => true,
        _ => false,
    };
    if change {
        match memory.confirmed_command() {
            Some(confirmed) => if !commands_match(&confirmed, command) {
                return Err(TuiError::UnexpectedControllerEffect);
            },
            None => return Err(TuiError::UnexpectedControllerEffect),
        }
    }
    let generation = match memory.begin_pending(intent) {
        Ok(generation) => generation,
        Err(error) => return Err(TuiError::MemoryState(error)),
    };
    if change {
        memory.confirmation = match &memory.confirmation {
            Some(confirmation) => Some(MemoryConfirmation { command: confirmation.command.duplicate(), generation }),
            None => None,
        };
    }
    Ok(generation)
}

/// After the host could not submit the memory request of `intent` and `generation`:
/// nothing is in flight and the request is no longer pending; a busy queue leaves the
/// action to retry with a warning, any other failure is handed back.
pub open spec fn memory_submission_refused(
    before: TuiModel,
    intent: MemoryOutcomeIntent,
    generation: u64,
    error: RuntimeError,
    result: Result<(), TuiError>,
    after: TuiModel,
) -> bool {
    let released = TuiModel { command_in_flight: false, pending_outcome_navigation: None, ..before };
    let cleared = TuiModel {
        agents: AgentsViewState {
            memory: if before.agents.memory.generation == generation && match before.agents.memory.pending_intent {
                Some(pending) => same_intent(pending, intent),
                None => false,
            } {
                MemoryViewState { pending_intent: None, ..before.agents.memory }
            } else {
                before.agents.memory
            },
            ..before.agents
        },
        ..released
    };
    match error {
        RuntimeError::Backpressure => {
            &&& result is Ok
            &&& after == (TuiModel { message: after.message, ..cleared })
            &&& after.message is Some
            &&& after.message->0.severity == Severity::Warning
            &&& after.message->0.text@
                == "Another command is running; this memory action remains available to retry."@
        },
        _ => result == Err::<(), TuiError>(TuiError::Runtime(error)) && after == cleared,
    }
}

/// Applies the failure to submit a memory request; see `memory_submission_refused`.
pub fn refuse_memory_submission(
    model: &mut TuiModel,
    intent: &MemoryOutcomeIntent,
    generation: u64,
    error: RuntimeError,
) -> (result: Result<(), TuiError>)
    ensures
        memory_submission_refused(*old(model), *intent, generation, error, result, *final(model)),
{
    model.set_command_in_flight(false);
    model.agents.memory.clear_pending_if(intent, generation);
    match error {
        RuntimeError::Backpressure => {
            model.set_message(
                Severity::Warning,
                "Another command is running; this memory action remains available to retry.".to_owned(),
            );
            Ok(())
        },
        _ => Err(TuiError::Runtime(error)),
    }
}

/// The request a confirmed memory command makes: a change for a set or delete, a
/// resolution for an approval or rejection; anything else is unexpected.
pub open spec fn mutation_intent(command: ApplicationCommand) -> Result<MemoryOutcomeIntent, TuiError> {
    match command {
        ApplicationCommand::SetMemoryEntry { .. } | ApplicationCommand::DeleteMemoryEntry { .. } => Ok(
            MemoryOutcomeIntent::Mutation,
        ),
        ApplicationCommand::ApproveMemoryProposal { .. } | ApplicationCommand::RejectMemoryProposal {
            ..
        } => Ok(MemoryOutcomeIntent::Resolution),
        _ => Err(TuiError::UnexpectedControllerEffect),
    }
}

/// The request a confirmed memory command makes; see `mutation_intent`.
pub fn memory_mutation_intent(command: &ApplicationCommand) -> (intent: Result<MemoryOutcomeIntent, TuiError>)
    ensures
        intent == mutation_intent(*command),
{
    match command {
        ApplicationCommand::SetMemoryEntry { .. } | ApplicationCommand::DeleteMemoryEntry { .. } => Ok(
            MemoryOutcomeIntent::Mutation,
        ),
        ApplicationCommand::ApproveMemoryProposal { .. } | ApplicationCommand::RejectMemoryProposal {
            ..
        } => Ok(MemoryOutcomeIntent::Resolution),
        _ => Err(TuiError::UnexpectedControllerEffect),
    }
}

/// What the host does for a memory effect: queue a command awaiting an answer of the
/// given kind, or cancel the registered review.
#[derive(Debug, Clone, PartialEq, Eq)]
pub enum MemoryHostStep {
    Queue { command: ApplicationCommand, intent: MemoryOutcomeIntent },
    CancelReview,
}

/// The step for memory `effect`: reads of entries, an entry, its history or a version,
/// of proposals or a proposal, of summaries or a summary are queued with the answer they
/// await (an entry or its history only for the selected entry of a trusted page); a
/// confirmed change is queued as a change or a resolution; cancelling cancels the
/// review; any other effect is unexpected.
pub open spec fn memory_step(model: TuiModel, effect: ControllerEffect) -> Result<MemoryHostStep, TuiError> {
    let selected = model.agents.memory.authentic_selection();
    match effect {
        ControllerEffect::LoadAgentMemory(selector) => Ok(
            MemoryHostStep::Queue {
                command: ApplicationCommand::ListMemoryEntries { selector },
                intent: MemoryOutcomeIntent::Entries,
            },
        ),
        ControllerEffect::LoadMemoryEntry { selector, key } => match selected {
            Some(entry) => Ok(
                MemoryHostStep::Queue {
                    command: ApplicationCommand::ShowMemoryEntry { selector, display_key: key },
                    intent: MemoryOutcomeIntent::EntryDetail(entry.entry_id),
                },
            ),
            None => Err(TuiError::MemoryState(DomainError::MemorySelectionUnavailable)),
        },
        ControllerEffect::LoadMemoryEntryHistory { selector, key } => match selected {
            Some(entry) => Ok(
                MemoryHostStep::Queue {
                    command: ApplicationCommand::ShowMemoryEntryHistory { selector, display_key: key },
                    intent: MemoryOutcomeIntent::EntryHistory(entry.entry_id),
                },
            ),
            None => Err(TuiError::MemoryState(DomainError::MemorySelectionUnavailable)),
        },
        ControllerEffect::LoadMemoryEntryVersion { selector, key, version, expected_entry_version_id } => Ok(
            MemoryHostStep::Queue {
                command: ApplicationCommand::ShowMemoryEntryVersion { selector, display_key: key, version },
                intent: MemoryOutcomeIntent::EntryVersion {
                    selector,
                    key,
                    version,
                    entry_version_id: expected_entry_version_id,
                },
            },
        ),
        ControllerEffect::LoadMemoryProposals { selector } => Ok(
            MemoryHostStep::Queue {
                command: ApplicationCommand::ListMemoryProposals { selector },
                intent: MemoryOutcomeIntent::Proposals,
            },
        ),
        ControllerEffect::LoadMemoryProposal(proposal_id) => Ok(
            MemoryHostStep::Queue {
                command: ApplicationCommand::ShowMemoryProposal { proposal_id },
                intent: MemoryOutcomeIntent::ProposalDetail(proposal_id),
            },
        ),
        ControllerEffect::LoadEpisodicSummaries(selector) => Ok(
            MemoryHostStep::Queue {
                command: ApplicationCommand::ListEpisodicSummaries { selector },
                intent: MemoryOutcomeIntent::Episodes,
            },
        ),
        ControllerEffect::LoadEpisodicSummary(summary_id) => Ok(
            MemoryHostStep::Queue {
                command: ApplicationCommand::ShowEpisodicSummary { summary_id },
                intent: MemoryOutcomeIntent::EpisodeDetail(summary_id),
            },
        ),
        ControllerEffect::ExecuteMemory(command) => match mutation_intent(command) {
            Ok(intent) => Ok(MemoryHostStep::Queue { command, intent }),
            Err(error) => Err(error),
        },
        ControllerEffect::CancelMemoryReview => Ok(MemoryHostStep::CancelReview),
        _ => Err(TuiError::UnexpectedControllerEffect),
    }
}

/// Decides what the host does for a memory effect; see `memory_step`.
pub fn memory_effect_request(model: &TuiModel, effect: &ControllerEffect) -> (step: Result<
    MemoryHostStep,
    TuiError,
>)
    ensures
        step == memory_step(*model, *effect),
{
    match effect {
        ControllerEffect::LoadAgentMemory(selector) => Ok(
            MemoryHostStep::Queue {
                command: ApplicationCommand::ListMemoryEntries { selector: selector.duplicate() },
                intent: MemoryOutcomeIntent::Entries,
            },
        ),
        ControllerEffect::LoadMemoryEntry { selector, key } => match model.agents.memory.selected_entry_id() {
            Ok(entry_id) => Ok(
                MemoryHostStep::Queue {
                    command: ApplicationCommand::ShowMemoryEntry {
                        selector: selector.duplicate(),
                        display_key: key.clone(),
                    },
                    intent: MemoryOutcomeIntent::EntryDetail(entry_id),
                },
            ),
            Err(error) => Err(TuiError::MemoryState(error)),
        },
        ControllerEffect::LoadMemoryEntryHistory { selector, key } => match model.agents.memory.selected_entry_id() {
            Ok(entry_id) => Ok(
                MemoryHostStep::Queue {
                    command: ApplicationCommand::ShowMemoryEntryHistory {
                        selector: selector.duplicate(),
                        display_key: key.clone(),
                    },
                    intent: MemoryOutcomeIntent::EntryHistory(entry_id),
                },
            ),
            Err(error) => Err(TuiError::MemoryState(error)),
        },
        ControllerEffect::LoadMemoryEntryVersion { selector, key, version, expected_entry_version_id } => Ok(
            MemoryHostStep::Queue {
                command: ApplicationCommand::ShowMemoryEntryVersion {
                    selector: selector.duplicate(),
                    display_key: key.clone(),
                    version: *version,
                },
                intent: MemoryOutcomeIntent::EntryVersion {
                    selector: selector.duplicate(),
                    key: key.clone(),
                    version: *version,
                    entry_version_id: *expected_entry_version_id,
                },
            },
        ),
        ControllerEffect::LoadMemoryProposals { selector } => Ok(
            MemoryHostStep::Queue {
                command: ApplicationCommand::ListMemoryProposals { selector: selector.duplicate() },
                intent: MemoryOutcomeIntent::Proposals,
            },
        ),
        ControllerEffect::LoadMemoryProposal(proposal_id) => Ok(
            MemoryHostStep::Queue {
                command: ApplicationCommand::ShowMemoryProposal { proposal_id: *proposal_id },
                intent: MemoryOutcomeIntent::ProposalDetail(*proposal_id),
            },
        ),
        ControllerEffect::LoadEpisodicSummaries(selector) => Ok(
            MemoryHostStep::Queue {
                command: ApplicationCommand::ListEpisodicSummaries { selector: selector.duplicate() },
                intent: MemoryOutcomeIntent::Episodes,
            },
        ),
        ControllerEffect::LoadEpisodicSummary(summary_id) => Ok(
            MemoryHostStep::Queue {
                command: ApplicationCommand::ShowEpisodicSummary { summary_id: *summary_id },
                intent: MemoryOutcomeIntent::EpisodeDetail(*summary_id),
            },
        ),
        ControllerEffect::ExecuteMemory(command) => match memory_mutation_intent(command) {
            Ok(intent) => Ok(MemoryHostStep::Queue { command: command.duplicate(), intent }),
            Err(error) => Err(error),
        },
        ControllerEffect::CancelMemoryReview => Ok(MemoryHostStep::CancelReview),
        _ => Err(TuiError::UnexpectedControllerEffect),
    }
}

/// What the host does with an effect: carry on (redrawing or not); finish at once with
/// a reason; keep a navigation refresh for when the running command has answered;
/// submit the shutdown request now or once the running command has answered; submit a
/// command; run an agent-profile, skill or memory effect; or hand the effect on (to the
/// command-line parser or an open editor).
#[derive(Debug, Clone, PartialEq, Eq)]
pub enum HostStep {
    Continue { redraw: bool },
    Finish(ShutdownReason),
    Defer(ControllerEffect),
    SubmitShutdown,
    QueueShutdown,
    Submit(ApplicationCommand),
    Agent(ControllerEffect),
    Skill(ControllerEffect),
    Memory(ControllerEffect),
    Hand(ControllerEffect),
}

/// Effects that refresh the navigation data: the agent profiles and the skill library.
pub open spec fn is_navigation_refresh(effect: ControllerEffect) -> bool {
    effect is LoadAgentProfiles || effect is LoadSkills
}

/// The user asks for the auditable shutdown: `/quit`, or quitting.
pub open spec fn is_user_quit(effect: ControllerEffect) -> bool {
    match effect {
        ControllerEffect::Submit(ApplicationCommand::RequestShutdown) => true,
        ControllerEffect::RequestShutdown(ShutdownReason::UserQuit) => true,
        _ => false,
    }
}

/// Effects that send a command to the application and therefore wait while another
/// command runs: every effect but doing nothing, redrawing, shutting down, handing on,
/// and the navigation refreshes.
pub open spec fn is_blocked_while_pending(effect: ControllerEffect) -> bool {
    !(effect is Nothing || effect is Redraw || effect is RequestShutdown || effect is ParseCommandLine
        || effect is ProfileEditorKey || effect is SkillEditorKey || is_navigation_refresh(effect)
        || is_user_quit(effect))
}

/// An effect the agent-profile host step runs.
pub open spec fn is_agent_effect(effect: ControllerEffect) -> bool {
    effect is LoadAgentProfiles || effect is LoadAgentProfile || effect is LoadAgentProfileHistory || effect is LoadAgentProfileVersion || effect is LoadAgentSkillLibrary || effect is StartProfileCreate || effect is StartProfileEdit || effect is StartProfileCreateByTemplate || effect is StartProfileEditBySelector || effect is ExecuteProfile || effect is CancelProfileReview
}

/// An effect the skill host step runs.
pub open spec fn is_skill_effect(effect: ControllerEffect) -> bool {
    effect is LoadSkills || effect is StartSkillWorkflow || effect is LoadSkill || effect is LoadSkillHistory || effect is LoadSkillVersion || effect is LoadSkillStarter || effect is LoadSkillAgents || effect is LoadSkillAgent || effect is RequestSkillAssignmentPreview || effect is ExecuteSkill || effect is CancelSkillReview
}

/// An effect the memory host step runs.
pub open spec fn is_memory_effect(effect: ControllerEffect) -> bool {
    effect is LoadAgentMemory || effect is LoadMemoryEntry || effect is LoadMemoryEntryHistory || effect is LoadMemoryEntryVersion || effect is LoadMemoryProposals || effect is LoadMemoryProposal || effect is LoadEpisodicSummaries || effect is LoadEpisodicSummary || effect is ExecuteMemory || effect is CancelMemoryReview
}

/// The message shown when an action waits for the running command.
pub open spec fn pending_interaction_text() -> Seq<char> {
    "Another command is running; this action remains available to retry."@
}

/// The step for `effect` in `before`, with `pending` telling whether a command is
/// running, and the model `after` it leaves. While a command runs, a navigation refresh
/// is kept for later and an effect that sends a command only warns. Otherwise: doing
/// nothing and redrawing carry on; the user's quit asks for the auditable shutdown once
/// (marking the runtime as stopping, and queueing the request behind a running command),
/// and is ignored while stopping; any other shutdown finishes at once, marking the
/// runtime as stopping; a command is submitted unless stopping; the agent-profile, skill
/// and memory effects go to their steps; the rest is handed on.
pub open spec fn host_step_taken(
    before: TuiModel,
    pending: bool,
    effect: ControllerEffect,
    step: HostStep,
    after: TuiModel,
) -> bool {
    let stopping = before.runtime_status == RuntimeStatus::Stopping;
    let stopped = TuiModel { runtime_status: RuntimeStatus::Stopping, ..before };
    if pending && is_navigation_refresh(effect) {
        step == HostStep::Defer(effect) && after == before
    } else if pending && is_blocked_while_pending(effect) {
        &&& step == (HostStep::Continue { redraw: true })
        &&& after == (TuiModel { message: after.message, ..before })
        &&& after.message is Some
        &&& after.message->0.severity == Severity::Warning
        &&& after.message->0.text@ == pending_interaction_text()
    } else if is_user_quit(effect) {
        if stopping {
            step == (HostStep::Continue { redraw: false }) && after == before
        } else if pending {
            step == HostStep::QueueShutdown && after == stopped
        } else {
            step == HostStep::SubmitShutdown && after == stopped
        }
    } else {
        match effect {
            ControllerEffect::Nothing => step == (HostStep::Continue { redraw: false }) && after == before,
            ControllerEffect::Redraw => step == (HostStep::Continue { redraw: true }) && after == before,
            ControllerEffect::RequestShutdown(reason) => step == HostStep::Finish(reason) && after == stopped,
            ControllerEffect::Submit(command) => after == before && step == if stopping {
                HostStep::Continue { redraw: false }
            } else {
                HostStep::Submit(command)
            },
            _ => after == before && step == if is_agent_effect(effect) {
                HostStep::Agent(effect)
            } else if is_skill_effect(effect) {
                HostStep::Skill(effect)
            } else if is_memory_effect(effect) {
                HostStep::Memory(effect)
            } else {
                HostStep::Hand(effect)
            },
        }
    }
}

/// Decides what the host does with an effect; see `host_step_taken`.
pub fn host_step(model: &mut TuiModel, pending: bool, effect: ControllerEffect) -> (step: HostStep)
    ensures
        host_step_taken(*old(model), pending, effect, step, *final(model)),
{
    let refresh = match &effect {
        ControllerEffect::LoadAgentProfiles | ControllerEffect::LoadSkills => true,
        _ => false,
    };
    let quit = match &effect {
        ControllerEffect::Submit(ApplicationCommand::RequestShutdown) => true,
        ControllerEffect::RequestShutdown(ShutdownReason::UserQuit) => true,
        _ => false,
    };
    let free = match &effect {
        ControllerEffect::Nothing | ControllerEffect::Redraw | ControllerEffect::RequestShutdown(_)
        | ControllerEffect::ParseCommandLine { .. } | ControllerEffect::ProfileEditorKey(_)
        | ControllerEffect::SkillEditorKey(_) => true,
        _ => false,
    };
    if pending && refresh {
        return HostStep::Defer(effect);
    }
    if pending && !(free || refresh || quit) {
        model.set_message(
            Severity::Warning,
            "Another command is running; this action remains available to retry.".to_owned(),
        );
        return HostStep::Continue { redraw: true };
    }
    let stopping = model.runtime_status == RuntimeStatus::Stopping;
    if quit {
        if stopping {
            return HostStep::Continue { redraw: false };
        }
        model.set_runtime_status(RuntimeStatus::Stopping);
        return if pending {
            HostStep::QueueShutdown
        } else {
            HostStep::SubmitShutdown
        };
    }
    match effect {
        ControllerEffect::Nothing => HostStep::Continue { redraw: false },
        ControllerEffect::Redraw => HostStep::Continue { redraw: true },
        ControllerEffect::RequestShutdown(reason) => {
            model.set_runtime_status(RuntimeStatus::Stopping);
            HostStep::Finish(reason)
        },
        ControllerEffect::Submit(command) => if stopping {
            HostStep::Continue { redraw: false }
        } else {
            HostStep::Submit(command)
        },
        ControllerEffect::LoadAgentProfiles
        | ControllerEffect::LoadAgentProfile { .. }
        | ControllerEffect::LoadAgentProfileHistory { .. }
        | ControllerEffect::LoadAgentProfileVersion { .. }
        | ControllerEffect::LoadAgentSkillLibrary
        | ControllerEffect::StartProfileCreate { .. }
        | ControllerEffect::StartProfileEdit { .. }
        | ControllerEffect::StartProfileCreateByTemplate { .. }
        | ControllerEffect::StartProfileEditBySelector { .. }
        | ControllerEffect::ExecuteProfile(_)
        | ControllerEffect::CancelProfileReview => HostStep::Agent(effect),
        ControllerEffect::LoadSkills
        | ControllerEffect::StartSkillWorkflow(_)
        | ControllerEffect::LoadSkill { .. }
        | ControllerEffect::LoadSkillHistory { .. }
        | ControllerEffect::LoadSkillVersion { .. }
        | ControllerEffect::LoadSkillStarter { .. }
        | ControllerEffect::LoadSkillAgents
        | ControllerEffect::LoadSkillAgent { .. }
        | ControllerEffect::RequestSkillAssignmentPreview { .. }
        | ControllerEffect::ExecuteSkill(_)
        | ControllerEffect::CancelSkillReview => HostStep::Skill(effect),
        ControllerEffect::LoadAgentMemory(_)
        | ControllerEffect::LoadMemoryEntry { .. }
        | ControllerEffect::LoadMemoryEntryHistory { .. }
        | ControllerEffect::LoadMemoryEntryVersion { .. }
        | ControllerEffect::LoadMemoryProposals { .. }
        | ControllerEffect::LoadMemoryProposal(_)
        | ControllerEffect::LoadEpisodicSummaries(_)
        | ControllerEffect::LoadEpisodicSummary(_)
        | ControllerEffect::ExecuteMemory(_)
        | ControllerEffect::CancelMemoryReview => HostStep::Memory(effect),
        _ => HostStep::Hand(effect),
    }
}

/// The navigation refresh kept for later after `effect` arrived while a command runs:
/// the profile list, once asked for, stays; otherwise the newest refresh is kept, the
/// profile list taking the place of any other.
pub open spec fn deferred_refresh(kept: Option<ControllerEffect>, effect: ControllerEffect) -> Option<
    ControllerEffect,
> {
    if kept == Some(ControllerEffect::LoadAgentProfiles) {
        kept
    } else if effect == ControllerEffect::LoadAgentProfiles || kept is None {
        Some(effect)
    } else {
        kept
    }
}

/// Keeps a navigation refresh for later; see `deferred_refresh`.
pub fn defer_navigation_refresh(kept: Option<ControllerEffect>, effect: ControllerEffect) -> (next: Option<
    ControllerEffect,
>)
    ensures
        next == deferred_refresh(kept, effect),
{
    let kept_profiles = match &kept {
        Some(ControllerEffect::LoadAgentProfiles) => true,
        _ => false,
    };
    if kept_profiles {
        return kept;
    }
    let profiles = match &effect {
        ControllerEffect::LoadAgentProfiles => true,
        _ => false,
    };
    if profiles || kept.is_none() {
        Some(effect)
    } else {
        kept
    }
}

/// While a command runs, the host sends nothing else: no effect is submitted or run,
/// and the shutdown request waits behind the running command.
pub proof fn law_nothing_is_sent_while_a_command_runs(
    before: TuiModel,
    effect: ControllerEffect,
    step: HostStep,
    after: TuiModel,
)
    requires
        host_step_taken(before, true, effect, step, after),
    ensures
        !(step is Submit || step is Agent || step is Skill || step is Memory || step is SubmitShutdown),
{
}

/// Quitting asks the application for the auditable shutdown (at once, or behind the
/// running command) and marks the runtime as stopping; an interrupt finishes at once.
pub proof fn law_quit_is_audited_and_an_interrupt_is_immediate(
    before: TuiModel,
    pending: bool,
    effect: ControllerEffect,
    step: HostStep,
    after: TuiModel,
)
    requires
        host_step_taken(before, pending, effect, step, after),
        before.runtime_status != RuntimeStatus::Stopping,
    ensures
        is_user_quit(effect) ==> (step == if pending {
            HostStep::QueueShutdown
        } else {
            HostStep::SubmitShutdown
        }) && after.runtime_status == RuntimeStatus::Stopping,
        effect == ControllerEffect::RequestShutdown(ShutdownReason::Interrupted) ==> step
            == HostStep::Finish(ShutdownReason::Interrupted) && after.runtime_status == RuntimeStatus::Stopping,
{
}

/// An answer is applied to the memory workspace only for the request of the current
/// generation still pending, and then as `matching_applied` says.
pub open spec fn memory_outcome_applied(
    before: MemoryViewState,
    intent: MemoryOutcomeIntent,
    generation: u64,
    answer: MemoryAnswer,
    applied: bool,
    after: MemoryViewState,
) -> bool {
    let current = before.generation == generation && match before.pending_intent {
        Some(pending) => same_intent(pending, intent),
        None => false,
    };
    if current {
        (applied, after) == before.matching_applied(intent, answer)
    } else {
        !applied && after == before
    }
}

/// Applies the answer to the memory request of `intent` and `generation`; see
/// `memory_outcome_applied`.
pub fn apply_memory_outcome(
    memory: &mut MemoryViewState,
    intent: &MemoryOutcomeIntent,
    generation: u64,
    answer: MemoryAnswer,
) -> (applied: bool)
    ensures
        memory_outcome_applied(*old(memory), *intent, generation, answer, applied, *final(memory)),
{
    let pending = match &memory.pending_intent {
        Some(pending) => intents_match(pending, intent),
        None => false,
    };
    if memory.generation != generation || !pending {
        return false;
    }
    memory.apply_matching_view(intent, answer)
}

/// The shape a resolution's result must have: an approval brings an entry, a rejection
/// none.
pub open spec fn resolution_shaped(action: MemoryResolutionAction, entry: Option<crate::domain::MemoryEntryId>) -> bool {
    match action {
        MemoryResolutionAction::Approve => entry is Some,
        MemoryResolutionAction::Reject => entry is None,
    }
}

/// Completing an applied memory answer for `intent` leads from `before` to `after` with
/// `result`. A read needs nothing more. A change or resolution needs its matching
/// result (a resolution of the reviewed shape) and a bound profile, else the answer is
/// unexpected and nothing changes; then the review, confirmation and editor are closed,
/// the result pane shows where it came from, and the pages to reload are returned: the
/// entries after a change, with the proposals when they were loaded; the entries after
/// an approval that made an entry, and the proposals after any resolution.
pub open spec fn memory_outcome_completed(
    before: MemoryViewState,
    intent: MemoryOutcomeIntent,
    answer: MemoryAnswer,
    result: Result<Seq<ControllerEffect>, TuiError>,
    after: MemoryViewState,
) -> bool {
    if !is_change(intent) {
        result == Ok::<Seq<ControllerEffect>, TuiError>(Seq::empty()) && after == before
    } else {
        let shaped = match (intent, answer) {
            (MemoryOutcomeIntent::Mutation, MemoryAnswer::Mutation(_)) => true,
            (MemoryOutcomeIntent::Resolution, MemoryAnswer::Resolution(value)) => match before.resolution_review {
                Some(review) => resolution_shaped(review.action, value.entry),
                None => false,
            },
            _ => false,
        };
        if !shaped {
            result == Err::<Seq<ControllerEffect>, TuiError>(TuiError::UnexpectedControllerEffect) && after
                == before
        } else if before.profile is None {
            result == Err::<Seq<ControllerEffect>, TuiError>(
                TuiError::MemoryState(DomainError::MemorySelectionUnavailable),
            ) && after == before
        } else {
            let selector = AgentProfileSelector::Id(before.profile->0.profile.profile_id);
            let closed = MemoryViewState {
                review_registered: false,
                edit_review: None,
                resolution_review: None,
                confirmation: None,
                editor: None,
                result_origin: if answer is Mutation {
                    MemoryResultOrigin::Mutation
                } else {
                    MemoryResultOrigin::Resolution
                },
                ..before
            };
            let reloads = match answer {
                MemoryAnswer::Mutation(_) => if before.proposals is Some {
                    seq![
                        ControllerEffect::LoadAgentMemory(selector),
                        ControllerEffect::LoadMemoryProposals { selector },
                    ]
                } else {
                    seq![ControllerEffect::LoadAgentMemory(selector)]
                },
                MemoryAnswer::Resolution(value) => if value.entry is Some {
                    seq![
                        ControllerEffect::LoadAgentMemory(selector),
                        ControllerEffect::LoadMemoryProposals { selector },
                    ]
                } else {
                    seq![ControllerEffect::LoadMemoryProposals { selector }]
                },
                _ => Seq::empty(),
            };
            &&& result is Ok
            &&& result->Ok_0 == reloads
            &&& after == if closed.pane == MemoryPane::Result {
                closed
            } else {
                MemoryViewState { pane: MemoryPane::Result, detail_scroll: 0, ..closed }
            }
        }
    }
}

/// Completes an applied memory answer; see `memory_outcome_completed`.
pub fn complete_memory_outcome(
    memory: &mut MemoryViewState,
    intent: &MemoryOutcomeIntent,
    answer: &MemoryAnswer,
) -> (result: Result<Vec<ControllerEffect>, TuiError>)
    ensures
        memory_outcome_completed(
            *old(memory),
            *intent,
            *answer,
            match result {
                Ok(reloads) => Ok::<Seq<ControllerEffect>, TuiError>(reloads@),
                Err(error) => Err(error),
            },
            *final(memory),
        ),
{
    let change = match intent {
        MemoryOutcomeIntent::Mutation | MemoryOutcomeIntent::Resolution => true,
        _ => false,
    };
    if !change {
        let none: Vec<ControllerEffect> = Vec::new();
        return Ok(none);
    }
    let shaped = match (intent, answer) {
        (MemoryOutcomeIntent::Mutation, MemoryAnswer::Mutation(_)) => true,
        (MemoryOutcomeIntent::Resolution, MemoryAnswer::Resolution(value)) => match &memory.resolution_review {
            Some(review) => match review.action {
                MemoryResolutionAction::Approve => value.entry.is_some(),
                MemoryResolutionAction::Reject => value.entry.is_none(),
            },
            None => false,
        },
        _ => false,
    };
    if !shaped {
        return Err(TuiError::UnexpectedControllerEffect);
    }
    let selector = match memory.profile_selector() {
        Ok(selector) => selector,
        Err(error) => return Err(TuiError::MemoryState(error)),
    };
    let had_proposals = memory.proposals.is_some();
    memory.review_registered = false;
    memory.edit_review = None;
    memory.resolution_review = None;
    memory.confirmation = None;
    memory.editor = None;
    let mutation = match answer {
        MemoryAnswer::Mutation(_) => true,
        _ => false,
    };
    memory.result_origin = if mutation {
        MemoryResultOrigin::Mutation
    } else {
        MemoryResultOrigin::Resolution
    };
    memory.transition_to(MemoryPane::Result);
    let mut reloads: Vec<ControllerEffect> = Vec::new();
    match answer {
        MemoryAnswer::Mutation(_) => {
            reloads.push(ControllerEffect::LoadAgentMemory(selector.duplicate()));
            if had_proposals {
                reloads.push(ControllerEffect::LoadMemoryProposals { selector });
            }
        },
        MemoryAnswer::Resolution(value) => {
            if value.entry.is_some() {
                reloads.push(ControllerEffect::LoadAgentMemory(selector.duplicate()));
            }
            reloads.push(ControllerEffect::LoadMemoryProposals { selector });
        },
        _ => {},
    }
    proof {
        let sel = AgentProfileSelector::Id(old(memory).profile->0.profile.profile_id);
        match *answer {
            MemoryAnswer::Mutation(_) => if had_proposals {
                assert(reloads@ =~= seq![
                    ControllerEffect::LoadAgentMemory(sel),
                    ControllerEffect::LoadMemoryProposals { selector: sel },
                ]);
            } else {
                assert(reloads@ =~= seq![ControllerEffect::LoadAgentMemory(sel)]);
            },
            MemoryAnswer::Resolution(value) => if value.entry is Some {
                assert(reloads@ =~= seq![
                    ControllerEffect::LoadAgentMemory(sel),
                    ControllerEffect::LoadMemoryProposals { selector: sel },
                ]);
            } else {
                assert(reloads@ =~= seq![ControllerEffect::LoadMemoryProposals { selector: sel }]);
            },
            _ => {},
        }
    }
    Ok(reloads)
}

/// Recovering from a memory request the application refused leads from `before` to
/// `after`, returning whether the registered review must be cancelled. An answer to a
/// request that is no longer current changes nothing but the command in flight. For a
/// current read the message says it could not be completed. For a current change or
/// resolution, a transient failure keeps the review for a retry; otherwise the review and
/// confirmation are dropped, the pane goes back to the editor (when a change review and
/// an editor were open), the entry detail or the proposal detail, and the message asks
/// for a fresh review.
pub open spec fn memory_error_recovered(
    before: TuiModel,
    intent: MemoryOutcomeIntent,
    generation: u64,
    error: RuntimeError,
    cancel_owed: bool,
    after: TuiModel,
) -> bool {
    let memory = before.agents.memory;
    let current = memory.generation == generation && match memory.pending_intent {
        Some(pending) => same_intent(pending, intent),
        None => false,
    };
    let released = TuiModel {
        command_in_flight: false,
        pending_outcome_navigation: None,
        agents: AgentsViewState {
            memory: if current {
                MemoryViewState { pending_intent: None, ..memory }
            } else {
                memory
            },
            ..before.agents
        },
        ..before
    };
    if !current {
        !cancel_owed && after == released
    } else if !is_change(intent) {
        &&& !cancel_owed
        &&& after == (TuiModel { message: after.message, ..released })
        &&& after.message is Some
        &&& after.message->0.severity == Severity::Error
        &&& after.message->0.text@ == "Memory action could not be completed."@
    } else if is_retryable(error) {
        &&& !cancel_owed
        &&& after == (TuiModel { message: after.message, ..released })
        &&& after.message is Some
        &&& after.message->0.severity == Severity::Warning
        &&& after.message->0.text@ == "Memory action could not be completed; review retained for retry."@
    } else {
        let kept = released.agents.memory;
        let pane = if kept.edit_review is Some && kept.editor is Some {
            MemoryPane::Editor
        } else if kept.edit_review is Some {
            MemoryPane::EntryDetail
        } else if kept.resolution_review is Some {
            MemoryPane::ProposalDetail
        } else {
            kept.pane
        };
        let dropped = MemoryViewState {
            review_registered: false,
            edit_review: None,
            resolution_review: None,
            confirmation: None,
            pane,
            detail_scroll: if pane == kept.pane {
                kept.detail_scroll
            } else {
                0
            },
            ..kept
        };
        &&& cancel_owed == kept.review_registered
        &&& after == (TuiModel {
            agents: AgentsViewState { memory: dropped, ..released.agents },
            message: after.message,
            ..released
        })
        &&& after.message is Some
        &&& after.message->0.severity == Severity::Error
        &&& after.message->0.text@ == "Memory review was cleared; request a fresh review."@
    }
}

/// Recovers from a memory request the application refused; see
/// `memory_error_recovered`.
pub fn recover_memory_pending_error(
    model: &mut TuiModel,
    intent: &MemoryOutcomeIntent,
    generation: u64,
    error: &RuntimeError,
) -> (cancel_owed: bool)
    ensures
        memory_error_recovered(*old(model), *intent, generation, *error, cancel_owed, *final(model)),
{
    let current = model.agents.memory.clear_pending_if(intent, generation);
    model.set_command_in_flight(false);
    if !current {
        return false;
    }
    let change = match intent {
        MemoryOutcomeIntent::Mutation | MemoryOutcomeIntent::Resolution => true,
        _ => false,
    };
    if !change {
        model.set_message(Severity::Error, "Memory action could not be completed.".to_owned());
        return false;
    }
    if memory_submission_is_retryable(error) {
        model.set_message(
            Severity::Warning,
            "Memory action could not be completed; review retained for retry.".to_owned(),
        );
        return false;
    }
    let cancel_owed = drop_memory_review(&mut model.agents.memory);
    model.set_message(Severity::Error, "Memory review was cleared; request a fresh review.".to_owned());
    cancel_owed
}

/// Drops a memory review and its confirmation, returning whether the registered review
/// must be cancelled; see `memory_error_recovered`.
fn drop_memory_review(memory: &mut MemoryViewState) -> (cancel_owed: bool)
    ensures
        cancel_owed == old(memory).review_registered,
        ({
            let kept = *old(memory);
            let pane = if kept.edit_review is Some && kept.editor is Some {
                MemoryPane::Editor
            } else if kept.edit_review is Some {
                MemoryPane::EntryDetail
            } else if kept.resolution_review is Some {
                MemoryPane::ProposalDetail
            } else {
                kept.pane
            };
            *final(memory) == (MemoryViewState {
                review_registered: false,
                edit_review: None,
                resolution_review: None,
                confirmation: None,
                pane,
                detail_scroll: if pane == kept.pane {
                    kept.detail_scroll
                } else {
                    0
                },
                ..kept
            })
        }),
{
    let cancel_owed = memory.review_registered;
    memory.review_registered = false;
    let had_edit_review = memory.edit_review.is_some();
    let had_resolution_review = memory.resolution_review.is_some();
    memory.edit_review = None;
    memory.resolution_review = None;
    memory.confirmation = None;
    if had_edit_review && memory.editor.is_some() {
        memory.transition_to(MemoryPane::Editor);
    } else if had_edit_review {
        memory.transition_to(MemoryPane::EntryDetail);
    } else if had_resolution_review {
        memory.transition_to(MemoryPane::ProposalDetail);
    }
    cancel_owed
}

} // verus!