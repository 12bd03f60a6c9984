//! The application values the cockpit shows and navigates: identifiers, versioned
//! references, list pages and audit entries, each reduced to what the cockpit reads.
use vstd::prelude::*;

verus! {

/// An installation of the application.
#[derive(Debug, Clone, Copy, PartialEq, Eq, Structural)]
pub struct InstallationId(pub u128);

/// A run of the application.
#[derive(Debug, Clone, Copy, PartialEq, Eq, Structural)]
pub struct SessionId(pub u128);

/// An agent profile.
#[derive(Debug, Clone, Copy, PartialEq, Eq, Structural)]
pub struct AgentProfileId(pub u128);

/// One version of an agent profile.
#[derive(Debug, Clone, Copy, PartialEq, Eq, Structural)]
pub struct AgentProfileVersionId(pub u128);

/// A skill.
#[derive(Debug, Clone, Copy, PartialEq, Eq, Structural)]
pub struct SkillId(pub u128);

/// One version of a skill.
#[derive(Debug, Clone, Copy, PartialEq, Eq, Structural)]
pub struct SkillVersionId(pub u128);

/// A memory entry.
#[derive(Debug, Clone, Copy, PartialEq, Eq, Structural)]
pub struct MemoryEntryId(pub u128);

/// One version of a memory entry.
#[derive(Debug, Clone, Copy, PartialEq, Eq, Structural)]
pub struct MemoryEntryVersionId(pub u128);

/// A proposal to change memory.
#[derive(Debug, Clone, Copy, PartialEq, Eq, Structural)]
pub struct MemoryProposalId(pub u128);

/// An episodic summary.
#[derive(Debug, Clone, Copy, PartialEq, Eq, Structural)]
pub struct EpisodicSummaryId(pub u128);

/// The memory namespace of an agent profile.
#[derive(Debug, Clone, Copy, PartialEq, Eq, Structural)]
pub struct MemoryNamespaceId(pub u128);

/// The digest of an agent profile's content.
#[derive(Debug, Clone, Copy, PartialEq, Eq, Structural)]
pub struct ContentDigest(pub u128);

/// Who caused an audited event.
#[derive(Debug, Clone, Copy, PartialEq, Eq, Structural)]
pub enum Actor {
    Human,
    System,
    Agent(AgentProfileId),
}

/// Whether the database is usable.
#[derive(Debug, Clone, Copy, PartialEq, Eq, Structural)]
pub enum DatabaseReadiness {
    Ready,
}

/// Whether this process holds the single-instance guard.
#[derive(Debug, Clone, Copy, PartialEq, Eq, Structural)]
pub enum ProcessGuardOwnership {
    Held,
}

/// Progress of the first-run setup.
#[derive(Debug, Clone, Copy, PartialEq, Eq, Structural)]
pub enum SetupStatus {
    NotStarted,
    Applied,
}

/// A skill version: which skill, which version record, and its version number.
#[derive(Debug, Clone, Copy, PartialEq, Eq, Structural)]
pub struct SkillVersionRef {
    pub skill_id: SkillId,
    pub skill_version_id: SkillVersionId,
    pub version: u64,
}

/// An agent profile version: which profile, which version record, its version
/// number and content digest.
#[derive(Debug, Clone, Copy, PartialEq, Eq, Structural)]
pub struct AgentProfileVersionRef {
    pub profile_id: AgentProfileId,
    pub profile_version_id: AgentProfileVersionId,
    pub version: u64,
    pub content_digest: ContentDigest,
}

/// A row of the skill library.
#[derive(Debug, Clone, Copy, PartialEq, Eq, Structural)]
pub struct SkillSummary {
    pub skill_ref: SkillVersionRef,
}

/// A page of the skill library.
#[derive(Debug, Clone, PartialEq, Eq)]
pub struct SkillsView {
    pub skills: Vec<SkillSummary>,
    pub total_count: u64,
    pub returned_count: u64,
    pub truncated: bool,
}

/// One skill version shown in detail.
#[derive(Debug, Clone, Copy, PartialEq, Eq, Structural)]
pub struct SkillView {
    pub skill_ref: SkillVersionRef,
}

/// A row of a skill's version history.
#[derive(Debug, Clone, Copy, PartialEq, Eq, Structural)]
pub struct SkillHistoryEntry {
    pub skill_ref: SkillVersionRef,
}

/// The version history of a skill.
#[derive(Debug, Clone, PartialEq, Eq)]
pub struct SkillHistoryView {
    pub skill_id: SkillId,
    pub versions: Vec<SkillHistoryEntry>,
}

/// A row of the agent profile list.
#[derive(Debug, Clone, Copy, PartialEq, Eq, Structural)]
pub struct AgentProfileSummary {
    pub profile_id: AgentProfileId,
    pub profile_version_id: AgentProfileVersionId,
    pub version: u64,
    pub content_digest: ContentDigest,
}

/// A page of agent profiles.
#[derive(Debug, Clone, PartialEq, Eq)]
pub struct AgentProfilesView {
    pub profiles: Vec<AgentProfileSummary>,
    pub total_count: u64,
    pub returned_count: u64,
    pub truncated: bool,
}

/// The active version of an agent profile, with its assigned skill versions.
#[derive(Debug, Clone, PartialEq, Eq)]
pub struct AgentProfileView {
    pub profile: AgentProfileVersionRef,
    pub skill_refs: Vec<SkillVersionRef>,
}

/// A row of an agent profile's version history.
#[derive(Debug, Clone, Copy, PartialEq, Eq, Structural)]
pub struct AgentProfileHistoryEntry {
    pub version: u64,
}

/// The version history of an agent profile.
#[derive(Debug, Clone, PartialEq, Eq)]
pub struct AgentProfileHistoryView {
    pub profile_id: AgentProfileId,
    pub active_version_id: AgentProfileVersionId,
    pub versions: Vec<AgentProfileHistoryEntry>,
}

/// One historical version of an agent profile.
#[derive(Debug, Clone, Copy, PartialEq, Eq, Structural)]
pub struct AgentProfileVersionView {
    pub profile: AgentProfileVersionRef,
}

/// The agent profile whose memory is shown, with its display name.
#[derive(Debug, Clone, PartialEq, Eq)]
pub struct MemoryProfileIdentityView {
    pub profile: AgentProfileVersionRef,
    pub display_name: String,
}

/// An audited event, as the audit view lists it.
#[derive(Debug, Clone, PartialEq, Eq)]
pub struct AuditEntry {
    pub sequence: u64,
    pub occurred_at_ms: i64,
    pub actor: Actor,
    pub kind: String,
    pub correlation_id: u128,
    pub summary: String,
}

/// What the cockpit shows when it starts.
#[derive(Debug, Clone, PartialEq, Eq)]
pub struct PresentationSnapshot {
    pub installation_id: InstallationId,
    pub session_id: SessionId,
    pub database_readiness: DatabaseReadiness,
    pub process_guard_ownership: ProcessGuardOwnership,
    pub setup_status: SetupStatus,
    pub recent_audit: Vec<AuditEntry>,
    pub agent_profiles: AgentProfilesView,
    pub selected_agent_profile: Option<AgentProfileView>,
    pub selected_agent_profile_history: Option<AgentProfileHistoryView>,
}

/// Names an agent profile: by identifier or by display name.
#[derive(Debug, Clone, PartialEq, Eq)]
pub enum AgentProfileSelector {
    Id(AgentProfileId),
    Name(String),
}

/// A command sent to the application. The cockpit builds and inspects the listing and
/// showing commands itself; any other command it forwards as parsed, by name.
#[derive(Debug, Clone, PartialEq, Eq)]
pub enum ApplicationCommand {
    ShowStatus,
    RequestShutdown,
    ListAgentProfiles,
    ShowAgentProfile { selector: AgentProfileSelector },
    ShowAgentProfileHistory { selector: AgentProfileSelector },
    ShowAgentProfileVersion { selector: AgentProfileSelector, version: u64 },
    ListSkills,
    ShowSkill { skill_id: SkillId },
    ShowSkillHistory { skill_id: SkillId },
    ShowSkillVersion { skill_id: SkillId, version: u64 },
    AssignAgentSkill { profile_id: AgentProfileId },
    UpgradeAgentSkill { profile_id: AgentProfileId },
    UnassignAgentSkill { profile_id: AgentProfileId },
    ListMemoryEntries { selector: AgentProfileSelector },
    ShowMemoryEntry { selector: AgentProfileSelector, display_key: String },
    ShowMemoryEntryHistory { selector: AgentProfileSelector, display_key: String },
    ShowMemoryEntryVersion { selector: AgentProfileSelector, display_key: String, version: u64 },
    ListMemoryProposals { selector: AgentProfileSelector },
    ShowMemoryProposal { proposal_id: MemoryProposalId },
    ListEpisodicSummaries { selector: AgentProfileSelector },
    ShowEpisodicSummary { summary_id: EpisodicSummaryId },
    SetMemoryEntry { selector: AgentProfileSelector, key: String },
    DeleteMemoryEntry { selector: AgentProfileSelector, key: String },
    ApproveMemoryProposal { proposal_id: MemoryProposalId },
    RejectMemoryProposal { proposal_id: MemoryProposalId },
    RejectInput,
    Other { name: String },
}

/// Whether a command asks the application to stop.
#[derive(Debug, Clone, Copy, PartialEq, Eq, Structural)]
pub enum ShutdownDisposition {
    Continue,
    Requested,
}

/// Why the cockpit asks to stop.
#[derive(Debug, Clone, Copy, PartialEq, Eq, Structural)]
pub enum ShutdownReason {
    Interrupted,
    UserQuit,
}

/// What a finished command shows.
#[derive(Debug, Clone, PartialEq, Eq)]
pub enum CommandView {
    Help,
    Status { installation_id: InstallationId, session_id: SessionId },
    SetupStatus { status: SetupStatus },
    AuditTail { entries: Vec<AuditEntry> },
    InputRejected,
    Shutdown { disposition: ShutdownDisposition },
    AgentProfiles(AgentProfilesView),
    AgentProfile(AgentProfileView),
    AgentProfileHistory(AgentProfileHistoryView),
    AgentProfileVersion(AgentProfileVersionView),
    AgentProfileCreated,
    AgentProfileVersionActivated,
    Skills(SkillsView),
    Skill(SkillView),
    SkillHistory(SkillHistoryView),
    SkillVersion(SkillView),
    SkillCreated { skill_id: SkillId },
    SkillVersionActivated { skill_id: SkillId },
    AgentSkillAssigned,
    AgentSkillUpgraded,
    AgentSkillUnassigned,
}

/// The answer to a command: the audit entries of the events it committed, what it
/// shows, and whether it asks to stop.
#[derive(Debug, Clone, PartialEq, Eq)]
pub struct CommandOutcome {
    pub committed_audit: Vec<AuditEntry>,
    pub view: CommandView,
    pub shutdown: ShutdownDisposition,
}

/// An agent-profile workflow started from the command line.
#[derive(Debug, Clone, PartialEq, Eq)]
pub enum AgentWorkflowCommand {
    SelectCreateTemplate,
    Create { template_id: String },
    Edit { selector: AgentProfileSelector },
}

/// A skill workflow started from the command line, by its name.
#[derive(Debug, Clone, PartialEq, Eq)]
pub struct SkillWorkflowCommand {
    pub name: String,
}

/// What the command-line parser made of an entered line.
#[derive(Debug, Clone, PartialEq, Eq)]
pub enum ParsedLine {
    Ignored,
    Command(ApplicationCommand),
    AgentWorkflow(AgentWorkflowCommand),
    SkillWorkflow(SkillWorkflowCommand),
}

impl AgentProfileSelector {
    /// A copy of this selector.
    pub fn duplicate(&self) -> (copy: AgentProfileSelector)
        ensures
            copy == *self,
    {
        match self {
            AgentProfileSelector::Id(id) => AgentProfileSelector::Id(*id),
            AgentProfileSelector::Name(name) => AgentProfileSelector::Name(name.clone()),
        }
    }
}

impl ApplicationCommand {
    /// A copy of this command.
    pub fn duplicate(&self) -> (copy: ApplicationCommand)
        ensures
            copy == *self,
    {
        match self {
            ApplicationCommand::ShowStatus => ApplicationCommand::ShowStatus,
            ApplicationCommand::RequestShutdown => ApplicationCommand::RequestShutdown,
            ApplicationCommand::ListAgentProfiles => ApplicationCommand::ListAgentProfiles,
            ApplicationCommand::ShowAgentProfile { selector } => ApplicationCommand::ShowAgentProfile {
                selector: selector.duplicate(),
            },
            ApplicationCommand::ShowAgentProfileHistory { selector } => ApplicationCommand::ShowAgentProfileHistory {
                selector: selector.duplicate(),
            },
            ApplicationCommand::ShowAgentProfileVersion { selector, version } => ApplicationCommand::ShowAgentProfileVersion {
                selector: selector.duplicate(),
                version: *version,
            },
            ApplicationCommand::ListSkills => ApplicationCommand::ListSkills,
            ApplicationCommand::ShowSkillHistory { skill_id } => ApplicationCommand::ShowSkillHistory {
                skill_id: *skill_id,
            },
            ApplicationCommand::ShowSkillVersion { skill_id, version } => ApplicationCommand::ShowSkillVersion {
                skill_id: *skill_id,
                version: *version,
            },
            ApplicationCommand::AssignAgentSkill { profile_id } => ApplicationCommand::AssignAgentSkill {
                profile_id: *profile_id,
            },
            ApplicationCommand::UpgradeAgentSkill { profile_id } => ApplicationCommand::UpgradeAgentSkill {
                profile_id: *profile_id,
            },
            ApplicationCommand::UnassignAgentSkill { profile_id } => ApplicationCommand::UnassignAgentSkill {
                profile_id: *profile_id,
            },
            ApplicationCommand::ShowSkill { skill_id } => ApplicationCommand::ShowSkill { skill_id: *skill_id },
            ApplicationCommand::ListMemoryEntries { selector } => ApplicationCommand::ListMemoryEntries {
                selector: selector.duplicate(),
            },
            ApplicationCommand::ShowMemoryEntry { selector, display_key } => ApplicationCommand::ShowMemoryEntry {
                selector: selector.duplicate(),
                display_key: display_key.clone(),
            },
            ApplicationCommand::ShowMemoryEntryHistory { selector, display_key } => ApplicationCommand::ShowMemoryEntryHistory {
                selector: selector.duplicate(),
                display_key: display_key.clone(),
            },
            ApplicationCommand::ShowMemoryEntryVersion { selector, display_key, version } => ApplicationCommand::ShowMemoryEntryVersion {
                selector: selector.duplicate(),
                display_key: display_key.clone(),
                version: *version,
            },
            ApplicationCommand::ListMemoryProposals { selector } => ApplicationCommand::ListMemoryProposals {
                selector: selector.duplicate(),
            },
            ApplicationCommand::ShowMemoryProposal { proposal_id } => ApplicationCommand::ShowMemoryProposal {
                proposal_id: *proposal_id,
            },
            ApplicationCommand::ListEpisodicSummaries { selector } => ApplicationCommand::ListEpisodicSummaries {
                selector: selector.duplicate(),
            },
            ApplicationCommand::ShowEpisodicSummary { summary_id } => ApplicationCommand::ShowEpisodicSummary {
                summary_id: *summary_id,
            },
            ApplicationCommand::SetMemoryEntry { selector, key } => ApplicationCommand::SetMemoryEntry {
                selector: selector.duplicate(),
                key: key.clone(),
            },
            ApplicationCommand::DeleteMemoryEntry { selector, key } => ApplicationCommand::DeleteMemoryEntry {
                selector: selector.duplicate(),
                key: key.clone(),
            },
            ApplicationCommand::ApproveMemoryProposal { proposal_id } => ApplicationCommand::ApproveMemoryProposal {
                proposal_id: *proposal_id,
            },
            ApplicationCommand::RejectMemoryProposal { proposal_id } => ApplicationCommand::RejectMemoryProposal {
                proposal_id: *proposal_id,
            },
            ApplicationCommand::RejectInput => ApplicationCommand::RejectInput,
            ApplicationCommand::Other { name } => ApplicationCommand::Other { name: name.clone() },
        }
    }
}

impl AuditEntry {
    /// A copy of this entry.
    pub fn duplicate(&self) -> (copy: AuditEntry)
        ensures
            copy == *self,
    {
        AuditEntry {
            sequence: self.sequence,
            occurred_at_ms: self.occurred_at_ms,
            actor: self.actor,
            kind: self.kind.clone(),
            correlation_id: self.correlation_id,
            summary: self.summary.clone(),
        }
    }
}

/// The same profile selector: the same identifier, or the same name.
pub open spec fn same_selector_spec(a: AgentProfileSelector, b: AgentProfileSelector) -> bool {
    match (a, b) {
        (AgentProfileSelector::Id(x), AgentProfileSelector::Id(y)) => x == y,
        (AgentProfileSelector::Name(x), AgentProfileSelector::Name(y)) => x@ == y@,
        _ => false,
    }
}

/// Whether two selectors are the same; see `same_selector_spec`.
pub fn same_selector_exec(a: &AgentProfileSelector, b: &AgentProfileSelector) -> (same: bool)
    ensures
        same == same_selector_spec(*a, *b),
{
    match (a, b) {
        (AgentProfileSelector::Id(x), AgentProfileSelector::Id(y)) => *x == *y,
        (AgentProfileSelector::Name(x), AgentProfileSelector::Name(y)) => *x == *y,
        _ => false,
    }
}

/// The same command: the same kind with the same arguments, texts compared by content.
pub open spec fn same_command(a: ApplicationCommand, b: ApplicationCommand) -> bool {
    match (a, b) {
        (ApplicationCommand::ShowStatus, ApplicationCommand::ShowStatus) => true,
        (ApplicationCommand::RequestShutdown, ApplicationCommand::RequestShutdown) => true,
        (ApplicationCommand::ListAgentProfiles, ApplicationCommand::ListAgentProfiles) => true,
        (ApplicationCommand::ShowAgentProfile { selector: selector_a }, ApplicationCommand::ShowAgentProfile { selector: selector_b }) => same_selector_spec(selector_a, selector_b),
        (ApplicationCommand::ShowAgentProfileHistory { selector: selector_a }, ApplicationCommand::ShowAgentProfileHistory { selector: selector_b }) => same_selector_spec(selector_a, selector_b),
        (ApplicationCommand::ShowAgentProfileVersion { selector: selector_a, version: version_a }, ApplicationCommand::ShowAgentProfileVersion { selector: selector_b, version: version_b }) => same_selector_spec(selector_a, selector_b) && version_a == version_b,
        (ApplicationCommand::ListSkills, ApplicationCommand::ListSkills) => true,
        (ApplicationCommand::ShowSkill { skill_id: skill_id_a }, ApplicationCommand::ShowSkill { skill_id: skill_id_b }) => skill_id_a == skill_id_b,
        (ApplicationCommand::ShowSkillHistory { skill_id: skill_id_a }, ApplicationCommand::ShowSkillHistory { skill_id: skill_id_b }) => skill_id_a == skill_id_b,
        (ApplicationCommand::ShowSkillVersion { skill_id: skill_id_a, version: version_a }, ApplicationCommand::ShowSkillVersion { skill_id: skill_id_b, version: version_b }) => skill_id_a == skill_id_b && version_a == version_b,
        (ApplicationCommand::AssignAgentSkill { profile_id: profile_id_a }, ApplicationCommand::AssignAgentSkill { profile_id: profile_id_b }) => profile_id_a == profile_id_b,
        (ApplicationCommand::UpgradeAgentSkill { profile_id: profile_id_a }, ApplicationCommand::UpgradeAgentSkill { profile_id: profile_id_b }) => profile_id_a == profile_id_b,
        (ApplicationCommand::UnassignAgentSkill { profile_id: profile_id_a }, ApplicationCommand::UnassignAgentSkill { profile_id: profile_id_b }) => profile_id_a == profile_id_b,
        (ApplicationCommand::ListMemoryEntries { selector: selector_a }, ApplicationCommand::ListMemoryEntries { selector: selector_b }) => same_selector_spec(selector_a, selector_b),
        (ApplicationCommand::ShowMemoryEntry { selector: selector_a, display_key: display_key_a }, ApplicationCommand::ShowMemoryEntry { selector: selector_b, display_key: display_key_b }) => same_selector_spec(selector_a, selector_b) && display_key_a@ == display_key_b@,
        (ApplicationCommand::ShowMemoryEntryHistory { selector: selector_a, display_key: display_key_a }, ApplicationCommand::ShowMemoryEntryHistory { selector: selector_b, display_key: display_key_b }) => same_selector_spec(selector_a, selector_b) && display_key_a@ == display_key_b@,
        (ApplicationCommand::ShowMemoryEntryVersion { selector: selector_a, display_key: display_key_a, version: version_a }, ApplicationCommand::ShowMemoryEntryVersion { selector: selector_b, display_key: display_key_b, version: version_b }) => same_selector_spec(selector_a, selector_b) && display_key_a@ == display_key_b@ && version_a == version_b,
        (ApplicationCommand::ListMemoryProposals { selector: selector_a }, ApplicationCommand::ListMemoryProposals { selector: selector_b }) => same_selector_spec(selector_a, selector_b),
        (ApplicationCommand::ShowMemoryProposal { proposal_id: proposal_id_a }, ApplicationCommand::ShowMemoryProposal { proposal_id: proposal_id_b }) => proposal_id_a == proposal_id_b,
        (ApplicationCommand::ListEpisodicSummaries { selector: selector_a }, ApplicationCommand::ListEpisodicSummaries { selector: selector_b }) => same_selector_spec(selector_a, selector_b),
        (ApplicationCommand::ShowEpisodicSummary { summary_id: summary_id_a }, ApplicationCommand::ShowEpisodicSummary { summary_id: summary_id_b }) => summary_id_a == summary_id_b,
        (ApplicationCommand::SetMemoryEntry { selector: selector_a, key: key_a }, ApplicationCommand::SetMemoryEntry { selector: selector_b, key: key_b }) => same_selector_spec(selector_a, selector_b) && key_a@ == key_b@,
        (ApplicationCommand::DeleteMemoryEntry { selector: selector_a, key: key_a }, ApplicationCommand::DeleteMemoryEntry { selector: selector_b, key: key_b }) => same_selector_spec(selector_a, selector_b) && key_a@ == key_b@,
        (ApplicationCommand::ApproveMemoryProposal { proposal_id: proposal_id_a }, ApplicationCommand::ApproveMemoryProposal { proposal_id: proposal_id_b }) => proposal_id_a == proposal_id_b,
        (ApplicationCommand::RejectMemoryProposal { proposal_id: proposal_id_a }, ApplicationCommand::RejectMemoryProposal { proposal_id: proposal_id_b }) => proposal_id_a == proposal_id_b,
        (ApplicationCommand::RejectInput, ApplicationCommand::RejectInput) => true,
        (ApplicationCommand::Other { name: name_a }, ApplicationCommand::Other { name: name_b }) => name_a@ == name_b@,
        _ => false,
    }
}

/// Whether two commands are the same; see `same_command`.
pub fn commands_match(a: &ApplicationCommand, b: &ApplicationCommand) -> (same: bool)
    ensures
        same == same_command(*a, *b),
{
    match (a, b) {
        (ApplicationCommand::ShowStatus, ApplicationCommand::ShowStatus) => true,
        (ApplicationCommand::RequestShutdown, ApplicationCommand::RequestShutdown) => true,
        (ApplicationCommand::ListAgentProfiles, ApplicationCommand::ListAgentProfiles) => true,
        (ApplicationCommand::ShowAgentProfile { selector: selector_a }, ApplicationCommand::ShowAgentProfile { selector: selector_b }) => same_selector_exec(selector_a, selector_b),
        (ApplicationCommand::ShowAgentProfileHistory { selector: selector_a }, ApplicationCommand::ShowAgentProfileHistory { selector: selector_b }) => same_selector_exec(selector_a, selector_b),
        (ApplicationCommand::ShowAgentProfileVersion { selector: selector_a, version: version_a }, ApplicationCommand::ShowAgentProfileVersion { selector: selector_b, version: version_b }) => same_selector_exec(selector_a, selector_b) && *version_a == *version_b,
        (ApplicationCommand::ListSkills, ApplicationCommand::ListSkills) => true,
        (ApplicationCommand::ShowSkill { skill_id: skill_id_a }, ApplicationCommand::ShowSkill { skill_id: skill_id_b }) => *skill_id_a == *skill_id_b,
        (ApplicationCommand::ShowSkillHistory { skill_id: skill_id_a }, ApplicationCommand::ShowSkillHistory { skill_id: skill_id_b }) => *skill_id_a == *skill_id_b,
        (ApplicationCommand::ShowSkillVersion { skill_id: skill_id_a, version: version_a }, ApplicationCommand::ShowSkillVersion { skill_id: skill_id_b, version: version_b }) => *skill_id_a == *skill_id_b && *version_a == *version_b,
        (ApplicationCommand::AssignAgentSkill { profile_id: profile_id_a }, ApplicationCommand::AssignAgentSkill { profile_id: profile_id_b }) => *profile_id_a == *profile_id_b,
        (ApplicationCommand::UpgradeAgentSkill { profile_id: profile_id_a }, ApplicationCommand::UpgradeAgentSkill { profile_id: profile_id_b }) => *profile_id_a == *profile_id_b,
        (ApplicationCommand::UnassignAgentSkill { profile_id: profile_id_a }, ApplicationCommand::UnassignAgentSkill { profile_id: profile_id_b }) => *profile_id_a == *profile_id_b,
        (ApplicationCommand::ListMemoryEntries { selector: selector_a }, ApplicationCommand::ListMemoryEntries { selector: selector_b }) => same_selector_exec(selector_a, selector_b),
        (ApplicationCommand::ShowMemoryEntry { selector: selector_a, display_key: display_key_a }, ApplicationCommand::ShowMemoryEntry { selector: selector_b, display_key: display_key_b }) => same_selector_exec(selector_a, selector_b) && *display_key_a == *display_key_b,
        (ApplicationCommand::ShowMemoryEntryHistory { selector: selector_a, display_key: display_key_a }, ApplicationCommand::ShowMemoryEntryHistory { selector: selector_b, display_key: display_key_b }) => same_selector_exec(selector_a, selector_b) && *display_key_a == *display_key_b,
        (ApplicationCommand::ShowMemoryEntryVersion { selector: selector_a, display_key: display_key_a, version: version_a }, ApplicationCommand::ShowMemoryEntryVersion { selector: selector_b, display_key: display_key_b, version: version_b }) => same_selector_exec(selector_a, selector_b) && *display_key_a == *display_key_b && *version_a == *version_b,
        (ApplicationCommand::ListMemoryProposals { selector: selector_a }, ApplicationCommand::ListMemoryProposals { selector: selector_b }) => same_selector_exec(selector_a, selector_b),
        (ApplicationCommand::ShowMemoryProposal { proposal_id: proposal_id_a }, ApplicationCommand::ShowMemoryProposal { proposal_id: proposal_id_b }) => *proposal_id_a == *proposal_id_b,
        (ApplicationCommand::ListEpisodicSummaries { selector: selector_a }, ApplicationCommand::ListEpisodicSummaries { selector: selector_b }) => same_selector_exec(selector_a, selector_b),
        (ApplicationCommand::ShowEpisodicSummary { summary_id: summary_id_a }, ApplicationCommand::ShowEpisodicSummary { summary_id: summary_id_b }) => *summary_id_a == *summary_id_b,
        (ApplicationCommand::SetMemoryEntry { selector: selector_a, key: key_a }, ApplicationCommand::SetMemoryEntry { selector: selector_b, key: key_b }) => same_selector_exec(selector_a, selector_b) && *key_a == *key_b,
        (ApplicationCommand::DeleteMemoryEntry { selector: selector_a, key: key_a }, ApplicationCommand::DeleteMemoryEntry { selector: selector_b, key: key_b }) => same_selector_exec(selector_a, selector_b) && *key_a == *key_b,
        (ApplicationCommand::ApproveMemoryProposal { proposal_id: proposal_id_a }, ApplicationCommand::ApproveMemoryProposal { proposal_id: proposal_id_b }) => *proposal_id_a == *proposal_id_b,
        (ApplicationCommand::RejectMemoryProposal { proposal_id: proposal_id_a }, ApplicationCommand::RejectMemoryProposal { proposal_id: proposal_id_b }) => *proposal_id_a == *proposal_id_b,
        (ApplicationCommand::RejectInput, ApplicationCommand::RejectInput) => true,
        (ApplicationCommand::Other { name: name_a }, ApplicationCommand::Other { name: name_b }) => *name_a == *name_b,
        _ => false,
    }
}

/// A template a new agent profile starts from, by its identifier.
#[derive(Debug, Clone, PartialEq, Eq)]
pub struct ProfileTemplate {
    pub id: String,
}

} // verus!