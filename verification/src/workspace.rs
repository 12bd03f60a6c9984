//! The agents and skills workspaces: which row and pane is selected, which detail is
//! cached, and how a fresh page keeps the selection on the same object.
use vstd::prelude::*;
use crate::domain::{
    ProfileTemplate, ApplicationCommand, AgentProfileHistoryView, AgentProfileId, AgentProfileSummary, AgentProfileVersionView,
    AgentProfileView, AgentProfilesView, SkillHistoryView, SkillId, SkillSummary,
    SkillVersionRef, SkillView, SkillsView,
};
use crate::memory::{MemoryViewState, empty_memory};

verus! {

/// Panes of the agents workspace.
#[derive(Debug, Clone, Copy, PartialEq, Eq, Structural)]
pub enum AgentsPane {
    List,
    Detail,
    History,
    Editor,
    Confirmation,
    Memory,
}

/// Sections of an agent's detail.
#[derive(Debug, Clone, Copy, PartialEq, Eq, Structural)]
pub enum AgentDetailAction {
    AssignedSkills,
    Memory,
}

/// Actions on a skill assigned to an agent.
#[derive(Debug, Clone, Copy, PartialEq, Eq, Structural)]
pub enum AgentSkillAction {
    View,
    Upgrade,
    Unassign,
}

/// Whether the skill version pinned by an agent has a newer active version.
#[derive(Debug, Clone, Copy, PartialEq, Eq, Structural)]
pub enum AgentSkillUpgradeAvailability {
    Unknown,
    Current,
    Available(SkillVersionRef),
    Inconsistent,
}

/// Panes of the skills workspace.
#[derive(Debug, Clone, Copy, PartialEq, Eq, Structural)]
pub enum SkillsPane {
    List,
    CreateSource,
    Detail,
    History,
    Editor,
    AgentPicker,
    AssignmentReview,
    Confirmation,
    Result,
}

/// Actions on a skill shown in detail.
#[derive(Debug, Clone, Copy, PartialEq, Eq, Structural)]
pub enum SkillDetailAction {
    Assign,
    CreateVersion,
    History,
}

/// What assigning a skill version to an agent would do.
#[derive(Debug, Clone, Copy, PartialEq, Eq, Structural)]
pub enum AssignmentKind {
    Add,
    Upgrade { expected: SkillVersionRef },
    Reassign { expected: SkillVersionRef },
    AlreadyAssigned,
    Unassign { expected: SkillVersionRef },
}

/// Which workspace an agent-profile answer is for.
#[derive(Debug, Clone, Copy, PartialEq, Eq, Structural)]
pub enum AgentOutcomeIntent {
    AgentsWorkspace,
    SkillAssignment,
}

/// Where a skill operation returns to.
#[derive(Debug, Clone, Copy, PartialEq, Eq, Structural)]
pub enum SkillOperationOrigin {
    Skills(SkillsPane),
    AgentSkills { profile_id: AgentProfileId },
}

/// Where the skills workspace was opened from.
#[derive(Debug, Clone, Copy, PartialEq, Eq, Structural)]
pub enum SkillWorkspaceOrigin {
    Cockpit(crate::screen::View),
    AgentSkills { profile_id: AgentProfileId },
}

/// An open skill editor: a new skill, or a new version of `base`.
#[derive(Debug, Clone, Copy, PartialEq, Eq, Structural)]
pub struct SkillEditorSession {
    pub base: Option<SkillVersionRef>,
}

/// A skill command awaiting confirmation, and where it returns to.
#[derive(Debug, Clone, PartialEq, Eq)]
pub struct SkillConfirmation {
    pub command: ApplicationCommand,
    pub origin: SkillOperationOrigin,
}

/// An agent-profile command awaiting confirmation.
#[derive(Debug, Clone, PartialEq, Eq)]
pub struct ProfileConfirmation {
    pub command: ApplicationCommand,
}

/// An open agent-profile editor: a new profile from a template, or a new version.
#[derive(Debug, Clone, Copy, PartialEq, Eq, Structural)]
pub struct ProfileEditorSession {
    pub profile_id: Option<AgentProfileId>,
}

/// What assigning `target` does to an agent whose version of that skill is `current`.
pub open spec fn classify_assignment(target: SkillVersionRef, current: Option<SkillVersionRef>)
    -> AssignmentKind {
    match current {
        None => AssignmentKind::Add,
        Some(c) => if c == target {
            AssignmentKind::AlreadyAssigned
        } else if target.version > c.version {
            AssignmentKind::Upgrade { expected: c }
        } else {
            AssignmentKind::Reassign { expected: c }
        },
    }
}

/// Classifying an assignment: assigning the very version an agent already has is
/// nothing to do; with no version of the skill it is an addition; otherwise it replaces
/// the current version, as an upgrade exactly when the target's version number is
/// higher, and names the current version as the one expected; it is never a removal.
pub proof fn law_assignment_classification(target: SkillVersionRef, current: Option<SkillVersionRef>)
    ensures
        (classify_assignment(target, current) == AssignmentKind::AlreadyAssigned) == (current
            == Some(target)),
        (classify_assignment(target, current) == AssignmentKind::Add) == (current is None),
        (classify_assignment(target, current) is Upgrade) == (current is Some && current->0 != target
            && target.version > current->0.version),
        (classify_assignment(target, current) is Reassign) == (current is Some && current->0 != target
            && target.version <= current->0.version),
        classify_assignment(target, current) is Upgrade ==> classify_assignment(target, current)->Upgrade_expected
            == current->0,
        classify_assignment(target, current) is Reassign ==> classify_assignment(
            target,
            current,
        )->Reassign_expected == current->0,
        !(classify_assignment(target, current) is Unassign),
{
}

impl AssignmentKind {
    /// Classifies assigning `target`: an addition when the agent has no version of the
    /// skill, nothing when it has exactly `target`, an upgrade to a higher version
    /// number, a reassignment otherwise.
    pub fn classify(target: &SkillVersionRef, current: Option<&SkillVersionRef>) -> (kind: Self)
        ensures
            kind == classify_assignment(
                *target,
                match current {
                    Some(c) => Some(*c),
                    None => None,
                },
            ),
    {
        match current {
            None => AssignmentKind::Add,
            Some(current) => {
                if *current == *target {
                    AssignmentKind::AlreadyAssigned
                } else if target.version > current.version {
                    AssignmentKind::Upgrade { expected: *current }
                } else {
                    AssignmentKind::Reassign { expected: *current }
                }
            },
        }
    }
}

/// Position of the first summary of skill `skill_id`.
pub open spec fn first_skill_index(skills: Seq<SkillSummary>, skill_id: SkillId) -> Option<usize>
    decreases skills.len(),
{
    if skills.len() == 0 {
        None
    } else if skills[0].skill_ref.skill_id == skill_id {
        Some(0)
    } else {
        match first_skill_index(skills.drop_first(), skill_id) {
            Some(i) => Some((i + 1) as usize),
            None => None,
        }
    }
}

/// Position of the first summary of profile `profile_id`.
pub open spec fn first_profile_index(profiles: Seq<AgentProfileSummary>, profile_id: AgentProfileId)
    -> Option<usize>
    decreases profiles.len(),
{
    if profiles.len() == 0 {
        None
    } else if profiles[0].profile_id == profile_id {
        Some(0)
    } else {
        match first_profile_index(profiles.drop_first(), profile_id) {
            Some(i) => Some((i + 1) as usize),
            None => None,
        }
    }
}

/// `index` clamped to the last position of a list of `len` rows (zero when empty).
pub open spec fn clamp_index(index: usize, len: nat) -> usize {
    if len == 0 {
        0
    } else if index < len {
        index
    } else {
        (len - 1) as usize
    }
}

/// Where the first skill with `skill_id` is.
pub fn find_skill(skills: &Vec<SkillSummary>, skill_id: SkillId) -> (index: Option<usize>)
    ensures
        index == first_skill_index(skills@, skill_id),
        match index {
            Some(i) => i < skills@.len() && skills@[i as int].skill_ref.skill_id == skill_id,
            None => forall|j: int| 0 <= j < skills@.len() ==> skills@[j].skill_ref.skill_id != skill_id,
        },
{
    let mut i: usize = 0;
    while i < skills.len()
        invariant
            i <= skills.len(),
            forall|j: int| 0 <= j < i ==> skills@[j].skill_ref.skill_id != skill_id,
        decreases skills.len() - i,
    {
        if skills[i].skill_ref.skill_id == skill_id {
            proof {
                lemma_first_skill_index(skills@, skill_id, i as int);
            }
            return Some(i);
        }
        i = i + 1;
    }
    proof {
        lemma_no_skill_index(skills@, skill_id);
    }
    None
}

/// Where the first profile with `profile_id` is.
pub fn find_profile(profiles: &Vec<AgentProfileSummary>, profile_id: AgentProfileId) -> (index:
    Option<usize>)
    ensures
        index == first_profile_index(profiles@, profile_id),
        match index {
            Some(i) => i < profiles@.len() && profiles@[i as int].profile_id == profile_id,
            None => forall|j: int| 0 <= j < profiles@.len() ==> profiles@[j].profile_id != profile_id,
        },
{
    let mut i: usize = 0;
    while i < profiles.len()
        invariant
            i <= profiles.len(),
            forall|j: int| 0 <= j < i ==> profiles@[j].profile_id != profile_id,
        decreases profiles.len() - i,
    {
        if profiles[i].profile_id == profile_id {
            proof {
                lemma_first_profile_index(profiles@, profile_id, i as int);
            }
            return Some(i);
        }
        i = i + 1;
    }
    proof {
        lemma_no_profile_index(profiles@, profile_id);
    }
    None
}

proof fn lemma_first_skill_index(s: Seq<SkillSummary>, id: SkillId, i: int)
    requires
        0 <= i < s.len() <= usize::MAX,
        s[i].skill_ref.skill_id == id,
        forall|j: int| 0 <= j < i ==> s[j].skill_ref.skill_id != id,
    ensures
        first_skill_index(s, id) == Some(i as usize),
    decreases i,
{
    if i > 0 {
        lemma_first_skill_index(s.drop_first(), id, i - 1);
    }
}

proof fn lemma_no_skill_index(s: Seq<SkillSummary>, id: SkillId)
    requires
        forall|j: int| 0 <= j < s.len() ==> s[j].skill_ref.skill_id != id,
    ensures
        first_skill_index(s, id) is None,
    decreases s.len(),
{
    if s.len() > 0 {
        lemma_no_skill_index(s.drop_first(), id);
    }
}

proof fn lemma_first_profile_index(s: Seq<AgentProfileSummary>, id: AgentProfileId, i: int)
    requires
        0 <= i < s.len() <= usize::MAX,
        s[i].profile_id == id,
        forall|j: int| 0 <= j < i ==> s[j].profile_id != id,
    ensures
        first_profile_index(s, id) == Some(i as usize),
    decreases i,
{
    if i > 0 {
        lemma_first_profile_index(s.drop_first(), id, i - 1);
    }
}

proof fn lemma_no_profile_index(s: Seq<AgentProfileSummary>, id: AgentProfileId)
    requires
        forall|j: int| 0 <= j < s.len() ==> s[j].profile_id != id,
    ensures
        first_profile_index(s, id) is None,
    decreases s.len(),
{
    if s.len() > 0 {
        lemma_no_profile_index(s.drop_first(), id);
    }
}

/// A found position is a position of the list.
pub proof fn lemma_first_profile_index_bounds(s: Seq<AgentProfileSummary>, id: AgentProfileId)
    requires
        s.len() <= usize::MAX,
    ensures
        match first_profile_index(s, id) {
            Some(i) => i < s.len() && s[i as int].profile_id == id,
            None => forall|j: int| 0 <= j < s.len() ==> s[j].profile_id != id,
        },
    decreases s.len(),
{
    if s.len() > 0 {
        lemma_first_profile_index_bounds(s.drop_first(), id);
        if s[0].profile_id != id {
            match first_profile_index(s.drop_first(), id) {
                Some(i) => {
                    assert(s.drop_first()[i as int] == s[i + 1]);
                },
                None => {
                    assert forall|j: int| 0 <= j < s.len() implies s[j].profile_id != id by {
                        if j > 0 {
                            assert(s[j] == s.drop_first()[j - 1]);
                        }
                    }
                },
            }
        }
    }
}

/// `index` clamped to the rows of a list of `len` rows.
pub fn clamp_to_len(index: usize, len: usize) -> (clamped: usize)
    ensures
        clamped == clamp_index(index, len as nat),
{
    if len == 0 {
        0
    } else if index < len {
        index
    } else {
        len - 1
    }
}

/// The skill id a detail or history is about, if any.
pub open spec fn history_skill(history: Option<SkillHistoryView>) -> Option<SkillId> {
    match history {
        Some(h) => Some(h.skill_id),
        None => None,
    }
}

/// State of the skills workspace.
#[derive(Debug, Clone, PartialEq, Eq)]
pub struct SkillsViewState {
    pub active: bool,
    pub library_loaded: bool,
    pub workspace_origin: Option<SkillWorkspaceOrigin>,
    pub pane: SkillsPane,
    pub selected_skill: usize,
    pub selected_action_index: usize,
    pub selected_create_source: usize,
    pub selected_history_version: usize,
    pub selected_agent: usize,
    pub library: SkillsView,
    pub detail: Option<SkillView>,
    pub history: Option<SkillHistoryView>,
    pub version_detail: Option<SkillView>,
    pub selected_agent_detail: Option<AgentProfileView>,
    pub assignment: Option<AssignmentKind>,
    pub editor: Option<SkillEditorSession>,
    pub editor_origin: SkillsPane,
    pub pending_confirmation: Option<SkillConfirmation>,
    pub review_registered: bool,
    pub operation_origin: SkillOperationOrigin,
    pub pending_active_skill: Option<SkillId>,
}

/// The skills workspace before anything was loaded.
pub open spec fn initial_skills(library: SkillsView) -> SkillsViewState {
    SkillsViewState {
        active: false,
        library_loaded: false,
        workspace_origin: None,
        pane: SkillsPane::List,
        selected_skill: 0,
        selected_action_index: 0,
        selected_create_source: 0,
        selected_history_version: 0,
        selected_agent: 0,
        library,
        detail: None,
        history: None,
        version_detail: None,
        selected_agent_detail: None,
        assignment: None,
        editor: None,
        editor_origin: SkillsPane::CreateSource,
        pending_confirmation: None,
        review_registered: false,
        operation_origin: SkillOperationOrigin::Skills(SkillsPane::Detail),
        pending_active_skill: None,
    }
}

impl SkillsViewState {
    /// The library row under the selection.
    pub open spec fn selected_row(self) -> Option<SkillSummary> {
        if self.selected_skill < self.library.skills@.len() {
            Some(self.library.skills@[self.selected_skill as int])
        } else {
            None
        }
    }

    /// The selection moved to the first row of skill `skill_id`, if the library has one.
    pub open spec fn synchronized(self, skill_id: SkillId) -> SkillsViewState {
        match first_skill_index(self.library.skills@, skill_id) {
            Some(i) => SkillsViewState { selected_skill: i, ..self },
            None => self,
        }
    }

    /// The detail actions offered: a historical version cannot start a new version.
    pub open spec fn detail_actions(self) -> Seq<SkillDetailAction> {
        if self.version_detail is Some {
            seq![SkillDetailAction::Assign, SkillDetailAction::History]
        } else {
            seq![SkillDetailAction::Assign, SkillDetailAction::CreateVersion, SkillDetailAction::History]
        }
    }

    /// The skill version the workspace is about: the selected history row in the history
    /// pane; elsewhere the shown historical version when it belongs to the shown skill,
    /// else the shown skill, else the selected library row.
    pub open spec fn current_ref(self) -> Option<SkillVersionRef> {
        if self.pane == SkillsPane::History {
            match self.history {
                Some(h) => if self.selected_history_version < h.versions@.len() {
                    Some(h.versions@[self.selected_history_version as int].skill_ref)
                } else {
                    None
                },
                None => None,
            }
        } else {
            match (self.version_detail, self.detail) {
                (Some(v), Some(d)) if d.skill_ref.skill_id == v.skill_ref.skill_id => Some(
                    v.skill_ref,
                ),
                (_, Some(d)) => Some(d.skill_ref),
                (_, None) => match self.selected_row() {
                    Some(row) => Some(row.skill_ref),
                    None => None,
                },
            }
        }
    }

    /// An empty, inactive skills workspace.
    pub fn new() -> (state: SkillsViewState)
        ensures
            state == initial_skills(
                SkillsView { skills: state.library.skills, total_count: 0, returned_count: 0, truncated: false },
            ),
            state.library.skills@.len() == 0,
    {
        SkillsViewState {
            active: false,
            library_loaded: false,
            workspace_origin: None,
            pane: SkillsPane::List,
            selected_skill: 0,
            selected_action_index: 0,
            selected_create_source: 0,
            selected_history_version: 0,
            selected_agent: 0,
            library: SkillsView { skills: Vec::new(), total_count: 0, returned_count: 0, truncated: false },
            detail: None,
            history: None,
            version_detail: None,
            selected_agent_detail: None,
            assignment: None,
            editor: None,
            editor_origin: SkillsPane::CreateSource,
            pending_confirmation: None,
            review_registered: false,
            operation_origin: SkillOperationOrigin::Skills(SkillsPane::Detail),
            pending_active_skill: None,
        }
    }

    /// Installing the library page `library` gives; see `replace_skills`.
    pub open spec fn with_library(self, library: SkillsView) -> SkillsViewState {
        (SkillsViewState {
            library,
            library_loaded: true,
            selected_skill: match self.selected_row() {
                Some(row) => match first_skill_index(library.skills@, row.skill_ref.skill_id) {
                    Some(i) => i,
                    None => clamp_index(self.selected_skill, library.skills@.len()),
                },
                None => clamp_index(self.selected_skill, library.skills@.len()),
            },
            ..self
        })
    }

    /// Installs a fresh library page. The selection stays on the same skill when the page
    /// still lists it, else it is clamped to the page.
    pub fn replace_skills(&mut self, library: SkillsView)
        ensures
            *final(self) == old(self).with_library(library),
    {
        let selected_id = match self.selected_summary() {
            Some(summary) => Some(summary.skill_ref.skill_id),
            None => None,
        };
        self.library = library;
        self.library_loaded = true;
        let position = match selected_id {
            Some(id) => find_skill(&self.library.skills, id),
            None => None,
        };
        self.selected_skill = match position {
            Some(index) => index,
            None => clamp_to_len(self.selected_skill, self.library.skills.len()),
        };
    }

    /// Moves the selection to the row of `skill_id`, if listed.
    pub fn synchronize_selected_skill(&mut self, skill_id: SkillId)
        ensures
            *final(self) == old(self).synchronized(skill_id),
    {
        if let Some(index) = find_skill(&self.library.skills, skill_id) {
            self.selected_skill = index;
        }
    }

    /// Showing `detail` leads from `self` to `after`; see `replace_detail`.
    pub open spec fn with_detail(self, detail: SkillView) -> SkillsViewState {
        ({
            let synced = self.synchronized(detail.skill_ref.skill_id);
            (SkillsViewState {
                history: if history_skill(self.history) == Some(detail.skill_ref.skill_id) {
                    self.history
                } else {
                    None
                },
                version_detail: None,
                detail: Some(detail),
                pane: SkillsPane::Detail,
                ..synced
            })
        })
    }

    /// Shows `detail`: the selection follows it, a history of another skill and any
    /// historical version are dropped, and the detail pane is shown.
    pub fn replace_detail(&mut self, detail: SkillView)
        ensures
            *final(self) == old(self).with_detail(detail),
    {
        let skill_id = detail.skill_ref.skill_id;
        self.synchronize_selected_skill(skill_id);
        let same = match &self.history {
            Some(history) => history.skill_id == skill_id,
            None => false,
        };
        if !same {
            self.history = None;
        }
        self.version_detail = None;
        self.detail = Some(detail);
        self.pane = SkillsPane::Detail;
    }

    /// Installing `history` leads from `self` to `after`; see `replace_history`.
    pub open spec fn with_history(self, history: SkillHistoryView) -> SkillsViewState {
        (SkillsViewState {
            selected_history_version: 0,
            version_detail: None,
            history: Some(history),
            ..self
        })
    }

    /// Installs a version history; its first row is selected and no version is shown.
    pub fn replace_history(&mut self, history: SkillHistoryView)
        ensures
            *final(self) == old(self).with_history(history),
    {
        self.selected_history_version = 0;
        self.version_detail = None;
        self.history = Some(history);
    }

    /// Showing the historical version `detail` leads from `self` to `after`; see
    /// `replace_version_detail`.
    pub open spec fn with_version_detail(self, detail: SkillView) -> SkillsViewState {
        ({
            let synced = self.synchronized(detail.skill_ref.skill_id);
            let same = history_skill(self.history) == Some(detail.skill_ref.skill_id);
            (SkillsViewState {
                history: if same {
                    self.history
                } else {
                    None
                },
                selected_history_version: if same {
                    self.selected_history_version
                } else {
                    0
                },
                detail: Some(detail),
                version_detail: Some(detail),
                ..synced
            })
        })
    }

    /// Shows the historical version `detail`, both as detail and as the version shown;
    /// a history of another skill is dropped with its selection.
    pub fn replace_version_detail(&mut self, detail: SkillView)
        ensures
            *final(self) == old(self).with_version_detail(detail),
    {
        let skill_id = detail.skill_ref.skill_id;
        self.synchronize_selected_skill(skill_id);
        let same = match &self.history {
            Some(history) => history.skill_id == skill_id,
            None => false,
        };
        if !same {
            self.history = None;
            self.selected_history_version = 0;
        }
        self.detail = Some(detail);
        self.version_detail = Some(detail);
    }

    /// Forgets the shown skill, its history and version, and any skill awaited.
    pub fn clear_skill_context(&mut self)
        ensures
            *final(self) == (SkillsViewState {
                detail: None,
                history: None,
                version_detail: None,
                selected_history_version: 0,
                pending_active_skill: None,
                ..*old(self)
            }),
    {
        self.detail = None;
        self.history = None;
        self.version_detail = None;
        self.selected_history_version = 0;
        self.pending_active_skill = None;
    }

    /// The skill the workspace is about.
    pub fn current_skill_id(&self) -> (id: Option<SkillId>)
        ensures
            id == match self.current_ref() {
                Some(r) => Some(r.skill_id),
                None => None,
            },
    {
        match self.selected_skill_ref() {
            Some(skill_ref) => Some(skill_ref.skill_id),
            None => None,
        }
    }

    /// The agent the workspace was opened from, if any.
    pub fn agent_origin_profile_id(&self) -> (id: Option<AgentProfileId>)
        ensures
            id == match self.workspace_origin {
                Some(SkillWorkspaceOrigin::AgentSkills { profile_id }) => Some(profile_id),
                _ => None,
            },
    {
        match self.workspace_origin {
            Some(SkillWorkspaceOrigin::AgentSkills { profile_id }) => Some(profile_id),
            _ => None,
        }
    }

    /// The selected library row.
    pub fn selected_summary(&self) -> (row: Option<SkillSummary>)
        ensures
            row == self.selected_row(),
    {
        if self.selected_skill < self.library.skills.len() {
            Some(self.library.skills[self.selected_skill])
        } else {
            None
        }
    }

    /// The selected detail action, clamped to those offered.
    pub fn selected_action(&self) -> (action: SkillDetailAction)
        ensures
            action == self.detail_actions()[clamp_index(
                self.selected_action_index,
                self.detail_actions().len(),
            ) as int],
    {
        let actions = self.available_detail_actions();
        let index = clamp_to_len(self.selected_action_index, actions.len());
        actions[index]
    }

    /// The detail actions offered.
    pub fn available_detail_actions(&self) -> (actions: Vec<SkillDetailAction>)
        ensures
            actions@ == self.detail_actions(),
    {
        let mut actions: Vec<SkillDetailAction> = Vec::new();
        actions.push(SkillDetailAction::Assign);
        if self.version_detail.is_none() {
            actions.push(SkillDetailAction::CreateVersion);
        }
        actions.push(SkillDetailAction::History);
        assert(actions@ =~= self.detail_actions());
        actions
    }

    /// The skill version the workspace is about.
    pub fn selected_skill_ref(&self) -> (skill_ref: Option<SkillVersionRef>)
        ensures
            skill_ref == self.current_ref(),
    {
        if self.pane == SkillsPane::History {
            match &self.history {
                Some(history) => {
                    if self.selected_history_version < history.versions.len() {
                        Some(history.versions[self.selected_history_version].skill_ref)
                    } else {
                        None
                    }
                },
                None => None,
            }
        } else {
            match (&self.version_detail, &self.detail) {
                (Some(version), Some(detail)) if detail.skill_ref.skill_id
                    == version.skill_ref.skill_id => Some(version.skill_ref),
                (_, Some(detail)) => Some(detail.skill_ref),
                (_, None) => match self.selected_summary() {
                    Some(summary) => Some(summary.skill_ref),
                    None => None,
                },
            }
        }
    }

    /// Opens the editor for a new skill, seeded from `seed` when given.
    pub fn start_create(&mut self, seed: Option<SkillVersionRef>)
        ensures
            *final(self) == (SkillsViewState {
                editor: Some(SkillEditorSession { base: seed }),
                editor_origin: SkillsPane::CreateSource,
                pane: SkillsPane::Editor,
                pending_confirmation: None,
                ..*old(self)
            }),
    {
        self.editor = Some(SkillEditorSession { base: seed });
        self.editor_origin = SkillsPane::CreateSource;
        self.pane = SkillsPane::Editor;
        self.pending_confirmation = None;
    }

    /// Opens the editor for a new version of the shown skill. Refused (nothing changes)
    /// while a historical version is shown or when no skill is shown.
    pub fn start_version(&mut self) -> (started: bool)
        ensures
            started == (old(self).version_detail is None && old(self).detail is Some),
            started ==> *final(self) == (SkillsViewState {
                editor: Some(SkillEditorSession { base: Some(old(self).detail->0.skill_ref) }),
                editor_origin: SkillsPane::Detail,
                pane: SkillsPane::Editor,
                pending_confirmation: None,
                ..*old(self)
            }),
            !started ==> *final(self) == *old(self),
    {
        if self.version_detail.is_some() {
            return false;
        }
        let base = match &self.detail {
            Some(detail) => detail.skill_ref,
            None => return false,
        };
        self.editor = Some(SkillEditorSession { base: Some(base) });
        self.editor_origin = SkillsPane::Detail;
        self.pane = SkillsPane::Editor;
        self.pending_confirmation = None;
        true
    }
}

/// State of the agents workspace.
#[derive(Debug, Clone, PartialEq, Eq)]
pub struct AgentsViewState {
    pub selected_profile: usize,
    pub selected_template: usize,
    pub selected_detail_action: AgentDetailAction,
    pub memory: MemoryViewState,
    pub pane: AgentsPane,
    pub list_scroll: usize,
    pub detail_scroll: usize,
    pub history_scroll: usize,
    pub selected_history_version: usize,
    pub skill_panel_open: bool,
    pub selected_assigned_skill: usize,
    pub selected_skill_action_index: usize,
    pub editor: Option<ProfileEditorSession>,
    pub pending_confirmation: Option<ProfileConfirmation>,
    pub profiles: AgentProfilesView,
    pub detail: Option<AgentProfileView>,
    pub history: Option<AgentProfileHistoryView>,
    pub version_detail: Option<AgentProfileVersionView>,
}

/// The agents workspace listing `profiles`, on the list pane, with nothing selected
/// beyond the first row.
pub open spec fn initial_agents(profiles: AgentProfilesView) -> AgentsViewState {
    AgentsViewState {
        selected_profile: 0,
        selected_template: 0,
        selected_detail_action: AgentDetailAction::AssignedSkills,
        memory: empty_memory(0),
        pane: AgentsPane::List,
        list_scroll: 0,
        detail_scroll: 0,
        history_scroll: 0,
        selected_history_version: 0,
        skill_panel_open: false,
        selected_assigned_skill: 0,
        selected_skill_action_index: 0,
        editor: None,
        pending_confirmation: None,
        profiles,
        detail: None,
        history: None,
        version_detail: None,
    }
}

/// The profile id of the row at `index`, if there is one.
pub open spec fn profile_at(profiles: Seq<AgentProfileSummary>, index: usize) -> Option<AgentProfileId> {
    if index < profiles.len() {
        Some(profiles[index as int].profile_id)
    } else {
        None
    }
}

/// The row of `profile_id` in `profiles`, if any.
pub open spec fn profile_row(profiles: Seq<AgentProfileSummary>, profile_id: AgentProfileId) -> Option<
    AgentProfileSummary,
> {
    match first_profile_index(profiles, profile_id) {
        Some(i) => Some(profiles[i as int]),
        None => None,
    }
}

/// The row describes exactly the profile version `profile`.
pub open spec fn row_matches_version(row: AgentProfileSummary, profile: crate::domain::AgentProfileVersionRef) -> bool {
    row.profile_version_id == profile.profile_version_id && row.version == profile.version
        && row.content_digest == profile.content_digest
}

/// The action chosen among view, upgrade and unassign by `index`.
pub open spec fn skill_action_at(index: usize) -> AgentSkillAction {
    if index == 0 {
        AgentSkillAction::View
    } else if index == 1 {
        AgentSkillAction::Upgrade
    } else {
        AgentSkillAction::Unassign
    }
}

impl AgentsViewState {
    /// The profile id of the selected row.
    pub open spec fn selected_id(self) -> Option<AgentProfileId> {
        profile_at(self.profiles.profiles@, self.selected_profile)
    }

    /// The state after selecting row `index` (clamped to the list): refused while a
    /// protected memory workflow would lose its profile; a change of profile resets the
    /// detail section and the memory workspace.
    pub open spec fn after_select(self, index: usize) -> (bool, AgentsViewState) {
        let target = clamp_index(index, self.profiles.profiles@.len());
        let next = profile_at(self.profiles.profiles@, target);
        if self.memory.protected() && self.selected_id() != next {
            (false, self)
        } else {
            let moved = AgentsViewState {
                selected_profile: target,
                list_scroll: if self.list_scroll < target {
                    self.list_scroll
                } else {
                    target
                },
                ..self
            };
            if self.selected_id() != next {
                (
                    true,
                    AgentsViewState {
                        selected_detail_action: AgentDetailAction::AssignedSkills,
                        memory: empty_memory(self.memory.generation),
                        ..moved
                    },
                )
            } else {
                (true, moved)
            }
        }
    }

    /// The state after moving to profile `profile_id`'s row, when listed.
    pub open spec fn after_select_id(self, profile_id: AgentProfileId) -> (bool, AgentsViewState) {
        match first_profile_index(self.profiles.profiles@, profile_id) {
            Some(i) => self.after_select(i),
            None => (false, self),
        }
    }

    /// Selects row `index`, clamped to the list; see `after_select`.
    pub fn select_profile_index(&mut self, index: usize) -> (selected: bool)
        ensures
            (selected, *final(self)) == old(self).after_select(index),
    {
        let index = clamp_to_len(index, self.profiles.profiles.len());
        let previous_id = if self.selected_profile < self.profiles.profiles.len() {
            Some(self.profiles.profiles[self.selected_profile].profile_id)
        } else {
            None
        };
        let next_id = if index < self.profiles.profiles.len() {
            Some(self.profiles.profiles[index].profile_id)
        } else {
            None
        };
        if self.memory.has_protected_workflow() && previous_id != next_id {
            return false;
        }
        self.selected_profile = index;
        if self.selected_profile < self.list_scroll {
            self.list_scroll = self.selected_profile;
        }
        if previous_id != next_id {
            self.selected_detail_action = AgentDetailAction::AssignedSkills;
            self.memory.invalidate_profile_context();
        }
        true
    }

    /// Selects the row of `profile_id`; false, with nothing changed, when it is not
    /// listed or the selection is refused.
    pub fn select_profile_id(&mut self, profile_id: AgentProfileId) -> (selected: bool)
        ensures
            (selected, *final(self)) == old(self).after_select_id(profile_id),
    {
        match find_profile(&self.profiles.profiles, profile_id) {
            Some(index) => self.select_profile_index(index),
            None => false,
        }
    }

    /// The selected action on an assigned skill: view, upgrade or unassign.
    pub fn selected_skill_action(&self) -> (action: AgentSkillAction)
        ensures
            action == skill_action_at(self.selected_skill_action_index),
    {
        if self.selected_skill_action_index == 0 {
            AgentSkillAction::View
        } else if self.selected_skill_action_index == 1 {
            AgentSkillAction::Upgrade
        } else {
            AgentSkillAction::Unassign
        }
    }

    /// The selected skill version assigned to the shown agent.
    pub fn selected_assigned_skill_ref(&self) -> (skill_ref: Option<SkillVersionRef>)
        ensures
            skill_ref == match self.detail {
                Some(d) => if self.selected_assigned_skill < d.skill_refs@.len() {
                    Some(d.skill_refs@[self.selected_assigned_skill as int])
                } else {
                    None
                },
                None => None,
            },
    {
        match &self.detail {
            Some(detail) => {
                if self.selected_assigned_skill < detail.skill_refs.len() {
                    Some(detail.skill_refs[self.selected_assigned_skill])
                } else {
                    None
                }
            },
            None => None,
        }
    }

    /// The selected profile row.
    pub fn selected_summary(&self) -> (row: Option<AgentProfileSummary>)
        ensures
            row == (if self.selected_profile < self.profiles.profiles@.len() {
                Some(self.profiles.profiles@[self.selected_profile as int])
            } else {
                None
            }),
    {
        if self.selected_profile < self.profiles.profiles.len() {
            Some(self.profiles.profiles[self.selected_profile])
        } else {
            None
        }
    }

    /// Installing the page `profiles` leads from `self` to `after`, and `replaced` says
    /// whether it was installed; see `replace_profiles`.
    pub open spec fn profiles_replaced(self, profiles: AgentProfilesView, replaced: bool, after: AgentsViewState) -> bool {
        ({
            let old_id = self.selected_id();
            let bound = match self.memory.profile {
                Some(identity) => Some(identity.profile),
                None => None,
            };
            let preserved = match old_id {
                Some(id) => match (profile_row(profiles.profiles@, id), bound) {
                    (Some(row), Some(profile)) => row_matches_version(row, profile),
                    _ => false,
                },
                None => false,
            };
            if self.memory.protected() && !preserved {
                !replaced && after == self
            } else if profiles.profiles@.len() == 0 {
                replaced && after == (AgentsViewState {
                    profiles,
                    selected_profile: 0,
                    list_scroll: 0,
                    detail: None,
                    history: None,
                    version_detail: None,
                    skill_panel_open: false,
                    selected_detail_action: AgentDetailAction::AssignedSkills,
                    memory: empty_memory(self.memory.generation),
                    ..self
                })
            } else {
                let selected = match old_id {
                    Some(id) => match first_profile_index(profiles.profiles@, id) {
                        Some(i) => i,
                        None => clamp_index(self.selected_profile, profiles.profiles@.len()),
                    },
                    None => clamp_index(self.selected_profile, profiles.profiles@.len()),
                };
                let next_row = profiles.profiles@[selected as int];
                let changed = old_id != Some(next_row.profile_id);
                let stale_version = match bound {
                    Some(profile) => !row_matches_version(next_row, profile),
                    None => false,
                };
                let keep_detail = match self.detail {
                    Some(d) => d.profile.profile_id == next_row.profile_id,
                    None => false,
                };
                &&& replaced
                &&& after == (AgentsViewState {
                    profiles,
                    selected_profile: selected,
                    list_scroll: if self.list_scroll < selected {
                        self.list_scroll
                    } else {
                        selected
                    },
                    selected_detail_action: if changed {
                        AgentDetailAction::AssignedSkills
                    } else {
                        self.selected_detail_action
                    },
                    memory: if changed || stale_version {
                        empty_memory(self.memory.generation)
                    } else {
                        self.memory
                    },
                    detail: if keep_detail {
                        self.detail
                    } else {
                        None
                    },
                    history: if keep_detail {
                        self.history
                    } else {
                        None
                    },
                    version_detail: if keep_detail {
                        self.version_detail
                    } else {
                        None
                    },
                    ..self
                })
            }
        })
    }

    /// Installs a fresh profile page. Refused (false, nothing changed) while a protected
    /// memory workflow is open, unless the page still lists the selected profile at
    /// exactly the bound version. An empty page resets the workspace; otherwise the
    /// selection stays on the same profile when listed, else is clamped; a change of
    /// profile, or of the bound profile's version, resets the memory workspace, and the
    /// cached detail of another profile is dropped with its history and version.
    pub fn replace_profiles(&mut self, profiles: AgentProfilesView) -> (replaced: bool)
        ensures
            old(self).profiles_replaced(profiles, replaced, *final(self)),
    {
        let selected_id = match self.selected_summary() {
            Some(summary) => Some(summary.profile_id),
            None => None,
        };
        let bound_profile = match &self.memory.profile {
            Some(identity) => Some(identity.profile),
            None => None,
        };
        if self.memory.has_protected_workflow() {
            let preserved = match selected_id {
                Some(profile_id) => match (find_profile(&profiles.profiles, profile_id), bound_profile) {
                    (Some(index), Some(profile)) => {
                        let row = profiles.profiles[index];
                        row.profile_version_id == profile.profile_version_id && row.version
                            == profile.version && row.content_digest == profile.content_digest
                    },
                    _ => false,
                },
                None => false,
            };
            if !preserved {
                return false;
            }
        }
        self.profiles = profiles;
        if self.profiles.profiles.len() == 0 {
            self.selected_profile = 0;
            self.list_scroll = 0;
            self.detail = None;
            self.history = None;
            self.version_detail = None;
            self.skill_panel_open = false;
            self.selected_detail_action = AgentDetailAction::AssignedSkills;
            self.memory.invalidate_profile_context();
            return true;
        }
        let position = match selected_id {
            Some(profile_id) => find_profile(&self.profiles.profiles, profile_id),
            None => None,
        };
        let selected = match position {
            Some(index) => index,
            None => clamp_to_len(self.selected_profile, self.profiles.profiles.len()),
        };
        self.selected_profile = selected;
        if selected < self.list_scroll {
            self.list_scroll = selected;
        }
        let next_row = self.profiles.profiles[selected];
        let changed = match selected_id {
            Some(id) => id != next_row.profile_id,
            None => true,
        };
        if changed {
            self.selected_detail_action = AgentDetailAction::AssignedSkills;
            self.memory.invalidate_profile_context();
        } else {
            let stale = match bound_profile {
                Some(profile) => !(next_row.profile_version_id == profile.profile_version_id
                    && next_row.version == profile.version && next_row.content_digest
                    == profile.content_digest),
                None => false,
            };
            if stale {
                self.memory.invalidate_profile_context();
            }
        }
        let keep_detail = match &self.detail {
            Some(detail) => detail.profile.profile_id == next_row.profile_id,
            None => false,
        };
        if !keep_detail {
            self.detail = None;
            self.history = None;
            self.version_detail = None;
        }
        true
    }

    /// The state with the row of `profile_id` selected, when listed.
    pub open spec fn follow_row(self, profile_id: AgentProfileId) -> AgentsViewState {
        match first_profile_index(self.profiles.profiles@, profile_id) {
            Some(i) => self.after_select(i).1,
            None => self,
        }
    }

    /// The profile version bound to the memory workspace, if any.
    pub open spec fn bound_profile(self) -> Option<crate::domain::AgentProfileVersionRef> {
        match self.memory.profile {
            Some(identity) => Some(identity.profile),
            None => None,
        }
    }

    /// Showing `detail` leads from `self` to `after`, and `replaced` says whether it was
    /// shown; see `replace_detail`.
    pub open spec fn detail_replaced(self, detail: AgentProfileView, replaced: bool, after: AgentsViewState) -> bool {
        ({
            let bound = self.bound_profile();
            if self.memory.protected() && bound != Some(detail.profile) {
                !replaced && after == self
            } else {
                let s1 = if bound is Some && bound != Some(detail.profile) {
                    AgentsViewState {
                        memory: empty_memory(self.memory.generation),
                        ..self
                    }
                } else {
                    self
                };
                let s2 = s1.follow_row(detail.profile.profile_id);
                let keep_history = match s2.history {
                    Some(h) => h.profile_id == detail.profile.profile_id,
                    None => false,
                };
                let s3 = if keep_history {
                    s2
                } else {
                    AgentsViewState { history: None, version_detail: None, ..s2 }
                };
                let last = if detail.skill_refs@.len() == 0 {
                    0
                } else {
                    detail.skill_refs@.len() - 1
                };
                &&& replaced
                &&& after == (AgentsViewState {
                    detail: Some(detail),
                    selected_assigned_skill: if s3.selected_assigned_skill < last {
                        s3.selected_assigned_skill
                    } else {
                        last as usize
                    },
                    ..s3
                })
            }
        })
    }

    /// Shows the agent `detail`. Refused while a protected memory workflow is bound to
    /// another profile version; memory bound to another version is reset; the selection
    /// follows the agent; a history of another agent is dropped with its version; the
    /// assigned-skill selection is clamped to the agent's skills.
    pub fn replace_detail(&mut self, detail: AgentProfileView) -> (replaced: bool)
        ensures
            old(self).detail_replaced(detail, replaced, *final(self)),
    {
        let bound = match &self.memory.profile {
            Some(identity) => Some(identity.profile),
            None => None,
        };
        let bound_is_detail = match bound {
            Some(profile) => profile == detail.profile,
            None => false,
        };
        if self.memory.has_protected_workflow() && !bound_is_detail {
            return false;
        }
        if bound.is_some() && !bound_is_detail {
            self.memory.invalidate_profile_context();
        }
        let profile_id = detail.profile.profile_id;
        if let Some(index) = find_profile(&self.profiles.profiles, profile_id) {
            self.select_profile_index(index);
        }
        let keep_history = match &self.history {
            Some(history) => history.profile_id == profile_id,
            None => false,
        };
        if !keep_history {
            self.history = None;
            self.version_detail = None;
        }
        let count = detail.skill_refs.len();
        let last = if count == 0 {
            0
        } else {
            count - 1
        };
        self.detail = Some(detail);
        if last < self.selected_assigned_skill {
            self.selected_assigned_skill = last;
        }
        true
    }

    /// Installing `history` leads from `self` to `after`, and `replaced` says whether it
    /// was installed; see `replace_history`.
    pub open spec fn history_replaced(self, history: AgentProfileHistoryView, replaced: bool, after: AgentsViewState) -> bool {
        ({
            let bound = self.bound_profile();
            let bound_matches = match bound {
                Some(p) => p.profile_id == history.profile_id && p.profile_version_id
                    == history.active_version_id,
                None => false,
            };
            if self.memory.protected() && !bound_matches {
                !replaced && after == self
            } else {
                let outdated = match bound {
                    Some(p) => p.profile_id == history.profile_id && p.profile_version_id
                        != history.active_version_id,
                    None => false,
                };
                let s1 = if outdated {
                    AgentsViewState {
                        memory: empty_memory(self.memory.generation),
                        ..self
                    }
                } else {
                    self
                };
                let s2 = s1.follow_row(history.profile_id);
                &&& replaced
                &&& after == (AgentsViewState {
                    selected_history_version: 0,
                    history_scroll: 0,
                    version_detail: None,
                    history: Some(history),
                    ..s2
                })
            }
        })
    }

    /// Installs the version history of an agent. Refused while a protected memory
    /// workflow is bound to another profile or version; memory bound to an older version
    /// of that profile is reset; the selection follows the agent; the first version is
    /// selected and no historical version is shown.
    pub fn replace_history(&mut self, history: AgentProfileHistoryView) -> (replaced: bool)
        ensures
            old(self).history_replaced(history, replaced, *final(self)),
    {
        let bound = match &self.memory.profile {
            Some(identity) => Some(identity.profile),
            None => None,
        };
        let bound_matches = match bound {
            Some(profile) => profile.profile_id == history.profile_id && profile.profile_version_id
                == history.active_version_id,
            None => false,
        };
        if self.memory.has_protected_workflow() && !bound_matches {
            return false;
        }
        let outdated = match bound {
            Some(profile) => profile.profile_id == history.profile_id && profile.profile_version_id
                != history.active_version_id,
            None => false,
        };
        if outdated {
            self.memory.invalidate_profile_context();
        }
        if let Some(index) = find_profile(&self.profiles.profiles, history.profile_id) {
            self.select_profile_index(index);
        }
        self.selected_history_version = 0;
        self.history_scroll = 0;
        self.version_detail = None;
        self.history = Some(history);
        true
    }

    /// Showing the historical version `version` leads from `self` to `after`, and
    /// `replaced` says whether it was shown; see `replace_version_detail`.
    pub open spec fn version_detail_replaced(self, version: AgentProfileVersionView, replaced: bool, after: AgentsViewState) -> bool {
        ({
            if self.memory.protected() && self.bound_profile() != Some(version.profile) {
                !replaced && after == self
            } else {
                let keep_history = match self.history {
                    Some(h) => h.profile_id == version.profile.profile_id,
                    None => false,
                };
                let s1 = if keep_history {
                    self
                } else {
                    AgentsViewState {
                        history: None,
                        selected_history_version: 0,
                        history_scroll: 0,
                        ..self
                    }
                };
                let s2 = s1.follow_row(version.profile.profile_id);
                &&& replaced
                &&& after == (AgentsViewState { version_detail: Some(version), ..s2 })
            }
        })
    }

    /// Shows a historical version of an agent. Refused while a protected memory workflow
    /// is bound to another profile version; a history of another agent is dropped with
    /// its selection and scroll; the selection follows the agent.
    pub fn replace_version_detail(&mut self, version: AgentProfileVersionView) -> (replaced: bool)
        ensures
            old(self).version_detail_replaced(version, replaced, *final(self)),
    {
        let bound_is_version = match &self.memory.profile {
            Some(identity) => identity.profile == version.profile,
            None => false,
        };
        if self.memory.has_protected_workflow() && !bound_is_version {
            return false;
        }
        let profile_id = version.profile.profile_id;
        let keep_history = match &self.history {
            Some(history) => history.profile_id == profile_id,
            None => false,
        };
        if !keep_history {
            self.history = None;
            self.selected_history_version = 0;
            self.history_scroll = 0;
        }
        if let Some(index) = find_profile(&self.profiles.profiles, profile_id) {
            self.select_profile_index(index);
        }
        self.version_detail = Some(version);
        true
    }
}

impl AgentsViewState {
    /// An agents workspace listing `profiles`, on the list pane, with nothing selected
    /// beyond the first row.
    pub fn new(profiles: AgentProfilesView) -> (state: AgentsViewState)
        ensures
            state == initial_agents(profiles),
    {
        AgentsViewState {
            selected_profile: 0,
            selected_template: 0,
            selected_detail_action: AgentDetailAction::AssignedSkills,
            memory: MemoryViewState::new(),
            pane: AgentsPane::List,
            list_scroll: 0,
            detail_scroll: 0,
            history_scroll: 0,
            selected_history_version: 0,
            skill_panel_open: false,
            selected_assigned_skill: 0,
            selected_skill_action_index: 0,
            editor: None,
            pending_confirmation: None,
            profiles,
            detail: None,
            history: None,
            version_detail: None,
        }
    }
}

impl Default for SkillsViewState {
    fn default() -> (state: Self)
        ensures
            state.library.skills@.len() == 0,
            state == initial_skills(state.library),
    {
        SkillsViewState::new()
    }
}

/// While the memory workspace has an editor, review or confirmation open, the agent
/// profile it belongs to stays selected: selecting a row of another profile is refused
/// and changes nothing, by index or by identifier.
pub proof fn law_protected_memory_pins_profile(
    agents: AgentsViewState,
    index: usize,
    profile_id: AgentProfileId,
)
    requires
        agents.memory.protected(),
    ensures
        profile_at(
            agents.profiles.profiles@,
            clamp_index(index, agents.profiles.profiles@.len()),
        ) != agents.selected_id() ==> agents.after_select(index) == (false, agents),
        Some(profile_id) != agents.selected_id() ==> agents.after_select_id(profile_id) == (
            false,
            agents,
        ),
{
    if Some(profile_id) != agents.selected_id() {
        match first_profile_index(agents.profiles.profiles@, profile_id) {
            Some(i) => {
                assert(agents.profiles.profiles.len() == agents.profiles.profiles@.len());
                lemma_first_profile_index_bounds(agents.profiles.profiles@, profile_id);
            },
            None => {},
        }
    }
}

impl AgentsViewState {
    /// Opens the editor on a new profile from template `template_index` of `templates`;
    /// false, changing nothing, when there is no such template.
    pub fn start_profile_create(&mut self, template_index: usize, templates: &Vec<ProfileTemplate>) -> (started:
        bool)
        ensures
            started == (template_index < templates@.len()),
            started ==> *final(self) == (AgentsViewState {
                editor: Some(ProfileEditorSession { profile_id: None }),
                pane: AgentsPane::Editor,
                ..*old(self)
            }),
            !started ==> *final(self) == *old(self),
    {
        if template_index >= templates.len() {
            return false;
        }
        self.editor = Some(ProfileEditorSession { profile_id: None });
        self.pane = AgentsPane::Editor;
        true
    }
}

} // verus!