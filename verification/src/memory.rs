//! The agent memory workspace: which profile's memory is bound, the pane shown,
//! and the generation counter that ties every asynchronous request to the state
//! that issued it, so that a late answer can never act on a newer workflow.
use vstd::prelude::*;
use crate::domain::{
    AgentProfileSelector, AgentProfileVersionRef, ApplicationCommand, EpisodicSummaryId, MemoryEntryId, MemoryEntryVersionId,
    MemoryNamespaceId, MemoryProfileIdentityView, MemoryProposalId,
};
use crate::error::DomainError;

verus! {

/// Panes of the memory workspace.
#[derive(Debug, Clone, Copy, PartialEq, Eq, Structural)]
pub enum MemoryPane {
    EntryList,
    EntryDetail,
    EntryHistory,
    Editor,
    MutationReview,
    Confirmation,
    Proposals,
    ProposalDetail,
    ProposalResolutionReview,
    EpisodicSummaries,
    EpisodicDetail,
    Result,
}

/// Actions offered on a memory entry.
#[derive(Debug, Clone, Copy, PartialEq, Eq, Structural)]
pub enum MemoryEntryDetailAction {
    Edit,
    Delete,
    History,
}

/// Actions offered on a memory proposal.
#[derive(Debug, Clone, Copy, PartialEq, Eq, Structural)]
pub enum MemoryProposalDetailAction {
    Approve,
    Reject,
}

/// Whether the memory editor creates an entry or edits one.
#[derive(Debug, Clone, Copy, PartialEq, Eq, Structural)]
pub enum MemoryEditorOrigin {
    Create,
    Edit,
}

/// What a shown memory result came from.
#[derive(Debug, Clone, Copy, PartialEq, Eq, Structural)]
pub enum MemoryResultOrigin {
    Mutation,
    Resolution,
}

/// A memory read or write awaiting its answer.
#[derive(Debug, Clone, PartialEq, Eq)]
pub enum MemoryOutcomeIntent {
    Entries,
    EntryDetail(MemoryEntryId),
    EntryHistory(MemoryEntryId),
    EntryVersion {
        selector: AgentProfileSelector,
        key: String,
        version: u64,
        entry_version_id: MemoryEntryVersionId,
    },
    Proposals,
    ProposalDetail(MemoryProposalId),
    Episodes,
    EpisodeDetail(EpisodicSummaryId),
    Mutation,
    Resolution,
}

/// The same profile selector: the same identifier, or the same name.
pub open spec fn same_selector(a: AgentProfileSelector, b: AgentProfileSelector) -> bool {
    match (a, b) {
        (AgentProfileSelector::Id(x), AgentProfileSelector::Id(y)) => x == y,
        (AgentProfileSelector::Name(x), AgentProfileSelector::Name(y)) => x@ == y@,
        _ => false,
    }
}

/// The same request: the same kind about the same object.
pub open spec fn same_intent(a: MemoryOutcomeIntent, b: MemoryOutcomeIntent) -> bool {
    match (a, b) {
        (MemoryOutcomeIntent::Entries, MemoryOutcomeIntent::Entries) => true,
        (MemoryOutcomeIntent::EntryDetail(x), MemoryOutcomeIntent::EntryDetail(y)) => x == y,
        (MemoryOutcomeIntent::EntryHistory(x), MemoryOutcomeIntent::EntryHistory(y)) => x == y,
        (
            MemoryOutcomeIntent::EntryVersion {
                selector: s1,
                key: k1,
                version: v1,
                entry_version_id: e1,
            },
            MemoryOutcomeIntent::EntryVersion {
                selector: s2,
                key: k2,
                version: v2,
                entry_version_id: e2,
            },
        ) => same_selector(s1, s2) && k1@ == k2@ && v1 == v2 && e1 == e2,
        (MemoryOutcomeIntent::Proposals, MemoryOutcomeIntent::Proposals) => true,
        (MemoryOutcomeIntent::ProposalDetail(x), MemoryOutcomeIntent::ProposalDetail(y)) => x
            == y,
        (MemoryOutcomeIntent::Episodes, MemoryOutcomeIntent::Episodes) => true,
        (MemoryOutcomeIntent::EpisodeDetail(x), MemoryOutcomeIntent::EpisodeDetail(y)) => x == y,
        (MemoryOutcomeIntent::Mutation, MemoryOutcomeIntent::Mutation) => true,
        (MemoryOutcomeIntent::Resolution, MemoryOutcomeIntent::Resolution) => true,
        _ => false,
    }
}

/// The same memory identity: the same profile version and display name.
pub open spec fn same_identity(a: MemoryProfileIdentityView, b: MemoryProfileIdentityView) -> bool {
    a.profile == b.profile && a.display_name@ == b.display_name@
}

/// Whether two selectors are the same.
pub fn selectors_match(a: &AgentProfileSelector, b: &AgentProfileSelector) -> (same: bool)
    ensures
        same == same_selector(*a, *b),
{
    match (a, b) {
        (AgentProfileSelector::Id(x), AgentProfileSelector::Id(y)) => x == y,
        (AgentProfileSelector::Name(x), AgentProfileSelector::Name(y)) => x.eq(y),
        _ => false,
    }
}

/// Whether two requests are the same.
pub fn intents_match(a: &MemoryOutcomeIntent, b: &MemoryOutcomeIntent) -> (same: bool)
    ensures
        same == same_intent(*a, *b),
{
    match (a, b) {
        (MemoryOutcomeIntent::Entries, MemoryOutcomeIntent::Entries) => true,
        (MemoryOutcomeIntent::EntryDetail(x), MemoryOutcomeIntent::EntryDetail(y)) => x == y,
        (MemoryOutcomeIntent::EntryHistory(x), MemoryOutcomeIntent::EntryHistory(y)) => x == y,
        (
            MemoryOutcomeIntent::EntryVersion {
                selector: s1,
                key: k1,
                version: v1,
                entry_version_id: e1,
            },
            MemoryOutcomeIntent::EntryVersion {
                selector: s2,
                key: k2,
                version: v2,
                entry_version_id: e2,
            },
        ) => selectors_match(s1, s2) && k1.eq(k2) && v1 == v2 && e1 == e2,
        (MemoryOutcomeIntent::Proposals, MemoryOutcomeIntent::Proposals) => true,
        (MemoryOutcomeIntent::ProposalDetail(x), MemoryOutcomeIntent::ProposalDetail(y)) => x
            == y,
        (MemoryOutcomeIntent::Episodes, MemoryOutcomeIntent::Episodes) => true,
        (MemoryOutcomeIntent::EpisodeDetail(x), MemoryOutcomeIntent::EpisodeDetail(y)) => x == y,
        (MemoryOutcomeIntent::Mutation, MemoryOutcomeIntent::Mutation) => true,
        (MemoryOutcomeIntent::Resolution, MemoryOutcomeIntent::Resolution) => true,
        _ => false,
    }
}

/// A version of a memory entry: the entry, the version record, its namespace.
#[derive(Debug, Clone, Copy, PartialEq, Eq, Structural)]
pub struct MemoryEntryRef {
    pub entry_id: MemoryEntryId,
    pub entry_version_id: MemoryEntryVersionId,
    pub namespace_id: MemoryNamespaceId,
    pub present: bool,
}

/// A memory proposal and the namespace it is for.
#[derive(Debug, Clone, Copy, PartialEq, Eq, Structural)]
pub struct MemoryProposalRef {
    pub proposal_id: MemoryProposalId,
    pub namespace_id: MemoryNamespaceId,
}

/// An episodic summary, the profile it is about and its namespace.
#[derive(Debug, Clone, Copy, PartialEq, Eq, Structural)]
pub struct EpisodeRef {
    pub summary_id: EpisodicSummaryId,
    pub profile: AgentProfileVersionRef,
    pub namespace_id: MemoryNamespaceId,
}

/// A page of memory entries of a profile's namespace.
#[derive(Debug, Clone, PartialEq, Eq)]
pub struct MemoryEntriesPage {
    pub profile: AgentProfileVersionRef,
    pub namespace_id: MemoryNamespaceId,
    pub entries: Vec<MemoryEntryRef>,
    pub returned_count: u64,
    pub omitted_count: u64,
    pub total_count: u64,
}

/// One memory entry version shown in detail.
#[derive(Debug, Clone, Copy, PartialEq, Eq, Structural)]
pub struct MemoryEntryPage {
    pub profile: AgentProfileVersionRef,
    pub entry: MemoryEntryRef,
}

/// The version history of a memory entry.
#[derive(Debug, Clone, PartialEq, Eq)]
pub struct MemoryHistoryPage {
    pub profile: AgentProfileVersionRef,
    pub current: MemoryEntryRef,
    pub versions: Vec<MemoryEntryRef>,
}

/// One historical version of a memory entry, with its normalized key and number.
#[derive(Debug, Clone, PartialEq, Eq)]
pub struct MemoryVersionPage {
    pub profile: AgentProfileVersionRef,
    pub entry: MemoryEntryRef,
    pub key: String,
    pub version: u64,
}

/// The entry a confirmed memory change left: its namespace, normalized key, whether it
/// is present (else deleted), and the entry.
#[derive(Debug, Clone, PartialEq, Eq)]
pub struct MemoryMutationResult {
    pub namespace_id: MemoryNamespaceId,
    pub key: String,
    pub present: bool,
    pub entry_id: MemoryEntryId,
}

/// Where a memory proposal stands.
#[derive(Debug, Clone, Copy, PartialEq, Eq, Structural)]
pub enum MemoryProposalStatus {
    Pending,
    Accepted,
    Rejected,
}

/// The resolution a confirmed proposal resolution recorded.
#[derive(Debug, Clone, Copy, PartialEq, Eq, Structural)]
pub struct MemoryResolutionResult {
    pub proposal: MemoryProposalRef,
    pub approval_id: u128,
    pub status: MemoryProposalStatus,
    pub entry: Option<MemoryEntryId>,
}

/// A page of memory proposals of a profile's namespace.
#[derive(Debug, Clone, PartialEq, Eq)]
pub struct MemoryProposalsPage {
    pub profile: AgentProfileVersionRef,
    pub namespace_id: MemoryNamespaceId,
    pub proposals: Vec<MemoryProposalRef>,
}

/// One memory proposal shown in detail, with the profile owning its namespace.
#[derive(Debug, Clone, Copy, PartialEq, Eq, Structural)]
pub struct MemoryProposalPage {
    pub owner: AgentProfileVersionRef,
    pub proposal: MemoryProposalRef,
}

/// A page of episodic summaries of a profile's namespace.
#[derive(Debug, Clone, PartialEq, Eq)]
pub struct EpisodesPage {
    pub profile: AgentProfileVersionRef,
    pub namespace_id: MemoryNamespaceId,
    pub summaries: Vec<EpisodeRef>,
}

/// The answer to a memory read: a page or one item in detail.
#[derive(Debug, Clone, PartialEq, Eq)]
pub enum MemoryAnswer {
    Entries(MemoryEntriesPage),
    Entry(MemoryEntryPage),
    History(MemoryHistoryPage),
    Proposals(MemoryProposalsPage),
    Proposal(MemoryProposalPage),
    Episodes(EpisodesPage),
    Episode(EpisodeRef),
    Version(MemoryVersionPage),
    Mutation(MemoryMutationResult),
    Resolution(MemoryResolutionResult),
}

/// What a detail pane shows exactly, by which it is told whether it changed.
#[derive(Debug, Clone, Copy, PartialEq, Eq, Structural)]
pub enum DetailIdentity {
    Entry(MemoryEntryRef),
    HistoricalEntry(MemoryEntryRef),
    Proposal(MemoryProposalRef),
    Episodic(EpisodeRef),
}

/// An open memory editor: the profile it writes to and, when editing, the entry it
/// started from.
#[derive(Debug, Clone, PartialEq, Eq)]
pub struct MemoryEditorSession {
    pub selector: AgentProfileSelector,
    pub seed: Option<MemoryEntryId>,
}

/// Whether a reviewed memory change sets or deletes an entry.
#[derive(Debug, Clone, Copy, PartialEq, Eq, Structural)]
pub enum MemoryMutationKind {
    SetEntry,
    DeleteEntry,
}

/// What a reviewed memory change expects of the entry it changes.
#[derive(Debug, Clone, Copy, PartialEq, Eq, Structural)]
pub enum ExpectedEntryState {
    Absent,
    Present(MemoryEntryId),
    Deleted(MemoryEntryId),
}

/// A reviewed memory change: its kind, the namespace and normalized key it changes,
/// and the state it expects the entry to be in.
#[derive(Debug, Clone, PartialEq, Eq)]
pub struct MemoryEditReview {
    pub operation: MemoryMutationKind,
    pub namespace_id: MemoryNamespaceId,
    pub key: String,
    pub expected: ExpectedEntryState,
}

/// Whether a reviewed proposal resolution approves or rejects.
#[derive(Debug, Clone, Copy, PartialEq, Eq, Structural)]
pub enum MemoryResolutionAction {
    Approve,
    Reject,
}

/// A reviewed proposal resolution: the action, the proposal and the approval it records.
#[derive(Debug, Clone, Copy, PartialEq, Eq, Structural)]
pub struct MemoryResolutionReview {
    pub action: MemoryResolutionAction,
    pub proposal: MemoryProposalRef,
    pub approval_id: u128,
}

/// A confirmation of a reviewed memory command, tied to the generation it was made in.
#[derive(Debug, Clone, PartialEq, Eq)]
pub struct MemoryConfirmation {
    pub command: ApplicationCommand,
    pub generation: u64,
}

/// State of the memory workspace of the selected agent profile.
#[derive(Debug, Clone, PartialEq, Eq)]
pub struct MemoryViewState {
    pub profile: Option<MemoryProfileIdentityView>,
    pub namespace_id: Option<MemoryNamespaceId>,
    pub pane: MemoryPane,
    pub entries: Option<MemoryEntriesPage>,
    pub entry_detail: Option<MemoryEntryPage>,
    pub entry_history: Option<MemoryHistoryPage>,
    pub entry_version: Option<MemoryVersionPage>,
    pub proposals: Option<MemoryProposalsPage>,
    pub proposal_detail: Option<MemoryProposalPage>,
    pub episodes: Option<EpisodesPage>,
    pub episode_detail: Option<EpisodeRef>,
    pub selected_entry: usize,
    pub selected_history_version: usize,
    pub selected_proposal: usize,
    pub selected_episode: usize,
    pub selected_entry_detail_action: MemoryEntryDetailAction,
    pub selected_proposal_detail_action: MemoryProposalDetailAction,
    pub entry_scroll: usize,
    pub detail_scroll: usize,
    pub history_scroll: usize,
    pub proposal_scroll: usize,
    pub episode_scroll: usize,
    pub editor: Option<MemoryEditorSession>,
    pub editor_origin: MemoryEditorOrigin,
    pub edit_review: Option<MemoryEditReview>,
    pub resolution_review: Option<MemoryResolutionReview>,
    pub confirmation: Option<MemoryConfirmation>,
    pub review_registered: bool,
    pub result_origin: MemoryResultOrigin,
    pub generation: u64,
    pub pending_intent: Option<MemoryOutcomeIntent>,
}

/// Position of the first `key` in `keys`.
pub open spec fn first_key_index(keys: Seq<u128>, key: u128) -> nat
    decreases keys.len(),
{
    if keys.len() == 0 || keys[0] == key {
        0
    } else {
        1 + first_key_index(keys.drop_first(), key)
    }
}

/// The key at row `i`, if there is that row.
pub open spec fn key_at(keys: Seq<u128>, i: usize) -> Option<u128> {
    if i < keys.len() {
        Some(keys[i as int])
    } else {
        None
    }
}

/// The selection once a page is replaced: the row of the key selected before when the
/// page still lists it, else the former row clamped to the page.
pub open spec fn reselected(previous: Option<u128>, selected: usize, keys: Seq<u128>) -> usize {
    match previous {
        Some(key) if keys.contains(key) => first_key_index(keys, key) as usize,
        _ => if keys.len() == 0 {
            0
        } else if selected < keys.len() {
            selected
        } else {
            (keys.len() - 1) as usize
        },
    }
}

/// The smaller of two rows.
pub open spec fn min_row(a: usize, b: usize) -> usize {
    if a < b {
        a
    } else {
        b
    }
}

/// The entry identifiers of a page of entries.
pub open spec fn entry_keys(entries: Seq<MemoryEntryRef>) -> Seq<u128> {
    entries.map_values(|entry: MemoryEntryRef| entry.entry_id.0)
}

/// The version identifiers of an entry history.
pub open spec fn version_keys(versions: Seq<MemoryEntryRef>) -> Seq<u128> {
    versions.map_values(|entry: MemoryEntryRef| entry.entry_version_id.0)
}

/// The proposal identifiers of a page of proposals.
pub open spec fn proposal_keys(proposals: Seq<MemoryProposalRef>) -> Seq<u128> {
    proposals.map_values(|proposal: MemoryProposalRef| proposal.proposal_id.0)
}

/// The summary identifiers of a page of episodic summaries.
pub open spec fn episode_keys(summaries: Seq<EpisodeRef>) -> Seq<u128> {
    summaries.map_values(|summary: EpisodeRef| summary.summary_id.0)
}

/// The first position of `key` in `keys`, if listed.
pub fn position_of_key(keys: &Vec<u128>, key: u128) -> (found: Option<usize>)
    ensures
        match found {
            Some(i) => keys@.contains(key) && i == first_key_index(keys@, key) && i < keys@.len(),
            None => !keys@.contains(key),
        },
{
    let mut i: usize = 0;
    while i < keys.len()
        invariant
            i <= keys@.len(),
            forall|j: int| 0 <= j < i ==> keys@[j] != key,
        decreases keys@.len() - i,
    {
        if keys[i] == key {
            proof {
                lemma_first_key_index(keys@, key, i as int);
            }
            return Some(i);
        }
        i = i + 1;
    }
    None
}

/// The first position of `key` is the one before which no key is `key`.
pub proof fn lemma_first_key_index(keys: Seq<u128>, key: u128, i: int)
    requires
        0 <= i < keys.len(),
        keys[i] == key,
        forall|j: int| 0 <= j < i ==> keys[j] != key,
    ensures
        first_key_index(keys, key) == i,
        keys.contains(key),
    decreases i,
{
    if i > 0 {
        assert(keys[0] != key);
        let rest = keys.drop_first();
        assert forall|j: int| 0 <= j < i - 1 implies rest[j] != key by {
            assert(rest[j] == keys[j + 1]);
        }
        lemma_first_key_index(rest, key, i - 1);
    }
}

/// The selection once a page is replaced; see `reselected`.
pub fn reselect(previous: Option<u128>, selected: usize, keys: &Vec<u128>) -> (row: usize)
    ensures
        row == reselected(previous, selected, keys@),
{
    let found = match previous {
        Some(key) => position_of_key(keys, key),
        None => None,
    };
    match found {
        Some(i) => i,
        None => {
            if keys.len() == 0 {
                0
            } else if selected < keys.len() {
                selected
            } else {
                keys.len() - 1
            }
        },
    }
}

/// The entry identifiers of `entries`.
fn entry_key_list(entries: &Vec<MemoryEntryRef>) -> (keys: Vec<u128>)
    ensures
        keys@ == entry_keys(entries@),
{
    let mut keys: Vec<u128> = Vec::new();
    let mut i: usize = 0;
    while i < entries.len()
        invariant
            i <= entries@.len(),
            keys@ == entry_keys(entries@.take(i as int)),
        decreases entries@.len() - i,
    {
        keys.push(entries[i].entry_id.0);
        i = i + 1;
        assert(keys@ =~= entry_keys(entries@.take(i as int)));
    }
    assert(entries@.take(i as int) =~= entries@);
    keys
}

/// The version identifiers of `versions`.
fn version_key_list(versions: &Vec<MemoryEntryRef>) -> (keys: Vec<u128>)
    ensures
        keys@ == version_keys(versions@),
{
    let mut keys: Vec<u128> = Vec::new();
    let mut i: usize = 0;
    while i < versions.len()
        invariant
            i <= versions@.len(),
            keys@ == version_keys(versions@.take(i as int)),
        decreases versions@.len() - i,
    {
        keys.push(versions[i].entry_version_id.0);
        i = i + 1;
        assert(keys@ =~= version_keys(versions@.take(i as int)));
    }
    assert(versions@.take(i as int) =~= versions@);
    keys
}

/// The proposal identifiers of `proposals`.
fn proposal_key_list(proposals: &Vec<MemoryProposalRef>) -> (keys: Vec<u128>)
    ensures
        keys@ == proposal_keys(proposals@),
{
    let mut keys: Vec<u128> = Vec::new();
    let mut i: usize = 0;
    while i < proposals.len()
        invariant
            i <= proposals@.len(),
            keys@ == proposal_keys(proposals@.take(i as int)),
        decreases proposals@.len() - i,
    {
        keys.push(proposals[i].proposal_id.0);
        i = i + 1;
        assert(keys@ =~= proposal_keys(proposals@.take(i as int)));
    }
    assert(proposals@.take(i as int) =~= proposals@);
    keys
}

/// The summary identifiers of `summaries`.
fn episode_key_list(summaries: &Vec<EpisodeRef>) -> (keys: Vec<u128>)
    ensures
        keys@ == episode_keys(summaries@),
{
    let mut keys: Vec<u128> = Vec::new();
    let mut i: usize = 0;
    while i < summaries.len()
        invariant
            i <= summaries@.len(),
            keys@ == episode_keys(summaries@.take(i as int)),
        decreases summaries@.len() - i,
    {
        keys.push(summaries[i].summary_id.0);
        i = i + 1;
        assert(keys@ =~= episode_keys(summaries@.take(i as int)));
    }
    assert(summaries@.take(i as int) =~= summaries@);
    keys
}

/// The key at row `i` of `keys`; see `key_at`.
fn key_at_row(keys: &Vec<u128>, i: usize) -> (key: Option<u128>)
    ensures
        key == key_at(keys@, i),
{
    if i < keys.len() {
        Some(keys[i])
    } else {
        None
    }
}

/// The workspace bound to no profile, at generation `generation`.
pub open spec fn empty_memory(generation: u64) -> MemoryViewState {
    MemoryViewState {
        profile: None,
        namespace_id: None,
        pane: MemoryPane::EntryList,
        entries: None,
        entry_detail: None,
        entry_history: None,
        entry_version: None,
        proposals: None,
        proposal_detail: None,
        episodes: None,
        episode_detail: None,
        selected_entry: 0,
        selected_history_version: 0,
        selected_proposal: 0,
        selected_episode: 0,
        selected_entry_detail_action: MemoryEntryDetailAction::Edit,
        selected_proposal_detail_action: MemoryProposalDetailAction::Approve,
        entry_scroll: 0,
        detail_scroll: 0,
        history_scroll: 0,
        proposal_scroll: 0,
        episode_scroll: 0,
        editor: None,
        editor_origin: MemoryEditorOrigin::Create,
        edit_review: None,
        resolution_review: None,
        confirmation: None,
        review_registered: false,
        result_origin: MemoryResultOrigin::Mutation,
        generation,
        pending_intent: None,
    }
}

impl MemoryViewState {
    /// A review, confirmation or editor is open: such a workflow pins the bound profile.
    pub open spec fn protected(self) -> bool {
        self.editor is Some || self.edit_review is Some || self.resolution_review is Some
            || self.confirmation is Some || self.review_registered
    }

    /// A review or confirmation is open or registered.
    pub open spec fn reviewing(self) -> bool {
        self.edit_review is Some || self.resolution_review is Some || self.confirmation is Some
            || self.review_registered
    }

    /// An empty workspace at generation zero.
    pub fn new() -> (state: MemoryViewState)
        ensures
            state == empty_memory(0),
    {
        MemoryViewState::unbound(0)
    }

    /// An empty workspace at generation `generation`.
    fn unbound(generation: u64) -> (state: MemoryViewState)
        ensures
            state == empty_memory(generation),
    {
        MemoryViewState {
            profile: None,
            namespace_id: None,
            pane: MemoryPane::EntryList,
            entries: None,
            entry_detail: None,
            entry_history: None,
            entry_version: None,
            proposals: None,
            proposal_detail: None,
            episodes: None,
            episode_detail: None,
            selected_entry: 0,
            selected_history_version: 0,
            selected_proposal: 0,
            selected_episode: 0,
            selected_entry_detail_action: MemoryEntryDetailAction::Edit,
            selected_proposal_detail_action: MemoryProposalDetailAction::Approve,
            entry_scroll: 0,
            detail_scroll: 0,
            history_scroll: 0,
            proposal_scroll: 0,
            episode_scroll: 0,
            editor: None,
            editor_origin: MemoryEditorOrigin::Create,
            edit_review: None,
            resolution_review: None,
            confirmation: None,
            review_registered: false,
            result_origin: MemoryResultOrigin::Mutation,
            generation,
            pending_intent: None,
        }
    }

    /// Shows `pane`; the detail scroll restarts when the pane changes.
    pub fn transition_to(&mut self, pane: MemoryPane)
        ensures
            *final(self) == (if old(self).pane == pane {
                *old(self)
            } else {
                MemoryViewState { pane, detail_scroll: 0, ..*old(self) }
            }),
    {
        if self.pane != pane {
            self.pane = pane;
            self.detail_scroll = 0;
        }
    }

    /// Whether an editor, review or confirmation is open.
    pub fn has_protected_workflow(&self) -> (protected: bool)
        ensures
            protected == self.protected(),
    {
        self.editor.is_some() || self.edit_review.is_some() || self.resolution_review.is_some()
            || self.confirmation.is_some() || self.review_registered
    }

    /// Forgets everything about the bound profile; only the generation survives.
    pub fn invalidate_profile_context(&mut self)
        ensures
            *final(self) == empty_memory(old(self).generation),
    {
        let generation = self.generation;
        *self = MemoryViewState::unbound(generation);
    }

    /// Binds the workspace to `profile` and its namespace. Binding the bound profile
    /// again changes nothing; binding another is refused while a protected workflow is
    /// open, and otherwise starts from an empty workspace.
    pub fn bind_profile(&mut self, profile: MemoryProfileIdentityView, namespace_id: MemoryNamespaceId)
        -> (result: Result<(), DomainError>)
        ensures
            ({
                let unchanged = match old(self).profile {
                    Some(p) => same_identity(p, profile) && old(self).namespace_id == Some(
                        namespace_id,
                    ),
                    None => false,
                };
                if unchanged {
                    result is Ok && *final(self) == *old(self)
                } else if old(self).protected() {
                    result == Err::<(), DomainError>(DomainError::MemoryReviewUnavailable)
                        && *final(self) == *old(self)
                } else {
                    &&& result is Ok
                    &&& *final(self) == (MemoryViewState {
                        profile: Some(profile),
                        namespace_id: Some(namespace_id),
                        ..empty_memory(old(self).generation)
                    })
                }
            }),
    {
        let unchanged = match &self.profile {
            Some(current) => current.profile == profile.profile && current.display_name
                == profile.display_name && self.namespace_id == Some(namespace_id),
            None => false,
        };
        if unchanged {
            return Ok(());
        }
        if self.has_protected_workflow() {
            return Err(DomainError::MemoryReviewUnavailable);
        }
        self.invalidate_profile_context();
        self.profile = Some(profile);
        self.namespace_id = Some(namespace_id);
        Ok(())
    }

    /// Opens an editor for a new entry of `selector`'s memory, in a new generation.
    /// Refused when the generation would overflow or a protected workflow is open.
    pub fn open_create_editor(&mut self, selector: AgentProfileSelector) -> (result: Result<
        (),
        DomainError,
    >)
        ensures
            if old(self).generation == u64::MAX {
                result == Err::<(), DomainError>(DomainError::MemoryGenerationOverflow)
                    && *final(self) == *old(self)
            } else if old(self).protected() {
                result == Err::<(), DomainError>(DomainError::MemoryReviewUnavailable)
                    && *final(self) == *old(self)
            } else {
                &&& result is Ok
                &&& final(self).generation == old(self).generation + 1
                &&& final(self).editor == Some(MemoryEditorSession { selector, seed: None })
                &&& final(self).editor_origin == MemoryEditorOrigin::Create
                &&& final(self).edit_review is None
                &&& final(self).resolution_review is None
                &&& final(self).confirmation is None
                &&& !final(self).review_registered
                &&& final(self).pending_intent is None
                &&& final(self).pane == MemoryPane::Editor
                &&& final(self).profile == old(self).profile
                &&& final(self).namespace_id == old(self).namespace_id
            },
    {
        let generation = match self.generation.checked_add(1) {
            Some(generation) => generation,
            None => return Err(DomainError::MemoryGenerationOverflow),
        };
        if self.has_protected_workflow() {
            return Err(DomainError::MemoryReviewUnavailable);
        }
        self.generation = generation;
        self.editor = Some(MemoryEditorSession { selector, seed: None });
        self.editor_origin = MemoryEditorOrigin::Create;
        self.edit_review = None;
        self.resolution_review = None;
        self.confirmation = None;
        self.review_registered = false;
        self.pending_intent = None;
        self.transition_to(MemoryPane::Editor);
        Ok(())
    }

    /// Opens an editor on the existing entry `entry_id` of `selector`'s memory, in a new
    /// generation. Refused when the generation would overflow or a protected workflow is
    /// open.
    pub fn open_edit_editor(&mut self, selector: AgentProfileSelector, entry_id: MemoryEntryId) -> (result:
        Result<(), DomainError>)
        ensures
            if old(self).generation == u64::MAX {
                result == Err::<(), DomainError>(DomainError::MemoryGenerationOverflow)
                    && *final(self) == *old(self)
            } else if old(self).protected() {
                result == Err::<(), DomainError>(DomainError::MemoryReviewUnavailable)
                    && *final(self) == *old(self)
            } else {
                &&& result is Ok
                &&& final(self).generation == old(self).generation + 1
                &&& final(self).editor == Some(MemoryEditorSession { selector, seed: Some(entry_id) })
                &&& final(self).editor_origin == MemoryEditorOrigin::Edit
                &&& final(self).edit_review is None
                &&& final(self).resolution_review is None
                &&& final(self).confirmation is None
                &&& !final(self).review_registered
                &&& final(self).pending_intent is None
                &&& final(self).pane == MemoryPane::Editor
                &&& final(self).profile == old(self).profile
                &&& final(self).namespace_id == old(self).namespace_id
            },
    {
        let generation = match self.generation.checked_add(1) {
            Some(generation) => generation,
            None => return Err(DomainError::MemoryGenerationOverflow),
        };
        if self.has_protected_workflow() {
            return Err(DomainError::MemoryReviewUnavailable);
        }
        self.generation = generation;
        self.editor = Some(MemoryEditorSession { selector, seed: Some(entry_id) });
        self.editor_origin = MemoryEditorOrigin::Edit;
        self.edit_review = None;
        self.resolution_review = None;
        self.confirmation = None;
        self.review_registered = false;
        self.pending_intent = None;
        self.transition_to(MemoryPane::Editor);
        Ok(())
    }

    /// The generation a new review request would carry: refused on overflow or while
    /// a review or confirmation is open or registered.
    pub fn next_review_request_generation(&self) -> (result: Result<u64, DomainError>)
        ensures
            if self.generation == u64::MAX {
                result == Err::<u64, DomainError>(DomainError::MemoryGenerationOverflow)
            } else if self.reviewing() {
                result == Err::<u64, DomainError>(DomainError::MemoryReviewUnavailable)
            } else {
                result == Ok::<u64, DomainError>((self.generation + 1) as u64)
            },
    {
        let generation = match self.generation.checked_add(1) {
            Some(generation) => generation,
            None => return Err(DomainError::MemoryGenerationOverflow),
        };
        if self.edit_review.is_some() || self.resolution_review.is_some()
            || self.confirmation.is_some() || self.review_registered {
            return Err(DomainError::MemoryReviewUnavailable);
        }
        Ok(generation)
    }

    /// Starts a review request in a new generation and drops any pending read.
    pub fn begin_review_request(&mut self) -> (result: Result<u64, DomainError>)
        ensures
            match result {
                Ok(generation) => {
                    &&& old(self).generation < u64::MAX
                    &&& !old(self).reviewing()
                    &&& generation == old(self).generation + 1
                    &&& *final(self) == (MemoryViewState {
                        generation,
                        pending_intent: None,
                        ..*old(self)
                    })
                },
                Err(error) => {
                    &&& *final(self) == *old(self)
                    &&& (old(self).generation == u64::MAX ==> error
                        == DomainError::MemoryGenerationOverflow)
                    &&& (old(self).generation < u64::MAX ==> error
                        == DomainError::MemoryReviewUnavailable && old(self).reviewing())
                },
            },
    {
        let generation = self.next_review_request_generation()?;
        self.generation = generation;
        self.pending_intent = None;
        Ok(generation)
    }

    /// The selector of the bound profile.
    pub fn profile_selector(&self) -> (result: Result<AgentProfileSelector, DomainError>)
        ensures
            match self.profile {
                Some(identity) => result == Ok::<AgentProfileSelector, DomainError>(
                    AgentProfileSelector::Id(identity.profile.profile_id),
                ),
                None => result == Err::<AgentProfileSelector, DomainError>(
                    DomainError::MemorySelectionUnavailable,
                ),
            },
    {
        match &self.profile {
            Some(identity) => Ok(AgentProfileSelector::Id(identity.profile.profile_id)),
            None => Err(DomainError::MemorySelectionUnavailable),
        }
    }

    /// Records `intent` as the pending request of a new generation, which it returns.
    pub fn begin_pending(&mut self, intent: MemoryOutcomeIntent) -> (result: Result<u64, DomainError>)
        ensures
            if old(self).generation == u64::MAX {
                result == Err::<u64, DomainError>(DomainError::MemoryGenerationOverflow)
                    && *final(self) == *old(self)
            } else {
                &&& result == Ok::<u64, DomainError>((old(self).generation + 1) as u64)
                &&& *final(self) == (MemoryViewState {
                    generation: (old(self).generation + 1) as u64,
                    pending_intent: Some(intent),
                    ..*old(self)
                })
            },
    {
        let generation = match self.generation.checked_add(1) {
            Some(generation) => generation,
            None => return Err(DomainError::MemoryGenerationOverflow),
        };
        self.generation = generation;
        self.pending_intent = Some(intent);
        Ok(generation)
    }

    /// Drops the pending request.
    pub fn clear_pending(&mut self)
        ensures
            *final(self) == (MemoryViewState { pending_intent: None, ..*old(self) }),
    {
        self.pending_intent = None;
    }

    /// Drops the pending request only when it is `intent` in generation `generation`;
    /// reports whether it did.
    pub fn clear_pending_if(&mut self, intent: &MemoryOutcomeIntent, generation: u64) -> (cleared:
        bool)
        ensures
            cleared == (old(self).generation == generation && match old(self).pending_intent {
                Some(pending) => same_intent(pending, *intent),
                None => false,
            }),
            cleared ==> *final(self) == (MemoryViewState { pending_intent: None, ..*old(self) }),
            !cleared ==> *final(self) == *old(self),
    {
        if self.generation != generation {
            return false;
        }
        let matches = match &self.pending_intent {
            Some(pending) => intents_match(pending, intent),
            None => false,
        };
        if !matches {
            return false;
        }
        self.pending_intent = None;
        true
    }
}

impl Default for MemoryViewState {
    fn default() -> (state: Self)
        ensures
            state == empty_memory(0),
    {
        MemoryViewState::new()
    }
}

/// The request begun last is cleared by its own answer, and only by it: after
/// `begin_pending(intent)`, `clear_pending_if` clears exactly for an intent that is the
/// same request as `intent` together with the generation `begin_pending` returned; an
/// answer carrying an earlier generation, or another request, leaves it pending.
pub proof fn law_pending_cleared_only_by_its_own_answer(
    before: MemoryViewState,
    intent: MemoryOutcomeIntent,
    issued: u64,
    after: MemoryViewState,
    answer: MemoryOutcomeIntent,
    generation: u64,
)
    requires
        before.generation < u64::MAX,
        issued == before.generation + 1,
        after == (MemoryViewState { generation: issued, pending_intent: Some(intent), ..before }),
    ensures
        (after.generation == generation && match after.pending_intent {
            Some(pending) => same_intent(pending, answer),
            None => false,
        }) <==> (generation == issued && same_intent(intent, answer)),
        generation <= before.generation ==> !(after.generation == generation),
        same_intent(intent, intent),
{
    lemma_same_intent_reflexive(intent);
}

/// Every request is the same request as itself.
pub proof fn lemma_same_intent_reflexive(intent: MemoryOutcomeIntent)
    ensures
        same_intent(intent, intent),
{
    match intent {
        MemoryOutcomeIntent::EntryVersion { selector, .. } => {
            match selector {
                AgentProfileSelector::Id(_) => {},
                AgentProfileSelector::Name(_) => {},
            }
        },
        _ => {},
    }
}

impl MemoryViewState {
    /// The bound profile and namespace are `profile` and `namespace_id`.
    pub open spec fn bound_to(self, profile: AgentProfileVersionRef, namespace_id: MemoryNamespaceId) -> bool {
        &&& self.profile is Some
        &&& self.profile->0.profile == profile
        &&& self.namespace_id == Some(namespace_id)
    }

    /// `answer` answers `intent` for the bound profile and namespace: a page of the
    /// requested kind, or the requested item, of exactly that profile and namespace.
    pub open spec fn answers(self, intent: MemoryOutcomeIntent, answer: MemoryAnswer) -> bool {
        match (intent, answer) {
            (MemoryOutcomeIntent::Entries, MemoryAnswer::Entries(page)) => self.bound_to(
                page.profile,
                page.namespace_id,
            ),
            (MemoryOutcomeIntent::EntryDetail(expected), MemoryAnswer::Entry(page)) => page.entry.entry_id
                == expected && self.bound_to(page.profile, page.entry.namespace_id),
            (MemoryOutcomeIntent::EntryHistory(expected), MemoryAnswer::History(page)) => page.current.entry_id
                == expected && self.bound_to(page.profile, page.current.namespace_id),
            (MemoryOutcomeIntent::Proposals, MemoryAnswer::Proposals(page)) => self.bound_to(
                page.profile,
                page.namespace_id,
            ),
            (MemoryOutcomeIntent::ProposalDetail(expected), MemoryAnswer::Proposal(page)) => page.proposal.proposal_id
                == expected && self.bound_to(page.owner, page.proposal.namespace_id),
            (MemoryOutcomeIntent::Episodes, MemoryAnswer::Episodes(page)) => self.bound_to(
                page.profile,
                page.namespace_id,
            ),
            (MemoryOutcomeIntent::EpisodeDetail(expected), MemoryAnswer::Episode(summary)) => summary.summary_id
                == expected && self.bound_to(summary.profile, summary.namespace_id),
            (
                MemoryOutcomeIntent::EntryVersion { selector, key, version, entry_version_id },
                MemoryAnswer::Version(page),
            ) => {
                &&& self.selects_bound_profile(selector)
                &&& self.bound_to(page.profile, page.entry.namespace_id)
                &&& page.key@ == key@
                &&& page.version == version
                &&& page.entry.entry_version_id == entry_version_id
            },
            (MemoryOutcomeIntent::Mutation, MemoryAnswer::Mutation(result)) => self.mutation_confirmed(result),
            (MemoryOutcomeIntent::Resolution, MemoryAnswer::Resolution(result)) => self.resolution_confirmed(
                result,
            ),
            _ => false,
        }
    }

    /// `selector` names the bound profile: by its identifier, or by its display name.
    pub open spec fn selects_bound_profile(self, selector: AgentProfileSelector) -> bool {
        match self.profile {
            Some(identity) => match selector {
                AgentProfileSelector::Id(profile_id) => identity.profile.profile_id == profile_id,
                AgentProfileSelector::Name(name) => name@ == identity.display_name@,
            },
            None => false,
        }
    }

    /// The confirmed command, when the confirmation belongs to the current generation.
    pub open spec fn confirmed(self) -> Option<ApplicationCommand> {
        match self.confirmation {
            Some(confirmation) => if confirmation.generation == self.generation {
                Some(confirmation.command)
            } else {
                None
            },
            None => None,
        }
    }

    /// `result` is what the confirmed, reviewed memory change was to leave: a change of
    /// the reviewed kind, in the reviewed namespace, the reviewed key present after a set
    /// or deleted after a delete of a present entry, and the expected entry when one was
    /// expected.
    pub open spec fn mutation_confirmed(self, result: MemoryMutationResult) -> bool {
        match (self.confirmed(), self.edit_review) {
            (Some(command), Some(review)) => {
                let kind_agrees = match (review.operation, command) {
                    (MemoryMutationKind::SetEntry, ApplicationCommand::SetMemoryEntry { .. }) => true,
                    (MemoryMutationKind::DeleteEntry, ApplicationCommand::DeleteMemoryEntry { .. }) => true,
                    _ => false,
                };
                let state_agrees = match review.operation {
                    MemoryMutationKind::SetEntry => result.present,
                    MemoryMutationKind::DeleteEntry => review.expected is Present && !result.present,
                };
                let entry_agrees = match review.expected {
                    ExpectedEntryState::Absent => true,
                    ExpectedEntryState::Present(entry_id) => result.entry_id == entry_id,
                    ExpectedEntryState::Deleted(entry_id) => result.entry_id == entry_id,
                };
                &&& kind_agrees
                &&& result.namespace_id == review.namespace_id
                &&& result.key@ == review.key@
                &&& state_agrees
                &&& entry_agrees
            },
            _ => false,
        }
    }

    /// `result` is what the confirmed, reviewed proposal resolution was to record: the
    /// reviewed action, proposal and approval, accepted after an approval and rejected
    /// after a rejection.
    pub open spec fn resolution_confirmed(self, result: MemoryResolutionResult) -> bool {
        match (self.confirmed(), self.resolution_review) {
            (Some(command), Some(review)) => {
                &&& match (review.action, command) {
                    (MemoryResolutionAction::Approve, ApplicationCommand::ApproveMemoryProposal { .. }) => true,
                    (MemoryResolutionAction::Reject, ApplicationCommand::RejectMemoryProposal { .. }) => true,
                    _ => false,
                }
                &&& result.proposal == review.proposal
                &&& result.approval_id == review.approval_id
                &&& result.status == match review.action {
                    MemoryResolutionAction::Approve => MemoryProposalStatus::Accepted,
                    MemoryResolutionAction::Reject => MemoryProposalStatus::Rejected,
                }
            },
            _ => false,
        }
    }

    /// The workspace with `answer` installed. A page keeps the selection on the same
    /// item when it still lists it, else clamps it (see `reselected`), keeps the scroll
    /// above the selection, and drops a detail that is no longer the selected item (the
    /// entry detail with its history and version, the historical version, the proposal
    /// or the summary). An item in detail replaces the one shown.
    pub open spec fn installed(self, answer: MemoryAnswer) -> MemoryViewState {
        match answer {
            MemoryAnswer::Entries(page) => {
                let keys = entry_keys(page.entries@);
                let previous = match self.entries {
                    Some(old_page) => key_at(entry_keys(old_page.entries@), self.selected_entry),
                    None => None,
                };
                let selected = reselected(previous, self.selected_entry, keys);
                let shown = match self.entry_detail {
                    Some(detail) => Some(detail.entry.entry_id.0),
                    None => None,
                };
                let placed = MemoryViewState {
                    entries: Some(page),
                    selected_entry: selected,
                    entry_scroll: min_row(self.entry_scroll, selected),
                    ..self
                };
                if shown != key_at(keys, selected) {
                    MemoryViewState { entry_detail: None, entry_history: None, entry_version: None, ..placed }
                } else {
                    placed
                }
            },
            MemoryAnswer::Entry(page) => MemoryViewState { entry_detail: Some(page), ..self },
            MemoryAnswer::History(page) => {
                let keys = version_keys(page.versions@);
                let previous = match self.entry_history {
                    Some(old_page) => key_at(version_keys(old_page.versions@), self.selected_history_version),
                    None => None,
                };
                let selected = reselected(previous, self.selected_history_version, keys);
                let shown = match self.entry_version {
                    Some(detail) => Some(detail.entry.entry_version_id.0),
                    None => None,
                };
                let placed = MemoryViewState {
                    entry_history: Some(page),
                    selected_history_version: selected,
                    history_scroll: min_row(self.history_scroll, selected),
                    ..self
                };
                if shown != key_at(keys, selected) {
                    MemoryViewState { entry_version: None, ..placed }
                } else {
                    placed
                }
            },
            MemoryAnswer::Proposals(page) => {
                let keys = proposal_keys(page.proposals@);
                let previous = match self.proposals {
                    Some(old_page) => key_at(proposal_keys(old_page.proposals@), self.selected_proposal),
                    None => None,
                };
                let selected = reselected(previous, self.selected_proposal, keys);
                let shown = match self.proposal_detail {
                    Some(detail) => Some(detail.proposal.proposal_id.0),
                    None => None,
                };
                let placed = MemoryViewState {
                    proposals: Some(page),
                    selected_proposal: selected,
                    proposal_scroll: min_row(self.proposal_scroll, selected),
                    ..self
                };
                if shown != key_at(keys, selected) {
                    MemoryViewState { proposal_detail: None, ..placed }
                } else {
                    placed
                }
            },
            MemoryAnswer::Proposal(page) => MemoryViewState { proposal_detail: Some(page), ..self },
            MemoryAnswer::Episodes(page) => {
                let keys = episode_keys(page.summaries@);
                let previous = match self.episodes {
                    Some(old_page) => key_at(episode_keys(old_page.summaries@), self.selected_episode),
                    None => None,
                };
                let selected = reselected(previous, self.selected_episode, keys);
                let shown = match self.episode_detail {
                    Some(detail) => Some(detail.summary_id.0),
                    None => None,
                };
                let placed = MemoryViewState {
                    episodes: Some(page),
                    selected_episode: selected,
                    episode_scroll: min_row(self.episode_scroll, selected),
                    ..self
                };
                if shown != key_at(keys, selected) {
                    MemoryViewState { episode_detail: None, ..placed }
                } else {
                    placed
                }
            },
            MemoryAnswer::Episode(summary) => MemoryViewState { episode_detail: Some(summary), ..self },
            MemoryAnswer::Version(page) => MemoryViewState { entry_version: Some(page), ..self },
            MemoryAnswer::Mutation(_) => self,
            MemoryAnswer::Resolution(_) => self,
        }
    }

    /// What the pane shown displays exactly, for the detail panes.
    pub open spec fn identity(self) -> Option<DetailIdentity> {
        match self.pane {
            MemoryPane::EntryDetail => match self.entry_detail {
                Some(detail) => Some(DetailIdentity::Entry(detail.entry)),
                None => None,
            },
            MemoryPane::EntryHistory => match self.entry_version {
                Some(detail) => Some(DetailIdentity::HistoricalEntry(detail.entry)),
                None => None,
            },
            MemoryPane::ProposalDetail => match self.proposal_detail {
                Some(detail) => Some(DetailIdentity::Proposal(detail.proposal)),
                None => None,
            },
            MemoryPane::EpisodicDetail => match self.episode_detail {
                Some(summary) => Some(DetailIdentity::Episodic(summary)),
                None => None,
            },
            _ => None,
        }
    }

    /// Applying `answer` to a pending `intent`: refused, changing nothing, unless the
    /// pending request is that intent and the answer answers it for the bound profile
    /// (see `answers`); otherwise the answer is installed (see `installed`), the request
    /// is no longer pending, and the detail scroll restarts when the detail shown changed.
    pub open spec fn matching_applied(self, intent: MemoryOutcomeIntent, answer: MemoryAnswer) -> (
        bool,
        MemoryViewState,
    ) {
        let pending = match self.pending_intent {
            Some(pending) => same_intent(pending, intent),
            None => false,
        };
        if pending && self.answers(intent, answer) {
            let cleared = MemoryViewState { pending_intent: None, ..self.installed(answer) };
            (
                true,
                if cleared.identity() != self.identity() {
                    MemoryViewState { detail_scroll: 0, ..cleared }
                } else {
                    cleared
                },
            )
        } else {
            (false, self)
        }
    }

    /// What the pane shown displays exactly; see `identity`.
    fn exact_detail_identity(&self) -> (identity: Option<DetailIdentity>)
        ensures
            identity == self.identity(),
    {
        match self.pane {
            MemoryPane::EntryDetail => match &self.entry_detail {
                Some(detail) => Some(DetailIdentity::Entry(detail.entry)),
                None => None,
            },
            MemoryPane::EntryHistory => match &self.entry_version {
                Some(detail) => Some(DetailIdentity::HistoricalEntry(detail.entry)),
                None => None,
            },
            MemoryPane::ProposalDetail => match &self.proposal_detail {
                Some(detail) => Some(DetailIdentity::Proposal(detail.proposal)),
                None => None,
            },
            MemoryPane::EpisodicDetail => match &self.episode_detail {
                Some(summary) => Some(DetailIdentity::Episodic(*summary)),
                None => None,
            },
            _ => None,
        }
    }

    /// Whether the bound profile and namespace are `profile` and `namespace_id`.
    fn matches_profile_namespace(&self, profile: &AgentProfileVersionRef, namespace_id: MemoryNamespaceId)
        -> (matches: bool)
        ensures
            matches == self.bound_to(*profile, namespace_id),
    {
        let profile_matches = match &self.profile {
            Some(identity) => identity.profile == *profile,
            None => false,
        };
        let namespace_matches = match self.namespace_id {
            Some(bound) => bound == namespace_id,
            None => false,
        };
        profile_matches && namespace_matches
    }

    /// Whether `answer` answers `intent`; see `answers`.
    fn answer_matches(&self, intent: &MemoryOutcomeIntent, answer: &MemoryAnswer) -> (matches: bool)
        ensures
            matches == self.answers(*intent, *answer),
    {
        match (intent, answer) {
            (MemoryOutcomeIntent::Entries, MemoryAnswer::Entries(page)) => self.matches_profile_namespace(
                &page.profile,
                page.namespace_id,
            ),
            (MemoryOutcomeIntent::EntryDetail(expected), MemoryAnswer::Entry(page)) => page.entry.entry_id
                == *expected && self.matches_profile_namespace(&page.profile, page.entry.namespace_id),
            (MemoryOutcomeIntent::EntryHistory(expected), MemoryAnswer::History(page)) => page.current.entry_id
                == *expected && self.matches_profile_namespace(&page.profile, page.current.namespace_id),
            (MemoryOutcomeIntent::Proposals, MemoryAnswer::Proposals(page)) => self.matches_profile_namespace(
                &page.profile,
                page.namespace_id,
            ),
            (MemoryOutcomeIntent::ProposalDetail(expected), MemoryAnswer::Proposal(page)) => page.proposal.proposal_id
                == *expected && self.matches_profile_namespace(&page.owner, page.proposal.namespace_id),
            (MemoryOutcomeIntent::Episodes, MemoryAnswer::Episodes(page)) => self.matches_profile_namespace(
                &page.profile,
                page.namespace_id,
            ),
            (MemoryOutcomeIntent::EpisodeDetail(expected), MemoryAnswer::Episode(summary)) => summary.summary_id
                == *expected && self.matches_profile_namespace(&summary.profile, summary.namespace_id),
            (
                MemoryOutcomeIntent::EntryVersion { selector, key, version, entry_version_id },
                MemoryAnswer::Version(page),
            ) => self.matches_profile_selector(selector) && self.matches_profile_namespace(
                &page.profile,
                page.entry.namespace_id,
            ) && page.key == *key && page.version == *version && page.entry.entry_version_id
                == *entry_version_id,
            (MemoryOutcomeIntent::Mutation, MemoryAnswer::Mutation(result)) => self.matches_mutation_result(
                result,
            ),
            (MemoryOutcomeIntent::Resolution, MemoryAnswer::Resolution(result)) => self.matches_resolution_result(
                result,
            ),
            _ => false,
        }
    }

    /// Whether `selector` names the bound profile; see `selects_bound_profile`.
    fn matches_profile_selector(&self, selector: &AgentProfileSelector) -> (matches: bool)
        ensures
            matches == self.selects_bound_profile(*selector),
    {
        match &self.profile {
            Some(identity) => match selector {
                AgentProfileSelector::Id(profile_id) => identity.profile.profile_id == *profile_id,
                AgentProfileSelector::Name(name) => *name == identity.display_name,
            },
            None => false,
        }
    }

    /// The confirmed command; see `confirmed`.
    pub fn confirmed_command(&self) -> (command: Option<ApplicationCommand>)
        ensures
            command == self.confirmed(),
    {
        match &self.confirmation {
            Some(confirmation) => if confirmation.generation == self.generation {
                Some(confirmation.command.duplicate())
            } else {
                None
            },
            None => None,
        }
    }

    /// Whether `result` is what the confirmed change was to leave; see
    /// `mutation_confirmed`.
    fn matches_mutation_result(&self, result: &MemoryMutationResult) -> (matches: bool)
        ensures
            matches == self.mutation_confirmed(*result),
    {
        let command = match self.confirmed_command() {
            Some(command) => command,
            None => return false,
        };
        let review = match &self.edit_review {
            Some(review) => review,
            None => return false,
        };
        let kind_agrees = match (review.operation, &command) {
            (MemoryMutationKind::SetEntry, ApplicationCommand::SetMemoryEntry { .. }) => true,
            (MemoryMutationKind::DeleteEntry, ApplicationCommand::DeleteMemoryEntry { .. }) => true,
            _ => false,
        };
        let state_agrees = match review.operation {
            MemoryMutationKind::SetEntry => result.present,
            MemoryMutationKind::DeleteEntry => match review.expected {
                ExpectedEntryState::Present(_) => !result.present,
                _ => false,
            },
        };
        let entry_agrees = match review.expected {
            ExpectedEntryState::Absent => true,
            ExpectedEntryState::Present(entry_id) => result.entry_id == entry_id,
            ExpectedEntryState::Deleted(entry_id) => result.entry_id == entry_id,
        };
        kind_agrees && result.namespace_id == review.namespace_id && result.key == review.key && state_agrees
            && entry_agrees
    }

    /// Whether `result` is what the confirmed resolution was to record; see
    /// `resolution_confirmed`.
    fn matches_resolution_result(&self, result: &MemoryResolutionResult) -> (matches: bool)
        ensures
            matches == self.resolution_confirmed(*result),
    {
        let command = match self.confirmed_command() {
            Some(command) => command,
            None => return false,
        };
        let review = match &self.resolution_review {
            Some(review) => *review,
            None => return false,
        };
        let kind_agrees = match (review.action, &command) {
            (MemoryResolutionAction::Approve, ApplicationCommand::ApproveMemoryProposal { .. }) => true,
            (MemoryResolutionAction::Reject, ApplicationCommand::RejectMemoryProposal { .. }) => true,
            _ => false,
        };
        let status = match review.action {
            MemoryResolutionAction::Approve => MemoryProposalStatus::Accepted,
            MemoryResolutionAction::Reject => MemoryProposalStatus::Rejected,
        };
        kind_agrees && result.proposal == review.proposal && result.approval_id == review.approval_id
            && result.status == status
    }

    /// Installs a page of entries; see `installed`.
    fn replace_entries(&mut self, page: MemoryEntriesPage)
        ensures
            *final(self) == old(self).installed(MemoryAnswer::Entries(page)),
    {
        let previous = match &self.entries {
            Some(old_page) => key_at_row(&entry_key_list(&old_page.entries), self.selected_entry),
            None => None,
        };
        let keys = entry_key_list(&page.entries);
        let selected = reselect(previous, self.selected_entry, &keys);
        let shown = match &self.entry_detail {
            Some(detail) => Some(detail.entry.entry_id.0),
            None => None,
        };
        let current = key_at_row(&keys, selected);
        self.entries = Some(page);
        self.selected_entry = selected;
        if selected < self.entry_scroll {
            self.entry_scroll = selected;
        }
        if shown != current {
            self.entry_detail = None;
            self.entry_history = None;
            self.entry_version = None;
        }
    }

    /// Installs an entry history; see `installed`.
    fn replace_entry_history(&mut self, page: MemoryHistoryPage)
        ensures
            *final(self) == old(self).installed(MemoryAnswer::History(page)),
    {
        let previous = match &self.entry_history {
            Some(old_page) => key_at_row(&version_key_list(&old_page.versions), self.selected_history_version),
            None => None,
        };
        let keys = version_key_list(&page.versions);
        let selected = reselect(previous, self.selected_history_version, &keys);
        let shown = match &self.entry_version {
            Some(detail) => Some(detail.entry.entry_version_id.0),
            None => None,
        };
        let current = key_at_row(&keys, selected);
        self.entry_history = Some(page);
        self.selected_history_version = selected;
        if selected < self.history_scroll {
            self.history_scroll = selected;
        }
        if shown != current {
            self.entry_version = None;
        }
    }

    /// Installs a page of proposals; see `installed`.
    fn replace_proposals(&mut self, page: MemoryProposalsPage)
        ensures
            *final(self) == old(self).installed(MemoryAnswer::Proposals(page)),
    {
        let previous = match &self.proposals {
            Some(old_page) => key_at_row(&proposal_key_list(&old_page.proposals), self.selected_proposal),
            None => None,
        };
        let keys = proposal_key_list(&page.proposals);
        let selected = reselect(previous, self.selected_proposal, &keys);
        let shown = match &self.proposal_detail {
            Some(detail) => Some(detail.proposal.proposal_id.0),
            None => None,
        };
        let current = key_at_row(&keys, selected);
        self.proposals = Some(page);
        self.selected_proposal = selected;
        if selected < self.proposal_scroll {
            self.proposal_scroll = selected;
        }
        if shown != current {
            self.proposal_detail = None;
        }
    }

    /// Installs a page of episodic summaries; see `installed`.
    fn replace_episodes(&mut self, page: EpisodesPage)
        ensures
            *final(self) == old(self).installed(MemoryAnswer::Episodes(page)),
    {
        let previous = match &self.episodes {
            Some(old_page) => key_at_row(&episode_key_list(&old_page.summaries), self.selected_episode),
            None => None,
        };
        let keys = episode_key_list(&page.summaries);
        let selected = reselect(previous, self.selected_episode, &keys);
        let shown = match &self.episode_detail {
            Some(detail) => Some(detail.summary_id.0),
            None => None,
        };
        let current = key_at_row(&keys, selected);
        self.episodes = Some(page);
        self.selected_episode = selected;
        if selected < self.episode_scroll {
            self.episode_scroll = selected;
        }
        if shown != current {
            self.episode_detail = None;
        }
    }

    /// Installs `answer`; see `installed`.
    fn install(&mut self, answer: MemoryAnswer)
        ensures
            *final(self) == old(self).installed(answer),
    {
        match answer {
            MemoryAnswer::Entries(page) => self.replace_entries(page),
            MemoryAnswer::Entry(page) => self.entry_detail = Some(page),
            MemoryAnswer::History(page) => self.replace_entry_history(page),
            MemoryAnswer::Proposals(page) => self.replace_proposals(page),
            MemoryAnswer::Proposal(page) => self.proposal_detail = Some(page),
            MemoryAnswer::Episodes(page) => self.replace_episodes(page),
            MemoryAnswer::Episode(summary) => self.episode_detail = Some(summary),
            MemoryAnswer::Version(page) => self.entry_version = Some(page),
            MemoryAnswer::Mutation(_) => {},
            MemoryAnswer::Resolution(_) => {},
        }
    }

    /// Applies the answer to a memory read when it answers the pending request; see
    /// `matching_applied`.
    pub fn apply_matching_view(&mut self, intent: &MemoryOutcomeIntent, view: MemoryAnswer) -> (applied: bool)
        ensures
            (applied, *final(self)) == old(self).matching_applied(*intent, view),
    {
        let pending = match &self.pending_intent {
            Some(pending) => intents_match(pending, intent),
            None => false,
        };
        if !pending || !self.answer_matches(intent, &view) {
            return false;
        }
        let previous = self.exact_detail_identity();
        self.install(view);
        self.pending_intent = None;
        if self.exact_detail_identity() != previous {
            self.detail_scroll = 0;
        }
        true
    }
}

/// A memory answer is applied exactly when the pending request is the one it answers,
/// for the bound profile and namespace; a refused answer changes nothing, and an applied
/// one is no longer awaited and has its page or item installed.
pub proof fn law_memory_answer_applies_only_to_its_request(
    before: MemoryViewState,
    intent: MemoryOutcomeIntent,
    answer: MemoryAnswer,
)
    ensures
        ({
            let (applied, after) = before.matching_applied(intent, answer);
            &&& applied <==> (match before.pending_intent {
                Some(pending) => same_intent(pending, intent),
                None => false,
            } && before.answers(intent, answer))
            &&& !applied ==> after == before
            &&& applied ==> after.pending_intent is None
            &&& applied ==> after == (MemoryViewState {
                pending_intent: None,
                detail_scroll: after.detail_scroll,
                ..before.installed(answer)
            })
        }),
{
}

/// How many rows of a memory page are shown at most.
pub const MEMORY_RETAINED_ROW_CAP: usize = 100;

/// The rows of a page of entries that are shown.
pub open spec fn displayed_rows(page: MemoryEntriesPage) -> nat {
    if page.entries@.len() < MEMORY_RETAINED_ROW_CAP {
        page.entries@.len()
    } else {
        MEMORY_RETAINED_ROW_CAP as nat
    }
}

impl MemoryViewState {
    /// The page of entries can be trusted: it is of the bound profile and namespace,
    /// its counts agree with its rows (returned rows plus omitted rows make the total),
    /// and every shown row is a present entry of its namespace.
    pub open spec fn entries_authentic(self) -> bool {
        match self.entries {
            Some(page) => {
                &&& self.bound_to(page.profile, page.namespace_id)
                &&& page.entries@.len() == page.returned_count
                &&& page.returned_count + page.omitted_count == page.total_count
                &&& forall|i: int|
                    0 <= i < displayed_rows(page) ==> (#[trigger] page.entries@[i]).namespace_id
                        == page.namespace_id && page.entries@[i].present
            },
            None => false,
        }
    }

    /// The selected entry of a trusted page, if a shown row is selected.
    pub open spec fn authentic_selection(self) -> Option<MemoryEntryRef> {
        if self.entries_authentic() && self.selected_entry < displayed_rows(self.entries->0) {
            Some(self.entries->0.entries@[self.selected_entry as int])
        } else {
            None
        }
    }

    /// Whether the page of entries can be trusted; see `entries_authentic`.
    fn authenticated_entries(&self) -> (authentic: bool)
        ensures
            authentic == self.entries_authentic(),
    {
        let page = match &self.entries {
            Some(page) => page,
            None => return false,
        };
        if !self.matches_profile_namespace(&page.profile, page.namespace_id) {
            return false;
        }
        if page.entries.len() as u64 != page.returned_count {
            return false;
        }
        match page.returned_count.checked_add(page.omitted_count) {
            Some(sum) => if sum != page.total_count {
                return false;
            },
            None => return false,
        }
        let displayed = if page.entries.len() < MEMORY_RETAINED_ROW_CAP {
            page.entries.len()
        } else {
            MEMORY_RETAINED_ROW_CAP
        };
        let mut i: usize = 0;
        while i < displayed
            invariant
                i <= displayed,
                self.entries == Some(*page),
                displayed == displayed_rows(*page),
                displayed <= page.entries@.len(),
                forall|j: int|
                    0 <= j < i ==> (#[trigger] page.entries@[j]).namespace_id == page.namespace_id
                        && page.entries@[j].present,
            decreases displayed - i,
        {
            let row = page.entries[i];
            if row.namespace_id != page.namespace_id || !row.present {
                assert(page.entries@[i as int] == row);
                assert(!((page.entries@[i as int]).namespace_id == page.namespace_id
                    && page.entries@[i as int].present));
                return false;
            }
            i = i + 1;
        }
        true
    }

    /// The identifier of the selected entry of a trusted page; refused when there is
    /// none (see `authentic_selection`).
    pub fn selected_entry_id(&self) -> (result: Result<MemoryEntryId, DomainError>)
        ensures
            result == match self.authentic_selection() {
                Some(entry) => Ok::<MemoryEntryId, DomainError>(entry.entry_id),
                None => Err(DomainError::MemorySelectionUnavailable),
            },
    {
        if !self.authenticated_entries() {
            return Err(DomainError::MemorySelectionUnavailable);
        }
        let page = match &self.entries {
            Some(page) => page,
            None => return Err(DomainError::MemorySelectionUnavailable),
        };
        let displayed = if page.entries.len() < MEMORY_RETAINED_ROW_CAP {
            page.entries.len()
        } else {
            MEMORY_RETAINED_ROW_CAP
        };
        if self.selected_entry < displayed {
            Ok(page.entries[self.selected_entry].entry_id)
        } else {
            Err(DomainError::MemorySelectionUnavailable)
        }
    }
}

} // verus!