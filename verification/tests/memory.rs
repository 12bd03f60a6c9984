use stock_forum_tui::domain::{
    AgentProfileSelector,    AgentProfileId, AgentProfileVersionId, AgentProfileVersionRef, ContentDigest, MemoryEntryId,
    MemoryEntryVersionId, MemoryNamespaceId, MemoryProfileIdentityView,
};
use stock_forum_tui::memory::{
    MemoryAnswer, MemoryEntriesPage, MemoryEntryPage, MemoryEntryRef, MemoryOutcomeIntent,
    MemoryPane, MemoryVersionPage, MemoryViewState,
};

fn profile() -> AgentProfileVersionRef {
    AgentProfileVersionRef {
        profile_id: AgentProfileId(1),
        profile_version_id: AgentProfileVersionId(2),
        version: 1,
        content_digest: ContentDigest(3),
    }
}

fn entry(id: u128) -> MemoryEntryRef {
    MemoryEntryRef {
        entry_id: MemoryEntryId(id),
        entry_version_id: MemoryEntryVersionId(id + 100),
        namespace_id: MemoryNamespaceId(9),
        present: true,
    }
}

fn page(ids: &[u128]) -> MemoryAnswer {
    MemoryAnswer::Entries(MemoryEntriesPage {
        profile: profile(),
        namespace_id: MemoryNamespaceId(9),
        entries: ids.iter().map(|id| entry(*id)).collect(),
        returned_count: ids.len() as u64,
        omitted_count: 0,
        total_count: ids.len() as u64,
    })
}

fn bound() -> MemoryViewState {
    let mut state = MemoryViewState::default();
    state
        .bind_profile(
            MemoryProfileIdentityView {
                profile: profile(),
                display_name: "analyst".to_owned(),
            },
            MemoryNamespaceId(9),
        )
        .unwrap();
    state
}

#[test]
fn a_memory_answer_is_installed_only_for_its_pending_request() {
    let mut state = bound();
    assert!(!state.apply_matching_view(&MemoryOutcomeIntent::Entries, page(&[1, 2])));
    assert_eq!(state.entries, None);

    state.begin_pending(MemoryOutcomeIntent::Entries).unwrap();
    assert!(!state.apply_matching_view(&MemoryOutcomeIntent::Proposals, page(&[1, 2])));
    let foreign = MemoryAnswer::Entries(MemoryEntriesPage {
        profile: profile(),
        namespace_id: MemoryNamespaceId(8),
        entries: Vec::new(),
        returned_count: 0,
        omitted_count: 0,
        total_count: 0,
    });
    assert!(!state.apply_matching_view(&MemoryOutcomeIntent::Entries, foreign));
    assert!(state.pending_intent.is_some());

    assert!(state.apply_matching_view(&MemoryOutcomeIntent::Entries, page(&[1, 2, 3])));
    assert_eq!(state.pending_intent, None);
    assert_eq!(state.entries.as_ref().unwrap().entries.len(), 3);
}

#[test]
fn a_fresh_entry_page_keeps_the_selected_entry_and_drops_a_stale_detail() {
    let mut state = bound();
    state.begin_pending(MemoryOutcomeIntent::Entries).unwrap();
    state.apply_matching_view(&MemoryOutcomeIntent::Entries, page(&[1, 2, 3]));
    state.selected_entry = 2;
    state.begin_pending(MemoryOutcomeIntent::EntryDetail(MemoryEntryId(3))).unwrap();
    state.transition_to(MemoryPane::EntryDetail);
    state.detail_scroll = 5;
    assert!(state.apply_matching_view(
        &MemoryOutcomeIntent::EntryDetail(MemoryEntryId(3)),
        MemoryAnswer::Entry(MemoryEntryPage {
            profile: profile(),
            entry: entry(3)
        })
    ));
    assert_eq!(state.detail_scroll, 0);

    state.begin_pending(MemoryOutcomeIntent::Entries).unwrap();
    state.apply_matching_view(&MemoryOutcomeIntent::Entries, page(&[3, 1]));
    assert_eq!(state.selected_entry, 0);
    assert!(state.entry_detail.is_some());

    state.begin_pending(MemoryOutcomeIntent::Entries).unwrap();
    state.apply_matching_view(&MemoryOutcomeIntent::Entries, page(&[1, 4]));
    assert_eq!(state.selected_entry, 0);
    assert_eq!(state.entry_detail, None);
}

#[test]
fn the_selected_entry_of_a_trusted_page_names_the_entry_to_load() {
    let mut state = bound();
    assert!(state.selected_entry_id().is_err());
    state.begin_pending(MemoryOutcomeIntent::Entries).unwrap();
    state.apply_matching_view(&MemoryOutcomeIntent::Entries, page(&[4, 5]));
    state.selected_entry = 1;
    assert_eq!(state.selected_entry_id(), Ok(MemoryEntryId(5)));
    if let Some(page) = state.entries.as_mut() {
        page.total_count = 7;
    }
    assert!(state.selected_entry_id().is_err());
}

#[test]
fn a_historical_version_is_shown_only_for_the_requested_version() {
    let mut state = bound();
    let intent = MemoryOutcomeIntent::EntryVersion {
        selector: AgentProfileSelector::Id(AgentProfileId(1)),
        key: "watchlist".to_owned(),
        version: 2,
        entry_version_id: MemoryEntryVersionId(103),
    };
    state.begin_pending(intent.clone()).unwrap();
    let other = MemoryAnswer::Version(MemoryVersionPage {
        profile: profile(),
        entry: entry(4),
        key: "watchlist".to_owned(),
        version: 2,
    });
    assert!(!state.apply_matching_view(&intent, other));
    let answer = MemoryAnswer::Version(MemoryVersionPage {
        profile: profile(),
        entry: entry(3),
        key: "watchlist".to_owned(),
        version: 2,
    });
    assert!(state.apply_matching_view(&intent, answer));
    assert_eq!(state.entry_version.as_ref().unwrap().entry, entry(3));
}
