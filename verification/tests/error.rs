use stock_forum_tui::error::{
    is_stale, memory_submission_is_retryable, AppError, PersistenceError, RuntimeError,
};

#[test]
fn memory_retry_classifier_matches_only_backpressure_and_transient_persistence() {
    for retryable in [
        RuntimeError::Backpressure,
        RuntimeError::Application(AppError::Persistence(PersistenceError::Contention)),
        RuntimeError::Application(AppError::Persistence(PersistenceError::Capacity)),
        RuntimeError::Application(AppError::Persistence(PersistenceError::QueryFailed)),
    ] {
        assert!(memory_submission_is_retryable(&retryable), "{retryable:?}");
    }
    for terminal in [
        RuntimeError::Application(AppError::MemoryEntryNotFound),
        RuntimeError::Application(AppError::Persistence(
            PersistenceError::ProjectionStateConflict,
        )),
        RuntimeError::Closed,
        RuntimeError::WorkerExited,
        RuntimeError::WorkerPanicked,
    ] {
        assert!(!memory_submission_is_retryable(&terminal), "{terminal:?}");
    }
}

#[test]
fn stale_profile_errors_are_only_stale_profile_versions() {
    assert!(is_stale(&RuntimeError::Application(
        AppError::StaleAgentProfileVersion
    )));
    assert!(!is_stale(&RuntimeError::Application(
        AppError::MemoryEntryNotFound
    )));
    assert!(!is_stale(&RuntimeError::Backpressure));
}
