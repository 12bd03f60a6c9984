//! Failures the cockpit reports, and how a submission failure is classified.
use vstd::prelude::*;

verus! {

/// Why persistence refused a request.
#[derive(Debug, Clone, Copy, PartialEq, Eq, Structural)]
pub enum PersistenceError {
    Contention,
    Capacity,
    QueryFailed,
    ProjectionStateConflict,
}

/// Why the application refused a command.
#[derive(Debug, Clone, Copy, PartialEq, Eq, Structural)]
pub enum AppError {
    Persistence(PersistenceError),
    MemoryEntryNotFound,
    StaleAgentProfileVersion,
}

/// Why the application runtime could not run a command.
#[derive(Debug, Clone, Copy, PartialEq, Eq, Structural)]
pub enum RuntimeError {
    Backpressure,
    Application(AppError),
    Closed,
    WorkerExited,
    WorkerPanicked,
}

/// Why a local memory-workflow transition was refused.
#[derive(Debug, Clone, Copy, PartialEq, Eq, Structural)]
pub enum DomainError {
    MemoryReviewUnavailable,
    MemoryGenerationOverflow,
    MemorySelectionUnavailable,
}

/// Failures of the terminal cockpit.
#[derive(Debug, Clone, Copy, PartialEq, Eq, Structural)]
pub enum TuiError {
    TerminalInitialization,
    TerminalInput,
    TerminalOutput,
    InterruptHandler,
    Runtime(RuntimeError),
    UnexpectedControllerEffect,
    MemoryState(DomainError),
    Panicked,
}

/// A failure that a later submission of the same memory command may overcome.
pub open spec fn is_retryable(error: RuntimeError) -> bool {
    match error {
        RuntimeError::Backpressure => true,
        RuntimeError::Application(AppError::Persistence(p)) => match p {
            PersistenceError::Contention | PersistenceError::Capacity
            | PersistenceError::QueryFailed => true,
            PersistenceError::ProjectionStateConflict => false,
        },
        _ => false,
    }
}

/// Whether a failed memory submission may be retried: only back-pressure and
/// transient persistence failures (contention, capacity, a failed query) qualify.
pub fn memory_submission_is_retryable(error: &RuntimeError) -> (retryable: bool)
    ensures
        retryable == is_retryable(*error),
{
    match error {
        RuntimeError::Backpressure => true,
        RuntimeError::Application(AppError::Persistence(p)) => match p {
            PersistenceError::Contention | PersistenceError::Capacity
            | PersistenceError::QueryFailed => true,
            PersistenceError::ProjectionStateConflict => false,
        },
        _ => false,
    }
}

/// Whether the runtime refused a command because the agent profile changed meanwhile.
pub fn is_stale(error: &RuntimeError) -> (stale: bool)
    ensures
        stale == (*error == RuntimeError::Application(AppError::StaleAgentProfileVersion)),
{
    match error {
        RuntimeError::Application(AppError::StaleAgentProfileVersion) => true,
        _ => false,
    }
}

} // verus!
