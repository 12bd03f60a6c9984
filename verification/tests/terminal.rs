use std::{
    io,
    sync::{Arc, Mutex},
};

use stock_forum_tui::error::TuiError;
use stock_forum_tui::terminal::{retain_first_error, TerminalControl, TerminalGuard};

#[derive(Clone)]
struct FakeTerminalControl {
    log: Arc<Mutex<Vec<&'static str>>>,
    failures: Arc<Vec<&'static str>>,
}

impl FakeTerminalControl {
    fn new(log: Arc<Mutex<Vec<&'static str>>>) -> Self {
        Self {
            log,
            failures: Arc::new(Vec::new()),
        }
    }

    fn failing_at(operation: &'static str) -> Self {
        Self::failing_at_all(&[operation])
    }

    fn failing_at_all(operations: &[&'static str]) -> Self {
        Self {
            log: Arc::new(Mutex::new(Vec::new())),
            failures: Arc::new(operations.to_vec()),
        }
    }

    fn log(&self) -> Vec<&'static str> {
        self.log.lock().unwrap().clone()
    }

    fn perform(&mut self, operation: &'static str) -> io::Result<()> {
        self.log.lock().unwrap().push(operation);
        if self.failures.contains(&operation) {
            Err(io::Error::other("injected terminal failure"))
        } else {
            Ok(())
        }
    }
}

impl TerminalControl for FakeTerminalControl {
    fn enable_raw(&mut self) -> io::Result<()> {
        self.perform("enable_raw")
    }

    fn enter_alt(&mut self) -> io::Result<()> {
        self.perform("enter_alt")
    }

    fn hide_cursor(&mut self) -> io::Result<()> {
        self.perform("hide_cursor")
    }

    fn show_cursor(&mut self) -> io::Result<()> {
        self.perform("show_cursor")
    }

    fn leave_alt(&mut self) -> io::Result<()> {
        self.perform("leave_alt")
    }

    fn disable_raw(&mut self) -> io::Result<()> {
        self.perform("disable_raw")
    }

    fn flush(&mut self) -> io::Result<()> {
        self.perform("flush")
    }
}

#[test]
fn generic_accumulator_retains_the_first_distinct_error() {
    #[derive(Debug, PartialEq, Eq)]
    enum SentinelError {
        First,
        Later,
    }

    let mut first_error = None;
    retain_first_error(&mut first_error, Ok(()));
    retain_first_error(&mut first_error, Err(SentinelError::First));
    retain_first_error(&mut first_error, Err(SentinelError::Later));

    assert_eq!(first_error, Some(SentinelError::First));
}

#[test]
fn terminal_guard_restores_every_acquired_state_in_reverse_order() {
    let log = Arc::new(Mutex::new(Vec::new()));
    {
        let control = FakeTerminalControl::new(log.clone());
        let mut guard = TerminalGuard::enter(control).0.unwrap();
        let _ = guard.restore();
    }
    assert_eq!(
        *log.lock().unwrap(),
        [
            "enable_raw",
            "enter_alt",
            "hide_cursor",
            "show_cursor",
            "leave_alt",
            "disable_raw",
            "flush",
        ]
    );
}

#[test]
fn every_initialization_failure_restores_only_acquired_state() {
    let cases: [(&str, &[&str]); 3] = [
        ("enable_raw", &["enable_raw"]),
        (
            "enter_alt",
            &["enable_raw", "enter_alt", "disable_raw", "flush"],
        ),
        (
            "hide_cursor",
            &[
                "enable_raw",
                "enter_alt",
                "hide_cursor",
                "leave_alt",
                "disable_raw",
                "flush",
            ],
        ),
    ];

    for (operation, expected_log) in cases {
        let control = FakeTerminalControl::failing_at(operation);
        let result = TerminalGuard::enter(control.clone()).0;
        let error = match result {
            Err(error) => error,
            Ok(_) => panic!("operation {operation} unexpectedly succeeded"),
        };

        assert!(
            matches!(error, TuiError::TerminalInitialization),
            "operation={operation}"
        );
        assert_eq!(control.log(), expected_log, "operation={operation}");
        assert!(!format!("{error:?}").contains("injected terminal failure"));
    }
}

#[test]
fn every_restoration_failure_attempts_all_steps_and_returns_only_a_safe_error() {
    let cases = [
        vec!["show_cursor"],
        vec!["leave_alt"],
        vec!["disable_raw"],
        vec!["flush"],
        vec!["show_cursor", "leave_alt", "disable_raw", "flush"],
    ];

    for failures in cases {
        let control = FakeTerminalControl::failing_at_all(&failures);
        let observer = control.clone();
        let mut guard = TerminalGuard::enter(control).0.unwrap();
        let result = guard.restore();

        assert!(matches!(result, Err(TuiError::TerminalOutput)));
        assert_eq!(
            observer.log(),
            [
                "enable_raw",
                "enter_alt",
                "hide_cursor",
                "show_cursor",
                "leave_alt",
                "disable_raw",
                "flush",
            ],
            "failures={failures:?}"
        );
        assert!(!format!("{result:?}").contains("injected terminal failure"));
    }
}

#[test]
fn restoration_is_idempotent_after_success_and_failure() {
    for failures in [Vec::new(), vec!["show_cursor"]] {
        let control = FakeTerminalControl::failing_at_all(&failures);
        let observer = control.clone();
        let mut guard = TerminalGuard::enter(control).0.unwrap();

        let _ = guard.restore();
        let _ = guard.restore();
        drop(guard);

        assert_eq!(
            observer.log(),
            [
                "enable_raw",
                "enter_alt",
                "hide_cursor",
                "show_cursor",
                "leave_alt",
                "disable_raw",
                "flush",
            ]
        );
    }
}

#[test]
fn the_guard_records_what_it_did_to_the_terminal() {
    let control = FakeTerminalControl::failing_at_all(&["leave_alt"]);
    let (entered, _) = TerminalGuard::enter(control.clone());
    let mut guard = entered.unwrap();
    assert!(guard.restore().is_err());
    assert!(guard.restore().is_ok());
    assert_eq!(
        control.log(),
        ["enable_raw", "enter_alt", "hide_cursor", "show_cursor", "leave_alt", "disable_raw", "flush"]
    );
}
