//! Acquisition and restoration of the terminal's modes: raw input, the alternate
//! screen and a hidden cursor, always undone in reverse order and at most once.
//! The owner of a guard calls `restore` when it is done with the terminal.
use vstd::prelude::*;
use crate::error::TuiError;

verus! {

#[verifier::external_type_specification]
#[verifier::external_body]
pub struct ExIoError(std::io::Error);

/// The terminal operations the guard drives.
pub trait TerminalControl {
    fn enable_raw(&mut self) -> std::io::Result<()>;

    fn enter_alt(&mut self) -> std::io::Result<()>;

    fn hide_cursor(&mut self) -> std::io::Result<()>;

    fn show_cursor(&mut self) -> std::io::Result<()>;

    fn leave_alt(&mut self) -> std::io::Result<()>;

    fn disable_raw(&mut self) -> std::io::Result<()>;

    fn flush(&mut self) -> std::io::Result<()>;
}

/// A terminal operation the guard performs.
#[derive(Debug, Clone, Copy, PartialEq, Eq, Structural)]
pub enum TerminalStep {
    EnableRaw,
    EnterAlternateScreen,
    HideCursor,
    ShowCursor,
    LeaveAlternateScreen,
    DisableRaw,
    Flush,
}

/// The operations of a record of calls, without their outcomes.
pub open spec fn steps_of(calls: Seq<(TerminalStep, bool)>) -> Seq<TerminalStep> {
    calls.map_values(|call: (TerminalStep, bool)| call.0)
}

/// Every call of a record succeeded.
pub open spec fn all_succeeded(calls: Seq<(TerminalStep, bool)>) -> bool {
    forall|i: int| 0 <= i < calls.len() ==> #[trigger] calls[i].1
}

/// The operations of a record are those of its first `k` calls, then those of the rest.
pub proof fn lemma_steps_split(calls: Seq<(TerminalStep, bool)>, k: int)
    requires
        0 <= k <= calls.len(),
    ensures
        steps_of(calls) == steps_of(calls.take(k)) + steps_of(calls.skip(k)),
{
    assert(steps_of(calls) =~= steps_of(calls.take(k)) + steps_of(calls.skip(k)));
}

/// `calls` is what entering the terminal does, and `entered` whether it succeeded: raw
/// mode, then the alternate screen, then the hidden cursor, each only after the one
/// before succeeded; on the first failure what was acquired is restored in reverse order
/// (the cursor is never shown again when hiding it failed) and the terminal is flushed.
pub open spec fn entry_calls(calls: Seq<(TerminalStep, bool)>, entered: bool) -> bool {
    if calls.len() >= 1 && !calls[0].1 {
        steps_of(calls) == seq![TerminalStep::EnableRaw] && !entered
    } else if calls.len() >= 2 && !calls[1].1 {
        &&& steps_of(calls) == seq![
            TerminalStep::EnableRaw,
            TerminalStep::EnterAlternateScreen,
            TerminalStep::DisableRaw,
            TerminalStep::Flush,
        ]
        &&& !entered
    } else if calls.len() >= 3 && !calls[2].1 {
        &&& steps_of(calls) == seq![
            TerminalStep::EnableRaw,
            TerminalStep::EnterAlternateScreen,
            TerminalStep::HideCursor,
            TerminalStep::LeaveAlternateScreen,
            TerminalStep::DisableRaw,
            TerminalStep::Flush,
        ]
        &&& !entered
    } else {
        &&& steps_of(calls) == seq![
            TerminalStep::EnableRaw,
            TerminalStep::EnterAlternateScreen,
            TerminalStep::HideCursor,
        ]
        &&& all_succeeded(calls)
        &&& entered
    }
}

/// The restoration steps owed for the acquired states, in the order they are taken:
/// the reverse of the acquisition order, each acquired state undone once.
pub open spec fn restoration_steps(
    raw_enabled: bool,
    alternate_screen_entered: bool,
    cursor_hidden: bool,
    flush_required: bool,
) -> Seq<TerminalStep> {
    (if cursor_hidden {
        seq![TerminalStep::ShowCursor]
    } else {
        Seq::empty()
    }) + (if alternate_screen_entered {
        seq![TerminalStep::LeaveAlternateScreen]
    } else {
        Seq::empty()
    }) + (if raw_enabled {
        seq![TerminalStep::DisableRaw]
    } else {
        Seq::empty()
    }) + (if flush_required {
        seq![TerminalStep::Flush]
    } else {
        Seq::empty()
    })
}

/// Keeps the first error seen: `first_error` takes the error of `result` only when
/// it holds none yet.
pub fn retain_first_error<E>(first_error: &mut Option<E>, result: Result<(), E>)
    ensures
        *final(first_error) == match (*old(first_error), result) {
            (None, Err(error)) => Some(error),
            (previous, _) => previous,
        },
{
    if let Err(error) = result {
        if first_error.is_none() {
            *first_error = Some(error);
        }
    }
}

/// Terminal states held by the cockpit, released by `restore`, with the record of every
/// terminal operation the guard performed and whether it succeeded.
pub struct TerminalGuard<C: TerminalControl> {
    control: C,
    raw_enabled: bool,
    alternate_screen_entered: bool,
    cursor_hidden: bool,
    flush_required: bool,
    performed: Ghost<Seq<(TerminalStep, bool)>>,
}

impl<C: TerminalControl> TerminalGuard<C> {
    /// The restoration still owed by this guard.
    pub closed spec fn pending_restoration(&self) -> Seq<TerminalStep> {
        restoration_steps(
            self.raw_enabled,
            self.alternate_screen_entered,
            self.cursor_hidden,
            self.flush_required,
        )
    }

    /// The terminal operations this guard performed, in order, each with whether it
    /// succeeded.
    pub closed spec fn calls(&self) -> Seq<(TerminalStep, bool)> {
        self.performed@
    }

    /// Enables raw mode, enters the alternate screen and hides the cursor, in that
    /// order, stopping at the first failure; then what was acquired is restored and the
    /// guard reports `TerminalInitialization`. On success the full restoration is owed.
    /// The second result is the record of the operations performed (see `entry_calls`).
    pub fn enter(control: C) -> (entered: (Result<Self, TuiError>, Ghost<Seq<(TerminalStep, bool)>>))
        ensures
            entry_calls(entered.1@, entered.0 is Ok),
            match entered.0 {
                Ok(guard) => {
                    &&& guard.calls() == entered.1@
                    &&& guard.pending_restoration() == seq![
                        TerminalStep::ShowCursor,
                        TerminalStep::LeaveAlternateScreen,
                        TerminalStep::DisableRaw,
                        TerminalStep::Flush,
                    ]
                },
                Err(error) => error == TuiError::TerminalInitialization,
            },
    {
        let mut guard = TerminalGuard {
            control,
            raw_enabled: false,
            alternate_screen_entered: false,
            cursor_hidden: false,
            flush_required: false,
            performed: Ghost(Seq::empty()),
        };
        let raw = guard.control.enable_raw().is_ok();
        guard.performed = Ghost(guard.performed@.push((TerminalStep::EnableRaw, raw)));
        if !raw {
            proof {
                assert(steps_of(guard.performed@) =~= seq![TerminalStep::EnableRaw]);
            }
            return (Err(TuiError::TerminalInitialization), Ghost(guard.performed@));
        }
        guard.raw_enabled = true;
        guard.flush_required = true;

        let alternate = guard.control.enter_alt().is_ok();
        guard.performed = Ghost(guard.performed@.push((TerminalStep::EnterAlternateScreen, alternate)));
        if !alternate {
            let ghost before = guard.performed@;
            let _ = guard.restore();
            proof {
                lemma_steps_split(guard.performed@, before.len() as int);
                assert(steps_of(guard.performed@) =~= seq![
                    TerminalStep::EnableRaw,
                    TerminalStep::EnterAlternateScreen,
                    TerminalStep::DisableRaw,
                    TerminalStep::Flush,
                ]);
            }
            return (Err(TuiError::TerminalInitialization), Ghost(guard.performed@));
        }
        guard.alternate_screen_entered = true;

        let hidden = guard.control.hide_cursor().is_ok();
        guard.performed = Ghost(guard.performed@.push((TerminalStep::HideCursor, hidden)));
        if !hidden {
            let ghost before = guard.performed@;
            let _ = guard.restore();
            proof {
                lemma_steps_split(guard.performed@, before.len() as int);
                assert(steps_of(guard.performed@) =~= seq![
                    TerminalStep::EnableRaw,
                    TerminalStep::EnterAlternateScreen,
                    TerminalStep::HideCursor,
                    TerminalStep::LeaveAlternateScreen,
                    TerminalStep::DisableRaw,
                    TerminalStep::Flush,
                ]);
            }
            return (Err(TuiError::TerminalInitialization), Ghost(guard.performed@));
        }
        guard.cursor_hidden = true;
        assert(guard.pending_restoration() =~= seq![
            TerminalStep::ShowCursor,
            TerminalStep::LeaveAlternateScreen,
            TerminalStep::DisableRaw,
            TerminalStep::Flush,
        ]);
        assert(steps_of(guard.performed@) =~= seq![
            TerminalStep::EnableRaw,
            TerminalStep::EnterAlternateScreen,
            TerminalStep::HideCursor,
        ]);
        let performed = Ghost(guard.performed@);
        (Ok(guard), performed)
    }

    /// Takes every owed restoration step, in order, even after a failure, and records
    /// each; afterwards nothing is owed, so a second call takes no step. The result is
    /// `Ok` exactly when every step taken succeeded, else `TerminalOutput`.
    pub fn restore(&mut self) -> (result: Result<(), TuiError>)
        ensures
            final(self).pending_restoration() == Seq::<TerminalStep>::empty(),
            final(self).calls().len() == old(self).calls().len() + old(self).pending_restoration().len(),
            final(self).calls().take(old(self).calls().len() as int) == old(self).calls(),
            steps_of(final(self).calls().skip(old(self).calls().len() as int))
                == old(self).pending_restoration(),
            match result {
                Ok(()) => all_succeeded(final(self).calls().skip(old(self).calls().len() as int)),
                Err(error) => error == TuiError::TerminalOutput && !all_succeeded(
                    final(self).calls().skip(old(self).calls().len() as int),
                ),
            },
    {
        let ghost start = self.performed@;
        let ghost mut added: Seq<(TerminalStep, bool)> = Seq::empty();
        let mut first_error: Option<TuiError> = None;
        if self.cursor_hidden {
            self.cursor_hidden = false;
            let outcome = match self.control.show_cursor() {
                Ok(()) => Ok(()),
                Err(_) => Err(TuiError::TerminalOutput),
            };
            self.performed = Ghost(self.performed@.push((TerminalStep::ShowCursor, outcome is Ok)));
            proof {
                let previous = added;
                added = added.push((TerminalStep::ShowCursor, outcome is Ok));
                assert(all_succeeded(added) == (all_succeeded(previous) && outcome is Ok)) by {
                    if all_succeeded(previous) && outcome is Ok {
                        assert forall|i: int| 0 <= i < added.len() implies #[trigger] added[i].1 by {
                            if i < previous.len() {
                                assert(added[i] == previous[i]);
                            }
                        }
                    }
                    if all_succeeded(added) {
                        assert(added[added.len() - 1].1);
                        assert forall|i: int| 0 <= i < previous.len() implies #[trigger] previous[i].1 by {
                            assert(added[i] == previous[i]);
                        }
                    }
                }
            }
            retain_first_error(&mut first_error, outcome);
        }
        if self.alternate_screen_entered {
            self.alternate_screen_entered = false;
            let outcome = match self.control.leave_alt() {
                Ok(()) => Ok(()),
                Err(_) => Err(TuiError::TerminalOutput),
            };
            self.performed = Ghost(self.performed@.push((TerminalStep::LeaveAlternateScreen, outcome is Ok)));
            proof {
                let previous = added;
                added = added.push((TerminalStep::LeaveAlternateScreen, outcome is Ok));
                assert(all_succeeded(added) == (all_succeeded(previous) && outcome is Ok)) by {
                    if all_succeeded(previous) && outcome is Ok {
                        assert forall|i: int| 0 <= i < added.len() implies #[trigger] added[i].1 by {
                            if i < previous.len() {
                                assert(added[i] == previous[i]);
                            }
                        }
                    }
                    if all_succeeded(added) {
                        assert(added[added.len() - 1].1);
                        assert forall|i: int| 0 <= i < previous.len() implies #[trigger] previous[i].1 by {
                            assert(added[i] == previous[i]);
                        }
                    }
                }
            }
            retain_first_error(&mut first_error, outcome);
        }
        if self.raw_enabled {
            self.raw_enabled = false;
            let outcome = match self.control.disable_raw() {
                Ok(()) => Ok(()),
                Err(_) => Err(TuiError::TerminalOutput),
            };
            self.performed = Ghost(self.performed@.push((TerminalStep::DisableRaw, outcome is Ok)));
            proof {
                let previous = added;
                added = added.push((TerminalStep::DisableRaw, outcome is Ok));
                assert(all_succeeded(added) == (all_succeeded(previous) && outcome is Ok)) by {
                    if all_succeeded(previous) && outcome is Ok {
                        assert forall|i: int| 0 <= i < added.len() implies #[trigger] added[i].1 by {
                            if i < previous.len() {
                                assert(added[i] == previous[i]);
                            }
                        }
                    }
                    if all_succeeded(added) {
                        assert(added[added.len() - 1].1);
                        assert forall|i: int| 0 <= i < previous.len() implies #[trigger] previous[i].1 by {
                            assert(added[i] == previous[i]);
                        }
                    }
                }
            }
            retain_first_error(&mut first_error, outcome);
        }
        if self.flush_required {
            self.flush_required = false;
            let outcome = match self.control.flush() {
                Ok(()) => Ok(()),
                Err(_) => Err(TuiError::TerminalOutput),
            };
            self.performed = Ghost(self.performed@.push((TerminalStep::Flush, outcome is Ok)));
            proof {
                let previous = added;
                added = added.push((TerminalStep::Flush, outcome is Ok));
                assert(all_succeeded(added) == (all_succeeded(previous) && outcome is Ok)) by {
                    if all_succeeded(previous) && outcome is Ok {
                        assert forall|i: int| 0 <= i < added.len() implies #[trigger] added[i].1 by {
                            if i < previous.len() {
                                assert(added[i] == previous[i]);
                            }
                        }
                    }
                    if all_succeeded(added) {
                        assert(added[added.len() - 1].1);
                        assert forall|i: int| 0 <= i < previous.len() implies #[trigger] previous[i].1 by {
                            assert(added[i] == previous[i]);
                        }
                    }
                }
            }
            retain_first_error(&mut first_error, outcome);
        }
        assert(self.pending_restoration() =~= Seq::<TerminalStep>::empty());
        assert(self.performed@ =~= start + added);
        assert(self.performed@.skip(start.len() as int) =~= added);
        assert(self.performed@.take(start.len() as int) =~= start);
        assert(steps_of(added) =~= old(self).pending_restoration());
        match first_error {
            Some(error) => Err(error),
            None => Ok(()),
        }
    }
}

} // verus!