use stock_forum_tui::controller::{apply_outcome, handle_event, submit_parsed_line, ControllerEffect};
use stock_forum_tui::domain::{
    Actor, AgentProfilesView, ApplicationCommand, AuditEntry, CommandOutcome, CommandView,
    DatabaseReadiness, InstallationId, ParsedLine, PresentationSnapshot, ProcessGuardOwnership,
    SessionId, SetupStatus, ShutdownDisposition, ShutdownReason,
};
use stock_forum_tui::editor::MAX_INPUT_BYTES;
use stock_forum_tui::event::{KeyCode, KeyEvent, KeyModifiers, TuiEvent};
use stock_forum_tui::layout::LayoutMode;
use stock_forum_tui::model::TuiModel;
use stock_forum_tui::screen::{Focus, Severity, View};

fn model() -> TuiModel {
    TuiModel::new(
        PresentationSnapshot {
            installation_id: InstallationId(1),
            session_id: SessionId(2),
            database_readiness: DatabaseReadiness::Ready,
            process_guard_ownership: ProcessGuardOwnership::Held,
            setup_status: SetupStatus::NotStarted,
            recent_audit: Vec::new(),
            agent_profiles: AgentProfilesView {
                profiles: Vec::new(),
                total_count: 0,
                returned_count: 0,
                truncated: false,
            },
            selected_agent_profile: None,
            selected_agent_profile_history: None,
        },
        false,
    )
}

fn command_model(text: &str) -> TuiModel {
    let mut model = model();
    model.focus = Focus::Command;
    for character in text.chars() {
        model.command.insert(character);
    }
    model
}

fn modifiers(bits: u8) -> KeyModifiers {
    KeyModifiers { bits }
}

fn key(character: char) -> TuiEvent {
    key_code(KeyCode::Char(character), KeyModifiers::none())
}

fn key_code(code: KeyCode, modifiers: KeyModifiers) -> TuiEvent {
    TuiEvent::Key(KeyEvent::new(code, modifiers))
}

fn enter() -> TuiEvent {
    key_code(KeyCode::Enter, KeyModifiers::none())
}

fn assert_redraw_and_view(model: &mut TuiModel, event: TuiEvent, view: View) {
    assert_eq!(handle_event(model, event), ControllerEffect::Redraw);
    assert_eq!(model.active_view, view);
}

fn audit_entry(sequence: u64) -> AuditEntry {
    audit_entry_of_kind(sequence, "help_viewed")
}

fn audit_entry_of_kind(sequence: u64, kind: &str) -> AuditEntry {
    AuditEntry {
        sequence,
        occurred_at_ms: sequence as i64,
        actor: Actor::System,
        kind: kind.to_owned(),
        correlation_id: sequence as u128 + 100,
        summary: "viewed".to_owned(),
    }
}

fn outcome(
    view: CommandView,
    committed_audit: Vec<AuditEntry>,
    shutdown: ShutdownDisposition,
) -> CommandOutcome {
    CommandOutcome {
        committed_audit,
        view,
        shutdown,
    }
}

fn parse_request(effect: ControllerEffect) -> String {
    match effect {
        ControllerEffect::ParseCommandLine { line } => line,
        other => panic!("expected a line to parse, got {other:?}"),
    }
}

#[test]
fn global_keys_switch_views_focus_inspector_and_leave_bare_q_inert() {
    let mut model = model();
    assert_redraw_and_view(&mut model, key('7'), View::Setup);
    assert_redraw_and_view(&mut model, key('8'), View::Audit);
    assert_redraw_and_view(&mut model, key('9'), View::Help);
    assert_eq!(handle_event(&mut model, key('i')), ControllerEffect::Redraw);
    assert!(model.inspector_open);
    assert_eq!(model.focus, Focus::Inspector);
    assert_eq!(handle_event(&mut model, key('/')), ControllerEffect::Redraw);
    assert_eq!(model.focus, Focus::Command);
    assert_eq!(model.command.text(), "/");
    assert_eq!(handle_event(&mut model, key('q')), ControllerEffect::Redraw);
    assert_eq!(model.command.text(), "/q");
    assert_eq!(
        handle_event(&mut model, key_code(KeyCode::Esc, KeyModifiers::none())),
        ControllerEffect::Redraw
    );
    let before_q = model.clone();
    assert_eq!(handle_event(&mut model, key('q')), ControllerEffect::Nothing);
    assert_eq!(model, before_q);
}

#[test]
fn ctrl_c_and_interrupt_request_the_canonical_interrupted_shutdown_globally() {
    for mut model in [command_model("q"), model()] {
        model.layout_mode = LayoutMode::TooSmall;
        assert_eq!(
            handle_event(&mut model, key_code(KeyCode::Char('c'), KeyModifiers::control())),
            ControllerEffect::RequestShutdown(ShutdownReason::Interrupted)
        );
    }
    assert_eq!(
        handle_event(&mut model(), TuiEvent::Interrupt),
        ControllerEffect::RequestShutdown(ShutdownReason::Interrupted)
    );
}

#[test]
fn unsupported_modified_chords_are_ignored_without_changing_model_state() {
    let mut navigation = model();
    navigation.focus = Focus::Navigation;
    navigation.active_view = View::Setup;

    let cases = [
        (model(), key_code(KeyCode::Char('c'), modifiers(2 | 1))),
        (model(), key_code(KeyCode::Char('c'), modifiers(2 | 4))),
        (model(), key_code(KeyCode::Tab, KeyModifiers::control())),
        (command_model("/status"), key_code(KeyCode::Enter, KeyModifiers::alt())),
        (command_model("abc"), key_code(KeyCode::Left, KeyModifiers::alt())),
        (command_model("abc"), key_code(KeyCode::Delete, modifiers(8))),
        (command_model("abc"), key_code(KeyCode::Char('x'), modifiers(32))),
        (navigation, key_code(KeyCode::Down, KeyModifiers::alt())),
        (model(), key_code(KeyCode::Char('q'), KeyModifiers::shift())),
    ];

    for (mut model, event) in cases {
        let before = model.clone();
        assert_eq!(handle_event(&mut model, event), ControllerEffect::Nothing);
        assert_eq!(model, before);
    }
}

#[test]
fn hyper_modified_enter_is_ignored_without_submitting_or_editing() {
    let mut model = command_model("/status");
    let before = model.clone();

    assert_eq!(
        handle_event(&mut model, key_code(KeyCode::Enter, modifiers(16))),
        ControllerEffect::Nothing
    );
    assert_eq!(model, before);
}

#[test]
fn shifted_question_mark_opens_help_outside_command_focus() {
    let mut model = model();
    model.active_view = View::Setup;

    assert_eq!(
        handle_event(&mut model, key_code(KeyCode::Char('?'), KeyModifiers::shift())),
        ControllerEffect::Redraw
    );
    assert_eq!(model.active_view, View::Help);
    assert_eq!(model.focus, Focus::Workspace);
}

#[test]
fn exact_shift_bindings_enter_text_and_move_focus_backward() {
    let mut command = command_model("a");
    assert_eq!(
        handle_event(&mut command, key_code(KeyCode::Char('B'), KeyModifiers::shift())),
        ControllerEffect::Redraw
    );
    assert_eq!(command.command.text(), "aB");

    let mut workspace = model();
    assert_eq!(
        handle_event(&mut workspace, key_code(KeyCode::BackTab, KeyModifiers::shift())),
        ControllerEffect::Redraw
    );
    assert_eq!(workspace.focus, Focus::Navigation);
}

#[test]
fn enter_uses_the_authoritative_parser_and_marks_one_command_in_flight() {
    let mut model = command_model("/status");
    let line = parse_request(handle_event(&mut model, enter()));
    assert_eq!(line, "/status");
    let effect = submit_parsed_line(
        &mut model,
        line,
        ParsedLine::Command(ApplicationCommand::ShowStatus),
    );
    assert_eq!(effect, ControllerEffect::Submit(ApplicationCommand::ShowStatus));
    assert!(model.command_in_flight);
    assert_eq!(model.command.text(), "");
    assert_eq!(model.command.history_back(), Some("/status"));
}

#[test]
fn enter_during_an_in_flight_command_does_not_submit_again() {
    let mut model = command_model("/audit 5");
    model.command_in_flight = true;
    assert_eq!(handle_event(&mut model, enter()), ControllerEffect::Nothing);
    assert_eq!(model.message.as_ref().unwrap().severity, Severity::Warning);
    assert_eq!(model.command.text(), "/audit 5");
}

#[test]
fn ignored_and_rejected_input_do_not_leave_raw_text_in_the_model() {
    let mut blank = command_model("   ");
    let line = parse_request(handle_event(&mut blank, enter()));
    assert_eq!(
        submit_parsed_line(&mut blank, line, ParsedLine::Ignored),
        ControllerEffect::Nothing
    );
    assert_eq!(blank.focus, Focus::Command);
    assert_eq!(blank.command.text(), "");

    let secret = "/unknown credential=top-secret";
    let mut rejected = command_model(secret);
    let line = parse_request(handle_event(&mut rejected, enter()));
    assert!(matches!(
        submit_parsed_line(&mut rejected, line, ParsedLine::Command(ApplicationCommand::RejectInput)),
        ControllerEffect::Submit(ApplicationCommand::RejectInput)
    ));
    assert_eq!(rejected.command.text(), "");
    assert_eq!(rejected.command.history_len(), 0);
    assert!(!format!("{rejected:?}").contains("top-secret"));
}

#[test]
fn command_focus_edits_text_and_traverses_memory_only_history() {
    let mut model = command_model("ac");
    assert_eq!(
        handle_event(&mut model, key_code(KeyCode::Left, KeyModifiers::none())),
        ControllerEffect::Redraw
    );
    assert_eq!(handle_event(&mut model, key('b')), ControllerEffect::Redraw);
    assert_eq!(model.command.text(), "abc");
    assert_eq!(
        handle_event(&mut model, key_code(KeyCode::Backspace, KeyModifiers::none())),
        ControllerEffect::Redraw
    );
    assert_eq!(model.command.text(), "ac");
    model.command.remember("/help".to_owned());
    model.command.remember("/status".to_owned());
    assert_eq!(
        handle_event(&mut model, key_code(KeyCode::Up, KeyModifiers::none())),
        ControllerEffect::Redraw
    );
    assert_eq!(model.command.text(), "/status");
    assert_eq!(
        handle_event(&mut model, key_code(KeyCode::Down, KeyModifiers::none())),
        ControllerEffect::Redraw
    );
    assert_eq!(model.command.text(), "");
}

#[test]
fn bare_q_never_requests_shutdown_in_normal_or_too_small_layout() {
    let mut normal = model();
    let normal_before_q = normal.clone();
    assert_eq!(handle_event(&mut normal, key('q')), ControllerEffect::Nothing);
    assert_eq!(normal, normal_before_q);

    let mut tiny = model();
    tiny.layout_mode = LayoutMode::TooSmall;
    let before = tiny.clone();
    for event in [
        key('1'),
        key('i'),
        key('?'),
        key_code(KeyCode::Tab, KeyModifiers::none()),
        key_code(KeyCode::Enter, KeyModifiers::none()),
    ] {
        assert_eq!(handle_event(&mut tiny, event), ControllerEffect::Nothing);
        assert_eq!(tiny, before);
    }
    assert_eq!(handle_event(&mut tiny, key('q')), ControllerEffect::Nothing);
    assert_eq!(tiny, before);

    let mut command_tiny = command_model("");
    command_tiny.layout_mode = LayoutMode::TooSmall;
    assert_eq!(handle_event(&mut command_tiny, key('q')), ControllerEffect::Redraw);
    assert_eq!(command_tiny.command.text(), "q");
}

#[test]
fn outcomes_map_every_native_view_clear_the_gate_and_keep_only_safe_state() {
    let mut model = model();
    model.command_in_flight = true;
    assert_eq!(
        apply_outcome(
            &mut model,
            outcome(CommandView::Help, vec![audit_entry(1)], ShutdownDisposition::Continue),
        ),
        ControllerEffect::Redraw
    );
    assert!(!model.command_in_flight);
    assert_eq!(model.active_view, View::Help);
    assert_eq!(model.audit_entries, vec![audit_entry(1)]);

    let next_installation = InstallationId(11);
    let next_session = SessionId(12);
    model.command_in_flight = true;
    assert_eq!(
        apply_outcome(
            &mut model,
            outcome(
                CommandView::Status {
                    installation_id: next_installation,
                    session_id: next_session,
                },
                Vec::new(),
                ShutdownDisposition::Continue,
            ),
        ),
        ControllerEffect::Redraw
    );
    assert!(!model.command_in_flight);
    assert_eq!(model.active_view, View::Overview);
    assert_eq!(model.installation_id, next_installation);
    assert_eq!(model.session_id, next_session);

    model.command_in_flight = true;
    apply_outcome(
        &mut model,
        outcome(
            CommandView::SetupStatus {
                status: SetupStatus::Applied,
            },
            Vec::new(),
            ShutdownDisposition::Continue,
        ),
    );
    assert!(!model.command_in_flight);
    assert_eq!(model.active_view, View::Setup);
    assert_eq!(model.setup_status, SetupStatus::Applied);

    model.command_in_flight = true;
    apply_outcome(
        &mut model,
        outcome(
            CommandView::AuditTail {
                entries: (1..=105).map(audit_entry).collect(),
            },
            Vec::new(),
            ShutdownDisposition::Continue,
        ),
    );
    assert!(!model.command_in_flight);
    assert_eq!(model.active_view, View::Audit);
    assert_eq!(model.audit_entries.len(), 100);
    assert_eq!(model.audit_entries.first().unwrap().sequence, 6);

    model.command_in_flight = true;
    apply_outcome(
        &mut model,
        outcome(CommandView::InputRejected, Vec::new(), ShutdownDisposition::Continue),
    );
    assert!(!model.command_in_flight);
    assert_eq!(model.message.as_ref().unwrap().severity, Severity::Error);
    assert!(!format!("{model:?}").contains("top-secret"));

    model.command_in_flight = true;
    assert_eq!(
        apply_outcome(
            &mut model,
            outcome(
                CommandView::Shutdown {
                    disposition: ShutdownDisposition::Requested,
                },
                Vec::new(),
                ShutdownDisposition::Requested,
            ),
        ),
        ControllerEffect::RequestShutdown(ShutdownReason::UserQuit)
    );
    assert!(!model.command_in_flight);
}

#[test]
fn committed_events_append_as_the_newest_one_hundred_audit_entries() {
    let mut model = model();
    model.replace_audit((1..=75).map(audit_entry).collect());
    let committed = (76..=125)
        .map(|sequence| audit_entry_of_kind(sequence, "status_viewed"))
        .collect();
    apply_outcome(
        &mut model,
        outcome(
            CommandView::Status {
                installation_id: InstallationId(1),
                session_id: SessionId(2),
            },
            committed,
            ShutdownDisposition::Continue,
        ),
    );
    assert_eq!(model.audit_entries.len(), 100);
    assert_eq!(model.audit_entries.first().unwrap().sequence, 26);
    assert_eq!(model.audit_entries.last().unwrap().sequence, 125);
    assert!(model.audit_entries[75..]
        .iter()
        .all(|entry| entry.kind == "status_viewed"));
}

#[test]
fn too_small_resize_preserves_command_text_and_accepts_quit_completion() {
    let mut model = model();
    assert_eq!(handle_event(&mut model, key('/')), ControllerEffect::Redraw);
    assert_eq!(model.focus, Focus::Command);
    assert_eq!(
        handle_event(&mut model, TuiEvent::Resize(59, 17)),
        ControllerEffect::Redraw
    );

    for character in "quit".chars() {
        assert_eq!(handle_event(&mut model, key(character)), ControllerEffect::Redraw);
    }
    assert_eq!(model.command.text(), "/quit");
    let line = parse_request(handle_event(
        &mut model,
        key_code(KeyCode::Enter, KeyModifiers::none()),
    ));
    assert_eq!(line, "/quit");
    assert_eq!(
        submit_parsed_line(
            &mut model,
            line,
            ParsedLine::Command(ApplicationCommand::RequestShutdown)
        ),
        ControllerEffect::Submit(ApplicationCommand::RequestShutdown)
    );
}

#[test]
fn paste_is_ignored_outside_command_focus_and_bounded_and_sanitized_inside() {
    let mut model = model();
    assert_eq!(
        handle_event(&mut model, TuiEvent::Paste("/status".to_owned())),
        ControllerEffect::Nothing
    );
    assert!(model.command.text().is_empty());

    model.set_focus(Focus::Command);
    let pasted = format!("{}\n\t界", "a".repeat(MAX_INPUT_BYTES - 1));
    assert_eq!(
        handle_event(&mut model, TuiEvent::Paste(pasted)),
        ControllerEffect::Redraw
    );
    assert_eq!(model.command.text().len(), MAX_INPUT_BYTES - 1);
    assert!(!model.command.text().chars().any(char::is_control));
    assert!(model
        .command
        .text()
        .is_char_boundary(model.command.text().len()));
}

#[test]
fn audit_end_and_page_navigation_remain_selection_based() {
    let mut model = model();
    model.select_view(View::Audit);
    model.replace_audit((1..=30).map(audit_entry).collect());
    handle_event(&mut model, TuiEvent::Resize(60, 18));

    assert_eq!(
        handle_event(&mut model, key_code(KeyCode::End, KeyModifiers::none())),
        ControllerEffect::Redraw
    );
    assert_eq!(model.audit_selection, Some(29));
    assert_eq!(model.workspace_scroll, 0);

    handle_event(&mut model, key_code(KeyCode::PageDown, KeyModifiers::none()));
    assert_eq!(model.audit_selection, Some(29));
    assert_eq!(model.workspace_scroll, 0);
}

#[test]
fn bare_digits_open_the_tabs_of_the_navigation_bar() {
    let mut model = model();
    assert_redraw_and_view(&mut model, key('2'), View::Chat);
    assert_redraw_and_view(&mut model, key('5'), View::Connections);
    assert_redraw_and_view(&mut model, key('6'), View::Activity);
    assert_redraw_and_view(&mut model, key('1'), View::Overview);
    assert_eq!(handle_event(&mut model, key('3')), ControllerEffect::LoadAgentProfiles);
    assert_eq!(model.active_view, View::Agents);
    let mut skills = self::model();
    assert_eq!(handle_event(&mut skills, key('4')), ControllerEffect::LoadSkills);
    assert!(skills.skills.active);
}

#[test]
fn wasd_moves_like_the_arrows_in_either_case() {
    let mut model = model();
    model.set_focus(Focus::Navigation);
    assert_eq!(handle_event(&mut model, key('s')), ControllerEffect::Redraw);
    assert_eq!(model.active_view, View::Setup);
    model.set_focus(Focus::Navigation);
    assert_eq!(
        handle_event(&mut model, key_code(KeyCode::Char('W'), KeyModifiers::shift())),
        ControllerEffect::Redraw
    );
    assert_eq!(model.active_view, View::Overview);
    model.set_focus(Focus::Navigation);
    assert_eq!(handle_event(&mut model, key('a')), ControllerEffect::Redraw);
    assert_eq!(model.active_view, View::Help);
    model.set_focus(Focus::Navigation);
    assert_eq!(handle_event(&mut model, key('d')), ControllerEffect::Redraw);
    assert_eq!(model.active_view, View::Overview);
}
