use stock_forum_tui::editor::{CommandEditor, COMMAND_HISTORY_CAPACITY, MAX_INPUT_BYTES};

#[test]
fn editor_inserts_and_deletes_unicode_only_at_char_boundaries() {
    let mut editor = CommandEditor::default();
    editor.insert('A');
    editor.insert('界');
    editor.move_left();
    editor.backspace();
    assert_eq!(editor.text(), "界");
    assert_eq!(editor.cursor_byte(), 0);
}

#[test]
fn editor_ingestion_stops_at_the_byte_limit_without_splitting_unicode() {
    let mut editor = CommandEditor::default();
    editor.ingest(&"a".repeat(MAX_INPUT_BYTES - 1));
    assert_eq!(editor.text().len(), 4095);

    editor.ingest("界");
    assert_eq!(editor.text().len(), 4095);
    editor.ingest("b");
    assert_eq!(editor.text().len(), 4096);
    editor.ingest("c");
    editor.insert('d');

    assert_eq!(editor.text().len(), MAX_INPUT_BYTES);
    assert!(editor.text().is_char_boundary(editor.text().len()));
}

#[test]
fn public_history_ingestion_is_control_safe_utf8_bounded_and_duplicate_collapsing() {
    let oversized = format!("{}\n\tignored", "界".repeat(MAX_INPUT_BYTES));
    let mut editor = CommandEditor::default();

    editor.remember(oversized.clone());
    editor.remember(oversized);

    let stored = editor.history_back().expect("bounded history entry");
    assert!(stored.len() <= MAX_INPUT_BYTES);
    assert!(stored.is_char_boundary(stored.len()));
    assert!(!stored.chars().any(char::is_control));
    assert_eq!(editor.history_len(), 1);
}

#[test]
fn history_collapses_consecutive_duplicates_and_caps_at_one_hundred() {
    let mut editor = CommandEditor::default();
    editor.remember("/status".into());
    editor.remember("/status".into());
    for index in 0..110 {
        editor.remember(format!("/audit {}", index + 1));
    }
    assert_eq!(editor.history_len(), COMMAND_HISTORY_CAPACITY);
    assert_eq!(editor.history_back(), Some("/audit 110"));
}

#[test]
fn editor_exposes_a_prefix_and_moves_only_between_character_boundaries() {
    let mut editor = CommandEditor::default();
    editor.insert('A');
    editor.insert('界');
    editor.move_left();
    assert_eq!(editor.prefix(), "A");
    editor.move_right();
    editor.move_home();
    assert_eq!(editor.cursor_byte(), 0);
    editor.move_end();
    assert_eq!(editor.cursor_byte(), "A界".len());
}

#[test]
fn editor_delete_clear_and_take_text_reset_the_editable_buffer() {
    let mut editor = CommandEditor::default();
    editor.insert('界');
    editor.insert('A');
    editor.move_home();
    editor.delete();
    assert_eq!(editor.text(), "A");
    editor.clear();
    assert_eq!(editor.text(), "");
    editor.insert('B');
    assert_eq!(editor.take_text(), "B");
    assert_eq!(editor.cursor_byte(), 0);
    assert_eq!(editor.text(), "");
}

#[test]
fn history_navigation_copies_entries_and_editing_exits_recall() {
    let mut editor = CommandEditor::default();
    editor.remember("/help".into());
    editor.remember("/status".into());
    editor.history_previous();
    assert_eq!(editor.text(), "/status");
    editor.history_previous();
    assert_eq!(editor.text(), "/help");
    editor.history_next();
    assert_eq!(editor.text(), "/status");
    editor.insert('!');
    editor.history_next();
    assert_eq!(editor.text(), "/status!");
    assert_eq!(editor.history_back(), Some("/status"));
}

#[test]
fn history_next_past_newest_clears_the_buffer_and_blank_entries_are_ignored() {
    let mut editor = CommandEditor::default();
    editor.remember("   ".into());
    editor.remember("/help".into());
    editor.history_previous();
    editor.history_next();
    assert_eq!(editor.text(), "");
    assert_eq!(editor.history_len(), 1);
}

#[test]
fn no_op_deletions_exit_history_recall() {
    let mut editor = CommandEditor::default();
    editor.remember("/help".into());
    editor.history_previous();
    editor.move_home();
    editor.backspace();
    editor.history_next();
    assert_eq!(editor.text(), "/help");

    editor.move_end();
    editor.delete();
    editor.history_next();
    assert_eq!(editor.text(), "/help");
}

#[test]
fn backspace_right_after_typing_takes_the_character_back() {
    let mut editor = CommandEditor::default();
    editor.ingest("ab");
    editor.move_left();
    editor.insert('界');
    assert_eq!(editor.text(), "a界b");
    editor.backspace();
    assert_eq!(editor.text(), "ab");
    assert_eq!(editor.cursor_byte(), 1);
}
