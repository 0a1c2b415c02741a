use devdoc::editor::App;
use devdoc::event::{KeyCode, KeyKind};
use devdoc::model::InputMode;

fn buffer_string(app: &App) -> String {
    app.input.iter().collect()
}

fn type_str(app: &mut App, text: &str) {
    for c in text.chars() {
        app.enter_char(c);
    }
}

#[test]
fn starts_empty_in_searching_mode() {
    let app = App::new();
    assert_eq!(app.input.len(), 0);
    assert_eq!(app.character_index, 0);
    assert_eq!(app.input_mode, InputMode::Searching);
}

#[test]
fn insert_then_delete_restores_state() {
    let mut app = App::new();
    type_str(&mut app, "ab");
    app.move_cursor_left();
    app.enter_char('x');
    assert_eq!(buffer_string(&app), "axb");
    app.delete_char();
    assert_eq!(buffer_string(&app), "ab");
    assert_eq!(app.character_index, 1);
}

#[test]
fn boundary_operations_are_noops() {
    let mut app = App::new();
    app.move_cursor_left();
    assert_eq!(app.character_index, 0);
    app.delete_char();
    assert_eq!(buffer_string(&app), "");
    assert_eq!(app.character_index, 0);
    app.enter_char('a');
    assert_eq!(app.character_index, 1);
    app.move_cursor_right();
    assert_eq!(app.character_index, 1);
}

#[test]
fn cursor_stays_within_character_count() {
    let mut app = App::new();
    let events = [
        (KeyCode::Char('x'), KeyKind::Press),
        (KeyCode::Right, KeyKind::Press),
        (KeyCode::Right, KeyKind::Press),
        (KeyCode::Char('y'), KeyKind::Press),
        (KeyCode::Backspace, KeyKind::Press),
        (KeyCode::Left, KeyKind::Press),
        (KeyCode::Left, KeyKind::Press),
        (KeyCode::Enter, KeyKind::Press),
        (KeyCode::Char('z'), KeyKind::Press),
    ];
    for (code, kind) in events {
        app.handle_key(code, kind);
        assert!(app.character_index <= app.input.len());
    }
}

#[test]
fn unicode_cursor_steps_and_delete() {
    let mut app = App::new();
    type_str(&mut app, "héllo");
    assert_eq!(app.input.len(), 5);
    while app.character_index > 0 {
        app.move_cursor_left();
    }
    let mut visited = Vec::new();
    for _ in 0..5 {
        app.move_cursor_right();
        visited.push(app.character_index);
    }
    assert_eq!(visited, vec![1, 2, 3, 4, 5]);
    app.move_cursor_left();
    app.move_cursor_left();
    app.move_cursor_left();
    assert_eq!(app.character_index, 2);
    app.delete_char();
    assert_eq!(buffer_string(&app), "hllo");
    assert_eq!(app.character_index, 1);
}

#[test]
fn byte_index_counts_encoded_bytes() {
    let mut app = App::new();
    type_str(&mut app, "héllo");
    assert_eq!(app.byte_index(), 6);
    app.move_cursor_left();
    app.move_cursor_left();
    app.move_cursor_left();
    assert_eq!(app.character_index, 2);
    assert_eq!(app.byte_index(), 3);
    let reference: String = buffer_string(&app);
    assert_eq!(reference.char_indices().nth(2).unwrap().0, 3);
}

#[test]
fn q_is_literal_input_while_searching() {
    let mut app = App::new();
    let quit = app.handle_key(KeyCode::Char('q'), KeyKind::Press);
    assert!(!quit);
    assert_eq!(buffer_string(&app), "q");
    assert_eq!(app.input_mode, InputMode::Searching);
}

#[test]
fn q_quits_in_normal_mode() {
    let mut app = App::new();
    assert!(!app.handle_key(KeyCode::Esc, KeyKind::Press));
    assert_eq!(app.input_mode, InputMode::Normal);
    let quit = app.handle_key(KeyCode::Char('q'), KeyKind::Press);
    assert!(quit);
    assert_eq!(buffer_string(&app), "");
}

#[test]
fn searching_scenario() {
    let mut app = App::new();
    for c in ['a', 'b', 'c'] {
        assert!(!app.handle_key(KeyCode::Char(c), KeyKind::Press));
    }
    assert_eq!(buffer_string(&app), "abc");
    assert_eq!(app.character_index, 3);
    app.handle_key(KeyCode::Left, KeyKind::Press);
    app.handle_key(KeyCode::Left, KeyKind::Press);
    assert_eq!(app.character_index, 1);
    app.handle_key(KeyCode::Backspace, KeyKind::Press);
    assert_eq!(buffer_string(&app), "bc");
    assert_eq!(app.character_index, 0);
    app.handle_key(KeyCode::Enter, KeyKind::Press);
    assert_eq!(buffer_string(&app), "");
    assert_eq!(app.character_index, 0);
}

#[test]
fn mode_transition_scenario() {
    let mut app = App::new();
    app.handle_key(KeyCode::Esc, KeyKind::Press);
    assert_eq!(app.input_mode, InputMode::Normal);
    app.handle_key(KeyCode::Char('i'), KeyKind::Press);
    assert_eq!(app.input_mode, InputMode::Searching);
    app.handle_key(KeyCode::Esc, KeyKind::Press);
    assert_eq!(app.input_mode, InputMode::Normal);
    app.handle_key(KeyCode::Char('/'), KeyKind::Press);
    assert_eq!(app.input_mode, InputMode::Searching);
}

#[test]
fn only_press_events_edit_while_searching() {
    let mut app = App::new();
    app.handle_key(KeyCode::Char('a'), KeyKind::Release);
    app.handle_key(KeyCode::Char('a'), KeyKind::Repeat);
    assert_eq!(buffer_string(&app), "");
    app.handle_key(KeyCode::Esc, KeyKind::Press);
    let quit = app.handle_key(KeyCode::Char('q'), KeyKind::Release);
    assert!(quit);
}

#[test]
fn unrecognized_keys_are_ignored() {
    let mut app = App::new();
    assert!(!app.handle_key(KeyCode::Other, KeyKind::Press));
    assert_eq!(buffer_string(&app), "");
    app.handle_key(KeyCode::Esc, KeyKind::Press);
    assert!(!app.handle_key(KeyCode::Other, KeyKind::Press));
    assert!(!app.handle_key(KeyCode::Char('x'), KeyKind::Press));
    assert_eq!(app.input_mode, InputMode::Normal);
    assert_eq!(buffer_string(&app), "");
}

#[test]
fn submit_clears_buffer_and_cursor() {
    let mut app = App::new();
    type_str(&mut app, "query");
    app.submit_message();
    assert_eq!(buffer_string(&app), "");
    assert_eq!(app.character_index, 0);
    assert_eq!(app.input_mode, InputMode::Searching);
}

#[test]
fn clamp_cursor_bounds_positions() {
    let mut app = App::new();
    type_str(&mut app, "ab");
    assert_eq!(app.clamp_cursor(0), 0);
    assert_eq!(app.clamp_cursor(1), 1);
    assert_eq!(app.clamp_cursor(2), 2);
    assert_eq!(app.clamp_cursor(100), 2);
    app.reset_cursor();
    assert_eq!(app.character_index, 0);
}
