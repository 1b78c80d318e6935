use tui_chat::{App, Key, QUIT_CHAR};

fn app_with(text: &str, cursor: usize) -> App {
    let mut app = App::new();
    app.input = text.to_string();
    app.character_index_cursor = cursor;
    app
}

#[test]
fn test_move_cursor_right() {
    let mut control = App::new();
    control.character_index_cursor = 0;
    control.input = "    ".to_string();
    control.move_cursor_right();
    assert_eq!(control.character_index_cursor, 1);
}

#[test]
fn new_app_is_empty() {
    let app = App::new();
    assert_eq!(app.input, "");
    assert_eq!(app.character_index_cursor, 0);
    assert!(app.message_history.is_empty());
    assert!(!app.exit);
    let app = App::default();
    assert_eq!(app.input, "");
    assert!(app.message_history.is_empty());
}

#[test]
fn cursor_stops_at_both_ends() {
    let mut app = app_with("ab", 0);
    app.move_cursor_left();
    assert_eq!(app.character_index_cursor, 0);
    app.move_cursor_right();
    app.move_cursor_right();
    app.move_cursor_right();
    assert_eq!(app.character_index_cursor, 2);
    app.move_cursor_left();
    assert_eq!(app.character_index_cursor, 1);
}

#[test]
fn moves_keep_cursor_within_text() {
    let mut app = app_with("héllo", 2);
    let moves = [true, true, true, true, true, false, true, false, false];
    for right in moves {
        if right {
            app.move_cursor_right();
        } else {
            app.move_cursor_left();
        }
        assert!(app.character_index_cursor <= app.input.chars().count());
    }
    assert_eq!(app.character_index_cursor, 3);
}

#[test]
fn move_clamps_cursor_past_end() {
    let mut app = app_with("abc", 10);
    app.move_cursor_left();
    assert_eq!(app.character_index_cursor, 3);
    let mut app = app_with("abc", usize::MAX);
    app.move_cursor_right();
    assert_eq!(app.character_index_cursor, 3);
}

#[test]
fn clamp_cursor_bounds_by_char_count() {
    let app = app_with("né", 0);
    assert_eq!(app.clamp_cursor(0), 0);
    assert_eq!(app.clamp_cursor(1), 1);
    assert_eq!(app.clamp_cursor(2), 2);
    assert_eq!(app.clamp_cursor(3), 2);
}

#[test]
fn byte_index_counts_encoded_bytes() {
    assert_eq!(app_with("café", 3).byte_index(), 3);
    assert_eq!(app_with("café", 4).byte_index(), 5);
    assert_eq!(app_with("éa", 1).byte_index(), 2);
    assert_eq!(app_with("a😀b", 2).byte_index(), 5);
    assert_eq!(app_with("abc", 9).byte_index(), 3);
    assert_eq!(app_with("", 0).byte_index(), 0);
}

#[test]
fn enter_multibyte_char_at_end() {
    let mut app = app_with("caf", 3);
    app.enter_char('é');
    assert_eq!(app.input, "café");
    assert_eq!(app.character_index_cursor, 4);
    assert_eq!(app.input.len(), 5);
}

#[test]
fn enter_char_in_the_middle() {
    let mut app = app_with("hllo", 1);
    app.enter_char('e');
    assert_eq!(app.input, "hello");
    assert_eq!(app.character_index_cursor, 2);
    let mut app = app_with("añb", 2);
    app.enter_char('€');
    assert_eq!(app.input, "añ€b");
    assert_eq!(app.character_index_cursor, 3);
}

#[test]
fn enter_char_with_cursor_past_end_appends() {
    let mut app = app_with("ab", 7);
    app.enter_char('c');
    assert_eq!(app.input, "abc");
    assert_eq!(app.character_index_cursor, 3);
}

#[test]
fn delete_removes_char_before_cursor() {
    let mut app = app_with("héllo", 2);
    app.delete_char();
    assert_eq!(app.input, "hllo");
    assert_eq!(app.character_index_cursor, 1);
}

#[test]
fn delete_at_start_or_on_empty_is_noop() {
    let mut app = app_with("abc", 0);
    app.delete_char();
    assert_eq!(app.input, "abc");
    assert_eq!(app.character_index_cursor, 0);
    let mut app = app_with("", 0);
    app.delete_char();
    assert_eq!(app.input, "");
    assert_eq!(app.character_index_cursor, 0);
}

#[test]
fn insert_then_delete_restores() {
    for (text, cursor, c) in [("", 0, 'x'), ("abc", 1, 'é'), ("añb", 3, '😀'), ("xyz", 0, 'q')] {
        let mut app = app_with(text, cursor);
        app.enter_char(c);
        app.delete_char();
        assert_eq!(app.input, text);
        assert_eq!(app.character_index_cursor, cursor);
    }
}

#[test]
fn reset_cursor_goes_to_start() {
    let mut app = app_with("abc", 2);
    app.reset_cursor();
    assert_eq!(app.character_index_cursor, 0);
    assert_eq!(app.input, "abc");
}

#[test]
fn submit_hello() {
    let mut app = app_with("hello", 5);
    app.message_history.push("earlier".to_string());
    app.submit_message();
    assert_eq!(app.message_history, vec!["earlier".to_string(), "hello".to_string()]);
    assert_eq!(app.input, "");
    assert_eq!(app.character_index_cursor, 0);
}

#[test]
fn submit_empty_line_appends_empty_entry() {
    let mut app = App::new();
    app.submit_message();
    assert_eq!(app.message_history.len(), 1);
    assert_eq!(app.message_history[0], "");
    assert_eq!(app.input, "");
    assert_eq!(app.character_index_cursor, 0);
}

#[test]
fn keys_drive_the_editor() {
    let mut app = App::new();
    for key in [Key::Char('h'), Key::Char('i'), Key::Left, Key::Char('!'), Key::Right, Key::Backspace] {
        app.handle_key_event(key);
    }
    assert_eq!(app.input, "h!");
    assert_eq!(app.character_index_cursor, 2);
    app.handle_key_event(Key::Other);
    assert_eq!(app.input, "h!");
    app.handle_key_event(Key::Enter);
    assert_eq!(app.message_history, vec!["h!".to_string()]);
    assert_eq!(app.input, "");
    assert!(!app.exit);
    app.handle_key_event(Key::Esc);
    assert!(app.exit);
    assert_eq!(app.message_history.len(), 1);
}

#[test]
fn q_key_exits_like_esc() {
    let mut app = app_with("ab", 1);
    app.message_history.push("earlier".to_string());
    app.handle_key_event(Key::Char(QUIT_CHAR));
    assert!(app.exit);
    assert_eq!(app.input, "ab");
    assert_eq!(app.character_index_cursor, 1);
    assert_eq!(app.message_history, vec!["earlier".to_string()]);
    let mut app = App::new();
    app.handle_key_event(Key::Char('q'));
    assert!(app.exit);
    assert_eq!(app.input, "");
}
