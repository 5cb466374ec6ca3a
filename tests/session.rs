use json_editor::app::{App, CurrentScreen, CurrentlyEditing, KeyCode, KeyEvent, KeyEventKind};
use serde_json::Value;

fn press(code: KeyCode) -> KeyEvent {
    KeyEvent { code, kind: KeyEventKind::Press }
}

fn release(code: KeyCode) -> KeyEvent {
    KeyEvent { code, kind: KeyEventKind::Release }
}

fn repeat(code: KeyCode) -> KeyEvent {
    KeyEvent { code, kind: KeyEventKind::Repeat }
}

fn type_text(app: &mut App, text: &str) {
    for c in text.chars() {
        app.handle_key_event(press(KeyCode::Char(c)));
    }
}

fn add_entry(app: &mut App, key: &str, value: &str) {
    app.handle_key_event(press(KeyCode::Char('e')));
    type_text(app, key);
    app.handle_key_event(press(KeyCode::Enter));
    type_text(app, value);
    app.handle_key_event(press(KeyCode::Enter));
}

#[test]
fn new_session_is_empty() {
    let app = App::new();
    assert_eq!(app.key_input, "");
    assert_eq!(app.value_input, "");
    assert!(app.pairs.is_empty());
    assert_eq!(app.current_screen, CurrentScreen::Main);
    assert_eq!(app.currently_editing, None);
    assert_eq!(app.value_input_error, None);
    assert!(!app.should_quit);
    assert!(!app.should_print);
}

#[test]
fn commit_stores_pair_and_returns_to_main() {
    let mut app = App::new();
    add_entry(&mut app, "name", "Ada");
    assert_eq!(app.pairs.len(), 1);
    assert_eq!(app.pairs.get("name"), Some(&Value::String("Ada".to_string())));
    assert_eq!(app.current_screen, CurrentScreen::Main);
    assert_eq!(app.currently_editing, None);
    assert_eq!(app.key_input, "");
    assert_eq!(app.value_input, "");
    assert_eq!(app.value_input_error, None);
}

#[test]
fn typed_numbers_are_stored_as_numbers() {
    let mut app = App::new();
    add_entry(&mut app, "age", "42");
    assert_eq!(app.pairs.get("age").and_then(|v| v.as_i64()), Some(42));
}

#[test]
fn blank_commit_yields_null_and_repeats_the_same() {
    let mut app = App::new();
    add_entry(&mut app, "k", "   ");
    assert_eq!(app.pairs.get("k"), Some(&Value::Null));
    add_entry(&mut app, "k", "");
    assert_eq!(app.pairs.len(), 1);
    assert_eq!(app.pairs.get("k"), Some(&Value::Null));
}

#[test]
fn failed_commit_keeps_buffers_and_sets_error() {
    let mut app = App::new();
    add_entry(&mut app, "obj", "{bad");
    assert!(app.pairs.is_empty());
    assert_eq!(app.current_screen, CurrentScreen::Editing);
    assert_eq!(app.currently_editing, Some(CurrentlyEditing::Value));
    assert_eq!(app.key_input, "obj");
    assert_eq!(app.value_input, "{bad");
    let message = app.value_input_error.clone().unwrap();
    assert!(message.starts_with("Invalid JSON: "));
    assert!(message.len() > "Invalid JSON: ".len());
}

#[test]
fn error_clears_after_corrected_commit() {
    let mut app = App::new();
    add_entry(&mut app, "obj", "{bad");
    for _ in 0..4 {
        app.handle_key_event(press(KeyCode::Backspace));
    }
    type_text(&mut app, "{\"a\":1}");
    app.handle_key_event(press(KeyCode::Enter));
    assert_eq!(app.value_input_error, None);
    assert_eq!(app.current_screen, CurrentScreen::Main);
    let obj = app.pairs.get("obj").unwrap().as_object().unwrap();
    assert_eq!(obj.get("a").and_then(|x| x.as_i64()), Some(1));
}

#[test]
fn overwriting_a_key_keeps_its_position() {
    let mut app = App::new();
    add_entry(&mut app, "a", "1");
    add_entry(&mut app, "b", "2");
    add_entry(&mut app, "a", "3");
    let keys: Vec<&String> = app.pairs.keys().collect();
    assert_eq!(keys, vec!["a", "b"]);
    assert_eq!(app.pairs.get("a").and_then(|v| v.as_i64()), Some(3));
}

#[test]
fn empty_key_is_accepted() {
    let mut app = App::new();
    add_entry(&mut app, "", "x");
    assert_eq!(app.pairs.get(""), Some(&Value::String("x".to_string())));
}

#[test]
fn escape_returns_to_main_and_keeps_entries() {
    let mut app = App::new();
    add_entry(&mut app, "a", "1");
    app.handle_key_event(press(KeyCode::Char('e')));
    type_text(&mut app, "half");
    app.handle_key_event(press(KeyCode::Tab));
    type_text(&mut app, "val");
    app.handle_key_event(press(KeyCode::Esc));
    assert_eq!(app.current_screen, CurrentScreen::Main);
    assert_eq!(app.currently_editing, None);
    assert_eq!(app.pairs.len(), 1);
    assert_eq!(app.pairs.get("a").and_then(|v| v.as_i64()), Some(1));
}

#[test]
fn reopening_the_editor_resumes_the_key() {
    let mut app = App::new();
    app.handle_key_event(press(KeyCode::Char('e')));
    type_text(&mut app, "ha");
    app.handle_key_event(press(KeyCode::Esc));
    app.handle_key_event(press(KeyCode::Char('e')));
    assert_eq!(app.current_screen, CurrentScreen::Editing);
    assert_eq!(app.currently_editing, Some(CurrentlyEditing::Key));
    type_text(&mut app, "lf");
    assert_eq!(app.key_input, "half");
}

#[test]
fn key_buffer_holds_exactly_the_typed_key() {
    let mut app = App::new();
    app.handle_key_event(press(KeyCode::Char('e')));
    type_text(&mut app, "ke");
    app.handle_key_event(press(KeyCode::Tab));
    type_text(&mut app, "vv");
    app.handle_key_event(press(KeyCode::Tab));
    type_text(&mut app, "y!");
    app.handle_key_event(release(KeyCode::Char('z')));
    app.handle_key_event(press(KeyCode::Other));
    assert_eq!(app.key_input, "key!");
    assert_eq!(app.value_input, "vv");
}

#[test]
fn tab_toggles_focus() {
    let mut app = App::new();
    app.toggle_editing();
    assert_eq!(app.currently_editing, Some(CurrentlyEditing::Key));
    app.toggle_editing();
    assert_eq!(app.currently_editing, Some(CurrentlyEditing::Value));
    app.toggle_editing();
    assert_eq!(app.currently_editing, Some(CurrentlyEditing::Key));
}

#[test]
fn tab_on_editing_screen_alternates() {
    let mut app = App::new();
    app.handle_key_event(press(KeyCode::Char('e')));
    app.handle_key_event(press(KeyCode::Tab));
    assert_eq!(app.currently_editing, Some(CurrentlyEditing::Value));
    app.handle_key_event(press(KeyCode::Tab));
    assert_eq!(app.currently_editing, Some(CurrentlyEditing::Key));
}

#[test]
fn backspace_removes_last_character_of_focused_field() {
    let mut app = App::new();
    app.handle_key_event(press(KeyCode::Char('e')));
    app.handle_key_event(press(KeyCode::Backspace));
    assert_eq!(app.key_input, "");
    type_text(&mut app, "abc");
    app.handle_key_event(press(KeyCode::Backspace));
    assert_eq!(app.key_input, "ab");
    app.handle_key_event(press(KeyCode::Enter));
    type_text(&mut app, "xy");
    app.handle_key_event(press(KeyCode::Backspace));
    assert_eq!(app.value_input, "x");
    assert_eq!(app.key_input, "ab");
}

#[test]
fn enter_on_key_moves_to_value() {
    let mut app = App::new();
    app.handle_key_event(press(KeyCode::Char('e')));
    app.handle_key_event(press(KeyCode::Enter));
    assert_eq!(app.currently_editing, Some(CurrentlyEditing::Value));
    assert!(app.pairs.is_empty());
}

#[test]
fn editing_screen_ignores_repeat_and_release() {
    let mut app = App::new();
    app.handle_key_event(press(KeyCode::Char('e')));
    app.handle_key_event(repeat(KeyCode::Char('a')));
    app.handle_key_event(release(KeyCode::Char('b')));
    assert_eq!(app.key_input, "");
}

#[test]
fn main_screen_reads_repeat_but_not_release() {
    let mut app = App::new();
    app.handle_key_event(release(KeyCode::Char('q')));
    assert_eq!(app.current_screen, CurrentScreen::Main);
    app.handle_key_event(repeat(KeyCode::Char('q')));
    assert_eq!(app.current_screen, CurrentScreen::Exiting);
}

#[test]
fn main_screen_ignores_other_keys() {
    let mut app = App::new();
    app.handle_key_event(press(KeyCode::Char('x')));
    app.handle_key_event(press(KeyCode::Enter));
    app.handle_key_event(press(KeyCode::Tab));
    assert_eq!(app.current_screen, CurrentScreen::Main);
    assert_eq!(app.currently_editing, None);
}

#[test]
fn exit_with_yes_prints() {
    let mut app = App::new();
    app.handle_key_event(press(KeyCode::Char('q')));
    app.handle_key_event(press(KeyCode::Char('x')));
    assert_eq!(app.current_screen, CurrentScreen::Exiting);
    assert!(!app.should_quit);
    app.handle_key_event(press(KeyCode::Char('y')));
    assert!(app.should_quit);
    assert!(app.should_print);
}

#[test]
fn exit_with_no_does_not_print() {
    let mut app = App::new();
    app.handle_key_event(press(KeyCode::Char('q')));
    app.handle_key_event(press(KeyCode::Char('n')));
    assert!(app.should_quit);
    assert!(!app.should_print);
}

#[test]
fn no_input_after_quit() {
    let mut app = App::new();
    app.handle_key_event(press(KeyCode::Char('q')));
    app.handle_key_event(press(KeyCode::Char('n')));
    app.handle_key_event(press(KeyCode::Char('y')));
    app.handle_key_event(press(KeyCode::Esc));
    app.handle_key_event(press(KeyCode::Char('e')));
    assert!(app.should_quit);
    assert!(!app.should_print);
    assert_eq!(app.current_screen, CurrentScreen::Exiting);
}

#[test]
fn output_round_trips_in_order() {
    let mut app = App::new();
    add_entry(&mut app, "zeta", "1");
    add_entry(&mut app, "alpha", "hello world");
    add_entry(&mut app, "list", "[1,2,3]");
    add_entry(&mut app, "none", "");
    add_entry(&mut app, "flag", "true");
    app.handle_key_event(press(KeyCode::Char('q')));
    app.handle_key_event(press(KeyCode::Char('y')));
    assert!(app.should_print);
    let text = app.to_json().unwrap();
    assert_eq!(
        text,
        "{\"zeta\":1,\"alpha\":\"hello world\",\"list\":[1,2,3],\"none\":null,\"flag\":true}"
    );
    let back: indexmap::IndexMap<String, Value> = serde_json::from_str(&text).unwrap();
    assert_eq!(back, app.pairs);
    let keys: Vec<&String> = back.keys().collect();
    assert_eq!(keys, vec!["zeta", "alpha", "list", "none", "flag"]);
}

#[test]
fn save_key_value_commits_directly() {
    let mut app = App::new();
    app.key_input = "k".to_string();
    app.value_input = "false".to_string();
    app.save_key_value();
    assert_eq!(app.pairs.get("k"), Some(&Value::Bool(false)));
    assert_eq!(app.currently_editing, None);
}

#[test]
fn parse_value_input_reads_the_value_buffer() {
    let mut app = App::new();
    app.value_input = " [1, 2] ".to_string();
    let v = app.parse_value_input().unwrap();
    assert_eq!(v.as_array().map(|a| a.len()), Some(2));
}
