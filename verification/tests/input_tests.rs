use hermione_terminal::input::Input;
use hermione_terminal::smart_input::{NewSmartInputParameters, SmartInput, Value};
use hermione_terminal::text::labelled_number;
use hermione_terminal::theme::Theme;

fn typed(text: &str) -> Input {
    let mut input = Input::empty();
    for c in text.chars() {
        input.enter_char(c);
    }
    input
}

#[test]
fn typing_inserts_at_the_cursor() {
    let mut input = typed("helo");
    input.move_cursor_left();
    input.enter_char('l');
    assert_eq!(input.value(), "hello");
    assert_eq!(input.character_index(), 4);
}

#[test]
fn deleting_after_typing_restores_the_input() {
    let mut input = Input::new("abc".to_string());
    input.move_cursor_left();
    input.enter_char('x');
    input.delete_char();
    assert_eq!(input.value(), "abc");
    assert_eq!(input.character_index(), 2);
}

#[test]
fn new_input_puts_the_cursor_at_the_end() {
    let input = Input::new("żółw".to_string());
    assert_eq!(input.character_index(), 4);
    assert!(!input.is_empty());
}

#[test]
fn cursor_stops_at_both_ends() {
    let mut input = Input::new("ab".to_string());
    input.move_cursor_right();
    assert_eq!(input.character_index(), 2);
    input.move_cursor_left();
    input.move_cursor_left();
    input.move_cursor_left();
    assert_eq!(input.character_index(), 0);
    input.delete_char();
    assert_eq!(input.value(), "ab");
}

#[test]
fn delete_all_chars_empties_the_input() {
    let mut input = typed("workspace");
    input.delete_all_chars();
    assert!(input.is_empty());
    assert_eq!(input.character_index(), 0);
}

#[test]
fn secret_value_hides_every_character() {
    let input = typed("key1");
    assert_eq!(input.secret_value(), "****");
}

#[test]
fn labelled_number_writes_the_number_in_decimal() {
    assert_eq!(labelled_number("List workspaces", 0), "List workspaces (0)");
    assert_eq!(labelled_number("List commands", 1203), "List commands (1203)");
}

fn smart_input() -> SmartInput {
    SmartInput::new(NewSmartInputParameters {
        commands: vec!["Exit".to_string(), "Edit command".to_string(), "New command".to_string()],
        theme: Theme::plain(),
    })
}

#[test]
fn smart_input_searches_until_a_prompt_is_opened() {
    let mut input = smart_input();
    input.enter_char('g');
    input.enter_char('i');
    assert_eq!(input.search(), Some("gi".to_string()));
    assert_eq!(input.command(), None);
    assert_eq!(input.value(), Some(Value::Base("gi".to_string())));
}

#[test]
fn smart_input_picks_the_first_command_starting_with_the_prompt() {
    let mut input = smart_input();
    input.enter_char('>');
    input.enter_char('E');
    assert_eq!(input.search(), None);
    assert_eq!(input.command(), Some("Exit".to_string()));
    input.enter_char('d');
    assert_eq!(input.command(), Some("Edit command".to_string()));
    assert_eq!(input.value(), Some(Value::Command("Edit command".to_string())));
}

#[test]
fn smart_input_without_a_matching_command_holds_nothing() {
    let mut input = smart_input();
    input.enter_char('>');
    input.enter_char('z');
    assert_eq!(input.command(), None);
    assert_eq!(input.value(), None);
}

#[test]
fn autocomplete_completes_the_command_name() {
    let mut input = smart_input();
    input.enter_char('>');
    input.enter_char('N');
    input.autocomplete();
    assert_eq!(input.input().value(), ">New command");
    assert_eq!(input.input().character_index(), 12);
}

#[test]
fn autocomplete_leaves_a_search_alone() {
    let mut input = smart_input();
    input.enter_char('N');
    input.autocomplete();
    assert_eq!(input.input().value(), "N");
}

#[test]
fn toggle_switches_between_search_and_prompt() {
    let mut input = smart_input();
    input.enter_char('q');
    input.toggle_input();
    assert_eq!(input.input().value(), ">");
    assert!(input.is_prompt());
    input.toggle_input();
    assert_eq!(input.input().value(), "");
    assert!(!input.is_prompt());
}

#[test]
fn reset_input_empties_the_prompt() {
    let mut input = smart_input();
    input.enter_char('>');
    input.reset_input();
    assert_eq!(input.search(), Some(String::new()));
}

#[test]
fn completing_twice_is_completing_once() {
    let mut input = smart_input();
    input.enter_char('>');
    input.enter_char('E');
    input.enter_char('d');
    input.autocomplete();
    let once = input.input().value();
    input.autocomplete();
    assert_eq!(input.input().value(), once);
    assert_eq!(once, ">Edit command");
}
