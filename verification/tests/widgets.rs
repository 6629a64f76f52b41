use bibliotheque::app::state::FormState;
use bibliotheque::ui::event::{KeyCode, KeyEvent, KeyModifiers};
use bibliotheque::ui::widgets::{Form, TextInput};

fn key(code: KeyCode) -> KeyEvent {
    KeyEvent::new(code, KeyModifiers::none())
}

fn strings(texts: &[&str]) -> Vec<String> {
    texts.iter().map(|t| t.to_string()).collect()
}

#[test]
fn new_text_input_is_empty() {
    let t = TextInput::new("ID".to_string());
    assert_eq!(t.value(), "");
    assert_eq!(t.label, "ID");
    assert!(!t.focused);
    assert_eq!(t.input.cursor(), 0);
}

#[test]
fn text_input_with_value_has_its_cursor_at_the_end() {
    let t = TextInput::with_value("Titre".to_string(), "été".to_string());
    assert_eq!(t.value(), "été");
    assert_eq!(t.input.cursor(), 3);
}

#[test]
fn typing_inserts_at_the_cursor() {
    let mut t = TextInput::with_value("x".to_string(), "ac".to_string());
    t.handle_key_event(key(KeyCode::Left));
    assert_eq!(t.input.cursor(), 1);
    t.handle_key_event(key(KeyCode::Char('b')));
    assert_eq!(t.value(), "abc");
    assert_eq!(t.input.cursor(), 2);
    t.handle_key_event(key(KeyCode::End));
    t.handle_key_event(key(KeyCode::Char('d')));
    assert_eq!(t.value(), "abcd");
    assert_eq!(t.input.cursor(), 4);
}

#[test]
fn backspace_and_delete_remove_one_character() {
    let mut t = TextInput::with_value("x".to_string(), "abcd".to_string());
    t.handle_key_event(key(KeyCode::Backspace));
    assert_eq!(t.value(), "abc");
    assert_eq!(t.input.cursor(), 3);
    t.handle_key_event(key(KeyCode::Delete));
    assert_eq!(t.value(), "abc");
    t.handle_key_event(key(KeyCode::Home));
    assert_eq!(t.input.cursor(), 0);
    t.handle_key_event(key(KeyCode::Backspace));
    assert_eq!(t.value(), "abc");
    t.handle_key_event(key(KeyCode::Delete));
    assert_eq!(t.value(), "bc");
    assert_eq!(t.input.cursor(), 0);
    t.handle_key_event(key(KeyCode::Right));
    t.handle_key_event(key(KeyCode::Backspace));
    assert_eq!(t.value(), "c");
    assert_eq!(t.input.cursor(), 0);
}

#[test]
fn cursor_stops_at_the_ends() {
    let mut t = TextInput::with_value("x".to_string(), "ab".to_string());
    t.handle_key_event(key(KeyCode::Right));
    assert_eq!(t.input.cursor(), 2);
    t.handle_key_event(key(KeyCode::Home));
    t.handle_key_event(key(KeyCode::Left));
    assert_eq!(t.input.cursor(), 0);
    assert_eq!(t.value(), "ab");
}

#[test]
fn other_keys_leave_a_text_input_alone() {
    let mut t = TextInput::with_value("x".to_string(), "ab".to_string());
    t.handle_key_event(key(KeyCode::Up));
    t.handle_key_event(key(KeyCode::Enter));
    t.handle_key_event(key(KeyCode::Other));
    assert_eq!(t.value(), "ab");
    assert_eq!(t.input.cursor(), 2);
}

#[test]
fn set_value_and_clear() {
    let mut t = TextInput::with_value("x".to_string(), "ab".to_string());
    t.set_value("xyz".to_string());
    assert_eq!(t.value(), "xyz");
    assert_eq!(t.input.cursor(), 3);
    assert_eq!(t.label, "x");
    t.clear();
    assert_eq!(t.value(), "");
    assert_eq!(t.input.cursor(), 0);
}

#[test]
fn new_form_has_one_empty_field_for_each_label() {
    let f = Form::new(strings(&["ID", "Titre"]));
    assert_eq!(f.fields.len(), 2);
    assert_eq!(f.fields[1].label, "Titre");
    assert_eq!(f.values(), strings(&["", ""]));
    assert_eq!(f.focused_field, 0);
}

#[test]
fn form_with_values_goes_as_far_as_both_go() {
    let f = Form::with_values(strings(&["a", "b", "c"]), strings(&["1", "2"]));
    assert_eq!(f.values(), strings(&["1", "2"]));
    assert_eq!(f.fields[0].label, "a");
    let f = Form::with_values(strings(&["a"]), strings(&["1", "2"]));
    assert_eq!(f.values(), strings(&["1"]));
    assert_eq!(f.get_value(0), Some("1"));
    assert_eq!(f.get_value(1), None);
}

#[test]
fn focus_cycles_through_the_fields() {
    let mut f = Form::new(strings(&["a", "b", "c"]));
    assert!(f.handle_key_event(key(KeyCode::Tab)));
    assert_eq!(f.focused_field, 1);
    assert!(f.handle_key_event(key(KeyCode::Down)));
    assert_eq!(f.focused_field, 2);
    f.focus_next();
    assert_eq!(f.focused_field, 0);
    assert!(f.handle_key_event(key(KeyCode::BackTab)));
    assert_eq!(f.focused_field, 2);
    assert!(f.handle_key_event(key(KeyCode::Up)));
    assert_eq!(f.focused_field, 1);
    f.focus_prev();
    assert_eq!(f.focused_field, 0);
}

#[test]
fn focus_of_an_empty_form_stays() {
    let mut f = Form::new(Vec::new());
    f.focus_next();
    assert_eq!(f.focused_field, 0);
    f.focus_prev();
    assert_eq!(f.focused_field, 0);
    assert!(!f.handle_key_event(key(KeyCode::Char('a'))));
    assert!(f.values().is_empty());
}

#[test]
fn other_keys_go_to_the_focused_field() {
    let mut f = Form::with_values(strings(&["a", "b"]), strings(&["x", "y"]));
    f.focus_next();
    assert!(!f.handle_key_event(key(KeyCode::Char('z'))));
    assert_eq!(f.values(), strings(&["x", "yz"]));
    assert!(!f.handle_key_event(key(KeyCode::Backspace)));
    assert!(!f.handle_key_event(key(KeyCode::Backspace)));
    assert_eq!(f.values(), strings(&["x", ""]));
    f.focused_field = 5;
    assert!(!f.handle_key_event(key(KeyCode::Char('z'))));
    assert_eq!(f.values(), strings(&["x", ""]));
}

#[test]
fn set_values_and_clear_of_a_form() {
    let mut f = Form::new(strings(&["a", "b", "c"]));
    f.set_values(strings(&["1", "2"]));
    assert_eq!(f.values(), strings(&["1", "2", ""]));
    f.set_values(strings(&["9", "8", "7", "6"]));
    assert_eq!(f.values(), strings(&["9", "8", "7"]));
    f.focus_next();
    f.clear();
    assert_eq!(f.values(), strings(&["", "", ""]));
    assert_eq!(f.focused_field, 0);
    assert_eq!(f.fields[2].label, "c");
}

#[test]
fn validate_names_the_blank_fields() {
    let f = Form::with_values(strings(&["ID", "Titre", "Année"]), strings(&["", "T", "  "]));
    assert_eq!(
        f.validate(),
        Err(strings(&[
            "Le champ 'ID' ne peut pas être vide",
            "Le champ 'Année' ne peut pas être vide"
        ]))
    );
    let f = Form::with_values(strings(&["ID", "Titre"]), strings(&["1", "T"]));
    assert_eq!(f.validate(), Ok(()));
    assert_eq!(Form::new(Vec::new()).validate(), Ok(()));
}

#[test]
fn a_form_is_complete_with_all_its_fields_filled() {
    let f = Form::with_values(strings(&["a", "b"]), strings(&["1", "2"]));
    assert!(f.is_complete(2));
    assert!(!f.is_complete(3));
    let f = Form::with_values(strings(&["a", "b"]), strings(&["1", " "]));
    assert!(!f.is_complete(2));
}

#[test]
fn form_state_round_trip() {
    let state = FormState { fields: strings(&["1", "2"]), focused_field: 1 };
    let mut f = Form::from_state(strings(&["a", "b"]), &state);
    assert_eq!(f.focused_field, 1);
    assert_eq!(f.values(), strings(&["1", "2"]));
    f.handle_key_event(key(KeyCode::Char('3')));
    let mut saved = FormState::vide(0);
    f.save_state(&mut saved);
    assert_eq!(saved, FormState { fields: strings(&["1", "23"]), focused_field: 1 });
}

#[test]
fn empty_form_state() {
    assert_eq!(FormState::vide(2), FormState { fields: strings(&["", ""]), focused_field: 0 });
    assert_eq!(FormState::default(), FormState { fields: Vec::new(), focused_field: 0 });
}
