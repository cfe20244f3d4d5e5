use cape::hit::{Interaction, Modifiers};
use cape::node::CallbackId;
use cape::widget::{is_control_char, text_box_edit, Callback, ComboBox, KEY_BACK};

#[test]
fn callbacks_bind_take_and_call() {
    let mut cb: Callback<u32> = Callback::new(CallbackId::new(4));
    assert_eq!(cb.call(), Some(CallbackId::new(4)));
    let taken = cb.take();
    assert_eq!(taken.call(), Some(CallbackId::new(4)));
    assert_eq!(cb.call(), None);
}

#[test]
fn combo_box_builder_holds_its_choices() {
    let cb = ComboBox::new()
        .values(vec![String::from("one"), String::from("two")])
        .selected(1)
        .on_change(Callback::new(CallbackId::new(8)));
    assert_eq!(cb.values, vec![String::from("one"), String::from("two")]);
    assert_eq!(cb.selected, 1);
    assert_eq!(cb.on_change.call(), Some(CallbackId::new(8)));
}

#[test]
fn typing_appends_printable_characters() {
    let value = String::from("ab");
    let ev = Interaction::ReceiveCharacter { character: 'c' };
    assert_eq!(text_box_edit(&value, &ev), Some(String::from("abc")));
}

#[test]
fn control_characters_are_ignored() {
    let value = String::from("ab");
    let ev = Interaction::ReceiveCharacter { character: '\u{8}' };
    assert_eq!(text_box_edit(&value, &ev), None);
    assert!(is_control_char('\n'));
    assert!(is_control_char('\u{7f}'));
    assert!(is_control_char('\u{9f}'));
    assert!(!is_control_char(' '));
    assert!(!is_control_char('a'));
}

#[test]
fn backspace_removes_the_last_character() {
    let mods = Modifiers::default();
    let back = Interaction::KeyDown { key_code: KEY_BACK, modifiers: mods };
    assert_eq!(text_box_edit(&String::from("abc"), &back), Some(String::from("ab")));
    // Backspace on an empty value proposes nothing.
    assert_eq!(text_box_edit(&String::new(), &back), None);
    // Other keys propose nothing.
    let other = Interaction::KeyDown { key_code: 40, modifiers: mods };
    assert_eq!(text_box_edit(&String::from("abc"), &other), None);
}
