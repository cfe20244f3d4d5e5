use cape::builder::row;
use cape::diff::InteractNode;
use cape::geom::{point2, rect, size2};
use cape::hit::{
    cursor_moved, keyboard_input, mouse_pressed, mouse_released, received_character, Interaction,
    Modifiers, MouseButton,
};
use cape::widget::button_interaction;
use cape::identity::Identity;
use cape::node::{interact, rectangle, CallbackId, CornerRadii, Node, ResolvedNode};
use cape::paint::{rgb, Paint};
use cape::text::Resources;

fn pool() -> Resources {
    Resources::new(12, Paint::Solid(rgb(0, 0, 0)))
}

fn plain_rect(w: i64, h: i64) -> Node {
    rectangle(size2(w, h), CornerRadii::uniform(0), None, 0, None)
}

fn two_buttons() -> ResolvedNode {
    // Two side-by-side interactive areas of 50x50.
    let node = row()
        .child(interact(plain_rect(50, 50), CallbackId::new(1), Identity::new(1), false))
        .child(interact(plain_rect(50, 50), CallbackId::new(2), Identity::new(2), false))
        .into_node();
    let mut res = pool();
    let mut tree = node.resolve(&mut res).unwrap().unwrap();
    tree.set_rect(rect(0, 0, 100, 50));
    tree.perform_layout();
    tree
}

#[test]
fn hit_testing_finds_the_deepest_interactive_node() {
    let tree = two_buttons();
    let left = tree.node_at_point(point2(10, 10), None).unwrap();
    assert_eq!(left.id, Identity::new(1));
    assert_eq!(left.callback, CallbackId::new(1));
    let right = tree.node_at_point(point2(80, 10), None).unwrap();
    assert_eq!(right.id, Identity::new(2));
    assert!(tree.node_at_point(point2(10, 200), None).is_none());
}

#[test]
fn cursor_movement_fires_exit_enter_move() {
    let tree = two_buttons();
    let mut hovered = None;

    // Entering the left button: enter then move, no exit.
    let events = cursor_moved(&tree, point2(10, 10), &mut hovered);
    assert_eq!(hovered.unwrap().id, Identity::new(1));
    assert_eq!(events.len(), 2);
    assert_eq!(events[0], (CallbackId::new(1), Interaction::CursorEnter { pos: point2(10, 10) }));
    assert_eq!(events[1], (CallbackId::new(1), Interaction::CursorMove { pos: point2(10, 10) }));

    // Moving within the same button: just the move.
    let events = cursor_moved(&tree, point2(20, 10), &mut hovered);
    assert_eq!(events, vec![(CallbackId::new(1), Interaction::CursorMove { pos: point2(20, 10) })]);

    // Crossing to the right button: exit, enter, move.
    let events = cursor_moved(&tree, point2(80, 10), &mut hovered);
    assert_eq!(events[0], (CallbackId::new(1), Interaction::CursorExit { pos: point2(80, 10) }));
    assert_eq!(events[1], (CallbackId::new(2), Interaction::CursorEnter { pos: point2(80, 10) }));
    assert_eq!(events[2], (CallbackId::new(2), Interaction::CursorMove { pos: point2(80, 10) }));

    // Leaving entirely: exit only.
    let events = cursor_moved(&tree, point2(10, 200), &mut hovered);
    assert!(hovered.is_none());
    assert_eq!(events, vec![(CallbackId::new(2), Interaction::CursorExit { pos: point2(10, 200) })]);
}

#[test]
fn pressing_grabs_and_focuses_the_hovered_node() {
    let target = InteractNode { callback: CallbackId::new(1), id: Identity::new(1) };
    let hovered = Some(target);
    let mut pressed = None;
    let mut focused = None;
    let mods = Modifiers::default();
    let events =
        mouse_pressed(MouseButton::Left, point2(10, 10), mods, &hovered, &mut pressed, &mut focused);
    assert_eq!(pressed.unwrap().id, Identity::new(1));
    assert_eq!(focused.unwrap().id, Identity::new(1));
    assert_eq!(events.len(), 2);
    assert!(matches!(events[0].1, Interaction::MouseDown { button: MouseButton::Left, .. }));
    assert_eq!(events[1], (CallbackId::new(1), Interaction::GainFocus));
}

#[test]
fn pressing_over_nothing_drops_focus() {
    let hovered = None;
    let mut pressed = None;
    let mut focused = Some(InteractNode { callback: CallbackId::new(9), id: Identity::new(9) });
    let mods = Modifiers::default();
    let events =
        mouse_pressed(MouseButton::Left, point2(0, 0), mods, &hovered, &mut pressed, &mut focused);
    assert!(pressed.is_none());
    assert!(focused.is_none());
    assert_eq!(events, vec![(CallbackId::new(9), Interaction::LoseFocus)]);
}

#[test]
fn release_ends_the_grab() {
    let target = InteractNode { callback: CallbackId::new(1), id: Identity::new(1) };
    let hovered = Some(target);
    let mut pressed = Some(target);
    let mut focused = Some(target);
    let mods = Modifiers::default();
    let events = mouse_released(
        MouseButton::Left,
        point2(10, 10),
        mods,
        &hovered,
        &mut pressed,
        &mut focused,
    );
    assert!(pressed.is_none());
    assert_eq!(focused.unwrap().id, Identity::new(1));
    assert_eq!(events.len(), 1);
    assert!(matches!(events[0].1, Interaction::MouseUp { .. }));
}

#[test]
fn keys_and_characters_go_to_the_focused_node() {
    let focused = Some(InteractNode { callback: CallbackId::new(5), id: Identity::new(5) });
    let mods = Modifiers::default();
    let down = keyboard_input(&focused, 40, true, mods);
    assert_eq!(down, vec![(CallbackId::new(5), Interaction::KeyDown { key_code: 40, modifiers: mods })]);
    let up = keyboard_input(&focused, 40, false, mods);
    assert_eq!(up, vec![(CallbackId::new(5), Interaction::KeyUp { key_code: 40, modifiers: mods })]);
    let typed = received_character(&focused, 'q');
    assert_eq!(typed, vec![(CallbackId::new(5), Interaction::ReceiveCharacter { character: 'q' })]);
    assert!(keyboard_input(&None, 40, true, mods).is_empty());
    assert!(received_character(&None, 'q').is_empty());
}

#[test]
fn button_state_machine() {
    let mods = Modifiers::default();
    let down = Interaction::MouseDown { button: MouseButton::Left, pos: point2(0, 0), modifiers: mods };
    let up = Interaction::MouseUp { button: MouseButton::Left, pos: point2(0, 0), modifiers: mods };
    assert_eq!(button_interaction(false, false, false, &down), (false, true, false, true));
    assert_eq!(button_interaction(false, true, false, &up), (false, false, false, false));
    let enter = Interaction::CursorEnter { pos: point2(0, 0) };
    assert_eq!(button_interaction(false, false, false, &enter), (true, false, false, false));
    let exit = Interaction::CursorExit { pos: point2(0, 0) };
    assert_eq!(button_interaction(true, false, false, &exit), (false, false, false, false));
    assert_eq!(
        button_interaction(false, false, false, &Interaction::GainFocus),
        (false, false, true, false)
    );
    assert_eq!(
        button_interaction(false, false, true, &Interaction::LoseFocus),
        (false, false, false, false)
    );
    // A right-button press neither presses nor clicks.
    let right = Interaction::MouseDown { button: MouseButton::Right, pos: point2(0, 0), modifiers: mods };
    assert_eq!(button_interaction(false, false, false, &right), (false, false, false, false));
}

#[test]
fn is_mouse_down_recognizes_presses() {
    let mods = Modifiers::default();
    let down = Interaction::MouseDown { button: MouseButton::Left, pos: point2(0, 0), modifiers: mods };
    assert!(down.is_mouse_down());
    assert!(!Interaction::GainFocus.is_mouse_down());
}
