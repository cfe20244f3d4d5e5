//! Widget-facing pieces: callback handles, the decision cores of the basic
//! widgets, and the window description handed to the host.
//!
//! The widget kit itself (buttons, combo boxes, sliders) is composition on
//! top of the scene-graph core; what is here is the part with behavior
//! worth pinning down: the interaction state machines the widgets run.

use vstd::prelude::*;
use vstd::string::{StrSliceExecFns, StringExecFns};
use core::marker::PhantomData;
use crate::geom::Size2;
use crate::hit::{Interaction, MouseButton};
use crate::node::{CallbackId, Node};
use crate::paint::Color;

verus! {

/// A host callback a widget may carry: absent, or a handle the host
/// invokes with the widget's argument.
#[derive(Debug)]
pub enum Callback<T> {
    Unset,
    Func(CallbackId, PhantomData<T>),
}

impl<T> Callback<T> {
    /// A callback bound to a host closure handle.
    pub fn new(func: CallbackId) -> (r: Callback<T>)
        ensures
            r is Func && r->0 == func,
    {
        Callback::Func(func, PhantomData)
    }

    /// Takes the callback out, leaving it unset.
    pub fn take(&mut self) -> (r: Callback<T>)
        ensures
            *final(self) is Unset,
            r == *old(self),
    {
        let mut out = Callback::Unset;
        core::mem::swap(self, &mut out);
        out
    }

    /// The handle to invoke, if one is bound; the host calls it with the
    /// widget's argument.
    pub fn call(&self) -> (r: Option<CallbackId>)
        ensures
            match r {
                Some(c) => *self is Func && (*self)->0 == c,
                None => *self is Unset,
            },
    {
        match self {
            Callback::Func(c, _) => Some(*c),
            Callback::Unset => None,
        }
    }
}

/// The visual state of a button.
#[derive(Debug, Clone, Copy, PartialEq, Eq, Structural, Hash)]
pub enum ButtonState {
    Normal,
    Hovered,
    Pressed,
    Disabled,
}

/// The hover/press/focus flags of a button after an interaction, plus
/// whether its click callback fires.
pub open spec fn spec_button_interaction(
    hovered: bool,
    pressed: bool,
    focused: bool,
    event: Interaction,
) -> (bool, bool, bool, bool) {
    match event {
        Interaction::MouseDown { button: MouseButton::Left, .. } => (hovered, true, focused, true),
        Interaction::MouseUp { button: MouseButton::Left, .. } => (hovered, false, focused, false),
        Interaction::CursorEnter { .. } => (true, pressed, focused, false),
        Interaction::CursorExit { .. } => (false, pressed, focused, false),
        Interaction::GainFocus => (hovered, pressed, true, false),
        Interaction::LoseFocus => (hovered, pressed, false, false),
        _ => (hovered, pressed, focused, false),
    }
}

/// The decision core of a button: how one interaction event changes its
/// hover, press and focus flags, and whether the click callback fires (on
/// a left-button press).
pub fn button_interaction(hovered: bool, pressed: bool, focused: bool, event: &Interaction) -> (r:
    (bool, bool, bool, bool))
    ensures
        r == spec_button_interaction(hovered, pressed, focused, *event),
{
    match event {
        Interaction::MouseDown { button: MouseButton::Left, .. } => (hovered, true, focused, true),
        Interaction::MouseUp { button: MouseButton::Left, .. } => (hovered, false, focused, false),
        Interaction::CursorEnter { .. } => (true, pressed, focused, false),
        Interaction::CursorExit { .. } => (false, pressed, focused, false),
        Interaction::GainFocus => (hovered, pressed, true, false),
        Interaction::LoseFocus => (hovered, pressed, false, false),
        _ => (hovered, pressed, focused, false),
    }
}

/// Whether a character is a control character (the Unicode control
/// category): such characters never enter a text box's value.
pub open spec fn spec_is_control(c: char) -> bool {
    (c as u32) < 0x20 || (0x7f <= (c as u32) && (c as u32) <= 0x9f)
}

/// Whether a character is a control character.
pub fn is_control_char(c: char) -> (r: bool)
    ensures
        r == spec_is_control(c),
{
    let u = c as u32;
    u < 0x20 || (0x7f <= u && u <= 0x9f)
}

/// Relies on `String::push`: appends exactly the given character to the
/// end of the string.
#[verifier::external_body]
fn push_char(s: &mut String, c: char)
    ensures
        final(s)@ == old(s)@.push(c),
{
    s.push(c);
}

/// The key code a text box treats as backspace; the host translates its
/// platform's code to this one.
pub const KEY_BACK: u32 = 8;

/// The value a text box proposes after one interaction: a printable typed
/// character appends, backspace removes the last character of a non-empty
/// value, everything else proposes nothing.
pub open spec fn spec_text_box_edit(value: Seq<char>, event: Interaction) -> Option<Seq<char>> {
    match event {
        Interaction::ReceiveCharacter { character } => if !spec_is_control(character) {
            Some(value.push(character))
        } else {
            None
        },
        Interaction::KeyDown { key_code, .. } => if key_code == KEY_BACK && value.len() > 0 {
            Some(value.drop_last())
        } else {
            None
        },
        _ => None,
    }
}

/// The decision core of a text box: the new value one interaction
/// proposes, if any.  The caller hands the proposal to its change
/// callback.
pub fn text_box_edit(value: &String, event: &Interaction) -> (r: Option<String>)
    ensures
        match r {
            Some(s) => spec_text_box_edit(value@, *event) == Some(s@),
            None => spec_text_box_edit(value@, *event) is None,
        },
{
    match event {
        Interaction::ReceiveCharacter { character } => {
            if !is_control_char(*character) {
                let mut s = value.clone();
                push_char(&mut s, *character);
                Some(s)
            } else {
                None
            }
        },
        Interaction::KeyDown { key_code, .. } => {
            if *key_code == KEY_BACK {
                let n = value.as_str().unicode_len();
                if n > 0 {
                    let trimmed = value.as_str().substring_char(0, n - 1);
                    proof {
                        assert(trimmed@ =~= value@.drop_last());
                    }
                    Some(String::from_str(trimmed))
                } else {
                    None
                }
            } else {
                None
            }
        },
        _ => None,
    }
}

/// A combo box under construction: the choices, the selected index, and
/// the change callback.
pub struct ComboBox {
    pub values: Vec<String>,
    pub selected: usize,
    pub on_change: Callback<(String, usize)>,
}

impl ComboBox {
    pub fn new() -> (r: ComboBox)
        ensures
            r.values@.len() == 0,
            r.selected == 0usize,
            r.on_change is Unset,
    {
        ComboBox { values: Vec::new(), selected: 0, on_change: Callback::Unset }
    }

    /// Replaces the choices.
    pub fn values(self, values: Vec<String>) -> (r: ComboBox)
        ensures
            r == (ComboBox { values, ..self }),
    {
        ComboBox { values, ..self }
    }

    /// Selects a choice by index.
    pub fn selected(self, selected: usize) -> (r: ComboBox)
        ensures
            r == (ComboBox { selected, ..self }),
    {
        ComboBox { selected, ..self }
    }

    /// Binds the change callback.
    pub fn on_change(self, on_change: Callback<(String, usize)>) -> (r: ComboBox)
        ensures
            r == (ComboBox { on_change, ..self }),
    {
        ComboBox { on_change, ..self }
    }
}

/// What one frame hands the host to present: the body tree and the clear
/// color.
pub struct Window {
    pub body: Node,
    pub background: Color,
}

/// What the host hands tree construction about the window.
#[derive(Debug, Clone, Copy, PartialEq, Eq, Structural, Hash)]
pub struct WindowInfo {
    pub size: Size2,
}

} // verus!
