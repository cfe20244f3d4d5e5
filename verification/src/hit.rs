//! Hit-testing and interaction dispatch decisions.
//!
//! The host event loop translates platform input into the abstract
//! [`Interaction`] events here, asks these functions what changed, and fires
//! the returned `(callback, event)` pairs.  The functions own the hover,
//! press and focus transitions; they never invoke anything themselves.

use vstd::prelude::*;
use crate::diff::{spec_same_target, InteractNode};
use crate::flatten::rects_wf;
use crate::geom::Point2;
use crate::node::{CallbackId, RNodeV, ResolvedNode};

verus! {

/// A pressed mouse button.
#[derive(Debug, Clone, Copy, PartialEq, Eq, Structural, Hash)]
pub enum MouseButton {
    Left,
    Middle,
    Right,
}

/// The keyboard modifiers held during an interaction.
#[derive(Debug, Clone, Copy, PartialEq, Eq, Structural, Hash)]
pub struct Modifiers {
    pub shift: bool,
    pub ctrl: bool,
    pub alt: bool,
    pub logo: bool,
}

impl Default for Modifiers {
    fn default() -> (r: Self)
        ensures
            r == (Modifiers { shift: false, ctrl: false, alt: false, logo: false }),
    {
        Modifiers { shift: false, ctrl: false, alt: false, logo: false }
    }
}

/// A platform key code, already translated by the host.
pub type KeyCode = u32;

/// An abstract interaction event routed to an interactive node.
#[derive(Debug, Clone, Copy, PartialEq, Eq, Structural, Hash)]
pub enum Interaction {
    MouseDown { button: MouseButton, pos: Point2, modifiers: Modifiers },
    MouseUp { button: MouseButton, pos: Point2, modifiers: Modifiers },
    CursorMove { pos: Point2 },
    CursorEnter { pos: Point2 },
    CursorExit { pos: Point2 },
    GainFocus,
    LoseFocus,
    ReceiveCharacter { character: char },
    KeyDown { key_code: KeyCode, modifiers: Modifiers },
    KeyUp { key_code: KeyCode, modifiers: Modifiers },
}

impl Interaction {
    pub fn is_mouse_down(&self) -> (r: bool)
        ensures
            r == (self is MouseDown),
    {
        match self {
            Interaction::MouseDown { .. } => true,
            _ => false,
        }
    }
}

/// The deepest interactive node whose rectangle contains the point,
/// threading the innermost interactive ancestor found so far.
pub open spec fn hit_spec(n: RNodeV, p: Point2, last: Option<InteractNode>) -> Option<
    InteractNode,
>
    decreases n,
{
    if n.spec_rect().spec_contains(p) {
        match n {
            RNodeV::Interact { child, callback, id, .. } => {
                let here = Some(InteractNode { callback, id });
                match hit_spec(*child, p, here) {
                    Some(r) => Some(r),
                    None => here,
                }
            },
            RNodeV::Capture { child, .. } => hit_spec(*child, p, last),
            RNodeV::Layout { children, .. } => {
                match hit_list(children, p, last) {
                    Some(r) => Some(r),
                    None => last,
                }
            },
            _ => last,
        }
    } else {
        last
    }
}

/// The first child whose subtree yields a hit, in order.
pub open spec fn hit_list(s: Seq<RNodeV>, p: Point2, last: Option<InteractNode>) -> Option<
    InteractNode,
>
    decreases s,
{
    if s.len() == 0 {
        None
    } else {
        match hit_spec(s[0], p, last) {
            Some(r) => Some(r),
            None => hit_list(s.drop_first(), p, last),
        }
    }
}

impl ResolvedNode {
    /// The interactive node under a point, if any: the deepest `Interact`
    /// wrapper whose rectangle contains the point, preferring earlier
    /// siblings.
    pub fn node_at_point(&self, point: Point2, last: Option<InteractNode>) -> (r: Option<
        InteractNode,
    >)
        requires
            rects_wf(self@),
            point.wf(),
        ensures
            r == hit_spec(self@, point, last),
        decreases self,
    {
        proof {
            assert(rects_wf(self@));
        }
        let rect = self.rect();
        if !rect.contains(point) {
            return last;
        }
        match self {
            ResolvedNode::Interact { child, callback, id, .. } => {
                let here = Some(InteractNode { callback: *callback, id: *id });
                match (**child).node_at_point(point, here) {
                    Some(r) => Some(r),
                    None => here,
                }
            },
            ResolvedNode::Capture { child, .. } => (**child).node_at_point(point, last),
            ResolvedNode::Layout { children, .. } => {
                let ghost vc = ResolvedNode::view_children(children@);
                proof {
                    crate::node::lemma_rview_children_len(children@);
                    assert(vc.skip(0) =~= vc);
                }
                let n = children.len();
                let mut i: usize = 0;
                #[verifier::loop_isolation(false)]
                while i < n
                    invariant
                        i <= n,
                        hit_list(vc, point, last) == hit_list(vc.skip(i as int), point, last),
                    decreases n - i,
                {
                    proof {
                        assert(decreases_to!(*self => *children));
                        assert(decreases_to!(*children => children@[i as int]));
                        crate::node::lemma_rview_children_index(children@, i as int);
                        assert(rects_wf(vc[i as int]));
                        assert(vc.skip(i as int)[0] == vc[i as int]);
                    }
                    let hit = children[i].node_at_point(point, last);
                    match hit {
                        Some(r) => {
                            return Some(r);
                        },
                        None => {},
                    }
                    proof {
                        assert(vc.skip(i as int).drop_first() =~= vc.skip(i as int + 1));
                    }
                    i = i + 1;
                }
                proof {
                    assert(vc.skip(n as int) =~= Seq::<RNodeV>::empty());
                }
                last
            },
            _ => last,
        }
    }
}

/// The events a cursor movement fires: an exit/enter pair when the hovered
/// node changed, then a move to the newly hovered node.
pub open spec fn cursor_moved_events(
    prev: Option<InteractNode>,
    now: Option<InteractNode>,
    pos: Point2,
) -> Seq<(CallbackId, Interaction)> {
    (if !spec_same_target(prev, now) {
        (match prev {
            Some(p) => seq![(p.callback, Interaction::CursorExit { pos })],
            None => Seq::<(CallbackId, Interaction)>::empty(),
        }) + (match now {
            Some(n) => seq![(n.callback, Interaction::CursorEnter { pos })],
            None => Seq::<(CallbackId, Interaction)>::empty(),
        })
    } else {
        Seq::<(CallbackId, Interaction)>::empty()
    }) + (match now {
        Some(n) => seq![(n.callback, Interaction::CursorMove { pos })],
        None => Seq::<(CallbackId, Interaction)>::empty(),
    })
}

/// Updates the hover tracker for a cursor position and returns the events
/// to fire: exit and enter when the hovered node changed, then the move.
pub fn cursor_moved(
    tree: &ResolvedNode,
    pos: Point2,
    hovered: &mut Option<InteractNode>,
) -> (out: Vec<(CallbackId, Interaction)>)
    requires
        rects_wf(tree@),
        pos.wf(),
    ensures
        *final(hovered) == hit_spec(tree@, pos, None),
        out@ == cursor_moved_events(*old(hovered), hit_spec(tree@, pos, None), pos),
{
    let prev = *hovered;
    let now = tree.node_at_point(pos, None);
    *hovered = now;
    let mut out: Vec<(CallbackId, Interaction)> = Vec::new();
    if !compare_targets(&prev, &now) {
        match prev {
            Some(p) => {
                out.push((p.callback, Interaction::CursorExit { pos }));
            },
            None => {},
        }
        match now {
            Some(n) => {
                out.push((n.callback, Interaction::CursorEnter { pos }));
            },
            None => {},
        }
    }
    match now {
        Some(n) => {
            out.push((n.callback, Interaction::CursorMove { pos }));
        },
        None => {},
    }
    proof {
        assert(out@ =~= cursor_moved_events(prev, now, pos));
    }
    out
}

fn compare_targets(a: &Option<InteractNode>, b: &Option<InteractNode>) -> (r: bool)
    ensures
        r == spec_same_target(*a, *b),
{
    crate::diff::compare_interact(a, b)
}

/// The press and focus trackers after a button press, with the events to
/// fire: the first press grabs and focuses the hovered node; further
/// presses go to the grabbing node; pressing over nothing drops focus.
pub open spec fn mouse_pressed_spec(
    button: MouseButton,
    pos: Point2,
    modifiers: Modifiers,
    hovered: Option<InteractNode>,
    pressed: Option<InteractNode>,
    focused: Option<InteractNode>,
) -> (Option<InteractNode>, Option<InteractNode>, Seq<(CallbackId, Interaction)>) {
    let ev = Interaction::MouseDown { button, pos, modifiers };
    let (pressed2, focused2, down) = if pressed is None {
        match hovered {
            Some(n) => (Some(n), Some(n), seq![(n.callback, ev)]),
            None => (pressed, focused, Seq::<(CallbackId, Interaction)>::empty()),
        }
    } else {
        (
            pressed,
            focused,
            match pressed {
                Some(n) => seq![(n.callback, ev)],
                None => Seq::<(CallbackId, Interaction)>::empty(),
            },
        )
    };
    let focused3 = if hovered is None {
        None
    } else {
        focused2
    };
    (pressed2, focused3, down + focus_transition_events(focused, focused3))
}

/// The focus-change events between two tracker values: none when they point
/// at the same node, else a loss then a gain.
pub open spec fn focus_transition_events(
    prev: Option<InteractNode>,
    now: Option<InteractNode>,
) -> Seq<(CallbackId, Interaction)> {
    if !spec_same_target(prev, now) {
        (match prev {
            Some(p) => seq![(p.callback, Interaction::LoseFocus)],
            None => Seq::<(CallbackId, Interaction)>::empty(),
        }) + (match now {
            Some(n) => seq![(n.callback, Interaction::GainFocus)],
            None => Seq::<(CallbackId, Interaction)>::empty(),
        })
    } else {
        Seq::<(CallbackId, Interaction)>::empty()
    }
}

/// Handles a mouse-button press: updates the press and focus trackers and
/// returns the events to fire, the mouse-down first and any focus
/// transition after.
pub fn mouse_pressed(
    button: MouseButton,
    pos: Point2,
    modifiers: Modifiers,
    hovered: &Option<InteractNode>,
    pressed: &mut Option<InteractNode>,
    focused: &mut Option<InteractNode>,
) -> (out: Vec<(CallbackId, Interaction)>)
    ensures
        ({
            let r = mouse_pressed_spec(button, pos, modifiers, *hovered, *old(pressed), *old(
                focused,
            ));
            &&& *final(pressed) == r.0
            &&& *final(focused) == r.1
            &&& out@ == r.2
        }),
{
    let ev = Interaction::MouseDown { button, pos, modifiers };
    let prev_focus = *focused;
    let mut out: Vec<(CallbackId, Interaction)> = Vec::new();
    let is_grabbed = match pressed {
        Some(_) => true,
        None => false,
    };
    if !is_grabbed {
        match hovered {
            Some(n) => {
                *pressed = Some(*n);
                *focused = Some(*n);
                out.push((n.callback, ev));
            },
            None => {},
        }
    } else {
        match pressed {
            Some(n) => {
                out.push((n.callback, ev));
            },
            None => {},
        }
    }
    match hovered {
        Some(_) => {},
        None => {
            *focused = None;
        },
    }
    if !compare_targets(&prev_focus, focused) {
        match prev_focus {
            Some(p) => {
                out.push((p.callback, Interaction::LoseFocus));
            },
            None => {},
        }
        match *focused {
            Some(n) => {
                out.push((n.callback, Interaction::GainFocus));
            },
            None => {},
        }
    }
    proof {
        let r = mouse_pressed_spec(button, pos, modifiers, *hovered, *old(pressed), *old(focused));
        assert(out@ =~= r.2);
    }
    out
}

/// The press and focus trackers after a button release, with the events to
/// fire: the grabbing node receives the mouse-up and the grab ends;
/// releasing over nothing drops focus.
pub open spec fn mouse_released_spec(
    button: MouseButton,
    pos: Point2,
    modifiers: Modifiers,
    hovered: Option<InteractNode>,
    pressed: Option<InteractNode>,
    focused: Option<InteractNode>,
) -> (Option<InteractNode>, Option<InteractNode>, Seq<(CallbackId, Interaction)>) {
    let ev = Interaction::MouseUp { button, pos, modifiers };
    let (pressed2, up) = match pressed {
        Some(n) => (None, seq![(n.callback, ev)]),
        None => (pressed, Seq::<(CallbackId, Interaction)>::empty()),
    };
    let focused2 = if hovered is None {
        None
    } else {
        focused
    };
    (pressed2, focused2, up + focus_transition_events(focused, focused2))
}

/// Handles a mouse-button release: ends the grab, updates the focus
/// tracker, and returns the events to fire.
pub fn mouse_released(
    button: MouseButton,
    pos: Point2,
    modifiers: Modifiers,
    hovered: &Option<InteractNode>,
    pressed: &mut Option<InteractNode>,
    focused: &mut Option<InteractNode>,
) -> (out: Vec<(CallbackId, Interaction)>)
    ensures
        ({
            let r = mouse_released_spec(button, pos, modifiers, *hovered, *old(pressed), *old(
                focused,
            ));
            &&& *final(pressed) == r.0
            &&& *final(focused) == r.1
            &&& out@ == r.2
        }),
{
    let ev = Interaction::MouseUp { button, pos, modifiers };
    let prev_focus = *focused;
    let mut out: Vec<(CallbackId, Interaction)> = Vec::new();
    match *pressed {
        Some(n) => {
            *pressed = None;
            out.push((n.callback, ev));
        },
        None => {},
    }
    match hovered {
        Some(_) => {},
        None => {
            *focused = None;
        },
    }
    if !compare_targets(&prev_focus, focused) {
        match prev_focus {
            Some(p) => {
                out.push((p.callback, Interaction::LoseFocus));
            },
            None => {},
        }
        match *focused {
            Some(n) => {
                out.push((n.callback, Interaction::GainFocus));
            },
            None => {},
        }
    }
    proof {
        let r = mouse_released_spec(
            button,
            pos,
            modifiers,
            *hovered,
            *old(pressed),
            *old(focused),
        );
        assert(out@ =~= r.2);
    }
    out
}

/// The event a key press or release fires: it goes to the focused node.
pub open spec fn key_events(
    focused: Option<InteractNode>,
    key_code: KeyCode,
    down: bool,
    modifiers: Modifiers,
) -> Seq<(CallbackId, Interaction)> {
    match focused {
        Some(n) => seq![
            (
                n.callback,
                if down {
                    Interaction::KeyDown { key_code, modifiers }
                } else {
                    Interaction::KeyUp { key_code, modifiers }
                },
            ),
        ],
        None => Seq::<(CallbackId, Interaction)>::empty(),
    }
}

/// Routes a key press or release to the focused node.
pub fn keyboard_input(
    focused: &Option<InteractNode>,
    key_code: KeyCode,
    down: bool,
    modifiers: Modifiers,
) -> (out: Vec<(CallbackId, Interaction)>)
    ensures
        out@ == key_events(*focused, key_code, down, modifiers),
{
    let mut out: Vec<(CallbackId, Interaction)> = Vec::new();
    match focused {
        Some(n) => {
            let ev = if down {
                Interaction::KeyDown { key_code, modifiers }
            } else {
                Interaction::KeyUp { key_code, modifiers }
            };
            out.push((n.callback, ev));
        },
        None => {},
    }
    proof {
        assert(out@ =~= key_events(*focused, key_code, down, modifiers));
    }
    out
}

/// Routes a typed character to the focused node.
pub fn received_character(focused: &Option<InteractNode>, character: char) -> (out: Vec<
    (CallbackId, Interaction),
>)
    ensures
        out@ == match *focused {
            Some(n) => seq![(n.callback, Interaction::ReceiveCharacter { character })],
            None => Seq::<(CallbackId, Interaction)>::empty(),
        },
{
    let mut out: Vec<(CallbackId, Interaction)> = Vec::new();
    match focused {
        Some(n) => {
            out.push((n.callback, Interaction::ReceiveCharacter { character }));
        },
        None => {},
    }
    proof {
        assert(out@ =~= match *focused {
            Some(n) => seq![(n.callback, Interaction::ReceiveCharacter { character })],
            None => Seq::<(CallbackId, Interaction)>::empty(),
        });
    }
    out
}

} // verus!
