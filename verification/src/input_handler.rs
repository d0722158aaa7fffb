//! The base-operation input handler: the last event, the middle button and the keys.
use vstd::prelude::*;

use crate::key_set::KeySet;
use crate::messages::{AppMessage, InputMessage};

verus! {

/// Keeps the last input event, whether the middle button is held and where it went
/// down, the pressed keys and the control modifier; `C` is the type of a screen coordinate.
#[derive(Debug)]
pub struct InputEventHandler<C> {
    pub last_input_msg: InputMessage<C>,
    pub is_middle_click_pressed: bool,
    pub middle_click_start_pos: Option<(C, C)>,
    pub pressed_keys: KeySet,
    pub ctrl_pressed: bool,
}

/// The handler's state after an input event.
pub open spec fn handled<C>(before: &InputEventHandler<C>, after: &InputEventHandler<C>, msg: InputMessage<C>) -> bool {
    &&& after.last_input_msg == msg
    &&& match msg {
        InputMessage::MiddleClickUp => {
            &&& !after.is_middle_click_pressed
            &&& after.middle_click_start_pos == before.middle_click_start_pos
            &&& after.pressed_keys@ == before.pressed_keys@
            &&& after.ctrl_pressed == before.ctrl_pressed
        },
        InputMessage::MiddleClickDown { x, y } => {
            &&& after.is_middle_click_pressed
            &&& after.middle_click_start_pos == Some((x, y))
            &&& after.pressed_keys@ == before.pressed_keys@
            &&& after.ctrl_pressed == before.ctrl_pressed
        },
        InputMessage::KeyEventPressed { key, modifiers } => {
            &&& after.is_middle_click_pressed == before.is_middle_click_pressed
            &&& after.middle_click_start_pos == before.middle_click_start_pos
            &&& after.ctrl_pressed == modifiers.control
            &&& after.pressed_keys@ == if key@.len() == 0 {
                before.pressed_keys@
            } else {
                before.pressed_keys@.insert(key@)
            }
        },
        InputMessage::KeyEventReleased { key, modifiers } => {
            &&& after.is_middle_click_pressed == before.is_middle_click_pressed
            &&& after.middle_click_start_pos == before.middle_click_start_pos
            &&& after.ctrl_pressed == modifiers.control
            &&& after.pressed_keys@ == if key@.len() == 0 {
                before.pressed_keys@
            } else {
                before.pressed_keys@.remove(key@)
            }
        },
        _ => {
            &&& after.is_middle_click_pressed == before.is_middle_click_pressed
            &&& after.middle_click_start_pos == before.middle_click_start_pos
            &&& after.pressed_keys@ == before.pressed_keys@
            &&& after.ctrl_pressed == before.ctrl_pressed
        },
    }
}

impl<C: Copy + Default> InputEventHandler<C> {
    /// A handler whose last event is a click at the point whose coordinates are both
    /// the coordinate type's default (the origin), with no button or key held.
    pub fn new() -> (h: InputEventHandler<C>)
        ensures
            h.last_input_msg matches InputMessage::Click { x, y } && x == y && call_ensures(
                C::default,
                (),
                x,
            ),
            !h.is_middle_click_pressed,
            h.middle_click_start_pos is None,
            h.pressed_keys@ == Set::<Seq<char>>::empty(),
            !h.ctrl_pressed,
    {
        let origin = C::default();
        InputEventHandler {
            last_input_msg: InputMessage::Click { x: origin, y: origin },
            is_middle_click_pressed: false,
            middle_click_start_pos: None,
            pressed_keys: KeySet::new(),
            ctrl_pressed: false,
        }
    }

    /// Takes in a base-operation input event; an empty key name is not kept.
    pub fn handle_baseops_controls(&mut self, input_msg: InputMessage<C>)
        ensures
            handled(old(self), final(self), input_msg),
    {
        match &input_msg {
            InputMessage::MiddleClickUp => {
                self.is_middle_click_pressed = false;
            },
            InputMessage::MiddleClickDown { x, y } => {
                self.is_middle_click_pressed = true;
                self.middle_click_start_pos = Some((*x, *y));
            },
            InputMessage::KeyEventPressed { key, modifiers } => {
                self.ctrl_pressed = modifiers.control;
                if !key.as_str().is_empty() {
                    self.pressed_keys.insert(key.clone());
                }
            },
            InputMessage::KeyEventReleased { key, modifiers } => {
                self.ctrl_pressed = modifiers.control;
                if !key.as_str().is_empty() {
                    self.pressed_keys.remove(key.as_str());
                }
            },
            _ => {},
        }
        self.last_input_msg = input_msg;
    }

    /// Takes in an application message: only input events are handled, and only they
    /// ask for a redraw.
    pub fn handle_event(&mut self, event: AppMessage<C>) -> (needs_render: bool)
        ensures
            needs_render == event is InputMsg,
            match event {
                AppMessage::InputMsg { msg } => handled(old(self), final(self), msg),
                _ => *final(self) == *old(self),
            },
    {
        match event {
            AppMessage::InputMsg { msg } => {
                self.handle_baseops_controls(msg);
                true
            },
            _ => false,
        }
    }
}

/// The handler keeps the last event; the middle button is held from a press to a
/// release, with the press's point kept. After a key event, pressed or released, the
/// control state is the one the event reports; a pressed key is held afterwards and a released one is not (a key without
/// a name is not kept).
pub proof fn lemma_key_event_sets_control<C>(
    before: &InputEventHandler<C>,
    after: &InputEventHandler<C>,
    msg: InputMessage<C>,
)
    requires
        handled(before, after, msg),
    ensures
        msg matches InputMessage::KeyEventPressed { modifiers, .. } ==> after.ctrl_pressed == modifiers.control,
        msg matches InputMessage::KeyEventReleased { modifiers, .. } ==> after.ctrl_pressed == modifiers.control,
        msg matches InputMessage::KeyEventPressed { key, .. } ==> (key@.len() > 0 ==> after.pressed_keys@.contains(key@)),
        msg matches InputMessage::KeyEventReleased { key, .. } ==> (key@.len() > 0 ==> !after.pressed_keys@.contains(key@)),
        (!(msg is KeyEventPressed) && !(msg is KeyEventReleased)) ==> after.ctrl_pressed == before.ctrl_pressed,
        after.last_input_msg == msg,
        msg matches InputMessage::MiddleClickDown { x, y } ==> after.is_middle_click_pressed
            && after.middle_click_start_pos == Some((x, y)),
        msg is MiddleClickUp ==> !after.is_middle_click_pressed && after.middle_click_start_pos
            == before.middle_click_start_pos,
        (!(msg is MiddleClickDown) && !(msg is MiddleClickUp)) ==> after.is_middle_click_pressed
            == before.is_middle_click_pressed && after.middle_click_start_pos == before.middle_click_start_pos,
        (!(msg is KeyEventPressed) && !(msg is KeyEventReleased)) ==> after.pressed_keys@ == before.pressed_keys@,
{
}

} // verus!
