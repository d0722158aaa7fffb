//! The state that the scene keeps of the mouse buttons, the pointer and the keyboard.
use vstd::prelude::*;

use crate::key_set::KeySet;
use crate::messages::InputMessage;

verus! {

/// Pointer, button and key state; `C` is the type of a screen coordinate.
#[derive(Debug)]
pub struct UserIOUtils<C> {
    pub is_mouse_down: bool,
    pub is_middle_mouse_down: bool,
    pub is_shift_pressed: bool,
    pub is_ctrl_pressed: bool,
    pub current_pos: Option<(C, C)>,
    pub prev_pos: Option<(C, C)>,
    pub key_pressed: KeySet,
}

/// `after` is `before` with the pointer moved to `(x, y)`: the old current
/// position becomes the previous one.
pub open spec fn pointer_moved<C>(before: &UserIOUtils<C>, after: &UserIOUtils<C>, x: C, y: C) -> bool {
    &&& after.prev_pos == before.current_pos
    &&& after.current_pos == Some((x, y))
}

/// `after` has the pointer positions of `before`.
pub open spec fn pointer_kept<C>(before: &UserIOUtils<C>, after: &UserIOUtils<C>) -> bool {
    &&& after.prev_pos == before.prev_pos
    &&& after.current_pos == before.current_pos
}

/// `after` has the button states of `before`.
pub open spec fn buttons_kept<C>(before: &UserIOUtils<C>, after: &UserIOUtils<C>) -> bool {
    &&& after.is_mouse_down == before.is_mouse_down
    &&& after.is_middle_mouse_down == before.is_middle_mouse_down
}

/// `after` has the modifier and key states of `before`.
pub open spec fn keys_kept<C>(before: &UserIOUtils<C>, after: &UserIOUtils<C>) -> bool {
    &&& after.is_shift_pressed == before.is_shift_pressed
    &&& after.is_ctrl_pressed == before.is_ctrl_pressed
    &&& after.key_pressed@ == before.key_pressed@
}

/// The state after an input event has been taken in.
pub open spec fn preprocessed<C>(before: &UserIOUtils<C>, after: &UserIOUtils<C>, msg: InputMessage<C>) -> bool {
    match msg {
        InputMessage::Click { x, y } => {
            &&& after.is_mouse_down
            &&& after.is_middle_mouse_down == before.is_middle_mouse_down
            &&& pointer_moved(before, after, x, y)
            &&& keys_kept(before, after)
        },
        InputMessage::MouseMove { x, y, .. } => {
            &&& buttons_kept(before, after)
            &&& pointer_moved(before, after, x, y)
            &&& keys_kept(before, after)
        },
        InputMessage::Wheel { .. } => {
            &&& buttons_kept(before, after)
            &&& pointer_kept(before, after)
            &&& keys_kept(before, after)
        },
        InputMessage::MiddleClickUp => {
            &&& after.is_mouse_down == before.is_mouse_down
            &&& !after.is_middle_mouse_down
            &&& pointer_kept(before, after)
            &&& keys_kept(before, after)
        },
        InputMessage::MiddleClickDown { x, y } => {
            &&& after.is_mouse_down == before.is_mouse_down
            &&& after.is_middle_mouse_down
            &&& pointer_moved(before, after, x, y)
            &&& keys_kept(before, after)
        },
        InputMessage::KeyEventPressed { key, modifiers } => {
            &&& buttons_kept(before, after)
            &&& pointer_kept(before, after)
            &&& after.is_shift_pressed == modifiers.shift
            &&& after.is_ctrl_pressed == modifiers.control
            &&& after.key_pressed@ == before.key_pressed@.insert(key@)
        },
        InputMessage::KeyEventReleased { key, modifiers } => {
            &&& buttons_kept(before, after)
            &&& pointer_kept(before, after)
            &&& after.is_shift_pressed == modifiers.shift
            &&& after.is_ctrl_pressed == modifiers.control
            &&& after.key_pressed@ == before.key_pressed@.remove(key@)
        },
    }
}

impl<C: Copy> UserIOUtils<C> {
    /// No button or key down and no known pointer position.
    pub fn new() -> (io: UserIOUtils<C>)
        ensures
            !io.is_mouse_down,
            !io.is_middle_mouse_down,
            !io.is_shift_pressed,
            !io.is_ctrl_pressed,
            io.current_pos is None,
            io.prev_pos is None,
            io.key_pressed@ == Set::<Seq<char>>::empty(),
    {
        UserIOUtils {
            is_mouse_down: false,
            is_middle_mouse_down: false,
            is_shift_pressed: false,
            is_ctrl_pressed: false,
            current_pos: None,
            prev_pos: None,
            key_pressed: KeySet::new(),
        }
    }

    /// Records a new pointer position; the current one becomes the previous one.
    pub fn update_mouse_pos(&mut self, x: C, y: C)
        ensures
            pointer_moved(old(self), final(self), x, y),
            buttons_kept(old(self), final(self)),
            keys_kept(old(self), final(self)),
    {
        self.prev_pos = self.current_pos;
        self.current_pos = Some((x, y));
    }

    /// The previous and the current pointer position, when both are known; the
    /// pointer moved by their difference.
    pub fn mouse_motion(&self) -> (m: Option<((C, C), (C, C))>)
        ensures
            m matches Some((from, to)) ==> self.prev_pos == Some(from) && self.current_pos == Some(to),
            m is None <==> self.prev_pos is None || self.current_pos is None,
    {
        match (self.prev_pos, self.current_pos) {
            (Some(from), Some(to)) => Some((from, to)),
            _ => None,
        }
    }

    /// Takes in a user-input event before the active tool sees it; asks for no redraw.
    pub fn preprocess_userio_event(&mut self, input_msg: &InputMessage<C>) -> (needs_render: bool)
        ensures
            preprocessed(old(self), final(self), *input_msg),
            !needs_render,
    {
        match input_msg {
            InputMessage::Click { x, y } => {
                self.is_mouse_down = true;
                self.update_mouse_pos(*x, *y);
            },
            InputMessage::MouseMove { x, y, .. } => {
                self.update_mouse_pos(*x, *y);
            },
            InputMessage::Wheel { .. } => {},
            InputMessage::MiddleClickUp => {
                self.is_middle_mouse_down = false;
            },
            InputMessage::MiddleClickDown { x, y } => {
                self.is_middle_mouse_down = true;
                self.update_mouse_pos(*x, *y);
            },
            InputMessage::KeyEventPressed { key, modifiers } => {
                self.is_shift_pressed = modifiers.shift;
                self.is_ctrl_pressed = modifiers.control;
                self.key_pressed.insert(key.clone());
            },
            InputMessage::KeyEventReleased { key, modifiers } => {
                self.is_shift_pressed = modifiers.shift;
                self.is_ctrl_pressed = modifiers.control;
                self.key_pressed.remove(key.as_str());
            },
        }
        false
    }
}


/// Pressing a key that was not held and releasing it again leaves the set of held
/// keys as it was.
pub proof fn lemma_press_then_release_restores_keys<C>(
    io0: &UserIOUtils<C>,
    io1: &UserIOUtils<C>,
    io2: &UserIOUtils<C>,
    key: String,
    pressed: crate::messages::KeyModifiers,
    released: crate::messages::KeyModifiers,
)
    requires
        !io0.key_pressed@.contains(key@),
        preprocessed(io0, io1, InputMessage::KeyEventPressed { key, modifiers: pressed }),
        preprocessed(io1, io2, InputMessage::KeyEventReleased { key, modifiers: released }),
    ensures
        io2.key_pressed@ == io0.key_pressed@,
        io2.is_ctrl_pressed == released.control,
        io2.is_shift_pressed == released.shift,
{
    assert(io0.key_pressed@.insert(key@).remove(key@) =~= io0.key_pressed@);
}

/// A click or a pointer move puts the pointer at the event's own point and makes
/// the old current position the previous one; a click also holds the button down.
/// A middle-button press does the same and holds the middle button, and its release
/// lets it go. Other events keep the pointer. A key event sets the modifiers it
/// reports and holds (or lets go of) its key; other events keep the keys.
pub proof fn lemma_pointer_follows_event<C>(before: &UserIOUtils<C>, after: &UserIOUtils<C>, msg: InputMessage<C>)
    requires
        preprocessed(before, after, msg),
    ensures
        msg matches InputMessage::Click { x, y } ==> after.current_pos == Some((x, y)) && after.prev_pos
            == before.current_pos && after.is_mouse_down,
        msg matches InputMessage::MouseMove { x, y, .. } ==> after.current_pos == Some((x, y)) && after.prev_pos
            == before.current_pos,
        msg matches InputMessage::MiddleClickDown { x, y } ==> after.current_pos == Some((x, y))
            && after.prev_pos == before.current_pos && after.is_middle_mouse_down,
        (msg is Wheel || msg is MiddleClickUp || msg is KeyEventPressed || msg is KeyEventReleased) ==> after.current_pos
            == before.current_pos && after.prev_pos == before.prev_pos,
        msg is MiddleClickUp ==> !after.is_middle_mouse_down,
        (msg is MouseMove || msg is Wheel || msg is KeyEventPressed || msg is KeyEventReleased) ==> after.is_mouse_down
            == before.is_mouse_down && after.is_middle_mouse_down == before.is_middle_mouse_down,
        msg matches InputMessage::KeyEventPressed { key, modifiers } ==> after.is_ctrl_pressed == modifiers.control
            && after.is_shift_pressed == modifiers.shift && after.key_pressed@.contains(key@),
        msg matches InputMessage::KeyEventReleased { key, modifiers } ==> after.is_ctrl_pressed == modifiers.control
            && after.is_shift_pressed == modifiers.shift && !after.key_pressed@.contains(key@),
        (!(msg is KeyEventPressed) && !(msg is KeyEventReleased)) ==> after.is_ctrl_pressed == before.is_ctrl_pressed
            && after.is_shift_pressed == before.is_shift_pressed && after.key_pressed@ == before.key_pressed@,
{
}

} // verus!
