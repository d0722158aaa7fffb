//! The tools of the scene and how the selection tool answers events.
use vstd::prelude::*;

use crate::messages::{AppMessage, InputMessage};
use crate::user_io::{preprocessed, UserIOUtils};

verus! {

/// The tools the scene can be in.
#[derive(Clone, Copy, Debug, PartialEq, Eq, Structural)]
pub enum ToolMode {
    Selection,
    Extrusion,
    Sketch,
}

/// What a tool answers to an event: stay (asking for a redraw or not), or switch tool.
#[derive(Clone, Copy, Debug, PartialEq, Eq, Structural)]
pub enum ToolResult {
    Continue(bool),
    MoveTo(bool, ToolMode),
}

/// The camera or selection work the selection tool asks for; `C` is the type of a
/// screen coordinate.
#[derive(Debug)]
pub enum CameraAction<C> {
    /// Nothing to do.
    Idle,
    /// Pan the view by the pointer's move from `from` to `to`.
    Pan { from: (C, C), to: (C, C) },
    /// Orbit the camera by the pointer's move from `from` to `to`.
    Rotate { from: (C, C), to: (C, C) },
    /// Zoom by a wheel step.
    Zoom { delta: C },
    /// Pick the element under the screen point.
    Select { x: C, y: C },
}

/// The camera work the selection tool asks for on an event, given the input state
/// after the event was taken in.
pub open spec fn selection_camera_action<C>(event: AppMessage<C>, io: &UserIOUtils<C>) -> CameraAction<C> {
    match event {
        AppMessage::InputMsg { msg } => match msg {
            InputMessage::MouseMove { x, y, .. } => if io.is_middle_mouse_down {
                let to = match io.current_pos {
                    Some(p) => p,
                    None => (x, y),
                };
                let from = match io.prev_pos {
                    Some(p) => p,
                    None => to,
                };
                if io.is_ctrl_pressed {
                    CameraAction::Pan { from, to }
                } else {
                    CameraAction::Rotate { from, to }
                }
            } else {
                CameraAction::Idle
            },
            InputMessage::Wheel { delta } => CameraAction::Zoom { delta },
            InputMessage::Click { x, y } => CameraAction::Select { x, y },
            _ => CameraAction::Idle,
        },
        _ => CameraAction::Idle,
    }
}

/// How the selection tool answers an event: its camera work, and staying the
/// active tool while asking for a redraw.
pub fn selection_tool_event<C: Copy>(event: &AppMessage<C>, io: &UserIOUtils<C>) -> (r: (CameraAction<C>, ToolResult))
    ensures
        r.0 == selection_camera_action(*event, io),
        r.1 == ToolResult::Continue(true),
{
    let action = match event {
        AppMessage::InputMsg { msg } => match msg {
            InputMessage::MouseMove { x, y, .. } => {
                if io.is_middle_mouse_down {
                    let to = match io.current_pos {
                        Some(p) => p,
                        None => (*x, *y),
                    };
                    let from = match io.prev_pos {
                        Some(p) => p,
                        None => to,
                    };
                    if io.is_ctrl_pressed {
                        CameraAction::Pan { from, to }
                    } else {
                        CameraAction::Rotate { from, to }
                    }
                } else {
                    CameraAction::Idle
                }
            },
            InputMessage::Wheel { delta } => CameraAction::Zoom { delta: *delta },
            InputMessage::Click { x, y } => CameraAction::Select { x: *x, y: *y },
            _ => CameraAction::Idle,
        },
        _ => CameraAction::Idle,
    };
    (action, ToolResult::Continue(true))
}

/// The tool that is active after a tool answered.
pub open spec fn tool_after(current: ToolMode, result: ToolResult) -> ToolMode {
    match result {
        ToolResult::MoveTo(_, next) => next,
        ToolResult::Continue(_) => current,
    }
}

/// The tool that is active after a tool answered.
pub fn next_tool(current: ToolMode, result: ToolResult) -> (next: ToolMode)
    ensures
        next == tool_after(current, result),
{
    match result {
        ToolResult::MoveTo(_, next) => next,
        ToolResult::Continue(_) => current,
    }
}

/// Everything the scene does for one event.
#[derive(Debug)]
pub struct SceneStep<C> {
    /// The camera or selection work of the active tool.
    pub camera_action: CameraAction<C>,
    /// The tool that is active afterwards.
    pub next_tool: ToolMode,
    /// Whether the scene is redrawn.
    pub needs_render: bool,
}

/// The scene's answer to an event while `tool` is active, once a file-menu request
/// was served: an input event updates the input state, then the active tool
/// answers; the scene is always redrawn.
pub fn scene_event_step<C: Copy>(tool: ToolMode, io: &mut UserIOUtils<C>, event: AppMessage<C>) -> (step: SceneStep<C>)
    ensures
        match event {
            AppMessage::InputMsg { msg } => preprocessed(old(io), final(io), msg),
            _ => *final(io) == *old(io),
        },
        step.camera_action == match tool {
            ToolMode::Selection => selection_camera_action(event, final(io)),
            _ => CameraAction::Idle,
        },
        step.next_tool == tool,
        step.needs_render,
{
    match &event {
        AppMessage::InputMsg { msg } => {
            io.preprocess_userio_event(msg);
        },
        _ => {},
    }
    let result = match tool {
        ToolMode::Selection => selection_tool_event(&event, io),
        ToolMode::Sketch => (CameraAction::Idle, ToolResult::Continue(false)),
        ToolMode::Extrusion => (CameraAction::Idle, ToolResult::Continue(false)),
    };
    let next_tool = next_tool(tool, result.1);
    SceneStep { camera_action: result.0, next_tool, needs_render: true }
}


/// Dragging with the middle button held moves the camera from where the button
/// went down to where the pointer is: a pan when control is held, an orbit otherwise.
pub proof fn lemma_middle_drag_moves_camera<C>(
    io0: &UserIOUtils<C>,
    io1: &UserIOUtils<C>,
    io2: &UserIOUtils<C>,
    x0: C,
    y0: C,
    x1: C,
    y1: C,
    modifiers: crate::messages::KeyModifiers,
)
    requires
        preprocessed(io0, io1, InputMessage::MiddleClickDown { x: x0, y: y0 }),
        preprocessed(io1, io2, InputMessage::MouseMove { x: x1, y: y1, modifiers }),
    ensures
        selection_camera_action(AppMessage::InputMsg { msg: InputMessage::MouseMove { x: x1, y: y1, modifiers } }, io2)
            == if io0.is_ctrl_pressed {
            CameraAction::Pan { from: (x0, y0), to: (x1, y1) }
        } else {
            CameraAction::Rotate { from: (x0, y0), to: (x1, y1) }
        },
{
}

/// The selection tool picks only on a click, at that click's point; a wheel step
/// zooms by its delta; a pointer move with the middle button held pans (with control)
/// or orbits from the previous to the current pointer position; every other event (a
/// middle-button press among them) asks for nothing.
pub proof fn lemma_selection_tool_picks_only_on_click<C>(event: AppMessage<C>, io: &UserIOUtils<C>)
    ensures
        ({
            let action = selection_camera_action(event, io);
            let is_click = match event {
                AppMessage::InputMsg { msg: InputMessage::Click { .. } } => true,
                _ => false,
            };
            let is_wheel = match event {
                AppMessage::InputMsg { msg: InputMessage::Wheel { .. } } => true,
                _ => false,
            };
            let is_move = match event {
                AppMessage::InputMsg { msg: InputMessage::MouseMove { .. } } => true,
                _ => false,
            };
            &&& match event {
                AppMessage::InputMsg { msg: InputMessage::Click { x, y } } => action == (CameraAction::<C>::Select { x, y }),
                AppMessage::InputMsg { msg: InputMessage::Wheel { delta } } => action == (CameraAction::<C>::Zoom { delta }),
                AppMessage::InputMsg { msg: InputMessage::MiddleClickDown { .. } } => action is Idle,
                AppMessage::InputMsg { msg: InputMessage::MouseMove { .. } } => (io.is_middle_mouse_down
                    && io.prev_pos is Some && io.current_pos is Some) ==> action == if io.is_ctrl_pressed {
                    CameraAction::<C>::Pan { from: io.prev_pos->0, to: io.current_pos->0 }
                } else {
                    CameraAction::<C>::Rotate { from: io.prev_pos->0, to: io.current_pos->0 }
                },
                _ => true,
            }
            &&& action is Select ==> is_click
            &&& action is Zoom ==> is_wheel
            &&& (action is Pan || action is Rotate) ==> is_move && io.is_middle_mouse_down
            &&& !is_click && !is_wheel && !(is_move && io.is_middle_mouse_down) ==> action is Idle
        }),
{
}

} // verus!
