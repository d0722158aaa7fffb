use vstd::prelude::*;

verus! {

/// The modifier keys held down while an input event happened.
#[derive(Clone, Copy, Debug, PartialEq, Eq, Structural)]
pub struct KeyModifiers {
    pub alt: bool,
    pub control: bool,
    pub shift: bool,
    pub meta: bool,
}

/// A raw user-input event; `C` is the type of a screen coordinate.
#[derive(Clone, Debug)]
pub enum InputMessage<C> {
    Click { x: C, y: C },
    MouseMove { x: C, y: C, modifiers: KeyModifiers },
    Wheel { delta: C },
    MiddleClickUp,
    MiddleClickDown { x: C, y: C },
    KeyEventPressed { key: String, modifiers: KeyModifiers },
    KeyEventReleased { key: String, modifiers: KeyModifiers },
}

#[derive(Clone, Copy, Debug, PartialEq, Eq, Structural)]
pub enum CameraMessage {
    Reset,
}

#[derive(Clone, Copy, Debug, PartialEq, Eq, Structural)]
pub enum ExtrusionMessage {
    ExtrusionModeClicked,
    ExtrusionCutModeClicked,
}

#[derive(Clone, Copy, Debug, PartialEq, Eq, Structural)]
pub enum SketchMessage {
    SketchModeClicked,
    SketchToolLineclicked,
    SketchToolRectangleClicked,
}

#[derive(Clone, Copy, Debug, PartialEq, Eq, Structural)]
pub enum ToolbarMessage {
    ExtrusionMsg(ExtrusionMessage),
    SketchMsg(SketchMessage),
}

/// A request coming from the file menu.
#[derive(Clone, Copy, Debug, PartialEq, Eq, Structural)]
pub enum FileIOMessage {
    NewFile,
    OpenFile,
    ExportFile,
}

/// Every message the user interface sends to the scene.
#[derive(Clone, Debug)]
pub enum AppMessage<C> {
    CameraMsg { msg: CameraMessage },
    InputMsg { msg: InputMessage<C> },
    ToolbarMsg { msg: ToolbarMessage },
    FileIOMsg { msg: FileIOMessage },
}

} // verus!
