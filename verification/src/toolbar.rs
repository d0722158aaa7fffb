use vstd::prelude::*;

use crate::messages::{ExtrusionMessage, SketchMessage, ToolbarMessage};
use crate::text::str_eq;

verus! {

/// The extrusion command named by a toolbar button id.
pub open spec fn extrusion_command(mode_id: Seq<char>) -> ExtrusionMessage {
    if mode_id == "extrusion_cut_mode"@ {
        ExtrusionMessage::ExtrusionCutModeClicked
    } else {
        ExtrusionMessage::ExtrusionModeClicked
    }
}

/// The sketch command named by a toolbar button id.
pub open spec fn sketch_command(mode_id: Seq<char>) -> SketchMessage {
    if mode_id == "line"@ {
        SketchMessage::SketchToolLineclicked
    } else if mode_id == "rect"@ {
        SketchMessage::SketchToolRectangleClicked
    } else {
        SketchMessage::SketchModeClicked
    }
}

/// The toolbar message for a command `id` issued in the toolbar mode `cad_mode`;
/// an unknown mode is read as the extrusion mode.
pub open spec fn toolbar_command(cad_mode: Seq<char>, id: Seq<char>) -> ToolbarMessage {
    if cad_mode == "sketch_mode"@ {
        ToolbarMessage::SketchMsg(sketch_command(id))
    } else {
        ToolbarMessage::ExtrusionMsg(extrusion_command(id))
    }
}

pub fn setup_extrusion_controls(mode_id: &str) -> (msg: ExtrusionMessage)
    ensures
        msg == extrusion_command(mode_id@),
{
    if str_eq(mode_id, "extrusion_cut_mode") {
        ExtrusionMessage::ExtrusionCutModeClicked
    } else {
        ExtrusionMessage::ExtrusionModeClicked
    }
}

pub fn setup_sketch_controls(mode_id: &str) -> (msg: SketchMessage)
    ensures
        msg == sketch_command(mode_id@),
{
    if str_eq(mode_id, "line") {
        SketchMessage::SketchToolLineclicked
    } else if str_eq(mode_id, "rect") {
        SketchMessage::SketchToolRectangleClicked
    } else {
        SketchMessage::SketchModeClicked
    }
}

/// Turns a toolbar command into the message sent to the scene.
pub fn toolbar_message(cad_mode: &str, id: &str) -> (msg: ToolbarMessage)
    ensures
        msg == toolbar_command(cad_mode@, id@),
{
    if str_eq(cad_mode, "sketch_mode") {
        ToolbarMessage::SketchMsg(setup_sketch_controls(id))
    } else {
        ToolbarMessage::ExtrusionMsg(setup_extrusion_controls(id))
    }
}

/// In sketch mode a command gives the sketch message that the sketch controls give
/// for the same id: "line" picks the line tool, "rect" the rectangle tool, and any
/// other id the sketch mode; in any other mode it gives the extrusion message, the
/// cut for "extrusion_cut_mode" and the plain extrusion otherwise.
pub proof fn lemma_toolbar_commands(cad_mode: Seq<char>, id: Seq<char>)
    ensures
        cad_mode == "sketch_mode"@ ==> toolbar_command(cad_mode, id) == ToolbarMessage::SketchMsg(
            sketch_command(id),
        ),
        cad_mode != "sketch_mode"@ ==> toolbar_command(cad_mode, id) == ToolbarMessage::ExtrusionMsg(
            extrusion_command(id),
        ),
        sketch_command("line"@) == SketchMessage::SketchToolLineclicked,
        sketch_command("rect"@) == SketchMessage::SketchToolRectangleClicked,
        id != "line"@ && id != "rect"@ ==> sketch_command(id) == SketchMessage::SketchModeClicked,
        extrusion_command("extrusion_cut_mode"@) == ExtrusionMessage::ExtrusionCutModeClicked,
        id != "extrusion_cut_mode"@ ==> extrusion_command(id) == ExtrusionMessage::ExtrusionModeClicked,
        toolbar_command("sketch_mode"@, "rect"@) == ToolbarMessage::SketchMsg(SketchMessage::SketchToolRectangleClicked),
        toolbar_command("sketch_mode"@, "line"@) == ToolbarMessage::SketchMsg(SketchMessage::SketchToolLineclicked),
{
    reveal_strlit("line");
    reveal_strlit("rect");
    reveal_strlit("sketch_mode");
    reveal_strlit("extrusion_cut_mode");
    assert("rect"@[0] != "line"@[0]);
}

} // verus!
