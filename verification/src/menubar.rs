//! What the file menu asks of the application.
use vstd::prelude::*;

use crate::messages::FileIOMessage;

verus! {

/// The outside work a file-menu request calls for.
#[derive(Clone, Copy, Debug, PartialEq, Eq, Structural)]
pub enum MenubarAction {
    /// Nothing to do.
    Nothing,
    /// Ask the user for a part file, and replace the model with the part it holds.
    OpenPart,
    /// Ask the user where to write the model as a part file.
    ExportPart,
}

/// The name under which part files are offered in a file dialog.
pub fn part_file_filter_name() -> (name: &'static str)
    ensures
        name@ == "Idaphs Part File"@,
{
    "Idaphs Part File"
}

/// The outside work that a file-menu request calls for.
pub open spec fn file_menu_action(msg: FileIOMessage) -> MenubarAction {
    match msg {
        FileIOMessage::NewFile => MenubarAction::Nothing,
        FileIOMessage::OpenFile => MenubarAction::OpenPart,
        FileIOMessage::ExportFile => MenubarAction::ExportPart,
    }
}

/// The outside work that a file-menu request calls for.
pub fn menubar_action(msg: FileIOMessage) -> (action: MenubarAction)
    ensures
        action == file_menu_action(msg),
{
    match msg {
        FileIOMessage::NewFile => MenubarAction::Nothing,
        FileIOMessage::OpenFile => MenubarAction::OpenPart,
        FileIOMessage::ExportFile => MenubarAction::ExportPart,
    }
}

/// Whether the scene must be redrawn once a file-menu request is done: only when a
/// part was opened, that is when the user chose a file to open.
pub fn menubar_needs_render(msg: FileIOMessage, file_chosen: bool) -> (needs_render: bool)
    ensures
        needs_render == (msg == FileIOMessage::OpenFile && file_chosen),
{
    match msg {
        FileIOMessage::OpenFile => file_chosen,
        _ => false,
    }
}

} // verus!
