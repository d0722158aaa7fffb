use idaphs_cad::menubar::{menubar_action, menubar_needs_render, part_file_filter_name, MenubarAction};
use idaphs_cad::messages::{
    AppMessage, CameraMessage, ExtrusionMessage, FileIOMessage, InputMessage, KeyModifiers, SketchMessage,
    ToolbarMessage,
};
use idaphs_cad::selection::{pick_closest, Hit, PickedElement, SelectionState};
use idaphs_cad::tool::{next_tool, scene_event_step, selection_tool_event, CameraAction, ToolMode, ToolResult};
use idaphs_cad::toolbar::{setup_extrusion_controls, setup_sketch_controls, toolbar_message};
use idaphs_cad::user_io::UserIOUtils;

fn no_mods() -> KeyModifiers {
    KeyModifiers { alt: false, control: false, shift: false, meta: false }
}

#[test]
fn toolbar_commands() {
    assert_eq!(setup_extrusion_controls("extrusion_mode"), ExtrusionMessage::ExtrusionModeClicked);
    assert_eq!(setup_extrusion_controls("extrusion_cut_mode"), ExtrusionMessage::ExtrusionCutModeClicked);
    assert_eq!(setup_extrusion_controls("unknown"), ExtrusionMessage::ExtrusionModeClicked);
    assert_eq!(setup_sketch_controls("sketch_mode"), SketchMessage::SketchModeClicked);
    assert_eq!(setup_sketch_controls("line"), SketchMessage::SketchToolLineclicked);
    assert_eq!(setup_sketch_controls("rect"), SketchMessage::SketchToolRectangleClicked);
    assert_eq!(setup_sketch_controls("circle"), SketchMessage::SketchModeClicked);
    assert_eq!(toolbar_message("sketch_mode", "line"), ToolbarMessage::SketchMsg(SketchMessage::SketchToolLineclicked));
    assert_eq!(
        toolbar_message("extrusion_mode", "extrusion_cut_mode"),
        ToolbarMessage::ExtrusionMsg(ExtrusionMessage::ExtrusionCutModeClicked)
    );
    assert_eq!(toolbar_message("other", "line"), ToolbarMessage::ExtrusionMsg(ExtrusionMessage::ExtrusionModeClicked));
}

#[test]
fn menubar_decisions() {
    assert_eq!(menubar_action(FileIOMessage::NewFile), MenubarAction::Nothing);
    assert_eq!(menubar_action(FileIOMessage::OpenFile), MenubarAction::OpenPart);
    assert_eq!(menubar_action(FileIOMessage::ExportFile), MenubarAction::ExportPart);
    assert!(menubar_needs_render(FileIOMessage::OpenFile, true));
    assert!(!menubar_needs_render(FileIOMessage::OpenFile, false));
    assert!(!menubar_needs_render(FileIOMessage::ExportFile, true));
    assert!(!menubar_needs_render(FileIOMessage::NewFile, true));
    assert_eq!(part_file_filter_name(), "Idaphs Part File");
}

#[test]
fn pick_closest_face_and_edge() {
    let faces = vec![Hit { id: 1u32, distance_key: 50 }, Hit { id: 2, distance_key: 30 }, Hit { id: 3, distance_key: 30 }];
    let edges: Vec<Hit<u8>> = vec![];
    assert!(matches!(pick_closest(&faces, &edges), Some(PickedElement::Face(2))));
    let edges = vec![Hit { id: 7u8, distance_key: 30 }];
    assert!(matches!(pick_closest(&faces, &edges), Some(PickedElement::Face(2))));
    let edges = vec![Hit { id: 7u8, distance_key: 40 }, Hit { id: 8u8, distance_key: 29 }, Hit { id: 9u8, distance_key: 29 }];
    assert!(matches!(pick_closest(&faces, &edges), Some(PickedElement::Edge(8))));
    let no_faces: Vec<Hit<u32>> = vec![];
    assert!(matches!(pick_closest(&no_faces, &edges), Some(PickedElement::Edge(8))));
    let no_edges: Vec<Hit<u8>> = vec![];
    assert!(pick_closest(&no_faces, &no_edges).is_none());
}

#[test]
fn selection_keeps_one_element() {
    let mut sel: SelectionState<u32, u8, u16> = SelectionState::new();
    sel.selected_vertices.push(5);
    sel.select(Some(PickedElement::Face(4)));
    assert_eq!(sel.selected_faces, vec![4]);
    assert!(sel.selected_edges.is_empty());
    assert!(sel.selected_vertices.is_empty());
    let faces = vec![Hit { id: 1u32, distance_key: 10 }];
    let edges = vec![Hit { id: 9u8, distance_key: 3 }];
    assert!(matches!(sel.select_closest(&faces, &edges), Some(PickedElement::Edge(9))));
    assert!(sel.selected_faces.is_empty());
    assert_eq!(sel.selected_edges, vec![9]);
    assert!(sel.select_closest(&vec![], &vec![]).is_none());
    assert!(sel.selected_faces.is_empty() && sel.selected_edges.is_empty());
}

#[test]
fn selection_tool_actions() {
    let mut io: UserIOUtils<f32> = UserIOUtils::new();
    let moved = AppMessage::InputMsg { msg: InputMessage::MouseMove { x: 2.0, y: 2.0, modifiers: no_mods() } };
    let (action, result) = selection_tool_event(&moved, &io);
    assert!(matches!(action, CameraAction::Idle));
    assert_eq!(result, ToolResult::Continue(true));
    io.preprocess_userio_event(&InputMessage::MiddleClickDown { x: 1.0, y: 1.0 });
    io.preprocess_userio_event(&InputMessage::MouseMove { x: 2.0, y: 3.0, modifiers: no_mods() });
    let moved = AppMessage::InputMsg { msg: InputMessage::MouseMove { x: 2.0, y: 3.0, modifiers: no_mods() } };
    assert!(matches!(selection_tool_event(&moved, &io).0, CameraAction::Rotate { from: (1.0, 1.0), to: (2.0, 3.0) }));
    io.is_ctrl_pressed = true;
    assert!(matches!(selection_tool_event(&moved, &io).0, CameraAction::Pan { from: (1.0, 1.0), to: (2.0, 3.0) }));
    let wheel = AppMessage::InputMsg { msg: InputMessage::Wheel { delta: -35.0 } };
    assert!(matches!(selection_tool_event(&wheel, &io).0, CameraAction::Zoom { delta } if delta == -35.0));
    let click = AppMessage::InputMsg { msg: InputMessage::Click { x: 10.0, y: 20.0 } };
    assert!(matches!(selection_tool_event(&click, &io).0, CameraAction::Select { x, y } if x == 10.0 && y == 20.0));
    let cam: AppMessage<f32> = AppMessage::CameraMsg { msg: CameraMessage::Reset };
    assert!(matches!(selection_tool_event(&cam, &io).0, CameraAction::Idle));
}

#[test]
fn scene_steps() {
    let mut io: UserIOUtils<f32> = UserIOUtils::new();
    let step = scene_event_step(ToolMode::Selection, &mut io, AppMessage::InputMsg { msg: InputMessage::MiddleClickDown { x: 0.0, y: 0.0 } });
    assert!(step.needs_render);
    assert_eq!(step.next_tool, ToolMode::Selection);
    assert!(io.is_middle_mouse_down);
    let step = scene_event_step(ToolMode::Selection, &mut io, AppMessage::InputMsg { msg: InputMessage::MouseMove { x: 4.0, y: 5.0, modifiers: no_mods() } });
    assert!(matches!(step.camera_action, CameraAction::Rotate { from: (0.0, 0.0), to: (4.0, 5.0) }));
    let step = scene_event_step(ToolMode::Sketch, &mut io, AppMessage::InputMsg { msg: InputMessage::Click { x: 1.0, y: 1.0 } });
    assert!(matches!(step.camera_action, CameraAction::Idle));
    assert_eq!(step.next_tool, ToolMode::Sketch);
    assert!(io.is_mouse_down);
    let step = scene_event_step(ToolMode::Selection, &mut io, AppMessage::FileIOMsg { msg: FileIOMessage::OpenFile });
    assert!(matches!(step.camera_action, CameraAction::Idle));
    assert!(step.needs_render);
}

#[test]
fn tool_switching() {
    assert_eq!(next_tool(ToolMode::Selection, ToolResult::Continue(true)), ToolMode::Selection);
    assert_eq!(next_tool(ToolMode::Selection, ToolResult::MoveTo(false, ToolMode::Sketch)), ToolMode::Sketch);
    assert_eq!(next_tool(ToolMode::Extrusion, ToolResult::MoveTo(true, ToolMode::Extrusion)), ToolMode::Extrusion);
}
