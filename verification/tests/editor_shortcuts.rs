use tdrace_session::editor::{
    editor_shortcuts, tool_for_key, EditorCommand, EditorContext, EditorKeys, EditorTool,
    RampTurn, SurfaceShape,
};

fn keys() -> EditorKeys {
    EditorKeys {
        digit: None,
        ctrl: false,
        shift: false,
        key_z: false,
        key_y: false,
        key_a: false,
        key_d: false,
        key_s: false,
        delete: false,
        escape: false,
        key_f: false,
        key_b: false,
        key_c: false,
        key_t: false,
        key_p: false,
        space: false,
        key_r: false,
        bracket_left: false,
        bracket_right: false,
        comma: false,
        period: false,
        key_g: false,
    }
}

fn ctx(tool: EditorTool) -> EditorContext {
    EditorContext { tool, modal_open: false, editing_text: false, drawing_polygon: false, waypoints_selected: false }
}

#[test]
fn number_keys_pick_tools() {
    assert_eq!(tool_for_key(1), Some(EditorTool::Select));
    assert_eq!(tool_for_key(3), Some(EditorTool::SurfaceZone));
    assert_eq!(tool_for_key(0), Some(EditorTool::StuntRamp));
    assert_eq!(tool_for_key(11), None);
}

#[test]
fn no_shortcuts_while_typing() {
    let mut k = keys();
    k.digit = Some(2);
    k.ctrl = true;
    k.key_z = true;
    let mut c = ctx(EditorTool::Select);
    c.editing_text = true;
    assert_eq!(editor_shortcuts(k, c), (EditorTool::Select, vec![]));
}

#[test]
fn control_shortcuts_in_order() {
    let mut k = keys();
    k.ctrl = true;
    k.key_z = true;
    k.key_s = true;
    k.key_b = true;
    k.key_g = true;
    assert_eq!(
        editor_shortcuts(k, ctx(EditorTool::Select)),
        (
            EditorTool::Select,
            vec![EditorCommand::Undo, EditorCommand::SaveAs, EditorCommand::SendToBack, EditorCommand::CycleGridSnap]
        )
    );
    let mut c = ctx(EditorTool::Select);
    c.modal_open = true;
    assert_eq!(
        editor_shortcuts(k, c),
        (EditorTool::Select, vec![EditorCommand::Undo, EditorCommand::SendToBack, EditorCommand::CycleGridSnap])
    );
}

#[test]
fn surface_shapes_follow_the_new_tool() {
    let mut k = keys();
    k.digit = Some(3);
    k.ctrl = true;
    k.key_t = true;
    k.key_p = true;
    assert_eq!(
        editor_shortcuts(k, ctx(EditorTool::Select)),
        (
            EditorTool::SurfaceZone,
            vec![
                EditorCommand::SetShape(SurfaceShape::Triangle),
                EditorCommand::SetShape(SurfaceShape::Polygon)
            ]
        )
    );
}

#[test]
fn p_starts_a_test_drive_outside_surface_zones() {
    let mut k = keys();
    k.key_p = true;
    k.key_g = true;
    assert_eq!(editor_shortcuts(k, ctx(EditorTool::JumpRamp)), (EditorTool::JumpRamp, vec![EditorCommand::TestDrive]));
    assert_eq!(
        editor_shortcuts(k, ctx(EditorTool::SurfaceZone)),
        (EditorTool::SurfaceZone, vec![EditorCommand::CycleGridSnap])
    );
    let mut c = ctx(EditorTool::JumpRamp);
    c.modal_open = true;
    assert_eq!(editor_shortcuts(k, c), (EditorTool::JumpRamp, vec![EditorCommand::CycleGridSnap]));
}

#[test]
fn banking_and_ramp_keys() {
    let mut k = keys();
    k.key_b = true;
    k.bracket_left = true;
    k.period = true;
    k.key_r = true;
    k.shift = true;
    let mut c = ctx(EditorTool::Select);
    c.waypoints_selected = true;
    assert_eq!(
        editor_shortcuts(k, c),
        (
            EditorTool::Select,
            vec![
                EditorCommand::InvertBanking,
                EditorCommand::RotateRamp(RampTurn::Coarse(false)),
                EditorCommand::AdjustBanking(-5),
                EditorCommand::RotateRamp(RampTurn::Fine(true))
            ]
        )
    );
    let mut k = keys();
    k.key_b = true;
    k.bracket_right = true;
    k.escape = true;
    let mut c = ctx(EditorTool::Select);
    c.drawing_polygon = true;
    assert_eq!(
        editor_shortcuts(k, c),
        (
            EditorTool::Select,
            vec![
                EditorCommand::ClearPolygon,
                EditorCommand::SendToBackOrNewBanking,
                EditorCommand::RotateRamp(RampTurn::Coarse(true))
            ]
        )
    );
}

#[test]
fn new_waypoint_banking_presets() {
    assert_eq!(tdrace_session::editor::next_waypoint_banking(0), 10);
    assert_eq!(tdrace_session::editor::next_waypoint_banking(10), 18);
    assert_eq!(tdrace_session::editor::next_waypoint_banking(18), 22);
    assert_eq!(tdrace_session::editor::next_waypoint_banking(22), 0);
    assert_eq!(tdrace_session::editor::next_waypoint_banking(-5), 0);
    assert_eq!(tdrace_session::editor::next_waypoint_banking(11), 18);
}
