//! Keyboard shortcuts of the track editor: which editing commands a frame
//! of key presses asks for, in order.
use vstd::prelude::*;

verus! {

/// Editing tool of the track editor.
#[derive(Debug, Clone, Copy, PartialEq, Eq, Structural)]
pub enum EditorTool {
    Select,
    RoadSpline,
    SurfaceZone,
    JumpRamp,
    Obstacle,
    Checkpoint,
    PitLane,
    ArenaFloor,
    WhoopSection,
    StuntRamp,
}

/// Tool picked by a number key (1 to 9, then 0 for the tenth tool).
pub open spec fn tool_for_key_spec(digit: u8) -> Option<EditorTool> {
    if digit == 1 {
        Some(EditorTool::Select)
    } else if digit == 2 {
        Some(EditorTool::RoadSpline)
    } else if digit == 3 {
        Some(EditorTool::SurfaceZone)
    } else if digit == 4 {
        Some(EditorTool::JumpRamp)
    } else if digit == 5 {
        Some(EditorTool::Obstacle)
    } else if digit == 6 {
        Some(EditorTool::Checkpoint)
    } else if digit == 7 {
        Some(EditorTool::PitLane)
    } else if digit == 8 {
        Some(EditorTool::ArenaFloor)
    } else if digit == 9 {
        Some(EditorTool::WhoopSection)
    } else if digit == 0 {
        Some(EditorTool::StuntRamp)
    } else {
        None
    }
}

/// Tool picked by a number key (1 to 9, then 0 for the tenth tool).
pub fn tool_for_key(digit: u8) -> (r: Option<EditorTool>)
    ensures
        r == tool_for_key_spec(digit),
{
    match digit {
        1 => Some(EditorTool::Select),
        2 => Some(EditorTool::RoadSpline),
        3 => Some(EditorTool::SurfaceZone),
        4 => Some(EditorTool::JumpRamp),
        5 => Some(EditorTool::Obstacle),
        6 => Some(EditorTool::Checkpoint),
        7 => Some(EditorTool::PitLane),
        8 => Some(EditorTool::ArenaFloor),
        9 => Some(EditorTool::WhoopSection),
        0 => Some(EditorTool::StuntRamp),
        _ => None,
    }
}

/// Outline of a new surface zone.
#[derive(Debug, Clone, Copy, PartialEq, Eq, Structural)]
pub enum SurfaceShape {
    Circle,
    Triangle,
    Polygon,
}

/// Turn of a jump ramp: a coarse step is 15 degrees (R, [ and ]), a fine
/// step 5 degrees (comma and period); `true` turns clockwise (the positive way).
#[derive(Debug, Clone, Copy, PartialEq, Eq, Structural)]
pub enum RampTurn {
    Coarse(bool),
    Fine(bool),
}

/// Editing command asked for by a shortcut.
#[derive(Debug, Clone, Copy, PartialEq, Eq, Structural)]
pub enum EditorCommand {
    Undo,
    Redo,
    SelectAll,
    Duplicate,
    /// Open the Save As dialog.
    SaveAs,
    DeleteSelected,
    /// Drop the vertices of the polygon being drawn.
    ClearPolygon,
    /// Bring the selected surface zone to the front.
    BringToFront,
    /// Send the selected surface zone to the back.
    SendToBack,
    /// Invert the banking of the selected waypoints.
    InvertBanking,
    /// Step the banking of the selected waypoints through its presets.
    CycleBanking,
    /// Send the selected surface zone to the back, or when none is selected
    /// step the banking given to new waypoints through its presets.
    SendToBackOrNewBanking,
    SetShape(SurfaceShape),
    /// Leave the editor for a test drive.
    TestDrive,
    /// Bring the selected surface zone to the front, or when none is
    /// selected frame the whole circuit.
    BringToFrontOrFocus,
    RotateRamp(RampTurn),
    /// Change the banking of the selected waypoints by this many degrees.
    AdjustBanking(i32),
    CycleGridSnap,
}

/// Keys pressed in the track editor during one frame.
#[derive(Debug, Clone, Copy, PartialEq, Eq, Structural)]
pub struct EditorKeys {
    /// Number key pressed (the last one when several are).
    pub digit: Option<u8>,
    /// Control (or Command) held.
    pub ctrl: bool,
    pub shift: bool,
    pub key_z: bool,
    pub key_y: bool,
    pub key_a: bool,
    pub key_d: bool,
    pub key_s: bool,
    /// Delete or Backspace.
    pub delete: bool,
    pub escape: bool,
    pub key_f: bool,
    pub key_b: bool,
    pub key_c: bool,
    pub key_t: bool,
    pub key_p: bool,
    pub space: bool,
    pub key_r: bool,
    pub bracket_left: bool,
    pub bracket_right: bool,
    pub comma: bool,
    pub period: bool,
    pub key_g: bool,
}

/// What the editor holds that the shortcuts depend on.
#[derive(Debug, Clone, Copy, PartialEq, Eq, Structural)]
pub struct EditorContext {
    pub tool: EditorTool,
    /// A dialog (Save As and the like) is open.
    pub modal_open: bool,
    /// A text field of the inspector is being edited: shortcuts are off.
    pub editing_text: bool,
    /// Vertices of a polygon are being drawn.
    pub drawing_polygon: bool,
    /// Waypoints are selected.
    pub waypoints_selected: bool,
}

/// `s` with `cmd` added at the end when `cond` holds.
#[verifier::opaque]
pub open spec fn push_when(s: Seq<EditorCommand>, cond: bool, cmd: EditorCommand) -> Seq<EditorCommand> {
    if cond {
        s.push(cmd)
    } else {
        s
    }
}

/// Command of the B key without Control.
pub open spec fn banking_key_command(k: EditorKeys, c: EditorContext) -> EditorCommand {
    if c.waypoints_selected {
        if k.shift {
            EditorCommand::InvertBanking
        } else {
            EditorCommand::CycleBanking
        }
    } else {
        EditorCommand::SendToBackOrNewBanking
    }
}

/// Command of a bracket key: a banking step of 1 degree (5 with Shift) on
/// selected waypoints, else a coarse ramp turn.
pub open spec fn bracket_command(k: EditorKeys, c: EditorContext, up: bool) -> EditorCommand {
    if c.waypoints_selected {
        EditorCommand::AdjustBanking(
            if up {
                if k.shift {
                    5i32
                } else {
                    1i32
                }
            } else if k.shift {
                -5i32
            } else {
                -1i32
            },
        )
    } else {
        EditorCommand::RotateRamp(RampTurn::Coarse(up))
    }
}

/// `s` followed by the commands of the shortcuts up to the test drive, in order.
pub open spec fn edit_commands(s: Seq<EditorCommand>, k: EditorKeys, c: EditorContext, tool: EditorTool) -> Seq<
    EditorCommand,
> {
    let zone = tool == EditorTool::SurfaceZone;
    let a1 = push_when(s, k.ctrl && k.key_z, EditorCommand::Undo);
    let a2 = push_when(a1, k.ctrl && k.key_y, EditorCommand::Redo);
    let a3 = push_when(a2, k.ctrl && k.key_a && !c.modal_open, EditorCommand::SelectAll);
    let a4 = push_when(a3, k.ctrl && k.key_d, EditorCommand::Duplicate);
    let a5 = push_when(a4, k.ctrl && k.key_s && !c.modal_open, EditorCommand::SaveAs);
    let a6 = push_when(a5, k.delete, EditorCommand::DeleteSelected);
    let a7 = push_when(a6, k.escape && c.drawing_polygon, EditorCommand::ClearPolygon);
    let a8 = push_when(a7, k.ctrl && k.key_f, EditorCommand::BringToFront);
    let a9 = push_when(a8, k.ctrl && k.key_b, EditorCommand::SendToBack);
    let a10 = push_when(a9, !k.ctrl && k.key_b, banking_key_command(k, c));
    let a11 = push_when(a10, k.ctrl && k.key_c && zone, EditorCommand::SetShape(SurfaceShape::Circle));
    let a12 = push_when(a11, k.ctrl && k.key_t && zone, EditorCommand::SetShape(SurfaceShape::Triangle));
    push_when(a12, k.ctrl && k.key_p && zone, EditorCommand::SetShape(SurfaceShape::Polygon))
}

/// `s` followed by the commands of the shortcuts after the test drive
/// check, in order.
pub open spec fn view_commands(s: Seq<EditorCommand>, k: EditorKeys, c: EditorContext) -> Seq<EditorCommand> {
    let free = !c.modal_open;
    let b1 = push_when(s, !k.ctrl && k.key_f, EditorCommand::BringToFrontOrFocus);
    let b2 = push_when(b1, free && k.key_r, EditorCommand::RotateRamp(RampTurn::Coarse(!k.shift)));
    let b3 = push_when(b2, free && k.bracket_left, bracket_command(k, c, false));
    let b4 = push_when(b3, free && k.bracket_right, bracket_command(k, c, true));
    let b5 = push_when(b4, free && k.comma, EditorCommand::RotateRamp(RampTurn::Fine(false)));
    let b6 = push_when(b5, free && k.period, EditorCommand::RotateRamp(RampTurn::Fine(true)));
    push_when(b6, k.key_g, EditorCommand::CycleGridSnap)
}

/// The tool after the number keys, and the commands a frame of shortcuts
/// asks for.
pub open spec fn editor_shortcuts_spec(k: EditorKeys, c: EditorContext) -> (EditorTool, Seq<EditorCommand>) {
    if c.editing_text {
        (c.tool, Seq::empty())
    } else {
        let tool = match k.digit {
            Some(d) => match tool_for_key_spec(d) {
                Some(t) => t,
                None => c.tool,
            },
            None => c.tool,
        };
        let a = edit_commands(Seq::empty(), k, c, tool);
        if (k.space || (!k.ctrl && k.key_p && tool != EditorTool::SurfaceZone)) && !c.modal_open {
            (tool, a.push(EditorCommand::TestDrive))
        } else {
            (tool, view_commands(a, k, c))
        }
    }
}

fn push_when_exec(out: &mut Vec<EditorCommand>, cond: bool, cmd: EditorCommand)
    ensures
        final(out)@ == push_when(old(out)@, cond, cmd),
{
    reveal(push_when);
    if cond {
        out.push(cmd);
    }
}

fn banking_key_exec(k: EditorKeys, c: EditorContext) -> (r: EditorCommand)
    ensures
        r == banking_key_command(k, c),
{
    if c.waypoints_selected {
        if k.shift {
            EditorCommand::InvertBanking
        } else {
            EditorCommand::CycleBanking
        }
    } else {
        EditorCommand::SendToBackOrNewBanking
    }
}

fn bracket_exec(k: EditorKeys, c: EditorContext, up: bool) -> (r: EditorCommand)
    ensures
        r == bracket_command(k, c, up),
{
    if c.waypoints_selected {
        let deg: i32 = if up {
            if k.shift {
                5
            } else {
                1
            }
        } else if k.shift {
            -5
        } else {
            -1
        };
        EditorCommand::AdjustBanking(deg)
    } else {
        EditorCommand::RotateRamp(RampTurn::Coarse(up))
    }
}

fn push_edit(out: &mut Vec<EditorCommand>, k: EditorKeys, c: EditorContext, tool: EditorTool)
    ensures
        final(out)@ == edit_commands(old(out)@, k, c, tool),
{
    let zone = tool == EditorTool::SurfaceZone;
    push_when_exec(out, k.ctrl && k.key_z, EditorCommand::Undo);
    push_when_exec(out, k.ctrl && k.key_y, EditorCommand::Redo);
    push_when_exec(out, k.ctrl && k.key_a && !c.modal_open, EditorCommand::SelectAll);
    push_when_exec(out, k.ctrl && k.key_d, EditorCommand::Duplicate);
    push_when_exec(out, k.ctrl && k.key_s && !c.modal_open, EditorCommand::SaveAs);
    push_when_exec(out, k.delete, EditorCommand::DeleteSelected);
    push_when_exec(out, k.escape && c.drawing_polygon, EditorCommand::ClearPolygon);
    push_when_exec(out, k.ctrl && k.key_f, EditorCommand::BringToFront);
    push_when_exec(out, k.ctrl && k.key_b, EditorCommand::SendToBack);
    push_when_exec(out, !k.ctrl && k.key_b, banking_key_exec(k, c));
    push_when_exec(out, k.ctrl && k.key_c && zone, EditorCommand::SetShape(SurfaceShape::Circle));
    push_when_exec(out, k.ctrl && k.key_t && zone, EditorCommand::SetShape(SurfaceShape::Triangle));
    push_when_exec(out, k.ctrl && k.key_p && zone, EditorCommand::SetShape(SurfaceShape::Polygon));
}

fn push_view(out: &mut Vec<EditorCommand>, k: EditorKeys, c: EditorContext)
    ensures
        final(out)@ == view_commands(old(out)@, k, c),
{
    let free = !c.modal_open;
    push_when_exec(out, !k.ctrl && k.key_f, EditorCommand::BringToFrontOrFocus);
    push_when_exec(out, free && k.key_r, EditorCommand::RotateRamp(RampTurn::Coarse(!k.shift)));
    push_when_exec(out, free && k.bracket_left, bracket_exec(k, c, false));
    push_when_exec(out, free && k.bracket_right, bracket_exec(k, c, true));
    push_when_exec(out, free && k.comma, EditorCommand::RotateRamp(RampTurn::Fine(false)));
    push_when_exec(out, free && k.period, EditorCommand::RotateRamp(RampTurn::Fine(true)));
    push_when_exec(out, k.key_g, EditorCommand::CycleGridSnap);
}

/// The shortcuts of one frame of the track editor: none while a text field
/// is edited; otherwise a number key picks the tool, then undo, redo, select
/// all, duplicate, save as, delete, polygon clearing, layering, banking,
/// surface shapes (surface zone tool), the test drive (which ends the frame,
/// with no dialog open), focusing, ramp turns and banking steps (with no
/// dialog open), and the grid snap, in that order.
pub fn editor_shortcuts(k: EditorKeys, c: EditorContext) -> (r: (EditorTool, Vec<EditorCommand>))
    ensures
        r.0 == editor_shortcuts_spec(k, c).0,
        r.1@ == editor_shortcuts_spec(k, c).1,
{
    let mut out: Vec<EditorCommand> = Vec::new();
    if c.editing_text {
        return (c.tool, out);
    }
    let mut tool = c.tool;
    if let Some(d) = k.digit {
        if let Some(t) = tool_for_key(d) {
            tool = t;
        }
    }
    push_edit(&mut out, k, c, tool);
    if (k.space || (!k.ctrl && k.key_p && tool != EditorTool::SurfaceZone)) && !c.modal_open {
        out.push(EditorCommand::TestDrive);
        return (tool, out);
    }
    push_view(&mut out, k, c);
    (tool, out)
}

/// Banking, in whole degrees, given to new waypoints after the banking key
/// with nothing selected: level (within a degree of 0) goes to 10, about 10
/// (within 2) to 18, about 18 (within 2) to 22, anything else back to level.
pub open spec fn next_waypoint_banking_spec(deg: i32) -> i32 {
    if -1 < deg && deg < 1 {
        10
    } else if 8 < deg && deg < 12 {
        18
    } else if 16 < deg && deg < 20 {
        22
    } else {
        0
    }
}

/// Banking given to new waypoints after the banking key (see
/// `next_waypoint_banking_spec`).
pub fn next_waypoint_banking(deg: i32) -> (r: i32)
    ensures
        r == next_waypoint_banking_spec(deg),
{
    if -1 < deg && deg < 1 {
        10
    } else if 8 < deg && deg < 12 {
        18
    } else if 16 < deg && deg < 20 {
        22
    } else {
        0
    }
}

/// The new-waypoint banking presets form a cycle of four: level, 10, 18 and
/// 22 degrees, then level again; any other banking rejoins it at level.
pub proof fn lemma_waypoint_banking_cycle(deg: i32)
    ensures
        next_waypoint_banking_spec(0) == 10,
        next_waypoint_banking_spec(10) == 18,
        next_waypoint_banking_spec(18) == 22,
        next_waypoint_banking_spec(22) == 0,
        next_waypoint_banking_spec(next_waypoint_banking_spec(next_waypoint_banking_spec(
            next_waypoint_banking_spec(next_waypoint_banking_spec(deg)),
        ))) == next_waypoint_banking_spec(deg),
{
}

} // verus!
