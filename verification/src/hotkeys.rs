//! Session-wide hotkeys: when the audio keys are live, and the visibility
//! aids that the number keys switch during a race.
use vstd::prelude::*;
use crate::flow::{ScanlineMode, next_scanline_spec};
use crate::screens::{Screen, race_underway, driver_cards_origin, driver_cards_origin_spec, controls_help_for};

verus! {

/// Whether the player may be typing (or the workshop has the keys), so the
/// single-letter audio keys (M, S) are off: Control held, the profile form,
/// a name field of the roster manager, the workshop, the series editor, or
/// the track editor with a dialog open.
pub fn typing_context(screen: Screen, ctrl: bool, roster_name_field: bool, editor_dialog: bool) -> (r: bool)
    ensures
        r == (ctrl || screen is ProfileCreate || (screen is PlayerRosterManager && roster_name_field)
            || screen is TrackManager || screen is ChampionshipEditor || (screen is TrackEditor
            && editor_dialog)),
{
    ctrl || matches!(screen, Screen::ProfileCreate) || (matches!(screen, Screen::PlayerRosterManager)
        && roster_name_field) || matches!(screen, Screen::TrackManager) || matches!(
        screen,
        Screen::ChampionshipEditor,
    ) || (matches!(screen, Screen::TrackEditor) && editor_dialog)
}

/// Screens on which the visibility keys and the camera zoom work: the
/// Starting Grid and a race (countdown, racing, paused, finished).
pub open spec fn gameplay_screen(s: Screen) -> bool {
    s is Racing || s is Countdown || s is StartingGrid || s is Paused || s is Finished
}

/// Colours of the corner helper.
#[derive(Debug, Clone, Copy, PartialEq, Eq, Structural)]
pub enum CurveColors {
    Traffic,
    Synthwave,
    Contrast,
    Rally,
}

/// Colours after `c` in the cycle Traffic, Synthwave, Contrast, Rally.
pub open spec fn next_curve_colors(c: CurveColors) -> CurveColors {
    match c {
        CurveColors::Traffic => CurveColors::Synthwave,
        CurveColors::Synthwave => CurveColors::Contrast,
        CurveColors::Contrast => CurveColors::Rally,
        CurveColors::Rally => CurveColors::Traffic,
    }
}

/// Visibility aids drawn during a race.
#[derive(Debug, Clone, Copy, PartialEq, Eq, Structural)]
pub struct VisibilityOptions {
    pub overhead_chevron: bool,
    pub ground_aura: bool,
    pub adaptive_visibility: bool,
    pub roof_beacon: bool,
    pub curve_helper: bool,
    pub curve_colors: CurveColors,
    pub bot_nameplates: bool,
}

/// Visibility keys pressed during one frame.
#[derive(Debug, Clone, Copy, PartialEq, Eq, Structural)]
pub struct VisibilityKeys {
    pub key1: bool,
    pub key2: bool,
    pub key3: bool,
    pub key4: bool,
    pub key5: bool,
    pub key6: bool,
    /// 7 or F7.
    pub key7: bool,
    /// Left or right Alt.
    pub alt: bool,
}

/// Aid announced by the toast of a frame: the last one switched.
#[derive(Debug, Clone, Copy, PartialEq, Eq, Structural)]
pub enum VisibilityToast {
    Chevron(bool),
    GroundAura(bool),
    Adaptive(bool),
    RoofBeacon(bool),
    CornerAssist(bool),
    Colors(CurveColors),
    Scanlines(ScanlineMode),
    Nameplates(bool),
}

/// The aids after the visibility keys on a gameplay screen: keys 1 to 5
/// switch the chevron, ground aura, adaptive scaling, roof beacon and
/// corner assist; 6 cycles the helper's colours; Alt switches the bot
/// nameplates.
pub open spec fn visibility_options_spec(o: VisibilityOptions, k: VisibilityKeys) -> VisibilityOptions {
    VisibilityOptions {
        overhead_chevron: o.overhead_chevron != k.key1,
        ground_aura: o.ground_aura != k.key2,
        adaptive_visibility: o.adaptive_visibility != k.key3,
        roof_beacon: o.roof_beacon != k.key4,
        curve_helper: o.curve_helper != k.key5,
        curve_colors: if k.key6 {
            next_curve_colors(o.curve_colors)
        } else {
            o.curve_colors
        },
        bot_nameplates: o.bot_nameplates != k.alt,
    }
}

/// The toast of a frame: it announces the last aid switched (in the order
/// 1 to 7, then Alt), with its new setting.
pub open spec fn visibility_toast_spec(o: VisibilityOptions, scan: ScanlineMode, k: VisibilityKeys) -> Option<
    VisibilityToast,
> {
    if k.alt {
        Some(VisibilityToast::Nameplates(o.bot_nameplates))
    } else if k.key7 {
        Some(VisibilityToast::Scanlines(scan))
    } else if k.key6 {
        Some(VisibilityToast::Colors(o.curve_colors))
    } else if k.key5 {
        Some(VisibilityToast::CornerAssist(o.curve_helper))
    } else if k.key4 {
        Some(VisibilityToast::RoofBeacon(o.roof_beacon))
    } else if k.key3 {
        Some(VisibilityToast::Adaptive(o.adaptive_visibility))
    } else if k.key2 {
        Some(VisibilityToast::GroundAura(o.ground_aura))
    } else if k.key1 {
        Some(VisibilityToast::Chevron(o.overhead_chevron))
    } else {
        None
    }
}

/// The aids, the scanline mode (7 and F7 cycle it) and the toast after the
/// visibility keys of a frame.
pub open spec fn visibility_spec(o: VisibilityOptions, scan: ScanlineMode, k: VisibilityKeys) -> (
    VisibilityOptions,
    ScanlineMode,
    Option<VisibilityToast>,
) {
    let o1 = visibility_options_spec(o, k);
    let s1 = if k.key7 {
        next_scanline_spec(scan)
    } else {
        scan
    };
    (o1, s1, visibility_toast_spec(o1, s1, k))
}

/// Applies the visibility keys of a frame on a gameplay screen (see
/// `visibility_spec`).
pub fn visibility_keys(o: VisibilityOptions, scan: ScanlineMode, k: VisibilityKeys) -> (r: (
    VisibilityOptions,
    ScanlineMode,
    Option<VisibilityToast>,
))
    ensures
        r == visibility_spec(o, scan, k),
{
    let colors = if k.key6 {
        match o.curve_colors {
            CurveColors::Traffic => CurveColors::Synthwave,
            CurveColors::Synthwave => CurveColors::Contrast,
            CurveColors::Contrast => CurveColors::Rally,
            CurveColors::Rally => CurveColors::Traffic,
        }
    } else {
        o.curve_colors
    };
    let v = VisibilityOptions {
        overhead_chevron: o.overhead_chevron != k.key1,
        ground_aura: o.ground_aura != k.key2,
        adaptive_visibility: o.adaptive_visibility != k.key3,
        roof_beacon: o.roof_beacon != k.key4,
        curve_helper: o.curve_helper != k.key5,
        curve_colors: colors,
        bot_nameplates: o.bot_nameplates != k.alt,
    };
    let s = if k.key7 {
        scan.next()
    } else {
        scan
    };
    let toast = if k.alt {
        Some(VisibilityToast::Nameplates(v.bot_nameplates))
    } else if k.key7 {
        Some(VisibilityToast::Scanlines(s))
    } else if k.key6 {
        Some(VisibilityToast::Colors(v.curve_colors))
    } else if k.key5 {
        Some(VisibilityToast::CornerAssist(v.curve_helper))
    } else if k.key4 {
        Some(VisibilityToast::RoofBeacon(v.roof_beacon))
    } else if k.key3 {
        Some(VisibilityToast::Adaptive(v.adaptive_visibility))
    } else if k.key2 {
        Some(VisibilityToast::GroundAura(v.ground_aura))
    } else if k.key1 {
        Some(VisibilityToast::Chevron(v.overhead_chevron))
    } else {
        None
    };
    (v, s, toast)
}

/// Pressing the same visibility keys twice restores every on/off aid.
pub proof fn lemma_visibility_toggles_twice(o: VisibilityOptions, scan: ScanlineMode, k: VisibilityKeys)
    ensures
        ({
            let (o1, s1, _) = visibility_spec(o, scan, k);
            let (o2, _, _) = visibility_spec(o1, s1, k);
            &&& o2.overhead_chevron == o.overhead_chevron
            &&& o2.ground_aura == o.ground_aura
            &&& o2.adaptive_visibility == o.adaptive_visibility
            &&& o2.roof_beacon == o.roof_beacon
            &&& o2.curve_helper == o.curve_helper
            &&& o2.bot_nameplates == o.bot_nameplates
        }),
{
}

/// Four presses of 6 bring the corner helper's colours back.
pub proof fn lemma_curve_colors_cycle(c: CurveColors)
    ensures
        next_curve_colors(next_curve_colors(next_curve_colors(next_curve_colors(c)))) == c,
{
}

/// Screens that take every key themselves: the editors, the profile
/// screens and forms, and the workshop.
pub open spec fn self_handled(s: Screen) -> bool {
    s is TrackEditor || s is ChampionshipEditor || s is ProfileManager || s is PlayerRosterManager
        || s is ProfileCreate || s is TrackManager
}

/// Session-wide keys pressed during one frame.
#[derive(Debug, Clone, Copy, PartialEq, Eq, Structural)]
pub struct GlobalKeys {
    pub f11: bool,
    pub key_k: bool,
    pub key_d: bool,
    /// H (or the assist button of the gamepad in single play).
    pub assists: bool,
    pub key_r: bool,
}

/// What the session-wide keys do before the current screen runs.
#[derive(Debug, Clone, Copy, PartialEq, Eq, Structural)]
pub enum GlobalOutcome {
    /// Open the series editor; the frame ends.
    SeriesEditor,
    /// Go to this screen; the frame ends.
    Goto(Screen),
    /// Restart the race; the frame ends.
    Restart,
    /// Let the current screen handle the frame.
    Dispatch,
}

/// What the session-wide keys of a frame do on `screen`, and whether the
/// assist profile steps to the next one: F11 opens the series editor; the
/// screens that take every key then run; K opens the controls help
/// (remembering a race underway); D opens the driver dossier (not from the
/// garage, modality selection or career hub); H steps the assists; R
/// restarts a race underway (countdown, racing, paused); otherwise the
/// screen runs.
pub fn global_keys(screen: Screen, k: GlobalKeys) -> (r: (GlobalOutcome, bool))
    ensures
        r == (if k.f11 {
            (GlobalOutcome::SeriesEditor, false)
        } else if self_handled(screen) {
            (GlobalOutcome::Dispatch, false)
        } else if k.key_k {
            (GlobalOutcome::Goto(Screen::ControlsHelp(race_underway(screen))), false)
        } else if k.key_d && !(screen is Garage || screen is ModalitySelect || screen is CareerHub) {
            (GlobalOutcome::Goto(Screen::DriverCards(driver_cards_origin_spec(screen))), false)
        } else if k.key_r && race_underway(screen) {
            (GlobalOutcome::Restart, k.assists)
        } else {
            (GlobalOutcome::Dispatch, k.assists)
        }),
{
    if k.f11 {
        return (GlobalOutcome::SeriesEditor, false);
    }
    match screen {
        Screen::TrackEditor | Screen::ChampionshipEditor | Screen::ProfileManager { .. }
        | Screen::PlayerRosterManager | Screen::ProfileCreate | Screen::TrackManager => {
            return (GlobalOutcome::Dispatch, false);
        },
        _ => {},
    }
    if k.key_k {
        return (GlobalOutcome::Goto(controls_help_for(&screen)), false);
    }
    if k.key_d {
        match screen {
            Screen::Garage(_) | Screen::ModalitySelect { .. } | Screen::CareerHub { .. } => {},
            _ => {
                return (GlobalOutcome::Goto(Screen::DriverCards(driver_cards_origin(&screen))), false);
            },
        }
    }
    if k.key_r && screen.is_race_underway() {
        (GlobalOutcome::Restart, k.assists)
    } else {
        (GlobalOutcome::Dispatch, k.assists)
    }
}

} // verus!
