//! Race flow decisions: the start countdown, the pause menu, the finished
//! screen, and the display and assist settings that cycle.
use vstd::prelude::*;
use crate::screens::{FinishedScreenView, Screen, RESTART_COUNTDOWN_MS, hub_tier_spec, career_hub_screen};
use crate::modules::{ModuleId, module_for_select_index, module_for_select_index_spec};
use crate::roster::GameMode;

verus! {

/// One tick of the start countdown.
#[derive(Debug, Clone, Copy, PartialEq, Eq, Structural)]
pub struct CountdownTick {
    /// Time left after the tick, in milliseconds (may fall below zero).
    pub remaining_ms: i64,
    /// Whether a low countdown beep sounds on this tick.
    pub beep_low: bool,
    /// Last whole second announced by a beep (starts above 3).
    pub last_beep_second: i32,
    /// Whether the countdown is over: the high beep sounds and the race starts.
    pub go: bool,
}

/// The countdown after `elapsed_ms` more milliseconds: a low beep announces
/// each of the last three seconds once, and the race starts when no time is left.
pub open spec fn countdown_spec(remaining_ms: i64, elapsed_ms: i64, last_beep_second: i32) -> CountdownTick {
    let rem = remaining_ms - elapsed_ms;
    let (beep, last) = if rem <= 3000 && last_beep_second > 3 {
        (true, 3i32)
    } else if rem <= 2000 && last_beep_second > 2 {
        (true, 2i32)
    } else if rem <= 1000 && last_beep_second > 1 {
        (true, 1i32)
    } else {
        (false, last_beep_second)
    };
    CountdownTick { remaining_ms: rem as i64, beep_low: beep, last_beep_second: last, go: rem <= 0 }
}

/// Advances the start countdown by `elapsed_ms`.
pub fn countdown_step(remaining_ms: i64, elapsed_ms: i64, last_beep_second: i32) -> (r: CountdownTick)
    requires
        0 <= elapsed_ms,
        remaining_ms - elapsed_ms >= i64::MIN,
    ensures
        r == countdown_spec(remaining_ms, elapsed_ms, last_beep_second),
{
    let rem = remaining_ms - elapsed_ms;
    let (beep, last) = if rem <= 3000 && last_beep_second > 3 {
        (true, 3i32)
    } else if rem <= 2000 && last_beep_second > 2 {
        (true, 2i32)
    } else if rem <= 1000 && last_beep_second > 1 {
        (true, 1i32)
    } else {
        (false, last_beep_second)
    };
    CountdownTick { remaining_ms: rem, beep_low: beep, last_beep_second: last, go: rem <= 0 }
}

/// The announced second never goes up and goes down exactly when a beep
/// sounds; the race starts exactly when the time has run out.
pub proof fn lemma_countdown_beeps_descend(remaining_ms: i64, elapsed_ms: i64, last_beep_second: i32)
    requires
        0 <= elapsed_ms,
        remaining_ms - elapsed_ms >= i64::MIN,
    ensures
        ({
            let t = countdown_spec(remaining_ms, elapsed_ms, last_beep_second);
            &&& t.last_beep_second <= last_beep_second
            &&& t.beep_low <==> t.last_beep_second != last_beep_second
            &&& t.go <==> remaining_ms <= elapsed_ms
        }),
{
}

/// From a fresh countdown (`last_beep_second` 4), whatever the ticks, at most
/// one beep announces each of the seconds 3, 2 and 1: once announced, a
/// second is never announced again.
pub proof fn lemma_countdown_no_repeat(remaining_ms: i64, elapsed_ms: i64, last_beep_second: i32)
    requires
        0 <= elapsed_ms,
        remaining_ms - elapsed_ms >= i64::MIN,
        last_beep_second <= 3,
    ensures
        countdown_spec(remaining_ms, elapsed_ms, last_beep_second).beep_low ==> countdown_spec(
            remaining_ms,
            elapsed_ms,
            last_beep_second,
        ).last_beep_second < last_beep_second,
{
}

/// What the player did on the pause menu during one frame.
#[derive(Debug, Clone, Copy, PartialEq, Eq, Structural)]
pub struct PauseInputs {
    pub hover_resume: bool,
    pub hover_exit: bool,
    pub click_resume: bool,
    pub click_exit: bool,
    pub nav_left: bool,
    pub nav_right: bool,
    pub nav_vertical: bool,
    pub confirm: bool,
}

/// Choice taken on the pause menu.
#[derive(Debug, Clone, Copy, PartialEq, Eq, Structural)]
pub enum PauseChoice {
    Stay,
    Resume,
    Exit,
}

/// Focused pause button after hovering and navigating (0 resume, 1 exit).
pub open spec fn pause_focus_spec(focused: usize, i: PauseInputs) -> usize {
    let a: usize = if i.hover_resume {
        0
    } else {
        focused
    };
    let b: usize = if i.hover_exit {
        1
    } else {
        a
    };
    let c: usize = if i.nav_left {
        0
    } else {
        b
    };
    let d: usize = if i.nav_right {
        1
    } else {
        c
    };
    if i.nav_vertical {
        (1 - d) as usize
    } else {
        d
    }
}

/// Pause menu frame: hover and navigation move the focus between the two
/// buttons; a click picks its button, a confirmation picks the focused one.
pub fn pause_menu_step(focused: usize, i: &PauseInputs) -> (r: (usize, PauseChoice))
    requires
        focused <= 1,
    ensures
        r.0 == pause_focus_spec(focused, *i),
        r.0 <= 1,
        r.1 == if !(i.confirm || i.click_resume || i.click_exit) {
            PauseChoice::Stay
        } else if i.click_resume {
            PauseChoice::Resume
        } else if i.click_exit {
            PauseChoice::Exit
        } else if r.0 == 0 {
            PauseChoice::Resume
        } else {
            PauseChoice::Exit
        },
{
    let mut f = focused;
    if i.hover_resume {
        f = 0;
    }
    if i.hover_exit {
        f = 1;
    }
    if i.nav_left {
        f = 0;
    }
    if i.nav_right {
        f = 1;
    }
    if i.nav_vertical {
        f = 1 - f;
    }
    if !(i.confirm || i.click_resume || i.click_exit) {
        return (f, PauseChoice::Stay);
    }
    let action: usize = if i.click_resume {
        0
    } else if i.click_exit {
        1
    } else {
        f
    };
    if action == 0 {
        (f, PauseChoice::Resume)
    } else {
        (f, PauseChoice::Exit)
    }
}

/// Screen reached when a race is left for good (pause menu exit, finished
/// screen): the track editor when the race was a test drive from it (the
/// test-drive flag is then cleared), else the menu.
pub fn race_exit_target(return_to_editor: bool) -> (r: (Screen, bool))
    ensures
        return_to_editor ==> r == (Screen::TrackEditor, true),
        !return_to_editor ==> r == (Screen::Menu, false),
{
    if return_to_editor {
        (Screen::TrackEditor, true)
    } else {
        (Screen::Menu, false)
    }
}

/// State of the post-race Finished screen.
#[derive(Debug, Clone, Copy, PartialEq, Eq, Structural)]
pub struct FinishedScreen {
    pub view: FinishedScreenView,
    /// View to go back to when the statistics are closed.
    pub prev_view: FinishedScreenView,
    /// Legacy flag that also selects the Hall of Fame view.
    pub show_hall_of_fame: bool,
}

/// A key the player pressed on the Finished screen.
#[derive(Debug, Clone, Copy, PartialEq, Eq, Structural)]
pub enum FinishedInput {
    /// Restart the race (R / gamepad Y).
    Restart,
    /// Open or close the detailed statistics (Tab / gamepad X).
    ToggleStatistics,
    /// Move forward (Space, Enter / gamepad A).
    Confirm,
    /// Step back (Escape / gamepad B).
    Back,
}

/// Session facts the Finished screen decides by.
#[derive(Debug, Clone, Copy, PartialEq, Eq, Structural)]
pub struct FinishedContext {
    /// A championship season is running.
    pub in_championship: bool,
    /// The session is a GT career (Career mode in the GT module).
    pub gt_career: bool,
    /// The race was a test drive from the track editor.
    pub return_to_editor: bool,
    /// Level of the active career.
    pub career_level: u32,
    /// Current round of the championship (after the round just run is submitted).
    pub current_round: Option<usize>,
}

/// What the session does after a key on the Finished screen.
#[derive(Debug, Clone, Copy, PartialEq, Eq, Structural)]
pub enum FinishedAction {
    /// Stay on the Finished screen (its view may have changed).
    Stay,
    /// Discard the round results, restart the race and wipe to the countdown.
    RestartRace { countdown_ms: u64 },
    /// Submit the round results to the championship, then show `next`.
    SubmitRound { next: Screen },
    /// Leave for `next`, fading when `fade`; `discard_round_results` drops
    /// the pending round results, `clear_editor_return` ends the test drive.
    Leave { next: Screen, fade: bool, discard_round_results: bool, clear_editor_return: bool },
}

/// The view the Finished screen shows: the statistics, else the Hall of Fame
/// (also when the legacy flag asks for it), else the results.
pub open spec fn shown_view(s: FinishedScreen) -> FinishedScreenView {
    if s.view is Statistics {
        FinishedScreenView::Statistics
    } else if s.show_hall_of_fame || s.view is HallOfFame {
        FinishedScreenView::HallOfFame
    } else {
        FinishedScreenView::Results
    }
}

/// The screen after closing the statistics: back to the view they were opened from.
pub open spec fn closed_statistics(s: FinishedScreen) -> FinishedScreen {
    FinishedScreen {
        view: s.prev_view,
        prev_view: s.prev_view,
        show_hall_of_fame: s.prev_view is HallOfFame,
    }
}

/// The screen after opening the statistics from the shown view.
pub open spec fn opened_statistics(s: FinishedScreen) -> FinishedScreen {
    FinishedScreen { view: FinishedScreenView::Statistics, prev_view: shown_view(s), show_hall_of_fame: false }
}

/// The Finished screen as a race (re)start leaves it: results shown.
pub open spec fn fresh_finished() -> FinishedScreen {
    FinishedScreen {
        view: FinishedScreenView::Results,
        prev_view: FinishedScreenView::Results,
        show_hall_of_fame: false,
    }
}

/// The Finished screen's state and action after `input`.
pub open spec fn finished_step_spec(s: FinishedScreen, input: FinishedInput, c: FinishedContext) -> (
    FinishedScreen,
    FinishedAction,
) {
    let v = shown_view(s);
    match input {
        FinishedInput::Restart => (
            fresh_finished(),
            FinishedAction::RestartRace { countdown_ms: RESTART_COUNTDOWN_MS },
        ),
        FinishedInput::ToggleStatistics => if v is Statistics {
            (closed_statistics(s), FinishedAction::Stay)
        } else {
            (opened_statistics(s), FinishedAction::Stay)
        },
        FinishedInput::Confirm => match v {
            FinishedScreenView::Results => if c.in_championship {
                (
                    s,
                    FinishedAction::SubmitRound {
                        next: if c.gt_career {
                            Screen::CareerHub {
                                selected_tier: hub_tier_spec(c.career_level),
                                selected_slot: match c.current_round {
                                    Some(k) => k,
                                    None => 0,
                                },
                                showing_standings: true,
                            }
                        } else {
                            Screen::ChampionshipStandings
                        },
                    },
                )
            } else {
                (
                    FinishedScreen {
                        view: FinishedScreenView::HallOfFame,
                        prev_view: s.prev_view,
                        show_hall_of_fame: true,
                    },
                    FinishedAction::Stay,
                )
            },
            FinishedScreenView::HallOfFame => (
                s,
                FinishedAction::Leave {
                    next: if c.return_to_editor {
                        Screen::TrackEditor
                    } else {
                        Screen::Menu
                    },
                    fade: true,
                    discard_round_results: false,
                    clear_editor_return: c.return_to_editor,
                },
            ),
            FinishedScreenView::Statistics => (closed_statistics(s), FinishedAction::Stay),
        },
        FinishedInput::Back => match v {
            FinishedScreenView::Statistics => (closed_statistics(s), FinishedAction::Stay),
            FinishedScreenView::HallOfFame => (
                FinishedScreen {
                    view: FinishedScreenView::Results,
                    prev_view: s.prev_view,
                    show_hall_of_fame: false,
                },
                FinishedAction::Stay,
            ),
            FinishedScreenView::Results => if c.return_to_editor {
                (
                    s,
                    FinishedAction::Leave {
                        next: Screen::TrackEditor,
                        fade: true,
                        discard_round_results: true,
                        clear_editor_return: true,
                    },
                )
            } else if c.in_championship && c.gt_career {
                (
                    s,
                    FinishedAction::Leave {
                        next: Screen::CareerHub {
                            selected_tier: hub_tier_spec(c.career_level),
                            selected_slot: match c.current_round {
                                Some(k) => k,
                                None => 0,
                            },
                            showing_standings: false,
                        },
                        fade: false,
                        discard_round_results: true,
                        clear_editor_return: false,
                    },
                )
            } else {
                (
                    s,
                    FinishedAction::Leave {
                        next: Screen::Menu,
                        fade: true,
                        discard_round_results: true,
                        clear_editor_return: false,
                    },
                )
            },
        },
    }
}

impl FinishedScreen {
    /// The Finished screen as a race (re)start leaves it.
    pub fn new() -> (r: FinishedScreen)
        ensures
            r == fresh_finished(),
    {
        FinishedScreen {
            view: FinishedScreenView::Results,
            prev_view: FinishedScreenView::Results,
            show_hall_of_fame: false,
        }
    }

    /// Well-formed: the statistics are never the view to go back to.
    pub open spec fn wf(self) -> bool {
        !(self.prev_view is Statistics)
    }

    /// The view shown.
    pub fn current_view(&self) -> (r: FinishedScreenView)
        ensures
            r == shown_view(*self),
    {
        if self.view == FinishedScreenView::Statistics {
            FinishedScreenView::Statistics
        } else if self.show_hall_of_fame || self.view == FinishedScreenView::HallOfFame {
            FinishedScreenView::HallOfFame
        } else {
            FinishedScreenView::Results
        }
    }

    /// Handles one key on the Finished screen.
    pub fn step(&mut self, input: FinishedInput, c: &FinishedContext) -> (r: FinishedAction)
        ensures
            (*final(self), r) == finished_step_spec(*old(self), input, *c),
    {
        let v = self.current_view();
        match input {
            FinishedInput::Restart => {
                *self = FinishedScreen::new();
                FinishedAction::RestartRace { countdown_ms: RESTART_COUNTDOWN_MS }
            },
            FinishedInput::ToggleStatistics => {
                if v == FinishedScreenView::Statistics {
                    self.close_statistics();
                } else {
                    self.prev_view = v;
                    self.view = FinishedScreenView::Statistics;
                    self.show_hall_of_fame = false;
                }
                FinishedAction::Stay
            },
            FinishedInput::Confirm => match v {
                FinishedScreenView::Results => {
                    if c.in_championship {
                        let next = if c.gt_career {
                            career_hub_screen(c.career_level, c.current_round, true)
                        } else {
                            Screen::ChampionshipStandings
                        };
                        FinishedAction::SubmitRound { next }
                    } else {
                        self.view = FinishedScreenView::HallOfFame;
                        self.show_hall_of_fame = true;
                        FinishedAction::Stay
                    }
                },
                FinishedScreenView::HallOfFame => {
                    let next = if c.return_to_editor {
                        Screen::TrackEditor
                    } else {
                        Screen::Menu
                    };
                    FinishedAction::Leave {
                        next,
                        fade: true,
                        discard_round_results: false,
                        clear_editor_return: c.return_to_editor,
                    }
                },
                FinishedScreenView::Statistics => {
                    self.close_statistics();
                    FinishedAction::Stay
                },
            },
            FinishedInput::Back => match v {
                FinishedScreenView::Statistics => {
                    self.close_statistics();
                    FinishedAction::Stay
                },
                FinishedScreenView::HallOfFame => {
                    self.view = FinishedScreenView::Results;
                    self.show_hall_of_fame = false;
                    FinishedAction::Stay
                },
                FinishedScreenView::Results => {
                    if c.return_to_editor {
                        FinishedAction::Leave {
                            next: Screen::TrackEditor,
                            fade: true,
                            discard_round_results: true,
                            clear_editor_return: true,
                        }
                    } else if c.in_championship && c.gt_career {
                        FinishedAction::Leave {
                            next: career_hub_screen(c.career_level, c.current_round, false),
                            fade: false,
                            discard_round_results: true,
                            clear_editor_return: false,
                        }
                    } else {
                        FinishedAction::Leave {
                            next: Screen::Menu,
                            fade: true,
                            discard_round_results: true,
                            clear_editor_return: false,
                        }
                    }
                },
            },
        }
    }

    fn close_statistics(&mut self)
        ensures
            *final(self) == closed_statistics(*old(self)),
    {
        self.view = self.prev_view;
        self.show_hall_of_fame = self.view == FinishedScreenView::HallOfFame;
    }
}

/// Every key keeps the Finished screen well formed.
pub proof fn lemma_finished_step_keeps_wf(s: FinishedScreen, input: FinishedInput, c: FinishedContext)
    requires
        s.wf(),
    ensures
        finished_step_spec(s, input, c).0.wf(),
{
}

/// Opening and then closing the statistics shows again the view they were
/// opened from, whichever keys close them.
pub proof fn lemma_statistics_round_trip(s: FinishedScreen, close: FinishedInput, c: FinishedContext)
    requires
        s.wf(),
        !(shown_view(s) is Statistics),
        close is ToggleStatistics || close is Confirm || close is Back,
    ensures
        ({
            let opened = finished_step_spec(s, FinishedInput::ToggleStatistics, c);
            let closed = finished_step_spec(opened.0, close, c);
            &&& shown_view(opened.0) is Statistics
            &&& opened.1 is Stay
            &&& shown_view(closed.0) == shown_view(s)
            &&& closed.1 is Stay
        }),
{
}

/// A restart always brings the results view back.
pub proof fn lemma_restart_shows_results(s: FinishedScreen, c: FinishedContext)
    ensures
        shown_view(finished_step_spec(s, FinishedInput::Restart, c).0) is Results,
        finished_step_spec(s, FinishedInput::Restart, c).1 is RestartRace,
{
}

/// CRT scanline post-processing mode.
#[derive(Debug, Clone, Copy, PartialEq, Eq, Structural)]
pub enum ScanlineMode {
    Disabled,
    Subtle,
    ArcadeCrt,
    RetroGlow,
}

/// Mode that follows `m` in the scanline cycle.
pub open spec fn next_scanline_spec(m: ScanlineMode) -> ScanlineMode {
    match m {
        ScanlineMode::Disabled => ScanlineMode::Subtle,
        ScanlineMode::Subtle => ScanlineMode::ArcadeCrt,
        ScanlineMode::ArcadeCrt => ScanlineMode::RetroGlow,
        ScanlineMode::RetroGlow => ScanlineMode::Disabled,
    }
}

impl ScanlineMode {
    /// Next mode of the cycle Disabled, Subtle, Arcade CRT, Retro Glow, Disabled.
    pub fn next(self) -> (r: ScanlineMode)
        ensures
            r == next_scanline_spec(self),
    {
        match self {
            ScanlineMode::Disabled => ScanlineMode::Subtle,
            ScanlineMode::Subtle => ScanlineMode::ArcadeCrt,
            ScanlineMode::ArcadeCrt => ScanlineMode::RetroGlow,
            ScanlineMode::RetroGlow => ScanlineMode::Disabled,
        }
    }

    /// Name under which the mode is saved in the display configuration.
    pub fn config_name(self) -> (r: &'static str)
        ensures
            self is Disabled ==> r@ == "disabled"@,
            self is Subtle ==> r@ == "subtle"@,
            self is ArcadeCrt ==> r@ == "arcade_crt"@,
            self is RetroGlow ==> r@ == "retro_glow"@,
    {
        match self {
            ScanlineMode::Disabled => "disabled",
            ScanlineMode::Subtle => "subtle",
            ScanlineMode::ArcadeCrt => "arcade_crt",
            ScanlineMode::RetroGlow => "retro_glow",
        }
    }
}

/// Four steps of the scanline cycle come back to the starting mode.
pub proof fn lemma_scanline_cycle_period(m: ScanlineMode)
    ensures
        next_scanline_spec(next_scanline_spec(next_scanline_spec(next_scanline_spec(m)))) == m,
        next_scanline_spec(m) != m,
{
}

/// Driver assist profile.
#[derive(Debug, Clone, Copy, PartialEq, Eq, Structural)]
pub enum AssistProfile {
    Arcade,
    Sport,
    Pro,
}

/// Entry of the settings drop-down that shows a profile.
pub open spec fn dropdown_index_spec(p: AssistProfile) -> usize {
    match p {
        AssistProfile::Arcade => 0,
        AssistProfile::Sport => 1,
        AssistProfile::Pro => 2,
    }
}

/// Profile chosen by a drop-down entry (any entry past Sport means Pro).
pub open spec fn profile_of_dropdown(idx: usize) -> AssistProfile {
    if idx == 0 {
        AssistProfile::Arcade
    } else if idx == 1 {
        AssistProfile::Sport
    } else {
        AssistProfile::Pro
    }
}

impl AssistProfile {
    /// Entry of the settings drop-down that shows this profile.
    pub fn dropdown_index(self) -> (r: usize)
        ensures
            r == dropdown_index_spec(self),
    {
        match self {
            AssistProfile::Arcade => 0,
            AssistProfile::Sport => 1,
            AssistProfile::Pro => 2,
        }
    }

    /// Profile chosen by a drop-down entry.
    pub fn from_dropdown_index(idx: usize) -> (r: AssistProfile)
        ensures
            r == profile_of_dropdown(idx),
    {
        match idx {
            0 => AssistProfile::Arcade,
            1 => AssistProfile::Sport,
            _ => AssistProfile::Pro,
        }
    }
}

/// Saving the settings without touching the assist drop-down keeps the profile.
pub proof fn lemma_assist_dropdown_round_trip(p: AssistProfile)
    ensures
        profile_of_dropdown(dropdown_index_spec(p)) == p,
{
}

/// Result of one tick of a screen transition.
#[derive(Debug, Clone, Copy, PartialEq, Eq, Structural)]
pub struct TransitionTick {
    /// Screen shown after the tick.
    pub screen: Screen,
    /// Target still waiting for the transition's midpoint.
    pub pending: Option<Screen>,
    /// Whether a transition is still running.
    pub running: bool,
    /// Whether the screen was swapped on this tick.
    pub swapped: bool,
    /// Module to activate because the module selection screen was left for
    /// the menu or the modality selection.
    pub switch_module: Option<ModuleId>,
}

/// Module activated when `target` replaces `screen`: leaving the module
/// selection for the menu or the modality selection activates the module of
/// the selected entry.
pub open spec fn module_switch_on_swap(screen: Screen, target: Screen) -> Option<ModuleId> {
    match screen {
        Screen::ModuleSelect { selected_idx } => if target is Menu || target is ModalitySelect {
            Some(module_for_select_index_spec(selected_idx))
        } else {
            None
        },
        _ => None,
    }
}

/// One tick of a screen transition. `running` says whether a transition is
/// under way; `reached_hold` that it reached its midpoint on this tick and
/// `complete` that it is over after it. At the midpoint the pending target
/// replaces the screen (once); when the transition is over it is dropped
/// together with any target still pending.
pub fn transition_tick(screen: Screen, pending: Option<Screen>, running: bool, reached_hold: bool, complete: bool) -> (r:
    TransitionTick)
    ensures
        r.swapped <==> running && reached_hold && pending is Some,
        r.swapped ==> r.screen == pending->0 && r.switch_module == module_switch_on_swap(screen, pending->0),
        !r.swapped ==> r.screen == screen && r.switch_module is None,
        r.running == (running && !complete),
        r.pending == (if r.swapped || (running && complete) {
            None
        } else {
            pending
        }),
{
    let mut out = TransitionTick { screen, pending, running, swapped: false, switch_module: None };
    if running && reached_hold {
        if let Some(target) = pending {
            let switch = match screen {
                Screen::ModuleSelect { selected_idx } => {
                    if matches!(target, Screen::Menu) || matches!(target, Screen::ModalitySelect { .. }) {
                        Some(module_for_select_index(selected_idx))
                    } else {
                        None
                    }
                },
                _ => None,
            };
            out = TransitionTick { screen: target, pending: None, running, swapped: true, switch_module: switch };
        }
    }
    if running && complete {
        out.running = false;
        out.pending = None;
    }
    out
}

/// What a frame of the championship standings asks for, in order.
#[derive(Debug, Clone, Copy, PartialEq, Eq, Structural)]
pub enum StandingsAction {
    /// Move on to the next round (see `advance_championship_round`).
    NextRound,
    /// Cancel the latest round and run it again; without a round to cancel
    /// the frame goes on with the next action.
    RerunRound,
    /// Leave the standings (see `standings_exit`).
    Leave,
}

/// One frame of the championship standings: confirming moves on to the
/// next round, R (gamepad Y) runs the latest round again, back leaves.
pub fn standings_frame(confirm: bool, rerun: bool, back: bool) -> (r: Vec<StandingsAction>)
    ensures
        r@ == ({
            let a1: Seq<StandingsAction> = if confirm {
                seq![StandingsAction::NextRound]
            } else {
                Seq::empty()
            };
            let a2 = if rerun {
                a1.push(StandingsAction::RerunRound)
            } else {
                a1
            };
            if back {
                a2.push(StandingsAction::Leave)
            } else {
                a2
            }
        }),
{
    let mut v: Vec<StandingsAction> = Vec::new();
    if confirm {
        v.push(StandingsAction::NextRound);
    }
    if rerun {
        v.push(StandingsAction::RerunRound);
    }
    if back {
        v.push(StandingsAction::Leave);
    }
    v
}

/// Screen reached when the championship standings are left: the career
/// hub of a GT career (tier from the career level, slot at the round), else
/// the circuit menu.
pub fn standings_exit(mode: GameMode, module: ModuleId, career_level: u32, current_round: Option<usize>) -> (r:
    Screen)
    ensures
        mode is Career && module.is_gt_spec() ==> r == (Screen::CareerHub {
            selected_tier: hub_tier_spec(career_level),
            selected_slot: match current_round {
                Some(k) => k,
                None => 0,
            },
            showing_standings: false,
        }),
        !(mode is Career && module.is_gt_spec()) ==> r == Screen::Menu,
{
    if mode == GameMode::Career && module.is_gt() {
        career_hub_screen(career_level, current_round, false)
    } else {
        Screen::Menu
    }
}

/// Screen that opened the circuit viewer.
#[derive(Debug, Clone, Copy, PartialEq, Eq, Structural)]
pub enum ViewerOrigin {
    Menu,
    TrackManager,
    StartingGrid,
}

/// Where leaving the circuit viewer goes.
#[derive(Debug, Clone, Copy, PartialEq, Eq, Structural)]
pub enum ViewerExit {
    Goto(Screen),
    /// The circuit workshop, on the drafts when `drafts` holds (no circuits
    /// of the module but some drafts), else on the module's circuits.
    Workshop { drafts: bool },
}

/// Where leaving the circuit viewer goes: back to the menu, the Starting
/// Grid, or the workshop (on the drafts when the module has no circuits of
/// its own but drafts exist). A viewer that lost its circuit goes to the
/// menu, or to the grid when opened from it.
pub fn circuit_viewer_exit(origin: ViewerOrigin, viewer_open: bool, has_module_customs: bool, has_drafts: bool) -> (r:
    ViewerExit)
    ensures
        origin is Menu ==> r == ViewerExit::Goto(Screen::Menu),
        origin is StartingGrid ==> r == ViewerExit::Goto(Screen::StartingGrid),
        origin is TrackManager && viewer_open ==> r == (ViewerExit::Workshop {
            drafts: !has_module_customs && has_drafts,
        }),
        origin is TrackManager && !viewer_open ==> r == ViewerExit::Goto(Screen::Menu),
{
    match origin {
        ViewerOrigin::Menu => ViewerExit::Goto(Screen::Menu),
        ViewerOrigin::StartingGrid => ViewerExit::Goto(Screen::StartingGrid),
        ViewerOrigin::TrackManager => {
            if viewer_open {
                ViewerExit::Workshop { drafts: !has_module_customs && has_drafts }
            } else {
                ViewerExit::Goto(Screen::Menu)
            }
        },
    }
}

/// Assist profile to the right (`forward`: Arcade, Sport, Pro, Arcade) or
/// to the left of `p`, as the roster manager's assist field steps.
pub open spec fn assist_step_spec(p: AssistProfile, forward: bool) -> AssistProfile {
    if forward {
        match p {
            AssistProfile::Arcade => AssistProfile::Sport,
            AssistProfile::Sport => AssistProfile::Pro,
            AssistProfile::Pro => AssistProfile::Arcade,
        }
    } else {
        match p {
            AssistProfile::Arcade => AssistProfile::Pro,
            AssistProfile::Sport => AssistProfile::Arcade,
            AssistProfile::Pro => AssistProfile::Sport,
        }
    }
}

/// Steps the assist profile right (`forward`) or left.
pub fn assist_step(p: AssistProfile, forward: bool) -> (r: AssistProfile)
    ensures
        r == assist_step_spec(p, forward),
{
    if forward {
        match p {
            AssistProfile::Arcade => AssistProfile::Sport,
            AssistProfile::Sport => AssistProfile::Pro,
            AssistProfile::Pro => AssistProfile::Arcade,
        }
    } else {
        match p {
            AssistProfile::Arcade => AssistProfile::Pro,
            AssistProfile::Sport => AssistProfile::Arcade,
            AssistProfile::Pro => AssistProfile::Sport,
        }
    }
}

/// A step left undoes a step right, and the other way round.
pub proof fn lemma_assist_step_round_trip(p: AssistProfile)
    ensures
        assist_step_spec(assist_step_spec(p, true), false) == p,
        assist_step_spec(assist_step_spec(p, false), true) == p,
{
}

/// Most physics steps taken in one frame.
pub const MAX_SUBSTEPS: u64 = 8;

/// Physics steps of one frame and the time left over: with `acc` carried
/// over and a frame of `frame`, as many fixed steps of `step` as fit, at
/// most `MAX_SUBSTEPS`, and what remains for the next frame. All three are
/// in one time unit of the caller's choice.
pub fn fixed_substeps(acc: u64, frame: u64, step: u64) -> (r: (u64, u64))
    requires
        step > 0,
        acc + frame <= u64::MAX,
    ensures
        r.0 == (if (acc + frame) / (step as int) < MAX_SUBSTEPS {
            (acc + frame) / (step as int)
        } else {
            MAX_SUBSTEPS as int
        }),
        r.0 * step + r.1 == acc + frame,
        r.0 < MAX_SUBSTEPS ==> r.1 < step,
{
    let total = acc + frame;
    let mut left: u64 = total;
    let mut n: u64 = 0;
    while left >= step && n < MAX_SUBSTEPS
        invariant
            step > 0,
            n <= MAX_SUBSTEPS,
            n * step + left == total,
        decreases MAX_SUBSTEPS - n,
    {
        proof {
            assert((n + 1) * step == n * step + step) by (nonlinear_arith);
        }
        left = left - step;
        n = n + 1;
    }
    proof {
        let t = total as int;
        let st = step as int;
        let k = n as int;
        vstd::arithmetic::div_mod::lemma_fundamental_div_mod(t, st);
        vstd::arithmetic::div_mod::lemma_mod_bound(t, st);
        let q = t / st;
        let m = t % st;
        if n < MAX_SUBSTEPS {
            assert(q == k) by (nonlinear_arith)
                requires
                    k * st + left == t,
                    (left as int) < st,
                    left >= 0,
                    t == st * q + m,
                    0 <= m < st,
                    st > 0,
            ;
        } else {
            assert(q >= 8) by (nonlinear_arith)
                requires
                    k == 8,
                    k * st + left == t,
                    left >= 0,
                    t == st * q + m,
                    0 <= m < st,
                    st > 0,
            ;
        }
    }
    (n, left)
}

/// A frame's physics steps and leftover account for all the time carried
/// in: run after run, the steps taken and the time still carried always add
/// up to all the time that came in.
pub proof fn lemma_substeps_keep_time(acc: u64, f1: u64, f2: u64, step: u64, n1: u64, a1: u64, n2: u64, a2: u64)
    requires
        step > 0,
        n1 * step + a1 == acc + f1,
        n2 * step + a2 == a1 + f2,
    ensures
        (n1 + n2) * step + a2 == acc + f1 + f2,
{
    assert((n1 + n2) * step == n1 * step + n2 * step) by (nonlinear_arith);
}

/// Back steps the Finished screen toward the results: from the Hall of Fame
/// it shows the results table again (and stays on the screen); from the
/// results it leaves the screen.
pub proof fn lemma_back_steps_toward_results(s: FinishedScreen, c: FinishedContext)
    ensures
        !(s.view is Statistics) && (s.view is HallOfFame || s.show_hall_of_fame) ==> ({
            let (t, a) = finished_step_spec(s, FinishedInput::Back, c);
            &&& t.view is Results
            &&& !t.show_hall_of_fame
            &&& t.prev_view == s.prev_view
            &&& a is Stay
        }),
        s.view is Results && !s.show_hall_of_fame ==> finished_step_spec(s, FinishedInput::Back, c).1 is Leave,
{
}

/// In a race outside a championship, confirming the results shows the Hall
/// of Fame, and Back from there shows the results again.
pub proof fn lemma_hall_of_fame_round_trip(s: FinishedScreen, c: FinishedContext)
    requires
        s.view is Results,
        !s.show_hall_of_fame,
        !c.in_championship,
    ensures
        ({
            let (h, a1) = finished_step_spec(s, FinishedInput::Confirm, c);
            let (r, a2) = finished_step_spec(h, FinishedInput::Back, c);
            &&& h.view is HallOfFame
            &&& a1 is Stay
            &&& r.view is Results
            &&& !r.show_hall_of_fame
            &&& a2 is Stay
            &&& r == s
        }),
{
}

/// The pause menu's focus stays put on a frame without hover or navigation;
/// Left then goes to Resume and Right to Exit, and an up or down key flips
/// whichever button it then is on.
pub proof fn lemma_pause_focus_moves(focused: usize, i: PauseInputs)
    requires
        focused <= 1,
    ensures
        !i.hover_resume && !i.hover_exit && !i.nav_left && !i.nav_right && !i.nav_vertical
            ==> pause_focus_spec(focused, i) == focused,
        i.nav_right && !i.nav_vertical ==> pause_focus_spec(focused, i) == 1,
        i.nav_left && !i.nav_right && !i.nav_vertical ==> pause_focus_spec(focused, i) == 0,
        pause_focus_spec(focused, PauseInputs { nav_vertical: true, ..i }) == 1 - pause_focus_spec(
            focused,
            PauseInputs { nav_vertical: false, ..i },
        ),
        pause_focus_spec(focused, i) <= 1,
{
}

} // verus!
