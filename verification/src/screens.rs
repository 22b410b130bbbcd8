//! Screen origins, the screen model of the session, and the small
//! navigation state machines (finished screen, pause menu, start countdown).
use vstd::prelude::*;

verus! {

/// Source screen that launched the DriverCards dossier view.
#[derive(Debug, Clone, Copy, PartialEq, Eq, Structural)]
pub enum DriverCardsOrigin {
    Menu,
    StartingGrid,
    Paused,
}

/// Source screen that launched the Garage showroom view.
#[derive(Debug, Clone, Copy, PartialEq, Eq, Structural)]
pub enum GarageOrigin {
    ModalitySelect,
    Menu,
    StartingGrid,
    CareerHub,
}

/// Source screen that launched the Profile Manager view.
#[derive(Debug, Clone, Copy, PartialEq, Eq, Structural)]
pub enum ProfileOrigin {
    Menu,
    ModuleSelect,
    ModalitySelect,
    StartingGrid,
}

impl Default for ProfileOrigin {
    fn default() -> (r: Self)
        ensures
            r == ProfileOrigin::Menu,
    {
        ProfileOrigin::Menu
    }
}

/// Source screen that launched the Track Studio editor.
#[derive(Debug, Clone, Copy, PartialEq, Eq, Structural)]
pub enum EditorOrigin {
    TrackManager,
    ModalitySelect,
    Menu,
}

impl Default for EditorOrigin {
    fn default() -> (r: Self)
        ensures
            r == EditorOrigin::TrackManager,
    {
        EditorOrigin::TrackManager
    }
}

/// Source screen that launched the Track Selection Menu / Circuit Explorer.
#[derive(Debug, Clone, Copy, PartialEq, Eq, Structural)]
pub enum MenuOrigin {
    ModalitySelect,
    StartingGrid,
}

impl Default for MenuOrigin {
    fn default() -> (r: Self)
        ensures
            r == MenuOrigin::ModalitySelect,
    {
        MenuOrigin::ModalitySelect
    }
}

/// Active view within the post-race Finished state.
#[derive(Debug, Clone, Copy, PartialEq, Eq, Structural)]
pub enum FinishedScreenView {
    Results,
    HallOfFame,
    Statistics,
}

impl Default for FinishedScreenView {
    fn default() -> (r: Self)
        ensures
            r == FinishedScreenView::Results,
    {
        FinishedScreenView::Results
    }
}

/// Category tab of the modality selection screen.
#[derive(Debug, Clone, Copy, PartialEq, Eq, Structural)]
pub enum ModalityCategory {
    SinglePlayer,
    Multiplayer,
    Options,
}

/// The screen the session shows: the game flow state, holding the plain
/// values that the navigation rules read and write.
#[derive(Debug, Clone, Copy, PartialEq, Eq, Structural)]
pub enum Screen {
    Menu,
    ModuleSelect { selected_idx: usize },
    ModalitySelect { category: ModalityCategory, selected_idx: usize },
    CareerHub { selected_tier: u32, selected_slot: usize, showing_standings: bool },
    CareerSelect { selected_idx: usize },
    Garage(GarageOrigin),
    CircuitViewer,
    ChampionshipStandings,
    StartingGrid,
    /// Start countdown, with the time left in milliseconds.
    Countdown(u64),
    Racing,
    Paused,
    Finished,
    /// Controls help; the flag records that it was opened from a race.
    ControlsHelp(bool),
    DriverCards(DriverCardsOrigin),
    ProfileManager { selected_idx: usize },
    PlayerRosterManager,
    ProfileCreate,
    TrackManager,
    TrackEditor,
    ChampionshipEditor,
}

/// Length of the start countdown that follows a restart, in milliseconds.
pub const RESTART_COUNTDOWN_MS: u64 = 3500;

/// True for the screens of a race underway (countdown, racing, paused).
pub open spec fn race_underway(s: Screen) -> bool {
    s is Racing || s is Paused || s is Countdown
}

impl Screen {
    /// Whether this screen belongs to a race underway (countdown, racing or paused).
    pub fn is_race_underway(&self) -> (r: bool)
        ensures
            r == race_underway(*self),
    {
        match self {
            Screen::Racing | Screen::Paused | Screen::Countdown(_) => true,
            _ => false,
        }
    }
}

/// Origin recorded when the driver dossier is opened from `from`.
pub open spec fn driver_cards_origin_spec(from: Screen) -> DriverCardsOrigin {
    if from is StartingGrid {
        DriverCardsOrigin::StartingGrid
    } else if race_underway(from) {
        DriverCardsOrigin::Paused
    } else {
        DriverCardsOrigin::Menu
    }
}

/// Origin recorded when the driver dossier is opened from the screen `from`.
pub fn driver_cards_origin(from: &Screen) -> (r: DriverCardsOrigin)
    ensures
        r == driver_cards_origin_spec(*from),
{
    match from {
        Screen::StartingGrid => DriverCardsOrigin::StartingGrid,
        Screen::Racing | Screen::Paused | Screen::Countdown(_) => DriverCardsOrigin::Paused,
        _ => DriverCardsOrigin::Menu,
    }
}

/// Whether the driver dossier may be opened from `from` (not from the garage,
/// the modality selection or the career hub).
pub fn driver_cards_available(from: &Screen) -> (r: bool)
    ensures
        r == !(from is Garage || from is ModalitySelect || from is CareerHub),
{
    match from {
        Screen::Garage(_) | Screen::ModalitySelect { .. } | Screen::CareerHub { .. } => false,
        _ => true,
    }
}

/// The controls help screen opened from `from`; it remembers whether a race was underway.
pub fn controls_help_for(from: &Screen) -> (r: Screen)
    ensures
        r == Screen::ControlsHelp(race_underway(*from)),
{
    Screen::ControlsHelp(from.is_race_underway())
}

impl DriverCardsOrigin {
    /// Screen the dossier returns to when it is closed.
    pub fn return_screen(self) -> (r: Screen)
        ensures
            self is StartingGrid ==> r == Screen::StartingGrid,
            self is Paused ==> r == Screen::Paused,
            self is Menu ==> r == Screen::Menu,
    {
        match self {
            DriverCardsOrigin::StartingGrid => Screen::StartingGrid,
            DriverCardsOrigin::Paused => Screen::Paused,
            DriverCardsOrigin::Menu => Screen::Menu,
        }
    }
}

/// Career tier shown by the career hub: the career level brought into 1..=5.
pub open spec fn hub_tier_spec(career_level: u32) -> u32 {
    if career_level < 1 {
        1
    } else if career_level > 5 {
        5
    } else {
        career_level
    }
}

/// Career tier shown by the career hub: the career level brought into 1..=5.
pub fn hub_tier(career_level: u32) -> (r: u32)
    ensures
        r == hub_tier_spec(career_level),
        1 <= r <= 5,
{
    if career_level < 1 {
        1
    } else if career_level > 5 {
        5
    } else {
        career_level
    }
}

/// The career hub opened after a race or from the garage: tier from the career
/// level, slot at the championship's current round (0 without a championship).
pub fn career_hub_screen(career_level: u32, current_round: Option<usize>, showing_standings: bool) -> (r:
    Screen)
    ensures
        r == (Screen::CareerHub {
            selected_tier: hub_tier_spec(career_level),
            selected_slot: match current_round {
                Some(k) => k,
                None => 0,
            },
            showing_standings,
        }),
{
    let slot = match current_round {
        Some(k) => k,
        None => 0,
    };
    Screen::CareerHub { selected_tier: hub_tier(career_level), selected_slot: slot, showing_standings }
}

/// What leaving the garage with Escape does.
#[derive(Debug, Clone, Copy, PartialEq, Eq, Structural)]
pub enum GarageExit {
    /// The fleet gallery was open: close it and stay in the garage.
    CloseGallery,
    /// Leave the garage for this screen.
    Goto(Screen),
}

impl GarageOrigin {
    /// Screen reached by leaving the garage with Escape.
    pub fn back(self, gallery_open: bool, career_level: u32, current_round: Option<usize>) -> (r:
        GarageExit)
        ensures
            gallery_open ==> r == GarageExit::CloseGallery,
            !gallery_open && self is ModalitySelect ==> r == GarageExit::Goto(
                Screen::ModalitySelect { category: ModalityCategory::Options, selected_idx: 1 },
            ),
            !gallery_open && self is Menu ==> r == GarageExit::Goto(Screen::Menu),
            !gallery_open && self is StartingGrid ==> r == GarageExit::Goto(Screen::StartingGrid),
            !gallery_open && self is CareerHub ==> r == GarageExit::Goto(
                Screen::CareerHub {
                    selected_tier: hub_tier_spec(career_level),
                    selected_slot: match current_round {
                        Some(k) => k,
                        None => 0,
                    },
                    showing_standings: false,
                },
            ),
    {
        if gallery_open {
            return GarageExit::CloseGallery;
        }
        match self {
            GarageOrigin::ModalitySelect => GarageExit::Goto(
                Screen::ModalitySelect { category: ModalityCategory::Options, selected_idx: 1 },
            ),
            GarageOrigin::Menu => GarageExit::Goto(Screen::Menu),
            GarageOrigin::StartingGrid => GarageExit::Goto(Screen::StartingGrid),
            GarageOrigin::CareerHub => GarageExit::Goto(
                career_hub_screen(career_level, current_round, false),
            ),
        }
    }

    /// Screen reached after a car has been chosen in the garage; `None` keeps
    /// the garage open (when it was opened from the modality selection).
    pub fn after_selection(self, career_level: u32, current_round: Option<usize>) -> (r: Option<
        Screen,
    >)
        ensures
            self is ModalitySelect ==> r is None,
            self is Menu ==> r == Some(Screen::Menu),
            self is StartingGrid ==> r == Some(Screen::StartingGrid),
            self is CareerHub ==> r == Some(
                Screen::CareerHub {
                    selected_tier: hub_tier_spec(career_level),
                    selected_slot: match current_round {
                        Some(k) => k,
                        None => 0,
                    },
                    showing_standings: false,
                },
            ),
    {
        match self {
            GarageOrigin::ModalitySelect => None,
            GarageOrigin::Menu => Some(Screen::Menu),
            GarageOrigin::StartingGrid => Some(Screen::StartingGrid),
            GarageOrigin::CareerHub => Some(career_hub_screen(career_level, current_round, false)),
        }
    }
}

impl ProfileOrigin {
    /// Screen reached by leaving the profile manager, and whether the starting
    /// grid roster must be rebuilt first (it must when returning to the grid).
    pub fn back(self) -> (r: (Screen, bool))
        ensures
            self is ModalitySelect ==> r == (
                Screen::ModalitySelect { category: ModalityCategory::Options, selected_idx: 0 },
                false,
            ),
            self is ModuleSelect ==> r == (Screen::ModuleSelect { selected_idx: 0 }, false),
            self is Menu ==> r == (Screen::Menu, false),
            self is StartingGrid ==> r == (Screen::StartingGrid, true),
    {
        match self {
            ProfileOrigin::ModalitySelect => (
                Screen::ModalitySelect { category: ModalityCategory::Options, selected_idx: 0 },
                false,
            ),
            ProfileOrigin::ModuleSelect => (Screen::ModuleSelect { selected_idx: 0 }, false),
            ProfileOrigin::Menu => (Screen::Menu, false),
            ProfileOrigin::StartingGrid => (Screen::StartingGrid, true),
        }
    }
}

} // verus!
