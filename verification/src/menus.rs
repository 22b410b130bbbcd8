//! The menus before a race: the module hub, the modality selection and the
//! circuit menu, each as a function from state and input to new state and
//! the action asked for.
use vstd::prelude::*;
use crate::lobby::{cycle_index, wrap_next_spec};
use crate::modules::{ModuleId, module_for_select_index_spec};
use crate::roster::GameMode;
use crate::screens::{MenuOrigin, ModalityCategory, Screen};

verus! {

/// Entries of the module hub: the player badge (0) and the six modules.
pub const HUB_ENTRIES: usize = 7;

/// Hub entry of a module: Classic 1, Rally 2, Kart 3, GT 4, NASCAR 5,
/// Extreme Off-Road 6 (anything else 1).
pub open spec fn module_select_index_spec(m: ModuleId) -> usize {
    match m {
        ModuleId::Rally => 2,
        ModuleId::Kart => 3,
        ModuleId::Gt | ModuleId::GtChallenge => 4,
        ModuleId::Nascar => 5,
        ModuleId::ExtremeOffroad => 6,
        _ => 1,
    }
}

/// Hub entry of a module: Classic 1, Rally 2, Kart 3, GT 4, NASCAR 5,
/// Extreme Off-Road 6 (anything else 1).
pub fn module_select_index(m: ModuleId) -> (r: usize)
    ensures
        r == module_select_index_spec(m),
        1 <= r < HUB_ENTRIES,
{
    match m {
        ModuleId::Rally => 2,
        ModuleId::Kart => 3,
        ModuleId::Gt | ModuleId::GtChallenge => 4,
        ModuleId::Nascar => 5,
        ModuleId::ExtremeOffroad => 6,
        _ => 1,
    }
}

/// Going back to the hub selects the active module's entry, and selecting
/// that entry activates the same module again (the GT alias comes back as GT).
pub proof fn lemma_hub_entry_round_trip(m: ModuleId, idx: usize)
    ensures
        m != ModuleId::GtChallenge && m != ModuleId::Other ==> module_for_select_index_spec(
            module_select_index_spec(m),
        ) == m,
        m == ModuleId::GtChallenge ==> module_for_select_index_spec(module_select_index_spec(m))
            == ModuleId::Gt,
        1 <= idx <= 6 ==> module_select_index_spec(module_for_select_index_spec(idx)) == idx,
{
}

/// Entry above `idx` in a list of `len` (`len > 0`), from the first round to the last.
pub open spec fn wrap_up_spec(idx: usize, len: usize) -> usize {
    if idx == 0 {
        (len - 1) as usize
    } else {
        (idx - 1) as usize
    }
}

/// What the player did on the module hub during one frame.
#[derive(Debug, Clone, Copy, PartialEq, Eq, Structural)]
pub struct HubInput {
    pub nav_up: bool,
    pub nav_down: bool,
    /// Entry clicked: the badge (0) or a module card (1 to 6).
    pub click: Option<usize>,
    /// Enter, Space, keypad Enter, gamepad confirm or A.
    pub confirm: bool,
    /// P or gamepad Y.
    pub profile: bool,
    /// N or gamepad X.
    pub new_profile: bool,
    /// The X key.
    pub settings: bool,
    /// The K key.
    pub controls: bool,
    /// Escape, gamepad cancel, B or back.
    pub back: bool,
}

/// What a frame of the module hub asks for.
#[derive(Debug, Clone, Copy, PartialEq, Eq, Structural)]
pub enum HubAction {
    OpenProfile,
    /// Go to the modality selection (first card of single player); the
    /// module of the selected entry is activated by the transition.
    OpenModalities,
    NewProfile,
    OpenSettings,
    OpenControls,
    /// Ask whether to quit the game.
    AskExit,
}

/// Selected entry after a frame of the module hub.
pub open spec fn hub_selection(idx: usize, i: HubInput) -> usize {
    let a = if i.nav_up {
        wrap_up_spec(idx, HUB_ENTRIES)
    } else {
        idx
    };
    let b = if i.nav_down {
        wrap_next_spec(a as int, HUB_ENTRIES as int) as usize
    } else {
        a
    };
    match i.click {
        Some(k) => if k < HUB_ENTRIES {
            k
        } else {
            b
        },
        None => b,
    }
}

/// One frame of the module hub: Up and Down move round the seven entries, a
/// click selects and confirms; confirming opens the profile on the badge and
/// the modality selection on a module; then the shortcuts (profile, new
/// profile, settings, controls, exit) in that order.
pub fn hub_frame(idx: usize, i: HubInput) -> (r: (usize, Option<HubAction>))
    ensures
        r.0 == hub_selection(idx, i),
        ({
            let clicked = i.click matches Some(k) && k < HUB_ENTRIES;
            let sel = hub_selection(idx, i);
            r.1 == (if i.confirm || clicked {
                if sel == 0 {
                    Some(HubAction::OpenProfile)
                } else {
                    Some(HubAction::OpenModalities)
                }
            } else if i.profile {
                Some(HubAction::OpenProfile)
            } else if i.new_profile {
                Some(HubAction::NewProfile)
            } else if i.settings {
                Some(HubAction::OpenSettings)
            } else if i.controls {
                Some(HubAction::OpenControls)
            } else if i.back {
                Some(HubAction::AskExit)
            } else {
                None
            })
        }),
{
    let mut sel = idx;
    if i.nav_up {
        sel = if sel == 0 {
            HUB_ENTRIES - 1
        } else {
            sel - 1
        };
    }
    if i.nav_down {
        sel = cycle_index(sel, HUB_ENTRIES, true);
    }
    let mut clicked = false;
    if let Some(k) = i.click {
        if k < HUB_ENTRIES {
            sel = k;
            clicked = true;
        }
    }
    let act = if i.confirm || clicked {
        if sel == 0 {
            Some(HubAction::OpenProfile)
        } else {
            Some(HubAction::OpenModalities)
        }
    } else if i.profile {
        Some(HubAction::OpenProfile)
    } else if i.new_profile {
        Some(HubAction::NewProfile)
    } else if i.settings {
        Some(HubAction::OpenSettings)
    } else if i.controls {
        Some(HubAction::OpenControls)
    } else if i.back {
        Some(HubAction::AskExit)
    } else {
        None
    };
    (sel, act)
}

/// Category to the right (Tab, Right): single player, multiplayer,
/// options, then single player again.
pub open spec fn category_next_spec(c: ModalityCategory) -> ModalityCategory {
    match c {
        ModalityCategory::SinglePlayer => ModalityCategory::Multiplayer,
        ModalityCategory::Multiplayer => ModalityCategory::Options,
        ModalityCategory::Options => ModalityCategory::SinglePlayer,
    }
}

/// Category to the left (Left): the reverse of `category_next_spec`.
pub open spec fn category_prev_spec(c: ModalityCategory) -> ModalityCategory {
    match c {
        ModalityCategory::SinglePlayer => ModalityCategory::Options,
        ModalityCategory::Multiplayer => ModalityCategory::SinglePlayer,
        ModalityCategory::Options => ModalityCategory::Multiplayer,
    }
}

/// Category to the right (`forward`) or to the left of `c`.
pub fn category_step(c: ModalityCategory, forward: bool) -> (r: ModalityCategory)
    ensures
        forward ==> r == category_next_spec(c),
        !forward ==> r == category_prev_spec(c),
{
    if forward {
        match c {
            ModalityCategory::SinglePlayer => ModalityCategory::Multiplayer,
            ModalityCategory::Multiplayer => ModalityCategory::Options,
            ModalityCategory::Options => ModalityCategory::SinglePlayer,
        }
    } else {
        match c {
            ModalityCategory::SinglePlayer => ModalityCategory::Options,
            ModalityCategory::Multiplayer => ModalityCategory::SinglePlayer,
            ModalityCategory::Options => ModalityCategory::Multiplayer,
        }
    }
}

/// Left undoes Right, and three steps either way come back to the start.
pub proof fn lemma_category_cycle(c: ModalityCategory)
    ensures
        category_prev_spec(category_next_spec(c)) == c,
        category_next_spec(category_prev_spec(c)) == c,
        category_next_spec(category_next_spec(category_next_spec(c))) == c,
{
}

/// Card of the modality selection.
#[derive(Debug, Clone, Copy, PartialEq, Eq, Structural)]
pub enum ModalityItem {
    QuickRace,
    CustomRace,
    CareerMode,
    TimeTrial,
    FreeRide,
    SplitScreen,
    LanPlay,
    CloudPlay,
    PlayerProfile,
    Garage,
    TrackEditor,
    SeriesEditor,
    Settings,
}

/// What choosing a modality card does.
#[derive(Debug, Clone, Copy, PartialEq, Eq, Structural)]
pub enum ModalityEffect {
    /// Go to the circuit menu in this mode; `free_car` lets the player pick
    /// any car, `time_attack` races alone, and `no_bots` empties the grid.
    Race { mode: GameMode, free_car: bool, time_attack: bool, no_bots: bool },
    CareerSelect,
    /// Show a notice that this way of playing is not available yet.
    ComingSoon,
    OpenProfile,
    OpenGarage,
    OpenTrackEditor,
    OpenSeriesEditor,
    OpenSettings,
}

/// What choosing a modality card does: the race cards set the mode (quick
/// race with the preset car; custom race, time trial, free ride and split
/// screen with a free car choice; time trial and free ride alone on track),
/// career opens the career selection, network play shows a notice, and the
/// option cards open their screens.
pub fn modality_item_effect(item: ModalityItem) -> (r: ModalityEffect)
    ensures
        r == (match item {
            ModalityItem::QuickRace => ModalityEffect::Race {
                mode: GameMode::StandardRace,
                free_car: false,
                time_attack: false,
                no_bots: false,
            },
            ModalityItem::CustomRace => ModalityEffect::Race {
                mode: GameMode::ExperimentalRace,
                free_car: true,
                time_attack: false,
                no_bots: false,
            },
            ModalityItem::TimeTrial => ModalityEffect::Race {
                mode: GameMode::TimeTrial,
                free_car: true,
                time_attack: true,
                no_bots: true,
            },
            ModalityItem::FreeRide => ModalityEffect::Race {
                mode: GameMode::FreeRide,
                free_car: true,
                time_attack: true,
                no_bots: true,
            },
            ModalityItem::SplitScreen => ModalityEffect::Race {
                mode: GameMode::SplitScreen,
                free_car: true,
                time_attack: false,
                no_bots: false,
            },
            ModalityItem::CareerMode => ModalityEffect::CareerSelect,
            ModalityItem::LanPlay | ModalityItem::CloudPlay => ModalityEffect::ComingSoon,
            ModalityItem::PlayerProfile => ModalityEffect::OpenProfile,
            ModalityItem::Garage => ModalityEffect::OpenGarage,
            ModalityItem::TrackEditor => ModalityEffect::OpenTrackEditor,
            ModalityItem::SeriesEditor => ModalityEffect::OpenSeriesEditor,
            ModalityItem::Settings => ModalityEffect::OpenSettings,
        }),
{
    match item {
        ModalityItem::QuickRace => ModalityEffect::Race {
            mode: GameMode::StandardRace,
            free_car: false,
            time_attack: false,
            no_bots: false,
        },
        ModalityItem::CustomRace => ModalityEffect::Race {
            mode: GameMode::ExperimentalRace,
            free_car: true,
            time_attack: false,
            no_bots: false,
        },
        ModalityItem::TimeTrial => ModalityEffect::Race {
            mode: GameMode::TimeTrial,
            free_car: true,
            time_attack: true,
            no_bots: true,
        },
        ModalityItem::FreeRide => ModalityEffect::Race {
            mode: GameMode::FreeRide,
            free_car: true,
            time_attack: true,
            no_bots: true,
        },
        ModalityItem::SplitScreen => ModalityEffect::Race {
            mode: GameMode::SplitScreen,
            free_car: true,
            time_attack: false,
            no_bots: false,
        },
        ModalityItem::CareerMode => ModalityEffect::CareerSelect,
        ModalityItem::LanPlay | ModalityItem::CloudPlay => ModalityEffect::ComingSoon,
        ModalityItem::PlayerProfile => ModalityEffect::OpenProfile,
        ModalityItem::Garage => ModalityEffect::OpenGarage,
        ModalityItem::TrackEditor => ModalityEffect::OpenTrackEditor,
        ModalityItem::SeriesEditor => ModalityEffect::OpenSeriesEditor,
        ModalityItem::Settings => ModalityEffect::OpenSettings,
    }
}

/// Navigation state of the modality selection.
#[derive(Debug, Clone, Copy, PartialEq, Eq, Structural)]
pub struct ModalityNav {
    pub category: ModalityCategory,
    pub selected_idx: usize,
    /// A "coming soon" notice is shown over the cards.
    pub notice: bool,
}

/// What the player did on the modality selection during one frame.
#[derive(Debug, Clone, Copy, PartialEq, Eq, Structural)]
pub struct ModalityInput {
    /// Any confirm or back key (Escape, Enter, Space, keypad Enter, gamepad
    /// confirm, A, B or back): dismisses a notice.
    pub dismiss: bool,
    pub key_g: bool,
    /// P or gamepad Y.
    pub profile: bool,
    pub key_e: bool,
    pub key_c: bool,
    pub key_x: bool,
    /// Category tab clicked.
    pub click_tab: Option<ModalityCategory>,
    /// Number keys 1, 2, 3: single player, multiplayer, options.
    pub digit: Option<ModalityCategory>,
    /// Tab, Right, D, gamepad right or RB.
    pub next_category: bool,
    /// Left, A, gamepad left or LB.
    pub prev_category: bool,
    pub nav_up: bool,
    pub nav_down: bool,
    /// Card clicked.
    pub click_card: Option<usize>,
    /// Enter, Space, keypad Enter, gamepad confirm or A.
    pub confirm: bool,
    /// Escape, gamepad B or back.
    pub back: bool,
}

/// Number of cards in each category.
#[derive(Debug, Clone, Copy, PartialEq, Eq, Structural)]
pub struct ModalityCards {
    pub single_player: usize,
    pub multiplayer: usize,
    pub options: usize,
}

/// Number of cards in category `c`.
pub open spec fn cards_in(k: ModalityCards, c: ModalityCategory) -> usize {
    match c {
        ModalityCategory::SinglePlayer => k.single_player,
        ModalityCategory::Multiplayer => k.multiplayer,
        ModalityCategory::Options => k.options,
    }
}

/// What a frame of the modality selection asks for.
#[derive(Debug, Clone, Copy, PartialEq, Eq, Structural)]
pub enum ModalityAction {
    OpenGarage,
    OpenProfile,
    OpenTrackEditor,
    OpenSeriesEditor,
    OpenSettings,
    /// Choose the card at this position of the current category (see
    /// `modality_item_effect`).
    Choose(usize),
    /// Go back to the module hub, on the active module's entry.
    BackToHub,
}

/// Category and card after the category keys: a click or a number key
/// opens its category (first card) unless already shown; otherwise Right and
/// Left move to the next or previous category (first card).
pub open spec fn modality_category_stage(s: ModalityNav, i: ModalityInput) -> ModalityNav {
    let s1 = match i.click_tab {
        Some(c) => if c != s.category {
            ModalityNav { category: c, selected_idx: 0, ..s }
        } else {
            s
        },
        None => s,
    };
    match i.digit {
        Some(c) => if c != s1.category {
            ModalityNav { category: c, selected_idx: 0, ..s1 }
        } else {
            s1
        },
        None => if i.next_category {
            ModalityNav { category: category_next_spec(s1.category), selected_idx: 0, ..s1 }
        } else if i.prev_category {
            ModalityNav { category: category_prev_spec(s1.category), selected_idx: 0, ..s1 }
        } else {
            s1
        },
    }
}

/// One frame of the modality selection, as a function of the state, the
/// input and the number of cards of each category.
pub open spec fn modality_frame_spec(s: ModalityNav, i: ModalityInput, k: ModalityCards) -> (
    ModalityNav,
    Option<ModalityAction>,
) {
    if s.notice {
        (ModalityNav { notice: !i.dismiss, ..s }, None)
    } else if i.key_g {
        (s, Some(ModalityAction::OpenGarage))
    } else if i.profile {
        (s, Some(ModalityAction::OpenProfile))
    } else if i.key_e {
        (s, Some(ModalityAction::OpenTrackEditor))
    } else if i.key_c {
        (s, Some(ModalityAction::OpenSeriesEditor))
    } else if i.key_x {
        (s, Some(ModalityAction::OpenSettings))
    } else {
        let s1 = modality_category_stage(s, i);
        let len = cards_in(k, s1.category);
        let a = if i.nav_up {
            if s1.selected_idx == 0 {
                if len > 0 {
                    (len - 1) as usize
                } else {
                    0
                }
            } else {
                (s1.selected_idx - 1) as usize
            }
        } else {
            s1.selected_idx
        };
        let b = if i.nav_down && len > 0 {
            wrap_next_spec(a as int, len as int) as usize
        } else {
            a
        };
        let (c, clicked) = match i.click_card {
            Some(j) => if j < len {
                (j, true)
            } else {
                (b, false)
            },
            None => (b, false),
        };
        let s2 = ModalityNav { selected_idx: c, ..s1 };
        if (i.confirm || clicked) && c < len {
            (s2, Some(ModalityAction::Choose(c)))
        } else if i.back {
            (s2, Some(ModalityAction::BackToHub))
        } else {
            (s2, None)
        }
    }
}

/// One frame of the modality selection: a notice is dismissed by any confirm
/// or back key and blocks everything else; then the shortcuts (garage,
/// profile, track editor, series editor, settings); then the category keys,
/// Up and Down round the cards, a card click selects and confirms, confirming
/// chooses the selected card, and back returns to the hub.
pub fn modality_frame(s: ModalityNav, i: ModalityInput, k: ModalityCards) -> (r: (
    ModalityNav,
    Option<ModalityAction>,
))
    ensures
        r == modality_frame_spec(s, i, k),
{
    if s.notice {
        return (ModalityNav { notice: !i.dismiss, ..s }, None);
    }
    if i.key_g {
        return (s, Some(ModalityAction::OpenGarage));
    }
    if i.profile {
        return (s, Some(ModalityAction::OpenProfile));
    }
    if i.key_e {
        return (s, Some(ModalityAction::OpenTrackEditor));
    }
    if i.key_c {
        return (s, Some(ModalityAction::OpenSeriesEditor));
    }
    if i.key_x {
        return (s, Some(ModalityAction::OpenSettings));
    }
    let mut n = s;
    if let Some(c) = i.click_tab {
        if c != n.category {
            n.category = c;
            n.selected_idx = 0;
        }
    }
    match i.digit {
        Some(c) => {
            if c != n.category {
                n.category = c;
                n.selected_idx = 0;
            }
        },
        None => {
            if i.next_category {
                n.category = category_step(n.category, true);
                n.selected_idx = 0;
            } else if i.prev_category {
                n.category = category_step(n.category, false);
                n.selected_idx = 0;
            }
        },
    }
    let len = match n.category {
        ModalityCategory::SinglePlayer => k.single_player,
        ModalityCategory::Multiplayer => k.multiplayer,
        ModalityCategory::Options => k.options,
    };
    if i.nav_up {
        n.selected_idx = if n.selected_idx == 0 {
            if len > 0 {
                len - 1
            } else {
                0
            }
        } else {
            n.selected_idx - 1
        };
    }
    if i.nav_down && len > 0 {
        n.selected_idx = cycle_index(n.selected_idx, len, true);
    }
    let mut clicked = false;
    if let Some(j) = i.click_card {
        if j < len {
            n.selected_idx = j;
            clicked = true;
        }
    }
    if (i.confirm || clicked) && n.selected_idx < len {
        (n, Some(ModalityAction::Choose(n.selected_idx)))
    } else if i.back {
        (n, Some(ModalityAction::BackToHub))
    } else {
        (n, None)
    }
}

/// The module hub reached by going back from the modality selection, on
/// the entry of the active module.
pub fn modality_back_screen(active: ModuleId) -> (r: Screen)
    ensures
        r == (Screen::ModuleSelect { selected_idx: module_select_index_spec(active) }),
{
    Screen::ModuleSelect { selected_idx: module_select_index(active) }
}

/// Screen reached by going back from the circuit menu, and whether the
/// change fades: the Starting Grid when the menu was opened from it, else the
/// modality selection on the card of the current mode (no fade to the grid).
pub fn menu_back_target(origin: MenuOrigin, mode: GameMode) -> (r: (Screen, bool))
    ensures
        origin is StartingGrid ==> r == (Screen::StartingGrid, false),
        !(origin is StartingGrid) ==> r == (
            Screen::ModalitySelect {
                category: if mode is SplitScreen {
                    ModalityCategory::Multiplayer
                } else {
                    ModalityCategory::SinglePlayer
                },
                selected_idx: match mode {
                    GameMode::StandardRace => 0,
                    GameMode::ExperimentalRace => 1,
                    GameMode::Career => 2,
                    GameMode::TimeTrial => 3,
                    GameMode::FreeRide => 4,
                    GameMode::SplitScreen => 0,
                },
            },
            true,
        ),
{
    if origin == MenuOrigin::StartingGrid {
        return (Screen::StartingGrid, false);
    }
    let category = match mode {
        GameMode::SplitScreen => ModalityCategory::Multiplayer,
        _ => ModalityCategory::SinglePlayer,
    };
    let idx: usize = match mode {
        GameMode::StandardRace => 0,
        GameMode::ExperimentalRace => 1,
        GameMode::Career => 2,
        GameMode::TimeTrial => 3,
        GameMode::FreeRide => 4,
        GameMode::SplitScreen => 0,
    };
    (Screen::ModalitySelect { category, selected_idx: idx }, true)
}

/// What the player did on the circuit menu during one frame.
#[derive(Debug, Clone, Copy, PartialEq, Eq, Structural)]
pub struct TrackMenuInput {
    pub key_o: bool,
    pub key_g: bool,
    /// Escape, Tab, gamepad cancel, B or back.
    pub back: bool,
    pub key_k: bool,
    pub key_f: bool,
    pub key_t: bool,
    /// P or gamepad Y.
    pub profile: bool,
    /// Left, A, or a gamepad left.
    pub nav_left: bool,
    /// Right, D, or a gamepad right.
    pub nav_right: bool,
    /// Up, W, or a gamepad up.
    pub nav_up: bool,
    /// Down or a gamepad down.
    pub nav_down: bool,
    pub key_v: bool,
    /// F12, or Ctrl and D.
    pub workbench: bool,
    /// X, Z, gamepad X, or a click on the circuit preview.
    pub view: bool,
    /// Space, Enter, keypad Enter, gamepad confirm or A.
    pub confirm: bool,
}

/// What the circuit menu shows and allows.
#[derive(Debug, Clone, Copy, PartialEq, Eq, Structural)]
pub struct TrackMenuContext {
    pub module: ModuleId,
    /// Circuits listed under the current filter.
    pub num_tracks: usize,
    /// The custom filter is shown: an extra entry after the circuits opens the workshop.
    pub custom_filter: bool,
    pub dev_mode: bool,
}

/// What a frame of the circuit menu asks for, in order.
#[derive(Debug, Clone, Copy, PartialEq, Eq, Structural)]
pub enum TrackMenuAction {
    OpenSettings,
    OpenGarage,
    /// Leave the menu (see `menu_back_target`).
    Back,
    OpenControls,
    /// Start this module's championship (GT, NASCAR or Extreme Off-Road).
    StartChampionship(ModuleId),
    /// Start a race at once on the selected circuit (Rally and Kart).
    QuickRace,
    OpenWorkshop,
    OpenProfile,
    /// Show the previous (`false`) or next catalog filter.
    CycleFilter(bool),
    CycleVolume,
    OpenWorkbench,
    /// Open the circuit viewer on this entry; when the circuit cannot be
    /// loaded the frame goes on with the next action.
    ViewCircuit(usize),
    /// Race on this entry (see `menu_confirm_track`).
    ConfirmTrack(usize),
}

/// Championship started by F in the circuit menu for a module, if any.
pub open spec fn championship_of(m: ModuleId) -> Option<ModuleId> {
    match m {
        ModuleId::Gt | ModuleId::GtChallenge => Some(ModuleId::Gt),
        ModuleId::Nascar => Some(ModuleId::Nascar),
        ModuleId::ExtremeOffroad => Some(ModuleId::ExtremeOffroad),
        _ => None,
    }
}

/// Entry of the circuit menu after the list check and the cursor keys.
pub open spec fn track_menu_cursor(idx: usize, i: TrackMenuInput, c: TrackMenuContext) -> usize {
    let total = if c.custom_filter {
        c.num_tracks + 1
    } else {
        c.num_tracks as int
    };
    let a: usize = if total == 0 || idx >= total {
        0
    } else {
        idx
    };
    let b: usize = if i.nav_left || i.nav_right {
        0
    } else {
        a
    };
    let d: usize = if total > 0 && i.nav_up {
        if b == 0 {
            (total - 1) as usize
        } else {
            (b - 1) as usize
        }
    } else {
        b
    };
    if total > 0 && i.nav_down {
        wrap_next_spec(d as int, total) as usize
    } else {
        d
    }
}

/// Actions asked for after the cursor keys, with the cursor at `sel`.
pub open spec fn track_menu_tail(sel: usize, i: TrackMenuInput, c: TrackMenuContext) -> Seq<
    TrackMenuAction,
> {
    let a1: Seq<TrackMenuAction> = if i.nav_left {
        seq![TrackMenuAction::CycleFilter(false)]
    } else {
        Seq::empty()
    };
    let a2 = if i.nav_right {
        a1.push(TrackMenuAction::CycleFilter(true))
    } else {
        a1
    };
    if i.key_f && championship_of(c.module) is Some {
        a2.push(TrackMenuAction::StartChampionship(championship_of(c.module)->0))
    } else if i.key_f && (c.module is Rally || c.module is Kart) {
        a2.push(TrackMenuAction::QuickRace)
    } else {
        let a3 = if i.key_v {
            a2.push(TrackMenuAction::CycleVolume)
        } else {
            a2
        };
        if c.dev_mode && i.workbench {
            a3.push(TrackMenuAction::OpenWorkbench)
        } else {
            let a4 = if i.view && sel < c.num_tracks {
                a3.push(TrackMenuAction::ViewCircuit(sel))
            } else {
                a3
            };
            if i.confirm && sel < c.num_tracks {
                a4.push(TrackMenuAction::ConfirmTrack(sel))
            } else if i.confirm && c.custom_filter {
                a4.push(TrackMenuAction::OpenWorkshop)
            } else {
                a4
            }
        }
    }
}

/// One frame of the circuit menu, as a function of the selected entry, the
/// input and what the menu shows.
pub open spec fn track_menu_frame_spec(idx: usize, i: TrackMenuInput, c: TrackMenuContext) -> (
    usize,
    Seq<TrackMenuAction>,
) {
    if i.key_o {
        (idx, seq![TrackMenuAction::OpenSettings])
    } else if i.key_g {
        (idx, seq![TrackMenuAction::OpenGarage])
    } else if i.back {
        (idx, seq![TrackMenuAction::Back])
    } else if i.key_k {
        (idx, seq![TrackMenuAction::OpenControls])
    } else if i.key_f && (c.module is Gt || c.module is Nascar || c.module is ExtremeOffroad) {
        (idx, seq![TrackMenuAction::StartChampionship(c.module)])
    } else if i.key_t {
        (idx, seq![TrackMenuAction::OpenWorkshop])
    } else if i.profile {
        (idx, seq![TrackMenuAction::OpenProfile])
    } else {
        let sel = track_menu_cursor(idx, i, c);
        (sel, track_menu_tail(sel, i, c))
    }
}

/// One frame of the circuit menu: the shortcuts that leave it (settings,
/// garage, back, controls, championship, workshop, profile); then the cursor
/// is brought back onto the list, Left and Right change the catalog filter
/// (back to the first entry), Up and Down move round the entries; then F
/// starts the module's championship or a quick race, V changes the volume,
/// the workbench opens in developer mode, and viewing and confirming act on
/// the selected circuit (confirming the entry after the circuits opens the
/// workshop). The list sizes are those at the start of the frame.
pub fn track_menu_frame(idx: usize, i: TrackMenuInput, c: TrackMenuContext) -> (r: (
    usize,
    Vec<TrackMenuAction>,
))
    requires
        c.num_tracks < usize::MAX,
    ensures
        r.0 == track_menu_frame_spec(idx, i, c).0,
        r.1@ == track_menu_frame_spec(idx, i, c).1,
{
    let mut acts: Vec<TrackMenuAction> = Vec::new();
    if i.key_o {
        acts.push(TrackMenuAction::OpenSettings);
        return (idx, acts);
    }
    if i.key_g {
        acts.push(TrackMenuAction::OpenGarage);
        return (idx, acts);
    }
    if i.back {
        acts.push(TrackMenuAction::Back);
        return (idx, acts);
    }
    if i.key_k {
        acts.push(TrackMenuAction::OpenControls);
        return (idx, acts);
    }
    if i.key_f && (c.module == ModuleId::Gt || c.module == ModuleId::Nascar || c.module
        == ModuleId::ExtremeOffroad) {
        acts.push(TrackMenuAction::StartChampionship(c.module));
        return (idx, acts);
    }
    if i.key_t {
        acts.push(TrackMenuAction::OpenWorkshop);
        return (idx, acts);
    }
    if i.profile {
        acts.push(TrackMenuAction::OpenProfile);
        return (idx, acts);
    }
    let total: usize = if c.custom_filter {
        c.num_tracks + 1
    } else {
        c.num_tracks
    };
    let mut sel = if total == 0 || idx >= total {
        0
    } else {
        idx
    };
    if i.nav_left {
        acts.push(TrackMenuAction::CycleFilter(false));
        sel = 0;
    }
    if i.nav_right {
        acts.push(TrackMenuAction::CycleFilter(true));
        sel = 0;
    }
    if total > 0 {
        if i.nav_up {
            sel = if sel == 0 {
                total - 1
            } else {
                sel - 1
            };
        }
        if i.nav_down {
            sel = cycle_index(sel, total, true);
        }
    }
    if i.key_f {
        match c.module {
            ModuleId::Gt | ModuleId::GtChallenge => {
                acts.push(TrackMenuAction::StartChampionship(ModuleId::Gt));
                return (sel, acts);
            },
            ModuleId::Nascar => {
                acts.push(TrackMenuAction::StartChampionship(ModuleId::Nascar));
                return (sel, acts);
            },
            ModuleId::ExtremeOffroad => {
                acts.push(TrackMenuAction::StartChampionship(ModuleId::ExtremeOffroad));
                return (sel, acts);
            },
            ModuleId::Rally | ModuleId::Kart => {
                acts.push(TrackMenuAction::QuickRace);
                return (sel, acts);
            },
            _ => {},
        }
    }
    if i.key_v {
        acts.push(TrackMenuAction::CycleVolume);
    }
    if c.dev_mode && i.workbench {
        acts.push(TrackMenuAction::OpenWorkbench);
        return (sel, acts);
    }
    if i.view && sel < c.num_tracks {
        acts.push(TrackMenuAction::ViewCircuit(sel));
    }
    if i.confirm {
        if sel < c.num_tracks {
            acts.push(TrackMenuAction::ConfirmTrack(sel));
        } else if c.custom_filter {
            acts.push(TrackMenuAction::OpenWorkshop);
        }
    }
    (sel, acts)
}

/// Answer to confirming a circuit in the circuit menu.
#[derive(Debug, Clone, Copy, PartialEq, Eq, Structural)]
pub enum TrackConfirm {
    /// Back to the Starting Grid (the career round's own circuit).
    BackToGrid,
    /// Refused: another circuit than the career round's, or a locked circuit.
    Refused,
    /// Race on this circuit.
    Race,
}

/// Answer to confirming a circuit: when a career's menu was opened from the
/// Starting Grid only the round's own circuit is accepted (back to the grid);
/// otherwise a locked circuit is refused and an unlocked one raced.
pub fn menu_confirm_track(career_from_grid: bool, is_round_track: bool, unlocked: bool) -> (r: TrackConfirm)
    ensures
        career_from_grid && is_round_track ==> r == TrackConfirm::BackToGrid,
        career_from_grid && !is_round_track ==> r == TrackConfirm::Refused,
        !career_from_grid && !unlocked ==> r == TrackConfirm::Refused,
        !career_from_grid && unlocked ==> r == TrackConfirm::Race,
{
    if career_from_grid {
        if is_round_track {
            TrackConfirm::BackToGrid
        } else {
            TrackConfirm::Refused
        }
    } else if !unlocked {
        TrackConfirm::Refused
    } else {
        TrackConfirm::Race
    }
}

/// After the cursor keys the circuit menu's cursor lies on its list
/// (circuits, plus the workshop entry under the custom filter).
pub proof fn lemma_track_menu_cursor_on_list(idx: usize, i: TrackMenuInput, c: TrackMenuContext)
    requires
        c.num_tracks > 0 || c.custom_filter,
    ensures
        track_menu_cursor(idx, i, c) < (if c.custom_filter {
            c.num_tracks + 1
        } else {
            c.num_tracks as int
        }),
{
    let total: int = if c.custom_filter {
        c.num_tracks + 1
    } else {
        c.num_tracks as int
    };
    let a: usize = if total == 0 || idx >= total {
        0
    } else {
        idx
    };
    let b: usize = if i.nav_left || i.nav_right {
        0
    } else {
        a
    };
    let d: usize = if total > 0 && i.nav_up {
        if b == 0 {
            (total - 1) as usize
        } else {
            (b - 1) as usize
        }
    } else {
        b
    };
    vstd::arithmetic::div_mod::lemma_mod_bound(d + 1, total);
}

/// After any frame that stays on the modality selection with cards in the
/// current category, the selected card is one of them.
pub proof fn lemma_modality_selection_on_cards(s: ModalityNav, i: ModalityInput, k: ModalityCards)
    requires
        s.selected_idx < cards_in(k, s.category),
    ensures
        ({
            let (n, _) = modality_frame_spec(s, i, k);
            cards_in(k, n.category) > 0 ==> n.selected_idx < cards_in(k, n.category)
        }),
{
    let s1 = modality_category_stage(s, i);
    let len = cards_in(k, s1.category);
    if len > 0 {
        let a = if i.nav_up {
            if s1.selected_idx == 0 {
                (len - 1) as usize
            } else {
                (s1.selected_idx - 1) as usize
            }
        } else {
            s1.selected_idx
        };
        vstd::arithmetic::div_mod::lemma_mod_bound(a + 1, len as int);
    }
}

/// What the player did on the career selection during one frame.
#[derive(Debug, Clone, Copy, PartialEq, Eq, Structural)]
pub struct CareerSelectInput {
    /// Up, W, or a gamepad up.
    pub up: bool,
    /// Down, S, or a gamepad down.
    pub down: bool,
    /// Card clicked.
    pub click: Option<usize>,
    /// Escape, Backspace or gamepad cancel.
    pub back: bool,
    /// The R key: reset the selected season.
    pub reset: bool,
    /// Enter, keypad Enter, Space or gamepad confirm.
    pub confirm: bool,
}

/// What a frame of the career selection asks for.
#[derive(Debug, Clone, Copy, PartialEq, Eq, Structural)]
pub enum CareerSelectAction {
    /// Back to the modality selection (first single-player card).
    Back,
    /// Reset the season of the card at this position.
    ResetSeason(usize),
    /// Launch the career of the card at this position.
    Launch(usize),
}

/// One frame of the career selection over `active` (whether each card's
/// season is under way): with no cards nothing happens; otherwise the
/// selection is brought onto the cards, Up and Down move it (without
/// wrapping), a click selects a card or, on the selected card, confirms;
/// then back leaves, R resets an active season, and confirming launches.
pub fn career_select_frame(idx: usize, i: CareerSelectInput, active: &Vec<bool>) -> (r: (
    usize,
    Option<CareerSelectAction>,
))
    ensures
        active@.len() == 0 ==> r == (0usize, None::<CareerSelectAction>),
        active@.len() > 0 ==> ({
            let n = active@.len();
            let a = if idx >= n {
                (n - 1) as usize
            } else {
                idx
            };
            let b = if i.up && a > 0 {
                (a - 1) as usize
            } else {
                a
            };
            let c = if i.down && b + 1 < n {
                (b + 1) as usize
            } else {
                b
            };
            let (d, clicked) = match i.click {
                Some(k) => if k < n {
                    if k != c {
                        (k, false)
                    } else {
                        (c, true)
                    }
                } else {
                    (c, false)
                },
                None => (c, false),
            };
            &&& r.0 == d
            &&& r.1 == (if i.back {
                Some(CareerSelectAction::Back)
            } else if i.reset && active@[d as int] {
                Some(CareerSelectAction::ResetSeason(d))
            } else if i.confirm || clicked {
                Some(CareerSelectAction::Launch(d))
            } else {
                None
            })
        }),
{
    let n = active.len();
    if n == 0 {
        return (0, None);
    }
    let mut sel = if idx >= n {
        n - 1
    } else {
        idx
    };
    if i.up && sel > 0 {
        sel = sel - 1;
    }
    if i.down && sel + 1 < n {
        sel = sel + 1;
    }
    let mut clicked = false;
    if let Some(k) = i.click {
        if k < n {
            if k != sel {
                sel = k;
            } else {
                clicked = true;
            }
        }
    }
    if i.back {
        (sel, Some(CareerSelectAction::Back))
    } else if i.reset && active[sel] {
        (sel, Some(CareerSelectAction::ResetSeason(sel)))
    } else if i.confirm || clicked {
        (sel, Some(CareerSelectAction::Launch(sel)))
    } else {
        (sel, None)
    }
}

/// How a career card of a module is launched.
#[derive(Debug, Clone, Copy, PartialEq, Eq, Structural)]
pub enum CareerLaunch {
    /// Open the GT career hub on the card's tier.
    GtHub,
    /// Start the card's tier of this module's career cup.
    CupTier(ModuleId),
    /// Start the GT career tier on its default calendar.
    GtTier,
}

/// How a career card of module `m` is launched: GT opens its hub, NASCAR,
/// Rally, Kart and Extreme Off-Road start their cup tier, anything else the
/// GT tier on its default calendar.
pub fn career_launch(m: ModuleId) -> (r: CareerLaunch)
    ensures
        r == (match m {
            ModuleId::Gt | ModuleId::GtChallenge => CareerLaunch::GtHub,
            ModuleId::Nascar | ModuleId::Rally | ModuleId::Kart | ModuleId::ExtremeOffroad => CareerLaunch::CupTier(m),
            _ => CareerLaunch::GtTier,
        }),
{
    match m {
        ModuleId::Gt | ModuleId::GtChallenge => CareerLaunch::GtHub,
        ModuleId::Nascar | ModuleId::Rally | ModuleId::Kart | ModuleId::ExtremeOffroad => CareerLaunch::CupTier(m),
        _ => CareerLaunch::GtTier,
    }
}

/// Tab of the circuit catalog.
#[derive(Debug, Clone, Copy, PartialEq, Eq, Structural)]
pub enum CatalogFilter {
    /// The official preset circuits.
    Presets,
    /// The player's own circuits.
    Custom,
}

/// What the catalog knows of a circuit.
#[derive(Debug, Clone, Copy, PartialEq, Eq, Structural)]
pub struct CatalogEntry {
    pub official_preset: bool,
    pub user_custom: bool,
}

/// Whether a circuit is listed under a catalog tab.
pub open spec fn listed_under(e: CatalogEntry, f: CatalogFilter) -> bool {
    match f {
        CatalogFilter::Presets => e.official_preset,
        CatalogFilter::Custom => e.user_custom,
    }
}

/// Places, in catalog order, of the circuits listed under a tab.
pub open spec fn listed_places(s: Seq<CatalogEntry>, f: CatalogFilter) -> Seq<usize>
    decreases s.len(),
{
    if s.len() == 0 {
        Seq::empty()
    } else {
        let before = listed_places(s.drop_last(), f);
        if listed_under(s.last(), f) {
            before.push((s.len() - 1) as usize)
        } else {
            before
        }
    }
}

/// Number of circuits listed under a tab.
pub open spec fn listed_count(s: Seq<CatalogEntry>, f: CatalogFilter) -> nat
    decreases s.len(),
{
    if s.len() == 0 {
        0
    } else {
        listed_count(s.drop_last(), f) + if listed_under(s.last(), f) {
            1nat
        } else {
            0nat
        }
    }
}

/// Tab on which the circuit selector opens for the current circuit: the
/// player's own circuits for a custom circuit, the presets otherwise.
pub fn catalog_filter_for(user_custom: bool) -> (r: CatalogFilter)
    ensures
        r == (if user_custom {
            CatalogFilter::Custom
        } else {
            CatalogFilter::Presets
        }),
{
    if user_custom {
        CatalogFilter::Custom
    } else {
        CatalogFilter::Presets
    }
}

/// The circuits the catalog lists under a tab, as places in the catalog.
pub fn filter_catalog(entries: &Vec<CatalogEntry>, f: CatalogFilter) -> (r: Vec<usize>)
    ensures
        r@ == listed_places(entries@, f),
{
    let mut r: Vec<usize> = Vec::new();
    let mut k: usize = 0;
    while k < entries.len()
        invariant
            k <= entries.len(),
            r@ == listed_places(entries@.take(k as int), f),
        decreases entries.len() - k,
    {
        assert(entries@.take(k as int + 1).drop_last() == entries@.take(k as int));
        let listed = match f {
            CatalogFilter::Presets => entries[k].official_preset,
            CatalogFilter::Custom => entries[k].user_custom,
        };
        if listed {
            r.push(k);
        }
        k = k + 1;
    }
    assert(entries@.take(entries.len() as int) == entries@);
    r
}

/// Numbers of circuits shown on the two tabs: presets, then the player's own.
pub fn catalog_counts(entries: &Vec<CatalogEntry>) -> (r: (usize, usize))
    ensures
        r.0 == listed_count(entries@, CatalogFilter::Presets),
        r.1 == listed_count(entries@, CatalogFilter::Custom),
{
    let mut presets: usize = 0;
    let mut custom: usize = 0;
    let mut k: usize = 0;
    while k < entries.len()
        invariant
            k <= entries.len(),
            presets == listed_count(entries@.take(k as int), CatalogFilter::Presets),
            custom == listed_count(entries@.take(k as int), CatalogFilter::Custom),
            presets <= k,
            custom <= k,
        decreases entries.len() - k,
    {
        assert(entries@.take(k as int + 1).drop_last() == entries@.take(k as int));
        if entries[k].official_preset {
            presets = presets + 1;
        }
        if entries[k].user_custom {
            custom = custom + 1;
        }
        k = k + 1;
    }
    assert(entries@.take(entries.len() as int) == entries@);
    (presets, custom)
}

/// The number shown on a catalog tab is the number of circuits the tab
/// lists, and every listed place is a circuit of the catalog that belongs
/// under the tab.
pub proof fn lemma_tab_count_matches_list(s: Seq<CatalogEntry>, f: CatalogFilter)
    requires
        s.len() <= usize::MAX,
    ensures
        listed_places(s, f).len() == listed_count(s, f),
        forall|k: int|
            0 <= k < listed_places(s, f).len() ==> {
                let p = #[trigger] listed_places(s, f)[k];
                p < s.len() && listed_under(s[p as int], f)
            },
    decreases s.len(),
{
    if s.len() > 0 {
        let rest = s.drop_last();
        lemma_tab_count_matches_list(rest, f);
        let before = listed_places(rest, f);
        assert forall|k: int| 0 <= k < listed_places(s, f).len() implies {
            let p = #[trigger] listed_places(s, f)[k];
            p < s.len() && listed_under(s[p as int], f)
        } by {
            if k < before.len() {
                assert(listed_places(s, f)[k] == before[k]);
                assert(rest[before[k] as int] == s[before[k] as int]);
            } else {
                assert(listed_under(s.last(), f));
            }
        }
    }
}

/// Circuit the menu highlights: in a career the championship round's
/// circuit, else the chosen circuit; the chosen circuit when the menu was
/// opened from the Starting Grid; none otherwise.
pub fn menu_track_id(mode: GameMode, origin: MenuOrigin, round_track: Option<String>, chosen: String) -> (r:
    Option<String>)
    ensures
        r == if mode is Career {
            match round_track {
                Some(t) => Some(t),
                None => Some(chosen),
            }
        } else if origin is StartingGrid {
            Some(chosen)
        } else {
            None::<String>
        },
{
    match mode {
        GameMode::Career => match round_track {
            Some(t) => Some(t),
            None => Some(chosen),
        },
        _ => match origin {
            MenuOrigin::StartingGrid => Some(chosen),
            MenuOrigin::ModalitySelect => None,
        },
    }
}

} // verus!
