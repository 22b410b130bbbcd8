use tdrace_session::menus::{
    career_launch, career_select_frame, CareerLaunch, CareerSelectAction, CareerSelectInput,
    category_step, hub_frame, menu_back_target, menu_confirm_track, modality_back_screen,
    modality_frame, modality_item_effect, module_select_index, track_menu_frame, HubAction,
    HubInput, ModalityAction, ModalityCards, ModalityEffect, ModalityInput, ModalityItem,
    ModalityNav, TrackConfirm, TrackMenuAction, TrackMenuContext, TrackMenuInput,
};
use tdrace_session::menus::menu_track_id;
use tdrace_session::menus::{catalog_counts, catalog_filter_for, filter_catalog, CatalogEntry, CatalogFilter};
use tdrace_session::modules::{module_for_select_index, ModuleId};
use tdrace_session::roster::GameMode;
use tdrace_session::screens::{MenuOrigin, ModalityCategory, Screen};

fn hub() -> HubInput {
    HubInput {
        nav_up: false,
        nav_down: false,
        click: None,
        confirm: false,
        profile: false,
        new_profile: false,
        settings: false,
        controls: false,
        back: false,
    }
}

#[test]
fn hub_wraps_and_confirms() {
    let mut i = hub();
    i.nav_up = true;
    assert_eq!(hub_frame(0, i), (6, None));
    let mut i = hub();
    i.nav_down = true;
    assert_eq!(hub_frame(6, i), (0, None));
    let mut i = hub();
    i.confirm = true;
    assert_eq!(hub_frame(0, i), (0, Some(HubAction::OpenProfile)));
    assert_eq!(hub_frame(3, i), (3, Some(HubAction::OpenModalities)));
    let mut i = hub();
    i.click = Some(5);
    i.back = true;
    assert_eq!(hub_frame(1, i), (5, Some(HubAction::OpenModalities)));
    let mut i = hub();
    i.click = Some(9);
    i.back = true;
    assert_eq!(hub_frame(1, i), (1, Some(HubAction::AskExit)));
    let mut i = hub();
    i.new_profile = true;
    i.controls = true;
    assert_eq!(hub_frame(2, i), (2, Some(HubAction::NewProfile)));
}

#[test]
fn hub_entries_match_modules() {
    assert_eq!(module_select_index(ModuleId::Classic), 1);
    assert_eq!(module_select_index(ModuleId::GtChallenge), 4);
    assert_eq!(module_select_index(ModuleId::ExtremeOffroad), 6);
    assert_eq!(module_select_index(ModuleId::Other), 1);
    for idx in 1..=6 {
        assert_eq!(module_select_index(module_for_select_index(idx)), idx);
    }
    assert_eq!(modality_back_screen(ModuleId::Nascar), Screen::ModuleSelect { selected_idx: 5 });
}

#[test]
fn categories_cycle() {
    assert_eq!(category_step(ModalityCategory::Options, true), ModalityCategory::SinglePlayer);
    assert_eq!(category_step(ModalityCategory::SinglePlayer, false), ModalityCategory::Options);
    for c in [ModalityCategory::SinglePlayer, ModalityCategory::Multiplayer, ModalityCategory::Options] {
        assert_eq!(category_step(category_step(c, true), false), c);
    }
}

#[test]
fn modality_cards_set_the_mode() {
    assert_eq!(
        modality_item_effect(ModalityItem::QuickRace),
        ModalityEffect::Race { mode: GameMode::StandardRace, free_car: false, time_attack: false, no_bots: false }
    );
    assert_eq!(
        modality_item_effect(ModalityItem::TimeTrial),
        ModalityEffect::Race { mode: GameMode::TimeTrial, free_car: true, time_attack: true, no_bots: true }
    );
    assert_eq!(
        modality_item_effect(ModalityItem::SplitScreen),
        ModalityEffect::Race { mode: GameMode::SplitScreen, free_car: true, time_attack: false, no_bots: false }
    );
    assert_eq!(modality_item_effect(ModalityItem::CareerMode), ModalityEffect::CareerSelect);
    assert_eq!(modality_item_effect(ModalityItem::CloudPlay), ModalityEffect::ComingSoon);
    assert_eq!(modality_item_effect(ModalityItem::Garage), ModalityEffect::OpenGarage);
}

fn modality() -> ModalityInput {
    ModalityInput {
        dismiss: false,
        key_g: false,
        profile: false,
        key_e: false,
        key_c: false,
        key_x: false,
        click_tab: None,
        digit: None,
        next_category: false,
        prev_category: false,
        nav_up: false,
        nav_down: false,
        click_card: None,
        confirm: false,
        back: false,
    }
}

fn cards() -> ModalityCards {
    ModalityCards { single_player: 5, multiplayer: 3, options: 5 }
}

#[test]
fn modality_notice_blocks_until_dismissed() {
    let s = ModalityNav { category: ModalityCategory::Multiplayer, selected_idx: 1, notice: true };
    let mut i = modality();
    i.key_g = true;
    assert_eq!(modality_frame(s, i, cards()), (s, None));
    i.dismiss = true;
    let (n, a) = modality_frame(s, i, cards());
    assert!(!n.notice);
    assert_eq!(a, None);
}

#[test]
fn modality_tab_then_navigation_and_choice() {
    let s = ModalityNav { category: ModalityCategory::SinglePlayer, selected_idx: 3, notice: false };
    let mut i = modality();
    i.next_category = true;
    i.nav_up = true;
    i.confirm = true;
    let (n, a) = modality_frame(s, i, cards());
    assert_eq!(n.category, ModalityCategory::Multiplayer);
    assert_eq!(n.selected_idx, 2);
    assert_eq!(a, Some(ModalityAction::Choose(2)));
    let mut i = modality();
    i.digit = Some(ModalityCategory::SinglePlayer);
    i.next_category = true;
    let (n, _) = modality_frame(s, i, cards());
    assert_eq!((n.category, n.selected_idx), (ModalityCategory::SinglePlayer, 3));
    let mut i = modality();
    i.click_card = Some(4);
    let (n, a) = modality_frame(s, i, cards());
    assert_eq!((n.selected_idx, a), (4, Some(ModalityAction::Choose(4))));
    let mut i = modality();
    i.nav_down = true;
    i.back = true;
    let s4 = ModalityNav { category: ModalityCategory::SinglePlayer, selected_idx: 4, notice: false };
    let (n, a) = modality_frame(s4, i, cards());
    assert_eq!((n.selected_idx, a), (0, Some(ModalityAction::BackToHub)));
}

#[test]
fn menu_back_goes_to_the_mode_card() {
    assert_eq!(menu_back_target(MenuOrigin::StartingGrid, GameMode::Career), (Screen::StartingGrid, false));
    assert_eq!(
        menu_back_target(MenuOrigin::ModalitySelect, GameMode::TimeTrial),
        (Screen::ModalitySelect { category: ModalityCategory::SinglePlayer, selected_idx: 3 }, true)
    );
    assert_eq!(
        menu_back_target(MenuOrigin::ModalitySelect, GameMode::SplitScreen),
        (Screen::ModalitySelect { category: ModalityCategory::Multiplayer, selected_idx: 0 }, true)
    );
}

fn menu_in() -> TrackMenuInput {
    TrackMenuInput {
        key_o: false,
        key_g: false,
        back: false,
        key_k: false,
        key_f: false,
        key_t: false,
        profile: false,
        nav_left: false,
        nav_right: false,
        nav_up: false,
        nav_down: false,
        key_v: false,
        workbench: false,
        view: false,
        confirm: false,
    }
}

fn menu_ctx(module: ModuleId) -> TrackMenuContext {
    TrackMenuContext { module, num_tracks: 4, custom_filter: false, dev_mode: false }
}

#[test]
fn circuit_menu_cursor_wraps_and_confirms() {
    let mut i = menu_in();
    i.nav_up = true;
    i.confirm = true;
    assert_eq!(track_menu_frame(0, i, menu_ctx(ModuleId::Classic)), (3, vec![TrackMenuAction::ConfirmTrack(3)]));
    let mut i = menu_in();
    i.nav_down = true;
    assert_eq!(track_menu_frame(9, i, menu_ctx(ModuleId::Classic)), (1, vec![]));
    let mut i = menu_in();
    i.nav_right = true;
    i.key_v = true;
    i.view = true;
    i.confirm = true;
    assert_eq!(
        track_menu_frame(2, i, menu_ctx(ModuleId::Classic)),
        (
            0,
            vec![
                TrackMenuAction::CycleFilter(true),
                TrackMenuAction::CycleVolume,
                TrackMenuAction::ViewCircuit(0),
                TrackMenuAction::ConfirmTrack(0)
            ]
        )
    );
}

#[test]
fn circuit_menu_championship_keys() {
    let mut i = menu_in();
    i.key_f = true;
    assert_eq!(track_menu_frame(1, i, menu_ctx(ModuleId::Gt)), (1, vec![TrackMenuAction::StartChampionship(ModuleId::Gt)]));
    assert_eq!(
        track_menu_frame(1, i, menu_ctx(ModuleId::GtChallenge)),
        (1, vec![TrackMenuAction::StartChampionship(ModuleId::Gt)])
    );
    assert_eq!(track_menu_frame(1, i, menu_ctx(ModuleId::Kart)), (1, vec![TrackMenuAction::QuickRace]));
    i.confirm = true;
    assert_eq!(track_menu_frame(1, i, menu_ctx(ModuleId::Classic)), (1, vec![TrackMenuAction::ConfirmTrack(1)]));
    let mut b = menu_in();
    b.back = true;
    b.key_k = true;
    assert_eq!(track_menu_frame(1, b, menu_ctx(ModuleId::Classic)), (1, vec![TrackMenuAction::Back]));
}

#[test]
fn circuit_menu_workshop_entry() {
    let mut i = menu_in();
    i.nav_up = true;
    i.confirm = true;
    let c = TrackMenuContext { module: ModuleId::Rally, num_tracks: 2, custom_filter: true, dev_mode: false };
    assert_eq!(track_menu_frame(0, i, c), (2, vec![TrackMenuAction::OpenWorkshop]));
    let mut w = menu_in();
    w.workbench = true;
    w.confirm = true;
    let dev = TrackMenuContext { module: ModuleId::Rally, num_tracks: 2, custom_filter: false, dev_mode: true };
    assert_eq!(track_menu_frame(0, w, dev), (0, vec![TrackMenuAction::OpenWorkbench]));
    assert_eq!(track_menu_frame(0, w, c), (0, vec![TrackMenuAction::ConfirmTrack(0)]));
}

#[test]
fn confirming_a_circuit() {
    assert_eq!(menu_confirm_track(true, true, false), TrackConfirm::BackToGrid);
    assert_eq!(menu_confirm_track(true, false, true), TrackConfirm::Refused);
    assert_eq!(menu_confirm_track(false, false, false), TrackConfirm::Refused);
    assert_eq!(menu_confirm_track(false, false, true), TrackConfirm::Race);
}

fn career_in() -> CareerSelectInput {
    CareerSelectInput { up: false, down: false, click: None, back: false, reset: false, confirm: false }
}

#[test]
fn career_select_navigation() {
    let active = vec![false, true, false];
    assert_eq!(career_select_frame(4, career_in(), &vec![]), (0, None));
    assert_eq!(career_select_frame(9, career_in(), &active), (2, None));
    let mut i = career_in();
    i.down = true;
    assert_eq!(career_select_frame(2, i, &active), (2, None));
    let mut i = career_in();
    i.up = true;
    i.reset = true;
    assert_eq!(career_select_frame(2, i, &active), (1, Some(CareerSelectAction::ResetSeason(1))));
    let mut i = career_in();
    i.reset = true;
    i.confirm = true;
    assert_eq!(career_select_frame(0, i, &active), (0, Some(CareerSelectAction::Launch(0))));
    let mut i = career_in();
    i.click = Some(1);
    assert_eq!(career_select_frame(0, i, &active), (1, None));
    assert_eq!(career_select_frame(1, i, &active), (1, Some(CareerSelectAction::Launch(1))));
    let mut i = career_in();
    i.back = true;
    i.confirm = true;
    assert_eq!(career_select_frame(0, i, &active), (0, Some(CareerSelectAction::Back)));
}

#[test]
fn career_cards_launch_by_module() {
    assert_eq!(career_launch(ModuleId::GtChallenge), CareerLaunch::GtHub);
    assert_eq!(career_launch(ModuleId::Kart), CareerLaunch::CupTier(ModuleId::Kart));
    assert_eq!(career_launch(ModuleId::Classic), CareerLaunch::GtTier);
}

fn entry(official_preset: bool, user_custom: bool) -> CatalogEntry {
    CatalogEntry { official_preset, user_custom }
}

#[test]
fn circuit_catalog_tabs() {
    let catalog = vec![entry(true, false), entry(false, true), entry(false, false), entry(true, false), entry(false, true)];
    assert_eq!(filter_catalog(&catalog, CatalogFilter::Presets), vec![0, 3]);
    assert_eq!(filter_catalog(&catalog, CatalogFilter::Custom), vec![1, 4]);
    assert_eq!(catalog_counts(&catalog), (2, 2));
    assert_eq!(catalog_counts(&Vec::new()), (0, 0));
    assert_eq!(catalog_filter_for(true), CatalogFilter::Custom);
    assert_eq!(catalog_filter_for(false), CatalogFilter::Presets);
}

#[test]
fn circuit_highlighted_by_the_menu() {
    let round = Some("harbor".to_string());
    assert_eq!(
        menu_track_id(GameMode::Career, MenuOrigin::ModalitySelect, round.clone(), "dunes".to_string()),
        Some("harbor".to_string())
    );
    assert_eq!(
        menu_track_id(GameMode::Career, MenuOrigin::ModalitySelect, None, "dunes".to_string()),
        Some("dunes".to_string())
    );
    assert_eq!(
        menu_track_id(GameMode::StandardRace, MenuOrigin::StartingGrid, round.clone(), "dunes".to_string()),
        Some("dunes".to_string())
    );
    assert_eq!(menu_track_id(GameMode::StandardRace, MenuOrigin::ModalitySelect, round, "dunes".to_string()), None);
}
