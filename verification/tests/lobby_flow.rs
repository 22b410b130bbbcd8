use tdrace_session::lobby::{
    bots_down, bots_up, cycle_index, launch_from_grid, setup_card_step, starting_grid_exit,
    starting_grid_frame, StartingGridAction, StartingGridContext, StartingGridFocus,
    StartingGridInput, StartingGridNav,
};
use tdrace_session::lobby::{participant_car, participant_model_step};
use tdrace_session::modules::ModuleId;
use tdrace_session::roster::GameMode;
use tdrace_session::screens::Screen;

fn idle() -> StartingGridInput {
    StartingGridInput {
        click_player_card: false,
        click_circuit_card: false,
        click_garage: false,
        click_grid: false,
        click_launch: false,
        nav_left: false,
        nav_right: false,
        nav_up: false,
        nav_down: false,
        enter: false,
        pad_confirm: false,
        pad_y: false,
        pad_start: false,
        space: false,
        bracket_right: false,
        bracket_left: false,
        equal: false,
        minus: false,
        key_d: false,
        key_g: false,
        key_t: false,
        key_p: false,
        key_c: false,
        back: false,
    }
}

fn ctx() -> StartingGridContext {
    StartingGridContext {
        grid_adjustable: true,
        grid_customizable: true,
        car_change: true,
        roster_customizable: true,
        max_bots: 5,
        roster_len: 6,
    }
}

fn nav(focus: StartingGridFocus, card_idx: usize, roster_idx: usize, num_bots: usize) -> StartingGridNav {
    StartingGridNav { focus, card_idx, roster_idx, num_bots }
}

#[test]
fn cycle_index_wraps_both_ways() {
    assert_eq!(cycle_index(0, 3, true), 1);
    assert_eq!(cycle_index(2, 3, true), 0);
    assert_eq!(cycle_index(0, 3, false), 2);
    assert_eq!(cycle_index(2, 3, false), 1);
    assert_eq!(cycle_index(0, 1, true), 0);
    // A stale index past the end still lands in the list going forward.
    assert_eq!(cycle_index(7, 3, true), 2);
    for i in 0..4 {
        assert_eq!(cycle_index(cycle_index(i, 4, true), 4, false), i);
    }
}

#[test]
fn bot_count_wraps_between_one_and_max() {
    assert_eq!(bots_up(3, 5), 4);
    assert_eq!(bots_up(5, 5), 1);
    assert_eq!(bots_down(3, 5), 2);
    assert_eq!(bots_down(1, 5), 5);
    for n in 1..=5 {
        assert_eq!(bots_down(bots_up(n, 5), 5), n);
    }
}

#[test]
fn setup_cards_cycle_up_and_down() {
    assert_eq!(setup_card_step(2, true), 0);
    assert_eq!(setup_card_step(0, true), 4);
    assert_eq!(setup_card_step(4, true), 3);
    assert_eq!(setup_card_step(3, true), 2);
    assert_eq!(setup_card_step(1, true), 0);
    assert_eq!(setup_card_step(3, false), 4);
    assert_eq!(setup_card_step(2, false), 3);
    assert_eq!(setup_card_step(1, false), 2);
    for c in [0usize, 2, 3, 4] {
        assert_eq!(setup_card_step(setup_card_step(c, true), false), c);
    }
}

#[test]
fn clicking_the_player_card_opens_the_profile() {
    let mut i = idle();
    i.click_player_card = true;
    i.space = true;
    let (n, a) = starting_grid_frame(nav(StartingGridFocus::RightRoster, 1, 2, 3), i, ctx());
    assert_eq!(n.focus, StartingGridFocus::LeftSetup);
    assert_eq!(n.card_idx, 3);
    assert_eq!(a, vec![StartingGridAction::OpenProfile]);
}

#[test]
fn clicking_the_grid_button_adds_a_bot_and_wraps() {
    let mut i = idle();
    i.click_grid = true;
    let (n, a) = starting_grid_frame(nav(StartingGridFocus::LeftSetup, 2, 0, 5), i, ctx());
    assert_eq!(n.focus, StartingGridFocus::RightRoster);
    assert_eq!(n.card_idx, 1);
    assert_eq!(n.num_bots, 1);
    assert_eq!(a, vec![StartingGridAction::SetBots(1)]);
    let mut fixed = ctx();
    fixed.grid_adjustable = false;
    let (n, a) = starting_grid_frame(nav(StartingGridFocus::LeftSetup, 2, 0, 5), i, fixed);
    assert_eq!(n.num_bots, 5);
    assert!(a.is_empty());
}

#[test]
fn up_then_confirm_on_launch_goes_to_the_garage_card() {
    let mut i = idle();
    i.nav_up = true;
    i.enter = true;
    let (n, a) = starting_grid_frame(nav(StartingGridFocus::LeftSetup, 2, 0, 3), i, ctx());
    assert_eq!(n.card_idx, 0);
    assert_eq!(a, vec![StartingGridAction::OpenGarage]);
}

#[test]
fn enter_on_launch_card_requests_the_launch() {
    let mut i = idle();
    i.enter = true;
    let (_, a) = starting_grid_frame(nav(StartingGridFocus::LeftSetup, 2, 0, 3), i, ctx());
    assert_eq!(a, vec![StartingGridAction::RequestLaunch]);
}

#[test]
fn grid_card_plus_then_minus_restores_the_count() {
    let mut i = idle();
    i.equal = true;
    i.minus = true;
    let (n, a) = starting_grid_frame(nav(StartingGridFocus::LeftSetup, 1, 0, 2), i, ctx());
    assert_eq!(n.num_bots, 2);
    assert_eq!(a, vec![StartingGridAction::SetBots(3), StartingGridAction::SetBots(2)]);
}

#[test]
fn car_brackets_then_shortcuts_in_order() {
    let mut i = idle();
    i.nav_up = true;
    i.bracket_right = true;
    i.key_t = true;
    i.back = true;
    let (n, a) = starting_grid_frame(nav(StartingGridFocus::LeftSetup, 2, 0, 3), i, ctx());
    assert_eq!(n.card_idx, 0);
    assert_eq!(
        a,
        vec![
            StartingGridAction::CyclePlayerCar(true),
            StartingGridAction::CycleDifficulty,
            StartingGridAction::Leave
        ]
    );
}

#[test]
fn moving_left_leaves_the_grid_card() {
    let mut i = idle();
    i.nav_left = true;
    let (n, a) = starting_grid_frame(nav(StartingGridFocus::RightRoster, 1, 4, 3), i, ctx());
    assert_eq!(n.focus, StartingGridFocus::LeftSetup);
    assert_eq!(n.card_idx, 0);
    assert!(a.is_empty());
}

#[test]
fn roster_navigation_wraps_through_the_grid_card() {
    let mut i = idle();
    i.nav_up = true;
    let (n, _) = starting_grid_frame(nav(StartingGridFocus::RightRoster, 1, 0, 3), i, ctx());
    assert_eq!((n.card_idx, n.roster_idx), (0, 5));
    let (n, _) = starting_grid_frame(nav(StartingGridFocus::RightRoster, 0, 0, 3), i, ctx());
    assert_eq!((n.card_idx, n.roster_idx), (1, 0));
    let mut d = idle();
    d.nav_down = true;
    let (n, _) = starting_grid_frame(nav(StartingGridFocus::RightRoster, 0, 5, 3), d, ctx());
    assert_eq!((n.card_idx, n.roster_idx), (1, 5));
    let (n, _) = starting_grid_frame(nav(StartingGridFocus::RightRoster, 0, 2, 3), d, ctx());
    assert_eq!((n.card_idx, n.roster_idx), (0, 3));
}

#[test]
fn enter_on_a_roster_entry_opens_its_dossier() {
    let mut i = idle();
    i.bracket_left = true;
    i.enter = true;
    let (_, a) = starting_grid_frame(nav(StartingGridFocus::RightRoster, 0, 3, 3), i, ctx());
    assert_eq!(
        a,
        vec![
            StartingGridAction::CycleParticipantModel(false),
            StartingGridAction::OpenDriverCards(Some(3))
        ]
    );
}

#[test]
fn d_key_moves_right_and_opens_the_dossier() {
    let mut i = idle();
    i.key_d = true;
    let (n, a) = starting_grid_frame(nav(StartingGridFocus::LeftSetup, 2, 1, 3), i, ctx());
    assert_eq!(n.focus, StartingGridFocus::RightRoster);
    assert_eq!(a, vec![StartingGridAction::OpenDriverCards(Some(1))]);
}

#[test]
fn space_launches_from_anywhere() {
    let mut i = idle();
    i.space = true;
    let (_, a) = starting_grid_frame(nav(StartingGridFocus::RightRoster, 1, 0, 3), i, ctx());
    assert_eq!(a, vec![StartingGridAction::RequestLaunch]);
}

#[test]
fn launch_needs_an_eligible_unlocked_car() {
    assert_eq!(launch_from_grid(true, true), Some(Screen::Countdown(3500)));
    assert_eq!(launch_from_grid(false, true), None);
    assert_eq!(launch_from_grid(true, false), None);
}

#[test]
fn leaving_the_lobby_picks_the_right_screen() {
    assert_eq!(
        starting_grid_exit(true, GameMode::Career, ModuleId::Gt, 3, Some(2)),
        (Screen::TrackEditor, true)
    );
    assert_eq!(
        starting_grid_exit(false, GameMode::Career, ModuleId::GtChallenge, 9, Some(2)),
        (Screen::CareerHub { selected_tier: 5, selected_slot: 2, showing_standings: false }, false)
    );
    assert_eq!(
        starting_grid_exit(false, GameMode::Career, ModuleId::Rally, 3, None),
        (Screen::Menu, false)
    );
    assert_eq!(
        starting_grid_exit(false, GameMode::StandardRace, ModuleId::Gt, 3, None),
        (Screen::Menu, false)
    );
}

#[test]
fn stepping_a_participants_model() {
    let models: Vec<String> = vec!["gt4_a".to_string(), "gt3_b".to_string(), "gt2_c".to_string()];
    assert_eq!(participant_model_step(&Vec::new(), &None, true), None);
    assert_eq!(participant_model_step(&models, &Some("gt3_b".to_string()), true), Some(2));
    assert_eq!(participant_model_step(&models, &Some("gt2_c".to_string()), true), Some(0));
    assert_eq!(participant_model_step(&models, &Some("gt3_b".to_string()), false), Some(0));
    assert_eq!(participant_model_step(&models, &Some("kart".to_string()), false), Some(2));
    assert_eq!(participant_model_step(&models, &None, true), Some(1));
}

#[test]
fn car_following_a_participant() {
    assert_eq!(participant_car(Some(0), 3, false), 1);
    assert_eq!(participant_car(Some(0), 3, true), 2);
    assert_eq!(participant_car(None, 3, true), 3);
}

#[test]
fn stepping_a_model_forward_and_back() {
    let models: Vec<String> = vec!["a".to_string(), "b".to_string(), "c".to_string()];
    for i in 0..3 {
        let fwd = participant_model_step(&models, &Some(models[i].clone()), true).unwrap();
        let back = participant_model_step(&models, &Some(models[fwd].clone()), false).unwrap();
        assert_eq!(back, i);
    }
}
