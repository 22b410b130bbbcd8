use tdrace_session::roster::{grid_lineup, Entrant};
use tdrace_session::roster::{
    bot_seed, bots_for_racers, championship_bot_count, human_count, max_bots, player_seed, race_seed,
    second_player_seed, settle_casual_roster, total_cars, update_modality_preference, CasualRoster,
    DriverTier, GameMode, ModalityPreference, ModalityPreferences,
};

#[test]
fn difficulty_cycles_through_five_tiers() {
    let mut t = DriverTier::Rookie;
    let mut seen = Vec::new();
    for _ in 0..5 {
        seen.push(t);
        t = t.next();
    }
    assert_eq!(t, DriverTier::Rookie);
    assert_eq!(
        seen,
        vec![DriverTier::Rookie, DriverTier::Amateur, DriverTier::Contender, DriverTier::Pro, DriverTier::Legend]
    );
}

#[test]
fn bot_limits() {
    assert_eq!(human_count(true), 2);
    assert_eq!(human_count(false), 1);
    assert_eq!(max_bots(12, false), 11);
    assert_eq!(max_bots(12, true), 10);
    assert_eq!(max_bots(1, false), 1);
    assert_eq!(max_bots(0, true), 1);
    assert_eq!(total_cars(true, false, 7, 12), 1);
    assert_eq!(total_cars(false, false, 7, 12), 8);
    assert_eq!(total_cars(false, true, 11, 12), 12);
    assert_eq!(championship_bot_count(7, 12, false), 7);
    assert_eq!(championship_bot_count(15, 12, true), 10);
    assert_eq!(championship_bot_count(3, 1, true), 0);
}

#[test]
fn bots_for_racer_counts() {
    assert_eq!(bots_for_racers(6, false, 10), 5);
    assert_eq!(bots_for_racers(0, false, 10), 1);
    assert_eq!(bots_for_racers(0, true, 10), 0);
    assert_eq!(bots_for_racers(50, true, 10), 8);
}

#[test]
fn first_casual_race_fills_the_grid_at_rookie() {
    let mut prefs = ModalityPreferences::new();
    let r = settle_casual_roster(&mut prefs, GameMode::StandardRace, false, 8, 3, 3, DriverTier::Pro, DriverTier::Pro);
    assert_eq!(r, CasualRoster { num_bots: 7, difficulty: DriverTier::Rookie });
    assert_eq!(
        prefs.modality_preference(GameMode::StandardRace),
        Some(ModalityPreference { racer_count: 8, difficulty: DriverTier::Rookie })
    );
    assert_eq!(prefs.modality_preference(GameMode::SplitScreen), None);
}

#[test]
fn explicit_changes_are_remembered() {
    let mut prefs = ModalityPreferences::new();
    prefs.insert(GameMode::StandardRace, ModalityPreference { racer_count: 6, difficulty: DriverTier::Amateur });
    let r = settle_casual_roster(&mut prefs, GameMode::StandardRace, false, 8, 2, 5, DriverTier::Legend, DriverTier::Amateur);
    assert_eq!(r, CasualRoster { num_bots: 2, difficulty: DriverTier::Legend });
    assert_eq!(
        prefs.modality_preference(GameMode::StandardRace),
        Some(ModalityPreference { racer_count: 3, difficulty: DriverTier::Legend })
    );
    let again = settle_casual_roster(&mut prefs, GameMode::StandardRace, false, 8, 2, 2, DriverTier::Legend, DriverTier::Legend);
    assert_eq!(again, r);
}

#[test]
fn remembered_count_is_clamped_to_the_grid() {
    let mut prefs = ModalityPreferences::new();
    prefs.insert(GameMode::SplitScreen, ModalityPreference { racer_count: 20, difficulty: DriverTier::Pro });
    let r = settle_casual_roster(&mut prefs, GameMode::SplitScreen, true, 6, 1, 1, DriverTier::Pro, DriverTier::Pro);
    assert_eq!(r, CasualRoster { num_bots: 4, difficulty: DriverTier::Pro });
}

#[test]
fn record_helpers_keep_the_other_field() {
    let mut prefs = ModalityPreferences::new();
    prefs.record_racer_count(GameMode::FreeRide, 5, DriverTier::Contender);
    assert_eq!(
        prefs.modality_preference(GameMode::FreeRide),
        Some(ModalityPreference { racer_count: 5, difficulty: DriverTier::Contender })
    );
    prefs.record_difficulty(GameMode::FreeRide, DriverTier::Legend, 99);
    assert_eq!(
        prefs.modality_preference(GameMode::FreeRide),
        Some(ModalityPreference { racer_count: 5, difficulty: DriverTier::Legend })
    );
    prefs.record_difficulty(GameMode::TimeTrial, DriverTier::Pro, 4);
    assert_eq!(
        prefs.modality_preference(GameMode::TimeTrial),
        Some(ModalityPreference { racer_count: 4, difficulty: DriverTier::Pro })
    );
}

#[test]
fn updating_preference_of_active_mode_resizes_roster() {
    let mut prefs = ModalityPreferences::new();
    let r = update_modality_preference(&mut prefs, GameMode::StandardRace, 4, DriverTier::Pro, GameMode::StandardRace, false, 10);
    assert_eq!(r, Some(CasualRoster { num_bots: 3, difficulty: DriverTier::Pro }));
    let other = update_modality_preference(&mut prefs, GameMode::Career, 4, DriverTier::Pro, GameMode::StandardRace, false, 10);
    assert_eq!(other, None);
    assert_eq!(
        prefs.modality_preference(GameMode::Career),
        Some(ModalityPreference { racer_count: 4, difficulty: DriverTier::Pro })
    );
}

#[test]
fn seeds_follow_wrapping_arithmetic() {
    assert_eq!(player_seed(1), 0x9E3779B97F4A7C15);
    assert_eq!(second_player_seed(1), 0x517CC1B727220A95);
    assert_eq!(bot_seed(10, 0), 10u64.wrapping_add(0x9E3779B97F4A7C15));
    assert_eq!(bot_seed(u64::MAX, 1), u64::MAX.wrapping_add(2u64.wrapping_mul(0x9E3779B97F4A7C15)));
    assert_eq!(race_seed(u64::MAX, 1), 100);
    assert!(GameMode::SplitScreen.is_split_screen());
    assert!(!GameMode::Career.is_split_screen());
}

#[test]
fn grid_lineup_before_ordering() {
    assert_eq!(
        grid_lineup(false, false, 4, 10),
        vec![Entrant::Human(0), Entrant::Opponent(0), Entrant::Opponent(1), Entrant::Opponent(2)]
    );
    assert_eq!(
        grid_lineup(false, true, 4, 1),
        vec![Entrant::Human(0), Entrant::Human(1), Entrant::Opponent(0)]
    );
    assert_eq!(grid_lineup(true, true, 1, 5), vec![Entrant::Human(0), Entrant::Human(1)]);
    assert_eq!(grid_lineup(false, false, 1, 5), vec![Entrant::Human(0)]);
}
