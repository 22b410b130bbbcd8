use tdrace_session::standings::{
    best_lap_index, bot_of_car, build_results, car_of_bot, compute_standings, fastest_lap_holder,
    is_fastest_so_far, is_personal_best, player_finished, player_position, podium_place,
    sector_verdict, trophy_for_standing, RaceProgress, ResultLine, SectorVerdict, Trophy,
};
use tdrace_session::standings::{
    finisher_name, nameplate_label, opponent_finisher_car, round_entrant, FinisherCar, FinisherName,
    NameplateLabel, RoundEntrant,
};

fn at(lap: u32, progress: u64) -> RaceProgress {
    RaceProgress { current_lap: lap, progress }
}

#[test]
fn standings_rank_laps_then_progress_then_index() {
    let cars = vec![at(2, 100), at(3, 10), at(2, 900), at(2, 100), at(1, 999)];
    assert_eq!(compute_standings(&cars), vec![1, 2, 0, 3, 4]);
}

#[test]
fn standings_of_empty_race() {
    assert_eq!(compute_standings(&Vec::new()), Vec::<usize>::new());
}

#[test]
fn race_is_over_after_last_lap() {
    assert!(!player_finished(&vec![3, 5], 3, false));
    assert!(player_finished(&vec![4, 1], 3, false));
    assert!(!player_finished(&vec![3, 4], 3, false));
    assert!(player_finished(&vec![3, 4], 3, true));
    assert!(!player_finished(&Vec::new(), 3, true));
}

#[test]
fn results_number_positions_and_mark_humans() {
    let lines = build_results(&vec![2, 0, 1], true);
    assert_eq!(
        lines,
        vec![
            ResultLine { position: 1, car_idx: 2, is_player: false },
            ResultLine { position: 2, car_idx: 0, is_player: true },
            ResultLine { position: 3, car_idx: 1, is_player: true },
        ]
    );
    let single = build_results(&vec![2, 1, 0], false);
    assert!(!single[1].is_player);
    assert_eq!(player_position(&single), 3);
    assert_eq!(player_position(&lines), 2);
    assert_eq!(player_position(&Vec::new()), 1);
}

#[test]
fn podium_only_top_three() {
    assert_eq!(podium_place(1), Some(1));
    assert_eq!(podium_place(3), Some(3));
    assert_eq!(podium_place(4), None);
}

#[test]
fn bot_and_car_indices_round_trip() {
    assert_eq!(car_of_bot(0, false), 1);
    assert_eq!(car_of_bot(0, true), 2);
    assert_eq!(bot_of_car(car_of_bot(5, true), true), 5);
    assert_eq!(bot_of_car(0, false), 0);
    assert_eq!(bot_of_car(1, true), 0);
}

#[test]
fn personal_best_needs_a_faster_lap() {
    assert!(is_personal_best(Some(100), None));
    assert!(is_personal_best(Some(99), Some(100)));
    assert!(!is_personal_best(Some(100), Some(100)));
    assert!(!is_personal_best(None, Some(100)));
}

#[test]
fn fastest_lap_goes_to_first_holder_of_the_minimum() {
    assert_eq!(fastest_lap_holder(&vec![None, Some(70_000), Some(65_000), Some(65_000)]), Some(2));
    // 60.00008 s then 60.0 s: within the tie window, the first holds the fastest lap.
    assert_eq!(fastest_lap_holder(&vec![Some(60_000_080), Some(60_000_000)]), Some(0));
    assert_eq!(fastest_lap_holder(&vec![Some(60_000_100), Some(60_000_000)]), Some(1));
    assert_eq!(fastest_lap_holder(&vec![None, None]), None);
    assert_eq!(fastest_lap_holder(&Vec::new()), None);
}

#[test]
fn best_lap_index_and_fastest_so_far() {
    assert_eq!(best_lap_index(&vec![900, 800, 800, 850]), Some(1));
    assert_eq!(best_lap_index(&Vec::new()), None);
    assert!(is_fastest_so_far(&vec![900, 800], 800));
    assert!(!is_fastest_so_far(&vec![900, 799], 800));
    assert!(is_fastest_so_far(&Vec::new(), 5));
}

#[test]
fn sector_verdicts() {
    assert_eq!(sector_verdict(50_000, None), SectorVerdict::Silent);
    assert_eq!(sector_verdict(50_001, None), SectorVerdict::Benchmark);
    assert_eq!(sector_verdict(1_000_000, Some(1_005_001)), SectorVerdict::Faster);
    assert_eq!(sector_verdict(1_000_000, Some(1_005_000)), SectorVerdict::Slower);
    assert_eq!(sector_verdict(1_000_000, Some(900_000)), SectorVerdict::Slower);
}

#[test]
fn trophies_for_the_top_three() {
    assert_eq!(trophy_for_standing(0), Some(Trophy::Gold));
    assert_eq!(trophy_for_standing(1), Some(Trophy::Silver));
    assert_eq!(trophy_for_standing(2), Some(Trophy::Bronze));
    assert_eq!(trophy_for_standing(3), None);
}

#[test]
fn hall_of_fame_names() {
    assert_eq!(finisher_name(0, false, 3), FinisherName::Alias);
    assert_eq!(finisher_name(0, true, 3), FinisherName::AliasAsFirstPlayer);
    assert_eq!(finisher_name(1, true, 3), FinisherName::SecondPlayer);
    assert_eq!(finisher_name(1, false, 3), FinisherName::Opponent(0));
    assert_eq!(finisher_name(4, true, 3), FinisherName::Opponent(2));
    assert_eq!(finisher_name(4, false, 3), FinisherName::UnknownCar(4));
}

#[test]
fn hall_of_fame_opponent_cars() {
    assert_eq!(opponent_finisher_car(true, false), FinisherCar::FavoriteModel);
    assert_eq!(opponent_finisher_car(false, true), FinisherCar::PreferredCar);
    assert_eq!(opponent_finisher_car(false, false), FinisherCar::PlayersCar);
}

#[test]
fn championship_round_entrants() {
    let player = ResultLine { position: 1, car_idx: 0, is_player: true };
    let bot = ResultLine { position: 2, car_idx: 3, is_player: false };
    assert_eq!(round_entrant(player, 0, false, 2), RoundEntrant::Player);
    assert_eq!(round_entrant(bot, 1, false, 3), RoundEntrant::Opponent(2));
    assert_eq!(round_entrant(bot, 1, true, 3), RoundEntrant::Opponent(1));
    assert_eq!(round_entrant(bot, 1, false, 2), RoundEntrant::Anonymous { place: 1, car_idx: 3 });
}

#[test]
fn nameplates_over_other_cars() {
    assert_eq!(nameplate_label(0, true, 3, false), NameplateLabel::Alias);
    assert_eq!(nameplate_label(1, true, 3, false), NameplateLabel::SecondPlayer);
    assert_eq!(nameplate_label(2, true, 3, false), NameplateLabel::OpponentAlias(0));
    assert_eq!(nameplate_label(3, false, 3, true), NameplateLabel::OpponentName(2));
    assert_eq!(nameplate_label(4, false, 3, true), NameplateLabel::Opponent);
}
