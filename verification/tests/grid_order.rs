use std::cmp::Ordering;
use tdrace_session::grid::{
    bot_slot, championship_ranks, grid_sort_applies, participant_driver_id, player_slot, sort_grid,
    sort_grid_by_rank, standings_rank, arrange_by_priority, GridParticipant,
};
use tdrace_session::modules::CarChoice;
use tdrace_session::roster::DriverTier;

fn entrant(name: &str, is_player: bool, bot: Option<usize>, lap: Option<u64>, race: Option<u64>, seed: u64) -> GridParticipant {
    GridParticipant {
        is_player,
        bot_index: bot,
        name: name.to_string(),
        alias: name.to_string(),
        country: None,
        car_title: "Car".to_string(),
        car_choice: CarChoice::SportsCar,
        model_id: None,
        best_lap: lap,
        best_circuit_time: race,
        random_seed: seed,
        driver_tier: if is_player { None } else { Some(DriverTier::Rookie) },
    }
}

#[test]
fn faster_best_lap_starts_ahead() {
    let a = entrant("a", false, Some(0), Some(81_234_500), None, 9);
    let b = entrant("b", false, Some(1), Some(81_234_601), None, 1);
    assert_eq!(a.cmp_grid_priority(&b), Ordering::Less);
    assert_eq!(b.cmp_grid_priority(&a), Ordering::Greater);
}

#[test]
fn recorded_lap_beats_no_record() {
    let a = entrant("a", false, Some(0), Some(999_999), None, 9);
    let b = entrant("b", false, Some(1), None, Some(1), 1);
    assert_eq!(a.cmp_grid_priority(&b), Ordering::Less);
    assert_eq!(b.cmp_grid_priority(&a), Ordering::Greater);
}

#[test]
fn equal_laps_fall_back_to_race_time_then_seed() {
    let a = entrant("a", false, Some(0), Some(500_000), Some(3_000_000), 7);
    let b = entrant("b", false, Some(1), Some(500_000), Some(2_900_000), 7);
    assert_eq!(a.cmp_grid_priority(&b), Ordering::Greater);
    let c = entrant("c", false, Some(2), None, None, 3);
    let d = entrant("d", false, Some(3), None, None, 4);
    assert_eq!(c.cmp_grid_priority(&d), Ordering::Less);
    assert_eq!(c.cmp_grid_priority(&c), Ordering::Equal);
}

#[test]
fn grid_sorts_stably_by_priority() {
    let ps = vec![
        entrant("slow", false, Some(0), Some(70_000), None, 1),
        entrant("none", false, Some(1), None, None, 0),
        entrant("fast", true, None, Some(60_000), None, 5),
        entrant("twin", false, Some(2), Some(70_000), None, 1),
    ];
    let order = arrange_by_priority(&ps);
    assert_eq!(order, vec![2, 0, 3, 1]);
    let sorted = sort_grid(&ps);
    let names: Vec<&str> = sorted.iter().map(|p| p.name.as_str()).collect();
    assert_eq!(names, vec!["fast", "slow", "twin", "none"]);
}

#[test]
fn championship_rank_comes_before_priority() {
    let ps = vec![
        entrant("me", true, None, Some(10_000), None, 0),
        entrant("rival", false, Some(0), Some(20_000), None, 0),
        entrant("guest", false, Some(1), Some(5_000), None, 0),
    ];
    let opponent_ids = vec!["rival_id".to_string(), "guest_id".to_string()];
    let standings = vec!["rival_id".to_string(), "player".to_string()];
    let ranks = championship_ranks(&ps, &opponent_ids, &standings);
    assert_eq!(ranks, vec![1, 0, usize::MAX]);
    let sorted = sort_grid_by_rank(&ps, &ranks);
    let names: Vec<&str> = sorted.iter().map(|p| p.name.as_str()).collect();
    assert_eq!(names, vec!["rival", "me", "guest"]);
}

#[test]
fn driver_ids_and_standings_positions() {
    let opponent_ids = vec!["max_hunter".to_string()];
    let me = entrant("me", true, None, None, None, 0);
    let bot = entrant("bot", false, Some(0), None, None, 0);
    let lost = entrant("lost", false, Some(5), None, None, 0);
    assert_eq!(participant_driver_id(&me, &opponent_ids), "player");
    assert_eq!(participant_driver_id(&bot, &opponent_ids), "max_hunter");
    assert_eq!(participant_driver_id(&lost, &opponent_ids), "");
    let standings = vec!["a".to_string(), "max_hunter".to_string(), "max_hunter".to_string()];
    assert_eq!(standings_rank(&standings, &"max_hunter".to_string()), 1);
    assert_eq!(standings_rank(&standings, &"zzz".to_string()), usize::MAX);
}

#[test]
fn grid_slots_of_player_and_bots() {
    let ps = vec![
        entrant("b0", false, Some(0), None, None, 0),
        entrant("me", true, None, None, None, 0),
        entrant("b1", false, Some(1), None, None, 0),
    ];
    assert_eq!(player_slot(&ps, false), 1);
    assert_eq!(player_slot(&ps, true), 0);
    assert_eq!(player_slot(&ps[..1].to_vec(), false), 0);
    assert_eq!(bot_slot(&ps, 1, false), 2);
    assert_eq!(bot_slot(&ps, 7, false), 8);
    assert_eq!(bot_slot(&ps, 7, true), 9);
}

#[test]
fn sorting_applies_only_to_single_player_races_with_rivals() {
    assert!(grid_sort_applies(false, false, 4));
    assert!(!grid_sort_applies(true, false, 4));
    assert!(!grid_sort_applies(false, true, 4));
    assert!(!grid_sort_applies(false, false, 1));
}

#[test]
fn duplicate_copies_every_field() {
    let p = entrant("copy", false, Some(3), Some(1), Some(2), 42);
    let q = p.duplicate();
    assert_eq!(q.name, "copy");
    assert_eq!(q.bot_index, Some(3));
    assert_eq!(q.best_lap, Some(1));
    assert_eq!(q.best_circuit_time, Some(2));
    assert_eq!(q.random_seed, 42);
}

#[test]
fn laps_within_the_tie_window_fall_back_to_race_time() {
    // Best laps 1.0 s and 1.00006 s tie; the race time then decides.
    let a = entrant("a", false, Some(0), Some(1_000_000), Some(3_000_000), 1);
    let b = entrant("b", false, Some(1), Some(1_000_060), Some(2_900_000), 9);
    assert_eq!(a.cmp_grid_priority(&b), Ordering::Greater);
    assert_eq!(b.cmp_grid_priority(&a), Ordering::Less);
    // Exactly the window apart still ties; one microsecond more decides.
    let c = entrant("c", false, Some(2), Some(1_000_100), Some(2_900_000), 9);
    assert_eq!(a.cmp_grid_priority(&c), Ordering::Greater);
    let d = entrant("d", false, Some(3), Some(1_000_101), Some(2_900_000), 9);
    assert_eq!(a.cmp_grid_priority(&d), Ordering::Less);
    let sorted = sort_grid(&vec![a, b]);
    assert_eq!(sorted[0].name, "b");
}

#[test]
fn grid_without_a_consistent_order_is_ordered_pair_by_pair() {
    // a ties b and b ties c on lap time, but a is ahead of c on it;
    // race times put c ahead of b and b ahead of a.
    let a = entrant("a", false, Some(0), Some(1_000_000), Some(3_000_000), 0);
    let b = entrant("b", false, Some(1), Some(1_000_080), Some(2_000_000), 0);
    let c = entrant("c", false, Some(2), Some(1_000_160), Some(1_000_000), 0);
    let ps = vec![a, b, c];
    let order = arrange_by_priority(&ps);
    assert_eq!(order.len(), 3);
    for k in 0..2 {
        assert_ne!(ps[order[k]].cmp_grid_priority(&ps[order[k + 1]]), Ordering::Greater);
    }
}
