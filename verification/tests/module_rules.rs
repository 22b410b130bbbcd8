use tdrace_session::modules::{
    active_car_unlock_rule, active_player_car_choice, car_unlock_rule, default_car_from_config,
    default_track_from_config, gt_tier_car, is_car_eligible, is_stunt_scoring_enabled,
    laps_after_switch, max_grid_participants, module_car_choices, race_car_choices, module_default_model,
    module_engine_sound, module_for_select_index, module_switch_car, opponent_car_pool,
    opponent_pool_index, resolve_active_sound, same_text, sample_opponent_car, switch_target,
    CarChoice, EngineSoundType, ModuleId, PresetTrack, UnlockRule,
};
use tdrace_session::roster::GameMode;

#[test]
fn module_identifiers() {
    assert_eq!(ModuleId::from_id("gt_challenge"), ModuleId::GtChallenge);
    assert_eq!(ModuleId::from_id("extreme_offroad"), ModuleId::ExtremeOffroad);
    assert_eq!(ModuleId::from_id("offroad"), ModuleId::Other);
    assert_eq!(switch_target("offroad"), ModuleId::ExtremeOffroad);
    assert_eq!(switch_target("gt_challenge"), ModuleId::Gt);
    assert_eq!(switch_target("monaco"), ModuleId::Classic);
    assert!(ModuleId::GtChallenge.is_gt());
    assert!(same_text("kart", "kart"));
    assert!(!same_text("kart", "karts"));
}

#[test]
fn module_select_entries() {
    let picked: Vec<ModuleId> = (0..8).map(module_for_select_index).collect();
    assert_eq!(
        picked,
        vec![
            ModuleId::Classic,
            ModuleId::Classic,
            ModuleId::Rally,
            ModuleId::Kart,
            ModuleId::Gt,
            ModuleId::Nascar,
            ModuleId::ExtremeOffroad,
            ModuleId::Classic
        ]
    );
}

#[test]
fn stunt_scoring() {
    assert!(is_stunt_scoring_enabled(None, ModuleId::Classic));
    assert!(!is_stunt_scoring_enabled(None, ModuleId::Gt));
    assert!(is_stunt_scoring_enabled(Some(true), ModuleId::Nascar));
    assert!(!is_stunt_scoring_enabled(Some(false), ModuleId::Classic));
}

#[test]
fn module_switch_defaults() {
    assert_eq!(laps_after_switch(ModuleId::Gt, 3, 3), 5);
    assert_eq!(laps_after_switch(ModuleId::Kart, 3, 3), 4);
    assert_eq!(laps_after_switch(ModuleId::Nascar, 3, 3), 3);
    assert_eq!(laps_after_switch(ModuleId::Gt, 7, 3), 7);
    assert_eq!(module_default_model(ModuleId::Kart), Some("kart_crg_hero_60"));
    assert_eq!(module_default_model(ModuleId::Classic), None);
    assert_eq!(module_switch_car(ModuleId::ExtremeOffroad), Some(CarChoice::SandRail));
    assert_eq!(module_switch_car(ModuleId::Gt), None);
}

#[test]
fn car_choices_and_opponent_pools() {
    assert_eq!(module_car_choices(ModuleId::Nascar), vec![CarChoice::StockCar]);
    assert_eq!(module_car_choices(ModuleId::Gt).len(), 5);
    assert_eq!(module_car_choices(ModuleId::Other)[1], CarChoice::DriftCar);
    assert_eq!(opponent_car_pool(ModuleId::Classic, ModuleId::Gt, CarChoice::Kart), vec![CarChoice::Kart]);
    assert_eq!(opponent_car_pool(ModuleId::Gt, ModuleId::Rally, CarChoice::Kart), vec![CarChoice::RallyCar]);
    assert_eq!(opponent_car_pool(ModuleId::Gt, ModuleId::Other, CarChoice::Kart), vec![CarChoice::Kart]);
}

#[test]
fn opponent_draw_matches_the_hash() {
    let seed: u64 = 0xDEADBEEF;
    let idx: usize = 3;
    let h = seed.wrapping_mul(0x517CC1B727220A95).wrapping_add((idx as u64).wrapping_mul(0x9E3779B97F4A7C15));
    let expected = ((h >> 32) as usize) % 5;
    assert_eq!(opponent_pool_index(idx, seed, 5), expected);
    let pool = module_car_choices(ModuleId::Gt);
    assert_eq!(sample_opponent_car(&pool, idx, seed, CarChoice::SportsCar), pool[expected]);
    assert_eq!(sample_opponent_car(&Vec::new(), idx, seed, CarChoice::DriftCar), CarChoice::DriftCar);
    assert_eq!(sample_opponent_car(&vec![CarChoice::Kart], idx, seed, CarChoice::DriftCar), CarChoice::Kart);
    assert_eq!(opponent_pool_index(0, 0, 7), 0);
}

#[test]
fn gt_cars_by_tier() {
    assert_eq!(gt_tier_car(1), CarChoice::GT4Clubsport);
    assert_eq!(gt_tier_car(4), CarChoice::GT1Legend);
    assert_eq!(gt_tier_car(0), CarChoice::HypercarPrototype);
    assert_eq!(gt_tier_car(5), CarChoice::HypercarPrototype);
}

#[test]
fn configured_defaults() {
    assert_eq!(default_track_from_config("dune_raid"), PresetTrack::OasisRally);
    assert_eq!(default_track_from_config("kart_arena"), PresetTrack::KartArena);
    assert_eq!(default_track_from_config("nowhere"), PresetTrack::ClassicGrandPrix);
    assert_eq!(default_car_from_config("rally_car"), CarChoice::RallyCar);
    assert_eq!(default_car_from_config("bus"), CarChoice::SportsCar);
}

#[test]
fn unlock_rules() {
    assert_eq!(car_unlock_rule(CarChoice::GT3Car, false, ModuleId::Gt), UnlockRule::Career("gt3_evo"));
    assert_eq!(car_unlock_rule(CarChoice::GT3Car, true, ModuleId::Gt), UnlockRule::Always);
    assert_eq!(car_unlock_rule(CarChoice::GT3Car, false, ModuleId::Classic), UnlockRule::Always);
    assert_eq!(car_unlock_rule(CarChoice::Kart, false, ModuleId::Kart), UnlockRule::Always);
    assert_eq!(
        active_car_unlock_rule(false, ModuleId::Gt, GameMode::Career, Some("gt_porsche"), CarChoice::GT3Car),
        UnlockRule::Career("gt_porsche")
    );
    assert_eq!(
        active_car_unlock_rule(false, ModuleId::Gt, GameMode::StandardRace, Some("gt_porsche"), CarChoice::GT3Car),
        UnlockRule::Always
    );
    assert_eq!(
        active_car_unlock_rule(false, ModuleId::Gt, GameMode::Career, None, CarChoice::GT1Legend),
        UnlockRule::Career("gt1_legend")
    );
}

#[test]
fn eligibility_and_player_car() {
    assert!(is_car_eligible(true, 5, 1, false));
    assert!(!is_car_eligible(false, 3, 2, true));
    assert!(is_car_eligible(false, 2, 2, true));
    assert!(!is_car_eligible(false, 1, 2, false));
    assert_eq!(active_player_car_choice(true, CarChoice::Kart, CarChoice::StockCar), CarChoice::Kart);
    assert_eq!(active_player_car_choice(false, CarChoice::Kart, CarChoice::StockCar), CarChoice::StockCar);
    assert_eq!(max_grid_participants(0, 8), 8);
    assert_eq!(max_grid_participants(12, 8), 12);
}

#[test]
fn engine_sounds() {
    assert_eq!(module_engine_sound(ModuleId::Kart), Some(EngineSoundType::Kart125cc));
    assert_eq!(module_engine_sound(ModuleId::Classic), None);
    let s = EngineSoundType::SandRailBoxer;
    assert_eq!(resolve_active_sound(true, None, EngineSoundType::NascarV8, Some(s), ModuleId::Gt, s), EngineSoundType::NascarV8);
    assert_eq!(resolve_active_sound(false, None, s, Some(EngineSoundType::RallyTurbo), ModuleId::Gt, s), EngineSoundType::RallyTurbo);
    assert_eq!(resolve_active_sound(false, None, s, None, ModuleId::Classic, EngineSoundType::Kart125cc), EngineSoundType::Kart125cc);
    assert_eq!(resolve_active_sound(false, None, s, None, ModuleId::Nascar, s), EngineSoundType::NascarV8);
    assert_eq!(resolve_active_sound(false, None, s, None, ModuleId::Other, EngineSoundType::SportGT), EngineSoundType::SportGT);
}

#[test]
fn race_tier_filters_the_gt_cars() {
    let gt_tiers = vec![1, 2, 3, 4, 5];
    assert_eq!(
        race_car_choices(ModuleId::Gt, 2, false, &gt_tiers),
        vec![CarChoice::GT4Clubsport, CarChoice::GT3Car]
    );
    assert_eq!(race_car_choices(ModuleId::GtChallenge, 2, true, &gt_tiers).len(), 5);
    assert_eq!(race_car_choices(ModuleId::Gt, 0, false, &gt_tiers), Vec::<CarChoice>::new());
    assert_eq!(race_car_choices(ModuleId::Nascar, 0, false, &vec![9]), vec![CarChoice::StockCar]);
    assert_eq!(race_car_choices(ModuleId::Classic, 0, false, &vec![9, 9, 9, 9, 9]).len(), 5);
}
