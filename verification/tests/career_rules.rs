use tdrace_session::career::{
    advance_championship_round, bot_model_index, choose_calendar, current_race_required_tier,
    earns_career_xp, grid_tier, is_championship_unlocked, is_track_unlocked, race_laps,
    resolve_bot_tier, resumes_saved_championship, visit_circuit, BotTierSource, GridTierContext,
    RoundAdvance, TierContext, XpAwardReceipt,
};
use tdrace_session::career::{
    bot_car_setup, fallback_bot_car, fallback_car_rule, player_car_setup, second_player_scheme,
    unknown_contender_look, CarSetupSource, FallbackCar,
};
use tdrace_session::modules::CarChoice;
use tdrace_session::modules::ModuleId;
use tdrace_session::roster::{DriverTier, GameMode};

fn texts(v: &[&str]) -> Vec<String> {
    v.iter().map(|s| s.to_string()).collect()
}

#[test]
fn xp_receipt_for_a_first_visit() {
    let r = XpAwardReceipt::for_race(120, 3, true, 500, 1_000);
    assert_eq!(r.lap_xp, 360);
    assert_eq!(r.completion_bonus, 360);
    assert_eq!(r.first_time_bonus, 500);
    assert_eq!(r.total_xp, 1_220);
    assert_eq!(r.new_balance, 2_220);
    assert!(r.is_first_time);
}

#[test]
fn xp_receipt_for_a_return_visit() {
    let r = XpAwardReceipt::for_race(50, 4, false, 750, 0);
    assert_eq!(r.first_time_bonus, 0);
    assert_eq!(r.total_xp, 400);
    assert_eq!(r.new_balance, 400);
    assert_eq!(XpAwardReceipt::default().total_xp, 0);
}

#[test]
fn career_xp_only_in_gt_or_career() {
    assert!(earns_career_xp(ModuleId::Gt, GameMode::StandardRace));
    assert!(earns_career_xp(ModuleId::Rally, GameMode::Career));
    assert!(!earns_career_xp(ModuleId::GtChallenge, GameMode::StandardRace));
    assert!(!earns_career_xp(ModuleId::Classic, GameMode::TimeTrial));
}

#[test]
fn circuits_are_visited_once() {
    let mut visited = texts(&["monza"]);
    assert!(!visit_circuit(&mut visited, &"monza".to_string()));
    assert_eq!(visited, texts(&["monza"]));
    assert!(visit_circuit(&mut visited, &"spa".to_string()));
    assert_eq!(visited, texts(&["monza", "spa"]));
}

#[test]
fn custom_calendar_must_keep_length_and_mandatory_rounds() {
    let default = texts(&["monza", "spa", "silverstone"]);
    let mandatory = texts(&["spa"]);
    let ok = texts(&["spa", "zandvoort", "imola"]);
    assert_eq!(choose_calendar(Some(ok.clone()), default.clone(), &mandatory), ok);
    let missing = texts(&["monza", "zandvoort", "imola"]);
    assert_eq!(choose_calendar(Some(missing), default.clone(), &mandatory), default);
    let short = texts(&["spa"]);
    assert_eq!(choose_calendar(Some(short), default.clone(), &mandatory), default);
    assert_eq!(choose_calendar(None, default.clone(), &mandatory), default);
}

#[test]
fn saved_championship_is_resumed_only_if_unfinished_and_same_tier() {
    assert!(resumes_saved_championship(Some((false, 3)), 3));
    assert!(!resumes_saved_championship(Some((true, 3)), 3));
    assert!(!resumes_saved_championship(Some((false, 2)), 3));
    assert!(!resumes_saved_championship(None, 3));
}

fn tier_ctx() -> TierContext {
    TierContext {
        classic_module: false,
        championship_tier: None,
        career_mode: false,
        career_level: 0,
        free_car_selection: false,
        player_car_tier: 4,
        predefined_car_tier: 2,
    }
}

#[test]
fn required_tier_cascade() {
    assert_eq!(current_race_required_tier(&TierContext { classic_module: true, ..tier_ctx() }), 5);
    assert_eq!(current_race_required_tier(&TierContext { championship_tier: Some(9), ..tier_ctx() }), 5);
    assert_eq!(current_race_required_tier(&TierContext { championship_tier: Some(256), ..tier_ctx() }), 1);
    assert_eq!(current_race_required_tier(&TierContext { career_mode: true, career_level: 3, ..tier_ctx() }), 3);
    assert_eq!(current_race_required_tier(&TierContext { free_car_selection: true, ..tier_ctx() }), 4);
    assert_eq!(current_race_required_tier(&tier_ctx()), 2);
}

#[test]
fn grid_tier_cascade() {
    let base = GridTierContext {
        classic_track: false,
        championship_tier: None,
        player_model_tier: None,
        career_mode: false,
        career_level: 0,
        player_car_tier: 0,
    };
    assert_eq!(grid_tier(&GridTierContext { classic_track: true, ..base }), 1);
    assert_eq!(grid_tier(&GridTierContext { championship_tier: Some(4), player_model_tier: Some(2), ..base }), 4);
    assert_eq!(grid_tier(&GridTierContext { player_model_tier: Some(7), ..base }), 5);
    assert_eq!(grid_tier(&GridTierContext { career_mode: true, career_level: 2, ..base }), 2);
    assert_eq!(grid_tier(&base), 1);
}

#[test]
fn championship_unlocking() {
    assert!(is_championship_unlocked(false, 1, None, None));
    assert!(is_championship_unlocked(true, 5, Some(1), None));
    assert!(is_championship_unlocked(false, 3, Some(3), None));
    assert!(!is_championship_unlocked(false, 3, Some(2), Some(5)));
    assert!(is_championship_unlocked(false, 3, None, Some(4)));
    assert!(!is_championship_unlocked(false, 3, None, None));
}

#[test]
fn track_unlocking() {
    assert!(is_track_unlocked(false, ModuleId::Rally, false));
    assert!(!is_track_unlocked(false, ModuleId::Gt, false));
    assert!(is_track_unlocked(true, ModuleId::Gt, false));
    assert!(is_track_unlocked(false, ModuleId::Gt, true));
}

#[test]
fn after_a_round() {
    assert_eq!(advance_championship_round(true, true, GameMode::Career, ModuleId::Gt, 2), RoundAdvance::NextRound);
    assert_eq!(advance_championship_round(true, false, GameMode::Career, ModuleId::Gt, 9), RoundAdvance::CareerHub(5));
    assert_eq!(
        advance_championship_round(true, false, GameMode::StandardRace, ModuleId::Gt, 2),
        RoundAdvance::Menu { end_championship: true }
    );
    assert_eq!(
        advance_championship_round(false, true, GameMode::Career, ModuleId::Nascar, 2),
        RoundAdvance::Menu { end_championship: false }
    );
}

#[test]
fn race_lap_counts() {
    assert_eq!(race_laps(Some((Some(5), 3)), 2), 5);
    assert_eq!(race_laps(Some((None, 4)), 2), 4);
    assert_eq!(race_laps(Some((None, 0)), 2), 2);
    assert_eq!(race_laps(None, 6), 6);
}

#[test]
fn bot_tiers_and_models() {
    assert_eq!(resolve_bot_tier(BotTierSource::Championship(None), DriverTier::Pro, DriverTier::Rookie), DriverTier::Pro);
    assert_eq!(resolve_bot_tier(BotTierSource::Career(Some(DriverTier::Legend)), DriverTier::Pro, DriverTier::Rookie), DriverTier::Legend);
    assert_eq!(resolve_bot_tier(BotTierSource::Casual(None), DriverTier::Pro, DriverTier::Amateur), DriverTier::Amateur);
    assert_eq!(bot_model_index(Some(2), 7, 4), 2);
    assert_eq!(bot_model_index(None, 7, 4), 3);
}

#[test]
fn opponent_cars_without_catalog_models() {
    assert_eq!(fallback_car_rule(GameMode::ExperimentalRace, true, true, true), FallbackCar::PlayersCar);
    assert_eq!(fallback_car_rule(GameMode::Career, false, true, true), FallbackCar::Predefined);
    assert_eq!(fallback_car_rule(GameMode::StandardRace, true, true, true), FallbackCar::Predefined);
    assert_eq!(fallback_car_rule(GameMode::StandardRace, false, true, true), FallbackCar::Preferred);
    assert_eq!(fallback_car_rule(GameMode::StandardRace, false, false, true), FallbackCar::Drawn);
    assert_eq!(fallback_car_rule(GameMode::SplitScreen, false, false, false), FallbackCar::Predefined);

    let pool = vec![CarChoice::Kart];
    assert_eq!(
        fallback_bot_car(FallbackCar::PlayersCar, CarChoice::GT3Car, CarChoice::Kart, CarChoice::RallyCar, &pool, 0, 7),
        CarChoice::GT3Car
    );
    assert_eq!(
        fallback_bot_car(FallbackCar::Preferred, CarChoice::GT3Car, CarChoice::Kart, CarChoice::RallyCar, &pool, 0, 7),
        CarChoice::RallyCar
    );
    assert_eq!(
        fallback_bot_car(FallbackCar::Drawn, CarChoice::GT3Car, CarChoice::StockCar, CarChoice::RallyCar, &pool, 3, 7),
        CarChoice::Kart
    );
    assert_eq!(
        fallback_bot_car(FallbackCar::Drawn, CarChoice::GT3Car, CarChoice::StockCar, CarChoice::RallyCar, &Vec::new(), 3, 7),
        CarChoice::StockCar
    );
}

#[test]
fn second_player_livery() {
    assert_eq!(second_player_scheme(1), 0);
    assert_eq!(second_player_scheme(0), 1);
    assert_eq!(second_player_scheme(5), 1);
}

#[test]
fn unknown_championship_contenders() {
    assert_eq!(unknown_contender_look(0, 6), (1, 0));
    assert_eq!(unknown_contender_look(8, 6), (0, 2));
    assert_eq!(unknown_contender_look(13, 6), (5, 1));
}

#[test]
fn car_setup_sources() {
    assert_eq!(player_car_setup(CarChoice::GT3Car, true), CarSetupSource::ModuleCar(CarChoice::GT3Car));
    assert_eq!(player_car_setup(CarChoice::RallyCar, true), CarSetupSource::ClassicCar(CarChoice::RallyCar));
    assert_eq!(player_car_setup(CarChoice::RallyCar, false), CarSetupSource::ModuleCar(CarChoice::RallyCar));
    assert_eq!(player_car_setup(CarChoice::SportsCar, false), CarSetupSource::Configured(CarChoice::SportsCar));
    assert_eq!(player_car_setup(CarChoice::DriftCar, true), CarSetupSource::Configured(CarChoice::DriftCar));
    assert_eq!(bot_car_setup(CarChoice::Kart, true), CarSetupSource::ClassicCar(CarChoice::Kart));
    assert_eq!(bot_car_setup(CarChoice::Kart, false), CarSetupSource::BuiltIn(CarChoice::Kart));
    assert_eq!(bot_car_setup(CarChoice::SportsCar, false), CarSetupSource::Configured(CarChoice::SportsCar));
    assert_eq!(bot_car_setup(CarChoice::DriftCar, true), CarSetupSource::Configured(CarChoice::DriftCar));
    assert_eq!(bot_car_setup(CarChoice::GT1Legend, true), CarSetupSource::BuiltIn(CarChoice::GT1Legend));
}
