use tdrace_session::calendars::{
    gt_season, kart_career_cup, nascar_career_cup, nascar_season, offroad_calendar_laps,
    offroad_career_cup, offroad_round_laps, offroad_season, rally_career_cup, PointSystem,
};

#[test]
fn nascar_cups_by_tier() {
    let t1 = nascar_career_cup(1);
    assert_eq!(t1.name, "NASCAR Weekly Short Track Series (Tier 1)");
    assert_eq!(t1.track_ids.len(), 5);
    assert_eq!(t1.track_ids[0], "martinsville_speedway");
    assert_eq!(t1.laps_per_round, 4);
    assert_eq!(t1.points, PointSystem::NascarCup { stage_win_bonus: true });
    let t9 = nascar_career_cup(9);
    assert_eq!(t9.name, "NASCAR Cup Series Championship (Tier 5)");
    assert_eq!(t9.track_ids.len(), 12);
    assert_eq!(t9.tier, 9);
}

#[test]
fn other_cups_by_tier() {
    let r = rally_career_cup(2);
    assert_eq!(r.name, "World Rallycross Challenge (Tier 2)");
    assert_eq!(r.track_ids.len(), 7);
    assert_eq!(r.laps_per_round, 5);
    let k = kart_career_cup(4);
    assert_eq!(k.name, "FIA Karting European Championship (Tier 4)");
    assert_eq!(k.track_ids[0], "zuera");
    let o = offroad_career_cup(3);
    assert_eq!(o.name, "Arctic Glacial Challenge (Tier 3)");
    assert_eq!(o.points, PointSystem::FiaStandard { fastest_lap_bonus: false });
    assert_eq!(o.laps_per_round, 3);
}

#[test]
fn seasons() {
    let gt = gt_season();
    assert_eq!(gt.name, "GT World Challenge Championship 2026");
    assert_eq!(gt.track_ids, vec!["monza", "spa", "silverstone", "classic_grand_prix"]);
    assert_eq!(gt.tier, 2);
    assert_eq!(nascar_season().track_ids.len(), 12);
    assert_eq!(nascar_season().tier, 5);
    let off = offroad_season();
    assert_eq!(off.track_ids.len(), 15);
    assert_eq!(off.tier, 1);
}

#[test]
fn offroad_round_laps_by_circuit() {
    assert_eq!(offroad_round_laps(&"dirt_figure_eight".to_string()), 5);
    assert_eq!(offroad_round_laps(&"glacier_crest_pass".to_string()), 4);
    assert_eq!(offroad_round_laps(&"sahara_dune_crossing".to_string()), 3);
    let laps = offroad_calendar_laps(&offroad_season().track_ids);
    assert_eq!(laps, vec![3, 5, 3, 4, 3, 3, 5, 4, 4, 5, 4, 4, 3, 4, 3]);
}
