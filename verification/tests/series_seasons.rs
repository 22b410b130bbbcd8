use tdrace_session::series::{
    after_reset,    chars_of, contains_chars, eq_ignore_ascii_case, season_resumes, season_to_resume,
    series_matches, starting_round, RoundRecord, SavedSeason,
};

fn season(name: &str, tier: u32, completed: bool) -> SavedSeason {
    SavedSeason { name: name.to_string(), tier, completed }
}

fn record(category: &str, track_id: &str, championship: Option<&str>) -> RoundRecord {
    RoundRecord {
        category: category.to_string(),
        track_id: track_id.to_string(),
        championship: championship.map(|c| c.to_string()),
    }
}

#[test]
fn ascii_case_and_containment() {
    assert!(eq_ignore_ascii_case(&chars_of("GT Cup"), &chars_of("gt cUP")));
    assert!(!eq_ignore_ascii_case(&chars_of("GT Cup"), &chars_of("GT Cups")));
    assert!(!eq_ignore_ascii_case(&chars_of("É"), &chars_of("é")));
    assert!(contains_chars(&chars_of("nascar cup series"), &chars_of("cup")));
    assert!(contains_chars(&chars_of("abc"), &chars_of("")));
    assert!(!contains_chars(&chars_of("ab"), &chars_of("abc")));
    assert!(!contains_chars(&chars_of("abcab"), &chars_of("ac")));
}

#[test]
fn reset_matches_series_by_name_or_id() {
    assert!(series_matches("gt masters", "GT Masters", "gt_masters"));
    assert!(series_matches("GT_MASTERS", "GT Masters", "gt_masters"));
    // Only the lower-case forms contain one another here.
    assert!(series_matches("GT MASTERS CUP", "Masters", "m1"));
    assert!(series_matches("Rally", "Rally Trophy 2", "rt2"));
    assert!(!series_matches("Kart Cup", "Rally Trophy", "rt"));
}

#[test]
fn resuming_a_saved_season() {
    assert!(season_resumes(&season("NASCAR Cup Series", 2, false), "Cup Series", "cup", 5, false));
    assert!(!season_resumes(&season("NASCAR Cup Series", 2, true), "Cup Series", "cup", 2, true));
    assert!(season_resumes(&season("Other", 3, false), "Cup", "zz", 3, true));
    assert!(!season_resumes(&season("Other", 3, false), "Cup", "zz", 3, false));
    let picked = season_to_resume(
        Some(season("Old", 1, true)),
        Some(season("Kart Masters", 1, false)),
        Some(season("kart", 1, false)),
        "Kart Masters",
        "km",
        4,
        true,
    );
    assert_eq!(picked.map(|s| s.name), Some("Kart Masters".to_string()));
    assert!(season_to_resume(None, None, Some(season("x", 1, false)), "Cup", "c", 2, false).is_none());
}

#[test]
fn new_season_starts_after_rounds_already_run() {
    let records = vec![
        record("nascar", "daytona", None),
        record("nascar", "", Some("Cup Series")),
        record("gt", "spa", None),
        record("nascar", "", Some("Other")),
    ];
    assert_eq!(starting_round(&records, "nascar", "Cup Series", 5), 2);
    assert_eq!(starting_round(&records, "nascar", "Cup Series", 2), 0);
    assert_eq!(starting_round(&records, "kart", "Cup Series", 5), 0);
}

#[test]
fn reset_drops_only_matching_seasons() {
    assert!(after_reset(Some(season("Rally Trophy", 2, false)), "rally trophy", "rt").is_none());
    assert_eq!(
        after_reset(Some(season("Kart Cup", 2, false)), "rally trophy", "rt").map(|s| s.name),
        Some("Kart Cup".to_string())
    );
    assert!(after_reset(None, "x", "y").is_none());
}
