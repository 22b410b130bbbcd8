use tdrace_session::records::{
    forget_driver_records, forget_profile_history, forget_track_history, forget_track_records,
    keep_human_records, keep_recent_record, p1_label, HistoryEntry, HofEntry, HumanDriver,
};

fn hof(id: i64, track: &str, name: &str) -> HofEntry {
    HofEntry { id: Some(id), track_id: track.to_string(), player_name: name.to_string() }
}

fn names(v: &[HofEntry]) -> Vec<String> {
    v.iter().map(|e| e.player_name.clone()).collect()
}

#[test]
fn clearing_a_circuit() {
    let entries = vec![hof(1, "spa", "Ana"), hof(2, "monza", "Bo"), hof(3, "spa", "Cy")];
    let kept = forget_track_records(&entries, &"spa".to_string());
    assert_eq!(names(&kept), vec!["Bo"]);
    assert_eq!(keep_recent_record(Some(3), &kept), None);
    assert_eq!(keep_recent_record(Some(2), &kept), Some(2));
    assert_eq!(keep_recent_record(None, &kept), None);
    let history = vec![
        HistoryEntry { profile_id: 1, track_id: "spa".to_string() },
        HistoryEntry { profile_id: 2, track_id: "imola".to_string() },
    ];
    let h = forget_track_history(&history, &"spa".to_string());
    assert_eq!(h.len(), 1);
    assert_eq!(h[0].track_id, "imola");
}

#[test]
fn clearing_a_driver() {
    assert_eq!(p1_label(&"Ace".to_string()), "Ace (P1)");
    let entries = vec![hof(1, "spa", "Ace"), hof(2, "spa", "Ace (P1)"), hof(3, "spa", "ace"), hof(4, "spa", "Bot")];
    let kept = forget_driver_records(&entries, &"Ace".to_string());
    assert_eq!(names(&kept), vec!["ace", "Bot"]);
    let history = vec![
        HistoryEntry { profile_id: 1, track_id: "spa".to_string() },
        HistoryEntry { profile_id: 2, track_id: "spa".to_string() },
    ];
    assert_eq!(forget_profile_history(&history, 1, true).len(), 0);
    let others = forget_profile_history(&history, 1, false);
    assert_eq!(others.len(), 1);
    assert_eq!(others[0].profile_id, 2);
}

#[test]
fn clearing_the_bots() {
    let humans = vec![HumanDriver { name: "Ana Silva".to_string(), alias: "Ace".to_string() }];
    let entries = vec![
        hof(1, "spa", "ANA SILVA"),
        hof(2, "spa", "Max Hunter"),
        hof(3, "spa", "Ace (P1)"),
        hof(4, "spa", "Player 2 (P2)"),
        hof(5, "spa", "ace"),
    ];
    let kept = keep_human_records(&entries, &humans);
    assert_eq!(names(&kept), vec!["ANA SILVA", "Ace (P1)", "Player 2 (P2)", "ace"]);
}
