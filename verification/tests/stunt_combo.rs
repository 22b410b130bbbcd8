use tdrace_session::stunts::{ComboBreak, StuntCombo};

#[test]
fn jumps_chain_into_a_combo() {
    let mut c = StuntCombo::new();
    assert!(!c.land_jump());
    assert!(c.land_jump());
    assert_eq!((c.count, c.best), (2, 2));
}

#[test]
fn crashes_break_combos_and_drifts() {
    let mut c = StuntCombo { count: 3, best: 5, drifting: false };
    assert_eq!(c.crash(), Some(ComboBreak::ComboBroken));
    assert_eq!(c, StuntCombo { count: 0, best: 5, drifting: false });
    let mut d = StuntCombo { count: 1, best: 1, drifting: true };
    assert_eq!(d.crash(), Some(ComboBreak::DriftVoided));
    assert_eq!(d, StuntCombo { count: 0, best: 1, drifting: false });
    let mut e = StuntCombo { count: 1, best: 4, drifting: false };
    assert_eq!(e.crash(), None);
    assert_eq!(e.count, 0);
    let mut f = StuntCombo { count: 0, best: 4, drifting: false };
    assert_eq!(f.crash(), None);
    assert_eq!(f, StuntCombo { count: 0, best: 4, drifting: false });
}
