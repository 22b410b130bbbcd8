use tdrace_session::flow::ScanlineMode;
use tdrace_session::hotkeys::{
    global_keys, GlobalKeys, GlobalOutcome,    typing_context, visibility_keys, CurveColors, VisibilityKeys, VisibilityOptions,
    VisibilityToast,
};
use tdrace_session::screens::{DriverCardsOrigin, GarageOrigin, Screen};

fn none() -> VisibilityKeys {
    VisibilityKeys { key1: false, key2: false, key3: false, key4: false, key5: false, key6: false, key7: false, alt: false }
}

fn opts() -> VisibilityOptions {
    VisibilityOptions {
        overhead_chevron: true,
        ground_aura: false,
        adaptive_visibility: true,
        roof_beacon: false,
        curve_helper: false,
        curve_colors: CurveColors::Rally,
        bot_nameplates: true,
    }
}

#[test]
fn audio_keys_are_off_while_typing() {
    assert!(typing_context(Screen::Menu, true, false, false));
    assert!(typing_context(Screen::ProfileCreate, false, false, false));
    assert!(!typing_context(Screen::PlayerRosterManager, false, false, false));
    assert!(typing_context(Screen::PlayerRosterManager, false, true, false));
    assert!(typing_context(Screen::TrackEditor, false, false, true));
    assert!(!typing_context(Screen::TrackEditor, false, false, false));
    assert!(!typing_context(Screen::Racing, false, true, true));
}

#[test]
fn number_keys_switch_aids_and_announce_the_last() {
    let mut k = none();
    k.key1 = true;
    k.key4 = true;
    let (o, s, t) = visibility_keys(opts(), ScanlineMode::Disabled, k);
    assert!(!o.overhead_chevron);
    assert!(o.roof_beacon);
    assert_eq!(s, ScanlineMode::Disabled);
    assert_eq!(t, Some(VisibilityToast::RoofBeacon(true)));
    let mut k = none();
    k.key6 = true;
    k.key7 = true;
    let (o, s, t) = visibility_keys(opts(), ScanlineMode::RetroGlow, k);
    assert_eq!(o.curve_colors, CurveColors::Traffic);
    assert_eq!(s, ScanlineMode::Disabled);
    assert_eq!(t, Some(VisibilityToast::Scanlines(ScanlineMode::Disabled)));
    let mut k = none();
    k.alt = true;
    k.key2 = true;
    let (o, _, t) = visibility_keys(opts(), ScanlineMode::Subtle, k);
    assert!(o.ground_aura);
    assert_eq!(t, Some(VisibilityToast::Nameplates(false)));
    assert_eq!(visibility_keys(opts(), ScanlineMode::Subtle, none()), (opts(), ScanlineMode::Subtle, None));
}

#[test]
fn toggling_twice_restores_the_aids() {
    let mut k = none();
    k.key1 = true;
    k.key3 = true;
    k.key5 = true;
    k.alt = true;
    let (o1, s1, _) = visibility_keys(opts(), ScanlineMode::Subtle, k);
    let (o2, _, _) = visibility_keys(o1, s1, k);
    assert_eq!(o2, opts());
}

fn gk() -> GlobalKeys {
    GlobalKeys { f11: false, key_k: false, key_d: false, assists: false, key_r: false }
}

#[test]
fn session_wide_keys() {
    let mut k = gk();
    k.f11 = true;
    k.key_r = true;
    assert_eq!(global_keys(Screen::Racing, k), (GlobalOutcome::SeriesEditor, false));
    let mut k = gk();
    k.key_k = true;
    assert_eq!(global_keys(Screen::TrackManager, k), (GlobalOutcome::Dispatch, false));
    assert_eq!(global_keys(Screen::Paused, k), (GlobalOutcome::Goto(Screen::ControlsHelp(true)), false));
    assert_eq!(global_keys(Screen::Menu, k), (GlobalOutcome::Goto(Screen::ControlsHelp(false)), false));
    let mut k = gk();
    k.key_d = true;
    k.assists = true;
    assert_eq!(
        global_keys(Screen::StartingGrid, k),
        (GlobalOutcome::Goto(Screen::DriverCards(DriverCardsOrigin::StartingGrid)), false)
    );
    assert_eq!(global_keys(Screen::Garage(GarageOrigin::Menu), k), (GlobalOutcome::Dispatch, true));
    let mut k = gk();
    k.key_r = true;
    k.assists = true;
    assert_eq!(global_keys(Screen::Countdown(1200), k), (GlobalOutcome::Restart, true));
    assert_eq!(global_keys(Screen::Finished, k), (GlobalOutcome::Dispatch, true));
}
