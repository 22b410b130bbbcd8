use tdrace_session::career_hub::{
    career_hub_commands, career_hub_nav, CareerHubAction, CareerHubContext, CareerHubInput,
    CareerHubView, HubFocus, HubNavEnd,
};

fn idle() -> CareerHubInput {
    CareerHubInput {
        click_tab: None,
        digit: None,
        toggle_standings: false,
        key_g: false,
        bumper_prev: false,
        bumper_next: false,
        nav_left: false,
        nav_right: false,
        nav_up: false,
        nav_down: false,
        extra_left: false,
        extra_right: false,
        click_slot: None,
        advance: false,
        rerun: false,
        confirm: false,
        back: false,
    }
}

fn view(tier: u32, slot: usize, focus: HubFocus) -> CareerHubView {
    CareerHubView { tier, slot, focus, showing_standings: false }
}

fn ctx() -> CareerHubContext {
    CareerHubContext { season_active: false, slot_mandatory: false, career_level: 3, can_advance: true }
}

#[test]
fn digit_picks_tier_and_focuses_tabs() {
    let mut i = idle();
    i.digit = Some(4);
    let (v, changed, end) = career_hub_nav(view(2, 3, HubFocus::Calendar), i, 6);
    assert_eq!((v.tier, v.focus, changed, end), (4, HubFocus::Tabs, true, HubNavEnd::Continue));
    let mut i = idle();
    i.digit = Some(2);
    let (_, changed, _) = career_hub_nav(view(2, 3, HubFocus::Calendar), i, 6);
    assert!(!changed);
}

#[test]
fn standings_toggle_and_garage_end_the_frame() {
    let mut i = idle();
    i.toggle_standings = true;
    i.key_g = true;
    let (v, _, end) = career_hub_nav(view(2, 0, HubFocus::Tabs), i, 6);
    assert!(v.showing_standings);
    assert_eq!(end, HubNavEnd::ToggledStandings);
    let mut i = idle();
    i.key_g = true;
    assert_eq!(career_hub_nav(view(2, 0, HubFocus::Tabs), i, 6).2, HubNavEnd::OpenGarage);
}

#[test]
fn tabs_step_the_tier_within_bounds() {
    let mut i = idle();
    i.nav_left = true;
    i.nav_right = true;
    let (v, changed, _) = career_hub_nav(view(1, 0, HubFocus::Tabs), i, 6);
    assert_eq!((v.tier, changed), (2, true));
    let mut i = idle();
    i.bumper_next = true;
    let (v, changed, _) = career_hub_nav(view(5, 0, HubFocus::Tabs), i, 6);
    assert_eq!((v.tier, changed), (5, false));
    let mut i = idle();
    i.nav_down = true;
    let (v, _, _) = career_hub_nav(view(3, 4, HubFocus::Tabs), i, 6);
    assert_eq!((v.focus, v.slot), (HubFocus::Calendar, 0));
}

#[test]
fn calendar_slots_move_and_return_to_tabs() {
    let mut i = idle();
    i.nav_down = true;
    let (v, _, _) = career_hub_nav(view(3, 5, HubFocus::Calendar), i, 6);
    assert_eq!(v.slot, 5);
    let mut i = idle();
    i.click_slot = Some(2);
    i.nav_up = true;
    let (v, _, _) = career_hub_nav(view(3, 5, HubFocus::Calendar), i, 6);
    assert_eq!(v.slot, 1);
    let mut i = idle();
    i.nav_up = true;
    let (v, _, _) = career_hub_nav(view(3, 0, HubFocus::Calendar), i, 6);
    assert_eq!(v.focus, HubFocus::Tabs);
}

#[test]
fn calendar_left_swaps_or_steps_the_tier() {
    let mut i = idle();
    i.extra_left = true;
    let (v, a) = career_hub_commands(view(3, 2, HubFocus::Calendar), false, i, ctx());
    assert_eq!(v.tier, 3);
    assert_eq!(a, vec![CareerHubAction::SwapSlot(false)]);
    let mut c = ctx();
    c.slot_mandatory = true;
    let (v, a) = career_hub_commands(view(3, 2, HubFocus::Calendar), false, i, c);
    assert_eq!((v.tier, v.slot), (2, 0));
    assert_eq!(a, vec![CareerHubAction::ReloadCalendar]);
    let (v, a) = career_hub_commands(view(1, 2, HubFocus::Calendar), false, i, ctx());
    assert_eq!(v.tier, 1);
    assert!(a.is_empty());
}

#[test]
fn commands_after_navigation() {
    let mut i = idle();
    i.advance = true;
    i.rerun = true;
    i.confirm = true;
    i.back = true;
    let (_, a) = career_hub_commands(view(3, 0, HubFocus::Tabs), false, i, ctx());
    assert_eq!(a, vec![CareerHubAction::AdvanceTier, CareerHubAction::RerunRound, CareerHubAction::StartRound]);
    let (_, a) = career_hub_commands(view(4, 0, HubFocus::Tabs), false, i, ctx());
    assert_eq!(a, vec![CareerHubAction::RerunRound, CareerHubAction::BackToModalities]);
    let (v, a) = career_hub_commands(view(4, 3, HubFocus::Tabs), true, i, ctx());
    assert_eq!(v.slot, 0);
    assert_eq!(a, vec![CareerHubAction::ReloadCalendar]);
}
