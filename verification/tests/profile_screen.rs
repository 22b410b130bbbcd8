use tdrace_session::profiles::active_profile_entry;
use tdrace_session::profiles::{
    profile_frame, CabinetCell, ProfileAction, ProfileContext, ProfileFocus, ProfileInput,
    ProfileView,
};

fn idle() -> ProfileInput {
    ProfileInput {
        up: false,
        down: false,
        left: false,
        right: false,
        key_a: false,
        key_d: false,
        key_q: false,
        tab_key: false,
        confirm: false,
        reset: false,
        digit: None,
        click_hero: false,
        click_tab: None,
        click_shelf: false,
        click_cabinet: None,
        click_filter: None,
        click_champ: None,
        scroll_down: false,
        scroll_up: false,
        key_f: false,
        roster_key: false,
        new_profile: false,
        key_c: false,
        back: false,
    }
}

fn view(focus: ProfileFocus, tab: usize) -> ProfileView {
    ProfileView { profile_idx: 0, focus, tab, filter: 0, disc: 0, tier: 0, champ_sel: 0, champ_scroll: 0 }
}

fn ctx() -> ProfileContext {
    ProfileContext { profile_count: 3, champ_unlocked: vec![true, false, true, true], visible_count: 2 }
}

#[test]
fn hero_card_cycles_drivers_and_opens_roster() {
    let mut i = idle();
    i.left = true;
    let (v, a) = profile_frame(view(ProfileFocus::HeroCard, 0), i, &ctx());
    assert_eq!(v.profile_idx, 2);
    assert_eq!(a, vec![ProfileAction::ShowProfile(2)]);
    let mut i = idle();
    i.right = true;
    let (v, a) = profile_frame(ProfileView { profile_idx: 2, ..view(ProfileFocus::HeroCard, 0) }, i, &ctx());
    assert_eq!(v.profile_idx, 0);
    assert_eq!(a, vec![ProfileAction::ShowProfile(0)]);
    let mut i = idle();
    i.confirm = true;
    i.back = true;
    let (_, a) = profile_frame(view(ProfileFocus::HeroCard, 0), i, &ctx());
    assert_eq!(a, vec![ProfileAction::OpenRoster(0)]);
}

#[test]
fn tabs_wrap_and_lead_down() {
    let mut i = idle();
    i.left = true;
    let (v, _) = profile_frame(view(ProfileFocus::Tabs, 0), i, &ctx());
    assert_eq!(v.tab, 4);
    let mut i = idle();
    i.down = true;
    let (v, _) = profile_frame(view(ProfileFocus::Tabs, 3), i, &ctx());
    assert_eq!(v.focus, ProfileFocus::Filters);
    let (v, _) = profile_frame(view(ProfileFocus::Tabs, 1), i, &ctx());
    assert_eq!(v.focus, ProfileFocus::Content);
}

#[test]
fn filters_wrap_and_reset_the_list() {
    let mut i = idle();
    i.key_a = true;
    let start = ProfileView { champ_sel: 2, champ_scroll: 1, ..view(ProfileFocus::Filters, 3) };
    let (v, _) = profile_frame(start, i, &ctx());
    assert_eq!((v.filter, v.champ_sel, v.champ_scroll), (6, 0, 0));
}

#[test]
fn cabinet_grid_moves_within_bounds() {
    let mut i = idle();
    i.down = true;
    i.right = true;
    let (v, _) = profile_frame(ProfileView { disc: 4, tier: 2, ..view(ProfileFocus::Content, 2) }, i, &ctx());
    assert_eq!((v.disc, v.tier), (4, 3));
    let mut i = idle();
    i.up = true;
    let (v, _) = profile_frame(view(ProfileFocus::Content, 2), i, &ctx());
    assert_eq!(v.focus, ProfileFocus::Tabs);
}

#[test]
fn championship_list_scrolls_and_launches_unlocked() {
    let mut i = idle();
    i.down = true;
    let start = ProfileView { champ_sel: 1, champ_scroll: 0, ..view(ProfileFocus::Content, 3) };
    let (v, _) = profile_frame(start, i, &ctx());
    assert_eq!((v.champ_sel, v.champ_scroll), (2, 1));
    let mut i = idle();
    i.confirm = true;
    i.back = true;
    let (_, a) = profile_frame(ProfileView { champ_sel: 2, ..view(ProfileFocus::Content, 3) }, i, &ctx());
    assert_eq!(a, vec![ProfileAction::LaunchChampionship(2)]);
    let mut i = idle();
    i.confirm = true;
    i.reset = true;
    let (_, a) = profile_frame(ProfileView { champ_sel: 1, ..view(ProfileFocus::Content, 3) }, i, &ctx());
    assert_eq!(a, vec![ProfileAction::ResetChampionship(1)]);
    let mut i = idle();
    i.up = true;
    let (v, _) = profile_frame(view(ProfileFocus::Content, 3), i, &ctx());
    assert_eq!(v.focus, ProfileFocus::Filters);
}

#[test]
fn overview_confirm_opens_the_cabinet() {
    let mut i = idle();
    i.confirm = true;
    let (v, _) = profile_frame(view(ProfileFocus::Content, 0), i, &ctx());
    assert_eq!((v.tab, v.focus), (2, ProfileFocus::Content));
}

#[test]
fn digits_and_clicks() {
    let mut i = idle();
    i.digit = Some(3);
    i.click_filter = Some(5);
    let (v, _) = profile_frame(view(ProfileFocus::Content, 1), i, &ctx());
    assert_eq!((v.tab, v.filter, v.focus), (3, 5, ProfileFocus::Filters));
    let mut i = idle();
    i.click_tab = Some(2);
    i.click_cabinet = Some(CabinetCell { row: 3, col: 1 });
    let (v, _) = profile_frame(view(ProfileFocus::Tabs, 0), i, &ctx());
    assert_eq!((v.tab, v.disc, v.tier, v.focus), (2, 3, 1, ProfileFocus::Content));
    let mut i = idle();
    i.click_champ = Some(3);
    let (v, a) = profile_frame(view(ProfileFocus::Filters, 3), i, &ctx());
    assert_eq!((v.champ_sel, v.focus), (3, ProfileFocus::Content));
    assert!(a.is_empty());
    let (_, a) = profile_frame(ProfileView { champ_sel: 3, ..view(ProfileFocus::Content, 3) }, i, &ctx());
    assert_eq!(a, vec![ProfileAction::LaunchChampionship(3)]);
}

#[test]
fn tail_keys() {
    let mut i = idle();
    i.key_q = true;
    i.key_c = true;
    i.back = true;
    let (v, a) = profile_frame(view(ProfileFocus::Tabs, 1), i, &ctx());
    assert_eq!(v.profile_idx, 2);
    assert_eq!(a, vec![ProfileAction::ShowProfile(2), ProfileAction::ClearHistory(2), ProfileAction::Back]);
    let mut i = idle();
    i.key_f = true;
    i.scroll_down = true;
    i.new_profile = true;
    let (v, a) = profile_frame(view(ProfileFocus::Tabs, 2), i, &ctx());
    assert_eq!((v.filter, v.champ_scroll), (1, 0));
    assert_eq!(a, vec![ProfileAction::OpenRoster(0)]);
}

#[test]
fn profile_screen_opens_on_the_active_profile() {
    let ids = vec![Some(4), Some(9), None, Some(9)];
    assert_eq!(active_profile_entry(&ids, Some(9)), 1);
    assert_eq!(active_profile_entry(&ids, None), 2);
    assert_eq!(active_profile_entry(&ids, Some(7)), 0);
}
