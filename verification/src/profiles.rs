//! The player profile screen: the hero card of the selected driver, the
//! five tabs, the module filters, the trophy cabinet grid and the list of
//! championships, as a function from state and input to new state and
//! actions.
use vstd::prelude::*;
use crate::lobby::{wrap_next_spec, wrap_prev_spec};

verus! {

/// Tabs of the profile screen: overview, history, trophy cabinet,
/// championships, telemetry.
pub const PROFILE_TABS: usize = 5;

/// Module filters of the championship and telemetry tabs.
pub const PROFILE_FILTERS: usize = 7;

/// Rows (disciplines) and columns (tiers) of the trophy cabinet.
pub const CABINET_SIZE: usize = 5;

/// Tab of the trophy cabinet.
pub const TAB_CABINET: usize = 2;

/// Tab of the championships.
pub const TAB_CHAMPIONSHIPS: usize = 3;

/// Tab of the telemetry.
pub const TAB_TELEMETRY: usize = 4;

/// Part of the profile screen that has the keyboard focus.
#[derive(Debug, Clone, Copy, PartialEq, Eq, Structural)]
pub enum ProfileFocus {
    HeroCard,
    Tabs,
    Filters,
    Content,
}

/// State of the profile screen.
#[derive(Debug, Clone, Copy, PartialEq, Eq, Structural)]
pub struct ProfileView {
    /// Driver shown (position in the list of profiles).
    pub profile_idx: usize,
    pub focus: ProfileFocus,
    pub tab: usize,
    pub filter: usize,
    /// Trophy cabinet row (discipline) and column (tier).
    pub disc: usize,
    pub tier: usize,
    /// Selected championship and first championship shown.
    pub champ_sel: usize,
    pub champ_scroll: usize,
}

/// A cell of the trophy cabinet.
#[derive(Debug, Clone, Copy, PartialEq, Eq, Structural)]
pub struct CabinetCell {
    /// Discipline.
    pub row: usize,
    /// Tier.
    pub col: usize,
}

/// What the player did on the profile screen during one frame. Clicks are
/// given as what they hit.
#[derive(Debug, Clone, Copy, PartialEq, Eq, Structural)]
pub struct ProfileInput {
    /// Up, W, or a gamepad up.
    pub up: bool,
    /// Down, S, or a gamepad down.
    pub down: bool,
    /// Left arrow or a gamepad left.
    pub left: bool,
    /// Right arrow or a gamepad right.
    pub right: bool,
    pub key_a: bool,
    pub key_d: bool,
    pub key_q: bool,
    pub tab_key: bool,
    /// Enter, keypad Enter, Space, gamepad confirm or A.
    pub confirm: bool,
    /// R, X, Backspace, Delete or gamepad X: reset the selected championship.
    pub reset: bool,
    /// Number key 1 to 5 pressed (the highest), as a tab 0 to 4.
    pub digit: Option<usize>,
    pub click_hero: bool,
    pub click_tab: Option<usize>,
    /// The honours shelf of the overview tab.
    pub click_shelf: bool,
    /// Cabinet cell clicked.
    pub click_cabinet: Option<CabinetCell>,
    pub click_filter: Option<usize>,
    /// Championship card clicked (its position in the list).
    pub click_champ: Option<usize>,
    /// Wheel down or Page Down on the cabinet tab.
    pub scroll_down: bool,
    /// Wheel up or Page Up on the cabinet tab.
    pub scroll_up: bool,
    pub key_f: bool,
    /// E or F2.
    pub roster_key: bool,
    /// N or gamepad X.
    pub new_profile: bool,
    pub key_c: bool,
    /// Escape, gamepad cancel, back or B.
    pub back: bool,
}

/// What the profile screen knows of its lists.
#[derive(Debug, Clone)]
pub struct ProfileContext {
    pub profile_count: usize,
    /// Whether each championship listed under the current filter is unlocked.
    pub champ_unlocked: Vec<bool>,
    /// Championship cards that fit on screen.
    pub visible_count: usize,
}

/// What a frame of the profile screen asks for, in order.
#[derive(Debug, Clone, Copy, PartialEq, Eq, Structural)]
pub enum ProfileAction {
    /// Load the statistics and history of the driver at this position.
    ShowProfile(usize),
    /// Open the roster manager on the driver at this position.
    OpenRoster(usize),
    /// Launch or resume the championship at this position.
    LaunchChampionship(usize),
    ResetChampionship(usize),
    /// Clear the race history of the driver at this position.
    ClearHistory(usize),
    /// Go back to the screen the profile screen was opened from.
    Back,
}

/// The view with the championship list back at its top.
pub open spec fn reset_list(s: ProfileView) -> ProfileView {
    ProfileView { champ_sel: 0, champ_scroll: 0, ..s }
}

/// Previous driver, round to the last (0 with no drivers).
pub open spec fn prev_profile(idx: usize, count: usize) -> usize {
    if idx == 0 {
        if count > 0 {
            (count - 1) as usize
        } else {
            0
        }
    } else {
        (idx - 1) as usize
    }
}

/// The hero card: Down goes to the tabs, confirming opens the roster
/// manager (ending the frame), Left or Q and Right step through the drivers.
pub open spec fn hero_stage(s: ProfileView, i: ProfileInput, count: usize) -> (ProfileView, Seq<ProfileAction>, bool) {
    let s1 = if i.down {
        ProfileView { focus: ProfileFocus::Tabs, ..s }
    } else {
        s
    };
    if i.confirm {
        (s1, seq![ProfileAction::OpenRoster(s1.profile_idx)], true)
    } else {
        let p1 = if i.left || i.key_q {
            prev_profile(s1.profile_idx, count)
        } else {
            s1.profile_idx
        };
        let a1: Seq<ProfileAction> = if i.left || i.key_q {
            seq![ProfileAction::ShowProfile(p1)]
        } else {
            Seq::empty()
        };
        let p2 = if i.right && count > 0 {
            wrap_next_spec(p1 as int, count as int) as usize
        } else {
            p1
        };
        let a2 = if i.right {
            a1.push(ProfileAction::ShowProfile(p2))
        } else {
            a1
        };
        (ProfileView { profile_idx: p2, ..s1 }, a2, false)
    }
}

/// The tab bar: Up goes to the hero card, Down to the filters (championship
/// and telemetry tabs) or the content; Left and Right (or Tab) move round
/// the tabs, back to the top of the championship list.
pub open spec fn tabs_stage(s: ProfileView, i: ProfileInput) -> ProfileView {
    let s1 = if i.up {
        ProfileView { focus: ProfileFocus::HeroCard, ..s }
    } else {
        s
    };
    let s2 = if i.down {
        ProfileView {
            focus: if s1.tab == TAB_CHAMPIONSHIPS || s1.tab == TAB_TELEMETRY {
                ProfileFocus::Filters
            } else {
                ProfileFocus::Content
            },
            ..s1
        }
    } else {
        s1
    };
    let s3 = if i.left {
        reset_list(ProfileView { tab: wrap_prev_spec(s2.tab as int, PROFILE_TABS as int) as usize, ..s2 })
    } else {
        s2
    };
    if i.right || i.tab_key {
        reset_list(ProfileView { tab: wrap_next_spec(s3.tab as int, PROFILE_TABS as int) as usize, ..s3 })
    } else {
        s3
    }
}

/// The module filters: Up goes to the tabs, Left (A) and Right (D) move
/// round the filters (back to the top of the list), Down goes to the
/// content, and Tab moves to the next tab.
pub open spec fn filters_stage(s: ProfileView, i: ProfileInput) -> ProfileView {
    let s1 = if i.up {
        ProfileView { focus: ProfileFocus::Tabs, ..s }
    } else {
        s
    };
    let s2 = if i.left || i.key_a {
        reset_list(ProfileView { filter: wrap_prev_spec(s1.filter as int, PROFILE_FILTERS as int) as usize, ..s1 })
    } else {
        s1
    };
    let s3 = if i.right || i.key_d {
        reset_list(ProfileView { filter: wrap_next_spec(s2.filter as int, PROFILE_FILTERS as int) as usize, ..s2 })
    } else {
        s2
    };
    let s4 = if i.down {
        ProfileView { focus: ProfileFocus::Content, ..s3 }
    } else {
        s3
    };
    if i.tab_key {
        reset_list(
            ProfileView {
                tab: wrap_next_spec(s4.tab as int, PROFILE_TABS as int) as usize,
                focus: ProfileFocus::Tabs,
                ..s4
            },
        )
    } else {
        s4
    }
}

/// The trophy cabinet grid: Up and Down move between rows (Up from the top
/// row goes to the tabs), Left (A) and Right (D) between columns.
pub open spec fn cabinet_stage(s: ProfileView, i: ProfileInput) -> ProfileView {
    let s1 = if i.down && s.disc + 1 < CABINET_SIZE {
        ProfileView { disc: (s.disc + 1) as usize, ..s }
    } else {
        s
    };
    let s2 = if i.up {
        if s1.disc > 0 {
            ProfileView { disc: (s1.disc - 1) as usize, ..s1 }
        } else {
            ProfileView { focus: ProfileFocus::Tabs, ..s1 }
        }
    } else {
        s1
    };
    let s3 = if (i.left || i.key_a) && s2.tier > 0 {
        ProfileView { tier: (s2.tier - 1) as usize, ..s2 }
    } else {
        s2
    };
    if (i.right || i.key_d) && s3.tier + 1 < CABINET_SIZE {
        ProfileView { tier: (s3.tier + 1) as usize, ..s3 }
    } else {
        s3
    }
}

/// The championship list: Down and Up move the selection and keep it in
/// the window of `visible` cards (Up from the first card goes to the
/// filters); confirming launches an unlocked championship (ending the
/// frame); the reset keys reset the selected championship.
pub open spec fn champs_stage(s: ProfileView, i: ProfileInput, unlocked: Seq<bool>, visible: usize) -> (
    ProfileView,
    Seq<ProfileAction>,
    bool,
) {
    let total = unlocked.len();
    let s1 = if i.down && total > 0 && s.champ_sel + 1 < total {
        let sel = (s.champ_sel + 1) as usize;
        ProfileView {
            champ_sel: sel,
            champ_scroll: if sel >= s.champ_scroll + visible {
                (sel + 1 - visible) as usize
            } else {
                s.champ_scroll
            },
            ..s
        }
    } else {
        s
    };
    let s2 = if i.up {
        if s1.champ_sel > 0 {
            let sel = (s1.champ_sel - 1) as usize;
            ProfileView {
                champ_sel: sel,
                champ_scroll: if sel < s1.champ_scroll {
                    sel
                } else {
                    s1.champ_scroll
                },
                ..s1
            }
        } else {
            ProfileView { focus: ProfileFocus::Filters, ..s1 }
        }
    } else {
        s1
    };
    if i.confirm && s2.champ_sel < total && unlocked[s2.champ_sel as int] {
        (s2, seq![ProfileAction::LaunchChampionship(s2.champ_sel)], true)
    } else if i.reset && s2.champ_sel < total {
        (s2, seq![ProfileAction::ResetChampionship(s2.champ_sel)], false)
    } else {
        (s2, Seq::empty(), false)
    }
}

/// The content of the current tab, then Tab moves to the next tab.
pub open spec fn content_stage(s: ProfileView, i: ProfileInput, unlocked: Seq<bool>, visible: usize) -> (
    ProfileView,
    Seq<ProfileAction>,
    bool,
) {
    let (s1, a, end) = if s.tab == TAB_CABINET {
        (cabinet_stage(s, i), Seq::empty(), false)
    } else if s.tab == TAB_CHAMPIONSHIPS {
        champs_stage(s, i, unlocked, visible)
    } else if s.tab == TAB_TELEMETRY {
        (if i.up {
            ProfileView { focus: ProfileFocus::Filters, ..s }
        } else {
            s
        }, Seq::empty(), false)
    } else if s.tab == 0 {
        (if i.confirm {
            ProfileView { tab: TAB_CABINET, focus: ProfileFocus::Content, ..s }
        } else if i.up {
            ProfileView { focus: ProfileFocus::Tabs, ..s }
        } else {
            s
        }, Seq::empty(), false)
    } else {
        (if i.up {
            ProfileView { focus: ProfileFocus::Tabs, ..s }
        } else {
            s
        }, Seq::empty(), false)
    };
    if end {
        (s1, a, true)
    } else if i.tab_key {
        (ProfileView {
            tab: wrap_next_spec(s1.tab as int, PROFILE_TABS as int) as usize,
            focus: ProfileFocus::Tabs,
            champ_scroll: 0,
            ..s1
        }, a, false)
    } else {
        (s1, a, false)
    }
}

/// The focused part of the screen.
#[verifier::opaque]
pub open spec fn focus_stage(s: ProfileView, i: ProfileInput, c: ProfileContext) -> (
    ProfileView,
    Seq<ProfileAction>,
    bool,
) {
    match s.focus {
        ProfileFocus::HeroCard => hero_stage(s, i, c.profile_count),
        ProfileFocus::Tabs => (tabs_stage(s, i), Seq::empty(), false),
        ProfileFocus::Filters => (filters_stage(s, i), Seq::empty(), false),
        ProfileFocus::Content => content_stage(s, i, c.champ_unlocked@, c.visible_count),
    }
}

/// A number key opens its tab, focused on the tab bar, at the top of the list.
#[verifier::opaque]
pub open spec fn digit_stage(s: ProfileView, i: ProfileInput) -> ProfileView {
    match i.digit {
        Some(d) => if d < PROFILE_TABS {
            reset_list(ProfileView { tab: d, focus: ProfileFocus::Tabs, ..s })
        } else {
            s
        },
        None => s,
    }
}

/// Clicks: the hero card opens the roster manager (ending the frame); a tab
/// opens that tab; the honours shelf opens the cabinet; a cabinet cell, a
/// filter pill and a championship card select themselves, and a click on
/// the selected card of the focused list launches it when unlocked (ending
/// the frame). Returns whether the hero card is still marked as focused.
#[verifier::opaque]
pub open spec fn click_stage(s: ProfileView, hero: bool, i: ProfileInput, unlocked: Seq<bool>) -> (
    ProfileView,
    bool,
    Seq<ProfileAction>,
    bool,
) {
    if i.click_hero {
        (s, hero, seq![ProfileAction::OpenRoster(s.profile_idx)], true)
    } else {
        let (s1, h1) = match i.click_tab {
            Some(t) => if t < PROFILE_TABS {
                (ProfileView {
                    focus: ProfileFocus::Tabs,
                    ..(if s.tab != t {
                        reset_list(ProfileView { tab: t, ..s })
                    } else {
                        s
                    })
                }, false)
            } else {
                (s, hero)
            },
            None => (s, hero),
        };
        let s2 = if i.click_shelf && s1.tab == 0 {
            ProfileView { tab: TAB_CABINET, focus: ProfileFocus::Content, ..s1 }
        } else {
            s1
        };
        let s3 = match i.click_cabinet {
            Some(cell) => if s2.tab == TAB_CABINET && cell.row < CABINET_SIZE && cell.col < CABINET_SIZE {
                ProfileView { disc: cell.row, tier: cell.col, focus: ProfileFocus::Content, ..s2 }
            } else {
                s2
            },
            None => s2,
        };
        let s4 = match i.click_filter {
            Some(f) => if (s3.tab == TAB_CHAMPIONSHIPS || s3.tab == TAB_TELEMETRY) && f < PROFILE_FILTERS {
                ProfileView {
                    focus: ProfileFocus::Filters,
                    ..(if s3.filter != f {
                        reset_list(ProfileView { filter: f, ..s3 })
                    } else {
                        s3
                    })
                }
            } else {
                s3
            },
            None => s3,
        };
        match i.click_champ {
            Some(k) => if s4.tab == TAB_CHAMPIONSHIPS && k < unlocked.len() {
                if s4.focus == ProfileFocus::Content && s4.champ_sel == k {
                    if unlocked[k as int] {
                        (s4, h1, seq![ProfileAction::LaunchChampionship(k)], true)
                    } else {
                        (s4, h1, Seq::empty(), false)
                    }
                } else {
                    (ProfileView { champ_sel: k, focus: ProfileFocus::Content, ..s4 }, h1, Seq::empty(), false)
                }
            } else {
                (s4, h1, Seq::empty(), false)
            },
            None => (s4, h1, Seq::empty(), false),
        }
    }
}

/// The keys checked last: scrolling the cabinet tab, F for the next
/// filter (cabinet and championship tabs), Q for the previous driver (when
/// the hero card is not focused), the roster keys and the new-profile keys
/// (ending the frame), C to clear the driver's history, and back.
#[verifier::opaque]
pub open spec fn tail_stage(s: ProfileView, hero: bool, i: ProfileInput, count: usize) -> (ProfileView, Seq<ProfileAction>) {
    let s1 = if s.tab == TAB_CABINET && i.scroll_down {
        ProfileView {
            champ_scroll: if s.champ_scroll < usize::MAX {
                (s.champ_scroll + 1) as usize
            } else {
                s.champ_scroll
            },
            focus: ProfileFocus::Content,
            ..s
        }
    } else if s.tab == TAB_CABINET && i.scroll_up {
        ProfileView {
            champ_scroll: if s.champ_scroll > 0 {
                (s.champ_scroll - 1) as usize
            } else {
                0
            },
            ..s
        }
    } else {
        s
    };
    let s2 = if (s1.tab == TAB_CABINET || s1.tab == TAB_CHAMPIONSHIPS) && i.key_f {
        reset_list(ProfileView { filter: wrap_next_spec(s1.filter as int, PROFILE_FILTERS as int) as usize, ..s1 })
    } else {
        s1
    };
    let q = !hero && i.key_q;
    let s3 = if q {
        ProfileView { profile_idx: prev_profile(s2.profile_idx, count), ..s2 }
    } else {
        s2
    };
    let a1: Seq<ProfileAction> = if q {
        seq![ProfileAction::ShowProfile(s3.profile_idx)]
    } else {
        Seq::empty()
    };
    if i.roster_key || i.new_profile {
        (s3, a1.push(ProfileAction::OpenRoster(s3.profile_idx)))
    } else {
        let a2 = if i.key_c && s3.profile_idx < count {
            a1.push(ProfileAction::ClearHistory(s3.profile_idx))
        } else {
            a1
        };
        if i.back {
            (s3, a2.push(ProfileAction::Back))
        } else {
            (s3, a2)
        }
    }
}

/// One frame of the profile screen: the focused part, the tab keys, the
/// clicks and the keys checked last, stopping at the first action that
/// leaves the screen.
pub open spec fn profile_frame_spec(s: ProfileView, i: ProfileInput, c: ProfileContext) -> (
    ProfileView,
    Seq<ProfileAction>,
) {
    let (s1, a1, end1) = focus_stage(s, i, c);
    if end1 {
        (s1, a1)
    } else {
        let s2 = digit_stage(s1, i);
        let hero = s2.focus == ProfileFocus::HeroCard;
        let (s3, h3, a3, end3) = click_stage(s2, hero, i, c.champ_unlocked@);
        if end3 {
            (s3, a1 + a3)
        } else {
            let (s4, a4) = tail_stage(s3, h3, i, c.profile_count);
            (s4, a1 + a3 + a4)
        }
    }
}

fn prev_profile_exec(idx: usize, count: usize) -> (r: usize)
    ensures
        r == prev_profile(idx, count),
{
    if idx == 0 {
        if count > 0 {
            count - 1
        } else {
            0
        }
    } else {
        idx - 1
    }
}

fn next_round(idx: usize, n: usize) -> (r: usize)
    requires
        n > 0,
    ensures
        r == wrap_next_spec(idx as int, n as int),
{
    crate::lobby::cycle_index(idx, n, true)
}

fn prev_round(idx: usize, n: usize) -> (r: usize)
    requires
        0 < n,
        idx <= n,
    ensures
        r == wrap_prev_spec(idx as int, n as int),
{
    crate::lobby::cycle_index(idx, n, false)
}

fn hero_step(s: ProfileView, i: ProfileInput, count: usize) -> (r: (ProfileView, Vec<ProfileAction>, bool))
    ensures
        r.0 == hero_stage(s, i, count).0,
        r.1@ == hero_stage(s, i, count).1,
        r.2 == hero_stage(s, i, count).2,
{
    let mut v = s;
    let mut acts: Vec<ProfileAction> = Vec::new();
    if i.down {
        v.focus = ProfileFocus::Tabs;
    }
    if i.confirm {
        acts.push(ProfileAction::OpenRoster(v.profile_idx));
        return (v, acts, true);
    }
    if i.left || i.key_q {
        v.profile_idx = prev_profile_exec(v.profile_idx, count);
        acts.push(ProfileAction::ShowProfile(v.profile_idx));
    }
    if i.right {
        if count > 0 {
            v.profile_idx = next_round(v.profile_idx, count);
        }
        acts.push(ProfileAction::ShowProfile(v.profile_idx));
    }
    assert(acts@ =~= hero_stage(s, i, count).1);
    (v, acts, false)
}

fn tabs_step(s: ProfileView, i: ProfileInput) -> (r: ProfileView)
    requires
        s.tab < PROFILE_TABS,
    ensures
        r == tabs_stage(s, i),
{
    let mut v = s;
    if i.up {
        v.focus = ProfileFocus::HeroCard;
    }
    if i.down {
        v.focus = if v.tab == TAB_CHAMPIONSHIPS || v.tab == TAB_TELEMETRY {
            ProfileFocus::Filters
        } else {
            ProfileFocus::Content
        };
    }
    if i.left {
        v.tab = prev_round(v.tab, PROFILE_TABS);
        v.champ_sel = 0;
        v.champ_scroll = 0;
    }
    if i.right || i.tab_key {
        v.tab = next_round(v.tab, PROFILE_TABS);
        v.champ_sel = 0;
        v.champ_scroll = 0;
    }
    v
}

fn filters_step(s: ProfileView, i: ProfileInput) -> (r: ProfileView)
    requires
        s.filter < PROFILE_FILTERS,
    ensures
        r == filters_stage(s, i),
{
    let mut v = s;
    if i.up {
        v.focus = ProfileFocus::Tabs;
    }
    if i.left || i.key_a {
        v.filter = prev_round(v.filter, PROFILE_FILTERS);
        v.champ_sel = 0;
        v.champ_scroll = 0;
    }
    if i.right || i.key_d {
        v.filter = next_round(v.filter, PROFILE_FILTERS);
        v.champ_sel = 0;
        v.champ_scroll = 0;
    }
    if i.down {
        v.focus = ProfileFocus::Content;
    }
    if i.tab_key {
        v.tab = next_round(v.tab, PROFILE_TABS);
        v.focus = ProfileFocus::Tabs;
        v.champ_sel = 0;
        v.champ_scroll = 0;
    }
    v
}

fn cabinet_step(s: ProfileView, i: ProfileInput) -> (r: ProfileView)
    requires
        s.disc < CABINET_SIZE,
        s.tier < CABINET_SIZE,
    ensures
        r == cabinet_stage(s, i),
{
    let mut v = s;
    if i.down && v.disc + 1 < CABINET_SIZE {
        v.disc = v.disc + 1;
    }
    if i.up {
        if v.disc > 0 {
            v.disc = v.disc - 1;
        } else {
            v.focus = ProfileFocus::Tabs;
        }
    }
    if (i.left || i.key_a) && v.tier > 0 {
        v.tier = v.tier - 1;
    }
    if (i.right || i.key_d) && v.tier + 1 < CABINET_SIZE {
        v.tier = v.tier + 1;
    }
    v
}

fn champs_step(s: ProfileView, i: ProfileInput, unlocked: &Vec<bool>, visible: usize) -> (r: (
    ProfileView,
    Vec<ProfileAction>,
    bool,
))
    ensures
        r.0 == champs_stage(s, i, unlocked@, visible).0,
        r.1@ == champs_stage(s, i, unlocked@, visible).1,
        r.2 == champs_stage(s, i, unlocked@, visible).2,
{
    let total = unlocked.len();
    let mut v = s;
    let mut acts: Vec<ProfileAction> = Vec::new();
    if i.down && total > 0 && v.champ_sel < total - 1 {
        let sel = v.champ_sel + 1;
        v.champ_sel = sel;
        if sel >= v.champ_scroll && sel - v.champ_scroll >= visible {
            v.champ_scroll = sel + 1 - visible;
        }
    }
    if i.up {
        if v.champ_sel > 0 {
            let sel = v.champ_sel - 1;
            v.champ_sel = sel;
            if sel < v.champ_scroll {
                v.champ_scroll = sel;
            }
        } else {
            v.focus = ProfileFocus::Filters;
        }
    }
    if i.confirm && v.champ_sel < total && unlocked[v.champ_sel] {
        acts.push(ProfileAction::LaunchChampionship(v.champ_sel));
        return (v, acts, true);
    }
    if i.reset && v.champ_sel < total {
        acts.push(ProfileAction::ResetChampionship(v.champ_sel));
    }
    (v, acts, false)
}

/// Well-formed profile screen: tab, filter and cabinet cell in range.
pub open spec fn view_wf(s: ProfileView) -> bool {
    &&& s.tab < PROFILE_TABS
    &&& s.filter < PROFILE_FILTERS
    &&& s.disc < CABINET_SIZE
    &&& s.tier < CABINET_SIZE
}

fn content_step(s: ProfileView, i: ProfileInput, unlocked: &Vec<bool>, visible: usize) -> (r: (
    ProfileView,
    Vec<ProfileAction>,
    bool,
))
    requires
        view_wf(s),
    ensures
        r.0 == content_stage(s, i, unlocked@, visible).0,
        r.1@ == content_stage(s, i, unlocked@, visible).1,
        r.2 == content_stage(s, i, unlocked@, visible).2,
{
    let (mut v, acts, end) = if s.tab == TAB_CABINET {
        (cabinet_step(s, i), Vec::new(), false)
    } else if s.tab == TAB_CHAMPIONSHIPS {
        champs_step(s, i, unlocked, visible)
    } else {
        let mut w = s;
        if s.tab == TAB_TELEMETRY {
            if i.up {
                w.focus = ProfileFocus::Filters;
            }
        } else if s.tab == 0 {
            if i.confirm {
                w.tab = TAB_CABINET;
                w.focus = ProfileFocus::Content;
            } else if i.up {
                w.focus = ProfileFocus::Tabs;
            }
        } else if i.up {
            w.focus = ProfileFocus::Tabs;
        }
        (w, Vec::new(), false)
    };
    if end {
        return (v, acts, true);
    }
    if i.tab_key {
        v.tab = next_round(v.tab, PROFILE_TABS);
        v.focus = ProfileFocus::Tabs;
        v.champ_scroll = 0;
    }
    (v, acts, false)
}

fn focus_step(s: ProfileView, i: ProfileInput, c: &ProfileContext) -> (r: (ProfileView, Vec<ProfileAction>, bool))
    requires
        view_wf(s),
    ensures
        r.0 == focus_stage(s, i, *c).0,
        r.1@ == focus_stage(s, i, *c).1,
        r.2 == focus_stage(s, i, *c).2,
{
    reveal(focus_stage);
    match s.focus {
        ProfileFocus::HeroCard => hero_step(s, i, c.profile_count),
        ProfileFocus::Tabs => (tabs_step(s, i), Vec::new(), false),
        ProfileFocus::Filters => (filters_step(s, i), Vec::new(), false),
        ProfileFocus::Content => content_step(s, i, &c.champ_unlocked, c.visible_count),
    }
}

fn click_step(s: ProfileView, hero: bool, i: ProfileInput, unlocked: &Vec<bool>) -> (r: (
    ProfileView,
    bool,
    Vec<ProfileAction>,
    bool,
))
    ensures
        r.0 == click_stage(s, hero, i, unlocked@).0,
        r.1 == click_stage(s, hero, i, unlocked@).1,
        r.2@ == click_stage(s, hero, i, unlocked@).2,
        r.3 == click_stage(s, hero, i, unlocked@).3,
{
    reveal(click_stage);
    let mut acts: Vec<ProfileAction> = Vec::new();
    if i.click_hero {
        acts.push(ProfileAction::OpenRoster(s.profile_idx));
        return (s, hero, acts, true);
    }
    let mut v = s;
    let mut h = hero;
    if let Some(t) = i.click_tab {
        if t < PROFILE_TABS {
            if v.tab != t {
                v.tab = t;
                v.champ_sel = 0;
                v.champ_scroll = 0;
            }
            v.focus = ProfileFocus::Tabs;
            h = false;
        }
    }
    if i.click_shelf && v.tab == 0 {
        v.tab = TAB_CABINET;
        v.focus = ProfileFocus::Content;
    }
    if let Some(cell) = i.click_cabinet {
        if v.tab == TAB_CABINET && cell.row < CABINET_SIZE && cell.col < CABINET_SIZE {
            v.disc = cell.row;
            v.tier = cell.col;
            v.focus = ProfileFocus::Content;
        }
    }
    if let Some(f) = i.click_filter {
        if (v.tab == TAB_CHAMPIONSHIPS || v.tab == TAB_TELEMETRY) && f < PROFILE_FILTERS {
            if v.filter != f {
                v.filter = f;
                v.champ_sel = 0;
                v.champ_scroll = 0;
            }
            v.focus = ProfileFocus::Filters;
        }
    }
    if let Some(k) = i.click_champ {
        if v.tab == TAB_CHAMPIONSHIPS && k < unlocked.len() {
            if v.focus == ProfileFocus::Content && v.champ_sel == k {
                if unlocked[k] {
                    acts.push(ProfileAction::LaunchChampionship(k));
                    return (v, h, acts, true);
                }
            } else {
                v.champ_sel = k;
                v.focus = ProfileFocus::Content;
            }
        }
    }
    (v, h, acts, false)
}

fn tail_step(s: ProfileView, hero: bool, i: ProfileInput, count: usize) -> (r: (ProfileView, Vec<ProfileAction>))
    requires
        s.filter < PROFILE_FILTERS,
    ensures
        r.0 == tail_stage(s, hero, i, count).0,
        r.1@ == tail_stage(s, hero, i, count).1,
{
    reveal(tail_stage);
    let mut v = s;
    let mut acts: Vec<ProfileAction> = Vec::new();
    if v.tab == TAB_CABINET && i.scroll_down {
        if v.champ_scroll < usize::MAX {
            v.champ_scroll = v.champ_scroll + 1;
        }
        v.focus = ProfileFocus::Content;
    } else if v.tab == TAB_CABINET && i.scroll_up {
        if v.champ_scroll > 0 {
            v.champ_scroll = v.champ_scroll - 1;
        }
    }
    if (v.tab == TAB_CABINET || v.tab == TAB_CHAMPIONSHIPS) && i.key_f {
        v.filter = next_round(v.filter, PROFILE_FILTERS);
        v.champ_sel = 0;
        v.champ_scroll = 0;
    }
    if !hero && i.key_q {
        v.profile_idx = prev_profile_exec(v.profile_idx, count);
        acts.push(ProfileAction::ShowProfile(v.profile_idx));
    }
    if i.roster_key || i.new_profile {
        acts.push(ProfileAction::OpenRoster(v.profile_idx));
        assert(acts@ =~= tail_stage(s, hero, i, count).1);
        return (v, acts);
    }
    if i.key_c && v.profile_idx < count {
        acts.push(ProfileAction::ClearHistory(v.profile_idx));
    }
    if i.back {
        acts.push(ProfileAction::Back);
    }
    assert(acts@ =~= tail_stage(s, hero, i, count).1);
    (v, acts)
}

/// One frame of the profile screen: the focused part acts (hero card, tab
/// bar, filters, or the content of the tab), then the number keys open
/// their tab, then clicks, then scrolling, the filter key, the driver key,
/// the roster keys, clearing the history and going back; the frame stops at
/// the first action that leaves the screen.
pub fn profile_frame(s: ProfileView, i: ProfileInput, c: &ProfileContext) -> (r: (ProfileView, Vec<ProfileAction>))
    requires
        view_wf(s),
    ensures
        r.0 == profile_frame_spec(s, i, *c).0,
        r.1@ == profile_frame_spec(s, i, *c).1,
{
    let (s1, mut a1, end1) = focus_step(s, i, c);
    if end1 {
        return (s1, a1);
    }
    let mut s2 = s1;
    if let Some(d) = i.digit {
        if d < PROFILE_TABS {
            s2.tab = d;
            s2.focus = ProfileFocus::Tabs;
            s2.champ_sel = 0;
            s2.champ_scroll = 0;
        }
    }
    assert(s2 == digit_stage(s1, i)) by {
        reveal(digit_stage);
    }
    let hero = s2.focus == ProfileFocus::HeroCard;
    proof {
        lemma_focus_stage_wf(s, i, *c);
        lemma_digit_stage_wf(s1, i);
        lemma_click_stage_wf(s2, hero, i, c.champ_unlocked@);
    }
    let (s3, h3, mut a3, end3) = click_step(s2, hero, i, &c.champ_unlocked);
    let ghost g1 = a1@;
    let ghost g3 = a3@;
    a1.append(&mut a3);
    if end3 {
        return (s3, a1);
    }
    let (s4, mut a4) = tail_step(s3, h3, i, c.profile_count);
    let ghost g4 = a4@;
    a1.append(&mut a4);
    assert(a1@ =~= g1 + g3 + g4);
    (s4, a1)
}

proof fn lemma_wrap_in_range(x: int, n: int)
    requires
        0 <= x < n,
    ensures
        0 <= wrap_next_spec(x, n) < n,
        0 <= wrap_prev_spec(x, n) < n,
{
    vstd::arithmetic::div_mod::lemma_mod_bound(x + 1, n);
}

proof fn lemma_tabs_stage_wf(s: ProfileView, i: ProfileInput)
    requires
        view_wf(s),
    ensures
        view_wf(tabs_stage(s, i)),
{
    lemma_wrap_in_range(s.tab as int, PROFILE_TABS as int);
    let t = wrap_prev_spec(s.tab as int, PROFILE_TABS as int);
    lemma_wrap_in_range(t, PROFILE_TABS as int);
}

proof fn lemma_filters_stage_wf(s: ProfileView, i: ProfileInput)
    requires
        view_wf(s),
    ensures
        view_wf(filters_stage(s, i)),
{
    lemma_wrap_in_range(s.tab as int, PROFILE_TABS as int);
    lemma_wrap_in_range(s.filter as int, PROFILE_FILTERS as int);
    let p = wrap_prev_spec(s.filter as int, PROFILE_FILTERS as int);
    lemma_wrap_in_range(p, PROFILE_FILTERS as int);
}

proof fn lemma_content_stage_wf(s: ProfileView, i: ProfileInput, unlocked: Seq<bool>, visible: usize)
    requires
        view_wf(s),
    ensures
        view_wf(content_stage(s, i, unlocked, visible).0),
{
    lemma_wrap_in_range(s.tab as int, PROFILE_TABS as int);
    lemma_wrap_in_range(TAB_CABINET as int, PROFILE_TABS as int);
}

proof fn lemma_focus_stage_wf(s: ProfileView, i: ProfileInput, c: ProfileContext)
    requires
        view_wf(s),
    ensures
        view_wf(focus_stage(s, i, c).0),
{
    reveal(focus_stage);
    lemma_tabs_stage_wf(s, i);
    lemma_filters_stage_wf(s, i);
    lemma_content_stage_wf(s, i, c.champ_unlocked@, c.visible_count);
}

proof fn lemma_digit_stage_wf(s: ProfileView, i: ProfileInput)
    requires
        view_wf(s),
    ensures
        view_wf(digit_stage(s, i)),
{
    reveal(digit_stage);
}

proof fn lemma_click_stage_wf(s: ProfileView, hero: bool, i: ProfileInput, unlocked: Seq<bool>)
    requires
        view_wf(s),
    ensures
        view_wf(click_stage(s, hero, i, unlocked).0),
{
    reveal(click_stage);
}

proof fn lemma_tail_stage_wf(s: ProfileView, hero: bool, i: ProfileInput, count: usize)
    requires
        view_wf(s),
    ensures
        view_wf(tail_stage(s, hero, i, count).0),
{
    reveal(tail_stage);
    lemma_wrap_in_range(s.filter as int, PROFILE_FILTERS as int);
}

/// Every frame keeps the profile screen well-formed: tab, filter and
/// cabinet cell stay in range.
pub proof fn lemma_profile_frame_keeps_wf(s: ProfileView, i: ProfileInput, c: ProfileContext)
    requires
        view_wf(s),
    ensures
        view_wf(profile_frame_spec(s, i, c).0),
{
    lemma_focus_stage_wf(s, i, c);
    let s1 = focus_stage(s, i, c).0;
    lemma_digit_stage_wf(s1, i);
    let s2 = digit_stage(s1, i);
    lemma_click_stage_wf(s2, s2.focus == ProfileFocus::HeroCard, i, c.champ_unlocked@);
    let (s3, h3, _, _) = click_stage(s2, s2.focus == ProfileFocus::HeroCard, i, c.champ_unlocked@);
    lemma_tail_stage_wf(s3, h3, i, c.profile_count);
}

/// In the championship list the selection stays inside the window of
/// visible cards when it starts there and moves by the keys.
pub proof fn lemma_champ_window(s: ProfileView, i: ProfileInput, unlocked: Seq<bool>, visible: usize)
    requires
        s.champ_scroll <= s.champ_sel < s.champ_scroll + visible,
        unlocked.len() <= usize::MAX,
    ensures
        ({
            let v = champs_stage(s, i, unlocked, visible).0;
            v.champ_scroll <= v.champ_sel < v.champ_scroll + visible
        }),
{
}

/// Profile the profile screen opens on: the first profile whose id is the
/// active profile's, else the first profile.
pub fn active_profile_entry(profile_ids: &Vec<Option<i64>>, active: Option<i64>) -> (r: usize)
    ensures
        (exists|k: int| 0 <= k < profile_ids.len() && #[trigger] profile_ids@[k] == active) ==> {
            &&& r < profile_ids.len()
            &&& profile_ids@[r as int] == active
            &&& forall|m: int| 0 <= m < r ==> profile_ids@[m] != active
        },
        !(exists|k: int| 0 <= k < profile_ids.len() && #[trigger] profile_ids@[k] == active) ==> r == 0,
{
    let mut k: usize = 0;
    while k < profile_ids.len()
        invariant
            k <= profile_ids.len(),
            forall|m: int| 0 <= m < k ==> profile_ids@[m] != active,
        decreases profile_ids.len() - k,
    {
        let same = match (profile_ids[k], active) {
            (Some(a), Some(b)) => a == b,
            (None, None) => true,
            _ => false,
        };
        if same {
            return k;
        }
        k = k + 1;
    }
    0
}

} // verus!
