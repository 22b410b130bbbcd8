//! The career hub of the GT career: the five tier tabs, the calendar of the
//! selected tier, and what a frame of input asks for. A frame runs in two
//! steps: the navigation keys first, then (once the caller knows whether
//! the selected calendar slot may be swapped) the horizontal keys and the
//! commands.
use vstd::prelude::*;

verus! {

/// Career tiers of the hub.
pub const HUB_TIERS: u32 = 5;

/// Part of the career hub that has the keyboard focus.
#[derive(Debug, Clone, Copy, PartialEq, Eq, Structural)]
pub enum HubFocus {
    Tabs,
    Calendar,
}

/// State of the career hub.
#[derive(Debug, Clone, Copy, PartialEq, Eq, Structural)]
pub struct CareerHubView {
    /// Selected tier (1 to 5).
    pub tier: u32,
    /// Selected calendar slot.
    pub slot: usize,
    pub focus: HubFocus,
    pub showing_standings: bool,
}

/// What the player did on the career hub during one frame.
#[derive(Debug, Clone, Copy, PartialEq, Eq, Structural)]
pub struct CareerHubInput {
    /// Tier tab clicked (1 to 5).
    pub click_tab: Option<u32>,
    /// Number key 1 to 5.
    pub digit: Option<u32>,
    /// Tab or gamepad Y.
    pub toggle_standings: bool,
    pub key_g: bool,
    /// Q or LB.
    pub bumper_prev: bool,
    /// E or RB.
    pub bumper_next: bool,
    /// Left, A, or a gamepad left.
    pub nav_left: bool,
    /// Right, D, or a gamepad right.
    pub nav_right: bool,
    /// Up, W, or a gamepad up.
    pub nav_up: bool,
    /// Down, S, or a gamepad down.
    pub nav_down: bool,
    /// [ or comma (calendar only).
    pub extra_left: bool,
    /// ] or period (calendar only).
    pub extra_right: bool,
    /// Calendar slot clicked.
    pub click_slot: Option<usize>,
    /// The P key: advance to the next tier.
    pub advance: bool,
    /// R or gamepad X: run the latest round again.
    pub rerun: bool,
    /// Enter, Space, keypad Enter, gamepad confirm or A.
    pub confirm: bool,
    /// Escape, gamepad B or back.
    pub back: bool,
}

/// How the navigation step of a frame ended.
#[derive(Debug, Clone, Copy, PartialEq, Eq, Structural)]
pub enum HubNavEnd {
    /// The frame goes on to the commands.
    Continue,
    /// The standings were shown or hidden: the frame ends.
    ToggledStandings,
    /// The garage opens: the frame ends.
    OpenGarage,
}

/// Tier after choosing `t` (a tab click or number key): `changed` tells
/// whether it differs.
pub open spec fn pick_tier(tier: u32, t: u32, changed: bool) -> (u32, bool) {
    if 1 <= t <= HUB_TIERS && tier != t {
        (t, true)
    } else {
        (tier, changed)
    }
}

/// The navigation step of a frame: tab clicks and number keys pick a tier
/// (and focus the tabs); the standings toggle and the garage key end the
/// frame; Q and E step the tier; then on the tabs Left / Right step the
/// tier and Down enters the calendar at its first slot, while in the
/// calendar a click picks a slot and Down / Up move through the `num_slots`
/// slots (Up from the first goes back to the tabs). Also tells whether the
/// tier changed.
pub open spec fn hub_nav_spec(s: CareerHubView, i: CareerHubInput, num_slots: usize) -> (CareerHubView, bool, HubNavEnd) {
    let (t1, c1, f1) = match i.click_tab {
        Some(t) => if 1 <= t <= HUB_TIERS {
            let (tt, cc) = pick_tier(s.tier, t, false);
            (tt, cc, HubFocus::Tabs)
        } else {
            (s.tier, false, s.focus)
        },
        None => (s.tier, false, s.focus),
    };
    let (t2, c2, f2) = match i.digit {
        Some(t) => if 1 <= t <= HUB_TIERS {
            let (tt, cc) = pick_tier(t1, t, c1);
            (tt, cc, HubFocus::Tabs)
        } else {
            (t1, c1, f1)
        },
        None => (t1, c1, f1),
    };
    let s2 = CareerHubView { tier: t2, focus: f2, ..s };
    if i.toggle_standings {
        (CareerHubView { showing_standings: !s2.showing_standings, ..s2 }, c2, HubNavEnd::ToggledStandings)
    } else if i.key_g {
        (s2, c2, HubNavEnd::OpenGarage)
    } else {
        let (t3, c3) = if i.bumper_prev && t2 > 1 {
            ((t2 - 1) as u32, true)
        } else {
            (t2, c2)
        };
        let (t4, c4) = if i.bumper_next && t3 < HUB_TIERS {
            ((t3 + 1) as u32, true)
        } else {
            (t3, c3)
        };
        let s4 = CareerHubView { tier: t4, ..s2 };
        match s4.focus {
            HubFocus::Tabs => {
                let (t5, c5) = if i.nav_left && t4 > 1 {
                    ((t4 - 1) as u32, true)
                } else if !(i.nav_left && t4 > 1) && i.nav_right && t4 < HUB_TIERS {
                    ((t4 + 1) as u32, true)
                } else {
                    (t4, c4)
                };
                let s5 = CareerHubView { tier: t5, ..s4 };
                if i.nav_down {
                    (CareerHubView { focus: HubFocus::Calendar, slot: 0, ..s5 }, c5, HubNavEnd::Continue)
                } else {
                    (s5, c5, HubNavEnd::Continue)
                }
            },
            HubFocus::Calendar => {
                let sl1 = match i.click_slot {
                    Some(k) => if k < num_slots {
                        k
                    } else {
                        s4.slot
                    },
                    None => s4.slot,
                };
                let sl2 = if i.nav_down && sl1 + 1 < num_slots {
                    (sl1 + 1) as usize
                } else {
                    sl1
                };
                if i.nav_up {
                    if sl2 > 0 {
                        (CareerHubView { slot: (sl2 - 1) as usize, ..s4 }, c4, HubNavEnd::Continue)
                    } else {
                        (CareerHubView { slot: sl2, focus: HubFocus::Tabs, ..s4 }, c4, HubNavEnd::Continue)
                    }
                } else {
                    (CareerHubView { slot: sl2, ..s4 }, c4, HubNavEnd::Continue)
                }
            },
        }
    }
}

fn step_tier_down(t: u32, changed: bool, cond: bool) -> (r: (u32, bool))
    ensures
        r == (if cond && t > 1 {
            ((t - 1) as u32, true)
        } else {
            (t, changed)
        }),
{
    if cond && t > 1 {
        (t - 1, true)
    } else {
        (t, changed)
    }
}

fn step_tier_up(t: u32, changed: bool, cond: bool) -> (r: (u32, bool))
    ensures
        r == (if cond && t < HUB_TIERS {
            ((t + 1) as u32, true)
        } else {
            (t, changed)
        }),
{
    if cond && t < HUB_TIERS {
        (t + 1, true)
    } else {
        (t, changed)
    }
}

/// The navigation step of a frame of the career hub (see `hub_nav_spec`):
/// the new state, whether the tier changed, and whether the frame ends.
pub fn career_hub_nav(s: CareerHubView, i: CareerHubInput, num_slots: usize) -> (r: (CareerHubView, bool, HubNavEnd))
    ensures
        r == hub_nav_spec(s, i, num_slots),
{
    let mut v = s;
    let mut changed = false;
    if let Some(t) = i.click_tab {
        if 1 <= t && t <= HUB_TIERS {
            if v.tier != t {
                v.tier = t;
                changed = true;
            }
            v.focus = HubFocus::Tabs;
        }
    }
    if let Some(t) = i.digit {
        if 1 <= t && t <= HUB_TIERS {
            if v.tier != t {
                v.tier = t;
                changed = true;
            }
            v.focus = HubFocus::Tabs;
        }
    }
    if i.toggle_standings {
        v.showing_standings = !v.showing_standings;
        return (v, changed, HubNavEnd::ToggledStandings);
    }
    if i.key_g {
        return (v, changed, HubNavEnd::OpenGarage);
    }
    let (t3, c3) = step_tier_down(v.tier, changed, i.bumper_prev);
    let (t4, c4) = step_tier_up(t3, c3, i.bumper_next);
    v.tier = t4;
    changed = c4;
    match v.focus {
        HubFocus::Tabs => {
            if i.nav_left && v.tier > 1 {
                v.tier = v.tier - 1;
                changed = true;
            } else if i.nav_right && v.tier < HUB_TIERS {
                v.tier = v.tier + 1;
                changed = true;
            }
            if i.nav_down {
                v.focus = HubFocus::Calendar;
                v.slot = 0;
            }
        },
        HubFocus::Calendar => {
            if let Some(k) = i.click_slot {
                if k < num_slots {
                    v.slot = k;
                }
            }
            if i.nav_down && v.slot < num_slots && v.slot + 1 < num_slots {
                v.slot = v.slot + 1;
            }
            if i.nav_up {
                if v.slot > 0 {
                    v.slot = v.slot - 1;
                } else {
                    v.focus = HubFocus::Tabs;
                }
            }
        },
    }
    (v, changed, HubNavEnd::Continue)
}

/// Whether the selected calendar slot may be swapped for another circuit:
/// not during a season, not in tier 1, and not on a mandatory circuit.
pub open spec fn slot_swappable_spec(season_active: bool, tier: u32, slot_mandatory: bool) -> bool {
    !season_active && tier > 1 && !slot_mandatory
}

/// What the career hub knows when the commands of a frame run.
#[derive(Debug, Clone, Copy, PartialEq, Eq, Structural)]
pub struct CareerHubContext {
    /// A championship season is under way.
    pub season_active: bool,
    /// The circuit in the selected slot is mandatory for the selected tier.
    pub slot_mandatory: bool,
    pub career_level: u32,
    /// The career may advance to the next tier.
    pub can_advance: bool,
}

/// What the commands of a frame of the career hub ask for, in order.
#[derive(Debug, Clone, Copy, PartialEq, Eq, Structural)]
pub enum CareerHubAction {
    /// Swap the circuit of the selected slot for the next (`true`) or
    /// previous one.
    SwapSlot(bool),
    /// The tier changed: show its default calendar from the first slot.
    ReloadCalendar,
    /// Advance the career to the next tier; if the career refuses, the
    /// frame goes on with the next action.
    AdvanceTier,
    /// Cancel the latest round and run it again; without a round to cancel
    /// the frame goes on with the next action.
    RerunRound,
    /// Start or resume the round of the selected tier.
    StartRound,
    /// Back to the modality selection, on the career card.
    BackToModalities,
}

/// The command step of a frame: in the calendar, Left and Right ([ and ]
/// too) swap the slot's circuit when it may be swapped, else step the tier;
/// a tier change reloads the calendar and ends the frame; then P advances
/// the career (from its own tier, when allowed), R runs the latest round
/// again, confirming starts the round (from an unlocked tier, ending the
/// frame) and back leaves.
pub open spec fn hub_commands_spec(s: CareerHubView, changed: bool, i: CareerHubInput, c: CareerHubContext) -> (
    CareerHubView,
    Seq<CareerHubAction>,
) {
    let left = i.nav_left || i.extra_left;
    let right = i.nav_right || i.extra_right;
    let (t1, c1, a1) = if s.focus is Calendar {
        if slot_swappable_spec(c.season_active, s.tier, c.slot_mandatory) {
            if left {
                (s.tier, changed, seq![CareerHubAction::SwapSlot(false)])
            } else if right {
                (s.tier, changed, seq![CareerHubAction::SwapSlot(true)])
            } else {
                (s.tier, changed, Seq::empty())
            }
        } else if left && s.tier > 1 {
            ((s.tier - 1) as u32, true, Seq::empty())
        } else if !(left && s.tier > 1) && right && s.tier < HUB_TIERS {
            ((s.tier + 1) as u32, true, Seq::empty())
        } else {
            (s.tier, changed, Seq::empty())
        }
    } else {
        (s.tier, changed, Seq::empty())
    };
    let s1 = CareerHubView { tier: t1, ..s };
    if c1 {
        (CareerHubView { slot: 0, ..s1 }, a1.push(CareerHubAction::ReloadCalendar))
    } else {
        let a2 = if i.advance && t1 == c.career_level && c.can_advance {
            a1.push(CareerHubAction::AdvanceTier)
        } else {
            a1
        };
        let a3 = if i.rerun {
            a2.push(CareerHubAction::RerunRound)
        } else {
            a2
        };
        if i.confirm && t1 <= c.career_level {
            (s1, a3.push(CareerHubAction::StartRound))
        } else if i.back {
            (s1, a3.push(CareerHubAction::BackToModalities))
        } else {
            (s1, a3)
        }
    }
}

/// The command step of a frame of the career hub (see `hub_commands_spec`).
pub fn career_hub_commands(s: CareerHubView, changed: bool, i: CareerHubInput, c: CareerHubContext) -> (r: (
    CareerHubView,
    Vec<CareerHubAction>,
))
    ensures
        r.0 == hub_commands_spec(s, changed, i, c).0,
        r.1@ == hub_commands_spec(s, changed, i, c).1,
{
    let left = i.nav_left || i.extra_left;
    let right = i.nav_right || i.extra_right;
    let mut v = s;
    let mut ch = changed;
    let mut acts: Vec<CareerHubAction> = Vec::new();
    if v.focus == HubFocus::Calendar {
        if !c.season_active && v.tier > 1 && !c.slot_mandatory {
            if left {
                acts.push(CareerHubAction::SwapSlot(false));
            } else if right {
                acts.push(CareerHubAction::SwapSlot(true));
            }
        } else if left && v.tier > 1 {
            v.tier = v.tier - 1;
            ch = true;
        } else if right && v.tier < HUB_TIERS {
            v.tier = v.tier + 1;
            ch = true;
        }
    }
    if ch {
        v.slot = 0;
        acts.push(CareerHubAction::ReloadCalendar);
        return (v, acts);
    }
    if i.advance && v.tier == c.career_level && c.can_advance {
        acts.push(CareerHubAction::AdvanceTier);
    }
    if i.rerun {
        acts.push(CareerHubAction::RerunRound);
    }
    if i.confirm && v.tier <= c.career_level {
        acts.push(CareerHubAction::StartRound);
    } else if i.back {
        acts.push(CareerHubAction::BackToModalities);
    }
    proof {
        assert(acts@ =~= hub_commands_spec(s, changed, i, c).1);
    }
    (v, acts)
}

/// The tier of the hub stays between 1 and 5 through both steps of a frame.
pub proof fn lemma_hub_tier_in_range(
    s: CareerHubView,
    i: CareerHubInput,
    num_slots: usize,
    c: CareerHubContext,
)
    requires
        1 <= s.tier <= HUB_TIERS,
    ensures
        1 <= hub_nav_spec(s, i, num_slots).0.tier <= HUB_TIERS,
        ({
            let (v, ch, _) = hub_nav_spec(s, i, num_slots);
            1 <= hub_commands_spec(v, ch, i, c).0.tier <= HUB_TIERS
        }),
{
}

/// In the calendar the selected slot stays on the calendar.
pub proof fn lemma_hub_slot_on_calendar(s: CareerHubView, i: CareerHubInput, num_slots: usize)
    requires
        s.focus is Calendar,
        s.slot < num_slots,
    ensures
        hub_nav_spec(s, i, num_slots).0.focus is Calendar ==> hub_nav_spec(s, i, num_slots).0.slot
            < num_slots,
{
}

} // verus!
