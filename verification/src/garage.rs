//! The garage showroom: module and tier keys, the car carousel, the fleet
//! gallery's tabs and grid, and what confirming or buying a car does.
use vstd::prelude::*;
use crate::modules::ModuleId;

verus! {

/// Columns of the fleet gallery grid.
pub const GALLERY_COLUMNS: usize = 4;

/// Index one step back round a list of `n` entries: `(i + n - 1) % n`.
pub open spec fn step_back_spec(i: int, n: int) -> int {
    (i + n - 1) % n
}

/// Index one step forward round a list of `n` entries: `(i + 1) % n`.
pub open spec fn step_forward_spec(i: int, n: int) -> int {
    (i + 1) % n
}

/// One step back or forward round a list of `n` entries, from any index.
pub fn step_round(i: usize, n: usize, forward: bool) -> (r: usize)
    requires
        0 < n <= usize::MAX / 2,
    ensures
        forward ==> r == step_forward_spec(i as int, n as int),
        !forward ==> r == step_back_spec(i as int, n as int),
        r < n,
{
    let k = i % n;
    proof {
        vstd::arithmetic::div_mod::lemma_mod_bound(i as int, n as int);
    }
    if forward {
        proof {
            vstd::arithmetic::div_mod::lemma_add_mod_noop(i as int, 1, n as int);
            vstd::arithmetic::div_mod::lemma_add_mod_noop(k as int, 1, n as int);
            vstd::arithmetic::div_mod::lemma_mod_twice(i as int, n as int);
            vstd::arithmetic::div_mod::lemma_mod_bound(k + 1, n as int);
        }
        (k + 1) % n
    } else {
        proof {
            vstd::arithmetic::div_mod::lemma_add_mod_noop(i as int, n - 1, n as int);
            vstd::arithmetic::div_mod::lemma_add_mod_noop(k as int, n - 1, n as int);
            vstd::arithmetic::div_mod::lemma_mod_twice(i as int, n as int);
            vstd::arithmetic::div_mod::lemma_mod_bound(k + n - 1, n as int);
        }
        (k + n - 1) % n
    }
}

/// Module chosen by the number keys of the showroom: 1 GT, 2 Rally,
/// 3 Kart, 4 NASCAR, 5 Extreme Off-Road.
pub open spec fn showroom_module_key(digit: usize) -> Option<ModuleId> {
    if digit == 1 {
        Some(ModuleId::Gt)
    } else if digit == 2 {
        Some(ModuleId::Rally)
    } else if digit == 3 {
        Some(ModuleId::Kart)
    } else if digit == 4 {
        Some(ModuleId::Nascar)
    } else if digit == 5 {
        Some(ModuleId::ExtremeOffroad)
    } else {
        None
    }
}

/// What the showroom shows after the module and tier keys.
#[derive(Debug, Clone, Copy, PartialEq, Eq, Structural)]
pub struct ShowroomSelection {
    pub module: ModuleId,
    pub tier: u32,
    pub car_idx: usize,
}

/// The showroom after the module and tier keys: a number key switches
/// module, Up (Q, W, LB) lowers the tier down to 1, or else Down (E, RB)
/// raises it up to 5; any change puts the carousel on its first car.
pub fn showroom_keys(s: ShowroomSelection, digit: Option<usize>, tier_up: bool, tier_down: bool) -> (r:
    ShowroomSelection)
    ensures
        ({
            let m = match digit {
                Some(d) => match showroom_module_key(d) {
                    Some(m) => m,
                    None => s.module,
                },
                None => s.module,
            };
            let t: u32 = if tier_up {
                if s.tier > 1 {
                    (s.tier - 1) as u32
                } else {
                    s.tier
                }
            } else if tier_down && s.tier < 5 {
                (s.tier + 1) as u32
            } else {
                s.tier
            };
            &&& r.module == m
            &&& r.tier == t
            &&& r.car_idx == (if m != s.module || t != s.tier {
                0
            } else {
                s.car_idx
            })
        }),
{
    let mut r = s;
    if let Some(d) = digit {
        let m = match d {
            1 => Some(ModuleId::Gt),
            2 => Some(ModuleId::Rally),
            3 => Some(ModuleId::Kart),
            4 => Some(ModuleId::Nascar),
            5 => Some(ModuleId::ExtremeOffroad),
            _ => None,
        };
        if let Some(m) = m {
            r.module = m;
        }
    }
    if r.module != s.module {
        r.car_idx = 0;
    }
    if tier_up {
        if r.tier > 1 {
            r.tier = r.tier - 1;
            r.car_idx = 0;
        }
    } else if tier_down {
        if r.tier < 5 {
            r.tier = r.tier + 1;
            r.car_idx = 0;
        }
    }
    r
}

/// The showroom keeps its tier between 1 and 5.
pub proof fn lemma_showroom_tier_in_range(s: ShowroomSelection, digit: Option<usize>, tier_up: bool, tier_down: bool)
    requires
        1 <= s.tier <= 5,
    ensures
        ({
            let t: u32 = if tier_up {
                if s.tier > 1 {
                    (s.tier - 1) as u32
                } else {
                    s.tier
                }
            } else if tier_down && s.tier < 5 {
                (s.tier + 1) as u32
            } else {
                s.tier
            };
            1 <= t <= 5
        }),
{
}

/// Car shown by the carousel of `n` cars after Left, or else Right, then a
/// click on a car card.
pub fn carousel_step(idx: usize, n: usize, left: bool, right: bool, click: Option<usize>) -> (r: usize)
    requires
        n <= usize::MAX / 2,
    ensures
        ({
            let a: int = if n > 0 && left {
                step_back_spec(idx as int, n as int)
            } else if n > 0 && right {
                step_forward_spec(idx as int, n as int)
            } else {
                idx as int
            };
            r == match click {
                Some(k) => if k < n {
                    k as int
                } else {
                    a
                },
                None => a,
            }
        }),
{
    let mut r = idx;
    if n > 0 {
        if left {
            r = step_round(idx, n, false);
        } else if right {
            r = step_round(idx, n, true);
        }
    }
    if let Some(k) = click {
        if k < n {
            r = k;
        }
    }
    r
}

/// Gallery tab after the tab keys: the tab is first brought onto the
/// `total` tabs; a number key picks its tab, Tab moves forward (back with
/// Shift), Q / LB back or else E / RB forward, and a click picks its tab.
/// The flag tells whether the tab was switched, which puts the gallery's
/// cursor on its first car.
pub fn gallery_tabs(
    filter: usize,
    total: usize,
    digit: Option<usize>,
    tab: bool,
    shift: bool,
    prev: bool,
    next: bool,
    click: Option<usize>,
) -> (r: (usize, bool))
    requires
        0 < total <= usize::MAX / 2,
        digit matches Some(d) ==> d < total,
    ensures
        r.0 < total,
        ({
            let f0: int = if filter < total {
                filter as int
            } else {
                total - 1
            };
            let f1: int = match digit {
                Some(d) => d as int,
                None => f0,
            };
            let f2: int = if tab {
                if shift {
                    step_back_spec(f1, total as int)
                } else {
                    step_forward_spec(f1, total as int)
                }
            } else {
                f1
            };
            let f3: int = if prev {
                step_back_spec(f2, total as int)
            } else if next {
                step_forward_spec(f2, total as int)
            } else {
                f2
            };
            let clicked = click matches Some(k) && k < total && k != f3;
            &&& r.0 == (if clicked {
                click->0 as int
            } else {
                f3
            })
            &&& r.1 == (digit is Some || tab || prev || next || clicked)
        }),
{
    let mut f = if filter < total {
        filter
    } else {
        total - 1
    };
    let mut changed = false;
    if let Some(d) = digit {
        f = d;
        changed = true;
    }
    if tab {
        f = step_round(f, total, !shift);
        changed = true;
    }
    if prev {
        f = step_round(f, total, false);
        changed = true;
    } else if next {
        f = step_round(f, total, true);
        changed = true;
    }
    if let Some(k) = click {
        if k < total && k != f {
            f = k;
            changed = true;
        }
    }
    (f, changed)
}

/// What the player did in the gallery grid during one frame.
#[derive(Debug, Clone, Copy, PartialEq, Eq, Structural)]
pub struct GalleryInput {
    /// Car card clicked.
    pub click: Option<usize>,
    pub left: bool,
    pub right: bool,
    pub up: bool,
    pub down: bool,
    /// Enter, keypad Enter or gamepad confirm.
    pub confirm: bool,
}

/// One frame of the gallery grid of `n` cars (rows of four): after a tab
/// switch the cursor starts on the first car; a click on the selected car
/// confirms it and a click on another selects it (not on the frame of a tab
/// switch); Left and Right move round the cars, Up and Down move a row when
/// there is one. Returns the cursor and the car confirmed, if any.
pub fn gallery_grid(sel: usize, n: usize, tab_changed: bool, i: GalleryInput) -> (r: (usize, Option<usize>))
    requires
        n <= usize::MAX / 2,
    ensures
        ({
            let s0: int = if tab_changed {
                0
            } else {
                sel as int
            };
            let click_hit = !tab_changed && (i.click matches Some(k) && k < n);
            let confirm = i.confirm || (click_hit && i.click->0 == s0);
            let s1: int = if click_hit && i.click->0 != s0 {
                i.click->0 as int
            } else {
                s0
            };
            let s2: int = if n > 0 && i.left {
                step_back_spec(s1, n as int)
            } else {
                s1
            };
            let s3: int = if n > 0 && i.right {
                step_forward_spec(s2, n as int)
            } else {
                s2
            };
            let s4: int = if n > 0 && i.up && s3 >= GALLERY_COLUMNS {
                s3 - GALLERY_COLUMNS
            } else {
                s3
            };
            let s5: int = if n > 0 && i.down && s4 + GALLERY_COLUMNS < n {
                s4 + GALLERY_COLUMNS
            } else {
                s4
            };
            &&& r.0 == s5
            &&& r.1 == (if n > 0 && confirm && s5 < n {
                Some(s5 as usize)
            } else {
                None
            })
        }),
{
    let mut s = if tab_changed {
        0
    } else {
        sel
    };
    let mut confirm = i.confirm;
    if !tab_changed {
        if let Some(k) = i.click {
            if k < n {
                if s == k {
                    confirm = true;
                } else {
                    s = k;
                }
            }
        }
    }
    if n > 0 {
        if i.left {
            s = step_round(s, n, false);
        }
        if i.right {
            s = step_round(s, n, true);
        }
        if i.up && s >= GALLERY_COLUMNS {
            s = s - GALLERY_COLUMNS;
        }
        if i.down && s < n && s + GALLERY_COLUMNS < n {
            s = s + GALLERY_COLUMNS;
        }
        if confirm && s < n {
            return (s, Some(s));
        }
    }
    (s, None)
}

/// What confirming or buying the car on show does.
#[derive(Debug, Clone, Copy, PartialEq, Eq, Structural)]
pub enum GarageCommit {
    Nothing,
    /// Race with this car.
    Select,
    /// Buy the car with career XP.
    Purchase,
    /// Refused: the car needs a higher career tier.
    LockedTier,
    /// Refused: not enough XP.
    CannotAfford,
}

/// What confirming (Enter, gamepad confirm, the select button) or buying (B)
/// the car on show does: a car that is unlocked (Classic cars, cars the
/// career unlocked, everything in developer mode) is selected on confirm; a
/// locked car is bought when the career can buy it, else refused for its
/// tier when the career level is below it, else for its price.
pub fn garage_commit(
    confirm: bool,
    buy: bool,
    classic: bool,
    career_unlocked: bool,
    dev_mode: bool,
    can_buy: bool,
    career_level: u32,
    car_tier: u32,
) -> (r: GarageCommit)
    ensures
        !(confirm || buy) ==> r == GarageCommit::Nothing,
        (confirm || buy) && (classic || career_unlocked || dev_mode) ==> r == (if confirm {
            GarageCommit::Select
        } else {
            GarageCommit::Nothing
        }),
        (confirm || buy) && !(classic || career_unlocked || dev_mode) ==> r == (if can_buy {
            GarageCommit::Purchase
        } else if career_level < car_tier {
            GarageCommit::LockedTier
        } else {
            GarageCommit::CannotAfford
        }),
{
    if !(confirm || buy) {
        GarageCommit::Nothing
    } else if classic || career_unlocked || dev_mode {
        if confirm {
            GarageCommit::Select
        } else {
            GarageCommit::Nothing
        }
    } else if can_buy {
        GarageCommit::Purchase
    } else if career_level < car_tier {
        GarageCommit::LockedTier
    } else {
        GarageCommit::CannotAfford
    }
}

/// Showroom entry the garage opens on from the starting grid: the first
/// entry of `target` among the shown `model_ids`, else the first entry.
pub fn garage_entry(model_ids: &Vec<String>, target: &Option<String>) -> (r: usize)
    ensures
        target matches Some(t) ==> (crate::workshop::holds_id(model_ids@, t@) ==> crate::workshop::first_place_of(
            model_ids@,
            t@,
            r as int,
        )),
        (match target {
            Some(t) => !crate::workshop::holds_id(model_ids@, t@),
            None => true,
        }) ==> r == 0,
{
    match target {
        Some(t) => match crate::workshop::find_id(model_ids, t) {
            Some(k) => k,
            None => 0,
        },
        None => 0,
    }
}

} // verus!
