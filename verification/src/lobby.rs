//! The Starting Grid lobby: cycling through lists, the bot-count control,
//! the card navigation of the setup column, and the per-frame decisions of
//! the lobby as a function from state and input to new state and actions.
use vstd::prelude::*;
use crate::modules::ModuleId;
use crate::roster::GameMode;
use crate::screens::{Screen, RESTART_COUNTDOWN_MS, hub_tier_spec, career_hub_screen};

verus! {

/// Index after `cur` in a list of `len` entries, wrapping to the front.
pub open spec fn wrap_next_spec(cur: int, len: int) -> int {
    (cur + 1) % len
}

/// Index before `cur` in a list of `len` entries, wrapping to the back.
pub open spec fn wrap_prev_spec(cur: int, len: int) -> int {
    if cur == 0 {
        len - 1
    } else {
        cur - 1
    }
}

/// Steps through a non-empty list of `len` entries (cars, car models):
/// forward to `(cur + 1) % len`, backward to the previous entry, from the
/// front to the back.
pub fn cycle_index(cur: usize, len: usize, forward: bool) -> (r: usize)
    requires
        len > 0,
        !forward ==> cur <= len,
    ensures
        forward ==> r == wrap_next_spec(cur as int, len as int),
        !forward ==> r == wrap_prev_spec(cur as int, len as int),
        r < len,
{
    if forward {
        if len == 1 {
            0
        } else {
            proof {
                vstd::arithmetic::div_mod::lemma_add_mod_noop(cur as int, 1, len as int);
                vstd::arithmetic::div_mod::lemma_small_mod(1, len as nat);
            }
            let k = cur % len;
            (k + 1) % len
        }
    } else if cur == 0 {
        len - 1
    } else {
        cur - 1
    }
}

/// Stepping forward and then back through a list returns to the entry one
/// started from, and so does stepping back and then forward.
pub proof fn lemma_cycle_round_trip(cur: int, len: int)
    requires
        0 <= cur < len,
    ensures
        wrap_prev_spec(wrap_next_spec(cur, len), len) == cur,
        wrap_next_spec(wrap_prev_spec(cur, len), len) == cur,
{
    if cur + 1 < len {
        vstd::arithmetic::div_mod::lemma_small_mod((cur + 1) as nat, len as nat);
    } else {
        vstd::arithmetic::div_mod::lemma_mod_self_0(len);
    }
    if cur == 0 {
        vstd::arithmetic::div_mod::lemma_mod_self_0(len);
    } else {
        vstd::arithmetic::div_mod::lemma_small_mod(cur as nat, len as nat);
    }
}

/// Bot count after one increase: one more, wrapping from `max_bots` to 1.
pub open spec fn bots_up_spec(num_bots: usize, max_bots: usize) -> usize {
    if num_bots < max_bots {
        (num_bots + 1) as usize
    } else {
        1
    }
}

/// Bot count after one decrease: one fewer, wrapping from 1 to `max_bots`.
pub open spec fn bots_down_spec(num_bots: usize, max_bots: usize) -> usize {
    if num_bots > 1 {
        (num_bots - 1) as usize
    } else {
        max_bots
    }
}

/// Raises the bot count by one, wrapping from the maximum back to one bot.
pub fn bots_up(num_bots: usize, max_bots: usize) -> (r: usize)
    ensures
        r == bots_up_spec(num_bots, max_bots),
{
    if num_bots < max_bots {
        num_bots + 1
    } else {
        1
    }
}

/// Lowers the bot count by one, wrapping from one bot to the maximum.
pub fn bots_down(num_bots: usize, max_bots: usize) -> (r: usize)
    ensures
        r == bots_down_spec(num_bots, max_bots),
{
    if num_bots > 1 {
        num_bots - 1
    } else {
        max_bots
    }
}

/// The bot count stays between one and the maximum, and a decrease undoes
/// an increase (and the other way round).
pub proof fn lemma_bots_round_trip(num_bots: usize, max_bots: usize)
    requires
        1 <= num_bots <= max_bots,
    ensures
        1 <= bots_up_spec(num_bots, max_bots) <= max_bots,
        1 <= bots_down_spec(num_bots, max_bots) <= max_bots,
        bots_down_spec(bots_up_spec(num_bots, max_bots), max_bots) == num_bots,
        bots_up_spec(bots_down_spec(num_bots, max_bots), max_bots) == num_bots,
{
}

/// Setup card selected after Up: Launch to Garage, Garage to Circuit,
/// Circuit to Player, Player round to Launch; any other card to the Garage.
pub open spec fn card_up_spec(card: usize) -> usize {
    if card == 2 {
        0
    } else if card == 0 {
        4
    } else if card == 4 {
        3
    } else if card == 3 {
        2
    } else {
        0
    }
}

/// Setup card selected after Down: Player to Circuit, Circuit to Garage,
/// Garage to Launch, Launch round to Player; any other card to Launch.
pub open spec fn card_down_spec(card: usize) -> usize {
    if card == 3 {
        4
    } else if card == 4 {
        0
    } else if card == 0 {
        2
    } else if card == 2 {
        3
    } else {
        2
    }
}

/// Setup card selected after Up (`up`) or Down in the setup column.
pub fn setup_card_step(card: usize, up: bool) -> (r: usize)
    ensures
        up ==> r == card_up_spec(card),
        !up ==> r == card_down_spec(card),
{
    if up {
        match card {
            2 => 0,
            0 => 4,
            4 => 3,
            3 => 2,
            _ => 0,
        }
    } else {
        match card {
            3 => 4,
            4 => 0,
            0 => 2,
            2 => 3,
            _ => 2,
        }
    }
}

/// On the four setup cards (Garage 0, Launch 2, Player 3, Circuit 4), Down
/// undoes Up and Up undoes Down, and four steps either way come back round.
pub proof fn lemma_setup_cards_cycle(card: usize)
    requires
        card == 0 || card == 2 || card == 3 || card == 4,
    ensures
        card_down_spec(card_up_spec(card)) == card,
        card_up_spec(card_down_spec(card)) == card,
        card_up_spec(card_up_spec(card_up_spec(card_up_spec(card)))) == card,
        card_down_spec(card_down_spec(card_down_spec(card_down_spec(card)))) == card,
{
}

/// Column of the Starting Grid that has the focus.
#[derive(Debug, Clone, Copy, PartialEq, Eq, Structural)]
pub enum StartingGridFocus {
    /// Setup column: Garage (card 0), grid size (1), Launch (2), Player (3), Circuit (4).
    LeftSetup,
    /// Roster column: the grid size card (1) above the list of participants.
    RightRoster,
}

/// Navigation state of the Starting Grid.
#[derive(Debug, Clone, Copy, PartialEq, Eq, Structural)]
pub struct StartingGridNav {
    pub focus: StartingGridFocus,
    pub card_idx: usize,
    pub roster_idx: usize,
    pub num_bots: usize,
}

/// What the player did on the Starting Grid during one frame.
#[derive(Debug, Clone, Copy, PartialEq, Eq, Structural)]
pub struct StartingGridInput {
    pub click_player_card: bool,
    pub click_circuit_card: bool,
    pub click_garage: bool,
    pub click_grid: bool,
    pub click_launch: bool,
    /// Left arrow, A, or a gamepad left.
    pub nav_left: bool,
    /// Right arrow or a gamepad right (the D key counts as well, see `key_d`).
    pub nav_right: bool,
    /// Up arrow, W, or a gamepad up.
    pub nav_up: bool,
    /// Down arrow, S, or a gamepad down.
    pub nav_down: bool,
    /// Enter or keypad Enter.
    pub enter: bool,
    /// Gamepad confirm or A.
    pub pad_confirm: bool,
    pub pad_y: bool,
    pub pad_start: bool,
    pub space: bool,
    pub bracket_right: bool,
    pub bracket_left: bool,
    pub equal: bool,
    pub minus: bool,
    pub key_d: bool,
    pub key_g: bool,
    pub key_t: bool,
    pub key_p: bool,
    pub key_c: bool,
    /// Escape, or gamepad cancel, back or B.
    pub back: bool,
}

/// What the session allows on the Starting Grid.
#[derive(Debug, Clone, Copy, PartialEq, Eq, Structural)]
pub struct StartingGridContext {
    /// The mode has bots and lets the player size the grid.
    pub grid_adjustable: bool,
    /// The mode lets the player customize the grid (difficulty shortcut).
    pub grid_customizable: bool,
    /// The mode lets the player change car.
    pub car_change: bool,
    /// The mode lets the player change the car of each participant.
    pub roster_customizable: bool,
    pub max_bots: usize,
    /// Number of participants listed on the grid.
    pub roster_len: usize,
}

/// Effect the lobby asks for, in the order in which it arises in the frame.
#[derive(Debug, Clone, Copy, PartialEq, Eq, Structural)]
pub enum StartingGridAction {
    OpenProfile,
    OpenCircuitSelector,
    OpenGarage,
    /// The bot count changed to this value: rebuild the roster and record
    /// the new racer count for the mode.
    SetBots(usize),
    /// Step the player's car forward (`true`) or back through the module's cars.
    CyclePlayerCar(bool),
    /// Step the selected participant's car model forward (`true`) or back.
    CycleParticipantModel(bool),
    /// Start the race if the player's car may race (see `launch_from_grid`).
    RequestLaunch,
    /// Open the driver dossiers, on the given roster entry when there is one.
    OpenDriverCards(Option<usize>),
    CycleDifficulty,
    /// Leave the lobby (see `starting_grid_exit`).
    Leave,
}

/// Actions that end the frame: each leaves the lobby or starts the race.
pub open spec fn ends_frame(a: StartingGridAction) -> bool {
    a is OpenProfile || a is OpenCircuitSelector || a is OpenGarage || a is RequestLaunch
        || a is OpenDriverCards || a is Leave
}

/// The clickable cards and buttons, checked first; `true` when the frame ends there.
pub open spec fn click_stage(s: StartingGridNav, i: StartingGridInput, c: StartingGridContext) -> (
    StartingGridNav,
    Seq<StartingGridAction>,
    bool,
) {
    if i.click_player_card {
        (
            StartingGridNav { focus: StartingGridFocus::LeftSetup, card_idx: 3, ..s },
            seq![StartingGridAction::OpenProfile],
            true,
        )
    } else if i.click_circuit_card {
        (
            StartingGridNav { focus: StartingGridFocus::LeftSetup, card_idx: 4, ..s },
            seq![StartingGridAction::OpenCircuitSelector],
            true,
        )
    } else if i.click_garage {
        (s, seq![StartingGridAction::OpenGarage], true)
    } else if i.click_grid {
        let s1 = StartingGridNav { focus: StartingGridFocus::RightRoster, card_idx: 1, ..s };
        if c.grid_adjustable {
            let n = bots_up_spec(s.num_bots, c.max_bots);
            (StartingGridNav { num_bots: n, ..s1 }, seq![StartingGridAction::SetBots(n)], true)
        } else {
            (s1, Seq::empty(), true)
        }
    } else {
        (s, Seq::empty(), false)
    }
}

/// Switching columns: left goes to the setup column (off the grid size
/// card), right (or D) to the roster column.
pub open spec fn panel_stage(s: StartingGridNav, i: StartingGridInput) -> StartingGridNav {
    let s1 = if i.nav_left && !(s.focus is LeftSetup) {
        StartingGridNav {
            focus: StartingGridFocus::LeftSetup,
            card_idx: if s.card_idx == 1 {
                0
            } else {
                s.card_idx
            },
            ..s
        }
    } else {
        s
    };
    if (i.nav_right || i.key_d) && !(s1.focus is RightRoster) {
        StartingGridNav { focus: StartingGridFocus::RightRoster, ..s1 }
    } else {
        s1
    }
}

/// Grid size changes on the grid size card: up on Enter, ] or =, then down
/// on [ or -.
pub open spec fn bots_stage(num_bots: usize, i: StartingGridInput, c: StartingGridContext) -> (
    usize,
    Seq<StartingGridAction>,
) {
    if !c.grid_adjustable {
        (num_bots, Seq::empty())
    } else {
        let up = i.enter || i.bracket_right || i.equal;
        let down = i.bracket_left || i.minus;
        let n1 = if up {
            bots_up_spec(num_bots, c.max_bots)
        } else {
            num_bots
        };
        let a1: Seq<StartingGridAction> = if up {
            seq![StartingGridAction::SetBots(n1)]
        } else {
            Seq::empty()
        };
        let n2 = if down {
            bots_down_spec(n1, c.max_bots)
        } else {
            n1
        };
        let a2: Seq<StartingGridAction> = if down {
            a1.push(StartingGridAction::SetBots(n2))
        } else {
            a1
        };
        (n2, a2)
    }
}

/// The setup column: Up and Down move between the cards, then the selected
/// card acts; `true` when the frame ends there.
pub open spec fn setup_stage(s: StartingGridNav, i: StartingGridInput, c: StartingGridContext) -> (
    StartingGridNav,
    Seq<StartingGridAction>,
    bool,
) {
    let c1 = if i.nav_up {
        card_up_spec(s.card_idx)
    } else {
        s.card_idx
    };
    let c2 = if i.nav_down {
        card_down_spec(c1)
    } else {
        c1
    };
    let s1 = StartingGridNav { card_idx: c2, ..s };
    let pressed = i.enter || i.pad_confirm;
    if c2 == 0 {
        if pressed {
            (s1, seq![StartingGridAction::OpenGarage], true)
        } else if c.car_change {
            let a1: Seq<StartingGridAction> = if i.bracket_right {
                seq![StartingGridAction::CyclePlayerCar(true)]
            } else {
                Seq::empty()
            };
            let a2 = if i.bracket_left {
                a1.push(StartingGridAction::CyclePlayerCar(false))
            } else {
                a1
            };
            (s1, a2, false)
        } else {
            (s1, Seq::empty(), false)
        }
    } else if c2 == 1 {
        let (n, a) = bots_stage(s1.num_bots, i, c);
        (StartingGridNav { num_bots: n, ..s1 }, a, false)
    } else if c2 == 3 {
        if pressed {
            (s1, seq![StartingGridAction::OpenProfile], true)
        } else {
            (s1, Seq::empty(), false)
        }
    } else if c2 == 4 {
        if pressed {
            (s1, seq![StartingGridAction::OpenCircuitSelector], true)
        } else {
            (s1, Seq::empty(), false)
        }
    } else {
        if pressed {
            (s1, seq![StartingGridAction::RequestLaunch], true)
        } else {
            (s1, Seq::empty(), false)
        }
    }
}

/// The roster column: the grid size card on top, then the participants;
/// `true` when the frame ends there.
pub open spec fn roster_stage(s: StartingGridNav, i: StartingGridInput, c: StartingGridContext) -> (
    StartingGridNav,
    Seq<StartingGridAction>,
    bool,
) {
    let len = if c.roster_len < 1 {
        1usize
    } else {
        c.roster_len
    };
    if s.card_idx == 1 {
        let s1 = if i.nav_up {
            StartingGridNav { card_idx: 0, roster_idx: (len - 1) as usize, ..s }
        } else {
            s
        };
        let s2 = if i.nav_down {
            StartingGridNav { card_idx: 0, roster_idx: 0, ..s1 }
        } else {
            s1
        };
        let (n, a) = bots_stage(s2.num_bots, i, c);
        (StartingGridNav { num_bots: n, ..s2 }, a, false)
    } else {
        let s1 = if i.nav_up {
            if s.roster_idx == 0 {
                StartingGridNav { card_idx: 1, ..s }
            } else {
                StartingGridNav { roster_idx: (s.roster_idx - 1) as usize, ..s }
            }
        } else {
            s
        };
        let s2 = if i.nav_down {
            if s1.roster_idx >= len - 1 {
                StartingGridNav { card_idx: 1, ..s1 }
            } else {
                StartingGridNav { roster_idx: (s1.roster_idx + 1) as usize, ..s1 }
            }
        } else {
            s1
        };
        let a1: Seq<StartingGridAction> = if c.roster_customizable && i.bracket_right {
            seq![StartingGridAction::CycleParticipantModel(true)]
        } else {
            Seq::empty()
        };
        let a2 = if c.roster_customizable && i.bracket_left {
            a1.push(StartingGridAction::CycleParticipantModel(false))
        } else {
            a1
        };
        if i.enter || i.key_d || i.pad_y {
            (s2, a2.push(StartingGridAction::OpenDriverCards(Some(s2.roster_idx))), true)
        } else {
            (s2, a2, false)
        }
    }
}

/// The shortcuts checked last, whatever the column.
pub open spec fn shortcut_stage(s: StartingGridNav, i: StartingGridInput, c: StartingGridContext) -> Seq<
    StartingGridAction,
> {
    let on_setup = s.focus is LeftSetup;
    if i.space || i.pad_start || i.click_launch || (on_setup && (s.card_idx == 1 || s.card_idx
        == 2) && i.pad_confirm) {
        seq![StartingGridAction::RequestLaunch]
    } else if i.key_g {
        seq![StartingGridAction::OpenGarage]
    } else {
        let a: Seq<StartingGridAction> = if i.key_t && c.grid_customizable {
            seq![StartingGridAction::CycleDifficulty]
        } else {
            Seq::empty()
        };
        if i.key_d || (on_setup && i.pad_y) {
            a.push(StartingGridAction::OpenDriverCards(None))
        } else if i.key_p {
            a.push(StartingGridAction::OpenProfile)
        } else if i.key_c {
            a.push(StartingGridAction::OpenCircuitSelector)
        } else if i.back {
            a.push(StartingGridAction::Leave)
        } else {
            a
        }
    }
}

/// One frame of the Starting Grid: the new navigation state and the effects
/// asked for, in order.
pub open spec fn grid_frame(s: StartingGridNav, i: StartingGridInput, c: StartingGridContext) -> (
    StartingGridNav,
    Seq<StartingGridAction>,
) {
    let (s1, a1, done1) = click_stage(s, i, c);
    if done1 {
        (s1, a1)
    } else {
        let s2 = panel_stage(s, i);
        let (s3, a3, done3) = if s2.focus is LeftSetup {
            setup_stage(s2, i, c)
        } else {
            roster_stage(s2, i, c)
        };
        if done3 {
            (s3, a3)
        } else {
            (s3, a3 + shortcut_stage(s3, i, c))
        }
    }
}

fn click_step(s: StartingGridNav, i: StartingGridInput, c: StartingGridContext) -> (r: (
    StartingGridNav,
    Vec<StartingGridAction>,
    bool,
))
    ensures
        r.0 == click_stage(s, i, c).0,
        r.1@ == click_stage(s, i, c).1,
        r.2 == click_stage(s, i, c).2,
{
    let mut acts: Vec<StartingGridAction> = Vec::new();
    if i.click_player_card {
        acts.push(StartingGridAction::OpenProfile);
        (StartingGridNav { focus: StartingGridFocus::LeftSetup, card_idx: 3, ..s }, acts, true)
    } else if i.click_circuit_card {
        acts.push(StartingGridAction::OpenCircuitSelector);
        (StartingGridNav { focus: StartingGridFocus::LeftSetup, card_idx: 4, ..s }, acts, true)
    } else if i.click_garage {
        acts.push(StartingGridAction::OpenGarage);
        (s, acts, true)
    } else if i.click_grid {
        let s1 = StartingGridNav { focus: StartingGridFocus::RightRoster, card_idx: 1, ..s };
        if c.grid_adjustable {
            let n = bots_up(s.num_bots, c.max_bots);
            acts.push(StartingGridAction::SetBots(n));
            (StartingGridNav { num_bots: n, ..s1 }, acts, true)
        } else {
            (s1, acts, true)
        }
    } else {
        (s, acts, false)
    }
}

fn panel_step(s: StartingGridNav, i: StartingGridInput) -> (r: StartingGridNav)
    ensures
        r == panel_stage(s, i),
{
    let mut s1 = s;
    if i.nav_left && s1.focus != StartingGridFocus::LeftSetup {
        s1.focus = StartingGridFocus::LeftSetup;
        if s1.card_idx == 1 {
            s1.card_idx = 0;
        }
    }
    if (i.nav_right || i.key_d) && s1.focus != StartingGridFocus::RightRoster {
        s1.focus = StartingGridFocus::RightRoster;
    }
    s1
}

fn bots_step(num_bots: usize, i: StartingGridInput, c: StartingGridContext, acts: &mut Vec<
    StartingGridAction,
>) -> (r: usize)
    ensures
        r == bots_stage(num_bots, i, c).0,
        final(acts)@ == old(acts)@ + bots_stage(num_bots, i, c).1,
{
    if !c.grid_adjustable {
        assert(old(acts)@ + Seq::<StartingGridAction>::empty() =~= old(acts)@);
        return num_bots;
    }
    let mut n = num_bots;
    if i.enter || i.bracket_right || i.equal {
        n = bots_up(n, c.max_bots);
        acts.push(StartingGridAction::SetBots(n));
    }
    if i.bracket_left || i.minus {
        n = bots_down(n, c.max_bots);
        acts.push(StartingGridAction::SetBots(n));
    }
    assert(acts@ =~= old(acts)@ + bots_stage(num_bots, i, c).1);
    n
}

fn setup_step(s: StartingGridNav, i: StartingGridInput, c: StartingGridContext) -> (r: (
    StartingGridNav,
    Vec<StartingGridAction>,
    bool,
))
    ensures
        r.0 == setup_stage(s, i, c).0,
        r.1@ == setup_stage(s, i, c).1,
        r.2 == setup_stage(s, i, c).2,
{
    let mut s1 = s;
    if i.nav_up {
        s1.card_idx = setup_card_step(s1.card_idx, true);
    }
    if i.nav_down {
        s1.card_idx = setup_card_step(s1.card_idx, false);
    }
    let pressed = i.enter || i.pad_confirm;
    let mut acts: Vec<StartingGridAction> = Vec::new();
    if s1.card_idx == 0 {
        if pressed {
            acts.push(StartingGridAction::OpenGarage);
            return (s1, acts, true);
        }
        if c.car_change {
            if i.bracket_right {
                acts.push(StartingGridAction::CyclePlayerCar(true));
            }
            if i.bracket_left {
                acts.push(StartingGridAction::CyclePlayerCar(false));
            }
        }
        assert(acts@ =~= setup_stage(s, i, c).1);
        (s1, acts, false)
    } else if s1.card_idx == 1 {
        let n = bots_step(s1.num_bots, i, c, &mut acts);
        assert(acts@ =~= setup_stage(s, i, c).1);
        (StartingGridNav { num_bots: n, ..s1 }, acts, false)
    } else if s1.card_idx == 3 {
        if pressed {
            acts.push(StartingGridAction::OpenProfile);
        }
        (s1, acts, pressed)
    } else if s1.card_idx == 4 {
        if pressed {
            acts.push(StartingGridAction::OpenCircuitSelector);
        }
        (s1, acts, pressed)
    } else {
        if pressed {
            acts.push(StartingGridAction::RequestLaunch);
        }
        (s1, acts, pressed)
    }
}

fn roster_step(s: StartingGridNav, i: StartingGridInput, c: StartingGridContext) -> (r: (
    StartingGridNav,
    Vec<StartingGridAction>,
    bool,
))
    ensures
        r.0 == roster_stage(s, i, c).0,
        r.1@ == roster_stage(s, i, c).1,
        r.2 == roster_stage(s, i, c).2,
{
    let len: usize = if c.roster_len < 1 {
        1
    } else {
        c.roster_len
    };
    let mut s1 = s;
    let mut acts: Vec<StartingGridAction> = Vec::new();
    if s1.card_idx == 1 {
        if i.nav_up {
            s1.card_idx = 0;
            s1.roster_idx = len - 1;
        }
        if i.nav_down {
            s1.card_idx = 0;
            s1.roster_idx = 0;
        }
        let n = bots_step(s1.num_bots, i, c, &mut acts);
        assert(acts@ =~= roster_stage(s, i, c).1);
        (StartingGridNav { num_bots: n, ..s1 }, acts, false)
    } else {
        if i.nav_up {
            if s1.roster_idx == 0 {
                s1.card_idx = 1;
            } else {
                s1.roster_idx = s1.roster_idx - 1;
            }
        }
        if i.nav_down {
            if s1.roster_idx >= len - 1 {
                s1.card_idx = 1;
            } else {
                s1.roster_idx = s1.roster_idx + 1;
            }
        }
        if c.roster_customizable && i.bracket_right {
            acts.push(StartingGridAction::CycleParticipantModel(true));
        }
        if c.roster_customizable && i.bracket_left {
            acts.push(StartingGridAction::CycleParticipantModel(false));
        }
        let done = i.enter || i.key_d || i.pad_y;
        if done {
            acts.push(StartingGridAction::OpenDriverCards(Some(s1.roster_idx)));
        }
        assert(acts@ =~= roster_stage(s, i, c).1);
        (s1, acts, done)
    }
}

fn shortcut_step(s: StartingGridNav, i: StartingGridInput, c: StartingGridContext, acts: &mut Vec<
    StartingGridAction,
>)
    ensures
        final(acts)@ == old(acts)@ + shortcut_stage(s, i, c),
{
    let on_setup = s.focus == StartingGridFocus::LeftSetup;
    if i.space || i.pad_start || i.click_launch || (on_setup && (s.card_idx == 1 || s.card_idx
        == 2) && i.pad_confirm) {
        acts.push(StartingGridAction::RequestLaunch);
    } else if i.key_g {
        acts.push(StartingGridAction::OpenGarage);
    } else {
        if i.key_t && c.grid_customizable {
            acts.push(StartingGridAction::CycleDifficulty);
        }
        if i.key_d || (on_setup && i.pad_y) {
            acts.push(StartingGridAction::OpenDriverCards(None));
        } else if i.key_p {
            acts.push(StartingGridAction::OpenProfile);
        } else if i.key_c {
            acts.push(StartingGridAction::OpenCircuitSelector);
        } else if i.back {
            acts.push(StartingGridAction::Leave);
        }
    }
    assert(acts@ =~= old(acts)@ + shortcut_stage(s, i, c));
}

/// Runs one frame of the Starting Grid: clicks first, then the column
/// switch, the focused column, and the shortcuts; the frame ends at the
/// first action that leaves the lobby or starts the race.
pub fn starting_grid_frame(s: StartingGridNav, i: StartingGridInput, c: StartingGridContext) -> (r: (
    StartingGridNav,
    Vec<StartingGridAction>,
))
    ensures
        r.0 == grid_frame(s, i, c).0,
        r.1@ == grid_frame(s, i, c).1,
{
    let (s1, a1, done1) = click_step(s, i, c);
    if done1 {
        return (s1, a1);
    }
    let s2 = panel_step(s, i);
    let (s3, mut a3, done3) = if s2.focus == StartingGridFocus::LeftSetup {
        setup_step(s2, i, c)
    } else {
        roster_step(s2, i, c)
    };
    if done3 {
        return (s3, a3);
    }
    shortcut_step(s3, i, c, &mut a3);
    (s3, a3)
}

/// Well-formed lobby state: a known card is selected, the roster entry lies
/// on the grid, and an adjustable grid holds between one bot and the maximum.
pub open spec fn nav_wf(s: StartingGridNav, c: StartingGridContext) -> bool {
    &&& s.card_idx <= 4
    &&& (s.roster_idx < c.roster_len || s.roster_idx == 0)
    &&& c.grid_adjustable ==> 1 <= s.num_bots <= c.max_bots
}

/// Every frame of the lobby keeps its state well-formed.
pub proof fn lemma_grid_frame_keeps_wf(s: StartingGridNav, i: StartingGridInput, c: StartingGridContext)
    requires
        nav_wf(s, c),
    ensures
        nav_wf(grid_frame(s, i, c).0, c),
{
    if c.grid_adjustable {
        lemma_bots_round_trip(s.num_bots, c.max_bots);
        lemma_bots_round_trip(bots_up_spec(s.num_bots, c.max_bots), c.max_bots);
    }
}

/// No action of `a` leaves the lobby or starts the race.
pub open spec fn no_exit(a: Seq<StartingGridAction>) -> bool {
    forall|k: int| 0 <= k < a.len() ==> !ends_frame(#[trigger] a[k])
}

/// Only the last action of `a` may leave the lobby or start the race.
pub open spec fn exit_last(a: Seq<StartingGridAction>) -> bool {
    forall|k: int| 0 <= k < a.len() - 1 ==> !ends_frame(#[trigger] a[k])
}

/// Every grid size announced in `a` lies between one bot and `max_bots`.
pub open spec fn bots_within(a: Seq<StartingGridAction>, max_bots: usize) -> bool {
    forall|k: int|
        0 <= k < a.len() ==> (#[trigger] a[k] matches StartingGridAction::SetBots(n) ==> 1 <= n
            <= max_bots)
}

proof fn lemma_bots_stage_facts(n: usize, i: StartingGridInput, c: StartingGridContext)
    requires
        c.grid_adjustable ==> 1 <= n <= c.max_bots,
    ensures
        no_exit(bots_stage(n, i, c).1),
        bots_within(bots_stage(n, i, c).1, c.max_bots),
{
    if c.grid_adjustable {
        lemma_bots_round_trip(n, c.max_bots);
        lemma_bots_round_trip(bots_up_spec(n, c.max_bots), c.max_bots);
    }
}

proof fn lemma_column_stage_facts(s: StartingGridNav, i: StartingGridInput, c: StartingGridContext)
    requires
        c.grid_adjustable ==> 1 <= s.num_bots <= c.max_bots,
    ensures
        ({
            let r = if s.focus is LeftSetup {
                setup_stage(s, i, c)
            } else {
                roster_stage(s, i, c)
            };
            &&& exit_last(r.1)
            &&& !r.2 ==> no_exit(r.1)
            &&& bots_within(r.1, c.max_bots)
        }),
{
    lemma_bots_stage_facts(s.num_bots, i, c);
}

/// Every grid size the lobby announces lies between one bot and the maximum.
pub proof fn lemma_grid_frame_bot_counts(s: StartingGridNav, i: StartingGridInput, c: StartingGridContext)
    requires
        nav_wf(s, c),
    ensures
        bots_within(grid_frame(s, i, c).1, c.max_bots),
{
    if c.grid_adjustable {
        lemma_bots_round_trip(s.num_bots, c.max_bots);
    }
    let s2 = panel_stage(s, i);
    lemma_column_stage_facts(s2, i, c);
    let r3 = if s2.focus is LeftSetup {
        setup_stage(s2, i, c)
    } else {
        roster_stage(s2, i, c)
    };
    let sh = shortcut_stage(r3.0, i, c);
    assert(bots_within(sh, c.max_bots));
    assert(bots_within(r3.1 + sh, c.max_bots)) by {
        assert forall|k: int| 0 <= k < (r3.1 + sh).len() implies ((#[trigger] (r3.1 + sh)[k])
            matches StartingGridAction::SetBots(n) ==> 1 <= n <= c.max_bots) by {
            if k < r3.1.len() {
                assert((r3.1 + sh)[k] == r3.1[k]);
            } else {
                assert((r3.1 + sh)[k] == sh[k - r3.1.len()]);
            }
        }
    }
}

/// A frame asks for at most one action that leaves the lobby or starts the
/// race, and that action comes last.
pub proof fn lemma_grid_frame_ends_once(s: StartingGridNav, i: StartingGridInput, c: StartingGridContext)
    requires
        nav_wf(s, c),
    ensures
        exit_last(grid_frame(s, i, c).1),
{
    let s2 = panel_stage(s, i);
    lemma_column_stage_facts(s2, i, c);
    let r3 = if s2.focus is LeftSetup {
        setup_stage(s2, i, c)
    } else {
        roster_stage(s2, i, c)
    };
    let sh = shortcut_stage(r3.0, i, c);
    assert(exit_last(sh));
    if !r3.2 {
        assert(exit_last(r3.1 + sh)) by {
            assert forall|k: int| 0 <= k < (r3.1 + sh).len() - 1 implies !ends_frame(
                #[trigger] (r3.1 + sh)[k],
            ) by {
                if k < r3.1.len() {
                    assert((r3.1 + sh)[k] == r3.1[k]);
                } else {
                    assert((r3.1 + sh)[k] == sh[k - r3.1.len()]);
                }
            }
        }
    }
}

/// Answer to a launch request: the start countdown when the player's car is
/// eligible for the race's tier and unlocked, else nothing (the request is refused).
pub fn launch_from_grid(car_eligible: bool, car_unlocked: bool) -> (r: Option<Screen>)
    ensures
        car_eligible && car_unlocked ==> r == Some(Screen::Countdown(RESTART_COUNTDOWN_MS)),
        !(car_eligible && car_unlocked) ==> r is None,
{
    if car_eligible && car_unlocked {
        Some(Screen::Countdown(RESTART_COUNTDOWN_MS))
    } else {
        None
    }
}

/// Screen reached when the lobby is left, and whether the test-drive flag is
/// cleared: the track editor after a test drive from it; the career hub of a
/// GT career (tier from the career level, slot at the championship's round);
/// else the menu.
pub fn starting_grid_exit(
    return_to_editor: bool,
    mode: GameMode,
    module: ModuleId,
    career_level: u32,
    current_round: Option<usize>,
) -> (r: (Screen, bool))
    ensures
        return_to_editor ==> r == (Screen::TrackEditor, true),
        !return_to_editor && mode is Career && module.is_gt_spec() ==> r == (
            Screen::CareerHub {
                selected_tier: hub_tier_spec(career_level),
                selected_slot: match current_round {
                    Some(k) => k,
                    None => 0,
                },
                showing_standings: false,
            },
            false,
        ),
        !return_to_editor && !(mode is Career && module.is_gt_spec()) ==> r == (Screen::Menu, false),
{
    if return_to_editor {
        (Screen::TrackEditor, true)
    } else if mode == GameMode::Career && module.is_gt() {
        (career_hub_screen(career_level, current_round, false), false)
    } else {
        (Screen::Menu, false)
    }
}

/// Place of a participant's current model among `model_ids`: the first
/// place of its model when the list holds it, else the first entry.
pub open spec fn current_model_place(model_ids: Seq<String>, current: Option<String>, c: int) -> bool {
    match current {
        Some(id) => if crate::workshop::holds_id(model_ids, id@) {
            crate::workshop::first_place_of(model_ids, id@, c)
        } else {
            c == 0
        },
        None => c == 0,
    }
}

/// Catalog model a participant switches to when its model is stepped, as an
/// index into the module's `model_ids`: none when the module has no models;
/// otherwise the entry after (or before, when `forward` is false) the
/// participant's current model, counting from the first entry when the
/// participant's model is not in the list.
pub fn participant_model_step(model_ids: &Vec<String>, current: &Option<String>, forward: bool) -> (r: Option<
    usize>)
    ensures
        model_ids.len() == 0 <==> r is None,
        r matches Some(k) ==> k < model_ids.len() && exists|c: int|
            #[trigger] current_model_place(model_ids@, *current, c) && (forward ==> k == wrap_next_spec(
                c,
                model_ids.len() as int,
            )) && (!forward ==> k == wrap_prev_spec(c, model_ids.len() as int)),
{
    if model_ids.len() == 0 {
        return None;
    }
    let cur: usize = match current {
        Some(id) => match crate::workshop::find_id(model_ids, id) {
            Some(c) => c,
            None => 0,
        },
        None => 0,
    };
    assert(current_model_place(model_ids@, *current, cur as int));
    Some(cycle_index(cur, model_ids.len(), forward))
}

/// Car whose setup follows a participant's model: the car of its opponent
/// for an opponent, the participant's own place otherwise.
pub fn participant_car(bot_index: Option<usize>, roster_idx: usize, split_screen: bool) -> (r: usize)
    requires
        bot_index matches Some(b) ==> b + 2 <= usize::MAX,
    ensures
        r == match bot_index {
            Some(b) => crate::standings::car_of_bot_spec(b, split_screen) as usize,
            None => roster_idx,
        },
{
    match bot_index {
        Some(b) => crate::standings::car_of_bot(b, split_screen),
        None => roster_idx,
    }
}

/// With distinct model ids, a participant driving the model at place `i`
/// (or at any place) is found there, so stepping its model forward and then
/// back returns it to place `i`.
pub proof fn lemma_model_step_round_trip(model_ids: Seq<String>, i: int)
    requires
        0 <= i < model_ids.len(),
        forall|a: int, b: int| 0 <= a < b < model_ids.len() ==> model_ids[a]@ != model_ids[b]@,
    ensures
        forall|p: int, id: String, c: int|
            #![trigger current_model_place(model_ids, Some(id), c), model_ids[p]]
            0 <= p < model_ids.len() && id@ == model_ids[p]@ ==> (current_model_place(
                model_ids,
                Some(id),
                c,
            ) <==> c == p),
        wrap_prev_spec(wrap_next_spec(i, model_ids.len() as int), model_ids.len() as int) == i,
        0 <= wrap_next_spec(i, model_ids.len() as int) < model_ids.len(),
{
    let n = model_ids.len() as int;
    vstd::arithmetic::div_mod::lemma_mod_bound(i + 1, n);
    if i + 1 < n {
        vstd::arithmetic::div_mod::lemma_small_mod((i + 1) as nat, n as nat);
    } else {
        vstd::arithmetic::div_mod::lemma_mod_self_0(n);
    }
    assert forall|p: int, id: String, c: int|
            #![trigger current_model_place(model_ids, Some(id), c), model_ids[p]]
        0 <= p < model_ids.len() && id@ == model_ids[p]@ implies (current_model_place(
            model_ids,
            Some(id),
            c,
        ) <==> c == p) by {
        assert(model_ids[p]@ == id@);
        assert(crate::workshop::holds_id(model_ids, id@));
        if c != p && current_model_place(model_ids, Some(id), c) {
            if c < p {
                assert(model_ids[c]@ != model_ids[p]@);
            } else {
                assert(model_ids[p]@ != model_ids[c]@);
            }
        }
    }
}

} // verus!
