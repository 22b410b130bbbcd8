//! Roster sizing: driver tiers, game modes, remembered modality preferences,
//! and how many opponents a race is given.
use vstd::prelude::*;

verus! {

/// Skill tier of an AI driver.
#[derive(Debug, Clone, Copy, PartialEq, Eq, Structural)]
pub enum DriverTier {
    Rookie,
    Amateur,
    Contender,
    Pro,
    Legend,
}

/// Tier that follows `t` in the casual difficulty cycle.
pub open spec fn next_tier_spec(t: DriverTier) -> DriverTier {
    match t {
        DriverTier::Rookie => DriverTier::Amateur,
        DriverTier::Amateur => DriverTier::Contender,
        DriverTier::Contender => DriverTier::Pro,
        DriverTier::Pro => DriverTier::Legend,
        DriverTier::Legend => DriverTier::Rookie,
    }
}

impl DriverTier {
    /// Next tier of the casual difficulty cycle (Rookie, Amateur, Contender,
    /// Pro, Legend, then Rookie again).
    pub fn next(self) -> (r: DriverTier)
        ensures
            r == next_tier_spec(self),
    {
        match self {
            DriverTier::Rookie => DriverTier::Amateur,
            DriverTier::Amateur => DriverTier::Contender,
            DriverTier::Contender => DriverTier::Pro,
            DriverTier::Pro => DriverTier::Legend,
            DriverTier::Legend => DriverTier::Rookie,
        }
    }
}

/// Kind of race session the player chose.
#[derive(Debug, Clone, Copy, PartialEq, Eq, Structural)]
pub enum GameMode {
    StandardRace,
    Career,
    ExperimentalRace,
    FreeRide,
    SplitScreen,
    TimeTrial,
}

impl GameMode {
    /// Whether two players share the screen.
    pub fn is_split_screen(self) -> (r: bool)
        ensures
            r == (self is SplitScreen),
    {
        match self {
            GameMode::SplitScreen => true,
            _ => false,
        }
    }
}

/// Number of human drivers: two in split screen, one otherwise.
pub open spec fn human_count_spec(split_screen: bool) -> usize {
    if split_screen {
        2
    } else {
        1
    }
}

/// Number of human drivers: two in split screen, one otherwise.
pub fn human_count(split_screen: bool) -> (r: usize)
    ensures
        r == human_count_spec(split_screen),
{
    if split_screen {
        2
    } else {
        1
    }
}

/// Five steps of the difficulty cycle come back to the starting tier.
pub proof fn lemma_tier_cycle_period(t: DriverTier)
    ensures
        next_tier_spec(next_tier_spec(next_tier_spec(next_tier_spec(next_tier_spec(t))))) == t,
        next_tier_spec(t) != t,
{
}

/// User preference memory for a specific casual race modality.
#[derive(Debug, Clone, Copy, PartialEq, Eq, Structural)]
pub struct ModalityPreference {
    pub racer_count: usize,
    pub difficulty: DriverTier,
}

/// Remembered preference of each casual game mode.
#[derive(Debug)]
pub struct ModalityPreferences {
    standard_race: Option<ModalityPreference>,
    career: Option<ModalityPreference>,
    experimental_race: Option<ModalityPreference>,
    free_ride: Option<ModalityPreference>,
    split_screen: Option<ModalityPreference>,
    time_trial: Option<ModalityPreference>,
}

impl ModalityPreferences {
    /// Preference remembered for `mode`, if any.
    pub closed spec fn slot(&self, mode: GameMode) -> Option<ModalityPreference> {
        match mode {
            GameMode::StandardRace => self.standard_race,
            GameMode::Career => self.career,
            GameMode::ExperimentalRace => self.experimental_race,
            GameMode::FreeRide => self.free_ride,
            GameMode::SplitScreen => self.split_screen,
            GameMode::TimeTrial => self.time_trial,
        }
    }
}

impl View for ModalityPreferences {
    type V = Map<GameMode, ModalityPreference>;

    /// The remembered preferences as a map from game mode.
    closed spec fn view(&self) -> Map<GameMode, ModalityPreference> {
        Map::new(|m: GameMode| self.slot(m) is Some, |m: GameMode| self.slot(m)->0)
    }
}

impl ModalityPreferences {
    /// No preference remembered.
    pub fn new() -> (r: ModalityPreferences)
        ensures
            r@ == Map::<GameMode, ModalityPreference>::empty(),
    {
        let r = ModalityPreferences {
            standard_race: None,
            career: None,
            experimental_race: None,
            free_ride: None,
            split_screen: None,
            time_trial: None,
        };
        assert(r@ =~= Map::<GameMode, ModalityPreference>::empty());
        r
    }

    /// The remembered preference for a game mode, if any.
    pub fn modality_preference(&self, mode: GameMode) -> (r: Option<ModalityPreference>)
        ensures
            r == if self@.contains_key(mode) {
                Some(self@[mode])
            } else {
                None
            },
    {
        match mode {
            GameMode::StandardRace => self.standard_race,
            GameMode::Career => self.career,
            GameMode::ExperimentalRace => self.experimental_race,
            GameMode::FreeRide => self.free_ride,
            GameMode::SplitScreen => self.split_screen,
            GameMode::TimeTrial => self.time_trial,
        }
    }

    /// Remembers `pref` for `mode`, replacing any earlier preference.
    pub fn insert(&mut self, mode: GameMode, pref: ModalityPreference)
        ensures
            final(self)@ == old(self)@.insert(mode, pref),
    {
        match mode {
            GameMode::StandardRace => self.standard_race = Some(pref),
            GameMode::Career => self.career = Some(pref),
            GameMode::ExperimentalRace => self.experimental_race = Some(pref),
            GameMode::FreeRide => self.free_ride = Some(pref),
            GameMode::SplitScreen => self.split_screen = Some(pref),
            GameMode::TimeTrial => self.time_trial = Some(pref),
        }
        assert(self@ =~= old(self)@.insert(mode, pref));
    }

    /// Records a racer count for `mode`: it updates the remembered preference,
    /// or remembers a new one with `difficulty_if_new`.
    pub fn record_racer_count(&mut self, mode: GameMode, racer_count: usize, difficulty_if_new: DriverTier)
        ensures
            final(self)@ == old(self)@.insert(
                mode,
                ModalityPreference {
                    racer_count,
                    difficulty: if old(self)@.contains_key(mode) {
                        old(self)@[mode].difficulty
                    } else {
                        difficulty_if_new
                    },
                },
            ),
    {
        let pref = match self.modality_preference(mode) {
            Some(p) => ModalityPreference { racer_count, difficulty: p.difficulty },
            None => ModalityPreference { racer_count, difficulty: difficulty_if_new },
        };
        self.insert(mode, pref);
    }

    /// Records a difficulty for `mode`: it updates the remembered preference,
    /// or remembers a new one with `racer_count_if_new`.
    pub fn record_difficulty(&mut self, mode: GameMode, difficulty: DriverTier, racer_count_if_new: usize)
        ensures
            final(self)@ == old(self)@.insert(
                mode,
                ModalityPreference {
                    racer_count: if old(self)@.contains_key(mode) {
                        old(self)@[mode].racer_count
                    } else {
                        racer_count_if_new
                    },
                    difficulty,
                },
            ),
    {
        let pref = match self.modality_preference(mode) {
            Some(p) => ModalityPreference { racer_count: p.racer_count, difficulty },
            None => ModalityPreference { racer_count: racer_count_if_new, difficulty },
        };
        self.insert(mode, pref);
    }
}

/// What a recorded preference reads back: the preference just recorded for
/// that mode, and the unchanged preference of every other mode.
pub proof fn lemma_preference_read_after_write(
    before: Map<GameMode, ModalityPreference>,
    mode: GameMode,
    pref: ModalityPreference,
    other: GameMode,
)
    ensures
        before.insert(mode, pref).contains_key(mode),
        before.insert(mode, pref)[mode] == pref,
        other != mode ==> before.insert(mode, pref).contains_key(other) == before.contains_key(other),
        other != mode && before.contains_key(other) ==> before.insert(mode, pref)[other] == before[other],
{
}

/// Largest number of AI opponents: the grid slots left after the humans, at least one.
pub open spec fn max_bots_spec(max_grid: usize, split_screen: bool) -> usize {
    let free = if max_grid >= human_count_spec(split_screen) {
        (max_grid - human_count_spec(split_screen)) as usize
    } else {
        0usize
    };
    if free >= 1 {
        free
    } else {
        1
    }
}

/// Largest number of AI opponents for a grid of `max_grid` slots.
pub fn max_bots(max_grid: usize, split_screen: bool) -> (r: usize)
    ensures
        r == max_bots_spec(max_grid, split_screen),
        r >= 1,
{
    let free = max_grid.saturating_sub(human_count(split_screen));
    if free >= 1 {
        free
    } else {
        1
    }
}

/// Number of cars in a race: one in time attack, else humans plus opponents,
/// capped by the grid slots.
pub open spec fn total_cars_spec(time_attack: bool, split_screen: bool, num_bots: usize, max_grid: usize) -> int {
    if time_attack {
        1
    } else {
        let wanted = human_count_spec(split_screen) + num_bots;
        if wanted <= max_grid {
            wanted
        } else {
            max_grid as int
        }
    }
}

/// Number of cars in a race.
pub fn total_cars(time_attack: bool, split_screen: bool, num_bots: usize, max_grid: usize) -> (r: usize)
    requires
        num_bots + 2 <= usize::MAX,
    ensures
        r == total_cars_spec(time_attack, split_screen, num_bots, max_grid),
{
    if time_attack {
        1
    } else {
        let wanted = human_count(split_screen) + num_bots;
        if wanted <= max_grid {
            wanted
        } else {
            max_grid
        }
    }
}

/// Opponents in a championship race: the championship's opponents, capped by
/// the grid slots left after the humans.
pub fn championship_bot_count(championship_opponents: usize, max_grid: usize, split_screen: bool) -> (r:
    usize)
    ensures
        r == if max_grid >= human_count_spec(split_screen) && championship_opponents <= max_grid
            - human_count_spec(split_screen) {
            championship_opponents
        } else if max_grid >= human_count_spec(split_screen) {
            (max_grid - human_count_spec(split_screen)) as usize
        } else {
            0usize
        },
{
    let free = max_grid.saturating_sub(human_count(split_screen));
    if championship_opponents <= free {
        championship_opponents
    } else {
        free
    }
}

/// `x` brought into `lo..=hi`.
pub open spec fn clamp_spec(x: int, lo: int, hi: int) -> int {
    if x < lo {
        lo
    } else if x > hi {
        hi
    } else {
        x
    }
}

/// Opponents for a wanted number of racers: the racer count brought into
/// `humans..=max_grid`, less the humans, and at least one opponent outside split screen.
pub open spec fn bots_for_racers_spec(racers: int, split_screen: bool, max_grid: usize) -> usize {
    let humans = human_count_spec(split_screen);
    let target = clamp_spec(racers, humans as int, max_grid as int);
    let min_bots: int = if split_screen {
        0
    } else {
        1
    };
    if target - humans >= min_bots {
        (target - humans) as usize
    } else {
        min_bots as usize
    }
}

/// Opponents for a wanted number of racers on a grid of `max_grid` slots.
pub fn bots_for_racers(racers: usize, split_screen: bool, max_grid: usize) -> (r: usize)
    requires
        human_count_spec(split_screen) <= max_grid,
    ensures
        r == bots_for_racers_spec(racers as int, split_screen, max_grid),
{
    let humans = human_count(split_screen);
    let target = if racers < humans {
        humans
    } else if racers > max_grid {
        max_grid
    } else {
        racers
    };
    let min_bots: usize = if split_screen {
        0
    } else {
        1
    };
    let bots = target - humans;
    if bots >= min_bots {
        bots
    } else {
        min_bots
    }
}

/// Opponent count and difficulty a casual race starts with.
#[derive(Debug, Clone, Copy, PartialEq, Eq, Structural)]
pub struct CasualRoster {
    pub num_bots: usize,
    pub difficulty: DriverTier,
}

/// Preference a casual race settles on: a remembered preference, updated by
/// any opponent count or difficulty set directly since the last race; with
/// none remembered, a full grid at Rookie difficulty unless set directly.
pub open spec fn settled_preference(
    remembered: Option<ModalityPreference>,
    split_screen: bool,
    max_grid: usize,
    explicit_bots: Option<usize>,
    explicit_difficulty: Option<DriverTier>,
) -> ModalityPreference {
    let humans = human_count_spec(split_screen);
    match remembered {
        Some(p) => ModalityPreference {
            racer_count: match explicit_bots {
                Some(b) => (humans + b) as usize,
                None => p.racer_count,
            },
            difficulty: match explicit_difficulty {
                Some(d) => d,
                None => p.difficulty,
            },
        },
        None => ModalityPreference {
            racer_count: clamp_spec(
                match explicit_bots {
                    Some(b) => humans + b,
                    None => max_grid as int,
                },
                humans as int,
                max_grid as int,
            ) as usize,
            difficulty: match explicit_difficulty {
                Some(d) => d,
                None => DriverTier::Rookie,
            },
        },
    }
}

/// Settles the opponent count and difficulty of a casual (non-career, non
/// time-attack) race from the preference remembered for `mode`, recording
/// any opponent count or difficulty changed directly since the last race
/// (`num_bots` against `prev_num_bots`, `difficulty` against `prev_difficulty`).
pub fn settle_casual_roster(
    prefs: &mut ModalityPreferences,
    mode: GameMode,
    split_screen: bool,
    max_grid: usize,
    num_bots: usize,
    prev_num_bots: usize,
    difficulty: DriverTier,
    prev_difficulty: DriverTier,
) -> (r: CasualRoster)
    requires
        human_count_spec(split_screen) <= max_grid,
        num_bots + 2 <= usize::MAX,
    ensures
        ({
            let explicit_bots = if num_bots != prev_num_bots {
                Some(num_bots)
            } else {
                None
            };
            let explicit_difficulty = if difficulty != prev_difficulty {
                Some(difficulty)
            } else {
                None
            };
            let remembered = if old(prefs)@.contains_key(mode) {
                Some(old(prefs)@[mode])
            } else {
                None
            };
            let settled = settled_preference(
                remembered,
                split_screen,
                max_grid,
                explicit_bots,
                explicit_difficulty,
            );
            &&& final(prefs)@ == old(prefs)@.insert(mode, settled)
            &&& r == (CasualRoster {
                num_bots: bots_for_racers_spec(settled.racer_count as int, split_screen, max_grid),
                difficulty: settled.difficulty,
            })
        }),
{
    let humans = human_count(split_screen);
    let explicit_bots: Option<usize> = if num_bots != prev_num_bots {
        Some(num_bots)
    } else {
        None
    };
    let explicit_difficulty: Option<DriverTier> = if difficulty != prev_difficulty {
        Some(difficulty)
    } else {
        None
    };
    let settled = match prefs.modality_preference(mode) {
        Some(p) => ModalityPreference {
            racer_count: match explicit_bots {
                Some(b) => humans + b,
                None => p.racer_count,
            },
            difficulty: match explicit_difficulty {
                Some(d) => d,
                None => p.difficulty,
            },
        },
        None => {
            let wanted = match explicit_bots {
                Some(b) => humans + b,
                None => max_grid,
            };
            let target = if wanted < humans {
                humans
            } else if wanted > max_grid {
                max_grid
            } else {
                wanted
            };
            ModalityPreference {
                racer_count: target,
                difficulty: match explicit_difficulty {
                    Some(d) => d,
                    None => DriverTier::Rookie,
                },
            }
        },
    };
    prefs.insert(mode, settled);
    CasualRoster {
        num_bots: bots_for_racers(settled.racer_count, split_screen, max_grid),
        difficulty: settled.difficulty,
    }
}

/// Opponent count settled for a casual race lies between the minimum (one
/// opponent, none in split screen) and the grid slots left after the humans.
pub proof fn lemma_settled_bots_in_range(racers: int, split_screen: bool, max_grid: usize)
    requires
        human_count_spec(split_screen) <= max_grid,
    ensures
        (if split_screen {
            0int
        } else {
            1int
        }) <= bots_for_racers_spec(racers, split_screen, max_grid),
        bots_for_racers_spec(racers, split_screen, max_grid) <= if max_grid - human_count_spec(
            split_screen,
        ) >= 1 {
            max_grid - human_count_spec(split_screen)
        } else {
            1
        },
{
}

/// Explicitly updates the saved preference for `mode`; when `mode` is the
/// active mode, also returns the opponent count and difficulty the race now uses.
pub fn update_modality_preference(
    prefs: &mut ModalityPreferences,
    mode: GameMode,
    racer_count: usize,
    difficulty: DriverTier,
    active_mode: GameMode,
    split_screen: bool,
    max_grid: usize,
) -> (r: Option<CasualRoster>)
    requires
        mode == active_mode ==> human_count_spec(split_screen) <= max_grid,
    ensures
        final(prefs)@ == old(prefs)@.insert(mode, ModalityPreference { racer_count, difficulty }),
        mode != active_mode ==> r is None,
        mode == active_mode ==> r == Some(
            CasualRoster {
                num_bots: bots_for_racers_spec(racer_count as int, split_screen, max_grid),
                difficulty,
            },
        ),
{
    prefs.insert(mode, ModalityPreference { racer_count, difficulty });
    if mode == active_mode {
        Some(CasualRoster { num_bots: bots_for_racers(racer_count, split_screen, max_grid), difficulty })
    } else {
        None
    }
}

/// Seed of the human player's grid entry.
pub fn player_seed(seed: u64) -> (r: u64)
    ensures
        r as nat == (seed as nat * crate::modules::GOLDEN_MIX as nat) % crate::modules::two_pow_64(),
{
    seed.wrapping_mul(crate::modules::GOLDEN_MIX)
}

/// Seed of the second player's grid entry in split screen.
pub fn second_player_seed(seed: u64) -> (r: u64)
    ensures
        r as nat == (seed as nat * crate::modules::SEED_MIX as nat) % crate::modules::two_pow_64(),
{
    seed.wrapping_mul(crate::modules::SEED_MIX)
}

/// Seed of opponent `bot_idx`: the race seed plus `(bot_idx + 1)` golden-ratio steps, modulo 2^64.
pub fn bot_seed(seed: u64, bot_idx: usize) -> (r: u64)
    requires
        bot_idx + 1 <= u64::MAX,
    ensures
        r as nat == (seed as nat + ((bot_idx as nat + 1) * crate::modules::GOLDEN_MIX as nat)
            % crate::modules::two_pow_64()) % crate::modules::two_pow_64(),
{
    let step: u64 = (bot_idx as u64 + 1).wrapping_mul(crate::modules::GOLDEN_MIX);
    seed.wrapping_add(step)
}

/// Race seed: the clock reading plus 101 per opponent, modulo 2^64.
pub fn race_seed(clock_nanos: u64, num_bots: usize) -> (r: u64)
    requires
        num_bots * 101 <= u64::MAX,
    ensures
        r as nat == (clock_nanos as nat + num_bots as nat * 101) % crate::modules::two_pow_64(),
{
    clock_nanos.wrapping_add(num_bots as u64 * 101)
}

/// A place of the starting grid before it is ordered: a human player (0 the
/// first, 1 the second) or the opponent with this index.
#[derive(Debug, Clone, Copy, PartialEq, Eq, Structural)]
pub enum Entrant {
    Human(usize),
    Opponent(usize),
}

/// Opponents fielded in a race of `total_cars` cars when `available`
/// opponents can be had: none in time attack or when the humans fill the
/// cars, else the cars left after the humans, as far as there are opponents.
pub open spec fn opponents_fielded(time_attack: bool, split_screen: bool, total_cars: usize, available: usize) -> int {
    let humans = human_count_spec(split_screen);
    if time_attack || total_cars <= humans {
        0
    } else if total_cars - humans <= available {
        total_cars - humans
    } else {
        available as int
    }
}

/// The grid before it is ordered: the humans first, then `opponents`
/// opponents by index.
pub open spec fn lineup_spec(split_screen: bool, opponents: int) -> Seq<Entrant> {
    let humans = human_count_spec(split_screen);
    Seq::new(
        (humans + opponents) as nat,
        |k: int|
            if k < humans {
                Entrant::Human(k as usize)
            } else {
                Entrant::Opponent((k - humans) as usize)
            },
    )
}

/// The starting grid before it is ordered: the first player (and the second
/// in split screen), then the opponents fielded, each once, by index.
pub fn grid_lineup(time_attack: bool, split_screen: bool, total_cars: usize, available: usize) -> (r: Vec<Entrant>)
    ensures
        r@ == lineup_spec(split_screen, opponents_fielded(time_attack, split_screen, total_cars, available)),
{
    let humans = human_count(split_screen);
    let opponents: usize = if time_attack || total_cars <= humans {
        0
    } else if total_cars - humans <= available {
        total_cars - humans
    } else {
        available
    };
    let ghost want = lineup_spec(split_screen, opponents as int);
    let mut r: Vec<Entrant> = Vec::new();
    let mut k: usize = 0;
    while k < humans
        invariant
            humans == human_count_spec(split_screen),
            k <= humans,
            r@ =~= want.take(k as int),
            want == lineup_spec(split_screen, opponents as int),
        decreases humans - k,
    {
        r.push(Entrant::Human(k));
        k = k + 1;
    }
    let mut b: usize = 0;
    while b < opponents
        invariant
            humans == human_count_spec(split_screen),
            b <= opponents,
            humans + opponents <= usize::MAX,
            r@ =~= want.take(humans + b),
            want == lineup_spec(split_screen, opponents as int),
        decreases opponents - b,
    {
        r.push(Entrant::Opponent(b));
        b = b + 1;
    }
    assert(r@ =~= want);
    r
}

/// The grid before it is ordered holds as many cars as the humans and the
/// opponents fielded, never more than the grid's slots (or the humans, on a
/// grid too small for them): the humans come first and are the only human
/// entries, each opponent fielded appears exactly once, and in time attack
/// there is none.
pub proof fn lemma_lineup_fills_grid(
    time_attack: bool,
    split_screen: bool,
    num_bots: usize,
    max_grid: usize,
    available: usize,
)
    requires
        num_bots + 2 <= usize::MAX,
    ensures
        ({
            let total = total_cars_spec(time_attack, split_screen, num_bots, max_grid) as usize;
            let opp = opponents_fielded(time_attack, split_screen, total, available);
            let humans = human_count_spec(split_screen);
            let l = lineup_spec(split_screen, opp);
            &&& l.len() == humans + opp
            &&& l.len() <= (if max_grid >= humans { max_grid as int } else { humans as int })
            &&& forall|k: int| 0 <= k < l.len() ==> ((#[trigger] l[k] is Human) <==> k < humans)
            &&& forall|k: int| humans <= k < l.len() ==> #[trigger] l[k] == Entrant::Opponent((k - humans) as usize)
            &&& forall|k: int| 0 <= k < l.len() ==> (#[trigger] l[k] matches Entrant::Opponent(b) ==> b < opp)
            &&& forall|k1: int, k2: int| 0 <= k1 < k2 < l.len() ==> l[k1] != l[k2]
            &&& time_attack ==> opp == 0
        }),
{
}

/// Outside time attack a race fields every human (two in split screen, one
/// otherwise) and every requested opponent when they fit on the grid, and
/// fills the grid exactly when they do not; time attack runs one car. A
/// split-screen race that fits holds one car more than the same race for
/// one player.
pub proof fn lemma_race_car_count(time_attack: bool, split_screen: bool, num_bots: usize, max_grid: usize)
    ensures
        time_attack ==> total_cars_spec(true, split_screen, num_bots, max_grid) == 1,
        (if split_screen { 2int } else { 1int }) + num_bots <= max_grid ==> total_cars_spec(
            false,
            split_screen,
            num_bots,
            max_grid,
        ) == (if split_screen { 2int } else { 1int }) + num_bots,
        (if split_screen { 2int } else { 1int }) + num_bots > max_grid ==> total_cars_spec(
            false,
            split_screen,
            num_bots,
            max_grid,
        ) == max_grid,
        2 + num_bots <= max_grid ==> total_cars_spec(false, true, num_bots, max_grid) == total_cars_spec(
            false,
            false,
            num_bots,
            max_grid,
        ) + 1,
{
}

/// A wanted number of racers that fits the grid and leaves room for the
/// opponents a race needs (one outside split screen) is met exactly: the
/// humans (two in split screen, one otherwise) and the opponents make up the
/// racers. Asking for more racers than the grid holds fills the grid, and
/// the opponent limit is the grid's free slots, at least one.
pub proof fn lemma_racers_met(racers: int, split_screen: bool, max_grid: usize)
    requires
        human_count_spec(split_screen) <= max_grid,
    ensures
        (if split_screen { 2int } else { 1int }) + (if split_screen { 0int } else { 1int }) <= racers <= max_grid
            ==> (if split_screen { 2int } else { 1int }) + bots_for_racers_spec(racers, split_screen, max_grid)
            == racers,
        racers >= max_grid && max_grid >= 2 ==> (if split_screen {
            2int
        } else {
            1int
        }) + bots_for_racers_spec(racers, split_screen, max_grid) == max_grid,
        max_bots_spec(max_grid, split_screen) == (if max_grid - (if split_screen { 2int } else { 1int }) >= 1 {
            max_grid - (if split_screen { 2int } else { 1int })
        } else {
            1
        }),
{
}

} // verus!
