//! Career rules: experience awards, circuit visits, calendars, race tiers,
//! championship unlocking and what follows a championship round.
use vstd::prelude::*;
use crate::modules::{CarChoice, ModuleId};
use crate::roster::{DriverTier, GameMode};

verus! {

/// Detailed breakdown of XP awarded after completing a race.
#[derive(Debug, Clone, Copy, PartialEq, Eq, Structural)]
pub struct XpAwardReceipt {
    pub per_lap_xp: u64,
    pub completed_laps: u32,
    pub lap_xp: u64,
    pub completion_bonus: u64,
    pub first_time_bonus: u64,
    pub total_xp: u64,
    pub new_balance: u64,
    pub is_first_time: bool,
}

impl Default for XpAwardReceipt {
    fn default() -> (r: Self)
        ensures
            r == (XpAwardReceipt {
                per_lap_xp: 0,
                completed_laps: 0,
                lap_xp: 0,
                completion_bonus: 0,
                first_time_bonus: 0,
                total_xp: 0,
                new_balance: 0,
                is_first_time: false,
            }),
    {
        XpAwardReceipt {
            per_lap_xp: 0,
            completed_laps: 0,
            lap_xp: 0,
            completion_bonus: 0,
            first_time_bonus: 0,
            total_xp: 0,
            new_balance: 0,
            is_first_time: false,
        }
    }
}

/// Total XP of a race: the lap XP, the same again as completion bonus, and
/// the first-visit bonus on a first visit.
pub open spec fn race_xp_total(per_lap_xp: u64, completed_laps: u32, is_first_time: bool, first_visit_bonus: u64) -> int {
    2 * (per_lap_xp * completed_laps) + if is_first_time {
        first_visit_bonus as int
    } else {
        0
    }
}

impl XpAwardReceipt {
    /// Receipt of the XP a finished race earns: `per_lap_xp` for each lap,
    /// the lap XP again for finishing, `first_visit_bonus` on a first visit to
    /// the circuit; the wallet grows by the total.
    pub fn for_race(
        per_lap_xp: u64,
        completed_laps: u32,
        is_first_time: bool,
        first_visit_bonus: u64,
        wallet: u64,
    ) -> (r: XpAwardReceipt)
        requires
            wallet + race_xp_total(per_lap_xp, completed_laps, is_first_time, first_visit_bonus)
                <= u64::MAX,
        ensures
            r.per_lap_xp == per_lap_xp,
            r.completed_laps == completed_laps,
            r.lap_xp == per_lap_xp * completed_laps,
            r.completion_bonus == r.lap_xp,
            r.first_time_bonus == if is_first_time {
                first_visit_bonus
            } else {
                0
            },
            r.total_xp == race_xp_total(per_lap_xp, completed_laps, is_first_time, first_visit_bonus),
            r.new_balance == wallet + r.total_xp,
            r.is_first_time == is_first_time,
    {
        assert(per_lap_xp * completed_laps <= race_xp_total(
            per_lap_xp,
            completed_laps,
            is_first_time,
            first_visit_bonus,
        )) by (nonlinear_arith)
            requires
                race_xp_total(per_lap_xp, completed_laps, is_first_time, first_visit_bonus) == 2 * (
                per_lap_xp * completed_laps) + if is_first_time {
                    first_visit_bonus as int
                } else {
                    0
                },
                per_lap_xp * completed_laps >= 0,
        ;
        let lap_xp: u64 = per_lap_xp * (completed_laps as u64);
        let completion_bonus: u64 = lap_xp;
        let first_time_bonus: u64 = if is_first_time {
            first_visit_bonus
        } else {
            0
        };
        let total_xp: u64 = lap_xp + completion_bonus + first_time_bonus;
        XpAwardReceipt {
            per_lap_xp,
            completed_laps,
            lap_xp,
            completion_bonus,
            first_time_bonus,
            total_xp,
            new_balance: wallet + total_xp,
            is_first_time,
        }
    }
}

/// The parts of a receipt add up: the total is the lap XP, the completion
/// bonus and the first-visit bonus, and the wallet grew by exactly the total.
pub proof fn lemma_receipt_adds_up(
    per_lap_xp: u64,
    completed_laps: u32,
    is_first_time: bool,
    first_visit_bonus: u64,
    wallet: u64,
    r: XpAwardReceipt,
)
    requires
        r.lap_xp == per_lap_xp * completed_laps,
        r.completion_bonus == r.lap_xp,
        r.first_time_bonus == if is_first_time {
            first_visit_bonus
        } else {
            0
        },
        r.total_xp == race_xp_total(per_lap_xp, completed_laps, is_first_time, first_visit_bonus),
        r.new_balance == wallet + r.total_xp,
    ensures
        r.total_xp == r.lap_xp + r.completion_bonus + r.first_time_bonus,
        r.new_balance - wallet == r.total_xp,
        !is_first_time ==> r.total_xp == 2 * r.lap_xp,
{
}

/// Whether a finished race earns career XP: in the GT module or in Career mode.
pub fn earns_career_xp(active: ModuleId, mode: GameMode) -> (r: bool)
    ensures
        r == (active is Gt || mode is Career),
{
    active == ModuleId::Gt || mode == GameMode::Career
}

/// Records a visit to a circuit; returns whether it was the first one (the
/// circuit is then added to the visited list).
pub fn visit_circuit(visited: &mut Vec<String>, track_id: &String) -> (first_time: bool)
    ensures
        first_time == !old(visited)@.map_values(|t: String| t@).contains(track_id@),
        first_time ==> final(visited)@ == old(visited)@.push(*track_id),
        !first_time ==> final(visited)@ == old(visited)@,
{
    let ghost views = visited@.map_values(|t: String| t@);
    let mut k: usize = 0;
    while k < visited.len()
        invariant
            k <= visited.len(),
            views == visited@.map_values(|t: String| t@),
            forall|m: int| 0 <= m < k ==> visited@[m]@ != track_id@,
        decreases visited.len() - k,
    {
        if visited[k] == *track_id {
            assert(views[k as int] == track_id@);
            return false;
        }
        k = k + 1;
    }
    assert forall|m: int| 0 <= m < views.len() implies views[m] != track_id@ by {
        assert(views[m] == visited@[m]@);
    }
    visited.push(track_id.clone());
    true
}

/// Whether the texts of `list` include `item`.
pub open spec fn lists_text(list: Seq<String>, item: Seq<char>) -> bool {
    exists|k: int| 0 <= k < list.len() && list[k]@ == item
}

fn holds_text(list: &Vec<String>, item: &String) -> (r: bool)
    ensures
        r == lists_text(list@, item@),
{
    let mut k: usize = 0;
    while k < list.len()
        invariant
            k <= list.len(),
            forall|m: int| 0 <= m < k ==> list@[m]@ != item@,
        decreases list.len() - k,
    {
        if list[k] == *item {
            return true;
        }
        k = k + 1;
    }
    false
}

/// Whether a custom calendar may replace the default one: it has as many
/// rounds, and it holds every mandatory circuit.
pub open spec fn calendar_acceptable(custom: Seq<String>, default_len: nat, mandatory: Seq<String>) -> bool {
    custom.len() == default_len && forall|m: int| 0 <= m < mandatory.len() ==> lists_text(custom, #[trigger] mandatory[m]@)
}

/// Calendar of a GT career cup: the custom calendar when it is acceptable,
/// else the default one.
pub fn choose_calendar(custom: Option<Vec<String>>, default_tracks: Vec<String>, mandatory: &Vec<String>) -> (r:
    Vec<String>)
    ensures
        r@ == match custom {
            Some(c) => if calendar_acceptable(c@, default_tracks@.len(), mandatory@) {
                c@
            } else {
                default_tracks@
            },
            None => default_tracks@,
        },
{
    match custom {
        Some(c) => {
            if c.len() != default_tracks.len() {
                return default_tracks;
            }
            let mut k: usize = 0;
            while k < mandatory.len()
                invariant
                    custom == Some(c),
                    c.len() == default_tracks.len(),
                    k <= mandatory.len(),
                    forall|m: int| 0 <= m < k ==> lists_text(c@, #[trigger] mandatory@[m]@),
                decreases mandatory.len() - k,
            {
                if !holds_text(&c, &mandatory[k]) {
                    assert(!lists_text(c@, mandatory@[k as int]@));
                    assert(!calendar_acceptable(c@, default_tracks@.len(), mandatory@));
                    return default_tracks;
                }
                k = k + 1;
            }
            c
        },
        None => default_tracks,
    }
}

/// Whether the saved championship of a module is resumed when starting a
/// career cup of `tier`: it must be unfinished and of the same tier.
pub fn resumes_saved_championship(saved: Option<(bool, u32)>, tier: u32) -> (r: bool)
    ensures
        r == match saved {
            Some((completed, saved_tier)) => !completed && saved_tier == tier,
            None => false,
        },
{
    match saved {
        Some((completed, saved_tier)) => !completed && saved_tier == tier,
        None => false,
    }
}

/// `t` brought into 1..=5.
pub open spec fn tier_range(t: u8) -> u8 {
    if t < 1 {
        1
    } else if t > 5 {
        5
    } else {
        t
    }
}

fn clamp_tier(t: u8) -> (r: u8)
    ensures
        r == tier_range(t),
{
    if t < 1 {
        1
    } else if t > 5 {
        5
    } else {
        t
    }
}

/// What fixes the category tier a race requires.
#[derive(Debug, Clone, Copy, PartialEq, Eq, Structural)]
pub struct TierContext {
    /// Whether the Classic module is active (it accepts every tier).
    pub classic_module: bool,
    /// Tier of the running championship, if any.
    pub championship_tier: Option<u32>,
    /// Whether the session is in Career mode.
    pub career_mode: bool,
    /// Level of the active career.
    pub career_level: u32,
    /// Whether the player chose the car freely.
    pub free_car_selection: bool,
    /// Tier of the player's car.
    pub player_car_tier: u8,
    /// Tier of the track's predefined car.
    pub predefined_car_tier: u8,
}

/// Category tier the current race requires: 5 in Classic, else the
/// championship's tier, else the career level, each taken modulo 256 and
/// brought into 1..=5; else the tier of the player's car (free choice) or of
/// the track's predefined car.
pub open spec fn required_tier_spec(c: TierContext) -> u8 {
    if c.classic_module {
        5
    } else if c.championship_tier is Some {
        tier_range((c.championship_tier->0 % 256) as u8)
    } else if c.career_mode {
        tier_range((c.career_level % 256) as u8)
    } else if c.free_car_selection {
        c.player_car_tier
    } else {
        c.predefined_car_tier
    }
}

/// Category tier the current race requires.
pub fn current_race_required_tier(c: &TierContext) -> (r: u8)
    ensures
        r == required_tier_spec(*c),
{
    if c.classic_module {
        5
    } else if let Some(t) = c.championship_tier {
        let low: u8 = (t % 256) as u8;
        clamp_tier(low)
    } else if c.career_mode {
        let low: u8 = (c.career_level % 256) as u8;
        clamp_tier(low)
    } else if c.free_car_selection {
        c.player_car_tier
    } else {
        c.predefined_car_tier
    }
}

/// Whether a championship series is open to the profile: always in developer
/// mode or for tier 1 and below; otherwise the career level of the series'
/// module must reach the series tier (`same_module_level` when the series
/// belongs to the active module or career, else the stored level of its
/// module, if any).
pub fn is_championship_unlocked(
    dev_mode: bool,
    series_tier: u32,
    same_module_level: Option<u32>,
    stored_module_level: Option<u32>,
) -> (r: bool)
    ensures
        r == if dev_mode || series_tier <= 1 {
            true
        } else if same_module_level is Some {
            same_module_level->0 >= series_tier
        } else if stored_module_level is Some {
            stored_module_level->0 >= series_tier
        } else {
            false
        },
{
    if dev_mode || series_tier <= 1 {
        return true;
    }
    if let Some(level) = same_module_level {
        return level >= series_tier;
    }
    if let Some(level) = stored_module_level {
        return level >= series_tier;
    }
    false
}

/// Whether a track is open: always in developer mode, and outside the GT
/// module; in GT, when the career has unlocked it.
pub fn is_track_unlocked(dev_mode: bool, active: ModuleId, career_unlocked: bool) -> (r: bool)
    ensures
        r == (dev_mode || active != ModuleId::Gt || career_unlocked),
{
    if dev_mode {
        return true;
    }
    if active == ModuleId::Gt {
        career_unlocked
    } else {
        true
    }
}

/// What follows a championship round.
#[derive(Debug, Clone, Copy, PartialEq, Eq, Structural)]
pub enum RoundAdvance {
    /// Load the next round's circuit and start it.
    NextRound,
    /// Go to the career hub at this tier.
    CareerHub(u32),
    /// Go to the menu, ending the championship if one was running.
    Menu { end_championship: bool },
}

/// What follows a championship round: the next round when there is one;
/// otherwise the career hub in a GT career, else the menu.
pub fn advance_championship_round(
    has_championship: bool,
    next_round_exists: bool,
    mode: GameMode,
    active: ModuleId,
    career_level: u32,
) -> (r: RoundAdvance)
    ensures
        has_championship && next_round_exists ==> r == RoundAdvance::NextRound,
        !(has_championship && next_round_exists) && mode is Career && active.is_gt_spec() ==> r
            == RoundAdvance::CareerHub(crate::screens::hub_tier_spec(career_level)),
        !(has_championship && next_round_exists) && !(mode is Career && active.is_gt_spec()) ==> r
            == (RoundAdvance::Menu { end_championship: has_championship }),
{
    if has_championship && next_round_exists {
        return RoundAdvance::NextRound;
    }
    if mode == GameMode::Career && active.is_gt() {
        RoundAdvance::CareerHub(crate::screens::hub_tier(career_level))
    } else {
        RoundAdvance::Menu { end_championship: has_championship }
    }
}

/// Laps of the coming race: in a championship the round's own lap count, else
/// the championship's laps per round when set, else the track's default.
pub fn race_laps(championship: Option<(Option<u32>, u32)>, track_default_laps: u32) -> (r: u32)
    ensures
        r == match championship {
            Some((round_laps, per_round)) => match round_laps {
                Some(l) => l,
                None => if per_round > 0 {
                    per_round
                } else {
                    track_default_laps
                },
            },
            None => track_default_laps,
        },
{
    match championship {
        Some((round_laps, per_round)) => match round_laps {
            Some(l) => l,
            None => if per_round > 0 {
                per_round
            } else {
                track_default_laps
            },
        },
        None => track_default_laps,
    }
}

/// What fixes the tier of the opponents' cars on the grid.
#[derive(Debug, Clone, Copy, PartialEq, Eq, Structural)]
pub struct GridTierContext {
    /// Whether the track belongs to the Classic module.
    pub classic_track: bool,
    /// Tier of the running championship, if any.
    pub championship_tier: Option<u32>,
    /// Tier of the player's catalog model, if one was resolved.
    pub player_model_tier: Option<u8>,
    /// Whether the session is in Career mode.
    pub career_mode: bool,
    /// Level of the active career.
    pub career_level: u32,
    /// Tier of the player's active car.
    pub player_car_tier: u8,
}

/// Tier of the grid: 1 on a Classic track; else the championship's tier, the
/// player model's, the career level's, or the player car's, in that order,
/// each taken modulo 256 where it is wider and brought into 1..=5.
pub open spec fn grid_tier_spec(c: GridTierContext) -> u8 {
    if c.classic_track {
        1
    } else if c.championship_tier is Some {
        tier_range((c.championship_tier->0 % 256) as u8)
    } else if c.player_model_tier is Some {
        tier_range(c.player_model_tier->0)
    } else if c.career_mode {
        tier_range((c.career_level % 256) as u8)
    } else {
        tier_range(c.player_car_tier)
    }
}

/// Tier of the grid the opponents are drawn for.
pub fn grid_tier(c: &GridTierContext) -> (r: u8)
    ensures
        r == grid_tier_spec(*c),
        1 <= r <= 5,
{
    if c.classic_track {
        1
    } else if let Some(t) = c.championship_tier {
        let low: u8 = (t % 256) as u8;
        clamp_tier(low)
    } else if let Some(t) = c.player_model_tier {
        clamp_tier(t)
    } else if c.career_mode {
        let low: u8 = (c.career_level % 256) as u8;
        clamp_tier(low)
    } else {
        clamp_tier(c.player_car_tier)
    }
}

/// Where an opponent's skill tier comes from.
#[derive(Debug, Clone, Copy, PartialEq, Eq, Structural)]
pub enum BotTierSource {
    /// A championship: the tier its standings give the driver, if any.
    Championship(Option<DriverTier>),
    /// A career: the tier of the driver's career rival, if any.
    Career(Option<DriverTier>),
    /// A casual race: the tier drawn for this grid slot, if any.
    Casual(Option<DriverTier>),
}

/// Skill tier of an opponent: the tier its source gives, else `grid_tier`
/// (the tier of the grid) in championships and careers, else the casual
/// difficulty in casual races.
pub fn resolve_bot_tier(source: BotTierSource, grid_tier: DriverTier, casual_difficulty: DriverTier) -> (r:
    DriverTier)
    ensures
        r == match source {
            BotTierSource::Championship(t) => match t {
                Some(x) => x,
                None => grid_tier,
            },
            BotTierSource::Career(t) => match t {
                Some(x) => x,
                None => grid_tier,
            },
            BotTierSource::Casual(t) => match t {
                Some(x) => x,
                None => casual_difficulty,
            },
        },
{
    match source {
        BotTierSource::Championship(t) => match t {
            Some(x) => x,
            None => grid_tier,
        },
        BotTierSource::Career(t) => match t {
            Some(x) => x,
            None => grid_tier,
        },
        BotTierSource::Casual(t) => match t {
            Some(x) => x,
            None => casual_difficulty,
        },
    }
}

/// Catalog model an opponent drives, as an index into the category's models:
/// its favourite model when the category has it, else the models in turn by
/// opponent index.
pub fn bot_model_index(favorite: Option<usize>, bot_idx: usize, model_count: usize) -> (r: usize)
    requires
        model_count > 0,
        favorite matches Some(f) ==> f < model_count,
    ensures
        r == match favorite {
            Some(f) => f,
            None => bot_idx % model_count,
        },
        r < model_count,
{
    match favorite {
        Some(f) => f,
        None => bot_idx % model_count,
    }
}

/// Where an opponent's car comes from when the module offers no catalog model.
#[derive(Debug, Clone, Copy, PartialEq, Eq, Structural)]
pub enum FallbackCar {
    /// The player's own car.
    PlayersCar,
    /// The track's predefined car.
    Predefined,
    /// The car the driver prefers.
    Preferred,
    /// A car drawn from the opponent pool.
    Drawn,
}

/// Rule for an opponent's car without catalog models: experimental races
/// field the player's car, careers and championships the track's predefined
/// car; other races the driver's preferred car under free car selection, a
/// drawn car under random assignment, and the predefined car otherwise.
pub open spec fn fallback_car_rule_spec(
    mode: GameMode,
    in_championship: bool,
    free_car_selection: bool,
    random_assignment: bool,
) -> FallbackCar {
    match mode {
        GameMode::ExperimentalRace => FallbackCar::PlayersCar,
        GameMode::Career => FallbackCar::Predefined,
        _ => if in_championship {
            FallbackCar::Predefined
        } else if free_car_selection {
            FallbackCar::Preferred
        } else if random_assignment {
            FallbackCar::Drawn
        } else {
            FallbackCar::Predefined
        },
    }
}

/// The rule by which an opponent's car is chosen when no catalog model is on offer.
pub fn fallback_car_rule(
    mode: GameMode,
    in_championship: bool,
    free_car_selection: bool,
    random_assignment: bool,
) -> (r: FallbackCar)
    ensures
        r == fallback_car_rule_spec(mode, in_championship, free_car_selection, random_assignment),
{
    match mode {
        GameMode::ExperimentalRace => FallbackCar::PlayersCar,
        GameMode::Career => FallbackCar::Predefined,
        _ => {
            if in_championship {
                FallbackCar::Predefined
            } else if free_car_selection {
                FallbackCar::Preferred
            } else if random_assignment {
                FallbackCar::Drawn
            } else {
                FallbackCar::Predefined
            }
        },
    }
}

/// Car of opponent `bot_idx` under `rule`: the player's car, the track's
/// predefined car, the driver's preferred car, or the car drawn from `pool`
/// with the opponent's seed.
pub fn fallback_bot_car(
    rule: FallbackCar,
    player_car: CarChoice,
    predefined: CarChoice,
    preferred: CarChoice,
    pool: &Vec<CarChoice>,
    bot_idx: usize,
    bot_seed: u64,
) -> (r: CarChoice)
    ensures
        r == match rule {
            FallbackCar::PlayersCar => player_car,
            FallbackCar::Predefined => predefined,
            FallbackCar::Preferred => preferred,
            FallbackCar::Drawn => crate::modules::drawn_opponent_car(pool@, bot_idx, bot_seed, predefined),
        },
{
    match rule {
        FallbackCar::PlayersCar => player_car,
        FallbackCar::Predefined => predefined,
        FallbackCar::Preferred => preferred,
        FallbackCar::Drawn => crate::modules::sample_opponent_car(pool, bot_idx, bot_seed, predefined),
    }
}

/// Colour scheme of the second player's car, as an index among the preset
/// schemes: scheme 0 when the first player drives scheme 1, scheme 1 otherwise,
/// so the two players never share a preset livery.
pub fn second_player_scheme(first_player_scheme: usize) -> (r: usize)
    ensures
        r == (if first_player_scheme == 1 { 0usize } else { 1usize }),
        r != first_player_scheme,
{
    if first_player_scheme == 1 {
        0
    } else {
        1
    }
}

/// Number of preset colour schemes.
pub const PRESET_SCHEMES: usize = 9;

/// Look of a championship contender the module does not know: its colour
/// scheme index `(idx + 1) mod 9`, and, when its standings entry names no
/// driving style, the style at `idx` among `style_count` styles in turn.
pub fn unknown_contender_look(idx: usize, style_count: usize) -> (r: (usize, usize))
    requires
        style_count > 0,
    ensures
        r.0 == (idx as int + 1) % (PRESET_SCHEMES as int),
        r.1 == idx % style_count,
        r.0 < PRESET_SCHEMES,
        r.1 < style_count,
{
    let scheme: usize = if idx < usize::MAX {
        (idx + 1) % PRESET_SCHEMES
    } else {
        ((idx % PRESET_SCHEMES) + 1) % PRESET_SCHEMES
    };
    proof {
        if idx == usize::MAX {
            assert(((idx % 9) + 1) % 9 == (idx as int + 1) % 9) by (nonlinear_arith);
        }
    }
    (scheme, idx % style_count)
}

/// Where the setup of a car on the grid comes from.
#[derive(Debug, Clone, Copy, PartialEq, Eq, Structural)]
pub enum CarSetupSource {
    /// The racing module's own version of the car.
    ModuleCar(CarChoice),
    /// The classic module's version of the car.
    ClassicCar(CarChoice),
    /// The tunable setup held in the game configuration.
    Configured(CarChoice),
    /// The car's built-in setup.
    BuiltIn(CarChoice),
}

/// Whether the classic module has its own version of `car`.
pub open spec fn has_classic_version(car: CarChoice) -> bool {
    car is SportsCar || car is StockCar || car is SandRail || car is Kart || car is RallyCar
}

/// Setup source of the player's car: the GT family always comes from its
/// module; rally cars, karts, stock cars and sand rails from the classic
/// module when it is active and from their own module otherwise; the drift car
/// from the configuration; the sports car from the classic module when it is
/// active and from the configuration otherwise.
pub open spec fn player_setup_spec(car: CarChoice, classic_active: bool) -> CarSetupSource {
    match car {
        CarChoice::DriftCar => CarSetupSource::Configured(car),
        CarChoice::SportsCar => if classic_active {
            CarSetupSource::ClassicCar(car)
        } else {
            CarSetupSource::Configured(car)
        },
        CarChoice::RallyCar | CarChoice::Kart | CarChoice::StockCar | CarChoice::SandRail => if classic_active {
            CarSetupSource::ClassicCar(car)
        } else {
            CarSetupSource::ModuleCar(car)
        },
        _ => CarSetupSource::ModuleCar(car),
    }
}

/// Setup source of the player's car.
pub fn player_car_setup(car: CarChoice, classic_active: bool) -> (r: CarSetupSource)
    ensures
        r == player_setup_spec(car, classic_active),
{
    match car {
        CarChoice::DriftCar => CarSetupSource::Configured(car),
        CarChoice::SportsCar => if classic_active {
            CarSetupSource::ClassicCar(car)
        } else {
            CarSetupSource::Configured(car)
        },
        CarChoice::RallyCar | CarChoice::Kart | CarChoice::StockCar | CarChoice::SandRail => if classic_active {
            CarSetupSource::ClassicCar(car)
        } else {
            CarSetupSource::ModuleCar(car)
        },
        _ => CarSetupSource::ModuleCar(car),
    }
}

/// Setup source of an opponent's car that has no catalog model: the classic
/// module's version when the classic module is active and has one, else the
/// configuration for the sports and drift cars, else the car's built-in setup.
pub fn bot_car_setup(car: CarChoice, classic_active: bool) -> (r: CarSetupSource)
    ensures
        classic_active && has_classic_version(car) ==> r == CarSetupSource::ClassicCar(car),
        !(classic_active && has_classic_version(car)) && (car is SportsCar || car is DriftCar) ==> r
            == CarSetupSource::Configured(car),
        !(classic_active && has_classic_version(car)) && !(car is SportsCar || car is DriftCar) ==> r
            == CarSetupSource::BuiltIn(car),
{
    let classic_version = match car {
        CarChoice::SportsCar | CarChoice::StockCar | CarChoice::SandRail | CarChoice::Kart | CarChoice::RallyCar => true,
        _ => false,
    };
    if classic_active && classic_version {
        CarSetupSource::ClassicCar(car)
    } else {
        match car {
            CarChoice::SportsCar | CarChoice::DriftCar => CarSetupSource::Configured(car),
            _ => CarSetupSource::BuiltIn(car),
        }
    }
}

/// `t` brought into the tiers 1 to 5.
pub open spec fn into_tiers(t: int) -> int {
    if t < 1 {
        1
    } else if t > 5 {
        5
    } else {
        t
    }
}

/// The grid's tier follows, in order: 1 on a Classic track; the
/// championship's tier; the tier of the player's catalog model; in a career,
/// the career level; else the tier of the player's car; each brought into
/// 1 to 5 (the championship tier and career level as their low byte). So a
/// resolved model decides over the career level, and the result is always a
/// tier from 1 to 5.
pub proof fn lemma_grid_tier_precedence(c: GridTierContext, level: u32)
    ensures
        1 <= grid_tier_spec(c) <= 5,
        c.classic_track ==> grid_tier_spec(c) == 1,
        !c.classic_track && c.championship_tier is Some ==> grid_tier_spec(c) == into_tiers(
            c.championship_tier->0 as int % 256,
        ),
        !c.classic_track && c.championship_tier is None && c.player_model_tier is Some ==> grid_tier_spec(c)
            == into_tiers(c.player_model_tier->0 as int),
        !c.classic_track && c.championship_tier is None && c.player_model_tier is None && c.career_mode
            ==> grid_tier_spec(c) == into_tiers(c.career_level as int % 256),
        !c.classic_track && c.championship_tier is None && c.player_model_tier is None && !c.career_mode
            ==> grid_tier_spec(c) == into_tiers(c.player_car_tier as int),
        c.player_model_tier is Some ==> grid_tier_spec(GridTierContext { career_level: level, ..c })
            == grid_tier_spec(c),
{
}

/// A race's required tier follows, in order: 5 in the Classic module; the
/// championship's tier; in a career, the career level (each as its low byte,
/// brought into 1 to 5); else the tier of the car the player chose freely or
/// of the track's predefined car. A championship's tier decides over the
/// career level.
pub proof fn lemma_required_tier_precedence(c: TierContext, level: u32)
    ensures
        c.classic_module ==> required_tier_spec(c) == 5,
        !c.classic_module && c.championship_tier is Some ==> required_tier_spec(c) == into_tiers(
            c.championship_tier->0 as int % 256,
        ),
        !c.classic_module && c.championship_tier is None && c.career_mode ==> required_tier_spec(c)
            == into_tiers(c.career_level as int % 256),
        !c.classic_module && c.championship_tier is None && !c.career_mode && c.free_car_selection
            ==> required_tier_spec(c) == c.player_car_tier,
        !c.classic_module && c.championship_tier is None && !c.career_mode && !c.free_car_selection
            ==> required_tier_spec(c) == c.predefined_car_tier,
        c.championship_tier is Some ==> required_tier_spec(TierContext { career_level: level, ..c })
            == required_tier_spec(c),
{
}

} // verus!
