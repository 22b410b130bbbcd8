//! Motorsport modules (disciplines), their identifiers, defaults and car pools.
use vstd::prelude::*;
use crate::roster::GameMode;

verus! {

/// Vehicle archetype a driver races with.
#[derive(Debug, Clone, Copy, PartialEq, Eq, Structural)]
pub enum CarChoice {
    SportsCar,
    DriftCar,
    Kart,
    RallyCar,
    StockCar,
    SandRail,
    GT4Clubsport,
    GT3Car,
    GT2Biturbo,
    GT1Legend,
    HypercarPrototype,
}

/// Motorsport discipline of the session, read from its identifier.
#[derive(Debug, Clone, Copy, PartialEq, Eq, Structural)]
pub enum ModuleId {
    Classic,
    Gt,
    GtChallenge,
    Nascar,
    Rally,
    Kart,
    ExtremeOffroad,
    /// Any identifier that names none of the above (such as that of a custom track).
    Other,
}

/// Module named by an identifier.
pub open spec fn module_of_id(id: Seq<char>) -> ModuleId {
    if id == "classic"@ {
        ModuleId::Classic
    } else if id == "gt"@ {
        ModuleId::Gt
    } else if id == "gt_challenge"@ {
        ModuleId::GtChallenge
    } else if id == "nascar"@ {
        ModuleId::Nascar
    } else if id == "rally"@ {
        ModuleId::Rally
    } else if id == "kart"@ {
        ModuleId::Kart
    } else if id == "extreme_offroad"@ {
        ModuleId::ExtremeOffroad
    } else {
        ModuleId::Other
    }
}

/// Whether two string slices hold the same characters.
pub fn same_text(a: &str, b: &str) -> (r: bool)
    ensures
        r == (a@ == b@),
{
    let x: String = a.to_owned();
    let y: String = b.to_owned();
    x == y
}

impl ModuleId {
    /// Module named by `id` (`Other` for an identifier of no known module).
    pub fn from_id(id: &str) -> (r: ModuleId)
        ensures
            r == module_of_id(id@),
    {
        if same_text(id, "classic") {
            ModuleId::Classic
        } else if same_text(id, "gt") {
            ModuleId::Gt
        } else if same_text(id, "gt_challenge") {
            ModuleId::GtChallenge
        } else if same_text(id, "nascar") {
            ModuleId::Nascar
        } else if same_text(id, "rally") {
            ModuleId::Rally
        } else if same_text(id, "kart") {
            ModuleId::Kart
        } else if same_text(id, "extreme_offroad") {
            ModuleId::ExtremeOffroad
        } else {
            ModuleId::Other
        }
    }

    /// Whether this is the GT World Challenge discipline (under either of its identifiers).
    pub open spec fn is_gt_spec(self) -> bool {
        self is Gt || self is GtChallenge
    }

    /// Whether this is the GT World Challenge discipline (under either of its identifiers).
    pub fn is_gt(self) -> (r: bool)
        ensures
            r == self.is_gt_spec(),
    {
        match self {
            ModuleId::Gt | ModuleId::GtChallenge => true,
            _ => false,
        }
    }
}

/// Module that `switch_to_module` activates for an identifier: the GT and
/// off-road aliases are accepted, anything unknown falls back to Classic.
pub open spec fn switch_target_spec(id: Seq<char>) -> ModuleId {
    if id == "nascar"@ {
        ModuleId::Nascar
    } else if id == "gt"@ || id == "gt_challenge"@ {
        ModuleId::Gt
    } else if id == "rally"@ {
        ModuleId::Rally
    } else if id == "kart"@ {
        ModuleId::Kart
    } else if id == "extreme_offroad"@ || id == "offroad"@ {
        ModuleId::ExtremeOffroad
    } else {
        ModuleId::Classic
    }
}

/// Module activated when switching to the module named `id`.
pub fn switch_target(id: &str) -> (r: ModuleId)
    ensures
        r == switch_target_spec(id@),
{
    if same_text(id, "nascar") {
        ModuleId::Nascar
    } else if same_text(id, "gt") || same_text(id, "gt_challenge") {
        ModuleId::Gt
    } else if same_text(id, "rally") {
        ModuleId::Rally
    } else if same_text(id, "kart") {
        ModuleId::Kart
    } else if same_text(id, "extreme_offroad") || same_text(id, "offroad") {
        ModuleId::ExtremeOffroad
    } else {
        ModuleId::Classic
    }
}

/// Module activated by the entry `idx` of the module selection screen.
pub open spec fn module_for_select_index_spec(idx: usize) -> ModuleId {
    if idx == 2 {
        ModuleId::Rally
    } else if idx == 3 {
        ModuleId::Kart
    } else if idx == 4 {
        ModuleId::Gt
    } else if idx == 5 {
        ModuleId::Nascar
    } else if idx == 6 {
        ModuleId::ExtremeOffroad
    } else {
        ModuleId::Classic
    }
}

/// Module activated by the entry `idx` of the module selection screen
/// (entry 1 and any entry outside 2..=6 give Classic).
pub fn module_for_select_index(idx: usize) -> (r: ModuleId)
    ensures
        r == module_for_select_index_spec(idx),
{
    match idx {
        2 => ModuleId::Rally,
        3 => ModuleId::Kart,
        4 => ModuleId::Gt,
        5 => ModuleId::Nascar,
        6 => ModuleId::ExtremeOffroad,
        _ => ModuleId::Classic,
    }
}

/// Whether stunt scoring is on: a manual override wins, otherwise only the
/// Classic Arcade module scores stunts.
pub fn is_stunt_scoring_enabled(manual_override: Option<bool>, active: ModuleId) -> (r: bool)
    ensures
        r == match manual_override {
            Some(m) => m,
            None => active == ModuleId::Classic,
        },
{
    match manual_override {
        Some(m) => m,
        None => active == ModuleId::Classic,
    }
}

/// Lap count a module switches to when the module's configuration keeps the
/// general default lap count.
pub open spec fn module_default_laps_spec(target: ModuleId) -> u32 {
    match target {
        ModuleId::Gt | ModuleId::GtChallenge => 5,
        ModuleId::Kart => 4,
        _ => 3,
    }
}

/// Lap count after switching to `target`: the module's own default when its
/// configured lap count equals the general one, else the configured count.
pub fn laps_after_switch(target: ModuleId, configured_laps: u32, base_laps: u32) -> (r: u32)
    ensures
        configured_laps == base_laps ==> r == module_default_laps_spec(target),
        configured_laps != base_laps ==> r == configured_laps,
{
    if configured_laps == base_laps {
        match target {
            ModuleId::Gt | ModuleId::GtChallenge => 5,
            ModuleId::Kart => 4,
            _ => 3,
        }
    } else {
        configured_laps
    }
}

/// Catalog model preselected when switching to `target` (none for Classic).
pub fn module_default_model(target: ModuleId) -> (r: Option<&'static str>)
    ensures
        target is Nascar ==> r is Some && r->0@ == "nascar_monte_carlo_ss"@,
        target is ExtremeOffroad ==> r is Some && r->0@ == "offroad_sand_rail_buggy"@,
        (target is Gt || target is GtChallenge) ==> r is Some && r->0@ == "gt_toyota_supra_gt4"@,
        target is Rally ==> r is Some && r->0@ == "rally_peugeot_208_rally4"@,
        target is Kart ==> r is Some && r->0@ == "kart_crg_hero_60"@,
        (target is Classic || target is Other) ==> r is None,
{
    match target {
        ModuleId::Nascar => Some("nascar_monte_carlo_ss"),
        ModuleId::ExtremeOffroad => Some("offroad_sand_rail_buggy"),
        ModuleId::Gt | ModuleId::GtChallenge => Some("gt_toyota_supra_gt4"),
        ModuleId::Rally => Some("rally_peugeot_208_rally4"),
        ModuleId::Kart => Some("kart_crg_hero_60"),
        _ => None,
    }
}

/// Car a module switch selects for the player; `None` for GT, whose car is
/// the track's predefined one.
pub fn module_switch_car(target: ModuleId) -> (r: Option<CarChoice>)
    ensures
        target is Nascar ==> r == Some(CarChoice::StockCar),
        target is ExtremeOffroad ==> r == Some(CarChoice::SandRail),
        target is Rally ==> r == Some(CarChoice::RallyCar),
        target is Kart ==> r == Some(CarChoice::Kart),
        (target is Classic || target is Other) ==> r == Some(CarChoice::SportsCar),
        (target is Gt || target is GtChallenge) ==> r is None,
{
    match target {
        ModuleId::Nascar => Some(CarChoice::StockCar),
        ModuleId::ExtremeOffroad => Some(CarChoice::SandRail),
        ModuleId::Rally => Some(CarChoice::RallyCar),
        ModuleId::Kart => Some(CarChoice::Kart),
        ModuleId::Gt | ModuleId::GtChallenge => None,
        _ => Some(CarChoice::SportsCar),
    }
}

/// The five GT cars, from the entry tier up.
pub open spec fn gt_ladder() -> Seq<CarChoice> {
    seq![
        CarChoice::GT4Clubsport,
        CarChoice::GT3Car,
        CarChoice::GT2Biturbo,
        CarChoice::GT1Legend,
        CarChoice::HypercarPrototype,
    ]
}

/// Car choices a module offers, before any filtering by race tier.
pub open spec fn module_car_choices_spec(active: ModuleId) -> Seq<CarChoice> {
    match active {
        ModuleId::Gt | ModuleId::GtChallenge => gt_ladder(),
        ModuleId::Nascar => seq![CarChoice::StockCar],
        ModuleId::ExtremeOffroad => seq![CarChoice::SandRail],
        ModuleId::Rally => seq![CarChoice::RallyCar],
        ModuleId::Kart => seq![CarChoice::Kart],
        ModuleId::Classic => seq![
            CarChoice::SportsCar,
            CarChoice::StockCar,
            CarChoice::RallyCar,
            CarChoice::Kart,
            CarChoice::SandRail,
        ],
        ModuleId::Other => seq![
            CarChoice::SportsCar,
            CarChoice::DriftCar,
            CarChoice::Kart,
            CarChoice::RallyCar,
        ],
    }
}

fn gt_ladder_vec() -> (v: Vec<CarChoice>)
    ensures
        v@ == gt_ladder(),
{
    let mut v: Vec<CarChoice> = Vec::new();
    v.push(CarChoice::GT4Clubsport);
    v.push(CarChoice::GT3Car);
    v.push(CarChoice::GT2Biturbo);
    v.push(CarChoice::GT1Legend);
    v.push(CarChoice::HypercarPrototype);
    v
}

/// Car choices the active module offers, before any filtering by race tier
/// (`race_car_choices` applies it).
pub fn module_car_choices(active: ModuleId) -> (v: Vec<CarChoice>)
    ensures
        v@ == module_car_choices_spec(active),
{
    match active {
        ModuleId::Gt | ModuleId::GtChallenge => gt_ladder_vec(),
        ModuleId::Nascar => vec![CarChoice::StockCar],
        ModuleId::ExtremeOffroad => vec![CarChoice::SandRail],
        ModuleId::Rally => vec![CarChoice::RallyCar],
        ModuleId::Kart => vec![CarChoice::Kart],
        ModuleId::Classic => vec![
            CarChoice::SportsCar,
            CarChoice::StockCar,
            CarChoice::RallyCar,
            CarChoice::Kart,
            CarChoice::SandRail,
        ],
        ModuleId::Other => vec![
            CarChoice::SportsCar,
            CarChoice::DriftCar,
            CarChoice::Kart,
            CarChoice::RallyCar,
        ],
    }
}

/// The cars of `cars` (with tiers `tiers`, in the same order) that may enter
/// a race of `required_tier`: in developer mode all of them, otherwise those
/// whose tier is at most the requirement, in their order.
pub open spec fn eligible_choices(cars: Seq<CarChoice>, tiers: Seq<u8>, required_tier: u8, dev_mode: bool) -> Seq<
    CarChoice,
>
    decreases cars.len(),
{
    if cars.len() == 0 {
        Seq::empty()
    } else {
        let before = eligible_choices(cars.drop_last(), tiers, required_tier, dev_mode);
        if dev_mode || tiers[cars.len() - 1] <= required_tier {
            before.push(cars.last())
        } else {
            before
        }
    }
}

/// Whether `c` is one of `cars` whose tier (in `tiers`) lets it enter a race
/// of `required_tier` (any of them in developer mode).
pub open spec fn listed_within_tier(cars: Seq<CarChoice>, tiers: Seq<u8>, required_tier: u8, dev_mode: bool, c: CarChoice) -> bool {
    exists|k: int| 0 <= k < cars.len() && cars[k] == c && (dev_mode || tiers[k] <= required_tier)
}

/// Every car offered for a race is one of the listed cars and, outside
/// developer mode, one whose tier is within the race's requirement.
pub proof fn lemma_offered_cars_within_tier(cars: Seq<CarChoice>, tiers: Seq<u8>, required_tier: u8, dev_mode: bool)
    ensures
        eligible_choices(cars, tiers, required_tier, dev_mode).len() <= cars.len(),
        forall|j: int|
            0 <= j < eligible_choices(cars, tiers, required_tier, dev_mode).len() ==> listed_within_tier(
                cars,
                tiers,
                required_tier,
                dev_mode,
                #[trigger] eligible_choices(cars, tiers, required_tier, dev_mode)[j],
            ),
    decreases cars.len(),
{
    if cars.len() > 0 {
        let rest = cars.drop_last();
        lemma_offered_cars_within_tier(rest, tiers, required_tier, dev_mode);
        let before = eligible_choices(rest, tiers, required_tier, dev_mode);
        let all = eligible_choices(cars, tiers, required_tier, dev_mode);
        assert forall|j: int| 0 <= j < all.len() implies listed_within_tier(
            cars,
            tiers,
            required_tier,
            dev_mode,
            #[trigger] all[j],
        ) by {
            if j < before.len() {
                assert(all[j] == before[j]);
                assert(listed_within_tier(rest, tiers, required_tier, dev_mode, before[j]));
                let k = choose|k: int|
                    0 <= k < rest.len() && rest[k] == before[j] && (dev_mode || tiers[k] <= required_tier);
                assert(cars[k] == rest[k]);
            } else {
                let k = cars.len() - 1;
                assert(cars[k] == all[j]);
            }
        }
    }
}

/// Car choices offered for a race of `required_tier`: the module's choices,
/// where the GT modules keep only the cars eligible for the race tier
/// (all of them in developer mode). `tiers` holds the tier of each of the
/// module's choices, in order.
pub open spec fn race_car_choices_spec(active: ModuleId, required_tier: u8, dev_mode: bool, tiers: Seq<u8>) -> Seq<
    CarChoice,
> {
    if active is Gt || active is GtChallenge {
        eligible_choices(module_car_choices_spec(active), tiers, required_tier, dev_mode)
    } else {
        module_car_choices_spec(active)
    }
}

/// Car choices the active module offers for a race of `required_tier`:
/// every choice of the module, except that the GT modules, outside
/// developer mode, leave out the cars whose tier is above the requirement.
/// `tiers` holds the tier of each of the module's choices, in order.
pub fn race_car_choices(active: ModuleId, required_tier: u8, dev_mode: bool, tiers: &Vec<u8>) -> (v: Vec<CarChoice>)
    requires
        tiers.len() == module_car_choices_spec(active).len(),
    ensures
        v@ == race_car_choices_spec(active, required_tier, dev_mode, tiers@),
{
    let all = module_car_choices(active);
    match active {
        ModuleId::Gt | ModuleId::GtChallenge => {},
        _ => {
            return all;
        },
    }
    let mut v: Vec<CarChoice> = Vec::new();
    let mut k: usize = 0;
    while k < all.len()
        invariant
            k <= all.len(),
            all.len() == tiers.len(),
            v@ == eligible_choices(all@.take(k as int), tiers@, required_tier, dev_mode),
        decreases all.len() - k,
    {
        assert(all@.take(k as int + 1).drop_last() =~= all@.take(k as int));
        if dev_mode || tiers[k] <= required_tier {
            v.push(all[k]);
        }
        k = k + 1;
    }
    assert(all@.take(all.len() as int) =~= all@);
    v
}

/// Pool of opponent cars: in the Classic module (`active` Classic) the
/// classic car of the track's category, otherwise the cars of the module the
/// track belongs to (`effective`), or that classic car for an unknown module.
pub open spec fn opponent_car_pool_spec(active: ModuleId, effective: ModuleId, classic_car: CarChoice) -> Seq<
    CarChoice,
> {
    if active is Classic {
        seq![classic_car]
    } else {
        match effective {
            ModuleId::Gt | ModuleId::GtChallenge => gt_ladder(),
            ModuleId::Nascar => seq![CarChoice::StockCar],
            ModuleId::ExtremeOffroad => seq![CarChoice::SandRail],
            ModuleId::Rally => seq![CarChoice::RallyCar],
            ModuleId::Kart => seq![CarChoice::Kart],
            _ => seq![classic_car],
        }
    }
}

/// Pool of cars the opponents may be given; `classic_car` is the classic car
/// of the track's category.
pub fn opponent_car_pool(active: ModuleId, effective: ModuleId, classic_car: CarChoice) -> (v: Vec<
    CarChoice,
>)
    ensures
        v@ == opponent_car_pool_spec(active, effective, classic_car),
        v.len() >= 1,
{
    if active == ModuleId::Classic {
        vec![classic_car]
    } else {
        match effective {
            ModuleId::Gt | ModuleId::GtChallenge => gt_ladder_vec(),
            ModuleId::Nascar => vec![CarChoice::StockCar],
            ModuleId::ExtremeOffroad => vec![CarChoice::SandRail],
            ModuleId::Rally => vec![CarChoice::RallyCar],
            ModuleId::Kart => vec![CarChoice::Kart],
            _ => vec![classic_car],
        }
    }
}

/// 2^64, the modulus of 64-bit wrapping arithmetic.
pub open spec fn two_pow_64() -> nat {
    0x1_0000_0000_0000_0000
}

/// Multiplier of the opponent-car draw applied to the bot's seed.
pub const SEED_MIX: u64 = 0x517CC1B727220A95;

/// Golden-ratio multiplier used to spread indices over the seed space.
pub const GOLDEN_MIX: u64 = 0x9E3779B97F4A7C15;

/// Hash of the opponent-car draw: `seed * SEED_MIX + idx * GOLDEN_MIX`, modulo 2^64.
pub open spec fn opponent_draw_hash(bot_idx: u64, bot_seed: u64) -> nat {
    (((bot_seed as nat * SEED_MIX as nat) % two_pow_64()) + ((bot_idx as nat * GOLDEN_MIX as nat)
        % two_pow_64())) % two_pow_64()
}

/// Index drawn from a pool of `pool_len` cars: the high 32 bits of the draw hash, modulo the pool size.
pub open spec fn opponent_draw_index(bot_idx: u64, bot_seed: u64, pool_len: nat) -> nat {
    (opponent_draw_hash(bot_idx, bot_seed) / 0x1_0000_0000) % pool_len
}

/// Index of the pool entry drawn for bot `bot_idx` with seed `bot_seed`.
pub fn opponent_pool_index(bot_idx: usize, bot_seed: u64, pool_len: usize) -> (r: usize)
    requires
        pool_len > 0,
    ensures
        r as nat == opponent_draw_index(bot_idx as u64, bot_seed, pool_len as nat),
        r < pool_len,
{
    let h: u64 = bot_seed.wrapping_mul(SEED_MIX).wrapping_add((bot_idx as u64).wrapping_mul(GOLDEN_MIX));
    assert(h >> 32u64 == h / 0x1_0000_0000) by (bit_vector);
    let hi: u64 = h >> 32u64;
    let r64: u64 = hi % (pool_len as u64);
    r64 as usize
}

/// Car drawn for bot `bot_idx` from `pool`: the predefined car for an empty
/// pool, the single car of a one-car pool, otherwise the entry at the drawn index.
pub open spec fn drawn_opponent_car(pool: Seq<CarChoice>, bot_idx: usize, bot_seed: u64, predefined: CarChoice) -> CarChoice {
    if pool.len() == 0 {
        predefined
    } else if pool.len() == 1 {
        pool[0]
    } else {
        pool[opponent_draw_index(bot_idx as u64, bot_seed, pool.len()) as int]
    }
}

/// Opponent car drawn for bot `bot_idx`: the track's predefined car for an
/// empty pool, the single car of a one-car pool, otherwise the pool entry at
/// the drawn index.
pub fn sample_opponent_car(pool: &Vec<CarChoice>, bot_idx: usize, bot_seed: u64, predefined: CarChoice) -> (r:
    CarChoice)
    ensures
        r == drawn_opponent_car(pool@, bot_idx, bot_seed, predefined),
        pool.len() == 0 ==> r == predefined,
        pool.len() == 1 ==> r == pool@[0],
        pool.len() > 1 ==> r == pool@[opponent_draw_index(bot_idx as u64, bot_seed, pool.len() as nat) as int],
{
    if pool.len() == 0 {
        return predefined;
    }
    if pool.len() == 1 {
        return pool[0];
    }
    let k = opponent_pool_index(bot_idx, bot_seed, pool.len());
    pool[k]
}

/// GT car of a career tier (tiers above 4, and tier 0, give the hypercar).
pub fn gt_tier_car(tier: u32) -> (r: CarChoice)
    ensures
        1 <= tier <= 4 ==> r == gt_ladder()[tier - 1],
        !(1 <= tier <= 4) ==> r == CarChoice::HypercarPrototype,
{
    match tier {
        1 => CarChoice::GT4Clubsport,
        2 => CarChoice::GT3Car,
        3 => CarChoice::GT2Biturbo,
        4 => CarChoice::GT1Legend,
        _ => CarChoice::HypercarPrototype,
    }
}

/// Built-in preset circuits a configuration can name as the default track.
#[derive(Debug, Clone, Copy, PartialEq, Eq, Structural)]
pub enum PresetTrack {
    ClassicGrandPrix,
    OvalSpeedway,
    DriftPark,
    KartArena,
    RampRaceway,
    OasisRally,
}

/// Preset named by the configured default track (Classic Grand Prix for any
/// unknown name; the oasis rally answers to four names).
pub open spec fn default_track_spec(name: Seq<char>) -> PresetTrack {
    if name == "oval_speedway"@ {
        PresetTrack::OvalSpeedway
    } else if name == "drift_park"@ {
        PresetTrack::DriftPark
    } else if name == "kart_arena"@ {
        PresetTrack::KartArena
    } else if name == "ramp_raceway"@ {
        PresetTrack::RampRaceway
    } else if name == "oasis_rally"@ || name == "oasis"@ || name == "dune_raid"@ || name == "sahara_dunes"@ {
        PresetTrack::OasisRally
    } else {
        PresetTrack::ClassicGrandPrix
    }
}

/// Preset circuit a session starts on, from the configured default track name.
pub fn default_track_from_config(name: &str) -> (r: PresetTrack)
    ensures
        r == default_track_spec(name@),
{
    if same_text(name, "oval_speedway") {
        PresetTrack::OvalSpeedway
    } else if same_text(name, "drift_park") {
        PresetTrack::DriftPark
    } else if same_text(name, "kart_arena") {
        PresetTrack::KartArena
    } else if same_text(name, "ramp_raceway") {
        PresetTrack::RampRaceway
    } else if same_text(name, "oasis_rally") || same_text(name, "oasis") || same_text(name, "dune_raid")
        || same_text(name, "sahara_dunes") {
        PresetTrack::OasisRally
    } else {
        PresetTrack::ClassicGrandPrix
    }
}

/// Car named by the configured default car (the sports car for any unknown name).
pub open spec fn default_car_spec(name: Seq<char>) -> CarChoice {
    if name == "drift_car"@ {
        CarChoice::DriftCar
    } else if name == "kart"@ {
        CarChoice::Kart
    } else if name == "rally_car"@ {
        CarChoice::RallyCar
    } else {
        CarChoice::SportsCar
    }
}

/// Car a session starts with, from the configured default car name.
pub fn default_car_from_config(name: &str) -> (r: CarChoice)
    ensures
        r == default_car_spec(name@),
{
    if same_text(name, "drift_car") {
        CarChoice::DriftCar
    } else if same_text(name, "kart") {
        CarChoice::Kart
    } else if same_text(name, "rally_car") {
        CarChoice::RallyCar
    } else {
        CarChoice::SportsCar
    }
}

/// How a car's availability is decided.
#[derive(Debug, Clone, Copy, PartialEq, Eq)]
pub enum UnlockRule {
    /// The car is always available.
    Always,
    /// The career progress decides, under this car identifier.
    Career(&'static str),
}

/// Career identifier of a GT car (none for the other archetypes).
pub open spec fn gt_car_id(car: CarChoice) -> Option<Seq<char>> {
    match car {
        CarChoice::GT4Clubsport => Some("gt4_clubsport"@),
        CarChoice::GT3Car => Some("gt3_evo"@),
        CarChoice::GT2Biturbo => Some("gt2_biturbo"@),
        CarChoice::GT1Legend => Some("gt1_legend"@),
        CarChoice::HypercarPrototype => Some("hypercar_prototype"@),
        _ => None,
    }
}

/// How the availability of `car` is decided: always in developer mode, in
/// the Classic module and for non-GT cars; otherwise by the career progress
/// under the GT car's identifier.
pub fn car_unlock_rule(car: CarChoice, dev_mode: bool, active: ModuleId) -> (r: UnlockRule)
    ensures
        (dev_mode || active is Classic || gt_car_id(car) is None) ==> r == UnlockRule::Always,
        !(dev_mode || active is Classic || gt_car_id(car) is None) ==> r is Career && r->0@ == gt_car_id(
            car,
        )->0,
{
    if dev_mode || active == ModuleId::Classic {
        return UnlockRule::Always;
    }
    match car {
        CarChoice::GT4Clubsport => UnlockRule::Career("gt4_clubsport"),
        CarChoice::GT3Car => UnlockRule::Career("gt3_evo"),
        CarChoice::GT2Biturbo => UnlockRule::Career("gt2_biturbo"),
        CarChoice::GT1Legend => UnlockRule::Career("gt1_legend"),
        CarChoice::HypercarPrototype => UnlockRule::Career("hypercar_prototype"),
        _ => UnlockRule::Always,
    }
}

/// Car the player races with: the freely chosen car, or the track's predefined one.
pub fn active_player_car_choice(free_car_selection: bool, chosen: CarChoice, predefined: CarChoice) -> (r:
    CarChoice)
    ensures
        r == if free_car_selection {
            chosen
        } else {
            predefined
        },
{
    if free_car_selection {
        chosen
    } else {
        predefined
    }
}

/// Whether the player's car may enter a race of `required_tier`: always in
/// developer mode; never when its tier is above the requirement; otherwise
/// when it suits the track surface.
pub fn is_car_eligible(dev_mode: bool, car_tier: u8, required_tier: u8, suits_surface: bool) -> (r: bool)
    ensures
        r == (dev_mode || (car_tier <= required_tier && suits_surface)),
{
    if dev_mode {
        return true;
    }
    if car_tier > required_tier {
        return false;
    }
    suits_surface
}

/// Engine sound bank.
#[derive(Debug, Clone, Copy, PartialEq, Eq, Structural)]
pub enum EngineSoundType {
    SportGT,
    NascarV8,
    RallyTurbo,
    Kart125cc,
    SandRailBoxer,
}

/// Primary engine sound bank of a specialised module (none for Classic and
/// unknown modules, whose cars bring their own sound).
pub fn module_engine_sound(effective: ModuleId) -> (r: Option<EngineSoundType>)
    ensures
        (effective is Gt || effective is GtChallenge) ==> r == Some(EngineSoundType::SportGT),
        effective is Nascar ==> r == Some(EngineSoundType::NascarV8),
        effective is Rally ==> r == Some(EngineSoundType::RallyTurbo),
        effective is Kart ==> r == Some(EngineSoundType::Kart125cc),
        effective is ExtremeOffroad ==> r == Some(EngineSoundType::SandRailBoxer),
        (effective is Classic || effective is Other) ==> r is None,
{
    match effective {
        ModuleId::Gt | ModuleId::GtChallenge => Some(EngineSoundType::SportGT),
        ModuleId::Nascar => Some(EngineSoundType::NascarV8),
        ModuleId::Rally => Some(EngineSoundType::RallyTurbo),
        ModuleId::Kart => Some(EngineSoundType::Kart125cc),
        ModuleId::ExtremeOffroad => Some(EngineSoundType::SandRailBoxer),
        _ => None,
    }
}

/// Engine sound of the session: the focused garage model's sound in the
/// garage (else the chosen car's), else the selected catalog model's, else
/// the player car's in Classic, else the module's bank, else the player car's.
pub fn resolve_active_sound(
    in_garage: bool,
    garage_model_sound: Option<EngineSoundType>,
    chosen_car_sound: EngineSoundType,
    selected_model_sound: Option<EngineSoundType>,
    effective: ModuleId,
    player_car_sound: EngineSoundType,
) -> (r: EngineSoundType)
    ensures
        r == if in_garage {
            match garage_model_sound {
                Some(s) => s,
                None => chosen_car_sound,
            }
        } else if selected_model_sound is Some {
            selected_model_sound->0
        } else if effective is Classic {
            player_car_sound
        } else {
            match effective {
                ModuleId::Gt | ModuleId::GtChallenge => EngineSoundType::SportGT,
                ModuleId::Nascar => EngineSoundType::NascarV8,
                ModuleId::Rally => EngineSoundType::RallyTurbo,
                ModuleId::Kart => EngineSoundType::Kart125cc,
                ModuleId::ExtremeOffroad => EngineSoundType::SandRailBoxer,
                _ => player_car_sound,
            }
        },
{
    if in_garage {
        return match garage_model_sound {
            Some(s) => s,
            None => chosen_car_sound,
        };
    }
    if let Some(s) = selected_model_sound {
        return s;
    }
    if effective == ModuleId::Classic {
        return player_car_sound;
    }
    match module_engine_sound(effective) {
        Some(s) => s,
        None => player_car_sound,
    }
}

/// Grid slots of a circuit: its explicit grid positions, or its default
/// count when it lists none.
pub fn max_grid_participants(grid_positions: usize, default_grid_count: usize) -> (r: usize)
    ensures
        r == if grid_positions == 0 {
            default_grid_count
        } else {
            grid_positions
        },
{
    if grid_positions == 0 {
        default_grid_count
    } else {
        grid_positions
    }
}

/// How the availability of the player's active car is decided: always in
/// developer mode, in Classic and in a standard race; by the career under
/// the selected catalog model's identifier when one is selected; otherwise
/// as for the archetype `car`.
pub fn active_car_unlock_rule(
    dev_mode: bool,
    active: ModuleId,
    mode: GameMode,
    selected_model: Option<&'static str>,
    car: CarChoice,
) -> (r: UnlockRule)
    ensures
        (dev_mode || active is Classic || mode is StandardRace) ==> r == UnlockRule::Always,
        !(dev_mode || active is Classic || mode is StandardRace) && selected_model is Some ==> r
            == UnlockRule::Career(selected_model->0),
        !(dev_mode || active is Classic || mode is StandardRace) && selected_model is None ==> (
        gt_car_id(car) is None ==> r == UnlockRule::Always) && (gt_car_id(car) is Some ==> r is Career
            && r->0@ == gt_car_id(car)->0),
{
    if dev_mode || active == ModuleId::Classic || mode == GameMode::StandardRace {
        return UnlockRule::Always;
    }
    match selected_model {
        Some(id) => UnlockRule::Career(id),
        None => car_unlock_rule(car, dev_mode, active),
    }
}

} // verus!
