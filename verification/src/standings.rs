//! Race standings, results and lap records.
//!
//! Times are whole numbers of microseconds; progress along a
//! lap is a whole number in any fixed unit that grows along the lap.
use vstd::prelude::*;
use crate::grid::{is_arrangement, TIE_WINDOW};

verus! {

/// Where a car is in the race: its current lap and its progress along it.
#[derive(Debug, Clone, Copy, PartialEq, Eq, Structural)]
pub struct RaceProgress {
    pub current_lap: u32,
    pub progress: u64,
}

/// Whether car `i` is classified ahead of car `j`: more laps first, then more
/// progress on the lap, then the lower car index (the sort is stable).
pub open spec fn runs_ahead(cars: Seq<RaceProgress>, i: int, j: int) -> bool {
    cars[i].current_lap > cars[j].current_lap || (cars[i].current_lap == cars[j].current_lap && (
    cars[i].progress > cars[j].progress || (cars[i].progress == cars[j].progress && i < j)))
}

/// Every entry of `order` is classified ahead of every later one.
pub open spec fn classified(order: Seq<usize>, cars: Seq<RaceProgress>) -> bool {
    forall|k1: int, k2: int|
        0 <= k1 < k2 < order.len() ==> runs_ahead(cars, order[k1] as int, order[k2] as int)
}

proof fn lemma_runs_ahead_total(cars: Seq<RaceProgress>, i: int, j: int)
    requires
        0 <= i < cars.len(),
        0 <= j < cars.len(),
        i != j,
    ensures
        runs_ahead(cars, i, j) || runs_ahead(cars, j, i),
        !(runs_ahead(cars, i, j) && runs_ahead(cars, j, i)),
{
}

proof fn lemma_runs_ahead_transitive(cars: Seq<RaceProgress>, i: int, j: int, k: int)
    requires
        0 <= i < cars.len(),
        0 <= j < cars.len(),
        0 <= k < cars.len(),
        runs_ahead(cars, i, j),
        runs_ahead(cars, j, k),
    ensures
        runs_ahead(cars, i, k),
{
}

fn ahead_of(cars: &Vec<RaceProgress>, i: usize, j: usize) -> (r: bool)
    requires
        i < cars.len(),
        j < cars.len(),
    ensures
        r == runs_ahead(cars@, i as int, j as int),
{
    let a = cars[i];
    let b = cars[j];
    if a.current_lap != b.current_lap {
        return a.current_lap > b.current_lap;
    }
    if a.progress != b.progress {
        return a.progress > b.progress;
    }
    i < j
}

/// Real-time race standings: car indices from the leader down, by lap, then
/// progress on the lap, then car index.
pub fn compute_standings(cars: &Vec<RaceProgress>) -> (order: Vec<usize>)
    ensures
        is_arrangement(order@, cars.len() as nat),
        classified(order@, cars@),
{
    let n = cars.len();
    let mut order: Vec<usize> = Vec::new();
    let mut i: usize = 0;
    while i < n
        invariant
            n == cars.len(),
            i <= n,
            is_arrangement(order@, i as nat),
            classified(order@, cars@),
        decreases n - i,
    {
        let mut k: usize = 0;
        loop
            invariant
                n == cars.len(),
                i < n,
                is_arrangement(order@, i as nat),
                classified(order@, cars@),
                k <= order.len(),
                forall|m: int| 0 <= m < k ==> runs_ahead(cars@, order@[m] as int, i as int),
            ensures
                k <= order.len(),
                forall|m: int| 0 <= m < k ==> runs_ahead(cars@, order@[m] as int, i as int),
                k < order.len() ==> runs_ahead(cars@, i as int, order@[k as int] as int),
            decreases order.len() - k,
        {
            if k >= order.len() {
                break;
            }
            if ahead_of(cars, i, order[k]) {
                break;
            }
            proof {
                lemma_runs_ahead_total(cars@, i as int, order@[k as int] as int);
            }
            k = k + 1;
        }
        let ghost old_order = order@;
        proof {
            assert forall|m: int| k <= m < old_order.len() implies runs_ahead(
                cars@,
                i as int,
                old_order[m] as int,
            ) by {
                if m > k {
                    lemma_runs_ahead_transitive(
                        cars@,
                        i as int,
                        old_order[k as int] as int,
                        old_order[m] as int,
                    );
                }
            }
        }
        order.insert(k, i);
        proof {
            let s = order@;
            assert(s == old_order.insert(k as int, i));
            assert forall|k1: int, k2: int| 0 <= k1 < k2 < s.len() implies runs_ahead(
                cars@,
                s[k1] as int,
                s[k2] as int,
            ) by {
                if k2 < k {
                } else if k2 == k {
                } else if k1 < k {
                    assert(s[k2] == old_order[k2 - 1]);
                    lemma_runs_ahead_transitive(cars@, s[k1] as int, i as int, s[k2] as int);
                } else if k1 == k {
                    assert(s[k2] == old_order[k2 - 1]);
                } else {
                    assert(s[k1] == old_order[k1 - 1]);
                    assert(s[k2] == old_order[k2 - 1]);
                }
            }
            assert forall|k1: int, k2: int| 0 <= k1 < k2 < s.len() implies s[k1] != s[k2] by {
                if k1 < k && k2 > k {
                    assert(s[k2] == old_order[k2 - 1]);
                } else if k1 > k {
                    assert(s[k1] == old_order[k1 - 1]);
                    assert(s[k2] == old_order[k2 - 1]);
                }
            }
            assert forall|m: int| 0 <= m < s.len() implies s[m] < i + 1 by {
                if m > k {
                    assert(s[m] == old_order[m - 1]);
                }
            }
            assert forall|j: usize| j < i + 1 implies s.contains(j) by {
                if j == i {
                    assert(s[k as int] == i);
                } else {
                    assert(old_order.contains(j));
                    let w = choose|w: int| 0 <= w < old_order.len() && old_order[w] == j;
                    if w < k {
                        assert(s[w] == j);
                    } else {
                        assert(s[w + 1] == j);
                    }
                }
            }
        }
        i = i + 1;
    }
    order
}

/// The race leader has completed at least as many laps as any car, and no
/// car on the same lap is further along it.
pub proof fn lemma_leader_is_furthest(order: Seq<usize>, cars: Seq<RaceProgress>, car: usize)
    requires
        is_arrangement(order, cars.len() as nat),
        classified(order, cars),
        car < cars.len(),
    ensures
        cars[order[0] as int].current_lap >= cars[car as int].current_lap,
        cars[order[0] as int].current_lap == cars[car as int].current_lap ==> cars[order[0] as int].progress
            >= cars[car as int].progress,
{
    assert(order.contains(car));
    let k = choose|k: int| 0 <= k < order.len() && order[k] == car;
    if k > 0 {
        assert(runs_ahead(cars, order[0] as int, order[k] as int));
    }
}

/// Whether the checkered flag has fallen for the humans: the first car (or,
/// in split screen, either of the first two) has gone past the last lap.
pub open spec fn player_finished_spec(laps: Seq<u32>, total_laps: u32, split_screen: bool) -> bool {
    let p1 = laps.len() > 0 && laps[0] > total_laps;
    let p2 = laps.len() > 1 && laps[1] > total_laps;
    if split_screen {
        p1 || p2
    } else {
        p1
    }
}

/// Whether the race is over for the humans, from the current lap of every car.
pub fn player_finished(laps: &Vec<u32>, total_laps: u32, split_screen: bool) -> (r: bool)
    ensures
        r == player_finished_spec(laps@, total_laps, split_screen),
{
    let p1 = laps.len() > 0 && laps[0] > total_laps;
    if split_screen {
        let p2 = laps.len() > 1 && laps[1] > total_laps;
        p1 || p2
    } else {
        p1
    }
}

/// Whether car `car_idx` is driven by a human: car 0, and car 1 in split screen.
pub open spec fn is_human_car(car_idx: usize, split_screen: bool) -> bool {
    car_idx == 0 || (split_screen && car_idx == 1)
}

/// A line of the final results table.
#[derive(Debug, Clone, Copy, PartialEq, Eq, Structural)]
pub struct ResultLine {
    /// Finishing position, from 1.
    pub position: usize,
    /// Car that finished there.
    pub car_idx: usize,
    /// Whether a human drove it.
    pub is_player: bool,
}

/// Results table in standings order: positions 1, 2, ... and the human flag of each car.
pub fn build_results(standings: &Vec<usize>, split_screen: bool) -> (lines: Vec<ResultLine>)
    requires
        standings.len() < usize::MAX,
    ensures
        lines.len() == standings.len(),
        forall|k: int|
            0 <= k < standings.len() ==> #[trigger] lines@[k] == (ResultLine {
                position: (k + 1) as usize,
                car_idx: standings@[k],
                is_player: is_human_car(standings@[k], split_screen),
            }),
{
    let mut lines: Vec<ResultLine> = Vec::new();
    let mut k: usize = 0;
    while k < standings.len()
        invariant
            k <= standings.len(),
            standings.len() < usize::MAX,
            lines.len() == k,
            forall|j: int|
                0 <= j < k ==> #[trigger] lines@[j] == (ResultLine {
                    position: (j + 1) as usize,
                    car_idx: standings@[j],
                    is_player: is_human_car(standings@[j], split_screen),
                }),
        decreases standings.len() - k,
    {
        let car = standings[k];
        let human = car == 0 || (split_screen && car == 1);
        lines.push(ResultLine { position: k + 1, car_idx: car, is_player: human });
        k = k + 1;
    }
    lines
}

/// Finishing position of the first human in the results (1 if there is none).
pub fn player_position(lines: &Vec<ResultLine>) -> (r: usize)
    requires
        lines.len() < usize::MAX,
    ensures
        (exists|k: int|
            0 <= k < lines.len() && lines@[k].is_player && r == k + 1 && forall|m: int|
                0 <= m < k ==> !lines@[m].is_player) || (r == 1 && forall|m: int|
            0 <= m < lines.len() ==> !lines@[m].is_player),
{
    let mut k: usize = 0;
    while k < lines.len()
        invariant
            k <= lines.len(),
            lines.len() < usize::MAX,
            forall|m: int| 0 <= m < k ==> !lines@[m].is_player,
        decreases lines.len() - k,
    {
        if lines[k].is_player {
            return k + 1;
        }
        k = k + 1;
    }
    1
}

/// Podium place of a finishing position: the position itself when it is 1 to 3.
pub fn podium_place(position: usize) -> (r: Option<usize>)
    ensures
        r == if position <= 3 {
            Some(position)
        } else {
            None
        },
{
    if position <= 3 {
        Some(position)
    } else {
        None
    }
}

/// Number of human cars that come before the bots: two in split screen, else one.
pub open spec fn bot_offset(split_screen: bool) -> usize {
    if split_screen {
        2
    } else {
        1
    }
}

/// Opponent index of car `car_idx` (0 for a human car).
pub open spec fn bot_of_car_spec(car_idx: usize, split_screen: bool) -> usize {
    if car_idx >= bot_offset(split_screen) {
        (car_idx - bot_offset(split_screen)) as usize
    } else {
        0usize
    }
}

/// Opponent index of car `car_idx` (cars come humans first, then bots).
pub fn bot_of_car(car_idx: usize, split_screen: bool) -> (r: usize)
    ensures
        r == bot_of_car_spec(car_idx, split_screen),
{
    let offset: usize = if split_screen {
        2
    } else {
        1
    };
    car_idx.saturating_sub(offset)
}

/// Car index of opponent `bot_idx`.
pub open spec fn car_of_bot_spec(bot_idx: usize, split_screen: bool) -> int {
    bot_idx + bot_offset(split_screen)
}

/// Car index of opponent `bot_idx`.
pub fn car_of_bot(bot_idx: usize, split_screen: bool) -> (r: usize)
    requires
        bot_idx + 2 <= usize::MAX,
    ensures
        r == car_of_bot_spec(bot_idx, split_screen),
{
    if split_screen {
        bot_idx + 2
    } else {
        bot_idx + 1
    }
}

/// The car of an opponent maps back to that opponent, and it is never a human car.
pub proof fn lemma_bot_car_roundtrip(bot_idx: usize, split_screen: bool)
    requires
        bot_idx + 2 <= usize::MAX,
    ensures
        bot_of_car_spec(car_of_bot_spec(bot_idx, split_screen) as usize, split_screen) == bot_idx,
        !is_human_car(car_of_bot_spec(bot_idx, split_screen) as usize, split_screen),
{
}

/// Whether a lap is a personal best: there is a lap, and it beats the
/// previous record (or there was none).
pub open spec fn is_personal_best_spec(lap: Option<u64>, previous_best: Option<u64>) -> bool {
    match lap {
        Some(l) => match previous_best {
            Some(p) => l < p,
            None => true,
        },
        None => false,
    }
}

/// Whether the race's best lap improves the player's record on the track.
pub fn is_personal_best(lap: Option<u64>, previous_best: Option<u64>) -> (r: bool)
    ensures
        r == is_personal_best_spec(lap, previous_best),
{
    match lap {
        Some(l) => match previous_best {
            Some(p) => l < p,
            None => true,
        },
        None => false,
    }
}

/// Smallest of the recorded times, if any is recorded.
pub open spec fn least_time(times: Seq<Option<u64>>) -> Option<u64>
    decreases times.len(),
{
    if times.len() == 0 {
        None
    } else {
        let before = least_time(times.drop_last());
        match (before, times.last()) {
            (Some(a), Some(b)) => Some(if b < a {
                b
            } else {
                a
            }),
            (Some(a), None) => Some(a),
            (None, t) => t,
        }
    }
}

/// The least time is one of the recorded times, and no recorded time is smaller.
pub proof fn lemma_least_time(times: Seq<Option<u64>>)
    ensures
        least_time(times) is None <==> forall|k: int| 0 <= k < times.len() ==> times[k] is None,
        least_time(times) matches Some(f) ==> (exists|k: int| 0 <= k < times.len() && times[k] == Some(f))
            && forall|k: int| 0 <= k < times.len() && #[trigger] times[k] is Some ==> f <= times[k]->0,
    decreases times.len(),
{
    if times.len() > 0 {
        let rest = times.drop_last();
        lemma_least_time(rest);
        assert forall|k: int| 0 <= k < rest.len() implies rest[k] == times[k] by {}
        let last = times.len() - 1;
        match (least_time(rest), times.last()) {
            (Some(a), Some(b)) => {
                if b < a {
                    assert(times[last] == Some(b));
                } else {
                    let w = choose|k: int| 0 <= k < rest.len() && rest[k] == Some(a);
                    assert(times[w] == Some(a));
                }
            },
            (Some(a), None) => {
                let w = choose|k: int| 0 <= k < rest.len() && rest[k] == Some(a);
                assert(times[w] == Some(a));
            },
            (None, t) => {
                if t is Some {
                    assert(times[last] == t);
                }
            },
        }
    }
}

/// Whether `t` counts as the fastest lap beside the least lap `f`: within
/// the tie window of it.
pub open spec fn ties_fastest(t: Option<u64>, f: u64) -> bool {
    t matches Some(x) && x < f + TIE_WINDOW
}

/// `r` is the first index holding a time within the tie window of the
/// smallest recorded time, or `None` when no time is recorded.
pub open spec fn is_fastest_entry(times: Seq<Option<u64>>, r: Option<usize>) -> bool {
    match least_time(times) {
        None => r is None,
        Some(f) => r matches Some(i) && i < times.len() && ties_fastest(times[i as int], f) && forall|k: int|
            0 <= k < i ==> !ties_fastest(#[trigger] times[k], f),
    }
}

fn least_recorded(times: &Vec<Option<u64>>) -> (r: Option<u64>)
    ensures
        r == least_time(times@),
{
    let mut m: Option<u64> = None;
    let mut k: usize = 0;
    while k < times.len()
        invariant
            k <= times.len(),
            m == least_time(times@.take(k as int)),
        decreases times.len() - k,
    {
        assert(times@.take(k + 1).drop_last() =~= times@.take(k as int));
        m = match (m, times[k]) {
            (Some(a), Some(b)) => Some(if b < a {
                b
            } else {
                a
            }),
            (Some(a), None) => Some(a),
            (None, t) => t,
        };
        k = k + 1;
    }
    assert(times@.take(times.len() as int) =~= times@);
    m
}

/// Holder of the fastest lap of a round: the first driver whose best lap is
/// within the tie window of the smallest of all recorded best laps.
pub fn fastest_lap_holder(best_laps: &Vec<Option<u64>>) -> (r: Option<usize>)
    ensures
        is_fastest_entry(best_laps@, r),
{
    let least = least_recorded(best_laps);
    proof {
        lemma_least_time(best_laps@);
    }
    match least {
        None => None,
        Some(f) => {
            let mut k: usize = 0;
            while k < best_laps.len()
                invariant
                    k <= best_laps.len(),
                    least_time(best_laps@) == Some(f),
                    exists|w: int| 0 <= w < best_laps.len() && best_laps@[w] == Some(f),
                    forall|m: int| 0 <= m < k ==> !ties_fastest(#[trigger] best_laps@[m], f),
                decreases best_laps.len() - k,
            {
                if let Some(t) = best_laps[k] {
                    if t <= f || t - f < TIE_WINDOW {
                        return Some(k);
                    }
                }
                k = k + 1;
            }
            proof {
                let w = choose|w: int| 0 <= w < best_laps.len() && best_laps@[w] == Some(f);
                assert(ties_fastest(best_laps@[w], f));
            }
            None
        },
    }
}

/// Index of the fastest lap of the race so far: the first of the smallest lap times.
pub fn best_lap_index(lap_times: &Vec<u64>) -> (r: Option<usize>)
    ensures
        lap_times.len() == 0 <==> r is None,
        r matches Some(i) ==> i < lap_times.len() && (forall|k: int|
            0 <= k < lap_times.len() ==> lap_times@[i as int] <= lap_times@[k]) && (forall|k: int|
            0 <= k < i ==> lap_times@[i as int] < lap_times@[k]),
{
    if lap_times.len() == 0 {
        return None;
    }
    let mut best: usize = 0;
    let mut k: usize = 1;
    while k < lap_times.len()
        invariant
            1 <= k <= lap_times.len(),
            best < k,
            forall|m: int| 0 <= m < k ==> lap_times@[best as int] <= lap_times@[m],
            forall|m: int| 0 <= m < best ==> lap_times@[best as int] < lap_times@[m],
        decreases lap_times.len() - k,
    {
        if lap_times[k] < lap_times[best] {
            best = k;
        }
        k = k + 1;
    }
    Some(best)
}

/// Whether a new lap is at least as fast as every earlier lap of the race.
pub fn is_fastest_so_far(earlier_laps: &Vec<u64>, lap: u64) -> (r: bool)
    ensures
        r == forall|k: int| 0 <= k < earlier_laps.len() ==> lap <= earlier_laps@[k],
{
    let mut k: usize = 0;
    while k < earlier_laps.len()
        invariant
            k <= earlier_laps.len(),
            forall|m: int| 0 <= m < k ==> lap <= earlier_laps@[m],
        decreases earlier_laps.len() - k,
    {
        if earlier_laps[k] < lap {
            return false;
        }
        k = k + 1;
    }
    true
}

/// Shortest sector time that is announced, in microseconds (0.05 s).
pub const MIN_ANNOUNCED_SECTOR: u64 = 50_000;

/// Margin a sector must beat the record by to count as faster, in microseconds (0.005 s).
pub const SECTOR_MARGIN: u64 = 5_000;

/// How a completed sector compares with the best one of the race.
#[derive(Debug, Clone, Copy, PartialEq, Eq, Structural)]
pub enum SectorVerdict {
    /// Too short to be announced.
    Silent,
    /// First time through this sector: it becomes the reference.
    Benchmark,
    /// Faster than the reference by more than the margin: it becomes the reference.
    Faster,
    /// Not faster by more than the margin.
    Slower,
}

/// Verdict on a completed sector against the race's best time for it.
pub fn sector_verdict(sector_time: u64, best_so_far: Option<u64>) -> (r: SectorVerdict)
    ensures
        sector_time <= MIN_ANNOUNCED_SECTOR ==> r == SectorVerdict::Silent,
        sector_time > MIN_ANNOUNCED_SECTOR && best_so_far is None ==> r == SectorVerdict::Benchmark,
        sector_time > MIN_ANNOUNCED_SECTOR && best_so_far is Some ==> r == if sector_time
            + SECTOR_MARGIN < best_so_far->0 {
            SectorVerdict::Faster
        } else {
            SectorVerdict::Slower
        },
{
    if sector_time <= MIN_ANNOUNCED_SECTOR {
        return SectorVerdict::Silent;
    }
    match best_so_far {
        None => SectorVerdict::Benchmark,
        Some(b) => {
            if b > SECTOR_MARGIN && sector_time < b - SECTOR_MARGIN {
                SectorVerdict::Faster
            } else {
                SectorVerdict::Slower
            }
        },
    }
}

/// Championship trophy.
#[derive(Debug, Clone, Copy, PartialEq, Eq, Structural)]
pub enum Trophy {
    Gold,
    Silver,
    Bronze,
}

/// Trophy for a final championship standing (0 for the champion).
pub fn trophy_for_standing(standing: usize) -> (r: Option<Trophy>)
    ensures
        standing == 0 ==> r == Some(Trophy::Gold),
        standing == 1 ==> r == Some(Trophy::Silver),
        standing == 2 ==> r == Some(Trophy::Bronze),
        standing > 2 ==> r is None,
{
    match standing {
        0 => Some(Trophy::Gold),
        1 => Some(Trophy::Silver),
        2 => Some(Trophy::Bronze),
        _ => None,
    }
}

/// Name under which a finisher enters the Hall of Fame.
#[derive(Debug, Clone, Copy, PartialEq, Eq, Structural)]
pub enum FinisherName {
    /// The profile's alias, the only human on the grid.
    Alias,
    /// The profile's alias, marked as the first player.
    AliasAsFirstPlayer,
    /// The second player.
    SecondPlayer,
    /// The alias of the opponent with this index.
    Opponent(usize),
    /// A car without a known driver, named after its index.
    UnknownCar(usize),
}

/// Name recorded for car `car_idx` among `opponent_count` opponents: the
/// profile's alias for car 0 (marked as the first player in split screen),
/// the second player for car 1 in split screen, the opponent driving any
/// other car, and the car's own index when no opponent drives it.
pub open spec fn finisher_name_spec(car_idx: usize, split_screen: bool, opponent_count: usize) -> FinisherName {
    if car_idx == 0 {
        if split_screen {
            FinisherName::AliasAsFirstPlayer
        } else {
            FinisherName::Alias
        }
    } else if split_screen && car_idx == 1 {
        FinisherName::SecondPlayer
    } else if bot_of_car_spec(car_idx, split_screen) < opponent_count {
        FinisherName::Opponent(bot_of_car_spec(car_idx, split_screen))
    } else {
        FinisherName::UnknownCar(car_idx)
    }
}

/// Name recorded for car `car_idx`.
pub fn finisher_name(car_idx: usize, split_screen: bool, opponent_count: usize) -> (r: FinisherName)
    ensures
        r == finisher_name_spec(car_idx, split_screen, opponent_count),
{
    if car_idx == 0 {
        if split_screen {
            FinisherName::AliasAsFirstPlayer
        } else {
            FinisherName::Alias
        }
    } else if split_screen && car_idx == 1 {
        FinisherName::SecondPlayer
    } else {
        let bot = bot_of_car(car_idx, split_screen);
        if bot < opponent_count {
            FinisherName::Opponent(bot)
        } else {
            FinisherName::UnknownCar(car_idx)
        }
    }
}

/// Car name recorded for an opponent in the Hall of Fame.
#[derive(Debug, Clone, Copy, PartialEq, Eq, Structural)]
pub enum FinisherCar {
    /// The name of the player's car.
    PlayersCar,
    /// The name of the opponent's favourite model in the active module
    /// (the title of its preferred car when the catalog lacks that model).
    FavoriteModel,
    /// The title of the opponent's preferred car.
    PreferredCar,
}

/// Car recorded for an opponent: its favourite model when it has one for the
/// active module, else its preferred car under free car selection, else the
/// player's car.
pub fn opponent_finisher_car(has_module_favorite: bool, free_car_selection: bool) -> (r: FinisherCar)
    ensures
        r == if has_module_favorite {
            FinisherCar::FavoriteModel
        } else if free_car_selection {
            FinisherCar::PreferredCar
        } else {
            FinisherCar::PlayersCar
        },
{
    if has_module_favorite {
        FinisherCar::FavoriteModel
    } else if free_car_selection {
        FinisherCar::PreferredCar
    } else {
        FinisherCar::PlayersCar
    }
}

/// Who a line of a championship round's results belongs to.
#[derive(Debug, Clone, Copy, PartialEq, Eq, Structural)]
pub enum RoundEntrant {
    /// The player, under the id `player`.
    Player,
    /// The opponent with this index, under its driver id.
    Opponent(usize),
    /// A car without a known driver: `bot_` and the finishing place (from 0)
    /// as its id, `Driver` and the car index as its name.
    Anonymous { place: usize, car_idx: usize },
}

/// Entrant of the result line at `place` (from 0) among `opponent_count`
/// opponents: the player for a human line, else the opponent driving the car,
/// else an anonymous entrant.
pub open spec fn round_entrant_spec(line: ResultLine, place: usize, split_screen: bool, opponent_count: usize) -> RoundEntrant {
    if line.is_player {
        RoundEntrant::Player
    } else if bot_of_car_spec(line.car_idx, split_screen) < opponent_count {
        RoundEntrant::Opponent(bot_of_car_spec(line.car_idx, split_screen))
    } else {
        RoundEntrant::Anonymous { place, car_idx: line.car_idx }
    }
}

/// Entrant of the result line at `place`.
pub fn round_entrant(line: ResultLine, place: usize, split_screen: bool, opponent_count: usize) -> (r:
    RoundEntrant)
    ensures
        r == round_entrant_spec(line, place, split_screen, opponent_count),
{
    if line.is_player {
        RoundEntrant::Player
    } else {
        let bot = bot_of_car(line.car_idx, split_screen);
        if bot < opponent_count {
            RoundEntrant::Opponent(bot)
        } else {
            RoundEntrant::Anonymous { place, car_idx: line.car_idx }
        }
    }
}

/// Every opponent is recorded under its own name in the Hall of Fame, and its
/// line of a round's results is credited to it.
pub proof fn lemma_opponents_credited(bot_idx: usize, split_screen: bool, opponent_count: usize, place: usize)
    requires
        bot_idx + 2 <= usize::MAX,
        bot_idx < opponent_count,
    ensures
        ({
            let car = car_of_bot_spec(bot_idx, split_screen) as usize;
            let line = ResultLine {
                position: (place + 1) as usize,
                car_idx: car,
                is_player: is_human_car(car, split_screen),
            };
            &&& finisher_name_spec(car, split_screen, opponent_count) == FinisherName::Opponent(bot_idx)
            &&& round_entrant_spec(line, place, split_screen, opponent_count) == RoundEntrant::Opponent(bot_idx)
        }),
{
}

/// Label of the nameplate floating over another car.
#[derive(Debug, Clone, Copy, PartialEq, Eq, Structural)]
pub enum NameplateLabel {
    /// The profile's alias (the first player, seen by the second).
    Alias,
    /// The second player.
    SecondPlayer,
    /// The full name of the opponent with this index (championships).
    OpponentName(usize),
    /// The alias of the opponent with this index.
    OpponentAlias(usize),
    /// A car without a known driver.
    Opponent,
}

/// Nameplate of car `car_idx`: in split screen the first player's alias on
/// car 0 and the second player on car 1; on any other car the driving
/// opponent, by full name in a championship and by alias otherwise; a plain
/// label when no opponent drives it.
pub fn nameplate_label(car_idx: usize, split_screen: bool, opponent_count: usize, in_championship: bool) -> (r:
    NameplateLabel)
    ensures
        r == if split_screen && car_idx == 0 {
            NameplateLabel::Alias
        } else if split_screen && car_idx == 1 {
            NameplateLabel::SecondPlayer
        } else if bot_of_car_spec(car_idx, split_screen) < opponent_count {
            if in_championship {
                NameplateLabel::OpponentName(bot_of_car_spec(car_idx, split_screen))
            } else {
                NameplateLabel::OpponentAlias(bot_of_car_spec(car_idx, split_screen))
            }
        } else {
            NameplateLabel::Opponent
        },
{
    if split_screen && car_idx == 0 {
        NameplateLabel::Alias
    } else if split_screen && car_idx == 1 {
        NameplateLabel::SecondPlayer
    } else {
        let bot = bot_of_car(car_idx, split_screen);
        if bot < opponent_count {
            if in_championship {
                NameplateLabel::OpponentName(bot)
            } else {
                NameplateLabel::OpponentAlias(bot)
            }
        } else {
            NameplateLabel::Opponent
        }
    }
}

/// The race ends for the humans as soon as the first car has run all its
/// laps, in split screen also when the second car has; it never ends while
/// no human car has; and outside split screen the second car plays no part.
pub proof fn lemma_race_end_for_humans(laps: Seq<u32>, total_laps: u32, split_screen: bool, other: u32)
    ensures
        laps.len() > 0 && laps[0] > total_laps ==> player_finished_spec(laps, total_laps, split_screen),
        split_screen && laps.len() > 1 && laps[1] > total_laps ==> player_finished_spec(laps, total_laps, split_screen),
        player_finished_spec(laps, total_laps, split_screen) ==> (laps.len() > 0 && laps[0] > total_laps) || (
        split_screen && laps.len() > 1 && laps[1] > total_laps),
        !split_screen && laps.len() > 1 ==> player_finished_spec(laps.update(1, other), total_laps, false)
            == player_finished_spec(laps, total_laps, false),
{
}

/// Of two different cars exactly one runs ahead of the other; a car on a
/// later lap runs ahead, and on the same lap the one further along does.
pub proof fn lemma_running_order(cars: Seq<RaceProgress>, i: int, j: int)
    requires
        i != j,
    ensures
        runs_ahead(cars, i, j) != runs_ahead(cars, j, i),
        cars[i].current_lap > cars[j].current_lap ==> runs_ahead(cars, i, j),
        cars[i].current_lap == cars[j].current_lap && cars[i].progress > cars[j].progress ==> runs_ahead(
            cars,
            i,
            j,
        ),
{
}

/// A lap is a personal best only when it beats every earlier record, the
/// first lap ever recorded always is, and a race without a lap never is.
pub proof fn lemma_personal_best(lap: Option<u64>, previous_best: Option<u64>)
    ensures
        is_personal_best_spec(lap, previous_best) ==> lap is Some,
        lap is Some && previous_best is None ==> is_personal_best_spec(lap, previous_best),
        lap is Some && previous_best is Some ==> (is_personal_best_spec(lap, previous_best) <==> lap->0
            < previous_best->0),
        lap == previous_best ==> !is_personal_best_spec(lap, previous_best),
{
}

} // verus!
