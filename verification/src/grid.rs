//! Starting-grid participants and the order in which they line up.
//!
//! Times are held as whole numbers of microseconds. Two recorded times count
//! as tied when they are at most `TIE_WINDOW` (a ten-thousandth of a second)
//! apart.
use vstd::prelude::*;
use std::cmp::Ordering;
use crate::modules::CarChoice;
use crate::roster::DriverTier;

verus! {

/// Qualified participant on the starting grid, ranked by historical best lap,
/// circuit time, or random draw.
#[derive(Debug, Clone)]
pub struct GridParticipant {
    /// True if this slot belongs to a human player.
    pub is_player: bool,
    /// Index into the opponent drivers if this is an AI bot.
    pub bot_index: Option<usize>,
    /// Driver's display name.
    pub name: String,
    /// Driver's alias or nickname.
    pub alias: String,
    /// Driver's country code if available.
    pub country: Option<String>,
    /// Display title of the vehicle driven.
    pub car_title: String,
    /// Vehicle archetype chosen for this participant.
    pub car_choice: CarChoice,
    /// Catalog model identifier, if a real car model was chosen.
    pub model_id: Option<String>,
    /// Best historical single lap time on this track, in microseconds.
    pub best_lap: Option<u64>,
    /// Best historical total race time on this track, in microseconds.
    pub best_circuit_time: Option<u64>,
    /// Pseudo-random tiebreaker used when times tie or nothing is recorded.
    pub random_seed: u64,
    /// Skill tier of this driver, for AI bots.
    pub driver_tier: Option<DriverTier>,
}

fn copy_text(s: &String) -> (r: String)
    ensures
        r == *s,
{
    s.clone()
}

fn copy_opt_text(o: &Option<String>) -> (r: Option<String>)
    ensures
        r == *o,
{
    match o {
        Some(s) => Some(copy_text(s)),
        None => None,
    }
}

impl GridParticipant {
    /// A field-for-field copy of this participant.
    pub fn duplicate(&self) -> (r: GridParticipant)
        ensures
            r == *self,
    {
        GridParticipant {
            is_player: self.is_player,
            bot_index: self.bot_index,
            name: copy_text(&self.name),
            alias: copy_text(&self.alias),
            country: copy_opt_text(&self.country),
            car_title: copy_text(&self.car_title),
            car_choice: self.car_choice,
            model_id: copy_opt_text(&self.model_id),
            best_lap: self.best_lap,
            best_circuit_time: self.best_circuit_time,
            random_seed: self.random_seed,
            driver_tier: self.driver_tier,
        }
    }
}

/// Largest gap, in microseconds, at which two recorded times still count as
/// tied (a ten-thousandth of a second).
pub const TIE_WINDOW: u64 = 100;

/// Sign of the comparison of two optional times: a recorded time comes
/// before none; two recorded times more than `TIE_WINDOW` apart in their
/// order, smaller first; closer ones tie.
pub open spec fn time_order(a: Option<u64>, b: Option<u64>) -> int {
    match (a, b) {
        (Some(x), Some(y)) => if x + TIE_WINDOW < y {
            -1
        } else if y + TIE_WINDOW < x {
            1
        } else {
            0
        },
        (Some(_), None) => -1,
        (None, Some(_)) => 1,
        (None, None) => 0,
    }
}

/// Sign of the comparison of two seeds.
pub open spec fn seed_order(a: u64, b: u64) -> int {
    if a < b {
        -1
    } else if b < a {
        1
    } else {
        0
    }
}

/// Sign of the grid priority of `a` against `b`: best lap first, then best
/// race time (each deciding only beyond the tie window), then the random
/// seed; negative means `a` starts ahead.
pub open spec fn priority_sign(a: GridParticipant, b: GridParticipant) -> int {
    let lap = time_order(a.best_lap, b.best_lap);
    if lap != 0 {
        lap
    } else {
        let race = time_order(a.best_circuit_time, b.best_circuit_time);
        if race != 0 {
            race
        } else {
            seed_order(a.random_seed, b.random_seed)
        }
    }
}

/// Sign of an `Ordering`: -1, 0 or 1.
pub open spec fn ordering_sign(o: Ordering) -> int {
    match o {
        Ordering::Less => -1,
        Ordering::Equal => 0,
        Ordering::Greater => 1,
    }
}

impl GridParticipant {
    /// Three-tier comparison for grid order:
    /// 1. Best lap time (ascending, Some < None), when more than `TIE_WINDOW` apart
    /// 2. Best circuit time (ascending, Some < None), when more than `TIE_WINDOW` apart
    /// 3. Random seed (ascending)
    pub fn cmp_grid_priority(&self, other: &Self) -> (r: Ordering)
        ensures
            ordering_sign(r) == priority_sign(*self, *other),
    {
        let lap = time_order_of(self.best_lap, other.best_lap);
        if lap != 0 {
            return if lap < 0 {
                Ordering::Less
            } else {
                Ordering::Greater
            };
        }
        let race = time_order_of(self.best_circuit_time, other.best_circuit_time);
        if race != 0 {
            return if race < 0 {
                Ordering::Less
            } else {
                Ordering::Greater
            };
        }
        if self.random_seed < other.random_seed {
            Ordering::Less
        } else if other.random_seed < self.random_seed {
            Ordering::Greater
        } else {
            Ordering::Equal
        }
    }
}

fn time_order_of(a: Option<u64>, b: Option<u64>) -> (r: i8)
    ensures
        r == time_order(a, b),
{
    match (a, b) {
        (Some(x), Some(y)) => {
            if x < y && y - x > TIE_WINDOW {
                -1
            } else if y < x && x - y > TIE_WINDOW {
                1
            } else {
                0
            }
        },
        (Some(_), None) => -1,
        (None, Some(_)) => 1,
        (None, None) => 0,
    }
}

/// Swapping the two participants negates the grid priority.
pub proof fn lemma_priority_antisymmetric(a: GridParticipant, b: GridParticipant)
    ensures
        priority_sign(a, b) == -priority_sign(b, a),
{
}

/// A participant compares equal to itself.
pub proof fn lemma_priority_reflexive(a: GridParticipant)
    ensures
        priority_sign(a, a) == 0,
{
}

/// Best laps within the tie window leave the order to the race times, and
/// race times within it leave it to the seeds.
pub proof fn lemma_close_times_tie(a: GridParticipant, b: GridParticipant)
    requires
        a.best_lap is Some,
        b.best_lap is Some,
        a.best_lap->0 <= b.best_lap->0 + TIE_WINDOW,
        b.best_lap->0 <= a.best_lap->0 + TIE_WINDOW,
    ensures
        priority_sign(a, b) == if time_order(a.best_circuit_time, b.best_circuit_time) != 0 {
            time_order(a.best_circuit_time, b.best_circuit_time)
        } else {
            seed_order(a.random_seed, b.random_seed)
        },
{
}

/// Two recorded times tie or differ by more than the window.
pub open spec fn well_apart(a: Option<u64>, b: Option<u64>) -> bool {
    match (a, b) {
        (Some(x), Some(y)) => x == y || x + TIE_WINDOW < y || y + TIE_WINDOW < x,
        _ => true,
    }
}

/// Where recorded times are equal or more than the window apart, grid
/// priority is transitive: if `a` is not behind `b` and `b` not behind `c`,
/// then `a` is not behind `c`, and strictly ahead if either step was strict.
pub proof fn lemma_priority_transitive_when_apart(a: GridParticipant, b: GridParticipant, c: GridParticipant)
    requires
        well_apart(a.best_lap, b.best_lap),
        well_apart(b.best_lap, c.best_lap),
        well_apart(a.best_lap, c.best_lap),
        well_apart(a.best_circuit_time, b.best_circuit_time),
        well_apart(b.best_circuit_time, c.best_circuit_time),
        well_apart(a.best_circuit_time, c.best_circuit_time),
        priority_sign(a, b) <= 0,
        priority_sign(b, c) <= 0,
    ensures
        priority_sign(a, c) <= 0,
        (priority_sign(a, b) < 0 || priority_sign(b, c) < 0) ==> priority_sign(a, c) < 0,
{
}

/// A driver with a recorded best lap starts ahead of one with none.
pub proof fn lemma_recorded_lap_starts_ahead(a: GridParticipant, b: GridParticipant)
    requires
        a.best_lap is Some,
        b.best_lap is None,
    ensures
        priority_sign(a, b) < 0,
{
}

/// Whether entry `i` lines up before entry `j`: lower championship rank
/// first, then grid priority, then the earlier place in the list (the sort is stable).
pub open spec fn placed_before(ps: Seq<GridParticipant>, ranks: Seq<usize>, i: int, j: int) -> bool {
    ranks[i] < ranks[j] || (ranks[i] == ranks[j] && (priority_sign(ps[i], ps[j]) < 0 || (
    priority_sign(ps[i], ps[j]) == 0 && i < j)))
}

/// `order` lists each of the indices `0..n` exactly once.
pub open spec fn is_arrangement(order: Seq<usize>, n: nat) -> bool {
    &&& order.len() == n
    &&& forall|k: int| 0 <= k < n ==> order[k] < n
    &&& forall|k1: int, k2: int| 0 <= k1 < k2 < n ==> order[k1] != order[k2]
    &&& forall|j: usize| j < n ==> order.contains(j)
}

/// Every entry of `order` lines up before every later one.
pub open spec fn arranged_by(order: Seq<usize>, ps: Seq<GridParticipant>, ranks: Seq<usize>) -> bool {
    forall|k1: int, k2: int|
        0 <= k1 < k2 < order.len() ==> placed_before(ps, ranks, order[k1] as int, order[k2] as int)
}

/// Every entry of `order` lines up before the next one.
pub open spec fn arranged_in_pairs(order: Seq<usize>, ps: Seq<GridParticipant>, ranks: Seq<usize>) -> bool {
    forall|k: int|
        0 <= k < order.len() - 1 ==> placed_before(ps, ranks, #[trigger] order[k] as int, order[k + 1] as int)
}

/// Lining up is transitive over the participants: it is whenever recorded
/// times are equal or more than the tie window apart, but need not be when
/// some are closer (times of 0, 80 and 160 microseconds).
pub open spec fn placement_consistent(ps: Seq<GridParticipant>, ranks: Seq<usize>) -> bool {
    forall|i: int, j: int, k: int|
        0 <= i < ps.len() && 0 <= j < ps.len() && 0 <= k < ps.len() && #[trigger] placed_before(ps, ranks, i, j)
            && #[trigger] placed_before(ps, ranks, j, k) ==> placed_before(ps, ranks, i, k)
}

/// Championship ranks that are all equal, so that only grid priority counts.
pub open spec fn no_ranks(n: nat) -> Seq<usize> {
    Seq::new(n, |i: int| 0usize)
}

proof fn lemma_placed_total(ps: Seq<GridParticipant>, ranks: Seq<usize>, i: int, j: int)
    requires
        0 <= i < ps.len(),
        0 <= j < ps.len(),
        ps.len() == ranks.len(),
        i != j,
    ensures
        placed_before(ps, ranks, i, j) || placed_before(ps, ranks, j, i),
        !(placed_before(ps, ranks, i, j) && placed_before(ps, ranks, j, i)),
{
    lemma_priority_antisymmetric(ps[i], ps[j]);
}

/// A line-up ordered pair by pair is ordered throughout when lining up is
/// transitive over the participants.
pub proof fn lemma_pairs_order_whole_grid(order: Seq<usize>, ps: Seq<GridParticipant>, ranks: Seq<usize>)
    requires
        is_arrangement(order, ps.len()),
        arranged_in_pairs(order, ps, ranks),
        placement_consistent(ps, ranks),
    ensures
        arranged_by(order, ps, ranks),
{
    assert forall|k1: int, k2: int| 0 <= k1 < k2 < order.len() implies placed_before(
        ps,
        ranks,
        order[k1] as int,
        order[k2] as int,
    ) by {
        lemma_pairs_reach(order, ps, ranks, k1, k2);
    }
}

proof fn lemma_pairs_reach(order: Seq<usize>, ps: Seq<GridParticipant>, ranks: Seq<usize>, k1: int, k2: int)
    requires
        is_arrangement(order, ps.len()),
        arranged_in_pairs(order, ps, ranks),
        placement_consistent(ps, ranks),
        0 <= k1 < k2 < order.len(),
    ensures
        placed_before(ps, ranks, order[k1] as int, order[k2] as int),
    decreases k2 - k1,
{
    assert(placed_before(ps, ranks, order[k2 - 1] as int, order[k2 - 1 + 1] as int));
    if k1 < k2 - 1 {
        lemma_pairs_reach(order, ps, ranks, k1, k2 - 1);
        assert(placed_before(ps, ranks, order[k1] as int, order[k2 - 1] as int));
    }
}

/// Where every two recorded times of the participants are equal or more than
/// the tie window apart, lining up is transitive over them.
pub proof fn lemma_consistent_when_apart(ps: Seq<GridParticipant>, ranks: Seq<usize>)
    requires
        ps.len() == ranks.len(),
        forall|i: int, j: int|
            0 <= i < ps.len() && 0 <= j < ps.len() ==> well_apart(#[trigger] ps[i].best_lap, #[trigger] ps[j].best_lap)
                && well_apart(ps[i].best_circuit_time, ps[j].best_circuit_time),
    ensures
        placement_consistent(ps, ranks),
{
    assert forall|i: int, j: int, k: int|
        0 <= i < ps.len() && 0 <= j < ps.len() && 0 <= k < ps.len() && #[trigger] placed_before(ps, ranks, i, j)
            && #[trigger] placed_before(ps, ranks, j, k) implies placed_before(ps, ranks, i, k) by {
        let (a, b, c) = (ps[i], ps[j], ps[k]);
        assert(well_apart(a.best_lap, b.best_lap) && well_apart(a.best_circuit_time, b.best_circuit_time));
        assert(well_apart(b.best_lap, c.best_lap) && well_apart(b.best_circuit_time, c.best_circuit_time));
        assert(well_apart(a.best_lap, c.best_lap) && well_apart(a.best_circuit_time, c.best_circuit_time));
        lemma_priority_antisymmetric(a, b);
        lemma_priority_antisymmetric(b, c);
        if ranks[i] == ranks[j] && ranks[j] == ranks[k] {
            lemma_priority_transitive_when_apart(a, b, c);
        }
    }
}

/// `placed_before` at two machine indices.
pub open spec fn placed_at(ps: Seq<GridParticipant>, ranks: Seq<usize>, i: usize, j: usize) -> bool {
    placed_before(ps, ranks, i as int, j as int)
}

fn goes_before(ps: &Vec<GridParticipant>, ranks: &Vec<usize>, i: usize, j: usize) -> (r: bool)
    requires
        i < ps.len(),
        j < ps.len(),
        ps.len() == ranks.len(),
    ensures
        r == placed_at(ps@, ranks@, i, j),
{
    if ranks[i] < ranks[j] {
        return true;
    }
    if ranks[i] != ranks[j] {
        return false;
    }
    let c = ps[i].cmp_grid_priority(&ps[j]);
    match c {
        Ordering::Less => true,
        Ordering::Equal => i < j,
        Ordering::Greater => false,
    }
}

/// Line-up order (indices into `ps`) by championship rank, then grid
/// priority, keeping the given order among exact ties: each entry lines up
/// before the next, and, where lining up is transitive, before every later
/// one.
pub fn arrange_by_rank(ps: &Vec<GridParticipant>, ranks: &Vec<usize>) -> (order: Vec<usize>)
    requires
        ps.len() == ranks.len(),
    ensures
        is_arrangement(order@, ps.len() as nat),
        arranged_in_pairs(order@, ps@, ranks@),
        placement_consistent(ps@, ranks@) ==> arranged_by(order@, ps@, ranks@),
{
    let n = ps.len();
    let mut order: Vec<usize> = Vec::new();
    let mut i: usize = 0;
    while i < n
        invariant
            n == ps.len(),
            ps.len() == ranks.len(),
            i <= n,
            is_arrangement(order@, i as nat),
            arranged_in_pairs(order@, ps@, ranks@),
        decreases n - i,
    {
        let mut k: usize = 0;
        loop
            invariant
                n == ps.len(),
                ps.len() == ranks.len(),
                i < n,
                is_arrangement(order@, i as nat),
                arranged_in_pairs(order@, ps@, ranks@),
                k <= order.len(),
                k > 0 ==> placed_before(ps@, ranks@, order@[k - 1] as int, i as int),
            ensures
                k <= order.len(),
                k > 0 ==> placed_before(ps@, ranks@, order@[k - 1] as int, i as int),
                k < order.len() ==> placed_before(ps@, ranks@, i as int, order@[k as int] as int),
            decreases order.len() - k,
        {
            if k >= order.len() {
                break;
            }
            if goes_before(ps, ranks, i, order[k]) {
                break;
            }
            proof {
                lemma_placed_total(ps@, ranks@, i as int, order@[k as int] as int);
            }
            k = k + 1;
        }
        let ghost old_order = order@;
        order.insert(k, i);
        proof {
            let s = order@;
            assert(s == old_order.insert(k as int, i));
            assert forall|m: int| 0 <= m < s.len() - 1 implies placed_before(
                ps@,
                ranks@,
                #[trigger] s[m] as int,
                s[m + 1] as int,
            ) by {
                if m < k - 1 {
                    assert(s[m] == old_order[m] && s[m + 1] == old_order[m + 1]);
                } else if m == k - 1 {
                } else if m == k {
                    assert(s[m + 1] == old_order[k as int]);
                } else {
                    assert(s[m] == old_order[m - 1] && s[m + 1] == old_order[m]);
                }
            }
            assert forall|k1: int, k2: int| 0 <= k1 < k2 < s.len() implies s[k1] != s[k2] by {
                if k1 < k && k2 > k {
                    assert(s[k2] == old_order[k2 - 1]);
                } else if k1 > k {
                    assert(s[k1] == old_order[k1 - 1]);
                    assert(s[k2] == old_order[k2 - 1]);
                }
            }
            assert forall|m: int| 0 <= m < s.len() implies s[m] < i + 1 by {
                if m > k {
                    assert(s[m] == old_order[m - 1]);
                }
            }
            assert forall|j: usize| j < i + 1 implies s.contains(j) by {
                if j == i {
                    assert(s[k as int] == i);
                } else {
                    assert(old_order.contains(j));
                    let w = choose|w: int| 0 <= w < old_order.len() && old_order[w] == j;
                    if w < k {
                        assert(s[w] == j);
                    } else {
                        assert(s[w + 1] == j);
                    }
                }
            }
        }
        i = i + 1;
    }
    proof {
        if placement_consistent(ps@, ranks@) {
            lemma_pairs_order_whole_grid(order@, ps@, ranks@);
        }
    }
    order
}

fn zero_ranks(n: usize) -> (r: Vec<usize>)
    ensures
        r@ == no_ranks(n as nat),
{
    let mut r: Vec<usize> = Vec::new();
    let mut i: usize = 0;
    while i < n
        invariant
            i <= n,
            r@.len() == i,
            forall|k: int| 0 <= k < i ==> r@[k] == 0,
        decreases n - i,
    {
        r.push(0);
        i = i + 1;
    }
    assert(r@ =~= no_ranks(n as nat));
    r
}

/// Line-up order (indices into `ps`) by grid priority, keeping the given
/// order among exact ties: each entry lines up before the next, and, where
/// lining up is transitive, before every later one.
pub fn arrange_by_priority(ps: &Vec<GridParticipant>) -> (order: Vec<usize>)
    ensures
        is_arrangement(order@, ps.len() as nat),
        arranged_in_pairs(order@, ps@, no_ranks(ps.len() as nat)),
        placement_consistent(ps@, no_ranks(ps.len() as nat)) ==> arranged_by(order@, ps@, no_ranks(ps.len() as nat)),
{
    let ranks = zero_ranks(ps.len());
    arrange_by_rank(ps, &ranks)
}

/// `sorted` lists the participants of `ps` in the order `order`.
pub open spec fn listed_in(sorted: Seq<GridParticipant>, ps: Seq<GridParticipant>, order: Seq<usize>) -> bool {
    sorted.len() == order.len() && forall|k: int| 0 <= k < order.len() ==> sorted[k] == ps[order[k] as int]
}

fn reorder(ps: &Vec<GridParticipant>, order: &Vec<usize>) -> (sorted: Vec<GridParticipant>)
    requires
        forall|k: int| 0 <= k < order.len() ==> order@[k] < ps.len(),
    ensures
        listed_in(sorted@, ps@, order@),
{
    let mut sorted: Vec<GridParticipant> = Vec::new();
    let mut k: usize = 0;
    while k < order.len()
        invariant
            k <= order.len(),
            forall|j: int| 0 <= j < order.len() ==> order@[j] < ps.len(),
            sorted@.len() == k,
            forall|j: int| 0 <= j < k ==> sorted@[j] == ps@[order@[j] as int],
        decreases order.len() - k,
    {
        let p = ps[order[k]].duplicate();
        sorted.push(p);
        k = k + 1;
    }
    sorted
}

/// The starting grid sorted by grid priority (stable sort). Times within
/// the tie window tie, so grid priority need not be transitive; the grid is
/// then ordered pair by pair, and throughout wherever it is transitive.
pub fn sort_grid(participants: &Vec<GridParticipant>) -> (sorted: Vec<GridParticipant>)
    ensures
        exists|order: Seq<usize>|
            is_arrangement(order, participants.len() as nat) && arranged_in_pairs(
                order,
                participants@,
                no_ranks(participants.len() as nat),
            ) && (placement_consistent(participants@, no_ranks(participants.len() as nat)) ==> arranged_by(
                order,
                participants@,
                no_ranks(participants.len() as nat),
            )) && listed_in(sorted@, participants@, order),
{
    let order = arrange_by_priority(participants);
    let sorted = reorder(participants, &order);
    assert(listed_in(sorted@, participants@, order@));
    sorted
}

/// The starting grid of a later championship round: sorted by championship
/// rank (`ranks[i]` for `participants[i]`), then grid priority (stable sort;
/// ordered pair by pair, and throughout wherever lining up is transitive).
pub fn sort_grid_by_rank(participants: &Vec<GridParticipant>, ranks: &Vec<usize>) -> (sorted: Vec<
    GridParticipant,
>)
    requires
        participants.len() == ranks.len(),
    ensures
        exists|order: Seq<usize>|
            is_arrangement(order, participants.len() as nat) && arranged_in_pairs(order, participants@, ranks@)
                && (placement_consistent(participants@, ranks@) ==> arranged_by(order, participants@, ranks@))
                && listed_in(sorted@, participants@, order),
{
    let order = arrange_by_rank(participants, ranks);
    let sorted = reorder(participants, &order);
    assert(listed_in(sorted@, participants@, order@));
    sorted
}

/// Identifier under which the participant appears in championship standings:
/// "player" for a human, the opponent's identifier for a bot, empty otherwise.
pub open spec fn driver_id_of(p: GridParticipant, opponent_ids: Seq<String>) -> Seq<char> {
    if p.is_player {
        "player"@
    } else {
        match p.bot_index {
            Some(b) => if b < opponent_ids.len() {
                opponent_ids[b as int]@
            } else {
                ""@
            },
            None => ""@,
        }
    }
}

/// `r` is the first position of `id` in `standings`, or `usize::MAX` when it is absent.
pub open spec fn is_standing_rank(standings: Seq<String>, id: Seq<char>, r: usize) -> bool {
    ||| (r < standings.len() && standings[r as int]@ == id && forall|m: int|
        0 <= m < r ==> standings[m]@ != id)
    ||| (r == usize::MAX && forall|m: int| 0 <= m < standings.len() ==> standings[m]@ != id)
}

/// Identifier of a participant in the championship standings.
pub fn participant_driver_id(p: &GridParticipant, opponent_ids: &Vec<String>) -> (r: String)
    ensures
        r@ == driver_id_of(*p, opponent_ids@),
{
    if p.is_player {
        return "player".to_owned();
    }
    match p.bot_index {
        Some(b) => {
            if b < opponent_ids.len() {
                copy_text(&opponent_ids[b])
            } else {
                "".to_owned()
            }
        },
        None => "".to_owned(),
    }
}

/// Position of `driver_id` in the championship standings (`usize::MAX` if absent).
pub fn standings_rank(standings: &Vec<String>, driver_id: &String) -> (r: usize)
    ensures
        is_standing_rank(standings@, driver_id@, r),
{
    let mut k: usize = 0;
    while k < standings.len()
        invariant
            k <= standings.len(),
            forall|m: int| 0 <= m < k ==> standings@[m]@ != driver_id@,
        decreases standings.len() - k,
    {
        if standings[k] == *driver_id {
            return k;
        }
        k = k + 1;
    }
    usize::MAX
}

/// Championship rank of every participant (`usize::MAX` for one absent from the standings).
pub fn championship_ranks(
    participants: &Vec<GridParticipant>,
    opponent_ids: &Vec<String>,
    standings: &Vec<String>,
) -> (ranks: Vec<usize>)
    ensures
        ranks.len() == participants.len(),
        forall|k: int|
            0 <= k < participants.len() ==> is_standing_rank(
                standings@,
                driver_id_of(participants@[k], opponent_ids@),
                #[trigger] ranks@[k],
            ),
{
    let mut ranks: Vec<usize> = Vec::new();
    let mut k: usize = 0;
    while k < participants.len()
        invariant
            k <= participants.len(),
            ranks.len() == k,
            forall|j: int|
                0 <= j < k ==> is_standing_rank(
                    standings@,
                    driver_id_of(participants@[j], opponent_ids@),
                    #[trigger] ranks@[j],
                ),
        decreases participants.len() - k,
    {
        let id = participant_driver_id(&participants[k], opponent_ids);
        let r = standings_rank(standings, &id);
        ranks.push(r);
        k = k + 1;
    }
    ranks
}

/// Whether the grid is sorted at all: not in time attack, not in split
/// screen, and only with more than one car.
pub fn grid_sort_applies(time_attack: bool, split_screen: bool, total_cars: usize) -> (r: bool)
    ensures
        r == (!time_attack && !split_screen && total_cars > 1),
{
    !time_attack && !split_screen && total_cars > 1
}

/// Grid slot of the human player: slot 0 in split screen, else the first
/// player entry of the grid (slot 0 if there is none).
pub fn player_slot(participants: &Vec<GridParticipant>, split_screen: bool) -> (r: usize)
    ensures
        split_screen ==> r == 0,
        !split_screen ==> ((r < participants.len() && participants@[r as int].is_player && forall|m: int|
            0 <= m < r ==> !participants@[m].is_player) || (r == 0 && forall|m: int|
            0 <= m < participants.len() ==> !participants@[m].is_player)),
{
    if split_screen {
        return 0;
    }
    let mut k: usize = 0;
    while k < participants.len()
        invariant
            !split_screen,
            k <= participants.len(),
            forall|m: int| 0 <= m < k ==> !participants@[m].is_player,
        decreases participants.len() - k,
    {
        if participants[k].is_player {
            return k;
        }
        k = k + 1;
    }
    0
}

/// Grid slot of bot `bot_idx`: the first grid entry of that bot, or, if it
/// has none, the slot after the human players.
pub fn bot_slot(participants: &Vec<GridParticipant>, bot_idx: usize, split_screen: bool) -> (r: usize)
    requires
        bot_idx + 2 <= usize::MAX,
    ensures
        (r < participants.len() && participants@[r as int].bot_index == Some(bot_idx) && forall|m: int|
            0 <= m < r ==> participants@[m].bot_index != Some(bot_idx)) || ((forall|m: int|
            0 <= m < participants.len() ==> participants@[m].bot_index != Some(bot_idx)) && r
            == bot_idx + if split_screen {
            2usize
        } else {
            1usize
        }),
{
    let mut k: usize = 0;
    while k < participants.len()
        invariant
            k <= participants.len(),
            forall|m: int| 0 <= m < k ==> participants@[m].bot_index != Some(bot_idx),
        decreases participants.len() - k,
    {
        if participants[k].bot_index == Some(bot_idx) {
            return k;
        }
        k = k + 1;
    }
    if split_screen {
        bot_idx + 2
    } else {
        bot_idx + 1
    }
}

} // verus!
