//! In-memory record caches of the session (Hall of Fame entries, race
//! history) and how clearing a circuit's or a driver's history trims them.
use vstd::prelude::*;

verus! {

/// A Hall of Fame line, with what the clearing rules read of it.
#[derive(Debug, Clone)]
pub struct HofEntry {
    /// Database identifier, once stored.
    pub id: Option<i64>,
    /// Circuit of the record.
    pub track_id: String,
    /// Name the record was set under.
    pub player_name: String,
}

/// A race history line, with what the clearing rules read of it.
#[derive(Debug, Clone)]
pub struct HistoryEntry {
    /// Profile that raced.
    pub profile_id: i64,
    /// Circuit raced.
    pub track_id: String,
}

impl HofEntry {
    /// A field-for-field copy.
    pub fn duplicate(&self) -> (r: HofEntry)
        ensures
            r == *self,
    {
        HofEntry { id: self.id, track_id: self.track_id.clone(), player_name: self.player_name.clone() }
    }
}

impl HistoryEntry {
    /// A field-for-field copy.
    pub fn duplicate(&self) -> (r: HistoryEntry)
        ensures
            r == *self,
    {
        HistoryEntry { profile_id: self.profile_id, track_id: self.track_id.clone() }
    }
}

/// Keeps the Hall of Fame lines of circuits other than `track_id`.
pub open spec fn other_track_records(track_id: Seq<char>) -> spec_fn(HofEntry) -> bool {
    |e: HofEntry| e.track_id@ != track_id
}

/// The Hall of Fame cache without the lines of circuit `track_id`, in the same order.
pub fn forget_track_records(entries: &Vec<HofEntry>, track_id: &String) -> (r: Vec<HofEntry>)
    ensures
        r@ == entries@.filter(other_track_records(track_id@)),
{
    let ghost pred = other_track_records(track_id@);
    let mut r: Vec<HofEntry> = Vec::new();
    let mut k: usize = 0;
    assert(entries@.take(0) =~= Seq::<HofEntry>::empty());
    proof {
        reveal_with_fuel(Seq::<_>::filter, 1);
    }
    while k < entries.len()
        invariant
            k <= entries.len(),
            pred == other_track_records(track_id@),
            r@ == entries@.take(k as int).filter(pred),
        decreases entries.len() - k,
    {
        proof {
            reveal_with_fuel(Seq::<_>::filter, 1);
            assert(entries@.take(k + 1).drop_last() =~= entries@.take(k as int));
            assert(entries@.take(k + 1).last() == entries@[k as int]);
        }
        if entries[k].track_id != *track_id {
            r.push(entries[k].duplicate());
        }
        k = k + 1;
    }
    assert(entries@.take(entries.len() as int) =~= entries@);
    r
}

/// Name under which the first player's records are kept in split screen.
pub open spec fn p1_label_spec(alias: Seq<char>) -> Seq<char> {
    alias + " (P1)"@
}

/// Name under which the first player's records are kept in split screen: the alias followed by " (P1)".
pub fn p1_label(alias: &String) -> (r: String)
    ensures
        r@ == p1_label_spec(alias@),
{
    let base: String = alias.clone();
    base.concat(" (P1)")
}

/// Keeps the Hall of Fame lines set under neither the alias nor its P1 label.
pub open spec fn other_driver_records(alias: Seq<char>) -> spec_fn(HofEntry) -> bool {
    |e: HofEntry| e.player_name@ != alias && e.player_name@ != p1_label_spec(alias)
}

/// The Hall of Fame cache without the lines of the driver `alias` (under the
/// alias itself or its P1 label), in the same order.
pub fn forget_driver_records(entries: &Vec<HofEntry>, alias: &String) -> (r: Vec<HofEntry>)
    ensures
        r@ == entries@.filter(other_driver_records(alias@)),
{
    let label = p1_label(alias);
    let ghost pred = other_driver_records(alias@);
    let mut r: Vec<HofEntry> = Vec::new();
    let mut k: usize = 0;
    assert(entries@.take(0) =~= Seq::<HofEntry>::empty());
    proof {
        reveal_with_fuel(Seq::<_>::filter, 1);
    }
    while k < entries.len()
        invariant
            k <= entries.len(),
            pred == other_driver_records(alias@),
            label@ == p1_label_spec(alias@),
            r@ == entries@.take(k as int).filter(pred),
        decreases entries.len() - k,
    {
        proof {
            reveal_with_fuel(Seq::<_>::filter, 1);
            assert(entries@.take(k + 1).drop_last() =~= entries@.take(k as int));
            assert(entries@.take(k + 1).last() == entries@[k as int]);
        }
        if entries[k].player_name != *alias && entries[k].player_name != label {
            r.push(entries[k].duplicate());
        }
        k = k + 1;
    }
    assert(entries@.take(entries.len() as int) =~= entries@);
    r
}

/// Whether some Hall of Fame line has the identifier `id`.
pub open spec fn lists_record(entries: Seq<HofEntry>, id: i64) -> bool {
    exists|k: int| 0 <= k < entries.len() && entries[k].id == Some(id)
}

/// The highlighted recent record, kept only while the cache still lists it.
pub fn keep_recent_record(recent: Option<i64>, entries: &Vec<HofEntry>) -> (r: Option<i64>)
    ensures
        r == match recent {
            Some(id) => if lists_record(entries@, id) {
                Some(id)
            } else {
                None
            },
            None => None,
        },
{
    match recent {
        None => None,
        Some(id) => {
            let mut k: usize = 0;
            while k < entries.len()
                invariant
                    recent == Some(id),
                    k <= entries.len(),
                    forall|m: int| 0 <= m < k ==> entries@[m].id != Some(id),
                decreases entries.len() - k,
            {
                if entries[k].id == Some(id) {
                    assert(lists_record(entries@, id));
                    return Some(id);
                }
                k = k + 1;
            }
            None
        },
    }
}

/// Keeps the history lines of circuits other than `track_id`.
pub open spec fn other_track_history(track_id: Seq<char>) -> spec_fn(HistoryEntry) -> bool {
    |e: HistoryEntry| e.track_id@ != track_id
}

/// The race history without the races on circuit `track_id`, in the same order.
pub fn forget_track_history(entries: &Vec<HistoryEntry>, track_id: &String) -> (r: Vec<HistoryEntry>)
    ensures
        r@ == entries@.filter(other_track_history(track_id@)),
{
    let ghost pred = other_track_history(track_id@);
    let mut r: Vec<HistoryEntry> = Vec::new();
    let mut k: usize = 0;
    assert(entries@.take(0) =~= Seq::<HistoryEntry>::empty());
    proof {
        reveal_with_fuel(Seq::<_>::filter, 1);
    }
    while k < entries.len()
        invariant
            k <= entries.len(),
            pred == other_track_history(track_id@),
            r@ == entries@.take(k as int).filter(pred),
        decreases entries.len() - k,
    {
        proof {
            reveal_with_fuel(Seq::<_>::filter, 1);
            assert(entries@.take(k + 1).drop_last() =~= entries@.take(k as int));
            assert(entries@.take(k + 1).last() == entries@[k as int]);
        }
        if entries[k].track_id != *track_id {
            r.push(entries[k].duplicate());
        }
        k = k + 1;
    }
    assert(entries@.take(entries.len() as int) =~= entries@);
    r
}

/// Keeps the history lines of profiles other than `profile_id`.
pub open spec fn other_profile_history(profile_id: i64) -> spec_fn(HistoryEntry) -> bool {
    |e: HistoryEntry| e.profile_id != profile_id
}

/// The race history after clearing a profile's history: empty when it is the
/// active profile (whose history the cache holds), else without that
/// profile's races, in the same order.
pub fn forget_profile_history(entries: &Vec<HistoryEntry>, profile_id: i64, is_active_profile: bool) -> (r:
    Vec<HistoryEntry>)
    ensures
        is_active_profile ==> r@ == Seq::<HistoryEntry>::empty(),
        !is_active_profile ==> r@ == entries@.filter(other_profile_history(profile_id)),
{
    if is_active_profile {
        return Vec::new();
    }
    let ghost pred = other_profile_history(profile_id);
    let mut r: Vec<HistoryEntry> = Vec::new();
    let mut k: usize = 0;
    assert(entries@.take(0) =~= Seq::<HistoryEntry>::empty());
    proof {
        reveal_with_fuel(Seq::<_>::filter, 1);
    }
    while k < entries.len()
        invariant
            k <= entries.len(),
            pred == other_profile_history(profile_id),
            r@ == entries@.take(k as int).filter(pred),
        decreases entries.len() - k,
    {
        proof {
            reveal_with_fuel(Seq::<_>::filter, 1);
            assert(entries@.take(k + 1).drop_last() =~= entries@.take(k as int));
            assert(entries@.take(k + 1).last() == entries@[k as int]);
        }
        if entries[k].profile_id != profile_id {
            r.push(entries[k].duplicate());
        }
        k = k + 1;
    }
    assert(entries@.take(entries.len() as int) =~= entries@);
    r
}

/// After a circuit's records are cleared, no line of that circuit is left,
/// and every line of another circuit is still there.
pub proof fn lemma_cleared_track_is_gone(entries: Seq<HofEntry>, track_id: Seq<char>)
    ensures
        forall|k: int|
            0 <= k < entries.filter(other_track_records(track_id)).len() ==> (#[trigger] entries.filter(
                other_track_records(track_id),
            )[k]).track_id@ != track_id,
        forall|k: int|
            0 <= k < entries.len() && entries[k].track_id@ != track_id ==> entries.filter(
                other_track_records(track_id),
            ).contains(#[trigger] entries[k]),
{
    broadcast use vstd::seq_lib::group_filter_ensures;

    assert forall|k: int|
        0 <= k < entries.filter(other_track_records(track_id)).len() implies (#[trigger] entries.filter(
        other_track_records(track_id),
    )[k]).track_id@ != track_id by {
        entries.lemma_filter_pred(other_track_records(track_id), k);
    }
    assert forall|k: int|
        0 <= k < entries.len() && entries[k].track_id@ != track_id implies entries.filter(
        other_track_records(track_id),
    ).contains(#[trigger] entries[k]) by {
        entries.lemma_filter_contains(other_track_records(track_id), k);
    }
}

/// Lower-case form of a text, as `str::to_lowercase` computes it.
pub uninterp spec fn lowercase_of(s: Seq<char>) -> Seq<char>;

/// Calls `str::to_lowercase` (std): its result is named `lowercase_of` of the
/// text; nothing more of Unicode case mapping is stated.
#[verifier::external_body]
pub(crate) fn lowercase(s: &str) -> (r: String)
    ensures
        r@ == lowercase_of(s@),
{
    s.to_lowercase()
}

/// A human driver whose records survive clearing the bots' history.
#[derive(Debug, Clone)]
pub struct HumanDriver {
    pub name: String,
    pub alias: String,
}

/// Lower-case names under which a human's records may stand: the name, the
/// alias, and the alias with the " (p1)" suffix.
pub open spec fn human_keys_of(d: HumanDriver) -> Seq<Seq<char>> {
    seq![lowercase_of(d.name@), lowercase_of(d.alias@), lowercase_of(d.alias@ + " (p1)"@)]
}

/// Whether `key` is one of the lower-case names of the humans, or the second player's label.
pub open spec fn is_human_key(humans: Seq<HumanDriver>, key: Seq<char>) -> bool {
    key == "player 2 (p2)"@ || exists|k: int| 0 <= k < humans.len() && human_keys_of(humans[k]).contains(key)
}

/// Keeps the Hall of Fame lines whose lower-cased name is a human's.
pub open spec fn human_records(humans: Seq<HumanDriver>) -> spec_fn(HofEntry) -> bool {
    |e: HofEntry| is_human_key(humans, lowercase_of(e.player_name@))
}

fn is_listed_key(keys: &Vec<String>, key: &String) -> (r: bool)
    ensures
        r == keys@.map_values(|t: String| t@).contains(key@),
{
    let ghost views = keys@.map_values(|t: String| t@);
    let mut k: usize = 0;
    while k < keys.len()
        invariant
            k <= keys.len(),
            views == keys@.map_values(|t: String| t@),
            forall|m: int| 0 <= m < k ==> keys@[m]@ != key@,
        decreases keys.len() - k,
    {
        if keys[k] == *key {
            assert(views[k as int] == key@);
            return true;
        }
        k = k + 1;
    }
    assert forall|m: int| 0 <= m < views.len() implies views[m] != key@ by {
        assert(views[m] == keys@[m]@);
    }
    false
}

fn human_keys(humans: &Vec<HumanDriver>) -> (keys: Vec<String>)
    ensures
        forall|key: Seq<char>|
            #![trigger is_human_key(humans@, key)]
            keys@.map_values(|t: String| t@).contains(key) <==> is_human_key(humans@, key),
{
    let mut keys: Vec<String> = Vec::new();
    let mut k: usize = 0;
    let p2 = "player 2 (p2)".to_owned();
    keys.push(p2);
    while k < humans.len()
        invariant
            k <= humans.len(),
            keys@.len() == 1 + 3 * k,
            keys@[0]@ == "player 2 (p2)"@,
            forall|j: int, i: int|
                0 <= j < k && 0 <= i < 3 ==> #[trigger] keys@[1 + 3 * j + i]@ == human_keys_of(
                    humans@[j],
                )[i],
        decreases humans.len() - k,
    {
        let d = &humans[k];
        let with_suffix: String = d.alias.clone().concat(" (p1)");
        keys.push(lowercase(d.name.as_str()));
        keys.push(lowercase(d.alias.as_str()));
        keys.push(lowercase(with_suffix.as_str()));
        k = k + 1;
    }
    let ghost views = keys@.map_values(|t: String| t@);
    assert forall|key: Seq<char>| #![trigger is_human_key(humans@, key)]
        views.contains(key) <==> is_human_key(humans@, key) by {
        if views.contains(key) {
            let w = choose|w: int| 0 <= w < views.len() && views[w] == key;
            if w > 0 {
                let j = (w - 1) / 3;
                let i = (w - 1) % 3;
                assert(1 + 3 * j + i == w);
                assert(keys@[1 + 3 * j + i]@ == human_keys_of(humans@[j])[i]);
                assert(human_keys_of(humans@[j]).contains(key));
            }
        }
        if is_human_key(humans@, key) {
            if key == "player 2 (p2)"@ {
                assert(views[0] == key);
            } else {
                let j = choose|j: int| 0 <= j < humans.len() && human_keys_of(humans@[j]).contains(key);
                let i = choose|i: int| 0 <= i < 3 && human_keys_of(humans@[j])[i] == key;
                assert(keys@[1 + 3 * j + i]@ == key);
                assert(views[1 + 3 * j + i] == key);
            }
        }
    }
    keys
}

/// The Hall of Fame cache after the bots' records are cleared: only the lines
/// whose lower-cased name is a human's (a profile's name, alias or alias with
/// " (p1)", or "player 2 (p2)") remain, in the same order.
pub fn keep_human_records(entries: &Vec<HofEntry>, humans: &Vec<HumanDriver>) -> (r: Vec<HofEntry>)
    ensures
        r@ == entries@.filter(human_records(humans@)),
{
    let keys = human_keys(humans);
    let ghost pred = human_records(humans@);
    let mut r: Vec<HofEntry> = Vec::new();
    let mut k: usize = 0;
    assert(entries@.take(0) =~= Seq::<HofEntry>::empty());
    proof {
        reveal_with_fuel(Seq::<_>::filter, 1);
    }
    while k < entries.len()
        invariant
            k <= entries.len(),
            pred == human_records(humans@),
            forall|key: Seq<char>|
                #![trigger is_human_key(humans@, key)]
                keys@.map_values(|t: String| t@).contains(key) <==> is_human_key(humans@, key),
            r@ == entries@.take(k as int).filter(pred),
        decreases entries.len() - k,
    {
        proof {
            reveal_with_fuel(Seq::<_>::filter, 1);
            assert(entries@.take(k + 1).drop_last() =~= entries@.take(k as int));
            assert(entries@.take(k + 1).last() == entries@[k as int]);
        }
        let key = lowercase(entries[k].player_name.as_str());
        let keep = is_listed_key(&keys, &key);
        assert(keep == is_human_key(humans@, key@));
        if keep {
            r.push(entries[k].duplicate());
        }
        k = k + 1;
    }
    assert(entries@.take(entries.len() as int) =~= entries@);
    r
}

} // verus!
