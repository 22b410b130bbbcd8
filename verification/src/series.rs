//! Championship series bookkeeping: which saved season a series resumes,
//! which seasons a reset clears, and the round a new season starts from.
use vstd::prelude::*;
use crate::records::{lowercase, lowercase_of};

verus! {

/// Code of `c` with ASCII capitals folded to small letters.
pub open spec fn ascii_fold(c: char) -> u32 {
    if 'A' <= c && c <= 'Z' {
        (c as u32 + 32) as u32
    } else {
        c as u32
    }
}

/// Whether two texts match ignoring ASCII case, as `str::eq_ignore_ascii_case`
/// compares them.
pub open spec fn eq_ignore_ascii_case_spec(a: Seq<char>, b: Seq<char>) -> bool {
    a.len() == b.len() && forall|k: int| 0 <= k < a.len() ==> ascii_fold(#[trigger] a[k]) == ascii_fold(b[k])
}

/// Whether `needle` occurs in `hay` as a run of consecutive characters.
pub open spec fn contains_text(hay: Seq<char>, needle: Seq<char>) -> bool {
    exists|i: int| 0 <= i && i + needle.len() <= hay.len() && #[trigger] hay.subrange(i, i + needle.len()) == needle
}

/// The characters of `s`.
pub fn chars_of(s: &str) -> (r: Vec<char>)
    ensures
        r@ == s@,
{
    let n = s.unicode_len();
    let mut out: Vec<char> = Vec::new();
    let mut k: usize = 0;
    while k < n
        invariant
            n == s@.len(),
            k <= n,
            out@ =~= s@.subrange(0, k as int),
        decreases n - k,
    {
        out.push(s.get_char(k));
        k = k + 1;
    }
    out
}

fn fold_char(c: char) -> (r: u32)
    ensures
        r == ascii_fold(c),
{
    if 'A' <= c && c <= 'Z' {
        c as u32 + 32
    } else {
        c as u32
    }
}

/// Whether two texts match ignoring ASCII case.
pub fn eq_ignore_ascii_case(a: &Vec<char>, b: &Vec<char>) -> (r: bool)
    ensures
        r == eq_ignore_ascii_case_spec(a@, b@),
{
    if a.len() != b.len() {
        return false;
    }
    let mut k: usize = 0;
    while k < a.len()
        invariant
            a@.len() == b@.len(),
            k <= a@.len(),
            forall|j: int| 0 <= j < k ==> ascii_fold(#[trigger] a@[j]) == ascii_fold(b@[j]),
        decreases a@.len() - k,
    {
        if fold_char(a[k]) != fold_char(b[k]) {
            return false;
        }
        k = k + 1;
    }
    true
}

fn matches_at(hay: &Vec<char>, needle: &Vec<char>, i: usize) -> (r: bool)
    requires
        i + needle@.len() <= hay@.len(),
    ensures
        r == (hay@.subrange(i as int, i + needle@.len()) == needle@),
{
    let hl = hay.len();
    let mut k: usize = 0;
    while k < needle.len()
        invariant
            hl == hay@.len(),
            i + needle@.len() <= hay@.len(),
            k <= needle@.len(),
            forall|j: int| 0 <= j < k ==> hay@[i + j] == needle@[j],
        decreases needle@.len() - k,
    {
        assert(i + k < hay@.len());
        if hay[i + k] != needle[k] {
            assert(hay@.subrange(i as int, i + needle@.len())[k as int] != needle@[k as int]);
            return false;
        }
        k = k + 1;
    }
    assert(hay@.subrange(i as int, i + needle@.len()) =~= needle@);
    true
}

/// Whether `needle` occurs in `hay`, as `str::contains` finds a text in a text.
pub fn contains_chars(hay: &Vec<char>, needle: &Vec<char>) -> (r: bool)
    ensures
        r == contains_text(hay@, needle@),
{
    if needle.len() > hay.len() {
        return false;
    }
    if needle.len() == 0 {
        assert(hay@.subrange(0int, 0int + needle@.len()) =~= needle@);
        return true;
    }
    let hl = hay.len();
    let last = hl - needle.len();
    let mut i: usize = 0;
    while i <= last
        invariant
            hl == hay@.len(),
            last == hay@.len() - needle@.len(),
            0 < needle@.len() <= hay@.len(),
            i <= last + 1,
            forall|j: int| 0 <= j < i ==> #[trigger] hay@.subrange(j, j + needle@.len()) != needle@,
        decreases last + 1 - i,
    {
        if matches_at(hay, needle, i) {
            return true;
        }
        i = i + 1;
    }
    false
}

/// Whether a season named `name` belongs to the series `series_name` /
/// `series_id`: the name equals either ignoring ASCII case, or the lower-case
/// name and series name contain one another.
pub open spec fn series_match_spec(name: Seq<char>, series_name: Seq<char>, series_id: Seq<char>) -> bool {
    eq_ignore_ascii_case_spec(name, series_name) || eq_ignore_ascii_case_spec(name, series_id) || contains_text(
        lowercase_of(name),
        lowercase_of(series_name),
    ) || contains_text(lowercase_of(series_name), lowercase_of(name))
}

/// Whether a season named `name` is cleared by resetting the series
/// `series_name` / `series_id`.
pub fn series_matches(name: &str, series_name: &str, series_id: &str) -> (r: bool)
    ensures
        r == series_match_spec(name@, series_name@, series_id@),
{
    let n = chars_of(name);
    let sn = chars_of(series_name);
    let si = chars_of(series_id);
    if eq_ignore_ascii_case(&n, &sn) || eq_ignore_ascii_case(&n, &si) {
        return true;
    }
    let ln = chars_of(lowercase(name).as_str());
    let lsn = chars_of(lowercase(series_name).as_str());
    contains_chars(&ln, &lsn) || contains_chars(&lsn, &ln)
}

/// A saved season, with what resuming reads of it.
#[derive(Debug, Clone)]
pub struct SavedSeason {
    pub name: String,
    pub tier: u32,
    pub completed: bool,
}

/// Whether a saved season is resumed for the series `series_name` /
/// `series_id` of tier `tier` in a module (`has_module`: the series names
/// its module): not completed, and its name equals either ignoring ASCII
/// case, or the lower-case name and series id contain one another, or it is
/// of the same tier.
pub open spec fn resumes_spec(s: SavedSeason, series_name: Seq<char>, series_id: Seq<char>, tier: u32, has_module: bool) -> bool {
    !s.completed && (eq_ignore_ascii_case_spec(s.name@, series_name) || eq_ignore_ascii_case_spec(
        s.name@,
        series_id,
    ) || contains_text(lowercase_of(s.name@), lowercase_of(series_id)) || contains_text(
        lowercase_of(series_id),
        lowercase_of(s.name@),
    ) || (s.tier == tier && has_module))
}

/// Whether the saved season `s` is resumed for a series (see `resumes_spec`).
pub fn season_resumes(s: &SavedSeason, series_name: &str, series_id: &str, tier: u32, has_module: bool) -> (r: bool)
    ensures
        r == resumes_spec(*s, series_name@, series_id@, tier, has_module),
{
    if s.completed {
        return false;
    }
    let n = chars_of(s.name.as_str());
    let sn = chars_of(series_name);
    let si = chars_of(series_id);
    if eq_ignore_ascii_case(&n, &sn) || eq_ignore_ascii_case(&n, &si) {
        return true;
    }
    let ln = chars_of(lowercase(s.name.as_str()).as_str());
    let lsi = chars_of(lowercase(series_id).as_str());
    contains_chars(&ln, &lsi) || contains_chars(&lsi, &ln) || (s.tier == tier && has_module)
}

/// The season a series resumes: the module's saved season if it matches,
/// else the career's active season if it matches, else the session's
/// current season if it matches; `None` starts a new season.
pub fn season_to_resume(
    module_saved: Option<SavedSeason>,
    career_active: Option<SavedSeason>,
    session: Option<SavedSeason>,
    series_name: &str,
    series_id: &str,
    tier: u32,
    has_module: bool,
) -> (r: Option<SavedSeason>)
    ensures
        r == (if module_saved is Some && resumes_spec(module_saved->0, series_name@, series_id@, tier, has_module) {
            module_saved
        } else if career_active is Some && resumes_spec(career_active->0, series_name@, series_id@, tier, has_module) {
            career_active
        } else if session is Some && resumes_spec(session->0, series_name@, series_id@, tier, has_module) {
            session
        } else {
            None
        }),
{
    if let Some(s) = &module_saved {
        if season_resumes(s, series_name, series_id, tier, has_module) {
            return module_saved;
        }
    }
    if let Some(s) = &career_active {
        if season_resumes(s, series_name, series_id, tier, has_module) {
            return career_active;
        }
    }
    if let Some(s) = &session {
        if season_resumes(s, series_name, series_id, tier, has_module) {
            return session;
        }
    }
    None
}

/// A race of the history, with what the round count reads of it.
#[derive(Debug, Clone)]
pub struct RoundRecord {
    /// Module the race was run in.
    pub category: String,
    pub track_id: String,
    /// Season the race belonged to, if any.
    pub championship: Option<String>,
}

/// Whether a history race counts as a round already run of the series
/// `series_name` in module `module`: same module, and a known circuit or the
/// series' own season.
pub open spec fn counts_as_round(r: RoundRecord, module: Seq<char>, series_name: Seq<char>) -> bool {
    r.category@ == module && (r.track_id@.len() > 0 || (r.championship is Some && r.championship->0@
        == series_name))
}

/// Number of races among the first `k` of `records` that count as rounds.
pub open spec fn rounds_run(records: Seq<RoundRecord>, module: Seq<char>, series_name: Seq<char>, k: int) -> nat
    decreases k,
{
    if k <= 0 {
        0
    } else {
        rounds_run(records, module, series_name, k - 1) + if counts_as_round(records[k - 1], module, series_name) {
            1nat
        } else {
            0nat
        }
    }
}

proof fn lemma_rounds_run_bounded(records: Seq<RoundRecord>, module: Seq<char>, series_name: Seq<char>, k: int)
    requires
        0 <= k,
    ensures
        rounds_run(records, module, series_name, k) <= k,
    decreases k,
{
    if k > 0 {
        lemma_rounds_run_bounded(records, module, series_name, k - 1);
    }
}

/// Round a new season of the series starts from: the number of rounds
/// already run in the history when some but not all of the `calendar_len`
/// rounds are, else the first round.
pub fn starting_round(records: &Vec<RoundRecord>, module: &str, series_name: &str, calendar_len: usize) -> (r: usize)
    ensures
        ({
            let n = rounds_run(records@, module@, series_name@, records@.len() as int);
            r == (if 0 < n && n < calendar_len {
                n as int
            } else {
                0
            })
        }),
{
    let mut count: usize = 0;
    let mut k: usize = 0;
    let m = chars_of(module);
    let sname = chars_of(series_name);
    while k < records.len()
        invariant
            k <= records@.len(),
            m@ == module@,
            sname@ == series_name@,
            count == rounds_run(records@, module@, series_name@, k as int),
        decreases records@.len() - k,
    {
        proof {
            lemma_rounds_run_bounded(records@, module@, series_name@, k as int);
        }
        let rec = &records[k];
        let cat = chars_of(rec.category.as_str());
        let in_module = vec_eq(&cat, &m);
        let counted = in_module && (rec.track_id.as_str().unicode_len() > 0 || match &rec.championship {
            Some(c) => vec_eq(&chars_of(c.as_str()), &sname),
            None => false,
        });
        if counted {
            count = count + 1;
        }
        k = k + 1;
    }
    if 0 < count && count < calendar_len {
        count
    } else {
        0
    }
}

fn vec_eq(a: &Vec<char>, b: &Vec<char>) -> (r: bool)
    ensures
        r == (a@ == b@),
{
    if a.len() != b.len() {
        return false;
    }
    let mut k: usize = 0;
    while k < a.len()
        invariant
            a@.len() == b@.len(),
            k <= a@.len(),
            forall|j: int| 0 <= j < k ==> a@[j] == b@[j],
        decreases a@.len() - k,
    {
        if a[k] != b[k] {
            return false;
        }
        k = k + 1;
    }
    assert(a@ =~= b@);
    true
}

/// A saved season after resetting the series `series_name` / `series_id`:
/// dropped when its name matches the series (see `series_match_spec`), kept
/// otherwise.
pub fn after_reset(saved: Option<SavedSeason>, series_name: &str, series_id: &str) -> (r: Option<SavedSeason>)
    ensures
        r == (if saved is Some && series_match_spec(saved->0.name@, series_name@, series_id@) {
            None
        } else {
            saved
        }),
{
    let drop = match &saved {
        Some(s) => series_matches(s.name.as_str(), series_name, series_id),
        None => false,
    };
    if drop {
        None
    } else {
        saved
    }
}

} // verus!
