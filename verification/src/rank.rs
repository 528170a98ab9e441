//! Leaderboard ranker: the total ranking order over run records, the
//! category/track filter, and the deterministic ranked view.

use vstd::prelude::*;

use crate::gamedata::Category;
use crate::gamedata::DateStamp;
use crate::gamedata::Run;
use crate::gamedata::Track;
use crate::gamedata::date_stamp_cmp;
use crate::gamedata::difficulty_index;
use crate::gamedata::ord_then;
use crate::gamedata::track_eq;
use crate::gamedata::track_tier;
use crate::text::chars_cmp;
use crate::text::int_cmp;
use crate::text::lemma_chars_cmp_antisym;
use crate::text::lemma_chars_cmp_eq;
use crate::text::lemma_chars_cmp_trans;
use crate::text::str_cmp;

verus! {

/// The ranking comparison: in-game time ascending, then difficulty
/// descending (harder first), then patch descending (newer first), then
/// submission date ascending (earlier first), then runner ascending.
pub open spec fn run_cmp(a: Run, b: Run) -> core::cmp::Ordering {
    ord_then(
        int_cmp(a.igt_ms as int, b.igt_ms as int),
        ord_then(
            int_cmp(difficulty_index(b.difficulty), difficulty_index(a.difficulty)),
            ord_then(
                chars_cmp(b.patch_release_date@, a.patch_release_date@),
                ord_then(
                    date_stamp_cmp(a.submission_date, b.submission_date),
                    chars_cmp(a.runner@, b.runner@),
                ),
            ),
        ),
    )
}

/// `a` ranks no worse than `b`.
pub open spec fn run_le(a: Run, b: Run) -> bool {
    run_cmp(a, b) != core::cmp::Ordering::Greater
}

/// `a` and `b` tie on every ranking field.
pub open spec fn key_eq(a: Run, b: Run) -> bool {
    run_cmp(a, b) == core::cmp::Ordering::Equal
}

/// Two timestamps compare `Equal` exactly when they are the same
/// timestamp.
pub proof fn lemma_date_cmp_eq(a: DateStamp, b: DateStamp)
    ensures
        date_stamp_cmp(a, b) == core::cmp::Ordering::Equal <==> a == b,
{
}

/// Timestamp comparison is antisymmetric.
pub proof fn lemma_date_cmp_antisym(a: DateStamp, b: DateStamp)
    ensures
        date_stamp_cmp(a, b) == core::cmp::Ordering::Less <==> date_stamp_cmp(b, a)
            == core::cmp::Ordering::Greater,
{
}

/// Timestamp comparison is transitive in `Less`.
pub proof fn lemma_date_cmp_trans(a: DateStamp, b: DateStamp, c: DateStamp)
    requires
        date_stamp_cmp(a, b) == core::cmp::Ordering::Less,
        date_stamp_cmp(b, c) == core::cmp::Ordering::Less,
    ensures
        date_stamp_cmp(a, c) == core::cmp::Ordering::Less,
{
}

/// Two runs tie on every ranking field exactly when their in-game time,
/// difficulty, patch, submission date and runner coincide. The track
/// and the category are not ranking fields: the filter has already
/// fixed the track, and a category difference alone does not order two
/// runs.
pub proof fn lemma_run_cmp_eq(a: Run, b: Run)
    ensures
        key_eq(a, b) <==> (a.igt_ms == b.igt_ms && a.difficulty == b.difficulty
            && a.patch_release_date@ == b.patch_release_date@ && a.submission_date
            == b.submission_date && a.runner@ == b.runner@),
{
    lemma_chars_cmp_eq(b.patch_release_date@, a.patch_release_date@);
    lemma_chars_cmp_eq(a.runner@, b.runner@);
    lemma_date_cmp_eq(a.submission_date, b.submission_date);
}

/// The ranking comparison is antisymmetric: swapping the arguments
/// swaps `Less` and `Greater`.
pub proof fn lemma_run_cmp_antisym(a: Run, b: Run)
    ensures
        run_cmp(a, b) == core::cmp::Ordering::Less <==> run_cmp(b, a)
            == core::cmp::Ordering::Greater,
        run_cmp(a, b) == core::cmp::Ordering::Equal <==> run_cmp(b, a)
            == core::cmp::Ordering::Equal,
{
    lemma_chars_cmp_antisym(b.patch_release_date@, a.patch_release_date@);
    lemma_chars_cmp_antisym(a.patch_release_date@, b.patch_release_date@);
    lemma_chars_cmp_eq(b.patch_release_date@, a.patch_release_date@);
    lemma_chars_cmp_eq(a.patch_release_date@, b.patch_release_date@);
    lemma_chars_cmp_antisym(a.runner@, b.runner@);
    lemma_chars_cmp_antisym(b.runner@, a.runner@);
    lemma_chars_cmp_eq(a.runner@, b.runner@);
    lemma_chars_cmp_eq(b.runner@, a.runner@);
    lemma_date_cmp_antisym(a.submission_date, b.submission_date);
    lemma_date_cmp_antisym(b.submission_date, a.submission_date);
    lemma_date_cmp_eq(a.submission_date, b.submission_date);
    lemma_date_cmp_eq(b.submission_date, a.submission_date);
}

/// The ranking order is transitive.
pub proof fn lemma_run_le_trans(a: Run, b: Run, c: Run)
    requires
        run_le(a, b),
        run_le(b, c),
    ensures
        run_le(a, c),
{
    lemma_chars_cmp_eq(b.patch_release_date@, a.patch_release_date@);
    lemma_chars_cmp_eq(c.patch_release_date@, b.patch_release_date@);
    lemma_chars_cmp_eq(c.patch_release_date@, a.patch_release_date@);
    lemma_chars_cmp_eq(a.runner@, b.runner@);
    lemma_chars_cmp_eq(b.runner@, c.runner@);
    lemma_chars_cmp_eq(a.runner@, c.runner@);
    lemma_date_cmp_eq(a.submission_date, b.submission_date);
    lemma_date_cmp_eq(b.submission_date, c.submission_date);
    lemma_chars_cmp_antisym(c.patch_release_date@, a.patch_release_date@);
    lemma_chars_cmp_antisym(a.runner@, c.runner@);
    lemma_date_cmp_antisym(a.submission_date, c.submission_date);
    if chars_cmp(b.patch_release_date@, a.patch_release_date@) == core::cmp::Ordering::Less
        && chars_cmp(c.patch_release_date@, b.patch_release_date@) == core::cmp::Ordering::Less {
        lemma_chars_cmp_trans(c.patch_release_date@, b.patch_release_date@, a.patch_release_date@);
    }
    if chars_cmp(a.runner@, b.runner@) == core::cmp::Ordering::Less && chars_cmp(
        b.runner@,
        c.runner@,
    ) == core::cmp::Ordering::Less {
        lemma_chars_cmp_trans(a.runner@, b.runner@, c.runner@);
    }
    if date_stamp_cmp(a.submission_date, b.submission_date) == core::cmp::Ordering::Less
        && date_stamp_cmp(b.submission_date, c.submission_date) == core::cmp::Ordering::Less {
        lemma_date_cmp_trans(a.submission_date, b.submission_date, c.submission_date);
    }
}

/// Whether a run belongs on the leaderboard for the selected track and
/// category: the track must match, and the category must match or be
/// `P` when `Any` is selected — the most restrictive category also
/// qualifies for the least restrictive leaderboard.
pub open spec fn included(r: Run, track: Track, cat: Category) -> bool {
    track_eq(r.track, track) && (r.category == cat || (cat == Category::Any && r.category
        == Category::P))
}

/// The runs of `s` from position `i` on that belong on the leaderboard,
/// in their original order.
pub open spec fn filtered_from(s: Seq<Run>, track: Track, cat: Category, i: int) -> Seq<Run>
    decreases s.len() - i,
{
    if i < 0 || i >= s.len() {
        Seq::empty()
    } else if included(s[i], track, cat) {
        seq![s[i]] + filtered_from(s, track, cat, i + 1)
    } else {
        filtered_from(s, track, cat, i + 1)
    }
}

/// The runs of `s` that belong on the leaderboard, in their original
/// order.
pub open spec fn filtered(s: Seq<Run>, track: Track, cat: Category) -> Seq<Run> {
    filtered_from(s, track, cat, 0)
}

/// Whether two runs of `s` at different positions tie on every ranking
/// field.
pub open spec fn has_dup_pair(s: Seq<Run>) -> bool {
    exists|i: int, j: int| 0 <= i < j < s.len() && key_eq(s[i], s[j])
}

/// Whether a sequence of runs is ordered by the ranking comparison.
pub open spec fn runs_sorted(s: Seq<Run>) -> bool {
    forall|i: int, j: int| 0 <= i < j < s.len() ==> run_le(s[i], s[j])
}

/// Whether a run belongs on the leaderboard, implementing [`included`].
pub fn run_included(r: &Run, track: &Track, cat: Category) -> (b: bool)
    ensures
        b == included(*r, *track, cat),
{
    r.track.same_track(track) && (r.category == cat || (matches!(cat, Category::Any) && matches!(
        r.category,
        Category::P,
    )))
}

/// Keep the runs that belong on the leaderboard, implementing
/// [`filtered`].
fn filter_runs(runs: &Vec<Run>, track: &Track, cat: Category) -> (out: Vec<Run>)
    ensures
        out@ == filtered(runs@, *track, cat),
{
    filter_runs_from(runs, track, cat, 0)
}

fn filter_runs_from(runs: &Vec<Run>, track: &Track, cat: Category, i: usize) -> (out: Vec<Run>)
    requires
        i <= runs.len(),
    ensures
        out@ == filtered_from(runs@, *track, cat, i as int),
    decreases runs.len() - i,
{
    if i == runs.len() {
        let out: Vec<Run> = Vec::new();
        proof {
            assert(out@ =~= Seq::<Run>::empty());
        }
        out
    } else {
        let mut rest = filter_runs_from(runs, track, cat, i + 1);
        if run_included(&runs[i], track, cat) {
            let ghost spec_rest = rest@;
            let x = runs[i].clone();
            let ghost spec_x = x;
            let mut out: Vec<Run> = Vec::new();
            out.push(x);
            out.append(&mut rest);
            proof {
                assert(out@ =~= seq![spec_x] + spec_rest);
            }
            out
        } else {
            rest
        }
    }
}

/// Whether some two runs tie on every ranking field, implementing
/// [`has_dup_pair`].
fn find_duplicate(f: &Vec<Run>) -> (b: bool)
    ensures
        b == has_dup_pair(f@),
{
    let n = f.len();
    let mut i: usize = 0;
    while i < n
        invariant
            i <= n,
            n == f.len(),
            forall|p: int, q: int| 0 <= p < q < n && p < i ==> !key_eq(f@[p], f@[q]),
        decreases n - i,
    {
        let mut j: usize = i + 1;
        while j < n
            invariant
                i < j <= n || (i + 1 == j && j > n),
                i < n,
                n == f.len(),
                forall|q: int| i < q < j ==> !key_eq(f@[i as int], f@[q]),
            decreases n - j,
        {
            if matches!(rank_cmp(&f[i], &f[j]), core::cmp::Ordering::Equal) {
                proof {
                    assert(0 <= i < j < f@.len() && key_eq(f@[i as int], f@[j as int]));
                }
                return true;
            }
            j = j + 1;
        }
        i = i + 1;
    }
    false
}

/// The multiset of an insertion is the multiset plus the new element.
proof fn lemma_insert_multiset(s: Seq<Run>, pos: int, x: Run)
    requires
        0 <= pos <= s.len(),
    ensures
        s.insert(pos, x).to_multiset() == s.to_multiset().insert(x),
{
    broadcast use vstd::seq_lib::group_to_multiset_ensures;

    let left = s.subrange(0, pos);
    let right = s.subrange(pos, s.len() as int);
    vstd::seq_lib::lemma_multiset_commutative(left.push(x), right);
    vstd::seq_lib::lemma_multiset_commutative(left, right);
    assert(s =~= left + right);
    assert(s.insert(pos, x).to_multiset() =~= s.to_multiset().insert(x));
}

/// Sort runs by the ranking comparison; the collection of runs is
/// unchanged.
fn sort_runs(runs: &Vec<Run>) -> (out: Vec<Run>)
    ensures
        runs_sorted(out@),
        out@.to_multiset() == runs@.to_multiset(),
{
    broadcast use vstd::seq_lib::group_to_multiset_ensures;

    let mut out: Vec<Run> = Vec::new();
    let mut idx: usize = 0;
    proof {
        assert(runs@.subrange(0, 0) =~= Seq::<Run>::empty());
        assert(out@ =~= Seq::<Run>::empty());
    }
    while idx < runs.len()
        invariant
            idx <= runs.len(),
            runs_sorted(out@),
            out@.to_multiset() == runs@.subrange(0, idx as int).to_multiset(),
        decreases runs.len() - idx,
    {
        broadcast use vstd::seq_lib::group_to_multiset_ensures;

        let x = runs[idx].clone();
        let ghost old_out = out@;
        let mut j: usize = 0;
        loop
            invariant
                j <= out.len(),
                out@ == old_out,
                forall|k: int| 0 <= k < j ==> run_le(out@[k], x),
            ensures
                j <= out@.len(),
                out@ == old_out,
                forall|k: int| 0 <= k < j ==> run_le(out@[k], x),
                j == out@.len() || run_cmp(out@[j as int], x) == core::cmp::Ordering::Greater,
            decreases out.len() - j,
        {
            if j == out.len() {
                break ;
            }
            if matches!(rank_cmp(&out[j], &x), core::cmp::Ordering::Greater) {
                break ;
            }
            j = j + 1;
        }
        out.insert(j, x);
        proof {
            old_out.insert_ensures(j as int, x);
            let jj = j as int;
            assert forall|p: int, q: int| 0 <= p < q < out@.len() implies run_le(
                out@[p],
                out@[q],
            ) by {
                if q == jj {
                    assert(run_le(out@[p], x));
                } else if p == jj {
                    lemma_run_cmp_antisym(old_out[jj], x);
                    assert(run_le(x, old_out[jj]));
                    if q - 1 > jj {
                        lemma_run_le_trans(x, old_out[jj], old_out[q - 1]);
                    }
                } else if p < jj && q > jj {
                    if p == q - 1 {
                        lemma_run_cmp_eq(old_out[p], old_out[p]);
                    }
                }
            }
            lemma_insert_multiset(old_out, jj, x);
            assert(runs@.subrange(0, idx as int + 1) =~= runs@.subrange(0, idx as int).push(
                runs@[idx as int],
            ));
        }
        idx = idx + 1;
    }
    proof {
        assert(runs@.subrange(0, idx as int) =~= runs@);
    }
    out
}

/// The tracks of `s` from position `i` on whose tier is `tier`, in
/// their original order.
pub open spec fn tracks_of_tier_from(s: Seq<Track>, tier: int, i: int) -> Seq<Track>
    decreases s.len() - i,
{
    if i < 0 || i >= s.len() {
        Seq::empty()
    } else if track_tier(s[i]) == tier {
        seq![s[i]] + tracks_of_tier_from(s, tier, i + 1)
    } else {
        tracks_of_tier_from(s, tier, i + 1)
    }
}

/// `s` with every track that repeats its predecessor removed.
pub open spec fn dedup_adjacent_from(s: Seq<Track>, i: int) -> Seq<Track>
    decreases s.len() - i,
{
    if i < 0 || i >= s.len() {
        Seq::empty()
    } else if i == 0 || !track_eq(s[i], s[i - 1]) {
        seq![s[i]] + dedup_adjacent_from(s, i + 1)
    } else {
        dedup_adjacent_from(s, i + 1)
    }
}

/// The entries of a track selector built from the tracks of `s`: the
/// tracks grouped by tier from the coarsest down — which is a stable
/// sort under the tier-only comparison, descending — with adjacent
/// repeats removed.
pub open spec fn track_options_spec(s: Seq<Track>) -> Seq<Track> {
    dedup_adjacent_from(
        tracks_of_tier_from(s, 3, 0) + tracks_of_tier_from(s, 2, 0) + tracks_of_tier_from(s, 1, 0)
            + tracks_of_tier_from(s, 0, 0),
        0,
    )
}

fn tracks_of_tier_exec(s: &Vec<Track>, tier: u8, i: usize) -> (out: Vec<Track>)
    requires
        i <= s.len(),
    ensures
        out@ == tracks_of_tier_from(s@, tier as int, i as int),
    decreases s.len() - i,
{
    if i == s.len() {
        let out: Vec<Track> = Vec::new();
        proof {
            assert(out@ =~= Seq::<Track>::empty());
        }
        out
    } else {
        let mut rest = tracks_of_tier_exec(s, tier, i + 1);
        if s[i].tier() == tier {
            let ghost spec_rest = rest@;
            let x = s[i].clone();
            let ghost spec_x = x;
            let mut out: Vec<Track> = Vec::new();
            out.push(x);
            out.append(&mut rest);
            proof {
                assert(out@ =~= seq![spec_x] + spec_rest);
            }
            out
        } else {
            rest
        }
    }
}

fn dedup_adjacent_exec(s: &Vec<Track>, i: usize) -> (out: Vec<Track>)
    requires
        i <= s.len(),
    ensures
        out@ == dedup_adjacent_from(s@, i as int),
    decreases s.len() - i,
{
    if i == s.len() {
        let out: Vec<Track> = Vec::new();
        proof {
            assert(out@ =~= Seq::<Track>::empty());
        }
        out
    } else {
        let mut rest = dedup_adjacent_exec(s, i + 1);
        if i == 0 || !s[i].same_track(&s[i - 1]) {
            let ghost spec_rest = rest@;
            let x = s[i].clone();
            let ghost spec_x = x;
            let mut out: Vec<Track> = Vec::new();
            out.push(x);
            out.append(&mut rest);
            proof {
                assert(out@ =~= seq![spec_x] + spec_rest);
            }
            out
        } else {
            rest
        }
    }
}

/// Build the entries of a track selector, implementing
/// [`track_options_spec`]: every track present, coarsest tier first,
/// document order kept within a tier, adjacent repeats removed.
pub fn track_options(tracks: &Vec<Track>) -> (out: Vec<Track>)
    ensures
        out@ == track_options_spec(tracks@),
{
    let mut ordered = tracks_of_tier_exec(tracks, 3, 0);
    let mut acts = tracks_of_tier_exec(tracks, 2, 0);
    let mut layers = tracks_of_tier_exec(tracks, 1, 0);
    let mut levels = tracks_of_tier_exec(tracks, 0, 0);
    let ghost g0 = ordered@;
    let ghost g1 = acts@;
    let ghost g2 = layers@;
    let ghost g3 = levels@;
    ordered.append(&mut acts);
    ordered.append(&mut layers);
    ordered.append(&mut levels);
    proof {
        assert(ordered@ =~= g0 + g1 + g2 + g3);
    }
    dedup_adjacent_exec(&ordered, 0)
}

/// Why a ranked view could not be produced: two runs collide on every
/// ranking field, a data-integrity error.
#[derive(Debug, Clone, Copy, PartialEq, Eq, Structural)]
pub enum RankError {
    DuplicateRecord,
}

/// Produce the leaderboard for the selected track and category: the
/// included runs in ranking order, each with its one-based rank. Fails
/// with [`RankError::DuplicateRecord`] exactly when two included runs
/// tie on every ranking field; otherwise the output is the unique
/// sorted arrangement of the filtered runs, so repeated calls on the
/// same input yield the same output.
pub fn rank(runs: &Vec<Run>, selected_track: &Track, selected_category: Category) -> (r: Result<
    Vec<(usize, Run)>,
    RankError,
>)
    ensures
        ({
            let f = filtered(runs@, *selected_track, selected_category);
            match r {
                Ok(out) => {
                    &&& !has_dup_pair(f)
                    &&& out@.len() == f.len()
                    &&& out@.map_values(|p: (usize, Run)| p.1).to_multiset() == f.to_multiset()
                    &&& runs_sorted(out@.map_values(|p: (usize, Run)| p.1))
                    &&& forall|i: int| 0 <= i < out@.len() ==> (#[trigger] out@[i]).0 == i + 1
                },
                Err(e) => e == RankError::DuplicateRecord && has_dup_pair(f),
            }
        }),
{
    broadcast use vstd::seq_lib::group_to_multiset_ensures;

    let f = filter_runs(runs, selected_track, selected_category);
    if find_duplicate(&f) {
        return Err(RankError::DuplicateRecord);
    }
    let s = sort_runs(&f);
    let ghost spec_s = s@;
    proof {
        assert(s@.to_multiset().len() == f@.to_multiset().len());
    }
    let mut out: Vec<(usize, Run)> = Vec::new();
    let n = s.len();
    let mut i: usize = 0;
    while i < n
        invariant
            i <= n,
            n == s.len(),
            s@ == spec_s,
            out@.len() == i,
            forall|k: int| 0 <= k < i ==> (#[trigger] out@[k]).0 == k + 1,
            forall|k: int| 0 <= k < i ==> (#[trigger] out@[k]).1 == s@[k],
        decreases n - i,
    {
        out.push((i + 1, s[i].clone()));
        i = i + 1;
    }
    proof {
        assert(out@.map_values(|p: (usize, Run)| p.1) =~= s@);
    }
    Ok(out)
}

/// Three-way ranking comparison of two runs, implementing [`run_cmp`].
pub fn rank_cmp(a: &Run, b: &Run) -> (r: core::cmp::Ordering)
    ensures
        r == run_cmp(*a, *b),
{
    let o = if a.igt_ms < b.igt_ms {
        core::cmp::Ordering::Less
    } else if a.igt_ms > b.igt_ms {
        core::cmp::Ordering::Greater
    } else {
        core::cmp::Ordering::Equal
    };
    if !matches!(o, core::cmp::Ordering::Equal) {
        return o;
    }
    let da = a.difficulty.index();
    let db = b.difficulty.index();
    let o = if db < da {
        core::cmp::Ordering::Less
    } else if db > da {
        core::cmp::Ordering::Greater
    } else {
        core::cmp::Ordering::Equal
    };
    if !matches!(o, core::cmp::Ordering::Equal) {
        return o;
    }
    let o = str_cmp(b.patch_release_date.as_str(), a.patch_release_date.as_str());
    if !matches!(o, core::cmp::Ordering::Equal) {
        return o;
    }
    let o = a.submission_date.cmp(&b.submission_date);
    if !matches!(o, core::cmp::Ordering::Equal) {
        return o;
    }
    str_cmp(a.runner.as_str(), b.runner.as_str())
}

} // verus!
