//! The library's laws: properties of the decoder's flattening, the
//! ranking order, the category filter, and the ranked view, stated and
//! proved once for all inputs.

use vstd::multiset::Multiset;
use vstd::prelude::*;

use crate::decode::LoadError;
use crate::decode::dec_act_seq;
use crate::decode::dec_fullgame_node;
use crate::decode::dec_layer_node;
use crate::decode::dec_layer_seq;
use crate::decode::dec_level_seq;
use crate::document::DocValue;
use crate::document::table_get;
use crate::gamedata::Category;
use crate::gamedata::Run;
use crate::gamedata::Track;
use crate::gamedata::difficulty_index;
use crate::gamedata::track_eq;
use crate::rank::filtered;
use crate::rank::filtered_from;
use crate::rank::has_dup_pair;
use crate::rank::included;
use crate::rank::key_eq;
use crate::rank::lemma_run_cmp_antisym;
use crate::rank::lemma_run_cmp_eq;
use crate::rank::run_cmp;
use crate::rank::run_le;
use crate::rank::runs_sorted;

verus! {

/// Ordering totality: two runs that differ in runner, in-game time or
/// submission date never tie under the ranking comparison — one of them
/// ranks strictly first, and swapping the arguments swaps the answer.
/// (Two runs differing in nothing but their category do tie: the
/// category is fixed by the filter, not ranked.)
pub proof fn lemma_ordering_totality(a: Run, b: Run)
    requires
        a.runner@ != b.runner@ || a.igt_ms != b.igt_ms || a.submission_date != b.submission_date,
    ensures
        !key_eq(a, b),
        (run_cmp(a, b) == core::cmp::Ordering::Less && run_cmp(b, a)
            == core::cmp::Ordering::Greater) || (run_cmp(a, b) == core::cmp::Ordering::Greater
            && run_cmp(b, a) == core::cmp::Ordering::Less),
{
    lemma_run_cmp_eq(a, b);
    lemma_run_cmp_antisym(a, b);
}

/// Tie-break precedence: at equal in-game time, the run on the harder
/// difficulty ranks first, whatever the remaining fields hold.
pub proof fn lemma_tiebreak_difficulty(a: Run, b: Run)
    requires
        a.igt_ms == b.igt_ms,
        difficulty_index(a.difficulty) > difficulty_index(b.difficulty),
    ensures
        run_cmp(a, b) == core::cmp::Ordering::Less,
{
}

proof fn lemma_filtered_membership(s: Seq<Run>, t: Track, c: Category, i: int, x: Run)
    requires
        0 <= i <= s.len(),
    ensures
        filtered_from(s, t, c, i).contains(x) <==> ((exists|k: int|
            i <= k < s.len() && s[k] == x) && included(x, t, c)),
    decreases s.len() - i,
{
    if i == s.len() {
        assert(!filtered_from(s, t, c, i).contains(x));
    } else {
        lemma_filtered_membership(s, t, c, i + 1, x);
        let rest = filtered_from(s, t, c, i + 1);
        if included(s[i], t, c) {
            let whole = seq![s[i]] + rest;
            assert(whole[0] == s[i]);
            assert forall|p: int| 0 <= p < rest.len() implies whole[p + 1] == rest[p] by {}
            if whole.contains(x) {
                let p = choose|p: int| 0 <= p < whole.len() && whole[p] == x;
                if p == 0 {
                    assert(s[i] == x);
                } else {
                    assert(rest[p - 1] == x);
                    assert(rest.contains(x));
                }
            }
            if s[i] == x && included(x, t, c) {
                assert(whole.contains(x));
            }
            if (exists|k: int| i + 1 <= k < s.len() && s[k] == x) && included(x, t, c) {
                assert(rest.contains(x));
                let p = choose|p: int| 0 <= p < rest.len() && rest[p] == x;
                assert(whole[p + 1] == x);
                assert(whole.contains(x));
            }
        } else {
            if s[i] == x {
                assert(!included(x, t, c));
            }
        }
    }
}

/// Category containment: a run of the selected track recorded in the
/// most restrictive category `P` appears in the filtered set both when
/// `P` and when `Any` is selected, while a `NoMo` run never appears
/// under either selection.
pub proof fn lemma_category_containment(s: Seq<Run>, t: Track, r: Run)
    requires
        s.contains(r),
        track_eq(r.track, t),
    ensures
        r.category == Category::P ==> filtered(s, t, Category::P).contains(r) && filtered(
            s,
            t,
            Category::Any,
        ).contains(r),
        r.category == Category::NoMo ==> !filtered(s, t, Category::Any).contains(r) && !filtered(
            s,
            t,
            Category::P,
        ).contains(r),
{
    lemma_filtered_membership(s, t, Category::P, 0, r);
    lemma_filtered_membership(s, t, Category::Any, 0, r);
}

proof fn lemma_count_two_positions(s: Seq<Run>, x: Run)
    requires
        s.to_multiset().count(x) >= 2,
    ensures
        exists|i: int, j: int| 0 <= i < j < s.len() && s[i] == x && s[j] == x,
    decreases s.len(),
{
    broadcast use vstd::seq_lib::group_to_multiset_ensures;

    if s.len() == 0 {
        assert(s.to_multiset() =~= Multiset::<Run>::empty());
    } else {
        let l = s.drop_last();
        let e = s.last();
        assert(s =~= l.push(e));
        assert(s.to_multiset() == l.push(e).to_multiset());
        assert(l.push(e).to_multiset() =~= l.to_multiset().insert(e));
        if e == x {
            assert(l.to_multiset().count(x) >= 1);
            assert(l.to_multiset().contains(x));
            assert(l.contains(x));
            let i = choose|i: int| 0 <= i < l.len() && l[i] == x;
            assert(s[i] == x && s[s.len() - 1] == x && i < s.len() - 1);
        } else {
            assert(l.to_multiset().count(x) >= 2);
            lemma_count_two_positions(l, x);
            let (i, j) = choose|i: int, j: int| 0 <= i < j < l.len() && l[i] == x && l[j] == x;
            assert(s[i] == x && s[j] == x);
        }
    }
}

/// Idempotence of the ranked view: a collection of runs free of
/// ranking-field duplicates has exactly one sorted arrangement, so any
/// two outputs that meet the ranking contract on the same input are
/// equal, and repeated calls return byte-for-byte the same rows.
pub proof fn lemma_sorted_arrangement_unique(s1: Seq<Run>, s2: Seq<Run>)
    requires
        s1.to_multiset() == s2.to_multiset(),
        runs_sorted(s1),
        runs_sorted(s2),
        !has_dup_pair(s1),
    ensures
        s1 == s2,
    decreases s1.len(),
{
    broadcast use vstd::seq_lib::group_to_multiset_ensures;

    assert(s1.len() == s1.to_multiset().len());
    assert(s2.len() == s2.to_multiset().len());
    if s1.len() == 0 {
        assert(s1 =~= s2);
    } else {
        assert(s2.len() == s1.len());
        let x1 = s1[0];
        let x2 = s2[0];
        assert(s1.contains(x1));
        assert(s1.to_multiset().count(x1) > 0);
        assert(s2.to_multiset().count(x1) > 0);
        assert(s2.contains(x1));
        let p = choose|p: int| 0 <= p < s2.len() && s2[p] == x1;
        assert(s2.contains(x2));
        assert(s2.to_multiset().count(x2) > 0);
        assert(s1.to_multiset().count(x2) > 0);
        assert(s1.contains(x2));
        let q = choose|q: int| 0 <= q < s1.len() && s1[q] == x2;
        if p > 0 {
            assert(run_le(x2, x1));
        } else {
            lemma_run_cmp_eq(x1, x1);
            assert(run_le(x2, x1));
        }
        if q > 0 {
            assert(run_le(x1, x2));
        } else {
            lemma_run_cmp_eq(x2, x2);
            assert(run_le(x1, x2));
        }
        lemma_run_cmp_antisym(x1, x2);
        assert(key_eq(x1, x2));
        if x1 != x2 {
            assert(q != 0);
            assert(0 <= 0 < q < s1.len() && key_eq(s1[0], s1[q]));
            assert(false);
        }
        let t1 = s1.drop_first();
        let t2 = s2.drop_first();
        assert(t1 =~= s1.remove(0));
        assert(t2 =~= s2.remove(0));
        assert(s1.remove(0).to_multiset() =~= s1.to_multiset().remove(x1));
        assert(s2.remove(0).to_multiset() =~= s2.to_multiset().remove(x2));
        assert(t1.to_multiset() == t2.to_multiset());
        assert forall|i: int, j: int| 0 <= i < j < t1.len() implies run_le(t1[i], t1[j]) by {
            assert(t1[i] == s1[i + 1] && t1[j] == s1[j + 1]);
        }
        assert forall|i: int, j: int| 0 <= i < j < t2.len() implies run_le(t2[i], t2[j]) by {
            assert(t2[i] == s2[i + 1] && t2[j] == s2[j + 1]);
        }
        assert(!has_dup_pair(t1)) by {
            if has_dup_pair(t1) {
                let (i, j) = choose|i: int, j: int|
                    0 <= i < j < t1.len() && key_eq(t1[i], t1[j]);
                assert(t1[i] == s1[i + 1] && t1[j] == s1[j + 1]);
                assert(key_eq(s1[i + 1], s1[j + 1]));
                assert(false);
            }
        }
        lemma_sorted_arrangement_unique(t1, t2);
        assert forall|i: int| 0 <= i < s1.len() implies s1[i] == s2[i] by {
            if i > 0 {
                assert(s1[i] == t1[i - 1] && s2[i] == t2[i - 1]);
            }
        }
        assert(s1 =~= s2);
    }
}

/// The sub-collection array under `key` of a table node; empty when
/// the key is absent or holds no array.
pub open spec fn child_array(v: DocValue, key: Seq<char>) -> Seq<DocValue> {
    match v {
        DocValue::Table(e) => match table_get(e@, key) {
            Some(DocValue::Array(c)) => c@,
            _ => Seq::empty(),
        },
        _ => Seq::empty(),
    }
}

proof fn lemma_level_seq_len(vs: Seq<DocValue>, i: int, runs: Seq<Run>)
    requires
        0 <= i <= vs.len(),
        dec_level_seq(vs, i) == Ok::<Seq<Run>, LoadError>(runs),
    ensures
        runs.len() == vs.len() - i,
    decreases vs.len() - i,
{
    if i < vs.len() {
        let rest = dec_level_seq(vs, i + 1);
        lemma_level_seq_len(vs, i + 1, rest->Ok_0);
    }
}

proof fn lemma_layer_node_len(v: DocValue, runs: Seq<Run>)
    requires
        dec_layer_node(v) == Ok::<Seq<Run>, LoadError>(runs),
    ensures
        runs.len() == child_array(v, "levels"@).len() + 1,
{
    let e = v->Table_0;
    let children = child_array(v, "levels"@);
    let inner = dec_level_seq(children, 0);
    lemma_level_seq_len(children, 0, inner->Ok_0);
}

proof fn lemma_layer_seq_len(vs: Seq<DocValue>, i: int, runs: Seq<Run>, k: int)
    requires
        0 <= i <= vs.len(),
        dec_layer_seq(vs, i) == Ok::<Seq<Run>, LoadError>(runs),
        forall|p: int|
            i <= p < vs.len() ==> #[trigger] child_array(vs[p], "levels"@).len() == k,
    ensures
        runs.len() == (vs.len() - i) * (k + 1),
    decreases vs.len() - i,
{
    if i == vs.len() {
        assert((vs.len() - i) * (k + 1) == 0) by (nonlinear_arith)
            requires
                vs.len() == i,
        ;
    } else {
        let own = dec_layer_node(vs[i]);
        let rest = dec_layer_seq(vs, i + 1);
        lemma_layer_node_len(vs[i], own->Ok_0);
        lemma_layer_seq_len(vs, i + 1, rest->Ok_0, k);
        assert((vs.len() - i) * (k + 1) == (k + 1) + (vs.len() - (i + 1)) * (k + 1))
            by (nonlinear_arith)
            requires
                i < vs.len(),
        ;
    }
}

proof fn lemma_act_node_len(v: DocValue, runs: Seq<Run>, l: int, k: int)
    requires
        crate::decode::dec_act_node(v) == Ok::<Seq<Run>, LoadError>(runs),
        child_array(v, "layers"@).len() == l,
        forall|p: int|
            0 <= p < l ==> #[trigger] child_array(
                child_array(v, "layers"@)[p],
                "levels"@,
            ).len() == k,
    ensures
        runs.len() == 1 + l + l * k,
{
    let children = child_array(v, "layers"@);
    let inner = dec_layer_seq(children, 0);
    lemma_layer_seq_len(children, 0, inner->Ok_0, k);
    assert(l * (k + 1) == l + l * k) by (nonlinear_arith);
}

proof fn lemma_act_seq_len(vs: Seq<DocValue>, i: int, runs: Seq<Run>, l: int, k: int)
    requires
        0 <= i <= vs.len(),
        dec_act_seq(vs, i) == Ok::<Seq<Run>, LoadError>(runs),
        forall|p: int|
            i <= p < vs.len() ==> #[trigger] child_array(vs[p], "layers"@).len() == l,
        forall|p: int, q: int|
            i <= p < vs.len() && 0 <= q < l ==> #[trigger] child_array(
                child_array(vs[p], "layers"@)[q],
                "levels"@,
            ).len() == k,
    ensures
        runs.len() == (vs.len() - i) * (1 + l + l * k),
    decreases vs.len() - i,
{
    if i == vs.len() {
        assert((vs.len() - i) * (1 + l + l * k) == 0) by (nonlinear_arith)
            requires
                vs.len() == i,
        ;
    } else {
        let own = crate::decode::dec_act_node(vs[i]);
        let rest = dec_act_seq(vs, i + 1);
        lemma_act_node_len(vs[i], own->Ok_0, l, k);
        lemma_act_seq_len(vs, i + 1, rest->Ok_0, l, k);
        assert((vs.len() - i) * (1 + l + l * k) == (1 + l + l * k) + (vs.len() - (i + 1)) * (1 + l
            + l * k)) by (nonlinear_arith)
            requires
                i < vs.len(),
        ;
    }
}

/// Flattening completeness: a full-game node whose `acts` list holds
/// `a` acts, each with `l` layers, each with `k` levels, decodes to
/// exactly `1 + a + a*l + a*l*k` run records — one per hierarchy node
/// present, at every granularity.
pub proof fn lemma_flattening_completeness(v: DocValue, runs: Seq<Run>, a: int, l: int, k: int)
    requires
        dec_fullgame_node(v) == Ok::<Seq<Run>, LoadError>(runs),
        child_array(v, "acts"@).len() == a,
        forall|p: int|
            0 <= p < a ==> #[trigger] child_array(child_array(v, "acts"@)[p], "layers"@).len()
                == l,
        forall|p: int, q: int|
            0 <= p < a && 0 <= q < l ==> #[trigger] child_array(
                child_array(child_array(v, "acts"@)[p], "layers"@)[q],
                "levels"@,
            ).len() == k,
    ensures
        runs.len() == 1 + a + a * l + a * l * k,
{
    let children = child_array(v, "acts"@);
    let inner = dec_act_seq(children, 0);
    lemma_act_seq_len(children, 0, inner->Ok_0, l, k);
    assert(a * (1 + l + l * k) == a + a * l + a * l * k) by (nonlinear_arith);
}

/// Idempotence of the ranker: two ranked views that meet the ranking
/// contract on the same filtered collection agree row for row — rank
/// index and record alike — so calling the ranker twice on identical
/// inputs yields identical output.
pub proof fn lemma_rank_deterministic(
    f: Seq<Run>,
    out1: Seq<(usize, Run)>,
    out2: Seq<(usize, Run)>,
)
    requires
        !has_dup_pair(f),
        out1.len() == f.len(),
        out2.len() == f.len(),
        out1.map_values(|p: (usize, Run)| p.1).to_multiset() == f.to_multiset(),
        out2.map_values(|p: (usize, Run)| p.1).to_multiset() == f.to_multiset(),
        runs_sorted(out1.map_values(|p: (usize, Run)| p.1)),
        runs_sorted(out2.map_values(|p: (usize, Run)| p.1)),
        forall|i: int| 0 <= i < out1.len() ==> (#[trigger] out1[i]).0 == i + 1,
        forall|i: int| 0 <= i < out2.len() ==> (#[trigger] out2[i]).0 == i + 1,
    ensures
        out1 == out2,
{
    let s1 = out1.map_values(|p: (usize, Run)| p.1);
    let s2 = out2.map_values(|p: (usize, Run)| p.1);
    if has_dup_pair(s1) {
        lemma_dup_pair_multiset(s1, f);
    }
    lemma_sorted_arrangement_unique(s1, s2);
    assert forall|i: int| 0 <= i < out1.len() implies out1[i] == out2[i] by {
        assert(s1[i] == s2[i]);
        assert(out1[i].1 == s1[i] && out2[i].1 == s2[i]);
        assert(out1[i].0 == out2[i].0);
    }
    assert(out1 =~= out2);
}

/// The multiset of a collection counts a value once per position that
/// holds it; two positions holding the same run make its count at
/// least two.
proof fn lemma_two_positions_count(s: Seq<Run>, i: int, j: int)
    requires
        0 <= i < j < s.len(),
        s[i] == s[j],
    ensures
        s.to_multiset().count(s[i]) >= 2,
{
    broadcast use vstd::seq_lib::group_to_multiset_ensures;

    let r = s.remove(i);
    assert(r.to_multiset() =~= s.to_multiset().remove(s[i]));
    assert(r[j - 1] == s[j]);
    assert(r.contains(s[i]));
    assert(r.to_multiset().count(s[i]) >= 1);
    assert(s.to_multiset().count(s[i]) == r.to_multiset().count(s[i]) + 1);
}

/// No-duplicate transfer: whether a collection holds two runs that tie
/// on every ranking field depends only on its multiset of runs.
pub proof fn lemma_dup_pair_multiset(s1: Seq<Run>, s2: Seq<Run>)
    requires
        s1.to_multiset() == s2.to_multiset(),
        has_dup_pair(s1),
    ensures
        has_dup_pair(s2),
{
    broadcast use vstd::seq_lib::group_to_multiset_ensures;

    let (i, j) = choose|i: int, j: int| 0 <= i < j < s1.len() && key_eq(s1[i], s1[j]);
    let x = s1[i];
    let y = s1[j];
    if x == y {
        lemma_two_positions_count(s1, i, j);
        lemma_count_two_positions(s2, x);
        let (p, q) = choose|p: int, q: int| 0 <= p < q < s2.len() && s2[p] == x && s2[q] == x;
        assert(key_eq(s2[p], s2[q]));
    } else {
        assert(s1.contains(x) && s1.contains(y));
        assert(s1.to_multiset().count(x) > 0 && s1.to_multiset().count(y) > 0);
        assert(s2.to_multiset().count(x) > 0 && s2.to_multiset().count(y) > 0);
        assert(s2.contains(x) && s2.contains(y));
        let p = choose|p: int| 0 <= p < s2.len() && s2[p] == x;
        let q = choose|q: int| 0 <= q < s2.len() && s2[q] == y;
        assert(p != q);
        if p < q {
            assert(key_eq(s2[p], s2[q]));
        } else {
            lemma_run_cmp_antisym(x, y);
            assert(key_eq(s2[q], s2[p]));
        }
    }
}

} // verus!

