//! Laws of the drift-correcting applier.
//!
//! The central results: applying a set of patches with pairwise distinct
//! original offsets yields the same buffer in any order of application,
//! and two patches sharing one offset land in registration order. Both
//! rest on the containment invariant of the drift ledger alone.

use vstd::prelude::*;
use vstd::seq_lib::group_to_multiset_ensures;

use crate::act_patch::{
    lemma_patch_drift_bounds, lemma_patch_total_nonneg, spec_apply, spec_apply_from, spec_insert,
    spec_params_patches, spec_patch_drift, spec_patch_total, PatchType,
};
use crate::act_structs::{ParamModel, PatchModel};

verus! {

/// No two patches of the set share an original offset.
pub open spec fn distinct_offsets(ps: Seq<PatchModel>) -> bool {
    forall|i: int, j: int|
        0 <= i < j < ps.len() ==> ps[i].byte_pos != ps[j].byte_pos
}

/// Every patch of the set lies within a buffer of length `n`.
pub open spec fn offsets_within(ps: Seq<PatchModel>, n: int) -> bool {
    forall|i: int| 0 <= i < ps.len() ==> ps[i].byte_pos <= n
}

/// The two sequences hold the same patches, each the same number of
/// times.
pub open spec fn is_permutation_of(ps1: Seq<PatchModel>, ps2: Seq<PatchModel>) -> bool {
    ps1.to_multiset() == ps2.to_multiset()
}

proof fn lemma_patch_drift_push(done: Seq<PatchModel>, p: PatchModel, x: int)
    ensures
        spec_patch_drift(done.push(p), x) == spec_patch_drift(done, x) + if p.byte_pos <= x {
            p.patch.len() as int
        } else {
            0
        },
{
    assert(done.push(p).drop_last() =~= done);
    assert(done.push(p).last() == p);
}

proof fn lemma_patch_total_push(done: Seq<PatchModel>, p: PatchModel)
    ensures
        spec_patch_total(done.push(p)) == spec_patch_total(done) + p.patch.len(),
{
    assert(done.push(p).drop_last() =~= done);
    assert(done.push(p).last() == p);
}

proof fn lemma_patch_drift_monotone(done: Seq<PatchModel>, x: int, y: int)
    requires
        x <= y,
    ensures
        spec_patch_drift(done, x) <= spec_patch_drift(done, y),
    decreases done.len(),
{
    if done.len() > 0 {
        lemma_patch_drift_monotone(done.drop_last(), x, y);
    }
}

proof fn lemma_insert_len(buf: Seq<u8>, pos: int, text: Seq<u8>)
    requires
        0 <= pos <= buf.len(),
    ensures
        spec_insert(buf, pos, text).len() == buf.len() + text.len(),
{
}

/// Inserting at a later position and then at an earlier one lands the
/// same bytes as the other way round, once the later position accounts
/// for the earlier insertion's length.
proof fn lemma_insert_commute(buf: Seq<u8>, i: int, t1: Seq<u8>, j: int, t2: Seq<u8>)
    requires
        0 <= i <= j <= buf.len(),
    ensures
        spec_insert(spec_insert(buf, i, t1), j + t1.len(), t2) == spec_insert(
            spec_insert(buf, j, t2),
            i,
            t1,
        ),
{
    lemma_insert_len(buf, i, t1);
    lemma_insert_len(buf, j, t2);
    let mid = buf.subrange(0, i) + t1 + buf.subrange(i, j) + t2 + buf.subrange(
        j,
        buf.len() as int,
    );
    assert(spec_insert(spec_insert(buf, i, t1), j + t1.len(), t2) =~= mid);
    assert(spec_insert(spec_insert(buf, j, t2), i, t1) =~= mid);
}

/// Two applied sets that impose the same drift on every offset lead the
/// remaining patches to the same buffer.
proof fn lemma_apply_from_congruent(
    buf: Seq<u8>,
    done1: Seq<PatchModel>,
    done2: Seq<PatchModel>,
    todo: Seq<PatchModel>,
)
    requires
        forall|x: int| spec_patch_drift(done1, x) == spec_patch_drift(done2, x),
    ensures
        spec_apply_from(buf, done1, todo) == spec_apply_from(buf, done2, todo),
    decreases todo.len(),
{
    if todo.len() > 0 {
        let p = todo[0];
        assert(spec_patch_drift(done1, p.byte_pos as int) == spec_patch_drift(
            done2,
            p.byte_pos as int,
        ));
        let live = p.byte_pos + spec_patch_drift(done1, p.byte_pos as int);
        assert forall|x: int|
            spec_patch_drift(done1.push(p), x) == spec_patch_drift(done2.push(p), x) by {
            lemma_patch_drift_push(done1, p, x);
            lemma_patch_drift_push(done2, p, x);
        }
        lemma_apply_from_congruent(
            spec_insert(buf, live, p.patch),
            done1.push(p),
            done2.push(p),
            todo.drop_first(),
        );
    }
}

/// Swapping the first two patches, when their offsets differ, does not
/// change the final buffer.
proof fn lemma_swap_front(
    buf: Seq<u8>,
    done: Seq<PatchModel>,
    p: PatchModel,
    q: PatchModel,
    rest: Seq<PatchModel>,
    n: int,
)
    requires
        p.byte_pos != q.byte_pos,
        p.byte_pos <= n,
        q.byte_pos <= n,
        n >= 0,
        buf.len() == n + spec_patch_total(done),
    ensures
        spec_apply_from(buf, done, seq![p, q] + rest) == spec_apply_from(
            buf,
            done,
            seq![q, p] + rest,
        ),
{
    if p.byte_pos < q.byte_pos {
        lemma_swap_front_ordered(buf, done, p, q, rest, n);
    } else {
        lemma_swap_front_ordered(buf, done, q, p, rest, n);
    }
}

proof fn lemma_swap_front_ordered(
    buf: Seq<u8>,
    done: Seq<PatchModel>,
    p: PatchModel,
    q: PatchModel,
    rest: Seq<PatchModel>,
    n: int,
)
    requires
        p.byte_pos < q.byte_pos,
        q.byte_pos <= n,
        n >= 0,
        buf.len() == n + spec_patch_total(done),
    ensures
        spec_apply_from(buf, done, seq![p, q] + rest) == spec_apply_from(
            buf,
            done,
            seq![q, p] + rest,
        ),
{
    let s1 = seq![p, q] + rest;
    let s2 = seq![q, p] + rest;
    assert(s1[0] == p);
    assert(s2[0] == q);
    assert(s1.drop_first() =~= seq![q] + rest);
    assert(s2.drop_first() =~= seq![p] + rest);
    assert((seq![q] + rest)[0] == q);
    assert((seq![q] + rest).drop_first() =~= rest);
    assert((seq![p] + rest)[0] == p);
    assert((seq![p] + rest).drop_first() =~= rest);

    lemma_patch_total_nonneg(done);
    lemma_patch_drift_bounds(done, p.byte_pos as int);
    lemma_patch_drift_bounds(done, q.byte_pos as int);
    lemma_patch_drift_monotone(done, p.byte_pos as int, q.byte_pos as int);
    let xp = p.byte_pos + spec_patch_drift(done, p.byte_pos as int);
    let yq = q.byte_pos + spec_patch_drift(done, q.byte_pos as int);
    lemma_patch_drift_push(done, p, q.byte_pos as int);
    lemma_patch_drift_push(done, q, p.byte_pos as int);
    lemma_insert_len(buf, xp, p.patch);
    lemma_insert_len(buf, yq, q.patch);
    lemma_insert_commute(buf, xp, p.patch, yq, q.patch);
    let buf_pq = spec_insert(spec_insert(buf, xp, p.patch), yq + p.patch.len(), q.patch);
    let buf_qp = spec_insert(spec_insert(buf, yq, q.patch), xp, p.patch);
    assert(buf_pq == buf_qp);

    assert(spec_apply_from(buf, done, s1) == spec_apply_from(
        spec_insert(buf, xp, p.patch),
        done.push(p),
        seq![q] + rest,
    ));
    assert(spec_apply_from(spec_insert(buf, xp, p.patch), done.push(p), seq![q] + rest)
        == spec_apply_from(buf_pq, done.push(p).push(q), rest));
    assert(spec_apply_from(buf, done, s2) == spec_apply_from(
        spec_insert(buf, yq, q.patch),
        done.push(q),
        seq![p] + rest,
    ));
    assert(spec_apply_from(spec_insert(buf, yq, q.patch), done.push(q), seq![p] + rest)
        == spec_apply_from(buf_qp, done.push(q).push(p), rest));

    assert forall|x: int|
        spec_patch_drift(done.push(p).push(q), x) == spec_patch_drift(
            done.push(q).push(p),
            x,
        ) by {
        lemma_patch_drift_push(done, p, x);
        lemma_patch_drift_push(done, q, x);
        lemma_patch_drift_push(done.push(p), q, x);
        lemma_patch_drift_push(done.push(q), p, x);
    }
    lemma_apply_from_congruent(buf_pq, done.push(p).push(q), done.push(q).push(p), rest);
}

/// The sequence with the patches at `k` and `k + 1` exchanged.
spec fn swap_adjacent(s: Seq<PatchModel>, k: int) -> Seq<PatchModel> {
    s.update(k, s[k + 1]).update(k + 1, s[k])
}

/// Swapping any two adjacent patches with distinct offsets does not
/// change the final buffer.
proof fn lemma_swap_at(buf: Seq<u8>, done: Seq<PatchModel>, s: Seq<PatchModel>, k: int, n: int)
    requires
        0 <= k,
        k + 1 < s.len(),
        s[k].byte_pos != s[k + 1].byte_pos,
        offsets_within(s, n),
        n >= 0,
        buf.len() == n + spec_patch_total(done),
    ensures
        spec_apply_from(buf, done, s) == spec_apply_from(buf, done, swap_adjacent(s, k)),
    decreases k,
{
    let s2 = swap_adjacent(s, k);
    if k == 0 {
        assert(s =~= seq![s[0], s[1]] + s.skip(2));
        assert(s2 =~= seq![s[1], s[0]] + s.skip(2));
        lemma_swap_front(buf, done, s[0], s[1], s.skip(2), n);
    } else {
        let p0 = s[0];
        assert(s2[0] == p0);
        lemma_patch_total_nonneg(done);
        lemma_patch_drift_bounds(done, p0.byte_pos as int);
        let live = p0.byte_pos + spec_patch_drift(done, p0.byte_pos as int);
        let buf1 = spec_insert(buf, live, p0.patch);
        lemma_insert_len(buf, live, p0.patch);
        lemma_patch_total_push(done, p0);
        assert(s2.drop_first() =~= swap_adjacent(s.drop_first(), k - 1));
        lemma_swap_at(buf1, done.push(p0), s.drop_first(), k - 1, n);
        assert(spec_apply_from(buf, done, s) == spec_apply_from(buf1, done.push(p0), s.drop_first()));
        assert(spec_apply_from(buf, done, s2) == spec_apply_from(
            buf1,
            done.push(p0),
            s2.drop_first(),
        ));
    }
}

/// Moving the patch at `k` to the front, past patches whose offsets all
/// differ from its own, does not change the final buffer.
proof fn lemma_bubble_front(buf: Seq<u8>, done: Seq<PatchModel>, s: Seq<PatchModel>, k: int, n: int)
    requires
        0 <= k < s.len(),
        forall|j: int| 0 <= j < k ==> s[j].byte_pos != s[k].byte_pos,
        offsets_within(s, n),
        n >= 0,
        buf.len() == n + spec_patch_total(done),
    ensures
        spec_apply_from(buf, done, s) == spec_apply_from(buf, done, seq![s[k]] + s.remove(k)),
    decreases k,
{
    if k == 0 {
        assert(seq![s[0]] + s.remove(0) =~= s);
    } else {
        let s2 = swap_adjacent(s, k - 1);
        lemma_swap_at(buf, done, s, k - 1, n);
        assert(s2[k - 1] == s[k]);
        assert(forall|j: int| 0 <= j < k - 1 ==> s2[j] == s[j]);
        assert(offsets_within(s2, n)) by {
            assert(forall|i: int| 0 <= i < s2.len() ==> s2[i] == s[i] || s2[i] == s[k - 1] || s2[i]
                == s[k]);
        }
        lemma_bubble_front(buf, done, s2, k - 1, n);
        assert(s2.remove(k - 1) =~= s.remove(k));
    }
}

/// Offset invariance: applying a set of patches with pairwise distinct
/// original offsets, all within the original buffer, yields the same
/// final buffer in any order the patches are supplied.
pub proof fn lemma_apply_order_independent(
    buf: Seq<u8>,
    ps1: Seq<PatchModel>,
    ps2: Seq<PatchModel>,
)
    requires
        is_permutation_of(ps1, ps2),
        distinct_offsets(ps1),
        offsets_within(ps1, buf.len() as int),
    ensures
        spec_apply(buf, ps1) == spec_apply(buf, ps2),
{
    lemma_apply_from_permutation(buf, Seq::empty(), ps1, ps2, buf.len() as int);
}

proof fn lemma_apply_from_permutation(
    buf: Seq<u8>,
    done: Seq<PatchModel>,
    ps1: Seq<PatchModel>,
    ps2: Seq<PatchModel>,
    n: int,
)
    requires
        ps1.to_multiset() == ps2.to_multiset(),
        distinct_offsets(ps1),
        offsets_within(ps1, n),
        n >= 0,
        buf.len() == n + spec_patch_total(done),
    ensures
        spec_apply_from(buf, done, ps1) == spec_apply_from(buf, done, ps2),
    decreases ps1.len(),
{
    broadcast use group_to_multiset_ensures;

    if ps1.len() == 0 {
        assert(ps2.to_multiset().len() == 0);
        assert(ps2.len() == 0);
    } else {
        assert(ps1.to_multiset().len() == ps1.len());
        assert(ps2.to_multiset().len() == ps2.len());
        let e = ps2[0];
        assert(ps2.contains(e));
        assert(ps1.to_multiset().count(e) > 0);
        assert(ps1.contains(e));
        let k = choose|k: int| 0 <= k < ps1.len() && ps1[k] == e;
        lemma_bubble_front(buf, done, ps1, k, n);
        let front = seq![e] + ps1.remove(k);
        assert(front[0] == e);
        assert(front.drop_first() =~= ps1.remove(k));

        lemma_patch_total_nonneg(done);
        lemma_patch_drift_bounds(done, e.byte_pos as int);
        let live = e.byte_pos + spec_patch_drift(done, e.byte_pos as int);
        let buf1 = spec_insert(buf, live, e.patch);
        lemma_insert_len(buf, live, e.patch);
        lemma_patch_total_push(done, e);

        assert(ps1.remove(k).to_multiset() =~= ps1.to_multiset().remove(e));
        assert(ps2.drop_first() =~= ps2.remove(0));
        assert(ps2.remove(0).to_multiset() =~= ps2.to_multiset().remove(e));
        assert(distinct_offsets(ps1.remove(k))) by {
            assert forall|i: int, j: int|
                0 <= i < j < ps1.remove(k).len() implies ps1.remove(k)[i].byte_pos != ps1.remove(
                k,
            )[j].byte_pos by {
                let i0 = if i < k {
                    i
                } else {
                    i + 1
                };
                let j0 = if j < k {
                    j
                } else {
                    j + 1
                };
                assert(ps1.remove(k)[i] == ps1[i0]);
                assert(ps1.remove(k)[j] == ps1[j0]);
            }
        }
        assert(offsets_within(ps1.remove(k), n)) by {
            assert forall|i: int| 0 <= i < ps1.remove(k).len() implies ps1.remove(
                k,
            )[i].byte_pos <= n by {
                let i0 = if i < k {
                    i
                } else {
                    i + 1
                };
                assert(ps1.remove(k)[i] == ps1[i0]);
            }
        }
        lemma_apply_from_permutation(buf1, done.push(e), ps1.remove(k), ps2.drop_first(), n);
        assert(spec_apply_from(buf, done, front) == spec_apply_from(
            buf1,
            done.push(e),
            ps1.remove(k),
        ));
        assert(spec_apply_from(buf, done, ps2) == spec_apply_from(
            buf1,
            done.push(e),
            ps2.drop_first(),
        ));
    }
}

/// Same-offset stability: of two patches that share one original offset,
/// the one registered first appears in the output immediately before the
/// one registered second.
pub proof fn lemma_same_offset_registration_order(buf: Seq<u8>, p: PatchModel, q: PatchModel)
    requires
        p.byte_pos == q.byte_pos,
        p.byte_pos <= buf.len(),
    ensures
        spec_apply(buf, seq![p, q]) == buf.subrange(0, p.byte_pos as int) + p.patch + q.patch
            + buf.subrange(p.byte_pos as int, buf.len() as int),
{
    let s = seq![p, q];
    let o = p.byte_pos as int;
    assert(s[0] == p);
    assert(s.drop_first() =~= seq![q]);
    assert(seq![q][0] == q);
    assert(seq![q].drop_first() =~= Seq::<PatchModel>::empty());
    let done0 = Seq::<PatchModel>::empty();
    assert(spec_patch_drift(done0, o) == 0);
    let buf1 = spec_insert(buf, o, p.patch);
    lemma_insert_len(buf, o, p.patch);
    lemma_patch_drift_push(done0, p, o);
    assert(spec_patch_drift(done0.push(p), o) == p.patch.len());
    let buf2 = spec_insert(buf1, o + p.patch.len(), q.patch);
    assert(spec_apply(buf, s) == spec_apply_from(buf1, done0.push(p), seq![q]));
    assert(spec_apply_from(buf1, done0.push(p), seq![q]) == spec_apply_from(
        buf2,
        done0.push(p).push(q),
        Seq::<PatchModel>::empty(),
    ));
    assert(spec_apply(buf, s) == buf2);
    assert(buf2 =~= buf.subrange(0, o) + p.patch + q.patch + buf.subrange(o, buf.len() as int));
}

/// A run that synthesizes no patches returns the buffer unchanged.
pub proof fn lemma_apply_no_patches(buf: Seq<u8>, ps: Seq<PatchModel>)
    requires
        ps.len() == 0,
    ensures
        spec_apply(buf, ps) == buf,
{
}

/// Unknown-skip: a parameter list in which every category is `Unknown`
/// contributes no patches, so applying its synthesis output returns the
/// buffer unchanged.
pub proof fn lemma_unknown_params_round_trip(
    buf: Seq<u8>,
    patch_type: PatchType,
    params: Seq<ParamModel>,
    body_start: u32,
)
    requires
        forall|i: int| 0 <= i < params.len() ==> params[i].act_type is Unknown,
    ensures
        spec_params_patches(patch_type, params, body_start) == Seq::<PatchModel>::empty(),
        spec_apply(buf, spec_params_patches(patch_type, params, body_start)) == buf,
    decreases params.len(),
{
    if params.len() > 0 {
        assert(params.last().act_type is Unknown);
        lemma_unknown_params_round_trip(buf, patch_type, params.drop_last(), body_start);
    }
}

} // verus!
