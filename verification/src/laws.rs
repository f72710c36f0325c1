//! The protocol's global properties, proved once and for all over the
//! mathematical model that every operation's contract is stated in.

use vstd::prelude::*;
use crate::controller::{
    read_outcome, remove_outcome, rows_after_remove, rows_after_update, update_outcome,
    DeleteResult, ReadOutcome, UpdateOutcome,
};
use crate::link::{LinkModel, LinkUpdateModel, NewLinkModel, SlugPatchModel, patched, tombstoned};
use crate::store::{
    created_row, find_index, has_id, ids_unique, lemma_find_index, lemma_find_index_update,
    live_rows, row_of, store_wf,
};

verus! {

/// Creation monotonicity: every created row is born live, with its creation
/// instant equal to its version token.
pub proof fn law_creation_monotonic(id: u128, n: NewLinkModel, now: i64)
    ensures
        created_row(id, n, now).created_at == created_row(id, n, now).updated_at,
        !created_row(id, n, now).deleted,
{
}

/// Update compare-and-swap correctness: against a live row whose current
/// version token is `t0`, an update carrying `t0` applies — provided time
/// has advanced past `t0` — and bumps the token strictly above `t0`; a
/// second update still carrying the now-stale `t0` conflicts, whatever
/// patch or instant it comes with.
pub proof fn law_update_cas(
    rows: Seq<LinkModel>,
    id: u128,
    p: LinkUpdateModel,
    q: LinkUpdateModel,
    t0: i64,
    now_apply: i64,
    now_retry: i64,
)
    requires
        store_wf(rows),
        has_id(rows, id),
        !row_of(rows, id).deleted,
        t0 == row_of(rows, id).updated_at,
        now_apply > t0,
    ensures
        update_outcome(rows, id, p, t0, now_apply) == UpdateOutcome::Applied(
            patched(row_of(rows, id), p, now_apply),
        ),
        patched(row_of(rows, id), p, now_apply).updated_at > t0,
        update_outcome(rows_after_update(rows, id, p, t0, now_apply), id, q, t0, now_retry)
            == UpdateOutcome::Conflict,
{
    lemma_find_index(rows, id);
    let i = find_index(rows, id)->Some_0;
    let m = patched(row_of(rows, id), p, now_apply);
    let rows2 = rows_after_update(rows, id, p, t0, now_apply);
    assert(rows2 == rows.update(i, m));
    lemma_find_index_update(rows, id, i, m);
    assert(row_of(rows2, id) == m);
}

/// Delete idempotence: a remove whose token is no older than the row's
/// current version succeeds whether or not the row is already tombstoned;
/// and after it, a second remove with a fresh token — one no older than the
/// tombstoning instant — succeeds again.
pub proof fn law_remove_idempotent(
    rows: Seq<LinkModel>,
    id: u128,
    t: i64,
    t_later: i64,
    now: i64,
)
    requires
        store_wf(rows),
        has_id(rows, id),
        row_of(rows, id).updated_at <= t,
        now <= t_later,
    ensures
        remove_outcome(rows, id, t) == DeleteResult::Removed,
        remove_outcome(rows_after_remove(rows, id, t, now), id, t_later) == DeleteResult::Removed,
{
    lemma_find_index(rows, id);
    let i = find_index(rows, id)->Some_0;
    let m = tombstoned(row_of(rows, id), now);
    let rows2 = rows_after_remove(rows, id, t, now);
    assert(rows2 == rows.update(i, m));
    lemma_find_index_update(rows, id, i, m);
    assert(row_of(rows2, id) == m);
}

/// Gone precedence: once a row is tombstoned, an update on its identifier
/// is `Gone` — and changes nothing — whatever the version token, however
/// valid.
pub proof fn law_gone_precedence(
    rows: Seq<LinkModel>,
    id: u128,
    p: LinkUpdateModel,
    version: i64,
    now: i64,
)
    requires
        has_id(rows, id),
        row_of(rows, id).deleted,
    ensures
        update_outcome(rows, id, p, version, now) == UpdateOutcome::Gone,
        rows_after_update(rows, id, p, version, now) == rows,
{
}

/// Tri-state patch semantics for the slug, against a row whose slug is
/// set: an absent field leaves it untouched, a present-null field clears
/// it, and a present value replaces it.
pub proof fn law_tri_state_slug(l: LinkModel, p: LinkUpdateModel, now: i64)
    requires
        l.slug is Some,
    ensures
        p.slug is Unset ==> patched(l, p, now).slug == l.slug,
        p.slug is SetNull ==> patched(l, p, now).slug is None,
        (p.slug matches SlugPatchModel::SetValue(s) ==> patched(l, p, now).slug == Option::Some(
            s,
        )),
{
}

/// Listing excludes tombstones: after a row is tombstoned, no live listing
/// contains its identifier, while a read by that identifier still answers —
/// as `Gone`, signalling that the row persists with its tombstone set.
pub proof fn law_listing_excludes_tombstones(
    rows: Seq<LinkModel>,
    id: u128,
    version: i64,
    now: i64,
)
    requires
        store_wf(rows),
        has_id(rows, id),
        row_of(rows, id).updated_at <= version,
    ensures
        ({
            let rows2 = rows_after_remove(rows, id, version, now);
            &&& forall|j: int|
                0 <= j < live_rows(rows2).len() ==> (#[trigger] live_rows(rows2)[j]).id != id
            &&& read_outcome(rows2, id) == ReadOutcome::Gone
        }),
{
    lemma_find_index(rows, id);
    let i = find_index(rows, id)->Some_0;
    let m = tombstoned(row_of(rows, id), now);
    let rows2 = rows.update(i, m);
    assert(rows_after_remove(rows, id, version, now) == rows2);
    lemma_find_index_update(rows, id, i, m);
    assert(row_of(rows2, id) == m);
    let pred = |x: LinkModel| !x.deleted;
    assert forall|j: int|
        0 <= j < live_rows(rows2).len() implies (#[trigger] live_rows(rows2)[j]).id != id by {
        let e = live_rows(rows2)[j];
        rows2.lemma_filter_pred(pred, j);
        rows2.lemma_filter_contains_rev(pred, e);
        let k = choose|k: int| 0 <= k < rows2.len() && rows2[k] == e;
        if e.id == id {
            if k != i {
                assert(rows2[k].id == rows[k].id);
                assert(rows2[i].id == id);
                assert(ids_unique(rows));
                if k < i {
                    assert(rows[k].id != rows[i].id);
                } else {
                    assert(rows[i].id != rows[k].id);
                }
            }
            assert(k == i);
            assert(e == m);
            assert(!pred(e));
        }
    }
}

/// Tombstones are permanent: no update and no further remove — on this or
/// any other identifier — ever clears a row's tombstone flag or removes its
/// row.
pub proof fn law_tombstone_permanent(
    rows: Seq<LinkModel>,
    id: u128,
    other: u128,
    p: LinkUpdateModel,
    version: i64,
    now: i64,
)
    requires
        store_wf(rows),
        has_id(rows, id),
        row_of(rows, id).deleted,
    ensures
        has_id(rows_after_update(rows, other, p, version, now), id),
        row_of(rows_after_update(rows, other, p, version, now), id).deleted,
        has_id(rows_after_remove(rows, other, version, now), id),
        row_of(rows_after_remove(rows, other, version, now), id).deleted,
{
    lemma_find_index(rows, id);
    let i = find_index(rows, id)->Some_0;
    if has_id(rows, other) {
        lemma_find_index(rows, other);
        let k = find_index(rows, other)->Some_0;
        let pu = patched(row_of(rows, other), p, now);
        let tu = tombstoned(row_of(rows, other), now);
        lemma_find_index_update(rows, id, k, pu);
        lemma_find_index_update(rows, id, k, tu);
        if other != id {
            assert(rows[k].id == other && rows[i].id == id);
            assert(k != i);
        }
    }
}

} // verus!
