//! The resource store: the rows and the atomic conditional-write primitives.
//!
//! The store is the only holder of mutable state. Its two conditional
//! writes, `conditional_update` and `conditional_tombstone`, apply if and
//! only if the row's current `updated_at` is no later than the caller's
//! version token — the compare-and-swap at the heart of the concurrency
//! protocol — and each bumps `updated_at`, so that any concurrent mutation
//! invalidates every token handed out before it.

use vstd::prelude::*;
use crate::link::{
    Link, LinkModel, LinkUpdate, NewLink, NewLinkModel, SlugPatch, patched, tombstoned,
    ts_in_range,
};

verus! {

/// An opaque storage fault: the one failure the store itself can report.
/// Here the store fails exactly when it is asked to insert a row under an
/// identifier that some row (live or tombstoned) already carries, which
/// would break the uniqueness of identifiers.
#[derive(Clone, Copy, PartialEq, Eq, Structural, Debug)]
pub struct StoreFault;

/// The index of the row carrying `id`, if any.
pub open spec fn find_index(rows: Seq<LinkModel>, id: u128) -> Option<int>
    decreases rows.len(),
{
    if rows.len() == 0 {
        Option::None
    } else if rows[0].id == id {
        Option::Some(0int)
    } else {
        match find_index(rows.drop_first(), id) {
            Option::Some(i) => Option::Some(i + 1),
            Option::None => Option::None,
        }
    }
}

/// Whether some row (live or tombstoned) carries `id`.
pub open spec fn has_id(rows: Seq<LinkModel>, id: u128) -> bool {
    find_index(rows, id) is Some
}

/// The row carrying `id`; meaningful only when `has_id` holds.
pub open spec fn row_of(rows: Seq<LinkModel>, id: u128) -> LinkModel
    recommends
        has_id(rows, id),
{
    rows[find_index(rows, id)->Some_0]
}

/// The first row whose slug is `s`, in store order, live or tombstoned.
pub open spec fn slug_lookup(rows: Seq<LinkModel>, s: Seq<char>) -> Option<LinkModel>
    decreases rows.len(),
{
    if rows.len() == 0 {
        Option::None
    } else if rows[0].slug == Option::Some(s) {
        Option::Some(rows[0])
    } else {
        slug_lookup(rows.drop_first(), s)
    }
}

/// The live rows, in store order: what a listing returns.
pub open spec fn live_rows(rows: Seq<LinkModel>) -> Seq<LinkModel> {
    rows.filter(|m: LinkModel| !m.deleted)
}

/// No two rows carry the same identifier.
pub open spec fn ids_unique(rows: Seq<LinkModel>) -> bool {
    forall|i: int, j: int| 0 <= i < j < rows.len() ==> rows[i].id != rows[j].id
}

/// Every stored timestamp is representable as a version token.
pub open spec fn rows_ts_in_range(rows: Seq<LinkModel>) -> bool {
    forall|i: int|
        0 <= i < rows.len() ==> ts_in_range((#[trigger] rows[i]).created_at) && ts_in_range(
            rows[i].updated_at,
        )
}

/// The store's well-formedness: what every operation preserves.
pub open spec fn store_wf(rows: Seq<LinkModel>) -> bool {
    ids_unique(rows) && rows_ts_in_range(rows)
}

/// The row that an insertion of payload `n` under identifier `id` at
/// instant `now` persists: born live, with `created_at = updated_at = now`.
pub open spec fn created_row(id: u128, n: NewLinkModel, now: i64) -> LinkModel {
    LinkModel {
        id,
        slug: n.slug,
        uri: n.uri,
        description: n.description,
        deleted: false,
        created_at: now,
        updated_at: now,
    }
}

/// What `find_index` finds: the first row carrying `id`, or a guarantee
/// that none does.
pub proof fn lemma_find_index(rows: Seq<LinkModel>, id: u128)
    ensures
        match find_index(rows, id) {
            Option::Some(i) => 0 <= i < rows.len() && rows[i].id == id && (forall|j: int|
                0 <= j < i ==> rows[j].id != id),
            Option::None => forall|j: int| 0 <= j < rows.len() ==> rows[j].id != id,
        },
    decreases rows.len(),
{
    if rows.len() == 0 {
    } else if rows[0].id == id {
        assert(find_index(rows, id) == Option::Some(0int));
    } else {
        let sub = rows.drop_first();
        lemma_find_index(sub, id);
        assert(forall|j: int| 0 <= j < sub.len() ==> sub[j] == rows[j + 1]);
        match find_index(sub, id) {
            Option::Some(i) => {
                assert(find_index(rows, id) == Option::Some(i + 1));
                assert(rows[i + 1].id == id);
                assert forall|j: int| 0 <= j < i + 1 implies rows[j].id != id by {
                    if j > 0 {
                        assert(sub[j - 1] == rows[j]);
                        assert(sub[j - 1].id != id);
                    }
                }
            },
            Option::None => {
                assert forall|j: int| 0 <= j < rows.len() implies rows[j].id != id by {
                    if j > 0 {
                        assert(sub[j - 1] == rows[j]);
                    }
                }
            },
        }
    }
}

/// Replacing a row by one with the same identifier moves no row and changes
/// no lookup position.
pub proof fn lemma_find_index_update(rows: Seq<LinkModel>, id: u128, i: int, v: LinkModel)
    requires
        0 <= i < rows.len(),
        v.id == rows[i].id,
    ensures
        find_index(rows.update(i, v), id) == find_index(rows, id),
    decreases rows.len(),
{
    let rows2 = rows.update(i, v);
    if i == 0 {
        if rows[0].id == id {
        } else {
            assert(rows2.drop_first() =~= rows.drop_first());
        }
    } else {
        if rows[0].id == id {
        } else {
            assert(rows2.drop_first() =~= rows.drop_first().update(i - 1, v));
            lemma_find_index_update(rows.drop_first(), id, i - 1, v);
        }
    }
}

/// What `slug_lookup` finds when an earliest matching row is known.
pub proof fn lemma_slug_lookup_first(rows: Seq<LinkModel>, s: Seq<char>, i: int)
    requires
        0 <= i < rows.len(),
        rows[i].slug == Option::Some(s),
        forall|j: int| 0 <= j < i ==> rows[j].slug != Option::Some(s),
    ensures
        slug_lookup(rows, s) == Option::Some(rows[i]),
    decreases i,
{
    if i == 0 {
    } else {
        assert(forall|j: int|
            0 <= j < rows.drop_first().len() ==> rows.drop_first()[j] == rows[j + 1]);
        lemma_slug_lookup_first(rows.drop_first(), s, i - 1);
    }
}

/// What `slug_lookup` finds when no row matches.
pub proof fn lemma_slug_lookup_none(rows: Seq<LinkModel>, s: Seq<char>)
    requires
        forall|j: int| 0 <= j < rows.len() ==> rows[j].slug != Option::Some(s),
    ensures
        slug_lookup(rows, s) is None,
    decreases rows.len(),
{
    if rows.len() == 0 {
    } else {
        assert(forall|j: int|
            0 <= j < rows.drop_first().len() ==> rows.drop_first()[j] == rows[j + 1]);
        lemma_slug_lookup_none(rows.drop_first(), s);
    }
}

/// Durable storage for link rows, with atomic conditional writes.
pub struct Store {
    links: Vec<Link>,
}

impl View for Store {
    type V = Seq<LinkModel>;

    closed spec fn view(&self) -> Seq<LinkModel> {
        self.links@.map_values(|l: Link| l@)
    }
}

impl Store {
    pub open spec fn wf(&self) -> bool {
        store_wf(self@)
    }

    /// An empty store.
    pub fn new() -> (r: Store)
        ensures
            r@ == Seq::<LinkModel>::empty(),
            r.wf(),
    {
        let s = Store { links: Vec::new() };
        proof {
            assert(s@ =~= Seq::<LinkModel>::empty());
        }
        s
    }

    /// The position of the row carrying `id`, if any.
    fn index_of(&self, id: u128) -> (r: Option<usize>)
        ensures
            match find_index(self@, id) {
                Option::Some(i) => r matches Option::Some(u) && u as int == i && i
                    < self.links@.len(),
                Option::None => r is None,
            },
    {
        let n = self.links.len();
        let mut i: usize = 0;
        while i < n
            invariant
                n == self.links.len(),
                i <= n,
                forall|j: int| 0 <= j < i ==> self@[j].id != id,
            decreases n - i,
        {
            if self.links[i].id() == id {
                proof {
                    assert(self@[i as int].id == id);
                    lemma_find_index(self@, id);
                    match find_index(self@, id) {
                        Option::Some(k) => {
                            if k < i as int {
                                assert(self@[k].id != id);
                            }
                            if k > i as int {
                                assert(self@[i as int].id != id);
                            }
                        },
                        Option::None => {
                            assert(self@[i as int].id != id);
                        },
                    }
                }
                return Option::Some(i);
            }
            i += 1;
        }
        proof {
            lemma_find_index(self@, id);
            if find_index(self@, id) is Some {
                let k = find_index(self@, id)->Some_0;
                assert(self@[k].id != id);
            }
        }
        Option::None
    }

    /// Whether any row, live or tombstoned, carries `id`.
    pub fn id_exists(&self, id: u128) -> (r: bool)
        ensures
            r == has_id(self@, id),
    {
        self.index_of(id).is_some()
    }

    /// The row carrying `id` regardless of its tombstone state, or nothing.
    pub fn get_by_id(&self, id: u128) -> (r: Option<&Link>)
        ensures
            has_id(self@, id) ==> (r matches Option::Some(l) && l@ == row_of(self@, id)),
            !has_id(self@, id) ==> r is None,
    {
        match self.index_of(id) {
            Option::Some(i) => Option::Some(&self.links[i]),
            Option::None => Option::None,
        }
    }

    /// The current tombstone flag of the row carrying `id`; the caller must
    /// have already established that the row exists.
    pub fn is_deleted(&self, id: u128) -> (r: bool)
        requires
            has_id(self@, id),
        ensures
            r == row_of(self@, id).deleted,
    {
        match self.index_of(id) {
            Option::Some(i) => self.links[i].deleted(),
            Option::None => false,
        }
    }

    /// The first row whose slug is `slug`, in store order, live or not.
    pub fn get_by_slug(&self, slug: &String) -> (r: Option<&Link>)
        ensures
            match slug_lookup(self@, slug@) {
                Option::Some(m) => r matches Option::Some(l) && l@ == m,
                Option::None => r is None,
            },
    {
        let n = self.links.len();
        let mut i: usize = 0;
        while i < n
            invariant
                n == self.links.len(),
                i <= n,
                forall|j: int| 0 <= j < i ==> self@[j].slug != Option::Some(slug@),
            decreases n - i,
        {
            let matches_slug = match self.links[i].slug() {
                Option::Some(s) => s.eq(slug),
                Option::None => false,
            };
            if matches_slug {
                proof {
                    lemma_slug_lookup_first(self@, slug@, i as int);
                }
                return Option::Some(&self.links[i]);
            }
            i += 1;
        }
        proof {
            lemma_slug_lookup_none(self@, slug@);
        }
        Option::None
    }

    /// All live rows, in store order.
    pub fn list_live(&self) -> (r: Vec<Link>)
        ensures
            r@.map_values(|l: Link| l@) == live_rows(self@),
    {
        let n = self.links.len();
        let mut out: Vec<Link> = Vec::new();
        let mut i: usize = 0;
        proof {
            assert(out@.map_values(|l: Link| l@) =~= live_rows(self@.take(0)));
        }
        while i < n
            invariant
                n == self.links.len(),
                i <= n,
                out@.map_values(|l: Link| l@) == live_rows(self@.take(i as int)),
            decreases n - i,
        {
            let ghost prev = out@.map_values(|l: Link| l@);
            let row = &self.links[i];
            if !row.deleted() {
                out.push(row.clone());
            }
            i += 1;
            proof {
                let pred = |m: LinkModel| !m.deleted;
                let taken = self@.take(i as int);
                assert(taken.drop_last() =~= self@.take(i as int - 1));
                assert(taken =~= self@.take(i as int - 1).push(self@[i as int - 1]));
                Seq::lemma_filter_push(self@.take(i as int - 1), self@[i as int - 1], pred);
                if !self@[i as int - 1].deleted {
                    assert(out@.map_values(|l: Link| l@) =~= prev.push(self@[i as int - 1]));
                } else {
                    assert(out@.map_values(|l: Link| l@) =~= prev);
                }
            }
        }
        proof {
            assert(self@.take(n as int) =~= self@);
        }
        out
    }

    /// Persists a new row under `id` at instant `now`. Fails, leaving the
    /// store untouched, exactly when some row already carries `id`.
    pub fn insert(&mut self, new: NewLink, id: u128, now: i64) -> (r: Result<Link, StoreFault>)
        requires
            old(self).wf(),
            ts_in_range(now),
        ensures
            final(self).wf(),
            r is Err <==> has_id(old(self)@, id),
            (r matches Ok(l) ==> l@ == created_row(id, new@, now) && final(self)@ == old(self)@.push(
                l@,
            )),
            r is Err ==> final(self)@ == old(self)@,
    {
        match self.index_of(id) {
            Option::Some(_) => Result::Err(StoreFault),
            Option::None => {
                let l = Link::make(id, new.slug, new.uri, new.description, false, now, now);
                let out = l.clone();
                proof {
                    lemma_find_index(self@, id);
                    assert(self@.push(l@) =~= self.links@.push(l).map_values(|x: Link| x@));
                }
                self.links.push(l);
                proof {
                    let rows = self@;
                    assert(rows =~= old(self)@.push(created_row(id, new@, now)));
                    assert forall|a: int, b: int| 0 <= a < b < rows.len() implies rows[a].id
                        != rows[b].id by {
                        if b == rows.len() - 1 {
                            assert(rows[a].id != id);
                        }
                    }
                }
                Result::Ok(out)
            },
        }
    }

    /// The compare-and-swap update: atomically, if and only if the row
    /// carrying `id` has `updated_at <= not_modified_since`, applies the
    /// patch, bumps `updated_at` to `now`, and returns the resulting row.
    /// Returns nothing — with no partial application — when the row changed
    /// more recently than the token or no row carries `id`.
    pub fn conditional_update(
        &mut self,
        id: u128,
        patch: &LinkUpdate,
        not_modified_since: i64,
        now: i64,
    ) -> (r: Option<Link>)
        requires
            old(self).wf(),
            ts_in_range(now),
        ensures
            final(self).wf(),
            ({
                let rows = old(self)@;
                if has_id(rows, id) && row_of(rows, id).updated_at <= not_modified_since {
                    r matches Option::Some(l) && l@ == patched(row_of(rows, id), patch@, now)
                        && final(self)@ == rows.update(find_index(rows, id)->Some_0, l@)
                } else {
                    r is None && final(self)@ == rows
                }
            }),
    {
        match self.index_of(id) {
            Option::Some(i) => {
                if self.links[i].updated_at() <= not_modified_since {
                    let row = &self.links[i];
                    let new_slug = match &patch.slug {
                        SlugPatch::Unset => match row.slug() {
                            Option::Some(s) => Option::Some(s.clone()),
                            Option::None => Option::None,
                        },
                        SlugPatch::SetNull => Option::None,
                        SlugPatch::SetValue(s) => Option::Some(s.clone()),
                    };
                    let new_uri = match &patch.uri {
                        Option::Some(u) => u.clone(),
                        Option::None => row.uri().clone(),
                    };
                    let new_description = match &patch.description {
                        Option::Some(d) => d.clone(),
                        Option::None => row.description().clone(),
                    };
                    let l = Link::make(
                        id,
                        new_slug,
                        new_uri,
                        new_description,
                        row.deleted(),
                        row.created_at(),
                        now,
                    );
                    let out = l.clone();
                    proof {
                        lemma_find_index(old(self)@, id);
                        assert(l@ == patched(row_of(old(self)@, id), patch@, now));
                    }
                    self.links[i] = l;
                    proof {
                        self.lemma_same_ids_wf(old(self)@, i as int);
                    }
                    Option::Some(out)
                } else {
                    Option::None
                }
            },
            Option::None => Option::None,
        }
    }

    /// The compare-and-swap tombstone: atomically, if and only if the row
    /// carrying `id` has `updated_at <= not_modified_since`, sets the
    /// tombstone flag — a no-op rewrite if it was already set — and bumps
    /// `updated_at` to `now`; reports whether the row was affected.
    pub fn conditional_tombstone(&mut self, id: u128, not_modified_since: i64, now: i64) -> (r:
        bool)
        requires
            old(self).wf(),
            ts_in_range(now),
        ensures
            final(self).wf(),
            ({
                let rows = old(self)@;
                if has_id(rows, id) && row_of(rows, id).updated_at <= not_modified_since {
                    r && final(self)@ == rows.update(
                        find_index(rows, id)->Some_0,
                        tombstoned(row_of(rows, id), now),
                    )
                } else {
                    !r && final(self)@ == rows
                }
            }),
    {
        match self.index_of(id) {
            Option::Some(i) => {
                if self.links[i].updated_at() <= not_modified_since {
                    let row = &self.links[i];
                    let new_slug = match row.slug() {
                        Option::Some(s) => Option::Some(s.clone()),
                        Option::None => Option::None,
                    };
                    let l = Link::make(
                        id,
                        new_slug,
                        row.uri().clone(),
                        row.description().clone(),
                        true,
                        row.created_at(),
                        now,
                    );
                    proof {
                        lemma_find_index(old(self)@, id);
                        assert(l@ == tombstoned(row_of(old(self)@, id), now));
                    }
                    self.links[i] = l;
                    proof {
                        self.lemma_same_ids_wf(old(self)@, i as int);
                    }
                    true
                } else {
                    false
                }
            },
            Option::None => false,
        }
    }

    /// A row replacement that kept the identifier and a token-range
    /// timestamp preserves well-formedness.
    proof fn lemma_same_ids_wf(&self, prev: Seq<LinkModel>, i: int)
        requires
            store_wf(prev),
            0 <= i < prev.len(),
            self@.len() == prev.len(),
            forall|j: int| 0 <= j < prev.len() && j != i ==> self@[j] == prev[j],
            self@[i].id == prev[i].id,
            ts_in_range(self@[i].created_at),
            ts_in_range(self@[i].updated_at),
        ensures
            self.wf(),
    {
        let rows = self@;
        assert forall|a: int, b: int| 0 <= a < b < rows.len() implies rows[a].id != rows[b].id by {
            assert(rows[a].id == prev[a].id);
            assert(rows[b].id == prev[b].id);
        }
        assert forall|j: int|
            0 <= j < rows.len() implies ts_in_range(#[trigger] rows[j].created_at) && ts_in_range(
            rows[j].updated_at,
        ) by {
            if j != i {
                assert(rows[j] == prev[j]);
            }
        }
    }
}

} // verus!
