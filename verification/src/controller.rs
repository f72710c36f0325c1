//! The concurrency controller: enforces the resource's mutation rules on
//! top of the store's raw compare-and-swap primitives and classifies every
//! outcome for the endpoint layer.
//!
//! The asymmetry between `update` and `remove` is deliberate and
//! load-bearing: an update on a tombstoned row is always `Gone`, while a
//! repeated delete with a still-valid token succeeds, because deletion is
//! idempotent and commutes with itself while an update after deletion never
//! may be applied.

use vstd::prelude::*;
use crate::link::{Link, LinkModel, LinkUpdate, LinkUpdateModel, NewLink, patched, ts_in_range};
use crate::store::{
    created_row, find_index, has_id, live_rows, row_of, slug_lookup, store_wf, Store, StoreFault,
};
use crate::link::tombstoned;

verus! {

/// The outcome of reading a resource by identifier.
pub enum ReadResult {
    Found(Link),
    Gone,
    NotFound,
}

/// The mathematical image of a read outcome.
pub enum ReadOutcome {
    Found(LinkModel),
    Gone,
    NotFound,
}

impl View for ReadResult {
    type V = ReadOutcome;

    open spec fn view(&self) -> ReadOutcome {
        match self {
            ReadResult::Found(l) => ReadOutcome::Found(l@),
            ReadResult::Gone => ReadOutcome::Gone,
            ReadResult::NotFound => ReadOutcome::NotFound,
        }
    }
}

/// The outcome of a conditional update.
pub enum UpdateResult {
    Applied(Link),
    Conflict,
    Gone,
    NotFound,
}

/// The mathematical image of an update outcome.
pub enum UpdateOutcome {
    Applied(LinkModel),
    Conflict,
    Gone,
    NotFound,
}

impl View for UpdateResult {
    type V = UpdateOutcome;

    open spec fn view(&self) -> UpdateOutcome {
        match self {
            UpdateResult::Applied(l) => UpdateOutcome::Applied(l@),
            UpdateResult::Conflict => UpdateOutcome::Conflict,
            UpdateResult::Gone => UpdateOutcome::Gone,
            UpdateResult::NotFound => UpdateOutcome::NotFound,
        }
    }
}

/// The outcome of a conditional delete. Deletion is idempotent, so there is
/// no `Gone` here: a tombstoned row with a still-valid token is removed
/// again, successfully.
#[derive(Clone, Copy, PartialEq, Eq, Structural, Debug)]
pub enum DeleteResult {
    Removed,
    Conflict,
    NotFound,
}

/// What a read classifies, as a function of the rows.
pub open spec fn read_outcome(rows: Seq<LinkModel>, id: u128) -> ReadOutcome {
    if !has_id(rows, id) {
        ReadOutcome::NotFound
    } else if row_of(rows, id).deleted {
        ReadOutcome::Gone
    } else {
        ReadOutcome::Found(row_of(rows, id))
    }
}

/// What an update classifies, as a function of the rows: unknown rows are
/// not found, tombstoned rows are gone whatever the token, a row no newer
/// than the token takes the patch, and anything newer conflicts.
pub open spec fn update_outcome(
    rows: Seq<LinkModel>,
    id: u128,
    p: LinkUpdateModel,
    version: i64,
    now: i64,
) -> UpdateOutcome {
    if !has_id(rows, id) {
        UpdateOutcome::NotFound
    } else if row_of(rows, id).deleted {
        UpdateOutcome::Gone
    } else if row_of(rows, id).updated_at <= version {
        UpdateOutcome::Applied(patched(row_of(rows, id), p, now))
    } else {
        UpdateOutcome::Conflict
    }
}

/// The rows after an update: changed only where the update applied.
pub open spec fn rows_after_update(
    rows: Seq<LinkModel>,
    id: u128,
    p: LinkUpdateModel,
    version: i64,
    now: i64,
) -> Seq<LinkModel> {
    if has_id(rows, id) && !row_of(rows, id).deleted && row_of(rows, id).updated_at <= version {
        rows.update(find_index(rows, id)->Some_0, patched(row_of(rows, id), p, now))
    } else {
        rows
    }
}

/// What a delete classifies, as a function of the rows: unknown rows are
/// not found, a row no newer than the token is removed — tombstoned or not —
/// and anything newer conflicts.
pub open spec fn remove_outcome(rows: Seq<LinkModel>, id: u128, version: i64) -> DeleteResult {
    if !has_id(rows, id) {
        DeleteResult::NotFound
    } else if row_of(rows, id).updated_at <= version {
        DeleteResult::Removed
    } else {
        DeleteResult::Conflict
    }
}

/// The rows after a delete: changed only where the tombstone applied.
pub open spec fn rows_after_remove(
    rows: Seq<LinkModel>,
    id: u128,
    version: i64,
    now: i64,
) -> Seq<LinkModel> {
    if has_id(rows, id) && row_of(rows, id).updated_at <= version {
        rows.update(find_index(rows, id)->Some_0, tombstoned(row_of(rows, id), now))
    } else {
        rows
    }
}

/// The concurrency controller, owning the store handed to it at startup.
pub struct Controller {
    store: Store,
}

impl View for Controller {
    type V = Seq<LinkModel>;

    closed spec fn view(&self) -> Seq<LinkModel> {
        self.store@
    }
}

impl Controller {
    pub open spec fn wf(&self) -> bool {
        store_wf(self@)
    }

    /// Builds a controller over an explicitly constructed store.
    pub fn new(store: Store) -> (r: Controller)
        requires
            store.wf(),
        ensures
            r@ == store@,
            r.wf(),
    {
        Controller { store }
    }

    /// Creates a resource from the payload: delegates to the store's
    /// insert, which succeeds exactly when the identifier is fresh.
    pub fn create(&mut self, new: NewLink, id: u128, now: i64) -> (r: Result<Link, StoreFault>)
        requires
            old(self).wf(),
            ts_in_range(now),
        ensures
            final(self).wf(),
            r is Err <==> has_id(old(self)@, id),
            (r matches Ok(l) ==> l@ == created_row(id, new@, now) && final(self)@ == old(self)@.push(
                l@,
            )),
            r is Err ==> final(self)@ == old(self)@,
    {
        self.store.insert(new, id, now)
    }

    /// Classifies a read: not found, gone, or the live row.
    pub fn read(&self, id: u128) -> (r: ReadResult)
        ensures
            r@ == read_outcome(self@, id),
    {
        match self.store.get_by_id(id) {
            Option::Some(l) => {
                if l.deleted() {
                    ReadResult::Gone
                } else {
                    ReadResult::Found(l.clone())
                }
            },
            Option::None => ReadResult::NotFound,
        }
    }

    /// Whether any resource, live or tombstoned, carries `id`.
    pub fn id_exists(&self, id: u128) -> (r: bool)
        ensures
            r == has_id(self@, id),
    {
        self.store.id_exists(id)
    }

    /// The conditional update: the tombstone check runs before the
    /// compare-and-swap, so a tombstoned resource is `Gone` whatever the
    /// token; otherwise the store's CAS decides between applied and
    /// conflict.
    pub fn update(&mut self, id: u128, patch: &LinkUpdate, version: i64, now: i64) -> (r:
        UpdateResult)
        requires
            old(self).wf(),
            ts_in_range(now),
        ensures
            final(self).wf(),
            r@ == update_outcome(old(self)@, id, patch@, version, now),
            final(self)@ == rows_after_update(old(self)@, id, patch@, version, now),
    {
        if !self.store.id_exists(id) {
            return UpdateResult::NotFound;
        }
        if self.store.is_deleted(id) {
            return UpdateResult::Gone;
        }
        match self.store.conditional_update(id, patch, version, now) {
            Option::Some(l) => UpdateResult::Applied(l),
            Option::None => UpdateResult::Conflict,
        }
    }

    /// The conditional delete: idempotent, so no tombstone check — a
    /// still-valid token removes a row whether or not it was already
    /// tombstoned, and the store's CAS decides between removed and conflict.
    pub fn remove(&mut self, id: u128, version: i64, now: i64) -> (r: DeleteResult)
        requires
            old(self).wf(),
            ts_in_range(now),
        ensures
            final(self).wf(),
            r == remove_outcome(old(self)@, id, version),
            final(self)@ == rows_after_remove(old(self)@, id, version, now),
    {
        if !self.store.id_exists(id) {
            return DeleteResult::NotFound;
        }
        if self.store.conditional_tombstone(id, version, now) {
            DeleteResult::Removed
        } else {
            DeleteResult::Conflict
        }
    }

    /// All live resources, in store order.
    pub fn list_live(&self) -> (r: Vec<Link>)
        ensures
            r@.map_values(|l: Link| l@) == live_rows(self@),
    {
        self.store.list_live()
    }

    /// The first resource carrying `slug`, live or tombstoned.
    pub fn by_slug(&self, slug: &String) -> (r: Option<&Link>)
        ensures
            match slug_lookup(self@, slug@) {
                Option::Some(m) => r matches Option::Some(l) && l@ == m,
                Option::None => r is None,
            },
    {
        self.store.get_by_slug(slug)
    }
}

} // verus!
