//! The data model: a `Link` row, the creation payload `NewLink`, and the
//! partial-update payload `LinkUpdate` with its tri-state slug patch.

use vstd::prelude::*;

verus! {

/// Timestamps are whole seconds since the Unix epoch. The protocol's version
/// tokens travel as RFC 2822 dates, which carry one-second resolution, so the
/// model keeps every stored timestamp at that resolution already: comparing a
/// stored timestamp against a parsed token is then exact, with no truncation
/// step. `MAX_TIMESTAMP` is the last second of the year 9999, the latest
/// instant the token format is asked to carry.
pub const MAX_TIMESTAMP: i64 = 253402300799;

/// True of a timestamp the model admits: representable as a version token.
pub open spec fn ts_in_range(t: i64) -> bool {
    0 <= t <= MAX_TIMESTAMP
}

/// The mathematical image of one stored link row.
pub struct LinkModel {
    pub id: u128,
    pub slug: Option<Seq<char>>,
    pub uri: Seq<char>,
    pub description: Seq<char>,
    pub deleted: bool,
    pub created_at: i64,
    pub updated_at: i64,
}

/// One stored link: an alias pointing at a target URI, with a one-way
/// tombstone flag and the `updated_at` timestamp that doubles as the
/// resource's version token.
pub struct Link {
    id: u128,
    slug: Option<String>,
    uri: String,
    description: String,
    deleted: bool,
    created_at: i64,
    updated_at: i64,
}

/// View of an optional owned string as an optional character sequence.
pub open spec fn opt_view(s: Option<String>) -> Option<Seq<char>> {
    match s {
        Option::Some(v) => Option::Some(v@),
        Option::None => Option::None,
    }
}

impl View for Link {
    type V = LinkModel;

    closed spec fn view(&self) -> LinkModel {
        LinkModel {
            id: self.id,
            slug: opt_view(self.slug),
            uri: self.uri@,
            description: self.description@,
            deleted: self.deleted,
            created_at: self.created_at,
            updated_at: self.updated_at,
        }
    }
}

impl Link {
    /// Builds a row; only the store creates rows, so this stays in the crate.
    pub(crate) fn make(
        id: u128,
        slug: Option<String>,
        uri: String,
        description: String,
        deleted: bool,
        created_at: i64,
        updated_at: i64,
    ) -> (r: Link)
        ensures
            r@ == (LinkModel {
                id,
                slug: opt_view(slug),
                uri: uri@,
                description: description@,
                deleted,
                created_at,
                updated_at,
            }),
    {
        Link { id, slug, uri, description, deleted, created_at, updated_at }
    }

    pub fn id(&self) -> (r: u128)
        ensures
            r == self@.id,
    {
        self.id
    }

    pub fn slug(&self) -> (r: &Option<String>)
        ensures
            opt_view(*r) == self@.slug,
    {
        &self.slug
    }

    pub fn uri(&self) -> (r: &String)
        ensures
            r@ == self@.uri,
    {
        &self.uri
    }

    pub fn description(&self) -> (r: &String)
        ensures
            r@ == self@.description,
    {
        &self.description
    }

    pub fn deleted(&self) -> (r: bool)
        ensures
            r == self@.deleted,
    {
        self.deleted
    }

    pub fn created_at(&self) -> (r: i64)
        ensures
            r == self@.created_at,
    {
        self.created_at
    }

    pub fn updated_at(&self) -> (r: i64)
        ensures
            r == self@.updated_at,
    {
        self.updated_at
    }
}

impl Clone for Link {
    fn clone(&self) -> (r: Self)
        ensures
            r@ == self@,
    {
        Link {
            id: self.id,
            slug: match &self.slug {
                Option::Some(s) => Option::Some(s.clone()),
                Option::None => Option::None,
            },
            uri: self.uri.clone(),
            description: self.description.clone(),
            deleted: self.deleted,
            created_at: self.created_at,
            updated_at: self.updated_at,
        }
    }
}

/// The creation payload: everything a client may choose about a new link.
pub struct NewLink {
    pub slug: Option<String>,
    pub uri: String,
    pub description: String,
}

/// The mathematical image of a creation payload.
pub struct NewLinkModel {
    pub slug: Option<Seq<char>>,
    pub uri: Seq<char>,
    pub description: Seq<char>,
}

impl View for NewLink {
    type V = NewLinkModel;

    open spec fn view(&self) -> NewLinkModel {
        NewLinkModel { slug: opt_view(self.slug), uri: self.uri@, description: self.description@ }
    }
}

/// What an update payload asks of the slug field. The three states are
/// distinct on purpose: leaving the slug alone and clearing it must not
/// collapse into one encoding.
pub enum SlugPatch {
    /// The field was absent: leave the stored slug untouched.
    Unset,
    /// The field was present and null: clear the stored slug.
    SetNull,
    /// The field was present with a value: replace the stored slug.
    SetValue(String),
}

/// The mathematical image of a slug patch.
pub enum SlugPatchModel {
    Unset,
    SetNull,
    SetValue(Seq<char>),
}

impl View for SlugPatch {
    type V = SlugPatchModel;

    open spec fn view(&self) -> SlugPatchModel {
        match self {
            SlugPatch::Unset => SlugPatchModel::Unset,
            SlugPatch::SetNull => SlugPatchModel::SetNull,
            SlugPatch::SetValue(s) => SlugPatchModel::SetValue(s@),
        }
    }
}

/// The partial-update payload. `uri` and `description` are never nullable,
/// so for them absent means keep and present means replace.
pub struct LinkUpdate {
    pub slug: SlugPatch,
    pub uri: Option<String>,
    pub description: Option<String>,
}

/// The mathematical image of an update payload.
pub struct LinkUpdateModel {
    pub slug: SlugPatchModel,
    pub uri: Option<Seq<char>>,
    pub description: Option<Seq<char>>,
}

impl View for LinkUpdate {
    type V = LinkUpdateModel;

    open spec fn view(&self) -> LinkUpdateModel {
        LinkUpdateModel {
            slug: self.slug@,
            uri: opt_view(self.uri),
            description: opt_view(self.description),
        }
    }
}

/// The row that results from applying an update payload to a stored row at
/// instant `now`: each field follows its patch state, `updated_at` is bumped
/// to `now`, and `id`, `created_at` and the tombstone flag are untouched.
pub open spec fn patched(l: LinkModel, p: LinkUpdateModel, now: i64) -> LinkModel {
    LinkModel {
        id: l.id,
        slug: match p.slug {
            SlugPatchModel::Unset => l.slug,
            SlugPatchModel::SetNull => Option::None,
            SlugPatchModel::SetValue(s) => Option::Some(s),
        },
        uri: match p.uri {
            Option::Some(u) => u,
            Option::None => l.uri,
        },
        description: match p.description {
            Option::Some(d) => d,
            Option::None => l.description,
        },
        deleted: l.deleted,
        created_at: l.created_at,
        updated_at: now,
    }
}

/// The row that results from tombstoning a stored row at instant `now`: the
/// tombstone flag is set, `updated_at` is bumped — tombstoning is a mutation
/// like any other, which is what lets a stale version token detect it — and
/// every other field is frozen as it stood.
pub open spec fn tombstoned(l: LinkModel, now: i64) -> LinkModel {
    LinkModel {
        id: l.id,
        slug: l.slug,
        uri: l.uri,
        description: l.description,
        deleted: true,
        created_at: l.created_at,
        updated_at: now,
    }
}

} // verus!
