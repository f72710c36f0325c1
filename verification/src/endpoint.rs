//! The endpoint mapping: binds requests to controller operations and maps
//! outcomes onto the protocol's status vocabulary. This is the only layer
//! where statuses and headers appear; it performs no business logic of its
//! own — all classification is the controller's.
//!
//! The transport hands these functions plain values: the raw identifier
//! path segment, the raw `If-Unmodified-Since` header if one was sent, and
//! the decoded body payload if the body decoded at all (`None` stands for a
//! missing or malformed body). Creation also takes the freshly drawn
//! identifier, and every mutation the current instant, as arguments — the
//! transport draws one and reads the clock for the other, and everything
//! here is verified for whatever values it hands in.

use vstd::prelude::*;
use crate::codec::{
    format_version_token, parse_link_id, parse_version_token, rfc2822_string_of, rfc2822_value_of,
    uuid_value_of,
};
use crate::controller::{
    read_outcome, remove_outcome, rows_after_remove, rows_after_update, update_outcome, Controller,
    DeleteResult, ReadOutcome, ReadResult, UpdateOutcome, UpdateResult,
};
use crate::link::{Link, LinkUpdate, NewLink, ts_in_range};
use crate::store::{created_row, find_index, has_id, lemma_find_index, row_of, slug_lookup, StoreFault};

verus! {

/// The protocol's status vocabulary.
#[derive(Clone, Copy, PartialEq, Eq, Structural, Debug)]
pub enum Status {
    Success,
    Created,
    NoContent,
    RedirectFound,
    BadRequest,
    PreconditionRequired,
    PreconditionFailed,
    Gone,
    NotFound,
}

/// What a response carries besides its status.
pub enum ResponseBody {
    Empty,
    One(Link),
    Many(Vec<Link>),
}

/// A protocol-level response: a status, an optional resource body, and the
/// two headers this protocol speaks — the resource's version token and a
/// redirect target.
pub struct Response {
    pub status: Status,
    pub body: ResponseBody,
    pub last_modified: Option<String>,
    pub location: Option<String>,
}

impl Response {
    /// A response of nothing but a status.
    fn bare(status: Status) -> (r: Response)
        ensures
            r.status == status,
            r.body is Empty,
            r.last_modified is None,
            r.location is None,
    {
        Response { status, body: ResponseBody::Empty, last_modified: None, location: None }
    }
}

/// Lists the live resources.
pub fn all_links(c: &Controller) -> (r: Response)
    ensures
        r.status == Status::Success,
        (r.body matches ResponseBody::Many(v) && v@.map_values(|l: Link| l@) == crate::store::live_rows(
            c@,
        )),
        r.last_modified is None,
        r.location is None,
{
    Response {
        status: Status::Success,
        body: ResponseBody::Many(c.list_live()),
        last_modified: None,
        location: None,
    }
}

/// Creates a resource from a decoded body, or rejects a missing or
/// malformed one. The storage fault — an identifier collision — propagates
/// as a failure, never as a business outcome.
pub fn new_link(c: &mut Controller, body: Option<NewLink>, id: u128, now: i64) -> (r: Result<
    Response,
    StoreFault,
>)
    requires
        old(c).wf(),
        ts_in_range(now),
    ensures
        final(c).wf(),
        body is None ==> (r matches Ok(resp) && resp.status == Status::BadRequest && final(c)@
            == old(c)@),
        (body matches Some(n) ==> {
            &&& r is Err <==> has_id(old(c)@, id)
            &&& r is Err ==> final(c)@ == old(c)@
            &&& (r matches Ok(resp) ==> resp.status == Status::Created && (
            resp.body matches ResponseBody::One(l) && l@ == created_row(id, n@, now)) && final(c)@
                == old(c)@.push(created_row(id, n@, now)))
        }),
{
    let new = match body {
        Option::Some(n) => n,
        Option::None => {
            return Result::Ok(Response::bare(Status::BadRequest));
        },
    };
    match c.create(new, id, now) {
        Result::Ok(l) => Result::Ok(
            Response {
                status: Status::Created,
                body: ResponseBody::One(l),
                last_modified: None,
                location: None,
            },
        ),
        Result::Err(e) => Result::Err(e),
    }
}

/// Reads one resource: found rows come with their version token in the
/// `Last-Modified` header; tombstoned rows are gone, unknown identifiers
/// not found, and an unparsable identifier is a client error.
pub fn view_link(c: &Controller, id_param: &str) -> (r: Response)
    requires
        c.wf(),
    ensures
        ({
            match uuid_value_of(id_param@) {
                Option::None => r.status == Status::BadRequest,
                Option::Some(id) => match read_outcome(c@, id) {
                    ReadOutcome::NotFound => r.status == Status::NotFound && r.body is Empty,
                    ReadOutcome::Gone => r.status == Status::Gone && r.body is Empty,
                    ReadOutcome::Found(m) => r.status == Status::Success && (
                    r.body matches ResponseBody::One(l) && l@ == m) && (
                    r.last_modified matches Some(s) && s@ == rfc2822_string_of(m.updated_at)),
                },
            }
        }),
{
    let id = match parse_link_id(id_param) {
        Option::Some(id) => id,
        Option::None => {
            return Response::bare(Status::BadRequest);
        },
    };
    match c.read(id) {
        ReadResult::Found(l) => {
            proof {
                lemma_find_index(c@, id);
                let i = find_index(c@, id)->Some_0;
                assert(row_of(c@, id) == c@[i]);
                assert(ts_in_range(c@[i].updated_at));
            }
            let token = format_version_token(l.updated_at());
            Response {
                status: Status::Success,
                body: ResponseBody::One(l),
                last_modified: Option::Some(token),
                location: Option::None,
            }
        },
        ReadResult::Gone => Response::bare(Status::Gone),
        ReadResult::NotFound => Response::bare(Status::NotFound),
    }
}

/// Updates one resource under the protocol's precondition discipline: the
/// version-token header is mandatory — its absence is its own client error,
/// distinct from a malformed token or body — and the resource must not be
/// tombstoned before the body is even considered. The controller remains
/// authoritative for every classification.
pub fn update_link(
    c: &mut Controller,
    id_param: &str,
    if_unmodified_since: Option<&str>,
    body: Option<LinkUpdate>,
    now: i64,
) -> (r: Response)
    requires
        old(c).wf(),
        ts_in_range(now),
    ensures
        final(c).wf(),
        ({
            match uuid_value_of(id_param@) {
                Option::None => r.status == Status::BadRequest && final(c)@ == old(c)@,
                Option::Some(id) => match if_unmodified_since {
                    Option::None => r.status == Status::PreconditionRequired && final(c)@ == old(
                        c,
                    )@,
                    Option::Some(h) => match rfc2822_value_of(h@) {
                        Option::None => r.status == Status::BadRequest && final(c)@ == old(c)@,
                        Option::Some(version) => {
                            if !has_id(old(c)@, id) {
                                r.status == Status::NotFound && final(c)@ == old(c)@
                            } else if row_of(old(c)@, id).deleted {
                                r.status == Status::Gone && final(c)@ == old(c)@
                            } else {
                                match body {
                                    Option::None => r.status == Status::BadRequest && final(c)@
                                        == old(c)@,
                                    Option::Some(p) => {
                                        &&& final(c)@ == rows_after_update(
                                            old(c)@,
                                            id,
                                            p@,
                                            version,
                                            now,
                                        )
                                        &&& (match update_outcome(old(c)@, id, p@, version, now) {
                                            UpdateOutcome::Applied(m) => r.status
                                                == Status::Success && (
                                            r.body matches ResponseBody::One(l) && l@ == m) && (
                                            r.last_modified matches Some(s) && s@
                                                == rfc2822_string_of(m.updated_at)),
                                            UpdateOutcome::Conflict => r.status
                                                == Status::PreconditionFailed && r.body is Empty,
                                            _ => false,
                                        })
                                    },
                                }
                            }
                        },
                    },
                },
            }
        }),
{
    let id = match parse_link_id(id_param) {
        Option::Some(id) => id,
        Option::None => {
            return Response::bare(Status::BadRequest);
        },
    };
    let version = match if_unmodified_since {
        Option::None => {
            return Response::bare(Status::PreconditionRequired);
        },
        Option::Some(h) => match parse_version_token(h) {
            Option::Some(v) => v,
            Option::None => {
                return Response::bare(Status::BadRequest);
            },
        },
    };
    // Answer the fast-path outcomes before the body is considered: a
    // tombstoned or unknown resource never needs its payload decoded.
    match c.read(id) {
        ReadResult::NotFound => {
            return Response::bare(Status::NotFound);
        },
        ReadResult::Gone => {
            return Response::bare(Status::Gone);
        },
        ReadResult::Found(_) => {},
    }
    let patch = match body {
        Option::Some(p) => p,
        Option::None => {
            return Response::bare(Status::BadRequest);
        },
    };
    match c.update(id, &patch, version, now) {
        UpdateResult::Applied(l) => {
            let token = format_version_token(l.updated_at());
            Response {
                status: Status::Success,
                body: ResponseBody::One(l),
                last_modified: Option::Some(token),
                location: Option::None,
            }
        },
        UpdateResult::Conflict => Response::bare(Status::PreconditionFailed),
        UpdateResult::Gone => Response::bare(Status::Gone),
        UpdateResult::NotFound => Response::bare(Status::NotFound),
    }
}

/// Deletes one resource under the same mandatory version-token discipline.
/// A tombstoned resource with a valid token is removed again — success, not
/// `Gone` — per the idempotence rule.
pub fn delete_link(
    c: &mut Controller,
    id_param: &str,
    if_unmodified_since: Option<&str>,
    now: i64,
) -> (r: Response)
    requires
        old(c).wf(),
        ts_in_range(now),
    ensures
        final(c).wf(),
        ({
            match uuid_value_of(id_param@) {
                Option::None => r.status == Status::BadRequest && final(c)@ == old(c)@,
                Option::Some(id) => {
                    if !has_id(old(c)@, id) {
                        r.status == Status::NotFound && final(c)@ == old(c)@
                    } else {
                        match if_unmodified_since {
                            Option::None => r.status == Status::PreconditionRequired && final(c)@
                                == old(c)@,
                            Option::Some(h) => match rfc2822_value_of(h@) {
                                Option::None => r.status == Status::BadRequest && final(c)@ == old(
                                    c,
                                )@,
                                Option::Some(version) => {
                                    &&& final(c)@ == rows_after_remove(old(c)@, id, version, now)
                                    &&& (match remove_outcome(old(c)@, id, version) {
                                        DeleteResult::Removed => r.status == Status::NoContent,
                                        DeleteResult::Conflict => r.status
                                            == Status::PreconditionFailed,
                                        DeleteResult::NotFound => false,
                                    })
                                },
                            },
                        }
                    }
                },
            }
        }),
{
    let id = match parse_link_id(id_param) {
        Option::Some(id) => id,
        Option::None => {
            return Response::bare(Status::BadRequest);
        },
    };
    if !c.id_exists(id) {
        return Response::bare(Status::NotFound);
    }
    let version = match if_unmodified_since {
        Option::None => {
            return Response::bare(Status::PreconditionRequired);
        },
        Option::Some(h) => match parse_version_token(h) {
            Option::Some(v) => v,
            Option::None => {
                return Response::bare(Status::BadRequest);
            },
        },
    };
    match c.remove(id, version, now) {
        DeleteResult::Removed => Response::bare(Status::NoContent),
        DeleteResult::Conflict => Response::bare(Status::PreconditionFailed),
        DeleteResult::NotFound => Response::bare(Status::NotFound),
    }
}

/// Resolves an alias: a live match redirects to its target, a tombstoned
/// match is gone, and an unknown slug is not found.
pub fn redirect(c: &Controller, slug: &String) -> (r: Response)
    ensures
        ({
            match slug_lookup(c@, slug@) {
                Option::None => r.status == Status::NotFound,
                Option::Some(m) => {
                    if m.deleted {
                        r.status == Status::Gone
                    } else {
                        r.status == Status::RedirectFound && (r.location matches Some(u) && u@
                            == m.uri)
                    }
                },
            }
        }),
{
    match c.by_slug(slug) {
        Option::Some(l) => {
            if l.deleted() {
                Response::bare(Status::Gone)
            } else {
                Response {
                    status: Status::RedirectFound,
                    body: ResponseBody::Empty,
                    last_modified: Option::None,
                    location: Option::Some(l.uri().clone()),
                }
            }
        },
        Option::None => Response::bare(Status::NotFound),
    }
}

} // verus!
