//! The object-storage group of endpoints.

pub mod bucket;
pub mod credentials;

use crate::outcome::{Outcome, OutcomeKind, OutcomeView};
use crate::route::{group, operation, probe, views, Handler, Route, RouteView};
use vstd::prelude::*;

verus! {

/// The greeting of this group's liveness probe.
pub open spec fn greeting() -> Seq<char> {
    "Hello, Minio"@
}

/// The routes of this group, relative to its prefix.
pub open spec fn routes() -> Seq<RouteView> {
    seq![
        probe(),
        operation("/buckets/create"@, Handler::CreateBucket),
        operation("/buckets/delete"@, Handler::DeleteBucket),
    ]
}

/// The routing table of this group.
pub fn minio_router() -> (table: Vec<Route>)
    ensures
        views(table@) == routes(),
{
    group("/buckets/create", Handler::CreateBucket, "/buckets/delete", Handler::DeleteBucket)
}

/// Answers the liveness probe: a success with the group's greeting. No
/// backend is involved.
pub fn hello() -> (outcome: Outcome)
    ensures
        outcome@ == (OutcomeView { kind: OutcomeKind::Success, body: greeting() }),
{
    Outcome::greeting("Hello, Minio")
}

} // verus!
