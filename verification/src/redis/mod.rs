//! The key-value group of endpoints.

pub mod client;
pub mod cluster_enable;
pub mod key;

use crate::outcome::{Outcome, OutcomeKind, OutcomeView};
use crate::route::{group, operation, probe, views, Handler, Route, RouteView};
use vstd::prelude::*;

verus! {

/// The greeting of this group's liveness probe.
pub open spec fn greeting() -> Seq<char> {
    "Hello, Redis"@
}

/// The routes of this group, relative to its prefix.
pub open spec fn routes() -> Seq<RouteView> {
    seq![
        probe(),
        operation("/keys/set"@, Handler::SetKey),
        operation("/keys/delete"@, Handler::DeleteKey),
    ]
}

/// The routing table of this group.
pub fn redis_router() -> (table: Vec<Route>)
    ensures
        views(table@) == routes(),
{
    group("/keys/set", Handler::SetKey, "/keys/delete", Handler::DeleteKey)
}

/// Answers the liveness probe: a success with the group's greeting. No
/// backend is involved.
pub fn hello() -> (outcome: Outcome)
    ensures
        outcome@ == (OutcomeView { kind: OutcomeKind::Success, body: greeting() }),
{
    Outcome::greeting("Hello, Redis")
}

} // verus!
