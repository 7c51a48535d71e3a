//! The coordination-service group of endpoints.

pub mod node;

use crate::outcome::{Outcome, OutcomeKind, OutcomeView};
use crate::route::{group, operation, probe, views, Handler, Route, RouteView};
use vstd::prelude::*;

verus! {

/// The greeting of this group's liveness probe.
pub open spec fn greeting() -> Seq<char> {
    "Hello, ZooKeeper"@
}

/// The routes of this group, relative to its prefix.
pub open spec fn routes() -> Seq<RouteView> {
    seq![
        probe(),
        operation("/nodes/create"@, Handler::CreateNode),
        operation("/nodes/delete"@, Handler::DeleteNode),
    ]
}

/// The routing table of this group.
pub fn zookeeper_router() -> (table: Vec<Route>)
    ensures
        views(table@) == routes(),
{
    group("/nodes/create", Handler::CreateNode, "/nodes/delete", Handler::DeleteNode)
}

/// Answers the liveness probe: a success with the group's greeting. No
/// backend is involved.
pub fn hello() -> (outcome: Outcome)
    ensures
        outcome@ == (OutcomeView { kind: OutcomeKind::Success, body: greeting() }),
{
    Outcome::greeting("Hello, ZooKeeper")
}

} // verus!
