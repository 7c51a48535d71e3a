//! The messaging-system group of endpoints.

pub mod tenant;

use crate::outcome::{Outcome, OutcomeKind, OutcomeView};
use crate::route::{group, operation, probe, views, Handler, Route, RouteView};
use vstd::prelude::*;

verus! {

/// The greeting of this group's liveness probe.
pub open spec fn greeting() -> Seq<char> {
    "Hello, Pulsar"@
}

/// The routes of this group, relative to its prefix.
pub open spec fn routes() -> Seq<RouteView> {
    seq![
        probe(),
        operation("/tenants/create"@, Handler::CreateTenant),
        operation("/tenants/delete"@, Handler::DeleteTenant),
    ]
}

/// The routing table of this group.
pub fn pulsar_router() -> (table: Vec<Route>)
    ensures
        views(table@) == routes(),
{
    group("/tenants/create", Handler::CreateTenant, "/tenants/delete", Handler::DeleteTenant)
}

/// Answers the liveness probe: a success with the group's greeting. No
/// backend is involved.
pub fn hello() -> (outcome: Outcome)
    ensures
        outcome@ == (OutcomeView { kind: OutcomeKind::Success, body: greeting() }),
{
    Outcome::greeting("Hello, Pulsar")
}

} // verus!
