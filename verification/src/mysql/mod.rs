//! The relational-database group of endpoints.

pub mod database;

use crate::outcome::{Outcome, OutcomeKind, OutcomeView};
use crate::route::{group, operation, probe, views, Handler, Route, RouteView};
use vstd::prelude::*;

verus! {

/// The greeting of this group's liveness probe.
pub open spec fn greeting() -> Seq<char> {
    "Hello, Mysql"@
}

/// The routes of this group, relative to its prefix.
pub open spec fn routes() -> Seq<RouteView> {
    seq![
        probe(),
        operation("/databases/create"@, Handler::CreateDatabase),
        operation("/databases/delete"@, Handler::DropDatabase),
    ]
}

/// The routing table of this group.
pub fn mysql_router() -> (table: Vec<Route>)
    ensures
        views(table@) == routes(),
{
    group("/databases/create", Handler::CreateDatabase, "/databases/delete", Handler::DropDatabase)
}

/// Answers the liveness probe: a success with the group's greeting. No
/// backend is involved.
pub fn hello() -> (outcome: Outcome)
    ensures
        outcome@ == (OutcomeView { kind: OutcomeKind::Success, body: greeting() }),
{
    Outcome::greeting("Hello, Mysql")
}

} // verus!
