//! The routing surface: which method and path reach which handler.

use vstd::prelude::*;

verus! {

/// The HTTP methods that the gateway answers.
#[derive(Clone, Copy, Debug, PartialEq, Eq, Structural)]
pub enum Method {
    Get,
    Post,
}

/// The handlers of the gateway.
#[derive(Clone, Copy, Debug, PartialEq, Eq, Structural)]
pub enum Handler {
    /// The liveness probe of a group.
    Hello,
    CreateBucket,
    DeleteBucket,
    CreateDatabase,
    DropDatabase,
    CreateTenant,
    DeleteTenant,
    SetKey,
    DeleteKey,
    CreateNode,
    DeleteNode,
}

/// One route of a group, with its path relative to the group's prefix.
#[derive(Clone, Copy, Debug, PartialEq, Eq)]
pub struct Route {
    pub method: Method,
    pub path: &'static str,
    pub handler: Handler,
}

/// Mathematical model of a [`Route`].
pub ghost struct RouteView {
    pub method: Method,
    pub path: Seq<char>,
    pub handler: Handler,
}

impl View for Route {
    type V = RouteView;

    open spec fn view(&self) -> RouteView {
        RouteView { method: self.method, path: self.path@, handler: self.handler }
    }
}

/// The liveness probe, present in every group.
pub open spec fn probe() -> RouteView {
    RouteView { method: Method::Get, path: "/hello"@, handler: Handler::Hello }
}

/// A route that performs an operation: operations are posted.
pub open spec fn operation(path: Seq<char>, handler: Handler) -> RouteView {
    RouteView { method: Method::Post, path, handler }
}

/// The routes of a group, as models.
pub open spec fn views(routes: Seq<Route>) -> Seq<RouteView> {
    routes.map_values(|route: Route| route@)
}

/// The routes of a group: its liveness probe, then the two operations on its
/// resource.
pub(crate) fn group(
    first_path: &'static str,
    first: Handler,
    second_path: &'static str,
    second: Handler,
) -> (routes: Vec<Route>)
    ensures
        views(routes@) == seq![
            probe(),
            operation(first_path@, first),
            operation(second_path@, second),
        ],
{
    let mut routes: Vec<Route> = Vec::new();
    routes.push(Route { method: Method::Get, path: "/hello", handler: Handler::Hello });
    routes.push(Route { method: Method::Post, path: first_path, handler: first });
    routes.push(Route { method: Method::Post, path: second_path, handler: second });
    assert(views(routes@) =~= seq![
        probe(),
        operation(first_path@, first),
        operation(second_path@, second),
    ]);
    routes
}

} // verus!
