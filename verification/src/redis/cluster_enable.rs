//! The query flag that selects between a single node and a cluster.

use vstd::prelude::*;

verus! {

/// Query parameters of the key operations.
#[derive(Clone, Copy, Debug, PartialEq, Eq, Structural)]
pub struct Params {
    /// Whether the URL of the request lists the nodes of a cluster.
    pub cluster: bool,
}

} // verus!
