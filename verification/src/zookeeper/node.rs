//! Nodes of the coordination service, created and deleted.

use crate::outcome::{bad_request_view, Outcome, Step};
use crate::text::{address, address_text};
use vstd::prelude::*;
use vstd::utf8::encode_utf8;

verus! {

/// Seconds granted to a session with the coordination service.
pub const SESSION_TIMEOUT_SECS: u64 = 5;

/// Request to create a node at `node_path` that holds `data`.
#[derive(Clone, Debug, PartialEq, Eq)]
pub struct CreateNodeReq {
    pub host: String,
    pub port: u16,
    pub node_path: String,
    pub data: String,
}

/// Request to delete the node at `node_path`.
#[derive(Clone, Debug, PartialEq, Eq)]
pub struct DeleteNodeReq {
    pub host: String,
    pub port: u16,
    pub node_path: String,
}

/// The kinds of node that the coordination service can create.
#[derive(Clone, Copy, Debug, PartialEq, Eq, Structural)]
pub enum NodeMode {
    Persistent,
    Ephemeral,
    PersistentSequential,
    EphemeralSequential,
    Container,
}

/// The ready-made access lists of the coordination-service client.
#[derive(Clone, Copy, Debug, PartialEq, Eq, Structural)]
pub enum NodeAcl {
    /// Everyone may do everything.
    OpenUnsafe,
    /// Everyone may read.
    ReadUnsafe,
    /// The creator may do everything.
    CreatorAll,
}

/// The creation of one node in one session.
#[derive(Clone, Debug, PartialEq, Eq)]
pub struct NodeCreation {
    /// Address of the service, `host:port`.
    pub connect: String,
    pub timeout_secs: u64,
    pub path: String,
    pub data: Vec<u8>,
    pub acl: NodeAcl,
    pub mode: NodeMode,
}

/// The deletion of one node in one session.
#[derive(Clone, Debug, PartialEq, Eq)]
pub struct NodeDeletion {
    /// Address of the service, `host:port`.
    pub connect: String,
    pub timeout_secs: u64,
    pub path: String,
    /// The version the node must have, or `None` to delete whatever is there.
    pub version: Option<i32>,
}

/// `call` is the backend call that carries out `req`: a persistent node, open
/// to everyone, that holds the request's data in UTF-8.
pub open spec fn creates_node(call: NodeCreation, req: CreateNodeReq) -> bool {
    &&& call.connect@ == address(req.host@, req.port)
    &&& call.timeout_secs == SESSION_TIMEOUT_SECS
    &&& call.path == req.node_path
    &&& call.data@ == encode_utf8(req.data@)
    &&& call.acl == NodeAcl::OpenUnsafe
    &&& call.mode == NodeMode::Persistent
}

/// `call` is the backend call that carries out `req`: the node is deleted
/// whatever its version.
pub open spec fn deletes_node(call: NodeDeletion, req: DeleteNodeReq) -> bool {
    &&& call.connect@ == address(req.host@, req.port)
    &&& call.timeout_secs == SESSION_TIMEOUT_SECS
    &&& call.path == req.node_path
    &&& call.version is None
}

/// The backend call that creates the node.
pub fn create_node_internal(req: CreateNodeReq) -> (call: NodeCreation)
    ensures
        creates_node(call, req),
{
    let connect = address_text(req.host.as_str(), req.port);
    let data = req.data.as_str().as_bytes_vec();
    NodeCreation {
        connect,
        timeout_secs: SESSION_TIMEOUT_SECS,
        path: req.node_path,
        data,
        acl: NodeAcl::OpenUnsafe,
        mode: NodeMode::Persistent,
    }
}

/// The backend call that deletes the node.
pub fn delete_node_internal(req: DeleteNodeReq) -> (call: NodeDeletion)
    ensures
        deletes_node(call, req),
{
    let connect = address_text(req.host.as_str(), req.port);
    NodeDeletion { connect, timeout_secs: SESSION_TIMEOUT_SECS, path: req.node_path, version: None }
}

/// Handles a node creation whose body has been decoded: a body that did not
/// decode is answered as a bad request and no backend is contacted; otherwise
/// the call of [`create_node_internal`] is to be made.
pub fn create_node(decoded: Result<CreateNodeReq, String>) -> (step: Step<NodeCreation>)
    ensures
        match decoded {
            Ok(req) => step matches Step::Invoke(call) && creates_node(call, req),
            Err(reason) => step matches Step::Reply(outcome) && outcome@ == bad_request_view(
                reason@,
            ),
        },
{
    match decoded {
        Ok(req) => Step::Invoke(create_node_internal(req)),
        Err(reason) => Step::Reply(Outcome::bad_request(reason)),
    }
}

/// Handles a node deletion whose body has been decoded: a body that did not
/// decode is answered as a bad request and no backend is contacted; otherwise
/// the call of [`delete_node_internal`] is to be made.
pub fn delete_node(decoded: Result<DeleteNodeReq, String>) -> (step: Step<NodeDeletion>)
    ensures
        match decoded {
            Ok(req) => step matches Step::Invoke(call) && deletes_node(call, req),
            Err(reason) => step matches Step::Reply(outcome) && outcome@ == bad_request_view(
                reason@,
            ),
        },
{
    match decoded {
        Ok(req) => Step::Invoke(delete_node_internal(req)),
        Err(reason) => Step::Reply(Outcome::bad_request(reason)),
    }
}

} // verus!
