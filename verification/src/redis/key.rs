//! Setting and deleting keys of the key-value store.

use crate::outcome::{bad_request_view, server_error_view, Outcome, Step};
use crate::redis::client::{error_text_of, key_client, key_client_of, KeyClient};
use crate::redis::cluster_enable::Params;
use vstd::prelude::*;

verus! {

/// Request to set `key` to `value` in the store at `url`.
#[derive(Clone, Debug, PartialEq, Eq)]
pub struct SetKeyReq {
    pub url: String,
    pub key: String,
    pub value: String,
}

/// Request to delete `key` from the store at `url`.
#[derive(Clone, Debug, PartialEq, Eq)]
pub struct DeleteKeyReq {
    pub url: String,
    pub key: String,
}

/// One SET command and the client to send it through.
#[derive(Debug)]
pub struct KeyWrite {
    pub client: KeyClient,
    pub key: String,
    pub value: String,
}

/// One DEL command and the client to send it through.
#[derive(Debug)]
pub struct KeyRemoval {
    pub client: KeyClient,
    pub key: String,
}

/// `built` is what a SET for `req` comes to: the command through the client
/// for the request's URL, or the text of the reason why no client can be built.
pub open spec fn writes_key(built: Result<KeyWrite, String>, req: SetKeyReq, cluster: bool) -> bool {
    match key_client_of(req.url@, cluster) {
        Ok(client) => built == Ok::<KeyWrite, String>(
            KeyWrite { client, key: req.key, value: req.value },
        ),
        Err(error) => built matches Err(text) && text@ == error_text_of(error),
    }
}

/// `built` is what a DEL for `req` comes to: the command through the client
/// for the request's URL, or the text of the reason why no client can be built.
pub open spec fn removes_key(
    built: Result<KeyRemoval, String>,
    req: DeleteKeyReq,
    cluster: bool,
) -> bool {
    match key_client_of(req.url@, cluster) {
        Ok(client) => built == Ok::<KeyRemoval, String>(KeyRemoval { client, key: req.key }),
        Err(error) => built matches Err(text) && text@ == error_text_of(error),
    }
}

/// `step` is how a decoded SET is handled: its command is invoked, or, where
/// no client can be built for its URL, the caller is answered with a server
/// error that carries the client library's reason.
pub open spec fn handles_set(step: Step<KeyWrite>, req: SetKeyReq, cluster: bool) -> bool {
    match key_client_of(req.url@, cluster) {
        Ok(client) => step == Step::Invoke(KeyWrite { client, key: req.key, value: req.value }),
        Err(error) => step matches Step::Reply(outcome) && outcome@ == server_error_view(
            error_text_of(error),
        ),
    }
}

/// `step` is how a decoded DEL is handled: its command is invoked, or, where
/// no client can be built for its URL, the caller is answered with a server
/// error that carries the client library's reason.
pub open spec fn handles_delete(step: Step<KeyRemoval>, req: DeleteKeyReq, cluster: bool) -> bool {
    match key_client_of(req.url@, cluster) {
        Ok(client) => step == Step::Invoke(KeyRemoval { client, key: req.key }),
        Err(error) => step matches Step::Reply(outcome) && outcome@ == server_error_view(
            error_text_of(error),
        ),
    }
}

/// Prepares the SET command of a request: builds the single-node or the
/// cluster client for its URL, as `cluster` says, without connecting.
pub fn set_key_internal(req: SetKeyReq, cluster: bool) -> (built: Result<KeyWrite, String>)
    ensures
        writes_key(built, req, cluster),
        built matches Ok(call) ==> (call.client is Cluster <==> cluster),
{
    match key_client(req.url, cluster) {
        Ok(client) => Ok(KeyWrite { client, key: req.key, value: req.value }),
        Err(text) => Err(text),
    }
}

/// Prepares the DEL command of a request: builds the single-node or the
/// cluster client for its URL, as `cluster` says, without connecting.
pub fn delete_key_internal(req: DeleteKeyReq, cluster: bool) -> (built: Result<
    KeyRemoval,
    String,
>)
    ensures
        removes_key(built, req, cluster),
        built matches Ok(call) ==> (call.client is Cluster <==> cluster),
{
    match key_client(req.url, cluster) {
        Ok(client) => Ok(KeyRemoval { client, key: req.key }),
        Err(text) => Err(text),
    }
}

/// Handles a SET whose body and query have been decoded. A body or a query
/// that did not decode is answered as a bad request, the body's fault first.
/// A URL from which no client can be built is answered as a server error with
/// the client library's reason. In both cases no backend is contacted.
/// Otherwise the command of [`set_key_internal`] is to be sent.
pub fn set_key(decoded: Result<SetKeyReq, String>, params: Result<Params, String>) -> (step: Step<
    KeyWrite,
>)
    ensures
        match (decoded, params) {
            (Err(reason), _) => step matches Step::Reply(outcome) && outcome@ == bad_request_view(
                reason@,
            ),
            (Ok(_), Err(reason)) => step matches Step::Reply(outcome) && outcome@
                == bad_request_view(reason@),
            (Ok(req), Ok(params)) => handles_set(step, req, params.cluster),
        },
{
    match decoded {
        Err(reason) => Step::Reply(Outcome::bad_request(reason)),
        Ok(req) => match params {
            Err(reason) => Step::Reply(Outcome::bad_request(reason)),
            Ok(params) => match set_key_internal(req, params.cluster) {
                Ok(call) => Step::Invoke(call),
                Err(text) => Step::Reply(Outcome::server_error(text)),
            },
        },
    }
}

/// Handles a DEL whose body and query have been decoded. A body or a query
/// that did not decode is answered as a bad request, the body's fault first.
/// A URL from which no client can be built is answered as a server error with
/// the client library's reason. In both cases no backend is contacted.
/// Otherwise the command of [`delete_key_internal`] is to be sent.
pub fn delete_key(decoded: Result<DeleteKeyReq, String>, params: Result<Params, String>) -> (step:
    Step<KeyRemoval>)
    ensures
        match (decoded, params) {
            (Err(reason), _) => step matches Step::Reply(outcome) && outcome@ == bad_request_view(
                reason@,
            ),
            (Ok(_), Err(reason)) => step matches Step::Reply(outcome) && outcome@
                == bad_request_view(reason@),
            (Ok(req), Ok(params)) => handles_delete(step, req, params.cluster),
        },
{
    match decoded {
        Err(reason) => Step::Reply(Outcome::bad_request(reason)),
        Ok(req) => match params {
            Err(reason) => Step::Reply(Outcome::bad_request(reason)),
            Ok(params) => match delete_key_internal(req, params.cluster) {
                Ok(call) => Step::Invoke(call),
                Err(text) => Step::Reply(Outcome::server_error(text)),
            },
        },
    }
}

} // verus!
