//! Tenants of the messaging system, created and deleted through its admin
//! HTTP interface.
//!
//! A tenant operation is a short exchange: one admin request is sent; a
//! response in the success class ends it; any other response makes the
//! gateway read the response text, which becomes the failure reason. A request
//! that brings no response has failed like any other backend call. The
//! functions here decide each turn of that exchange; sending and reading are
//! the caller's part.

use crate::outcome::{bad_request_view, respond_view, status_of, Outcome, Step, STATUS_FAILURE};
use crate::text::{address, address_text, occurs_in};
use vstd::prelude::*;

verus! {

/// Request to create a tenant that may use the listed clusters.
#[derive(Clone, Debug, PartialEq, Eq)]
pub struct CreateTenantReq {
    pub host: String,
    pub port: u16,
    pub tenant: String,
    pub allowed_clusters: Vec<String>,
}

/// Request to delete a tenant.
#[derive(Clone, Debug, PartialEq, Eq)]
pub struct DeleteTenantReq {
    pub host: String,
    pub port: u16,
    pub tenant: String,
}

/// The document that accompanies a tenant creation.
#[derive(Clone, Debug, PartialEq, Eq)]
pub struct PutTenantInternalReq {
    pub allowed_clusters: Vec<String>,
}

/// The verbs of the admin interface that the gateway uses.
#[derive(Clone, Copy, Debug, PartialEq, Eq, Structural)]
pub enum AdminMethod {
    Put,
    Delete,
}

/// One request to the admin interface.
#[derive(Clone, Debug, PartialEq, Eq)]
pub struct AdminRequest {
    pub method: AdminMethod,
    pub url: String,
    /// The document to send as JSON, if the verb carries one.
    pub body: Option<PutTenantInternalReq>,
}

/// The two tenant operations; each names itself in its failure texts.
#[derive(Clone, Copy, Debug, PartialEq, Eq, Structural)]
pub enum TenantOperation {
    Create,
    Delete,
}

/// What to do once the admin interface has responded.
#[derive(Clone, Copy, Debug, PartialEq, Eq, Structural)]
pub enum Reception {
    /// The operation has succeeded; the exchange is over.
    Accepted,
    /// The admin interface refused: read the response text next and hand it
    /// to [`on_body`].
    ReadBody,
}

/// Whether a status code lies in the success class, 200 to 299.
pub open spec fn is_success_status(status: u16) -> bool {
    200 <= status < 300
}

/// The address of a tenant in the admin interface at `host:port`.
pub open spec fn tenant_url(host: Seq<char>, port: u16, tenant: Seq<char>) -> Seq<char> {
    "http://"@ + address(host, port) + "/admin/v2/tenants/"@ + tenant
}

/// `call` is the admin request that carries out `req`.
pub open spec fn creates_tenant(call: AdminRequest, req: CreateTenantReq) -> bool {
    &&& call.method == AdminMethod::Put
    &&& call.url@ == tenant_url(req.host@, req.port, req.tenant@)
    &&& call.body == Some(PutTenantInternalReq { allowed_clusters: req.allowed_clusters })
}

/// `call` is the admin request that carries out `req`.
pub open spec fn deletes_tenant(call: AdminRequest, req: DeleteTenantReq) -> bool {
    &&& call.method == AdminMethod::Delete
    &&& call.url@ == tenant_url(req.host@, req.port, req.tenant@)
    &&& call.body is None
}

/// How each operation begins its failure texts.
pub open spec fn failure_prefix(operation: TenantOperation) -> Seq<char> {
    match operation {
        TenantOperation::Create => "create tenant failed"@,
        TenantOperation::Delete => "delete tenant failed"@,
    }
}

/// The failure reason of a refused operation, given what reading the response
/// text produced: the text itself after a colon, or the reading error.
pub open spec fn refusal(operation: TenantOperation, body: Result<String, String>) -> Seq<char> {
    match body {
        Ok(text) => failure_prefix(operation) + ": "@ + text@,
        Err(reason) => failure_prefix(operation) + " "@ + reason@,
    }
}

/// The turn that follows a response with the given status.
pub open spec fn reception(status: u16) -> Reception {
    if is_success_status(status) {
        Reception::Accepted
    } else {
        Reception::ReadBody
    }
}

/// Whether `status` lies in the success class.
pub fn is_success(status: u16) -> (r: bool)
    ensures
        r == is_success_status(status),
{
    200 <= status && status < 300
}

fn tenant_address(host: &str, port: u16, tenant: &str) -> (url: String)
    ensures
        url@ == tenant_url(host@, port, tenant@),
{
    let mut url = String::from_str("http://");
    url.append(address_text(host, port).as_str());
    url.append("/admin/v2/tenants/");
    url.append(tenant);
    url
}

/// The admin request that creates the tenant: a PUT to the tenant's address
/// with the allowed clusters as its document.
pub fn create_tenant_internal(req: CreateTenantReq) -> (call: AdminRequest)
    ensures
        creates_tenant(call, req),
{
    let url = tenant_address(req.host.as_str(), req.port, req.tenant.as_str());
    AdminRequest {
        method: AdminMethod::Put,
        url,
        body: Some(PutTenantInternalReq { allowed_clusters: req.allowed_clusters }),
    }
}

/// The admin request that deletes the tenant: a DELETE to the tenant's
/// address, without a document.
pub fn delete_tenant_internal(req: DeleteTenantReq) -> (call: AdminRequest)
    ensures
        deletes_tenant(call, req),
{
    let url = tenant_address(req.host.as_str(), req.port, req.tenant.as_str());
    AdminRequest { method: AdminMethod::Delete, url, body: None }
}

/// Judges the status code of the admin interface's response: a status from
/// 200 to 299 ends the operation with success, any other asks for the
/// response text.
pub fn on_status(status: u16) -> (next: Reception)
    ensures
        next == reception(status),
{
    if is_success(status) {
        Reception::Accepted
    } else {
        Reception::ReadBody
    }
}

/// The failure reason of an operation that the admin interface refused.
/// `body` is what reading the response text produced; the text is quoted
/// unchanged.
pub fn on_body(operation: TenantOperation, body: Result<String, String>) -> (failure: String)
    ensures
        failure@ == refusal(operation, body),
{
    let mut failure = match operation {
        TenantOperation::Create => String::from_str("create tenant failed"),
        TenantOperation::Delete => String::from_str("delete tenant failed"),
    };
    match body {
        Ok(text) => {
            failure.append(": ");
            failure.append(text.as_str());
        },
        Err(reason) => {
            failure.append(" ");
            failure.append(reason.as_str());
        },
    }
    failure
}

/// Handles a tenant creation whose body has been decoded: a body that did not
/// decode is answered as a bad request and nothing is sent; otherwise the
/// admin request of [`create_tenant_internal`] is to be sent.
pub fn create_tenant(decoded: Result<CreateTenantReq, String>) -> (step: Step<AdminRequest>)
    ensures
        match decoded {
            Ok(req) => step matches Step::Invoke(call) && creates_tenant(call, req),
            Err(reason) => step matches Step::Reply(outcome) && outcome@ == bad_request_view(
                reason@,
            ),
        },
{
    match decoded {
        Ok(req) => Step::Invoke(create_tenant_internal(req)),
        Err(reason) => Step::Reply(Outcome::bad_request(reason)),
    }
}

/// Handles a tenant deletion whose body has been decoded: a body that did not
/// decode is answered as a bad request and nothing is sent; otherwise the
/// admin request of [`delete_tenant_internal`] is to be sent.
pub fn delete_tenant(decoded: Result<DeleteTenantReq, String>) -> (step: Step<AdminRequest>)
    ensures
        match decoded {
            Ok(req) => step matches Step::Invoke(call) && deletes_tenant(call, req),
            Err(reason) => step matches Step::Reply(outcome) && outcome@ == bad_request_view(
                reason@,
            ),
        },
{
    match decoded {
        Ok(req) => Step::Invoke(delete_tenant_internal(req)),
        Err(reason) => Step::Reply(Outcome::bad_request(reason)),
    }
}

/// The failure reason of a refused operation contains the response text of
/// the admin interface, character for character.
pub proof fn refusal_quotes_response(operation: TenantOperation, text: String)
    ensures
        occurs_in(text@, refusal(operation, Ok(text))),
{
    let whole = refusal(operation, Ok(text));
    let at = (failure_prefix(operation) + ": "@).len() as int;
    assert(whole.subrange(at, at + text@.len()) =~= text@);
}

/// A response outside the success class fails the operation: its text is
/// asked for, and the caller is answered with status 500 and a body that
/// contains that text, character for character.
pub proof fn refused_operation_reports_response(
    operation: TenantOperation,
    status: u16,
    text: String,
    failure: String,
)
    requires
        !is_success_status(status),
        failure@ == refusal(operation, Ok(text)),
    ensures
        reception(status) == Reception::ReadBody,
        status_of(respond_view(Err(failure)).kind) == STATUS_FAILURE,
        occurs_in(text@, respond_view(Err(failure)).body),
{
    refusal_quotes_response(operation, text);
}

} // verus!
