//! Databases of the relational server, created and dropped.

use crate::outcome::{bad_request_view, Outcome, Step};
use crate::text::{address, address_text};
use vstd::prelude::*;

verus! {

/// Request to create a database on the server at `host:port`.
#[derive(Clone, Debug, PartialEq, Eq)]
pub struct CreateDatabaseReq {
    pub host: String,
    pub port: u16,
    pub username: String,
    pub password: String,
    pub database_name: String,
}

/// Request to drop a database of the server at `host:port`.
#[derive(Clone, Debug, PartialEq, Eq)]
pub struct DropDatabaseReq {
    pub host: String,
    pub port: u16,
    pub username: String,
    pub password: String,
    pub database_name: String,
}

/// One statement to execute on one server.
#[derive(Clone, Debug, PartialEq, Eq)]
pub struct DatabaseCall {
    /// Connection URL of the server, credentials included.
    pub url: String,
    /// The statement, complete.
    pub statement: String,
}

/// The connection URL of the server at `host:port` for the given account.
pub open spec fn server_url(
    username: Seq<char>,
    password: Seq<char>,
    host: Seq<char>,
    port: u16,
) -> Seq<char> {
    "mysql://"@ + username + ":"@ + password + "@"@ + address(host, port) + "/"@
}

/// The statement that creates the database `name`. The name is inserted as it
/// is, without quoting.
pub open spec fn create_statement(name: Seq<char>) -> Seq<char> {
    "CREATE DATABASE "@ + name
}

/// The statement that drops the database `name`. The name is inserted as it
/// is, without quoting.
pub open spec fn drop_statement(name: Seq<char>) -> Seq<char> {
    "DROP DATABASE "@ + name
}

/// `call` is the backend call that carries out `req`.
pub open spec fn creates_database(call: DatabaseCall, req: CreateDatabaseReq) -> bool {
    &&& call.url@ == server_url(req.username@, req.password@, req.host@, req.port)
    &&& call.statement@ == create_statement(req.database_name@)
}

/// `call` is the backend call that carries out `req`.
pub open spec fn drops_database(call: DatabaseCall, req: DropDatabaseReq) -> bool {
    &&& call.url@ == server_url(req.username@, req.password@, req.host@, req.port)
    &&& call.statement@ == drop_statement(req.database_name@)
}

fn server_address(username: &str, password: &str, host: &str, port: u16) -> (url: String)
    ensures
        url@ == server_url(username@, password@, host@, port),
{
    let mut url = String::from_str("mysql://");
    url.append(username);
    url.append(":");
    url.append(password);
    url.append("@");
    url.append(address_text(host, port).as_str());
    url.append("/");
    url
}

/// The backend call that creates the database: `CREATE DATABASE` followed by
/// the name, on the server of the request.
pub fn create_database_internal(req: CreateDatabaseReq) -> (call: DatabaseCall)
    ensures
        creates_database(call, req),
{
    let url = server_address(
        req.username.as_str(),
        req.password.as_str(),
        req.host.as_str(),
        req.port,
    );
    let mut statement = String::from_str("CREATE DATABASE ");
    statement.append(req.database_name.as_str());
    DatabaseCall { url, statement }
}

/// The backend call that drops the database: `DROP DATABASE` followed by the
/// name, on the server of the request.
pub fn drop_database_internal(req: DropDatabaseReq) -> (call: DatabaseCall)
    ensures
        drops_database(call, req),
{
    let url = server_address(
        req.username.as_str(),
        req.password.as_str(),
        req.host.as_str(),
        req.port,
    );
    let mut statement = String::from_str("DROP DATABASE ");
    statement.append(req.database_name.as_str());
    DatabaseCall { url, statement }
}

/// Handles a database creation whose body has been decoded: a body that did
/// not decode is answered as a bad request and no backend is contacted;
/// otherwise the call of [`create_database_internal`] is to be made.
pub fn create_database(decoded: Result<CreateDatabaseReq, String>) -> (step: Step<DatabaseCall>)
    ensures
        match decoded {
            Ok(req) => step matches Step::Invoke(call) && creates_database(call, req),
            Err(reason) => step matches Step::Reply(outcome) && outcome@ == bad_request_view(
                reason@,
            ),
        },
{
    match decoded {
        Ok(req) => Step::Invoke(create_database_internal(req)),
        Err(reason) => Step::Reply(Outcome::bad_request(reason)),
    }
}

/// Handles a database drop whose body has been decoded: a body that did not
/// decode is answered as a bad request and no backend is contacted; otherwise
/// the call of [`drop_database_internal`] is to be made.
pub fn drop_database(decoded: Result<DropDatabaseReq, String>) -> (step: Step<DatabaseCall>)
    ensures
        match decoded {
            Ok(req) => step matches Step::Invoke(call) && drops_database(call, req),
            Err(reason) => step matches Step::Reply(outcome) && outcome@ == bad_request_view(
                reason@,
            ),
        },
{
    match decoded {
        Ok(req) => Step::Invoke(drop_database_internal(req)),
        Err(reason) => Step::Reply(Outcome::bad_request(reason)),
    }
}

} // verus!
