//! Building the key-value client for a request.
//!
//! The client library parses connection URLs and assembles clients without
//! touching the network; both are done here. Opening the connection and
//! sending the command are left to the caller.

use crate::text::{split_at_commas, split_commas, split_without_comma};
use vstd::prelude::*;

verus! {

/// `redis::ConnectionInfo`: where one node is and how to greet it. Carried
/// from the parser to the client constructors, never looked into.
#[verifier::external_type_specification]
#[verifier::external_body]
pub struct ExConnectionInfo(::redis::ConnectionInfo);

/// `redis::RedisError`: a failure of the client library. Only its text is
/// used.
#[verifier::external_type_specification]
#[verifier::external_body]
pub struct ExRedisError(::redis::RedisError);

/// `redis::Client`: the means to connect to one node. Handed to the caller.
#[verifier::external_type_specification]
#[verifier::external_body]
pub struct ExClient(::redis::Client);

/// `redis::cluster::ClusterClient`: the means to connect to a cluster. Handed
/// to the caller.
#[verifier::external_type_specification]
#[verifier::external_body]
pub struct ExClusterClient(::redis::cluster::ClusterClient);

/// What the client library makes of a connection URL: the connection
/// information it describes, or the reason why it is no such URL.
pub uninterp spec fn connection_info_of(url: Seq<char>) -> Result<
    ::redis::ConnectionInfo,
    ::redis::RedisError,
>;

/// The single-node client for a connection.
pub uninterp spec fn client_of(info: ::redis::ConnectionInfo) -> ::redis::Client;

/// The cluster client for a list of initial nodes, or the reason why the
/// client library refuses the list.
pub uninterp spec fn cluster_client_of(nodes: Seq<::redis::ConnectionInfo>) -> Result<
    ::redis::cluster::ClusterClient,
    ::redis::RedisError,
>;

/// The text with which the client library describes an error.
pub uninterp spec fn error_text_of(error: ::redis::RedisError) -> Seq<char>;

/// `redis::IntoConnectionInfo::into_connection_info` for a `String`. The
/// library parses the URL and reads scheme, host, port, database and
/// credentials from it; in a given build of the library nothing but the text
/// of the URL enters the result.
#[verifier::external_body]
pub(crate) fn parse_connection_info(url: String) -> (parsed: Result<
    ::redis::ConnectionInfo,
    ::redis::RedisError,
>)
    ensures
        parsed == connection_info_of(url@),
{
    ::redis::IntoConnectionInfo::into_connection_info(url)
}

/// `redis::Client::open` for connection information that is already parsed.
/// The library stores the information in a new client and opens no
/// connection; with this kind of argument it never fails.
#[verifier::external_body]
pub(crate) fn open_client(info: ::redis::ConnectionInfo) -> (opened: Result<
    ::redis::Client,
    ::redis::RedisError,
>)
    ensures
        opened is Ok,
        opened->Ok_0 == client_of(info),
{
    ::redis::Client::open(info)
}

/// `redis::cluster::ClusterClient::new` for nodes that are already parsed. The
/// library checks the list (it must not be empty, and its nodes must agree on
/// credentials, protocol, database and TLS mode) and opens no connection; the
/// result depends on the list alone.
#[verifier::external_body]
pub(crate) fn open_cluster_client(nodes: Vec<::redis::ConnectionInfo>) -> (opened: Result<
    ::redis::cluster::ClusterClient,
    ::redis::RedisError,
>)
    ensures
        opened == cluster_client_of(nodes@),
{
    ::redis::cluster::ClusterClient::new(nodes)
}

/// The `Display` text of a `redis::RedisError`.
#[verifier::external_body]
pub(crate) fn error_text(error: &::redis::RedisError) -> (text: String)
    ensures
        text@ == error_text_of(*error),
{
    error.to_string()
}

/// The client through which the keys of a request are reached.
#[derive(Debug)]
pub enum KeyClient {
    /// A client for one node.
    Single(::redis::Client),
    /// A client for a cluster, given some of its nodes.
    Cluster(::redis::cluster::ClusterClient),
}

/// The first failure among `parsed`, or all its values in order.
pub open spec fn gathered<T, E>(parsed: Seq<Result<T, E>>) -> Result<Seq<T>, E>
    decreases parsed.len(),
{
    if parsed.len() == 0 {
        Ok(Seq::empty())
    } else {
        match gathered(parsed.drop_last()) {
            Err(error) => Err(error),
            Ok(values) => match parsed.last() {
                Err(error) => Err(error),
                Ok(value) => Ok(values.push(value)),
            },
        }
    }
}

/// The single-node client for the outcome of parsing its URL.
pub open spec fn single_client_of(
    parsed: Result<::redis::ConnectionInfo, ::redis::RedisError>,
) -> Result<KeyClient, ::redis::RedisError> {
    match parsed {
        Err(error) => Err(error),
        Ok(info) => Ok(KeyClient::Single(client_of(info))),
    }
}

/// The cluster client for the outcomes of parsing the URLs of its nodes.
pub open spec fn cluster_client_from(
    parsed: Seq<Result<::redis::ConnectionInfo, ::redis::RedisError>>,
) -> Result<KeyClient, ::redis::RedisError> {
    match gathered(parsed) {
        Err(error) => Err(error),
        Ok(nodes) => match cluster_client_of(nodes) {
            Err(error) => Err(error),
            Ok(client) => Ok(KeyClient::Cluster(client)),
        },
    }
}

/// The outcomes of parsing each of `urls`.
pub open spec fn parsed_nodes(urls: Seq<Seq<char>>) -> Seq<
    Result<::redis::ConnectionInfo, ::redis::RedisError>,
> {
    urls.map_values(|url: Seq<char>| connection_info_of(url))
}

/// The client for `url`. In cluster mode the URL is a comma-separated list of
/// node URLs and each of them has to parse; otherwise it is the URL of the one
/// node.
pub open spec fn key_client_of(url: Seq<char>, cluster: bool) -> Result<
    KeyClient,
    ::redis::RedisError,
> {
    if cluster {
        cluster_client_from(parsed_nodes(split_commas(url)))
    } else {
        single_client_of(connection_info_of(url))
    }
}

/// `built` is `expected` with a failure turned into its text.
pub open spec fn reports(
    built: Result<KeyClient, String>,
    expected: Result<KeyClient, ::redis::RedisError>,
) -> bool {
    match expected {
        Ok(client) => built == Ok::<KeyClient, String>(client),
        Err(error) => built matches Err(text) && text@ == error_text_of(error),
    }
}

/// Collects parsed values in order and stops at the first failure.
pub fn gather_nodes(
    parsed: Vec<Result<::redis::ConnectionInfo, ::redis::RedisError>>,
) -> (nodes: Result<Vec<::redis::ConnectionInfo>, ::redis::RedisError>)
    ensures
        match gathered(parsed@) {
            Ok(values) => nodes matches Ok(found) && found@ == values,
            Err(error) => nodes == Err::<Vec<::redis::ConnectionInfo>, ::redis::RedisError>(
                error,
            ),
        },
{
    let mut nodes: Vec<::redis::ConnectionInfo> = Vec::new();
    let ghost all = parsed@;
    for entry in it: parsed
        invariant
            it.seq() == all,
            gathered(all.take(it.index() as int)) == Ok::<
                Seq<::redis::ConnectionInfo>,
                ::redis::RedisError,
            >(nodes@),
    {
        proof {
            let upto = it.index() as int;
            assert(all.take(upto + 1).drop_last() =~= all.take(upto));
        }
        match entry {
            Ok(info) => {
                nodes.push(info);
            },
            Err(error) => {
                proof {
                    gathered_failure_stays(all, it.index() as int + 1);
                }
                return Err(error);
            },
        }
    }
    proof {
        assert(all.take(all.len() as int) =~= all);
    }
    Ok(nodes)
}

/// Once a prefix of the outcomes holds a failure, that failure is what the
/// whole list gathers to.
proof fn gathered_failure_stays<T, E>(parsed: Seq<Result<T, E>>, upto: int)
    requires
        0 <= upto <= parsed.len(),
        gathered(parsed.take(upto)) is Err,
    ensures
        gathered(parsed) == gathered(parsed.take(upto)),
    decreases parsed.len() - upto,
{
    if upto == parsed.len() {
        assert(parsed.take(upto) =~= parsed);
    } else {
        assert(parsed.take(upto + 1).drop_last() =~= parsed.take(upto));
        gathered_failure_stays(parsed, upto + 1);
    }
}

/// Builds the single-node client from the outcome of parsing its URL.
pub fn single_client(parsed: Result<::redis::ConnectionInfo, ::redis::RedisError>) -> (client:
    Result<KeyClient, ::redis::RedisError>)
    ensures
        client == single_client_of(parsed),
{
    match parsed {
        Err(error) => Err(error),
        Ok(info) => match open_client(info) {
            Ok(client) => Ok(KeyClient::Single(client)),
            Err(error) => Err(error),
        },
    }
}

/// Builds the cluster client from the outcomes of parsing the URLs of its
/// nodes: the first URL that did not parse fails the whole, and so does a
/// list that the client library refuses.
pub fn cluster_client(
    parsed: Vec<Result<::redis::ConnectionInfo, ::redis::RedisError>>,
) -> (client: Result<KeyClient, ::redis::RedisError>)
    ensures
        client == cluster_client_from(parsed@),
{
    match gather_nodes(parsed) {
        Err(error) => Err(error),
        Ok(nodes) => match open_cluster_client(nodes) {
            Ok(client) => Ok(KeyClient::Cluster(client)),
            Err(error) => Err(error),
        },
    }
}

fn parse_nodes(urls: Vec<String>) -> (parsed: Vec<
    Result<::redis::ConnectionInfo, ::redis::RedisError>,
>)
    ensures
        parsed@ == parsed_nodes(urls.deep_view()),
{
    let mut parsed: Vec<Result<::redis::ConnectionInfo, ::redis::RedisError>> = Vec::new();
    let ghost all = urls.deep_view();
    let ghost raw = urls@;
    for url in it: urls
        invariant
            it.seq() == raw,
            all.len() == raw.len(),
            forall|i: int| 0 <= i < raw.len() ==> all[i] == (#[trigger] raw[i])@,
            parsed@ == parsed_nodes(all.take(it.index() as int)),
    {
        let ghost upto = it.index() as int;
        let entry = parse_connection_info(url);
        parsed.push(entry);
        assert(parsed@ =~= parsed_nodes(all.take(upto + 1)));
    }
    proof {
        assert(all.take(all.len() as int) =~= all);
    }
    parsed
}

/// Replaces a failure of the client library by its text.
pub fn report(client: Result<KeyClient, ::redis::RedisError>) -> (built: Result<KeyClient, String>)
    ensures
        reports(built, client),
{
    match client {
        Ok(client) => Ok(client),
        Err(error) => Err(error_text(&error)),
    }
}

/// Builds the client for the URL of a request, without connecting. A failure
/// is returned as the text with which the client library describes it.
pub fn key_client(url: String, cluster: bool) -> (built: Result<KeyClient, String>)
    ensures
        reports(built, key_client_of(url@, cluster)),
        built matches Ok(client) ==> (client is Cluster <==> cluster),
{
    if cluster {
        report(cluster_client(parse_nodes(split_at_commas(url.as_str()))))
    } else {
        report(single_client(parse_connection_info(url)))
    }
}

/// A URL without a comma names one node in either mode. In cluster mode the
/// list of nodes is that URL alone, parsed as the single-node mode parses it:
/// if it does not parse, both modes fail with the same error; if it does,
/// the single-node client and the cluster client are built from the same
/// connection information.
pub proof fn lone_url_is_its_own_node(url: Seq<char>)
    requires
        !url.contains(','),
    ensures
        split_commas(url) == seq![url],
        parsed_nodes(split_commas(url)) == seq![connection_info_of(url)],
        match connection_info_of(url) {
            Err(error) => {
                &&& key_client_of(url, false) == Err::<KeyClient, ::redis::RedisError>(error)
                &&& key_client_of(url, true) == Err::<KeyClient, ::redis::RedisError>(error)
            },
            Ok(info) => {
                &&& key_client_of(url, false) == Ok::<KeyClient, ::redis::RedisError>(
                    KeyClient::Single(client_of(info)),
                )
                &&& key_client_of(url, true) == match cluster_client_of(seq![info]) {
                    Ok(client) => Ok(KeyClient::Cluster(client)),
                    Err(error) => Err(error),
                }
            },
        },
{
    split_without_comma(url);
    let parsed = parsed_nodes(seq![url]);
    assert(parsed =~= seq![connection_info_of(url)]);
    assert(parsed.drop_last() =~= Seq::empty());
    assert(gathered(parsed.drop_last()) == Ok::<Seq<::redis::ConnectionInfo>, ::redis::RedisError>(
        Seq::empty(),
    ));
    assert(parsed.last() == connection_info_of(url));
    match connection_info_of(url) {
        Ok(info) => {
            assert(Seq::<::redis::ConnectionInfo>::empty().push(info) =~= seq![info]);
        },
        Err(_) => {},
    }
}

} // verus!
