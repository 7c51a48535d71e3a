//! Buckets of the object store, created and deleted.

use crate::minio::credentials::{
    credentials_error_text, credentials_error_text_of, static_credentials, static_credentials_of,
};
use crate::outcome::{bad_request_view, Outcome, Step};
use crate::text::{address, address_text};
use vstd::prelude::*;

verus! {

/// Request to create a bucket in the object store at `host:port`.
#[derive(Clone, Debug, PartialEq, Eq)]
pub struct CreateBucketReq {
    pub host: String,
    pub port: u16,
    pub access_key: String,
    pub secret_key: String,
    pub bucket_name: String,
}

/// Request to delete a bucket of the object store at `host:port`.
#[derive(Clone, Debug, PartialEq, Eq)]
pub struct DeleteBucketReq {
    pub host: String,
    pub port: u16,
    pub access_key: String,
    pub secret_key: String,
    pub bucket_name: String,
}

/// The ready-made bucket configurations of the object-store client.
#[derive(Clone, Copy, Debug, PartialEq, Eq, Structural)]
pub enum BucketPreset {
    /// The client's default configuration.
    Default,
    /// A bucket only its owner can reach.
    Private,
    /// A bucket the public can read.
    Public,
}

/// Where a bucket lives and how to sign requests for it.
#[derive(Debug)]
pub struct BucketAddress {
    /// Label of the custom region; the store does not interpret it.
    pub region: String,
    /// Base URL of the store.
    pub endpoint: String,
    pub credentials: ::s3::creds::Credentials,
    pub bucket_name: String,
    /// Whether the bucket is named in the path of the URL, not in its host.
    pub path_style: bool,
}

/// The creation of one bucket.
#[derive(Debug)]
pub struct BucketCreation {
    pub bucket: BucketAddress,
    pub config: BucketPreset,
}

/// The deletion of one bucket.
#[derive(Debug)]
pub struct BucketDeletion {
    pub bucket: BucketAddress,
}

/// The region label under which every store is addressed.
pub open spec fn region_label() -> Seq<char> {
    "us-east-1"@
}

/// The base URL of the store at `host:port`.
pub open spec fn endpoint_url(host: Seq<char>, port: u16) -> Seq<char> {
    "http://"@ + address(host, port)
}

/// `bucket` addresses the named bucket of the store at `host:port` in path
/// style, under the fixed region label, signing with `credentials`.
pub open spec fn addresses(
    bucket: BucketAddress,
    host: String,
    port: u16,
    credentials: ::s3::creds::Credentials,
    bucket_name: String,
) -> bool {
    &&& bucket.region@ == region_label()
    &&& bucket.endpoint@ == endpoint_url(host@, port)
    &&& bucket.credentials == credentials
    &&& bucket.bucket_name == bucket_name
    &&& bucket.path_style
}

/// `call` is the backend call that carries out `req`: a bucket of the
/// client's default configuration, signed for with the keys of the request.
pub open spec fn creates_bucket(call: BucketCreation, req: CreateBucketReq) -> bool {
    &&& addresses(
        call.bucket,
        req.host,
        req.port,
        static_credentials_of(req.access_key@, req.secret_key@),
        req.bucket_name,
    )
    &&& call.config == BucketPreset::Default
}

/// `call` is the backend call that carries out `req`, signed for with the
/// keys of the request.
pub open spec fn deletes_bucket(call: BucketDeletion, req: DeleteBucketReq) -> bool {
    addresses(
        call.bucket,
        req.host,
        req.port,
        static_credentials_of(req.access_key@, req.secret_key@),
        req.bucket_name,
    )
}

/// Addresses the named bucket of the store at `host:port`, given what building
/// the credentials produced: path-style addressing under the fixed region
/// label, or the text of the reason why there are no credentials.
pub fn bucket_address(
    host: String,
    port: u16,
    made: Result<::s3::creds::Credentials, ::s3::creds::error::CredentialsError>,
    bucket_name: String,
) -> (built: Result<BucketAddress, String>)
    ensures
        match made {
            Ok(credentials) => built matches Ok(bucket) && addresses(
                bucket,
                host,
                port,
                credentials,
                bucket_name,
            ),
            Err(error) => built matches Err(text) && text@ == credentials_error_text_of(error),
        },
{
    match made {
        Ok(credentials) => {
            let mut endpoint = String::from_str("http://");
            endpoint.append(address_text(host.as_str(), port).as_str());
            Ok(
                BucketAddress {
                    region: String::from_str("us-east-1"),
                    endpoint,
                    credentials,
                    bucket_name,
                    path_style: true,
                },
            )
        },
        Err(error) => Err(credentials_error_text(&error)),
    }
}

/// The backend call that creates the bucket: path-style addressing, the
/// client's default configuration, the fixed region label. Every request has
/// one.
pub fn create_bucket_internal(req: CreateBucketReq) -> (built: Result<BucketCreation, String>)
    ensures
        built matches Ok(call) && creates_bucket(call, req),
{
    let made = static_credentials(req.access_key.as_str(), req.secret_key.as_str());
    match bucket_address(req.host, req.port, made, req.bucket_name) {
        Ok(bucket) => Ok(BucketCreation { bucket, config: BucketPreset::Default }),
        Err(text) => Err(text),
    }
}

/// The backend call that deletes the bucket: path-style addressing, the fixed
/// region label. Every request has one.
pub fn delete_bucket_internal(req: DeleteBucketReq) -> (built: Result<BucketDeletion, String>)
    ensures
        built matches Ok(call) && deletes_bucket(call, req),
{
    let made = static_credentials(req.access_key.as_str(), req.secret_key.as_str());
    match bucket_address(req.host, req.port, made, req.bucket_name) {
        Ok(bucket) => Ok(BucketDeletion { bucket }),
        Err(text) => Err(text),
    }
}

/// Handles a bucket creation whose body has been decoded: a body that did not
/// decode is answered as a bad request and no backend is contacted; otherwise
/// the call of [`create_bucket_internal`] is to be made.
pub fn create_bucket(decoded: Result<CreateBucketReq, String>) -> (step: Step<BucketCreation>)
    ensures
        match decoded {
            Ok(req) => step matches Step::Invoke(call) && creates_bucket(call, req),
            Err(reason) => step matches Step::Reply(outcome) && outcome@ == bad_request_view(
                reason@,
            ),
        },
{
    match decoded {
        Ok(req) => match create_bucket_internal(req) {
            Ok(call) => Step::Invoke(call),
            Err(text) => Step::Reply(Outcome::server_error(text)),
        },
        Err(reason) => Step::Reply(Outcome::bad_request(reason)),
    }
}

/// Handles a bucket deletion whose body has been decoded: a body that did not
/// decode is answered as a bad request and no backend is contacted; otherwise
/// the call of [`delete_bucket_internal`] is to be made.
pub fn delete_bucket(decoded: Result<DeleteBucketReq, String>) -> (step: Step<BucketDeletion>)
    ensures
        match decoded {
            Ok(req) => step matches Step::Invoke(call) && deletes_bucket(call, req),
            Err(reason) => step matches Step::Reply(outcome) && outcome@ == bad_request_view(
                reason@,
            ),
        },
{
    match decoded {
        Ok(req) => match delete_bucket_internal(req) {
            Ok(call) => Step::Invoke(call),
            Err(text) => Step::Reply(Outcome::server_error(text)),
        },
        Err(reason) => Step::Reply(Outcome::bad_request(reason)),
    }
}

} // verus!
