//! The keys that sign requests to the object store.
//!
//! The object-store client keeps an access key and a secret key in a type of
//! its own, which the gateway builds once per request and hands on unread.

use vstd::prelude::*;

verus! {

/// `s3::creds::Credentials`: the keys with which the client signs requests.
/// Carried to the caller, never looked into.
#[verifier::external_type_specification]
#[verifier::external_body]
pub struct ExCredentials(::s3::creds::Credentials);

/// `s3::creds::error::CredentialsError`: why credentials could not be had.
/// Only its text is used.
#[verifier::external_type_specification]
#[verifier::external_body]
pub struct ExCredentialsError(::s3::creds::error::CredentialsError);

/// The credentials that hold the given access key and secret key and nothing
/// else: no token, no expiry.
pub uninterp spec fn static_credentials_of(
    access_key: Seq<char>,
    secret_key: Seq<char>,
) -> ::s3::creds::Credentials;

/// The text with which the client describes a credentials error.
pub uninterp spec fn credentials_error_text_of(
    error: ::s3::creds::error::CredentialsError,
) -> Seq<char>;

/// `s3::creds::Credentials::new` with an access key and a secret key, and
/// without security token, session token or profile. With an access key
/// given the client stores its arguments and looks nowhere else, so the call
/// succeeds and its result depends on the two keys alone.
#[verifier::external_body]
pub(crate) fn static_credentials(access_key: &str, secret_key: &str) -> (made: Result<
    ::s3::creds::Credentials,
    ::s3::creds::error::CredentialsError,
>)
    ensures
        made is Ok,
        made->Ok_0 == static_credentials_of(access_key@, secret_key@),
{
    ::s3::creds::Credentials::new(Some(access_key), Some(secret_key), None, None, None)
}

/// The `Display` text of an `s3::creds::error::CredentialsError`.
#[verifier::external_body]
pub(crate) fn credentials_error_text(error: &::s3::creds::error::CredentialsError) -> (text:
    String)
    ensures
        text@ == credentials_error_text_of(*error),
{
    error.to_string()
}

} // verus!
