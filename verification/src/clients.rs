//! The calls into `reqwest` and `redis` that prepare the two clients.
//!
//! Nothing in this file is proved. Each function states what the called
//! code is taken to do; the values of the outside types are carried
//! through the library unread.

use vstd::prelude::*;

verus! {

/// `reqwest::header::HeaderValue`, carried through unread.
#[verifier::external_type_specification]
#[verifier::external_body]
pub struct ExHeaderValue(reqwest::header::HeaderValue);

/// `reqwest::header::InvalidHeaderValue`, the refusal of a header value.
#[verifier::external_type_specification]
#[verifier::external_body]
pub struct ExInvalidHeaderValue(reqwest::header::InvalidHeaderValue);

/// `reqwest::Client`, carried through unread.
#[verifier::external_type_specification]
#[verifier::external_body]
pub struct ExHttpClient(reqwest::Client);

/// `reqwest::Error`, read only for its text.
#[verifier::external_type_specification]
#[verifier::external_body]
pub struct ExHttpError(reqwest::Error);

/// `redis::Client`, carried through unread.
#[verifier::external_type_specification]
#[verifier::external_body]
pub struct ExStoreClient(redis::Client);

/// `redis::RedisError`, read only for its text.
#[verifier::external_type_specification]
#[verifier::external_body]
pub struct ExStoreError(redis::RedisError);

/// Whether a header value may hold the character `c`: a tab, or anything
/// from the space upwards but the delete character.
pub open spec fn header_char(c: char) -> bool {
    c == '\t' || (c as u32 >= 32 && c as u32 != 127)
}

/// Whether every character of `text` may stand in a header value.
pub open spec fn header_text(text: Seq<char>) -> bool {
    forall|i: int| 0 <= i < text.len() ==> header_char(#[trigger] text[i])
}

/// `reqwest::header::HeaderValue::from_str`. It walks the bytes of the
/// text and refuses the first one below 32 that is no tab, and the byte
/// 127; every byte of a character beyond ASCII is above 127, so the text
/// is accepted exactly when each of its characters passes `header_char`.
#[verifier::external_body]
pub(crate) fn header_value(text: &str) -> (made: Result<
    reqwest::header::HeaderValue,
    reqwest::header::InvalidHeaderValue,
>)
    ensures
        made is Ok <==> header_text(text@),
{
    reqwest::header::HeaderValue::from_str(text)
}

/// `HeaderValue::set_sensitive`, which sets the flag that keeps the value
/// out of debug output. Nothing is claimed of the value afterwards.
#[verifier::external_body]
pub(crate) fn set_sensitive(value: &mut reqwest::header::HeaderValue, sensitive: bool) {
    value.set_sensitive(sensitive);
}

/// The `Display` text of `InvalidHeaderValue`, which is one fixed sentence.
#[verifier::external_body]
pub(crate) fn invalid_header_text(error: &reqwest::header::InvalidHeaderValue) -> (text: String)
    ensures
        text@ == "failed to parse header value"@,
{
    error.to_string()
}

/// `reqwest::Client::builder().default_headers(..).build()` on a header map
/// that holds `authorization` under `AUTHORIZATION` and nothing else.
/// Whether a client comes back depends on the machine's TLS backend, so
/// nothing is claimed of the result.
#[verifier::external_body]
pub(crate) fn build_client(authorization: reqwest::header::HeaderValue) -> Result<
    reqwest::Client,
    reqwest::Error,
> {
    let mut headers = reqwest::header::HeaderMap::new();
    headers.insert(reqwest::header::AUTHORIZATION, authorization);
    reqwest::Client::builder().default_headers(headers).build()
}

/// The `Display` text of a `reqwest::Error`. Nothing is claimed of it.
#[verifier::external_body]
pub(crate) fn http_error_text(error: &reqwest::Error) -> String {
    error.to_string()
}

/// Whether `redis::Client::open` takes the connection URL `url`.
pub uninterp spec fn store_url_accepted(url: Seq<char>) -> bool;

/// `redis::Client::open` on a connection URL of the scheme `redis`. It
/// parses the URL and opens no connection. For this scheme the parser
/// reads nothing but the text: it asks for a host, a database number and
/// credentials that decode, so whether a client comes back is a matter of
/// the URL alone. Which URLs pass is left to the parser; the other
/// schemes, for which the platform has a say, are kept out.
#[verifier::external_body]
pub(crate) fn open_client(url: &str) -> (opened: Result<redis::Client, redis::RedisError>)
    requires
        "redis://"@.is_prefix_of(url@),
    ensures
        opened is Ok <==> store_url_accepted(url@),
{
    redis::Client::open(url)
}

/// The `Display` text of a `redis::RedisError`. Nothing is claimed of it.
#[verifier::external_body]
pub(crate) fn store_error_text(error: &redis::RedisError) -> String {
    error.to_string()
}

} // verus!
