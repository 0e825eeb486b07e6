//! `http::Request` values, built through the `http` crate's request builder.
use vstd::prelude::*;
use http::request::Builder;
use crate::error::Error;
use http::Error as HttpFailure;
use http::Request as HttpRequest;

verus! {

#[verifier::external_type_specification]
#[verifier::external_body]
pub struct ExBuilder(Builder);

#[verifier::external_type_specification]
#[verifier::external_body]
pub struct ExHttpError(HttpFailure);

#[verifier::external_type_specification]
#[verifier::external_body]
#[verifier::reject_recursive_types(T)]
pub struct ExHttpRequest<T>(HttpRequest<T>);

/// The HTTP method of a request.
#[derive(PartialEq, Eq, Structural, Clone, Copy, Debug)]
pub enum Verb {
    Get,
    Post,
    Put,
    Patch,
    Delete,
}

/// What `http::Request::get(uri)` returns.
pub uninterp spec fn http_get_builder(uri: Seq<char>) -> Builder;

/// What `http::Request::post(uri)` returns.
pub uninterp spec fn http_post_builder(uri: Seq<char>) -> Builder;

/// What `http::Request::put(uri)` returns.
pub uninterp spec fn http_put_builder(uri: Seq<char>) -> Builder;

/// What `http::Request::patch(uri)` returns.
pub uninterp spec fn http_patch_builder(uri: Seq<char>) -> Builder;

/// What `http::Request::delete(uri)` returns.
pub uninterp spec fn http_delete_builder(uri: Seq<char>) -> Builder;

/// What `Builder::header(key, value)` returns.
pub uninterp spec fn http_header_builder(b: Builder, key: Seq<char>, value: Seq<char>) -> Builder;

/// What `Builder::body(body)` returns.
pub uninterp spec fn http_built(b: Builder, body: Seq<u8>) -> Result<http::Request<Vec<u8>>, http::Error>;

/// `http::Request::get(uri)`: a builder for a GET of `uri`; its result is a
/// function of the URI text alone.
#[verifier::external_body]
fn request_get(uri: String) -> (b: Builder)
    ensures
        b == http_get_builder(uri@),
{
    http::Request::get(uri)
}

/// `http::Request::post(uri)`: a builder for a POST of `uri`; its result is a
/// function of the URI text alone.
#[verifier::external_body]
fn request_post(uri: String) -> (b: Builder)
    ensures
        b == http_post_builder(uri@),
{
    http::Request::post(uri)
}

/// `http::Request::put(uri)`: a builder for a PUT of `uri`; its result is a
/// function of the URI text alone.
#[verifier::external_body]
fn request_put(uri: String) -> (b: Builder)
    ensures
        b == http_put_builder(uri@),
{
    http::Request::put(uri)
}

/// `http::Request::patch(uri)`: a builder for a PATCH of `uri`; its result is
/// a function of the URI text alone.
#[verifier::external_body]
fn request_patch(uri: String) -> (b: Builder)
    ensures
        b == http_patch_builder(uri@),
{
    http::Request::patch(uri)
}

/// `http::Request::delete(uri)`: a builder for a DELETE of `uri`; its result
/// is a function of the URI text alone.
#[verifier::external_body]
fn request_delete(uri: String) -> (b: Builder)
    ensures
        b == http_delete_builder(uri@),
{
    http::Request::delete(uri)
}

/// `Builder::header(key, value)`: the builder with one more header; its
/// result is a function of the builder, the key and the value alone.
#[verifier::external_body]
fn request_header(b: Builder, key: &str, value: &str) -> (r: Builder)
    ensures
        r == http_header_builder(b, key@, value@),
{
    b.header(key, value)
}

/// `Builder::body(body)`: the request with that body, or the error the
/// builder met; its result is a function of the builder and the body alone.
#[verifier::external_body]
fn request_body(b: Builder, body: Vec<u8>) -> (r: Result<http::Request<Vec<u8>>, http::Error>)
    ensures
        r == http_built(b, body@),
{
    b.body(body)
}

/// The builder that the method's constructor makes for `uri`.
pub open spec fn verb_builder(verb: Verb, uri: Seq<char>) -> Builder {
    match verb {
        Verb::Get => http_get_builder(uri),
        Verb::Post => http_post_builder(uri),
        Verb::Put => http_put_builder(uri),
        Verb::Patch => http_patch_builder(uri),
        Verb::Delete => http_delete_builder(uri),
    }
}

/// The builder with the headers of a request that carries a content type:
/// `Accept: application/json`, then `Content-Type`.
pub open spec fn with_content_type(b: Builder, content_type: Option<Seq<char>>) -> Builder {
    match content_type {
        Some(ct) => http_header_builder(
            http_header_builder(b, "Accept"@, "application/json"@),
            "Content-Type"@,
            ct,
        ),
        None => b,
    }
}

/// The outcome of a build, its `http` error taken as [`Error::HttpError`].
pub open spec fn request_outcome(r: Result<http::Request<Vec<u8>>, http::Error>) -> Result<
    http::Request<Vec<u8>>,
    Error,
> {
    match r {
        Ok(req) => Ok(req),
        Err(e) => Err(Error::HttpError(e)),
    }
}

/// The request sent with this method, URI, content type and body.
pub open spec fn sent(verb: Verb, uri: Seq<char>, content_type: Option<Seq<char>>, body: Seq<u8>) -> Result<
    http::Request<Vec<u8>>,
    Error,
> {
    request_outcome(http_built(with_content_type(verb_builder(verb, uri), content_type), body))
}

/// The view of an optional string literal.
pub open spec fn opt_str_view(s: Option<&'static str>) -> Option<Seq<char>> {
    match s {
        Some(t) => Some(t@),
        None => None,
    }
}

/// Takes the result of a build, its `http` error as [`Error::HttpError`].
pub fn into_outcome(r: Result<http::Request<Vec<u8>>, http::Error>) -> (o: Result<
    http::Request<Vec<u8>>,
    Error,
>)
    ensures
        o == request_outcome(r),
{
    match r {
        Ok(req) => Ok(req),
        Err(e) => Err(Error::HttpError(e)),
    }
}

/// Builds the request with this method, URI, content type and body.
pub fn build_request(verb: Verb, uri: String, content_type: Option<&'static str>, body: Vec<u8>) -> (r:
    Result<http::Request<Vec<u8>>, Error>)
    ensures
        r == sent(verb, uri@, opt_str_view(content_type), body@),
{
    let b = match verb {
        Verb::Get => request_get(uri),
        Verb::Post => request_post(uri),
        Verb::Put => request_put(uri),
        Verb::Patch => request_patch(uri),
        Verb::Delete => request_delete(uri),
    };
    let b = match content_type {
        Some(ct) => {
            let b = request_header(b, "Accept", "application/json");
            request_header(b, "Content-Type", ct)
        },
        None => b,
    };
    into_outcome(request_body(b, body))
}

} // verus!
