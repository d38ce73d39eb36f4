//! The post-response middleware that applies the CORS policy to a response.

use crate::cors::insert_cors_headers;
use hyper::body::HttpBody;
use hyper::header::{HeaderMap, HeaderValue};
use hyper::Response;
use routerify::Middleware;
use vstd::prelude::*;

verus! {

#[verifier::external_type_specification]
#[verifier::external_body]
#[verifier::reject_recursive_types(T)]
pub struct ExResponse<T>(Response<T>);

#[verifier::external_type_specification]
#[verifier::external_body]
#[verifier::reject_recursive_types(B)]
#[verifier::reject_recursive_types(E)]
pub struct ExMiddleware<B, E>(Middleware<B, E>);

pub assume_specification<T>[ Response::<T>::headers_mut ](r: &mut Response<T>) -> &mut HeaderMap<
    HeaderValue,
>;

/// Applies the CORS policy to the headers of `res` and hands the response back.
///
/// This never fails: the error type exists only to fit the router's pipeline.
/// The headers are set as `insert_cors_headers` sets them; only on a response
/// with thousands of distinct header names, where the header map may refuse to
/// grow, does the response go out with the insertions that did fit.
pub fn enable_cors_all_middleware_handler<B, E>(res: Response<B>) -> (r: Result<Response<B>, E>)
    ensures
        r is Ok,
{
    let mut res = res;
    let _ = insert_cors_headers(res.headers_mut());
    Ok(res)
}

/// Enables CORS for all routes: a post-response middleware, for every path,
/// that sets `Access-Control-Allow-Origin`, `Access-Control-Allow-Methods` and
/// `Access-Control-Allow-Headers` to `*`.
///
/// Relies on `routerify::Middleware::post`, which registers the handler for the
/// path pattern `/*`; the handler is `enable_cors_all_middleware_handler`.
#[verifier::external_body]
pub fn enable_cors_all<B, E>() -> Middleware<B, E> where
    B: HttpBody + Send + Sync + Unpin + 'static,
    E: std::error::Error + Send + Sync + Unpin + 'static,
 {
    Middleware::post(|res| std::future::ready(enable_cors_all_middleware_handler::<B, E>(res)))
}

} // verus!
