//! The target of a request that a transport sends: its method and URI,
//! parsed before anything is sent.

use vstd::prelude::*;
use crate::http::request::{method_parses, parse_method, parse_uri, uri_parses, TargetError};

verus! {

/// The method and URI a request is sent with, as the transport parses
/// them before sending: the method first, then the URI.
pub fn request_target(method: &str, uri: &str) -> (r: Result<
    (hyper::Method, hyper::Uri),
    TargetError,
>)
    ensures
        r is Ok <==> method_parses(method@) && uri_parses(uri@),
        !method_parses(method@) ==> r matches Err(TargetError::InvalidMethod(_)),
        method_parses(method@) && !uri_parses(uri@) ==> r matches Err(TargetError::InvalidUri(_)),
{
    let m = match parse_method(method) {
        Ok(m) => m,
        Err(e) => {
            return Err(TargetError::InvalidMethod(e));
        },
    };
    match parse_uri(uri) {
        Ok(u) => Ok((m, u)),
        Err(e) => Err(TargetError::InvalidUri(e)),
    }
}

} // verus!
