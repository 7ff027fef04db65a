//! HTTP status codes: named constants, classification and default reason
//! phrases.

use vstd::prelude::*;
use vstd::string::*;

verus! {

/// HTTP status codes and what they mean.
pub struct StatusCodes;

/// The default reason phrase of a status code (`Unknown` for codes
/// without one).
pub open spec fn reason_phrase(status_code: i32) -> Seq<char> {
    match status_code {
        100 => "Continue"@,
        101 => "Switching Protocols"@,
        200 => "OK"@,
        201 => "Created"@,
        202 => "Accepted"@,
        204 => "No Content"@,
        300 => "Multiple Choices"@,
        301 => "Moved Permanently"@,
        302 => "Found"@,
        303 => "See Other"@,
        304 => "Not Modified"@,
        307 => "Temporary Redirect"@,
        308 => "Permanent Redirect"@,
        400 => "Bad Request"@,
        401 => "Unauthorized"@,
        403 => "Forbidden"@,
        404 => "Not Found"@,
        405 => "Method Not Allowed"@,
        406 => "Not Acceptable"@,
        408 => "Request Timeout"@,
        409 => "Conflict"@,
        410 => "Gone"@,
        411 => "Length Required"@,
        413 => "Payload Too Large"@,
        414 => "URI Too Long"@,
        415 => "Unsupported Media Type"@,
        416 => "Range Not Satisfiable"@,
        422 => "Unprocessable Entity"@,
        429 => "Too Many Requests"@,
        500 => "Internal Server Error"@,
        501 => "Not Implemented"@,
        502 => "Bad Gateway"@,
        503 => "Service Unavailable"@,
        504 => "Gateway Timeout"@,
        _ => "Unknown"@,
    }
}

impl StatusCodes {
    pub const CONTINUE: i32 = 100;
    pub const SWITCHING_PROTOCOLS: i32 = 101;

    pub const OK: i32 = 200;
    pub const CREATED: i32 = 201;
    pub const ACCEPTED: i32 = 202;
    pub const NO_CONTENT: i32 = 204;

    pub const MULTIPLE_CHOICES: i32 = 300;
    pub const MOVED_PERMANENTLY: i32 = 301;
    pub const FOUND: i32 = 302;
    pub const SEE_OTHER: i32 = 303;
    pub const NOT_MODIFIED: i32 = 304;
    pub const TEMPORARY_REDIRECT: i32 = 307;
    pub const PERMANENT_REDIRECT: i32 = 308;

    pub const BAD_REQUEST: i32 = 400;
    pub const UNAUTHORIZED: i32 = 401;
    pub const FORBIDDEN: i32 = 403;
    pub const NOT_FOUND: i32 = 404;
    pub const METHOD_NOT_ALLOWED: i32 = 405;
    pub const NOT_ACCEPTABLE: i32 = 406;
    pub const REQUEST_TIMEOUT: i32 = 408;
    pub const CONFLICT: i32 = 409;
    pub const GONE: i32 = 410;
    pub const LENGTH_REQUIRED: i32 = 411;
    pub const PAYLOAD_TOO_LARGE: i32 = 413;
    pub const URI_TOO_LONG: i32 = 414;
    pub const UNSUPPORTED_MEDIA_TYPE: i32 = 415;
    pub const RANGE_NOT_SATISFIABLE: i32 = 416;
    pub const UNPROCESSABLE_ENTITY: i32 = 422;
    pub const TOO_MANY_REQUESTS: i32 = 429;

    pub const INTERNAL_SERVER_ERROR: i32 = 500;
    pub const NOT_IMPLEMENTED: i32 = 501;
    pub const BAD_GATEWAY: i32 = 502;
    pub const SERVICE_UNAVAILABLE: i32 = 503;
    pub const GATEWAY_TIMEOUT: i32 = 504;

    /// A 2xx code.
    pub fn is_success(status: i32) -> (r: bool)
        ensures
            r == (200 <= status < 300),
    {
        200 <= status && status < 300
    }

    /// A 3xx code.
    pub fn is_redirect(status: i32) -> (r: bool)
        ensures
            r == (300 <= status < 400),
    {
        300 <= status && status < 400
    }

    /// A 4xx code.
    pub fn is_client_error(status: i32) -> (r: bool)
        ensures
            r == (400 <= status < 500),
    {
        400 <= status && status < 500
    }

    /// A 5xx code.
    pub fn is_server_error(status: i32) -> (r: bool)
        ensures
            r == (500 <= status < 600),
    {
        500 <= status && status < 600
    }

    /// Any code from 400 up.
    pub fn is_error(status: i32) -> (r: bool)
        ensures
            r == (status >= 400),
    {
        status >= 400
    }

    /// The default reason phrase for `status_code`.
    pub fn get_default_reason_phrase(status_code: i32) -> (r: String)
        ensures
            r@ == reason_phrase(status_code),
    {
        match status_code {
            100 => String::from_str("Continue"),
            101 => String::from_str("Switching Protocols"),
            200 => String::from_str("OK"),
            201 => String::from_str("Created"),
            202 => String::from_str("Accepted"),
            204 => String::from_str("No Content"),
            300 => String::from_str("Multiple Choices"),
            301 => String::from_str("Moved Permanently"),
            302 => String::from_str("Found"),
            303 => String::from_str("See Other"),
            304 => String::from_str("Not Modified"),
            307 => String::from_str("Temporary Redirect"),
            308 => String::from_str("Permanent Redirect"),
            400 => String::from_str("Bad Request"),
            401 => String::from_str("Unauthorized"),
            403 => String::from_str("Forbidden"),
            404 => String::from_str("Not Found"),
            405 => String::from_str("Method Not Allowed"),
            406 => String::from_str("Not Acceptable"),
            408 => String::from_str("Request Timeout"),
            409 => String::from_str("Conflict"),
            410 => String::from_str("Gone"),
            411 => String::from_str("Length Required"),
            413 => String::from_str("Payload Too Large"),
            414 => String::from_str("URI Too Long"),
            415 => String::from_str("Unsupported Media Type"),
            416 => String::from_str("Range Not Satisfiable"),
            422 => String::from_str("Unprocessable Entity"),
            429 => String::from_str("Too Many Requests"),
            500 => String::from_str("Internal Server Error"),
            501 => String::from_str("Not Implemented"),
            502 => String::from_str("Bad Gateway"),
            503 => String::from_str("Service Unavailable"),
            504 => String::from_str("Gateway Timeout"),
            _ => String::from_str("Unknown"),
        }
    }
}

/// The classes are disjoint, and an error code is a client or server
/// error or lies at 600 and above.
pub proof fn law_status_classes(status: i32)
    ensures
        !((200 <= status < 300) && (300 <= status < 400)),
        !((400 <= status < 500) && (500 <= status < 600)),
        (status >= 400) <==> ((400 <= status < 500) || (500 <= status < 600) || status >= 600),
{
}

} // verus!
