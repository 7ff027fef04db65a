//! Which failed HTTP requests are retried, and how often.
//!
//! The backoff between attempts is measured in floating-point seconds and
//! is computed by the client glue; this module holds the integer and
//! status-code part of the policy.

use vstd::prelude::*;

verus! {

/// How failed requests are retried.
pub struct RetryConfig {
    /// The number of retries after the first attempt (0: none).
    pub max_retries: u32,
    /// Whether a timeout is retried.
    pub retry_on_timeout: bool,
    /// The response status codes that are retried.
    pub retry_status_codes: Vec<u16>,
}

/// The status codes retried by default: too many requests, internal
/// server error, bad gateway, service unavailable, gateway timeout.
pub open spec fn default_retry_status_codes() -> Seq<u16> {
    seq![429u16, 500u16, 502u16, 503u16, 504u16]
}

impl RetryConfig {
    /// The default policy: three retries, timeouts retried, and the
    /// default status codes.
    pub fn new() -> (c: Self)
        ensures
            c.max_retries == 3,
            c.retry_on_timeout,
            c.retry_status_codes@ == default_retry_status_codes(),
    {
        let codes: Vec<u16> = vec![429, 500, 502, 503, 504];
        RetryConfig { max_retries: 3, retry_on_timeout: true, retry_status_codes: codes }
    }

    /// Whether a response with `status_code` is retried.
    pub fn should_retry_status(&self, status_code: u16) -> (b: bool)
        ensures
            b == self.retry_status_codes@.contains(status_code),
    {
        let mut i: usize = 0;
        while i < self.retry_status_codes.len()
            invariant
                i <= self.retry_status_codes@.len(),
                forall|j: int| 0 <= j < i ==> self.retry_status_codes@[j] != status_code,
            decreases self.retry_status_codes@.len() - i,
        {
            if self.retry_status_codes[i] == status_code {
                return true;
            }
            i = i + 1;
        }
        false
    }
}

impl Default for RetryConfig {
    fn default() -> (c: Self)
        ensures
            c.max_retries == 3,
            c.retry_on_timeout,
            c.retry_status_codes@ == default_retry_status_codes(),
    {
        Self::new()
    }
}

/// The default policy retries exactly the default status codes: 429, 500,
/// 502, 503 and 504, and no other.
pub proof fn law_default_retry_codes(code: u16)
    ensures
        default_retry_status_codes().contains(code) <==> (code == 429 || code == 500 || code == 502
            || code == 503 || code == 504),
{
    let s = default_retry_status_codes();
    if code == 429 {
        assert(s[0] == code);
    } else if code == 500 {
        assert(s[1] == code);
    } else if code == 502 {
        assert(s[2] == code);
    } else if code == 503 {
        assert(s[3] == code);
    } else if code == 504 {
        assert(s[4] == code);
    }
}

} // verus!
