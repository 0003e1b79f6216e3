//! A commit synchronization client: turns raw version-control output into
//! canonical commit metadata and drives the submission of that metadata to a
//! project-tracking service through a caller-supplied transport.

pub mod cache;
pub mod changes;
pub mod client;
pub mod content;
pub mod dates;
pub mod digest;
pub mod errors;
pub mod extract;
pub mod text;
pub mod workitems;

use vstd::prelude::*;

verus! {

/// A bearer token together with the absolute epoch second at which it expires.
#[derive(Debug)]
pub struct AccessToken {
    pub value: String,
    pub expires_at: i64,
}

/// Seconds in the freshness window: a cached token is reused only while its
/// remaining lifetime exceeds twelve hours.
pub const TOKEN_FRESH_WINDOW_SECS: i64 = 43200;

/// A token is fresh at `now` when strictly more than twelve hours remain
/// before `expires_at`.
pub open spec fn spec_token_fresh(expires_at: int, now: int) -> bool {
    expires_at - now > TOKEN_FRESH_WINDOW_SECS as int
}

impl AccessToken {
    /// Freshness test used by the token manager's fast path.
    pub fn is_fresh(&self, now: i64) -> (r: bool)
        ensures
            r == spec_token_fresh(self.expires_at as int, now as int),
    {
        if self.expires_at <= now {
            false
        } else {
            // expires_at > now, so the difference fits in i64 when now >= 0;
            // widen to i128 so that any clock value is handled.
            let diff: i128 = self.expires_at as i128 - now as i128;
            diff > TOKEN_FRESH_WINDOW_SECS as i128
        }
    }
}

} // verus!
