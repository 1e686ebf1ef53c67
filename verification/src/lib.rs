//! Credential acquisition for Google Cloud Storage clients.
//!
//! The heart of the crate is the token-provider logic: turning either a
//! service-account private key or an ambient instance identity into a
//! short-lived bearer token, caching it, and refreshing it on demand once
//! it expires.

use vstd::prelude::*;

pub mod authorize;
pub mod bucket_acl;
pub mod object_acl;
pub mod storage;

verus! {

/// A bearer token is considered usable strictly while its expiry is at or
/// after the current time, both given as Unix timestamps in seconds.
pub open spec fn token_usable(expiry: int, now: int) -> bool {
    expiry >= now
}

} // verus!
