//! Authorization interfaces.
//!
//! Instants are abstract clock readings: a monotonically increasing count
//! that the caller samples and hands in, so that expiry decisions are
//! functions of their inputs.

use vstd::prelude::*;

verus! {

/// A bearer credential.
pub trait Token {
    /// The bearer token string, abstractly.
    spec fn spec_access_token(&self) -> Seq<char>;

    /// The bearer token string.
    fn access_token(&self) -> (r: &str)
        ensures
            r@ == self.spec_access_token(),
    ;
}

/// A bearer credential that stops being valid at a known instant.
pub trait ExpiringToken: Token {
    /// The expiry instant, abstractly.
    spec fn spec_expires_at(&self) -> u64;

    /// The instant at which the token stops being valid.
    fn expires_at(&self) -> (r: u64)
        ensures
            r == self.spec_expires_at(),
    ;
}

} // verus!
