//! Caching of one auth token per provider instance.
//!
//! The cache itself is a plain value; the owner serializes access to it
//! (one exclusive lock per provider) and performs the renewal network call,
//! so that a renewal is single-flight. The decisions — whether a cached
//! record is still usable, and what the cache holds after a renewal — are
//! verified here: [`TokenCache::lookup`] returns the cached record exactly
//! when one exists and is not expired, and only a successful renewal
//! changes the cache, through [`TokenCache::store`].

use crate::auth::{ExpiringToken, Token as TokenAccess};
use vstd::prelude::*;

verus! {

/// One cached token: the bearer string and its expiry instant. Replaced
/// wholesale on renewal, never mutated in place.
#[derive(Debug)]
pub struct Record {
    pub access_token: String,
    pub expires_at: u64,
}

impl Clone for Record {
    /// An exact copy.
    fn clone(&self) -> (r: Self)
        ensures
            r == self,
    {
        Record { access_token: self.access_token.clone(), expires_at: self.expires_at }
    }
}

impl Record {
    /// Captures an expiring token as a cache record.
    pub fn from_expiring_token<T: ExpiringToken>(token: T) -> (r: Self)
        ensures
            r.access_token@ == token.spec_access_token(),
            r.expires_at == token.spec_expires_at(),
    {
        Self { access_token: token.access_token().to_owned(), expires_at: token.expires_at() }
    }

    /// A record is expired once its expiry instant has been reached.
    pub fn is_expired(&self, now: u64) -> (r: bool)
        ensures
            r == (now >= self.expires_at),
    {
        now >= self.expires_at
    }
}

impl TokenAccess for Record {
    open spec fn spec_access_token(&self) -> Seq<char> {
        self.access_token@
    }

    fn access_token(&self) -> (r: &str) {
        self.access_token.as_str()
    }
}

/// The per-provider token cache: at most one record.
pub struct TokenCache {
    pub cached: Option<Record>,
}

/// What a lookup at `now` finds: the cached record exactly when one exists
/// and is not yet expired.
pub open spec fn spec_lookup(cache: TokenCache, now: u64) -> Option<Record> {
    match cache.cached {
        Some(record) => if now < record.expires_at {
            Some(record)
        } else {
            None
        },
        None => None,
    }
}

/// The cache after a renewal stored `record`.
pub open spec fn spec_store(cache: TokenCache, record: Record) -> TokenCache {
    TokenCache { cached: Some(record) }
}

impl TokenCache {
    /// An empty cache: the first lookup finds nothing, so the first caller
    /// renews.
    pub fn new() -> (r: TokenCache)
        ensures
            r.cached is None,
    {
        TokenCache { cached: None }
    }

    /// Returns a copy of the cached record if one exists and is not expired;
    /// otherwise nothing, and the caller must renew. The cache itself is
    /// untouched either way, so a failed renewal leaves the previous record
    /// for a later retry.
    pub fn lookup(&self, now: u64) -> (r: Option<Record>)
        ensures
            r == spec_lookup(*self, now),
    {
        match &self.cached {
            Some(record) => {
                if !record.is_expired(now) {
                    Some(record.clone())
                } else {
                    None
                }
            },
            None => None,
        }
    }

    /// Replaces the cache wholesale with a freshly renewed record.
    pub fn store(&mut self, record: Record)
        ensures
            *final(self) == spec_store(*old(self), record),
    {
        self.cached = Some(record);
    }
}

/// An empty cache forces a renewal: the very first lookup finds nothing.
pub proof fn lemma_first_lookup_renews(cache: TokenCache, now: u64)
    requires
        cache.cached is None,
    ensures
        spec_lookup(cache, now) is None,
{
}

/// Once a renewal is stored, every lookup before the record's expiry
/// returns exactly that record — no further renewal happens.
pub proof fn lemma_fresh_record_reused(cache: TokenCache, record: Record, now: u64)
    requires
        now < record.expires_at,
    ensures
        spec_lookup(spec_store(cache, record), now) == Some(record),
{
}

/// Once the stored record's expiry has been reached, a lookup finds
/// nothing, so the next caller renews again.
pub proof fn lemma_expired_record_renews(cache: TokenCache, record: Record, now: u64)
    requires
        now >= record.expires_at,
    ensures
        spec_lookup(spec_store(cache, record), now) is None,
{
}

} // verus!
