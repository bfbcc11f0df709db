//! A bearer-token cache owned by its user. It never hands out a token that
//! expires within the refresh margin; fetching a new token is the caller's
//! work, after which the token is stored with an expiry one margin short of
//! the lifetime that the identity provider gave.
use vstd::prelude::*;

verus! {

/// Seconds before expiry at which a cached token is no longer served.
pub const REFRESH_MARGIN_SECS: i64 = 300;

/// A token and the second (since the Unix epoch) at which it is treated as expired.
pub struct CachedToken {
    pub token: String,
    pub expiry: i64,
}

pub struct TokenCache {
    pub cached: Option<CachedToken>,
}

/// Whether a token cached until `expiry` may still be served at `now`.
pub open spec fn still_fresh(expiry: int, now: int) -> bool {
    expiry > now + REFRESH_MARGIN_SECS
}

/// What a lookup at `now` serves: the cached token while it is fresh.
pub open spec fn served_token(cache: TokenCache, now: int) -> Option<Seq<char>> {
    match cache.cached {
        Some(c) => if still_fresh(c.expiry as int, now) {
            Some(c.token@)
        } else {
            None
        },
        None => None,
    }
}

/// The expiry recorded for a token fetched at `now` with the given lifetime.
pub open spec fn expiry_for(now: int, lifetime_secs: int) -> int {
    now + lifetime_secs - REFRESH_MARGIN_SECS
}

/// Whether the expiry for a token fetched at `now` fits in an `i64`.
pub open spec fn expiry_in_range(now: i64, lifetime_secs: i64) -> bool {
    i64::MIN <= expiry_for(now as int, lifetime_secs as int) <= i64::MAX
}

impl TokenCache {
    /// An empty cache.
    pub fn new() -> (r: TokenCache)
        ensures
            r.cached is None,
    {
        TokenCache { cached: None }
    }

    /// Stores a token fetched at `now` that the provider gave for
    /// `lifetime_secs` seconds; returns the expiry recorded.
    pub fn store_token(&mut self, token: String, now: i64, lifetime_secs: i64) -> (expiry: i64)
        requires
            expiry_in_range(now, lifetime_secs),
        ensures
            expiry == expiry_for(now as int, lifetime_secs as int),
            final(self).cached == Some(CachedToken { token, expiry }),
    {
        let e = ((now as i128) + (lifetime_secs as i128) - (REFRESH_MARGIN_SECS as i128)) as i64;
        self.cached = Some(CachedToken { token, expiry: e });
        e
    }
}

/// The token to use at `now`, or `None` when a new one must be fetched.
pub fn get_token_cache(cache: &TokenCache, now: i64) -> (r: Option<String>)
    ensures
        match r {
            Some(t) => served_token(*cache, now as int) == Some(t@),
            None => served_token(*cache, now as int) is None,
        },
{
    match &cache.cached {
        Some(c) => if (c.expiry as i128) > (now as i128) + (REFRESH_MARGIN_SECS as i128) {
            Some(c.token.clone())
        } else {
            None
        },
        None => None,
    }
}

/// A token stored at `now` with a lifetime of one hour expires 3300 seconds
/// later; until five minutes before that it is served as it was stored, and
/// from then on a lookup asks for a new one.
pub proof fn lemma_cache_refresh(cache: TokenCache, token: String, now: int, later: int)
    requires
        cache.cached == Some(CachedToken { token, expiry: expiry_for(now, 3600) as i64 }),
        i64::MIN <= expiry_for(now, 3600) <= i64::MAX,
    ensures
        expiry_for(now, 3600) == now + 3300,
        later < now + 3000 ==> served_token(cache, later) == Some(token@),
        later >= now + 3000 ==> served_token(cache, later) is None,
{
}

} // verus!
