//! Developer Token claims and the per-origin token cache.
//!
//! A Developer Token is valid for thirty days from its issue time.  A cached token is
//! handed out again only while it stays valid for more than the five minute refresh
//! margin; a new token for an origin replaces the one cached for it.
use vstd::prelude::*;

use crate::auth::SecretToken;
use crate::config::{opt_view, AppleConfig};

verus! {

/// How long a Developer Token stays valid, in seconds.
pub const TOKEN_LIFETIME_SECS: u64 = 2592000;

/// How long before its expiry a cached token is replaced, in seconds.
pub const REFRESH_MARGIN_SECS: u64 = 300;

/// The claims a Developer Token carries: the team that issues it, when it was issued and
/// expires, in Unix seconds, and the web origin it is bound to, if any.
#[derive(Clone, Debug, PartialEq, Eq)]
pub struct DeveloperTokenClaims {
    pub iss: String,
    pub iat: u64,
    pub exp: u64,
    pub origin: Option<String>,
}

/// A signed token kept for reuse.
pub struct CachedToken {
    pub origin: Option<String>,
    pub expires_at: u64,
    pub token: SecretToken,
}

/// Issues Developer Tokens for one Apple configuration and caches them per origin.
pub struct DeveloperTokenService {
    pub config: AppleConfig,
    pub cache: Vec<CachedToken>,
}

/// The view of an optional owned string.
pub open spec fn owned_view(o: Option<String>) -> Option<Seq<char>> {
    match o {
        Some(s) => Some(s@),
        None => None,
    }
}

/// Whether a cached token may be handed out for `origin` at `now`: it is bound to that
/// origin and stays valid past the refresh margin.
pub open spec fn usable(c: CachedToken, origin: Option<Seq<char>>, now: u64) -> bool {
    &&& owned_view(c.origin) == origin
    &&& (if now + REFRESH_MARGIN_SECS > u64::MAX { u64::MAX as int } else { now + REFRESH_MARGIN_SECS }) < c.expires_at
}

/// A cached token as its origin, expiry and secret.
pub open spec fn cached_view(c: CachedToken) -> (Option<Seq<char>>, u64, Seq<char>) {
    (owned_view(c.origin), c.expires_at, c.token@)
}

/// The cached tokens, in order, without those bound to `origin`.
pub open spec fn without_origin(cache: Seq<CachedToken>, origin: Option<Seq<char>>) -> Seq<(Option<Seq<char>>, u64, Seq<char>)>
    decreases cache.len(),
{
    if cache.len() == 0 {
        Seq::empty()
    } else {
        let rest = without_origin(cache.drop_last(), origin);
        if owned_view(cache.last().origin) != origin {
            rest.push(cached_view(cache.last()))
        } else {
            rest
        }
    }
}

/// The cached tokens as origins, expiries and secrets.
pub open spec fn cache_views(cache: Seq<CachedToken>) -> Seq<(Option<Seq<char>>, u64, Seq<char>)> {
    cache.map_values(|c: CachedToken| cached_view(c))
}

fn copy_origin(o: Option<&str>) -> (r: Option<String>)
    ensures
        owned_view(r) == opt_view(o),
{
    match o {
        Some(s) => Some(s.to_owned()),
        None => None,
    }
}

fn same_origin(a: &Option<String>, b: Option<&str>) -> (r: bool)
    ensures
        r == (owned_view(*a) == opt_view(b)),
{
    match (a, b) {
        (Some(x), Some(y)) => crate::text::same_text(x.as_str(), y),
        (None, None) => true,
        _ => false,
    }
}

impl DeveloperTokenService {
    /// The cached tokens, oldest first.
    pub open spec fn cached_tokens(&self) -> Seq<CachedToken> {
        self.cache@
    }

    /// A service with an empty cache.
    pub fn new(config: AppleConfig) -> (r: Self)
        ensures
            r.config == config,
            r.cached_tokens().len() == 0,
    {
        DeveloperTokenService { config, cache: Vec::new() }
    }

    /// The first cached token that may be handed out for `origin` at `now`.
    pub fn cached(&self, origin: Option<&str>, now: u64) -> (r: Option<SecretToken>)
        ensures
            match r {
                Some(t) => exists|i: int| #![trigger self.cached_tokens()[i]]
                    0 <= i < self.cached_tokens().len() && usable(self.cached_tokens()[i], opt_view(origin), now)
                    && t@ == self.cached_tokens()[i].token@
                    && forall|j: int| 0 <= j < i ==> !usable(#[trigger] self.cached_tokens()[j], opt_view(origin), now),
                None => forall|i: int| 0 <= i < self.cached_tokens().len() ==> !usable(#[trigger] self.cached_tokens()[i], opt_view(origin), now),
            },
    {
        let horizon = now.saturating_add(REFRESH_MARGIN_SECS);
        let mut i: usize = 0;
        while i < self.cache.len()
            invariant
                i <= self.cache@.len(),
                horizon == (if now + REFRESH_MARGIN_SECS > u64::MAX { u64::MAX as int } else { now + REFRESH_MARGIN_SECS }),
                forall|j: int| 0 <= j < i ==> !usable(#[trigger] self.cache@[j], opt_view(origin), now),
            decreases self.cache.len() - i,
        {
            if same_origin(&self.cache[i].origin, origin) && horizon < self.cache[i].expires_at {
                let t = self.cache[i].token.duplicate();
                proof {
                    assert(usable(self.cached_tokens()[i as int], opt_view(origin), now));
                }
                return Some(t);
            }
            i = i + 1;
        }
        None
    }

    /// The claims of a new token for `origin` issued at `now`.
    pub fn claims_at(&self, origin: Option<&str>, now: u64) -> (r: DeveloperTokenClaims)
        requires
            now + TOKEN_LIFETIME_SECS <= u64::MAX,
        ensures
            r.iss@ == self.config.team_id@,
            r.iat == now,
            r.exp == now + TOKEN_LIFETIME_SECS,
            owned_view(r.origin) == opt_view(origin),
    {
        DeveloperTokenClaims {
            iss: self.config.team_id.clone(),
            iat: now,
            exp: now + TOKEN_LIFETIME_SECS,
            origin: copy_origin(origin),
        }
    }

    /// Keeps a newly signed token, replacing any token cached for the same origin.
    pub fn remember(&mut self, origin: Option<&str>, expires_at: u64, token: SecretToken)
        ensures
            final(self).config == old(self).config,
            cache_views(final(self).cached_tokens())
                == without_origin(old(self).cached_tokens(), opt_view(origin)).push((opt_view(origin), expires_at, token@)),
    {
        let mut kept: Vec<CachedToken> = Vec::new();
        let mut rest: Vec<CachedToken> = Vec::new();
        std::mem::swap(&mut rest, &mut self.cache);
        let ghost source = rest@;
        let ghost mut taken: int = 0;
        while rest.len() > 0
            invariant
                0 <= taken <= source.len(),
                rest@ == source.skip(taken),
                cache_views(kept@) == without_origin(source.take(taken), opt_view(origin)),
            decreases rest.len(),
        {
            let c = rest.remove(0);
            proof {
                assert(source.take(taken + 1).drop_last() =~= source.take(taken));
                assert(source.take(taken + 1).last() == source[taken]);
                assert(rest@ =~= source.skip(taken + 1));
            }
            if !same_origin(&c.origin, origin) {
                let ghost before = kept@;
                kept.push(c);
                proof {
                    assert(cache_views(kept@) =~= cache_views(before).push(cached_view(c)));
                }
            }
            proof {
                taken = taken + 1;
            }
        }
        proof {
            assert(source.take(taken) =~= source);
        }
        let ghost before = kept@;
        let entry = CachedToken { origin: copy_origin(origin), expires_at, token };
        kept.push(entry);
        proof {
            assert(cache_views(kept@) =~= cache_views(before).push(cached_view(entry)));
        }
        self.cache = kept;
    }
}

/// The tokens kept apart from one origin are bound to other origins.
proof fn lemma_without_origin_others(cache: Seq<CachedToken>, origin: Option<Seq<char>>)
    ensures
        forall|i: int| 0 <= i < without_origin(cache, origin).len() ==> (#[trigger] without_origin(cache, origin)[i]).0 != origin,
    decreases cache.len(),
{
    if cache.len() > 0 {
        lemma_without_origin_others(cache.drop_last(), origin);
    }
}

/// A token just remembered for an origin is the one handed out for that origin while it
/// stays valid past the refresh margin.
pub proof fn law_remembered_token_is_cached(
    old: DeveloperTokenService,
    new: DeveloperTokenService,
    origin: Option<Seq<char>>,
    expires_at: u64,
    token: Seq<char>,
    now: u64,
)
    requires
        cache_views(new.cached_tokens()) == without_origin(old.cached_tokens(), origin).push((origin, expires_at, token)),
        now + REFRESH_MARGIN_SECS < expires_at,
    ensures
        exists|i: int| #![trigger new.cached_tokens()[i]]
            0 <= i < new.cached_tokens().len() && usable(new.cached_tokens()[i], origin, now)
            && new.cached_tokens()[i].token@ == token
            && forall|j: int| 0 <= j < i ==> !usable(#[trigger] new.cached_tokens()[j], origin, now),
{
    let kept = without_origin(old.cached_tokens(), origin);
    lemma_without_origin_others(old.cached_tokens(), origin);
    let last = kept.len() as int;
    assert(cache_views(new.cached_tokens()).len() == new.cached_tokens().len());
    assert(cache_views(new.cached_tokens())[last] == cached_view(new.cached_tokens()[last]));
    assert(usable(new.cached_tokens()[last], origin, now));
    assert forall|j: int| 0 <= j < last implies !usable(#[trigger] new.cached_tokens()[j], origin, now) by {
        assert(cache_views(new.cached_tokens())[j] == cached_view(new.cached_tokens()[j]));
        assert(kept[j].0 != origin);
    }
}

} // verus!
