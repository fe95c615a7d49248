//! The access token of the Automower Connect API and when it must be renewed.
use vstd::prelude::*;

verus! {

/// How long before its expiry a token is renewed, in nanoseconds: thirty
/// seconds.
pub const TOKEN_EXPIRATION_HEADROOM_NANOS: u64 = 30_000_000_000;

/// The instant until which a token obtained at `now` with a lifetime of
/// `lifetime` nanoseconds is used: its expiry less the headroom, and no
/// earlier than `now`. An instant past the clock's range is the clock's last
/// instant, which the clock never reaches.
pub open spec fn renewal_time(now: u64, lifetime: u64) -> u64 {
    let t: int = if lifetime > TOKEN_EXPIRATION_HEADROOM_NANOS {
        now + (lifetime - TOKEN_EXPIRATION_HEADROOM_NANOS)
    } else {
        now as int
    };
    if t > u64::MAX {
        u64::MAX
    } else {
        t as u64
    }
}

/// The token that a cache in state `cache` hands out at `now`: its token,
/// strictly before the instant until which it is used, and none afterwards.
pub open spec fn cached_token(cache: (Seq<char>, u64), now: u64) -> Option<Seq<char>> {
    if cache.1 > now {
        Some(cache.0)
    } else {
        None
    }
}

/// The token in use and the instant until which it is used. Instants are
/// nanoseconds on a monotonic clock.
pub struct TokenCache {
    token: String,
    expiration: u64,
}

impl View for TokenCache {
    type V = (Seq<char>, u64);

    /// The token and the instant until which it is used.
    closed spec fn view(&self) -> (Seq<char>, u64) {
        (self.token@, self.expiration)
    }
}

impl TokenCache {
    /// A cache with no usable token: an empty token that is due at `now`.
    pub fn new(now: u64) -> (cache: TokenCache)
        ensures
            cache@ == (Seq::<char>::empty(), now),
    {
        TokenCache { token: String::new(), expiration: now }
    }

    /// The token, while it is still to be used at `now`: strictly before the
    /// instant until which it is used.
    pub fn current(&self, now: u64) -> (token: Option<String>)
        ensures
            match token {
                Some(t) => cached_token(self@, now) == Some(t@),
                None => cached_token(self@, now) is None,
            },
    {
        if self.expiration > now {
            Some(self.token.clone())
        } else {
            None
        }
    }

    /// Stores a token obtained at `now` that expires `lifetime` nanoseconds
    /// later; it is used until its expiry less the headroom.
    pub fn store(&mut self, token: String, now: u64, lifetime: u64)
        ensures
            final(self)@ == (token@, renewal_time(now, lifetime)),
    {
        let usable = if lifetime > TOKEN_EXPIRATION_HEADROOM_NANOS {
            lifetime - TOKEN_EXPIRATION_HEADROOM_NANOS
        } else {
            0
        };
        self.token = token;
        self.expiration = now.saturating_add(usable);
    }
}

/// A token stored at `now` with lifetime `lifetime` is handed out at
/// exactly the instants before its renewal time: from `now` until its expiry
/// less the headroom, and at every instant of the clock when that lies past
/// the clock's range.
pub proof fn lemma_token_read_after_store(token: Seq<char>, now: u64, lifetime: u64, later: u64)
    ensures
        cached_token((token, renewal_time(now, lifetime)), later) == if later < renewal_time(now, lifetime) {
            Some(token)
        } else {
            None
        },
        now + lifetime - TOKEN_EXPIRATION_HEADROOM_NANOS > u64::MAX && later < u64::MAX ==> cached_token(
            (token, renewal_time(now, lifetime)),
            later,
        ) == Some(token),
{
}

/// A fresh cache hands out no token from the instant it was made onwards, so
/// the first request always obtains one.
pub proof fn lemma_fresh_cache_is_due(now: u64, later: u64)
    requires
        now <= later,
    ensures
        cached_token((Seq::<char>::empty(), now), later) is None,
{
}

/// A token whose lifetime is within the headroom is never handed out.
pub proof fn lemma_short_lived_token_unused(token: Seq<char>, now: u64, lifetime: u64, later: u64)
    requires
        lifetime <= TOKEN_EXPIRATION_HEADROOM_NANOS,
        now <= later,
    ensures
        cached_token((token, renewal_time(now, lifetime)), later) is None,
{
}

} // verus!
