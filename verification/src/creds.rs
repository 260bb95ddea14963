//! The cache of the bearer token: one token with the instant at which it
//! stops being offered.

use vstd::prelude::*;
use crate::clock::{utc_now, Timestamp};
use crate::text::text_of;

verus! {

/// The validity window, in minutes, that is requested for a new token.
pub const TOKEN_TTL: i64 = 60;

/// The minutes for which a stored token is offered: one less than the
/// window requested, so that the store gives a token up before the server
/// does.
pub const TOKEN_REFRESH: i64 = TOKEN_TTL - 1;

/// The key under which the vault keeps the long-lived secret.
pub const BW_SECRET_NAME: &'static str = "public_trading_secret_token";

/// A token and the instant from which it is no longer offered. This is also
/// what is kept on disk between runs.
#[derive(Clone, Debug, PartialEq, Eq)]
pub struct CredsData {
    pub token: String,
    pub token_ttl: Timestamp,
}

/// What a store holds, as a mathematical value.
pub ghost struct CachedToken {
    pub token: Seq<char>,
    pub expiry: Timestamp,
}

impl View for CredsData {
    type V = CachedToken;

    open spec fn view(&self) -> CachedToken {
        CachedToken { token: self.token@, expiry: self.token_ttl }
    }
}

/// The token that a store in state `state` offers at the instant `now`: the
/// cached one while `now` lies strictly before its expiry, none otherwise.
pub open spec fn offered_at(state: Option<CachedToken>, now: Timestamp) -> Option<Seq<char>> {
    match state {
        Some(cached) => if now.is_before(cached.expiry) {
            Some(cached.token)
        } else {
            None
        },
        None => None,
    }
}

/// The state of a store after `token` was stored at the instant `now`,
/// whatever it held before.
pub open spec fn stored_at(token: Seq<char>, now: Timestamp) -> Option<CachedToken> {
    Some(CachedToken { token, expiry: now.plus_minutes(TOKEN_REFRESH as int) })
}

/// The token store.
pub struct Creds {
    data: Option<CredsData>,
}

impl View for Creds {
    type V = Option<CachedToken>;

    closed spec fn view(&self) -> Option<CachedToken> {
        match self.data {
            Some(data) => Some(data@),
            None => None,
        }
    }
}

impl Creds {
    /// A store that starts from what an earlier run left behind, if anything.
    pub fn new(saved: Option<CredsData>) -> (creds: Creds)
        ensures
            creds@ == match saved {
                Some(data) => Some(data@),
                None => None,
            },
    {
        Creds { data: saved }
    }

    /// The cached token, if the instant `now` lies strictly before its
    /// expiry. A token that has run out stays in the store.
    pub fn access_token_at(&self, now: Timestamp) -> (token: Option<&str>)
        ensures
            text_of(token) == offered_at(self@, now),
    {
        match &self.data {
            Some(data) => {
                if now.before(&data.token_ttl) {
                    Some(data.token.as_str())
                } else {
                    None
                }
            },
            None => None,
        }
    }

    /// The cached token, if the system clock stands strictly before its
    /// expiry.
    pub fn access_token(&self) -> (token: Option<&str>)
        ensures
            exists|now: Timestamp|
                now.from_clock() && text_of(token) == #[trigger] offered_at(self@, now),
    {
        let now = utc_now();
        self.access_token_at(now)
    }

    /// Replaces whatever is cached by `token`, to be offered until
    /// `TOKEN_REFRESH` minutes after `now`.
    pub fn refresh_at(&mut self, token: &str, now: Timestamp)
        requires
            now.can_advance(TOKEN_REFRESH as int),
        ensures
            final(self)@ == stored_at(token@, now),
    {
        let expiry = now.plus(TOKEN_REFRESH);
        self.data = Some(CredsData { token: token.to_owned(), token_ttl: expiry });
    }

    /// Replaces whatever is cached by `token`, to be offered until
    /// `TOKEN_REFRESH` minutes after the system clock's present reading.
    pub fn refresh(&mut self, token: &str)
        ensures
            exists|now: Timestamp|
                now.from_clock() && final(self)@ == #[trigger] stored_at(token@, now),
    {
        let now = utc_now();
        self.refresh_at(token, now);
    }

    /// The validity window, in minutes, to request for a new token.
    pub fn ttl(&self) -> (minutes: i64)
        ensures
            minutes == TOKEN_TTL,
    {
        TOKEN_TTL
    }

    /// What is to be kept for the next run: the cached token with its expiry,
    /// run out or not, or nothing where no token was ever stored.
    pub fn data(&self) -> (data: Option<&CredsData>)
        ensures
            match data {
                Some(data) => self@ == Some(data@),
                None => self@ is None,
            },
    {
        self.data.as_ref()
    }
}

/// Expiry: a store that holds a token offers it at every instant strictly
/// before the token's expiry, and offers nothing at the expiry or after it.
pub proof fn lemma_offered_until_expiry(cached: CachedToken, now: Timestamp)
    ensures
        now.is_before(cached.expiry) ==> offered_at(Some(cached), now) == Some(cached.token),
        !now.is_before(cached.expiry) ==> offered_at(Some(cached), now) is None,
        offered_at(Some(cached), cached.expiry) is None,
{
}

/// A store that holds nothing offers nothing, at any instant.
pub proof fn lemma_empty_offers_nothing(now: Timestamp)
    ensures
        offered_at(None, now) is None,
{
}

/// Overwrite: after one token was stored and then a second, the store is in
/// the state that storing the second alone gives: it offers the second
/// token, until that token's own expiry, and never the first.
pub proof fn lemma_refresh_overwrites(
    first: Seq<char>,
    first_at: Timestamp,
    second: Seq<char>,
    second_at: Timestamp,
    now: Timestamp,
)
    ensures
        offered_at(stored_at(second, second_at), now) == if now.is_before(
            second_at.plus_minutes(TOKEN_REFRESH as int),
        ) {
            Some(second)
        } else {
            None
        },
        first != second ==> offered_at(stored_at(second, second_at), now) != Some(first),
{
}

/// Margin: a token stored at `now` expires `TOKEN_TTL - 1` minutes later,
/// which is one minute before the window requested for it ends.
pub proof fn lemma_expiry_margin(token: Seq<char>, now: Timestamp)
    requires
        now.can_advance(TOKEN_TTL as int),
        now.can_advance(TOKEN_TTL - 1),
    ensures
        stored_at(token, now) matches Some(cached) && cached.expiry == now.plus_minutes(
            TOKEN_TTL - 1,
        ) && cached.expiry.secs == now.secs + 60 * (TOKEN_TTL - 1) && cached.expiry.is_before(
            now.plus_minutes(TOKEN_TTL as int),
        ),
{
}

/// A stored token is offered from the moment it is stored until
/// `TOKEN_REFRESH` minutes have passed, and no longer.
pub proof fn lemma_stored_token_window(token: Seq<char>, now: Timestamp, later: Timestamp)
    requires
        now.can_advance(TOKEN_REFRESH as int),
    ensures
        offered_at(stored_at(token, now), now) == Some(token),
        offered_at(stored_at(token, now), later) == if later.is_before(
            now.plus_minutes(TOKEN_REFRESH as int),
        ) {
            Some(token)
        } else {
            None
        },
{
}

/// Restart: where a store kept `saved` for the next run after `token` was
/// stored at `stored`, a store built from `saved` offers `token` at every
/// instant before the token's expiry.
pub proof fn lemma_restart_keeps_token(
    token: Seq<char>,
    stored: Timestamp,
    saved: CredsData,
    restarted: Creds,
    now: Timestamp,
)
    requires
        stored_at(token, stored) == Some(saved@),
        restarted@ == Some(saved@),
        now.is_before(stored.plus_minutes(TOKEN_REFRESH as int)),
    ensures
        offered_at(restarted@, now) == Some(token),
{
}

} // verus!
