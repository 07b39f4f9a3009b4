//! The token pair minted for one identity, with its expiry.

use vstd::prelude::*;
use vstd::string::*;
use crate::text::opt_view;

verus! {

/// Every timestamp the clock hands out lies strictly between `-CLOCK_LIMIT`
/// and `CLOCK_LIMIT` seconds from the epoch.
pub const CLOCK_LIMIT: i64 = 0x2_0000_0000_0000;

/// An access/refresh token pair together with its lifetime.
#[derive(Debug, Clone)]
pub struct TokenData {
    pub access_token: String,
    pub refresh_token: String,
    pub expires_in: i64,
    pub expiry_timestamp: i64,
    pub token_type: String,
    pub email: Option<String>,
}

/// Seconds since the epoch, read from `chrono::Utc::now().timestamp()`.
///
/// The value depends on the system clock, so nothing is said of it beyond its
/// range: `timestamp` multiplies a day count held in an `i32` by 86 400 and
/// adds a second count held in a `u32`, which keeps it well inside
/// `CLOCK_LIMIT` on either side. `Utc::now` panics if the system clock reads
/// earlier than the epoch.
#[verifier::external_body]
fn current_timestamp() -> (now: i64)
    ensures
        -CLOCK_LIMIT < now < CLOCK_LIMIT,
{
    chrono::Utc::now().timestamp()
}

impl TokenData {
    /// The moment the token was created, as its fields record it.
    pub open spec fn created_at(&self) -> int {
        self.expiry_timestamp - self.expires_in
    }

    /// A token is well formed when it is a bearer token.
    pub open spec fn wf(&self) -> bool {
        self.token_type@ == "Bearer"@
    }

    /// The token created at `now` with the given lifetime.
    pub open spec fn is_issue(
        &self,
        access_token: Seq<char>,
        refresh_token: Seq<char>,
        expires_in: i64,
        email: Option<Seq<char>>,
        now: int,
    ) -> bool {
        &&& self.access_token@ == access_token
        &&& self.refresh_token@ == refresh_token
        &&& self.expires_in == expires_in
        &&& self.expiry_timestamp == now + expires_in
        &&& self.token_type@ == "Bearer"@
        &&& opt_view(self.email) == email
    }

    /// Builds the token for an exchange that completed at `now`.
    pub fn issued_at(
        access_token: String,
        refresh_token: String,
        expires_in: i64,
        email: Option<String>,
        now: i64,
    ) -> (token: TokenData)
        requires
            i64::MIN <= now + expires_in <= i64::MAX,
        ensures
            token.is_issue(access_token@, refresh_token@, expires_in, opt_view(email), now as int),
            token.wf(),
            token.created_at() == now,
    {
        TokenData {
            access_token,
            refresh_token,
            expires_in,
            expiry_timestamp: now + expires_in,
            token_type: String::from_str("Bearer"),
            email,
        }
    }

    /// Builds the token for an exchange that completes now.
    pub fn new(
        access_token: String,
        refresh_token: String,
        expires_in: i64,
        email: Option<String>,
    ) -> (token: TokenData)
        requires
            i64::MIN + CLOCK_LIMIT <= expires_in <= i64::MAX - CLOCK_LIMIT,
        ensures
            -CLOCK_LIMIT < token.created_at() < CLOCK_LIMIT,
            token.is_issue(
                access_token@,
                refresh_token@,
                expires_in,
                opt_view(email),
                token.created_at(),
            ),
            token.wf(),
    {
        let now: i64 = current_timestamp();
        TokenData::issued_at(access_token, refresh_token, expires_in, email, now)
    }

    /// Whether the token has run out at the moment `now`.
    pub fn expired_at(&self, now: i64) -> (expired: bool)
        ensures
            expired == (now >= self.expiry_timestamp),
    {
        now >= self.expiry_timestamp
    }

    /// Whether the token has run out by now. The clock decides between the two
    /// limits; outside them the answer is fixed.
    pub fn is_expired(&self) -> (expired: bool)
        ensures
            self.expiry_timestamp <= -CLOCK_LIMIT ==> expired,
            self.expiry_timestamp >= CLOCK_LIMIT ==> !expired,
    {
        let now: i64 = current_timestamp();
        self.expired_at(now)
    }
}

} // verus!
