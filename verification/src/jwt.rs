//! The claims of the token that a client of the notification service shows.

use vstd::prelude::*;

use crate::outside::current_epoch_seconds;

verus! {

/// How long a token is valid: a hundred days, in seconds.
pub const TOKEN_LIFETIME: u64 = 8_640_000;

/// The claims of a token: when it expires, in seconds since the Unix epoch,
/// and whom it was issued to.
#[derive(Debug)]
pub struct Claims {
    exp: usize,
    pub sub: String,
}

impl Claims {
    /// The expiry of the claims, in seconds since the Unix epoch.
    pub closed spec fn expiry(&self) -> usize {
        self.exp
    }

    /// Whom the claims were issued to.
    pub closed spec fn subject(&self) -> Seq<char> {
        self.sub@
    }

    pub fn sub(&self) -> (sub: &str)
        ensures
            sub@ == self.subject(),
    {
        self.sub.as_str()
    }

    pub fn exp(&self) -> (exp: usize)
        ensures
            exp == self.expiry(),
    {
        self.exp
    }

    /// The claims of a token that was issued to `subject` and expires at `exp`.
    pub fn with_expiry(subject: String, exp: usize) -> (claims: Self)
        ensures
            claims.expiry() == exp,
            claims.subject() == subject@,
    {
        Claims { exp, sub: subject }
    }

    /// The claims of a token issued to `subject` at `now_seconds`: it expires
    /// a token lifetime later. `None` where that time is not a `usize`.
    pub fn issued_at(subject: String, now_seconds: u64) -> (claims: Option<Self>)
        ensures
            claims is Some <==> now_seconds + TOKEN_LIFETIME <= usize::MAX,
            claims matches Some(c) ==> c.expiry() == now_seconds + TOKEN_LIFETIME && c.subject()
                == subject@,
    {
        if now_seconds > u64::MAX - TOKEN_LIFETIME {
            return None;
        }
        let expiration_s: u64 = now_seconds + TOKEN_LIFETIME;
        if expiration_s > usize::MAX as u64 {
            return None;
        }
        Some(Self::with_expiry(subject, expiration_s as usize))
    }

    /// The claims of a token issued to `subject` now, by the system clock.
    /// `None` where the clock stands before the Unix epoch or the expiry is
    /// not a `usize`.
    pub fn new(subject: String) -> (claims: Option<Self>)
        ensures
            claims matches Some(c) ==> c.subject() == subject@ && c.expiry() >= TOKEN_LIFETIME,
    {
        match current_epoch_seconds() {
            Some(now) => Self::issued_at(subject, now),
            None => None,
        }
    }
}

} // verus!
