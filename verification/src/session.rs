//! The session issuer: what a wallet holds once it has proved itself.

use vstd::prelude::*;

verus! {

/// How long a session lasts, in seconds from its issuance.
pub const SESSION_TTL_SECS: i64 = 86_400;

/// An authenticated session. Only a login that consumed the wallet's
/// challenge makes one: the fields are private and the constructor is the
/// crate's own.
#[derive(Debug, PartialEq, Eq)]
pub struct Session {
    wallet: String,
    issued_at: i64,
    expires_at: i64,
}

/// What a `Session` is.
pub struct SessionView {
    pub wallet: Seq<char>,
    pub issued_at: i64,
    pub expires_at: i64,
}

/// When a session issued at `issued_at` ends: `SESSION_TTL_SECS` later, held
/// at the largest representable time.
pub open spec fn session_expiry(issued_at: i64) -> i64 {
    if issued_at + SESSION_TTL_SECS > i64::MAX {
        i64::MAX
    } else {
        (issued_at + SESSION_TTL_SECS) as i64
    }
}

/// The session of `wallet` issued at `now`. It depends on nothing else.
pub open spec fn session_for(wallet: Seq<char>, now: i64) -> SessionView {
    SessionView { wallet, issued_at: now, expires_at: session_expiry(now) }
}

impl View for Session {
    type V = SessionView;

    closed spec fn view(&self) -> SessionView {
        SessionView { wallet: self.wallet@, issued_at: self.issued_at, expires_at: self.expires_at }
    }
}

impl Session {
    pub(crate) fn mint(wallet: &str, now: i64) -> (session: Session)
        ensures
            session@ == session_for(wallet@, now),
    {
        let expires_at: i64 = if now > i64::MAX - SESSION_TTL_SECS {
            i64::MAX
        } else {
            now + SESSION_TTL_SECS
        };
        Session { wallet: wallet.to_owned(), issued_at: now, expires_at }
    }

    /// The wallet that the session authenticates.
    pub fn wallet(&self) -> (wallet: &str)
        ensures
            wallet@ == self@.wallet,
    {
        self.wallet.as_str()
    }

    /// When the session was issued.
    pub fn issued_at(&self) -> (at: i64)
        ensures
            at == self@.issued_at,
    {
        self.issued_at
    }

    /// When the session ends.
    pub fn expires_at(&self) -> (at: i64)
        ensures
            at == self@.expires_at,
    {
        self.expires_at
    }

    /// Whether the session is still good at time `now`.
    pub fn is_live(&self, now: i64) -> (live: bool)
        ensures
            live == (now <= self@.expires_at),
    {
        now <= self.expires_at
    }
}

} // verus!
