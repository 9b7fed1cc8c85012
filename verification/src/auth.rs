//! The challenge-response coordinator: hands out nonces and turns a signed
//! nonce into a session, at most once per nonce.

use vstd::prelude::*;
use vstd::utf8::encode_utf8;
use crate::challenge::{
    consume_outcome, consumed, fresh_challenge, is_nonce_text, issued, pending_outcome, purged,
    value_in_use, Challenge, ChallengeError, ChallengeView, Challenges, IssueError, NonceStore,
};
use crate::clock::unix_now;
use crate::session::{session_for, Session, SessionView};
use crate::signature::{signed_by, verify_encoded};

verus! {

/// The status of a login that was granted.
pub const STATUS_OK: u16 = 200;

/// The status of a login that was refused, whatever the reason.
pub const STATUS_UNAUTHORIZED: u16 = 401;

/// Why a login was refused. The reasons are told apart for logs and metrics;
/// a client sees `STATUS_UNAUTHORIZED` for each.
#[derive(Clone, Copy, Debug, PartialEq, Eq, Structural)]
pub enum AuthError {
    /// The wallet has no challenge to answer: none was issued, or it is
    /// expired or already consumed.
    NoPendingChallenge(ChallengeError),
    /// The signature does not verify for the wallet over the nonce, or the
    /// wallet or the signature is malformed.
    InvalidSignature,
    /// The signature verified, but the challenge could no longer be
    /// consumed.
    ReplayOrExpired(ChallengeError),
}

/// The bytes that a client signs: the nonce's text as it was issued, byte
/// for byte.
pub open spec fn signed_message(value: Seq<char>) -> Seq<u8> {
    encode_utf8(value)
}

/// What a login comes to once the signature check has answered
/// `signature_ok`: a refusal where the check failed, else an attempt to
/// consume the challenge at time `now`, and a session only where that
/// succeeds.
pub open spec fn conclusion(
    store: Challenges,
    wallet: Seq<char>,
    value: Seq<char>,
    signature_ok: bool,
    now: i64,
) -> Result<SessionView, AuthError> {
    if !signature_ok {
        Err(AuthError::InvalidSignature)
    } else {
        match consume_outcome(store, wallet, value, now) {
            Err(e) => Err(AuthError::ReplayOrExpired(e)),
            Ok(_) => Ok(session_for(wallet, now)),
        }
    }
}

/// The store after `conclusion`: untouched where the signature check
/// failed.
pub open spec fn after_conclusion(
    store: Challenges,
    wallet: Seq<char>,
    value: Seq<char>,
    signature_ok: bool,
    now: i64,
) -> Challenges {
    if signature_ok {
        consumed(store, wallet, value, now)
    } else {
        store
    }
}

/// What a login with `signature` for `wallet` comes to, when the pending
/// challenge is read at time `seen_at` and consumed at time `consumed_at`.
pub open spec fn login_outcome(
    store: Challenges,
    wallet: Seq<char>,
    signature: Seq<char>,
    seen_at: i64,
    consumed_at: i64,
) -> Result<SessionView, AuthError> {
    match pending_outcome(store, wallet, seen_at) {
        Err(e) => Err(AuthError::NoPendingChallenge(e)),
        Ok(challenge) => conclusion(
            store,
            wallet,
            challenge.value,
            signed_by(wallet, signed_message(challenge.value), signature),
            consumed_at,
        ),
    }
}

/// The store after that login.
pub open spec fn after_login(
    store: Challenges,
    wallet: Seq<char>,
    signature: Seq<char>,
    seen_at: i64,
    consumed_at: i64,
) -> Challenges {
    match pending_outcome(store, wallet, seen_at) {
        Err(_) => store,
        Ok(challenge) => after_conclusion(
            store,
            wallet,
            challenge.value,
            signed_by(wallet, signed_message(challenge.value), signature),
            consumed_at,
        ),
    }
}

/// A login's result with the session taken by its view.
pub open spec fn outcome_view(outcome: Result<Session, AuthError>) -> Result<SessionView, AuthError> {
    match outcome {
        Ok(session) => Ok(session@),
        Err(e) => Err(e),
    }
}

/// The status that a login's result is answered with.
pub open spec fn status_of(outcome: Result<SessionView, AuthError>) -> u16 {
    if outcome is Ok {
        STATUS_OK
    } else {
        STATUS_UNAUTHORIZED
    }
}

/// The status to answer a login with: `STATUS_OK` for a session,
/// `STATUS_UNAUTHORIZED` for every refusal alike.
pub fn status_code(outcome: &Result<Session, AuthError>) -> (status: u16)
    ensures
        status == status_of(outcome_view(*outcome)),
        outcome is Err ==> status == STATUS_UNAUTHORIZED,
{
    match outcome {
        Ok(_) => STATUS_OK,
        Err(_) => STATUS_UNAUTHORIZED,
    }
}

/// The coordinator. It owns the nonce store, and changes it only by issuing
/// and consuming.
pub struct Coordinator {
    store: NonceStore,
}

impl View for Coordinator {
    type V = Challenges;

    closed spec fn view(&self) -> Challenges {
        self.store@
    }
}

impl Coordinator {
    /// The coordinator's invariant: that of its store.
    pub closed spec fn wf(&self) -> bool {
        self.store.wf()
    }

    /// A coordinator with an empty store.
    pub fn new() -> (coordinator: Coordinator)
        ensures
            coordinator.wf(),
            coordinator@ == Map::<Seq<char>, ChallengeView>::empty(),
    {
        Coordinator { store: NonceStore::new() }
    }

    /// Issues a fresh nonce to `wallet`, superseding the one it had.
    pub fn request_nonce(&mut self, wallet: &str) -> (outcome: Result<Challenge, IssueError>)
        requires
            old(self).wf(),
        ensures
            final(self).wf(),
            match outcome {
                Ok(challenge) => {
                    &&& is_nonce_text(challenge@.value)
                    &&& !value_in_use(old(self)@, challenge@.value)
                    &&& challenge@ == fresh_challenge(wallet@, challenge@.value, challenge@.issued_at)
                    &&& final(self)@ == issued(old(self)@, wallet@, challenge@.value, challenge@.issued_at)
                },
                Err(error) => {
                    &&& final(self)@ == old(self)@
                    &&& error == IssueError::ValueInUse ==> exists|value: Seq<char>|
                        #![trigger value_in_use(old(self)@, value)]
                        is_nonce_text(value) && value_in_use(old(self)@, value)
                },
            },
    {
        let outcome = self.store.issue(wallet);
        proof {
            if outcome == Err::<Challenge, IssueError>(IssueError::ValueInUse) {
                let value = choose|value: Seq<char>|
                    #![trigger value_in_use(old(self).store@, value)]
                    is_nonce_text(value) && value_in_use(old(self).store@, value);
                assert(value_in_use(old(self)@, value));
            }
        }
        outcome
    }

    /// Issues the nonce `value` to `wallet` at time `now`, superseding the
    /// one it had; refuses a value that is in use.
    pub fn request_nonce_with(&mut self, wallet: &str, value: String, now: i64) -> (outcome: Result<
        Challenge,
        IssueError,
    >)
        requires
            old(self).wf(),
        ensures
            final(self).wf(),
            value_in_use(old(self)@, value@) ==> outcome == Err::<Challenge, IssueError>(
                IssueError::ValueInUse,
            ) && final(self)@ == old(self)@,
            !value_in_use(old(self)@, value@) ==> outcome is Ok && outcome->Ok_0@ == fresh_challenge(
                wallet@,
                value@,
                now,
            ) && final(self)@ == issued(old(self)@, wallet@, value@, now),
    {
        self.store.issue_with(wallet, value, now)
    }

    /// The wallet's pending challenge at time `now`, read without consuming
    /// it.
    pub fn pending(&self, wallet: &str, now: i64) -> (outcome: Result<Challenge, ChallengeError>)
        requires
            self.wf(),
        ensures
            match outcome {
                Ok(challenge) => pending_outcome(self@, wallet@, now) == Ok::<ChallengeView, ChallengeError>(
                    challenge@,
                ),
                Err(e) => pending_outcome(self@, wallet@, now) == Err::<ChallengeView, ChallengeError>(e),
            },
    {
        self.store.pending(wallet, now)
    }

    /// Removes the challenges that are expired at time `now`.
    pub fn purge_expired_at(&mut self, now: i64)
        requires
            old(self).wf(),
        ensures
            final(self).wf(),
            final(self)@ == purged(old(self)@, now),
    {
        self.store.purge_expired_at(now)
    }

    /// Removes the challenges that are expired at the time that the system
    /// clock shows.
    pub fn purge_expired(&mut self)
        requires
            old(self).wf(),
        ensures
            final(self).wf(),
            exists|now: i64| #![trigger purged(old(self)@, now)] final(self)@ == purged(old(self)@, now),
    {
        self.store.purge_expired();
        proof {
            let now = choose|now: i64|
                #![trigger purged(old(self).store@, now)]
                self.store@ == purged(old(self).store@, now);
            assert(self@ == purged(old(self)@, now));
        }
    }

    /// Finishes a login once the signature over the nonce `value` has been
    /// checked: with `signature_ok` false the login is refused and the store
    /// untouched; with it true the challenge is consumed at time `now`, and
    /// a session is issued only if that succeeds.
    ///
    /// `signature_ok` must be the verifier's answer for this wallet and
    /// value: no other check is made here.
    pub fn conclude(&mut self, wallet: &str, value: &str, signature_ok: bool, now: i64) -> (outcome:
        Result<Session, AuthError>)
        requires
            old(self).wf(),
        ensures
            final(self).wf(),
            outcome_view(outcome) == conclusion(old(self)@, wallet@, value@, signature_ok, now),
            final(self)@ == after_conclusion(old(self)@, wallet@, value@, signature_ok, now),
    {
        if !signature_ok {
            return Err(AuthError::InvalidSignature);
        }
        match self.store.try_consume_at(wallet, value, now) {
            Err(e) => Err(AuthError::ReplayOrExpired(e)),
            Ok(_) => Ok(Session::mint(wallet, now)),
        }
    }

    /// Handles a login: reads the wallet's pending challenge at time
    /// `seen_at`, verifies `signature` (hexadecimal text) over the nonce's
    /// exact bytes, and on success consumes the challenge at time
    /// `consumed_at` and issues the session. A refusal leaves the store as
    /// it was.
    pub fn login_at(&mut self, wallet: &str, signature: &str, seen_at: i64, consumed_at: i64) -> (outcome:
        Result<Session, AuthError>)
        requires
            old(self).wf(),
        ensures
            final(self).wf(),
            outcome_view(outcome) == login_outcome(old(self)@, wallet@, signature@, seen_at, consumed_at),
            final(self)@ == after_login(old(self)@, wallet@, signature@, seen_at, consumed_at),
    {
        let challenge = match self.store.pending(wallet, seen_at) {
            Err(e) => {
                return Err(AuthError::NoPendingChallenge(e));
            },
            Ok(challenge) => challenge,
        };
        let signature_ok = verify_encoded(wallet, challenge.value.as_str().as_bytes(), signature);
        self.conclude(wallet, challenge.value.as_str(), signature_ok, consumed_at)
    }

    /// Handles a login as `login_at` does, reading the system clock once for
    /// the lookup and, if the signature verifies, once more for the
    /// consumption.
    pub fn login(&mut self, wallet: &str, signature: &str) -> (outcome: Result<Session, AuthError>)
        requires
            old(self).wf(),
        ensures
            final(self).wf(),
            exists|seen_at: i64, consumed_at: i64|
                #![trigger login_outcome(old(self)@, wallet@, signature@, seen_at, consumed_at)]
                outcome_view(outcome) == login_outcome(old(self)@, wallet@, signature@, seen_at, consumed_at)
                    && final(self)@ == after_login(old(self)@, wallet@, signature@, seen_at, consumed_at),
    {
        let seen_at = unix_now();
        let challenge = match self.store.pending(wallet, seen_at) {
            Err(e) => {
                assert(outcome_view(Err(AuthError::NoPendingChallenge(e))) == login_outcome(
                    old(self)@,
                    wallet@,
                    signature@,
                    seen_at,
                    seen_at,
                ));
                return Err(AuthError::NoPendingChallenge(e));
            },
            Ok(challenge) => challenge,
        };
        let signature_ok = verify_encoded(wallet, challenge.value.as_str().as_bytes(), signature);
        if !signature_ok {
            assert(outcome_view(Err(AuthError::InvalidSignature)) == login_outcome(
                old(self)@,
                wallet@,
                signature@,
                seen_at,
                seen_at,
            ));
            return Err(AuthError::InvalidSignature);
        }
        let consumed_at = unix_now();
        let outcome = self.conclude(wallet, challenge.value.as_str(), true, consumed_at);
        assert(outcome_view(outcome) == login_outcome(old(self)@, wallet@, signature@, seen_at, consumed_at));
        outcome
    }
}

} // verus!
