//! What holds of every store, wallet and time: the replay guarantee and the
//! invariants of a challenge's life, proved from the definitions that the
//! store's and the coordinator's contracts use.

use vstd::prelude::*;
use crate::auth::{after_login, login_outcome, signed_message, status_of, AuthError, STATUS_OK, STATUS_UNAUTHORIZED};
use crate::challenge::{
    consume_outcome, consumed, expiry_of, is_expired, issued, pending_outcome, purged,
    ChallengeError, ChallengeState, ChallengeView, Challenges,
};
use crate::session::{session_for, SessionView};
use crate::signature::signed_by;

verus! {

/// No session without winning the consumption: a login yields a session
/// only where the wallet's challenge was pending and unexpired when it was
/// read, the signature verifies over exactly its nonce, and the attempt to
/// consume it succeeded. The challenge is then consumed, and nothing else in
/// the store has changed.
pub proof fn law_session_only_after_consumption(
    store: Challenges,
    wallet: Seq<char>,
    signature: Seq<char>,
    seen_at: i64,
    consumed_at: i64,
)
    requires
        login_outcome(store, wallet, signature, seen_at, consumed_at) is Ok,
    ensures
        store.contains_key(wallet),
        store[wallet].state == ChallengeState::Pending,
        !is_expired(store[wallet], seen_at),
        !is_expired(store[wallet], consumed_at),
        signed_by(wallet, signed_message(store[wallet].value), signature),
        consume_outcome(store, wallet, store[wallet].value, consumed_at) is Ok,
        login_outcome(store, wallet, signature, seen_at, consumed_at) == Ok::<SessionView, AuthError>(
            session_for(wallet, consumed_at),
        ),
        after_login(store, wallet, signature, seen_at, consumed_at) == store.insert(
            wallet,
            ChallengeView { state: ChallengeState::Consumed, ..store[wallet] },
        ),
{
}

/// A refused login changes nothing.
pub proof fn law_refusal_changes_nothing(
    store: Challenges,
    wallet: Seq<char>,
    signature: Seq<char>,
    seen_at: i64,
    consumed_at: i64,
)
    requires
        login_outcome(store, wallet, signature, seen_at, consumed_at) is Err,
    ensures
        after_login(store, wallet, signature, seen_at, consumed_at) == store,
        status_of(login_outcome(store, wallet, signature, seen_at, consumed_at)) == STATUS_UNAUTHORIZED,
{
}

/// A nonce that is issued, signed correctly and submitted once before it
/// expires yields a session for the wallet, with status 200. The same signed
/// payload submitted again, at whatever time, is refused with status 401
/// and changes nothing.
pub proof fn law_signed_nonce_logs_in_once(
    store: Challenges,
    wallet: Seq<char>,
    value: Seq<char>,
    signature: Seq<char>,
    issued_at: i64,
    seen_at: i64,
    consumed_at: i64,
    replay_seen_at: i64,
    replay_consumed_at: i64,
)
    requires
        signed_by(wallet, signed_message(value), signature),
        seen_at <= expiry_of(issued_at),
        consumed_at <= expiry_of(issued_at),
    ensures
        ({
            let pending = issued(store, wallet, value, issued_at);
            let first = login_outcome(pending, wallet, signature, seen_at, consumed_at);
            let spent = after_login(pending, wallet, signature, seen_at, consumed_at);
            let second = login_outcome(spent, wallet, signature, replay_seen_at, replay_consumed_at);
            &&& first == Ok::<SessionView, AuthError>(session_for(wallet, consumed_at))
            &&& status_of(first) == STATUS_OK
            &&& spent[wallet].state == ChallengeState::Consumed
            &&& second is Err
            &&& status_of(second) == STATUS_UNAUTHORIZED
            &&& after_login(spent, wallet, signature, replay_seen_at, replay_consumed_at) == spent
        }),
{
}

/// Two submissions of the same signed payload, each of which would succeed
/// if it came alone, are served one after the other in some order. In
/// either order the one served first gets the session and the other is
/// refused with status 401: never both, and never neither.
pub proof fn law_duplicate_submissions_one_success(
    store: Challenges,
    wallet: Seq<char>,
    signature: Seq<char>,
    a_seen_at: i64,
    a_consumed_at: i64,
    b_seen_at: i64,
    b_consumed_at: i64,
)
    requires
        login_outcome(store, wallet, signature, a_seen_at, a_consumed_at) is Ok,
        login_outcome(store, wallet, signature, b_seen_at, b_consumed_at) is Ok,
    ensures
        ({
            let after_a = after_login(store, wallet, signature, a_seen_at, a_consumed_at);
            let b_second = login_outcome(after_a, wallet, signature, b_seen_at, b_consumed_at);
            &&& b_second is Err
            &&& status_of(b_second) == STATUS_UNAUTHORIZED
            &&& after_login(after_a, wallet, signature, b_seen_at, b_consumed_at) == after_a
        }),
        ({
            let after_b = after_login(store, wallet, signature, b_seen_at, b_consumed_at);
            let a_second = login_outcome(after_b, wallet, signature, a_seen_at, a_consumed_at);
            &&& a_second is Err
            &&& status_of(a_second) == STATUS_UNAUTHORIZED
            &&& after_login(after_b, wallet, signature, a_seen_at, a_consumed_at) == after_b
        }),
{
}

/// After a second nonce is issued to a wallet, the first is gone: the
/// wallet's challenge carries the second value, and a signature that does
/// not verify over the second nonce is refused with status 401 and changes
/// nothing, whether or not it verifies over the first and whether or not the
/// first was ever consumed.
pub proof fn law_superseded_nonce_is_refused(
    store: Challenges,
    wallet: Seq<char>,
    first_value: Seq<char>,
    first_issued_at: i64,
    second_value: Seq<char>,
    second_issued_at: i64,
    signature: Seq<char>,
    seen_at: i64,
    consumed_at: i64,
)
    requires
        !signed_by(wallet, signed_message(second_value), signature),
    ensures
        ({
            let current = issued(
                issued(store, wallet, first_value, first_issued_at),
                wallet,
                second_value,
                second_issued_at,
            );
            let outcome = login_outcome(current, wallet, signature, seen_at, consumed_at);
            &&& current == issued(store, wallet, second_value, second_issued_at)
            &&& current[wallet].value == second_value
            &&& outcome is Err
            &&& status_of(outcome) == STATUS_UNAUTHORIZED
            &&& after_login(current, wallet, signature, seen_at, consumed_at) == current
        }),
{
    let once = issued(store, wallet, first_value, first_issued_at);
    let current = issued(once, wallet, second_value, second_issued_at);
    assert(current =~= issued(store, wallet, second_value, second_issued_at));
}

/// A login whose lookup or whose consumption comes after the challenge's
/// expiry is refused with status 401 and changes nothing, even with a
/// signature that verifies.
pub proof fn law_expired_challenge_is_refused(
    store: Challenges,
    wallet: Seq<char>,
    signature: Seq<char>,
    seen_at: i64,
    consumed_at: i64,
)
    requires
        store.contains_key(wallet),
        is_expired(store[wallet], seen_at) || is_expired(store[wallet], consumed_at),
    ensures
        login_outcome(store, wallet, signature, seen_at, consumed_at) is Err,
        status_of(login_outcome(store, wallet, signature, seen_at, consumed_at)) == STATUS_UNAUTHORIZED,
        after_login(store, wallet, signature, seen_at, consumed_at) == store,
        is_expired(store[wallet], seen_at) ==> login_outcome(store, wallet, signature, seen_at, consumed_at)
            == Err::<SessionView, AuthError>(AuthError::NoPendingChallenge(ChallengeError::Expired)),
{
}

/// An expired challenge counts as absent: with it or without it in the
/// store, a read and an attempt to consume fail, and the attempt changes
/// nothing.
pub proof fn law_expired_is_as_absent(store: Challenges, wallet: Seq<char>, value: Seq<char>, now: i64)
    requires
        store.contains_key(wallet),
        is_expired(store[wallet], now),
    ensures
        pending_outcome(store, wallet, now) is Err,
        pending_outcome(store.remove(wallet), wallet, now) is Err,
        consume_outcome(store, wallet, value, now) is Err,
        consume_outcome(store.remove(wallet), wallet, value, now) is Err,
        consumed(store, wallet, value, now) == store,
{
}

/// Garbage collection is not needed for correctness: a login that comes no
/// earlier than the collection succeeds with the collected store exactly if
/// it succeeds with the uncollected one, with the same session and the same
/// status.
pub proof fn law_purge_changes_no_login(
    store: Challenges,
    now: i64,
    wallet: Seq<char>,
    signature: Seq<char>,
    seen_at: i64,
    consumed_at: i64,
)
    requires
        now <= seen_at,
        now <= consumed_at,
    ensures
        ({
            let with = login_outcome(store, wallet, signature, seen_at, consumed_at);
            let without = login_outcome(purged(store, now), wallet, signature, seen_at, consumed_at);
            &&& with is Ok <==> without is Ok
            &&& with is Ok ==> with == without
            &&& status_of(with) == status_of(without)
        }),
{
}

/// A successful consumption cannot be repeated: once it has succeeded, every
/// further attempt on the wallet fails, whatever value it offers and at
/// whatever time, and leaves the challenge consumed.
pub proof fn law_consumed_once(
    store: Challenges,
    wallet: Seq<char>,
    value: Seq<char>,
    now: i64,
    later_value: Seq<char>,
    later: i64,
)
    requires
        consume_outcome(store, wallet, value, now) is Ok,
    ensures
        ({
            let spent = consumed(store, wallet, value, now);
            &&& spent[wallet].state == ChallengeState::Consumed
            &&& consume_outcome(spent, wallet, later_value, later) is Err
            &&& pending_outcome(spent, wallet, later) is Err
            &&& consumed(spent, wallet, later_value, later) == spent
        }),
{
}

/// No attempt to consume returns a consumed challenge to pending, and none
/// touches another wallet's challenge.
pub proof fn law_consumption_is_final(
    store: Challenges,
    wallet: Seq<char>,
    value: Seq<char>,
    now: i64,
    other: Seq<char>,
)
    requires
        store.contains_key(other),
    ensures
        ({
            let after = consumed(store, wallet, value, now);
            &&& after.contains_key(other)
            &&& store[other].state == ChallengeState::Consumed ==> after[other].state
                == ChallengeState::Consumed
            &&& other != wallet ==> after[other] == store[other]
            &&& after[other] == ChallengeView { state: after[other].state, ..store[other] }
        }),
{
}

/// A failed signature does not burn the nonce: after a login refused for
/// its signature, a login with a signature that verifies still succeeds
/// against the same challenge.
pub proof fn law_failed_signature_keeps_nonce(
    store: Challenges,
    wallet: Seq<char>,
    bad_signature: Seq<char>,
    good_signature: Seq<char>,
    bad_seen_at: i64,
    bad_consumed_at: i64,
    seen_at: i64,
    consumed_at: i64,
)
    requires
        login_outcome(store, wallet, bad_signature, bad_seen_at, bad_consumed_at) == Err::<
            SessionView,
            AuthError,
        >(AuthError::InvalidSignature),
        login_outcome(store, wallet, good_signature, seen_at, consumed_at) is Ok,
    ensures
        ({
            let after = after_login(store, wallet, bad_signature, bad_seen_at, bad_consumed_at);
            &&& after == store
            &&& login_outcome(after, wallet, good_signature, seen_at, consumed_at) is Ok
        }),
{
}

} // verus!
