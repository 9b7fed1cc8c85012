//! The nonce store: one single-use challenge per wallet, issued with an
//! expiry and consumed at most once.
//!
//! The store is an owned value. Every operation that changes it takes it by
//! exclusive reference, so a check and the transition that follows it cannot
//! be interleaved with another caller's: of two attempts to consume the same
//! challenge, the one that runs second sees what the first one left.

use vstd::prelude::*;
use crate::clock::unix_now;
use crate::encoding::{encode_hex, hex_lower};
use crate::entropy::random_bytes;
use crate::text::same_text;

verus! {

/// How long a challenge can be answered, in seconds from its issuance.
pub const CHALLENGE_TTL_SECS: i64 = 300;

/// How many random bytes make a nonce (256 bits of entropy).
pub const NONCE_BYTES: usize = 32;

/// The two states of a challenge. Once `Consumed`, it stays so.
#[derive(Clone, Copy, Debug, PartialEq, Eq, Structural)]
pub enum ChallengeState {
    Pending,
    Consumed,
}

/// Why a challenge could not be looked up or consumed.
#[derive(Clone, Copy, Debug, PartialEq, Eq, Structural)]
pub enum ChallengeError {
    /// The store holds no challenge for the wallet.
    NotFound,
    /// The value offered is not the one of the wallet's pending challenge.
    Mismatch,
    /// The wallet's challenge is past its expiry.
    Expired,
    /// The wallet's challenge was consumed before.
    AlreadyConsumed,
}

/// Why no challenge was issued.
#[derive(Clone, Copy, Debug, PartialEq, Eq, Structural)]
pub enum IssueError {
    /// The system's random generator failed.
    EntropyUnavailable,
    /// A challenge in the store already carries the value.
    ValueInUse,
}

/// A nonce record. Only `value` is meant for the client.
#[derive(Debug, PartialEq, Eq)]
pub struct Challenge {
    pub wallet: String,
    pub value: String,
    pub issued_at: i64,
    pub expires_at: i64,
    pub state: ChallengeState,
}

/// What a `Challenge` is, with its texts as sequences of characters.
pub struct ChallengeView {
    pub wallet: Seq<char>,
    pub value: Seq<char>,
    pub issued_at: i64,
    pub expires_at: i64,
    pub state: ChallengeState,
}

impl View for Challenge {
    type V = ChallengeView;

    open spec fn view(&self) -> ChallengeView {
        ChallengeView {
            wallet: self.wallet@,
            value: self.value@,
            issued_at: self.issued_at,
            expires_at: self.expires_at,
            state: self.state,
        }
    }
}

/// The store as a mathematical map from wallet to its current challenge.
pub type Challenges = Map<Seq<char>, ChallengeView>;

/// When a challenge issued at `issued_at` expires: `CHALLENGE_TTL_SECS` later,
/// held at the largest representable time.
pub open spec fn expiry_of(issued_at: i64) -> i64 {
    if issued_at + CHALLENGE_TTL_SECS > i64::MAX {
        i64::MAX
    } else {
        (issued_at + CHALLENGE_TTL_SECS) as i64
    }
}

/// A challenge is expired once the time is past its expiry.
pub open spec fn is_expired(challenge: ChallengeView, now: i64) -> bool {
    now > challenge.expires_at
}

/// Whether some challenge in the store carries `value`.
pub open spec fn value_in_use(store: Challenges, value: Seq<char>) -> bool {
    exists|w: Seq<char>| store.contains_key(w) && (#[trigger] store[w]).value == value
}

/// What every store satisfies: each challenge is filed under its own wallet,
/// expires `CHALLENGE_TTL_SECS` after its issuance, and shares its value with
/// no other challenge.
pub open spec fn valid_store(store: Challenges) -> bool {
    &&& forall|w: Seq<char>|
        store.contains_key(w) ==> {
            &&& (#[trigger] store[w]).wallet == w
            &&& store[w].expires_at == expiry_of(store[w].issued_at)
        }
    &&& forall|w1: Seq<char>, w2: Seq<char>|
        store.contains_key(w1) && store.contains_key(w2) && w1 != w2 ==> (#[trigger] store[w1]).value
            != (#[trigger] store[w2]).value
}

/// The pending challenge that issuance creates.
pub open spec fn fresh_challenge(wallet: Seq<char>, value: Seq<char>, now: i64) -> ChallengeView {
    ChallengeView {
        wallet,
        value,
        issued_at: now,
        expires_at: expiry_of(now),
        state: ChallengeState::Pending,
    }
}

/// The store after issuing `value` to `wallet`: the new challenge replaces
/// whatever the wallet had, pending or consumed.
pub open spec fn issued(store: Challenges, wallet: Seq<char>, value: Seq<char>, now: i64) -> Challenges {
    store.insert(wallet, fresh_challenge(wallet, value, now))
}

/// What a read of the wallet's pending challenge gives at time `now`.
pub open spec fn pending_outcome(store: Challenges, wallet: Seq<char>, now: i64) -> Result<
    ChallengeView,
    ChallengeError,
> {
    if !store.contains_key(wallet) {
        Err(ChallengeError::NotFound)
    } else if is_expired(store[wallet], now) {
        Err(ChallengeError::Expired)
    } else if store[wallet].state == ChallengeState::Consumed {
        Err(ChallengeError::AlreadyConsumed)
    } else {
        Ok(store[wallet])
    }
}

/// Whether `value` consumes the wallet's challenge at time `now`, and if not,
/// why.
pub open spec fn consume_outcome(store: Challenges, wallet: Seq<char>, value: Seq<char>, now: i64) -> Result<
    (),
    ChallengeError,
> {
    match pending_outcome(store, wallet, now) {
        Err(e) => Err(e),
        Ok(challenge) => if challenge.value == value {
            Ok(())
        } else {
            Err(ChallengeError::Mismatch)
        },
    }
}

/// The store after an attempt to consume: the wallet's challenge is marked
/// consumed where the attempt succeeds, and nothing changes where it fails.
pub open spec fn consumed(store: Challenges, wallet: Seq<char>, value: Seq<char>, now: i64) -> Challenges {
    if consume_outcome(store, wallet, value, now) is Ok {
        store.insert(wallet, ChallengeView { state: ChallengeState::Consumed, ..store[wallet] })
    } else {
        store
    }
}

/// The store without its expired challenges: what garbage collection at
/// time `now` leaves.
pub open spec fn purged(store: Challenges, now: i64) -> Challenges {
    Map::new(
        |w: Seq<char>| store.contains_key(w) && !is_expired(store[w], now),
        |w: Seq<char>| store[w],
    )
}

/// The text of a nonce that the store draws itself: the lower-case
/// hexadecimal form of `NONCE_BYTES` bytes.
pub open spec fn is_nonce_text(value: Seq<char>) -> bool {
    exists|bytes: Seq<u8>| #![trigger hex_lower(bytes)] bytes.len() == NONCE_BYTES && value == hex_lower(bytes)
}

spec fn wallets_distinct(records: Seq<Challenge>) -> bool {
    forall|i: int, j: int|
        0 <= i < j < records.len() ==> (#[trigger] records[i]).wallet@ != (#[trigger] records[j]).wallet@
}

spec fn holds(records: Seq<Challenge>, wallet: Seq<char>) -> bool {
    exists|i: int| 0 <= i < records.len() && (#[trigger] records[i]).wallet@ == wallet
}

spec fn index_of(records: Seq<Challenge>, wallet: Seq<char>) -> int {
    choose|i: int| 0 <= i < records.len() && (#[trigger] records[i]).wallet@ == wallet
}

spec fn as_map(records: Seq<Challenge>) -> Challenges {
    Map::new(|w: Seq<char>| holds(records, w), |w: Seq<char>| records[index_of(records, w)]@)
}

proof fn lemma_record_at(records: Seq<Challenge>, i: int)
    requires
        wallets_distinct(records),
        0 <= i < records.len(),
    ensures
        as_map(records).contains_key(records[i].wallet@),
        as_map(records)[records[i].wallet@] == records[i]@,
{
    let w = records[i].wallet@;
    assert(holds(records, w));
    let j = index_of(records, w);
    assert(0 <= j < records.len() && records[j].wallet@ == w);
    assert(j == i);
}

proof fn lemma_record_of(records: Seq<Challenge>, wallet: Seq<char>)
    requires
        as_map(records).contains_key(wallet),
    ensures
        0 <= index_of(records, wallet) < records.len(),
        records[index_of(records, wallet)].wallet@ == wallet,
        as_map(records)[wallet] == records[index_of(records, wallet)]@,
{
    assert(holds(records, wallet));
}

proof fn lemma_replaced(records: Seq<Challenge>, i: int, record: Challenge)
    requires
        wallets_distinct(records),
        0 <= i < records.len(),
        record.wallet@ == records[i].wallet@,
    ensures
        wallets_distinct(records.update(i, record)),
        as_map(records.update(i, record)) == as_map(records).insert(record.wallet@, record@),
{
    let after = records.update(i, record);
    assert(wallets_distinct(after)) by {
        assert forall|a: int, b: int| 0 <= a < b < after.len() implies
            (#[trigger] after[a]).wallet@ != (#[trigger] after[b]).wallet@ by {
            assert(after[a].wallet@ == records[a].wallet@);
            assert(after[b].wallet@ == records[b].wallet@);
        }
    }
    let target = as_map(records).insert(record.wallet@, record@);
    assert forall|w: Seq<char>| as_map(after).contains_key(w) <==> target.contains_key(w) by {
        if holds(after, w) {
            let k = index_of(after, w);
            assert(records[k].wallet@ == w);
        }
        if holds(records, w) {
            let k = index_of(records, w);
            assert(after[k].wallet@ == w);
        }
        if w == record.wallet@ {
            assert(after[i].wallet@ == w);
        }
    }
    assert forall|w: Seq<char>| as_map(after).contains_key(w) implies as_map(after)[w] == target[w] by {
        lemma_record_of(after, w);
        let k = index_of(after, w);
        if k == i {
        } else {
            assert(records[k] == after[k]);
            lemma_record_at(records, k);
        }
    }
    assert(as_map(after) =~= target);
}

proof fn lemma_appended(records: Seq<Challenge>, record: Challenge)
    requires
        wallets_distinct(records),
        !holds(records, record.wallet@),
    ensures
        wallets_distinct(records.push(record)),
        as_map(records.push(record)) == as_map(records).insert(record.wallet@, record@),
{
    let after = records.push(record);
    assert(wallets_distinct(after)) by {
        assert forall|a: int, b: int| 0 <= a < b < after.len() implies
            (#[trigger] after[a]).wallet@ != (#[trigger] after[b]).wallet@ by {
            assert(after[a] == records[a]);
            if b < records.len() {
                assert(after[b] == records[b]);
            }
        }
    }
    let target = as_map(records).insert(record.wallet@, record@);
    let last = records.len() as int;
    assert forall|w: Seq<char>| as_map(after).contains_key(w) <==> target.contains_key(w) by {
        if holds(after, w) {
            let k = index_of(after, w);
            if k < last {
                assert(records[k].wallet@ == w);
            }
        }
        if holds(records, w) {
            let k = index_of(records, w);
            assert(after[k].wallet@ == w);
        }
        if w == record.wallet@ {
            assert(after[last].wallet@ == w);
        }
    }
    assert forall|w: Seq<char>| as_map(after).contains_key(w) implies as_map(after)[w] == target[w] by {
        lemma_record_of(after, w);
        let k = index_of(after, w);
        if k == last {
        } else {
            assert(records[k] == after[k]);
            lemma_record_at(records, k);
        }
    }
    assert(as_map(after) =~= target);
}

proof fn lemma_removed(records: Seq<Challenge>, i: int)
    requires
        wallets_distinct(records),
        0 <= i < records.len(),
    ensures
        wallets_distinct(records.remove(i)),
        as_map(records.remove(i)) == as_map(records).remove(records[i].wallet@),
{
    let after = records.remove(i);
    let gone = records[i].wallet@;
    assert forall|k: int| 0 <= k < after.len() implies
        (#[trigger] after[k]) == records[if k < i { k } else { k + 1 }] by {}
    assert(wallets_distinct(after)) by {
        assert forall|a: int, b: int| 0 <= a < b < after.len() implies
            (#[trigger] after[a]).wallet@ != (#[trigger] after[b]).wallet@ by {
            let a0 = if a < i { a } else { a + 1 };
            let b0 = if b < i { b } else { b + 1 };
            assert(after[a] == records[a0] && after[b] == records[b0]);
        }
    }
    let target = as_map(records).remove(gone);
    assert forall|w: Seq<char>| as_map(after).contains_key(w) <==> target.contains_key(w) by {
        if holds(after, w) {
            let k = index_of(after, w);
            let k0 = if k < i { k } else { k + 1 };
            assert(records[k0].wallet@ == w);
            assert(k0 != i);
        }
        if holds(records, w) && w != gone {
            let k = index_of(records, w);
            let k1 = if k < i { k } else { k - 1 };
            assert(after[k1] == records[k]);
            assert(after[k1].wallet@ == w);
        }
    }
    assert forall|w: Seq<char>| as_map(after).contains_key(w) implies as_map(after)[w] == target[w] by {
        lemma_record_of(after, w);
        let k = index_of(after, w);
        let k0 = if k < i { k } else { k + 1 };
        assert(after[k] == records[k0]);
        lemma_record_at(records, k0);
    }
    assert(as_map(after) =~= target);
}

/// Garbage collection keeps a store valid.
pub proof fn lemma_purged_valid(store: Challenges, now: i64)
    requires
        valid_store(store),
    ensures
        valid_store(purged(store, now)),
{
    let after = purged(store, now);
    assert forall|w1: Seq<char>, w2: Seq<char>|
        after.contains_key(w1) && after.contains_key(w2) && w1 != w2 implies
        (#[trigger] after[w1]).value != (#[trigger] after[w2]).value by {
        assert(store.contains_key(w1) && store[w1].value == after[w1].value);
        assert(store.contains_key(w2) && store[w2].value == after[w2].value);
    }
}

/// Issuing keeps a store valid, provided the value is new to it.
pub proof fn lemma_issued_valid(store: Challenges, wallet: Seq<char>, value: Seq<char>, now: i64)
    requires
        valid_store(store),
        !value_in_use(store, value),
    ensures
        valid_store(issued(store, wallet, value, now)),
{
    let after = issued(store, wallet, value, now);
    assert forall|w1: Seq<char>, w2: Seq<char>|
        after.contains_key(w1) && after.contains_key(w2) && w1 != w2 implies
        (#[trigger] after[w1]).value != (#[trigger] after[w2]).value by {
        if w1 != wallet {
            assert(store.contains_key(w1) && store[w1].value == after[w1].value);
        }
        if w2 != wallet {
            assert(store.contains_key(w2) && store[w2].value == after[w2].value);
        }
    }
}

/// An attempt to consume keeps a store valid, whether it succeeds or not.
pub proof fn lemma_consumed_valid(store: Challenges, wallet: Seq<char>, value: Seq<char>, now: i64)
    requires
        valid_store(store),
    ensures
        valid_store(consumed(store, wallet, value, now)),
{
    let after = consumed(store, wallet, value, now);
    if consume_outcome(store, wallet, value, now) is Ok {
        assert forall|w1: Seq<char>, w2: Seq<char>|
            after.contains_key(w1) && after.contains_key(w2) && w1 != w2 implies
            (#[trigger] after[w1]).value != (#[trigger] after[w2]).value by {
            assert(store.contains_key(w1) && store[w1].value == after[w1].value);
            assert(store.contains_key(w2) && store[w2].value == after[w2].value);
        }
    }
}

/// The nonce store.
pub struct NonceStore {
    records: Vec<Challenge>,
}

impl View for NonceStore {
    type V = Challenges;

    closed spec fn view(&self) -> Challenges {
        as_map(self.records@)
    }
}

impl NonceStore {
    /// The store's invariant: no wallet is filed twice, and the challenges
    /// form a valid store.
    pub closed spec fn wf(&self) -> bool {
        &&& wallets_distinct(self.records@)
        &&& valid_store(self@)
    }

    /// A well-formed store is a valid store.
    pub proof fn lemma_wf_valid(&self)
        requires
            self.wf(),
        ensures
            valid_store(self@),
    {
    }

    /// An empty store.
    pub fn new() -> (store: NonceStore)
        ensures
            store.wf(),
            store@ == Map::<Seq<char>, ChallengeView>::empty(),
    {
        let store = NonceStore { records: Vec::new() };
        assert(store@ =~= Map::<Seq<char>, ChallengeView>::empty());
        store
    }

    fn find(&self, wallet: &str) -> (found: Option<usize>)
        ensures
            match found {
                Some(i) => i < self.records@.len() && self.records@[i as int].wallet@ == wallet@,
                None => !holds(self.records@, wallet@),
            },
    {
        let mut i: usize = 0;
        while i < self.records.len()
            invariant
                0 <= i <= self.records@.len(),
                forall|k: int| 0 <= k < i ==> (#[trigger] self.records@[k]).wallet@ != wallet@,
            decreases self.records@.len() - i,
        {
            if same_text(self.records[i].wallet.as_str(), wallet) {
                return Some(i);
            }
            i += 1;
        }
        None
    }

    fn carries(&self, value: &str) -> (taken: bool)
        requires
            self.wf(),
        ensures
            taken == value_in_use(self@, value@),
    {
        let mut i: usize = 0;
        while i < self.records.len()
            invariant
                self.wf(),
                0 <= i <= self.records@.len(),
                forall|k: int| 0 <= k < i ==> (#[trigger] self.records@[k]).value@ != value@,
            decreases self.records@.len() - i,
        {
            if same_text(self.records[i].value.as_str(), value) {
                proof {
                    lemma_record_at(self.records@, i as int);
                }
                return true;
            }
            i += 1;
        }
        proof {
            if value_in_use(self@, value@) {
                let w = choose|w: Seq<char>| self@.contains_key(w) && (#[trigger] self@[w]).value == value@;
                lemma_record_of(self.records@, w);
            }
        }
        false
    }

    /// Stores `value` as the wallet's pending challenge at time `now`,
    /// discarding the challenge that the wallet had, if any. A value that a
    /// challenge in the store already carries is refused and the store left
    /// as it was.
    pub fn issue_with(&mut self, wallet: &str, value: String, now: i64) -> (outcome: Result<
        Challenge,
        IssueError,
    >)
        requires
            old(self).wf(),
        ensures
            final(self).wf(),
            value_in_use(old(self)@, value@) ==> outcome == Err::<Challenge, IssueError>(
                IssueError::ValueInUse,
            ) && final(self)@ == old(self)@,
            !value_in_use(old(self)@, value@) ==> outcome is Ok && outcome->Ok_0@ == fresh_challenge(
                wallet@,
                value@,
                now,
            ) && final(self)@ == issued(old(self)@, wallet@, value@, now),
    {
        if self.carries(value.as_str()) {
            return Err(IssueError::ValueInUse);
        }
        let expires_at: i64 = if now > i64::MAX - CHALLENGE_TTL_SECS {
            i64::MAX
        } else {
            now + CHALLENGE_TTL_SECS
        };
        let record = Challenge {
            wallet: wallet.to_owned(),
            value: value.clone(),
            issued_at: now,
            expires_at,
            state: ChallengeState::Pending,
        };
        let copy = Challenge {
            wallet: wallet.to_owned(),
            value,
            issued_at: now,
            expires_at,
            state: ChallengeState::Pending,
        };
        proof {
            lemma_issued_valid(self@, wallet@, value@, now);
        }
        match self.find(wallet) {
            Some(i) => {
                proof {
                    lemma_replaced(self.records@, i as int, record);
                }
                self.records.set(i, record);
            },
            None => {
                proof {
                    lemma_appended(self.records@, record);
                }
                self.records.push(record);
            },
        }
        Ok(copy)
    }

    /// Issues a challenge to `wallet`: draws `NONCE_BYTES` bytes from the
    /// system's generator, takes their hexadecimal text as the value and the
    /// current time as the issuance, and stores it as `issue_with` does.
    ///
    /// The generator may fail, and may (with negligible probability) repeat
    /// a value that is in use; the store is then unchanged. On a store that
    /// carries no nonce, the second cannot happen.
    pub fn issue(&mut self, wallet: &str) -> (outcome: Result<Challenge, IssueError>)
        requires
            old(self).wf(),
        ensures
            final(self).wf(),
            match outcome {
                Ok(challenge) => {
                    &&& is_nonce_text(challenge@.value)
                    &&& !value_in_use(old(self)@, challenge@.value)
                    &&& challenge@ == fresh_challenge(wallet@, challenge@.value, challenge@.issued_at)
                    &&& final(self)@ == issued(old(self)@, wallet@, challenge@.value, challenge@.issued_at)
                },
                Err(error) => {
                    &&& final(self)@ == old(self)@
                    &&& error == IssueError::ValueInUse ==> exists|value: Seq<char>|
                        #![trigger value_in_use(old(self)@, value)]
                        is_nonce_text(value) && value_in_use(old(self)@, value)
                },
            },
    {
        let bytes = match random_bytes(NONCE_BYTES) {
            Some(bytes) => bytes,
            None => {
                return Err(IssueError::EntropyUnavailable);
            },
        };
        let value = encode_hex(bytes.as_slice());
        assert(is_nonce_text(value@)) by {
            assert(value@ == hex_lower(bytes@));
        }
        let now = unix_now();
        self.issue_with(wallet, value, now)
    }

    /// Reads the wallet's pending challenge at time `now` without consuming
    /// it.
    pub fn pending(&self, wallet: &str, now: i64) -> (outcome: Result<Challenge, ChallengeError>)
        requires
            self.wf(),
        ensures
            match outcome {
                Ok(challenge) => pending_outcome(self@, wallet@, now) == Ok::<ChallengeView, ChallengeError>(
                    challenge@,
                ),
                Err(e) => pending_outcome(self@, wallet@, now) == Err::<ChallengeView, ChallengeError>(e),
            },
    {
        match self.find(wallet) {
            None => Err(ChallengeError::NotFound),
            Some(i) => {
                proof {
                    lemma_record_at(self.records@, i as int);
                }
                let record = &self.records[i];
                if now > record.expires_at {
                    Err(ChallengeError::Expired)
                } else {
                    match record.state {
                        ChallengeState::Consumed => Err(ChallengeError::AlreadyConsumed),
                        ChallengeState::Pending => Ok(
                            Challenge {
                                wallet: record.wallet.clone(),
                                value: record.value.clone(),
                                issued_at: record.issued_at,
                                expires_at: record.expires_at,
                                state: ChallengeState::Pending,
                            },
                        ),
                    }
                }
            },
        }
    }

    /// Consumes the wallet's challenge at time `now` if it is pending, not
    /// expired and carries exactly `value`; otherwise reports why not and
    /// leaves the store as it was.
    pub fn try_consume_at(&mut self, wallet: &str, value: &str, now: i64) -> (outcome: Result<
        (),
        ChallengeError,
    >)
        requires
            old(self).wf(),
        ensures
            final(self).wf(),
            outcome == consume_outcome(old(self)@, wallet@, value@, now),
            final(self)@ == consumed(old(self)@, wallet@, value@, now),
    {
        match self.find(wallet) {
            None => Err(ChallengeError::NotFound),
            Some(i) => {
                proof {
                    lemma_record_at(self.records@, i as int);
                }
                let record = &self.records[i];
                if now > record.expires_at {
                    return Err(ChallengeError::Expired);
                }
                match record.state {
                    ChallengeState::Consumed => {
                        return Err(ChallengeError::AlreadyConsumed);
                    },
                    ChallengeState::Pending => {},
                }
                if !same_text(record.value.as_str(), value) {
                    return Err(ChallengeError::Mismatch);
                }
                let spent = Challenge {
                    wallet: record.wallet.clone(),
                    value: record.value.clone(),
                    issued_at: record.issued_at,
                    expires_at: record.expires_at,
                    state: ChallengeState::Consumed,
                };
                proof {
                    lemma_replaced(self.records@, i as int, spent);
                    lemma_consumed_valid(self@, wallet@, value@, now);
                }
                self.records.set(i, spent);
                Ok(())
            },
        }
    }

    /// Consumes the wallet's challenge as `try_consume_at` does, at the time
    /// that the system clock shows.
    pub fn try_consume(&mut self, wallet: &str, value: &str) -> (outcome: Result<(), ChallengeError>)
        requires
            old(self).wf(),
        ensures
            final(self).wf(),
            exists|now: i64|
                #![trigger consume_outcome(old(self)@, wallet@, value@, now)]
                outcome == consume_outcome(old(self)@, wallet@, value@, now) && final(self)@ == consumed(
                    old(self)@,
                    wallet@,
                    value@,
                    now,
                ),
    {
        let now = unix_now();
        self.try_consume_at(wallet, value, now)
    }

    /// Removes the challenges that are expired at time `now`. The others
    /// stay as they are.
    pub fn purge_expired_at(&mut self, now: i64)
        requires
            old(self).wf(),
        ensures
            final(self).wf(),
            final(self)@ == purged(old(self)@, now),
    {
        let mut i: usize = 0;
        while i < self.records.len()
            invariant
                wallets_distinct(self.records@),
                0 <= i <= self.records@.len(),
                forall|k: int| 0 <= k < i ==> !is_expired((#[trigger] self.records@[k])@, now),
                forall|w: Seq<char>|
                    #![trigger self@.contains_key(w)]
                    self@.contains_key(w) ==> old(self)@.contains_key(w) && self@[w] == old(self)@[w],
                forall|w: Seq<char>|
                    #![trigger old(self)@.contains_key(w)]
                    old(self)@.contains_key(w) && !is_expired(old(self)@[w], now) ==> self@.contains_key(w),
            decreases self.records@.len() - i,
        {
            if now > self.records[i].expires_at {
                let ghost before = self@;
                proof {
                    lemma_removed(self.records@, i as int);
                    lemma_record_at(self.records@, i as int);
                }
                let _ = self.records.remove(i);
                proof {
                    assert forall|w: Seq<char>|
                        #![trigger self@.contains_key(w)]
                        self@.contains_key(w) implies old(self)@.contains_key(w) && self@[w] == old(self)@[w] by {
                        assert(before.contains_key(w) && before[w] == self@[w]);
                    }
                    assert forall|w: Seq<char>|
                        #![trigger old(self)@.contains_key(w)]
                        old(self)@.contains_key(w) && !is_expired(
                            old(self)@[w],
                            now,
                        ) implies self@.contains_key(w) by {
                        assert(before.contains_key(w) && before[w] == old(self)@[w]);
                    }
                }
            } else {
                i += 1;
            }
        }
        proof {
            let target = purged(old(self)@, now);
            assert forall|w: Seq<char>| self@.contains_key(w) implies target.contains_key(w) by {
                lemma_record_of(self.records@, w);
            }
            assert(self@ =~= target);
            lemma_purged_valid(old(self)@, now);
        }
    }

    /// Removes the challenges that are expired at the time that the system
    /// clock shows.
    pub fn purge_expired(&mut self)
        requires
            old(self).wf(),
        ensures
            final(self).wf(),
            exists|now: i64| #![trigger purged(old(self)@, now)] final(self)@ == purged(old(self)@, now),
    {
        let now = unix_now();
        self.purge_expired_at(now)
    }
}

} // verus!
