use inheritx_backend::challenge::{
    Challenge, ChallengeError, ChallengeState, IssueError, NonceStore, CHALLENGE_TTL_SECS,
    NONCE_BYTES,
};

#[test]
fn constants_have_their_values() {
    assert_eq!(CHALLENGE_TTL_SECS, 300);
    assert_eq!(NONCE_BYTES, 32);
}

#[test]
fn issue_with_returns_the_pending_challenge() {
    let mut store = NonceStore::new();
    let challenge = store.issue_with("wallet", "value".to_string(), 1_700_000_000).unwrap();
    assert_eq!(
        challenge,
        Challenge {
            wallet: "wallet".to_string(),
            value: "value".to_string(),
            issued_at: 1_700_000_000,
            expires_at: 1_700_000_300,
            state: ChallengeState::Pending,
        }
    );
    assert_eq!(store.pending("wallet", 1_700_000_000).unwrap(), challenge);
}

#[test]
fn expiry_is_held_at_the_largest_time() {
    let mut store = NonceStore::new();
    let late = store.issue_with("a", "x".to_string(), i64::MAX - 299).unwrap();
    assert_eq!(late.expires_at, i64::MAX);
    let edge = store.issue_with("b", "y".to_string(), i64::MAX - 300).unwrap();
    assert_eq!(edge.expires_at, i64::MAX);
    let before = store.issue_with("c", "z".to_string(), i64::MAX - 301).unwrap();
    assert_eq!(before.expires_at, i64::MAX - 1);
    let early = store.issue_with("d", "w".to_string(), i64::MIN).unwrap();
    assert_eq!(early.expires_at, i64::MIN + 300);
    assert_eq!(store.try_consume_at("a", "x", i64::MAX), Ok(()));
    assert_eq!(store.try_consume_at("c", "z", i64::MAX), Err(ChallengeError::Expired));
}

#[test]
fn issue_draws_a_value_and_stores_it() {
    let mut store = NonceStore::new();
    let challenge = store.issue("wallet").unwrap();
    assert_eq!(challenge.value.len(), 2 * NONCE_BYTES);
    assert_eq!(challenge.state, ChallengeState::Pending);
    assert_eq!(store.pending("wallet", challenge.issued_at).unwrap(), challenge);
    assert_eq!(store.try_consume("wallet", &challenge.value), Ok(()));
    assert_eq!(store.try_consume("wallet", &challenge.value), Err(ChallengeError::AlreadyConsumed));
}

#[test]
fn try_consume_reports_not_found() {
    let mut store = NonceStore::new();
    assert_eq!(store.try_consume_at("nobody", "v", 0), Err(ChallengeError::NotFound));
    assert_eq!(store.try_consume("nobody", "v"), Err(ChallengeError::NotFound));
    store.issue_with("somebody", "v".to_string(), 0).unwrap();
    assert_eq!(store.try_consume_at("nobody", "v", 0), Err(ChallengeError::NotFound));
    assert_eq!(store.try_consume_at("Somebody", "v", 0), Err(ChallengeError::NotFound));
}

#[test]
fn try_consume_reports_mismatch_and_leaves_the_challenge_pending() {
    let mut store = NonceStore::new();
    store.issue_with("w", "right".to_string(), 0).unwrap();
    assert_eq!(store.try_consume_at("w", "wrong", 1), Err(ChallengeError::Mismatch));
    assert_eq!(store.try_consume_at("w", "right ", 1), Err(ChallengeError::Mismatch));
    assert_eq!(store.try_consume_at("w", "", 1), Err(ChallengeError::Mismatch));
    assert_eq!(store.pending("w", 1).unwrap().state, ChallengeState::Pending);
    assert_eq!(store.try_consume_at("w", "right", 1), Ok(()));
}

#[test]
fn try_consume_reports_expired_past_the_expiry_only() {
    let mut store = NonceStore::new();
    store.issue_with("w", "v".to_string(), 100).unwrap();
    assert_eq!(store.try_consume_at("w", "v", 401), Err(ChallengeError::Expired));
    assert_eq!(store.try_consume_at("w", "other", 401), Err(ChallengeError::Expired));
    assert_eq!(store.pending("w", 401), Err(ChallengeError::Expired));
    assert_eq!(store.try_consume_at("w", "v", 400), Ok(()));
}

#[test]
fn try_consume_reports_already_consumed() {
    let mut store = NonceStore::new();
    store.issue_with("w", "v".to_string(), 0).unwrap();
    assert_eq!(store.try_consume_at("w", "v", 1), Ok(()));
    assert_eq!(store.try_consume_at("w", "v", 1), Err(ChallengeError::AlreadyConsumed));
    assert_eq!(store.try_consume_at("w", "v", 2), Err(ChallengeError::AlreadyConsumed));
    assert_eq!(store.try_consume_at("w", "x", 2), Err(ChallengeError::AlreadyConsumed));
    assert_eq!(store.pending("w", 2), Err(ChallengeError::AlreadyConsumed));
    assert_eq!(store.try_consume_at("w", "v", 301), Err(ChallengeError::Expired));
}

#[test]
fn consumption_before_issuance_time_is_allowed_by_the_expiry_rule() {
    let mut store = NonceStore::new();
    store.issue_with("w", "v".to_string(), 1_000).unwrap();
    assert_eq!(store.try_consume_at("w", "v", -5), Ok(()));
}

#[test]
fn reissue_supersedes_the_pending_challenge() {
    let mut store = NonceStore::new();
    store.issue_with("w", "first".to_string(), 0).unwrap();
    let second = store.issue_with("w", "second".to_string(), 10).unwrap();
    assert_eq!(store.pending("w", 10).unwrap(), second);
    assert_eq!(store.try_consume_at("w", "first", 10), Err(ChallengeError::Mismatch));
    assert_eq!(store.try_consume_at("w", "second", 10), Ok(()));
}

#[test]
fn reissue_after_consumption_gives_a_new_pending_challenge() {
    let mut store = NonceStore::new();
    store.issue_with("w", "first".to_string(), 0).unwrap();
    assert_eq!(store.try_consume_at("w", "first", 0), Ok(()));
    store.issue_with("w", "second".to_string(), 1).unwrap();
    assert_eq!(store.try_consume_at("w", "first", 1), Err(ChallengeError::Mismatch));
    assert_eq!(store.try_consume_at("w", "second", 1), Ok(()));
    assert_eq!(store.try_consume_at("w", "second", 1), Err(ChallengeError::AlreadyConsumed));
}

#[test]
fn value_in_use_is_refused_and_changes_nothing() {
    let mut store = NonceStore::new();
    let first = store.issue_with("a", "same".to_string(), 0).unwrap();
    assert_eq!(store.issue_with("b", "same".to_string(), 1), Err(IssueError::ValueInUse));
    assert_eq!(store.issue_with("a", "same".to_string(), 1), Err(IssueError::ValueInUse));
    assert_eq!(store.pending("a", 1).unwrap(), first);
    assert_eq!(store.pending("b", 1), Err(ChallengeError::NotFound));
    assert_eq!(store.try_consume_at("a", "same", 1), Ok(()));
    assert_eq!(store.issue_with("a", "same".to_string(), 2), Err(IssueError::ValueInUse));
    assert_eq!(store.pending("a", 2), Err(ChallengeError::AlreadyConsumed));
}

#[test]
fn wallets_are_told_apart_exactly() {
    let mut store = NonceStore::new();
    store.issue_with("ab", "1".to_string(), 0).unwrap();
    store.issue_with("AB", "2".to_string(), 0).unwrap();
    store.issue_with("ab ", "3".to_string(), 0).unwrap();
    store.issue_with("", "4".to_string(), 0).unwrap();
    store.issue_with("a\u{0301}b", "5".to_string(), 0).unwrap();
    assert_eq!(store.pending("ab", 0).unwrap().value, "1");
    assert_eq!(store.pending("AB", 0).unwrap().value, "2");
    assert_eq!(store.pending("ab ", 0).unwrap().value, "3");
    assert_eq!(store.pending("", 0).unwrap().value, "4");
    assert_eq!(store.pending("a\u{0301}b", 0).unwrap().value, "5");
    assert_eq!(store.pending("\u{e1}b", 0), Err(ChallengeError::NotFound));
}

#[test]
fn purge_removes_exactly_the_expired() {
    let mut store = NonceStore::new();
    store.issue_with("old", "1".to_string(), 0).unwrap();
    store.issue_with("edge", "2".to_string(), 100).unwrap();
    store.issue_with("new", "3".to_string(), 200).unwrap();
    store.issue_with("spent", "4".to_string(), 200).unwrap();
    assert_eq!(store.try_consume_at("spent", "4", 200), Ok(()));

    store.purge_expired_at(400);
    assert_eq!(store.pending("old", 0), Err(ChallengeError::NotFound));
    assert_eq!(store.pending("edge", 400).unwrap().value, "2");
    assert_eq!(store.pending("new", 400).unwrap().value, "3");
    assert_eq!(store.pending("spent", 400), Err(ChallengeError::AlreadyConsumed));
    assert_eq!(store.issue_with("x", "2".to_string(), 400), Err(IssueError::ValueInUse));

    store.purge_expired_at(501);
    assert_eq!(store.pending("edge", 100), Err(ChallengeError::NotFound));
    assert_eq!(store.pending("new", 200), Err(ChallengeError::NotFound));
    assert_eq!(store.pending("spent", 200), Err(ChallengeError::NotFound));
    assert_eq!(store.issue_with("again", "1".to_string(), 600).unwrap().value, "1");
}

#[test]
fn purge_by_the_clock_keeps_a_fresh_challenge() {
    let mut store = NonceStore::new();
    let fresh = store.issue("w").unwrap();
    store.issue_with("ancient", "v".to_string(), 0).unwrap();
    store.purge_expired();
    assert_eq!(store.pending("w", fresh.issued_at).unwrap(), fresh);
    assert_eq!(store.pending("ancient", 0), Err(ChallengeError::NotFound));
}
