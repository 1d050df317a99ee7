use speer_test::token::{generate, token_from_draws, TOKEN_SIZE};
use speer_test::token_type::{accepts_column_type, UserTokenStatus, UserTokenType};

#[test]
fn token_kinds_are_stored_by_name() {
    assert_eq!(UserTokenType::SESSION.to_sql_bytes(), b"SESSION".to_vec());
    assert_eq!(UserTokenType::REFRESH.to_sql_bytes(), b"REFRESH".to_vec());
    assert_eq!(UserTokenStatus::ACTIVE.to_sql_bytes(), b"ACTIVE".to_vec());
    assert_eq!(UserTokenStatus::INACTIVE.to_sql_bytes(), b"INACTIVE".to_vec());
}

#[test]
fn token_kinds_read_back() {
    assert_eq!(UserTokenType::from_sql_bytes(b"SESSION"), UserTokenType::SESSION);
    assert_eq!(UserTokenType::from_sql_bytes(b"REFRESH"), UserTokenType::REFRESH);
    assert_eq!(UserTokenType::from_sql_bytes(b"refresh"), UserTokenType::SESSION);
    assert_eq!(UserTokenType::from_sql_bytes(b""), UserTokenType::SESSION);
    assert_eq!(UserTokenStatus::from_sql_bytes(b"INACTIVE"), UserTokenStatus::INACTIVE);
    assert_eq!(UserTokenStatus::from_sql_bytes(b"ACTIVE"), UserTokenStatus::ACTIVE);
    assert_eq!(UserTokenStatus::from_sql_bytes(b"EXPIRED"), UserTokenStatus::ACTIVE);
}

#[test]
fn token_kind_round_trip() {
    for t in [UserTokenType::SESSION, UserTokenType::REFRESH] {
        assert_eq!(UserTokenType::from_sql_bytes(&t.to_sql_bytes()), t);
    }
    for s in [UserTokenStatus::ACTIVE, UserTokenStatus::INACTIVE] {
        assert_eq!(UserTokenStatus::from_sql_bytes(&s.to_sql_bytes()), s);
    }
}

#[test]
fn token_kinds_live_in_varchar_columns() {
    assert!(accepts_column_type("varchar"));
    assert!(!accepts_column_type("text"));
    assert!(!accepts_column_type("VARCHAR"));
    assert!(UserTokenType::accepts("varchar"));
    assert!(!UserTokenType::accepts("varchar2"));
    assert!(UserTokenStatus::accepts("varchar"));
    assert!(!UserTokenStatus::accepts(""));
}

#[test]
fn default_token_kind_and_status() {
    assert_eq!(UserTokenType::default(), UserTokenType::SESSION);
    assert_eq!(UserTokenStatus::default(), UserTokenStatus::ACTIVE);
}

#[test]
fn generated_tokens_are_alphanumeric() {
    let t = generate();
    assert_eq!(TOKEN_SIZE, 32);
    assert_eq!(t.chars().count(), 32);
    assert!(t.chars().all(|c| c.is_ascii_alphanumeric()));
}

#[test]
fn generated_tokens_differ() {
    let a = generate();
    let b = generate();
    assert_ne!(a, b);
}

#[test]
fn draws_spell_the_token() {
    let charset = b"abcXYZ09";
    assert_eq!(token_from_draws(charset, &vec![0, 3, 7, 7, 1]), "aX99b");
    assert_eq!(token_from_draws(charset, &vec![]), "");
    assert_eq!(token_from_draws(charset, &vec![6, 5, 4, 2]), "0ZYc");
}
