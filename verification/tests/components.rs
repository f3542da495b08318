use token_ledger::access::{AccessController, PauseSwitch};
use token_ledger::allowance::{Allowance, AllowanceRegistry, Delegation};
use token_ledger::error::TokenError;
use token_ledger::identity::Identity;
use token_ledger::keyed_map::{Key, KeyedMap};
use token_ledger::ledger::LedgerStore;
use token_ledger::rate_limit::{RateLimitRecord, RateLimiter, WINDOW};

fn who(tag: u8) -> Identity {
    Identity::new(vec![0x10, tag])
}

#[test]
fn identity_compares_and_copies_by_bytes() {
    let a = Identity::new(vec![1, 2, 3]);
    let b = Identity::new(vec![1, 2, 3]);
    let c = Identity::new(vec![1, 2]);
    let d = Identity::new(vec![1, 2, 4]);
    assert!(a.same(&b));
    assert!(!a.same(&c));
    assert!(!c.same(&a));
    assert!(!a.same(&d));
    assert!(a.clone().same(&a));
    assert_eq!(a.clone().as_bytes(), &vec![1u8, 2, 3]);
    assert_eq!(a.as_bytes(), &vec![1u8, 2, 3]);
    assert!(Identity::new(vec![]).same(&Identity::new(Vec::new())));
    assert!(a.matches(&b));
    assert!(a.replica().same(&b));
}

#[test]
fn delegation_matches_on_both_identities() {
    let pair = Delegation { owner: who(1), spender: who(2) };
    assert!(pair.matches(&Delegation { owner: who(1), spender: who(2) }));
    assert!(!pair.matches(&Delegation { owner: who(2), spender: who(1) }));
    assert!(!pair.matches(&Delegation { owner: who(1), spender: who(3) }));
    assert!(!pair.matches(&Delegation { owner: who(3), spender: who(2) }));
    assert!(pair.replica().matches(&pair));
}

#[test]
fn keyed_map_inserts_and_overwrites() {
    let mut m: KeyedMap<Identity, u64> = KeyedMap::new();
    assert_eq!(m.get(&who(1)), None);
    m.insert(&who(1), 10);
    m.insert(&who(2), 20);
    assert_eq!(m.get(&who(1)), Some(&10));
    assert_eq!(m.get(&who(2)), Some(&20));
    m.insert(&who(1), 11);
    assert_eq!(m.get(&who(1)), Some(&11));
    assert_eq!(m.get(&who(2)), Some(&20));
    assert_eq!(m.get(&who(3)), None);
    let mut names: KeyedMap<String, u8> = KeyedMap::new();
    names.insert(&"ann".to_string(), 1);
    names.insert(&"bob".to_string(), 2);
    names.insert(&"ann".to_string(), 3);
    assert_eq!(names.get(&"ann".to_string()), Some(&3));
    assert_eq!(names.get(&"bob".to_string()), Some(&2));
    assert_eq!(names.get(&"an".to_string()), None);
}

#[test]
fn ledger_store_credits_and_moves() {
    let mut store = LedgerStore::new();
    assert_eq!(store.total_supply(), 0);
    assert_eq!(store.balance_of(&who(1)), 0);
    store.credit(&who(1), 70);
    store.credit(&who(1), 5);
    store.credit(&who(2), 25);
    assert_eq!(store.balance_of(&who(1)), 75);
    assert_eq!(store.balance_of(&who(2)), 25);
    assert_eq!(store.total_supply(), 100);
    assert_eq!(store.move_funds(&who(1), &who(3), 76), Err(TokenError::InsufficientBalance));
    assert_eq!(store.balance_of(&who(1)), 75);
    assert_eq!(store.balance_of(&who(3)), 0);
    assert_eq!(store.move_funds(&who(1), &who(3), 75), Ok(()));
    assert_eq!(store.balance_of(&who(1)), 0);
    assert_eq!(store.balance_of(&who(3)), 75);
    assert_eq!(store.move_funds(&who(3), &who(3), 75), Ok(()));
    assert_eq!(store.balance_of(&who(3)), 75);
    assert_eq!(store.move_funds(&who(4), &who(3), 0), Ok(()));
    assert_eq!(store.move_funds(&who(4), &who(3), 1), Err(TokenError::InsufficientBalance));
    assert_eq!(store.total_supply(), 100);
}

#[test]
fn ledger_store_holds_the_largest_supply() {
    let mut store = LedgerStore::new();
    store.credit(&who(1), u64::MAX - 1);
    store.credit(&who(2), 1);
    assert_eq!(store.total_supply(), u64::MAX);
    assert_eq!(store.move_funds(&who(1), &who(2), u64::MAX - 1), Ok(()));
    assert_eq!(store.balance_of(&who(2)), u64::MAX);
    assert_eq!(store.balance_of(&who(1)), 0);
}

#[test]
fn rate_limiter_counts_within_the_window() {
    let mut limiter = RateLimiter::new();
    assert_eq!(limiter.check_limit(&who(1), 0), Ok(()));
    for i in 0..100u64 {
        assert_eq!(limiter.check_limit(&who(1), 1_000 + i), Ok(()));
        limiter.record_transaction(&who(1), 1_000 + i);
    }
    assert_eq!(limiter.check_limit(&who(1), 1_099), Err(TokenError::RateLimitExceeded));
    assert_eq!(limiter.check_limit(&who(1), 1_099 + WINDOW - 1), Err(TokenError::RateLimitExceeded));
    assert_eq!(limiter.check_limit(&who(1), 1_099 + WINDOW), Ok(()));
    // a clock that reads earlier than the last transaction is within the window
    assert_eq!(limiter.check_limit(&who(1), 5), Err(TokenError::RateLimitExceeded));
    assert_eq!(limiter.check_limit(&who(2), 1_099), Ok(()));
    limiter.record_transaction(&who(1), 1_099 + WINDOW);
    for i in 1..100u64 {
        assert_eq!(limiter.check_limit(&who(1), 1_099 + WINDOW + i), Ok(()));
        limiter.record_transaction(&who(1), 1_099 + WINDOW + i);
    }
    assert_eq!(limiter.check_limit(&who(1), 1_099 + WINDOW + 100), Err(TokenError::RateLimitExceeded));
}

#[test]
fn rate_limit_record_is_plain_data() {
    let r = RateLimitRecord { count: 3, last_transaction_time: 9 };
    assert_eq!(r, RateLimitRecord { count: 3, last_transaction_time: 9 });
    assert_ne!(r, RateLimitRecord { count: 4, last_transaction_time: 9 });
    assert_eq!(WINDOW, 3_600_000_000_000);
}

#[test]
fn allowance_registry_approves_checks_and_consumes() {
    let mut registry = AllowanceRegistry::new();
    let (o, s) = (who(1), who(2));
    assert_eq!(registry.query(&o, &s, 0), 0);
    assert_eq!(registry.check(&o, &s, 0, 0), Err(TokenError::InsufficientAllowance));
    assert_eq!(registry.consume(&o, &s, 0, 0), Err(TokenError::InsufficientAllowance));
    registry.approve(&o, &s, 100, 50, 1_000);
    assert_eq!(registry.query(&o, &s, 1_050), 100);
    assert_eq!(registry.query(&o, &s, 1_051), 0);
    assert_eq!(registry.query(&s, &o, 1_000), 0);
    assert_eq!(registry.check(&o, &s, 100, 1_050), Ok(()));
    assert_eq!(registry.check(&o, &s, 101, 1_050), Err(TokenError::InsufficientAllowance));
    assert_eq!(registry.check(&o, &s, 101, 1_051), Err(TokenError::ExpiredAllowance));
    assert_eq!(registry.query(&o, &s, 1_050), 100);
    assert_eq!(registry.consume(&o, &s, 60, 1_050), Ok(()));
    assert_eq!(registry.query(&o, &s, 1_050), 40);
    assert_eq!(registry.consume(&o, &s, 41, 1_050), Err(TokenError::InsufficientAllowance));
    assert_eq!(registry.consume(&o, &s, 40, 1_051), Err(TokenError::ExpiredAllowance));
    assert_eq!(registry.consume(&o, &s, 40, 1_050), Ok(()));
    assert_eq!(registry.query(&o, &s, 1_050), 0);
    // the spent entry stays: what is missing now is the amount, not the grant
    assert_eq!(registry.consume(&o, &s, 0, 1_050), Ok(()));
    assert_eq!(registry.consume(&o, &s, 0, 1_051), Err(TokenError::ExpiredAllowance));
    // an expired entry stays until it is overwritten
    registry.approve(&o, &s, 5, 0, 2_000);
    assert_eq!(registry.query(&o, &s, 2_000), 5);
    assert_eq!(registry.query(&o, &s, 2_001), 0);
    registry.approve(&o, &s, 8, u64::MAX, 1);
    assert_eq!(registry.query(&o, &s, u64::MAX), 8);
    let grant = Allowance { amount: 8, expires_at: u64::MAX };
    assert_eq!(grant, Allowance { amount: 8, expires_at: u64::MAX });
}

#[test]
fn access_controller_knows_owner_and_minters() {
    let mut access = AccessController::new(&who(1));
    assert_eq!(access.require_owner(&who(1)), Ok(()));
    assert_eq!(access.require_owner(&who(2)), Err(TokenError::Unauthorized));
    assert!(access.is_minter(&who(1)));
    assert!(!access.is_minter(&who(2)));
    assert_eq!(access.add_minter(&who(2), &who(2)), Err(TokenError::Unauthorized));
    assert!(!access.is_minter(&who(2)));
    assert_eq!(access.add_minter(&who(1), &who(2)), Ok(()));
    assert_eq!(access.add_minter(&who(1), &who(2)), Ok(()));
    assert!(access.is_minter(&who(2)));
    assert!(access.is_minter(&who(1)));
    assert_eq!(access.require_owner(&who(2)), Err(TokenError::Unauthorized));
}

#[test]
fn pause_switch_obeys_only_the_owner() {
    let access = AccessController::new(&who(1));
    let mut switch = PauseSwitch::new();
    assert!(!switch.is_paused());
    assert_eq!(switch.pause(&access, &who(2)), Err(TokenError::Unauthorized));
    assert!(!switch.is_paused());
    assert_eq!(switch.pause(&access, &who(1)), Ok(()));
    assert!(switch.is_paused());
    assert_eq!(switch.pause(&access, &who(1)), Ok(()));
    assert!(switch.is_paused());
    assert_eq!(switch.unpause(&access, &who(2)), Err(TokenError::Unauthorized));
    assert!(switch.is_paused());
    assert_eq!(switch.unpause(&access, &who(1)), Ok(()));
    assert!(!switch.is_paused());
    assert_eq!(switch.unpause(&access, &who(1)), Ok(()));
    assert!(!switch.is_paused());
}
