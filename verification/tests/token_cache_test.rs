use gdom::account_token_provider::{CachedToken, TokenCache};
use gdom::domain::{AccessToken, AccountId};

fn cached(secret: &str, expires_at: u64) -> CachedToken {
    CachedToken { access_token: AccessToken::new(secret.to_string()), expires_at }
}

#[test]
fn a_cached_token_is_reused_until_five_minutes_before_expiry() {
    let mut cache = TokenCache::new();
    let account = AccountId::new(1);
    assert!(cache.get_valid(account, 0).is_none());
    cache.insert(account, cached("t1", 3_600_000));
    assert_eq!(cache.get_valid(account, 0).map(|t| t.expose_secret().to_string()), Some("t1".to_string()));
    assert!(cache.get_valid(account, 3_300_000).is_none());
    assert!(cache.get_valid(account, 3_299_999).is_some());
}

#[test]
fn a_new_token_replaces_the_old_one_and_removal_forgets_it() {
    let mut cache = TokenCache::new();
    let first = AccountId::new(1);
    let second = AccountId::new(2);
    cache.insert(first, cached("old", 10_000_000));
    cache.insert(second, cached("other", 10_000_000));
    cache.insert(first, cached("new", 10_000_000));
    assert_eq!(cache.get_valid(first, 0).unwrap().expose_secret(), "new");
    cache.remove(first);
    assert!(cache.get_valid(first, 0).is_none());
    assert_eq!(cache.get_valid(second, 0).unwrap().expose_secret(), "other");
}
