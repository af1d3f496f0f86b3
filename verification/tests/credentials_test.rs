use gdom::credentials::{RefreshToken, RefreshTokenStore, RefreshTokenStoreError};
use gdom::domain::AccountId;
use gdom::domain::AccessToken;

#[test]
fn token_and_store_errors_redact_secrets() {
    let secret = "do-not-print-this-refresh-token";

    let token_debug = RefreshToken::new(secret.to_owned()).redacted_debug().to_string();
    let error_debug = format!("{:?}", RefreshTokenStoreError::Unavailable);
    let error_display = RefreshTokenStoreError::Unavailable.to_string();

    assert!(!token_debug.contains(secret));
    assert!(!error_debug.contains(secret));
    assert!(!error_display.contains(secret));
}

#[test]
fn tokens_expose_their_secret_only_on_request() {
    let token = RefreshToken::new("refresh-1".to_owned());
    assert_eq!(token.expose_secret(), "refresh-1");
    assert_eq!(token.redacted_debug(), "RefreshToken([REDACTED])");
    let access = AccessToken::new("access-1".to_owned());
    assert_eq!(access.expose_secret(), "access-1");
    assert_eq!(access.redacted_debug(), "AccessToken([REDACTED])");
    assert_eq!(RefreshTokenStoreError::Unavailable.to_string(), "credential store is unavailable");
}

struct TokensOnly;

impl RefreshTokenStore for TokensOnly {
    fn save(&self, _account_id: AccountId, _token: RefreshToken) -> Result<(), RefreshTokenStoreError> {
        Ok(())
    }

    fn load(&self, _account_id: AccountId) -> Result<Option<RefreshToken>, RefreshTokenStoreError> {
        Ok(None)
    }

    fn delete(&self, _account_id: AccountId) -> Result<(), RefreshTokenStoreError> {
        Ok(())
    }
}

#[test]
fn a_store_without_secret_support_accepts_and_returns_nothing() {
    let store = TokensOnly;
    assert_eq!(store.save_oauth_secret("s"), Ok(()));
    assert!(matches!(store.load_oauth_secret(), Ok(None)));
    assert_eq!(store.delete_oauth_secret(), Ok(()));
}

#[test]
fn a_cloned_refresh_token_keeps_its_secret() {
    let token = RefreshToken::new("1//refresh-value".to_string());
    let copy = token.clone();
    assert_eq!(copy.expose_secret(), "1//refresh-value");
    assert_eq!(copy.expose_secret(), token.expose_secret());
}
