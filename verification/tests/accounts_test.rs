use gdom::account_lifecycle::{check_reauth_token, check_same_identity, label_to_store, AccountLifecycleError};
use gdom::account_token_provider::{
    cached_token_is_valid, check_refresh_allowed, keeps_refreshed_token, status_after_failed_refresh, TokenProviderError,
    TokenRefreshError,
};
use gdom::connect_account::{
    check_refresh_token_present, connection_account_id, connection_failure, rollback_action, AccountIdentity,
    AccountStorePortError, ConnectAccountError, IdentityLookupError, OAuthGrant, RollbackAction, TokenExchangeError,
};
use gdom::domain::{AccountId, AuthStatus, GooglePermissionId};

#[test]
fn grants_keep_their_parts_and_hide_them_from_debug() {
    let grant = OAuthGrant::new("code".into(), "verifier".into(), "http://127.0.0.1/cb".into());
    assert_eq!(grant.authorization_code(), "code");
    assert_eq!(grant.pkce_verifier(), "verifier");
    assert_eq!(grant.redirect_uri(), "http://127.0.0.1/cb");
    assert_eq!(grant.redacted_debug(), "OAuthGrant([REDACTED])");
}

#[test]
fn identities_keep_their_parts() {
    let identity = AccountIdentity::new(GooglePermissionId::new("p"), "a@b.c", "A");
    assert_eq!(identity.permission_id().as_str(), "p");
    assert_eq!(identity.email(), "a@b.c");
    assert_eq!(identity.display_name(), "A");
}

#[test]
fn connection_keeps_the_earlier_account_id() {
    assert_eq!(connection_account_id(Some(AccountId::new(3)), AccountId::new(9)), AccountId::new(3));
    assert_eq!(connection_account_id(None, AccountId::new(9)), AccountId::new(9));
    assert!(check_refresh_token_present(false, true).is_ok());
    assert!(matches!(check_refresh_token_present(false, false), Err(ConnectAccountError::MissingRefreshToken)));
    assert_eq!(rollback_action(true, false), RollbackAction::RestorePrevious);
    assert_eq!(rollback_action(false, true), RollbackAction::Keep);
    assert_eq!(rollback_action(false, false), RollbackAction::Remove);
}

#[test]
fn a_failed_rollback_reports_both_failures() {
    let primary = ConnectAccountError::Keychain(gdom::credentials::RefreshTokenStoreError::Unavailable);
    let kept = connection_failure(primary, Ok(()));
    assert!(matches!(kept, ConnectAccountError::Keychain(_)));
    let both = connection_failure(ConnectAccountError::MissingRefreshToken, Err(AccountStorePortError::Storage("gone".into())));
    assert_eq!(
        both.to_string(),
        "account connection failed (Google did not provide a refresh token and no existing token was found) and rollback also failed: gone"
    );
}

#[test]
fn account_service_errors_describe_themselves() {
    assert_eq!(TokenExchangeError::UnexpectedStatus(418).to_string(), "token service returned unexpected status 418");
    assert_eq!(IdentityLookupError::Forbidden.to_string(), "identity service denied access");
    assert_eq!(
        TokenProviderError::Refresh(TokenRefreshError::InvalidGrant).to_string(),
        "refresh token failed: refresh token is invalid or revoked"
    );
    assert_eq!(AccountLifecycleError::AccountNotFound.to_string(), "account not found");
}

#[test]
fn refresh_is_refused_for_inactive_accounts() {
    assert_eq!(check_refresh_allowed(AuthStatus::Disconnected, true), Err(TokenProviderError::AccountDisconnected));
    assert_eq!(check_refresh_allowed(AuthStatus::Connected, true), Err(TokenProviderError::AccountRemoved));
    assert_eq!(check_refresh_allowed(AuthStatus::ReauthRequired, false), Err(TokenProviderError::ReauthRequired));
    assert!(check_refresh_allowed(AuthStatus::TokenRefreshing, false).is_ok());
    assert_eq!(status_after_failed_refresh(TokenRefreshError::InvalidGrant, AuthStatus::Connected), AuthStatus::ReauthRequired);
    assert_eq!(status_after_failed_refresh(TokenRefreshError::Transport, AuthStatus::Connected), AuthStatus::Connected);
    assert!(keeps_refreshed_token(true, true, AuthStatus::Connected));
    assert!(!keeps_refreshed_token(true, true, AuthStatus::Disconnected));
}

#[test]
fn cached_tokens_expire_five_minutes_early() {
    assert!(cached_token_is_valid(0, 300_001));
    assert!(!cached_token_is_valid(0, 300_000));
    assert!(!cached_token_is_valid(u64::MAX, u64::MAX));
}

#[test]
fn lifecycle_checks() {
    assert_eq!(label_to_store(Some("  ".into())), None);
    assert_eq!(label_to_store(Some(" Work ".into())), Some(" Work ".to_string()));
    assert_eq!(label_to_store(None), None);
    assert!(check_same_identity(&GooglePermissionId::new("a"), &GooglePermissionId::new("a")).is_ok());
    assert!(check_same_identity(&GooglePermissionId::new("a"), &GooglePermissionId::new("b")).is_err());
    assert_eq!(check_reauth_token(false, false), Err(AccountLifecycleError::MissingRefreshToken));
}
