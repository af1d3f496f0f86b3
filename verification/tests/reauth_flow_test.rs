use gdom::account_lifecycle::{AccountLifecycleError, ReauthAction, ReauthEvent, ReauthFlow, ReauthStage};
use gdom::credentials::RefreshTokenStoreError;
use gdom::domain::GooglePermissionId;

fn perm(value: &str) -> GooglePermissionId {
    GooglePermissionId { value: value.to_string() }
}

fn until_identity(refresh_token_received: bool) -> ReauthFlow {
    let mut flow = ReauthFlow::new();
    assert_eq!(flow.step(ReauthEvent::Start), Some(ReauthAction::FindAccount));
    assert_eq!(flow.step(ReauthEvent::AccountFound(Some(perm("perm-1")))), Some(ReauthAction::ExchangeCode));
    assert_eq!(flow.step(ReauthEvent::CodeExchanged { refresh_token_received }), Some(ReauthAction::LookUpIdentity));
    flow
}

#[test]
fn reauthentication_saves_the_new_token_after_the_identity_matches() {
    let mut flow = until_identity(true);
    assert_eq!(flow.step(ReauthEvent::IdentityFound(perm("perm-1"))), Some(ReauthAction::SaveRefreshToken));
    assert!(flow.identity_confirmed);
    assert_eq!(flow.step(ReauthEvent::TokenSaved), Some(ReauthAction::StoreAccount));
    assert_eq!(flow.step(ReauthEvent::AccountStored), Some(ReauthAction::Finish));
    assert_eq!(flow.stage, ReauthStage::Done);
}

#[test]
fn reauthentication_with_another_account_saves_nothing() {
    let mut flow = until_identity(true);
    assert_eq!(
        flow.step(ReauthEvent::IdentityFound(perm("perm-2"))),
        Some(ReauthAction::Fail(AccountLifecycleError::IdentityMismatch { expected: perm("perm-1"), actual: perm("perm-2") }))
    );
    assert!(!flow.identity_confirmed);
    assert_eq!(flow.stage, ReauthStage::Failed);
    assert_eq!(flow.step(ReauthEvent::TokenSaved), None);
}

#[test]
fn reauthentication_without_a_new_token_needs_a_stored_one() {
    let mut flow = until_identity(false);
    assert_eq!(flow.step(ReauthEvent::IdentityFound(perm("perm-1"))), Some(ReauthAction::LoadStoredToken));
    assert_eq!(
        flow.step(ReauthEvent::StoredTokenChecked(false)),
        Some(ReauthAction::Fail(AccountLifecycleError::MissingRefreshToken))
    );
    let mut flow = until_identity(false);
    flow.step(ReauthEvent::IdentityFound(perm("perm-1")));
    assert_eq!(flow.step(ReauthEvent::StoredTokenChecked(true)), Some(ReauthAction::StoreAccount));
}

#[test]
fn reauthentication_of_a_missing_account_or_a_failing_keychain_fails() {
    let mut flow = ReauthFlow::new();
    flow.step(ReauthEvent::Start);
    assert_eq!(flow.step(ReauthEvent::AccountFound(None)), Some(ReauthAction::Fail(AccountLifecycleError::AccountNotFound)));
    let mut flow = until_identity(true);
    flow.step(ReauthEvent::IdentityFound(perm("perm-1")));
    assert_eq!(
        flow.step(ReauthEvent::KeychainFailed(RefreshTokenStoreError::Unavailable)),
        Some(ReauthAction::Fail(AccountLifecycleError::Keychain(RefreshTokenStoreError::Unavailable)))
    );
}

#[test]
fn reauthentication_ignores_events_out_of_turn() {
    let mut flow = ReauthFlow::new();
    assert_eq!(flow.step(ReauthEvent::TokenSaved), None);
    assert_eq!(flow.stage, ReauthStage::Start);
}
