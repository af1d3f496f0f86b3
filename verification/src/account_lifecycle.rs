//! Managing connected accounts: the errors of relabeling, disconnecting, re-authenticating
//! and removing an account, and the checks those actions make.

use vstd::prelude::*;
use crate::connect_account::{AccountStorePortError, IdentityLookupError, TokenExchangeError};
use crate::credentials::RefreshTokenStoreError;
use crate::domain::{AccountError, GooglePermissionId};
use crate::text::{chars_of, trim, trim_chars};

verus! {

/// Errors of the account lifecycle.
#[derive(Clone, Debug, PartialEq, Eq)]
pub enum AccountLifecycleError {
    AccountNotFound,
    IdentityMismatch { expected: GooglePermissionId, actual: GooglePermissionId },
    ActiveJobsPreventRemoval,
    MissingRefreshToken,
    TokenExchange(TokenExchangeError),
    IdentityLookup(IdentityLookupError),
    Account(AccountError),
    Database(AccountStorePortError),
    Keychain(RefreshTokenStoreError),
}

impl AccountLifecycleError {
    pub open spec fn message(&self) -> Seq<char> {
        match self {
            AccountLifecycleError::AccountNotFound => "account not found"@,
            AccountLifecycleError::IdentityMismatch { expected, actual } =>
                "reauthentication account identity mismatch: expected permission ID '"@ + expected.value@
                    + "', got '"@ + actual.value@ + "'"@,
            AccountLifecycleError::ActiveJobsPreventRemoval => "cannot remove account referenced by active migration jobs"@,
            AccountLifecycleError::MissingRefreshToken =>
                "Google did not provide a refresh token and no existing token exists"@,
            AccountLifecycleError::TokenExchange(e) => "token exchange failed: "@ + e.message(),
            AccountLifecycleError::IdentityLookup(e) => "identity lookup failed: "@ + e.message(),
            AccountLifecycleError::Account(e) => "invalid account: "@ + e.message@,
            AccountLifecycleError::Database(e) => "database error: "@ + e.message(),
            AccountLifecycleError::Keychain(e) => "keychain error: "@ + e.message(),
        }
    }

    /// The message shown for this error.
    pub fn to_string(&self) -> (r: String)
        ensures r@ == self.message(),
    {
        match self {
            AccountLifecycleError::AccountNotFound => String::from_str("account not found"),
            AccountLifecycleError::IdentityMismatch { expected, actual } =>
                String::from_str("reauthentication account identity mismatch: expected permission ID '")
                    .concat(expected.as_str()).concat("', got '").concat(actual.as_str()).concat("'"),
            AccountLifecycleError::ActiveJobsPreventRemoval =>
                String::from_str("cannot remove account referenced by active migration jobs"),
            AccountLifecycleError::MissingRefreshToken =>
                String::from_str("Google did not provide a refresh token and no existing token exists"),
            AccountLifecycleError::TokenExchange(e) => String::from_str("token exchange failed: ").concat(e.to_string().as_str()),
            AccountLifecycleError::IdentityLookup(e) => String::from_str("identity lookup failed: ").concat(e.to_string().as_str()),
            AccountLifecycleError::Account(e) => String::from_str("invalid account: ").concat(e.message.as_str()),
            AccountLifecycleError::Database(e) => String::from_str("database error: ").concat(e.to_string().as_str()),
            AccountLifecycleError::Keychain(e) => String::from_str("keychain error: ").concat(e.to_string().as_str()),
        }
    }
}

/// The label a user typed, when it is not blank; a blank or missing label clears it.
pub fn label_to_store(label: Option<String>) -> (r: Option<String>)
    ensures
        match label {
            Some(s) => if trim(s@).len() > 0 { r == Some(s) } else { r is None },
            None => r is None,
        },
{
    match label {
        Some(s) => {
            let t = trim_chars(&chars_of(s.as_str()));
            if t.len() > 0 { Some(s) } else { None }
        },
        None => None,
    }
}

/// Re-authentication must sign in as the same Google account.
pub fn check_same_identity(expected: &GooglePermissionId, actual: &GooglePermissionId) -> (r: Result<(), AccountLifecycleError>)
    ensures
        expected.value@ == actual.value@ ==> r is Ok,
        expected.value@ != actual.value@ ==> r == Err::<(), AccountLifecycleError>(
            AccountLifecycleError::IdentityMismatch { expected: *expected, actual: *actual }),
{
    if expected.value == actual.value {
        Ok(())
    } else {
        Err(AccountLifecycleError::IdentityMismatch { expected: expected.clone(), actual: actual.clone() })
    }
}

/// Re-authentication keeps working credentials: a refresh token just received, or one
/// already stored.
pub fn check_reauth_token(received: bool, stored: bool) -> (r: Result<(), AccountLifecycleError>)
    ensures
        r is Ok <==> (received || stored),
        r is Err ==> r == Err::<(), AccountLifecycleError>(AccountLifecycleError::MissingRefreshToken),
{
    if received || stored {
        Ok(())
    } else {
        Err(AccountLifecycleError::MissingRefreshToken)
    }
}

/// Where a re-authentication stands.
#[derive(Clone, Copy, Debug, PartialEq, Eq, Structural)]
pub enum ReauthStage {
    Start,
    FindingAccount,
    ExchangingCode,
    LookingUpIdentity,
    SavingToken,
    CheckingStoredToken,
    StoringAccount,
    Done,
    Failed,
}

/// What the caller does next for a re-authentication.
#[derive(Debug, PartialEq, Eq)]
pub enum ReauthAction {
    /// Load the account being re-authenticated.
    FindAccount,
    /// Exchange the authorization grant for tokens.
    ExchangeCode,
    /// Ask Google which account the new access token belongs to.
    LookUpIdentity,
    /// Save the refresh token just received.
    SaveRefreshToken,
    /// Check that a refresh token is already stored.
    LoadStoredToken,
    /// Store the refreshed profile (keeping the account's label) and mark it authenticated.
    StoreAccount,
    /// The account is re-authenticated.
    Finish,
    /// The re-authentication fails with this error.
    Fail(AccountLifecycleError),
}

/// What the caller reports back after an action.
pub enum ReauthEvent {
    Start,
    AccountFound(Option<GooglePermissionId>),
    AccountLookupFailed(AccountStorePortError),
    CodeExchanged { refresh_token_received: bool },
    ExchangeFailed(TokenExchangeError),
    IdentityFound(GooglePermissionId),
    IdentityLookupFailed(IdentityLookupError),
    TokenSaved,
    StoredTokenChecked(bool),
    KeychainFailed(RefreshTokenStoreError),
    AccountStored,
    AccountRejected(AccountError),
    StoreFailed(AccountStorePortError),
}

/// The state of a re-authentication: its stage, the permission ID the account had, whether
/// Google sent a refresh token, and whether the new sign-in was confirmed to be the same
/// account.
pub struct ReauthFlow {
    pub stage: ReauthStage,
    pub expected: Option<GooglePermissionId>,
    pub refresh_token_received: bool,
    pub identity_confirmed: bool,
}

/// A failed re-authentication.
pub open spec fn reauth_failed(flow: ReauthFlow, error: AccountLifecycleError) -> (ReauthFlow, Option<ReauthAction>) {
    (ReauthFlow { stage: ReauthStage::Failed, ..flow }, Some(ReauthAction::Fail(error)))
}

/// The next state and action of a re-authentication after `event`: the account is loaded,
/// the grant exchanged and the identity looked up, and only when the identity is the
/// account's own is a token saved (or a stored one required) and the account stored. An
/// event that does not answer the current step changes nothing and asks for nothing.
pub open spec fn reauth_next(flow: ReauthFlow, event: ReauthEvent) -> (ReauthFlow, Option<ReauthAction>) {
    match (flow.stage, event) {
        (ReauthStage::Start, ReauthEvent::Start) =>
            (ReauthFlow { stage: ReauthStage::FindingAccount, ..flow }, Some(ReauthAction::FindAccount)),
        (ReauthStage::FindingAccount, ReauthEvent::AccountFound(Some(p))) =>
            (ReauthFlow { stage: ReauthStage::ExchangingCode, expected: Some(p), ..flow }, Some(ReauthAction::ExchangeCode)),
        (ReauthStage::FindingAccount, ReauthEvent::AccountFound(None)) =>
            reauth_failed(flow, AccountLifecycleError::AccountNotFound),
        (ReauthStage::FindingAccount, ReauthEvent::AccountLookupFailed(e)) =>
            reauth_failed(flow, AccountLifecycleError::Database(e)),
        (ReauthStage::ExchangingCode, ReauthEvent::CodeExchanged { refresh_token_received }) =>
            (ReauthFlow { stage: ReauthStage::LookingUpIdentity, refresh_token_received, ..flow },
                Some(ReauthAction::LookUpIdentity)),
        (ReauthStage::ExchangingCode, ReauthEvent::ExchangeFailed(e)) =>
            reauth_failed(flow, AccountLifecycleError::TokenExchange(e)),
        (ReauthStage::LookingUpIdentity, ReauthEvent::IdentityFound(actual)) =>
            match flow.expected {
                Some(expected) => if expected.value@ == actual.value@ {
                    if flow.refresh_token_received {
                        (ReauthFlow { stage: ReauthStage::SavingToken, identity_confirmed: true, ..flow },
                            Some(ReauthAction::SaveRefreshToken))
                    } else {
                        (ReauthFlow { stage: ReauthStage::CheckingStoredToken, identity_confirmed: true, ..flow },
                            Some(ReauthAction::LoadStoredToken))
                    }
                } else {
                    reauth_failed(flow, AccountLifecycleError::IdentityMismatch { expected, actual })
                },
                None => (flow, None),
            },
        (ReauthStage::LookingUpIdentity, ReauthEvent::IdentityLookupFailed(e)) =>
            reauth_failed(flow, AccountLifecycleError::IdentityLookup(e)),
        (ReauthStage::SavingToken, ReauthEvent::TokenSaved) =>
            (ReauthFlow { stage: ReauthStage::StoringAccount, ..flow }, Some(ReauthAction::StoreAccount)),
        (ReauthStage::SavingToken, ReauthEvent::KeychainFailed(e)) =>
            reauth_failed(flow, AccountLifecycleError::Keychain(e)),
        (ReauthStage::CheckingStoredToken, ReauthEvent::StoredTokenChecked(stored)) =>
            if stored {
                (ReauthFlow { stage: ReauthStage::StoringAccount, ..flow }, Some(ReauthAction::StoreAccount))
            } else {
                reauth_failed(flow, AccountLifecycleError::MissingRefreshToken)
            },
        (ReauthStage::CheckingStoredToken, ReauthEvent::KeychainFailed(e)) =>
            reauth_failed(flow, AccountLifecycleError::Keychain(e)),
        (ReauthStage::StoringAccount, ReauthEvent::AccountStored) =>
            (ReauthFlow { stage: ReauthStage::Done, ..flow }, Some(ReauthAction::Finish)),
        (ReauthStage::StoringAccount, ReauthEvent::AccountRejected(e)) =>
            reauth_failed(flow, AccountLifecycleError::Account(e)),
        (ReauthStage::StoringAccount, ReauthEvent::StoreFailed(e)) =>
            reauth_failed(flow, AccountLifecycleError::Database(e)),
        _ => (flow, None),
    }
}

impl ReauthFlow {
    /// A re-authentication that has not started.
    pub fn new() -> (r: Self)
        ensures
            r.stage == ReauthStage::Start,
            r.expected is None,
            !r.refresh_token_received,
            !r.identity_confirmed,
    {
        ReauthFlow { stage: ReauthStage::Start, expected: None, refresh_token_received: false, identity_confirmed: false }
    }

    /// Takes the caller's report of the last action and says what to do next.
    pub fn step(&mut self, event: ReauthEvent) -> (r: Option<ReauthAction>)
        ensures (*final(self), r) == reauth_next(*old(self), event),
    {
        let ghost start = *self;
        match (self.stage, event) {
            (ReauthStage::Start, ReauthEvent::Start) => {
                self.stage = ReauthStage::FindingAccount;
                Some(ReauthAction::FindAccount)
            },
            (ReauthStage::FindingAccount, ReauthEvent::AccountFound(Some(p))) => {
                self.stage = ReauthStage::ExchangingCode;
                self.expected = Some(p);
                Some(ReauthAction::ExchangeCode)
            },
            (ReauthStage::FindingAccount, ReauthEvent::AccountFound(None)) => {
                self.stage = ReauthStage::Failed;
                Some(ReauthAction::Fail(AccountLifecycleError::AccountNotFound))
            },
            (ReauthStage::FindingAccount, ReauthEvent::AccountLookupFailed(e)) => {
                self.stage = ReauthStage::Failed;
                Some(ReauthAction::Fail(AccountLifecycleError::Database(e)))
            },
            (ReauthStage::ExchangingCode, ReauthEvent::CodeExchanged { refresh_token_received }) => {
                self.stage = ReauthStage::LookingUpIdentity;
                self.refresh_token_received = refresh_token_received;
                Some(ReauthAction::LookUpIdentity)
            },
            (ReauthStage::ExchangingCode, ReauthEvent::ExchangeFailed(e)) => {
                self.stage = ReauthStage::Failed;
                Some(ReauthAction::Fail(AccountLifecycleError::TokenExchange(e)))
            },
            (ReauthStage::LookingUpIdentity, ReauthEvent::IdentityFound(actual)) => {
                match &self.expected {
                    Some(expected) => {
                        match check_same_identity(expected, &actual) {
                            Ok(()) => {
                                self.identity_confirmed = true;
                                if self.refresh_token_received {
                                    self.stage = ReauthStage::SavingToken;
                                    Some(ReauthAction::SaveRefreshToken)
                                } else {
                                    self.stage = ReauthStage::CheckingStoredToken;
                                    Some(ReauthAction::LoadStoredToken)
                                }
                            },
                            Err(error) => {
                                self.stage = ReauthStage::Failed;
                                Some(ReauthAction::Fail(error))
                            },
                        }
                    },
                    None => None,
                }
            },
            (ReauthStage::LookingUpIdentity, ReauthEvent::IdentityLookupFailed(e)) => {
                self.stage = ReauthStage::Failed;
                Some(ReauthAction::Fail(AccountLifecycleError::IdentityLookup(e)))
            },
            (ReauthStage::SavingToken, ReauthEvent::TokenSaved) => {
                self.stage = ReauthStage::StoringAccount;
                Some(ReauthAction::StoreAccount)
            },
            (ReauthStage::SavingToken, ReauthEvent::KeychainFailed(e)) => {
                self.stage = ReauthStage::Failed;
                Some(ReauthAction::Fail(AccountLifecycleError::Keychain(e)))
            },
            (ReauthStage::CheckingStoredToken, ReauthEvent::StoredTokenChecked(stored)) => {
                if stored {
                    self.stage = ReauthStage::StoringAccount;
                    Some(ReauthAction::StoreAccount)
                } else {
                    self.stage = ReauthStage::Failed;
                    Some(ReauthAction::Fail(AccountLifecycleError::MissingRefreshToken))
                }
            },
            (ReauthStage::CheckingStoredToken, ReauthEvent::KeychainFailed(e)) => {
                self.stage = ReauthStage::Failed;
                Some(ReauthAction::Fail(AccountLifecycleError::Keychain(e)))
            },
            (ReauthStage::StoringAccount, ReauthEvent::AccountStored) => {
                self.stage = ReauthStage::Done;
                Some(ReauthAction::Finish)
            },
            (ReauthStage::StoringAccount, ReauthEvent::AccountRejected(e)) => {
                self.stage = ReauthStage::Failed;
                Some(ReauthAction::Fail(AccountLifecycleError::Account(e)))
            },
            (ReauthStage::StoringAccount, ReauthEvent::StoreFailed(e)) => {
                self.stage = ReauthStage::Failed;
                Some(ReauthAction::Fail(AccountLifecycleError::Database(e)))
            },
            _ => None,
        }
    }
}

/// A re-authentication whose stage lies past the identity check has confirmed the identity.
pub open spec fn reauth_consistent(flow: ReauthFlow) -> bool {
    (flow.stage == ReauthStage::SavingToken || flow.stage == ReauthStage::CheckingStoredToken
        || flow.stage == ReauthStage::StoringAccount || flow.stage == ReauthStage::Done)
        ==> flow.identity_confirmed
}

/// No credential or account is written for a sign-in as another account: every step keeps
/// the flow consistent, and an action that saves a refresh token, reads a stored one or
/// stores the account comes only once the new sign-in was confirmed to be the account's
/// own; a mismatched identity ends the flow with `IdentityMismatch`.
pub proof fn lemma_reauth_writes_only_after_identity_check(flow: ReauthFlow, event: ReauthEvent)
    requires reauth_consistent(flow),
    ensures
        reauth_consistent(reauth_next(flow, event).0),
        (reauth_next(flow, event).1 matches Some(a) && (a is SaveRefreshToken || a is LoadStoredToken || a is StoreAccount))
            ==> reauth_next(flow, event).0.identity_confirmed,
        (flow.stage == ReauthStage::LookingUpIdentity && event is IdentityFound && flow.expected is Some
            && flow.expected->0.value@ != event->IdentityFound_0.value@)
            ==> reauth_next(flow, event) == (ReauthFlow { stage: ReauthStage::Failed, ..flow },
                Some(ReauthAction::Fail(AccountLifecycleError::IdentityMismatch {
                    expected: flow.expected->0, actual: event->IdentityFound_0 }))),
{
}

} // verus!
