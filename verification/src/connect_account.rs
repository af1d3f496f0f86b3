//! Connecting a Google account: the grant handed over by the OAuth flow, what the token and
//! identity services answer, the errors on the way, and the decisions the connection makes.

use vstd::prelude::*;
use crate::credentials::{RefreshToken, RefreshTokenStoreError};
use crate::domain::{AccessToken, AccountError, AccountId, GooglePermissionId};
use crate::text::{decimal, decimal_u128};

verus! {

/// The authorization code of an OAuth redirect, with what proves it belongs to this flow.
pub struct OAuthGrant {
    authorization_code: String,
    pkce_verifier: String,
    redirect_uri: String,
}

impl OAuthGrant {
    pub closed spec fn code(&self) -> Seq<char> {
        self.authorization_code@
    }

    pub closed spec fn pkce(&self) -> Seq<char> {
        self.pkce_verifier@
    }

    pub closed spec fn redirect(&self) -> Seq<char> {
        self.redirect_uri@
    }

    pub fn new(authorization_code: String, pkce_verifier: String, redirect_uri: String) -> (r: Self)
        ensures r.code() == authorization_code@, r.pkce() == pkce_verifier@, r.redirect() == redirect_uri@,
    {
        OAuthGrant { authorization_code, pkce_verifier, redirect_uri }
    }

    pub fn authorization_code(&self) -> (r: &str)
        ensures r@ == self.code(),
    {
        self.authorization_code.as_str()
    }

    pub fn pkce_verifier(&self) -> (r: &str)
        ensures r@ == self.pkce(),
    {
        self.pkce_verifier.as_str()
    }

    pub fn redirect_uri(&self) -> (r: &str)
        ensures r@ == self.redirect(),
    {
        self.redirect_uri.as_str()
    }

    /// What a debug view shows of a grant: nothing of it.
    pub fn redacted_debug(&self) -> (r: &'static str)
        ensures r@ == "OAuthGrant([REDACTED])"@,
    {
        "OAuthGrant([REDACTED])"
    }
}

/// What the token service returns for a grant.
pub struct TokenResponse {
    pub access_token: AccessToken,
    pub refresh_token: Option<RefreshToken>,
}

impl TokenResponse {
    pub fn new(access_token: AccessToken, refresh_token: Option<RefreshToken>) -> (r: Self)
        ensures r.access_token == access_token, r.refresh_token == refresh_token,
    {
        TokenResponse { access_token, refresh_token }
    }
}

/// Errors of exchanging a grant for tokens.
#[derive(Clone, Copy, Debug, PartialEq, Eq, Structural)]
pub enum TokenExchangeError {
    InvalidGrant,
    InvalidClient,
    RateLimited,
    Unavailable,
    Transport,
    InvalidResponse,
    UnexpectedStatus(u16),
}

impl TokenExchangeError {
    pub open spec fn message(self) -> Seq<char> {
        match self {
            TokenExchangeError::InvalidGrant => "token exchange rejected grant or verifier"@,
            TokenExchangeError::InvalidClient => "token exchange rejected client credentials"@,
            TokenExchangeError::RateLimited => "token exchange rate limit reached"@,
            TokenExchangeError::Unavailable => "token service is unavailable"@,
            TokenExchangeError::Transport => "token exchange network request failed"@,
            TokenExchangeError::InvalidResponse => "token service returned an invalid response"@,
            TokenExchangeError::UnexpectedStatus(status) => "token service returned unexpected status "@ + decimal(status as nat),
        }
    }

    /// The message shown for this error.
    pub fn to_string(&self) -> (r: String)
        ensures r@ == self.message(),
    {
        match self {
            TokenExchangeError::InvalidGrant => String::from_str("token exchange rejected grant or verifier"),
            TokenExchangeError::InvalidClient => String::from_str("token exchange rejected client credentials"),
            TokenExchangeError::RateLimited => String::from_str("token exchange rate limit reached"),
            TokenExchangeError::Unavailable => String::from_str("token service is unavailable"),
            TokenExchangeError::Transport => String::from_str("token exchange network request failed"),
            TokenExchangeError::InvalidResponse => String::from_str("token service returned an invalid response"),
            TokenExchangeError::UnexpectedStatus(status) =>
                String::from_str("token service returned unexpected status ").concat(decimal_u128(*status as u128).as_str()),
        }
    }
}

/// Who a token belongs to.
#[derive(Clone, Debug, PartialEq, Eq)]
pub struct AccountIdentity {
    permission_id: GooglePermissionId,
    email: String,
    display_name: String,
}

impl AccountIdentity {
    pub closed spec fn permission(&self) -> GooglePermissionId {
        self.permission_id
    }

    pub closed spec fn email_view(&self) -> Seq<char> {
        self.email@
    }

    pub closed spec fn display_name_view(&self) -> Seq<char> {
        self.display_name@
    }

    pub fn new(permission_id: GooglePermissionId, email: &str, display_name: &str) -> (r: Self)
        ensures r.permission() == permission_id, r.email_view() == email@, r.display_name_view() == display_name@,
    {
        AccountIdentity { permission_id, email: String::from_str(email), display_name: String::from_str(display_name) }
    }

    pub fn permission_id(&self) -> (r: &GooglePermissionId)
        ensures *r == self.permission(),
    {
        &self.permission_id
    }

    pub fn email(&self) -> (r: &str)
        ensures r@ == self.email_view(),
    {
        self.email.as_str()
    }

    pub fn display_name(&self) -> (r: &str)
        ensures r@ == self.display_name_view(),
    {
        self.display_name.as_str()
    }
}

/// Errors of looking up who a token belongs to.
#[derive(Clone, Copy, Debug, PartialEq, Eq, Structural)]
pub enum IdentityLookupError {
    Unauthorized,
    Forbidden,
    RateLimited,
    Unavailable,
    Transport,
    InvalidResponse,
    UnexpectedStatus(u16),
}

impl IdentityLookupError {
    pub open spec fn message(self) -> Seq<char> {
        match self {
            IdentityLookupError::Unauthorized => "identity service rejected access token"@,
            IdentityLookupError::Forbidden => "identity service denied access"@,
            IdentityLookupError::RateLimited => "identity service rate limit reached"@,
            IdentityLookupError::Unavailable => "identity service is unavailable"@,
            IdentityLookupError::Transport => "identity service request failed"@,
            IdentityLookupError::InvalidResponse => "identity service returned an invalid response"@,
            IdentityLookupError::UnexpectedStatus(status) => "identity service returned unexpected status "@ + decimal(status as nat),
        }
    }

    /// The message shown for this error.
    pub fn to_string(&self) -> (r: String)
        ensures r@ == self.message(),
    {
        match self {
            IdentityLookupError::Unauthorized => String::from_str("identity service rejected access token"),
            IdentityLookupError::Forbidden => String::from_str("identity service denied access"),
            IdentityLookupError::RateLimited => String::from_str("identity service rate limit reached"),
            IdentityLookupError::Unavailable => String::from_str("identity service is unavailable"),
            IdentityLookupError::Transport => String::from_str("identity service request failed"),
            IdentityLookupError::InvalidResponse => String::from_str("identity service returned an invalid response"),
            IdentityLookupError::UnexpectedStatus(status) =>
                String::from_str("identity service returned unexpected status ").concat(decimal_u128(*status as u128).as_str()),
        }
    }
}

/// Errors of the account store.
#[derive(Clone, Debug, PartialEq, Eq)]
pub enum AccountStorePortError {
    Storage(String),
}

impl AccountStorePortError {
    pub open spec fn message(&self) -> Seq<char> {
        match self {
            AccountStorePortError::Storage(message) => message@,
        }
    }

    /// The message shown for this error: the store's own message.
    pub fn to_string(&self) -> (r: String)
        ensures r@ == self.message(),
    {
        match self {
            AccountStorePortError::Storage(message) => message.clone(),
        }
    }
}

/// Errors of connecting an account.
#[derive(Debug)]
pub enum ConnectAccountError {
    TokenExchange(TokenExchangeError),
    IdentityLookup(IdentityLookupError),
    Account(AccountError),
    Database(AccountStorePortError),
    MissingRefreshToken,
    Keychain(RefreshTokenStoreError),
    RollbackFailed { primary_error: Box<ConnectAccountError>, rollback_error: Box<AccountStorePortError> },
}

impl ConnectAccountError {
    pub open spec fn message(&self) -> Seq<char>
        decreases self,
    {
        match self {
            ConnectAccountError::TokenExchange(e) => "failed to exchange OAuth code: "@ + e.message(),
            ConnectAccountError::IdentityLookup(e) => "failed to fetch account identity: "@ + e.message(),
            ConnectAccountError::Account(e) => "account validation failed: "@ + e.message@,
            ConnectAccountError::Database(e) => "database error while storing account: "@ + e.message(),
            ConnectAccountError::MissingRefreshToken =>
                "Google did not provide a refresh token and no existing token was found"@,
            ConnectAccountError::Keychain(e) => "keychain error while storing refresh token: "@ + e.message(),
            ConnectAccountError::RollbackFailed { primary_error, rollback_error } =>
                "account connection failed ("@ + primary_error.message() + ") and rollback also failed: "@
                    + rollback_error.message(),
        }
    }

    /// The message shown for this error.
    pub fn to_string(&self) -> (r: String)
        ensures r@ == self.message(),
        decreases self,
    {
        match self {
            ConnectAccountError::TokenExchange(e) => String::from_str("failed to exchange OAuth code: ").concat(e.to_string().as_str()),
            ConnectAccountError::IdentityLookup(e) =>
                String::from_str("failed to fetch account identity: ").concat(e.to_string().as_str()),
            ConnectAccountError::Account(e) => String::from_str("account validation failed: ").concat(e.message.as_str()),
            ConnectAccountError::Database(e) =>
                String::from_str("database error while storing account: ").concat(e.to_string().as_str()),
            ConnectAccountError::MissingRefreshToken =>
                String::from_str("Google did not provide a refresh token and no existing token was found"),
            ConnectAccountError::Keychain(e) =>
                String::from_str("keychain error while storing refresh token: ").concat(e.to_string().as_str()),
            ConnectAccountError::RollbackFailed { primary_error, rollback_error } => {
                let primary = primary_error.to_string();
                String::from_str("account connection failed (").concat(primary.as_str())
                    .concat(") and rollback also failed: ").concat(rollback_error.to_string().as_str())
            },
        }
    }
}

/// The identifier an account is stored under: the one it already had when the same
/// Google account was connected before, a fresh one otherwise.
pub fn connection_account_id(prior: Option<AccountId>, fallback: AccountId) -> (r: AccountId)
    ensures r == match prior { Some(id) => id, None => fallback },
{
    match prior {
        Some(id) => id,
        None => fallback,
    }
}

/// A connection keeps working credentials: a refresh token just received, or one already
/// stored; with neither it fails.
pub fn check_refresh_token_present(received: bool, stored: bool) -> (r: Result<(), ConnectAccountError>)
    ensures
        r is Ok <==> (received || stored),
        r is Err ==> r == Err::<(), ConnectAccountError>(ConnectAccountError::MissingRefreshToken),
{
    if received || stored {
        Ok(())
    } else {
        Err(ConnectAccountError::MissingRefreshToken)
    }
}

/// How a failed connection is undone.
#[derive(Clone, Debug, PartialEq, Eq)]
pub enum RollbackAction {
    /// A new account that still has a valid stored token stays.
    Keep,
    /// A new account without credentials is removed again.
    Remove,
    /// A reconnected account gets its previous record back.
    RestorePrevious,
}

/// Decides how to undo a connection whose credentials could not be kept.
pub fn rollback_action(had_prior_account: bool, has_valid_token: bool) -> (r: RollbackAction)
    ensures
        had_prior_account ==> r == RollbackAction::RestorePrevious,
        !had_prior_account && has_valid_token ==> r == RollbackAction::Keep,
        !had_prior_account && !has_valid_token ==> r == RollbackAction::Remove,
{
    if had_prior_account {
        RollbackAction::RestorePrevious
    } else if has_valid_token {
        RollbackAction::Keep
    } else {
        RollbackAction::Remove
    }
}

/// The error a failed connection ends in: the original failure when the rollback worked,
/// both when the rollback failed too.
pub fn connection_failure(primary: ConnectAccountError, rollback: Result<(), AccountStorePortError>) -> (r: ConnectAccountError)
    ensures
        rollback is Ok ==> r == primary,
        rollback matches Err(e) ==> r == (ConnectAccountError::RollbackFailed {
            primary_error: Box::new(primary),
            rollback_error: Box::new(e),
        }),
{
    match rollback {
        Ok(()) => primary,
        Err(e) => ConnectAccountError::RollbackFailed { primary_error: Box::new(primary), rollback_error: Box::new(e) },
    }
}

} // verus!
