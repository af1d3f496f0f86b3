//! Refresh tokens and the errors of the store that keeps them.

use vstd::prelude::*;
use crate::domain::AccountId;

verus! {

/// A long-lived OAuth refresh token.
pub struct RefreshToken {
    secret: String,
}

impl RefreshToken {
    pub closed spec fn view(&self) -> Seq<char> {
        self.secret@
    }

    pub fn new(value: String) -> (r: Self)
        ensures r@ == value@,
    {
        RefreshToken { secret: value }
    }

    /// The token itself, for the request that needs it.
    pub fn expose_secret(&self) -> (r: &str)
        ensures r@ == self@,
    {
        self.secret.as_str()
    }

    /// What a debug view shows of the token: nothing of the secret.
    pub fn redacted_debug(&self) -> (r: &'static str)
        ensures r@ == "RefreshToken([REDACTED])"@,
    {
        "RefreshToken([REDACTED])"
    }
}

impl Clone for RefreshToken {
    /// A copy that holds the same secret.
    fn clone(&self) -> (r: Self)
        ensures r@ == self@,
    {
        RefreshToken { secret: self.secret.clone() }
    }
}

/// Errors of the credential store.
#[derive(Clone, Copy, Debug, PartialEq, Eq, Structural)]
pub enum RefreshTokenStoreError {
    Unavailable,
}

impl RefreshTokenStoreError {
    pub open spec fn message(self) -> Seq<char> {
        match self {
            RefreshTokenStoreError::Unavailable => "credential store is unavailable"@,
        }
    }

    /// The message shown for this error.
    pub fn to_string(&self) -> (r: String)
        ensures r@ == self.message(),
    {
        match self {
            RefreshTokenStoreError::Unavailable => String::from_str("credential store is unavailable"),
        }
    }
}

/// Where refresh tokens and the OAuth client secret are kept.
pub trait RefreshTokenStore {
    fn save(&self, account_id: AccountId, token: RefreshToken) -> Result<(), RefreshTokenStoreError>;

    fn load(&self, account_id: AccountId) -> Result<Option<RefreshToken>, RefreshTokenStoreError>;

    fn delete(&self, account_id: AccountId) -> Result<(), RefreshTokenStoreError>;

    /// Keeps the OAuth client secret; a store that keeps none accepts it and drops it.
    fn save_oauth_secret(&self, secret: &str) -> (r: Result<(), RefreshTokenStoreError>)
        default_ensures
            r == Ok::<(), RefreshTokenStoreError>(()),
    {
        Ok(())
    }

    /// The stored OAuth client secret; a store that keeps none has none to give.
    fn load_oauth_secret(&self) -> (r: Result<Option<String>, RefreshTokenStoreError>)
        default_ensures
            r == Ok::<Option<String>, RefreshTokenStoreError>(None),
    {
        Ok(None)
    }

    /// Forgets the OAuth client secret; a store that keeps none has nothing to forget.
    fn delete_oauth_secret(&self) -> (r: Result<(), RefreshTokenStoreError>)
        default_ensures
            r == Ok::<(), RefreshTokenStoreError>(()),
    {
        Ok(())
    }
}

} // verus!
