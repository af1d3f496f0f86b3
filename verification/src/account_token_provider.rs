//! Access tokens on demand: when a cached token may still be used, which account states
//! refuse a refresh, and what a failed refresh does to the account's status.

use vstd::prelude::*;
use crate::connect_account::AccountStorePortError;
use crate::credentials::RefreshTokenStoreError;
use crate::domain::{AccessToken, AccountId, AuthStatus};
use crate::text::{decimal, decimal_u128};

verus! {

/// A cached token is not used in the last five minutes before it expires.
pub const PRE_EXPIRY_BUFFER_MILLIS: u64 = 300000;

/// Errors of refreshing an access token.
#[derive(Clone, Copy, Debug, PartialEq, Eq, Structural)]
pub enum TokenRefreshError {
    InvalidGrant,
    InvalidClient,
    RateLimited,
    Unavailable,
    Transport,
    InvalidResponse,
    UnexpectedStatus(u16),
}

impl TokenRefreshError {
    pub open spec fn message(self) -> Seq<char> {
        match self {
            TokenRefreshError::InvalidGrant => "refresh token is invalid or revoked"@,
            TokenRefreshError::InvalidClient => "invalid OAuth client credentials"@,
            TokenRefreshError::RateLimited => "rate limit exceeded during token refresh"@,
            TokenRefreshError::Unavailable => "token service is unavailable"@,
            TokenRefreshError::Transport => "network failure during token refresh"@,
            TokenRefreshError::InvalidResponse => "invalid response from token service"@,
            TokenRefreshError::UnexpectedStatus(status) => "unexpected status: "@ + decimal(status as nat),
        }
    }

    /// The message shown for this error.
    pub fn to_string(&self) -> (r: String)
        ensures r@ == self.message(),
    {
        match self {
            TokenRefreshError::InvalidGrant => String::from_str("refresh token is invalid or revoked"),
            TokenRefreshError::InvalidClient => String::from_str("invalid OAuth client credentials"),
            TokenRefreshError::RateLimited => String::from_str("rate limit exceeded during token refresh"),
            TokenRefreshError::Unavailable => String::from_str("token service is unavailable"),
            TokenRefreshError::Transport => String::from_str("network failure during token refresh"),
            TokenRefreshError::InvalidResponse => String::from_str("invalid response from token service"),
            TokenRefreshError::UnexpectedStatus(status) =>
                String::from_str("unexpected status: ").concat(decimal_u128(*status as u128).as_str()),
        }
    }
}

/// Errors of handing out an access token.
#[derive(Clone, Debug, PartialEq, Eq)]
pub enum TokenProviderError {
    AccountNotFound,
    AccountDisconnected,
    AccountRemoved,
    ReauthRequired,
    MissingRefreshToken,
    Keychain(RefreshTokenStoreError),
    Database(AccountStorePortError),
    Refresh(TokenRefreshError),
}

impl TokenProviderError {
    pub open spec fn message(&self) -> Seq<char> {
        match self {
            TokenProviderError::AccountNotFound => "account not found"@,
            TokenProviderError::AccountDisconnected => "account is disconnected and requires re-authentication"@,
            TokenProviderError::AccountRemoved => "account has been removed"@,
            TokenProviderError::ReauthRequired => "account requires re-authentication"@,
            TokenProviderError::MissingRefreshToken => "no refresh token found for account"@,
            TokenProviderError::Keychain(e) => "keychain error: "@ + e.message(),
            TokenProviderError::Database(e) => "database error: "@ + e.message(),
            TokenProviderError::Refresh(e) => "refresh token failed: "@ + e.message(),
        }
    }

    /// The message shown for this error.
    pub fn to_string(&self) -> (r: String)
        ensures r@ == self.message(),
    {
        match self {
            TokenProviderError::AccountNotFound => String::from_str("account not found"),
            TokenProviderError::AccountDisconnected => String::from_str("account is disconnected and requires re-authentication"),
            TokenProviderError::AccountRemoved => String::from_str("account has been removed"),
            TokenProviderError::ReauthRequired => String::from_str("account requires re-authentication"),
            TokenProviderError::MissingRefreshToken => String::from_str("no refresh token found for account"),
            TokenProviderError::Keychain(e) => String::from_str("keychain error: ").concat(e.to_string().as_str()),
            TokenProviderError::Database(e) => String::from_str("database error: ").concat(e.to_string().as_str()),
            TokenProviderError::Refresh(e) => String::from_str("refresh token failed: ").concat(e.to_string().as_str()),
        }
    }
}

/// Whether a cached token expiring at `expires_at` (milliseconds on the process clock) may
/// still be handed out at `now`: only while more than the buffer is left.
pub open spec fn still_valid(now: u64, expires_at: u64) -> bool {
    now + PRE_EXPIRY_BUFFER_MILLIS < expires_at
}

/// Decides whether a cached token may still be used.
pub fn cached_token_is_valid(now: u64, expires_at: u64) -> (r: bool)
    ensures r == still_valid(now, expires_at),
{
    (now as u128) + (PRE_EXPIRY_BUFFER_MILLIS as u128) < (expires_at as u128)
}

/// Which accounts may refresh a token: not a disconnected account, not a removed one,
/// not one that must sign in again; checked in that order.
pub open spec fn refresh_gate(status: AuthStatus, removed: bool) -> Result<(), TokenProviderError> {
    if status == AuthStatus::Disconnected {
        Err(TokenProviderError::AccountDisconnected)
    } else if status == AuthStatus::RemovalPending || removed {
        Err(TokenProviderError::AccountRemoved)
    } else if status == AuthStatus::ReauthRequired {
        Err(TokenProviderError::ReauthRequired)
    } else {
        Ok(())
    }
}

/// Checks whether an account in `status` (and `removed` when it has a removal time) may
/// refresh its token.
pub fn check_refresh_allowed(status: AuthStatus, removed: bool) -> (r: Result<(), TokenProviderError>)
    ensures r == refresh_gate(status, removed),
{
    if status == AuthStatus::Disconnected {
        return Err(TokenProviderError::AccountDisconnected);
    }
    if status == AuthStatus::RemovalPending || removed {
        return Err(TokenProviderError::AccountRemoved);
    }
    if status == AuthStatus::ReauthRequired {
        return Err(TokenProviderError::ReauthRequired);
    }
    Ok(())
}

/// The status an account returns to after a failed refresh: a rejected refresh token
/// means the user must sign in again; any other failure restores the previous status.
pub fn status_after_failed_refresh(err: TokenRefreshError, previous: AuthStatus) -> (r: AuthStatus)
    ensures
        err == TokenRefreshError::InvalidGrant ==> r == AuthStatus::ReauthRequired,
        err != TokenRefreshError::InvalidGrant ==> r == previous,
{
    match err {
        TokenRefreshError::InvalidGrant => AuthStatus::ReauthRequired,
        _ => previous,
    }
}

/// A refreshed token is cached only while its account is still active and connected.
pub fn keeps_refreshed_token(found: bool, active: bool, status: AuthStatus) -> (r: bool)
    ensures r == (found && active && status != AuthStatus::Disconnected),
{
    found && active && status != AuthStatus::Disconnected
}

/// No token leaves an account that must not refresh: whatever the cache holds, a refresh
/// is refused for a disconnected, removed or re-authentication-bound account, and allowed
/// for a connected one that is not removed.
pub proof fn lemma_refresh_gate_refuses_inactive(status: AuthStatus, removed: bool)
    ensures
        refresh_gate(status, removed) is Ok <==> (status == AuthStatus::Connected || status == AuthStatus::TokenRefreshing) && !removed,
{
}

} // verus!

verus! {

/// A cached access token and when it expires, in milliseconds on the process clock.
pub struct CachedToken {
    pub access_token: AccessToken,
    pub expires_at: u64,
}

impl Clone for CachedToken {
    fn clone(&self) -> (r: Self)
        ensures r == *self,
    {
        CachedToken { access_token: self.access_token.clone(), expires_at: self.expires_at }
    }
}

/// Access tokens cached per account; a later entry for an account replaces an earlier one.
pub struct TokenCache {
    entries: Vec<(AccountId, CachedToken)>,
}

/// The token a cache hands out for `account` at `now`: the cached one while it is still
/// valid, none otherwise.
pub open spec fn valid_token(cache: Map<AccountId, CachedToken>, account: AccountId, now: u64) -> Option<AccessToken> {
    if cache.dom().contains(account) && still_valid(now, cache[account].expires_at) {
        Some(cache[account].access_token)
    } else {
        None
    }
}

/// The cache contents described by `entries`, the last entry of an account winning.
pub open spec fn cache_map(entries: Seq<(AccountId, CachedToken)>) -> Map<AccountId, CachedToken>
    decreases entries.len(),
{
    if entries.len() == 0 {
        Map::empty()
    } else {
        cache_map(entries.drop_last()).insert(entries.last().0, entries.last().1)
    }
}

proof fn lemma_cache_map_tail(entries: Seq<(AccountId, CachedToken)>, i: int, account: AccountId)
    requires
        0 <= i <= entries.len(),
        forall|k: int| i <= k < entries.len() ==> (#[trigger] entries[k]).0 != account,
    ensures
        cache_map(entries).dom().contains(account) == cache_map(entries.take(i)).dom().contains(account),
        cache_map(entries).dom().contains(account) ==> cache_map(entries)[account] == cache_map(entries.take(i))[account],
    decreases entries.len() - i,
{
    if i < entries.len() {
        let shorter = entries.drop_last();
        assert(shorter.take(i) =~= entries.take(i));
        lemma_cache_map_tail(shorter, i, account);
    } else {
        assert(entries.take(i) =~= entries);
    }
}

impl TokenCache {
    pub closed spec fn view(&self) -> Map<AccountId, CachedToken> {
        cache_map(self.entries@)
    }

    /// An empty cache.
    pub fn new() -> (r: Self)
        ensures r@ == Map::<AccountId, CachedToken>::empty(),
    {
        TokenCache { entries: Vec::new() }
    }

    /// The cached token of `account`, if there is one that may still be used at `now`.
    pub fn get_valid(&self, account: AccountId, now: u64) -> (r: Option<AccessToken>)
        ensures r == valid_token(self@, account, now),
    {
        let mut i: usize = self.entries.len();
        while i > 0
            invariant
                i <= self.entries@.len(),
                forall|k: int| i <= k < self.entries@.len() ==> (#[trigger] self.entries@[k]).0 != account,
            decreases i,
        {
            let entry = &self.entries[i - 1];
            if entry.0.0 == account.0 {
                proof {
                    let all = self.entries@;
                    lemma_cache_map_tail(all, i as int, account);
                    assert(all.take(i as int).drop_last() =~= all.take(i - 1));
                    assert(all.take(i as int).last() == all[i - 1]);
                }
                if cached_token_is_valid(now, entry.1.expires_at) {
                    return Some(entry.1.access_token.clone());
                }
                return None;
            }
            i -= 1;
        }
        proof {
            lemma_cache_map_tail(self.entries@, 0, account);
            assert(self.entries@.take(0) =~= Seq::<(AccountId, CachedToken)>::empty());
        }
        None
    }

    /// Caches `token` for `account`, replacing what was cached for it.
    pub fn insert(&mut self, account: AccountId, token: CachedToken)
        ensures final(self)@ == old(self)@.insert(account, token),
    {
        self.remove(account);
        let ghost before = self.entries@;
        self.entries.push((account, token));
        assert(self.entries@.drop_last() =~= before);
    }

    /// Forgets the token of `account`.
    pub fn remove(&mut self, account: AccountId)
        ensures final(self)@ == old(self)@.remove(account),
    {
        let ghost before = self.entries@;
        let mut kept: Vec<(AccountId, CachedToken)> = Vec::new();
        let mut i: usize = 0;
        while i < self.entries.len()
            invariant
                i <= before.len(),
                self.entries@ == before,
                cache_map(kept@) == cache_map(before.take(i as int)).remove(account),
            decreases before.len() - i,
        {
            assert(before.take(i + 1).drop_last() =~= before.take(i as int));
            let entry = &self.entries[i];
            if entry.0.0 != account.0 {
                let ghost k0 = kept@;
                kept.push((entry.0, entry.1.clone()));
                assert(kept@.drop_last() =~= k0);
                assert(cache_map(kept@) == cache_map(k0).insert(entry.0, entry.1));
                assert(cache_map(before.take(i + 1)) == cache_map(before.take(i as int)).insert(entry.0, entry.1));
                assert(cache_map(kept@) =~= cache_map(before.take(i + 1)).remove(account));
            } else {
                assert(cache_map(kept@) =~= cache_map(before.take(i + 1)).remove(account));
            }
            i += 1;
        }
        assert(before.take(before.len() as int) =~= before);
        self.entries = kept;
    }
}

/// A token read back from the cache is the one last cached for that account, handed out
/// exactly while more than five minutes of it remain; caching or forgetting one account's
/// token leaves every other account's answer as it was, and a forgotten token is never
/// handed out.
pub proof fn lemma_cache_read_after_write(
    cache: Map<AccountId, CachedToken>,
    account: AccountId,
    token: CachedToken,
    other: AccountId,
    now: u64,
)
    requires other != account,
    ensures
        valid_token(cache.insert(account, token), account, now)
            == (if still_valid(now, token.expires_at) { Some(token.access_token) } else { None }),
        valid_token(cache.insert(account, token), other, now) == valid_token(cache, other, now),
        valid_token(cache.remove(account), account, now) is None,
        valid_token(cache.remove(account), other, now) == valid_token(cache, other, now),
{
}

} // verus!
