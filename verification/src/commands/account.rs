//! Account commands: reading the account identifier the interface passes.

use vstd::prelude::*;
use crate::commands::error::CommandError;
use crate::domain::AccountId;
use crate::text::{chars_of, parse_u128, parse_u128_spec, str_eq, string_of, trim, trim_chars};

verus! {

/// Reads an account identifier exactly as given; a malformed one names no account.
pub fn parse_account_id(id_str: &str) -> (r: Result<AccountId, CommandError>)
    ensures
        match parse_u128_spec(id_str@) {
            Some(v) => r == Ok::<AccountId, CommandError>(AccountId(v)),
            None => (r matches Err(CommandError::AccountNotFound(m)) && m@ == "invalid account id format: "@ + id_str@),
        },
{
    match parse_u128(&chars_of(id_str)) {
        Some(v) => Ok(AccountId::new(v)),
        None => Err(CommandError::AccountNotFound(String::from_str("invalid account id format: ").concat(id_str))),
    }
}

} // verus!

verus! {

/// The answer while an account connection holds the authentication lock.
pub fn configuration_busy_error() -> (r: CommandError)
    ensures r matches CommandError::OAuth(m)
        && m@ == "Cannot change OAuth configuration while an account connection is in progress"@,
{
    CommandError::OAuth(String::from_str("Cannot change OAuth configuration while an account connection is in progress"))
}

/// The OAuth client identifier to store: the input without surrounding whitespace, which
/// must not be empty.
pub fn configured_client_id(input: &str) -> (r: Result<String, CommandError>)
    ensures
        trim(input@).len() > 0 ==> (r matches Ok(id) && id@ == trim(input@)),
        trim(input@).len() == 0 ==> (r matches Err(CommandError::NotConfigured(m)) && m@ == "OAuth client ID must not be empty"@),
{
    let t = trim_chars(&chars_of(input));
    if t.len() == 0 {
        return Err(CommandError::NotConfigured(String::from_str("OAuth client ID must not be empty")));
    }
    Ok(string_of(&t))
}

/// While accounts are connected, the client identifier cannot change: they were authorised
/// for the current client.
pub fn check_client_id_change(accounts_exist: bool, current: &Option<String>, next: &str) -> (r: Result<(), CommandError>)
    ensures
        (accounts_exist && (current matches Some(c) && c@ != next@)) ==> (r matches Err(CommandError::OAuth(m))
            && m@ == "Cannot change OAuth client ID while connected accounts exist. Disconnect all accounts first."@),
        !(accounts_exist && (current matches Some(c) && c@ != next@)) ==> r is Ok,
{
    if accounts_exist {
        match current {
            Some(c) => {
                if !str_eq(c.as_str(), next) {
                    return Err(CommandError::OAuth(String::from_str(
                        "Cannot change OAuth client ID while connected accounts exist. Disconnect all accounts first.",
                    )));
                }
            },
            None => {},
        }
    }
    Ok(())
}

/// The client secret to store: the input without surrounding whitespace, none when blank
/// or missing.
pub fn configured_client_secret(secret: &Option<String>) -> (r: Option<String>)
    ensures
        match secret {
            Some(s) => if trim(s@).len() > 0 { r matches Some(t) && t@ == trim(s@) } else { r is None },
            None => r is None,
        },
{
    match secret {
        Some(s) => {
            let t = trim_chars(&chars_of(s.as_str()));
            if t.len() > 0 { Some(string_of(&t)) } else { None }
        },
        None => None,
    }
}

/// The longest attempt identifier accepted, in bytes.
pub const MAX_ATTEMPT_ID_LENGTH: usize = 128;

/// An attempt identifier is between one and the maximum number of bytes long.
pub fn check_attempt_id(attempt_id: &str) -> (r: Result<(), CommandError>)
    ensures
        (attempt_id@.len() > 0 && attempt_id.len() <= MAX_ATTEMPT_ID_LENGTH) ==> r is Ok,
        !(attempt_id@.len() > 0 && attempt_id.len() <= MAX_ATTEMPT_ID_LENGTH) ==>
            (r matches Err(CommandError::OAuth(m)) && m@ == "Invalid account connection attempt ID"@),
{
    if attempt_id.is_empty() || attempt_id.len() > MAX_ATTEMPT_ID_LENGTH {
        return Err(CommandError::OAuth(String::from_str("Invalid account connection attempt ID")));
    }
    Ok(())
}

/// The one account connection the interface may have pending: its attempt identifier,
/// whether its reservation of the authentication lock is still waiting to be taken, and
/// whether it was cancelled.
#[derive(Clone, Debug, PartialEq, Eq)]
pub struct PendingConnection {
    pub attempt_id: String,
    pub reserved: bool,
    pub cancelled: bool,
}

/// The registry of the pending account connection.
#[derive(Clone, Debug, PartialEq, Eq)]
pub struct AccountConnections {
    pub pending: Option<PendingConnection>,
}

impl AccountConnections {
    pub fn new() -> (r: Self)
        ensures r.pending is None,
    {
        AccountConnections { pending: None }
    }

    /// Gives up the pending attempt's reservation, freeing the authentication lock it
    /// held; says whether there was one.
    pub fn release_reservation(&mut self) -> (r: bool)
        ensures
            r == (old(self).pending matches Some(p) && p.reserved),
            match old(self).pending {
                Some(p) => final(self).pending == Some(PendingConnection { reserved: false, ..p }),
                None => final(self).pending is None,
            },
    {
        match &mut self.pending {
            Some(p) => {
                let was = p.reserved;
                p.reserved = false;
                was
            },
            None => false,
        }
    }

    /// Records a new attempt that holds the authentication lock until it is taken.
    pub fn record_attempt(&mut self, attempt_id: String)
        ensures final(self).pending == Some(PendingConnection { attempt_id, reserved: true, cancelled: false }),
    {
        self.pending = Some(PendingConnection { attempt_id, reserved: true, cancelled: false });
    }

    /// Takes the reservation of the attempt `attempt_id`, if it is the pending one and
    /// still reserved.
    pub fn take(&mut self, attempt_id: &str) -> (r: Result<(), CommandError>)
        ensures
            (old(self).pending matches Some(p) && p.attempt_id@ == attempt_id@ && p.reserved) ==> r is Ok
                && final(self).pending == Some(PendingConnection { reserved: false, ..old(self).pending.unwrap() }),
            !(old(self).pending matches Some(p) && p.attempt_id@ == attempt_id@ && p.reserved) ==>
                (r matches Err(CommandError::OAuth(m)) && m@ == "Account connection attempt is no longer active"@)
                && final(self).pending == old(self).pending,
    {
        let refusal = CommandError::OAuth(String::from_str("Account connection attempt is no longer active"));
        match &mut self.pending {
            Some(p) => {
                if str_eq(p.attempt_id.as_str(), attempt_id) && p.reserved {
                    p.reserved = false;
                    Ok(())
                } else {
                    Err(refusal)
                }
            },
            None => Err(refusal),
        }
    }

    /// Cancels the attempt `attempt_id` if it is the pending one: it is marked cancelled and
    /// its reservation is given up. Says whether it was.
    pub fn cancel(&mut self, attempt_id: &str) -> (r: bool)
        ensures
            r == (old(self).pending matches Some(p) && p.attempt_id@ == attempt_id@),
            r ==> final(self).pending == Some(PendingConnection { reserved: false, cancelled: true, ..old(self).pending.unwrap() }),
            !r ==> final(self).pending == old(self).pending,
    {
        match &mut self.pending {
            Some(p) => {
                if str_eq(p.attempt_id.as_str(), attempt_id) {
                    p.cancelled = true;
                    p.reserved = false;
                    true
                } else {
                    false
                }
            },
            None => false,
        }
    }
}

/// The error of a connection cancelled before Google answered.
pub fn cancelled_error() -> (r: CommandError)
    ensures r matches CommandError::OAuth(m) && m@ == "Account connection cancelled"@,
{
    CommandError::OAuth(String::from_str("Account connection cancelled"))
}

} // verus!
