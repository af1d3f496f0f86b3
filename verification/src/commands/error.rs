//! The error every command answers with: a kind and a message safe to show.

use vstd::prelude::*;
use crate::account_lifecycle::AccountLifecycleError;
use crate::connect_account::ConnectAccountError;

verus! {

/// A command's error. The message never holds tokens or other secrets.
#[derive(Clone, Debug, PartialEq, Eq)]
pub enum CommandError {
    NotConfigured(String),
    OAuth(String),
    UnsupportedAccount(String),
    Database(String),
    Keychain(String),
    BrowserLaunchFailed(String),
    Internal(String),
    AccountNotFound(String),
    IdentityMismatch(String),
    ConfirmationRequired(String),
    JobNotFound(String),
    InvalidFolder(String),
    SameSourceAndTarget(String),
    DuplicateRoot(String),
    AccountPairLocked(String),
    RootsLocked(String),
    SharedDriveNotSupported(String),
    NotOwnedBySource(String),
    NoValidatedRoots(String),
    IllegalJobTransition(String),
    RateLimited(String),
    ExportFailed(String),
    ScanInProgress(String),
    TransferInProgress(String),
    DriveApi(String),
}

impl CommandError {
    /// The words that name the kind of error in its message.
    pub open spec fn prefix(&self) -> Seq<char> {
        match self {
            CommandError::NotConfigured(_) => "not configured: "@,
            CommandError::OAuth(_) => "oauth error: "@,
            CommandError::UnsupportedAccount(_) => "unsupported account: "@,
            CommandError::Database(_) => "database error: "@,
            CommandError::Keychain(_) => "keychain error: "@,
            CommandError::BrowserLaunchFailed(_) => "browser launch failed: "@,
            CommandError::Internal(_) => "internal error: "@,
            CommandError::AccountNotFound(_) => "account not found: "@,
            CommandError::IdentityMismatch(_) => "identity mismatch: "@,
            CommandError::ConfirmationRequired(_) => "confirmation required: "@,
            CommandError::JobNotFound(_) => "job not found: "@,
            CommandError::InvalidFolder(_) => "invalid folder: "@,
            CommandError::SameSourceAndTarget(_) => "same source and target: "@,
            CommandError::DuplicateRoot(_) => "duplicate root: "@,
            CommandError::AccountPairLocked(_) => "account pair locked: "@,
            CommandError::RootsLocked(_) => "roots locked: "@,
            CommandError::SharedDriveNotSupported(_) => "shared drive not supported: "@,
            CommandError::NotOwnedBySource(_) => "not owned by source: "@,
            CommandError::NoValidatedRoots(_) => "no validated roots: "@,
            CommandError::IllegalJobTransition(_) => "illegal job transition: "@,
            CommandError::RateLimited(_) => "rate limited: "@,
            CommandError::ExportFailed(_) => "export failed: "@,
            CommandError::ScanInProgress(_) => "scan in progress: "@,
            CommandError::TransferInProgress(_) => "transfer in progress: "@,
            CommandError::DriveApi(_) => "drive api error: "@,
        }
    }

    /// The message the error carries.
    pub open spec fn detail(&self) -> Seq<char> {
        match self {
            CommandError::NotConfigured(m) | CommandError::OAuth(m) | CommandError::UnsupportedAccount(m)
            | CommandError::Database(m) | CommandError::Keychain(m) | CommandError::BrowserLaunchFailed(m)
            | CommandError::Internal(m) | CommandError::AccountNotFound(m) | CommandError::IdentityMismatch(m)
            | CommandError::ConfirmationRequired(m) | CommandError::JobNotFound(m) | CommandError::InvalidFolder(m)
            | CommandError::SameSourceAndTarget(m) | CommandError::DuplicateRoot(m)
            | CommandError::AccountPairLocked(m) | CommandError::RootsLocked(m)
            | CommandError::SharedDriveNotSupported(m) | CommandError::NotOwnedBySource(m)
            | CommandError::NoValidatedRoots(m) | CommandError::IllegalJobTransition(m)
            | CommandError::RateLimited(m) | CommandError::ExportFailed(m) | CommandError::ScanInProgress(m)
            | CommandError::TransferInProgress(m) | CommandError::DriveApi(m) => m@,
        }
    }

    /// The message shown: the kind's words, then the message.
    pub fn to_string(&self) -> (r: String)
        ensures r@ == self.prefix() + self.detail(),
    {
        let (prefix, detail): (&str, &String) = match self {
            CommandError::NotConfigured(m) => ("not configured: ", m),
            CommandError::OAuth(m) => ("oauth error: ", m),
            CommandError::UnsupportedAccount(m) => ("unsupported account: ", m),
            CommandError::Database(m) => ("database error: ", m),
            CommandError::Keychain(m) => ("keychain error: ", m),
            CommandError::BrowserLaunchFailed(m) => ("browser launch failed: ", m),
            CommandError::Internal(m) => ("internal error: ", m),
            CommandError::AccountNotFound(m) => ("account not found: ", m),
            CommandError::IdentityMismatch(m) => ("identity mismatch: ", m),
            CommandError::ConfirmationRequired(m) => ("confirmation required: ", m),
            CommandError::JobNotFound(m) => ("job not found: ", m),
            CommandError::InvalidFolder(m) => ("invalid folder: ", m),
            CommandError::SameSourceAndTarget(m) => ("same source and target: ", m),
            CommandError::DuplicateRoot(m) => ("duplicate root: ", m),
            CommandError::AccountPairLocked(m) => ("account pair locked: ", m),
            CommandError::RootsLocked(m) => ("roots locked: ", m),
            CommandError::SharedDriveNotSupported(m) => ("shared drive not supported: ", m),
            CommandError::NotOwnedBySource(m) => ("not owned by source: ", m),
            CommandError::NoValidatedRoots(m) => ("no validated roots: ", m),
            CommandError::IllegalJobTransition(m) => ("illegal job transition: ", m),
            CommandError::RateLimited(m) => ("rate limited: ", m),
            CommandError::ExportFailed(m) => ("export failed: ", m),
            CommandError::ScanInProgress(m) => ("scan in progress: ", m),
            CommandError::TransferInProgress(m) => ("transfer in progress: ", m),
            CommandError::DriveApi(m) => ("drive api error: ", m),
        };
        String::from_str(prefix).concat(detail.as_str())
    }

    pub open spec fn maps_lifecycle(&self, err: AccountLifecycleError) -> bool {
        match err {
            AccountLifecycleError::AccountNotFound => self matches CommandError::AccountNotFound(m) && m@ == "account not found"@,
            AccountLifecycleError::IdentityMismatch { expected, actual } => self matches CommandError::IdentityMismatch(m)
                && m@ == "expected google permission id "@ + expected.value@ + ", got "@ + actual.value@,
            AccountLifecycleError::ActiveJobsPreventRemoval =>
                self matches CommandError::Internal(m) && m@ == "cannot remove account with active jobs"@,
            AccountLifecycleError::MissingRefreshToken => self matches CommandError::OAuth(m) && m@ == "missing refresh token"@,
            AccountLifecycleError::TokenExchange(e) => self matches CommandError::OAuth(m) && m@ == e.message(),
            AccountLifecycleError::IdentityLookup(e) => self matches CommandError::OAuth(m) && m@ == e.message(),
            AccountLifecycleError::Account(e) => self matches CommandError::UnsupportedAccount(m) && m@ == e.message@,
            AccountLifecycleError::Database(e) => self matches CommandError::Database(m) && m@ == e.message(),
            AccountLifecycleError::Keychain(e) => self matches CommandError::Keychain(m) && m@ == e.message(),
        }
    }

    /// An account lifecycle error as a command error.
    pub fn from_lifecycle(err: AccountLifecycleError) -> (r: CommandError)
        ensures r.maps_lifecycle(err),
    {
        match err {
            AccountLifecycleError::AccountNotFound => CommandError::AccountNotFound(String::from_str("account not found")),
            AccountLifecycleError::IdentityMismatch { expected, actual } => CommandError::IdentityMismatch(
                String::from_str("expected google permission id ").concat(expected.as_str()).concat(", got ").concat(actual.as_str()),
            ),
            AccountLifecycleError::ActiveJobsPreventRemoval =>
                CommandError::Internal(String::from_str("cannot remove account with active jobs")),
            AccountLifecycleError::MissingRefreshToken => CommandError::OAuth(String::from_str("missing refresh token")),
            AccountLifecycleError::TokenExchange(e) => CommandError::OAuth(e.to_string()),
            AccountLifecycleError::IdentityLookup(e) => CommandError::OAuth(e.to_string()),
            AccountLifecycleError::Account(e) => CommandError::UnsupportedAccount(e.message),
            AccountLifecycleError::Database(e) => CommandError::Database(e.to_string()),
            AccountLifecycleError::Keychain(e) => CommandError::Keychain(e.to_string()),
        }
    }

    pub open spec fn maps_connect(&self, err: &ConnectAccountError) -> bool {
        match err {
            ConnectAccountError::TokenExchange(e) => self matches CommandError::OAuth(m) && m@ == e.message(),
            ConnectAccountError::IdentityLookup(e) => self matches CommandError::OAuth(m) && m@ == e.message(),
            ConnectAccountError::MissingRefreshToken =>
                self matches CommandError::OAuth(m) && m@ == "Google did not return a refresh token"@,
            ConnectAccountError::Account(e) => self matches CommandError::UnsupportedAccount(m) && m@ == e.message@,
            ConnectAccountError::Database(e) => self matches CommandError::Database(m) && m@ == e.message(),
            ConnectAccountError::Keychain(e) => self matches CommandError::Keychain(m) && m@ == e.message(),
            ConnectAccountError::RollbackFailed { primary_error, rollback_error } =>
                self matches CommandError::Internal(m) && m@ == "connection failed ("@ + primary_error.message()
                    + ") and rollback also failed: "@ + rollback_error.message(),
        }
    }

    /// A connection error as a command error.
    pub fn from_connect(err: &ConnectAccountError) -> (r: CommandError)
        ensures r.maps_connect(err),
    {
        match err {
            ConnectAccountError::TokenExchange(e) => CommandError::OAuth(e.to_string()),
            ConnectAccountError::IdentityLookup(e) => CommandError::OAuth(e.to_string()),
            ConnectAccountError::MissingRefreshToken => CommandError::OAuth(String::from_str("Google did not return a refresh token")),
            ConnectAccountError::Account(e) => CommandError::UnsupportedAccount(e.message.clone()),
            ConnectAccountError::Database(e) => CommandError::Database(e.to_string()),
            ConnectAccountError::Keychain(e) => CommandError::Keychain(e.to_string()),
            ConnectAccountError::RollbackFailed { primary_error, rollback_error } => {
                let primary = primary_error.to_string();
                CommandError::Internal(String::from_str("connection failed (").concat(primary.as_str())
                    .concat(") and rollback also failed: ").concat(rollback_error.to_string().as_str()))
            },
        }
    }
}

} // verus!
