use gdom::account_lifecycle::AccountLifecycleError;
use gdom::commands::error::CommandError;
use gdom::commands::job::{map_job_service_error, parse_account_id, parse_job_id, parse_root_id};
use gdom::commands::account;
use gdom::connect_account::{AccountStorePortError, ConnectAccountError, TokenExchangeError};
use gdom::domain::{AccountId, GooglePermissionId, JobId, RootId};
use gdom::job_service::JobServiceError;

#[test]
fn display_includes_variant_prefix() {
    let cases: Vec<(CommandError, &str)> = vec![
        (CommandError::NotConfigured("missing client id".into()), "not configured: missing client id"),
        (CommandError::OAuth("token exchange failed".into()), "oauth error: token exchange failed"),
        (CommandError::UnsupportedAccount("workspace account".into()), "unsupported account: workspace account"),
        (CommandError::Database("connection lost".into()), "database error: connection lost"),
        (CommandError::Keychain("locked".into()), "keychain error: locked"),
        (CommandError::BrowserLaunchFailed("no default browser".into()), "browser launch failed: no default browser"),
        (CommandError::Internal("unexpected state".into()), "internal error: unexpected state"),
    ];
    for (error, expected) in cases {
        assert_eq!(error.to_string(), expected);
    }
}

#[test]
fn debug_does_not_leak_tokens() {
    let error = CommandError::Internal("something went wrong".into());
    let debug = format!("{error:?}");

    assert!(debug.contains("something went wrong"));
    assert!(!debug.contains("access_token"));
    assert!(!debug.contains("refresh_token"));
}

#[test]
fn error_trait_is_implemented() {
    let error = CommandError::Internal("test".into());
    assert!(error.to_string().contains("test"));
}

#[test]
fn identifiers_are_read_after_trimming() {
    assert_eq!(parse_account_id(" 42 "), Ok(AccountId::new(42)));
    assert_eq!(parse_account_id("x"), Err(CommandError::UnsupportedAccount("Invalid account ID format".into())));
    assert_eq!(parse_job_id("+7"), Ok(JobId::new(7)));
    assert_eq!(parse_job_id("-7"), Err(CommandError::JobNotFound("Invalid job ID format".into())));
    assert_eq!(parse_root_id("\t9\n"), Ok(RootId::new(9)));
    assert_eq!(parse_root_id(""), Err(CommandError::InvalidFolder("Invalid root ID format".into())));
    assert_eq!(
        parse_job_id("340282366920938463463374607431768211456"),
        Err(CommandError::JobNotFound("Invalid job ID format".into()))
    );
}

#[test]
fn account_commands_read_identifiers_as_given() {
    assert_eq!(account::parse_account_id("5"), Ok(AccountId::new(5)));
    assert_eq!(
        account::parse_account_id(" 5"),
        Err(CommandError::AccountNotFound("invalid account id format:  5".into()))
    );
}

#[test]
fn job_service_errors_are_shown_with_their_kind() {
    assert_eq!(
        map_job_service_error(JobServiceError::JobNotFound(JobId::new(3))),
        CommandError::JobNotFound("Migration job 3 not found".into())
    );
    assert_eq!(
        map_job_service_error(JobServiceError::WaitingForQuota),
        CommandError::RateLimited("Google Drive storage quota exceeded. Migration paused until quota is resolved.".into())
    );
    assert_eq!(map_job_service_error(JobServiceError::TokenError("t".into())), CommandError::OAuth("t".into()));
    assert_eq!(
        map_job_service_error(JobServiceError::DuplicateRoot("abc".into())),
        CommandError::DuplicateRoot("Root folder abc already added to this job".into())
    );
}

#[test]
fn lifecycle_and_connection_errors_are_shown_with_their_kind() {
    let mismatch = AccountLifecycleError::IdentityMismatch {
        expected: GooglePermissionId::new("a"),
        actual: GooglePermissionId::new("b"),
    };
    assert_eq!(
        CommandError::from_lifecycle(mismatch),
        CommandError::IdentityMismatch("expected google permission id a, got b".into())
    );
    assert_eq!(
        CommandError::from_connect(&ConnectAccountError::MissingRefreshToken),
        CommandError::OAuth("Google did not return a refresh token".into())
    );
    let failed = ConnectAccountError::RollbackFailed {
        primary_error: Box::new(ConnectAccountError::TokenExchange(TokenExchangeError::Transport)),
        rollback_error: Box::new(AccountStorePortError::Storage("db down".into())),
    };
    assert_eq!(
        CommandError::from_connect(&failed),
        CommandError::Internal(
            "connection failed (failed to exchange OAuth code: token exchange network request failed) and rollback also failed: db down"
                .into()
        )
    );
}
