use gdom::commands::account::{
    cancelled_error, check_attempt_id, check_client_id_change, configuration_busy_error, configured_client_id,
    configured_client_secret, parse_account_id, AccountConnections, PendingConnection,
};
use gdom::commands::error::CommandError;

#[test]
fn client_ids_and_secrets_are_trimmed() {
    assert_eq!(configured_client_id("  id-1 "), Ok("id-1".to_string()));
    assert_eq!(configured_client_id("   "), Err(CommandError::NotConfigured("OAuth client ID must not be empty".into())));
    assert_eq!(configured_client_secret(&Some(" s ".into())), Some("s".to_string()));
    assert_eq!(configured_client_secret(&Some("  ".into())), None);
    assert_eq!(configured_client_secret(&None), None);
}

#[test]
fn client_id_is_locked_while_accounts_exist() {
    assert!(check_client_id_change(true, &Some("a".into()), "b").is_err());
    assert!(check_client_id_change(true, &Some("a".into()), "a").is_ok());
    assert!(check_client_id_change(false, &Some("a".into()), "b").is_ok());
    assert!(check_client_id_change(true, &None, "b").is_ok());
    assert!(matches!(configuration_busy_error(), CommandError::OAuth(_)));
}

#[test]
fn attempt_ids_are_bounded() {
    assert!(check_attempt_id("a").is_ok());
    assert!(check_attempt_id(&"x".repeat(128)).is_ok());
    assert_eq!(check_attempt_id(""), Err(CommandError::OAuth("Invalid account connection attempt ID".into())));
    assert!(check_attempt_id(&"x".repeat(129)).is_err());
}

#[test]
fn an_attempt_is_taken_once_and_cancelled_by_its_id() {
    let mut connections = AccountConnections::new();
    assert!(!connections.release_reservation());
    connections.record_attempt("a1".into());
    assert_eq!(connections.take("other"), Err(CommandError::OAuth("Account connection attempt is no longer active".into())));
    assert!(connections.take("a1").is_ok());
    assert!(connections.take("a1").is_err());
    assert!(!connections.cancel("other"));
    assert!(connections.cancel("a1"));
    assert_eq!(
        connections.pending,
        Some(PendingConnection { attempt_id: "a1".into(), reserved: false, cancelled: true })
    );
    connections.record_attempt("a2".into());
    assert!(connections.release_reservation());
    assert!(connections.take("a2").is_err());
    assert_eq!(cancelled_error(), CommandError::OAuth("Account connection cancelled".into()));
}

#[test]
fn parse_account_id_validates_u128() {
    assert!(parse_account_id("12345").is_ok());
    assert!(matches!(parse_account_id("not-a-number"), Err(CommandError::AccountNotFound(_))));
}
