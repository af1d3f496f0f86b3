use gdom::item::{ItemError, ItemState};

#[test]
fn item_state_roundtrips_known_values() {
    for state in [
        ItemState::Discovered,
        ItemState::Eligible,
        ItemState::PendingOwnerRequired,
        ItemState::PendingOwnerCreated,
        ItemState::AcceptRequired,
        ItemState::Accepting,
        ItemState::Transferred,
        ItemState::Verifying,
        ItemState::Verified,
        ItemState::SkippedAlreadyOwnedByTarget,
        ItemState::SkippedNotOwnedBySource,
        ItemState::SkippedSharedDrive,
        ItemState::SkippedIneligible,
        ItemState::SkippedTrashed,
        ItemState::RetryableFailed,
        ItemState::PermanentFailed,
    ] {
        assert_eq!(ItemState::from_str(state.as_str()), Ok(state));
    }
}

#[test]
fn item_state_rejects_unknown() {
    assert_eq!(ItemState::from_str("NOT_A_STATE"), Err(ItemError::InvalidItemState));
}

#[test]
fn transfer_chain_allows_accept_required_and_rejects_skips() {
    let chain = [
        ItemState::Eligible,
        ItemState::PendingOwnerRequired,
        ItemState::PendingOwnerCreated,
        ItemState::AcceptRequired,
        ItemState::Accepting,
        ItemState::Transferred,
        ItemState::Verifying,
        ItemState::Verified,
    ];
    for window in chain.windows(2) {
        assert_eq!(window[0].transition_to(window[1]), Ok(window[1]));
    }
    assert_eq!(ItemState::Verified.transition_to(ItemState::Eligible), Err(ItemError::IllegalTransition));
    assert!(ItemState::Verified.is_terminal());
    assert!(ItemState::Eligible.is_transfer_active());
}

#[test]
fn every_state_may_stay_where_it_is() {
    for state in [ItemState::Discovered, ItemState::Verified, ItemState::Cancelled, ItemState::RetryableFailed] {
        assert!(state.can_transition_to(state));
    }
}

#[test]
fn item_errors_describe_themselves() {
    assert_eq!(ItemError::InvalidItemState.to_string(), "Invalid item state string");
    assert_eq!(ItemError::IllegalTransition.to_string(), "Illegal item state transition");
}
