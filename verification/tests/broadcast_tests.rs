use wednesday::broadcast::{
    run_broadcast, BroadcastPhase, BroadcastState, DeliveryError, NETWORK_RETRY_SECS,
};

#[test]
fn blocked_recipient_is_removed_and_rest_receive() {
    // Chats [1,2,3], chat 2 blocked: 2 is removed, 1 and 3 receive.
    let chats = vec![1i64, 2, 3];
    let script = vec![Ok(()), Err(DeliveryError::RecipientBlocked), Ok(())];
    let s = run_broadcast(chats, script);
    assert_eq!(s.delivered, vec![1i64, 3]);
    assert_eq!(s.removed, vec![2i64]);
    assert_eq!(s.added, Vec::<i64>::new());
    assert!(s.is_done());
}

#[test]
fn migration_replaces_chat_and_resends() {
    // Chats [1,2], chat 1 migrated to 99: 1 removed, 99 added, the send
    // repeated against 99, and chat 2 still served.
    let chats = vec![1i64, 2];
    let script = vec![Err(DeliveryError::MigratedTo(99)), Ok(()), Ok(())];
    let s = run_broadcast(chats, script);
    assert_eq!(s.removed, vec![1i64]);
    assert_eq!(s.added, vec![99i64]);
    assert_eq!(s.delivered, vec![99i64, 2]);
    assert!(s.is_done());
}

#[test]
fn migration_retry_failure_is_swallowed() {
    let chats = vec![1i64, 2];
    let script = vec![
        Err(DeliveryError::MigratedTo(99)),
        Err(DeliveryError::Other),
        Ok(()),
    ];
    let s = run_broadcast(chats, script);
    assert_eq!(s.removed, vec![1i64]);
    assert_eq!(s.added, vec![99i64]);
    assert_eq!(s.delivered, vec![2i64]);
    assert!(s.is_done());
}

#[test]
fn not_found_and_deactivated_are_removed() {
    let chats = vec![5i64, 6, 7];
    let script = vec![
        Err(DeliveryError::RecipientNotFound),
        Err(DeliveryError::RecipientDeactivated),
        Ok(()),
    ];
    let s = run_broadcast(chats, script);
    assert_eq!(s.removed, vec![5i64, 6]);
    assert_eq!(s.delivered, vec![7i64]);
    assert!(s.is_done());
}

#[test]
fn rate_limited_waits_and_retries_same_chat() {
    let mut s = BroadcastState::start(vec![1i64]);
    assert_eq!(s.next_target(), Some(1));
    let sleep = s.on_result(Err(DeliveryError::RateLimited(30)));
    assert_eq!(sleep, Some(30));
    // Still the same chat.
    assert_eq!(s.next_target(), Some(1));
    let sleep = s.on_result(Ok(()));
    assert_eq!(sleep, None);
    assert_eq!(s.delivered, vec![1i64]);
    assert!(s.is_done());
}

#[test]
fn network_error_waits_fixed_interval() {
    let mut s = BroadcastState::start(vec![1i64]);
    let sleep = s.on_result(Err(DeliveryError::NetworkError));
    assert_eq!(sleep, Some(NETWORK_RETRY_SECS));
    assert_eq!(s.next_target(), Some(1));
}

#[test]
fn unclassified_error_aborts_remaining_fanout() {
    let chats = vec![1i64, 2, 3];
    let script = vec![Ok(()), Err(DeliveryError::Other), Ok(())];
    let s = run_broadcast(chats, script);
    assert_eq!(s.delivered, vec![1i64]);
    assert_eq!(s.removed, Vec::<i64>::new());
    assert_eq!(s.phase, BroadcastPhase::Aborted);
    assert_eq!(s.failure, Some(DeliveryError::Other));
    assert!(!s.is_done());
}
