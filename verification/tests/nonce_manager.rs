use ethers_confidential::nonce_manager::{
    FailedSendAction, NonceManagerMiddleware, NonceStep, ResyncDecision, DEFAULT_TX_COUNT_FOR_RESYNC,
};

#[test]
fn fresh_manager_asks_for_onchain_count_then_hands_out_consecutive_nonces() {
    let mut manager = NonceManagerMiddleware::new([1u8; 20]);
    assert_eq!(manager.address(), [1u8; 20]);
    assert_eq!(manager.initialize_nonce(), NonceStep::FetchTransactionCount);
    assert_eq!(manager.record_onchain_nonce(7), 7);
    assert_eq!(manager.initialize_nonce(), NonceStep::Ready(7));
    assert_eq!(manager.next(), 7);
    assert_eq!(manager.next(), 8);
    assert_eq!(manager.next(), 9);
    assert_eq!(manager.initialize_nonce(), NonceStep::Ready(10));
}

#[test]
fn next_wraps_around_like_the_atomic_counter() {
    let mut manager = NonceManagerMiddleware::new([0u8; 20]);
    manager.record_onchain_nonce(u64::MAX);
    assert_eq!(manager.next(), u64::MAX);
    assert_eq!(manager.next(), 0);
}

#[test]
fn default_resync_count() {
    let manager = NonceManagerMiddleware::new([0u8; 20]);
    assert_eq!(manager.get_tx_count_for_resync(), DEFAULT_TX_COUNT_FOR_RESYNC);
    assert_eq!(DEFAULT_TX_COUNT_FOR_RESYNC, 10);
}

#[test]
fn successful_sends_keep_the_counter_and_never_resync() {
    let mut manager = NonceManagerMiddleware::new([0u8; 20]);
    manager.record_onchain_nonce(3);
    for _ in 0..25 {
        let _ = manager.next();
        assert_eq!(manager.record_sent_transaction(), ResyncDecision::Continue { txs_until_resync: 10 });
    }
    assert_eq!(manager.initialize_nonce(), NonceStep::Ready(28));
}

#[test]
fn resync_takes_onchain_nonce() {
    let mut manager = NonceManagerMiddleware::new([0u8; 20]);
    manager.record_onchain_nonce(5);
    let _ = manager.next();
    manager.complete_resync(42);
    assert_eq!(manager.initialize_nonce(), NonceStep::Ready(42));
    assert_eq!(manager.next(), 42);
}

#[test]
fn failed_send_with_mismatched_nonce_resends_with_onchain_nonce() {
    let mut manager = NonceManagerMiddleware::new([0u8; 20]);
    manager.record_onchain_nonce(5);
    assert_eq!(manager.next(), 5);
    assert_eq!(manager.recover_from_failed_send(4), FailedSendAction::Resend(4));
    assert_eq!(manager.initialize_nonce(), NonceStep::Ready(4));
}

#[test]
fn failed_send_with_matching_nonce_propagates_error() {
    let mut manager = NonceManagerMiddleware::new([0u8; 20]);
    manager.record_onchain_nonce(5);
    assert_eq!(manager.next(), 5);
    assert_eq!(manager.recover_from_failed_send(6), FailedSendAction::PropagateError);
    assert_eq!(manager.initialize_nonce(), NonceStep::Ready(6));
    assert_eq!(manager.next(), 6);
}

#[test]
fn transaction_nonce_initializes_from_chain_once() {
    let mut manager = NonceManagerMiddleware::new([2u8; 20]);
    assert_eq!(manager.get_transaction_count_with_manager(Some(12)), 12);
    assert_eq!(manager.get_transaction_count_with_manager(None), 13);
    // once initialized, a fetched count is ignored
    assert_eq!(manager.get_transaction_count_with_manager(Some(99)), 14);
    assert_eq!(manager.initialize_nonce(), NonceStep::Ready(15));
}
