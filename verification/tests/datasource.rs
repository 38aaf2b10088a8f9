use carbon_indexer::datasource::{
    account_metrics_recorded, drop_counter, plan_block, BlockStep, is_stalled, tracked_deletion, AccountDeletion, forwards_block_transaction, ingest_slot_gauge_name,
    plan_account_update, plan_transaction_update, retain_failed_block_transactions,
    send_status_of, skipped_transaction, transaction_metrics_recorded, transaction_outcome,
    update_types, AccountPlan, AccountSkip, MessageAction, SendStatus, StreamLogState,
    StreamMessage, SubscribeAccountInfo, SubscribeTransactionInfo, TransactionPlan,
    TransactionSkip, TrySendOutcome, UpdateType, TRY_SEND_CLOSED_COUNTER, TRY_SEND_FULL_COUNTER,
};
use carbon_indexer::grpc_config::{BuilderStep, TimeSpan, TlsSource, YellowstoneGrpcClientConfig};
use std::time::Instant;

fn account_info(lamports: u64, data: Vec<u8>, owner: Vec<u8>) -> SubscribeAccountInfo {
    SubscribeAccountInfo {
        pubkey: vec![4; 32],
        lamports,
        owner,
        executable: false,
        rent_epoch: 361,
        data,
        write_version: 9,
        txn_signature: Some(vec![6; 64]),
    }
}

#[test]
fn fresh_stream_state_counts_nothing() {
    let s = StreamLogState::new();
    assert_eq!(s.msg_count, 0);
    assert_eq!(s.updates_sent + s.updates_skipped, 0);
    assert_eq!(s.last_slot, None);
    assert_eq!(s.last_log, s.last_msg);
}

#[test]
fn send_statuses_are_counted_apart() {
    let mut s = StreamLogState::new();
    s.record_send_status(SendStatus::Sent);
    s.record_send_status(SendStatus::Sent);
    s.record_send_status(SendStatus::DroppedFull);
    s.record_send_status(SendStatus::DroppedClosed);
    s.record_send_status(SendStatus::Skipped);
    s.record_send_status(SendStatus::Skipped);
    s.record_send_status(SendStatus::Skipped);
    assert_eq!(
        (s.updates_sent, s.updates_dropped_full, s.updates_dropped_closed, s.updates_skipped),
        (2, 1, 1, 3)
    );
}

#[test]
fn decode_times_add_up_and_keep_the_maximum() {
    let mut s = StreamLogState::new();
    s.record_decode_ns(300);
    s.record_decode_ns(1_200);
    s.record_decode_ns(500);
    assert_eq!(s.tx_decode_count, 3);
    assert_eq!(s.tx_decode_total_ns, 2_000);
    assert_eq!(s.tx_decode_max_ns, 1_200);
}

#[test]
fn messages_update_counts_slot_and_action() {
    let mut s = StreamLogState::new();
    let now = Instant::now();
    assert_eq!(
        s.record_message(now, StreamMessage::Account { slot: 10 }),
        MessageAction::ForwardAccount { slot: 10 }
    );
    assert_eq!(
        s.record_message(now, StreamMessage::Transaction { slot: 11 }),
        MessageAction::ForwardTransaction { slot: 11 }
    );
    assert_eq!(
        s.record_message(now, StreamMessage::Block { slot: 12 }),
        MessageAction::ForwardBlock { slot: 12 }
    );
    assert_eq!(s.record_message(now, StreamMessage::Ping), MessageAction::ReplyPing { id: 1 });
    assert_eq!(s.record_message(now, StreamMessage::Other), MessageAction::Ignore);
    assert_eq!(s.record_message(now, StreamMessage::Error), MessageAction::EndStream);
    assert_eq!(s.msg_count, 6);
    assert_eq!((s.account_msgs, s.transaction_msgs, s.block_msgs, s.ping_msgs), (1, 1, 1, 1));
    assert_eq!(s.last_slot, Some(12));
    assert_eq!(s.last_msg, now);
}

#[test]
fn reset_window_clears_counts_but_keeps_last_slot() {
    let mut s = StreamLogState::new();
    s.record_message(Instant::now(), StreamMessage::Block { slot: 77 });
    s.record_send_status(SendStatus::Sent);
    s.record_decode_ns(5);
    s.reset_window();
    assert_eq!(s.msg_count, 0);
    assert_eq!(s.block_msgs, 0);
    assert_eq!(s.updates_sent, 0);
    assert_eq!(s.tx_decode_count, 0);
    assert_eq!(s.tx_decode_max_ns, 0);
    assert_eq!(s.last_slot, Some(77));
    assert_eq!(s.last_log, s.last_msg);
}

#[test]
fn report_is_taken_only_once_the_interval_has_passed() {
    let mut s = StreamLogState::new();
    s.record_message(Instant::now(), StreamMessage::Account { slot: 3 });
    s.record_send_status(SendStatus::DroppedFull);
    assert!(s.take_report_if_due(9_999, 10_000).is_none());
    assert_eq!(s.msg_count, 1);
    let r = s.take_report_if_due(10_000, 10_000).unwrap();
    assert_eq!(r.msg_count, 1);
    assert_eq!(r.account_msgs, 1);
    assert_eq!(r.updates_dropped_full, 1);
    assert_eq!(r.last_slot, 3);
    assert_eq!(s.msg_count, 0);
    assert_eq!(s.last_slot, Some(3));
    let empty = StreamLogState::new().take_report_if_due(1, 0).unwrap();
    assert_eq!(empty.last_slot, 0);
}

#[test]
fn live_account_becomes_an_update() {
    let info = account_info(5, vec![1, 2, 3], vec![9; 32]);
    match plan_account_update(Some(info), 88) {
        AccountPlan::Send(u) => {
            assert_eq!(u.pubkey.to_bytes(), [4; 32]);
            assert_eq!(u.account.lamports, 5);
            assert_eq!(u.account.data, vec![1, 2, 3]);
            assert_eq!(u.account.owner.to_bytes(), [9; 32]);
            assert!(!u.account.executable);
            assert_eq!(u.account.rent_epoch, 361);
            assert_eq!(u.slot, 88);
            assert_eq!(u.transaction_signature.unwrap().bytes, [6; 64]);
        }
        other => panic!("unexpected plan {other:?}"),
    }
}

#[test]
fn closed_system_account_becomes_a_deletion_candidate() {
    let mut info = account_info(0, vec![], vec![0; 32]);
    info.txn_signature = Some(vec![6; 10]);
    match plan_account_update(Some(info), 90) {
        AccountPlan::SendIfTracked(d) => {
            assert_eq!(d.pubkey.to_bytes(), [4; 32]);
            assert_eq!(d.slot, 90);
            assert_eq!(d.transaction_signature, None);
        }
        other => panic!("unexpected plan {other:?}"),
    }
}

#[test]
fn empty_account_with_other_owner_is_still_an_update() {
    let info = account_info(0, vec![], vec![1; 32]);
    assert!(matches!(plan_account_update(Some(info), 1), AccountPlan::Send(_)));
    let funded = account_info(1, vec![], vec![0; 32]);
    assert!(matches!(plan_account_update(Some(funded), 1), AccountPlan::Send(_)));
    let with_data = account_info(0, vec![0], vec![0; 32]);
    assert!(matches!(plan_account_update(Some(with_data), 1), AccountPlan::Send(_)));
}

#[test]
fn malformed_accounts_are_skipped() {
    assert_eq!(plan_account_update(None, 1), AccountPlan::Skip(AccountSkip::MissingInfo));
    let mut bad_key = account_info(1, vec![], vec![1; 32]);
    bad_key.pubkey = vec![1; 31];
    assert_eq!(plan_account_update(Some(bad_key), 1), AccountPlan::Skip(AccountSkip::InvalidPubkey));
    let bad_owner = account_info(1, vec![], vec![1; 33]);
    assert_eq!(
        plan_account_update(Some(bad_owner), 1),
        AccountPlan::Skip(AccountSkip::InvalidOwner)
    );
}

#[test]
fn channel_outcomes_map_to_statuses_and_counters() {
    assert_eq!(send_status_of(TrySendOutcome::Sent), SendStatus::Sent);
    assert_eq!(send_status_of(TrySendOutcome::Full), SendStatus::DroppedFull);
    assert_eq!(send_status_of(TrySendOutcome::Closed), SendStatus::DroppedClosed);
    assert_eq!(drop_counter(SendStatus::DroppedFull), Some("yellowstone_grpc_try_send_full"));
    assert_eq!(drop_counter(SendStatus::DroppedClosed), Some(TRY_SEND_CLOSED_COUNTER));
    assert_eq!(drop_counter(SendStatus::Sent), None);
    assert_eq!(drop_counter(SendStatus::Skipped), None);
    assert_eq!(TRY_SEND_FULL_COUNTER, "yellowstone_grpc_try_send_full");
}

#[test]
fn metrics_are_recorded_per_update_kind() {
    assert!(account_metrics_recorded(SendStatus::DroppedFull));
    assert!(account_metrics_recorded(SendStatus::Sent));
    assert!(!account_metrics_recorded(SendStatus::Skipped));
    assert!(transaction_metrics_recorded(SendStatus::Sent));
    assert!(!transaction_metrics_recorded(SendStatus::DroppedClosed));
}

fn tx_info(signature: Vec<u8>) -> SubscribeTransactionInfo<&'static str, u32> {
    SubscribeTransactionInfo {
        signature,
        is_vote: true,
        transaction: Some("tx"),
        meta: Some(7),
        index: 4,
    }
}

#[test]
fn complete_transaction_is_planned_for_decoding() {
    match plan_transaction_update(Some(tx_info(vec![2; 64])), 50, Some(1_700)) {
        TransactionPlan::Decode(p) => {
            assert_eq!(p.signature.bytes, [2; 64]);
            assert_eq!(p.transaction, "tx");
            assert_eq!(p.meta, 7);
            assert!(p.is_vote);
            assert_eq!(p.slot, 50);
            assert_eq!(p.index, Some(4));
            assert_eq!(p.block_time, Some(1_700));
        }
        other => panic!("unexpected plan {other:?}"),
    }
}

#[test]
fn incomplete_transactions_are_skipped_in_order() {
    assert_eq!(
        plan_transaction_update::<&str, u32>(None, 1, None),
        TransactionPlan::Skip(TransactionSkip::MissingInfo)
    );
    let mut no_tx = tx_info(vec![2; 63]);
    no_tx.transaction = None;
    assert_eq!(
        plan_transaction_update(Some(no_tx), 1, None),
        TransactionPlan::Skip(TransactionSkip::InvalidSignature)
    );
    let mut no_tx = tx_info(vec![2; 64]);
    no_tx.transaction = None;
    no_tx.meta = None;
    assert_eq!(
        plan_transaction_update(Some(no_tx), 1, None),
        TransactionPlan::Skip(TransactionSkip::MissingTransaction)
    );
    let mut no_meta = tx_info(vec![2; 64]);
    no_meta.meta = None;
    assert_eq!(
        plan_transaction_update(Some(no_meta), 1, None),
        TransactionPlan::Skip(TransactionSkip::MissingMeta)
    );
}

#[test]
fn transaction_outcomes_carry_decode_time() {
    let o = transaction_outcome(TrySendOutcome::Full, 123);
    assert_eq!(o.status, SendStatus::DroppedFull);
    assert_eq!(o.decode_ns, Some(123));
    let s = skipped_transaction(9);
    assert_eq!(s.status, SendStatus::Skipped);
    assert_eq!(s.decode_ns, Some(9));
}

#[test]
fn block_transactions_follow_the_failed_transaction_setting() {
    assert!(retain_failed_block_transactions(None));
    assert!(!retain_failed_block_transactions(Some(false)));
    assert!(forwards_block_transaction(true, Some(false)));
    assert!(forwards_block_transaction(true, None));
    assert!(forwards_block_transaction(false, Some(true)));
    assert!(!forwards_block_transaction(false, Some(false)));
    assert!(!forwards_block_transaction(false, None));
}

#[test]
fn ingest_gauge_name_appends_the_datasource_id() {
    assert_eq!(ingest_slot_gauge_name("mainnet"), "datasource_ingest_last_slot_mainnet");
    assert_eq!(ingest_slot_gauge_name(""), "datasource_ingest_last_slot_");
}

#[test]
fn datasource_delivers_three_update_types() {
    assert_eq!(
        update_types(),
        vec![UpdateType::AccountUpdate, UpdateType::Transaction, UpdateType::AccountDeletion]
    );
}

#[test]
fn default_config_uses_fifteen_second_timeouts() {
    let c: YellowstoneGrpcClientConfig<u8, String> = YellowstoneGrpcClientConfig::default();
    assert_eq!(c.connect_timeout, Some(TimeSpan { secs: 15, nanos: 0 }));
    assert_eq!(c.timeout, Some(TimeSpan { secs: 15, nanos: 0 }));
    assert!(c.compression.is_none() && c.tls_config.is_none());
    assert_eq!(
        c.builder_steps(),
        vec![
            BuilderStep::ConnectTimeout(TimeSpan::from_secs(15)),
            BuilderStep::Timeout(TimeSpan::from_secs(15)),
            BuilderStep::TlsConfig(TlsSource::EnabledRoots),
        ]
    );
}

#[test]
fn configured_settings_become_builder_calls_in_order() {
    let c: YellowstoneGrpcClientConfig<u8, String> = YellowstoneGrpcClientConfig::new(
        Some(3),
        None,
        Some(TimeSpan { secs: 2, nanos: 500 }),
        Some(1 << 20),
        Some("tls".to_string()),
        Some(true),
    );
    assert_eq!(
        c.builder_steps(),
        vec![
            BuilderStep::ConnectTimeout(TimeSpan { secs: 15, nanos: 0 }),
            BuilderStep::Timeout(TimeSpan { secs: 2, nanos: 500 }),
            BuilderStep::TlsConfig(TlsSource::Configured),
            BuilderStep::SendCompressed(3),
            BuilderStep::AcceptCompressed(3),
            BuilderStep::MaxDecodingMessageSize(1 << 20),
            BuilderStep::TcpNodelay(true),
        ]
    );
}

#[test]
fn decode_runs_give_count_sum_and_max_in_any_order() {
    let mut orders = vec![[5u128, 3, 7], [7, 5, 3], [3, 7, 5]];
    for order in orders.drain(..) {
        let mut s = StreamLogState::new();
        for d in order {
            s.record_decode_ns(d);
        }
        assert_eq!((s.tx_decode_count, s.tx_decode_total_ns, s.tx_decode_max_ns), (3, 15, 7));
    }
    let mut after_reset = StreamLogState::new();
    after_reset.record_decode_ns(100);
    after_reset.reset_window();
    after_reset.record_decode_ns(0);
    assert_eq!(
        (after_reset.tx_decode_count, after_reset.tx_decode_total_ns, after_reset.tx_decode_max_ns),
        (1, 0, 0)
    );
}

#[test]
fn only_tracked_deletions_are_forwarded() {
    let d = AccountDeletion {
        pubkey: carbon_indexer::keys::Pubkey::new_from_array([3; 32]),
        slot: 5,
        transaction_signature: None,
    };
    assert_eq!(tracked_deletion(d.clone(), true), Some(d.clone()));
    assert_eq!(tracked_deletion(d, false), None);
}

#[test]
fn stall_is_a_gap_strictly_above_the_threshold() {
    assert!(!is_stalled(5_000_000_000, 5_000_000_000));
    assert!(is_stalled(5_000_000_001, 5_000_000_000));
    assert!(!is_stalled(0, 5_000_000_000));
}

#[test]
fn block_dispatches_kept_transactions_then_accounts() {
    let succeeded = vec![Some(true), Some(false), None, Some(true)];
    assert_eq!(
        plan_block(false, &succeeded, 2),
        vec![
            BlockStep::Transaction(0),
            BlockStep::Transaction(3),
            BlockStep::Account(0),
            BlockStep::Account(1),
        ]
    );
    assert_eq!(
        plan_block(true, &succeeded, 0),
        vec![
            BlockStep::Transaction(0),
            BlockStep::Transaction(1),
            BlockStep::Transaction(2),
            BlockStep::Transaction(3),
        ]
    );
    assert_eq!(plan_block(false, &Vec::new(), 1), vec![BlockStep::Account(0)]);
}
