use mvx_observer::config::SyncConfig;
use mvx_observer::models::{ApiBlock, ApiTransaction};
use mvx_observer::sync::{SyncAction, SyncEvent, SyncState, POLL_DELAY_SECS, RETRY_DELAY_SECS};

fn cfg(from_genesis: bool, genesis_nonce: u64) -> SyncConfig {
    SyncConfig { from_genesis, genesis_nonce, workers_per_shard: 1, shards: vec![0, 1, 2] }
}

fn block(nonce: u64, shard: u32, tx_count: u32) -> ApiBlock {
    ApiBlock {
        nonce,
        hash: format!("h{}-{}", shard, nonce),
        shard,
        tx_count,
        epoch: 1,
        round: nonce * 2,
        timestamp: 1_000 + nonce,
    }
}

fn tx(hash: &str, data: Option<&str>) -> ApiTransaction {
    ApiTransaction {
        tx_hash: hash.to_string(),
        sender: "s".to_string(),
        receiver: "r".to_string(),
        value: "10".to_string(),
        status: "success".to_string(),
        gas_used: 1,
        gas_price: 2,
        gas_limit: 3,
        nonce: 4,
        data: data.map(|d| d.to_string()),
        tx_type: "normal".to_string(),
    }
}

fn expect_fetch(a: &SyncAction) -> (Option<u64>, u64) {
    match a {
        SyncAction::FetchBlocks { from_nonce, delay_secs } => (*from_nonce, *delay_secs),
        other => panic!("expected FetchBlocks, got {:?}", other),
    }
}

#[test]
fn genesis_mode_reads_checkpoint_first() {
    let (s, a) = SyncState::start(1, &cfg(true, 500));
    assert!(matches!(a, SyncAction::LoadCheckpoint { shard: 1 }));
    let (s2, a2) = s.step(SyncEvent::CheckpointLoaded(0));
    assert_eq!(expect_fetch(&a2), (Some(500), 0));
    assert_eq!(s2.cursor(), 500);
}

#[test]
fn positive_checkpoint_is_resumed_from() {
    let (s, _) = SyncState::start(1, &cfg(true, 500));
    let (s2, a2) = s.step(SyncEvent::CheckpointLoaded(9_000));
    assert_eq!(expect_fetch(&a2), (Some(9_000), 0));
    assert_eq!(s2.cursor(), 9_000);
}

#[test]
fn zero_genesis_without_checkpoint_lists_latest() {
    let (s, _) = SyncState::start(0, &cfg(true, 0));
    let (_, a) = s.step(SyncEvent::CheckpointLoaded(0));
    assert_eq!(expect_fetch(&a), (None, 0));
}

#[test]
fn failed_checkpoint_read_aborts() {
    let (s, _) = SyncState::start(1, &cfg(true, 500));
    let (s2, a2) = s.step(SyncEvent::CheckpointFailed);
    assert!(matches!(a2, SyncAction::Abort));
    let (_, a3) = s2.step(SyncEvent::BlocksFailed);
    assert!(matches!(a3, SyncAction::Abort));
}

#[test]
fn live_mode_lists_latest_at_once() {
    let (s, a) = SyncState::start(2, &cfg(false, 500));
    assert_eq!(expect_fetch(&a), (None, 0));
    assert_eq!(s.shard(), 2);
    assert_eq!(s.cursor(), 0);
}

#[test]
fn empty_listing_finishes() {
    let (s, _) = SyncState::start(2, &cfg(false, 0));
    let (s2, a2) = s.step(SyncEvent::BlocksFetched(vec![]));
    assert!(matches!(a2, SyncAction::Finish));
    let (_, a3) = s2.step(SyncEvent::BlocksFetched(vec![block(1, 2, 0)]));
    assert!(matches!(a3, SyncAction::Finish));
}

#[test]
fn failed_listing_is_retried_after_pause() {
    let (s, _) = SyncState::start(1, &cfg(true, 0));
    let (s, _) = s.step(SyncEvent::CheckpointLoaded(70));
    let (s2, a2) = s.step(SyncEvent::BlocksFailed);
    assert_eq!(expect_fetch(&a2), (Some(70), RETRY_DELAY_SECS));
    assert_eq!(s2.cursor(), 70);
}

#[test]
fn listing_without_shard_blocks_moves_past_it() {
    let (s, _) = SyncState::start(1, &cfg(true, 0));
    let (s, _) = s.step(SyncEvent::CheckpointLoaded(10));
    let (s2, a2) = s.step(SyncEvent::BlocksFetched(vec![block(10, 0, 1), block(11, 2, 0), block(12, 0, 0)]));
    assert_eq!(expect_fetch(&a2), (Some(13), 0));
    assert_eq!(s2.cursor(), 13);
}

#[test]
fn cursor_past_max_aborts() {
    let (s, _) = SyncState::start(1, &cfg(true, 0));
    let (s, _) = s.step(SyncEvent::CheckpointLoaded(10));
    let (_, a) = s.step(SyncEvent::BlocksFetched(vec![block(u64::MAX, 0, 0)]));
    assert!(matches!(a, SyncAction::Abort));
}

#[test]
fn mismatched_event_aborts() {
    let (s, _) = SyncState::start(1, &cfg(false, 0));
    let (_, a) = s.step(SyncEvent::CheckpointSaved { ok: true });
    assert!(matches!(a, SyncAction::Abort));
}

#[test]
fn full_batch_from_genesis() {
    let (s, _) = SyncState::start(1, &cfg(true, 0));
    let (s, _) = s.step(SyncEvent::CheckpointLoaded(100));
    let listing = vec![block(100, 0, 5), block(101, 1, 2), block(102, 1, 0), block(103, 2, 1), block(104, 1, 1)];
    let (s, a) = s.step(SyncEvent::BlocksFetched(listing));
    let rows = match a {
        SyncAction::StoreBlocks { rows } => rows,
        other => panic!("expected StoreBlocks, got {:?}", other),
    };
    let nonces: Vec<u64> = rows.iter().map(|r| r.nonce).collect();
    assert_eq!(nonces, vec![101, 102, 104]);
    assert!(rows.iter().all(|r| r.shard == 1));
    assert_eq!(rows[0].hash, "h1-101");

    // a failed write does not stop the batch
    let (s, a) = s.step(SyncEvent::BlocksStored { ok: false });
    match &a {
        SyncAction::FetchTransactions { block_hash, shard } => {
            assert_eq!(block_hash, "h1-101");
            assert_eq!(*shard, 1);
        },
        other => panic!("expected FetchTransactions, got {:?}", other),
    }
    let (s, a) = s.step(SyncEvent::TransactionsFetched(vec![tx("t1", Some("delegate")), tx("t2", None)]));
    // block 102 holds no transactions: it is skipped
    match &a {
        SyncAction::FetchTransactions { block_hash, .. } => assert_eq!(block_hash, "h1-104"),
        other => panic!("expected FetchTransactions, got {:?}", other),
    }
    let (s, a) = s.step(SyncEvent::TransactionsFetched(vec![tx("t3", Some("ESDTTransfer@00"))]));
    let rows = match a {
        SyncAction::StoreTransactions { rows } => rows,
        other => panic!("expected StoreTransactions, got {:?}", other),
    };
    let summary: Vec<(String, u64, String, u64)> =
        rows.iter().map(|r| (r.tx_hash.clone(), r.block_nonce, r.tx_type.clone(), r.timestamp)).collect();
    assert_eq!(
        summary,
        vec![
            ("t1".to_string(), 101, "delegate".to_string(), 1_101),
            ("t2".to_string(), 101, "egld_transfer".to_string(), 1_101),
            ("t3".to_string(), 104, "esdt_transfer".to_string(), 1_104),
        ]
    );
    assert!(rows.iter().all(|r| r.shard == 1 && r.value_units == Some(10)));
    assert_eq!(rows[2].block_hash, "h1-104");

    let (s, a) = s.step(SyncEvent::TransactionsStored { ok: true });
    assert!(matches!(a, SyncAction::SaveCheckpoint { shard: 1, last_nonce: 104 }));
    assert_eq!(s.cursor(), 105);
    let (_, a) = s.step(SyncEvent::CheckpointSaved { ok: false });
    assert_eq!(expect_fetch(&a), (Some(105), 0));
}

#[test]
fn failed_transaction_read_is_skipped() {
    let (s, _) = SyncState::start(0, &cfg(true, 0));
    let (s, _) = s.step(SyncEvent::CheckpointLoaded(1));
    let (s, _) = s.step(SyncEvent::BlocksFetched(vec![block(1, 0, 3), block(2, 0, 1)]));
    let (s, _) = s.step(SyncEvent::BlocksStored { ok: true });
    let (s, a) = s.step(SyncEvent::TransactionsFailed);
    match &a {
        SyncAction::FetchTransactions { block_hash, .. } => assert_eq!(block_hash, "h0-2"),
        other => panic!("expected FetchTransactions, got {:?}", other),
    }
    let (_, a) = s.step(SyncEvent::TransactionsFetched(vec![tx("x", None)]));
    match a {
        SyncAction::StoreTransactions { rows } => {
            assert_eq!(rows.len(), 1);
            assert_eq!(rows[0].block_nonce, 2);
        },
        other => panic!("expected StoreTransactions, got {:?}", other),
    }
}

#[test]
fn batch_without_transactions_stores_nothing_then_checkpoints() {
    let (s, _) = SyncState::start(3, &cfg(false, 0));
    let (s, _) = s.step(SyncEvent::BlocksFetched(vec![block(40, 3, 0), block(41, 3, 0)]));
    let (s, a) = s.step(SyncEvent::BlocksStored { ok: true });
    match a {
        SyncAction::StoreTransactions { rows } => assert!(rows.is_empty()),
        other => panic!("expected StoreTransactions, got {:?}", other),
    }
    let (s, a) = s.step(SyncEvent::TransactionsStored { ok: false });
    assert!(matches!(a, SyncAction::SaveCheckpoint { shard: 3, last_nonce: 41 }));
    let (_, a) = s.step(SyncEvent::CheckpointSaved { ok: true });
    // following the latest blocks: no nonce, and a pause between batches
    assert_eq!(expect_fetch(&a), (None, POLL_DELAY_SECS));
}

#[test]
fn failures_other_than_checkpoint_read_never_stop_the_sync() {
    let (mut s, _) = SyncState::start(1, &cfg(true, 0));
    let events = vec![
        SyncEvent::CheckpointLoaded(5),
        SyncEvent::BlocksFailed,
        SyncEvent::BlocksFetched(vec![block(5, 1, 2), block(6, 1, 0)]),
        SyncEvent::BlocksStored { ok: false },
        SyncEvent::TransactionsFailed,
        SyncEvent::TransactionsStored { ok: false },
        SyncEvent::CheckpointSaved { ok: false },
        SyncEvent::BlocksFailed,
    ];
    for e in events {
        let (t, a) = s.step(e);
        assert!(!matches!(a, SyncAction::Abort | SyncAction::Finish), "stopped with {:?}", a);
        s = t;
    }
    let (_, a) = s.step(SyncEvent::BlocksFetched(vec![]));
    assert!(matches!(a, SyncAction::Finish));
}

#[test]
fn successive_listings_move_forward() {
    let (s, _) = SyncState::start(1, &cfg(true, 0));
    let (s, a) = s.step(SyncEvent::CheckpointLoaded(10));
    assert_eq!(expect_fetch(&a).0, Some(10));
    // a page without blocks of the shard
    let (s, a) = s.step(SyncEvent::BlocksFetched(vec![block(10, 0, 0), block(12, 2, 0)]));
    assert_eq!(expect_fetch(&a).0, Some(13));
    // a failed listing: same start
    let (s, a) = s.step(SyncEvent::BlocksFailed);
    assert_eq!(expect_fetch(&a).0, Some(13));
    // a page with blocks of the shard: the next listing starts after its last one
    let (s, _) = s.step(SyncEvent::BlocksFetched(vec![block(13, 1, 0), block(14, 1, 0), block(15, 0, 0)]));
    let (s, _) = s.step(SyncEvent::BlocksStored { ok: true });
    let (s, _) = s.step(SyncEvent::TransactionsStored { ok: true });
    let (_, a) = s.step(SyncEvent::CheckpointSaved { ok: true });
    assert_eq!(expect_fetch(&a).0, Some(15));
}
