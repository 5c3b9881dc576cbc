use mvx_observer::storage::{schema_statements, BLOCKS_TABLE, CHECKPOINT_TABLE, TRANSACTIONS_TABLE};

#[test]
fn schema_creates_database_then_tables() {
    let stmts = schema_statements("mvx");
    assert_eq!(stmts.len(), 4);
    assert_eq!(stmts[0], "CREATE DATABASE IF NOT EXISTS mvx");
    assert_eq!(stmts[1], BLOCKS_TABLE);
    assert_eq!(stmts[2], TRANSACTIONS_TABLE);
    assert_eq!(stmts[3], CHECKPOINT_TABLE);
    assert!(stmts[1].contains("ORDER BY (shard, nonce)"));
    assert!(stmts[2].contains("ORDER BY (shard, block_nonce, tx_hash)"));
    assert!(stmts[3].contains("ReplacingMergeTree(updated_at)"));
}
