//! The ClickHouse schema and the statements the observer sends.
use vstd::prelude::*;
use vstd::string::*;

verus! {

/// The statement that creates the database, when it is missing.
pub open spec fn create_database_text(database: Seq<char>) -> Seq<char> {
    "CREATE DATABASE IF NOT EXISTS "@ + database
}

/// The `blocks` table, one row per block, deduplicated by `(shard, nonce)`.
pub const BLOCKS_TABLE: &'static str = "CREATE TABLE IF NOT EXISTS blocks (
                nonce UInt64,
                hash String,
                shard UInt32,
                tx_count UInt32,
                epoch UInt32,
                round UInt64,
                timestamp UInt64
            )
            ENGINE = ReplacingMergeTree()
            PARTITION BY toYYYYMM(toDateTime(timestamp))
            ORDER BY (shard, nonce)";

/// The `transactions` table, deduplicated by `(shard, block_nonce, tx_hash)`.
pub const TRANSACTIONS_TABLE: &'static str = "CREATE TABLE IF NOT EXISTS transactions (
                tx_hash String,
                block_hash String,
                block_nonce UInt64,
                shard UInt32,
                sender String,
                receiver String,
                value_egld Float64,
                value_raw String,
                status String,
                gas_used UInt64,
                gas_price UInt64,
                gas_limit UInt64,
                nonce UInt64,
                tx_type String,
                timestamp UInt64
            )
            ENGINE = ReplacingMergeTree()
            PARTITION BY toYYYYMM(toDateTime(timestamp))
            ORDER BY (shard, block_nonce, tx_hash)";

/// The `sync_checkpoint` table: the last nonce stored per shard, the newest
/// entry of a shard winning.
pub const CHECKPOINT_TABLE: &'static str = "CREATE TABLE IF NOT EXISTS sync_checkpoint (
                shard UInt32,
                last_nonce UInt64,
                updated_at DateTime DEFAULT now()
            )
            ENGINE = ReplacingMergeTree(updated_at)
            ORDER BY shard";

/// Reads the newest checkpoint of a shard (bound to the shard).
pub const CHECKPOINT_QUERY: &'static str = "SELECT last_nonce FROM sync_checkpoint WHERE shard = ? ORDER BY updated_at DESC LIMIT 1";

/// Records a checkpoint (bound to the shard, then the nonce).
pub const CHECKPOINT_INSERT: &'static str = "INSERT INTO sync_checkpoint (shard, last_nonce) VALUES (?, ?)";

/// The table that block rows go to.
pub const BLOCKS_TABLE_NAME: &'static str = "blocks";

/// The table that transaction rows go to.
pub const TRANSACTIONS_TABLE_NAME: &'static str = "transactions";

/// The statements that set the schema up, in the order they are run: the
/// database, then the `blocks`, `transactions` and `sync_checkpoint` tables.
pub fn schema_statements(database: &str) -> (stmts: Vec<String>)
    ensures
        stmts@.len() == 4,
        stmts@[0]@ == create_database_text(database@),
        stmts@[1]@ == BLOCKS_TABLE@,
        stmts@[2]@ == TRANSACTIONS_TABLE@,
        stmts@[3]@ == CHECKPOINT_TABLE@,
{
    let mut create = "CREATE DATABASE IF NOT EXISTS ".to_owned();
    create.append(database);
    let mut stmts: Vec<String> = Vec::new();
    stmts.push(create);
    stmts.push(BLOCKS_TABLE.to_owned());
    stmts.push(TRANSACTIONS_TABLE.to_owned());
    stmts.push(CHECKPOINT_TABLE.to_owned());
    stmts
}

/// The database statement begins with `CREATE DATABASE IF NOT EXISTS ` and
/// ends with the database's name, whole and unchanged.
pub proof fn law_create_database_names_database(database: Seq<char>)
    ensures
        ({
            let stmt = create_database_text(database);
            let head = "CREATE DATABASE IF NOT EXISTS "@;
            &&& stmt.len() == head.len() + database.len()
            &&& stmt.subrange(0, head.len() as int) == head
            &&& stmt.subrange(head.len() as int, stmt.len() as int) == database
        }),
{
    let stmt = create_database_text(database);
    let head = "CREATE DATABASE IF NOT EXISTS "@;
    assert(stmt.subrange(0, head.len() as int) =~= head);
    assert(stmt.subrange(head.len() as int, stmt.len() as int) =~= database);
}

} // verus!
