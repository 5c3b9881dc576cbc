//! The observer's settings.
use vstd::prelude::*;

verus! {

/// All settings of the observer.
#[derive(Debug, Clone)]
pub struct AppConfig {
    pub api: ApiConfig,
    pub sync: SyncConfig,
    pub clickhouse: ClickhouseConfig,
}

/// Where and how fast to read the MultiversX API.
#[derive(Debug, Clone)]
pub struct ApiConfig {
    pub base_url: String,
    pub gateway_url: String,
    pub block_size: u32,
    pub request_delay_ms: u64,
}

/// What to synchronise: from genesis (resuming from checkpoints) or the
/// latest blocks, and for which shards.
#[derive(Debug, Clone)]
pub struct SyncConfig {
    pub from_genesis: bool,
    pub genesis_nonce: u64,
    pub workers_per_shard: usize,
    pub shards: Vec<u32>,
}

/// How to reach the ClickHouse database.
#[derive(Debug, Clone)]
pub struct ClickhouseConfig {
    pub url: String,
    pub database: String,
    pub username: String,
    pub password: String,
    pub batch_size: usize,
    pub flush_interval_secs: u64,
}

} // verus!
