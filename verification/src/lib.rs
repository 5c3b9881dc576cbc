//! Verified core of a MultiversX block observer: the records read from the
//! MultiversX API, the rows written to ClickHouse, the rules that turn the
//! former into the latter, and the per-shard synchronisation state machine.

pub mod api;
pub mod config;
pub mod models;
pub mod normalizer;
pub mod storage;
pub mod sync;
pub mod text;
