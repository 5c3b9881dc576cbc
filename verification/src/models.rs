//! Records of the MultiversX API and rows of the ClickHouse tables.
use vstd::prelude::*;

verus! {

/// A block as listed by the MultiversX API (`/blocks`).
#[derive(Debug, Clone)]
pub struct ApiBlock {
    pub nonce: u64,
    pub hash: String,
    pub shard: u32,
    pub tx_count: u32,
    pub epoch: u32,
    pub round: u64,
    pub timestamp: u64,
}

/// The gateway's answer to a block query (`/block/{shard}/by-hash/{hash}`).
#[derive(Debug)]
pub struct GatewayResponse {
    pub data: GatewayData,
}

/// The `data` member of a gateway answer.
#[derive(Debug)]
pub struct GatewayData {
    pub block: GatewayBlock,
}

/// A block as the gateway reports it: its mini-blocks.
#[derive(Debug)]
pub struct GatewayBlock {
    pub mini_blocks: Vec<MiniBlock>,
}

/// A mini-block: the transactions it holds.
#[derive(Debug)]
pub struct MiniBlock {
    pub transactions: Vec<ApiTransaction>,
}

/// A transaction as the gateway reports it.
#[derive(Debug, Clone)]
pub struct ApiTransaction {
    pub tx_hash: String,
    pub sender: String,
    pub receiver: String,
    pub value: String,
    pub status: String,
    pub gas_used: u64,
    pub gas_price: u64,
    pub gas_limit: u64,
    pub nonce: u64,
    pub data: Option<String>,
    pub tx_type: String,
}

/// A row of the `blocks` table.
#[derive(Debug, Clone)]
pub struct BlockRow {
    pub nonce: u64,
    pub hash: String,
    pub shard: u32,
    pub tx_count: u32,
    pub epoch: u32,
    pub round: u64,
    pub timestamp: u64,
}

/// A row of the `transactions` table. The amount is kept as the integer
/// number of the smallest unit that `value_raw` denotes (`None` where
/// `value_raw` is no decimal number); the table's EGLD amount is that
/// integer divided by 10^18.
#[derive(Debug, Clone)]
pub struct TransactionRow {
    pub tx_hash: String,
    pub block_hash: String,
    pub block_nonce: u64,
    pub shard: u32,
    pub sender: String,
    pub receiver: String,
    pub value_units: Option<u128>,
    pub value_raw: String,
    pub status: String,
    pub gas_used: u64,
    pub gas_price: u64,
    pub gas_limit: u64,
    pub nonce: u64,
    pub tx_type: String,
    pub timestamp: u64,
}

/// The contents of a [`BlockRow`], its texts as character sequences.
pub struct BlockRowView {
    pub nonce: u64,
    pub hash: Seq<char>,
    pub shard: u32,
    pub tx_count: u32,
    pub epoch: u32,
    pub round: u64,
    pub timestamp: u64,
}

impl View for BlockRow {
    type V = BlockRowView;

    open spec fn view(&self) -> BlockRowView {
        BlockRowView {
            nonce: self.nonce,
            hash: self.hash@,
            shard: self.shard,
            tx_count: self.tx_count,
            epoch: self.epoch,
            round: self.round,
            timestamp: self.timestamp,
        }
    }
}

/// The contents of a [`TransactionRow`], its texts as character sequences.
pub struct TransactionRowView {
    pub tx_hash: Seq<char>,
    pub block_hash: Seq<char>,
    pub block_nonce: u64,
    pub shard: u32,
    pub sender: Seq<char>,
    pub receiver: Seq<char>,
    pub value_units: Option<u128>,
    pub value_raw: Seq<char>,
    pub status: Seq<char>,
    pub gas_used: u64,
    pub gas_price: u64,
    pub gas_limit: u64,
    pub nonce: u64,
    pub tx_type: Seq<char>,
    pub timestamp: u64,
}

impl View for TransactionRow {
    type V = TransactionRowView;

    open spec fn view(&self) -> TransactionRowView {
        TransactionRowView {
            tx_hash: self.tx_hash@,
            block_hash: self.block_hash@,
            block_nonce: self.block_nonce,
            shard: self.shard,
            sender: self.sender@,
            receiver: self.receiver@,
            value_units: self.value_units,
            value_raw: self.value_raw@,
            status: self.status@,
            gas_used: self.gas_used,
            gas_price: self.gas_price,
            gas_limit: self.gas_limit,
            nonce: self.nonce,
            tx_type: self.tx_type@,
            timestamp: self.timestamp,
        }
    }
}

/// An optional text as an optional character sequence.
pub open spec fn opt_text(o: Option<String>) -> Option<Seq<char>> {
    match o {
        Some(s) => Some(s@),
        None => None,
    }
}

} // verus!
