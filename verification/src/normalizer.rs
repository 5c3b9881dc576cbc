//! Turning API records into table rows.
use vstd::prelude::*;
use crate::models::{opt_text, ApiBlock, ApiTransaction, BlockRow, BlockRowView, TransactionRow, TransactionRowView};
use crate::text::{all_digits, canonical_decimal, decimal_value, is_digit, unsigned_digits, is_prefix_of, parse_u128, parse_u128_spec, same_text, starts_with};

verus! {

/// The `blocks` row of an API block: every field carried over unchanged.
pub open spec fn block_row_of(block: ApiBlock) -> BlockRowView {
    BlockRowView {
        nonce: block.nonce,
        hash: block.hash@,
        shard: block.shard,
        tx_count: block.tx_count,
        epoch: block.epoch,
        round: block.round,
        timestamp: block.timestamp,
    }
}

/// The `blocks` row of an API block: every field is carried over unchanged.
pub fn normalize_block(block: &ApiBlock) -> (row: BlockRow)
    ensures
        row@ == block_row_of(*block),
{
    BlockRow {
        nonce: block.nonce,
        hash: block.hash.clone(),
        shard: block.shard,
        tx_count: block.tx_count,
        epoch: block.epoch,
        round: block.round,
        timestamp: block.timestamp,
    }
}

/// The amount that a transaction's `value` text denotes, in the smallest
/// unit: an empty text is zero, any other text is read as a `u128` in
/// decimal, and `None` stands for a text that is no such number.
pub open spec fn value_units_of(raw: Seq<char>) -> Option<u128> {
    if raw.len() == 0 {
        Some(0)
    } else {
        parse_u128_spec(raw)
    }
}

/// Reads the amount of a transaction's `value` text (see [`value_units_of`]).
pub fn parse_value_units(raw: &str) -> (units: Option<u128>)
    ensures
        units == value_units_of(raw@),
{
    if raw.is_empty() || same_text(raw, "0") {
        proof {
            reveal_strlit("0");
            if raw@.len() > 0 {
                assert(raw@ == seq!['0']);
                assert(raw@.drop_last() =~= Seq::<char>::empty());
                assert(decimal_value(raw@.drop_last()) == 0);
                assert(decimal_value(raw@) == 0);
                assert(all_digits(raw@));
            }
        }
        return Some(0);
    }
    parse_u128(raw)
}

/// `data` is present and begins with `prefix`.
pub open spec fn data_starts_with(data: Option<Seq<char>>, prefix: Seq<char>) -> bool {
    match data {
        Some(d) => is_prefix_of(prefix, d),
        None => false,
    }
}

/// The kind of a transaction. A declared type other than `normal` is kept;
/// otherwise the call data decides by its prefix (`delegate`, `unDelegate`,
/// `claimRewards`, `ESDTTransfer`, `MultiESDTNFTTransfer`), any other
/// non-empty call data is a smart-contract call, and without call data a
/// non-zero value makes an EGLD transfer; what is left is unknown.
pub open spec fn kind_of(tx_type: Seq<char>, data: Option<Seq<char>>, value: Seq<char>) -> Seq<char> {
    if tx_type.len() != 0 && tx_type != "normal"@ {
        tx_type
    } else if data_starts_with(data, "delegate"@) {
        "delegate"@
    } else if data_starts_with(data, "unDelegate"@) {
        "undelegate"@
    } else if data_starts_with(data, "claimRewards"@) {
        "claim_rewards"@
    } else if data_starts_with(data, "ESDTTransfer"@) {
        "esdt_transfer"@
    } else if data_starts_with(data, "MultiESDTNFTTransfer"@) {
        "nft_transfer"@
    } else if data is Some && data->0.len() != 0 {
        "smart_contract"@
    } else if value != "0"@ && value.len() != 0 {
        "egld_transfer"@
    } else {
        "unknown"@
    }
}

/// The kind of a transaction (see [`kind_of`]).
pub fn classify_transaction(tx: &ApiTransaction) -> (kind: String)
    ensures
        kind@ == kind_of(tx.tx_type@, opt_text(tx.data), tx.value@),
{
    if !tx.tx_type.as_str().is_empty() && !same_text(tx.tx_type.as_str(), "normal") {
        return tx.tx_type.clone();
    }
    match &tx.data {
        Some(data) => {
            let d = data.as_str();
            if starts_with(d, "delegate") {
                return "delegate".to_owned();
            }
            if starts_with(d, "unDelegate") {
                return "undelegate".to_owned();
            }
            if starts_with(d, "claimRewards") {
                return "claim_rewards".to_owned();
            }
            if starts_with(d, "ESDTTransfer") {
                return "esdt_transfer".to_owned();
            }
            if starts_with(d, "MultiESDTNFTTransfer") {
                return "nft_transfer".to_owned();
            }
            if !d.is_empty() {
                return "smart_contract".to_owned();
            }
        },
        None => {},
    }
    if !same_text(tx.value.as_str(), "0") && !tx.value.as_str().is_empty() {
        "egld_transfer".to_owned()
    } else {
        "unknown".to_owned()
    }
}

/// The `transactions` row of a gateway transaction found in the block with
/// the given hash, nonce and timestamp, synchronised for `shard`.
pub open spec fn transaction_row_of(
    tx: ApiTransaction,
    block_hash: Seq<char>,
    block_nonce: u64,
    shard: u32,
    timestamp: u64,
) -> TransactionRowView {
    TransactionRowView {
        tx_hash: tx.tx_hash@,
        block_hash: block_hash,
        block_nonce: block_nonce,
        shard: shard,
        sender: tx.sender@,
        receiver: tx.receiver@,
        value_units: value_units_of(tx.value@),
        value_raw: tx.value@,
        status: tx.status@,
        gas_used: tx.gas_used,
        gas_price: tx.gas_price,
        gas_limit: tx.gas_limit,
        nonce: tx.nonce,
        tx_type: kind_of(tx.tx_type@, opt_text(tx.data), tx.value@),
        timestamp: timestamp,
    }
}

/// The `transactions` row of a gateway transaction (see [`transaction_row_of`]).
pub fn normalize_transaction(
    tx: &ApiTransaction,
    block_hash: &str,
    block_nonce: u64,
    shard: u32,
    timestamp: u64,
) -> (row: TransactionRow)
    ensures
        row@ == transaction_row_of(*tx, block_hash@, block_nonce, shard, timestamp),
{
    TransactionRow {
        tx_hash: tx.tx_hash.clone(),
        block_hash: block_hash.to_owned(),
        block_nonce,
        shard,
        sender: tx.sender.clone(),
        receiver: tx.receiver.clone(),
        value_units: parse_value_units(tx.value.as_str()),
        value_raw: tx.value.clone(),
        status: tx.status.clone(),
        gas_used: tx.gas_used,
        gas_price: tx.gas_price,
        gas_limit: tx.gas_limit,
        nonce: tx.nonce,
        tx_type: classify_transaction(tx),
        timestamp,
    }
}

/// `data` is present and its text begins with `prefix`.
pub open spec fn data_begins_with(data: Option<Seq<char>>, prefix: Seq<char>) -> bool {
    data matches Some(d) && prefix.len() <= d.len() && d.subrange(0, prefix.len() as int) == prefix
}

/// `data` is present, not empty, and begins with none of the prefixes that
/// name a kind of call.
pub open spec fn data_is_other_call(data: Option<Seq<char>>) -> bool {
    &&& data matches Some(d) && d.len() != 0
    &&& !data_begins_with(data, "delegate"@)
    &&& !data_begins_with(data, "unDelegate"@)
    &&& !data_begins_with(data, "claimRewards"@)
    &&& !data_begins_with(data, "ESDTTransfer"@)
    &&& !data_begins_with(data, "MultiESDTNFTTransfer"@)
}

/// No text begins with two of the prefixes that name a kind of call: they
/// all differ in their first character.
proof fn lemma_call_prefixes_exclusive(data: Option<Seq<char>>)
    ensures
        data_begins_with(data, "delegate"@) ==> !data_begins_with(data, "unDelegate"@) && !data_begins_with(
            data,
            "claimRewards"@,
        ) && !data_begins_with(data, "ESDTTransfer"@) && !data_begins_with(data, "MultiESDTNFTTransfer"@),
        data_begins_with(data, "unDelegate"@) ==> !data_begins_with(data, "claimRewards"@) && !data_begins_with(
            data,
            "ESDTTransfer"@,
        ) && !data_begins_with(data, "MultiESDTNFTTransfer"@),
        data_begins_with(data, "claimRewards"@) ==> !data_begins_with(data, "ESDTTransfer"@) && !data_begins_with(
            data,
            "MultiESDTNFTTransfer"@,
        ),
        data_begins_with(data, "ESDTTransfer"@) ==> !data_begins_with(data, "MultiESDTNFTTransfer"@),
{
    reveal_strlit("delegate");
    reveal_strlit("unDelegate");
    reveal_strlit("claimRewards");
    reveal_strlit("ESDTTransfer");
    reveal_strlit("MultiESDTNFTTransfer");
    if let Some(d) = data {
        let first = |p: Seq<char>| d.subrange(0, p.len() as int)[0];
        assert(data_begins_with(data, "delegate"@) ==> first("delegate"@) == 'd');
        assert(data_begins_with(data, "unDelegate"@) ==> first("unDelegate"@) == 'u');
        assert(data_begins_with(data, "claimRewards"@) ==> first("claimRewards"@) == 'c');
        assert(data_begins_with(data, "ESDTTransfer"@) ==> first("ESDTTransfer"@) == 'E');
        assert(data_begins_with(data, "MultiESDTNFTTransfer"@) ==> first("MultiESDTNFTTransfer"@) == 'M');
    }
}

/// How a transaction is classified, rule by rule:
/// - a declared type that is neither empty nor `normal` is the kind, as is;
/// - otherwise call data beginning with `delegate`, `unDelegate`,
///   `claimRewards`, `ESDTTransfer` or `MultiESDTNFTTransfer` makes the kind
///   `delegate`, `undelegate`, `claim_rewards`, `esdt_transfer` or
///   `nft_transfer`, whatever the value;
/// - other non-empty call data makes a `smart_contract` call, whatever the
///   value;
/// - without call data (or with empty call data) a value other than empty
///   or `0` makes an `egld_transfer`, and anything else is `unknown`.
pub proof fn law_classification_rules(tx_type: Seq<char>, data: Option<Seq<char>>, value: Seq<char>)
    ensures
        tx_type.len() != 0 && tx_type != "normal"@ ==> kind_of(tx_type, data, value) == tx_type,
        tx_type.len() == 0 || tx_type == "normal"@ ==> {
            &&& data_begins_with(data, "delegate"@) ==> kind_of(tx_type, data, value) == "delegate"@
            &&& data_begins_with(data, "unDelegate"@) ==> kind_of(tx_type, data, value) == "undelegate"@
            &&& data_begins_with(data, "claimRewards"@) ==> kind_of(tx_type, data, value) == "claim_rewards"@
            &&& data_begins_with(data, "ESDTTransfer"@) ==> kind_of(tx_type, data, value) == "esdt_transfer"@
            &&& data_begins_with(data, "MultiESDTNFTTransfer"@) ==> kind_of(tx_type, data, value)
                == "nft_transfer"@
            &&& data_is_other_call(data) ==> kind_of(tx_type, data, value) == "smart_contract"@
            &&& !(data matches Some(d) && d.len() != 0) ==> kind_of(tx_type, data, value) == if value.len() != 0
                && value != "0"@ {
                "egld_transfer"@
            } else {
                "unknown"@
            }
        },
{
    lemma_call_prefixes_exclusive(data);
    if let Some(d) = data {
        if d.len() == 0 {
            reveal_strlit("delegate");
            reveal_strlit("unDelegate");
            reveal_strlit("claimRewards");
            reveal_strlit("ESDTTransfer");
            reveal_strlit("MultiESDTNFTTransfer");
        }
    }
}

/// A transaction row holds the transaction's own fields (hash, parties,
/// value text, status, gas and nonce), the block's hash, nonce and
/// timestamp and the shard it was synchronised for, the amount its value
/// text denotes, and the transaction's classification; so a declared type
/// other than empty or `normal` is the row's type as is.
pub proof fn law_transaction_row_fields(
    tx: ApiTransaction,
    block_hash: Seq<char>,
    block_nonce: u64,
    shard: u32,
    timestamp: u64,
)
    ensures
        ({
            let row = transaction_row_of(tx, block_hash, block_nonce, shard, timestamp);
            &&& row.tx_hash == tx.tx_hash@
            &&& row.sender == tx.sender@
            &&& row.receiver == tx.receiver@
            &&& row.value_raw == tx.value@
            &&& row.status == tx.status@
            &&& row.gas_used == tx.gas_used
            &&& row.gas_price == tx.gas_price
            &&& row.gas_limit == tx.gas_limit
            &&& row.nonce == tx.nonce
            &&& row.block_hash == block_hash
            &&& row.block_nonce == block_nonce
            &&& row.shard == shard
            &&& row.timestamp == timestamp
            &&& row.value_units == if tx.value@.len() == 0 {
                Some(0u128)
            } else {
                parse_u128_spec(tx.value@)
            }
            &&& row.tx_type == kind_of(tx.tx_type@, opt_text(tx.data), tx.value@)
            &&& (tx.tx_type@.len() != 0 && tx.tx_type@ != "normal"@ ==> row.tx_type == tx.tx_type@)
        }),
{
    law_classification_rules(tx.tx_type@, opt_text(tx.data), tx.value@);
}

/// A block row holds the block's nonce, hash, shard, transaction count,
/// epoch, round and timestamp, each unchanged.
pub proof fn law_block_row_fields(block: ApiBlock)
    ensures
        ({
            let row = block_row_of(block);
            &&& row.nonce == block.nonce
            &&& row.hash == block.hash@
            &&& row.shard == block.shard
            &&& row.tx_count == block.tx_count
            &&& row.epoch == block.epoch
            &&& row.round == block.round
            &&& row.timestamp == block.timestamp
        }),
{
}

/// The amount of a value text: zero for an empty text; otherwise the text
/// is read as a `u128` in decimal, so the canonical writing of a number
/// gives that number, a `+` in front changes nothing, and a text with any
/// other character than digits (after an optional leading `+`) gives none.
pub proof fn law_value_units_rules(raw: Seq<char>, n: nat)
    ensures
        raw.len() == 0 ==> value_units_of(raw) == Some(0u128),
        canonical_decimal(raw, n) && n <= u128::MAX ==> value_units_of(raw) == Some(n as u128)
            && value_units_of(seq!['+'] + raw) == Some(n as u128),
        (exists|i: int| 0 <= i < raw.len() && !is_digit(#[trigger] raw[i]) && !(i == 0 && raw[0] == '+'))
            ==> value_units_of(raw) is None,
        raw == seq!['+'] ==> value_units_of(raw) is None,
{
    if canonical_decimal(raw, n) {
        let p = seq!['+'] + raw;
        assert(p.skip(1) =~= raw);
    }
    if exists|i: int| 0 <= i < raw.len() && !is_digit(#[trigger] raw[i]) && !(i == 0 && raw[0] == '+') {
        let i = choose|i: int| 0 <= i < raw.len() && !is_digit(#[trigger] raw[i]) && !(i == 0 && raw[0] == '+');
        let d = unsigned_digits(raw);
        if raw[0] == '+' {
            assert(d[i - 1] == raw[i]);
        } else {
            assert(d[i] == raw[i]);
        }
    }
    if raw == seq!['+'] {
        assert(unsigned_digits(raw).len() == 0);
    }
}

} // verus!
