use mvx_observer::models::{ApiBlock, ApiTransaction};
use mvx_observer::normalizer::{classify_transaction, normalize_block, normalize_transaction, parse_value_units};

fn tx(tx_type: &str, data: Option<&str>, value: &str) -> ApiTransaction {
    ApiTransaction {
        tx_hash: "aa11".to_string(),
        sender: "erd1sender".to_string(),
        receiver: "erd1receiver".to_string(),
        value: value.to_string(),
        status: "success".to_string(),
        gas_used: 50_000,
        gas_price: 1_000_000_000,
        gas_limit: 60_000,
        nonce: 7,
        data: data.map(|d| d.to_string()),
        tx_type: tx_type.to_string(),
    }
}

#[test]
fn normalize_block_copies_every_field() {
    let block = ApiBlock {
        nonce: 42,
        hash: "abcdef".to_string(),
        shard: 1,
        tx_count: 3,
        epoch: 9,
        round: 77,
        timestamp: 1_700_000_000,
    };
    let row = normalize_block(&block);
    assert_eq!(row.nonce, 42);
    assert_eq!(row.hash, "abcdef");
    assert_eq!(row.shard, 1);
    assert_eq!(row.tx_count, 3);
    assert_eq!(row.epoch, 9);
    assert_eq!(row.round, 77);
    assert_eq!(row.timestamp, 1_700_000_000);
}

#[test]
fn declared_type_other_than_normal_is_kept() {
    assert_eq!(classify_transaction(&tx("unsigned", Some("delegate"), "5")), "unsigned");
    assert_eq!(classify_transaction(&tx("reward", None, "0")), "reward");
}

#[test]
fn normal_type_is_classified_by_data_prefix() {
    assert_eq!(classify_transaction(&tx("normal", Some("delegate@01"), "0")), "delegate");
    assert_eq!(classify_transaction(&tx("normal", Some("unDelegate@05"), "0")), "undelegate");
    assert_eq!(classify_transaction(&tx("", Some("claimRewards"), "0")), "claim_rewards");
    assert_eq!(classify_transaction(&tx("normal", Some("ESDTTransfer@544f4b@0a"), "0")), "esdt_transfer");
    assert_eq!(classify_transaction(&tx("normal", Some("MultiESDTNFTTransfer@01"), "0")), "nft_transfer");
    assert_eq!(classify_transaction(&tx("normal", Some("swapTokens@01"), "0")), "smart_contract");
}

#[test]
fn prefix_must_start_the_data() {
    assert_eq!(classify_transaction(&tx("normal", Some("xdelegate"), "0")), "smart_contract");
    assert_eq!(classify_transaction(&tx("normal", Some("delegat"), "0")), "smart_contract");
}

#[test]
fn without_data_the_value_decides() {
    assert_eq!(classify_transaction(&tx("normal", None, "1000")), "egld_transfer");
    assert_eq!(classify_transaction(&tx("normal", Some(""), "1000")), "egld_transfer");
    assert_eq!(classify_transaction(&tx("normal", None, "0")), "unknown");
    assert_eq!(classify_transaction(&tx("", None, "")), "unknown");
}

#[test]
fn value_units_are_read_in_decimal() {
    assert_eq!(parse_value_units(""), Some(0));
    assert_eq!(parse_value_units("0"), Some(0));
    assert_eq!(parse_value_units("1000000000000000000"), Some(1_000_000_000_000_000_000));
    assert_eq!(parse_value_units("+15"), Some(15));
    assert_eq!(parse_value_units("007"), Some(7));
    assert_eq!(parse_value_units("340282366920938463463374607431768211455"), Some(u128::MAX));
}

#[test]
fn value_units_reject_what_is_no_number() {
    assert_eq!(parse_value_units("340282366920938463463374607431768211456"), None);
    assert_eq!(parse_value_units("-1"), None);
    assert_eq!(parse_value_units("+"), None);
    assert_eq!(parse_value_units("1.5"), None);
    assert_eq!(parse_value_units(" 1"), None);
    assert_eq!(parse_value_units("abc"), None);
}

#[test]
fn normalize_transaction_tags_the_block() {
    let t = tx("normal", Some("delegate"), "2500000000000000000");
    let row = normalize_transaction(&t, "blockhash", 99, 2, 1_650_000_000);
    assert_eq!(row.tx_hash, "aa11");
    assert_eq!(row.block_hash, "blockhash");
    assert_eq!(row.block_nonce, 99);
    assert_eq!(row.shard, 2);
    assert_eq!(row.sender, "erd1sender");
    assert_eq!(row.receiver, "erd1receiver");
    assert_eq!(row.value_units, Some(2_500_000_000_000_000_000));
    assert_eq!(row.value_raw, "2500000000000000000");
    assert_eq!(row.status, "success");
    assert_eq!(row.gas_used, 50_000);
    assert_eq!(row.gas_price, 1_000_000_000);
    assert_eq!(row.gas_limit, 60_000);
    assert_eq!(row.nonce, 7);
    assert_eq!(row.tx_type, "delegate");
    assert_eq!(row.timestamp, 1_650_000_000);
}

#[test]
fn unparseable_value_keeps_its_text() {
    let row = normalize_transaction(&tx("normal", None, "n/a"), "h", 1, 0, 5);
    assert_eq!(row.value_units, None);
    assert_eq!(row.value_raw, "n/a");
    assert_eq!(row.tx_type, "egld_transfer");
}
