use mvx_observer::api::{blocks_url, gateway_transactions, transactions_url};
use mvx_observer::config::ApiConfig;
use mvx_observer::models::{ApiTransaction, GatewayBlock, GatewayData, GatewayResponse, MiniBlock};

fn cfg() -> ApiConfig {
    ApiConfig {
        base_url: "https://api.multiversx.com".to_string(),
        gateway_url: "https://gateway.multiversx.com".to_string(),
        block_size: 100,
        request_delay_ms: 250,
    }
}

fn tx(hash: &str) -> ApiTransaction {
    ApiTransaction {
        tx_hash: hash.to_string(),
        sender: String::new(),
        receiver: String::new(),
        value: "0".to_string(),
        status: String::new(),
        gas_used: 0,
        gas_price: 0,
        gas_limit: 0,
        nonce: 0,
        data: None,
        tx_type: String::new(),
    }
}

#[test]
fn blocks_url_from_nonce() {
    assert_eq!(
        blocks_url(&cfg(), Some(12345)),
        "https://api.multiversx.com/blocks?size=100&nonce=12345&order=asc"
    );
}

#[test]
fn blocks_url_latest() {
    assert_eq!(blocks_url(&cfg(), None), "https://api.multiversx.com/blocks?size=100");
}

#[test]
fn transactions_url_names_shard_and_hash() {
    assert_eq!(
        transactions_url(&cfg(), "deadbeef", 4294967295),
        "https://gateway.multiversx.com/block/4294967295/by-hash/deadbeef?withTxs=true"
    );
}

#[test]
fn gateway_transactions_in_mini_block_order() {
    let resp = GatewayResponse {
        data: GatewayData {
            block: GatewayBlock {
                mini_blocks: vec![
                    MiniBlock { transactions: vec![tx("a"), tx("b")] },
                    MiniBlock { transactions: vec![] },
                    MiniBlock { transactions: vec![tx("c")] },
                ],
            },
        },
    };
    let hashes: Vec<String> = gateway_transactions(resp).into_iter().map(|t| t.tx_hash).collect();
    assert_eq!(hashes, vec!["a", "b", "c"]);
}

#[test]
fn gateway_without_mini_blocks_has_no_transactions() {
    let resp = GatewayResponse { data: GatewayData { block: GatewayBlock { mini_blocks: vec![] } } };
    assert!(gateway_transactions(resp).is_empty());
}
