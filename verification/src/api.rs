//! The requests sent to the MultiversX API and the reading of its answers.
use vstd::prelude::*;
use vstd::string::*;
use crate::config::ApiConfig;
use crate::models::{ApiTransaction, GatewayResponse, MiniBlock};
use crate::text::{canonical_decimal, decimal_text, law_decimal_text_is_canonical, push_decimal};

verus! {

/// The address of the block listing: `size` blocks, from `nonce` upwards
/// when one is given, else the latest ones.
pub open spec fn blocks_url_text(base_url: Seq<char>, block_size: u32, from_nonce: Option<u64>) -> Seq<char> {
    match from_nonce {
        Some(nonce) => base_url + "/blocks?size="@ + decimal_text(block_size as nat) + "&nonce="@
            + decimal_text(nonce as nat) + "&order=asc"@,
        None => base_url + "/blocks?size="@ + decimal_text(block_size as nat),
    }
}

/// The address of the block listing (see [`blocks_url_text`]).
pub fn blocks_url(cfg: &ApiConfig, from_nonce: Option<u64>) -> (url: String)
    ensures
        url@ == blocks_url_text(cfg.base_url@, cfg.block_size, from_nonce),
{
    let mut url = cfg.base_url.clone();
    url.append("/blocks?size=");
    push_decimal(&mut url, cfg.block_size as u64);
    match from_nonce {
        Some(nonce) => {
            url.append("&nonce=");
            push_decimal(&mut url, nonce);
            url.append("&order=asc");
        },
        None => {},
    }
    url
}

/// The gateway address of one block of a shard, with its transactions.
pub open spec fn transactions_url_text(gateway_url: Seq<char>, block_hash: Seq<char>, shard: u32) -> Seq<char> {
    gateway_url + "/block/"@ + decimal_text(shard as nat) + "/by-hash/"@ + block_hash + "?withTxs=true"@
}

/// The gateway address of one block (see [`transactions_url_text`]).
pub fn transactions_url(cfg: &ApiConfig, block_hash: &str, shard: u32) -> (url: String)
    ensures
        url@ == transactions_url_text(cfg.gateway_url@, block_hash@, shard),
{
    let mut url = cfg.gateway_url.clone();
    url.append("/block/");
    push_decimal(&mut url, shard as u64);
    url.append("/by-hash/");
    url.append(block_hash);
    url.append("?withTxs=true");
    url
}

/// The transactions of a list of mini-blocks, mini-block after mini-block.
pub open spec fn transactions_of(mini_blocks: Seq<MiniBlock>) -> Seq<ApiTransaction> {
    mini_blocks.map_values(|mb: MiniBlock| mb.transactions@).flatten()
}

/// The transactions of a gateway block, in the order of its mini-blocks.
pub fn gateway_transactions(resp: GatewayResponse) -> (txs: Vec<ApiTransaction>)
    ensures
        txs@ == transactions_of(resp.data.block.mini_blocks@),
{
    let mut rest = resp.data.block.mini_blocks;
    let ghost all = rest@;
    let mut txs: Vec<ApiTransaction> = Vec::new();
    while rest.len() > 0
        invariant
            txs@ + transactions_of(rest@) == transactions_of(all),
        decreases rest.len(),
    {
        let ghost before = rest@;
        let mut mb = rest.remove(0);
        proof {
            let f = |m: MiniBlock| m.transactions@;
            assert(before.map_values(f).drop_first() =~= rest@.map_values(f));
            assert(before.map_values(f).first() == mb.transactions@);
        }
        let ghost added = mb.transactions@;
        let ghost prev = txs@;
        txs.append(&mut mb.transactions);
        assert(transactions_of(before) == added + transactions_of(rest@));
        assert(txs@ + transactions_of(rest@) =~= prev + (added + transactions_of(rest@)));
    }
    assert(transactions_of(rest@) =~= Seq::<ApiTransaction>::empty());
    txs
}

/// The block listing's address asks for exactly the configured number of
/// blocks: after the base address comes `/blocks?size=` and the canonical
/// decimal writing of `block_size`; when a start nonce is given, then comes
/// `&nonce=`, the canonical decimal writing of that nonce, and `&order=asc`,
/// and nothing else.
pub proof fn law_blocks_url_names_size_and_nonce(base_url: Seq<char>, block_size: u32, from_nonce: Option<u64>)
    ensures
        exists|size: Seq<char>|
            #![trigger canonical_decimal(size, block_size as nat)]
            canonical_decimal(size, block_size as nat) && match from_nonce {
                Some(nonce) => exists|start: Seq<char>|
                    #![trigger canonical_decimal(start, nonce as nat)]
                    canonical_decimal(start, nonce as nat) && blocks_url_text(base_url, block_size, from_nonce)
                        == base_url + "/blocks?size="@ + size + "&nonce="@ + start + "&order=asc"@,
                None => blocks_url_text(base_url, block_size, from_nonce) == base_url + "/blocks?size="@ + size,
            },
{
    law_decimal_text_is_canonical(block_size as nat);
    let size = decimal_text(block_size as nat);
    if let Some(nonce) = from_nonce {
        law_decimal_text_is_canonical(nonce as nat);
        let start = decimal_text(nonce as nat);
        assert(canonical_decimal(start, nonce as nat));
    }
    assert(canonical_decimal(size, block_size as nat));
}

/// The gateway address names the shard by its canonical decimal writing and
/// carries the whole block hash, unchanged, between `/by-hash/` and
/// `?withTxs=true`.
pub proof fn law_transactions_url_keeps_whole_hash(gateway_url: Seq<char>, block_hash: Seq<char>, shard: u32)
    ensures
        exists|digits: Seq<char>|
            #![trigger canonical_decimal(digits, shard as nat)]
            canonical_decimal(digits, shard as nat) && transactions_url_text(gateway_url, block_hash, shard)
                == gateway_url + "/block/"@ + digits + "/by-hash/"@ + block_hash + "?withTxs=true"@,
{
    law_decimal_text_is_canonical(shard as nat);
    assert(canonical_decimal(decimal_text(shard as nat), shard as nat));
}

/// The gateway's transactions are those of its mini-blocks, mini-block
/// after mini-block, each mini-block's in its own order: none for no
/// mini-block, and one more mini-block appends its transactions at the end.
pub proof fn law_transactions_by_mini_block(mini_blocks: Seq<MiniBlock>, mb: MiniBlock)
    ensures
        transactions_of(Seq::empty()) == Seq::<ApiTransaction>::empty(),
        transactions_of(mini_blocks.push(mb)) == transactions_of(mini_blocks) + mb.transactions@,
{
    let f = |m: MiniBlock| m.transactions@;
    let all = mini_blocks.push(mb).map_values(f);
    assert(all =~= mini_blocks.map_values(f).push(mb.transactions@));
    all.lemma_flatten_and_flatten_alt_are_equivalent();
    mini_blocks.map_values(f).lemma_flatten_and_flatten_alt_are_equivalent();
    assert(all.drop_last() =~= mini_blocks.map_values(f));
    assert(Seq::<MiniBlock>::empty().map_values(f) =~= Seq::<Seq<ApiTransaction>>::empty());
}

} // verus!
