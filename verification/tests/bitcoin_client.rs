use blockchain_gateway::client::bitcoin::requests::{BitcoinClientImpl, BLOCK_TXS_LIMIT};
use blockchain_gateway::client::bitcoin::responses::{
    decimal_string_to_satoshis, Block, MaybeCoinbaseVin, RpcRawTransaction,
    RpcRawTransactionWithMaybeCoinbaseVins, ScriptPubKey, UtxoResponse, UtxosResponse, Vin, Vout,
};
use blockchain_gateway::client::bitcoin::{balance_of, rpc_tx_to_tx, sum_entries};
use blockchain_gateway::client::error::{ErrorContext, ErrorKind};
use blockchain_gateway::client::http_client::{HttpMethod, RpcDialect, RpcParam};
use blockchain_gateway::config::Mode;
use blockchain_gateway::models::address::BitcoinAddress;
use blockchain_gateway::models::amount::Amount;
use blockchain_gateway::models::currency::Currency;
use blockchain_gateway::models::transaction::{BlockchainTransactionEntry, RawBitcoinTransaction};
use blockchain_gateway::models::utxo::Utxo;

fn btc(text: &str) -> Amount {
    decimal_string_to_satoshis(text).unwrap()
}

fn vout(addresses: &[&str], value: &str) -> Vout {
    Vout {
        script_pub_key: ScriptPubKey {
            addresses: addresses.iter().map(|a| a.to_string()).collect(),
            typ: "pubkeyhash".to_string(),
        },
        value: btc(value),
    }
}

fn input_tx(txid: &str, vouts: Vec<Vout>) -> RpcRawTransactionWithMaybeCoinbaseVins {
    RpcRawTransactionWithMaybeCoinbaseVins {
        txid: txid.to_string(),
        vin: vec![MaybeCoinbaseVin { txid: None, vout: None }],
        vout: vouts,
        confirmations: 100,
    }
}

fn vin(txid: &str, index: usize) -> Vin {
    Vin { txid: txid.to_string(), vout: index }
}

fn t1(vins: Vec<Vin>) -> RpcRawTransaction {
    RpcRawTransaction {
        txid: "T1".to_string(),
        vin: vins,
        vout: vec![vout(&["B"], "0.79")],
        // the count of the node, which is 1 in the newest block
        confirmations: 1,
    }
}

#[test]
fn btc_single_transaction_fee_math() {
    let in_txs = vec![
        input_tx("I1", vec![vout(&["A"], "0.5")]),
        input_tx("I2", vec![vout(&["X"], "9.0"), vout(&["A"], "0.3")]),
    ];
    let tx = rpc_tx_to_tx(t1(vec![vin("I1", 0), vin("I2", 1)]), in_txs, 7, 7).unwrap();
    assert_eq!(tx.fee, Amount::new(1_000_000));
    assert_eq!(tx.from, vec!["A".to_string(), "A".to_string()]);
    assert_eq!(
        tx.to,
        vec![BlockchainTransactionEntry { address: "B".to_string(), value: Amount::new(79_000_000) }]
    );
    assert_eq!(tx.confirmations, 0);
    assert_eq!(tx.currency, Currency::Btc);
    assert_eq!(tx.hash, "T1");
    assert_eq!(tx.block_number, 7);
    assert_eq!(tx.erc20_operation_kind, None);
}

#[test]
fn btc_p2sh_filtering_keeps_fee_correct() {
    let in_txs = vec![
        input_tx("I1", vec![vout(&["A"], "0.5")]),
        input_tx("I2", vec![vout(&[], "0.3")]),
    ];
    let tx = rpc_tx_to_tx(t1(vec![vin("I1", 0), vin("I2", 0)]), in_txs, 7, 7).unwrap();
    assert_eq!(tx.fee, Amount::new(1_000_000));
    assert_eq!(tx.from, vec!["A".to_string()]);
    // the fee and the outputs together are what the inputs bring
    let to_sum = sum_entries(&tx.to).unwrap();
    assert_eq!(tx.fee.checked_add(to_sum), Some(Amount::new(80_000_000)));
}

#[test]
fn btc_vout_without_address_gets_zero() {
    let tx = RpcRawTransaction {
        txid: "T".to_string(),
        vin: vec![],
        vout: vec![vout(&[], "0.0"), vout(&["first", "second"], "0.0")],
        confirmations: 3,
    };
    let tx = rpc_tx_to_tx(tx, vec![], 1, 4).unwrap();
    assert_eq!(tx.to[0].address, "0");
    assert_eq!(tx.to[1].address, "first");
    assert_eq!(tx.fee, Amount::new(0));
    assert_eq!(tx.from.len(), 0);
    assert_eq!(tx.confirmations, 3);
    assert_eq!(tx.block_number, 1);
}

#[test]
fn btc_confirmations_are_counted_from_the_tip() {
    let record = |block_number: u64, tip: u64| {
        let in_txs = vec![input_tx("I1", vec![vout(&["A"], "1")])];
        rpc_tx_to_tx(t1(vec![vin("I1", 0)]), in_txs, block_number, tip).unwrap()
    };
    assert_eq!(record(100, 100).confirmations, 0);
    assert_eq!(record(100, 101).confirmations, 1);
    assert_eq!(record(100, 106).confirmations, 6);
    assert_eq!(record(0, 700_000).confirmations, 700_000);
    // never negative
    assert_eq!(record(100, 99).confirmations, 0);
    assert_eq!(record(100, 0).confirmations, 0);
    assert_eq!(record(100, 106).block_number, 100);
}

#[test]
fn btc_input_that_cannot_be_resolved() {
    // the transaction was not fetched
    let e = rpc_tx_to_tx(t1(vec![vin("I1", 0)]), vec![], 7, 7).unwrap_err();
    assert_eq!(e.kind, ErrorKind::Internal);
    assert_eq!(e.context, Some(ErrorContext::BitcoinRpcConversion));
    // the transaction has no such output
    let in_txs = vec![input_tx("I1", vec![vout(&["A"], "5.0")])];
    let e = rpc_tx_to_tx(t1(vec![vin("I1", 1)]), in_txs, 7, 7).unwrap_err();
    assert_eq!(e.context, Some(ErrorContext::BitcoinRpcConversion));
}

#[test]
fn btc_outputs_beyond_inputs_overflow() {
    let in_txs = vec![input_tx("I1", vec![vout(&["A"], "0.78999999")])];
    let e = rpc_tx_to_tx(t1(vec![vin("I1", 0)]), in_txs, 7, 7).unwrap_err();
    assert_eq!(e.kind, ErrorKind::Internal);
    assert_eq!(e.context, Some(ErrorContext::Overflow));
    // sums that leave the range of an amount
    let big = Vout {
        script_pub_key: ScriptPubKey { addresses: vec![], typ: String::new() },
        value: Amount::max_value(),
    };
    let in_txs = vec![input_tx("I1", vec![big.clone(), big])];
    let e = rpc_tx_to_tx(t1(vec![vin("I1", 0), vin("I1", 1)]), in_txs, 7, 7).unwrap_err();
    assert_eq!(e.context, Some(ErrorContext::Overflow));
}

#[test]
fn btc_last_fetched_transaction_of_an_id_counts() {
    let in_txs = vec![
        input_tx("I1", vec![vout(&["old"], "1.0")]),
        input_tx("I1", vec![vout(&["new"], "2.0")]),
    ];
    let tx = rpc_tx_to_tx(t1(vec![vin("I1", 0)]), in_txs, 7, 7).unwrap();
    assert_eq!(tx.from, vec!["new".to_string()]);
    assert_eq!(tx.fee, Amount::new(121_000_000));
}

#[test]
fn btc_balance_is_sum_of_utxos() {
    let utxo = |v: u128| Utxo { tx_hash: "h".to_string(), index: 0, value: Amount::new(v) };
    assert_eq!(balance_of(&vec![]).unwrap(), Amount::new(0));
    assert_eq!(balance_of(&vec![utxo(5), utxo(7), utxo(1)]).unwrap(), Amount::new(13));
    let e = balance_of(&vec![utxo(u128::MAX), utxo(1)]).unwrap_err();
    assert_eq!(e.context, Some(ErrorContext::Overflow));
    assert_eq!(e.kind, ErrorKind::Internal);
}

fn block_with(n: usize) -> Block {
    Block {
        hash: "H".to_string(),
        previousblockhash: "P".to_string(),
        tx: (0..n).map(|i| format!("tx{}", i)).collect(),
        height: 10,
        confirmations: 1,
    }
}

#[test]
fn block_transactions_skip_coinbase_and_chunk_by_ten() {
    assert_eq!(BLOCK_TXS_LIMIT, 10);
    assert_eq!(BitcoinClientImpl::block_transactions(&block_with(0)).len(), 0);
    assert_eq!(BitcoinClientImpl::block_transactions(&block_with(1)).len(), 0);
    assert_eq!(BitcoinClientImpl::block_transactions(&block_with(2)), vec![vec!["tx1".to_string()]]);
    let chunks = BitcoinClientImpl::block_transactions(&block_with(11));
    assert_eq!(chunks.len(), 1);
    assert_eq!(chunks[0].len(), 10);
    assert_eq!(chunks[0][0], "tx1");
    assert_eq!(chunks[0][9], "tx10");
    let chunks = BitcoinClientImpl::block_transactions(&block_with(12));
    assert_eq!(chunks.len(), 2);
    assert_eq!(chunks[1], vec!["tx11".to_string()]);
    let chunks = BitcoinClientImpl::block_transactions(&block_with(26));
    assert_eq!(chunks.iter().map(|c| c.len()).collect::<Vec<_>>(), vec![10, 10, 5]);
    let flat: Vec<String> = chunks.into_iter().flatten().collect();
    assert_eq!(flat, block_with(26).tx[1..].to_vec());
}

fn client(mode: Mode) -> BitcoinClientImpl {
    BitcoinClientImpl::new(mode, "http://node:8332".to_string(), "user".to_string(), "pass".to_string())
}

#[test]
fn bitcoin_requests_carry_basic_authorization() {
    let c = client(Mode::Production);
    let r = c.get_best_block_hash();
    assert_eq!(r.method, HttpMethod::Post);
    assert_eq!(r.uri, "http://node:8332");
    // base64 of "user:pass"
    assert_eq!(r.authorization, Some("Basic dXNlcjpwYXNz".to_string()));
    assert_eq!(r.content_type, None);
    let call = r.call.unwrap();
    assert_eq!(call.dialect, RpcDialect::Bitcoin);
    assert_eq!(call.method, "getbestblockhash");
    assert_eq!(call.params, vec![]);
}

#[test]
fn bitcoin_requests_name_method_and_params() {
    let c = client(Mode::Stage);
    let call = c.get_block_by_hash("H3".to_string()).call.unwrap();
    assert_eq!(call.method, "getblock");
    assert_eq!(call.params, vec![RpcParam::Text("H3".to_string())]);
    let call = c.get_transaction("T1".to_string()).call.unwrap();
    assert_eq!(call.method, "getrawtransaction");
    assert_eq!(call.params, vec![RpcParam::Text("T1".to_string()), RpcParam::Flag(true)]);
    let call = c.send_raw_tx(RawBitcoinTransaction::new("0100".to_string())).call.unwrap();
    assert_eq!(call.method, "sendrawtransaction");
    assert_eq!(call.params, vec![RpcParam::Text("0100".to_string())]);
    let requests = c.input_requests(&t1(vec![vin("I1", 0), vin("I2", 1), vin("I1", 3)]));
    let ids: Vec<RpcParam> = requests.iter().map(|r| r.call.clone().unwrap().params[0].clone()).collect();
    assert_eq!(
        ids,
        vec![
            RpcParam::Text("I1".to_string()),
            RpcParam::Text("I2".to_string()),
            RpcParam::Text("I1".to_string())
        ]
    );
    assert_eq!(requests[0], c.get_transaction("I1".to_string()));
}

#[test]
fn utxo_lookup_depends_on_mode() {
    let address = || BitcoinAddress::from_str("1BoatSLRHtKNngkdXEeobR76b53LETtpyT").unwrap();
    let r = client(Mode::Production).get_utxos(address());
    assert_eq!(r.method, HttpMethod::Get);
    assert_eq!(r.uri, "https://blockchain.info/unspent?active=1BoatSLRHtKNngkdXEeobR76b53LETtpyT");
    assert_eq!(r.authorization, None);
    assert_eq!(r.call, None);
    for mode in [Mode::Nightly, Mode::Stable, Mode::Stage] {
        let r = client(mode).get_utxos(address());
        assert_eq!(r.uri, "https://testnet.blockchain.info/unspent?active=1BoatSLRHtKNngkdXEeobR76b53LETtpyT");
    }
}

#[test]
fn utxos_of_response_keep_order() {
    let response = UtxosResponse {
        unspent_outputs: vec![
            UtxoResponse { tx_hash_big_endian: "a".to_string(), tx_output_n: 1, value: Amount::new(10) },
            UtxoResponse { tx_hash_big_endian: "b".to_string(), tx_output_n: 0, value: Amount::new(20) },
        ],
    };
    assert_eq!(
        BitcoinClientImpl::utxos_of(response),
        vec![
            Utxo { tx_hash: "a".to_string(), index: 1, value: Amount::new(10) },
            Utxo { tx_hash: "b".to_string(), index: 0, value: Amount::new(20) },
        ]
    );
}
