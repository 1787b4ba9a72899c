use blockchain_gateway::client::error::{ErrorContext, ErrorKind};
use blockchain_gateway::client::ethereum::normalize::{
    eth_response_to_partial_tx, low_64, parse_hex, parse_hex_u64, partial_tx_to_tx,
    stq_log_to_partial_tx, ADDRESS_LENGTH,
};
use blockchain_gateway::client::ethereum::requests::{
    balance_of, block_number_of, block_window, blocks_to_walk, nonce_of, prefix_0x,
    to_hex_quantity, tx_hash_of, EthereumClientImpl,
};
use blockchain_gateway::client::ethereum::responses::{
    default_tx_log_idx, BalanceResponse, BlockByNumberResponse, BlockResponse, NonceResponse,
    PartialBlockchainTransaction, PostTransactionsResponse, ShortBlock, ShortBlockResponse,
    StqResponse, StqResponseItem, TransactionReceipt, TransactionResponse,
};
use blockchain_gateway::client::ethereum::walk::{
    copy_log, eth_transactions_of_block, has_value, is_log_of, logs_of_transaction,
    stq_transactions_of_parent,
};
use blockchain_gateway::client::ethereum::{
    bytes_to_hex, hex_to_bytes, serialize_address, to_padded_32_bytes,
};
use blockchain_gateway::client::http_client::{HttpMethod, RpcDialect, RpcParam};
use blockchain_gateway::config::Mode;
use blockchain_gateway::models::address::EthereumAddress;
use blockchain_gateway::models::amount::Amount;
use blockchain_gateway::models::currency::Currency;
use blockchain_gateway::models::transaction::{
    BlockchainTransactionEntry, Erc20OperationKind, RawEthereumTransaction,
};

const TRANSFER: &str = "0xddf252ad1be2c89b69c2b068fc378daa952ba7f163c4a11628f55a4df523b3ef";
const APPROVAL: &str = "0x8c5be1e5ebec7d5bd14f71427d1e84f3dd0314c0f7b2291e5b200ac8c7c3b925";
const SENDER: &str = "0x000000000000000000000000aaaaaaaaaaaaaaaaaaaaaaaaaaaaaaaaaaaaaaaa";
const RECIPIENT: &str = "0x000000000000000000000000bbbbbbbbbbbbbbbbbbbbbbbbbbbbbbbbbbbbbbbb";
const OTHER: &str = "0x000000000000000000000000cccccccccccccccccccccccccccccccccccccccc";

fn eth_client(mode: Mode) -> EthereumClientImpl {
    EthereumClientImpl::new(
        mode,
        "KEY".to_string(),
        "0xcontract".to_string(),
        TRANSFER.to_string(),
        APPROVAL.to_string(),
        "0x70a08231".to_string(),
    )
}

fn native_tx() -> TransactionResponse {
    TransactionResponse {
        block_number: "0x10".to_string(),
        hash: "0xabc123".to_string(),
        from: "0x1111111111111111111111111111111111111111".to_string(),
        to: Some("0x2222222222222222222222222222222222222222".to_string()),
        value: "0xde0b6b3a7640000".to_string(),
        gas_price: "0x12a05f200".to_string(),
    }
}

fn receipt(block: &str, gas: &str) -> TransactionReceipt {
    TransactionReceipt { block_number: block.to_string(), gas_used: gas.to_string() }
}

#[test]
fn eth_native_with_receipt_join() {
    let partial = eth_response_to_partial_tx(&native_tx()).unwrap();
    assert_eq!(partial.gas_price, Amount::new(5_000_000_000));
    assert_eq!(partial.block_number, 16);
    let tx = partial_tx_to_tx(partial, Some(&receipt("0x10", "0x5208")), 0x12).unwrap();
    assert_eq!(tx.fee, Amount::new(105_000_000_000_000));
    assert_eq!(tx.confirmations, 2);
    assert_eq!(tx.hash, "abc123");
    assert_eq!(tx.from, vec!["1111111111111111111111111111111111111111".to_string()]);
    assert_eq!(
        tx.to,
        vec![BlockchainTransactionEntry {
            address: "2222222222222222222222222222222222222222".to_string(),
            value: Amount::new(1_000_000_000_000_000_000),
        }]
    );
    assert_eq!(tx.currency, Currency::Eth);
    assert_eq!(tx.block_number, 16);
    assert_eq!(tx.erc20_operation_kind, None);
}

#[test]
fn eth_contract_creation_has_recipient_zero() {
    let mut resp = native_tx();
    resp.to = None;
    let partial = eth_response_to_partial_tx(&resp).unwrap();
    assert_eq!(partial.to[0].address, "0");
    assert_eq!(partial.from.len(), 1);
    assert_eq!(partial.to.len(), 1);
}

#[test]
fn eth_malformed_fields_are_hex_errors() {
    let cases: Vec<Box<dyn Fn(&mut TransactionResponse)>> = vec![
        Box::new(|r| r.block_number = "0xzz".to_string()),
        Box::new(|r| r.value = "0x".to_string()),
        Box::new(|r| r.gas_price = "12".to_string()),
        Box::new(|r| r.gas_price = "0x100000000000000000000000000000000".to_string()),
        Box::new(|r| r.from = "0".to_string()),
        Box::new(|r| r.to = Some("x".to_string())),
        Box::new(|r| r.hash = "".to_string()),
    ];
    for change in cases {
        let mut resp = native_tx();
        change(&mut resp);
        let e = eth_response_to_partial_tx(&resp).unwrap_err();
        assert_eq!(e.kind, ErrorKind::Internal);
        assert_eq!(e.context, Some(ErrorContext::Hex));
    }
}

#[test]
fn receipt_join_errors() {
    let partial = || eth_response_to_partial_tx(&native_tx()).unwrap();
    let e = partial_tx_to_tx(partial(), None, 0x12).unwrap_err();
    assert_eq!(e.kind, ErrorKind::NoReceipt);
    assert_eq!(e.context, None);
    let e = partial_tx_to_tx(partial(), Some(&receipt("0x10", "0x")), 0x12).unwrap_err();
    assert_eq!((e.kind, e.context), (ErrorKind::Internal, Some(ErrorContext::Hex)));
    let e = partial_tx_to_tx(partial(), Some(&receipt("0xg", "0x5208")), 0x12).unwrap_err();
    assert_eq!((e.kind, e.context), (ErrorKind::Internal, Some(ErrorContext::Hex)));
    let e = partial_tx_to_tx(partial(), Some(&receipt("0x10", "0xffffffffffffffffffffffffffffffff")), 0x12)
        .unwrap_err();
    assert_eq!((e.kind, e.context), (ErrorKind::Internal, Some(ErrorContext::Overflow)));
}

#[test]
fn confirmations_are_never_negative() {
    let partial = || eth_response_to_partial_tx(&native_tx()).unwrap();
    assert_eq!(partial_tx_to_tx(partial(), Some(&receipt("0x10", "0x1")), 0x10).unwrap().confirmations, 0);
    assert_eq!(partial_tx_to_tx(partial(), Some(&receipt("0x11", "0x1")), 0x10).unwrap().confirmations, 0);
    assert_eq!(partial_tx_to_tx(partial(), Some(&receipt("0x0", "0x1")), 0x10).unwrap().confirmations, 16);
}

fn log(topics: &[&str], index: &str) -> StqResponseItem {
    StqResponseItem {
        address: "0xcontract".to_string(),
        topics: topics.iter().map(|t| t.to_string()).collect(),
        data: "0x64".to_string(),
        block_number: "0x20".to_string(),
        transaction_log_index: index.to_string(),
        block_hash: "0xblock".to_string(),
        transaction_hash: "0xDEAD01".to_string(),
    }
}

#[test]
fn erc20_transfer_hash_uniqueness() {
    let c = eth_client(Mode::Production);
    let gas_price = Amount::new(5_000_000_000);
    let first = c.stq_response_to_partial_tx(log(&[TRANSFER, SENDER, RECIPIENT], "0x0"), gas_price).unwrap();
    let second = c.stq_response_to_partial_tx(log(&[TRANSFER, RECIPIENT, OTHER], "0x1"), gas_price).unwrap();
    assert_eq!(first.hash, "DEAD01:0");
    assert_eq!(second.hash, "DEAD01:1");
    assert_eq!(first.from, vec!["a".repeat(40)]);
    assert_eq!(first.to[0].address, "b".repeat(40));
    assert_eq!(second.from, vec!["b".repeat(40)]);
    assert_eq!(second.to[0].address, "c".repeat(40));
    assert_eq!(first.to[0].value, Amount::new(100));
    assert_eq!(first.currency, Currency::Stq);
    assert_eq!(first.block_number, 32);
    assert_eq!(first.erc20_operation_kind, Some(Erc20OperationKind::TransferFrom));
    // both inherit the fee of their transaction, whose receipt is asked for by its own hash
    let a = partial_tx_to_tx(first, Some(&receipt("0x20", "0x5208")), 0x20).unwrap();
    let b = partial_tx_to_tx(second, Some(&receipt("0x20", "0x5208")), 0x20).unwrap();
    assert_eq!(a.fee, Amount::new(105_000_000_000_000));
    assert_eq!(a.fee, b.fee);
    assert_ne!(a.hash, b.hash);
}

#[test]
fn erc20_operation_kind_follows_first_topic() {
    let c = eth_client(Mode::Production);
    let kind = |topic: &str| {
        c.stq_response_to_partial_tx(log(&[topic, SENDER, RECIPIENT], "0xa"), Amount::new(1))
            .unwrap()
    };
    assert_eq!(kind(APPROVAL).erc20_operation_kind, Some(Erc20OperationKind::Approve));
    assert_eq!(kind(TRANSFER).erc20_operation_kind, Some(Erc20OperationKind::TransferFrom));
    assert_eq!(kind("0xother").erc20_operation_kind, None);
    assert_eq!(kind(APPROVAL).hash, "DEAD01:10");
    // the free function takes the topics as arguments
    let same = stq_log_to_partial_tx(
        log(&[TRANSFER, SENDER, RECIPIENT], "0xa"),
        Amount::new(1),
        &TRANSFER.to_string(),
        &APPROVAL.to_string(),
    )
    .unwrap();
    assert_eq!(same.erc20_operation_kind, Some(Erc20OperationKind::Approve));
}

#[test]
fn erc20_log_with_missing_topics_is_topics_error() {
    let c = eth_client(Mode::Production);
    assert_eq!(ADDRESS_LENGTH, 40);
    let too_short = "0x1234";
    let cases: Vec<Vec<&str>> = vec![
        vec![],
        vec![TRANSFER],
        vec![TRANSFER, SENDER],
        vec![TRANSFER, too_short, RECIPIENT],
        vec![TRANSFER, SENDER, too_short],
    ];
    for topics in cases {
        let e = c.stq_response_to_partial_tx(log(&topics, "0x0"), Amount::new(1)).unwrap_err();
        assert_eq!(e.kind, ErrorKind::Internal);
        assert_eq!(e.context, Some(ErrorContext::Topics));
    }
    // with its topics in place, a log with a malformed number is a hex error
    let mut bad = log(&[TRANSFER, SENDER, RECIPIENT], "0x0");
    bad.data = "64".to_string();
    let e = c.stq_response_to_partial_tx(bad, Amount::new(1)).unwrap_err();
    assert_eq!(e.context, Some(ErrorContext::Hex));
    let bad = log(&[TRANSFER, SENDER, RECIPIENT], "zero");
    let e = c.stq_response_to_partial_tx(bad, Amount::new(1)).unwrap_err();
    assert_eq!(e.context, Some(ErrorContext::Hex));
    // the hash of the transaction is no number: whatever it is, the log is normalised
    let mut odd = log(&[TRANSFER, SENDER, RECIPIENT], "0x3");
    odd.transaction_hash = "0".to_string();
    assert_eq!(c.stq_response_to_partial_tx(odd, Amount::new(1)).unwrap().hash, ":3");
    // a topic of exactly 40 characters is an address as it is
    let exact = "d".repeat(40);
    let ok = c.stq_response_to_partial_tx(log(&[TRANSFER, &exact, RECIPIENT], "0x0"), Amount::new(1)).unwrap();
    assert_eq!(ok.from, vec![exact]);
}

#[test]
fn parse_hex_reads_unsigned_numbers() {
    assert_eq!(parse_hex("0x0").unwrap(), 0);
    assert_eq!(parse_hex("0x5208").unwrap(), 21000);
    assert_eq!(parse_hex("0xFf").unwrap(), 255);
    assert_eq!(parse_hex("0x+ff").unwrap(), 255);
    assert_eq!(parse_hex("0x00000010").unwrap(), 16);
    // the first two characters are taken off whatever they are
    assert_eq!(parse_hex("bad").unwrap(), 13);
    assert_eq!(parse_hex("0xffffffffffffffffffffffffffffffff").unwrap(), u128::MAX);
    for bad in ["", "0", "0x", "0x-1", "0x+", "0x1g", "0x 1", "0x100000000000000000000000000000000"] {
        let e = parse_hex(bad).unwrap_err();
        assert_eq!((e.kind, e.context), (ErrorKind::Internal, Some(ErrorContext::Hex)));
    }
    assert_eq!(parse_hex_u64("0xffffffffffffffff").unwrap(), u64::MAX);
    assert_eq!(parse_hex_u64("0x10000000000000000").unwrap_err().context, Some(ErrorContext::Hex));
    assert_eq!(low_64(5), 5);
    assert_eq!(low_64((1u128 << 64) + 7), 7);
}

#[test]
fn hex_and_bytes_round_trip() {
    let samples: Vec<Vec<u8>> = vec![vec![], vec![0], vec![0x0f, 0xf0, 0xab], (0..=255u8).collect()];
    for bytes in samples {
        let hex = bytes_to_hex(&bytes);
        assert_eq!(hex.len(), 2 * bytes.len());
        assert_eq!(hex, hex.to_lowercase());
        assert_eq!(hex_to_bytes(hex).unwrap(), bytes);
    }
    assert_eq!(bytes_to_hex(&[0x00, 0x1f, 0xa0]), "001fa0");
    assert_eq!(hex_to_bytes("001FA0".to_string()).unwrap(), vec![0x00, 0x1f, 0xa0]);
    for bad in ["0", "abc", "zz", "0x12", "1 "] {
        let e = hex_to_bytes(bad.to_string()).unwrap_err();
        assert_eq!(e.kind, ErrorKind::BadRequest);
    }
}

#[test]
fn padded_to_32_bytes() {
    for len in [0usize, 1, 20, 31, 32] {
        let data: Vec<u8> = (0..len).map(|i| (i + 1) as u8).collect();
        let padded = to_padded_32_bytes(&data);
        assert_eq!(padded.len(), 32);
        assert_eq!(&padded[32 - len..], &data[..]);
        assert!(padded[..32 - len].iter().all(|b| *b == 0));
    }
}

#[test]
fn address_as_word() {
    let address = EthereumAddress::from_str(&"ab".repeat(20)).unwrap();
    let word = serialize_address(address).unwrap();
    assert_eq!(word, format!("{}{}", "0".repeat(24), "ab".repeat(20)));
    let e = serialize_address(EthereumAddress::from_str("xyz").unwrap()).unwrap_err();
    assert_eq!(e.kind, ErrorKind::BadRequest);
    let e = serialize_address(EthereumAddress::from_str(&"ab".repeat(33)).unwrap()).unwrap_err();
    assert_eq!(e.kind, ErrorKind::BadRequest);
    assert_eq!(serialize_address(EthereumAddress::from_str(&"ab".repeat(32)).unwrap()).unwrap(), "ab".repeat(32));
}

#[test]
fn ethereum_requests() {
    let c = eth_client(Mode::Production);
    assert_eq!(c.infura_url, "https://mainnet.infura.io/v3/KEY");
    assert_eq!(eth_client(Mode::Stage).infura_url, "https://kovan.infura.io/v3/KEY");
    let address = || EthereumAddress::from_str("abcd").unwrap();
    let r = c.get_nonce(address());
    assert_eq!(r.method, HttpMethod::Post);
    assert_eq!(r.uri, c.infura_url);
    assert_eq!(r.authorization, None);
    assert_eq!(r.content_type, Some("application/json".to_string()));
    let call = r.call.unwrap();
    assert_eq!(call.dialect, RpcDialect::Ethereum);
    assert_eq!(call.method, "eth_getTransactionCount");
    assert_eq!(call.params, vec![RpcParam::Text("0xabcd".to_string()), RpcParam::Text("latest".to_string())]);
    let call = c.get_current_block_number().call.unwrap();
    assert_eq!((call.method.as_str(), call.params.len()), ("eth_blockNumber", 0));
    let call = c.get_block_number_by_hash("ff".to_string()).call.unwrap();
    assert_eq!(call.method, "eth_getBlockByHash");
    assert_eq!(call.params, vec![RpcParam::Text("0xff".to_string()), RpcParam::Flag(false)]);
    let call = c.get_eth_balance(address()).call.unwrap();
    assert_eq!(call.method, "eth_getBalance");
    assert_eq!(call.params, vec![RpcParam::Text("0xabcd".to_string()), RpcParam::Text("latest".to_string())]);
    let call = c.send_raw_tx(RawEthereumTransaction::new("f86c".to_string())).call.unwrap();
    assert_eq!(call.method, "eth_sendRawTransaction");
    assert_eq!(call.params, vec![RpcParam::Text("0xf86c".to_string())]);
    let call = c.get_eth_transactions_for_block(255).call.unwrap();
    assert_eq!(call.method, "eth_getBlockByNumber");
    assert_eq!(call.params, vec![RpcParam::Text("0xff".to_string()), RpcParam::Flag(true)]);
    let call = c.get_eth_partial_transaction("dead".to_string()).call.unwrap();
    assert_eq!(call.method, "eth_getTransactionByHash");
    assert_eq!(call.params, vec![RpcParam::Text("0xdead".to_string())]);
    assert_eq!(to_hex_quantity(0), "0x0");
    assert_eq!(to_hex_quantity(u64::MAX), "0xffffffffffffffff");
    assert_eq!(prefix_0x("12"), "0x12");
}

#[test]
fn stq_balance_request() {
    let c = eth_client(Mode::Production);
    let call = c.get_stq_balance(EthereumAddress::from_str(&"ab".repeat(20)).unwrap()).unwrap().call.unwrap();
    assert_eq!(call.method, "eth_call");
    assert_eq!(
        call.params,
        vec![RpcParam::Message {
            to: "0xcontract".to_string(),
            data: format!("0x70a08231{}{}", "0".repeat(24), "ab".repeat(20)),
        }]
    );
    let e = c.get_stq_balance(EthereumAddress::from_str("nothex").unwrap()).unwrap_err();
    assert_eq!(e.kind, ErrorKind::BadRequest);
}

#[test]
fn log_requests_and_receipt_request() {
    let c = eth_client(Mode::Production);
    let (approval, transfer) = c.get_stq_transactions_for_blocks(16, 18);
    let filter = |topic: &str| RpcParam::LogFilter {
        address: "0xcontract".to_string(),
        topic: topic.to_string(),
        from_block: "0x10".to_string(),
        to_block: "0x12".to_string(),
    };
    let call = approval.call.unwrap();
    assert_eq!(call.method, "eth_getLogs");
    assert_eq!(call.params, vec![filter(APPROVAL)]);
    assert_eq!(transfer.call.unwrap().params, vec![filter(TRANSFER)]);
    let partial = |hash: &str| PartialBlockchainTransaction {
        hash: hash.to_string(),
        from: vec![],
        to: vec![],
        block_number: 0,
        currency: Currency::Stq,
        gas_price: Amount::new(0),
        erc20_operation_kind: None,
    };
    let call = c.get_receipt(&partial("DEAD01:1")).call.unwrap();
    assert_eq!(call.method, "eth_getTransactionReceipt");
    assert_eq!(call.params, vec![RpcParam::Text("0xDEAD01".to_string())]);
    let call = c.get_receipt(&partial("abc123")).call.unwrap();
    assert_eq!(call.params, vec![RpcParam::Text("0xabc123".to_string())]);
}

#[test]
fn block_windows() {
    assert_eq!(block_window(100, 0), None);
    assert_eq!(block_window(100, 1), Some((100, 100)));
    assert_eq!(block_window(100, 5), Some((96, 100)));
    assert_eq!(block_window(100, 100), Some((1, 100)));
    assert_eq!(block_window(100, 101), Some((0, 100)));
    assert_eq!(block_window(100, u64::MAX), Some((0, 100)));
    assert_eq!(block_window(0, 1), Some((0, 0)));
}

#[test]
fn blocks_of_a_window_ascend() {
    assert_eq!(blocks_to_walk(100, 0), Vec::<u64>::new());
    assert_eq!(blocks_to_walk(100, 1), vec![100]);
    assert_eq!(blocks_to_walk(100, 3), vec![98, 99, 100]);
    assert_eq!(blocks_to_walk(2, 5), vec![0, 1, 2]);
    assert_eq!(blocks_to_walk(0, 1), vec![0]);
    assert_eq!(blocks_to_walk(u64::MAX, 2), vec![u64::MAX - 1, u64::MAX]);
}

#[test]
fn token_records_of_one_transaction() {
    let transfer = TRANSFER.to_string();
    let approval = APPROVAL.to_string();
    let mut foreign = log(&[TRANSFER, OTHER, OTHER], "0x0");
    foreign.transaction_hash = "0xBEEF".to_string();
    let logs = vec![
        log(&[TRANSFER, SENDER, RECIPIENT], "0x0"),
        foreign,
        log(&[TRANSFER, RECIPIENT, OTHER], "0x1"),
    ];
    let paid = receipt("0x20", "0x5208");
    let out = stq_transactions_of_parent(
        &logs,
        "DEAD01",
        Amount::new(5_000_000_000),
        &approval,
        &transfer,
        Some(&paid),
        0x22,
    );
    assert!(out.failure.is_none());
    assert_eq!(out.transactions.len(), 2);
    let (a, b) = (&out.transactions[0], &out.transactions[1]);
    assert_eq!((a.hash.as_str(), b.hash.as_str()), ("DEAD01:0", "DEAD01:1"));
    assert_eq!(a.fee, Amount::new(105_000_000_000_000));
    assert_eq!(a.fee, b.fee);
    assert_eq!((a.confirmations, b.confirmations), (2, 2));
    assert_eq!((a.currency, b.currency), (Currency::Stq, Currency::Stq));
    assert_eq!(a.from, vec!["a".repeat(40)]);
    assert_eq!(a.to[0].address, "b".repeat(40));
    assert_eq!(b.from, vec!["b".repeat(40)]);
    assert_eq!(b.to[0].address, "c".repeat(40));
    // without a receipt the first log ends the records
    let out = stq_transactions_of_parent(
        &logs,
        "DEAD01",
        Amount::new(1),
        &approval,
        &transfer,
        None,
        0x22,
    );
    assert_eq!(out.transactions.len(), 0);
    assert_eq!(out.failure.unwrap().kind, ErrorKind::NoReceipt);
    // a log that cannot be read ends the records after those before it
    let mut broken = logs.clone();
    broken[2].data = "0x".to_string();
    let out = stq_transactions_of_parent(
        &broken,
        "DEAD01",
        Amount::new(1),
        &approval,
        &transfer,
        Some(&paid),
        0x22,
    );
    assert_eq!(out.transactions.len(), 1);
    assert_eq!(out.failure.unwrap().context, Some(ErrorContext::Hex));
    // a transaction without logs has no records
    let out = stq_transactions_of_parent(&logs, "none", Amount::new(1), &approval, &transfer, None, 1);
    assert_eq!((out.transactions.len(), out.failure.is_none()), (0, true));
}

#[test]
fn block_yields_transactions_that_move_value() {
    let with_value = |hash: &str, value: &str| {
        let mut tx = native_tx();
        tx.hash = hash.to_string();
        tx.value = value.to_string();
        tx
    };
    let response = |txs: Vec<TransactionResponse>| BlockByNumberResponse {
        result: Some(BlockResponse { number: "0x10".to_string(), transactions: txs }),
    };
    let out = eth_transactions_of_block(response(vec![
        with_value("0x01", "0x5"),
        with_value("0x02", "0x0"),
        with_value("0x03", "0x1"),
    ]));
    assert!(out.failure.is_none());
    let hashes: Vec<&str> = out.transactions.iter().map(|t| t.hash.as_str()).collect();
    assert_eq!(hashes, vec!["01", "03"]);
    assert!(out.transactions.iter().all(has_value));
    // the first transaction that cannot be read ends the block
    let out = eth_transactions_of_block(response(vec![
        with_value("0x01", "0x5"),
        with_value("0x02", "0xzz"),
        with_value("0x03", "0x1"),
    ]));
    let hashes: Vec<&str> = out.transactions.iter().map(|t| t.hash.as_str()).collect();
    assert_eq!(hashes, vec!["01"]);
    assert_eq!(out.failure.unwrap().context, Some(ErrorContext::Hex));
    // a block that the node does not have
    let out = eth_transactions_of_block(BlockByNumberResponse { result: None });
    assert_eq!(out.transactions.len(), 0);
    assert!(out.failure.is_none());
}

#[test]
fn logs_of_one_transaction() {
    let mut a = log(&[TRANSFER, SENDER, RECIPIENT], "0x0");
    a.transaction_hash = "0xaa".to_string();
    let mut b = log(&[TRANSFER, SENDER, RECIPIENT], "0x1");
    b.transaction_hash = "0xbb".to_string();
    let mut c = log(&[APPROVAL, SENDER, RECIPIENT], "0x2");
    c.transaction_hash = "0xaa".to_string();
    let mut short = log(&[], "0x3");
    short.transaction_hash = "a".to_string();
    let logs = vec![a, b, c, short];
    let kept = logs_of_transaction(&logs, "aa");
    let indexes: Vec<&str> = kept.iter().map(|l| l.transaction_log_index.as_str()).collect();
    assert_eq!(indexes, vec!["0x0", "0x2"]);
    assert!(is_log_of(&logs[1], "bb"));
    assert!(!is_log_of(&logs[1], "0xbb"));
    assert!(!is_log_of(&logs[3], "a"));
    assert_eq!(logs_of_transaction(&logs, "cc").len(), 0);
    let copy = copy_log(&logs[2]);
    assert_eq!(copy.topics, logs[2].topics);
    assert_eq!(copy.transaction_hash, "0xaa");
    assert_eq!(copy.data, logs[2].data);
}

#[test]
fn answers_are_read() {
    assert_eq!(nonce_of(&NonceResponse { result: "0x1f".to_string() }).unwrap(), 31);
    assert_eq!(
        nonce_of(&NonceResponse { result: "1f".to_string() }).unwrap_err().context,
        Some(ErrorContext::Hex)
    );
    let block = |n: &str| ShortBlockResponse { result: ShortBlock { number: n.to_string() } };
    assert_eq!(block_number_of(&block("0x12")).unwrap(), 18);
    assert_eq!(block_number_of(&block("0x10000000000000003")).unwrap(), 3);
    assert!(block_number_of(&block("12")).is_err());
    assert_eq!(
        balance_of(&BalanceResponse { result: "0xde0b6b3a7640000".to_string() }).unwrap(),
        Amount::new(1_000_000_000_000_000_000)
    );
    assert!(balance_of(&BalanceResponse { result: "0x".to_string() }).is_err());
    let sent = |s: &str| PostTransactionsResponse { result: s.to_string() };
    assert_eq!(tx_hash_of(&sent("0xabcdef")).unwrap().to_string(), "abcdef");
    assert_eq!(tx_hash_of(&sent("0")).unwrap_err().context, Some(ErrorContext::Hex));
}

#[test]
fn logs_are_concatenated_and_default_index() {
    let a = StqResponse { result: vec![log(&[APPROVAL], "0x0"), log(&[APPROVAL], "0x1")] };
    let b = StqResponse { result: vec![log(&[TRANSFER], "0x2")] };
    let all = a.concat(b);
    let indexes: Vec<&str> = all.result.iter().map(|l| l.transaction_log_index.as_str()).collect();
    assert_eq!(indexes, vec!["0x0", "0x1", "0x2"]);
    assert_eq!(default_tx_log_idx(), "0x0");
}
