//! What the Ethereum client asks of its node, and the steps of its walks
//! over recent blocks.
use super::normalize::{
    eth_response_to_partial_tx, parse_hex, parse_hex_u64, spec_eth_response_to_partial_tx,
    spec_low_64, spec_parse_hex, spec_stq_response_to_partial_tx, stq_log_to_partial_tx,
};
use super::responses::{
    BalanceResponse, BlockByNumberResponse, NonceResponse, PartialBlockchainTransaction,
    PartialTransactionView, PostTransactionsResponse, ShortBlockResponse, StqResponseItem,
    StqResponseItemView, TransactionResponseView,
};
use super::{serialize_address, spec_serialize_address};
use crate::client::error::{Error, ErrorContext, ErrorKind};
use crate::client::http_client::{
    HttpMethod, HttpRequest, HttpRequestView, RpcCall, RpcCallView, RpcDialect, RpcParam,
    RpcParamView,
};
use crate::config::Mode;
use crate::models::address::EthereumAddress;
use crate::models::amount::Amount;
use crate::models::transaction::{RawEthereumTransaction, TxHash};
use crate::text::{
    chars_of, find_char, number_text, number_to_text, position_of, skip_chars, spec_skip_chars,
    string_of, string_of_range,
};
use vstd::prelude::*;

verus! {

/// The address of the node for an access key: the main network in
/// production, the test network in every other mode.
pub open spec fn infura_url(mode: Mode, api_key: Seq<char>) -> Seq<char> {
    if mode == Mode::Production {
        "https://mainnet.infura.io/v3/"@ + api_key
    } else {
        "https://kovan.infura.io/v3/"@ + api_key
    }
}

/// A number as the node wants it: `0x`, then lower-case hexadecimal digits
/// without leading zeros.
pub open spec fn hex_quantity(n: nat) -> Seq<char> {
    "0x"@ + number_text(n, true)
}

/// A text behind the prefix `0x`.
pub open spec fn with_0x(s: Seq<char>) -> Seq<char> {
    "0x"@ + s
}

/// What stands before the first colon of a hash: the hash of the
/// transaction, also where the hash names one log of it.
pub open spec fn parent_hash(hash: Seq<char>) -> Seq<char> {
    hash.take(find_char(hash, ':', 0))
}

/// The blocks that a window of `blocks_count` blocks up to `to_block`
/// covers, as the first and the last block; `None` where it covers none. A
/// window that reaches beyond the first block of the chain starts there.
pub open spec fn spec_block_window(to_block: u64, blocks_count: u64) -> Option<(u64, u64)> {
    if blocks_count == 0 {
        None
    } else if blocks_count > to_block {
        Some((0, to_block))
    } else {
        Some(((to_block - blocks_count + 1) as u64, to_block))
    }
}

/// The blocks of a window, from its first to its last.
pub open spec fn spec_blocks_of(window: Option<(u64, u64)>) -> Seq<u64> {
    match window {
        Some(w) => if w.0 <= w.1 {
            Seq::new((w.1 - w.0 + 1) as nat, |i: int| (w.0 + i) as u64)
        } else {
            Seq::empty()
        },
        None => Seq::empty(),
    }
}

/// Writes a number as the node wants it.
pub fn to_hex_quantity(n: u64) -> (r: String)
    ensures
        r@ == hex_quantity(n as nat),
{
    let mut s = String::from_str("0x");
    let digits = string_of(&number_to_text(n as u128, true));
    s.append(digits.as_str());
    s
}

/// Puts `0x` before a text.
pub fn prefix_0x(text: &str) -> (r: String)
    ensures
        r@ == with_0x(text@),
{
    let mut s = String::from_str("0x");
    s.append(text);
    s
}

/// The blocks that a window covers.
pub fn block_window(to_block: u64, blocks_count: u64) -> (r: Option<(u64, u64)>)
    ensures
        r == spec_block_window(to_block, blocks_count),
{
    if blocks_count == 0 {
        None
    } else if blocks_count > to_block {
        Some((0, to_block))
    } else {
        Some((to_block - blocks_count + 1, to_block))
    }
}

/// The blocks that a walk over `blocks_count` blocks up to `to_block`
/// visits: the blocks of its window, each once, from the oldest to the
/// newest.
pub fn blocks_to_walk(to_block: u64, blocks_count: u64) -> (r: Vec<u64>)
    ensures
        r@ == spec_blocks_of(spec_block_window(to_block, blocks_count)),
{
    let mut out: Vec<u64> = Vec::new();
    match block_window(to_block, blocks_count) {
        None => {
            assert(out@ =~= spec_blocks_of(None));
            out
        },
        Some((from, to)) => {
            let mut i: u64 = from;
            while i < to
                invariant
                    from <= i <= to,
                    out@ == Seq::new((i - from) as nat, |k: int| (from + k) as u64),
                decreases to - i,
            {
                out.push(i);
                i += 1;
                assert(out@ =~= Seq::new((i - from) as nat, |k: int| (from + k) as u64));
            }
            out.push(to);
            assert(out@ =~= spec_blocks_of(Some((from, to))));
            out
        },
    }
}

/// The Ethereum client, without its connection: it writes the requests and
/// reads the answers.
#[derive(Debug, Clone)]
pub struct EthereumClientImpl {
    pub infura_url: String,
    pub stq_contract_address: String,
    pub stq_transfer_topic: String,
    pub stq_approval_topic: String,
    pub stq_balance_method: String,
}

impl EthereumClientImpl {
    /// A client for the node of the given mode, with the contract, the two
    /// topics and the balance method of the token.
    pub fn new(
        mode: Mode,
        api_key: String,
        stq_contract_address: String,
        stq_transfer_topic: String,
        stq_approval_topic: String,
        stq_balance_method: String,
    ) -> (r: Self)
        ensures
            r.infura_url@ == infura_url(mode, api_key@),
            r.stq_contract_address@ == stq_contract_address@,
            r.stq_transfer_topic@ == stq_transfer_topic@,
            r.stq_approval_topic@ == stq_approval_topic@,
            r.stq_balance_method@ == stq_balance_method@,
    {
        let mut url = match mode {
            Mode::Production => String::from_str("https://mainnet.infura.io/v3/"),
            _ => String::from_str("https://kovan.infura.io/v3/"),
        };
        url.append(api_key.as_str());
        EthereumClientImpl {
            infura_url: url,
            stq_contract_address,
            stq_transfer_topic,
            stq_approval_topic,
            stq_balance_method,
        }
    }

    /// The request that carries a call to the node: a `POST` of JSON to the
    /// node's address.
    pub open spec fn spec_rpc_request(self, method: Seq<char>, params: Seq<RpcParamView>) -> HttpRequestView {
        HttpRequestView {
            method: HttpMethod::Post,
            uri: self.infura_url@,
            authorization: None,
            content_type: Some("application/json"@),
            call: Some(RpcCallView { dialect: RpcDialect::Ethereum, method, params }),
        }
    }

    /// The request that carries a call to the node.
    pub fn get_rpc_response(&self, method: &str, params: Vec<RpcParam>) -> (r: HttpRequest)
        ensures
            r@ == self.spec_rpc_request(method@, params.deep_view()),
    {
        HttpRequest {
            method: HttpMethod::Post,
            uri: self.infura_url.clone(),
            authorization: None,
            content_type: Some(String::from_str("application/json")),
            call: Some(
                RpcCall {
                    dialect: RpcDialect::Ethereum,
                    method: String::from_str(method),
                    params,
                },
            ),
        }
    }

    fn call_1(&self, method: &str, a: RpcParam) -> (r: HttpRequest)
        ensures
            r@ == self.spec_rpc_request(method@, seq![a@]),
    {
        let mut params: Vec<RpcParam> = Vec::new();
        params.push(a);
        assert(params.deep_view() =~= seq![a@]);
        self.get_rpc_response(method, params)
    }

    fn call_2(&self, method: &str, a: RpcParam, b: RpcParam) -> (r: HttpRequest)
        ensures
            r@ == self.spec_rpc_request(method@, seq![a@, b@]),
    {
        let mut params: Vec<RpcParam> = Vec::new();
        params.push(a);
        params.push(b);
        assert(params.deep_view() =~= seq![a@, b@]);
        self.get_rpc_response(method, params)
    }

    /// Asks for the next nonce of an address: `eth_getTransactionCount` with
    /// the address and `latest`.
    pub fn get_nonce(&self, address: EthereumAddress) -> (r: HttpRequest)
        ensures
            r@ == self.spec_rpc_request(
                "eth_getTransactionCount"@,
                seq![RpcParamView::Text(with_0x(address@)), RpcParamView::Text("latest"@)],
            ),
    {
        self.call_2(
            "eth_getTransactionCount",
            RpcParam::Text(prefix_0x(address.to_string().as_str())),
            RpcParam::Text(String::from_str("latest")),
        )
    }

    /// Asks for the number of the newest block: `eth_blockNumber` without
    /// parameters.
    pub fn get_current_block_number(&self) -> (r: HttpRequest)
        ensures
            r@ == self.spec_rpc_request("eth_blockNumber"@, Seq::empty()),
    {
        let params: Vec<RpcParam> = Vec::new();
        assert(params.deep_view() =~= Seq::<RpcParamView>::empty());
        self.get_rpc_response("eth_blockNumber", params)
    }

    /// Asks for a block by its hash, without its transactions:
    /// `eth_getBlockByHash` with the hash and `false`.
    pub fn get_block_number_by_hash(&self, hash: String) -> (r: HttpRequest)
        ensures
            r@ == self.spec_rpc_request(
                "eth_getBlockByHash"@,
                seq![RpcParamView::Text(with_0x(hash@)), RpcParamView::Flag(false)],
            ),
    {
        self.call_2(
            "eth_getBlockByHash",
            RpcParam::Text(prefix_0x(hash.as_str())),
            RpcParam::Flag(false),
        )
    }

    /// Asks for the balance of an address in wei: `eth_getBalance` with the
    /// address and `latest`.
    pub fn get_eth_balance(&self, address: EthereumAddress) -> (r: HttpRequest)
        ensures
            r@ == self.spec_rpc_request(
                "eth_getBalance"@,
                seq![RpcParamView::Text(with_0x(address@)), RpcParamView::Text("latest"@)],
            ),
    {
        self.call_2(
            "eth_getBalance",
            RpcParam::Text(prefix_0x(address.to_string().as_str())),
            RpcParam::Text(String::from_str("latest")),
        )
    }

    /// Asks for the balance of an address in the token: `eth_call` to the
    /// contract of the token, with the balance method followed by the
    /// address as a word.
    ///
    /// An address that cannot be written as a word is a bad request.
    pub fn get_stq_balance(&self, address: EthereumAddress) -> (r: Result<HttpRequest, Error>)
        ensures
            match r {
                Ok(request) => spec_serialize_address(address@) matches Some(word) && request@
                    == self.spec_rpc_request(
                    "eth_call"@,
                    seq![
                        RpcParamView::Message {
                            to: self.stq_contract_address@,
                            data: self.stq_balance_method@ + word,
                        },
                    ],
                ),
                Err(e) => spec_serialize_address(address@).is_none() && e.is_kind(
                    ErrorKind::BadRequest,
                ),
            },
    {
        let word = serialize_address(address)?;
        let mut data = self.stq_balance_method.clone();
        data.append(word.as_str());
        Ok(
            self.call_1(
                "eth_call",
                RpcParam::Message { to: self.stq_contract_address.clone(), data },
            ),
        )
    }

    /// Hands a signed transaction to the node: `eth_sendRawTransaction` with
    /// the transaction behind `0x`.
    pub fn send_raw_tx(&self, tx: RawEthereumTransaction) -> (r: HttpRequest)
        ensures
            r@ == self.spec_rpc_request(
                "eth_sendRawTransaction"@,
                seq![RpcParamView::Text(with_0x(tx@))],
            ),
    {
        self.call_1("eth_sendRawTransaction", RpcParam::Text(prefix_0x(tx.to_string().as_str())))
    }

    /// Asks for a block with its transactions: `eth_getBlockByNumber` with
    /// the number and `true`.
    pub fn get_eth_transactions_for_block(&self, block: u64) -> (r: HttpRequest)
        ensures
            r@ == self.spec_rpc_request(
                "eth_getBlockByNumber"@,
                seq![RpcParamView::Text(hex_quantity(block as nat)), RpcParamView::Flag(true)],
            ),
    {
        self.call_2(
            "eth_getBlockByNumber",
            RpcParam::Text(to_hex_quantity(block)),
            RpcParam::Flag(true),
        )
    }

    /// Asks for a transaction: `eth_getTransactionByHash` with the hash.
    pub fn get_eth_partial_transaction(&self, hash: String) -> (r: HttpRequest)
        ensures
            r@ == self.spec_rpc_request(
                "eth_getTransactionByHash"@,
                seq![RpcParamView::Text(with_0x(hash@))],
            ),
    {
        self.call_1("eth_getTransactionByHash", RpcParam::Text(prefix_0x(hash.as_str())))
    }

    /// Asks for the receipt of a transaction: `eth_getTransactionReceipt`
    /// with the hash of the transaction, which for an operation of the
    /// token is the part of its hash before the colon.
    pub fn get_receipt(&self, tx: &PartialBlockchainTransaction) -> (r: HttpRequest)
        ensures
            r@ == self.spec_rpc_request(
                "eth_getTransactionReceipt"@,
                seq![RpcParamView::Text(with_0x(parent_hash(tx.hash@)))],
            ),
    {
        let chars = chars_of(tx.hash.as_str());
        let colon = position_of(&chars, ':', 0);
        let parent = string_of_range(&chars, 0, colon);
        assert(chars@.subrange(0, colon as int) =~= parent_hash(tx.hash@));
        self.call_1("eth_getTransactionReceipt", RpcParam::Text(prefix_0x(parent.as_str())))
    }

    /// The filter for the logs of the token with the given first topic in
    /// the blocks `from_block` to `to_block`.
    pub open spec fn log_filter(self, topic: Seq<char>, from_block: u64, to_block: u64) -> RpcParamView {
        RpcParamView::LogFilter {
            address: self.stq_contract_address@,
            topic,
            from_block: hex_quantity(from_block as nat),
            to_block: hex_quantity(to_block as nat),
        }
    }

    /// Asks for the logs of the token in the blocks `from_block` to
    /// `to_block`: two calls of `eth_getLogs`, the first for the approvals
    /// and the second for the transfers. Their answers are read in this
    /// order, the approvals first.
    pub fn get_stq_transactions_for_blocks(&self, from_block: u64, to_block: u64) -> (r: (
        HttpRequest,
        HttpRequest,
    ))
        ensures
            r.0@ == self.spec_rpc_request(
                "eth_getLogs"@,
                seq![self.log_filter(self.stq_approval_topic@, from_block, to_block)],
            ),
            r.1@ == self.spec_rpc_request(
                "eth_getLogs"@,
                seq![self.log_filter(self.stq_transfer_topic@, from_block, to_block)],
            ),
    {
        let approval = self.call_1(
            "eth_getLogs",
            RpcParam::LogFilter {
                address: self.stq_contract_address.clone(),
                topic: self.stq_approval_topic.clone(),
                from_block: to_hex_quantity(from_block),
                to_block: to_hex_quantity(to_block),
            },
        );
        let transfer = self.call_1(
            "eth_getLogs",
            RpcParam::LogFilter {
                address: self.stq_contract_address.clone(),
                topic: self.stq_transfer_topic.clone(),
                from_block: to_hex_quantity(from_block),
                to_block: to_hex_quantity(to_block),
            },
        );
        (approval, transfer)
    }

    /// Turns a log of the token contract into canonical form, with the
    /// topics of this client. `gas_price` is that of the transaction which
    /// holds the log.
    pub fn stq_response_to_partial_tx(&self, log: StqResponseItem, gas_price: Amount) -> (r: Result<
        PartialBlockchainTransaction,
        Error,
    >)
        ensures
            match r {
                Ok(tx) => spec_stq_response_to_partial_tx(
                    log@,
                    gas_price@,
                    self.stq_approval_topic@,
                    self.stq_transfer_topic@,
                ) == Ok::<PartialTransactionView, ErrorContext>(tx@),
                Err(e) => spec_stq_response_to_partial_tx(
                    log@,
                    gas_price@,
                    self.stq_approval_topic@,
                    self.stq_transfer_topic@,
                ) matches Err(c) && e.is_context(ErrorKind::Internal, c),
            },
    {
        stq_log_to_partial_tx(log, gas_price, &self.stq_approval_topic, &self.stq_transfer_topic)
    }
}

/// Reads the nonce, or the number of a block, that the node answered with.
pub fn nonce_of(response: &NonceResponse) -> (r: Result<u64, Error>)
    ensures
        match r {
            Ok(v) => spec_parse_hex(response.result@, u64::MAX as nat) == Some(v as nat),
            Err(e) => spec_parse_hex(response.result@, u64::MAX as nat).is_none() && e.is_context(
                ErrorKind::Internal,
                ErrorContext::Hex,
            ),
        },
{
    parse_hex_u64(response.result.as_str())
}

/// Reads the number of the block that the node answered with.
pub fn block_number_of(response: &ShortBlockResponse) -> (r: Result<u64, Error>)
    ensures
        match r {
            Ok(v) => spec_parse_hex(response.result.number@, u128::MAX as nat) matches Some(n)
                && v == spec_low_64(n),
            Err(e) => spec_parse_hex(response.result.number@, u128::MAX as nat).is_none()
                && e.is_context(ErrorKind::Internal, ErrorContext::Hex),
        },
{
    let n = parse_hex(response.result.number.as_str())?;
    Ok(super::normalize::low_64(n))
}

/// Reads the balance that the node answered with.
pub fn balance_of(response: &BalanceResponse) -> (r: Result<Amount, Error>)
    ensures
        match r {
            Ok(a) => spec_parse_hex(response.result@, u128::MAX as nat) == Some(a@),
            Err(e) => spec_parse_hex(response.result@, u128::MAX as nat).is_none() && e.is_context(
                ErrorKind::Internal,
                ErrorContext::Hex,
            ),
        },
{
    let n = parse_hex(response.result.as_str())?;
    Ok(Amount::new(n))
}

/// Reads the hash of a transaction that the node took: the answer without
/// its `0x`. An answer shorter than that has the error context `Hex`.
pub fn tx_hash_of(response: &PostTransactionsResponse) -> (r: Result<TxHash, Error>)
    ensures
        match r {
            Ok(hash) => spec_skip_chars(response.result@, 2) == Some(hash@),
            Err(e) => spec_skip_chars(response.result@, 2).is_none() && e.is_context(
                ErrorKind::Internal,
                ErrorContext::Hex,
            ),
        },
{
    match skip_chars(response.result.as_str(), 2) {
        Some(hash) => Ok(TxHash::new(hash)),
        None => Err(Error::with_context(ErrorKind::Internal, ErrorContext::Hex)),
    }
}

} // verus!
