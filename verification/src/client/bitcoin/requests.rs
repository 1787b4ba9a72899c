//! What the Bitcoin client asks: of the node over JSON-RPC, and of the
//! service that lists unspent outputs.
use super::responses::{Block, RpcRawTransaction, UtxosResponse};
use crate::client::http_client::{
    HttpMethod, HttpRequest, HttpRequestView, RpcCall, RpcCallView, RpcDialect, RpcParam,
    RpcParamView,
};
use crate::config::Mode;
use crate::models::address::BitcoinAddress;
use crate::models::transaction::RawBitcoinTransaction;
use crate::models::utxo::{Utxo, UtxoView};
use vstd::prelude::*;
use vstd::utf8::encode_utf8;

verus! {

/// The text that the standard base64 alphabet, with padding, gives for some
/// bytes.
pub uninterp spec fn base64_text(bytes: Seq<u8>) -> Seq<char>;

/// Whether the encoder can size its output for `len` bytes: four characters
/// for every three bytes, and four more for a rest, must fit a `usize`.
pub open spec fn base64_fits(len: nat) -> bool {
    (len / 3) * 4 + 4 <= usize::MAX
}

/// `base64::encode` writes its input in the standard alphabet with padding.
/// It panics where it cannot size its output, which `requires` leaves out.
#[verifier::external_body]
fn base64_encode(input: &[u8]) -> (r: String)
    requires
        base64_fits(input@.len()),
    ensures
        r@ == base64_text(input@),
{
    base64::encode(input)
}

/// The value of the `Authorization` header for a user and a password:
/// `Basic `, then `user:password` in base64.
pub open spec fn basic_authorization(user: Seq<char>, password: Seq<char>) -> Seq<char> {
    "Basic "@ + base64_text(encode_utf8(user + ":"@ + password))
}

/// Whether the credentials can be encoded on this machine.
pub open spec fn credentials_fit(user: Seq<char>, password: Seq<char>) -> bool {
    base64_fits(encode_utf8(user + ":"@ + password).len())
}

/// The address of the service that lists unspent outputs: the main one in
/// production, the one of the test network in every other mode.
pub open spec fn utxo_base(mode: Mode) -> Seq<char> {
    if mode == Mode::Production {
        "https://blockchain.info"@
    } else {
        "https://testnet.blockchain.info"@
    }
}

/// How many transactions of a block are fetched together.
pub const BLOCK_TXS_LIMIT: usize = 10;

/// The Bitcoin client, without its connection: it writes the requests and
/// reads the answers.
#[derive(Debug, Clone)]
pub struct BitcoinClientImpl {
    mode: Mode,
    bitcoin_rpc_url: String,
    authorization: String,
}

impl BitcoinClientImpl {
    pub closed spec fn mode(self) -> Mode {
        self.mode
    }

    pub closed spec fn url(self) -> Seq<char> {
        self.bitcoin_rpc_url@
    }

    pub closed spec fn authorization(self) -> Seq<char> {
        self.authorization@
    }

    /// A client for the node at `bitcoin_rpc_url`, to which it presents the
    /// given user and password.
    pub fn new(
        mode: Mode,
        bitcoin_rpc_url: String,
        bitcoin_rpc_user: String,
        bitcoin_rpc_password: String,
    ) -> (r: Self)
        requires
            credentials_fit(bitcoin_rpc_user@, bitcoin_rpc_password@),
        ensures
            r.mode() == mode,
            r.url() == bitcoin_rpc_url@,
            r.authorization() == basic_authorization(bitcoin_rpc_user@, bitcoin_rpc_password@),
    {
        let mut credentials = bitcoin_rpc_user.clone();
        credentials.append(":");
        credentials.append(bitcoin_rpc_password.as_str());
        let encoded = base64_encode(credentials.as_str().as_bytes());
        let mut authorization = String::from_str("Basic ");
        authorization.append(encoded.as_str());
        BitcoinClientImpl { mode, bitcoin_rpc_url, authorization }
    }

    /// The request that carries a call to the node: a `POST` to the node's
    /// address with the credentials of the client.
    pub open spec fn spec_rpc_request(self, call: RpcCallView) -> HttpRequestView {
        HttpRequestView {
            method: HttpMethod::Post,
            uri: self.url(),
            authorization: Some(self.authorization()),
            content_type: None,
            call: Some(call),
        }
    }

    /// The request that carries a call to the node.
    pub fn get_rpc_response(&self, call: RpcCall) -> (r: HttpRequest)
        ensures
            r@ == self.spec_rpc_request(call@),
    {
        HttpRequest {
            method: HttpMethod::Post,
            uri: self.bitcoin_rpc_url.clone(),
            authorization: Some(self.authorization.clone()),
            content_type: None,
            call: Some(call),
        }
    }

    /// Asks for the hash of the newest block: `getbestblockhash` without
    /// parameters.
    pub fn get_best_block_hash(&self) -> (r: HttpRequest)
        ensures
            r@ == self.spec_rpc_request(
                RpcCallView {
                    dialect: RpcDialect::Bitcoin,
                    method: "getbestblockhash"@,
                    params: Seq::empty(),
                },
            ),
    {
        let params: Vec<RpcParam> = Vec::new();
        assert(params.deep_view() =~= Seq::<RpcParamView>::empty());
        self.get_rpc_response(
            RpcCall {
                dialect: RpcDialect::Bitcoin,
                method: String::from_str("getbestblockhash"),
                params,
            },
        )
    }

    /// Asks for a block: `getblock` with the hash of the block.
    pub fn get_block_by_hash(&self, hash: String) -> (r: HttpRequest)
        ensures
            r@ == self.spec_rpc_request(
                RpcCallView {
                    dialect: RpcDialect::Bitcoin,
                    method: "getblock"@,
                    params: seq![RpcParamView::Text(hash@)],
                },
            ),
    {
        let mut params: Vec<RpcParam> = Vec::new();
        params.push(RpcParam::Text(hash));
        assert(params.deep_view() =~= seq![RpcParamView::Text(hash@)]);
        self.get_rpc_response(
            RpcCall { dialect: RpcDialect::Bitcoin, method: String::from_str("getblock"), params },
        )
    }

    /// Asks for a transaction in its verbose form: `getrawtransaction` with
    /// the id of the transaction and `true`.
    pub fn get_transaction(&self, hash: String) -> (r: HttpRequest)
        ensures
            r@ == self.spec_rpc_request(
                RpcCallView {
                    dialect: RpcDialect::Bitcoin,
                    method: "getrawtransaction"@,
                    params: seq![RpcParamView::Text(hash@), RpcParamView::Flag(true)],
                },
            ),
    {
        let mut params: Vec<RpcParam> = Vec::new();
        params.push(RpcParam::Text(hash));
        params.push(RpcParam::Flag(true));
        assert(params.deep_view() =~= seq![RpcParamView::Text(hash@), RpcParamView::Flag(true)]);
        self.get_rpc_response(
            RpcCall {
                dialect: RpcDialect::Bitcoin,
                method: String::from_str("getrawtransaction"),
                params,
            },
        )
    }

    /// Hands a signed transaction to the node as it is: `sendrawtransaction`
    /// with the transaction.
    pub fn send_raw_tx(&self, tx: RawBitcoinTransaction) -> (r: HttpRequest)
        ensures
            r@ == self.spec_rpc_request(
                RpcCallView {
                    dialect: RpcDialect::Bitcoin,
                    method: "sendrawtransaction"@,
                    params: seq![RpcParamView::Text(tx@)],
                },
            ),
    {
        let mut params: Vec<RpcParam> = Vec::new();
        params.push(RpcParam::Text(tx.to_string()));
        assert(params.deep_view() =~= seq![RpcParamView::Text(tx@)]);
        self.get_rpc_response(
            RpcCall {
                dialect: RpcDialect::Bitcoin,
                method: String::from_str("sendrawtransaction"),
                params,
            },
        )
    }

    /// Asks for the unspent outputs of an address: a `GET` of
    /// `/unspent?active=` with the address, at the service of the mode,
    /// without credentials or body.
    pub fn get_utxos(&self, address: BitcoinAddress) -> (r: HttpRequest)
        ensures
            r@ == (HttpRequestView {
                method: HttpMethod::Get,
                uri: utxo_base(self.mode()) + "/unspent?active="@ + address@,
                authorization: None,
                content_type: None,
                call: None,
            }),
    {
        let mut uri = match self.mode {
            Mode::Production => String::from_str("https://blockchain.info"),
            _ => String::from_str("https://testnet.blockchain.info"),
        };
        uri.append("/unspent?active=");
        uri.append(address.to_string().as_str());
        HttpRequest {
            method: HttpMethod::Get,
            uri,
            authorization: None,
            content_type: None,
            call: None,
        }
    }
}

/// The request for a transaction, as a call.
pub open spec fn transaction_call(txid: Seq<char>) -> RpcCallView {
    RpcCallView {
        dialect: RpcDialect::Bitcoin,
        method: "getrawtransaction"@,
        params: seq![RpcParamView::Text(txid), RpcParamView::Flag(true)],
    }
}

/// The ids of the transactions of a block that are fetched: all but the
/// first, which is the coinbase.
pub open spec fn fetched_ids(tx: Seq<Seq<char>>) -> Seq<Seq<char>> {
    if tx.len() == 0 {
        tx
    } else {
        tx.skip(1)
    }
}

/// Whether `chunks` cuts `ids` into runs of `size`: every chunk but the last
/// holds `size` ids, the last holds the rest and at least one, and the chunks
/// one after the other give `ids` back.
pub open spec fn is_chunking(chunks: Seq<Seq<Seq<char>>>, ids: Seq<Seq<char>>, size: nat) -> bool {
    &&& chunks.len() == (ids.len() + size - 1) / (size as int)
    &&& forall|c: int|
        0 <= c < chunks.len() ==> (#[trigger] chunks[c]).len() == if (c + 1) * size <= ids.len() {
            size
        } else {
            (ids.len() - c * size) as nat
        }
    &&& forall|c: int, j: int|
        0 <= c < chunks.len() && 0 <= j < chunks[c].len() ==> (#[trigger] chunks[c][j]) == ids[c
            * size + j]
}

impl BitcoinClientImpl {
    /// The transactions of a block to fetch, in the order of the block and
    /// without the coinbase, cut into the chunks that are fetched together.
    pub fn block_transactions(block: &Block) -> (r: Vec<Vec<String>>)
        ensures
            is_chunking(r.deep_view(), fetched_ids(block@.tx), BLOCK_TXS_LIMIT as nat),
    {
        let ghost ids = fetched_ids(block@.tx);
        let n = block.tx.len();
        let m: usize = if n > 0 {
            n - 1
        } else {
            0
        };
        let mut chunks: Vec<Vec<String>> = Vec::new();
        let mut start: usize = 0;
        while start < m
            invariant
                n == block.tx.len(),
                m == ids.len(),
                m < n || m == 0,
                ids == fetched_ids(block@.tx),
                start <= m,
                start == m || start == chunks.len() * 10,
                start == m ==> (chunks.len() * 10 >= m && (chunks.len() > 0 ==> (chunks.len() - 1)
                    * 10 < m)),
                forall|c: int|
                    0 <= c < chunks.len() ==> (#[trigger] chunks.deep_view()[c]).len() == if (c + 1)
                        * 10 <= m {
                        10
                    } else {
                        m - c * 10
                    },
                forall|c: int, j: int|
                    0 <= c < chunks.len() && 0 <= j < chunks.deep_view()[c].len() ==> (
                    #[trigger] chunks.deep_view()[c][j]) == ids[c * 10 + j],
            decreases m - start,
        {
            let end: usize = if m - start > BLOCK_TXS_LIMIT {
                start + BLOCK_TXS_LIMIT
            } else {
                m
            };
            let mut chunk: Vec<String> = Vec::new();
            let mut i: usize = start;
            while i < end
                invariant
                    start <= i <= end <= m,
                    m < n,
                    n == block.tx.len(),
                    ids == fetched_ids(block@.tx),
                    chunk.len() == i - start,
                    forall|j: int| 0 <= j < chunk.len() ==> (#[trigger] chunk[j])@ == ids[start + j],
                decreases end - i,
            {
                assert(ids[i as int] == block.tx[i + 1]@);
                chunk.push(block.tx[i + 1].clone());
                i += 1;
            }
            let ghost before = chunks.deep_view();
            let ghost count = chunks.len();
            chunks.push(chunk);
            proof {
                let now = chunks.deep_view();
                assert(now.len() == count + 1);
                assert forall|c: int| 0 <= c < count implies #[trigger] now[c] == before[c] by {}
                assert(now[count as int] =~= chunk.deep_view());
                assert(now[count as int].len() == end - start);
                assert forall|j: int| 0 <= j < end - start implies now[count as int][j] == ids[count
                    * 10 + j] by {
                    assert(chunk[j]@ == ids[start + j]);
                }
            }
            start = end;
        }
        proof {
            let d = chunks.deep_view();
            assert(d.len() == chunks.len());
            if m == 0 {
                assert(chunks.len() == 0);
            }
        }
        chunks
    }

    /// The requests for the transactions that the inputs of `tx` refer to:
    /// one for each input, in the order of the inputs.
    pub fn input_requests(&self, tx: &RpcRawTransaction) -> (r: Vec<HttpRequest>)
        ensures
            r.len() == tx.vin.len(),
            forall|i: int|
                0 <= i < r.len() ==> (#[trigger] r[i])@ == self.spec_rpc_request(
                    transaction_call(tx.vin[i].txid@),
                ),
    {
        let mut requests: Vec<HttpRequest> = Vec::new();
        let mut i: usize = 0;
        while i < tx.vin.len()
            invariant
                i <= tx.vin.len(),
                requests.len() == i,
                forall|j: int|
                    0 <= j < i ==> (#[trigger] requests[j])@ == self.spec_rpc_request(
                        transaction_call(tx.vin[j].txid@),
                    ),
            decreases tx.vin.len() - i,
        {
            requests.push(self.get_transaction(tx.vin[i].txid.clone()));
            i += 1;
        }
        requests
    }

    /// The unspent outputs that the service listed, in its order.
    pub fn utxos_of(response: UtxosResponse) -> (r: Vec<Utxo>)
        ensures
            r.len() == response.unspent_outputs.len(),
            forall|i: int|
                0 <= i < r.len() ==> (#[trigger] r[i])@ == (UtxoView {
                    tx_hash: response.unspent_outputs[i].tx_hash_big_endian@,
                    index: response.unspent_outputs[i].tx_output_n as nat,
                    value: response.unspent_outputs[i].value@,
                }),
    {
        let mut utxos: Vec<Utxo> = Vec::new();
        let mut i: usize = 0;
        while i < response.unspent_outputs.len()
            invariant
                i <= response.unspent_outputs.len(),
                utxos.len() == i,
                forall|j: int|
                    0 <= j < i ==> (#[trigger] utxos[j])@ == (UtxoView {
                        tx_hash: response.unspent_outputs[j].tx_hash_big_endian@,
                        index: response.unspent_outputs[j].tx_output_n as nat,
                        value: response.unspent_outputs[j].value@,
                    }),
            decreases response.unspent_outputs.len() - i,
        {
            let u = &response.unspent_outputs[i];
            utxos.push(
                Utxo { tx_hash: u.tx_hash_big_endian.clone(), index: u.tx_output_n, value: u.value },
            );
            i += 1;
        }
        utxos
    }
}

} // verus!
