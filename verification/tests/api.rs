use blockchain_gateway::api::error::{error_response, kind_of, ErrorKind, Record};
use blockchain_gateway::api::{route, server_address, Route};
use blockchain_gateway::client::error::{Error as ClientError, ErrorKind as ClientErrorKind};
use blockchain_gateway::config::{Client, Config, Mode, Poller, Rabbit, Server};
use blockchain_gateway::models::address::{BitcoinAddress, EthereumAddress};
use blockchain_gateway::services::error::{convert_error, ErrorKind as ServiceErrorKind};

#[test]
fn routes_of_the_interface() {
    assert_eq!(
        route("GET", "/v1/bitcoin/1BoatSLRHtKNngkdXEeobR76b53LETtpyT/utxos"),
        Route::GetUtxos(BitcoinAddress::from_str("1BoatSLRHtKNngkdXEeobR76b53LETtpyT").unwrap())
    );
    assert_eq!(
        route("GET", "/v1/ethereum/abcdef/nonce"),
        Route::GetNonce(EthereumAddress::from_str("abcdef").unwrap())
    );
    assert_eq!(route("POST", "/v1/bitcoin/transactions/raw"), Route::PostBitcoinTransactions);
    assert_eq!(route("POST", "/v1/ethereum/transactions/raw"), Route::PostEthereumTransactions);
}

#[test]
fn unknown_routes_are_not_found() {
    let unknown = [
        ("GET", "/"),
        ("GET", ""),
        ("GET", "/v1/bitcoin//utxos"),
        ("GET", "/v1/bitcoin/a/b/utxos"),
        ("GET", "/v1/bitcoin/abc/utxos/"),
        ("GET", "/v1/bitcoin/abc/nonce"),
        ("GET", "/v1/ethereum/abc/utxos"),
        ("GET", "/v2/ethereum/abc/nonce"),
        ("GET", "/v1/bitcoin/transactions/raw"),
        ("POST", "/v1/bitcoin/abc/utxos"),
        ("POST", "/v1/bitcoin/transactions/raw/"),
        ("POST", "/v1/litecoin/transactions/raw"),
        ("PUT", "/v1/bitcoin/transactions/raw"),
        ("get", "/v1/ethereum/abc/nonce"),
        ("DELETE", "/v1/ethereum/abc/nonce"),
    ];
    for (method, path) in unknown {
        assert_eq!(route(method, path), Route::NotFound, "{} {}", method, path);
    }
}

#[test]
fn failures_are_answered_by_status_and_json() {
    let r = error_response(ErrorKind::BadRequest);
    assert_eq!((r.status, r.body.as_str(), r.record), (400, r#"{"description": "Bad request"}"#, Record::Warn));
    assert_eq!(r.content_type, "application/json");
    let r = error_response(ErrorKind::Unauthorized);
    assert_eq!((r.status, r.body.as_str(), r.record), (401, r#"{"description": "Unauthorized"}"#, Record::Warn));
    let r = error_response(ErrorKind::NotFound);
    assert_eq!((r.status, r.body.as_str(), r.record), (404, r#"{"description": "Not found"}"#, Record::Error));
    let r = error_response(ErrorKind::UnprocessableEntity(r#"{"raw":["empty"]}"#.to_string()));
    assert_eq!((r.status, r.body.as_str(), r.record), (422, r#"{"raw":["empty"]}"#, Record::Warn));
    let r = error_response(ErrorKind::Internal);
    assert_eq!(
        (r.status, r.body.as_str(), r.record),
        (500, r#"{"description": "Internal server error"}"#, Record::ErrorAndCapture)
    );
    assert_eq!(r.content_type, "application/json");
}

#[test]
fn errors_are_mapped_layer_by_layer() {
    let cases = [
        (ClientErrorKind::BadRequest, ServiceErrorKind::MalformedInput, ErrorKind::BadRequest),
        (ClientErrorKind::UnprocessableEntity, ServiceErrorKind::MalformedInput, ErrorKind::BadRequest),
        (ClientErrorKind::Unauthorized, ServiceErrorKind::Unauthorized, ErrorKind::Unauthorized),
        (ClientErrorKind::NotFound, ServiceErrorKind::NotFound, ErrorKind::NotFound),
        (ClientErrorKind::InternalServer, ServiceErrorKind::Internal, ErrorKind::Internal),
        (ClientErrorKind::BadGateway, ServiceErrorKind::Internal, ErrorKind::Internal),
        (ClientErrorKind::GatewayTimeout, ServiceErrorKind::Internal, ErrorKind::Internal),
        (ClientErrorKind::UnknownServerError, ServiceErrorKind::Internal, ErrorKind::Internal),
        (ClientErrorKind::Internal, ServiceErrorKind::Internal, ErrorKind::Internal),
        (ClientErrorKind::NoReceipt, ServiceErrorKind::Internal, ErrorKind::Internal),
    ];
    for (client, service, api) in cases {
        assert_eq!(ServiceErrorKind::from(client), service);
        assert_eq!(kind_of(service), api);
    }
    assert_eq!(
        kind_of(ServiceErrorKind::InvalidInput("{}".to_string())),
        ErrorKind::UnprocessableEntity("{}".to_string())
    );
    let converted = convert_error(ClientError {
        kind: ClientErrorKind::NotFound,
        context: None,
        source: None,
        message: "no such address".to_string(),
    });
    assert_eq!(converted.kind, ServiceErrorKind::NotFound);
    assert_eq!(converted.message, "no such address");
    assert_eq!((converted.context, converted.source), (None, None));
}

#[test]
fn server_binds_to_host_and_port() {
    let config = Config {
        server: Server { host: "0.0.0.0".to_string(), port: "8000".to_string() },
        client: Client {
            dns_threads: 4,
            infura_key: String::new(),
            infura_secret: String::new(),
            stq_contract_address: String::new(),
            stq_transfer_topic: String::new(),
            stq_approval_topic: String::new(),
            bitcoin_rpc_url: String::new(),
            bitcoin_rpc_user: String::new(),
            bitcoin_rpc_password: String::new(),
            stq_balance_method: String::new(),
        },
        mode: Mode::Nightly,
        poller: Poller {
            enabled: true,
            bitcoin_interval_secs: 1,
            bitcoin_number_of_tracked_confirmations: 1,
            ethereum_interval_secs: 1,
            ethereum_number_of_tracked_confirmations: 1,
            storiqa_interval_secs: 1,
            storiqa_number_of_tracked_confirmations: 1,
            ethereum_start_block: None,
            storiqa_start_block: None,
        },
        rabbit: Rabbit {
            url: String::new(),
            thread_pool_size: 1,
            connection_timeout_secs: 1,
            connection_pool_size: 1,
        },
    };
    assert_eq!(server_address(&config), "0.0.0.0:8000");
}
