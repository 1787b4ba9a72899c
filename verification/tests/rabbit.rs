use blockchain_gateway::models::amount::Amount;
use blockchain_gateway::models::currency::Currency;
use blockchain_gateway::models::transaction::BlockchainTransaction;
use blockchain_gateway::rabbit::error::{Error, ErrorContext, ErrorKind};
use blockchain_gateway::rabbit::r2d2::{ConnectionState, RabbitConnectionManager, SessionAction};
use blockchain_gateway::rabbit::transactions::{Declaration, QueueName, TransactionPublisherImpl};

fn record(hash: &str, currency: Currency) -> BlockchainTransaction {
    BlockchainTransaction {
        hash: hash.to_string(),
        from: vec!["a".to_string()],
        to: vec![],
        block_number: 1,
        currency,
        fee: Amount::new(1),
        confirmations: 0,
        erc20_operation_kind: None,
    }
}

#[test]
fn broker_publish_routes_per_currency() {
    let (publisher, _) = TransactionPublisherImpl::init();
    let batch = vec![record("b", Currency::Btc), record("e", Currency::Eth), record("s", Currency::Stq)];
    let publications = publisher.publish(batch.clone());
    assert_eq!(publications.len(), 3);
    let keys: Vec<&str> = publications.iter().map(|p| p.routing_key.as_str()).collect();
    assert_eq!(keys, vec!["btc_transactions", "eth_transactions", "stq_transactions"]);
    for (publication, tx) in publications.iter().zip(batch.iter()) {
        assert_eq!(publication.exchange, "blockchain_transactions");
        assert!(publication.persistent);
        assert_eq!(&publication.transaction, tx);
    }
    assert_eq!(publisher.publish(vec![]).len(), 0);
}

#[test]
fn routing_key_is_currency_and_suffix() {
    for currency in [Currency::Btc, Currency::Eth, Currency::Stq] {
        assert_eq!(
            TransactionPublisherImpl::routing_key(currency),
            format!("{}_transactions", currency.to_string())
        );
        assert_eq!(
            TransactionPublisherImpl::routing_key(currency),
            QueueName::for_currency(currency).to_string()
        );
    }
    assert_eq!(Currency::Btc.to_string(), "btc");
    assert_eq!(Currency::Eth.to_string(), "eth");
    assert_eq!(Currency::Stq.to_string(), "stq");
}

#[test]
fn topology_is_declared_once_and_bound() {
    let (_, declarations) = TransactionPublisherImpl::init();
    assert_eq!(declarations.len(), 11);
    assert_eq!(
        declarations[0],
        Declaration::Exchange {
            name: "blockchain_transactions".to_string(),
            kind: "direct".to_string(),
            durable: true,
        }
    );
    let queues = [
        (QueueName::BtcTransactions, "btc_transactions"),
        (QueueName::EthTransactions, "eth_transactions"),
        (QueueName::StqTransactions, "stq_transactions"),
        (QueueName::BtcCurrentBlock, "btc_current_block"),
        (QueueName::EthCurrentBlock, "eth_current_block"),
    ];
    for (queue, name) in queues {
        assert_eq!(queue.to_string(), name);
        let queue_declaration = Declaration::Queue { name: name.to_string(), durable: true };
        let binding = Declaration::Binding {
            queue: name.to_string(),
            exchange: "blockchain_transactions".to_string(),
            routing_key: name.to_string(),
        };
        let declared = declarations.iter().position(|d| *d == queue_declaration).unwrap();
        let bound = declarations.iter().position(|d| *d == binding).unwrap();
        assert!(declared < bound);
    }
    let count = |pick: fn(&Declaration) -> bool| declarations.iter().filter(|d| pick(d)).count();
    assert_eq!(count(|d| matches!(d, Declaration::Exchange { .. })), 1);
    assert_eq!(count(|d| matches!(d, Declaration::Queue { durable: true, .. })), 5);
    assert_eq!(count(|d| matches!(d, Declaration::Binding { .. })), 5);
    for i in 0..declarations.len() {
        for j in i + 1..declarations.len() {
            assert_ne!(declarations[i], declarations[j]);
        }
    }
}

#[test]
fn session_connects_and_publishes_only_when_connected() {
    let (mut session, action) = RabbitConnectionManager::establish(30);
    assert_eq!(action, SessionAction::Connect);
    assert_eq!(session.connection_state(), ConnectionState::Connecting);
    assert_eq!(session.connection_timeout_secs(), 30);
    assert!(session.is_connecting_conn());
    assert!(!session.is_broken_conn());
    let unavailable = session.is_valid(true).unwrap_err();
    assert_eq!(unavailable.kind, ErrorKind::BrokerUnavailable);
    assert_eq!(unavailable.context, Some(ErrorContext::RabbitConnection));
    assert!(session.has_broken(true));

    assert_eq!(session.connected(), SessionAction::StartHeartbeat);
    assert_eq!(session.connection_state(), ConnectionState::Connected);
    assert_eq!(session.is_valid(true), Ok(()));
    assert!(!session.has_broken(true));
    let closed_channel = session.is_valid(false).unwrap_err();
    assert_eq!(closed_channel.kind, ErrorKind::BrokerUnavailable);
    assert_eq!(closed_channel.context, Some(ErrorContext::RabbitChannel));
    assert_eq!(session.connected(), SessionAction::Nothing);
}

#[test]
fn session_recovers_after_loss() {
    for lost in [ConnectionState::Error, ConnectionState::Closing, ConnectionState::Closed] {
        let (mut session, _) = RabbitConnectionManager::establish(5);
        session.connected();
        assert_eq!(session.lost(lost), SessionAction::StopHeartbeat);
        assert_eq!(session.connection_state(), lost);
        assert!(session.is_broken_conn());
        assert_eq!(session.is_valid(true).unwrap_err().kind, ErrorKind::BrokerUnavailable);
        // the heartbeat is stopped once
        assert_eq!(session.lost(ConnectionState::Closed), SessionAction::Nothing);
        assert_eq!(session.repair(), Ok(SessionAction::Reconnect));
        assert_eq!(session.connection_state(), ConnectionState::Connecting);
        assert_eq!(
            session.repair(),
            Err(Error { kind: ErrorKind::Internal, context: Some(ErrorContext::AlreadyConnecting), source: None })
        );
        assert_eq!(session.is_valid(true).unwrap_err().kind, ErrorKind::BrokerUnavailable);
        assert_eq!(session.connected(), SessionAction::StartHeartbeat);
        assert_eq!(session.is_valid(true), Ok(()));
    }
}

#[test]
fn session_ignores_states_that_are_no_loss() {
    let (mut session, _) = RabbitConnectionManager::establish(5);
    session.connected();
    assert_eq!(session.lost(ConnectionState::Connected), SessionAction::Nothing);
    assert_eq!(session.lost(ConnectionState::Connecting), SessionAction::Nothing);
    assert_eq!(session.lost(ConnectionState::Initial), SessionAction::Nothing);
    assert_eq!(session.connection_state(), ConnectionState::Connected);
    // a connected session can be repaired too
    assert_eq!(session.repair(), Ok(SessionAction::Reconnect));
    // a session that fails while connecting had no heartbeat
    assert_eq!(session.lost(ConnectionState::Error), SessionAction::Nothing);
    assert_eq!(session.connection_state(), ConnectionState::Error);
}
