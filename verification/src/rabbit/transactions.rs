//! What the publisher declares on the broker, and where it publishes.
use crate::models::currency::Currency;
use crate::models::transaction::{BlockchainTransaction, TransactionView};
use vstd::prelude::*;

verus! {

/// The queues of the gateway.
#[derive(Copy, Clone, Eq, PartialEq, Structural, Debug)]
pub enum QueueName {
    BtcTransactions,
    EthTransactions,
    StqTransactions,
    BtcCurrentBlock,
    EthCurrentBlock,
}

/// The name of the one exchange of the gateway.
pub open spec fn exchange_name() -> Seq<char> {
    "blockchain_transactions"@
}

impl QueueName {
    /// The name of the queue on the broker. The queue is bound to the
    /// exchange with a routing key that is this name too.
    pub open spec fn name(self) -> Seq<char> {
        match self {
            QueueName::BtcTransactions => "btc_transactions"@,
            QueueName::EthTransactions => "eth_transactions"@,
            QueueName::StqTransactions => "stq_transactions"@,
            QueueName::BtcCurrentBlock => "btc_current_block"@,
            QueueName::EthCurrentBlock => "eth_current_block"@,
        }
    }

    /// The queue that takes the transactions of a currency.
    pub open spec fn of_currency(currency: Currency) -> QueueName {
        match currency {
            Currency::Btc => QueueName::BtcTransactions,
            Currency::Eth => QueueName::EthTransactions,
            Currency::Stq => QueueName::StqTransactions,
        }
    }

    /// The name of the queue on the broker.
    pub fn to_string(&self) -> (r: String)
        ensures
            r@ == self.name(),
    {
        match self {
            QueueName::BtcTransactions => String::from_str("btc_transactions"),
            QueueName::EthTransactions => String::from_str("eth_transactions"),
            QueueName::StqTransactions => String::from_str("stq_transactions"),
            QueueName::BtcCurrentBlock => String::from_str("btc_current_block"),
            QueueName::EthCurrentBlock => String::from_str("eth_current_block"),
        }
    }

    /// The queue that takes the transactions of a currency.
    pub fn for_currency(currency: Currency) -> (r: QueueName)
        ensures
            r == QueueName::of_currency(currency),
    {
        match currency {
            Currency::Btc => QueueName::BtcTransactions,
            Currency::Eth => QueueName::EthTransactions,
            Currency::Stq => QueueName::StqTransactions,
        }
    }
}

/// The type of the exchange of the gateway.
pub open spec fn exchange_kind() -> Seq<char> {
    "direct"@
}

/// One thing to declare on the broker.
#[derive(Clone, Eq, PartialEq, Debug)]
pub enum Declaration {
    /// An exchange of the given name and type.
    Exchange { name: String, kind: String, durable: bool },
    /// A queue of the given name.
    Queue { name: String, durable: bool },
    /// The binding of a queue to an exchange under a routing key.
    Binding { queue: String, exchange: String, routing_key: String },
}

/// What a [`Declaration`] holds.
pub enum DeclarationView {
    Exchange { name: Seq<char>, kind: Seq<char>, durable: bool },
    Queue { name: Seq<char>, durable: bool },
    Binding { queue: Seq<char>, exchange: Seq<char>, routing_key: Seq<char> },
}

impl View for Declaration {
    type V = DeclarationView;

    open spec fn view(&self) -> DeclarationView {
        match self {
            Declaration::Exchange { name, kind, durable } => DeclarationView::Exchange {
                name: name@,
                kind: kind@,
                durable: *durable,
            },
            Declaration::Queue { name, durable } => DeclarationView::Queue {
                name: name@,
                durable: *durable,
            },
            Declaration::Binding { queue, exchange, routing_key } => DeclarationView::Binding {
                queue: queue@,
                exchange: exchange@,
                routing_key: routing_key@,
            },
        }
    }
}

impl DeepView for Declaration {
    type V = DeclarationView;

    open spec fn deep_view(&self) -> DeclarationView {
        self@
    }
}

/// The declaration of the exchange of the gateway: named
/// `blockchain_transactions`, of type `direct`, durable.
pub open spec fn exchange_declaration() -> DeclarationView {
    DeclarationView::Exchange { name: exchange_name(), kind: exchange_kind(), durable: true }
}

/// The declaration of a queue: under its name, durable.
pub open spec fn queue_declaration(queue: QueueName) -> DeclarationView {
    DeclarationView::Queue { name: queue.name(), durable: true }
}

/// The binding of a queue: to the exchange of the gateway, with the name of
/// the queue as the routing key.
pub open spec fn binding_declaration(queue: QueueName) -> DeclarationView {
    DeclarationView::Binding {
        queue: queue.name(),
        exchange: exchange_name(),
        routing_key: queue.name(),
    }
}

/// Everything that the publisher declares when it starts: the exchange,
/// the five queues, and the binding of each queue.
pub open spec fn spec_topology() -> Seq<DeclarationView> {
    seq![
        exchange_declaration(),
        queue_declaration(QueueName::BtcTransactions),
        queue_declaration(QueueName::StqTransactions),
        queue_declaration(QueueName::EthTransactions),
        binding_declaration(QueueName::BtcTransactions),
        binding_declaration(QueueName::EthTransactions),
        binding_declaration(QueueName::StqTransactions),
        queue_declaration(QueueName::EthCurrentBlock),
        queue_declaration(QueueName::BtcCurrentBlock),
        binding_declaration(QueueName::EthCurrentBlock),
        binding_declaration(QueueName::BtcCurrentBlock),
    ]
}

fn declare_exchange() -> (r: Declaration)
    ensures
        r@ == exchange_declaration(),
{
    Declaration::Exchange {
        name: String::from_str("blockchain_transactions"),
        kind: String::from_str("direct"),
        durable: true,
    }
}

fn declare_queue(queue: QueueName) -> (r: Declaration)
    ensures
        r@ == queue_declaration(queue),
{
    Declaration::Queue { name: queue.to_string(), durable: true }
}

fn declare_binding(queue: QueueName) -> (r: Declaration)
    ensures
        r@ == binding_declaration(queue),
{
    Declaration::Binding {
        queue: queue.to_string(),
        exchange: String::from_str("blockchain_transactions"),
        routing_key: queue.to_string(),
    }
}

/// A message to publish: a transaction, on the exchange of the gateway,
/// with the routing key of its currency. The broker is to keep it on disk.
#[derive(Debug, Clone, PartialEq, Eq)]
pub struct Publication {
    pub exchange: String,
    pub routing_key: String,
    pub persistent: bool,
    pub transaction: BlockchainTransaction,
}

/// What a [`Publication`] holds.
pub struct PublicationView {
    pub exchange: Seq<char>,
    pub routing_key: Seq<char>,
    pub persistent: bool,
    pub transaction: TransactionView,
}

impl View for Publication {
    type V = PublicationView;

    open spec fn view(&self) -> PublicationView {
        PublicationView {
            exchange: self.exchange@,
            routing_key: self.routing_key@,
            persistent: self.persistent,
            transaction: self.transaction@,
        }
    }
}

impl DeepView for Publication {
    type V = PublicationView;

    open spec fn deep_view(&self) -> PublicationView {
        self@
    }
}

/// The message that carries a transaction.
pub open spec fn publication_of(tx: TransactionView) -> PublicationView {
    PublicationView {
        exchange: exchange_name(),
        routing_key: QueueName::of_currency(tx.currency).name(),
        persistent: true,
        transaction: tx,
    }
}

/// The publisher of transactions, without its channel.
#[derive(Copy, Clone, Debug)]
pub struct TransactionPublisherImpl {}

impl TransactionPublisherImpl {
    /// Starts a publisher. What it hands back is declared on the broker,
    /// once, before anything is published: the durable exchange
    /// `blockchain_transactions` of type `direct`, the five durable queues,
    /// and for each queue its binding to the exchange under the queue's own
    /// name.
    pub fn init() -> (r: (Self, Vec<Declaration>))
        ensures
            r.1.deep_view() == spec_topology(),
    {
        let mut declarations: Vec<Declaration> = Vec::new();
        declarations.push(declare_exchange());
        declarations.push(declare_queue(QueueName::BtcTransactions));
        declarations.push(declare_queue(QueueName::StqTransactions));
        declarations.push(declare_queue(QueueName::EthTransactions));
        declarations.push(declare_binding(QueueName::BtcTransactions));
        declarations.push(declare_binding(QueueName::EthTransactions));
        declarations.push(declare_binding(QueueName::StqTransactions));
        declarations.push(declare_queue(QueueName::EthCurrentBlock));
        declarations.push(declare_queue(QueueName::BtcCurrentBlock));
        declarations.push(declare_binding(QueueName::EthCurrentBlock));
        declarations.push(declare_binding(QueueName::BtcCurrentBlock));
        assert(declarations.deep_view() =~= spec_topology());
        (TransactionPublisherImpl {  }, declarations)
    }

    /// The routing key for the transactions of a currency: the name of the
    /// currency, then `_transactions`.
    pub fn routing_key(currency: Currency) -> (r: String)
        ensures
            r@ == QueueName::of_currency(currency).name(),
            r@ == currency.name() + "_transactions"@,
    {
        proof {
            reveal_strlit("btc");
            reveal_strlit("eth");
            reveal_strlit("stq");
            reveal_strlit("_transactions");
            reveal_strlit("btc_transactions");
            reveal_strlit("eth_transactions");
            reveal_strlit("stq_transactions");
            assert("btc_transactions"@ =~= "btc"@ + "_transactions"@);
            assert("eth_transactions"@ =~= "eth"@ + "_transactions"@);
            assert("stq_transactions"@ =~= "stq"@ + "_transactions"@);
        }
        QueueName::for_currency(currency).to_string()
    }

    /// The messages for a batch of transactions: one for each, in the order
    /// of the batch.
    pub fn publish(&self, txs: Vec<BlockchainTransaction>) -> (r: Vec<Publication>)
        ensures
            r.len() == txs.len(),
            forall|i: int| 0 <= i < r.len() ==> (#[trigger] r[i])@ == publication_of(txs[i]@),
    {
        let ghost all = txs@;
        let mut txs = txs;
        let mut reversed: Vec<Publication> = Vec::new();
        while txs.len() > 0
            invariant
                txs.len() + reversed.len() == all.len(),
                forall|i: int| 0 <= i < txs.len() ==> txs[i] == all[i],
                forall|i: int|
                    0 <= i < reversed.len() ==> (#[trigger] reversed[i])@ == publication_of(
                        all[all.len() - 1 - i]@,
                    ),
            decreases txs.len(),
        {
            let tx = txs.pop().unwrap();
            reversed.push(
                Publication {
                    exchange: String::from_str("blockchain_transactions"),
                    routing_key: Self::routing_key(tx.currency),
                    persistent: true,
                    transaction: tx,
                },
            );
        }
        let mut out: Vec<Publication> = Vec::new();
        while reversed.len() > 0
            invariant
                out.len() + reversed.len() == all.len(),
                forall|i: int|
                    0 <= i < reversed.len() ==> (#[trigger] reversed[i])@ == publication_of(
                        all[all.len() - 1 - i]@,
                    ),
                forall|i: int| 0 <= i < out.len() ==> (#[trigger] out[i])@ == publication_of(all[i]@),
            decreases reversed.len(),
        {
            let publication = reversed.pop().unwrap();
            out.push(publication);
        }
        out
    }
}

/// Every queue of the gateway is declared durable and then bound to the
/// exchange under its own name, and the exchange, durable and of type
/// `direct`, is declared before all of them.
pub proof fn law_topology_is_complete(queue: QueueName)
    ensures
        spec_topology()[0] == (DeclarationView::Exchange {
            name: "blockchain_transactions"@,
            kind: "direct"@,
            durable: true,
        }),
        exists|i: int, j: int|
            0 < i < j < spec_topology().len() && #[trigger] spec_topology()[i]
                == (DeclarationView::Queue { name: queue.name(), durable: true })
                && #[trigger] spec_topology()[j] == (DeclarationView::Binding {
                queue: queue.name(),
                exchange: "blockchain_transactions"@,
                routing_key: queue.name(),
            }),
{
    let t = spec_topology();
    match queue {
        QueueName::BtcTransactions => {
            assert(t[1] == queue_declaration(queue) && t[4] == binding_declaration(queue));
        },
        QueueName::StqTransactions => {
            assert(t[2] == queue_declaration(queue) && t[6] == binding_declaration(queue));
        },
        QueueName::EthTransactions => {
            assert(t[3] == queue_declaration(queue) && t[5] == binding_declaration(queue));
        },
        QueueName::EthCurrentBlock => {
            assert(t[7] == queue_declaration(queue) && t[9] == binding_declaration(queue));
        },
        QueueName::BtcCurrentBlock => {
            assert(t[8] == queue_declaration(queue) && t[10] == binding_declaration(queue));
        },
    }
}

/// Everything that is declared is durable, and nothing is declared but the
/// exchange, the queues and the bindings of the gateway.
pub proof fn law_topology_is_durable(i: int)
    requires
        0 <= i < spec_topology().len(),
    ensures
        match spec_topology()[i] {
            DeclarationView::Exchange { name, kind, durable } => durable && name == exchange_name()
                && kind == exchange_kind(),
            DeclarationView::Queue { name, durable } => durable && exists|q: QueueName|
                name == #[trigger] q.name(),
            DeclarationView::Binding { queue, exchange, routing_key } => exchange
                == exchange_name() && routing_key == queue && exists|q: QueueName|
                queue == #[trigger] q.name(),
        },
{
    let t = spec_topology();
    assert(QueueName::BtcTransactions.name() == "btc_transactions"@);
    assert(QueueName::EthTransactions.name() == "eth_transactions"@);
    assert(QueueName::StqTransactions.name() == "stq_transactions"@);
    assert(QueueName::BtcCurrentBlock.name() == "btc_current_block"@);
    assert(QueueName::EthCurrentBlock.name() == "eth_current_block"@);
}

/// The names of two different queues differ.
pub proof fn law_queue_names_differ(a: QueueName, b: QueueName)
    requires
        a != b,
    ensures
        a.name() != b.name(),
{
    reveal_strlit("btc_transactions");
    reveal_strlit("eth_transactions");
    reveal_strlit("stq_transactions");
    reveal_strlit("btc_current_block");
    reveal_strlit("eth_current_block");
    assert("btc_transactions"@[0] == 'b' && "btc_transactions"@.len() == 16);
    assert("eth_transactions"@[0] == 'e' && "eth_transactions"@.len() == 16);
    assert("stq_transactions"@[0] == 's' && "stq_transactions"@.len() == 16);
    assert("btc_current_block"@[0] == 'b' && "btc_current_block"@.len() == 17);
    assert("eth_current_block"@[0] == 'e' && "eth_current_block"@.len() == 17);
}

/// Nothing is declared twice.
pub proof fn law_topology_declares_once(i: int, j: int)
    requires
        0 <= i < j < spec_topology().len(),
    ensures
        spec_topology()[i] != spec_topology()[j],
{
    law_queue_names_differ(QueueName::BtcTransactions, QueueName::EthTransactions);
    law_queue_names_differ(QueueName::BtcTransactions, QueueName::StqTransactions);
    law_queue_names_differ(QueueName::BtcTransactions, QueueName::BtcCurrentBlock);
    law_queue_names_differ(QueueName::BtcTransactions, QueueName::EthCurrentBlock);
    law_queue_names_differ(QueueName::EthTransactions, QueueName::StqTransactions);
    law_queue_names_differ(QueueName::EthTransactions, QueueName::BtcCurrentBlock);
    law_queue_names_differ(QueueName::EthTransactions, QueueName::EthCurrentBlock);
    law_queue_names_differ(QueueName::StqTransactions, QueueName::BtcCurrentBlock);
    law_queue_names_differ(QueueName::StqTransactions, QueueName::EthCurrentBlock);
    law_queue_names_differ(QueueName::BtcCurrentBlock, QueueName::EthCurrentBlock);
}

} // verus!
