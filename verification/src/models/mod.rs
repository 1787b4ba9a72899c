//! The records that the gateway exchanges with its callers and consumers.
pub mod address;
pub mod amount;
pub mod currency;
pub mod transaction;
pub mod utxo;

pub use self::address::{BitcoinAddress, EthereumAddress};
pub use self::amount::Amount;
pub use self::currency::Currency;
pub use self::transaction::{
    BlockchainTransaction, BlockchainTransactionEntry, Erc20OperationKind, RawBitcoinTransaction,
    RawEthereumTransaction, TxHash,
};
pub use self::utxo::Utxo;
