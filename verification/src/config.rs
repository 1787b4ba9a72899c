//! The settings of the gateway. Reading them from files and from the
//! environment is left to the program; this module holds their shape and
//! the names of the modes.
use vstd::prelude::*;

verus! {

#[derive(Debug, Clone)]
pub struct Config {
    pub server: Server,
    pub client: Client,
    pub mode: Mode,
    pub poller: Poller,
    pub rabbit: Rabbit,
}

/// The address that the HTTP interface binds to.
#[derive(Debug, Clone)]
pub struct Server {
    pub host: String,
    pub port: String,
}

#[derive(Debug, Clone)]
pub struct Database {
    pub url: String,
    pub thread_pool_size: usize,
}

/// The broker session.
#[derive(Debug, Clone)]
pub struct Rabbit {
    pub url: String,
    pub thread_pool_size: usize,
    pub connection_timeout_secs: usize,
    pub connection_pool_size: usize,
}

/// The nodes and the token contract that the clients speak to.
#[derive(Debug, Clone)]
pub struct Client {
    pub dns_threads: usize,
    pub infura_key: String,
    pub infura_secret: String,
    pub stq_contract_address: String,
    pub stq_transfer_topic: String,
    pub stq_approval_topic: String,
    pub bitcoin_rpc_url: String,
    pub bitcoin_rpc_user: String,
    pub bitcoin_rpc_password: String,
    pub stq_balance_method: String,
}

/// The pollers: whether they run, how often each ticks, and how many
/// recent blocks each sends again on every tick.
#[derive(Debug, Clone)]
pub struct Poller {
    pub enabled: bool,
    pub bitcoin_interval_secs: usize,
    pub bitcoin_number_of_tracked_confirmations: usize,
    pub ethereum_interval_secs: usize,
    pub ethereum_number_of_tracked_confirmations: usize,
    pub storiqa_interval_secs: usize,
    pub storiqa_number_of_tracked_confirmations: usize,
    pub ethereum_start_block: Option<u64>,
    pub storiqa_start_block: Option<u64>,
}

/// The environment that the gateway runs in. Only `Production` speaks to
/// the main networks; every other mode speaks to the test networks.
#[derive(Debug, Clone, Copy, PartialEq, Eq, Structural)]
pub enum Mode {
    Nightly,
    Stable,
    Stage,
    Production,
}

impl Mode {
    /// The mode that a name of the configuration stands for.
    pub open spec fn of_name(name: Seq<char>) -> Option<Mode> {
        if name == "nightly"@ {
            Some(Mode::Nightly)
        } else if name == "stable"@ {
            Some(Mode::Stable)
        } else if name == "stage"@ {
            Some(Mode::Stage)
        } else if name == "production"@ {
            Some(Mode::Production)
        } else {
            None
        }
    }
}

/// Reads the name of a mode. For a name that is none of the four, the error
/// is the text `unknown mode: ` followed by the name.
pub fn deserialize_mode(name: &str) -> (r: Result<Mode, String>)
    ensures
        match r {
            Ok(mode) => Mode::of_name(name@) == Some(mode),
            Err(message) => Mode::of_name(name@).is_none() && message@ == "unknown mode: "@
                + name@,
        },
{
    if crate::text::same_text(name, "nightly") {
        Ok(Mode::Nightly)
    } else if crate::text::same_text(name, "stable") {
        Ok(Mode::Stable)
    } else if crate::text::same_text(name, "stage") {
        Ok(Mode::Stage)
    } else if crate::text::same_text(name, "production") {
        Ok(Mode::Production)
    } else {
        let mut message = String::from_str("unknown mode: ");
        message.append(name);
        Err(message)
    }
}

} // verus!
