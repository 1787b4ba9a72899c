//! The HTTP exchange with a node, as values: the request to send, and what
//! the status of the answer means. Sending and receiving is left to the
//! program.
use super::error::{Error, ErrorKind, ErrorSource};
use vstd::prelude::*;

verus! {

/// The HTTP methods that the clients use.
#[derive(Debug, Clone, Copy, PartialEq, Eq, Structural)]
pub enum HttpMethod {
    Get,
    Post,
}

/// A parameter of a JSON-RPC call.
#[derive(Debug, Clone, PartialEq, Eq)]
pub enum RpcParam {
    /// A JSON string.
    Text(String),
    /// A JSON boolean.
    Flag(bool),
    /// The filter of `eth_getLogs`: the logs of one contract with one first
    /// topic, in the blocks `from_block` to `to_block`.
    /// As JSON: `{"address": .., "topics": [topic], "fromBlock": .., "toBlock": ..}`.
    LogFilter { address: String, topic: String, from_block: String, to_block: String },
    /// The message of `eth_call`. As JSON: `{"to": .., "data": ..}`.
    Message { to: String, data: String },
}

/// What a [`RpcParam`] holds.
pub enum RpcParamView {
    Text(Seq<char>),
    Flag(bool),
    LogFilter { address: Seq<char>, topic: Seq<char>, from_block: Seq<char>, to_block: Seq<char> },
    Message { to: Seq<char>, data: Seq<char> },
}

impl View for RpcParam {
    type V = RpcParamView;

    open spec fn view(&self) -> RpcParamView {
        match self {
            RpcParam::Text(s) => RpcParamView::Text(s@),
            RpcParam::Flag(b) => RpcParamView::Flag(*b),
            RpcParam::LogFilter { address, topic, from_block, to_block } => RpcParamView::LogFilter {
                address: address@,
                topic: topic@,
                from_block: from_block@,
                to_block: to_block@,
            },
            RpcParam::Message { to, data } => RpcParamView::Message { to: to@, data: data@ },
        }
    }
}

impl DeepView for RpcParam {
    type V = RpcParamView;

    open spec fn deep_view(&self) -> RpcParamView {
        self@
    }
}

/// The dialect of JSON-RPC that a node speaks.
#[derive(Debug, Clone, Copy, PartialEq, Eq, Structural)]
pub enum RpcDialect {
    /// A Bitcoin node: `"jsonrpc": "2"` and `"id": "1"`.
    Bitcoin,
    /// An Ethereum node: `"jsonrpc": "2.0"` and `"id": 1`.
    Ethereum,
}

/// A JSON-RPC call: the method and its parameters, in their order.
#[derive(Debug, Clone, PartialEq, Eq)]
pub struct RpcCall {
    pub dialect: RpcDialect,
    pub method: String,
    pub params: Vec<RpcParam>,
}

/// What a [`RpcCall`] holds.
pub struct RpcCallView {
    pub dialect: RpcDialect,
    pub method: Seq<char>,
    pub params: Seq<RpcParamView>,
}

impl View for RpcCall {
    type V = RpcCallView;

    open spec fn view(&self) -> RpcCallView {
        RpcCallView { dialect: self.dialect, method: self.method@, params: self.params.deep_view() }
    }
}

/// A request to send: the method, the address, the two headers that the
/// clients set, and the call that makes the body. Without a call the body is
/// empty.
#[derive(Debug, Clone, PartialEq, Eq)]
pub struct HttpRequest {
    pub method: HttpMethod,
    pub uri: String,
    pub authorization: Option<String>,
    pub content_type: Option<String>,
    pub call: Option<RpcCall>,
}

/// What a [`HttpRequest`] holds.
pub struct HttpRequestView {
    pub method: HttpMethod,
    pub uri: Seq<char>,
    pub authorization: Option<Seq<char>>,
    pub content_type: Option<Seq<char>>,
    pub call: Option<RpcCallView>,
}

/// The characters of a string that may be absent.
pub open spec fn text_of(s: Option<String>) -> Option<Seq<char>> {
    match s {
        Some(s) => Some(s@),
        None => None,
    }
}

impl View for HttpRequest {
    type V = HttpRequestView;

    open spec fn view(&self) -> HttpRequestView {
        HttpRequestView {
            method: self.method,
            uri: self.uri@,
            authorization: text_of(self.authorization),
            content_type: text_of(self.content_type),
            call: match self.call {
                Some(c) => Some(c@),
                None => None,
            },
        }
    }
}

/// The levels of the log.
#[derive(Debug, Clone, Copy, PartialEq, Eq, Structural)]
pub enum LogLevel {
    Error,
    Warn,
    Info,
    Debug,
    Trace,
}

/// The error kind that an HTTP status stands for: none below 400 and from
/// 600 on; a kind of its own for 400, 401, 404, 500, 502 and 504; and
/// `UnknownServerError` for every other status from 400 to 599.
pub open spec fn spec_status_error(status: u16) -> Option<ErrorKind> {
    if status < 400 || status >= 600 {
        None
    } else if status == 400 {
        Some(ErrorKind::BadRequest)
    } else if status == 401 {
        Some(ErrorKind::Unauthorized)
    } else if status == 404 {
        Some(ErrorKind::NotFound)
    } else if status == 500 {
        Some(ErrorKind::InternalServer)
    } else if status == 502 {
        Some(ErrorKind::BadGateway)
    } else if status == 504 {
        Some(ErrorKind::GatewayTimeout)
    } else {
        Some(ErrorKind::UnknownServerError)
    }
}

/// The HTTP client of the gateway, without its connection: it decides
/// what an answer means and whether an exchange is logged.
#[derive(Debug, Clone, Copy)]
pub struct HttpClientImpl {
    log_level: LogLevel,
}

impl HttpClientImpl {
    /// A client that logs its exchanges at `log_level`.
    pub fn new(log_level: LogLevel) -> (r: Self)
        ensures
            r.log_level() == log_level,
    {
        HttpClientImpl { log_level }
    }

    /// The level at which exchanges are logged.
    pub closed spec fn log_level(self) -> LogLevel {
        self.log_level
    }

    /// Whether requests and answers are logged: only where the log as a
    /// whole lets debug messages through. Then both are logged, at the
    /// level of this client; else neither is.
    pub fn logs_exchange(&self, max_level: LogLevel) -> (r: Option<LogLevel>)
        ensures
            r == if max_level == LogLevel::Debug || max_level == LogLevel::Trace {
                Some(self.log_level())
            } else {
                None
            },
    {
        match max_level {
            LogLevel::Debug | LogLevel::Trace => Some(self.log_level),
            _ => None,
        }
    }

    /// The error kind that a status stands for.
    pub fn status_error(status: u16) -> (r: Option<ErrorKind>)
        ensures
            r == spec_status_error(status),
    {
        if status < 400 || status >= 600 {
            None
        } else {
            Some(
                match status {
                    400 => ErrorKind::BadRequest,
                    401 => ErrorKind::Unauthorized,
                    404 => ErrorKind::NotFound,
                    500 => ErrorKind::InternalServer,
                    502 => ErrorKind::BadGateway,
                    504 => ErrorKind::GatewayTimeout,
                    _ => ErrorKind::UnknownServerError,
                },
            )
        }
    }

    /// Judges an answer by its status. An answer with an error status
    /// becomes an error of the kind of the status, with the server as its
    /// source and the body as its message. Any other answer passes.
    pub fn check_response(status: u16, body: String) -> (r: Result<(), Error>)
        ensures
            match r {
                Ok(_) => spec_status_error(status).is_none(),
                Err(e) => spec_status_error(status) == Some(e.kind) && e.source == Some(
                    ErrorSource::Server,
                ) && e.context.is_none() && e.message@ == body@,
            },
    {
        match Self::status_error(status) {
            None => Ok(()),
            Some(kind) => Err(
                Error { kind, context: None, source: Some(ErrorSource::Server), message: body },
            ),
        }
    }
}

} // verus!
