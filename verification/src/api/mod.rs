//! The HTTP interface: which handler a request goes to, and how a failure
//! is answered. Listening and answering is left to the program.
pub mod error;
pub mod requests;
pub mod responses;

pub use self::error::{error_response, kind_of, ErrorContext, ErrorKind, ErrorResponse, ErrorSource};

use crate::config::Config;
use crate::models::address::{BitcoinAddress, EthereumAddress};
use crate::text::{chars_of, same_text, string_of_range};
use vstd::prelude::*;

verus! {

/// The handler that a request goes to.
#[derive(Debug, Clone, PartialEq, Eq)]
pub enum Route {
    /// `GET /v1/bitcoin/{address}/utxos`
    GetUtxos(BitcoinAddress),
    /// `POST /v1/bitcoin/transactions/raw`
    PostBitcoinTransactions,
    /// `GET /v1/ethereum/{address}/nonce`
    GetNonce(EthereumAddress),
    /// `POST /v1/ethereum/transactions/raw`
    PostEthereumTransactions,
    /// Any other request.
    NotFound,
}

/// What a [`Route`] holds.
pub enum RouteView {
    GetUtxos(Seq<char>),
    PostBitcoinTransactions,
    GetNonce(Seq<char>),
    PostEthereumTransactions,
    NotFound,
}

impl View for Route {
    type V = RouteView;

    open spec fn view(&self) -> RouteView {
        match self {
            Route::GetUtxos(address) => RouteView::GetUtxos(address@),
            Route::PostBitcoinTransactions => RouteView::PostBitcoinTransactions,
            Route::GetNonce(address) => RouteView::GetNonce(address@),
            Route::PostEthereumTransactions => RouteView::PostEthereumTransactions,
            Route::NotFound => RouteView::NotFound,
        }
    }
}

/// Whether a text is one segment of a path: not empty, and without slash.
pub open spec fn is_segment(s: Seq<char>) -> bool {
    s.len() > 0 && forall|i: int| 0 <= i < s.len() ==> s[i] != '/'
}

/// The segment between `before` and `after`, where the path is made of
/// exactly these three.
pub open spec fn segment_between(path: Seq<char>, before: Seq<char>, after: Seq<char>) -> Option<
    Seq<char>,
> {
    let middle = path.subrange(before.len() as int, path.len() - after.len());
    if path.len() > before.len() + after.len() && path.take(before.len() as int) == before
        && path.skip(path.len() - after.len()) == after && is_segment(middle) {
        Some(middle)
    } else {
        None
    }
}

/// The handler for a method and a path.
pub open spec fn spec_route(method: Seq<char>, path: Seq<char>) -> RouteView {
    if method == "GET"@ {
        match segment_between(path, "/v1/bitcoin/"@, "/utxos"@) {
            Some(address) => RouteView::GetUtxos(address),
            None => match segment_between(path, "/v1/ethereum/"@, "/nonce"@) {
                Some(address) => RouteView::GetNonce(address),
                None => RouteView::NotFound,
            },
        }
    } else if method == "POST"@ {
        if path == "/v1/bitcoin/transactions/raw"@ {
            RouteView::PostBitcoinTransactions
        } else if path == "/v1/ethereum/transactions/raw"@ {
            RouteView::PostEthereumTransactions
        } else {
            RouteView::NotFound
        }
    } else {
        RouteView::NotFound
    }
}

fn matches_at(path: &Vec<char>, at: usize, part: &Vec<char>) -> (r: bool)
    requires
        at + part.len() <= path.len(),
    ensures
        r == (path@.subrange(at as int, at + part.len()) == part@),
{
    let mut i: usize = 0;
    while i < part.len()
        invariant
            i <= part.len(),
            at + part.len() <= path.len(),
            forall|k: int| 0 <= k < i ==> path[at + k] == part[k],
        decreases part.len() - i,
    {
        if path[at + i] != part[i] {
            assert(path@.subrange(at as int, at + part.len())[i as int] != part@[i as int]);
            return false;
        }
        i += 1;
    }
    assert(path@.subrange(at as int, at + part.len()) =~= part@);
    true
}

fn segment_of(path: &Vec<char>, before: &str, after: &str) -> (r: Option<String>)
    ensures
        r.is_some() == segment_between(path@, before@, after@).is_some(),
        r matches Some(s) ==> segment_between(path@, before@, after@) == Some(s@),
{
    let b = chars_of(before);
    let a = chars_of(after);
    if b.len() >= path.len() || a.len() >= path.len() - b.len() {
        return None;
    }
    let end = path.len() - a.len();
    assert(path@.take(b.len() as int) =~= path@.subrange(0, 0 + b.len()));
    assert(path@.skip(path.len() - a.len()) =~= path@.subrange(end as int, end + a.len()));
    if !matches_at(path, 0, &b) || !matches_at(path, end, &a) {
        return None;
    }
    let ghost middle = path@.subrange(b.len() as int, end as int);
    let mut i: usize = b.len();
    while i < end
        invariant
            b.len() <= i <= end <= path.len(),
            b@ == before@,
            a@ == after@,
            end == path.len() - a.len(),
            middle == path@.subrange(b.len() as int, end as int),
            forall|k: int| 0 <= k < i - b.len() ==> middle[k] != '/',
        decreases end - i,
    {
        if path[i] == '/' {
            assert(middle[i - b.len()] == '/');
            return None;
        }
        i += 1;
    }
    Some(string_of_range(path, b.len(), end))
}

/// Finds the handler for a request. `method` is the method in capitals,
/// `path` the path without its query. Every request that belongs to none of
/// the four handlers goes to `NotFound`.
pub fn route(method: &str, path: &str) -> (r: Route)
    ensures
        r@ == spec_route(method@, path@),
{
    let chars = chars_of(path);
    if same_text(method, "GET") {
        match segment_of(&chars, "/v1/bitcoin/", "/utxos") {
            Some(address) => match BitcoinAddress::from_str(address.as_str()) {
                Ok(address) => Route::GetUtxos(address),
                Err(_) => Route::NotFound,
            },
            None => match segment_of(&chars, "/v1/ethereum/", "/nonce") {
                Some(address) => match EthereumAddress::from_str(address.as_str()) {
                    Ok(address) => Route::GetNonce(address),
                    Err(_) => Route::NotFound,
                },
                None => Route::NotFound,
            },
        }
    } else if same_text(method, "POST") {
        if same_text(path, "/v1/bitcoin/transactions/raw") {
            Route::PostBitcoinTransactions
        } else if same_text(path, "/v1/ethereum/transactions/raw") {
            Route::PostEthereumTransactions
        } else {
            Route::NotFound
        }
    } else {
        Route::NotFound
    }
}

/// The address that the interface binds to: the host, a colon, the port.
pub fn server_address(config: &Config) -> (r: String)
    ensures
        r@ == config.server.host@ + ":"@ + config.server.port@,
{
    let mut address = config.server.host.clone();
    address.append(":");
    address.append(config.server.port.as_str());
    address
}

} // verus!
