//! The outbound request: where it goes and what it carries.
//!
//! Receipt-style chains are asked by a JSON-RPC `POST` to the chain's base
//! URL followed by the credential; explorer-style chains by a `GET` to the
//! explorer's API with three query parameters. The transaction hash is
//! passed on as it is given.

use vstd::prelude::*;
use vstd::string::*;
use vstd::pervasive::unreached;
use crate::chain::{chain_family, get_request_url, request_url, ResponseFamily, SupportChain};

verus! {

/// The HTTP method of a request.
#[derive(Clone, Copy, Debug, PartialEq, Eq, Structural)]
pub enum HttpMethod {
    Get,
    Post,
}

/// Why no request could be built.
#[derive(Clone, Copy, Debug, PartialEq, Eq, Structural)]
pub enum ConfigError {
    /// The home directory is not known, so the credential cannot be found.
    HomeUnresolved,
    /// The chain needs a credential and none was given.
    MissingCredential,
}

/// A name and a value of a query string.
#[derive(Debug, PartialEq, Eq)]
pub struct QueryParameter {
    pub name: String,
    pub value: String,
}

/// A request, ready to be sent.
#[derive(Debug, PartialEq, Eq)]
pub struct OutboundRequest {
    pub method: HttpMethod,
    /// The URL without its query parameters.
    pub url: String,
    /// The query parameters, in the order in which they are sent.
    pub query: Vec<QueryParameter>,
    pub content_type: Option<String>,
    pub body: Option<String>,
}

/// The mathematical value of an `OutboundRequest`.
pub struct OutboundRequestView {
    pub method: HttpMethod,
    pub url: Seq<char>,
    pub query: Seq<(Seq<char>, Seq<char>)>,
    pub content_type: Option<Seq<char>>,
    pub body: Option<Seq<char>>,
}

/// Query parameters as pairs of name and value.
pub open spec fn query_view(query: Seq<QueryParameter>) -> Seq<(Seq<char>, Seq<char>)> {
    Seq::new(query.len(), |i: int| (query[i].name@, query[i].value@))
}

impl View for OutboundRequest {
    type V = OutboundRequestView;

    open spec fn view(&self) -> OutboundRequestView {
        OutboundRequestView {
            method: self.method,
            url: self.url@,
            query: query_view(self.query@),
            content_type: match self.content_type {
                Some(t) => Some(t@),
                None => None,
            },
            body: match self.body {
                Some(b) => Some(b@),
                None => None,
            },
        }
    }
}

/// `s` as a JSON string, between its quotes.
pub uninterp spec fn json_string(s: Seq<char>) -> Seq<char>;

/// A URL with query parameters added to it, if the URL can be parsed.
pub uninterp spec fn url_with_params(url: Seq<char>, query: Seq<(Seq<char>, Seq<char>)>) -> Option<
    Seq<char>,
>;

/// No character of `s` needs an escape in JSON: none is a double quote, a
/// backslash or a control character below U+0020.
pub open spec fn is_plain(s: Seq<char>) -> bool {
    forall|i: int|
        0 <= i < s.len() ==> (#[trigger] s[i]) != '"' && s[i] != '\\' && s[i] as u32 >= 0x20
}

/// `s` between double quotes.
pub open spec fn quoted(s: Seq<char>) -> Seq<char> {
    "\""@ + s + "\""@
}

/// Calls `serde_json::to_string` on a string slice. Trusted: the call
/// succeeds, since it writes into memory and a string always has a JSON
/// form; its result depends on the characters alone; and a string in which
/// nothing needs an escape is written between double quotes unchanged.
#[verifier::external_body]
fn json_string_of(s: &str) -> (r: Result<String, serde_json::Error>)
    ensures
        r is Ok,
        r->Ok_0@ == json_string(s@),
        is_plain(s@) ==> r->Ok_0@ == quoted(s@),
{
    serde_json::to_string(s)
}

/// Calls `Url::parse_with_params`, as `reqwest` exports it, and writes the
/// URL out. Trusted: the result depends on the URL and the parameters
/// alone. With no parameter the call would leave a lone `?` behind, which
/// `reqwest` takes off again, so at least one parameter is asked for.
#[verifier::external_body]
fn url_with_query(url: &str, query: &Vec<QueryParameter>) -> (r: Option<String>)
    requires
        query@.len() > 0,
    ensures
        match r {
            Some(t) => url_with_params(url@, query_view(query@)) == Some(t@),
            None => url_with_params(url@, query_view(query@)) is None,
        },
{
    let pairs = query.iter().map(|p| (p.name.as_str(), p.value.as_str()));
    reqwest::Url::parse_with_params(url, pairs).ok().map(String::from)
}

/// A JSON-RPC call of `eth_getTransactionReceipt`, version `2.0` and
/// request 1, whose `params` hold the one item `item`, a JSON value in
/// text.
pub open spec fn receipt_call(item: Seq<char>) -> Seq<char> {
    "{\"jsonrpc\":\"2.0\",\"method\":\"eth_getTransactionReceipt\",\"params\":["@ + item
        + "],\"id\":1}"@
}

/// The JSON-RPC body that asks for the receipt of `tx_hash`.
pub open spec fn receipt_body(tx_hash: Seq<char>) -> Seq<char> {
    receipt_call(json_string(tx_hash))
}

/// The body of a request whose hash is written between quotes unchanged.
pub open spec fn plain_receipt_body(tx_hash: Seq<char>) -> Seq<char> {
    receipt_call(quoted(tx_hash))
}

/// The query parameters that ask the explorer for `tx_hash`.
pub open spec fn explorer_query(tx_hash: Seq<char>) -> Seq<(Seq<char>, Seq<char>)> {
    seq![("module"@, "transaction"@), ("action"@, "gettxinfo"@), ("txhash"@, tx_hash)]
}

/// The request for `tx_hash` on `chain`.
pub open spec fn built_request(
    chain: SupportChain,
    tx_hash: Seq<char>,
    credential: Seq<char>,
) -> OutboundRequestView {
    match chain_family(chain) {
        ResponseFamily::ReceiptStyle => OutboundRequestView {
            method: HttpMethod::Post,
            url: request_url(chain, credential),
            query: Seq::empty(),
            content_type: Some("application/json"@),
            body: Some(receipt_body(tx_hash)),
        },
        ResponseFamily::ExplorerStyle => OutboundRequestView {
            method: HttpMethod::Get,
            url: request_url(chain, credential),
            query: explorer_query(tx_hash),
            content_type: None,
            body: None,
        },
    }
}

/// The file that holds the credential, below the home directory.
pub open spec fn credential_path_of(home: Seq<char>) -> Seq<char> {
    home + "/.config/txview/config"@
}

/// The file from which the credential for `chain` is to be read: none for an
/// explorer-style chain, which needs no credential and for which nothing is
/// looked up; for a receipt-style chain the file below `home`, and an error
/// where the home directory is not known.
pub fn credential_file(chain: SupportChain, home: Option<&str>) -> (r: Result<
    Option<String>,
    ConfigError,
>)
    ensures
        chain_family(chain) == ResponseFamily::ExplorerStyle ==> r == Ok::<
            Option<String>,
            ConfigError,
        >(None),
        chain_family(chain) == ResponseFamily::ReceiptStyle ==> match home {
            Some(h) => r matches Ok(Some(path)) && path@ == credential_path_of(h@),
            None => r == Err::<Option<String>, ConfigError>(ConfigError::HomeUnresolved),
        },
{
    match chain.family() {
        ResponseFamily::ExplorerStyle => Ok(None),
        ResponseFamily::ReceiptStyle => match home {
            Some(h) => {
                let mut path = h.to_owned();
                path.append("/.config/txview/config");
                Ok(Some(path))
            },
            None => Err(ConfigError::HomeUnresolved),
        },
    }
}

/// A JSON-RPC call for a receipt with `item` as the only item of `params`.
pub fn receipt_call_body(item: &str) -> (body: String)
    ensures
        body@ == receipt_call(item@),
{
    let mut body =
        "{\"jsonrpc\":\"2.0\",\"method\":\"eth_getTransactionReceipt\",\"params\":[".to_owned();
    body.append(item);
    body.append("],\"id\":1}");
    body
}

/// The JSON-RPC body that asks for the receipt of `tx_hash`. A hash in
/// which nothing needs an escape stands in it unchanged, between quotes, as
/// the only item of `params`.
pub fn receipt_request_body(tx_hash: &str) -> (body: String)
    ensures
        body@ == receipt_body(tx_hash@),
        is_plain(tx_hash@) ==> body@ == plain_receipt_body(tx_hash@),
{
    let hash = match json_string_of(tx_hash) {
        Ok(t) => t,
        Err(_) => unreached(),
    };
    receipt_call_body(hash.as_str())
}

/// Builds the request for `tx_hash` on `chain`. A receipt-style chain needs
/// a credential, which becomes the last segment of the URL as it is given;
/// an explorer-style chain ignores it. The hash is not validated.
pub fn build_request(chain: SupportChain, tx_hash: &str, credential: Option<&str>) -> (r: Result<
    OutboundRequest,
    ConfigError,
>)
    ensures
        match r {
            Ok(request) => {
                &&& chain_family(chain) == ResponseFamily::ReceiptStyle ==> credential is Some
                &&& request@ == built_request(
                    chain,
                    tx_hash@,
                    match credential {
                        Some(c) => c@,
                        None => Seq::empty(),
                    },
                )
                &&& is_plain(tx_hash@) && chain_family(chain) == ResponseFamily::ReceiptStyle
                    ==> request@.body == Some(plain_receipt_body(tx_hash@))
            },
            Err(e) => {
                &&& e == ConfigError::MissingCredential
                &&& chain_family(chain) == ResponseFamily::ReceiptStyle
                &&& credential is None
            },
        },
{
    match chain.family() {
        ResponseFamily::ReceiptStyle => match credential {
            Some(c) => {
                let request = OutboundRequest {
                    method: HttpMethod::Post,
                    url: get_request_url(chain, c.to_owned()),
                    query: Vec::new(),
                    content_type: Some("application/json".to_owned()),
                    body: Some(receipt_request_body(tx_hash)),
                };
                assert(request@.query =~= Seq::empty());
                Ok(request)
            },
            None => Err(ConfigError::MissingCredential),
        },
        ResponseFamily::ExplorerStyle => {
            let mut query: Vec<QueryParameter> = Vec::new();
            query.push(
                QueryParameter { name: "module".to_owned(), value: "transaction".to_owned() },
            );
            query.push(QueryParameter { name: "action".to_owned(), value: "gettxinfo".to_owned() });
            query.push(QueryParameter { name: "txhash".to_owned(), value: tx_hash.to_owned() });
            assert(query_view(query@) =~= explorer_query(tx_hash@));
            let url = match credential {
                Some(c) => get_request_url(chain, c.to_owned()),
                None => get_request_url(chain, String::new()),
            };
            Ok(
                OutboundRequest {
                    method: HttpMethod::Get,
                    url,
                    query,
                    content_type: None,
                    body: None,
                },
            )
        },
    }
}

/// The URL of a request with its query parameters, where it has any, or
/// `None` where the URL cannot be parsed.
pub open spec fn target_of(request: OutboundRequestView) -> Option<Seq<char>> {
    if request.query.len() == 0 {
        Some(request.url)
    } else {
        url_with_params(request.url, request.query)
    }
}

impl OutboundRequest {
    /// The URL that the request goes to, query parameters included.
    pub fn target_url(&self) -> (r: Option<String>)
        ensures
            match r {
                Some(t) => target_of(self@) == Some(t@),
                None => target_of(self@) is None,
            },
    {
        if self.query.len() == 0 {
            Some(self.url.clone())
        } else {
            url_with_query(self.url.as_str(), &self.query)
        }
    }
}

} // verus!
