//! The closed registry of supported chains.
//!
//! Every chain carries a response family, which selects the wire schema and
//! the formatting rules, and a base URL from which requests are built.

use vstd::prelude::*;
use vstd::string::*;
use crate::text::same_text;

verus! {

/// Which response schema and formatting rules a chain uses.
#[derive(Clone, Copy, Debug, PartialEq, Eq, Structural)]
pub enum ResponseFamily {
    /// JSON-RPC transaction receipts, numeric fields in `0x` hexadecimal.
    ReceiptStyle,
    /// Block-explorer REST payloads, numeric fields in plain decimal.
    ExplorerStyle,
}

/// A supported chain.
#[derive(Clone, Copy, Debug, PartialEq, Eq, Structural)]
pub enum SupportChain {
    /// Ethereum main-net
    EthMainnet,
    /// Ethereum test-net
    EthGoerli,
    /// Ethereum test-net
    EthSepolia,
    /// Linea main-net
    LineaMainnet,
    /// Linea test-net
    LineaGoerli,
    /// Oasys sandverse test-net
    OasSandverse,
}

/// The name given to `resolve_chain` was not one of the registered identifiers.
#[derive(Clone, Copy, Debug, PartialEq, Eq, Structural)]
pub struct UnsupportedChain;

/// The identifier under which a chain is selected.
pub open spec fn chain_identifier(chain: SupportChain) -> Seq<char> {
    match chain {
        SupportChain::EthMainnet => "eth-mainnet"@,
        SupportChain::EthGoerli => "eth-goerli"@,
        SupportChain::EthSepolia => "eth-sepolia"@,
        SupportChain::LineaMainnet => "linea-mainnet"@,
        SupportChain::LineaGoerli => "linea-goerli"@,
        SupportChain::OasSandverse => "oas-sandverse"@,
    }
}

/// The name shown for a chain in reports.
pub open spec fn chain_display_name(chain: SupportChain) -> Seq<char> {
    match chain {
        SupportChain::EthMainnet => "EthMainnet"@,
        SupportChain::EthGoerli => "EthGoerli"@,
        SupportChain::EthSepolia => "EthSepolia"@,
        SupportChain::LineaMainnet => "LineaMainnet"@,
        SupportChain::LineaGoerli => "LineaGoerli"@,
        SupportChain::OasSandverse => "OasSandverse"@,
    }
}

/// The response family of each chain: Ethereum and Linea nodes answer with
/// receipts, the Oasys explorer with its own schema.
pub open spec fn chain_family(chain: SupportChain) -> ResponseFamily {
    match chain {
        SupportChain::OasSandverse => ResponseFamily::ExplorerStyle,
        _ => ResponseFamily::ReceiptStyle,
    }
}

/// The base URL of a chain's endpoint, without credential or query.
pub open spec fn chain_base_url(chain: SupportChain) -> Seq<char> {
    match chain {
        SupportChain::EthMainnet => "https://mainnet.infura.io/v3"@,
        SupportChain::EthGoerli => "https://goerli.infura.io/v3"@,
        SupportChain::EthSepolia => "https://sepolia.infura.io/v3"@,
        SupportChain::LineaMainnet => "https://linea-mainnet.infura.io/v3"@,
        SupportChain::LineaGoerli => "https://linea-goerli.infura.io/v3"@,
        SupportChain::OasSandverse => "https://explorer.sandverse.oasys.games/api"@,
    }
}

/// The chain registered under `name`, if any.
pub open spec fn resolved_chain(name: Seq<char>) -> Option<SupportChain> {
    if name == chain_identifier(SupportChain::EthMainnet) {
        Some(SupportChain::EthMainnet)
    } else if name == chain_identifier(SupportChain::EthGoerli) {
        Some(SupportChain::EthGoerli)
    } else if name == chain_identifier(SupportChain::EthSepolia) {
        Some(SupportChain::EthSepolia)
    } else if name == chain_identifier(SupportChain::LineaMainnet) {
        Some(SupportChain::LineaMainnet)
    } else if name == chain_identifier(SupportChain::LineaGoerli) {
        Some(SupportChain::LineaGoerli)
    } else if name == chain_identifier(SupportChain::OasSandverse) {
        Some(SupportChain::OasSandverse)
    } else {
        None
    }
}

/// The URL a request for `chain` is sent to: the base URL, followed for
/// receipt-style chains by `/` and the credential, unaltered.
pub open spec fn request_url(chain: SupportChain, credential: Seq<char>) -> Seq<char> {
    match chain_family(chain) {
        ResponseFamily::ReceiptStyle => chain_base_url(chain) + "/"@ + credential,
        ResponseFamily::ExplorerStyle => chain_base_url(chain),
    }
}

impl SupportChain {
    /// The identifier under which this chain is selected.
    pub fn identifier(&self) -> (r: &'static str)
        ensures
            r@ == chain_identifier(*self),
    {
        match self {
            SupportChain::EthMainnet => "eth-mainnet",
            SupportChain::EthGoerli => "eth-goerli",
            SupportChain::EthSepolia => "eth-sepolia",
            SupportChain::LineaMainnet => "linea-mainnet",
            SupportChain::LineaGoerli => "linea-goerli",
            SupportChain::OasSandverse => "oas-sandverse",
        }
    }

    /// The name shown for this chain in reports.
    pub fn display_name(&self) -> (r: &'static str)
        ensures
            r@ == chain_display_name(*self),
    {
        match self {
            SupportChain::EthMainnet => "EthMainnet",
            SupportChain::EthGoerli => "EthGoerli",
            SupportChain::EthSepolia => "EthSepolia",
            SupportChain::LineaMainnet => "LineaMainnet",
            SupportChain::LineaGoerli => "LineaGoerli",
            SupportChain::OasSandverse => "OasSandverse",
        }
    }

    /// The response family of this chain.
    pub fn family(&self) -> (r: ResponseFamily)
        ensures
            r == chain_family(*self),
    {
        match self {
            SupportChain::OasSandverse => ResponseFamily::ExplorerStyle,
            _ => ResponseFamily::ReceiptStyle,
        }
    }

    /// The base URL of this chain's endpoint.
    pub fn base_url(&self) -> (r: &'static str)
        ensures
            r@ == chain_base_url(*self),
    {
        match self {
            SupportChain::EthMainnet => "https://mainnet.infura.io/v3",
            SupportChain::EthGoerli => "https://goerli.infura.io/v3",
            SupportChain::EthSepolia => "https://sepolia.infura.io/v3",
            SupportChain::LineaMainnet => "https://linea-mainnet.infura.io/v3",
            SupportChain::LineaGoerli => "https://linea-goerli.infura.io/v3",
            SupportChain::OasSandverse => "https://explorer.sandverse.oasys.games/api",
        }
    }
}

/// Looks a chain up by its identifier. Matching is exact and case-sensitive;
/// any other name is refused.
pub fn resolve_chain(name: &str) -> (r: Result<SupportChain, UnsupportedChain>)
    ensures
        match r {
            Ok(chain) => resolved_chain(name@) == Some(chain),
            Err(_) => resolved_chain(name@) is None,
        },
{
    if same_text(name, "eth-mainnet") {
        Ok(SupportChain::EthMainnet)
    } else if same_text(name, "eth-goerli") {
        Ok(SupportChain::EthGoerli)
    } else if same_text(name, "eth-sepolia") {
        Ok(SupportChain::EthSepolia)
    } else if same_text(name, "linea-mainnet") {
        Ok(SupportChain::LineaMainnet)
    } else if same_text(name, "linea-goerli") {
        Ok(SupportChain::LineaGoerli)
    } else if same_text(name, "oas-sandverse") {
        Ok(SupportChain::OasSandverse)
    } else {
        Err(UnsupportedChain)
    }
}

/// The URL to which the request for `chain_name` goes. The credential is
/// used for receipt-style chains only and is inserted as it is given.
pub fn get_request_url(chain_name: SupportChain, api_key: String) -> (url: String)
    ensures
        url@ == request_url(chain_name, api_key@),
{
    let mut url = chain_name.base_url().to_owned();
    match chain_name.family() {
        ResponseFamily::ReceiptStyle => {
            url.append("/");
            url.append(api_key.as_str());
        },
        ResponseFamily::ExplorerStyle => {},
    }
    url
}

/// Two chains share an identifier only if they are the same chain.
pub proof fn lemma_identifiers_distinct(a: SupportChain, b: SupportChain)
    ensures
        chain_identifier(a) == chain_identifier(b) <==> a == b,
{
    reveal_strlit("eth-mainnet");
    reveal_strlit("eth-goerli");
    reveal_strlit("eth-sepolia");
    reveal_strlit("linea-mainnet");
    reveal_strlit("linea-goerli");
    reveal_strlit("oas-sandverse");
    let x = chain_identifier(a);
    let y = chain_identifier(b);
    if a != b && x.len() == y.len() {
        assert(x[4] != y[4] || x[6] != y[6]);
    }
}

/// Every registered chain is found under its own identifier, and the chain
/// found has the documented family: explorer-style for the Oasys sandverse,
/// receipt-style for every Ethereum and Linea network.
pub proof fn lemma_resolve_registered(chain: SupportChain)
    ensures
        resolved_chain(chain_identifier(chain)) == Some(chain),
        chain_family(chain) == ResponseFamily::ExplorerStyle <==> chain
            == SupportChain::OasSandverse,
        chain_family(chain) == ResponseFamily::ReceiptStyle <==> chain
            != SupportChain::OasSandverse,
{
    lemma_identifiers_distinct(chain, SupportChain::EthMainnet);
    lemma_identifiers_distinct(chain, SupportChain::EthGoerli);
    lemma_identifiers_distinct(chain, SupportChain::EthSepolia);
    lemma_identifiers_distinct(chain, SupportChain::LineaMainnet);
    lemma_identifiers_distinct(chain, SupportChain::LineaGoerli);
    lemma_identifiers_distinct(chain, SupportChain::OasSandverse);
}

/// The URL for a receipt-style chain begins with the chain's base URL and
/// ends with the credential exactly as given.
pub proof fn lemma_url_holds_credential(chain: SupportChain, credential: Seq<char>)
    requires
        chain_family(chain) == ResponseFamily::ReceiptStyle,
    ensures
        ({
            let url = request_url(chain, credential);
            let base = chain_base_url(chain);
            &&& url.len() == base.len() + 1 + credential.len()
            &&& url.subrange(0, base.len() as int) == base
            &&& url.subrange(url.len() - credential.len(), url.len() as int) == credential
        }),
{
    reveal_strlit("/");
    let url = request_url(chain, credential);
    let base = chain_base_url(chain);
    assert(url.subrange(0, base.len() as int) =~= base);
    assert(url.subrange(url.len() - credential.len(), url.len() as int) =~= credential);
}

} // verus!
