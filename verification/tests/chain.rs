use txview::chain::{get_request_url, resolve_chain, ResponseFamily, SupportChain, UnsupportedChain};

fn all_chains() -> Vec<SupportChain> {
    vec![
        SupportChain::EthMainnet,
        SupportChain::EthGoerli,
        SupportChain::EthSepolia,
        SupportChain::LineaMainnet,
        SupportChain::LineaGoerli,
        SupportChain::OasSandverse,
    ]
}

#[test]
fn resolves_every_identifier() {
    assert_eq!(resolve_chain("eth-mainnet"), Ok(SupportChain::EthMainnet));
    assert_eq!(resolve_chain("eth-goerli"), Ok(SupportChain::EthGoerli));
    assert_eq!(resolve_chain("eth-sepolia"), Ok(SupportChain::EthSepolia));
    assert_eq!(resolve_chain("linea-mainnet"), Ok(SupportChain::LineaMainnet));
    assert_eq!(resolve_chain("linea-goerli"), Ok(SupportChain::LineaGoerli));
    assert_eq!(resolve_chain("oas-sandverse"), Ok(SupportChain::OasSandverse));
}

#[test]
fn resolves_each_chain_under_its_own_identifier() {
    for chain in all_chains() {
        assert_eq!(resolve_chain(chain.identifier()), Ok(chain));
    }
}

#[test]
fn refuses_unknown_names() {
    assert_eq!(resolve_chain("bitcoin"), Err(UnsupportedChain));
    assert_eq!(resolve_chain(""), Err(UnsupportedChain));
    assert_eq!(resolve_chain("eth-mainnet "), Err(UnsupportedChain));
    assert_eq!(resolve_chain("eth_mainnet"), Err(UnsupportedChain));
}

#[test]
fn identifiers_are_case_sensitive() {
    assert_eq!(resolve_chain("Eth-Mainnet"), Err(UnsupportedChain));
    assert_eq!(resolve_chain("EthMainnet"), Err(UnsupportedChain));
    assert_eq!(resolve_chain("OAS-SANDVERSE"), Err(UnsupportedChain));
}

#[test]
fn families_follow_the_documented_mapping() {
    assert_eq!(SupportChain::EthMainnet.family(), ResponseFamily::ReceiptStyle);
    assert_eq!(SupportChain::EthGoerli.family(), ResponseFamily::ReceiptStyle);
    assert_eq!(SupportChain::EthSepolia.family(), ResponseFamily::ReceiptStyle);
    assert_eq!(SupportChain::LineaMainnet.family(), ResponseFamily::ReceiptStyle);
    assert_eq!(SupportChain::LineaGoerli.family(), ResponseFamily::ReceiptStyle);
    assert_eq!(SupportChain::OasSandverse.family(), ResponseFamily::ExplorerStyle);
}

#[test]
fn resolved_chain_has_the_documented_family() {
    assert_eq!(resolve_chain("linea-goerli").unwrap().family(), ResponseFamily::ReceiptStyle);
    assert_eq!(resolve_chain("oas-sandverse").unwrap().family(), ResponseFamily::ExplorerStyle);
}

#[test]
fn display_names() {
    assert_eq!(SupportChain::EthMainnet.display_name(), "EthMainnet");
    assert_eq!(SupportChain::EthGoerli.display_name(), "EthGoerli");
    assert_eq!(SupportChain::EthSepolia.display_name(), "EthSepolia");
    assert_eq!(SupportChain::LineaMainnet.display_name(), "LineaMainnet");
    assert_eq!(SupportChain::LineaGoerli.display_name(), "LineaGoerli");
    assert_eq!(SupportChain::OasSandverse.display_name(), "OasSandverse");
}

#[test]
fn request_url_of_every_chain() {
    let key = String::from("KEY123");
    assert_eq!(
        get_request_url(SupportChain::EthMainnet, key.clone()),
        "https://mainnet.infura.io/v3/KEY123"
    );
    assert_eq!(
        get_request_url(SupportChain::EthGoerli, key.clone()),
        "https://goerli.infura.io/v3/KEY123"
    );
    assert_eq!(
        get_request_url(SupportChain::EthSepolia, key.clone()),
        "https://sepolia.infura.io/v3/KEY123"
    );
    assert_eq!(
        get_request_url(SupportChain::LineaMainnet, key.clone()),
        "https://linea-mainnet.infura.io/v3/KEY123"
    );
    assert_eq!(
        get_request_url(SupportChain::LineaGoerli, key.clone()),
        "https://linea-goerli.infura.io/v3/KEY123"
    );
    assert_eq!(
        get_request_url(SupportChain::OasSandverse, key),
        "https://explorer.sandverse.oasys.games/api"
    );
}

#[test]
fn request_url_keeps_the_credential_as_given() {
    let url = get_request_url(SupportChain::EthSepolia, String::from(" key with\tspace\n"));
    assert_eq!(url, "https://sepolia.infura.io/v3/ key with\tspace\n");
    assert!(url.starts_with(SupportChain::EthSepolia.base_url()));
    assert!(url.ends_with(" key with\tspace\n"));
}

#[test]
fn request_url_with_empty_credential() {
    assert_eq!(
        get_request_url(SupportChain::EthMainnet, String::new()),
        "https://mainnet.infura.io/v3/"
    );
    assert_eq!(
        get_request_url(SupportChain::OasSandverse, String::new()),
        "https://explorer.sandverse.oasys.games/api"
    );
}
