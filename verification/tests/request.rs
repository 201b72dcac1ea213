use txview::chain::SupportChain;
use txview::request::{build_request, credential_file, receipt_request_body, ConfigError,
    HttpMethod, OutboundRequest, QueryParameter};

fn parameter(name: &str, value: &str) -> QueryParameter {
    QueryParameter { name: String::from(name), value: String::from(value) }
}

#[test]
fn receipt_request_for_eth_mainnet() {
    let request = build_request(SupportChain::EthMainnet, "0xdead...beef", Some("KEY123")).unwrap();
    assert_eq!(request.method, HttpMethod::Post);
    assert_eq!(request.url, "https://mainnet.infura.io/v3/KEY123");
    assert_eq!(request.query, Vec::<QueryParameter>::new());
    assert_eq!(request.content_type.as_deref(), Some("application/json"));
    assert_eq!(
        request.body.as_deref(),
        Some(
            "{\"jsonrpc\":\"2.0\",\"method\":\"eth_getTransactionReceipt\",\"params\":[\"0xdead...beef\"],\"id\":1}"
        )
    );
    assert_eq!(request.target_url().as_deref(), Some("https://mainnet.infura.io/v3/KEY123"));
}

#[test]
fn explorer_request_for_oas_sandverse() {
    let request = build_request(SupportChain::OasSandverse, "0x1234", None).unwrap();
    assert_eq!(request.method, HttpMethod::Get);
    assert_eq!(request.url, "https://explorer.sandverse.oasys.games/api");
    assert_eq!(
        request.query,
        vec![
            parameter("module", "transaction"),
            parameter("action", "gettxinfo"),
            parameter("txhash", "0x1234"),
        ]
    );
    assert_eq!(request.content_type, None);
    assert_eq!(request.body, None);
    assert_eq!(
        request.target_url().as_deref(),
        Some(
            "https://explorer.sandverse.oasys.games/api?module=transaction&action=gettxinfo&txhash=0x1234"
        )
    );
}

#[test]
fn explorer_request_needs_no_credential_file() {
    assert_eq!(credential_file(SupportChain::OasSandverse, Some("/home/u")), Ok(None));
    assert_eq!(credential_file(SupportChain::OasSandverse, None), Ok(None));
}

#[test]
fn explorer_request_ignores_a_credential() {
    let with = build_request(SupportChain::OasSandverse, "0x1234", Some("KEY123")).unwrap();
    let without = build_request(SupportChain::OasSandverse, "0x1234", None).unwrap();
    assert_eq!(with, without);
}

#[test]
fn credential_file_lies_below_the_home_directory() {
    assert_eq!(
        credential_file(SupportChain::EthMainnet, Some("/home/u")),
        Ok(Some(String::from("/home/u/.config/txview/config")))
    );
    assert_eq!(
        credential_file(SupportChain::LineaGoerli, Some("")),
        Ok(Some(String::from("/.config/txview/config")))
    );
}

#[test]
fn unknown_home_directory_is_an_error_for_receipt_chains() {
    for chain in [
        SupportChain::EthMainnet,
        SupportChain::EthGoerli,
        SupportChain::EthSepolia,
        SupportChain::LineaMainnet,
        SupportChain::LineaGoerli,
    ] {
        assert_eq!(credential_file(chain, None), Err(ConfigError::HomeUnresolved));
    }
}

#[test]
fn receipt_request_without_credential_is_refused() {
    for chain in [
        SupportChain::EthMainnet,
        SupportChain::EthGoerli,
        SupportChain::EthSepolia,
        SupportChain::LineaMainnet,
        SupportChain::LineaGoerli,
    ] {
        assert_eq!(build_request(chain, "0x1234", None), Err(ConfigError::MissingCredential));
    }
}

#[test]
fn receipt_request_of_every_receipt_chain() {
    let cases = [
        (SupportChain::EthMainnet, "https://mainnet.infura.io/v3/k"),
        (SupportChain::EthGoerli, "https://goerli.infura.io/v3/k"),
        (SupportChain::EthSepolia, "https://sepolia.infura.io/v3/k"),
        (SupportChain::LineaMainnet, "https://linea-mainnet.infura.io/v3/k"),
        (SupportChain::LineaGoerli, "https://linea-goerli.infura.io/v3/k"),
    ];
    for (chain, url) in cases {
        let request = build_request(chain, "0xab", Some("k")).unwrap();
        assert_eq!(
            request,
            OutboundRequest {
                method: HttpMethod::Post,
                url: String::from(url),
                query: vec![],
                content_type: Some(String::from("application/json")),
                body: Some(String::from(
                    "{\"jsonrpc\":\"2.0\",\"method\":\"eth_getTransactionReceipt\",\"params\":[\"0xab\"],\"id\":1}"
                )),
            }
        );
    }
}

#[test]
fn credential_is_not_trimmed() {
    let request = build_request(SupportChain::EthGoerli, "0x1", Some("KEY123\n")).unwrap();
    assert_eq!(request.url, "https://goerli.infura.io/v3/KEY123\n");
}

#[test]
fn hash_is_not_validated() {
    let request = build_request(SupportChain::EthMainnet, "not a hash", Some("k")).unwrap();
    assert_eq!(
        request.body.as_deref(),
        Some(
            "{\"jsonrpc\":\"2.0\",\"method\":\"eth_getTransactionReceipt\",\"params\":[\"not a hash\"],\"id\":1}"
        )
    );
    let request = build_request(SupportChain::OasSandverse, "", None).unwrap();
    assert_eq!(request.query[2], parameter("txhash", ""));
}

#[test]
fn body_escapes_what_json_must_escape() {
    assert_eq!(
        receipt_request_body("a\"b\\c\nd\u{1}é"),
        "{\"jsonrpc\":\"2.0\",\"method\":\"eth_getTransactionReceipt\",\"params\":[\"a\\\"b\\\\c\\nd\\u0001é\"],\"id\":1}"
    );
}

#[test]
fn body_params_hold_the_hash_alone() {
    let body = receipt_request_body("0xdead\"beef");
    let value: serde_json::Value = serde_json::from_str(&body).unwrap();
    assert_eq!(value["jsonrpc"], serde_json::Value::from("2.0"));
    assert_eq!(value["method"], serde_json::Value::from("eth_getTransactionReceipt"));
    assert_eq!(value["id"], serde_json::Value::from(1));
    assert_eq!(value["params"], serde_json::Value::from(vec!["0xdead\"beef"]));
    assert_eq!(value.as_object().unwrap().len(), 4);
}

#[test]
fn target_url_encodes_the_hash() {
    let request = build_request(SupportChain::OasSandverse, "0x 12&3=é", None).unwrap();
    assert_eq!(
        request.target_url().as_deref(),
        Some(
            "https://explorer.sandverse.oasys.games/api?module=transaction&action=gettxinfo&txhash=0x+12%263%3D%C3%A9"
        )
    );
}

#[test]
fn target_url_of_an_unparseable_url() {
    let request = OutboundRequest {
        method: HttpMethod::Get,
        url: String::from("no url"),
        query: vec![parameter("a", "b")],
        content_type: None,
        body: None,
    };
    assert_eq!(request.target_url(), None);
}

#[test]
fn target_url_is_what_reqwest_sends_to() {
    let request = build_request(SupportChain::OasSandverse, "0x 12&3", None).unwrap();
    let pairs: Vec<(&str, &str)> =
        request.query.iter().map(|p| (p.name.as_str(), p.value.as_str())).collect();
    let built = reqwest::Client::new().get(&request.url).query(&pairs).build().unwrap();
    assert_eq!(request.target_url().as_deref(), Some(built.url().as_str()));
}
