use txview::chain::ResponseFamily;
use txview::explorer::{ExplorerLog, ExplorerResponse, ExplorerTransaction};
use txview::json::{parse_document, Json, Member, ParseError};
use txview::receipt::{ReceiptLog, ReceiptResponse, ReceiptTransaction};
use txview::response::{decode_response, parse, ParsedResponse};

const RECEIPT: &str = r#"{
  "jsonrpc": "2.0",
  "id": 1,
  "result": {
    "blockHash": "0xb10c",
    "blockNumber": "0x10",
    "contractAddress": null,
    "cumulativeGasUsed": "0x5208",
    "effectiveGasPrice": "0x3b9aca00",
    "from": "0xf00",
    "gasUsed": "0x0005208",
    "logs": [
      {
        "address": "0xadd",
        "blockHash": "0xb10c",
        "blockNumber": "0x10",
        "data": "0x",
        "logIndex": "0x0",
        "removed": false,
        "topics": ["0xt0", "0xt1"],
        "transactionHash": "0x7a",
        "transactionIndex": "0x1"
      }
    ],
    "logsBloom": "0x00",
    "status": "0x1",
    "to": "0x70",
    "transactionHash": "0x7a",
    "transactionIndex": "0x1",
    "type": "0x2"
  }
}"#;

const EXPLORER: &str = r#"{
  "message": "OK",
  "result": {
    "blockNumber": "123",
    "confirmations": "5",
    "from": "0xf00",
    "gasLimit": "30000",
    "gasPrice": "1000000000",
    "gasUsed": "21000",
    "hash": "0x1234",
    "input": "0x",
    "logs": [
      {"address": "0xadd", "data": "0xda", "topics": ["0xabc", null]}
    ],
    "revertReason": "",
    "success": true,
    "timeStamp": "1700000000",
    "to": "0x70",
    "value": "0"
  },
  "status": "1"
}"#;

fn s(text: &str) -> String {
    String::from(text)
}

fn receipt_model() -> ReceiptResponse {
    ReceiptResponse {
        protocol_version: s("2.0"),
        request_id: 1,
        result: ReceiptTransaction {
            block_hash: s("0xb10c"),
            block_number: s("0x10"),
            contract_address: None,
            cumulative_gas_used: s("0x5208"),
            effective_gas_price: s("0x3b9aca00"),
            from: s("0xf00"),
            gas_used: s("0x0005208"),
            logs: vec![ReceiptLog {
                address: s("0xadd"),
                block_hash: s("0xb10c"),
                block_number: s("0x10"),
                data: s("0x"),
                log_index: s("0x0"),
                removed: false,
                topics: vec![s("0xt0"), s("0xt1")],
                transaction_hash: s("0x7a"),
                transaction_index: s("0x1"),
            }],
            logs_bloom: s("0x00"),
            status: s("0x1"),
            to: s("0x70"),
            transaction_hash: s("0x7a"),
            transaction_index: s("0x1"),
            transaction_type: s("0x2"),
        },
    }
}

fn explorer_model() -> ExplorerResponse {
    ExplorerResponse {
        result: ExplorerTransaction {
            revert_reason: s(""),
            block_number: s("123"),
            confirmations: s("5"),
            from: s("0xf00"),
            gas_limit: s("30000"),
            gas_price: s("1000000000"),
            gas_used: s("21000"),
            hash: s("0x1234"),
            input: s("0x"),
            logs: vec![ExplorerLog {
                address: s("0xadd"),
                data: s("0xda"),
                topics: vec![Some(s("0xabc")), None],
            }],
            success: true,
            time_stamp: s("1700000000"),
            to: s("0x70"),
            value: s("0"),
        },
        status: s("1"),
    }
}

fn without_member(json: Json, path: &[&str]) -> Json {
    match json {
        Json::Object(members) => Json::Object(
            members
                .into_iter()
                .filter(|m| !(path.len() == 1 && m.name == path[0]))
                .map(|m| {
                    if path.len() > 1 && m.name == path[0] {
                        Member { name: m.name, value: without_member(m.value, &path[1..]) }
                    } else {
                        m
                    }
                })
                .collect(),
        ),
        other => other,
    }
}

fn with_member(json: Json, path: &[&str], value: &str) -> Json {
    match json {
        Json::Object(members) => Json::Object(
            members
                .into_iter()
                .map(|m| {
                    if m.name != path[0] {
                        m
                    } else if path.len() == 1 {
                        Member { name: m.name, value: parse_document(value).unwrap() }
                    } else {
                        Member { name: m.name, value: with_member(m.value, &path[1..], value) }
                    }
                })
                .collect(),
        ),
        other => other,
    }
}

fn receipt_document() -> Json {
    parse_document(RECEIPT).unwrap()
}

fn explorer_document() -> Json {
    parse_document(EXPLORER).unwrap()
}

#[test]
fn parses_a_receipt() {
    assert_eq!(
        parse(RECEIPT, ResponseFamily::ReceiptStyle),
        Ok(ParsedResponse::Receipt(receipt_model()))
    );
}

#[test]
fn parses_an_explorer_response() {
    assert_eq!(
        parse(EXPLORER, ResponseFamily::ExplorerStyle),
        Ok(ParsedResponse::Explorer(explorer_model()))
    );
}

#[test]
fn family_selects_the_schema() {
    assert_eq!(parse(RECEIPT, ResponseFamily::ExplorerStyle), Err(ParseError::MissingField));
    assert_eq!(parse(EXPLORER, ResponseFamily::ReceiptStyle), Err(ParseError::MissingField));
    assert!(matches!(
        parse(RECEIPT, ResponseFamily::ReceiptStyle),
        Ok(ParsedResponse::Receipt(_))
    ));
    assert!(matches!(
        parse(EXPLORER, ResponseFamily::ExplorerStyle),
        Ok(ParsedResponse::Explorer(_))
    ));
}

#[test]
fn text_that_is_no_json_is_malformed() {
    for text in ["", "{", "not json", "{\"jsonrpc\": }", "[1, 2", "{} trailing", "{'a': 1}"] {
        assert_eq!(parse(text, ResponseFamily::ReceiptStyle), Err(ParseError::Malformed));
        assert_eq!(parse(text, ResponseFamily::ExplorerStyle), Err(ParseError::Malformed));
        assert_eq!(parse_document(text), Err(ParseError::Malformed));
    }
}

#[test]
fn a_document_that_is_no_object_is_a_mismatch() {
    for text in ["[]", "null", "1", "\"text\"", "true"] {
        assert_eq!(parse(text, ResponseFamily::ReceiptStyle), Err(ParseError::TypeMismatch));
        assert_eq!(parse(text, ResponseFamily::ExplorerStyle), Err(ParseError::TypeMismatch));
    }
}

#[test]
fn an_empty_object_lacks_its_fields() {
    assert_eq!(parse("{}", ResponseFamily::ReceiptStyle), Err(ParseError::MissingField));
    assert_eq!(parse("{}", ResponseFamily::ExplorerStyle), Err(ParseError::MissingField));
}

#[test]
fn every_required_receipt_field_is_missed() {
    let paths: Vec<Vec<&str>> = vec![
        vec!["jsonrpc"],
        vec!["id"],
        vec!["result"],
        vec!["result", "blockHash"],
        vec!["result", "blockNumber"],
        vec!["result", "cumulativeGasUsed"],
        vec!["result", "effectiveGasPrice"],
        vec!["result", "from"],
        vec!["result", "gasUsed"],
        vec!["result", "logs"],
        vec!["result", "logsBloom"],
        vec!["result", "status"],
        vec!["result", "to"],
        vec!["result", "transactionHash"],
        vec!["result", "transactionIndex"],
        vec!["result", "type"],
    ];
    for path in paths {
        let document = without_member(receipt_document(), &path);
        assert_eq!(
            decode_response(&document, ResponseFamily::ReceiptStyle),
            Err(ParseError::MissingField),
            "{:?}",
            path
        );
    }
}

#[test]
fn every_required_explorer_field_is_missed() {
    let paths: Vec<Vec<&str>> = vec![
        vec!["result"],
        vec!["status"],
        vec!["result", "revertReason"],
        vec!["result", "blockNumber"],
        vec!["result", "confirmations"],
        vec!["result", "from"],
        vec!["result", "gasLimit"],
        vec!["result", "gasPrice"],
        vec!["result", "gasUsed"],
        vec!["result", "hash"],
        vec!["result", "input"],
        vec!["result", "logs"],
        vec!["result", "success"],
        vec!["result", "timeStamp"],
        vec!["result", "to"],
        vec!["result", "value"],
    ];
    for path in paths {
        let document = without_member(explorer_document(), &path);
        assert_eq!(
            decode_response(&document, ResponseFamily::ExplorerStyle),
            Err(ParseError::MissingField),
            "{:?}",
            path
        );
    }
}

#[test]
fn a_number_where_a_string_is_expected_is_a_mismatch() {
    for path in [
        vec!["jsonrpc"],
        vec!["result", "blockNumber"],
        vec!["result", "status"],
        vec!["result", "type"],
    ] {
        let document = with_member(receipt_document(), &path, "16");
        assert_eq!(
            decode_response(&document, ResponseFamily::ReceiptStyle),
            Err(ParseError::TypeMismatch),
            "{:?}",
            path
        );
    }
    let document = with_member(explorer_document(), &["result", "gasUsed"], "21000");
    assert_eq!(
        decode_response(&document, ResponseFamily::ExplorerStyle),
        Err(ParseError::TypeMismatch)
    );
}

#[test]
fn other_mismatches() {
    let cases = [
        (vec!["result"], "[]"),
        (vec!["result"], "null"),
        (vec!["result", "logs"], "{}"),
        (vec!["result", "logs"], "[1]"),
        (vec!["result", "logs"], "null"),
        (vec!["result", "blockHash"], "null"),
        (vec!["result", "contractAddress"], "1"),
        (vec!["result", "contractAddress"], "false"),
        (vec!["id"], "\"1\""),
        (vec!["id"], "null"),
    ];
    for (path, value) in cases {
        let document = with_member(receipt_document(), &path, value);
        assert_eq!(
            decode_response(&document, ResponseFamily::ReceiptStyle),
            Err(ParseError::TypeMismatch),
            "{:?} = {}",
            path,
            value
        );
    }
    let cases = [
        (vec!["result", "success"], "\"true\""),
        (vec!["result", "success"], "1"),
        (vec!["result", "logs"], "[{\"address\": \"a\", \"data\": \"d\", \"topics\": [1]}]"),
        (vec!["result", "logs"], "[{\"address\": \"a\", \"data\": \"d\", \"topics\": \"t\"}]"),
        (vec!["status"], "1"),
    ];
    for (path, value) in cases {
        let document = with_member(explorer_document(), &path, value);
        assert_eq!(
            decode_response(&document, ResponseFamily::ExplorerStyle),
            Err(ParseError::TypeMismatch),
            "{:?} = {}",
            path,
            value
        );
    }
}

#[test]
fn the_first_field_that_fails_decides() {
    let document = with_member(
        without_member(receipt_document(), &["result", "to"]),
        &["result", "status"],
        "1",
    );
    assert_eq!(
        decode_response(&document, ResponseFamily::ReceiptStyle),
        Err(ParseError::TypeMismatch)
    );
    let document = with_member(
        without_member(receipt_document(), &["result", "blockHash"]),
        &["result", "status"],
        "1",
    );
    assert_eq!(
        decode_response(&document, ResponseFamily::ReceiptStyle),
        Err(ParseError::MissingField)
    );
    let document =
        with_member(without_member(receipt_document(), &["jsonrpc"]), &["result"], "1");
    assert_eq!(
        decode_response(&document, ResponseFamily::ReceiptStyle),
        Err(ParseError::MissingField)
    );
}

#[test]
fn a_log_that_fails_fails_the_response() {
    let log = "{\"address\": \"a\", \"blockHash\": \"b\", \"blockNumber\": \"n\", \"data\": \"d\", \"logIndex\": \"i\", \"removed\": true, \"topics\": [], \"transactionHash\": \"h\"}";
    let document = with_member(receipt_document(), &["result", "logs"], &format!("[{}]", log));
    assert_eq!(
        decode_response(&document, ResponseFamily::ReceiptStyle),
        Err(ParseError::MissingField)
    );
    let document = with_member(
        explorer_document(),
        &["result", "logs"],
        "[{\"address\": \"a\", \"data\": \"d\", \"topics\": []}, {\"address\": \"a\", \"topics\": []}]",
    );
    assert_eq!(
        decode_response(&document, ResponseFamily::ExplorerStyle),
        Err(ParseError::MissingField)
    );
}

#[test]
fn request_id_must_fit_in_32_bits() {
    let parsed = |id: &str| {
        decode_response(
            &with_member(receipt_document(), &["id"], id),
            ResponseFamily::ReceiptStyle,
        )
    };
    assert!(matches!(parsed("0"), Ok(ParsedResponse::Receipt(r)) if r.request_id == 0));
    assert!(
        matches!(parsed("4294967295"), Ok(ParsedResponse::Receipt(r)) if r.request_id == u32::MAX)
    );
    assert_eq!(parsed("4294967296"), Err(ParseError::TypeMismatch));
    assert_eq!(parsed("-1"), Err(ParseError::TypeMismatch));
    assert_eq!(parsed("1.5"), Err(ParseError::TypeMismatch));
    assert_eq!(parsed("18446744073709551616"), Err(ParseError::TypeMismatch));
}

#[test]
fn contract_address_is_optional() {
    let address = |document: Json| match decode_response(&document, ResponseFamily::ReceiptStyle) {
        Ok(ParsedResponse::Receipt(r)) => r.result.contract_address,
        other => panic!("{:?}", other),
    };
    assert_eq!(address(receipt_document()), None);
    assert_eq!(address(without_member(receipt_document(), &["result", "contractAddress"])), None);
    assert_eq!(
        address(with_member(receipt_document(), &["result", "contractAddress"], "\"0xc0\"")),
        Some(s("0xc0"))
    );
}

#[test]
fn unknown_members_are_ignored() {
    let text = RECEIPT.replacen("\"id\": 1,", "\"id\": 1, \"extra\": {\"deep\": [1, 2]},", 1);
    assert_eq!(
        parse(&text, ResponseFamily::ReceiptStyle),
        Ok(ParsedResponse::Receipt(receipt_model()))
    );
    let text = RECEIPT.replacen("\"status\": \"0x1\",", "\"status\": \"0x1\", \"root\": null,", 1);
    assert_eq!(
        parse(&text, ResponseFamily::ReceiptStyle),
        Ok(ParsedResponse::Receipt(receipt_model()))
    );
    assert_eq!(
        parse(EXPLORER, ResponseFamily::ExplorerStyle),
        Ok(ParsedResponse::Explorer(explorer_model()))
    );
}

#[test]
fn field_names_are_case_sensitive() {
    let text = RECEIPT.replacen("\"blockHash\"", "\"blockhash\"", 1);
    assert_eq!(parse(&text, ResponseFamily::ReceiptStyle), Err(ParseError::MissingField));
    let text = EXPLORER.replacen("\"timeStamp\"", "\"timestamp\"", 1);
    assert_eq!(parse(&text, ResponseFamily::ExplorerStyle), Err(ParseError::MissingField));
}

#[test]
fn an_unknown_status_is_accepted() {
    let text = RECEIPT.replacen("\"status\": \"0x1\"", "\"status\": \"pending\"", 1);
    match parse(&text, ResponseFamily::ReceiptStyle) {
        Ok(ParsedResponse::Receipt(r)) => assert_eq!(r.result.status, "pending"),
        other => panic!("{:?}", other),
    }
}

#[test]
fn strings_are_not_normalised() {
    match parse(RECEIPT, ResponseFamily::ReceiptStyle) {
        Ok(ParsedResponse::Receipt(r)) => {
            assert_eq!(r.result.gas_used, "0x0005208");
            assert_eq!(r.result.effective_gas_price, "0x3b9aca00");
        },
        other => panic!("{:?}", other),
    }
}

#[test]
fn empty_topic_slots_are_kept() {
    match parse(EXPLORER, ResponseFamily::ExplorerStyle) {
        Ok(ParsedResponse::Explorer(r)) => {
            assert_eq!(r.result.logs[0].topics, vec![Some(s("0xabc")), None]);
        },
        other => panic!("{:?}", other),
    }
}

#[test]
fn receipt_topics_must_be_strings() {
    let text = RECEIPT.replacen("[\"0xt0\", \"0xt1\"]", "[\"0xt0\", null]", 1);
    assert_eq!(parse(&text, ResponseFamily::ReceiptStyle), Err(ParseError::TypeMismatch));
}

#[test]
fn documents_are_read_as_trees() {
    assert_eq!(parse_document("null"), Ok(Json::Null));
    assert_eq!(parse_document(" true "), Ok(Json::Bool(true)));
    assert_eq!(parse_document("0"), Ok(Json::Number(Some(0))));
    assert_eq!(parse_document("18446744073709551615"), Ok(Json::Number(Some(u64::MAX))));
    assert_eq!(parse_document("-1"), Ok(Json::Number(None)));
    assert_eq!(parse_document("1.5"), Ok(Json::Number(None)));
    assert_eq!(parse_document("\"a\\u0041\\n\\\"\""), Ok(Json::Text(s("aA\n\""))));
    assert_eq!(
        parse_document("[1, [\"x\"], {}]"),
        Ok(Json::Array(vec![
            Json::Number(Some(1)),
            Json::Array(vec![Json::Text(s("x"))]),
            Json::Object(vec![]),
        ]))
    );
    assert_eq!(
        parse_document("{\"b\": 1, \"a\": {\"c\": null}}"),
        Ok(Json::Object(vec![
            Member {
                name: s("a"),
                value: Json::Object(vec![Member { name: s("c"), value: Json::Null }]),
            },
            Member { name: s("b"), value: Json::Number(Some(1)) },
        ]))
    );
}

#[test]
fn a_repeated_member_counts_once() {
    assert_eq!(
        parse_document("{\"a\": 1, \"a\": 2}"),
        Ok(Json::Object(vec![Member { name: s("a"), value: Json::Number(Some(2)) }]))
    );
}

#[test]
fn receipt_round_trip_keeps_every_string() {
    let parsed = ReceiptResponse::from_json(&receipt_document()).unwrap();
    let written = parsed.to_json();
    assert_eq!(ReceiptResponse::from_json(&written), Ok(receipt_model()));
    assert_eq!(parsed, receipt_model());
    let text = RECEIPT.replacen("\"contractAddress\": null", "\"contractAddress\": \"0x00C0\"", 1);
    let parsed = ReceiptResponse::from_json(&parse_document(&text).unwrap()).unwrap();
    let again = ReceiptResponse::from_json(&parsed.to_json()).unwrap();
    assert_eq!(again.result.contract_address, Some(s("0x00C0")));
    assert_eq!(again, parsed);
}

#[test]
fn receipt_is_written_under_its_wire_names() {
    let written = receipt_model().to_json();
    let names = |json: &Json| match json {
        Json::Object(members) => members.iter().map(|m| m.name.clone()).collect::<Vec<_>>(),
        _ => vec![],
    };
    assert_eq!(names(&written), vec!["jsonrpc", "id", "result"]);
    match &written {
        Json::Object(members) => {
            assert_eq!(members[0].value, Json::Text(s("2.0")));
            assert_eq!(members[1].value, Json::Number(Some(1)));
            assert_eq!(
                names(&members[2].value),
                vec![
                    "blockHash",
                    "blockNumber",
                    "contractAddress",
                    "cumulativeGasUsed",
                    "effectiveGasPrice",
                    "from",
                    "gasUsed",
                    "logs",
                    "logsBloom",
                    "status",
                    "to",
                    "transactionHash",
                    "transactionIndex",
                    "type",
                ]
            );
        },
        _ => panic!("no object"),
    }
}

#[test]
fn explorer_round_trip_keeps_every_string() {
    let parsed = ExplorerResponse::from_json(&explorer_document()).unwrap();
    let written = parsed.to_json();
    assert_eq!(ExplorerResponse::from_json(&written), Ok(explorer_model()));
    match &written {
        Json::Object(members) => {
            assert_eq!(members[0].name, "result");
            assert_eq!(members[1].name, "status");
            assert_eq!(members[1].value, Json::Text(s("1")));
        },
        _ => panic!("no object"),
    }
}

#[test]
fn logs_round_trip() {
    let log = ReceiptLog {
        address: s("\"quoted\""),
        block_hash: s(""),
        block_number: s("0x0"),
        data: s("line\nbreak"),
        log_index: s("0x00"),
        removed: true,
        topics: vec![],
        transaction_hash: s("h"),
        transaction_index: s("i"),
    };
    let written = log.to_json();
    assert_eq!(ReceiptLog::from_json(&written), Ok(log));
    let log = ExplorerLog { address: s("a"), data: s(""), topics: vec![None, Some(s("")), None] };
    assert_eq!(ExplorerLog::from_json(&log.to_json()), Ok(log));
}
