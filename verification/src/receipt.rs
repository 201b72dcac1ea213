//! The receipt-style response: a JSON-RPC envelope around a transaction
//! receipt. Every numeric field is a `0x`-prefixed hexadecimal string and is
//! kept as the document holds it.

use vstd::prelude::*;
use vstd::string::*;
use crate::json::{lemma_array_view, lemma_member_found, lemma_member_passed_over,
    lemma_object_view,
    lemma_texts_round_trip, member, members_view, name_key, optional_text_item,
    optional_text_json, text_items, text_member, texts_json, Member};
use crate::json::{as_members, flag_at, get_flag, get_items, get_optional_text, get_text, get_texts,
    get_u32, items_at, items_view, optional_text_at, read_members, required, required_member,
    text_at, texts_at, u32_at, Json, JsonTree, ParseError};
use crate::text::{optional_text, texts};

verus! {

/// A log entry of a receipt.
#[derive(Debug, PartialEq, Eq)]
pub struct ReceiptLog {
    pub address: String,
    pub block_hash: String,
    pub block_number: String,
    pub data: String,
    pub log_index: String,
    pub removed: bool,
    pub topics: Vec<String>,
    pub transaction_hash: String,
    pub transaction_index: String,
}

/// A transaction receipt.
#[derive(Debug, PartialEq, Eq)]
pub struct ReceiptTransaction {
    pub block_hash: String,
    pub block_number: String,
    pub contract_address: Option<String>,
    pub cumulative_gas_used: String,
    pub effective_gas_price: String,
    pub from: String,
    pub gas_used: String,
    pub logs: Vec<ReceiptLog>,
    pub logs_bloom: String,
    pub status: String,
    pub to: String,
    pub transaction_hash: String,
    pub transaction_index: String,
    pub transaction_type: String,
}

/// The envelope of a receipt-style response.
#[derive(Debug, PartialEq, Eq)]
pub struct ReceiptResponse {
    pub protocol_version: String,
    pub request_id: u32,
    pub result: ReceiptTransaction,
}

/// The mathematical value of a `ReceiptLog`.
pub struct ReceiptLogView {
    pub address: Seq<char>,
    pub block_hash: Seq<char>,
    pub block_number: Seq<char>,
    pub data: Seq<char>,
    pub log_index: Seq<char>,
    pub removed: bool,
    pub topics: Seq<Seq<char>>,
    pub transaction_hash: Seq<char>,
    pub transaction_index: Seq<char>,
}

/// The mathematical value of a `ReceiptTransaction`.
pub struct ReceiptTransactionView {
    pub block_hash: Seq<char>,
    pub block_number: Seq<char>,
    pub contract_address: Option<Seq<char>>,
    pub cumulative_gas_used: Seq<char>,
    pub effective_gas_price: Seq<char>,
    pub from: Seq<char>,
    pub gas_used: Seq<char>,
    pub logs: Seq<ReceiptLogView>,
    pub logs_bloom: Seq<char>,
    pub status: Seq<char>,
    pub to: Seq<char>,
    pub transaction_hash: Seq<char>,
    pub transaction_index: Seq<char>,
    pub transaction_type: Seq<char>,
}

/// The mathematical value of a `ReceiptResponse`.
pub struct ReceiptResponseView {
    pub protocol_version: Seq<char>,
    pub request_id: u32,
    pub result: ReceiptTransactionView,
}

/// The views of a list of logs.
pub open spec fn receipt_logs_view(logs: Seq<ReceiptLog>) -> Seq<ReceiptLogView> {
    Seq::new(logs.len(), |i: int| logs[i]@)
}

impl View for ReceiptLog {
    type V = ReceiptLogView;

    open spec fn view(&self) -> ReceiptLogView {
        ReceiptLogView {
            address: self.address@,
            block_hash: self.block_hash@,
            block_number: self.block_number@,
            data: self.data@,
            log_index: self.log_index@,
            removed: self.removed,
            topics: texts(self.topics@),
            transaction_hash: self.transaction_hash@,
            transaction_index: self.transaction_index@,
        }
    }
}

impl View for ReceiptTransaction {
    type V = ReceiptTransactionView;

    open spec fn view(&self) -> ReceiptTransactionView {
        ReceiptTransactionView {
            block_hash: self.block_hash@,
            block_number: self.block_number@,
            contract_address: optional_text(self.contract_address),
            cumulative_gas_used: self.cumulative_gas_used@,
            effective_gas_price: self.effective_gas_price@,
            from: self.from@,
            gas_used: self.gas_used@,
            logs: receipt_logs_view(self.logs@),
            logs_bloom: self.logs_bloom@,
            status: self.status@,
            to: self.to@,
            transaction_hash: self.transaction_hash@,
            transaction_index: self.transaction_index@,
            transaction_type: self.transaction_type@,
        }
    }
}

impl View for ReceiptResponse {
    type V = ReceiptResponseView;

    open spec fn view(&self) -> ReceiptResponseView {
        ReceiptResponseView {
            protocol_version: self.protocol_version@,
            request_id: self.request_id,
            result: self.result@,
        }
    }
}

/// The log that a document holds: an object with the string fields
/// `address`, `blockHash`, `blockNumber`, `data`, `logIndex`,
/// `transactionHash` and `transactionIndex`, the boolean `removed` and the
/// string array `topics`. Fields are read in that order of declaration and
/// the first one that fails decides the error; other members are ignored.
pub open spec fn decoded_receipt_log(json: JsonTree) -> Result<ReceiptLogView, ParseError> {
    match as_members(json) {
        Err(e) => Err(e),
        Ok(m) => {
            let address = text_at(m, "address"@);
            let block_hash = text_at(m, "blockHash"@);
            let block_number = text_at(m, "blockNumber"@);
            let data = text_at(m, "data"@);
            let log_index = text_at(m, "logIndex"@);
            let removed = flag_at(m, "removed"@);
            let topics = texts_at(m, "topics"@);
            let transaction_hash = text_at(m, "transactionHash"@);
            let transaction_index = text_at(m, "transactionIndex"@);
            if address is Err {
                Err(address->Err_0)
            } else if block_hash is Err {
                Err(block_hash->Err_0)
            } else if block_number is Err {
                Err(block_number->Err_0)
            } else if data is Err {
                Err(data->Err_0)
            } else if log_index is Err {
                Err(log_index->Err_0)
            } else if removed is Err {
                Err(removed->Err_0)
            } else if topics is Err {
                Err(topics->Err_0)
            } else if transaction_hash is Err {
                Err(transaction_hash->Err_0)
            } else if transaction_index is Err {
                Err(transaction_index->Err_0)
            } else {
                Ok(
                    ReceiptLogView {
                        address: address->Ok_0,
                        block_hash: block_hash->Ok_0,
                        block_number: block_number->Ok_0,
                        data: data->Ok_0,
                        log_index: log_index->Ok_0,
                        removed: removed->Ok_0,
                        topics: topics->Ok_0,
                        transaction_hash: transaction_hash->Ok_0,
                        transaction_index: transaction_index->Ok_0,
                    },
                )
            }
        },
    }
}

/// The logs that the first `count` items hold, or the error of the first
/// item that is no log.
pub open spec fn decoded_receipt_logs(items: Seq<JsonTree>, count: nat) -> Result<
    Seq<ReceiptLogView>,
    ParseError,
>
    decreases count,
{
    if count == 0 {
        Ok(Seq::empty())
    } else {
        match decoded_receipt_logs(items, (count - 1) as nat) {
            Err(e) => Err(e),
            Ok(logs) => match decoded_receipt_log(items[count - 1]) {
                Err(e) => Err(e),
                Ok(log) => Ok(logs.push(log)),
            },
        }
    }
}

/// The field `logs`: an array of logs.
pub open spec fn receipt_logs_at(m: Seq<(Seq<char>, JsonTree)>) -> Result<
    Seq<ReceiptLogView>,
    ParseError,
> {
    match items_at(m, "logs"@) {
        Err(e) => Err(e),
        Ok(items) => decoded_receipt_logs(items, items.len()),
    }
}

/// The receipt that a document holds. `contractAddress` may be absent or
/// `null`; every other field is required. Fields are read in the order of
/// declaration and the first one that fails decides the error.
pub open spec fn decoded_receipt_transaction(json: JsonTree) -> Result<
    ReceiptTransactionView,
    ParseError,
> {
    match as_members(json) {
        Err(e) => Err(e),
        Ok(m) => {
            let block_hash = text_at(m, "blockHash"@);
            let block_number = text_at(m, "blockNumber"@);
            let contract_address = optional_text_at(m, "contractAddress"@);
            let cumulative_gas_used = text_at(m, "cumulativeGasUsed"@);
            let effective_gas_price = text_at(m, "effectiveGasPrice"@);
            let from = text_at(m, "from"@);
            let gas_used = text_at(m, "gasUsed"@);
            let logs = receipt_logs_at(m);
            let logs_bloom = text_at(m, "logsBloom"@);
            let status = text_at(m, "status"@);
            let to = text_at(m, "to"@);
            let transaction_hash = text_at(m, "transactionHash"@);
            let transaction_index = text_at(m, "transactionIndex"@);
            let transaction_type = text_at(m, "type"@);
            if block_hash is Err {
                Err(block_hash->Err_0)
            } else if block_number is Err {
                Err(block_number->Err_0)
            } else if contract_address is Err {
                Err(contract_address->Err_0)
            } else if cumulative_gas_used is Err {
                Err(cumulative_gas_used->Err_0)
            } else if effective_gas_price is Err {
                Err(effective_gas_price->Err_0)
            } else if from is Err {
                Err(from->Err_0)
            } else if gas_used is Err {
                Err(gas_used->Err_0)
            } else if logs is Err {
                Err(logs->Err_0)
            } else if logs_bloom is Err {
                Err(logs_bloom->Err_0)
            } else if status is Err {
                Err(status->Err_0)
            } else if to is Err {
                Err(to->Err_0)
            } else if transaction_hash is Err {
                Err(transaction_hash->Err_0)
            } else if transaction_index is Err {
                Err(transaction_index->Err_0)
            } else if transaction_type is Err {
                Err(transaction_type->Err_0)
            } else {
                Ok(
                    ReceiptTransactionView {
                        block_hash: block_hash->Ok_0,
                        block_number: block_number->Ok_0,
                        contract_address: contract_address->Ok_0,
                        cumulative_gas_used: cumulative_gas_used->Ok_0,
                        effective_gas_price: effective_gas_price->Ok_0,
                        from: from->Ok_0,
                        gas_used: gas_used->Ok_0,
                        logs: logs->Ok_0,
                        logs_bloom: logs_bloom->Ok_0,
                        status: status->Ok_0,
                        to: to->Ok_0,
                        transaction_hash: transaction_hash->Ok_0,
                        transaction_index: transaction_index->Ok_0,
                        transaction_type: transaction_type->Ok_0,
                    },
                )
            }
        },
    }
}

/// The response that a document holds: an object with the string `jsonrpc`,
/// the 32-bit integer `id` and the receipt `result`, read in that order.
pub open spec fn decoded_receipt_response(json: JsonTree) -> Result<
    ReceiptResponseView,
    ParseError,
> {
    match as_members(json) {
        Err(e) => Err(e),
        Ok(m) => {
            let protocol_version = text_at(m, "jsonrpc"@);
            let request_id = u32_at(m, "id"@);
            let result = match required(m, "result"@) {
                Err(e) => Err(e),
                Ok(value) => decoded_receipt_transaction(value),
            };
            if protocol_version is Err {
                Err(protocol_version->Err_0)
            } else if request_id is Err {
                Err(request_id->Err_0)
            } else if result is Err {
                Err(result->Err_0)
            } else {
                Ok(
                    ReceiptResponseView {
                        protocol_version: protocol_version->Ok_0,
                        request_id: request_id->Ok_0,
                        result: result->Ok_0,
                    },
                )
            }
        },
    }
}

impl ReceiptLog {
    /// Decodes a log from a document.
    pub fn from_json(json: &Json) -> (r: Result<ReceiptLog, ParseError>)
        ensures
            match r {
                Ok(log) => decoded_receipt_log(json@) == Ok::<_, ParseError>(log@),
                Err(e) => decoded_receipt_log(json@) == Err::<ReceiptLogView, ParseError>(e),
            },
    {
        let m = read_members(json)?;
        let address = get_text(m, "address")?;
        let block_hash = get_text(m, "blockHash")?;
        let block_number = get_text(m, "blockNumber")?;
        let data = get_text(m, "data")?;
        let log_index = get_text(m, "logIndex")?;
        let removed = get_flag(m, "removed")?;
        let topics = get_texts(m, "topics")?;
        let transaction_hash = get_text(m, "transactionHash")?;
        let transaction_index = get_text(m, "transactionIndex")?;
        Ok(
            ReceiptLog {
                address,
                block_hash,
                block_number,
                data,
                log_index,
                removed,
                topics,
                transaction_hash,
                transaction_index,
            },
        )
    }
}

/// Decodes the logs of a receipt from the items of an array.
pub fn decode_receipt_logs(items: &Vec<Json>) -> (r: Result<Vec<ReceiptLog>, ParseError>)
    ensures
        match r {
            Ok(logs) => decoded_receipt_logs(items_view(items@), items@.len()) == Ok::<
                _,
                ParseError,
            >(receipt_logs_view(logs@)),
            Err(e) => decoded_receipt_logs(items_view(items@), items@.len()) == Err::<
                Seq<ReceiptLogView>,
                ParseError,
            >(e),
        },
{
    let ghost trees = items_view(items@);
    let mut logs: Vec<ReceiptLog> = Vec::new();
    let mut i: usize = 0;
    assert(receipt_logs_view(logs@) =~= Seq::empty());
    while i < items.len()
        invariant
            0 <= i <= items.len(),
            trees == items_view(items@),
            decoded_receipt_logs(trees, i as nat) == Ok::<_, ParseError>(receipt_logs_view(logs@)),
        decreases items.len() - i,
    {
        let ghost before = receipt_logs_view(logs@);
        match ReceiptLog::from_json(&items[i]) {
            Ok(log) => {
                logs.push(log);
                assert(receipt_logs_view(logs@) =~= before.push(log@));
            },
            Err(e) => {
                proof {
                    lemma_receipt_logs_failure(trees, i as nat, items@.len());
                }
                return Err(e);
            },
        }
        i += 1;
    }
    Ok(logs)
}

/// Once an item fails, every longer prefix fails with the same error.
pub proof fn lemma_receipt_logs_failure(items: Seq<JsonTree>, at: nat, count: nat)
    requires
        at < count,
        decoded_receipt_logs(items, at) is Ok,
        decoded_receipt_log(items[at as int]) is Err,
    ensures
        decoded_receipt_logs(items, count) == Err::<Seq<ReceiptLogView>, ParseError>(
            decoded_receipt_log(items[at as int])->Err_0,
        ),
    decreases count,
{
    if count > at + 1 {
        lemma_receipt_logs_failure(items, at, (count - 1) as nat);
    }
}

impl ReceiptTransaction {
    /// Decodes a receipt from a document.
    pub fn from_json(json: &Json) -> (r: Result<ReceiptTransaction, ParseError>)
        ensures
            match r {
                Ok(tx) => decoded_receipt_transaction(json@) == Ok::<_, ParseError>(tx@),
                Err(e) => decoded_receipt_transaction(json@) == Err::<
                    ReceiptTransactionView,
                    ParseError,
                >(e),
            },
    {
        let m = read_members(json)?;
        let block_hash = get_text(m, "blockHash")?;
        let block_number = get_text(m, "blockNumber")?;
        let contract_address = get_optional_text(m, "contractAddress")?;
        let cumulative_gas_used = get_text(m, "cumulativeGasUsed")?;
        let effective_gas_price = get_text(m, "effectiveGasPrice")?;
        let from = get_text(m, "from")?;
        let gas_used = get_text(m, "gasUsed")?;
        let logs = decode_receipt_logs(get_items(m, "logs")?)?;
        let logs_bloom = get_text(m, "logsBloom")?;
        let status = get_text(m, "status")?;
        let to = get_text(m, "to")?;
        let transaction_hash = get_text(m, "transactionHash")?;
        let transaction_index = get_text(m, "transactionIndex")?;
        let transaction_type = get_text(m, "type")?;
        Ok(
            ReceiptTransaction {
                block_hash,
                block_number,
                contract_address,
                cumulative_gas_used,
                effective_gas_price,
                from,
                gas_used,
                logs,
                logs_bloom,
                status,
                to,
                transaction_hash,
                transaction_index,
                transaction_type,
            },
        )
    }
}

impl ReceiptResponse {
    /// Decodes a receipt-style response from a document.
    pub fn from_json(json: &Json) -> (r: Result<ReceiptResponse, ParseError>)
        ensures
            match r {
                Ok(response) => decoded_receipt_response(json@) == Ok::<_, ParseError>(
                    response@,
                ),
                Err(e) => decoded_receipt_response(json@) == Err::<
                    ReceiptResponseView,
                    ParseError,
                >(e),
            },
    {
        let m = read_members(json)?;
        let protocol_version = get_text(m, "jsonrpc")?;
        let request_id = get_u32(m, "id")?;
        let result = ReceiptTransaction::from_json(required_member(m, "result")?)?;
        Ok(ReceiptResponse { protocol_version, request_id, result })
    }
}

/// The names under which the fields of a log are read.
pub open spec fn receipt_log_names() -> Set<Seq<char>> {
    set![
        "address"@,
        "blockHash"@,
        "blockNumber"@,
        "data"@,
        "logIndex"@,
        "removed"@,
        "topics"@,
        "transactionHash"@,
        "transactionIndex"@,
    ]
}

/// The names under which the fields of a receipt are read.
pub open spec fn receipt_transaction_names() -> Set<Seq<char>> {
    set![
        "blockHash"@,
        "blockNumber"@,
        "contractAddress"@,
        "cumulativeGasUsed"@,
        "effectiveGasPrice"@,
        "from"@,
        "gasUsed"@,
        "logs"@,
        "logsBloom"@,
        "status"@,
        "to"@,
        "transactionHash"@,
        "transactionIndex"@,
        "type"@,
    ]
}

/// The names under which the fields of the envelope are read.
pub open spec fn receipt_response_names() -> Set<Seq<char>> {
    set!["jsonrpc"@, "id"@, "result"@]
}

/// A member that the schema of a log does not name is ignored, wherever it
/// stands in the object.
pub proof fn lemma_receipt_log_ignores(
    members: Seq<(Seq<char>, JsonTree)>,
    at: int,
    other: (Seq<char>, JsonTree),
)
    requires
        0 <= at <= members.len(),
        !receipt_log_names().contains(other.0),
    ensures
        decoded_receipt_log(JsonTree::Object(members.insert(at, other))) == decoded_receipt_log(
            JsonTree::Object(members),
        ),
{
    lemma_member_passed_over(members, at, other, "address"@);
    lemma_member_passed_over(members, at, other, "blockHash"@);
    lemma_member_passed_over(members, at, other, "blockNumber"@);
    lemma_member_passed_over(members, at, other, "data"@);
    lemma_member_passed_over(members, at, other, "logIndex"@);
    lemma_member_passed_over(members, at, other, "removed"@);
    lemma_member_passed_over(members, at, other, "topics"@);
    lemma_member_passed_over(members, at, other, "transactionHash"@);
    lemma_member_passed_over(members, at, other, "transactionIndex"@);
}

/// A member that the schema of a receipt does not name is ignored, wherever
/// it stands in the object.
pub proof fn lemma_receipt_transaction_ignores(
    members: Seq<(Seq<char>, JsonTree)>,
    at: int,
    other: (Seq<char>, JsonTree),
)
    requires
        0 <= at <= members.len(),
        !receipt_transaction_names().contains(other.0),
    ensures
        decoded_receipt_transaction(JsonTree::Object(members.insert(at, other)))
            == decoded_receipt_transaction(JsonTree::Object(members)),
{
    lemma_member_passed_over(members, at, other, "blockHash"@);
    lemma_member_passed_over(members, at, other, "blockNumber"@);
    lemma_member_passed_over(members, at, other, "contractAddress"@);
    lemma_member_passed_over(members, at, other, "cumulativeGasUsed"@);
    lemma_member_passed_over(members, at, other, "effectiveGasPrice"@);
    lemma_member_passed_over(members, at, other, "from"@);
    lemma_member_passed_over(members, at, other, "gasUsed"@);
    lemma_member_passed_over(members, at, other, "logs"@);
    lemma_member_passed_over(members, at, other, "logsBloom"@);
    lemma_member_passed_over(members, at, other, "status"@);
    lemma_member_passed_over(members, at, other, "to"@);
    lemma_member_passed_over(members, at, other, "transactionHash"@);
    lemma_member_passed_over(members, at, other, "transactionIndex"@);
    lemma_member_passed_over(members, at, other, "type"@);
}

/// A member that the schema of the envelope does not name is ignored,
/// wherever it stands in the object.
pub proof fn lemma_receipt_response_ignores(
    members: Seq<(Seq<char>, JsonTree)>,
    at: int,
    other: (Seq<char>, JsonTree),
)
    requires
        0 <= at <= members.len(),
        !receipt_response_names().contains(other.0),
    ensures
        decoded_receipt_response(JsonTree::Object(members.insert(at, other)))
            == decoded_receipt_response(JsonTree::Object(members)),
{
    lemma_member_passed_over(members, at, other, "jsonrpc"@);
    lemma_member_passed_over(members, at, other, "id"@);
    lemma_member_passed_over(members, at, other, "result"@);
}

/// A log as a document: an object with one member for each field, under
/// the name the field has on the wire.
pub open spec fn encoded_receipt_log(log: ReceiptLogView) -> JsonTree {
    JsonTree::Object(
        seq![
            ("address"@, JsonTree::Text(log.address)),
            ("blockHash"@, JsonTree::Text(log.block_hash)),
            ("blockNumber"@, JsonTree::Text(log.block_number)),
            ("data"@, JsonTree::Text(log.data)),
            ("logIndex"@, JsonTree::Text(log.log_index)),
            ("removed"@, JsonTree::Bool(log.removed)),
            ("topics"@, JsonTree::Array(text_items(log.topics))),
            ("transactionHash"@, JsonTree::Text(log.transaction_hash)),
            ("transactionIndex"@, JsonTree::Text(log.transaction_index)),
        ],
    )
}

impl ReceiptLog {
    /// This log as a document.
    pub fn to_json(&self) -> (json: Json)
        ensures
            json@ == encoded_receipt_log(self@),
    {
        let mut members: Vec<Member> = Vec::new();
        members.push(text_member("address", self.address.as_str()));
        members.push(text_member("blockHash", self.block_hash.as_str()));
        members.push(text_member("blockNumber", self.block_number.as_str()));
        members.push(text_member("data", self.data.as_str()));
        members.push(text_member("logIndex", self.log_index.as_str()));
        members.push(member("removed", Json::Bool(self.removed)));
        members.push(member("topics", texts_json(&self.topics)));
        members.push(text_member("transactionHash", self.transaction_hash.as_str()));
        members.push(text_member("transactionIndex", self.transaction_index.as_str()));
        proof {
            lemma_object_view(members);
            assert(members_view(members@) =~= encoded_receipt_log(self@)->Object_0);
        }
        Json::Object(members)
    }
}

/// The field names of a log are told apart by their keys.
proof fn lemma_receipt_log_names()
    ensures
        name_key("address"@) == (7nat, 'a', 'r'),
        name_key("blockHash"@) == (9nat, 'b', 'c'),
        name_key("blockNumber"@) == (11nat, 'b', 'c'),
        name_key("data"@) == (4nat, 'd', 'a'),
        name_key("logIndex"@) == (8nat, 'l', 'I'),
        name_key("removed"@) == (7nat, 'r', 'o'),
        name_key("topics"@) == (6nat, 't', 'i'),
        name_key("transactionHash"@) == (15nat, 't', 'n'),
        name_key("transactionIndex"@) == (16nat, 't', 'n'),
{
    reveal_strlit("address");
    reveal_strlit("blockHash");
    reveal_strlit("blockNumber");
    reveal_strlit("data");
    reveal_strlit("logIndex");
    reveal_strlit("removed");
    reveal_strlit("topics");
    reveal_strlit("transactionHash");
    reveal_strlit("transactionIndex");
}

/// A log written as a document is read back unchanged: every string of it
/// character for character.
pub proof fn lemma_receipt_log_round_trip(log: ReceiptLogView)
    ensures
        decoded_receipt_log(encoded_receipt_log(log)) == Ok::<_, ParseError>(log),
{
    lemma_receipt_log_names();
    lemma_texts_round_trip(log.topics);
    let m = encoded_receipt_log(log)->Object_0;
    lemma_member_found(m, "address"@, 0);
    lemma_member_found(m, "blockHash"@, 1);
    lemma_member_found(m, "blockNumber"@, 2);
    lemma_member_found(m, "data"@, 3);
    lemma_member_found(m, "logIndex"@, 4);
    lemma_member_found(m, "removed"@, 5);
    lemma_member_found(m, "topics"@, 6);
    lemma_member_found(m, "transactionHash"@, 7);
    lemma_member_found(m, "transactionIndex"@, 8);
}

/// Logs as the items of an array.
pub open spec fn encoded_receipt_logs(logs: Seq<ReceiptLogView>) -> Seq<JsonTree> {
    Seq::new(logs.len(), |i: int| encoded_receipt_log(logs[i]))
}

/// A receipt as a document. A receipt without contract address holds
/// `null` in its place.
pub open spec fn encoded_receipt_transaction(tx: ReceiptTransactionView) -> JsonTree {
    JsonTree::Object(
        seq![
            ("blockHash"@, JsonTree::Text(tx.block_hash)),
            ("blockNumber"@, JsonTree::Text(tx.block_number)),
            ("contractAddress"@, optional_text_item(tx.contract_address)),
            ("cumulativeGasUsed"@, JsonTree::Text(tx.cumulative_gas_used)),
            ("effectiveGasPrice"@, JsonTree::Text(tx.effective_gas_price)),
            ("from"@, JsonTree::Text(tx.from)),
            ("gasUsed"@, JsonTree::Text(tx.gas_used)),
            ("logs"@, JsonTree::Array(encoded_receipt_logs(tx.logs))),
            ("logsBloom"@, JsonTree::Text(tx.logs_bloom)),
            ("status"@, JsonTree::Text(tx.status)),
            ("to"@, JsonTree::Text(tx.to)),
            ("transactionHash"@, JsonTree::Text(tx.transaction_hash)),
            ("transactionIndex"@, JsonTree::Text(tx.transaction_index)),
            ("type"@, JsonTree::Text(tx.transaction_type)),
        ],
    )
}

/// A receipt-style response as a document.
pub open spec fn encoded_receipt_response(response: ReceiptResponseView) -> JsonTree {
    JsonTree::Object(
        seq![
            ("jsonrpc"@, JsonTree::Text(response.protocol_version)),
            ("id"@, JsonTree::Number(Some(response.request_id as u64))),
            ("result"@, encoded_receipt_transaction(response.result)),
        ],
    )
}

/// The logs of a receipt as an array.
pub fn encode_receipt_logs(logs: &Vec<ReceiptLog>) -> (json: Json)
    ensures
        json@ == JsonTree::Array(encoded_receipt_logs(receipt_logs_view(logs@))),
{
    let mut items: Vec<Json> = Vec::new();
    let mut i: usize = 0;
    while i < logs.len()
        invariant
            0 <= i <= logs.len(),
            items@.len() == i,
            forall|k: int|
                0 <= k < i ==> (#[trigger] items@[k])@ == encoded_receipt_log(logs@[k]@),
        decreases logs.len() - i,
    {
        items.push(logs[i].to_json());
        i += 1;
    }
    proof {
        lemma_array_view(items);
        assert(items_view(items@) =~= encoded_receipt_logs(receipt_logs_view(logs@)));
    }
    Json::Array(items)
}

impl ReceiptTransaction {
    /// This receipt as a document.
    pub fn to_json(&self) -> (json: Json)
        ensures
            json@ == encoded_receipt_transaction(self@),
    {
        let mut members: Vec<Member> = Vec::new();
        members.push(text_member("blockHash", self.block_hash.as_str()));
        members.push(text_member("blockNumber", self.block_number.as_str()));
        members.push(member("contractAddress", optional_text_json(&self.contract_address)));
        members.push(text_member("cumulativeGasUsed", self.cumulative_gas_used.as_str()));
        members.push(text_member("effectiveGasPrice", self.effective_gas_price.as_str()));
        members.push(text_member("from", self.from.as_str()));
        members.push(text_member("gasUsed", self.gas_used.as_str()));
        members.push(member("logs", encode_receipt_logs(&self.logs)));
        members.push(text_member("logsBloom", self.logs_bloom.as_str()));
        members.push(text_member("status", self.status.as_str()));
        members.push(text_member("to", self.to.as_str()));
        members.push(text_member("transactionHash", self.transaction_hash.as_str()));
        members.push(text_member("transactionIndex", self.transaction_index.as_str()));
        members.push(text_member("type", self.transaction_type.as_str()));
        proof {
            lemma_object_view(members);
            assert(members_view(members@) =~= encoded_receipt_transaction(self@)->Object_0);
        }
        Json::Object(members)
    }
}

impl ReceiptResponse {
    /// This response as a document.
    pub fn to_json(&self) -> (json: Json)
        ensures
            json@ == encoded_receipt_response(self@),
    {
        let mut members: Vec<Member> = Vec::new();
        members.push(text_member("jsonrpc", self.protocol_version.as_str()));
        members.push(member("id", Json::Number(Some(self.request_id as u64))));
        members.push(member("result", self.result.to_json()));
        proof {
            lemma_object_view(members);
            assert(members_view(members@) =~= encoded_receipt_response(self@)->Object_0);
        }
        Json::Object(members)
    }
}

/// The field names of a receipt and of its envelope are told apart by
/// their keys.
proof fn lemma_receipt_names()
    ensures
        name_key("blockHash"@) == (9nat, 'b', 'c'),
        name_key("blockNumber"@) == (11nat, 'b', 'c'),
        name_key("contractAddress"@) == (15nat, 'c', 't'),
        name_key("cumulativeGasUsed"@) == (17nat, 'c', 'u'),
        name_key("effectiveGasPrice"@) == (17nat, 'e', 'e'),
        name_key("from"@) == (4nat, 'f', 'm'),
        name_key("gasUsed"@) == (7nat, 'g', 'U'),
        name_key("logs"@) == (4nat, 'l', 's'),
        name_key("logsBloom"@) == (9nat, 'l', 's'),
        name_key("status"@) == (6nat, 's', 't'),
        name_key("to"@).0 == 2,
        name_key("transactionHash"@) == (15nat, 't', 'n'),
        name_key("transactionIndex"@) == (16nat, 't', 'n'),
        name_key("type"@) == (4nat, 't', 'e'),
        name_key("jsonrpc"@) == (7nat, 'j', 'n'),
        name_key("id"@).0 == 2,
        name_key("result"@) == (6nat, 'r', 'u'),
{
    reveal_strlit("blockHash");
    reveal_strlit("blockNumber");
    reveal_strlit("contractAddress");
    reveal_strlit("cumulativeGasUsed");
    reveal_strlit("effectiveGasPrice");
    reveal_strlit("from");
    reveal_strlit("gasUsed");
    reveal_strlit("logs");
    reveal_strlit("logsBloom");
    reveal_strlit("status");
    reveal_strlit("to");
    reveal_strlit("transactionHash");
    reveal_strlit("transactionIndex");
    reveal_strlit("type");
    reveal_strlit("jsonrpc");
    reveal_strlit("id");
    reveal_strlit("result");
}

/// Logs written as an array are read back unchanged, one after the other.
pub proof fn lemma_receipt_logs_round_trip(logs: Seq<ReceiptLogView>, count: nat)
    requires
        count <= logs.len(),
    ensures
        decoded_receipt_logs(encoded_receipt_logs(logs), count) == Ok::<_, ParseError>(
            logs.take(count as int),
        ),
    decreases count,
{
    if count == 0 {
        assert(logs.take(0) =~= Seq::empty());
    } else {
        lemma_receipt_logs_round_trip(logs, (count - 1) as nat);
        lemma_receipt_log_round_trip(logs[count - 1]);
        assert(logs.take(count - 1).push(logs[count - 1]) =~= logs.take(count as int));
    }
}

/// A receipt written as a document is read back unchanged.
pub proof fn lemma_receipt_transaction_round_trip(tx: ReceiptTransactionView)
    ensures
        decoded_receipt_transaction(encoded_receipt_transaction(tx)) == Ok::<_, ParseError>(tx),
{
    lemma_receipt_names();
    lemma_receipt_logs_round_trip(tx.logs, tx.logs.len());
    assert(tx.logs.take(tx.logs.len() as int) =~= tx.logs);
    let m = encoded_receipt_transaction(tx)->Object_0;
    lemma_member_found(m, "blockHash"@, 0);
    lemma_member_found(m, "blockNumber"@, 1);
    lemma_member_found(m, "contractAddress"@, 2);
    lemma_member_found(m, "cumulativeGasUsed"@, 3);
    lemma_member_found(m, "effectiveGasPrice"@, 4);
    lemma_member_found(m, "from"@, 5);
    lemma_member_found(m, "gasUsed"@, 6);
    lemma_member_found(m, "logs"@, 7);
    lemma_member_found(m, "logsBloom"@, 8);
    lemma_member_found(m, "status"@, 9);
    lemma_member_found(m, "to"@, 10);
    lemma_member_found(m, "transactionHash"@, 11);
    lemma_member_found(m, "transactionIndex"@, 12);
    lemma_member_found(m, "type"@, 13);
}

/// Decoding undoes encoding: a response written as a document and read
/// again is the response that was written. No string of it is normalised on
/// the way: each comes back character for character.
pub proof fn lemma_receipt_round_trip(response: ReceiptResponseView)
    ensures
        decoded_receipt_response(encoded_receipt_response(response)) == Ok::<_, ParseError>(
            response,
        ),
{
    lemma_receipt_names();
    lemma_receipt_transaction_round_trip(response.result);
    let m = encoded_receipt_response(response)->Object_0;
    lemma_member_found(m, "jsonrpc"@, 0);
    lemma_member_found(m, "id"@, 1);
    lemma_member_found(m, "result"@, 2);
}

/// Reading a document and writing the response again keeps it: whatever
/// document a response was decoded from, the document written from it
/// decodes to the same response.
pub proof fn lemma_receipt_reserialized(document: JsonTree, response: ReceiptResponseView)
    requires
        decoded_receipt_response(document) == Ok::<_, ParseError>(response),
    ensures
        decoded_receipt_response(encoded_receipt_response(response)) == decoded_receipt_response(
            document,
        ),
{
    lemma_receipt_round_trip(response);
}

} // verus!
