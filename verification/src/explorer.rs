//! The explorer-style response: a block explorer's REST payload. Every
//! numeric field is a plain decimal string and is kept as the document holds
//! it; a topic slot of a log may be empty.

use vstd::prelude::*;
use vstd::string::*;
use crate::json::{as_members, flag_at, get_flag, get_items, get_optional_texts, get_text, items_at,
    items_view, lemma_array_view, lemma_member_found, lemma_member_passed_over,
    lemma_object_view,
    lemma_optional_texts_round_trip, member, members_view, name_key, optional_text_items,
    optional_texts_at, optional_texts_json, read_members, required, required_member, text_at,
    text_member, Json, JsonTree, Member, ParseError};
use crate::text::optional_texts;

verus! {

/// A log entry of an explorer transaction.
#[derive(Debug, PartialEq, Eq)]
pub struct ExplorerLog {
    pub address: String,
    pub data: String,
    pub topics: Vec<Option<String>>,
}

/// A transaction as the explorer reports it.
#[derive(Debug, PartialEq, Eq)]
pub struct ExplorerTransaction {
    pub revert_reason: String,
    pub block_number: String,
    pub confirmations: String,
    pub from: String,
    pub gas_limit: String,
    pub gas_price: String,
    pub gas_used: String,
    pub hash: String,
    pub input: String,
    pub logs: Vec<ExplorerLog>,
    pub success: bool,
    pub time_stamp: String,
    pub to: String,
    pub value: String,
}

/// The envelope of an explorer-style response.
#[derive(Debug, PartialEq, Eq)]
pub struct ExplorerResponse {
    pub result: ExplorerTransaction,
    pub status: String,
}

/// The mathematical value of an `ExplorerLog`.
pub struct ExplorerLogView {
    pub address: Seq<char>,
    pub data: Seq<char>,
    pub topics: Seq<Option<Seq<char>>>,
}

/// The mathematical value of an `ExplorerTransaction`.
pub struct ExplorerTransactionView {
    pub revert_reason: Seq<char>,
    pub block_number: Seq<char>,
    pub confirmations: Seq<char>,
    pub from: Seq<char>,
    pub gas_limit: Seq<char>,
    pub gas_price: Seq<char>,
    pub gas_used: Seq<char>,
    pub hash: Seq<char>,
    pub input: Seq<char>,
    pub logs: Seq<ExplorerLogView>,
    pub success: bool,
    pub time_stamp: Seq<char>,
    pub to: Seq<char>,
    pub value: Seq<char>,
}

/// The mathematical value of an `ExplorerResponse`.
pub struct ExplorerResponseView {
    pub result: ExplorerTransactionView,
    pub status: Seq<char>,
}

/// The views of a list of logs.
pub open spec fn explorer_logs_view(logs: Seq<ExplorerLog>) -> Seq<ExplorerLogView> {
    Seq::new(logs.len(), |i: int| logs[i]@)
}

impl View for ExplorerLog {
    type V = ExplorerLogView;

    open spec fn view(&self) -> ExplorerLogView {
        ExplorerLogView {
            address: self.address@,
            data: self.data@,
            topics: optional_texts(self.topics@),
        }
    }
}

impl View for ExplorerTransaction {
    type V = ExplorerTransactionView;

    open spec fn view(&self) -> ExplorerTransactionView {
        ExplorerTransactionView {
            revert_reason: self.revert_reason@,
            block_number: self.block_number@,
            confirmations: self.confirmations@,
            from: self.from@,
            gas_limit: self.gas_limit@,
            gas_price: self.gas_price@,
            gas_used: self.gas_used@,
            hash: self.hash@,
            input: self.input@,
            logs: explorer_logs_view(self.logs@),
            success: self.success,
            time_stamp: self.time_stamp@,
            to: self.to@,
            value: self.value@,
        }
    }
}

impl View for ExplorerResponse {
    type V = ExplorerResponseView;

    open spec fn view(&self) -> ExplorerResponseView {
        ExplorerResponseView { result: self.result@, status: self.status@ }
    }
}

/// The log that a document holds: an object with the strings `address` and
/// `data` and the array `topics`, whose items are strings or `null`. Fields
/// are read in that order and the first one that fails decides the error;
/// other members are ignored.
pub open spec fn decoded_explorer_log(json: JsonTree) -> Result<ExplorerLogView, ParseError> {
    match as_members(json) {
        Err(e) => Err(e),
        Ok(m) => {
            let address = text_at(m, "address"@);
            let data = text_at(m, "data"@);
            let topics = optional_texts_at(m, "topics"@);
            if address is Err {
                Err(address->Err_0)
            } else if data is Err {
                Err(data->Err_0)
            } else if topics is Err {
                Err(topics->Err_0)
            } else {
                Ok(
                    ExplorerLogView {
                        address: address->Ok_0,
                        data: data->Ok_0,
                        topics: topics->Ok_0,
                    },
                )
            }
        },
    }
}

/// The logs that the first `count` items hold, or the error of the first
/// item that is no log.
pub open spec fn decoded_explorer_logs(items: Seq<JsonTree>, count: nat) -> Result<
    Seq<ExplorerLogView>,
    ParseError,
>
    decreases count,
{
    if count == 0 {
        Ok(Seq::empty())
    } else {
        match decoded_explorer_logs(items, (count - 1) as nat) {
            Err(e) => Err(e),
            Ok(logs) => match decoded_explorer_log(items[count - 1]) {
                Err(e) => Err(e),
                Ok(log) => Ok(logs.push(log)),
            },
        }
    }
}

/// The field `logs`: an array of logs.
pub open spec fn explorer_logs_at(m: Seq<(Seq<char>, JsonTree)>) -> Result<
    Seq<ExplorerLogView>,
    ParseError,
> {
    match items_at(m, "logs"@) {
        Err(e) => Err(e),
        Ok(items) => decoded_explorer_logs(items, items.len()),
    }
}

/// The transaction that a document holds. Every field is required; fields
/// are read in the order of declaration and the first one that fails
/// decides the error.
pub open spec fn decoded_explorer_transaction(json: JsonTree) -> Result<
    ExplorerTransactionView,
    ParseError,
> {
    match as_members(json) {
        Err(e) => Err(e),
        Ok(m) => {
            let revert_reason = text_at(m, "revertReason"@);
            let block_number = text_at(m, "blockNumber"@);
            let confirmations = text_at(m, "confirmations"@);
            let from = text_at(m, "from"@);
            let gas_limit = text_at(m, "gasLimit"@);
            let gas_price = text_at(m, "gasPrice"@);
            let gas_used = text_at(m, "gasUsed"@);
            let hash = text_at(m, "hash"@);
            let input = text_at(m, "input"@);
            let logs = explorer_logs_at(m);
            let success = flag_at(m, "success"@);
            let time_stamp = text_at(m, "timeStamp"@);
            let to = text_at(m, "to"@);
            let value = text_at(m, "value"@);
            if revert_reason is Err {
                Err(revert_reason->Err_0)
            } else if block_number is Err {
                Err(block_number->Err_0)
            } else if confirmations is Err {
                Err(confirmations->Err_0)
            } else if from is Err {
                Err(from->Err_0)
            } else if gas_limit is Err {
                Err(gas_limit->Err_0)
            } else if gas_price is Err {
                Err(gas_price->Err_0)
            } else if gas_used is Err {
                Err(gas_used->Err_0)
            } else if hash is Err {
                Err(hash->Err_0)
            } else if input is Err {
                Err(input->Err_0)
            } else if logs is Err {
                Err(logs->Err_0)
            } else if success is Err {
                Err(success->Err_0)
            } else if time_stamp is Err {
                Err(time_stamp->Err_0)
            } else if to is Err {
                Err(to->Err_0)
            } else if value is Err {
                Err(value->Err_0)
            } else {
                Ok(
                    ExplorerTransactionView {
                        revert_reason: revert_reason->Ok_0,
                        block_number: block_number->Ok_0,
                        confirmations: confirmations->Ok_0,
                        from: from->Ok_0,
                        gas_limit: gas_limit->Ok_0,
                        gas_price: gas_price->Ok_0,
                        gas_used: gas_used->Ok_0,
                        hash: hash->Ok_0,
                        input: input->Ok_0,
                        logs: logs->Ok_0,
                        success: success->Ok_0,
                        time_stamp: time_stamp->Ok_0,
                        to: to->Ok_0,
                        value: value->Ok_0,
                    },
                )
            }
        },
    }
}

/// The response that a document holds: an object with the transaction
/// `result` and the string `status`, read in that order.
pub open spec fn decoded_explorer_response(json: JsonTree) -> Result<
    ExplorerResponseView,
    ParseError,
> {
    match as_members(json) {
        Err(e) => Err(e),
        Ok(m) => {
            let result = match required(m, "result"@) {
                Err(e) => Err(e),
                Ok(value) => decoded_explorer_transaction(value),
            };
            let status = text_at(m, "status"@);
            if result is Err {
                Err(result->Err_0)
            } else if status is Err {
                Err(status->Err_0)
            } else {
                Ok(ExplorerResponseView { result: result->Ok_0, status: status->Ok_0 })
            }
        },
    }
}

impl ExplorerLog {
    /// Decodes a log from a document.
    pub fn from_json(json: &Json) -> (r: Result<ExplorerLog, ParseError>)
        ensures
            match r {
                Ok(log) => decoded_explorer_log(json@) == Ok::<_, ParseError>(log@),
                Err(e) => decoded_explorer_log(json@) == Err::<ExplorerLogView, ParseError>(e),
            },
    {
        let m = read_members(json)?;
        let address = get_text(m, "address")?;
        let data = get_text(m, "data")?;
        let topics = get_optional_texts(m, "topics")?;
        Ok(ExplorerLog { address, data, topics })
    }

    /// This log as a document.
    pub fn to_json(&self) -> (json: Json)
        ensures
            json@ == encoded_explorer_log(self@),
    {
        let mut members: Vec<Member> = Vec::new();
        members.push(text_member("address", self.address.as_str()));
        members.push(text_member("data", self.data.as_str()));
        members.push(member("topics", optional_texts_json(&self.topics)));
        proof {
            lemma_object_view(members);
            assert(members_view(members@) =~= encoded_explorer_log(self@)->Object_0);
        }
        Json::Object(members)
    }
}

/// Once an item fails, every longer prefix fails with the same error.
pub proof fn lemma_explorer_logs_failure(items: Seq<JsonTree>, at: nat, count: nat)
    requires
        at < count,
        decoded_explorer_logs(items, at) is Ok,
        decoded_explorer_log(items[at as int]) is Err,
    ensures
        decoded_explorer_logs(items, count) == Err::<Seq<ExplorerLogView>, ParseError>(
            decoded_explorer_log(items[at as int])->Err_0,
        ),
    decreases count,
{
    if count > at + 1 {
        lemma_explorer_logs_failure(items, at, (count - 1) as nat);
    }
}

/// Decodes the logs of a transaction from the items of an array.
pub fn decode_explorer_logs(items: &Vec<Json>) -> (r: Result<Vec<ExplorerLog>, ParseError>)
    ensures
        match r {
            Ok(logs) => decoded_explorer_logs(items_view(items@), items@.len()) == Ok::<
                _,
                ParseError,
            >(explorer_logs_view(logs@)),
            Err(e) => decoded_explorer_logs(items_view(items@), items@.len()) == Err::<
                Seq<ExplorerLogView>,
                ParseError,
            >(e),
        },
{
    let ghost trees = items_view(items@);
    let mut logs: Vec<ExplorerLog> = Vec::new();
    let mut i: usize = 0;
    assert(explorer_logs_view(logs@) =~= Seq::empty());
    while i < items.len()
        invariant
            0 <= i <= items.len(),
            trees == items_view(items@),
            decoded_explorer_logs(trees, i as nat) == Ok::<_, ParseError>(
                explorer_logs_view(logs@),
            ),
        decreases items.len() - i,
    {
        let ghost before = explorer_logs_view(logs@);
        match ExplorerLog::from_json(&items[i]) {
            Ok(log) => {
                logs.push(log);
                assert(explorer_logs_view(logs@) =~= before.push(log@));
            },
            Err(e) => {
                proof {
                    lemma_explorer_logs_failure(trees, i as nat, items@.len());
                }
                return Err(e);
            },
        }
        i += 1;
    }
    Ok(logs)
}

/// The logs of a transaction as an array.
pub fn encode_explorer_logs(logs: &Vec<ExplorerLog>) -> (json: Json)
    ensures
        json@ == JsonTree::Array(encoded_explorer_logs(explorer_logs_view(logs@))),
{
    let mut items: Vec<Json> = Vec::new();
    let mut i: usize = 0;
    while i < logs.len()
        invariant
            0 <= i <= logs.len(),
            items@.len() == i,
            forall|k: int|
                0 <= k < i ==> (#[trigger] items@[k])@ == encoded_explorer_log(logs@[k]@),
        decreases logs.len() - i,
    {
        items.push(logs[i].to_json());
        i += 1;
    }
    proof {
        lemma_array_view(items);
        assert(items_view(items@) =~= encoded_explorer_logs(explorer_logs_view(logs@)));
    }
    Json::Array(items)
}

impl ExplorerTransaction {
    /// Decodes a transaction from a document.
    pub fn from_json(json: &Json) -> (r: Result<ExplorerTransaction, ParseError>)
        ensures
            match r {
                Ok(tx) => decoded_explorer_transaction(json@) == Ok::<_, ParseError>(tx@),
                Err(e) => decoded_explorer_transaction(json@) == Err::<
                    ExplorerTransactionView,
                    ParseError,
                >(e),
            },
    {
        let m = read_members(json)?;
        let revert_reason = get_text(m, "revertReason")?;
        let block_number = get_text(m, "blockNumber")?;
        let confirmations = get_text(m, "confirmations")?;
        let from = get_text(m, "from")?;
        let gas_limit = get_text(m, "gasLimit")?;
        let gas_price = get_text(m, "gasPrice")?;
        let gas_used = get_text(m, "gasUsed")?;
        let hash = get_text(m, "hash")?;
        let input = get_text(m, "input")?;
        let logs = decode_explorer_logs(get_items(m, "logs")?)?;
        let success = get_flag(m, "success")?;
        let time_stamp = get_text(m, "timeStamp")?;
        let to = get_text(m, "to")?;
        let value = get_text(m, "value")?;
        Ok(
            ExplorerTransaction {
                revert_reason,
                block_number,
                confirmations,
                from,
                gas_limit,
                gas_price,
                gas_used,
                hash,
                input,
                logs,
                success,
                time_stamp,
                to,
                value,
            },
        )
    }

    /// This transaction as a document.
    pub fn to_json(&self) -> (json: Json)
        ensures
            json@ == encoded_explorer_transaction(self@),
    {
        let mut members: Vec<Member> = Vec::new();
        members.push(text_member("revertReason", self.revert_reason.as_str()));
        members.push(text_member("blockNumber", self.block_number.as_str()));
        members.push(text_member("confirmations", self.confirmations.as_str()));
        members.push(text_member("from", self.from.as_str()));
        members.push(text_member("gasLimit", self.gas_limit.as_str()));
        members.push(text_member("gasPrice", self.gas_price.as_str()));
        members.push(text_member("gasUsed", self.gas_used.as_str()));
        members.push(text_member("hash", self.hash.as_str()));
        members.push(text_member("input", self.input.as_str()));
        members.push(member("logs", encode_explorer_logs(&self.logs)));
        members.push(member("success", Json::Bool(self.success)));
        members.push(text_member("timeStamp", self.time_stamp.as_str()));
        members.push(text_member("to", self.to.as_str()));
        members.push(text_member("value", self.value.as_str()));
        proof {
            lemma_object_view(members);
            assert(members_view(members@) =~= encoded_explorer_transaction(self@)->Object_0);
        }
        Json::Object(members)
    }
}

impl ExplorerResponse {
    /// Decodes an explorer-style response from a document.
    pub fn from_json(json: &Json) -> (r: Result<ExplorerResponse, ParseError>)
        ensures
            match r {
                Ok(response) => decoded_explorer_response(json@) == Ok::<_, ParseError>(
                    response@,
                ),
                Err(e) => decoded_explorer_response(json@) == Err::<
                    ExplorerResponseView,
                    ParseError,
                >(e),
            },
    {
        let m = read_members(json)?;
        let result = ExplorerTransaction::from_json(required_member(m, "result")?)?;
        let status = get_text(m, "status")?;
        Ok(ExplorerResponse { result, status })
    }

    /// This response as a document.
    pub fn to_json(&self) -> (json: Json)
        ensures
            json@ == encoded_explorer_response(self@),
    {
        let mut members: Vec<Member> = Vec::new();
        members.push(member("result", self.result.to_json()));
        members.push(text_member("status", self.status.as_str()));
        proof {
            lemma_object_view(members);
            assert(members_view(members@) =~= encoded_explorer_response(self@)->Object_0);
        }
        Json::Object(members)
    }
}

/// The names under which the fields of a log are read.
pub open spec fn explorer_log_names() -> Set<Seq<char>> {
    set!["address"@, "data"@, "topics"@]
}

/// The names under which the fields of a transaction are read.
pub open spec fn explorer_transaction_names() -> Set<Seq<char>> {
    set![
        "revertReason"@,
        "blockNumber"@,
        "confirmations"@,
        "from"@,
        "gasLimit"@,
        "gasPrice"@,
        "gasUsed"@,
        "hash"@,
        "input"@,
        "logs"@,
        "success"@,
        "timeStamp"@,
        "to"@,
        "value"@,
    ]
}

/// The names under which the fields of the envelope are read.
pub open spec fn explorer_response_names() -> Set<Seq<char>> {
    set!["result"@, "status"@]
}

/// A member that the schema of a log does not name is ignored, wherever it
/// stands in the object.
pub proof fn lemma_explorer_log_ignores(
    members: Seq<(Seq<char>, JsonTree)>,
    at: int,
    other: (Seq<char>, JsonTree),
)
    requires
        0 <= at <= members.len(),
        !explorer_log_names().contains(other.0),
    ensures
        decoded_explorer_log(JsonTree::Object(members.insert(at, other))) == decoded_explorer_log(
            JsonTree::Object(members),
        ),
{
    lemma_member_passed_over(members, at, other, "address"@);
    lemma_member_passed_over(members, at, other, "data"@);
    lemma_member_passed_over(members, at, other, "topics"@);
}

/// A member that the schema of a transaction does not name is ignored,
/// wherever it stands in the object.
pub proof fn lemma_explorer_transaction_ignores(
    members: Seq<(Seq<char>, JsonTree)>,
    at: int,
    other: (Seq<char>, JsonTree),
)
    requires
        0 <= at <= members.len(),
        !explorer_transaction_names().contains(other.0),
    ensures
        decoded_explorer_transaction(JsonTree::Object(members.insert(at, other)))
            == decoded_explorer_transaction(JsonTree::Object(members)),
{
    lemma_member_passed_over(members, at, other, "revertReason"@);
    lemma_member_passed_over(members, at, other, "blockNumber"@);
    lemma_member_passed_over(members, at, other, "confirmations"@);
    lemma_member_passed_over(members, at, other, "from"@);
    lemma_member_passed_over(members, at, other, "gasLimit"@);
    lemma_member_passed_over(members, at, other, "gasPrice"@);
    lemma_member_passed_over(members, at, other, "gasUsed"@);
    lemma_member_passed_over(members, at, other, "hash"@);
    lemma_member_passed_over(members, at, other, "input"@);
    lemma_member_passed_over(members, at, other, "logs"@);
    lemma_member_passed_over(members, at, other, "success"@);
    lemma_member_passed_over(members, at, other, "timeStamp"@);
    lemma_member_passed_over(members, at, other, "to"@);
    lemma_member_passed_over(members, at, other, "value"@);
}

/// A member that the schema of the envelope does not name is ignored,
/// wherever it stands in the object.
pub proof fn lemma_explorer_response_ignores(
    members: Seq<(Seq<char>, JsonTree)>,
    at: int,
    other: (Seq<char>, JsonTree),
)
    requires
        0 <= at <= members.len(),
        !explorer_response_names().contains(other.0),
    ensures
        decoded_explorer_response(JsonTree::Object(members.insert(at, other)))
            == decoded_explorer_response(JsonTree::Object(members)),
{
    lemma_member_passed_over(members, at, other, "result"@);
    lemma_member_passed_over(members, at, other, "status"@);
}

/// A log as a document; an empty topic slot is `null`.
pub open spec fn encoded_explorer_log(log: ExplorerLogView) -> JsonTree {
    JsonTree::Object(
        seq![
            ("address"@, JsonTree::Text(log.address)),
            ("data"@, JsonTree::Text(log.data)),
            ("topics"@, JsonTree::Array(optional_text_items(log.topics))),
        ],
    )
}

/// Logs as the items of an array.
pub open spec fn encoded_explorer_logs(logs: Seq<ExplorerLogView>) -> Seq<JsonTree> {
    Seq::new(logs.len(), |i: int| encoded_explorer_log(logs[i]))
}

/// A transaction as a document.
pub open spec fn encoded_explorer_transaction(tx: ExplorerTransactionView) -> JsonTree {
    JsonTree::Object(
        seq![
            ("revertReason"@, JsonTree::Text(tx.revert_reason)),
            ("blockNumber"@, JsonTree::Text(tx.block_number)),
            ("confirmations"@, JsonTree::Text(tx.confirmations)),
            ("from"@, JsonTree::Text(tx.from)),
            ("gasLimit"@, JsonTree::Text(tx.gas_limit)),
            ("gasPrice"@, JsonTree::Text(tx.gas_price)),
            ("gasUsed"@, JsonTree::Text(tx.gas_used)),
            ("hash"@, JsonTree::Text(tx.hash)),
            ("input"@, JsonTree::Text(tx.input)),
            ("logs"@, JsonTree::Array(encoded_explorer_logs(tx.logs))),
            ("success"@, JsonTree::Bool(tx.success)),
            ("timeStamp"@, JsonTree::Text(tx.time_stamp)),
            ("to"@, JsonTree::Text(tx.to)),
            ("value"@, JsonTree::Text(tx.value)),
        ],
    )
}

/// An explorer-style response as a document.
pub open spec fn encoded_explorer_response(response: ExplorerResponseView) -> JsonTree {
    JsonTree::Object(
        seq![
            ("result"@, encoded_explorer_transaction(response.result)),
            ("status"@, JsonTree::Text(response.status)),
        ],
    )
}

/// The field names of the explorer schema are told apart by their keys.
proof fn lemma_explorer_names()
    ensures
        name_key("address"@) == (7nat, 'a', 'r'),
        name_key("data"@) == (4nat, 'd', 'a'),
        name_key("topics"@) == (6nat, 't', 'i'),
        name_key("revertReason"@) == (12nat, 'r', 'e'),
        name_key("blockNumber"@) == (11nat, 'b', 'c'),
        name_key("confirmations"@) == (13nat, 'c', 'f'),
        name_key("from"@) == (4nat, 'f', 'm'),
        name_key("gasLimit"@) == (8nat, 'g', 'L'),
        name_key("gasPrice"@) == (8nat, 'g', 'P'),
        name_key("gasUsed"@) == (7nat, 'g', 'U'),
        name_key("hash"@) == (4nat, 'h', 'h'),
        name_key("input"@) == (5nat, 'i', 'u'),
        name_key("logs"@) == (4nat, 'l', 's'),
        name_key("success"@) == (7nat, 's', 'c'),
        name_key("timeStamp"@) == (9nat, 't', 'e'),
        name_key("to"@).0 == 2,
        name_key("value"@) == (5nat, 'v', 'u'),
        name_key("result"@) == (6nat, 'r', 'u'),
        name_key("status"@) == (6nat, 's', 't'),
{
    reveal_strlit("address");
    reveal_strlit("data");
    reveal_strlit("topics");
    reveal_strlit("revertReason");
    reveal_strlit("blockNumber");
    reveal_strlit("confirmations");
    reveal_strlit("from");
    reveal_strlit("gasLimit");
    reveal_strlit("gasPrice");
    reveal_strlit("gasUsed");
    reveal_strlit("hash");
    reveal_strlit("input");
    reveal_strlit("logs");
    reveal_strlit("success");
    reveal_strlit("timeStamp");
    reveal_strlit("to");
    reveal_strlit("value");
    reveal_strlit("result");
    reveal_strlit("status");
}

/// A log written as a document is read back unchanged, empty topic slots
/// included.
pub proof fn lemma_explorer_log_round_trip(log: ExplorerLogView)
    ensures
        decoded_explorer_log(encoded_explorer_log(log)) == Ok::<_, ParseError>(log),
{
    lemma_explorer_names();
    lemma_optional_texts_round_trip(log.topics);
    let m = encoded_explorer_log(log)->Object_0;
    lemma_member_found(m, "address"@, 0);
    lemma_member_found(m, "data"@, 1);
    lemma_member_found(m, "topics"@, 2);
}

/// Logs written as an array are read back unchanged, one after the other.
pub proof fn lemma_explorer_logs_round_trip(logs: Seq<ExplorerLogView>, count: nat)
    requires
        count <= logs.len(),
    ensures
        decoded_explorer_logs(encoded_explorer_logs(logs), count) == Ok::<_, ParseError>(
            logs.take(count as int),
        ),
    decreases count,
{
    if count == 0 {
        assert(logs.take(0) =~= Seq::empty());
    } else {
        lemma_explorer_logs_round_trip(logs, (count - 1) as nat);
        lemma_explorer_log_round_trip(logs[count - 1]);
        assert(logs.take(count - 1).push(logs[count - 1]) =~= logs.take(count as int));
    }
}

/// A transaction written as a document is read back unchanged.
pub proof fn lemma_explorer_transaction_round_trip(tx: ExplorerTransactionView)
    ensures
        decoded_explorer_transaction(encoded_explorer_transaction(tx)) == Ok::<_, ParseError>(tx),
{
    lemma_explorer_names();
    lemma_explorer_logs_round_trip(tx.logs, tx.logs.len());
    assert(tx.logs.take(tx.logs.len() as int) =~= tx.logs);
    let m = encoded_explorer_transaction(tx)->Object_0;
    lemma_member_found(m, "revertReason"@, 0);
    lemma_member_found(m, "blockNumber"@, 1);
    lemma_member_found(m, "confirmations"@, 2);
    lemma_member_found(m, "from"@, 3);
    lemma_member_found(m, "gasLimit"@, 4);
    lemma_member_found(m, "gasPrice"@, 5);
    lemma_member_found(m, "gasUsed"@, 6);
    lemma_member_found(m, "hash"@, 7);
    lemma_member_found(m, "input"@, 8);
    lemma_member_found(m, "logs"@, 9);
    lemma_member_found(m, "success"@, 10);
    lemma_member_found(m, "timeStamp"@, 11);
    lemma_member_found(m, "to"@, 12);
    lemma_member_found(m, "value"@, 13);
}

/// Decoding undoes encoding: a response written as a document and read
/// again is the response that was written, each string character for
/// character.
pub proof fn lemma_explorer_round_trip(response: ExplorerResponseView)
    ensures
        decoded_explorer_response(encoded_explorer_response(response)) == Ok::<_, ParseError>(
            response,
        ),
{
    lemma_explorer_names();
    lemma_explorer_transaction_round_trip(response.result);
    let m = encoded_explorer_response(response)->Object_0;
    lemma_member_found(m, "result"@, 0);
    lemma_member_found(m, "status"@, 1);
}

} // verus!
