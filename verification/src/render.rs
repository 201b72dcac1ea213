//! The report: block, transaction and log sections, then the raw response.
//!
//! A report is a sequence of lines, given here as spec functions over the
//! views of the response models; each renderer returns exactly those lines.
//! Strings are shown as `{:?}` writes them. A numeric field is shown in
//! hexadecimal and in decimal where it can be read as a `u64` in the base of
//! its family, and as it stands where it cannot.

use vstd::prelude::*;
use vstd::string::*;
use crate::explorer::{ExplorerLog, ExplorerLogView, ExplorerResponse, ExplorerResponseView,
    ExplorerTransaction, ExplorerTransactionView};
use crate::numeric::{decimal_text, numeral, parse_u64, parsed_u64, upper_hex_text};
use crate::receipt::{ReceiptLog, ReceiptLogView, ReceiptResponse, ReceiptResponseView,
    ReceiptTransaction, ReceiptTransactionView};
use crate::text::{debug_quoted, debug_text, optional_text, same_text, strip_prefix,
    strip_quotes, texts, without_prefix, without_quotes};

verus! {

/// The line above the block section.
pub const BLOCK_HEADING: &'static str =
    "===========================  Block Information  ===========================";

/// The line above the transaction section.
pub const TRANSACTION_HEADING: &'static str =
    "========================  Transaction Information  ========================";

/// The line above the log section.
pub const LOG_HEADING: &'static str =
    "============================  Log Information  ============================";

/// The line above the raw response.
pub const RAW_HEADING: &'static str =
    "==============================  Raw Response  ==============================";

/// `label : shown`
pub open spec fn labelled_text(label: Seq<char>, shown: Seq<char>) -> Seq<char> {
    label + " : "@ + shown
}

/// A numeric field: both representations where a decimal one is given, the
/// first alone where none is.
pub open spec fn numeric_text(label: Seq<char>, hex: Seq<char>, decimal: Option<Seq<char>>) -> Seq<
    char,
> {
    match decimal {
        Some(d) => label + " (Hex/Dec) : "@ + hex + " / "@ + d,
        None => label + " (Hex) : "@ + hex,
    }
}

/// A numeric field of a receipt. What follows the prefix `0x` is read in
/// base 16 and shown, with its decimal value where it has one. A value
/// without the prefix is no hexadecimal number and is shown as it stands.
pub open spec fn hex_field_text(label: Seq<char>, value: Seq<char>) -> Seq<char> {
    match without_prefix(value, "0x"@) {
        Some(digits) => match parsed_u64(digits, 16) {
            Some(n) => numeric_text(label, debug_quoted(digits), Some(numeral(n as nat, 10))),
            None => numeric_text(label, debug_quoted(digits), None),
        },
        None => numeric_text(label, debug_quoted(value), None),
    }
}

/// A numeric field of an explorer transaction: the whole string, read in
/// base 10.
pub open spec fn decimal_field_text(label: Seq<char>, value: Seq<char>) -> Seq<char> {
    match parsed_u64(value, 10) {
        Some(n) => numeric_text(
            label,
            debug_quoted(numeral(n as nat, 16)),
            Some(debug_quoted(value)),
        ),
        None => numeric_text(label, debug_quoted(value), None),
    }
}

/// The status of a receipt: success for `0x1`, failure for anything else.
pub open spec fn receipt_status_text(status: Seq<char>) -> Seq<char> {
    if status == "0x1"@ {
        "Status : Success ("@ + status + ")"@
    } else {
        "Status : Fail ("@ + status + ")"@
    }
}

/// The status of an explorer transaction, from its success flag.
pub open spec fn explorer_status_text(success: bool) -> Seq<char> {
    if success {
        "Status : Success (true)"@
    } else {
        "Status : Fail (false)"@
    }
}

/// How a boolean is written.
pub open spec fn flag_text(flag: bool) -> Seq<char> {
    if flag {
        "true"@
    } else {
        "false"@
    }
}

/// One topic of a log, under its index.
pub open spec fn topic_text(index: nat, shown: Seq<char>) -> Seq<char> {
    "\tTopic "@ + numeral(index, 10) + " : "@ + shown
}

/// A status line that reports success.
pub open spec fn reports_success(line: Seq<char>) -> bool {
    line.len() >= 16 && line.subrange(0, 16) == "Status : Success"@
}

/// A status line that reports failure.
pub open spec fn reports_failure(line: Seq<char>) -> bool {
    line.len() >= 13 && line.subrange(0, 13) == "Status : Fail"@
}

/// A receipt reports success for the status `0x1` and failure for every
/// other status, whatever it holds.
pub proof fn lemma_receipt_status(status: Seq<char>)
    ensures
        reports_success(receipt_status_text(status)) <==> status == "0x1"@,
        reports_failure(receipt_status_text(status)) <==> status != "0x1"@,
{
    reveal_strlit("Status : Success");
    reveal_strlit("Status : Fail");
    reveal_strlit("Status : Success (");
    reveal_strlit("Status : Fail (");
    let line = receipt_status_text(status);
    if status == "0x1"@ {
        assert(line.subrange(0, 16) =~= "Status : Success"@);
        assert(line.subrange(0, 13)[9] == 'S');
    } else {
        assert(line.subrange(0, 13) =~= "Status : Fail"@);
        if line.len() >= 16 {
            assert(line.subrange(0, 16)[9] == 'F');
        }
    }
}

/// An explorer transaction reports success where its flag is set and
/// failure where it is not.
pub proof fn lemma_explorer_status(success: bool)
    ensures
        reports_success(explorer_status_text(success)) <==> success,
        reports_failure(explorer_status_text(success)) <==> !success,
{
    reveal_strlit("Status : Success");
    reveal_strlit("Status : Fail");
    reveal_strlit("Status : Success (true)");
    reveal_strlit("Status : Fail (false)");
    let line = explorer_status_text(success);
    if success {
        assert(line.subrange(0, 16) =~= "Status : Success"@);
        assert(line.subrange(0, 13)[9] == 'S');
    } else {
        assert(line.subrange(0, 13) =~= "Status : Fail"@);
        assert(line.subrange(0, 16)[9] == 'F');
    }
}

/// `label : shown`
pub fn labelled(label: &str, shown: &str) -> (r: String)
    ensures
        r@ == labelled_text(label@, shown@),
{
    let mut r = label.to_owned();
    r.append(" : ");
    r.append(shown);
    r
}

/// A numeric field with both representations, or with the first alone.
pub fn numeric_line(label: &str, hex: &str, decimal: Option<&str>) -> (r: String)
    ensures
        r@ == numeric_text(
            label@,
            hex@,
            match decimal {
                Some(d) => Some(d@),
                None => None,
            },
        ),
{
    let mut r = label.to_owned();
    match decimal {
        Some(d) => {
            r.append(" (Hex/Dec) : ");
            r.append(hex);
            r.append(" / ");
            r.append(d);
        },
        None => {
            r.append(" (Hex) : ");
            r.append(hex);
        },
    }
    r
}

/// A numeric field of a receipt.
pub fn hex_field_line(label: &str, value: &str) -> (r: String)
    ensures
        r@ == hex_field_text(label@, value@),
{
    match strip_prefix(value, "0x") {
        Some(digits) => {
            let shown = debug_text(digits.as_str());
            match parse_u64(digits.as_str(), 16) {
                Some(n) => {
                    let decimal = decimal_text(n);
                    numeric_line(label, shown.as_str(), Some(decimal.as_str()))
                },
                None => numeric_line(label, shown.as_str(), None),
            }
        },
        None => {
            let shown = debug_text(value);
            numeric_line(label, shown.as_str(), None)
        },
    }
}

/// A numeric field of an explorer transaction.
pub fn decimal_field_line(label: &str, value: &str) -> (r: String)
    ensures
        r@ == decimal_field_text(label@, value@),
{
    let shown = debug_text(value);
    match parse_u64(value, 10) {
        Some(n) => {
            let hex = upper_hex_text(n);
            let hex_shown = debug_text(hex.as_str());
            numeric_line(label, hex_shown.as_str(), Some(shown.as_str()))
        },
        None => numeric_line(label, shown.as_str(), None),
    }
}

/// The status line of a receipt.
pub fn receipt_status_line(status: &str) -> (r: String)
    ensures
        r@ == receipt_status_text(status@),
{
    let mut r = if same_text(status, "0x1") {
        "Status : Success (".to_owned()
    } else {
        "Status : Fail (".to_owned()
    };
    r.append(status);
    r.append(")");
    r
}

/// The status line of an explorer transaction.
pub fn explorer_status_line(success: bool) -> (r: String)
    ensures
        r@ == explorer_status_text(success),
{
    if success {
        "Status : Success (true)".to_owned()
    } else {
        "Status : Fail (false)".to_owned()
    }
}

/// How a boolean is written.
pub fn flag_str(flag: bool) -> (r: &'static str)
    ensures
        r@ == flag_text(flag),
{
    if flag {
        "true"
    } else {
        "false"
    }
}

/// One topic of a log, under its index.
pub fn topic_line(index: usize, shown: &str) -> (r: String)
    ensures
        r@ == topic_text(index as nat, shown@),
{
    let mut r = "\tTopic ".to_owned();
    let number = decimal_text(index as u64);
    r.append(number.as_str());
    r.append(" : ");
    r.append(shown);
    r
}

/// Adds one line to a report.
pub fn push_line(lines: &mut Vec<String>, line: String)
    ensures
        texts(final(lines)@) == texts(old(lines)@).push(line@),
{
    lines.push(line);
    assert(texts(lines@) =~= texts(old(lines)@).push(line@));
}

/// Adds the lines of `more` to a report.
pub fn append_lines(lines: &mut Vec<String>, more: Vec<String>)
    ensures
        texts(final(lines)@) == texts(old(lines)@) + texts(more@),
{
    let mut more = more;
    let ghost added = more@;
    lines.append(&mut more);
    assert(texts(lines@) =~= texts(old(lines)@) + texts(added));
}

/// The block section of a receipt report.
pub open spec fn receipt_block_lines(tx: ReceiptTransactionView) -> Seq<Seq<char>> {
    seq![
        ""@,
        ""@,
        BLOCK_HEADING@,
        labelled_text("Block hash"@, debug_quoted(without_quotes(tx.block_hash))),
        hex_field_text("Block Number"@, tx.block_number),
    ]
}

/// The contract address line, where the receipt names a contract.
pub open spec fn contract_lines(address: Option<Seq<char>>) -> Seq<Seq<char>> {
    match address {
        Some(a) => seq![labelled_text("Contract Address"@, debug_quoted(without_quotes(a)))],
        None => Seq::empty(),
    }
}

/// The transaction section of a receipt report.
pub open spec fn receipt_transaction_lines(tx: ReceiptTransactionView) -> Seq<Seq<char>> {
    seq![
        ""@,
        TRANSACTION_HEADING@,
        receipt_status_text(tx.status),
        labelled_text("Transaction hash"@, debug_quoted(without_quotes(tx.transaction_hash))),
        labelled_text("Transaction Index"@, debug_quoted(tx.transaction_index)),
        labelled_text("From address"@, debug_quoted(without_quotes(tx.from))),
        labelled_text("To address"@, debug_quoted(without_quotes(tx.to))),
        hex_field_text("Gas Used"@, tx.gas_used),
        hex_field_text("Cumulative Gas Used"@, tx.cumulative_gas_used),
        hex_field_text("Effective Gas Price"@, tx.effective_gas_price),
    ] + contract_lines(tx.contract_address)
}

/// The lines of the first `count` topics of a receipt log.
pub open spec fn receipt_topic_lines(topics: Seq<Seq<char>>, count: nat) -> Seq<Seq<char>>
    decreases count,
{
    if count == 0 {
        Seq::empty()
    } else {
        receipt_topic_lines(topics, (count - 1) as nat).push(
            topic_text((count - 1) as nat, debug_quoted(topics[count - 1])),
        )
    }
}

/// The lines of one receipt log, shown under its zero-based position.
pub open spec fn receipt_log_lines(index: nat, log: ReceiptLogView) -> Seq<Seq<char>> {
    seq![
        labelled_text("Log Index"@, numeral(index, 10)),
        labelled_text("Address"@, debug_quoted(log.address)),
        labelled_text("Block Hash"@, debug_quoted(log.block_hash)),
        labelled_text("Block Number"@, debug_quoted(log.block_number)),
        labelled_text("Data"@, debug_quoted(log.data)),
        labelled_text("Log Index"@, debug_quoted(log.log_index)),
        labelled_text("Removed"@, flag_text(log.removed)),
        "Topics : "@,
    ] + receipt_topic_lines(log.topics, log.topics.len()) + seq![
        ""@,
        labelled_text("Transaction Hash"@, debug_quoted(log.transaction_hash)),
        labelled_text("Transaction Index"@, debug_quoted(log.transaction_index)),
        ""@,
        ""@,
    ]
}

/// The lines of the first `count` logs of a receipt, in their order.
pub open spec fn receipt_logs_lines(logs: Seq<ReceiptLogView>, count: nat) -> Seq<Seq<char>>
    decreases count,
{
    if count == 0 {
        Seq::empty()
    } else {
        receipt_logs_lines(logs, (count - 1) as nat) + receipt_log_lines(
            (count - 1) as nat,
            logs[count - 1],
        )
    }
}

/// The log section of a receipt report: every log, then the bloom filter.
pub open spec fn receipt_log_section(tx: ReceiptTransactionView) -> Seq<Seq<char>> {
    seq![""@, LOG_HEADING@, ""@] + receipt_logs_lines(tx.logs, tx.logs.len()) + seq![
        labelled_text("logsBloom"@, debug_quoted(tx.logs_bloom)),
    ]
}

/// The last section of every report: the response text as it was received.
pub open spec fn raw_lines(raw: Seq<char>) -> Seq<Seq<char>> {
    seq![""@, RAW_HEADING@, raw]
}

/// The report of a receipt-style response.
pub open spec fn receipt_report(response: ReceiptResponseView, raw: Seq<char>) -> Seq<Seq<char>> {
    receipt_block_lines(response.result) + receipt_transaction_lines(response.result)
        + receipt_log_section(response.result) + raw_lines(raw)
}

/// A string field as `{:?}` writes it.
fn shown_line(label: &str, value: &str) -> (r: String)
    ensures
        r@ == labelled_text(label@, debug_quoted(value@)),
{
    let shown = debug_text(value);
    labelled(label, shown.as_str())
}

/// A string field without its double quotes, as `{:?}` writes it.
fn unquoted_line(label: &str, value: &str) -> (r: String)
    ensures
        r@ == labelled_text(label@, debug_quoted(without_quotes(value@))),
{
    let stripped = strip_quotes(value);
    shown_line(label, stripped.as_str())
}

/// The block section of a receipt report.
pub fn render_receipt_block(tx: &ReceiptTransaction) -> (lines: Vec<String>)
    ensures
        texts(lines@) == receipt_block_lines(tx@),
{
    let mut lines: Vec<String> = Vec::new();
    assert(texts(lines@) =~= Seq::empty());
    push_line(&mut lines, "".to_owned());
    push_line(&mut lines, "".to_owned());
    push_line(&mut lines, BLOCK_HEADING.to_owned());
    push_line(&mut lines, unquoted_line("Block hash", tx.block_hash.as_str()));
    push_line(&mut lines, hex_field_line("Block Number", tx.block_number.as_str()));
    assert(texts(lines@) =~= receipt_block_lines(tx@));
    lines
}

/// The transaction section of a receipt report.
pub fn render_receipt_transaction(tx: &ReceiptTransaction) -> (lines: Vec<String>)
    ensures
        texts(lines@) == receipt_transaction_lines(tx@),
{
    let mut lines: Vec<String> = Vec::new();
    assert(texts(lines@) =~= Seq::empty());
    push_line(&mut lines, "".to_owned());
    push_line(&mut lines, TRANSACTION_HEADING.to_owned());
    push_line(&mut lines, receipt_status_line(tx.status.as_str()));
    push_line(&mut lines, unquoted_line("Transaction hash", tx.transaction_hash.as_str()));
    push_line(&mut lines, shown_line("Transaction Index", tx.transaction_index.as_str()));
    push_line(&mut lines, unquoted_line("From address", tx.from.as_str()));
    push_line(&mut lines, unquoted_line("To address", tx.to.as_str()));
    push_line(&mut lines, hex_field_line("Gas Used", tx.gas_used.as_str()));
    push_line(&mut lines, hex_field_line("Cumulative Gas Used", tx.cumulative_gas_used.as_str()));
    push_line(&mut lines, hex_field_line("Effective Gas Price", tx.effective_gas_price.as_str()));
    match &tx.contract_address {
        Some(address) => {
            push_line(&mut lines, unquoted_line("Contract Address", address.as_str()));
        },
        None => {},
    }
    assert(texts(lines@) =~= receipt_transaction_lines(tx@));
    lines
}

/// The lines of one receipt log, shown under its zero-based position.
pub fn render_receipt_log(index: usize, log: &ReceiptLog) -> (lines: Vec<String>)
    ensures
        texts(lines@) == receipt_log_lines(index as nat, log@),
{
    let mut lines: Vec<String> = Vec::new();
    assert(texts(lines@) =~= Seq::empty());
    let position = decimal_text(index as u64);
    push_line(&mut lines, labelled("Log Index", position.as_str()));
    push_line(&mut lines, shown_line("Address", log.address.as_str()));
    push_line(&mut lines, shown_line("Block Hash", log.block_hash.as_str()));
    push_line(&mut lines, shown_line("Block Number", log.block_number.as_str()));
    push_line(&mut lines, shown_line("Data", log.data.as_str()));
    push_line(&mut lines, shown_line("Log Index", log.log_index.as_str()));
    push_line(&mut lines, labelled("Removed", flag_str(log.removed)));
    push_line(&mut lines, "Topics : ".to_owned());
    let ghost head = texts(lines@);
    let mut i: usize = 0;
    while i < log.topics.len()
        invariant
            0 <= i <= log.topics.len(),
            texts(lines@) == head + receipt_topic_lines(log@.topics, i as nat),
        decreases log.topics.len() - i,
    {
        let shown = debug_text(log.topics[i].as_str());
        push_line(&mut lines, topic_line(i, shown.as_str()));
        assert(log@.topics[i as int] == log.topics@[i as int]@);
        assert(head + receipt_topic_lines(log@.topics, (i + 1) as nat) =~= (head
            + receipt_topic_lines(log@.topics, i as nat)).push(
            topic_text(i as nat, debug_quoted(log@.topics[i as int])),
        ));
        i += 1;
    }
    push_line(&mut lines, "".to_owned());
    push_line(&mut lines, shown_line("Transaction Hash", log.transaction_hash.as_str()));
    push_line(&mut lines, shown_line("Transaction Index", log.transaction_index.as_str()));
    push_line(&mut lines, "".to_owned());
    push_line(&mut lines, "".to_owned());
    proof {
        assert(log@.topics.len() == log.topics@.len());
        assert(texts(lines@) =~= receipt_log_lines(index as nat, log@));
    }
    lines
}

/// The log section of a receipt report.
pub fn render_receipt_logs(tx: &ReceiptTransaction) -> (lines: Vec<String>)
    ensures
        texts(lines@) == receipt_log_section(tx@),
{
    let mut lines: Vec<String> = Vec::new();
    assert(texts(lines@) =~= Seq::empty());
    push_line(&mut lines, "".to_owned());
    push_line(&mut lines, LOG_HEADING.to_owned());
    push_line(&mut lines, "".to_owned());
    let ghost head = texts(lines@);
    let mut i: usize = 0;
    while i < tx.logs.len()
        invariant
            0 <= i <= tx.logs.len(),
            texts(lines@) == head + receipt_logs_lines(tx@.logs, i as nat),
        decreases tx.logs.len() - i,
    {
        let entry = render_receipt_log(i, &tx.logs[i]);
        append_lines(&mut lines, entry);
        assert(tx@.logs[i as int] == tx.logs@[i as int]@);
        assert(head + receipt_logs_lines(tx@.logs, (i + 1) as nat) =~= head + receipt_logs_lines(
            tx@.logs,
            i as nat,
        ) + receipt_log_lines(i as nat, tx@.logs[i as int]));
        i += 1;
    }
    push_line(&mut lines, shown_line("logsBloom", tx.logs_bloom.as_str()));
    proof {
        assert(tx@.logs.len() == tx.logs@.len());
        assert(texts(lines@) =~= receipt_log_section(tx@));
    }
    lines
}

/// The last section of every report.
pub fn render_raw(raw_response: &str) -> (lines: Vec<String>)
    ensures
        texts(lines@) == raw_lines(raw_response@),
{
    let mut lines: Vec<String> = Vec::new();
    assert(texts(lines@) =~= Seq::empty());
    push_line(&mut lines, "".to_owned());
    push_line(&mut lines, RAW_HEADING.to_owned());
    push_line(&mut lines, raw_response.to_owned());
    assert(texts(lines@) =~= raw_lines(raw_response@));
    lines
}

/// Renders a receipt-style response: block, transaction and log sections,
/// then the raw response text, unchanged, as the last line.
pub fn render_receipt(response: &ReceiptResponse, raw_response: &str) -> (lines: Vec<String>)
    ensures
        texts(lines@) == receipt_report(response@, raw_response@),
{
    let mut lines = render_receipt_block(&response.result);
    append_lines(&mut lines, render_receipt_transaction(&response.result));
    append_lines(&mut lines, render_receipt_logs(&response.result));
    append_lines(&mut lines, render_raw(raw_response));
    lines
}

/// The block section of an explorer report.
pub open spec fn explorer_block_lines(tx: ExplorerTransactionView) -> Seq<Seq<char>> {
    seq![
        ""@,
        ""@,
        BLOCK_HEADING@,
        labelled_text("Block Number"@, debug_quoted(tx.block_number)),
    ]
}

/// The transaction section of an explorer report. The explorer gives no
/// transaction index; the block number stands in its place.
pub open spec fn explorer_transaction_lines(tx: ExplorerTransactionView) -> Seq<Seq<char>> {
    seq![
        ""@,
        TRANSACTION_HEADING@,
        explorer_status_text(tx.success),
        labelled_text("Transaction hash"@, debug_quoted(without_quotes(tx.hash))),
        labelled_text("Transaction Index"@, debug_quoted(tx.block_number)),
        labelled_text("From address"@, debug_quoted(without_quotes(tx.from))),
        labelled_text("To address"@, debug_quoted(without_quotes(tx.to))),
        decimal_field_text("Gas Used"@, tx.gas_used),
        decimal_field_text("Gas Limit"@, tx.gas_limit),
        decimal_field_text("Gas Price"@, tx.gas_price),
        decimal_field_text("Value"@, tx.value),
    ]
}

/// How a topic slot is shown: a topic as `{:?}` writes it, an empty slot as
/// the word `None`.
pub open spec fn topic_slot_text(topic: Option<Seq<char>>) -> Seq<char> {
    match topic {
        Some(t) => debug_quoted(t),
        None => "None"@,
    }
}

/// The lines of the first `count` topic slots of an explorer log.
pub open spec fn explorer_topic_lines(topics: Seq<Option<Seq<char>>>, count: nat) -> Seq<
    Seq<char>,
>
    decreases count,
{
    if count == 0 {
        Seq::empty()
    } else {
        explorer_topic_lines(topics, (count - 1) as nat).push(
            topic_text((count - 1) as nat, topic_slot_text(topics[count - 1])),
        )
    }
}

/// Every topic slot of an explorer log has a line of its own, in order and
/// under its index, and the line of an empty slot ends in the word `None`,
/// not in an empty string.
pub proof fn lemma_explorer_topic_lines(topics: Seq<Option<Seq<char>>>, count: nat)
    ensures
        explorer_topic_lines(topics, count).len() == count,
        forall|i: int|
            0 <= i < count ==> #[trigger] explorer_topic_lines(topics, count)[i] == topic_text(
                i as nat,
                topic_slot_text(topics[i]),
            ),
        forall|i: int|
            0 <= i < count && topics[i] is None ==> #[trigger] explorer_topic_lines(
                topics,
                count,
            )[i] == "\tTopic "@ + numeral(i as nat, 10) + " : "@ + "None"@,
        "None"@.len() == 4,
    decreases count,
{
    reveal_strlit("None");
    if count > 0 {
        lemma_explorer_topic_lines(topics, (count - 1) as nat);
    }
}

/// The lines of one explorer log, shown under its zero-based position.
pub open spec fn explorer_log_lines(index: nat, log: ExplorerLogView) -> Seq<Seq<char>> {
    seq![
        "Log "@ + numeral(index, 10),
        labelled_text("Address"@, debug_quoted(log.address)),
        labelled_text("Data"@, debug_quoted(log.data)),
        "Topics : "@,
    ] + explorer_topic_lines(log.topics, log.topics.len()) + seq![""@]
}

/// The lines of the first `count` logs of an explorer transaction.
pub open spec fn explorer_logs_lines(logs: Seq<ExplorerLogView>, count: nat) -> Seq<Seq<char>>
    decreases count,
{
    if count == 0 {
        Seq::empty()
    } else {
        explorer_logs_lines(logs, (count - 1) as nat) + explorer_log_lines(
            (count - 1) as nat,
            logs[count - 1],
        )
    }
}

/// The log section of an explorer report.
pub open spec fn explorer_log_section(tx: ExplorerTransactionView) -> Seq<Seq<char>> {
    seq![""@, LOG_HEADING@, ""@] + explorer_logs_lines(tx.logs, tx.logs.len())
}

/// The report of an explorer-style response.
pub open spec fn explorer_report(response: ExplorerResponseView, raw: Seq<char>) -> Seq<
    Seq<char>,
> {
    explorer_block_lines(response.result) + explorer_transaction_lines(response.result)
        + explorer_log_section(response.result) + raw_lines(raw)
}

/// The block section of an explorer report.
pub fn render_explorer_block(tx: &ExplorerTransaction) -> (lines: Vec<String>)
    ensures
        texts(lines@) == explorer_block_lines(tx@),
{
    let mut lines: Vec<String> = Vec::new();
    assert(texts(lines@) =~= Seq::empty());
    push_line(&mut lines, "".to_owned());
    push_line(&mut lines, "".to_owned());
    push_line(&mut lines, BLOCK_HEADING.to_owned());
    push_line(&mut lines, shown_line("Block Number", tx.block_number.as_str()));
    assert(texts(lines@) =~= explorer_block_lines(tx@));
    lines
}

/// The transaction section of an explorer report.
pub fn render_explorer_transaction(tx: &ExplorerTransaction) -> (lines: Vec<String>)
    ensures
        texts(lines@) == explorer_transaction_lines(tx@),
{
    let mut lines: Vec<String> = Vec::new();
    assert(texts(lines@) =~= Seq::empty());
    push_line(&mut lines, "".to_owned());
    push_line(&mut lines, TRANSACTION_HEADING.to_owned());
    push_line(&mut lines, explorer_status_line(tx.success));
    push_line(&mut lines, unquoted_line("Transaction hash", tx.hash.as_str()));
    push_line(&mut lines, shown_line("Transaction Index", tx.block_number.as_str()));
    push_line(&mut lines, unquoted_line("From address", tx.from.as_str()));
    push_line(&mut lines, unquoted_line("To address", tx.to.as_str()));
    push_line(&mut lines, decimal_field_line("Gas Used", tx.gas_used.as_str()));
    push_line(&mut lines, decimal_field_line("Gas Limit", tx.gas_limit.as_str()));
    push_line(&mut lines, decimal_field_line("Gas Price", tx.gas_price.as_str()));
    push_line(&mut lines, decimal_field_line("Value", tx.value.as_str()));
    assert(texts(lines@) =~= explorer_transaction_lines(tx@));
    lines
}

/// One topic slot of an explorer log, under its index.
pub fn explorer_topic_line(index: usize, topic: &Option<String>) -> (r: String)
    ensures
        r@ == topic_text(
            index as nat,
            topic_slot_text(
                match topic {
                    Some(t) => Some(t@),
                    None => None,
                },
            ),
        ),
{
    match topic {
        Some(t) => {
            let shown = debug_text(t.as_str());
            topic_line(index, shown.as_str())
        },
        None => topic_line(index, "None"),
    }
}

/// The lines of one explorer log, shown under its zero-based position.
pub fn render_explorer_log(index: usize, log: &ExplorerLog) -> (lines: Vec<String>)
    ensures
        texts(lines@) == explorer_log_lines(index as nat, log@),
{
    let mut lines: Vec<String> = Vec::new();
    assert(texts(lines@) =~= Seq::empty());
    let mut title = "Log ".to_owned();
    let position = decimal_text(index as u64);
    title.append(position.as_str());
    push_line(&mut lines, title);
    push_line(&mut lines, shown_line("Address", log.address.as_str()));
    push_line(&mut lines, shown_line("Data", log.data.as_str()));
    push_line(&mut lines, "Topics : ".to_owned());
    let ghost head = texts(lines@);
    let mut i: usize = 0;
    while i < log.topics.len()
        invariant
            0 <= i <= log.topics.len(),
            texts(lines@) == head + explorer_topic_lines(log@.topics, i as nat),
        decreases log.topics.len() - i,
    {
        push_line(&mut lines, explorer_topic_line(i, &log.topics[i]));
        assert(log@.topics[i as int] == optional_text(log.topics@[i as int]));
        assert(head + explorer_topic_lines(log@.topics, (i + 1) as nat) =~= (head
            + explorer_topic_lines(log@.topics, i as nat)).push(
            topic_text(i as nat, topic_slot_text(log@.topics[i as int])),
        ));
        i += 1;
    }
    push_line(&mut lines, "".to_owned());
    proof {
        assert(log@.topics.len() == log.topics@.len());
        assert(texts(lines@) =~= explorer_log_lines(index as nat, log@));
    }
    lines
}

/// The log section of an explorer report.
pub fn render_explorer_logs(tx: &ExplorerTransaction) -> (lines: Vec<String>)
    ensures
        texts(lines@) == explorer_log_section(tx@),
{
    let mut lines: Vec<String> = Vec::new();
    assert(texts(lines@) =~= Seq::empty());
    push_line(&mut lines, "".to_owned());
    push_line(&mut lines, LOG_HEADING.to_owned());
    push_line(&mut lines, "".to_owned());
    let ghost head = texts(lines@);
    let mut i: usize = 0;
    while i < tx.logs.len()
        invariant
            0 <= i <= tx.logs.len(),
            texts(lines@) == head + explorer_logs_lines(tx@.logs, i as nat),
        decreases tx.logs.len() - i,
    {
        let entry = render_explorer_log(i, &tx.logs[i]);
        append_lines(&mut lines, entry);
        assert(tx@.logs[i as int] == tx.logs@[i as int]@);
        assert(head + explorer_logs_lines(tx@.logs, (i + 1) as nat) =~= head
            + explorer_logs_lines(tx@.logs, i as nat) + explorer_log_lines(
            i as nat,
            tx@.logs[i as int],
        ));
        i += 1;
    }
    proof {
        assert(tx@.logs.len() == tx.logs@.len());
        assert(texts(lines@) =~= explorer_log_section(tx@));
    }
    lines
}

/// Renders an explorer-style response: block, transaction and log sections,
/// then the raw response text, unchanged, as the last line.
pub fn render_explorer(response: &ExplorerResponse, raw_response: &str) -> (lines: Vec<String>)
    ensures
        texts(lines@) == explorer_report(response@, raw_response@),
{
    let mut lines = render_explorer_block(&response.result);
    append_lines(&mut lines, render_explorer_transaction(&response.result));
    append_lines(&mut lines, render_explorer_logs(&response.result));
    append_lines(&mut lines, render_raw(raw_response));
    lines
}

} // verus!
