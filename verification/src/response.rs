//! From the raw response text to the report.
//!
//! The family of the chain decides which schema the text is decoded under;
//! the other model is never built. The text itself is kept as it was
//! received and closes the report.

use vstd::prelude::*;
use vstd::string::*;
use crate::chain::{chain_display_name, ResponseFamily, SupportChain, UnsupportedChain};
use crate::explorer::{decoded_explorer_response, ExplorerResponse, ExplorerResponseView};
use crate::json::{document_of, parse_document, Json, JsonTree, ParseError};
use crate::receipt::{decoded_receipt_response, ReceiptResponse, ReceiptResponseView};
use crate::render::{explorer_report, push_line, receipt_report, render_explorer, render_receipt};
use crate::request::ConfigError;
use crate::text::texts;

verus! {

/// A decoded response, of one family or the other.
#[derive(Debug, PartialEq, Eq)]
pub enum ParsedResponse {
    Receipt(ReceiptResponse),
    Explorer(ExplorerResponse),
}

/// The mathematical value of a `ParsedResponse`.
pub enum ParsedResponseView {
    Receipt(ReceiptResponseView),
    Explorer(ExplorerResponseView),
}

impl View for ParsedResponse {
    type V = ParsedResponseView;

    open spec fn view(&self) -> ParsedResponseView {
        match self {
            ParsedResponse::Receipt(response) => ParsedResponseView::Receipt(response@),
            ParsedResponse::Explorer(response) => ParsedResponseView::Explorer(response@),
        }
    }
}

/// The response that a document holds under the schema of `family`.
pub open spec fn decoded_response(document: JsonTree, family: ResponseFamily) -> Result<
    ParsedResponseView,
    ParseError,
> {
    match family {
        ResponseFamily::ReceiptStyle => match decoded_receipt_response(document) {
            Ok(response) => Ok(ParsedResponseView::Receipt(response)),
            Err(e) => Err(e),
        },
        ResponseFamily::ExplorerStyle => match decoded_explorer_response(document) {
            Ok(response) => Ok(ParsedResponseView::Explorer(response)),
            Err(e) => Err(e),
        },
    }
}

/// The response that a text holds under the schema of `family`.
pub open spec fn parsed_response(raw: Seq<char>, family: ResponseFamily) -> Result<
    ParsedResponseView,
    ParseError,
> {
    match document_of(raw) {
        Some(document) => decoded_response(document, family),
        None => Err(ParseError::Malformed),
    }
}

/// The report of a response.
pub open spec fn report(parsed: ParsedResponseView, raw: Seq<char>) -> Seq<Seq<char>> {
    match parsed {
        ParsedResponseView::Receipt(response) => receipt_report(response, raw),
        ParsedResponseView::Explorer(response) => explorer_report(response, raw),
    }
}

/// Decodes a document under the schema of `family`.
pub fn decode_response(document: &Json, family: ResponseFamily) -> (r: Result<
    ParsedResponse,
    ParseError,
>)
    ensures
        match r {
            Ok(parsed) => decoded_response(document@, family) == Ok::<_, ParseError>(parsed@),
            Err(e) => decoded_response(document@, family) == Err::<ParsedResponseView, ParseError>(
                e,
            ),
        },
{
    match family {
        ResponseFamily::ReceiptStyle => Ok(
            ParsedResponse::Receipt(ReceiptResponse::from_json(document)?),
        ),
        ResponseFamily::ExplorerStyle => Ok(
            ParsedResponse::Explorer(ExplorerResponse::from_json(document)?),
        ),
    }
}

/// Parses a response body under the schema of `family`. Members that the
/// schema does not name are ignored. The text is only read.
pub fn parse(raw_text: &str, family: ResponseFamily) -> (r: Result<ParsedResponse, ParseError>)
    ensures
        match r {
            Ok(parsed) => parsed_response(raw_text@, family) == Ok::<_, ParseError>(parsed@),
            Err(e) => parsed_response(raw_text@, family) == Err::<ParsedResponseView, ParseError>(
                e,
            ),
        },
{
    let document = parse_document(raw_text)?;
    decode_response(&document, family)
}

/// Renders a response: its sections in their fixed order, then the raw
/// response text, unchanged, as the last line.
pub fn render(parsed: &ParsedResponse, raw_text: &str) -> (lines: Vec<String>)
    ensures
        texts(lines@) == report(parsed@, raw_text@),
{
    match parsed {
        ParsedResponse::Receipt(response) => render_receipt(response, raw_text),
        ParsedResponse::Explorer(response) => render_explorer(response, raw_text),
    }
}

/// Parses a response body and renders it.
pub fn transaction_report(family: ResponseFamily, raw_text: &str) -> (r: Result<
    Vec<String>,
    ParseError,
>)
    ensures
        match r {
            Ok(lines) => parsed_response(raw_text@, family) matches Ok(parsed) && texts(lines@)
                == report(parsed, raw_text@),
            Err(e) => parsed_response(raw_text@, family) == Err::<ParsedResponseView, ParseError>(
                e,
            ),
        },
{
    let parsed = parse(raw_text, family)?;
    Ok(render(&parsed, raw_text))
}

/// The lines that introduce a lookup.
pub open spec fn banner(chain: SupportChain, tx_hash: Seq<char>) -> Seq<Seq<char>> {
    seq![
        "==========================================================================="@,
        "Requested Transaction Information"@,
        ""@,
        "Chain  : "@ + chain_display_name(chain),
        "TxHash : "@ + tx_hash,
        "==========================================================================="@,
    ]
}

/// The lines that introduce a lookup: the chain and the hash asked for.
pub fn request_banner(chain: SupportChain, tx_hash: &str) -> (lines: Vec<String>)
    ensures
        texts(lines@) == banner(chain, tx_hash@),
{
    let mut lines: Vec<String> = Vec::new();
    assert(texts(lines@) =~= Seq::empty());
    push_line(
        &mut lines,
        "===========================================================================".to_owned(),
    );
    push_line(&mut lines, "Requested Transaction Information".to_owned());
    push_line(&mut lines, "".to_owned());
    let mut chain_line = "Chain  : ".to_owned();
    chain_line.append(chain.display_name());
    push_line(&mut lines, chain_line);
    let mut hash_line = "TxHash : ".to_owned();
    hash_line.append(tx_hash);
    push_line(&mut lines, hash_line);
    push_line(
        &mut lines,
        "===========================================================================".to_owned(),
    );
    assert(texts(lines@) =~= banner(chain, tx_hash@));
    lines
}

/// The last line of a report is the raw response text, character for
/// character, whatever the response holds.
pub proof fn lemma_report_ends_with_raw(parsed: ParsedResponseView, raw: Seq<char>)
    ensures
        report(parsed, raw).len() > 0,
        report(parsed, raw).last() == raw,
{
}

/// A response is decoded under the schema of the family asked for and under
/// no other: a receipt-style chain never yields an explorer model, nor an
/// explorer-style chain a receipt.
pub proof fn lemma_one_model_per_family(raw: Seq<char>, family: ResponseFamily)
    ensures
        parsed_response(raw, family) matches Ok(parsed) ==> (parsed is Receipt <==> family
            == ResponseFamily::ReceiptStyle),
        parsed_response(raw, family) matches Ok(parsed) ==> (parsed is Explorer <==> family
            == ResponseFamily::ExplorerStyle),
{
}

impl ParseError {
    /// What went wrong, in words.
    pub fn describe(&self) -> (r: &'static str)
        ensures
            r@ == match self {
                ParseError::Malformed => "response is not a JSON document"@,
                ParseError::MissingField => "response lacks a required field"@,
                ParseError::TypeMismatch => "response holds a value of the wrong type"@,
            },
    {
        match self {
            ParseError::Malformed => "response is not a JSON document",
            ParseError::MissingField => "response lacks a required field",
            ParseError::TypeMismatch => "response holds a value of the wrong type",
        }
    }
}

impl ConfigError {
    /// What went wrong, in words.
    pub fn describe(&self) -> (r: &'static str)
        ensures
            r@ == match self {
                ConfigError::HomeUnresolved => "home directory is not set"@,
                ConfigError::MissingCredential => "no API key for this chain"@,
            },
    {
        match self {
            ConfigError::HomeUnresolved => "home directory is not set",
            ConfigError::MissingCredential => "no API key for this chain",
        }
    }
}

impl UnsupportedChain {
    /// What went wrong, in words.
    pub fn describe(&self) -> (r: &'static str)
        ensures
            r@ == "chain is not supported"@,
    {
        "chain is not supported"
    }
}

/// A fatal error as it is reported.
pub fn error_line(message: &str) -> (r: String)
    ensures
        r@ == "Error: "@ + message@,
{
    let mut r = "Error: ".to_owned();
    r.append(message);
    r
}

} // verus!
