//! Reducing what came back from a pinning call to an upload outcome.
//!
//! The answer of the pinning service is searched as text for two key markers,
//! in the spelling the service documents; it is not parsed as a structured
//! document. An answer that spells the keys otherwise (a space after a colon,
//! the size as the last field) is read as if the key were absent.

use vstd::prelude::*;
use vstd::string::StringExecFns;
use vstd::utf8::{decode_utf8, is_ascii_chars_encode_utf8, valid_utf8};
use crate::bytes::{find_bytes, find_from};
use crate::decimal::{decimal_bytes, parse_u64, parse_u64_spec};
use crate::multipart::utf8;
use crate::records::{PinataUploadResponse, UploadOutcome};
use crate::text::{lemma_boundary_after_ascii, text_between, text_from_utf8};

verus! {

/// The key of the content identifier, up to the quote that opens its value.
pub const HASH_MARKER: &'static str = "\"IpfsHash\":\"";

/// The key of the size, up to its value.
pub const SIZE_MARKER: &'static str = "\"PinSize\":";

/// The status with which the pinning service reports success.
pub const STATUS_OK: u64 = 200;

/// The description of an answer in which no content identifier was found.
pub const PARSE_FAILURE: &'static str = "Failed to parse Pinata response";

/// Where the content identifier stands in `body`: from right behind the first
/// identifier marker up to the next quote.
pub open spec fn hash_span(body: Seq<u8>) -> Option<(int, int)> {
    match find_from(body, utf8(HASH_MARKER), 0) {
        None => None,
        Some(at) => {
            let start = at + utf8(HASH_MARKER).len();
            match find_from(body, utf8("\""), start) {
                None => None,
                Some(end) => Some((start, end)),
            }
        },
    }
}

/// The size that `body` reports: the number written between the first size
/// marker and the next comma, and zero where the marker, the comma or the
/// number is missing.
pub open spec fn pin_size_of(body: Seq<u8>) -> u64 {
    match find_from(body, utf8(SIZE_MARKER), 0) {
        None => 0,
        Some(at) => {
            let start = at + utf8(SIZE_MARKER).len();
            match find_from(body, utf8(","), start) {
                None => 0,
                Some(end) => match parse_u64_spec(body.subrange(start, end)) {
                    Some(size) => size,
                    None => 0,
                },
            }
        },
    }
}

/// The outcome that the body of a successful answer stands for. It is a
/// success exactly if the body is text and holds a content identifier; the
/// size never decides.
pub open spec fn pin_outcome(body: Seq<u8>) -> UploadOutcome {
    if !valid_utf8(body) {
        UploadOutcome::failed(PARSE_FAILURE@)
    } else {
        match hash_span(body) {
            None => UploadOutcome::failed(PARSE_FAILURE@),
            Some((start, end)) => UploadOutcome::pinned(
                decode_utf8(body.subrange(start, end)),
                pin_size_of(body),
            ),
        }
    }
}

/// The bytes of the two markers that end a search.
proof fn lemma_marker_bytes()
    ensures
        utf8(HASH_MARKER).len() == 12,
        utf8(HASH_MARKER)[11] == 0x22,
        utf8("\"").len() == 1,
        utf8("\"")[0] == 0x22,
{
    reveal_strlit("\"IpfsHash\":\"");
    reveal_strlit("\"");
    is_ascii_chars_encode_utf8(HASH_MARKER@);
    is_ascii_chars_encode_utf8("\""@);
}

/// Reads the size out of the body of an answer.
pub fn parse_pin_size(body: &[u8]) -> (size: u64)
    ensures
        size == pin_size_of(body@),
{
    let marker = SIZE_MARKER.as_bytes();
    match find_bytes(body, marker, 0) {
        None => 0,
        Some(at) => {
            assert(at + marker@.len() <= body.len());
            let start = at + marker.len();
            match find_bytes(body, ",".as_bytes(), start) {
                None => 0,
                Some(end) => match parse_u64(vstd::slice::slice_subrange(body, start, end)) {
                    Some(size) => size,
                    None => 0,
                },
            }
        },
    }
}

/// Reduces the body of a successful answer to an outcome: a success with the
/// content identifier and the size, or the failure to find the identifier.
pub fn parse_pin_response(body: Vec<u8>) -> (response: PinataUploadResponse)
    ensures
        response@ == pin_outcome(body@),
        response@.well_formed(),
{
    let text = match text_from_utf8(body) {
        Some(text) => text,
        None => {
            return PinataUploadResponse::failed(PARSE_FAILURE.to_owned());
        },
    };
    let bytes = text.as_str().as_bytes();
    let marker = HASH_MARKER.as_bytes();
    let at = match find_bytes(bytes, marker, 0) {
        Some(at) => at,
        None => {
            return PinataUploadResponse::failed(PARSE_FAILURE.to_owned());
        },
    };
    assert(at + marker@.len() <= bytes.len());
    let start = at + marker.len();
    let end = match find_bytes(bytes, "\"".as_bytes(), start) {
        Some(end) => end,
        None => {
            return PinataUploadResponse::failed(PARSE_FAILURE.to_owned());
        },
    };
    proof {
        lemma_marker_bytes();
        assert(bytes@[start - 1] == utf8(HASH_MARKER)[11]);
        lemma_boundary_after_ascii(bytes@, start - 1);
        assert(bytes@[end as int] == utf8("\"")[0]);
    }
    let ipfs_hash = text_between(text.as_str(), start, end);
    let pin_size = parse_pin_size(bytes);
    PinataUploadResponse::pinned(ipfs_hash, pin_size)
}

/// The digits `digits` in groups of three counted from the right, with an
/// underscore between the groups.
pub open spec fn grouped(digits: Seq<u8>) -> Seq<u8>
    decreases digits.len(),
{
    if digits.len() <= 3 {
        digits
    } else {
        grouped(digits.subrange(0, digits.len() - 3)) + seq![95u8] + digits.subrange(
            digits.len() - 3,
            digits.len() as int,
        )
    }
}

/// The text whose characters are the ASCII bytes `bytes`.
pub open spec fn ascii_text(bytes: Seq<u8>) -> Seq<char> {
    bytes.map_values(|b: u8| b as char)
}

/// How a status is written in a description: in decimal, grouped by
/// thousands, as in `1_000`.
pub open spec fn status_text(status: u64) -> Seq<char> {
    ascii_text(grouped(decimal_bytes(status as nat)))
}

/// Writes a status as text.
///
/// Trusted: this is the `Display` of `candid::Nat`, on the number converted by
/// its `From<u64>`. The contract states what candid's source shows: the
/// decimal digits of the number, with an underscore between groups of three
/// digits counted from the right.
#[verifier::external_body]
fn write_status(status: u64) -> (text: String)
    ensures
        text@ == status_text(status),
{
    candid::Nat::from(status).to_string()
}

/// Why the transport gave a call up.
#[derive(Debug, Clone, Copy, PartialEq, Eq, Structural)]
pub enum RejectionCode {
    NoError,
    SysFatal,
    SysTransient,
    DestinationInvalid,
    CanisterReject,
    CanisterError,
    Unknown,
}

impl RejectionCode {
    /// The name under which a description mentions the code.
    pub open spec fn name(self) -> Seq<char> {
        match self {
            RejectionCode::NoError => "NoError"@,
            RejectionCode::SysFatal => "SysFatal"@,
            RejectionCode::SysTransient => "SysTransient"@,
            RejectionCode::DestinationInvalid => "DestinationInvalid"@,
            RejectionCode::CanisterReject => "CanisterReject"@,
            RejectionCode::CanisterError => "CanisterError"@,
            RejectionCode::Unknown => "Unknown"@,
        }
    }
}

/// Writes the name of a rejection code.
///
/// Trusted: this is the derived `Debug` of `ic_cdk::api::call::RejectionCode`,
/// on the variant of the same name. The contract states that it writes the
/// name of the variant.
#[verifier::external_body]
fn write_code(code: RejectionCode) -> (text: String)
    ensures
        text@ == code.name(),
{
    let outside = match code {
        RejectionCode::NoError => ic_cdk::api::call::RejectionCode::NoError,
        RejectionCode::SysFatal => ic_cdk::api::call::RejectionCode::SysFatal,
        RejectionCode::SysTransient => ic_cdk::api::call::RejectionCode::SysTransient,
        RejectionCode::DestinationInvalid => ic_cdk::api::call::RejectionCode::DestinationInvalid,
        RejectionCode::CanisterReject => ic_cdk::api::call::RejectionCode::CanisterReject,
        RejectionCode::CanisterError => ic_cdk::api::call::RejectionCode::CanisterError,
        RejectionCode::Unknown => ic_cdk::api::call::RejectionCode::Unknown,
    };
    format!("{:?}", outside)
}

/// The text `text` as a quoted string literal: between double quotes, with
/// the characters that cannot stand in a literal escaped.
pub uninterp spec fn quoted_text(text: Seq<char>) -> Seq<char>;

/// Writes a text as a quoted string literal.
///
/// Trusted: this is the `Debug` of `str`. Its escaping rules fill pages, so
/// the contract only names the result, which depends on the text alone.
#[verifier::external_body]
fn write_quoted(text: &str) -> (quoted: String)
    ensures
        quoted@ == quoted_text(text@),
{
    format!("{:?}", text)
}

/// What the transport reports of a call that it gave up.
pub struct Rejection {
    pub code: RejectionCode,
    pub message: String,
}

/// What the pinning service answered, as far as the outcome rests on it.
pub struct HttpReply {
    pub status: u64,
    pub body: Vec<u8>,
}

/// The description of a call that the service answered with `status`.
pub open spec fn status_failure_text(status: u64) -> Seq<char> {
    "Pinata API error: "@ + status_text(status)
}

/// The description of a call that the transport gave up with `code`, where
/// `quoted_message` is the transport's message as a quoted string literal.
pub open spec fn rejection_text(code: RejectionCode, quoted_message: Seq<char>) -> Seq<char> {
    "HTTP request failed: ("@ + code.name() + ", "@ + quoted_message + ")"@
}

/// The outcome of a call that the service answered: what the body stands for
/// if the status reports success, else a failure that carries the status.
pub open spec fn reply_outcome(status: u64, body: Seq<u8>) -> UploadOutcome {
    if status == STATUS_OK {
        pin_outcome(body)
    } else {
        UploadOutcome::failed(status_failure_text(status))
    }
}

/// The outcome of a call, answered or given up.
pub open spec fn call_outcome(result: Result<HttpReply, Rejection>) -> UploadOutcome {
    match result {
        Ok(reply) => reply_outcome(reply.status, reply.body@),
        Err(rejection) => UploadOutcome::failed(
            rejection_text(rejection.code, quoted_text(rejection.message@)),
        ),
    }
}

/// Describes a call that the transport gave up. `quoted_message` is the
/// transport's message as a quoted string literal.
pub fn describe_rejection(code: RejectionCode, quoted_message: &str) -> (text: String)
    ensures
        text@ == rejection_text(code, quoted_message@),
{
    let code_name = write_code(code);
    let text = "HTTP request failed: (".to_owned().concat(code_name.as_str()).concat(", ").concat(
        quoted_message,
    ).concat(")");
    text
}

/// Reduces a call that the transport gave up to a failure that describes it.
pub fn reduce_rejection(rejection: Rejection) -> (response: PinataUploadResponse)
    ensures
        response@ == UploadOutcome::failed(
            rejection_text(rejection.code, quoted_text(rejection.message@)),
        ),
        response@.well_formed(),
{
    let quoted = write_quoted(rejection.message.as_str());
    PinataUploadResponse::failed(describe_rejection(rejection.code, quoted.as_str()))
}

/// Reduces an answer of the service to an outcome. Any status but success is
/// a failure that carries the status, whatever the body holds.
pub fn reduce_reply(reply: HttpReply) -> (response: PinataUploadResponse)
    ensures
        response@ == reply_outcome(reply.status, reply.body@),
        response@.well_formed(),
{
    if reply.status == STATUS_OK {
        parse_pin_response(reply.body)
    } else {
        let status = write_status(reply.status);
        PinataUploadResponse::failed("Pinata API error: ".to_owned().concat(status.as_str()))
    }
}

/// Reduces the end of a pinning call, whichever way it ended, to an outcome.
/// Nothing is tried again: the outcome is final.
pub fn reduce_call_result(result: Result<HttpReply, Rejection>) -> (response: PinataUploadResponse)
    ensures
        response@ == call_outcome(result),
        response@.well_formed(),
{
    match result {
        Ok(reply) => reduce_reply(reply),
        Err(rejection) => reduce_rejection(rejection),
    }
}

} // verus!
