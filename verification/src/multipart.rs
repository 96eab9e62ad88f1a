//! The `multipart/form-data` body of a pinning call, byte for byte.
//!
//! The boundary is a fixed token. The payload is not searched for it: a file
//! that holds the boundary line breaks the framing, and that is left so.

use vstd::prelude::*;
use vstd::utf8::encode_utf8;
use crate::decimal::{decimal_bytes, push_decimal};

verus! {

/// The token that separates the parts of the body.
pub const BOUNDARY: &'static str = "----WebKitFormBoundary7MA4YWxkTrZu0gW";

/// The name under which the pinning service expects the descriptive part.
pub const METADATA_FIELD: &'static str = "pinataMetadata";

/// The tag that tells the pinning service where an upload came from.
pub const UPLOADED_VIA: &'static str = "IC-Backend";

/// The bytes of `text` in UTF-8.
pub open spec fn utf8(text: &str) -> Seq<u8> {
    encode_utf8(text@)
}

/// The line that opens a part.
pub open spec fn part_opening() -> Seq<u8> {
    utf8("--") + utf8(BOUNDARY) + utf8("\r\n")
}

/// The line that closes the body.
pub open spec fn body_closing() -> Seq<u8> {
    utf8("--") + utf8(BOUNDARY) + utf8("--\r\n")
}

/// The part that carries the file: its headers, an empty line, the raw bytes
/// and a line break.
pub open spec fn file_part(
    file_name: Seq<char>,
    content_type: Seq<char>,
    data: Seq<u8>,
) -> Seq<u8> {
    part_opening()
        + utf8("Content-Disposition: form-data; name=\"file\"; filename=\"")
        + encode_utf8(file_name)
        + utf8("\"\r\n")
        + utf8("Content-Type: ")
        + encode_utf8(content_type)
        + utf8("\r\n\r\n")
        + data
        + utf8("\r\n")
}

/// The JSON object that describes the file to the pinning service. The file
/// name is written as it is, without escaping.
pub open spec fn metadata_json(file_name: Seq<char>, timestamp: u64) -> Seq<u8> {
    utf8("{\"name\":\"")
        + encode_utf8(file_name)
        + utf8("\",\"keyvalues\":{\"type\":\"audio\",\"uploadedVia\":\"")
        + utf8(UPLOADED_VIA)
        + utf8("\",\"timestamp\":\"")
        + decimal_bytes(timestamp as nat)
        + utf8("\"}}")
}

/// The part that carries the description of the file.
pub open spec fn metadata_part(file_name: Seq<char>, timestamp: u64) -> Seq<u8> {
    part_opening()
        + utf8("Content-Disposition: form-data; name=\"")
        + utf8(METADATA_FIELD)
        + utf8("\"\r\n\r\n")
        + metadata_json(file_name, timestamp)
        + utf8("\r\n")
}

/// The whole body: the file part, the metadata part, the closing line.
pub open spec fn multipart_body(
    file_name: Seq<char>,
    content_type: Seq<char>,
    data: Seq<u8>,
    timestamp: u64,
) -> Seq<u8> {
    file_part(file_name, content_type, data) + metadata_part(file_name, timestamp) + body_closing()
}

/// Appends `piece` to `out`.
pub fn push_bytes(out: &mut Vec<u8>, piece: &[u8])
    ensures
        final(out)@ == old(out)@ + piece@,
{
    out.extend_from_slice(piece);
}

/// Appends the UTF-8 bytes of `text` to `out`.
pub fn push_text(out: &mut Vec<u8>, text: &str)
    ensures
        final(out)@ == old(out)@ + utf8(text),
{
    push_bytes(out, text.as_bytes());
}

/// Appends the line that opens a part.
fn push_part_opening(out: &mut Vec<u8>)
    ensures
        final(out)@ == old(out)@ + part_opening(),
{
    push_text(out, "--");
    push_text(out, BOUNDARY);
    push_text(out, "\r\n");
}

/// Appends the part that carries the file.
fn push_file_part(out: &mut Vec<u8>, file_name: &str, content_type: &str, data: &[u8])
    ensures
        final(out)@ == old(out)@ + file_part(file_name@, content_type@, data@),
{
    push_part_opening(out);
    push_text(out, "Content-Disposition: form-data; name=\"file\"; filename=\"");
    push_text(out, file_name);
    push_text(out, "\"\r\n");
    push_text(out, "Content-Type: ");
    push_text(out, content_type);
    push_text(out, "\r\n\r\n");
    push_bytes(out, data);
    push_text(out, "\r\n");
}

/// Appends the JSON object that describes the file.
fn push_metadata_json(out: &mut Vec<u8>, file_name: &str, timestamp: u64)
    ensures
        final(out)@ == old(out)@ + metadata_json(file_name@, timestamp),
{
    push_text(out, "{\"name\":\"");
    push_text(out, file_name);
    push_text(out, "\",\"keyvalues\":{\"type\":\"audio\",\"uploadedVia\":\"");
    push_text(out, UPLOADED_VIA);
    push_text(out, "\",\"timestamp\":\"");
    push_decimal(out, timestamp);
    push_text(out, "\"}}");
}

/// Appends the part that carries the description of the file.
fn push_metadata_part(out: &mut Vec<u8>, file_name: &str, timestamp: u64)
    ensures
        final(out)@ == old(out)@ + metadata_part(file_name@, timestamp),
{
    push_part_opening(out);
    push_text(out, "Content-Disposition: form-data; name=\"");
    push_text(out, METADATA_FIELD);
    push_text(out, "\"\r\n\r\n");
    push_metadata_json(out, file_name, timestamp);
    push_text(out, "\r\n");
}

/// Frames one file and its description as a `multipart/form-data` body.
/// `timestamp` is the time of the upload, which the description records.
pub fn build_multipart_body(
    file_name: &str,
    content_type: &str,
    data: &[u8],
    timestamp: u64,
) -> (body: Vec<u8>)
    ensures
        body@ == multipart_body(file_name@, content_type@, data@, timestamp),
{
    let mut body: Vec<u8> = Vec::new();
    push_file_part(&mut body, file_name, content_type, data);
    push_metadata_part(&mut body, file_name, timestamp);
    push_text(&mut body, "--");
    push_text(&mut body, BOUNDARY);
    push_text(&mut body, "--\r\n");
    body
}

} // verus!
