//! The outbound call that pins a file: where it goes, what it carries, and
//! how much of the answer is read.

use vstd::prelude::*;
use vstd::string::StringExecFns;
use crate::multipart::{build_multipart_body, multipart_body, BOUNDARY};
use crate::records::PinataUploadRequest;

verus! {

/// The pinning endpoint.
pub const PIN_URL: &'static str = "https://api.pinata.cloud/pinning/pinFileToIPFS";

/// No more than this many bytes of the answer are read: the identifier and
/// the size stand at its start.
pub const MAX_RESPONSE_BYTES: u64 = 2048;

/// The cycles attached to the call.
pub const CALL_CYCLES: u128 = 2_000_000_000;

/// The method of an outbound call.
#[derive(Debug, Clone, Copy, PartialEq, Eq, Structural)]
pub enum HttpMethod {
    GET,
    POST,
    HEAD,
}

/// One header line of a call or of an answer.
pub struct HttpHeader {
    pub name: String,
    pub value: String,
}

/// What an [`HttpHeader`] holds, as plain values.
pub struct HeaderView {
    pub name: Seq<char>,
    pub value: Seq<char>,
}

impl View for HttpHeader {
    type V = HeaderView;

    open spec fn view(&self) -> HeaderView {
        HeaderView { name: self.name@, value: self.value@ }
    }
}

impl HttpHeader {
    /// The header `name: value`.
    pub fn new(name: String, value: String) -> (header: Self)
        ensures
            header@ == (HeaderView { name: name@, value: value@ }),
    {
        HttpHeader { name, value }
    }
}

/// The views of a sequence of headers, in order.
pub open spec fn header_views(headers: Seq<HttpHeader>) -> Seq<HeaderView> {
    headers.map_values(|h: HttpHeader| h@)
}

/// Everything the transport needs to make one call. `transform` names the
/// function that the transport applies to the answer, if any.
pub struct OutboundRequest {
    pub url: String,
    pub max_response_bytes: Option<u64>,
    pub method: HttpMethod,
    pub headers: Vec<HttpHeader>,
    pub body: Option<Vec<u8>>,
    pub transform: Option<String>,
    pub cycles: u128,
}

/// What an [`OutboundRequest`] holds, as plain values.
pub struct RequestView {
    pub url: Seq<char>,
    pub max_response_bytes: Option<u64>,
    pub method: HttpMethod,
    pub headers: Seq<HeaderView>,
    pub body: Option<Seq<u8>>,
    pub transform: Option<Seq<char>>,
    pub cycles: u128,
}

impl View for OutboundRequest {
    type V = RequestView;

    open spec fn view(&self) -> RequestView {
        RequestView {
            url: self.url@,
            max_response_bytes: self.max_response_bytes,
            method: self.method,
            headers: header_views(self.headers@),
            body: match self.body {
                Some(bytes) => Some(bytes@),
                None => None,
            },
            transform: match self.transform {
                Some(name) => Some(name@),
                None => None,
            },
            cycles: self.cycles,
        }
    }
}

/// The three headers of a pinning call: the content type with the boundary,
/// then the two credentials.
pub open spec fn upload_headers(api_key: Seq<char>, secret_key: Seq<char>) -> Seq<HeaderView> {
    seq![
        HeaderView { name: "Content-Type"@, value: "multipart/form-data; boundary="@ + BOUNDARY@ },
        HeaderView { name: "pinata_api_key"@, value: api_key },
        HeaderView { name: "pinata_secret_api_key"@, value: secret_key },
    ]
}

/// The call that pins the file of a request made at `timestamp`.
pub open spec fn upload_call(
    file_name: Seq<char>,
    content_type: Seq<char>,
    data: Seq<u8>,
    api_key: Seq<char>,
    secret_key: Seq<char>,
    timestamp: u64,
) -> RequestView {
    RequestView {
        url: PIN_URL@,
        max_response_bytes: Some(MAX_RESPONSE_BYTES),
        method: HttpMethod::POST,
        headers: upload_headers(api_key, secret_key),
        body: Some(multipart_body(file_name, content_type, data, timestamp)),
        transform: None,
        cycles: CALL_CYCLES,
    }
}

/// Builds the headers of a pinning call from the caller's credentials.
pub fn build_upload_headers(api_key: String, secret_key: String) -> (headers: Vec<HttpHeader>)
    ensures
        header_views(headers@) == upload_headers(api_key@, secret_key@),
{
    let content_type = "multipart/form-data; boundary=".to_owned().concat(BOUNDARY);
    let mut headers: Vec<HttpHeader> = Vec::new();
    headers.push(HttpHeader::new("Content-Type".to_owned(), content_type));
    headers.push(HttpHeader::new("pinata_api_key".to_owned(), api_key));
    headers.push(HttpHeader::new("pinata_secret_api_key".to_owned(), secret_key));
    headers
}

/// Builds the one call that pins the file of `request`: a POST of the framed
/// file to the pinning endpoint, with the caller's credentials as headers and
/// a ceiling on the answer. `timestamp` is the time of the upload.
pub fn build_upload_request(request: PinataUploadRequest, timestamp: u64) -> (call: OutboundRequest)
    ensures
        call@ == upload_call(
            request.file_name@,
            request.content_type@,
            request.file_data@,
            request.api_key@,
            request.secret_key@,
            timestamp,
        ),
{
    let body = build_multipart_body(
        request.file_name.as_str(),
        request.content_type.as_str(),
        request.file_data.as_slice(),
        timestamp,
    );
    let headers = build_upload_headers(request.api_key, request.secret_key);
    OutboundRequest {
        url: PIN_URL.to_owned(),
        max_response_bytes: Some(MAX_RESPONSE_BYTES),
        method: HttpMethod::POST,
        headers,
        body: Some(body),
        transform: None,
        cycles: CALL_CYCLES,
    }
}

} // verus!
