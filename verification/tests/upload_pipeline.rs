use music_collab_backend::multipart::{build_multipart_body, BOUNDARY};
use music_collab_backend::outcall::{build_upload_headers, build_upload_request, HttpMethod};
use music_collab_backend::records::{PinataUploadRequest, PinataUploadResponse};
use music_collab_backend::response::{
    describe_rejection, parse_pin_response, parse_pin_size, reduce_call_result, reduce_rejection,
    reduce_reply, HttpReply, Rejection, RejectionCode,
};

fn reply(status: u64, body: &str) -> HttpReply {
    HttpReply { status, body: body.as_bytes().to_vec() }
}

fn assert_parse_failure(outcome: &PinataUploadResponse) {
    assert!(!outcome.success);
    assert_eq!(outcome.ipfs_hash, "");
    assert_eq!(outcome.pin_size, 0);
    assert_eq!(outcome.error, Some("Failed to parse Pinata response".to_string()));
}

fn sample_request() -> PinataUploadRequest {
    PinataUploadRequest {
        file_data: vec![0, 1, 2, 255, b'\r', b'\n'],
        file_name: "take one.mp3".to_string(),
        content_type: "audio/mpeg".to_string(),
        api_key: "key-123".to_string(),
        secret_key: "secret-456".to_string(),
    }
}

fn expected_body(name: &str, content_type: &str, data: &[u8], timestamp: u64) -> Vec<u8> {
    let boundary = "----WebKitFormBoundary7MA4YWxkTrZu0gW";
    let mut body: Vec<u8> = Vec::new();
    body.extend_from_slice(format!("--{}\r\n", boundary).as_bytes());
    body.extend_from_slice(b"Content-Disposition: form-data; name=\"file\"; filename=\"");
    body.extend_from_slice(name.as_bytes());
    body.extend_from_slice(b"\"\r\n");
    body.extend_from_slice(format!("Content-Type: {}\r\n\r\n", content_type).as_bytes());
    body.extend_from_slice(data);
    body.extend_from_slice(b"\r\n");
    let metadata = format!(
        "{{\"name\":\"{}\",\"keyvalues\":{{\"type\":\"audio\",\"uploadedVia\":\"IC-Backend\",\"timestamp\":\"{}\"}}}}",
        name, timestamp
    );
    body.extend_from_slice(format!("--{}\r\n", boundary).as_bytes());
    body.extend_from_slice(b"Content-Disposition: form-data; name=\"pinataMetadata\"\r\n\r\n");
    body.extend_from_slice(metadata.as_bytes());
    body.extend_from_slice(b"\r\n");
    body.extend_from_slice(format!("--{}--\r\n", boundary).as_bytes());
    body
}

#[test]
fn successful_pin_yields_identifier_and_size() {
    let body = "{\"IpfsHash\":\"Qm123abc\",\"PinSize\":456,\"Timestamp\":\"2024-01-01T00:00:00Z\"}";
    let outcome = reduce_reply(reply(200, body));
    assert!(outcome.success);
    assert_eq!(outcome.ipfs_hash, "Qm123abc");
    assert_eq!(outcome.pin_size, 456);
    assert_eq!(outcome.error, None);
}

#[test]
fn status_500_is_a_failure_with_a_reason() {
    let outcome = reduce_reply(reply(500, "{\"IpfsHash\":\"Qm123abc\",\"PinSize\":456,}"));
    assert!(!outcome.success);
    assert_eq!(outcome.ipfs_hash, "");
    assert_eq!(outcome.pin_size, 0);
    assert_eq!(outcome.error, Some("Pinata API error: 500".to_string()));
}

#[test]
fn status_is_written_in_groups_of_three_digits() {
    let outcome = reduce_reply(reply(1234567, ""));
    assert_eq!(outcome.error, Some("Pinata API error: 1_234_567".to_string()));
    let outcome = reduce_reply(reply(1000, ""));
    assert_eq!(outcome.error, Some("Pinata API error: 1_000".to_string()));
    let outcome = reduce_reply(reply(0, ""));
    assert_eq!(outcome.error, Some("Pinata API error: 0".to_string()));
    let outcome = reduce_reply(reply(u64::MAX, ""));
    assert_eq!(
        outcome.error,
        Some("Pinata API error: 18_446_744_073_709_551_615".to_string())
    );
}

#[test]
fn status_201_is_not_success() {
    let outcome = reduce_reply(reply(201, "{\"IpfsHash\":\"Qm123abc\",\"PinSize\":456,}"));
    assert!(!outcome.success);
    assert_eq!(outcome.error, Some("Pinata API error: 201".to_string()));
}

#[test]
fn missing_identifier_is_a_parse_failure_whatever_else_is_there() {
    assert_parse_failure(&reduce_reply(reply(200, "{\"PinSize\":456,\"Timestamp\":\"x\"}")));
    assert_parse_failure(&reduce_reply(reply(200, "")));
    assert_parse_failure(&reduce_reply(reply(200, "{\"ipfshash\":\"Qm\",\"PinSize\":1,}")));
    assert_parse_failure(&reduce_reply(reply(200, "{\"IpfsHash\": \"Qm\",\"PinSize\":1,}")));
}

#[test]
fn identifier_without_closing_quote_is_a_parse_failure() {
    assert_parse_failure(&reduce_reply(reply(200, "{\"IpfsHash\":\"Qm123abc")));
    assert_parse_failure(&reduce_reply(reply(200, "{\"IpfsHash\":\"")));
}

#[test]
fn body_that_is_not_text_is_a_parse_failure() {
    let mut body = b"{\"IpfsHash\":\"Qm123abc\",\"PinSize\":456,".to_vec();
    body.push(0xff);
    let outcome = parse_pin_response(body);
    assert_parse_failure(&outcome);
}

#[test]
fn missing_size_never_demotes_success() {
    let outcome = reduce_reply(reply(200, "{\"IpfsHash\":\"Qm123abc\"}"));
    assert!(outcome.success);
    assert_eq!(outcome.ipfs_hash, "Qm123abc");
    assert_eq!(outcome.pin_size, 0);
    assert_eq!(outcome.error, None);
}

#[test]
fn size_that_cannot_be_read_counts_as_zero() {
    // no comma behind the number
    let outcome = reduce_reply(reply(200, "{\"IpfsHash\":\"Qm1\",\"PinSize\":456}"));
    assert!(outcome.success);
    assert_eq!(outcome.pin_size, 0);
    // a space before the number
    let outcome = reduce_reply(reply(200, "{\"IpfsHash\":\"Qm1\",\"PinSize\": 456,\"a\":1}"));
    assert!(outcome.success);
    assert_eq!(outcome.pin_size, 0);
    // not a number
    let outcome = reduce_reply(reply(200, "{\"IpfsHash\":\"Qm1\",\"PinSize\":\"456\",\"a\":1}"));
    assert!(outcome.success);
    assert_eq!(outcome.pin_size, 0);
    // too large for 64 bits
    let outcome =
        reduce_reply(reply(200, "{\"IpfsHash\":\"Qm1\",\"PinSize\":18446744073709551616,}"));
    assert!(outcome.success);
    assert_eq!(outcome.pin_size, 0);
    // empty
    let outcome = reduce_reply(reply(200, "{\"IpfsHash\":\"Qm1\",\"PinSize\":,}"));
    assert!(outcome.success);
    assert_eq!(outcome.pin_size, 0);
}

#[test]
fn size_is_read_up_to_the_next_comma() {
    assert_eq!(parse_pin_size(b"\"PinSize\":18446744073709551615,"), u64::MAX);
    assert_eq!(parse_pin_size(b"\"PinSize\":+7,"), 7);
    assert_eq!(parse_pin_size(b"\"PinSize\":007,"), 7);
    assert_eq!(parse_pin_size(b"\"PinSize\":0,"), 0);
    assert_eq!(parse_pin_size(b"xx\"PinSize\":12,\"PinSize\":34,"), 12);
    assert_eq!(parse_pin_size(b"\"PinSize\":-7,"), 0);
    assert_eq!(parse_pin_size(b"\"PinSize\":+,"), 0);
    assert_eq!(parse_pin_size(b"\"PinSize\":1 2,"), 0);
    assert_eq!(parse_pin_size(b"\"PinSize\":12"), 0);
    assert_eq!(parse_pin_size(b""), 0);
}

#[test]
fn size_may_stand_before_the_identifier() {
    let outcome = reduce_reply(reply(200, "{\"PinSize\":9,\"IpfsHash\":\"QmZ\"}"));
    assert!(outcome.success);
    assert_eq!(outcome.ipfs_hash, "QmZ");
    assert_eq!(outcome.pin_size, 9);
}

#[test]
fn first_identifier_marker_decides() {
    let outcome = reduce_reply(reply(200, "{\"IpfsHash\":\"first\",\"IpfsHash\":\"second\"}"));
    assert!(outcome.success);
    assert_eq!(outcome.ipfs_hash, "first");
}

#[test]
fn empty_identifier_is_still_a_success() {
    let outcome = reduce_reply(reply(200, "{\"IpfsHash\":\"\",\"PinSize\":3,}"));
    assert!(outcome.success);
    assert_eq!(outcome.ipfs_hash, "");
    assert_eq!(outcome.pin_size, 3);
    assert_eq!(outcome.error, None);
}

#[test]
fn identifier_may_hold_text_beyond_ascii() {
    let outcome = reduce_reply(reply(200, "{\"é\":1,\"IpfsHash\":\"Qm\u{00e9}\u{4e16}\u{1f3b5}x\",\"PinSize\":5,}"));
    assert!(outcome.success);
    assert_eq!(outcome.ipfs_hash, "Qm\u{00e9}\u{4e16}\u{1f3b5}x");
    assert_eq!(outcome.pin_size, 5);
}

#[test]
fn rejection_is_described_with_code_and_quoted_message() {
    let rejection = Rejection {
        code: RejectionCode::SysTransient,
        message: "timeout \"x\"\n".to_string(),
    };
    let expected = format!(
        "HTTP request failed: {:?}",
        (ic_cdk::api::call::RejectionCode::SysTransient, "timeout \"x\"\n".to_string())
    );
    assert_eq!(expected, "HTTP request failed: (SysTransient, \"timeout \\\"x\\\"\\n\")");
    let outcome = reduce_call_result(Err(rejection));
    assert!(!outcome.success);
    assert_eq!(outcome.ipfs_hash, "");
    assert_eq!(outcome.pin_size, 0);
    assert_eq!(outcome.error, Some(expected));
}

#[test]
fn every_rejection_code_is_named() {
    let named = [
        (RejectionCode::NoError, ic_cdk::api::call::RejectionCode::NoError, "NoError"),
        (RejectionCode::SysFatal, ic_cdk::api::call::RejectionCode::SysFatal, "SysFatal"),
        (
            RejectionCode::SysTransient,
            ic_cdk::api::call::RejectionCode::SysTransient,
            "SysTransient",
        ),
        (
            RejectionCode::DestinationInvalid,
            ic_cdk::api::call::RejectionCode::DestinationInvalid,
            "DestinationInvalid",
        ),
        (
            RejectionCode::CanisterReject,
            ic_cdk::api::call::RejectionCode::CanisterReject,
            "CanisterReject",
        ),
        (
            RejectionCode::CanisterError,
            ic_cdk::api::call::RejectionCode::CanisterError,
            "CanisterError",
        ),
        (RejectionCode::Unknown, ic_cdk::api::call::RejectionCode::Unknown, "Unknown"),
    ];
    for (code, outside, name) in named {
        let outcome = reduce_rejection(Rejection { code, message: "no route".to_string() });
        assert_eq!(
            outcome.error,
            Some(format!("HTTP request failed: {:?}", (outside, "no route".to_string())))
        );
        assert_eq!(
            outcome.error,
            Some(format!("HTTP request failed: ({}, \"no route\")", name))
        );
    }
}

#[test]
fn rejection_text_is_put_together_from_its_parts() {
    assert_eq!(
        describe_rejection(RejectionCode::CanisterError, "\"boom\""),
        "HTTP request failed: (CanisterError, \"boom\")"
    );
    assert_eq!(describe_rejection(RejectionCode::Unknown, ""), "HTTP request failed: (Unknown, )");
}

#[test]
fn answered_call_is_reduced_like_its_reply() {
    let outcome = reduce_call_result(Ok(reply(200, "{\"IpfsHash\":\"QmA\",\"PinSize\":1,}")));
    assert!(outcome.success);
    assert_eq!(outcome.ipfs_hash, "QmA");
    assert_eq!(outcome.pin_size, 1);
    let outcome = reduce_call_result(Ok(reply(404, "not found")));
    assert!(!outcome.success);
    assert_eq!(outcome.error, Some("Pinata API error: 404".to_string()));
}

#[test]
fn outcome_is_never_partly_filled() {
    let bodies = [
        "{\"IpfsHash\":\"Qm123abc\",\"PinSize\":456,}",
        "{\"IpfsHash\":\"Qm123abc\"}",
        "{\"PinSize\":456,}",
        "",
    ];
    for status in [200u64, 204, 500] {
        for body in bodies {
            let outcome = reduce_reply(reply(status, body));
            if outcome.success {
                assert_eq!(outcome.error, None);
            } else {
                assert!(outcome.error.is_some());
                assert_eq!(outcome.ipfs_hash, "");
                assert_eq!(outcome.pin_size, 0);
            }
        }
    }
}

#[test]
fn upload_request_is_a_post_to_the_pinning_endpoint() {
    let call = build_upload_request(sample_request(), 42);
    assert_eq!(call.url, "https://api.pinata.cloud/pinning/pinFileToIPFS");
    assert_eq!(call.method, HttpMethod::POST);
    assert_eq!(call.max_response_bytes, Some(2048));
    assert_eq!(call.cycles, 2_000_000_000);
    assert!(call.transform.is_none());
    assert_eq!(
        call.body,
        Some(expected_body("take one.mp3", "audio/mpeg", &[0, 1, 2, 255, b'\r', b'\n'], 42))
    );
    assert_eq!(call.headers.len(), 3);
}

#[test]
fn upload_request_carries_three_headers_in_order() {
    let headers = build_upload_headers("key-123".to_string(), "secret-456".to_string());
    assert_eq!(headers.len(), 3);
    assert_eq!(headers[0].name, "Content-Type");
    assert_eq!(
        headers[0].value,
        "multipart/form-data; boundary=----WebKitFormBoundary7MA4YWxkTrZu0gW"
    );
    assert_eq!(headers[1].name, "pinata_api_key");
    assert_eq!(headers[1].value, "key-123");
    assert_eq!(headers[2].name, "pinata_secret_api_key");
    assert_eq!(headers[2].value, "secret-456");
}

#[test]
fn multipart_body_matches_byte_for_byte() {
    let body = build_multipart_body("a.mp3", "audio/mpeg", b"RIFF", 1700000000000000000);
    let expected = "------WebKitFormBoundary7MA4YWxkTrZu0gW\r\n\
Content-Disposition: form-data; name=\"file\"; filename=\"a.mp3\"\r\n\
Content-Type: audio/mpeg\r\n\
\r\n\
RIFF\r\n\
------WebKitFormBoundary7MA4YWxkTrZu0gW\r\n\
Content-Disposition: form-data; name=\"pinataMetadata\"\r\n\
\r\n\
{\"name\":\"a.mp3\",\"keyvalues\":{\"type\":\"audio\",\"uploadedVia\":\"IC-Backend\",\"timestamp\":\"1700000000000000000\"}}\r\n\
------WebKitFormBoundary7MA4YWxkTrZu0gW--\r\n";
    assert_eq!(body, expected.as_bytes().to_vec());
}

#[test]
fn multipart_body_of_an_empty_file() {
    let body = build_multipart_body("", "", &[], 0);
    assert_eq!(body, expected_body("", "", &[], 0));
}

#[test]
fn multipart_body_does_not_escape_or_scan() {
    // The file name goes in as it is, and a payload that holds the boundary is not noticed.
    let data = format!("--{}--\r\n", BOUNDARY).into_bytes();
    let body = build_multipart_body("we\"ird\u{00e9}.mp3", "audio/x; q=1", &data, u64::MAX);
    assert_eq!(body, expected_body("we\"ird\u{00e9}.mp3", "audio/x; q=1", &data, u64::MAX));
}
