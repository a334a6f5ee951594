use td3_spl_token::params::{decode_params, encode_params, InitTokenParams};

fn params(name: &str, symbol: &str, uri: &str, decimals: u8) -> InitTokenParams {
    InitTokenParams {
        name: name.to_string(),
        symbol: symbol.to_string(),
        uri: uri.to_string(),
        decimals,
    }
}

#[test]
fn round_trip_reproduces_fields() {
    let p = params("MyToken", "MTK", "https://example.com/meta.json", 9);
    let bytes = encode_params(&p).unwrap();
    let q = decode_params(&bytes).unwrap();
    assert_eq!(q.name, "MyToken");
    assert_eq!(q.symbol, "MTK");
    assert_eq!(q.uri, "https://example.com/meta.json");
    assert_eq!(q.decimals, 9);
}

#[test]
fn encode_exact_wire_image() {
    let p = params("MyToken", "MTK", "https://example.com/meta.json", 9);
    let bytes = encode_params(&p).unwrap();
    let mut expected: Vec<u8> = Vec::new();
    expected.extend_from_slice(&[7, 0, 0, 0]);
    expected.extend_from_slice(b"MyToken");
    expected.extend_from_slice(&[3, 0, 0, 0]);
    expected.extend_from_slice(b"MTK");
    expected.extend_from_slice(&[29, 0, 0, 0]);
    expected.extend_from_slice(b"https://example.com/meta.json");
    expected.push(9);
    assert_eq!(bytes, expected);
}

#[test]
fn round_trip_empty_fields() {
    let p = params("", "", "", 0);
    let bytes = encode_params(&p).unwrap();
    assert_eq!(bytes, vec![0, 0, 0, 0, 0, 0, 0, 0, 0, 0, 0, 0, 0]);
    let q = decode_params(&bytes).unwrap();
    assert_eq!(q.name, "");
    assert_eq!(q.symbol, "");
    assert_eq!(q.uri, "");
    assert_eq!(q.decimals, 0);
}

#[test]
fn round_trip_multibyte_text() {
    let p = params("Jeton d'\u{e9}t\u{e9}", "\u{20ac}", "https://example.com/\u{1f680}", 255);
    let bytes = encode_params(&p).unwrap();
    let q = decode_params(&bytes).unwrap();
    assert_eq!(q.name, "Jeton d'\u{e9}t\u{e9}");
    assert_eq!(q.symbol, "\u{20ac}");
    assert_eq!(q.uri, "https://example.com/\u{1f680}");
    assert_eq!(q.decimals, 255);
}

#[test]
fn decode_rejects_short_input() {
    assert!(decode_params(&vec![1, 2, 3]).is_none());
    assert!(decode_params(&Vec::new()).is_none());
}

#[test]
fn decode_rejects_truncated_image() {
    let p = params("MyToken", "MTK", "https://example.com/meta.json", 9);
    let mut bytes = encode_params(&p).unwrap();
    bytes.pop();
    assert!(decode_params(&bytes).is_none());
}

#[test]
fn decode_rejects_trailing_byte() {
    let p = params("MyToken", "MTK", "https://example.com/meta.json", 9);
    let mut bytes = encode_params(&p).unwrap();
    bytes.push(0);
    assert!(decode_params(&bytes).is_none());
}

#[test]
fn decode_rejects_oversized_length_prefix() {
    // The first field claims 200 payload bytes; only a handful follow.
    let bytes = vec![200, 0, 0, 0, 1, 2, 3, 4, 5];
    assert!(decode_params(&bytes).is_none());
}

#[test]
fn decode_rejects_invalid_utf8() {
    // First field: one byte, 0xff, which no UTF-8 text contains; the
    // other two fields are empty, then the decimals byte.
    let bytes = vec![1, 0, 0, 0, 0xff, 0, 0, 0, 0, 0, 0, 0, 0, 9];
    assert!(decode_params(&bytes).is_none());
}
