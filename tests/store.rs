use tl_scraper::store::{decode_jsonl, encode_jsonl, StoreError};

#[test]
fn jsonl_round_trip() {
    let payload: Vec<Vec<u8>> = vec![b"{\"a\":1}".to_vec(), b"[]".to_vec(), b"\"x\"".to_vec()];
    let bytes = encode_jsonl(&payload).expect("framed");
    assert_eq!(bytes, b"{\"a\":1}\n[]\n\"x\"\n".to_vec());
    assert_eq!(decode_jsonl(&bytes), payload);
}

#[test]
fn jsonl_of_nothing_is_empty() {
    let bytes = encode_jsonl(&Vec::new()).expect("framed");
    assert!(bytes.is_empty());
    assert!(decode_jsonl(&bytes).is_empty());
}

#[test]
fn jsonl_refuses_an_embedded_newline() {
    let payload: Vec<Vec<u8>> = vec![b"1".to_vec(), b"{\n}".to_vec(), b"\n".to_vec()];
    assert_eq!(encode_jsonl(&payload), Err(StoreError::EmbeddedNewline { record: 1 }));
}

#[test]
fn jsonl_last_line_without_newline_is_read() {
    assert_eq!(decode_jsonl(&b"1\n2".to_vec()), vec![b"1".to_vec(), b"2".to_vec()]);
    assert_eq!(decode_jsonl(&b"\n".to_vec()), vec![Vec::<u8>::new()]);
}
