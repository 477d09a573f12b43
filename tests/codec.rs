use quic_crdt::codec::{Codec, Error, Scan};

const ENTRY: &[u8] = br#"{"value":5,"predecessors":[],"author":"","nonce":"","signature":""}"#;

fn framed(item: &[u8]) -> Vec<u8> {
    let mut out = item.to_vec();
    out.push(b'\n');
    out
}

#[test]
fn encode_appends_value_and_separator() {
    let mut codec: Codec<()> = Codec::new();
    let mut dst = b"prefix".to_vec();
    assert_eq!(codec.encode(ENTRY, &mut dst), Ok(()));
    let mut expected = b"prefix".to_vec();
    expected.extend_from_slice(&framed(ENTRY));
    assert_eq!(dst, expected);
}

#[test]
fn round_trip_consumes_exactly_the_value() {
    let mut codec: Codec<()> = Codec::new();
    let mut buf = Vec::new();
    codec.encode(ENTRY, &mut buf).unwrap();
    let value = codec.decode(&mut buf).unwrap().unwrap();
    assert_eq!(value, ENTRY.to_vec());
    assert_eq!(buf, b"\n".to_vec());
    // Only the separator is left, which is no value yet.
    assert_eq!(codec.decode(&mut buf), Ok(None));
    assert_eq!(buf, b"\n".to_vec());
}

#[test]
fn round_trip_of_scalars_and_arrays() {
    let mut codec: Codec<()> = Codec::new();
    for item in [&b"12"[..], b"-3", b"true", b"null", b"\"s\"", b"[1,[2,{}]]"] {
        let mut buf = Vec::new();
        codec.encode(item, &mut buf).unwrap();
        assert_eq!(codec.decode(&mut buf), Ok(Some(item.to_vec())));
        assert_eq!(buf, b"\n".to_vec());
    }
}

#[test]
fn split_at_every_boundary_needs_more_then_completes() {
    let mut codec: Codec<()> = Codec::new();
    let whole = framed(ENTRY);
    for k in 0..ENTRY.len() {
        let mut buf = whole[..k].to_vec();
        assert_eq!(codec.decode(&mut buf), Ok(None), "prefix of {k} bytes");
        assert_eq!(buf, whole[..k].to_vec());
        buf.extend_from_slice(&whole[k..]);
        assert_eq!(codec.decode(&mut buf), Ok(Some(ENTRY.to_vec())));
        assert_eq!(buf, b"\n".to_vec());
    }
    let mut buf = whole[..ENTRY.len()].to_vec();
    assert_eq!(codec.decode(&mut buf), Ok(Some(ENTRY.to_vec())));
    assert!(buf.is_empty());
}

#[test]
fn unmatched_closing_brace_is_fatal() {
    let mut codec: Codec<()> = Codec::new();
    let mut buf = b"}".to_vec();
    assert_eq!(codec.decode(&mut buf), Err(Error::Json));
    assert_eq!(buf, b"}".to_vec());
}

#[test]
fn malformed_object_is_fatal_not_incomplete() {
    let mut codec: Codec<()> = Codec::new();
    let mut buf = br#"{"a" 1"#.to_vec();
    assert_eq!(codec.decode(&mut buf), Err(Error::Json));
    let mut buf = b"[1,]".to_vec();
    assert_eq!(codec.decode(&mut buf), Err(Error::Json));
}

#[test]
fn empty_and_blank_buffers_need_more_data() {
    let mut codec: Codec<()> = Codec::new();
    let mut buf = Vec::new();
    assert_eq!(codec.decode(&mut buf), Ok(None));
    let mut buf = b" \n\t".to_vec();
    assert_eq!(codec.decode(&mut buf), Ok(None));
    assert_eq!(buf, b" \n\t".to_vec());
}

#[test]
fn back_to_back_values_without_separator() {
    let mut codec: Codec<()> = Codec::new();
    let mut buf = br#"{"a":1}{"b":2}"#.to_vec();
    assert_eq!(codec.decode(&mut buf), Ok(Some(br#"{"a":1}"#.to_vec())));
    assert_eq!(codec.decode(&mut buf), Ok(Some(br#"{"b":2}"#.to_vec())));
    assert!(buf.is_empty());
}

#[test]
fn decode_takes_only_the_first_value() {
    let mut codec: Codec<()> = Codec::new();
    let mut buf = b"{\"a\":1}\n{\"b\"".to_vec();
    assert_eq!(codec.decode(&mut buf), Ok(Some(b"{\"a\":1}".to_vec())));
    assert_eq!(buf, b"\n{\"b\"".to_vec());
    assert_eq!(codec.decode(&mut buf), Ok(None));
    assert_eq!(buf, b"\n{\"b\"".to_vec());
}

#[test]
fn encode_accepts_leading_whitespace() {
    let mut codec: Codec<()> = Codec::new();
    let mut dst = Vec::new();
    assert_eq!(codec.encode(b" {}", &mut dst), Ok(()));
    assert_eq!(dst, b" {}\n".to_vec());
}

#[test]
fn encode_refuses_what_is_not_one_value() {
    let mut codec: Codec<()> = Codec::new();
    for item in [&b""[..], b"{\"a\":", b"1 2", b"{} ", b"}", b" "] {
        let mut dst = b"kept".to_vec();
        assert_eq!(codec.encode(item, &mut dst), Err(Error::NotAValue));
        assert_eq!(dst, b"kept".to_vec());
    }
}

#[test]
fn decode_scanned_takes_exactly_the_scanned_bytes() {
    let mut codec: Codec<()> = Codec::new();
    let mut buf = b"abcdef".to_vec();
    assert_eq!(codec.decode_scanned(Scan::Complete(3), &mut buf), Ok(Some(b"abc".to_vec())));
    assert_eq!(buf, b"def".to_vec());
    assert_eq!(codec.decode_scanned(Scan::Complete(3), &mut buf), Ok(Some(b"def".to_vec())));
    assert!(buf.is_empty());
}

#[test]
fn decode_scanned_leaves_buffer_unless_complete() {
    let mut codec: Codec<()> = Codec::new();
    let mut buf = b"xyz".to_vec();
    assert_eq!(codec.decode_scanned(Scan::Incomplete, &mut buf), Ok(None));
    assert_eq!(buf, b"xyz".to_vec());
    assert_eq!(codec.decode_scanned(Scan::Malformed, &mut buf), Err(Error::Json));
    assert_eq!(buf, b"xyz".to_vec());
}

#[test]
fn encode_scanned_needs_a_value_spanning_the_item() {
    let mut codec: Codec<()> = Codec::new();
    let mut dst = Vec::new();
    assert_eq!(codec.encode_scanned(Scan::Complete(2), b"ab", &mut dst), Ok(()));
    assert_eq!(dst, b"ab\n".to_vec());
    assert_eq!(codec.encode_scanned(Scan::Complete(1), b"ab", &mut dst), Err(Error::NotAValue));
    assert_eq!(codec.encode_scanned(Scan::Incomplete, b"ab", &mut dst), Err(Error::NotAValue));
    assert_eq!(codec.encode_scanned(Scan::Malformed, b"ab", &mut dst), Err(Error::NotAValue));
    assert_eq!(dst, b"ab\n".to_vec());
}

#[test]
fn number_at_end_of_buffer_needs_more_data() {
    let mut codec: Codec<()> = Codec::new();
    let mut buf = b"12".to_vec();
    assert_eq!(codec.decode(&mut buf), Ok(None));
    assert_eq!(buf, b"12".to_vec());
    buf.extend_from_slice(b"3\n");
    assert_eq!(codec.decode(&mut buf), Ok(Some(b"123".to_vec())));
    assert_eq!(buf, b"\n".to_vec());
}

#[test]
fn every_prefix_of_an_encoded_number_needs_more_data() {
    let mut codec: Codec<()> = Codec::new();
    let mut whole = Vec::new();
    codec.encode(b"1234567", &mut whole).unwrap();
    for k in 0..whole.len() - 1 {
        let mut buf = whole[..k].to_vec();
        assert_eq!(codec.decode(&mut buf), Ok(None), "prefix of {k} bytes");
        assert_eq!(buf, whole[..k].to_vec());
    }
}

#[test]
fn decode_scanned_holds_back_a_trailing_number() {
    let mut codec: Codec<()> = Codec::new();
    let mut buf = b"[1]7".to_vec();
    assert_eq!(codec.decode_scanned(Scan::Complete(4), &mut buf), Ok(None));
    assert_eq!(buf, b"[1]7".to_vec());
    assert_eq!(codec.decode_scanned(Scan::Complete(3), &mut buf), Ok(Some(b"[1]".to_vec())));
    assert_eq!(buf, b"7".to_vec());
}
