use kawakaze_backend::server::{closes_after, invalid_request, line_of, take_line, JsonCodec};

#[test]
fn test_json_codec_encode() {
    let codec = JsonCodec;
    let payload = br#"{"test":"data"}"#.to_vec();
    let dst = codec.encode(&payload);

    // Should have 4-byte length prefix + JSON payload
    assert!(dst.len() > 4);

    // Verify length prefix
    let len_bytes = [dst[0], dst[1], dst[2], dst[3]];
    let len = u32::from_be_bytes(len_bytes) as usize;
    assert_eq!(len, dst.len() - 4);
}

#[test]
fn test_json_codec_decode() {
    let codec = JsonCodec;
    let payload = br#"{"test":"data"}"#.to_vec();
    let mut dst = codec.encode(&payload);

    let (decoded, used) = codec.decode(&dst).unwrap();
    assert_eq!(decoded, payload);
    dst.drain(..used);

    // Buffer should be empty after decoding
    assert!(dst.is_empty());
}

#[test]
fn test_json_codec_partial_message() {
    let codec = JsonCodec;
    let payload = br#"{"test":"data"}"#.to_vec();
    let dst = codec.encode(&payload);

    // Take only part of the message
    let partial_len = dst.len() / 2;
    let mut partial = dst[..partial_len].to_vec();

    // Should return None for partial message
    assert!(codec.decode(&partial).is_none());

    // Decode with the rest of the message
    partial.extend_from_slice(&dst[partial_len..]);
    let (decoded, _) = codec.decode(&partial).unwrap();
    assert_eq!(decoded, payload);
}

#[test]
fn test_json_codec_empty_buffer() {
    let codec = JsonCodec;
    let dst: Vec<u8> = Vec::new();

    // Should return None for empty buffer
    assert!(codec.decode(&dst).is_none());
}

#[test]
fn test_json_codec_multiple_messages() {
    let codec = JsonCodec;
    let mut dst: Vec<u8> = Vec::new();

    let msg1 = br#"{"msg":1}"#.to_vec();
    let msg2 = br#"{"msg":2}"#.to_vec();
    let msg3 = br#"{"msg":3}"#.to_vec();

    dst.extend(codec.encode(&msg1));
    dst.extend(codec.encode(&msg2));
    dst.extend(codec.encode(&msg3));

    for expected in [&msg1, &msg2, &msg3] {
        let (decoded, used) = codec.decode(&dst).unwrap();
        assert_eq!(&decoded, expected);
        dst.drain(..used);
    }

    // Buffer should be empty
    assert!(codec.decode(&dst).is_none());
}

#[test]
fn frame_lengths() {
    let codec = JsonCodec;
    assert_eq!(codec.encode(&vec![]), vec![0, 0, 0, 0]);
    assert_eq!(codec.decode(&vec![0, 0, 0, 0]), Some((vec![], 4)));
    assert_eq!(codec.decode(&vec![0, 0, 0]), None);
    assert_eq!(codec.decode(&vec![0, 0, 1, 0, 7]), None);
    let big = vec![9u8; 70000];
    let frame = codec.encode(&big);
    assert_eq!(&frame[..4], &[0, 1, 17, 112]);
    assert_eq!(codec.decode(&frame), Some((big, 70004)));
    assert_eq!(codec.decode(&vec![0, 0, 0, 2, 5, 6, 7]), Some((vec![5, 6], 6)));
}

#[test]
fn lines() {
    assert_eq!(take_line(&b"".to_vec()), None);
    assert_eq!(take_line(&b"{\"a\":1}".to_vec()), None);
    assert_eq!(take_line(&b"{\"a\":1}\nrest".to_vec()), Some((b"{\"a\":1}".to_vec(), 8)));
    assert_eq!(take_line(&b"\n\n".to_vec()), Some((vec![], 1)));
    assert_eq!(line_of(&b"abc".to_vec()), b"abc\n".to_vec());
    let mut buffer = line_of(&b"one".to_vec());
    buffer.extend(line_of(&b"two".to_vec()));
    let (first, used) = take_line(&buffer).unwrap();
    assert_eq!(first, b"one".to_vec());
    buffer.drain(..used);
    assert_eq!(take_line(&buffer), Some((b"two".to_vec(), 4)));
}

#[test]
fn one_request_per_connection() {
    assert!(!closes_after(0));
    assert!(closes_after(1));
    let r = invalid_request("expected value at line 1");
    assert_eq!(r.status, 400);
    let e = r.error.unwrap();
    assert_eq!(e.code, "INVALID_REQUEST");
    assert_eq!(e.message, "Invalid request format: expected value at line 1");
}

#[test]
fn response_that_cannot_be_written() {
    let r = kawakaze_backend::server::serialization_error("key must be a string");
    assert_eq!(r.status, 500);
    assert!(r.data.is_none());
    let e = r.error.unwrap();
    assert_eq!(e.code, "SERIALIZATION_ERROR");
    assert_eq!(e.message, "Failed to serialize response: key must be a string");
}
