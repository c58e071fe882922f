use vexination::codec::{decode, encode, CodecError};

const ZSTD_MAGIC: [u8; 4] = [0x28, 0xb5, 0x2f, 0xfd];

#[test]
fn round_trip_restores_bytes() {
    let inputs: Vec<Vec<u8>> = vec![
        Vec::new(),
        b"hello".to_vec(),
        vec![0u8; 100_000],
        (0..=255u8).cycle().take(70_000).collect(),
    ];
    for input in inputs {
        let frame = encode(&input).expect("compression succeeds");
        assert_eq!(decode(&frame), Ok(input));
    }
}

#[test]
fn encode_writes_a_zstd_frame() {
    let frame = encode(b"hello").expect("compression succeeds");
    assert_ne!(frame, b"hello".to_vec());
    assert_eq!(&frame[..4], &ZSTD_MAGIC[..]);
}

#[test]
fn encode_leaves_input_untouched() {
    let input = b"some advisory text".to_vec();
    let copy = input.clone();
    let _ = encode(&input);
    assert_eq!(input, copy);
}

#[test]
fn decode_rejects_bytes_that_are_no_frame() {
    assert_eq!(decode(b"hello"), Err(CodecError::Decode));
}

#[test]
fn decode_rejects_a_truncated_frame() {
    let frame = encode(&vec![7u8; 10_000]).expect("compression succeeds");
    assert_eq!(decode(&frame[..frame.len() - 3]), Err(CodecError::Decode));
}
