use counter_program::payload::{decode_counter, encode_counter, COUNTER_LEN};

#[test]
fn decodes_eight_byte_payload() {
    assert_eq!(decode_counter(&[5, 0, 0, 0, 0, 0, 0, 0]), 5);
}

#[test]
fn decodes_empty_payload_as_zero() {
    assert_eq!(decode_counter(&[]), 0);
}

#[test]
fn ignores_bytes_after_the_eighth() {
    assert_eq!(decode_counter(&[5, 0, 0, 0, 0, 0, 0, 0, 99]), 5);
}

#[test]
fn decodes_every_short_payload_as_zero() {
    let bytes = [0xffu8; 7];
    for len in 0..COUNTER_LEN {
        assert_eq!(decode_counter(&bytes[..len]), 0);
    }
}

#[test]
fn reads_least_significant_byte_first() {
    assert_eq!(decode_counter(&[1, 2, 3, 4, 5, 6, 7, 8]), 0x0807_0605_0403_0201);
    assert_eq!(decode_counter(&[0, 1, 0, 0, 0, 0, 0, 0]), 256);
    assert_eq!(decode_counter(&[0, 0, 0, 0, 0, 0, 0, 1]), 1u64 << 56);
}

#[test]
fn decodes_largest_counter() {
    assert_eq!(decode_counter(&[0xff; 8]), u64::MAX);
    assert_eq!(decode_counter(&[0xff; 32]), u64::MAX);
}

#[test]
fn agrees_with_the_standard_library_reading() {
    let payloads: [[u8; 8]; 4] = [
        [0, 0, 0, 0, 0, 0, 0, 0],
        [0x10, 0x32, 0x54, 0x76, 0x98, 0xba, 0xdc, 0xfe],
        [0xff, 0, 0xff, 0, 0xff, 0, 0xff, 0],
        [99, 0, 0, 0, 0, 0, 0, 0x80],
    ];
    for payload in payloads {
        assert_eq!(decode_counter(&payload), u64::from_le_bytes(payload));
    }
}

#[test]
fn trailing_bytes_never_change_the_counter() {
    let head = [0x10u8, 0x32, 0x54, 0x76, 0x98, 0xba, 0xdc, 0xfe];
    let expected = decode_counter(&head);
    for extra in 0..5usize {
        let mut payload = head.to_vec();
        payload.extend(std::iter::repeat(0xabu8).take(extra));
        assert_eq!(decode_counter(&payload), expected);
    }
}

#[test]
fn encodes_least_significant_byte_first() {
    assert_eq!(encode_counter(0x0102_0304_0506_0708), vec![8, 7, 6, 5, 4, 3, 2, 1]);
    assert_eq!(encode_counter(5), vec![5, 0, 0, 0, 0, 0, 0, 0]);
    assert_eq!(encode_counter(0), vec![0; 8]);
    assert_eq!(encode_counter(u64::MAX), vec![0xff; 8]);
}

#[test]
fn encoding_agrees_with_the_standard_library_writing() {
    for value in [0u64, 1, 99, 255, 256, 65_535, 65_536, 1 << 40, u64::MAX - 1] {
        assert_eq!(encode_counter(value), value.to_le_bytes().to_vec());
    }
}

#[test]
fn decoding_what_was_encoded_gives_the_counter_back() {
    for value in [0u64, 1, 99, 255, 256, 0xdead_beef, 1 << 63, u64::MAX] {
        let payload = encode_counter(value);
        assert_eq!(payload.len(), COUNTER_LEN);
        assert_eq!(decode_counter(&payload), value);
    }
}
