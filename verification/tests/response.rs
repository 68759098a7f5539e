use audio_downsample::response::{encode_samples, split_sample, ByteOrder};

#[test]
fn empty_buffer_has_empty_response() {
    assert_eq!(encode_samples(&Vec::new(), ByteOrder::LittleEndian), Vec::<u8>::new());
    assert_eq!(encode_samples(&Vec::new(), ByteOrder::BigEndian), Vec::<u8>::new());
}

#[test]
fn little_endian_puts_low_byte_first() {
    let samples: Vec<i16> = vec![0, 1, -1, 256, 0x1234, i16::MIN, i16::MAX];
    let expected: Vec<u8> = vec![
        0x00, 0x00, 0x01, 0x00, 0xFF, 0xFF, 0x00, 0x01, 0x34, 0x12, 0x00, 0x80, 0xFF, 0x7F,
    ];
    assert_eq!(encode_samples(&samples, ByteOrder::LittleEndian), expected);
}

#[test]
fn big_endian_puts_high_byte_first() {
    let samples: Vec<i16> = vec![0, 1, -1, 256, 0x1234, i16::MIN, i16::MAX];
    let expected: Vec<u8> = vec![
        0x00, 0x00, 0x00, 0x01, 0xFF, 0xFF, 0x01, 0x00, 0x12, 0x34, 0x80, 0x00, 0x7F, 0xFF,
    ];
    assert_eq!(encode_samples(&samples, ByteOrder::BigEndian), expected);
}

#[test]
fn split_sample_gives_low_then_high() {
    assert_eq!(split_sample(0), (0x00, 0x00));
    assert_eq!(split_sample(0x1234), (0x34, 0x12));
    assert_eq!(split_sample(-2), (0xFE, 0xFF));
    assert_eq!(split_sample(i16::MIN), (0x00, 0x80));
    assert_eq!(split_sample(i16::MAX), (0xFF, 0x7F));
}

#[test]
fn every_sample_is_encoded_as_the_standard_library_does() {
    let samples: Vec<i16> = (i16::MIN..=i16::MAX).collect();
    let little = encode_samples(&samples, ByteOrder::LittleEndian);
    let big = encode_samples(&samples, ByteOrder::BigEndian);
    let mut expected_little: Vec<u8> = Vec::new();
    let mut expected_big: Vec<u8> = Vec::new();
    for sample in &samples {
        expected_little.extend_from_slice(&sample.to_le_bytes());
        expected_big.extend_from_slice(&sample.to_be_bytes());
    }
    assert_eq!(little, expected_little);
    assert_eq!(big, expected_big);
}

#[test]
fn response_is_twice_as_long_as_the_buffer() {
    for n in [0usize, 1, 2, 3, 17, 1000] {
        let samples: Vec<i16> = vec![-5; n];
        assert_eq!(encode_samples(&samples, ByteOrder::LittleEndian).len(), 2 * n);
        assert_eq!(encode_samples(&samples, ByteOrder::BigEndian).len(), 2 * n);
    }
}

#[test]
fn one_second_at_the_target_rate_is_44100_bytes() {
    let samples: Vec<i16> = vec![7; audio_downsample::pipeline::TARGET_RATE as usize];
    assert_eq!(encode_samples(&samples, ByteOrder::LittleEndian).len(), 44100);
}

#[test]
fn response_of_joined_buffers_is_the_joined_responses() {
    let first: Vec<i16> = vec![1, -2, 300];
    let second: Vec<i16> = vec![-400, 5];
    let mut joined = first.clone();
    joined.extend_from_slice(&second);
    let mut expected = encode_samples(&first, ByteOrder::BigEndian);
    expected.extend_from_slice(&encode_samples(&second, ByteOrder::BigEndian));
    assert_eq!(encode_samples(&joined, ByteOrder::BigEndian), expected);
}

#[test]
fn different_buffers_have_different_responses() {
    let a: Vec<i16> = vec![1, 2, 3];
    let b: Vec<i16> = vec![1, 2, 4];
    let c: Vec<i16> = vec![1, 2];
    let d: Vec<i16> = vec![0x0100];
    let e: Vec<i16> = vec![0x0001];
    assert_ne!(
        encode_samples(&a, ByteOrder::LittleEndian),
        encode_samples(&b, ByteOrder::LittleEndian)
    );
    assert_ne!(
        encode_samples(&a, ByteOrder::LittleEndian),
        encode_samples(&c, ByteOrder::LittleEndian)
    );
    assert_ne!(encode_samples(&d, ByteOrder::BigEndian), encode_samples(&e, ByteOrder::BigEndian));
    assert_eq!(
        encode_samples(&d, ByteOrder::BigEndian),
        encode_samples(&e, ByteOrder::LittleEndian)
    );
}

#[test]
fn encoding_twice_gives_the_same_bytes() {
    let samples: Vec<i16> = vec![12, -7, 0, 32000, -32000];
    assert_eq!(
        encode_samples(&samples, ByteOrder::LittleEndian),
        encode_samples(&samples, ByteOrder::LittleEndian)
    );
}
