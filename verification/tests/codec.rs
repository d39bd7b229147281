use image_classification::{bytes_to_f32_vec, decode_tensor, f32_vec_to_bytes, PipelineError};

fn patterns() -> Vec<u32> {
    let values: Vec<f32> = vec![
        0.0,
        -0.0,
        1.0,
        -1.0,
        0.5,
        3.4028235e38,
        -3.4028235e38,
        1.0e-45,
        1.17549435e-38,
        f32::INFINITY,
        f32::NEG_INFINITY,
        -2.1179039,
        2.2489083,
    ];
    let mut bits: Vec<u32> = values.iter().map(|v| v.to_bits()).collect();
    // two NaNs with different payloads, and the patterns at the ends of the range
    bits.push(0x7FC0_0000);
    bits.push(0xFFC0_1234);
    bits.push(0x0000_0000);
    bits.push(0xFFFF_FFFF);
    bits.push(0x0102_0304);
    bits
}

#[test]
fn round_trip_is_bit_exact() {
    let bits = patterns();
    let bytes = f32_vec_to_bytes(&bits);
    assert_eq!(bytes.len(), 4 * bits.len());
    assert_eq!(bytes_to_f32_vec(bytes), Ok(bits));
}

#[test]
fn round_trip_of_nothing() {
    let bytes = f32_vec_to_bytes(&Vec::new());
    assert!(bytes.is_empty());
    assert_eq!(bytes_to_f32_vec(bytes), Ok(Vec::new()));
}

#[test]
fn encoding_is_little_endian() {
    assert_eq!(f32_vec_to_bytes(&vec![0x0102_0304]), vec![0x04, 0x03, 0x02, 0x01]);
    assert_eq!(
        f32_vec_to_bytes(&vec![0xAABB_CCDD, 0x0000_00FF]),
        vec![0xDD, 0xCC, 0xBB, 0xAA, 0xFF, 0x00, 0x00, 0x00]
    );
}

#[test]
fn encoding_agrees_with_the_numbers_own_bytes() {
    for bits in patterns() {
        let number = f32::from_bits(bits);
        assert_eq!(f32_vec_to_bytes(&vec![bits]), number.to_le_bytes().to_vec());
    }
}

#[test]
fn decoding_agrees_with_the_numbers_own_bytes() {
    let bytes: Vec<u8> = vec![0x00, 0x00, 0x80, 0x3F, 0x00, 0x00, 0x00, 0x40, 0x00, 0x00, 0x40, 0x40];
    let words = bytes_to_f32_vec(bytes.clone()).unwrap();
    let numbers: Vec<f32> = words.iter().map(|w| f32::from_bits(*w)).collect();
    assert_eq!(numbers, vec![1.0f32, 2.0, 3.0]);
    let expected: Vec<u32> = bytes
        .chunks(4)
        .map(|c| f32::from_le_bytes([c[0], c[1], c[2], c[3]]).to_bits())
        .collect();
    assert_eq!(words, expected);
}

#[test]
fn decoding_then_encoding_gives_the_bytes_back() {
    let bytes: Vec<u8> = (0u16..256).map(|b| b as u8).collect();
    let words = bytes_to_f32_vec(bytes.clone()).unwrap();
    assert_eq!(words.len(), 64);
    assert_eq!(f32_vec_to_bytes(&words), bytes);
}

#[test]
fn length_that_is_no_multiple_of_four_is_a_codec_error() {
    assert_eq!(bytes_to_f32_vec(vec![1, 2, 3, 4, 5]), Err(PipelineError::Codec { length: 5 }));
    assert_eq!(bytes_to_f32_vec(vec![1]), Err(PipelineError::Codec { length: 1 }));
    assert_eq!(bytes_to_f32_vec(vec![1, 2, 3]), Err(PipelineError::Codec { length: 3 }));
    assert_eq!(bytes_to_f32_vec(vec![0; 4]), Ok(vec![0]));
}

#[test]
fn borrowed_buffer_decodes_like_an_owned_one() {
    let bytes: Vec<u8> = (0u16..64).map(|b| (b * 3) as u8).collect();
    assert_eq!(decode_tensor(&bytes), bytes_to_f32_vec(bytes.clone()));
    assert_eq!(decode_tensor(&bytes[..8]), Ok(vec![0x0906_0300, 0x1512_0F0C]));
    assert_eq!(decode_tensor(&bytes[..7]), Err(PipelineError::Codec { length: 7 }));
}
