use rgb_interfaces::alignments::{
    Fe256Align128, Fe256Align16, Fe256Align32, Fe256Align64, Fe256Align8, FE256_BYTES,
};
use rgb_interfaces::encoding::{skip_bytes, write_zeros, DecodeError};

#[test]
fn field_and_padding_fill_a_field_element() {
    assert_eq!(Fe256Align8::FIELD_BITS / 8 + Fe256Align8::LEN, 32);
    assert_eq!(Fe256Align16::FIELD_BITS / 8 + Fe256Align16::LEN, 32);
    assert_eq!(Fe256Align32::FIELD_BITS / 8 + Fe256Align32::LEN, 32);
    assert_eq!(Fe256Align64::FIELD_BITS / 8 + Fe256Align64::LEN, 32);
    assert_eq!(Fe256Align128::FIELD_BITS / 8 + Fe256Align128::LEN, 32);
    assert_eq!(FE256_BYTES, 32);

    let mut out = Vec::new();
    Fe256Align8::default().strict_encode(&mut out);
    assert_eq!(8 / 8 + out.len(), 32);
    let mut out = Vec::new();
    Fe256Align16::default().strict_encode(&mut out);
    assert_eq!(16 / 8 + out.len(), 32);
    let mut out = Vec::new();
    Fe256Align32::default().strict_encode(&mut out);
    assert_eq!(32 / 8 + out.len(), 32);
    let mut out = Vec::new();
    Fe256Align64::default().strict_encode(&mut out);
    assert_eq!(64 / 8 + out.len(), 32);
    let mut out = Vec::new();
    Fe256Align128::default().strict_encode(&mut out);
    assert_eq!(128 / 8 + out.len(), 32);
}

#[test]
fn default_block_has_fixed_length_whatever_precedes() {
    for prior in [vec![], vec![1u8], vec![0xFF; 4], vec![7u8; 100]] {
        let mut out = prior.clone();
        Fe256Align32::default().strict_encode(&mut out);
        assert_eq!(out.len(), prior.len() + 28);
        assert_eq!(&out[..prior.len()], &prior[..]);
        assert!(out[prior.len()..].iter().all(|byte| *byte == 0));
    }
}

#[test]
fn block_after_a_field_aligns_what_follows() {
    let mut out = Vec::new();
    out.extend_from_slice(&7u32.to_le_bytes());
    Fe256Align32::default().strict_encode(&mut out);
    assert_eq!(out.len() % 32, 0);
    out.extend_from_slice(&9u64.to_le_bytes());
    Fe256Align64::default().strict_encode(&mut out);
    assert_eq!(out.len(), 64);
    out.push(1);
    Fe256Align8::default().strict_encode(&mut out);
    out.extend_from_slice(&2u16.to_le_bytes());
    Fe256Align16::default().strict_encode(&mut out);
    out.extend_from_slice(&3u128.to_le_bytes());
    Fe256Align128::default().strict_encode(&mut out);
    assert_eq!(out.len(), 160);
}

#[test]
fn decoding_steps_over_the_block_without_reading_it() {
    let input = vec![0x5Au8; 40];
    assert_eq!(Fe256Align8::strict_decode(&input, 0), Ok((Fe256Align8::default(), 31)));
    assert_eq!(Fe256Align8::strict_decode(&input, 9), Ok((Fe256Align8::default(), 40)));
    assert_eq!(Fe256Align16::strict_decode(&input, 10), Ok((Fe256Align16::default(), 40)));
    assert_eq!(Fe256Align32::strict_decode(&input, 4), Ok((Fe256Align32::default(), 32)));
    assert_eq!(Fe256Align64::strict_decode(&input, 8), Ok((Fe256Align64::default(), 32)));
    assert_eq!(Fe256Align128::strict_decode(&input, 16), Ok((Fe256Align128::default(), 32)));
}

#[test]
fn truncated_block_is_a_framing_error() {
    let input = vec![0u8; 40];
    assert_eq!(Fe256Align8::strict_decode(&input, 10), Err(DecodeError::UnexpectedEof));
    assert_eq!(Fe256Align16::strict_decode(&input, 11), Err(DecodeError::UnexpectedEof));
    assert_eq!(Fe256Align32::strict_decode(&input, 13), Err(DecodeError::UnexpectedEof));
    assert_eq!(Fe256Align64::strict_decode(&input, 17), Err(DecodeError::UnexpectedEof));
    assert_eq!(Fe256Align128::strict_decode(&input, 25), Err(DecodeError::UnexpectedEof));
    assert_eq!(Fe256Align128::strict_decode(&input, 41), Err(DecodeError::UnexpectedEof));
    assert_eq!(Fe256Align128::strict_decode(&input, usize::MAX), Err(DecodeError::UnexpectedEof));
    assert_eq!(Fe256Align8::strict_decode(&[], 0), Err(DecodeError::UnexpectedEof));
}

#[test]
fn blocks_are_shown_by_name() {
    assert_eq!(Fe256Align8::default().to_string(), "alignmentBytes");
    assert_eq!(Fe256Align128::default().to_string(), "alignmentBytes");
}

#[test]
fn framing_helpers() {
    let mut out = vec![1u8, 2];
    write_zeros(&mut out, 3);
    assert_eq!(out, vec![1, 2, 0, 0, 0]);
    write_zeros(&mut out, 0);
    assert_eq!(out.len(), 5);
    assert_eq!(skip_bytes(&out, 2, 3), Ok(5));
    assert_eq!(skip_bytes(&out, 5, 0), Ok(5));
    assert_eq!(skip_bytes(&out, 3, 3), Err(DecodeError::UnexpectedEof));
    assert_eq!(skip_bytes(&out, 6, 0), Err(DecodeError::UnexpectedEof));
}
