use llmrs::formats::{i32_to_usize, parse_header_data, read_i32_le, read_u32_le, u16_payload, HeaderError, HEADER_BYTES};

fn header(words: &[i32]) -> Vec<u8> {
    let mut b = vec![0u8; HEADER_BYTES];
    for (i, w) in words.iter().enumerate() {
        b[4 * i..4 * i + 4].copy_from_slice(&w.to_le_bytes());
    }
    b
}

#[test]
fn reads_little_endian_words() {
    let b = [0x78, 0x56, 0x34, 0x12, 0xff, 0xff, 0xff, 0xff];
    assert_eq!(read_u32_le(&b, 0), 0x12345678);
    assert_eq!(read_u32_le(&b, 4), u32::MAX);
    assert_eq!(read_i32_le(&b, 4), -1);
    assert_eq!(read_i32_le(&[0, 0, 0, 0x80], 0), i32::MIN);
}

#[test]
fn parse_header_splits_header_and_payload() {
    let mut b = header(&[7, 2, -5, 40]);
    b.extend_from_slice(&[1, 2, 3]);
    let (h, payload) = parse_header_data(&b, 7, 2).unwrap();
    assert_eq!(h.len(), 256);
    assert_eq!(&h[0..4], &[7, 2, -5, 40]);
    assert!(h[4..].iter().all(|&w| w == 0));
    assert_eq!(payload, &[1, 2, 3]);
}

#[test]
fn parse_header_refuses_short_data() {
    let b = vec![0u8; HEADER_BYTES - 1];
    assert_eq!(parse_header_data(&b, 0, 0), Err(HeaderError::TooShort));
}

#[test]
fn parse_header_refuses_bad_magic() {
    let b = header(&[8, 2]);
    assert_eq!(parse_header_data(&b, 7, 2), Err(HeaderError::BadMagic(8)));
}

#[test]
fn parse_header_refuses_bad_version() {
    let b = header(&[7, 3]);
    assert_eq!(parse_header_data(&b, 7, 2), Err(HeaderError::BadVersion(3)));
}

#[test]
fn u16_payload_reads_little_endian_and_drops_odd_byte() {
    assert_eq!(u16_payload(&[0x34, 0x12, 0xff, 0x00, 0x09]), vec![0x1234, 0x00ff]);
    assert_eq!(u16_payload(&[]), Vec::<u16>::new());
}

#[test]
fn i32_words_convert_to_usize_like_casts() {
    assert_eq!(i32_to_usize(0), 0);
    assert_eq!(i32_to_usize(i32::MAX), i32::MAX as usize);
    assert_eq!(i32_to_usize(-1), usize::MAX);
    assert_eq!(i32_to_usize(i32::MIN), usize::MAX - (i32::MAX as usize));
}
