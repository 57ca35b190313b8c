use bno080::bno_common::parse_packet_header;

#[test]
fn short_buffers_parse_to_zero() {
    let bytes: [u8; 4] = [0x0A, 0x00, 0x03, 0x00];
    assert_eq!(parse_packet_header(&bytes[..0]), 0);
    assert_eq!(parse_packet_header(&bytes[..1]), 0);
    assert_eq!(parse_packet_header(&bytes[..2]), 0);
    assert_eq!(parse_packet_header(&bytes[..3]), 0);
}

#[test]
fn header_parses_little_endian_length() {
    assert_eq!(parse_packet_header(&[0x0A, 0x00, 0x03, 0x00]), 10);
    assert_eq!(parse_packet_header(&[0x00, 0x01, 0x02, 0x07]), 256);
    assert_eq!(parse_packet_header(&[0x34, 0x12, 0x00, 0x00]), 0x1234);
}

#[test]
fn continuation_bit_does_not_affect_length() {
    let lengths: [u16; 6] = [0, 4, 10, 255, 256, 32762];
    for &len in lengths.iter() {
        let lo = (len & 0xFF) as u8;
        let hi = (len >> 8) as u8;
        let clear = parse_packet_header(&[lo, hi, 3, 0]);
        let set = parse_packet_header(&[lo, hi | 0x80, 3, 0]);
        assert_eq!(clear, len as usize);
        assert_eq!(set, len as usize);
    }
}

#[test]
fn oversize_length_parses_to_zero() {
    // 32763 = 0x7FFB is one past the maximum cargo size
    assert_eq!(parse_packet_header(&[0xFB, 0x7F, 0x00, 0x00]), 0);
    assert_eq!(parse_packet_header(&[0xFF, 0x7F, 0x00, 0x00]), 0);
    // garbage frames observed on the wire
    assert_eq!(parse_packet_header(&[0xFF, 0xFF, 0xFF, 0xFF]), 0);
}

#[test]
fn max_cargo_length_is_accepted() {
    // 32762 = 0x7FFA is exactly the maximum cargo size
    assert_eq!(parse_packet_header(&[0xFA, 0x7F, 0x00, 0x00]), 32762);
}
