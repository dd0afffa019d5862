use ether_type::EtherType;
use ethernet::{Error, Ethernet2Frame, Ethernet2Header, OwnedEthernet2Frame};
use mac_parser::MACAddress;

const HEADER: [u8; 14] = [
    0x00, 0x80, 0x41, 0xff, 0xf0, 0x0d, // dst
    0x00, 0x80, 0x41, 0xba, 0xbe, 0xff, // src
    0x86, 0xdd, // EtherType
];

const FRAME: [u8; 16] = [
    0x00, 0x80, 0x41, 0xff, 0xf0, 0x0d, 0x00, 0x80, 0x41, 0xba, 0xbe, 0xff, 0x86, 0xdd, 0xAA, 0xBB,
];

fn example_header() -> Ethernet2Header {
    Ethernet2Header {
        dst: MACAddress::new([0x00, 0x80, 0x41, 0xff, 0xf0, 0x0d]),
        src: MACAddress::new([0x00, 0x80, 0x41, 0xba, 0xbe, 0xff]),
        ether_type: EtherType::IPv6,
    }
}

#[test]
fn header_from_fixed_bytes_example() {
    let header = Ethernet2Header::from_fixed_bytes(HEADER);
    assert_eq!(header, example_header());
    assert_eq!(header.to_fixed_bytes(), HEADER);
}

#[test]
fn header_length_constant() {
    assert_eq!(Ethernet2Header::HEADER_LENGTH, 14);
}

#[test]
fn header_round_trip_on_several_buffers() {
    let buffers: [[u8; 14]; 4] = [
        HEADER,
        [0u8; 14],
        [0xff; 14],
        [1, 2, 3, 4, 5, 6, 7, 8, 9, 10, 11, 12, 0x08, 0x00],
    ];
    for b in buffers.iter() {
        let header = Ethernet2Header::from_bytes(b).unwrap();
        assert_eq!(header.to_fixed_bytes(), *b);
        let mut out = [0u8; 14];
        assert_eq!(header.to_bytes(&mut out), Some(()));
        assert_eq!(out, *b);
    }
}

#[test]
fn header_thirteen_bytes_too_short() {
    let b = [0u8; 13];
    assert_eq!(Ethernet2Header::try_from_ctx(&b), Err(Error::TooShort));
    assert_eq!(Ethernet2Header::from_bytes(&b), None);
}

#[test]
fn header_fourteen_bytes_decodes() {
    let (header, n) = Ethernet2Header::try_from_ctx(&HEADER).unwrap();
    assert_eq!(n, 14);
    assert_eq!(header, example_header());
}

#[test]
fn header_ignores_bytes_after_the_fourteenth() {
    let (header, n) = Ethernet2Header::try_from_ctx(&FRAME).unwrap();
    assert_eq!(n, 14);
    assert_eq!(header, example_header());
}

#[test]
fn header_known_ether_types() {
    let cases: [(u8, u8, EtherType); 5] = [
        (0x08, 0x00, EtherType::IPv4),
        (0x08, 0x06, EtherType::ARP),
        (0x08, 0x42, EtherType::WoLAN),
        (0x86, 0xdd, EtherType::IPv6),
        (0x88, 0x8e, EtherType::Eapol),
    ];
    for (hi, lo, expected) in cases.iter() {
        let mut b = HEADER;
        b[12] = *hi;
        b[13] = *lo;
        assert_eq!(Ethernet2Header::from_fixed_bytes(b).ether_type, *expected);
    }
}

#[test]
fn header_unknown_ether_type_keeps_raw_value() {
    let mut b = HEADER;
    b[12] = 0x12;
    b[13] = 0x34;
    let header = Ethernet2Header::from_fixed_bytes(b);
    assert_eq!(header.ether_type, EtherType::Unknown(0x1234));
    assert_eq!(header.to_fixed_bytes(), b);
}

#[test]
fn ether_type_every_value_round_trips() {
    for v in 0..=u16::MAX {
        let mut b = HEADER;
        b[12] = (v >> 8) as u8;
        b[13] = (v & 0xff) as u8;
        let header = Ethernet2Header::from_fixed_bytes(b);
        let out = header.to_fixed_bytes();
        assert_eq!(out[12], b[12]);
        assert_eq!(out[13], b[13]);
    }
}

#[test]
fn header_encode_writes_big_endian_ether_type() {
    let mut header = example_header();
    header.ether_type = EtherType::Unknown(0xabcd);
    let out = header.to_fixed_bytes();
    assert_eq!(out[12], 0xab);
    assert_eq!(out[13], 0xcd);
}

#[test]
fn header_encode_keeps_bytes_after_header() {
    let mut buf = [0x55u8; 17];
    assert_eq!(example_header().try_into_ctx(&mut buf), Ok(14));
    assert_eq!(&buf[..14], &HEADER[..]);
    assert_eq!(&buf[14..], &[0x55u8, 0x55, 0x55][..]);
}

#[test]
fn header_encode_short_buffer() {
    let mut buf = [0x55u8; 13];
    assert_eq!(example_header().try_into_ctx(&mut buf), Err(Error::BufferTooShort));
    assert_eq!(buf, [0x55u8; 13]);
    assert_eq!(example_header().to_bytes(&mut buf), None);
    assert_eq!(buf, [0x55u8; 13]);
}

#[test]
fn frame_example_decodes_and_round_trips() {
    let frame = Ethernet2Frame::from_bytes(&FRAME).unwrap();
    assert_eq!(frame.header, example_header());
    assert_eq!(frame.payload, &[0xAAu8, 0xBB][..]);
    assert_eq!(frame.length_in_bytes(), 16);
    let mut out = [0u8; 16];
    assert_eq!(frame.to_bytes(&mut out), Some(()));
    assert_eq!(out, FRAME);
}

#[test]
fn frame_try_from_ctx_consumes_everything() {
    let (frame, n) = Ethernet2Frame::try_from_ctx(&FRAME).unwrap();
    assert_eq!(n, 16);
    assert_eq!(frame.payload.len(), 2);
}

#[test]
fn frame_round_trip_long_payload() {
    let mut b = [0u8; 64];
    for (i, x) in b.iter_mut().enumerate() {
        *x = (i * 7) as u8;
    }
    let (frame, n) = Ethernet2Frame::try_from_ctx(&b).unwrap();
    assert_eq!(n, 64);
    let mut out = [0u8; 64];
    assert_eq!(frame.try_into_ctx(&mut out), Ok(64));
    assert_eq!(out, b);
}

#[test]
fn frame_fourteen_bytes_has_no_body() {
    assert_eq!(
        Ethernet2Frame::try_from_ctx(&HEADER).map(|(_, n)| n),
        Err(Error::NoBody)
    );
    assert!(Ethernet2Frame::from_bytes(&HEADER).is_none());
}

#[test]
fn frame_shorter_than_header_has_no_body() {
    let b = [0u8; 5];
    assert_eq!(Ethernet2Frame::try_from_ctx(&b).map(|(_, n)| n), Err(Error::NoBody));
    assert!(Ethernet2Frame::from_bytes(&[]).is_none());
}

#[test]
fn frame_fifteen_bytes_has_one_byte_payload() {
    let mut b = [0u8; 15];
    b[..14].copy_from_slice(&HEADER);
    b[14] = 0x42;
    let (frame, n) = Ethernet2Frame::try_from_ctx(&b).unwrap();
    assert_eq!(n, 15);
    assert_eq!(frame.header, example_header());
    assert_eq!(frame.payload, &[0x42u8][..]);
    assert_eq!(frame.length_in_bytes(), 15);
}

#[test]
fn frame_length_in_bytes() {
    let payload = [1u8, 2, 3, 4, 5];
    let frame = Ethernet2Frame { header: example_header(), payload: &payload };
    assert_eq!(frame.length_in_bytes(), 19);
    let empty = Ethernet2Frame { header: example_header(), payload: &[] };
    assert_eq!(empty.length_in_bytes(), 14);
}

#[test]
fn frame_encode_short_buffer() {
    let frame = Ethernet2Frame::from_bytes(&FRAME).unwrap();
    let mut buf = [0x55u8; 15];
    assert_eq!(frame.try_into_ctx(&mut buf), Err(Error::BufferTooShort));
    assert_eq!(buf, [0x55u8; 15]);
    let frame = Ethernet2Frame::from_bytes(&FRAME).unwrap();
    let mut tiny = [0x55u8; 3];
    assert_eq!(frame.to_bytes(&mut tiny), None);
    assert_eq!(tiny, [0x55u8; 3]);
}

#[test]
fn frame_encode_keeps_bytes_after_frame() {
    let frame = Ethernet2Frame::from_bytes(&FRAME).unwrap();
    let mut buf = [0x55u8; 18];
    assert_eq!(frame.try_into_ctx(&mut buf), Ok(16));
    assert_eq!(&buf[..16], &FRAME[..]);
    assert_eq!(&buf[16..], &[0x55u8, 0x55][..]);
}

#[test]
fn owned_frame_matches_borrowed() {
    let (borrowed, n1) = Ethernet2Frame::try_from_ctx(&FRAME).unwrap();
    let (owned, n2) = OwnedEthernet2Frame::try_from_ctx(&FRAME).unwrap();
    assert_eq!(n1, n2);
    assert_eq!(owned.header, borrowed.header);
    assert_eq!(owned.payload.as_slice(), borrowed.payload);
}

#[test]
fn owned_frame_outlives_input_and_round_trips() {
    let owned = {
        let input = FRAME.to_vec();
        OwnedEthernet2Frame::try_from_ctx(&input).unwrap().0
    };
    assert_eq!(owned.payload, vec![0xAAu8, 0xBB]);
    let mut out = [0u8; 16];
    assert_eq!(owned.try_into_ctx(&mut out), Ok(16));
    assert_eq!(out, FRAME);
}

#[test]
fn owned_frame_errors() {
    assert!(matches!(
        OwnedEthernet2Frame::try_from_ctx(&HEADER),
        Err(Error::NoBody)
    ));
    let owned = OwnedEthernet2Frame { header: example_header(), payload: vec![1, 2, 3] };
    let mut buf = [0x55u8; 16];
    assert_eq!(owned.try_into_ctx(&mut buf), Err(Error::BufferTooShort));
    assert_eq!(buf, [0x55u8; 16]);
}
