use iso9660_vd::header::{DecodeError, VDHeader, VDIdentifier, VDType};
use iso9660_vd::utf8::is_utf8_bytes;
use iso9660_vd::util::Parse;

fn header_bytes(type_byte: u8, ident: &[u8; 5], version: u8) -> Vec<u8> {
    let mut v = Vec::new();
    v.push(type_byte);
    v.extend_from_slice(ident);
    v.push(version);
    v
}

const ALL_TYPES: [(u8, VDType); 5] = [
    (0, VDType::Boot),
    (1, VDType::Primary),
    (2, VDType::Supplementary),
    (3, VDType::Partition),
    (255, VDType::Terminator),
];

const ALL_IDENTS: [(&[u8; 5], VDIdentifier); 6] = [
    (b"CD001", VDIdentifier::CD001),
    (b"BEA01", VDIdentifier::BEA01),
    (b"NSR02", VDIdentifier::NSR02),
    (b"NSR03", VDIdentifier::NSR03),
    (b"BOOT2", VDIdentifier::BOOT2),
    (b"TEA01", VDIdentifier::TEA01),
];

#[test]
fn decode_roundtrip_all_pairs() {
    for (tb, t) in ALL_TYPES {
        for (tag, id) in ALL_IDENTS {
            let buf = header_bytes(tb, tag, 1);
            let (h, consumed) = VDHeader::parse(&buf).expect("valid header must decode");
            assert_eq!(consumed, 7);
            assert_eq!(
                h,
                VDHeader {
                    vd_type: t,
                    identifier: id
                }
            );
        }
    }
}

#[test]
fn parse_valid_vdheader() {
    // The six descriptor sectors of a known installer image, rebuilt
    // synthetically: a full 2048-byte sector whose first seven bytes are the
    // header and whose payload is zero.
    let cases: [(u8, &[u8; 5], VDType, VDIdentifier); 6] = [
        (1, b"CD001", VDType::Primary, VDIdentifier::CD001),
        (0, b"CD001", VDType::Boot, VDIdentifier::CD001),
        (255, b"CD001", VDType::Terminator, VDIdentifier::CD001),
        (0, b"BEA01", VDType::Boot, VDIdentifier::BEA01),
        (0, b"NSR02", VDType::Boot, VDIdentifier::NSR02),
        (0, b"TEA01", VDType::Boot, VDIdentifier::TEA01),
    ];
    for (tb, tag, t, id) in cases {
        let mut sector = header_bytes(tb, tag, 1);
        sector.resize(2048, 0);
        let (h, consumed) = VDHeader::parse(&sector).expect("Failed to parse");
        assert_eq!(
            h,
            VDHeader {
                vd_type: t,
                identifier: id
            }
        );
        // The header is exactly seven bytes: 2041 bytes of payload remain.
        assert_eq!(sector.len() - consumed, 2041);
    }
}

#[test]
fn decode_invalid_type_byte() {
    for tb in [4u8, 5, 16, 100, 254] {
        let buf = header_bytes(tb, b"CD001", 1);
        assert_eq!(
            VDHeader::parse(&buf),
            Err(DecodeError::InvalidDescriptorType)
        );
    }
}

#[test]
fn decode_invalid_identifier_encoding() {
    // 0xFF can never appear in UTF-8 text.
    let buf = header_bytes(1, &[0xFF, 0xFE, 0x30, 0x30, 0x31], 1);
    assert_eq!(
        VDHeader::parse(&buf),
        Err(DecodeError::InvalidIdentifierEncoding)
    );
    // A truncated multi-byte code point is not valid either.
    let buf = header_bytes(1, &[0x43, 0x44, 0x30, 0x30, 0xC3], 1);
    assert_eq!(
        VDHeader::parse(&buf),
        Err(DecodeError::InvalidIdentifierEncoding)
    );
}

#[test]
fn decode_unknown_identifier() {
    for tag in [b"XD001", b"cd001", b"CD002", b"AAAAA", b"NSR01"] {
        let buf = header_bytes(1, tag, 1);
        assert_eq!(VDHeader::parse(&buf), Err(DecodeError::UnknownIdentifier));
    }
}

#[test]
fn decode_unsupported_version() {
    for version in [0u8, 2, 3, 255] {
        let buf = header_bytes(1, b"CD001", version);
        assert_eq!(VDHeader::parse(&buf), Err(DecodeError::UnsupportedVersion));
    }
}

#[test]
fn decode_error_precedence_is_field_order() {
    // Several fields invalid at once: the first invalid field names the error.
    let buf = header_bytes(7, &[0xFF, 0xFF, 0xFF, 0xFF, 0xFF], 9);
    assert_eq!(
        VDHeader::parse(&buf),
        Err(DecodeError::InvalidDescriptorType)
    );
    let buf = header_bytes(1, &[0xFF, 0xFF, 0xFF, 0xFF, 0xFF], 9);
    assert_eq!(
        VDHeader::parse(&buf),
        Err(DecodeError::InvalidIdentifierEncoding)
    );
    let buf = header_bytes(1, b"XXXXX", 9);
    assert_eq!(VDHeader::parse(&buf), Err(DecodeError::UnknownIdentifier));
}

#[test]
fn decode_short_buffer_is_incomplete() {
    let full = header_bytes(1, b"CD001", 1);
    for len in 0..7 {
        let buf = &full[..len];
        assert_eq!(VDHeader::parse(buf), Err(DecodeError::Incomplete));
    }
    // Short buffers are Incomplete even when their bytes are garbage.
    let garbage = [99u8, 0xFF, 0xFF];
    assert_eq!(VDHeader::parse(&garbage), Err(DecodeError::Incomplete));
}

#[test]
fn parse_type_and_identifier_components() {
    let buf = header_bytes(2, b"NSR03", 1);
    let (t, n) = VDType::parse(&buf).expect("type byte must decode");
    assert_eq!((t, n), (VDType::Supplementary, 1));
    let (id, n) = VDIdentifier::parse(&buf[1..]).expect("identifier must decode");
    assert_eq!((id, n), (VDIdentifier::NSR03, 5));
    assert_eq!(VDType::parse(&[]), Err(DecodeError::Incomplete));
    assert_eq!(VDIdentifier::parse(&buf[1..4]), Err(DecodeError::Incomplete));
}

#[test]
fn type_byte_conversions() {
    for (tb, t) in ALL_TYPES {
        assert_eq!(VDType::try_from(tb), Ok(t));
        assert_eq!(t.to_byte(), tb);
    }
    assert_eq!(VDType::try_from(4), Err(DecodeError::InvalidDescriptorType));
}

#[test]
fn identifier_from_raw_bytes() {
    for (tag, id) in ALL_IDENTS {
        assert_eq!(VDIdentifier::try_from(tag.as_slice()), Ok(id));
    }
    // Wrong length is an unknown identifier, not an encoding error.
    assert_eq!(
        VDIdentifier::try_from(b"CD01".as_slice()),
        Err(DecodeError::UnknownIdentifier)
    );
    assert_eq!(
        VDIdentifier::try_from(b"CD0011".as_slice()),
        Err(DecodeError::UnknownIdentifier)
    );
    assert_eq!(
        VDIdentifier::try_from([0x80u8, 0x80, 0x80, 0x80, 0x80].as_slice()),
        Err(DecodeError::InvalidIdentifierEncoding)
    );
}

#[test]
fn utf8_checker_accepts_well_formed_sequences() {
    assert!(is_utf8_bytes(b""));
    assert!(is_utf8_bytes(b"CD001"));
    // Two-byte: U+00E9, three-byte: U+20AC, four-byte: U+1F600.
    assert!(is_utf8_bytes(&[0xC3, 0xA9]));
    assert!(is_utf8_bytes(&[0xE2, 0x82, 0xAC]));
    assert!(is_utf8_bytes(&[0xF0, 0x9F, 0x98, 0x80]));
    assert!(is_utf8_bytes(&[0x41, 0xC3, 0xA9, 0x42]));
    // Boundary code points: U+07FF, U+FFFD, U+10FFFF.
    assert!(is_utf8_bytes(&[0xDF, 0xBF]));
    assert!(is_utf8_bytes(&[0xEF, 0xBF, 0xBD]));
    assert!(is_utf8_bytes(&[0xF4, 0x8F, 0xBF, 0xBF]));
}

#[test]
fn utf8_checker_rejects_ill_formed_sequences() {
    // Stray continuation byte.
    assert!(!is_utf8_bytes(&[0x80]));
    // Overlong encodings: C0/C1 never appear.
    assert!(!is_utf8_bytes(&[0xC0, 0x80]));
    assert!(!is_utf8_bytes(&[0xC1, 0xBF]));
    assert!(!is_utf8_bytes(&[0xE0, 0x80, 0x80]));
    // Surrogate range U+D800.
    assert!(!is_utf8_bytes(&[0xED, 0xA0, 0x80]));
    // Past U+10FFFF.
    assert!(!is_utf8_bytes(&[0xF4, 0x90, 0x80, 0x80]));
    assert!(!is_utf8_bytes(&[0xF5, 0x80, 0x80, 0x80]));
    // Truncated sequences.
    assert!(!is_utf8_bytes(&[0xC3]));
    assert!(!is_utf8_bytes(&[0xE2, 0x82]));
    assert!(!is_utf8_bytes(&[0xF0, 0x9F, 0x98]));
}
