use mp4box::boxtype::COLR_CODE;
use mp4box::colr::{COLOR_PARAMETER_NCLC, COLOR_PARAMETER_PROF};
use mp4box::header::{HEADER_EXT_SIZE, HEADER_SIZE};
use mp4box::{BoxError, BoxHeader, BoxType, ByteSink, ByteSource, ColrBox};

fn encode_colr(b: &ColrBox) -> Vec<u8> {
    let mut sink = ByteSink::new();
    let written = b.write_box(&mut sink).unwrap();
    assert_eq!(written, b.get_size());
    let bytes = sink.into_vec();
    assert_eq!(bytes.len() as u64, b.get_size());
    bytes
}

fn decode_colr(bytes: Vec<u8>) -> ColrBox {
    let mut src = ByteSource::new(bytes);
    let header = BoxHeader::read(&mut src).unwrap();
    assert_eq!(header.kind, BoxType::ColrBox);
    ColrBox::read_box(&mut src, header.size).unwrap()
}

#[test]
fn default_colr_encodes_to_exact_bytes() {
    let b = ColrBox::new();
    let bytes = encode_colr(&b);
    let expected: Vec<u8> = vec![
        0x00, 0x00, 0x00, 0x12, 0x63, 0x6f, 0x6c, 0x72, 0x6e, 0x63, 0x6c, 0x63, 0x00, 0x01, 0x00,
        0x01, 0x00, 0x01,
    ];
    assert_eq!(bytes, expected);
    assert_eq!(decode_colr(bytes), b);
}

#[test]
fn colr_round_trips_for_assorted_fields() {
    let cases = vec![
        ColrBox {
            color_parameter_type: COLOR_PARAMETER_NCLC,
            color_primaries: 9,
            transfer_characteristics: 16,
            matrix_coefficients: 9,
        },
        ColrBox {
            color_parameter_type: COLOR_PARAMETER_PROF,
            color_primaries: 0,
            transfer_characteristics: 0,
            matrix_coefficients: 0,
        },
        ColrBox {
            color_parameter_type: 0xffff_ffff,
            color_primaries: 0xffff,
            transfer_characteristics: 0xffff,
            matrix_coefficients: 0xffff,
        },
        ColrBox {
            color_parameter_type: 0,
            color_primaries: 1,
            transfer_characteristics: 0x8000,
            matrix_coefficients: 0x00ff,
        },
    ];
    for b in cases {
        let bytes = encode_colr(&b);
        assert_eq!(bytes.len(), 18);
        assert_eq!(decode_colr(bytes), b);
    }
}

#[test]
fn colr_size_is_constant() {
    assert_eq!(ColrBox::new().get_size(), 18);
    assert_eq!(ColrBox::default().box_size(), 18);
    let extremes = ColrBox {
        color_parameter_type: 0xffff_ffff,
        color_primaries: 0xffff,
        transfer_characteristics: 0,
        matrix_coefficients: 0,
    };
    assert_eq!(extremes.get_size(), 18);
    assert_eq!(extremes.box_size(), 18);
}

#[test]
fn unrecognized_color_parameter_type_is_preserved() {
    let b = ColrBox {
        color_parameter_type: 0xdead_beef,
        color_primaries: 2,
        transfer_characteristics: 3,
        matrix_coefficients: 4,
    };
    let bytes = encode_colr(&b);
    let decoded = decode_colr(bytes);
    assert_eq!(decoded.color_parameter_type, 0xdead_beef);
    assert_eq!(decoded, b);
}

#[test]
fn new_matches_default() {
    let n = ColrBox::new();
    let d = ColrBox::default();
    assert_eq!(n, d);
    assert_eq!(n.color_parameter_type, COLOR_PARAMETER_NCLC);
    assert_eq!(n.color_primaries, 1);
    assert_eq!(n.transfer_characteristics, 1);
    assert_eq!(n.matrix_coefficients, 1);
    assert_eq!(n.get_type(), BoxType::ColrBox);
    assert_eq!(n.box_type(), BoxType::ColrBox);
}

fn header_round_trip(kind: BoxType, size: u64) -> (Vec<u8>, BoxHeader) {
    let mut sink = ByteSink::new();
    let header = BoxHeader::new(kind, size);
    let written = header.write(&mut sink).unwrap();
    assert_eq!(written, header.header_len());
    let bytes = sink.into_vec();
    assert_eq!(written, bytes.len() as u64);
    let mut src = ByteSource::new(bytes.clone());
    let decoded = BoxHeader::read(&mut src).unwrap();
    assert_eq!(decoded.kind, kind);
    assert_eq!(decoded.size, size);
    assert_eq!(decoded.start_offset, 0);
    assert_eq!(src.position(), written);
    (bytes, decoded)
}

#[test]
fn ordinary_sizes_use_the_8_byte_form() {
    for size in [8u64, 18, 0x1234, 0xffff_fffe] {
        let (bytes, _) = header_round_trip(BoxType::ColrBox, size);
        assert_eq!(bytes.len() as u64, HEADER_SIZE);
        // The size field holds the size itself, not the extended-form escape.
        let size_field = u32::from_be_bytes([bytes[0], bytes[1], bytes[2], bytes[3]]);
        assert_eq!(size_field as u64, size);
    }
}

#[test]
fn large_sizes_use_the_16_byte_extended_form() {
    for size in [0xffff_ffffu64, 0x1_0000_0000, 0xdead_beef_cafe_f00d] {
        let (bytes, _) = header_round_trip(BoxType::ColrBox, size);
        assert_eq!(bytes.len() as u64, HEADER_EXT_SIZE);
        assert_eq!(&bytes[0..4], &[0x00, 0x00, 0x00, 0x01]);
        let large = u64::from_be_bytes([
            bytes[8], bytes[9], bytes[10], bytes[11], bytes[12], bytes[13], bytes[14], bytes[15],
        ]);
        assert_eq!(large, size);
    }
}

#[test]
fn to_end_of_stream_header_round_trips() {
    let (bytes, _) = header_round_trip(BoxType::UnknownBox(0x6d6f_6f76), 0);
    assert_eq!(bytes.len() as u64, HEADER_SIZE);
    assert_eq!(&bytes[0..4], &[0x00, 0x00, 0x00, 0x00]);
}

#[test]
fn unknown_type_codes_round_trip_losslessly() {
    assert_eq!(BoxType::from_code(COLR_CODE), BoxType::ColrBox);
    assert_eq!(BoxType::ColrBox.to_code(), COLR_CODE);
    for code in [0u32, 0x6d6f_6f76, 0xffff_ffff, 0x0000_0001] {
        let t = BoxType::from_code(code);
        assert_eq!(t, BoxType::UnknownBox(code));
        assert_eq!(t.to_code(), code);
    }
}

#[test]
fn short_source_fails_with_truncated_header() {
    for len in 0..8usize {
        let mut src = ByteSource::new(vec![0u8; len]);
        assert_eq!(BoxHeader::read(&mut src), Err(BoxError::TruncatedHeader));
        assert_eq!(src.position(), 0);
    }
}

#[test]
fn short_extended_header_fails_with_truncated_header() {
    // Size field 1 announces a 16-byte header, but only 12 bytes exist.
    let bytes = vec![0x00, 0x00, 0x00, 0x01, 0x63, 0x6f, 0x6c, 0x72, 0x00, 0x00, 0x00, 0x00];
    let mut src = ByteSource::new(bytes);
    assert_eq!(BoxHeader::read(&mut src), Err(BoxError::TruncatedHeader));
    assert_eq!(src.position(), 0);
}

#[test]
fn reserved_size_field_fails_with_invalid_declared_size() {
    for size_byte in 2u8..8 {
        let bytes = vec![0x00, 0x00, 0x00, size_byte, 0x63, 0x6f, 0x6c, 0x72];
        let mut src = ByteSource::new(bytes);
        assert_eq!(BoxHeader::read(&mut src), Err(BoxError::InvalidDeclaredSize));
        assert_eq!(src.position(), 0);
    }
}

#[test]
fn extended_size_below_its_own_header_fails() {
    // Extended form declaring a total size of 10, less than the 16-byte header.
    let bytes = vec![
        0x00, 0x00, 0x00, 0x01, 0x63, 0x6f, 0x6c, 0x72, 0x00, 0x00, 0x00, 0x00, 0x00, 0x00, 0x00,
        0x0a,
    ];
    let mut src = ByteSource::new(bytes);
    assert_eq!(BoxHeader::read(&mut src), Err(BoxError::InvalidDeclaredSize));
    assert_eq!(src.position(), 0);
}

#[test]
fn writing_a_corrupt_header_size_is_rejected() {
    for size in 1u64..8 {
        let mut sink = ByteSink::new();
        let header = BoxHeader::new(BoxType::ColrBox, size);
        assert_eq!(header.write(&mut sink), Err(BoxError::InvalidDeclaredSize));
        assert_eq!(sink.len(), 0);
    }
}

#[test]
fn short_payload_fails_with_unexpected_end_of_payload() {
    for len in 0..10usize {
        let mut src = ByteSource::new(vec![0u8; len]);
        assert_eq!(ColrBox::read_box(&mut src, 18), Err(BoxError::UnexpectedEndOfPayload));
        assert_eq!(src.position(), 0);
    }
}

#[test]
fn undersized_declared_size_fails_before_reading() {
    let mut src = ByteSource::new(vec![0u8; 10]);
    assert_eq!(ColrBox::read_box(&mut src, 17), Err(BoxError::InvalidDeclaredSize));
    assert_eq!(src.position(), 0);
}

#[test]
fn oversized_declared_size_reads_only_its_own_fields() {
    // A declared size larger than 18: the decoder still consumes exactly 10
    // payload bytes and leaves the cursor there for the caller to reconcile.
    let mut payload = vec![0x6e, 0x63, 0x6c, 0x63, 0x00, 0x02, 0x00, 0x03, 0x00, 0x04];
    payload.extend_from_slice(&[0xaa; 6]);
    let mut src = ByteSource::new(payload);
    let b = ColrBox::read_box(&mut src, 24).unwrap();
    assert_eq!(src.position(), 10);
    assert_eq!(b.color_parameter_type, COLOR_PARAMETER_NCLC);
    assert_eq!(b.color_primaries, 2);
    assert_eq!(b.transfer_characteristics, 3);
    assert_eq!(b.matrix_coefficients, 4);
}

#[test]
fn source_seek_and_remaining_track_the_cursor() {
    let mut src = ByteSource::new(vec![0x00, 0x01, 0x00, 0x02, 0x00, 0x03]);
    assert_eq!(src.remaining(), 6);
    assert_eq!(src.read_u16(), Some(1));
    assert_eq!(src.remaining(), 4);
    assert!(src.seek(4));
    assert_eq!(src.read_u16(), Some(3));
    assert_eq!(src.remaining(), 0);
    assert_eq!(src.read_u16(), None);
    assert!(!src.seek(7));
    assert_eq!(src.position(), 6);
    assert!(src.seek(0));
    assert_eq!(src.read_u16(), Some(1));
}

#[test]
fn sibling_boxes_are_found_by_declared_size() {
    // Two colr boxes back to back: the driver reads a header, decodes the
    // payload, seeks to start_offset + size, and finds the next sibling.
    let first = ColrBox::new();
    let second = ColrBox {
        color_parameter_type: COLOR_PARAMETER_PROF,
        color_primaries: 9,
        transfer_characteristics: 16,
        matrix_coefficients: 9,
    };
    let mut sink = ByteSink::new();
    first.write_box(&mut sink).unwrap();
    second.write_box(&mut sink).unwrap();
    let mut src = ByteSource::new(sink.into_vec());

    let h1 = BoxHeader::read(&mut src).unwrap();
    assert_eq!(h1.start_offset, 0);
    assert_eq!(h1.size, 18);
    assert_eq!(ColrBox::read_box(&mut src, h1.size).unwrap(), first);
    assert!(src.seek(h1.start_offset + h1.size));

    let h2 = BoxHeader::read(&mut src).unwrap();
    assert_eq!(h2.start_offset, 18);
    assert_eq!(h2.kind, BoxType::ColrBox);
    assert_eq!(ColrBox::read_box(&mut src, h2.size).unwrap(), second);
    assert_eq!(src.remaining(), 0);
}
