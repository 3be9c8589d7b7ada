use fit_rust::protocol::io::ByteCursor;
use fit_rust::protocol::{
    DefinitionMessage, DevFieldDefinition, Endian, FieldDefBaseType, FieldDefinition, FitError,
    FitHeader, FitMessageHeader,
};

#[test]
fn normal_definition_header() {
    let h = FitMessageHeader::from_bytes(0x40);
    assert_eq!(
        h,
        FitMessageHeader {
            compressed_header: false,
            definition: true,
            dev_fields: false,
            local_num: 0,
            time_offset: None,
        }
    );
    assert_eq!(h.to_bytes(), 0x40);
}

#[test]
fn normal_header_with_all_flags() {
    let h = FitMessageHeader::from_bytes(0x65);
    assert_eq!(
        h,
        FitMessageHeader {
            compressed_header: false,
            definition: true,
            dev_fields: true,
            local_num: 5,
            time_offset: None,
        }
    );
    assert_eq!(h.to_bytes(), 0x65);
}

#[test]
fn normal_data_header_keeps_four_slot_bits() {
    let h = FitMessageHeader::from_bytes(0x0F);
    assert!(!h.compressed_header);
    assert!(!h.definition);
    assert_eq!(h.local_num, 15);
    assert_eq!(h.time_offset, None);
}

#[test]
fn compressed_timestamp_header() {
    let h = FitMessageHeader::from_bytes(0xE7);
    assert_eq!(
        h,
        FitMessageHeader {
            compressed_header: true,
            definition: false,
            dev_fields: false,
            local_num: 3,
            time_offset: Some(7),
        }
    );
    assert_eq!(h.to_bytes(), 0xE7);
}

#[test]
fn every_byte_is_a_header_that_goes_back_to_itself() {
    for b in 0..=255u8 {
        let h = FitMessageHeader::from_bytes(b);
        assert!(h.is_wf());
        assert!(h.local_num <= 15);
        assert_eq!(FitMessageHeader::from_bytes(h.to_bytes()), h);
        if b & 0x80 == 0x80 {
            assert_eq!(h.to_bytes(), b);
        } else {
            // the reserved bit of a normal header is not kept
            assert_eq!(h.to_bytes(), b & 0xEF);
        }
    }
}

#[test]
fn header_that_no_byte_stands_for() {
    let h = FitMessageHeader {
        compressed_header: true,
        definition: true,
        dev_fields: false,
        local_num: 1,
        time_offset: Some(1),
    };
    assert!(!h.is_wf());
    let g = FitMessageHeader {
        compressed_header: false,
        definition: false,
        dev_fields: false,
        local_num: 16,
        time_offset: None,
    };
    assert!(!g.is_wf());
}

#[test]
fn base_type_byte() {
    let b = FieldDefBaseType::from_bytes(0x84);
    assert_eq!(b, FieldDefBaseType { val: 4, endian: Endian::Big });
    assert_eq!(b.to_bytes(), 0x84);
    let l = FieldDefBaseType::from_bytes(0x02);
    assert_eq!(l, FieldDefBaseType { val: 2, endian: Endian::Little });
    assert_eq!(l.to_bytes(), 0x02);
    // bits 5 and 6 are not part of the code
    assert_eq!(FieldDefBaseType::from_bytes(0x62).val, 2);
}

#[test]
fn architecture_byte() {
    assert_eq!(DefinitionMessage::read_endian(0), Endian::Little);
    assert_eq!(DefinitionMessage::read_endian(1), Endian::Big);
    assert_eq!(DefinitionMessage::read_endian(9), Endian::Big);
    assert_eq!(DefinitionMessage::write_endian(&Endian::Little), 0);
    assert_eq!(DefinitionMessage::write_endian(&Endian::Big), 1);
}

#[test]
fn file_header_of_twelve_bytes() {
    let bytes = vec![12, 0x10, 0x90, 0x05, 0xB3, 0x10, 0x00, 0x00, 0x2E, 0x46, 0x49, 0x54, 0xAA];
    let mut c = ByteCursor::new(bytes);
    let h = FitHeader::read(&mut c).unwrap();
    assert_eq!(h.header_size, 12);
    assert_eq!(h.protocol_version, 0x10);
    assert_eq!(h.profile_version, 0x0590);
    assert_eq!(h.data_size, 0x10B3);
    assert_eq!(h.data_type, ".FIT");
    assert_eq!(h.crc, None);
    assert_eq!(c.position(), 12);
}

#[test]
fn file_header_of_fourteen_bytes() {
    let bytes =
        vec![14, 0x10, 0x90, 0x05, 0xB3, 0x10, 0x00, 0x00, 0x2E, 0x46, 0x49, 0x54, 0x00, 0x08];
    let mut c = ByteCursor::new(bytes.clone());
    let h = FitHeader::read(&mut c).unwrap();
    assert_eq!(h.header_size, 14);
    assert_eq!(h.crc, Some(0x0800));
    assert_eq!(c.position(), 14);
    let mut out = Vec::new();
    h.write(&mut out);
    assert_eq!(out, bytes);
}

#[test]
fn file_header_that_ends_early() {
    let mut short = ByteCursor::new(vec![12, 0x10, 0x90]);
    assert_eq!(FitHeader::read(&mut short), Err(FitError::Truncated));
    let mut no_crc =
        ByteCursor::new(vec![14, 0x10, 0x90, 0x05, 0, 0, 0, 0, 0x2E, 0x46, 0x49, 0x54, 0x00]);
    assert_eq!(FitHeader::read(&mut no_crc), Err(FitError::Truncated));
}

#[test]
fn file_header_always_writes_the_tag() {
    let h = FitHeader {
        header_size: 12,
        protocol_version: 1,
        profile_version: 2,
        data_size: 3,
        data_type: String::from("xxxx"),
        crc: None,
    };
    let mut out = Vec::new();
    h.write(&mut out);
    assert_eq!(out, vec![12, 1, 2, 0, 3, 0, 0, 0, 0x2E, 0x46, 0x49, 0x54]);
}

fn simple_definition() -> DefinitionMessage {
    DefinitionMessage {
        reserved: 0,
        endian: Endian::Big,
        global_message_number: 20,
        num_fields: 2,
        fields: vec![
            FieldDefinition {
                definition_number: 253,
                size: 4,
                base_type: FieldDefBaseType { val: 6, endian: Endian::Big },
            },
            FieldDefinition {
                definition_number: 3,
                size: 1,
                base_type: FieldDefBaseType { val: 2, endian: Endian::Little },
            },
        ],
        dev_num_fields: None,
        dev_fields: None,
    }
}

#[test]
fn definition_goes_to_bytes_and_back() {
    let d = simple_definition();
    let mut out = vec![0x40];
    assert_eq!(d.write(&mut out), Ok(()));
    assert_eq!(out, vec![0x40, 0, 1, 0, 20, 2, 253, 4, 0x86, 3, 1, 0x02]);
    let mut c = ByteCursor::new(out);
    c.position();
    fit_rust::protocol::io::skip_bytes(&mut c, 1);
    let back = DefinitionMessage::read(&mut c).unwrap();
    assert_eq!(back, d);
    assert_eq!(c.position(), 12);
    assert_eq!(back.clone_definition(), d);
}

#[test]
fn definition_that_ends_early() {
    let mut short = ByteCursor::new(vec![0, 0, 20, 0]);
    assert_eq!(DefinitionMessage::read(&mut short), Err(FitError::Truncated));
    let mut no_fields = ByteCursor::new(vec![0, 0, 20, 0, 2, 253, 4, 0x86, 3, 1]);
    assert_eq!(DefinitionMessage::read(&mut no_fields), Err(FitError::Truncated));
}

#[test]
fn definition_with_developer_fields_is_not_written() {
    let mut d = simple_definition();
    d.dev_num_fields = Some(1);
    d.dev_fields =
        Some(vec![DevFieldDefinition { field_number: 0, size: 1, dev_data_index: 0 }]);
    let mut out = vec![9];
    assert_eq!(d.write(&mut out), Err(FitError::UnsupportedFeature));
    assert_eq!(out, vec![9]);
}

#[test]
fn definition_with_a_wrong_count_is_not_written() {
    let mut d = simple_definition();
    d.num_fields = 3;
    let mut out = Vec::new();
    assert_eq!(d.write(&mut out), Err(FitError::InvalidArgument));
    assert!(out.is_empty());
}

#[test]
fn a_tag_that_is_no_text_is_read_with_replacement_characters() {
    let bytes = vec![12, 0x10, 0x90, 0x05, 0, 0, 0, 0, 0xFF, 0x46, 0x49, 0x54];
    let mut c = ByteCursor::new(bytes);
    let h = FitHeader::read(&mut c).unwrap();
    assert_eq!(h.data_type, "\u{FFFD}FIT");
}
