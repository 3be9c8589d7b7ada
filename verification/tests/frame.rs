use fit_rust::protocol::data_field::DataField;
use fit_rust::protocol::message_type::MessageType;
use fit_rust::protocol::value::Value;
use fit_rust::protocol::{
    calculate_fit_crc, DataMessage, DefinitionMessage, DefinitionRegistry, Endian,
    FieldDefBaseType, FieldDefinition, FitDataMessage, FitDefinitionMessage, FitError, FitHeader,
    FitMessage, FitMessageHeader,
};
use fit_rust::{DesyncPolicy, Fit};

/// A file around a body: header, body, checksum of the body.
fn file(header_size: u8, body: &[u8]) -> Vec<u8> {
    let mut out = vec![header_size, 0x10, 0x90, 0x05];
    out.extend((body.len() as u32).to_le_bytes());
    out.extend(b".FIT");
    if header_size == 14 {
        let crc = calculate_fit_crc(&out[0..12]);
        out.extend(crc.to_le_bytes());
    }
    out.extend(body);
    out.extend(calculate_fit_crc(body).to_le_bytes());
    out
}

fn record_definition(slot: u8) -> Vec<u8> {
    vec![0x40 | slot, 0, 0, 20, 0, 3, 253, 4, 0x86, 3, 1, 0x02, 2, 2, 0x84]
}

fn normal(definition: bool, slot: u8) -> FitMessageHeader {
    FitMessageHeader {
        compressed_header: false,
        definition,
        dev_fields: false,
        local_num: slot,
        time_offset: None,
    }
}

fn field(number: u8, size: u8, base_type: u8) -> FieldDefinition {
    FieldDefinition {
        definition_number: number,
        size,
        base_type: FieldDefBaseType::from_bytes(base_type),
    }
}

fn definition(endian: Endian, global: u16, fields: Vec<FieldDefinition>) -> DefinitionMessage {
    DefinitionMessage {
        reserved: 0,
        endian,
        global_message_number: global,
        num_fields: fields.len() as u8,
        fields,
        dev_num_fields: None,
        dev_fields: None,
    }
}

fn header(size: u8, data_size: u32, crc: Option<u16>) -> FitHeader {
    FitHeader {
        header_size: size,
        protocol_version: 0x10,
        profile_version: 0x0590,
        data_size,
        data_type: String::from(".FIT"),
        crc,
    }
}

#[test]
fn one_definition_and_one_record() {
    let mut body = record_definition(0);
    body.extend([0x00, 0xE8, 0x03, 0, 0, 150, 0xB8, 0x0B]);
    let bytes = file(12, &body);
    let fit = Fit::read(bytes.clone()).unwrap();
    assert_eq!(fit.header, header(12, 23, None));
    assert_eq!(fit.data.len(), 2);
    assert_eq!(
        fit.data[0],
        FitMessage::Definition(FitDefinitionMessage {
            header: normal(true, 0),
            data: definition(
                Endian::Little,
                20,
                vec![field(253, 4, 0x86), field(3, 1, 0x02), field(2, 2, 0x84)]
            ),
        })
    );
    assert_eq!(
        fit.data[1],
        FitMessage::Data(FitDataMessage {
            header: normal(false, 0),
            data: DataMessage {
                message_type: MessageType::Record,
                values: vec![
                    DataField::new(253, Value::Time(631_066_600)),
                    DataField::new(3, Value::U8(150)),
                    DataField::new(2, Value::U16(100)),
                ],
            },
        })
    );
    assert_eq!(fit.write(), Ok(bytes));
}

#[test]
fn a_file_without_records() {
    let bytes = file(12, &[]);
    let fit = Fit::read(bytes.clone()).unwrap();
    assert!(fit.data.is_empty());
    assert_eq!(fit.write(), Ok(bytes));
}

#[test]
fn a_slot_follows_its_latest_definition() {
    // slot 2 holds records, then laps
    let mut body = vec![0x42, 0, 0, 20, 0, 1, 3, 1, 0x02];
    body.extend([0x02, 150]);
    body.extend([0x42, 0, 0, 19, 0, 1, 254, 2, 0x84]);
    body.extend([0x02, 0x05, 0x00]);
    let bytes = file(12, &body);
    let fit = Fit::read(bytes.clone()).unwrap();
    assert_eq!(fit.data.len(), 4);
    match &fit.data[1] {
        FitMessage::Data(m) => {
            assert_eq!(m.data.message_type, MessageType::Record);
            assert_eq!(m.data.values, vec![DataField::new(3, Value::U8(150))]);
        }
        _ => panic!("not a data message"),
    }
    match &fit.data[2] {
        FitMessage::Definition(d) => assert_eq!(d.data.global_message_number, 19),
        _ => panic!("not a definition"),
    }
    match &fit.data[3] {
        FitMessage::Data(m) => {
            assert_eq!(m.header.local_num, 2);
            assert_eq!(m.data.message_type, MessageType::Lap);
            assert_eq!(m.data.values, vec![DataField::new(254, Value::U16(5))]);
        }
        _ => panic!("not a data message"),
    }
    assert_eq!(fit.write(), Ok(bytes));
}

#[test]
fn slots_are_independent() {
    let mut body = vec![0x41, 0, 0, 20, 0, 1, 3, 1, 0x02];
    body.extend([0x4F, 0, 0, 19, 0, 1, 254, 2, 0x84]);
    body.extend([0x0F, 0x05, 0x00]);
    body.extend([0x01, 99]);
    let fit = Fit::read(file(12, &body)).unwrap();
    match &fit.data[2] {
        FitMessage::Data(m) => assert_eq!(m.data.message_type, MessageType::Lap),
        _ => panic!("not a data message"),
    }
    match &fit.data[3] {
        FitMessage::Data(m) => {
            assert_eq!(m.data.message_type, MessageType::Record);
            assert_eq!(m.data.values, vec![DataField::new(3, Value::U8(99))]);
        }
        _ => panic!("not a data message"),
    }
}

#[test]
fn big_endian_messages() {
    let mut body = vec![0x40, 0, 1, 0, 20, 2, 253, 4, 0x86, 2, 2, 0x84];
    body.extend([0x00, 0, 0, 0x03, 0xE8, 0x0B, 0xB8]);
    let bytes = file(12, &body);
    let fit = Fit::read(bytes.clone()).unwrap();
    match &fit.data[0] {
        FitMessage::Definition(d) => {
            assert_eq!(d.data.endian, Endian::Big);
            assert_eq!(d.data.global_message_number, 20);
        }
        _ => panic!("not a definition"),
    }
    match &fit.data[1] {
        FitMessage::Data(m) => assert_eq!(
            m.data.values,
            vec![
                DataField::new(253, Value::Time(631_066_600)),
                DataField::new(2, Value::U16(100)),
            ]
        ),
        _ => panic!("not a data message"),
    }
    assert_eq!(fit.write(), Ok(bytes));
}

#[test]
fn compressed_timestamp_records_use_their_slot() {
    let mut body = vec![0x41, 0, 0, 20, 0, 1, 3, 1, 0x02];
    body.extend([0xA5, 150]);
    let bytes = file(12, &body);
    let fit = Fit::read(bytes.clone()).unwrap();
    match &fit.data[1] {
        FitMessage::Data(m) => {
            assert_eq!(
                m.header,
                FitMessageHeader {
                    compressed_header: true,
                    definition: false,
                    dev_fields: false,
                    local_num: 1,
                    time_offset: Some(5),
                }
            );
            assert_eq!(m.data.values, vec![DataField::new(3, Value::U8(150))]);
        }
        _ => panic!("not a data message"),
    }
    assert_eq!(fit.write(), Ok(bytes));
}

#[test]
fn a_message_of_an_unknown_type_is_kept_without_fields() {
    let mut body = vec![0x40, 0, 0, 11, 0, 2, 0, 1, 0x02, 1, 2, 0x84];
    body.extend([0x00, 7, 8, 9]);
    body.extend(record_definition(1));
    body.extend([0x01, 0xE8, 0x03, 0, 0, 150, 0xB8, 0x0B]);
    let fit = Fit::read(file(12, &body)).unwrap();
    assert_eq!(fit.data.len(), 4);
    assert_eq!(
        fit.data[1],
        FitMessage::Data(FitDataMessage {
            header: normal(false, 0),
            data: DataMessage { message_type: MessageType::Unknown, values: vec![] },
        })
    );
    match &fit.data[3] {
        FitMessage::Data(m) => assert_eq!(m.data.values.len(), 3),
        _ => panic!("not a data message"),
    }
    // its fields are written as absent, and it decodes to itself again
    let out = fit.write().unwrap();
    let mut expected = vec![0x40, 0, 0, 11, 0, 2, 0, 1, 0x02, 1, 2, 0x84];
    expected.extend([0x00, 0xFF, 0xFF, 0xFF]);
    expected.extend(record_definition(1));
    expected.extend([0x01, 0xE8, 0x03, 0, 0, 150, 0xB8, 0x0B]);
    assert_eq!(out, file(12, &expected));
    assert_eq!(Fit::read(out).unwrap().data, fit.data);
}

#[test]
fn sentinels_decode_to_absent_and_back() {
    let mut body = record_definition(0);
    body.extend([0x00, 0xFF, 0xFF, 0xFF, 0xFF, 0xFF, 0xFF, 0xFF]);
    let bytes = file(12, &body);
    let fit = Fit::read(bytes.clone()).unwrap();
    match &fit.data[1] {
        FitMessage::Data(m) => assert_eq!(
            m.data.values,
            vec![
                DataField::new(253, Value::Absent),
                DataField::new(3, Value::Absent),
                DataField::new(2, Value::Absent),
            ]
        ),
        _ => panic!("not a data message"),
    }
    assert_eq!(fit.write(), Ok(bytes));
}

#[test]
fn header_of_fourteen_bytes_gets_its_checksum() {
    // a body of 0x10B3 bytes under the documented header
    let mut body = vec![0x40, 0, 0, 20, 0, 1, 3, 1, 0x02];
    for i in 0..2133u32 {
        body.extend([0x00, (i % 200) as u8]);
    }
    assert_eq!(body.len(), 0x10B3);
    let mut bytes = file(14, &body);
    assert_eq!(&bytes[0..14], &[0x0E, 0x10, 0x90, 0x05, 0xB3, 0x10, 0, 0, 0x2E, 0x46, 0x49, 0x54, 0x00, 0x08]);
    // whatever checksums the file came with, it is written with the right ones
    bytes[12] = 0;
    bytes[13] = 0;
    let n = bytes.len();
    bytes[n - 1] ^= 0x55;
    let fit = Fit::read(bytes).unwrap();
    assert_eq!(fit.header.crc, Some(0));
    assert_eq!(fit.data.len(), 2134);
    assert_eq!(fit.write(), Ok(file(14, &body)));
}

#[test]
fn written_file_is_consistent() {
    let fit = Fit {
        header: header(14, 999, Some(0xAAAA)),
        data: vec![
            FitMessage::Definition(FitDefinitionMessage {
                header: normal(true, 3),
                data: definition(Endian::Little, 20, vec![field(3, 1, 0x02)]),
            }),
            FitMessage::Data(FitDataMessage {
                header: normal(false, 3),
                data: DataMessage {
                    message_type: MessageType::Record,
                    values: vec![DataField::new(3, Value::U8(77))],
                },
            }),
        ],
    };
    let out = fit.write().unwrap();
    assert_eq!(out.len(), 14 + 11 + 2);
    assert_eq!(out[0], 14);
    assert_eq!(&out[4..8], &[11, 0, 0, 0]);
    assert_eq!(&out[12..14], &calculate_fit_crc(&out[0..12]).to_le_bytes());
    assert_eq!(&out[14..25], &[0x43, 0, 0, 20, 0, 1, 3, 1, 0x02, 0x03, 77]);
    assert_eq!(&out[25..27], &calculate_fit_crc(&out[14..25]).to_le_bytes());
    let back = Fit::read(out).unwrap();
    assert_eq!(back.data, fit.data);
    assert_eq!(back.header.data_size, 11);
}

#[test]
fn the_header_length_follows_the_checksum() {
    let fit = Fit { header: header(200, 5, None), data: vec![] };
    let out = fit.write().unwrap();
    assert_eq!(out, file(12, &[]));
}

#[test]
fn values_without_a_place_in_the_layout_are_not_written() {
    let fit = Fit {
        header: header(12, 0, None),
        data: vec![
            FitMessage::Definition(FitDefinitionMessage {
                header: normal(true, 0),
                data: definition(Endian::Little, 20, vec![field(3, 1, 0x02), field(4, 1, 0x02)]),
            }),
            FitMessage::Data(FitDataMessage {
                header: normal(false, 0),
                data: DataMessage {
                    message_type: MessageType::Record,
                    values: vec![DataField::new(3, Value::U8(1))],
                },
            }),
            FitMessage::Data(FitDataMessage {
                header: normal(false, 0),
                data: DataMessage {
                    message_type: MessageType::Record,
                    values: vec![
                        DataField::new(3, Value::U8(1)),
                        DataField::new(4, Value::U8(2)),
                        DataField::new(5, Value::U8(3)),
                    ],
                },
            }),
        ],
    };
    let out = fit.write().unwrap();
    assert_eq!(&out[12..out.len() - 2], &[0x40, 0, 0, 20, 0, 2, 3, 1, 2, 4, 1, 2, 0, 1, 0xFF, 0, 1, 2]);
}

#[test]
fn truncated_files() {
    assert_eq!(Fit::read(vec![]), Err(FitError::Truncated));
    assert_eq!(Fit::read(vec![12, 0, 0, 0, 0, 0, 0, 0, 0x2E, 0x46, 0x49]), Err(FitError::Truncated));
    let mut body = record_definition(0);
    body.extend([0x00, 0xE8, 0x03, 0, 0, 150, 0xB8, 0x0B]);
    let whole = file(12, &body);
    // the body is shorter than its header says: every cut is noticed
    for cut in 12..(12 + body.len()) {
        assert_eq!(Fit::read(whole[0..cut].to_vec()), Err(FitError::Truncated), "cut at {}", cut);
    }
    // without the file's checksum the records are all there
    assert!(Fit::read(whole[0..12 + body.len()].to_vec()).is_ok());
}

#[test]
fn a_record_without_a_definition() {
    let mut body = record_definition(0);
    body.extend([0x01, 0xE8, 0x03, 0, 0, 150, 0xB8, 0x0B]);
    assert_eq!(Fit::read(file(12, &body)), Err(FitError::DesynchronizedStream));
    assert_eq!(Fit::read(file(12, &[0x00, 1, 2])), Err(FitError::DesynchronizedStream));
}

#[test]
fn a_definition_with_developer_fields() {
    let body = vec![0x60, 0, 0, 20, 0, 1, 3, 1, 0x02, 1, 0, 1, 0];
    assert_eq!(Fit::read(file(12, &body)), Err(FitError::UnsupportedFeature));
    let fit = Fit {
        header: header(12, 0, None),
        data: vec![FitMessage::Definition(FitDefinitionMessage {
            header: FitMessageHeader {
                compressed_header: false,
                definition: true,
                dev_fields: true,
                local_num: 0,
                time_offset: None,
            },
            data: definition(Endian::Little, 20, vec![field(3, 1, 0x02)]),
        })],
    };
    assert_eq!(fit.write(), Err(FitError::UnsupportedFeature));
}

#[test]
fn the_first_fault_decides() {
    // a record without a definition before a definition with developer fields
    let body = vec![0x05, 0x60, 0, 0, 20, 0, 0];
    assert_eq!(Fit::read(file(12, &body)), Err(FitError::DesynchronizedStream));
    let body = vec![0x60, 0x05];
    assert_eq!(Fit::read(file(12, &body)), Err(FitError::UnsupportedFeature));
}

#[test]
fn a_data_message_without_a_layout_is_not_written() {
    let record = FitMessage::Data(FitDataMessage {
        header: normal(false, 0),
        data: DataMessage {
            message_type: MessageType::Record,
            values: vec![DataField::new(3, Value::U8(1))],
        },
    });
    let alone = Fit { header: header(12, 0, None), data: vec![record.clone()] };
    assert_eq!(alone.write(), Err(FitError::MissingDefinitionForEncode));
    // a definition of another message type in the slot is none of its own
    let other = Fit {
        header: header(12, 0, None),
        data: vec![
            FitMessage::Definition(FitDefinitionMessage {
                header: normal(true, 0),
                data: definition(Endian::Little, 19, vec![field(3, 1, 0x02)]),
            }),
            record.clone(),
        ],
    };
    assert_eq!(other.write(), Err(FitError::MissingDefinitionForEncode));
}

#[test]
fn a_data_message_is_written_in_a_layout_of_its_message_type() {
    let record = |slot: u8, heart_rate: u8| {
        FitMessage::Data(FitDataMessage {
            header: normal(false, slot),
            data: DataMessage {
                message_type: MessageType::Record,
                values: vec![DataField::new(3, Value::U8(heart_rate))],
            },
        })
    };
    let define = |slot: u8, global: u16| {
        FitMessage::Definition(FitDefinitionMessage {
            header: normal(true, slot),
            data: definition(Endian::Little, global, vec![field(3, 1, 0x02)]),
        })
    };
    // its own slot holds laps, slots 4 and 7 hold records: it is written
    // under a header that names slot 4
    let fit = Fit {
        header: header(12, 0, None),
        data: vec![define(7, 20), define(4, 20), define(0, 19), record(0, 9), record(7, 8)],
    };
    let out = fit.write().unwrap();
    let mut expected = vec![0x47, 0, 0, 20, 0, 1, 3, 1, 2];
    expected.extend([0x44, 0, 0, 20, 0, 1, 3, 1, 2]);
    expected.extend([0x40, 0, 0, 19, 0, 1, 3, 1, 2]);
    expected.extend([0x04, 9, 0x07, 8]);
    assert_eq!(out, file(12, &expected));
    let back = Fit::read(out).unwrap();
    assert_eq!(back.data[3], record(4, 9));
    assert_eq!(back.data[4], record(7, 8));
    // a compressed header can name the first four slots only
    let compressed = |slot: u8| {
        FitMessage::Data(FitDataMessage {
            header: FitMessageHeader {
                compressed_header: true,
                definition: false,
                dev_fields: false,
                local_num: slot,
                time_offset: Some(3),
            },
            data: DataMessage {
                message_type: MessageType::Record,
                values: vec![DataField::new(3, Value::U8(1))],
            },
        })
    };
    let far = Fit { header: header(12, 0, None), data: vec![define(4, 20), compressed(0)] };
    assert_eq!(far.write(), Err(FitError::MissingDefinitionForEncode));
    let near = Fit { header: header(12, 0, None), data: vec![define(2, 20), compressed(0)] };
    let out = near.write().unwrap();
    assert_eq!(&out[21..23], &[0xC3, 1]);
}

#[test]
fn structures_without_a_wire_form_are_not_written() {
    let def = |h: FitMessageHeader| Fit {
        header: header(12, 0, None),
        data: vec![FitMessage::Definition(FitDefinitionMessage {
            header: h,
            data: definition(Endian::Little, 20, vec![field(3, 1, 0x02)]),
        })],
    };
    assert!(def(normal(true, 15)).write().is_ok());
    assert_eq!(def(normal(true, 16)).write(), Err(FitError::InvalidArgument));
    assert_eq!(def(normal(false, 0)).write(), Err(FitError::InvalidArgument));
    let mut miscounted = def(normal(true, 0));
    if let FitMessage::Definition(d) = &mut miscounted.data[0] {
        d.data.num_fields = 4;
    }
    assert_eq!(miscounted.write(), Err(FitError::InvalidArgument));
    let flagged = Fit {
        header: header(12, 0, None),
        data: vec![
            FitMessage::Definition(FitDefinitionMessage {
                header: normal(true, 0),
                data: definition(Endian::Little, 20, vec![field(3, 1, 0x02)]),
            }),
            FitMessage::Data(FitDataMessage {
                header: normal(true, 0),
                data: DataMessage { message_type: MessageType::Record, values: vec![] },
            }),
        ],
    };
    assert_eq!(flagged.write(), Err(FitError::InvalidArgument));
}

#[test]
fn the_registry_keeps_the_latest_definition_of_a_slot() {
    let mut r = DefinitionRegistry::new();
    for slot in 0..16u8 {
        assert!(r.lookup(slot).is_none());
    }
    let first = definition(Endian::Little, 20, vec![field(3, 1, 0x02)]);
    let second = definition(Endian::Big, 19, vec![]);
    r.install(2, first.clone());
    assert_eq!(r.lookup(2), Some(&first));
    assert!(r.lookup(3).is_none());
    r.install(2, second.clone());
    assert_eq!(r.lookup(2), Some(&second));
    r.install(15, first.clone());
    assert_eq!(r.lookup(15), Some(&first));
    assert_eq!(r.lookup(2), Some(&second));
}

#[test]
fn strings_and_arrays_in_records() {
    // a file_id like message of a manufacturer range type with a text and a
    // byte array
    let mut body = vec![0x40, 0, 0, 0x00, 0xFF, 2, 8, 4, 0x07, 9, 3, 0x0D];
    body.extend([0x00, b'a', b'b', 0, 0, 1, 0xFF, 3]);
    let bytes = file(12, &body);
    let fit = Fit::read(bytes).unwrap();
    match &fit.data[1] {
        FitMessage::Data(m) => {
            assert_eq!(m.data.message_type, MessageType::MfgRange);
            assert_eq!(
                m.data.values,
                vec![
                    DataField::new(8, Value::String(String::from("ab\0\0"))),
                    DataField::new(9, Value::ArrU8(vec![1, 3])),
                ]
            );
        }
        _ => panic!("not a data message"),
    }
    let out = fit.write().unwrap();
    let mut expected = vec![0x40, 0, 0, 0x00, 0xFF, 2, 8, 4, 0x07, 9, 3, 0x0D];
    expected.extend([0x00, b'a', b'b', 0, 0, 1, 3, 0xFF]);
    assert_eq!(out, file(12, &expected));
    assert_eq!(Fit::read(out).unwrap().data, fit.data);
}

#[test]
fn names_in_records() {
    // session: sport (5) and sub_sport (6), then a 16-bit field
    let mut body = vec![0x40, 0, 0, 18, 0, 2, 5, 1, 0x00, 9, 4, 0x86];
    body.extend([0x00, 2, 0x40, 0x0D, 0x03, 0x00]);
    let bytes = file(12, &body);
    let fit = Fit::read(bytes.clone()).unwrap();
    match &fit.data[1] {
        FitMessage::Data(m) => assert_eq!(
            m.data.values,
            vec![DataField::new(5, Value::Enum("cycling")), DataField::new(9, Value::U32(2000))]
        ),
        _ => panic!("not a data message"),
    }
    assert_eq!(fit.get_session().map(|s| s.0), Some(1));
    assert_eq!(fit.write(), Ok(bytes));
}

#[test]
fn a_record_without_a_definition_can_be_passed_over() {
    // the header of a record in slot 5, which nothing defines, then a
    // definition and a record in slot 0
    let mut body = vec![0x05];
    body.extend(record_definition(0));
    body.extend([0x00, 0xE8, 0x03, 0, 0, 150, 0xB8, 0x0B]);
    let bytes = file(12, &body);
    assert_eq!(Fit::read(bytes.clone()), Err(FitError::DesynchronizedStream));
    assert_eq!(
        Fit::read_with(bytes.clone(), DesyncPolicy::Abort),
        Err(FitError::DesynchronizedStream)
    );
    let fit = Fit::read_with(bytes, DesyncPolicy::Skip).unwrap();
    assert_eq!(fit.data.len(), 2);
    assert_eq!(fit.header.data_size, 24);
    // what was passed over is not written
    let out = fit.write().unwrap();
    let mut kept = record_definition(0);
    kept.extend([0x00, 0xE8, 0x03, 0, 0, 150, 0xB8, 0x0B]);
    assert_eq!(out, file(12, &kept));
    let again = Fit::read_with(out, DesyncPolicy::Skip).unwrap();
    assert_eq!(again.data, fit.data);
    assert_eq!(again.header.data_size, 23);
}

#[test]
fn passing_over_ends_with_the_body() {
    let bytes = file(12, &[0x01, 0x02, 0x03]);
    let fit = Fit::read_with(bytes, DesyncPolicy::Skip).unwrap();
    assert!(fit.data.is_empty());
    // other faults are faults under either policy
    assert_eq!(
        Fit::read_with(file(12, &[0x01, 0x60]), DesyncPolicy::Skip),
        Err(FitError::UnsupportedFeature)
    );
    assert_eq!(
        Fit::read_with(file(12, &[0x01, 0x40, 0, 0]), DesyncPolicy::Skip),
        Err(FitError::Truncated)
    );
}

/// A small generator of numbers that are the same in every run.
fn next(state: &mut u64) -> u64 {
    *state = state.wrapping_mul(6364136223846793005).wrapping_add(1442695040888963407);
    *state >> 33
}

#[test]
fn files_of_any_layout_decode_to_the_same_after_writing() {
    // messages of a manufacturer's type, which the profile says nothing of:
    // any base type, any size, any bytes
    let mut state: u64 = 7;
    for round in 0..200 {
        let mut body = Vec::new();
        let mut sizes = [0usize; 16];
        let mut defined = [false; 16];
        let messages = 1 + next(&mut state) % 12;
        for _ in 0..messages {
            let slot = (next(&mut state) % 16) as u8;
            if !defined[slot as usize] || next(&mut state) % 4 == 0 {
                let big = next(&mut state) % 2 == 1;
                let count = (next(&mut state) % 5) as u8;
                body.extend([0x40 | slot, 0, big as u8]);
                if big {
                    body.extend([0xFF, 0x00 + (round % 200) as u8]);
                } else {
                    body.extend([0x00 + (round % 200) as u8, 0xFF]);
                }
                body.push(count);
                let mut total = 0usize;
                for n in 0..count {
                    let base_type = (next(&mut state) % 18) as u8;
                    let size = (next(&mut state) % 10) as u8;
                    let flag = if next(&mut state) % 2 == 1 { 0x80 } else { 0 };
                    body.extend([n, size, base_type | flag]);
                    total += size as usize;
                }
                sizes[slot as usize] = total;
                defined[slot as usize] = true;
            } else {
                body.push(slot);
                for _ in 0..sizes[slot as usize] {
                    // many zeros and 0xFF, to meet the invalid patterns
                    let b = match next(&mut state) % 4 {
                        0 => 0x00,
                        1 => 0xFF,
                        2 => 0x7F,
                        _ => (next(&mut state) % 256) as u8,
                    };
                    body.push(b);
                }
            }
        }
        let first = Fit::read(file(12, &body)).unwrap();
        let written = first.write().unwrap();
        assert_eq!(written.len(), 12 + body.len() + 2, "round {}", round);
        let second = Fit::read(written.clone()).unwrap();
        assert_eq!(second.data, first.data, "round {}", round);
        assert_eq!(second.write().unwrap(), written, "round {}", round);
    }
}

#[test]
fn records_with_whole_scales_decode_to_the_same_after_writing() {
    // position, altitude, heart rate, distance, speed, temperature and time
    // of a record, with any bytes
    let definition = vec![
        0x40, 0, 0, 20, 0, 8, 253, 4, 0x86, 0, 4, 0x85, 1, 4, 0x85, 2, 2, 0x84, 3, 1, 0x02, 5, 4,
        0x86, 6, 2, 0x84, 13, 1, 0x01,
    ];
    let mut state: u64 = 11;
    for round in 0..200 {
        let mut body = definition.clone();
        for _ in 0..5 {
            body.push(0x00);
            for _ in 0..22 {
                let b = match next(&mut state) % 4 {
                    0 => 0x00,
                    1 => 0xFF,
                    _ => (next(&mut state) % 256) as u8,
                };
                body.push(b);
            }
        }
        let first = Fit::read(file(14, &body)).unwrap();
        let written = first.write().unwrap();
        assert_eq!(written.len(), 14 + body.len() + 2);
        let second = Fit::read(written.clone()).unwrap();
        assert_eq!(second.data, first.data, "round {}", round);
        assert_eq!(second.write().unwrap(), written, "round {}", round);
    }
}

#[test]
fn values_that_a_lossy_scale_keeps_come_back() {
    // left_pco of a record has a scale below one, which loses most numbers
    // on the way back; zero and the values that are multiples on both sides
    // it keeps
    let definition = vec![0x40, 0, 0, 20, 0, 1, 69, 1, 0x02];
    let with = |raw: u8| {
        let mut body = definition.clone();
        body.extend([0x00, raw]);
        file(12, &body)
    };
    let first = Fit::read(with(0)).unwrap();
    let written = first.write().unwrap();
    assert_eq!(written, with(0));
    assert_eq!(Fit::read(written).unwrap().data, first.data);
    // 45 reads as 63, which is written as 44, which reads as 61
    let first = Fit::read(with(45)).unwrap();
    match &first.data[1] {
        FitMessage::Data(m) => assert_eq!(m.data.values, vec![DataField::new(69, Value::U8(63))]),
        _ => panic!("not a data message"),
    }
    let written = first.write().unwrap();
    assert_eq!(written, with(44));
    match &Fit::read(written).unwrap().data[1] {
        FitMessage::Data(m) => assert_eq!(m.data.values, vec![DataField::new(69, Value::U8(61))]),
        _ => panic!("not a data message"),
    }
}

#[test]
fn the_header_comes_back_where_it_was_of_the_format() {
    let mut body = record_definition(0);
    body.extend([0x00, 0xE8, 0x03, 0, 0, 150, 0xB8, 0x0B]);
    for size in [12u8, 14] {
        let first = Fit::read(file(size, &body)).unwrap();
        let again = Fit::read(first.write().unwrap()).unwrap();
        assert_eq!(again.header, first.header);
        assert_eq!(again.data, first.data);
    }
    // a first byte that is neither 12 nor 14, and a tag of another format
    let mut odd = file(12, &body);
    odd[0] = 13;
    odd[4] -= 1;
    odd[8] = b'X';
    let first = Fit::read(odd).unwrap();
    assert_eq!(first.header.header_size, 13);
    assert_eq!(first.header.data_type, "XFIT");
    let again = Fit::read(first.write().unwrap()).unwrap();
    assert_eq!(again.header.header_size, 12);
    assert_eq!(again.header.data_type, ".FIT");
    assert_eq!(again.header.protocol_version, first.header.protocol_version);
    assert_eq!(again.header.profile_version, first.header.profile_version);
    assert_eq!(again.data, first.data);
}

#[test]
fn a_name_is_written_in_the_width_of_its_field() {
    // the manufacturer of a file_id message, whose key 260 is 0x0104, in
    // fields of one, two and four bytes
    let with = |size: u8, base_type: u8| Fit {
        header: header(12, 0, None),
        data: vec![
            FitMessage::Definition(FitDefinitionMessage {
                header: normal(true, 0),
                data: definition(Endian::Big, 0, vec![field(1, size, base_type)]),
            }),
            FitMessage::Data(FitDataMessage {
                header: normal(false, 0),
                data: DataMessage {
                    message_type: MessageType::FileId,
                    values: vec![DataField::new(1, Value::Enum("zwift"))],
                },
            }),
        ],
    };
    let record = |fit: Fit| {
        let out = fit.write().unwrap();
        out[22..out.len() - 2].to_vec()
    };
    assert_eq!(record(with(1, 0x00)), vec![0x04]);
    assert_eq!(record(with(2, 0x84)), vec![0x01, 0x04]);
    assert_eq!(record(with(4, 0x86)), vec![0, 0, 0x01, 0x04]);
    assert_eq!(record(with(8, 0x8F)), vec![0, 0, 0, 0, 0, 0, 0x01, 0x04]);
    // a size that is no width of a number has no number to hold the key
    assert_eq!(record(with(3, 0x0D)), vec![0xFF, 0xFF, 0xFF]);
}
