use fit_rust::protocol::data_field::DataField;
use fit_rust::protocol::macros::{aggregate, get_field_value, update_field, MergeRule, Native};
use fit_rust::protocol::message_type::MessageType;
use fit_rust::protocol::value::Value;
use fit_rust::protocol::{
    DataMessage, DefinitionMessage, Endian, FieldDefBaseType, FieldDefinition, FitDataMessage,
    FitDefinitionMessage, FitError, FitHeader, FitMessage, FitMessageHeader,
};
use fit_rust::Fit;

fn normal(definition: bool, slot: u8) -> FitMessageHeader {
    FitMessageHeader {
        compressed_header: false,
        definition,
        dev_fields: false,
        local_num: slot,
        time_offset: None,
    }
}

fn header(data_size: u32) -> FitHeader {
    FitHeader {
        header_size: 12,
        protocol_version: 0x10,
        profile_version: 0x0590,
        data_size,
        data_type: String::from(".FIT"),
        crc: None,
    }
}

fn data(slot: u8, message_type: MessageType, values: Vec<DataField>) -> FitDataMessage {
    FitDataMessage { header: normal(false, slot), data: DataMessage { message_type, values } }
}

fn session(values: Vec<DataField>) -> FitDataMessage {
    data(1, MessageType::Session, values)
}

fn record(heart_rate: u8) -> FitMessage {
    FitMessage::Data(data(0, MessageType::Record, vec![DataField::new(3, Value::U8(heart_rate))]))
}

fn record_definition() -> FitMessage {
    FitMessage::Definition(FitDefinitionMessage {
        header: normal(true, 0),
        data: DefinitionMessage {
            reserved: 0,
            endian: Endian::Little,
            global_message_number: 20,
            num_fields: 1,
            fields: vec![FieldDefinition {
                definition_number: 3,
                size: 1,
                base_type: FieldDefBaseType { val: 2, endian: Endian::Little },
            }],
            dev_num_fields: None,
            dev_fields: None,
        },
    })
}

fn file(data: Vec<FitMessage>) -> Fit {
    Fit { header: header(data.len() as u32), data }
}

fn summary(distance: u32, max_heart_rate: u8, avg_altitude: Value) -> FitMessage {
    FitMessage::Data(session(vec![
        DataField::new(9, Value::U32(distance)),
        DataField::new(17, Value::U8(max_heart_rate)),
        DataField::new(49, avg_altitude),
    ]))
}

#[test]
fn sessions_merge_to_one_summary() {
    let a = file(vec![record_definition(), summary(1000, 150, Value::U16(100)), record(1)]);
    let b = file(vec![summary(2000, 180, Value::U16(120)), record(2)]);
    let c = file(vec![record(3), summary(1500, 165, Value::Absent)]);
    let merged = Fit::merge(vec![a, b, c]).unwrap();
    assert_eq!(
        merged.data,
        vec![
            record_definition(),
            summary(4500, 180, Value::U16(110)),
            record(1),
            record(2),
            record(3),
        ]
    );
    assert_eq!(merged.header, header(3));
}

#[test]
fn the_session_takes_the_place_it_had_in_its_file() {
    let lap = FitMessage::Data(data(2, MessageType::Lap, vec![DataField::new(254, Value::U16(0))]));
    let a = file(vec![record_definition(), lap, record(1), record(2)]);
    let b = file(vec![record_definition(), summary(2000, 180, Value::U16(120)), record(3)]);
    let c = file(vec![record_definition(), record(4), record(5)]);
    let merged = Fit::merge(vec![a, b, c]).unwrap();
    assert_eq!(
        merged.data,
        vec![
            record_definition(),
            summary(2000, 180, Value::U16(120)),
            record(1),
            record(2),
            record(3),
            record(4),
            record(5),
        ]
    );
}

#[test]
fn without_a_session_the_records_are_gathered() {
    let a = file(vec![record_definition(), record(1)]);
    let b = file(vec![record(2), record_definition(), record(3)]);
    let merged = Fit::merge(vec![a, b]).unwrap();
    assert_eq!(merged.data, vec![record_definition(), record(1), record(2), record(3)]);
}

#[test]
fn a_session_past_the_end_of_the_first_file_has_no_place() {
    let lap = || {
        FitMessage::Data(data(2, MessageType::Lap, vec![DataField::new(254, Value::U16(0))]))
    };
    let a = file(vec![record(1)]);
    let b = file(vec![record(2), lap(), lap(), summary(1, 2, Value::Absent)]);
    let merged = Fit::merge(vec![a, b]).unwrap();
    assert_eq!(merged.data, vec![record(1), record(2)]);
    // its place is one of the gathered messages: the last of them here
    let a = file(vec![record(1)]);
    let b = file(vec![record(2), lap(), summary(1, 2, Value::Absent), record(3)]);
    let merged = Fit::merge(vec![a, b]).unwrap();
    assert_eq!(merged.data, vec![record(1), record(2), summary(1, 2, Value::Absent)]);
    // and here the second
    let a = file(vec![record(1)]);
    let b = file(vec![record(2), summary(1, 2, Value::Absent), record(3)]);
    let merged = Fit::merge(vec![a, b]).unwrap();
    assert_eq!(merged.data, vec![record(1), summary(1, 2, Value::Absent), record(3)]);
}

#[test]
fn fewer_than_two_files_do_not_merge() {
    assert_eq!(Fit::merge(vec![]), Err(FitError::InvalidArgument));
    assert_eq!(Fit::merge(vec![file(vec![record(1)])]), Err(FitError::InvalidArgument));
}

#[test]
fn the_first_session_of_a_file() {
    let f = file(vec![
        record_definition(),
        record(1),
        summary(1, 2, Value::Absent),
        summary(3, 4, Value::Absent),
    ]);
    let (index, s) = f.get_session().unwrap();
    assert_eq!(index, 2);
    assert_eq!(FitMessage::Data(s), summary(1, 2, Value::Absent));
    assert_eq!(file(vec![record(1)]).get_session(), None);
}

#[test]
fn every_summary_rule() {
    let fields = |time: u32, b: u8, w: u16, i: i16, l: u32, t: i8| {
        let mut v = Vec::new();
        for n in [253u8, 2] {
            v.push(DataField::new(n, Value::Time(time)));
        }
        for n in [17u8, 19, 64, 16, 18] {
            v.push(DataField::new(n, Value::U8(b)));
        }
        for n in [15u8, 21, 50, 71, 11, 22, 23, 14, 20, 34, 49] {
            v.push(DataField::new(n, Value::U16(w)));
        }
        for n in [55u8, 56, 52, 53, 54, 60, 61] {
            v.push(DataField::new(n, Value::I16(i)));
        }
        for n in [7u8, 8, 9, 59] {
            v.push(DataField::new(n, Value::U32(l)));
        }
        for n in [58u8, 57] {
            v.push(DataField::new(n, Value::I8(t)));
        }
        v.push(DataField::new(5, Value::Enum("cycling")));
        v
    };
    let a = file(vec![FitMessage::Data(session(fields(1000, 140, 300, -50, 100_000, -5)))]);
    let b = file(vec![FitMessage::Data(session(fields(900, 150, 500, 20, 200_000, 10)))]);
    let c = file(vec![FitMessage::Data(session(fields(1100, 100, 100, -31, 50_000, -6)))]);
    let merged = Fit::merge(vec![a, b, c]).unwrap();
    let values = match &merged.data[0] {
        FitMessage::Data(m) => m.data.values.clone(),
        _ => panic!("not a data message"),
    };
    let get = |n: u8| get_field_value(n, &values).unwrap();
    // max
    assert_eq!(get(253), Value::Time(1100));
    assert_eq!(get(15), Value::U16(500));
    assert_eq!(get(21), Value::U16(500));
    assert_eq!(get(50), Value::U16(500));
    assert_eq!(get(55), Value::I16(20));
    assert_eq!(get(56), Value::I16(20));
    assert_eq!(get(17), Value::U8(150));
    assert_eq!(get(19), Value::U8(150));
    assert_eq!(get(58), Value::I8(10));
    // min
    assert_eq!(get(2), Value::Time(900));
    assert_eq!(get(71), Value::U16(100));
    assert_eq!(get(64), Value::U8(100));
    // sum
    for n in [7u8, 8, 9, 59] {
        assert_eq!(get(n), Value::U32(350_000));
    }
    for n in [11u8, 22, 23] {
        assert_eq!(get(n), Value::U16(900));
    }
    // avg
    for n in [14u8, 20, 34, 49] {
        assert_eq!(get(n), Value::U16(300));
    }
    for n in [52u8, 53, 54, 60, 61] {
        // -61 / 3, towards zero
        assert_eq!(get(n), Value::I16(-20));
    }
    assert_eq!(get(16), Value::U8(130));
    assert_eq!(get(18), Value::U8(130));
    // -1 / 3, towards zero
    assert_eq!(get(57), Value::I8(0));
    // what no rule names stays
    assert_eq!(get(5), Value::Enum("cycling"));
}

#[test]
fn aggregates_over_no_values() {
    let sessions = vec![session(vec![DataField::new(17, Value::Absent)]), session(vec![])];
    assert_eq!(aggregate(MergeRule::Max, Native::U8, 17, &sessions), Some(Value::U8(0)));
    assert_eq!(aggregate(MergeRule::Max, Native::I16, 17, &sessions), Some(Value::I16(i16::MIN)));
    assert_eq!(aggregate(MergeRule::Max, Native::I8, 17, &sessions), Some(Value::I8(i8::MIN)));
    assert_eq!(aggregate(MergeRule::Min, Native::U8, 17, &sessions), Some(Value::U8(255)));
    assert_eq!(aggregate(MergeRule::Min, Native::Time, 17, &sessions), Some(Value::Time(u32::MAX)));
    assert_eq!(aggregate(MergeRule::Min, Native::U16, 17, &sessions), Some(Value::U16(u16::MAX)));
    assert_eq!(aggregate(MergeRule::Sum, Native::U32, 17, &sessions), Some(Value::U32(0)));
    assert_eq!(aggregate(MergeRule::Avg, Native::U8, 17, &sessions), None);
    assert_eq!(aggregate(MergeRule::Avg, Native::U8, 17, &Vec::new()), None);
}

#[test]
fn aggregates_count_values_of_their_variant_only() {
    let sessions = vec![
        session(vec![DataField::new(7, Value::U32(5))]),
        session(vec![DataField::new(7, Value::U16(7))]),
        session(vec![DataField::new(7, Value::Time(9))]),
        session(vec![DataField::new(8, Value::U32(100)), DataField::new(7, Value::U32(6))]),
    ];
    assert_eq!(aggregate(MergeRule::Sum, Native::U32, 7, &sessions), Some(Value::U32(11)));
    assert_eq!(aggregate(MergeRule::Max, Native::U32, 7, &sessions), Some(Value::U32(6)));
    assert_eq!(aggregate(MergeRule::Max, Native::Time, 7, &sessions), Some(Value::Time(9)));
    assert_eq!(aggregate(MergeRule::Min, Native::U16, 7, &sessions), Some(Value::U16(7)));
    // an average counts values of 8 and 16 bits, whatever it is written as
    assert_eq!(aggregate(MergeRule::Avg, Native::U16, 7, &sessions), Some(Value::U16(7)));
    assert_eq!(aggregate(MergeRule::Avg, Native::I8, 7, &sessions), Some(Value::I8(7)));
}

#[test]
fn sums_wrap_at_the_width_of_the_field() {
    let sessions = vec![
        session(vec![DataField::new(7, Value::U32(u32::MAX))]),
        session(vec![DataField::new(7, Value::U32(3))]),
    ];
    assert_eq!(aggregate(MergeRule::Sum, Native::U32, 7, &sessions), Some(Value::U32(2)));
    let small = vec![
        session(vec![DataField::new(11, Value::U16(65535))]),
        session(vec![DataField::new(11, Value::U16(65535))]),
        session(vec![DataField::new(11, Value::U16(4))]),
    ];
    assert_eq!(aggregate(MergeRule::Sum, Native::U16, 11, &small), Some(Value::U16(2)));
    // the average of 16-bit values narrowed to 8 bits: 131074 / 3 is 43691,
    // which is 0xAAAB
    assert_eq!(aggregate(MergeRule::Avg, Native::U8, 11, &small), Some(Value::U8(0xAB)));
    assert_eq!(aggregate(MergeRule::Avg, Native::U16, 11, &small), Some(Value::U16(43691)));
}

#[test]
fn fields_by_number() {
    let mut values = vec![
        DataField::new(3, Value::U8(1)),
        DataField::new(4, Value::U8(2)),
        DataField::new(3, Value::U8(3)),
    ];
    assert_eq!(get_field_value(3, &values), Some(Value::U8(1)));
    assert_eq!(get_field_value(4, &values), Some(Value::U8(2)));
    assert_eq!(get_field_value(5, &values), None);
    update_field(&mut values, 3, Value::U16(9));
    update_field(&mut values, 5, Value::U16(9));
    assert_eq!(
        values,
        vec![
            DataField::new(3, Value::U16(9)),
            DataField::new(4, Value::U8(2)),
            DataField::new(3, Value::U8(3)),
        ]
    );
}

#[test]
fn a_merged_file_is_written_and_read_again() {
    let sdef = FitMessage::Definition(FitDefinitionMessage {
        header: normal(true, 1),
        data: DefinitionMessage {
            reserved: 0,
            endian: Endian::Little,
            global_message_number: 18,
            num_fields: 3,
            fields: vec![
                FieldDefinition {
                    definition_number: 9,
                    size: 4,
                    base_type: FieldDefBaseType { val: 6, endian: Endian::Little },
                },
                FieldDefinition {
                    definition_number: 17,
                    size: 1,
                    base_type: FieldDefBaseType { val: 2, endian: Endian::Little },
                },
                FieldDefinition {
                    definition_number: 49,
                    size: 2,
                    base_type: FieldDefBaseType { val: 4, endian: Endian::Little },
                },
            ],
            dev_num_fields: None,
            dev_fields: None,
        },
    });
    let a = file(vec![
        record_definition(),
        sdef.clone(),
        summary(1000, 150, Value::U16(100)),
        record(1),
    ]);
    let b = file(vec![record_definition(), sdef, summary(2000, 180, Value::U16(120)), record(2)]);
    let merged = Fit::merge(vec![a, b]).unwrap();
    let bytes = merged.write().unwrap();
    let back = Fit::read(bytes).unwrap();
    assert_eq!(back.data, merged.data);
    assert_eq!(back.data[2], summary(3000, 180, Value::U16(110)));
    assert_eq!(back.data.len(), 5);
}
