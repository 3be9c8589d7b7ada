use fit_rust::protocol::data_field::DataField;
use fit_rust::protocol::get_field_offset::get_field_offset_fn;
use fit_rust::protocol::get_field_scale::get_field_scale_fn;
use fit_rust::protocol::get_field_string_value::{
    get_field_key_from_string, get_field_string_value, FieldType,
};
use fit_rust::protocol::get_field_type::get_field_type_fn;
use fit_rust::protocol::message_type::{parse_message_type, write_message_type, MessageType};
use fit_rust::protocol::value::{Scale, Value};
use fit_rust::protocol::{Endian, FieldDefBaseType, FieldDefinition};

fn read(m: MessageType, field_num: u8, raw: Value) -> Value {
    let mut f = DataField::new(field_num, raw);
    DataField::process_read_value(&mut f, m);
    assert_eq!(f.field_num, field_num);
    f.value
}

fn write(m: MessageType, field_num: u8, v: Value, size: Option<u8>) -> Value {
    let f = DataField::new(field_num, v);
    let def = size.map(|s| FieldDefinition {
        definition_number: field_num,
        size: s,
        base_type: FieldDefBaseType { val: 2, endian: Endian::Little },
    });
    DataField::process_write_value(&f, m, def.as_ref())
}

#[test]
fn profile_lookups() {
    assert_eq!(get_field_offset_fn(MessageType::Session, 71), Some(500));
    assert_eq!(get_field_offset_fn(MessageType::Record, 2), Some(500));
    assert_eq!(get_field_offset_fn(MessageType::BikeProfile, 19), Some(-110));
    assert_eq!(get_field_offset_fn(MessageType::Record, 3), None);
    assert_eq!(get_field_offset_fn(MessageType::Unknown, 2), None);
    assert_eq!(get_field_scale_fn(MessageType::Workout, 14), Some(Scale { num: 100, den: 1 }));
    assert_eq!(get_field_scale_fn(MessageType::Record, 2), Some(Scale { num: 5, den: 1 }));
    assert_eq!(
        get_field_scale_fn(MessageType::Session, 116),
        Some(Scale { num: 7111111, den: 10000000 })
    );
    assert_eq!(get_field_scale_fn(MessageType::Record, 3), None);
    assert_eq!(get_field_scale_fn(MessageType::MfgRange, 0), None);
    assert_eq!(get_field_type_fn(MessageType::Record, 253), FieldType::Timestamp);
    assert_eq!(get_field_type_fn(MessageType::Record, 0), FieldType::Coordinates);
    assert_eq!(get_field_type_fn(MessageType::Session, 5), FieldType::Sport);
    assert_eq!(get_field_type_fn(MessageType::Session, 2), FieldType::DateTime);
    assert_eq!(get_field_type_fn(MessageType::Session, 250), FieldType::Unknown);
    assert_eq!(get_field_type_fn(MessageType::Unknown, 0), FieldType::Unknown);
    assert_eq!(Scale::whole(5), Scale { num: 5, den: 1 });
}

#[test]
fn message_types_by_number() {
    assert_eq!(MessageType::from_primitive(18), Some(MessageType::Session));
    assert_eq!(MessageType::from_primitive(20), Some(MessageType::Record));
    assert_eq!(MessageType::from_primitive(225), Some(MessageType::Sets));
    assert_eq!(MessageType::from_primitive(11), None);
    assert_eq!(MessageType::from_primitive(0xFF00), Some(MessageType::MfgRange));
    assert_eq!(MessageType::from_primitive(0xFFFF), Some(MessageType::Unknown));
    assert_eq!(MessageType::Session.to_primitive(), 18);
    assert_eq!(MessageType::DiveApneaAlarm.to_primitive(), 393);
    assert_eq!(parse_message_type(0), MessageType::FileId);
    assert_eq!(parse_message_type(11), MessageType::Unknown);
    assert_eq!(parse_message_type(0xFF00), MessageType::MfgRange);
    assert_eq!(parse_message_type(0xFF42), MessageType::MfgRange);
    assert_eq!(parse_message_type(0xFFFE), MessageType::MfgRange);
    assert_eq!(parse_message_type(0xFFFF), MessageType::Unknown);
    assert_eq!(parse_message_type(0xFEFF), MessageType::Unknown);
}

#[test]
fn message_type_is_written_as_its_number() {
    let mut out = Vec::new();
    write_message_type(&MessageType::DiveApneaAlarm, &mut out, Endian::Little);
    write_message_type(&MessageType::DiveApneaAlarm, &mut out, Endian::Big);
    assert_eq!(out, vec![0x89, 0x01, 0x01, 0x89]);
}

#[test]
fn timestamps_move_to_the_unix_epoch() {
    assert_eq!(read(MessageType::Record, 253, Value::U32(1000)), Value::Time(631_066_600));
    assert_eq!(read(MessageType::Session, 2, Value::U32(0)), Value::Time(631_065_600));
    assert_eq!(write(MessageType::Record, 253, Value::Time(631_066_600), Some(4)), Value::U32(1000));
    // 32-bit arithmetic wraps
    assert_eq!(
        read(MessageType::Record, 253, Value::U32(0xFFFF_FFFE)),
        Value::Time(631_065_598)
    );
    assert_eq!(
        write(MessageType::Record, 253, Value::Time(631_065_598), Some(4)),
        Value::U32(0xFFFF_FFFE)
    );
    // what is no count of seconds stays
    assert_eq!(read(MessageType::Record, 253, Value::U16(5)), Value::U16(5));
    assert_eq!(read(MessageType::Record, 253, Value::Absent), Value::Absent);
    assert_eq!(write(MessageType::Record, 253, Value::U16(5), Some(2)), Value::U16(5));
}

#[test]
fn local_timestamps_carry_an_hour() {
    // scheduled_time of the schedule message
    assert_eq!(get_field_type_fn(MessageType::Schedule, 6), FieldType::LocalDateTime);
    assert_eq!(read(MessageType::Schedule, 6, Value::U32(3600)), Value::Time(631_065_600));
    assert_eq!(read(MessageType::Schedule, 6, Value::U32(0)), Value::Time(631_062_000));
    assert_eq!(write(MessageType::Schedule, 6, Value::Time(631_062_000), Some(4)), Value::U32(0));
    assert_eq!(write(MessageType::Schedule, 6, Value::Time(0), Some(4)), Value::U32(3_663_905_296));
    // time_created of the same message is no local time
    assert_eq!(get_field_type_fn(MessageType::Schedule, 3), FieldType::DateTime);
    assert_eq!(read(MessageType::Schedule, 3, Value::U32(3600)), Value::Time(631_069_200));
}

#[test]
fn scale_then_offset() {
    // altitude: scale 5, offset 500
    assert_eq!(read(MessageType::Record, 2, Value::U16(3000)), Value::U16(100));
    assert_eq!(read(MessageType::Record, 2, Value::U16(2500)), Value::U16(0));
    assert_eq!(read(MessageType::Record, 2, Value::U16(3004)), Value::U16(100));
    // below the offset the 16-bit arithmetic wraps
    assert_eq!(read(MessageType::Record, 2, Value::U16(100)), Value::U16(65056));
    assert_eq!(write(MessageType::Record, 2, Value::U16(100), Some(2)), Value::U16(3000));
    assert_eq!(write(MessageType::Record, 2, Value::U16(65056), Some(2)), Value::U16(100));
    // speed: scale 1000, no offset
    assert_eq!(read(MessageType::Record, 6, Value::U16(5999)), Value::U16(5));
    assert_eq!(write(MessageType::Record, 6, Value::U16(5), Some(2)), Value::U16(5000));
    // a product past the width stops at the end of the range
    assert_eq!(write(MessageType::Record, 6, Value::U16(66), Some(2)), Value::U16(65535));
    // absent stays absent
    assert_eq!(read(MessageType::Record, 2, Value::Absent), Value::Absent);
    assert_eq!(write(MessageType::Record, 2, Value::Absent, Some(2)), Value::Absent);
}

#[test]
fn kinds_without_scale_rule_keep_the_number() {
    // grade of a record is a signed 16-bit kind: its scale does not apply
    assert_eq!(get_field_type_fn(MessageType::Record, 9), FieldType::Sint16);
    assert_eq!(read(MessageType::Record, 9, Value::I16(-250)), Value::I16(-250));
    assert_eq!(write(MessageType::Record, 9, Value::I16(-250), Some(2)), Value::I16(-250));
    // a field that the profile does not name
    assert_eq!(read(MessageType::Record, 200, Value::U8(7)), Value::U8(7));
    assert_eq!(write(MessageType::Record, 200, Value::U8(7), Some(1)), Value::U8(7));
    // coordinates stay in semicircles
    assert_eq!(read(MessageType::Record, 0, Value::I32(495_280_430)), Value::I32(495_280_430));
    assert_eq!(write(MessageType::Record, 0, Value::I32(-5), Some(4)), Value::I32(-5));
}

#[test]
fn value_scaling() {
    let mut v = Value::U8(200);
    v.scale(Scale { num: 7111111, den: 10000000 });
    // 200 / 0.7111111 is 281.25: past the width, so the end of the range
    assert_eq!(v, Value::U8(255));
    let mut w = Value::U8(100);
    w.scale(Scale { num: 7111111, den: 10000000 });
    assert_eq!(w, Value::U8(140));
    w.rescale(Scale { num: 7111111, den: 10000000 });
    assert_eq!(w, Value::U8(99));
    let mut n = Value::I16(-1999);
    n.scale(Scale::whole(1000));
    assert_eq!(n, Value::I16(-1));
    n.rescale(Scale::whole(1000));
    assert_eq!(n, Value::I16(-1000));
    let mut i = Value::I32(-7);
    i.scale(Scale::whole(2));
    assert_eq!(i, Value::I32(-3));
    let mut u = Value::U32(4_000_000_000);
    u.rescale(Scale::whole(2));
    assert_eq!(u, Value::U32(u32::MAX));
    let mut s = Value::I8(-100);
    s.rescale(Scale::whole(2));
    assert_eq!(s, Value::I8(-128));
    // a scale with a zero part changes nothing
    let mut z = Value::U16(9);
    z.scale(Scale { num: 0, den: 1 });
    z.rescale(Scale { num: 1, den: 0 });
    assert_eq!(z, Value::U16(9));
    // other variants are not numbers to scale
    let mut t = Value::Time(9);
    t.scale(Scale::whole(3));
    assert_eq!(t, Value::Time(9));
    let mut l = Value::U64(9);
    l.scale(Scale::whole(3));
    assert_eq!(l, Value::U64(9));
}

#[test]
fn value_offsets_wrap() {
    let mut v = Value::U8(10);
    v.offset(500);
    // 10 - 500 = -490 = 22 modulo 256
    assert_eq!(v, Value::U8(22));
    v.reoffset(500);
    assert_eq!(v, Value::U8(10));
    let mut i = Value::I8(-128);
    i.offset(1);
    assert_eq!(i, Value::I8(127));
    let mut w = Value::U16(0);
    w.offset(-110);
    assert_eq!(w, Value::U16(110));
    let mut x = Value::I16(i16::MIN);
    x.offset(i16::MIN);
    assert_eq!(x, Value::I16(0));
    let mut u = Value::U32(0);
    u.offset(1);
    assert_eq!(u, Value::U32(u32::MAX));
    let mut n = Value::I32(i32::MAX);
    n.reoffset(1);
    assert_eq!(n, Value::I32(i32::MIN));
    let mut a = Value::Absent;
    a.offset(5);
    assert_eq!(a, Value::Absent);
    assert!(a.is_absent());
    assert!(!n.is_absent());
}

#[test]
fn scale_and_offset_go_there_and_back() {
    // with a whole scale the way back rounds down to a multiple of it
    for raw in [0u16, 1, 4, 5, 2499, 2500, 2501, 3000, 65534] {
        let there = read(MessageType::Record, 2, Value::U16(raw));
        let back = write(MessageType::Record, 2, there, Some(2));
        assert_eq!(back, Value::U16(raw - raw % 5));
    }
    // scale 2 loses at most one unit
    assert_eq!(get_field_scale_fn(MessageType::Record, 43), Some(Scale { num: 2, den: 1 }));
    for raw in [0u8, 1, 2, 3, 200, 253, 254] {
        let there = read(MessageType::Record, 43, Value::U8(raw));
        let back = write(MessageType::Record, 43, there, Some(1));
        assert_eq!(back, Value::U8(raw - raw % 2));
    }
    // a scale below one loses at most one unit where the quotient fits
    for raw in [0u8, 1, 2, 3, 50, 100, 181] {
        let there = read(MessageType::Record, 69, Value::U8(raw));
        let back = write(MessageType::Record, 69, there, Some(1));
        match back {
            Value::U8(b) => assert!(b <= raw && raw - b <= 1, "raw {} back {}", raw, b),
            _ => panic!("not a byte"),
        }
    }
}

#[test]
fn enumerated_values_get_their_names() {
    assert_eq!(read(MessageType::Session, 5, Value::U8(2)), Value::Enum("cycling"));
    assert_eq!(read(MessageType::Session, 0, Value::U8(9)), Value::Enum("lap"));
    assert_eq!(read(MessageType::Session, 1, Value::U8(1)), Value::Enum("stop"));
    assert_eq!(read(MessageType::FileId, 1, Value::U16(1)), Value::Enum("garmin"));
    assert_eq!(read(MessageType::FileId, 1, Value::U16(260)), Value::Enum("zwift"));
    // a value without a name stays a number
    assert_eq!(read(MessageType::Session, 5, Value::U8(200)), Value::U8(200));
    assert_eq!(read(MessageType::FileId, 1, Value::U16(60000)), Value::U16(60000));
    // only values of 8 and 16 bits are looked up
    assert_eq!(read(MessageType::Session, 5, Value::U32(2)), Value::U32(2));
    assert_eq!(read(MessageType::Session, 5, Value::Absent), Value::Absent);
}

#[test]
fn names_go_back_to_numbers_of_the_field_size() {
    assert_eq!(write(MessageType::Session, 5, Value::Enum("cycling"), Some(1)), Value::U8(2));
    assert_eq!(write(MessageType::Session, 5, Value::Enum("cycling"), Some(2)), Value::U16(2));
    assert_eq!(write(MessageType::Session, 5, Value::Enum("cycling"), Some(4)), Value::U32(2));
    assert_eq!(write(MessageType::Session, 5, Value::Enum("cycling"), Some(8)), Value::U64(2));
    assert_eq!(write(MessageType::FileId, 1, Value::Enum("zwift"), Some(2)), Value::U16(260));
    // a key that is wider than the field is cut to the field's width: 260
    // is 0x104
    assert_eq!(write(MessageType::FileId, 1, Value::Enum("zwift"), Some(1)), Value::U8(4));
    assert_eq!(write(MessageType::FileId, 1, Value::Enum("zwift"), Some(4)), Value::U32(260));
    assert_eq!(write(MessageType::FileId, 1, Value::Enum("zwift"), Some(8)), Value::U64(260));
    // a size that is no width, no layout, no such name: the name stays
    assert_eq!(write(MessageType::Session, 5, Value::Enum("cycling"), Some(3)), Value::Enum("cycling"));
    assert_eq!(write(MessageType::Session, 5, Value::Enum("cycling"), None), Value::Enum("cycling"));
    assert_eq!(write(MessageType::Session, 5, Value::Enum("curling"), Some(1)), Value::Enum("curling"));
    // numbers pass
    assert_eq!(write(MessageType::Session, 5, Value::U8(200), Some(1)), Value::U8(200));
}

#[test]
fn names_and_keys() {
    assert_eq!(get_field_string_value(FieldType::Sport, 0), Some("generic"));
    assert_eq!(get_field_string_value(FieldType::Sport, 1), Some("running"));
    assert_eq!(get_field_string_value(FieldType::Sport, 254), Some("all"));
    assert_eq!(get_field_string_value(FieldType::Sport, 100), None);
    assert_eq!(get_field_string_value(FieldType::Sport, 100_000), None);
    assert_eq!(get_field_string_value(FieldType::Uint8, 0), None);
    assert_eq!(get_field_string_value(FieldType::Gender, 1), Some("male"));
    assert_eq!(get_field_key_from_string(FieldType::Sport, "running"), Some(1));
    assert_eq!(get_field_key_from_string(FieldType::Sport, "all"), Some(254));
    assert_eq!(get_field_key_from_string(FieldType::Sport, "male"), None);
    assert_eq!(get_field_key_from_string(FieldType::Gender, "male"), Some(1));
    assert_eq!(get_field_key_from_string(FieldType::Manufacturer, "coros"), Some(294));
    assert_eq!(get_field_key_from_string(FieldType::Uint8, "running"), None);
    assert_eq!(get_field_key_from_string(FieldType::Sport, ""), None);
}

#[test]
fn every_name_goes_back_to_its_key() {
    let kinds = [
        FieldType::Activity,
        FieldType::ActivityType,
        FieldType::BatteryStatus,
        FieldType::Bool,
        FieldType::DateMode,
        FieldType::DayOfWeek,
        FieldType::DisplayHeart,
        FieldType::DisplayMeasure,
        FieldType::DisplayPower,
        FieldType::Event,
        FieldType::EventType,
        FieldType::File,
        FieldType::Gender,
        FieldType::HrZoneCalc,
        FieldType::Intensity,
        FieldType::LapTrigger,
        FieldType::LengthType,
        FieldType::Manufacturer,
        FieldType::PwrZoneCalc,
        FieldType::SessionTrigger,
        FieldType::Side,
        FieldType::Sport,
        FieldType::SwimStroke,
        FieldType::Switch,
        FieldType::TimeMode,
    ];
    let mut named = 0;
    for kind in kinds {
        for k in 0..400usize {
            if let Some(name) = get_field_string_value(kind, k) {
                named += 1;
                assert_eq!(get_field_key_from_string(kind, name), Some(k));
            }
        }
    }
    assert_eq!(named, 210);
}

#[test]
fn values_give_their_numbers() {
    assert_eq!(Value::U8(1).to_u8(), Some(1));
    assert_eq!(Value::I8(-1).to_i8(), Some(-1));
    assert_eq!(Value::U16(2).to_u16(), Some(2));
    assert_eq!(Value::I16(-2).to_i16(), Some(-2));
    assert_eq!(Value::U32(3).to_u32(), Some(3));
    assert_eq!(Value::Time(4).to_u32(), Some(4));
    assert_eq!(Value::I32(-3).to_i32(), Some(-3));
    assert_eq!(Value::Enum("lap").to_name(), Some("lap"));
    assert_eq!(Value::U16(1).to_u8(), None);
    assert_eq!(Value::U8(1).to_i8(), None);
    assert_eq!(Value::Absent.to_u16(), None);
    assert_eq!(Value::U16(1).to_i16(), None);
    assert_eq!(Value::I32(1).to_u32(), None);
    assert_eq!(Value::U32(1).to_i32(), None);
    assert_eq!(Value::String(String::from("lap")).to_name(), None);
    let text = Value::String(String::from("lap"));
    assert_eq!(text.clone_value(), text);
    let array = Value::ArrU16(vec![1, 2]);
    assert_eq!(array.clone_value(), array);
}
