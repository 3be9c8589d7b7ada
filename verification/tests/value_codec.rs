use fit_rust::protocol::data_field::{base_invalid, base_width, write_value, DataField};
use fit_rust::protocol::io::ByteCursor;
use fit_rust::protocol::value::Value;
use fit_rust::protocol::{Endian, FieldDefBaseType, FieldDefinition};

fn decode(base_type: u8, size: u8, endian: Endian, bytes: &[u8]) -> Value {
    let mut c = ByteCursor::new(bytes.to_vec());
    let v = DataField::read_next_field(size, base_type, &mut c, endian);
    assert_eq!(c.position(), size as usize);
    v
}

fn layout(base_type: u8, size: u8) -> FieldDefinition {
    FieldDefinition {
        definition_number: 0,
        size,
        base_type: FieldDefBaseType { val: base_type, endian: Endian::Little },
    }
}

fn encode(v: &Value, base_type: u8, size: u8, endian: Endian) -> Vec<u8> {
    let mut out = Vec::new();
    write_value(&mut out, v, &layout(base_type, size), endian);
    out
}

#[test]
fn widths_of_the_base_types() {
    let expected: [(u8, u8); 18] = [
        (0, 1),
        (1, 1),
        (2, 1),
        (3, 2),
        (4, 2),
        (5, 4),
        (6, 4),
        (7, 0),
        (8, 4),
        (9, 8),
        (10, 1),
        (11, 2),
        (12, 4),
        (13, 1),
        (14, 8),
        (15, 8),
        (16, 8),
        (17, 0),
    ];
    for (t, w) in expected {
        assert_eq!(base_width(t), w, "base type {}", t);
    }
}

#[test]
fn invalid_patterns_of_the_base_types() {
    assert_eq!(base_invalid(0), 0xFF);
    assert_eq!(base_invalid(1), 0x7F);
    assert_eq!(base_invalid(2), 0xFF);
    assert_eq!(base_invalid(3), 0x7FFF);
    assert_eq!(base_invalid(4), 0xFFFF);
    assert_eq!(base_invalid(5), 0x7FFF_FFFF);
    assert_eq!(base_invalid(6), 0xFFFF_FFFF);
    assert_eq!(base_invalid(8), 0xFFFF_FFFF);
    assert_eq!(base_invalid(9), 0xFFFF_FFFF_FFFF_FFFF);
    assert_eq!(base_invalid(10), 0);
    assert_eq!(base_invalid(11), 0);
    assert_eq!(base_invalid(12), 0);
    assert_eq!(base_invalid(13), 0xFF);
    assert_eq!(base_invalid(14), 0x7FFF_FFFF_FFFF_FFFF);
    assert_eq!(base_invalid(15), 0xFFFF_FFFF_FFFF_FFFF);
    assert_eq!(base_invalid(16), 0);
}

#[test]
fn single_bytes() {
    assert_eq!(decode(0, 1, Endian::Little, &[3]), Value::U8(3));
    assert_eq!(decode(2, 1, Endian::Little, &[0x7B]), Value::U8(123));
    assert_eq!(decode(13, 1, Endian::Little, &[0]), Value::U8(0));
    assert_eq!(decode(10, 1, Endian::Little, &[5]), Value::U8(5));
    assert_eq!(decode(1, 1, Endian::Little, &[0x80]), Value::I8(-128));
    assert_eq!(decode(1, 1, Endian::Little, &[0xFF]), Value::I8(-1));
}

#[test]
fn sixteen_bits() {
    assert_eq!(decode(4, 2, Endian::Little, &[0x34, 0x12]), Value::U16(0x1234));
    assert_eq!(decode(4, 2, Endian::Big, &[0x34, 0x12]), Value::U16(0x3412));
    assert_eq!(decode(11, 2, Endian::Little, &[1, 0]), Value::U16(1));
    assert_eq!(decode(3, 2, Endian::Little, &[0xFE, 0xFF]), Value::I16(-2));
    assert_eq!(decode(3, 2, Endian::Big, &[0x80, 0x00]), Value::I16(i16::MIN));
}

#[test]
fn thirty_two_bits() {
    assert_eq!(decode(6, 4, Endian::Little, &[0x78, 0x56, 0x34, 0x12]), Value::U32(0x1234_5678));
    assert_eq!(decode(6, 4, Endian::Big, &[0x78, 0x56, 0x34, 0x12]), Value::U32(0x7856_3412));
    assert_eq!(decode(12, 4, Endian::Little, &[1, 0, 0, 0]), Value::U32(1));
    assert_eq!(decode(5, 4, Endian::Little, &[0xFF, 0xFF, 0xFF, 0xFF]), Value::I32(-1));
    // a float is held as its bits: 1.0
    assert_eq!(decode(8, 4, Endian::Big, &[0x3F, 0x80, 0x00, 0x00]), Value::F32(0x3F80_0000));
}

#[test]
fn sixty_four_bits() {
    let bytes = [8, 7, 6, 5, 4, 3, 2, 1];
    assert_eq!(decode(15, 8, Endian::Little, &bytes), Value::U64(0x0102_0304_0506_0708));
    assert_eq!(decode(16, 8, Endian::Big, &bytes), Value::U64(0x0807_0605_0403_0201));
    assert_eq!(decode(14, 8, Endian::Little, &[0xFE, 0xFF, 0xFF, 0xFF, 0xFF, 0xFF, 0xFF, 0xFF]), Value::I64(-2));
    // 1.0 as a double
    assert_eq!(
        decode(9, 8, Endian::Big, &[0x3F, 0xF0, 0, 0, 0, 0, 0, 0]),
        Value::F64(0x3FF0_0000_0000_0000)
    );
}

#[test]
fn the_invalid_pattern_is_absent() {
    assert_eq!(decode(0, 1, Endian::Little, &[0xFF]), Value::Absent);
    assert_eq!(decode(1, 1, Endian::Little, &[0x7F]), Value::Absent);
    assert_eq!(decode(2, 1, Endian::Little, &[0xFF]), Value::Absent);
    assert_eq!(decode(3, 2, Endian::Little, &[0xFF, 0x7F]), Value::Absent);
    assert_eq!(decode(3, 2, Endian::Big, &[0x7F, 0xFF]), Value::Absent);
    assert_eq!(decode(4, 2, Endian::Little, &[0xFF, 0xFF]), Value::Absent);
    assert_eq!(decode(5, 4, Endian::Little, &[0xFF, 0xFF, 0xFF, 0x7F]), Value::Absent);
    assert_eq!(decode(6, 4, Endian::Little, &[0xFF, 0xFF, 0xFF, 0xFF]), Value::Absent);
    assert_eq!(decode(8, 4, Endian::Little, &[0xFF, 0xFF, 0xFF, 0xFF]), Value::Absent);
    assert_eq!(decode(9, 8, Endian::Little, &[0xFF; 8]), Value::Absent);
    assert_eq!(decode(10, 1, Endian::Little, &[0]), Value::Absent);
    assert_eq!(decode(11, 2, Endian::Little, &[0, 0]), Value::Absent);
    assert_eq!(decode(12, 4, Endian::Little, &[0, 0, 0, 0]), Value::Absent);
    assert_eq!(decode(13, 1, Endian::Little, &[0xFF]), Value::Absent);
    assert_eq!(decode(14, 8, Endian::Big, &[0x7F, 0xFF, 0xFF, 0xFF, 0xFF, 0xFF, 0xFF, 0xFF]), Value::Absent);
    assert_eq!(decode(15, 8, Endian::Little, &[0xFF; 8]), Value::Absent);
    assert_eq!(decode(16, 8, Endian::Little, &[0; 8]), Value::Absent);
    assert_eq!(decode(7, 4, Endian::Little, &[0; 4]), Value::Absent);
}

#[test]
fn the_sentinel_of_one_type_is_a_number_of_another() {
    // 0x7F is invalid for sint8 only, 0xFF for uint8 only
    assert_eq!(decode(2, 1, Endian::Little, &[0x7F]), Value::U8(0x7F));
    assert_eq!(decode(10, 1, Endian::Little, &[0xFF]), Value::U8(0xFF));
    assert_eq!(decode(11, 2, Endian::Little, &[0xFF, 0xFF]), Value::U16(0xFFFF));
}

#[test]
fn arrays_drop_invalid_elements() {
    assert_eq!(decode(2, 3, Endian::Little, &[1, 0xFF, 3]), Value::ArrU8(vec![1, 3]));
    assert_eq!(decode(1, 2, Endian::Little, &[0x7F, 0x80]), Value::ArrU8(vec![0x80]));
    assert_eq!(
        decode(4, 6, Endian::Little, &[1, 0, 0xFF, 0xFF, 2, 0]),
        Value::ArrU16(vec![1, 2])
    );
    assert_eq!(decode(3, 4, Endian::Big, &[0x7F, 0xFF, 0xFF, 0xFE]), Value::ArrU16(vec![0xFFFE]));
    assert_eq!(
        decode(6, 8, Endian::Big, &[0, 0, 0, 9, 0xFF, 0xFF, 0xFF, 0xFF]),
        Value::ArrU32(vec![9])
    );
    assert_eq!(decode(12, 8, Endian::Little, &[0, 0, 0, 0, 7, 0, 0, 0]), Value::ArrU32(vec![7]));
}

#[test]
fn an_array_of_invalid_elements_is_absent() {
    assert_eq!(decode(2, 3, Endian::Little, &[0xFF, 0xFF, 0xFF]), Value::Absent);
    assert_eq!(decode(4, 4, Endian::Little, &[0xFF, 0xFF, 0xFF, 0xFF]), Value::Absent);
    assert_eq!(decode(12, 8, Endian::Little, &[0; 8]), Value::Absent);
}

#[test]
fn layouts_that_hold_nothing() {
    // no byte, a size that is no multiple of the width, several 64-bit
    // elements, and a code that names no base type
    assert_eq!(decode(2, 0, Endian::Little, &[]), Value::Absent);
    assert_eq!(decode(4, 3, Endian::Little, &[1, 2, 3]), Value::Absent);
    assert_eq!(decode(4, 1, Endian::Little, &[1]), Value::Absent);
    assert_eq!(decode(6, 6, Endian::Little, &[1, 2, 3, 4, 5, 6]), Value::Absent);
    assert_eq!(decode(15, 16, Endian::Little, &[1; 16]), Value::Absent);
    assert_eq!(decode(17, 2, Endian::Little, &[1, 2]), Value::Absent);
    assert_eq!(decode(31, 1, Endian::Little, &[1]), Value::Absent);
}

#[test]
fn strings_keep_all_their_bytes() {
    assert_eq!(
        decode(7, 5, Endian::Little, &[b'a', b'b', b'c', 0, 0]),
        Value::String(String::from("abc\0\0"))
    );
    assert_eq!(decode(7, 2, Endian::Little, &[0xC3, 0xA9]), Value::String(String::from("é")));
}

#[test]
fn strings_that_are_not_text_are_absent() {
    assert_eq!(decode(7, 2, Endian::Little, &[0xFF, 0x41]), Value::Absent);
    assert_eq!(decode(7, 1, Endian::Little, &[0xC3]), Value::Absent);
    assert_eq!(decode(7, 0, Endian::Little, &[]), Value::Absent);
}

#[test]
fn a_field_past_the_end_is_absent() {
    let mut c = ByteCursor::new(vec![1, 2]);
    let v = DataField::read_next_field(4, 6, &mut c, Endian::Little);
    assert_eq!(v, Value::Absent);
    assert_eq!(c.position(), 2);
}

#[test]
fn numbers_are_written_in_the_byte_order() {
    assert_eq!(encode(&Value::U8(7), 2, 1, Endian::Little), vec![7]);
    assert_eq!(encode(&Value::I8(-2), 1, 1, Endian::Little), vec![0xFE]);
    assert_eq!(encode(&Value::U16(0x1234), 4, 2, Endian::Little), vec![0x34, 0x12]);
    assert_eq!(encode(&Value::U16(0x1234), 4, 2, Endian::Big), vec![0x12, 0x34]);
    assert_eq!(encode(&Value::I16(-2), 3, 2, Endian::Big), vec![0xFF, 0xFE]);
    assert_eq!(encode(&Value::U32(0x1234_5678), 6, 4, Endian::Little), vec![0x78, 0x56, 0x34, 0x12]);
    assert_eq!(encode(&Value::U32(0x1234_5678), 6, 4, Endian::Big), vec![0x12, 0x34, 0x56, 0x78]);
    assert_eq!(encode(&Value::I32(-1), 5, 4, Endian::Big), vec![0xFF; 4]);
    assert_eq!(encode(&Value::Time(258), 6, 4, Endian::Big), vec![0, 0, 1, 2]);
    assert_eq!(encode(&Value::F32(0x3F80_0000), 8, 4, Endian::Big), vec![0x3F, 0x80, 0, 0]);
    assert_eq!(
        encode(&Value::U64(0x0102_0304_0506_0708), 15, 8, Endian::Little),
        vec![8, 7, 6, 5, 4, 3, 2, 1]
    );
    assert_eq!(
        encode(&Value::U64(0x0102_0304_0506_0708), 15, 8, Endian::Big),
        vec![1, 2, 3, 4, 5, 6, 7, 8]
    );
    assert_eq!(encode(&Value::I64(-2), 14, 8, Endian::Big), vec![0xFF, 0xFF, 0xFF, 0xFF, 0xFF, 0xFF, 0xFF, 0xFE]);
    assert_eq!(
        encode(&Value::F64(0x3FF0_0000_0000_0000), 9, 8, Endian::Big),
        vec![0x3F, 0xF0, 0, 0, 0, 0, 0, 0]
    );
}

#[test]
fn absent_is_written_as_the_invalid_pattern() {
    assert_eq!(encode(&Value::Absent, 2, 1, Endian::Little), vec![0xFF]);
    assert_eq!(encode(&Value::Absent, 1, 1, Endian::Little), vec![0x7F]);
    assert_eq!(encode(&Value::Absent, 3, 2, Endian::Little), vec![0xFF, 0x7F]);
    assert_eq!(encode(&Value::Absent, 3, 2, Endian::Big), vec![0x7F, 0xFF]);
    assert_eq!(encode(&Value::Absent, 6, 4, Endian::Little), vec![0xFF; 4]);
    assert_eq!(encode(&Value::Absent, 5, 4, Endian::Big), vec![0x7F, 0xFF, 0xFF, 0xFF]);
    assert_eq!(encode(&Value::Absent, 10, 1, Endian::Little), vec![0]);
    assert_eq!(encode(&Value::Absent, 14, 8, Endian::Little), vec![0xFF, 0xFF, 0xFF, 0xFF, 0xFF, 0xFF, 0xFF, 0x7F]);
    assert_eq!(encode(&Value::Absent, 7, 3, Endian::Little), vec![0, 0, 0]);
    assert_eq!(encode(&Value::Absent, 4, 4, Endian::Little), vec![0xFF; 4]);
}

#[test]
fn absent_is_written_as_zeros_where_nothing_else_applies() {
    assert_eq!(encode(&Value::Absent, 17, 3, Endian::Little), vec![0, 0, 0]);
    assert_eq!(encode(&Value::U8(1), 4, 3, Endian::Little), vec![0, 0, 0]);
    assert_eq!(encode(&Value::U64(1), 15, 16, Endian::Little), vec![0; 16]);
}

#[test]
fn a_value_of_another_width_is_written_as_absent() {
    assert_eq!(encode(&Value::U16(1), 2, 1, Endian::Little), vec![0xFF]);
    assert_eq!(encode(&Value::U8(1), 4, 2, Endian::Little), vec![0xFF, 0xFF]);
    assert_eq!(encode(&Value::Enum("cycling"), 0, 1, Endian::Little), vec![0xFF]);
    assert_eq!(encode(&Value::String(String::from("a")), 2, 1, Endian::Little), vec![0xFF]);
    assert_eq!(encode(&Value::ArrU8(vec![1]), 2, 1, Endian::Little), vec![0xFF]);
}

#[test]
fn arrays_are_filled_up_with_the_invalid_pattern() {
    assert_eq!(encode(&Value::ArrU8(vec![1, 3]), 2, 3, Endian::Little), vec![1, 3, 0xFF]);
    assert_eq!(encode(&Value::ArrU8(vec![1, 2, 3, 4]), 2, 3, Endian::Little), vec![1, 2, 3]);
    assert_eq!(
        encode(&Value::ArrU16(vec![1, 2]), 4, 6, Endian::Little),
        vec![1, 0, 2, 0, 0xFF, 0xFF]
    );
    assert_eq!(
        encode(&Value::ArrU16(vec![1]), 3, 4, Endian::Big),
        vec![0, 1, 0x7F, 0xFF]
    );
    assert_eq!(
        encode(&Value::ArrU32(vec![9]), 6, 8, Endian::Big),
        vec![0, 0, 0, 9, 0xFF, 0xFF, 0xFF, 0xFF]
    );
    assert_eq!(encode(&Value::ArrU16(vec![1]), 2, 3, Endian::Little), vec![0xFF, 0xFF, 0xFF]);
}

#[test]
fn strings_are_cut_or_filled_with_nul() {
    assert_eq!(encode(&Value::String(String::from("ab")), 7, 4, Endian::Little), vec![b'a', b'b', 0, 0]);
    assert_eq!(encode(&Value::String(String::from("abcdef")), 7, 4, Endian::Little), vec![b'a', b'b', b'c', b'd']);
    assert_eq!(encode(&Value::U8(1), 7, 2, Endian::Little), vec![0, 0]);
}

#[test]
fn what_was_decoded_is_written_as_it_was_read() {
    let cases: Vec<(u8, u8, Vec<u8>)> = vec![
        (2, 1, vec![7]),
        (1, 1, vec![0x80]),
        (4, 2, vec![0x34, 0x12]),
        (3, 2, vec![0xFE, 0xFF]),
        (6, 4, vec![1, 2, 3, 4]),
        (5, 4, vec![0xFF, 0xFF, 0xFF, 0xFF]),
        (8, 4, vec![0, 0, 0x80, 0x3F]),
        (9, 8, vec![1, 2, 3, 4, 5, 6, 7, 8]),
        (14, 8, vec![0xFE, 0xFF, 0xFF, 0xFF, 0xFF, 0xFF, 0xFF, 0xFF]),
        (15, 8, vec![1, 2, 3, 4, 5, 6, 7, 8]),
        (7, 4, vec![b'a', b'b', 0, 0]),
        (2, 3, vec![1, 2, 3]),
        (4, 4, vec![1, 0, 2, 0]),
        (6, 8, vec![1, 0, 0, 0, 2, 0, 0, 0]),
    ];
    for endian in [Endian::Little, Endian::Big] {
        for (t, size, bytes) in &cases {
            let v = decode(*t, *size, endian, bytes);
            assert_ne!(v, Value::Absent);
            assert_eq!(&encode(&v, *t, *size, endian), bytes, "base type {}", t);
        }
    }
}

#[test]
fn what_was_decoded_decodes_again_to_the_same() {
    // fields with invalid elements do not come back byte for byte, but
    // value for value
    let cases: Vec<(u8, u8, Vec<u8>)> = vec![
        (2, 3, vec![0xFF, 2, 0xFF]),
        (4, 6, vec![0xFF, 0xFF, 1, 0, 0xFF, 0xFF]),
        (12, 8, vec![0, 0, 0, 0, 1, 0, 0, 0]),
        (7, 3, vec![0xFF, 0, 0]),
        (4, 3, vec![1, 2, 3]),
        (17, 2, vec![1, 2]),
        (0, 1, vec![0xFF]),
    ];
    for endian in [Endian::Little, Endian::Big] {
        for (t, size, bytes) in &cases {
            let v = decode(*t, *size, endian, bytes);
            let again = encode(&v, *t, *size, endian);
            assert_eq!(again.len(), *size as usize);
            assert_eq!(decode(*t, *size, endian, &again), v, "base type {}", t);
        }
    }
}

#[test]
fn write_none_follows_the_layout() {
    let mut out = vec![1u8];
    DataField::write_none(&mut out, Endian::Little, None);
    assert_eq!(out, vec![1]);
    DataField::write_none(&mut out, Endian::Little, Some(&layout(4, 2)));
    assert_eq!(out, vec![1, 0xFF, 0xFF]);
}

#[test]
fn a_field_is_its_number_and_its_value() {
    let f = DataField::new(3, Value::U8(9));
    assert_eq!(f.field_num, 3);
    assert_eq!(f.value, Value::U8(9));
    assert_eq!(f.clone_field(), f);
}
