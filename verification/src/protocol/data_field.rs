//! The fields of a data message: decoding a field's bytes by its base type
//! and size, giving the value its meaning by the profile, and the way back.

use crate::protocol::{DefinitionMessage, Endian, FieldDefinition, FitError};
use crate::protocol::consts::{LOCAL_TIME_BIAS, PSEUDO_EPOCH};
use crate::protocol::get_field_offset::{get_field_offset_fn, spec_field_offset};
use crate::protocol::get_field_scale::{get_field_scale_fn, spec_field_scale};
use crate::protocol::get_field_string_value::{
    get_field_key_from_string, get_field_string_value, spec_field_key_from_string,
    spec_field_string_value, FieldType,
};
use crate::protocol::get_field_type::{get_field_type_fn, spec_field_type};
use crate::protocol::io::{
    bits_from_i16, bits_from_i32, bits_from_i64, bits_from_i8, byte_or_zero, i16_from_bits,
    i32_from_bits, i64_from_bits, i8_from_bits, min_int, padded, read_u16, read_u16_arr, read_u32,
    read_u32_arr, read_u64, read_u8, read_u8_arr, skip_bytes, spec_signed, spec_u16_bytes,
    spec_u16_from, spec_u32_bytes, spec_u32_from, spec_u64_bytes, spec_u64_from, spec_unsigned,
    write_bin_u16, write_bin_u32, write_bin_u64, write_bin_u8, ByteCursor,
};
use crate::protocol::message_type::MessageType;
use crate::protocol::value::{
    lemma_mod_shift, spec_offset, spec_reoffset, spec_rescale, spec_scale, wrap_unsigned, Scale,
    Value, ValueView,
};
use vstd::prelude::*;
use vstd::utf8::{decode_utf8, encode_utf8, valid_utf8};

verus! {

/// One field of a data message: its number in the message's definition and
/// its value.
#[derive(Clone, Debug, PartialEq)]
pub struct DataField {
    pub field_num: u8,
    pub value: Value,
}

/// What a `DataField` holds, as mathematical data.
pub struct DataFieldView {
    pub field_num: u8,
    pub value: ValueView,
}

impl View for DataField {
    type V = DataFieldView;

    open spec fn view(&self) -> DataFieldView {
        DataFieldView { field_num: self.field_num, value: self.value@ }
    }
}

/// The views of a sequence of fields, in order.
pub open spec fn fields_view(s: Seq<DataField>) -> Seq<DataFieldView> {
    Seq::new(s.len(), |i: int| s[i]@)
}

/// The width in bytes of one element of a base type; zero for strings and
/// for codes that name no base type.
pub open spec fn spec_base_width(base_type: u8) -> int {
    match base_type {
        0 | 1 | 2 | 10 | 13 => 1,
        3 | 4 | 11 => 2,
        5 | 6 | 8 | 12 => 4,
        9 | 14 | 15 | 16 => 8,
        _ => 0,
    }
}

/// The invalid pattern of a base type, as the unsigned number that its
/// bytes spell.
pub open spec fn spec_base_invalid(base_type: u8) -> u64 {
    match base_type {
        0 | 2 | 13 => 0xFF,
        1 => 0x7F,
        3 => 0x7FFF,
        4 => 0xFFFF,
        5 => 0x7FFF_FFFF,
        6 | 8 => 0xFFFF_FFFF,
        9 | 15 => 0xFFFF_FFFF_FFFF_FFFF,
        14 => 0x7FFF_FFFF_FFFF_FFFF,
        _ => 0,
    }
}

/// The unsigned number that the first `w` bytes of `b` spell.
pub open spec fn spec_raw(endian: Endian, w: int, b: Seq<u8>) -> u64 {
    if w == 1 {
        b[0] as u64
    } else if w == 2 {
        spec_u16_from(endian, b) as u64
    } else if w == 4 {
        spec_u32_from(endian, b) as u64
    } else {
        spec_u64_from(endian, b)
    }
}

/// The value of a single element of a base type with the given bits.
pub open spec fn spec_scalar(base_type: u8, raw: u64) -> ValueView {
    match base_type {
        0 | 2 | 10 | 13 => ValueView::U8(raw as u8),
        1 => ValueView::I8(spec_signed(raw as int, 0x100) as i8),
        3 => ValueView::I16(spec_signed(raw as int, 0x1_0000) as i16),
        4 | 11 => ValueView::U16(raw as u16),
        5 => ValueView::I32(spec_signed(raw as int, 0x1_0000_0000) as i32),
        6 | 12 => ValueView::U32(raw as u32),
        8 => ValueView::F32(raw as u32),
        9 => ValueView::F64(raw),
        14 => ValueView::I64(spec_signed(raw as int, 0x1_0000_0000_0000_0000) as i64),
        15 | 16 => ValueView::U64(raw),
        _ => ValueView::Absent,
    }
}

/// The sequence without its elements equal to `x`, the others in order.
pub open spec fn without<T>(s: Seq<T>, x: T) -> Seq<T>
    decreases s.len(),
{
    if s.len() == 0 {
        s
    } else if s.last() == x {
        without(s.drop_last(), x)
    } else {
        without(s.drop_last(), x).push(s.last())
    }
}

/// The `n` 16-bit elements that `b` spells.
pub open spec fn spec_elems_u16(endian: Endian, b: Seq<u8>, n: int) -> Seq<u16> {
    Seq::new(n as nat, |i: int| spec_u16_from(endian, b.skip(2 * i)))
}

/// The `n` 32-bit elements that `b` spells.
pub open spec fn spec_elems_u32(endian: Endian, b: Seq<u8>, n: int) -> Seq<u32> {
    Seq::new(n as nat, |i: int| spec_u32_from(endian, b.skip(4 * i)))
}

/// The value of an array field of a base type of one, two or four bytes:
/// the elements that are not the invalid pattern, or `Absent` where none is
/// left.
pub open spec fn spec_array(base_type: u8, endian: Endian, b: Seq<u8>) -> ValueView {
    let w = spec_base_width(base_type);
    let inv = spec_base_invalid(base_type);
    if w == 1 {
        let kept = without(b, inv as u8);
        if kept.len() == 0 {
            ValueView::Absent
        } else {
            ValueView::ArrU8(kept)
        }
    } else if w == 2 {
        let kept = without(spec_elems_u16(endian, b, b.len() as int / 2), inv as u16);
        if kept.len() == 0 {
            ValueView::Absent
        } else {
            ValueView::ArrU16(kept)
        }
    } else {
        let kept = without(spec_elems_u32(endian, b, b.len() as int / 4), inv as u32);
        if kept.len() == 0 {
            ValueView::Absent
        } else {
            ValueView::ArrU32(kept)
        }
    }
}

/// Every byte is zero.
pub open spec fn all_zero(b: Seq<u8>) -> bool {
    forall|i: int| 0 <= i < b.len() ==> b[i] == 0
}

/// The value of a string field: `Absent` for the invalid pattern, which is
/// all NUL, and for bytes that are not UTF-8; else the text of all its
/// bytes.
pub open spec fn spec_decode_string(b: Seq<u8>) -> ValueView {
    if all_zero(b) {
        ValueView::Absent
    } else if valid_utf8(b) {
        ValueView::String(decode_utf8(b))
    } else {
        ValueView::Absent
    }
}

/// Whether a field of this base type and size is an array that a value can
/// hold: elements of one, two or four bytes, two or more of them, and no
/// byte left over.
pub open spec fn spec_is_array(base_type: u8, size: u8) -> bool {
    let w = spec_base_width(base_type);
    1 <= w < 8 && size > w && size as int % w == 0
}

/// The value of a field of the given base type and size whose bytes are
/// `b`. A field of the width of its base type is a single value, a whole
/// multiple of it an array; a single value that is the invalid pattern is
/// `Absent`. A field of an unknown base type, of a size that is no multiple
/// of the width, or of several 64-bit elements is `Absent`.
pub open spec fn spec_decode_field(base_type: u8, size: u8, endian: Endian, b: Seq<u8>) -> ValueView
    recommends
        b.len() == size,
{
    let w = spec_base_width(base_type);
    if base_type == 7 {
        spec_decode_string(b)
    } else if w == 0 {
        ValueView::Absent
    } else if size == w {
        let raw = spec_raw(endian, w, b);
        if raw == spec_base_invalid(base_type) {
            ValueView::Absent
        } else {
            spec_scalar(base_type, raw)
        }
    } else if spec_is_array(base_type, size) {
        spec_array(base_type, endian, b)
    } else {
        ValueView::Absent
    }
}

/// The width in bytes and the bits of a value that is a single number.
pub open spec fn spec_value_bits(v: ValueView) -> Option<(int, u64)> {
    match v {
        ValueView::U8(x) => Some((1, x as u64)),
        ValueView::I8(x) => Some((1, spec_unsigned(x as int, 0x100) as u64)),
        ValueView::U16(x) => Some((2, x as u64)),
        ValueView::I16(x) => Some((2, spec_unsigned(x as int, 0x1_0000) as u64)),
        ValueView::U32(x) => Some((4, x as u64)),
        ValueView::I32(x) => Some((4, spec_unsigned(x as int, 0x1_0000_0000) as u64)),
        ValueView::F32(x) => Some((4, x as u64)),
        ValueView::Time(x) => Some((4, x as u64)),
        ValueView::U64(x) => Some((8, x)),
        ValueView::I64(x) => Some((8, spec_unsigned(x as int, 0x1_0000_0000_0000_0000) as u64)),
        ValueView::F64(x) => Some((8, x)),
        _ => None,
    }
}

/// The `w` bytes that spell the unsigned number `raw`.
pub open spec fn spec_raw_bytes(raw: u64, w: int, endian: Endian) -> Seq<u8> {
    if w == 1 {
        seq![raw as u8]
    } else if w == 2 {
        spec_u16_bytes(raw as u16, endian)
    } else if w == 4 {
        spec_u32_bytes(raw as u32, endian)
    } else {
        spec_u64_bytes(raw, endian)
    }
}

/// Element `i` of `a`, or `x` past its end.
pub open spec fn elem_or<T>(a: Seq<T>, i: int, x: T) -> T {
    if 0 <= i < a.len() {
        a[i]
    } else {
        x
    }
}

/// `n` zero bytes.
pub open spec fn zeros(n: int) -> Seq<u8> {
    Seq::new(n as nat, |i: int| 0u8)
}

/// The bytes of an array field of `n` elements: the elements of a value of
/// the field's element width, as many as fit, and the invalid pattern for
/// the rest; for any other value, the invalid pattern `n` times.
pub open spec fn spec_encode_array(v: ValueView, base_type: u8, n: int, endian: Endian) -> Seq<u8> {
    let w = spec_base_width(base_type);
    let inv = spec_base_invalid(base_type);
    if w == 1 {
        let a = match v {
            ValueView::ArrU8(a) => a,
            _ => Seq::<u8>::empty(),
        };
        Seq::new(n as nat, |i: int| elem_or(a, i, inv as u8))
    } else if w == 2 {
        let a = match v {
            ValueView::ArrU16(a) => a,
            _ => Seq::<u16>::empty(),
        };
        Seq::new(
            (2 * n) as nat,
            |j: int| spec_u16_bytes(elem_or(a, j / 2, inv as u16), endian)[j % 2],
        )
    } else {
        let a = match v {
            ValueView::ArrU32(a) => a,
            _ => Seq::<u32>::empty(),
        };
        Seq::new(
            (4 * n) as nat,
            |j: int| spec_u32_bytes(elem_or(a, j / 4, inv as u32), endian)[j % 4],
        )
    }
}

/// The bytes of a string field: the text's bytes, cut or filled with NUL to
/// the field's size; all NUL for a value that is no text.
pub open spec fn spec_encode_string(v: ValueView, size: u8) -> Seq<u8> {
    let t = match v {
        ValueView::String(s) => encode_utf8(s),
        _ => Seq::<u8>::empty(),
    };
    Seq::new(size as nat, |i: int| byte_or_zero(t, i))
}

/// The bytes of a field of the given base type and size that holds `v`:
/// always `size` of them. A value that the layout cannot hold is written as
/// the base type's invalid pattern, and as zeros where the layout itself is
/// one that decodes to nothing.
pub open spec fn spec_encode_field(
    v: ValueView,
    base_type: u8,
    size: u8,
    endian: Endian,
) -> Seq<u8> {
    let w = spec_base_width(base_type);
    if base_type == 7 {
        spec_encode_string(v, size)
    } else if w == 0 {
        zeros(size as int)
    } else if size == w {
        match spec_value_bits(v) {
            Some((width, bits)) => if width == w {
                spec_raw_bytes(bits, w, endian)
            } else {
                spec_raw_bytes(spec_base_invalid(base_type), w, endian)
            },
            None => spec_raw_bytes(spec_base_invalid(base_type), w, endian),
        }
    } else if spec_is_array(base_type, size) {
        spec_encode_array(v, base_type, size as int / w, endian)
    } else {
        zeros(size as int)
    }
}

/// The width in bytes of one element of a base type.
pub fn base_width(base_type: u8) -> (w: u8)
    ensures
        w == spec_base_width(base_type),
{
    match base_type {
        0 | 1 | 2 | 10 | 13 => 1,
        3 | 4 | 11 => 2,
        5 | 6 | 8 | 12 => 4,
        9 | 14 | 15 | 16 => 8,
        _ => 0,
    }
}

/// The invalid pattern of a base type.
pub fn base_invalid(base_type: u8) -> (x: u64)
    ensures
        x == spec_base_invalid(base_type),
{
    match base_type {
        0 | 2 | 13 => 0xFF,
        1 => 0x7F,
        3 => 0x7FFF,
        4 => 0xFFFF,
        5 => 0x7FFF_FFFF,
        6 | 8 => 0xFFFF_FFFF,
        9 | 15 => 0xFFFF_FFFF_FFFF_FFFF,
        14 => 0x7FFF_FFFF_FFFF_FFFF,
        _ => 0,
    }
}

fn without_u8(c: Vec<u8>, x: u8) -> (r: Vec<u8>)
    ensures
        r@ == without(c@, x),
{
    let mut r: Vec<u8> = Vec::with_capacity(c.len());
    let mut i: usize = 0;
    while i < c.len()
        invariant
            i <= c.len(),
            r@ == without(c@.take(i as int), x),
        decreases c.len() - i,
    {
        proof {
            let next = c@.take(i as int + 1);
            assert(next.drop_last() =~= c@.take(i as int));
            assert(next.last() == c@[i as int]);
        }
        if c[i] != x {
            r.push(c[i]);
        }
        i += 1;
    }
    proof {
        assert(c@.take(i as int) =~= c@);
    }
    r
}

fn without_u16(c: Vec<u16>, x: u16) -> (r: Vec<u16>)
    ensures
        r@ == without(c@, x),
{
    let mut r: Vec<u16> = Vec::with_capacity(c.len());
    let mut i: usize = 0;
    while i < c.len()
        invariant
            i <= c.len(),
            r@ == without(c@.take(i as int), x),
        decreases c.len() - i,
    {
        proof {
            let next = c@.take(i as int + 1);
            assert(next.drop_last() =~= c@.take(i as int));
            assert(next.last() == c@[i as int]);
        }
        if c[i] != x {
            r.push(c[i]);
        }
        i += 1;
    }
    proof {
        assert(c@.take(i as int) =~= c@);
    }
    r
}

fn without_u32(c: Vec<u32>, x: u32) -> (r: Vec<u32>)
    ensures
        r@ == without(c@, x),
{
    let mut r: Vec<u32> = Vec::with_capacity(c.len());
    let mut i: usize = 0;
    while i < c.len()
        invariant
            i <= c.len(),
            r@ == without(c@.take(i as int), x),
        decreases c.len() - i,
    {
        proof {
            let next = c@.take(i as int + 1);
            assert(next.drop_last() =~= c@.take(i as int));
            assert(next.last() == c@[i as int]);
        }
        if c[i] != x {
            r.push(c[i]);
        }
        i += 1;
    }
    proof {
        assert(c@.take(i as int) =~= c@);
    }
    r
}

/// Converts bytes to text.
///
/// Calls `String::from_utf8`. The contract claims that it succeeds exactly
/// on well-formed UTF-8, and that the text it gives is the decoding of the
/// bytes.
#[verifier::external_body]
fn string_from_utf8(buf: Vec<u8>) -> (r: Option<String>)
    ensures
        r is Some <==> valid_utf8(buf@),
        r is Some ==> r->0@ == decode_utf8(buf@),
{
    String::from_utf8(buf).ok()
}

fn is_all_zero(buf: &Vec<u8>) -> (r: bool)
    ensures
        r == all_zero(buf@),
{
    let mut i: usize = 0;
    while i < buf.len()
        invariant
            i <= buf.len(),
            forall|j: int| 0 <= j < i ==> buf@[j] == 0,
        decreases buf.len() - i,
    {
        if buf[i] != 0 {
            return false;
        }
        i += 1;
    }
    true
}

fn decode_string(buf: Vec<u8>) -> (v: Value)
    ensures
        v@ == spec_decode_string(buf@),
{
    if is_all_zero(&buf) {
        Value::Absent
    } else {
        match string_from_utf8(buf) {
            Some(string) => Value::String(string),
            None => Value::Absent,
        }
    }
}

/// Whether `size` more bytes can be read.
pub open spec fn can_read(reader: ByteCursor, size: u8) -> bool {
    reader.spec_position() + size <= reader.bytes().len()
}

/// The next `size` bytes.
pub open spec fn next_bytes(reader: ByteCursor, size: u8) -> Seq<u8> {
    reader.bytes().subrange(reader.spec_position(), reader.spec_position() + size)
}

/// A field whose base type has one-byte elements.
fn read_field_1(size: u8, base_type: u8, reader: &mut ByteCursor, endian: Endian) -> (v: Value)
    requires
        can_read(*old(reader), size),
        spec_base_width(base_type) == 1,
    ensures
        final(reader).bytes() == old(reader).bytes(),
        final(reader).spec_position() == old(reader).spec_position() + size,
        v@ == spec_decode_field(base_type, size, endian, next_bytes(*old(reader), size)),
{
    let start: usize = reader.position();
    let ghost b = next_bytes(*reader, size);
    let inv: u64 = base_invalid(base_type);
    if size == 1 {
        let x: u8 = read_u8(reader);
        proof {
            assert(b[0] == x);
        }
        if x as u64 == inv {
            Value::Absent
        } else if base_type == 1 {
            Value::I8(i8_from_bits(x))
        } else {
            Value::U8(x)
        }
    } else if size > 1 {
        let c = read_u8_arr(reader, size);
        let kept = without_u8(c, inv as u8);
        if kept.len() == 0 {
            Value::Absent
        } else {
            Value::ArrU8(kept)
        }
    } else {
        Value::Absent
    }
}

/// A field whose base type has two-byte elements.
fn read_field_2(size: u8, base_type: u8, reader: &mut ByteCursor, endian: Endian) -> (v: Value)
    requires
        can_read(*old(reader), size),
        spec_base_width(base_type) == 2,
    ensures
        final(reader).bytes() == old(reader).bytes(),
        final(reader).spec_position() == old(reader).spec_position() + size,
        v@ == spec_decode_field(base_type, size, endian, next_bytes(*old(reader), size)),
{
    let start: usize = reader.position();
    let ghost bytes = reader.bytes();
    let ghost b = next_bytes(*reader, size);
    let inv: u64 = base_invalid(base_type);
    let number_of_values: u8 = size / 2;
    if size == 2 {
        proof {
            assert(padded(bytes, start as int, 2) =~= b);
        }
        let x: u16 = read_u16(reader, endian);
        if x as u64 == inv {
            Value::Absent
        } else if base_type == 3 {
            Value::I16(i16_from_bits(x))
        } else {
            Value::U16(x)
        }
    } else if number_of_values > 1 && size % 2 == 0 {
        let c = read_u16_arr(reader, endian, number_of_values);
        proof {
            assert forall|i: int| 0 <= i < number_of_values implies c@[i] == spec_u16_from(
                endian,
                b.skip(2 * i),
            ) by {
                let p = padded(bytes, start + 2 * i, 2);
                assert(p[0] == b.skip(2 * i)[0]);
                assert(p[1] == b.skip(2 * i)[1]);
            }
            assert(c@ =~= spec_elems_u16(endian, b, b.len() as int / 2));
        }
        let kept = without_u16(c, inv as u16);
        if kept.len() == 0 {
            Value::Absent
        } else {
            Value::ArrU16(kept)
        }
    } else {
        skip_bytes(reader, size);
        Value::Absent
    }
}

/// A field whose base type has four-byte elements.
fn read_field_4(size: u8, base_type: u8, reader: &mut ByteCursor, endian: Endian) -> (v: Value)
    requires
        can_read(*old(reader), size),
        spec_base_width(base_type) == 4,
    ensures
        final(reader).bytes() == old(reader).bytes(),
        final(reader).spec_position() == old(reader).spec_position() + size,
        v@ == spec_decode_field(base_type, size, endian, next_bytes(*old(reader), size)),
{
    let start: usize = reader.position();
    let ghost bytes = reader.bytes();
    let ghost b = next_bytes(*reader, size);
    let inv: u64 = base_invalid(base_type);
    let number_of_values: u8 = size / 4;
    if size == 4 {
        proof {
            assert(padded(bytes, start as int, 4) =~= b);
        }
        let x: u32 = read_u32(reader, endian);
        if x as u64 == inv {
            Value::Absent
        } else if base_type == 5 {
            Value::I32(i32_from_bits(x))
        } else if base_type == 8 {
            Value::F32(x)
        } else {
            Value::U32(x)
        }
    } else if number_of_values > 1 && size % 4 == 0 {
        let c = read_u32_arr(reader, endian, number_of_values);
        proof {
            assert forall|i: int| 0 <= i < number_of_values implies c@[i] == spec_u32_from(
                endian,
                b.skip(4 * i),
            ) by {
                let p = padded(bytes, start + 4 * i, 4);
                assert(p[0] == b.skip(4 * i)[0]);
                assert(p[1] == b.skip(4 * i)[1]);
                assert(p[2] == b.skip(4 * i)[2]);
                assert(p[3] == b.skip(4 * i)[3]);
            }
            assert(c@ =~= spec_elems_u32(endian, b, b.len() as int / 4));
        }
        let kept = without_u32(c, inv as u32);
        if kept.len() == 0 {
            Value::Absent
        } else {
            Value::ArrU32(kept)
        }
    } else {
        skip_bytes(reader, size);
        Value::Absent
    }
}

/// A field whose base type has eight-byte elements.
fn read_field_8(size: u8, base_type: u8, reader: &mut ByteCursor, endian: Endian) -> (v: Value)
    requires
        can_read(*old(reader), size),
        spec_base_width(base_type) == 8,
    ensures
        final(reader).bytes() == old(reader).bytes(),
        final(reader).spec_position() == old(reader).spec_position() + size,
        v@ == spec_decode_field(base_type, size, endian, next_bytes(*old(reader), size)),
{
    let start: usize = reader.position();
    let ghost bytes = reader.bytes();
    let ghost b = next_bytes(*reader, size);
    let inv: u64 = base_invalid(base_type);
    if size == 8 {
        proof {
            assert(padded(bytes, start as int, 8) =~= b);
        }
        let x: u64 = read_u64(reader, endian);
        if x == inv {
            Value::Absent
        } else if base_type == 9 {
            Value::F64(x)
        } else if base_type == 14 {
            Value::I64(i64_from_bits(x))
        } else {
            Value::U64(x)
        }
    } else {
        skip_bytes(reader, size);
        Value::Absent
    }
}

/// The width in bytes and the bits of a value that is a single number.
fn value_bits(v: &Value) -> (r: Option<(u8, u64)>)
    ensures
        match r {
            Some((w, bits)) => spec_value_bits(v@) == Some((w as int, bits)),
            None => spec_value_bits(v@) is None,
        },
{
    match v {
        Value::U8(x) => Some((1, *x as u64)),
        Value::I8(x) => Some((1, bits_from_i8(*x) as u64)),
        Value::U16(x) => Some((2, *x as u64)),
        Value::I16(x) => Some((2, bits_from_i16(*x) as u64)),
        Value::U32(x) => Some((4, *x as u64)),
        Value::I32(x) => Some((4, bits_from_i32(*x) as u64)),
        Value::F32(x) => Some((4, *x as u64)),
        Value::Time(x) => Some((4, *x as u64)),
        Value::U64(x) => Some((8, *x)),
        Value::I64(x) => Some((8, bits_from_i64(*x))),
        Value::F64(x) => Some((8, *x)),
        _ => None,
    }
}

/// Appends the `w` bytes that spell `raw`.
fn write_raw(writer: &mut Vec<u8>, raw: u64, w: u8, endian: Endian)
    requires
        w == 1 || w == 2 || w == 4 || w == 8,
        w == 1 ==> raw <= 0xFF,
        w == 2 ==> raw <= 0xFFFF,
        w == 4 ==> raw <= 0xFFFF_FFFF,
    ensures
        final(writer)@ == old(writer)@ + spec_raw_bytes(raw, w as int, endian),
{
    if w == 1 {
        write_bin_u8(writer, raw as u8);
    } else if w == 2 {
        write_bin_u16(writer, raw as u16, endian);
    } else if w == 4 {
        write_bin_u32(writer, raw as u32, endian);
    } else {
        write_bin_u64(writer, raw, endian);
    }
}

/// Appends `n` zero bytes.
fn write_zeros(writer: &mut Vec<u8>, n: u8)
    ensures
        final(writer)@ == old(writer)@ + zeros(n as int),
{
    let mut i: u8 = 0;
    while i < n
        invariant
            i <= n,
            writer@ == old(writer)@ + zeros(i as int),
        decreases n - i,
    {
        writer.push(0u8);
        proof {
            assert(writer@ =~= old(writer)@ + zeros(i as int + 1));
        }
        i += 1;
    }
    proof {
        assert(zeros(0) =~= Seq::<u8>::empty());
    }
}

/// Appends `n` one-byte elements: those of `a` first, then `inv`.
fn write_array_u8(writer: &mut Vec<u8>, a: &[u8], n: u8, inv: u8)
    ensures
        final(writer)@ == old(writer)@ + Seq::new(n as nat, |i: int| elem_or(a@, i, inv)),
{
    let mut i: u8 = 0;
    while i < n
        invariant
            i <= n,
            writer@ == old(writer)@ + Seq::new(i as nat, |j: int| elem_or(a@, j, inv)),
        decreases n - i,
    {
        let x: u8 = if (i as usize) < a.len() {
            a[i as usize]
        } else {
            inv
        };
        writer.push(x);
        proof {
            assert(writer@ =~= old(writer)@ + Seq::new(
                (i + 1) as nat,
                |j: int| elem_or(a@, j, inv),
            ));
        }
        i += 1;
    }
}

/// Appends `n` two-byte elements: those of `a` first, then `inv`.
fn write_array_u16(writer: &mut Vec<u8>, a: &[u16], n: u8, inv: u16, endian: Endian)
    requires
        2 * n <= 0xFF,
    ensures
        final(writer)@ == old(writer)@ + Seq::new(
            (2 * n) as nat,
            |j: int| spec_u16_bytes(elem_or(a@, j / 2, inv), endian)[j % 2],
        ),
{
    let mut i: u8 = 0;
    while i < n
        invariant
            i <= n,
            writer@ == old(writer)@ + Seq::new(
                (2 * i) as nat,
                |j: int| spec_u16_bytes(elem_or(a@, j / 2, inv), endian)[j % 2],
            ),
        decreases n - i,
    {
        let x: u16 = if (i as usize) < a.len() {
            a[i as usize]
        } else {
            inv
        };
        write_bin_u16(writer, x, endian);
        proof {
            assert(writer@ =~= old(writer)@ + Seq::new(
                (2 * (i + 1)) as nat,
                |j: int| spec_u16_bytes(elem_or(a@, j / 2, inv), endian)[j % 2],
            ));
        }
        i += 1;
    }
}

/// Appends `n` four-byte elements: those of `a` first, then `inv`.
fn write_array_u32(writer: &mut Vec<u8>, a: &[u32], n: u8, inv: u32, endian: Endian)
    requires
        4 * n <= 0xFF,
    ensures
        final(writer)@ == old(writer)@ + Seq::new(
            (4 * n) as nat,
            |j: int| spec_u32_bytes(elem_or(a@, j / 4, inv), endian)[j % 4],
        ),
{
    let mut i: u8 = 0;
    while i < n
        invariant
            i <= n,
            writer@ == old(writer)@ + Seq::new(
                (4 * i) as nat,
                |j: int| spec_u32_bytes(elem_or(a@, j / 4, inv), endian)[j % 4],
            ),
        decreases n - i,
    {
        let x: u32 = if (i as usize) < a.len() {
            a[i as usize]
        } else {
            inv
        };
        write_bin_u32(writer, x, endian);
        proof {
            assert(writer@ =~= old(writer)@ + Seq::new(
                (4 * (i + 1)) as nat,
                |j: int| spec_u32_bytes(elem_or(a@, j / 4, inv), endian)[j % 4],
            ));
        }
        i += 1;
    }
}

/// Appends the bytes of an array field of `n` elements.
fn write_array(writer: &mut Vec<u8>, v: &Value, base_type: u8, n: u8, endian: Endian)
    requires
        1 <= spec_base_width(base_type) < 8,
        n * spec_base_width(base_type) <= 0xFF,
    ensures
        final(writer)@ == old(writer)@ + spec_encode_array(v@, base_type, n as int, endian),
{
    let w: u8 = base_width(base_type);
    let inv: u64 = base_invalid(base_type);
    if w == 1 {
        match v {
            Value::ArrU8(a) => write_array_u8(writer, a.as_slice(), n, inv as u8),
            _ => {
                let none: Vec<u8> = Vec::new();
                write_array_u8(writer, none.as_slice(), n, inv as u8)
            },
        }
    } else if w == 2 {
        match v {
            Value::ArrU16(a) => write_array_u16(writer, a.as_slice(), n, inv as u16, endian),
            _ => {
                let none: Vec<u16> = Vec::new();
                write_array_u16(writer, none.as_slice(), n, inv as u16, endian)
            },
        }
    } else {
        match v {
            Value::ArrU32(a) => write_array_u32(writer, a.as_slice(), n, inv as u32, endian),
            _ => {
                let none: Vec<u32> = Vec::new();
                write_array_u32(writer, none.as_slice(), n, inv as u32, endian)
            },
        }
    }
}

/// Appends the bytes of a string field.
fn write_string(writer: &mut Vec<u8>, v: &Value, size: u8)
    ensures
        final(writer)@ == old(writer)@ + spec_encode_string(v@, size),
{
    match v {
        Value::String(s) => {
            let t = s.as_str().as_bytes();
            let mut i: u8 = 0;
            while i < size
                invariant
                    i <= size,
                    t@ == encode_utf8(s@),
                    writer@ == old(writer)@ + Seq::new(i as nat, |j: int| byte_or_zero(t@, j)),
                decreases size - i,
            {
                let x: u8 = if (i as usize) < t.len() {
                    t[i as usize]
                } else {
                    0
                };
                writer.push(x);
                proof {
                    assert(writer@ =~= old(writer)@ + Seq::new(
                        (i + 1) as nat,
                        |j: int| byte_or_zero(t@, j),
                    ));
                }
                i += 1;
            }
        },
        _ => {
            write_zeros(writer, size);
            proof {
                assert(zeros(size as int) =~= spec_encode_string(v@, size));
            }
        },
    }
}

/// Appends the bytes of a field of the given layout that holds `v`.
pub fn write_value(writer: &mut Vec<u8>, v: &Value, def_field: &FieldDefinition, endian: Endian)
    ensures
        final(writer)@ == old(writer)@ + spec_encode_field(
            v@,
            def_field.base_type.val,
            def_field.size,
            endian,
        ),
{
    let base_type: u8 = def_field.base_type.val;
    let size: u8 = def_field.size;
    let w: u8 = base_width(base_type);
    if base_type == 7 {
        write_string(writer, v, size);
    } else if w == 0 {
        write_zeros(writer, size);
    } else if size == w {
        let inv: u64 = base_invalid(base_type);
        match value_bits(v) {
            Some((width, bits)) => {
                if width == w {
                    write_raw(writer, bits, w, endian);
                } else {
                    write_raw(writer, inv, w, endian);
                }
            },
            None => {
                write_raw(writer, inv, w, endian);
            },
        }
    } else if w < 8 && size > w && size % w == 0 {
        write_array(writer, v, base_type, size / w, endian);
    } else {
        write_zeros(writer, size);
    }
}

/// Whether a kind is a plain number, which may carry a scale and an offset.
pub open spec fn spec_is_scaled_kind(kind: FieldType) -> bool {
    kind == FieldType::Uint8 || kind == FieldType::Uint8Z || kind == FieldType::Uint16 || kind
        == FieldType::Uint16Z || kind == FieldType::Uint32 || kind == FieldType::Uint32Z || kind
        == FieldType::Sint8
}

/// Whether a kind has a rule of its own, so that its values are never
/// looked up as names.
pub open spec fn spec_is_ruled_kind(kind: FieldType) -> bool {
    spec_is_scaled_kind(kind) || kind == FieldType::Unknown || kind == FieldType::Coordinates
        || kind == FieldType::Timestamp || kind == FieldType::DateTime || kind
        == FieldType::LocalDateTime || kind == FieldType::String || kind
        == FieldType::LocaltimeIntoDay
}

/// The meaning of a decoded value of a field of the given kind.
///
/// A 32-bit count of seconds of a timestamp kind becomes a time on the Unix
/// epoch, local ones with their fixed bias. A plain number is divided by
/// its scale and then loses its offset. A coordinate stays in semicircles.
/// A value of 8 or 16 bits of an enumerated kind becomes its name, where it
/// has one. Every other value is unchanged.
pub open spec fn spec_read_transform(
    kind: FieldType,
    scale: Option<Scale>,
    offset: Option<i16>,
    v: ValueView,
) -> ValueView {
    if kind == FieldType::Timestamp || kind == FieldType::DateTime {
        match v {
            ValueView::U32(x) => ValueView::Time(
                wrap_unsigned(x + PSEUDO_EPOCH, 0x1_0000_0000) as u32,
            ),
            _ => v,
        }
    } else if kind == FieldType::LocalDateTime {
        match v {
            ValueView::U32(x) => ValueView::Time(
                wrap_unsigned(x + PSEUDO_EPOCH - LOCAL_TIME_BIAS, 0x1_0000_0000) as u32,
            ),
            _ => v,
        }
    } else if spec_is_scaled_kind(kind) {
        let scaled = match scale {
            Some(s) => spec_scale(v, s),
            None => v,
        };
        match offset {
            Some(o) => spec_offset(scaled, o),
            None => scaled,
        }
    } else if spec_is_ruled_kind(kind) {
        v
    } else {
        let key: Option<usize> = match v {
            ValueView::U8(k) => Some(k as usize),
            ValueView::U16(k) => Some(k as usize),
            _ => None,
        };
        match key {
            Some(k) => match spec_field_string_value(kind, k) {
                Some(t) => ValueView::Enum(t),
                None => v,
            },
            None => v,
        }
    }
}

/// The value that a name goes back to in a field of `size` bytes: the
/// unsigned number of exactly that width that holds the name's key, cut to
/// the width where the key is wider. The name stays where the size is none
/// of 1, 2, 4 and 8, and where there is no layout.
pub open spec fn spec_key_value(key: usize, size: Option<u8>, v: ValueView) -> ValueView {
    match size {
        Some(n) => if n == 1 {
            ValueView::U8((key as int % 0x100) as u8)
        } else if n == 2 {
            ValueView::U16((key as int % 0x1_0000) as u16)
        } else if n == 4 {
            ValueView::U32((key as int % 0x1_0000_0000) as u32)
        } else if n == 8 {
            ValueView::U64(key as u64)
        } else {
            v
        },
        None => v,
    }
}

/// The raw value of a field of the given kind that means `v`: the inverse
/// of `spec_read_transform`, rule by rule. `size` is the size of the field
/// in the layout that the value is written to, where there is one.
pub open spec fn spec_write_transform(
    kind: FieldType,
    scale: Option<Scale>,
    offset: Option<i16>,
    size: Option<u8>,
    v: ValueView,
) -> ValueView {
    if kind == FieldType::Timestamp || kind == FieldType::DateTime {
        match v {
            ValueView::Time(t) => ValueView::U32(
                wrap_unsigned(t - PSEUDO_EPOCH, 0x1_0000_0000) as u32,
            ),
            _ => v,
        }
    } else if kind == FieldType::LocalDateTime {
        match v {
            ValueView::Time(t) => ValueView::U32(
                wrap_unsigned(t - PSEUDO_EPOCH + LOCAL_TIME_BIAS, 0x1_0000_0000) as u32,
            ),
            _ => v,
        }
    } else if spec_is_scaled_kind(kind) {
        let shifted = match offset {
            Some(o) => spec_reoffset(v, o),
            None => v,
        };
        match scale {
            Some(s) => spec_rescale(shifted, s),
            None => shifted,
        }
    } else if spec_is_ruled_kind(kind) {
        v
    } else {
        match v {
            ValueView::Enum(name) => match spec_field_key_from_string(kind, name) {
                Some(key) => spec_key_value(key, size, v),
                None => v,
            },
            _ => v,
        }
    }
}

/// A decoded field with the meaning that the profile gives it in messages
/// of type `m`.
pub open spec fn spec_process_read(m: MessageType, f: DataFieldView) -> DataFieldView {
    DataFieldView {
        field_num: f.field_num,
        value: spec_read_transform(
            spec_field_type(m, f.field_num as usize),
            spec_field_scale(m, f.field_num as usize),
            spec_field_offset(m, f.field_num as usize),
            f.value,
        ),
    }
}

/// The raw value that a field of a message of type `m` is written as.
pub open spec fn spec_process_write(
    m: MessageType,
    f: DataFieldView,
    size: Option<u8>,
) -> ValueView {
    spec_write_transform(
        spec_field_type(m, f.field_num as usize),
        spec_field_scale(m, f.field_num as usize),
        spec_field_offset(m, f.field_num as usize),
        size,
        f.value,
    )
}

/// The sum of the sizes of the fields of a layout.
pub open spec fn spec_total_size(fields: Seq<FieldDefinition>) -> int
    decreases fields.len(),
{
    if fields.len() == 0 {
        0
    } else {
        spec_total_size(fields.drop_last()) + fields.last().size
    }
}

/// The field at place `i` of a record with the given layout whose bytes are
/// `b`, before the profile gives it a meaning.
pub open spec fn spec_raw_field(
    endian: Endian,
    fields: Seq<FieldDefinition>,
    b: Seq<u8>,
    i: int,
) -> DataFieldView {
    let at = spec_total_size(fields.take(i));
    DataFieldView {
        field_num: fields[i].definition_number,
        value: spec_decode_field(
            fields[i].base_type.val,
            fields[i].size,
            endian,
            b.subrange(at, at + fields[i].size),
        ),
    }
}

/// The fields of a data record of type `m` with the given layout whose
/// bytes are `b`: one for each field of the layout, in order, each decoded
/// and given its meaning. A record of an unknown type has no fields.
///
/// The function is opaque, so that proofs about whole files do not unfold
/// the profile; `reveal` it to compute with it.
#[verifier::opaque]
pub open spec fn spec_data_fields(
    m: MessageType,
    endian: Endian,
    fields: Seq<FieldDefinition>,
    b: Seq<u8>,
) -> Seq<DataFieldView> {
    if m == MessageType::Unknown {
        Seq::empty()
    } else {
        Seq::new(fields.len(), |i: int| spec_process_read(m, spec_raw_field(endian, fields, b, i)))
    }
}

/// The bytes of the field at place `i` of a record: those of the value at
/// that place, as the layout's field holds it, and the encoding of `Absent`
/// where the record has no value there.
pub open spec fn spec_write_one(
    values: Seq<DataFieldView>,
    m: MessageType,
    endian: Endian,
    fd: FieldDefinition,
    i: int,
) -> Seq<u8> {
    let v = if 0 <= i < values.len() {
        spec_process_write(m, values[i], Some(fd.size))
    } else {
        ValueView::Absent
    };
    spec_encode_field(v, fd.base_type.val, fd.size, endian)
}

/// The bytes of a data record with the given values in the given layout,
/// field after field: as many bytes as the layout's sizes add up to.
///
/// The function is opaque, as `spec_data_fields` is.
#[verifier::opaque]
pub open spec fn spec_write_fields(
    values: Seq<DataFieldView>,
    m: MessageType,
    endian: Endian,
    fields: Seq<FieldDefinition>,
) -> Seq<u8>
    decreases fields.len(),
{
    if fields.len() == 0 {
        Seq::empty()
    } else {
        spec_write_fields(values, m, endian, fields.drop_last()) + spec_write_one(
            values,
            m,
            endian,
            fields.last(),
            fields.len() - 1,
        )
    }
}

/// The sizes of a part of a layout add up to no more than those of the
/// whole.
pub proof fn lemma_total_size_take(fields: Seq<FieldDefinition>, i: int)
    requires
        0 <= i <= fields.len(),
    ensures
        0 <= spec_total_size(fields.take(i)) <= spec_total_size(fields),
        i < fields.len() ==> spec_total_size(fields.take(i + 1)) == spec_total_size(fields.take(i))
            + fields[i].size,
    decreases fields.len() - i,
{
    if i < fields.len() {
        assert(fields.take(i + 1).drop_last() =~= fields.take(i));
        lemma_total_size_take(fields, i + 1);
    } else {
        assert(fields.take(i) =~= fields);
    }
    lemma_total_size_nonnegative(fields.take(i));
}

/// The sizes of a layout add up to a natural number.
pub proof fn lemma_total_size_nonnegative(fields: Seq<FieldDefinition>)
    ensures
        0 <= spec_total_size(fields) <= 255 * fields.len(),
    decreases fields.len(),
{
    if fields.len() > 0 {
        lemma_total_size_nonnegative(fields.drop_last());
    }
}

/// Every field is written in as many bytes as its layout says.
pub proof fn lemma_encode_field_len(v: ValueView, base_type: u8, size: u8, endian: Endian)
    ensures
        spec_encode_field(v, base_type, size, endian).len() == size,
{
    let w = spec_base_width(base_type);
    if spec_is_array(base_type, size) {
        let n = size as int / w;
        assert(n * w == size) by (nonlinear_arith)
            requires
                n == size as int / w,
                size as int % w == 0,
                w > 0,
        ;
    }
}

/// A record is written in as many bytes as the sizes of its layout add up
/// to.
pub proof fn lemma_write_fields_len(
    values: Seq<DataFieldView>,
    m: MessageType,
    endian: Endian,
    fields: Seq<FieldDefinition>,
)
    ensures
        spec_write_fields(values, m, endian, fields).len() == spec_total_size(fields),
    decreases fields.len(),
{
    reveal_with_fuel(spec_write_fields, 2);
    if fields.len() > 0 {
        lemma_write_fields_len(values, m, endian, fields.drop_last());
        let fd = fields.last();
        let i = fields.len() - 1;
        let v = if 0 <= i < values.len() {
            spec_process_write(m, values[i], Some(fd.size))
        } else {
            ValueView::Absent
        };
        lemma_encode_field_len(v, fd.base_type.val, fd.size, endian);
    }
}

/// Appends a field to a list of fields.
///
/// Calls copyless' `VecHelper::alloc` and `VecAllocation::init`. The
/// contract claims that together they do what `Vec::push` does: the list
/// grows by the one field at its end.
#[verifier::external_body]
fn push_field(values: &mut Vec<DataField>, field: DataField)
    ensures
        final(values)@ == old(values)@.push(field),
{
    copyless::VecHelper::alloc(values).init(field);
}

/// The seconds `x` moved by `d`, in 32-bit arithmetic that wraps.
fn shift_seconds(x: u32, d: i64) -> (r: u32)
    requires
        -0x1_0000_0000 <= d <= 0x1_0000_0000,
    ensures
        r == wrap_unsigned(x + d, 0x1_0000_0000),
{
    proof {
        lemma_mod_shift(x + d, 0x1_0000_0000, 1);
    }
    let y: u64 = (x as i64 + d + 0x1_0000_0000) as u64;
    (y % 0x1_0000_0000) as u32
}

/// Whether a kind is a plain number, which may carry a scale and an offset.
fn is_scaled_kind(kind: FieldType) -> (r: bool)
    ensures
        r == spec_is_scaled_kind(kind),
{
    match kind {
        FieldType::Uint8
        | FieldType::Uint8Z
        | FieldType::Uint16
        | FieldType::Uint16Z
        | FieldType::Uint32
        | FieldType::Uint32Z
        | FieldType::Sint8 => true,
        _ => false,
    }
}

/// Whether a kind has a rule of its own.
fn is_ruled_kind(kind: FieldType) -> (r: bool)
    ensures
        r == spec_is_ruled_kind(kind),
{
    if is_scaled_kind(kind) {
        true
    } else {
        match kind {
            FieldType::Unknown
            | FieldType::Coordinates
            | FieldType::Timestamp
            | FieldType::DateTime
            | FieldType::LocalDateTime
            | FieldType::String
            | FieldType::LocaltimeIntoDay => true,
            _ => false,
        }
    }
}

impl DataField {
    /// A field with the given number and value.
    pub fn new(fnum: u8, v: Value) -> (f: DataField)
        ensures
            f.field_num == fnum,
            f.value == v,
    {
        Self { field_num: fnum, value: v }
    }

    /// A copy of the field.
    pub fn clone_field(&self) -> (f: DataField)
        ensures
            f@ == self@,
    {
        Self { field_num: self.field_num, value: self.value.clone_value() }
    }

    /// Reads the next field of the given size and base type.
    ///
    /// Where fewer than `size` bytes are left, the field is `Absent` and the
    /// cursor goes to the end. Else the cursor moves `size` bytes on and the
    /// value is that of those bytes.
    pub fn read_next_field(size: u8, base_type: u8, reader: &mut ByteCursor, endian: Endian) -> (v:
        Value)
        ensures
            final(reader).bytes() == old(reader).bytes(),
            final(reader).spec_position() == min_int(
                old(reader).spec_position() + size,
                old(reader).bytes().len() as int,
            ),
            can_read(*old(reader), size) ==> v@ == spec_decode_field(
                base_type,
                size,
                endian,
                next_bytes(*old(reader), size),
            ),
            !can_read(*old(reader), size) ==> v@ is Absent,
    {
        if reader.remaining() < size as usize {
            skip_bytes(reader, size);
            return Value::Absent;
        }
        match base_type {
            // enum, sint8, uint8, uint8z, byte
            0 | 1 | 2 | 10 | 13 => read_field_1(size, base_type, reader, endian),
            // sint16, uint16, uint16z
            3 | 4 | 11 => read_field_2(size, base_type, reader, endian),
            // sint32, uint32, float32, uint32z
            5 | 6 | 8 | 12 => read_field_4(size, base_type, reader, endian),
            // string
            7 => {
                let buf = read_u8_arr(reader, size);
                decode_string(buf)
            },
            // float64, sint64, uint64, uint64z
            9 | 14 | 15 | 16 => read_field_8(size, base_type, reader, endian),
            _ => {
                skip_bytes(reader, size);
                Value::Absent
            },
        }
    }

    /// Gives a decoded field the meaning that the profile gives it in
    /// messages of type `message_type`.
    pub fn process_read_value(v: &mut DataField, message_type: MessageType)
        ensures
            final(v)@ == spec_process_read(message_type, old(v)@),
    {
        let k: usize = v.field_num as usize;
        let kind = get_field_type_fn(message_type, k);
        match kind {
            FieldType::Timestamp | FieldType::DateTime => {
                if let Value::U32(inner) = v.value {
                    let date: u32 = shift_seconds(inner, PSEUDO_EPOCH as i64);
                    v.value = Value::Time(date);
                }
            },
            FieldType::LocalDateTime => {
                if let Value::U32(inner) = v.value {
                    let time: u32 = shift_seconds(
                        inner,
                        PSEUDO_EPOCH as i64 - LOCAL_TIME_BIAS as i64,
                    );
                    v.value = Value::Time(time);
                }
            },
            _ => {
                if is_scaled_kind(kind) {
                    if let Some(s) = get_field_scale_fn(message_type, k) {
                        v.value.scale(s);
                    }
                    if let Some(o) = get_field_offset_fn(message_type, k) {
                        v.value.offset(o);
                    }
                } else if !is_ruled_kind(kind) {
                    if let Value::U8(key) = v.value {
                        if let Some(t) = get_field_string_value(kind, key as usize) {
                            v.value = Value::Enum(t);
                        }
                    } else if let Value::U16(key) = v.value {
                        if let Some(t) = get_field_string_value(kind, key as usize) {
                            v.value = Value::Enum(t);
                        }
                    }
                }
            },
        }
    }

    /// The raw value that a field of a message of type `message_type` is
    /// written as, in a layout whose field at that place is `def_field`.
    pub fn process_write_value(
        v: &DataField,
        message_type: MessageType,
        def_field: Option<&FieldDefinition>,
    ) -> (r: Value)
        ensures
            r@ == spec_process_write(
                message_type,
                v@,
                match def_field {
                    Some(d) => Some(d.size),
                    None => None,
                },
            ),
    {
        let k: usize = v.field_num as usize;
        let kind = get_field_type_fn(message_type, k);
        match kind {
            FieldType::DateTime | FieldType::Timestamp => {
                if let Value::Time(inner) = v.value {
                    let date: u32 = shift_seconds(inner, -(PSEUDO_EPOCH as i64));
                    return Value::U32(date);
                }
                v.value.clone_value()
            },
            FieldType::LocalDateTime => {
                if let Value::Time(inner) = v.value {
                    let date: u32 = shift_seconds(
                        inner,
                        LOCAL_TIME_BIAS as i64 - PSEUDO_EPOCH as i64,
                    );
                    return Value::U32(date);
                }
                v.value.clone_value()
            },
            _ => {
                let mut value = v.value.clone_value();
                if is_scaled_kind(kind) {
                    if let Some(o) = get_field_offset_fn(message_type, k) {
                        value.reoffset(o);
                    }
                    if let Some(s) = get_field_scale_fn(message_type, k) {
                        value.rescale(s);
                    }
                    value
                } else if is_ruled_kind(kind) {
                    value
                } else {
                    if let Value::Enum(name) = value {
                        if let Some(t) = get_field_key_from_string(kind, name) {
                            match def_field {
                                None => {},
                                Some(def_field) => {
                                    let key: u64 = t as u64;
                                    if def_field.size == 1 {
                                        return Value::U8((key % 0x100) as u8);
                                    } else if def_field.size == 2 {
                                        return Value::U16((key % 0x1_0000) as u16);
                                    } else if def_field.size == 4 {
                                        return Value::U32((key % 0x1_0000_0000) as u32);
                                    } else if def_field.size == 8 {
                                        return Value::U64(key);
                                    }
                                },
                            }
                        }
                    }
                    value
                }
            },
        }
    }

    /// Reads the fields of one data record of type `message_type` with the
    /// layout `fields`.
    ///
    /// Fails with `Truncated`, and only so, where fewer bytes are left than
    /// the sizes of the layout add up to; the cursor then stays. Else the
    /// cursor moves past the record.
    pub fn parse_data_field(
        reader: &mut ByteCursor,
        endian: Endian,
        message_type: MessageType,
        fields: &Vec<FieldDefinition>,
    ) -> (r: Result<Vec<DataField>, FitError>)
        ensures
            final(reader).bytes() == old(reader).bytes(),
            match r {
                Ok(values) => {
                    &&& old(reader).spec_position() + spec_total_size(fields@) <= old(
                        reader,
                    ).bytes().len()
                    &&& final(reader).spec_position() == old(reader).spec_position()
                        + spec_total_size(fields@)
                    &&& fields_view(values@) == spec_data_fields(
                        message_type,
                        endian,
                        fields@,
                        old(reader).bytes().subrange(
                            old(reader).spec_position(),
                            old(reader).spec_position() + spec_total_size(fields@),
                        ),
                    )
                },
                Err(e) => {
                    &&& e == FitError::Truncated
                    &&& old(reader).spec_position() + spec_total_size(fields@) > old(
                        reader,
                    ).bytes().len()
                    &&& final(reader).spec_position() == old(reader).spec_position()
                },
            },
    {
        proof {
            reveal(spec_data_fields);
        }
        let start: usize = reader.position();
        let left: usize = reader.remaining();
        let ghost bytes = reader.bytes();
        let mut total: u128 = 0;
        let mut j: usize = 0;
        while j < fields.len()
            invariant
                j <= fields.len(),
                total == spec_total_size(fields@.take(j as int)),
                total <= 255 * j,
            decreases fields.len() - j,
        {
            proof {
                lemma_total_size_take(fields@, j as int);
            }
            total = total + fields[j].size as u128;
            j += 1;
        }
        proof {
            assert(fields@.take(j as int) =~= fields@);
        }
        if total > left as u128 {
            return Err(FitError::Truncated);
        }
        let total: usize = total as usize;
        let ghost b = bytes.subrange(start as int, start + total);
        let mut values: Vec<DataField> = Vec::with_capacity(fields.len());
        if message_type == MessageType::Unknown {
            let mut i: usize = 0;
            while i < fields.len()
                invariant
                    i <= fields.len(),
                    reader.bytes() == bytes,
                    start + total <= bytes.len(),
                    total == spec_total_size(fields@),
                    reader.spec_position() == start + spec_total_size(fields@.take(i as int)),
                decreases fields.len() - i,
            {
                proof {
                    lemma_total_size_take(fields@, i as int);
                    lemma_total_size_take(fields@, i as int + 1);
                }
                skip_bytes(reader, fields[i].size);
                i += 1;
            }
            proof {
                reveal(spec_data_fields);
                assert(fields@.take(i as int) =~= fields@);
                assert(fields_view(values@) =~= Seq::<DataFieldView>::empty());
            }
        } else {
            let mut i: usize = 0;
            while i < fields.len()
                invariant
                    i <= fields.len(),
                    reader.bytes() == bytes,
                    start + total <= bytes.len(),
                    total == spec_total_size(fields@),
                    b == bytes.subrange(start as int, start + total),
                    reader.spec_position() == start + spec_total_size(fields@.take(i as int)),
                    values@.len() == i,
                    forall|n: int|
                        0 <= n < i ==> (#[trigger] values@[n])@ == spec_process_read(
                            message_type,
                            spec_raw_field(endian, fields@, b, n),
                        ),
                decreases fields.len() - i,
            {
                let fd = fields[i];
                proof {
                    lemma_total_size_take(fields@, i as int);
                    lemma_total_size_take(fields@, i as int + 1);
                    let at = spec_total_size(fields@.take(i as int));
                    assert(next_bytes(*reader, fd.size) =~= b.subrange(at, at + fd.size));
                }
                let data = DataField::read_next_field(fd.size, fd.base_type.val, reader, endian);
                let mut field = DataField::new(fd.definition_number, data);
                DataField::process_read_value(&mut field, message_type);
                push_field(&mut values, field);
                i += 1;
            }
            proof {
                reveal(spec_data_fields);
                assert(fields@.take(i as int) =~= fields@);
                assert(fields_view(values@) =~= spec_data_fields(message_type, endian, fields@, b));
            }
        }
        Ok(values)
    }

    /// Appends the bytes of one data record of type `message_type` in the
    /// layout of `def_msg`: field after field of the layout, each with the
    /// value at its place.
    pub fn write_data_field(
        values: &Vec<DataField>,
        writer: &mut Vec<u8>,
        endian: Endian,
        message_type: MessageType,
        def_msg: &DefinitionMessage,
    )
        ensures
            final(writer)@ == old(writer)@ + spec_write_fields(
                fields_view(values@),
                message_type,
                endian,
                def_msg.fields@,
            ),
    {
        proof {
            reveal_with_fuel(spec_write_fields, 2);
            assert(writer@ =~= writer@ + Seq::<u8>::empty());
        }
        let mut i: usize = 0;
        while i < def_msg.fields.len()
            invariant
                i <= def_msg.fields.len(),
                writer@ == old(writer)@ + spec_write_fields(
                    fields_view(values@),
                    message_type,
                    endian,
                    def_msg.fields@.take(i as int),
                ),
            decreases def_msg.fields.len() - i,
        {
            let def_field = &def_msg.fields[i];
            let ghost before = writer@;
            if i < values.len() {
                let value = DataField::process_write_value(
                    &values[i],
                    message_type,
                    Some(def_field),
                );
                write_value(writer, &value, def_field, endian);
            } else {
                DataField::write_none(writer, endian, Some(def_field));
            }
            proof {
                reveal_with_fuel(spec_write_fields, 2);
                let next = def_msg.fields@.take(i as int + 1);
                assert(next.drop_last() =~= def_msg.fields@.take(i as int));
                assert(next.last() == def_msg.fields@[i as int]);
                assert(writer@ =~= old(writer)@ + spec_write_fields(
                    fields_view(values@),
                    message_type,
                    endian,
                    next,
                ));
            }
            i += 1;
        }
        proof {
            assert(def_msg.fields@.take(i as int) =~= def_msg.fields@);
        }
    }

    /// Appends the encoding of `Absent` for a field of the given layout, and
    /// nothing where there is no layout.
    pub fn write_none(writer: &mut Vec<u8>, endian: Endian, def_field: Option<&FieldDefinition>)
        ensures
            final(writer)@ == old(writer)@ + (match def_field {
                Some(d) => spec_encode_field(ValueView::Absent, d.base_type.val, d.size, endian),
                None => Seq::<u8>::empty(),
            }),
    {
        match def_field {
            None => {
                proof {
                    assert(writer@ =~= writer@ + Seq::<u8>::empty());
                }
            },
            Some(def_field) => {
                write_value(writer, &Value::Absent, def_field, endian);
            },
        }
    }
}

} // verus!
