//! Laws of the codec: what is written decodes to what was written.

use crate::protocol::{Endian, FieldDefinition};
use crate::protocol::data_field::{
    all_zero, elem_or, lemma_total_size_take, lemma_write_fields_len, spec_base_invalid,
    spec_base_width, spec_data_fields, spec_decode_field, spec_elems_u16, spec_elems_u32,
    spec_encode_array, spec_encode_field, spec_encode_string, spec_is_array, spec_is_ruled_kind,
    spec_is_scaled_kind, spec_process_read, spec_process_write, spec_raw, spec_raw_bytes,
    spec_read_transform, spec_scalar, spec_total_size, spec_value_bits, spec_write_fields,
    spec_write_one, spec_write_transform, without, zeros, DataFieldView,
};
use crate::protocol::get_field_offset::spec_field_offset;
use crate::protocol::get_field_scale::spec_field_scale;
use crate::protocol::get_field_string_value::{
    lemma_key_of_name, spec_field_string_value, FieldType,
};
use crate::protocol::get_field_type::spec_field_type;
use crate::protocol::io::{
    lemma_u16_round_trip, lemma_u32_round_trip, lemma_u64_round_trip, spec_u16_bytes,
    spec_u32_bytes,
};
use crate::protocol::message_type::MessageType;
use crate::protocol::value::{
    lemma_signed_there_and_back, lemma_unsigned_there_and_back, lemma_wrap_reduce, spec_offset,
    spec_ratio, spec_reoffset, spec_rescale, spec_scale, trunc_div, Scale, ValueView,
};
use vstd::prelude::*;

verus! {

/// What is left of a sequence without `x` holds no `x`, and is no longer
/// than the sequence.
pub proof fn lemma_without_holds_none<T>(s: Seq<T>, x: T)
    ensures
        without(s, x).len() <= s.len(),
        forall|i: int| 0 <= i < without(s, x).len() ==> without(s, x)[i] != x,
    decreases s.len(),
{
    if s.len() > 0 {
        lemma_without_holds_none(s.drop_last(), x);
    }
}

/// A sequence that holds no `x` is what is left of it without `x`.
pub proof fn lemma_without_of_clean<T>(s: Seq<T>, x: T)
    requires
        forall|i: int| 0 <= i < s.len() ==> s[i] != x,
    ensures
        without(s, x) == s,
    decreases s.len(),
{
    if s.len() > 0 {
        lemma_without_of_clean(s.drop_last(), x);
        assert(s.drop_last().push(s.last()) =~= s);
    }
}

/// A sequence that holds no `x`, filled up with `x` to `n` elements, is
/// itself again without `x`.
pub proof fn lemma_without_of_padded<T>(kept: Seq<T>, x: T, n: int)
    requires
        kept.len() <= n,
        forall|i: int| 0 <= i < kept.len() ==> kept[i] != x,
    ensures
        without(Seq::new(n as nat, |i: int| elem_or(kept, i, x)), x) == kept,
    decreases n,
{
    let s = Seq::new(n as nat, |i: int| elem_or(kept, i, x));
    if n == kept.len() {
        assert(s =~= kept);
        lemma_without_of_clean(kept, x);
    } else {
        assert(s.last() == x);
        assert(s.drop_last() =~= Seq::new((n - 1) as nat, |i: int| elem_or(kept, i, x)));
        lemma_without_of_padded(kept, x, n - 1);
    }
}

/// The invalid pattern of a base type fits the width of the base type.
pub proof fn lemma_invalid_fits(base_type: u8)
    ensures
        spec_base_width(base_type) == 1 ==> spec_base_invalid(base_type) <= 0xFF,
        spec_base_width(base_type) == 2 ==> spec_base_invalid(base_type) <= 0xFFFF,
        spec_base_width(base_type) == 4 ==> spec_base_invalid(base_type) <= 0xFFFF_FFFF,
{
}

/// Reading back the bytes written for an unsigned number that fits its
/// width gives the number.
pub proof fn lemma_raw_round_trip(raw: u64, w: int, endian: Endian)
    requires
        w == 1 || w == 2 || w == 4 || w == 8,
        w == 1 ==> raw <= 0xFF,
        w == 2 ==> raw <= 0xFFFF,
        w == 4 ==> raw <= 0xFFFF_FFFF,
    ensures
        spec_raw(endian, w, spec_raw_bytes(raw, w, endian)) == raw,
        spec_raw_bytes(raw, w, endian).len() == w,
{
    if w == 2 {
        lemma_u16_round_trip(raw as u16, endian);
    } else if w == 4 {
        lemma_u32_round_trip(raw as u32, endian);
    } else if w == 8 {
        lemma_u64_round_trip(raw, endian);
    }
}

/// A single value that was decoded is written as the bits it was decoded
/// from.
pub proof fn lemma_scalar_bits(base_type: u8, raw: u64)
    requires
        spec_base_width(base_type) > 0,
        spec_base_width(base_type) == 1 ==> raw <= 0xFF,
        spec_base_width(base_type) == 2 ==> raw <= 0xFFFF,
        spec_base_width(base_type) == 4 ==> raw <= 0xFFFF_FFFF,
    ensures
        spec_value_bits(spec_scalar(base_type, raw)) == Some((spec_base_width(base_type), raw)),
{
}

/// The elements that are read back from the bytes written for an array of
/// 16-bit elements are the elements written.
pub proof fn lemma_elems_u16_round_trip(a: Seq<u16>, inv: u16, n: int, endian: Endian)
    requires
        n >= 0,
    ensures
        spec_elems_u16(
            endian,
            Seq::new(
                (2 * n) as nat,
                |j: int| spec_u16_bytes(elem_or(a, j / 2, inv), endian)[j % 2],
            ),
            n,
        ) == Seq::new(n as nat, |i: int| elem_or(a, i, inv)),
{
    let flat = Seq::new(
        (2 * n) as nat,
        |j: int| spec_u16_bytes(elem_or(a, j / 2, inv), endian)[j % 2],
    );
    let want = Seq::new(n as nat, |i: int| elem_or(a, i, inv));
    assert forall|i: int| 0 <= i < n implies spec_elems_u16(endian, flat, n)[i] == want[i] by {
        let x = elem_or(a, i, inv);
        lemma_u16_round_trip(x, endian);
        let chunk = flat.skip(2 * i);
        assert(chunk[0] == spec_u16_bytes(x, endian)[0]);
        assert(chunk[1] == spec_u16_bytes(x, endian)[1]);
    }
    assert(spec_elems_u16(endian, flat, n) =~= want);
}

/// The elements that are read back from the bytes written for an array of
/// 32-bit elements are the elements written.
pub proof fn lemma_elems_u32_round_trip(a: Seq<u32>, inv: u32, n: int, endian: Endian)
    requires
        n >= 0,
    ensures
        spec_elems_u32(
            endian,
            Seq::new(
                (4 * n) as nat,
                |j: int| spec_u32_bytes(elem_or(a, j / 4, inv), endian)[j % 4],
            ),
            n,
        ) == Seq::new(n as nat, |i: int| elem_or(a, i, inv)),
{
    let flat = Seq::new(
        (4 * n) as nat,
        |j: int| spec_u32_bytes(elem_or(a, j / 4, inv), endian)[j % 4],
    );
    let want = Seq::new(n as nat, |i: int| elem_or(a, i, inv));
    assert forall|i: int| 0 <= i < n implies spec_elems_u32(endian, flat, n)[i] == want[i] by {
        let x = elem_or(a, i, inv);
        lemma_u32_round_trip(x, endian);
        let chunk = flat.skip(4 * i);
        assert(chunk[0] == spec_u32_bytes(x, endian)[0]);
        assert(chunk[1] == spec_u32_bytes(x, endian)[1]);
        assert(chunk[2] == spec_u32_bytes(x, endian)[2]);
        assert(chunk[3] == spec_u32_bytes(x, endian)[3]);
    }
    assert(spec_elems_u32(endian, flat, n) =~= want);
}

/// What `Absent` is written as in a field decodes to `Absent`, whatever the
/// field's base type and size.
pub proof fn lemma_absent_round_trip(base_type: u8, size: u8, endian: Endian)
    ensures
        spec_decode_field(
            base_type,
            size,
            endian,
            spec_encode_field(ValueView::Absent, base_type, size, endian),
        ) is Absent,
{
    let w = spec_base_width(base_type);
    let inv = spec_base_invalid(base_type);
    let bytes = spec_encode_field(ValueView::Absent, base_type, size, endian);
    if base_type == 7 {
        assert(all_zero(bytes));
    } else if w == 0 {
    } else if size == w {
        lemma_invalid_fits(base_type);
        lemma_raw_round_trip(inv, w, endian);
    } else if spec_is_array(base_type, size) {
        let n = size as int / w;
        assert(n * w == size) by (nonlinear_arith)
            requires
                n == size as int / w,
                size as int % w == 0,
                w > 0,
        ;
        lemma_invalid_fits(base_type);
        if w == 1 {
            let none = Seq::<u8>::empty();
            lemma_without_of_padded(none, inv as u8, n);
            assert(bytes =~= Seq::new(n as nat, |i: int| elem_or(none, i, inv as u8)));
        } else if w == 2 {
            let none = Seq::<u16>::empty();
            lemma_elems_u16_round_trip(none, inv as u16, n, endian);
            lemma_without_of_padded(none, inv as u16, n);
            assert(bytes.len() as int / 2 == n);
        } else {
            let none = Seq::<u32>::empty();
            lemma_elems_u32_round_trip(none, inv as u32, n, endian);
            lemma_without_of_padded(none, inv as u32, n);
            assert(bytes.len() as int / 4 == n);
        }
    }
}

/// A single field whose bytes are the invalid pattern of its base type is
/// `Absent`: it never decodes to the number that the pattern spells. So is
/// a string field that is all NUL.
pub proof fn lemma_invalid_is_absent(base_type: u8, size: u8, endian: Endian)
    ensures
        size == spec_base_width(base_type) ==> spec_decode_field(
            base_type,
            size,
            endian,
            spec_raw_bytes(spec_base_invalid(base_type), size as int, endian),
        ) is Absent,
        spec_decode_field(7, size, endian, zeros(size as int)) is Absent,
{
    if size == spec_base_width(base_type) && size > 0 {
        lemma_invalid_fits(base_type);
        lemma_raw_round_trip(spec_base_invalid(base_type), size as int, endian);
    }
    assert(all_zero(zeros(size as int)));
}

/// No field decodes to a single number whose bits are the invalid pattern
/// of the field's base type.
pub proof fn lemma_never_the_sentinel(base_type: u8, size: u8, endian: Endian, b: Seq<u8>)
    requires
        b.len() == size,
    ensures
        spec_value_bits(spec_decode_field(base_type, size, endian, b)) != Some(
            (spec_base_width(base_type), spec_base_invalid(base_type)),
        ),
{
    let w = spec_base_width(base_type);
    if base_type != 7 && w != 0 && size == w {
        let raw = spec_raw(endian, w, b);
        if raw != spec_base_invalid(base_type) {
            lemma_scalar_bits(base_type, raw);
        }
    }
}

/// A decoded field is written as bytes that decode to it again: the value
/// of a field survives the way to bytes and back, whatever the field's
/// bytes were.
pub proof fn lemma_field_round_trip(base_type: u8, size: u8, endian: Endian, b: Seq<u8>)
    requires
        b.len() == size,
    ensures
        spec_decode_field(
            base_type,
            size,
            endian,
            spec_encode_field(spec_decode_field(base_type, size, endian, b), base_type, size, endian),
        ) == spec_decode_field(base_type, size, endian, b),
        spec_encode_field(spec_decode_field(base_type, size, endian, b), base_type, size, endian).len()
            == size,
{
    let w = spec_base_width(base_type);
    let inv = spec_base_invalid(base_type);
    let v = spec_decode_field(base_type, size, endian, b);
    crate::protocol::data_field::lemma_encode_field_len(v, base_type, size, endian);
    if v is Absent {
        lemma_absent_round_trip(base_type, size, endian);
    } else if base_type == 7 {
        vstd::utf8::decode_utf8_encode_utf8(b);
        assert(spec_encode_string(v, size) =~= b);
    } else if size == w {
        let raw = spec_raw(endian, w, b);
        lemma_scalar_bits(base_type, raw);
        lemma_raw_round_trip(raw, w, endian);
    } else {
        let n = size as int / w;
        assert(n * w == size) by (nonlinear_arith)
            requires
                n == size as int / w,
                size as int % w == 0,
                w > 0,
        ;
        lemma_invalid_fits(base_type);
        if w == 1 {
            let kept = without(b, inv as u8);
            lemma_without_holds_none(b, inv as u8);
            lemma_without_of_padded(kept, inv as u8, n);
            assert(spec_encode_array(v, base_type, n, endian) =~= Seq::new(
                n as nat,
                |i: int| elem_or(kept, i, inv as u8),
            ));
        } else if w == 2 {
            let elems = spec_elems_u16(endian, b, b.len() as int / 2);
            let kept = without(elems, inv as u16);
            lemma_without_holds_none(elems, inv as u16);
            lemma_elems_u16_round_trip(kept, inv as u16, n, endian);
            lemma_without_of_padded(kept, inv as u16, n);
            assert(spec_encode_array(v, base_type, n, endian).len() as int / 2 == n);
        } else {
            let elems = spec_elems_u32(endian, b, b.len() as int / 4);
            let kept = without(elems, inv as u32);
            lemma_without_holds_none(elems, inv as u32);
            lemma_elems_u32_round_trip(kept, inv as u32, n, endian);
            lemma_without_of_padded(kept, inv as u32, n);
            assert(spec_encode_array(v, base_type, n, endian).len() as int / 4 == n);
        }
    }
}

/// Whether a value is a number that scale and offset apply to.
pub open spec fn spec_is_number(v: ValueView) -> bool {
    v is U8 || v is I8 || v is U16 || v is I16 || v is U32 || v is I32
}

/// The number that such a value holds.
pub open spec fn spec_number(v: ValueView) -> int {
    match v {
        ValueView::U8(x) => x as int,
        ValueView::I8(x) => x as int,
        ValueView::U16(x) => x as int,
        ValueView::I16(x) => x as int,
        ValueView::U32(x) => x as int,
        ValueView::I32(x) => x as int,
        _ => 0,
    }
}

/// Whether two values are of the same variant.
pub open spec fn spec_same_variant(a: ValueView, b: ValueView) -> bool {
    (a is U8 <==> b is U8) && (a is I8 <==> b is I8) && (a is U16 <==> b is U16) && (a is I16
        <==> b is I16) && (a is U32 <==> b is U32) && (a is I32 <==> b is I32)
}

/// Whether dividing a number by a scale stays within the range of the
/// number's variant, so that the quotient is not cut to the range.
pub open spec fn spec_scale_fits(v: ValueView, s: Scale) -> bool {
    spec_number(spec_scale(v, s)) == trunc_div(spec_number(v) * s.den, s.num as int)
}

/// The distance of two integers.
pub open spec fn spec_distance(a: int, b: int) -> int {
    if a >= b {
        a - b
    } else {
        b - a
    }
}

/// Dividing a number by `num / den` and multiplying the quotient by it
/// again, each rounded towards zero, gives a number between zero and the
/// first that is less than `num / den + 1` away from it: the two roundings
/// lose less than `num` and less than `den` parts of `den`.
pub proof fn lemma_ratio_round_trip(x: int, num: int, den: int, lo: int, hi: int)
    requires
        num >= 1,
        den >= 1,
        lo <= 0 <= hi,
        lo <= x <= hi,
        lo <= trunc_div(x * den, num) <= hi,
    ensures
        ({
            let d = spec_ratio(x, den, num, lo, hi);
            let e = spec_ratio(d, num, den, lo, hi);
            &&& x >= 0 ==> 0 <= e <= x
            &&& x <= 0 ==> x <= e <= 0
            &&& spec_distance(x, e) * den <= num + den - 2
            &&& e == trunc_div(trunc_div(x * den, num) * num, den)
        }),
{
    let mag = if x >= 0 {
        x
    } else {
        -x
    };
    let a = mag * den;
    assert(a >= 0) by (nonlinear_arith)
        requires
            a == mag * den,
            mag >= 0,
            den >= 1,
    ;
    let d = a / num;
    vstd::arithmetic::div_mod::lemma_fundamental_div_mod(a, num);
    assert(0 <= a % num < num);
    assert(d >= 0) by (nonlinear_arith)
        requires
            a == num * d + a % num,
            a >= 0,
            0 <= a % num < num,
            num >= 1,
    ;
    let c = d * num;
    assert(c >= 0) by (nonlinear_arith)
        requires
            c == d * num,
            d >= 0,
            num >= 1,
    ;
    assert(c == num * d) by (nonlinear_arith)
        requires
            c == d * num,
    ;
    let e = c / den;
    vstd::arithmetic::div_mod::lemma_fundamental_div_mod(c, den);
    assert(0 <= c % den < den);
    assert(0 <= e <= mag) by (nonlinear_arith)
        requires
            c == den * e + c % den,
            0 <= c % den < den,
            c >= 0,
            c <= a,
            a == mag * den,
            den >= 1,
    ;
    assert((mag - e) * den == a % num + c % den) by (nonlinear_arith)
        requires
            a == mag * den,
            a == num * d + a % num,
            c == num * d,
            c == den * e + c % den,
    ;
    if x >= 0 {
        assert(trunc_div(x * den, num) == d);
        assert(trunc_div(d * num, den) == e);
    } else {
        assert(-(x * den) == a) by (nonlinear_arith)
            requires
                a == (-x) * den,
        ;
        if a == 0 {
            assert(x * den == 0);
            assert(d == 0);
            assert(c == 0);
            assert(e == 0);
        } else {
            assert(x * den < 0);
            assert(trunc_div(x * den, num) == -d);
            assert((-d) * num == -c) by (nonlinear_arith)
                requires
                    c == d * num,
            ;
            if c == 0 {
                assert(e == 0);
            }
            assert(trunc_div((-d) * num, den) == -e);
        }
    }
}

/// Adding back the offset that was taken away gives the number again: the
/// arithmetic of offsets wraps at the width of the number, so nothing is
/// lost.
pub proof fn lemma_offset_round_trip(v: ValueView, o: i16)
    ensures
        spec_reoffset(spec_offset(v, o), o) == v,
{
    let d = o as int;
    match v {
        ValueView::U8(x) => {
            lemma_unsigned_there_and_back(x as int, d, 0x100);
        },
        ValueView::I8(x) => {
            lemma_signed_there_and_back(x as int, d, 0x100);
        },
        ValueView::U16(x) => {
            lemma_unsigned_there_and_back(x as int, d, 0x1_0000);
        },
        ValueView::I16(x) => {
            lemma_signed_there_and_back(x as int, d, 0x1_0000);
        },
        ValueView::U32(x) => {
            lemma_unsigned_there_and_back(x as int, d, 0x1_0000_0000);
        },
        ValueView::I32(x) => {
            lemma_signed_there_and_back(x as int, d, 0x1_0000_0000);
        },
        _ => {},
    }
}

/// The number that a raw number comes back as under a scale: divided by
/// the scale and multiplied by it again, each rounded towards zero.
pub open spec fn spec_way_back(x: int, s: Scale) -> int {
    trunc_div(trunc_div(x * s.den, s.num as int) * s.num, s.den as int)
}

/// The number that a raw number comes back as under the whole scale `n`:
/// the multiple of `n` next to it towards zero.
pub open spec fn spec_whole_way_back(x: int, n: int) -> int {
    if x >= 0 {
        x - x % n
    } else {
        -((-x) - (-x) % n)
    }
}

/// Decoding a raw number with a scale and an offset and encoding the result
/// again gives a raw number of the same variant: the number divided by the
/// scale and multiplied by it again. It lies between zero and the first,
/// less than the scale plus one away from it. The offset plays no part.
pub proof fn lemma_scale_offset_round_trip(v: ValueView, s: Scale, o: i16)
    requires
        s.wf(),
        spec_is_number(v),
        spec_scale_fits(v, s),
    ensures
        ({
            let back = spec_rescale(spec_reoffset(spec_offset(spec_scale(v, s), o), o), s);
            &&& spec_same_variant(back, v)
            &&& back == spec_rescale(spec_scale(v, s), s)
            &&& spec_number(back) == spec_way_back(spec_number(v), s)
            &&& spec_distance(spec_number(v), spec_number(back)) * s.den <= s.num + s.den - 2
            &&& spec_number(v) >= 0 ==> 0 <= spec_number(back) <= spec_number(v)
            &&& spec_number(v) <= 0 ==> spec_number(v) <= spec_number(back) <= 0
        }),
{
    lemma_offset_round_trip(spec_scale(v, s), o);
    let x = spec_number(v);
    match v {
        ValueView::U8(_) => {
            lemma_ratio_round_trip(x, s.num as int, s.den as int, 0, 0xFF);
        },
        ValueView::I8(_) => {
            lemma_ratio_round_trip(x, s.num as int, s.den as int, -0x80, 0x7F);
        },
        ValueView::U16(_) => {
            lemma_ratio_round_trip(x, s.num as int, s.den as int, 0, 0xFFFF);
        },
        ValueView::I16(_) => {
            lemma_ratio_round_trip(x, s.num as int, s.den as int, -0x8000, 0x7FFF);
        },
        ValueView::U32(_) => {
            lemma_ratio_round_trip(x, s.num as int, s.den as int, 0, 0xFFFF_FFFF);
        },
        ValueView::I32(_) => {
            lemma_ratio_round_trip(x, s.num as int, s.den as int, -0x8000_0000, 0x7FFF_FFFF);
        },
        _ => {},
    }
}

/// Whether a scale loses at most one unit on the way there and back,
/// whatever the number: a scale of no more than one part above one.
pub open spec fn spec_scale_within_one(s: Scale) -> bool {
    s.wf() && s.num <= s.den + 1
}

/// The way there and back of a field that is a plain number: a raw number
/// given its meaning and taken back to a raw number is, without a scale,
/// the raw number itself; with a scale whose quotient fits the number's
/// width it is the number divided by the scale and multiplied by it again,
/// which for a whole scale is the multiple of the scale next to the number
/// towards zero. The offset plays no part.
pub proof fn lemma_transform_way_back(
    kind: FieldType,
    scale: Option<Scale>,
    offset: Option<i16>,
    size: Option<u8>,
    v: ValueView,
)
    requires
        spec_is_scaled_kind(kind),
        spec_is_number(v),
        scale is Some ==> scale->0.wf() && (scale->0.den == 1 || spec_scale_fits(v, scale->0)),
    ensures
        ({
            let back = spec_write_transform(
                kind,
                scale,
                offset,
                size,
                spec_read_transform(kind, scale, offset, v),
            );
            &&& spec_same_variant(back, v)
            &&& scale is None ==> back == v
            &&& scale is Some ==> spec_number(back) == spec_way_back(spec_number(v), scale->0)
            &&& scale is Some && scale->0.den == 1 ==> spec_number(back) == spec_whole_way_back(
                spec_number(v),
                scale->0.num as int,
            )
        }),
{
    let scaled = match scale {
        Some(s) => spec_scale(v, s),
        None => v,
    };
    match offset {
        Some(o) => {
            lemma_offset_round_trip(scaled, o);
        },
        None => {},
    }
    match scale {
        Some(s) => {
            if s.den == 1 {
                lemma_whole_scale_exact(v, s);
            }
            lemma_scale_offset_round_trip(v, s, 0);
        },
        None => {},
    }
}

/// A raw number of a field that is a plain number, given its meaning and
/// taken back to a raw number, is the raw number to within one unit: for a
/// field without a scale exactly; for a field with a scale of no more than
/// one part above one, whatever the number; and for any other scale,
/// exactly for the numbers that the scale itself takes no further than one
/// unit. Under a scale that is not whole, the quotient has to fit the
/// number's width.
pub proof fn lemma_transform_within_one(
    kind: FieldType,
    scale: Option<Scale>,
    offset: Option<i16>,
    size: Option<u8>,
    v: ValueView,
)
    requires
        spec_is_scaled_kind(kind),
        spec_is_number(v),
        scale is Some ==> scale->0.wf() && (scale->0.den == 1 || spec_scale_fits(v, scale->0)) && (
        spec_scale_within_one(scale->0) || spec_distance(
            spec_number(v),
            spec_way_back(spec_number(v), scale->0),
        ) <= 1),
    ensures
        ({
            let back = spec_write_transform(
                kind,
                scale,
                offset,
                size,
                spec_read_transform(kind, scale, offset, v),
            );
            &&& spec_same_variant(back, v)
            &&& spec_distance(spec_number(v), spec_number(back)) <= 1
            &&& scale is None ==> back == v
        }),
{
    lemma_transform_way_back(kind, scale, offset, size, v);
    match scale {
        Some(s) => {
            if s.den == 1 {
                lemma_whole_scale_exact(v, s);
            }
            lemma_scale_offset_round_trip(v, s, 0);
            let dist = spec_distance(spec_number(v), spec_way_back(spec_number(v), s));
            if s.num <= s.den + 1 {
                assert(dist <= 1) by (nonlinear_arith)
                    requires
                        dist * s.den <= s.num + s.den - 2,
                        s.num <= s.den + 1,
                        s.den >= 1,
                        dist >= 0,
                ;
            }
        },
        None => {},
    }
}

/// A raw number that a scale takes further than one unit does not come
/// back to within one unit: the premise of `lemma_transform_within_one`
/// leaves out no number that does.
pub proof fn lemma_transform_beyond_one(
    kind: FieldType,
    s: Scale,
    offset: Option<i16>,
    size: Option<u8>,
    v: ValueView,
)
    requires
        spec_is_scaled_kind(kind),
        spec_is_number(v),
        s.wf(),
        s.den == 1 || spec_scale_fits(v, s),
        spec_distance(spec_number(v), spec_way_back(spec_number(v), s)) > 1,
    ensures
        spec_distance(
            spec_number(v),
            spec_number(
                spec_write_transform(
                    kind,
                    Some(s),
                    offset,
                    size,
                    spec_read_transform(kind, Some(s), offset, v),
                ),
            ),
        ) > 1,
{
    lemma_transform_way_back(kind, Some(s), offset, size, v);
}

/// With a whole scale, decoding and encoding rounds a raw number towards
/// zero to a multiple of the scale: what is lost is the remainder of the
/// number's magnitude by the scale.
pub proof fn lemma_whole_scale_exact(v: ValueView, s: Scale)
    requires
        s.wf(),
        s.den == 1,
        spec_is_number(v),
    ensures
        spec_scale_fits(v, s),
        spec_number(spec_rescale(spec_scale(v, s), s)) == spec_whole_way_back(
            spec_number(v),
            s.num as int,
        ),
        spec_distance(spec_number(v), spec_number(spec_rescale(spec_scale(v, s), s))) == (
        if spec_number(v) >= 0 {
            spec_number(v) % (s.num as int)
        } else {
            (-spec_number(v)) % (s.num as int)
        }),
        spec_distance(spec_number(v), spec_number(spec_rescale(spec_scale(v, s), s))) < s.num,
{
    let x = spec_number(v);
    let mag = if x >= 0 {
        x
    } else {
        -x
    };
    let n = s.num as int;
    vstd::arithmetic::div_mod::lemma_fundamental_div_mod(mag, n);
    let q = mag / n;
    assert(0 <= q <= mag) by (nonlinear_arith)
        requires
            mag == n * q + mag % n,
            0 <= mag % n < n,
            n >= 1,
            mag >= 0,
    ;
    assert(x * 1 == x);
    assert(trunc_div(x * 1, n) == if x >= 0 {
        q
    } else {
        -q
    });
    lemma_scale_offset_round_trip(v, s, 0);
    assert(q * n == n * q) by (nonlinear_arith);
    assert((q * n) * 1 == q * n);
    assert((-q) * n == -(q * n)) by (nonlinear_arith);
    assert(((-q) * n) / 1 == (-q) * n);
    assert((q * n) / 1 == q * n);
    assert(q * n >= 0) by (nonlinear_arith)
        requires
            q >= 0,
            n >= 1,
    ;
    assert(spec_way_back(x, s) == if x >= 0 {
        q * n
    } else {
        -(q * n)
    });
}

/// Whether a value is one that a field's bytes decode to, before the
/// profile gives it a meaning.
pub open spec fn spec_is_raw(v: ValueView) -> bool {
    !(v is Time) && !(v is Enum)
}

/// A decoded value is raw; it is a number of 8 bits only in a field of one
/// byte, and of 16 bits only in a field of two.
pub proof fn lemma_decoded_shape(base_type: u8, size: u8, endian: Endian, b: Seq<u8>)
    ensures
        spec_is_raw(spec_decode_field(base_type, size, endian, b)),
        spec_decode_field(base_type, size, endian, b) is U8 ==> size == 1,
        spec_decode_field(base_type, size, endian, b) is U16 ==> size == 2,
        spec_is_number(spec_decode_field(base_type, size, endian, b)) ==> size == spec_base_width(
            base_type,
        ) && spec_decode_field(base_type, size, endian, b) == spec_scalar(
            base_type,
            spec_raw(endian, size as int, b),
        ) && spec_raw(endian, size as int, b) != spec_base_invalid(base_type),
{
}

/// The field at a place of a layout that the bytes `b` spell in a message
/// of type `m`: decoded, and given its meaning.
pub open spec fn spec_field_there(
    m: MessageType,
    fd: FieldDefinition,
    endian: Endian,
    b: Seq<u8>,
) -> DataFieldView {
    spec_process_read(
        m,
        DataFieldView {
            field_num: fd.definition_number,
            value: spec_decode_field(fd.base_type.val, fd.size, endian, b),
        },
    )
}

/// The bytes that a field of a message of type `m` is written as at a place
/// of a layout.
pub open spec fn spec_field_back(
    m: MessageType,
    fd: FieldDefinition,
    endian: Endian,
    f: DataFieldView,
) -> Seq<u8> {
    spec_encode_field(spec_process_write(m, f, Some(fd.size)), fd.base_type.val, fd.size, endian)
}

/// `Absent` has no meaning but `Absent`, whatever the kind of the field, and
/// is written as `Absent`.
pub proof fn lemma_absent_stays(
    kind: FieldType,
    scale: Option<Scale>,
    offset: Option<i16>,
    size: Option<u8>,
)
    ensures
        spec_read_transform(kind, scale, offset, ValueView::Absent) is Absent,
        spec_write_transform(kind, scale, offset, size, ValueView::Absent) is Absent,
{
}

/// Sentinel handling: a single field of a message whose bytes are the
/// invalid pattern of its base type is `Absent`, whatever the profile says
/// of the field.
pub proof fn lemma_invalid_field_is_absent(m: MessageType, fd: FieldDefinition, endian: Endian)
    requires
        fd.size == spec_base_width(fd.base_type.val),
    ensures
        spec_field_there(
            m,
            fd,
            endian,
            spec_raw_bytes(spec_base_invalid(fd.base_type.val), fd.size as int, endian),
        ).value is Absent,
{
    lemma_invalid_is_absent(fd.base_type.val, fd.size, endian);
    let k = fd.definition_number as usize;
    lemma_absent_stays(
        spec_field_type(m, k),
        spec_field_scale(m, k),
        spec_field_offset(m, k),
        None,
    );
}

/// Whether every field that bytes at this place of a layout decode to is
/// written as bytes that decode to it again.
pub open spec fn spec_stable_field(m: MessageType, fd: FieldDefinition, endian: Endian) -> bool {
    forall|b: Seq<u8>|
        b.len() == fd.size ==> spec_field_there(
            m,
            fd,
            endian,
            spec_field_back(m, fd, endian, #[trigger] spec_field_there(m, fd, endian, b)),
        ) == spec_field_there(m, fd, endian, b)
}

/// Whether every field of a layout is stable in messages of type `m`.
/// Messages of an unknown type have no fields, and are stable with that.
pub open spec fn spec_stable_layout(
    m: MessageType,
    endian: Endian,
    fields: Seq<FieldDefinition>,
) -> bool {
    m == MessageType::Unknown || forall|i: int|
        0 <= i < fields.len() ==> spec_stable_field(m, #[trigger] fields[i], endian)
}

/// Whether the profile gives a field of messages of type `m` a meaning that
/// loses nothing: every kind but a plain number with a scale.
pub open spec fn spec_exact_profile(m: MessageType, field_num: u8) -> bool {
    !spec_is_scaled_kind(spec_field_type(m, field_num as usize)) || spec_field_scale(
        m,
        field_num as usize,
    ) is None
}

/// Whether the profile gives a field of messages of type `m` a whole scale,
/// in a layout whose invalid pattern is not zero.
pub open spec fn spec_whole_scale_profile(m: MessageType, fd: FieldDefinition) -> bool {
    let scale = spec_field_scale(m, fd.definition_number as usize);
    &&& spec_is_scaled_kind(spec_field_type(m, fd.definition_number as usize))
    &&& scale is Some
    &&& scale->0.den == 1
    &&& scale->0.num >= 1
    &&& spec_base_invalid(fd.base_type.val) != 0
}

/// The meaning of what the bytes `b` of a field decode to.
pub open spec fn spec_there(
    kind: FieldType,
    scale: Option<Scale>,
    offset: Option<i16>,
    base_type: u8,
    size: u8,
    endian: Endian,
    b: Seq<u8>,
) -> ValueView {
    spec_read_transform(kind, scale, offset, spec_decode_field(base_type, size, endian, b))
}

/// The bytes that a field with the meaning `v` is written as.
pub open spec fn spec_back(
    kind: FieldType,
    scale: Option<Scale>,
    offset: Option<i16>,
    base_type: u8,
    size: u8,
    endian: Endian,
    v: ValueView,
) -> Seq<u8> {
    spec_encode_field(
        spec_write_transform(kind, scale, offset, Some(size), v),
        base_type,
        size,
        endian,
    )
}

/// The meaning of a raw value of a kind without a scale goes back to the
/// raw value.
pub proof fn lemma_transform_inverts(
    kind: FieldType,
    scale: Option<Scale>,
    offset: Option<i16>,
    size: u8,
    v: ValueView,
)
    requires
        !spec_is_scaled_kind(kind) || scale is None,
        spec_is_raw(v),
        v is U8 ==> size == 1,
        v is U16 ==> size == 2,
    ensures
        spec_write_transform(
            kind,
            scale,
            offset,
            Some(size),
            spec_read_transform(kind, scale, offset, v),
        ) == v,
{
    if kind == FieldType::Timestamp || kind == FieldType::DateTime {
        match v {
            ValueView::U32(x) => {
                lemma_wrap_reduce(x + 631_065_600, -631_065_600, 0x1_0000_0000, 1);
            },
            _ => {},
        }
    } else if kind == FieldType::LocalDateTime {
        match v {
            ValueView::U32(x) => {
                lemma_wrap_reduce(
                    x + 631_065_600 - 3600,
                    3600 - 631_065_600,
                    0x1_0000_0000,
                    1,
                );
            },
            _ => {},
        }
    } else if spec_is_scaled_kind(kind) {
        match offset {
            Some(o) => {
                lemma_offset_round_trip(v, o);
            },
            None => {},
        }
    } else if spec_is_ruled_kind(kind) {
    } else {
        match v {
            ValueView::U8(key) => {
                if spec_field_string_value(kind, key as usize) is Some {
                    lemma_key_of_name(kind, key as usize);
                }
            },
            ValueView::U16(key) => {
                if spec_field_string_value(kind, key as usize) is Some {
                    lemma_key_of_name(kind, key as usize);
                }
            },
            _ => {},
        }
    }
}

/// A field of a kind without a scale is written as bytes that decode to
/// the same again.
pub proof fn lemma_exact_kind_settles(
    kind: FieldType,
    scale: Option<Scale>,
    offset: Option<i16>,
    base_type: u8,
    size: u8,
    endian: Endian,
    b: Seq<u8>,
)
    requires
        !spec_is_scaled_kind(kind) || scale is None,
        b.len() == size,
    ensures
        spec_there(
            kind,
            scale,
            offset,
            base_type,
            size,
            endian,
            spec_back(
                kind,
                scale,
                offset,
                base_type,
                size,
                endian,
                spec_there(kind, scale, offset, base_type, size, endian, b),
            ),
        ) == spec_there(kind, scale, offset, base_type, size, endian, b),
{
    let v = spec_decode_field(base_type, size, endian, b);
    lemma_decoded_shape(base_type, size, endian, b);
    lemma_transform_inverts(kind, scale, offset, size, v);
    lemma_field_round_trip(base_type, size, endian, b);
}

/// A field with a whole scale, in a layout whose invalid pattern is not
/// zero, is written as bytes that decode to the same again: the raw number
/// is rounded to a multiple of the scale once, and stays.
pub proof fn lemma_whole_scale_settles_field(
    kind: FieldType,
    s: Scale,
    offset: Option<i16>,
    base_type: u8,
    size: u8,
    endian: Endian,
    b: Seq<u8>,
)
    requires
        spec_is_scaled_kind(kind),
        s.den == 1,
        s.num >= 1,
        spec_base_invalid(base_type) != 0,
        b.len() == size,
    ensures
        spec_there(
            kind,
            Some(s),
            offset,
            base_type,
            size,
            endian,
            spec_back(
                kind,
                Some(s),
                offset,
                base_type,
                size,
                endian,
                spec_there(kind, Some(s), offset, base_type, size, endian, b),
            ),
        ) == spec_there(kind, Some(s), offset, base_type, size, endian, b),
{
    let v = spec_decode_field(base_type, size, endian, b);
    lemma_decoded_shape(base_type, size, endian, b);
    let scaled = spec_scale(v, s);
    let there = spec_there(kind, Some(s), offset, base_type, size, endian, b);
    match offset {
        Some(o) => {
            lemma_offset_round_trip(scaled, o);
        },
        None => {},
    }
    if spec_is_number(v) {
        lemma_whole_scale_settles(v, s);
        let back = spec_rescale(scaled, s);
        assert(spec_write_transform(kind, Some(s), offset, Some(size), there) == back);
        lemma_number_decodes_back(base_type, size, endian, b, back);
    } else {
        assert(spec_write_transform(kind, Some(s), offset, Some(size), there) == v);
        lemma_field_round_trip(base_type, size, endian, b);
    }
}

/// A number of the variant that a field decodes to, no further from zero
/// than the number that the field's bytes spell and on the same side of it,
/// is written as bytes that decode to it, where the invalid pattern of the
/// field's base type is not zero.
pub proof fn lemma_number_decodes_back(
    base_type: u8,
    size: u8,
    endian: Endian,
    b: Seq<u8>,
    back: ValueView,
)
    requires
        b.len() == size,
        spec_base_invalid(base_type) != 0,
        spec_is_number(spec_decode_field(base_type, size, endian, b)),
        spec_same_variant(back, spec_decode_field(base_type, size, endian, b)),
        spec_is_number(back),
        spec_number(spec_decode_field(base_type, size, endian, b)) >= 0 ==> 0 <= spec_number(back)
            <= spec_number(spec_decode_field(base_type, size, endian, b)),
        spec_number(spec_decode_field(base_type, size, endian, b)) <= 0 ==> spec_number(
            spec_decode_field(base_type, size, endian, b),
        ) <= spec_number(back) <= 0,
    ensures
        spec_decode_field(base_type, size, endian, spec_encode_field(back, base_type, size, endian))
            == back,
{
    lemma_decoded_shape(base_type, size, endian, b);
    let raw = spec_raw(endian, size as int, b);
    lemma_scalar_bits(base_type, raw);
    lemma_invalid_fits(base_type);
    let pair = spec_value_bits(back)->0;
    let bits = pair.1;
    lemma_raw_round_trip(bits, size as int, endian);
}

/// With a whole scale, a number that was divided and multiplied again is
/// divided to the same quotient as before.
pub proof fn lemma_whole_scale_settles(v: ValueView, s: Scale)
    requires
        s.wf(),
        s.den == 1,
        spec_is_number(v),
    ensures
        spec_scale(spec_rescale(spec_scale(v, s), s), s) == spec_scale(v, s),
        spec_same_variant(spec_rescale(spec_scale(v, s), s), v),
        spec_number(v) >= 0 ==> 0 <= spec_number(spec_rescale(spec_scale(v, s), s)) <= spec_number(
            v,
        ),
        spec_number(v) <= 0 ==> spec_number(v) <= spec_number(spec_rescale(spec_scale(v, s), s))
            <= 0,
{
    lemma_whole_scale_exact(v, s);
    lemma_scale_offset_round_trip(v, s, 0);
    let x = spec_number(v);
    let n = s.num as int;
    let mag = if x >= 0 {
        x
    } else {
        -x
    };
    vstd::arithmetic::div_mod::lemma_fundamental_div_mod(mag, n);
    let q = mag / n;
    assert(0 <= q <= mag) by (nonlinear_arith)
        requires
            mag == n * q + mag % n,
            0 <= mag % n < n,
            n >= 1,
            mag >= 0,
    ;
    assert(0 <= q * n <= mag) by (nonlinear_arith)
        requires
            mag == n * q + mag % n,
            0 <= mag % n < n,
            n >= 1,
            q >= 0,
    ;
    assert((q * n) / n == q) by (nonlinear_arith)
        requires
            n >= 1,
            q >= 0,
    ;
    assert(x * 1 == x);
    assert(q * 1 == q);
    assert((q * n) * 1 == q * n);
    assert((-q) * n == -(q * n)) by (nonlinear_arith);
    assert(((-q) * n) * 1 == (-q) * n);
    assert((-q) * 1 == -q);
    if q == 0 {
        assert(q * n == 0);
    } else {
        assert(q * n > 0) by (nonlinear_arith)
            requires
                q > 0,
                n >= 1,
        ;
    }
}

/// A field whose meaning loses nothing is stable.
pub proof fn lemma_exact_profile_stable(m: MessageType, fd: FieldDefinition, endian: Endian)
    requires
        spec_exact_profile(m, fd.definition_number),
    ensures
        spec_stable_field(m, fd, endian),
{
    let k = fd.definition_number as usize;
    let kind = spec_field_type(m, k);
    let scale = spec_field_scale(m, k);
    let offset = spec_field_offset(m, k);
    assert forall|b: Seq<u8>| b.len() == fd.size implies spec_field_there(
        m,
        fd,
        endian,
        spec_field_back(m, fd, endian, #[trigger] spec_field_there(m, fd, endian, b)),
    ) == spec_field_there(m, fd, endian, b) by {
        lemma_exact_kind_settles(kind, scale, offset, fd.base_type.val, fd.size, endian, b);
    }
}

/// A field with a whole scale, in a layout whose invalid pattern is not
/// zero, is stable.
pub proof fn lemma_whole_scale_stable(m: MessageType, fd: FieldDefinition, endian: Endian)
    requires
        spec_whole_scale_profile(m, fd),
    ensures
        spec_stable_field(m, fd, endian),
{
    let k = fd.definition_number as usize;
    let kind = spec_field_type(m, k);
    let s = spec_field_scale(m, k)->0;
    let offset = spec_field_offset(m, k);
    assert forall|b: Seq<u8>| b.len() == fd.size implies spec_field_there(
        m,
        fd,
        endian,
        spec_field_back(m, fd, endian, #[trigger] spec_field_there(m, fd, endian, b)),
    ) == spec_field_there(m, fd, endian, b) by {
        lemma_whole_scale_settles_field(kind, s, offset, fd.base_type.val, fd.size, endian, b);
    }
}

/// A field is stable where the profile loses nothing, and where it gives a
/// whole scale in a layout whose invalid pattern is not zero.
pub proof fn lemma_stable_field(m: MessageType, fd: FieldDefinition, endian: Endian)
    requires
        spec_exact_profile(m, fd.definition_number) || spec_whole_scale_profile(m, fd),
    ensures
        spec_stable_field(m, fd, endian),
{
    if spec_exact_profile(m, fd.definition_number) {
        lemma_exact_profile_stable(m, fd, endian);
    } else {
        lemma_whole_scale_stable(m, fd, endian);
    }
}

/// The bytes of the field at place `i` of a record stand in the record
/// where the sizes of the fields before it add up to.
pub proof fn lemma_write_fields_piece(
    values: Seq<DataFieldView>,
    m: MessageType,
    endian: Endian,
    fields: Seq<FieldDefinition>,
    i: int,
)
    requires
        0 <= i < fields.len(),
    ensures
        ({
            let at = spec_total_size(fields.take(i));
            &&& 0 <= at
            &&& at + fields[i].size <= spec_write_fields(values, m, endian, fields).len()
            &&& spec_write_fields(values, m, endian, fields).subrange(at, at + fields[i].size)
                == spec_write_one(values, m, endian, fields[i], i)
        }),
    decreases fields.len(),
{
    reveal_with_fuel(spec_write_fields, 2);
    let whole = spec_write_fields(values, m, endian, fields);
    let front = spec_write_fields(values, m, endian, fields.drop_last());
    let last = spec_write_one(values, m, endian, fields.last(), fields.len() - 1);
    lemma_write_fields_len(values, m, endian, fields);
    lemma_write_fields_len(values, m, endian, fields.drop_last());
    lemma_total_size_take(fields, i);
    lemma_total_size_take(fields, i + 1);
    let at = spec_total_size(fields.take(i));
    if i == fields.len() - 1 {
        assert(fields.take(i) =~= fields.drop_last());
        assert(whole.subrange(at, at + fields[i].size) =~= last);
    } else {
        lemma_write_fields_piece(values, m, endian, fields.drop_last(), i);
        assert(fields.drop_last().take(i) =~= fields.take(i));
        assert(whole.subrange(at, at + fields[i].size) =~= front.subrange(
            at,
            at + fields[i].size,
        ));
    }
}

/// Whether a field at a place of a layout is written as bytes that decode
/// to it again.
pub open spec fn spec_settled_field(
    m: MessageType,
    fd: FieldDefinition,
    endian: Endian,
    f: DataFieldView,
) -> bool {
    spec_field_there(m, fd, endian, spec_field_back(m, fd, endian, f)) == f
}

/// Whether each field that a record holds at a place of a layout is written
/// as bytes that decode to it again. A record of an unknown type holds no
/// fields.
pub open spec fn spec_settled_values(
    m: MessageType,
    endian: Endian,
    fields: Seq<FieldDefinition>,
    values: Seq<DataFieldView>,
) -> bool {
    m == MessageType::Unknown || forall|i: int|
        0 <= i < fields.len() && i < values.len() ==> spec_settled_field(
            m,
            fields[i],
            endian,
            #[trigger] values[i],
        )
}

/// The fields of a record that was decoded under a stable layout are each
/// written as bytes that decode to them again.
pub proof fn lemma_stable_layout_settles(
    m: MessageType,
    endian: Endian,
    fields: Seq<FieldDefinition>,
    b: Seq<u8>,
)
    requires
        b.len() == spec_total_size(fields),
        spec_stable_layout(m, endian, fields),
    ensures
        spec_settled_values(m, endian, fields, spec_data_fields(m, endian, fields, b)),
{
    reveal(spec_data_fields);
    let values = spec_data_fields(m, endian, fields, b);
    if m != MessageType::Unknown {
        assert forall|i: int| 0 <= i < fields.len() && i < values.len() implies spec_settled_field(
            m,
            fields[i],
            endian,
            #[trigger] values[i],
        ) by {
            let fd = fields[i];
            let at = spec_total_size(fields.take(i));
            lemma_total_size_take(fields, i);
            lemma_total_size_take(fields, i + 1);
            let piece = b.subrange(at, at + fd.size);
            assert(values[i] == spec_field_there(m, fd, endian, piece));
            assert(spec_stable_field(m, fd, endian));
        }
    }
}

/// A decoded record is written as bytes that decode to it again: as many
/// bytes as it was decoded from, and the same fields, where each of its
/// fields is written as bytes that decode to it again.
pub proof fn lemma_record_round_trip(
    m: MessageType,
    endian: Endian,
    fields: Seq<FieldDefinition>,
    b: Seq<u8>,
)
    requires
        b.len() == spec_total_size(fields),
        spec_settled_values(m, endian, fields, spec_data_fields(m, endian, fields, b)),
    ensures
        ({
            let values = spec_data_fields(m, endian, fields, b);
            let again = spec_write_fields(values, m, endian, fields);
            &&& again.len() == b.len()
            &&& spec_data_fields(m, endian, fields, again) == values
        }),
{
    reveal(spec_data_fields);
    let values = spec_data_fields(m, endian, fields, b);
    let again = spec_write_fields(values, m, endian, fields);
    lemma_write_fields_len(values, m, endian, fields);
    if m != MessageType::Unknown {
        assert forall|i: int| 0 <= i < fields.len() implies spec_data_fields(
            m,
            endian,
            fields,
            again,
        )[i] == values[i] by {
            let fd = fields[i];
            let at = spec_total_size(fields.take(i));
            lemma_total_size_take(fields, i);
            lemma_total_size_take(fields, i + 1);
            lemma_write_fields_piece(values, m, endian, fields, i);
            assert(spec_settled_field(m, fd, endian, values[i]));
            assert(spec_write_one(values, m, endian, fd, i) == spec_field_back(
                m,
                fd,
                endian,
                values[i],
            ));
        }
        assert(spec_data_fields(m, endian, fields, again) =~= values);
    }
}

} // verus!
