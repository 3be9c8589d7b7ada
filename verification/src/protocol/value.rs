//! The value of a decoded field, and the arithmetic of scale and offset.

use vstd::prelude::*;

verus! {

/// The value of one field.
///
/// Floating-point fields are held as their bit patterns. `Absent` is the
/// value of a field that carries its type's invalid pattern, or nothing
/// that the field's layout can hold.
#[derive(Clone, Debug, PartialEq)]
pub enum Value {
    U8(u8),
    I8(i8),
    U16(u16),
    I16(i16),
    U32(u32),
    I32(i32),
    Enum(&'static str),
    String(String),
    F32(u32),
    F64(u64),
    I64(i64),
    U64(u64),
    Time(u32),
    ArrU8(Vec<u8>),
    ArrU16(Vec<u16>),
    ArrU32(Vec<u32>),
    Absent,
}

/// What a `Value` holds, as mathematical data.
pub enum ValueView {
    U8(u8),
    I8(i8),
    U16(u16),
    I16(i16),
    U32(u32),
    I32(i32),
    Enum(Seq<char>),
    String(Seq<char>),
    F32(u32),
    F64(u64),
    I64(i64),
    U64(u64),
    Time(u32),
    ArrU8(Seq<u8>),
    ArrU16(Seq<u16>),
    ArrU32(Seq<u32>),
    Absent,
}

impl View for Value {
    type V = ValueView;

    open spec fn view(&self) -> ValueView {
        match *self {
            Value::U8(v) => ValueView::U8(v),
            Value::I8(v) => ValueView::I8(v),
            Value::U16(v) => ValueView::U16(v),
            Value::I16(v) => ValueView::I16(v),
            Value::U32(v) => ValueView::U32(v),
            Value::I32(v) => ValueView::I32(v),
            Value::Enum(s) => ValueView::Enum(s@),
            Value::String(s) => ValueView::String(s@),
            Value::F32(v) => ValueView::F32(v),
            Value::F64(v) => ValueView::F64(v),
            Value::I64(v) => ValueView::I64(v),
            Value::U64(v) => ValueView::U64(v),
            Value::Time(v) => ValueView::Time(v),
            Value::ArrU8(v) => ValueView::ArrU8(v@),
            Value::ArrU16(v) => ValueView::ArrU16(v@),
            Value::ArrU32(v) => ValueView::ArrU32(v@),
            Value::Absent => ValueView::Absent,
        }
    }
}

/// A scale as an exact fraction `num / den`.
#[derive(Debug, Copy, Clone, PartialEq, Eq, Structural)]
pub struct Scale {
    pub num: u32,
    pub den: u32,
}

impl Scale {
    /// Both parts are positive: the fraction is a positive number.
    pub open spec fn wf(self) -> bool {
        self.num >= 1 && self.den >= 1
    }

    /// The whole number `n` as a scale.
    pub fn whole(n: u32) -> (s: Scale)
        ensures
            s == (Scale { num: n, den: 1 }),
    {
        Scale { num: n, den: 1 }
    }
}

/// The quotient of `a` by a positive `b`, rounded towards zero.
pub open spec fn trunc_div(a: int, b: int) -> int
    recommends
        b > 0,
{
    if a >= 0 {
        a / b
    } else {
        -((-a) / b)
    }
}

/// `x`, or the nearer end of `lo ..= hi` where it lies outside.
pub open spec fn clamp(x: int, lo: int, hi: int) -> int {
    if x < lo {
        lo
    } else if x > hi {
        hi
    } else {
        x
    }
}

/// `x` reduced into `0 .. m`.
pub open spec fn wrap_unsigned(x: int, m: int) -> int
    recommends
        m > 0,
{
    x % m
}

/// `x` reduced into `-m/2 .. m/2`.
pub open spec fn wrap_signed(x: int, m: int) -> int
    recommends
        m > 0,
{
    (x + m / 2) % m - m / 2
}

/// Reducing a number at a multiple of a modulus first does not change what
/// it is at the modulus, whatever is added in between.
pub proof fn lemma_wrap_reduce(t: int, c: int, m: int, k: int)
    requires
        m > 0,
        k > 0,
    ensures
        m * k > 0,
        ((t % (m * k)) + c) % m == (t + c) % m,
{
    let big = m * k;
    assert(big > 0) by (nonlinear_arith)
        requires
            big == m * k,
            m > 0,
            k > 0,
    ;
    vstd::arithmetic::div_mod::lemma_fundamental_div_mod(t, big);
    let q = t / big;
    let r = t % big;
    assert(t + c == m * (k * q) + (r + c)) by (nonlinear_arith)
        requires
            t == big * q + r,
            big == m * k,
    ;
    vstd::arithmetic::div_mod::lemma_mod_multiples_vanish(k * q, r + c, m);
}

/// Adding a multiple of a modulus does not change what a number is at the
/// modulus.
pub proof fn lemma_mod_shift(x: int, m: int, k: int)
    requires
        m > 0,
    ensures
        (x + m * k) % m == x % m,
{
    vstd::arithmetic::div_mod::lemma_mod_multiples_vanish(k, x, m);
    assert(m * k + x == x + m * k);
}

/// Taking `d` away from a number below the modulus `m` and adding it again,
/// both in arithmetic that wraps at `m`, gives the number.
pub proof fn lemma_unsigned_there_and_back(x: int, d: int, m: int)
    requires
        m > 0,
        0 <= x < m,
    ensures
        0 <= wrap_unsigned(x - d, m) < m,
        wrap_unsigned(wrap_unsigned(x - d, m) + d, m) == x,
{
    let t = x - d;
    vstd::arithmetic::div_mod::lemma_fundamental_div_mod(t, m);
    vstd::arithmetic::div_mod::lemma_mod_bound(t, m);
    let q = t / m;
    let r = t % m;
    assert(r + d == m * (-q) + x) by (nonlinear_arith)
        requires
            t == m * q + r,
            t == x - d,
    ;
    vstd::arithmetic::div_mod::lemma_mod_multiples_vanish(-q, x, m);
    vstd::arithmetic::div_mod::lemma_small_mod(x as nat, m as nat);
}

/// The same for a signed number of the range that wraps at `m`.
pub proof fn lemma_signed_there_and_back(x: int, d: int, m: int)
    requires
        m > 0,
        m % 2 == 0,
        -(m / 2) <= x < m / 2,
    ensures
        -(m / 2) <= wrap_signed(x - d, m) < m / 2,
        wrap_signed(wrap_signed(x - d, m) + d, m) == x,
{
    let h = m / 2;
    lemma_unsigned_there_and_back(x + h, d, m);
    assert(x - d + h == (x + h) - d);
    assert(wrap_signed(x - d, m) + d + h == wrap_unsigned((x + h) - d, m) + d);
}

/// `v * a / b`, rounded towards zero and held to `lo ..= hi`.
pub open spec fn spec_ratio(v: int, a: int, b: int, lo: int, hi: int) -> int {
    clamp(trunc_div(v * a, b), lo, hi)
}

/// A value divided by a scale: the six integer variants of up to 32 bits
/// are divided, rounded towards zero and held to their type's range; every
/// other value, and every value under a scale with a zero part, is
/// unchanged.
pub open spec fn spec_scale(v: ValueView, s: Scale) -> ValueView {
    if !s.wf() {
        v
    } else {
        spec_apply_ratio(v, s.den as int, s.num as int)
    }
}

/// A value multiplied by a scale: the inverse direction of `spec_scale`.
pub open spec fn spec_rescale(v: ValueView, s: Scale) -> ValueView {
    if !s.wf() {
        v
    } else {
        spec_apply_ratio(v, s.num as int, s.den as int)
    }
}

/// The six integer variants of up to 32 bits, multiplied by `a / b`.
pub open spec fn spec_apply_ratio(v: ValueView, a: int, b: int) -> ValueView {
    match v {
        ValueView::U8(x) => ValueView::U8(spec_ratio(x as int, a, b, 0, 0xFF) as u8),
        ValueView::I8(x) => ValueView::I8(spec_ratio(x as int, a, b, -0x80, 0x7F) as i8),
        ValueView::U16(x) => ValueView::U16(spec_ratio(x as int, a, b, 0, 0xFFFF) as u16),
        ValueView::I16(x) => ValueView::I16(spec_ratio(x as int, a, b, -0x8000, 0x7FFF) as i16),
        ValueView::U32(x) => ValueView::U32(spec_ratio(x as int, a, b, 0, 0xFFFF_FFFF) as u32),
        ValueView::I32(x) => ValueView::I32(
            spec_ratio(x as int, a, b, -0x8000_0000, 0x7FFF_FFFF) as i32,
        ),
        _ => v,
    }
}

/// A value with `d` added in the arithmetic of its own width, which wraps:
/// the six integer variants of up to 32 bits change, every other value is
/// unchanged.
pub open spec fn spec_shift(v: ValueView, d: int) -> ValueView {
    match v {
        ValueView::U8(x) => ValueView::U8(wrap_unsigned(x + d, 0x100) as u8),
        ValueView::I8(x) => ValueView::I8(wrap_signed(x + d, 0x100) as i8),
        ValueView::U16(x) => ValueView::U16(wrap_unsigned(x + d, 0x1_0000) as u16),
        ValueView::I16(x) => ValueView::I16(wrap_signed(x + d, 0x1_0000) as i16),
        ValueView::U32(x) => ValueView::U32(wrap_unsigned(x + d, 0x1_0000_0000) as u32),
        ValueView::I32(x) => ValueView::I32(wrap_signed(x + d, 0x1_0000_0000) as i32),
        _ => v,
    }
}

/// The number of one of the six integer variants of up to 32 bits, and
/// zero for every other value.
pub open spec fn spec_small_number(v: ValueView) -> int {
    match v {
        ValueView::U8(x) => x as int,
        ValueView::I8(x) => x as int,
        ValueView::U16(x) => x as int,
        ValueView::I16(x) => x as int,
        ValueView::U32(x) => x as int,
        ValueView::I32(x) => x as int,
        _ => 0,
    }
}

/// A value less an offset.
pub open spec fn spec_offset(v: ValueView, o: i16) -> ValueView {
    spec_shift(v, -(o as int))
}

/// A value plus an offset.
pub open spec fn spec_reoffset(v: ValueView, o: i16) -> ValueView {
    spec_shift(v, o as int)
}

/// `|v| * a / b` for a magnitude of up to 32 bits, or `cap` where that is
/// larger.
fn ratio_magnitude(mag: u64, a: u32, b: u32, cap: u64) -> (r: u64)
    requires
        mag <= 0x1_0000_0000,
        b >= 1,
    ensures
        r == min_u64_int((mag * a) / (b as int), cap as int),
{
    assert(mag * a <= 0x1_0000_0000 * 0xFFFF_FFFF) by (nonlinear_arith)
        requires
            mag <= 0x1_0000_0000,
            a <= 0xFFFF_FFFF,
    ;
    let q: u64 = (mag * (a as u64)) / (b as u64);
    if q > cap {
        cap
    } else {
        q
    }
}

/// The smaller of two integers.
pub open spec fn min_u64_int(a: int, b: int) -> int {
    if a <= b {
        a
    } else {
        b
    }
}

/// `v * a / b`, rounded towards zero and held to `lo ..= hi`.
fn ratio(v: i64, a: u32, b: u32, lo: i64, hi: i64) -> (r: i64)
    requires
        -0x8000_0000 <= v <= 0xFFFF_FFFF,
        b >= 1,
        -0x8000_0000 <= lo <= 0 <= hi <= 0xFFFF_FFFF,
    ensures
        r == spec_ratio(v as int, a as int, b as int, lo as int, hi as int),
        lo <= r <= hi,
{
    if v >= 0 {
        let q: u64 = ratio_magnitude(v as u64, a, b, hi as u64);
        proof {
            assert(v * a >= 0) by (nonlinear_arith)
                requires
                    v >= 0,
                    a >= 0,
            ;
            assert((v * a) / (b as int) >= 0) by (nonlinear_arith)
                requires
                    v * a >= 0,
                    b >= 1,
            ;
        }
        q as i64
    } else {
        let mag: u64 = (-v) as u64;
        let q: u64 = ratio_magnitude(mag, a, b, (-lo) as u64);
        proof {
            assert((-v) * a >= 0) by (nonlinear_arith)
                requires
                    -v >= 0,
                    a >= 0,
            ;
            assert(((-v) * a) / (b as int) >= 0) by (nonlinear_arith)
                requires
                    (-v) * a >= 0,
                    b >= 1,
            ;
            assert(-(v * a) == (-v) * a) by (nonlinear_arith);
            if a == 0 {
                assert(v * a == 0);
            } else {
                assert(v * a < 0) by (nonlinear_arith)
                    requires
                        v < 0,
                        a > 0,
                ;
            }
        }
        -(q as i64)
    }
}

impl Value {
    /// A copy of the value.
    pub fn clone_value(&self) -> (r: Value)
        ensures
            r@ == self@,
    {
        match self {
            Value::U8(v) => Value::U8(*v),
            Value::I8(v) => Value::I8(*v),
            Value::U16(v) => Value::U16(*v),
            Value::I16(v) => Value::I16(*v),
            Value::U32(v) => Value::U32(*v),
            Value::I32(v) => Value::I32(*v),
            Value::Enum(s) => Value::Enum(*s),
            Value::String(s) => Value::String(s.clone()),
            Value::F32(v) => Value::F32(*v),
            Value::F64(v) => Value::F64(*v),
            Value::I64(v) => Value::I64(*v),
            Value::U64(v) => Value::U64(*v),
            Value::Time(v) => Value::Time(*v),
            Value::ArrU8(v) => Value::ArrU8(v.clone()),
            Value::ArrU16(v) => Value::ArrU16(v.clone()),
            Value::ArrU32(v) => Value::ArrU32(v.clone()),
            Value::Absent => Value::Absent,
        }
    }

    /// The number of a `U8`.
    pub fn to_u8(&self) -> (r: Option<u8>)
        ensures
            r == (match self@ {
                ValueView::U8(x) => Some(x),
                _ => None,
            }),
    {
        match self {
            Value::U8(v) => Some(*v),
            _ => None,
        }
    }

    /// The number of an `I8`.
    pub fn to_i8(&self) -> (r: Option<i8>)
        ensures
            r == (match self@ {
                ValueView::I8(x) => Some(x),
                _ => None,
            }),
    {
        match self {
            Value::I8(v) => Some(*v),
            _ => None,
        }
    }

    /// The number of a `U16`.
    pub fn to_u16(&self) -> (r: Option<u16>)
        ensures
            r == (match self@ {
                ValueView::U16(x) => Some(x),
                _ => None,
            }),
    {
        match self {
            Value::U16(v) => Some(*v),
            _ => None,
        }
    }

    /// The number of an `I16`.
    pub fn to_i16(&self) -> (r: Option<i16>)
        ensures
            r == (match self@ {
                ValueView::I16(x) => Some(x),
                _ => None,
            }),
    {
        match self {
            Value::I16(v) => Some(*v),
            _ => None,
        }
    }

    /// The number of a `U32`, and the seconds of a `Time`.
    pub fn to_u32(&self) -> (r: Option<u32>)
        ensures
            r == (match self@ {
                ValueView::U32(x) => Some(x),
                ValueView::Time(x) => Some(x),
                _ => None,
            }),
    {
        match self {
            Value::U32(v) => Some(*v),
            Value::Time(v) => Some(*v),
            _ => None,
        }
    }

    /// The number of an `I32`.
    pub fn to_i32(&self) -> (r: Option<i32>)
        ensures
            r == (match self@ {
                ValueView::I32(x) => Some(x),
                _ => None,
            }),
    {
        match self {
            Value::I32(v) => Some(*v),
            _ => None,
        }
    }

    /// The name of an `Enum`.
    pub fn to_name(&self) -> (r: Option<&'static str>)
        ensures
            match r {
                Some(s) => self@ == ValueView::Enum(s@),
                None => !(self@ is Enum),
            },
    {
        match self {
            Value::Enum(v) => Some(*v),
            _ => None,
        }
    }

    /// Whether the value is `Absent`.
    pub fn is_absent(&self) -> (b: bool)
        ensures
            b == (self@ is Absent),
    {
        match self {
            Value::Absent => true,
            _ => false,
        }
    }

    fn apply_ratio(&mut self, a: u32, b: u32)
        requires
            b >= 1,
        ensures
            final(self)@ == spec_apply_ratio(old(self)@, a as int, b as int),
    {
        match self {
            Value::U8(inner) => {
                let x: i64 = ratio(*inner as i64, a, b, 0, 0xFF);
                *self = Value::U8(x as u8);
            },
            Value::I8(inner) => {
                let x: i64 = ratio(*inner as i64, a, b, -0x80, 0x7F);
                *self = Value::I8(x as i8);
            },
            Value::U16(inner) => {
                let x: i64 = ratio(*inner as i64, a, b, 0, 0xFFFF);
                *self = Value::U16(x as u16);
            },
            Value::I16(inner) => {
                let x: i64 = ratio(*inner as i64, a, b, -0x8000, 0x7FFF);
                *self = Value::I16(x as i16);
            },
            Value::U32(inner) => {
                let x: i64 = ratio(*inner as i64, a, b, 0, 0xFFFF_FFFF);
                *self = Value::U32(x as u32);
            },
            Value::I32(inner) => {
                let x: i64 = ratio(*inner as i64, a, b, -0x8000_0000, 0x7FFF_FFFF);
                *self = Value::I32(x as i32);
            },
            _ => (),
        }
    }

    fn shift(&mut self, d: i64)
        requires
            -0x8000 <= d <= 0x8000,
        ensures
            final(self)@ == spec_shift(old(self)@, d as int),
    {
        proof {
            let x = spec_small_number(self@);
            lemma_mod_shift(x + d, 0x100, 0x100);
            lemma_mod_shift(x + d + 0x80, 0x100, 0x100);
            lemma_mod_shift(x + d, 0x1_0000, 1);
            lemma_mod_shift(x + d + 0x8000, 0x1_0000, 1);
            lemma_mod_shift(x + d, 0x1_0000_0000, 1);
            lemma_mod_shift(x + d + 0x8000_0000, 0x1_0000_0000, 1);
        }
        match self {
            Value::U8(inner) => {
                let x: u64 = (*inner as i64 + d + 0x1_0000) as u64;
                *self = Value::U8((x % 0x100) as u8);
            },
            Value::I8(inner) => {
                let x: u64 = (*inner as i64 + d + 0x80 + 0x1_0000) as u64;
                *self = Value::I8(((x % 0x100) as i64 - 0x80) as i8);
            },
            Value::U16(inner) => {
                let x: u64 = (*inner as i64 + d + 0x1_0000) as u64;
                *self = Value::U16((x % 0x1_0000) as u16);
            },
            Value::I16(inner) => {
                let x: u64 = (*inner as i64 + d + 0x8000 + 0x1_0000) as u64;
                *self = Value::I16(((x % 0x1_0000) as i64 - 0x8000) as i16);
            },
            Value::U32(inner) => {
                let x: u64 = (*inner as i64 + d + 0x1_0000_0000) as u64;
                *self = Value::U32((x % 0x1_0000_0000) as u32);
            },
            Value::I32(inner) => {
                let x: u64 = (*inner as i64 + d + 0x8000_0000 + 0x1_0000_0000) as u64;
                *self = Value::I32(((x % 0x1_0000_0000) as i64 - 0x8000_0000) as i32);
            },
            _ => (),
        }
    }

    /// Multiplies the value by a scale: the encoding direction.
    pub fn rescale(&mut self, val: Scale)
        ensures
            final(self)@ == spec_rescale(old(self)@, val),
    {
        if val.num >= 1 && val.den >= 1 {
            self.apply_ratio(val.num, val.den);
        }
    }

    /// Divides the value by a scale: the decoding direction.
    pub fn scale(&mut self, val: Scale)
        ensures
            final(self)@ == spec_scale(old(self)@, val),
    {
        if val.num >= 1 && val.den >= 1 {
            self.apply_ratio(val.den, val.num);
        }
    }

    /// Subtracts an offset: the decoding direction.
    pub fn offset(&mut self, val: i16)
        ensures
            final(self)@ == spec_offset(old(self)@, val),
    {
        self.shift(-(val as i64));
    }

    /// Adds an offset: the encoding direction.
    pub fn reoffset(&mut self, val: i16)
        ensures
            final(self)@ == spec_reoffset(old(self)@, val),
    {
        self.shift(val as i64);
    }
}

} // verus!
