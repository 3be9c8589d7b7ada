//! Reading from a byte cursor and writing to a growing buffer.
//!
//! Reads never fail: past the end of the buffer a read yields zero bytes and
//! the cursor stays at the end. Callers that must reject short input compare
//! `remaining` with what they are about to read.

use crate::protocol::Endian;
use vstd::prelude::*;

verus! {

/// A read position in an owned byte buffer.
pub struct ByteCursor {
    buf: Vec<u8>,
    pos: usize,
}

/// The byte at `i`, or zero where the sequence has no such byte.
pub open spec fn byte_or_zero(bytes: Seq<u8>, i: int) -> u8 {
    if 0 <= i < bytes.len() {
        bytes[i]
    } else {
        0u8
    }
}

/// The `n` bytes from `pos` on, with zeros for those past the end.
pub open spec fn padded(bytes: Seq<u8>, pos: int, n: int) -> Seq<u8> {
    Seq::new(n as nat, |i: int| byte_or_zero(bytes, pos + i))
}

/// The smaller of two integers.
pub open spec fn min_int(a: int, b: int) -> int {
    if a <= b {
        a
    } else {
        b
    }
}

/// The 16-bit value of the first two bytes of `b` in the given byte order.
pub open spec fn spec_u16_from(endian: Endian, b: Seq<u8>) -> u16
    recommends
        b.len() >= 2,
{
    match endian {
        Endian::Little => (b[0] as int + 256 * (b[1] as int)) as u16,
        Endian::Big => (b[1] as int + 256 * (b[0] as int)) as u16,
    }
}

/// The 32-bit value of the first four bytes of `b` in the given byte order.
pub open spec fn spec_u32_from(endian: Endian, b: Seq<u8>) -> u32
    recommends
        b.len() >= 4,
{
    match endian {
        Endian::Little => (b[0] as int + 0x100 * (b[1] as int) + 0x1_0000 * (b[2] as int)
            + 0x100_0000 * (b[3] as int)) as u32,
        Endian::Big => (b[3] as int + 0x100 * (b[2] as int) + 0x1_0000 * (b[1] as int)
            + 0x100_0000 * (b[0] as int)) as u32,
    }
}

/// The 64-bit value of the first eight bytes of `b` in the given byte order.
pub open spec fn spec_u64_from(endian: Endian, b: Seq<u8>) -> u64
    recommends
        b.len() >= 8,
{
    match endian {
        Endian::Little => (spec_u32_from(Endian::Little, b) as int + 0x1_0000_0000
            * (spec_u32_from(Endian::Little, b.skip(4)) as int)) as u64,
        Endian::Big => (spec_u32_from(Endian::Big, b.skip(4)) as int + 0x1_0000_0000 * (
        spec_u32_from(Endian::Big, b) as int)) as u64,
    }
}

/// The two bytes of a 16-bit value in the given byte order.
pub open spec fn spec_u16_bytes(v: u16, endian: Endian) -> Seq<u8> {
    match endian {
        Endian::Little => seq![(v % 256) as u8, (v / 256) as u8],
        Endian::Big => seq![(v / 256) as u8, (v % 256) as u8],
    }
}

/// The four bytes of a 32-bit value in the given byte order.
pub open spec fn spec_u32_bytes(v: u32, endian: Endian) -> Seq<u8> {
    match endian {
        Endian::Little => seq![
            (v % 0x100) as u8,
            (v / 0x100 % 0x100) as u8,
            (v / 0x1_0000 % 0x100) as u8,
            (v / 0x100_0000) as u8,
        ],
        Endian::Big => seq![
            (v / 0x100_0000) as u8,
            (v / 0x1_0000 % 0x100) as u8,
            (v / 0x100 % 0x100) as u8,
            (v % 0x100) as u8,
        ],
    }
}

/// The eight bytes of a 64-bit value in the given byte order.
pub open spec fn spec_u64_bytes(v: u64, endian: Endian) -> Seq<u8> {
    match endian {
        Endian::Little => spec_u32_bytes((v % 0x1_0000_0000) as u32, Endian::Little)
            + spec_u32_bytes((v / 0x1_0000_0000) as u32, Endian::Little),
        Endian::Big => spec_u32_bytes((v / 0x1_0000_0000) as u32, Endian::Big) + spec_u32_bytes(
            (v % 0x1_0000_0000) as u32,
            Endian::Big,
        ),
    }
}

/// Reading back the two bytes written for a 16-bit value gives the value.
pub proof fn lemma_u16_round_trip(v: u16, endian: Endian)
    ensures
        spec_u16_from(endian, spec_u16_bytes(v, endian)) == v,
{
}

/// Reading back the four bytes written for a 32-bit value gives the value.
pub proof fn lemma_u32_round_trip(v: u32, endian: Endian)
    ensures
        spec_u32_from(endian, spec_u32_bytes(v, endian)) == v,
{
    let q1: int = v as int / 0x100;
    let q2: int = v as int / 0x1_0000;
    let q3: int = v as int / 0x100_0000;
    assert(q2 == q1 / 0x100);
    assert(q3 == q2 / 0x100);
    assert(q1 % 0x100 == q1 - 0x100 * q2);
    assert(q2 % 0x100 == q2 - 0x100 * q3);
    assert(v as int % 0x100 == v - 0x100 * q1);
}

/// Reading back the eight bytes written for a 64-bit value gives the value.
pub proof fn lemma_u64_round_trip(v: u64, endian: Endian)
    ensures
        spec_u64_from(endian, spec_u64_bytes(v, endian)) == v,
{
    let lo: u32 = (v % 0x1_0000_0000) as u32;
    let hi: u32 = (v / 0x1_0000_0000) as u32;
    lemma_u32_round_trip(lo, endian);
    lemma_u32_round_trip(hi, endian);
    let b = spec_u64_bytes(v, endian);
    match endian {
        Endian::Little => {
            assert(b.skip(4) =~= spec_u32_bytes(hi, endian));
            assert(spec_u32_from(endian, b) == spec_u32_from(endian, spec_u32_bytes(lo, endian)));
        },
        Endian::Big => {
            assert(b.skip(4) =~= spec_u32_bytes(lo, endian));
            assert(spec_u32_from(endian, b) == spec_u32_from(endian, spec_u32_bytes(hi, endian)));
        },
    }
}

/// The signed number that has the bits of the unsigned `x` below the
/// modulus `m`, in two's complement.
pub open spec fn spec_signed(x: int, m: int) -> int {
    if 2 * x < m {
        x
    } else {
        x - m
    }
}

/// The unsigned number below the modulus `m` that has the bits of the
/// signed `x`, in two's complement.
pub open spec fn spec_unsigned(x: int, m: int) -> int {
    if x >= 0 {
        x
    } else {
        x + m
    }
}

/// The signed byte that has the bits of `x`.
pub fn i8_from_bits(x: u8) -> (r: i8)
    ensures
        r == spec_signed(x as int, 0x100),
{
    if x < 0x80 {
        x as i8
    } else {
        (x as i16 - 0x100) as i8
    }
}

/// The signed 16-bit number that has the bits of `x`.
pub fn i16_from_bits(x: u16) -> (r: i16)
    ensures
        r == spec_signed(x as int, 0x1_0000),
{
    if x < 0x8000 {
        x as i16
    } else {
        (x as i32 - 0x1_0000) as i16
    }
}

/// The signed 32-bit number that has the bits of `x`.
pub fn i32_from_bits(x: u32) -> (r: i32)
    ensures
        r == spec_signed(x as int, 0x1_0000_0000),
{
    if x < 0x8000_0000 {
        x as i32
    } else {
        (x as i64 - 0x1_0000_0000) as i32
    }
}

/// The signed 64-bit number that has the bits of `x`.
pub fn i64_from_bits(x: u64) -> (r: i64)
    ensures
        r == spec_signed(x as int, 0x1_0000_0000_0000_0000),
{
    if x < 0x8000_0000_0000_0000 {
        x as i64
    } else {
        (x as i128 - 0x1_0000_0000_0000_0000) as i64
    }
}

/// The bits of a signed byte.
pub fn bits_from_i8(x: i8) -> (r: u8)
    ensures
        r == spec_unsigned(x as int, 0x100),
{
    if x >= 0 {
        x as u8
    } else {
        (x as i16 + 0x100) as u8
    }
}

/// The bits of a signed 16-bit number.
pub fn bits_from_i16(x: i16) -> (r: u16)
    ensures
        r == spec_unsigned(x as int, 0x1_0000),
{
    if x >= 0 {
        x as u16
    } else {
        (x as i32 + 0x1_0000) as u16
    }
}

/// The bits of a signed 32-bit number.
pub fn bits_from_i32(x: i32) -> (r: u32)
    ensures
        r == spec_unsigned(x as int, 0x1_0000_0000),
{
    if x >= 0 {
        x as u32
    } else {
        (x as i64 + 0x1_0000_0000) as u32
    }
}

/// The bits of a signed 64-bit number.
pub fn bits_from_i64(x: i64) -> (r: u64)
    ensures
        r == spec_unsigned(x as int, 0x1_0000_0000_0000_0000),
{
    if x >= 0 {
        x as u64
    } else {
        (x as i128 + 0x1_0000_0000_0000_0000) as u64
    }
}

impl ByteCursor {
    #[verifier::type_invariant]
    spec fn inv(self) -> bool {
        self.pos <= self.buf.len()
    }

    /// The bytes of the buffer.
    pub closed spec fn bytes(self) -> Seq<u8> {
        self.buf@
    }

    /// How many bytes have been read: never more than there are.
    pub closed spec fn spec_position(self) -> int {
        self.pos as int
    }

    /// A cursor at the start of `buf`.
    pub fn new(buf: Vec<u8>) -> (c: ByteCursor)
        ensures
            c.bytes() == buf@,
            c.spec_position() == 0,
    {
        ByteCursor { buf, pos: 0 }
    }

    /// How many bytes have been read.
    pub fn position(&self) -> (p: usize)
        ensures
            p == self.spec_position(),
            p <= self.bytes().len(),
    {
        proof {
            use_type_invariant(self);
        }
        self.pos
    }

    /// The number of bytes of the buffer.
    pub fn len(&self) -> (n: usize)
        ensures
            n == self.bytes().len(),
    {
        self.buf.len()
    }

    /// The number of bytes between the cursor and the end.
    pub fn remaining(&self) -> (n: usize)
        ensures
            n == self.bytes().len() - self.spec_position(),
    {
        proof {
            use_type_invariant(self);
        }
        self.buf.len() - self.pos
    }

    /// The buffer, given back.
    pub fn into_inner(self) -> (buf: Vec<u8>)
        ensures
            buf@ == self.bytes(),
    {
        self.buf
    }
}

/// Moves the cursor `s` bytes on, or to the end where fewer are left.
pub fn skip_bytes(map: &mut ByteCursor, s: u8)
    ensures
        final(map).bytes() == old(map).bytes(),
        final(map).spec_position() == min_int(
            old(map).spec_position() + s,
            old(map).bytes().len() as int,
        ),
{
    proof {
        use_type_invariant(&*map);
    }
    let left: usize = map.buf.len() - map.pos;
    if (s as usize) <= left {
        map.pos = map.pos + s as usize;
    } else {
        map.pos = map.buf.len();
    }
}

/// Reads one byte; zero at the end of the buffer.
pub fn read_u8(map: &mut ByteCursor) -> (b: u8)
    ensures
        final(map).bytes() == old(map).bytes(),
        b == byte_or_zero(old(map).bytes(), old(map).spec_position()),
        final(map).spec_position() == min_int(
            old(map).spec_position() + 1,
            old(map).bytes().len() as int,
        ),
{
    proof {
        use_type_invariant(&*map);
    }
    if map.pos < map.buf.len() {
        let b: u8 = map.buf[map.pos];
        map.pos = map.pos + 1;
        b
    } else {
        0
    }
}

/// Reads up to `size` bytes: as many as are left, and no more.
pub fn read_u8_arr(map: &mut ByteCursor, size: u8) -> (v: Vec<u8>)
    ensures
        final(map).bytes() == old(map).bytes(),
        final(map).spec_position() == min_int(
            old(map).spec_position() + size,
            old(map).bytes().len() as int,
        ),
        v@ == old(map).bytes().subrange(old(map).spec_position(), final(map).spec_position()),
{
    proof {
        use_type_invariant(&*map);
    }
    let left: usize = map.buf.len() - map.pos;
    let n: usize = if (size as usize) <= left {
        size as usize
    } else {
        left
    };
    let start: usize = map.pos;
    let mut v: Vec<u8> = Vec::with_capacity(n);
    let mut i: usize = 0;
    while i < n
        invariant
            i <= n,
            start + n <= map.buf.len(),
            map.pos == start,
            map.buf@ == old(map).buf@,
            v@ == map.buf@.subrange(start as int, start + i),
        decreases n - i,
    {
        v.push(map.buf[start + i]);
        proof {
            assert(v@ =~= map.buf@.subrange(start as int, start + i + 1));
        }
        i += 1;
    }
    map.pos = start + n;
    v
}

/// Reads one signed byte; zero at the end of the buffer.
pub fn read_i8(map: &mut ByteCursor) -> (b: i8)
    ensures
        final(map).bytes() == old(map).bytes(),
        b == spec_signed(byte_or_zero(old(map).bytes(), old(map).spec_position()) as int, 0x100),
        final(map).spec_position() == min_int(
            old(map).spec_position() + 1,
            old(map).bytes().len() as int,
        ),
{
    i8_from_bits(read_u8(map))
}

fn arr2(map: &mut ByteCursor) -> (a: [u8; 2])
    ensures
        final(map).bytes() == old(map).bytes(),
        a@ == padded(old(map).bytes(), old(map).spec_position(), 2),
        final(map).spec_position() == min_int(
            old(map).spec_position() + 2,
            old(map).bytes().len() as int,
        ),
{
    proof {
        use_type_invariant(&*map);
    }
    let b0: u8 = read_u8(map);
    let b1: u8 = read_u8(map);
    let a: [u8; 2] = [b0, b1];
    proof {
        use_type_invariant(&*map);
        assert(a@ =~= padded(old(map).bytes(), old(map).spec_position(), 2));
    }
    a
}

/// Reads four bytes, with zeros for those past the end of the buffer.
pub fn arr4(map: &mut ByteCursor) -> (a: [u8; 4])
    ensures
        final(map).bytes() == old(map).bytes(),
        a@ == padded(old(map).bytes(), old(map).spec_position(), 4),
        final(map).spec_position() == min_int(
            old(map).spec_position() + 4,
            old(map).bytes().len() as int,
        ),
{
    proof {
        use_type_invariant(&*map);
    }
    let b0: u8 = read_u8(map);
    let b1: u8 = read_u8(map);
    let b2: u8 = read_u8(map);
    let b3: u8 = read_u8(map);
    let a: [u8; 4] = [b0, b1, b2, b3];
    proof {
        use_type_invariant(&*map);
        assert(a@ =~= padded(old(map).bytes(), old(map).spec_position(), 4));
    }
    a
}

fn arr8(map: &mut ByteCursor) -> (a: [u8; 8])
    ensures
        final(map).bytes() == old(map).bytes(),
        a@ == padded(old(map).bytes(), old(map).spec_position(), 8),
        final(map).spec_position() == min_int(
            old(map).spec_position() + 8,
            old(map).bytes().len() as int,
        ),
{
    proof {
        use_type_invariant(&*map);
    }
    let b0: u8 = read_u8(map);
    let b1: u8 = read_u8(map);
    let b2: u8 = read_u8(map);
    let b3: u8 = read_u8(map);
    let b4: u8 = read_u8(map);
    let b5: u8 = read_u8(map);
    let b6: u8 = read_u8(map);
    let b7: u8 = read_u8(map);
    let a: [u8; 8] = [b0, b1, b2, b3, b4, b5, b6, b7];
    proof {
        use_type_invariant(&*map);
        assert(a@ =~= padded(old(map).bytes(), old(map).spec_position(), 8));
    }
    a
}

fn u16_from(a: [u8; 2], endian: Endian) -> (v: u16)
    ensures
        v == spec_u16_from(endian, a@),
{
    match endian {
        Endian::Little => a[0] as u16 + 256 * (a[1] as u16),
        Endian::Big => a[1] as u16 + 256 * (a[0] as u16),
    }
}

fn u32_from(a: [u8; 4], endian: Endian) -> (v: u32)
    ensures
        v == spec_u32_from(endian, a@),
{
    match endian {
        Endian::Little => a[0] as u32 + 0x100 * (a[1] as u32) + 0x1_0000 * (a[2] as u32)
            + 0x100_0000 * (a[3] as u32),
        Endian::Big => a[3] as u32 + 0x100 * (a[2] as u32) + 0x1_0000 * (a[1] as u32) + 0x100_0000
            * (a[0] as u32),
    }
}

fn u64_from(a: [u8; 8], endian: Endian) -> (v: u64)
    ensures
        v == spec_u64_from(endian, a@),
{
    let first: [u8; 4] = [a[0], a[1], a[2], a[3]];
    let second: [u8; 4] = [a[4], a[5], a[6], a[7]];
    proof {
        assert(spec_u32_from(endian, a@) == spec_u32_from(endian, first@));
        assert(a@.skip(4) =~= second@);
    }
    let x: u64 = u32_from(first, endian) as u64;
    let y: u64 = u32_from(second, endian) as u64;
    match endian {
        Endian::Little => x + 0x1_0000_0000 * y,
        Endian::Big => y + 0x1_0000_0000 * x,
    }
}

/// Reads a 16-bit value in the given byte order.
pub fn read_u16(map: &mut ByteCursor, endian: Endian) -> (v: u16)
    ensures
        final(map).bytes() == old(map).bytes(),
        v == spec_u16_from(endian, padded(old(map).bytes(), old(map).spec_position(), 2)),
        final(map).spec_position() == min_int(
            old(map).spec_position() + 2,
            old(map).bytes().len() as int,
        ),
{
    let arr = arr2(map);
    u16_from(arr, endian)
}

/// Reads `size` 16-bit values in the given byte order.
pub fn read_u16_arr(map: &mut ByteCursor, endian: Endian, size: u8) -> (v: Vec<u16>)
    ensures
        final(map).bytes() == old(map).bytes(),
        final(map).spec_position() == min_int(
            old(map).spec_position() + 2 * size,
            old(map).bytes().len() as int,
        ),
        v@.len() == size,
        forall|i: int|
            0 <= i < size ==> #[trigger] v@[i] == spec_u16_from(
                endian,
                padded(old(map).bytes(), old(map).spec_position() + 2 * i, 2),
            ),
{
    let mut v: Vec<u16> = Vec::with_capacity(size as usize);
    let mut i: u8 = 0;
    proof {
        use_type_invariant(&*map);
    }
    while i < size
        invariant
            i <= size,
            map.bytes() == old(map).bytes(),
            0 <= old(map).spec_position() <= old(map).bytes().len(),
            map.spec_position() == min_int(
                old(map).spec_position() + 2 * i,
                old(map).bytes().len() as int,
            ),
            v@.len() == i,
            forall|j: int|
                0 <= j < i ==> #[trigger] v@[j] == spec_u16_from(
                    endian,
                    padded(old(map).bytes(), old(map).spec_position() + 2 * j, 2),
                ),
        decreases size - i,
    {
        let ghost before = map.spec_position();
        let x: u16 = read_u16(map, endian);
        proof {
            assert(padded(old(map).bytes(), before, 2) =~= padded(
                old(map).bytes(),
                old(map).spec_position() + 2 * i,
                2,
            ));
        }
        v.push(x);
        i += 1;
    }
    v
}

/// Reads a signed 16-bit value in the given byte order.
pub fn read_i16(map: &mut ByteCursor, endian: Endian) -> (v: i16)
    ensures
        final(map).bytes() == old(map).bytes(),
        v == spec_signed(
            spec_u16_from(endian, padded(old(map).bytes(), old(map).spec_position(), 2)) as int,
            0x1_0000,
        ),
        final(map).spec_position() == min_int(
            old(map).spec_position() + 2,
            old(map).bytes().len() as int,
        ),
{
    i16_from_bits(read_u16(map, endian))
}

/// Reads a signed 32-bit value in the given byte order.
pub fn read_i32(map: &mut ByteCursor, endian: Endian) -> (v: i32)
    ensures
        final(map).bytes() == old(map).bytes(),
        v == spec_signed(
            spec_u32_from(endian, padded(old(map).bytes(), old(map).spec_position(), 4)) as int,
            0x1_0000_0000,
        ),
        final(map).spec_position() == min_int(
            old(map).spec_position() + 4,
            old(map).bytes().len() as int,
        ),
{
    i32_from_bits(read_u32(map, endian))
}

/// Reads a 32-bit value in the given byte order.
pub fn read_u32(map: &mut ByteCursor, endian: Endian) -> (v: u32)
    ensures
        final(map).bytes() == old(map).bytes(),
        v == spec_u32_from(endian, padded(old(map).bytes(), old(map).spec_position(), 4)),
        final(map).spec_position() == min_int(
            old(map).spec_position() + 4,
            old(map).bytes().len() as int,
        ),
{
    let arr = arr4(map);
    u32_from(arr, endian)
}

/// Reads `size` 32-bit values in the given byte order.
pub fn read_u32_arr(map: &mut ByteCursor, endian: Endian, size: u8) -> (v: Vec<u32>)
    ensures
        final(map).bytes() == old(map).bytes(),
        final(map).spec_position() == min_int(
            old(map).spec_position() + 4 * size,
            old(map).bytes().len() as int,
        ),
        v@.len() == size,
        forall|i: int|
            0 <= i < size ==> #[trigger] v@[i] == spec_u32_from(
                endian,
                padded(old(map).bytes(), old(map).spec_position() + 4 * i, 4),
            ),
{
    let mut v: Vec<u32> = Vec::with_capacity(size as usize);
    let mut i: u8 = 0;
    proof {
        use_type_invariant(&*map);
    }
    while i < size
        invariant
            i <= size,
            map.bytes() == old(map).bytes(),
            0 <= old(map).spec_position() <= old(map).bytes().len(),
            map.spec_position() == min_int(
                old(map).spec_position() + 4 * i,
                old(map).bytes().len() as int,
            ),
            v@.len() == i,
            forall|j: int|
                0 <= j < i ==> #[trigger] v@[j] == spec_u32_from(
                    endian,
                    padded(old(map).bytes(), old(map).spec_position() + 4 * j, 4),
                ),
        decreases size - i,
    {
        let ghost before = map.spec_position();
        let x: u32 = read_u32(map, endian);
        proof {
            assert(padded(old(map).bytes(), before, 4) =~= padded(
                old(map).bytes(),
                old(map).spec_position() + 4 * i,
                4,
            ));
        }
        v.push(x);
        i += 1;
    }
    v
}

/// Reads a 64-bit value in the given byte order.
pub fn read_u64(map: &mut ByteCursor, endian: Endian) -> (v: u64)
    ensures
        final(map).bytes() == old(map).bytes(),
        v == spec_u64_from(endian, padded(old(map).bytes(), old(map).spec_position(), 8)),
        final(map).spec_position() == min_int(
            old(map).spec_position() + 8,
            old(map).bytes().len() as int,
        ),
{
    let arr = arr8(map);
    u64_from(arr, endian)
}

/// Reads a signed 64-bit value in the given byte order.
pub fn read_i64(map: &mut ByteCursor, endian: Endian) -> (v: i64)
    ensures
        final(map).bytes() == old(map).bytes(),
        v == spec_signed(
            spec_u64_from(endian, padded(old(map).bytes(), old(map).spec_position(), 8)) as int,
            0x1_0000_0000_0000_0000,
        ),
        final(map).spec_position() == min_int(
            old(map).spec_position() + 8,
            old(map).bytes().len() as int,
        ),
{
    i64_from_bits(read_u64(map, endian))
}

/// Appends one byte.
pub fn write_bin_u8(map: &mut Vec<u8>, b: u8)
    ensures
        final(map)@ == old(map)@ + seq![b],
{
    map.push(b);
    proof {
        assert(map@ =~= old(map)@ + seq![b]);
    }
}

/// Appends the two bytes of a 16-bit value in the given byte order.
///
/// Calls binrw's `BinWrite::write_options` for `u16` on a cursor at the end
/// of the buffer. The contract claims that it appends `to_le_bytes` or
/// `to_be_bytes` of the value, as the byte order says, and nothing else.
#[verifier::external_body]
pub(crate) fn write_bin_u16(map: &mut Vec<u8>, b: u16, endian: Endian)
    ensures
        final(map)@ == old(map)@ + spec_u16_bytes(b, endian),
{
    let mut writer = binrw::io::Cursor::new(map);
    let _ = binrw::io::Seek::seek(&mut writer, binrw::io::SeekFrom::End(0));
    let order = match endian {
        Endian::Big => binrw::Endian::Big,
        Endian::Little => binrw::Endian::Little,
    };
    let _ = binrw::BinWrite::write_options(&b, &mut writer, order, ());
}

/// Appends the four bytes of a 32-bit value in the given byte order.
///
/// Calls binrw's `BinWrite::write_options` for `u32` on a cursor at the end
/// of the buffer. The contract claims that it appends `to_le_bytes` or
/// `to_be_bytes` of the value, as the byte order says, and nothing else.
#[verifier::external_body]
pub(crate) fn write_bin_u32(map: &mut Vec<u8>, b: u32, endian: Endian)
    ensures
        final(map)@ == old(map)@ + spec_u32_bytes(b, endian),
{
    let mut writer = binrw::io::Cursor::new(map);
    let _ = binrw::io::Seek::seek(&mut writer, binrw::io::SeekFrom::End(0));
    let order = match endian {
        Endian::Big => binrw::Endian::Big,
        Endian::Little => binrw::Endian::Little,
    };
    let _ = binrw::BinWrite::write_options(&b, &mut writer, order, ());
}

/// Appends the eight bytes of a 64-bit value in the given byte order.
///
/// Calls binrw's `BinWrite::write_options` for `u64` on a cursor at the end
/// of the buffer. The contract claims that it appends `to_le_bytes` or
/// `to_be_bytes` of the value, as the byte order says, and nothing else.
#[verifier::external_body]
pub(crate) fn write_bin_u64(map: &mut Vec<u8>, b: u64, endian: Endian)
    ensures
        final(map)@ == old(map)@ + spec_u64_bytes(b, endian),
{
    let mut writer = binrw::io::Cursor::new(map);
    let _ = binrw::io::Seek::seek(&mut writer, binrw::io::SeekFrom::End(0));
    let order = match endian {
        Endian::Big => binrw::Endian::Big,
        Endian::Little => binrw::Endian::Little,
    };
    let _ = binrw::BinWrite::write_options(&b, &mut writer, order, ());
}

} // verus!
