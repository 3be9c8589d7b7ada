//! Wire-level building blocks of the format: the record header byte, field
//! layouts, message definitions, the file header and the checksum.

pub mod consts;
pub mod data_field;
pub mod get_field_offset;
pub mod get_field_scale;
pub mod get_field_string_value;
pub mod get_field_type;
pub mod io;
pub mod macros;
pub mod message_type;
pub mod round_trip;
pub mod value;

use crate::protocol::consts::{
    COMPRESSED_HEADER_LOCAL_MESSAGE_NUMBER_MASK, COMPRESSED_HEADER_MASK,
    COMPRESSED_HEADER_TIME_OFFSET_MASK, CRC_TABLE, DEFINITION_HEADER_MASK, DEVELOPER_FIELDS_MASK,
    FIELD_DEFINITION_BASE_ENDIAN, FIELD_DEFINITION_BASE_NUMBER, LOCAL_MESSAGE_NUMBER_MASK,
};
use crate::protocol::data_field::{
    fields_view, spec_data_fields, spec_total_size, spec_write_fields, DataField, DataFieldView,
};
use crate::protocol::io::{
    padded, read_u16, read_u32, read_u8, read_u8_arr, spec_u16_bytes, spec_u16_from, spec_u32_bytes,
    spec_u32_from, write_bin_u16, write_bin_u32, write_bin_u8, ByteCursor,
};
use crate::protocol::message_type::{parse_message_type, spec_parse_message_type, MessageType};
use std::collections::VecDeque;
use vstd::prelude::*;
use vstd::utf8::{decode_utf8, valid_utf8};

verus! {

/// Byte order of the multi-byte values of one message.
#[derive(Debug, Copy, Clone, PartialEq, Eq, Structural)]
pub enum Endian {
    Big,
    Little,
}

/// Why a buffer could not be decoded, or a file not encoded or merged.
#[derive(Debug, Copy, Clone, PartialEq, Eq, Structural)]
pub enum FitError {
    /// The next read would pass the end of the buffer.
    Truncated,
    /// A data record names a local slot that holds no definition.
    DesynchronizedStream,
    /// A definition carries developer fields.
    UnsupportedFeature,
    /// No slot holds a definition of a data message's message type.
    MissingDefinitionForEncode,
    /// The caller's value has no meaning for the operation: fewer than two
    /// files to merge, a structure that has no wire form, or a body of more
    /// bytes than a header can count.
    InvalidArgument,
}

/// The one-byte header in front of every record.
#[derive(Debug, Copy, Clone, PartialEq, Eq, Structural)]
pub struct FitMessageHeader {
    pub compressed_header: bool,
    pub definition: bool,
    pub dev_fields: bool,
    pub local_num: u8,
    pub time_offset: Option<u8>,
}

impl FitMessageHeader {
    /// The header that a byte stands for. Bit 7 selects the compressed
    /// timestamp form, which has a two-bit slot and a five-bit time offset;
    /// the normal form has the definition flag in bit 6, the developer flag
    /// in bit 5 and a four-bit slot.
    pub open spec fn spec_from_bytes(x: u8) -> FitMessageHeader {
        if (x & COMPRESSED_HEADER_MASK) == COMPRESSED_HEADER_MASK {
            FitMessageHeader {
                compressed_header: true,
                definition: false,
                dev_fields: false,
                local_num: (x & COMPRESSED_HEADER_LOCAL_MESSAGE_NUMBER_MASK) >> 5,
                time_offset: Some(x & COMPRESSED_HEADER_TIME_OFFSET_MASK),
            }
        } else {
            FitMessageHeader {
                compressed_header: false,
                definition: x & DEFINITION_HEADER_MASK == DEFINITION_HEADER_MASK,
                dev_fields: x & DEVELOPER_FIELDS_MASK == DEVELOPER_FIELDS_MASK,
                local_num: x & LOCAL_MESSAGE_NUMBER_MASK,
                time_offset: None,
            }
        }
    }

    /// The byte that stands for a header.
    pub open spec fn spec_to_bytes(self) -> u8 {
        if self.compressed_header {
            let t: u8 = match self.time_offset {
                Some(t) => t,
                None => 0u8,
            };
            t | (self.local_num << 5) | COMPRESSED_HEADER_MASK
        } else {
            let d: u8 = if self.definition { DEFINITION_HEADER_MASK } else { 0u8 };
            let f: u8 = if self.dev_fields { DEVELOPER_FIELDS_MASK } else { 0u8 };
            self.local_num | d | f
        }
    }

    /// The byte of a well-formed header as a number.
    pub open spec fn spec_number(self) -> int {
        if self.compressed_header {
            128 + 32 * self.local_num + self.time_offset->0
        } else {
            self.local_num + (if self.definition {
                64int
            } else {
                0int
            }) + (if self.dev_fields {
                32int
            } else {
                0int
            })
        }
    }

    /// The same header, read off the byte as a number: from 128 on the byte
    /// is a compressed timestamp header.
    pub open spec fn spec_header_of_number(x: u8) -> FitMessageHeader {
        if x >= 128 {
            FitMessageHeader {
                compressed_header: true,
                definition: false,
                dev_fields: false,
                local_num: ((x / 32) % 4) as u8,
                time_offset: Some((x % 32) as u8),
            }
        } else {
            FitMessageHeader {
                compressed_header: false,
                definition: (x / 64) % 2 == 1,
                dev_fields: (x / 32) % 2 == 1,
                local_num: (x % 16) as u8,
                time_offset: None,
            }
        }
    }

    /// A header that some byte stands for: the flags of the two forms do not
    /// mix, and slot and time offset fit their bit fields.
    pub open spec fn wf(self) -> bool {
        if self.compressed_header {
            &&& !self.definition
            &&& !self.dev_fields
            &&& self.local_num <= 3
            &&& self.time_offset is Some
            &&& self.time_offset->0 <= 31
        } else {
            &&& self.local_num <= 15
            &&& self.time_offset is None
        }
    }

    /// Whether some byte stands for the header.
    pub fn is_wf(&self) -> (r: bool)
        ensures
            r == self.wf(),
    {
        if self.compressed_header {
            !self.definition && !self.dev_fields && self.local_num <= 3 && match self.time_offset {
                Some(t) => t <= 31,
                None => false,
            }
        } else {
            self.local_num <= 15 && self.time_offset.is_none()
        }
    }

    /// The byte that stands for the header.
    pub fn to_bytes(&self) -> (x: u8)
        ensures
            x == self.spec_to_bytes(),
            self.wf() ==> x == self.spec_number(),
    {
        proof {
            if self.wf() {
                Self::lemma_number_of_header(*self);
            }
        }
        if self.compressed_header {
            let mut x: u8 = match self.time_offset {
                Some(t) => t,
                None => 0u8,
            };
            x = x | (self.local_num << 5);
            x = x | COMPRESSED_HEADER_MASK;
            x
        } else {
            let mut x: u8 = self.local_num;
            if self.definition {
                x = x | DEFINITION_HEADER_MASK;
            }
            if self.dev_fields {
                x = x | DEVELOPER_FIELDS_MASK;
            }
            assert(x == self.spec_to_bytes()) by {
                let n: u8 = self.local_num;
                assert(n | 0u8 == n) by (bit_vector);
                assert((n | 0x40u8) | 0u8 == n | 0x40u8) by (bit_vector);
            }
            x
        }
    }

    /// The header that the byte stands for.
    pub fn from_bytes(x: u8) -> (h: FitMessageHeader)
        ensures
            h == Self::spec_from_bytes(x),
            h == Self::spec_header_of_number(x),
            h.wf(),
    {
        proof {
            Self::lemma_from_bytes_wf(x);
            Self::lemma_header_of_number(x);
        }
        if (x & COMPRESSED_HEADER_MASK) == COMPRESSED_HEADER_MASK {
            Self {
                compressed_header: true,
                definition: false,
                dev_fields: false,
                local_num: (x & COMPRESSED_HEADER_LOCAL_MESSAGE_NUMBER_MASK) >> 5,
                time_offset: Some(x & COMPRESSED_HEADER_TIME_OFFSET_MASK),
            }
        } else {
            Self {
                compressed_header: false,
                definition: x & DEFINITION_HEADER_MASK == DEFINITION_HEADER_MASK,
                dev_fields: x & DEVELOPER_FIELDS_MASK == DEVELOPER_FIELDS_MASK,
                local_num: x & LOCAL_MESSAGE_NUMBER_MASK,
                time_offset: None,
            }
        }
    }

    /// The bits of a header byte are the digits of the byte as a number.
    pub proof fn lemma_header_of_number(x: u8)
        ensures
            Self::spec_from_bytes(x) == Self::spec_header_of_number(x),
    {
        assert(((x & 0x80u8) == 0x80u8) == (x >= 128u8)) by (bit_vector);
        assert(((x & 0x60u8) >> 5) == (x / 32u8) % 4u8) by (bit_vector);
        assert((x & 0x1Fu8) == x % 32u8) by (bit_vector);
        assert(((x & 0x40u8) == 0x40u8) == ((x / 64u8) % 2u8 == 1u8)) by (bit_vector);
        assert(((x & 0x20u8) == 0x20u8) == ((x / 32u8) % 2u8 == 1u8)) by (bit_vector);
        assert((x & 0x0Fu8) == x % 16u8) by (bit_vector);
    }

    /// The byte of a well-formed header is the sum of its parts.
    pub proof fn lemma_number_of_header(h: FitMessageHeader)
        requires
            h.wf(),
        ensures
            h.spec_to_bytes() == h.spec_number(),
    {
        let n: u8 = h.local_num;
        if h.compressed_header {
            let t: u8 = h.time_offset->0;
            assert(n <= 3 && t <= 31 ==> (t | (n << 5) | 0x80u8) == 128u8 + 32u8 * n + t)
                by (bit_vector);
        } else {
            let d: u8 = if h.definition {
                0x40u8
            } else {
                0u8
            };
            let f: u8 = if h.dev_fields {
                0x20u8
            } else {
                0u8
            };
            assert(n <= 15 && (d == 0x40u8 || d == 0u8) && (f == 0x20u8 || f == 0u8) ==> (n | d
                | f) == n + d + f) by (bit_vector);
        }
    }

    /// Every byte is a header, and a well-formed one.
    pub proof fn lemma_from_bytes_wf(x: u8)
        ensures
            Self::spec_from_bytes(x).wf(),
            Self::spec_from_bytes(x).local_num <= 15,
    {
        assert(((x & 0x60u8) >> 5) <= 3) by (bit_vector);
        assert((x & 0x1Fu8) <= 31) by (bit_vector);
        assert((x & 0x0Fu8) <= 15) by (bit_vector);
    }

    /// Encoding is the exact inverse of decoding on well-formed headers.
    pub proof fn lemma_header_round_trip(h: FitMessageHeader)
        requires
            h.wf(),
        ensures
            Self::spec_from_bytes(h.spec_to_bytes()) == h,
    {
        let n: u8 = h.local_num;
        if h.compressed_header {
            let t: u8 = h.time_offset->0;
            assert(n <= 3 && t <= 31 ==> ((t | (n << 5) | 0x80u8) & 0x80u8) == 0x80u8
                && ((t | (n << 5) | 0x80u8) & 0x60u8) >> 5 == n
                && ((t | (n << 5) | 0x80u8) & 0x1Fu8) == t) by (bit_vector);
        } else {
            let d: u8 = if h.definition { 0x40u8 } else { 0u8 };
            let f: u8 = if h.dev_fields { 0x20u8 } else { 0u8 };
            assert(n <= 15 && (d == 0x40u8 || d == 0u8) && (f == 0x20u8 || f == 0u8) ==> ((n | d | f)
                & 0x80u8) != 0x80u8 && ((n | d | f) & 0x0Fu8) == n && (((n | d | f) & 0x40u8
                == 0x40u8) <==> d == 0x40u8) && (((n | d | f) & 0x20u8 == 0x20u8) <==> f == 0x20u8))
                by (bit_vector);
        }
    }

    /// A header that came from a byte goes back to a byte that gives the
    /// same header.
    pub proof fn lemma_header_byte_stable(x: u8)
        ensures
            Self::spec_from_bytes(Self::spec_from_bytes(x).spec_to_bytes()) == Self::spec_from_bytes(
                x,
            ),
    {
        Self::lemma_from_bytes_wf(x);
        Self::lemma_header_round_trip(Self::spec_from_bytes(x));
    }
}

/// The base type of a field as its definition byte gives it: the type code
/// in the low five bits, and a byte-order flag in the top bit.
#[derive(Debug, Copy, Clone, PartialEq, Eq, Structural)]
pub struct FieldDefBaseType {
    pub val: u8,
    pub endian: Endian,
}

impl FieldDefBaseType {
    /// The base type that a definition byte names: the code in the low five
    /// bits, big-endian where the top bit is set.
    pub open spec fn spec_from_bytes(x: u8) -> FieldDefBaseType {
        FieldDefBaseType {
            val: x & FIELD_DEFINITION_BASE_NUMBER,
            endian: if x & FIELD_DEFINITION_BASE_ENDIAN == FIELD_DEFINITION_BASE_ENDIAN {
                Endian::Big
            } else {
                Endian::Little
            },
        }
    }

    /// The definition byte of a base type.
    pub open spec fn spec_to_bytes(self) -> u8 {
        if self.endian == Endian::Little {
            self.val
        } else {
            self.val | FIELD_DEFINITION_BASE_ENDIAN
        }
    }

    /// The definition byte of the base type.
    pub fn to_bytes(&self) -> (x: u8)
        ensures
            x == self.spec_to_bytes(),
            self.val < 128 && self.endian == Endian::Big ==> x == self.val + 128,
            self.endian == Endian::Little ==> x == self.val,
    {
        let v: u8 = self.val;
        assert(v < 128 ==> (v | 0x80u8) == v + 128u8) by (bit_vector);
        match self.endian {
            Endian::Little => self.val,
            Endian::Big => self.val | FIELD_DEFINITION_BASE_ENDIAN,
        }
    }

    /// The base type that a definition byte names.
    pub fn from_bytes(x: u8) -> (b: FieldDefBaseType)
        ensures
            b == Self::spec_from_bytes(x),
            b.val <= 31,
            b.val == x % 32,
            b.endian == Endian::Big <==> x >= 128,
    {
        assert((x & 0x1Fu8) <= 31) by (bit_vector);
        assert((x & 0x1Fu8) == x % 32u8) by (bit_vector);
        assert(((x & 0x80u8) == 0x80u8) == (x >= 128u8)) by (bit_vector);
        let mut endian = Endian::Little;
        if x & FIELD_DEFINITION_BASE_ENDIAN == FIELD_DEFINITION_BASE_ENDIAN {
            endian = Endian::Big;
        }
        Self { val: x & FIELD_DEFINITION_BASE_NUMBER, endian }
    }

    /// A base type whose code fits its five bits goes to its byte and back
    /// unchanged.
    pub proof fn lemma_base_type_round_trip(b: FieldDefBaseType)
        requires
            b.val <= 31,
        ensures
            Self::spec_from_bytes(b.spec_to_bytes()) == b,
    {
        let v: u8 = b.val;
        assert(v <= 31 ==> (v & 0x1Fu8) == v && (v & 0x80u8) != 0x80u8 && ((v | 0x80u8) & 0x1Fu8) == v
            && ((v | 0x80u8) & 0x80u8) == 0x80u8) by (bit_vector);
    }
}

/// One field of a definition: its number, its size in bytes and its base
/// type.
#[derive(Debug, Copy, Clone, PartialEq, Eq, Structural)]
pub struct FieldDefinition {
    pub definition_number: u8,
    pub size: u8,
    pub base_type: FieldDefBaseType,
}

/// One developer field of a definition. Developer data is not decoded; the
/// type names the three bytes of such an entry.
#[derive(Debug, Copy, Clone, PartialEq, Eq, Structural)]
pub struct DevFieldDefinition {
    pub field_number: u8,
    pub size: u8,
    pub dev_data_index: u8,
}

/// The definition of a local slot: the byte order, the global message
/// number and the field layouts of the data messages that follow in the
/// slot.
#[derive(Clone, Debug, PartialEq)]
pub struct DefinitionMessage {
    pub reserved: u8,
    pub endian: Endian,
    pub global_message_number: u16,
    pub num_fields: u8,
    pub fields: Vec<FieldDefinition>,
    pub dev_num_fields: Option<u8>,
    pub dev_fields: Option<Vec<DevFieldDefinition>>,
}

/// What a `DefinitionMessage` holds, as mathematical data.
pub struct DefinitionMessageView {
    pub reserved: u8,
    pub endian: Endian,
    pub global_message_number: u16,
    pub num_fields: u8,
    pub fields: Seq<FieldDefinition>,
    pub dev_num_fields: Option<u8>,
    pub dev_fields: Option<Seq<DevFieldDefinition>>,
}

impl View for DefinitionMessage {
    type V = DefinitionMessageView;

    open spec fn view(&self) -> DefinitionMessageView {
        DefinitionMessageView {
            reserved: self.reserved,
            endian: self.endian,
            global_message_number: self.global_message_number,
            num_fields: self.num_fields,
            fields: self.fields@,
            dev_num_fields: self.dev_num_fields,
            dev_fields: match self.dev_fields {
                Some(v) => Some(v@),
                None => None,
            },
        }
    }
}

impl DefinitionMessageView {
    /// A definition that has a wire form: it counts its own fields, and has
    /// no developer fields.
    pub open spec fn wf(self) -> bool {
        &&& self.num_fields == self.fields.len()
        &&& self.dev_num_fields is None
        &&& self.dev_fields is None
    }
}

/// The byte order that an architecture byte names: zero is little-endian,
/// every other value big-endian.
pub open spec fn spec_read_endian(x: u8) -> Endian {
    if x == 0 {
        Endian::Little
    } else {
        Endian::Big
    }
}

/// The architecture byte of a byte order.
pub open spec fn spec_write_endian(b: Endian) -> u8 {
    match b {
        Endian::Big => 1,
        Endian::Little => 0,
    }
}

/// The field layout that the three bytes from `at` on spell.
pub open spec fn spec_field_definition(bytes: Seq<u8>, at: int) -> FieldDefinition {
    FieldDefinition {
        definition_number: bytes[at],
        size: bytes[at + 1],
        base_type: FieldDefBaseType::spec_from_bytes(bytes[at + 2]),
    }
}

/// The definition that starts at `pos`, behind the record header: a
/// reserved byte, the architecture byte, the global message number in that
/// byte order, the field count and three bytes for each field. `None` where
/// the bytes end before the definition does.
pub open spec fn spec_parse_definition(bytes: Seq<u8>, pos: int) -> Option<DefinitionMessageView> {
    if pos + 5 > bytes.len() {
        None
    } else if pos + 5 + 3 * bytes[pos + 4] > bytes.len() {
        None
    } else {
        let endian = spec_read_endian(bytes[pos + 1]);
        Some(
            DefinitionMessageView {
                reserved: bytes[pos],
                endian,
                global_message_number: spec_u16_from(endian, bytes.skip(pos + 2)),
                num_fields: bytes[pos + 4],
                fields: Seq::new(
                    bytes[pos + 4] as nat,
                    |i: int| spec_field_definition(bytes, pos + 5 + 3 * i),
                ),
                dev_num_fields: None,
                dev_fields: None,
            },
        )
    }
}

/// One of the three bytes of a field layout.
pub open spec fn spec_field_definition_byte(f: FieldDefinition, j: int) -> u8 {
    if j == 0 {
        f.definition_number
    } else if j == 1 {
        f.size
    } else {
        f.base_type.spec_to_bytes()
    }
}

/// The bytes of a sequence of field layouts, three for each.
pub open spec fn spec_field_definitions_bytes(fields: Seq<FieldDefinition>) -> Seq<u8> {
    Seq::new(3 * fields.len(), |j: int| spec_field_definition_byte(fields[j / 3], j % 3))
}

/// The bytes of a definition, behind its record header.
pub open spec fn spec_definition_bytes(d: DefinitionMessageView) -> Seq<u8> {
    seq![d.reserved, spec_write_endian(d.endian)] + spec_u16_bytes(
        d.global_message_number,
        d.endian,
    ) + seq![d.num_fields] + spec_field_definitions_bytes(d.fields)
}

/// What encoding a definition gives: its bytes, or why it has none.
pub open spec fn spec_write_definition(d: DefinitionMessageView) -> Result<Seq<u8>, FitError> {
    if d.dev_num_fields is Some || d.dev_fields is Some {
        Err(FitError::UnsupportedFeature)
    } else if d.num_fields != d.fields.len() {
        Err(FitError::InvalidArgument)
    } else {
        Ok(spec_definition_bytes(d))
    }
}

impl DefinitionMessage {
    /// The byte order that an architecture byte names.
    pub fn read_endian(x: u8) -> (e: Endian)
        ensures
            e == spec_read_endian(x),
    {
        if x == 0x0 {
            return Endian::Little;
        }
        Endian::Big
    }

    /// The architecture byte of a byte order.
    pub fn write_endian(b: &Endian) -> (x: u8)
        ensures
            x == spec_write_endian(*b),
    {
        match b {
            Endian::Big => 0x1,
            Endian::Little => 0x0,
        }
    }

    /// A copy of the definition.
    pub fn clone_definition(&self) -> (d: DefinitionMessage)
        ensures
            d@ == self@,
    {
        let mut fields: Vec<FieldDefinition> = Vec::with_capacity(self.fields.len());
        let mut i: usize = 0;
        while i < self.fields.len()
            invariant
                i <= self.fields.len(),
                fields@ == self.fields@.take(i as int),
            decreases self.fields.len() - i,
        {
            fields.push(self.fields[i]);
            proof {
                assert(fields@ =~= self.fields@.take(i as int + 1));
            }
            i += 1;
        }
        proof {
            assert(self.fields@.take(i as int) =~= self.fields@);
        }
        let dev_fields: Option<Vec<DevFieldDefinition>> = match &self.dev_fields {
            Some(v) => {
                let mut out: Vec<DevFieldDefinition> = Vec::with_capacity(v.len());
                let mut j: usize = 0;
                while j < v.len()
                    invariant
                        j <= v.len(),
                        out@ == v@.take(j as int),
                    decreases v.len() - j,
                {
                    out.push(v[j]);
                    proof {
                        assert(out@ =~= v@.take(j as int + 1));
                    }
                    j += 1;
                }
                proof {
                    assert(v@.take(j as int) =~= v@);
                }
                Some(out)
            },
            None => None,
        };
        DefinitionMessage {
            reserved: self.reserved,
            endian: self.endian,
            global_message_number: self.global_message_number,
            num_fields: self.num_fields,
            fields,
            dev_num_fields: self.dev_num_fields,
            dev_fields,
        }
    }

    /// Reads the definition at the cursor.
    ///
    /// Fails with `Truncated`, and only so, where the buffer ends before the
    /// definition does.
    pub fn read(reader: &mut ByteCursor) -> (r: Result<DefinitionMessage, FitError>)
        ensures
            final(reader).bytes() == old(reader).bytes(),
            match r {
                Ok(d) => {
                    &&& spec_parse_definition(old(reader).bytes(), old(reader).spec_position())
                        == Some(d@)
                    &&& final(reader).spec_position() == old(reader).spec_position() + 5 + 3
                        * d.num_fields
                    &&& d@.wf()
                },
                Err(e) => {
                    &&& e == FitError::Truncated
                    &&& spec_parse_definition(old(reader).bytes(), old(reader).spec_position())
                        is None
                },
            },
    {
        let start: usize = reader.position();
        let ghost bytes = reader.bytes();
        if reader.remaining() < 5 {
            return Err(FitError::Truncated);
        }
        let reserved: u8 = read_u8(reader);
        let endian = Self::read_endian(read_u8(reader));
        let global_message_number: u16 = read_u16(reader, endian);
        let num_fields: u8 = read_u8(reader);
        if reader.remaining() < 3 * (num_fields as usize) {
            return Err(FitError::Truncated);
        }
        let mut fields: Vec<FieldDefinition> = Vec::with_capacity(num_fields as usize);
        let mut i: u8 = 0;
        while i < num_fields
            invariant
                i <= num_fields,
                reader.bytes() == bytes,
                start + 5 + 3 * num_fields <= bytes.len(),
                reader.spec_position() == start + 5 + 3 * i,
                fields@.len() == i,
                forall|j: int|
                    0 <= j < i ==> #[trigger] fields@[j] == spec_field_definition(
                        bytes,
                        start + 5 + 3 * j,
                    ),
            decreases num_fields - i,
        {
            let definition_number: u8 = read_u8(reader);
            let size: u8 = read_u8(reader);
            let base_type = FieldDefBaseType::from_bytes(read_u8(reader));
            fields.push(FieldDefinition { definition_number, size, base_type });
            i += 1;
        }
        let d = DefinitionMessage {
            reserved,
            endian,
            global_message_number,
            num_fields,
            fields,
            dev_num_fields: None,
            dev_fields: None,
        };
        proof {
            let want = spec_parse_definition(bytes, start as int)->0;
            assert(d@.fields =~= want.fields);
            let p = padded(bytes, start + 2, 2);
            assert(p[0] == bytes.skip(start + 2)[0]);
            assert(p[1] == bytes.skip(start + 2)[1]);
        }
        Ok(d)
    }

    /// Appends the definition's bytes.
    ///
    /// Fails with `UnsupportedFeature` where the definition has developer
    /// fields, else with `InvalidArgument` where its field count is not the
    /// number of its fields; the buffer is then unchanged.
    pub fn write(&self, writer: &mut Vec<u8>) -> (r: Result<(), FitError>)
        ensures
            match r {
                Ok(_) => {
                    &&& spec_write_definition(self@) is Ok
                    &&& final(writer)@ == old(writer)@ + spec_definition_bytes(self@)
                },
                Err(e) => {
                    &&& spec_write_definition(self@) == Err::<Seq<u8>, FitError>(e)
                    &&& final(writer)@ == old(writer)@
                },
            },
    {
        if self.dev_num_fields.is_some() || self.dev_fields.is_some() {
            return Err(FitError::UnsupportedFeature);
        }
        if self.num_fields as usize != self.fields.len() {
            return Err(FitError::InvalidArgument);
        }
        write_bin_u8(writer, self.reserved);
        write_bin_u8(writer, Self::write_endian(&self.endian));
        write_bin_u16(writer, self.global_message_number, self.endian);
        write_bin_u8(writer, self.num_fields);
        let ghost head = writer@;
        let mut i: usize = 0;
        while i < self.fields.len()
            invariant
                i <= self.fields.len(),
                writer@ == head + spec_field_definitions_bytes(self.fields@.take(i as int)),
            decreases self.fields.len() - i,
        {
            let f = self.fields[i];
            writer.push(f.definition_number);
            writer.push(f.size);
            writer.push(f.base_type.to_bytes());
            proof {
                let a = self.fields@.take(i as int);
                let b = self.fields@.take(i as int + 1);
                assert(writer@ =~= head + spec_field_definitions_bytes(b)) by {
                    assert forall|j: int| 0 <= j < 3 * a.len() implies spec_field_definitions_bytes(
                        b,
                    )[j] == spec_field_definitions_bytes(a)[j] by {
                        assert(b[j / 3] == a[j / 3]);
                    }
                }
            }
            i += 1;
        }
        proof {
            assert(self.fields@.take(i as int) =~= self.fields@);
            assert(spec_field_definitions_bytes(self.fields@.take(0)) =~= Seq::<u8>::empty());
            assert(head =~= old(writer)@ + (seq![self.reserved, spec_write_endian(self.endian)]
                + spec_u16_bytes(self.global_message_number, self.endian) + seq![
                self.num_fields,
            ]));
            assert(writer@ =~= old(writer)@ + spec_definition_bytes(self@));
        }
        Ok(())
    }
}

/// A definition with the header of its record.
#[derive(Clone, Debug, PartialEq)]
pub struct FitDefinitionMessage {
    pub header: FitMessageHeader,
    pub data: DefinitionMessage,
}

/// The fields of one data record and the message type that its definition
/// resolves to.
#[derive(Clone, Debug, PartialEq)]
pub struct DataMessage {
    pub message_type: MessageType,
    pub values: Vec<DataField>,
}

/// What a `DataMessage` holds, as mathematical data.
pub struct DataMessageView {
    pub message_type: MessageType,
    pub values: Seq<DataFieldView>,
}

impl View for DataMessage {
    type V = DataMessageView;

    open spec fn view(&self) -> DataMessageView {
        DataMessageView { message_type: self.message_type, values: fields_view(self.values@) }
    }
}

/// A data message with the header of its record.
#[derive(Clone, Debug, PartialEq)]
pub struct FitDataMessage {
    pub header: FitMessageHeader,
    pub data: DataMessage,
}

/// One record of a file.
#[derive(Clone, Debug, PartialEq)]
pub enum FitMessage {
    Definition(FitDefinitionMessage),
    Data(FitDataMessage),
}

/// What a `FitMessage` holds, as mathematical data.
pub enum FitMessageView {
    Definition(FitMessageHeader, DefinitionMessageView),
    Data(FitMessageHeader, DataMessageView),
}

impl View for FitMessage {
    type V = FitMessageView;

    open spec fn view(&self) -> FitMessageView {
        match *self {
            FitMessage::Definition(m) => FitMessageView::Definition(m.header, m.data@),
            FitMessage::Data(m) => FitMessageView::Data(m.header, m.data@),
        }
    }
}

impl FitDataMessage {
    /// A copy of the record.
    pub fn clone_message(&self) -> (m: FitDataMessage)
        ensures
            m.header == self.header,
            m.data@ == self.data@,
    {
        FitDataMessage { header: self.header, data: self.data.clone_message() }
    }
}

impl FitMessage {
    /// A copy of the record.
    pub fn clone_message(&self) -> (m: FitMessage)
        ensures
            m@ == self@,
    {
        match self {
            FitMessage::Definition(d) => FitMessage::Definition(
                FitDefinitionMessage { header: d.header, data: d.data.clone_definition() },
            ),
            FitMessage::Data(d) => FitMessage::Data(d.clone_message()),
        }
    }
}

/// The views of a sequence of messages, in order.
pub open spec fn messages_view(s: Seq<FitMessage>) -> Seq<FitMessageView> {
    Seq::new(s.len(), |i: int| s[i]@)
}

/// The data message that a record's bytes spell under a definition: the
/// message type that the definition's global number resolves to, and the
/// fields of its layout.
pub open spec fn spec_data_message(d: DefinitionMessageView, b: Seq<u8>) -> DataMessageView {
    let m = spec_parse_message_type(d.global_message_number);
    DataMessageView { message_type: m, values: spec_data_fields(m, d.endian, d.fields, b) }
}

impl DataMessage {
    /// A copy of the message.
    pub fn clone_message(&self) -> (m: DataMessage)
        ensures
            m@ == self@,
    {
        let mut values: Vec<DataField> = Vec::with_capacity(self.values.len());
        let mut i: usize = 0;
        while i < self.values.len()
            invariant
                i <= self.values.len(),
                values@.len() == i,
                forall|j: int| 0 <= j < i ==> (#[trigger] values@[j])@ == self.values@[j]@,
            decreases self.values.len() - i,
        {
            values.push(self.values[i].clone_field());
            i += 1;
        }
        proof {
            assert(fields_view(values@) =~= fields_view(self.values@));
        }
        DataMessage { message_type: self.message_type, values }
    }

    /// Reads one data record under the definition of its slot.
    ///
    /// Fails with `Truncated`, and only so, where fewer bytes are left than
    /// the record has; the cursor then stays.
    pub fn read(reader: &mut ByteCursor, definition: &DefinitionMessage) -> (r: Result<
        DataMessage,
        FitError,
    >)
        ensures
            final(reader).bytes() == old(reader).bytes(),
            match r {
                Ok(m) => {
                    &&& old(reader).spec_position() + spec_total_size(definition.fields@) <= old(
                        reader,
                    ).bytes().len()
                    &&& final(reader).spec_position() == old(reader).spec_position()
                        + spec_total_size(definition.fields@)
                    &&& m@ == spec_data_message(
                        definition@,
                        old(reader).bytes().subrange(
                            old(reader).spec_position(),
                            old(reader).spec_position() + spec_total_size(definition.fields@),
                        ),
                    )
                },
                Err(e) => {
                    &&& e == FitError::Truncated
                    &&& old(reader).spec_position() + spec_total_size(definition.fields@) > old(
                        reader,
                    ).bytes().len()
                    &&& final(reader).spec_position() == old(reader).spec_position()
                },
            },
    {
        let message_type = parse_message_type(definition.global_message_number);
        match DataField::parse_data_field(
            reader,
            definition.endian,
            message_type,
            &definition.fields,
        ) {
            Ok(values) => Ok(DataMessage { message_type, values }),
            Err(e) => Err(e),
        }
    }

    /// Appends the record's bytes in the layout and byte order of `def_msg`.
    pub fn write(&self, writer: &mut Vec<u8>, def_msg: &DefinitionMessage)
        ensures
            final(writer)@ == old(writer)@ + spec_write_fields(
                self@.values,
                self.message_type,
                def_msg.endian,
                def_msg.fields@,
            ),
    {
        DataField::write_data_field(
            &self.values,
            writer,
            def_msg.endian,
            self.message_type,
            def_msg,
        )
    }
}

/// Whether slot `s` holds a definition of the message type `t`.
pub open spec fn spec_slot_has(
    reg: Seq<Option<DefinitionMessageView>>,
    s: int,
    t: MessageType,
) -> bool {
    &&& 0 <= s < 16
    &&& reg[s] is Some
    &&& spec_parse_message_type(reg[s]->0.global_message_number) == t
}

/// The first slot from `from` on that holds a definition of the message
/// type `t`.
pub open spec fn spec_find_slot(
    reg: Seq<Option<DefinitionMessageView>>,
    t: MessageType,
    from: int,
) -> Option<int>
    decreases 16 - from,
{
    if from < 0 || from >= 16 {
        None
    } else if spec_slot_has(reg, from, t) {
        Some(from)
    } else {
        spec_find_slot(reg, t, from + 1)
    }
}

/// The slot whose definition is the layout of a data message of the type
/// `t` that names the slot `own`: its own slot, where that holds a
/// definition of its type, and else the first slot that does.
pub open spec fn spec_layout_slot(
    reg: Seq<Option<DefinitionMessageView>>,
    own: u8,
    t: MessageType,
) -> Option<int> {
    if spec_slot_has(reg, own as int, t) {
        Some(own as int)
    } else {
        spec_find_slot(reg, t, 0)
    }
}

/// The definitions of a stream, the latest first, each with the local slot
/// that it was made for. The active definition of a slot is the first that
/// names it.
pub struct DefinitionRegistry {
    queue: VecDeque<(u8, DefinitionMessage)>,
}

/// The registry of a stream in which nothing has been defined.
pub open spec fn empty_registry() -> Seq<Option<DefinitionMessageView>> {
    Seq::new(16, |i: int| None::<DefinitionMessageView>)
}

/// The first definition from place `from` on that was made for `slot`.
pub open spec fn spec_active(
    queue: Seq<(u8, DefinitionMessage)>,
    slot: int,
    from: int,
) -> Option<DefinitionMessageView>
    decreases queue.len() - from,
{
    if from < 0 || from >= queue.len() {
        None
    } else if queue[from].0 == slot {
        Some(queue[from].1@)
    } else {
        spec_active(queue, slot, from + 1)
    }
}

/// Behind a new first definition, every definition is one place further.
proof fn lemma_active_behind(
    queue: Seq<(u8, DefinitionMessage)>,
    first: (u8, DefinitionMessage),
    slot: int,
    from: int,
)
    requires
        0 <= from,
    ensures
        spec_active(seq![first] + queue, slot, from + 1) == spec_active(queue, slot, from),
    decreases queue.len() - from,
{
    let longer = seq![first] + queue;
    if from < queue.len() {
        assert(longer[from + 1] == queue[from]);
        lemma_active_behind(queue, first, slot, from + 1);
    }
}

impl DefinitionRegistry {
    /// The active definition of each of the sixteen slots, or `None` for a
    /// slot that has none.
    pub closed spec fn view(self) -> Seq<Option<DefinitionMessageView>> {
        Seq::new(16, |s: int| spec_active(self.queue@, s, 0))
    }

    /// A registry with no definition.
    pub fn new() -> (r: DefinitionRegistry)
        ensures
            r.view() == empty_registry(),
    {
        let r = DefinitionRegistry { queue: VecDeque::new() };
        proof {
            assert(r.view() =~= empty_registry());
        }
        r
    }

    /// Makes `def` the definition of `slot`, in place of what the slot held.
    pub fn install(&mut self, slot: u8, def: DefinitionMessage)
        requires
            slot < 16,
        ensures
            final(self).view() == old(self).view().update(slot as int, Some(def@)),
    {
        let ghost before = self.queue@;
        let ghost first = (slot, def);
        self.queue.push_front((slot, def));
        proof {
            assert forall|s: int| 0 <= s < 16 implies self.view()[s] == old(self).view().update(
                slot as int,
                Some(def@),
            )[s] by {
                assert(self.queue@[0] == first);
                lemma_active_behind(before, first, s, 0);
            }
            assert(self.view() =~= old(self).view().update(slot as int, Some(def@)));
        }
    }

    /// Whether `slot` holds a definition of the message type `t`.
    fn slot_has(&self, slot: u8, t: MessageType) -> (r: bool)
        requires
            slot < 16,
        ensures
            r == spec_slot_has(self.view(), slot as int, t),
    {
        match self.lookup(slot) {
            Some(d) => parse_message_type(d.global_message_number) == t,
            None => false,
        }
    }

    /// The slot whose definition is the layout of a data message of the
    /// type `t` that names the slot `own`, if there is one.
    pub fn find_layout(&self, own: u8, t: MessageType) -> (r: Option<u8>)
        ensures
            match r {
                Some(s) => s < 16 && spec_layout_slot(self.view(), own, t) == Some(s as int)
                    && spec_slot_has(self.view(), s as int, t),
                None => spec_layout_slot(self.view(), own, t) is None,
            },
    {
        if own < 16 && self.slot_has(own, t) {
            return Some(own);
        }
        let mut s: u8 = 0;
        while s < 16
            invariant
                s <= 16,
                !spec_slot_has(self.view(), own as int, t),
                spec_find_slot(self.view(), t, 0) == spec_find_slot(self.view(), t, s as int),
            decreases 16 - s,
        {
            if self.slot_has(s, t) {
                return Some(s);
            }
            s += 1;
        }
        None
    }

    /// The active definition of `slot`, if it has one.
    pub fn lookup(&self, slot: u8) -> (r: Option<&DefinitionMessage>)
        requires
            slot < 16,
        ensures
            match r {
                Some(d) => self.view()[slot as int] == Some(d@),
                None => self.view()[slot as int] is None,
            },
    {
        let mut i: usize = 0;
        while i < self.queue.len()
            invariant
                slot < 16,
                i <= self.queue@.len(),
                spec_active(self.queue@, slot as int, 0) == spec_active(
                    self.queue@,
                    slot as int,
                    i as int,
                ),
            decreases self.queue@.len() - i,
        {
            if self.queue[i].0 == slot {
                return Some(&self.queue[i].1);
            }
            i += 1;
        }
        None
    }
}

/// The header of a file.
#[derive(Debug, Clone, PartialEq)]
pub struct FitHeader {
    /// The length of the header in bytes: 12, or 14 with a checksum.
    pub header_size: u8,
    /// Protocol version.
    pub protocol_version: u8,
    /// Profile version.
    pub profile_version: u16,
    /// The length of the records in bytes, without header and checksum.
    pub data_size: u32,
    /// The format tag as read; ".FIT" is what is written.
    pub data_type: String,
    /// The checksum of the first twelve bytes, in a header of 14 bytes.
    pub crc: Option<u16>,
}

/// What a `FitHeader` holds, as mathematical data.
pub struct FitHeaderView {
    pub header_size: u8,
    pub protocol_version: u8,
    pub profile_version: u16,
    pub data_size: u32,
    pub data_type: Seq<char>,
    pub crc: Option<u16>,
}

impl View for FitHeader {
    type V = FitHeaderView;

    open spec fn view(&self) -> FitHeaderView {
        FitHeaderView {
            header_size: self.header_size,
            protocol_version: self.protocol_version,
            profile_version: self.profile_version,
            data_size: self.data_size,
            data_type: self.data_type@,
            crc: self.crc,
        }
    }
}

/// The text that `String::from_utf8_lossy` makes of bytes: their decoding
/// where they are UTF-8, and a text with replacement characters where they
/// are not.
pub uninterp spec fn spec_lossy_text(bytes: Seq<u8>) -> Seq<char>;

/// Converts bytes to text, whatever they are.
///
/// Calls `String::from_utf8_lossy`. The contract names its result, and
/// claims that well-formed UTF-8 is decoded as it stands.
#[verifier::external_body]
fn lossy_text(bytes: &[u8]) -> (r: String)
    ensures
        r@ == spec_lossy_text(bytes@),
        valid_utf8(bytes@) ==> r@ == decode_utf8(bytes@),
{
    String::from_utf8_lossy(bytes).into_owned()
}

/// The bytes of the format tag.
pub open spec fn spec_tag_bytes() -> Seq<u8> {
    seq![0x2Eu8, 0x46u8, 0x49u8, 0x54u8]
}

/// The header that the first bytes of a file spell: twelve bytes, and two
/// more for the checksum where the first byte is 14. `None` where the file
/// is shorter than that.
pub open spec fn spec_parse_header(bytes: Seq<u8>) -> Option<FitHeaderView> {
    if bytes.len() < 12 {
        None
    } else if bytes[0] == 14 && bytes.len() < 14 {
        None
    } else {
        Some(
            FitHeaderView {
                header_size: bytes[0],
                protocol_version: bytes[1],
                profile_version: spec_u16_from(Endian::Little, bytes.skip(2)),
                data_size: spec_u32_from(Endian::Little, bytes.skip(4)),
                data_type: spec_lossy_text(bytes.subrange(8, 12)),
                crc: if bytes[0] == 14 {
                    Some(spec_u16_from(Endian::Little, bytes.skip(12)))
                } else {
                    None
                },
            },
        )
    }
}

/// The number of bytes that a header is written in.
pub open spec fn spec_header_len(h: FitHeaderView) -> int {
    if h.crc is Some {
        14
    } else {
        12
    }
}

/// The bytes of a header: its fields little-endian, the tag ".FIT", and the
/// checksum where it has one.
pub open spec fn spec_header_bytes(h: FitHeaderView) -> Seq<u8> {
    let fixed = seq![h.header_size, h.protocol_version] + spec_u16_bytes(
        h.profile_version,
        Endian::Little,
    ) + spec_u32_bytes(h.data_size, Endian::Little) + spec_tag_bytes();
    match h.crc {
        Some(c) => fixed + spec_u16_bytes(c, Endian::Little),
        None => fixed,
    }
}

impl FitHeader {
    /// Reads the header at the cursor.
    ///
    /// Fails with `Truncated`, and only so, where the buffer ends before the
    /// header does.
    pub fn read(reader: &mut ByteCursor) -> (r: Result<FitHeader, FitError>)
        ensures
            final(reader).bytes() == old(reader).bytes(),
            match r {
                Ok(h) => {
                    &&& spec_parse_header(old(reader).bytes().skip(old(reader).spec_position()))
                        == Some(h@)
                    &&& final(reader).spec_position() == old(reader).spec_position()
                        + spec_header_len(h@)
                    &&& h.crc is Some <==> h.header_size == 14
                },
                Err(e) => {
                    &&& e == FitError::Truncated
                    &&& spec_parse_header(old(reader).bytes().skip(old(reader).spec_position()))
                        is None
                },
            },
    {
        let start: usize = reader.position();
        let ghost bytes = reader.bytes();
        let ghost rest = bytes.skip(start as int);
        if reader.remaining() < 12 {
            return Err(FitError::Truncated);
        }
        let header_size: u8 = read_u8(reader);
        let protocol_version: u8 = read_u8(reader);
        let profile_version: u16 = read_u16(reader, Endian::Little);
        let data_size: u32 = read_u32(reader, Endian::Little);
        let tag = read_u8_arr(reader, 4);
        let data_type = lossy_text(tag.as_slice());
        let mut crc: Option<u16> = None;
        if header_size == 14 {
            if reader.remaining() < 2 {
                return Err(FitError::Truncated);
            }
            crc = Some(read_u16(reader, Endian::Little));
        }
        proof {
            assert(rest[0] == bytes[start as int]);
            assert(rest[1] == bytes[start + 1]);
            let p2 = padded(bytes, start + 2, 2);
            assert(p2[0] == rest.skip(2)[0] && p2[1] == rest.skip(2)[1]);
            let p4 = padded(bytes, start + 4, 4);
            assert(p4[0] == rest.skip(4)[0] && p4[1] == rest.skip(4)[1] && p4[2] == rest.skip(4)[2]
                && p4[3] == rest.skip(4)[3]);
            assert(tag@ =~= rest.subrange(8, 12));
            if header_size == 14 {
                let p12 = padded(bytes, start + 12, 2);
                assert(p12[0] == rest.skip(12)[0] && p12[1] == rest.skip(12)[1]);
            }
        }
        Ok(FitHeader { header_size, protocol_version, profile_version, data_size, data_type, crc })
    }

    /// Appends the header's bytes.
    pub fn write(&self, writer: &mut Vec<u8>)
        ensures
            final(writer)@ == old(writer)@ + spec_header_bytes(self@),
    {
        write_bin_u8(writer, self.header_size);
        write_bin_u8(writer, self.protocol_version);
        write_bin_u16(writer, self.profile_version, Endian::Little);
        write_bin_u32(writer, self.data_size, Endian::Little);
        write_bin_u8(writer, 0x2E);
        write_bin_u8(writer, 0x46);
        write_bin_u8(writer, 0x49);
        write_bin_u8(writer, 0x54);
        proof {
            let fixed = seq![self.header_size, self.protocol_version] + spec_u16_bytes(
                self.profile_version,
                Endian::Little,
            ) + spec_u32_bytes(self.data_size, Endian::Little) + spec_tag_bytes();
            assert(writer@ =~= old(writer)@ + fixed);
        }
        match self.crc {
            Some(c) => {
                write_bin_u16(writer, c, Endian::Little);
                proof {
                    assert(writer@ =~= old(writer)@ + spec_header_bytes(self@));
                }
            },
            None => {},
        }
    }
}

/// One step of the checksum: the running value after one more byte, low
/// nibble first.
pub open spec fn spec_crc_get16(crc: u16, byte: u8) -> u16 {
    let low: u16 = ((crc >> 4) & 0x0FFF) ^ CRC_TABLE[(crc & 0xF) as int] ^ CRC_TABLE[(byte
        & 0xF) as int];
    ((low >> 4) & 0x0FFF) ^ CRC_TABLE[(low & 0xF) as int] ^ CRC_TABLE[((byte >> 4) & 0xF) as int]
}

/// The checksum of a byte sequence that starts from a given running value.
pub open spec fn spec_crc_from(crc: u16, bytes: Seq<u8>) -> u16
    decreases bytes.len(),
{
    if bytes.len() == 0 {
        crc
    } else {
        spec_crc_get16(spec_crc_from(crc, bytes.drop_last()), bytes.last())
    }
}

/// The checksum of a byte sequence: the fold of `spec_crc_get16` over its
/// bytes in order, from zero.
pub open spec fn spec_crc16(bytes: Seq<u8>) -> u16 {
    spec_crc_from(0, bytes)
}

/// The running checksum after one more byte.
pub fn fit_crc_get16(crc: u16, byte: u8) -> (r: u16)
    ensures
        r == spec_crc_get16(crc, byte),
{
    assert((crc & 0xF) < 16) by (bit_vector);
    assert((byte & 0xF) < 16) by (bit_vector);
    assert(((byte >> 4) & 0xF) < 16) by (bit_vector);
    // Checksum of the lower four bits of the byte
    let mut tmp: u16 = CRC_TABLE[(crc & 0xF) as usize];
    let mut crc: u16 = (crc >> 4) & 0x0FFF;
    crc = crc ^ tmp ^ CRC_TABLE[(byte & 0xF) as usize];
    assert((crc & 0xF) < 16) by (bit_vector);
    // Checksum of the upper four bits of the byte
    tmp = CRC_TABLE[(crc & 0xF) as usize];
    crc = (crc >> 4) & 0x0FFF;
    crc = crc ^ tmp ^ CRC_TABLE[((byte >> 4) & 0xF) as usize];
    crc
}

/// The checksum of the bytes.
pub fn calculate_fit_crc(header: &[u8]) -> (crc: u16)
    ensures
        crc == spec_crc16(header@),
{
    let mut crc: u16 = 0;
    let mut i: usize = 0;
    while i < header.len()
        invariant
            i <= header.len(),
            crc == spec_crc16(header@.take(i as int)),
        decreases header.len() - i,
    {
        proof {
            let next = header@.take(i as int + 1);
            assert(next.drop_last() =~= header@.take(i as int));
            assert(next.last() == header@[i as int]);
        }
        crc = fit_crc_get16(crc, header[i]);
        i += 1;
    }
    proof {
        assert(header@.take(i as int) =~= header@);
    }
    crc
}

/// The checksum can be computed piecewise: the checksum of two sequences on
/// end is that of the second, started from the checksum of the first.
pub proof fn lemma_crc_concat(a: Seq<u8>, b: Seq<u8>)
    ensures
        spec_crc16(a + b) == spec_crc_from(spec_crc16(a), b),
    decreases b.len(),
{
    if b.len() == 0 {
        assert(a + b =~= a);
    } else {
        lemma_crc_concat(a, b.drop_last());
        assert((a + b).drop_last() =~= a + b.drop_last());
        assert((a + b).last() == b.last());
    }
}

} // verus!
