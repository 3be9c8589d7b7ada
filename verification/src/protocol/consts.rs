use vstd::prelude::*;

verus! {

/// Lookup table of the nibble-wise checksum.
pub const CRC_TABLE: [u16; 16] = [
    0x0000, 0xCC01, 0xD801, 0x1400, 0xF001, 0x3C00, 0x2800, 0xE401, 0xA001, 0x6C00, 0x7800, 0xB401,
    0x5000, 0x9C01, 0x8801, 0x4400,
];

/// Set in a record header that has a compressed timestamp.
pub const COMPRESSED_HEADER_MASK: u8 = 0b1000_0000;

/// The local slot of a compressed header.
pub const COMPRESSED_HEADER_LOCAL_MESSAGE_NUMBER_MASK: u8 = 0b0110_0000;

/// The time offset of a compressed header.
pub const COMPRESSED_HEADER_TIME_OFFSET_MASK: u8 = 0b0001_1111;

/// The rollover to add when a compressed time offset wraps.
pub const COMPRESSED_HEADER_TIME_OFFSET_ROLLOVER: u32 = 0b0010_0000;

/// The part of the previous timestamp that a compressed time offset keeps.
pub const COMPRESSED_HEADER_LAST_TIMESTAMP_MASK: u32 = 0xFFFF_FFE0;

/// Set in a normal record header that introduces a definition.
pub const DEFINITION_HEADER_MASK: u8 = 0x40;

/// Set in a normal record header whose definition has developer fields.
pub const DEVELOPER_FIELDS_MASK: u8 = 0x20;

/// The local slot of a normal header.
pub const LOCAL_MESSAGE_NUMBER_MASK: u8 = 0x0F;

/// The byte-order flag of a field's base-type byte.
pub const FIELD_DEFINITION_BASE_ENDIAN: u8 = 0b1000_0000;

/// The type code of a field's base-type byte.
pub const FIELD_DEFINITION_BASE_NUMBER: u8 = 0b0001_1111;

/// Seconds from the Unix epoch to the epoch of the format's timestamps.
pub const PSEUDO_EPOCH: u32 = 631_065_600;

/// The fixed bias, in seconds, of local timestamps.
pub const LOCAL_TIME_BIAS: u32 = 3600;

} // verus!
