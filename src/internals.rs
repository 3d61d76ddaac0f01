//! The raw, positionally addressed form of a TZif file, as a decoder of its
//! bytes hands it over: counts, flat parallel arrays and a packed string table.
use vstd::prelude::*;

verus! {

/// The counts from the file's header.
#[derive(Debug, Clone, Copy, PartialEq, Eq, Structural)]
pub struct Header {
    /// Number of transition records.
    pub num_transitions: u32,
    /// Number of local time type records.
    pub num_local_time_types: u32,
    /// Number of leap second records.
    pub num_leap_seconds: u32,
    /// Number of bytes in the abbreviation string table.
    pub num_chars: u32,
}

/// One transition record: when the rule changes, and the index of the local
/// time type in effect from then on.
#[derive(Debug, Clone, Copy, PartialEq, Eq, Structural)]
pub struct TransitionData {
    /// Unix timestamp of the change.
    pub timestamp: u32,
    /// Index into the local time type array.
    pub local_time_type_index: usize,
}

/// One local time type record, as stored in the file.
#[derive(Debug, Clone, Copy, PartialEq, Eq, Structural)]
pub struct LocalTimeTypeInfo {
    /// Seconds to add to UT, as the file's 32-bit two's complement pattern.
    pub offset: u32,
    /// Non-zero when the period observes daylight saving time.
    pub is_dst: u8,
    /// Byte offset of the abbreviation in the string table.
    pub name_offset: u8,
}

/// One leap second record, as stored in the file.
#[derive(Debug, Clone, Copy, PartialEq, Eq, Structural)]
pub struct LeapSecondData {
    /// Unix timestamp at which the leap second occurs.
    pub timestamp: u32,
    /// Total number of leap seconds from then on.
    pub leap_second_count: u32,
}

/// The whole raw decode of one file.
#[derive(Debug, Clone)]
pub struct TZData {
    pub header: Header,
    pub transitions: Vec<TransitionData>,
    pub time_info: Vec<LocalTimeTypeInfo>,
    pub leap_seconds: Vec<LeapSecondData>,
    /// NUL-terminated abbreviations, one after the other.
    pub strings: Vec<u8>,
    /// One entry per local time type: non-zero for "standard time".
    pub standard_flags: Vec<u8>,
    /// One entry per local time type: non-zero for "UT".
    pub gmt_flags: Vec<u8>,
}

impl TZData {
    /// The header's transition and type counts agree with their arrays, and
    /// both flag arrays run
    /// parallel to the local time type array.
    pub open spec fn wf(&self) -> bool {
        &&& self.header.num_transitions as nat == self.transitions@.len()
        &&& self.header.num_local_time_types as nat == self.time_info@.len()
        &&& self.standard_flags@.len() == self.time_info@.len()
        &&& self.gmt_flags@.len() == self.time_info@.len()
    }
}

} // verus!
