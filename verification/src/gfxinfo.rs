//! The snapshot of one slot of the foreign registry of active containers.

use vstd::prelude::*;
use crate::call::Call;
use crate::error::Error;
use crate::layout::{
    le_i32, le_u16, le_u64, read_bytes, read_i32, read_i8, read_u16, read_u64, signed8,
};

verus! {

/// The size in bytes of the record of one snapshot.
pub const INFO_BYTES: usize = 0x138;

/// The size in bytes of the name buffer of a snapshot.
pub const INFO_NAME_BYTES: usize = 256;

/// A platform calendar time.
#[derive(Clone, Copy, Debug, PartialEq, Eq, Structural)]
pub struct SystemTime {
    pub year: u16,
    pub month: u16,
    pub day_of_week: u16,
    pub day: u16,
    pub hour: u16,
    pub minute: u16,
    pub second: u16,
    pub milliseconds: u16,
}

/// The calendar time that `s` holds at `at`: eight little-endian 16-bit fields.
pub open spec fn system_time_at(s: Seq<u8>, at: int) -> SystemTime {
    SystemTime {
        year: le_u16(s, at) as u16,
        month: le_u16(s, at + 2) as u16,
        day_of_week: le_u16(s, at + 4) as u16,
        day: le_u16(s, at + 6) as u16,
        hour: le_u16(s, at + 8) as u16,
        minute: le_u16(s, at + 10) as u16,
        second: le_u16(s, at + 12) as u16,
        milliseconds: le_u16(s, at + 14) as u16,
    }
}

/// Reads the calendar time at `at`.
pub fn read_system_time(buf: &[u8], at: usize) -> (t: SystemTime)
    requires
        at + 16 <= buf@.len(),
    ensures
        t == system_time_at(buf@, at as int),
{
    let end: usize = buf.len();
    assert(at + 16 <= end);
    SystemTime {
        year: read_u16(buf, at),
        month: read_u16(buf, at + 2),
        day_of_week: read_u16(buf, at + 4),
        day: read_u16(buf, at + 6),
        hour: read_u16(buf, at + 8),
        minute: read_u16(buf, at + 10),
        second: read_u16(buf, at + 12),
        milliseconds: read_u16(buf, at + 14),
    }
}

/// What the foreign registry reports of one slot. A snapshot is a copy: it owns
/// nothing on the foreign side and needs no release.
#[derive(Clone, Debug, PartialEq, Eq)]
pub struct GFXInfo {
    pub in_use: i8,
    pub index: i32,
    pub number_of_open_files: i32,
    /// The 256 bytes of the name buffer.
    pub filename: Vec<u8>,
    pub field_0: i32,
    pub field_1: i32,
    pub field_2: i32,
    pub number_of_bytes_processed_total: u64,
    pub timestamp: SystemTime,
    pub pid: i32,
    pub field_3: i32,
}

/// A snapshot as plain values.
pub struct GFXInfoView {
    pub in_use: i8,
    pub index: i32,
    pub number_of_open_files: i32,
    pub filename: Seq<u8>,
    pub field_0: i32,
    pub field_1: i32,
    pub field_2: i32,
    pub number_of_bytes_processed_total: u64,
    pub timestamp: SystemTime,
    pub pid: i32,
    pub field_3: i32,
}

impl View for GFXInfo {
    type V = GFXInfoView;

    open spec fn view(&self) -> GFXInfoView {
        GFXInfoView {
            in_use: self.in_use,
            index: self.index,
            number_of_open_files: self.number_of_open_files,
            filename: self.filename@,
            field_0: self.field_0,
            field_1: self.field_1,
            field_2: self.field_2,
            number_of_bytes_processed_total: self.number_of_bytes_processed_total,
            timestamp: self.timestamp,
            pid: self.pid,
            field_3: self.field_3,
        }
    }
}

/// The snapshot that a record of `INFO_BYTES` bytes holds.
pub open spec fn info_of(s: Seq<u8>) -> GFXInfoView {
    GFXInfoView {
        in_use: signed8(s[0x000] as int) as i8,
        index: le_i32(s, 0x004) as i32,
        number_of_open_files: le_i32(s, 0x008) as i32,
        filename: s.subrange(0x00C, 0x10C),
        field_0: le_i32(s, 0x10C) as i32,
        field_1: le_i32(s, 0x110) as i32,
        field_2: le_i32(s, 0x114) as i32,
        number_of_bytes_processed_total: le_u64(s, 0x118) as u64,
        timestamp: system_time_at(s, 0x120),
        pid: le_i32(s, 0x130) as i32,
        field_3: le_i32(s, 0x134) as i32,
    }
}

impl GFXInfo {
    /// The call that asks the registry for the snapshot of the slot `index`. It
    /// needs no container.
    pub fn query(index: i32) -> (c: Call)
        ensures
            c == (Call::QueryInfo { index }),
    {
        Call::QueryInfo { index }
    }

    /// The snapshot in the record that the registry query filled in.
    ///
    /// A record of any length but `INFO_BYTES` is reported as truncated.
    pub fn new(image: &[u8]) -> (r: Result<GFXInfo, Error>)
        ensures
            match r {
                Ok(info) => image@.len() == INFO_BYTES && info@ == info_of(image@),
                Err(e) => image@.len() != INFO_BYTES && e == Error::Truncated,
            },
    {
        if image.len() != INFO_BYTES {
            return Err(Error::Truncated);
        }
        Ok(
            GFXInfo {
                in_use: read_i8(image, 0x000),
                index: read_i32(image, 0x004),
                number_of_open_files: read_i32(image, 0x008),
                filename: read_bytes(image, 0x00C, INFO_NAME_BYTES),
                field_0: read_i32(image, 0x10C),
                field_1: read_i32(image, 0x110),
                field_2: read_i32(image, 0x114),
                number_of_bytes_processed_total: read_u64(image, 0x118),
                timestamp: read_system_time(image, 0x120),
                pid: read_i32(image, 0x130),
                field_3: read_i32(image, 0x134),
            },
        )
    }
}

} // verus!
