//! The directory entry that a search fills in, decoded from its foreign record.

use vstd::prelude::*;
use crate::error::Error;
use crate::layout::{le_i32, le_u32, read_bytes, read_i32, read_i8, read_u32, signed8};
use crate::text::{before_nul, spelled, spells, text_until_nul};

verus! {

/// The size in bytes of the record of one directory entry.
pub const ENTRY_BYTES: usize = 0x1C0;

/// The size in bytes of the name buffer of a directory entry.
pub const ENTRY_NAME_BYTES: usize = 89;

/// The size in bytes of a platform find-data record, its padding included.
pub const FIND_DATA_BYTES: usize = 0x140;

/// The offset of the platform find-data record in a directory entry.
pub const ENTRY_FIND_DATA_AT: usize = 0x80;

/// A platform timestamp: two 32-bit halves of a 64-bit count.
#[derive(Clone, Copy, Debug, PartialEq, Eq, Structural)]
pub struct FileTime {
    pub low_date_time: u32,
    pub high_date_time: u32,
}

/// The timestamp that `s` holds at `at`: the low half first, both little-endian.
pub open spec fn file_time_at(s: Seq<u8>, at: int) -> FileTime {
    FileTime { low_date_time: le_u32(s, at) as u32, high_date_time: le_u32(s, at + 4) as u32 }
}

/// Reads the timestamp at `at`.
pub fn read_file_time(buf: &[u8], at: usize) -> (t: FileTime)
    requires
        at + 8 <= buf@.len(),
    ensures
        t == file_time_at(buf@, at as int),
{
    let end: usize = buf.len();
    assert(at + 8 <= end);
    FileTime { low_date_time: read_u32(buf, at), high_date_time: read_u32(buf, at + 4) }
}

/// What a directory entry is.
#[derive(Clone, Copy, Debug, PartialEq, Eq, Structural)]
pub enum Entry {
    /// A directory, tag `1`.
    Directory,
    /// A file, tag `2`.
    File,
}

impl Entry {
    /// The tag of this kind of entry.
    pub open spec fn spec_code(self) -> i8 {
        match self {
            Entry::Directory => 1,
            Entry::File => 2,
        }
    }

    /// The kind that a tag names; any tag but `1` and `2` names none.
    pub open spec fn spec_from_tag(tag: i8) -> Result<Entry, Error> {
        if tag == 1 {
            Ok(Entry::Directory)
        } else if tag == 2 {
            Ok(Entry::File)
        } else {
            Err(Error::InvalidEntry)
        }
    }

    /// The tag of this kind of entry.
    pub fn code(self) -> (c: i8)
        ensures
            c == self.spec_code(),
    {
        match self {
            Entry::Directory => 1,
            Entry::File => 2,
        }
    }

}

impl TryFrom<i8> for Entry {
    type Error = Error;

    /// The kind that a tag names. A tag that names none is an invalid entry and is
    /// never taken for one of the two kinds.
    fn try_from(tag: i8) -> (r: Result<Self, Self::Error>) {
        match tag {
            1 => Ok(Entry::Directory),
            2 => Ok(Entry::File),
            _ => Err(Error::InvalidEntry),
        }
    }
}

impl vstd::std_specs::convert::TryFromSpecImpl<i8> for Entry {
    open spec fn obeys_try_from_spec() -> bool {
        true
    }

    open spec fn try_from_spec(tag: i8) -> Result<Self, Self::Error> {
        Entry::spec_from_tag(tag)
    }
}

/// The platform find-data record that is embedded in a directory entry.
#[derive(Clone, Debug, PartialEq, Eq)]
pub struct FindData {
    pub file_attributes: u32,
    pub creation_time: FileTime,
    pub last_access_time: FileTime,
    pub last_write_time: FileTime,
    pub file_size_high: u32,
    pub file_size_low: u32,
    pub reserved0: u32,
    pub reserved1: u32,
    /// The 260 bytes of the name buffer.
    pub file_name: Vec<u8>,
    /// The 14 bytes of the short-name buffer.
    pub alternate_file_name: Vec<u8>,
}

/// A find-data record as plain values.
pub struct FindDataView {
    pub file_attributes: u32,
    pub creation_time: FileTime,
    pub last_access_time: FileTime,
    pub last_write_time: FileTime,
    pub file_size_high: u32,
    pub file_size_low: u32,
    pub reserved0: u32,
    pub reserved1: u32,
    pub file_name: Seq<u8>,
    pub alternate_file_name: Seq<u8>,
}

impl View for FindData {
    type V = FindDataView;

    open spec fn view(&self) -> FindDataView {
        FindDataView {
            file_attributes: self.file_attributes,
            creation_time: self.creation_time,
            last_access_time: self.last_access_time,
            last_write_time: self.last_write_time,
            file_size_high: self.file_size_high,
            file_size_low: self.file_size_low,
            reserved0: self.reserved0,
            reserved1: self.reserved1,
            file_name: self.file_name@,
            alternate_file_name: self.alternate_file_name@,
        }
    }
}

/// The find-data record that `s` holds at `at`.
pub open spec fn find_data_at(s: Seq<u8>, at: int) -> FindDataView {
    FindDataView {
        file_attributes: le_u32(s, at) as u32,
        creation_time: file_time_at(s, at + 4),
        last_access_time: file_time_at(s, at + 12),
        last_write_time: file_time_at(s, at + 20),
        file_size_high: le_u32(s, at + 28) as u32,
        file_size_low: le_u32(s, at + 32) as u32,
        reserved0: le_u32(s, at + 36) as u32,
        reserved1: le_u32(s, at + 40) as u32,
        file_name: s.subrange(at + 44, at + 304),
        alternate_file_name: s.subrange(at + 304, at + 318),
    }
}

/// Reads the find-data record at `at`.
pub fn read_find_data(buf: &[u8], at: usize) -> (d: FindData)
    requires
        at + FIND_DATA_BYTES <= buf@.len(),
    ensures
        d@ == find_data_at(buf@, at as int),
{
    let end: usize = buf.len();
    assert(at + 0x140 <= end);
    FindData {
        file_attributes: read_u32(buf, at),
        creation_time: read_file_time(buf, at + 4),
        last_access_time: read_file_time(buf, at + 12),
        last_write_time: read_file_time(buf, at + 20),
        file_size_high: read_u32(buf, at + 28),
        file_size_low: read_u32(buf, at + 32),
        reserved0: read_u32(buf, at + 36),
        reserved1: read_u32(buf, at + 40),
        file_name: read_bytes(buf, at + 44, 260),
        alternate_file_name: read_bytes(buf, at + 304, 14),
    }
}

/// One directory entry as the foreign side reported it.
///
/// The fields whose meaning is not known are public and carried as they are.
#[allow(non_snake_case)]
#[derive(Clone, Debug, PartialEq, Eq)]
pub struct ResultEntry {
    pub low_date_time: i32,
    file_time: FileTime,
    pub high_date_time: i32,
    pub field_10: i32,
    pub field_14: i32,
    pub field_18: i32,
    pub field_1C: i32,
    size: i32,
    typ: i8,
    filename: Vec<u8>,
    find_dataa: FindData,
}

/// A directory entry as plain values.
#[allow(non_snake_case)]
pub struct ResultEntryView {
    pub low_date_time: i32,
    pub file_time: FileTime,
    pub high_date_time: i32,
    pub field_10: i32,
    pub field_14: i32,
    pub field_18: i32,
    pub field_1C: i32,
    pub size: i32,
    pub typ: i8,
    pub filename: Seq<u8>,
    pub find_dataa: FindDataView,
}

impl View for ResultEntry {
    type V = ResultEntryView;

    closed spec fn view(&self) -> ResultEntryView {
        ResultEntryView {
            low_date_time: self.low_date_time,
            file_time: self.file_time,
            high_date_time: self.high_date_time,
            field_10: self.field_10,
            field_14: self.field_14,
            field_18: self.field_18,
            field_1C: self.field_1C,
            size: self.size,
            typ: self.typ,
            filename: self.filename@,
            find_dataa: self.find_dataa@,
        }
    }
}

/// The directory entry that a record of `ENTRY_BYTES` bytes holds.
pub open spec fn entry_of(s: Seq<u8>) -> ResultEntryView {
    ResultEntryView {
        low_date_time: le_i32(s, 0x00) as i32,
        file_time: file_time_at(s, 0x04),
        high_date_time: le_i32(s, 0x0C) as i32,
        field_10: le_i32(s, 0x10) as i32,
        field_14: le_i32(s, 0x14) as i32,
        field_18: le_i32(s, 0x18) as i32,
        field_1C: le_i32(s, 0x1C) as i32,
        size: le_i32(s, 0x20) as i32,
        typ: signed8(s[0x24] as int) as i8,
        filename: s.subrange(0x25, 0x7E),
        find_dataa: find_data_at(s, 0x80),
    }
}

impl ResultEntry {
    /// Decodes the record of a directory entry.
    ///
    /// A record of any length but `ENTRY_BYTES` is reported as truncated.
    pub fn decode(image: &[u8]) -> (r: Result<ResultEntry, Error>)
        ensures
            match r {
                Ok(e) => image@.len() == ENTRY_BYTES && e@ == entry_of(image@),
                Err(e) => image@.len() != ENTRY_BYTES && e == Error::Truncated,
            },
    {
        if image.len() != ENTRY_BYTES {
            return Err(Error::Truncated);
        }
        Ok(
            ResultEntry {
                low_date_time: read_i32(image, 0x00),
                file_time: read_file_time(image, 0x04),
                high_date_time: read_i32(image, 0x0C),
                field_10: read_i32(image, 0x10),
                field_14: read_i32(image, 0x14),
                field_18: read_i32(image, 0x18),
                field_1C: read_i32(image, 0x1C),
                size: read_i32(image, 0x20),
                typ: read_i8(image, 0x24),
                filename: read_bytes(image, 0x25, ENTRY_NAME_BYTES),
                find_dataa: read_find_data(image, ENTRY_FIND_DATA_AT),
            },
        )
    }

    /// The name of the entry: the text in front of the first zero byte of its name
    /// buffer.
    ///
    /// A buffer without a zero byte is reported as truncated, a name that is no
    /// UTF-8 as an encoding error.
    pub fn filename(&self) -> (r: Result<String, Error>)
        ensures
            spells(r, spelled(before_nul(self@.filename))),
    {
        text_until_nul(self.filename.as_slice())
    }

    /// The name buffer of the entry as the foreign side filled it in, all
    /// `ENTRY_NAME_BYTES` of it.
    pub fn filename_bytes(&self) -> (r: &[u8])
        ensures
            r@ == self@.filename,
    {
        self.filename.as_slice()
    }

    /// What the entry is. A type tag that names neither a directory nor a file is
    /// an invalid entry.
    pub fn typ(&self) -> (r: Result<Entry, Error>)
        ensures
            r == Entry::spec_from_tag(self@.typ),
    {
        Entry::try_from(self.typ)
    }

    /// The size of the entry in bytes, as reported.
    pub fn size(&self) -> (r: i32)
        ensures
            r == self@.size,
    {
        self.size
    }

    /// The timestamp of the entry.
    pub fn file_time(&self) -> (r: FileTime)
        ensures
            r == self@.file_time,
    {
        self.file_time
    }

    /// The embedded platform find-data record.
    pub fn find_dataa(&self) -> (r: &FindData)
        ensures
            r@ == self@.find_dataa,
    {
        &self.find_dataa
    }
}

} // verus!
