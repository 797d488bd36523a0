//! An open file of a container, and the byte-stream contract over it.

use vstd::prelude::*;
use crate::call::Call;
use crate::error::Error;
use crate::file_manager::{GFXFileManager, ManagerView};
use crate::layout::{signed32, to_signed};
use crate::registry::{without, without_len};
use crate::result_entry::{file_time_at, read_file_time, FileTime};
use crate::text::{before_nul, spelled, spells, text_until_nul};

verus! {

/// The size in bytes of the buffer that the name of a file is read into.
pub const FILE_NAME_BYTES: usize = 512;

/// The size in bytes of the record of one timestamp.
pub const FILE_TIME_BYTES: usize = 8;

/// The handle of a file inside a container.
///
/// The handle is an integer that only the container it came from can read. Every
/// operation on a file therefore takes the container along, and leads to a call
/// only while the books of the container hold the handle. A file is closed by
/// `close`, once; after that, no operation on it leads to a call.
#[derive(Debug)]
pub struct File {
    handle: i32,
    open: bool,
}

/// A file handle as plain values.
pub struct FileView {
    /// The integer that the foreign side knows the file by.
    pub handle: i32,
    /// Whether the file has not been closed through this handle.
    pub open: bool,
}

impl View for File {
    type V = FileView;

    closed spec fn view(&self) -> FileView {
        FileView { handle: self.handle, open: self.open }
    }
}

/// Where a seek starts from, and how far it goes.
#[derive(Clone, Copy, Debug, PartialEq, Eq)]
pub enum SeekFrom {
    /// So many bytes from the start of the file.
    Start(u64),
    /// So many bytes from the current position.
    Current(i64),
    /// So many bytes from the end of the file.
    End(i64),
}

/// The low 32 bits of `x`, read as a signed integer.
pub open spec fn wrap32(x: int) -> int {
    signed32(x % 0x1_0000_0000)
}

/// The size that an answer of the foreign side stands for: the answer itself from
/// zero up, and an I/O error below.
pub open spec fn size(raw: i32) -> Result<u64, Error> {
    if raw < 0 {
        Err(Error::Io)
    } else {
        Ok(raw as u64)
    }
}

/// The two times of a file, from the answer of the foreign side and the two
/// records: a failure where the answer is a no, truncation where a record has not
/// the length of a timestamp, and else the time in each record.
pub open spec fn file_times(
    answer: bool,
    creation_time: Seq<u8>,
    last_write_time: Seq<u8>,
) -> Result<(FileTime, FileTime), Error> {
    if !answer {
        Err(Error::Failed)
    } else if creation_time.len() != FILE_TIME_BYTES || last_write_time.len() != FILE_TIME_BYTES {
        Err(Error::Truncated)
    } else {
        Ok((file_time_at(creation_time, 0), file_time_at(last_write_time, 0)))
    }
}

/// The move-method code of a seek: `0` from the start, `1` from the current
/// position, `2` from the end.
pub open spec fn move_method(pos: SeekFrom) -> u32 {
    match pos {
        SeekFrom::Start(_) => 0,
        SeekFrom::Current(_) => 1,
        SeekFrom::End(_) => 2,
    }
}

/// The distance of a seek as the foreign side takes it: the low 32 bits of the
/// offset.
pub open spec fn distance(pos: SeekFrom) -> int {
    match pos {
        SeekFrom::Start(u) => wrap32(u as int),
        SeekFrom::Current(i) => wrap32(i as int),
        SeekFrom::End(i) => wrap32(i as int),
    }
}

/// What a read or a write comes to: the count of bytes moved, or an I/O error
/// where the status is negative or the count exceeds the `len` bytes offered.
pub open spec fn transfer(len: usize, status: i32, count: u32) -> Result<usize, Error> {
    if status < 0 || count > len {
        Err(Error::Io)
    } else {
        Ok(count as usize)
    }
}

/// Whether a file may be worked on: it was not closed through its handle, and the
/// books `m` of the container hold the handle.
pub open spec fn live(file: FileView, m: ManagerView) -> bool {
    file.open && m.files.contains(file.handle)
}

/// The call that an operation on a file leads to: `call` for a file that is live,
/// and an I/O error for one that is not.
pub open spec fn asked(file: FileView, m: ManagerView, call: Call) -> Result<Call, Error> {
    if live(file, m) {
        Ok(call)
    } else {
        Err(Error::Io)
    }
}

/// The call that closing `file` leads to: the close of its handle, where the file
/// is live; else none.
pub open spec fn close_call(file: FileView, m: ManagerView) -> Option<Call> {
    if live(file, m) {
        Some(Call::CloseFile { handle: file.handle })
    } else {
        None
    }
}

/// A file handle after its close.
pub open spec fn closed(file: FileView) -> FileView {
    FileView { handle: file.handle, open: false }
}

/// The books `m` after the close of `file`: where the file was not closed before,
/// the first entry of its handle is struck.
pub open spec fn after_close(file: FileView, m: ManagerView) -> ManagerView {
    if file.open {
        ManagerView { files: without(m.files, file.handle), ..m }
    } else {
        m
    }
}

/// Closing a file a second time leads to no call and changes nothing: whatever
/// the books hold, a handle that was closed stays closed and the books stay as the
/// first close left them.
pub proof fn close_again_is_idle(file: FileView, m: ManagerView)
    ensures
        close_call(closed(file), after_close(file, m)) is None,
        closed(closed(file)) == closed(file),
        after_close(closed(file), after_close(file, m)) == after_close(file, m),
{
}

/// A file that was opened and not closed since is live, and its close leads to
/// the close of its handle: whatever was in the books `m` when the foreign side
/// answered `raw` to the open, the file that the answer stands for is closed by
/// exactly one call.
pub proof fn opened_file_is_closed_once(m: ManagerView, raw: i32)
    ensures
        ({
            let file = FileView { handle: raw, open: true };
            let after_open = ManagerView { files: m.files.push(raw), ..m };
            &&& live(file, after_open)
            &&& close_call(file, after_open) == Some(Call::CloseFile { handle: raw })
            &&& after_close(file, after_open).files.len() == m.files.len()
            &&& close_call(closed(file), after_close(file, after_open)) is None
        }),
{
    let after_open = ManagerView { files: m.files.push(raw), ..m };
    assert(after_open.files[m.files.len() as int] == raw);
    without_len(after_open.files, raw);
}

/// The low 32 bits of an unsigned integer, read as signed.
pub fn low_bits(x: u64) -> (r: i32)
    ensures
        r == wrap32(x as int),
{
    to_signed((x % 0x1_0000_0000) as u32)
}

/// The low 32 bits of a signed integer, read as signed.
pub fn low_bits_signed(x: i64) -> (r: i32)
    ensures
        r == wrap32(x as int),
{
    if x >= 0 {
        low_bits(x as u64)
    } else {
        let below: u64 = (-(x + 1)) as u64;
        let low: u64 = 0xFFFF_FFFF - below % 0x1_0000_0000;
        assert(low == (x as int) % 0x1_0000_0000);
        to_signed(low as u32)
    }
}

impl File {
    /// Takes up a file that the container `file_manager` has open under
    /// `handle`, and enters it in the books of the container.
    pub fn new(file_manager: &mut GFXFileManager, handle: i32) -> (f: File)
        ensures
            f@ == (FileView { handle, open: true }),
            final(file_manager)@ == (ManagerView {
                files: old(file_manager)@.files.push(handle),
                ..old(file_manager)@
            }),
    {
        file_manager.track_file(handle);
        File { handle, open: true }
    }

    /// The integer that the foreign side knows the file by.
    pub fn handle(&self) -> (h: i32)
        ensures
            h == self@.handle,
    {
        self.handle
    }

    /// Whether the file has not been closed through this handle.
    pub fn is_open(&self) -> (b: bool)
        ensures
            b == self@.open,
    {
        self.open
    }

    /// The call that an operation on this file leads to.
    fn ask(&self, file_manager: &GFXFileManager, call: Call) -> (r: Result<Call, Error>)
        ensures
            r == asked(self@, file_manager@, call),
    {
        if self.open && file_manager.holds_file(self.handle) {
            Ok(call)
        } else {
            Err(Error::Io)
        }
    }

    /// Closes the file, once.
    ///
    /// The first close of a file that the books of `file_manager` hold gives the
    /// call that closes it on the foreign side, and strikes it from the books.
    /// Any other close gives no call and changes nothing but to mark this handle
    /// closed.
    pub fn close(&mut self, file_manager: &mut GFXFileManager) -> (r: Option<Call>)
        ensures
            r == close_call(old(self)@, old(file_manager)@),
            final(self)@ == closed(old(self)@),
            final(file_manager)@ == after_close(old(self)@, old(file_manager)@),
    {
        let was_open = self.open;
        self.open = false;
        if was_open && file_manager.untrack_file(self.handle) {
            Some(Call::CloseFile { handle: self.handle })
        } else {
            None
        }
    }

    /// The call that asks for the size of the file.
    pub fn len(&self, file_manager: &GFXFileManager) -> (r: Result<Call, Error>)
        ensures
            r == asked(self@, file_manager@, Call::GetFileSize { handle: self@.handle }),
    {
        self.ask(file_manager, Call::GetFileSize { handle: self.handle })
    }

    /// The size of the file, from what the foreign side answered. A negative
    /// answer is no size: it is an I/O error.
    pub fn len_reply(raw: i32) -> (r: Result<u64, Error>)
        ensures
            r == size(raw),
    {
        if raw < 0 {
            Err(Error::Io)
        } else {
            Ok(raw as u64)
        }
    }

    /// The call that asks whether the file is empty: the call for its size.
    pub fn is_empty(&self, file_manager: &GFXFileManager) -> (r: Result<Call, Error>)
        ensures
            r == asked(self@, file_manager@, Call::GetFileSize { handle: self@.handle }),
    {
        self.len(file_manager)
    }

    /// Whether the file is empty, from what the foreign side answered for its
    /// size. A negative answer is an I/O error.
    pub fn is_empty_reply(raw: i32) -> (r: Result<bool, Error>)
        ensures
            r == match size(raw) {
                Ok(n) => Ok::<bool, Error>(n == 0),
                Err(e) => Err::<bool, Error>(e),
            },
    {
        match Self::len_reply(raw) {
            Ok(n) => Ok(n == 0),
            Err(e) => Err(e),
        }
    }

    /// The call that asks for the creation time and the last write time of the
    /// file.
    pub fn file_time(&self, file_manager: &GFXFileManager) -> (r: Result<Call, Error>)
        ensures
            r == asked(self@, file_manager@, Call::GetFileTime { handle: self@.handle }),
    {
        self.ask(file_manager, Call::GetFileTime { handle: self.handle })
    }

    /// The creation time and the last write time of the file, from what the
    /// foreign side answered and the two records that it was given to fill in.
    ///
    /// Where the answer is a no, nothing was written and the operation has
    /// failed. Where it is a yes, a record of any length but `FILE_TIME_BYTES` is
    /// reported as truncated.
    pub fn file_time_reply(
        answer: bool,
        creation_time: &[u8],
        last_write_time: &[u8],
    ) -> (r: Result<(FileTime, FileTime), Error>)
        ensures
            r == file_times(answer, creation_time@, last_write_time@),
    {
        if !answer {
            Err(Error::Failed)
        } else if creation_time.len() != FILE_TIME_BYTES || last_write_time.len()
            != FILE_TIME_BYTES {
            Err(Error::Truncated)
        } else {
            Ok((read_file_time(creation_time, 0), read_file_time(last_write_time, 0)))
        }
    }

    /// The call that sets the creation time and the last write time of the file.
    /// A time that is `None` is passed as no record.
    pub fn set_file_time(
        &self,
        file_manager: &GFXFileManager,
        creation_time: Option<FileTime>,
        last_write_time: Option<FileTime>,
    ) -> (r: Result<Call, Error>)
        ensures
            r == asked(
                self@,
                file_manager@,
                Call::SetFileTime { handle: self@.handle, creation_time, last_write_time },
            ),
    {
        self.ask(
            file_manager,
            Call::SetFileTime { handle: self.handle, creation_time, last_write_time },
        )
    }

    /// The call that reads the name of the file into a buffer of
    /// `FILE_NAME_BYTES` bytes.
    pub fn name(&self, file_manager: &GFXFileManager) -> (r: Result<Call, Error>)
        ensures
            r == asked(
                self@,
                file_manager@,
                Call::FileNameFromHandle { handle: self@.handle, capacity: FILE_NAME_BYTES },
            ),
    {
        self.ask(
            file_manager,
            Call::FileNameFromHandle { handle: self.handle, capacity: FILE_NAME_BYTES },
        )
    }

    /// The name of the file, from the buffer that the foreign side filled in: the
    /// text in front of its first zero byte.
    pub fn name_reply(buffer: &[u8]) -> (r: Result<String, Error>)
        ensures
            spells(r, spelled(before_nul(buffer@))),
    {
        text_until_nul(buffer)
    }

    /// The call that reads into a buffer of `len` bytes. The count that is asked
    /// for is the low 32 bits of `len`.
    pub fn read(&self, file_manager: &GFXFileManager, len: usize) -> (r: Result<Call, Error>)
        ensures
            r == asked(
                self@,
                file_manager@,
                Call::Read { handle: self@.handle, bytes_to_read: wrap32(len as int) as i32 },
            ),
    {
        self.ask(
            file_manager,
            Call::Read { handle: self.handle, bytes_to_read: low_bits(len as u64) },
        )
    }

    /// How many bytes a read into a buffer of `len` bytes has brought, from the
    /// status and the count that the foreign side answered.
    ///
    /// A count below `len` is no end of the stream; a count of zero for a buffer
    /// that is not empty is.
    pub fn read_reply(len: usize, status: i32, bytes_read: u32) -> (r: Result<usize, Error>)
        ensures
            r == transfer(len, status, bytes_read),
    {
        if status < 0 || bytes_read as u64 > len as u64 {
            Err(Error::Io)
        } else {
            Ok(bytes_read as usize)
        }
    }

    /// The call that writes a buffer of `len` bytes. The count that is offered is
    /// the low 32 bits of `len`.
    pub fn write(&self, file_manager: &GFXFileManager, len: usize) -> (r: Result<Call, Error>)
        ensures
            r == asked(
                self@,
                file_manager@,
                Call::Write { handle: self@.handle, bytes_to_write: wrap32(len as int) as i32 },
            ),
    {
        self.ask(
            file_manager,
            Call::Write { handle: self.handle, bytes_to_write: low_bits(len as u64) },
        )
    }

    /// How many bytes of a buffer of `len` bytes a write has taken, from the
    /// status and the count that the foreign side answered.
    pub fn write_reply(len: usize, status: i32, bytes_written: u32) -> (r: Result<usize, Error>)
        ensures
            r == transfer(len, status, bytes_written),
    {
        if status < 0 || bytes_written as u64 > len as u64 {
            Err(Error::Io)
        } else {
            Ok(bytes_written as usize)
        }
    }

    /// Flushes the file. The foreign side offers no such operation: nothing is
    /// called, and nothing fails.
    pub fn flush(&self) -> (r: Result<(), Error>)
        ensures
            r is Ok,
    {
        Ok(())
    }

    /// The call that moves the position of the file.
    pub fn seek(&self, file_manager: &GFXFileManager, pos: SeekFrom) -> (r: Result<Call, Error>)
        ensures
            r == asked(
                self@,
                file_manager@,
                Call::Seek {
                    handle: self@.handle,
                    distance_to_move: distance(pos) as i32,
                    move_method: move_method(pos),
                },
            ),
    {
        let (method, distance): (u32, i32) = match pos {
            SeekFrom::Start(u) => (0, low_bits(u)),
            SeekFrom::Current(i) => (1, low_bits_signed(i)),
            SeekFrom::End(i) => (2, low_bits_signed(i)),
        };
        self.ask(
            file_manager,
            Call::Seek { handle: self.handle, distance_to_move: distance, move_method: method },
        )
    }

    /// The new position of the file, from what the foreign side answered to a
    /// seek. A negative answer is an I/O error.
    pub fn seek_reply(raw: i32) -> (r: Result<u64, Error>)
        ensures
            r == if raw < 0 {
                Err::<u64, Error>(Error::Io)
            } else {
                Ok::<u64, Error>(raw as u64)
            },
    {
        if raw < 0 {
            Err(Error::Io)
        } else {
            Ok(raw as u64)
        }
    }
}

} // verus!
