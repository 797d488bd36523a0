//! The calls that this layer asks its embedding to make on the foreign side.
//!
//! A call holds the arguments as they cross the boundary: integers as they are,
//! strings as their bytes with the closing zero byte. Buffers and records that the
//! foreign side fills in are the embedding's to provide; a call names only their
//! size. So are the window handles, the callbacks and the dialog record of the
//! user-interface operations.

use vstd::prelude::*;
use crate::abi::Op;
use crate::result_entry::FileTime;

verus! {

/// One call across the boundary: one of the three exports of the foreign library,
/// or one operation of the table of a container object.
#[derive(Clone, Debug, PartialEq, Eq)]
pub enum Call {
    /// The factory export: create a container object for a mode and an interface version.
    CreateObject { mode: i32, version: i32 },
    /// The release export: give the container object back.
    ReleaseObject,
    /// The registry export: fill in the snapshot of one slot.
    QueryInfo { index: i32 },
    /// Asks for the mode of the container.
    Mode,
    /// Sets a configuration value; the meaning of the two integers is not known.
    ConfigSet { i1: i32, i2: i32 },
    /// Gets a configuration value; the meaning of the two integers is not known.
    ConfigGet { i1: i32, i2: i32 },
    /// Creates a container file and leaves it open.
    CreateContainer { filename: Vec<u8>, password: Vec<u8> },
    /// Opens a container file.
    OpenContainer { filename: Vec<u8>, password: Vec<u8>, mode: i32 },
    /// Closes the container.
    CloseContainer,
    /// Asks whether a container is open.
    IsOpen,
    /// Closes every file of the container that is open.
    CloseAllFiles,
    /// Asks for the handle of the main module.
    MainModuleHandle,
    /// Not known.
    Function9 { i1: i32 },
    /// Opens a file through an archive object.
    OpenFileCj { filename: Vec<u8>, access: i32, unknown: i32 },
    /// Opens a file; answers its handle, or `-1` where there is none.
    OpenFile { filename: Vec<u8>, access: i32, unknown: i32 },
    /// Not known.
    Function12,
    /// Not known.
    Function13,
    /// Creates a file through an archive object.
    CreateFileCj { filename: Vec<u8>, unknown: i32 },
    /// Creates a file; answers its handle.
    CreateFile { filename: Vec<u8>, unknown: i32 },
    /// Deletes a file by its name.
    DeleteFile { filename: Vec<u8> },
    /// Closes a file by its handle.
    CloseFile { handle: i32 },
    /// Reads from a file into a buffer; answers a status and fills in a count.
    Read { handle: i32, bytes_to_read: i32 },
    /// Writes a buffer to a file; answers a status and fills in a count.
    Write { handle: i32, bytes_to_write: i32 },
    /// Asks for the path of the command line.
    CmdLinePath,
    /// Asks for the executable of the command line.
    CmdLineExe,
    /// Fills in a pair of integers whose meaning is not known.
    GetUnknown,
    /// Takes a pair of integers whose meaning is not known.
    SetUnknown { a: i32, b: i32 },
    /// Creates a directory.
    CreateDir { name: Vec<u8> },
    /// Deletes a directory.
    DeleteDir { name: Vec<u8> },
    /// Makes the root the current directory.
    ResetDir,
    /// Changes the current directory.
    ChangeDir { name: Vec<u8> },
    /// Reads the name of the current directory into a buffer; answers its length.
    GetDirName { limit: usize },
    /// Sets the virtual path.
    SetVirtualPath { path: Vec<u8> },
    /// Reads the virtual path into a buffer, zero-terminated.
    GetVirtualPath { capacity: usize },
    /// Begins a search in a session buffer and fills in the first entry.
    FindFirstFile { pattern: Vec<u8> },
    /// Advances a search and fills in the next entry; answers zero at the end.
    FindNextFile { session: usize },
    /// Releases a search session.
    CloseSearchResult { session: usize },
    /// Reads the name of an open file into a buffer, zero-terminated.
    FileNameFromHandle { handle: i32, capacity: usize },
    /// Asks for the size of an open file.
    GetFileSize { handle: i32 },
    /// Fills in the creation time and last write time of an open file.
    GetFileTime { handle: i32 },
    /// Sets the creation time and last write time of an open file.
    SetFileTime { handle: i32, creation_time: Option<FileTime>, last_write_time: Option<FileTime> },
    /// Moves the position of an open file; answers the new position.
    Seek { handle: i32, distance_to_move: i32, move_method: u32 },
    /// Asks for the window handle.
    GetHwnd,
    /// Sets the window handle.
    SetHwnd { hwnd: usize },
    /// Registers the function that is told of errors.
    RegisterErrorHandler,
    /// Copies a directory tree into the container.
    ImportDir { srcdir: Vec<u8>, dstdir: Vec<u8>, dir_name: Vec<u8>, create_target_dir: bool },
    /// Copies a file into the container.
    ImportFile { srcdir: Vec<u8>, dstdir: Vec<u8>, filename: Vec<u8>, create_target_dir: bool },
    /// Copies a directory tree out of the container.
    ExportDir { srcdir: Vec<u8>, dstdir: Vec<u8>, dir_name: Vec<u8>, create_target_dir: bool },
    /// Copies a file out of the container.
    ExportFile { srcdir: Vec<u8>, dstdir: Vec<u8>, filename: Vec<u8>, create_target_dir: bool },
    /// Asks whether a file exists.
    FileExists { name: Vec<u8>, flags: i32 },
    /// Shows a dialog.
    ShowDialog,
    /// Visits every entry that matches a filter, calling back for each.
    ForEachEntryInContainer { filter: Vec<u8> },
    /// Refreshes the current directory.
    UpdateCurrentDir,
    /// Not known.
    Function50 { i1: i32 },
    /// Asks for the interface version of the object.
    GetVersion,
    /// Asks the object to check an interface version.
    CheckVersion { version: i32 },
    /// Locks the container; what the lock covers is not known.
    Lock { i1: i32 },
    /// Unlocks the container.
    Unlock,
}

impl Call {
    /// The operation of the table that this call goes to; `None` for the three
    /// exports, which are reached by name.
    pub open spec fn spec_op(&self) -> Option<Op> {
        match self {
            Call::CreateObject { .. } => None,
            Call::ReleaseObject => None,
            Call::QueryInfo { .. } => None,
            Call::Mode => Some(Op::Mode),
            Call::ConfigSet { .. } => Some(Op::ConfigSet),
            Call::ConfigGet { .. } => Some(Op::ConfigGet),
            Call::CreateContainer { .. } => Some(Op::CreateContainer),
            Call::OpenContainer { .. } => Some(Op::OpenContainer),
            Call::CloseContainer => Some(Op::CloseContainer),
            Call::IsOpen => Some(Op::IsOpen),
            Call::CloseAllFiles => Some(Op::CloseAllFiles),
            Call::MainModuleHandle => Some(Op::MainModuleHandle),
            Call::Function9 { .. } => Some(Op::Function9),
            Call::OpenFileCj { .. } => Some(Op::OpenFileCj),
            Call::OpenFile { .. } => Some(Op::OpenFile),
            Call::Function12 => Some(Op::Function12),
            Call::Function13 => Some(Op::Function13),
            Call::CreateFileCj { .. } => Some(Op::CreateFileCj),
            Call::CreateFile { .. } => Some(Op::CreateFile),
            Call::DeleteFile { .. } => Some(Op::DeleteFile),
            Call::CloseFile { .. } => Some(Op::CloseFile),
            Call::Read { .. } => Some(Op::Read),
            Call::Write { .. } => Some(Op::Write),
            Call::CmdLinePath => Some(Op::CmdLinePath),
            Call::CmdLineExe => Some(Op::CmdLineExe),
            Call::GetUnknown => Some(Op::GetUnknown),
            Call::SetUnknown { .. } => Some(Op::SetUnknown),
            Call::CreateDir { .. } => Some(Op::CreateDir),
            Call::DeleteDir { .. } => Some(Op::DeleteDir),
            Call::ResetDir => Some(Op::ResetDir),
            Call::ChangeDir { .. } => Some(Op::ChangeDir),
            Call::GetDirName { .. } => Some(Op::GetDirName),
            Call::SetVirtualPath { .. } => Some(Op::SetVirtualPath),
            Call::GetVirtualPath { .. } => Some(Op::GetVirtualPath),
            Call::FindFirstFile { .. } => Some(Op::FindFirstFile),
            Call::FindNextFile { .. } => Some(Op::FindNextFile),
            Call::CloseSearchResult { .. } => Some(Op::CloseSearchResult),
            Call::FileNameFromHandle { .. } => Some(Op::FileNameFromHandle),
            Call::GetFileSize { .. } => Some(Op::GetFileSize),
            Call::GetFileTime { .. } => Some(Op::GetFileTime),
            Call::SetFileTime { .. } => Some(Op::SetFileTime),
            Call::Seek { .. } => Some(Op::Seek),
            Call::GetHwnd => Some(Op::GetHwnd),
            Call::SetHwnd { .. } => Some(Op::SetHwnd),
            Call::RegisterErrorHandler => Some(Op::RegisterErrorHandler),
            Call::ImportDir { .. } => Some(Op::ImportDir),
            Call::ImportFile { .. } => Some(Op::ImportFile),
            Call::ExportDir { .. } => Some(Op::ExportDir),
            Call::ExportFile { .. } => Some(Op::ExportFile),
            Call::FileExists { .. } => Some(Op::FileExists),
            Call::ShowDialog => Some(Op::ShowDialog),
            Call::ForEachEntryInContainer { .. } => Some(Op::ForEachEntryInContainer),
            Call::UpdateCurrentDir => Some(Op::UpdateCurrentDir),
            Call::Function50 { .. } => Some(Op::Function50),
            Call::GetVersion => Some(Op::GetVersion),
            Call::CheckVersion { .. } => Some(Op::CheckVersion),
            Call::Lock { .. } => Some(Op::Lock),
            Call::Unlock => Some(Op::Unlock),
        }
    }

    /// The operation of the table that this call goes to; `None` for the three
    /// exports, which are reached by name.
    pub fn op(&self) -> (r: Option<Op>)
        ensures
            r == self.spec_op(),
    {
        match self {
            Call::CreateObject { .. } => None,
            Call::ReleaseObject => None,
            Call::QueryInfo { .. } => None,
            Call::Mode => Some(Op::Mode),
            Call::ConfigSet { .. } => Some(Op::ConfigSet),
            Call::ConfigGet { .. } => Some(Op::ConfigGet),
            Call::CreateContainer { .. } => Some(Op::CreateContainer),
            Call::OpenContainer { .. } => Some(Op::OpenContainer),
            Call::CloseContainer => Some(Op::CloseContainer),
            Call::IsOpen => Some(Op::IsOpen),
            Call::CloseAllFiles => Some(Op::CloseAllFiles),
            Call::MainModuleHandle => Some(Op::MainModuleHandle),
            Call::Function9 { .. } => Some(Op::Function9),
            Call::OpenFileCj { .. } => Some(Op::OpenFileCj),
            Call::OpenFile { .. } => Some(Op::OpenFile),
            Call::Function12 => Some(Op::Function12),
            Call::Function13 => Some(Op::Function13),
            Call::CreateFileCj { .. } => Some(Op::CreateFileCj),
            Call::CreateFile { .. } => Some(Op::CreateFile),
            Call::DeleteFile { .. } => Some(Op::DeleteFile),
            Call::CloseFile { .. } => Some(Op::CloseFile),
            Call::Read { .. } => Some(Op::Read),
            Call::Write { .. } => Some(Op::Write),
            Call::CmdLinePath => Some(Op::CmdLinePath),
            Call::CmdLineExe => Some(Op::CmdLineExe),
            Call::GetUnknown => Some(Op::GetUnknown),
            Call::SetUnknown { .. } => Some(Op::SetUnknown),
            Call::CreateDir { .. } => Some(Op::CreateDir),
            Call::DeleteDir { .. } => Some(Op::DeleteDir),
            Call::ResetDir => Some(Op::ResetDir),
            Call::ChangeDir { .. } => Some(Op::ChangeDir),
            Call::GetDirName { .. } => Some(Op::GetDirName),
            Call::SetVirtualPath { .. } => Some(Op::SetVirtualPath),
            Call::GetVirtualPath { .. } => Some(Op::GetVirtualPath),
            Call::FindFirstFile { .. } => Some(Op::FindFirstFile),
            Call::FindNextFile { .. } => Some(Op::FindNextFile),
            Call::CloseSearchResult { .. } => Some(Op::CloseSearchResult),
            Call::FileNameFromHandle { .. } => Some(Op::FileNameFromHandle),
            Call::GetFileSize { .. } => Some(Op::GetFileSize),
            Call::GetFileTime { .. } => Some(Op::GetFileTime),
            Call::SetFileTime { .. } => Some(Op::SetFileTime),
            Call::Seek { .. } => Some(Op::Seek),
            Call::GetHwnd => Some(Op::GetHwnd),
            Call::SetHwnd { .. } => Some(Op::SetHwnd),
            Call::RegisterErrorHandler => Some(Op::RegisterErrorHandler),
            Call::ImportDir { .. } => Some(Op::ImportDir),
            Call::ImportFile { .. } => Some(Op::ImportFile),
            Call::ExportDir { .. } => Some(Op::ExportDir),
            Call::ExportFile { .. } => Some(Op::ExportFile),
            Call::FileExists { .. } => Some(Op::FileExists),
            Call::ShowDialog => Some(Op::ShowDialog),
            Call::ForEachEntryInContainer { .. } => Some(Op::ForEachEntryInContainer),
            Call::UpdateCurrentDir => Some(Op::UpdateCurrentDir),
            Call::Function50 { .. } => Some(Op::Function50),
            Call::GetVersion => Some(Op::GetVersion),
            Call::CheckVersion { .. } => Some(Op::CheckVersion),
            Call::Lock { .. } => Some(Op::Lock),
            Call::Unlock => Some(Op::Unlock),
        }
    }

    /// Whether a buffer of `len` bytes has room for the text that this call fills
    /// in: the name of a directory of at most `limit` bytes and its closing zero
    /// byte, or as many bytes as the call names as the capacity. A call that fills
    /// in no text fits no buffer.
    pub open spec fn spec_fits(&self, len: usize) -> bool {
        match self {
            Call::GetDirName { limit } => *limit < len,
            Call::GetVirtualPath { capacity } => *capacity <= len,
            Call::FileNameFromHandle { capacity, .. } => *capacity <= len,
            _ => false,
        }
    }

    /// Whether a buffer of `len` bytes has room for the text that this call fills
    /// in. The call must not be made with a buffer that it does not fit.
    pub fn fits(&self, len: usize) -> (b: bool)
        ensures
            b == self.spec_fits(len),
    {
        match self {
            Call::GetDirName { limit } => *limit < len,
            Call::GetVirtualPath { capacity } => *capacity <= len,
            Call::FileNameFromHandle { capacity, .. } => *capacity <= len,
            _ => false,
        }
    }
}

/// What a foreign yes-or-no answer means: anything but zero is a yes.
pub open spec fn spec_answered(raw: i32) -> bool {
    raw != 0
}

/// Reads a foreign yes-or-no answer: anything but zero is a yes. A no carries no
/// detail, and none is made up for it.
pub fn answered(raw: i32) -> (r: bool)
    ensures
        r == spec_answered(raw),
{
    raw != 0
}

} // verus!
