//! The fixed binary contract with the foreign container object: the order of its
//! operation table and the layout of the records that cross the boundary.
//!
//! The foreign side addresses its operations by position and its records by byte
//! offset. Neither can be checked at run time; a table or a layout that differs
//! from the one written here corrupts memory on the other side.

use vstd::prelude::*;

verus! {

/// The number of operations in the table of a container object.
pub const SLOT_COUNT: u8 = 55;

/// The operations of a container object, in the order of its table.
#[derive(Clone, Copy, Debug, PartialEq, Eq, Structural)]
pub enum Op {
    /// Asks for the mode of the container.
    Mode,
    /// Sets a configuration value; the meaning of the two integers is not known.
    ConfigSet,
    /// Gets a configuration value; the meaning of the two integers is not known.
    ConfigGet,
    /// Creates a container file and leaves it open.
    CreateContainer,
    /// Opens a container file.
    OpenContainer,
    /// Closes the container.
    CloseContainer,
    /// Asks whether a container is open.
    IsOpen,
    /// Closes every file of the container that is open.
    CloseAllFiles,
    /// Asks for the handle of the main module.
    MainModuleHandle,
    /// Not known.
    Function9,
    /// Opens a file through an archive object.
    OpenFileCj,
    /// Opens a file; answers its handle, or `-1` where there is none.
    OpenFile,
    /// Not known.
    Function12,
    /// Not known.
    Function13,
    /// Creates a file through an archive object.
    CreateFileCj,
    /// Creates a file; answers its handle.
    CreateFile,
    /// Deletes a file by its name.
    DeleteFile,
    /// Closes a file by its handle.
    CloseFile,
    /// Reads from a file into a buffer; answers a status and fills in a count.
    Read,
    /// Writes a buffer to a file; answers a status and fills in a count.
    Write,
    /// Asks for the path of the command line.
    CmdLinePath,
    /// Asks for the executable of the command line.
    CmdLineExe,
    /// Fills in a pair of integers whose meaning is not known.
    GetUnknown,
    /// Takes a pair of integers whose meaning is not known.
    SetUnknown,
    /// Creates a directory.
    CreateDir,
    /// Deletes a directory.
    DeleteDir,
    /// Makes the root the current directory.
    ResetDir,
    /// Changes the current directory.
    ChangeDir,
    /// Reads the name of the current directory into a buffer; answers its length.
    GetDirName,
    /// Sets the virtual path.
    SetVirtualPath,
    /// Reads the virtual path into a buffer, zero-terminated.
    GetVirtualPath,
    /// Begins a search in a session buffer and fills in the first entry.
    FindFirstFile,
    /// Advances a search and fills in the next entry; answers zero at the end.
    FindNextFile,
    /// Releases a search session.
    CloseSearchResult,
    /// Reads the name of an open file into a buffer, zero-terminated.
    FileNameFromHandle,
    /// Asks for the size of an open file.
    GetFileSize,
    /// Fills in the creation time and last write time of an open file.
    GetFileTime,
    /// Sets the creation time and last write time of an open file.
    SetFileTime,
    /// Moves the position of an open file; answers the new position.
    Seek,
    /// Asks for the window handle.
    GetHwnd,
    /// Sets the window handle.
    SetHwnd,
    /// Registers the function that is told of errors.
    RegisterErrorHandler,
    /// Copies a directory tree into the container.
    ImportDir,
    /// Copies a file into the container.
    ImportFile,
    /// Copies a directory tree out of the container.
    ExportDir,
    /// Copies a file out of the container.
    ExportFile,
    /// Asks whether a file exists.
    FileExists,
    /// Shows a dialog.
    ShowDialog,
    /// Visits every entry that matches a filter, calling back for each.
    ForEachEntryInContainer,
    /// Refreshes the current directory.
    UpdateCurrentDir,
    /// Not known.
    Function50,
    /// Asks for the interface version of the object.
    GetVersion,
    /// Asks the object to check an interface version.
    CheckVersion,
    /// Locks the container; what the lock covers is not known.
    Lock,
    /// Unlocks the container.
    Unlock,
}

impl Op {
    /// The position of this operation in the table, counted from zero.
    pub open spec fn spec_slot(self) -> u8 {
        match self {
            Op::Mode => 0,
            Op::ConfigSet => 1,
            Op::ConfigGet => 2,
            Op::CreateContainer => 3,
            Op::OpenContainer => 4,
            Op::CloseContainer => 5,
            Op::IsOpen => 6,
            Op::CloseAllFiles => 7,
            Op::MainModuleHandle => 8,
            Op::Function9 => 9,
            Op::OpenFileCj => 10,
            Op::OpenFile => 11,
            Op::Function12 => 12,
            Op::Function13 => 13,
            Op::CreateFileCj => 14,
            Op::CreateFile => 15,
            Op::DeleteFile => 16,
            Op::CloseFile => 17,
            Op::Read => 18,
            Op::Write => 19,
            Op::CmdLinePath => 20,
            Op::CmdLineExe => 21,
            Op::GetUnknown => 22,
            Op::SetUnknown => 23,
            Op::CreateDir => 24,
            Op::DeleteDir => 25,
            Op::ResetDir => 26,
            Op::ChangeDir => 27,
            Op::GetDirName => 28,
            Op::SetVirtualPath => 29,
            Op::GetVirtualPath => 30,
            Op::FindFirstFile => 31,
            Op::FindNextFile => 32,
            Op::CloseSearchResult => 33,
            Op::FileNameFromHandle => 34,
            Op::GetFileSize => 35,
            Op::GetFileTime => 36,
            Op::SetFileTime => 37,
            Op::Seek => 38,
            Op::GetHwnd => 39,
            Op::SetHwnd => 40,
            Op::RegisterErrorHandler => 41,
            Op::ImportDir => 42,
            Op::ImportFile => 43,
            Op::ExportDir => 44,
            Op::ExportFile => 45,
            Op::FileExists => 46,
            Op::ShowDialog => 47,
            Op::ForEachEntryInContainer => 48,
            Op::UpdateCurrentDir => 49,
            Op::Function50 => 50,
            Op::GetVersion => 51,
            Op::CheckVersion => 52,
            Op::Lock => 53,
            Op::Unlock => 54,
        }
    }

    /// The operation at a position of the table; `None` past its end.
    pub open spec fn spec_at(slot: u8) -> Option<Op> {
        if slot == 0 {
            Some(Op::Mode)
        } else if slot == 1 {
            Some(Op::ConfigSet)
        } else if slot == 2 {
            Some(Op::ConfigGet)
        } else if slot == 3 {
            Some(Op::CreateContainer)
        } else if slot == 4 {
            Some(Op::OpenContainer)
        } else if slot == 5 {
            Some(Op::CloseContainer)
        } else if slot == 6 {
            Some(Op::IsOpen)
        } else if slot == 7 {
            Some(Op::CloseAllFiles)
        } else if slot == 8 {
            Some(Op::MainModuleHandle)
        } else if slot == 9 {
            Some(Op::Function9)
        } else if slot == 10 {
            Some(Op::OpenFileCj)
        } else if slot == 11 {
            Some(Op::OpenFile)
        } else if slot == 12 {
            Some(Op::Function12)
        } else if slot == 13 {
            Some(Op::Function13)
        } else if slot == 14 {
            Some(Op::CreateFileCj)
        } else if slot == 15 {
            Some(Op::CreateFile)
        } else if slot == 16 {
            Some(Op::DeleteFile)
        } else if slot == 17 {
            Some(Op::CloseFile)
        } else if slot == 18 {
            Some(Op::Read)
        } else if slot == 19 {
            Some(Op::Write)
        } else if slot == 20 {
            Some(Op::CmdLinePath)
        } else if slot == 21 {
            Some(Op::CmdLineExe)
        } else if slot == 22 {
            Some(Op::GetUnknown)
        } else if slot == 23 {
            Some(Op::SetUnknown)
        } else if slot == 24 {
            Some(Op::CreateDir)
        } else if slot == 25 {
            Some(Op::DeleteDir)
        } else if slot == 26 {
            Some(Op::ResetDir)
        } else if slot == 27 {
            Some(Op::ChangeDir)
        } else if slot == 28 {
            Some(Op::GetDirName)
        } else if slot == 29 {
            Some(Op::SetVirtualPath)
        } else if slot == 30 {
            Some(Op::GetVirtualPath)
        } else if slot == 31 {
            Some(Op::FindFirstFile)
        } else if slot == 32 {
            Some(Op::FindNextFile)
        } else if slot == 33 {
            Some(Op::CloseSearchResult)
        } else if slot == 34 {
            Some(Op::FileNameFromHandle)
        } else if slot == 35 {
            Some(Op::GetFileSize)
        } else if slot == 36 {
            Some(Op::GetFileTime)
        } else if slot == 37 {
            Some(Op::SetFileTime)
        } else if slot == 38 {
            Some(Op::Seek)
        } else if slot == 39 {
            Some(Op::GetHwnd)
        } else if slot == 40 {
            Some(Op::SetHwnd)
        } else if slot == 41 {
            Some(Op::RegisterErrorHandler)
        } else if slot == 42 {
            Some(Op::ImportDir)
        } else if slot == 43 {
            Some(Op::ImportFile)
        } else if slot == 44 {
            Some(Op::ExportDir)
        } else if slot == 45 {
            Some(Op::ExportFile)
        } else if slot == 46 {
            Some(Op::FileExists)
        } else if slot == 47 {
            Some(Op::ShowDialog)
        } else if slot == 48 {
            Some(Op::ForEachEntryInContainer)
        } else if slot == 49 {
            Some(Op::UpdateCurrentDir)
        } else if slot == 50 {
            Some(Op::Function50)
        } else if slot == 51 {
            Some(Op::GetVersion)
        } else if slot == 52 {
            Some(Op::CheckVersion)
        } else if slot == 53 {
            Some(Op::Lock)
        } else if slot == 54 {
            Some(Op::Unlock)
        } else {
            None
        }
    }

    /// The position of this operation in the table, counted from zero.
    pub fn slot(self) -> (s: u8)
        ensures
            s == self.spec_slot(),
            s < SLOT_COUNT,
    {
        match self {
            Op::Mode => 0,
            Op::ConfigSet => 1,
            Op::ConfigGet => 2,
            Op::CreateContainer => 3,
            Op::OpenContainer => 4,
            Op::CloseContainer => 5,
            Op::IsOpen => 6,
            Op::CloseAllFiles => 7,
            Op::MainModuleHandle => 8,
            Op::Function9 => 9,
            Op::OpenFileCj => 10,
            Op::OpenFile => 11,
            Op::Function12 => 12,
            Op::Function13 => 13,
            Op::CreateFileCj => 14,
            Op::CreateFile => 15,
            Op::DeleteFile => 16,
            Op::CloseFile => 17,
            Op::Read => 18,
            Op::Write => 19,
            Op::CmdLinePath => 20,
            Op::CmdLineExe => 21,
            Op::GetUnknown => 22,
            Op::SetUnknown => 23,
            Op::CreateDir => 24,
            Op::DeleteDir => 25,
            Op::ResetDir => 26,
            Op::ChangeDir => 27,
            Op::GetDirName => 28,
            Op::SetVirtualPath => 29,
            Op::GetVirtualPath => 30,
            Op::FindFirstFile => 31,
            Op::FindNextFile => 32,
            Op::CloseSearchResult => 33,
            Op::FileNameFromHandle => 34,
            Op::GetFileSize => 35,
            Op::GetFileTime => 36,
            Op::SetFileTime => 37,
            Op::Seek => 38,
            Op::GetHwnd => 39,
            Op::SetHwnd => 40,
            Op::RegisterErrorHandler => 41,
            Op::ImportDir => 42,
            Op::ImportFile => 43,
            Op::ExportDir => 44,
            Op::ExportFile => 45,
            Op::FileExists => 46,
            Op::ShowDialog => 47,
            Op::ForEachEntryInContainer => 48,
            Op::UpdateCurrentDir => 49,
            Op::Function50 => 50,
            Op::GetVersion => 51,
            Op::CheckVersion => 52,
            Op::Lock => 53,
            Op::Unlock => 54,
        }
    }

    /// The operation at a position of the table; `None` past its end.
    pub fn at(slot: u8) -> (r: Option<Op>)
        ensures
            r == Self::spec_at(slot),
            r is Some <==> slot < SLOT_COUNT,
    {
        match slot {
            0 => Some(Op::Mode),
            1 => Some(Op::ConfigSet),
            2 => Some(Op::ConfigGet),
            3 => Some(Op::CreateContainer),
            4 => Some(Op::OpenContainer),
            5 => Some(Op::CloseContainer),
            6 => Some(Op::IsOpen),
            7 => Some(Op::CloseAllFiles),
            8 => Some(Op::MainModuleHandle),
            9 => Some(Op::Function9),
            10 => Some(Op::OpenFileCj),
            11 => Some(Op::OpenFile),
            12 => Some(Op::Function12),
            13 => Some(Op::Function13),
            14 => Some(Op::CreateFileCj),
            15 => Some(Op::CreateFile),
            16 => Some(Op::DeleteFile),
            17 => Some(Op::CloseFile),
            18 => Some(Op::Read),
            19 => Some(Op::Write),
            20 => Some(Op::CmdLinePath),
            21 => Some(Op::CmdLineExe),
            22 => Some(Op::GetUnknown),
            23 => Some(Op::SetUnknown),
            24 => Some(Op::CreateDir),
            25 => Some(Op::DeleteDir),
            26 => Some(Op::ResetDir),
            27 => Some(Op::ChangeDir),
            28 => Some(Op::GetDirName),
            29 => Some(Op::SetVirtualPath),
            30 => Some(Op::GetVirtualPath),
            31 => Some(Op::FindFirstFile),
            32 => Some(Op::FindNextFile),
            33 => Some(Op::CloseSearchResult),
            34 => Some(Op::FileNameFromHandle),
            35 => Some(Op::GetFileSize),
            36 => Some(Op::GetFileTime),
            37 => Some(Op::SetFileTime),
            38 => Some(Op::Seek),
            39 => Some(Op::GetHwnd),
            40 => Some(Op::SetHwnd),
            41 => Some(Op::RegisterErrorHandler),
            42 => Some(Op::ImportDir),
            43 => Some(Op::ImportFile),
            44 => Some(Op::ExportDir),
            45 => Some(Op::ExportFile),
            46 => Some(Op::FileExists),
            47 => Some(Op::ShowDialog),
            48 => Some(Op::ForEachEntryInContainer),
            49 => Some(Op::UpdateCurrentDir),
            50 => Some(Op::Function50),
            51 => Some(Op::GetVersion),
            52 => Some(Op::CheckVersion),
            53 => Some(Op::Lock),
            54 => Some(Op::Unlock),
            _ => None,
        }
    }
}

/// Each operation sits at a position inside the table, and the table read at that
/// position gives the operation back: no two operations share a slot.
pub proof fn slot_of_op(op: Op)
    ensures
        op.spec_slot() < SLOT_COUNT,
        Op::spec_at(op.spec_slot()) == Some(op),
{
}

/// Each position inside the table holds an operation, whose slot is that position:
/// the table has no gap.
pub proof fn op_of_slot(slot: u8)
    requires
        slot < SLOT_COUNT,
    ensures
        Op::spec_at(slot) is Some,
        Op::spec_at(slot)->0.spec_slot() == slot,
{
}

} // verus!
