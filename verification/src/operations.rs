//! The operations of a container, each as the call that asks for it.
//!
//! An operation that takes a string gives no call for one that holds a zero byte:
//! such a string is rejected as an encoding error before anything crosses the
//! boundary. Integers whose meaning is not known are passed as they are.

use vstd::prelude::*;
use crate::call::Call;
use crate::error::Error;
use crate::file_manager::{GFXFileManager, ManagerView};
use crate::gfxfile::{File, FileView};
use crate::structures::Access;
use crate::text::{
    before_nul, c_string, counted_within, sendable, spelled, spells, text_of_len, text_until_nul,
    wire,
};

verus! {

/// The length that is customarily asked for when the name of the current directory
/// is read.
pub const DIR_NAME_LIMIT: usize = 200;

/// The size in bytes of the buffer that the name of the current directory is
/// customarily read into.
pub const DIR_NAME_BYTES: usize = 255;

/// The size in bytes of the buffer that the virtual path is read into.
pub const VIRTUAL_PATH_BYTES: usize = 255;

impl GFXFileManager {
    /// The call that registers an error handler which answers every error itself, so
    /// that the foreign side shows no message box. The handler is the embedding's.
    pub fn disable_err_msg_box(&self) -> (c: Call)
        ensures
            c == Call::RegisterErrorHandler,
    {
        Call::RegisterErrorHandler
    }

    /// The call that asks for the mode of the container.
    pub fn mode(&self) -> (c: Call)
        ensures
            c == Call::Mode,
    {
        Call::Mode
    }

    /// The call that sets a configuration value. What the two integers mean is not
    /// known; they are passed as they are.
    pub fn config_set(&self, i1: i32, i2: i32) -> (c: Call)
        ensures
            c == (Call::ConfigSet { i1, i2 }),
    {
        Call::ConfigSet { i1, i2 }
    }

    /// The call that gets a configuration value. What the two integers mean is not
    /// known; they are passed as they are.
    pub fn config_get(&self, i1: i32, i2: i32) -> (c: Call)
        ensures
            c == (Call::ConfigGet { i1, i2 }),
    {
        Call::ConfigGet { i1, i2 }
    }

    /// The call that creates a new container and leaves it open.
    pub fn create_container(&self, filename: &str, password: &str) -> (r: Result<Call, Error>)
        ensures
            match r {
                Ok(c) => {
                    &&& sendable(filename)
                    &&& sendable(password)
                    &&& c matches Call::CreateContainer {
                        filename: out_filename,
                        password: out_password,
                    }
                    &&& out_filename@ == wire(filename)
                    &&& out_password@ == wire(password)
                },
                Err(e) => e == Error::Encoding && !(sendable(filename) && sendable(password)),
            },
    {
        let filename = match c_string(filename) {
            Ok(bytes) => bytes,
            Err(e) => {
                return Err(e);
            },
        };
        let password = match c_string(password) {
            Ok(bytes) => bytes,
            Err(e) => {
                return Err(e);
            },
        };
        Ok(Call::CreateContainer { filename, password })
    }

    /// The call that opens an existing container. What `mode` means is not known;
    /// it is passed as it is.
    pub fn open_container(
        &self,
        filename: &str,
        password: &str,
        mode: i32,
    ) -> (r: Result<Call, Error>)
        ensures
            match r {
                Ok(c) => {
                    &&& sendable(filename)
                    &&& sendable(password)
                    &&& c matches Call::OpenContainer {
                        filename: out_filename,
                        password: out_password,
                        mode: out_mode,
                    }
                    &&& out_filename@ == wire(filename)
                    &&& out_password@ == wire(password)
                    &&& out_mode == mode
                },
                Err(e) => e == Error::Encoding && !(sendable(filename) && sendable(password)),
            },
    {
        let filename = match c_string(filename) {
            Ok(bytes) => bytes,
            Err(e) => {
                return Err(e);
            },
        };
        let password = match c_string(password) {
            Ok(bytes) => bytes,
            Err(e) => {
                return Err(e);
            },
        };
        Ok(Call::OpenContainer { filename, password, mode })
    }

    /// The call that closes the container.
    pub fn close_container(&self) -> (c: Call)
        ensures
            c == Call::CloseContainer,
    {
        Call::CloseContainer
    }

    /// The call that asks whether a container is open.
    pub fn is_open(&self) -> (c: Call)
        ensures
            c == Call::IsOpen,
    {
        Call::IsOpen
    }

    /// The call that asks for the handle of the main module.
    pub fn main_module_handle(&self) -> (c: Call)
        ensures
            c == Call::MainModuleHandle,
    {
        Call::MainModuleHandle
    }

    /// The call to the operation in slot 9, whose meaning is not known.
    pub fn function_9(&self, i1: i32) -> (c: Call)
        ensures
            c == (Call::Function9 { i1 }),
    {
        Call::Function9 { i1 }
    }

    /// The call that opens a file of the container. What `unknown` means is not
    /// known; it is passed as it is.
    pub fn open_file(
        &self,
        filename: &str,
        access: Access,
        unknown: i32,
    ) -> (r: Result<Call, Error>)
        ensures
            match r {
                Ok(c) => {
                    &&& sendable(filename)
                    &&& c matches Call::OpenFile {
                        filename: out_filename,
                        access: out_access,
                        unknown: out_unknown,
                    }
                    &&& out_filename@ == wire(filename)
                    &&& out_access == access.spec_word()
                    &&& out_unknown == unknown
                },
                Err(e) => e == Error::Encoding && !sendable(filename),
            },
    {
        let filename = match c_string(filename) {
            Ok(bytes) => bytes,
            Err(e) => {
                return Err(e);
            },
        };
        Ok(Call::OpenFile { filename, access: access.word(), unknown })
    }

    /// The call that opens a file of the container through an archive object of
    /// the embedding.
    pub fn open_file_cj(
        &self,
        filename: &str,
        access: Access,
        unknown: i32,
    ) -> (r: Result<Call, Error>)
        ensures
            match r {
                Ok(c) => {
                    &&& sendable(filename)
                    &&& c matches Call::OpenFileCj {
                        filename: out_filename,
                        access: out_access,
                        unknown: out_unknown,
                    }
                    &&& out_filename@ == wire(filename)
                    &&& out_access == access.spec_word()
                    &&& out_unknown == unknown
                },
                Err(e) => e == Error::Encoding && !sendable(filename),
            },
    {
        let filename = match c_string(filename) {
            Ok(bytes) => bytes,
            Err(e) => {
                return Err(e);
            },
        };
        Ok(Call::OpenFileCj { filename, access: access.word(), unknown })
    }

    /// The call to the operation in slot 12, whose meaning is not known.
    pub fn function_12(&self) -> (c: Call)
        ensures
            c == Call::Function12,
    {
        Call::Function12
    }

    /// The call to the operation in slot 13, whose meaning is not known.
    pub fn function_13(&self) -> (c: Call)
        ensures
            c == Call::Function13,
    {
        Call::Function13
    }

    /// The call that creates a file in the container. What `unknown` means is not
    /// known; it is passed as it is.
    pub fn create_file(&self, filename: &str, unknown: i32) -> (r: Result<Call, Error>)
        ensures
            match r {
                Ok(c) => {
                    &&& sendable(filename)
                    &&& c matches Call::CreateFile { filename: out_filename, unknown: out_unknown }
                    &&& out_filename@ == wire(filename)
                    &&& out_unknown == unknown
                },
                Err(e) => e == Error::Encoding && !sendable(filename),
            },
    {
        let filename = match c_string(filename) {
            Ok(bytes) => bytes,
            Err(e) => {
                return Err(e);
            },
        };
        Ok(Call::CreateFile { filename, unknown })
    }

    /// The call that creates a file in the container through an archive object of
    /// the embedding.
    pub fn create_file_cj(&self, filename: &str, unknown: i32) -> (r: Result<Call, Error>)
        ensures
            match r {
                Ok(c) => {
                    &&& sendable(filename)
                    &&& c matches Call::CreateFileCj {
                        filename: out_filename,
                        unknown: out_unknown,
                    }
                    &&& out_filename@ == wire(filename)
                    &&& out_unknown == unknown
                },
                Err(e) => e == Error::Encoding && !sendable(filename),
            },
    {
        let filename = match c_string(filename) {
            Ok(bytes) => bytes,
            Err(e) => {
                return Err(e);
            },
        };
        Ok(Call::CreateFileCj { filename, unknown })
    }

    /// The call that deletes a file by its name, whether or not it is open.
    pub fn delete_file(&self, filename: &str) -> (r: Result<Call, Error>)
        ensures
            match r {
                Ok(c) => {
                    &&& sendable(filename)
                    &&& c matches Call::DeleteFile { filename: out_filename }
                    &&& out_filename@ == wire(filename)
                },
                Err(e) => e == Error::Encoding && !sendable(filename),
            },
    {
        let filename = match c_string(filename) {
            Ok(bytes) => bytes,
            Err(e) => {
                return Err(e);
            },
        };
        Ok(Call::DeleteFile { filename })
    }

    /// The call that asks for the path of the command line.
    pub fn cmd_line_path(&self) -> (c: Call)
        ensures
            c == Call::CmdLinePath,
    {
        Call::CmdLinePath
    }

    /// The call that asks for the executable of the command line.
    pub fn cmd_line_exe(&self) -> (c: Call)
        ensures
            c == Call::CmdLineExe,
    {
        Call::CmdLineExe
    }

    /// The call that fills in a pair of integers whose meaning is not known.
    pub fn get_unknown(&self) -> (c: Call)
        ensures
            c == Call::GetUnknown,
    {
        Call::GetUnknown
    }

    /// The call that hands back a pair of integers whose meaning is not known.
    pub fn set_unknown(&self, a: i32, b: i32) -> (c: Call)
        ensures
            c == (Call::SetUnknown { a, b }),
    {
        Call::SetUnknown { a, b }
    }

    /// The call that creates a directory in the container.
    pub fn create_directory(&self, name: &str) -> (r: Result<Call, Error>)
        ensures
            match r {
                Ok(c) => {
                    &&& sendable(name)
                    &&& c matches Call::CreateDir { name: out_name }
                    &&& out_name@ == wire(name)
                },
                Err(e) => e == Error::Encoding && !sendable(name),
            },
    {
        let name = match c_string(name) {
            Ok(bytes) => bytes,
            Err(e) => {
                return Err(e);
            },
        };
        Ok(Call::CreateDir { name })
    }

    /// The call that deletes a directory of the container.
    pub fn delete_directory(&self, name: &str) -> (r: Result<Call, Error>)
        ensures
            match r {
                Ok(c) => {
                    &&& sendable(name)
                    &&& c matches Call::DeleteDir { name: out_name }
                    &&& out_name@ == wire(name)
                },
                Err(e) => e == Error::Encoding && !sendable(name),
            },
    {
        let name = match c_string(name) {
            Ok(bytes) => bytes,
            Err(e) => {
                return Err(e);
            },
        };
        Ok(Call::DeleteDir { name })
    }

    /// The call that makes the root the current directory.
    pub fn reset_directory(&self) -> (c: Call)
        ensures
            c == Call::ResetDir,
    {
        Call::ResetDir
    }

    /// The call that changes the current directory.
    pub fn change_directory(&self, name: &str) -> (r: Result<Call, Error>)
        ensures
            match r {
                Ok(c) => {
                    &&& sendable(name)
                    &&& c matches Call::ChangeDir { name: out_name }
                    &&& out_name@ == wire(name)
                },
                Err(e) => e == Error::Encoding && !sendable(name),
            },
    {
        let name = match c_string(name) {
            Ok(bytes) => bytes,
            Err(e) => {
                return Err(e);
            },
        };
        Ok(Call::ChangeDir { name })
    }

    /// The call that reads the name of the current directory, of at most `max_len`
    /// bytes, into a buffer of the embedding.
    pub fn get_directory_name(&self, max_len: usize) -> (c: Call)
        ensures
            c == (Call::GetDirName { limit: max_len }),
    {
        Call::GetDirName { limit: max_len }
    }

    /// The call that sets the virtual path.
    pub fn set_virtual_path(&self, path: &str) -> (r: Result<Call, Error>)
        ensures
            match r {
                Ok(c) => {
                    &&& sendable(path)
                    &&& c matches Call::SetVirtualPath { path: out_path }
                    &&& out_path@ == wire(path)
                },
                Err(e) => e == Error::Encoding && !sendable(path),
            },
    {
        let path = match c_string(path) {
            Ok(bytes) => bytes,
            Err(e) => {
                return Err(e);
            },
        };
        Ok(Call::SetVirtualPath { path })
    }

    /// The call that asks for the window handle.
    pub fn get_hwnd(&self) -> (c: Call)
        ensures
            c == Call::GetHwnd,
    {
        Call::GetHwnd
    }

    /// The call that sets the window handle, an address that is passed as it is.
    pub fn set_hwnd(&self, hwnd: usize) -> (c: Call)
        ensures
            c == (Call::SetHwnd { hwnd }),
    {
        Call::SetHwnd { hwnd }
    }

    /// The call that registers an error handler of the embedding.
    pub fn register_error_handler(&self) -> (c: Call)
        ensures
            c == Call::RegisterErrorHandler,
    {
        Call::RegisterErrorHandler
    }

    /// The call that copies a directory tree into the container. The copy is the
    /// foreign side's work; here the paths and the flag are marshalled.
    pub fn import_directory(
        &self,
        srcdir: &str,
        dstdir: &str,
        dir_name: &str,
        create_target_dir: bool,
    ) -> (r: Result<Call, Error>)
        ensures
            match r {
                Ok(c) => {
                    &&& sendable(srcdir)
                    &&& sendable(dstdir)
                    &&& sendable(dir_name)
                    &&& c matches Call::ImportDir {
                        srcdir: out_srcdir,
                        dstdir: out_dstdir,
                        dir_name: out_dir_name,
                        create_target_dir: out_create_target_dir,
                    }
                    &&& out_srcdir@ == wire(srcdir)
                    &&& out_dstdir@ == wire(dstdir)
                    &&& out_dir_name@ == wire(dir_name)
                    &&& out_create_target_dir == create_target_dir
                },
                Err(e) => e == Error::Encoding
                    && !(sendable(srcdir) && sendable(dstdir) && sendable(dir_name)),
            },
    {
        let srcdir = match c_string(srcdir) {
            Ok(bytes) => bytes,
            Err(e) => {
                return Err(e);
            },
        };
        let dstdir = match c_string(dstdir) {
            Ok(bytes) => bytes,
            Err(e) => {
                return Err(e);
            },
        };
        let dir_name = match c_string(dir_name) {
            Ok(bytes) => bytes,
            Err(e) => {
                return Err(e);
            },
        };
        Ok(Call::ImportDir { srcdir, dstdir, dir_name, create_target_dir })
    }

    /// The call that copies a file into the container.
    pub fn import_file(
        &self,
        srcdir: &str,
        dstdir: &str,
        filename: &str,
        create_target_dir: bool,
    ) -> (r: Result<Call, Error>)
        ensures
            match r {
                Ok(c) => {
                    &&& sendable(srcdir)
                    &&& sendable(dstdir)
                    &&& sendable(filename)
                    &&& c matches Call::ImportFile {
                        srcdir: out_srcdir,
                        dstdir: out_dstdir,
                        filename: out_filename,
                        create_target_dir: out_create_target_dir,
                    }
                    &&& out_srcdir@ == wire(srcdir)
                    &&& out_dstdir@ == wire(dstdir)
                    &&& out_filename@ == wire(filename)
                    &&& out_create_target_dir == create_target_dir
                },
                Err(e) => e == Error::Encoding
                    && !(sendable(srcdir) && sendable(dstdir) && sendable(filename)),
            },
    {
        let srcdir = match c_string(srcdir) {
            Ok(bytes) => bytes,
            Err(e) => {
                return Err(e);
            },
        };
        let dstdir = match c_string(dstdir) {
            Ok(bytes) => bytes,
            Err(e) => {
                return Err(e);
            },
        };
        let filename = match c_string(filename) {
            Ok(bytes) => bytes,
            Err(e) => {
                return Err(e);
            },
        };
        Ok(Call::ImportFile { srcdir, dstdir, filename, create_target_dir })
    }

    /// The call that copies a directory tree out of the container.
    pub fn export_directory(
        &self,
        srcdir: &str,
        dstdir: &str,
        dir_name: &str,
        create_target_dir: bool,
    ) -> (r: Result<Call, Error>)
        ensures
            match r {
                Ok(c) => {
                    &&& sendable(srcdir)
                    &&& sendable(dstdir)
                    &&& sendable(dir_name)
                    &&& c matches Call::ExportDir {
                        srcdir: out_srcdir,
                        dstdir: out_dstdir,
                        dir_name: out_dir_name,
                        create_target_dir: out_create_target_dir,
                    }
                    &&& out_srcdir@ == wire(srcdir)
                    &&& out_dstdir@ == wire(dstdir)
                    &&& out_dir_name@ == wire(dir_name)
                    &&& out_create_target_dir == create_target_dir
                },
                Err(e) => e == Error::Encoding
                    && !(sendable(srcdir) && sendable(dstdir) && sendable(dir_name)),
            },
    {
        let srcdir = match c_string(srcdir) {
            Ok(bytes) => bytes,
            Err(e) => {
                return Err(e);
            },
        };
        let dstdir = match c_string(dstdir) {
            Ok(bytes) => bytes,
            Err(e) => {
                return Err(e);
            },
        };
        let dir_name = match c_string(dir_name) {
            Ok(bytes) => bytes,
            Err(e) => {
                return Err(e);
            },
        };
        Ok(Call::ExportDir { srcdir, dstdir, dir_name, create_target_dir })
    }

    /// The call that copies a file out of the container.
    pub fn export_file(
        &self,
        srcdir: &str,
        dstdir: &str,
        filename: &str,
        create_target_dir: bool,
    ) -> (r: Result<Call, Error>)
        ensures
            match r {
                Ok(c) => {
                    &&& sendable(srcdir)
                    &&& sendable(dstdir)
                    &&& sendable(filename)
                    &&& c matches Call::ExportFile {
                        srcdir: out_srcdir,
                        dstdir: out_dstdir,
                        filename: out_filename,
                        create_target_dir: out_create_target_dir,
                    }
                    &&& out_srcdir@ == wire(srcdir)
                    &&& out_dstdir@ == wire(dstdir)
                    &&& out_filename@ == wire(filename)
                    &&& out_create_target_dir == create_target_dir
                },
                Err(e) => e == Error::Encoding
                    && !(sendable(srcdir) && sendable(dstdir) && sendable(filename)),
            },
    {
        let srcdir = match c_string(srcdir) {
            Ok(bytes) => bytes,
            Err(e) => {
                return Err(e);
            },
        };
        let dstdir = match c_string(dstdir) {
            Ok(bytes) => bytes,
            Err(e) => {
                return Err(e);
            },
        };
        let filename = match c_string(filename) {
            Ok(bytes) => bytes,
            Err(e) => {
                return Err(e);
            },
        };
        Ok(Call::ExportFile { srcdir, dstdir, filename, create_target_dir })
    }

    /// The call that asks whether a file exists. What `flags` means is not known;
    /// it is passed as it is.
    pub fn file_exists(&self, name: &str, flags: i32) -> (r: Result<Call, Error>)
        ensures
            match r {
                Ok(c) => {
                    &&& sendable(name)
                    &&& c matches Call::FileExists { name: out_name, flags: out_flags }
                    &&& out_name@ == wire(name)
                    &&& out_flags == flags
                },
                Err(e) => e == Error::Encoding && !sendable(name),
            },
    {
        let name = match c_string(name) {
            Ok(bytes) => bytes,
            Err(e) => {
                return Err(e);
            },
        };
        Ok(Call::FileExists { name, flags })
    }

    /// The call that shows the dialog of the foreign side, on a record of the
    /// embedding.
    pub fn show_dialog(&self) -> (c: Call)
        ensures
            c == Call::ShowDialog,
    {
        Call::ShowDialog
    }

    /// The call that visits every entry of the container that matches `filter`.
    ///
    /// The foreign side calls back once for each entry, on the calling thread and
    /// before the call returns. Whether it bears an operation on the same container
    /// from inside the callback is not known: the callback must make none.
    pub fn for_each_entry_in_container(&self, filter: &str) -> (r: Result<Call, Error>)
        ensures
            match r {
                Ok(c) => {
                    &&& sendable(filter)
                    &&& c matches Call::ForEachEntryInContainer { filter: out_filter }
                    &&& out_filter@ == wire(filter)
                },
                Err(e) => e == Error::Encoding && !sendable(filter),
            },
    {
        let filter = match c_string(filter) {
            Ok(bytes) => bytes,
            Err(e) => {
                return Err(e);
            },
        };
        Ok(Call::ForEachEntryInContainer { filter })
    }

    /// The call that refreshes the current directory.
    pub fn update_current_directory(&self) -> (c: Call)
        ensures
            c == Call::UpdateCurrentDir,
    {
        Call::UpdateCurrentDir
    }

    /// The call to the operation in slot 50, whose meaning is not known.
    pub fn function_50(&self, i1: i32) -> (c: Call)
        ensures
            c == (Call::Function50 { i1 }),
    {
        Call::Function50 { i1 }
    }

    /// The call that asks for the interface version of the object.
    pub fn get_version(&self) -> (c: Call)
        ensures
            c == Call::GetVersion,
    {
        Call::GetVersion
    }

    /// The call that asks the object to check an interface version. The answer is
    /// the foreign side's; nothing is checked here.
    pub fn check_version(&self, version: i32) -> (c: Call)
        ensures
            c == (Call::CheckVersion { version }),
    {
        Call::CheckVersion { version }
    }

    /// The call that unlocks the container. What the lock covers is not known.
    pub fn unlock(&self) -> (c: Call)
        ensures
            c == Call::Unlock,
    {
        Call::Unlock
    }

    /// The call that locks the container. What the lock covers, and what `i1` means,
    /// is not known.
    pub fn lock(&self, i1: i32) -> (c: Call)
        ensures
            c == (Call::Lock { i1 }),
    {
        Call::Lock { i1 }
    }

    /// The call that reads the virtual path into a buffer of `VIRTUAL_PATH_BYTES`
    /// bytes.
    pub fn get_virtual_path(&self) -> (c: Call)
        ensures
            c == (Call::GetVirtualPath { capacity: VIRTUAL_PATH_BYTES }),
    {
        Call::GetVirtualPath { capacity: VIRTUAL_PATH_BYTES }
    }

    /// The file that an open has produced, from what the foreign side answered.
    ///
    /// The answer `-1` says that there is no such file: no handle is produced and
    /// the books stay as they are. Any other answer is the handle of the file,
    /// which is entered in the books.
    pub fn open_file_reply(&mut self, raw: i32) -> (r: Result<File, Error>)
        ensures
            match r {
                Ok(f) => {
                    &&& raw != -1
                    &&& f@ == (FileView { handle: raw, open: true })
                    &&& final(self)@ == (ManagerView {
                        files: old(self)@.files.push(raw),
                        ..old(self)@
                    })
                },
                Err(e) => raw == -1 && e == Error::NotFound && final(self)@ == old(self)@,
            },
    {
        if raw == -1 {
            Err(Error::NotFound)
        } else {
            Ok(File::new(self, raw))
        }
    }

    /// The file that a create has produced, from what the foreign side answered:
    /// the answer is the handle of the file, which is entered in the books.
    pub fn create_file_reply(&mut self, raw: i32) -> (f: File)
        ensures
            f@ == (FileView { handle: raw, open: true }),
            final(self)@ == (ManagerView { files: old(self)@.files.push(raw), ..old(self)@ }),
    {
        File::new(self, raw)
    }

    /// The name of the current directory, from the length that the foreign side
    /// answered and the buffer that it filled in: the first `len` bytes of the
    /// buffer.
    ///
    /// `max_len` is the limit that was asked for. A length that is negative, past
    /// the limit or past the buffer is reported as truncation.
    pub fn get_directory_name_reply(max_len: usize, len: i32, buffer: &[u8]) -> (r: Result<
        String,
        Error,
    >)
        ensures
            spells(r, spelled(counted_within(buffer@, len as int, max_len as int))),
    {
        if len >= 0 && len as usize > max_len {
            Err(Error::Truncated)
        } else {
            text_of_len(buffer, len)
        }
    }

    /// The virtual path, from the buffer that the foreign side filled in: the text
    /// in front of its first zero byte.
    pub fn get_virtual_path_reply(buffer: &[u8]) -> (r: Result<String, Error>)
        ensures
            spells(r, spelled(before_nul(buffer@))),
    {
        text_until_nul(buffer)
    }
}

} // verus!
