use gfxfilemanager::call::answered;
use gfxfilemanager::operations::{DIR_NAME_BYTES, DIR_NAME_LIMIT, VIRTUAL_PATH_BYTES};
use gfxfilemanager::{Access, Call, Error, GFXFileManager, Mode, Op};

fn manager() -> GFXFileManager {
    GFXFileManager::new(Mode::CW, true).unwrap()
}

fn z(text: &str) -> Vec<u8> {
    let mut bytes = text.as_bytes().to_vec();
    bytes.push(0);
    bytes
}

#[test]
fn a_yes_is_anything_but_zero() {
    assert!(!answered(0));
    assert!(answered(1));
    assert!(answered(-1));
    assert!(answered(i32::MIN));
    assert!(answered(i32::MAX));
}

#[test]
fn container_calls() {
    let fm = manager();
    assert_eq!(
        fm.create_container("archive.pk2", "pw"),
        Ok(Call::CreateContainer { filename: z("archive.pk2"), password: z("pw") })
    );
    assert_eq!(
        fm.open_container("archive.pk2", "", 3),
        Ok(Call::OpenContainer { filename: z("archive.pk2"), password: z(""), mode: 3 })
    );
    assert_eq!(fm.close_container(), Call::CloseContainer);
    assert_eq!(fm.is_open(), Call::IsOpen);
    assert_eq!(fm.mode(), Call::Mode);
    assert_eq!(fm.get_version(), Call::GetVersion);
    assert_eq!(fm.check_version(0x1007), Call::CheckVersion { version: 0x1007 });
    assert_eq!(fm.lock(2), Call::Lock { i1: 2 });
    assert_eq!(fm.unlock(), Call::Unlock);
    assert_eq!(fm.config_set(1, -2), Call::ConfigSet { i1: 1, i2: -2 });
    assert_eq!(fm.config_get(3, 4), Call::ConfigGet { i1: 3, i2: 4 });
}

#[test]
fn container_calls_reject_a_zero_byte_in_either_string() {
    let fm = manager();
    assert_eq!(fm.create_container("a\0", "pw"), Err(Error::Encoding));
    assert_eq!(fm.create_container("a", "p\0w"), Err(Error::Encoding));
    assert_eq!(fm.create_container("\0", "\0"), Err(Error::Encoding));
    assert_eq!(fm.open_container("a\0", "pw", 0), Err(Error::Encoding));
    assert_eq!(fm.open_container("a", "\0pw", 0), Err(Error::Encoding));
}

#[test]
fn file_calls() {
    let fm = manager();
    assert_eq!(
        fm.open_file("a/b.txt", Access::OpenExisting, 0),
        Ok(Call::OpenFile { filename: z("a/b.txt"), access: 0, unknown: 0 })
    );
    assert_eq!(
        fm.open_file("a", Access::ShareRead, 7),
        Ok(Call::OpenFile { filename: z("a"), access: i32::MIN, unknown: 7 })
    );
    assert_eq!(
        fm.open_file("a", Access::CreateAlways, -1),
        Ok(Call::OpenFile { filename: z("a"), access: 0x4000_0000, unknown: -1 })
    );
    assert_eq!(
        fm.open_file_cj("a", Access::CreateAlways, 1),
        Ok(Call::OpenFileCj { filename: z("a"), access: 0x4000_0000, unknown: 1 })
    );
    assert_eq!(
        fm.create_file("a/b.txt", 0),
        Ok(Call::CreateFile { filename: z("a/b.txt"), unknown: 0 })
    );
    assert_eq!(
        fm.create_file_cj("c", 5),
        Ok(Call::CreateFileCj { filename: z("c"), unknown: 5 })
    );
    assert_eq!(fm.delete_file("old"), Ok(Call::DeleteFile { filename: z("old") }));
    assert_eq!(fm.file_exists("x", 9), Ok(Call::FileExists { name: z("x"), flags: 9 }));
    assert_eq!(fm.open_file("a\0b", Access::OpenExisting, 0), Err(Error::Encoding));
    assert_eq!(fm.open_file_cj("a\0b", Access::OpenExisting, 0), Err(Error::Encoding));
    assert_eq!(fm.create_file("\0", 0), Err(Error::Encoding));
    assert_eq!(fm.create_file_cj("\0", 0), Err(Error::Encoding));
    assert_eq!(fm.delete_file("a\0"), Err(Error::Encoding));
    assert_eq!(fm.file_exists("a\0", 0), Err(Error::Encoding));
}

#[test]
fn directory_calls() {
    let fm = manager();
    assert_eq!(fm.create_directory("d"), Ok(Call::CreateDir { name: z("d") }));
    assert_eq!(fm.delete_directory("d"), Ok(Call::DeleteDir { name: z("d") }));
    assert_eq!(fm.change_directory("d/e"), Ok(Call::ChangeDir { name: z("d/e") }));
    assert_eq!(fm.reset_directory(), Call::ResetDir);
    assert_eq!(fm.update_current_directory(), Call::UpdateCurrentDir);
    assert_eq!(DIR_NAME_LIMIT, 200);
    assert_eq!(DIR_NAME_BYTES, 255);
    assert_eq!(fm.get_directory_name(DIR_NAME_LIMIT), Call::GetDirName { limit: 200 });
    assert_eq!(fm.get_directory_name(0), Call::GetDirName { limit: 0 });
    assert_eq!(fm.set_virtual_path("v"), Ok(Call::SetVirtualPath { path: z("v") }));
    assert_eq!(VIRTUAL_PATH_BYTES, 255);
    assert_eq!(fm.get_virtual_path(), Call::GetVirtualPath { capacity: 255 });
    assert_eq!(fm.create_directory("d\0"), Err(Error::Encoding));
    assert_eq!(fm.delete_directory("\0d"), Err(Error::Encoding));
    assert_eq!(fm.change_directory("d\0e"), Err(Error::Encoding));
    assert_eq!(fm.set_virtual_path("\0"), Err(Error::Encoding));
}

#[test]
fn directory_name_reply_takes_the_reported_length() {
    let mut buffer = vec![0xCCu8; DIR_NAME_BYTES];
    buffer[..5].copy_from_slice(b"Media");
    let reply = GFXFileManager::get_directory_name_reply;
    assert_eq!(reply(200, 5, &buffer), Ok("Media".to_string()));
    assert_eq!(reply(200, 3, &buffer), Ok("Med".to_string()));
    assert_eq!(reply(200, 0, &buffer), Ok(String::new()));
    assert_eq!(reply(5, 5, &buffer), Ok("Media".to_string()));
    assert_eq!(reply(0, 0, &buffer), Ok(String::new()));
    assert_eq!(reply(200, 6, &buffer), Err(Error::Encoding));
}

#[test]
fn directory_name_reply_past_the_limit_or_the_buffer_is_truncated() {
    let buffer = vec![b'n'; DIR_NAME_BYTES];
    let reply = GFXFileManager::get_directory_name_reply;
    assert_eq!(reply(200, 200, &buffer), Ok("n".repeat(200)));
    assert_eq!(reply(200, 201, &buffer), Err(Error::Truncated));
    assert_eq!(reply(200, 250, &buffer), Err(Error::Truncated));
    assert_eq!(reply(200, 255, &buffer), Err(Error::Truncated));
    assert_eq!(reply(200, 256, &buffer), Err(Error::Truncated));
    assert_eq!(reply(4, 5, &buffer), Err(Error::Truncated));
    assert_eq!(reply(0, 1, &buffer), Err(Error::Truncated));
    assert_eq!(reply(200, -1, &buffer), Err(Error::Truncated));
    assert_eq!(reply(200, i32::MIN, &buffer), Err(Error::Truncated));
    assert_eq!(reply(usize::MAX, 255, &buffer), Ok("n".repeat(255)));
    assert_eq!(reply(usize::MAX, 256, &buffer), Err(Error::Truncated));
    assert_eq!(reply(200, 5, &buffer[..4]), Err(Error::Truncated));
}

#[test]
fn a_text_call_fits_a_buffer_with_room() {
    let limit = Call::GetDirName { limit: 200 };
    assert!(limit.fits(255));
    assert!(limit.fits(201));
    assert!(!limit.fits(200));
    assert!(!limit.fits(0));
    assert!(!Call::GetDirName { limit: usize::MAX }.fits(usize::MAX));
    assert!(Call::GetDirName { limit: 0 }.fits(1));
    assert!(!Call::GetDirName { limit: 0 }.fits(0));

    let path = Call::GetVirtualPath { capacity: 255 };
    assert!(path.fits(255));
    assert!(path.fits(256));
    assert!(!path.fits(254));

    let name = Call::FileNameFromHandle { handle: 3, capacity: 512 };
    assert!(name.fits(512));
    assert!(!name.fits(511));

    let fm = manager();
    assert!(fm.get_directory_name(DIR_NAME_LIMIT).fits(DIR_NAME_BYTES));
    assert!(fm.get_virtual_path().fits(VIRTUAL_PATH_BYTES));
}

#[test]
fn a_call_without_text_fits_no_buffer() {
    assert!(!Call::Mode.fits(1024));
    assert!(!Call::IsOpen.fits(usize::MAX));
    assert!(!Call::Read { handle: 1, bytes_to_read: 4 }.fits(4));
    assert!(!Call::CloseFile { handle: 1 }.fits(0));
}

#[test]
fn virtual_path_reply_stops_at_the_first_zero_byte() {
    let mut buffer = vec![0xCCu8; VIRTUAL_PATH_BYTES];
    buffer[..4].copy_from_slice(b"a/b\0");
    assert_eq!(GFXFileManager::get_virtual_path_reply(&buffer), Ok("a/b".to_string()));
    buffer[3] = b'c';
    assert_eq!(GFXFileManager::get_virtual_path_reply(&buffer), Err(Error::Truncated));
    buffer[0] = 0;
    assert_eq!(GFXFileManager::get_virtual_path_reply(&buffer), Ok(String::new()));
}

#[test]
fn bulk_calls_marshal_three_paths_and_a_flag() {
    let fm = manager();
    assert_eq!(
        fm.import_directory("C:/src", "dst", "dir", true),
        Ok(Call::ImportDir {
            srcdir: z("C:/src"),
            dstdir: z("dst"),
            dir_name: z("dir"),
            create_target_dir: true,
        })
    );
    assert_eq!(
        fm.import_file("s", "d", "f.txt", false),
        Ok(Call::ImportFile {
            srcdir: z("s"),
            dstdir: z("d"),
            filename: z("f.txt"),
            create_target_dir: false,
        })
    );
    assert_eq!(
        fm.export_directory("s", "d", "n", false),
        Ok(Call::ExportDir {
            srcdir: z("s"),
            dstdir: z("d"),
            dir_name: z("n"),
            create_target_dir: false,
        })
    );
    assert_eq!(
        fm.export_file("", "", "", true),
        Ok(Call::ExportFile {
            srcdir: z(""),
            dstdir: z(""),
            filename: z(""),
            create_target_dir: true,
        })
    );
}

#[test]
fn bulk_calls_reject_a_zero_byte_in_any_path() {
    let fm = manager();
    assert_eq!(fm.import_directory("\0", "d", "n", true), Err(Error::Encoding));
    assert_eq!(fm.import_directory("s", "\0", "n", true), Err(Error::Encoding));
    assert_eq!(fm.import_directory("s", "d", "\0", true), Err(Error::Encoding));
    assert_eq!(fm.import_file("s", "d\0", "n", true), Err(Error::Encoding));
    assert_eq!(fm.export_directory("s\0", "d", "n", true), Err(Error::Encoding));
    assert_eq!(fm.export_file("s", "d", "n\0", true), Err(Error::Encoding));
}

#[test]
fn search_and_enumeration_calls() {
    let fm = manager();
    assert_eq!(fm.find_first_file("*.txt"), Ok(Call::FindFirstFile { pattern: z("*.txt") }));
    assert_eq!(fm.find_first_file("*\0"), Err(Error::Encoding));
    assert_eq!(
        fm.for_each_entry_in_container("*"),
        Ok(Call::ForEachEntryInContainer { filter: z("*") })
    );
    assert_eq!(fm.for_each_entry_in_container("\0"), Err(Error::Encoding));
}

#[test]
fn pass_through_calls() {
    let fm = manager();
    assert_eq!(fm.function_9(9), Call::Function9 { i1: 9 });
    assert_eq!(fm.function_12(), Call::Function12);
    assert_eq!(fm.function_13(), Call::Function13);
    assert_eq!(fm.function_50(-50), Call::Function50 { i1: -50 });
    assert_eq!(fm.get_unknown(), Call::GetUnknown);
    assert_eq!(fm.set_unknown(1, 2), Call::SetUnknown { a: 1, b: 2 });
    assert_eq!(fm.main_module_handle(), Call::MainModuleHandle);
    assert_eq!(fm.cmd_line_path(), Call::CmdLinePath);
    assert_eq!(fm.cmd_line_exe(), Call::CmdLineExe);
    assert_eq!(fm.get_hwnd(), Call::GetHwnd);
    assert_eq!(fm.set_hwnd(0xDEAD), Call::SetHwnd { hwnd: 0xDEAD });
    assert_eq!(fm.register_error_handler(), Call::RegisterErrorHandler);
    assert_eq!(fm.disable_err_msg_box(), Call::RegisterErrorHandler);
    assert_eq!(fm.show_dialog(), Call::ShowDialog);
}

#[test]
fn each_call_goes_to_its_slot() {
    let fm = manager();
    let slot = |call: Call| call.op().map(|op| op.slot());
    assert_eq!(slot(fm.mode()), Some(0));
    assert_eq!(slot(fm.config_set(0, 0)), Some(1));
    assert_eq!(slot(fm.config_get(0, 0)), Some(2));
    assert_eq!(slot(fm.create_container("a", "b").unwrap()), Some(3));
    assert_eq!(slot(fm.open_container("a", "b", 0).unwrap()), Some(4));
    assert_eq!(slot(fm.close_container()), Some(5));
    assert_eq!(slot(fm.is_open()), Some(6));
    assert_eq!(slot(Call::CloseAllFiles), Some(7));
    assert_eq!(slot(fm.main_module_handle()), Some(8));
    assert_eq!(slot(fm.function_9(0)), Some(9));
    assert_eq!(slot(fm.open_file_cj("a", Access::OpenExisting, 0).unwrap()), Some(10));
    assert_eq!(slot(fm.open_file("a", Access::OpenExisting, 0).unwrap()), Some(11));
    assert_eq!(slot(fm.function_12()), Some(12));
    assert_eq!(slot(fm.function_13()), Some(13));
    assert_eq!(slot(fm.create_file_cj("a", 0).unwrap()), Some(14));
    assert_eq!(slot(fm.create_file("a", 0).unwrap()), Some(15));
    assert_eq!(slot(fm.delete_file("a").unwrap()), Some(16));
    assert_eq!(slot(Call::CloseFile { handle: 0 }), Some(17));
    assert_eq!(slot(Call::Read { handle: 0, bytes_to_read: 0 }), Some(18));
    assert_eq!(slot(Call::Write { handle: 0, bytes_to_write: 0 }), Some(19));
    assert_eq!(slot(fm.cmd_line_path()), Some(20));
    assert_eq!(slot(fm.cmd_line_exe()), Some(21));
    assert_eq!(slot(fm.get_unknown()), Some(22));
    assert_eq!(slot(fm.set_unknown(0, 0)), Some(23));
    assert_eq!(slot(fm.create_directory("a").unwrap()), Some(24));
    assert_eq!(slot(fm.delete_directory("a").unwrap()), Some(25));
    assert_eq!(slot(fm.reset_directory()), Some(26));
    assert_eq!(slot(fm.change_directory("a").unwrap()), Some(27));
    assert_eq!(slot(fm.get_directory_name(200)), Some(28));
    assert_eq!(slot(fm.set_virtual_path("a").unwrap()), Some(29));
    assert_eq!(slot(fm.get_virtual_path()), Some(30));
    assert_eq!(slot(fm.find_first_file("a").unwrap()), Some(31));
    assert_eq!(slot(Call::FindNextFile { session: 0 }), Some(32));
    assert_eq!(slot(Call::CloseSearchResult { session: 0 }), Some(33));
    assert_eq!(slot(Call::FileNameFromHandle { handle: 0, capacity: 512 }), Some(34));
    assert_eq!(slot(Call::GetFileSize { handle: 0 }), Some(35));
    assert_eq!(slot(Call::GetFileTime { handle: 0 }), Some(36));
    assert_eq!(
        slot(Call::SetFileTime { handle: 0, creation_time: None, last_write_time: None }),
        Some(37)
    );
    assert_eq!(slot(Call::Seek { handle: 0, distance_to_move: 0, move_method: 0 }), Some(38));
    assert_eq!(slot(fm.get_hwnd()), Some(39));
    assert_eq!(slot(fm.set_hwnd(0)), Some(40));
    assert_eq!(slot(fm.register_error_handler()), Some(41));
    assert_eq!(slot(fm.import_directory("a", "b", "c", false).unwrap()), Some(42));
    assert_eq!(slot(fm.import_file("a", "b", "c", false).unwrap()), Some(43));
    assert_eq!(slot(fm.export_directory("a", "b", "c", false).unwrap()), Some(44));
    assert_eq!(slot(fm.export_file("a", "b", "c", false).unwrap()), Some(45));
    assert_eq!(slot(fm.file_exists("a", 0).unwrap()), Some(46));
    assert_eq!(slot(fm.show_dialog()), Some(47));
    assert_eq!(slot(fm.for_each_entry_in_container("a").unwrap()), Some(48));
    assert_eq!(slot(fm.update_current_directory()), Some(49));
    assert_eq!(slot(fm.function_50(0)), Some(50));
    assert_eq!(slot(fm.get_version()), Some(51));
    assert_eq!(slot(fm.check_version(0)), Some(52));
    assert_eq!(slot(fm.lock(0)), Some(53));
    assert_eq!(slot(fm.unlock()), Some(54));
}

#[test]
fn the_exports_have_no_slot() {
    assert_eq!(Call::CreateObject { mode: 1, version: 0x1007 }.op(), None);
    assert_eq!(Call::ReleaseObject.op(), None);
    assert_eq!(Call::QueryInfo { index: 0 }.op(), None);
    assert_eq!(Call::Mode.op(), Some(Op::Mode));
}
