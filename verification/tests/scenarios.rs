use gfxfilemanager::result_entry::ENTRY_BYTES;
use gfxfilemanager::search_result::SESSION_BYTES;
use gfxfilemanager::{
    Access, Call, Entry, Error, File, GFXFileManager, Mode, ResultEntry, SearchResult, SeekFrom,
};

/// What the store answers to one call.
#[derive(Debug, PartialEq)]
enum Answer {
    Status(i32),
    Transfer { status: i32, count: u32, data: Vec<u8> },
    Found { session: Vec<u8>, entry: Vec<u8> },
    Next { raw: i32, entry: Vec<u8> },
}

struct Stored {
    name: String,
    data: Vec<u8>,
}

struct Opened {
    file: usize,
    position: usize,
}

struct Search {
    matches: Vec<usize>,
    next: usize,
}

/// A container kept in memory that answers calls as the real one is expected to.
struct Store {
    open: bool,
    files: Vec<Stored>,
    handles: Vec<Option<Opened>>,
    pending: Option<Search>,
    searches: Vec<Option<Search>>,
    log: Vec<Call>,
    released: bool,
}

fn text(bytes: &[u8]) -> String {
    String::from_utf8(bytes[..bytes.len() - 1].to_vec()).unwrap()
}

fn matches(pattern: &str, name: &str) -> bool {
    match pattern.strip_prefix('*') {
        Some(suffix) => name.ends_with(suffix),
        None => pattern == name,
    }
}

impl Store {
    fn new() -> Store {
        Store {
            open: false,
            files: Vec::new(),
            handles: Vec::new(),
            pending: None,
            searches: Vec::new(),
            log: Vec::new(),
            released: false,
        }
    }

    fn with_files(names: &[&str]) -> Store {
        let mut store = Store::new();
        store.open = true;
        for name in names {
            store.files.push(Stored { name: name.to_string(), data: vec![0; name.len()] });
        }
        store
    }

    fn entry(&self, file: usize) -> Vec<u8> {
        let mut image = vec![0u8; ENTRY_BYTES];
        let stored = &self.files[file];
        image[0x20..0x24].copy_from_slice(&(stored.data.len() as i32).to_le_bytes());
        image[0x24] = 2;
        image[0x25..0x25 + stored.name.len()].copy_from_slice(stored.name.as_bytes());
        image
    }

    fn take_up(&mut self, handle: usize) -> i32 {
        self.handles.push(Some(Opened { file: handle, position: 0 }));
        (self.handles.len() - 1) as i32
    }

    fn bind(&mut self, slot: usize) {
        let search = self.pending.take();
        if self.searches.len() <= slot {
            self.searches.resize_with(slot + 1, || None);
        }
        self.searches[slot] = search;
    }

    fn perform(&mut self, call: &Call, buffer: &[u8]) -> Answer {
        assert!(!self.released);
        self.log.push(call.clone());
        match call {
            Call::CreateContainer { .. } | Call::OpenContainer { .. } => {
                self.open = true;
                Answer::Status(1)
            }
            Call::IsOpen => Answer::Status(self.open as i32),
            Call::CloseContainer => {
                assert!(self.handles.iter().all(|h| h.is_none()));
                assert!(self.searches.iter().all(|s| s.is_none()));
                self.open = false;
                Answer::Status(1)
            }
            Call::CloseAllFiles => {
                self.handles.iter_mut().for_each(|h| *h = None);
                Answer::Status(1)
            }
            Call::ReleaseObject => {
                assert!(!self.open);
                self.released = true;
                Answer::Status(0)
            }
            Call::OpenFile { filename, access, .. } => {
                let name = text(filename);
                match self.files.iter().position(|f| f.name == name) {
                    Some(i) => Answer::Status(self.take_up(i)),
                    None if *access == Access::CreateAlways.word() => {
                        self.files.push(Stored { name, data: Vec::new() });
                        Answer::Status(self.take_up(self.files.len() - 1))
                    }
                    None => Answer::Status(-1),
                }
            }
            Call::CreateFile { filename, .. } => {
                let name = text(filename);
                self.files.retain(|f| f.name != name);
                self.files.push(Stored { name, data: Vec::new() });
                Answer::Status(self.take_up(self.files.len() - 1))
            }
            Call::CloseFile { handle } => {
                let opened = self.handles[*handle as usize].take();
                assert!(opened.is_some(), "file closed twice");
                Answer::Status(1)
            }
            Call::Write { handle, bytes_to_write } => {
                let opened = self.handles[*handle as usize].as_mut().unwrap();
                let taken = &buffer[..*bytes_to_write as usize];
                let data = &mut self.files[opened.file].data;
                let end = opened.position + taken.len();
                if data.len() < end {
                    data.resize(end, 0);
                }
                data[opened.position..end].copy_from_slice(taken);
                opened.position = end;
                Answer::Transfer { status: 1, count: taken.len() as u32, data: Vec::new() }
            }
            Call::Read { handle, bytes_to_read } => {
                let opened = self.handles[*handle as usize].as_mut().unwrap();
                let data = &self.files[opened.file].data;
                let end = data.len().min(opened.position + *bytes_to_read as usize);
                let out = data[opened.position..end].to_vec();
                opened.position = end;
                Answer::Transfer { status: 1, count: out.len() as u32, data: out }
            }
            Call::Seek { handle, distance_to_move, move_method } => {
                let opened = self.handles[*handle as usize].as_mut().unwrap();
                let base = match move_method {
                    0 => 0,
                    1 => opened.position as i64,
                    2 => self.files[opened.file].data.len() as i64,
                    _ => return Answer::Status(-1),
                };
                let target = base + *distance_to_move as i64;
                if target < 0 {
                    return Answer::Status(-1);
                }
                opened.position = target as usize;
                Answer::Status(target as i32)
            }
            Call::GetFileSize { handle } => {
                let opened = self.handles[*handle as usize].as_ref().unwrap();
                Answer::Status(self.files[opened.file].data.len() as i32)
            }
            Call::FindFirstFile { pattern } => {
                let pattern = text(pattern);
                let found: Vec<usize> =
                    (0..self.files.len()).filter(
                        |i| matches(&pattern, &self.files[*i].name),
                    ).collect();
                let mut session = vec![0u8; SESSION_BYTES];
                let entry = match found.first() {
                    Some(first) => {
                        session[0] = 1;
                        self.entry(*first)
                    }
                    None => vec![0u8; ENTRY_BYTES],
                };
                self.pending = Some(Search { matches: found, next: 1 });
                Answer::Found { session, entry }
            }
            Call::FindNextFile { session } => {
                let search = self.searches[*session].as_mut().unwrap();
                match search.matches.get(search.next).copied() {
                    Some(file) => {
                        search.next += 1;
                        Answer::Next { raw: 1, entry: self.entry(file) }
                    }
                    None => Answer::Next { raw: 0, entry: vec![0u8; ENTRY_BYTES] },
                }
            }
            Call::CloseSearchResult { session } => {
                let search = self.searches[*session].take();
                assert!(search.is_some(), "session closed twice");
                Answer::Status(1)
            }
            other => panic!("the store does not answer {:?}", other),
        }
    }

    fn status(&mut self, call: &Call) -> i32 {
        match self.perform(call, &[]) {
            Answer::Status(raw) => raw,
            other => panic!("no status: {:?}", other),
        }
    }
}

fn open(
    store: &mut Store,
    fm: &mut GFXFileManager,
    name: &str,
    access: Access,
) -> Result<File, Error> {
    let call = fm.open_file(name, access, 0)?;
    let raw = store.status(&call);
    fm.open_file_reply(raw)
}

fn create(store: &mut Store, fm: &mut GFXFileManager, name: &str) -> File {
    let call = fm.create_file(name, 0).unwrap();
    let raw = store.status(&call);
    fm.create_file_reply(raw)
}

fn write(store: &mut Store, fm: &GFXFileManager, file: &File, data: &[u8]) -> Result<usize, Error> {
    let call = file.write(fm, data.len())?;
    match store.perform(&call, data) {
        Answer::Transfer { status, count, .. } => File::write_reply(data.len(), status, count),
        other => panic!("no transfer: {:?}", other),
    }
}

fn read(
    store: &mut Store,
    fm: &GFXFileManager,
    file: &File,
    buffer: &mut [u8],
) -> Result<usize, Error> {
    let call = file.read(fm, buffer.len())?;
    match store.perform(&call, &[]) {
        Answer::Transfer { status, count, data } => {
            let n = File::read_reply(buffer.len(), status, count)?;
            buffer[..n].copy_from_slice(&data[..n]);
            Ok(n)
        }
        other => panic!("no transfer: {:?}", other),
    }
}

fn seek(store: &mut Store, fm: &GFXFileManager, file: &File, pos: SeekFrom) -> Result<u64, Error> {
    let call = file.seek(fm, pos)?;
    File::seek_reply(store.status(&call))
}

fn close(store: &mut Store, fm: &mut GFXFileManager, file: &mut File) {
    if let Some(call) = file.close(fm) {
        store.status(&call);
    }
}

fn find_first(
    store: &mut Store,
    fm: &mut GFXFileManager,
    pattern: &str,
) -> (SearchResult, ResultEntry) {
    let call = fm.find_first_file(pattern).unwrap();
    match store.perform(&call, &[]) {
        Answer::Found { session, entry } => {
            let found = fm.find_first_file_reply(&session, &entry).unwrap();
            store.bind(found.0.session());
            found
        }
        other => panic!("no session: {:?}", other),
    }
}

fn find_next(store: &mut Store, fm: &GFXFileManager, search: &SearchResult) -> Option<ResultEntry> {
    let call = fm.find_next_file(search).unwrap();
    match store.perform(&call, &[]) {
        Answer::Next { raw, entry } => GFXFileManager::find_next_file_reply(raw, &entry).unwrap(),
        other => panic!("no entry: {:?}", other),
    }
}

fn close_search(store: &mut Store, fm: &mut GFXFileManager, search: &mut SearchResult) {
    if let Some(call) = search.close(fm) {
        store.status(&call);
    }
}

fn release(store: &mut Store, fm: GFXFileManager) {
    let (plan, closing) = fm.release();
    let mut last = 0;
    for call in &plan {
        last = store.status(call);
    }
    for call in &closing.finish(last) {
        store.status(call);
    }
}

fn all_names(store: &mut Store, fm: &mut GFXFileManager, pattern: &str) -> Vec<String> {
    let (mut search, first) = find_first(store, fm, pattern);
    let mut names = Vec::new();
    if search.success() {
        names.push(first.filename().unwrap());
        while let Some(entry) = find_next(store, fm, &search) {
            names.push(entry.filename().unwrap());
        }
    }
    close_search(store, fm, &mut search);
    names
}

#[test]
fn write_then_read_gives_hello() {
    let mut store = Store::new();
    let call = GFXFileManager::factory_call(Mode::CW);
    assert_eq!(call, Call::CreateObject { mode: 2, version: 0x1007 });
    let mut fm = GFXFileManager::new(Mode::CW, true).unwrap();

    let call = fm.open_container("archive.pk2", "pw", Access::CreateAlways.word()).unwrap();
    assert!(gfxfilemanager::call::answered(store.status(&call)));

    let mut file = create(&mut store, &mut fm, "a/b.txt");
    assert_eq!(write(&mut store, &fm, &file, b"hello"), Ok(5));
    assert_eq!(seek(&mut store, &fm, &file, SeekFrom::Start(0)), Ok(0));
    let mut buf = [0u8; 5];
    assert_eq!(read(&mut store, &fm, &file, &mut buf), Ok(5));
    assert_eq!(&buf, b"hello");

    close(&mut store, &mut fm, &mut file);
    release(&mut store, fm);
    assert!(store.released);
}

#[test]
fn open_of_a_file_that_is_not_there() {
    let mut store = Store::with_files(&["a.txt"]);
    let mut fm = GFXFileManager::new(Mode::CP, true).unwrap();
    let r = open(&mut store, &mut fm, "missing.txt", Access::OpenExisting);
    assert_eq!(r.err(), Some(Error::NotFound));
    assert_eq!(fm.open_files(), 0);
    let r = open(&mut store, &mut fm, "a.txt", Access::OpenExisting);
    assert!(r.is_ok());
    assert_eq!(fm.open_files(), 1);
    release(&mut store, fm);
}

#[test]
fn what_is_written_is_read_back() {
    let mut store = Store::new();
    let mut fm = GFXFileManager::new(Mode::CW, true).unwrap();
    store.status(&fm.create_container("c.pk2", "").unwrap());
    for n in [0usize, 1, 2, 5, 255, 256, 4096] {
        let data: Vec<u8> = (0..n).map(|i| (i * 7 + n) as u8).collect();
        let mut file = create(&mut store, &mut fm, "f.bin");
        assert_eq!(write(&mut store, &fm, &file, &data), Ok(n));
        assert_eq!(seek(&mut store, &fm, &file, SeekFrom::Start(0)), Ok(0));
        let mut back = vec![0u8; n];
        assert_eq!(read(&mut store, &fm, &file, &mut back), Ok(n));
        assert_eq!(back, data);
        close(&mut store, &mut fm, &mut file);

        let mut again = open(&mut store, &mut fm, "f.bin", Access::OpenExisting).unwrap();
        let mut back = vec![0u8; n];
        assert_eq!(read(&mut store, &fm, &again, &mut back), Ok(n));
        assert_eq!(back, data);
        close(&mut store, &mut fm, &mut again);
    }
    release(&mut store, fm);
}

#[test]
fn a_short_read_is_no_end_and_an_empty_read_is() {
    let mut store = Store::new();
    let mut fm = GFXFileManager::new(Mode::CW, true).unwrap();
    store.status(&fm.create_container("c.pk2", "").unwrap());
    let mut file = create(&mut store, &mut fm, "f");
    assert_eq!(write(&mut store, &fm, &file, b"abcdef"), Ok(6));
    assert_eq!(seek(&mut store, &fm, &file, SeekFrom::End(-2)), Ok(4));
    let mut buf = [0u8; 4];
    assert_eq!(read(&mut store, &fm, &file, &mut buf), Ok(2));
    assert_eq!(&buf[..2], b"ef");
    assert_eq!(read(&mut store, &fm, &file, &mut buf), Ok(0));
    assert_eq!(seek(&mut store, &fm, &file, SeekFrom::Current(-6)), Ok(0));
    assert_eq!(seek(&mut store, &fm, &file, SeekFrom::Current(-1)), Err(Error::Io));
    close(&mut store, &mut fm, &mut file);
    release(&mut store, fm);
}

#[test]
fn search_for_txt_among_two_files() {
    let mut store = Store::with_files(&["a.txt", "b.dat"]);
    let mut fm = GFXFileManager::new(Mode::CP, true).unwrap();
    let (mut search, first) = find_first(&mut store, &mut fm, "*.txt");
    assert!(search.success());
    assert_eq!(first.filename(), Ok("a.txt".to_string()));
    assert_eq!(first.typ(), Ok(Entry::File));
    assert!(find_next(&mut store, &fm, &search).is_none());
    assert!(search.is_open());
    close_search(&mut store, &mut fm, &mut search);
    close_search(&mut store, &mut fm, &mut search);
    release(&mut store, fm);
}

#[test]
fn search_counts_every_match_once() {
    let names = ["a.txt", "b.dat", "c.txt", "d.txt", "e.bin", "f.txt"];
    let mut store = Store::with_files(&names);
    let mut fm = GFXFileManager::new(Mode::CP, true).unwrap();
    assert_eq!(all_names(&mut store, &mut fm, "*.txt"), ["a.txt", "c.txt", "d.txt", "f.txt"]);
    assert_eq!(all_names(&mut store, &mut fm, "*.dat"), ["b.dat"]);
    assert_eq!(all_names(&mut store, &mut fm, "*"), names);
    assert_eq!(all_names(&mut store, &mut fm, "*.none"), Vec::<String>::new());
    assert_eq!(all_names(&mut store, &mut fm, "e.bin"), ["e.bin"]);
    release(&mut store, fm);
}

#[test]
fn a_search_without_a_match_is_closed_all_the_same() {
    let mut store = Store::with_files(&["b.dat"]);
    let mut fm = GFXFileManager::new(Mode::CP, true).unwrap();
    let (mut search, _) = find_first(&mut store, &mut fm, "*.txt");
    assert!(!search.success());
    assert!(fm.holds_search(search.session()));
    close_search(&mut store, &mut fm, &mut search);
    assert_eq!(store.log.last(), Some(&Call::CloseSearchResult { session: 0 }));
    release(&mut store, fm);
}

#[test]
fn release_closes_what_was_left_open() {
    let mut store = Store::with_files(&["a.txt", "b.dat"]);
    let mut fm = GFXFileManager::new(Mode::CP, true).unwrap();
    let _left = open(&mut store, &mut fm, "a.txt", Access::OpenExisting).unwrap();
    let mut done = open(&mut store, &mut fm, "b.dat", Access::ShareRead).unwrap();
    let (_search, _) = find_first(&mut store, &mut fm, "*");
    close(&mut store, &mut fm, &mut done);
    store.log.clear();
    release(&mut store, fm);
    assert_eq!(
        store.log,
        vec![
            Call::CloseSearchResult { session: 0 },
            Call::CloseFile { handle: 0 },
            Call::CloseAllFiles,
            Call::IsOpen,
            Call::CloseContainer,
            Call::ReleaseObject,
        ]
    );
    assert!(store.released);
}

#[test]
fn release_of_a_container_that_was_never_opened() {
    let mut store = Store::new();
    let fm = GFXFileManager::new(Mode::CP, true).unwrap();
    release(&mut store, fm);
    assert_eq!(store.log, vec![Call::CloseAllFiles, Call::IsOpen, Call::ReleaseObject]);
}
