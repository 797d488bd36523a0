//! Client-side core for a password-protected, single-file archive container that is
//! reached through a foreign object with a fixed table of operations.
//!
//! Nothing here touches the foreign object. Each operation is split in two: a
//! function that marshals the arguments into a [`Call`], and a function that turns
//! what the foreign side answered into a value. Between the two, the embedding
//! program performs the call. The [`GFXFileManager`] keeps the books on the files
//! and search sessions that are open, so that each is closed once and all of them
//! before the container itself.

pub mod abi;
pub mod call;
pub mod error;
pub mod file_manager;
pub mod gfxfile;
pub mod gfxinfo;
pub mod layout;
pub mod operations;
pub mod registry;
pub mod result_entry;
pub mod search_result;
pub mod structures;
pub mod text;

pub use abi::Op;
pub use call::Call;
pub use error::Error;
pub use file_manager::{Closing, GFXFileManager};
pub use gfxfile::{File, SeekFrom};
pub use gfxinfo::{GFXInfo, SystemTime};
pub use result_entry::{Entry, FileTime, FindData, ResultEntry};
pub use search_result::SearchResult;
pub use structures::{Access, CallbackState, Mode, UnknownPair, OBJECT_VERSION};
