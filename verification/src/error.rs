//! The failures this layer reports to its callers.

use vstd::prelude::*;

verus! {

/// Why an operation at the client boundary did not produce a value.
///
/// A foreign call that only answers yes or no carries no detail with a no, and none
/// is made up for it: it surfaces as a plain `bool`, or as `Failed` where a yes
/// comes with a value.
#[derive(Clone, Copy, Debug, PartialEq, Eq, Structural)]
pub enum Error {
    /// The factory handed back no usable container object.
    ConstructionFailed,
    /// Opening a file answered with the sentinel `-1`.
    NotFound,
    /// A read, write or seek came back with a negative or impossible status.
    Io,
    /// A returned buffer holds no complete text within its bound.
    Truncated,
    /// Text that is not valid UTF-8, or that holds a zero byte where none may be.
    Encoding,
    /// A directory entry carries a type tag that names neither a directory nor a file.
    InvalidEntry,
    /// A foreign call that answers yes or no answered no.
    Failed,
}

} // verus!
