//! Small value types that cross the foreign boundary as integers.

use vstd::prelude::*;

verus! {

/// The default interface version token handed to the object factory.
pub const OBJECT_VERSION: i32 = 0x1007;

/// The mode a container object is created in.
#[derive(Clone, Copy, Debug, PartialEq, Eq, Structural)]
pub enum Mode {
    /// Read mode, token `1`.
    CP,
    /// Write mode, token `2`.
    CW,
}

impl Mode {
    /// The integer token of this mode.
    pub open spec fn spec_code(self) -> i32 {
        match self {
            Mode::CP => 1,
            Mode::CW => 2,
        }
    }

    /// The integer token of this mode.
    pub fn code(self) -> (c: i32)
        ensures
            c == self.spec_code(),
    {
        match self {
            Mode::CP => 1,
            Mode::CW => 2,
        }
    }
}

impl TryFrom<i32> for Mode {
    type Error = ();

    fn try_from(mode: i32) -> (r: Result<Self, Self::Error>) {
        match mode {
            1 => Ok(Mode::CP),
            2 => Ok(Mode::CW),
            _ => Err(()),
        }
    }
}

impl vstd::std_specs::convert::TryFromSpecImpl<i32> for Mode {
    open spec fn obeys_try_from_spec() -> bool {
        true
    }

    open spec fn try_from_spec(mode: i32) -> Result<Self, Self::Error> {
        if mode == 1 {
            Ok(Mode::CP)
        } else if mode == 2 {
            Ok(Mode::CW)
        } else {
            Err(())
        }
    }
}

/// How a file inside the container is opened.
#[derive(Clone, Copy, Debug, PartialEq, Eq, Structural)]
pub enum Access {
    /// Open a file that exists, token `0`.
    OpenExisting,
    /// Open for shared reading, token `0x8000_0000`.
    ShareRead,
    /// Create the file anew, token `0x4000_0000`.
    CreateAlways,
}

impl Access {
    /// The unsigned token of this access mode.
    pub open spec fn spec_code(self) -> u32 {
        match self {
            Access::OpenExisting => 0,
            Access::ShareRead => 0x8000_0000,
            Access::CreateAlways => 0x4000_0000,
        }
    }

    /// The token as the signed word that the foreign call takes: the same 32 bits.
    pub open spec fn spec_word(self) -> i32 {
        match self {
            Access::OpenExisting => 0,
            Access::ShareRead => i32::MIN,
            Access::CreateAlways => 0x4000_0000,
        }
    }

    /// The unsigned token of this access mode.
    pub fn code(self) -> (c: u32)
        ensures
            c == self.spec_code(),
    {
        match self {
            Access::OpenExisting => 0,
            Access::ShareRead => 0x8000_0000,
            Access::CreateAlways => 0x4000_0000,
        }
    }

    /// The token as the signed word that the foreign call takes.
    pub fn word(self) -> (w: i32)
        ensures
            w == self.spec_word(),
    {
        match self {
            Access::OpenExisting => 0,
            Access::ShareRead => i32::MIN,
            Access::CreateAlways => 0x4000_0000,
        }
    }
}

impl TryFrom<u32> for Access {
    type Error = ();

    fn try_from(mode: u32) -> (r: Result<Self, Self::Error>) {
        match mode {
            0 => Ok(Access::OpenExisting),
            0x8000_0000 => Ok(Access::ShareRead),
            0x4000_0000 => Ok(Access::CreateAlways),
            _ => Err(()),
        }
    }
}

impl vstd::std_specs::convert::TryFromSpecImpl<u32> for Access {
    open spec fn obeys_try_from_spec() -> bool {
        true
    }

    open spec fn try_from_spec(mode: u32) -> Result<Self, Self::Error> {
        if mode == 0 {
            Ok(Access::OpenExisting)
        } else if mode == 0x8000_0000 {
            Ok(Access::ShareRead)
        } else if mode == 0x4000_0000 {
            Ok(Access::CreateAlways)
        } else {
            Err(())
        }
    }
}

/// The phase that a whole-container enumeration reports with each callback.
#[derive(Clone, Copy, Debug, PartialEq, Eq, Structural)]
pub enum CallbackState {
    /// Enumeration starts, tag `0`.
    Init,
    /// A directory is entered, tag `1`.
    EnterDir,
    /// A directory is left, tag `2`.
    LeaveDir,
    /// A file is visited, tag `3`.
    File,
}

impl CallbackState {
    /// The integer tag of this phase.
    pub open spec fn spec_code(self) -> i32 {
        match self {
            CallbackState::Init => 0,
            CallbackState::EnterDir => 1,
            CallbackState::LeaveDir => 2,
            CallbackState::File => 3,
        }
    }

    /// The phase that a tag names, if it names one.
    pub open spec fn spec_from_code(tag: i32) -> Option<CallbackState> {
        if tag == 0 {
            Some(CallbackState::Init)
        } else if tag == 1 {
            Some(CallbackState::EnterDir)
        } else if tag == 2 {
            Some(CallbackState::LeaveDir)
        } else if tag == 3 {
            Some(CallbackState::File)
        } else {
            None
        }
    }

    /// The integer tag of this phase.
    pub fn code(self) -> (c: i32)
        ensures
            c == self.spec_code(),
    {
        match self {
            CallbackState::Init => 0,
            CallbackState::EnterDir => 1,
            CallbackState::LeaveDir => 2,
            CallbackState::File => 3,
        }
    }

    /// The phase that a tag names; `None` for a tag outside `0..=3`.
    pub fn from_code(tag: i32) -> (r: Option<CallbackState>)
        ensures
            r == Self::spec_from_code(tag),
    {
        match tag {
            0 => Some(CallbackState::Init),
            1 => Some(CallbackState::EnterDir),
            2 => Some(CallbackState::LeaveDir),
            3 => Some(CallbackState::File),
            _ => None,
        }
    }
}

/// Two integers that one foreign operation hands out and another takes back.
/// What they mean is not known; they are carried as they are.
#[derive(Clone, Copy, Debug, PartialEq, Eq, Structural)]
pub struct UnknownPair(pub i32, pub i32);

} // verus!
