//! Vendor defined messages: sizes, structured VDM commands and identifiers.
use vstd::prelude::*;

verus! {

/// Size of a data object in bytes
pub const DATA_OBJ_SIZE: usize = 4;

/// Maximum number of vendor data objects
pub const MAX_VDOS: usize = 6;

/// Maximum number of data objects in a message
pub const MAX_NUM_DATA_OBJECTS: usize = 7;

/// Maximum size of a message's data objects in bytes
pub const MAX_SIZE: usize = DATA_OBJ_SIZE * MAX_NUM_DATA_OBJECTS;

/// Object position that addresses all modes
pub const OBJ_POS_ALL_MODES: u8 = 7;

/// Version of the structured VDM header
pub const HEADER_VERSION: u8 = 1;

/// SVDM header commands
#[derive(Copy, Clone, Debug, PartialEq, Eq)]
pub enum Cmd {
    /// Discover Id
    DiscId,
    /// Discover SVIDs
    DiscSvid,
    /// Discover Mode
    DiscMode,
    /// Enter mode
    EnterMode,
    /// Exit mode
    ExitMode,
    /// Attention
    Attention,
    /// Custom vendor SVID Commands start here
    SvidCmdStart,
}

impl Cmd {
    /// The number that stands for the command in an SVDM header.
    pub open spec fn number(self) -> u8 {
        match self {
            Cmd::DiscId => 1,
            Cmd::DiscSvid => 2,
            Cmd::DiscMode => 3,
            Cmd::EnterMode => 4,
            Cmd::ExitMode => 5,
            Cmd::Attention => 6,
            Cmd::SvidCmdStart => 16,
        }
    }

    /// Returns the number that stands for the command in an SVDM header
    pub fn code(&self) -> (code: u8)
        ensures
            code == self.number(),
    {
        match self {
            Cmd::DiscId => 1,
            Cmd::DiscSvid => 2,
            Cmd::DiscMode => 3,
            Cmd::EnterMode => 4,
            Cmd::ExitMode => 5,
            Cmd::Attention => 6,
            Cmd::SvidCmdStart => 16,
        }
    }
}

/// Standard or Vendor ID (SVID) newtype, see PD spec 6.4.4.2.1
#[derive(Copy, Clone, Default, Debug, PartialEq, Eq)]
pub struct Svid(pub u16);

/// Altmode ID newtype for discover modes command and others, see PD spec 6.4.4.3.3
#[derive(Copy, Clone, Default, Debug, PartialEq, Eq)]
pub struct AltModeId(pub u32);

} // verus!
