//! Data and control plane of a USB Type-C connector manager: the UCSI command
//! and response codec, the PPM state machine that sequences commands, and the
//! USB Power Delivery objects that travel with them.
use vstd::prelude::*;
use vstd::std_specs::convert::FromSpecImpl;

pub mod ado;
pub mod bits;
pub mod bitstring;
pub mod constants;
pub mod pdinfo;
pub mod pdo;
pub mod port_id;
pub mod type_c;
pub mod ucsi;
pub mod vdm;
pub mod wire;

pub use port_id::PortId;

verus! {

/// Identifier of a port on one controller.
///
/// Two controllers may use the same local identifier for different ports; see
/// [`GlobalPortId`] for an identifier that is unique across controllers.
#[derive(Copy, Clone, Debug, PartialEq, Eq)]
pub struct LocalPortId(pub u8);

impl From<u8> for LocalPortId {
    fn from(port: u8) -> (id: Self) {
        LocalPortId(port)
    }
}

impl FromSpecImpl<u8> for LocalPortId {
    open spec fn obeys_from_spec() -> bool {
        true
    }

    open spec fn from_spec(port: u8) -> Self {
        LocalPortId(port)
    }
}

impl From<LocalPortId> for u8 {
    fn from(port: LocalPortId) -> (number: u8) {
        port.0
    }
}

impl FromSpecImpl<LocalPortId> for u8 {
    open spec fn obeys_from_spec() -> bool {
        true
    }

    open spec fn from_spec(port: LocalPortId) -> u8 {
        port.0
    }
}

impl PortId for LocalPortId {
    proof fn conversions_agree() {
    }
}

/// Identifier of a port that is unique across all controllers.
#[derive(Copy, Clone, Debug, PartialEq, Eq)]
pub struct GlobalPortId(pub u8);

impl From<u8> for GlobalPortId {
    fn from(port: u8) -> (id: Self) {
        GlobalPortId(port)
    }
}

impl FromSpecImpl<u8> for GlobalPortId {
    open spec fn obeys_from_spec() -> bool {
        true
    }

    open spec fn from_spec(port: u8) -> Self {
        GlobalPortId(port)
    }
}

impl From<GlobalPortId> for u8 {
    fn from(port: GlobalPortId) -> (number: u8) {
        port.0
    }
}

impl FromSpecImpl<GlobalPortId> for u8 {
    open spec fn obeys_from_spec() -> bool {
        true
    }

    open spec fn from_spec(port: GlobalPortId) -> u8 {
        port.0
    }
}

impl PortId for GlobalPortId {
    proof fn conversions_agree() {
    }
}

/// General PD-related errors.
#[derive(Copy, Clone, Debug, PartialEq, Eq)]
pub enum PdError {
    /// Invalid controller
    InvalidController,
    /// Invalid response
    InvalidResponse,
    /// Unrecognized command
    UnrecognizedCommand,
    /// Invalid port
    InvalidPort,
    /// Invalid parameters
    InvalidParams,
    /// Incompatible partner
    IncompatiblePartner,
    /// CC communication error
    CcCommunication,
    /// Failed due to dead battery condition
    DeadBattery,
    /// Contract negotiation failed
    ContractNegociation,
    /// Overcurrent
    Overcurrent,
    /// Swap rejected by port partner
    SwapRejectedPartner,
    /// Hard reset
    HardReset,
    /// Policy conflict
    PolicyConflict,
    /// Swap rejected
    SwapRejected,
    /// Reverse current protection
    ReverseCurrent,
    /// Set sink path rejected
    SetSinkPath,
    /// The requested action has not yet completed
    Busy,
    /// The requested action timed out
    Timeout,
    /// Generic failure
    Failed,
    /// The device is in the incorrect mode
    InvalidMode,
    /// Data serialization error
    Serialize,
    /// Command not yet completed
    InProgress,
    /// Command was valid, but could not be executed at this time
    Rejected,
}

/// Top-level error: a failure of the bus, or a PD error.
#[derive(Debug, Clone, Copy, PartialEq, Eq)]
pub enum Error<BE> {
    /// Bus error
    Bus(BE),
    /// General PD error
    Pd(PdError),
}

impl<BE> From<PdError> for Error<BE> {
    fn from(err: PdError) -> (error: Self) {
        Error::Pd(err)
    }
}

impl<BE> FromSpecImpl<PdError> for Error<BE> {
    open spec fn obeys_from_spec() -> bool {
        true
    }

    open spec fn from_spec(err: PdError) -> Self {
        Error::Pd(err)
    }
}

impl<T, BE> From<PdError> for Result<T, Error<BE>> {
    fn from(err: PdError) -> (result: Self) {
        Err(Error::Pd(err))
    }
}

impl<T, BE> FromSpecImpl<PdError> for Result<T, Error<BE>> {
    open spec fn obeys_from_spec() -> bool {
        true
    }

    open spec fn from_spec(err: PdError) -> Self {
        Err(Error::Pd(err))
    }
}

/// Power role
#[derive(Debug, Clone, Copy, PartialEq, Eq, Default)]
pub enum PowerRole {
    /// Sink role
    #[default]
    Sink,
    /// Source role
    Source,
}

/// Data role
#[derive(Debug, Clone, Copy, PartialEq, Eq)]
pub enum DataRole {
    /// Upward-facing port
    Ufp,
    /// Downward-facing port
    Dfp,
}

/// Plug orientation
#[derive(Debug, Clone, Copy, PartialEq, Eq, Default)]
pub enum PlugOrientation {
    /// Upside-up orientation
    #[default]
    CC1,
    /// Upside-down orientation
    CC2,
}

impl PlugOrientation {
    /// Returns true if the plug orientation is flipped
    pub fn flipped(&self) -> (flipped: bool)
        ensures
            flipped == (*self == PlugOrientation::CC2),
    {
        matches!(self, PlugOrientation::CC2)
    }
}

} // verus!
