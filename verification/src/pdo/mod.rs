//! Power data objects (PDOs): what a source offers and what a sink asks for.
//!
//! Every kind of PDO has a data struct that holds its fields as values in
//! physical units.
use crate::bits;
use crate::PdError;
use vstd::prelude::*;
use vstd::std_specs::convert::FromSpecImpl;
use vstd::std_specs::convert::TryFromSpecImpl;

pub mod rdo;
pub mod sink;
pub mod source;

pub use rdo::Rdo;

verus! {


/// 5 mA unit
pub const MA5_UNIT: u16 = 5;

/// 10 mA unit
pub const MA10_UNIT: u16 = 10;

/// 50 mA unit
pub const MA50_UNIT: u16 = 50;

/// 5 mV unit
pub const MV5_UNIT: u16 = 5;

/// 20 mV unit
pub const MV20_UNIT: u16 = 20;

/// 25 mV unit
pub const MV25_UNIT: u16 = 25;

/// 50 mV unit
pub const MV50_UNIT: u16 = 50;

/// 100 mV unit
pub const MV100_UNIT: u16 = 100;

/// 250 mW unit
pub const MW250_UNIT: u32 = 250;

/// 500 mW unit
pub const MW500_UNIT: u32 = 500;

/// 1000 mW unit
pub const MW1000_UNIT: u32 = 1000;

/// Length of a PDO in bytes
pub const PDO_LEN: usize = 4;

/// A count of units as a 16-bit quantity; a product that does not fit wraps
/// around.
pub open spec fn scaled(count: u16, unit: u16) -> u16 {
    ((count as nat * unit as nat) % 0x1_0000) as u16
}

/// Multiplies a count by its unit; a product that does not fit wraps around.
pub fn scale(count: u16, unit: u16) -> (quantity: u16)
    ensures
        quantity == scaled(count, unit),
        count * unit <= u16::MAX ==> quantity == count * unit,
{
    proof {
        if count * unit <= u16::MAX {
            assert((count as nat * unit as nat) % 0x1_0000 == count * unit) by (nonlinear_arith)
                requires
                    count * unit <= 0xffff,
                    count >= 0,
                    unit >= 0,
            ;
        }
    }
    count.wrapping_mul(unit)
}


/// Lowest bit of the kind in a PDO.
pub const KIND_LSB: u32 = 30;

/// Width in bits of the kind of a PDO.
pub const KIND_WIDTH: u32 = 2;

/// Lowest bit of the kind of augmented supply in an augmented PDO.
pub const APDO_KIND_LSB: u32 = 28;

/// Width in bits of the kind of augmented supply.
pub const APDO_KIND_WIDTH: u32 = 2;

/// PDO kinds
#[derive(Copy, Clone, Debug, PartialEq, Eq)]
pub enum PdoKind {
    /// Fixed supply
    Fixed,
    /// Battery supply
    Battery,
    /// Variable supply
    Variable,
    /// Augmented supply
    Augmented,
}

impl PdoKind {
    /// The number that stands for the value in a data object.
    pub open spec fn number(self) -> u8 {
        match self {
            PdoKind::Fixed => 0x0,
            PdoKind::Battery => 0x1,
            PdoKind::Variable => 0x2,
            PdoKind::Augmented => 0x3,
        }
    }

    /// The value that the low two bits of a number stand for.
    pub open spec fn of_number(value: u8) -> PdoKind {
        let low = value % 4;
        if low == 0x0 {
            PdoKind::Fixed
        } else if low == 0x1 {
            PdoKind::Battery
        } else if low == 0x2 {
            PdoKind::Variable
        } else {
            PdoKind::Augmented
        }
    }
}

impl From<u8> for PdoKind {
    fn from(value: u8) -> (converted: Self) {
        match value % 4 {
            0x0 => PdoKind::Fixed,
            0x1 => PdoKind::Battery,
            0x2 => PdoKind::Variable,
            _ => PdoKind::Augmented,
        }
    }
}

impl FromSpecImpl<u8> for PdoKind {
    open spec fn obeys_from_spec() -> bool {
        true
    }

    open spec fn from_spec(value: u8) -> Self {
        PdoKind::of_number(value)
    }
}

impl From<PdoKind> for u8 {
    fn from(value: PdoKind) -> (number: u8) {
        match value {
            PdoKind::Fixed => 0x0,
            PdoKind::Battery => 0x1,
            PdoKind::Variable => 0x2,
            PdoKind::Augmented => 0x3,
        }
    }
}

impl FromSpecImpl<PdoKind> for u8 {
    open spec fn obeys_from_spec() -> bool {
        true
    }

    open spec fn from_spec(value: PdoKind) -> u8 {
        value.number()
    }
}

impl PdoKind {
    /// The kind that a PDO names.
    pub open spec fn of_word(pdo: u32) -> PdoKind {
        PdoKind::of_number(bits::field(pdo, KIND_LSB, KIND_WIDTH) as u8)
    }
}

impl From<u32> for PdoKind {
    fn from(pdo: u32) -> (kind: Self) {
        PdoKind::from(bits::get_field_u8(pdo, KIND_LSB, KIND_WIDTH))
    }
}

impl FromSpecImpl<u32> for PdoKind {
    open spec fn obeys_from_spec() -> bool {
        true
    }

    open spec fn from_spec(pdo: u32) -> Self {
        PdoKind::of_word(pdo)
    }
}

/// Invalid kind of augmented supply, holds the number that stands for none
#[derive(Debug, Clone, Copy, PartialEq, Eq)]
pub struct InvalidApdoKind(pub u8);

impl From<InvalidApdoKind> for PdError {
    fn from(_error: InvalidApdoKind) -> (error: PdError) {
        PdError::InvalidParams
    }
}

impl FromSpecImpl<InvalidApdoKind> for PdError {
    open spec fn obeys_from_spec() -> bool {
        true
    }

    open spec fn from_spec(_error: InvalidApdoKind) -> PdError {
        PdError::InvalidParams
    }
}

/// Kinds of augmented supply
#[derive(Copy, Clone, Debug, PartialEq, Eq)]
pub enum ApdoKind {
    /// SPR programmable power supply
    SprPps,
    /// EPR adjustable voltage supply
    EprAvs,
    /// SPR adjustable voltage supply
    SprAvs,
}

impl ApdoKind {
    /// The number that stands for the kind in an augmented PDO.
    pub open spec fn number(self) -> u8 {
        match self {
            ApdoKind::SprPps => 0x0,
            ApdoKind::EprAvs => 0x1,
            ApdoKind::SprAvs => 0x2,
        }
    }

    /// The kind that a number stands for, if it stands for one.
    pub open spec fn of_number(value: u8) -> Option<ApdoKind> {
        match value {
            0x0 => Some(ApdoKind::SprPps),
            0x1 => Some(ApdoKind::EprAvs),
            0x2 => Some(ApdoKind::SprAvs),
            _ => None,
        }
    }

    /// The kind of augmented supply that a PDO names, if it names one.
    pub open spec fn of_word(pdo: u32) -> Option<ApdoKind> {
        ApdoKind::of_number(bits::field(pdo, APDO_KIND_LSB, APDO_KIND_WIDTH) as u8)
    }
}

impl From<ApdoKind> for u8 {
    fn from(value: ApdoKind) -> (number: u8) {
        match value {
            ApdoKind::SprPps => 0x0,
            ApdoKind::EprAvs => 0x1,
            ApdoKind::SprAvs => 0x2,
        }
    }
}

impl FromSpecImpl<ApdoKind> for u8 {
    open spec fn obeys_from_spec() -> bool {
        true
    }

    open spec fn from_spec(value: ApdoKind) -> u8 {
        value.number()
    }
}

impl TryFrom<u8> for ApdoKind {
    type Error = InvalidApdoKind;

    fn try_from(value: u8) -> (kind: Result<Self, InvalidApdoKind>) {
        match value {
            0x0 => Ok(ApdoKind::SprPps),
            0x1 => Ok(ApdoKind::EprAvs),
            0x2 => Ok(ApdoKind::SprAvs),
            _ => Err(InvalidApdoKind(value)),
        }
    }
}

impl TryFromSpecImpl<u8> for ApdoKind {
    open spec fn obeys_try_from_spec() -> bool {
        true
    }

    open spec fn try_from_spec(value: u8) -> Result<Self, InvalidApdoKind> {
        match ApdoKind::of_number(value) {
            Some(kind) => Ok(kind),
            None => Err(InvalidApdoKind(value)),
        }
    }
}

impl TryFrom<u32> for ApdoKind {
    type Error = InvalidApdoKind;

    fn try_from(value: u32) -> (kind: Result<Self, InvalidApdoKind>) {
        ApdoKind::try_from(bits::get_field_u8(value, APDO_KIND_LSB, APDO_KIND_WIDTH))
    }
}

impl TryFromSpecImpl<u32> for ApdoKind {
    open spec fn obeys_try_from_spec() -> bool {
        true
    }

    open spec fn try_from_spec(value: u32) -> Result<Self, InvalidApdoKind> {
        match ApdoKind::of_word(value) {
            Some(kind) => Ok(kind),
            None => Err(
                InvalidApdoKind(bits::field(value, APDO_KIND_LSB, APDO_KIND_WIDTH) as u8),
            ),
        }
    }
}

/// What source and sink PDOs have in common
pub trait Common: Copy + Clone + PartialEq + Eq + Into<Pdo> + Into<u32> {
    /// The kind of the PDO.
    spec fn spec_kind(&self) -> PdoKind;

    /// The kind of augmented supply of an augmented PDO.
    spec fn spec_apdo_kind(&self) -> Option<ApdoKind>;

    /// Whether the PDO is of a port with dual role power.
    spec fn spec_dual_role_power(&self) -> bool;

    /// Whether the PDO is of a port with unconstrained power.
    spec fn spec_unconstrained_power(&self) -> bool;

    /// The maximum voltage of the PDO in mV.
    spec fn spec_max_voltage_mv(&self) -> u16;

    /// The minimum voltage of the PDO in mV.
    spec fn spec_min_voltage_mv(&self) -> u16;

    /// Returns the kind of the PDO
    fn kind(&self) -> (kind: PdoKind)
        ensures
            kind == self.spec_kind(),
    ;

    /// Returns the kind of augmented supply, for an augmented PDO
    fn apdo_kind(&self) -> (kind: Option<ApdoKind>)
        ensures
            kind == self.spec_apdo_kind(),
    ;

    /// Returns whether the PDO is of a port with dual role power
    fn dual_role_power(&self) -> (dual: bool)
        ensures
            dual == self.spec_dual_role_power(),
    ;

    /// Returns whether the PDO is of a port with unconstrained power
    fn unconstrained_power(&self) -> (unconstrained: bool)
        ensures
            unconstrained == self.spec_unconstrained_power(),
    ;

    /// Returns the maximum voltage in mV
    fn max_voltage_mv(&self) -> (millivolts: u16)
        ensures
            millivolts == self.spec_max_voltage_mv(),
    ;

    /// Returns the minimum voltage in mV
    fn min_voltage_mv(&self) -> (millivolts: u16)
        ensures
            millivolts == self.spec_min_voltage_mv(),
    ;

    /// An augmented PDO has a kind of augmented supply, and no other has.
    proof fn augmented_has_apdo_kind(&self)
        ensures
            self.spec_apdo_kind() is Some <==> self.spec_kind() == PdoKind::Augmented,
    ;
}

/// What the PDOs of one role have in common
pub trait RoleCommon: Common + Default + TryFrom<u32, Error = ExpectedPdo> {

}

/// A PDO of either role
#[derive(Copy, Clone, Debug, PartialEq, Eq)]
pub enum Pdo {
    /// Source PDO
    Source(source::Pdo),
    /// Sink PDO
    Sink(sink::Pdo),
}

impl Pdo {
    /// The data object of the PDO.
    pub open spec fn word(self) -> u32 {
        match self {
            Pdo::Source(pdo) => pdo.word(),
            Pdo::Sink(pdo) => pdo.word(),
        }
    }
}

impl Common for Pdo {
    open spec fn spec_kind(&self) -> PdoKind {
        match self {
            Pdo::Source(pdo) => pdo.spec_kind(),
            Pdo::Sink(pdo) => pdo.spec_kind(),
        }
    }

    open spec fn spec_apdo_kind(&self) -> Option<ApdoKind> {
        match self {
            Pdo::Source(pdo) => pdo.spec_apdo_kind(),
            Pdo::Sink(pdo) => pdo.spec_apdo_kind(),
        }
    }

    open spec fn spec_dual_role_power(&self) -> bool {
        match self {
            Pdo::Source(pdo) => pdo.spec_dual_role_power(),
            Pdo::Sink(pdo) => pdo.spec_dual_role_power(),
        }
    }

    open spec fn spec_unconstrained_power(&self) -> bool {
        match self {
            Pdo::Source(pdo) => pdo.spec_unconstrained_power(),
            Pdo::Sink(pdo) => pdo.spec_unconstrained_power(),
        }
    }

    open spec fn spec_max_voltage_mv(&self) -> u16 {
        match self {
            Pdo::Source(pdo) => pdo.spec_max_voltage_mv(),
            Pdo::Sink(pdo) => pdo.spec_max_voltage_mv(),
        }
    }

    open spec fn spec_min_voltage_mv(&self) -> u16 {
        match self {
            Pdo::Source(pdo) => pdo.spec_min_voltage_mv(),
            Pdo::Sink(pdo) => pdo.spec_min_voltage_mv(),
        }
    }

    fn kind(&self) -> (kind: PdoKind) {
        match self {
            Pdo::Source(pdo) => pdo.kind(),
            Pdo::Sink(pdo) => pdo.kind(),
        }
    }

    fn apdo_kind(&self) -> (kind: Option<ApdoKind>) {
        match self {
            Pdo::Source(pdo) => pdo.apdo_kind(),
            Pdo::Sink(pdo) => pdo.apdo_kind(),
        }
    }

    fn dual_role_power(&self) -> (dual: bool) {
        match self {
            Pdo::Source(pdo) => pdo.dual_role_power(),
            Pdo::Sink(pdo) => pdo.dual_role_power(),
        }
    }

    fn unconstrained_power(&self) -> (unconstrained: bool) {
        match self {
            Pdo::Source(pdo) => pdo.unconstrained_power(),
            Pdo::Sink(pdo) => pdo.unconstrained_power(),
        }
    }

    fn max_voltage_mv(&self) -> (millivolts: u16) {
        match self {
            Pdo::Source(pdo) => pdo.max_voltage_mv(),
            Pdo::Sink(pdo) => pdo.max_voltage_mv(),
        }
    }

    fn min_voltage_mv(&self) -> (millivolts: u16) {
        match self {
            Pdo::Source(pdo) => pdo.min_voltage_mv(),
            Pdo::Sink(pdo) => pdo.min_voltage_mv(),
        }
    }

    proof fn augmented_has_apdo_kind(&self) {
        match self {
            Pdo::Source(pdo) => pdo.augmented_has_apdo_kind(),
            Pdo::Sink(pdo) => pdo.augmented_has_apdo_kind(),
        }
    }
}

impl From<Pdo> for u32 {
    fn from(value: Pdo) -> (word: u32) {
        match value {
            Pdo::Source(data) => u32::from(data),
            Pdo::Sink(data) => u32::from(data),
        }
    }
}

impl FromSpecImpl<Pdo> for u32 {
    open spec fn obeys_from_spec() -> bool {
        true
    }

    open spec fn from_spec(value: Pdo) -> u32 {
        value.word()
    }
}

/// What was expected of a data object that is no PDO of the kind that was
/// asked for
#[derive(Debug, Clone, Copy, PartialEq, Eq)]
pub struct ExpectedPdo {
    /// The kind that was expected
    pub kind: PdoKind,
    /// The kind of augmented supply that was expected, if one was
    pub apdo_kind: Option<ApdoKind>,
    /// The data object
    pub raw: u32,
}

impl From<ExpectedPdo> for PdError {
    fn from(_expected: ExpectedPdo) -> (error: PdError) {
        PdError::InvalidParams
    }
}

impl FromSpecImpl<ExpectedPdo> for PdError {
    open spec fn obeys_from_spec() -> bool {
        true
    }

    open spec fn from_spec(_expected: ExpectedPdo) -> PdError {
        PdError::InvalidParams
    }
}

/// A contract: the PDO that was offered and the request that was made for it
#[derive(Debug, Clone, Copy, PartialEq, Eq)]
pub struct Contract {
    /// The PDO
    pub pdo: Pdo,
    /// The request
    pub rdo: Rdo,
}

impl Contract {
    /// The operating current of the contract in mA: for a battery supply
    /// the power over the PDO's maximum voltage, cut to 16 bits, and none
    /// if that voltage is zero; for the others the current that was asked
    /// for.
    pub open spec fn operating_current(self) -> Option<u16> {
        match self.rdo {
            Rdo::Fixed(data) => Some(data.max_operating_current_ma),
            Rdo::Battery(data) => if self.pdo.spec_max_voltage_mv() == 0 {
                None
            } else {
                Some(
                    ((data.max_operating_power_mw / (self.pdo.spec_max_voltage_mv() as u32))
                        % 0x1_0000) as u16,
                )
            },
            Rdo::Variable(data) => Some(data.max_operating_current_ma),
            Rdo::Avs(data) => Some(data.operating_current_ma),
            Rdo::Pps(data) => Some(data.operating_current_ma),
        }
    }

    /// Creates a contract of a PDO and a request
    pub fn new(pdo: Pdo, rdo: Rdo) -> (contract: Self)
        ensures
            contract == (Contract { pdo, rdo }),
    {
        Contract { pdo, rdo }
    }

    /// Creates a contract of a sink PDO and a request
    pub fn from_sink(pdo: sink::Pdo, rdo: Rdo) -> (contract: Self)
        ensures
            contract == (Contract { pdo: Pdo::Sink(pdo), rdo }),
    {
        Contract { pdo: Pdo::Sink(pdo), rdo }
    }

    /// Creates a contract of a source PDO and a request
    pub fn from_source(pdo: source::Pdo, rdo: Rdo) -> (contract: Self)
        ensures
            contract == (Contract { pdo: Pdo::Source(pdo), rdo }),
    {
        Contract { pdo: Pdo::Source(pdo), rdo }
    }

    /// Returns the operating current in mA, if the contract has one
    pub fn operating_current_ma(&self) -> (current: Option<u16>)
        ensures
            current == self.operating_current(),
    {
        match self.rdo {
            Rdo::Fixed(data) => Some(data.max_operating_current_ma),
            Rdo::Battery(data) => {
                let voltage = self.pdo.max_voltage_mv() as u32;
                match data.max_operating_power_mw.checked_div(voltage) {
                    Some(current) => Some((current % 0x1_0000) as u16),
                    None => None,
                }
            },
            Rdo::Variable(data) => Some(data.max_operating_current_ma),
            Rdo::Avs(data) => Some(data.operating_current_ma),
            Rdo::Pps(data) => Some(data.operating_current_ma),
        }
    }
}

} // verus!
