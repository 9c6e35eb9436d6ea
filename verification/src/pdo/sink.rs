//! Sink PDOs as defined in USB Power Delivery specification rev 3.2 section 6.4.1.
use crate::bits;
use crate::pdo::ApdoKind;
use crate::pdo::Common;
use crate::pdo::ExpectedPdo;
use crate::pdo::PdoKind;
use crate::pdo::RoleCommon;
use crate::pdo::APDO_KIND_LSB;
use crate::pdo::APDO_KIND_WIDTH;
use crate::pdo::KIND_LSB;
use crate::pdo::KIND_WIDTH;
use crate::pdo::MA10_UNIT;
use crate::pdo::MA50_UNIT;
use crate::pdo::MV100_UNIT;
use crate::pdo::MV50_UNIT;
use crate::pdo::MW1000_UNIT;
use crate::pdo::MW250_UNIT;
use vstd::prelude::*;
use vstd::std_specs::convert::FromSpecImpl;
use vstd::std_specs::convert::TryFromSpecImpl;

verus! {

/// Bit of `dual_role_power` in the data object.
pub const FIXED_DUAL_ROLE_POWER_BIT: u32 = 29;

/// Bit of `higher_capability` in the data object.
pub const FIXED_HIGHER_CAPABILITY_BIT: u32 = 28;

/// Bit of `unconstrained_power` in the data object.
pub const FIXED_UNCONSTRAINED_POWER_BIT: u32 = 27;

/// Bit of `usb_comms_capable` in the data object.
pub const FIXED_USB_COMMS_CAPABLE_BIT: u32 = 26;

/// Bit of `dual_role_data` in the data object.
pub const FIXED_DUAL_ROLE_DATA_BIT: u32 = 25;

/// Lowest bit of `frs_required_current` in the data object.
pub const FIXED_FRS_REQUIRED_CURRENT_LSB: u32 = 23;

/// Width in bits of `frs_required_current`.
pub const FIXED_FRS_REQUIRED_CURRENT_WIDTH: u32 = 2;

/// Lowest bit of `voltage_mv` in the data object.
pub const FIXED_VOLTAGE_LSB: u32 = 10;

/// Width in bits of `voltage_mv`.
pub const FIXED_VOLTAGE_WIDTH: u32 = 10;

/// Lowest bit of `operational_current_ma` in the data object.
pub const FIXED_OPERATIONAL_CURRENT_LSB: u32 = 0;

/// Width in bits of `operational_current_ma`.
pub const FIXED_OPERATIONAL_CURRENT_WIDTH: u32 = 10;

/// Lowest bit of `max_voltage_mv` in the data object.
pub const BATTERY_MAX_VOLTAGE_LSB: u32 = 20;

/// Width in bits of `max_voltage_mv`.
pub const BATTERY_MAX_VOLTAGE_WIDTH: u32 = 10;

/// Lowest bit of `min_voltage_mv` in the data object.
pub const BATTERY_MIN_VOLTAGE_LSB: u32 = 10;

/// Width in bits of `min_voltage_mv`.
pub const BATTERY_MIN_VOLTAGE_WIDTH: u32 = 10;

/// Lowest bit of `operational_power_mw` in the data object.
pub const BATTERY_POWER_LSB: u32 = 0;

/// Width in bits of `operational_power_mw`.
pub const BATTERY_POWER_WIDTH: u32 = 10;

/// Lowest bit of `max_voltage_mv` in the data object.
pub const VARIABLE_MAX_VOLTAGE_LSB: u32 = 20;

/// Width in bits of `max_voltage_mv`.
pub const VARIABLE_MAX_VOLTAGE_WIDTH: u32 = 10;

/// Lowest bit of `min_voltage_mv` in the data object.
pub const VARIABLE_MIN_VOLTAGE_LSB: u32 = 10;

/// Width in bits of `min_voltage_mv`.
pub const VARIABLE_MIN_VOLTAGE_WIDTH: u32 = 10;

/// Lowest bit of `operational_current_ma` in the data object.
pub const VARIABLE_CURRENT_LSB: u32 = 0;

/// Width in bits of `operational_current_ma`.
pub const VARIABLE_CURRENT_WIDTH: u32 = 10;

/// Lowest bit of `max_voltage_mv` in the data object.
pub const SPR_PPS_MAX_VOLTAGE_LSB: u32 = 17;

/// Width in bits of `max_voltage_mv`.
pub const SPR_PPS_MAX_VOLTAGE_WIDTH: u32 = 8;

/// Lowest bit of `min_voltage_mv` in the data object.
pub const SPR_PPS_MIN_VOLTAGE_LSB: u32 = 8;

/// Width in bits of `min_voltage_mv`.
pub const SPR_PPS_MIN_VOLTAGE_WIDTH: u32 = 8;

/// Lowest bit of `max_current_ma` in the data object.
pub const SPR_PPS_MAX_CURRENT_LSB: u32 = 0;

/// Width in bits of `max_current_ma`.
pub const SPR_PPS_MAX_CURRENT_WIDTH: u32 = 7;

/// Lowest bit of `max_voltage_mv` in the data object.
pub const EPR_AVS_MAX_VOLTAGE_LSB: u32 = 17;

/// Width in bits of `max_voltage_mv`.
pub const EPR_AVS_MAX_VOLTAGE_WIDTH: u32 = 9;

/// Lowest bit of `min_voltage_mv` in the data object.
pub const EPR_AVS_MIN_VOLTAGE_LSB: u32 = 8;

/// Width in bits of `min_voltage_mv`.
pub const EPR_AVS_MIN_VOLTAGE_WIDTH: u32 = 8;

/// Lowest bit of `pdp_mw` in the data object.
pub const EPR_AVS_PDP_LSB: u32 = 0;

/// Width in bits of `pdp_mw`.
pub const EPR_AVS_PDP_WIDTH: u32 = 8;

/// Lowest bit of `max_current_15v_ma` in the data object.
pub const SPR_AVS_MAX_CURRENT_15V_LSB: u32 = 10;

/// Width in bits of `max_current_15v_ma`.
pub const SPR_AVS_MAX_CURRENT_15V_WIDTH: u32 = 10;

/// Lowest bit of `max_current_20v_ma` in the data object.
pub const SPR_AVS_MAX_CURRENT_20V_LSB: u32 = 0;

/// Width in bits of `max_current_20v_ma`.
pub const SPR_AVS_MAX_CURRENT_20V_WIDTH: u32 = 10;

/// Voltage in mV at the top of the higher range of an SPR AVS supply
pub const SPR_AVS_HIGH_MV: u16 = 20000;

/// Voltage in mV between the two ranges of an SPR AVS supply
pub const SPR_AVS_MIDDLE_MV: u16 = 15000;

/// Voltage in mV at the bottom of the lower range of an SPR AVS supply
pub const SPR_AVS_LOW_MV: u16 = 9000;

/// Sink PDO
#[derive(Copy, Clone, Debug, PartialEq, Eq)]
pub enum Pdo {
    /// Fixed supply
    Fixed(FixedData),
    /// Battery supply
    Battery(BatteryData),
    /// Variable supply
    Variable(VariableData),
    /// Augmented supply
    Augmented(Apdo),
}

impl Default for Pdo {
    fn default() -> (pdo: Self)
        ensures
            pdo == Pdo::Fixed(FixedData::zero()),
    {
        Pdo::Fixed(FixedData::default())
    }
}

impl Pdo {
    /// The PDO that a data object stands for, by the kind that it names, or
    /// what was expected of an augmented data object whose kind of
    /// augmented supply is none.
    pub open spec fn of_word(value: u32) -> Result<Pdo, ExpectedPdo> {
        match PdoKind::of_word(value) {
            PdoKind::Fixed => Ok(Pdo::Fixed(FixedData::of_word(value))),
            PdoKind::Battery => Ok(Pdo::Battery(BatteryData::of_word(value))),
            PdoKind::Variable => Ok(Pdo::Variable(VariableData::of_word(value))),
            PdoKind::Augmented => match Apdo::of_word(value) {
                Ok(apdo) => Ok(Pdo::Augmented(apdo)),
                Err(_) => Err(
                    ExpectedPdo { kind: PdoKind::Augmented, apdo_kind: None, raw: value },
                ),
            },
        }
    }

    /// The data object of the PDO.
    pub open spec fn word(self) -> u32 {
        match self {
            Pdo::Fixed(data) => data.word(),
            Pdo::Battery(data) => data.word(),
            Pdo::Variable(data) => data.word(),
            Pdo::Augmented(data) => data.word(),
        }
    }
}

impl Common for Pdo {
    open spec fn spec_kind(&self) -> PdoKind {
        match self {
            Pdo::Fixed(_) => PdoKind::Fixed,
            Pdo::Battery(_) => PdoKind::Battery,
            Pdo::Variable(_) => PdoKind::Variable,
            Pdo::Augmented(_) => PdoKind::Augmented,
        }
    }

    open spec fn spec_apdo_kind(&self) -> Option<ApdoKind> {
        match self {
            Pdo::Augmented(Apdo::SprPps(_)) => Some(ApdoKind::SprPps),
            Pdo::Augmented(Apdo::EprAvs(_)) => Some(ApdoKind::EprAvs),
            Pdo::Augmented(Apdo::SprAvs(_)) => Some(ApdoKind::SprAvs),
            _ => None,
        }
    }

    open spec fn spec_dual_role_power(&self) -> bool {
        match self {
            Pdo::Fixed(data) => data.dual_role_power,
            _ => false,
        }
    }

    open spec fn spec_unconstrained_power(&self) -> bool {
        match self {
            Pdo::Fixed(data) => data.unconstrained_power,
            _ => false,
        }
    }

    open spec fn spec_max_voltage_mv(&self) -> u16 {
        match self {
            Pdo::Fixed(data) => data.voltage_mv,
            Pdo::Battery(data) => data.max_voltage_mv,
            Pdo::Variable(data) => data.max_voltage_mv,
            Pdo::Augmented(Apdo::SprPps(data)) => data.max_voltage_mv,
            Pdo::Augmented(Apdo::EprAvs(data)) => data.max_voltage_mv,
            Pdo::Augmented(Apdo::SprAvs(data)) => if data.max_current_20v_ma > 0 {
                SPR_AVS_HIGH_MV
            } else {
                SPR_AVS_MIDDLE_MV
            },
        }
    }

    open spec fn spec_min_voltage_mv(&self) -> u16 {
        match self {
            Pdo::Fixed(data) => data.voltage_mv,
            Pdo::Battery(data) => data.min_voltage_mv,
            Pdo::Variable(data) => data.min_voltage_mv,
            Pdo::Augmented(Apdo::SprPps(data)) => data.min_voltage_mv,
            Pdo::Augmented(Apdo::EprAvs(data)) => data.min_voltage_mv,
            Pdo::Augmented(Apdo::SprAvs(data)) => if data.max_current_20v_ma > 0 {
                SPR_AVS_MIDDLE_MV
            } else {
                SPR_AVS_LOW_MV
            },
        }
    }

    fn kind(&self) -> (kind: PdoKind) {
        match self {
            Pdo::Fixed(_) => PdoKind::Fixed,
            Pdo::Battery(_) => PdoKind::Battery,
            Pdo::Variable(_) => PdoKind::Variable,
            Pdo::Augmented(_) => PdoKind::Augmented,
        }
    }

    fn apdo_kind(&self) -> (kind: Option<ApdoKind>) {
        match self {
            Pdo::Augmented(apdo) => Some(
                match apdo {
                    Apdo::SprPps(_) => ApdoKind::SprPps,
                    Apdo::EprAvs(_) => ApdoKind::EprAvs,
                    Apdo::SprAvs(_) => ApdoKind::SprAvs,
                },
            ),
            _ => None,
        }
    }

    fn dual_role_power(&self) -> (dual: bool) {
        match self {
            Pdo::Fixed(data) => data.dual_role_power,
            _ => false,
        }
    }

    fn unconstrained_power(&self) -> (unconstrained: bool) {
        match self {
            Pdo::Fixed(data) => data.unconstrained_power,
            _ => false,
        }
    }

    fn max_voltage_mv(&self) -> (millivolts: u16) {
        match self {
            Pdo::Fixed(data) => data.voltage_mv,
            Pdo::Battery(data) => data.max_voltage_mv,
            Pdo::Variable(data) => data.max_voltage_mv,
            Pdo::Augmented(apdo) => match apdo {
                Apdo::SprPps(data) => data.max_voltage_mv,
                Apdo::EprAvs(data) => data.max_voltage_mv,
                // 20V maximum only if 15-20V range is supported
                Apdo::SprAvs(data) => {
                    if data.max_current_20v_ma > 0 {
                        SPR_AVS_HIGH_MV
                    } else {
                        SPR_AVS_MIDDLE_MV
                    }
                },
            },
        }
    }

    fn min_voltage_mv(&self) -> (millivolts: u16) {
        match self {
            Pdo::Fixed(data) => data.voltage_mv,
            Pdo::Battery(data) => data.min_voltage_mv,
            Pdo::Variable(data) => data.min_voltage_mv,
            Pdo::Augmented(apdo) => match apdo {
                Apdo::SprPps(data) => data.min_voltage_mv,
                Apdo::EprAvs(data) => data.min_voltage_mv,
                // 15V minimum only if 15-20V range is supported
                Apdo::SprAvs(data) => {
                    if data.max_current_20v_ma > 0 {
                        SPR_AVS_MIDDLE_MV
                    } else {
                        SPR_AVS_LOW_MV
                    }
                },
            },
        }
    }

    proof fn augmented_has_apdo_kind(&self) {
    }
}

impl From<Pdo> for crate::pdo::Pdo {
    fn from(pdo: Pdo) -> (general: crate::pdo::Pdo) {
        crate::pdo::Pdo::Sink(pdo)
    }
}

impl FromSpecImpl<Pdo> for crate::pdo::Pdo {
    open spec fn obeys_from_spec() -> bool {
        true
    }

    open spec fn from_spec(pdo: Pdo) -> crate::pdo::Pdo {
        crate::pdo::Pdo::Sink(pdo)
    }
}

impl RoleCommon for Pdo {

}

impl TryFrom<u32> for Pdo {
    type Error = ExpectedPdo;

    fn try_from(value: u32) -> (pdo: Result<Self, ExpectedPdo>) {
        match PdoKind::from(value) {
            PdoKind::Fixed => Ok(Pdo::Fixed(FixedData::from_word(value))),
            PdoKind::Battery => Ok(Pdo::Battery(BatteryData::from_word(value))),
            PdoKind::Variable => Ok(Pdo::Variable(VariableData::from_word(value))),
            PdoKind::Augmented => match Apdo::try_from(value) {
                Ok(apdo) => Ok(Pdo::Augmented(apdo)),
                Err(_) => Err(
                    ExpectedPdo { kind: PdoKind::Augmented, apdo_kind: None, raw: value },
                ),
            },
        }
    }
}

impl TryFromSpecImpl<u32> for Pdo {
    open spec fn obeys_try_from_spec() -> bool {
        true
    }

    open spec fn try_from_spec(value: u32) -> Result<Self, ExpectedPdo> {
        Pdo::of_word(value)
    }
}

impl From<Pdo> for u32 {
    fn from(value: Pdo) -> (word: u32) {
        match value {
            Pdo::Fixed(data) => u32::from(data),
            Pdo::Battery(data) => u32::from(data),
            Pdo::Variable(data) => u32::from(data),
            Pdo::Augmented(data) => u32::from(data),
        }
    }
}

impl FromSpecImpl<Pdo> for u32 {
    open spec fn obeys_from_spec() -> bool {
        true
    }

    open spec fn from_spec(value: Pdo) -> u32 {
        value.word()
    }
}

/// Fast role swap required current
#[derive(Copy, Clone, Debug, PartialEq, Eq)]
pub enum FrsRequiredCurrent {
    /// Fast role swap not supported
    NotSupported,
    /// Default USB power
    Default,
    /// 1.5 A at 5 V
    Current1A5,
    /// 3 A at 5 V
    Current3A,
}

impl FrsRequiredCurrent {
    /// The number that stands for the value in a data object.
    pub open spec fn number(self) -> u8 {
        match self {
            FrsRequiredCurrent::NotSupported => 0,
            FrsRequiredCurrent::Default => 1,
            FrsRequiredCurrent::Current1A5 => 2,
            FrsRequiredCurrent::Current3A => 3,
        }
    }

    /// The value that the low two bits of a number stand for.
    pub open spec fn of_number(value: u8) -> FrsRequiredCurrent {
        let low = value % 4;
        if low == 0 {
            FrsRequiredCurrent::NotSupported
        } else if low == 1 {
            FrsRequiredCurrent::Default
        } else if low == 2 {
            FrsRequiredCurrent::Current1A5
        } else {
            FrsRequiredCurrent::Current3A
        }
    }
}

impl From<u8> for FrsRequiredCurrent {
    fn from(value: u8) -> (converted: Self) {
        match value % 4 {
            0 => FrsRequiredCurrent::NotSupported,
            1 => FrsRequiredCurrent::Default,
            2 => FrsRequiredCurrent::Current1A5,
            _ => FrsRequiredCurrent::Current3A,
        }
    }
}

impl FromSpecImpl<u8> for FrsRequiredCurrent {
    open spec fn obeys_from_spec() -> bool {
        true
    }

    open spec fn from_spec(value: u8) -> Self {
        FrsRequiredCurrent::of_number(value)
    }
}

impl From<FrsRequiredCurrent> for u8 {
    fn from(value: FrsRequiredCurrent) -> (number: u8) {
        match value {
            FrsRequiredCurrent::NotSupported => 0,
            FrsRequiredCurrent::Default => 1,
            FrsRequiredCurrent::Current1A5 => 2,
            FrsRequiredCurrent::Current3A => 3,
        }
    }
}

impl FromSpecImpl<FrsRequiredCurrent> for u8 {
    open spec fn obeys_from_spec() -> bool {
        true
    }

    open spec fn from_spec(value: FrsRequiredCurrent) -> u8 {
        value.number()
    }
}

impl FrsRequiredCurrent {
    /// The value that stands first.
    pub open spec fn first() -> FrsRequiredCurrent {
        FrsRequiredCurrent::NotSupported
    }
}

impl Default for FrsRequiredCurrent {
    fn default() -> (value: Self)
        ensures
            value == FrsRequiredCurrent::first(),
    {
        FrsRequiredCurrent::NotSupported
    }
}

/// Fixed supply sink PDO
#[derive(Copy, Clone, Debug, PartialEq, Eq)]
pub struct FixedData {
    /// Dual role power
    pub dual_role_power: bool,
    /// Higher capability
    pub higher_capability: bool,
    /// Unconstrained power
    pub unconstrained_power: bool,
    /// USB communications capable
    pub usb_comms_capable: bool,
    /// Dual role data
    pub dual_role_data: bool,
    /// Fast role swap required current
    pub frs_required_current: FrsRequiredCurrent,
    /// Voltage in mV
    pub voltage_mv: u16,
    /// Operational current in mA
    pub operational_current_ma: u16,
}

impl FixedData {
    /// The data that a data object holds in its fields.
    pub open spec fn of_word(word: u32) -> FixedData {
        FixedData {
            dual_role_power: bits::flag(word, FIXED_DUAL_ROLE_POWER_BIT),
            higher_capability: bits::flag(word, FIXED_HIGHER_CAPABILITY_BIT),
            unconstrained_power: bits::flag(word, FIXED_UNCONSTRAINED_POWER_BIT),
            usb_comms_capable: bits::flag(word, FIXED_USB_COMMS_CAPABLE_BIT),
            dual_role_data: bits::flag(word, FIXED_DUAL_ROLE_DATA_BIT),
            frs_required_current: FrsRequiredCurrent::of_number(
                bits::field(
                    word,
                    FIXED_FRS_REQUIRED_CURRENT_LSB,
                    FIXED_FRS_REQUIRED_CURRENT_WIDTH,
                ) as u8,
            ),
            voltage_mv: (bits::field(word, FIXED_VOLTAGE_LSB, FIXED_VOLTAGE_WIDTH)
                * MV50_UNIT) as u16,
            operational_current_ma: (bits::field(
                word,
                FIXED_OPERATIONAL_CURRENT_LSB,
                FIXED_OPERATIONAL_CURRENT_WIDTH,
            )
                * MA10_UNIT) as u16,
        }
    }

    /// The data object: each field written into a zero word, a quantity in
    /// whole units, a value beyond its field's width cut to the width.
    pub open spec fn word(self) -> u32 {
        let w = 0u32;
        let w = bits::with_field(w, KIND_LSB, KIND_WIDTH, PdoKind::Fixed.number() as u32);
        let w = bits::with_flag(w, FIXED_DUAL_ROLE_POWER_BIT, self.dual_role_power);
        let w = bits::with_flag(w, FIXED_HIGHER_CAPABILITY_BIT, self.higher_capability);
        let w = bits::with_flag(w, FIXED_UNCONSTRAINED_POWER_BIT, self.unconstrained_power);
        let w = bits::with_flag(w, FIXED_USB_COMMS_CAPABLE_BIT, self.usb_comms_capable);
        let w = bits::with_flag(w, FIXED_DUAL_ROLE_DATA_BIT, self.dual_role_data);
        let w = bits::with_field(
            w,
            FIXED_FRS_REQUIRED_CURRENT_LSB,
            FIXED_FRS_REQUIRED_CURRENT_WIDTH,
            self.frs_required_current.number() as u32,
        );
        let w = bits::with_field(
            w,
            FIXED_VOLTAGE_LSB,
            FIXED_VOLTAGE_WIDTH,
            (self.voltage_mv / MV50_UNIT) as u32,
        );
        let w = bits::with_field(
            w,
            FIXED_OPERATIONAL_CURRENT_LSB,
            FIXED_OPERATIONAL_CURRENT_WIDTH,
            (self.operational_current_ma / MA10_UNIT) as u32,
        );
        w
    }

    /// Reads the data out of the fields of a data object, whatever its kind.
    pub fn from_word(word: u32) -> (data: Self)
        ensures
            data == FixedData::of_word(word),
    {
        proof {
            bits::mask_values();
            bits::field_is_bounded(word, FIXED_VOLTAGE_LSB, FIXED_VOLTAGE_WIDTH);
            bits::field_is_bounded(
                word,
                FIXED_OPERATIONAL_CURRENT_LSB,
                FIXED_OPERATIONAL_CURRENT_WIDTH,
            );
        }
        FixedData {
            dual_role_power: bits::get_flag(word, FIXED_DUAL_ROLE_POWER_BIT),
            higher_capability: bits::get_flag(word, FIXED_HIGHER_CAPABILITY_BIT),
            unconstrained_power: bits::get_flag(word, FIXED_UNCONSTRAINED_POWER_BIT),
            usb_comms_capable: bits::get_flag(word, FIXED_USB_COMMS_CAPABLE_BIT),
            dual_role_data: bits::get_flag(word, FIXED_DUAL_ROLE_DATA_BIT),
            frs_required_current: FrsRequiredCurrent::from(
                bits::get_field_u8(
                    word,
                    FIXED_FRS_REQUIRED_CURRENT_LSB,
                    FIXED_FRS_REQUIRED_CURRENT_WIDTH,
                ),
            ),
            voltage_mv: bits::get_field_u16(word, FIXED_VOLTAGE_LSB, FIXED_VOLTAGE_WIDTH)
                * MV50_UNIT,
            operational_current_ma: bits::get_field_u16(
                word,
                FIXED_OPERATIONAL_CURRENT_LSB,
                FIXED_OPERATIONAL_CURRENT_WIDTH,
            )
                * MA10_UNIT,
        }
    }
}

impl From<FixedData> for u32 {
    fn from(data: FixedData) -> (word: u32) {
        let w: u32 = 0;
        let w = bits::set_field(w, KIND_LSB, KIND_WIDTH, u8::from(PdoKind::Fixed) as u32);
        let w = bits::set_flag(w, FIXED_DUAL_ROLE_POWER_BIT, data.dual_role_power);
        let w = bits::set_flag(w, FIXED_HIGHER_CAPABILITY_BIT, data.higher_capability);
        let w = bits::set_flag(w, FIXED_UNCONSTRAINED_POWER_BIT, data.unconstrained_power);
        let w = bits::set_flag(w, FIXED_USB_COMMS_CAPABLE_BIT, data.usb_comms_capable);
        let w = bits::set_flag(w, FIXED_DUAL_ROLE_DATA_BIT, data.dual_role_data);
        let w = bits::set_field(
            w,
            FIXED_FRS_REQUIRED_CURRENT_LSB,
            FIXED_FRS_REQUIRED_CURRENT_WIDTH,
            u8::from(data.frs_required_current) as u32,
        );
        let w = bits::set_field(
            w,
            FIXED_VOLTAGE_LSB,
            FIXED_VOLTAGE_WIDTH,
            (data.voltage_mv / MV50_UNIT) as u32,
        );
        let w = bits::set_field(
            w,
            FIXED_OPERATIONAL_CURRENT_LSB,
            FIXED_OPERATIONAL_CURRENT_WIDTH,
            (data.operational_current_ma / MA10_UNIT) as u32,
        );
        w
    }
}

impl FromSpecImpl<FixedData> for u32 {
    open spec fn obeys_from_spec() -> bool {
        true
    }

    open spec fn from_spec(data: FixedData) -> u32 {
        data.word()
    }
}

impl FixedData {
    /// The data with every field zero.
    pub open spec fn zero() -> FixedData {
        FixedData {
            dual_role_power: false,
            higher_capability: false,
            unconstrained_power: false,
            usb_comms_capable: false,
            dual_role_data: false,
            frs_required_current: FrsRequiredCurrent::first(),
            voltage_mv: 0,
            operational_current_ma: 0,
        }
    }
}

impl Default for FixedData {
    fn default() -> (data: Self)
        ensures
            data == FixedData::zero(),
    {
        FixedData {
            dual_role_power: false,
            higher_capability: false,
            unconstrained_power: false,
            usb_comms_capable: false,
            dual_role_data: false,
            frs_required_current: FrsRequiredCurrent::default(),
            voltage_mv: 0,
            operational_current_ma: 0,
        }
    }
}

impl TryFrom<u32> for FixedData {
    type Error = ExpectedPdo;

    fn try_from(value: u32) -> (data: Result<Self, ExpectedPdo>) {
        if matches!(PdoKind::from(value), PdoKind::Fixed) {
            Ok(FixedData::from_word(value))
        } else {
            Err(ExpectedPdo { kind: PdoKind::Fixed, apdo_kind: None, raw: value })
        }
    }
}

impl TryFromSpecImpl<u32> for FixedData {
    open spec fn obeys_try_from_spec() -> bool {
        true
    }

    open spec fn try_from_spec(value: u32) -> Result<Self, ExpectedPdo> {
        if PdoKind::of_word(value) == PdoKind::Fixed {
            Ok(FixedData::of_word(value))
        } else {
            Err(ExpectedPdo { kind: PdoKind::Fixed, apdo_kind: None, raw: value })
        }
    }
}

/// Battery supply sink PDO
#[derive(Copy, Clone, Debug, PartialEq, Eq)]
pub struct BatteryData {
    /// Maximum voltage in mV
    pub max_voltage_mv: u16,
    /// Minimum voltage in mV
    pub min_voltage_mv: u16,
    /// Operational power in mW
    pub operational_power_mw: u32,
}

impl BatteryData {
    /// The data that a data object holds in its fields.
    pub open spec fn of_word(word: u32) -> BatteryData {
        BatteryData {
            max_voltage_mv: (bits::field(word, BATTERY_MAX_VOLTAGE_LSB, BATTERY_MAX_VOLTAGE_WIDTH)
                * MV50_UNIT) as u16,
            min_voltage_mv: (bits::field(word, BATTERY_MIN_VOLTAGE_LSB, BATTERY_MIN_VOLTAGE_WIDTH)
                * MV50_UNIT) as u16,
            operational_power_mw: (bits::field(word, BATTERY_POWER_LSB, BATTERY_POWER_WIDTH)
                * MW250_UNIT) as u32,
        }
    }

    /// The data object: each field written into a zero word, a quantity in
    /// whole units, a value beyond its field's width cut to the width.
    pub open spec fn word(self) -> u32 {
        let w = 0u32;
        let w = bits::with_field(w, KIND_LSB, KIND_WIDTH, PdoKind::Battery.number() as u32);
        let w = bits::with_field(
            w,
            BATTERY_MAX_VOLTAGE_LSB,
            BATTERY_MAX_VOLTAGE_WIDTH,
            (self.max_voltage_mv / MV50_UNIT) as u32,
        );
        let w = bits::with_field(
            w,
            BATTERY_MIN_VOLTAGE_LSB,
            BATTERY_MIN_VOLTAGE_WIDTH,
            (self.min_voltage_mv / MV50_UNIT) as u32,
        );
        let w = bits::with_field(
            w,
            BATTERY_POWER_LSB,
            BATTERY_POWER_WIDTH,
            self.operational_power_mw / MW250_UNIT,
        );
        w
    }

    /// Reads the data out of the fields of a data object, whatever its kind.
    pub fn from_word(word: u32) -> (data: Self)
        ensures
            data == BatteryData::of_word(word),
    {
        proof {
            bits::mask_values();
            bits::field_is_bounded(word, BATTERY_MAX_VOLTAGE_LSB, BATTERY_MAX_VOLTAGE_WIDTH);
            bits::field_is_bounded(word, BATTERY_MIN_VOLTAGE_LSB, BATTERY_MIN_VOLTAGE_WIDTH);
            bits::field_is_bounded(word, BATTERY_POWER_LSB, BATTERY_POWER_WIDTH);
        }
        BatteryData {
            max_voltage_mv: bits::get_field_u16(
                word,
                BATTERY_MAX_VOLTAGE_LSB,
                BATTERY_MAX_VOLTAGE_WIDTH,
            )
                * MV50_UNIT,
            min_voltage_mv: bits::get_field_u16(
                word,
                BATTERY_MIN_VOLTAGE_LSB,
                BATTERY_MIN_VOLTAGE_WIDTH,
            )
                * MV50_UNIT,
            operational_power_mw: bits::get_field(word, BATTERY_POWER_LSB, BATTERY_POWER_WIDTH)
                * MW250_UNIT,
        }
    }
}

impl From<BatteryData> for u32 {
    fn from(data: BatteryData) -> (word: u32) {
        let w: u32 = 0;
        let w = bits::set_field(w, KIND_LSB, KIND_WIDTH, u8::from(PdoKind::Battery) as u32);
        let w = bits::set_field(
            w,
            BATTERY_MAX_VOLTAGE_LSB,
            BATTERY_MAX_VOLTAGE_WIDTH,
            (data.max_voltage_mv / MV50_UNIT) as u32,
        );
        let w = bits::set_field(
            w,
            BATTERY_MIN_VOLTAGE_LSB,
            BATTERY_MIN_VOLTAGE_WIDTH,
            (data.min_voltage_mv / MV50_UNIT) as u32,
        );
        let w = bits::set_field(
            w,
            BATTERY_POWER_LSB,
            BATTERY_POWER_WIDTH,
            data.operational_power_mw / MW250_UNIT,
        );
        w
    }
}

impl FromSpecImpl<BatteryData> for u32 {
    open spec fn obeys_from_spec() -> bool {
        true
    }

    open spec fn from_spec(data: BatteryData) -> u32 {
        data.word()
    }
}

impl BatteryData {
    /// The data with every field zero.
    pub open spec fn zero() -> BatteryData {
        BatteryData {
            max_voltage_mv: 0,
            min_voltage_mv: 0,
            operational_power_mw: 0,
        }
    }
}

impl Default for BatteryData {
    fn default() -> (data: Self)
        ensures
            data == BatteryData::zero(),
    {
        BatteryData {
            max_voltage_mv: 0,
            min_voltage_mv: 0,
            operational_power_mw: 0,
        }
    }
}

impl TryFrom<u32> for BatteryData {
    type Error = ExpectedPdo;

    fn try_from(value: u32) -> (data: Result<Self, ExpectedPdo>) {
        if matches!(PdoKind::from(value), PdoKind::Battery) {
            Ok(BatteryData::from_word(value))
        } else {
            Err(ExpectedPdo { kind: PdoKind::Battery, apdo_kind: None, raw: value })
        }
    }
}

impl TryFromSpecImpl<u32> for BatteryData {
    open spec fn obeys_try_from_spec() -> bool {
        true
    }

    open spec fn try_from_spec(value: u32) -> Result<Self, ExpectedPdo> {
        if PdoKind::of_word(value) == PdoKind::Battery {
            Ok(BatteryData::of_word(value))
        } else {
            Err(ExpectedPdo { kind: PdoKind::Battery, apdo_kind: None, raw: value })
        }
    }
}

/// Variable supply sink PDO
#[derive(Copy, Clone, Debug, PartialEq, Eq)]
pub struct VariableData {
    /// Maximum voltage in mV
    pub max_voltage_mv: u16,
    /// Minimum voltage in mV
    pub min_voltage_mv: u16,
    /// Operational current in mA
    pub operational_current_ma: u16,
}

impl VariableData {
    /// The data that a data object holds in its fields.
    pub open spec fn of_word(word: u32) -> VariableData {
        VariableData {
            max_voltage_mv: (bits::field(word, VARIABLE_MAX_VOLTAGE_LSB, VARIABLE_MAX_VOLTAGE_WIDTH)
                * MV50_UNIT) as u16,
            min_voltage_mv: (bits::field(word, VARIABLE_MIN_VOLTAGE_LSB, VARIABLE_MIN_VOLTAGE_WIDTH)
                * MV50_UNIT) as u16,
            operational_current_ma: (bits::field(word, VARIABLE_CURRENT_LSB, VARIABLE_CURRENT_WIDTH)
                * MA10_UNIT) as u16,
        }
    }

    /// The data object: each field written into a zero word, a quantity in
    /// whole units, a value beyond its field's width cut to the width.
    pub open spec fn word(self) -> u32 {
        let w = 0u32;
        let w = bits::with_field(w, KIND_LSB, KIND_WIDTH, PdoKind::Variable.number() as u32);
        let w = bits::with_field(
            w,
            VARIABLE_MAX_VOLTAGE_LSB,
            VARIABLE_MAX_VOLTAGE_WIDTH,
            (self.max_voltage_mv / MV50_UNIT) as u32,
        );
        let w = bits::with_field(
            w,
            VARIABLE_MIN_VOLTAGE_LSB,
            VARIABLE_MIN_VOLTAGE_WIDTH,
            (self.min_voltage_mv / MV50_UNIT) as u32,
        );
        let w = bits::with_field(
            w,
            VARIABLE_CURRENT_LSB,
            VARIABLE_CURRENT_WIDTH,
            (self.operational_current_ma / MA10_UNIT) as u32,
        );
        w
    }

    /// Reads the data out of the fields of a data object, whatever its kind.
    pub fn from_word(word: u32) -> (data: Self)
        ensures
            data == VariableData::of_word(word),
    {
        proof {
            bits::mask_values();
            bits::field_is_bounded(word, VARIABLE_MAX_VOLTAGE_LSB, VARIABLE_MAX_VOLTAGE_WIDTH);
            bits::field_is_bounded(word, VARIABLE_MIN_VOLTAGE_LSB, VARIABLE_MIN_VOLTAGE_WIDTH);
            bits::field_is_bounded(word, VARIABLE_CURRENT_LSB, VARIABLE_CURRENT_WIDTH);
        }
        VariableData {
            max_voltage_mv: bits::get_field_u16(
                word,
                VARIABLE_MAX_VOLTAGE_LSB,
                VARIABLE_MAX_VOLTAGE_WIDTH,
            )
                * MV50_UNIT,
            min_voltage_mv: bits::get_field_u16(
                word,
                VARIABLE_MIN_VOLTAGE_LSB,
                VARIABLE_MIN_VOLTAGE_WIDTH,
            )
                * MV50_UNIT,
            operational_current_ma: bits::get_field_u16(
                word,
                VARIABLE_CURRENT_LSB,
                VARIABLE_CURRENT_WIDTH,
            )
                * MA10_UNIT,
        }
    }
}

impl From<VariableData> for u32 {
    fn from(data: VariableData) -> (word: u32) {
        let w: u32 = 0;
        let w = bits::set_field(w, KIND_LSB, KIND_WIDTH, u8::from(PdoKind::Variable) as u32);
        let w = bits::set_field(
            w,
            VARIABLE_MAX_VOLTAGE_LSB,
            VARIABLE_MAX_VOLTAGE_WIDTH,
            (data.max_voltage_mv / MV50_UNIT) as u32,
        );
        let w = bits::set_field(
            w,
            VARIABLE_MIN_VOLTAGE_LSB,
            VARIABLE_MIN_VOLTAGE_WIDTH,
            (data.min_voltage_mv / MV50_UNIT) as u32,
        );
        let w = bits::set_field(
            w,
            VARIABLE_CURRENT_LSB,
            VARIABLE_CURRENT_WIDTH,
            (data.operational_current_ma / MA10_UNIT) as u32,
        );
        w
    }
}

impl FromSpecImpl<VariableData> for u32 {
    open spec fn obeys_from_spec() -> bool {
        true
    }

    open spec fn from_spec(data: VariableData) -> u32 {
        data.word()
    }
}

impl VariableData {
    /// The data with every field zero.
    pub open spec fn zero() -> VariableData {
        VariableData {
            max_voltage_mv: 0,
            min_voltage_mv: 0,
            operational_current_ma: 0,
        }
    }
}

impl Default for VariableData {
    fn default() -> (data: Self)
        ensures
            data == VariableData::zero(),
    {
        VariableData {
            max_voltage_mv: 0,
            min_voltage_mv: 0,
            operational_current_ma: 0,
        }
    }
}

impl TryFrom<u32> for VariableData {
    type Error = ExpectedPdo;

    fn try_from(value: u32) -> (data: Result<Self, ExpectedPdo>) {
        if matches!(PdoKind::from(value), PdoKind::Variable) {
            Ok(VariableData::from_word(value))
        } else {
            Err(ExpectedPdo { kind: PdoKind::Variable, apdo_kind: None, raw: value })
        }
    }
}

impl TryFromSpecImpl<u32> for VariableData {
    open spec fn obeys_try_from_spec() -> bool {
        true
    }

    open spec fn try_from_spec(value: u32) -> Result<Self, ExpectedPdo> {
        if PdoKind::of_word(value) == PdoKind::Variable {
            Ok(VariableData::of_word(value))
        } else {
            Err(ExpectedPdo { kind: PdoKind::Variable, apdo_kind: None, raw: value })
        }
    }
}

/// Augmented sink PDO
#[derive(Copy, Clone, Debug, PartialEq, Eq)]
pub enum Apdo {
    /// SPR programmable power supply
    SprPps(SprPpsData),
    /// EPR adjustable voltage supply
    EprAvs(EprAvsData),
    /// SPR adjustable voltage supply
    SprAvs(SprAvsData),
}

impl Apdo {
    /// The augmented PDO that a data object stands for, by the kind of
    /// augmented supply that it names, or what was expected of it: a kind
    /// of augmented supply, if it names none, and else that it be augmented.
    pub open spec fn of_word(value: u32) -> Result<Apdo, ExpectedPdo> {
        match ApdoKind::of_word(value) {
            None => Err(ExpectedPdo { kind: PdoKind::Augmented, apdo_kind: None, raw: value }),
            Some(kind) => if PdoKind::of_word(value) == PdoKind::Augmented {
                Ok(
                    match kind {
                        ApdoKind::SprPps => Apdo::SprPps(SprPpsData::of_word(value)),
                        ApdoKind::EprAvs => Apdo::EprAvs(EprAvsData::of_word(value)),
                        ApdoKind::SprAvs => Apdo::SprAvs(SprAvsData::of_word(value)),
                    },
                )
            } else {
                Err(ExpectedPdo { kind: PdoKind::Augmented, apdo_kind: Some(kind), raw: value })
            },
        }
    }

    /// The data object of the augmented PDO.
    pub open spec fn word(self) -> u32 {
        match self {
            Apdo::SprPps(data) => data.word(),
            Apdo::EprAvs(data) => data.word(),
            Apdo::SprAvs(data) => data.word(),
        }
    }
}

impl TryFrom<u32> for Apdo {
    type Error = ExpectedPdo;

    fn try_from(value: u32) -> (apdo: Result<Self, ExpectedPdo>) {
        let kind = match ApdoKind::try_from(value) {
            Ok(kind) => kind,
            Err(_) => {
                return Err(
                    ExpectedPdo { kind: PdoKind::Augmented, apdo_kind: None, raw: value },
                );
            },
        };
        match kind {
            ApdoKind::SprPps => match SprPpsData::try_from(value) {
                Ok(data) => Ok(Apdo::SprPps(data)),
                Err(expected) => Err(expected),
            },
            ApdoKind::EprAvs => match EprAvsData::try_from(value) {
                Ok(data) => Ok(Apdo::EprAvs(data)),
                Err(expected) => Err(expected),
            },
            ApdoKind::SprAvs => match SprAvsData::try_from(value) {
                Ok(data) => Ok(Apdo::SprAvs(data)),
                Err(expected) => Err(expected),
            },
        }
    }
}

impl TryFromSpecImpl<u32> for Apdo {
    open spec fn obeys_try_from_spec() -> bool {
        true
    }

    open spec fn try_from_spec(value: u32) -> Result<Self, ExpectedPdo> {
        Apdo::of_word(value)
    }
}

impl From<Apdo> for u32 {
    fn from(data: Apdo) -> (word: u32) {
        match data {
            Apdo::SprPps(data) => u32::from(data),
            Apdo::EprAvs(data) => u32::from(data),
            Apdo::SprAvs(data) => u32::from(data),
        }
    }
}

impl FromSpecImpl<Apdo> for u32 {
    open spec fn obeys_from_spec() -> bool {
        true
    }

    open spec fn from_spec(data: Apdo) -> u32 {
        data.word()
    }
}

impl Default for Apdo {
    fn default() -> (apdo: Self)
        ensures
            apdo == Apdo::SprPps(SprPpsData::zero()),
    {
        Apdo::SprPps(SprPpsData::default())
    }
}

/// SPR programmable power supply sink APDO
#[derive(Copy, Clone, Debug, PartialEq, Eq)]
pub struct SprPpsData {
    /// Maximum voltage in mV
    pub max_voltage_mv: u16,
    /// Minimum voltage in mV
    pub min_voltage_mv: u16,
    /// Maximum current in mA
    pub max_current_ma: u16,
}

impl SprPpsData {
    /// The data that a data object holds in its fields.
    pub open spec fn of_word(word: u32) -> SprPpsData {
        SprPpsData {
            max_voltage_mv: (bits::field(word, SPR_PPS_MAX_VOLTAGE_LSB, SPR_PPS_MAX_VOLTAGE_WIDTH)
                * MV100_UNIT) as u16,
            min_voltage_mv: (bits::field(word, SPR_PPS_MIN_VOLTAGE_LSB, SPR_PPS_MIN_VOLTAGE_WIDTH)
                * MV100_UNIT) as u16,
            max_current_ma: (bits::field(word, SPR_PPS_MAX_CURRENT_LSB, SPR_PPS_MAX_CURRENT_WIDTH)
                * MA50_UNIT) as u16,
        }
    }

    /// The data object: each field written into a zero word, a quantity in
    /// whole units, a value beyond its field's width cut to the width.
    pub open spec fn word(self) -> u32 {
        let w = 0u32;
        let w = bits::with_field(w, KIND_LSB, KIND_WIDTH, PdoKind::Augmented.number() as u32);
        let w = bits::with_field(
            w,
            APDO_KIND_LSB,
            APDO_KIND_WIDTH,
            ApdoKind::SprPps.number() as u32,
        );
        let w = bits::with_field(
            w,
            SPR_PPS_MAX_VOLTAGE_LSB,
            SPR_PPS_MAX_VOLTAGE_WIDTH,
            (self.max_voltage_mv / MV100_UNIT) as u32,
        );
        let w = bits::with_field(
            w,
            SPR_PPS_MIN_VOLTAGE_LSB,
            SPR_PPS_MIN_VOLTAGE_WIDTH,
            (self.min_voltage_mv / MV100_UNIT) as u32,
        );
        let w = bits::with_field(
            w,
            SPR_PPS_MAX_CURRENT_LSB,
            SPR_PPS_MAX_CURRENT_WIDTH,
            (self.max_current_ma / MA50_UNIT) as u32,
        );
        w
    }

    /// Reads the data out of the fields of a data object, whatever its kind.
    pub fn from_word(word: u32) -> (data: Self)
        ensures
            data == SprPpsData::of_word(word),
    {
        proof {
            bits::mask_values();
            bits::field_is_bounded(word, SPR_PPS_MAX_VOLTAGE_LSB, SPR_PPS_MAX_VOLTAGE_WIDTH);
            bits::field_is_bounded(word, SPR_PPS_MIN_VOLTAGE_LSB, SPR_PPS_MIN_VOLTAGE_WIDTH);
            bits::field_is_bounded(word, SPR_PPS_MAX_CURRENT_LSB, SPR_PPS_MAX_CURRENT_WIDTH);
        }
        SprPpsData {
            max_voltage_mv: bits::get_field_u16(
                word,
                SPR_PPS_MAX_VOLTAGE_LSB,
                SPR_PPS_MAX_VOLTAGE_WIDTH,
            )
                * MV100_UNIT,
            min_voltage_mv: bits::get_field_u16(
                word,
                SPR_PPS_MIN_VOLTAGE_LSB,
                SPR_PPS_MIN_VOLTAGE_WIDTH,
            )
                * MV100_UNIT,
            max_current_ma: bits::get_field_u16(
                word,
                SPR_PPS_MAX_CURRENT_LSB,
                SPR_PPS_MAX_CURRENT_WIDTH,
            )
                * MA50_UNIT,
        }
    }
}

impl From<SprPpsData> for u32 {
    fn from(data: SprPpsData) -> (word: u32) {
        let w: u32 = 0;
        let w = bits::set_field(w, KIND_LSB, KIND_WIDTH, u8::from(PdoKind::Augmented) as u32);
        let w = bits::set_field(
            w,
            APDO_KIND_LSB,
            APDO_KIND_WIDTH,
            u8::from(ApdoKind::SprPps) as u32,
        );
        let w = bits::set_field(
            w,
            SPR_PPS_MAX_VOLTAGE_LSB,
            SPR_PPS_MAX_VOLTAGE_WIDTH,
            (data.max_voltage_mv / MV100_UNIT) as u32,
        );
        let w = bits::set_field(
            w,
            SPR_PPS_MIN_VOLTAGE_LSB,
            SPR_PPS_MIN_VOLTAGE_WIDTH,
            (data.min_voltage_mv / MV100_UNIT) as u32,
        );
        let w = bits::set_field(
            w,
            SPR_PPS_MAX_CURRENT_LSB,
            SPR_PPS_MAX_CURRENT_WIDTH,
            (data.max_current_ma / MA50_UNIT) as u32,
        );
        w
    }
}

impl FromSpecImpl<SprPpsData> for u32 {
    open spec fn obeys_from_spec() -> bool {
        true
    }

    open spec fn from_spec(data: SprPpsData) -> u32 {
        data.word()
    }
}

impl SprPpsData {
    /// The data with every field zero.
    pub open spec fn zero() -> SprPpsData {
        SprPpsData {
            max_voltage_mv: 0,
            min_voltage_mv: 0,
            max_current_ma: 0,
        }
    }
}

impl Default for SprPpsData {
    fn default() -> (data: Self)
        ensures
            data == SprPpsData::zero(),
    {
        SprPpsData {
            max_voltage_mv: 0,
            min_voltage_mv: 0,
            max_current_ma: 0,
        }
    }
}

impl TryFrom<u32> for SprPpsData {
    type Error = ExpectedPdo;

    fn try_from(value: u32) -> (data: Result<Self, ExpectedPdo>) {
        if matches!(PdoKind::from(value), PdoKind::Augmented) && matches!(
            ApdoKind::try_from(value),
            Ok(ApdoKind::SprPps),
        ) {
            Ok(SprPpsData::from_word(value))
        } else {
            Err(
                ExpectedPdo {
                    kind: PdoKind::Augmented,
                    apdo_kind: Some(ApdoKind::SprPps),
                    raw: value,
                },
            )
        }
    }
}

impl TryFromSpecImpl<u32> for SprPpsData {
    open spec fn obeys_try_from_spec() -> bool {
        true
    }

    open spec fn try_from_spec(value: u32) -> Result<Self, ExpectedPdo> {
        if PdoKind::of_word(value) == PdoKind::Augmented && ApdoKind::of_word(value) == Some(
            ApdoKind::SprPps,
        ) {
            Ok(SprPpsData::of_word(value))
        } else {
            Err(
                ExpectedPdo {
                    kind: PdoKind::Augmented,
                    apdo_kind: Some(ApdoKind::SprPps),
                    raw: value,
                },
            )
        }
    }
}

/// EPR adjustable voltage supply sink APDO
#[derive(Copy, Clone, Debug, PartialEq, Eq)]
pub struct EprAvsData {
    /// Maximum voltage in mV
    pub max_voltage_mv: u16,
    /// Minimum voltage in mV
    pub min_voltage_mv: u16,
    /// PD power in mW
    pub pdp_mw: u32,
}

impl EprAvsData {
    /// The data that a data object holds in its fields.
    pub open spec fn of_word(word: u32) -> EprAvsData {
        EprAvsData {
            max_voltage_mv: (bits::field(word, EPR_AVS_MAX_VOLTAGE_LSB, EPR_AVS_MAX_VOLTAGE_WIDTH)
                * MV100_UNIT) as u16,
            min_voltage_mv: (bits::field(word, EPR_AVS_MIN_VOLTAGE_LSB, EPR_AVS_MIN_VOLTAGE_WIDTH)
                * MV100_UNIT) as u16,
            pdp_mw: (bits::field(word, EPR_AVS_PDP_LSB, EPR_AVS_PDP_WIDTH) * MW1000_UNIT) as u32,
        }
    }

    /// The data object: each field written into a zero word, a quantity in
    /// whole units, a value beyond its field's width cut to the width.
    pub open spec fn word(self) -> u32 {
        let w = 0u32;
        let w = bits::with_field(w, KIND_LSB, KIND_WIDTH, PdoKind::Augmented.number() as u32);
        let w = bits::with_field(
            w,
            APDO_KIND_LSB,
            APDO_KIND_WIDTH,
            ApdoKind::EprAvs.number() as u32,
        );
        let w = bits::with_field(
            w,
            EPR_AVS_MAX_VOLTAGE_LSB,
            EPR_AVS_MAX_VOLTAGE_WIDTH,
            (self.max_voltage_mv / MV100_UNIT) as u32,
        );
        let w = bits::with_field(
            w,
            EPR_AVS_MIN_VOLTAGE_LSB,
            EPR_AVS_MIN_VOLTAGE_WIDTH,
            (self.min_voltage_mv / MV100_UNIT) as u32,
        );
        let w = bits::with_field(w, EPR_AVS_PDP_LSB, EPR_AVS_PDP_WIDTH, self.pdp_mw / MW1000_UNIT);
        w
    }

    /// Reads the data out of the fields of a data object, whatever its kind.
    pub fn from_word(word: u32) -> (data: Self)
        ensures
            data == EprAvsData::of_word(word),
    {
        proof {
            bits::mask_values();
            bits::field_is_bounded(word, EPR_AVS_MAX_VOLTAGE_LSB, EPR_AVS_MAX_VOLTAGE_WIDTH);
            bits::field_is_bounded(word, EPR_AVS_MIN_VOLTAGE_LSB, EPR_AVS_MIN_VOLTAGE_WIDTH);
            bits::field_is_bounded(word, EPR_AVS_PDP_LSB, EPR_AVS_PDP_WIDTH);
        }
        EprAvsData {
            max_voltage_mv: bits::get_field_u16(
                word,
                EPR_AVS_MAX_VOLTAGE_LSB,
                EPR_AVS_MAX_VOLTAGE_WIDTH,
            )
                * MV100_UNIT,
            min_voltage_mv: bits::get_field_u16(
                word,
                EPR_AVS_MIN_VOLTAGE_LSB,
                EPR_AVS_MIN_VOLTAGE_WIDTH,
            )
                * MV100_UNIT,
            pdp_mw: bits::get_field(word, EPR_AVS_PDP_LSB, EPR_AVS_PDP_WIDTH) * MW1000_UNIT,
        }
    }
}

impl From<EprAvsData> for u32 {
    fn from(data: EprAvsData) -> (word: u32) {
        let w: u32 = 0;
        let w = bits::set_field(w, KIND_LSB, KIND_WIDTH, u8::from(PdoKind::Augmented) as u32);
        let w = bits::set_field(
            w,
            APDO_KIND_LSB,
            APDO_KIND_WIDTH,
            u8::from(ApdoKind::EprAvs) as u32,
        );
        let w = bits::set_field(
            w,
            EPR_AVS_MAX_VOLTAGE_LSB,
            EPR_AVS_MAX_VOLTAGE_WIDTH,
            (data.max_voltage_mv / MV100_UNIT) as u32,
        );
        let w = bits::set_field(
            w,
            EPR_AVS_MIN_VOLTAGE_LSB,
            EPR_AVS_MIN_VOLTAGE_WIDTH,
            (data.min_voltage_mv / MV100_UNIT) as u32,
        );
        let w = bits::set_field(w, EPR_AVS_PDP_LSB, EPR_AVS_PDP_WIDTH, data.pdp_mw / MW1000_UNIT);
        w
    }
}

impl FromSpecImpl<EprAvsData> for u32 {
    open spec fn obeys_from_spec() -> bool {
        true
    }

    open spec fn from_spec(data: EprAvsData) -> u32 {
        data.word()
    }
}

impl EprAvsData {
    /// The data with every field zero.
    pub open spec fn zero() -> EprAvsData {
        EprAvsData {
            max_voltage_mv: 0,
            min_voltage_mv: 0,
            pdp_mw: 0,
        }
    }
}

impl Default for EprAvsData {
    fn default() -> (data: Self)
        ensures
            data == EprAvsData::zero(),
    {
        EprAvsData {
            max_voltage_mv: 0,
            min_voltage_mv: 0,
            pdp_mw: 0,
        }
    }
}

impl TryFrom<u32> for EprAvsData {
    type Error = ExpectedPdo;

    fn try_from(value: u32) -> (data: Result<Self, ExpectedPdo>) {
        if matches!(PdoKind::from(value), PdoKind::Augmented) && matches!(
            ApdoKind::try_from(value),
            Ok(ApdoKind::EprAvs),
        ) {
            Ok(EprAvsData::from_word(value))
        } else {
            Err(
                ExpectedPdo {
                    kind: PdoKind::Augmented,
                    apdo_kind: Some(ApdoKind::EprAvs),
                    raw: value,
                },
            )
        }
    }
}

impl TryFromSpecImpl<u32> for EprAvsData {
    open spec fn obeys_try_from_spec() -> bool {
        true
    }

    open spec fn try_from_spec(value: u32) -> Result<Self, ExpectedPdo> {
        if PdoKind::of_word(value) == PdoKind::Augmented && ApdoKind::of_word(value) == Some(
            ApdoKind::EprAvs,
        ) {
            Ok(EprAvsData::of_word(value))
        } else {
            Err(
                ExpectedPdo {
                    kind: PdoKind::Augmented,
                    apdo_kind: Some(ApdoKind::EprAvs),
                    raw: value,
                },
            )
        }
    }
}

/// SPR adjustable voltage supply sink APDO
#[derive(Copy, Clone, Debug, PartialEq, Eq)]
pub struct SprAvsData {
    /// Maximum current in mA in the range of 9 V to 15 V
    pub max_current_15v_ma: u16,
    /// Maximum current in mA in the range of 15 V to 20 V
    pub max_current_20v_ma: u16,
}

impl SprAvsData {
    /// The data that a data object holds in its fields.
    pub open spec fn of_word(word: u32) -> SprAvsData {
        SprAvsData {
            max_current_15v_ma: (bits::field(
                word,
                SPR_AVS_MAX_CURRENT_15V_LSB,
                SPR_AVS_MAX_CURRENT_15V_WIDTH,
            )
                * MA10_UNIT) as u16,
            max_current_20v_ma: (bits::field(
                word,
                SPR_AVS_MAX_CURRENT_20V_LSB,
                SPR_AVS_MAX_CURRENT_20V_WIDTH,
            )
                * MA10_UNIT) as u16,
        }
    }

    /// The data object: each field written into a zero word, a quantity in
    /// whole units, a value beyond its field's width cut to the width.
    pub open spec fn word(self) -> u32 {
        let w = 0u32;
        let w = bits::with_field(w, KIND_LSB, KIND_WIDTH, PdoKind::Augmented.number() as u32);
        let w = bits::with_field(
            w,
            APDO_KIND_LSB,
            APDO_KIND_WIDTH,
            ApdoKind::SprAvs.number() as u32,
        );
        let w = bits::with_field(
            w,
            SPR_AVS_MAX_CURRENT_15V_LSB,
            SPR_AVS_MAX_CURRENT_15V_WIDTH,
            (self.max_current_15v_ma / MA10_UNIT) as u32,
        );
        let w = bits::with_field(
            w,
            SPR_AVS_MAX_CURRENT_20V_LSB,
            SPR_AVS_MAX_CURRENT_20V_WIDTH,
            (self.max_current_20v_ma / MA10_UNIT) as u32,
        );
        w
    }

    /// Reads the data out of the fields of a data object, whatever its kind.
    pub fn from_word(word: u32) -> (data: Self)
        ensures
            data == SprAvsData::of_word(word),
    {
        proof {
            bits::mask_values();
            bits::field_is_bounded(
                word,
                SPR_AVS_MAX_CURRENT_15V_LSB,
                SPR_AVS_MAX_CURRENT_15V_WIDTH,
            );
            bits::field_is_bounded(
                word,
                SPR_AVS_MAX_CURRENT_20V_LSB,
                SPR_AVS_MAX_CURRENT_20V_WIDTH,
            );
        }
        SprAvsData {
            max_current_15v_ma: bits::get_field_u16(
                word,
                SPR_AVS_MAX_CURRENT_15V_LSB,
                SPR_AVS_MAX_CURRENT_15V_WIDTH,
            )
                * MA10_UNIT,
            max_current_20v_ma: bits::get_field_u16(
                word,
                SPR_AVS_MAX_CURRENT_20V_LSB,
                SPR_AVS_MAX_CURRENT_20V_WIDTH,
            )
                * MA10_UNIT,
        }
    }
}

impl From<SprAvsData> for u32 {
    fn from(data: SprAvsData) -> (word: u32) {
        let w: u32 = 0;
        let w = bits::set_field(w, KIND_LSB, KIND_WIDTH, u8::from(PdoKind::Augmented) as u32);
        let w = bits::set_field(
            w,
            APDO_KIND_LSB,
            APDO_KIND_WIDTH,
            u8::from(ApdoKind::SprAvs) as u32,
        );
        let w = bits::set_field(
            w,
            SPR_AVS_MAX_CURRENT_15V_LSB,
            SPR_AVS_MAX_CURRENT_15V_WIDTH,
            (data.max_current_15v_ma / MA10_UNIT) as u32,
        );
        let w = bits::set_field(
            w,
            SPR_AVS_MAX_CURRENT_20V_LSB,
            SPR_AVS_MAX_CURRENT_20V_WIDTH,
            (data.max_current_20v_ma / MA10_UNIT) as u32,
        );
        w
    }
}

impl FromSpecImpl<SprAvsData> for u32 {
    open spec fn obeys_from_spec() -> bool {
        true
    }

    open spec fn from_spec(data: SprAvsData) -> u32 {
        data.word()
    }
}

impl SprAvsData {
    /// The data with every field zero.
    pub open spec fn zero() -> SprAvsData {
        SprAvsData {
            max_current_15v_ma: 0,
            max_current_20v_ma: 0,
        }
    }
}

impl Default for SprAvsData {
    fn default() -> (data: Self)
        ensures
            data == SprAvsData::zero(),
    {
        SprAvsData {
            max_current_15v_ma: 0,
            max_current_20v_ma: 0,
        }
    }
}

impl TryFrom<u32> for SprAvsData {
    type Error = ExpectedPdo;

    fn try_from(value: u32) -> (data: Result<Self, ExpectedPdo>) {
        if matches!(PdoKind::from(value), PdoKind::Augmented) && matches!(
            ApdoKind::try_from(value),
            Ok(ApdoKind::SprAvs),
        ) {
            Ok(SprAvsData::from_word(value))
        } else {
            Err(
                ExpectedPdo {
                    kind: PdoKind::Augmented,
                    apdo_kind: Some(ApdoKind::SprAvs),
                    raw: value,
                },
            )
        }
    }
}

impl TryFromSpecImpl<u32> for SprAvsData {
    open spec fn obeys_try_from_spec() -> bool {
        true
    }

    open spec fn try_from_spec(value: u32) -> Result<Self, ExpectedPdo> {
        if PdoKind::of_word(value) == PdoKind::Augmented && ApdoKind::of_word(value) == Some(
            ApdoKind::SprAvs,
        ) {
            Ok(SprAvsData::of_word(value))
        } else {
            Err(
                ExpectedPdo {
                    kind: PdoKind::Augmented,
                    apdo_kind: Some(ApdoKind::SprAvs),
                    raw: value,
                },
            )
        }
    }
}

} // verus!
