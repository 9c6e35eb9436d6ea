//! Request data object as defined in the USB PD specification 6.4.2.
//!
//! A request does not say what kind it is: its layout is that of the kind
//! of the PDO that it asks for.
use crate::bits;
use crate::pdo::ApdoKind;
use crate::pdo::Common;
use crate::pdo::PdoKind;
use crate::pdo::MA10_UNIT;
use crate::pdo::MA50_UNIT;
use crate::pdo::MV20_UNIT;
use crate::pdo::MW250_UNIT;
use vstd::prelude::*;
use vstd::std_specs::convert::FromSpecImpl;

verus! {

/// Lowest bit of `object_position` in the data object.
pub const RDO_OBJECT_POSITION_LSB: u32 = 28;

/// Width in bits of `object_position`.
pub const RDO_OBJECT_POSITION_WIDTH: u32 = 4;

/// Bit of `capability_mismatch` in the data object.
pub const RDO_CAPABILITY_MISMATCH_BIT: u32 = 26;

/// Bit of `usb_comm_capable` in the data object.
pub const RDO_USB_COMM_CAPABLE_BIT: u32 = 25;

/// Bit of `no_usb_suspend` in the data object.
pub const RDO_NO_USB_SUSPEND_BIT: u32 = 24;

/// Bit of `unchunked_extended_messages_support` in the data object.
pub const RDO_UNCHUNKED_EXTENDED_MESSAGES_SUPPORT_BIT: u32 = 23;

/// Bit of `epr_capable` in the data object.
pub const RDO_EPR_CAPABLE_BIT: u32 = 22;

/// Lowest bit of `operating_current_ma` in the data object.
pub const FIXED_OPERATING_CURRENT_LSB: u32 = 10;

/// Width in bits of `operating_current_ma`.
pub const FIXED_OPERATING_CURRENT_WIDTH: u32 = 10;

/// Lowest bit of `max_operating_current_ma` in the data object.
pub const FIXED_MAX_OPERATING_CURRENT_LSB: u32 = 0;

/// Width in bits of `max_operating_current_ma`.
pub const FIXED_MAX_OPERATING_CURRENT_WIDTH: u32 = 10;

/// Lowest bit of `operating_power_mw` in the data object.
pub const BATTERY_OPERATING_POWER_LSB: u32 = 10;

/// Width in bits of `operating_power_mw`.
pub const BATTERY_OPERATING_POWER_WIDTH: u32 = 10;

/// Lowest bit of `max_operating_power_mw` in the data object.
pub const BATTERY_MAX_OPERATING_POWER_LSB: u32 = 0;

/// Width in bits of `max_operating_power_mw`.
pub const BATTERY_MAX_OPERATING_POWER_WIDTH: u32 = 10;

/// Lowest bit of `output_voltage_mv` in the data object.
pub const PPS_OUTPUT_VOLTAGE_LSB: u32 = 9;

/// Width in bits of `output_voltage_mv`.
pub const PPS_OUTPUT_VOLTAGE_WIDTH: u32 = 12;

/// Lowest bit of `operating_current_ma` in the data object.
pub const PPS_OPERATING_CURRENT_LSB: u32 = 0;

/// Width in bits of `operating_current_ma`.
pub const PPS_OPERATING_CURRENT_WIDTH: u32 = 7;

/// Request data object
#[derive(Copy, Clone, Debug, PartialEq, Eq)]
pub enum Rdo {
    /// Request for a fixed supply
    Fixed(FixedVarData),
    /// Request for a variable supply
    Variable(FixedVarData),
    /// Request for a battery supply
    Battery(BatteryData),
    /// Request for a programmable power supply
    Pps(PpsData),
    /// Request for an adjustable voltage supply
    Avs(AvsData),
}

impl Rdo {
    /// The request that a data object stands for when it asks for a PDO of
    /// the given kind and, if that is augmented, kind of augmented supply.
    pub open spec fn of_word(rdo: u32, kind: PdoKind, apdo_kind: Option<ApdoKind>) -> Rdo {
        match kind {
            PdoKind::Fixed => Rdo::Fixed(FixedVarData::of_word(rdo)),
            PdoKind::Variable => Rdo::Variable(FixedVarData::of_word(rdo)),
            PdoKind::Battery => Rdo::Battery(BatteryData::of_word(rdo)),
            PdoKind::Augmented => match apdo_kind {
                Some(ApdoKind::SprAvs) => Rdo::Avs(AvsData::of_word(rdo)),
                _ => Rdo::Pps(PpsData::of_word(rdo)),
            },
        }
    }

    /// The data object of the request.
    pub open spec fn word(self) -> u32 {
        match self {
            Rdo::Fixed(data) => data.word(),
            Rdo::Variable(data) => data.word(),
            Rdo::Battery(data) => data.word(),
            Rdo::Pps(data) => data.word(),
            Rdo::Avs(data) => data.word(),
        }
    }

    /// Reads a request for the given PDO out of a data object
    pub fn for_pdo<P: Common>(rdo: u32, pdo: P) -> (request: Self)
        ensures
            request == Rdo::of_word(rdo, pdo.spec_kind(), pdo.spec_apdo_kind()),
    {
        match pdo.kind() {
            PdoKind::Fixed => Rdo::Fixed(FixedVarData::from_word(rdo)),
            PdoKind::Variable => Rdo::Variable(FixedVarData::from_word(rdo)),
            PdoKind::Battery => Rdo::Battery(BatteryData::from_word(rdo)),
            PdoKind::Augmented => match pdo.apdo_kind() {
                Some(ApdoKind::SprAvs) => Rdo::Avs(AvsData::from_word(rdo)),
                _ => Rdo::Pps(PpsData::from_word(rdo)),
            },
        }
    }
}

impl From<Rdo> for u32 {
    fn from(rdo: Rdo) -> (word: u32) {
        match rdo {
            Rdo::Fixed(data) => u32::from(data),
            Rdo::Variable(data) => u32::from(data),
            Rdo::Battery(data) => u32::from(data),
            Rdo::Pps(data) => u32::from(data),
            Rdo::Avs(data) => u32::from(data),
        }
    }
}

impl FromSpecImpl<Rdo> for u32 {
    open spec fn obeys_from_spec() -> bool {
        true
    }

    open spec fn from_spec(rdo: Rdo) -> u32 {
        rdo.word()
    }
}

/// Request for a fixed or a variable supply
#[derive(Copy, Clone, Debug, PartialEq, Eq)]
pub struct FixedVarData {
    /// Object position
    pub object_position: u8,
    /// Capability mismatch
    pub capability_mismatch: bool,
    /// USB communications capable
    pub usb_comm_capable: bool,
    /// No USB suspend
    pub no_usb_suspend: bool,
    /// Unchunked extended messages supported
    pub unchunked_extended_messages_support: bool,
    /// EPR capable
    pub epr_capable: bool,
    /// Operating current in mA
    pub operating_current_ma: u16,
    /// Maximum operating current in mA
    pub max_operating_current_ma: u16,
}

impl FixedVarData {
    /// The data that a data object holds in its fields.
    pub open spec fn of_word(word: u32) -> FixedVarData {
        FixedVarData {
            object_position: bits::field(
                word,
                RDO_OBJECT_POSITION_LSB,
                RDO_OBJECT_POSITION_WIDTH,
            ) as u8,
            capability_mismatch: bits::flag(word, RDO_CAPABILITY_MISMATCH_BIT),
            usb_comm_capable: bits::flag(word, RDO_USB_COMM_CAPABLE_BIT),
            no_usb_suspend: bits::flag(word, RDO_NO_USB_SUSPEND_BIT),
            unchunked_extended_messages_support: bits::flag(
                word,
                RDO_UNCHUNKED_EXTENDED_MESSAGES_SUPPORT_BIT,
            ),
            epr_capable: bits::flag(word, RDO_EPR_CAPABLE_BIT),
            operating_current_ma: (bits::field(
                word,
                FIXED_OPERATING_CURRENT_LSB,
                FIXED_OPERATING_CURRENT_WIDTH,
            )
                * MA10_UNIT) as u16,
            max_operating_current_ma: (bits::field(
                word,
                FIXED_MAX_OPERATING_CURRENT_LSB,
                FIXED_MAX_OPERATING_CURRENT_WIDTH,
            )
                * MA10_UNIT) as u16,
        }
    }

    /// The data object: each field written into a zero word, a quantity in
    /// whole units, a value beyond its field's width cut to the width.
    pub open spec fn word(self) -> u32 {
        let w = 0u32;
        let w = bits::with_field(
            w,
            RDO_OBJECT_POSITION_LSB,
            RDO_OBJECT_POSITION_WIDTH,
            self.object_position as u32,
        );
        let w = bits::with_flag(w, RDO_CAPABILITY_MISMATCH_BIT, self.capability_mismatch);
        let w = bits::with_flag(w, RDO_USB_COMM_CAPABLE_BIT, self.usb_comm_capable);
        let w = bits::with_flag(w, RDO_NO_USB_SUSPEND_BIT, self.no_usb_suspend);
        let w = bits::with_flag(
            w,
            RDO_UNCHUNKED_EXTENDED_MESSAGES_SUPPORT_BIT,
            self.unchunked_extended_messages_support,
        );
        let w = bits::with_flag(w, RDO_EPR_CAPABLE_BIT, self.epr_capable);
        let w = bits::with_field(
            w,
            FIXED_OPERATING_CURRENT_LSB,
            FIXED_OPERATING_CURRENT_WIDTH,
            (self.operating_current_ma / MA10_UNIT) as u32,
        );
        let w = bits::with_field(
            w,
            FIXED_MAX_OPERATING_CURRENT_LSB,
            FIXED_MAX_OPERATING_CURRENT_WIDTH,
            (self.max_operating_current_ma / MA10_UNIT) as u32,
        );
        w
    }

    /// Reads the data out of the fields of a data object, whatever its kind.
    pub fn from_word(word: u32) -> (data: Self)
        ensures
            data == FixedVarData::of_word(word),
    {
        proof {
            bits::mask_values();
            bits::field_is_bounded(
                word,
                FIXED_OPERATING_CURRENT_LSB,
                FIXED_OPERATING_CURRENT_WIDTH,
            );
            bits::field_is_bounded(
                word,
                FIXED_MAX_OPERATING_CURRENT_LSB,
                FIXED_MAX_OPERATING_CURRENT_WIDTH,
            );
        }
        FixedVarData {
            object_position: bits::get_field_u8(
                word,
                RDO_OBJECT_POSITION_LSB,
                RDO_OBJECT_POSITION_WIDTH,
            ),
            capability_mismatch: bits::get_flag(word, RDO_CAPABILITY_MISMATCH_BIT),
            usb_comm_capable: bits::get_flag(word, RDO_USB_COMM_CAPABLE_BIT),
            no_usb_suspend: bits::get_flag(word, RDO_NO_USB_SUSPEND_BIT),
            unchunked_extended_messages_support: bits::get_flag(
                word,
                RDO_UNCHUNKED_EXTENDED_MESSAGES_SUPPORT_BIT,
            ),
            epr_capable: bits::get_flag(word, RDO_EPR_CAPABLE_BIT),
            operating_current_ma: bits::get_field_u16(
                word,
                FIXED_OPERATING_CURRENT_LSB,
                FIXED_OPERATING_CURRENT_WIDTH,
            )
                * MA10_UNIT,
            max_operating_current_ma: bits::get_field_u16(
                word,
                FIXED_MAX_OPERATING_CURRENT_LSB,
                FIXED_MAX_OPERATING_CURRENT_WIDTH,
            )
                * MA10_UNIT,
        }
    }
}

impl From<FixedVarData> for u32 {
    fn from(data: FixedVarData) -> (word: u32) {
        let w: u32 = 0;
        let w = bits::set_field(
            w,
            RDO_OBJECT_POSITION_LSB,
            RDO_OBJECT_POSITION_WIDTH,
            data.object_position as u32,
        );
        let w = bits::set_flag(w, RDO_CAPABILITY_MISMATCH_BIT, data.capability_mismatch);
        let w = bits::set_flag(w, RDO_USB_COMM_CAPABLE_BIT, data.usb_comm_capable);
        let w = bits::set_flag(w, RDO_NO_USB_SUSPEND_BIT, data.no_usb_suspend);
        let w = bits::set_flag(
            w,
            RDO_UNCHUNKED_EXTENDED_MESSAGES_SUPPORT_BIT,
            data.unchunked_extended_messages_support,
        );
        let w = bits::set_flag(w, RDO_EPR_CAPABLE_BIT, data.epr_capable);
        let w = bits::set_field(
            w,
            FIXED_OPERATING_CURRENT_LSB,
            FIXED_OPERATING_CURRENT_WIDTH,
            (data.operating_current_ma / MA10_UNIT) as u32,
        );
        let w = bits::set_field(
            w,
            FIXED_MAX_OPERATING_CURRENT_LSB,
            FIXED_MAX_OPERATING_CURRENT_WIDTH,
            (data.max_operating_current_ma / MA10_UNIT) as u32,
        );
        w
    }
}

impl FromSpecImpl<FixedVarData> for u32 {
    open spec fn obeys_from_spec() -> bool {
        true
    }

    open spec fn from_spec(data: FixedVarData) -> u32 {
        data.word()
    }
}

/// Request for a battery supply
#[derive(Copy, Clone, Debug, PartialEq, Eq)]
pub struct BatteryData {
    /// Object position
    pub object_position: u8,
    /// Capability mismatch
    pub capability_mismatch: bool,
    /// USB communications capable
    pub usb_comm_capable: bool,
    /// No USB suspend
    pub no_usb_suspend: bool,
    /// Unchunked extended messages supported
    pub unchunked_extended_messages_support: bool,
    /// EPR capable
    pub epr_capable: bool,
    /// Operating power in mW
    pub operating_power_mw: u32,
    /// Maximum operating power in mW
    pub max_operating_power_mw: u32,
}

impl BatteryData {
    /// The data that a data object holds in its fields.
    pub open spec fn of_word(word: u32) -> BatteryData {
        BatteryData {
            object_position: bits::field(
                word,
                RDO_OBJECT_POSITION_LSB,
                RDO_OBJECT_POSITION_WIDTH,
            ) as u8,
            capability_mismatch: bits::flag(word, RDO_CAPABILITY_MISMATCH_BIT),
            usb_comm_capable: bits::flag(word, RDO_USB_COMM_CAPABLE_BIT),
            no_usb_suspend: bits::flag(word, RDO_NO_USB_SUSPEND_BIT),
            unchunked_extended_messages_support: bits::flag(
                word,
                RDO_UNCHUNKED_EXTENDED_MESSAGES_SUPPORT_BIT,
            ),
            epr_capable: bits::flag(word, RDO_EPR_CAPABLE_BIT),
            operating_power_mw: (bits::field(
                word,
                BATTERY_OPERATING_POWER_LSB,
                BATTERY_OPERATING_POWER_WIDTH,
            )
                * MW250_UNIT) as u32,
            max_operating_power_mw: (bits::field(
                word,
                BATTERY_MAX_OPERATING_POWER_LSB,
                BATTERY_MAX_OPERATING_POWER_WIDTH,
            )
                * MW250_UNIT) as u32,
        }
    }

    /// The data object: each field written into a zero word, a quantity in
    /// whole units, a value beyond its field's width cut to the width.
    pub open spec fn word(self) -> u32 {
        let w = 0u32;
        let w = bits::with_field(
            w,
            RDO_OBJECT_POSITION_LSB,
            RDO_OBJECT_POSITION_WIDTH,
            self.object_position as u32,
        );
        let w = bits::with_flag(w, RDO_CAPABILITY_MISMATCH_BIT, self.capability_mismatch);
        let w = bits::with_flag(w, RDO_USB_COMM_CAPABLE_BIT, self.usb_comm_capable);
        let w = bits::with_flag(w, RDO_NO_USB_SUSPEND_BIT, self.no_usb_suspend);
        let w = bits::with_flag(
            w,
            RDO_UNCHUNKED_EXTENDED_MESSAGES_SUPPORT_BIT,
            self.unchunked_extended_messages_support,
        );
        let w = bits::with_flag(w, RDO_EPR_CAPABLE_BIT, self.epr_capable);
        let w = bits::with_field(
            w,
            BATTERY_OPERATING_POWER_LSB,
            BATTERY_OPERATING_POWER_WIDTH,
            self.operating_power_mw / MW250_UNIT,
        );
        let w = bits::with_field(
            w,
            BATTERY_MAX_OPERATING_POWER_LSB,
            BATTERY_MAX_OPERATING_POWER_WIDTH,
            self.max_operating_power_mw / MW250_UNIT,
        );
        w
    }

    /// Reads the data out of the fields of a data object, whatever its kind.
    pub fn from_word(word: u32) -> (data: Self)
        ensures
            data == BatteryData::of_word(word),
    {
        proof {
            bits::mask_values();
            bits::field_is_bounded(
                word,
                BATTERY_OPERATING_POWER_LSB,
                BATTERY_OPERATING_POWER_WIDTH,
            );
            bits::field_is_bounded(
                word,
                BATTERY_MAX_OPERATING_POWER_LSB,
                BATTERY_MAX_OPERATING_POWER_WIDTH,
            );
        }
        BatteryData {
            object_position: bits::get_field_u8(
                word,
                RDO_OBJECT_POSITION_LSB,
                RDO_OBJECT_POSITION_WIDTH,
            ),
            capability_mismatch: bits::get_flag(word, RDO_CAPABILITY_MISMATCH_BIT),
            usb_comm_capable: bits::get_flag(word, RDO_USB_COMM_CAPABLE_BIT),
            no_usb_suspend: bits::get_flag(word, RDO_NO_USB_SUSPEND_BIT),
            unchunked_extended_messages_support: bits::get_flag(
                word,
                RDO_UNCHUNKED_EXTENDED_MESSAGES_SUPPORT_BIT,
            ),
            epr_capable: bits::get_flag(word, RDO_EPR_CAPABLE_BIT),
            operating_power_mw: bits::get_field(
                word,
                BATTERY_OPERATING_POWER_LSB,
                BATTERY_OPERATING_POWER_WIDTH,
            )
                * MW250_UNIT,
            max_operating_power_mw: bits::get_field(
                word,
                BATTERY_MAX_OPERATING_POWER_LSB,
                BATTERY_MAX_OPERATING_POWER_WIDTH,
            )
                * MW250_UNIT,
        }
    }
}

impl From<BatteryData> for u32 {
    fn from(data: BatteryData) -> (word: u32) {
        let w: u32 = 0;
        let w = bits::set_field(
            w,
            RDO_OBJECT_POSITION_LSB,
            RDO_OBJECT_POSITION_WIDTH,
            data.object_position as u32,
        );
        let w = bits::set_flag(w, RDO_CAPABILITY_MISMATCH_BIT, data.capability_mismatch);
        let w = bits::set_flag(w, RDO_USB_COMM_CAPABLE_BIT, data.usb_comm_capable);
        let w = bits::set_flag(w, RDO_NO_USB_SUSPEND_BIT, data.no_usb_suspend);
        let w = bits::set_flag(
            w,
            RDO_UNCHUNKED_EXTENDED_MESSAGES_SUPPORT_BIT,
            data.unchunked_extended_messages_support,
        );
        let w = bits::set_flag(w, RDO_EPR_CAPABLE_BIT, data.epr_capable);
        let w = bits::set_field(
            w,
            BATTERY_OPERATING_POWER_LSB,
            BATTERY_OPERATING_POWER_WIDTH,
            data.operating_power_mw / MW250_UNIT,
        );
        let w = bits::set_field(
            w,
            BATTERY_MAX_OPERATING_POWER_LSB,
            BATTERY_MAX_OPERATING_POWER_WIDTH,
            data.max_operating_power_mw / MW250_UNIT,
        );
        w
    }
}

impl FromSpecImpl<BatteryData> for u32 {
    open spec fn obeys_from_spec() -> bool {
        true
    }

    open spec fn from_spec(data: BatteryData) -> u32 {
        data.word()
    }
}

/// Request for a programmable power supply
#[derive(Copy, Clone, Debug, PartialEq, Eq)]
pub struct PpsData {
    /// Object position
    pub object_position: u8,
    /// Capability mismatch
    pub capability_mismatch: bool,
    /// USB communications capable
    pub usb_comm_capable: bool,
    /// No USB suspend
    pub no_usb_suspend: bool,
    /// Unchunked extended messages supported
    pub unchunked_extended_messages_support: bool,
    /// EPR capable
    pub epr_capable: bool,
    /// Output voltage in mV; a voltage beyond 16 bits wraps around
    pub output_voltage_mv: u16,
    /// Operating current in mA
    pub operating_current_ma: u16,
}

impl PpsData {
    /// The data that a data object holds in its fields.
    pub open spec fn of_word(word: u32) -> PpsData {
        PpsData {
            object_position: bits::field(
                word,
                RDO_OBJECT_POSITION_LSB,
                RDO_OBJECT_POSITION_WIDTH,
            ) as u8,
            capability_mismatch: bits::flag(word, RDO_CAPABILITY_MISMATCH_BIT),
            usb_comm_capable: bits::flag(word, RDO_USB_COMM_CAPABLE_BIT),
            no_usb_suspend: bits::flag(word, RDO_NO_USB_SUSPEND_BIT),
            unchunked_extended_messages_support: bits::flag(
                word,
                RDO_UNCHUNKED_EXTENDED_MESSAGES_SUPPORT_BIT,
            ),
            epr_capable: bits::flag(word, RDO_EPR_CAPABLE_BIT),
            output_voltage_mv: crate::pdo::scaled(
                bits::field(word, PPS_OUTPUT_VOLTAGE_LSB, PPS_OUTPUT_VOLTAGE_WIDTH) as u16,
                MV20_UNIT,
            ),
            operating_current_ma: (bits::field(
                word,
                PPS_OPERATING_CURRENT_LSB,
                PPS_OPERATING_CURRENT_WIDTH,
            )
                * MA50_UNIT) as u16,
        }
    }

    /// The data object: each field written into a zero word, a quantity in
    /// whole units, a value beyond its field's width cut to the width.
    pub open spec fn word(self) -> u32 {
        let w = 0u32;
        let w = bits::with_field(
            w,
            RDO_OBJECT_POSITION_LSB,
            RDO_OBJECT_POSITION_WIDTH,
            self.object_position as u32,
        );
        let w = bits::with_flag(w, RDO_CAPABILITY_MISMATCH_BIT, self.capability_mismatch);
        let w = bits::with_flag(w, RDO_USB_COMM_CAPABLE_BIT, self.usb_comm_capable);
        let w = bits::with_flag(w, RDO_NO_USB_SUSPEND_BIT, self.no_usb_suspend);
        let w = bits::with_flag(
            w,
            RDO_UNCHUNKED_EXTENDED_MESSAGES_SUPPORT_BIT,
            self.unchunked_extended_messages_support,
        );
        let w = bits::with_flag(w, RDO_EPR_CAPABLE_BIT, self.epr_capable);
        let w = bits::with_field(
            w,
            PPS_OUTPUT_VOLTAGE_LSB,
            PPS_OUTPUT_VOLTAGE_WIDTH,
            (self.output_voltage_mv / MV20_UNIT) as u32,
        );
        let w = bits::with_field(
            w,
            PPS_OPERATING_CURRENT_LSB,
            PPS_OPERATING_CURRENT_WIDTH,
            (self.operating_current_ma / MA50_UNIT) as u32,
        );
        w
    }

    /// Reads the data out of the fields of a data object, whatever its kind.
    pub fn from_word(word: u32) -> (data: Self)
        ensures
            data == PpsData::of_word(word),
    {
        proof {
            bits::mask_values();
            bits::field_is_bounded(word, PPS_OPERATING_CURRENT_LSB, PPS_OPERATING_CURRENT_WIDTH);
        }
        PpsData {
            object_position: bits::get_field_u8(
                word,
                RDO_OBJECT_POSITION_LSB,
                RDO_OBJECT_POSITION_WIDTH,
            ),
            capability_mismatch: bits::get_flag(word, RDO_CAPABILITY_MISMATCH_BIT),
            usb_comm_capable: bits::get_flag(word, RDO_USB_COMM_CAPABLE_BIT),
            no_usb_suspend: bits::get_flag(word, RDO_NO_USB_SUSPEND_BIT),
            unchunked_extended_messages_support: bits::get_flag(
                word,
                RDO_UNCHUNKED_EXTENDED_MESSAGES_SUPPORT_BIT,
            ),
            epr_capable: bits::get_flag(word, RDO_EPR_CAPABLE_BIT),
            output_voltage_mv: crate::pdo::scale(
                bits::get_field_u16(word, PPS_OUTPUT_VOLTAGE_LSB, PPS_OUTPUT_VOLTAGE_WIDTH),
                MV20_UNIT,
            ),
            operating_current_ma: bits::get_field_u16(
                word,
                PPS_OPERATING_CURRENT_LSB,
                PPS_OPERATING_CURRENT_WIDTH,
            )
                * MA50_UNIT,
        }
    }
}

impl From<PpsData> for u32 {
    fn from(data: PpsData) -> (word: u32) {
        let w: u32 = 0;
        let w = bits::set_field(
            w,
            RDO_OBJECT_POSITION_LSB,
            RDO_OBJECT_POSITION_WIDTH,
            data.object_position as u32,
        );
        let w = bits::set_flag(w, RDO_CAPABILITY_MISMATCH_BIT, data.capability_mismatch);
        let w = bits::set_flag(w, RDO_USB_COMM_CAPABLE_BIT, data.usb_comm_capable);
        let w = bits::set_flag(w, RDO_NO_USB_SUSPEND_BIT, data.no_usb_suspend);
        let w = bits::set_flag(
            w,
            RDO_UNCHUNKED_EXTENDED_MESSAGES_SUPPORT_BIT,
            data.unchunked_extended_messages_support,
        );
        let w = bits::set_flag(w, RDO_EPR_CAPABLE_BIT, data.epr_capable);
        let w = bits::set_field(
            w,
            PPS_OUTPUT_VOLTAGE_LSB,
            PPS_OUTPUT_VOLTAGE_WIDTH,
            (data.output_voltage_mv / MV20_UNIT) as u32,
        );
        let w = bits::set_field(
            w,
            PPS_OPERATING_CURRENT_LSB,
            PPS_OPERATING_CURRENT_WIDTH,
            (data.operating_current_ma / MA50_UNIT) as u32,
        );
        w
    }
}

impl FromSpecImpl<PpsData> for u32 {
    open spec fn obeys_from_spec() -> bool {
        true
    }

    open spec fn from_spec(data: PpsData) -> u32 {
        data.word()
    }
}

/// Request for an adjustable voltage supply
#[derive(Copy, Clone, Debug, PartialEq, Eq)]
pub struct AvsData {
    /// Object position
    pub object_position: u8,
    /// Capability mismatch
    pub capability_mismatch: bool,
    /// USB communications capable
    pub usb_comm_capable: bool,
    /// No USB suspend
    pub no_usb_suspend: bool,
    /// Unchunked extended messages supported
    pub unchunked_extended_messages_support: bool,
    /// EPR capable
    pub epr_capable: bool,
    /// Output voltage in mV; a voltage beyond 16 bits wraps around
    pub output_voltage_mv: u16,
    /// Operating current in mA
    pub operating_current_ma: u16,
}

impl AvsData {
    /// The data that a data object holds in its fields.
    pub open spec fn of_word(word: u32) -> AvsData {
        AvsData {
            object_position: bits::field(
                word,
                RDO_OBJECT_POSITION_LSB,
                RDO_OBJECT_POSITION_WIDTH,
            ) as u8,
            capability_mismatch: bits::flag(word, RDO_CAPABILITY_MISMATCH_BIT),
            usb_comm_capable: bits::flag(word, RDO_USB_COMM_CAPABLE_BIT),
            no_usb_suspend: bits::flag(word, RDO_NO_USB_SUSPEND_BIT),
            unchunked_extended_messages_support: bits::flag(
                word,
                RDO_UNCHUNKED_EXTENDED_MESSAGES_SUPPORT_BIT,
            ),
            epr_capable: bits::flag(word, RDO_EPR_CAPABLE_BIT),
            output_voltage_mv: crate::pdo::scaled(
                bits::field(word, PPS_OUTPUT_VOLTAGE_LSB, PPS_OUTPUT_VOLTAGE_WIDTH) as u16,
                MV20_UNIT,
            ),
            operating_current_ma: (bits::field(
                word,
                PPS_OPERATING_CURRENT_LSB,
                PPS_OPERATING_CURRENT_WIDTH,
            )
                * MA50_UNIT) as u16,
        }
    }

    /// The data object: each field written into a zero word, a quantity in
    /// whole units, a value beyond its field's width cut to the width.
    pub open spec fn word(self) -> u32 {
        let w = 0u32;
        let w = bits::with_field(
            w,
            RDO_OBJECT_POSITION_LSB,
            RDO_OBJECT_POSITION_WIDTH,
            self.object_position as u32,
        );
        let w = bits::with_flag(w, RDO_CAPABILITY_MISMATCH_BIT, self.capability_mismatch);
        let w = bits::with_flag(w, RDO_USB_COMM_CAPABLE_BIT, self.usb_comm_capable);
        let w = bits::with_flag(w, RDO_NO_USB_SUSPEND_BIT, self.no_usb_suspend);
        let w = bits::with_flag(
            w,
            RDO_UNCHUNKED_EXTENDED_MESSAGES_SUPPORT_BIT,
            self.unchunked_extended_messages_support,
        );
        let w = bits::with_flag(w, RDO_EPR_CAPABLE_BIT, self.epr_capable);
        let w = bits::with_field(
            w,
            PPS_OUTPUT_VOLTAGE_LSB,
            PPS_OUTPUT_VOLTAGE_WIDTH,
            (self.output_voltage_mv / MV20_UNIT) as u32,
        );
        let w = bits::with_field(
            w,
            PPS_OPERATING_CURRENT_LSB,
            PPS_OPERATING_CURRENT_WIDTH,
            (self.operating_current_ma / MA50_UNIT) as u32,
        );
        w
    }

    /// Reads the data out of the fields of a data object, whatever its kind.
    pub fn from_word(word: u32) -> (data: Self)
        ensures
            data == AvsData::of_word(word),
    {
        proof {
            bits::mask_values();
            bits::field_is_bounded(word, PPS_OPERATING_CURRENT_LSB, PPS_OPERATING_CURRENT_WIDTH);
        }
        AvsData {
            object_position: bits::get_field_u8(
                word,
                RDO_OBJECT_POSITION_LSB,
                RDO_OBJECT_POSITION_WIDTH,
            ),
            capability_mismatch: bits::get_flag(word, RDO_CAPABILITY_MISMATCH_BIT),
            usb_comm_capable: bits::get_flag(word, RDO_USB_COMM_CAPABLE_BIT),
            no_usb_suspend: bits::get_flag(word, RDO_NO_USB_SUSPEND_BIT),
            unchunked_extended_messages_support: bits::get_flag(
                word,
                RDO_UNCHUNKED_EXTENDED_MESSAGES_SUPPORT_BIT,
            ),
            epr_capable: bits::get_flag(word, RDO_EPR_CAPABLE_BIT),
            output_voltage_mv: crate::pdo::scale(
                bits::get_field_u16(word, PPS_OUTPUT_VOLTAGE_LSB, PPS_OUTPUT_VOLTAGE_WIDTH),
                MV20_UNIT,
            ),
            operating_current_ma: bits::get_field_u16(
                word,
                PPS_OPERATING_CURRENT_LSB,
                PPS_OPERATING_CURRENT_WIDTH,
            )
                * MA50_UNIT,
        }
    }
}

impl From<AvsData> for u32 {
    fn from(data: AvsData) -> (word: u32) {
        let w: u32 = 0;
        let w = bits::set_field(
            w,
            RDO_OBJECT_POSITION_LSB,
            RDO_OBJECT_POSITION_WIDTH,
            data.object_position as u32,
        );
        let w = bits::set_flag(w, RDO_CAPABILITY_MISMATCH_BIT, data.capability_mismatch);
        let w = bits::set_flag(w, RDO_USB_COMM_CAPABLE_BIT, data.usb_comm_capable);
        let w = bits::set_flag(w, RDO_NO_USB_SUSPEND_BIT, data.no_usb_suspend);
        let w = bits::set_flag(
            w,
            RDO_UNCHUNKED_EXTENDED_MESSAGES_SUPPORT_BIT,
            data.unchunked_extended_messages_support,
        );
        let w = bits::set_flag(w, RDO_EPR_CAPABLE_BIT, data.epr_capable);
        let w = bits::set_field(
            w,
            PPS_OUTPUT_VOLTAGE_LSB,
            PPS_OUTPUT_VOLTAGE_WIDTH,
            (data.output_voltage_mv / MV20_UNIT) as u32,
        );
        let w = bits::set_field(
            w,
            PPS_OPERATING_CURRENT_LSB,
            PPS_OPERATING_CURRENT_WIDTH,
            (data.operating_current_ma / MA50_UNIT) as u32,
        );
        w
    }
}

impl FromSpecImpl<AvsData> for u32 {
    open spec fn obeys_from_spec() -> bool {
        true
    }

    open spec fn from_spec(data: AvsData) -> u32 {
        data.word()
    }
}

} // verus!
