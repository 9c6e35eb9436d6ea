//! Alert data object as defined in the USB PD specification 6.4.6.
use crate::bits;
use crate::PdError;
use vstd::prelude::*;
use vstd::std_specs::convert::FromSpecImpl;
use vstd::std_specs::convert::TryFromSpecImpl;

verus! {

/// Error type for ADO conversion, contains the complete undecoded ADO
#[derive(Copy, Clone, Debug, PartialEq, Eq)]
pub struct InvalidType(pub u32);

impl From<InvalidType> for PdError {
    fn from(_invalid: InvalidType) -> (error: PdError) {
        PdError::InvalidParams
    }
}

impl FromSpecImpl<InvalidType> for PdError {
    open spec fn obeys_from_spec() -> bool {
        true
    }

    open spec fn from_spec(_invalid: InvalidType) -> PdError {
        PdError::InvalidParams
    }
}

/// Lowest bit of the fixed battery flags in the battery status change byte.
pub const FIXED_BATTERY_LSB: u32 = 4;

/// Lowest bit of the hot swappable battery flags in the battery status change byte.
pub const HOT_SWAPPABLE_BATTERY_LSB: u32 = 0;

/// Width in bits of each of the two sets of battery flags.
pub const BATTERY_FLAGS_WIDTH: u32 = 4;

/// Maximum battery alert bit index
pub const MAX_BATTERY_INDEX: usize = 3;

/// Alert type of a battery status change
pub const ALERT_BATTERY_STATUS_CHANGE: u8 = 0x02;

/// Alert type of an over-current event
pub const ALERT_OCP: u8 = 0x04;

/// Alert type of an over-temperature event
pub const ALERT_OTP: u8 = 0x08;

/// Alert type of an operating condition change
pub const ALERT_OPERATING_CONDITION_CHANGE: u8 = 0x10;

/// Alert type of a source input change
pub const ALERT_SOURCE_INPUT_CHANGE: u8 = 0x20;

/// Alert type of an over-voltage event
pub const ALERT_OVP: u8 = 0x40;

/// Alert type of an extended alert
pub const ALERT_EXTENDED: u8 = 0x80;

/// Calls `bitfield::Bit::bit` on a byte.
///
/// The contract claims that the outside function tells whether bit `index`
/// of the byte is set. It shifts the byte by amounts that `index`
/// determines, so `index` has to be below eight.
#[verifier::external_body]
fn bit(value: u8, index: usize) -> (set: bool)
    requires
        index < 8,
    ensures
        set == bits::flag(value as u32, index as u32),
{
    bitfield::Bit::bit(&value, index)
}

/// Battery status change event: for each of four fixed and four hot
/// swappable batteries, whether its status changed
#[derive(Copy, Clone, Debug, PartialEq, Eq)]
pub struct BatteryStatusChange(pub u8);

impl BatteryStatusChange {
    /// Whether the status of the fixed battery at `index` changed.
    pub open spec fn fixed_changed(self, index: usize) -> bool {
        bits::flag(
            bits::field(self.0 as u32, FIXED_BATTERY_LSB, BATTERY_FLAGS_WIDTH),
            index as u32,
        )
    }

    /// Whether the status of the hot swappable battery at `index` changed.
    pub open spec fn hot_swappable_changed(self, index: usize) -> bool {
        bits::flag(
            bits::field(self.0 as u32, HOT_SWAPPABLE_BATTERY_LSB, BATTERY_FLAGS_WIDTH),
            index as u32,
        )
    }

    /// Returns the fixed battery status change at the given index
    ///
    /// Fails with `InvalidParams` for an index above [`MAX_BATTERY_INDEX`].
    pub fn fixed_battery_status_change(&self, index: usize) -> (changed: Result<bool, PdError>)
        ensures
            changed == if index > MAX_BATTERY_INDEX {
                Err::<bool, PdError>(PdError::InvalidParams)
            } else {
                Ok::<bool, PdError>(self.fixed_changed(index))
            },
    {
        if index > MAX_BATTERY_INDEX {
            return Err(PdError::InvalidParams);
        }
        let flags = bits::get_field_u8(self.0 as u32, FIXED_BATTERY_LSB, BATTERY_FLAGS_WIDTH);
        Ok(bit(flags, index))
    }

    /// Returns the hot swappable battery status change at the given index
    ///
    /// Fails with `InvalidParams` for an index above [`MAX_BATTERY_INDEX`].
    pub fn hot_swappable_battery_status(&self, index: usize) -> (changed: Result<bool, PdError>)
        ensures
            changed == if index > MAX_BATTERY_INDEX {
                Err::<bool, PdError>(PdError::InvalidParams)
            } else {
                Ok::<bool, PdError>(self.hot_swappable_changed(index))
            },
    {
        if index > MAX_BATTERY_INDEX {
            return Err(PdError::InvalidParams);
        }
        let flags = bits::get_field_u8(
            self.0 as u32,
            HOT_SWAPPABLE_BATTERY_LSB,
            BATTERY_FLAGS_WIDTH,
        );
        Ok(bit(flags, index))
    }
}

/// Lowest bit of `alert_type` in the alert data object.
pub const ALERT_TYPE_LSB: u32 = 24;

/// Width in bits of `alert_type`.
pub const ALERT_TYPE_WIDTH: u32 = 8;

/// Lowest bit of `battery_status_change` in the alert data object.
pub const BATTERY_STATUS_CHANGE_LSB: u32 = 16;

/// Width in bits of `battery_status_change`.
pub const BATTERY_STATUS_CHANGE_WIDTH: u32 = 8;

/// Lowest bit of `extended_alert_type` in the alert data object.
pub const EXTENDED_ALERT_TYPE_LSB: u32 = 0;

/// Width in bits of `extended_alert_type`.
pub const EXTENDED_ALERT_TYPE_WIDTH: u32 = 4;

/// Raw ADO type
#[derive(Copy, Clone, Debug, PartialEq, Eq)]
pub struct AdoRaw(pub u32);

impl AdoRaw {
    /// Returns the type of alert
    pub fn alert_type(&self) -> (value: u8)
        ensures
            value == bits::field(self.0, ALERT_TYPE_LSB, ALERT_TYPE_WIDTH),
    {
        bits::get_field_u8(self.0, ALERT_TYPE_LSB, ALERT_TYPE_WIDTH)
    }

    /// Sets the type of alert
    pub fn set_alert_type(&mut self, value: u8)
        ensures
            final(self).0 == bits::with_field(
                old(self).0,
                ALERT_TYPE_LSB,
                ALERT_TYPE_WIDTH,
                value as u32,
            ),
    {
        self.0 = bits::set_field(self.0, ALERT_TYPE_LSB, ALERT_TYPE_WIDTH, value as u32);
    }

    /// Returns the battery status change flags
    pub fn battery_status_change(&self) -> (value: u8)
        ensures
            value == bits::field(self.0, BATTERY_STATUS_CHANGE_LSB, BATTERY_STATUS_CHANGE_WIDTH),
    {
        bits::get_field_u8(self.0, BATTERY_STATUS_CHANGE_LSB, BATTERY_STATUS_CHANGE_WIDTH)
    }

    /// Sets the battery status change flags
    pub fn set_battery_status_change(&mut self, value: u8)
        ensures
            final(self).0 == bits::with_field(
                old(self).0,
                BATTERY_STATUS_CHANGE_LSB,
                BATTERY_STATUS_CHANGE_WIDTH,
                value as u32,
            ),
    {
        self.0 = bits::set_field(
            self.0,
            BATTERY_STATUS_CHANGE_LSB,
            BATTERY_STATUS_CHANGE_WIDTH,
            value as u32,
        );
    }

    /// Returns the extended alert type
    pub fn extended_alert_type(&self) -> (value: u8)
        ensures
            value == bits::field(self.0, EXTENDED_ALERT_TYPE_LSB, EXTENDED_ALERT_TYPE_WIDTH),
    {
        bits::get_field_u8(self.0, EXTENDED_ALERT_TYPE_LSB, EXTENDED_ALERT_TYPE_WIDTH)
    }

    /// Sets the extended alert type; only its low four bits are kept
    pub fn set_extended_alert_type(&mut self, value: u8)
        ensures
            final(self).0 == bits::with_field(
                old(self).0,
                EXTENDED_ALERT_TYPE_LSB,
                EXTENDED_ALERT_TYPE_WIDTH,
                value as u32,
            ),
    {
        self.0 = bits::set_field(
            self.0,
            EXTENDED_ALERT_TYPE_LSB,
            EXTENDED_ALERT_TYPE_WIDTH,
            value as u32,
        );
    }
}

impl From<u32> for AdoRaw {
    fn from(raw: u32) -> (value: Self) {
        AdoRaw(raw)
    }
}

impl FromSpecImpl<u32> for AdoRaw {
    open spec fn obeys_from_spec() -> bool {
        true
    }

    open spec fn from_spec(raw: u32) -> Self {
        AdoRaw(raw)
    }
}

impl From<AdoRaw> for u32 {
    fn from(value: AdoRaw) -> (raw: u32) {
        value.0
    }
}

impl FromSpecImpl<AdoRaw> for u32 {
    open spec fn obeys_from_spec() -> bool {
        true
    }

    open spec fn from_spec(value: AdoRaw) -> u32 {
        value.0
    }
}

/// ADO types
#[derive(Copy, Clone, Debug, PartialEq, Eq)]
pub enum Ado {
    /// Battery status change event
    BatteryStatusChange(BatteryStatusChange),
    /// Over-current event,
    Ocp,
    /// Over-temperature event
    Otp,
    /// Operating condition change event
    OperatingConditionChange,
    /// Source input change event
    SourceInputChange,
    /// Over-voltage event
    Ovp,
    /// Power state change
    PowerStateChange,
    /// Power button press
    PowerButtonPress,
    /// Power button release
    PowerButtonRelease,
    /// Controller initiated wake
    ControllerInitiatedWake,
}

impl Ado {
    /// The alert that an alert data object stands for, or the data object
    /// if its alert type, or its extended alert type, is none.
    pub open spec fn of_word(word: u32) -> Result<Ado, InvalidType> {
        let alert = bits::field(word, ALERT_TYPE_LSB, ALERT_TYPE_WIDTH);
        let extended = bits::field(word, EXTENDED_ALERT_TYPE_LSB, EXTENDED_ALERT_TYPE_WIDTH);
        if alert == ALERT_BATTERY_STATUS_CHANGE {
            Ok(
                Ado::BatteryStatusChange(
                    BatteryStatusChange(
                        bits::field(
                            word,
                            BATTERY_STATUS_CHANGE_LSB,
                            BATTERY_STATUS_CHANGE_WIDTH,
                        ) as u8,
                    ),
                ),
            )
        } else if alert == ALERT_OCP {
            Ok(Ado::Ocp)
        } else if alert == ALERT_OTP {
            Ok(Ado::Otp)
        } else if alert == ALERT_OPERATING_CONDITION_CHANGE {
            Ok(Ado::OperatingConditionChange)
        } else if alert == ALERT_SOURCE_INPUT_CHANGE {
            Ok(Ado::SourceInputChange)
        } else if alert == ALERT_OVP {
            Ok(Ado::Ovp)
        } else if alert == ALERT_EXTENDED && extended == 1 {
            Ok(Ado::PowerStateChange)
        } else if alert == ALERT_EXTENDED && extended == 2 {
            Ok(Ado::PowerButtonPress)
        } else if alert == ALERT_EXTENDED && extended == 3 {
            Ok(Ado::PowerButtonRelease)
        } else if alert == ALERT_EXTENDED && extended == 4 {
            Ok(Ado::ControllerInitiatedWake)
        } else {
            Err(InvalidType(word))
        }
    }
}

impl TryFrom<AdoRaw> for Ado {
    type Error = InvalidType;

    fn try_from(raw: AdoRaw) -> (ado: Result<Self, InvalidType>) {
        match raw.alert_type() {
            // Standard alert types
            0x02 => Ok(
                Ado::BatteryStatusChange(BatteryStatusChange(raw.battery_status_change())),
            ),
            0x04 => Ok(Ado::Ocp),
            0x08 => Ok(Ado::Otp),
            0x10 => Ok(Ado::OperatingConditionChange),
            0x20 => Ok(Ado::SourceInputChange),
            0x40 => Ok(Ado::Ovp),
            // Extended alert types
            0x80 => match raw.extended_alert_type() {
                0x01 => Ok(Ado::PowerStateChange),
                0x02 => Ok(Ado::PowerButtonPress),
                0x03 => Ok(Ado::PowerButtonRelease),
                0x04 => Ok(Ado::ControllerInitiatedWake),
                _ => Err(InvalidType(raw.0)),
            },
            _ => Err(InvalidType(raw.0)),
        }
    }
}

impl TryFromSpecImpl<AdoRaw> for Ado {
    open spec fn obeys_try_from_spec() -> bool {
        true
    }

    open spec fn try_from_spec(raw: AdoRaw) -> Result<Self, InvalidType> {
        Ado::of_word(raw.0)
    }
}

impl TryFrom<u32> for Ado {
    type Error = InvalidType;

    fn try_from(value: u32) -> (ado: Result<Self, InvalidType>) {
        Ado::try_from(AdoRaw(value))
    }
}

impl TryFromSpecImpl<u32> for Ado {
    open spec fn obeys_try_from_spec() -> bool {
        true
    }

    open spec fn try_from_spec(value: u32) -> Result<Self, InvalidType> {
        Ado::of_word(value)
    }
}

} // verus!
