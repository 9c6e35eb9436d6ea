//! Types for the GET_CONNECTOR_STATUS command, see UCSI spec 6.6.
use crate::bits;
use crate::bitstring;
use crate::bitstring::bit_of;
use crate::bitstring::Write;
use crate::pdo;
use crate::pdo::MA5_UNIT;
use crate::pdo::MV5_UNIT;
use crate::ucsi::COMMAND_LEN;
use crate::ucsi::HEADER_LEN;
use crate::wire;
use crate::wire::Allowed;
use crate::wire::DecodeError;
use crate::PlugOrientation;
use crate::PowerRole;
use vstd::arithmetic::power2::lemma2_to64;
use vstd::arithmetic::power2::pow2;
use vstd::prelude::*;
use vstd::std_specs::convert::FromSpecImpl;
use vstd::std_specs::convert::TryFromSpecImpl;

verus! {

/// Data length for the GET_CONNECTOR_STATUS command response
pub const RESPONSE_DATA_LEN: usize = 19;

/// Zero bytes that follow the connector number byte
pub const COMMAND_PADDING: usize = COMMAND_LEN - HEADER_LEN - 1;

/// Lowest bit of `status_change` in the response.
pub const STATUS_CHANGE_LSB: usize = 0;

/// Width in bits of `status_change`.
pub const STATUS_CHANGE_WIDTH: usize = 16;

/// Lowest bit of `power_op_mode` in the response.
pub const POWER_OP_MODE_LSB: usize = 16;

/// Width in bits of `power_op_mode`.
pub const POWER_OP_MODE_WIDTH: usize = 3;

/// Bit of the response that holds `connect_status`.
pub const CONNECT_STATUS_BIT: usize = 19;

/// Bit of the response that holds `power_direction`.
pub const POWER_DIRECTION_BIT: usize = 20;

/// Lowest bit of `partner_flags` in the response.
pub const PARTNER_FLAGS_LSB: usize = 21;

/// Width in bits of `partner_flags`.
pub const PARTNER_FLAGS_WIDTH: usize = 8;

/// Lowest bit of `partner_type` in the response.
pub const PARTNER_TYPE_LSB: usize = 29;

/// Width in bits of `partner_type`.
pub const PARTNER_TYPE_WIDTH: usize = 3;

/// Lowest bit of `rdo` in the response.
pub const RDO_LSB: usize = 32;

/// Width in bits of `rdo`.
pub const RDO_WIDTH: usize = 32;

/// Lowest bit of `battery_charging_status` in the response.
pub const BATTERY_CHARGING_STATUS_LSB: usize = 64;

/// Width in bits of `battery_charging_status`.
pub const BATTERY_CHARGING_STATUS_WIDTH: usize = 2;

/// Lowest bit of `provider_caps_limited` in the response.
pub const PROVIDER_CAPS_LIMITED_LSB: usize = 66;

/// Width in bits of `provider_caps_limited`.
pub const PROVIDER_CAPS_LIMITED_WIDTH: usize = 4;

/// Lowest bit of `bcd_pd_version` in the response.
pub const BCD_PD_VERSION_LSB: usize = 70;

/// Width in bits of `bcd_pd_version`.
pub const BCD_PD_VERSION_WIDTH: usize = 16;

/// Bit of the response that holds `orientation`.
pub const ORIENTATION_BIT: usize = 86;

/// Bit of the response that holds `sink_path_status`.
pub const SINK_PATH_STATUS_BIT: usize = 87;

/// Bit of the response that holds `reverse_current_protection_status`.
pub const REVERSE_CURRENT_PROTECTION_STATUS_BIT: usize = 88;

/// Bit of the response that holds `power_reading_ready`.
pub const POWER_READING_READY_BIT: usize = 89;

/// Lowest bit of `current_scale` in the response.
pub const CURRENT_SCALE_LSB: usize = 90;

/// Width in bits of `current_scale`.
pub const CURRENT_SCALE_WIDTH: usize = 3;

/// Lowest bit of `peak_current` in the response.
pub const PEAK_CURRENT_LSB: usize = 93;

/// Width in bits of `peak_current`.
pub const PEAK_CURRENT_WIDTH: usize = 16;

/// Lowest bit of `avg_current` in the response.
pub const AVG_CURRENT_LSB: usize = 109;

/// Width in bits of `avg_current`.
pub const AVG_CURRENT_WIDTH: usize = 16;

/// Lowest bit of `voltage_scale` in the response.
pub const VOLTAGE_SCALE_LSB: usize = 125;

/// Width in bits of `voltage_scale`.
pub const VOLTAGE_SCALE_WIDTH: usize = 4;

/// Lowest bit of `voltage_reading` in the response.
pub const VOLTAGE_READING_LSB: usize = 129;

/// Width in bits of `voltage_reading`.
pub const VOLTAGE_READING_WIDTH: usize = 16;

/// Bit of the status change word that holds `external_supply_change`.
pub const CHANGE_EXTERNAL_SUPPLY_CHANGE_BIT: u32 = 1;

/// Bit of the status change word that holds `power_op_mode_change`.
pub const CHANGE_POWER_OP_MODE_CHANGE_BIT: u32 = 2;

/// Bit of the status change word that holds `attention`.
pub const CHANGE_ATTENTION_BIT: u32 = 3;

/// Bit of the status change word that holds `provider_caps_change`.
pub const CHANGE_PROVIDER_CAPS_CHANGE_BIT: u32 = 5;

/// Bit of the status change word that holds `negotiated_power_level_change`.
pub const CHANGE_NEGOTIATED_POWER_LEVEL_CHANGE_BIT: u32 = 6;

/// Bit of the status change word that holds `pd_reset_complete`.
pub const CHANGE_PD_RESET_COMPLETE_BIT: u32 = 7;

/// Bit of the status change word that holds `supported_cam_change`.
pub const CHANGE_SUPPORTED_CAM_CHANGE_BIT: u32 = 8;

/// Bit of the status change word that holds `battery_charging_status_change`.
pub const CHANGE_BATTERY_CHARGING_STATUS_CHANGE_BIT: u32 = 9;

/// Bit of the status change word that holds `connector_partner_changed`.
pub const CHANGE_CONNECTOR_PARTNER_CHANGED_BIT: u32 = 11;

/// Bit of the status change word that holds `power_direction_changed`.
pub const CHANGE_POWER_DIRECTION_CHANGED_BIT: u32 = 12;

/// Bit of the status change word that holds `sink_path_status_change`.
pub const CHANGE_SINK_PATH_STATUS_CHANGE_BIT: u32 = 13;

/// Bit of the status change word that holds `connect_change`.
pub const CHANGE_CONNECT_CHANGE_BIT: u32 = 14;

/// Bit of the status change word that holds `error`.
pub const CHANGE_ERROR_BIT: u32 = 15;

/// Connector status changes: what changed since the status was last read
#[derive(Copy, Clone, Debug, PartialEq, Eq)]
pub struct ConnectorStatusChange(pub u16);

impl ConnectorStatusChange {
    /// Returns the external supply change flag
    pub fn external_supply_change(&self) -> (on: bool)
        ensures
            on == bits::flag(self.0 as u32, CHANGE_EXTERNAL_SUPPLY_CHANGE_BIT),
    {
        bits::get_flag(self.0 as u32, CHANGE_EXTERNAL_SUPPLY_CHANGE_BIT)
    }

    /// Sets the external supply change flag
    pub fn set_external_supply_change(&mut self, value: bool)
        ensures
            final(self).0 == bits::with_flag(
                old(self).0 as u32,
                CHANGE_EXTERNAL_SUPPLY_CHANGE_BIT,
                value,
            ),
    {
        self.0 = bits::set_flag_u16(self.0, CHANGE_EXTERNAL_SUPPLY_CHANGE_BIT, value);
    }

    /// Returns the power operation mode change flag
    pub fn power_op_mode_change(&self) -> (on: bool)
        ensures
            on == bits::flag(self.0 as u32, CHANGE_POWER_OP_MODE_CHANGE_BIT),
    {
        bits::get_flag(self.0 as u32, CHANGE_POWER_OP_MODE_CHANGE_BIT)
    }

    /// Sets the power operation mode change flag
    pub fn set_power_op_mode_change(&mut self, value: bool)
        ensures
            final(self).0 == bits::with_flag(
                old(self).0 as u32,
                CHANGE_POWER_OP_MODE_CHANGE_BIT,
                value,
            ),
    {
        self.0 = bits::set_flag_u16(self.0, CHANGE_POWER_OP_MODE_CHANGE_BIT, value);
    }

    /// Returns the attention flag
    pub fn attention(&self) -> (on: bool)
        ensures
            on == bits::flag(self.0 as u32, CHANGE_ATTENTION_BIT),
    {
        bits::get_flag(self.0 as u32, CHANGE_ATTENTION_BIT)
    }

    /// Sets the attention flag
    pub fn set_attention(&mut self, value: bool)
        ensures
            final(self).0 == bits::with_flag(old(self).0 as u32, CHANGE_ATTENTION_BIT, value),
    {
        self.0 = bits::set_flag_u16(self.0, CHANGE_ATTENTION_BIT, value);
    }

    /// Returns the provider capabilities change flag
    pub fn provider_caps_change(&self) -> (on: bool)
        ensures
            on == bits::flag(self.0 as u32, CHANGE_PROVIDER_CAPS_CHANGE_BIT),
    {
        bits::get_flag(self.0 as u32, CHANGE_PROVIDER_CAPS_CHANGE_BIT)
    }

    /// Sets the provider capabilities change flag
    pub fn set_provider_caps_change(&mut self, value: bool)
        ensures
            final(self).0 == bits::with_flag(
                old(self).0 as u32,
                CHANGE_PROVIDER_CAPS_CHANGE_BIT,
                value,
            ),
    {
        self.0 = bits::set_flag_u16(self.0, CHANGE_PROVIDER_CAPS_CHANGE_BIT, value);
    }

    /// Returns the negotiated power level change flag
    pub fn negotiated_power_level_change(&self) -> (on: bool)
        ensures
            on == bits::flag(self.0 as u32, CHANGE_NEGOTIATED_POWER_LEVEL_CHANGE_BIT),
    {
        bits::get_flag(self.0 as u32, CHANGE_NEGOTIATED_POWER_LEVEL_CHANGE_BIT)
    }

    /// Sets the negotiated power level change flag
    pub fn set_negotiated_power_level_change(&mut self, value: bool)
        ensures
            final(self).0 == bits::with_flag(
                old(self).0 as u32,
                CHANGE_NEGOTIATED_POWER_LEVEL_CHANGE_BIT,
                value,
            ),
    {
        self.0 = bits::set_flag_u16(self.0, CHANGE_NEGOTIATED_POWER_LEVEL_CHANGE_BIT, value);
    }

    /// Returns the PD reset complete flag
    pub fn pd_reset_complete(&self) -> (on: bool)
        ensures
            on == bits::flag(self.0 as u32, CHANGE_PD_RESET_COMPLETE_BIT),
    {
        bits::get_flag(self.0 as u32, CHANGE_PD_RESET_COMPLETE_BIT)
    }

    /// Sets the PD reset complete flag
    pub fn set_pd_reset_complete(&mut self, value: bool)
        ensures
            final(self).0 == bits::with_flag(
                old(self).0 as u32,
                CHANGE_PD_RESET_COMPLETE_BIT,
                value,
            ),
    {
        self.0 = bits::set_flag_u16(self.0, CHANGE_PD_RESET_COMPLETE_BIT, value);
    }

    /// Returns the supported CAM change flag
    pub fn supported_cam_change(&self) -> (on: bool)
        ensures
            on == bits::flag(self.0 as u32, CHANGE_SUPPORTED_CAM_CHANGE_BIT),
    {
        bits::get_flag(self.0 as u32, CHANGE_SUPPORTED_CAM_CHANGE_BIT)
    }

    /// Sets the supported CAM change flag
    pub fn set_supported_cam_change(&mut self, value: bool)
        ensures
            final(self).0 == bits::with_flag(
                old(self).0 as u32,
                CHANGE_SUPPORTED_CAM_CHANGE_BIT,
                value,
            ),
    {
        self.0 = bits::set_flag_u16(self.0, CHANGE_SUPPORTED_CAM_CHANGE_BIT, value);
    }

    /// Returns the battery charging status change flag
    pub fn battery_charging_status_change(&self) -> (on: bool)
        ensures
            on == bits::flag(self.0 as u32, CHANGE_BATTERY_CHARGING_STATUS_CHANGE_BIT),
    {
        bits::get_flag(self.0 as u32, CHANGE_BATTERY_CHARGING_STATUS_CHANGE_BIT)
    }

    /// Sets the battery charging status change flag
    pub fn set_battery_charging_status_change(&mut self, value: bool)
        ensures
            final(self).0 == bits::with_flag(
                old(self).0 as u32,
                CHANGE_BATTERY_CHARGING_STATUS_CHANGE_BIT,
                value,
            ),
    {
        self.0 = bits::set_flag_u16(self.0, CHANGE_BATTERY_CHARGING_STATUS_CHANGE_BIT, value);
    }

    /// Returns the connector partner changed flag
    pub fn connector_partner_changed(&self) -> (on: bool)
        ensures
            on == bits::flag(self.0 as u32, CHANGE_CONNECTOR_PARTNER_CHANGED_BIT),
    {
        bits::get_flag(self.0 as u32, CHANGE_CONNECTOR_PARTNER_CHANGED_BIT)
    }

    /// Sets the connector partner changed flag
    pub fn set_connector_partner_changed(&mut self, value: bool)
        ensures
            final(self).0 == bits::with_flag(
                old(self).0 as u32,
                CHANGE_CONNECTOR_PARTNER_CHANGED_BIT,
                value,
            ),
    {
        self.0 = bits::set_flag_u16(self.0, CHANGE_CONNECTOR_PARTNER_CHANGED_BIT, value);
    }

    /// Returns the power direction changed flag
    pub fn power_direction_changed(&self) -> (on: bool)
        ensures
            on == bits::flag(self.0 as u32, CHANGE_POWER_DIRECTION_CHANGED_BIT),
    {
        bits::get_flag(self.0 as u32, CHANGE_POWER_DIRECTION_CHANGED_BIT)
    }

    /// Sets the power direction changed flag
    pub fn set_power_direction_changed(&mut self, value: bool)
        ensures
            final(self).0 == bits::with_flag(
                old(self).0 as u32,
                CHANGE_POWER_DIRECTION_CHANGED_BIT,
                value,
            ),
    {
        self.0 = bits::set_flag_u16(self.0, CHANGE_POWER_DIRECTION_CHANGED_BIT, value);
    }

    /// Returns the sink path status change flag
    pub fn sink_path_status_change(&self) -> (on: bool)
        ensures
            on == bits::flag(self.0 as u32, CHANGE_SINK_PATH_STATUS_CHANGE_BIT),
    {
        bits::get_flag(self.0 as u32, CHANGE_SINK_PATH_STATUS_CHANGE_BIT)
    }

    /// Sets the sink path status change flag
    pub fn set_sink_path_status_change(&mut self, value: bool)
        ensures
            final(self).0 == bits::with_flag(
                old(self).0 as u32,
                CHANGE_SINK_PATH_STATUS_CHANGE_BIT,
                value,
            ),
    {
        self.0 = bits::set_flag_u16(self.0, CHANGE_SINK_PATH_STATUS_CHANGE_BIT, value);
    }

    /// Returns the connect/disconnect change flag
    pub fn connect_change(&self) -> (on: bool)
        ensures
            on == bits::flag(self.0 as u32, CHANGE_CONNECT_CHANGE_BIT),
    {
        bits::get_flag(self.0 as u32, CHANGE_CONNECT_CHANGE_BIT)
    }

    /// Sets the connect/disconnect change flag
    pub fn set_connect_change(&mut self, value: bool)
        ensures
            final(self).0 == bits::with_flag(old(self).0 as u32, CHANGE_CONNECT_CHANGE_BIT, value),
    {
        self.0 = bits::set_flag_u16(self.0, CHANGE_CONNECT_CHANGE_BIT, value);
    }

    /// Returns the error flag
    pub fn error(&self) -> (on: bool)
        ensures
            on == bits::flag(self.0 as u32, CHANGE_ERROR_BIT),
    {
        bits::get_flag(self.0 as u32, CHANGE_ERROR_BIT)
    }

    /// Sets the error flag
    pub fn set_error(&mut self, value: bool)
        ensures
            final(self).0 == bits::with_flag(old(self).0 as u32, CHANGE_ERROR_BIT, value),
    {
        self.0 = bits::set_flag_u16(self.0, CHANGE_ERROR_BIT, value);
    }
}

impl From<u16> for ConnectorStatusChange {
    fn from(raw: u16) -> (value: Self) {
        ConnectorStatusChange(raw)
    }
}

impl FromSpecImpl<u16> for ConnectorStatusChange {
    open spec fn obeys_from_spec() -> bool {
        true
    }

    open spec fn from_spec(raw: u16) -> Self {
        ConnectorStatusChange(raw)
    }
}

impl Default for ConnectorStatusChange {
    fn default() -> (value: Self)
        ensures
            value.0 == 0,
    {
        ConnectorStatusChange(0)
    }
}

/// Power Operation Mode
#[derive(Copy, Clone, Debug, PartialEq, Eq, Default)]
pub enum PowerOperationMode {
    /// USB default current
    #[default]
    UsbDefault,
    /// Battery Charging (BC) mode
    Bc,
    /// Power Delivery (PD) mode
    Pd,
    /// Type-C 1.5A mode
    TypeC1_5A,
    /// Type-C 3A mode
    TypeC3A,
    /// Type-C 5A mode
    TypeC5A,
}

impl PowerOperationMode {
    /// The number that stands for the value on the wire.
    pub open spec fn number(self) -> u8 {
        match self {
            PowerOperationMode::UsbDefault => 0x1,
            PowerOperationMode::Bc => 0x2,
            PowerOperationMode::Pd => 0x3,
            PowerOperationMode::TypeC1_5A => 0x4,
            PowerOperationMode::TypeC3A => 0x5,
            PowerOperationMode::TypeC5A => 0x6,
        }
    }

    /// The value that a number stands for, if it stands for one.
    pub open spec fn of_number(value: u8) -> Option<PowerOperationMode> {
        match value {
            0x1 => Some(PowerOperationMode::UsbDefault),
            0x2 => Some(PowerOperationMode::Bc),
            0x3 => Some(PowerOperationMode::Pd),
            0x4 => Some(PowerOperationMode::TypeC1_5A),
            0x5 => Some(PowerOperationMode::TypeC3A),
            0x6 => Some(PowerOperationMode::TypeC5A),
            _ => None,
        }
    }

    /// Returns the number that stands for the value on the wire
    pub fn to_number(self) -> (number: u8)
        ensures
            number == self.number(),
            PowerOperationMode::of_number(number) == Some(self),
    {
        match self {
            PowerOperationMode::UsbDefault => 0x1,
            PowerOperationMode::Bc => 0x2,
            PowerOperationMode::Pd => 0x3,
            PowerOperationMode::TypeC1_5A => 0x4,
            PowerOperationMode::TypeC3A => 0x5,
            PowerOperationMode::TypeC5A => 0x6,
        }
    }
}

/// Invalid Power Operation Mode error, contains the raw value that failed to decode
#[derive(Debug, Clone, Copy, PartialEq, Eq)]
pub struct InvalidPowerOperationMode(pub u8);

impl From<InvalidPowerOperationMode> for DecodeError {
    fn from(val: InvalidPowerOperationMode) -> (error: DecodeError) {
        DecodeError::UnexpectedVariant { allowed: Allowed::PowerOperationMode, found: val.0 as u32 }
    }
}

impl FromSpecImpl<InvalidPowerOperationMode> for DecodeError {
    open spec fn obeys_from_spec() -> bool {
        true
    }

    open spec fn from_spec(val: InvalidPowerOperationMode) -> DecodeError {
        DecodeError::UnexpectedVariant { allowed: Allowed::PowerOperationMode, found: val.0 as u32 }
    }
}

impl TryFrom<u8> for PowerOperationMode {
    type Error = InvalidPowerOperationMode;

    fn try_from(val: u8) -> (value: Result<Self, InvalidPowerOperationMode>) {
        match val {
            0x1 => Ok(PowerOperationMode::UsbDefault),
            0x2 => Ok(PowerOperationMode::Bc),
            0x3 => Ok(PowerOperationMode::Pd),
            0x4 => Ok(PowerOperationMode::TypeC1_5A),
            0x5 => Ok(PowerOperationMode::TypeC3A),
            0x6 => Ok(PowerOperationMode::TypeC5A),
            _ => Err(InvalidPowerOperationMode(val)),
        }
    }
}

impl TryFromSpecImpl<u8> for PowerOperationMode {
    open spec fn obeys_try_from_spec() -> bool {
        true
    }

    open spec fn try_from_spec(val: u8) -> Result<Self, InvalidPowerOperationMode> {
        match PowerOperationMode::of_number(val) {
            Some(value) => Ok(value),
            None => Err(InvalidPowerOperationMode(val)),
        }
    }
}

/// Bit of the partner flags byte that holds `usb`.
pub const PARTNER_USB_BIT: u32 = 0;

/// Bit of the partner flags byte that holds `alt_mode`.
pub const PARTNER_ALT_MODE_BIT: u32 = 1;

/// Bit of the partner flags byte that holds `usb4_gen3`.
pub const PARTNER_USB4_GEN3_BIT: u32 = 2;

/// Bit of the partner flags byte that holds `usb4_gen4`.
pub const PARTNER_USB4_GEN4_BIT: u32 = 3;

/// Connector partner flags
#[derive(Copy, Clone, Debug, PartialEq, Eq)]
pub struct ConnectorPartnerFlags(pub u8);

impl ConnectorPartnerFlags {
    /// Get usb flag
    pub fn usb(&self) -> (on: bool)
        ensures
            on == bits::flag(self.0 as u32, PARTNER_USB_BIT),
    {
        bits::get_flag(self.0 as u32, PARTNER_USB_BIT)
    }

    /// Set usb flag
    pub fn set_usb(&mut self, value: bool)
        ensures
            final(self).0 == bits::with_flag(old(self).0 as u32, PARTNER_USB_BIT, value),
    {
        self.0 = bits::set_flag_u8(self.0, PARTNER_USB_BIT, value);
    }

    /// Get alternate mode flag
    pub fn alt_mode(&self) -> (on: bool)
        ensures
            on == bits::flag(self.0 as u32, PARTNER_ALT_MODE_BIT),
    {
        bits::get_flag(self.0 as u32, PARTNER_ALT_MODE_BIT)
    }

    /// Set alternate mode flag
    pub fn set_alt_mode(&mut self, value: bool)
        ensures
            final(self).0 == bits::with_flag(old(self).0 as u32, PARTNER_ALT_MODE_BIT, value),
    {
        self.0 = bits::set_flag_u8(self.0, PARTNER_ALT_MODE_BIT, value);
    }

    /// Get USB4 Gen3 flag
    pub fn usb4_gen3(&self) -> (on: bool)
        ensures
            on == bits::flag(self.0 as u32, PARTNER_USB4_GEN3_BIT),
    {
        bits::get_flag(self.0 as u32, PARTNER_USB4_GEN3_BIT)
    }

    /// Set USB4 Gen3 flag
    pub fn set_usb4_gen3(&mut self, value: bool)
        ensures
            final(self).0 == bits::with_flag(old(self).0 as u32, PARTNER_USB4_GEN3_BIT, value),
    {
        self.0 = bits::set_flag_u8(self.0, PARTNER_USB4_GEN3_BIT, value);
    }

    /// Get USB4 Gen4 flag
    pub fn usb4_gen4(&self) -> (on: bool)
        ensures
            on == bits::flag(self.0 as u32, PARTNER_USB4_GEN4_BIT),
    {
        bits::get_flag(self.0 as u32, PARTNER_USB4_GEN4_BIT)
    }

    /// Set USB4 Gen4 flag
    pub fn set_usb4_gen4(&mut self, value: bool)
        ensures
            final(self).0 == bits::with_flag(old(self).0 as u32, PARTNER_USB4_GEN4_BIT, value),
    {
        self.0 = bits::set_flag_u8(self.0, PARTNER_USB4_GEN4_BIT, value);
    }
}

impl From<u8> for ConnectorPartnerFlags {
    fn from(raw: u8) -> (value: Self) {
        ConnectorPartnerFlags(raw)
    }
}

impl FromSpecImpl<u8> for ConnectorPartnerFlags {
    open spec fn obeys_from_spec() -> bool {
        true
    }

    open spec fn from_spec(raw: u8) -> Self {
        ConnectorPartnerFlags(raw)
    }
}

impl From<ConnectorPartnerFlags> for u8 {
    fn from(value: ConnectorPartnerFlags) -> (raw: u8) {
        value.0
    }
}

impl FromSpecImpl<ConnectorPartnerFlags> for u8 {
    open spec fn obeys_from_spec() -> bool {
        true
    }

    open spec fn from_spec(value: ConnectorPartnerFlags) -> u8 {
        value.0
    }
}

impl Default for ConnectorPartnerFlags {
    fn default() -> (value: Self)
        ensures
            value.0 == 0,
    {
        ConnectorPartnerFlags(0)
    }
}

/// Connector Partner Type
#[derive(Copy, Clone, Debug, PartialEq, Eq, Default)]
pub enum ConnectorPartnerType {
    /// Downstream Facing Port (DFP) attached
    #[default]
    DfpAttached,
    /// Upstream Facing Port (UFP) attached
    UfpAttached,
    /// Powered Cable (No UFP)
    PoweredCableNoUfp,
    /// Powered Cable (UFP)
    PoweredCableUfp,
    /// Debug Accessory
    DebugAccessory,
    /// Audio Adapter Accessory
    AudioAdapterAccessory,
}

impl ConnectorPartnerType {
    /// The number that stands for the value on the wire.
    pub open spec fn number(self) -> u8 {
        match self {
            ConnectorPartnerType::DfpAttached => 0x1,
            ConnectorPartnerType::UfpAttached => 0x2,
            ConnectorPartnerType::PoweredCableNoUfp => 0x3,
            ConnectorPartnerType::PoweredCableUfp => 0x4,
            ConnectorPartnerType::DebugAccessory => 0x5,
            ConnectorPartnerType::AudioAdapterAccessory => 0x6,
        }
    }

    /// The value that a number stands for, if it stands for one.
    pub open spec fn of_number(value: u8) -> Option<ConnectorPartnerType> {
        match value {
            0x1 => Some(ConnectorPartnerType::DfpAttached),
            0x2 => Some(ConnectorPartnerType::UfpAttached),
            0x3 => Some(ConnectorPartnerType::PoweredCableNoUfp),
            0x4 => Some(ConnectorPartnerType::PoweredCableUfp),
            0x5 => Some(ConnectorPartnerType::DebugAccessory),
            0x6 => Some(ConnectorPartnerType::AudioAdapterAccessory),
            _ => None,
        }
    }

    /// Returns the number that stands for the value on the wire
    pub fn to_number(self) -> (number: u8)
        ensures
            number == self.number(),
            ConnectorPartnerType::of_number(number) == Some(self),
    {
        match self {
            ConnectorPartnerType::DfpAttached => 0x1,
            ConnectorPartnerType::UfpAttached => 0x2,
            ConnectorPartnerType::PoweredCableNoUfp => 0x3,
            ConnectorPartnerType::PoweredCableUfp => 0x4,
            ConnectorPartnerType::DebugAccessory => 0x5,
            ConnectorPartnerType::AudioAdapterAccessory => 0x6,
        }
    }
}

/// Invalid Connector Partner Type error, contains the raw value that failed to decode
#[derive(Debug, Clone, Copy, PartialEq, Eq)]
pub struct InvalidConnectorPartnerType(pub u8);

impl From<InvalidConnectorPartnerType> for DecodeError {
    fn from(val: InvalidConnectorPartnerType) -> (error: DecodeError) {
        DecodeError::UnexpectedVariant {
            allowed: Allowed::ConnectorPartnerType,
            found: val.0 as u32,
        }
    }
}

impl FromSpecImpl<InvalidConnectorPartnerType> for DecodeError {
    open spec fn obeys_from_spec() -> bool {
        true
    }

    open spec fn from_spec(val: InvalidConnectorPartnerType) -> DecodeError {
        DecodeError::UnexpectedVariant {
            allowed: Allowed::ConnectorPartnerType,
            found: val.0 as u32,
        }
    }
}

impl TryFrom<u8> for ConnectorPartnerType {
    type Error = InvalidConnectorPartnerType;

    fn try_from(val: u8) -> (value: Result<Self, InvalidConnectorPartnerType>) {
        match val {
            0x1 => Ok(ConnectorPartnerType::DfpAttached),
            0x2 => Ok(ConnectorPartnerType::UfpAttached),
            0x3 => Ok(ConnectorPartnerType::PoweredCableNoUfp),
            0x4 => Ok(ConnectorPartnerType::PoweredCableUfp),
            0x5 => Ok(ConnectorPartnerType::DebugAccessory),
            0x6 => Ok(ConnectorPartnerType::AudioAdapterAccessory),
            _ => Err(InvalidConnectorPartnerType(val)),
        }
    }
}

impl TryFromSpecImpl<u8> for ConnectorPartnerType {
    open spec fn obeys_try_from_spec() -> bool {
        true
    }

    open spec fn try_from_spec(val: u8) -> Result<Self, InvalidConnectorPartnerType> {
        match ConnectorPartnerType::of_number(val) {
            Some(value) => Ok(value),
            None => Err(InvalidConnectorPartnerType(val)),
        }
    }
}

/// Battery Charging Capability Status
#[derive(Copy, Clone, Debug, PartialEq, Eq, Default)]
pub enum BatteryChargingCapabilityStatus {
    /// Not charging
    #[default]
    NotCharging,
    /// Nominal charging
    Nominal,
    /// Slow charging
    Slow,
    /// Very slow charging
    VerySlow,
}

impl BatteryChargingCapabilityStatus {
    /// The number that stands for the value on the wire.
    pub open spec fn number(self) -> u8 {
        match self {
            BatteryChargingCapabilityStatus::NotCharging => 0x0,
            BatteryChargingCapabilityStatus::Nominal => 0x1,
            BatteryChargingCapabilityStatus::Slow => 0x2,
            BatteryChargingCapabilityStatus::VerySlow => 0x3,
        }
    }

    /// The value that a number stands for, if it stands for one.
    pub open spec fn of_number(value: u8) -> Option<BatteryChargingCapabilityStatus> {
        match value {
            0x0 => Some(BatteryChargingCapabilityStatus::NotCharging),
            0x1 => Some(BatteryChargingCapabilityStatus::Nominal),
            0x2 => Some(BatteryChargingCapabilityStatus::Slow),
            0x3 => Some(BatteryChargingCapabilityStatus::VerySlow),
            _ => None,
        }
    }

    /// Returns the number that stands for the value on the wire
    pub fn to_number(self) -> (number: u8)
        ensures
            number == self.number(),
            BatteryChargingCapabilityStatus::of_number(number) == Some(self),
    {
        match self {
            BatteryChargingCapabilityStatus::NotCharging => 0x0,
            BatteryChargingCapabilityStatus::Nominal => 0x1,
            BatteryChargingCapabilityStatus::Slow => 0x2,
            BatteryChargingCapabilityStatus::VerySlow => 0x3,
        }
    }
}

/// Invalid Battery Charging Capability Status error, contains the raw value that failed to decode
#[derive(Debug, Clone, Copy, PartialEq, Eq)]
pub struct InvalidBatteryChargingCapabilityStatus(pub u8);

impl From<InvalidBatteryChargingCapabilityStatus> for DecodeError {
    fn from(val: InvalidBatteryChargingCapabilityStatus) -> (error: DecodeError) {
        DecodeError::UnexpectedVariant {
            allowed: Allowed::BatteryChargingCapabilityStatus,
            found: val.0 as u32,
        }
    }
}

impl FromSpecImpl<InvalidBatteryChargingCapabilityStatus> for DecodeError {
    open spec fn obeys_from_spec() -> bool {
        true
    }

    open spec fn from_spec(val: InvalidBatteryChargingCapabilityStatus) -> DecodeError {
        DecodeError::UnexpectedVariant {
            allowed: Allowed::BatteryChargingCapabilityStatus,
            found: val.0 as u32,
        }
    }
}

impl TryFrom<u8> for BatteryChargingCapabilityStatus {
    type Error = InvalidBatteryChargingCapabilityStatus;

    fn try_from(val: u8) -> (value: Result<Self, InvalidBatteryChargingCapabilityStatus>) {
        match val {
            0x0 => Ok(BatteryChargingCapabilityStatus::NotCharging),
            0x1 => Ok(BatteryChargingCapabilityStatus::Nominal),
            0x2 => Ok(BatteryChargingCapabilityStatus::Slow),
            0x3 => Ok(BatteryChargingCapabilityStatus::VerySlow),
            _ => Err(InvalidBatteryChargingCapabilityStatus(val)),
        }
    }
}

impl TryFromSpecImpl<u8> for BatteryChargingCapabilityStatus {
    open spec fn obeys_try_from_spec() -> bool {
        true
    }

    open spec fn try_from_spec(val: u8) -> Result<Self, InvalidBatteryChargingCapabilityStatus> {
        match BatteryChargingCapabilityStatus::of_number(val) {
            Some(value) => Ok(value),
            None => Err(InvalidBatteryChargingCapabilityStatus(val)),
        }
    }
}

/// Bit of the limited reason byte that holds `power_budget_lowered`.
pub const LIMITED_POWER_BUDGET_LOWERED_BIT: u32 = 0;

/// Bit of the limited reason byte that holds `reaching_power_budget_limit`.
pub const LIMITED_REACHING_POWER_BUDGET_LIMIT_BIT: u32 = 1;

/// Reason for limited provider capabilities
#[derive(Copy, Clone, Debug, PartialEq, Eq)]
pub struct ProviderCapsLimitedReason(pub u8);

impl ProviderCapsLimitedReason {
    /// Returns if power budget is lowered
    pub fn power_budget_lowered(&self) -> (on: bool)
        ensures
            on == bits::flag(self.0 as u32, LIMITED_POWER_BUDGET_LOWERED_BIT),
    {
        bits::get_flag(self.0 as u32, LIMITED_POWER_BUDGET_LOWERED_BIT)
    }

    /// Sets power budget lowered status
    pub fn set_power_budget_lowered(&mut self, lowered: bool) -> (this: &mut Self)
        ensures
            this.0 == bits::with_flag(
                old(self).0 as u32,
                LIMITED_POWER_BUDGET_LOWERED_BIT,
                lowered,
            ),
            *final(this) == *final(self),
    {
        self.0 = bits::set_flag_u8(self.0, LIMITED_POWER_BUDGET_LOWERED_BIT, lowered);
        self
    }

    /// Returns if reaching power budget limit
    pub fn reaching_power_budget_limit(&self) -> (on: bool)
        ensures
            on == bits::flag(self.0 as u32, LIMITED_REACHING_POWER_BUDGET_LIMIT_BIT),
    {
        bits::get_flag(self.0 as u32, LIMITED_REACHING_POWER_BUDGET_LIMIT_BIT)
    }

    /// Sets reaching power budget limit status
    pub fn set_reaching_power_budget_limit(&mut self, limit: bool) -> (this: &mut Self)
        ensures
            this.0 == bits::with_flag(
                old(self).0 as u32,
                LIMITED_REACHING_POWER_BUDGET_LIMIT_BIT,
                limit,
            ),
            *final(this) == *final(self),
    {
        self.0 = bits::set_flag_u8(self.0, LIMITED_REACHING_POWER_BUDGET_LIMIT_BIT, limit);
        self
    }
}

impl From<u8> for ProviderCapsLimitedReason {
    fn from(raw: u8) -> (value: Self) {
        ProviderCapsLimitedReason(raw)
    }
}

impl FromSpecImpl<u8> for ProviderCapsLimitedReason {
    open spec fn obeys_from_spec() -> bool {
        true
    }

    open spec fn from_spec(raw: u8) -> Self {
        ProviderCapsLimitedReason(raw)
    }
}

impl Default for ProviderCapsLimitedReason {
    fn default() -> (value: Self)
        ensures
            value.0 == 0,
    {
        ProviderCapsLimitedReason(0)
    }
}

/// All fields that are only valid when connect_status is true
#[derive(Copy, Clone, Debug, Default, PartialEq, Eq)]
pub struct ConnectedStatus {
    /// Power operation mode
    pub power_op_mode: PowerOperationMode,
    /// Power direction
    pub power_direction: PowerRole,
    /// Connector partner flags
    pub partner_flags: ConnectorPartnerFlags,
    /// Connector partner type
    pub partner_type: ConnectorPartnerType,
    /// Raw RDO, only valid when operating in PD mode
    ///
    /// An RDO does not say what kind it is, so only its 32 bits are kept here.
    pub rdo: Option<u32>,
    /// Battery charging capability status, only valid when operating as a sink
    pub battery_charging_status: Option<BatteryChargingCapabilityStatus>,
    /// Reason for limited provider capability
    pub provider_caps_limited: Option<ProviderCapsLimitedReason>,
    /// BCD PD version, only valid when operating in PD mode
    pub bcd_pd_version: Option<u16>,
    /// Orientation
    pub orientation: PlugOrientation,
    /// Sink path status
    pub sink_path_status: bool,
}

/// Power reading result
#[derive(Copy, Clone, Debug, Default, PartialEq, Eq)]
pub struct PowerReading {
    /// Current scale
    pub scale_ma: u16,
    /// Peak current
    pub peak_current_ma: u16,
    /// Average current
    pub avg_current_ma: u16,
    /// Voltage scale
    pub scale_mv: u16,
    /// Voltage reading
    pub voltage_reading_mv: u16,
}

/// Main GET_CONNECTOR_STATUS response data structure
#[derive(Copy, Clone, Debug, Default, PartialEq, Eq)]
pub struct ResponseData {
    /// Connector status change bitmap
    pub status_change: ConnectorStatusChange,
    /// True if connected
    pub connect_status: bool,
    /// Status only valid when connected
    pub status: Option<ConnectedStatus>,
    /// Debug info, LPM will set this if this feature is supported
    pub reverse_current_protection_status: bool,
    /// Power reading
    pub power_reading: Option<PowerReading>,
}

/// Why nineteen bytes stand for no response
#[derive(Copy, Clone, Debug, PartialEq, Eq)]
pub enum InvalidResponseData {
    /// Invalid power operation mode
    InvalidPowerOperationMode(InvalidPowerOperationMode),
    /// Invalid connector partner type
    InvalidConnectorPartnerType(InvalidConnectorPartnerType),
    /// Invalid battery charging capability status
    InvalidBatteryChargingCapabilityStatus(InvalidBatteryChargingCapabilityStatus),
}

impl From<InvalidResponseData> for DecodeError {
    fn from(err: InvalidResponseData) -> (error: DecodeError) {
        match err {
            InvalidResponseData::InvalidPowerOperationMode(e) => DecodeError::from(e),
            InvalidResponseData::InvalidConnectorPartnerType(e) => DecodeError::from(e),
            InvalidResponseData::InvalidBatteryChargingCapabilityStatus(e) => DecodeError::from(e),
        }
    }
}

impl FromSpecImpl<InvalidResponseData> for DecodeError {
    open spec fn obeys_from_spec() -> bool {
        true
    }

    open spec fn from_spec(err: InvalidResponseData) -> DecodeError {
        err.decode_error()
    }
}

impl InvalidResponseData {
    /// The decode error that reports the invalid field.
    pub open spec fn decode_error(self) -> DecodeError {
        match self {
            InvalidResponseData::InvalidPowerOperationMode(e) => DecodeError::UnexpectedVariant {
                allowed: Allowed::PowerOperationMode,
                found: e.0 as u32,
            },
            InvalidResponseData::InvalidConnectorPartnerType(e) => DecodeError::UnexpectedVariant {
                allowed: Allowed::ConnectorPartnerType,
                found: e.0 as u32,
            },
            InvalidResponseData::InvalidBatteryChargingCapabilityStatus(e) => DecodeError::UnexpectedVariant {
                allowed: Allowed::BatteryChargingCapabilityStatus,
                found: e.0 as u32,
            },
        }
    }
}

/// Number of fields in the response
pub const FIELDS: usize = 19;

/// The number of whole `scale`s in a quantity; zero for a scale of zero.
pub open spec fn count_of(quantity: u16, scale: u16) -> u16 {
    if scale == 0 {
        0
    } else {
        quantity / scale
    }
}

/// Counts the whole `scale`s in a quantity; zero for a scale of zero.
pub fn count(quantity: u16, scale: u16) -> (whole: u16)
    ensures
        whole == count_of(quantity, scale),
{
    if scale == 0 {
        0
    } else {
        quantity / scale
    }
}

/// The fields of a response as they are on the wire: numbers and bits.
#[derive(Copy, Clone, Debug, PartialEq, Eq)]
pub struct ResponseDataRaw {
    /// Connector status change bitmap
    pub status_change: u16,
    /// Power operation mode
    pub power_op_mode: u8,
    /// Connect status
    pub connect_status: bool,
    /// Power direction, set for source
    pub power_direction: bool,
    /// Connector partner flags
    pub partner_flags: u8,
    /// Connector partner type
    pub partner_type: u8,
    /// Request data object
    pub rdo: u32,
    /// Battery charging capability status
    pub battery_charging_status: u8,
    /// Reason for limited provider capabilities
    pub provider_caps_limited: u8,
    /// BCD PD version
    pub bcd_pd_version: u16,
    /// Orientation, set for flipped
    pub orientation: bool,
    /// Sink path status
    pub sink_path_status: bool,
    /// Reverse current protection status
    pub reverse_current_protection_status: bool,
    /// Power reading ready
    pub power_reading_ready: bool,
    /// Current scale in units of 5 mA
    pub current_scale: u8,
    /// Peak current as a count of the current scale
    pub peak_current: u16,
    /// Average current as a count of the current scale
    pub avg_current: u16,
    /// Voltage scale in units of 5 mV
    pub voltage_scale: u8,
    /// Voltage reading as a count of the voltage scale
    pub voltage_reading: u16,
}

impl ResponseDataRaw {
    /// The writes that make the bytes: for each field its place and its value.
    pub open spec fn layout(self) -> Seq<Write> {
        seq![
            Write {
                lsb: STATUS_CHANGE_LSB,
                width: STATUS_CHANGE_WIDTH,
                value: self.status_change as u32,
            },
            Write {
                lsb: POWER_OP_MODE_LSB,
                width: POWER_OP_MODE_WIDTH,
                value: self.power_op_mode as u32,
            },
            Write { lsb: CONNECT_STATUS_BIT, width: 1, value: bit_of(self.connect_status) },
            Write { lsb: POWER_DIRECTION_BIT, width: 1, value: bit_of(self.power_direction) },
            Write {
                lsb: PARTNER_FLAGS_LSB,
                width: PARTNER_FLAGS_WIDTH,
                value: self.partner_flags as u32,
            },
            Write {
                lsb: PARTNER_TYPE_LSB,
                width: PARTNER_TYPE_WIDTH,
                value: self.partner_type as u32,
            },
            Write { lsb: RDO_LSB, width: RDO_WIDTH, value: self.rdo },
            Write {
                lsb: BATTERY_CHARGING_STATUS_LSB,
                width: BATTERY_CHARGING_STATUS_WIDTH,
                value: self.battery_charging_status as u32,
            },
            Write {
                lsb: PROVIDER_CAPS_LIMITED_LSB,
                width: PROVIDER_CAPS_LIMITED_WIDTH,
                value: self.provider_caps_limited as u32,
            },
            Write {
                lsb: BCD_PD_VERSION_LSB,
                width: BCD_PD_VERSION_WIDTH,
                value: self.bcd_pd_version as u32,
            },
            Write { lsb: ORIENTATION_BIT, width: 1, value: bit_of(self.orientation) },
            Write { lsb: SINK_PATH_STATUS_BIT, width: 1, value: bit_of(self.sink_path_status) },
            Write {
                lsb: REVERSE_CURRENT_PROTECTION_STATUS_BIT,
                width: 1,
                value: bit_of(self.reverse_current_protection_status),
            },
            Write {
                lsb: POWER_READING_READY_BIT,
                width: 1,
                value: bit_of(self.power_reading_ready),
            },
            Write {
                lsb: CURRENT_SCALE_LSB,
                width: CURRENT_SCALE_WIDTH,
                value: self.current_scale as u32,
            },
            Write {
                lsb: PEAK_CURRENT_LSB,
                width: PEAK_CURRENT_WIDTH,
                value: self.peak_current as u32,
            },
            Write {
                lsb: AVG_CURRENT_LSB,
                width: AVG_CURRENT_WIDTH,
                value: self.avg_current as u32,
            },
            Write {
                lsb: VOLTAGE_SCALE_LSB,
                width: VOLTAGE_SCALE_WIDTH,
                value: self.voltage_scale as u32,
            },
            Write {
                lsb: VOLTAGE_READING_LSB,
                width: VOLTAGE_READING_WIDTH,
                value: self.voltage_reading as u32,
            },
        ]
    }

    /// The nineteen bytes: each field written into zero bytes, a value
    /// beyond its field's width cut to the width.
    pub open spec fn bytes(self) -> Seq<u8> {
        bitstring::written(wire::zeros(RESPONSE_DATA_LEN as nat), self.layout(), FIELDS as nat)
    }

    /// The fields that nineteen bytes hold.
    pub open spec fn of_bytes(bytes: Seq<u8>) -> ResponseDataRaw {
        ResponseDataRaw {
            status_change: bitstring::field(
                bytes,
                STATUS_CHANGE_LSB as int,
                STATUS_CHANGE_WIDTH as nat,
            ) as u16,
            power_op_mode: bitstring::field(
                bytes,
                POWER_OP_MODE_LSB as int,
                POWER_OP_MODE_WIDTH as nat,
            ) as u8,
            connect_status: bitstring::field(bytes, CONNECT_STATUS_BIT as int, 1) == 1,
            power_direction: bitstring::field(bytes, POWER_DIRECTION_BIT as int, 1) == 1,
            partner_flags: bitstring::field(
                bytes,
                PARTNER_FLAGS_LSB as int,
                PARTNER_FLAGS_WIDTH as nat,
            ) as u8,
            partner_type: bitstring::field(
                bytes,
                PARTNER_TYPE_LSB as int,
                PARTNER_TYPE_WIDTH as nat,
            ) as u8,
            rdo: bitstring::field(bytes, RDO_LSB as int, RDO_WIDTH as nat) as u32,
            battery_charging_status: bitstring::field(
                bytes,
                BATTERY_CHARGING_STATUS_LSB as int,
                BATTERY_CHARGING_STATUS_WIDTH as nat,
            ) as u8,
            provider_caps_limited: bitstring::field(
                bytes,
                PROVIDER_CAPS_LIMITED_LSB as int,
                PROVIDER_CAPS_LIMITED_WIDTH as nat,
            ) as u8,
            bcd_pd_version: bitstring::field(
                bytes,
                BCD_PD_VERSION_LSB as int,
                BCD_PD_VERSION_WIDTH as nat,
            ) as u16,
            orientation: bitstring::field(bytes, ORIENTATION_BIT as int, 1) == 1,
            sink_path_status: bitstring::field(bytes, SINK_PATH_STATUS_BIT as int, 1) == 1,
            reverse_current_protection_status: bitstring::field(
                bytes,
                REVERSE_CURRENT_PROTECTION_STATUS_BIT as int,
                1,
            ) == 1,
            power_reading_ready: bitstring::field(bytes, POWER_READING_READY_BIT as int, 1) == 1,
            current_scale: bitstring::field(
                bytes,
                CURRENT_SCALE_LSB as int,
                CURRENT_SCALE_WIDTH as nat,
            ) as u8,
            peak_current: bitstring::field(
                bytes,
                PEAK_CURRENT_LSB as int,
                PEAK_CURRENT_WIDTH as nat,
            ) as u16,
            avg_current: bitstring::field(
                bytes,
                AVG_CURRENT_LSB as int,
                AVG_CURRENT_WIDTH as nat,
            ) as u16,
            voltage_scale: bitstring::field(
                bytes,
                VOLTAGE_SCALE_LSB as int,
                VOLTAGE_SCALE_WIDTH as nat,
            ) as u8,
            voltage_reading: bitstring::field(
                bytes,
                VOLTAGE_READING_LSB as int,
                VOLTAGE_READING_WIDTH as nat,
            ) as u16,
        }
    }

    /// Whether each field's value fits the field's width.
    pub open spec fn fits(self) -> bool {
        &&& self.power_op_mode <= 0x7
        &&& self.partner_type <= 0x7
        &&& self.battery_charging_status <= 0x3
        &&& self.provider_caps_limited <= 0xf
        &&& self.current_scale <= 0x7
        &&& self.voltage_scale <= 0xf
    }

    /// The layout has its fields in order, inside nineteen bytes.
    pub proof fn layout_is_laid_out(raw: ResponseDataRaw)
        ensures
            raw.layout().len() == FIELDS,
            bitstring::laid_out(raw.layout(), RESPONSE_DATA_LEN as nat),
    {
    }

    /// Fields that fit are the fields of their bytes.
    pub proof fn of_its_bytes(raw: ResponseDataRaw)
        requires
            raw.fits(),
        ensures
            raw.bytes().len() == RESPONSE_DATA_LEN,
            ResponseDataRaw::of_bytes(raw.bytes()) == raw,
    {
        let zeros = wire::zeros(RESPONSE_DATA_LEN as nat);
        let layout = raw.layout();
        let bytes = raw.bytes();
        ResponseDataRaw::layout_is_laid_out(raw);
        bitstring::written_keeps_len(zeros, layout, FIELDS as nat);
        lemma2_to64();
        bitstring::read_of_written(zeros, layout, FIELDS as nat, 0);
        assert(bitstring::field(bytes, STATUS_CHANGE_LSB as int, STATUS_CHANGE_WIDTH as nat)
            == layout[0].value as nat % pow2(16));
        bitstring::read_of_written(zeros, layout, FIELDS as nat, 1);
        assert(bitstring::field(bytes, POWER_OP_MODE_LSB as int, POWER_OP_MODE_WIDTH as nat)
            == layout[1].value as nat % pow2(3));
        bitstring::read_of_written(zeros, layout, FIELDS as nat, 2);
        assert(bitstring::field(bytes, CONNECT_STATUS_BIT as int, 1)
            == layout[2].value as nat % pow2(1));
        bitstring::read_of_written(zeros, layout, FIELDS as nat, 3);
        assert(bitstring::field(bytes, POWER_DIRECTION_BIT as int, 1)
            == layout[3].value as nat % pow2(1));
        bitstring::read_of_written(zeros, layout, FIELDS as nat, 4);
        assert(bitstring::field(bytes, PARTNER_FLAGS_LSB as int, PARTNER_FLAGS_WIDTH as nat)
            == layout[4].value as nat % pow2(8));
        bitstring::read_of_written(zeros, layout, FIELDS as nat, 5);
        assert(bitstring::field(bytes, PARTNER_TYPE_LSB as int, PARTNER_TYPE_WIDTH as nat)
            == layout[5].value as nat % pow2(3));
        bitstring::read_of_written(zeros, layout, FIELDS as nat, 6);
        assert(bitstring::field(bytes, RDO_LSB as int, RDO_WIDTH as nat)
            == layout[6].value as nat % pow2(32));
        bitstring::read_of_written(zeros, layout, FIELDS as nat, 7);
        assert(bitstring::field(bytes, BATTERY_CHARGING_STATUS_LSB as int, BATTERY_CHARGING_STATUS_WIDTH as nat)
            == layout[7].value as nat % pow2(2));
        bitstring::read_of_written(zeros, layout, FIELDS as nat, 8);
        assert(bitstring::field(bytes, PROVIDER_CAPS_LIMITED_LSB as int, PROVIDER_CAPS_LIMITED_WIDTH as nat)
            == layout[8].value as nat % pow2(4));
        bitstring::read_of_written(zeros, layout, FIELDS as nat, 9);
        assert(bitstring::field(bytes, BCD_PD_VERSION_LSB as int, BCD_PD_VERSION_WIDTH as nat)
            == layout[9].value as nat % pow2(16));
        bitstring::read_of_written(zeros, layout, FIELDS as nat, 10);
        assert(bitstring::field(bytes, ORIENTATION_BIT as int, 1)
            == layout[10].value as nat % pow2(1));
        bitstring::read_of_written(zeros, layout, FIELDS as nat, 11);
        assert(bitstring::field(bytes, SINK_PATH_STATUS_BIT as int, 1)
            == layout[11].value as nat % pow2(1));
        bitstring::read_of_written(zeros, layout, FIELDS as nat, 12);
        assert(bitstring::field(bytes, REVERSE_CURRENT_PROTECTION_STATUS_BIT as int, 1)
            == layout[12].value as nat % pow2(1));
        bitstring::read_of_written(zeros, layout, FIELDS as nat, 13);
        assert(bitstring::field(bytes, POWER_READING_READY_BIT as int, 1)
            == layout[13].value as nat % pow2(1));
        bitstring::read_of_written(zeros, layout, FIELDS as nat, 14);
        assert(bitstring::field(bytes, CURRENT_SCALE_LSB as int, CURRENT_SCALE_WIDTH as nat)
            == layout[14].value as nat % pow2(3));
        bitstring::read_of_written(zeros, layout, FIELDS as nat, 15);
        assert(bitstring::field(bytes, PEAK_CURRENT_LSB as int, PEAK_CURRENT_WIDTH as nat)
            == layout[15].value as nat % pow2(16));
        bitstring::read_of_written(zeros, layout, FIELDS as nat, 16);
        assert(bitstring::field(bytes, AVG_CURRENT_LSB as int, AVG_CURRENT_WIDTH as nat)
            == layout[16].value as nat % pow2(16));
        bitstring::read_of_written(zeros, layout, FIELDS as nat, 17);
        assert(bitstring::field(bytes, VOLTAGE_SCALE_LSB as int, VOLTAGE_SCALE_WIDTH as nat)
            == layout[17].value as nat % pow2(4));
        bitstring::read_of_written(zeros, layout, FIELDS as nat, 18);
        assert(bitstring::field(bytes, VOLTAGE_READING_LSB as int, VOLTAGE_READING_WIDTH as nat)
            == layout[18].value as nat % pow2(16));
    }

    /// Writes the fields into nineteen bytes.
    pub fn pack(&self) -> (bytes: [u8; RESPONSE_DATA_LEN])
        ensures
            bytes@ == self.bytes(),
    {
        let writes: [Write; FIELDS] = [
            Write {
                lsb: STATUS_CHANGE_LSB,
                width: STATUS_CHANGE_WIDTH,
                value: self.status_change as u32,
            },
            Write {
                lsb: POWER_OP_MODE_LSB,
                width: POWER_OP_MODE_WIDTH,
                value: self.power_op_mode as u32,
            },
            Write {
                lsb: CONNECT_STATUS_BIT,
                width: 1,
                value: bitstring::bit_value(self.connect_status),
            },
            Write {
                lsb: POWER_DIRECTION_BIT,
                width: 1,
                value: bitstring::bit_value(self.power_direction),
            },
            Write {
                lsb: PARTNER_FLAGS_LSB,
                width: PARTNER_FLAGS_WIDTH,
                value: self.partner_flags as u32,
            },
            Write {
                lsb: PARTNER_TYPE_LSB,
                width: PARTNER_TYPE_WIDTH,
                value: self.partner_type as u32,
            },
            Write { lsb: RDO_LSB, width: RDO_WIDTH, value: self.rdo },
            Write {
                lsb: BATTERY_CHARGING_STATUS_LSB,
                width: BATTERY_CHARGING_STATUS_WIDTH,
                value: self.battery_charging_status as u32,
            },
            Write {
                lsb: PROVIDER_CAPS_LIMITED_LSB,
                width: PROVIDER_CAPS_LIMITED_WIDTH,
                value: self.provider_caps_limited as u32,
            },
            Write {
                lsb: BCD_PD_VERSION_LSB,
                width: BCD_PD_VERSION_WIDTH,
                value: self.bcd_pd_version as u32,
            },
            Write { lsb: ORIENTATION_BIT, width: 1, value: bitstring::bit_value(self.orientation) },
            Write {
                lsb: SINK_PATH_STATUS_BIT,
                width: 1,
                value: bitstring::bit_value(self.sink_path_status),
            },
            Write {
                lsb: REVERSE_CURRENT_PROTECTION_STATUS_BIT,
                width: 1,
                value: bitstring::bit_value(self.reverse_current_protection_status),
            },
            Write {
                lsb: POWER_READING_READY_BIT,
                width: 1,
                value: bitstring::bit_value(self.power_reading_ready),
            },
            Write {
                lsb: CURRENT_SCALE_LSB,
                width: CURRENT_SCALE_WIDTH,
                value: self.current_scale as u32,
            },
            Write {
                lsb: PEAK_CURRENT_LSB,
                width: PEAK_CURRENT_WIDTH,
                value: self.peak_current as u32,
            },
            Write {
                lsb: AVG_CURRENT_LSB,
                width: AVG_CURRENT_WIDTH,
                value: self.avg_current as u32,
            },
            Write {
                lsb: VOLTAGE_SCALE_LSB,
                width: VOLTAGE_SCALE_WIDTH,
                value: self.voltage_scale as u32,
            },
            Write {
                lsb: VOLTAGE_READING_LSB,
                width: VOLTAGE_READING_WIDTH,
                value: self.voltage_reading as u32,
            },
        ];
        let mut bytes = [0u8; RESPONSE_DATA_LEN];
        proof {
            assert(bytes@ =~= wire::zeros(RESPONSE_DATA_LEN as nat));
            ResponseDataRaw::layout_is_laid_out(*self);
            assert(writes@ =~= self.layout());
        }
        bitstring::write_all(&mut bytes, &writes);
        bytes
    }

    /// Reads the fields from nineteen bytes.
    pub fn unpack(bytes: &[u8; RESPONSE_DATA_LEN]) -> (raw: Self)
        ensures
            raw == ResponseDataRaw::of_bytes(bytes@),
    {
        ResponseDataRaw {
            status_change: bitstring::get_field_u16(bytes, STATUS_CHANGE_LSB, STATUS_CHANGE_WIDTH),
            power_op_mode: bitstring::get_field_u8(bytes, POWER_OP_MODE_LSB, POWER_OP_MODE_WIDTH),
            connect_status: bitstring::get_flag(bytes, CONNECT_STATUS_BIT),
            power_direction: bitstring::get_flag(bytes, POWER_DIRECTION_BIT),
            partner_flags: bitstring::get_field_u8(bytes, PARTNER_FLAGS_LSB, PARTNER_FLAGS_WIDTH),
            partner_type: bitstring::get_field_u8(bytes, PARTNER_TYPE_LSB, PARTNER_TYPE_WIDTH),
            rdo: bitstring::get_field(bytes, RDO_LSB, RDO_WIDTH),
            battery_charging_status: bitstring::get_field_u8(
                bytes,
                BATTERY_CHARGING_STATUS_LSB,
                BATTERY_CHARGING_STATUS_WIDTH,
            ),
            provider_caps_limited: bitstring::get_field_u8(
                bytes,
                PROVIDER_CAPS_LIMITED_LSB,
                PROVIDER_CAPS_LIMITED_WIDTH,
            ),
            bcd_pd_version: bitstring::get_field_u16(
                bytes,
                BCD_PD_VERSION_LSB,
                BCD_PD_VERSION_WIDTH,
            ),
            orientation: bitstring::get_flag(bytes, ORIENTATION_BIT),
            sink_path_status: bitstring::get_flag(bytes, SINK_PATH_STATUS_BIT),
            reverse_current_protection_status: bitstring::get_flag(
                bytes,
                REVERSE_CURRENT_PROTECTION_STATUS_BIT,
            ),
            power_reading_ready: bitstring::get_flag(bytes, POWER_READING_READY_BIT),
            current_scale: bitstring::get_field_u8(bytes, CURRENT_SCALE_LSB, CURRENT_SCALE_WIDTH),
            peak_current: bitstring::get_field_u16(bytes, PEAK_CURRENT_LSB, PEAK_CURRENT_WIDTH),
            avg_current: bitstring::get_field_u16(bytes, AVG_CURRENT_LSB, AVG_CURRENT_WIDTH),
            voltage_scale: bitstring::get_field_u8(bytes, VOLTAGE_SCALE_LSB, VOLTAGE_SCALE_WIDTH),
            voltage_reading: bitstring::get_field_u16(
                bytes,
                VOLTAGE_READING_LSB,
                VOLTAGE_READING_WIDTH,
            ),
        }
    }
}

impl ConnectedStatus {
    /// The status that the fields of a response stand for, or the first
    /// field that holds a number that its type does not admit.
    ///
    /// The RDO and the PD version are present in PD mode only, and the RDO
    /// only if it is not zero; the battery charging status is present for a
    /// sink only; the reason for limited capabilities is present unless it
    /// is zero.
    pub open spec fn of_raw(raw: ResponseDataRaw) -> Result<ConnectedStatus, InvalidResponseData> {
        let power_direction = if raw.power_direction {
            PowerRole::Source
        } else {
            PowerRole::Sink
        };
        if PowerOperationMode::of_number(raw.power_op_mode) is None {
            Err(
                InvalidResponseData::InvalidPowerOperationMode(
                    InvalidPowerOperationMode(raw.power_op_mode),
                ),
            )
        } else if ConnectorPartnerType::of_number(raw.partner_type) is None {
            Err(
                InvalidResponseData::InvalidConnectorPartnerType(
                    InvalidConnectorPartnerType(raw.partner_type),
                ),
            )
        } else if power_direction == PowerRole::Sink && BatteryChargingCapabilityStatus::of_number(
            raw.battery_charging_status,
        ) is None {
            Err(
                InvalidResponseData::InvalidBatteryChargingCapabilityStatus(
                    InvalidBatteryChargingCapabilityStatus(raw.battery_charging_status),
                ),
            )
        } else {
            let power_op_mode = PowerOperationMode::of_number(raw.power_op_mode)->0;
            Ok(
                ConnectedStatus {
                    power_op_mode,
                    power_direction,
                    partner_flags: ConnectorPartnerFlags(raw.partner_flags),
                    partner_type: ConnectorPartnerType::of_number(raw.partner_type)->0,
                    rdo: if power_op_mode == PowerOperationMode::Pd && raw.rdo != 0 {
                        Some(raw.rdo)
                    } else {
                        None
                    },
                    battery_charging_status: if power_direction == PowerRole::Sink {
                        BatteryChargingCapabilityStatus::of_number(raw.battery_charging_status)
                    } else {
                        None
                    },
                    provider_caps_limited: if raw.provider_caps_limited != 0 {
                        Some(ProviderCapsLimitedReason(raw.provider_caps_limited))
                    } else {
                        None
                    },
                    bcd_pd_version: if power_op_mode == PowerOperationMode::Pd {
                        Some(raw.bcd_pd_version)
                    } else {
                        None
                    },
                    orientation: if raw.orientation {
                        PlugOrientation::CC2
                    } else {
                        PlugOrientation::CC1
                    },
                    sink_path_status: raw.sink_path_status,
                },
            )
        }
    }

    /// Whether the status keeps its values on the wire: what is present is
    /// what its mode and direction call for, and fits its field.
    pub open spec fn fits(self) -> bool {
        &&& self.rdo matches Some(rdo) ==> self.power_op_mode == PowerOperationMode::Pd && rdo != 0
        &&& self.battery_charging_status is Some <==> self.power_direction == PowerRole::Sink
        &&& self.provider_caps_limited matches Some(limited) ==> 0 < limited.0 <= 0xf
        &&& self.bcd_pd_version is Some <==> self.power_op_mode == PowerOperationMode::Pd
    }
}

impl PowerReading {
    /// The power reading that the fields of a response stand for: each scale
    /// in units of 5, each reading a count of its scale; a reading beyond 16
    /// bits wraps around.
    pub open spec fn of_raw(raw: ResponseDataRaw) -> PowerReading {
        let scale_ma = pdo::scaled(raw.current_scale as u16, MA5_UNIT);
        let scale_mv = pdo::scaled(raw.voltage_scale as u16, MV5_UNIT);
        PowerReading {
            scale_ma,
            peak_current_ma: pdo::scaled(raw.peak_current, scale_ma),
            avg_current_ma: pdo::scaled(raw.avg_current, scale_ma),
            scale_mv,
            voltage_reading_mv: pdo::scaled(raw.voltage_reading, scale_mv),
        }
    }

    /// Whether the reading keeps its values on the wire: each scale is a
    /// count of units of 5 that fits its field and is not zero, and each
    /// reading is a whole count of its scale.
    pub open spec fn fits(self) -> bool {
        &&& self.scale_ma % MA5_UNIT == 0
        &&& 0 < self.scale_ma / MA5_UNIT <= 0x7
        &&& self.scale_mv % MV5_UNIT == 0
        &&& 0 < self.scale_mv / MV5_UNIT <= 0xf
        &&& self.peak_current_ma % self.scale_ma == 0
        &&& self.avg_current_ma % self.scale_ma == 0
        &&& self.voltage_reading_mv % self.scale_mv == 0
    }
}

impl ResponseData {
    /// The response that the fields on the wire stand for, or the first
    /// field that holds a number that its type does not admit.
    ///
    /// The status is present if the connector is connected, the power
    /// reading if it is marked ready.
    pub open spec fn of_raw(raw: ResponseDataRaw) -> Result<ResponseData, InvalidResponseData> {
        let rest = ResponseData {
            status_change: ConnectorStatusChange(raw.status_change),
            connect_status: raw.connect_status,
            status: None,
            reverse_current_protection_status: raw.reverse_current_protection_status,
            power_reading: if raw.power_reading_ready {
                Some(PowerReading::of_raw(raw))
            } else {
                None
            },
        };
        if raw.connect_status {
            match ConnectedStatus::of_raw(raw) {
                Err(invalid) => Err(invalid),
                Ok(status) => Ok(ResponseData { status: Some(status), ..rest }),
            }
        } else {
            Ok(rest)
        }
    }

    /// The fields of the response as they go on the wire, with zero for
    /// what is absent. A scale goes in units of 5, a reading as the count of
    /// its scale.
    pub open spec fn raw(self) -> ResponseDataRaw {
        ResponseDataRaw {
            status_change: self.status_change.0,
            power_op_mode: match self.status {
                Some(s) => s.power_op_mode.number(),
                None => 0,
            },
            connect_status: self.connect_status,
            power_direction: match self.status {
                Some(s) => s.power_direction == PowerRole::Source,
                None => false,
            },
            partner_flags: match self.status {
                Some(s) => s.partner_flags.0,
                None => 0,
            },
            partner_type: match self.status {
                Some(s) => s.partner_type.number(),
                None => 0,
            },
            rdo: match self.status {
                Some(ConnectedStatus { rdo: Some(rdo), .. }) => rdo,
                _ => 0,
            },
            battery_charging_status: match self.status {
                Some(ConnectedStatus { battery_charging_status: Some(battery), .. }) => battery.number(),
                _ => 0,
            },
            provider_caps_limited: match self.status {
                Some(ConnectedStatus { provider_caps_limited: Some(limited), .. }) => limited.0,
                _ => 0,
            },
            bcd_pd_version: match self.status {
                Some(ConnectedStatus { bcd_pd_version: Some(version), .. }) => version,
                _ => 0,
            },
            orientation: match self.status {
                Some(s) => s.orientation == PlugOrientation::CC2,
                None => false,
            },
            sink_path_status: match self.status {
                Some(s) => s.sink_path_status,
                None => false,
            },
            reverse_current_protection_status: self.reverse_current_protection_status,
            power_reading_ready: self.power_reading is Some,
            current_scale: match self.power_reading {
                Some(r) => (r.scale_ma / MA5_UNIT) as u8,
                None => 0,
            },
            peak_current: match self.power_reading {
                Some(r) => count_of(r.peak_current_ma, r.scale_ma),
                None => 0,
            },
            avg_current: match self.power_reading {
                Some(r) => count_of(r.avg_current_ma, r.scale_ma),
                None => 0,
            },
            voltage_scale: match self.power_reading {
                Some(r) => (r.scale_mv / MV5_UNIT) as u8,
                None => 0,
            },
            voltage_reading: match self.power_reading {
                Some(r) => count_of(r.voltage_reading_mv, r.scale_mv),
                None => 0,
            },
        }
    }

    /// The response that the nineteen bytes at the head of `bytes` stand
    /// for, or the first field that holds a number that its type does not
    /// admit.
    pub open spec fn of_bytes(bytes: Seq<u8>) -> Result<ResponseData, InvalidResponseData> {
        ResponseData::of_raw(ResponseDataRaw::of_bytes(bytes))
    }

    /// The response's nineteen bytes.
    pub open spec fn bytes(self) -> Seq<u8> {
        self.raw().bytes()
    }

    /// Whether the response keeps its values on the wire: the status is
    /// present if and only if the connector is connected, and the status and
    /// the power reading fit.
    pub open spec fn fits(self) -> bool {
        &&& self.status is Some <==> self.connect_status
        &&& self.status matches Some(status) ==> status.fits()
        &&& self.power_reading matches Some(reading) ==> reading.fits()
    }

    /// The response on the wire: its nineteen bytes.
    pub open spec fn encoding(self) -> Seq<u8> {
        self.bytes()
    }

    /// What decoding the response from the head of `bytes` yields.
    pub open spec fn decoding(bytes: Seq<u8>) -> Result<(ResponseData, usize), DecodeError> {
        match wire::reading_bytes(bytes, RESPONSE_DATA_LEN) {
            Err(error) => Err(error),
            Ok((taken, count)) => match ResponseData::of_bytes(taken) {
                Ok(response) => Ok((response, count)),
                Err(invalid) => Err(invalid.decode_error()),
            },
        }
    }

    proof fn whole_counts(quantity: u16, scale: u16)
        requires
            scale > 0,
            quantity % scale == 0,
        ensures
            pdo::scaled(count_of(quantity, scale), scale) == quantity,
    {
        let whole = quantity / scale;
        assert(whole * scale == quantity) by (nonlinear_arith)
            requires
                scale > 0,
                quantity % scale == 0,
                whole == quantity / scale,
        ;
        assert((whole as nat * scale as nat) % 0x1_0000 == quantity) by (nonlinear_arith)
            requires
                whole * scale == quantity,
                0 <= quantity <= 0xffff,
                whole >= 0,
                scale > 0,
        ;
    }

    /// A response that fits is the response of its fields on the wire, and
    /// each of those fits its width.
    pub proof fn of_its_raw(response: ResponseData)
        requires
            response.fits(),
        ensures
            response.raw().fits(),
            ResponseData::of_raw(response.raw()) == Ok::<ResponseData, InvalidResponseData>(
                response,
            ),
    {
        let raw = response.raw();
        if response.power_reading is Some {
            let reading = response.power_reading->0;
            ResponseData::whole_counts(reading.scale_ma, MA5_UNIT);
            ResponseData::whole_counts(reading.scale_mv, MV5_UNIT);
            ResponseData::whole_counts(reading.peak_current_ma, reading.scale_ma);
            ResponseData::whole_counts(reading.avg_current_ma, reading.scale_ma);
            ResponseData::whole_counts(reading.voltage_reading_mv, reading.scale_mv);
            assert(PowerReading::of_raw(raw) == reading);
        }
        if response.status is Some {
            let status = response.status->0;
            assert(ConnectedStatus::of_raw(raw) == Ok::<ConnectedStatus, InvalidResponseData>(
                status,
            ));
        }
    }

    /// A response that fits is the response of its bytes.
    pub proof fn of_its_bytes(response: ResponseData)
        requires
            response.fits(),
        ensures
            response.bytes().len() == RESPONSE_DATA_LEN,
            ResponseData::of_bytes(response.bytes()) == Ok::<ResponseData, InvalidResponseData>(
                response,
            ),
    {
        ResponseData::of_its_raw(response);
        ResponseDataRaw::of_its_bytes(response.raw());
    }

    /// A response that fits decodes from its encoding, whatever follows it.
    pub proof fn decoding_of_encoding(response: ResponseData, tail: Seq<u8>)
        requires
            response.fits(),
        ensures
            ResponseData::decoding(response.encoding() + tail) == Ok::<
                (ResponseData, usize),
                DecodeError,
            >((response, RESPONSE_DATA_LEN)),
            (response.encoding() + tail).skip(RESPONSE_DATA_LEN as int) == tail,
    {
        ResponseData::of_its_bytes(response);
        let bytes = response.encoding() + tail;
        assert(bytes.take(RESPONSE_DATA_LEN as int) =~= response.bytes());
        assert(bytes.skip(RESPONSE_DATA_LEN as int) =~= tail);
    }

    /// Appends the response's nineteen bytes.
    pub fn encode(&self, out: &mut Vec<u8>)
        ensures
            final(out)@ == old(out)@ + self.encoding(),
    {
        let raw: [u8; RESPONSE_DATA_LEN] = (*self).into();
        wire::write_bytes(out, raw.as_slice());
    }

    /// Decodes the response from nineteen bytes.
    ///
    /// Fails with `UnexpectedVariant` if the connector is connected and the
    /// power operation mode or the partner type is none of its type.
    pub fn decode(bytes: &[u8]) -> (decoded: Result<(Self, usize), DecodeError>)
        ensures
            decoded == ResponseData::decoding(bytes@),
    {
        let (raw, taken) = wire::read_array::<RESPONSE_DATA_LEN>(bytes)?;
        proof {
            wire::array_of_holds::<RESPONSE_DATA_LEN>(bytes@, raw);
        }
        match ResponseData::try_from(raw) {
            Ok(response) => Ok((response, taken)),
            Err(invalid) => Err(DecodeError::from(invalid)),
        }
    }

    fn status_from(raw: &ResponseDataRaw) -> (status: Result<ConnectedStatus, InvalidResponseData>)
        ensures
            status == ConnectedStatus::of_raw(*raw),
    {
        let power_op_mode = match PowerOperationMode::try_from(raw.power_op_mode) {
            Ok(mode) => mode,
            Err(invalid) => {
                return Err(InvalidResponseData::InvalidPowerOperationMode(invalid));
            },
        };
        let power_direction = if raw.power_direction {
            PowerRole::Source
        } else {
            PowerRole::Sink
        };
        let partner_flags = ConnectorPartnerFlags::from(raw.partner_flags);
        let partner_type = match ConnectorPartnerType::try_from(raw.partner_type) {
            Ok(partner) => partner,
            Err(invalid) => {
                return Err(InvalidResponseData::InvalidConnectorPartnerType(invalid));
            },
        };
        let in_pd_mode = matches!(power_op_mode, PowerOperationMode::Pd);
        let rdo = if in_pd_mode && raw.rdo != 0 {
            Some(raw.rdo)
        } else {
            None
        };
        let battery_charging_status = if !raw.power_direction {
            match BatteryChargingCapabilityStatus::try_from(raw.battery_charging_status) {
                Ok(battery) => Some(battery),
                Err(invalid) => {
                    return Err(
                        InvalidResponseData::InvalidBatteryChargingCapabilityStatus(invalid),
                    );
                },
            }
        } else {
            None
        };
        let provider_caps_limited = if raw.provider_caps_limited != 0 {
            Some(ProviderCapsLimitedReason::from(raw.provider_caps_limited))
        } else {
            None
        };
        let bcd_pd_version = if in_pd_mode {
            Some(raw.bcd_pd_version)
        } else {
            None
        };
        let orientation = if raw.orientation {
            PlugOrientation::CC2
        } else {
            PlugOrientation::CC1
        };
        Ok(
            ConnectedStatus {
                power_op_mode,
                power_direction,
                partner_flags,
                partner_type,
                rdo,
                battery_charging_status,
                provider_caps_limited,
                bcd_pd_version,
                orientation,
                sink_path_status: raw.sink_path_status,
            },
        )
    }

    fn reading_from(raw: &ResponseDataRaw) -> (reading: PowerReading)
        ensures
            reading == PowerReading::of_raw(*raw),
    {
        let scale_ma = pdo::scale(raw.current_scale as u16, MA5_UNIT);
        let scale_mv = pdo::scale(raw.voltage_scale as u16, MV5_UNIT);
        PowerReading {
            scale_ma,
            peak_current_ma: pdo::scale(raw.peak_current, scale_ma),
            avg_current_ma: pdo::scale(raw.avg_current, scale_ma),
            scale_mv,
            voltage_reading_mv: pdo::scale(raw.voltage_reading, scale_mv),
        }
    }

    /// Puts the response into the fields that go on the wire.
    pub fn to_raw(&self) -> (raw: ResponseDataRaw)
        ensures
            raw == self.raw(),
    {
        let (
            power_op_mode,
            power_direction,
            partner_flags,
            partner_type,
            rdo,
            battery_charging_status,
            provider_caps_limited,
            bcd_pd_version,
            orientation,
            sink_path_status,
        ): (u8, bool, u8, u8, u32, u8, u8, u16, bool, bool) = match self.status {
            Some(s) => (
                s.power_op_mode.to_number(),
                matches!(s.power_direction, PowerRole::Source),
                s.partner_flags.0,
                s.partner_type.to_number(),
                match s.rdo {
                    Some(rdo) => rdo,
                    None => 0,
                },
                match s.battery_charging_status {
                    Some(battery) => battery.to_number(),
                    None => 0,
                },
                match s.provider_caps_limited {
                    Some(limited) => limited.0,
                    None => 0,
                },
                match s.bcd_pd_version {
                    Some(version) => version,
                    None => 0,
                },
                matches!(s.orientation, PlugOrientation::CC2),
                s.sink_path_status,
            ),
            None => (0, false, 0, 0, 0, 0, 0, 0, false, false),
        };
        let (
            power_reading_ready,
            current_scale,
            peak_current,
            avg_current,
            voltage_scale,
            voltage_reading,
        ): (bool, u8, u16, u16, u8, u16) = match self.power_reading {
            Some(r) => (
                true,
                (r.scale_ma / MA5_UNIT) as u8,
                count(r.peak_current_ma, r.scale_ma),
                count(r.avg_current_ma, r.scale_ma),
                (r.scale_mv / MV5_UNIT) as u8,
                count(r.voltage_reading_mv, r.scale_mv),
            ),
            None => (false, 0, 0, 0, 0, 0),
        };
        ResponseDataRaw {
            status_change: self.status_change.0,
            power_op_mode,
            connect_status: self.connect_status,
            power_direction,
            partner_flags,
            partner_type,
            rdo,
            battery_charging_status,
            provider_caps_limited,
            bcd_pd_version,
            orientation,
            sink_path_status,
            reverse_current_protection_status: self.reverse_current_protection_status,
            power_reading_ready,
            current_scale,
            peak_current,
            avg_current,
            voltage_scale,
            voltage_reading,
        }
    }

    /// Reads the response out of the fields that came over the wire.
    pub fn from_raw(raw: &ResponseDataRaw) -> (response: Result<Self, InvalidResponseData>)
        ensures
            response == ResponseData::of_raw(*raw),
    {
        let status = if raw.connect_status {
            match ResponseData::status_from(raw) {
                Ok(status) => Some(status),
                Err(invalid) => {
                    return Err(invalid);
                },
            }
        } else {
            None
        };
        let power_reading = if raw.power_reading_ready {
            Some(ResponseData::reading_from(raw))
        } else {
            None
        };
        Ok(
            ResponseData {
                status_change: ConnectorStatusChange::from(raw.status_change),
                connect_status: raw.connect_status,
                status,
                reverse_current_protection_status: raw.reverse_current_protection_status,
                power_reading,
            },
        )
    }
}

impl TryFrom<[u8; RESPONSE_DATA_LEN]> for ResponseData {
    type Error = InvalidResponseData;

    fn try_from(data: [u8; RESPONSE_DATA_LEN]) -> (response: Result<Self, InvalidResponseData>) {
        let raw = ResponseDataRaw::unpack(&data);
        ResponseData::from_raw(&raw)
    }
}

impl TryFromSpecImpl<[u8; RESPONSE_DATA_LEN]> for ResponseData {
    open spec fn obeys_try_from_spec() -> bool {
        true
    }

    open spec fn try_from_spec(data: [u8; RESPONSE_DATA_LEN]) -> Result<Self, InvalidResponseData> {
        ResponseData::of_bytes(data@)
    }
}

impl From<ResponseData> for [u8; RESPONSE_DATA_LEN] {
    fn from(data: ResponseData) -> (raw: [u8; RESPONSE_DATA_LEN])
        ensures
            raw@ == data.bytes(),
    {
        let raw = data.to_raw().pack();
        proof {
            wire::array_of_holds::<RESPONSE_DATA_LEN>(data.bytes(), raw);
        }
        raw
    }
}

impl FromSpecImpl<ResponseData> for [u8; RESPONSE_DATA_LEN] {
    open spec fn obeys_from_spec() -> bool {
        true
    }

    open spec fn from_spec(data: ResponseData) -> [u8; RESPONSE_DATA_LEN] {
        wire::array_of::<RESPONSE_DATA_LEN>(data.bytes())
    }
}

/// Command arguments
#[derive(Copy, Clone, Debug, Default, PartialEq, Eq)]
pub struct Args;

impl Args {
    /// The arguments on the wire: padding only.
    pub open spec fn encoding(self) -> Seq<u8> {
        wire::zeros(COMMAND_PADDING as nat)
    }

    /// What decoding the arguments from the head of `bytes` yields.
    pub open spec fn decoding(bytes: Seq<u8>) -> Result<(Args, usize), DecodeError> {
        match wire::reading_bytes(bytes, COMMAND_PADDING) {
            Err(error) => Err(error),
            Ok((_, taken)) => Ok((Args, taken)),
        }
    }

    /// Appends the padding that stands for the arguments.
    pub fn encode(&self, out: &mut Vec<u8>)
        ensures
            final(out)@ == old(out)@ + self.encoding(),
    {
        wire::write_padding(out, COMMAND_PADDING);
    }

    /// Reads over the padding that stands for the arguments.
    pub fn decode(bytes: &[u8]) -> (decoded: Result<(Self, usize), DecodeError>)
        ensures
            decoded == Args::decoding(bytes@),
    {
        let taken = wire::read_padding(bytes, COMMAND_PADDING)?;
        Ok((Args, taken))
    }

    /// The encoded arguments decode to the arguments, whatever follows them.
    pub proof fn decoding_of_encoding(args: Args, tail: Seq<u8>)
        ensures
            Args::decoding(args.encoding() + tail) == Ok::<(Args, usize), DecodeError>(
                (args, COMMAND_PADDING),
            ),
            (args.encoding() + tail).skip(COMMAND_PADDING as int) == tail,
    {
        assert((args.encoding() + tail).skip(COMMAND_PADDING as int) =~= tail);
    }
}

} // verus!
