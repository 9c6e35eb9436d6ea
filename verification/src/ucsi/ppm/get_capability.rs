//! Types for the GET_CAPABILITY command, see UCSI spec 6.5.
use crate::bits;
use crate::ucsi::COMMAND_LEN;
use crate::ucsi::HEADER_LEN;
use crate::wire;
use crate::wire::DecodeError;
use vstd::prelude::*;
use vstd::std_specs::convert::FromSpecImpl;

verus! {

/// Data length for the GET_CAPABILITY command response
pub const RESPONSE_DATA_LEN: usize = 16;

/// Zero bytes that follow the header
pub const COMMAND_PADDING: usize = COMMAND_LEN - HEADER_LEN;

/// Bits of the optional features that travel on the wire
pub const OPTIONAL_FEATURES_BITS: u32 = 24;

/// GetCapability command
#[derive(Copy, Clone, Debug, Default, PartialEq, Eq)]
pub struct Args;

impl Args {
    /// The arguments on the wire: padding only.
    pub open spec fn encoding(self) -> Seq<u8> {
        wire::zeros(COMMAND_PADDING as nat)
    }

    /// What decoding the arguments from the head of `bytes` yields.
    pub open spec fn decoding(bytes: Seq<u8>) -> Result<(Args, usize), DecodeError> {
        match wire::reading_bytes(bytes, COMMAND_PADDING) {
            Err(error) => Err(error),
            Ok((_, taken)) => Ok((Args, taken)),
        }
    }

    /// Appends the padding that stands for the arguments.
    pub fn encode(&self, out: &mut Vec<u8>)
        ensures
            final(out)@ == old(out)@ + self.encoding(),
    {
        wire::write_padding(out, COMMAND_PADDING);
    }

    /// Reads over the padding that stands for the arguments.
    pub fn decode(bytes: &[u8]) -> (decoded: Result<(Self, usize), DecodeError>)
        ensures
            decoded == Args::decoding(bytes@),
    {
        let taken = wire::read_padding(bytes, COMMAND_PADDING)?;
        Ok((Args, taken))
    }

    /// The encoded arguments decode to the arguments, whatever follows them.
    pub proof fn decoding_of_encoding(args: Args, tail: Seq<u8>)
        ensures
            Args::decoding(args.encoding() + tail) == Ok::<(Args, usize), DecodeError>(
                (args, COMMAND_PADDING),
            ),
            (args.encoding() + tail).skip(COMMAND_PADDING as int) == tail,
    {
        assert((args.encoding() + tail).skip(COMMAND_PADDING as int) =~= tail);
    }
}

/// Bit of the optional features word that holds `set_ccom_supported`.
pub const FEATURE_SET_CCOM_SUPPORTED_BIT: u32 = 0;

/// Bit of the optional features word that holds `set_power_level_supported`.
pub const FEATURE_SET_POWER_LEVEL_SUPPORTED_BIT: u32 = 1;

/// Bit of the optional features word that holds `altmode_details_supported`.
pub const FEATURE_ALTMODE_DETAILS_SUPPORTED_BIT: u32 = 2;

/// Bit of the optional features word that holds `altmode_override_supported`.
pub const FEATURE_ALTMODE_OVERRIDE_SUPPORTED_BIT: u32 = 3;

/// Bit of the optional features word that holds `pdo_details_supported`.
pub const FEATURE_PDO_DETAILS_SUPPORTED_BIT: u32 = 4;

/// Bit of the optional features word that holds `cable_details_supported`.
pub const FEATURE_CABLE_DETAILS_SUPPORTED_BIT: u32 = 5;

/// Bit of the optional features word that holds `external_supply_notif_supported`.
pub const FEATURE_EXTERNAL_SUPPLY_NOTIF_SUPPORTED_BIT: u32 = 6;

/// Bit of the optional features word that holds `pd_reset_notif_supported`.
pub const FEATURE_PD_RESET_NOTIF_SUPPORTED_BIT: u32 = 7;

/// Bit of the optional features word that holds `get_pd_msg_supported`.
pub const FEATURE_GET_PD_MSG_SUPPORTED_BIT: u32 = 8;

/// Optional features bitmap of GET_CAPABILITY
#[derive(Copy, Clone, Debug, PartialEq, Eq)]
pub struct OptionalFeatures(pub u32);

impl OptionalFeatures {
    /// Returns whether SET_CCOM is supported
    pub fn set_ccom_supported(&self) -> (on: bool)
        ensures
            on == bits::flag(self.0, FEATURE_SET_CCOM_SUPPORTED_BIT),
    {
        bits::get_flag(self.0, FEATURE_SET_CCOM_SUPPORTED_BIT)
    }

    /// Sets whether SET_CCOM is supported
    pub fn set_set_ccom_supported(&mut self, value: bool) -> (this: &mut Self)
        ensures
            this.0 == bits::with_flag(old(self).0, FEATURE_SET_CCOM_SUPPORTED_BIT, value),
            *final(this) == *final(self),
    {
        self.0 = bits::set_flag(self.0, FEATURE_SET_CCOM_SUPPORTED_BIT, value);
        self
    }

    /// Returns whether SET_POWER_LEVEL is supported
    pub fn set_power_level_supported(&self) -> (on: bool)
        ensures
            on == bits::flag(self.0, FEATURE_SET_POWER_LEVEL_SUPPORTED_BIT),
    {
        bits::get_flag(self.0, FEATURE_SET_POWER_LEVEL_SUPPORTED_BIT)
    }

    /// Sets whether SET_POWER_LEVEL is supported
    pub fn set_set_power_level_supported(&mut self, value: bool) -> (this: &mut Self)
        ensures
            this.0 == bits::with_flag(old(self).0, FEATURE_SET_POWER_LEVEL_SUPPORTED_BIT, value),
            *final(this) == *final(self),
    {
        self.0 = bits::set_flag(self.0, FEATURE_SET_POWER_LEVEL_SUPPORTED_BIT, value);
        self
    }

    /// Returns whether alternate mode details are supported
    pub fn altmode_details_supported(&self) -> (on: bool)
        ensures
            on == bits::flag(self.0, FEATURE_ALTMODE_DETAILS_SUPPORTED_BIT),
    {
        bits::get_flag(self.0, FEATURE_ALTMODE_DETAILS_SUPPORTED_BIT)
    }

    /// Sets whether alternate mode details are supported
    pub fn set_altmode_details_supported(&mut self, value: bool) -> (this: &mut Self)
        ensures
            this.0 == bits::with_flag(old(self).0, FEATURE_ALTMODE_DETAILS_SUPPORTED_BIT, value),
            *final(this) == *final(self),
    {
        self.0 = bits::set_flag(self.0, FEATURE_ALTMODE_DETAILS_SUPPORTED_BIT, value);
        self
    }

    /// Returns whether alternate mode override is supported
    pub fn altmode_override_supported(&self) -> (on: bool)
        ensures
            on == bits::flag(self.0, FEATURE_ALTMODE_OVERRIDE_SUPPORTED_BIT),
    {
        bits::get_flag(self.0, FEATURE_ALTMODE_OVERRIDE_SUPPORTED_BIT)
    }

    /// Sets whether alternate mode override is supported
    pub fn set_altmode_override_supported(&mut self, value: bool) -> (this: &mut Self)
        ensures
            this.0 == bits::with_flag(old(self).0, FEATURE_ALTMODE_OVERRIDE_SUPPORTED_BIT, value),
            *final(this) == *final(self),
    {
        self.0 = bits::set_flag(self.0, FEATURE_ALTMODE_OVERRIDE_SUPPORTED_BIT, value);
        self
    }

    /// Returns whether PDO details are supported
    pub fn pdo_details_supported(&self) -> (on: bool)
        ensures
            on == bits::flag(self.0, FEATURE_PDO_DETAILS_SUPPORTED_BIT),
    {
        bits::get_flag(self.0, FEATURE_PDO_DETAILS_SUPPORTED_BIT)
    }

    /// Sets whether PDO details are supported
    pub fn set_pdo_details_supported(&mut self, value: bool) -> (this: &mut Self)
        ensures
            this.0 == bits::with_flag(old(self).0, FEATURE_PDO_DETAILS_SUPPORTED_BIT, value),
            *final(this) == *final(self),
    {
        self.0 = bits::set_flag(self.0, FEATURE_PDO_DETAILS_SUPPORTED_BIT, value);
        self
    }

    /// Returns whether cable details are supported
    pub fn cable_details_supported(&self) -> (on: bool)
        ensures
            on == bits::flag(self.0, FEATURE_CABLE_DETAILS_SUPPORTED_BIT),
    {
        bits::get_flag(self.0, FEATURE_CABLE_DETAILS_SUPPORTED_BIT)
    }

    /// Sets whether cable details are supported
    pub fn set_cable_details_supported(&mut self, value: bool) -> (this: &mut Self)
        ensures
            this.0 == bits::with_flag(old(self).0, FEATURE_CABLE_DETAILS_SUPPORTED_BIT, value),
            *final(this) == *final(self),
    {
        self.0 = bits::set_flag(self.0, FEATURE_CABLE_DETAILS_SUPPORTED_BIT, value);
        self
    }

    /// Returns whether external supply notification is supported
    pub fn external_supply_notif_supported(&self) -> (on: bool)
        ensures
            on == bits::flag(self.0, FEATURE_EXTERNAL_SUPPLY_NOTIF_SUPPORTED_BIT),
    {
        bits::get_flag(self.0, FEATURE_EXTERNAL_SUPPLY_NOTIF_SUPPORTED_BIT)
    }

    /// Sets whether external supply notification is supported
    pub fn set_external_supply_notif_supported(&mut self, value: bool) -> (this: &mut Self)
        ensures
            this.0 == bits::with_flag(
                old(self).0,
                FEATURE_EXTERNAL_SUPPLY_NOTIF_SUPPORTED_BIT,
                value,
            ),
            *final(this) == *final(self),
    {
        self.0 = bits::set_flag(self.0, FEATURE_EXTERNAL_SUPPLY_NOTIF_SUPPORTED_BIT, value);
        self
    }

    /// Returns whether PD reset notification is supported
    pub fn pd_reset_notif_supported(&self) -> (on: bool)
        ensures
            on == bits::flag(self.0, FEATURE_PD_RESET_NOTIF_SUPPORTED_BIT),
    {
        bits::get_flag(self.0, FEATURE_PD_RESET_NOTIF_SUPPORTED_BIT)
    }

    /// Sets whether PD reset notification is supported
    pub fn set_pd_reset_notif_supported(&mut self, value: bool) -> (this: &mut Self)
        ensures
            this.0 == bits::with_flag(old(self).0, FEATURE_PD_RESET_NOTIF_SUPPORTED_BIT, value),
            *final(this) == *final(self),
    {
        self.0 = bits::set_flag(self.0, FEATURE_PD_RESET_NOTIF_SUPPORTED_BIT, value);
        self
    }

    /// Returns whether GET_PD_MESSAGE is supported
    pub fn get_pd_msg_supported(&self) -> (on: bool)
        ensures
            on == bits::flag(self.0, FEATURE_GET_PD_MSG_SUPPORTED_BIT),
    {
        bits::get_flag(self.0, FEATURE_GET_PD_MSG_SUPPORTED_BIT)
    }

    /// Sets whether GET_PD_MESSAGE is supported
    pub fn set_get_pd_msg_supported(&mut self, value: bool) -> (this: &mut Self)
        ensures
            this.0 == bits::with_flag(old(self).0, FEATURE_GET_PD_MSG_SUPPORTED_BIT, value),
            *final(this) == *final(self),
    {
        self.0 = bits::set_flag(self.0, FEATURE_GET_PD_MSG_SUPPORTED_BIT, value);
        self
    }
}

impl From<u32> for OptionalFeatures {
    fn from(raw: u32) -> (value: Self) {
        OptionalFeatures(raw)
    }
}

impl FromSpecImpl<u32> for OptionalFeatures {
    open spec fn obeys_from_spec() -> bool {
        true
    }

    open spec fn from_spec(raw: u32) -> Self {
        OptionalFeatures(raw)
    }
}

impl Default for OptionalFeatures {
    fn default() -> (value: Self)
        ensures
            value.0 == 0,
    {
        OptionalFeatures(0)
    }
}

impl OptionalFeatures {
    /// The low sixteen bits of the word.
    pub open spec fn lower(self) -> u16 {
        (self.0 & 0xFFFF) as u16
    }

    /// Bits 16 to 23 of the word.
    pub open spec fn upper(self) -> u8 {
        (self.0 >> 16) as u8
    }

    /// The word whose low sixteen bits are `lower` and whose next eight are `upper`.
    pub open spec fn of_parts(lower: u16, upper: u8) -> OptionalFeatures {
        OptionalFeatures(((upper as u32) << 16) | (lower as u32))
    }

    /// The features on the wire: three bytes, low byte first.
    pub open spec fn encoding(self) -> Seq<u8> {
        wire::bytes_of_u16(self.lower()) + seq![self.upper()]
    }

    /// What decoding the features from the head of `bytes` yields.
    pub open spec fn decoding(bytes: Seq<u8>) -> Result<(OptionalFeatures, usize), DecodeError> {
        match wire::reading_u16(bytes) {
            Err(error) => Err(error),
            Ok((lower, taken)) => match wire::reading_u8(bytes.skip(taken as int)) {
                Err(error) => Err(error),
                Ok((upper, more)) => Ok(
                    (OptionalFeatures::of_parts(lower, upper), (taken + more) as usize),
                ),
            },
        }
    }

    /// Appends the features' three bytes; bits 24 to 31 do not travel.
    pub fn encode(&self, out: &mut Vec<u8>)
        ensures
            final(out)@ == old(out)@ + self.encoding(),
    {
        let lower = (self.0 & 0xFFFF) as u16;
        let upper = (self.0 >> 16) as u8;
        wire::write_u16(out, lower);
        wire::write_u8(out, upper);
        assert(out@ =~= old(out)@ + self.encoding());
    }

    /// Decodes the features from three bytes.
    pub fn decode(bytes: &[u8]) -> (decoded: Result<(Self, usize), DecodeError>)
        ensures
            decoded == OptionalFeatures::decoding(bytes@),
    {
        let (lower, taken) = wire::read_u16(bytes)?;
        let (upper, more) = wire::read_u8(wire::rest(bytes, taken))?;
        Ok((OptionalFeatures(((upper as u32) << 16) | (lower as u32)), taken + more))
    }

    /// Features that fit in three bytes are put together again from their parts.
    pub proof fn of_its_parts(features: OptionalFeatures)
        requires
            features.0 >> OPTIONAL_FEATURES_BITS == 0,
        ensures
            OptionalFeatures::of_parts(features.lower(), features.upper()) == features,
    {
        let raw = features.0;
        let lower = (raw & 0xFFFF) as u16;
        let upper = (raw >> 16) as u8;
        assert(((upper as u32) << 16) | (lower as u32) == raw) by (bit_vector)
            requires
                raw >> 24u32 == 0,
                lower == (raw & 0xFFFF) as u16,
                upper == (raw >> 16) as u8,
        ;
    }

    /// Features that fit in three bytes decode from their encoding, whatever follows it.
    pub proof fn decoding_of_encoding(features: OptionalFeatures, tail: Seq<u8>)
        requires
            features.0 >> OPTIONAL_FEATURES_BITS == 0,
        ensures
            OptionalFeatures::decoding(features.encoding() + tail) == Ok::<
                (OptionalFeatures, usize),
                DecodeError,
            >((features, 3usize)),
            (features.encoding() + tail).skip(3) == tail,
    {
        let bytes = features.encoding() + tail;
        let after = seq![features.upper()] + tail;
        assert(bytes =~= wire::bytes_of_u16(features.lower()) + after);
        wire::u16_of_its_bytes(features.lower(), after);
        OptionalFeatures::of_its_parts(features);
        assert(bytes.skip(3) =~= tail);
    }
}

/// Bit of the power source byte that holds `ac_supply`.
pub const SOURCE_AC_SUPPLY_BIT: u32 = 0;

/// Bit of the power source byte that holds `other`.
pub const SOURCE_OTHER_BIT: u32 = 2;

/// Bit of the power source byte that holds `use_vbus`.
pub const SOURCE_USE_VBUS_BIT: u32 = 6;

/// Power sources bitmap of GET_CAPABILITY
#[derive(Copy, Clone, Debug, PartialEq, Eq)]
pub struct PowerSource(pub u8);

impl PowerSource {
    /// Returns whether AC supply is supported
    pub fn ac_supply(&self) -> (on: bool)
        ensures
            on == bits::flag(self.0 as u32, SOURCE_AC_SUPPLY_BIT),
    {
        bits::get_flag(self.0 as u32, SOURCE_AC_SUPPLY_BIT)
    }

    /// Sets whether AC supply is supported
    pub fn set_ac_supply(&mut self, value: bool) -> (this: &mut Self)
        ensures
            this.0 == bits::with_flag(old(self).0 as u32, SOURCE_AC_SUPPLY_BIT, value),
            *final(this) == *final(self),
    {
        self.0 = bits::set_flag_u8(self.0, SOURCE_AC_SUPPLY_BIT, value);
        self
    }

    /// Returns whether other supply is supported
    pub fn other(&self) -> (on: bool)
        ensures
            on == bits::flag(self.0 as u32, SOURCE_OTHER_BIT),
    {
        bits::get_flag(self.0 as u32, SOURCE_OTHER_BIT)
    }

    /// Sets whether other supply is supported
    pub fn set_other(&mut self, value: bool) -> (this: &mut Self)
        ensures
            this.0 == bits::with_flag(old(self).0 as u32, SOURCE_OTHER_BIT, value),
            *final(this) == *final(self),
    {
        self.0 = bits::set_flag_u8(self.0, SOURCE_OTHER_BIT, value);
        self
    }

    /// Returns whether VBUS is used
    pub fn use_vbus(&self) -> (on: bool)
        ensures
            on == bits::flag(self.0 as u32, SOURCE_USE_VBUS_BIT),
    {
        bits::get_flag(self.0 as u32, SOURCE_USE_VBUS_BIT)
    }

    /// Sets whether VBUS is used
    pub fn set_use_vbus(&mut self, value: bool) -> (this: &mut Self)
        ensures
            this.0 == bits::with_flag(old(self).0 as u32, SOURCE_USE_VBUS_BIT, value),
            *final(this) == *final(self),
    {
        self.0 = bits::set_flag_u8(self.0, SOURCE_USE_VBUS_BIT, value);
        self
    }
}

impl From<u8> for PowerSource {
    fn from(raw: u8) -> (value: Self) {
        PowerSource(raw)
    }
}

impl FromSpecImpl<u8> for PowerSource {
    open spec fn obeys_from_spec() -> bool {
        true
    }

    open spec fn from_spec(raw: u8) -> Self {
        PowerSource(raw)
    }
}

impl Default for PowerSource {
    fn default() -> (value: Self)
        ensures
            value.0 == 0,
    {
        PowerSource(0)
    }
}

impl PowerSource {
    /// The power source byte on the wire: its 1 byte.
    pub open spec fn encoding(self) -> Seq<u8> {
        seq![self.0]
    }

    /// What decoding the power source byte from the head of `bytes` yields.
    pub open spec fn decoding(bytes: Seq<u8>) -> Result<(PowerSource, usize), DecodeError> {
        match wire::reading_u8(bytes) {
            Err(error) => Err(error),
            Ok((raw, taken)) => Ok((PowerSource(raw), taken)),
        }
    }

    /// Appends the power source byte.
    pub fn encode(&self, out: &mut Vec<u8>)
        ensures
            final(out)@ == old(out)@ + self.encoding(),
    {
        wire::write_u8(out, self.0);
        assert(out@ =~= old(out)@ + self.encoding());
    }

    /// Decodes the power source byte.
    pub fn decode(bytes: &[u8]) -> (decoded: Result<(Self, usize), DecodeError>)
        ensures
            decoded == PowerSource::decoding(bytes@),
    {
        let (raw, taken) = wire::read_u8(bytes)?;
        Ok((PowerSource(raw), taken))
    }
}

/// Bit of the attributes word that holds `disabled_state_support`.
pub const ATTRIBUTE_DISABLED_STATE_SUPPORT_BIT: u32 = 0;

/// Bit of the attributes word that holds `battery_charging`.
pub const ATTRIBUTE_BATTERY_CHARGING_BIT: u32 = 1;

/// Bit of the attributes word that holds `usb_power_delivery`.
pub const ATTRIBUTE_USB_POWER_DELIVERY_BIT: u32 = 2;

/// Bit of the attributes word that holds `usb_type_c_current`.
pub const ATTRIBUTE_USB_TYPE_C_CURRENT_BIT: u32 = 6;

/// Lowest bit of `power_source` in the attributes word.
pub const ATTRIBUTE_POWER_SOURCE_LSB: u32 = 8;

/// Width in bits of `power_source`.
pub const ATTRIBUTE_POWER_SOURCE_WIDTH: u32 = 8;

/// Attributes bitmap of GET_CAPABILITY
#[derive(Copy, Clone, Debug, PartialEq, Eq)]
pub struct Attributes(pub u32);

impl Attributes {
    /// Returns whether the disabled state is supported
    pub fn disabled_state_support(&self) -> (on: bool)
        ensures
            on == bits::flag(self.0, ATTRIBUTE_DISABLED_STATE_SUPPORT_BIT),
    {
        bits::get_flag(self.0, ATTRIBUTE_DISABLED_STATE_SUPPORT_BIT)
    }

    /// Sets whether the disabled state is supported
    pub fn set_disabled_state_support(&mut self, value: bool) -> (this: &mut Self)
        ensures
            this.0 == bits::with_flag(old(self).0, ATTRIBUTE_DISABLED_STATE_SUPPORT_BIT, value),
            *final(this) == *final(self),
    {
        self.0 = bits::set_flag(self.0, ATTRIBUTE_DISABLED_STATE_SUPPORT_BIT, value);
        self
    }

    /// Returns whether battery charging is supported
    pub fn battery_charging(&self) -> (on: bool)
        ensures
            on == bits::flag(self.0, ATTRIBUTE_BATTERY_CHARGING_BIT),
    {
        bits::get_flag(self.0, ATTRIBUTE_BATTERY_CHARGING_BIT)
    }

    /// Sets whether battery charging is supported
    pub fn set_battery_charging(&mut self, value: bool) -> (this: &mut Self)
        ensures
            this.0 == bits::with_flag(old(self).0, ATTRIBUTE_BATTERY_CHARGING_BIT, value),
            *final(this) == *final(self),
    {
        self.0 = bits::set_flag(self.0, ATTRIBUTE_BATTERY_CHARGING_BIT, value);
        self
    }

    /// Returns whether USB PD is supported
    pub fn usb_power_delivery(&self) -> (on: bool)
        ensures
            on == bits::flag(self.0, ATTRIBUTE_USB_POWER_DELIVERY_BIT),
    {
        bits::get_flag(self.0, ATTRIBUTE_USB_POWER_DELIVERY_BIT)
    }

    /// Sets whether USB PD is supported
    pub fn set_usb_power_delivery(&mut self, value: bool) -> (this: &mut Self)
        ensures
            this.0 == bits::with_flag(old(self).0, ATTRIBUTE_USB_POWER_DELIVERY_BIT, value),
            *final(this) == *final(self),
    {
        self.0 = bits::set_flag(self.0, ATTRIBUTE_USB_POWER_DELIVERY_BIT, value);
        self
    }

    /// Returns whether USB Type-C current is supported
    pub fn usb_type_c_current(&self) -> (on: bool)
        ensures
            on == bits::flag(self.0, ATTRIBUTE_USB_TYPE_C_CURRENT_BIT),
    {
        bits::get_flag(self.0, ATTRIBUTE_USB_TYPE_C_CURRENT_BIT)
    }

    /// Sets whether USB Type-C current is supported
    pub fn set_usb_type_c_current(&mut self, value: bool) -> (this: &mut Self)
        ensures
            this.0 == bits::with_flag(old(self).0, ATTRIBUTE_USB_TYPE_C_CURRENT_BIT, value),
            *final(this) == *final(self),
    {
        self.0 = bits::set_flag(self.0, ATTRIBUTE_USB_TYPE_C_CURRENT_BIT, value);
        self
    }

    /// Returns the power source bitmap
    pub fn power_source(&self) -> (value: PowerSource)
        ensures
            value.0 == bits::field(
                self.0,
                ATTRIBUTE_POWER_SOURCE_LSB,
                ATTRIBUTE_POWER_SOURCE_WIDTH,
            ),
    {
        PowerSource(
            bits::get_field_u8(self.0, ATTRIBUTE_POWER_SOURCE_LSB, ATTRIBUTE_POWER_SOURCE_WIDTH),
        )
    }

    /// Sets the power source bitmap
    pub fn set_power_source(&mut self, value: PowerSource) -> (this: &mut Self)
        ensures
            this.0 == bits::with_field(
                old(self).0,
                ATTRIBUTE_POWER_SOURCE_LSB,
                ATTRIBUTE_POWER_SOURCE_WIDTH,
                value.0 as u32,
            ),
            *final(this) == *final(self),
    {
        self.0 = bits::set_field(
            self.0,
            ATTRIBUTE_POWER_SOURCE_LSB,
            ATTRIBUTE_POWER_SOURCE_WIDTH,
            value.0 as u32,
        );
        self
    }
}

impl From<u32> for Attributes {
    fn from(raw: u32) -> (value: Self) {
        Attributes(raw)
    }
}

impl FromSpecImpl<u32> for Attributes {
    open spec fn obeys_from_spec() -> bool {
        true
    }

    open spec fn from_spec(raw: u32) -> Self {
        Attributes(raw)
    }
}

impl Default for Attributes {
    fn default() -> (value: Self)
        ensures
            value.0 == 0,
    {
        Attributes(0)
    }
}

impl Attributes {
    /// The attributes word on the wire: its 4 bytes, low byte first.
    pub open spec fn encoding(self) -> Seq<u8> {
        wire::bytes_of_u32(self.0)
    }

    /// What decoding the attributes word from the head of `bytes` yields.
    pub open spec fn decoding(bytes: Seq<u8>) -> Result<(Attributes, usize), DecodeError> {
        match wire::reading_u32(bytes) {
            Err(error) => Err(error),
            Ok((raw, taken)) => Ok((Attributes(raw), taken)),
        }
    }

    /// Appends the attributes word.
    pub fn encode(&self, out: &mut Vec<u8>)
        ensures
            final(out)@ == old(out)@ + self.encoding(),
    {
        wire::write_u32(out, self.0);
    }

    /// Decodes the attributes word.
    pub fn decode(bytes: &[u8]) -> (decoded: Result<(Self, usize), DecodeError>)
        ensures
            decoded == Attributes::decoding(bytes@),
    {
        let (raw, taken) = wire::read_u32(bytes)?;
        Ok((Attributes(raw), taken))
    }
}

/// Get capability response data
#[derive(Copy, Clone, Debug, Default, PartialEq, Eq)]
pub struct ResponseData {
    /// Attributes
    pub attributes: Attributes,
    /// Number of connectors
    pub num_connectors: u8,
    /// Optional features
    pub optional_features: OptionalFeatures,
    /// Number of supported alternate modes
    pub num_alt_modes: u8,
    /// BCD coded battery charging spec version
    pub bcd_battery_charging_spec: u16,
    /// BCD coded USB PD spec version
    pub bcd_usb_pd_spec: u16,
    /// BCD coded Type-C spec version
    pub bcd_type_c_spec: u16,
}

impl ResponseData {
    /// The response on the wire: sixteen bytes, among them one reserved zero byte.
    pub open spec fn encoding(self) -> Seq<u8> {
        self.attributes.encoding() + seq![self.num_connectors] + self.optional_features.encoding()
            + seq![self.num_alt_modes, 0u8] + wire::bytes_of_u16(self.bcd_battery_charging_spec)
            + wire::bytes_of_u16(self.bcd_usb_pd_spec) + wire::bytes_of_u16(self.bcd_type_c_spec)
    }

    /// What the sixteen bytes at the head of `bytes` stand for.
    pub open spec fn of_bytes(bytes: Seq<u8>) -> ResponseData {
        ResponseData {
            attributes: Attributes(wire::u32_of(bytes)),
            num_connectors: bytes[4],
            optional_features: OptionalFeatures::of_parts(wire::u16_of(bytes.skip(5)), bytes[7]),
            num_alt_modes: bytes[8],
            bcd_battery_charging_spec: wire::u16_of(bytes.skip(10)),
            bcd_usb_pd_spec: wire::u16_of(bytes.skip(12)),
            bcd_type_c_spec: wire::u16_of(bytes.skip(14)),
        }
    }

    /// What decoding the response from the head of `bytes` yields.
    ///
    /// The fields are read one after the other; the first that finds too few
    /// bytes fails, with the number of bytes that it missed.
    pub open spec fn decoding(bytes: Seq<u8>) -> Result<(ResponseData, usize), DecodeError> {
        if bytes.len() < 4 {
            Err(wire::short_by(bytes, 4))
        } else if bytes.len() < 5 {
            Err(wire::short_by(bytes.skip(4), 1))
        } else if bytes.len() < 7 {
            Err(wire::short_by(bytes.skip(5), 2))
        } else if bytes.len() < 8 {
            Err(wire::short_by(bytes.skip(7), 1))
        } else if bytes.len() < 9 {
            Err(wire::short_by(bytes.skip(8), 1))
        } else if bytes.len() < 10 {
            Err(wire::short_by(bytes.skip(9), 1))
        } else if bytes.len() < 12 {
            Err(wire::short_by(bytes.skip(10), 2))
        } else if bytes.len() < 14 {
            Err(wire::short_by(bytes.skip(12), 2))
        } else if bytes.len() < 16 {
            Err(wire::short_by(bytes.skip(14), 2))
        } else {
            Ok((ResponseData::of_bytes(bytes), RESPONSE_DATA_LEN))
        }
    }

    /// Appends the response's sixteen bytes.
    pub fn encode(&self, out: &mut Vec<u8>)
        ensures
            final(out)@ == old(out)@ + self.encoding(),
    {
        self.attributes.encode(out);
        wire::write_u8(out, self.num_connectors);
        self.optional_features.encode(out);
        wire::write_u8(out, self.num_alt_modes);
        wire::write_u8(out, 0);
        wire::write_u16(out, self.bcd_battery_charging_spec);
        wire::write_u16(out, self.bcd_usb_pd_spec);
        wire::write_u16(out, self.bcd_type_c_spec);
        assert(out@ =~= old(out)@ + self.encoding());
    }

    /// Decodes the response from sixteen bytes.
    pub fn decode(bytes: &[u8]) -> (decoded: Result<(Self, usize), DecodeError>)
        ensures
            decoded == ResponseData::decoding(bytes@),
    {
        let (attributes, taken) = Attributes::decode(bytes)?;
        let left = wire::rest(bytes, taken);
        let (num_connectors, taken) = wire::read_u8(left)?;
        let left = wire::rest(left, taken);
        let (optional_features, taken) = OptionalFeatures::decode(left)?;
        let left = wire::rest(left, taken);
        let (num_alt_modes, taken) = wire::read_u8(left)?;
        let left = wire::rest(left, taken);
        let (_reserved, taken) = wire::read_u8(left)?;
        let left = wire::rest(left, taken);
        let (bcd_battery_charging_spec, taken) = wire::read_u16(left)?;
        let left = wire::rest(left, taken);
        let (bcd_usb_pd_spec, taken) = wire::read_u16(left)?;
        let left = wire::rest(left, taken);
        let (bcd_type_c_spec, _) = wire::read_u16(left)?;
        proof {
            assert(bytes@.skip(5).skip(2) =~= bytes@.skip(7));
            assert(bytes@.skip(4).skip(1) =~= bytes@.skip(5));
        }
        Ok(
            (
                ResponseData {
                    attributes,
                    num_connectors,
                    optional_features,
                    num_alt_modes,
                    bcd_battery_charging_spec,
                    bcd_usb_pd_spec,
                    bcd_type_c_spec,
                },
                RESPONSE_DATA_LEN,
            ),
        )
    }

    /// A response whose optional features fit in three bytes decodes from its
    /// encoding, whatever follows it.
    pub proof fn decoding_of_encoding(response: ResponseData, tail: Seq<u8>)
        requires
            response.optional_features.0 >> OPTIONAL_FEATURES_BITS == 0,
        ensures
            ResponseData::decoding(response.encoding() + tail) == Ok::<
                (ResponseData, usize),
                DecodeError,
            >((response, RESPONSE_DATA_LEN)),
            (response.encoding() + tail).skip(RESPONSE_DATA_LEN as int) == tail,
    {
        let bytes = response.encoding() + tail;
        let decoded = ResponseData::of_bytes(bytes);
        assert(bytes =~= wire::bytes_of_u32(response.attributes.0) + bytes.skip(4));
        wire::u32_of_its_bytes(response.attributes.0, bytes.skip(4));
        assert(bytes.skip(5) =~= wire::bytes_of_u16(response.optional_features.lower())
            + bytes.skip(7));
        wire::u16_of_its_bytes(response.optional_features.lower(), bytes.skip(7));
        OptionalFeatures::of_its_parts(response.optional_features);
        assert(bytes.skip(10) =~= wire::bytes_of_u16(response.bcd_battery_charging_spec)
            + bytes.skip(12));
        wire::u16_of_its_bytes(response.bcd_battery_charging_spec, bytes.skip(12));
        assert(bytes.skip(12) =~= wire::bytes_of_u16(response.bcd_usb_pd_spec) + bytes.skip(14));
        wire::u16_of_its_bytes(response.bcd_usb_pd_spec, bytes.skip(14));
        assert(bytes.skip(14) =~= wire::bytes_of_u16(response.bcd_type_c_spec) + tail);
        wire::u16_of_its_bytes(response.bcd_type_c_spec, tail);
        assert(bytes.skip(RESPONSE_DATA_LEN as int) =~= tail);
    }
}

} // verus!
