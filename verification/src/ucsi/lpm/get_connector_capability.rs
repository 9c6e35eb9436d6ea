//! Types for the GET_CONNECTOR_CAPABILITY command, see UCSI spec 6.5.7.
use crate::bits;
use crate::ucsi::COMMAND_LEN;
use crate::ucsi::HEADER_LEN;
use crate::wire;
use crate::wire::DecodeError;
use vstd::prelude::*;
use vstd::std_specs::convert::FromSpecImpl;

verus! {

/// Data length for the GET_CONNECTOR_CAPABILITY command response
pub const RESPONSE_DATA_LEN: usize = 2;

/// Zero bytes that follow the connector number byte
pub const COMMAND_PADDING: usize = COMMAND_LEN - HEADER_LEN - 1;

/// Bit of the operation mode byte that holds `rp_only`.
pub const MODE_RP_ONLY_BIT: u32 = 0;

/// Bit of the operation mode byte that holds `rd_only`.
pub const MODE_RD_ONLY_BIT: u32 = 1;

/// Bit of the operation mode byte that holds `drp`.
pub const MODE_DRP_BIT: u32 = 2;

/// Bit of the operation mode byte that holds `analog_audio`.
pub const MODE_ANALOG_AUDIO_BIT: u32 = 3;

/// Bit of the operation mode byte that holds `debug_accessory`.
pub const MODE_DEBUG_ACCESSORY_BIT: u32 = 4;

/// Bit of the operation mode byte that holds `usb2`.
pub const MODE_USB2_BIT: u32 = 5;

/// Bit of the operation mode byte that holds `usb3`.
pub const MODE_USB3_BIT: u32 = 6;

/// Bit of the operation mode byte that holds `alternate_mode`.
pub const MODE_ALTERNATE_MODE_BIT: u32 = 7;

/// Operation modes that a connector supports
#[derive(Copy, Clone, Debug, PartialEq, Eq)]
pub struct OperationModeFlags(pub u8);

impl OperationModeFlags {
    /// Returns whether the connector can operate as Rp only
    pub fn rp_only(&self) -> (on: bool)
        ensures
            on == bits::flag(self.0 as u32, MODE_RP_ONLY_BIT),
    {
        bits::get_flag(self.0 as u32, MODE_RP_ONLY_BIT)
    }

    /// Sets whether the connector can operate as Rp only
    pub fn set_rp_only(&mut self, value: bool) -> (this: &mut Self)
        ensures
            this.0 == bits::with_flag(old(self).0 as u32, MODE_RP_ONLY_BIT, value),
            *final(this) == *final(self),
    {
        self.0 = bits::set_flag_u8(self.0, MODE_RP_ONLY_BIT, value);
        self
    }

    /// Returns whether the connector can operate as Rd only
    pub fn rd_only(&self) -> (on: bool)
        ensures
            on == bits::flag(self.0 as u32, MODE_RD_ONLY_BIT),
    {
        bits::get_flag(self.0 as u32, MODE_RD_ONLY_BIT)
    }

    /// Sets whether the connector can operate as Rd only
    pub fn set_rd_only(&mut self, value: bool) -> (this: &mut Self)
        ensures
            this.0 == bits::with_flag(old(self).0 as u32, MODE_RD_ONLY_BIT, value),
            *final(this) == *final(self),
    {
        self.0 = bits::set_flag_u8(self.0, MODE_RD_ONLY_BIT, value);
        self
    }

    /// Returns whether the connector can operate as DRP
    pub fn drp(&self) -> (on: bool)
        ensures
            on == bits::flag(self.0 as u32, MODE_DRP_BIT),
    {
        bits::get_flag(self.0 as u32, MODE_DRP_BIT)
    }

    /// Sets whether the connector can operate as DRP
    pub fn set_drp(&mut self, value: bool) -> (this: &mut Self)
        ensures
            this.0 == bits::with_flag(old(self).0 as u32, MODE_DRP_BIT, value),
            *final(this) == *final(self),
    {
        self.0 = bits::set_flag_u8(self.0, MODE_DRP_BIT, value);
        self
    }

    /// Returns whether the connector supports analog audio accessories
    pub fn analog_audio(&self) -> (on: bool)
        ensures
            on == bits::flag(self.0 as u32, MODE_ANALOG_AUDIO_BIT),
    {
        bits::get_flag(self.0 as u32, MODE_ANALOG_AUDIO_BIT)
    }

    /// Sets whether the connector supports analog audio accessories
    pub fn set_analog_audio(&mut self, value: bool) -> (this: &mut Self)
        ensures
            this.0 == bits::with_flag(old(self).0 as u32, MODE_ANALOG_AUDIO_BIT, value),
            *final(this) == *final(self),
    {
        self.0 = bits::set_flag_u8(self.0, MODE_ANALOG_AUDIO_BIT, value);
        self
    }

    /// Returns whether the connector supports debug accessories
    pub fn debug_accessory(&self) -> (on: bool)
        ensures
            on == bits::flag(self.0 as u32, MODE_DEBUG_ACCESSORY_BIT),
    {
        bits::get_flag(self.0 as u32, MODE_DEBUG_ACCESSORY_BIT)
    }

    /// Sets whether the connector supports debug accessories
    pub fn set_debug_accessory(&mut self, value: bool) -> (this: &mut Self)
        ensures
            this.0 == bits::with_flag(old(self).0 as u32, MODE_DEBUG_ACCESSORY_BIT, value),
            *final(this) == *final(self),
    {
        self.0 = bits::set_flag_u8(self.0, MODE_DEBUG_ACCESSORY_BIT, value);
        self
    }

    /// Returns whether the connector supports USB 2
    pub fn usb2(&self) -> (on: bool)
        ensures
            on == bits::flag(self.0 as u32, MODE_USB2_BIT),
    {
        bits::get_flag(self.0 as u32, MODE_USB2_BIT)
    }

    /// Sets whether the connector supports USB 2
    pub fn set_usb2(&mut self, value: bool) -> (this: &mut Self)
        ensures
            this.0 == bits::with_flag(old(self).0 as u32, MODE_USB2_BIT, value),
            *final(this) == *final(self),
    {
        self.0 = bits::set_flag_u8(self.0, MODE_USB2_BIT, value);
        self
    }

    /// Returns whether the connector supports USB 3
    pub fn usb3(&self) -> (on: bool)
        ensures
            on == bits::flag(self.0 as u32, MODE_USB3_BIT),
    {
        bits::get_flag(self.0 as u32, MODE_USB3_BIT)
    }

    /// Sets whether the connector supports USB 3
    pub fn set_usb3(&mut self, value: bool) -> (this: &mut Self)
        ensures
            this.0 == bits::with_flag(old(self).0 as u32, MODE_USB3_BIT, value),
            *final(this) == *final(self),
    {
        self.0 = bits::set_flag_u8(self.0, MODE_USB3_BIT, value);
        self
    }

    /// Returns whether the connector supports alternate modes
    pub fn alternate_mode(&self) -> (on: bool)
        ensures
            on == bits::flag(self.0 as u32, MODE_ALTERNATE_MODE_BIT),
    {
        bits::get_flag(self.0 as u32, MODE_ALTERNATE_MODE_BIT)
    }

    /// Sets whether the connector supports alternate modes
    pub fn set_alternate_mode(&mut self, value: bool) -> (this: &mut Self)
        ensures
            this.0 == bits::with_flag(old(self).0 as u32, MODE_ALTERNATE_MODE_BIT, value),
            *final(this) == *final(self),
    {
        self.0 = bits::set_flag_u8(self.0, MODE_ALTERNATE_MODE_BIT, value);
        self
    }
}

impl From<u8> for OperationModeFlags {
    fn from(raw: u8) -> (value: Self) {
        OperationModeFlags(raw)
    }
}

impl FromSpecImpl<u8> for OperationModeFlags {
    open spec fn obeys_from_spec() -> bool {
        true
    }

    open spec fn from_spec(raw: u8) -> Self {
        OperationModeFlags(raw)
    }
}

impl From<OperationModeFlags> for u8 {
    fn from(value: OperationModeFlags) -> (raw: u8) {
        value.0
    }
}

impl FromSpecImpl<OperationModeFlags> for u8 {
    open spec fn obeys_from_spec() -> bool {
        true
    }

    open spec fn from_spec(value: OperationModeFlags) -> u8 {
        value.0
    }
}

impl Default for OperationModeFlags {
    fn default() -> (value: Self)
        ensures
            value.0 == 0,
    {
        OperationModeFlags(0)
    }
}

/// Lowest bit of `operation_mode` in the capability word.
pub const OPERATION_MODE_LSB: u32 = 0;

/// Width in bits of `operation_mode`.
pub const OPERATION_MODE_WIDTH: u32 = 8;

/// Bit of the capability word that holds `provider`.
pub const PROVIDER_BIT: u32 = 8;

/// Bit of the capability word that holds `consumer`.
pub const CONSUMER_BIT: u32 = 9;

/// Bit of the capability word that holds `swap_to_dfp`.
pub const SWAP_TO_DFP_BIT: u32 = 10;

/// Bit of the capability word that holds `swap_to_ufp`.
pub const SWAP_TO_UFP_BIT: u32 = 11;

/// Bit of the capability word that holds `swap_to_src`.
pub const SWAP_TO_SRC_BIT: u32 = 12;

/// Bit of the capability word that holds `swap_to_snk`.
pub const SWAP_TO_SNK_BIT: u32 = 13;

/// GET_CONNECTOR_CAPABILITY response data
#[derive(Copy, Clone, Debug, PartialEq, Eq)]
pub struct ResponseData(pub u16);

impl ResponseData {
    /// Returns the operation modes
    pub fn operation_mode(&self) -> (value: OperationModeFlags)
        ensures
            value.0 == bits::field(self.0 as u32, OPERATION_MODE_LSB, OPERATION_MODE_WIDTH),
    {
        OperationModeFlags(
            bits::get_field_u8(self.0 as u32, OPERATION_MODE_LSB, OPERATION_MODE_WIDTH),
        )
    }

    /// Sets the operation modes
    pub fn set_operation_mode(&mut self, value: OperationModeFlags) -> (this: &mut Self)
        ensures
            this.0 == bits::with_field(
                old(self).0 as u32,
                OPERATION_MODE_LSB,
                OPERATION_MODE_WIDTH,
                value.0 as u32,
            ),
            *final(this) == *final(self),
    {
        self.0 = bits::set_field_u16(
            self.0,
            OPERATION_MODE_LSB,
            OPERATION_MODE_WIDTH,
            value.0 as u32,
        );
        self
    }

    /// Returns whether the connector can provide power
    pub fn provider(&self) -> (on: bool)
        ensures
            on == bits::flag(self.0 as u32, PROVIDER_BIT),
    {
        bits::get_flag(self.0 as u32, PROVIDER_BIT)
    }

    /// Sets whether the connector can provide power
    pub fn set_provider(&mut self, value: bool) -> (this: &mut Self)
        ensures
            this.0 == bits::with_flag(old(self).0 as u32, PROVIDER_BIT, value),
            *final(this) == *final(self),
    {
        self.0 = bits::set_flag_u16(self.0, PROVIDER_BIT, value);
        self
    }

    /// Returns whether the connector can consume power
    pub fn consumer(&self) -> (on: bool)
        ensures
            on == bits::flag(self.0 as u32, CONSUMER_BIT),
    {
        bits::get_flag(self.0 as u32, CONSUMER_BIT)
    }

    /// Sets whether the connector can consume power
    pub fn set_consumer(&mut self, value: bool) -> (this: &mut Self)
        ensures
            this.0 == bits::with_flag(old(self).0 as u32, CONSUMER_BIT, value),
            *final(this) == *final(self),
    {
        self.0 = bits::set_flag_u16(self.0, CONSUMER_BIT, value);
        self
    }

    /// Returns whether the connector can swap to DFP
    pub fn swap_to_dfp(&self) -> (on: bool)
        ensures
            on == bits::flag(self.0 as u32, SWAP_TO_DFP_BIT),
    {
        bits::get_flag(self.0 as u32, SWAP_TO_DFP_BIT)
    }

    /// Sets whether the connector can swap to DFP
    pub fn set_swap_to_dfp(&mut self, value: bool) -> (this: &mut Self)
        ensures
            this.0 == bits::with_flag(old(self).0 as u32, SWAP_TO_DFP_BIT, value),
            *final(this) == *final(self),
    {
        self.0 = bits::set_flag_u16(self.0, SWAP_TO_DFP_BIT, value);
        self
    }

    /// Returns whether the connector can swap to UFP
    pub fn swap_to_ufp(&self) -> (on: bool)
        ensures
            on == bits::flag(self.0 as u32, SWAP_TO_UFP_BIT),
    {
        bits::get_flag(self.0 as u32, SWAP_TO_UFP_BIT)
    }

    /// Sets whether the connector can swap to UFP
    pub fn set_swap_to_ufp(&mut self, value: bool) -> (this: &mut Self)
        ensures
            this.0 == bits::with_flag(old(self).0 as u32, SWAP_TO_UFP_BIT, value),
            *final(this) == *final(self),
    {
        self.0 = bits::set_flag_u16(self.0, SWAP_TO_UFP_BIT, value);
        self
    }

    /// Returns whether the connector can swap to source
    pub fn swap_to_src(&self) -> (on: bool)
        ensures
            on == bits::flag(self.0 as u32, SWAP_TO_SRC_BIT),
    {
        bits::get_flag(self.0 as u32, SWAP_TO_SRC_BIT)
    }

    /// Sets whether the connector can swap to source
    pub fn set_swap_to_src(&mut self, value: bool) -> (this: &mut Self)
        ensures
            this.0 == bits::with_flag(old(self).0 as u32, SWAP_TO_SRC_BIT, value),
            *final(this) == *final(self),
    {
        self.0 = bits::set_flag_u16(self.0, SWAP_TO_SRC_BIT, value);
        self
    }

    /// Returns whether the connector can swap to sink
    pub fn swap_to_snk(&self) -> (on: bool)
        ensures
            on == bits::flag(self.0 as u32, SWAP_TO_SNK_BIT),
    {
        bits::get_flag(self.0 as u32, SWAP_TO_SNK_BIT)
    }

    /// Sets whether the connector can swap to sink
    pub fn set_swap_to_snk(&mut self, value: bool) -> (this: &mut Self)
        ensures
            this.0 == bits::with_flag(old(self).0 as u32, SWAP_TO_SNK_BIT, value),
            *final(this) == *final(self),
    {
        self.0 = bits::set_flag_u16(self.0, SWAP_TO_SNK_BIT, value);
        self
    }
}

impl From<u16> for ResponseData {
    fn from(raw: u16) -> (value: Self) {
        ResponseData(raw)
    }
}

impl FromSpecImpl<u16> for ResponseData {
    open spec fn obeys_from_spec() -> bool {
        true
    }

    open spec fn from_spec(raw: u16) -> Self {
        ResponseData(raw)
    }
}

impl From<ResponseData> for u16 {
    fn from(value: ResponseData) -> (raw: u16) {
        value.0
    }
}

impl FromSpecImpl<ResponseData> for u16 {
    open spec fn obeys_from_spec() -> bool {
        true
    }

    open spec fn from_spec(value: ResponseData) -> u16 {
        value.0
    }
}

impl Default for ResponseData {
    fn default() -> (value: Self)
        ensures
            value.0 == 0,
    {
        ResponseData(0)
    }
}

impl ResponseData {
    /// The capability word on the wire: its 2 bytes, low byte first.
    pub open spec fn encoding(self) -> Seq<u8> {
        wire::bytes_of_u16(self.0)
    }

    /// What decoding the capability word from the head of `bytes` yields.
    pub open spec fn decoding(bytes: Seq<u8>) -> Result<(ResponseData, usize), DecodeError> {
        match wire::reading_u16(bytes) {
            Err(error) => Err(error),
            Ok((raw, taken)) => Ok((ResponseData(raw), taken)),
        }
    }

    /// Appends the capability word.
    pub fn encode(&self, out: &mut Vec<u8>)
        ensures
            final(out)@ == old(out)@ + self.encoding(),
    {
        wire::write_u16(out, self.0);
    }

    /// Decodes the capability word.
    pub fn decode(bytes: &[u8]) -> (decoded: Result<(Self, usize), DecodeError>)
        ensures
            decoded == ResponseData::decoding(bytes@),
    {
        let (raw, taken) = wire::read_u16(bytes)?;
        Ok((ResponseData(raw), taken))
    }
}

impl ResponseData {
    /// The encoded value decodes to the value, whatever follows it.
    pub proof fn decoding_of_encoding(value: ResponseData, tail: Seq<u8>)
        ensures
            ResponseData::decoding(value.encoding() + tail) == Ok::<(ResponseData, usize), DecodeError>(
                (value, 2usize),
            ),
            (value.encoding() + tail).skip(2) == tail,
    {
        wire::u16_of_its_bytes(value.0, tail);
    }
}

/// Command arguments
#[derive(Debug, Clone, Copy, Default, PartialEq, Eq)]
pub struct Args;

impl Args {
    /// The arguments on the wire: padding only.
    pub open spec fn encoding(self) -> Seq<u8> {
        wire::zeros(COMMAND_PADDING as nat)
    }

    /// What decoding the arguments from the head of `bytes` yields.
    pub open spec fn decoding(bytes: Seq<u8>) -> Result<(Args, usize), DecodeError> {
        match wire::reading_bytes(bytes, COMMAND_PADDING) {
            Err(error) => Err(error),
            Ok((_, taken)) => Ok((Args, taken)),
        }
    }

    /// Appends the padding that stands for the arguments.
    pub fn encode(&self, out: &mut Vec<u8>)
        ensures
            final(out)@ == old(out)@ + self.encoding(),
    {
        wire::write_padding(out, COMMAND_PADDING);
    }

    /// Reads over the padding that stands for the arguments.
    pub fn decode(bytes: &[u8]) -> (decoded: Result<(Self, usize), DecodeError>)
        ensures
            decoded == Args::decoding(bytes@),
    {
        let taken = wire::read_padding(bytes, COMMAND_PADDING)?;
        Ok((Args, taken))
    }

    /// The encoded arguments decode to the arguments, whatever follows them.
    pub proof fn decoding_of_encoding(args: Args, tail: Seq<u8>)
        ensures
            Args::decoding(args.encoding() + tail) == Ok::<(Args, usize), DecodeError>(
                (args, COMMAND_PADDING),
            ),
            (args.encoding() + tail).skip(COMMAND_PADDING as int) == tail,
    {
        assert((args.encoding() + tail).skip(COMMAND_PADDING as int) =~= tail);
    }
}

} // verus!
