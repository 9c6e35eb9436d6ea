//! Types for the GET_ERROR_STATUS command, see the UCSI spec.
use crate::bits;
use crate::ucsi::COMMAND_LEN;
use crate::ucsi::HEADER_LEN;
use crate::wire;
use crate::wire::DecodeError;
use vstd::prelude::*;
use vstd::std_specs::convert::FromSpecImpl;

verus! {

/// Length of the vendor defined data
pub const MAX_VENDOR_DATA_LEN: usize = 14;

/// Length of the information word
pub const INFORMATION_LEN: usize = 2;

/// Data length for the GET_ERROR_STATUS command response
pub const RESPONSE_DATA_LEN: usize = MAX_VENDOR_DATA_LEN + INFORMATION_LEN;

/// Zero bytes that follow the connector number byte
pub const COMMAND_PADDING: usize = COMMAND_LEN - HEADER_LEN - 1;

/// Command arguments
#[derive(Debug, Clone, Copy, Default, PartialEq, Eq)]
pub struct Args;

impl Args {
    /// The arguments on the wire: padding only.
    pub open spec fn encoding(self) -> Seq<u8> {
        wire::zeros(COMMAND_PADDING as nat)
    }

    /// What decoding the arguments from the head of `bytes` yields.
    pub open spec fn decoding(bytes: Seq<u8>) -> Result<(Args, usize), DecodeError> {
        match wire::reading_bytes(bytes, COMMAND_PADDING) {
            Err(error) => Err(error),
            Ok((_, taken)) => Ok((Args, taken)),
        }
    }

    /// Appends the padding that stands for the arguments.
    pub fn encode(&self, out: &mut Vec<u8>)
        ensures
            final(out)@ == old(out)@ + self.encoding(),
    {
        wire::write_padding(out, COMMAND_PADDING);
    }

    /// Reads over the padding that stands for the arguments.
    pub fn decode(bytes: &[u8]) -> (decoded: Result<(Self, usize), DecodeError>)
        ensures
            decoded == Args::decoding(bytes@),
    {
        let taken = wire::read_padding(bytes, COMMAND_PADDING)?;
        Ok((Args, taken))
    }

    /// The encoded arguments decode to the arguments, whatever follows them.
    pub proof fn decoding_of_encoding(args: Args, tail: Seq<u8>)
        ensures
            Args::decoding(args.encoding() + tail) == Ok::<(Args, usize), DecodeError>(
                (args, COMMAND_PADDING),
            ),
            (args.encoding() + tail).skip(COMMAND_PADDING as int) == tail,
    {
        assert((args.encoding() + tail).skip(COMMAND_PADDING as int) =~= tail);
    }
}

/// Bit of the information word that holds `unrecognized_command`.
pub const UNRECOGNIZED_COMMAND_BIT: u32 = 0;

/// Bit of the information word that holds `invalid_connector`.
pub const INVALID_CONNECTOR_BIT: u32 = 1;

/// Bit of the information word that holds `invalid_command_args`.
pub const INVALID_COMMAND_ARGS_BIT: u32 = 2;

/// Bit of the information word that holds `incompatible_partner`.
pub const INCOMPATIBLE_PARTNER_BIT: u32 = 3;

/// Bit of the information word that holds `cc_comm`.
pub const CC_COMM_BIT: u32 = 4;

/// Bit of the information word that holds `dead_battery`.
pub const DEAD_BATTERY_BIT: u32 = 5;

/// Bit of the information word that holds `contract_failure`.
pub const CONTRACT_FAILURE_BIT: u32 = 6;

/// Bit of the information word that holds `overcurrent`.
pub const OVERCURRENT_BIT: u32 = 7;

/// Bit of the information word that holds `undefined`.
pub const UNDEFINED_BIT: u32 = 8;

/// Bit of the information word that holds `port_partner_rejected_swap`.
pub const PORT_PARTNER_REJECTED_SWAP_BIT: u32 = 9;

/// Bit of the information word that holds `hard_reset`.
pub const HARD_RESET_BIT: u32 = 10;

/// Bit of the information word that holds `ppm_policy_conflict`.
pub const PPM_POLICY_CONFLICT_BIT: u32 = 11;

/// Bit of the information word that holds `swap_rejected`.
pub const SWAP_REJECTED_BIT: u32 = 12;

/// Bit of the information word that holds `reverse_current_protection`.
pub const REVERSE_CURRENT_PROTECTION_BIT: u32 = 13;

/// Bit of the information word that holds `sink_path_rejected`.
pub const SINK_PATH_REJECTED_BIT: u32 = 14;

/// Error information of GET_ERROR_STATUS
#[derive(Copy, Clone, Debug, PartialEq, Eq)]
pub struct Information(pub u16);

impl Information {
    /// Returns whether the command was not recognized
    pub fn unrecognized_command(&self) -> (on: bool)
        ensures
            on == bits::flag(self.0 as u32, UNRECOGNIZED_COMMAND_BIT),
    {
        bits::get_flag(self.0 as u32, UNRECOGNIZED_COMMAND_BIT)
    }

    /// Sets whether the command was not recognized
    pub fn set_unrecognized_command(&mut self, value: bool) -> (this: &mut Self)
        ensures
            this.0 == bits::with_flag(old(self).0 as u32, UNRECOGNIZED_COMMAND_BIT, value),
            *final(this) == *final(self),
    {
        self.0 = bits::set_flag_u16(self.0, UNRECOGNIZED_COMMAND_BIT, value);
        self
    }

    /// Returns whether the connector number does not exist
    pub fn invalid_connector(&self) -> (on: bool)
        ensures
            on == bits::flag(self.0 as u32, INVALID_CONNECTOR_BIT),
    {
        bits::get_flag(self.0 as u32, INVALID_CONNECTOR_BIT)
    }

    /// Sets whether the connector number does not exist
    pub fn set_invalid_connector(&mut self, value: bool) -> (this: &mut Self)
        ensures
            this.0 == bits::with_flag(old(self).0 as u32, INVALID_CONNECTOR_BIT, value),
            *final(this) == *final(self),
    {
        self.0 = bits::set_flag_u16(self.0, INVALID_CONNECTOR_BIT, value);
        self
    }

    /// Returns whether the command arguments were invalid
    pub fn invalid_command_args(&self) -> (on: bool)
        ensures
            on == bits::flag(self.0 as u32, INVALID_COMMAND_ARGS_BIT),
    {
        bits::get_flag(self.0 as u32, INVALID_COMMAND_ARGS_BIT)
    }

    /// Sets whether the command arguments were invalid
    pub fn set_invalid_command_args(&mut self, value: bool) -> (this: &mut Self)
        ensures
            this.0 == bits::with_flag(old(self).0 as u32, INVALID_COMMAND_ARGS_BIT, value),
            *final(this) == *final(self),
    {
        self.0 = bits::set_flag_u16(self.0, INVALID_COMMAND_ARGS_BIT, value);
        self
    }

    /// Returns whether the connector partner is incompatible
    pub fn incompatible_partner(&self) -> (on: bool)
        ensures
            on == bits::flag(self.0 as u32, INCOMPATIBLE_PARTNER_BIT),
    {
        bits::get_flag(self.0 as u32, INCOMPATIBLE_PARTNER_BIT)
    }

    /// Sets whether the connector partner is incompatible
    pub fn set_incompatible_partner(&mut self, value: bool) -> (this: &mut Self)
        ensures
            this.0 == bits::with_flag(old(self).0 as u32, INCOMPATIBLE_PARTNER_BIT, value),
            *final(this) == *final(self),
    {
        self.0 = bits::set_flag_u16(self.0, INCOMPATIBLE_PARTNER_BIT, value);
        self
    }

    /// Returns whether CC communication failed
    pub fn cc_comm(&self) -> (on: bool)
        ensures
            on == bits::flag(self.0 as u32, CC_COMM_BIT),
    {
        bits::get_flag(self.0 as u32, CC_COMM_BIT)
    }

    /// Sets whether CC communication failed
    pub fn set_cc_comm(&mut self, value: bool) -> (this: &mut Self)
        ensures
            this.0 == bits::with_flag(old(self).0 as u32, CC_COMM_BIT, value),
            *final(this) == *final(self),
    {
        self.0 = bits::set_flag_u16(self.0, CC_COMM_BIT, value);
        self
    }

    /// Returns whether the command failed due to a dead battery
    pub fn dead_battery(&self) -> (on: bool)
        ensures
            on == bits::flag(self.0 as u32, DEAD_BATTERY_BIT),
    {
        bits::get_flag(self.0 as u32, DEAD_BATTERY_BIT)
    }

    /// Sets whether the command failed due to a dead battery
    pub fn set_dead_battery(&mut self, value: bool) -> (this: &mut Self)
        ensures
            this.0 == bits::with_flag(old(self).0 as u32, DEAD_BATTERY_BIT, value),
            *final(this) == *final(self),
    {
        self.0 = bits::set_flag_u16(self.0, DEAD_BATTERY_BIT, value);
        self
    }

    /// Returns whether contract negotiation failed
    pub fn contract_failure(&self) -> (on: bool)
        ensures
            on == bits::flag(self.0 as u32, CONTRACT_FAILURE_BIT),
    {
        bits::get_flag(self.0 as u32, CONTRACT_FAILURE_BIT)
    }

    /// Sets whether contract negotiation failed
    pub fn set_contract_failure(&mut self, value: bool) -> (this: &mut Self)
        ensures
            this.0 == bits::with_flag(old(self).0 as u32, CONTRACT_FAILURE_BIT, value),
            *final(this) == *final(self),
    {
        self.0 = bits::set_flag_u16(self.0, CONTRACT_FAILURE_BIT, value);
        self
    }

    /// Returns whether an overcurrent occurred
    pub fn overcurrent(&self) -> (on: bool)
        ensures
            on == bits::flag(self.0 as u32, OVERCURRENT_BIT),
    {
        bits::get_flag(self.0 as u32, OVERCURRENT_BIT)
    }

    /// Sets whether an overcurrent occurred
    pub fn set_overcurrent(&mut self, value: bool) -> (this: &mut Self)
        ensures
            this.0 == bits::with_flag(old(self).0 as u32, OVERCURRENT_BIT, value),
            *final(this) == *final(self),
    {
        self.0 = bits::set_flag_u16(self.0, OVERCURRENT_BIT, value);
        self
    }

    /// Returns whether the error is undefined
    pub fn undefined(&self) -> (on: bool)
        ensures
            on == bits::flag(self.0 as u32, UNDEFINED_BIT),
    {
        bits::get_flag(self.0 as u32, UNDEFINED_BIT)
    }

    /// Sets whether the error is undefined
    pub fn set_undefined(&mut self, value: bool) -> (this: &mut Self)
        ensures
            this.0 == bits::with_flag(old(self).0 as u32, UNDEFINED_BIT, value),
            *final(this) == *final(self),
    {
        self.0 = bits::set_flag_u16(self.0, UNDEFINED_BIT, value);
        self
    }

    /// Returns whether the port partner rejected the swap
    pub fn port_partner_rejected_swap(&self) -> (on: bool)
        ensures
            on == bits::flag(self.0 as u32, PORT_PARTNER_REJECTED_SWAP_BIT),
    {
        bits::get_flag(self.0 as u32, PORT_PARTNER_REJECTED_SWAP_BIT)
    }

    /// Sets whether the port partner rejected the swap
    pub fn set_port_partner_rejected_swap(&mut self, value: bool) -> (this: &mut Self)
        ensures
            this.0 == bits::with_flag(old(self).0 as u32, PORT_PARTNER_REJECTED_SWAP_BIT, value),
            *final(this) == *final(self),
    {
        self.0 = bits::set_flag_u16(self.0, PORT_PARTNER_REJECTED_SWAP_BIT, value);
        self
    }

    /// Returns whether a hard reset occurred
    pub fn hard_reset(&self) -> (on: bool)
        ensures
            on == bits::flag(self.0 as u32, HARD_RESET_BIT),
    {
        bits::get_flag(self.0 as u32, HARD_RESET_BIT)
    }

    /// Sets whether a hard reset occurred
    pub fn set_hard_reset(&mut self, value: bool) -> (this: &mut Self)
        ensures
            this.0 == bits::with_flag(old(self).0 as u32, HARD_RESET_BIT, value),
            *final(this) == *final(self),
    {
        self.0 = bits::set_flag_u16(self.0, HARD_RESET_BIT, value);
        self
    }

    /// Returns whether the command conflicts with the PPM's policy
    pub fn ppm_policy_conflict(&self) -> (on: bool)
        ensures
            on == bits::flag(self.0 as u32, PPM_POLICY_CONFLICT_BIT),
    {
        bits::get_flag(self.0 as u32, PPM_POLICY_CONFLICT_BIT)
    }

    /// Sets whether the command conflicts with the PPM's policy
    pub fn set_ppm_policy_conflict(&mut self, value: bool) -> (this: &mut Self)
        ensures
            this.0 == bits::with_flag(old(self).0 as u32, PPM_POLICY_CONFLICT_BIT, value),
            *final(this) == *final(self),
    {
        self.0 = bits::set_flag_u16(self.0, PPM_POLICY_CONFLICT_BIT, value);
        self
    }

    /// Returns whether the swap was rejected
    pub fn swap_rejected(&self) -> (on: bool)
        ensures
            on == bits::flag(self.0 as u32, SWAP_REJECTED_BIT),
    {
        bits::get_flag(self.0 as u32, SWAP_REJECTED_BIT)
    }

    /// Sets whether the swap was rejected
    pub fn set_swap_rejected(&mut self, value: bool) -> (this: &mut Self)
        ensures
            this.0 == bits::with_flag(old(self).0 as u32, SWAP_REJECTED_BIT, value),
            *final(this) == *final(self),
    {
        self.0 = bits::set_flag_u16(self.0, SWAP_REJECTED_BIT, value);
        self
    }

    /// Returns whether reverse current protection was triggered
    pub fn reverse_current_protection(&self) -> (on: bool)
        ensures
            on == bits::flag(self.0 as u32, REVERSE_CURRENT_PROTECTION_BIT),
    {
        bits::get_flag(self.0 as u32, REVERSE_CURRENT_PROTECTION_BIT)
    }

    /// Sets whether reverse current protection was triggered
    pub fn set_reverse_current_protection(&mut self, value: bool) -> (this: &mut Self)
        ensures
            this.0 == bits::with_flag(old(self).0 as u32, REVERSE_CURRENT_PROTECTION_BIT, value),
            *final(this) == *final(self),
    {
        self.0 = bits::set_flag_u16(self.0, REVERSE_CURRENT_PROTECTION_BIT, value);
        self
    }

    /// Returns whether the sink path was rejected
    pub fn sink_path_rejected(&self) -> (on: bool)
        ensures
            on == bits::flag(self.0 as u32, SINK_PATH_REJECTED_BIT),
    {
        bits::get_flag(self.0 as u32, SINK_PATH_REJECTED_BIT)
    }

    /// Sets whether the sink path was rejected
    pub fn set_sink_path_rejected(&mut self, value: bool) -> (this: &mut Self)
        ensures
            this.0 == bits::with_flag(old(self).0 as u32, SINK_PATH_REJECTED_BIT, value),
            *final(this) == *final(self),
    {
        self.0 = bits::set_flag_u16(self.0, SINK_PATH_REJECTED_BIT, value);
        self
    }
}

impl From<u16> for Information {
    fn from(raw: u16) -> (value: Self) {
        Information(raw)
    }
}

impl FromSpecImpl<u16> for Information {
    open spec fn obeys_from_spec() -> bool {
        true
    }

    open spec fn from_spec(raw: u16) -> Self {
        Information(raw)
    }
}

impl From<Information> for u16 {
    fn from(value: Information) -> (raw: u16) {
        value.0
    }
}

impl FromSpecImpl<Information> for u16 {
    open spec fn obeys_from_spec() -> bool {
        true
    }

    open spec fn from_spec(value: Information) -> u16 {
        value.0
    }
}

impl Default for Information {
    fn default() -> (value: Self)
        ensures
            value.0 == 0,
    {
        Information(0)
    }
}

/// GET_ERROR_STATUS response data
#[derive(Copy, Clone, Debug, PartialEq, Eq)]
pub struct ResponseData {
    /// Error information
    pub information: Information,
    /// Vendor defined data
    pub vendor: [u8; MAX_VENDOR_DATA_LEN],
}

impl ResponseData {
    /// The response on the wire: the information word, then the vendor data.
    pub open spec fn encoding(self) -> Seq<u8> {
        wire::bytes_of_u16(self.information.0) + self.vendor@
    }

    /// What decoding the response from the head of `bytes` yields.
    pub open spec fn decoding(bytes: Seq<u8>) -> Result<(ResponseData, usize), DecodeError> {
        match wire::reading_u16(bytes) {
            Err(error) => Err(error),
            Ok((raw, taken)) => match wire::reading_array::<MAX_VENDOR_DATA_LEN>(
                bytes.skip(taken as int),
            ) {
                Err(error) => Err(error),
                Ok((vendor, more)) => Ok(
                    (
                        ResponseData { information: Information(raw), vendor },
                        (taken + more) as usize,
                    ),
                ),
            },
        }
    }

    /// Appends the response's sixteen bytes.
    pub fn encode(&self, out: &mut Vec<u8>)
        ensures
            final(out)@ == old(out)@ + self.encoding(),
    {
        wire::write_u16(out, self.information.0);
        wire::write_bytes(out, self.vendor.as_slice());
        assert(out@ =~= old(out)@ + self.encoding());
    }

    /// Decodes the response from sixteen bytes.
    pub fn decode(bytes: &[u8]) -> (decoded: Result<(Self, usize), DecodeError>)
        ensures
            decoded == ResponseData::decoding(bytes@),
    {
        let (raw, taken) = wire::read_u16(bytes)?;
        let (vendor, more) = wire::read_array::<MAX_VENDOR_DATA_LEN>(wire::rest(bytes, taken))?;
        Ok((ResponseData { information: Information(raw), vendor }, taken + more))
    }

    /// The encoded response decodes to the response, whatever follows it.
    pub proof fn decoding_of_encoding(response: ResponseData, tail: Seq<u8>)
        ensures
            ResponseData::decoding(response.encoding() + tail) == Ok::<
                (ResponseData, usize),
                DecodeError,
            >((response, RESPONSE_DATA_LEN)),
            (response.encoding() + tail).skip(RESPONSE_DATA_LEN as int) == tail,
    {
        let bytes = response.encoding() + tail;
        let after = response.vendor@ + tail;
        assert(bytes =~= wire::bytes_of_u16(response.information.0) + after);
        wire::u16_of_its_bytes(response.information.0, after);
        wire::array_of_holds::<MAX_VENDOR_DATA_LEN>(after, response.vendor);
        assert(bytes.skip(RESPONSE_DATA_LEN as int) =~= tail);
    }
}

} // verus!
