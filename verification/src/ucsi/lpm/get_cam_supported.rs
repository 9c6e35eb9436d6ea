//! Types for the GET_CAM_SUPPORTED command, see UCSI spec 6.5.12.
use crate::bits;
use crate::ucsi::COMMAND_LEN;
use crate::ucsi::HEADER_LEN;
use crate::wire;
use crate::wire::DecodeError;
use vstd::prelude::*;
use vstd::std_specs::convert::FromSpecImpl;

verus! {

/// Data length for the GET_CAM_SUPPORTED command response
pub const RESPONSE_DATA_LEN: usize = 1;

/// Zero bytes that follow the connector number byte
pub const COMMAND_PADDING: usize = COMMAND_LEN - HEADER_LEN - 1;

/// Maximum number of alternate modes supported
pub const MAX_ALT_MODES: usize = 8;

/// Command arguments
#[derive(Debug, Clone, Copy, Default, PartialEq, Eq)]
pub struct Args;

impl Args {
    /// The arguments on the wire: padding only.
    pub open spec fn encoding(self) -> Seq<u8> {
        wire::zeros(COMMAND_PADDING as nat)
    }

    /// What decoding the arguments from the head of `bytes` yields.
    pub open spec fn decoding(bytes: Seq<u8>) -> Result<(Args, usize), DecodeError> {
        match wire::reading_bytes(bytes, COMMAND_PADDING) {
            Err(error) => Err(error),
            Ok((_, taken)) => Ok((Args, taken)),
        }
    }

    /// Appends the padding that stands for the arguments.
    pub fn encode(&self, out: &mut Vec<u8>)
        ensures
            final(out)@ == old(out)@ + self.encoding(),
    {
        wire::write_padding(out, COMMAND_PADDING);
    }

    /// Reads over the padding that stands for the arguments.
    pub fn decode(bytes: &[u8]) -> (decoded: Result<(Self, usize), DecodeError>)
        ensures
            decoded == Args::decoding(bytes@),
    {
        let taken = wire::read_padding(bytes, COMMAND_PADDING)?;
        Ok((Args, taken))
    }

    /// The encoded arguments decode to the arguments, whatever follows them.
    pub proof fn decoding_of_encoding(args: Args, tail: Seq<u8>)
        ensures
            Args::decoding(args.encoding() + tail) == Ok::<(Args, usize), DecodeError>(
                (args, COMMAND_PADDING),
            ),
            (args.encoding() + tail).skip(COMMAND_PADDING as int) == tail,
    {
        assert((args.encoding() + tail).skip(COMMAND_PADDING as int) =~= tail);
    }
}

/// GET_CAM_SUPPORTED response data, supports up to [`MAX_ALT_MODES`] alternate modes
#[derive(Copy, Clone, Debug, Default, PartialEq, Eq)]
pub struct ResponseData {
    /// One bit per alternate mode, by its index
    pub alt_modes: u8,
}

impl ResponseData {
    /// Whether the alternate mode at `index` is marked as supported.
    pub open spec fn supports(self, index: usize) -> bool {
        index < MAX_ALT_MODES && bits::flag(self.alt_modes as u32, index as u32)
    }

    /// Returns whether the alternate mode at `index` is supported; false beyond [`MAX_ALT_MODES`]
    pub fn alt_mode_supported(&self, index: usize) -> (supported: bool)
        ensures
            supported == self.supports(index),
    {
        if index < MAX_ALT_MODES {
            bits::get_flag(self.alt_modes as u32, index as u32)
        } else {
            false
        }
    }

    /// Marks the alternate mode at `index` as supported or not; does nothing beyond [`MAX_ALT_MODES`]
    pub fn set_alt_mode_supported(&mut self, index: usize, supported: bool)
        ensures
            index < MAX_ALT_MODES ==> final(self).alt_modes == bits::with_flag(
                old(self).alt_modes as u32,
                index as u32,
                supported,
            ),
            index >= MAX_ALT_MODES ==> *final(self) == *old(self),
    {
        if index < MAX_ALT_MODES {
            self.alt_modes = bits::set_flag_u8(self.alt_modes, index as u32, supported);
        }
    }

    /// The response on the wire: one byte.
    pub open spec fn encoding(self) -> Seq<u8> {
        seq![self.alt_modes]
    }

    /// What decoding the response from the head of `bytes` yields.
    pub open spec fn decoding(bytes: Seq<u8>) -> Result<(ResponseData, usize), DecodeError> {
        match wire::reading_u8(bytes) {
            Err(error) => Err(error),
            Ok((alt_modes, taken)) => Ok((ResponseData { alt_modes }, taken)),
        }
    }

    /// Appends the response's byte.
    pub fn encode(&self, out: &mut Vec<u8>)
        ensures
            final(out)@ == old(out)@ + self.encoding(),
    {
        wire::write_u8(out, self.alt_modes);
        assert(out@ =~= old(out)@ + self.encoding());
    }

    /// Decodes the response from one byte.
    pub fn decode(bytes: &[u8]) -> (decoded: Result<(Self, usize), DecodeError>)
        ensures
            decoded == ResponseData::decoding(bytes@),
    {
        let (alt_modes, taken) = wire::read_u8(bytes)?;
        Ok((ResponseData { alt_modes }, taken))
    }

    /// The encoded response decodes to the response, whatever follows it.
    pub proof fn decoding_of_encoding(response: ResponseData, tail: Seq<u8>)
        ensures
            ResponseData::decoding(response.encoding() + tail) == Ok::<
                (ResponseData, usize),
                DecodeError,
            >((response, RESPONSE_DATA_LEN)),
            (response.encoding() + tail).skip(RESPONSE_DATA_LEN as int) == tail,
    {
        assert((response.encoding() + tail).skip(RESPONSE_DATA_LEN as int) =~= tail);
    }
}

} // verus!
