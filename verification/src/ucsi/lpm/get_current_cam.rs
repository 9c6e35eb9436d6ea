//! Types for the GET_CURRENT_CAM command, see UCSI spec 6.5.13.
use crate::ucsi::COMMAND_LEN;
use crate::ucsi::HEADER_LEN;
use crate::wire;
use crate::wire::DecodeError;
use vstd::prelude::*;

verus! {

/// Data length for the GET_CURRENT_CAM command response; this matches the mailbox size
pub const RESPONSE_DATA_LEN: usize = 16;

/// Zero bytes that follow the connector number byte
pub const COMMAND_PADDING: usize = COMMAND_LEN - HEADER_LEN - 1;

/// Command arguments
#[derive(Debug, Clone, Copy, Default, PartialEq, Eq)]
pub struct Args;

impl Args {
    /// The arguments on the wire: padding only.
    pub open spec fn encoding(self) -> Seq<u8> {
        wire::zeros(COMMAND_PADDING as nat)
    }

    /// What decoding the arguments from the head of `bytes` yields.
    pub open spec fn decoding(bytes: Seq<u8>) -> Result<(Args, usize), DecodeError> {
        match wire::reading_bytes(bytes, COMMAND_PADDING) {
            Err(error) => Err(error),
            Ok((_, taken)) => Ok((Args, taken)),
        }
    }

    /// Appends the padding that stands for the arguments.
    pub fn encode(&self, out: &mut Vec<u8>)
        ensures
            final(out)@ == old(out)@ + self.encoding(),
    {
        wire::write_padding(out, COMMAND_PADDING);
    }

    /// Reads over the padding that stands for the arguments.
    pub fn decode(bytes: &[u8]) -> (decoded: Result<(Self, usize), DecodeError>)
        ensures
            decoded == Args::decoding(bytes@),
    {
        let taken = wire::read_padding(bytes, COMMAND_PADDING)?;
        Ok((Args, taken))
    }

    /// The encoded arguments decode to the arguments, whatever follows them.
    pub proof fn decoding_of_encoding(args: Args, tail: Seq<u8>)
        ensures
            Args::decoding(args.encoding() + tail) == Ok::<(Args, usize), DecodeError>(
                (args, COMMAND_PADDING),
            ),
            (args.encoding() + tail).skip(COMMAND_PADDING as int) == tail,
    {
        assert((args.encoding() + tail).skip(COMMAND_PADDING as int) =~= tail);
    }
}

/// GET_CURRENT_CAM response data, supports up to [`RESPONSE_DATA_LEN`] alternate modes
#[derive(Copy, Clone, Debug, Default, PartialEq, Eq)]
pub struct ResponseData {
    /// The current alternate modes
    pub alt_modes: [u8; RESPONSE_DATA_LEN],
}

impl ResponseData {
    /// The response on the wire: its sixteen bytes.
    pub open spec fn encoding(self) -> Seq<u8> {
        self.alt_modes@
    }

    /// What decoding the response from the head of `bytes` yields.
    pub open spec fn decoding(bytes: Seq<u8>) -> Result<(ResponseData, usize), DecodeError> {
        match wire::reading_array::<RESPONSE_DATA_LEN>(bytes) {
            Err(error) => Err(error),
            Ok((alt_modes, taken)) => Ok((ResponseData { alt_modes }, taken)),
        }
    }

    /// Appends the response's sixteen bytes.
    pub fn encode(&self, out: &mut Vec<u8>)
        ensures
            final(out)@ == old(out)@ + self.encoding(),
    {
        wire::write_bytes(out, self.alt_modes.as_slice());
    }

    /// Decodes the response from sixteen bytes.
    pub fn decode(bytes: &[u8]) -> (decoded: Result<(Self, usize), DecodeError>)
        ensures
            decoded == ResponseData::decoding(bytes@),
    {
        let (alt_modes, taken) = wire::read_array::<RESPONSE_DATA_LEN>(bytes)?;
        Ok((ResponseData { alt_modes }, taken))
    }

    /// The encoded response decodes to the response, whatever follows it.
    pub proof fn decoding_of_encoding(response: ResponseData, tail: Seq<u8>)
        ensures
            ResponseData::decoding(response.encoding() + tail) == Ok::<
                (ResponseData, usize),
                DecodeError,
            >((response, RESPONSE_DATA_LEN)),
            (response.encoding() + tail).skip(RESPONSE_DATA_LEN as int) == tail,
    {
        wire::array_of_holds::<RESPONSE_DATA_LEN>(response.encoding() + tail, response.alt_modes);
        assert((response.encoding() + tail).skip(RESPONSE_DATA_LEN as int) =~= tail);
    }
}

} // verus!
