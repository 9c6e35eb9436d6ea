//! Types for the CONNECTOR_RESET command, see UCSI spec 6.5.3.
use crate::ucsi::COMMAND_LEN;
use crate::ucsi::HEADER_LEN;
use crate::wire;
use crate::wire::DecodeError;
use vstd::prelude::*;

verus! {

/// Connector reset types
#[derive(Copy, Clone, Debug, PartialEq, Eq)]
pub enum ResetType {
    /// Hard reset
    Hard,
    /// Data reset
    Data,
}

/// Zero bytes that follow the connector number byte
pub const COMMAND_PADDING: usize = COMMAND_LEN - HEADER_LEN - 1;

/// Command arguments
#[derive(Debug, Clone, Copy, Default, PartialEq, Eq)]
pub struct Args;

impl Args {
    /// The arguments on the wire: padding only.
    pub open spec fn encoding(self) -> Seq<u8> {
        wire::zeros(COMMAND_PADDING as nat)
    }

    /// What decoding the arguments from the head of `bytes` yields.
    pub open spec fn decoding(bytes: Seq<u8>) -> Result<(Args, usize), DecodeError> {
        match wire::reading_bytes(bytes, COMMAND_PADDING) {
            Err(error) => Err(error),
            Ok((_, taken)) => Ok((Args, taken)),
        }
    }

    /// Appends the padding that stands for the arguments.
    pub fn encode(&self, out: &mut Vec<u8>)
        ensures
            final(out)@ == old(out)@ + self.encoding(),
    {
        wire::write_padding(out, COMMAND_PADDING);
    }

    /// Reads over the padding that stands for the arguments.
    pub fn decode(bytes: &[u8]) -> (decoded: Result<(Self, usize), DecodeError>)
        ensures
            decoded == Args::decoding(bytes@),
    {
        let taken = wire::read_padding(bytes, COMMAND_PADDING)?;
        Ok((Args, taken))
    }

    /// The encoded arguments decode to the arguments, whatever follows them.
    pub proof fn decoding_of_encoding(args: Args, tail: Seq<u8>)
        ensures
            Args::decoding(args.encoding() + tail) == Ok::<(Args, usize), DecodeError>(
                (args, COMMAND_PADDING),
            ),
            (args.encoding() + tail).skip(COMMAND_PADDING as int) == tail,
    {
        assert((args.encoding() + tail).skip(COMMAND_PADDING as int) =~= tail);
    }
}

} // verus!
