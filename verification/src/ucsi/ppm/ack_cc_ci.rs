//! Types for the ACK_CC_CI command.
use crate::bits;
use crate::ucsi::COMMAND_LEN;
use crate::ucsi::HEADER_LEN;
use crate::wire;
use crate::wire::DecodeError;
use vstd::prelude::*;
use vstd::std_specs::convert::FromSpecImpl;

verus! {

/// Data length for the ACK_CC_CI command response
pub const RESPONSE_DATA_LEN: u8 = 0;

/// Zero bytes that follow the acknowledgement byte
pub const COMMAND_PADDING: usize = COMMAND_LEN - HEADER_LEN - 1;

/// Bit of the acknowledgement byte that holds `connector_change`.
pub const CONNECTOR_CHANGE_BIT: u32 = 0;

/// Bit of the acknowledgement byte that holds `command_complete`.
pub const COMMAND_COMPLETE_BIT: u32 = 1;

/// Acknowledgement flags of ACK_CC_CI, see UCSI spec 6.5.4
#[derive(Copy, Clone, Debug, PartialEq, Eq)]
pub struct Ack(pub u8);

impl Ack {
    /// Returns connector change ack status
    pub fn connector_change(&self) -> (on: bool)
        ensures
            on == bits::flag(self.0 as u32, CONNECTOR_CHANGE_BIT),
    {
        bits::get_flag(self.0 as u32, CONNECTOR_CHANGE_BIT)
    }

    /// Set connector change ack status
    pub fn set_connector_change(&mut self, ack: bool) -> (this: &mut Self)
        ensures
            this.0 == bits::with_flag(old(self).0 as u32, CONNECTOR_CHANGE_BIT, ack),
            *final(this) == *final(self),
    {
        self.0 = bits::set_flag_u8(self.0, CONNECTOR_CHANGE_BIT, ack);
        self
    }

    /// Returns command complete ack status
    pub fn command_complete(&self) -> (on: bool)
        ensures
            on == bits::flag(self.0 as u32, COMMAND_COMPLETE_BIT),
    {
        bits::get_flag(self.0 as u32, COMMAND_COMPLETE_BIT)
    }

    /// Set command complete ack status
    pub fn set_command_complete(&mut self, ack: bool) -> (this: &mut Self)
        ensures
            this.0 == bits::with_flag(old(self).0 as u32, COMMAND_COMPLETE_BIT, ack),
            *final(this) == *final(self),
    {
        self.0 = bits::set_flag_u8(self.0, COMMAND_COMPLETE_BIT, ack);
        self
    }
}

impl From<u8> for Ack {
    fn from(raw: u8) -> (value: Self) {
        Ack(raw)
    }
}

impl FromSpecImpl<u8> for Ack {
    open spec fn obeys_from_spec() -> bool {
        true
    }

    open spec fn from_spec(raw: u8) -> Self {
        Ack(raw)
    }
}

impl Default for Ack {
    fn default() -> (value: Self)
        ensures
            value.0 == 0,
    {
        Ack(0)
    }
}

impl Ack {
    /// Whether the flags acknowledge the completion of a command.
    pub open spec fn acks_command_complete(self) -> bool {
        bits::flag(self.0 as u32, COMMAND_COMPLETE_BIT)
    }

    /// Whether the flags acknowledge a connector change.
    pub open spec fn acks_connector_change(self) -> bool {
        bits::flag(self.0 as u32, CONNECTOR_CHANGE_BIT)
    }

    /// The flags on the wire: one byte.
    pub open spec fn encoding(self) -> Seq<u8> {
        seq![self.0]
    }

    /// What decoding the flags from the head of `bytes` yields.
    pub open spec fn decoding(bytes: Seq<u8>) -> Result<(Ack, usize), DecodeError> {
        match wire::reading_u8(bytes) {
            Err(error) => Err(error),
            Ok((raw, taken)) => Ok((Ack(raw), taken)),
        }
    }

    /// Appends the flags' byte.
    pub fn encode(&self, out: &mut Vec<u8>)
        ensures
            final(out)@ == old(out)@ + self.encoding(),
    {
        wire::write_u8(out, self.0);
        assert(out@ =~= old(out)@ + self.encoding());
    }

    /// Decodes the flags from one byte.
    pub fn decode(bytes: &[u8]) -> (decoded: Result<(Self, usize), DecodeError>)
        ensures
            decoded == Ack::decoding(bytes@),
    {
        let (raw, taken) = wire::read_u8(bytes)?;
        Ok((Ack(raw), taken))
    }
}

/// ACK_CC_CI command structure
#[derive(Copy, Clone, Debug, Default, PartialEq, Eq)]
pub struct Args {
    /// Ack flags
    pub ack: Ack,
}

impl Args {
    /// The arguments on the wire: the flags, then padding.
    pub open spec fn encoding(self) -> Seq<u8> {
        self.ack.encoding() + wire::zeros(COMMAND_PADDING as nat)
    }

    /// What decoding the arguments from the head of `bytes` yields.
    pub open spec fn decoding(bytes: Seq<u8>) -> Result<(Args, usize), DecodeError> {
        match Ack::decoding(bytes) {
            Err(error) => Err(error),
            Ok((ack, taken)) => match wire::reading_bytes(
                bytes.skip(taken as int),
                COMMAND_PADDING,
            ) {
                Err(error) => Err(error),
                Ok((_, padding)) => Ok((Args { ack }, (taken + padding) as usize)),
            },
        }
    }

    /// Appends the arguments: the flags, then padding.
    pub fn encode(&self, out: &mut Vec<u8>)
        ensures
            final(out)@ == old(out)@ + self.encoding(),
    {
        self.ack.encode(out);
        wire::write_padding(out, COMMAND_PADDING);
        assert(out@ =~= old(out)@ + self.encoding());
    }

    /// Decodes the arguments: the flags, then padding that is read over.
    pub fn decode(bytes: &[u8]) -> (decoded: Result<(Self, usize), DecodeError>)
        ensures
            decoded == Args::decoding(bytes@),
    {
        let (ack, taken) = Ack::decode(bytes)?;
        let padding = wire::read_padding(wire::rest(bytes, taken), COMMAND_PADDING)?;
        Ok((Args { ack }, taken + padding))
    }

    /// The encoded arguments decode to the arguments, whatever follows them.
    pub proof fn decoding_of_encoding(args: Args, tail: Seq<u8>)
        ensures
            Args::decoding(args.encoding() + tail) == Ok::<(Args, usize), DecodeError>(
                (args, (COMMAND_LEN - HEADER_LEN) as usize),
            ),
            (args.encoding() + tail).skip(COMMAND_LEN - HEADER_LEN) == tail,
    {
        let bytes = args.encoding() + tail;
        assert(bytes.skip(1) =~= wire::zeros(COMMAND_PADDING as nat) + tail);
        assert(bytes.skip(COMMAND_LEN - HEADER_LEN) =~= tail);
    }
}

} // verus!
