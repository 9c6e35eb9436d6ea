//! Types for the SET_PDR command, see UCSI spec 6.5.10.
use crate::bits;
use crate::ucsi::COMMAND_LEN;
use crate::ucsi::HEADER_LEN;
use crate::wire;
use crate::wire::DecodeError;
use vstd::prelude::*;
use vstd::std_specs::convert::FromSpecImpl;

verus! {

/// Zero bytes that follow the argument word
pub const COMMAND_PADDING: usize = COMMAND_LEN - HEADER_LEN - 2;

/// Lowest bit of `connector_number` in the argument word.
pub const CONNECTOR_NUMBER_LSB: u32 = 0;

/// Width in bits of `connector_number`.
pub const CONNECTOR_NUMBER_WIDTH: u32 = 7;

/// Bit of the argument word that holds `swap_source`.
pub const SWAP_SOURCE_BIT: u32 = 7;

/// Bit of the argument word that holds `swap_sink`.
pub const SWAP_SINK_BIT: u32 = 8;

/// Bit of the argument word that holds `accept_swap`.
pub const ACCEPT_SWAP_BIT: u32 = 9;

/// Command arguments
#[derive(Copy, Clone, Debug, PartialEq, Eq)]
pub struct Args(pub u16);

impl Args {
    /// Returns the connector number
    pub fn connector_number(&self) -> (value: u8)
        ensures
            value == bits::field(self.0 as u32, CONNECTOR_NUMBER_LSB, CONNECTOR_NUMBER_WIDTH),
    {
        bits::get_field_u8(self.0 as u32, CONNECTOR_NUMBER_LSB, CONNECTOR_NUMBER_WIDTH)
    }

    /// Sets the connector number; only its low seven bits are kept
    pub fn set_connector_number(&mut self, connector_number: u8) -> (this: &mut Self)
        ensures
            this.0 == bits::with_field(
                old(self).0 as u32,
                CONNECTOR_NUMBER_LSB,
                CONNECTOR_NUMBER_WIDTH,
                connector_number as u32,
            ),
            *final(this) == *final(self),
    {
        self.0 = bits::set_field_u16(
            self.0,
            CONNECTOR_NUMBER_LSB,
            CONNECTOR_NUMBER_WIDTH,
            connector_number as u32,
        );
        self
    }

    /// Returns whether the connector swaps to source
    pub fn swap_source(&self) -> (on: bool)
        ensures
            on == bits::flag(self.0 as u32, SWAP_SOURCE_BIT),
    {
        bits::get_flag(self.0 as u32, SWAP_SOURCE_BIT)
    }

    /// Sets whether the connector swaps to source
    pub fn set_swap_source(&mut self, swap_source: bool) -> (this: &mut Self)
        ensures
            this.0 == bits::with_flag(old(self).0 as u32, SWAP_SOURCE_BIT, swap_source),
            *final(this) == *final(self),
    {
        self.0 = bits::set_flag_u16(self.0, SWAP_SOURCE_BIT, swap_source);
        self
    }

    /// Returns whether the connector swaps to sink
    pub fn swap_sink(&self) -> (on: bool)
        ensures
            on == bits::flag(self.0 as u32, SWAP_SINK_BIT),
    {
        bits::get_flag(self.0 as u32, SWAP_SINK_BIT)
    }

    /// Sets whether the connector swaps to sink
    pub fn set_swap_sink(&mut self, swap_sink: bool) -> (this: &mut Self)
        ensures
            this.0 == bits::with_flag(old(self).0 as u32, SWAP_SINK_BIT, swap_sink),
            *final(this) == *final(self),
    {
        self.0 = bits::set_flag_u16(self.0, SWAP_SINK_BIT, swap_sink);
        self
    }

    /// Returns whether power-role swaps are accepted
    pub fn accept_swap(&self) -> (on: bool)
        ensures
            on == bits::flag(self.0 as u32, ACCEPT_SWAP_BIT),
    {
        bits::get_flag(self.0 as u32, ACCEPT_SWAP_BIT)
    }

    /// Sets whether power-role swaps are accepted
    pub fn set_accept_swap(&mut self, accept_swap: bool) -> (this: &mut Self)
        ensures
            this.0 == bits::with_flag(old(self).0 as u32, ACCEPT_SWAP_BIT, accept_swap),
            *final(this) == *final(self),
    {
        self.0 = bits::set_flag_u16(self.0, ACCEPT_SWAP_BIT, accept_swap);
        self
    }
}

impl From<u16> for Args {
    fn from(raw: u16) -> (value: Self) {
        Args(raw)
    }
}

impl FromSpecImpl<u16> for Args {
    open spec fn obeys_from_spec() -> bool {
        true
    }

    open spec fn from_spec(raw: u16) -> Self {
        Args(raw)
    }
}

impl From<Args> for u16 {
    fn from(value: Args) -> (raw: u16) {
        value.0
    }
}

impl FromSpecImpl<Args> for u16 {
    open spec fn obeys_from_spec() -> bool {
        true
    }

    open spec fn from_spec(value: Args) -> u16 {
        value.0
    }
}

impl Default for Args {
    fn default() -> (value: Self)
        ensures
            value.0 == 0,
    {
        Args(0)
    }
}

impl Args {
    /// The arguments on the wire: the argument word, low byte first, then padding.
    pub open spec fn encoding(self) -> Seq<u8> {
        wire::bytes_of_u16(self.0) + wire::zeros(COMMAND_PADDING as nat)
    }

    /// What decoding the arguments from the head of `bytes` yields.
    pub open spec fn decoding(bytes: Seq<u8>) -> Result<(Args, usize), DecodeError> {
        match wire::reading_u16(bytes) {
            Err(error) => Err(error),
            Ok((raw, taken)) => match wire::reading_bytes(
                bytes.skip(taken as int),
                COMMAND_PADDING,
            ) {
                Err(error) => Err(error),
                Ok((_, padding)) => Ok((Args(raw), (taken + padding) as usize)),
            },
        }
    }

    /// Appends the arguments: the argument word, then padding.
    pub fn encode(&self, out: &mut Vec<u8>)
        ensures
            final(out)@ == old(out)@ + self.encoding(),
    {
        wire::write_u16(out, self.0);
        wire::write_padding(out, COMMAND_PADDING);
        assert(out@ =~= old(out)@ + self.encoding());
    }

    /// Decodes the arguments: the argument word, then padding that is read over.
    pub fn decode(bytes: &[u8]) -> (decoded: Result<(Self, usize), DecodeError>)
        ensures
            decoded == Args::decoding(bytes@),
    {
        let (raw, taken) = wire::read_u16(bytes)?;
        let padding = wire::read_padding(wire::rest(bytes, taken), COMMAND_PADDING)?;
        Ok((Args(raw), taken + padding))
    }

    /// The encoded arguments decode to the arguments, whatever follows them.
    pub proof fn decoding_of_encoding(args: Args, tail: Seq<u8>)
        ensures
            Args::decoding(args.encoding() + tail) == Ok::<(Args, usize), DecodeError>(
                (args, (COMMAND_LEN - HEADER_LEN) as usize),
            ),
            (args.encoding() + tail).skip(COMMAND_LEN - HEADER_LEN) == tail,
    {
        let bytes = args.encoding() + tail;
        let after = wire::zeros(COMMAND_PADDING as nat) + tail;
        assert(bytes =~= wire::bytes_of_u16(args.0) + after);
        wire::u16_of_its_bytes(args.0, after);
        assert(bytes.skip(COMMAND_LEN - HEADER_LEN) =~= tail);
    }
}

} // verus!
