//! Types for the SET_NEW_CAM command, see UCSI spec 6.5.14.
use crate::bits;
use crate::ucsi::lpm::CONNECTOR_HIGH_BIT;
use crate::ucsi::lpm::CONNECTOR_NUMBER_LSB;
use crate::ucsi::lpm::CONNECTOR_NUMBER_WIDTH;
use crate::wire;
use crate::wire::DecodeError;
use vstd::prelude::*;

verus! {

/// Command data length
pub const COMMAND_DATA_LEN: usize = 6;

/// Command arguments
#[derive(Debug, Clone, Copy, Default, PartialEq, Eq)]
pub struct Args {
    /// Connector number
    pub connector_number: u8,
    /// Enter or exit mode
    pub enter: bool,
    /// Alternate mode offset
    pub am_offset: u8,
    /// Alternate mode specific
    pub am_specific: u32,
}

impl Args {
    /// The first byte of the arguments: the connector number in the low
    /// seven bits, and above it whether to enter the mode.
    pub open spec fn connector_byte(self) -> u8 {
        bits::with_flag(
            bits::with_field(
                0,
                CONNECTOR_NUMBER_LSB,
                CONNECTOR_NUMBER_WIDTH,
                self.connector_number as u32,
            ),
            CONNECTOR_HIGH_BIT,
            self.enter,
        ) as u8
    }

    /// The arguments on the wire: six bytes.
    pub open spec fn encoding(self) -> Seq<u8> {
        seq![self.connector_byte(), self.am_offset] + wire::bytes_of_u32(self.am_specific)
    }

    /// The arguments that the three values read from the wire stand for.
    pub open spec fn of_parts(connector_byte: u8, am_offset: u8, am_specific: u32) -> Args {
        Args {
            connector_number: bits::field(
                connector_byte as u32,
                CONNECTOR_NUMBER_LSB,
                CONNECTOR_NUMBER_WIDTH,
            ) as u8,
            enter: bits::flag(connector_byte as u32, CONNECTOR_HIGH_BIT),
            am_offset,
            am_specific,
        }
    }

    /// What decoding the arguments from the head of `bytes` yields.
    pub open spec fn decoding(bytes: Seq<u8>) -> Result<(Args, usize), DecodeError> {
        match wire::reading_u8(bytes) {
            Err(error) => Err(error),
            Ok((connector_byte, _)) => match wire::reading_u8(bytes.skip(1)) {
                Err(error) => Err(error),
                Ok((am_offset, _)) => match wire::reading_u32(bytes.skip(2)) {
                    Err(error) => Err(error),
                    Ok((am_specific, _)) => Ok(
                        (Args::of_parts(connector_byte, am_offset, am_specific), COMMAND_DATA_LEN),
                    ),
                },
            },
        }
    }

    /// Whether the arguments keep their values on the wire: the connector
    /// number fits in seven bits.
    pub open spec fn fits(self) -> bool {
        self.connector_number < 128
    }

    /// Appends the arguments' six bytes; only the low seven bits of the
    /// connector number travel.
    pub fn encode(&self, out: &mut Vec<u8>)
        ensures
            final(out)@ == old(out)@ + self.encoding(),
    {
        let number = bits::set_field_u8(
            0,
            CONNECTOR_NUMBER_LSB,
            CONNECTOR_NUMBER_WIDTH,
            self.connector_number as u32,
        );
        let connector_byte = bits::set_flag_u8(number, CONNECTOR_HIGH_BIT, self.enter);
        wire::write_u8(out, connector_byte);
        wire::write_u8(out, self.am_offset);
        wire::write_u32(out, self.am_specific);
        assert(out@ =~= old(out)@ + self.encoding());
    }

    /// Decodes the arguments from six bytes.
    pub fn decode(bytes: &[u8]) -> (decoded: Result<(Self, usize), DecodeError>)
        ensures
            decoded == Args::decoding(bytes@),
    {
        let (connector_byte, taken) = wire::read_u8(bytes)?;
        let left = wire::rest(bytes, taken);
        let (am_offset, taken) = wire::read_u8(left)?;
        let left = wire::rest(left, taken);
        let (am_specific, _) = wire::read_u32(left)?;
        proof {
            assert(bytes@.skip(1).skip(1) =~= bytes@.skip(2));
        }
        Ok(
            (
                Args {
                    connector_number: bits::get_field_u8(
                        connector_byte as u32,
                        CONNECTOR_NUMBER_LSB,
                        CONNECTOR_NUMBER_WIDTH,
                    ),
                    enter: bits::get_flag(connector_byte as u32, CONNECTOR_HIGH_BIT),
                    am_offset,
                    am_specific,
                },
                COMMAND_DATA_LEN,
            ),
        )
    }

    /// The connector byte holds the connector number's low seven bits and
    /// whether to enter, each untouched by the other.
    pub proof fn parts_of_connector_byte(args: Args)
        ensures
            bits::field(
                args.connector_byte() as u32,
                CONNECTOR_NUMBER_LSB,
                CONNECTOR_NUMBER_WIDTH,
            ) == (args.connector_number as u32) & 0x7f,
            bits::flag(args.connector_byte() as u32, CONNECTOR_HIGH_BIT) == args.enter,
    {
        let number = bits::with_field(
            0,
            CONNECTOR_NUMBER_LSB,
            CONNECTOR_NUMBER_WIDTH,
            args.connector_number as u32,
        );
        let word = bits::with_flag(number, CONNECTOR_HIGH_BIT, args.enter);
        bits::byte_writes_stay_in_byte(
            0,
            CONNECTOR_NUMBER_LSB,
            CONNECTOR_NUMBER_WIDTH,
            args.connector_number as u32,
            false,
        );
        bits::byte_writes_stay_in_byte(number, CONNECTOR_HIGH_BIT, 1, 0, args.enter);
        bits::mask_values();
        bits::flag_is_field(number, CONNECTOR_HIGH_BIT, args.enter);
        bits::field_after_with_field(
            0,
            CONNECTOR_NUMBER_LSB,
            CONNECTOR_NUMBER_WIDTH,
            args.connector_number as u32,
        );
        bits::field_apart_from_with_field(
            number,
            CONNECTOR_HIGH_BIT,
            1,
            if args.enter { 1u32 } else { 0u32 },
            CONNECTOR_NUMBER_LSB,
            CONNECTOR_NUMBER_WIDTH,
        );
        bits::flag_after_with_flag(number, CONNECTOR_HIGH_BIT, args.enter, CONNECTOR_HIGH_BIT);
    }

    /// Arguments that fit decode from their encoding, whatever follows it.
    pub proof fn decoding_of_encoding(args: Args, tail: Seq<u8>)
        requires
            args.fits(),
        ensures
            Args::decoding(args.encoding() + tail) == Ok::<(Args, usize), DecodeError>(
                (args, COMMAND_DATA_LEN),
            ),
            (args.encoding() + tail).skip(COMMAND_DATA_LEN as int) == tail,
    {
        let bytes = args.encoding() + tail;
        Args::parts_of_connector_byte(args);
        bits::mask_values();
        bits::small_value_is_kept(args.connector_number as u32, CONNECTOR_NUMBER_WIDTH);
        assert(bytes.skip(2) =~= wire::bytes_of_u32(args.am_specific) + tail);
        wire::u32_of_its_bytes(args.am_specific, tail);
        assert(bytes.skip(COMMAND_DATA_LEN as int) =~= tail);
    }
}

} // verus!
