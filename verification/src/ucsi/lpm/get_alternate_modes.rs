//! Types for the GET_ALTERNATE_MODES command, see UCSI spec 6.5.11.
use crate::bits;
use crate::ucsi::lpm::InvalidRecipient;
use crate::ucsi::lpm::Recipient;
use crate::ucsi::COMMAND_LEN;
use crate::ucsi::HEADER_LEN;
use crate::vdm::AltModeId;
use crate::vdm::Svid;
use crate::wire;
use crate::wire::Allowed;
use crate::wire::DecodeError;
use vstd::prelude::*;
use vstd::std_specs::convert::FromSpecImpl;
use vstd::std_specs::convert::TryFromSpecImpl;

verus! {

/// Data length for the GET_ALTERNATE_MODES command response
pub const RESPONSE_DATA_LEN: usize = 12;

/// Zero bytes that follow the argument word
pub const COMMAND_PADDING: usize = COMMAND_LEN - HEADER_LEN - 4;

/// Lowest bit of `recipient` in the argument word.
pub const RECIPIENT_LSB: u32 = 0;

/// Width in bits of `recipient`.
pub const RECIPIENT_WIDTH: u32 = 3;

/// Lowest bit of `connector_number` in the argument word.
pub const CONNECTOR_NUMBER_LSB: u32 = 8;

/// Width in bits of `connector_number`.
pub const CONNECTOR_NUMBER_WIDTH: u32 = 7;

/// Lowest bit of `mode_offset` in the argument word.
pub const MODE_OFFSET_LSB: u32 = 16;

/// Width in bits of `mode_offset`.
pub const MODE_OFFSET_WIDTH: u32 = 8;

/// Lowest bit of `num_modes` in the argument word.
pub const NUM_MODES_LSB: u32 = 24;

/// Width in bits of `num_modes`.
pub const NUM_MODES_WIDTH: u32 = 2;

/// Command arguments: an argument word whose recipient field names a recipient.
#[derive(Debug, Clone, Copy, PartialEq, Eq)]
pub struct Args(u32);

impl View for Args {
    type V = u32;

    /// The argument word.
    closed spec fn view(&self) -> u32 {
        self.0
    }
}

impl Args {
    /// Whether a word can be an argument word: its recipient field names a recipient.
    pub open spec fn admits(word: u32) -> bool {
        Recipient::of_number(bits::field(word, RECIPIENT_LSB, RECIPIENT_WIDTH) as u8) is Some
    }

    /// The arguments always hold a word that can be an argument word.
    #[verifier::type_invariant]
    pub closed spec fn valid(self) -> bool {
        Args::admits(self.0)
    }

    /// The arguments that hold `word`.
    pub closed spec fn of_word(word: u32) -> Args {
        Args(word)
    }

    /// Arguments and argument words stand for each other.
    pub proof fn word_of_args(args: Args, word: u32)
        ensures
            Args::of_word(word)@ == word,
            Args::of_word(args@) == args,
            args.valid() == Args::admits(args@),
    {
    }

    proof fn recipient_is_kept(word: u32, lsb: u32, width: u32, value: u32)
        requires
            Args::admits(word),
            bits::in_register(lsb, width, 32),
            lsb >= RECIPIENT_LSB + RECIPIENT_WIDTH,
        ensures
            Args::admits(bits::with_field(word, lsb, width, value)),
    {
        bits::field_apart_from_with_field(word, lsb, width, value, RECIPIENT_LSB, RECIPIENT_WIDTH);
    }

    /// Returns the recipient
    pub fn recipient(&self) -> (recipient: Recipient)
        ensures
            recipient.number() == bits::field(self@, RECIPIENT_LSB, RECIPIENT_WIDTH),
    {
        proof {
            use_type_invariant(self);
        }
        match bits::get_field_u8(self.0, RECIPIENT_LSB, RECIPIENT_WIDTH) {
            0x0 => Recipient::Connector,
            0x1 => Recipient::Sop,
            0x2 => Recipient::SopP,
            _ => Recipient::SopPp,
        }
    }

    /// Sets the recipient
    pub fn set_recipient(&mut self, recipient: Recipient) -> (this: &mut Self)
        ensures
            this@ == bits::with_field(
                old(self)@,
                RECIPIENT_LSB,
                RECIPIENT_WIDTH,
                recipient.number() as u32,
            ),
            *final(this) == *final(self),
    {
        let number = u8::from(recipient);
        proof {
            bits::mask_values();
            bits::small_value_is_kept(number as u32, RECIPIENT_WIDTH);
            bits::field_after_with_field(self.0, RECIPIENT_LSB, RECIPIENT_WIDTH, number as u32);
        }
        self.0 = bits::set_field(self.0, RECIPIENT_LSB, RECIPIENT_WIDTH, number as u32);
        self
    }

    /// Returns the connector number
    pub fn connector_number(&self) -> (number: u8)
        ensures
            number == bits::field(self@, CONNECTOR_NUMBER_LSB, CONNECTOR_NUMBER_WIDTH),
    {
        bits::get_field_u8(self.0, CONNECTOR_NUMBER_LSB, CONNECTOR_NUMBER_WIDTH)
    }

    /// Sets the connector number; only its low seven bits are kept
    pub fn set_connector_number(&mut self, number: u8) -> (this: &mut Self)
        ensures
            this@ == bits::with_field(
                old(self)@,
                CONNECTOR_NUMBER_LSB,
                CONNECTOR_NUMBER_WIDTH,
                number as u32,
            ),
            *final(this) == *final(self),
    {
        proof {
            use_type_invariant(&*self);
            Args::recipient_is_kept(
                self.0,
                CONNECTOR_NUMBER_LSB,
                CONNECTOR_NUMBER_WIDTH,
                number as u32,
            );
        }
        self.0 = bits::set_field(
            self.0,
            CONNECTOR_NUMBER_LSB,
            CONNECTOR_NUMBER_WIDTH,
            number as u32,
        );
        self
    }

    /// Returns the offset of the first alternate mode to return
    pub fn mode_offset(&self) -> (offset: u8)
        ensures
            offset == bits::field(self@, MODE_OFFSET_LSB, MODE_OFFSET_WIDTH),
    {
        bits::get_field_u8(self.0, MODE_OFFSET_LSB, MODE_OFFSET_WIDTH)
    }

    /// Sets the offset of the first alternate mode to return
    pub fn set_mode_offset(&mut self, offset: u8) -> (this: &mut Self)
        ensures
            this@ == bits::with_field(
                old(self)@,
                MODE_OFFSET_LSB,
                MODE_OFFSET_WIDTH,
                offset as u32,
            ),
            *final(this) == *final(self),
    {
        proof {
            use_type_invariant(&*self);
            Args::recipient_is_kept(self.0, MODE_OFFSET_LSB, MODE_OFFSET_WIDTH, offset as u32);
        }
        self.0 = bits::set_field(self.0, MODE_OFFSET_LSB, MODE_OFFSET_WIDTH, offset as u32);
        self
    }

    /// Returns the number of alternate modes to return
    pub fn num_modes(&self) -> (num: u8)
        ensures
            num == bits::field(self@, NUM_MODES_LSB, NUM_MODES_WIDTH),
    {
        bits::get_field_u8(self.0, NUM_MODES_LSB, NUM_MODES_WIDTH)
    }

    /// Sets the number of alternate modes to return; only its low two bits are kept
    pub fn set_num_modes(&mut self, num: u8) -> (this: &mut Self)
        ensures
            this@ == bits::with_field(old(self)@, NUM_MODES_LSB, NUM_MODES_WIDTH, num as u32),
            *final(this) == *final(self),
    {
        proof {
            use_type_invariant(&*self);
            Args::recipient_is_kept(self.0, NUM_MODES_LSB, NUM_MODES_WIDTH, num as u32);
        }
        self.0 = bits::set_field(self.0, NUM_MODES_LSB, NUM_MODES_WIDTH, num as u32);
        self
    }

    /// The arguments that a word stands for, or the word's recipient field
    /// if it names no recipient.
    pub open spec fn of_checked_word(word: u32) -> Result<Args, InvalidRecipient> {
        if Args::admits(word) {
            Ok(Args::of_word(word))
        } else {
            Err(InvalidRecipient(bits::field(word, RECIPIENT_LSB, RECIPIENT_WIDTH) as u8))
        }
    }

    /// The arguments on the wire: the argument word, low byte first, then padding.
    pub open spec fn encoding(self) -> Seq<u8> {
        wire::bytes_of_u32(self@) + wire::zeros(COMMAND_PADDING as nat)
    }

    /// What decoding the arguments from the head of `bytes` yields.
    ///
    /// The word and the padding are read before the recipient is looked at.
    pub open spec fn decoding(bytes: Seq<u8>) -> Result<(Args, usize), DecodeError> {
        match wire::reading_u32(bytes) {
            Err(error) => Err(error),
            Ok((word, taken)) => match wire::reading_bytes(
                bytes.skip(taken as int),
                COMMAND_PADDING,
            ) {
                Err(error) => Err(error),
                Ok((_, padding)) => match Args::of_checked_word(word) {
                    Ok(args) => Ok((args, (taken + padding) as usize)),
                    Err(invalid) => Err(
                        DecodeError::UnexpectedVariant {
                            allowed: Allowed::Recipient,
                            found: invalid.0 as u32,
                        },
                    ),
                },
            },
        }
    }

    /// Appends the arguments: the argument word, then padding.
    pub fn encode(&self, out: &mut Vec<u8>)
        ensures
            final(out)@ == old(out)@ + self.encoding(),
    {
        wire::write_u32(out, self.0);
        wire::write_padding(out, COMMAND_PADDING);
        assert(out@ =~= old(out)@ + self.encoding());
    }

    /// Decodes the arguments: the argument word, then padding that is read over.
    ///
    /// Fails with `UnexpectedVariant` if the recipient field names no
    /// recipient.
    pub fn decode(bytes: &[u8]) -> (decoded: Result<(Self, usize), DecodeError>)
        ensures
            decoded == Args::decoding(bytes@),
    {
        let (word, taken) = wire::read_u32(bytes)?;
        let padding = wire::read_padding(wire::rest(bytes, taken), COMMAND_PADDING)?;
        match Args::try_from(word) {
            Ok(args) => Ok((args, taken + padding)),
            Err(invalid) => Err(
                DecodeError::UnexpectedVariant {
                    allowed: Allowed::Recipient,
                    found: invalid.0 as u32,
                },
            ),
        }
    }

    /// The encoded arguments decode to the arguments, whatever follows them.
    pub proof fn decoding_of_encoding(args: Args, tail: Seq<u8>)
        requires
            args.valid(),
        ensures
            Args::decoding(args.encoding() + tail) == Ok::<(Args, usize), DecodeError>(
                (args, (COMMAND_LEN - HEADER_LEN) as usize),
            ),
            (args.encoding() + tail).skip(COMMAND_LEN - HEADER_LEN) == tail,
    {
        let bytes = args.encoding() + tail;
        let after = wire::zeros(COMMAND_PADDING as nat) + tail;
        assert(bytes =~= wire::bytes_of_u32(args@) + after);
        wire::u32_of_its_bytes(args@, after);
        assert(bytes.skip(COMMAND_LEN - HEADER_LEN) =~= tail);
    }
}

impl TryFrom<u32> for Args {
    type Error = InvalidRecipient;

    fn try_from(word: u32) -> (args: Result<Self, InvalidRecipient>) {
        let number = bits::get_field_u8(word, RECIPIENT_LSB, RECIPIENT_WIDTH);
        match Recipient::try_from(number) {
            Ok(_) => Ok(Args(word)),
            Err(invalid) => Err(invalid),
        }
    }
}

impl TryFromSpecImpl<u32> for Args {
    open spec fn obeys_try_from_spec() -> bool {
        true
    }

    open spec fn try_from_spec(word: u32) -> Result<Self, InvalidRecipient> {
        Args::of_checked_word(word)
    }
}

impl From<Args> for u32 {
    fn from(args: Args) -> (word: u32) {
        args.0
    }
}

impl FromSpecImpl<Args> for u32 {
    open spec fn obeys_from_spec() -> bool {
        true
    }

    open spec fn from_spec(args: Args) -> u32 {
        args@
    }
}

impl Default for Args {
    fn default() -> (args: Self)
        ensures
            args@ == 0,
    {
        proof {
            bits::field_of_zero(RECIPIENT_LSB, RECIPIENT_WIDTH);
        }
        Args(0)
    }
}

/// Representation of a single alt-mode
#[derive(Copy, Clone, Debug, Default, PartialEq, Eq)]
pub struct AltMode {
    /// Standard or vendor ID of the alternate mode
    pub svid: Svid,
    /// Identifier of the alternate mode
    pub mid: AltModeId,
}

/// Length of the alternate modes array
pub const ALT_MODES_LEN: usize = 2;

/// GET_ALTERNATE_MODES response data
#[derive(Copy, Clone, Debug, Default, PartialEq, Eq)]
pub struct ResponseData {
    /// The alternate modes that were asked for
    pub alt_modes: [AltMode; ALT_MODES_LEN],
}

impl AltMode {
    /// The alternate mode on the wire: its SVID, two bytes, then its identifier, four.
    pub open spec fn encoding(self) -> Seq<u8> {
        wire::bytes_of_u16(self.svid.0) + wire::bytes_of_u32(self.mid.0)
    }

    /// The alternate mode that the six bytes at the head of `bytes` stand for.
    pub open spec fn of_bytes(bytes: Seq<u8>) -> AltMode {
        AltMode { svid: Svid(wire::u16_of(bytes)), mid: AltModeId(wire::u32_of(bytes.skip(2))) }
    }
}

impl ResponseData {
    /// The response on the wire: its alternate modes, one after the other.
    pub open spec fn encoding(self) -> Seq<u8> {
        self.alt_modes[0].encoding() + self.alt_modes[1].encoding()
    }

    /// The response that the twelve bytes at the head of `bytes` stand for.
    pub open spec fn of_bytes(bytes: Seq<u8>) -> ResponseData {
        ResponseData { alt_modes: [AltMode::of_bytes(bytes), AltMode::of_bytes(bytes.skip(6))] }
    }

    /// What decoding the response from the head of `bytes` yields.
    ///
    /// The four integers are read one after the other; the first that finds
    /// too few bytes fails, with the number of bytes that it missed.
    pub open spec fn decoding(bytes: Seq<u8>) -> Result<(ResponseData, usize), DecodeError> {
        if bytes.len() < 2 {
            Err(wire::short_by(bytes, 2))
        } else if bytes.len() < 6 {
            Err(wire::short_by(bytes.skip(2), 4))
        } else if bytes.len() < 8 {
            Err(wire::short_by(bytes.skip(6), 2))
        } else if bytes.len() < 12 {
            Err(wire::short_by(bytes.skip(8), 4))
        } else {
            Ok((ResponseData::of_bytes(bytes), RESPONSE_DATA_LEN))
        }
    }

    /// Appends the response's twelve bytes.
    pub fn encode(&self, out: &mut Vec<u8>)
        ensures
            final(out)@ == old(out)@ + self.encoding(),
    {
        let mut index: usize = 0;
        while index < ALT_MODES_LEN
            invariant
                index <= ALT_MODES_LEN,
                index == 0 ==> out@ == old(out)@,
                index == 1 ==> out@ == old(out)@ + self.alt_modes[0].encoding(),
                index == 2 ==> out@ == old(out)@ + self.encoding(),
            decreases ALT_MODES_LEN - index,
        {
            let alt_mode = self.alt_modes[index];
            wire::write_u16(out, alt_mode.svid.0);
            wire::write_u32(out, alt_mode.mid.0);
            index = index + 1;
            proof {
                if index == 1 {
                    assert(out@ =~= old(out)@ + self.alt_modes[0].encoding());
                } else {
                    assert(out@ =~= old(out)@ + self.encoding());
                }
            }
        }
    }

    /// Decodes the response from twelve bytes.
    pub fn decode(bytes: &[u8]) -> (decoded: Result<(Self, usize), DecodeError>)
        ensures
            decoded == ResponseData::decoding(bytes@),
    {
        let (svid, taken) = wire::read_u16(bytes)?;
        let left = wire::rest(bytes, taken);
        let (mid, taken) = wire::read_u32(left)?;
        let first = AltMode { svid: Svid(svid), mid: AltModeId(mid) };
        let left = wire::rest(left, taken);
        let (svid, taken) = wire::read_u16(left)?;
        let left = wire::rest(left, taken);
        let (mid, _) = wire::read_u32(left)?;
        let second = AltMode { svid: Svid(svid), mid: AltModeId(mid) };
        proof {
            assert(bytes@.skip(2).skip(4) =~= bytes@.skip(6));
            assert(bytes@.skip(6).skip(2) =~= bytes@.skip(8));
        }
        Ok((ResponseData { alt_modes: [first, second] }, RESPONSE_DATA_LEN))
    }

    /// The encoded response decodes to the response, whatever follows it.
    pub proof fn decoding_of_encoding(response: ResponseData, tail: Seq<u8>)
        ensures
            ResponseData::decoding(response.encoding() + tail) == Ok::<
                (ResponseData, usize),
                DecodeError,
            >((response, RESPONSE_DATA_LEN)),
            (response.encoding() + tail).skip(RESPONSE_DATA_LEN as int) == tail,
    {
        let bytes = response.encoding() + tail;
        let first = response.alt_modes[0];
        let second = response.alt_modes[1];
        assert(bytes =~= wire::bytes_of_u16(first.svid.0) + bytes.skip(2));
        wire::u16_of_its_bytes(first.svid.0, bytes.skip(2));
        assert(bytes.skip(2) =~= wire::bytes_of_u32(first.mid.0) + bytes.skip(6));
        wire::u32_of_its_bytes(first.mid.0, bytes.skip(6));
        assert(bytes.skip(6) =~= wire::bytes_of_u16(second.svid.0) + bytes.skip(8));
        wire::u16_of_its_bytes(second.svid.0, bytes.skip(8));
        assert(bytes.skip(6).skip(2) =~= bytes.skip(8));
        assert(bytes.skip(8) =~= wire::bytes_of_u32(second.mid.0) + tail);
        wire::u32_of_its_bytes(second.mid.0, tail);
        assert(ResponseData::of_bytes(bytes).alt_modes =~= response.alt_modes);
        assert(bytes.skip(RESPONSE_DATA_LEN as int) =~= tail);
    }
}

} // verus!
