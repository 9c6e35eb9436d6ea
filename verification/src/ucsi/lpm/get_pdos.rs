//! Types for the GET_PDOS command, see UCSI spec 6.5.15.
use crate::bits;
use crate::ucsi::COMMAND_LEN;
use crate::ucsi::HEADER_LEN;
use crate::wire;
use crate::wire::Allowed;
use crate::wire::DecodeError;
use crate::PowerRole;
use vstd::prelude::*;
use vstd::std_specs::convert::FromSpecImpl;
use vstd::std_specs::convert::TryFromSpecImpl;

verus! {

/// Zero bytes that follow the argument word
pub const COMMAND_PADDING: usize = COMMAND_LEN - HEADER_LEN - 4;

/// Maximum number of PDOs supported
pub const MAX_PDOS: usize = 4;

/// Max response data length, supports up to 4 PDOs
pub const RESPONSE_DATA_LEN: usize = MAX_PDOS * 4;

/// Lowest bit of `connector_number` in the argument word.
pub const CONNECTOR_NUMBER_LSB: u32 = 0;

/// Width in bits of `connector_number`.
pub const CONNECTOR_NUMBER_WIDTH: u32 = 7;

/// Bit of the argument word that holds `partner`.
pub const PARTNER_BIT: u32 = 7;

/// Lowest bit of `pdo_offset` in the argument word.
pub const PDO_OFFSET_LSB: u32 = 8;

/// Width in bits of `pdo_offset`.
pub const PDO_OFFSET_WIDTH: u32 = 8;

/// Lowest bit of `num_pdos` in the argument word.
pub const NUM_PDOS_LSB: u32 = 16;

/// Width in bits of `num_pdos`.
pub const NUM_PDOS_WIDTH: u32 = 2;

/// Bit of the argument word that holds `source`.
pub const SOURCE_BIT: u32 = 18;

/// Lowest bit of `source_capability_type` in the argument word.
pub const SOURCE_CAPABILITY_TYPE_LSB: u32 = 19;

/// Width in bits of `source_capability_type`.
pub const SOURCE_CAPABILITY_TYPE_WIDTH: u32 = 2;

/// Source capability type to query
#[derive(Debug, Clone, Copy, Default, PartialEq, Eq)]
pub enum SourceCapabilityType {
    /// Current source capabilities
    #[default]
    Current,
    /// Advertised source capabilities
    Advertised,
    /// Maximum source capabilities
    Maximum,
}

impl SourceCapabilityType {
    /// The number that stands for the type on the wire.
    pub open spec fn number(self) -> u8 {
        match self {
            SourceCapabilityType::Current => 0x0,
            SourceCapabilityType::Advertised => 0x1,
            SourceCapabilityType::Maximum => 0x2,
        }
    }

    /// The type that a number stands for, if it stands for one.
    pub open spec fn of_number(value: u8) -> Option<SourceCapabilityType> {
        match value {
            0x0 => Some(SourceCapabilityType::Current),
            0x1 => Some(SourceCapabilityType::Advertised),
            0x2 => Some(SourceCapabilityType::Maximum),
            _ => None,
        }
    }
}

/// Invalid source capability type error
#[derive(Debug, Clone, Copy, PartialEq, Eq)]
pub struct InvalidSourceCapabilityType(pub u8);

impl TryFrom<u8> for SourceCapabilityType {
    type Error = InvalidSourceCapabilityType;

    fn try_from(value: u8) -> (kind: Result<Self, InvalidSourceCapabilityType>) {
        match value {
            0x0 => Ok(SourceCapabilityType::Current),
            0x1 => Ok(SourceCapabilityType::Advertised),
            0x2 => Ok(SourceCapabilityType::Maximum),
            v => Err(InvalidSourceCapabilityType(v)),
        }
    }
}

impl TryFromSpecImpl<u8> for SourceCapabilityType {
    open spec fn obeys_try_from_spec() -> bool {
        true
    }

    open spec fn try_from_spec(value: u8) -> Result<Self, InvalidSourceCapabilityType> {
        match SourceCapabilityType::of_number(value) {
            Some(kind) => Ok(kind),
            None => Err(InvalidSourceCapabilityType(value)),
        }
    }
}

impl From<SourceCapabilityType> for u8 {
    fn from(value: SourceCapabilityType) -> (number: u8) {
        match value {
            SourceCapabilityType::Current => 0x0,
            SourceCapabilityType::Advertised => 0x1,
            SourceCapabilityType::Maximum => 0x2,
        }
    }
}

impl FromSpecImpl<SourceCapabilityType> for u8 {
    open spec fn obeys_from_spec() -> bool {
        true
    }

    open spec fn from_spec(value: SourceCapabilityType) -> u8 {
        value.number()
    }
}

impl From<InvalidSourceCapabilityType> for DecodeError {
    fn from(value: InvalidSourceCapabilityType) -> (error: DecodeError) {
        DecodeError::UnexpectedVariant {
            allowed: Allowed::SourceCapabilityType,
            found: value.0 as u32,
        }
    }
}

impl FromSpecImpl<InvalidSourceCapabilityType> for DecodeError {
    open spec fn obeys_from_spec() -> bool {
        true
    }

    open spec fn from_spec(value: InvalidSourceCapabilityType) -> DecodeError {
        DecodeError::UnexpectedVariant {
            allowed: Allowed::SourceCapabilityType,
            found: value.0 as u32,
        }
    }
}

/// Command arguments: an argument word whose source capability type field
/// names a source capability type.
#[derive(Debug, Clone, Copy, PartialEq, Eq)]
pub struct Args(u32);

impl View for Args {
    type V = u32;

    /// The argument word.
    closed spec fn view(&self) -> u32 {
        self.0
    }
}

impl Args {
    /// Whether a word can be an argument word: its source capability type
    /// field names a source capability type.
    pub open spec fn admits(word: u32) -> bool {
        SourceCapabilityType::of_number(
            bits::field(word, SOURCE_CAPABILITY_TYPE_LSB, SOURCE_CAPABILITY_TYPE_WIDTH) as u8,
        ) is Some
    }

    /// The arguments always hold a word that can be an argument word.
    #[verifier::type_invariant]
    pub closed spec fn valid(self) -> bool {
        Args::admits(self.0)
    }

    /// The arguments that hold `word`.
    pub closed spec fn of_word(word: u32) -> Args {
        Args(word)
    }

    /// Arguments and argument words stand for each other.
    pub proof fn word_of_args(args: Args, word: u32)
        ensures
            Args::of_word(word)@ == word,
            Args::of_word(args@) == args,
            args.valid() == Args::admits(args@),
    {
    }

    proof fn kind_is_kept(word: u32, lsb: u32, width: u32, value: u32, on: bool)
        requires
            Args::admits(word),
            bits::in_register(lsb, width, 32),
            lsb + width <= SOURCE_CAPABILITY_TYPE_LSB,
        ensures
            Args::admits(bits::with_field(word, lsb, width, value)),
            width == 1 ==> Args::admits(bits::with_flag(word, lsb, on)),
    {
        bits::field_apart_from_with_field(
            word,
            lsb,
            width,
            value,
            SOURCE_CAPABILITY_TYPE_LSB,
            SOURCE_CAPABILITY_TYPE_WIDTH,
        );
        if width == 1 {
            bits::flag_is_field(word, lsb, on);
            bits::field_apart_from_with_field(
                word,
                lsb,
                width,
                if on { 1u32 } else { 0u32 },
                SOURCE_CAPABILITY_TYPE_LSB,
                SOURCE_CAPABILITY_TYPE_WIDTH,
            );
        }
    }

    /// Returns the connector number
    pub fn connector_number(&self) -> (number: u8)
        ensures
            number == bits::field(self@, CONNECTOR_NUMBER_LSB, CONNECTOR_NUMBER_WIDTH),
    {
        bits::get_field_u8(self.0, CONNECTOR_NUMBER_LSB, CONNECTOR_NUMBER_WIDTH)
    }

    /// Sets the connector number; only its low seven bits are kept
    pub fn set_connector_number(&mut self, connector_number: u8) -> (this: &mut Self)
        ensures
            this@ == bits::with_field(
                old(self)@,
                CONNECTOR_NUMBER_LSB,
                CONNECTOR_NUMBER_WIDTH,
                connector_number as u32,
            ),
            *final(this) == *final(self),
    {
        proof {
            use_type_invariant(&*self);
            Args::kind_is_kept(
                self.0,
                CONNECTOR_NUMBER_LSB,
                CONNECTOR_NUMBER_WIDTH,
                connector_number as u32,
                false,
            );
        }
        self.0 = bits::set_field(
            self.0,
            CONNECTOR_NUMBER_LSB,
            CONNECTOR_NUMBER_WIDTH,
            connector_number as u32,
        );
        self
    }

    /// Returns whether the PDOs of the port partner are asked for
    pub fn partner(&self) -> (on: bool)
        ensures
            on == bits::flag(self@, PARTNER_BIT),
    {
        bits::get_flag(self.0, PARTNER_BIT)
    }

    /// Sets whether the PDOs of the port partner are asked for
    pub fn set_partner(&mut self, partner: bool) -> (this: &mut Self)
        ensures
            this@ == bits::with_flag(old(self)@, PARTNER_BIT, partner),
            *final(this) == *final(self),
    {
        proof {
            use_type_invariant(&*self);
            Args::kind_is_kept(self.0, PARTNER_BIT, 1, 0, partner);
        }
        self.0 = bits::set_flag(self.0, PARTNER_BIT, partner);
        self
    }

    /// Returns the offset of the first PDO to return
    pub fn pdo_offset(&self) -> (offset: u8)
        ensures
            offset == bits::field(self@, PDO_OFFSET_LSB, PDO_OFFSET_WIDTH),
    {
        bits::get_field_u8(self.0, PDO_OFFSET_LSB, PDO_OFFSET_WIDTH)
    }

    /// Sets the offset of the first PDO to return
    pub fn set_pdo_offset(&mut self, pdo_offset: u8) -> (this: &mut Self)
        ensures
            this@ == bits::with_field(
                old(self)@,
                PDO_OFFSET_LSB,
                PDO_OFFSET_WIDTH,
                pdo_offset as u32,
            ),
            *final(this) == *final(self),
    {
        proof {
            use_type_invariant(&*self);
            Args::kind_is_kept(self.0, PDO_OFFSET_LSB, PDO_OFFSET_WIDTH, pdo_offset as u32, false);
        }
        self.0 = bits::set_field(self.0, PDO_OFFSET_LSB, PDO_OFFSET_WIDTH, pdo_offset as u32);
        self
    }

    /// Returns the number of PDOs to return: one more than the field holds
    pub fn num_pdos(&self) -> (num: u8)
        ensures
            num == bits::field(self@, NUM_PDOS_LSB, NUM_PDOS_WIDTH) + 1,
            1 <= num <= MAX_PDOS,
    {
        proof {
            bits::field_is_bounded(self.0, NUM_PDOS_LSB, NUM_PDOS_WIDTH);
            bits::mask_values();
        }
        bits::get_field_u8(self.0, NUM_PDOS_LSB, NUM_PDOS_WIDTH) + 1
    }

    /// Sets the number of PDOs to retrieve, must be in range 1..=MAX_PDOS
    ///
    /// Returns `None`, and changes nothing, if the value is out of range
    pub fn set_num_pdos(&mut self, num_pdos: u8) -> (this: Option<&mut Self>)
        ensures
            match this {
                Some(this) => 1 <= num_pdos <= MAX_PDOS && this@ == bits::with_field(
                    old(self)@,
                    NUM_PDOS_LSB,
                    NUM_PDOS_WIDTH,
                    (num_pdos - 1) as u32,
                ) && *final(this) == *final(self),
                None => !(1 <= num_pdos <= MAX_PDOS) && *final(self) == *old(self),
            },
    {
        if num_pdos == 0 || num_pdos > MAX_PDOS as u8 {
            return None;
        }
        proof {
            use_type_invariant(&*self);
            Args::kind_is_kept(self.0, NUM_PDOS_LSB, NUM_PDOS_WIDTH, (num_pdos - 1) as u32, false);
        }
        self.0 = bits::set_field(self.0, NUM_PDOS_LSB, NUM_PDOS_WIDTH, (num_pdos - 1) as u32);
        Some(self)
    }

    /// Returns whether source or sink PDOs are asked for
    pub fn role(&self) -> (role: PowerRole)
        ensures
            role == if bits::flag(self@, SOURCE_BIT) {
                PowerRole::Source
            } else {
                PowerRole::Sink
            },
    {
        if bits::get_flag(self.0, SOURCE_BIT) {
            PowerRole::Source
        } else {
            PowerRole::Sink
        }
    }

    /// Sets whether source or sink PDOs are asked for
    pub fn set_role(&mut self, pdo_type: PowerRole) -> (this: &mut Self)
        ensures
            this@ == bits::with_flag(old(self)@, SOURCE_BIT, pdo_type == PowerRole::Source),
            *final(this) == *final(self),
    {
        let source = matches!(pdo_type, PowerRole::Source);
        proof {
            use_type_invariant(&*self);
            Args::kind_is_kept(self.0, SOURCE_BIT, 1, 0, source);
        }
        self.0 = bits::set_flag(self.0, SOURCE_BIT, source);
        self
    }

    /// Returns the source capability type
    pub fn source_capability_type(&self) -> (kind: SourceCapabilityType)
        ensures
            kind.number() == bits::field(
                self@,
                SOURCE_CAPABILITY_TYPE_LSB,
                SOURCE_CAPABILITY_TYPE_WIDTH,
            ),
    {
        proof {
            use_type_invariant(self);
        }
        match bits::get_field_u8(self.0, SOURCE_CAPABILITY_TYPE_LSB, SOURCE_CAPABILITY_TYPE_WIDTH) {
            0x0 => SourceCapabilityType::Current,
            0x1 => SourceCapabilityType::Advertised,
            _ => SourceCapabilityType::Maximum,
        }
    }

    /// Sets the source capability type
    pub fn set_source_capability_type(
        &mut self,
        source_capabilities_type: SourceCapabilityType,
    ) -> (this: &mut Self)
        ensures
            this@ == bits::with_field(
                old(self)@,
                SOURCE_CAPABILITY_TYPE_LSB,
                SOURCE_CAPABILITY_TYPE_WIDTH,
                source_capabilities_type.number() as u32,
            ),
            *final(this) == *final(self),
    {
        let number = u8::from(source_capabilities_type);
        proof {
            bits::mask_values();
            bits::small_value_is_kept(number as u32, SOURCE_CAPABILITY_TYPE_WIDTH);
            bits::field_after_with_field(
                self.0,
                SOURCE_CAPABILITY_TYPE_LSB,
                SOURCE_CAPABILITY_TYPE_WIDTH,
                number as u32,
            );
        }
        self.0 = bits::set_field(
            self.0,
            SOURCE_CAPABILITY_TYPE_LSB,
            SOURCE_CAPABILITY_TYPE_WIDTH,
            number as u32,
        );
        self
    }

    /// The arguments that a word stands for, or the word's source capability
    /// type field if it names no source capability type.
    pub open spec fn of_checked_word(word: u32) -> Result<Args, InvalidSourceCapabilityType> {
        if Args::admits(word) {
            Ok(Args::of_word(word))
        } else {
            Err(
                InvalidSourceCapabilityType(
                    bits::field(
                        word,
                        SOURCE_CAPABILITY_TYPE_LSB,
                        SOURCE_CAPABILITY_TYPE_WIDTH,
                    ) as u8,
                ),
            )
        }
    }

    /// The arguments on the wire: the argument word, low byte first, then padding.
    pub open spec fn encoding(self) -> Seq<u8> {
        wire::bytes_of_u32(self@) + wire::zeros(COMMAND_PADDING as nat)
    }

    /// What decoding the arguments from the head of `bytes` yields.
    ///
    /// The word and the padding are read before the source capability type
    /// is looked at.
    pub open spec fn decoding(bytes: Seq<u8>) -> Result<(Args, usize), DecodeError> {
        match wire::reading_u32(bytes) {
            Err(error) => Err(error),
            Ok((word, taken)) => match wire::reading_bytes(
                bytes.skip(taken as int),
                COMMAND_PADDING,
            ) {
                Err(error) => Err(error),
                Ok((_, padding)) => match Args::of_checked_word(word) {
                    Ok(args) => Ok((args, (taken + padding) as usize)),
                    Err(invalid) => Err(
                        DecodeError::UnexpectedVariant {
                            allowed: Allowed::SourceCapabilityType,
                            found: invalid.0 as u32,
                        },
                    ),
                },
            },
        }
    }

    /// Appends the arguments: the argument word, then padding.
    pub fn encode(&self, out: &mut Vec<u8>)
        ensures
            final(out)@ == old(out)@ + self.encoding(),
    {
        wire::write_u32(out, self.0);
        wire::write_padding(out, COMMAND_PADDING);
        assert(out@ =~= old(out)@ + self.encoding());
    }

    /// Decodes the arguments: the argument word, then padding that is read over.
    ///
    /// Fails with `UnexpectedVariant` if the source capability type field
    /// names no source capability type.
    pub fn decode(bytes: &[u8]) -> (decoded: Result<(Self, usize), DecodeError>)
        ensures
            decoded == Args::decoding(bytes@),
    {
        let (word, taken) = wire::read_u32(bytes)?;
        let padding = wire::read_padding(wire::rest(bytes, taken), COMMAND_PADDING)?;
        match Args::try_from(word) {
            Ok(args) => Ok((args, taken + padding)),
            Err(invalid) => Err(DecodeError::from(invalid)),
        }
    }

    /// The encoded arguments decode to the arguments, whatever follows them.
    pub proof fn decoding_of_encoding(args: Args, tail: Seq<u8>)
        requires
            args.valid(),
        ensures
            Args::decoding(args.encoding() + tail) == Ok::<(Args, usize), DecodeError>(
                (args, (COMMAND_LEN - HEADER_LEN) as usize),
            ),
            (args.encoding() + tail).skip(COMMAND_LEN - HEADER_LEN) == tail,
    {
        let bytes = args.encoding() + tail;
        let after = wire::zeros(COMMAND_PADDING as nat) + tail;
        assert(bytes =~= wire::bytes_of_u32(args@) + after);
        wire::u32_of_its_bytes(args@, after);
        assert(bytes.skip(COMMAND_LEN - HEADER_LEN) =~= tail);
    }
}

impl TryFrom<u32> for Args {
    type Error = InvalidSourceCapabilityType;

    fn try_from(word: u32) -> (args: Result<Self, InvalidSourceCapabilityType>) {
        let number = bits::get_field_u8(
            word,
            SOURCE_CAPABILITY_TYPE_LSB,
            SOURCE_CAPABILITY_TYPE_WIDTH,
        );
        match SourceCapabilityType::try_from(number) {
            Ok(_) => Ok(Args(word)),
            Err(invalid) => Err(invalid),
        }
    }
}

impl TryFromSpecImpl<u32> for Args {
    open spec fn obeys_try_from_spec() -> bool {
        true
    }

    open spec fn try_from_spec(word: u32) -> Result<Self, InvalidSourceCapabilityType> {
        Args::of_checked_word(word)
    }
}

impl From<Args> for u32 {
    fn from(args: Args) -> (word: u32) {
        args.0
    }
}

impl FromSpecImpl<Args> for u32 {
    open spec fn obeys_from_spec() -> bool {
        true
    }

    open spec fn from_spec(args: Args) -> u32 {
        args@
    }
}

impl Default for Args {
    fn default() -> (args: Self)
        ensures
            args@ == 0,
    {
        proof {
            bits::field_of_zero(SOURCE_CAPABILITY_TYPE_LSB, SOURCE_CAPABILITY_TYPE_WIDTH);
        }
        Args(0)
    }
}

/// GET_PDOS response data, supports up to [`MAX_PDOS`] PDOs
///
/// A PDO is never zero: the first zero, if there is one, ends the PDOs.
#[derive(Copy, Clone, Debug, Default, PartialEq, Eq)]
pub struct ResponseData {
    /// The PDOs, then zeros
    pub raw: [u32; MAX_PDOS],
}

impl ResponseData {
    /// The number of PDOs: the index of the first zero, or [`MAX_PDOS`].
    pub open spec fn count(self) -> nat {
        if self.raw[0] == 0 {
            0
        } else if self.raw[1] == 0 {
            1
        } else if self.raw[2] == 0 {
            2
        } else if self.raw[3] == 0 {
            3
        } else {
            4
        }
    }

    /// The PDOs: what stands before the first zero.
    pub open spec fn pdos(self) -> Seq<u32> {
        self.raw@.take(self.count() as int)
    }

    /// Whether nothing but zeros follows the PDOs.
    pub open spec fn ends_in_zeros(self) -> bool {
        forall|index: int| self.count() <= index < MAX_PDOS ==> self.raw[index] == 0
    }

    /// The response on the wire: its PDOs, four bytes each, low byte first.
    pub open spec fn encoding(self) -> Seq<u8> {
        wire::bytes_of_u32s(self.pdos())
    }

    /// The response that the sixteen bytes at the head of `bytes` stand for.
    pub open spec fn of_bytes(bytes: Seq<u8>) -> ResponseData {
        ResponseData {
            raw: [
                wire::u32_of(bytes),
                wire::u32_of(bytes.skip(4)),
                wire::u32_of(bytes.skip(8)),
                wire::u32_of(bytes.skip(12)),
            ],
        }
    }

    /// What decoding the response from the head of `bytes` yields.
    ///
    /// Four integers are read one after the other; the first that finds too
    /// few bytes fails, with the number of bytes that it missed.
    pub open spec fn decoding(bytes: Seq<u8>) -> Result<(ResponseData, usize), DecodeError> {
        if bytes.len() < 4 {
            Err(wire::short_by(bytes, 4))
        } else if bytes.len() < 8 {
            Err(wire::short_by(bytes.skip(4), 4))
        } else if bytes.len() < 12 {
            Err(wire::short_by(bytes.skip(8), 4))
        } else if bytes.len() < 16 {
            Err(wire::short_by(bytes.skip(12), 4))
        } else {
            Ok((ResponseData::of_bytes(bytes), RESPONSE_DATA_LEN))
        }
    }

    /// The response is read back from the bytes of all four of its words,
    /// whatever follows them.
    proof fn of_all_its_bytes(response: ResponseData, tail: Seq<u8>)
        ensures
            ResponseData::decoding(wire::bytes_of_u32s(response.raw@) + tail) == Ok::<
                (ResponseData, usize),
                DecodeError,
            >((response, RESPONSE_DATA_LEN)),
    {
        let bytes = wire::bytes_of_u32s(response.raw@) + tail;
        wire::len_of_bytes_of_u32s(response.raw@);
        wire::u32s_of_their_bytes(response.raw@, tail, 0);
        wire::u32s_of_their_bytes(response.raw@, tail, 1);
        wire::u32s_of_their_bytes(response.raw@, tail, 2);
        wire::u32s_of_their_bytes(response.raw@, tail, 3);
        assert(bytes.skip(0) =~= bytes);
        assert(ResponseData::of_bytes(bytes).raw =~= response.raw);
    }

    /// A response of four PDOs decodes from its encoding, whatever follows it.
    pub proof fn decoding_of_encoding(response: ResponseData, tail: Seq<u8>)
        requires
            response.count() == MAX_PDOS,
        ensures
            ResponseData::decoding(response.encoding() + tail) == Ok::<
                (ResponseData, usize),
                DecodeError,
            >((response, RESPONSE_DATA_LEN)),
            response.encoding().len() == RESPONSE_DATA_LEN,
    {
        assert(response.pdos() =~= response.raw@);
        wire::len_of_bytes_of_u32s(response.raw@);
        ResponseData::of_all_its_bytes(response, tail);
    }

    /// A response that ends in zeros decodes from its encoding when the
    /// encoding is padded with zero bytes to the full length, whatever
    /// follows the padding.
    pub proof fn decoding_of_padded_encoding(response: ResponseData, tail: Seq<u8>)
        requires
            response.ends_in_zeros(),
        ensures
            ResponseData::decoding(
                response.encoding() + wire::zeros(
                    (RESPONSE_DATA_LEN - 4 * response.count()) as nat,
                ) + tail,
            ) == Ok::<(ResponseData, usize), DecodeError>((response, RESPONSE_DATA_LEN)),
    {
        wire::bytes_of_zero_words(response.raw@, response.count() as int);
        ResponseData::of_all_its_bytes(response, tail);
    }

    /// Returns the valid PDOs, in order
    pub fn iter(&self) -> (pdos: Vec<u32>)
        ensures
            pdos@ == self.pdos(),
    {
        let mut pdos: Vec<u32> = Vec::new();
        let mut index: usize = 0;
        while index < MAX_PDOS && self.raw[index] != 0
            invariant
                index <= MAX_PDOS,
                index <= self.count(),
                pdos@ == self.raw@.take(index as int),
            ensures
                index == self.count(),
                pdos@ == self.raw@.take(index as int),
            decreases MAX_PDOS - index,
        {
            pdos.push(self.raw[index]);
            index = index + 1;
            assert(pdos@ =~= self.raw@.take(index as int));
        }
        pdos
    }

    /// Returns the valid PDOs, in order, for the caller to change
    ///
    /// What the caller writes takes the place of the valid PDOs; what
    /// follows them stays as it is.
    pub fn iter_mut(&mut self) -> (pdos: &mut [u32])
        ensures
            pdos@ == old(self).pdos(),
            final(self).raw@ == final(pdos)@ + old(self).raw@.skip(old(self).count() as int),
    {
        let mut index: usize = 0;
        while index < MAX_PDOS && self.raw[index] != 0
            invariant
                index <= MAX_PDOS,
                index <= self.count(),
                *self == *old(self),
            ensures
                index == self.count(),
                *self == *old(self),
            decreases MAX_PDOS - index,
        {
            index = index + 1;
        }
        let whole: &mut [u32] = &mut self.raw;
        let (valid, _) = whole.split_at_mut(index);
        valid
    }

    /// Appends the PDOs, four bytes each; nothing from the first zero on.
    pub fn encode(&self, out: &mut Vec<u8>)
        ensures
            final(out)@ == old(out)@ + self.encoding(),
    {
        let mut index: usize = 0;
        proof {
            assert(self.raw@.take(0) =~= Seq::<u32>::empty());
            assert(out@ =~= old(out)@ + wire::bytes_of_u32s(self.raw@.take(0)));
        }
        while index < MAX_PDOS && self.raw[index] != 0
            invariant
                index <= MAX_PDOS,
                index <= self.count(),
                out@ == old(out)@ + wire::bytes_of_u32s(self.raw@.take(index as int)),
            ensures
                index == self.count(),
                out@ == old(out)@ + wire::bytes_of_u32s(self.raw@.take(index as int)),
            decreases MAX_PDOS - index,
        {
            wire::write_u32(out, self.raw[index]);
            proof {
                let before = self.raw@.take(index as int);
                let after = self.raw@.take(index + 1);
                assert(after.drop_last() =~= before);
                assert(after.last() == self.raw[index as int]);
                assert(out@ =~= old(out)@ + wire::bytes_of_u32s(after));
            }
            index = index + 1;
        }
    }

    /// Decodes the response from sixteen bytes.
    pub fn decode(bytes: &[u8]) -> (decoded: Result<(Self, usize), DecodeError>)
        ensures
            decoded == ResponseData::decoding(bytes@),
    {
        let (first, taken) = wire::read_u32(bytes)?;
        let left = wire::rest(bytes, taken);
        let (second, taken) = wire::read_u32(left)?;
        let left = wire::rest(left, taken);
        let (third, taken) = wire::read_u32(left)?;
        let left = wire::rest(left, taken);
        let (fourth, _) = wire::read_u32(left)?;
        proof {
            assert(bytes@.skip(4).skip(4) =~= bytes@.skip(8));
            assert(bytes@.skip(8).skip(4) =~= bytes@.skip(12));
        }
        Ok((ResponseData { raw: [first, second, third, fourth] }, RESPONSE_DATA_LEN))
    }
}

} // verus!
