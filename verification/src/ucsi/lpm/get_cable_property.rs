//! Types for the GET_CABLE_PROPERTY command, see UCSI spec 6.5.16.
use crate::bits;
use crate::bitstring;
use crate::bitstring::bit_of;
use crate::pdo::MA50_UNIT;
use crate::ucsi::COMMAND_LEN;
use crate::ucsi::HEADER_LEN;
use crate::wire;
use crate::wire::DecodeError;
use vstd::arithmetic::power2::lemma2_to64;
use vstd::prelude::*;
use vstd::std_specs::convert::FromSpecImpl;

verus! {

/// Data length for the GET_CABLE_PROPERTY command response
pub const RESPONSE_DATA_LEN: usize = 5;

/// Zero bytes that follow the connector number byte
pub const COMMAND_PADDING: usize = COMMAND_LEN - HEADER_LEN - 1;

/// Lowest bit of the units in a speed word.
pub const SPEED_UNITS_LSB: u32 = 0;

/// Width in bits of the units of a speed.
pub const SPEED_UNITS_WIDTH: u32 = 2;

/// Lowest bit of the value in a speed word.
pub const SPEED_VALUE_LSB: u32 = 2;

/// Width in bits of the value of a speed.
pub const SPEED_VALUE_WIDTH: u32 = 14;

/// Lowest bit of `speed_supported` in the response.
pub const SPEED_SUPPORTED_LSB: usize = 0;

/// Width in bits of `speed_supported`.
pub const SPEED_SUPPORTED_WIDTH: usize = 16;

/// Lowest bit of `current_capability` in the response, in units of 50 mA.
pub const CURRENT_CAPABILITY_LSB: usize = 16;

/// Width in bits of `current_capability`.
pub const CURRENT_CAPABILITY_WIDTH: usize = 8;

/// Bit of the response that holds `vbus_in_cable`.
pub const VBUS_IN_CABLE_BIT: usize = 24;

/// Bit of the response that holds `active_cable`.
pub const ACTIVE_CABLE_BIT: usize = 25;

/// Bit of the response that holds `directionality_configurable`.
pub const DIRECTIONALITY_CONFIGURABLE_BIT: usize = 26;

/// Lowest bit of `plug_end_type` in the response.
pub const PLUG_END_TYPE_LSB: usize = 27;

/// Width in bits of `plug_end_type`.
pub const PLUG_END_TYPE_WIDTH: usize = 2;

/// Bit of the response that holds `alt_mode_supported`.
pub const ALT_MODE_SUPPORTED_BIT: usize = 29;

/// Lowest bit of `cable_pd_major` in the response.
pub const CABLE_PD_MAJOR_LSB: usize = 30;

/// Width in bits of `cable_pd_major`.
pub const CABLE_PD_MAJOR_WIDTH: usize = 2;

/// Lowest bit of `latency` in the response.
pub const LATENCY_LSB: usize = 32;

/// Width in bits of `latency`.
pub const LATENCY_WIDTH: usize = 4;

/// Command arguments
#[derive(Debug, Clone, Copy, Default, PartialEq, Eq)]
pub struct Args;

impl Args {
    /// The arguments on the wire: padding only.
    pub open spec fn encoding(self) -> Seq<u8> {
        wire::zeros(COMMAND_PADDING as nat)
    }

    /// What decoding the arguments from the head of `bytes` yields.
    pub open spec fn decoding(bytes: Seq<u8>) -> Result<(Args, usize), DecodeError> {
        match wire::reading_bytes(bytes, COMMAND_PADDING) {
            Err(error) => Err(error),
            Ok((_, taken)) => Ok((Args, taken)),
        }
    }

    /// Appends the padding that stands for the arguments.
    pub fn encode(&self, out: &mut Vec<u8>)
        ensures
            final(out)@ == old(out)@ + self.encoding(),
    {
        wire::write_padding(out, COMMAND_PADDING);
    }

    /// Reads over the padding that stands for the arguments.
    pub fn decode(bytes: &[u8]) -> (decoded: Result<(Self, usize), DecodeError>)
        ensures
            decoded == Args::decoding(bytes@),
    {
        let taken = wire::read_padding(bytes, COMMAND_PADDING)?;
        Ok((Args, taken))
    }

    /// The encoded arguments decode to the arguments, whatever follows them.
    pub proof fn decoding_of_encoding(args: Args, tail: Seq<u8>)
        ensures
            Args::decoding(args.encoding() + tail) == Ok::<(Args, usize), DecodeError>(
                (args, COMMAND_PADDING),
            ),
            (args.encoding() + tail).skip(COMMAND_PADDING as int) == tail,
    {
        assert((args.encoding() + tail).skip(COMMAND_PADDING as int) =~= tail);
    }
}

/// Speed that a cable supports: a value of fourteen bits and its unit
#[derive(Copy, Clone, Debug, PartialEq, Eq)]
pub enum SpeedSupported {
    /// Bits per second
    Bps(u16),
    /// Kilobits per second
    Kbps(u16),
    /// Megabits per second
    Mbps(u16),
    /// Gigabits per second
    Gbps(u16),
}

impl SpeedSupported {
    /// The number that stands for the speed's unit on the wire.
    pub open spec fn units(self) -> u32 {
        match self {
            SpeedSupported::Bps(_) => 0x0,
            SpeedSupported::Kbps(_) => 0x1,
            SpeedSupported::Mbps(_) => 0x2,
            SpeedSupported::Gbps(_) => 0x3,
        }
    }

    /// The speed's value, in its unit.
    pub open spec fn value(self) -> u16 {
        match self {
            SpeedSupported::Bps(value) => value,
            SpeedSupported::Kbps(value) => value,
            SpeedSupported::Mbps(value) => value,
            SpeedSupported::Gbps(value) => value,
        }
    }

    /// The speed that a speed word stands for.
    pub open spec fn of_word(word: u16) -> SpeedSupported {
        let units = bits::field(word as u32, SPEED_UNITS_LSB, SPEED_UNITS_WIDTH);
        let value = bits::field(word as u32, SPEED_VALUE_LSB, SPEED_VALUE_WIDTH) as u16;
        if units == 0 {
            SpeedSupported::Bps(value)
        } else if units == 1 {
            SpeedSupported::Kbps(value)
        } else if units == 2 {
            SpeedSupported::Mbps(value)
        } else {
            SpeedSupported::Gbps(value)
        }
    }

    /// The speed word: the unit in the low two bits, above them the low
    /// fourteen bits of the value.
    pub open spec fn word(self) -> u16 {
        bits::with_field(
            bits::with_field(0, SPEED_UNITS_LSB, SPEED_UNITS_WIDTH, self.units()),
            SPEED_VALUE_LSB,
            SPEED_VALUE_WIDTH,
            self.value() as u32,
        ) as u16
    }

    /// A speed whose value fits in fourteen bits is the speed of its word.
    pub proof fn of_its_word(speed: SpeedSupported)
        requires
            speed.value() <= 0x3fff,
        ensures
            SpeedSupported::of_word(speed.word()) == speed,
    {
        let units = bits::with_field(0, SPEED_UNITS_LSB, SPEED_UNITS_WIDTH, speed.units());
        let word = bits::with_field(
            units,
            SPEED_VALUE_LSB,
            SPEED_VALUE_WIDTH,
            speed.value() as u32,
        );
        bits::mask_values();
        bits::half_word_writes_stay_in_half_word(
            0,
            SPEED_UNITS_LSB,
            SPEED_UNITS_WIDTH,
            speed.units(),
            false,
        );
        bits::half_word_writes_stay_in_half_word(
            units,
            SPEED_VALUE_LSB,
            SPEED_VALUE_WIDTH,
            speed.value() as u32,
            false,
        );
        bits::field_after_with_field(0, SPEED_UNITS_LSB, SPEED_UNITS_WIDTH, speed.units());
        bits::small_value_is_kept(speed.units(), SPEED_UNITS_WIDTH);
        bits::field_apart_from_with_field(
            units,
            SPEED_VALUE_LSB,
            SPEED_VALUE_WIDTH,
            speed.value() as u32,
            SPEED_UNITS_LSB,
            SPEED_UNITS_WIDTH,
        );
        bits::field_after_with_field(
            units,
            SPEED_VALUE_LSB,
            SPEED_VALUE_WIDTH,
            speed.value() as u32,
        );
        bits::small_value_is_kept(speed.value() as u32, SPEED_VALUE_WIDTH);
    }
}

impl From<u16> for SpeedSupported {
    fn from(value: u16) -> (speed: Self) {
        let units = bits::get_field_u8(value as u32, SPEED_UNITS_LSB, SPEED_UNITS_WIDTH);
        let speed = bits::get_field_u16(value as u32, SPEED_VALUE_LSB, SPEED_VALUE_WIDTH);
        match units {
            0x0 => SpeedSupported::Bps(speed),
            0x1 => SpeedSupported::Kbps(speed),
            0x2 => SpeedSupported::Mbps(speed),
            _ => SpeedSupported::Gbps(speed),
        }
    }
}

impl FromSpecImpl<u16> for SpeedSupported {
    open spec fn obeys_from_spec() -> bool {
        true
    }

    open spec fn from_spec(value: u16) -> Self {
        SpeedSupported::of_word(value)
    }
}

impl From<SpeedSupported> for u16 {
    fn from(value: SpeedSupported) -> (word: u16) {
        let (units, speed): (u32, u16) = match value {
            SpeedSupported::Bps(v) => (0x0, v),
            SpeedSupported::Kbps(v) => (0x1, v),
            SpeedSupported::Mbps(v) => (0x2, v),
            SpeedSupported::Gbps(v) => (0x3, v),
        };
        let word = bits::set_field_u16(0, SPEED_UNITS_LSB, SPEED_UNITS_WIDTH, units);
        bits::set_field_u16(word, SPEED_VALUE_LSB, SPEED_VALUE_WIDTH, speed as u32)
    }
}

impl FromSpecImpl<SpeedSupported> for u16 {
    open spec fn obeys_from_spec() -> bool {
        true
    }

    open spec fn from_spec(value: SpeedSupported) -> u16 {
        value.word()
    }
}

impl Default for SpeedSupported {
    fn default() -> (speed: Self)
        ensures
            speed == SpeedSupported::Bps(0),
    {
        SpeedSupported::Bps(0)
    }
}

/// Cable plug end type
#[derive(Debug, Clone, Copy, Default, PartialEq, Eq)]
pub enum PlugEndType {
    /// Type-A plug
    #[default]
    TypeA,
    /// Type-B plug
    TypeB,
    /// Type-C plug
    TypeC,
    /// Not USB
    Other,
}

impl PlugEndType {
    /// The number that stands for the plug end type on the wire.
    pub open spec fn number(self) -> u8 {
        match self {
            PlugEndType::TypeA => 0x0,
            PlugEndType::TypeB => 0x1,
            PlugEndType::TypeC => 0x2,
            PlugEndType::Other => 0x3,
        }
    }

    /// The plug end type that the low two bits of a number stand for.
    pub open spec fn of_number(value: u8) -> PlugEndType {
        let low = value % 4;
        if low == 0 {
            PlugEndType::TypeA
        } else if low == 1 {
            PlugEndType::TypeB
        } else if low == 2 {
            PlugEndType::TypeC
        } else {
            PlugEndType::Other
        }
    }
}

impl From<u8> for PlugEndType {
    fn from(value: u8) -> (plug: Self) {
        match value % 4 {
            0x0 => PlugEndType::TypeA,
            0x1 => PlugEndType::TypeB,
            0x2 => PlugEndType::TypeC,
            _ => PlugEndType::Other,
        }
    }
}

impl FromSpecImpl<u8> for PlugEndType {
    open spec fn obeys_from_spec() -> bool {
        true
    }

    open spec fn from_spec(value: u8) -> Self {
        PlugEndType::of_number(value)
    }
}

impl From<PlugEndType> for u8 {
    fn from(value: PlugEndType) -> (number: u8) {
        match value {
            PlugEndType::TypeA => 0x0,
            PlugEndType::TypeB => 0x1,
            PlugEndType::TypeC => 0x2,
            PlugEndType::Other => 0x3,
        }
    }
}

impl FromSpecImpl<PlugEndType> for u8 {
    open spec fn obeys_from_spec() -> bool {
        true
    }

    open spec fn from_spec(value: PlugEndType) -> u8 {
        value.number()
    }
}

/// GET_CABLE_PROPERTY response data
#[derive(Copy, Clone, Debug, Default, PartialEq, Eq)]
pub struct ResponseData {
    /// Speed supported
    pub speed_supported: SpeedSupported,
    /// Current capability in mA
    pub current_capability: u16,
    /// True the cable has an end-to-end vbus connection
    pub vbus_in_cable: bool,
    /// True if the cable is an active cable
    pub active_cable: bool,
    /// True if lane directionality is configurable
    pub directionality_configurable: bool,
    /// Plug end type
    pub plug_end_type: PlugEndType,
    /// True if the cable supports alternate modes
    pub alt_mode_supported: bool,
    /// Cable PD major version
    pub cable_pd_major: u8,
    /// Latency
    pub latency: u8,
}

impl ResponseData {
    /// The response that the five bytes at the head of `bytes` stand for.
    pub open spec fn of_bytes(bytes: Seq<u8>) -> ResponseData {
        ResponseData {
            speed_supported: SpeedSupported::of_word(
                bitstring::field(
                    bytes,
                    SPEED_SUPPORTED_LSB as int,
                    SPEED_SUPPORTED_WIDTH as nat,
                ) as u16,
            ),
            current_capability: (bitstring::field(
                bytes,
                CURRENT_CAPABILITY_LSB as int,
                CURRENT_CAPABILITY_WIDTH as nat,
            ) * MA50_UNIT) as u16,
            vbus_in_cable: bitstring::field(bytes, VBUS_IN_CABLE_BIT as int, 1) == 1,
            active_cable: bitstring::field(bytes, ACTIVE_CABLE_BIT as int, 1) == 1,
            directionality_configurable: bitstring::field(
                bytes,
                DIRECTIONALITY_CONFIGURABLE_BIT as int,
                1,
            ) == 1,
            plug_end_type: PlugEndType::of_number(
                bitstring::field(bytes, PLUG_END_TYPE_LSB as int, PLUG_END_TYPE_WIDTH as nat) as u8,
            ),
            alt_mode_supported: bitstring::field(bytes, ALT_MODE_SUPPORTED_BIT as int, 1) == 1,
            cable_pd_major: bitstring::field(
                bytes,
                CABLE_PD_MAJOR_LSB as int,
                CABLE_PD_MAJOR_WIDTH as nat,
            ) as u8,
            latency: bitstring::field(bytes, LATENCY_LSB as int, LATENCY_WIDTH as nat) as u8,
        }
    }

    /// The response's five bytes: each field written into zero bytes, a
    /// value beyond its field's width cut to the width. The current
    /// capability is written in whole units of 50 mA.
    pub open spec fn bytes(self) -> Seq<u8> {
        let b = wire::zeros(RESPONSE_DATA_LEN as nat);
        let b = bitstring::with_field(
            b,
            SPEED_SUPPORTED_LSB as int,
            SPEED_SUPPORTED_WIDTH as nat,
            self.speed_supported.word() as nat,
        );
        let b = bitstring::with_field(
            b,
            CURRENT_CAPABILITY_LSB as int,
            CURRENT_CAPABILITY_WIDTH as nat,
            (self.current_capability / MA50_UNIT) as nat,
        );
        let b = bitstring::with_field(b, VBUS_IN_CABLE_BIT as int, 1, bit_of(self.vbus_in_cable) as nat);
        let b = bitstring::with_field(b, ACTIVE_CABLE_BIT as int, 1, bit_of(self.active_cable) as nat);
        let b = bitstring::with_field(
            b,
            DIRECTIONALITY_CONFIGURABLE_BIT as int,
            1,
            bit_of(self.directionality_configurable) as nat,
        );
        let b = bitstring::with_field(
            b,
            PLUG_END_TYPE_LSB as int,
            PLUG_END_TYPE_WIDTH as nat,
            self.plug_end_type.number() as nat,
        );
        let b = bitstring::with_field(
            b,
            ALT_MODE_SUPPORTED_BIT as int,
            1,
            bit_of(self.alt_mode_supported) as nat,
        );
        let b = bitstring::with_field(
            b,
            CABLE_PD_MAJOR_LSB as int,
            CABLE_PD_MAJOR_WIDTH as nat,
            self.cable_pd_major as nat,
        );
        bitstring::with_field(b, LATENCY_LSB as int, LATENCY_WIDTH as nat, self.latency as nat)
    }

    /// Whether the response keeps its values on the wire: each fits its
    /// field, and the current capability is a whole number of units.
    pub open spec fn fits(self) -> bool {
        &&& self.speed_supported.value() <= 0x3fff
        &&& self.current_capability % MA50_UNIT == 0
        &&& self.current_capability / MA50_UNIT <= 0xff
        &&& self.cable_pd_major <= 0x3
        &&& self.latency <= 0xf
    }

    /// The response on the wire: its five bytes.
    pub open spec fn encoding(self) -> Seq<u8> {
        self.bytes()
    }

    /// What decoding the response from the head of `bytes` yields.
    pub open spec fn decoding(bytes: Seq<u8>) -> Result<(ResponseData, usize), DecodeError> {
        match wire::reading_bytes(bytes, RESPONSE_DATA_LEN) {
            Err(error) => Err(error),
            Ok((taken, count)) => Ok((ResponseData::of_bytes(taken), count)),
        }
    }

    /// Appends the response's five bytes.
    pub fn encode(&self, out: &mut Vec<u8>)
        ensures
            final(out)@ == old(out)@ + self.encoding(),
    {
        let raw: [u8; RESPONSE_DATA_LEN] = (*self).into();
        wire::write_bytes(out, raw.as_slice());
    }

    /// Decodes the response from five bytes.
    pub fn decode(bytes: &[u8]) -> (decoded: Result<(Self, usize), DecodeError>)
        ensures
            decoded == ResponseData::decoding(bytes@),
    {
        let (raw, taken) = wire::read_array::<RESPONSE_DATA_LEN>(bytes)?;
        proof {
            wire::array_of_holds::<RESPONSE_DATA_LEN>(bytes@, raw);
        }
        Ok((ResponseData::from(raw), taken))
    }

    /// A response that fits is the response of its bytes.
    pub proof fn of_its_bytes(response: ResponseData)
        requires
            response.fits(),
        ensures
            response.bytes().len() == RESPONSE_DATA_LEN,
            ResponseData::of_bytes(response.bytes()) == response,
    {
        bitstring::reads_after_writes();
        lemma2_to64();
        SpeedSupported::of_its_word(response.speed_supported);
        let decoded = ResponseData::of_bytes(response.bytes());
        assert(decoded.speed_supported == response.speed_supported);
        assert(decoded.current_capability == response.current_capability);
        assert(decoded.plug_end_type == response.plug_end_type);
    }

    /// A response that fits decodes from its encoding, whatever follows it.
    pub proof fn decoding_of_encoding(response: ResponseData, tail: Seq<u8>)
        requires
            response.fits(),
        ensures
            ResponseData::decoding(response.encoding() + tail) == Ok::<
                (ResponseData, usize),
                DecodeError,
            >((response, RESPONSE_DATA_LEN)),
            (response.encoding() + tail).skip(RESPONSE_DATA_LEN as int) == tail,
    {
        ResponseData::of_its_bytes(response);
        let bytes = response.encoding() + tail;
        assert(bytes.take(RESPONSE_DATA_LEN as int) =~= response.bytes());
        assert(bytes.skip(RESPONSE_DATA_LEN as int) =~= tail);
    }
}

impl From<[u8; RESPONSE_DATA_LEN]> for ResponseData {
    fn from(value: [u8; RESPONSE_DATA_LEN]) -> (response: Self) {
        let speed = bitstring::get_field_u16(&value, SPEED_SUPPORTED_LSB, SPEED_SUPPORTED_WIDTH);
        let capability = bitstring::get_field_u8(
            &value,
            CURRENT_CAPABILITY_LSB,
            CURRENT_CAPABILITY_WIDTH,
        ) as u16;
        ResponseData {
            speed_supported: SpeedSupported::from(speed),
            current_capability: capability * MA50_UNIT,
            vbus_in_cable: bitstring::get_flag(&value, VBUS_IN_CABLE_BIT),
            active_cable: bitstring::get_flag(&value, ACTIVE_CABLE_BIT),
            directionality_configurable: bitstring::get_flag(
                &value,
                DIRECTIONALITY_CONFIGURABLE_BIT,
            ),
            plug_end_type: PlugEndType::from(
                bitstring::get_field_u8(&value, PLUG_END_TYPE_LSB, PLUG_END_TYPE_WIDTH),
            ),
            alt_mode_supported: bitstring::get_flag(&value, ALT_MODE_SUPPORTED_BIT),
            cable_pd_major: bitstring::get_field_u8(
                &value,
                CABLE_PD_MAJOR_LSB,
                CABLE_PD_MAJOR_WIDTH,
            ),
            latency: bitstring::get_field_u8(&value, LATENCY_LSB, LATENCY_WIDTH),
        }
    }
}

impl FromSpecImpl<[u8; RESPONSE_DATA_LEN]> for ResponseData {
    open spec fn obeys_from_spec() -> bool {
        true
    }

    open spec fn from_spec(value: [u8; RESPONSE_DATA_LEN]) -> Self {
        ResponseData::of_bytes(value@)
    }
}

impl From<ResponseData> for [u8; RESPONSE_DATA_LEN] {
    fn from(value: ResponseData) -> (raw: [u8; RESPONSE_DATA_LEN])
        ensures
            raw@ == value.bytes(),
    {
        let mut raw = [0u8; RESPONSE_DATA_LEN];
        proof {
            assert(raw@ =~= wire::zeros(RESPONSE_DATA_LEN as nat));
            bitstring::reads_after_writes();
        }
        let speed: u16 = value.speed_supported.into();
        bitstring::set_field(&mut raw, SPEED_SUPPORTED_LSB, SPEED_SUPPORTED_WIDTH, speed as u32);
        bitstring::set_field(
            &mut raw,
            CURRENT_CAPABILITY_LSB,
            CURRENT_CAPABILITY_WIDTH,
            (value.current_capability / MA50_UNIT) as u32,
        );
        bitstring::set_flag(&mut raw, VBUS_IN_CABLE_BIT, value.vbus_in_cable);
        bitstring::set_flag(&mut raw, ACTIVE_CABLE_BIT, value.active_cable);
        bitstring::set_flag(
            &mut raw,
            DIRECTIONALITY_CONFIGURABLE_BIT,
            value.directionality_configurable,
        );
        bitstring::set_field(
            &mut raw,
            PLUG_END_TYPE_LSB,
            PLUG_END_TYPE_WIDTH,
            u8::from(value.plug_end_type) as u32,
        );
        bitstring::set_flag(&mut raw, ALT_MODE_SUPPORTED_BIT, value.alt_mode_supported);
        bitstring::set_field(
            &mut raw,
            CABLE_PD_MAJOR_LSB,
            CABLE_PD_MAJOR_WIDTH,
            value.cable_pd_major as u32,
        );
        bitstring::set_field(&mut raw, LATENCY_LSB, LATENCY_WIDTH, value.latency as u32);
        proof {
            wire::array_of_holds::<RESPONSE_DATA_LEN>(value.bytes(), raw);
        }
        raw
    }
}

impl FromSpecImpl<ResponseData> for [u8; RESPONSE_DATA_LEN] {
    open spec fn obeys_from_spec() -> bool {
        true
    }

    open spec fn from_spec(value: ResponseData) -> [u8; RESPONSE_DATA_LEN] {
        wire::array_of::<RESPONSE_DATA_LEN>(value.bytes())
    }
}

} // verus!
