//! Types for the SET_POWER_LEVEL command, see UCSI spec 6.5.19.
use crate::bitstring;
use crate::pdo;
use crate::pdo::MA50_UNIT;
use crate::pdo::MV20_UNIT;
use crate::pdo::MV25_UNIT;
use crate::type_c;
use crate::wire;
use crate::wire::Allowed;
use crate::wire::DecodeError;
use crate::PowerRole;
use vstd::arithmetic::power2::lemma2_to64;
use vstd::prelude::*;
use vstd::std_specs::convert::FromSpecImpl;
use vstd::std_specs::convert::TryFromSpecImpl;

verus! {

/// Command data length
pub const COMMAND_DATA_LEN: usize = 6;

/// Lowest bit of `connector_number` in the argument bytes.
pub const CONNECTOR_NUMBER_LSB: usize = 0;

/// Width in bits of `connector_number`.
pub const CONNECTOR_NUMBER_WIDTH: usize = 7;

/// Bit of the argument bytes that holds `power_role`, set for source.
pub const POWER_ROLE_BIT: usize = 7;

/// Lowest bit of `max_power` in the argument bytes.
pub const MAX_POWER_LSB: usize = 8;

/// Width in bits of `max_power`.
pub const MAX_POWER_WIDTH: usize = 8;

/// Lowest bit of `type_c_current` in the argument bytes.
pub const TYPE_C_CURRENT_LSB: usize = 16;

/// Width in bits of `type_c_current`.
pub const TYPE_C_CURRENT_WIDTH: usize = 3;

/// Bit of the argument bytes that holds `lsb_control`: the choice of units
/// for `max_power` and `output_voltage`.
pub const LSB_CONTROL_BIT: usize = 19;

/// Lowest bit of `operating_current` in the argument bytes.
pub const OPERATING_CURRENT_LSB: usize = 20;

/// Width in bits of `operating_current`.
pub const OPERATING_CURRENT_WIDTH: usize = 8;

/// Lowest bit of `output_voltage` in the argument bytes.
pub const OUTPUT_VOLTAGE_LSB: usize = 30;

/// Width in bits of `output_voltage`.
pub const OUTPUT_VOLTAGE_WIDTH: usize = 12;

/// Unit of `max_power` in mW when `lsb_control` is clear
pub const MAX_POWER_FINE_UNIT: u16 = 500;

/// Unit of `max_power` in mW when `lsb_control` is set
pub const MAX_POWER_COARSE_UNIT: u16 = 1000;

/// Type-C current
#[derive(Debug, Clone, Copy, Default, PartialEq, Eq)]
pub enum Current {
    /// PPM default
    #[default]
    PpmDefault,
    /// Type-C current
    Current(type_c::Current),
}

impl Current {
    /// The number that stands for the current on the wire.
    pub open spec fn number(self) -> u8 {
        match self {
            Current::PpmDefault => 0x00,
            Current::Current(type_c::Current::Current3A0) => 0x01,
            Current::Current(type_c::Current::Current1A5) => 0x02,
            Current::Current(type_c::Current::UsbDefault) => 0x03,
        }
    }

    /// The current that a number stands for, if it stands for one.
    pub open spec fn of_number(value: u8) -> Option<Current> {
        match value {
            0x00 => Some(Current::PpmDefault),
            0x01 => Some(Current::Current(type_c::Current::Current3A0)),
            0x02 => Some(Current::Current(type_c::Current::Current1A5)),
            0x03 => Some(Current::Current(type_c::Current::UsbDefault)),
            _ => None,
        }
    }
}

/// Type-C decode error, contains the invalid value
#[derive(Debug, Clone, Copy, Default, PartialEq, Eq)]
pub struct InvalidCurrent(pub u8);

impl TryFrom<u8> for Current {
    type Error = InvalidCurrent;

    fn try_from(value: u8) -> (current: Result<Self, InvalidCurrent>) {
        match value {
            0x00 => Ok(Current::PpmDefault),
            0x01 => Ok(Current::Current(type_c::Current::Current3A0)),
            0x02 => Ok(Current::Current(type_c::Current::Current1A5)),
            0x03 => Ok(Current::Current(type_c::Current::UsbDefault)),
            v => Err(InvalidCurrent(v)),
        }
    }
}

impl TryFromSpecImpl<u8> for Current {
    open spec fn obeys_try_from_spec() -> bool {
        true
    }

    open spec fn try_from_spec(value: u8) -> Result<Self, InvalidCurrent> {
        match Current::of_number(value) {
            Some(current) => Ok(current),
            None => Err(InvalidCurrent(value)),
        }
    }
}

impl From<Current> for u8 {
    fn from(value: Current) -> (number: u8) {
        match value {
            Current::PpmDefault => 0x00,
            Current::Current(type_c::Current::Current3A0) => 0x01,
            Current::Current(type_c::Current::Current1A5) => 0x02,
            Current::Current(type_c::Current::UsbDefault) => 0x03,
        }
    }
}

impl FromSpecImpl<Current> for u8 {
    open spec fn obeys_from_spec() -> bool {
        true
    }

    open spec fn from_spec(value: Current) -> u8 {
        value.number()
    }
}

/// Command arguments: six bytes whose Type-C current field names a current.
#[derive(Debug, Clone, Copy, PartialEq, Eq)]
pub struct Args([u8; COMMAND_DATA_LEN]);

impl View for Args {
    type V = Seq<u8>;

    /// The six argument bytes.
    closed spec fn view(&self) -> Seq<u8> {
        self.0@
    }
}

impl Args {
    /// Whether six bytes can be argument bytes: their Type-C current field names a current.
    pub open spec fn admits(bytes: Seq<u8>) -> bool {
        bytes.len() == COMMAND_DATA_LEN && bitstring::field(
            bytes,
            TYPE_C_CURRENT_LSB as int,
            TYPE_C_CURRENT_WIDTH as nat,
        ) <= 3
    }

    /// The arguments always hold bytes that can be argument bytes.
    #[verifier::type_invariant]
    pub closed spec fn valid(self) -> bool {
        Args::admits(self.0@)
    }

    /// The arguments that hold `bytes`.
    pub closed spec fn of_bytes(bytes: [u8; COMMAND_DATA_LEN]) -> Args {
        Args(bytes)
    }

    /// Arguments and argument bytes stand for each other.
    pub proof fn bytes_of_args(args: Args, bytes: [u8; COMMAND_DATA_LEN])
        ensures
            Args::of_bytes(bytes)@ == bytes@,
            Args::of_bytes(bytes)@.len() == COMMAND_DATA_LEN,
            args@.len() == COMMAND_DATA_LEN,
            args.valid() == Args::admits(args@),
            forall|other: Args| other@ == args@ ==> other == args,
    {
        assert forall|other: Args| other@ == args@ implies other == args by {
            assert(other.0 =~= args.0);
        }
    }

    /// The arguments hold six bytes.
    pub proof fn holds_six_bytes(args: Args)
        ensures
            args@.len() == COMMAND_DATA_LEN,
    {
    }

    /// Arguments that hold the same bytes are the same arguments.
    pub proof fn same_bytes_same_args(a: Args, b: Args)
        requires
            a@ == b@,
        ensures
            a == b,
    {
        assert(a.0 =~= b.0);
    }

    /// The value of the field at `lsb` of `width` bits.
    pub open spec fn field(self, lsb: usize, width: usize) -> nat {
        bitstring::field(self@, lsb as int, width as nat)
    }

    /// The argument bytes after a write to the field at `lsb` of `width` bits.
    pub open spec fn with_field(self, lsb: usize, width: usize, value: nat) -> Seq<u8> {
        bitstring::with_field(self@, lsb as int, width as nat, value)
    }

    /// The arguments after a write to the field at `lsb` of `width` bits.
    pub closed spec fn rewritten(self, lsb: usize, width: usize, value: nat) -> Args {
        Args(wire::array_of::<COMMAND_DATA_LEN>(self.with_field(lsb, width, value)))
    }

    /// The arguments after a write hold the argument bytes after the write.
    pub proof fn bytes_of_rewritten(args: Args, lsb: usize, width: usize, value: nat)
        requires
            lsb + width <= 8 * COMMAND_DATA_LEN,
        ensures
            args.rewritten(lsb, width, value)@ == args.with_field(lsb, width, value),
    {
        bitstring::with_field_keeps_len(args.0@, lsb as int, width as nat, value);
        wire::array_of_holds::<COMMAND_DATA_LEN>(args.with_field(lsb, width, value), args.0);
        assert(args.with_field(lsb, width, value).take(COMMAND_DATA_LEN as int) =~= args.with_field(
            lsb,
            width,
            value,
        ));
    }

    fn write(&mut self, lsb: usize, width: usize, value: u32)
        requires
            lsb + width <= 8 * COMMAND_DATA_LEN,
            lsb + width <= TYPE_C_CURRENT_LSB || lsb >= TYPE_C_CURRENT_LSB + TYPE_C_CURRENT_WIDTH
                || (lsb == TYPE_C_CURRENT_LSB && width == TYPE_C_CURRENT_WIDTH && value <= 3),
        ensures
            final(self)@ == old(self).with_field(lsb, width, value as nat),
    {
        proof {
            use_type_invariant(&*self);
        }
        let mut bytes = self.0;
        bitstring::set_field(&mut bytes, lsb, width, value);
        proof {
            bitstring::with_field_keeps_len(self.0@, lsb as int, width as nat, value as nat);
            if lsb == TYPE_C_CURRENT_LSB && width == TYPE_C_CURRENT_WIDTH {
                bitstring::field_after_with_field(self.0@, lsb as int, width as nat, value as nat);
                lemma2_to64();
            } else {
                bitstring::field_apart_from_with_field(
                    self.0@,
                    lsb as int,
                    width as nat,
                    value as nat,
                    TYPE_C_CURRENT_LSB as int,
                    TYPE_C_CURRENT_WIDTH as nat,
                );
            }
        }
        self.0 = bytes;
    }

    /// Returns the connector number
    pub fn connector_number(&self) -> (number: u8)
        ensures
            number == self.field(CONNECTOR_NUMBER_LSB, CONNECTOR_NUMBER_WIDTH),
    {
        proof {
            use_type_invariant(self);
        }
        bitstring::get_field_u8(&self.0, CONNECTOR_NUMBER_LSB, CONNECTOR_NUMBER_WIDTH)
    }

    /// Sets the connector number; only its low seven bits are kept
    pub fn set_connector_number(&mut self, connector_number: u8) -> (this: &mut Self)
        ensures
            this@ == old(self).with_field(
                CONNECTOR_NUMBER_LSB,
                CONNECTOR_NUMBER_WIDTH,
                connector_number as nat,
            ),
            *final(this) == *final(self),
    {
        self.write(CONNECTOR_NUMBER_LSB, CONNECTOR_NUMBER_WIDTH, connector_number as u32);
        self
    }

    /// Returns the power role
    pub fn power_role(&self) -> (role: PowerRole)
        ensures
            role == if self.field(POWER_ROLE_BIT, 1) == 1 {
                PowerRole::Source
            } else {
                PowerRole::Sink
            },
    {
        proof {
            use_type_invariant(self);
        }
        if bitstring::get_flag(&self.0, POWER_ROLE_BIT) {
            PowerRole::Source
        } else {
            PowerRole::Sink
        }
    }

    /// Sets the power role
    pub fn set_power_role(&mut self, power_role: PowerRole) -> (this: &mut Self)
        ensures
            this@ == old(self).with_field(
                POWER_ROLE_BIT,
                1,
                if power_role == PowerRole::Source {
                    1nat
                } else {
                    0nat
                },
            ),
            *final(this) == *final(self),
    {
        let bit: u32 = if matches!(power_role, PowerRole::Source) {
            1
        } else {
            0
        };
        self.write(POWER_ROLE_BIT, 1, bit);
        self
    }

    /// Max power in mW: the field in units of 1000 mW if `lsb_control` is
    /// set, of 500 mW if not; a quantity beyond 16 bits wraps around
    pub fn max_power(&self) -> (milliwatts: u16)
        ensures
            milliwatts == pdo::scaled(
                self.field(MAX_POWER_LSB, MAX_POWER_WIDTH) as u16,
                if self.field(LSB_CONTROL_BIT, 1) == 1 {
                    MAX_POWER_COARSE_UNIT
                } else {
                    MAX_POWER_FINE_UNIT
                },
            ),
    {
        proof {
            use_type_invariant(self);
        }
        let count = bitstring::get_field_u8(&self.0, MAX_POWER_LSB, MAX_POWER_WIDTH) as u16;
        if bitstring::get_flag(&self.0, LSB_CONTROL_BIT) {
            pdo::scale(count, MAX_POWER_COARSE_UNIT)
        } else {
            pdo::scale(count, MAX_POWER_FINE_UNIT)
        }
    }

    /// Returns the Type-C current
    pub fn type_c_current(&self) -> (current: Current)
        ensures
            current.number() == self.field(TYPE_C_CURRENT_LSB, TYPE_C_CURRENT_WIDTH),
    {
        proof {
            use_type_invariant(self);
        }
        match bitstring::get_field_u8(&self.0, TYPE_C_CURRENT_LSB, TYPE_C_CURRENT_WIDTH) {
            0x00 => Current::PpmDefault,
            0x01 => Current::Current(type_c::Current::Current3A0),
            0x02 => Current::Current(type_c::Current::Current1A5),
            _ => Current::Current(type_c::Current::UsbDefault),
        }
    }

    /// Sets the Type-C current
    pub fn set_type_c_current(&mut self, type_c_current: Current) -> (this: &mut Self)
        ensures
            this@ == old(self).with_field(
                TYPE_C_CURRENT_LSB,
                TYPE_C_CURRENT_WIDTH,
                type_c_current.number() as nat,
            ),
            *final(this) == *final(self),
    {
        let number = u8::from(type_c_current);
        self.write(TYPE_C_CURRENT_LSB, TYPE_C_CURRENT_WIDTH, number as u32);
        self
    }

    /// Operating current in mA: the field in units of 50 mA
    pub fn operating_current(&self) -> (milliamps: u16)
        ensures
            milliamps == self.field(OPERATING_CURRENT_LSB, OPERATING_CURRENT_WIDTH) * MA50_UNIT,
    {
        proof {
            use_type_invariant(self);
        }
        let count = bitstring::get_field_u8(
            &self.0,
            OPERATING_CURRENT_LSB,
            OPERATING_CURRENT_WIDTH,
        ) as u16;
        count * MA50_UNIT
    }

    /// Set operating current in mA: whole units of 50 mA are kept, and of
    /// their count the low eight bits
    pub fn set_operating_current(&mut self, operating_current: u16) -> (this: &mut Self)
        ensures
            this@ == old(self).with_field(
                OPERATING_CURRENT_LSB,
                OPERATING_CURRENT_WIDTH,
                (operating_current / MA50_UNIT) as nat,
            ),
            *final(this) == *final(self),
    {
        self.write(
            OPERATING_CURRENT_LSB,
            OPERATING_CURRENT_WIDTH,
            (operating_current / MA50_UNIT) as u32,
        );
        self
    }

    /// Output voltage in mV: the field in units of 25 mV if `lsb_control` is
    /// set, of 20 mV if not; a quantity beyond 16 bits wraps around
    pub fn output_voltage(&self) -> (millivolts: u16)
        ensures
            millivolts == pdo::scaled(
                self.field(OUTPUT_VOLTAGE_LSB, OUTPUT_VOLTAGE_WIDTH) as u16,
                if self.field(LSB_CONTROL_BIT, 1) == 1 {
                    MV25_UNIT
                } else {
                    MV20_UNIT
                },
            ),
    {
        proof {
            use_type_invariant(self);
        }
        let count = bitstring::get_field_u16(&self.0, OUTPUT_VOLTAGE_LSB, OUTPUT_VOLTAGE_WIDTH);
        if bitstring::get_flag(&self.0, LSB_CONTROL_BIT) {
            pdo::scale(count, MV25_UNIT)
        } else {
            pdo::scale(count, MV20_UNIT)
        }
    }

    /// The units that `lsb_control` selects: of the output voltage in mV and
    /// of the max power in mW.
    pub open spec fn units(lsb_control: bool) -> (u16, u16) {
        if lsb_control {
            (MV25_UNIT, MAX_POWER_COARSE_UNIT)
        } else {
            (MV20_UNIT, MAX_POWER_FINE_UNIT)
        }
    }

    /// Sets LSB-control, output voltage in mV, and max power in mW
    ///
    /// Of each quantity the whole units that `lsb_control` selects are kept,
    /// and of their count the bits that fit the field.
    pub fn set_power_args(&mut self, lsb_control: bool, output_voltage: u16, max_power: u16) -> (this:
        &mut Self)
        ensures
            this@ == bitstring::with_field(
                bitstring::with_field(
                    old(self).with_field(
                        LSB_CONTROL_BIT,
                        1,
                        if lsb_control {
                            1nat
                        } else {
                            0nat
                        },
                    ),
                    OUTPUT_VOLTAGE_LSB as int,
                    OUTPUT_VOLTAGE_WIDTH as nat,
                    (output_voltage / Args::units(lsb_control).0) as nat,
                ),
                MAX_POWER_LSB as int,
                MAX_POWER_WIDTH as nat,
                (max_power / Args::units(lsb_control).1) as nat,
            ),
            *final(this) == *final(self),
    {
        let bit: u32 = if lsb_control {
            1
        } else {
            0
        };
        self.write(LSB_CONTROL_BIT, 1, bit);
        if lsb_control {
            self.write(
                OUTPUT_VOLTAGE_LSB,
                OUTPUT_VOLTAGE_WIDTH,
                (output_voltage / MV25_UNIT) as u32,
            );
            self.write(MAX_POWER_LSB, MAX_POWER_WIDTH, (max_power / MAX_POWER_COARSE_UNIT) as u32);
        } else {
            self.write(
                OUTPUT_VOLTAGE_LSB,
                OUTPUT_VOLTAGE_WIDTH,
                (output_voltage / MV20_UNIT) as u32,
            );
            self.write(MAX_POWER_LSB, MAX_POWER_WIDTH, (max_power / MAX_POWER_FINE_UNIT) as u32);
        }
        self
    }

    /// The arguments that six bytes stand for, or their Type-C current field
    /// if it names no current.
    pub open spec fn of_checked_bytes(bytes: [u8; COMMAND_DATA_LEN]) -> Result<Args, InvalidCurrent> {
        if Args::admits(bytes@) {
            Ok(Args::of_bytes(bytes))
        } else {
            Err(
                InvalidCurrent(
                    bitstring::field(
                        bytes@,
                        TYPE_C_CURRENT_LSB as int,
                        TYPE_C_CURRENT_WIDTH as nat,
                    ) as u8,
                ),
            )
        }
    }

    /// The arguments on the wire: their six bytes.
    pub open spec fn encoding(self) -> Seq<u8> {
        self@
    }

    /// What decoding the arguments from the head of `bytes` yields.
    pub open spec fn decoding(bytes: Seq<u8>) -> Result<(Args, usize), DecodeError> {
        match wire::reading_array::<COMMAND_DATA_LEN>(bytes) {
            Err(error) => Err(error),
            Ok((array, taken)) => match Args::of_checked_bytes(array) {
                Ok(args) => Ok((args, taken)),
                Err(invalid) => Err(
                    DecodeError::UnexpectedVariant {
                        allowed: Allowed::Current,
                        found: invalid.0 as u32,
                    },
                ),
            },
        }
    }

    /// Appends the arguments' six bytes.
    pub fn encode(&self, out: &mut Vec<u8>)
        ensures
            final(out)@ == old(out)@ + self.encoding(),
    {
        wire::write_bytes(out, self.0.as_slice());
    }

    /// Decodes the arguments from six bytes.
    ///
    /// Fails with `UnexpectedVariant` if the Type-C current field names no
    /// current.
    pub fn decode(bytes: &[u8]) -> (decoded: Result<(Self, usize), DecodeError>)
        ensures
            decoded == Args::decoding(bytes@),
    {
        let (array, taken) = wire::read_array::<COMMAND_DATA_LEN>(bytes)?;
        match Args::try_from(array) {
            Ok(args) => Ok((args, taken)),
            Err(invalid) => Err(
                DecodeError::UnexpectedVariant {
                    allowed: Allowed::Current,
                    found: invalid.0 as u32,
                },
            ),
        }
    }

    /// The encoded arguments decode to the arguments, whatever follows them.
    pub proof fn decoding_of_encoding(args: Args, tail: Seq<u8>)
        requires
            args.valid(),
        ensures
            Args::decoding(args.encoding() + tail) == Ok::<(Args, usize), DecodeError>(
                (args, COMMAND_DATA_LEN),
            ),
            (args.encoding() + tail).skip(COMMAND_DATA_LEN as int) == tail,
    {
        wire::array_of_holds::<COMMAND_DATA_LEN>(args.0@ + tail, args.0);
        assert((args.encoding() + tail).skip(COMMAND_DATA_LEN as int) =~= tail);
    }
}

impl TryFrom<[u8; COMMAND_DATA_LEN]> for Args {
    type Error = InvalidCurrent;

    fn try_from(value: [u8; COMMAND_DATA_LEN]) -> (args: Result<Self, InvalidCurrent>) {
        let number = bitstring::get_field_u8(&value, TYPE_C_CURRENT_LSB, TYPE_C_CURRENT_WIDTH);
        match Current::try_from(number) {
            Ok(_) => Ok(Args(value)),
            Err(invalid) => Err(invalid),
        }
    }
}

impl TryFromSpecImpl<[u8; COMMAND_DATA_LEN]> for Args {
    open spec fn obeys_try_from_spec() -> bool {
        true
    }

    open spec fn try_from_spec(value: [u8; COMMAND_DATA_LEN]) -> Result<Self, InvalidCurrent> {
        Args::of_checked_bytes(value)
    }
}

impl From<Args> for [u8; COMMAND_DATA_LEN] {
    fn from(args: Args) -> (bytes: [u8; COMMAND_DATA_LEN])
        ensures
            bytes@ == args@,
    {
        args.0
    }
}

impl FromSpecImpl<Args> for [u8; COMMAND_DATA_LEN] {
    open spec fn obeys_from_spec() -> bool {
        true
    }

    closed spec fn from_spec(args: Args) -> [u8; COMMAND_DATA_LEN] {
        args.0
    }
}

impl Default for Args {
    fn default() -> (args: Self)
        ensures
            args@ == wire::zeros(COMMAND_DATA_LEN as nat),
    {
        let bytes = [0u8; COMMAND_DATA_LEN];
        proof {
            bitstring::field_of_zeros(
                bytes@,
                TYPE_C_CURRENT_LSB as int,
                TYPE_C_CURRENT_WIDTH as nat,
            );
            assert(bytes@ =~= wire::zeros(COMMAND_DATA_LEN as nat));
        }
        Args(bytes)
    }
}

} // verus!
