//! Commands that the PPM hands to an LPM: each names a connector.
use crate::bits;
use crate::ucsi::cci;
use crate::ucsi::CommandHeader;
use crate::ucsi::CommandType;
use crate::ucsi::COMMAND_LEN;
use crate::ucsi::HEADER_LEN;
use crate::wire;
use crate::wire::Allowed;
use crate::wire::DecodeError;
use crate::GlobalPortId;
use crate::LocalPortId;
use crate::PortId;
use vstd::prelude::*;
use vstd::std_specs::convert::FromSpec;
use vstd::std_specs::convert::FromSpecImpl;
use vstd::std_specs::convert::IntoSpec;
use vstd::std_specs::convert::TryFromSpecImpl;

pub mod connector_reset;
pub mod get_alternate_modes;
pub mod get_cable_property;
pub mod get_cam_supported;
pub mod get_connector_capability;
pub mod get_connector_status;
pub mod get_current_cam;
pub mod get_error_status;
pub mod get_pdos;
pub mod set_ccom;
pub mod set_new_cam;
pub mod set_pdr;
pub mod set_power_level;
pub mod set_uor;

verus! {

/// Lowest bit of the connector number in the byte that carries it.
pub const CONNECTOR_NUMBER_LSB: u32 = 0;

/// Width in bits of the connector number.
pub const CONNECTOR_NUMBER_WIDTH: u32 = 7;

/// Bit above the connector number, which some commands use for an argument.
pub const CONNECTOR_HIGH_BIT: u32 = 7;

/// Zero bytes that follow the connector number byte of a command without arguments.
pub const CONNECTOR_PADDING: usize = COMMAND_LEN - HEADER_LEN - 1;

/// The connector number is a field of seven bits: a number is cut to
/// seven bits when it is written, and neither the number nor the bit above
/// it is changed when the other is written.
pub proof fn connector_number_keeps_seven_bits(byte: u32, number: u8, on: bool)
    ensures
        bits::field(
            bits::with_field(byte, CONNECTOR_NUMBER_LSB, CONNECTOR_NUMBER_WIDTH, number as u32),
            CONNECTOR_NUMBER_LSB,
            CONNECTOR_NUMBER_WIDTH,
        ) == number % 128,
        bits::flag(
            bits::with_field(byte, CONNECTOR_NUMBER_LSB, CONNECTOR_NUMBER_WIDTH, number as u32),
            CONNECTOR_HIGH_BIT,
        ) == bits::flag(byte, CONNECTOR_HIGH_BIT),
        bits::field(
            bits::with_flag(byte, CONNECTOR_HIGH_BIT, on),
            CONNECTOR_NUMBER_LSB,
            CONNECTOR_NUMBER_WIDTH,
        ) == bits::field(byte, CONNECTOR_NUMBER_LSB, CONNECTOR_NUMBER_WIDTH),
{
    let wide = number as u32;
    let written = bits::with_field(byte, CONNECTOR_NUMBER_LSB, CONNECTOR_NUMBER_WIDTH, wide);
    bits::field_after_with_field(byte, CONNECTOR_NUMBER_LSB, CONNECTOR_NUMBER_WIDTH, wide);
    bits::mask_values();
    assert(wide & 0x7f == wide % 128) by (bit_vector);
    bits::flag_is_field(byte, CONNECTOR_HIGH_BIT, on);
    bits::flag_is_field(written, CONNECTOR_HIGH_BIT, on);
    bits::field_apart_from_with_field(
        byte,
        CONNECTOR_NUMBER_LSB,
        CONNECTOR_NUMBER_WIDTH,
        wide,
        CONNECTOR_HIGH_BIT,
        1,
    );
    bits::field_apart_from_with_field(
        byte,
        CONNECTOR_HIGH_BIT,
        1,
        if on { 1u32 } else { 0u32 },
        CONNECTOR_NUMBER_LSB,
        CONNECTOR_NUMBER_WIDTH,
    );
}

/// Common recipient type used by multiple commands
#[derive(Copy, Clone, Debug, PartialEq, Eq)]
pub enum Recipient {
    /// Connector
    Connector,
    /// SOP
    Sop,
    /// SOP'
    SopP,
    /// SOP''
    SopPp,
}

impl Recipient {
    /// The number that stands for the recipient on the wire.
    pub open spec fn number(self) -> u8 {
        match self {
            Recipient::Connector => 0x0,
            Recipient::Sop => 0x1,
            Recipient::SopP => 0x2,
            Recipient::SopPp => 0x3,
        }
    }

    /// The recipient that a number stands for, if it stands for one.
    pub open spec fn of_number(value: u8) -> Option<Recipient> {
        match value {
            0x0 => Some(Recipient::Connector),
            0x1 => Some(Recipient::Sop),
            0x2 => Some(Recipient::SopP),
            0x3 => Some(Recipient::SopPp),
            _ => None,
        }
    }
}

/// Invalid recipient error, contains the invalid recipient value
#[derive(Copy, Clone, Debug, PartialEq, Eq)]
pub struct InvalidRecipient(pub u8);

impl TryFrom<u8> for Recipient {
    type Error = InvalidRecipient;

    fn try_from(value: u8) -> (recipient: Result<Self, InvalidRecipient>) {
        match value {
            0x0 => Ok(Recipient::Connector),
            0x1 => Ok(Recipient::Sop),
            0x2 => Ok(Recipient::SopP),
            0x3 => Ok(Recipient::SopPp),
            v => Err(InvalidRecipient(v)),
        }
    }
}

impl TryFromSpecImpl<u8> for Recipient {
    open spec fn obeys_try_from_spec() -> bool {
        true
    }

    open spec fn try_from_spec(value: u8) -> Result<Self, InvalidRecipient> {
        match Recipient::of_number(value) {
            Some(recipient) => Ok(recipient),
            None => Err(InvalidRecipient(value)),
        }
    }
}

impl From<Recipient> for u8 {
    fn from(value: Recipient) -> (number: u8) {
        match value {
            Recipient::Connector => 0x0,
            Recipient::Sop => 0x1,
            Recipient::SopP => 0x2,
            Recipient::SopPp => 0x3,
        }
    }
}

impl FromSpecImpl<Recipient> for u8 {
    open spec fn obeys_from_spec() -> bool {
        true
    }

    open spec fn from_spec(value: Recipient) -> u8 {
        value.number()
    }
}

} // verus!

verus! {

/// LPM command data
#[derive(Copy, Clone, Debug, PartialEq, Eq)]
pub enum CommandData {
    /// CONNECTOR_RESET
    ConnectorReset,
    /// GET_CONNECTOR_STATUS
    GetConnectorStatus,
    /// GET_CONNECTOR_CAPABILITY
    GetConnectorCapability,
    /// SET_POWER_LEVEL
    SetPowerLevel(set_power_level::Args),
    /// SET_NEW_CAM
    SetNewCam(set_new_cam::Args),
    /// GET_ERROR_STATUS
    GetErrorStatus,
    /// SET_CCOM
    SetCcom(set_ccom::Args),
    /// SET_UOR
    SetUor(set_uor::Args),
    /// SET_PDR
    SetPdr(set_pdr::Args),
    /// GET_ALTERNATE_MODES
    GetAlternateModes(get_alternate_modes::Args),
    /// GET_CAM_SUPPORTED
    GetCamSupported,
    /// GET_CURRENT_CAM
    GetCurrentCam,
    /// GET_PDOS
    GetPdos(get_pdos::Args),
    /// GET_CABLE_PROPERTY
    GetCableProperty,
}

impl CommandData {
    /// The type of the command.
    pub open spec fn kind(self) -> CommandType {
        match self {
            CommandData::ConnectorReset => CommandType::ConnectorReset,
            CommandData::GetConnectorStatus => CommandType::GetConnectorStatus,
            CommandData::GetConnectorCapability => CommandType::GetConnectorCapability,
            CommandData::SetPowerLevel(_) => CommandType::SetPowerLevel,
            CommandData::SetNewCam(_) => CommandType::SetNewCam,
            CommandData::GetErrorStatus => CommandType::GetErrorStatus,
            CommandData::SetCcom(_) => CommandType::SetCcom,
            CommandData::SetUor(_) => CommandType::SetUor,
            CommandData::SetPdr(_) => CommandType::SetPdr,
            CommandData::GetAlternateModes(_) => CommandType::GetAlternateModes,
            CommandData::GetCamSupported => CommandType::GetCamSupported,
            CommandData::GetCurrentCam => CommandType::GetCurrentCam,
            CommandData::GetPdos(_) => CommandType::GetPdos,
            CommandData::GetCableProperty => CommandType::GetCableProperty,
        }
    }

    /// The connector number that the command's arguments carry, for the
    /// commands whose arguments carry one.
    pub open spec fn carried_connector(self) -> Option<u8> {
        match self {
            CommandData::SetPowerLevel(args) => Some(
                args.field(
                    set_power_level::CONNECTOR_NUMBER_LSB,
                    set_power_level::CONNECTOR_NUMBER_WIDTH,
                ) as u8,
            ),
            CommandData::SetNewCam(args) => Some(args.connector_number),
            CommandData::SetCcom(args) => Some(
                bits::field(args.0 as u32, CONNECTOR_NUMBER_LSB, CONNECTOR_NUMBER_WIDTH) as u8,
            ),
            CommandData::SetUor(args) => Some(
                bits::field(args.0 as u32, CONNECTOR_NUMBER_LSB, CONNECTOR_NUMBER_WIDTH) as u8,
            ),
            CommandData::SetPdr(args) => Some(
                bits::field(args.0 as u32, CONNECTOR_NUMBER_LSB, CONNECTOR_NUMBER_WIDTH) as u8,
            ),
            CommandData::GetAlternateModes(args) => Some(
                bits::field(
                    args@,
                    get_alternate_modes::CONNECTOR_NUMBER_LSB,
                    get_alternate_modes::CONNECTOR_NUMBER_WIDTH,
                ) as u8,
            ),
            CommandData::GetPdos(args) => Some(
                bits::field(
                    args@,
                    get_pdos::CONNECTOR_NUMBER_LSB,
                    get_pdos::CONNECTOR_NUMBER_WIDTH,
                ) as u8,
            ),
            _ => None,
        }
    }

    /// Whether the arguments, if there are any, are valid arguments that
    /// keep their values on the wire.
    pub open spec fn fits(self) -> bool {
        match self {
            CommandData::SetPowerLevel(args) => args.valid(),
            CommandData::SetNewCam(args) => args.fits(),
            CommandData::GetAlternateModes(args) => args.valid(),
            CommandData::GetPdos(args) => args.valid(),
            _ => true,
        }
    }

    /// The command's arguments on the wire, for the commands that have any.
    pub open spec fn arguments(self) -> Option<Seq<u8>> {
        match self {
            CommandData::SetPowerLevel(args) => Some(args.encoding()),
            CommandData::SetNewCam(args) => Some(args.encoding()),
            CommandData::SetCcom(args) => Some(args.encoding()),
            CommandData::SetUor(args) => Some(args.encoding()),
            CommandData::SetPdr(args) => Some(args.encoding()),
            CommandData::GetAlternateModes(args) => Some(args.encoding()),
            CommandData::GetPdos(args) => Some(args.encoding()),
            _ => None,
        }
    }

    /// The command without arguments of a command type, for the types of
    /// such commands.
    pub open spec fn without_arguments(kind: CommandType) -> Option<CommandData> {
        match kind {
            CommandType::ConnectorReset => Some(CommandData::ConnectorReset),
            CommandType::GetConnectorStatus => Some(CommandData::GetConnectorStatus),
            CommandType::GetConnectorCapability => Some(CommandData::GetConnectorCapability),
            CommandType::GetErrorStatus => Some(CommandData::GetErrorStatus),
            CommandType::GetCamSupported => Some(CommandData::GetCamSupported),
            CommandType::GetCurrentCam => Some(CommandData::GetCurrentCam),
            CommandType::GetCableProperty => Some(CommandData::GetCableProperty),
            _ => None,
        }
    }

    /// What decoding the arguments of a command of type `kind` from the head
    /// of `bytes` yields, for the types of commands with arguments.
    pub open spec fn decoding_arguments(kind: CommandType, bytes: Seq<u8>) -> Option<
        Result<(CommandData, usize), DecodeError>,
    > {
        match kind {
            CommandType::SetPowerLevel => Some(
                match set_power_level::Args::decoding(bytes) {
                    Ok((args, taken)) => Ok((CommandData::SetPowerLevel(args), taken)),
                    Err(error) => Err(error),
                },
            ),
            CommandType::SetNewCam => Some(
                match set_new_cam::Args::decoding(bytes) {
                    Ok((args, taken)) => Ok((CommandData::SetNewCam(args), taken)),
                    Err(error) => Err(error),
                },
            ),
            CommandType::SetCcom => Some(
                match set_ccom::Args::decoding(bytes) {
                    Ok((args, taken)) => Ok((CommandData::SetCcom(args), taken)),
                    Err(error) => Err(error),
                },
            ),
            CommandType::SetUor => Some(
                match set_uor::Args::decoding(bytes) {
                    Ok((args, taken)) => Ok((CommandData::SetUor(args), taken)),
                    Err(error) => Err(error),
                },
            ),
            CommandType::SetPdr => Some(
                match set_pdr::Args::decoding(bytes) {
                    Ok((args, taken)) => Ok((CommandData::SetPdr(args), taken)),
                    Err(error) => Err(error),
                },
            ),
            CommandType::GetAlternateModes => Some(
                match get_alternate_modes::Args::decoding(bytes) {
                    Ok((args, taken)) => Ok((CommandData::GetAlternateModes(args), taken)),
                    Err(error) => Err(error),
                },
            ),
            CommandType::GetPdos => Some(
                match get_pdos::Args::decoding(bytes) {
                    Ok((args, taken)) => Ok((CommandData::GetPdos(args), taken)),
                    Err(error) => Err(error),
                },
            ),
            _ => None,
        }
    }

    /// The command with the connector number in its arguments, if they
    /// carry one, set to the low seven bits of `number`.
    pub open spec fn with_connector(self, number: u8) -> CommandData {
        match self {
            CommandData::SetPowerLevel(args) => CommandData::SetPowerLevel(
                args.rewritten(
                    set_power_level::CONNECTOR_NUMBER_LSB,
                    set_power_level::CONNECTOR_NUMBER_WIDTH,
                    number as nat,
                ),
            ),
            CommandData::SetNewCam(args) => CommandData::SetNewCam(
                set_new_cam::Args { connector_number: number, ..args },
            ),
            CommandData::SetCcom(args) => CommandData::SetCcom(
                set_ccom::Args(
                    bits::with_field(
                        args.0 as u32,
                        CONNECTOR_NUMBER_LSB,
                        CONNECTOR_NUMBER_WIDTH,
                        number as u32,
                    ) as u16,
                ),
            ),
            CommandData::SetUor(args) => CommandData::SetUor(
                set_uor::Args(
                    bits::with_field(
                        args.0 as u32,
                        CONNECTOR_NUMBER_LSB,
                        CONNECTOR_NUMBER_WIDTH,
                        number as u32,
                    ) as u16,
                ),
            ),
            CommandData::SetPdr(args) => CommandData::SetPdr(
                set_pdr::Args(
                    bits::with_field(
                        args.0 as u32,
                        CONNECTOR_NUMBER_LSB,
                        CONNECTOR_NUMBER_WIDTH,
                        number as u32,
                    ) as u16,
                ),
            ),
            CommandData::GetAlternateModes(args) => CommandData::GetAlternateModes(
                get_alternate_modes::Args::of_word(
                    bits::with_field(
                        args@,
                        get_alternate_modes::CONNECTOR_NUMBER_LSB,
                        get_alternate_modes::CONNECTOR_NUMBER_WIDTH,
                        number as u32,
                    ),
                ),
            ),
            CommandData::GetPdos(args) => CommandData::GetPdos(
                get_pdos::Args::of_word(
                    bits::with_field(
                        args@,
                        get_pdos::CONNECTOR_NUMBER_LSB,
                        get_pdos::CONNECTOR_NUMBER_WIDTH,
                        number as u32,
                    ),
                ),
            ),
            other => other,
        }
    }

    /// Returns the command type for this command
    pub fn command_type(&self) -> (kind: CommandType)
        ensures
            kind == self.kind(),
    {
        match self {
            CommandData::ConnectorReset => CommandType::ConnectorReset,
            CommandData::GetConnectorStatus => CommandType::GetConnectorStatus,
            CommandData::GetConnectorCapability => CommandType::GetConnectorCapability,
            CommandData::SetPowerLevel(_) => CommandType::SetPowerLevel,
            CommandData::SetNewCam(_) => CommandType::SetNewCam,
            CommandData::GetErrorStatus => CommandType::GetErrorStatus,
            CommandData::SetCcom(_) => CommandType::SetCcom,
            CommandData::SetUor(_) => CommandType::SetUor,
            CommandData::SetPdr(_) => CommandType::SetPdr,
            CommandData::GetAlternateModes(_) => CommandType::GetAlternateModes,
            CommandData::GetCamSupported => CommandType::GetCamSupported,
            CommandData::GetCurrentCam => CommandType::GetCurrentCam,
            CommandData::GetPdos(_) => CommandType::GetPdos,
            CommandData::GetCableProperty => CommandType::GetCableProperty,
        }
    }
}

/// LPM commands: a connector and what to do with it
#[derive(Copy, Clone, Debug, PartialEq, Eq)]
pub struct Command<T: PortId> {
    /// The connector that the command is for
    pub port: T,
    /// What the command asks for
    pub operation: CommandData,
}

impl<T: PortId> Command<T> {
    /// Creates the command that asks `operation` of `port`
    pub fn new(port: T, operation: CommandData) -> (command: Self)
        ensures
            command == (Command { port, operation }),
    {
        Command { port, operation }
    }

    /// Returns the connector that the command is for
    pub fn port(&self) -> (port: T)
        ensures
            port == self.port,
    {
        self.port
    }

    /// Sets the connector that the command is for, also in the arguments of
    /// the commands whose arguments carry its number
    pub fn set_port(&mut self, port: T) -> (this: &mut Self)
        ensures
            this.port == port,
            this.operation == old(self).operation.with_connector(port.into_spec()),
            *final(this) == *final(self),
    {
        proof {
            T::conversions_agree();
        }
        let number: u8 = port.into();
        self.port = port;
        let operation = match self.operation {
            CommandData::SetPowerLevel(args) => {
                let mut args = args;
                let ghost before = args;
                args.set_connector_number(number);
                proof {
                    let after = before.rewritten(
                        set_power_level::CONNECTOR_NUMBER_LSB,
                        set_power_level::CONNECTOR_NUMBER_WIDTH,
                        number as nat,
                    );
                    set_power_level::Args::bytes_of_rewritten(
                        before,
                        set_power_level::CONNECTOR_NUMBER_LSB,
                        set_power_level::CONNECTOR_NUMBER_WIDTH,
                        number as nat,
                    );
                    set_power_level::Args::same_bytes_same_args(after, args);
                }
                CommandData::SetPowerLevel(args)
            },
            CommandData::SetNewCam(args) => CommandData::SetNewCam(
                set_new_cam::Args { connector_number: number, ..args },
            ),
            CommandData::SetCcom(args) => {
                let mut args = args;
                args.set_connector_number(number);
                CommandData::SetCcom(args)
            },
            CommandData::SetUor(args) => {
                let mut args = args;
                args.set_connector_number(number);
                CommandData::SetUor(args)
            },
            CommandData::SetPdr(args) => {
                let mut args = args;
                args.set_connector_number(number);
                CommandData::SetPdr(args)
            },
            CommandData::GetAlternateModes(args) => {
                let mut args = args;
                args.set_connector_number(number);
                proof {
                    get_alternate_modes::Args::word_of_args(args, args@);
                }
                CommandData::GetAlternateModes(args)
            },
            CommandData::GetPdos(args) => {
                let mut args = args;
                args.set_connector_number(number);
                proof {
                    get_pdos::Args::word_of_args(args, args@);
                }
                CommandData::GetPdos(args)
            },
            other => other,
        };
        self.operation = operation;
        self
    }

    /// Returns what the command asks for
    pub fn operation(&self) -> (operation: CommandData)
        ensures
            operation == self.operation,
    {
        self.operation
    }

    /// Sets what the command asks for
    pub fn set_operation(&mut self, operation: CommandData) -> (this: &mut Self)
        ensures
            *this == (Command { port: old(self).port, operation }),
            *final(this) == *final(self),
    {
        self.operation = operation;
        self
    }

    /// Returns the command type for this command
    pub fn command_type(&self) -> (kind: CommandType)
        ensures
            kind == self.operation.kind(),
    {
        self.operation.command_type()
    }

    /// The command on the wire, eight bytes: the header, then either the
    /// command's arguments, which carry the connector number, or the
    /// connector's number in a byte of its own and padding.
    pub open spec fn encoding(self) -> Seq<u8> {
        (CommandHeader { command: self.operation.kind(), data_len: 0 }).encoding() + (
        match self.operation.arguments() {
            Some(arguments) => arguments,
            None => seq![self.port.into_spec()] + wire::zeros(CONNECTOR_PADDING as nat),
        })
    }

    /// What decoding what follows the header from the head of `bytes`
    /// yields, for a header that names `kind`.
    ///
    /// The connector is the one of the number that the arguments carry, or
    /// of the low seven bits of the byte that leads a command without
    /// arguments.
    pub open spec fn decoding_with(kind: CommandType, bytes: Seq<u8>) -> Result<
        (Command<T>, usize),
        DecodeError,
    > {
        match CommandData::decoding_arguments(kind, bytes) {
            Some(Ok((operation, taken))) => Ok(
                (
                    Command {
                        port: T::from_spec(operation.carried_connector()->0),
                        operation,
                    },
                    taken,
                ),
            ),
            Some(Err(error)) => Err(error),
            None => match CommandData::without_arguments(kind) {
                Some(operation) => match wire::reading_u8(bytes) {
                    Err(error) => Err(error),
                    Ok((byte, taken)) => match wire::reading_bytes(
                        bytes.skip(taken as int),
                        CONNECTOR_PADDING,
                    ) {
                        Err(error) => Err(error),
                        Ok((_, padding)) => Ok(
                            (
                                Command {
                                    port: T::from_spec(
                                        bits::field(
                                            byte as u32,
                                            CONNECTOR_NUMBER_LSB,
                                            CONNECTOR_NUMBER_WIDTH,
                                        ) as u8,
                                    ),
                                    operation,
                                },
                                (taken + padding) as usize,
                            ),
                        ),
                    },
                },
                None => Err(
                    DecodeError::UnexpectedVariant {
                        allowed: Allowed::LpmCommand,
                        found: kind.opcode() as u32,
                    },
                ),
            },
        }
    }

    /// What decoding a command, header first, from the head of `bytes` yields.
    pub open spec fn decoding(bytes: Seq<u8>) -> Result<(Command<T>, usize), DecodeError> {
        match CommandHeader::decoding(bytes) {
            Err(error) => Err(error),
            Ok((header, taken)) => match Command::<T>::decoding_with(
                header.command,
                bytes.skip(taken as int),
            ) {
                Err(error) => Err(error),
                Ok((command, more)) => Ok((command, (taken + more) as usize)),
            },
        }
    }

    /// Whether the command keeps its values on the wire: its arguments fit,
    /// and its connector is the one whose number the arguments carry or, for
    /// a command without arguments, has a number of at most seven bits.
    pub open spec fn fits(self) -> bool {
        &&& self.operation.fits()
        &&& match self.operation.carried_connector() {
            Some(number) => self.port.into_spec() == number,
            None => self.port.into_spec() < 128,
        }
    }

    /// What follows the header of a command that fits decodes to the
    /// command, whatever follows it.
    pub proof fn decoding_with_of_encoding(command: Command<T>, tail: Seq<u8>)
        requires
            command.fits(),
        ensures
            Command::<T>::decoding_with(
                command.operation.kind(),
                command.encoding().skip(HEADER_LEN as int) + tail,
            ) == Ok::<(Command<T>, usize), DecodeError>(
                (command, (COMMAND_LEN - HEADER_LEN) as usize),
            ),
            command.encoding().len() == COMMAND_LEN,
    {
        T::conversions_agree();
        let header = CommandHeader { command: command.operation.kind(), data_len: 0 };
        let rest = command.encoding().skip(HEADER_LEN as int);
        match command.operation {
            CommandData::SetPowerLevel(args) => {
                assert(rest =~= args.encoding());
                set_power_level::Args::decoding_of_encoding(args, tail);
            },
            CommandData::SetNewCam(args) => {
                assert(rest =~= args.encoding());
                set_new_cam::Args::decoding_of_encoding(args, tail);
            },
            CommandData::SetCcom(args) => {
                assert(rest =~= args.encoding());
                set_ccom::Args::decoding_of_encoding(args, tail);
            },
            CommandData::SetUor(args) => {
                assert(rest =~= args.encoding());
                set_uor::Args::decoding_of_encoding(args, tail);
            },
            CommandData::SetPdr(args) => {
                assert(rest =~= args.encoding());
                set_pdr::Args::decoding_of_encoding(args, tail);
            },
            CommandData::GetAlternateModes(args) => {
                assert(rest =~= args.encoding());
                get_alternate_modes::Args::decoding_of_encoding(args, tail);
            },
            CommandData::GetPdos(args) => {
                assert(rest =~= args.encoding());
                get_pdos::Args::decoding_of_encoding(args, tail);
            },
            _ => {
                let number = command.port.into_spec();
                assert(rest =~= seq![number] + wire::zeros(CONNECTOR_PADDING as nat));
                assert((rest + tail).skip(1) =~= wire::zeros(CONNECTOR_PADDING as nat) + tail);
                bits::mask_values();
                bits::low_field_of_small(number as u32, CONNECTOR_NUMBER_WIDTH);
            },
        }
    }

    /// A command that fits decodes from its encoding, whatever follows it.
    pub proof fn decoding_of_encoding(command: Command<T>, tail: Seq<u8>)
        requires
            command.fits(),
        ensures
            Command::<T>::decoding(command.encoding() + tail) == Ok::<
                (Command<T>, usize),
                DecodeError,
            >((command, COMMAND_LEN)),
    {
        let header = CommandHeader { command: command.operation.kind(), data_len: 0 };
        let rest = command.encoding().skip(HEADER_LEN as int);
        Command::decoding_with_of_encoding(command, tail);
        assert(command.encoding() + tail =~= header.encoding() + (rest + tail));
        CommandHeader::decoding_of_encoding(header, rest + tail);
    }

    /// Appends the command's eight bytes: the header, then what follows it.
    pub fn encode(&self, out: &mut Vec<u8>)
        ensures
            final(out)@ == old(out)@ + self.encoding(),
    {
        proof {
            T::conversions_agree();
        }
        CommandHeader::new(self.command_type(), 0).encode(out);
        let raw_port: u8 = self.port.into();
        match self.operation {
            CommandData::SetPowerLevel(args) => args.encode(out),
            CommandData::SetNewCam(args) => args.encode(out),
            CommandData::SetCcom(args) => args.encode(out),
            CommandData::SetUor(args) => args.encode(out),
            CommandData::SetPdr(args) => args.encode(out),
            CommandData::GetAlternateModes(args) => args.encode(out),
            CommandData::GetPdos(args) => args.encode(out),
            _ => {
                wire::write_u8(out, raw_port);
                wire::write_padding(out, CONNECTOR_PADDING);
            },
        }
        assert(out@ =~= old(out)@ + self.encoding());
    }

    /// Decodes what follows the header of a command, given the header.
    ///
    /// Fails with `UnexpectedVariant` if the header names a command that is
    /// not for an LPM, or if the arguments hold a value that their type
    /// does not admit; with `UnexpectedEnd` if bytes are missing.
    pub fn decode_with(header: CommandHeader, bytes: &[u8]) -> (decoded: Result<
        (Self, usize),
        DecodeError,
    >)
        ensures
            decoded == Command::<T>::decoding_with(header.command, bytes@),
    {
        proof {
            T::conversions_agree();
        }
        let kind = header.command();
        let operation = match kind {
            CommandType::ConnectorReset => CommandData::ConnectorReset,
            CommandType::GetConnectorStatus => CommandData::GetConnectorStatus,
            CommandType::GetConnectorCapability => CommandData::GetConnectorCapability,
            CommandType::GetErrorStatus => CommandData::GetErrorStatus,
            CommandType::GetCamSupported => CommandData::GetCamSupported,
            CommandType::GetCurrentCam => CommandData::GetCurrentCam,
            CommandType::GetCableProperty => CommandData::GetCableProperty,
            CommandType::SetPowerLevel => {
                let (args, taken) = set_power_level::Args::decode(bytes)?;
                let port = T::from(args.connector_number());
                return Ok((Command { port, operation: CommandData::SetPowerLevel(args) }, taken));
            },
            CommandType::SetNewCam => {
                let (args, taken) = set_new_cam::Args::decode(bytes)?;
                let port = T::from(args.connector_number);
                return Ok((Command { port, operation: CommandData::SetNewCam(args) }, taken));
            },
            CommandType::SetCcom => {
                let (args, taken) = set_ccom::Args::decode(bytes)?;
                let port = T::from(args.connector_number());
                return Ok((Command { port, operation: CommandData::SetCcom(args) }, taken));
            },
            CommandType::SetUor => {
                let (args, taken) = set_uor::Args::decode(bytes)?;
                let port = T::from(args.connector_number());
                return Ok((Command { port, operation: CommandData::SetUor(args) }, taken));
            },
            CommandType::SetPdr => {
                let (args, taken) = set_pdr::Args::decode(bytes)?;
                let port = T::from(args.connector_number());
                return Ok((Command { port, operation: CommandData::SetPdr(args) }, taken));
            },
            CommandType::GetAlternateModes => {
                let (args, taken) = get_alternate_modes::Args::decode(bytes)?;
                let port = T::from(args.connector_number());
                return Ok(
                    (Command { port, operation: CommandData::GetAlternateModes(args) }, taken),
                );
            },
            CommandType::GetPdos => {
                let (args, taken) = get_pdos::Args::decode(bytes)?;
                let port = T::from(args.connector_number());
                return Ok((Command { port, operation: CommandData::GetPdos(args) }, taken));
            },
            _ => {
                return Err(
                    DecodeError::UnexpectedVariant {
                        allowed: Allowed::LpmCommand,
                        found: u8::from(kind) as u32,
                    },
                );
            },
        };
        let (byte, taken) = wire::read_u8(bytes)?;
        let padding = wire::read_padding(wire::rest(bytes, taken), CONNECTOR_PADDING)?;
        let number = bits::get_field_u8(byte as u32, CONNECTOR_NUMBER_LSB, CONNECTOR_NUMBER_WIDTH);
        Ok((Command { port: T::from(number), operation }, taken + padding))
    }

    /// Decodes a command, header first.
    pub fn decode(bytes: &[u8]) -> (decoded: Result<(Self, usize), DecodeError>)
        ensures
            decoded == Command::<T>::decoding(bytes@),
    {
        let (header, taken) = CommandHeader::decode(bytes)?;
        let (command, more) = Command::decode_with(header, wire::rest(bytes, taken))?;
        Ok((command, taken + more))
    }
}

/// An LPM command for a port of all controllers.
pub type GlobalCommand = Command<GlobalPortId>;

/// An LPM command for a port of one controller.
pub type LocalCommand = Command<LocalPortId>;

} // verus!

verus! {

/// LPM response data
#[derive(Copy, Clone, Debug, PartialEq, Eq)]
pub enum ResponseData {
    /// CONNECTOR_RESET has no response data
    ConnectorReset,
    /// Response data of GetConnectorStatus
    GetConnectorStatus(get_connector_status::ResponseData),
    /// Response data of GetConnectorCapability
    GetConnectorCapability(get_connector_capability::ResponseData),
    /// Response data of GetErrorStatus
    GetErrorStatus(get_error_status::ResponseData),
    /// Response data of GetAlternateModes
    GetAlternateModes(get_alternate_modes::ResponseData),
    /// Response data of GetCamSupported
    GetCamSupported(get_cam_supported::ResponseData),
    /// Response data of GetCurrentCam
    GetCurrentCam(get_current_cam::ResponseData),
    /// Response data of GetPdos
    GetPdos(get_pdos::ResponseData),
    /// Response data of GetCableProperty
    GetCableProperty(get_cable_property::ResponseData),
}

impl ResponseData {
    /// The type of the command that the data responds to.
    pub open spec fn kind(self) -> CommandType {
        match self {
            ResponseData::ConnectorReset => CommandType::ConnectorReset,
            ResponseData::GetConnectorStatus(_) => CommandType::GetConnectorStatus,
            ResponseData::GetConnectorCapability(_) => CommandType::GetConnectorCapability,
            ResponseData::GetErrorStatus(_) => CommandType::GetErrorStatus,
            ResponseData::GetAlternateModes(_) => CommandType::GetAlternateModes,
            ResponseData::GetCamSupported(_) => CommandType::GetCamSupported,
            ResponseData::GetCurrentCam(_) => CommandType::GetCurrentCam,
            ResponseData::GetPdos(_) => CommandType::GetPdos,
            ResponseData::GetCableProperty(_) => CommandType::GetCableProperty,
        }
    }

    /// The response data on the wire; nothing for CONNECTOR_RESET.
    pub open spec fn encoding(self) -> Seq<u8> {
        match self {
            ResponseData::ConnectorReset => Seq::<u8>::empty(),
            ResponseData::GetConnectorStatus(data) => data.encoding(),
            ResponseData::GetConnectorCapability(data) => data.encoding(),
            ResponseData::GetErrorStatus(data) => data.encoding(),
            ResponseData::GetAlternateModes(data) => data.encoding(),
            ResponseData::GetCamSupported(data) => data.encoding(),
            ResponseData::GetCurrentCam(data) => data.encoding(),
            ResponseData::GetPdos(data) => data.encoding(),
            ResponseData::GetCableProperty(data) => data.encoding(),
        }
    }

    /// What decoding the data that responds to a command of type `kind`
    /// from the head of `bytes` yields.
    pub open spec fn decoding_with(kind: CommandType, bytes: Seq<u8>) -> Result<
        (ResponseData, usize),
        DecodeError,
    > {
        match kind {
            CommandType::ConnectorReset => Ok((ResponseData::ConnectorReset, 0usize)),
            CommandType::GetConnectorStatus => match get_connector_status::ResponseData::decoding(
                bytes,
            ) {
                Ok((data, taken)) => Ok((ResponseData::GetConnectorStatus(data), taken)),
                Err(error) => Err(error),
            },
            CommandType::GetConnectorCapability => match get_connector_capability::ResponseData::decoding(
                bytes,
            ) {
                Ok((data, taken)) => Ok((ResponseData::GetConnectorCapability(data), taken)),
                Err(error) => Err(error),
            },
            CommandType::GetErrorStatus => match get_error_status::ResponseData::decoding(bytes) {
                Ok((data, taken)) => Ok((ResponseData::GetErrorStatus(data), taken)),
                Err(error) => Err(error),
            },
            CommandType::GetAlternateModes => match get_alternate_modes::ResponseData::decoding(
                bytes,
            ) {
                Ok((data, taken)) => Ok((ResponseData::GetAlternateModes(data), taken)),
                Err(error) => Err(error),
            },
            CommandType::GetCamSupported => match get_cam_supported::ResponseData::decoding(bytes) {
                Ok((data, taken)) => Ok((ResponseData::GetCamSupported(data), taken)),
                Err(error) => Err(error),
            },
            CommandType::GetCurrentCam => match get_current_cam::ResponseData::decoding(bytes) {
                Ok((data, taken)) => Ok((ResponseData::GetCurrentCam(data), taken)),
                Err(error) => Err(error),
            },
            CommandType::GetPdos => match get_pdos::ResponseData::decoding(bytes) {
                Ok((data, taken)) => Ok((ResponseData::GetPdos(data), taken)),
                Err(error) => Err(error),
            },
            CommandType::GetCableProperty => match get_cable_property::ResponseData::decoding(
                bytes,
            ) {
                Ok((data, taken)) => Ok((ResponseData::GetCableProperty(data), taken)),
                Err(error) => Err(error),
            },
            _ => Err(
                DecodeError::UnexpectedVariant {
                    allowed: Allowed::LpmResponse,
                    found: kind.opcode() as u32,
                },
            ),
        }
    }

    /// Whether the data keeps its values on the wire, and is as long
    /// there as the decoder reads: all four PDOs of GET_PDOS are present.
    pub open spec fn fits(self) -> bool {
        match self {
            ResponseData::ConnectorReset => true,
            ResponseData::GetConnectorStatus(data) => data.fits(),
            ResponseData::GetConnectorCapability(_) => true,
            ResponseData::GetErrorStatus(_) => true,
            ResponseData::GetAlternateModes(_) => true,
            ResponseData::GetCamSupported(_) => true,
            ResponseData::GetCurrentCam(_) => true,
            ResponseData::GetPdos(data) => data.count() == get_pdos::MAX_PDOS,
            ResponseData::GetCableProperty(data) => data.fits(),
        }
    }

    /// Returns the type of the command that the data responds to
    pub fn command_type(&self) -> (kind: CommandType)
        ensures
            kind == self.kind(),
    {
        match self {
            ResponseData::ConnectorReset => CommandType::ConnectorReset,
            ResponseData::GetConnectorStatus(_) => CommandType::GetConnectorStatus,
            ResponseData::GetConnectorCapability(_) => CommandType::GetConnectorCapability,
            ResponseData::GetErrorStatus(_) => CommandType::GetErrorStatus,
            ResponseData::GetAlternateModes(_) => CommandType::GetAlternateModes,
            ResponseData::GetCamSupported(_) => CommandType::GetCamSupported,
            ResponseData::GetCurrentCam(_) => CommandType::GetCurrentCam,
            ResponseData::GetPdos(_) => CommandType::GetPdos,
            ResponseData::GetCableProperty(_) => CommandType::GetCableProperty,
        }
    }

    /// Appends the response data; nothing for CONNECTOR_RESET.
    pub fn encode(&self, out: &mut Vec<u8>)
        ensures
            final(out)@ == old(out)@ + self.encoding(),
    {
        match self {
            ResponseData::ConnectorReset => {
                assert(out@ =~= old(out)@ + self.encoding());
            },
            ResponseData::GetConnectorStatus(data) => data.encode(out),
            ResponseData::GetConnectorCapability(data) => data.encode(out),
            ResponseData::GetErrorStatus(data) => data.encode(out),
            ResponseData::GetAlternateModes(data) => data.encode(out),
            ResponseData::GetCamSupported(data) => data.encode(out),
            ResponseData::GetCurrentCam(data) => data.encode(out),
            ResponseData::GetPdos(data) => data.encode(out),
            ResponseData::GetCableProperty(data) => data.encode(out),
        }
    }

    /// Decodes the data that responds to a command of type `command_type`.
    ///
    /// Fails with `UnexpectedVariant` if no LPM command of that type has
    /// response data.
    pub fn decode_with(command_type: CommandType, bytes: &[u8]) -> (decoded: Result<
        (Self, usize),
        DecodeError,
    >)
        ensures
            decoded == ResponseData::decoding_with(command_type, bytes@),
    {
        match command_type {
            CommandType::ConnectorReset => Ok((ResponseData::ConnectorReset, 0)),
            CommandType::GetConnectorStatus => {
                let (data, taken) = get_connector_status::ResponseData::decode(bytes)?;
                Ok((ResponseData::GetConnectorStatus(data), taken))
            },
            CommandType::GetConnectorCapability => {
                let (data, taken) = get_connector_capability::ResponseData::decode(bytes)?;
                Ok((ResponseData::GetConnectorCapability(data), taken))
            },
            CommandType::GetErrorStatus => {
                let (data, taken) = get_error_status::ResponseData::decode(bytes)?;
                Ok((ResponseData::GetErrorStatus(data), taken))
            },
            CommandType::GetAlternateModes => {
                let (data, taken) = get_alternate_modes::ResponseData::decode(bytes)?;
                Ok((ResponseData::GetAlternateModes(data), taken))
            },
            CommandType::GetCamSupported => {
                let (data, taken) = get_cam_supported::ResponseData::decode(bytes)?;
                Ok((ResponseData::GetCamSupported(data), taken))
            },
            CommandType::GetCurrentCam => {
                let (data, taken) = get_current_cam::ResponseData::decode(bytes)?;
                Ok((ResponseData::GetCurrentCam(data), taken))
            },
            CommandType::GetPdos => {
                let (data, taken) = get_pdos::ResponseData::decode(bytes)?;
                Ok((ResponseData::GetPdos(data), taken))
            },
            CommandType::GetCableProperty => {
                let (data, taken) = get_cable_property::ResponseData::decode(bytes)?;
                Ok((ResponseData::GetCableProperty(data), taken))
            },
            _ => Err(
                DecodeError::UnexpectedVariant {
                    allowed: Allowed::LpmResponse,
                    found: u8::from(command_type) as u32,
                },
            ),
        }
    }

    /// Response data that fits decodes from its encoding, whatever follows
    /// it, when the decoder is told the type of the command.
    pub proof fn decoding_of_encoding(response: ResponseData, tail: Seq<u8>)
        requires
            response.fits(),
        ensures
            ResponseData::decoding_with(response.kind(), response.encoding() + tail) == Ok::<
                (ResponseData, usize),
                DecodeError,
            >((response, response.encoding().len() as usize)),
            response.encoding().len() <= 19,
    {
        match response {
            ResponseData::ConnectorReset => {},
            ResponseData::GetConnectorStatus(data) => {
                get_connector_status::ResponseData::decoding_of_encoding(data, tail);
            },
            ResponseData::GetConnectorCapability(data) => {
                get_connector_capability::ResponseData::decoding_of_encoding(data, tail);
            },
            ResponseData::GetErrorStatus(data) => {
                get_error_status::ResponseData::decoding_of_encoding(data, tail);
            },
            ResponseData::GetAlternateModes(data) => {
                get_alternate_modes::ResponseData::decoding_of_encoding(data, tail);
            },
            ResponseData::GetCamSupported(data) => {
                get_cam_supported::ResponseData::decoding_of_encoding(data, tail);
            },
            ResponseData::GetCurrentCam(data) => {
                get_current_cam::ResponseData::decoding_of_encoding(data, tail);
            },
            ResponseData::GetPdos(data) => {
                get_pdos::ResponseData::decoding_of_encoding(data, tail);
            },
            ResponseData::GetCableProperty(data) => {
                get_cable_property::ResponseData::decoding_of_encoding(data, tail);
            },
        }
    }
}

/// LPM command response
#[derive(Copy, Clone, Debug)]
pub struct Response<T: PortId> {
    /// CCI is produced by every command
    pub cci: cci::Cci<T>,
    /// Response data for the command
    pub data: Option<ResponseData>,
}

/// An LPM response that reports ports of all controllers.
pub type GlobalResponse = Response<GlobalPortId>;

/// An LPM response that reports ports of one controller.
pub type LocalResponse = Response<LocalPortId>;

} // verus!
