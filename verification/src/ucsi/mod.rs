//! UCSI: the command and response interface between an OS policy manager and
//! a platform policy manager.
//!
//! A command is an eight-byte mailbox: a two-byte header, the opcode and a
//! data length, followed by six bytes whose layout depends on the opcode.
use crate::bits;
use crate::wire;
use crate::wire::Allowed;
use crate::wire::DecodeError;
use crate::wire::EncodeError;
use crate::GlobalPortId;
use crate::LocalPortId;
use crate::PortId;
use crate::PdError;
use vstd::prelude::*;
use vstd::std_specs::convert::FromSpecImpl;
use vstd::std_specs::convert::TryFromSpecImpl;

pub mod cci;
pub mod lpm;
pub mod ppm;

verus! {

/// Length of a command: 64 bits.
pub const COMMAND_LEN: usize = 8;

/// Length of the header that leads every command.
pub const HEADER_LEN: usize = 2;

/// UCSI opcodes.
#[derive(Debug, Copy, Clone, PartialEq, Eq)]
pub enum CommandType {
    /// Opcode 0x01
    PpmReset,
    /// Opcode 0x02
    Cancel,
    /// Opcode 0x03
    ConnectorReset,
    /// Opcode 0x04
    AckCcCi,
    /// Opcode 0x05
    SetNotificationEnable,
    /// Opcode 0x06
    GetCapability,
    /// Opcode 0x07
    GetConnectorCapability,
    /// Opcode 0x08
    SetCcom,
    /// Opcode 0x09
    SetUor,
    /// Opcode 0x0A
    SetPdm,
    /// Opcode 0x0B
    SetPdr,
    /// Opcode 0x0C
    GetAlternateModes,
    /// Opcode 0x0D
    GetCamSupported,
    /// Opcode 0x0E
    GetCurrentCam,
    /// Opcode 0x0F
    SetNewCam,
    /// Opcode 0x10
    GetPdos,
    /// Opcode 0x11
    GetCableProperty,
    /// Opcode 0x12
    GetConnectorStatus,
    /// Opcode 0x13
    GetErrorStatus,
    /// Opcode 0x14
    SetPowerLevel,
    /// Opcode 0x15
    GetPdMessage,
    /// Opcode 0x16
    GetAttentionVdo,
    /// Opcode 0x18
    GetCamCs,
    /// Opcode 0x19
    LpmFwUpdateRequest,
    /// Opcode 0x1A
    SecurityRequest,
    /// Opcode 0x1B
    SetRetimerMode,
    /// Opcode 0x1C
    SetSinkPath,
    /// Opcode 0x1D
    SetPdos,
    /// Opcode 0x1E
    ReadPowerLevel,
    /// Opcode 0x1F
    ChunkingSupport,
    /// Opcode 0x21
    SetUsb,
    /// Opcode 0x22
    GetLpmPpmInfo,
}

impl CommandType {
    /// The opcode that stands for this command on the wire.
    pub open spec fn opcode(self) -> u8 {
        match self {
            CommandType::PpmReset => 0x01,
            CommandType::Cancel => 0x02,
            CommandType::ConnectorReset => 0x03,
            CommandType::AckCcCi => 0x04,
            CommandType::SetNotificationEnable => 0x05,
            CommandType::GetCapability => 0x06,
            CommandType::GetConnectorCapability => 0x07,
            CommandType::SetCcom => 0x08,
            CommandType::SetUor => 0x09,
            CommandType::SetPdm => 0x0A,
            CommandType::SetPdr => 0x0B,
            CommandType::GetAlternateModes => 0x0C,
            CommandType::GetCamSupported => 0x0D,
            CommandType::GetCurrentCam => 0x0E,
            CommandType::SetNewCam => 0x0F,
            CommandType::GetPdos => 0x10,
            CommandType::GetCableProperty => 0x11,
            CommandType::GetConnectorStatus => 0x12,
            CommandType::GetErrorStatus => 0x13,
            CommandType::SetPowerLevel => 0x14,
            CommandType::GetPdMessage => 0x15,
            CommandType::GetAttentionVdo => 0x16,
            CommandType::GetCamCs => 0x18,
            CommandType::LpmFwUpdateRequest => 0x19,
            CommandType::SecurityRequest => 0x1A,
            CommandType::SetRetimerMode => 0x1B,
            CommandType::SetSinkPath => 0x1C,
            CommandType::SetPdos => 0x1D,
            CommandType::ReadPowerLevel => 0x1E,
            CommandType::ChunkingSupport => 0x1F,
            CommandType::SetUsb => 0x21,
            CommandType::GetLpmPpmInfo => 0x22,
        }
    }

    /// The command that an opcode stands for, if it stands for one.
    pub open spec fn of_opcode(value: u8) -> Option<CommandType> {
        match value {
            0x01 => Some(CommandType::PpmReset),
            0x02 => Some(CommandType::Cancel),
            0x03 => Some(CommandType::ConnectorReset),
            0x04 => Some(CommandType::AckCcCi),
            0x05 => Some(CommandType::SetNotificationEnable),
            0x06 => Some(CommandType::GetCapability),
            0x07 => Some(CommandType::GetConnectorCapability),
            0x08 => Some(CommandType::SetCcom),
            0x09 => Some(CommandType::SetUor),
            0x0A => Some(CommandType::SetPdm),
            0x0B => Some(CommandType::SetPdr),
            0x0C => Some(CommandType::GetAlternateModes),
            0x0D => Some(CommandType::GetCamSupported),
            0x0E => Some(CommandType::GetCurrentCam),
            0x0F => Some(CommandType::SetNewCam),
            0x10 => Some(CommandType::GetPdos),
            0x11 => Some(CommandType::GetCableProperty),
            0x12 => Some(CommandType::GetConnectorStatus),
            0x13 => Some(CommandType::GetErrorStatus),
            0x14 => Some(CommandType::SetPowerLevel),
            0x15 => Some(CommandType::GetPdMessage),
            0x16 => Some(CommandType::GetAttentionVdo),
            0x18 => Some(CommandType::GetCamCs),
            0x19 => Some(CommandType::LpmFwUpdateRequest),
            0x1A => Some(CommandType::SecurityRequest),
            0x1B => Some(CommandType::SetRetimerMode),
            0x1C => Some(CommandType::SetSinkPath),
            0x1D => Some(CommandType::SetPdos),
            0x1E => Some(CommandType::ReadPowerLevel),
            0x1F => Some(CommandType::ChunkingSupport),
            0x21 => Some(CommandType::SetUsb),
            0x22 => Some(CommandType::GetLpmPpmInfo),
            _ => None,
        }
    }

    /// Whether a command of this type is answered with response data.
    pub open spec fn answers_with_data(self) -> bool {
        !(self == CommandType::PpmReset || self == CommandType::Cancel || self
            == CommandType::ConnectorReset || self == CommandType::AckCcCi || self
            == CommandType::SetNotificationEnable || self == CommandType::SetCcom || self
            == CommandType::SetUor || self == CommandType::SetPdr || self
            == CommandType::SetNewCam)
    }

    /// Returns true if this command has response data
    pub fn has_response(&self) -> (has: bool)
        ensures
            has == self.answers_with_data(),
    {
        !matches!(
            self,
            CommandType::PpmReset
                | CommandType::Cancel
                | CommandType::ConnectorReset
                | CommandType::AckCcCi
                | CommandType::SetNotificationEnable
                | CommandType::SetCcom
                | CommandType::SetUor
                | CommandType::SetPdr
                | CommandType::SetNewCam
        )
    }

    /// Every command is found again from its opcode, and an opcode that
    /// stands for a command is that command's opcode.
    pub proof fn opcode_round_trip(command: CommandType, value: u8)
        ensures
            CommandType::of_opcode(command.opcode()) == Some(command),
            CommandType::of_opcode(value) == Some(command) ==> command.opcode() == value,
            CommandType::of_opcode(value) is Some <==> Allowed::CommandType.admits(value as u32),
    {
    }
}

/// Invalid command type error, holds the opcode that stands for no command.
#[derive(Copy, Clone, Debug, PartialEq, Eq)]
pub struct InvalidCommandType(pub u8);

impl From<InvalidCommandType> for PdError {
    fn from(_error: InvalidCommandType) -> (error: PdError) {
        PdError::InvalidParams
    }
}

impl FromSpecImpl<InvalidCommandType> for PdError {
    open spec fn obeys_from_spec() -> bool {
        true
    }

    open spec fn from_spec(_error: InvalidCommandType) -> PdError {
        PdError::InvalidParams
    }
}

impl TryFrom<u8> for CommandType {
    type Error = InvalidCommandType;

    fn try_from(value: u8) -> (command: Result<Self, InvalidCommandType>) {
        match value {
            0x01 => Ok(CommandType::PpmReset),
            0x02 => Ok(CommandType::Cancel),
            0x03 => Ok(CommandType::ConnectorReset),
            0x04 => Ok(CommandType::AckCcCi),
            0x05 => Ok(CommandType::SetNotificationEnable),
            0x06 => Ok(CommandType::GetCapability),
            0x07 => Ok(CommandType::GetConnectorCapability),
            0x08 => Ok(CommandType::SetCcom),
            0x09 => Ok(CommandType::SetUor),
            0x0A => Ok(CommandType::SetPdm),
            0x0B => Ok(CommandType::SetPdr),
            0x0C => Ok(CommandType::GetAlternateModes),
            0x0D => Ok(CommandType::GetCamSupported),
            0x0E => Ok(CommandType::GetCurrentCam),
            0x0F => Ok(CommandType::SetNewCam),
            0x10 => Ok(CommandType::GetPdos),
            0x11 => Ok(CommandType::GetCableProperty),
            0x12 => Ok(CommandType::GetConnectorStatus),
            0x13 => Ok(CommandType::GetErrorStatus),
            0x14 => Ok(CommandType::SetPowerLevel),
            0x15 => Ok(CommandType::GetPdMessage),
            0x16 => Ok(CommandType::GetAttentionVdo),
            0x18 => Ok(CommandType::GetCamCs),
            0x19 => Ok(CommandType::LpmFwUpdateRequest),
            0x1A => Ok(CommandType::SecurityRequest),
            0x1B => Ok(CommandType::SetRetimerMode),
            0x1C => Ok(CommandType::SetSinkPath),
            0x1D => Ok(CommandType::SetPdos),
            0x1E => Ok(CommandType::ReadPowerLevel),
            0x1F => Ok(CommandType::ChunkingSupport),
            0x21 => Ok(CommandType::SetUsb),
            0x22 => Ok(CommandType::GetLpmPpmInfo),
            _ => Err(InvalidCommandType(value)),
        }
    }
}

impl TryFromSpecImpl<u8> for CommandType {
    open spec fn obeys_try_from_spec() -> bool {
        true
    }

    open spec fn try_from_spec(value: u8) -> Result<Self, InvalidCommandType> {
        match CommandType::of_opcode(value) {
            Some(command) => Ok(command),
            None => Err(InvalidCommandType(value)),
        }
    }
}

impl From<CommandType> for u8 {
    fn from(command: CommandType) -> (opcode: u8) {
        match command {
            CommandType::PpmReset => 0x01,
            CommandType::Cancel => 0x02,
            CommandType::ConnectorReset => 0x03,
            CommandType::AckCcCi => 0x04,
            CommandType::SetNotificationEnable => 0x05,
            CommandType::GetCapability => 0x06,
            CommandType::GetConnectorCapability => 0x07,
            CommandType::SetCcom => 0x08,
            CommandType::SetUor => 0x09,
            CommandType::SetPdm => 0x0A,
            CommandType::SetPdr => 0x0B,
            CommandType::GetAlternateModes => 0x0C,
            CommandType::GetCamSupported => 0x0D,
            CommandType::GetCurrentCam => 0x0E,
            CommandType::SetNewCam => 0x0F,
            CommandType::GetPdos => 0x10,
            CommandType::GetCableProperty => 0x11,
            CommandType::GetConnectorStatus => 0x12,
            CommandType::GetErrorStatus => 0x13,
            CommandType::SetPowerLevel => 0x14,
            CommandType::GetPdMessage => 0x15,
            CommandType::GetAttentionVdo => 0x16,
            CommandType::GetCamCs => 0x18,
            CommandType::LpmFwUpdateRequest => 0x19,
            CommandType::SecurityRequest => 0x1A,
            CommandType::SetRetimerMode => 0x1B,
            CommandType::SetSinkPath => 0x1C,
            CommandType::SetPdos => 0x1D,
            CommandType::ReadPowerLevel => 0x1E,
            CommandType::ChunkingSupport => 0x1F,
            CommandType::SetUsb => 0x21,
            CommandType::GetLpmPpmInfo => 0x22,
        }
    }
}

impl FromSpecImpl<CommandType> for u8 {
    open spec fn obeys_from_spec() -> bool {
        true
    }

    open spec fn from_spec(command: CommandType) -> u8 {
        command.opcode()
    }
}

/// Bit at which the opcode starts in the header word.
pub const HEADER_COMMAND_LSB: u32 = 0;

/// Bit at which the data length starts in the header word.
pub const HEADER_DATA_LEN_LSB: u32 = 8;

/// Width in bits of each of the header's two fields.
pub const HEADER_FIELD_WIDTH: u32 = 8;

/// Header shared by all UCSI commands: the command and a data length.
///
/// The data length is carried as found; the length of a command is fixed by
/// its opcode.
#[derive(Copy, Clone, Debug, PartialEq, Eq)]
pub struct CommandHeader {
    /// The command that the header names
    pub command: CommandType,
    /// The data length that the header carries
    pub data_len: u8,
}

impl CommandHeader {
    /// The header word: the opcode in the low byte, the data length in the high byte.
    pub open spec fn word(self) -> u16 {
        (self.command.opcode() as u16) | ((self.data_len as u16) << 8)
    }

    /// The header's two bytes on the wire.
    pub open spec fn encoding(self) -> Seq<u8> {
        seq![self.command.opcode(), self.data_len]
    }

    /// The header that a header word stands for, or the word's opcode if it
    /// stands for no command.
    pub open spec fn of_word(word: u16) -> Result<CommandHeader, InvalidCommandType> {
        let opcode = bits::field(word as u32, HEADER_COMMAND_LSB, HEADER_FIELD_WIDTH) as u8;
        let data_len = bits::field(word as u32, HEADER_DATA_LEN_LSB, HEADER_FIELD_WIDTH) as u8;
        match CommandType::of_opcode(opcode) {
            Some(command) => Ok((CommandHeader { command, data_len })),
            None => Err(InvalidCommandType(opcode)),
        }
    }

    /// What decoding a header from the head of `bytes` yields.
    pub open spec fn decoding(bytes: Seq<u8>) -> Result<(CommandHeader, usize), DecodeError> {
        match wire::reading_u16(bytes) {
            Err(error) => Err(error),
            Ok((word, taken)) => match CommandHeader::of_word(word) {
                Ok(header) => Ok((header, taken)),
                Err(_) => Err(
                    DecodeError::UnexpectedVariant {
                        allowed: Allowed::CommandType,
                        found: word as u32,
                    },
                ),
            },
        }
    }

    /// A header decodes from its encoding, whatever follows it.
    pub proof fn decoding_of_encoding(header: CommandHeader, tail: Seq<u8>)
        ensures
            CommandHeader::decoding(header.encoding() + tail) == Ok::<
                (CommandHeader, usize),
                DecodeError,
            >((header, HEADER_LEN)),
            (header.encoding() + tail).skip(HEADER_LEN as int) == tail,
    {
        let opcode = header.command.opcode();
        let data_len = header.data_len;
        let word = (opcode as u16) | ((data_len as u16) << 8);
        assert(bits::field(word as u32, HEADER_COMMAND_LSB, HEADER_FIELD_WIDTH) == opcode
            && bits::field(word as u32, HEADER_DATA_LEN_LSB, HEADER_FIELD_WIDTH) == data_len)
            by (bit_vector)
            requires
                word == (opcode as u16) | ((data_len as u16) << 8),
        ;
        CommandType::opcode_round_trip(header.command, opcode);
        assert((header.encoding() + tail).skip(HEADER_LEN as int) =~= tail);
    }

    /// Create a new command header
    pub fn new(command: CommandType, data_len: u8) -> (header: Self)
        ensures
            header == (CommandHeader { command, data_len }),
    {
        CommandHeader { command, data_len }
    }

    /// Returns command type
    pub fn command(&self) -> (command: CommandType)
        ensures
            command == self.command,
    {
        self.command
    }

    /// Sets command type
    pub fn set_command(&mut self, command: CommandType) -> (header: &mut Self)
        ensures
            *header == (CommandHeader { command, data_len: old(self).data_len }),
            *final(header) == *final(self),
    {
        self.command = command;
        self
    }

    /// Returns data length
    pub fn data_len(&self) -> (len: u8)
        ensures
            len == self.data_len,
    {
        self.data_len
    }

    /// Sets data length
    pub fn set_data_len(&mut self, len: u8) -> (header: &mut Self)
        ensures
            *header == (CommandHeader { command: old(self).command, data_len: len }),
            *final(header) == *final(self),
    {
        self.data_len = len;
        self
    }

    /// Appends the header's two bytes to `out`.
    pub fn encode(&self, out: &mut Vec<u8>)
        ensures
            final(out)@ == old(out)@ + self.encoding(),
    {
        wire::write_u8(out, u8::from(self.command));
        wire::write_u8(out, self.data_len);
        assert(out@ =~= old(out)@ + self.encoding());
    }

    /// Decodes a header from the head of `bytes`.
    ///
    /// Fails with `UnexpectedEnd` if fewer than two bytes are given, and with
    /// `UnexpectedVariant`, holding the header word, if the opcode stands for
    /// no command.
    pub fn decode(bytes: &[u8]) -> (decoded: Result<(Self, usize), DecodeError>)
        ensures
            decoded == CommandHeader::decoding(bytes@),
    {
        let (word, taken) = match wire::read_u16(bytes) {
            Ok(read) => read,
            Err(error) => { return Err(error); },
        };
        match CommandHeader::try_from(word) {
            Ok(header) => Ok((header, taken)),
            Err(_) => Err(
                DecodeError::UnexpectedVariant {
                    allowed: Allowed::CommandType,
                    found: word as u32,
                },
            ),
        }
    }
}

impl TryFrom<u16> for CommandHeader {
    type Error = InvalidCommandType;

    fn try_from(word: u16) -> (header: Result<Self, InvalidCommandType>) {
        let opcode = bits::get_field_u8(word as u32, HEADER_COMMAND_LSB, HEADER_FIELD_WIDTH);
        let data_len = bits::get_field_u8(word as u32, HEADER_DATA_LEN_LSB, HEADER_FIELD_WIDTH);
        match CommandType::try_from(opcode) {
            Ok(command) => Ok(CommandHeader { command, data_len }),
            Err(error) => Err(error),
        }
    }
}

impl TryFromSpecImpl<u16> for CommandHeader {
    open spec fn obeys_try_from_spec() -> bool {
        true
    }

    open spec fn try_from_spec(word: u16) -> Result<Self, InvalidCommandType> {
        CommandHeader::of_word(word)
    }
}

/// UCSI commands
#[derive(Copy, Clone, Debug, PartialEq, Eq)]
pub enum Command<T: PortId> {
    /// A command that the PPM handles itself
    PpmCommand(ppm::Command),
    /// A command that the PPM hands to an LPM
    LpmCommand(lpm::Command<T>),
}

/// A command for a port of all controllers.
pub type GlobalCommand = Command<GlobalPortId>;

/// A command for a port of one controller.
pub type LocalCommand = Command<LocalPortId>;

impl<T: PortId> Command<T> {
    /// The type of the command.
    pub open spec fn kind(self) -> CommandType {
        match self {
            Command::PpmCommand(command) => command.kind(),
            Command::LpmCommand(command) => command.operation.kind(),
        }
    }

    /// Whether a command of this type is one that the PPM handles itself.
    pub open spec fn handled_by_ppm(kind: CommandType) -> bool {
        kind == CommandType::PpmReset || kind == CommandType::Cancel || kind
            == CommandType::GetCapability || kind == CommandType::AckCcCi || kind
            == CommandType::SetNotificationEnable
    }

    /// The command mailbox: eight bytes, the header and what follows it.
    pub open spec fn encoding(self) -> Seq<u8> {
        match self {
            Command::PpmCommand(command) => (CommandHeader {
                command: command.kind(),
                data_len: 0,
            }).encoding() + command.encoding(),
            Command::LpmCommand(command) => command.encoding(),
        }
    }

    /// What decoding a command from the head of `bytes` yields: the header
    /// is decoded first, and its command type says how to decode the rest.
    pub open spec fn decoding(bytes: Seq<u8>) -> Result<(Command<T>, usize), DecodeError> {
        match CommandHeader::decoding(bytes) {
            Err(error) => Err(error),
            Ok((header, taken)) => if Command::<T>::handled_by_ppm(header.command) {
                match ppm::Command::decoding_with(header.command, bytes.skip(taken as int)) {
                    Err(error) => Err(error),
                    Ok((command, more)) => Ok(
                        (Command::PpmCommand(command), (taken + more) as usize),
                    ),
                }
            } else {
                match lpm::Command::<T>::decoding_with(header.command, bytes.skip(taken as int)) {
                    Err(error) => Err(error),
                    Ok((command, more)) => Ok(
                        (Command::LpmCommand(command), (taken + more) as usize),
                    ),
                }
            },
        }
    }

    /// Whether the command keeps its values on the wire.
    pub open spec fn fits(self) -> bool {
        match self {
            Command::PpmCommand(_) => true,
            Command::LpmCommand(command) => command.fits(),
        }
    }

    /// Returns the command type for this command
    pub fn command_type(&self) -> (kind: CommandType)
        ensures
            kind == self.kind(),
    {
        match self {
            Command::PpmCommand(cmd) => cmd.command_type(),
            Command::LpmCommand(cmd) => cmd.command_type(),
        }
    }

    /// Appends the command mailbox: eight bytes.
    pub fn encode(&self, out: &mut Vec<u8>)
        ensures
            final(out)@ == old(out)@ + self.encoding(),
    {
        match self {
            Command::PpmCommand(command) => {
                CommandHeader::new(command.command_type(), 0).encode(out);
                command.encode(out);
                assert(out@ =~= old(out)@ + self.encoding());
            },
            Command::LpmCommand(command) => command.encode(out),
        }
    }

    /// Deserialize a command from a slice
    ///
    /// Returns the command and the number of bytes that it took. Fails
    /// with `UnexpectedEnd` if bytes are missing, and with
    /// `UnexpectedVariant` if the opcode stands for no command, for a
    /// command that cannot be decoded, or if an argument holds a value that
    /// its type does not admit.
    pub fn decode_from_slice(bytes: &[u8]) -> (decoded: Result<(Self, usize), DecodeError>)
        ensures
            decoded == Command::<T>::decoding(bytes@),
    {
        let (header, taken) = CommandHeader::decode(bytes)?;
        let left = wire::rest(bytes, taken);
        match header.command() {
            // PPM commands
            CommandType::PpmReset
            | CommandType::Cancel
            | CommandType::GetCapability
            | CommandType::AckCcCi
            | CommandType::SetNotificationEnable => {
                let (command, more) = ppm::Command::decode_with(header, left)?;
                Ok((Command::PpmCommand(command), taken + more))
            },
            // All other commands are LPM commands
            _ => {
                let (command, more) = lpm::Command::decode_with(header, left)?;
                Ok((Command::LpmCommand(command), taken + more))
            },
        }
    }

    /// Every command fills the mailbox: its encoding has eight bytes, and
    /// a decoder that succeeds has taken eight bytes.
    pub proof fn mailbox_is_eight_bytes(command: Command<T>, bytes: Seq<u8>)
        ensures
            command.encoding().len() == COMMAND_LEN,
            Command::<T>::decoding(bytes) matches Ok((_, taken)) ==> taken == COMMAND_LEN
                && bytes.len() >= COMMAND_LEN,
    {
        match command {
            Command::LpmCommand(inner) => match inner.operation {
                lpm::CommandData::SetPowerLevel(args) => {
                    lpm::set_power_level::Args::holds_six_bytes(args);
                },
                _ => {},
            },
            _ => {},
        }
    }

    /// A command that fits decodes from its mailbox, whatever follows it.
    pub proof fn decoding_of_encoding(command: Command<T>, tail: Seq<u8>)
        requires
            command.fits(),
        ensures
            Command::<T>::decoding(command.encoding() + tail) == Ok::<
                (Command<T>, usize),
                DecodeError,
            >((command, COMMAND_LEN)),
            command.encoding().len() == COMMAND_LEN,
    {
        let header = CommandHeader { command: command.kind(), data_len: 0 };
        match command {
            Command::PpmCommand(inner) => {
                ppm::Command::decoding_of_encoding(inner, tail);
                assert(command.encoding() + tail =~= header.encoding() + (inner.encoding() + tail));
                CommandHeader::decoding_of_encoding(header, inner.encoding() + tail);
            },
            Command::LpmCommand(inner) => {
                let rest = inner.encoding().skip(HEADER_LEN as int);
                lpm::Command::decoding_with_of_encoding(inner, tail);
                assert(command.encoding() + tail =~= header.encoding() + (rest + tail));
                CommandHeader::decoding_of_encoding(header, rest + tail);
            },
        }
    }
}

/// UCSI command response data
#[derive(Copy, Clone, Debug, PartialEq, Eq)]
pub enum ResponseData {
    /// Response data of a command that the PPM handles itself
    Ppm(ppm::ResponseData),
    /// Response data of a command that the PPM hands to an LPM
    Lpm(lpm::ResponseData),
}

impl ResponseData {
    /// The type of the command that the data responds to.
    pub open spec fn kind(self) -> CommandType {
        match self {
            ResponseData::Ppm(data) => data.kind(),
            ResponseData::Lpm(data) => data.kind(),
        }
    }

    /// The response data on the wire.
    pub open spec fn encoding(self) -> Seq<u8> {
        match self {
            ResponseData::Ppm(data) => data.encoding(),
            ResponseData::Lpm(data) => data.encoding(),
        }
    }

    /// What decoding the data that responds to a command of type `kind`
    /// from the head of `bytes` yields.
    pub open spec fn decoding_with(kind: CommandType, bytes: Seq<u8>) -> Result<
        (ResponseData, usize),
        DecodeError,
    > {
        if kind == CommandType::GetCapability {
            match ppm::ResponseData::decoding_with(kind, bytes) {
                Ok((data, taken)) => Ok((ResponseData::Ppm(data), taken)),
                Err(error) => Err(error),
            }
        } else {
            match lpm::ResponseData::decoding_with(kind, bytes) {
                Ok((data, taken)) => Ok((ResponseData::Lpm(data), taken)),
                Err(error) => Err(error),
            }
        }
    }

    /// Whether the data keeps its values on the wire.
    pub open spec fn fits(self) -> bool {
        match self {
            ResponseData::Ppm(data) => data.fits(),
            ResponseData::Lpm(data) => data.fits(),
        }
    }

    /// Appends the response data.
    pub fn encode(&self, out: &mut Vec<u8>)
        ensures
            final(out)@ == old(out)@ + self.encoding(),
    {
        match self {
            ResponseData::Ppm(resp) => resp.encode(out),
            ResponseData::Lpm(resp) => resp.encode(out),
        }
    }

    /// Decodes the data that responds to a command of type `command_type`.
    pub fn decode_with(command_type: CommandType, bytes: &[u8]) -> (decoded: Result<
        (Self, usize),
        DecodeError,
    >)
        ensures
            decoded == ResponseData::decoding_with(command_type, bytes@),
    {
        match command_type {
            CommandType::GetCapability => {
                let (data, taken) = ppm::ResponseData::decode_with(command_type, bytes)?;
                Ok((ResponseData::Ppm(data), taken))
            },
            _ => {
                let (data, taken) = lpm::ResponseData::decode_with(command_type, bytes)?;
                Ok((ResponseData::Lpm(data), taken))
            },
        }
    }

    /// Encodes the response into a slice
    ///
    /// If the slice is as long as the encoding or longer, the encoding is
    /// written to its head, what follows is left as it is, and the length
    /// of the encoding is returned. If not, nothing is written and the
    /// encoding fails with `UnexpectedEnd`.
    pub fn encode_into_slice(&self, bytes: &mut [u8]) -> (written: Result<usize, EncodeError>)
        ensures
            final(bytes)@.len() == old(bytes)@.len(),
            self.encoding().len() <= old(bytes)@.len() ==> written == Ok::<usize, EncodeError>(
                self.encoding().len() as usize,
            ) && final(bytes)@ == self.encoding() + old(bytes)@.skip(self.encoding().len() as int),
            self.encoding().len() > old(bytes)@.len() ==> written == Err::<usize, EncodeError>(
                EncodeError::UnexpectedEnd,
            ) && final(bytes)@ == old(bytes)@,
    {
        let mut encoded: Vec<u8> = Vec::new();
        self.encode(&mut encoded);
        assert(encoded@ =~= self.encoding());
        wire::copy_to_head(bytes, encoded.as_slice())
    }

    /// Response data that fits decodes from its encoding, whatever follows
    /// it, when the decoder is told the type of the command.
    pub proof fn decoding_of_encoding(response: ResponseData, tail: Seq<u8>)
        requires
            response.fits(),
        ensures
            ResponseData::decoding_with(response.kind(), response.encoding() + tail) == Ok::<
                (ResponseData, usize),
                DecodeError,
            >((response, response.encoding().len() as usize)),
    {
        match response {
            ResponseData::Ppm(data) => {
                ppm::ResponseData::decoding_of_encoding(data, tail);
            },
            ResponseData::Lpm(data) => {
                lpm::ResponseData::decoding_of_encoding(data, tail);
            },
        }
    }
}

/// UCSI command response
#[derive(Copy, Clone, Debug)]
pub struct Response<T: PortId> {
    /// CCI is produced by every command
    pub cci: cci::Cci<T>,
    /// Response data for the command
    pub data: Option<ResponseData>,
}

impl<T: PortId> From<cci::Cci<T>> for Response<T> {
    fn from(cci: cci::Cci<T>) -> (response: Self) {
        Response { cci, data: None }
    }
}

impl<T: PortId> FromSpecImpl<cci::Cci<T>> for Response<T> {
    open spec fn obeys_from_spec() -> bool {
        true
    }

    open spec fn from_spec(cci: cci::Cci<T>) -> Self {
        Response { cci, data: None }
    }
}

impl<T: PortId> From<ppm::Response<T>> for Response<T> {
    fn from(response: ppm::Response<T>) -> (general: Self) {
        Response {
            cci: response.cci,
            data: match response.data {
                Some(data) => Some(ResponseData::Ppm(data)),
                None => None,
            },
        }
    }
}

impl<T: PortId> FromSpecImpl<ppm::Response<T>> for Response<T> {
    open spec fn obeys_from_spec() -> bool {
        true
    }

    open spec fn from_spec(response: ppm::Response<T>) -> Self {
        Response {
            cci: response.cci,
            data: match response.data {
                Some(data) => Some(ResponseData::Ppm(data)),
                None => None,
            },
        }
    }
}

impl<T: PortId> From<lpm::Response<T>> for Response<T> {
    fn from(response: lpm::Response<T>) -> (general: Self) {
        Response {
            cci: response.cci,
            data: match response.data {
                Some(data) => Some(ResponseData::Lpm(data)),
                None => None,
            },
        }
    }
}

impl<T: PortId> FromSpecImpl<lpm::Response<T>> for Response<T> {
    open spec fn obeys_from_spec() -> bool {
        true
    }

    open spec fn from_spec(response: lpm::Response<T>) -> Self {
        Response {
            cci: response.cci,
            data: match response.data {
                Some(data) => Some(ResponseData::Lpm(data)),
                None => None,
            },
        }
    }
}

/// A response that reports ports of all controllers.
pub type GlobalResponse = Response<GlobalPortId>;

/// A response that reports ports of one controller.
pub type LocalResponse = Response<LocalPortId>;

/// What each set of allowed values admits is what the decoders take: the
/// opcodes of the commands, and of the responses, that each decoder has a
/// layout for, and the numbers that stand for a value of each checked type.
pub proof fn allowed_is_what_decodes(kind: CommandType, number: u8)
    ensures
        Allowed::PpmCommand.admits(kind.opcode() as u32) <==> Command::<
            LocalPortId,
        >::handled_by_ppm(kind),
        Allowed::LpmCommand.admits(kind.opcode() as u32) <==> (lpm::CommandData::without_arguments(
            kind,
        ) is Some || lpm::CommandData::decoding_arguments(kind, Seq::<u8>::empty()) is Some),
        Allowed::PpmResponse.admits(kind.opcode() as u32) <==> !(ppm::ResponseData::decoding_with(
            kind,
            Seq::<u8>::empty(),
        ) matches Err(DecodeError::UnexpectedVariant { .. })),
        Allowed::LpmResponse.admits(kind.opcode() as u32) <==> !(lpm::ResponseData::decoding_with(
            kind,
            Seq::<u8>::empty(),
        ) matches Err(DecodeError::UnexpectedVariant { .. })),
        Allowed::Recipient.admits(number as u32) <==> lpm::Recipient::of_number(number) is Some,
        Allowed::Current.admits(number as u32) <==> lpm::set_power_level::Current::of_number(
            number,
        ) is Some,
        Allowed::PowerOperationMode.admits(number as u32)
            <==> lpm::get_connector_status::PowerOperationMode::of_number(number) is Some,
        Allowed::ConnectorPartnerType.admits(number as u32)
            <==> lpm::get_connector_status::ConnectorPartnerType::of_number(number) is Some,
        Allowed::BatteryChargingCapabilityStatus.admits(number as u32)
            <==> lpm::get_connector_status::BatteryChargingCapabilityStatus::of_number(
            number,
        ) is Some,
        Allowed::SourceCapabilityType.admits(number as u32)
            <==> lpm::get_pdos::SourceCapabilityType::of_number(number) is Some,
{
}

} // verus!
